//! Bindings, repeat timers, the hook's judgement, and the capture watcher.

use openlogi::binding::{
    bound_action, bound_gesture, Action, BindingMap, ButtonId, ButtonMap, GestureBindings,
    GestureDirection, OsAction,
};
use openlogi::config::AppSettings;
use openlogi::device::{same_route, DeviceRoute};
use openlogi::gesture::{
    dispatch, start_repeat_if_applicable, thumbwheel_armed, CaptureManager, CapturedInput,
    InputOrder, TARGET_POLL_MS,
};
use openlogi::hook::{EventDisposition, MouseEvent, StartReport};
use openlogi::hook_runtime::{
    conclude_dispatch, dispatch_action, is_native_click, on_event, start, start_hook_repeat,
    stop_hook_repeat, Dispatch, DispatchEnd, HookReaction,
};
use openlogi::platform::Platform;
use openlogi::repeat::{
    config_in_force, next_step, next_tick_step, RepeatChange, RepeatConfig, RepeatPhase,
    RepeatStart, RepeatStep, RepeatTimers, TickPhase, TickStep,
};

const VOLUME: Action = Action::Os(OsAction { id: 1, repeatable: true });
const COPY: Action = Action::Os(OsAction { id: 2, repeatable: false });
const QUIET: RepeatChange = RepeatChange { stop: None, start: None };
const ON: RepeatConfig = RepeatConfig { enabled: true, delay: 300, interval: 50 };
const OFF: RepeatConfig = RepeatConfig { enabled: false, delay: 300, interval: 50 };

fn bindings(pairs: &[(ButtonId, Action)]) -> BindingMap {
    let mut map = BindingMap::new();
    for &(button, action) in pairs {
        map.insert(button, action);
    }
    map
}

fn started(timer: u64, action: Action) -> RepeatStart {
    RepeatStart { timer, action, delay: 300, interval: 50 }
}

fn press(id: ButtonId) -> MouseEvent {
    MouseEvent::Button { id, pressed: true }
}

fn release(id: ButtonId) -> MouseEvent {
    MouseEvent::Button { id, pressed: false }
}

fn passed() -> HookReaction {
    HookReaction {
        flash: None,
        rearm: false,
        dispatch: None,
        repeat: QUIET,
        disposition: EventDisposition::PassThrough,
    }
}

#[test]
fn button_map_keeps_buttons_apart() {
    let mut map: ButtonMap<u32> = ButtonMap::new();
    for (i, b) in ButtonId::all().into_iter().enumerate() {
        assert_eq!(b.key(), i as u64);
        assert_eq!(map.insert(b, i as u32), None);
    }
    for (i, b) in ButtonId::all().into_iter().enumerate() {
        assert_eq!(map.get(b), Some(&(i as u32)));
    }
    assert_eq!(map.insert(ButtonId::Back, 77), Some(3));
    assert_eq!(map.remove(ButtonId::Back), Some(77));
    assert_eq!(map.remove(ButtonId::Back), None);
    assert_eq!(map.get(ButtonId::Forward), Some(&4));
}

#[test]
fn unreadable_bindings_bind_nothing() {
    let map = bindings(&[(ButtonId::Back, COPY)]);
    assert_eq!(bound_action(Some(&map), ButtonId::Back), Some(COPY));
    assert_eq!(bound_action(Some(&map), ButtonId::Forward), None);
    assert_eq!(bound_action(None, ButtonId::Back), None);
    let mut gestures = GestureBindings::new();
    gestures.insert(GestureDirection { code: 3 }, VOLUME);
    assert_eq!(bound_gesture(Some(&gestures), GestureDirection { code: 3 }), Some(VOLUME));
    assert_eq!(bound_gesture(Some(&gestures), GestureDirection { code: 4 }), None);
    assert_eq!(bound_gesture(None, GestureDirection { code: 3 }), None);
}

#[test]
fn only_marked_os_actions_repeat() {
    assert!(VOLUME.is_repeatable());
    for a in [
        COPY,
        Action::LeftClick,
        Action::RightClick,
        Action::MiddleClick,
        Action::CycleDpiPresets,
        Action::SetDpiPreset(1),
        Action::ToggleSmartShift,
    ] {
        assert!(!a.is_repeatable());
    }
}

#[test]
fn repeat_config_from_settings() {
    let settings = |delay, interval| AppSettings {
        language: None,
        launch_at_login: false,
        check_for_updates: false,
        show_in_menu_bar: true,
        key_repeat_enabled: true,
        key_repeat_delay_ms: delay,
        key_repeat_interval_ms: interval,
    };
    assert_eq!(
        RepeatConfig::from_settings(&settings(250, 30)),
        RepeatConfig { enabled: true, delay: 250, interval: 30 }
    );
    // A misconfigured zero never spins a tight loop.
    assert_eq!(RepeatConfig::from_settings(&settings(0, 0)).interval, 1);
    assert_eq!(RepeatConfig::from_settings(&settings(0, 0)).delay, 0);
    assert_eq!(
        RepeatConfig::default(),
        RepeatConfig { enabled: true, delay: 400, interval: 60 }
    );
    assert_eq!(config_in_force(None), RepeatConfig::default());
    assert_eq!(config_in_force(Some(OFF)), OFF);
}

#[test]
fn repeats_land_after_delay_and_then_every_interval() {
    let start = started(1, VOLUME);
    let mut phase = RepeatPhase::Begin;
    let (mut slept, mut fires) = (0, Vec::new());
    while fires.len() < 4 {
        let (next, step) = next_step(&start, phase, false);
        phase = next;
        match step {
            RepeatStep::Sleep(ms) => slept += ms,
            RepeatStep::Fire => fires.push(slept),
            RepeatStep::End => panic!("ended on its own"),
        }
    }
    assert_eq!(fires, vec![300, 350, 400, 450]);
}

#[test]
fn ticks_do_not_drift() {
    let start = started(1, VOLUME);
    let mut phase = TickPhase::Begin;
    let (mut now, mut due, mut period) = (0, 0, 0);
    let mut fires = Vec::new();
    for _ in 0..11 {
        let (next, step) = next_tick_step(&start, phase);
        phase = next;
        match step {
            TickStep::Sleep(ms) => now += ms,
            TickStep::StartTicks(ms) => (due, period) = (now, ms),
            TickStep::AwaitTick => {
                now = now.max(due);
                due += period;
            }
            TickStep::Fire => {
                fires.push(now);
                // The fire itself takes a while.
                now += 30;
            }
        }
    }
    assert_eq!(fires, vec![300, 350, 400, 450]);
}

#[test]
fn stopped_timer_never_fires() {
    let start = started(1, VOLUME);
    for phase in [RepeatPhase::Begin, RepeatPhase::Woken, RepeatPhase::Fired, RepeatPhase::Ended] {
        let (p1, s1) = next_step(&start, phase, true);
        let (p2, s2) = next_step(&start, p1, true);
        assert_ne!(s1, RepeatStep::Fire);
        assert_ne!(s2, RepeatStep::Fire);
        assert_eq!(p2, RepeatPhase::Ended);
    }
    assert_eq!(
        next_step(&start, RepeatPhase::Ended, false),
        (RepeatPhase::Ended, RepeatStep::End)
    );
}

#[test]
fn one_timer_per_button() {
    let mut timers = RepeatTimers::new();
    let first = timers.start(ButtonId::Back, Some(ON), VOLUME, 1);
    assert_eq!(first, RepeatChange { stop: None, start: Some(started(1, VOLUME)) });
    let other = timers.start(ButtonId::Forward, Some(ON), VOLUME, 2);
    assert_eq!(other.stop, None);
    // A second press whose release was missed ends the stale timer.
    let again = timers.start(ButtonId::Back, Some(ON), VOLUME, 3);
    assert_eq!(again, RepeatChange { stop: Some(1), start: Some(started(3, VOLUME)) });
    assert_eq!(timers.stop(ButtonId::Back), Some(3));
    assert_eq!(timers.stop(ButtonId::Back), None);
    assert_eq!(timers.drain(), vec![2]);
    assert_eq!(timers.drain(), Vec::<u64>::new());
}

#[test]
fn drain_ends_every_timer() {
    let mut timers = RepeatTimers::new();
    for (i, b) in ButtonId::all().into_iter().enumerate() {
        timers.start(b, None, VOLUME, 10 + i as u64);
    }
    assert_eq!(timers.drain(), (10..18).collect::<Vec<u64>>());
    assert_eq!(timers.stop(ButtonId::Thumbwheel), None);
}

#[test]
fn nothing_repeats_without_leave() {
    let mut timers = RepeatTimers::new();
    assert_eq!(timers.start(ButtonId::Back, Some(OFF), VOLUME, 1), QUIET);
    assert_eq!(timers.start(ButtonId::Back, Some(ON), COPY, 2), QUIET);
    assert_eq!(start_hook_repeat(ButtonId::Back, &COPY, Some(ON), &mut timers, 3), QUIET);
    assert_eq!(stop_hook_repeat(ButtonId::Back, &mut timers), None);
    assert_eq!(timers.drain(), Vec::<u64>::new());
}

#[test]
fn primary_clicks_and_wheel_pass() {
    let map = bindings(&[(ButtonId::LeftClick, COPY), (ButtonId::RightClick, VOLUME)]);
    let mut timers = RepeatTimers::new();
    for event in [
        press(ButtonId::LeftClick),
        release(ButtonId::LeftClick),
        press(ButtonId::RightClick),
        MouseEvent::Scroll { delta_x: 0, delta_y: -120 },
        press(ButtonId::DpiToggle),
        press(ButtonId::GestureButton),
    ] {
        assert_eq!(on_event(event, Some(&map), Some(ON), &mut timers, 1), passed());
    }
}

#[test]
fn visible_presses_are_flashed_and_side_buttons_rearm() {
    let map = BindingMap::new();
    let mut timers = RepeatTimers::new();
    for (id, rearm) in [
        (ButtonId::MiddleClick, false),
        (ButtonId::Back, true),
        (ButtonId::Forward, true),
    ] {
        assert_eq!(
            on_event(press(id), Some(&map), Some(ON), &mut timers, 1),
            HookReaction { flash: Some(id), rearm, ..passed() }
        );
        assert_eq!(on_event(release(id), Some(&map), Some(ON), &mut timers, 1), passed());
        assert_eq!(
            on_event(press(id), None, Some(ON), &mut timers, 1).disposition,
            EventDisposition::PassThrough
        );
    }
}

#[test]
fn native_click_passes_and_a_rebound_one_is_replaced() {
    let native = bindings(&[(ButtonId::MiddleClick, Action::MiddleClick)]);
    let rebound = bindings(&[(ButtonId::MiddleClick, Action::LeftClick)]);
    let mut timers = RepeatTimers::new();
    let id = ButtonId::MiddleClick;
    assert_eq!(
        on_event(press(id), Some(&native), Some(ON), &mut timers, 1),
        HookReaction { flash: Some(id), ..passed() }
    );
    assert_eq!(
        on_event(press(id), Some(&rebound), Some(ON), &mut timers, 1),
        HookReaction {
            flash: Some(id),
            dispatch: Some(Action::LeftClick),
            disposition: EventDisposition::Suppress,
            ..passed()
        }
    );
    // The release goes the way of the press.
    assert_eq!(
        on_event(release(id), Some(&rebound), Some(ON), &mut timers, 1).disposition,
        EventDisposition::Suppress
    );
    assert!(is_native_click(ButtonId::LeftClick, &Action::LeftClick));
    assert!(is_native_click(ButtonId::RightClick, &Action::RightClick));
    assert!(!is_native_click(ButtonId::Back, &Action::LeftClick));
}

#[test]
fn held_side_button_repeats_until_released() {
    let map = bindings(&[(ButtonId::Back, VOLUME)]);
    let mut timers = RepeatTimers::new();
    assert_eq!(
        on_event(press(ButtonId::Back), Some(&map), Some(ON), &mut timers, 9),
        HookReaction {
            flash: Some(ButtonId::Back),
            rearm: true,
            dispatch: Some(VOLUME),
            repeat: RepeatChange { stop: None, start: Some(started(9, VOLUME)) },
            disposition: EventDisposition::Suppress,
        }
    );
    assert_eq!(
        on_event(release(ButtonId::Back), Some(&map), Some(OFF), &mut timers, 10),
        HookReaction {
            repeat: RepeatChange { stop: Some(9), start: None },
            disposition: EventDisposition::Suppress,
            ..passed()
        }
    );
    assert_eq!(timers.drain(), Vec::<u64>::new());
}

#[test]
fn hook_start_is_optional() {
    let live = |platform, trusted| start(platform, trusted, StartReport::Live(5));
    for hook in [live(Platform::Windows, false), live(Platform::MacOs, true)] {
        assert_eq!(hook.unwrap().stop().map(|t| t.thread), Some(5));
    }
    assert!(live(Platform::MacOs, false).is_none());
    let windows = |report| start(Platform::Windows, false, report);
    assert!(windows(StartReport::AccessibilityDenied).is_none());
    assert!(windows(StartReport::InstallFailed(5)).is_none());
    assert!(start(Platform::Other, false, StartReport::NoBackend).is_none());
}

#[test]
fn actions_are_routed() {
    assert_eq!(dispatch_action(&Action::CycleDpiPresets), Dispatch::CyclePresets);
    assert_eq!(dispatch_action(&Action::SetDpiPreset(3)), Dispatch::SelectPreset(3));
    assert_eq!(dispatch_action(&Action::ToggleSmartShift), Dispatch::ToggleSmartShift);
    assert_eq!(dispatch_action(&Action::LeftClick), Dispatch::Synthesize);
    assert_eq!(dispatch_action(&VOLUME), Dispatch::Synthesize);
}

#[test]
fn a_selected_preset_is_written() {
    let target = DeviceRoute::Direct { vendor_id: 1, product_id: 2 };
    match conclude_dispatch(&Action::CycleDpiPresets, Some((1600, target.clone()))) {
        DispatchEnd::WriteDpi { dpi, target: t } => {
            assert_eq!(dpi, 1600);
            assert!(same_route(&t, &target));
        }
        other => panic!("{other:?}"),
    }
    assert!(matches!(
        conclude_dispatch(&Action::SetDpiPreset(0), None),
        DispatchEnd::NoPresets
    ));
    assert!(matches!(
        conclude_dispatch(&Action::CycleDpiPresets, None),
        DispatchEnd::NoPresets
    ));
    assert!(matches!(conclude_dispatch(&COPY, None), DispatchEnd::Done));
}

fn asked(flash: Option<ButtonId>, action: Option<Action>) -> InputOrder {
    InputOrder { flash, dispatch: action, scroll: None, repeat: QUIET }
}

#[test]
fn captured_inputs_are_routed() {
    let map = bindings(&[(ButtonId::DpiToggle, Action::CycleDpiPresets)]);
    let mut gestures = GestureBindings::new();
    gestures.insert(GestureDirection { code: 1 }, COPY);
    let route = |input| dispatch(input, Some(&map), Some(&gestures));
    assert_eq!(
        route(CapturedInput::Gesture(GestureDirection { code: 1 })),
        asked(Some(ButtonId::GestureButton), Some(COPY))
    );
    assert_eq!(
        route(CapturedInput::Gesture(GestureDirection { code: 2 })),
        asked(Some(ButtonId::GestureButton), None)
    );
    assert_eq!(
        route(CapturedInput::ButtonPressed(ButtonId::DpiToggle)),
        asked(Some(ButtonId::DpiToggle), Some(Action::CycleDpiPresets))
    );
    assert_eq!(
        route(CapturedInput::ButtonPressed(ButtonId::Back)),
        asked(Some(ButtonId::Back), None)
    );
    assert_eq!(route(CapturedInput::ButtonReleased(ButtonId::DpiToggle)), asked(None, None));
    assert_eq!(
        route(CapturedInput::Scroll(-32768)),
        InputOrder { scroll: Some(-32768), ..asked(None, None) }
    );
}

#[test]
fn only_hold_capable_buttons_get_timers() {
    let all: Vec<(ButtonId, Action)> = ButtonId::all().into_iter().map(|b| (b, VOLUME)).collect();
    let map = bindings(&all);
    for b in ButtonId::all() {
        let mut timers = RepeatTimers::new();
        let change = start_repeat_if_applicable(b, Some(&map), Some(ON), &mut timers, 4);
        let capable = matches!(b, ButtonId::Back | ButtonId::Forward | ButtonId::DpiToggle);
        assert_eq!(change.start.is_some(), capable);
        assert_eq!(timers.drain().len(), usize::from(capable));
    }
    let mut timers = RepeatTimers::new();
    let unbound = BindingMap::new();
    assert_eq!(
        start_repeat_if_applicable(ButtonId::Back, Some(&unbound), Some(ON), &mut timers, 4),
        QUIET
    );
}

#[test]
fn thumb_wheel_is_diverted_only_when_rebound() {
    let default = COPY;
    assert!(!thumbwheel_armed(None, default));
    assert!(!thumbwheel_armed(Some(&BindingMap::new()), default));
    assert!(!thumbwheel_armed(Some(&bindings(&[(ButtonId::Thumbwheel, COPY)])), default));
    assert!(thumbwheel_armed(Some(&bindings(&[(ButtonId::Thumbwheel, VOLUME)])), default));
    assert!(!thumbwheel_armed(Some(&bindings(&[(ButtonId::Back, VOLUME)])), default));
}

fn device(slot: u8) -> Option<DeviceRoute> {
    Some(DeviceRoute::Bolt { receiver_uid: "R".to_string(), slot })
}

#[test]
fn capture_follows_the_active_device() {
    assert_eq!(TARGET_POLL_MS, 1000);
    let mut m = CaptureManager::new();
    let none = m.on_tick(None, false, 1);
    assert!(none.stop.is_none() && none.start.is_none());
    let first = m.on_tick(device(1), false, 2);
    let start = first.start.unwrap();
    assert!(first.stop.is_none());
    assert_eq!((start.session, start.thumbwheel), (2, false));
    assert!(same_route(&start.route, &device(1).unwrap()));
    // Steady: left alone.
    let same = m.on_tick(device(1), false, 3);
    assert!(same.stop.is_none() && same.start.is_none() && same.cancel.is_empty());
    // Another arming, another device, no device: each replaces the session.
    let armed = m.on_tick(device(1), true, 4);
    assert_eq!(armed.stop, Some(2));
    assert!(armed.start.unwrap().thumbwheel);
    let moved = m.on_tick(device(2), true, 5);
    assert_eq!(moved.stop, Some(4));
    assert_eq!(moved.start.unwrap().session, 5);
    let gone = m.on_tick(None, true, 6);
    assert_eq!(gone.stop, Some(5));
    assert!(gone.start.is_none());
}

#[test]
fn change_of_device_ends_all_timers() {
    let map = bindings(&[(ButtonId::Back, VOLUME), (ButtonId::DpiToggle, VOLUME)]);
    let gestures = GestureBindings::new();
    let mut m = CaptureManager::new();
    m.on_tick(device(1), false, 1);
    for (b, t) in [(ButtonId::DpiToggle, 11), (ButtonId::Back, 12)] {
        let order =
            m.on_input(CapturedInput::ButtonPressed(b), Some(&map), Some(&gestures), Some(ON), t);
        assert_eq!(order.flash, Some(b));
        assert_eq!(order.dispatch, Some(VOLUME));
        assert_eq!(order.repeat.start, Some(started(t, VOLUME)));
    }
    let order = m.on_tick(device(2), false, 2);
    assert_eq!(order.cancel, vec![12, 11]);
    let late = m.on_input(
        CapturedInput::ButtonReleased(ButtonId::Back),
        Some(&map),
        Some(&gestures),
        Some(ON),
        13,
    );
    assert_eq!(late.repeat, QUIET);
}

#[test]
fn release_always_ends_the_timer() {
    let map = bindings(&[(ButtonId::Forward, VOLUME)]);
    let gestures = GestureBindings::new();
    let mut m = CaptureManager::new();
    let pressed = CapturedInput::ButtonPressed(ButtonId::Forward);
    let released = CapturedInput::ButtonReleased(ButtonId::Forward);
    m.on_input(pressed, Some(&map), Some(&gestures), Some(ON), 7);
    // Neither the binding nor the configuration is there any more.
    let order = m.on_input(released, None, None, Some(OFF), 8);
    assert_eq!(order.repeat, RepeatChange { stop: Some(7), start: None });
}

#[test]
fn hook_release_ends_the_timer_of_a_button_unbound_while_held() {
    let map = bindings(&[(ButtonId::Back, VOLUME), (ButtonId::MiddleClick, VOLUME)]);
    let unbound = BindingMap::new();
    let native = bindings(&[(ButtonId::MiddleClick, Action::MiddleClick)]);
    let ended = |timer| HookReaction {
        repeat: RepeatChange { stop: Some(timer), start: None },
        ..passed()
    };
    let mut timers = RepeatTimers::new();
    on_event(press(ButtonId::Back), Some(&map), Some(ON), &mut timers, 7);
    assert_eq!(
        on_event(release(ButtonId::Back), Some(&unbound), Some(ON), &mut timers, 8),
        ended(7)
    );
    on_event(press(ButtonId::Back), Some(&map), Some(ON), &mut timers, 9);
    assert_eq!(on_event(release(ButtonId::Back), None, Some(OFF), &mut timers, 10), ended(9));
    // Back on its native click by the time of the release.
    on_event(press(ButtonId::MiddleClick), Some(&map), Some(ON), &mut timers, 11);
    assert_eq!(
        on_event(release(ButtonId::MiddleClick), Some(&native), Some(ON), &mut timers, 12),
        ended(11)
    );
    assert_eq!(timers.drain(), Vec::<u64>::new());
}

#[test]
fn dropped_session_is_restarted() {
    let map = bindings(&[(ButtonId::Back, VOLUME)]);
    let mut m = CaptureManager::new();
    m.on_tick(device(1), false, 1);
    m.on_input(CapturedInput::ButtonPressed(ButtonId::Back), Some(&map), None, Some(ON), 5);
    // The late end of an older session changes nothing.
    assert!(m.on_session_ended(99).cancel.is_empty());
    assert!(m.on_tick(device(1), false, 2).start.is_none());
    let dropped = m.on_session_ended(1);
    assert_eq!(dropped.cancel, vec![5]);
    assert!(dropped.stop.is_none() && dropped.start.is_none());
    let again = m.on_tick(device(1), false, 3);
    assert!(again.stop.is_none());
    assert_eq!(again.start.unwrap().session, 3);
}

#[test]
fn rearm_starts_afresh() {
    let map = bindings(&[(ButtonId::Back, VOLUME)]);
    let mut m = CaptureManager::new();
    m.on_tick(device(1), true, 1);
    m.on_input(CapturedInput::ButtonPressed(ButtonId::Back), Some(&map), None, Some(ON), 5);
    let order = m.rearm();
    assert_eq!((order.stop, order.cancel), (Some(1), vec![5]));
    assert!(order.start.is_none());
    // Its late end is no news.
    assert!(m.on_session_ended(1).cancel.is_empty());
    let again = m.on_tick(device(1), true, 2);
    assert!(again.stop.is_none());
    assert_eq!(again.start.unwrap().session, 2);
}

#[test]
fn a_missed_release_never_leaves_two_timers() {
    let map = bindings(&[(ButtonId::Back, VOLUME)]);
    let mut timers = RepeatTimers::new();
    let first = on_event(press(ButtonId::Back), Some(&map), Some(ON), &mut timers, 1);
    let second = on_event(press(ButtonId::Back), Some(&map), Some(ON), &mut timers, 2);
    assert_eq!((first.repeat.stop, second.repeat.stop), (None, Some(1)));
    assert_eq!(timers.drain(), vec![2]);

    let mut m = CaptureManager::new();
    let pressed = CapturedInput::ButtonPressed(ButtonId::Back);
    let first = m.on_input(pressed, Some(&map), None, Some(ON), 3);
    let second = m.on_input(pressed, Some(&map), None, Some(ON), 4);
    assert_eq!((first.repeat.stop, second.repeat.stop), (None, Some(3)));
    assert_eq!(m.rearm().cancel, vec![4]);
}
