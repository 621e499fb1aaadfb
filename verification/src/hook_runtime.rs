//! The bridge between captured mouse events and actions.
//!
//! Each event that the hook captures is judged here: whether it reaches its
//! target, which action it triggers, which repeat it starts or ends, and what
//! the rest of the app has to be told. The caller carries the judgement out.

use vstd::prelude::*;
use crate::binding;
use crate::binding::{bound_action, Action, BindingMap, ButtonId};
use crate::device::{DeviceRoute, RouteView};
use crate::hook;
use crate::hook::{EventDisposition, Hook, MouseEvent, StartReport};
use crate::platform::Platform;
use crate::repeat;
use crate::repeat::{RepeatChange, RepeatConfig, RepeatTimers};

verus! {

/// The judgement on one event.
#[derive(Clone, Copy, Debug, PartialEq, Eq, Structural)]
pub struct HookReaction {
    /// The button to highlight on the mouse diagram.
    pub flash: Option<ButtonId>,
    /// Whether the capture watcher has to re-arm.
    pub rearm: bool,
    /// The action to dispatch.
    pub dispatch: Option<Action>,
    /// What happens to the repeat timers.
    pub repeat: RepeatChange,
    /// What the OS does with the event.
    pub disposition: EventDisposition,
}

/// The event passes through and nothing else happens.
pub open spec fn untouched() -> HookReaction {
    HookReaction {
        flash: None,
        rearm: false,
        dispatch: None,
        repeat: repeat::no_change(),
        disposition: EventDisposition::PassThrough,
    }
}

/// The buttons that the hook remaps. The primary clicks always pass through
/// (suppressing them would brick the mouse), and the other buttons are not
/// visible to the hook.
pub open spec fn remapped(id: ButtonId) -> bool {
    id is MiddleClick || id is Back || id is Forward
}

/// Whether `action` is just the click that `id` already produces.
pub open spec fn native(id: ButtonId, action: Action) -> bool {
    ||| (id is LeftClick && action is LeftClick)
    ||| (id is RightClick && action is RightClick)
    ||| (id is MiddleClick && action is MiddleClick)
}

/// The action that the hook carries out in place of `id`: its binding, unless
/// that is its own native click.
pub open spec fn replacement(id: ButtonId, bindings: Map<ButtonId, Action>) -> Option<Action> {
    match binding::bound(bindings, id) {
        Some(action) if remapped(id) && !native(id, action) => Some(action),
        _ => None,
    }
}

/// The judgement on `event`. A release ends the repeat of its button whatever is
/// bound by then.
pub open spec fn judged(
    event: MouseEvent,
    bindings: Map<ButtonId, Action>,
    config: Option<RepeatConfig>,
    timers: Map<ButtonId, u64>,
    timer: u64,
) -> HookReaction {
    match event {
        MouseEvent::Button { id, pressed } if remapped(id) => {
            let seen = HookReaction {
                flash: if pressed {
                    Some(id)
                } else {
                    None
                },
                rearm: pressed && !(id is MiddleClick),
                repeat: if pressed {
                    repeat::no_change()
                } else {
                    RepeatChange { stop: binding::bound(timers, id), start: None }
                },
                ..untouched()
            };
            match replacement(id, bindings) {
                Some(action) if pressed => HookReaction {
                    dispatch: Some(action),
                    repeat: repeat::press_change(timers, id, config, action, timer),
                    disposition: EventDisposition::Suppress,
                    ..seen
                },
                Some(_) => HookReaction { disposition: EventDisposition::Suppress, ..seen },
                None => seen,
            }
        },
        _ => untouched(),
    }
}

/// The timers after `event`.
pub open spec fn judged_timers(
    event: MouseEvent,
    bindings: Map<ButtonId, Action>,
    config: Option<RepeatConfig>,
    timers: Map<ButtonId, u64>,
    timer: u64,
) -> Map<ButtonId, u64> {
    match event {
        MouseEvent::Button { id, pressed } => if pressed {
            match replacement(id, bindings) {
                Some(action) => repeat::press_timers(timers, id, config, action, timer),
                None => timers,
            }
        } else if remapped(id) {
            timers.remove(id)
        } else {
            timers
        },
        MouseEvent::Scroll { .. } => timers,
    }
}

/// Whether `action` is just `id`'s own native click. In that case the hook
/// passes the event through rather than suppress and re-synthesise it.
pub fn is_native_click(id: ButtonId, action: &Action) -> (r: bool)
    ensures
        r == native(id, *action),
{
    match (id, action) {
        (ButtonId::LeftClick, Action::LeftClick) => true,
        (ButtonId::RightClick, Action::RightClick) => true,
        (ButtonId::MiddleClick, Action::MiddleClick) => true,
        _ => false,
    }
}

/// Judges one captured event. `bindings` and `config` are what could be read
/// behind their locks; `timer` is the number for a timer that the press may
/// start.
pub fn on_event(
    event: MouseEvent,
    bindings: Option<&BindingMap>,
    config: Option<RepeatConfig>,
    timers: &mut RepeatTimers,
    timer: u64,
) -> (r: HookReaction)
    ensures
        r == judged(event, binding::bindings_view(bindings), config, old(timers)@, timer),
        final(timers)@ == judged_timers(
            event,
            binding::bindings_view(bindings),
            config,
            old(timers)@,
            timer,
        ),
{
    let mut reaction = HookReaction {
        flash: None,
        rearm: false,
        dispatch: None,
        repeat: RepeatChange { stop: None, start: None },
        disposition: EventDisposition::PassThrough,
    };
    let (id, pressed) = match event {
        MouseEvent::Button { id, pressed } => (id, pressed),
        MouseEvent::Scroll { .. } => {
            return reaction;
        },
    };
    match id {
        ButtonId::MiddleClick | ButtonId::Back | ButtonId::Forward => {},
        _ => {
            return reaction;
        },
    }
    if pressed {
        reaction.flash = Some(id);
        match id {
            ButtonId::Back | ButtonId::Forward => {
                reaction.rearm = true;
            },
            _ => {},
        }
    } else {
        reaction.repeat = RepeatChange { stop: stop_hook_repeat(id, timers), start: None };
    }
    let action = match bound_action(bindings, id) {
        Some(action) => action,
        None => {
            return reaction;
        },
    };
    if is_native_click(id, &action) {
        return reaction;
    }
    if pressed {
        reaction.dispatch = Some(action);
        reaction.repeat = start_hook_repeat(id, &action, config, timers, timer);
    }
    reaction.disposition = EventDisposition::Suppress;
    reaction
}

/// Starts (or restarts) the auto-repeat for `id` when key-repeat is on and
/// `action` is repeatable. The first fire already happened on the press.
pub fn start_hook_repeat(
    id: ButtonId,
    action: &Action,
    config: Option<RepeatConfig>,
    timers: &mut RepeatTimers,
    timer: u64,
) -> (r: RepeatChange)
    ensures
        r == repeat::press_change(old(timers)@, id, config, *action, timer),
        final(timers)@ == repeat::press_timers(old(timers)@, id, config, *action, timer),
{
    timers.start(id, config, *action, timer)
}

/// Ends the auto-repeat for `id`, if one is running.
pub fn stop_hook_repeat(id: ButtonId, timers: &mut RepeatTimers) -> (r: Option<u64>)
    ensures
        r == binding::bound(old(timers)@, id),
        final(timers)@ == old(timers)@.remove(id),
{
    timers.stop(id)
}

/// Concludes the start of the hook on `platform`, given whether macOS trusts the
/// process: `None` if events cannot be captured or the hook could not be
/// installed, and the app goes on without it.
pub fn start(platform: Platform, trusted: bool, report: StartReport) -> (r: Option<Hook>)
    ensures
        match r {
            Some(h) => {
                &&& hook::accessible(platform, trusted)
                &&& h@ is Some
                &&& hook::start_result(report) == Ok::<u32, hook::HookErrorView>(h@->0)
            },
            None => !hook::accessible(platform, trusted) || hook::start_result(report) is Err,
        },
{
    if !Hook::has_accessibility(platform, trusted) {
        return None;
    }
    match Hook::start(report) {
        Ok(hook) => Some(hook),
        Err(_) => None,
    }
}

// ---------------------------------------------------------------------------
// Dispatching an action
// ---------------------------------------------------------------------------

/// Who carries an action out.
#[derive(Clone, Copy, Debug, PartialEq, Eq, Structural)]
pub enum Dispatch {
    /// The DPI presets advance to the next one.
    CyclePresets,
    /// The DPI preset with this index is selected.
    SelectPreset(usize),
    /// The wheel mode of the active device is flipped.
    ToggleSmartShift,
    /// The operating system synthesises the event.
    Synthesize,
}

/// Routes a bound action either to OS-level event synthesis or to one of the
/// hardware-side handlers.
pub fn dispatch_action(action: &Action) -> (r: Dispatch)
    ensures
        r == match action {
            Action::CycleDpiPresets => Dispatch::CyclePresets,
            Action::SetDpiPreset(i) => Dispatch::SelectPreset(*i as usize),
            Action::ToggleSmartShift => Dispatch::ToggleSmartShift,
            _ => Dispatch::Synthesize,
        },
{
    match action {
        Action::CycleDpiPresets => Dispatch::CyclePresets,
        Action::SetDpiPreset(i) => Dispatch::SelectPreset(*i as usize),
        Action::ToggleSmartShift => Dispatch::ToggleSmartShift,
        _ => Dispatch::Synthesize,
    }
}

/// How a dispatch ends.
#[derive(Debug)]
pub enum DispatchEnd {
    /// This DPI is written to this device.
    WriteDpi {
        /// The new value.
        dpi: u32,
        /// The device.
        target: DeviceRoute,
    },
    /// The active device has no DPI presets; the press is ignored.
    NoPresets,
    /// There is nothing left to do.
    Done,
}

/// The view of a [`DispatchEnd`].
pub enum DispatchEndView {
    /// This DPI is written to this device.
    WriteDpi(u32, RouteView),
    /// The active device has no DPI presets.
    NoPresets,
    /// There is nothing left to do.
    Done,
}

impl View for DispatchEnd {
    type V = DispatchEndView;

    open spec fn view(&self) -> DispatchEndView {
        match self {
            DispatchEnd::WriteDpi { dpi, target } => DispatchEndView::WriteDpi(*dpi, target@),
            DispatchEnd::NoPresets => DispatchEndView::NoPresets,
            DispatchEnd::Done => DispatchEndView::Done,
        }
    }
}

/// Concludes the dispatch of `action`, given the preset that is now selected
/// and the device it belongs to, if any.
pub fn conclude_dispatch(action: &Action, selected: Option<(u32, DeviceRoute)>) -> (r: DispatchEnd)
    ensures
        r@ == match selected {
            Some((dpi, target)) => DispatchEndView::WriteDpi(dpi, target@),
            None => if action is CycleDpiPresets || action is SetDpiPreset {
                DispatchEndView::NoPresets
            } else {
                DispatchEndView::Done
            },
        },
{
    match selected {
        Some((dpi, target)) => DispatchEnd::WriteDpi { dpi, target },
        None => match action {
            Action::CycleDpiPresets => DispatchEnd::NoPresets,
            Action::SetDpiPreset(_) => DispatchEnd::NoPresets,
            _ => DispatchEnd::Done,
        },
    }
}

// ---------------------------------------------------------------------------
// Laws
// ---------------------------------------------------------------------------

/// The primary clicks and the wheel always pass through, and touch no timer,
/// whatever is bound to them.
pub proof fn law_primary_clicks_and_wheel_pass(
    event: MouseEvent,
    bindings: Map<ButtonId, Action>,
    config: Option<RepeatConfig>,
    timers: Map<ButtonId, u64>,
    timer: u64,
)
    requires
        event matches MouseEvent::Button { id, .. } ==> id is LeftClick || id is RightClick,
    ensures
        judged(event, bindings, config, timers, timer) == untouched(),
        judged_timers(event, bindings, config, timers, timer) == timers,
{
}

/// An event is suppressed exactly when something is done in its place: the
/// press and the release of a remapped button that is bound to something other
/// than its own click.
pub proof fn law_suppressed_iff_replaced(
    id: ButtonId,
    pressed: bool,
    bindings: Map<ButtonId, Action>,
    config: Option<RepeatConfig>,
    timers: Map<ButtonId, u64>,
    timer: u64,
)
    ensures
        ({
            let r = judged(MouseEvent::Button { id, pressed }, bindings, config, timers, timer);
            &&& r.disposition is Suppress <==> replacement(id, bindings) is Some
            &&& r.dispatch == if pressed {
                replacement(id, bindings)
            } else {
                None
            }
        }),
{
}

/// A button goes down and up as one: while its binding stays, the release is
/// suppressed exactly when the press was.
pub proof fn law_press_and_release_go_together(
    id: ButtonId,
    bindings: Map<ButtonId, Action>,
    config: Option<RepeatConfig>,
    timers: Map<ButtonId, u64>,
    timer: u64,
    later_config: Option<RepeatConfig>,
    later_timers: Map<ButtonId, u64>,
    later_timer: u64,
)
    ensures
        judged(
            MouseEvent::Button { id, pressed: true },
            bindings,
            config,
            timers,
            timer,
        ).disposition == judged(
            MouseEvent::Button { id, pressed: false },
            bindings,
            later_config,
            later_timers,
            later_timer,
        ).disposition,
{
}

/// Every press of a button that the hook remaps is shown on the diagram, bound
/// or not, and a side button that arrives here asks for the capture to re-arm.
pub proof fn law_every_visible_press_is_flashed(
    id: ButtonId,
    bindings: Map<ButtonId, Action>,
    config: Option<RepeatConfig>,
    timers: Map<ButtonId, u64>,
    timer: u64,
)
    requires
        remapped(id),
    ensures
        ({
            let r = judged(
                MouseEvent::Button { id, pressed: true },
                bindings,
                config,
                timers,
                timer,
            );
            &&& r.flash == Some(id)
            &&& r.rearm == (id is Back || id is Forward)
        }),
{
}

/// What a press started, the release ends, whatever became of binding and
/// configuration in between: after both no timer runs for the button, and the
/// release names the timer that the press started.
pub proof fn law_release_ends_what_the_press_started(
    id: ButtonId,
    bindings: Map<ButtonId, Action>,
    config: Option<RepeatConfig>,
    timers: Map<ButtonId, u64>,
    timer: u64,
    later_bindings: Map<ButtonId, Action>,
    later_config: Option<RepeatConfig>,
    later_timer: u64,
)
    ensures
        ({
            let press = MouseEvent::Button { id, pressed: true };
            let release = MouseEvent::Button { id, pressed: false };
            let held = judged_timers(press, bindings, config, timers, timer);
            let after = judged_timers(release, later_bindings, later_config, held, later_timer);
            let started = judged(press, bindings, config, timers, timer).repeat.start;
            let ended = judged(release, later_bindings, later_config, held, later_timer).repeat;
            &&& remapped(id) ==> !after.contains_key(id)
            &&& ended.start is None
            &&& started matches Some(s) ==> ended.stop == Some(s.timer)
        }),
{
}

/// Only a bound action that repeats, with key-repeat on, starts a timer, and the
/// timer fires the action that the press dispatched.
pub proof fn law_timer_repeats_the_dispatched_action(
    event: MouseEvent,
    bindings: Map<ButtonId, Action>,
    config: Option<RepeatConfig>,
    timers: Map<ButtonId, u64>,
    timer: u64,
)
    ensures
        ({
            let r = judged(event, bindings, config, timers, timer);
            r.repeat.start matches Some(s) ==> {
                &&& r.dispatch == Some(s.action)
                &&& s.action.spec_is_repeatable()
                &&& repeat::in_force(config).enabled
                &&& s.delay == repeat::in_force(config).delay
                &&& s.interval == repeat::in_force(config).interval
            }
        }),
{
}

/// No button ever accumulates two timers: if the timers that run are those on the
/// books, one per button, then any event, with a fresh number for its timer,
/// keeps it so.
pub proof fn law_events_keep_one_timer_per_button(
    event: MouseEvent,
    bindings: Map<ButtonId, Action>,
    config: Option<RepeatConfig>,
    timers: Map<ButtonId, u64>,
    live: Set<u64>,
    timer: u64,
)
    requires
        repeat::in_step(timers, live),
        !live.contains(timer),
    ensures
        repeat::in_step(
            judged_timers(event, bindings, config, timers, timer),
            repeat::carried_out(live, judged(event, bindings, config, timers, timer).repeat),
        ),
{
    match event {
        MouseEvent::Button { id, pressed } => if pressed {
            match replacement(id, bindings) {
                Some(action) => {
                    repeat::law_press_keeps_one_timer_per_button(
                        timers,
                        live,
                        id,
                        config,
                        action,
                        timer,
                    );
                },
                None => {},
            }
        } else {
            repeat::law_release_ends_the_timer(timers, live, id);
        },
        MouseEvent::Scroll { .. } => {},
    }
}

/// The middle and the side buttons do what they are bound to, whatever that is,
/// unless a middle button is left on its own click: the press dispatches exactly
/// the bound action, and neither press nor release reaches its target.
pub proof fn law_bound_button_does_its_action(
    id: ButtonId,
    bindings: Map<ButtonId, Action>,
    config: Option<RepeatConfig>,
    timers: Map<ButtonId, u64>,
    timer: u64,
)
    requires
        id is MiddleClick || id is Back || id is Forward,
        bindings.contains_key(id),
        !(id is MiddleClick && bindings[id] is MiddleClick),
    ensures
        ({
            let press = judged(
                MouseEvent::Button { id, pressed: true },
                bindings,
                config,
                timers,
                timer,
            );
            let release = judged(
                MouseEvent::Button { id, pressed: false },
                bindings,
                config,
                timers,
                timer,
            );
            &&& press.dispatch == Some(bindings[id])
            &&& press.disposition is Suppress
            &&& release.dispatch is None
            &&& release.disposition is Suppress
        }),
{
}

/// A button that is bound to nothing, and a middle button on its own click, keep
/// working as they are: press and release reach their target and nothing is
/// dispatched or repeated.
pub proof fn law_unbound_button_is_left_to_the_system(
    id: ButtonId,
    pressed: bool,
    bindings: Map<ButtonId, Action>,
    config: Option<RepeatConfig>,
    timers: Map<ButtonId, u64>,
    timer: u64,
)
    requires
        !bindings.contains_key(id) || (id is MiddleClick && bindings[id] is MiddleClick),
    ensures
        ({
            let event = MouseEvent::Button { id, pressed };
            let r = judged(event, bindings, config, timers, timer);
            &&& r.disposition is PassThrough
            &&& r.dispatch is None
            &&& r.repeat.start is None
            &&& pressed ==> r.repeat.stop is None
            &&& pressed ==> judged_timers(event, bindings, config, timers, timer) == timers
        }),
{
}

/// Only three buttons are the hook's business. Whatever is bound to any other,
/// its events, and every turn of the wheel, pass and lead to nothing.
pub proof fn law_other_events_lead_to_nothing(
    event: MouseEvent,
    bindings: Map<ButtonId, Action>,
    config: Option<RepeatConfig>,
    timers: Map<ButtonId, u64>,
    timer: u64,
)
    requires
        event matches MouseEvent::Button { id, .. } ==> id is LeftClick || id is RightClick
            || id is DpiToggle || id is Thumbwheel || id is GestureButton,
    ensures
        ({
            let r = judged(event, bindings, config, timers, timer);
            &&& r.disposition is PassThrough
            &&& r.dispatch is None
            &&& r.flash is None
            &&& !r.rearm
            &&& r.repeat.start is None
            &&& r.repeat.stop is None
            &&& judged_timers(event, bindings, config, timers, timer) == timers
        }),
{
}

/// Every press of the middle or a side button is shown, bound or not, and a side
/// button asks for the capture to re-arm; a release does neither.
pub proof fn law_presses_are_shown_and_releases_are_not(
    id: ButtonId,
    bindings: Map<ButtonId, Action>,
    config: Option<RepeatConfig>,
    timers: Map<ButtonId, u64>,
    timer: u64,
)
    requires
        id is MiddleClick || id is Back || id is Forward,
    ensures
        ({
            let press = judged(
                MouseEvent::Button { id, pressed: true },
                bindings,
                config,
                timers,
                timer,
            );
            let release = judged(
                MouseEvent::Button { id, pressed: false },
                bindings,
                config,
                timers,
                timer,
            );
            &&& press.flash == Some(id)
            &&& press.rearm == !(id is MiddleClick)
            &&& release.flash is None
            &&& !release.rearm
        }),
{
}

/// A held button repeats the action it is bound to: a press of the middle or a
/// side button starts a timer exactly when that action repeats and key-repeat
/// is on. The timer fires `bindings[id]` with the configured times, the stale
/// one of the button ends, and the books show the new one.
pub proof fn law_held_button_repeats_its_action(
    id: ButtonId,
    bindings: Map<ButtonId, Action>,
    config: RepeatConfig,
    timers: Map<ButtonId, u64>,
    timer: u64,
    other: ButtonId,
)
    requires
        id is MiddleClick || id is Back || id is Forward,
    ensures
        ({
            let press = MouseEvent::Button { id, pressed: true };
            let change = judged(press, bindings, Some(config), timers, timer).repeat;
            let after = judged_timers(press, bindings, Some(config), timers, timer);
            let on = config.enabled && bindings.contains_key(id) && (bindings[id] matches
                Action::Os(a) && a.repeatable);
            &&& change.start is Some <==> on
            &&& change.start matches Some(s) ==> s.timer == timer && s.action == bindings[id]
                && s.delay == config.delay && s.interval == config.interval
            &&& on && timers.contains_key(id) ==> change.stop == Some(timers[id])
            &&& !(on && timers.contains_key(id)) ==> change.stop is None
            &&& on ==> after.contains_key(id) && after[id] == timer
            &&& !on ==> after == timers
            &&& other != id ==> (after.contains_key(other) <==> timers.contains_key(other))
            &&& other != id && timers.contains_key(other) ==> after[other] == timers[other]
        }),
{
}

/// The release of the middle or a side button ends the timer that runs for it,
/// if one does, and touches no other.
pub proof fn law_release_names_the_running_timer(
    id: ButtonId,
    bindings: Map<ButtonId, Action>,
    config: Option<RepeatConfig>,
    timers: Map<ButtonId, u64>,
    timer: u64,
    other: ButtonId,
)
    requires
        id is MiddleClick || id is Back || id is Forward,
    ensures
        ({
            let release = MouseEvent::Button { id, pressed: false };
            let change = judged(release, bindings, config, timers, timer).repeat;
            let after = judged_timers(release, bindings, config, timers, timer);
            &&& timers.contains_key(id) ==> change.stop == Some(timers[id])
            &&& !timers.contains_key(id) ==> change.stop is None
            &&& change.start is None
            &&& !after.contains_key(id)
            &&& other != id ==> (after.contains_key(other) <==> timers.contains_key(other))
            &&& other != id && timers.contains_key(other) ==> after[other] == timers[other]
        }),
{
}

/// A configuration that cannot be read counts as the default one, for every
/// event.
pub proof fn law_hook_falls_back_to_the_default_config(
    event: MouseEvent,
    bindings: Map<ButtonId, Action>,
    timers: Map<ButtonId, u64>,
    timer: u64,
)
    ensures
        ({
            let default = RepeatConfig {
                enabled: repeat::DEFAULT_REPEAT_ENABLED,
                delay: repeat::DEFAULT_REPEAT_DELAY_MS as u64,
                interval: repeat::DEFAULT_REPEAT_INTERVAL_MS as u64,
            };
            &&& judged(event, bindings, None, timers, timer) == judged(
                event,
                bindings,
                Some(default),
                timers,
                timer,
            )
            &&& judged_timers(event, bindings, None, timers, timer) == judged_timers(
                event,
                bindings,
                Some(default),
                timers,
                timer,
            )
        }),
{
}

/// Buttons do not meddle with one another: what an event of one button leads to
/// does not depend on what any other is bound to, nor on the timers of others.
pub proof fn law_buttons_are_independent(
    id: ButtonId,
    pressed: bool,
    bindings: Map<ButtonId, Action>,
    config: Option<RepeatConfig>,
    timers: Map<ButtonId, u64>,
    timer: u64,
    other: ButtonId,
    action: Action,
    number: u64,
)
    requires
        other != id,
    ensures
        ({
            let event = MouseEvent::Button { id, pressed };
            judged(event, bindings, config, timers, timer) == judged(
                event,
                bindings.insert(other, action),
                config,
                timers.insert(other, number),
                timer,
            )
        }),
{
}

/// A binding is a native click exactly when it is the very click that its button
/// makes; a side button has none.
pub proof fn law_native_clicks(id: ButtonId, action: Action)
    ensures
        native(ButtonId::LeftClick, action) <==> action is LeftClick,
        native(ButtonId::RightClick, action) <==> action is RightClick,
        native(ButtonId::MiddleClick, action) <==> action is MiddleClick,
        !(id is LeftClick || id is RightClick || id is MiddleClick) ==> !native(id, action),
{
}

/// The end of a dispatch is seen as it is.
pub proof fn law_dispatch_ends_are_seen_as_they_are(end: DispatchEnd)
    ensures
        end matches DispatchEnd::WriteDpi { dpi, target } ==> end@ == DispatchEndView::WriteDpi(
            dpi,
            target@,
        ),
        end is NoPresets ==> end@ is NoPresets,
        end is Done ==> end@ is Done,
{
}

} // verus!
