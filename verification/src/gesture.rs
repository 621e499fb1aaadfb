//! The HID++ control-capture watcher for the active device.
//!
//! One capture session is kept alive for whichever device is active. It is
//! replaced when the active device or the arming of the thumb wheel changes,
//! and each captured input is routed to its action:
//!
//! - a gesture swipe through the gesture bindings,
//! - a button press through the button bindings,
//! - thumb-wheel rotation to re-synthesised horizontal scroll.
//!
//! A session that drops is started again at the next look at the active device.

use vstd::prelude::*;
use crate::binding;
use crate::binding::{
    bound_action, bound_gesture, Action, BindingMap, ButtonId, GestureBindings, GestureDirection,
};
use crate::device;
use crate::device::{same_route, DeviceRoute, RouteView};
use crate::repeat;
use crate::repeat::{RepeatChange, RepeatConfig, RepeatTimers};

verus! {

/// How often, in milliseconds, the active device and the thumb-wheel binding
/// are looked at.
pub const TARGET_POLL_MS: u64 = 1000;

/// One input that a capture session delivers.
#[derive(Clone, Copy, Debug, PartialEq, Eq, Structural)]
pub enum CapturedInput {
    /// The gesture button was pressed, or swiped in a direction.
    Gesture(GestureDirection),
    /// A diverted button went down.
    ButtonPressed(ButtonId),
    /// A diverted button went up.
    ButtonReleased(ButtonId),
    /// The diverted thumb wheel turned.
    Scroll(i16),
}

/// What an input asks for.
#[derive(Clone, Copy, Debug, PartialEq, Eq, Structural)]
pub struct InputOrder {
    /// The button to highlight on the mouse diagram.
    pub flash: Option<ButtonId>,
    /// The action to dispatch.
    pub dispatch: Option<Action>,
    /// The horizontal scroll to inject.
    pub scroll: Option<i32>,
    /// What happens to the repeat timers, after the dispatch.
    pub repeat: RepeatChange,
}

/// Nothing is asked for.
pub open spec fn nothing() -> InputOrder {
    InputOrder { flash: None, dispatch: None, scroll: None, repeat: repeat::no_change() }
}

/// The buttons that emit a release for every press, so that a timer started on
/// the press is always ended.
pub open spec fn hold_capable(button: ButtonId) -> bool {
    button is Back || button is Forward || button is DpiToggle
}

/// The action that a press of `button` repeats, as far as its binding goes.
pub open spec fn held_action(button: ButtonId, bindings: Map<ButtonId, Action>) -> Option<Action> {
    if hold_capable(button) {
        binding::bound(bindings, button)
    } else {
        None
    }
}

/// Which action an input triggers, and what else it asks for, apart from the
/// timers.
pub open spec fn routed(
    input: CapturedInput,
    bindings: Map<ButtonId, Action>,
    gestures: Map<GestureDirection, Action>,
) -> InputOrder {
    match input {
        CapturedInput::Gesture(direction) => InputOrder {
            flash: Some(ButtonId::GestureButton),
            dispatch: binding::bound(gestures, direction),
            ..nothing()
        },
        CapturedInput::ButtonPressed(button) => InputOrder {
            flash: Some(button),
            dispatch: binding::bound(bindings, button),
            ..nothing()
        },
        CapturedInput::ButtonReleased(_) => nothing(),
        CapturedInput::Scroll(rotation) => InputOrder {
            scroll: Some(rotation as i32),
            ..nothing()
        },
    }
}

/// What an input does to the timers.
pub open spec fn input_change(
    input: CapturedInput,
    bindings: Map<ButtonId, Action>,
    config: Option<RepeatConfig>,
    timers: Map<ButtonId, u64>,
    timer: u64,
) -> RepeatChange {
    match input {
        CapturedInput::ButtonPressed(button) => match held_action(button, bindings) {
            Some(action) => repeat::press_change(timers, button, config, action, timer),
            None => repeat::no_change(),
        },
        CapturedInput::ButtonReleased(button) => RepeatChange {
            stop: binding::bound(timers, button),
            start: None,
        },
        _ => repeat::no_change(),
    }
}

/// The timers after an input.
pub open spec fn input_timers(
    input: CapturedInput,
    bindings: Map<ButtonId, Action>,
    config: Option<RepeatConfig>,
    timers: Map<ButtonId, u64>,
    timer: u64,
) -> Map<ButtonId, u64> {
    match input {
        CapturedInput::ButtonPressed(button) => match held_action(button, bindings) {
            Some(action) => repeat::press_timers(timers, button, config, action, timer),
            None => timers,
        },
        CapturedInput::ButtonReleased(button) => timers.remove(button),
        _ => timers,
    }
}

/// Whether the thumb wheel has to be diverted: its tap is bound to something
/// other than `default`.
pub open spec fn armed(bindings: Map<ButtonId, Action>, default: Action) -> bool {
    binding::bound(bindings, ButtonId::Thumbwheel) matches Some(action) && action != default
}

/// Whether the thumb-wheel click is bound to a non-default action: the only case
/// where the wheel is diverted (which suppresses native scroll) to capture its
/// tap.
pub fn thumbwheel_armed(bindings: Option<&BindingMap>, default: Action) -> (r: bool)
    ensures
        r == armed(binding::bindings_view(bindings), default),
{
    match bound_action(bindings, ButtonId::Thumbwheel) {
        Some(action) => action != default,
        None => false,
    }
}

/// Routes one captured input to its bound action (or re-synthesised scroll).
pub fn dispatch(
    input: CapturedInput,
    bindings: Option<&BindingMap>,
    gestures: Option<&GestureBindings>,
) -> (r: InputOrder)
    ensures
        r == routed(input, binding::bindings_view(bindings), binding::gestures_view(gestures)),
{
    let none = RepeatChange { stop: None, start: None };
    match input {
        CapturedInput::Gesture(direction) => InputOrder {
            flash: Some(ButtonId::GestureButton),
            dispatch: bound_gesture(gestures, direction),
            scroll: None,
            repeat: none,
        },
        CapturedInput::ButtonPressed(button) => InputOrder {
            flash: Some(button),
            dispatch: bound_action(bindings, button),
            scroll: None,
            repeat: none,
        },
        CapturedInput::ButtonReleased(_) => InputOrder {
            flash: None,
            dispatch: None,
            scroll: None,
            repeat: none,
        },
        CapturedInput::Scroll(rotation) => InputOrder {
            flash: None,
            dispatch: None,
            scroll: Some(rotation as i32),
            repeat: none,
        },
    }
}

/// Starts (or restarts) an auto-repeat timer for `button` when key-repeat is on
/// and its bound action is repeatable. Only hold-capable buttons qualify: the
/// thumb-wheel tap, for one, has no release edge.
pub fn start_repeat_if_applicable(
    button: ButtonId,
    bindings: Option<&BindingMap>,
    config: Option<RepeatConfig>,
    timers: &mut RepeatTimers,
    timer: u64,
) -> (r: RepeatChange)
    ensures
        r == input_change(
            CapturedInput::ButtonPressed(button),
            binding::bindings_view(bindings),
            config,
            old(timers)@,
            timer,
        ),
        final(timers)@ == input_timers(
            CapturedInput::ButtonPressed(button),
            binding::bindings_view(bindings),
            config,
            old(timers)@,
            timer,
        ),
{
    let none = RepeatChange { stop: None, start: None };
    match button {
        ButtonId::Back | ButtonId::Forward | ButtonId::DpiToggle => {},
        _ => {
            return none;
        },
    }
    match bound_action(bindings, button) {
        Some(action) => timers.start(button, config, action, timer),
        None => none,
    }
}

// ---------------------------------------------------------------------------
// Sessions
// ---------------------------------------------------------------------------

/// An order to start a capture session.
#[derive(Debug)]
pub struct CaptureStart {
    /// The number of the session.
    pub session: u64,
    /// The device to capture.
    pub route: DeviceRoute,
    /// Whether to divert the thumb wheel.
    pub thumbwheel: bool,
}

/// What has to happen to sessions and timers, in this order.
#[derive(Debug)]
pub struct SessionOrder {
    /// The session to stop, so that it restores the diverted controls.
    pub stop: Option<u64>,
    /// The timers to end.
    pub cancel: Vec<u64>,
    /// The session to start.
    pub start: Option<CaptureStart>,
}

/// The view of a [`SessionOrder`].
pub struct SessionOrderView {
    /// The session to stop.
    pub stop: Option<u64>,
    /// The timers to end.
    pub cancel: Seq<u64>,
    /// The session to start: its number, its device, and the thumb wheel.
    pub start: Option<(u64, RouteView, bool)>,
}

impl View for SessionOrder {
    type V = SessionOrderView;

    open spec fn view(&self) -> SessionOrderView {
        SessionOrderView {
            stop: self.stop,
            cancel: self.cancel@,
            start: match self.start {
                Some(s) => Some((s.session, s.route@, s.thumbwheel)),
                None => None,
            },
        }
    }
}

/// Nothing has to happen.
pub open spec fn carry_on() -> SessionOrderView {
    SessionOrderView { stop: None, cancel: Seq::empty(), start: None }
}

/// The watcher: what is captured, by which session, and the timers of the
/// buttons that are held.
#[derive(Debug)]
pub struct CaptureManager {
    current: Option<(DeviceRoute, bool)>,
    session: Option<u64>,
    timers: RepeatTimers,
}

/// The view of a [`CaptureManager`].
pub struct CaptureView {
    /// The device that is captured, and whether its thumb wheel is diverted.
    pub current: Option<(RouteView, bool)>,
    /// The session that captures it.
    pub session: Option<u64>,
    /// The timer of each held button.
    pub timers: Map<ButtonId, u64>,
}

impl View for CaptureManager {
    type V = CaptureView;

    closed spec fn view(&self) -> CaptureView {
        CaptureView {
            current: match self.current {
                Some((route, thumbwheel)) => Some((route@, thumbwheel)),
                None => None,
            },
            session: self.session,
            timers: self.timers@,
        }
    }
}

/// A watcher that captures nothing.
pub open spec fn idle() -> CaptureView {
    CaptureView { current: None, session: None, timers: Map::empty() }
}

/// What ought to be captured: the active device, if there is one, with the
/// thumb wheel diverted or not.
pub open spec fn wanted(target: Option<RouteView>, thumbwheel: bool) -> Option<(RouteView, bool)> {
    match target {
        Some(route) => Some((route, thumbwheel)),
        None => None,
    }
}

/// The watcher after a look at the active device, with `session` as the number
/// of a new session.
pub open spec fn ticked(
    v: CaptureView,
    target: Option<RouteView>,
    thumbwheel: bool,
    session: u64,
) -> CaptureView {
    if wanted(target, thumbwheel) == v.current {
        v
    } else {
        CaptureView {
            current: wanted(target, thumbwheel),
            session: if target is Some {
                Some(session)
            } else {
                None
            },
            timers: Map::empty(),
        }
    }
}

/// What that look asks for. The device is changing out from under any timers in
/// flight, so they end with the old session.
pub open spec fn tick_order(
    v: CaptureView,
    target: Option<RouteView>,
    thumbwheel: bool,
    session: u64,
) -> SessionOrderView {
    if wanted(target, thumbwheel) == v.current {
        carry_on()
    } else {
        SessionOrderView {
            stop: v.session,
            cancel: repeat::all_timers(v.timers),
            start: match target {
                Some(route) => Some((session, route, thumbwheel)),
                None => None,
            },
        }
    }
}

/// The watcher after `session` ended on its own: if it was the one in charge,
/// nothing is captured any more.
pub open spec fn dropped(v: CaptureView, session: u64) -> CaptureView {
    if v.session == Some(session) {
        idle()
    } else {
        v
    }
}

/// What that end asks for: no release will arrive for the buttons that were
/// held, so their timers end with the session.
pub open spec fn drop_order(v: CaptureView, session: u64) -> SessionOrderView {
    if v.session == Some(session) {
        SessionOrderView { cancel: repeat::all_timers(v.timers), ..carry_on() }
    } else {
        carry_on()
    }
}

/// What a re-arm asks for: the session and the timers of the held buttons end.
pub open spec fn rearm_order(v: CaptureView) -> SessionOrderView {
    SessionOrderView { stop: v.session, cancel: repeat::all_timers(v.timers), start: None }
}

impl CaptureManager {
    /// A watcher that captures nothing yet.
    pub fn new() -> (r: CaptureManager)
        ensures
            r@ == idle(),
    {
        CaptureManager { current: None, session: None, timers: RepeatTimers::new() }
    }

    /// Takes in one input of the session.
    pub fn on_input(
        &mut self,
        input: CapturedInput,
        bindings: Option<&BindingMap>,
        gestures: Option<&GestureBindings>,
        config: Option<RepeatConfig>,
        timer: u64,
    ) -> (r: InputOrder)
        ensures
            r == (InputOrder {
                repeat: input_change(
                    input,
                    binding::bindings_view(bindings),
                    config,
                    old(self)@.timers,
                    timer,
                ),
                ..routed(input, binding::bindings_view(bindings), binding::gestures_view(gestures))
            }),
            final(self)@ == (CaptureView {
                timers: input_timers(
                    input,
                    binding::bindings_view(bindings),
                    config,
                    old(self)@.timers,
                    timer,
                ),
                ..old(self)@
            }),
    {
        let mut order = dispatch(input, bindings, gestures);
        match input {
            CapturedInput::ButtonPressed(button) => {
                order.repeat =
                start_repeat_if_applicable(button, bindings, config, &mut self.timers, timer);
            },
            CapturedInput::ButtonReleased(button) => {
                order.repeat = RepeatChange { stop: self.timers.stop(button), start: None };
            },
            _ => {},
        }
        order
    }

    /// Decides whether the session in charge is the one that is wanted.
    fn is_current(&self, target: &Option<DeviceRoute>, thumbwheel: bool) -> (r: bool)
        ensures
            r == (wanted(device::route_view(*target), thumbwheel) == self@.current),
    {
        match (target, &self.current) {
            (Some(t), Some((route, wheel))) => same_route(t, route) && thumbwheel == *wheel,
            (None, None) => true,
            _ => false,
        }
    }

    /// Takes in a look at the active device: `target` is its route, `thumbwheel`
    /// whether its thumb wheel has to be diverted, and `session` the number for
    /// a session that this may start.
    pub fn on_tick(&mut self, target: Option<DeviceRoute>, thumbwheel: bool, session: u64) -> (r:
        SessionOrder)
        ensures
            r@ == tick_order(old(self)@, device::route_view(target), thumbwheel, session),
            final(self)@ == ticked(
                old(self)@,
                device::route_view(target),
                thumbwheel,
                session,
            ),
    {
        if self.is_current(&target, thumbwheel) {
            return SessionOrder { stop: None, cancel: Vec::new(), start: None };
        }
        let stop = self.session.take();
        let cancel = self.timers.drain();
        match target {
            Some(route) => {
                self.current = Some((route.clone(), thumbwheel));
                self.session = Some(session);
                SessionOrder {
                    stop,
                    cancel,
                    start: Some(CaptureStart { session, route, thumbwheel }),
                }
            },
            None => {
                self.current = None;
                SessionOrder { stop, cancel, start: None }
            },
        }
    }

    /// Takes in that `session` ended on its own, so that the next look at the
    /// active device starts a new one.
    pub fn on_session_ended(&mut self, session: u64) -> (r: SessionOrder)
        ensures
            r@ == drop_order(old(self)@, session),
            final(self)@ == dropped(old(self)@, session),
    {
        let in_charge = match self.session {
            Some(s) => s == session,
            None => false,
        };
        if in_charge {
            self.current = None;
            self.session = None;
            let cancel = self.timers.drain();
            SessionOrder { stop: None, cancel, start: None }
        } else {
            SessionOrder { stop: None, cancel: Vec::new(), start: None }
        }
    }

    /// Gives the session up, so that the next look at the active device arms
    /// the controls anew.
    pub fn rearm(&mut self) -> (r: SessionOrder)
        ensures
            r@ == rearm_order(old(self)@),
            final(self)@ == idle(),
    {
        self.current = None;
        let stop = self.session.take();
        let cancel = self.timers.drain();
        SessionOrder { stop, cancel, start: None }
    }
}

// ---------------------------------------------------------------------------
// Laws
// ---------------------------------------------------------------------------

/// A session is in charge exactly when something is captured, and only
/// hold-capable buttons have timers.
pub open spec fn consistent(v: CaptureView) -> bool {
    &&& v.current is Some <==> v.session is Some
    &&& forall|b: ButtonId| v.timers.contains_key(b) ==> hold_capable(b)
}

/// A fresh watcher is consistent, and every event keeps it so.
pub proof fn law_watcher_stays_consistent(
    v: CaptureView,
    input: CapturedInput,
    bindings: Map<ButtonId, Action>,
    config: Option<RepeatConfig>,
    timer: u64,
    target: Option<RouteView>,
    thumbwheel: bool,
    session: u64,
)
    requires
        consistent(v),
    ensures
        consistent(idle()),
        consistent(
            CaptureView { timers: input_timers(input, bindings, config, v.timers, timer), ..v },
        ),
        consistent(ticked(v, target, thumbwheel, session)),
        consistent(dropped(v, session)),
{
}

/// Which sessions run, when `order` is carried out on those in `live`.
pub open spec fn sessions_after(live: Set<u64>, order: SessionOrderView) -> Set<u64> {
    let stopped = match order.stop {
        Some(s) => live.remove(s),
        None => live,
    };
    match order.start {
        Some((s, _, _)) => stopped.insert(s),
        None => stopped,
    }
}

/// The session on the books is the only one that runs.
pub open spec fn only_session(v: CaptureView) -> Set<u64> {
    match v.session {
        Some(s) => set![s],
        None => Set::empty(),
    }
}

/// One capture session at a time: if the session on the books is the only one
/// that runs, it is so after a look at the active device, after a re-arm, and
/// after any session ended on its own.
pub proof fn law_one_session_at_a_time(
    v: CaptureView,
    target: Option<RouteView>,
    thumbwheel: bool,
    session: u64,
    ended: u64,
)
    ensures
        sessions_after(only_session(v), tick_order(v, target, thumbwheel, session))
            == only_session(ticked(v, target, thumbwheel, session)),
        sessions_after(only_session(v), rearm_order(v)) == only_session(idle()),
        sessions_after(only_session(v).remove(ended), drop_order(v, ended)) == only_session(
            dropped(v, ended),
        ),
{
    assert(sessions_after(only_session(v), tick_order(v, target, thumbwheel, session))
        =~= only_session(ticked(v, target, thumbwheel, session)));
    assert(sessions_after(only_session(v), rearm_order(v)) =~= only_session(idle()));
    assert(sessions_after(only_session(v).remove(ended), drop_order(v, ended)) =~= only_session(
        dropped(v, ended),
    ));
}

/// Capture follows the active device: after a look at it, exactly what is
/// wanted is captured.
pub proof fn law_capture_follows_the_target(
    v: CaptureView,
    target: Option<RouteView>,
    thumbwheel: bool,
    session: u64,
)
    ensures
        ticked(v, target, thumbwheel, session).current == wanted(target, thumbwheel),
{
}

/// As long as neither the active device nor the arming changes, a look at them
/// changes nothing and asks for nothing.
pub proof fn law_steady_target_is_left_alone(
    v: CaptureView,
    target: Option<RouteView>,
    thumbwheel: bool,
    session: u64,
    later: u64,
)
    ensures
        ({
            let w = ticked(v, target, thumbwheel, session);
            &&& ticked(w, target, thumbwheel, later) == w
            &&& tick_order(w, target, thumbwheel, later) == carry_on()
        }),
{
}

/// A change of the device ends every timer that runs, so that none fires at the
/// new device, and leaves none on the books.
pub proof fn law_change_of_target_ends_all_timers(
    v: CaptureView,
    live: Set<u64>,
    target: Option<RouteView>,
    thumbwheel: bool,
    session: u64,
)
    requires
        repeat::in_step(v.timers, live),
        wanted(target, thumbwheel) != v.current,
    ensures
        ticked(v, target, thumbwheel, session).timers == Map::<ButtonId, u64>::empty(),
        forall|t: u64|
            live.contains(t) <==> tick_order(v, target, thumbwheel, session).cancel.contains(t),
{
    repeat::law_drain_ends_every_timer(v.timers, live);
}

/// No button ever accumulates two timers: if the timers that run are those on the
/// books, one per button, then any input, with a fresh number for its timer,
/// keeps it so.
pub proof fn law_inputs_keep_one_timer_per_button(
    input: CapturedInput,
    bindings: Map<ButtonId, Action>,
    config: Option<RepeatConfig>,
    timers: Map<ButtonId, u64>,
    live: Set<u64>,
    timer: u64,
)
    requires
        repeat::in_step(timers, live),
        !live.contains(timer),
    ensures
        repeat::in_step(
            input_timers(input, bindings, config, timers, timer),
            repeat::carried_out(live, input_change(input, bindings, config, timers, timer)),
        ),
{
    match input {
        CapturedInput::ButtonPressed(button) => match held_action(button, bindings) {
            Some(action) => {
                repeat::law_press_keeps_one_timer_per_button(
                    timers,
                    live,
                    button,
                    config,
                    action,
                    timer,
                );
            },
            None => {},
        },
        CapturedInput::ButtonReleased(button) => {
            repeat::law_release_ends_the_timer(timers, live, button);
        },
        _ => {},
    }
}

/// A session that drops takes its timers along and is started again at the next
/// look at the same device; the late end of an older session changes nothing.
pub proof fn law_dropped_session_is_restarted(
    v: CaptureView,
    route: RouteView,
    thumbwheel: bool,
    session: u64,
    next: u64,
)
    requires
        consistent(v),
    ensures
        v.session == Some(session) ==> tick_order(
            dropped(v, session),
            Some(route),
            thumbwheel,
            next,
        ).start == Some((next, route, thumbwheel)),
        v.session == Some(session) ==> drop_order(v, session).cancel == repeat::all_timers(
            v.timers,
        ),
        v.session != Some(session) ==> dropped(v, session) == v && drop_order(v, session)
            == carry_on(),
{
}

/// After a re-arm nothing is captured and no timer is on the books, and the next
/// look at an active device starts a session for it.
pub proof fn law_rearm_starts_afresh(route: RouteView, thumbwheel: bool, next: u64)
    ensures
        tick_order(idle(), Some(route), thumbwheel, next).start == Some(
            (next, route, thumbwheel),
        ),
        tick_order(idle(), Some(route), thumbwheel, next).stop is None,
{
}

/// Every timer that a press started is ended by the release, whatever became of
/// binding and configuration in between.
pub proof fn law_release_always_ends_the_timer(
    button: ButtonId,
    bindings: Map<ButtonId, Action>,
    config: Option<RepeatConfig>,
    timers: Map<ButtonId, u64>,
    timer: u64,
    later_bindings: Map<ButtonId, Action>,
    later_config: Option<RepeatConfig>,
    later_timer: u64,
)
    ensures
        ({
            let press = CapturedInput::ButtonPressed(button);
            let release = CapturedInput::ButtonReleased(button);
            let held = input_timers(press, bindings, config, timers, timer);
            let change = input_change(release, later_bindings, later_config, held, later_timer);
            &&& !input_timers(
                release,
                later_bindings,
                later_config,
                held,
                later_timer,
            ).contains_key(button)
            &&& change.start is None
            &&& input_change(press, bindings, config, timers, timer).start matches Some(s)
                ==> change.stop == Some(s.timer)
        }),
{
}

/// The thumb wheel is left alone as long as it is unbound or bound to its
/// default.
pub proof fn law_default_thumbwheel_is_not_diverted(
    bindings: Map<ButtonId, Action>,
    default: Action,
)
    ensures
        !armed(bindings.remove(ButtonId::Thumbwheel), default),
        !armed(bindings.insert(ButtonId::Thumbwheel, default), default),
{
}

/// A change is followed exactly: whatever is captured so far, a look at another
/// device, or at the same one with another arming, stops the session in charge
/// and starts the new one on just that device with just that arming.
pub proof fn law_tick_moves_to_the_new_device(
    v: CaptureView,
    route: RouteView,
    thumbwheel: bool,
    session: u64,
)
    requires
        v.current != Some((route, thumbwheel)),
    ensures
        ({
            let order = tick_order(v, Some(route), thumbwheel, session);
            let after = ticked(v, Some(route), thumbwheel, session);
            &&& order.start == Some((session, route, thumbwheel))
            &&& order.stop == v.session
            &&& after.current == Some((route, thumbwheel))
            &&& after.session == Some(session)
            &&& after.timers == Map::<ButtonId, u64>::empty()
        }),
{
}

/// When no device is active any more, the session in charge stops, nothing is
/// captured, and nothing starts.
pub proof fn law_tick_without_a_device_stops_the_session(
    v: CaptureView,
    thumbwheel: bool,
    session: u64,
)
    requires
        v.current is Some,
    ensures
        ({
            let order = tick_order(v, None, thumbwheel, session);
            let after = ticked(v, None, thumbwheel, session);
            &&& order.stop == v.session
            &&& order.start is None
            &&& after.current is None
            &&& after.session is None
            &&& after.timers == Map::<ButtonId, u64>::empty()
        }),
{
}

/// A look that finds what is captured already asks for nothing and changes
/// nothing: neither the session nor the timers of the held buttons.
pub proof fn law_tick_on_the_same_device_does_nothing(
    v: CaptureView,
    target: Option<RouteView>,
    thumbwheel: bool,
    session: u64,
)
    requires
        target matches Some(route) ==> v.current == Some((route, thumbwheel)),
        target is None ==> v.current is None,
    ensures
        ({
            let order = tick_order(v, target, thumbwheel, session);
            &&& order.stop is None
            &&& order.cancel.len() == 0
            &&& order.start is None
            &&& ticked(v, target, thumbwheel, session) == v
        }),
{
}

/// A captured press dispatches what its button is bound to, and holding the
/// button repeats just that: a timer starts exactly when the button reports its
/// release, the bound action repeats and key-repeat is on. It fires
/// `bindings[button]`, the dispatched action, with the configured times; the
/// stale one of the button ends, and the books show the new one.
pub proof fn law_held_press_repeats_what_it_dispatches(
    button: ButtonId,
    bindings: Map<ButtonId, Action>,
    gestures: Map<GestureDirection, Action>,
    config: RepeatConfig,
    timers: Map<ButtonId, u64>,
    timer: u64,
    other: ButtonId,
)
    ensures
        ({
            let press = CapturedInput::ButtonPressed(button);
            let order = routed(press, bindings, gestures);
            let change = input_change(press, bindings, Some(config), timers, timer);
            let after = input_timers(press, bindings, Some(config), timers, timer);
            let on = (button is Back || button is Forward || button is DpiToggle)
                && config.enabled && bindings.contains_key(button) && (bindings[button] matches
                Action::Os(a) && a.repeatable);
            &&& order.flash == Some(button)
            &&& order.scroll is None
            &&& bindings.contains_key(button) ==> order.dispatch == Some(bindings[button])
            &&& !bindings.contains_key(button) ==> order.dispatch is None
            &&& change.start is Some <==> on
            &&& change.start matches Some(s) ==> s.timer == timer && Some(s.action)
                == order.dispatch && s.delay == config.delay && s.interval == config.interval
            &&& on && timers.contains_key(button) ==> change.stop == Some(timers[button])
            &&& !(on && timers.contains_key(button)) ==> change.stop is None
            &&& on ==> after.contains_key(button) && after[button] == timer
            &&& !on ==> after == timers
            &&& other != button ==> (after.contains_key(other) <==> timers.contains_key(other))
            &&& other != button && timers.contains_key(other) ==> after[other] == timers[other]
        }),
{
}

/// A captured release asks for nothing but the end of the timer that runs for
/// its button, and touches no other timer.
pub proof fn law_captured_release_names_the_running_timer(
    button: ButtonId,
    bindings: Map<ButtonId, Action>,
    gestures: Map<GestureDirection, Action>,
    config: Option<RepeatConfig>,
    timers: Map<ButtonId, u64>,
    timer: u64,
    other: ButtonId,
)
    ensures
        ({
            let release = CapturedInput::ButtonReleased(button);
            let order = routed(release, bindings, gestures);
            let change = input_change(release, bindings, config, timers, timer);
            let after = input_timers(release, bindings, config, timers, timer);
            &&& order.flash is None
            &&& order.dispatch is None
            &&& order.scroll is None
            &&& timers.contains_key(button) ==> change.stop == Some(timers[button])
            &&& !timers.contains_key(button) ==> change.stop is None
            &&& change.start is None
            &&& !after.contains_key(button)
            &&& other != button ==> (after.contains_key(other) <==> timers.contains_key(other))
            &&& other != button && timers.contains_key(other) ==> after[other] == timers[other]
        }),
{
}

/// A gesture flashes the gesture button and dispatches what its direction is
/// bound to; a turn of the thumb wheel is injected as it came. Neither touches a
/// timer.
pub proof fn law_gestures_and_turns_are_routed(
    direction: GestureDirection,
    rotation: i16,
    bindings: Map<ButtonId, Action>,
    gestures: Map<GestureDirection, Action>,
    config: Option<RepeatConfig>,
    timers: Map<ButtonId, u64>,
    timer: u64,
)
    ensures
        ({
            let gesture = CapturedInput::Gesture(direction);
            let order = routed(gesture, bindings, gestures);
            let change = input_change(gesture, bindings, config, timers, timer);
            &&& order.flash == Some(ButtonId::GestureButton)
            &&& gestures.contains_key(direction) ==> order.dispatch == Some(gestures[direction])
            &&& !gestures.contains_key(direction) ==> order.dispatch is None
            &&& order.scroll is None
            &&& change.stop is None && change.start is None
            &&& input_timers(gesture, bindings, config, timers, timer) == timers
        }),
        ({
            let turn = CapturedInput::Scroll(rotation);
            let order = routed(turn, bindings, gestures);
            let change = input_change(turn, bindings, config, timers, timer);
            &&& order.scroll is Some && order.scroll->0 == rotation
            &&& order.flash is None
            &&& order.dispatch is None
            &&& change.stop is None && change.start is None
            &&& input_timers(turn, bindings, config, timers, timer) == timers
        }),
{
}

/// A configuration that cannot be read counts as the default one, for every
/// input.
pub proof fn law_watcher_falls_back_to_the_default_config(
    input: CapturedInput,
    bindings: Map<ButtonId, Action>,
    timers: Map<ButtonId, u64>,
    timer: u64,
)
    ensures
        ({
            let default = RepeatConfig {
                enabled: repeat::DEFAULT_REPEAT_ENABLED,
                delay: repeat::DEFAULT_REPEAT_DELAY_MS as u64,
                interval: repeat::DEFAULT_REPEAT_INTERVAL_MS as u64,
            };
            &&& input_change(input, bindings, None, timers, timer) == input_change(
                input,
                bindings,
                Some(default),
                timers,
                timer,
            )
            &&& input_timers(input, bindings, None, timers, timer) == input_timers(
                input,
                bindings,
                Some(default),
                timers,
                timer,
            )
        }),
{
}

/// The thumb wheel is diverted exactly when its tap is bound to something other
/// than the default; no other binding matters.
pub proof fn law_thumbwheel_is_diverted_iff_rebound(
    bindings: Map<ButtonId, Action>,
    default: Action,
    action: Action,
    other: ButtonId,
)
    ensures
        armed(bindings.insert(ButtonId::Thumbwheel, action), default) <==> action != default,
        !armed(bindings.remove(ButtonId::Thumbwheel), default),
        !(other is Thumbwheel) ==> armed(bindings.insert(other, action), default) == armed(
            bindings,
            default,
        ),
{
}

/// What is given up is given up whole: after a re-arm, and after the session in
/// charge ended, nothing is captured by anyone, no timer is on the books, every
/// timer that ran is ended, and nothing starts. Only a re-arm stops the session;
/// one that ended needs no stopping.
pub proof fn law_giving_up_leaves_nothing_behind(v: CaptureView, session: u64, live: Set<u64>)
    requires
        repeat::in_step(v.timers, live),
        v.session == Some(session),
    ensures
        idle().current is None,
        idle().session is None,
        idle().timers == Map::<ButtonId, u64>::empty(),
        dropped(v, session) == idle(),
        drop_order(v, session).stop is None,
        drop_order(v, session).start is None,
        rearm_order(v).stop == Some(session),
        rearm_order(v).start is None,
        forall|t: u64| live.contains(t) <==> drop_order(v, session).cancel.contains(t),
        forall|t: u64| live.contains(t) <==> rearm_order(v).cancel.contains(t),
{
    repeat::law_drain_ends_every_timer(v.timers, live);
}

/// What the order says is what its view says: the session to start is named with
/// its own device and arming.
pub proof fn law_session_order_is_seen_as_it_is(order: SessionOrder)
    ensures
        order@.stop == order.stop,
        order@.cancel == order.cancel@,
        order@.start is Some <==> order.start is Some,
        order.start matches Some(s) ==> order@.start == Some((s.session, s.route@, s.thumbwheel)),
{
}

} // verus!
