//! Auto-repeat of held buttons: the timing, the timers and their schedule.
//!
//! A press that starts a repeat gets a timer, known by a number that the caller
//! picks. At most one timer runs per button: starting one hands back the stale
//! one so that it can be ended, and the release of the button does the same.

use vstd::prelude::*;
use crate::binding;
use crate::binding::{Action, ButtonId, ButtonMap};
use crate::config::AppSettings;

verus! {

/// Whether held buttons repeat when no preference says otherwise.
pub const DEFAULT_REPEAT_ENABLED: bool = true;

/// Milliseconds to hold before the repeat begins, by default.
pub const DEFAULT_REPEAT_DELAY_MS: u32 = 400;

/// Milliseconds between repeats, by default.
pub const DEFAULT_REPEAT_INTERVAL_MS: u32 = 60;

/// Live, resolved key-repeat configuration.
#[derive(Clone, Copy, Debug, PartialEq, Eq, Structural)]
pub struct RepeatConfig {
    /// Whether auto-repeat is active at all.
    pub enabled: bool,
    /// Milliseconds after the first fire before repeats begin.
    pub delay: u64,
    /// Milliseconds between successive repeats (at least 1, so that a
    /// misconfigured `0` can never spin a tight loop).
    pub interval: u64,
}

impl RepeatConfig {
    /// The configuration that the three preferences stand for.
    pub open spec fn resolved(enabled: bool, delay_ms: u32, interval_ms: u32) -> RepeatConfig {
        RepeatConfig {
            enabled,
            delay: delay_ms as u64,
            interval: if interval_ms == 0 {
                1
            } else {
                interval_ms as u64
            },
        }
    }

    /// Resolves the runtime configuration from the persisted preferences.
    #[must_use]
    pub fn from_settings(settings: &AppSettings) -> (r: RepeatConfig)
        ensures
            r == RepeatConfig::resolved(
                settings.key_repeat_enabled,
                settings.key_repeat_delay_ms,
                settings.key_repeat_interval_ms,
            ),
            r.interval >= 1,
    {
        let interval: u64 = if settings.key_repeat_interval_ms == 0 {
            1
        } else {
            settings.key_repeat_interval_ms as u64
        };
        RepeatConfig {
            enabled: settings.key_repeat_enabled,
            delay: settings.key_repeat_delay_ms as u64,
            interval,
        }
    }
}

impl Default for RepeatConfig {
    fn default() -> (r: Self)
        ensures
            r == RepeatConfig::resolved(
                DEFAULT_REPEAT_ENABLED,
                DEFAULT_REPEAT_DELAY_MS,
                DEFAULT_REPEAT_INTERVAL_MS,
            ),
    {
        RepeatConfig {
            enabled: DEFAULT_REPEAT_ENABLED,
            delay: DEFAULT_REPEAT_DELAY_MS as u64,
            interval: DEFAULT_REPEAT_INTERVAL_MS as u64,
        }
    }
}

/// The configuration in force: a poisoned lock (`None`) reads as the default.
pub open spec fn in_force(config: Option<RepeatConfig>) -> RepeatConfig {
    match config {
        Some(c) => c,
        None => RepeatConfig::resolved(
            DEFAULT_REPEAT_ENABLED,
            DEFAULT_REPEAT_DELAY_MS,
            DEFAULT_REPEAT_INTERVAL_MS,
        ),
    }
}

/// Reads the configuration behind a lock.
pub fn config_in_force(config: Option<RepeatConfig>) -> (r: RepeatConfig)
    ensures
        r == in_force(config),
{
    match config {
        Some(c) => c,
        None => RepeatConfig::default(),
    }
}

/// An order to start a timer: fire `action` after `delay` milliseconds and then
/// every `interval` milliseconds.
#[derive(Clone, Copy, Debug, PartialEq, Eq, Structural)]
pub struct RepeatStart {
    /// The number of the timer.
    pub timer: u64,
    /// What it fires.
    pub action: Action,
    /// Milliseconds before the first fire.
    pub delay: u64,
    /// Milliseconds between fires.
    pub interval: u64,
}

/// What has to happen to the timers, in this order.
#[derive(Clone, Copy, Debug, PartialEq, Eq, Structural)]
pub struct RepeatChange {
    /// The timer to end.
    pub stop: Option<u64>,
    /// The timer to start.
    pub start: Option<RepeatStart>,
}

/// Nothing has to happen.
pub open spec fn no_change() -> RepeatChange {
    RepeatChange { stop: None, start: None }
}

/// Whether a press bound to `action` repeats.
pub open spec fn repeats(config: Option<RepeatConfig>, action: Action) -> bool {
    in_force(config).enabled && action.spec_is_repeatable()
}

/// The order for a press of a button that runs `timers`, with `timer` as the
/// number of a new timer.
pub open spec fn press_change(
    timers: Map<ButtonId, u64>,
    button: ButtonId,
    config: Option<RepeatConfig>,
    action: Action,
    timer: u64,
) -> RepeatChange {
    if repeats(config, action) {
        RepeatChange {
            stop: binding::bound(timers, button),
            start: Some(
                RepeatStart {
                    timer,
                    action,
                    delay: in_force(config).delay,
                    interval: in_force(config).interval,
                },
            ),
        }
    } else {
        no_change()
    }
}

/// The timers after that order.
pub open spec fn press_timers(
    timers: Map<ButtonId, u64>,
    button: ButtonId,
    config: Option<RepeatConfig>,
    action: Action,
    timer: u64,
) -> Map<ButtonId, u64> {
    if repeats(config, action) {
        timers.insert(button, timer)
    } else {
        timers
    }
}

/// The timer that runs for each held button.
#[derive(Debug)]
pub struct RepeatTimers {
    running: ButtonMap<u64>,
}

impl View for RepeatTimers {
    type V = Map<ButtonId, u64>;

    closed spec fn view(&self) -> Map<ButtonId, u64> {
        self.running@
    }
}

/// The timers of the first `n` buttons.
pub open spec fn timers_of_first(timers: Map<ButtonId, u64>, n: nat) -> Seq<u64>
    decreases n,
{
    if n == 0 {
        Seq::empty()
    } else {
        let before = timers_of_first(timers, (n - 1) as nat);
        let b = binding::button_at((n - 1) as nat);
        if timers.contains_key(b) {
            before.push(timers[b])
        } else {
            before
        }
    }
}

/// All timers, in the order of their buttons.
pub open spec fn all_timers(timers: Map<ButtonId, u64>) -> Seq<u64> {
    timers_of_first(timers, 8)
}

impl RepeatTimers {
    /// No timer runs.
    pub fn new() -> (r: RepeatTimers)
        ensures
            r@ == Map::<ButtonId, u64>::empty(),
    {
        RepeatTimers { running: ButtonMap::new() }
    }

    /// Starts, or restarts, the repeat of `action` for a press of `button` when
    /// key-repeat is on and the action repeats. The first fire happened on the
    /// press; the order is for the repeats.
    pub fn start(
        &mut self,
        button: ButtonId,
        config: Option<RepeatConfig>,
        action: Action,
        timer: u64,
    ) -> (r: RepeatChange)
        ensures
            r == press_change(old(self)@, button, config, action, timer),
            final(self)@ == press_timers(old(self)@, button, config, action, timer),
    {
        let c = config_in_force(config);
        if !c.enabled || !action.is_repeatable() {
            return RepeatChange { stop: None, start: None };
        }
        let stop = self.running.insert(button, timer);
        RepeatChange {
            stop,
            start: Some(RepeatStart { timer, action, delay: c.delay, interval: c.interval }),
        }
    }

    /// Ends the repeat of `button`: the timer to end, if one runs.
    pub fn stop(&mut self, button: ButtonId) -> (r: Option<u64>)
        ensures
            r == binding::bound(old(self)@, button),
            final(self)@ == old(self)@.remove(button),
    {
        self.running.remove(button)
    }

    /// Ends every repeat: the timers to end.
    pub fn drain(&mut self) -> (r: Vec<u64>)
        ensures
            r@ == all_timers(old(self)@),
            final(self)@ == Map::<ButtonId, u64>::empty(),
    {
        let buttons = ButtonId::all();
        let mut out: Vec<u64> = Vec::new();
        let ghost timers = self@;
        for i in 0..8usize
            invariant
                buttons@.len() == 8,
                forall|j: int| 0 <= j < 8 ==> #[trigger] buttons@[j] == binding::button_at(j as nat),
                out@ == timers_of_first(timers, i as nat),
                forall|j: int|
                    #![trigger binding::button_at(j as nat)]
                    i <= j < 8 ==> binding::bound(self@, binding::button_at(j as nat)) == binding::bound(
                        timers,
                        binding::button_at(j as nat),
                    ),
                forall|j: int|
                    #![trigger binding::button_at(j as nat)]
                    0 <= j < i ==> !self@.contains_key(binding::button_at(j as nat)),
        {
            let b = buttons[i];
            match self.running.remove(b) {
                Some(t) => {
                    out.push(t);
                },
                None => {},
            }
        }
        assert forall|b: ButtonId| !self@.contains_key(b) by {
            let k = b.spec_key() as int;
            assert(binding::button_at(k as nat) == b);
        }
        assert(self@ =~= Map::<ButtonId, u64>::empty());
        out
    }
}

// ---------------------------------------------------------------------------
// The schedule of a timer that sleeps
// ---------------------------------------------------------------------------

/// Where a timer of the hook stands. It runs on a thread of its own and sleeps
/// between its fires.
#[derive(Clone, Copy, Debug, PartialEq, Eq, Structural)]
pub enum RepeatPhase {
    /// It was just started.
    Begin,
    /// It slept and is about to look at its stop flag.
    Woken,
    /// It fired and is about to sleep.
    Fired,
    /// It ended.
    Ended,
}

/// What a timer does next.
#[derive(Clone, Copy, Debug, PartialEq, Eq, Structural)]
pub enum RepeatStep {
    /// Sleep for this many milliseconds.
    Sleep(u64),
    /// Fire the action.
    Fire,
    /// Stop for good.
    End,
}

/// One step of a timer: sleep for the delay, then look at the stop flag, fire
/// and sleep for the interval, over and over.
pub open spec fn schedule(start: RepeatStart, phase: RepeatPhase, stop: bool) -> (
    RepeatPhase,
    RepeatStep,
) {
    match phase {
        RepeatPhase::Begin => (RepeatPhase::Woken, RepeatStep::Sleep(start.delay)),
        RepeatPhase::Woken => if stop {
            (RepeatPhase::Ended, RepeatStep::End)
        } else {
            (RepeatPhase::Fired, RepeatStep::Fire)
        },
        RepeatPhase::Fired => (RepeatPhase::Woken, RepeatStep::Sleep(start.interval)),
        RepeatPhase::Ended => (RepeatPhase::Ended, RepeatStep::End),
    }
}

/// The next step of the timer, given whether its stop flag is set.
pub fn next_step(start: &RepeatStart, phase: RepeatPhase, stop: bool) -> (r: (
    RepeatPhase,
    RepeatStep,
))
    ensures
        r == schedule(*start, phase, stop),
{
    match phase {
        RepeatPhase::Begin => (RepeatPhase::Woken, RepeatStep::Sleep(start.delay)),
        RepeatPhase::Woken => if stop {
            (RepeatPhase::Ended, RepeatStep::End)
        } else {
            (RepeatPhase::Fired, RepeatStep::Fire)
        },
        RepeatPhase::Fired => (RepeatPhase::Woken, RepeatStep::Sleep(start.interval)),
        RepeatPhase::Ended => (RepeatPhase::Ended, RepeatStep::End),
    }
}

/// A timer that nobody stops, after `n` steps: where it stands, how long it has
/// slept, and how often it has fired.
pub open spec fn undisturbed(start: RepeatStart, n: nat) -> (RepeatPhase, nat, nat)
    decreases n,
{
    if n == 0 {
        (RepeatPhase::Begin, 0, 0)
    } else {
        let (phase, slept, fired) = undisturbed(start, (n - 1) as nat);
        let (next, step) = schedule(start, phase, false);
        match step {
            RepeatStep::Sleep(ms) => (next, slept + ms as nat, fired),
            RepeatStep::Fire => (next, slept, fired + 1),
            RepeatStep::End => (next, slept, fired),
        }
    }
}

/// The first repeat of a sleeping timer lands `delay` after the press, and it
/// sleeps for an `interval` between any two: before it fires for the `n`-th time (counting from 0)
/// the timer has slept for `delay + n * interval`.
pub proof fn law_repeat_times(start: RepeatStart, n: nat)
    ensures
        undisturbed(start, 2 * n + 1) == (
            RepeatPhase::Woken,
            (start.delay + n * start.interval) as nat,
            n,
        ),
        undisturbed(start, 2 * n + 2) == (
            RepeatPhase::Fired,
            (start.delay + n * start.interval) as nat,
            n + 1,
        ),
    decreases n,
{
    if n == 0 {
        assert(undisturbed(start, 0) == (RepeatPhase::Begin, 0nat, 0nat));
        assert(undisturbed(start, 1) == (RepeatPhase::Woken, start.delay as nat, 0nat));
        assert(undisturbed(start, 2) == (RepeatPhase::Fired, start.delay as nat, 1nat));
        assert(0 * start.interval == 0);
    } else {
        law_repeat_times(start, (n - 1) as nat);
        let k = 2 * n;
        assert((k + 1 - 1) as nat == k && (k + 2 - 1) as nat == k + 1);
        assert(2 * (n - 1) as nat + 2 == k);
        assert(undisturbed(start, k).0 == RepeatPhase::Fired);
        assert(undisturbed(start, k + 1).0 == RepeatPhase::Woken);
        assert(undisturbed(start, k + 1).1 == undisturbed(start, k).1 + start.interval);
        assert(undisturbed(start, k + 2).0 == RepeatPhase::Fired);
        assert(n * start.interval == (n - 1) * start.interval + start.interval)
            by (nonlinear_arith);
    }
}

/// A set stop flag ends the timer at its next look: it never fires again.
pub proof fn law_stopped_timer_never_fires(start: RepeatStart, phase: RepeatPhase)
    ensures
        schedule(start, phase, true).1 != RepeatStep::Fire,
        ({
            let (p1, _) = schedule(start, phase, true);
            let (p2, _) = schedule(start, p1, true);
            p2 == RepeatPhase::Ended
        }),
        schedule(start, RepeatPhase::Ended, false).1 == RepeatStep::End,
{
}

// ---------------------------------------------------------------------------
// The schedule of a timer that ticks
// ---------------------------------------------------------------------------

/// Where a timer of the capture watcher stands. It is a task that fires on the
/// ticks of a fixed period, and it is aborted from outside.
#[derive(Clone, Copy, Debug, PartialEq, Eq, Structural)]
pub enum TickPhase {
    /// It was just started.
    Begin,
    /// It slept for the delay.
    Slept,
    /// Its ticks run, and it is about to wait for the next one.
    Waiting,
    /// A tick came.
    Ticked,
}

/// What a timer of the capture watcher does next.
#[derive(Clone, Copy, Debug, PartialEq, Eq, Structural)]
pub enum TickStep {
    /// Sleep for this many milliseconds.
    Sleep(u64),
    /// Start ticks with this period in milliseconds. The first one is due at
    /// once, and each further one a period later, however long a fire takes.
    StartTicks(u64),
    /// Wait for the next tick.
    AwaitTick,
    /// Fire the action.
    Fire,
}

/// One step of a timer of the capture watcher: sleep for the delay, then fire
/// on every tick of the interval.
pub open spec fn tick_schedule(start: RepeatStart, phase: TickPhase) -> (TickPhase, TickStep) {
    match phase {
        TickPhase::Begin => (TickPhase::Slept, TickStep::Sleep(start.delay)),
        TickPhase::Slept => (TickPhase::Waiting, TickStep::StartTicks(start.interval)),
        TickPhase::Waiting => (TickPhase::Ticked, TickStep::AwaitTick),
        TickPhase::Ticked => (TickPhase::Waiting, TickStep::Fire),
    }
}

/// The next step of a timer of the capture watcher.
pub fn next_tick_step(start: &RepeatStart, phase: TickPhase) -> (r: (TickPhase, TickStep))
    ensures
        r == tick_schedule(*start, phase),
{
    match phase {
        TickPhase::Begin => (TickPhase::Slept, TickStep::Sleep(start.delay)),
        TickPhase::Slept => (TickPhase::Waiting, TickStep::StartTicks(start.interval)),
        TickPhase::Waiting => (TickPhase::Ticked, TickStep::AwaitTick),
        TickPhase::Ticked => (TickPhase::Waiting, TickStep::Fire),
    }
}

/// A ticking timer on the clock.
pub struct TickClock {
    /// Where it stands.
    pub phase: TickPhase,
    /// Milliseconds since the press.
    pub now: nat,
    /// When the next tick is due.
    pub due: nat,
    /// How far apart the ticks are.
    pub period: nat,
    /// How often it has fired.
    pub fired: nat,
}

/// The clock after one step, when the fire with number `n` takes `cost(n)`
/// milliseconds.
pub open spec fn tick_on(start: RepeatStart, cost: spec_fn(nat) -> nat, c: TickClock) -> TickClock {
    let (phase, step) = tick_schedule(start, c.phase);
    match step {
        TickStep::Sleep(ms) => TickClock { phase, now: c.now + ms as nat, ..c },
        TickStep::StartTicks(ms) => TickClock { phase, due: c.now, period: ms as nat, ..c },
        TickStep::AwaitTick => TickClock {
            phase,
            now: if c.now < c.due {
                c.due
            } else {
                c.now
            },
            due: c.due + c.period,
            ..c
        },
        TickStep::Fire => TickClock {
            phase,
            now: c.now + cost(c.fired),
            fired: c.fired + 1,
            ..c
        },
    }
}

/// A ticking timer that nobody aborts, after `n` steps.
pub open spec fn ticking(start: RepeatStart, cost: spec_fn(nat) -> nat, n: nat) -> TickClock
    decreases n,
{
    if n == 0 {
        TickClock { phase: TickPhase::Begin, now: 0, due: 0, period: 0, fired: 0 }
    } else {
        tick_on(start, cost, ticking(start, cost, (n - 1) as nat))
    }
}

/// The repeats of a ticking timer do not drift: as long as no fire takes longer
/// than the interval, the `n`-th one (counting from 0) lands exactly `delay + n *
/// interval` after the press, whatever the fires before it took.
pub proof fn law_ticks_do_not_drift(start: RepeatStart, cost: spec_fn(nat) -> nat, n: nat)
    requires
        forall|k: nat| k < n ==> #[trigger] cost(k) <= start.interval,
    ensures
        ({
            let c = ticking(start, cost, 2 * n + 3);
            &&& c.phase is Ticked
            &&& c.fired == n
            &&& c.now == start.delay + n * start.interval
        }),
{
    lemma_ticking(start, cost, n);
}

/// When the `n`-th fire of a ticking timer lands, and when the next is due.
proof fn lemma_ticking(start: RepeatStart, cost: spec_fn(nat) -> nat, n: nat)
    requires
        forall|k: nat| k < n ==> #[trigger] cost(k) <= start.interval,
    ensures
        ticking(start, cost, 2 * n + 3) == (TickClock {
            phase: TickPhase::Ticked,
            now: (start.delay + n * start.interval) as nat,
            due: (start.delay + n * start.interval + start.interval) as nat,
            period: start.interval as nat,
            fired: n,
        }),
    decreases n,
{
    if n == 0 {
        let c0 = ticking(start, cost, 0);
        let c1 = ticking(start, cost, 1);
        let c2 = ticking(start, cost, 2);
        assert(c1 == tick_on(start, cost, c0));
        assert(c2 == tick_on(start, cost, c1));
        assert(ticking(start, cost, 3) == tick_on(start, cost, c2));
        assert(0 * start.interval == 0);
    } else {
        let m = (n - 1) as nat;
        lemma_ticking(start, cost, m);
        let k = 2 * m + 3;
        let c = ticking(start, cost, k);
        let d = ticking(start, cost, k + 1);
        assert(d == tick_on(start, cost, c));
        assert(2 * n + 3 == k + 2);
        assert(ticking(start, cost, k + 2) == tick_on(start, cost, d));
        assert(cost(m) <= start.interval);
        assert(n * start.interval == m * start.interval + start.interval) by (nonlinear_arith)
            requires
                n == m + 1,
        ;
    }
}

// ---------------------------------------------------------------------------
// Timers and buttons
// ---------------------------------------------------------------------------

/// Which timers run, when `change` is carried out on those in `live`.
pub open spec fn carried_out(live: Set<u64>, change: RepeatChange) -> Set<u64> {
    let stopped = match change.stop {
        Some(t) => live.remove(t),
        None => live,
    };
    match change.start {
        Some(s) => stopped.insert(s.timer),
        None => stopped,
    }
}

/// The timers that run are exactly those on the books, each for one button.
pub open spec fn in_step(timers: Map<ButtonId, u64>, live: Set<u64>) -> bool {
    &&& forall|t: u64|
        live.contains(t) <==> exists|b: ButtonId| #[trigger]
            timers.contains_key(b) && timers[b] == t
    &&& forall|a: ButtonId, b: ButtonId|
        timers.contains_key(a) && timers.contains_key(b) && timers[a] == timers[b] ==> a == b
}

/// A button never accumulates two timers: if the timers that run are those on
/// the books, one per button, then a press, with a fresh number for its timer,
/// keeps it so.
pub proof fn law_press_keeps_one_timer_per_button(
    timers: Map<ButtonId, u64>,
    live: Set<u64>,
    button: ButtonId,
    config: Option<RepeatConfig>,
    action: Action,
    timer: u64,
)
    requires
        in_step(timers, live),
        !live.contains(timer),
    ensures
        in_step(
            press_timers(timers, button, config, action, timer),
            carried_out(live, press_change(timers, button, config, action, timer)),
        ),
{
    if repeats(config, action) {
        let after = timers.insert(button, timer);
        let now = carried_out(live, press_change(timers, button, config, action, timer));
        assert forall|t: u64|
            now.contains(t) <==> exists|b: ButtonId| #[trigger]
                after.contains_key(b) && after[b] == t by {
            if now.contains(t) {
                if t == timer {
                    assert(after.contains_key(button) && after[button] == t);
                } else {
                    assert(live.contains(t));
                    let b = choose|b: ButtonId| #[trigger]
                        timers.contains_key(b) && timers[b] == t;
                    assert(b != button);
                    assert(after.contains_key(b) && after[b] == t);
                }
            }
            if exists|b: ButtonId| #[trigger] after.contains_key(b) && after[b] == t {
                let b = choose|b: ButtonId| #[trigger] after.contains_key(b) && after[b] == t;
                if b != button {
                    assert(timers.contains_key(b) && timers[b] == t);
                    assert(live.contains(t));
                }
            }
        }
        assert forall|a: ButtonId, b: ButtonId|
            after.contains_key(a) && after.contains_key(b) && after[a] == after[b] implies a
            == b by {
            if a == button && b != button {
                assert(timers.contains_key(b) && timers[b] == timer);
            }
            if b == button && a != button {
                assert(timers.contains_key(a) && timers[a] == timer);
            }
        }
    }
}

/// The release of a button leaves no timer for it, and no other timer is
/// touched.
pub proof fn law_release_ends_the_timer(timers: Map<ButtonId, u64>, live: Set<u64>, button: ButtonId)
    requires
        in_step(timers, live),
    ensures
        !timers.remove(button).contains_key(button),
        in_step(
            timers.remove(button),
            carried_out(
                live,
                RepeatChange { stop: binding::bound(timers, button), start: None },
            ),
        ),
{
    let after = timers.remove(button);
    let change = RepeatChange { stop: binding::bound(timers, button), start: None };
    let now = carried_out(live, change);
    assert forall|t: u64|
        now.contains(t) <==> exists|b: ButtonId| #[trigger]
            after.contains_key(b) && after[b] == t by {
        if now.contains(t) {
            let b = choose|b: ButtonId| #[trigger] timers.contains_key(b) && timers[b] == t;
            assert(b != button);
            assert(after.contains_key(b) && after[b] == t);
        }
        if exists|b: ButtonId| #[trigger] after.contains_key(b) && after[b] == t {
            let b = choose|b: ButtonId| #[trigger] after.contains_key(b) && after[b] == t;
            assert(timers.contains_key(b) && timers[b] == t);
        }
    }
}

/// Ending all timers ends each of them and no other.
pub proof fn law_drain_ends_every_timer(timers: Map<ButtonId, u64>, live: Set<u64>)
    requires
        in_step(timers, live),
    ensures
        forall|t: u64| live.contains(t) <==> all_timers(timers).contains(t),
{
    lemma_first_timers(timers, 8);
    assert forall|t: u64| live.contains(t) <==> all_timers(timers).contains(t) by {
        if live.contains(t) {
            let b = choose|b: ButtonId| #[trigger] timers.contains_key(b) && timers[b] == t;
            assert(binding::button_at(b.spec_key() as nat) == b);
            assert(all_timers(timers).contains(t));
        }
    }
}

/// The timers of the first buttons, by membership.
proof fn lemma_first_timers(timers: Map<ButtonId, u64>, n: nat)
    requires
        n <= 8,
    ensures
        forall|t: u64|
            timers_of_first(timers, n).contains(t) <==> exists|k: nat|
                k < n && timers.contains_key(#[trigger] binding::button_at(k)) && timers[binding::button_at(k)] == t,
    decreases n,
{
    if n > 0 {
        let m = (n - 1) as nat;
        lemma_first_timers(timers, m);
        let before = timers_of_first(timers, m);
        let after = timers_of_first(timers, n);
        let b = binding::button_at(m);
        assert forall|t: u64|
            after.contains(t) <==> exists|k: nat|
                k < n && timers.contains_key(#[trigger] binding::button_at(k)) && timers[binding::button_at(k)]
                    == t by {
            if after.contains(t) {
                let i = choose|i: int| 0 <= i < after.len() && after[i] == t;
                if i < before.len() {
                    assert(before[i] == t);
                    assert(before.contains(t));
                } else {
                    assert(timers.contains_key(binding::button_at(m)) && timers[binding::button_at(m)] == t);
                }
            }
            if exists|k: nat|
                k < n && timers.contains_key(#[trigger] binding::button_at(k)) && timers[binding::button_at(k)]
                    == t {
                let k = choose|k: nat|
                    k < n && timers.contains_key(#[trigger] binding::button_at(k)) && timers[binding::button_at(k)]
                        == t;
                if k < m {
                    assert(before.contains(t));
                    let i = choose|i: int| 0 <= i < before.len() && before[i] == t;
                    assert(after[i] == t);
                } else {
                    assert(after[after.len() - 1] == t);
                }
            }
        }
    }
}

/// What the preferences resolve to: switch and delay as they are, and the
/// interval too, unless it is zero, which becomes the least positive one.
pub proof fn law_preferences_resolve(enabled: bool, delay_ms: u32, interval_ms: u32)
    ensures
        ({
            let c = RepeatConfig::resolved(enabled, delay_ms, interval_ms);
            &&& c.enabled == enabled
            &&& c.delay == delay_ms
            &&& c.interval >= 1
            &&& interval_ms >= 1 ==> c.interval == interval_ms
            &&& interval_ms == 0 ==> c.interval == 1
        }),
{
}

/// A press starts a timer exactly when key-repeat is on and its action repeats.
/// The timer has the number, the action and the times that were given, it
/// replaces the one that runs for the button, and other buttons keep theirs.
pub proof fn law_press_starts_its_own_timer(
    timers: Map<ButtonId, u64>,
    button: ButtonId,
    config: RepeatConfig,
    action: Action,
    timer: u64,
    other: ButtonId,
)
    ensures
        ({
            let change = press_change(timers, button, Some(config), action, timer);
            let after = press_timers(timers, button, Some(config), action, timer);
            let on = config.enabled && (action matches Action::Os(a) && a.repeatable);
            &&& change.start is Some <==> on
            &&& change.start matches Some(s) ==> s.timer == timer && s.action == action && s.delay
                == config.delay && s.interval == config.interval
            &&& on ==> after.contains_key(button) && after[button] == timer
            &&& on && timers.contains_key(button) ==> change.stop == Some(timers[button])
            &&& !(on && timers.contains_key(button)) ==> change.stop is None
            &&& !on ==> after == timers
            &&& other != button ==> (after.contains_key(other) <==> timers.contains_key(other))
            &&& other != button && timers.contains_key(other) ==> after[other] == timers[other]
        }),
{
}

/// A configuration that cannot be read counts as the default one.
pub proof fn law_unreadable_config_is_the_default(
    timers: Map<ButtonId, u64>,
    button: ButtonId,
    action: Action,
    timer: u64,
)
    ensures
        ({
            let default = RepeatConfig {
                enabled: DEFAULT_REPEAT_ENABLED,
                delay: DEFAULT_REPEAT_DELAY_MS as u64,
                interval: DEFAULT_REPEAT_INTERVAL_MS as u64,
            };
            &&& press_change(timers, button, None, action, timer) == press_change(
                timers,
                button,
                Some(default),
                action,
                timer,
            )
            &&& press_timers(timers, button, None, action, timer) == press_timers(
                timers,
                button,
                Some(default),
                action,
                timer,
            )
        }),
{
}

/// A sleeping timer looks at its stop flag when it wakes and at no other time.
pub proof fn law_flag_is_read_on_waking_only(start: RepeatStart, phase: RepeatPhase)
    ensures
        !(phase is Woken) ==> schedule(start, phase, true) == schedule(start, phase, false),
        schedule(start, RepeatPhase::Woken, false).1 == RepeatStep::Fire,
        schedule(start, RepeatPhase::Woken, true).1 == RepeatStep::End,
{
}

/// Ending all timers names each of them once.
pub proof fn law_drain_names_each_timer_once(timers: Map<ButtonId, u64>, live: Set<u64>)
    requires
        in_step(timers, live),
    ensures
        all_timers(timers).no_duplicates(),
{
    lemma_first_timers_once(timers, live, 8);
}

/// The timers of the first buttons hold no number twice.
proof fn lemma_first_timers_once(timers: Map<ButtonId, u64>, live: Set<u64>, n: nat)
    requires
        in_step(timers, live),
        n <= 8,
    ensures
        timers_of_first(timers, n).no_duplicates(),
    decreases n,
{
    if n > 0 {
        let m = (n - 1) as nat;
        lemma_first_timers_once(timers, live, m);
        lemma_first_timers(timers, m);
        let before = timers_of_first(timers, m);
        let after = timers_of_first(timers, n);
        let b = binding::button_at(m);
        if timers.contains_key(b) && before.contains(timers[b]) {
            let k = choose|k: nat|
                k < m && timers.contains_key(#[trigger] binding::button_at(k))
                    && timers[binding::button_at(k)] == timers[b];
            assert(binding::button_at(k) == b);
            assert(false);
        }
        assert forall|i: int, j: int|
            0 <= i < after.len() && 0 <= j < after.len() && i != j implies after[i] != after[j] by {
            if i == before.len() {
                assert(before[j] == after[j]);
                assert(before.contains(after[j]));
            } else if j == before.len() {
                assert(before[i] == after[i]);
                assert(before.contains(after[i]));
            } else {
                assert(before[i] == after[i] && before[j] == after[j]);
            }
        }
    }
}

/// A configuration that can be read is in force as it is, and otherwise the
/// default one is.
pub proof fn law_config_in_force(config: RepeatConfig)
    ensures
        in_force(Some(config)) == config,
        in_force(None).enabled == DEFAULT_REPEAT_ENABLED,
        in_force(None).delay == DEFAULT_REPEAT_DELAY_MS,
        in_force(None).interval == DEFAULT_REPEAT_INTERVAL_MS,
{
}

} // verus!
