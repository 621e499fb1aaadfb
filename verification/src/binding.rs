//! Buttons, gestures, actions, and the maps that bind the one to the other.

use std::collections::BTreeMap;

use vstd::prelude::*;

verus! {

/// The physical controls of a mouse that can be bound.
#[derive(Clone, Copy, Debug, PartialEq, Eq, Structural)]
pub enum ButtonId {
    /// The primary button.
    LeftClick,
    /// The secondary button.
    RightClick,
    /// The wheel button.
    MiddleClick,
    /// The rear side button.
    Back,
    /// The front side button.
    Forward,
    /// The DPI / mode-shift button.
    DpiToggle,
    /// The tap on the thumb wheel.
    Thumbwheel,
    /// The gesture button.
    GestureButton,
}

/// The button whose number is `n`.
pub open spec fn button_at(n: nat) -> ButtonId {
    if n == 0 {
        ButtonId::LeftClick
    } else if n == 1 {
        ButtonId::RightClick
    } else if n == 2 {
        ButtonId::MiddleClick
    } else if n == 3 {
        ButtonId::Back
    } else if n == 4 {
        ButtonId::Forward
    } else if n == 5 {
        ButtonId::DpiToggle
    } else if n == 6 {
        ButtonId::Thumbwheel
    } else {
        ButtonId::GestureButton
    }
}

impl ButtonId {
    /// The number that keys the button in a map.
    pub open spec fn spec_key(self) -> u64 {
        match self {
            ButtonId::LeftClick => 0,
            ButtonId::RightClick => 1,
            ButtonId::MiddleClick => 2,
            ButtonId::Back => 3,
            ButtonId::Forward => 4,
            ButtonId::DpiToggle => 5,
            ButtonId::Thumbwheel => 6,
            ButtonId::GestureButton => 7,
        }
    }

    /// The number that keys the button in a map.
    pub fn key(self) -> (r: u64)
        ensures
            r == self.spec_key(),
    {
        match self {
            ButtonId::LeftClick => 0,
            ButtonId::RightClick => 1,
            ButtonId::MiddleClick => 2,
            ButtonId::Back => 3,
            ButtonId::Forward => 4,
            ButtonId::DpiToggle => 5,
            ButtonId::Thumbwheel => 6,
            ButtonId::GestureButton => 7,
        }
    }

    /// Every button, once.
    pub fn all() -> (r: [ButtonId; 8])
        ensures
            r@ == Seq::new(8, |i: int| button_at(i as nat)),
    {
        let r = [
            ButtonId::LeftClick,
            ButtonId::RightClick,
            ButtonId::MiddleClick,
            ButtonId::Back,
            ButtonId::Forward,
            ButtonId::DpiToggle,
            ButtonId::Thumbwheel,
            ButtonId::GestureButton,
        ];
        assert(r@ =~= Seq::new(8, |i: int| button_at(i as nat)));
        r
    }
}

/// A direction of the gesture button, by the number that tells directions apart.
#[derive(Clone, Copy, Debug, PartialEq, Eq, Structural)]
pub struct GestureDirection {
    /// The number of the direction.
    pub code: u64,
}

/// An action that the operating system carries out: a key chord, a media key, a
/// scroll step and the like.
#[derive(Clone, Copy, Debug, PartialEq, Eq, Structural)]
pub struct OsAction {
    /// The place of the action in the catalogue.
    pub id: u32,
    /// Whether holding the button repeats it (volume and scrolling).
    pub repeatable: bool,
}

/// What a button or a gesture can be bound to.
#[derive(Clone, Copy, Debug, PartialEq, Eq, Structural)]
pub enum Action {
    /// The primary click.
    LeftClick,
    /// The secondary click.
    RightClick,
    /// The middle click.
    MiddleClick,
    /// Advance to the next DPI preset.
    CycleDpiPresets,
    /// Select the DPI preset with this index.
    SetDpiPreset(u8),
    /// Flip the wheel mode.
    ToggleSmartShift,
    /// Anything that is synthesised as an operating-system event.
    Os(OsAction),
}

impl Action {
    /// Whether holding the button repeats the action.
    pub open spec fn spec_is_repeatable(self) -> bool {
        self matches Action::Os(a) && a.repeatable
    }

    /// Whether holding the button repeats the action.
    pub fn is_repeatable(&self) -> (r: bool)
        ensures
            r == self.spec_is_repeatable(),
    {
        match self {
            Action::Os(a) => a.repeatable,
            _ => false,
        }
    }
}

/// A map keyed by buttons.
#[derive(Debug)]
pub struct ButtonMap<V> {
    entries: BTreeMap<u64, V>,
}

impl<V> View for ButtonMap<V> {
    type V = Map<ButtonId, V>;

    closed spec fn view(&self) -> Map<ButtonId, V> {
        Map::new(
            |b: ButtonId| self.entries@.contains_key(b.spec_key()),
            |b: ButtonId| self.entries@[b.spec_key()],
        )
    }
}

impl<V> ButtonMap<V> {
    /// The empty map.
    pub fn new() -> (r: ButtonMap<V>)
        ensures
            r@ == Map::<ButtonId, V>::empty(),
    {
        let r = ButtonMap { entries: BTreeMap::new() };
        assert(r@ =~= Map::<ButtonId, V>::empty());
        r
    }

    /// What `button` maps to.
    pub fn get(&self, button: ButtonId) -> (r: Option<&V>)
        ensures
            r == (if self@.contains_key(button) {
                Some(&self@[button])
            } else {
                None
            }),
    {
        self.entries.get(&button.key())
    }

    /// Maps `button` to `value` and returns what it mapped to before.
    pub fn insert(&mut self, button: ButtonId, value: V) -> (r: Option<V>)
        ensures
            final(self)@ == old(self)@.insert(button, value),
            r == (if old(self)@.contains_key(button) {
                Some(old(self)@[button])
            } else {
                None
            }),
    {
        let r = self.entries.insert(button.key(), value);
        proof {
            lemma_index_is_injective();
        }
        assert(self@ =~= old(self)@.insert(button, value));
        r
    }

    /// Takes `button` out of the map and returns what it mapped to.
    pub fn remove(&mut self, button: ButtonId) -> (r: Option<V>)
        ensures
            final(self)@ == old(self)@.remove(button),
            r == (if old(self)@.contains_key(button) {
                Some(old(self)@[button])
            } else {
                None
            }),
    {
        let r = self.entries.remove(&button.key());
        proof {
            lemma_index_is_injective();
        }
        assert(self@ =~= old(self)@.remove(button));
        r
    }
}

/// The actions that buttons are bound to.
pub type BindingMap = ButtonMap<Action>;

/// The actions that gesture directions are bound to.
#[derive(Debug)]
pub struct GestureBindings {
    entries: BTreeMap<u64, Action>,
}

impl View for GestureBindings {
    type V = Map<GestureDirection, Action>;

    closed spec fn view(&self) -> Map<GestureDirection, Action> {
        Map::new(
            |d: GestureDirection| self.entries@.contains_key(d.code),
            |d: GestureDirection| self.entries@[d.code],
        )
    }
}

impl GestureBindings {
    /// No gesture is bound.
    pub fn new() -> (r: GestureBindings)
        ensures
            r@ == Map::<GestureDirection, Action>::empty(),
    {
        let r = GestureBindings { entries: BTreeMap::new() };
        assert(r@ =~= Map::<GestureDirection, Action>::empty());
        r
    }

    /// The action that `direction` is bound to.
    pub fn get(&self, direction: GestureDirection) -> (r: Option<Action>)
        ensures
            r == bound(self@, direction),
    {
        match self.entries.get(&direction.code) {
            Some(action) => Some(*action),
            None => None,
        }
    }

    /// Binds `direction` to `action`.
    pub fn insert(&mut self, direction: GestureDirection, action: Action)
        ensures
            final(self)@ == old(self)@.insert(direction, action),
    {
        let _ = self.entries.insert(direction.code, action);
        assert(self@ =~= old(self)@.insert(direction, action));
    }
}

/// What `k` is bound to in `m`.
pub open spec fn bound<K, V>(m: Map<K, V>, k: K) -> Option<V> {
    if m.contains_key(k) {
        Some(m[k])
    } else {
        None
    }
}

/// The view of bindings behind a lock.
pub open spec fn bindings_view(bindings: Option<&BindingMap>) -> Map<ButtonId, Action> {
    match bindings {
        Some(m) => m@,
        None => Map::empty(),
    }
}

/// The view of gesture bindings behind a lock.
pub open spec fn gestures_view(bindings: Option<&GestureBindings>) -> Map<
    GestureDirection,
    Action,
> {
    match bindings {
        Some(m) => m@,
        None => Map::empty(),
    }
}

/// Looks `button` up in the bindings that could be read. Bindings whose lock is
/// poisoned (`None`) bind nothing.
pub fn bound_action(bindings: Option<&BindingMap>, button: ButtonId) -> (r: Option<Action>)
    ensures
        r == bound(bindings_view(bindings), button),
{
    match bindings {
        Some(m) => match m.get(button) {
            Some(action) => Some(*action),
            None => None,
        },
        None => None,
    }
}

/// Looks `direction` up in the gesture bindings that could be read.
pub fn bound_gesture(bindings: Option<&GestureBindings>, direction: GestureDirection) -> (r: Option<
    Action,
>)
    ensures
        r == bound(gestures_view(bindings), direction),
{
    match bindings {
        Some(m) => m.get(direction),
        None => None,
    }
}

/// Distinct buttons have distinct numbers.
pub proof fn lemma_index_is_injective()
    ensures
        forall|a: ButtonId, b: ButtonId| #[trigger]
            a.spec_key() == #[trigger] b.spec_key() ==> a == b,
{
}

/// Which actions repeat: an operating-system action repeats exactly when the
/// catalogue says so, whichever it is, and no other action does.
pub proof fn law_repeatable_actions(os: OsAction, action: Action)
    ensures
        Action::Os(os).spec_is_repeatable() == os.repeatable,
        action.spec_is_repeatable() ==> action is Os,
{
}

/// What a key is bound to is what was last bound to it, and nothing after it was
/// taken out; other keys do not matter.
pub proof fn law_bound_is_what_was_bound<K, V>(m: Map<K, V>, k: K, v: V, other: K)
    ensures
        bound(m.insert(k, v), k) == Some(v),
        bound(m.remove(k), k) is None,
        other != k ==> bound(m.insert(k, v), other) == bound(m, other),
        other != k ==> bound(m.remove(k), other) == bound(m, other),
        bound(Map::<K, V>::empty(), k) is None,
{
}

/// Bindings that cannot be read bind nothing; those that can are taken as they
/// are.
pub proof fn law_unreadable_bindings_are_empty(m: &BindingMap, g: &GestureBindings)
    ensures
        bindings_view(Some(m)) == m@,
        bindings_view(None) == Map::<ButtonId, Action>::empty(),
        gestures_view(Some(g)) == g@,
        gestures_view(None) == Map::<GestureDirection, Action>::empty(),
{
}

} // verus!
