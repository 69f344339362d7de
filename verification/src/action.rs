//! The different actions that can be done.

use crate::key_code::KeyCode;
use crate::layout::{Stacked, WaitingAction};
use vstd::prelude::*;

verus! {

/// A caller supplied handler that decides a [`HoldTapAction`] with the
/// [`HoldTapConfig::Custom`] configuration.
///
/// The handler receives the events stacked since the hold-tap key was pressed, in the order in
/// which they were received. A [Some] value selects [`WaitingAction::Tap`],
/// [`WaitingAction::Hold`] or [`WaitingAction::NoOp`]; a [None] value falls back to the
/// timeout-based decision, and the handler is asked again on the next tick.
#[verifier::external_body]
#[derive(Debug)]
pub struct CustomHandler(pub fn(&[Stacked]) -> Option<WaitingAction>);

impl Clone for CustomHandler {
    #[verifier::external_body]
    fn clone(&self) -> Self {
        *self
    }
}

impl Copy for CustomHandler {

}

/// Asks a caller supplied handler for its decision. Nothing is known of the answer: the handler
/// is the caller's own code.
#[verifier::external_body]
pub(crate) fn call_custom_handler(handler: CustomHandler, stacked: &[Stacked]) -> Option<
    WaitingAction,
> {
    (handler.0)(stacked)
}

/// Behavior configuration of HoldTap.
#[non_exhaustive]
#[derive(Debug, Clone, Copy)]
pub enum HoldTapConfig {
    /// Only the timeout will determine between hold and tap action.
    ///
    /// This is a sane default.
    Default,
    /// If there is a key press, the hold action is activated.
    HoldOnOtherKeyPress,
    /// If there is a press and release of another key, the hold
    /// action is activated.
    PermissiveHold,
    /// A custom configuration: the behavior is controlled by a caller supplied handler.
    Custom(CustomHandler),
}

/// Perform different actions on key hold/tap.
///
/// If the key is held more than `timeout` ticks (usually
/// milliseconds), performs the `hold` action, else performs the
/// `tap` action.
#[derive(Debug, Clone, Copy)]
pub struct HoldTapAction<T: 'static + Copy> {
    /// The duration, in ticks (usually milliseconds) giving the
    /// difference between a hold and a tap.
    pub timeout: u16,
    /// The hold action.
    pub hold: Action<T>,
    /// The tap action.
    pub tap: Action<T>,
    /// Behavior configuration.
    pub config: HoldTapConfig,
    /// If the key is tapped and then pressed again in less than `tap_hold_interval` ticks
    /// (counted from the first press), the tap action is held. 0 deactivates this.
    pub tap_hold_interval: u16,
}

/// Determine the ending behaviour of the one shot key.
#[derive(Debug, Clone, Copy, PartialEq, Eq, Structural)]
pub enum OneShotEndConfig {
    /// End one shot activation on first non-one-shot key press.
    EndOnFirstPress,
    /// End one shot activation on first non-one-shot key press or a repress of an already-pressed
    /// one-shot key.
    EndOnFirstPressOrRepress,
    /// End one shot activation on first non-one-shot key release.
    EndOnFirstRelease,
    /// End one shot activation on first non-one-shot key release or a repress of an already-pressed
    /// one-shot key.
    EndOnFirstReleaseOrRepress,
}

/// Define one shot key behaviour.
#[derive(Debug, Clone, Copy)]
pub struct OneShotAction<T: 'static + Copy> {
    /// Action to activate until timeout expires or exactly one non-one-shot key is activated.
    pub action: Action<T>,
    /// Timeout after which one shot will expire.
    pub timeout: u16,
    /// Configuration of one shot end behaviour.
    pub end_config: OneShotEndConfig,
}

/// Determines the behaviour for a [`TapDanceAction`]
#[derive(Debug, Clone, Copy, PartialEq, Eq, Structural)]
pub enum TapDanceConfig {
    /// Eager will activate every action in the sequence as the key is pressed.
    Eager,
    /// Lazy will activate a single action, based on the number of taps, once the tap dance is over
    /// (timeout has been exceeded, or if a different key is pressed). The last action of
    /// the tap dance is still eagerly activated.
    Lazy,
}

/// Settings a [`TapDanceAction`], where an action is executed depending on the number of times the
/// key is pressed.
#[derive(Debug, Clone, Copy)]
pub struct TapDanceAction<T: 'static + Copy> {
    /// List of actions that activate based on number of taps.
    pub actions: &'static [Action<T>],
    /// Timeout after which a tap dance will expire.
    pub timeout: u16,
    /// Determine behaviour of tap dance.
    pub config: TapDanceConfig,
}

/// The different types of actions we support for key sequences/macros
#[derive(Debug, Clone, Copy, PartialEq, Eq)]
pub enum SequenceEvent<K: 'static> {
    /// No operation action: just do nothing (a placeholder).
    NoOp,
    /// A keypress/keydown
    Press(K),
    /// Key release/keyup
    Release(K),
    /// A shortcut for `Press(K), Release(K)`
    Tap(K),
    /// Wait for the given number of ticks before continuing.
    Delay(u16),
    /// Cancels the running sequence and can be used to mark the end of a sequence.
    Complete,
}

/// The different actions that can be done.
#[non_exhaustive]
#[derive(Debug, Clone, Copy)]
pub enum Action<T: 'static + Copy = core::convert::Infallible> {
    /// No operation action: just do nothing.
    NoOp,
    /// Transparent, i.e. get the action from the default layer. On
    /// the default layer, it is equivalent to `NoOp`.
    Trans,
    /// A key code, i.e. a classic key.
    KeyCode(KeyCode),
    /// Multiple key codes sent at the same time.
    MultipleKeyCodes(&'static &'static [KeyCode]),
    /// Multiple actions sent at the same time.
    MultipleActions(&'static &'static [Action<T>]),
    /// While pressed, change the current layer.
    Layer(usize),
    /// Switch the current layer until the layer gets toggled again.
    ToggleLayer(usize),
    /// Change the default layer.
    DefaultLayer(usize),
    /// Perform different actions on key hold/tap (see [`HoldTapAction`]).
    HoldTap(&'static HoldTapAction<T>),
    /// One shot key (see [`OneShotAction`]).
    OneShot(&'static OneShotAction<T>),
    /// Tap-dance key (see [`TapDanceAction`]).
    TapDance(&'static TapDanceAction<T>),
    /// An encoded key sequence: `1, 1, k` taps, `1, 2, k` presses and `1, 3, k` releases the
    /// key with code `k`; `1, 4, digits.., b'|'` waits for that many ticks; any other byte is an
    /// ASCII character to type.
    Sequence(&'static &'static [u8]),
    /// Custom action.
    Custom(T),
}

/// The layer that an action selects while it is held, if it is a `Layer` action.
pub open spec fn spec_layer<T: Copy>(a: Action<T>) -> Option<usize> {
    match a {
        Action::Layer(l) => Some(l),
        _ => None,
    }
}

/// The key codes that an action sends.
pub open spec fn spec_key_codes<T: Copy>(a: Action<T>) -> Seq<KeyCode> {
    match a {
        Action::KeyCode(kc) => seq![kc],
        Action::MultipleKeyCodes(kcs) => (*kcs)@,
        _ => Seq::empty(),
    }
}

impl<T: 'static + Copy> Action<T> {
    /// Gets the layer number if the action is the `Layer` action.
    pub fn layer(self) -> (r: Option<usize>)
        ensures
            r == spec_layer(self),
    {
        match self {
            Action::Layer(l) => Some(l),
            _ => None,
        }
    }

    /// Returns the `KeyCode`s corresponding to the action.
    pub fn key_codes(&self) -> (r: Vec<KeyCode>)
        ensures
            r@ == spec_key_codes(*self),
    {
        match self {
            Action::KeyCode(kc) => {
                let mut v = Vec::new();
                v.push(*kc);
                v
            },
            Action::MultipleKeyCodes(kcs) => {
                let s: &[KeyCode] = *kcs;
                let mut v = Vec::new();
                let mut i: usize = 0;
                while i < s.len()
                    invariant
                        i <= s@.len(),
                        v@ == s@.subrange(0, i as int),
                    decreases s@.len() - i,
                {
                    v.push(s[i]);
                    i = i + 1;
                }
                v
            },
            _ => Vec::new(),
        }
    }
}

/// A shortcut to create a `Action::KeyCode`, useful to create compact layout.
pub fn k<T: 'static + Copy>(kc: KeyCode) -> (r: Action<T>)
    ensures
        r == Action::<T>::KeyCode(kc),
{
    Action::KeyCode(kc)
}

/// A shortcut to create a `Action::Layer`, useful to create compact layout.
pub fn l<T: 'static + Copy>(layer: usize) -> (r: Action<T>)
    ensures
        r == Action::<T>::Layer(layer),
{
    Action::Layer(layer)
}

/// A shortcut to create a `Action::DefaultLayer`, useful to create compact layout.
pub fn d<T: 'static + Copy>(layer: usize) -> (r: Action<T>)
    ensures
        r == Action::<T>::DefaultLayer(layer),
{
    Action::DefaultLayer(layer)
}

/// A shortcut to create a `Action::MultipleKeyCodes`, useful to create compact layout.
pub fn m<T: 'static + Copy>(kcs: &'static &'static [KeyCode]) -> (r: Action<T>)
    ensures
        r == Action::<T>::MultipleKeyCodes(kcs),
{
    Action::MultipleKeyCodes(kcs)
}

/// A shortcut to create a `Action::ToggleLayer`, useful to create compact layout.
pub fn t<T: 'static + Copy>(layer: usize) -> (r: Action<T>)
    ensures
        r == Action::<T>::ToggleLayer(layer),
{
    Action::ToggleLayer(layer)
}

} // verus!
