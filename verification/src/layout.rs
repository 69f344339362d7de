//! Layout management: the state machine that turns key events and ticks into key codes.

use crate::action::{
    Action, HoldTapAction, HoldTapConfig, OneShotAction, OneShotEndConfig, TapDanceAction,
    TapDanceConfig, call_custom_handler,
};
use crate::key_code::{KeyCode, spec_ascii_keycode, spec_code, spec_from_u8, spec_shift_required};
use crate::model::{
    same_tapdance, LayoutModel, Removal, default_ctx, last_layer, parse_digits, find_byte, push_normal_keys,
    push_state, release_states, remove_states, removed_by, sat_digit, state_keycodes,
    OneShotModel, SequenceModel, dec16, ends_on_press, ends_on_release, ends_on_repress,
    find_release, has_press, has_press_and_release, td_handle_press, td_handle_release, td_is_done,
    waiting_tick,
};
use crate::queues::{
    CoordQueue, SequenceQueue, StackedQueue, coord_clear, coord_contains, coord_drain,
    coord_is_empty, coord_items, coord_new, coord_push_back, coord_retain_other, sequence_items,
    stacked_items, wrap_push, wrap_push_out,
};
use vstd::prelude::*;

verus! {

/// The Layers type: `layers[l][r][c]` is the action of the key in row `r`, column `c` of layer
/// `l`. The generic parameters are in order: the number of columns, rows and layers, and the
/// type contained in custom actions.
pub type Layers<const C: usize, const R: usize, const L: usize, T = core::convert::Infallible> = [[[Action<T>; C]; R]; L];

/// The number of key states a layout holds at most.
pub const STATES_CAPACITY: usize = 64;

/// The number of events that wait in the stack at most.
pub const STACK_CAPACITY: usize = 16;

/// The number of key sequences that run at the same time at most.
pub const SEQUENCES_CAPACITY: usize = 4;

/// The number of one shot key coordinates of each kind that are kept at most.
pub const ONESHOT_CAPACITY: usize = 16;

/// An event on the key matrix.
#[derive(Debug, Copy, Clone, PartialEq, Eq, Structural)]
pub enum Event {
    /// Press event with coordinates (i, j).
    Press(u8, u8),
    /// Release event with coordinates (i, j).
    Release(u8, u8),
}

/// Whether two coordinates are equal.
pub fn same_coord(a: (u8, u8), b: (u8, u8)) -> (r: bool)
    ensures
        r == (a == b),
{
    a.0 == b.0 && a.1 == b.1
}

/// The coordinates of an event.
pub open spec fn spec_coord(e: Event) -> (u8, u8) {
    match e {
        Event::Press(i, j) => (i, j),
        Event::Release(i, j) => (i, j),
    }
}

impl Event {
    /// Returns the coordinates (i, j) of the event.
    pub fn coord(self) -> (r: (u8, u8))
        ensures
            r == spec_coord(self),
    {
        match self {
            Event::Press(i, j) => (i, j),
            Event::Release(i, j) => (i, j),
        }
    }

    /// Transforms the coordinates of the event; the kind of the event is kept.
    pub fn transform<F: FnOnce(u8, u8) -> (u8, u8)>(self, f: F) -> (r: Self)
        requires
            call_requires(f, spec_coord(self)),
        ensures
            call_ensures(f, spec_coord(self), spec_coord(r)),
            r is Press <==> self is Press,
    {
        match self {
            Event::Press(i, j) => {
                let (i, j) = f(i, j);
                Event::Press(i, j)
            },
            Event::Release(i, j) => {
                let (i, j) = f(i, j);
                Event::Release(i, j)
            },
        }
    }

    /// Returns `true` if the event is a key press.
    pub fn is_press(self) -> (r: bool)
        ensures
            r == self is Press,
    {
        match self {
            Event::Press(..) => true,
            Event::Release(..) => false,
        }
    }

    /// Returns `true` if the event is a key release.
    pub fn is_release(self) -> (r: bool)
        ensures
            r == self is Release,
    {
        match self {
            Event::Release(..) => true,
            Event::Press(..) => false,
        }
    }
}

/// Event from custom action.
#[derive(Debug, PartialEq, Eq, Clone, Copy)]
pub enum CustomEvent<T: Copy> {
    /// No custom action.
    NoEvent,
    /// The given custom action key is pressed.
    Press(T),
    /// The given custom action key is released.
    Release(T),
}

/// The custom event after `e` is merged into `c`: an event can only be replaced in the order
/// `NoEvent < Press < Release`.
pub open spec fn spec_update<T: Copy>(c: CustomEvent<T>, e: CustomEvent<T>) -> CustomEvent<T> {
    match (e, c) {
        (CustomEvent::Release(_), CustomEvent::NoEvent) => e,
        (CustomEvent::Release(_), CustomEvent::Press(_)) => e,
        (CustomEvent::Press(_), CustomEvent::NoEvent) => e,
        _ => c,
    }
}

impl<T: Copy> CustomEvent<T> {
    /// Update an event according to a new event.
    ///
    /// The event can only be modified in the order `NoEvent < Press < Release`.
    pub fn update(&mut self, e: Self)
        ensures
            *final(self) == spec_update(*old(self), e),
    {
        match (&e, &*self) {
            (CustomEvent::Release(_), CustomEvent::NoEvent) => *self = e,
            (CustomEvent::Release(_), CustomEvent::Press(_)) => *self = e,
            (CustomEvent::Press(_), CustomEvent::NoEvent) => *self = e,
            _ => {},
        }
    }
}

/// The state of a pressed key.
#[derive(Debug, Copy)]
#[allow(inconsistent_fields)]
pub enum State<T: 'static + Copy> {
    /// A key code sent because of the key at `coord`.
    NormalKey { keycode: KeyCode, coord: (u8, u8) },
    /// A key code sent by a key sequence.
    FakeKey { keycode: KeyCode },
    /// A layer held by the key at `coord`.
    MomentaryLayerModifier { value: usize, coord: (u8, u8) },
    /// A layer toggled on.
    ToggleLayerModifier { value: usize },
    /// A custom action held by the key at `coord`.
    Custom { value: T, coord: (u8, u8) },
}

/// The key code that a state sends.
pub open spec fn spec_state_keycode<T: Copy>(s: State<T>) -> Option<KeyCode> {
    match s {
        State::NormalKey { keycode, .. } => Some(keycode),
        State::FakeKey { keycode } => Some(keycode),
        _ => None,
    }
}

/// The layer that a state selects.
pub open spec fn spec_state_layer<T: Copy>(s: State<T>) -> Option<usize> {
    match s {
        State::MomentaryLayerModifier { value, .. } => Some(value),
        State::ToggleLayerModifier { value } => Some(value),
        _ => None,
    }
}

/// Whether the release of the key at `c` ends the state `s`.
pub open spec fn spec_released_by<T: Copy>(s: State<T>, c: (u8, u8)) -> bool {
    match s {
        State::NormalKey { coord, .. } => coord == c,
        State::MomentaryLayerModifier { coord, .. } => coord == c,
        State::Custom { coord, .. } => coord == c,
        _ => false,
    }
}

/// The custom event that the release of the key at `c` gives for the state `s`.
pub open spec fn spec_release_event<T: Copy>(s: State<T>, c: (u8, u8)) -> CustomEvent<T> {
    match s {
        State::Custom { value, coord } => if coord == c {
            CustomEvent::Release(value)
        } else {
            CustomEvent::NoEvent
        },
        _ => CustomEvent::NoEvent,
    }
}

/// Whether `s` is the state of the key code `k` pressed by a sequence.
pub open spec fn spec_is_fake_key<T: Copy>(s: State<T>, k: KeyCode) -> bool {
    match s {
        State::FakeKey { keycode } => keycode == k,
        _ => false,
    }
}

impl<T: 'static + Copy> State<T> {
    /// The key code of the state, if it sends one.
    pub fn keycode(&self) -> (r: Option<KeyCode>)
        ensures
            r == spec_state_keycode(*self),
    {
        match self {
            State::NormalKey { keycode, .. } => Some(*keycode),
            State::FakeKey { keycode } => Some(*keycode),
            _ => None,
        }
    }

    /// The state after a tick: states do not change with time.
    pub fn tick(&self) -> (r: Option<Self>)
        ensures
            r == Some(*self),
    {
        Some(*self)
    }

    /// The state after the key at `c` is released; a released custom state records its
    /// release in `custom`.
    pub fn release(&self, c: (u8, u8), custom: &mut CustomEvent<T>) -> (r: Option<Self>)
        ensures
            r == (if spec_released_by(*self, c) { None } else { Some(*self) }),
            *final(custom) == spec_update(*old(custom), spec_release_event(*self, c)),
    {
        match *self {
            State::NormalKey { coord, .. } => {
                if same_coord(coord, c) {
                    None
                } else {
                    Some(*self)
                }
            },
            State::MomentaryLayerModifier { coord, .. } => {
                if same_coord(coord, c) {
                    None
                } else {
                    Some(*self)
                }
            },
            State::Custom { value, coord } => {
                if same_coord(coord, c) {
                    custom.update(CustomEvent::Release(value));
                    None
                } else {
                    Some(*self)
                }
            },
            _ => Some(*self),
        }
    }

    /// The state after a sequence releases the key code `key`.
    pub fn sequence_release(&self, key: KeyCode) -> (r: Option<Self>)
        ensures
            r == (if spec_is_fake_key(*self, key) { None } else { Some(*self) }),
    {
        match *self {
            State::FakeKey { keycode } => {
                if keycode == key {
                    None
                } else {
                    Some(*self)
                }
            },
            _ => Some(*self),
        }
    }

    /// The layer that the state selects, if any.
    pub fn get_layer(&self) -> (r: Option<usize>)
        ensures
            r == spec_state_layer(*self),
    {
        match self {
            State::MomentaryLayerModifier { value, .. } => Some(*value),
            State::ToggleLayerModifier { value } => Some(*value),
            _ => None,
        }
    }
}

/// Actions that can be triggered for a key configured for HoldTap.
#[derive(Debug, Copy, Clone, PartialEq, Eq, Structural)]
pub enum WaitingAction {
    /// Trigger the holding event.
    Hold,
    /// Trigger the tapping event.
    Tap,
    /// Drop this event. It will act as if no key was pressed.
    NoOp,
}

/// An event, waiting in a stack to be processed.
#[derive(Debug, Clone, Copy)]
pub struct Stacked {
    /// The event.
    pub event: Event,
    /// The number of ticks since the event was stacked.
    pub since: u16,
}

/// The stacked event one tick later.
pub open spec fn spec_stacked_tick(s: Stacked) -> Stacked {
    Stacked { event: s.event, since: if s.since < u16::MAX { (s.since + 1) as u16 } else { s.since } }
}

impl Stacked {
    /// Stacks a new event.
    pub fn from_event(event: Event) -> (r: Stacked)
        ensures
            r == (Stacked { event, since: 0 }),
    {
        Stacked { event, since: 0 }
    }

    /// Counts one more tick since the event was stacked (saturating).
    pub fn tick(&mut self)
        ensures
            *final(self) == spec_stacked_tick(*old(self)),
    {
        self.since = self.since.saturating_add(1);
    }

    /// Get the [Event] from this object.
    pub fn event(&self) -> (r: Event)
        ensures
            r == self.event,
    {
        self.event
    }
}

/// A running key sequence.
#[derive(Debug, Clone, Copy)]
pub struct SequenceState {
    /// The bytes of the sequence that are still to be processed.
    pub remaining_bytes: &'static [u8],
    /// The number of ticks to wait before processing the next byte.
    pub delay: u32,
    /// Whether a tap was pressed and still has to be released.
    pub tap_in_progress: bool,
    /// Whether an ASCII character was pressed and still has to be released.
    pub ascii_in_progress: bool,
}

/// The last key that activated an action, with the ticks left in which a repress of that key
/// holds a hold-tap's tap action.
#[derive(Debug, Copy)]
pub struct TapHoldTracker {
    /// The coordinates of the key.
    pub coord: (u8, u8),
    /// The ticks left.
    pub timeout: u16,
}

/// Where an action is done from.
#[derive(Debug, Clone, Copy)]
pub struct ActionContext {
    /// The action is activated by a one shot key.
    pub inside_oneshot: bool,
    /// The action is activated by a tap dance.
    pub inside_tapdance: bool,
}

/// A hold-tap key that waits for its decision.
#[derive(Debug, Copy)]
pub struct WaitingState<T: 'static + Copy> {
    /// The coordinates of the key.
    pub coord: (u8, u8),
    /// The ticks left before the hold action is chosen.
    pub timeout: u16,
    /// The ticks that the press waited in the stack before it was processed.
    pub delay: u16,
    /// The hold action.
    pub hold: &'static Action<T>,
    /// The tap action.
    pub tap: &'static Action<T>,
    /// The decision behaviour.
    pub config: HoldTapConfig,
}

/// A running tap dance.
#[derive(Debug, Copy)]
pub struct TapDanceState<T: 'static + Copy> {
    /// The coordinates of the tap dance key.
    pub coord: (u8, u8),
    /// The ticks left before the tap dance ends.
    pub timeout: u16,
    /// The index of the action that the taps so far select.
    pub current_action: u8,
    /// The tap dance.
    pub tapdance_action: &'static TapDanceAction<T>,
    /// Whether the key is to be released when a lazy tap dance ends.
    pub release_on_tapdance_end: bool,
}

impl<T: 'static + Copy> Clone for State<T> {
    fn clone(&self) -> (r: Self)
        ensures
            r == *self,
    {
        *self
    }
}

impl Clone for TapHoldTracker {
    fn clone(&self) -> (r: Self)
        ensures
            r == *self,
    {
        *self
    }
}

impl<T: 'static + Copy> Clone for WaitingState<T> {
    fn clone(&self) -> (r: Self)
        ensures
            r == *self,
    {
        *self
    }
}

impl<T: 'static + Copy> Clone for TapDanceState<T> {
    fn clone(&self) -> (r: Self)
        ensures
            r == *self,
    {
        *self
    }
}

/// The models of running sequences.
pub open spec fn sequence_models(s: Seq<SequenceState>) -> Seq<SequenceModel> {
    s.map_values(|q: SequenceState| q.model())
}

/// Pushing onto a ring buffer of sequences and taking the models commute.
proof fn lemma_sequence_models_push(s: Seq<SequenceState>, x: SequenceState, cap: nat)
    requires
        cap > 0,
    ensures
        sequence_models(wrap_push(s, x, cap)) == wrap_push(sequence_models(s), x.model(), cap),
        s.len() > 0 ==> sequence_models(s.drop_first()) == sequence_models(s).drop_first(),
{
    assert(sequence_models(wrap_push(s, x, cap)) =~= wrap_push(sequence_models(s), x.model(), cap));
    if s.len() > 0 {
        assert(sequence_models(s.drop_first()) =~= sequence_models(s).drop_first());
    }
}

impl SequenceState {
    /// The model of the running sequence.
    pub open spec fn model(self) -> SequenceModel {
        SequenceModel {
            bytes: self.remaining_bytes@,
            delay: self.delay,
            tap_in_progress: self.tap_in_progress,
            ascii_in_progress: self.ascii_in_progress,
        }
    }
}

impl<T: 'static + Copy> TapDanceState<T> {
    /// One tick of the tap dance.
    pub fn tick(&mut self)
        ensures
            *final(self) == (TapDanceState { timeout: dec16(old(self).timeout), ..*old(self) }),
    {
        self.timeout = self.timeout.saturating_sub(1);
    }

    /// A press: another tap of the dance when `corresponds_to_current_tapdance`, else the
    /// press of a key that ends the dance.
    pub fn handle_press(&mut self, corresponds_to_current_tapdance: bool)
        requires
            td_handle_press(*old(self), corresponds_to_current_tapdance) is Some,
        ensures
            Some(*final(self)) == td_handle_press(*old(self), corresponds_to_current_tapdance),
    {
        if corresponds_to_current_tapdance {
            self.current_action = self.current_action + 1;
            self.timeout = self.tapdance_action.timeout;
            self.release_on_tapdance_end = false;
            return ;
        }
        self.timeout = 0;
    }

    /// The release of the key at `coord`: true when it is the tap dance key.
    pub fn handle_release(&mut self, coord: (u8, u8)) -> (r: bool)
        ensures
            *final(self) == td_handle_release(*old(self), coord),
            r == (coord == old(self).coord),
    {
        if same_coord(coord, self.coord) {
            self.release_on_tapdance_end = true;
            return true;
        }
        false
    }

    /// Whether the tap dance is over: its time is up, or the last action is reached.
    pub fn is_done(&self) -> (r: bool)
        requires
            td_is_done(*self) is Some,
        ensures
            Some(r) == td_is_done(*self),
    {
        self.timeout == 0 || ((self.tapdance_action.actions.len() % 256) as u8) == self.current_action + 1
    }
}

/// The state of the one shot keys.
pub struct OneShotState {
    /// Coordinates of one shot keys that are active.
    active_oneshot_keys: CoordQueue,
    /// Coordinates of one shot keys that have been released; they are released at the end of
    /// the one shot.
    released_oneshot_keys: CoordQueue,
    /// Coordinates of the other keys pressed, for the release variants.
    other_pressed_keys: CoordQueue,
    /// Timeout after which all one shot keys expire.
    timeout: u16,
    /// The end config of the most recently pressed one shot key.
    end_config: OneShotEndConfig,
    /// Whether the one shot keys are to be released on the next tick.
    release_on_next_tick: bool,
}

impl OneShotState {
    /// The model of the one shot state.
    pub closed spec fn model(&self) -> OneShotModel {
        OneShotModel {
            active: coord_items(self.active_oneshot_keys),
            released: coord_items(self.released_oneshot_keys),
            other: coord_items(self.other_pressed_keys),
            timeout: self.timeout,
            end_config: self.end_config,
            release_on_next_tick: self.release_on_next_tick,
        }
    }

    /// A new one shot state with no keys.
    pub fn new(timeout: u16, end_config: OneShotEndConfig) -> (r: OneShotState)
        ensures
            r.model() == (OneShotModel {
                active: Seq::empty(),
                released: Seq::empty(),
                other: Seq::empty(),
                timeout,
                end_config,
                release_on_next_tick: false,
            }),
    {
        OneShotState {
            active_oneshot_keys: coord_new(),
            released_oneshot_keys: coord_new(),
            other_pressed_keys: coord_new(),
            timeout,
            end_config,
            release_on_next_tick: false,
        }
    }

    /// Sets the timeout and the end configuration, as the most recent one shot key asks.
    pub fn configure(&mut self, timeout: u16, end_config: OneShotEndConfig)
        ensures
            final(self).model() == (OneShotModel { timeout, end_config, ..old(self).model() }),
    {
        self.timeout = timeout;
        self.end_config = end_config;
    }

    /// One tick: the keys to release when the one shot ends.
    pub fn tick(&mut self) -> (r: Option<Vec<(u8, u8)>>)
        ensures
            final(self).model() == old(self).model().tick().0,
            match r {
                Some(v) => old(self).model().tick().1 == Some(v@),
                None => old(self).model().tick().1 is None,
            },
    {
        if coord_is_empty(&self.active_oneshot_keys) {
            return None;
        }
        self.timeout = self.timeout.saturating_sub(1);
        if !self.release_on_next_tick && self.timeout > 0 {
            return None;
        }
        coord_clear(&mut self.active_oneshot_keys);
        coord_clear(&mut self.other_pressed_keys);
        Some(coord_drain(&mut self.released_oneshot_keys))
    }

    /// The press of the key at `coord`, a one shot key when `is_oneshot_activation`; the one
    /// shot key that no longer fits is handed back.
    pub fn handle_press(&mut self, coord: (u8, u8), is_oneshot_activation: bool) -> (r: Option<
        (u8, u8),
    >)
        ensures
            (final(self).model(), r) == old(self).model().handle_press(coord, is_oneshot_activation),
    {
        coord_retain_other(&mut self.released_oneshot_keys, coord);
        if is_oneshot_activation {
            let repress = match self.end_config {
                OneShotEndConfig::EndOnFirstReleaseOrRepress => true,
                OneShotEndConfig::EndOnFirstPressOrRepress => true,
                _ => false,
            };
            if repress && coord_contains(&self.active_oneshot_keys, coord) {
                self.release_on_next_tick = true;
            }
            coord_push_back(&mut self.active_oneshot_keys, coord)
        } else {
            let on_press = match self.end_config {
                OneShotEndConfig::EndOnFirstPress => true,
                OneShotEndConfig::EndOnFirstPressOrRepress => true,
                _ => false,
            };
            if on_press {
                self.release_on_next_tick = true;
            } else {
                coord_push_back(&mut self.other_pressed_keys, coord);
            }
            None
        }
    }

    /// The release of the key at `coord`: whether the release is held back until the end of
    /// the one shot, and the keys to release now.
    pub fn handle_release(&mut self, coord: (u8, u8)) -> (r: (bool, Option<Vec<(u8, u8)>>))
        ensures
            final(self).model() == old(self).model().handle_release(coord).0,
            r.0 == old(self).model().handle_release(coord).1,
            match r.1 {
                Some(v) => old(self).model().handle_release(coord).2 == Some(v@),
                None => old(self).model().handle_release(coord).2 is None,
            },
    {
        let on_release = match self.end_config {
            OneShotEndConfig::EndOnFirstRelease => true,
            OneShotEndConfig::EndOnFirstReleaseOrRepress => true,
            _ => false,
        };
        if on_release && coord_contains(&self.other_pressed_keys, coord) {
            return (false, Some(coord_drain(&mut self.released_oneshot_keys)));
        }
        if coord_contains(&self.active_oneshot_keys, coord) {
            let overflow = coord_push_back(&mut self.released_oneshot_keys, coord);
            let out = match overflow {
                Some(x) => {
                    let mut v = Vec::new();
                    v.push(x);
                    proof {
                        assert(v@ =~= seq![x]);
                    }
                    Some(v)
                },
                None => None,
            };
            return (true, out);
        }
        (false, None)
    }
}

impl<T: 'static + Copy> WaitingState<T> {
    /// One tick of the waiting hold-tap key, seeing the stacked events; `decision` is what the
    /// custom handler answered, when the configuration is custom.
    pub fn tick(&mut self, stacked: &Vec<Stacked>, decision: Option<WaitingAction>) -> (r: Option<
        WaitingAction,
    >)
        requires
            waiting_tick(*old(self), stacked@, decision).2,
        ensures
            *final(self) == waiting_tick(*old(self), stacked@, decision).0,
            r == waiting_tick(*old(self), stacked@, decision).1,
    {
        let ghost w0 = *self;
        self.timeout = self.timeout.saturating_sub(1);
        match self.config {
            HoldTapConfig::Default => {},
            HoldTapConfig::HoldOnOtherKeyPress => {
                if any_press(stacked) {
                    return Some(WaitingAction::Hold);
                }
            },
            HoldTapConfig::PermissiveHold => {
                if any_press_and_release(stacked) {
                    return Some(WaitingAction::Hold);
                }
            },
            HoldTapConfig::Custom(_) => {
                if decision.is_some() {
                    return decision;
                }
            },
        }
        match first_release(stacked, self.coord) {
            Some(i) => {
                let since = stacked[i].since;
                if self.timeout + since > self.delay {
                    Some(WaitingAction::Tap)
                } else {
                    Some(WaitingAction::Hold)
                }
            },
            None => {
                if self.timeout == 0 {
                    Some(WaitingAction::Hold)
                } else {
                    None
                }
            },
        }
    }

    /// Whether the event is the release of the waiting key.
    pub fn is_corresponding_release(&self, event: &Event) -> (r: bool)
        ensures
            r == (*event == Event::Release(self.coord.0, self.coord.1)),
    {
        match event {
            Event::Release(i, j) => *i == self.coord.0 && *j == self.coord.1,
            _ => false,
        }
    }
}

/// Whether some stacked event is a press.
fn any_press(stacked: &Vec<Stacked>) -> (r: bool)
    ensures
        r == has_press(stacked@),
{
    let mut i: usize = 0;
    while i < stacked.len()
        invariant
            i <= stacked@.len(),
            forall|j: int| 0 <= j < i ==> !((#[trigger] stacked@[j]).event is Press),
        decreases stacked@.len() - i,
    {
        if stacked[i].event.is_press() {
            return true;
        }
        i = i + 1;
    }
    false
}

/// Whether some stacked key is pressed and then released later in the stack.
fn any_press_and_release(stacked: &Vec<Stacked>) -> (r: bool)
    ensures
        r == has_press_and_release(stacked@),
{
    let n = stacked.len();
    let mut x: usize = 0;
    while x < n
        invariant
            n == stacked@.len(),
            x <= n,
            forall|a: int, b: int|
                0 <= a < x && a < b < n ==> !((#[trigger] stacked@[a]).event is Press
                    && (#[trigger] stacked@[b]).event == Event::Release(
                    stacked@[a].event->Press_0,
                    stacked@[a].event->Press_1,
                )),
        decreases n - x,
    {
        let s = stacked[x];
        if s.event.is_press() {
            let (i, j) = s.event.coord();
            let target = Event::Release(i, j);
            let mut y: usize = x + 1;
            while y < n
                invariant
                    n == stacked@.len(),
                    x < y <= n,
                    s == stacked@[x as int],
                    s.event is Press,
                    target == Event::Release(s.event->Press_0, s.event->Press_1),
                    forall|b: int| x < b < y ==> (#[trigger] stacked@[b]).event != target,
                decreases n - y,
            {
                if stacked[y].event == target {
                    proof {
                        assert(stacked@[x as int].event is Press && stacked@[y as int].event
                            == Event::Release(
                            stacked@[x as int].event->Press_0,
                            stacked@[x as int].event->Press_1,
                        ));
                    }
                    return true;
                }
                y = y + 1;
            }
        }
        x = x + 1;
    }
    false
}

/// The index of the first stacked release of the key at `c`.
fn first_release(stacked: &Vec<Stacked>, c: (u8, u8)) -> (r: Option<usize>)
    ensures
        match r {
            Some(i) => find_release(stacked@, c, 0) == Some(i as int) && i < stacked@.len(),
            None => find_release(stacked@, c, 0) is None,
        },
{
    let mut i: usize = 0;
    while i < stacked.len()
        invariant
            i <= stacked@.len(),
            find_release(stacked@, c, 0) == find_release(stacked@, c, i as int),
        decreases stacked@.len() - i,
    {
        if stacked[i].event == Event::Release(c.0, c.1) {
            return Some(i);
        }
        i = i + 1;
    }
    None
}

/// Errors that can occur when attempting to change an action
#[derive(Debug)]
pub enum ChangeActionError {
    /// The provided coordinates (layer, row and column) do not exist in the layout.
    OutOfBounds,
}

/// The layout manager. It takes `Event`s and `tick`s as input, and
/// generate keyboard reports.
pub struct Layout<
    const C: usize,
    const R: usize,
    const L: usize,
    T: 'static + Copy = core::convert::Infallible,
> {
    layers: [[[Action<T>; C]; R]; L],
    default_layer: usize,
    states: Vec<State<T>>,
    waiting: Option<WaitingState<T>>,
    oneshot: Option<OneShotState>,
    tapdance: Option<TapDanceState<T>>,
    active_sequences: SequenceQueue,
    stacked: StackedQueue,
    tap_hold_tracker: TapHoldTracker,
}

impl<const C: usize, const R: usize, const L: usize, T: 'static + Copy> View for Layout<C, R, L, T> {
    type V = LayoutModel<T, C, R, L>;

    closed spec fn view(&self) -> LayoutModel<T, C, R, L> {
        LayoutModel {
            layers: self.layers,
            default_layer: self.default_layer,
            states: self.states@,
            waiting: self.waiting,
            oneshot: match self.oneshot {
                Some(o) => Some(o.model()),
                None => None,
            },
            tapdance: self.tapdance,
            sequences: sequence_models(sequence_items(self.active_sequences)),
            stacked: stacked_items(self.stacked),
            tracker: self.tap_hold_tracker,
            fault: false,
        }
    }
}

/// `states` after `x` is pushed, unless the states are full; whether it was pushed.
fn push_state_exec<T: 'static + Copy>(states: &mut Vec<State<T>>, x: State<T>) -> (r: bool)
    ensures
        final(states)@ == push_state(old(states)@, x),
        r == (old(states)@.len() < 64),
{
    if states.len() < 64 {
        states.push(x);
        true
    } else {
        false
    }
}

/// `states` after each key code of `kcs` is pushed as the normal key at `coord`.
fn push_normal_keys_exec<T: 'static + Copy>(
    states: &mut Vec<State<T>>,
    kcs: &[KeyCode],
    coord: (u8, u8),
)
    ensures
        final(states)@ == push_normal_keys(old(states)@, kcs@, coord),
{
    let ghost s0 = states@;
    let mut i: usize = 0;
    while i < kcs.len()
        invariant
            i <= kcs@.len(),
            states@ == push_normal_keys(s0, kcs@.take(i as int), coord),
        decreases kcs@.len() - i,
    {
        proof {
            assert(kcs@.take(i + 1).drop_last() =~= kcs@.take(i as int));
        }
        push_state_exec(states, State::NormalKey { coord, keycode: kcs[i] });
        i = i + 1;
    }
    proof {
        assert(kcs@.take(kcs@.len() as int) =~= kcs@);
    }
}

/// Whether the criterion `r` removes the state `s`.
fn removes<T: 'static + Copy>(s: &State<T>, r: Removal) -> (b: bool)
    ensures
        b == removed_by(*s, r),
{
    match r {
        Removal::Fake(k) => match s {
            State::FakeKey { keycode } => *keycode == k,
            _ => false,
        },
        Removal::FakeWithMod(k, m) => match s {
            State::FakeKey { keycode } => *keycode == k || match m {
                Some(mk) => *keycode == mk,
                None => false,
            },
            _ => false,
        },
        Removal::AllFakes => match s {
            State::FakeKey { .. } => true,
            _ => false,
        },
        Removal::Toggle(v) => match s {
            State::ToggleLayerModifier { value } => *value == v,
            _ => false,
        },
    }
}

/// The states that the criterion `r` keeps, and whether it removed any.
fn remove_states_exec<T: 'static + Copy>(states: &Vec<State<T>>, r: Removal) -> (res: (
    Vec<State<T>>,
    bool,
))
    ensures
        res.0@ == remove_states(states@, r),
        res.1 == exists|i: int| 0 <= i < states@.len() && removed_by(#[trigger] states@[i], r),
{
    let mut out: Vec<State<T>> = Vec::new();
    let mut removed = false;
    let mut i: usize = 0;
    while i < states.len()
        invariant
            i <= states@.len(),
            out@ == remove_states(states@.take(i as int), r),
            removed == exists|j: int| 0 <= j < i && removed_by(#[trigger] states@[j], r),
        decreases states@.len() - i,
    {
        let s = states[i];
        proof {
            assert(states@.take(i + 1).drop_last() =~= states@.take(i as int));
        }
        if removes(&s, r) {
            removed = true;
        } else {
            out.push(s);
        }
        i = i + 1;
    }
    proof {
        assert(states@.take(states@.len() as int) =~= states@);
    }
    (out, removed)
}

/// The states that the release of the key at `c` keeps, with `custom` recording the releases
/// of custom states.
fn release_states_exec<T: 'static + Copy>(
    states: &Vec<State<T>>,
    c: (u8, u8),
    custom: &mut CustomEvent<T>,
) -> (out: Vec<State<T>>)
    ensures
        (out@, *final(custom)) == release_states(states@, c, *old(custom)),
{
    let mut out: Vec<State<T>> = Vec::new();
    let mut i: usize = 0;
    let ghost c0 = *custom;
    while i < states.len()
        invariant
            i <= states@.len(),
            (out@, *custom) == release_states(states@.take(i as int), c, c0),
        decreases states@.len() - i,
    {
        let s = states[i];
        proof {
            assert(states@.take(i + 1).drop_last() =~= states@.take(i as int));
        }
        match s.release(c, custom) {
            Some(kept) => out.push(kept),
            None => {},
        }
        i = i + 1;
    }
    proof {
        assert(states@.take(states@.len() as int) =~= states@);
    }
    out
}

impl<const C: usize, const R: usize, const L: usize, T: 'static + Copy> Layout<C, R, L, T> {
    /// Creates a new `Layout` object.
    pub fn new(layers: [[[Action<T>; C]; R]; L]) -> (r: Self)
        ensures
            r@ == (LayoutModel::<T, C, R, L> {
                layers,
                default_layer: 0,
                states: Seq::empty(),
                waiting: None,
                oneshot: None,
                tapdance: None,
                sequences: Seq::empty(),
                stacked: Seq::empty(),
                tracker: TapHoldTracker { coord: (0, 0), timeout: 0 },
                fault: false,
            }),
    {
        let r = Layout {
            layers,
            default_layer: 0,
            states: Vec::new(),
            waiting: None,
            oneshot: None,
            tapdance: None,
            active_sequences: crate::queues::sequence_new(),
            stacked: crate::queues::stacked_new(),
            tap_hold_tracker: TapHoldTracker { coord: (0, 0), timeout: 0 },
        };
        proof {
            assert(r@.sequences =~= Seq::<SequenceModel>::empty());
        }
        r
    }

    /// Check if the layout is in a state where it needs to be ticked repeatedly. This can be used
    /// to save power by not needing to repeatedly call [`Self::tick`] when the layout is inactive.
    pub fn is_active(&self) -> (r: bool)
        ensures
            r == self@.is_active(),
    {
        crate::queues::stacked_len(&self.stacked) > 0 || crate::queues::sequence_len(
            &self.active_sequences,
        ) > 0 || self.tapdance.is_some() || self.waiting.is_some() || self.oneshot.is_some()
            || self.tap_hold_tracker.timeout > 0
    }

    /// The key codes of the current state, in the order of the states.
    pub fn keycodes(&self) -> (r: Vec<KeyCode>)
        ensures
            r@ == state_keycodes(self@.states),
    {
        let mut out: Vec<KeyCode> = Vec::new();
        let mut i: usize = 0;
        while i < self.states.len()
            invariant
                i <= self.states@.len(),
                out@ == state_keycodes(self.states@.take(i as int)),
            decreases self.states@.len() - i,
        {
            proof {
                assert(self.states@.take(i + 1).drop_last() =~= self.states@.take(i as int));
            }
            match self.states[i].keycode() {
                Some(k) => out.push(k),
                None => {},
            }
            i = i + 1;
        }
        proof {
            assert(self.states@.take(self.states@.len() as int) =~= self.states@);
        }
        out
    }

    /// Obtain the index of the current active layer
    pub fn current_layer(&self) -> (r: usize)
        ensures
            r == self@.current_layer(),
    {
        let mut i: usize = self.states.len();
        proof {
            assert(self.states@.take(self.states@.len() as int) =~= self.states@);
        }
        while i > 0
            invariant
                i <= self.states@.len(),
                last_layer(self.states@) == last_layer(self.states@.take(i as int)),
            decreases i,
        {
            proof {
                assert(self.states@.take(i as int).drop_last() =~= self.states@.take(i - 1));
            }
            match self.states[i - 1].get_layer() {
                Some(v) => {
                    return v;
                },
                None => {},
            }
            i = i - 1;
        }
        proof {
            assert(self.states@.take(0) =~= Seq::<State<T>>::empty());
        }
        self.default_layer
    }

    /// Sets the default layer for the layout; a layer out of range is ignored.
    pub fn set_default_layer(&mut self, value: usize)
        ensures
            final(self)@ == old(self)@.set_default_layer(value),
    {
        if value < L {
            self.default_layer = value
        }
    }

    /// The action stored for the key at `coord` on `layer`, if the position exists.
    fn lookup(&self, coord: (u8, u8), layer: usize) -> (r: Option<Action<T>>)
        ensures
            r == self@.lookup(coord, layer),
    {
        if layer < L && (coord.0 as usize) < R && (coord.1 as usize) < C {
            let lay = self.layers[layer];
            let row = lay[coord.0 as usize];
            Some(row[coord.1 as usize])
        } else {
            None
        }
    }

    /// The action that a press of the key at `coord` on `layer` does.
    fn press_as_action(&self, coord: (u8, u8), layer: usize) -> (r: Action<T>)
        ensures
            r == self@.press_as_action(coord, layer),
    {
        match self.lookup(coord, layer) {
            None => Action::NoOp,
            Some(Action::Trans) => {
                if layer != self.default_layer {
                    match self.lookup(coord, self.default_layer) {
                        Some(Action::Trans) => Action::NoOp,
                        Some(a) => a,
                        None => Action::NoOp,
                    }
                } else {
                    Action::NoOp
                }
            },
            Some(a) => a,
        }
    }

    /// Changes the action for a given key
    pub fn change_action(&mut self, coord: (u8, u8), layer: usize, action: Action<T>) -> (r: Result<
        (),
        ChangeActionError,
    >)
        ensures
            r is Ok <==> old(self)@.lookup(coord, layer) is Some,
            old(self)@.action_changed(final(self)@, coord, layer, action),
    {
        if layer < L && (coord.0 as usize) < R && (coord.1 as usize) < C {
            let mut lay = self.layers[layer];
            let mut row = lay[coord.0 as usize];
            row[coord.1 as usize] = action;
            lay[coord.0 as usize] = row;
            self.layers[layer] = lay;
            Ok(())
        } else {
            Err(ChangeActionError::OutOfBounds)
        }
    }

    /// Get a copy of the action for a given key
    pub fn get_action(&mut self, coord: (u8, u8), layer: usize) -> (r: Option<Action<T>>)
        ensures
            r == old(self)@.lookup(coord, layer),
            final(self)@ == old(self)@,
    {
        self.lookup(coord, layer)
    }
}

impl<const C: usize, const R: usize, const L: usize, T: 'static + Copy> Layout<C, R, L, T> {
    /// A step on the bytes of the running sequence `sq`; the sequence after that step.
    fn sequence_bytes(&mut self, sq: SequenceState) -> (r: SequenceState)
        requires
            sq.remaining_bytes@.len() > 0,
        ensures
            (final(self)@, r.model()) == old(self)@.sequence_bytes(sq.model()),
    {
        let b: &'static [u8] = sq.remaining_bytes;
        let n = b.len();
        if n >= 3 && b[0] == 1 && b[1] == 1 && !sq.tap_in_progress {
            match KeyCode::from_u8(b[2]) {
                Some(k) => {
                    push_state_exec(&mut self.states, State::FakeKey { keycode: k });
                },
                None => {},
            }
            SequenceState { tap_in_progress: true, ..sq }
        } else if n >= 3 && b[0] == 1 && b[1] == 1 {
            match KeyCode::from_u8(b[2]) {
                Some(k) => {
                    let (kept, _) = remove_states_exec(&self.states, Removal::Fake(k));
                    self.states = kept;
                },
                None => {},
            }
            SequenceState {
                tap_in_progress: false,
                remaining_bytes: vstd::slice::slice_subrange(b, 3, n),
                ..sq
            }
        } else if n >= 3 && b[0] == 1 && b[1] == 2 {
            match KeyCode::from_u8(b[2]) {
                Some(k) => {
                    push_state_exec(&mut self.states, State::FakeKey { keycode: k });
                },
                None => {},
            }
            SequenceState { remaining_bytes: vstd::slice::slice_subrange(b, 3, n), ..sq }
        } else if n >= 3 && b[0] == 1 && b[1] == 3 {
            match KeyCode::from_u8(b[2]) {
                Some(k) => {
                    let (kept, _) = remove_states_exec(&self.states, Removal::Fake(k));
                    self.states = kept;
                },
                None => {},
            }
            SequenceState { remaining_bytes: vstd::slice::slice_subrange(b, 3, n), ..sq }
        } else if n >= 2 && b[0] == 1 && b[1] == 4 {
            let digits: &'static [u8] = vstd::slice::slice_subrange(b, 2, n);
            let empty: &'static [u8] = vstd::slice::slice_subrange(b, n, n);
            proof {
                assert(empty@ =~= Seq::<u8>::empty());
            }
            if digits.len() > 0 && digits[0] == 48 {
                return SequenceState { remaining_bytes: empty, ..sq };
            }
            match find_bar(digits) {
                Some(end) => {
                    match parse_delay(digits, end) {
                        Some(v) => {
                            proof {
                                assert(b@.subrange(3 + end, n as int) =~= b@.subrange(
                                    (3 + end) as int,
                                    n as int,
                                ));
                            }
                            SequenceState {
                                delay: v.saturating_sub(1),
                                remaining_bytes: vstd::slice::slice_subrange(b, 3 + end, n),
                                ..sq
                            }
                        },
                        None => SequenceState { remaining_bytes: empty, ..sq },
                    }
                },
                None => SequenceState { remaining_bytes: empty, ..sq },
            }
        } else if !sq.ascii_in_progress {
            let c = b[0];
            if c < 128 {
                let keycode = KeyCode::from_ascii(c);
                let (shift, _, _) = KeyCode::get_mods(c);
                match shift {
                    Some(sh) => {
                        push_state_exec(&mut self.states, State::FakeKey { keycode: sh });
                    },
                    None => {},
                }
                push_state_exec(&mut self.states, State::FakeKey { keycode });
            }
            SequenceState { ascii_in_progress: true, ..sq }
        } else {
            let c = b[0];
            if c < 128 {
                let keycode = KeyCode::from_ascii(c);
                let (shift, _, _) = KeyCode::get_mods(c);
                let (kept, _) = remove_states_exec(
                    &self.states,
                    Removal::FakeWithMod(keycode, shift),
                );
                self.states = kept;
            }
            SequenceState {
                ascii_in_progress: false,
                remaining_bytes: vstd::slice::slice_subrange(b, 1, n),
                ..sq
            }
        }
    }

    /// One step of the frontmost running sequence, which then goes to the back of the queue
    /// unless it is over.
    fn sequence_step(&mut self)
        ensures
            final(self)@ == old(self)@.sequence_step(),
    {
        let ghost items = sequence_items(self.active_sequences);
        let popped = crate::queues::sequence_pop_front(&mut self.active_sequences);
        match popped {
            None => {},
            Some(sq) => {
                proof {
                    lemma_sequence_models_push(items, sq, 4);
                }
                if sq.delay > 0 {
                    let sq2 = SequenceState { delay: sq.delay - 1, ..sq };
                    let ghost rest = sequence_items(self.active_sequences);
                    crate::queues::sequence_push_back(&mut self.active_sequences, sq2);
                    proof {
                        lemma_sequence_models_push(rest, sq2, 4);
                    }
                    return ;
                }
                if sq.remaining_bytes.len() == 0 {
                    let (kept, _) = remove_states_exec(&self.states, Removal::AllFakes);
                    self.states = kept;
                    return ;
                }
                let sq2 = self.sequence_bytes(sq);
                let ghost rest = sequence_items(self.active_sequences);
                crate::queues::sequence_push_back(&mut self.active_sequences, sq2);
                proof {
                    lemma_sequence_models_push(rest, sq2, 4);
                }
            },
        }
    }

    /// Steps each running sequence once.
    fn process_sequences(&mut self)
        ensures
            final(self)@ == old(self)@.sequence_steps(old(self)@.sequences.len()),
    {
        let n = crate::queues::sequence_len(&self.active_sequences);
        let ghost m0 = self@;
        let mut i: usize = 0;
        while i < n
            invariant
                i <= n,
                n == m0.sequences.len(),
                self@ == m0.sequence_steps(i as nat),
            decreases n - i,
        {
            self.sequence_step();
            i = i + 1;
        }
    }
}

/// The index of the first `b'|'` in `digits`.
fn find_bar(digits: &[u8]) -> (r: Option<usize>)
    ensures
        match r {
            Some(i) => find_byte(digits@, 124, 0) == Some(i as int) && i < digits@.len(),
            None => find_byte(digits@, 124, 0) is None,
        },
{
    let mut i: usize = 0;
    while i < digits.len()
        invariant
            i <= digits@.len(),
            find_byte(digits@, 124, 0) == find_byte(digits@, 124, i as int),
        decreases digits@.len() - i,
    {
        if digits[i] == 124 {
            return Some(i);
        }
        i = i + 1;
    }
    None
}

/// The value of the decimal number written in the first `end` bytes of `digits`.
fn parse_delay(digits: &[u8], end: usize) -> (r: Option<u32>)
    requires
        end <= digits@.len(),
    ensures
        r == parse_digits(digits@.subrange(0, end as int)),
{
    let ghost p = digits@.subrange(0, end as int);
    let mut acc: u32 = 0;
    let mut valid = true;
    let mut i: usize = 0;
    while i < end
        invariant
            i <= end <= digits@.len(),
            p == digits@.subrange(0, end as int),
            parse_digits(p.take(i as int)) == (if valid {
                Some(acc)
            } else {
                None
            }),
        decreases end - i,
    {
        proof {
            assert(p.take(i + 1).drop_last() =~= p.take(i as int));
        }
        let dgt = digits[i];
        if valid {
            if 48 <= dgt && dgt <= 57 {
                let m = match acc.checked_mul(10) {
                    Some(v) => v,
                    None => u32::MAX,
                };
                acc = m.saturating_add((dgt - 48) as u32);
            } else {
                valid = false;
            }
        }
        i = i + 1;
    }
    proof {
        assert(p.take(end as int) =~= p);
    }
    if valid {
        Some(acc)
    } else {
        None
    }
}

/// Whether two tap dances are taken for the same one.
fn same_tapdance_exec<T: 'static + Copy>(a: &TapDanceAction<T>, b: &TapDanceAction<T>) -> (r: bool)
    ensures
        r == same_tapdance(*a, *b),
{
    a.timeout == b.timeout && a.config == b.config && a.actions.len() == b.actions.len()
}

/// A faulted model stays faulted through a do_action.
proof fn lemma_do_actions_prefix<T: 'static + Copy, const C: usize, const R: usize, const L: usize>(
    m: LayoutModel<T, C, R, L>,
    acts: Seq<Action<T>>,
    coord: (u8, u8),
    delay: u16,
    ctx: ActionContext,
    d: nat,
    i: int,
)
    requires
        0 <= i <= acts.len(),
        !m.do_actions(acts, coord, delay, ctx, d).0.fault,
    ensures
        !m.do_actions(acts.take(i), coord, delay, ctx, d).0.fault,
    decreases acts.len() - i,
{
    if i < acts.len() {
        lemma_do_actions_prefix(m, acts, coord, delay, ctx, d, i + 1);
        assert(acts.take(i + 1).drop_last() =~= acts.take(i));
        let (m1, e1, c1) = m.do_actions(acts.take(i), coord, delay, ctx, d);
        if m1.fault {
            assert(m1.do_action(acts.take(i + 1).last(), coord, delay, c1, d).0.fault);
        }
    } else {
        assert(acts.take(i) =~= acts);
    }
}

/// A faulted model stays faulted through the releases at the end of a one shot.
proof fn lemma_tick_releases_prefix<T: 'static + Copy, const C: usize, const R: usize, const L: usize>(
    m: LayoutModel<T, C, R, L>,
    keys: Seq<(u8, u8)>,
    custom: CustomEvent<T>,
    d: nat,
    i: int,
)
    requires
        0 <= i <= keys.len(),
        !m.tick_releases(keys, custom, d).0.fault,
    ensures
        !m.tick_releases(keys.take(i), custom, d).0.fault,
    decreases keys.len() - i,
{
    if i < keys.len() {
        lemma_tick_releases_prefix(m, keys, custom, d, i + 1);
        assert(keys.take(i + 1).drop_last() =~= keys.take(i));
        let (m1, c1) = m.tick_releases(keys.take(i), custom, d);
        let k = keys.take(i + 1).last();
        if m1.fault {
            assert(m1.unstack(Stacked { event: Event::Release(k.0, k.1), since: 0 }, d).0.fault);
        }
    } else {
        assert(keys.take(i) =~= keys);
    }
}

impl<const C: usize, const R: usize, const L: usize, T: 'static + Copy> Layout<C, R, L, T> {
    /// Does `action` for the key at `coord`, pressed `delay` ticks before it is processed.
    fn do_action(
        &mut self,
        action: Action<T>,
        coord: (u8, u8),
        delay: u16,
        context: &mut ActionContext,
        Ghost(d): Ghost<nat>,
    ) -> (r: CustomEvent<T>)
        requires
            !old(self)@.do_action(action, coord, delay, *old(context), d).0.fault,
        ensures
            (final(self)@, r, *final(context)) == old(self)@.do_action(
                action,
                coord,
                delay,
                *old(context),
                d,
            ),
        decreases d, 0nat,
    {
        broadcast use crate::model::group_fault;

        let ghost d1: nat = (d - 1) as nat;
        match action {
            Action::NoOp | Action::Trans => {
                proof {
                    assert(d > 0);
                    assert(!self@.fault);
                    assert(self.waiting is None);
                }
                self.handle_terminal_action(coord, context, Ghost(d1));
                CustomEvent::NoEvent
            },
            Action::HoldTap(h) => self.do_hold_tap(h, coord, delay, context, Ghost(d1)),
            Action::OneShot(o) => self.do_oneshot(o, coord, delay, context, Ghost(d1)),
            Action::TapDance(ta) => self.do_tapdance(ta, coord, context, Ghost(d1)),
            Action::Sequence(bytes) => {
                let ghost items = sequence_items(self.active_sequences);
                let sq = SequenceState {
                    remaining_bytes: *bytes,
                    delay: 0,
                    tap_in_progress: false,
                    ascii_in_progress: false,
                };
                crate::queues::sequence_push_back(&mut self.active_sequences, sq);
                proof {
                    lemma_sequence_models_push(items, sq, 4);
                }
                CustomEvent::NoEvent
            },
            Action::KeyCode(keycode) => {
                self.tap_hold_tracker.coord = coord;
                push_state_exec(&mut self.states, State::NormalKey { coord, keycode });
                self.handle_terminal_action(coord, context, Ghost(d1));
                CustomEvent::NoEvent
            },
            Action::MultipleKeyCodes(v) => {
                self.tap_hold_tracker.coord = coord;
                push_normal_keys_exec(&mut self.states, *v, coord);
                self.handle_terminal_action(coord, context, Ghost(d1));
                CustomEvent::NoEvent
            },
            Action::MultipleActions(v) => {
                self.tap_hold_tracker.coord = coord;
                self.do_actions(*v, coord, delay, context, Ghost(d1))
            },
            Action::Layer(value) => {
                self.tap_hold_tracker.coord = coord;
                push_state_exec(&mut self.states, State::MomentaryLayerModifier { value, coord });
                self.handle_terminal_action(coord, context, Ghost(d1));
                CustomEvent::NoEvent
            },
            Action::ToggleLayer(value) => {
                self.tap_hold_tracker.coord = coord;
                let (kept, removed) = remove_states_exec(&self.states, Removal::Toggle(value));
                self.states = kept;
                if !removed {
                    push_state_exec(&mut self.states, State::ToggleLayerModifier { value });
                }
                self.handle_terminal_action(coord, context, Ghost(d1));
                CustomEvent::NoEvent
            },
            Action::DefaultLayer(value) => {
                self.tap_hold_tracker.coord = coord;
                self.set_default_layer(value);
                self.handle_terminal_action(coord, context, Ghost(d1));
                CustomEvent::NoEvent
            },
            Action::Custom(value) => {
                self.tap_hold_tracker.coord = coord;
                self.handle_terminal_action(coord, context, Ghost(d1));
                if push_state_exec(&mut self.states, State::Custom { value, coord }) {
                    CustomEvent::Press(value)
                } else {
                    CustomEvent::NoEvent
                }
            },
        }
    }

    /// Ends a running tap dance at the press of another key, unless the press comes from the
    /// dance itself.
    fn end_tapdance(&mut self, context: &mut ActionContext, Ghost(d): Ghost<nat>)
        requires
            !old(self)@.end_tapdance(*old(context), d).0.fault,
        ensures
            (final(self)@, *final(context)) == old(self)@.end_tapdance(*old(context), d),
        decreases d, 1nat,
    {
        if !context.inside_tapdance {
            match self.tapdance {
                Some(td) => {
                    let mut td2 = td;
                    td2.handle_press(false);
                    self.tapdance = Some(td2);
                    self.do_tapdance_action_if_lazy(context, Ghost(d));
                },
                None => {},
            }
        }
    }

    /// Does the hold-tap action `h`.
    fn do_hold_tap(
        &mut self,
        h: &'static HoldTapAction<T>,
        coord: (u8, u8),
        delay: u16,
        context: &mut ActionContext,
        Ghost(d1): Ghost<nat>,
    ) -> (r: CustomEvent<T>)
        requires
            !old(self)@.do_hold_tap(h, coord, delay, *old(context), d1).0.fault,
        ensures
            (final(self)@, r, *final(context)) == old(self)@.do_hold_tap(
                h,
                coord,
                delay,
                *old(context),
                d1,
            ),
        decreases d1, 2nat,
    {
        broadcast use crate::model::group_fault;

        self.end_tapdance(context, Ghost(d1));
        if h.tap_hold_interval == 0 || !same_coord(coord, self.tap_hold_tracker.coord)
            || self.tap_hold_tracker.timeout == 0 {
            self.waiting = Some(
                WaitingState {
                    coord,
                    timeout: h.timeout,
                    delay,
                    hold: &h.hold,
                    tap: &h.tap,
                    config: h.config,
                },
            );
            self.tap_hold_tracker.timeout = h.tap_hold_interval;
        } else {
            self.tap_hold_tracker.timeout = 0;
            self.do_action(h.tap, coord, delay, context, Ghost(d1));
        }
        self.tap_hold_tracker.coord = coord;
        CustomEvent::NoEvent
    }

    /// Does the one shot action `o`.
    fn do_oneshot(
        &mut self,
        o: &'static OneShotAction<T>,
        coord: (u8, u8),
        delay: u16,
        context: &mut ActionContext,
        Ghost(d1): Ghost<nat>,
    ) -> (r: CustomEvent<T>)
        requires
            !old(self)@.do_oneshot(o, coord, delay, *old(context), d1).0.fault,
        ensures
            (final(self)@, r, *final(context)) == old(self)@.do_oneshot(
                o,
                coord,
                delay,
                *old(context),
                d1,
            ),
        decreases d1, 1nat,
    {
        broadcast use crate::model::group_fault;

        self.tap_hold_tracker.coord = coord;
        context.inside_oneshot = true;
        let custom = self.do_action(o.action, coord, delay, context, Ghost(d1));
        context.inside_oneshot = false;
        let overflow = match self.oneshot.take() {
            Some(os) => {
                let mut os = os;
                os.configure(o.timeout, o.end_config);
                let ov = os.handle_press(coord, true);
                self.oneshot = Some(os);
                ov
            },
            None => {
                let mut os = OneShotState::new(o.timeout, o.end_config);
                let ov = os.handle_press(coord, true);
                self.oneshot = Some(os);
                ov
            },
        };
        match overflow {
            Some(x) => {
                self.event_at(Event::Release(x.0, x.1), Ghost(d1));
            },
            None => {},
        }
        custom
    }

    /// Does the tap dance action `ta`.
    fn do_tapdance(
        &mut self,
        ta: &'static TapDanceAction<T>,
        coord: (u8, u8),
        context: &mut ActionContext,
        Ghost(d1): Ghost<nat>,
    ) -> (r: CustomEvent<T>)
        requires
            !old(self)@.do_tapdance(ta, coord, *old(context), d1).0.fault,
        ensures
            (final(self)@, r, *final(context)) == old(self)@.do_tapdance(ta, coord, *old(context), d1),
        decreases d1, 1nat,
    {
        broadcast use crate::model::group_fault;

        self.tap_hold_tracker.coord = coord;
        let custom = match self.tapdance {
            Some(ts) => {
                if same_coord(coord, ts.coord) && same_tapdance_exec(ts.tapdance_action, ta) {
                    let mut ts2 = ts;
                    ts2.handle_press(true);
                    self.tapdance = Some(ts2);
                    if ts2.tapdance_action.config == TapDanceConfig::Eager {
                        return self.do_tapdance_action_if_eager(context, Ghost(d1));
                    } else {
                        return self.do_tapdance_action_if_lazy(context, Ghost(d1));
                    }
                } else {
                    let mut ts2 = ts;
                    ts2.handle_press(false);
                    self.tapdance = Some(ts2);
                    self.do_tapdance_action_if_lazy(context, Ghost(d1))
                }
            },
            None => CustomEvent::NoEvent,
        };
        self.start_tapdance(ta, coord, custom, context, Ghost(d1))
    }

    /// Does the actions `acts` in order, merging their custom events.
    fn do_actions(
        &mut self,
        acts: &'static [Action<T>],
        coord: (u8, u8),
        delay: u16,
        context: &mut ActionContext,
        Ghost(d): Ghost<nat>,
    ) -> (r: CustomEvent<T>)
        requires
            !old(self)@.do_actions(acts@, coord, delay, *old(context), d).0.fault,
        ensures
            (final(self)@, r, *final(context)) == old(self)@.do_actions(
                acts@,
                coord,
                delay,
                *old(context),
                d,
            ),
        decreases d, acts@.len(),
    {
        broadcast use crate::model::group_fault;

        let ghost m0 = self@;
        let ghost c0 = *context;
        let mut custom = CustomEvent::NoEvent;
        let mut i: usize = 0;
        while i < acts.len()
            invariant
                i <= acts@.len(),
                !m0.do_actions(acts@, coord, delay, c0, d).0.fault,
                (self@, custom, *context) == m0.do_actions(acts@.take(i as int), coord, delay, c0, d),
            decreases acts@.len() - i,
        {
            proof {
                lemma_do_actions_prefix(m0, acts@, coord, delay, c0, d, i + 1);
                assert(acts@.take(i + 1).drop_last() =~= acts@.take(i as int));
            }
            let e = self.do_action(acts[i], coord, delay, context, Ghost(d));
            custom.update(e);
            i = i + 1;
        }
        proof {
            assert(acts@.take(acts@.len() as int) =~= acts@);
        }
        custom
    }

    /// Starts the tap dance `ta` for the key at `coord`, after the event `e`.
    fn start_tapdance(
        &mut self,
        ta: &'static TapDanceAction<T>,
        coord: (u8, u8),
        e: CustomEvent<T>,
        context: &mut ActionContext,
        Ghost(d): Ghost<nat>,
    ) -> (r: CustomEvent<T>)
        requires
            !old(self)@.start_tapdance(ta, coord, e, *old(context), d).0.fault,
        ensures
            (final(self)@, r, *final(context)) == old(self)@.start_tapdance(
                ta,
                coord,
                e,
                *old(context),
                d,
            ),
        decreases d, 0nat,
    {
        broadcast use crate::model::group_fault;

        let mut custom = e;
        self.tapdance = Some(
            TapDanceState {
                coord,
                timeout: ta.timeout,
                current_action: 0,
                tapdance_action: ta,
                release_on_tapdance_end: false,
            },
        );
        let e2 = if ta.config == TapDanceConfig::Eager {
            self.do_tapdance_action_if_eager(context, Ghost((d - 1) as nat))
        } else {
            self.do_tapdance_action_if_lazy(context, Ghost((d - 1) as nat))
        };
        custom.update(e2);
        custom
    }

    /// The end of a key's activation: it ends a one shot and a tap dance, unless it is
    /// activated by them.
    fn handle_terminal_action(
        &mut self,
        coord: (u8, u8),
        context: &mut ActionContext,
        Ghost(d): Ghost<nat>,
    )
        requires
            !old(self)@.handle_terminal(coord, *old(context), d).0.fault,
        ensures
            (final(self)@, *final(context)) == old(self)@.handle_terminal(coord, *old(context), d),
        decreases d, 0nat,
    {
        broadcast use crate::model::group_fault;

        if !context.inside_oneshot {
            match self.oneshot.take() {
                Some(os) => {
                    let mut os = os;
                    os.handle_press(coord, false);
                    self.oneshot = Some(os);
                },
                None => {},
            }
        }
        if !context.inside_tapdance {
            match self.tapdance {
                Some(td) => {
                    let mut td2 = td;
                    td2.handle_press(false);
                    self.tapdance = Some(td2);
                    self.do_tapdance_action_if_lazy(context, Ghost((d - 1) as nat));
                },
                None => {},
            }
        }
    }

    /// A lazy tap dance that is over does its action.
    fn do_tapdance_action_if_lazy(&mut self, context: &mut ActionContext, Ghost(d): Ghost<nat>) -> (r:
        CustomEvent<T>)
        requires
            !old(self)@.tapdance_lazy(*old(context), d).0.fault,
        ensures
            (final(self)@, r, *final(context)) == old(self)@.tapdance_lazy(*old(context), d),
        decreases d, 0nat,
    {
        broadcast use crate::model::group_fault;

        match self.tapdance {
            Some(td) => {
                if td.tapdance_action.config == TapDanceConfig::Lazy && td.is_done() {
                    let action = td.tapdance_action.actions[td.current_action as usize];
                    let coord = td.coord;
                    let release = td.release_on_tapdance_end;
                    context.inside_tapdance = true;
                    let custom = self.do_action(action, coord, 0, context, Ghost((d - 1) as nat));
                    context.inside_tapdance = false;
                    if release {
                        self.event_at(Event::Release(coord.0, coord.1), Ghost((d - 1) as nat));
                    }
                    self.tapdance = None;
                    custom
                } else {
                    CustomEvent::NoEvent
                }
            },
            None => CustomEvent::NoEvent,
        }
    }

    /// An eager tap dance does the action of its taps so far.
    fn do_tapdance_action_if_eager(&mut self, context: &mut ActionContext, Ghost(d): Ghost<nat>) -> (r:
        CustomEvent<T>)
        requires
            !old(self)@.tapdance_eager(*old(context), d).0.fault,
        ensures
            (final(self)@, r, *final(context)) == old(self)@.tapdance_eager(*old(context), d),
        decreases d, 0nat,
    {
        broadcast use crate::model::group_fault;

        match self.tapdance {
            Some(td) => {
                if td.tapdance_action.config == TapDanceConfig::Eager {
                    let action = td.tapdance_action.actions[td.current_action as usize];
                    let coord = td.coord;
                    let done = td.is_done();
                    context.inside_tapdance = true;
                    let custom = self.do_action(action, coord, 0, context, Ghost((d - 1) as nat));
                    context.inside_tapdance = false;
                    if done {
                        self.tapdance = None;
                    }
                    custom
                } else {
                    CustomEvent::NoEvent
                }
            },
            None => CustomEvent::NoEvent,
        }
    }

    /// The waiting hold-tap key does its hold action.
    fn waiting_into_hold(&mut self, Ghost(d): Ghost<nat>) -> (r: CustomEvent<T>)
        requires
            !old(self)@.waiting_into_hold(d).0.fault,
        ensures
            (final(self)@, r) == old(self)@.waiting_into_hold(d),
        decreases d, 0nat,
    {
        broadcast use crate::model::group_fault;

        match self.waiting {
            Some(w) => {
                let hold = w.hold;
                let coord = w.coord;
                self.waiting = None;
                if same_coord(coord, self.tap_hold_tracker.coord) {
                    self.tap_hold_tracker.timeout = 0;
                }
                let mut ctx = ActionContext { inside_oneshot: false, inside_tapdance: false };
                self.do_action(*hold, coord, 0, &mut ctx, Ghost((d - 1) as nat))
            },
            None => CustomEvent::NoEvent,
        }
    }

    /// The waiting hold-tap key does its tap action.
    fn waiting_into_tap(&mut self, Ghost(d): Ghost<nat>) -> (r: CustomEvent<T>)
        requires
            !old(self)@.waiting_into_tap(d).0.fault,
        ensures
            (final(self)@, r) == old(self)@.waiting_into_tap(d),
        decreases d, 0nat,
    {
        broadcast use crate::model::group_fault;

        match self.waiting {
            Some(w) => {
                let tap = w.tap;
                let coord = w.coord;
                self.waiting = None;
                let mut ctx = ActionContext { inside_oneshot: false, inside_tapdance: false };
                self.do_action(*tap, coord, 0, &mut ctx, Ghost((d - 1) as nat))
            },
            None => CustomEvent::NoEvent,
        }
    }

    /// The states after the releases of the keys at `keys`, in order.
    fn release_keys(&mut self, keys: &Vec<(u8, u8)>, custom: &mut CustomEvent<T>)
        ensures
            (final(self)@, *final(custom)) == old(self)@.release_keys(keys@, *old(custom)),
    {
        let ghost m0 = self@;
        let ghost c0 = *custom;
        let mut i: usize = 0;
        while i < keys.len()
            invariant
                i <= keys@.len(),
                (self@, *custom) == m0.release_keys(keys@.take(i as int), c0),
            decreases keys@.len() - i,
        {
            proof {
                assert(keys@.take(i + 1).drop_last() =~= keys@.take(i as int));
            }
            let kept = release_states_exec(&self.states, keys[i], custom);
            self.states = kept;
            i = i + 1;
        }
        proof {
            assert(keys@.take(keys@.len() as int) =~= keys@);
        }
    }

    /// Processes a stacked event.
    fn unstack(&mut self, stacked: Stacked, Ghost(d): Ghost<nat>) -> (r: CustomEvent<T>)
        requires
            !old(self)@.unstack(stacked, d).0.fault,
        ensures
            (final(self)@, r) == old(self)@.unstack(stacked, d),
        decreases d, 0nat,
    {
        broadcast use crate::model::group_fault;

        match stacked.event {
            Event::Release(i, j) => {
                let mut custom = CustomEvent::NoEvent;
                let mut should_release_normally = true;
                match self.oneshot.take() {
                    Some(os) => {
                        let mut os = os;
                        let (ignore_release, extra_releases) = os.handle_release((i, j));
                        self.oneshot = Some(os);
                        match extra_releases {
                            Some(to_release) => {
                                self.release_keys(&to_release, &mut custom);
                                if !ignore_release {
                                    self.oneshot = None;
                                }
                            },
                            None => {},
                        }
                        if ignore_release {
                            should_release_normally = false;
                        }
                    },
                    None => {},
                }
                match self.tapdance {
                    Some(td) => {
                        let mut td2 = td;
                        td2.handle_release((i, j));
                        self.tapdance = Some(td2);
                    },
                    None => {},
                }
                if should_release_normally {
                    let kept = release_states_exec(&self.states, (i, j), &mut custom);
                    self.states = kept;
                }
                custom
            },
            Event::Press(i, j) => {
                let layer = self.current_layer();
                let action = self.press_as_action((i, j), layer);
                let mut ctx = ActionContext { inside_oneshot: false, inside_tapdance: false };
                self.do_action(action, (i, j), stacked.since, &mut ctx, Ghost((d - 1) as nat))
            },
        }
    }

    /// Registers a key event with the depth budget `d`.
    fn event_at(&mut self, event: Event, Ghost(d): Ghost<nat>)
        requires
            !old(self)@.event(event, d).fault,
        ensures
            final(self)@ == old(self)@.event(event, d),
        decreases d, 0nat,
    {
        broadcast use crate::model::group_fault;

        let out = crate::queues::stacked_push_back(&mut self.stacked, Stacked::from_event(event));
        match out {
            Some(s) => {
                self.waiting_into_hold(Ghost((d - 1) as nat));
                self.unstack(s, Ghost((d - 1) as nat));
            },
            None => {},
        }
    }
}

impl<const C: usize, const R: usize, const L: usize, T: 'static + Copy> Layout<C, R, L, T> {
    /// Releases the keys at `keys` at the end of a one shot.
    fn tick_releases(&mut self, keys: &Vec<(u8, u8)>, custom: &mut CustomEvent<T>, Ghost(d): Ghost<nat>)
        requires
            !old(self)@.tick_releases(keys@, *old(custom), d).0.fault,
        ensures
            (final(self)@, *final(custom)) == old(self)@.tick_releases(keys@, *old(custom), d),
    {
        let ghost m0 = self@;
        let ghost c0 = *custom;
        let mut i: usize = 0;
        while i < keys.len()
            invariant
                i <= keys@.len(),
                !m0.tick_releases(keys@, c0, d).0.fault,
                (self@, *custom) == m0.tick_releases(keys@.take(i as int), c0, d),
            decreases keys@.len() - i,
        {
            proof {
                lemma_tick_releases_prefix(m0, keys@, c0, d, i + 1);
                assert(keys@.take(i + 1).drop_last() =~= keys@.take(i as int));
            }
            let (ki, kj) = keys[i];
            let e = self.unstack(Stacked { event: Event::Release(ki, kj), since: 0 }, Ghost(d));
            custom.update(e);
            i = i + 1;
        }
        proof {
            assert(keys@.take(keys@.len() as int) =~= keys@);
        }
    }

    /// The first part of a tick.
    fn tick_pre(&mut self, Ghost(d): Ghost<nat>) -> (r: CustomEvent<T>)
        requires
            !old(self)@.tick_pre(d).0.fault,
        ensures
            (final(self)@, r) == old(self)@.tick_pre(d),
    {
        broadcast use crate::model::group_fault;

        crate::queues::stacked_tick_all(&mut self.stacked);
        self.tap_hold_tracker.timeout = self.tap_hold_tracker.timeout.saturating_sub(1);
        let mut custom = CustomEvent::NoEvent;
        self.process_sequences();
        match self.oneshot.take() {
            Some(os) => {
                let mut os = os;
                let rel = os.tick();
                self.oneshot = Some(os);
                match rel {
                    Some(to_release) => {
                        self.tick_releases(&to_release, &mut custom, Ghost(d));
                        self.oneshot = None;
                    },
                    None => {},
                }
            },
            None => {},
        }
        match self.tapdance {
            Some(td) => {
                let mut td2 = td;
                td2.tick();
                self.tapdance = Some(td2);
                if td2.tapdance_action.config == TapDanceConfig::Lazy {
                    let mut ctx = ActionContext { inside_oneshot: false, inside_tapdance: false };
                    let e = self.do_tapdance_action_if_lazy(&mut ctx, Ghost(d));
                    custom.update(e);
                } else if td2.is_done() {
                    self.tapdance = None;
                }
            },
            None => {},
        }
        custom
    }

    /// The second part of a tick, with the custom handler's answer `decision`.
    fn tick_post(&mut self, custom: CustomEvent<T>, decision: Option<WaitingAction>, Ghost(d): Ghost<nat>) -> (r: CustomEvent<T>)
        requires
            !old(self)@.tick_post(custom, decision, d).0.fault,
        ensures
            (final(self)@, r) == old(self)@.tick_post(custom, decision, d),
    {
        broadcast use crate::model::group_fault;

        let mut custom = custom;
        match self.waiting {
            Some(w) => {
                let stacked = crate::queues::stacked_to_vec(&self.stacked);
                let mut w2 = w;
                let act = w2.tick(&stacked, decision);
                self.waiting = Some(w2);
                let e = match act {
                    Some(WaitingAction::Hold) => self.waiting_into_hold(Ghost(d)),
                    Some(WaitingAction::Tap) => self.waiting_into_tap(Ghost(d)),
                    Some(WaitingAction::NoOp) => {
                        self.waiting = None;
                        CustomEvent::NoEvent
                    },
                    None => CustomEvent::NoEvent,
                };
                custom.update(e);
            },
            None => {
                match crate::queues::stacked_pop_front(&mut self.stacked) {
                    Some(s) => {
                        let e = self.unstack(s, Ghost(d));
                        custom.update(e);
                    },
                    None => {},
                }
            },
        }
        custom
    }

    /// The custom handler's answer for the waiting hold-tap key, if its configuration is
    /// custom.
    fn custom_decision(&self) -> (r: Option<WaitingAction>)
        ensures
            !(self@.waiting matches Some(w) && w.config is Custom) ==> r is None,
    {
        match self.waiting {
            Some(w) => match w.config {
                HoldTapConfig::Custom(h) => {
                    let v = crate::queues::stacked_to_vec(&self.stacked);
                    call_custom_handler(h, v.as_slice())
                },
                _ => None,
            },
            None => None,
        }
    }

    /// A time event.
    ///
    /// This method must be called regularly, typically every millisecond.
    ///
    /// Returns the corresponding `CustomEvent`, allowing to manage
    /// custom actions thanks to the `Action::Custom` variant.
    pub fn tick(&mut self) -> (r: CustomEvent<T>)
        requires
            exists|d: nat| old(self)@.tick_ok_all(d),
        ensures
            exists|dec: Option<WaitingAction>|
                (final(self)@, r) == old(self)@.tick(dec, old(self)@.tick_fuel()),
    {
        let ghost d = self@.tick_fuel();
        let ghost m0 = self@;
        proof {
            assert(m0.tick_ok(None, d));
        }
        let custom = self.tick_pre(Ghost(d));
        let decision = self.custom_decision();
        proof {
            assert(m0.tick_ok(decision, d));
        }
        self.tick_post(custom, decision, Ghost(d))
    }

    /// A time event in which the custom handler of a waiting hold-tap key, if it is asked,
    /// answers `decision`.
    pub fn tick_with_decision(&mut self, decision: Option<WaitingAction>) -> (r: CustomEvent<T>)
        requires
            exists|d: nat| old(self)@.tick_ok(decision, d),
        ensures
            (final(self)@, r) == old(self)@.tick(decision, old(self)@.tick_fuel_with(decision)),
    {
        let ghost d = self@.tick_fuel_with(decision);
        let custom = self.tick_pre(Ghost(d));
        self.tick_post(custom, decision, Ghost(d))
    }

    /// Register a key event.
    pub fn event(&mut self, event: Event)
        requires
            exists|d: nat| !old(self)@.event(event, d).fault,
        ensures
            final(self)@ == old(self)@.event(event, old(self)@.event_fuel(event)),
    {
        let ghost d = self@.event_fuel(event);
        self.event_at(event, Ghost(d));
    }

    /// The model of a layout is never a faulted one: `fault` only marks the states that the
    /// operations' preconditions keep a layout from reaching.
    pub proof fn lemma_view_not_faulted(&self)
        ensures
            !self@.fault,
    {
    }

    /// An inactive layout need not be ticked: a tick may always be run on it, and whatever the
    /// custom handler answers and whatever the depth budget, it gives back the same layout and
    /// no custom event.
    pub proof fn lemma_inactive_layout_tick(&self)
        requires
            !self@.is_active(),
        ensures
            self@.tick_ok_all(0),
            forall|dec: Option<WaitingAction>, d: nat|
                #[trigger] self@.tick(dec, d) == (self@, CustomEvent::<T>::NoEvent),
    {
        assert forall|dec: Option<WaitingAction>, d: nat|
            #[trigger] self@.tick(dec, d) == (self@, CustomEvent::<T>::NoEvent) by {
            crate::model::lemma_inactive_tick(self@, dec, d);
        }
        assert forall|dec: Option<WaitingAction>| #[trigger] self@.tick_ok(dec, 0) by {
            crate::model::lemma_inactive_tick(self@, dec, 0);
        }
    }
}

} // verus!
