//! The mathematical model of a layout and the transitions that its operations make.
//!
//! A [`LayoutModel`] holds the queues of a layout as sequences. Each operation of the layout is
//! a function from a model to the next model (and the custom event it gives). The operations
//! that can nest (an action that does further actions, a one shot key that releases another
//! key, ...) take a depth budget `d`: when the budget is exhausted, or when the layout meets a
//! condition under which it stops with a panic, the model is marked `fault`. A fault, once
//! marked, is kept by every later step.

use crate::action::{
    Action, HoldTapAction, HoldTapConfig, OneShotAction, OneShotEndConfig, TapDanceAction,
    TapDanceConfig,
};
use crate::key_code::{
    KeyCode, lemma_code_roundtrip, spec_ascii_keycode, spec_code, spec_from_u8, spec_shift_required,
};
use crate::layout::{
    ActionContext, CustomEvent, Event, Stacked, State, TapDanceState, TapHoldTracker,
    WaitingAction, WaitingState, spec_is_fake_key, spec_release_event, spec_released_by,
    spec_stacked_tick, spec_state_keycode, spec_state_layer, spec_update,
};
use crate::queues::{remove_coord, ticked_stack, wrap_push, wrap_push_out};
use vstd::prelude::*;

verus! {

/// The most states that a layout holds.
pub open spec fn states_cap() -> nat {
    64
}

/// `a - 1`, but not below 0.
pub open spec fn dec16(a: u16) -> u16 {
    if a > 0 {
        (a - 1) as u16
    } else {
        0
    }
}

/// `a * 10 + digit` on `u32`, saturating at `u32::MAX` after each operation.
pub open spec fn sat_digit(acc: u32, digit: u32) -> u32 {
    let m: int = if acc * 10 > u32::MAX {
        u32::MAX as int
    } else {
        acc * 10
    };
    if m + digit > u32::MAX {
        u32::MAX
    } else {
        (m + digit) as u32
    }
}

/// The value of a decimal number written with ASCII digits, saturating at `u32::MAX`; `None`
/// when some byte is not a digit.
pub open spec fn parse_digits(s: Seq<u8>) -> Option<u32>
    decreases s.len(),
{
    if s.len() == 0 {
        Some(0u32)
    } else {
        match parse_digits(s.drop_last()) {
            Some(acc) => if 48 <= s.last() <= 57 {
                Some(sat_digit(acc, (s.last() - 48) as u32))
            } else {
                None
            },
            None => None,
        }
    }
}

/// The first index at or after `i` at which `s` holds `x`.
pub open spec fn find_byte(s: Seq<u8>, x: u8, i: int) -> Option<int>
    decreases s.len() - i,
{
    if i < 0 || i >= s.len() {
        None
    } else if s[i] == x {
        Some(i)
    } else {
        find_byte(s, x, i + 1)
    }
}

/// The first index at or after `i` at which the stack holds the release of the key at `c`.
pub open spec fn find_release(s: Seq<Stacked>, c: (u8, u8), i: int) -> Option<int>
    decreases s.len() - i,
{
    if i < 0 || i >= s.len() {
        None
    } else if s[i].event == Event::Release(c.0, c.1) {
        Some(i)
    } else {
        find_release(s, c, i + 1)
    }
}

/// Whether some stacked event is a press.
pub open spec fn has_press(s: Seq<Stacked>) -> bool {
    exists|i: int| 0 <= i < s.len() && (#[trigger] s[i]).event is Press
}

/// Whether some stacked key is pressed and then released later in the stack.
pub open spec fn has_press_and_release(s: Seq<Stacked>) -> bool {
    exists|i: int, j: int|
        0 <= i < j < s.len() && (#[trigger] s[i]).event is Press && (#[trigger] s[j]).event
            == Event::Release(s[i].event->Press_0, s[i].event->Press_1)
}

/// A criterion for removing states.
#[derive(Debug, Clone, Copy)]
pub enum Removal {
    /// The key code pressed by a sequence.
    Fake(KeyCode),
    /// The key code pressed by a sequence, and the modifier pressed with it.
    FakeWithMod(KeyCode, Option<KeyCode>),
    /// Every key code pressed by a sequence.
    AllFakes,
    /// The toggle of a layer.
    Toggle(usize),
}

/// Whether the criterion `r` removes the state `s`.
pub open spec fn removed_by<T: Copy>(s: State<T>, r: Removal) -> bool {
    match r {
        Removal::Fake(k) => spec_is_fake_key(s, k),
        Removal::FakeWithMod(k, m) => spec_is_fake_key(s, k) || (m matches Some(mk)
            && spec_is_fake_key(s, mk)),
        Removal::AllFakes => s is FakeKey,
        Removal::Toggle(v) => s matches State::ToggleLayerModifier { value } && value == v,
    }
}

/// The states that the criterion `r` keeps, in their order.
pub open spec fn remove_states<T: Copy>(s: Seq<State<T>>, r: Removal) -> Seq<State<T>>
    decreases s.len(),
{
    if s.len() == 0 {
        s
    } else {
        let rest = remove_states(s.drop_last(), r);
        if removed_by(s.last(), r) {
            rest
        } else {
            rest.push(s.last())
        }
    }
}

/// The states that the release of the key at `c` keeps, and the custom event `custom` after
/// the releases of the removed custom states are merged into it.
pub open spec fn release_states<T: Copy>(s: Seq<State<T>>, c: (u8, u8), custom: CustomEvent<T>) -> (
    Seq<State<T>>,
    CustomEvent<T>,
)
    decreases s.len(),
{
    if s.len() == 0 {
        (s, custom)
    } else {
        let (rest, cu) = release_states(s.drop_last(), c, custom);
        let cu2 = spec_update(cu, spec_release_event(s.last(), c));
        if spec_released_by(s.last(), c) {
            (rest, cu2)
        } else {
            (rest.push(s.last()), cu2)
        }
    }
}

/// The key codes that the states send, in their order.
pub open spec fn state_keycodes<T: Copy>(s: Seq<State<T>>) -> Seq<KeyCode>
    decreases s.len(),
{
    if s.len() == 0 {
        Seq::empty()
    } else {
        let rest = state_keycodes(s.drop_last());
        match spec_state_keycode(s.last()) {
            Some(k) => rest.push(k),
            None => rest,
        }
    }
}

/// The layer of the last state that selects a layer.
pub open spec fn last_layer<T: Copy>(s: Seq<State<T>>) -> Option<usize>
    decreases s.len(),
{
    if s.len() == 0 {
        None
    } else {
        match spec_state_layer(s.last()) {
            Some(v) => Some(v),
            None => last_layer(s.drop_last()),
        }
    }
}

/// `states` after `x` is pushed: a full list of states stays as it is.
pub open spec fn push_state<T: Copy>(states: Seq<State<T>>, x: State<T>) -> Seq<State<T>> {
    if states.len() < states_cap() {
        states.push(x)
    } else {
        states
    }
}

/// `states` after each key code of `kcs` is pushed as the normal key at `coord`.
pub open spec fn push_normal_keys<T: Copy>(
    states: Seq<State<T>>,
    kcs: Seq<KeyCode>,
    coord: (u8, u8),
) -> Seq<State<T>>
    decreases kcs.len(),
{
    if kcs.len() == 0 {
        states
    } else {
        push_state(
            push_normal_keys(states, kcs.drop_last(), coord),
            State::NormalKey { keycode: kcs.last(), coord },
        )
    }
}

/// A running key sequence, with the bytes still to process as a sequence.
pub struct SequenceModel {
    pub bytes: Seq<u8>,
    pub delay: u32,
    pub tap_in_progress: bool,
    pub ascii_in_progress: bool,
}

/// The one shot state, with its queues as sequences.
pub struct OneShotModel {
    pub active: Seq<(u8, u8)>,
    pub released: Seq<(u8, u8)>,
    pub other: Seq<(u8, u8)>,
    pub timeout: u16,
    pub end_config: OneShotEndConfig,
    pub release_on_next_tick: bool,
}

/// Whether the end configuration ends a one shot on the repress of a one shot key.
pub open spec fn ends_on_repress(e: OneShotEndConfig) -> bool {
    e == OneShotEndConfig::EndOnFirstReleaseOrRepress || e
        == OneShotEndConfig::EndOnFirstPressOrRepress
}

/// Whether the end configuration ends a one shot on a press.
pub open spec fn ends_on_press(e: OneShotEndConfig) -> bool {
    e == OneShotEndConfig::EndOnFirstPress || e == OneShotEndConfig::EndOnFirstPressOrRepress
}

/// Whether the end configuration ends a one shot on a release.
pub open spec fn ends_on_release(e: OneShotEndConfig) -> bool {
    e == OneShotEndConfig::EndOnFirstRelease || e == OneShotEndConfig::EndOnFirstReleaseOrRepress
}

impl OneShotModel {
    /// One tick: the keys to release when the one shot ends.
    pub open spec fn tick(self) -> (OneShotModel, Option<Seq<(u8, u8)>>) {
        if self.active.len() == 0 {
            (self, None)
        } else {
            let t = dec16(self.timeout);
            let o = OneShotModel { timeout: t, ..self };
            if !self.release_on_next_tick && t > 0 {
                (o, None)
            } else {
                (
                    OneShotModel {
                        active: Seq::empty(),
                        other: Seq::empty(),
                        released: Seq::empty(),
                        ..o
                    },
                    Some(self.released),
                )
            }
        }
    }

    /// The press of the key at `coord`, a one shot key when `is_activation`; the one shot key
    /// that no longer fits is handed back.
    pub open spec fn handle_press(self, coord: (u8, u8), is_activation: bool) -> (
        OneShotModel,
        Option<(u8, u8)>,
    ) {
        let o = OneShotModel { released: remove_coord(self.released, coord), ..self };
        if is_activation {
            let ront = if ends_on_repress(self.end_config) && self.active.contains(coord) {
                true
            } else {
                self.release_on_next_tick
            };
            (
                OneShotModel {
                    release_on_next_tick: ront,
                    active: wrap_push(self.active, coord, 16),
                    ..o
                },
                wrap_push_out(self.active, 16),
            )
        } else if ends_on_press(self.end_config) {
            (OneShotModel { release_on_next_tick: true, ..o }, None)
        } else {
            (OneShotModel { other: wrap_push(self.other, coord, 16), ..o }, None)
        }
    }

    /// The release of the key at `coord`: whether the release is held back, and the keys to
    /// release now.
    pub open spec fn handle_release(self, coord: (u8, u8)) -> (
        OneShotModel,
        bool,
        Option<Seq<(u8, u8)>>,
    ) {
        if ends_on_release(self.end_config) && self.other.contains(coord) {
            (OneShotModel { released: Seq::empty(), ..self }, false, Some(self.released))
        } else if self.active.contains(coord) {
            (
                OneShotModel { released: wrap_push(self.released, coord, 16), ..self },
                true,
                match wrap_push_out(self.released, 16) {
                    Some(x) => Some(seq![x]),
                    None => None,
                },
            )
        } else {
            (self, false, None)
        }
    }
}

/// Whether two tap dances are taken for the same one: the same timeout, behaviour and number
/// of actions.
pub open spec fn same_tapdance<T: Copy>(a: TapDanceAction<T>, b: TapDanceAction<T>) -> bool {
    a.timeout == b.timeout && a.config == b.config && a.actions@.len() == b.actions@.len()
}

/// Whether the tap dance is over; `None` when computing it overflows.
pub open spec fn td_is_done<T: Copy>(td: TapDanceState<T>) -> Option<bool> {
    if td.current_action == 255 {
        None
    } else {
        Some(
            td.timeout == 0 || (td.tapdance_action.actions@.len() % 256) == td.current_action
                + 1,
        )
    }
}

/// The tap dance after a press: another tap of the dance, or the press of another key that
/// ends it. `None` when the count of taps overflows.
pub open spec fn td_handle_press<T: Copy>(td: TapDanceState<T>, same: bool) -> Option<
    TapDanceState<T>,
> {
    if same {
        if td.current_action == 255 {
            None
        } else {
            Some(
                TapDanceState {
                    current_action: (td.current_action + 1) as u8,
                    timeout: td.tapdance_action.timeout,
                    release_on_tapdance_end: false,
                    ..td
                },
            )
        }
    } else {
        Some(TapDanceState { timeout: 0, ..td })
    }
}

/// The tap dance after the release of the key at `coord`.
pub open spec fn td_handle_release<T: Copy>(td: TapDanceState<T>, coord: (u8, u8)) -> TapDanceState<
    T,
> {
    if coord == td.coord {
        TapDanceState { release_on_tapdance_end: true, ..td }
    } else {
        td
    }
}

/// One tick of a waiting hold-tap key, seeing the stacked events `s`; `decision` is what the
/// custom handler answers, when the configuration is custom. The result is the waiting state
/// one tick later, the decision, and `false` when the decision overflows.
pub open spec fn waiting_tick<T: Copy>(
    w: WaitingState<T>,
    s: Seq<Stacked>,
    decision: Option<WaitingAction>,
) -> (WaitingState<T>, Option<WaitingAction>, bool) {
    let t = dec16(w.timeout);
    let w2 = WaitingState { timeout: t, ..w };
    let early = match w.config {
        HoldTapConfig::Default => None,
        HoldTapConfig::HoldOnOtherKeyPress => if has_press(s) {
            Some(WaitingAction::Hold)
        } else {
            None
        },
        HoldTapConfig::PermissiveHold => if has_press_and_release(s) {
            Some(WaitingAction::Hold)
        } else {
            None
        },
        HoldTapConfig::Custom(_) => decision,
    };
    if early is Some {
        (w2, early, true)
    } else {
        match find_release(s, w.coord, 0) {
            Some(i) => if t + s[i].since > u16::MAX {
                (w2, None, false)
            } else if t + s[i].since > w.delay {
                (w2, Some(WaitingAction::Tap), true)
            } else {
                (w2, Some(WaitingAction::Hold), true)
            },
            None => if t == 0 {
                (w2, Some(WaitingAction::Hold), true)
            } else {
                (w2, None, true)
            },
        }
    }
}

/// The action context in which an action is done from a key press.
pub open spec fn default_ctx() -> ActionContext {
    ActionContext { inside_oneshot: false, inside_tapdance: false }
}

/// The model of a layout.
pub struct LayoutModel<T: 'static + Copy, const C: usize, const R: usize, const L: usize> {
    pub layers: [[[Action<T>; C]; R]; L],
    pub default_layer: usize,
    pub states: Seq<State<T>>,
    pub waiting: Option<WaitingState<T>>,
    pub oneshot: Option<OneShotModel>,
    pub tapdance: Option<TapDanceState<T>>,
    pub sequences: Seq<SequenceModel>,
    pub stacked: Seq<Stacked>,
    pub tracker: TapHoldTracker,
    pub fault: bool,
}

impl<T: 'static + Copy, const C: usize, const R: usize, const L: usize> LayoutModel<T, C, R, L> {
    /// The model marked as faulted.
    pub open spec fn faulted(self) -> Self {
        LayoutModel { fault: true, ..self }
    }

    /// The action stored for the key at `coord` on `layer`, if the position exists.
    pub open spec fn lookup(self, coord: (u8, u8), layer: usize) -> Option<Action<T>> {
        if layer < L && (coord.0 as int) < R && (coord.1 as int) < C {
            Some(self.layers@[layer as int]@[coord.0 as int]@[coord.1 as int])
        } else {
            None
        }
    }

    /// The action that a press of the key at `coord` on `layer` does: a transparent key takes
    /// the action of the default layer, and a missing or transparent key does nothing.
    pub open spec fn press_as_action(self, coord: (u8, u8), layer: usize) -> Action<T> {
        match self.lookup(coord, layer) {
            None => Action::NoOp,
            Some(Action::Trans) => if layer != self.default_layer {
                match self.lookup(coord, self.default_layer) {
                    Some(Action::Trans) => Action::NoOp,
                    Some(a) => a,
                    None => Action::NoOp,
                }
            } else {
                Action::NoOp
            },
            Some(a) => a,
        }
    }

    /// The active layer: that of the last state selecting a layer, else the default layer.
    pub open spec fn current_layer(self) -> usize {
        match last_layer(self.states) {
            Some(v) => v,
            None => self.default_layer,
        }
    }

    /// Whether the layout needs to be ticked.
    pub open spec fn is_active(self) -> bool {
        self.stacked.len() > 0 || self.sequences.len() > 0 || self.tapdance is Some
            || self.waiting is Some || self.oneshot is Some || self.tracker.timeout > 0
    }

    /// `after` is this model with the action of the key at `coord` on `layer` replaced by
    /// `action`, where that key exists; everything else is kept.
    pub open spec fn action_changed(
        self,
        after: Self,
        coord: (u8, u8),
        layer: usize,
        action: Action<T>,
    ) -> bool {
        &&& forall|c2: (u8, u8), l2: usize|
            #[trigger] after.lookup(c2, l2) == if self.lookup(coord, layer) is Some && c2 == coord
                && l2 == layer {
                Some(action)
            } else {
                self.lookup(c2, l2)
            }
        &&& after == (LayoutModel { layers: after.layers, ..self })
    }

    /// The model after the default layer is set to `value`; values out of range are ignored.
    pub open spec fn set_default_layer(self, value: usize) -> Self {
        if value < L {
            LayoutModel { default_layer: value, ..self }
        } else {
            self
        }
    }

    /// The model with the last activating key set to `coord`.
    pub open spec fn track(self, coord: (u8, u8)) -> Self {
        LayoutModel { tracker: TapHoldTracker { coord, ..self.tracker }, ..self }
    }

    /// The model with the states replaced.
    pub open spec fn with_states(self, states: Seq<State<T>>) -> Self {
        LayoutModel { states, ..self }
    }

    // ---------------------------------------------------------------------------------------
    // Key sequences
    /// The model after a sequence step on the bytes of the running sequence `sq`, and the
    /// sequence after that step.
    pub open spec fn sequence_bytes(self, sq: SequenceModel) -> (Self, SequenceModel) {
        let b = sq.bytes;
        let n = b.len() as int;
        if n >= 3 && b[0] == 1 && b[1] == 1 && !sq.tap_in_progress {
            let st = match spec_from_u8(b[2]) {
                Some(k) => push_state(self.states, State::FakeKey { keycode: k }),
                None => self.states,
            };
            (self.with_states(st), SequenceModel { tap_in_progress: true, ..sq })
        } else if n >= 3 && b[0] == 1 && b[1] == 1 {
            let st = match spec_from_u8(b[2]) {
                Some(k) => remove_states(self.states, Removal::Fake(k)),
                None => self.states,
            };
            (
                self.with_states(st),
                SequenceModel { tap_in_progress: false, bytes: b.subrange(3, n), ..sq },
            )
        } else if n >= 3 && b[0] == 1 && b[1] == 2 {
            let st = match spec_from_u8(b[2]) {
                Some(k) => push_state(self.states, State::FakeKey { keycode: k }),
                None => self.states,
            };
            (self.with_states(st), SequenceModel { bytes: b.subrange(3, n), ..sq })
        } else if n >= 3 && b[0] == 1 && b[1] == 3 {
            let st = match spec_from_u8(b[2]) {
                Some(k) => remove_states(self.states, Removal::Fake(k)),
                None => self.states,
            };
            (self.with_states(st), SequenceModel { bytes: b.subrange(3, n), ..sq })
        } else if n >= 2 && b[0] == 1 && b[1] == 4 {
            let digits = b.subrange(2, n);
            if digits.len() > 0 && digits[0] == 48 {
                (self, SequenceModel { bytes: Seq::empty(), ..sq })
            } else {
                match find_byte(digits, 124, 0) {
                    Some(end) => match parse_digits(digits.subrange(0, end)) {
                        Some(v) => (
                            self,
                            SequenceModel {
                                delay: if v > 0 {
                                    (v - 1) as u32
                                } else {
                                    0
                                },
                                bytes: b.subrange(3 + end, n),
                                ..sq
                            },
                        ),
                        None => (self, SequenceModel { bytes: Seq::empty(), ..sq }),
                    },
                    None => (self, SequenceModel { bytes: Seq::empty(), ..sq }),
                }
            }
        } else if !sq.ascii_in_progress {
            let c = b[0];
            let st = if c < 128 {
                let s1 = if spec_shift_required(c) {
                    push_state(self.states, State::FakeKey { keycode: KeyCode::LShift })
                } else {
                    self.states
                };
                push_state(s1, State::FakeKey { keycode: spec_ascii_keycode(c) })
            } else {
                self.states
            };
            (self.with_states(st), SequenceModel { ascii_in_progress: true, ..sq })
        } else {
            let c = b[0];
            let st = if c < 128 {
                remove_states(
                    self.states,
                    Removal::FakeWithMod(
                        spec_ascii_keycode(c),
                        if spec_shift_required(c) {
                            Some(KeyCode::LShift)
                        } else {
                            None
                        },
                    ),
                )
            } else {
                self.states
            };
            (
                self.with_states(st),
                SequenceModel { ascii_in_progress: false, bytes: b.subrange(1, n), ..sq },
            )
        }
    }

    /// One step of the frontmost running sequence, which then goes to the back of the queue
    /// unless it is over.
    pub open spec fn sequence_step(self) -> Self {
        if self.sequences.len() == 0 {
            self
        } else {
            let sq = self.sequences[0];
            let rest = self.sequences.drop_first();
            let m = LayoutModel { sequences: rest, ..self };
            if sq.delay > 0 {
                LayoutModel {
                    sequences: wrap_push(rest, SequenceModel { delay: (sq.delay - 1) as u32, ..sq }, 4),
                    ..m
                }
            } else if sq.bytes.len() == 0 {
                m.with_states(remove_states(m.states, Removal::AllFakes))
            } else {
                let (m2, sq2) = m.sequence_bytes(sq);
                LayoutModel { sequences: wrap_push(m2.sequences, sq2, 4), ..m2 }
            }
        }
    }

    /// `n` sequence steps.
    pub open spec fn sequence_steps(self, n: nat) -> Self
        decreases n,
    {
        if n == 0 {
            self
        } else {
            self.sequence_steps((n - 1) as nat).sequence_step()
        }
    }

    /// The states after the releases of the keys at `keys`, in order, with the custom event.
    pub open spec fn release_keys(self, keys: Seq<(u8, u8)>, custom: CustomEvent<T>) -> (
        Self,
        CustomEvent<T>,
    )
        decreases keys.len(),
    {
        if keys.len() == 0 {
            (self, custom)
        } else {
            let (m, cu) = self.release_keys(keys.drop_last(), custom);
            let (st, cu2) = release_states(m.states, keys.last(), cu);
            (m.with_states(st), cu2)
        }
    }

    // ---------------------------------------------------------------------------------------
    // The nesting operations
    /// Doing `action` for the key at `coord`, pressed `delay` ticks before it is processed.
    pub open spec fn do_action(
        self,
        action: Action<T>,
        coord: (u8, u8),
        delay: u16,
        ctx: ActionContext,
        d: nat,
    ) -> (Self, CustomEvent<T>, ActionContext)
        decreases d, 0nat,
    {
        if self.fault || d == 0 || self.waiting is Some {
            (self.faulted(), CustomEvent::NoEvent, ctx)
        } else {
            let d1 = (d - 1) as nat;
            match action {
                Action::NoOp | Action::Trans => {
                    let (m, c) = self.handle_terminal(coord, ctx, d1);
                    (m, CustomEvent::NoEvent, c)
                },
                Action::HoldTap(h) => self.do_hold_tap(h, coord, delay, ctx, d1),
                Action::OneShot(o) => self.do_oneshot(o, coord, delay, ctx, d1),
                Action::TapDance(ta) => self.do_tapdance(ta, coord, ctx, d1),
                Action::Sequence(bytes) => (
                    LayoutModel {
                        sequences: wrap_push(
                            self.sequences,
                            SequenceModel {
                                bytes: (*bytes)@,
                                delay: 0,
                                tap_in_progress: false,
                                ascii_in_progress: false,
                            },
                            4,
                        ),
                        ..self
                    },
                    CustomEvent::NoEvent,
                    ctx,
                ),
                Action::KeyCode(kc) => {
                    let m1 = self.track(coord);
                    let m2 = m1.with_states(
                        push_state(m1.states, State::NormalKey { keycode: kc, coord }),
                    );
                    let (m3, c) = m2.handle_terminal(coord, ctx, d1);
                    (m3, CustomEvent::NoEvent, c)
                },
                Action::MultipleKeyCodes(v) => {
                    let m1 = self.track(coord);
                    let m2 = m1.with_states(push_normal_keys(m1.states, (*v)@, coord));
                    let (m3, c) = m2.handle_terminal(coord, ctx, d1);
                    (m3, CustomEvent::NoEvent, c)
                },
                Action::MultipleActions(v) => {
                    let m1 = self.track(coord);
                    m1.do_actions((*v)@, coord, delay, ctx, d1)
                },
                Action::Layer(value) => {
                    let m1 = self.track(coord);
                    let m2 = m1.with_states(
                        push_state(m1.states, State::MomentaryLayerModifier { value, coord }),
                    );
                    let (m3, c) = m2.handle_terminal(coord, ctx, d1);
                    (m3, CustomEvent::NoEvent, c)
                },
                Action::ToggleLayer(value) => {
                    let m1 = self.track(coord);
                    let kept = remove_states(m1.states, Removal::Toggle(value));
                    let removed = exists|i: int|
                        0 <= i < m1.states.len() && removed_by(
                            #[trigger] m1.states[i],
                            Removal::Toggle(value),
                        );
                    let st = if removed {
                        kept
                    } else {
                        push_state(kept, State::ToggleLayerModifier { value })
                    };
                    let (m3, c) = m1.with_states(st).handle_terminal(coord, ctx, d1);
                    (m3, CustomEvent::NoEvent, c)
                },
                Action::DefaultLayer(value) => {
                    let m1 = self.track(coord).set_default_layer(value);
                    let (m3, c) = m1.handle_terminal(coord, ctx, d1);
                    (m3, CustomEvent::NoEvent, c)
                },
                Action::Custom(value) => {
                    let m1 = self.track(coord);
                    let (m2, c) = m1.handle_terminal(coord, ctx, d1);
                    if m2.states.len() < states_cap() {
                        (
                            m2.with_states(m2.states.push(State::Custom { value, coord })),
                            CustomEvent::Press(value),
                            c,
                        )
                    } else {
                        (m2, CustomEvent::NoEvent, c)
                    }
                },
            }
        }
    }

    /// The press of another key ends a running tap dance, unless the press comes from the
    /// dance itself: a lazy dance then does its action.
    pub open spec fn end_tapdance(self, ctx: ActionContext, d: nat) -> (Self, ActionContext)
        decreases d, 1nat,
    {
        if !ctx.inside_tapdance && self.tapdance is Some {
            let m = LayoutModel {
                tapdance: Some(TapDanceState { timeout: 0, ..self.tapdance->Some_0 }),
                ..self
            };
            let (m1, _e, c) = m.tapdance_lazy(ctx, d);
            (m1, c)
        } else {
            (self, ctx)
        }
    }

    /// Doing the hold-tap action `h`: a running tap dance ends first, then the key waits for
    /// its decision, or, when it is pressed again soon enough after a tap, it does its tap
    /// action.
    pub open spec fn do_hold_tap(
        self,
        h: &'static HoldTapAction<T>,
        coord: (u8, u8),
        delay: u16,
        ctx: ActionContext,
        d: nat,
    ) -> (Self, CustomEvent<T>, ActionContext)
        decreases d, 2nat,
    {
        let (s, c0) = self.end_tapdance(ctx, d);
        if s.fault || s.waiting is Some {
            (s.faulted(), CustomEvent::NoEvent, c0)
        } else {
            let (m1, c1) = if h.tap_hold_interval == 0 || coord != s.tracker.coord
                || s.tracker.timeout == 0 {
                (
                    LayoutModel {
                        waiting: Some(
                            WaitingState {
                                coord,
                                timeout: h.timeout,
                                delay,
                                hold: &h.hold,
                                tap: &h.tap,
                                config: h.config,
                            },
                        ),
                        tracker: TapHoldTracker { timeout: h.tap_hold_interval, ..s.tracker },
                        ..s
                    },
                    c0,
                )
            } else {
                let m0 = LayoutModel { tracker: TapHoldTracker { timeout: 0, ..s.tracker }, ..s };
                let (m, _e, c) = m0.do_action(h.tap, coord, delay, c0, d);
                (m, c)
            };
            (m1.track(coord), CustomEvent::NoEvent, c1)
        }
    }

    /// Doing the one shot action `o`.
    pub open spec fn do_oneshot(
        self,
        o: &'static OneShotAction<T>,
        coord: (u8, u8),
        delay: u16,
        ctx: ActionContext,
        d: nat,
    ) -> (Self, CustomEvent<T>, ActionContext)
        decreases d, 1nat,
    {
        let m1 = self.track(coord);
        let (m2, e, c2) = m1.do_action(
            o.action,
            coord,
            delay,
            ActionContext { inside_oneshot: true, ..ctx },
            d,
        );
        let c3 = ActionContext { inside_oneshot: false, ..c2 };
        let os = match m2.oneshot {
            Some(os) => OneShotModel { end_config: o.end_config, timeout: o.timeout, ..os },
            None => OneShotModel {
                active: Seq::empty(),
                released: Seq::empty(),
                other: Seq::empty(),
                timeout: o.timeout,
                end_config: o.end_config,
                release_on_next_tick: false,
            },
        };
        let (os2, overflow) = os.handle_press(coord, true);
        let m3 = LayoutModel { oneshot: Some(os2), ..m2 };
        let m4 = match overflow {
            Some(x) => m3.event(Event::Release(x.0, x.1), d),
            None => m3,
        };
        (m4, e, c3)
    }

    /// Doing the tap dance action `ta`: another tap of the running dance, or the start of a
    /// new one.
    pub open spec fn do_tapdance(
        self,
        ta: &'static TapDanceAction<T>,
        coord: (u8, u8),
        ctx: ActionContext,
        d: nat,
    ) -> (Self, CustomEvent<T>, ActionContext)
        decreases d, 1nat,
    {
        let m1 = self.track(coord);
        match m1.tapdance {
            Some(ts) => if coord == ts.coord && same_tapdance(*ts.tapdance_action, *ta) {
                match td_handle_press(ts, true) {
                    Some(ts2) => {
                        let m2 = LayoutModel { tapdance: Some(ts2), ..m1 };
                        if ts2.tapdance_action.config == TapDanceConfig::Eager {
                            m2.tapdance_eager(ctx, d)
                        } else {
                            m2.tapdance_lazy(ctx, d)
                        }
                    },
                    None => (m1.faulted(), CustomEvent::NoEvent, ctx),
                }
            } else {
                let m2 = LayoutModel {
                    tapdance: Some(TapDanceState { timeout: 0, ..ts }),
                    ..m1
                };
                let (m3, e1, c1) = m2.tapdance_lazy(ctx, d);
                m3.start_tapdance(ta, coord, e1, c1, d)
            },
            None => m1.start_tapdance(ta, coord, CustomEvent::NoEvent, ctx, d),
        }
    }

    /// Doing the actions `acts` in order, merging their custom events.
    pub open spec fn do_actions(
        self,
        acts: Seq<Action<T>>,
        coord: (u8, u8),
        delay: u16,
        ctx: ActionContext,
        d: nat,
    ) -> (Self, CustomEvent<T>, ActionContext)
        decreases d, acts.len(),
    {
        if acts.len() == 0 {
            (self, CustomEvent::NoEvent, ctx)
        } else {
            let (m1, e1, c1) = self.do_actions(acts.drop_last(), coord, delay, ctx, d);
            let (m2, e2, c2) = m1.do_action(acts.last(), coord, delay, c1, d);
            (m2, spec_update(e1, e2), c2)
        }
    }

    /// Starting the tap dance `ta` for the key at `coord`, after the event `e` and in the
    /// context `ctx`.
    pub open spec fn start_tapdance(
        self,
        ta: &'static TapDanceAction<T>,
        coord: (u8, u8),
        e: CustomEvent<T>,
        ctx: ActionContext,
        d: nat,
    ) -> (Self, CustomEvent<T>, ActionContext)
        decreases d, 0nat,
    {
        if self.fault || d == 0 {
            (self.faulted(), e, ctx)
        } else {
            let m = LayoutModel {
                tapdance: Some(
                    TapDanceState {
                        coord,
                        timeout: ta.timeout,
                        current_action: 0,
                        tapdance_action: ta,
                        release_on_tapdance_end: false,
                    },
                ),
                ..self
            };
            let (m2, e2, c2) = if ta.config == TapDanceConfig::Eager {
                m.tapdance_eager(ctx, (d - 1) as nat)
            } else {
                m.tapdance_lazy(ctx, (d - 1) as nat)
            };
            (m2, spec_update(e, e2), c2)
        }
    }

    /// The end of a key's activation: it ends a one shot and a tap dance, unless it is
    /// activated by them.
    pub open spec fn handle_terminal(self, coord: (u8, u8), ctx: ActionContext, d: nat) -> (
        Self,
        ActionContext,
    )
        decreases d, 0nat,
    {
        if self.fault || d == 0 {
            (self.faulted(), ctx)
        } else {
            let m1 = if !ctx.inside_oneshot && self.oneshot is Some {
                LayoutModel {
                    oneshot: Some(self.oneshot->Some_0.handle_press(coord, false).0),
                    ..self
                }
            } else {
                self
            };
            if !ctx.inside_tapdance && m1.tapdance is Some {
                let m2 = LayoutModel {
                    tapdance: Some(TapDanceState { timeout: 0, ..m1.tapdance->Some_0 }),
                    ..m1
                };
                let (m3, _e, c) = m2.tapdance_lazy(ctx, (d - 1) as nat);
                (m3, c)
            } else {
                (m1, ctx)
            }
        }
    }

    /// A lazy tap dance that is over does its action.
    pub open spec fn tapdance_lazy(self, ctx: ActionContext, d: nat) -> (
        Self,
        CustomEvent<T>,
        ActionContext,
    )
        decreases d, 0nat,
    {
        if self.fault || d == 0 {
            (self.faulted(), CustomEvent::NoEvent, ctx)
        } else {
            match self.tapdance {
                Some(td) => if td.tapdance_action.config == TapDanceConfig::Lazy {
                    match td_is_done(td) {
                        None => (self.faulted(), CustomEvent::NoEvent, ctx),
                        Some(false) => (self, CustomEvent::NoEvent, ctx),
                        Some(true) => if td.current_action >= td.tapdance_action.actions@.len() {
                            (self.faulted(), CustomEvent::NoEvent, ctx)
                        } else {
                            let d1 = (d - 1) as nat;
                            let action = td.tapdance_action.actions@[td.current_action as int];
                            let (m1, e, c1) = self.do_action(
                                action,
                                td.coord,
                                0,
                                ActionContext { inside_tapdance: true, ..ctx },
                                d1,
                            );
                            let c2 = ActionContext { inside_tapdance: false, ..c1 };
                            let m2 = if td.release_on_tapdance_end {
                                m1.event(Event::Release(td.coord.0, td.coord.1), d1)
                            } else {
                                m1
                            };
                            (LayoutModel { tapdance: None, ..m2 }, e, c2)
                        },
                    }
                } else {
                    (self, CustomEvent::NoEvent, ctx)
                },
                None => (self, CustomEvent::NoEvent, ctx),
            }
        }
    }

    /// An eager tap dance does the action of its taps so far.
    pub open spec fn tapdance_eager(self, ctx: ActionContext, d: nat) -> (
        Self,
        CustomEvent<T>,
        ActionContext,
    )
        decreases d, 0nat,
    {
        if self.fault || d == 0 {
            (self.faulted(), CustomEvent::NoEvent, ctx)
        } else {
            match self.tapdance {
                Some(td) => if td.tapdance_action.config == TapDanceConfig::Eager {
                    if td.current_action >= td.tapdance_action.actions@.len() {
                        (self.faulted(), CustomEvent::NoEvent, ctx)
                    } else {
                        match td_is_done(td) {
                            None => (self.faulted(), CustomEvent::NoEvent, ctx),
                            Some(done) => {
                                let action = td.tapdance_action.actions@[td.current_action as int];
                                let (m1, e, c1) = self.do_action(
                                    action,
                                    td.coord,
                                    0,
                                    ActionContext { inside_tapdance: true, ..ctx },
                                    (d - 1) as nat,
                                );
                                let c2 = ActionContext { inside_tapdance: false, ..c1 };
                                if done {
                                    (LayoutModel { tapdance: None, ..m1 }, e, c2)
                                } else {
                                    (m1, e, c2)
                                }
                            },
                        }
                    }
                } else {
                    (self, CustomEvent::NoEvent, ctx)
                },
                None => (self, CustomEvent::NoEvent, ctx),
            }
        }
    }

    /// The waiting hold-tap key does its hold action.
    pub open spec fn waiting_into_hold(self, d: nat) -> (Self, CustomEvent<T>)
        decreases d, 0nat,
    {
        if self.fault || d == 0 {
            (self.faulted(), CustomEvent::NoEvent)
        } else {
            match self.waiting {
                Some(w) => {
                    let tr = if w.coord == self.tracker.coord {
                        TapHoldTracker { timeout: 0, ..self.tracker }
                    } else {
                        self.tracker
                    };
                    let m1 = LayoutModel { waiting: None, tracker: tr, ..self };
                    let (m2, e, _c) = m1.do_action(*w.hold, w.coord, 0, default_ctx(), (d - 1) as nat);
                    (m2, e)
                },
                None => (self, CustomEvent::NoEvent),
            }
        }
    }

    /// The waiting hold-tap key does its tap action.
    pub open spec fn waiting_into_tap(self, d: nat) -> (Self, CustomEvent<T>)
        decreases d, 0nat,
    {
        if self.fault || d == 0 {
            (self.faulted(), CustomEvent::NoEvent)
        } else {
            match self.waiting {
                Some(w) => {
                    let m1 = LayoutModel { waiting: None, ..self };
                    let (m2, e, _c) = m1.do_action(*w.tap, w.coord, 0, default_ctx(), (d - 1) as nat);
                    (m2, e)
                },
                None => (self, CustomEvent::NoEvent),
            }
        }
    }

    /// Processing a stacked event.
    pub open spec fn unstack(self, s: Stacked, d: nat) -> (Self, CustomEvent<T>)
        decreases d, 0nat,
    {
        if self.fault || d == 0 {
            (self.faulted(), CustomEvent::NoEvent)
        } else {
            match s.event {
                Event::Release(i, j) => {
                    let c = (i, j);
                    let (m1, ignore, extra) = match self.oneshot {
                        Some(o) => {
                            let (o2, ig, ex) = o.handle_release(c);
                            (LayoutModel { oneshot: Some(o2), ..self }, ig, ex)
                        },
                        None => (self, false, None),
                    };
                    let (m2, cu1) = match extra {
                        Some(keys) => {
                            let (ma, ca) = m1.release_keys(keys, CustomEvent::NoEvent);
                            if !ignore {
                                (LayoutModel { oneshot: None, ..ma }, ca)
                            } else {
                                (ma, ca)
                            }
                        },
                        None => (m1, CustomEvent::NoEvent),
                    };
                    let m3 = match m2.tapdance {
                        Some(td) => LayoutModel {
                            tapdance: Some(td_handle_release(td, c)),
                            ..m2
                        },
                        None => m2,
                    };
                    if !ignore {
                        let (st, cu2) = release_states(m3.states, c, cu1);
                        (m3.with_states(st), cu2)
                    } else {
                        (m3, cu1)
                    }
                },
                Event::Press(i, j) => {
                    let action = self.press_as_action((i, j), self.current_layer());
                    let (m1, e, _c) = self.do_action(
                        action,
                        (i, j),
                        s.since,
                        default_ctx(),
                        (d - 1) as nat,
                    );
                    (m1, e)
                },
            }
        }
    }

    /// Registering a key event: it is stacked, and when the stack overflows, the waiting
    /// hold-tap key is held and the frontmost event is processed.
    pub open spec fn event(self, e: Event, d: nat) -> Self
        decreases d, 0nat,
    {
        if self.fault || d == 0 {
            self.faulted()
        } else {
            let s = Stacked { event: e, since: 0 };
            let m1 = LayoutModel { stacked: wrap_push(self.stacked, s, 16), ..self };
            match wrap_push_out(self.stacked, 16) {
                Some(old) => {
                    let (m2, _e) = m1.waiting_into_hold((d - 1) as nat);
                    let (m3, _e2) = m2.unstack(old, (d - 1) as nat);
                    m3
                },
                None => m1,
            }
        }
    }

    // ---------------------------------------------------------------------------------------
    // Ticks
    /// The releases of one shot keys at the end of a one shot.
    pub open spec fn tick_releases(self, keys: Seq<(u8, u8)>, custom: CustomEvent<T>, d: nat) -> (
        Self,
        CustomEvent<T>,
    )
        decreases keys.len(),
    {
        if keys.len() == 0 {
            (self, custom)
        } else {
            let (m, c) = self.tick_releases(keys.drop_last(), custom, d);
            let (m2, c2) = m.unstack(
                Stacked { event: Event::Release(keys.last().0, keys.last().1), since: 0 },
                d,
            );
            (m2, spec_update(c, c2))
        }
    }

    /// The first part of a tick: time passes for the stack and the tracker, the sequences
    /// step, and the one shot and the tap dance are ticked.
    pub open spec fn tick_pre(self, d: nat) -> (Self, CustomEvent<T>) {
        let m1 = LayoutModel {
            stacked: ticked_stack(self.stacked),
            tracker: TapHoldTracker { timeout: dec16(self.tracker.timeout), ..self.tracker },
            ..self
        };
        let m2 = m1.sequence_steps(m1.sequences.len());
        let (m3, e1) = match m2.oneshot {
            Some(o) => {
                let (o2, rel) = o.tick();
                let mo = LayoutModel { oneshot: Some(o2), ..m2 };
                match rel {
                    Some(keys) => {
                        let (mr, cr) = mo.tick_releases(keys, CustomEvent::NoEvent, d);
                        (LayoutModel { oneshot: None, ..mr }, cr)
                    },
                    None => (mo, CustomEvent::NoEvent),
                }
            },
            None => (m2, CustomEvent::NoEvent),
        };
        match m3.tapdance {
            Some(td) => {
                let td2 = TapDanceState { timeout: dec16(td.timeout), ..td };
                let ma = LayoutModel { tapdance: Some(td2), ..m3 };
                if td2.tapdance_action.config == TapDanceConfig::Lazy {
                    let (mb, eb, _c) = ma.tapdance_lazy(default_ctx(), d);
                    (mb, spec_update(e1, eb))
                } else {
                    match td_is_done(td2) {
                        Some(true) => (LayoutModel { tapdance: None, ..ma }, e1),
                        Some(false) => (ma, e1),
                        None => (ma.faulted(), e1),
                    }
                }
            },
            None => (m3, e1),
        }
    }

    /// The second part of a tick: the waiting hold-tap key is decided (the custom handler,
    /// when there is one, answers `decision`), or else the frontmost stacked event is
    /// processed.
    pub open spec fn tick_post(self, custom: CustomEvent<T>, decision: Option<WaitingAction>, d: nat) -> (
        Self,
        CustomEvent<T>,
    ) {
        if self.fault {
            (self, custom)
        } else {
            match self.waiting {
                Some(w) => {
                    let (w2, act, ok) = waiting_tick(w, self.stacked, decision);
                    let m1 = LayoutModel { waiting: Some(w2), ..self };
                    if !ok {
                        (m1.faulted(), custom)
                    } else {
                        let (m2, e) = match act {
                            Some(WaitingAction::Hold) => m1.waiting_into_hold(d),
                            Some(WaitingAction::Tap) => m1.waiting_into_tap(d),
                            Some(WaitingAction::NoOp) => (
                                LayoutModel { waiting: None, ..m1 },
                                CustomEvent::NoEvent,
                            ),
                            None => (m1, CustomEvent::NoEvent),
                        };
                        (m2, spec_update(custom, e))
                    }
                },
                None => if self.stacked.len() > 0 {
                    let m1 = LayoutModel { stacked: self.stacked.drop_first(), ..self };
                    let (m2, e) = m1.unstack(self.stacked[0], d);
                    (m2, spec_update(custom, e))
                } else {
                    (self, custom)
                },
            }
        }
    }

    /// A depth budget with which the event `e` does not fault, if there is one.
    pub open spec fn event_fuel(self, e: Event) -> nat {
        choose|d: nat| !self.event(e, d).fault
    }

    /// A depth budget with which a tick does not fault, whatever the custom handler answers,
    /// if there is one.
    pub open spec fn tick_fuel(self) -> nat {
        choose|d: nat| self.tick_ok_all(d)
    }

    /// Whether no tick faults with the depth budget `d`, whatever the custom handler answers.
    pub open spec fn tick_ok_all(self, d: nat) -> bool {
        forall|dec: Option<WaitingAction>| #[trigger] self.tick_ok(dec, d)
    }

    /// Whether a tick where the custom handler answers `dec` does not fault with the depth
    /// budget `d`.
    pub open spec fn tick_ok(self, dec: Option<WaitingAction>, d: nat) -> bool {
        !self.tick(dec, d).0.fault
    }

    /// A depth budget with which a tick where the custom handler answers `dec` does not fault,
    /// if there is one.
    pub open spec fn tick_fuel_with(self, dec: Option<WaitingAction>) -> nat {
        choose|d: nat| self.tick_ok(dec, d)
    }

    /// A whole tick, with the custom handler answering `decision`.
    pub open spec fn tick(self, decision: Option<WaitingAction>, d: nat) -> (Self, CustomEvent<T>) {
        let (m, c) = self.tick_pre(d);
        m.tick_post(c, decision, d)
    }
}

/// A faulted model stays faulted through each nesting operation.
pub broadcast proof fn lemma_fault_event<T: 'static + Copy, const C: usize, const R: usize, const L: usize>(
    m: LayoutModel<T, C, R, L>,
    e: Event,
    d: nat,
)
    requires
        m.fault,
    ensures
        (#[trigger] m.event(e, d)).fault,
{
}

pub broadcast proof fn lemma_fault_do_action<T: 'static + Copy, const C: usize, const R: usize, const L: usize>(
    m: LayoutModel<T, C, R, L>,
    a: Action<T>,
    coord: (u8, u8),
    delay: u16,
    ctx: ActionContext,
    d: nat,
)
    requires
        m.fault,
    ensures
        (#[trigger] m.do_action(a, coord, delay, ctx, d)).0.fault,
{
}

pub broadcast proof fn lemma_fault_handle_terminal<T: 'static + Copy, const C: usize, const R: usize, const L: usize>(
    m: LayoutModel<T, C, R, L>,
    coord: (u8, u8),
    ctx: ActionContext,
    d: nat,
)
    requires
        m.fault,
    ensures
        (#[trigger] m.handle_terminal(coord, ctx, d)).0.fault,
{
}

pub broadcast proof fn lemma_fault_tapdance<T: 'static + Copy, const C: usize, const R: usize, const L: usize>(
    m: LayoutModel<T, C, R, L>,
    ctx: ActionContext,
    d: nat,
)
    requires
        m.fault,
    ensures
        (#[trigger] m.tapdance_lazy(ctx, d)).0.fault,
        (#[trigger] m.tapdance_eager(ctx, d)).0.fault,
{
}

pub broadcast proof fn lemma_fault_start_tapdance<T: 'static + Copy, const C: usize, const R: usize, const L: usize>(
    m: LayoutModel<T, C, R, L>,
    ta: &'static TapDanceAction<T>,
    coord: (u8, u8),
    e: CustomEvent<T>,
    ctx: ActionContext,
    d: nat,
)
    requires
        m.fault,
    ensures
        (#[trigger] m.start_tapdance(ta, coord, e, ctx, d)).0.fault,
{
}

pub broadcast proof fn lemma_fault_waiting<T: 'static + Copy, const C: usize, const R: usize, const L: usize>(
    m: LayoutModel<T, C, R, L>,
    d: nat,
)
    requires
        m.fault,
    ensures
        (#[trigger] m.waiting_into_hold(d)).0.fault,
        (#[trigger] m.waiting_into_tap(d)).0.fault,
{
}

pub broadcast proof fn lemma_fault_unstack<T: 'static + Copy, const C: usize, const R: usize, const L: usize>(
    m: LayoutModel<T, C, R, L>,
    s: Stacked,
    d: nat,
)
    requires
        m.fault,
    ensures
        (#[trigger] m.unstack(s, d)).0.fault,
{
}

pub broadcast proof fn lemma_fault_do_actions<T: 'static + Copy, const C: usize, const R: usize, const L: usize>(
    m: LayoutModel<T, C, R, L>,
    acts: Seq<Action<T>>,
    coord: (u8, u8),
    delay: u16,
    ctx: ActionContext,
    d: nat,
)
    requires
        m.fault,
    ensures
        (#[trigger] m.do_actions(acts, coord, delay, ctx, d)).0.fault,
    decreases acts.len(),
{
    if acts.len() > 0 {
        lemma_fault_do_actions(m, acts.drop_last(), coord, delay, ctx, d);
        let (m1, e1, c1) = m.do_actions(acts.drop_last(), coord, delay, ctx, d);
        lemma_fault_do_action(m1, acts.last(), coord, delay, c1, d);
    }
}

pub broadcast proof fn lemma_fault_tick_releases<T: 'static + Copy, const C: usize, const R: usize, const L: usize>(
    m: LayoutModel<T, C, R, L>,
    keys: Seq<(u8, u8)>,
    custom: CustomEvent<T>,
    d: nat,
)
    requires
        m.fault,
    ensures
        (#[trigger] m.tick_releases(keys, custom, d)).0.fault,
    decreases keys.len(),
{
    if keys.len() > 0 {
        lemma_fault_tick_releases(m, keys.drop_last(), custom, d);
        let (m1, c1) = m.tick_releases(keys.drop_last(), custom, d);
        lemma_fault_unstack(
            m1,
            Stacked { event: Event::Release(keys.last().0, keys.last().1), since: 0 },
            d,
        );
    }
}

pub broadcast proof fn lemma_fault_release_keys<T: 'static + Copy, const C: usize, const R: usize, const L: usize>(
    m: LayoutModel<T, C, R, L>,
    keys: Seq<(u8, u8)>,
    custom: CustomEvent<T>,
)
    requires
        m.fault,
    ensures
        (#[trigger] m.release_keys(keys, custom)).0.fault,
    decreases keys.len(),
{
    if keys.len() > 0 {
        lemma_fault_release_keys(m, keys.drop_last(), custom);
    }
}

pub broadcast group group_fault {
    lemma_fault_event,
    lemma_fault_do_action,
    lemma_fault_handle_terminal,
    lemma_fault_tapdance,
    lemma_fault_start_tapdance,
    lemma_fault_waiting,
    lemma_fault_unstack,
    lemma_fault_do_actions,
    lemma_fault_tick_releases,
    lemma_fault_release_keys,
}


/// The rank of a custom event in the order `NoEvent < Press < Release`.
pub open spec fn event_rank<T: Copy>(e: CustomEvent<T>) -> int {
    match e {
        CustomEvent::NoEvent => 0,
        CustomEvent::Press(_) => 1,
        CustomEvent::Release(_) => 2,
    }
}

/// Merging custom events only moves up the order `NoEvent < Press < Release`: the merged event
/// is the new event where it ranks higher, else the old one; merging the same event again
/// changes nothing.
pub proof fn lemma_update_order<T: Copy>(c: CustomEvent<T>, e: CustomEvent<T>)
    ensures
        spec_update(c, e) == (if event_rank(e) > event_rank(c) { e } else { c }),
        event_rank(spec_update(c, e)) >= event_rank(c),
        event_rank(spec_update(c, e)) >= event_rank(e),
        spec_update(spec_update(c, e), e) == spec_update(c, e),
{
}

/// A key whose action was changed gives back the new action, every other key keeps its action,
/// and the rest of the layout (states, layers in use, whether it is active, the key codes it
/// sends) is untouched. Where the key does not exist nothing changes.
pub proof fn lemma_change_action_read_back<T: 'static + Copy, const C: usize, const R: usize, const L: usize>(
    before: LayoutModel<T, C, R, L>,
    after: LayoutModel<T, C, R, L>,
    coord: (u8, u8),
    layer: usize,
    action: Action<T>,
)
    requires
        before.action_changed(after, coord, layer, action),
    ensures
        before.lookup(coord, layer) is Some ==> after.lookup(coord, layer) == Some(action),
        forall|c2: (u8, u8), l2: usize|
            !(c2 == coord && l2 == layer) ==> #[trigger] after.lookup(c2, l2) == before.lookup(c2, l2),
        before.lookup(coord, layer) is None ==> forall|c2: (u8, u8), l2: usize|
            #[trigger] after.lookup(c2, l2) == before.lookup(c2, l2),
        after.current_layer() == before.current_layer(),
        after.is_active() == before.is_active(),
        state_keycodes(after.states) == state_keycodes(before.states),
{
    assert(after.lookup(coord, layer) == (if before.lookup(coord, layer) is Some {
        Some(action)
    } else {
        before.lookup(coord, layer)
    }));
}

/// Setting the default layer to a layer that exists makes it the default layer, and the layer
/// in use while no layer key is held; any other value is ignored. Setting the same value again
/// changes nothing.
pub proof fn lemma_set_default_layer<T: 'static + Copy, const C: usize, const R: usize, const L: usize>(
    m: LayoutModel<T, C, R, L>,
    value: usize,
)
    ensures
        value < L ==> m.set_default_layer(value).default_layer == value,
        value >= L ==> m.set_default_layer(value) == m,
        last_layer(m.states) is None && value < L ==> m.set_default_layer(value).current_layer()
            == value,
        m.set_default_layer(value).set_default_layer(value) == m.set_default_layer(value),
        m.set_default_layer(value).states == m.states,
{
}


/// A layout that is not active needs no ticks: a tick leaves it as it is and reports no custom
/// event, whatever a custom hold-tap handler would answer.
pub proof fn lemma_inactive_tick<T: 'static + Copy, const C: usize, const R: usize, const L: usize>(
    m: LayoutModel<T, C, R, L>,
    decision: Option<WaitingAction>,
    d: nat,
)
    requires
        !m.is_active(),
        !m.fault,
    ensures
        m.tick(decision, d) == (m, CustomEvent::<T>::NoEvent),
{
    assert(ticked_stack(m.stacked) =~= m.stacked);
    let m1 = LayoutModel {
        stacked: ticked_stack(m.stacked),
        tracker: TapHoldTracker { timeout: dec16(m.tracker.timeout), ..m.tracker },
        ..m
    };
    assert(m1 == m);
    assert(m1.sequence_steps(0) == m1);
}


/// Releasing the key at `c` removes exactly the states that the key holds (its key code, its
/// momentary layer, its custom action) and keeps every other state.
pub proof fn lemma_release_removes<T: Copy>(s: Seq<State<T>>, c: (u8, u8), custom: CustomEvent<T>)
    ensures
        forall|x: State<T>| #[trigger] release_states(s, c, custom).0.contains(x) <==> (s.contains(x)
            && !spec_released_by(x, c)),
        release_states(s, c, custom).0.len() <= s.len(),
    decreases s.len(),
{
    if s.len() > 0 {
        lemma_release_removes(s.drop_last(), c, custom);
        let (rest, _cu) = release_states(s.drop_last(), c, custom);
        assert(s == s.drop_last().push(s.last()));
        assert forall|x: State<T>| #[trigger] release_states(s, c, custom).0.contains(x) <==> (s.contains(
            x,
        ) && !spec_released_by(x, c)) by {
            if s.contains(x) {
                let i = choose|i: int| 0 <= i < s.len() && s[i] == x;
                if i < s.len() - 1 {
                    assert(s.drop_last()[i] == x);
                }
            }
            if s.drop_last().contains(x) {
                let i = choose|i: int| 0 <= i < s.drop_last().len() && s.drop_last()[i] == x;
                assert(s[i] == x);
            }
            if !spec_released_by(s.last(), c) {
                assert(rest.push(s.last()).last() == s.last());
                if rest.push(s.last()).contains(x) {
                    let i = choose|i: int| 0 <= i < rest.push(s.last()).len() && rest.push(s.last())[i] == x;
                    if i < rest.len() {
                        assert(rest[i] == x);
                    }
                }
                if rest.contains(x) {
                    let i = choose|i: int| 0 <= i < rest.len() && rest[i] == x;
                    assert(rest.push(s.last())[i] == x);
                }
            }
        }
    }
}


/// How a waiting hold-tap key is decided on a tick. Time passes for it in every case. With the
/// default configuration, a key released before its timeout is a tap, a key released after it
/// is a hold, and a key still held when its timeout runs out is a hold. With
/// `HoldOnOtherKeyPress`, a press of another key makes it a hold; with `PermissiveHold`, a press
/// and release of another key does; with a custom handler, the handler's answer decides.
pub proof fn lemma_hold_tap_decisions<T: Copy>(
    w: WaitingState<T>,
    s: Seq<Stacked>,
    decision: Option<WaitingAction>,
)
    ensures
        waiting_tick(w, s, decision).0.timeout == dec16(w.timeout),
        w.config is Default && find_release(s, w.coord, 0) is None ==> waiting_tick(
            w,
            s,
            decision,
        ).1 == if w.timeout <= 1 {
            Some(WaitingAction::Hold)
        } else {
            None::<WaitingAction>
        },
        w.config is Default ==> match find_release(s, w.coord, 0) {
            Some(i) => dec16(w.timeout) + s[i].since <= u16::MAX ==> waiting_tick(w, s, decision).1
                == if dec16(w.timeout) + s[i].since > w.delay {
                Some(WaitingAction::Tap)
            } else {
                Some(WaitingAction::Hold)
            },
            None => true,
        },
        w.config is HoldOnOtherKeyPress && has_press(s) ==> waiting_tick(w, s, decision).1 == Some(
            WaitingAction::Hold,
        ),
        w.config is PermissiveHold && has_press_and_release(s) ==> waiting_tick(w, s, decision).1
            == Some(WaitingAction::Hold),
        w.config is Custom && decision is Some ==> waiting_tick(w, s, decision).1 == decision,
{
}

/// A one shot ends on the tick where its timeout runs out, or on the tick after a key press
/// that ends it: that tick releases the one shot keys that were let go and forgets every one
/// shot key.
pub proof fn lemma_oneshot_ends(o: OneShotModel, coord: (u8, u8))
    ensures
        o.active.len() > 0 && (o.timeout <= 1 || o.release_on_next_tick) ==> o.tick().1 == Some(
            o.released,
        ) && o.tick().0.active.len() == 0,
        o.active.len() > 0 && ends_on_press(o.end_config) ==> o.handle_press(coord, false).0.tick().1
            == Some(remove_coord(o.released, coord)),
        o.active.len() > 0 && o.timeout > 1 && !o.release_on_next_tick ==> o.tick().1 is None,
{
}


/// Pressing a key whose action is a key code sends that key code: the key's state is added
/// after the current ones (while there is room for it), nothing else about the states changes,
/// and no custom event is reported. The key becomes the last activating key.
pub proof fn lemma_key_code_press<T: 'static + Copy, const C: usize, const R: usize, const L: usize>(
    m: LayoutModel<T, C, R, L>,
    kc: KeyCode,
    coord: (u8, u8),
    delay: u16,
    ctx: ActionContext,
    d: nat,
)
    requires
        !m.fault,
        m.waiting is None,
        m.oneshot is None,
        m.tapdance is None,
        m.states.len() < states_cap(),
        d >= 2,
    ensures
        m.do_action(Action::KeyCode(kc), coord, delay, ctx, d).0.states == m.states.push(
            State::NormalKey { keycode: kc, coord },
        ),
        state_keycodes(m.do_action(Action::KeyCode(kc), coord, delay, ctx, d).0.states)
            == state_keycodes(m.states).push(kc),
        m.do_action(Action::KeyCode(kc), coord, delay, ctx, d).1 == CustomEvent::<T>::NoEvent,
        m.do_action(Action::KeyCode(kc), coord, delay, ctx, d).0.tracker.coord == coord,
        !m.do_action(Action::KeyCode(kc), coord, delay, ctx, d).0.fault,
{
    let s2 = m.states.push(State::NormalKey { keycode: kc, coord });
    assert(s2.drop_last() =~= m.states);
}


/// Pressing a key whose action is a layer makes that layer the current one while it is held
/// (while there is room for its state).
pub proof fn lemma_layer_press<T: 'static + Copy, const C: usize, const R: usize, const L: usize>(
    m: LayoutModel<T, C, R, L>,
    value: usize,
    coord: (u8, u8),
    delay: u16,
    ctx: ActionContext,
    d: nat,
)
    requires
        !m.fault,
        m.waiting is None,
        m.oneshot is None,
        m.tapdance is None,
        m.states.len() < states_cap(),
        d >= 2,
    ensures
        m.do_action(Action::Layer(value), coord, delay, ctx, d).0.current_layer() == value,
        m.do_action(Action::Layer(value), coord, delay, ctx, d).0.states == m.states.push(
            State::MomentaryLayerModifier { value, coord },
        ),
{
    let s2 = m.states.push(State::MomentaryLayerModifier { value, coord });
    assert(s2.last() == State::<T>::MomentaryLayerModifier { value, coord });
}


proof fn lemma_remove_nothing<T: Copy>(s: Seq<State<T>>, r: Removal)
    requires
        forall|i: int| 0 <= i < s.len() ==> !removed_by(#[trigger] s[i], r),
    ensures
        remove_states(s, r) == s,
    decreases s.len(),
{
    if s.len() > 0 {
        assert(forall|i: int| 0 <= i < s.drop_last().len() ==> s.drop_last()[i] == s[i]);
        lemma_remove_nothing(s.drop_last(), r);
        assert(s.drop_last().push(s.last()) =~= s);
    }
}

/// Pressing a layer toggle key switches its layer on (it becomes the current layer), and
/// pressing it again switches it off, which restores the states as they were.
pub proof fn lemma_toggle_layer_twice<T: 'static + Copy, const C: usize, const R: usize, const L: usize>(
    m: LayoutModel<T, C, R, L>,
    value: usize,
    coord: (u8, u8),
    delay: u16,
    ctx: ActionContext,
    d: nat,
)
    requires
        !m.fault,
        m.waiting is None,
        m.oneshot is None,
        m.tapdance is None,
        m.states.len() < states_cap(),
        forall|i: int| 0 <= i < m.states.len() ==> !removed_by(#[trigger] m.states[i], Removal::Toggle(value)),
        d >= 2,
    ensures
        m.do_action(Action::ToggleLayer(value), coord, delay, ctx, d).0.current_layer() == value,
        m.do_action(Action::ToggleLayer(value), coord, delay, ctx, d).0.do_action(
            Action::ToggleLayer(value),
            coord,
            delay,
            ctx,
            d,
        ).0.states == m.states,
{
    lemma_remove_nothing(m.states, Removal::Toggle(value));
    let m1 = m.do_action(Action::ToggleLayer(value), coord, delay, ctx, d).0;
    let s1 = m.states.push(State::ToggleLayerModifier { value });
    assert(!(exists|i: int|
        0 <= i < m.states.len() && removed_by(#[trigger] m.states[i], Removal::Toggle(value))));
    assert(m1.states == s1);
    assert(s1.last() == State::<T>::ToggleLayerModifier { value });
    assert(s1.drop_last() =~= m.states);
    assert(removed_by(s1[s1.len() - 1], Removal::Toggle(value)));
    assert(remove_states(s1, Removal::Toggle(value)) == m.states);
}


/// A release event on an inactive layout is taken up by the next tick: that tick removes the
/// states of the released key (and reports the release of a custom action it held), and leaves
/// the layout inactive.
pub proof fn lemma_release_then_tick<T: 'static + Copy, const C: usize, const R: usize, const L: usize>(
    m: LayoutModel<T, C, R, L>,
    c: (u8, u8),
    decision: Option<WaitingAction>,
    d1: nat,
    d2: nat,
)
    requires
        !m.fault,
        !m.is_active(),
        d1 >= 1,
        d2 >= 1,
    ensures
        m.event(Event::Release(c.0, c.1), d1).tick(decision, d2).0.states == release_states(
            m.states,
            c,
            CustomEvent::NoEvent,
        ).0,
        m.event(Event::Release(c.0, c.1), d1).tick(decision, d2).1 == release_states(
            m.states,
            c,
            CustomEvent::NoEvent,
        ).1,
        !m.event(Event::Release(c.0, c.1), d1).tick(decision, d2).0.is_active(),
        !m.event(Event::Release(c.0, c.1), d1).tick(decision, d2).0.fault,
{
    let s = Stacked { event: Event::Release(c.0, c.1), since: 0 };
    let m1 = m.event(Event::Release(c.0, c.1), d1);
    assert(m1.stacked == seq![s]);
    let st = ticked_stack(m1.stacked);
    assert(st.len() == 1);
    let p1 = LayoutModel {
        stacked: st,
        tracker: TapHoldTracker { timeout: dec16(m1.tracker.timeout), ..m1.tracker },
        ..m1
    };
    assert(p1.sequence_steps(0) == p1);
    let (pre, c0) = m1.tick_pre(d2);
    assert(pre == p1);
    assert(c0 == CustomEvent::<T>::NoEvent);
    let q = LayoutModel { stacked: pre.stacked.drop_first(), ..pre };
    assert(q.stacked.len() == 0);
    let (rs, cu) = release_states(q.states, c, CustomEvent::NoEvent);
    assert(q.unstack(pre.stacked[0], d2) == (q.with_states(rs), cu));
    assert(spec_update(CustomEvent::<T>::NoEvent, cu) == cu);
}


/// A press of a key code key on an inactive layout is taken up by the next tick: that tick adds
/// the key's state after the current ones (while there is room), so that the key code is sent,
/// and reports no custom event.
pub proof fn lemma_press_then_tick<T: 'static + Copy, const C: usize, const R: usize, const L: usize>(
    m: LayoutModel<T, C, R, L>,
    c: (u8, u8),
    kc: KeyCode,
    decision: Option<WaitingAction>,
    d1: nat,
    d2: nat,
)
    requires
        !m.fault,
        !m.is_active(),
        m.states.len() < states_cap(),
        m.press_as_action(c, m.current_layer()) == Action::<T>::KeyCode(kc),
        d1 >= 1,
        d2 >= 3,
    ensures
        m.event(Event::Press(c.0, c.1), d1).tick(decision, d2).0.states == m.states.push(
            State::NormalKey { keycode: kc, coord: c },
        ),
        state_keycodes(m.event(Event::Press(c.0, c.1), d1).tick(decision, d2).0.states)
            == state_keycodes(m.states).push(kc),
        m.event(Event::Press(c.0, c.1), d1).tick(decision, d2).1 == CustomEvent::<T>::NoEvent,
        !m.event(Event::Press(c.0, c.1), d1).tick(decision, d2).0.fault,
{
    let s = Stacked { event: Event::Press(c.0, c.1), since: 0 };
    let m1 = m.event(Event::Press(c.0, c.1), d1);
    assert(m1.stacked == seq![s]);
    let st = ticked_stack(m1.stacked);
    assert(st.len() == 1);
    let p1 = LayoutModel {
        stacked: st,
        tracker: TapHoldTracker { timeout: dec16(m1.tracker.timeout), ..m1.tracker },
        ..m1
    };
    assert(p1.sequence_steps(0) == p1);
    let (pre, c0) = m1.tick_pre(d2);
    assert(pre == p1);
    let q = LayoutModel { stacked: pre.stacked.drop_first(), ..pre };
    assert(q.press_as_action(c, q.current_layer()) == Action::<T>::KeyCode(kc));
    lemma_key_code_press(q, kc, c, pre.stacked[0].since, default_ctx(), (d2 - 1) as nat);
}

/// The press of a key outside a running lazy tap dance ends the dance: the dance does its
/// action and stops. A hold-tap key pressed then (with no tap-hold interval) waits for its
/// decision with no dance left running.
pub proof fn lemma_press_ends_lazy_tapdance<T: 'static + Copy, const C: usize, const R: usize, const L: usize>(
    m: LayoutModel<T, C, R, L>,
    h: &'static HoldTapAction<T>,
    coord: (u8, u8),
    delay: u16,
    ctx: ActionContext,
    d: nat,
)
    requires
        !ctx.inside_tapdance,
        m.tapdance matches Some(td) && td.tapdance_action.config == TapDanceConfig::Lazy,
    ensures
        !m.end_tapdance(ctx, d).0.fault ==> m.end_tapdance(ctx, d).0.tapdance is None,
        h.tap_hold_interval == 0 && !m.do_action(Action::HoldTap(h), coord, delay, ctx, d).0.fault
            ==> {
            let r = m.do_action(Action::HoldTap(h), coord, delay, ctx, d).0;
            &&& r.tapdance is None
            &&& r.waiting matches Some(w) && w.coord == coord && w.timeout == h.timeout
        },
{
    if h.tap_hold_interval == 0 && !m.do_action(Action::HoldTap(h), coord, delay, ctx, d).0.fault {
        let d1 = (d - 1) as nat;
        assert(d > 0 && !m.fault && m.waiting is None);
        assert(m.do_action(Action::HoldTap(h), coord, delay, ctx, d) == m.do_hold_tap(
            h,
            coord,
            delay,
            ctx,
            d1,
        ));
        let (s, c0) = m.end_tapdance(ctx, d1);
        assert(!s.fault && s.tapdance is None);
    }
}

/// The states after a press of a key that toggles `value`: the toggle of `value` is taken
/// away where it is on, and added after the other states otherwise.
pub open spec fn toggled_states<T: Copy>(s: Seq<State<T>>, value: usize) -> Seq<State<T>> {
    let kept = remove_states(s, Removal::Toggle(value));
    if exists|i: int| 0 <= i < s.len() && removed_by(#[trigger] s[i], Removal::Toggle(value)) {
        kept
    } else {
        push_state(kept, State::ToggleLayerModifier { value })
    }
}

/// A press of a layer toggle key on an inactive layout is taken up by the next tick: that tick
/// toggles the layer, reports no custom event, and leaves the layout inactive.
pub proof fn lemma_toggle_press_then_tick<T: 'static + Copy, const C: usize, const R: usize, const L: usize>(
    m: LayoutModel<T, C, R, L>,
    c: (u8, u8),
    value: usize,
    decision: Option<WaitingAction>,
    d1: nat,
    d2: nat,
)
    requires
        !m.fault,
        !m.is_active(),
        m.press_as_action(c, m.current_layer()) == Action::<T>::ToggleLayer(value),
        d1 >= 1,
        d2 >= 3,
    ensures
        m.event(Event::Press(c.0, c.1), d1).tick(decision, d2).0.states == toggled_states(
            m.states,
            value,
        ),
        m.event(Event::Press(c.0, c.1), d1).tick(decision, d2).0.layers == m.layers,
        m.event(Event::Press(c.0, c.1), d1).tick(decision, d2).0.default_layer == m.default_layer,
        m.event(Event::Press(c.0, c.1), d1).tick(decision, d2).1 == CustomEvent::<T>::NoEvent,
        !m.event(Event::Press(c.0, c.1), d1).tick(decision, d2).0.fault,
        !m.event(Event::Press(c.0, c.1), d1).tick(decision, d2).0.is_active(),
{
    let s = Stacked { event: Event::Press(c.0, c.1), since: 0 };
    let m1 = m.event(Event::Press(c.0, c.1), d1);
    assert(m1.stacked == seq![s]);
    let st = ticked_stack(m1.stacked);
    assert(st.len() == 1);
    let p1 = LayoutModel {
        stacked: st,
        tracker: TapHoldTracker { timeout: dec16(m1.tracker.timeout), ..m1.tracker },
        ..m1
    };
    assert(p1.sequence_steps(0) == p1);
    let (pre, c0) = m1.tick_pre(d2);
    assert(pre == p1);
    let q = LayoutModel { stacked: pre.stacked.drop_first(), ..pre };
    assert(q.stacked.len() == 0);
    assert(q.press_as_action(c, q.current_layer()) == Action::<T>::ToggleLayer(value));
}

/// Pressing a layer toggle key on an inactive layout, where its layer is off, makes that layer
/// the current one; pressing the key again (found on that layer) switches the layer off and
/// restores the states as they were. Each press is taken up by the tick after it.
pub proof fn lemma_toggle_twice_through_ticks<T: 'static + Copy, const C: usize, const R: usize, const L: usize>(
    m: LayoutModel<T, C, R, L>,
    c: (u8, u8),
    value: usize,
    dec1: Option<WaitingAction>,
    dec2: Option<WaitingAction>,
    d1: nat,
    d2: nat,
    d3: nat,
    d4: nat,
)
    requires
        !m.fault,
        !m.is_active(),
        m.states.len() < states_cap(),
        forall|i: int| 0 <= i < m.states.len() ==> !removed_by(#[trigger] m.states[i], Removal::Toggle(value)),
        m.press_as_action(c, m.current_layer()) == Action::<T>::ToggleLayer(value),
        m.press_as_action(c, value) == Action::<T>::ToggleLayer(value),
        d1 >= 1,
        d2 >= 3,
        d3 >= 1,
        d4 >= 3,
    ensures
        m.event(Event::Press(c.0, c.1), d1).tick(dec1, d2).0.current_layer() == value,
        m.event(Event::Press(c.0, c.1), d1).tick(dec1, d2).0.event(Event::Press(c.0, c.1), d3).tick(
            dec2,
            d4,
        ).0.states == m.states,
{
    lemma_toggle_press_then_tick(m, c, value, dec1, d1, d2);
    let a = m.event(Event::Press(c.0, c.1), d1).tick(dec1, d2).0;
    lemma_remove_nothing(m.states, Removal::Toggle(value));
    let s1 = m.states.push(State::ToggleLayerModifier { value });
    assert(a.states == s1);
    assert(s1.last() == State::<T>::ToggleLayerModifier { value });
    assert(a.current_layer() == value);
    assert(a.press_as_action(c, a.current_layer()) == Action::<T>::ToggleLayer(value));
    lemma_toggle_press_then_tick(a, c, value, dec2, d3, d4);
    assert(s1.drop_last() =~= m.states);
    assert(removed_by(s1[s1.len() - 1], Removal::Toggle(value)));
    assert(remove_states(s1, Removal::Toggle(value)) == m.states);
}

/// Whether every byte of `s` is an ASCII digit.
pub open spec fn all_digits(s: Seq<u8>) -> bool {
    forall|i: int| 0 <= i < s.len() ==> 48 <= #[trigger] s[i] <= 57
}

/// The number that the ASCII digits `s` write in decimal, most significant digit first.
pub open spec fn decimal_value(s: Seq<u8>) -> nat
    decreases s.len(),
{
    if s.len() == 0 {
        0
    } else {
        10 * decimal_value(s.drop_last()) + (s.last() - 48) as nat
    }
}

/// A delay written with ASCII digits is read as the decimal number they write, or as
/// `u32::MAX` where that number does not fit in a `u32`; anything but digits is no delay.
pub proof fn lemma_parse_digits_value(s: Seq<u8>)
    ensures
        all_digits(s) ==> parse_digits(s) == Some(
            if decimal_value(s) <= u32::MAX {
                decimal_value(s) as u32
            } else {
                u32::MAX
            },
        ),
        !all_digits(s) ==> parse_digits(s) is None,
    decreases s.len(),
{
    if s.len() > 0 {
        let p = s.drop_last();
        lemma_parse_digits_value(p);
        if all_digits(s) {
            assert(all_digits(p)) by {
                assert forall|i: int| 0 <= i < p.len() implies 48 <= #[trigger] p[i] <= 57 by {
                    assert(p[i] == s[i]);
                }
            }
            assert(48 <= s[s.len() - 1] <= 57);
        } else {
            let k = choose|k: int| 0 <= k < s.len() && !(48 <= #[trigger] s[k] <= 57);
            if k < s.len() - 1 {
                assert(p[k] == s[k]);
                assert(!all_digits(p));
            }
        }
    }
}

/// Writing one more digit after a delay multiplies it by ten and adds the digit, while the
/// result fits in a `u32`.
pub proof fn lemma_parse_digits_append(s: Seq<u8>, d: u8)
    requires
        48 <= d <= 57,
        parse_digits(s) is Some,
        parse_digits(s)->Some_0 * 10 + (d - 48) <= u32::MAX,
    ensures
        parse_digits(s.push(d)) == Some((parse_digits(s)->Some_0 * 10 + (d - 48)) as u32),
{
    assert(s.push(d).drop_last() =~= s);
}

proof fn lemma_find_bar_after_digits(x: Seq<u8>, k: int, i: int)
    requires
        0 <= i <= k < x.len(),
        x[k] == 124,
        forall|j: int| 0 <= j < k ==> 48 <= #[trigger] x[j] <= 57,
    ensures
        find_byte(x, 124, i) == Some(k),
    decreases k - i,
{
    if i < k {
        lemma_find_bar_after_digits(x, k, i + 1);
    }
}

proof fn lemma_leading_digit_positive(s: Seq<u8>)
    requires
        all_digits(s),
        s.len() > 0,
        s[0] != 48,
    ensures
        decimal_value(s) > 0,
    decreases s.len(),
{
    if s.len() > 1 {
        let p = s.drop_last();
        assert(p[0] == s[0]);
        assert(all_digits(p)) by {
            assert forall|i: int| 0 <= i < p.len() implies 48 <= #[trigger] p[i] <= 57 by {
                assert(p[i] == s[i]);
            }
        }
        lemma_leading_digit_positive(p);
    } else {
        assert(48 <= s[0] <= 57);
    }
}

impl<T: 'static + Copy, const C: usize, const R: usize, const L: usize> LayoutModel<T, C, R, L> {
    /// A `Delay(n)` step of a sequence (the bytes 1 and 4, the decimal digits of `n`, then
    /// `'|'`) makes the sequence wait `n - 1` more ticks before its next step, which follows
    /// the `'|'`; it presses and releases no key.
    pub proof fn lemma_delay_step(self, sq: SequenceModel, digits: Seq<u8>, rest: Seq<u8>)
        requires
            all_digits(digits),
            digits.len() > 0,
            digits[0] != 48,
            decimal_value(digits) <= u32::MAX,
            sq.bytes == seq![1u8, 4u8] + digits + seq![124u8] + rest,
        ensures
            self.sequence_bytes(sq).0 == self,
            self.sequence_bytes(sq).1.delay == decimal_value(digits) - 1,
            self.sequence_bytes(sq).1.bytes == rest,
            self.sequence_bytes(sq).1.tap_in_progress == sq.tap_in_progress,
            self.sequence_bytes(sq).1.ascii_in_progress == sq.ascii_in_progress,
    {
        let b = sq.bytes;
        let n = b.len() as int;
        let x = b.subrange(2, n);
        let k = digits.len() as int;
        assert(x =~= digits + seq![124u8] + rest);
        assert(x[k] == 124);
        assert forall|j: int| 0 <= j < k implies 48 <= #[trigger] x[j] <= 57 by {
            assert(x[j] == digits[j]);
        }
        lemma_find_bar_after_digits(x, k, 0);
        assert(x.subrange(0, k) =~= digits);
        lemma_parse_digits_value(digits);
        lemma_leading_digit_positive(digits);
        assert(x[0] == digits[0]);
        assert(b.subrange(3 + k, n) =~= rest);
    }
}

/// A press of a key whose action is `DefaultLayer(value)`, on an inactive layout, is taken up
/// by the next tick: that tick makes `value` the default layer when the layout has such a
/// layer (and keeps the default layer otherwise), changes no state, and reports no custom
/// event. With no layer key held, `value` is then the current layer, the one later presses
/// are looked up on.
pub proof fn lemma_default_layer_press_then_tick<T: 'static + Copy, const C: usize, const R: usize, const L: usize>(
    m: LayoutModel<T, C, R, L>,
    c: (u8, u8),
    value: usize,
    decision: Option<WaitingAction>,
    d1: nat,
    d2: nat,
)
    requires
        !m.fault,
        !m.is_active(),
        m.press_as_action(c, m.current_layer()) == Action::<T>::DefaultLayer(value),
        d1 >= 1,
        d2 >= 3,
    ensures
        m.event(Event::Press(c.0, c.1), d1).tick(decision, d2).0.default_layer == (if value < L {
            value
        } else {
            m.default_layer
        }),
        m.event(Event::Press(c.0, c.1), d1).tick(decision, d2).0.states == m.states,
        m.event(Event::Press(c.0, c.1), d1).tick(decision, d2).0.layers == m.layers,
        value < L && last_layer(m.states) is None ==> m.event(Event::Press(c.0, c.1), d1).tick(
            decision,
            d2,
        ).0.current_layer() == value,
        m.event(Event::Press(c.0, c.1), d1).tick(decision, d2).1 == CustomEvent::<T>::NoEvent,
        !m.event(Event::Press(c.0, c.1), d1).tick(decision, d2).0.fault,
        !m.event(Event::Press(c.0, c.1), d1).tick(decision, d2).0.is_active(),
{
    let s = Stacked { event: Event::Press(c.0, c.1), since: 0 };
    let m1 = m.event(Event::Press(c.0, c.1), d1);
    assert(m1.stacked == seq![s]);
    let st = ticked_stack(m1.stacked);
    assert(st.len() == 1);
    let p1 = LayoutModel {
        stacked: st,
        tracker: TapHoldTracker { timeout: dec16(m1.tracker.timeout), ..m1.tracker },
        ..m1
    };
    assert(p1.sequence_steps(0) == p1);
    let (pre, c0) = m1.tick_pre(d2);
    assert(pre == p1);
    let q = LayoutModel { stacked: pre.stacked.drop_first(), ..pre };
    assert(q.stacked.len() == 0);
    assert(q.press_as_action(c, q.current_layer()) == Action::<T>::DefaultLayer(value));
}

/// Doing the action `DefaultLayer(value)` makes `value` the default layer, when the layout has
/// such a layer, and changes no state; with no layer key held, `value` is then the current
/// layer.
pub proof fn lemma_default_layer_action<T: 'static + Copy, const C: usize, const R: usize, const L: usize>(
    m: LayoutModel<T, C, R, L>,
    value: usize,
    coord: (u8, u8),
    delay: u16,
    ctx: ActionContext,
    d: nat,
)
    requires
        !m.fault,
        m.waiting is None,
        m.tapdance is None,
        value < L,
        d >= 2,
    ensures
        m.do_action(Action::DefaultLayer(value), coord, delay, ctx, d).0.default_layer == value,
        m.do_action(Action::DefaultLayer(value), coord, delay, ctx, d).0.states == m.states,
        last_layer(m.states) is None ==> m.do_action(
            Action::DefaultLayer(value),
            coord,
            delay,
            ctx,
            d,
        ).0.current_layer() == value,
        !m.do_action(Action::DefaultLayer(value), coord, delay, ctx, d).0.fault,
{
}

proof fn lemma_push_normal_keys<T: Copy>(states: Seq<State<T>>, kcs: Seq<KeyCode>, coord: (u8, u8))
    requires
        states.len() + kcs.len() <= states_cap(),
    ensures
        push_normal_keys(states, kcs, coord).len() == states.len() + kcs.len(),
        state_keycodes(push_normal_keys(states, kcs, coord)) == state_keycodes(states) + kcs,
    decreases kcs.len(),
{
    if kcs.len() > 0 {
        lemma_push_normal_keys(states, kcs.drop_last(), coord);
        let x = push_normal_keys(states, kcs.drop_last(), coord);
        let y = x.push(State::<T>::NormalKey { keycode: kcs.last(), coord });
        assert(y.drop_last() =~= x);
        assert((state_keycodes(states) + kcs.drop_last()).push(kcs.last()) =~= state_keycodes(states)
            + kcs);
    } else {
        assert(state_keycodes(states) + kcs =~= state_keycodes(states));
    }
}

/// Doing `MultipleKeyCodes(v)` sends each key code of `v`, in order, after the key codes
/// already sent (while there is room for their states), and reports no custom event.
pub proof fn lemma_multiple_key_codes_action<T: 'static + Copy, const C: usize, const R: usize, const L: usize>(
    m: LayoutModel<T, C, R, L>,
    v: &'static &'static [KeyCode],
    coord: (u8, u8),
    delay: u16,
    ctx: ActionContext,
    d: nat,
)
    requires
        !m.fault,
        m.waiting is None,
        m.oneshot is None,
        m.tapdance is None,
        m.states.len() + (*v)@.len() <= states_cap(),
        d >= 2,
    ensures
        state_keycodes(m.do_action(Action::MultipleKeyCodes(v), coord, delay, ctx, d).0.states)
            == state_keycodes(m.states) + (*v)@,
        m.do_action(Action::MultipleKeyCodes(v), coord, delay, ctx, d).1 == CustomEvent::<T>::NoEvent,
        !m.do_action(Action::MultipleKeyCodes(v), coord, delay, ctx, d).0.fault,
{
    lemma_push_normal_keys(m.states, (*v)@, coord);
}

/// Doing `Custom(value)` reports the press of `value` and keeps a state for it (while there is
/// room), which its key's release takes away; no key code is sent for it.
pub proof fn lemma_custom_action<T: 'static + Copy, const C: usize, const R: usize, const L: usize>(
    m: LayoutModel<T, C, R, L>,
    value: T,
    coord: (u8, u8),
    delay: u16,
    ctx: ActionContext,
    d: nat,
)
    requires
        !m.fault,
        m.waiting is None,
        m.oneshot is None,
        m.tapdance is None,
        m.states.len() < states_cap(),
        d >= 2,
    ensures
        m.do_action(Action::Custom(value), coord, delay, ctx, d).1 == CustomEvent::Press(value),
        m.do_action(Action::Custom(value), coord, delay, ctx, d).0.states == m.states.push(
            State::Custom { value, coord },
        ),
        state_keycodes(m.do_action(Action::Custom(value), coord, delay, ctx, d).0.states)
            == state_keycodes(m.states),
        !m.do_action(Action::Custom(value), coord, delay, ctx, d).0.fault,
{
    let s2 = m.states.push(State::Custom { value, coord });
    assert(s2.drop_last() =~= m.states);
}

/// Doing `NoOp` or `Trans` changes no state and no layer, and reports no custom event.
pub proof fn lemma_no_op_action<T: 'static + Copy, const C: usize, const R: usize, const L: usize>(
    m: LayoutModel<T, C, R, L>,
    trans: bool,
    coord: (u8, u8),
    delay: u16,
    ctx: ActionContext,
    d: nat,
)
    requires
        !m.fault,
        m.waiting is None,
        m.oneshot is None,
        m.tapdance is None,
        d >= 2,
    ensures
        ({
            let r = m.do_action(
                if trans {
                    Action::Trans
                } else {
                    Action::NoOp
                },
                coord,
                delay,
                ctx,
                d,
            );
            &&& r.0.states == m.states
            &&& r.0.default_layer == m.default_layer
            &&& r.0.sequences == m.sequences
            &&& r.1 == CustomEvent::<T>::NoEvent
            &&& !r.0.fault
        }),
{
}

/// Removing the states that a criterion picks keeps exactly the others.
pub proof fn lemma_remove_states_keeps<T: Copy>(s: Seq<State<T>>, r: Removal)
    ensures
        forall|x: State<T>| #[trigger] remove_states(s, r).contains(x) <==> (s.contains(x)
            && !removed_by(x, r)),
    decreases s.len(),
{
    if s.len() > 0 {
        let p = s.drop_last();
        lemma_remove_states_keeps(p, r);
        let rest = remove_states(p, r);
        assert forall|x: State<T>| #[trigger] remove_states(s, r).contains(x) <==> (s.contains(x)
            && !removed_by(x, r)) by {
            if s.contains(x) {
                let i = choose|i: int| 0 <= i < s.len() && s[i] == x;
                if i < s.len() - 1 {
                    assert(p[i] == x);
                }
            }
            if p.contains(x) {
                let i = choose|i: int| 0 <= i < p.len() && p[i] == x;
                assert(s[i] == x);
            }
            if !removed_by(s.last(), r) {
                let q = rest.push(s.last());
                assert(q[q.len() - 1] == s.last());
                if q.contains(x) {
                    let i = choose|i: int| 0 <= i < q.len() && q[i] == x;
                    if i < rest.len() {
                        assert(rest[i] == x);
                    }
                }
                if rest.contains(x) {
                    let i = choose|i: int| 0 <= i < rest.len() && rest[i] == x;
                    assert(q[i] == x);
                }
            }
        }
    }
}

impl<T: 'static + Copy, const C: usize, const R: usize, const L: usize> LayoutModel<T, C, R, L> {
    /// The key steps of a sequence. `Press(k)` (the bytes 1, 2 and the HID id of `k`) adds the
    /// key code `k` after the keys already sent (while there is room); `Release(k)` (1, 3, the
    /// id) takes away every key `k` that a sequence pressed and keeps every other state. Both
    /// then go on with the bytes after the step.
    pub proof fn lemma_sequence_press_release(self, sq: SequenceModel, k: KeyCode, rest: Seq<u8>)
        requires
            self.states.len() < states_cap(),
        ensures
            ({
                let sp = SequenceModel { bytes: seq![1u8, 2u8, spec_code(k)] + rest, ..sq };
                &&& self.sequence_bytes(sp).0.states == self.states.push(State::FakeKey { keycode: k })
                &&& state_keycodes(self.sequence_bytes(sp).0.states) == state_keycodes(self.states).push(k)
                &&& self.sequence_bytes(sp).1.bytes == rest
            }),
            ({
                let sr = SequenceModel { bytes: seq![1u8, 3u8, spec_code(k)] + rest, ..sq };
                &&& forall|x: State<T>| #[trigger] self.sequence_bytes(sr).0.states.contains(x) <==> (
                    self.states.contains(x) && x != State::<T>::FakeKey { keycode: k })
                &&& self.sequence_bytes(sr).1.bytes == rest
            }),
    {
        lemma_code_roundtrip(k);
        let sp = SequenceModel { bytes: seq![1u8, 2u8, spec_code(k)] + rest, ..sq };
        let sr = SequenceModel { bytes: seq![1u8, 3u8, spec_code(k)] + rest, ..sq };
        assert(sp.bytes.subrange(3, sp.bytes.len() as int) =~= rest);
        assert(sr.bytes.subrange(3, sr.bytes.len() as int) =~= rest);
        let st = self.states.push(State::FakeKey { keycode: k });
        assert(st.drop_last() =~= self.states);
        lemma_remove_states_keeps(self.states, Removal::Fake(k));
    }

    /// `Tap(k)` (the bytes 1, 1 and the HID id of `k`) takes two steps: the first presses `k`
    /// and stays on the step, the second releases every key `k` that a sequence pressed and
    /// goes on with the bytes after the step.
    pub proof fn lemma_sequence_tap(self, sq: SequenceModel, k: KeyCode, rest: Seq<u8>)
        requires
            self.states.len() < states_cap(),
            !sq.tap_in_progress,
            sq.bytes == seq![1u8, 1u8, spec_code(k)] + rest,
        ensures
            self.sequence_bytes(sq).0.states == self.states.push(State::FakeKey { keycode: k }),
            self.sequence_bytes(sq).1.bytes == sq.bytes,
            ({
                let (m1, s1) = self.sequence_bytes(sq);
                &&& forall|x: State<T>| #[trigger] m1.sequence_bytes(s1).0.states.contains(x) <==> (
                    self.states.contains(x) && x != State::<T>::FakeKey { keycode: k })
                &&& m1.sequence_bytes(s1).1.bytes == rest
                &&& !m1.sequence_bytes(s1).1.tap_in_progress
            }),
    {
        lemma_code_roundtrip(k);
        assert(sq.bytes.subrange(3, sq.bytes.len() as int) =~= rest);
        let st = self.states.push(State::FakeKey { keycode: k });
        lemma_remove_states_keeps(st, Removal::Fake(k));
        assert forall|x: State<T>| #[trigger] st.contains(x) <==> (self.states.contains(x) || x
            == State::<T>::FakeKey { keycode: k }) by {
            if st.contains(x) {
                let i = choose|i: int| 0 <= i < st.len() && st[i] == x;
                if i < self.states.len() {
                    assert(self.states[i] == x);
                }
            }
            if self.states.contains(x) {
                let i = choose|i: int| 0 <= i < self.states.len() && self.states[i] == x;
                assert(st[i] == x);
            }
            assert(st[st.len() - 1] == State::<T>::FakeKey { keycode: k });
        }
    }
}

impl<T: 'static + Copy, const C: usize, const R: usize, const L: usize> LayoutModel<T, C, R, L> {
    /// Typing an ASCII byte `c` in a sequence takes two steps: the first presses the key that
    /// types `c`, after shift where `c` needs it (while there is room), and stays on the byte;
    /// the second releases that key and shift and goes on with the next byte.
    pub proof fn lemma_sequence_ascii(self, sq: SequenceModel, c: u8, rest: Seq<u8>)
        requires
            self.states.len() + 2 <= states_cap(),
            !sq.ascii_in_progress,
            c < 128,
            c != 1,
            sq.bytes == seq![c] + rest,
        ensures
            state_keycodes(self.sequence_bytes(sq).0.states) == state_keycodes(self.states) + (
            if spec_shift_required(c) {
                seq![KeyCode::LShift, spec_ascii_keycode(c)]
            } else {
                seq![spec_ascii_keycode(c)]
            }),
            self.sequence_bytes(sq).1.bytes == sq.bytes,
            ({
                let (m1, s1) = self.sequence_bytes(sq);
                &&& forall|x: State<T>| #[trigger] m1.sequence_bytes(s1).0.states.contains(x) ==> !(
                    x == State::<T>::FakeKey { keycode: spec_ascii_keycode(c) })
                &&& m1.sequence_bytes(s1).1.bytes == rest
            }),
    {
        let k = spec_ascii_keycode(c);
        assert(sq.bytes[0] == c);
        assert(sq.bytes.subrange(1, sq.bytes.len() as int) =~= rest);
        let s1 = if spec_shift_required(c) {
            self.states.push(State::<T>::FakeKey { keycode: KeyCode::LShift })
        } else {
            self.states
        };
        let st = s1.push(State::<T>::FakeKey { keycode: k });
        assert(st.drop_last() =~= s1);
        assert(state_keycodes(st) == state_keycodes(s1).push(k));
        if spec_shift_required(c) {
            assert(s1.drop_last() =~= self.states);
            assert(state_keycodes(s1) == state_keycodes(self.states).push(KeyCode::LShift));
            assert(state_keycodes(self.states).push(KeyCode::LShift).push(k) =~= state_keycodes(
                self.states,
            ) + seq![KeyCode::LShift, k]);
        } else {
            assert(state_keycodes(self.states).push(k) =~= state_keycodes(self.states) + seq![k]);
        }
        let (m1, sq1) = self.sequence_bytes(sq);
        assert(m1.states == st);
        let mk = if spec_shift_required(c) { Some(KeyCode::LShift) } else { None };
        lemma_remove_states_keeps(st, Removal::FakeWithMod(k, mk));
    }
}

} // verus!
