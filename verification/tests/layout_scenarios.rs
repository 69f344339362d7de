//! Scenarios of the layout state machine: hold-tap, layers, one-shot, tap-dance and sequences.

use rumcake::action::Action;
use rumcake::action::Action::{HoldTap, MultipleActions, NoOp, OneShot, Sequence, TapDance, Trans};
use rumcake::action::{
    k, l, m, t, CustomHandler, HoldTapAction, HoldTapConfig, OneShotAction, OneShotEndConfig,
    TapDanceAction, TapDanceConfig,
};
use rumcake::key_code::KeyCode;
use rumcake::key_code::KeyCode::{A, B, C, D, E, Enter, F, I, Kb0, Kb1, Kb2, Kb3, Kb4, Kb5, Kb6, Kb7, L, LAlt, LCtrl, LShift, M, N, O, P, Q, R, RAlt, S, Space, T, U, W, X, Y, Z};
use rumcake::layout::Event::{Press, Release};
use rumcake::layout::{CustomEvent, Layers, Layout, Stacked, WaitingAction};
use std::collections::BTreeSet;

fn leak<T>(value: T) -> &'static T {
    Box::leak(Box::new(value))
}

fn assert_keys(expected: &[KeyCode], keycodes: Vec<KeyCode>) {
    let expected: BTreeSet<KeyCode> = expected.iter().copied().collect();
    let tested: BTreeSet<KeyCode> = keycodes.into_iter().collect();
    assert_eq!(expected, tested);
}

#[test]
fn basic_hold_tap() {
    let layers: Layers<2, 1, 2> = [
        [[
            HoldTap(leak(HoldTapAction {
                timeout: 200,
                hold: l(1),
                tap: k(Space),
                config: HoldTapConfig::Default,
                tap_hold_interval: 0,
            })),
            HoldTap(leak(HoldTapAction {
                timeout: 200,
                hold: k(LCtrl),
                tap: k(Enter),
                config: HoldTapConfig::Default,
                tap_hold_interval: 0,
            })),
        ]],
        [[Trans, m(leak(leak([LCtrl, Enter]).as_slice()))]],
    ];
    let mut layout = Layout::new(layers);
    assert_eq!(CustomEvent::NoEvent, layout.tick());
    assert!(!layout.is_active());
    assert_keys(&[], layout.keycodes());
    layout.event(Press(0, 1));
    assert_eq!(CustomEvent::NoEvent, layout.tick());
    assert!(layout.is_active());
    assert_keys(&[], layout.keycodes());
    layout.event(Press(0, 0));
    assert_eq!(CustomEvent::NoEvent, layout.tick());
    assert!(layout.is_active());
    assert_keys(&[], layout.keycodes());
    layout.event(Release(0, 0));
    for _ in 0..197 {
        assert_eq!(CustomEvent::NoEvent, layout.tick());
        assert!(layout.is_active());
        assert_keys(&[], layout.keycodes());
    }
    assert_eq!(CustomEvent::NoEvent, layout.tick());
    assert!(layout.is_active());
    assert_keys(&[], layout.keycodes());
    assert_eq!(CustomEvent::NoEvent, layout.tick());
    assert!(layout.is_active());
    assert_keys(&[LCtrl], layout.keycodes());
    assert_eq!(CustomEvent::NoEvent, layout.tick());
    assert!(layout.is_active());
    assert_keys(&[LCtrl], layout.keycodes());
    assert_eq!(CustomEvent::NoEvent, layout.tick());
    assert!(layout.is_active());
    assert_keys(&[LCtrl, Space], layout.keycodes());
    assert_eq!(CustomEvent::NoEvent, layout.tick());
    assert!(!layout.is_active());
    assert_keys(&[LCtrl], layout.keycodes());
    layout.event(Release(0, 1));
    assert_eq!(CustomEvent::NoEvent, layout.tick());
    assert!(!layout.is_active());
    assert_keys(&[], layout.keycodes());
}

#[test]
fn hold_tap_interleaved_timeout() {
    let layers: Layers<2, 1, 1> = [[[
        HoldTap(leak(HoldTapAction {
            timeout: 200,
            hold: k(LAlt),
            tap: k(Space),
            config: HoldTapConfig::Default,
            tap_hold_interval: 0,
        })),
        HoldTap(leak(HoldTapAction {
            timeout: 20,
            hold: k(LCtrl),
            tap: k(Enter),
            config: HoldTapConfig::Default,
            tap_hold_interval: 0,
        })),
    ]]];
    let mut layout = Layout::new(layers);
    assert_eq!(CustomEvent::NoEvent, layout.tick());
    assert!(!layout.is_active());
    assert_keys(&[], layout.keycodes());
    layout.event(Press(0, 0));
    assert_eq!(CustomEvent::NoEvent, layout.tick());
    assert!(layout.is_active());
    assert_keys(&[], layout.keycodes());
    layout.event(Press(0, 1));
    for _ in 0..15 {
        assert_eq!(CustomEvent::NoEvent, layout.tick());
        assert!(layout.is_active());
        assert_keys(&[], layout.keycodes());
    }
    layout.event(Release(0, 0));
    assert_eq!(CustomEvent::NoEvent, layout.tick());
    assert!(layout.is_active());
    assert_keys(&[Space], layout.keycodes());
    for _ in 0..10 {
        assert_eq!(CustomEvent::NoEvent, layout.tick());
        assert!(layout.is_active());
        assert_keys(&[Space], layout.keycodes());
    }
    layout.event(Release(0, 1));
    assert_eq!(CustomEvent::NoEvent, layout.tick());
    assert!(layout.is_active());
    assert_keys(&[Space, LCtrl], layout.keycodes());
    assert_eq!(CustomEvent::NoEvent, layout.tick());
    assert!(layout.is_active());
    assert_keys(&[LCtrl], layout.keycodes());
    assert_eq!(CustomEvent::NoEvent, layout.tick());
    assert!(!layout.is_active());
    assert_keys(&[], layout.keycodes());
    assert_eq!(CustomEvent::NoEvent, layout.tick());
    assert!(!layout.is_active());
    assert_keys(&[], layout.keycodes());
}

#[test]
fn hold_on_press() {
    let layers: Layers<2, 1, 1> = [[[
        HoldTap(leak(HoldTapAction {
            timeout: 200,
            hold: k(LAlt),
            tap: k(Space),
            config: HoldTapConfig::HoldOnOtherKeyPress,
            tap_hold_interval: 0,
        })),
        k(Enter),
    ]]];
    let mut layout = Layout::new(layers);

    // Press another key before timeout
    assert_eq!(CustomEvent::NoEvent, layout.tick());
    assert!(!layout.is_active());
    assert_keys(&[], layout.keycodes());
    layout.event(Press(0, 0));
    assert_eq!(CustomEvent::NoEvent, layout.tick());
    assert!(layout.is_active());
    assert_keys(&[], layout.keycodes());
    layout.event(Press(0, 1));
    assert_eq!(CustomEvent::NoEvent, layout.tick());
    assert!(layout.is_active());
    assert_keys(&[LAlt], layout.keycodes());
    assert_eq!(CustomEvent::NoEvent, layout.tick());
    assert!(!layout.is_active());
    assert_keys(&[LAlt, Enter], layout.keycodes());
    layout.event(Release(0, 0));
    assert_eq!(CustomEvent::NoEvent, layout.tick());
    assert!(!layout.is_active());
    assert_keys(&[Enter], layout.keycodes());
    layout.event(Release(0, 1));
    assert_eq!(CustomEvent::NoEvent, layout.tick());
    assert!(!layout.is_active());
    assert_keys(&[], layout.keycodes());
    assert_eq!(CustomEvent::NoEvent, layout.tick());
    assert!(!layout.is_active());
    assert_keys(&[], layout.keycodes());

    // Press another key after timeout
    assert_eq!(CustomEvent::NoEvent, layout.tick());
    assert!(!layout.is_active());
    assert_keys(&[], layout.keycodes());
    layout.event(Press(0, 0));
    for _ in 0..200 {
        assert_eq!(CustomEvent::NoEvent, layout.tick());
        assert!(layout.is_active());
        assert_keys(&[], layout.keycodes());
    }
    assert_eq!(CustomEvent::NoEvent, layout.tick());
    assert!(!layout.is_active());
    assert_keys(&[LAlt], layout.keycodes());
    layout.event(Press(0, 1));
    assert_eq!(CustomEvent::NoEvent, layout.tick());
    assert!(!layout.is_active());
    assert_keys(&[LAlt, Enter], layout.keycodes());
    layout.event(Release(0, 0));
    assert_eq!(CustomEvent::NoEvent, layout.tick());
    assert!(!layout.is_active());
    assert_keys(&[Enter], layout.keycodes());
    layout.event(Release(0, 1));
    assert_eq!(CustomEvent::NoEvent, layout.tick());
    assert!(!layout.is_active());
    assert_keys(&[], layout.keycodes());
    assert_eq!(CustomEvent::NoEvent, layout.tick());
    assert!(!layout.is_active());
    assert_keys(&[], layout.keycodes());
}

#[test]
fn permissive_hold() {
    let layers: Layers<2, 1, 1> = [[[
        HoldTap(leak(HoldTapAction {
            timeout: 200,
            hold: k(LAlt),
            tap: k(Space),
            config: HoldTapConfig::PermissiveHold,
            tap_hold_interval: 0,
        })),
        k(Enter),
    ]]];
    let mut layout = Layout::new(layers);

    // Press and release another key before timeout
    assert_eq!(CustomEvent::NoEvent, layout.tick());
    assert!(!layout.is_active());
    assert_keys(&[], layout.keycodes());
    layout.event(Press(0, 0));
    assert_eq!(CustomEvent::NoEvent, layout.tick());
    assert!(layout.is_active());
    assert_keys(&[], layout.keycodes());
    layout.event(Press(0, 1));
    assert_eq!(CustomEvent::NoEvent, layout.tick());
    assert!(layout.is_active());
    assert_keys(&[], layout.keycodes());
    layout.event(Release(0, 1));
    assert_eq!(CustomEvent::NoEvent, layout.tick());
    assert!(layout.is_active());
    assert_keys(&[LAlt], layout.keycodes());
    assert_eq!(CustomEvent::NoEvent, layout.tick());
    assert!(layout.is_active());
    assert_keys(&[LAlt, Enter], layout.keycodes());
    assert_eq!(CustomEvent::NoEvent, layout.tick());
    assert!(!layout.is_active());
    assert_keys(&[LAlt], layout.keycodes());
    assert_eq!(CustomEvent::NoEvent, layout.tick());
    assert!(!layout.is_active());
    assert_keys(&[LAlt], layout.keycodes());
    layout.event(Release(0, 0));
    assert_eq!(CustomEvent::NoEvent, layout.tick());
    assert!(!layout.is_active());
    assert_keys(&[], layout.keycodes());
    assert_eq!(CustomEvent::NoEvent, layout.tick());
    assert!(!layout.is_active());
    assert_keys(&[], layout.keycodes());
}

#[test]
fn multiple_actions() {
    let layers: Layers<2, 1, 2> = [
        [[MultipleActions(leak(leak([l(1), k(LShift)]).as_slice())), k(F)]],
        [[Trans, k(E)]],
    ];
    let mut layout = Layout::new(layers);
    assert_eq!(CustomEvent::NoEvent, layout.tick());
    assert!(!layout.is_active());
    assert_keys(&[], layout.keycodes());
    layout.event(Press(0, 0));
    assert_eq!(CustomEvent::NoEvent, layout.tick());
    assert!(!layout.is_active());
    assert_keys(&[LShift], layout.keycodes());
    layout.event(Press(0, 1));
    assert_eq!(CustomEvent::NoEvent, layout.tick());
    assert!(!layout.is_active());
    assert_keys(&[LShift, E], layout.keycodes());
    layout.event(Release(0, 1));
    layout.event(Release(0, 0));
    assert_eq!(CustomEvent::NoEvent, layout.tick());
    assert!(layout.is_active());
    assert_keys(&[LShift], layout.keycodes());
    assert_eq!(CustomEvent::NoEvent, layout.tick());
    assert!(!layout.is_active());
    assert_keys(&[], layout.keycodes());
}

#[test]
fn custom() {
    let layers: Layers<1, 1, 1, u8> = [[[Action::Custom(42)]]];
    let mut layout = Layout::new(layers);
    assert_eq!(CustomEvent::NoEvent, layout.tick());
    assert!(!layout.is_active());
    assert_keys(&[], layout.keycodes());

    // Custom event
    layout.event(Press(0, 0));
    assert_eq!(CustomEvent::Press(42), layout.tick());
    assert!(!layout.is_active());
    assert_keys(&[], layout.keycodes());

    // nothing more
    assert_eq!(CustomEvent::NoEvent, layout.tick());
    assert!(!layout.is_active());
    assert_keys(&[], layout.keycodes());

    // release custom
    layout.event(Release(0, 0));
    assert_eq!(CustomEvent::Release(42), layout.tick());
    assert!(!layout.is_active());
    assert_keys(&[], layout.keycodes());
}

#[test]
fn multiple_layers() {
    let layers: Layers<2, 1, 4> = [
        [[l(1), l(2)]],
        [[k(A), l(3)]],
        [[l(0), k(B)]],
        [[k(C), k(D)]],
    ];
    let mut layout = Layout::new(layers);
    assert_eq!(CustomEvent::NoEvent, layout.tick());
    assert!(!layout.is_active());
    assert_eq!(0, layout.current_layer());
    assert_keys(&[], layout.keycodes());

    // press L1
    layout.event(Press(0, 0));
    assert_eq!(CustomEvent::NoEvent, layout.tick());
    assert!(!layout.is_active());
    assert_eq!(1, layout.current_layer());
    assert_keys(&[], layout.keycodes());
    // press L3 on L1
    layout.event(Press(0, 1));
    assert_eq!(CustomEvent::NoEvent, layout.tick());
    assert!(!layout.is_active());
    assert_eq!(3, layout.current_layer());
    assert_keys(&[], layout.keycodes());
    // release L1, still on l3
    layout.event(Release(0, 0));
    assert_eq!(CustomEvent::NoEvent, layout.tick());
    assert!(!layout.is_active());
    assert_eq!(3, layout.current_layer());
    assert_keys(&[], layout.keycodes());
    // press and release C on L3
    layout.event(Press(0, 0));
    assert_eq!(CustomEvent::NoEvent, layout.tick());
    assert!(!layout.is_active());
    assert_keys(&[C], layout.keycodes());
    layout.event(Release(0, 0));
    assert_eq!(CustomEvent::NoEvent, layout.tick());
    assert!(!layout.is_active());
    assert_keys(&[], layout.keycodes());
    // release L3, back to L0
    layout.event(Release(0, 1));
    assert_eq!(CustomEvent::NoEvent, layout.tick());
    assert!(!layout.is_active());
    assert_eq!(0, layout.current_layer());
    assert_keys(&[], layout.keycodes());

    // back to empty, going to L2
    layout.event(Press(0, 1));
    assert_eq!(CustomEvent::NoEvent, layout.tick());
    assert!(!layout.is_active());
    assert_eq!(2, layout.current_layer());
    assert_keys(&[], layout.keycodes());
    // and press the L0 key on L2
    layout.event(Press(0, 0));
    assert_eq!(CustomEvent::NoEvent, layout.tick());
    assert!(!layout.is_active());
    assert_eq!(0, layout.current_layer());
    assert_keys(&[], layout.keycodes());
    // release the L0, back to L2
    layout.event(Release(0, 0));
    assert_eq!(CustomEvent::NoEvent, layout.tick());
    assert!(!layout.is_active());
    assert_eq!(2, layout.current_layer());
    assert_keys(&[], layout.keycodes());
    // release the L2, back to L0
    layout.event(Release(0, 1));
    assert_eq!(CustomEvent::NoEvent, layout.tick());
    assert!(!layout.is_active());
    assert_eq!(0, layout.current_layer());
    assert_keys(&[], layout.keycodes());
}

#[test]
fn custom_handler() {
    fn always_tap(_: &[Stacked]) -> Option<WaitingAction> {
        Some(WaitingAction::Tap)
    }
    fn always_hold(_: &[Stacked]) -> Option<WaitingAction> {
        Some(WaitingAction::Hold)
    }
    fn always_nop(_: &[Stacked]) -> Option<WaitingAction> {
        Some(WaitingAction::NoOp)
    }
    fn always_none(_: &[Stacked]) -> Option<WaitingAction> {
        None
    }
    let layers: Layers<4, 1, 1> = [[[
        HoldTap(leak(HoldTapAction {
            timeout: 200,
            hold: k(Kb1),
            tap: k(Kb0),
            config: HoldTapConfig::Custom(CustomHandler(always_tap)),
            tap_hold_interval: 0,
        })),
        HoldTap(leak(HoldTapAction {
            timeout: 200,
            hold: k(Kb3),
            tap: k(Kb2),
            config: HoldTapConfig::Custom(CustomHandler(always_hold)),
            tap_hold_interval: 0,
        })),
        HoldTap(leak(HoldTapAction {
            timeout: 200,
            hold: k(Kb5),
            tap: k(Kb4),
            config: HoldTapConfig::Custom(CustomHandler(always_nop)),
            tap_hold_interval: 0,
        })),
        HoldTap(leak(HoldTapAction {
            timeout: 200,
            hold: k(Kb7),
            tap: k(Kb6),
            config: HoldTapConfig::Custom(CustomHandler(always_none)),
            tap_hold_interval: 0,
        })),
    ]]];
    let mut layout = Layout::new(layers);
    assert_eq!(CustomEvent::NoEvent, layout.tick());
    assert!(!layout.is_active());
    assert_keys(&[], layout.keycodes());

    // Custom handler always taps
    layout.event(Press(0, 0));
    assert_eq!(CustomEvent::NoEvent, layout.tick());
    assert!(layout.is_active());
    assert_keys(&[], layout.keycodes());
    assert_eq!(CustomEvent::NoEvent, layout.tick());
    assert!(!layout.is_active());
    assert_keys(&[Kb0], layout.keycodes());

    // nothing more
    layout.event(Release(0, 0));
    assert_eq!(CustomEvent::NoEvent, layout.tick());
    assert!(!layout.is_active());
    assert_keys(&[], layout.keycodes());

    // Custom handler always holds
    layout.event(Press(0, 1));
    assert_eq!(CustomEvent::NoEvent, layout.tick());
    assert!(layout.is_active());
    assert_keys(&[], layout.keycodes());
    assert_eq!(CustomEvent::NoEvent, layout.tick());
    assert!(!layout.is_active());
    assert_keys(&[Kb3], layout.keycodes());

    // nothing more
    layout.event(Release(0, 1));
    assert_eq!(CustomEvent::NoEvent, layout.tick());
    assert!(!layout.is_active());
    assert_keys(&[], layout.keycodes());

    // Custom handler always prevents any event
    layout.event(Press(0, 2));
    assert_eq!(CustomEvent::NoEvent, layout.tick());
    assert!(layout.is_active());
    assert_keys(&[], layout.keycodes());

    // even timeout does not trigger
    for _ in 0..200 {
        assert_eq!(CustomEvent::NoEvent, layout.tick());
        assert!(!layout.is_active());
        assert_keys(&[], layout.keycodes());
    }

    assert_eq!(CustomEvent::NoEvent, layout.tick());
    assert!(!layout.is_active());
    assert_keys(&[], layout.keycodes());

    // nothing more
    layout.event(Release(0, 2));
    assert_eq!(CustomEvent::NoEvent, layout.tick());
    assert!(!layout.is_active());
    assert_keys(&[], layout.keycodes());

    // Custom handler timeout fallback
    layout.event(Press(0, 3));
    assert_eq!(CustomEvent::NoEvent, layout.tick());
    assert!(layout.is_active());
    assert_keys(&[], layout.keycodes());

    for _ in 0..199 {
        assert_eq!(CustomEvent::NoEvent, layout.tick());
        assert!(layout.is_active());
        assert_keys(&[], layout.keycodes());
    }

    assert_eq!(CustomEvent::NoEvent, layout.tick());
    assert!(!layout.is_active());
    assert_keys(&[Kb7], layout.keycodes());

    layout.event(Release(0, 3));
    assert_eq!(CustomEvent::NoEvent, layout.tick());
    assert!(!layout.is_active());
    assert_keys(&[], layout.keycodes());
}

#[test]
fn tap_hold_interval() {
    let layers: Layers<2, 1, 1> = [[[
        HoldTap(leak(HoldTapAction {
            timeout: 200,
            hold: k(LAlt),
            tap: k(Space),
            config: HoldTapConfig::Default,
            tap_hold_interval: 200,
        })),
        k(Enter),
    ]]];
    let mut layout = Layout::new(layers);

    // press and release the HT key, expect tap action
    assert_eq!(CustomEvent::NoEvent, layout.tick());
    assert!(!layout.is_active());
    assert_keys(&[], layout.keycodes());
    layout.event(Press(0, 0));
    assert_eq!(CustomEvent::NoEvent, layout.tick());
    assert!(layout.is_active());
    assert_keys(&[], layout.keycodes());
    layout.event(Release(0, 0));
    assert_eq!(CustomEvent::NoEvent, layout.tick());
    assert!(layout.is_active());
    assert_keys(&[Space], layout.keycodes());
    assert_eq!(CustomEvent::NoEvent, layout.tick());
    assert!(layout.is_active());
    assert_keys(&[], layout.keycodes());

    // press again within tap_hold_interval, tap action should be in keycode immediately
    layout.event(Press(0, 0));
    assert_eq!(CustomEvent::NoEvent, layout.tick());
    assert!(!layout.is_active());
    assert_keys(&[Space], layout.keycodes());

    // tap action should continue to be in keycodes even after timeout
    for _ in 0..300 {
        assert_eq!(CustomEvent::NoEvent, layout.tick());
        assert!(!layout.is_active());
        assert_keys(&[Space], layout.keycodes());
    }
    layout.event(Release(0, 0));
    assert_eq!(CustomEvent::NoEvent, layout.tick());
    assert!(!layout.is_active());
    assert_keys(&[], layout.keycodes());

    // Press again. This is outside the tap_hold_interval window, so should result in hold
    // action.
    layout.event(Press(0, 0));
    for _ in 0..200 {
        assert_eq!(CustomEvent::NoEvent, layout.tick());
        assert!(layout.is_active());
        assert_keys(&[], layout.keycodes());
    }
    assert_eq!(CustomEvent::NoEvent, layout.tick());
    assert!(!layout.is_active());
    assert_keys(&[LAlt], layout.keycodes());
    layout.event(Release(0, 0));
    assert_eq!(CustomEvent::NoEvent, layout.tick());
    assert!(!layout.is_active());
    assert_keys(&[], layout.keycodes());
}

#[test]
fn tap_hold_interval_interleave() {
    let layers: Layers<3, 1, 1> = [[[
        HoldTap(leak(HoldTapAction {
            timeout: 200,
            hold: k(LAlt),
            tap: k(Space),
            config: HoldTapConfig::Default,
            tap_hold_interval: 200,
        })),
        k(Enter),
        HoldTap(leak(HoldTapAction {
            timeout: 200,
            hold: k(LAlt),
            tap: k(Enter),
            config: HoldTapConfig::Default,
            tap_hold_interval: 200,
        })),
    ]]];
    let mut layout = Layout::new(layers);

    // press and release the HT key, expect tap action
    assert_eq!(CustomEvent::NoEvent, layout.tick());
    assert!(!layout.is_active());
    assert_keys(&[], layout.keycodes());
    layout.event(Press(0, 0));
    assert_eq!(CustomEvent::NoEvent, layout.tick());
    assert!(layout.is_active());
    assert_keys(&[], layout.keycodes());
    layout.event(Release(0, 0));
    assert_eq!(CustomEvent::NoEvent, layout.tick());
    assert!(layout.is_active());
    assert_keys(&[Space], layout.keycodes());
    assert_eq!(CustomEvent::NoEvent, layout.tick());
    assert!(layout.is_active());
    assert_keys(&[], layout.keycodes());
    for _ in 0..197 {
        assert_eq!(CustomEvent::NoEvent, layout.tick());
        assert!(layout.is_active());
        assert_keys(&[], layout.keycodes());
    }
    assert_eq!(CustomEvent::NoEvent, layout.tick());
    assert!(!layout.is_active());
    assert_keys(&[], layout.keycodes());

    // press a different key in between
    layout.event(Press(0, 1));
    assert_eq!(CustomEvent::NoEvent, layout.tick());
    assert!(!layout.is_active());
    assert_keys(&[Enter], layout.keycodes());
    layout.event(Release(0, 1));
    assert_eq!(CustomEvent::NoEvent, layout.tick());
    assert!(!layout.is_active());
    assert_keys(&[], layout.keycodes());

    // press HT key again, should result in hold action
    layout.event(Press(0, 0));
    for _ in 0..200 {
        assert_eq!(CustomEvent::NoEvent, layout.tick());
        assert!(layout.is_active());
        assert_keys(&[], layout.keycodes());
    }
    assert_eq!(CustomEvent::NoEvent, layout.tick());
    assert!(!layout.is_active());
    assert_keys(&[LAlt], layout.keycodes());
    layout.event(Release(0, 0));
    assert_eq!(CustomEvent::NoEvent, layout.tick());
    assert!(!layout.is_active());
    assert_keys(&[], layout.keycodes());

    // press HT key, press+release diff key, release HT key
    assert_eq!(CustomEvent::NoEvent, layout.tick());
    assert!(!layout.is_active());
    assert_keys(&[], layout.keycodes());
    layout.event(Press(0, 0));
    assert_eq!(CustomEvent::NoEvent, layout.tick());
    assert!(layout.is_active());
    assert_keys(&[], layout.keycodes());
    layout.event(Press(0, 1));
    assert_eq!(CustomEvent::NoEvent, layout.tick());
    assert!(layout.is_active());
    assert_keys(&[], layout.keycodes());
    layout.event(Release(0, 1));
    assert_eq!(CustomEvent::NoEvent, layout.tick());
    assert!(layout.is_active());
    assert_keys(&[], layout.keycodes());
    layout.event(Release(0, 0));
    assert_eq!(CustomEvent::NoEvent, layout.tick());
    assert!(layout.is_active());
    assert_keys(&[Space], layout.keycodes());
    assert_eq!(CustomEvent::NoEvent, layout.tick());
    assert!(layout.is_active());
    assert_keys(&[Enter, Space], layout.keycodes());
    assert_eq!(CustomEvent::NoEvent, layout.tick());
    assert!(layout.is_active());
    assert_keys(&[Space], layout.keycodes());
    assert_eq!(CustomEvent::NoEvent, layout.tick());
    assert!(layout.is_active());
    assert_keys(&[], layout.keycodes());
    for _ in 0..193 {
        assert_eq!(CustomEvent::NoEvent, layout.tick());
        assert!(layout.is_active());
        assert_keys(&[], layout.keycodes());
    }
    assert_eq!(CustomEvent::NoEvent, layout.tick());
    assert!(!layout.is_active());
    assert_keys(&[], layout.keycodes());

    // press HT key again, should result in hold action
    layout.event(Press(0, 0));
    for _ in 0..200 {
        assert_eq!(CustomEvent::NoEvent, layout.tick());
        assert!(layout.is_active());
        assert_keys(&[], layout.keycodes());
    }
    assert_eq!(CustomEvent::NoEvent, layout.tick());
    assert!(!layout.is_active());
    assert_keys(&[LAlt], layout.keycodes());
    layout.event(Release(0, 0));
    assert_eq!(CustomEvent::NoEvent, layout.tick());
    assert!(!layout.is_active());
    assert_keys(&[], layout.keycodes());

    // press HT key, press+release diff (HT) key, release HT key
    assert_eq!(CustomEvent::NoEvent, layout.tick());
    assert!(!layout.is_active());
    assert_keys(&[], layout.keycodes());
    layout.event(Press(0, 0));
    assert_eq!(CustomEvent::NoEvent, layout.tick());
    assert!(layout.is_active());
    assert_keys(&[], layout.keycodes());
    layout.event(Press(0, 2));
    assert_eq!(CustomEvent::NoEvent, layout.tick());
    assert!(layout.is_active());
    assert_keys(&[], layout.keycodes());
    layout.event(Release(0, 2));
    assert_eq!(CustomEvent::NoEvent, layout.tick());
    assert!(layout.is_active());
    assert_keys(&[], layout.keycodes());
    layout.event(Release(0, 0));
    assert_eq!(CustomEvent::NoEvent, layout.tick());
    assert!(layout.is_active());
    assert_keys(&[Space], layout.keycodes());
    assert_eq!(CustomEvent::NoEvent, layout.tick());
    assert!(layout.is_active());
    assert_keys(&[Space], layout.keycodes());
    assert_eq!(CustomEvent::NoEvent, layout.tick());
    assert!(layout.is_active());
    assert_keys(&[Enter, Space], layout.keycodes());
    assert_eq!(CustomEvent::NoEvent, layout.tick());
    assert!(layout.is_active());
    assert_keys(&[Space], layout.keycodes());
    assert_eq!(CustomEvent::NoEvent, layout.tick());
    assert!(layout.is_active());
    assert_keys(&[], layout.keycodes());
    for _ in 0..196 {
        assert_eq!(CustomEvent::NoEvent, layout.tick());
        assert!(layout.is_active());
        assert_keys(&[], layout.keycodes());
    }
    assert_eq!(CustomEvent::NoEvent, layout.tick());
    assert!(!layout.is_active());
    assert_keys(&[], layout.keycodes());

    // press HT key again, should result in hold action
    layout.event(Press(0, 0));
    for _ in 0..200 {
        assert_eq!(CustomEvent::NoEvent, layout.tick());
        assert!(layout.is_active());
        assert_keys(&[], layout.keycodes());
    }
    assert_eq!(CustomEvent::NoEvent, layout.tick());
    assert!(!layout.is_active());
    assert_keys(&[LAlt], layout.keycodes());

    layout.event(Release(0, 0));
    assert_eq!(CustomEvent::NoEvent, layout.tick());
    assert!(!layout.is_active());
    assert_keys(&[], layout.keycodes());
}

#[test]
fn tap_hold_interval_short_hold() {
    let layers: Layers<1, 1, 1> = [[[HoldTap(leak(HoldTapAction {
        timeout: 50,
        hold: k(LAlt),
        tap: k(Space),
        config: HoldTapConfig::Default,
        tap_hold_interval: 200,
    }))]]];
    let mut layout = Layout::new(layers);

    // press and hold the HT key, expect hold action
    assert_eq!(CustomEvent::NoEvent, layout.tick());
    assert!(!layout.is_active());
    assert_keys(&[], layout.keycodes());
    layout.event(Press(0, 0));
    for _ in 0..50 {
        assert_eq!(CustomEvent::NoEvent, layout.tick());
        assert!(layout.is_active());
        assert_keys(&[], layout.keycodes());
    }
    assert_eq!(CustomEvent::NoEvent, layout.tick());
    assert!(!layout.is_active());
    assert_keys(&[LAlt], layout.keycodes());
    layout.event(Release(0, 0));
    assert_eq!(CustomEvent::NoEvent, layout.tick());
    assert!(!layout.is_active());
    assert_keys(&[], layout.keycodes());

    // press and hold the HT key, expect hold action, even though it's within the
    // tap_hold_interval
    assert_eq!(CustomEvent::NoEvent, layout.tick());
    assert!(!layout.is_active());
    assert_keys(&[], layout.keycodes());
    layout.event(Press(0, 0));
    for _ in 0..50 {
        assert_eq!(CustomEvent::NoEvent, layout.tick());
        assert!(layout.is_active());
        assert_keys(&[], layout.keycodes());
    }
    assert_eq!(CustomEvent::NoEvent, layout.tick());
    assert!(!layout.is_active());
    assert_keys(&[LAlt], layout.keycodes());
    layout.event(Release(0, 0));
    assert_eq!(CustomEvent::NoEvent, layout.tick());
    assert!(!layout.is_active());
    assert_keys(&[], layout.keycodes());
}

#[test]
fn tap_hold_interval_different_hold() {
    let layers: Layers<2, 1, 1> = [[[
        HoldTap(leak(HoldTapAction {
            timeout: 50,
            hold: k(LAlt),
            tap: k(Space),
            config: HoldTapConfig::Default,
            tap_hold_interval: 200,
        })),
        HoldTap(leak(HoldTapAction {
            timeout: 200,
            hold: k(RAlt),
            tap: k(Enter),
            config: HoldTapConfig::Default,
            tap_hold_interval: 200,
        })),
    ]]];
    let mut layout = Layout::new(layers);

    // press HT1, press HT2, release HT1 after hold timeout, release HT2, press HT2
    layout.event(Press(0, 0));
    layout.event(Press(0, 1));
    for _ in 0..50 {
        assert_eq!(CustomEvent::NoEvent, layout.tick());
        assert!(layout.is_active());
        assert_keys(&[], layout.keycodes());
    }
    assert_eq!(CustomEvent::NoEvent, layout.tick());
    assert!(layout.is_active());
    assert_keys(&[LAlt], layout.keycodes());
    layout.event(Release(0, 0));
    assert_eq!(CustomEvent::NoEvent, layout.tick());
    assert!(layout.is_active());
    assert_keys(&[LAlt], layout.keycodes());
    layout.event(Release(0, 1));
    assert_eq!(CustomEvent::NoEvent, layout.tick());
    assert!(layout.is_active());
    assert_keys(&[LAlt, Enter], layout.keycodes());
    assert_eq!(CustomEvent::NoEvent, layout.tick());
    assert!(layout.is_active());
    assert_keys(&[Enter], layout.keycodes());
    // press HT2 again, should result in tap action
    layout.event(Press(0, 1));
    assert_eq!(CustomEvent::NoEvent, layout.tick());
    assert!(layout.is_active());
    assert_keys(&[], layout.keycodes());

    for _ in 0..300 {
        assert_eq!(CustomEvent::NoEvent, layout.tick());
        assert!(!layout.is_active());
        assert_keys(&[Enter], layout.keycodes());
    }
}

#[test]
fn toggle_multiple_layers() {
    let layers: Layers<2, 1, 5> = [
        [[t(1), l(2)]],
        [[k(A), t(1)]],
        [[t(3), k(B)]],
        [[t(3), t(4)]],
        [[t(4), t(3)]],
    ];
    let mut layout = Layout::new(layers);
    assert_eq!(CustomEvent::NoEvent, layout.tick());
    assert!(!layout.is_active());
    assert_eq!(0, layout.current_layer());
    assert_keys(&[], layout.keycodes());

    // toggle L1
    layout.event(Press(0, 0));
    assert_eq!(CustomEvent::NoEvent, layout.tick());
    assert!(!layout.is_active());
    assert_eq!(1, layout.current_layer());
    layout.event(Release(0, 0));
    assert_eq!(CustomEvent::NoEvent, layout.tick());
    assert!(!layout.is_active());
    assert_eq!(1, layout.current_layer());
    assert_keys(&[], layout.keycodes());

    // press and release A
    layout.event(Press(0, 0));
    assert_eq!(CustomEvent::NoEvent, layout.tick());
    assert!(!layout.is_active());
    assert_keys(&[A], layout.keycodes());
    layout.event(Release(0, 0));
    assert_eq!(CustomEvent::NoEvent, layout.tick());
    assert!(!layout.is_active());
    assert_keys(&[], layout.keycodes());

    // toggle L1 to disable
    layout.event(Press(0, 1));
    assert_eq!(CustomEvent::NoEvent, layout.tick());
    assert!(!layout.is_active());
    assert_eq!(0, layout.current_layer());
    layout.event(Release(0, 1));
    assert_eq!(CustomEvent::NoEvent, layout.tick());
    assert!(!layout.is_active());
    assert_eq!(0, layout.current_layer());
    assert_keys(&[], layout.keycodes());

    // press L2
    layout.event(Press(0, 1));
    assert_eq!(CustomEvent::NoEvent, layout.tick());
    assert!(!layout.is_active());
    assert_eq!(2, layout.current_layer());
    assert_keys(&[], layout.keycodes());

    // toggle L3 on L2
    layout.event(Press(0, 0));
    assert_eq!(CustomEvent::NoEvent, layout.tick());
    assert!(!layout.is_active());
    assert_eq!(3, layout.current_layer());
    assert_keys(&[], layout.keycodes());

    // release L2, should stay on L3
    layout.event(Release(0, 1));
    assert_eq!(CustomEvent::NoEvent, layout.tick());
    assert!(!layout.is_active());
    assert_eq!(3, layout.current_layer());
    assert_keys(&[], layout.keycodes());

    // press and release L4 on L3
    layout.event(Press(0, 1));
    assert_eq!(CustomEvent::NoEvent, layout.tick());
    assert!(!layout.is_active());
    assert_eq!(4, layout.current_layer());
    layout.event(Release(0, 1));
    assert_eq!(CustomEvent::NoEvent, layout.tick());
    assert!(!layout.is_active());
    assert_eq!(4, layout.current_layer());

    // toggle L3 from L4, should stay on L4
    layout.event(Press(0, 1));
    assert_eq!(CustomEvent::NoEvent, layout.tick());
    assert!(!layout.is_active());
    assert_eq!(4, layout.current_layer());
    layout.event(Release(0, 1));
    assert_eq!(CustomEvent::NoEvent, layout.tick());
    assert!(!layout.is_active());
    assert_eq!(4, layout.current_layer());

    // toggle L4 to disable, should be back to L0
    layout.event(Press(0, 0));
    assert_eq!(CustomEvent::NoEvent, layout.tick());
    assert!(!layout.is_active());
    assert_eq!(0, layout.current_layer());
    assert_keys(&[], layout.keycodes());

    // press L2
    layout.event(Press(0, 1));
    assert_eq!(CustomEvent::NoEvent, layout.tick());
    assert!(!layout.is_active());
    assert_eq!(2, layout.current_layer());
    assert_keys(&[], layout.keycodes());

    // toggle L3 on L2
    layout.event(Press(0, 0));
    assert_eq!(CustomEvent::NoEvent, layout.tick());
    assert!(!layout.is_active());
    assert_eq!(3, layout.current_layer());
    assert_keys(&[], layout.keycodes());

    // release L2, should stay on L3
    layout.event(Release(0, 1));
    assert_eq!(CustomEvent::NoEvent, layout.tick());
    assert!(!layout.is_active());
    assert_eq!(3, layout.current_layer());
    assert_keys(&[], layout.keycodes());

    // press and release L4 on L3
    layout.event(Press(0, 1));
    assert_eq!(CustomEvent::NoEvent, layout.tick());
    assert!(!layout.is_active());
    assert_eq!(4, layout.current_layer());
    layout.event(Release(0, 1));
    assert_eq!(CustomEvent::NoEvent, layout.tick());
    assert!(!layout.is_active());
    assert_eq!(4, layout.current_layer());

    // toggle L4 to disable, should be back to L3
    layout.event(Press(0, 0));
    assert_eq!(CustomEvent::NoEvent, layout.tick());
    assert!(!layout.is_active());
    assert_eq!(3, layout.current_layer());
    layout.event(Release(0, 0));
    assert_eq!(CustomEvent::NoEvent, layout.tick());
    assert!(!layout.is_active());
    assert_eq!(3, layout.current_layer());

    // toggle L3 to disable, back to L0
    layout.event(Press(0, 0));
    assert_eq!(CustomEvent::NoEvent, layout.tick());
    assert!(!layout.is_active());
    assert_eq!(0, layout.current_layer());
    assert_keys(&[], layout.keycodes());
}

#[test]
fn one_shot() {
    let layers: Layers<3, 1, 1> = [[[
        OneShot(leak(OneShotAction {
            timeout: 100,
            action: k(LShift),
            end_config: OneShotEndConfig::EndOnFirstPress,
        })),
        k(A),
        k(B),
    ]]];
    let mut layout = Layout::new(layers);

    // Test:
    // 1. press one-shot
    // 2. release one-shot
    // 3. press A within timeout
    // 4. press B within timeout
    // 5. release A, B
    layout.event(Press(0, 0));
    for _ in 0..25 {
        assert_eq!(CustomEvent::NoEvent, layout.tick());
        assert!(layout.is_active());
        assert_keys(&[LShift], layout.keycodes());
    }
    layout.event(Release(0, 0));
    for _ in 0..25 {
        assert_eq!(CustomEvent::NoEvent, layout.tick());
        assert!(layout.is_active());
        assert_keys(&[LShift], layout.keycodes());
    }
    layout.event(Press(0, 1));
    layout.event(Press(0, 2));
    assert_eq!(CustomEvent::NoEvent, layout.tick());
    assert!(layout.is_active());
    assert_keys(&[A, LShift], layout.keycodes());
    assert_eq!(CustomEvent::NoEvent, layout.tick());
    assert!(!layout.is_active());
    assert_keys(&[A, B], layout.keycodes());
    layout.event(Release(0, 1));
    layout.event(Release(0, 2));
    assert_eq!(CustomEvent::NoEvent, layout.tick());
    assert!(layout.is_active());
    assert_keys(&[B], layout.keycodes());
    assert_eq!(CustomEvent::NoEvent, layout.tick());
    assert!(!layout.is_active());
    assert_keys(&[], layout.keycodes());

    // Test:
    // 1. press one-shot
    // 2. release one-shot
    // 3. press A after timeout
    // 4. release A
    layout.event(Press(0, 0));
    for _ in 0..25 {
        assert_eq!(CustomEvent::NoEvent, layout.tick());
        assert!(layout.is_active());
        assert_keys(&[LShift], layout.keycodes());
    }
    layout.event(Release(0, 0));
    for _ in 0..75 {
        assert_eq!(CustomEvent::NoEvent, layout.tick());
        assert!(layout.is_active());
        assert_keys(&[LShift], layout.keycodes());
    }
    assert_eq!(CustomEvent::NoEvent, layout.tick());
    assert!(!layout.is_active());
    assert_keys(&[], layout.keycodes());
    assert_eq!(CustomEvent::NoEvent, layout.tick());
    assert!(!layout.is_active());
    assert_keys(&[], layout.keycodes());
    layout.event(Press(0, 1));
    assert_eq!(CustomEvent::NoEvent, layout.tick());
    assert!(!layout.is_active());
    assert_keys(&[A], layout.keycodes());
    layout.event(Release(0, 1));
    assert_eq!(CustomEvent::NoEvent, layout.tick());
    assert!(!layout.is_active());
    assert_keys(&[], layout.keycodes());

    // Test:
    // 1. press one-shot
    // 2. press A
    // 3. release A
    // 4. release one-shot
    layout.event(Press(0, 0));
    for _ in 0..25 {
        assert_eq!(CustomEvent::NoEvent, layout.tick());
        assert!(layout.is_active());
        assert_keys(&[LShift], layout.keycodes());
    }
    layout.event(Press(0, 1));
    assert_eq!(CustomEvent::NoEvent, layout.tick());
    assert!(layout.is_active());
    assert_keys(&[LShift, A], layout.keycodes());
    layout.event(Release(0, 1));
    assert_eq!(CustomEvent::NoEvent, layout.tick());
    assert!(!layout.is_active());
    assert_keys(&[LShift], layout.keycodes());
    layout.event(Release(0, 0));
    assert_eq!(CustomEvent::NoEvent, layout.tick());
    assert!(!layout.is_active());
    assert_keys(&[], layout.keycodes());

    // Test:
    // 1. press one-shot
    // 2. press A after timeout
    // 3. release A
    // 4. release one-shot
    layout.event(Press(0, 0));
    for _ in 0..100 {
        assert_eq!(CustomEvent::NoEvent, layout.tick());
        assert!(layout.is_active());
        assert_keys(&[LShift], layout.keycodes());
    }
    assert_eq!(CustomEvent::NoEvent, layout.tick());
    assert!(!layout.is_active());
    assert_keys(&[LShift], layout.keycodes());
    layout.event(Press(0, 1));
    assert_eq!(CustomEvent::NoEvent, layout.tick());
    assert!(!layout.is_active());
    assert_keys(&[LShift, A], layout.keycodes());
    layout.event(Release(0, 1));
    assert_eq!(CustomEvent::NoEvent, layout.tick());
    assert!(!layout.is_active());
    assert_keys(&[LShift], layout.keycodes());
    layout.event(Release(0, 0));
    assert_eq!(CustomEvent::NoEvent, layout.tick());
    assert!(!layout.is_active());
    assert_keys(&[], layout.keycodes());
}

#[test]
fn one_shot_overlap_release() {
    let layers: Layers<1, 1, 2> = [
        [[OneShot(leak(OneShotAction {
            timeout: 100,
            action: l(1),
            end_config: OneShotEndConfig::EndOnFirstRelease,
        }))]],
        [[k(A)]],
    ];
    let mut layout = Layout::new(layers);

    // Test:
    // 1. press one-shot
    // 2. release one-shot
    // 3. press A within timeout
    // 5. release A, should also go back to layer 0
    layout.event(Press(0, 0));
    for _ in 0..25 {
        assert_eq!(CustomEvent::NoEvent, layout.tick());
        assert!(layout.is_active());
        assert_eq!(1, layout.current_layer());
    }
    layout.event(Release(0, 0));
    for _ in 0..25 {
        assert_eq!(CustomEvent::NoEvent, layout.tick());
        assert!(layout.is_active());
        assert_eq!(1, layout.current_layer());
    }
    layout.event(Press(0, 0));
    assert_eq!(CustomEvent::NoEvent, layout.tick());
    assert!(layout.is_active());
    assert_keys(&[A], layout.keycodes());
    assert_eq!(1, layout.current_layer());
    assert_eq!(CustomEvent::NoEvent, layout.tick());
    assert!(layout.is_active());
    assert_keys(&[A], layout.keycodes());
    assert_eq!(1, layout.current_layer());
    layout.event(Release(0, 0));
    assert_eq!(CustomEvent::NoEvent, layout.tick());
    assert!(!layout.is_active());
    assert_keys(&[], layout.keycodes());
    assert_eq!(0, layout.current_layer());

    // Test:
    // 1. press one-shot
    // 2. release one-shot
    // 3. press A after timeout
    // 4. release A
    layout.event(Press(0, 0));
    for _ in 0..25 {
        assert_eq!(CustomEvent::NoEvent, layout.tick());
        assert!(layout.is_active());
        assert_eq!(1, layout.current_layer());
    }
    layout.event(Release(0, 0));
    for _ in 0..75 {
        assert_eq!(CustomEvent::NoEvent, layout.tick());
        assert!(layout.is_active());
        assert_eq!(1, layout.current_layer());
    }
    assert_eq!(CustomEvent::NoEvent, layout.tick());
    assert!(!layout.is_active());
    assert_keys(&[], layout.keycodes());
    layout.event(Press(0, 0));
    assert_eq!(CustomEvent::NoEvent, layout.tick());
    assert!(layout.is_active());
    assert_keys(&[], layout.keycodes());
    layout.event(Release(0, 0));
    assert_eq!(CustomEvent::NoEvent, layout.tick());
    // active because pressing (0,0) after the one shot timeout means we are on layer 0 still, meaning we press the one shot again
    assert!(layout.is_active());
    assert_keys(&[], layout.keycodes());
}

#[test]
fn one_shot_overlap_press() {
    let layers: Layers<1, 1, 2> = [
        [[OneShot(leak(OneShotAction {
            timeout: 100,
            action: l(1),
            end_config: OneShotEndConfig::EndOnFirstPress,
        }))]],
        [[k(A)]],
    ];
    let mut layout = Layout::new(layers);

    // Test:
    // 1. press one-shot
    // 2. release one-shot
    // 3. press A within timeout
    // 5. release A
    layout.event(Press(0, 0));
    for _ in 0..25 {
        assert_eq!(CustomEvent::NoEvent, layout.tick());
        assert!(layout.is_active());
        assert_eq!(1, layout.current_layer());
    }
    layout.event(Release(0, 0));
    for _ in 0..25 {
        assert_eq!(CustomEvent::NoEvent, layout.tick());
        assert!(layout.is_active());
        assert_eq!(1, layout.current_layer());
    }
    layout.event(Press(0, 0));
    assert_eq!(CustomEvent::NoEvent, layout.tick());
    assert!(layout.is_active());
    assert_keys(&[A], layout.keycodes());
    assert_eq!(1, layout.current_layer());
    assert_eq!(CustomEvent::NoEvent, layout.tick());
    assert!(!layout.is_active());
    assert_keys(&[A], layout.keycodes());
    assert_eq!(1, layout.current_layer());
    layout.event(Release(0, 0));
    assert_eq!(CustomEvent::NoEvent, layout.tick());
    assert!(!layout.is_active());
    assert_keys(&[], layout.keycodes());
    assert_eq!(0, layout.current_layer());

    // Test:
    // 1. press one-shot
    // 2. release one-shot
    // 3. press A after timeout
    // 4. release A
    layout.event(Press(0, 0));
    for _ in 0..25 {
        assert_eq!(CustomEvent::NoEvent, layout.tick());
        assert!(layout.is_active());
        assert_eq!(1, layout.current_layer());
    }
    layout.event(Release(0, 0));
    for _ in 0..75 {
        assert_eq!(CustomEvent::NoEvent, layout.tick());
        assert!(layout.is_active());
        assert_eq!(1, layout.current_layer());
    }
    assert_eq!(CustomEvent::NoEvent, layout.tick());
    assert!(!layout.is_active());
    assert_keys(&[], layout.keycodes());
    layout.event(Press(0, 0));
    assert_eq!(CustomEvent::NoEvent, layout.tick());
    assert!(layout.is_active());
    assert_keys(&[], layout.keycodes());
    layout.event(Release(0, 0));
    assert_eq!(CustomEvent::NoEvent, layout.tick());
    // active because pressing (0,0) after the one shot timeout means we are on layer 0 still, meaning we press the one shot again
    assert!(layout.is_active());
    assert_keys(&[], layout.keycodes());
}

#[test]
fn one_shot_end_press_or_repress() {
    let layers: Layers<3, 1, 1> = [[[
        OneShot(leak(OneShotAction {
            timeout: 100,
            action: k(LShift),
            end_config: OneShotEndConfig::EndOnFirstPressOrRepress,
        })),
        k(A),
        k(B),
    ]]];
    let mut layout = Layout::new(layers);

    // Test:
    // 1. press one-shot
    // 2. release one-shot
    // 3. press A within timeout
    // 4. press B within timeout
    // 5. release A, B
    layout.event(Press(0, 0));
    for _ in 0..25 {
        assert_eq!(CustomEvent::NoEvent, layout.tick());
        assert!(layout.is_active());
        assert_keys(&[LShift], layout.keycodes());
    }
    layout.event(Release(0, 0));
    for _ in 0..25 {
        assert_eq!(CustomEvent::NoEvent, layout.tick());
        assert!(layout.is_active());
        assert_keys(&[LShift], layout.keycodes());
    }
    layout.event(Press(0, 1));
    layout.event(Press(0, 2));
    assert_eq!(CustomEvent::NoEvent, layout.tick());
    assert!(layout.is_active());
    assert_keys(&[A, LShift], layout.keycodes());
    assert_eq!(CustomEvent::NoEvent, layout.tick());
    assert!(!layout.is_active());
    assert_keys(&[A, B], layout.keycodes());
    layout.event(Release(0, 1));
    layout.event(Release(0, 2));
    assert_eq!(CustomEvent::NoEvent, layout.tick());
    assert!(layout.is_active());
    assert_keys(&[B], layout.keycodes());
    assert_eq!(CustomEvent::NoEvent, layout.tick());
    assert!(!layout.is_active());
    assert_keys(&[], layout.keycodes());

    // Test:
    // 1. press one-shot
    // 2. release one-shot
    // 3. press A after timeout
    // 4. release A
    layout.event(Press(0, 0));
    for _ in 0..25 {
        assert_eq!(CustomEvent::NoEvent, layout.tick());
        assert!(layout.is_active());
        assert_keys(&[LShift], layout.keycodes());
    }
    layout.event(Release(0, 0));
    for _ in 0..75 {
        assert_eq!(CustomEvent::NoEvent, layout.tick());
        assert!(layout.is_active());
        assert_keys(&[LShift], layout.keycodes());
    }
    assert_eq!(CustomEvent::NoEvent, layout.tick());
    assert!(!layout.is_active());
    assert_keys(&[], layout.keycodes());
    assert_eq!(CustomEvent::NoEvent, layout.tick());
    assert!(!layout.is_active());
    assert_keys(&[], layout.keycodes());
    layout.event(Press(0, 1));
    assert_eq!(CustomEvent::NoEvent, layout.tick());
    assert!(!layout.is_active());
    assert_keys(&[A], layout.keycodes());
    layout.event(Release(0, 1));
    assert_eq!(CustomEvent::NoEvent, layout.tick());
    assert!(!layout.is_active());
    assert_keys(&[], layout.keycodes());

    // Test:
    // 1. press one-shot
    // 2. press A
    // 3. release A
    // 4. release one-shot
    layout.event(Press(0, 0));
    for _ in 0..25 {
        assert_eq!(CustomEvent::NoEvent, layout.tick());
        assert!(layout.is_active());
        assert_keys(&[LShift], layout.keycodes());
    }
    layout.event(Press(0, 1));
    assert_eq!(CustomEvent::NoEvent, layout.tick());
    assert!(layout.is_active());
    assert_keys(&[LShift, A], layout.keycodes());
    layout.event(Release(0, 1));
    assert_eq!(CustomEvent::NoEvent, layout.tick());
    assert!(!layout.is_active());
    assert_keys(&[LShift], layout.keycodes());
    layout.event(Release(0, 0));
    assert_eq!(CustomEvent::NoEvent, layout.tick());
    assert!(!layout.is_active());
    assert_keys(&[], layout.keycodes());

    // Test:
    // 1. press one-shot
    // 2. press A after timeout
    // 3. release A
    // 4. release one-shot
    layout.event(Press(0, 0));
    for _ in 0..100 {
        assert_eq!(CustomEvent::NoEvent, layout.tick());
        assert!(layout.is_active());
        assert_keys(&[LShift], layout.keycodes());
    }
    assert_eq!(CustomEvent::NoEvent, layout.tick());
    assert!(!layout.is_active());
    assert_keys(&[LShift], layout.keycodes());
    layout.event(Press(0, 1));
    assert_eq!(CustomEvent::NoEvent, layout.tick());
    assert!(!layout.is_active());
    assert_keys(&[LShift, A], layout.keycodes());
    layout.event(Release(0, 1));
    assert_eq!(CustomEvent::NoEvent, layout.tick());
    assert!(!layout.is_active());
    assert_keys(&[LShift], layout.keycodes());
    layout.event(Release(0, 0));
    assert_eq!(CustomEvent::NoEvent, layout.tick());
    assert!(!layout.is_active());
    assert_keys(&[], layout.keycodes());

    // Test:
    // 1. press one-shot
    // 2. release one-shot
    // 3. press one-shot within timeout
    // 4. release one-shot quickly - should end
    layout.event(Press(0, 0));
    assert_eq!(CustomEvent::NoEvent, layout.tick());
    assert!(layout.is_active());
    assert_keys(&[LShift], layout.keycodes());
    layout.event(Release(0, 0));
    assert_eq!(CustomEvent::NoEvent, layout.tick());
    assert!(layout.is_active());
    assert_keys(&[LShift], layout.keycodes());
    layout.event(Press(0, 0));
    assert_eq!(CustomEvent::NoEvent, layout.tick());
    assert!(layout.is_active());
    assert_keys(&[LShift], layout.keycodes());
    layout.event(Release(0, 0));
    assert_eq!(CustomEvent::NoEvent, layout.tick());
    assert!(!layout.is_active());
    assert_keys(&[], layout.keycodes());

    // Test:
    // 1. press one-shot
    // 2. release one-shot
    // 3. press one-shot within timeout
    // 4. release one-shot after timeout
    layout.event(Press(0, 0));
    assert_eq!(CustomEvent::NoEvent, layout.tick());
    assert!(layout.is_active());
    assert_keys(&[LShift], layout.keycodes());
    layout.event(Release(0, 0));
    assert_eq!(CustomEvent::NoEvent, layout.tick());
    assert!(layout.is_active());
    assert_keys(&[LShift], layout.keycodes());
    layout.event(Press(0, 0));
    assert_eq!(CustomEvent::NoEvent, layout.tick());
    assert!(layout.is_active());
    assert_keys(&[LShift], layout.keycodes());
    assert_eq!(CustomEvent::NoEvent, layout.tick());
    assert!(!layout.is_active());
    assert_keys(&[LShift], layout.keycodes());
    for _ in 0..200 {
        assert_eq!(CustomEvent::NoEvent, layout.tick());
        assert!(!layout.is_active());
        assert_keys(&[LShift], layout.keycodes());
    }
    layout.event(Release(0, 0));
    assert_eq!(CustomEvent::NoEvent, layout.tick());
    assert!(!layout.is_active());
    assert_keys(&[], layout.keycodes());
}

#[test]
fn one_shot_end_on_release() {
    let layers: Layers<3, 1, 1> = [[[
        OneShot(leak(OneShotAction {
            timeout: 100,
            action: k(LShift),
            end_config: OneShotEndConfig::EndOnFirstRelease,
        })),
        k(A),
        k(B),
    ]]];
    let mut layout = Layout::new(layers);

    // Test:
    // 1. press one-shot
    // 2. release one-shot
    // 3. press A within timeout
    // 4. press B within timeout
    // 5. release A, B
    layout.event(Press(0, 0));
    for _ in 0..25 {
        assert_eq!(CustomEvent::NoEvent, layout.tick());
        assert!(layout.is_active());
        assert_keys(&[LShift], layout.keycodes());
    }
    layout.event(Release(0, 0));
    for _ in 0..25 {
        assert_eq!(CustomEvent::NoEvent, layout.tick());
        assert!(layout.is_active());
        assert_keys(&[LShift], layout.keycodes());
    }
    layout.event(Press(0, 1));
    layout.event(Press(0, 2));
    assert_eq!(CustomEvent::NoEvent, layout.tick());
    assert!(layout.is_active());
    assert_keys(&[A, LShift], layout.keycodes());
    assert_eq!(CustomEvent::NoEvent, layout.tick());
    assert!(layout.is_active());
    assert_keys(&[A, B, LShift], layout.keycodes());
    layout.event(Release(0, 1));
    layout.event(Release(0, 2));
    assert_eq!(CustomEvent::NoEvent, layout.tick());
    assert!(layout.is_active());
    assert_keys(&[B], layout.keycodes());
    assert_eq!(CustomEvent::NoEvent, layout.tick());
    assert!(!layout.is_active());
    assert_keys(&[], layout.keycodes());

    // Test:
    // 1. press one-shot
    // 2. release one-shot
    // 3. press A after timeout
    // 4. release A
    layout.event(Press(0, 0));
    for _ in 0..25 {
        assert_eq!(CustomEvent::NoEvent, layout.tick());
        assert!(layout.is_active());
        assert_keys(&[LShift], layout.keycodes());
    }
    layout.event(Release(0, 0));
    for _ in 0..75 {
        assert_eq!(CustomEvent::NoEvent, layout.tick());
        assert!(layout.is_active());
        assert_keys(&[LShift], layout.keycodes());
    }
    assert_eq!(CustomEvent::NoEvent, layout.tick());
    assert!(!layout.is_active());
    assert_keys(&[], layout.keycodes());
    assert_eq!(CustomEvent::NoEvent, layout.tick());
    assert!(!layout.is_active());
    assert_keys(&[], layout.keycodes());
    layout.event(Press(0, 1));
    assert_eq!(CustomEvent::NoEvent, layout.tick());
    assert!(!layout.is_active());
    assert_keys(&[A], layout.keycodes());
    layout.event(Release(0, 1));
    assert_eq!(CustomEvent::NoEvent, layout.tick());
    assert!(!layout.is_active());
    assert_keys(&[], layout.keycodes());

    // Test:
    // 1. press one-shot
    // 2. press A
    // 3. release A
    // 4. release one-shot
    layout.event(Press(0, 0));
    for _ in 0..25 {
        assert_eq!(CustomEvent::NoEvent, layout.tick());
        assert!(layout.is_active());
        assert_keys(&[LShift], layout.keycodes());
    }
    layout.event(Press(0, 1));
    assert_eq!(CustomEvent::NoEvent, layout.tick());
    assert!(layout.is_active());
    assert_keys(&[LShift, A], layout.keycodes());
    layout.event(Release(0, 1));
    assert_eq!(CustomEvent::NoEvent, layout.tick());
    assert!(!layout.is_active());
    assert_keys(&[LShift], layout.keycodes());
    layout.event(Release(0, 0));
    assert_eq!(CustomEvent::NoEvent, layout.tick());
    assert!(!layout.is_active());
    assert_keys(&[], layout.keycodes());

    // Test:
    // 1. press one-shot
    // 2. press A after timeout
    // 3. release A
    // 4. release one-shot
    layout.event(Press(0, 0));
    for _ in 0..100 {
        assert_eq!(CustomEvent::NoEvent, layout.tick());
        assert!(layout.is_active());
        assert_keys(&[LShift], layout.keycodes());
    }
    assert_eq!(CustomEvent::NoEvent, layout.tick());
    assert!(!layout.is_active());
    assert_keys(&[LShift], layout.keycodes());
    layout.event(Press(0, 1));
    assert_eq!(CustomEvent::NoEvent, layout.tick());
    assert!(!layout.is_active());
    assert_keys(&[LShift, A], layout.keycodes());
    layout.event(Release(0, 1));
    assert_eq!(CustomEvent::NoEvent, layout.tick());
    assert!(!layout.is_active());
    assert_keys(&[LShift], layout.keycodes());
    layout.event(Release(0, 0));
    assert_eq!(CustomEvent::NoEvent, layout.tick());
    assert!(!layout.is_active());
    assert_keys(&[], layout.keycodes());

    // Test:
    // 3. press A
    // 1. press one-shot
    // 2. release one-shot
    // 3. release A
    // 4. press B within timeout
    // 5. release B
    layout.event(Press(0, 1));
    assert_eq!(CustomEvent::NoEvent, layout.tick());
    assert!(!layout.is_active());
    assert_keys(&[A], layout.keycodes());
    layout.event(Press(0, 0));
    for _ in 0..25 {
        assert_eq!(CustomEvent::NoEvent, layout.tick());
        assert!(layout.is_active());
        assert_keys(&[A, LShift], layout.keycodes());
    }
    layout.event(Release(0, 0));
    for _ in 0..25 {
        assert_eq!(CustomEvent::NoEvent, layout.tick());
        assert!(layout.is_active());
        assert_keys(&[A, LShift], layout.keycodes());
    }
    layout.event(Release(0, 1));
    assert_eq!(CustomEvent::NoEvent, layout.tick());
    assert!(layout.is_active());
    assert_keys(&[LShift], layout.keycodes());
    assert_eq!(CustomEvent::NoEvent, layout.tick());
    assert!(layout.is_active());
    assert_keys(&[LShift], layout.keycodes());
    layout.event(Press(0, 2));
    assert_eq!(CustomEvent::NoEvent, layout.tick());
    assert!(layout.is_active());
    assert_keys(&[B, LShift], layout.keycodes());
    layout.event(Release(0, 2));
    assert_eq!(CustomEvent::NoEvent, layout.tick());
    assert!(!layout.is_active());
    assert_keys(&[], layout.keycodes());
}

#[test]
fn one_shot_multi() {
    let layers: Layers<4, 1, 2> = [
        [[
            OneShot(leak(OneShotAction {
                timeout: 100,
                action: k(LShift),
                end_config: OneShotEndConfig::EndOnFirstPress,
            })),
            OneShot(leak(OneShotAction {
                timeout: 100,
                action: k(LCtrl),
                end_config: OneShotEndConfig::EndOnFirstPress,
            })),
            OneShot(leak(OneShotAction {
                timeout: 100,
                action: l(1),
                end_config: OneShotEndConfig::EndOnFirstPress,
            })),
            NoOp,
        ]],
        [[k(A), k(B), k(C), k(D)]],
    ];
    let mut layout = Layout::new(layers);

    layout.event(Press(0, 0));
    layout.event(Release(0, 0));
    for _ in 0..90 {
        assert_eq!(CustomEvent::NoEvent, layout.tick());
        assert!(layout.is_active());
        assert_keys(&[LShift], layout.keycodes());
    }
    layout.event(Press(0, 1));
    for _ in 0..90 {
        assert_eq!(CustomEvent::NoEvent, layout.tick());
        assert!(layout.is_active());
        assert_keys(&[LShift, LCtrl], layout.keycodes());
    }
    assert_eq!(layout.current_layer(), 0);
    layout.event(Press(0, 2));
    layout.event(Release(0, 2));
    for _ in 0..90 {
        assert_eq!(CustomEvent::NoEvent, layout.tick());
        assert!(layout.is_active());
        assert_keys(&[LShift, LCtrl], layout.keycodes());
        assert_eq!(layout.current_layer(), 1);
    }
    layout.event(Press(0, 3));
    layout.event(Release(0, 3));
    assert_eq!(CustomEvent::NoEvent, layout.tick());
    assert!(layout.is_active());
    assert_keys(&[LShift, LCtrl, D], layout.keycodes());
    assert_eq!(layout.current_layer(), 1);
    assert_eq!(CustomEvent::NoEvent, layout.tick());
    assert!(!layout.is_active());
    assert_keys(&[LCtrl], layout.keycodes());
    assert_eq!(layout.current_layer(), 0);
    layout.event(Release(0, 1));
    assert_eq!(CustomEvent::NoEvent, layout.tick());
    assert!(!layout.is_active());
    assert_keys(&[], layout.keycodes());
}

#[test]
fn one_shot_tap_hold() {
    let layers: Layers<3, 1, 2> = [
        [[
            OneShot(leak(OneShotAction {
                timeout: 200,
                action: k(LShift),
                end_config: OneShotEndConfig::EndOnFirstPress,
            })),
            HoldTap(leak(HoldTapAction {
                timeout: 100,
                hold: k(LAlt),
                tap: k(Space),
                config: HoldTapConfig::Default,
                tap_hold_interval: 0,
            })),
            NoOp,
        ]],
        [[k(A), k(B), k(C)]],
    ];
    let mut layout = Layout::new(layers);

    layout.event(Press(0, 0));
    layout.event(Release(0, 0));
    for _ in 0..90 {
        assert_eq!(CustomEvent::NoEvent, layout.tick());
        assert!(layout.is_active());
        assert_keys(&[LShift], layout.keycodes());
    }
    layout.event(Press(0, 1));
    for _ in 0..90 {
        assert_eq!(CustomEvent::NoEvent, layout.tick());
        assert!(layout.is_active());
        assert_keys(&[LShift], layout.keycodes());
    }
    layout.event(Release(0, 1));
    assert_eq!(CustomEvent::NoEvent, layout.tick());
    assert!(layout.is_active());
    assert_keys(&[LShift, Space], layout.keycodes());
    assert_eq!(CustomEvent::NoEvent, layout.tick());
    assert!(!layout.is_active());
    assert_keys(&[], layout.keycodes());

    layout.event(Press(0, 0));
    layout.event(Release(0, 0));
    for _ in 0..90 {
        assert_eq!(CustomEvent::NoEvent, layout.tick());
        assert!(layout.is_active());
        assert_keys(&[LShift], layout.keycodes());
    }
    layout.event(Press(0, 1));
    for _ in 0..100 {
        assert_eq!(CustomEvent::NoEvent, layout.tick());
        assert!(layout.is_active());
        assert_keys(&[LShift], layout.keycodes());
    }
    assert_eq!(CustomEvent::NoEvent, layout.tick());
    assert!(layout.is_active());
    assert_keys(&[LShift, LAlt], layout.keycodes());
    assert_eq!(CustomEvent::NoEvent, layout.tick());
    assert!(!layout.is_active());
    assert_keys(&[LAlt], layout.keycodes());
    layout.event(Release(0, 1));
    assert_eq!(CustomEvent::NoEvent, layout.tick());
    assert!(!layout.is_active());
    assert_keys(&[], layout.keycodes());
}

#[test]
fn tap_dance() {
    let layers: Layers<2, 2, 1> = [[
        [
            TapDance(leak(TapDanceAction {
                timeout: 100,
                actions: leak([
                    k(LShift),
                    OneShot(leak(OneShotAction {
                        timeout: 100,
                        action: k(LCtrl),
                        end_config: OneShotEndConfig::EndOnFirstPress,
                    })),
                    HoldTap(leak(HoldTapAction {
                        timeout: 100,
                        hold: k(LAlt),
                        tap: k(Space),
                        config: HoldTapConfig::Default,
                        tap_hold_interval: 0,
                    })),
                    k(D),
                ]),
                config: TapDanceConfig::Lazy,
            })),
            k(A),
        ],
        [k(B), k(C)],
    ]];
    let mut layout = Layout::new(layers);

    // Test: tap-dance first key, timeout
    layout.event(Press(0, 0));
    for _ in 0..100 {
        assert_eq!(CustomEvent::NoEvent, layout.tick());
        assert!(layout.is_active());
        assert_keys(&[], layout.keycodes());
    }
    assert_eq!(CustomEvent::NoEvent, layout.tick());
    assert!(!layout.is_active());
    assert_keys(&[LShift], layout.keycodes());
    layout.event(Release(0, 0));
    assert_eq!(CustomEvent::NoEvent, layout.tick());
    assert!(!layout.is_active());
    assert_keys(&[], layout.keycodes());

    // Test: tap-dance first key, press another key
    layout.event(Press(0, 0));
    assert_eq!(CustomEvent::NoEvent, layout.tick());
    assert!(layout.is_active());
    assert_keys(&[], layout.keycodes());
    layout.event(Press(0, 1));
    assert_eq!(CustomEvent::NoEvent, layout.tick());
    assert!(!layout.is_active());
    assert_keys(&[A, LShift], layout.keycodes());
    layout.event(Release(0, 0));
    assert_keys(&[A, LShift], layout.keycodes());
    layout.event(Release(0, 1));
    assert_eq!(CustomEvent::NoEvent, layout.tick());
    assert!(layout.is_active());
    assert_keys(&[A], layout.keycodes());
    assert_eq!(CustomEvent::NoEvent, layout.tick());
    assert!(!layout.is_active());
    assert_keys(&[], layout.keycodes());
    assert_eq!(CustomEvent::NoEvent, layout.tick());
    assert!(!layout.is_active());
    assert_keys(&[], layout.keycodes());

    // Test: tap-dance second key, timeout
    layout.event(Press(0, 0));
    assert_eq!(CustomEvent::NoEvent, layout.tick());
    assert!(layout.is_active());
    assert_keys(&[], layout.keycodes());
    layout.event(Release(0, 0));
    for _ in 0..50 {
        assert_eq!(CustomEvent::NoEvent, layout.tick());
        assert!(layout.is_active());
        assert_keys(&[], layout.keycodes());
    }
    layout.event(Press(0, 0));
    assert_eq!(CustomEvent::NoEvent, layout.tick());
    assert!(layout.is_active());
    assert_keys(&[], layout.keycodes());
    layout.event(Release(0, 0));
    for _ in 0..99 {
        assert_eq!(CustomEvent::NoEvent, layout.tick());
        assert!(layout.is_active());
        assert_keys(&[], layout.keycodes());
    }
    for _ in 0..100 {
        assert_eq!(CustomEvent::NoEvent, layout.tick());
        assert!(layout.is_active());
        assert_keys(&[LCtrl], layout.keycodes());
    }
    assert_eq!(CustomEvent::NoEvent, layout.tick());
    assert!(!layout.is_active());
    assert_keys(&[], layout.keycodes());

    // Test: tap-dance third key, timeout, tap
    layout.event(Press(0, 0));
    assert_eq!(CustomEvent::NoEvent, layout.tick());
    assert!(layout.is_active());
    assert_keys(&[], layout.keycodes());
    layout.event(Release(0, 0));
    for _ in 0..50 {
        assert_eq!(CustomEvent::NoEvent, layout.tick());
        assert!(layout.is_active());
        assert_keys(&[], layout.keycodes());
    }
    layout.event(Press(0, 0));
    assert_eq!(CustomEvent::NoEvent, layout.tick());
    assert!(layout.is_active());
    assert_keys(&[], layout.keycodes());
    layout.event(Release(0, 0));
    for _ in 0..50 {
        assert_eq!(CustomEvent::NoEvent, layout.tick());
        assert!(layout.is_active());
        assert_keys(&[], layout.keycodes());
    }
    layout.event(Press(0, 0));
    assert_eq!(CustomEvent::NoEvent, layout.tick());
    assert!(layout.is_active());
    assert_keys(&[], layout.keycodes());
    layout.event(Release(0, 0));
    assert_eq!(CustomEvent::NoEvent, layout.tick());
    assert!(layout.is_active());
    assert_keys(&[], layout.keycodes());
    for _ in 0..98 {
        assert_eq!(CustomEvent::NoEvent, layout.tick());
        assert!(layout.is_active());
        assert_keys(&[], layout.keycodes());
    }
    assert_eq!(CustomEvent::NoEvent, layout.tick());
    assert!(layout.is_active());
    assert_keys(&[Space], layout.keycodes());
    assert_eq!(CustomEvent::NoEvent, layout.tick());
    assert!(!layout.is_active());
    assert_keys(&[], layout.keycodes());

    // Test: tap-dance third key, timeout, hold
    layout.event(Press(0, 0));
    assert_eq!(CustomEvent::NoEvent, layout.tick());
    assert!(layout.is_active());
    assert_keys(&[], layout.keycodes());
    layout.event(Release(0, 0));
    for _ in 0..50 {
        assert_eq!(CustomEvent::NoEvent, layout.tick());
        assert!(layout.is_active());
        assert_keys(&[], layout.keycodes());
    }
    layout.event(Press(0, 0));
    assert_eq!(CustomEvent::NoEvent, layout.tick());
    assert!(layout.is_active());
    assert_keys(&[], layout.keycodes());
    layout.event(Release(0, 0));
    for _ in 0..50 {
        assert_eq!(CustomEvent::NoEvent, layout.tick());
        assert!(layout.is_active());
        assert_keys(&[], layout.keycodes());
    }
    layout.event(Press(0, 0));
    for _ in 0..199 {
        assert_eq!(CustomEvent::NoEvent, layout.tick());
        assert!(layout.is_active());
        assert_keys(&[], layout.keycodes());
    }
    for _ in 0..200 {
        assert_eq!(CustomEvent::NoEvent, layout.tick());
        assert!(!layout.is_active());
        assert_keys(&[LAlt], layout.keycodes());
    }
    layout.event(Release(0, 0));
    assert_eq!(CustomEvent::NoEvent, layout.tick());
    assert!(!layout.is_active());
    assert_keys(&[], layout.keycodes());

    // Test: tap-dance fourth (last key)
    layout.event(Press(0, 0));
    assert_eq!(CustomEvent::NoEvent, layout.tick());
    assert!(layout.is_active());
    assert_keys(&[], layout.keycodes());
    layout.event(Release(0, 0));
    for _ in 0..50 {
        assert_eq!(CustomEvent::NoEvent, layout.tick());
        assert!(layout.is_active());
        assert_keys(&[], layout.keycodes());
    }
    layout.event(Press(0, 0));
    assert_eq!(CustomEvent::NoEvent, layout.tick());
    assert!(layout.is_active());
    assert_keys(&[], layout.keycodes());
    layout.event(Release(0, 0));
    for _ in 0..50 {
        assert_eq!(CustomEvent::NoEvent, layout.tick());
        assert!(layout.is_active());
        assert_keys(&[], layout.keycodes());
    }
    layout.event(Press(0, 0));
    assert_eq!(CustomEvent::NoEvent, layout.tick());
    assert!(layout.is_active());
    assert_keys(&[], layout.keycodes());
    layout.event(Release(0, 0));
    for _ in 0..50 {
        assert_eq!(CustomEvent::NoEvent, layout.tick());
        assert!(layout.is_active());
        assert_keys(&[], layout.keycodes());
    }
    layout.event(Press(0, 0));
    assert_eq!(CustomEvent::NoEvent, layout.tick());
    assert!(!layout.is_active());
    assert_keys(&[D], layout.keycodes());
    for _ in 0..200 {
        assert_eq!(CustomEvent::NoEvent, layout.tick());
        assert!(!layout.is_active());
        assert_keys(&[D], layout.keycodes());
    }
    layout.event(Release(0, 0));
    assert_eq!(CustomEvent::NoEvent, layout.tick());
    assert!(!layout.is_active());
    assert_keys(&[], layout.keycodes());
}

#[test]
fn tap_dance_eager() {
    let layers: Layers<2, 2, 1> = [[
        [
            TapDance(leak(TapDanceAction {
                timeout: 100,
                actions: leak([k(Kb1), k(Kb2), k(Kb3)]),
                config: TapDanceConfig::Eager,
            })),
            k(A),
        ],
        [k(B), k(C)],
    ]];
    let mut layout = Layout::new(layers);

    // Test: tap-dance-eager first key
    layout.event(Press(0, 0));
    assert_eq!(CustomEvent::NoEvent, layout.tick());
    assert!(layout.is_active());
    assert_keys(&[Kb1], layout.keycodes());
    for _ in 0..99 {
        assert_eq!(CustomEvent::NoEvent, layout.tick());
        assert!(layout.is_active());
        assert_keys(&[Kb1], layout.keycodes());
    }
    assert_eq!(CustomEvent::NoEvent, layout.tick());
    assert!(!layout.is_active());
    assert_keys(&[Kb1], layout.keycodes());
    layout.event(Release(0, 0));
    assert_eq!(CustomEvent::NoEvent, layout.tick());
    assert!(!layout.is_active());
    assert_keys(&[], layout.keycodes());

    // Test: tap-dance-eager first key, press another key
    layout.event(Press(0, 0));
    assert_eq!(CustomEvent::NoEvent, layout.tick());
    assert!(layout.is_active());
    assert_keys(&[Kb1], layout.keycodes());
    layout.event(Press(0, 1));
    assert_eq!(CustomEvent::NoEvent, layout.tick());
    assert!(layout.is_active());
    assert_keys(&[Kb1, A], layout.keycodes());
    layout.event(Release(0, 0));
    layout.event(Release(0, 1));
    assert_eq!(CustomEvent::NoEvent, layout.tick());
    assert!(layout.is_active());
    assert_keys(&[A], layout.keycodes());
    assert_eq!(CustomEvent::NoEvent, layout.tick());
    assert!(!layout.is_active());
    assert_keys(&[], layout.keycodes());

    // Test: tap-dance second key
    layout.event(Press(0, 0));
    assert_eq!(CustomEvent::NoEvent, layout.tick());
    assert!(layout.is_active());
    assert_keys(&[Kb1], layout.keycodes());
    layout.event(Release(0, 0));
    for _ in 0..50 {
        assert_eq!(CustomEvent::NoEvent, layout.tick());
        assert!(layout.is_active());
        assert_keys(&[], layout.keycodes());
    }
    layout.event(Press(0, 0));
    assert_eq!(CustomEvent::NoEvent, layout.tick());
    assert!(layout.is_active());
    assert_keys(&[Kb2], layout.keycodes());
    layout.event(Release(0, 0));
    for _ in 0..99 {
        assert_eq!(CustomEvent::NoEvent, layout.tick());
        assert!(layout.is_active());
        assert_keys(&[], layout.keycodes());
    }
    assert_eq!(CustomEvent::NoEvent, layout.tick());
    assert!(!layout.is_active());
    assert_keys(&[], layout.keycodes());

    // Test: tap-dance third key
    layout.event(Press(0, 0));
    assert_eq!(CustomEvent::NoEvent, layout.tick());
    assert!(layout.is_active());
    assert_keys(&[Kb1], layout.keycodes());
    layout.event(Release(0, 0));
    for _ in 0..50 {
        assert_eq!(CustomEvent::NoEvent, layout.tick());
        assert!(layout.is_active());
        assert_keys(&[], layout.keycodes());
    }
    layout.event(Press(0, 0));
    assert_eq!(CustomEvent::NoEvent, layout.tick());
    assert!(layout.is_active());
    assert_keys(&[Kb2], layout.keycodes());
    layout.event(Release(0, 0));
    for _ in 0..50 {
        assert_eq!(CustomEvent::NoEvent, layout.tick());
        assert!(layout.is_active());
        assert_keys(&[], layout.keycodes());
    }
    layout.event(Press(0, 0));
    assert_eq!(CustomEvent::NoEvent, layout.tick());
    assert!(!layout.is_active());
    assert_keys(&[Kb3], layout.keycodes());
    layout.event(Release(0, 0));
    assert_eq!(CustomEvent::NoEvent, layout.tick());
    assert!(!layout.is_active());
    assert_keys(&[], layout.keycodes());
}

#[test]
fn sequences() {
    let layers: Layers<7, 1, 1> = [[[
        Sequence(
            // Simple Ctrl-C sequence/macro, equivalent to:
            // &sequence! {
            //     Press(LCtrl),
            //     Press(C),
            //     Release(C),
            //     Release(LCtrl)
            // }
            // .as_slice(),
            leak(leak([
                1,
                2,
                KeyCode::LCtrl.code(),
                1,
                2,
                KeyCode::C.code(),
                1,
                3,
                KeyCode::C.code(),
                1,
                3,
                KeyCode::LCtrl.code(),
            ]).as_slice()),
        ),
        Sequence(
            // Equivalent to:
            // &sequence! {
            //     Press(LCtrl),
            //     Press(C),
            // }
            // .as_slice(),
            leak(leak([
                1,
                2,
                KeyCode::LCtrl.code(),
                1,
                2,
                KeyCode::C.code(),
            ]).as_slice()),
        ),
        Sequence(
            // YO with a delay in the middle, equivalent to:
            // &sequence! {
            //     Press(Y),
            //     Release(Y),
            //     // "How many licks does it take to get to the center?"
            //     Delay(3), // Let's find out
            //     Press(O),
            //     Release(O),
            // }
            // .as_slice(),
            leak(leak([
                1,
                2,
                KeyCode::Y.code(),
                1,
                3,
                KeyCode::Y.code(),
                1,
                4,
                51u8,
                b'|',
                1,
                2,
                KeyCode::O.code(),
                1,
                3,
                KeyCode::O.code(),
            ]).as_slice()),
        ),
        Sequence(
            // A long sequence to test the chunking capability, equivalent to:
            // &sequence! {
            //     Press(LShift), // Important: Shift must remain held
            //     Press(U),      // ...or the message just isn't the same!
            //     Release(U),
            //     Press(N),
            //     Release(N),
            //     Press(L),
            //     Release(L),
            //     Press(I),
            //     Release(I),
            //     Press(M),
            //     Release(M),
            //     Press(I),
            //     Release(I),
            //     Press(T),
            //     Release(T),
            //     Press(E),
            //     Release(E),
            //     Press(D),
            //     Release(D),
            //     Press(Space),
            //     Release(Space),
            //     Press(P),
            //     Release(P),
            //     Press(O),
            //     Release(O),
            //     Press(W),
            //     Release(W),
            //     Press(E),
            //     Release(E),
            //     Press(R),
            //     Release(R),
            //     Press(Kb1),
            //     Release(Kb1),
            //     Press(Kb1),
            //     Release(Kb1),
            //     Press(Kb1),
            //     Release(Kb1),
            //     Press(Kb1),
            //     Release(Kb1),
            //     Release(LShift),
            // }
            // .as_slice(),
            leak(leak([
                1,
                2,
                KeyCode::LShift.code(),
                1,
                2,
                KeyCode::U.code(),
                1,
                3,
                KeyCode::U.code(),
                1,
                2,
                KeyCode::N.code(),
                1,
                3,
                KeyCode::N.code(),
                1,
                2,
                KeyCode::L.code(),
                1,
                3,
                KeyCode::L.code(),
                1,
                2,
                KeyCode::I.code(),
                1,
                3,
                KeyCode::I.code(),
                1,
                2,
                KeyCode::M.code(),
                1,
                3,
                KeyCode::M.code(),
                1,
                2,
                KeyCode::I.code(),
                1,
                3,
                KeyCode::I.code(),
                1,
                2,
                KeyCode::T.code(),
                1,
                3,
                KeyCode::T.code(),
                1,
                2,
                KeyCode::E.code(),
                1,
                3,
                KeyCode::E.code(),
                1,
                2,
                KeyCode::D.code(),
                1,
                3,
                KeyCode::D.code(),
                1,
                2,
                KeyCode::Space.code(),
                1,
                3,
                KeyCode::Space.code(),
                1,
                2,
                KeyCode::P.code(),
                1,
                3,
                KeyCode::P.code(),
                1,
                2,
                KeyCode::O.code(),
                1,
                3,
                KeyCode::O.code(),
                1,
                2,
                KeyCode::W.code(),
                1,
                3,
                KeyCode::W.code(),
                1,
                2,
                KeyCode::E.code(),
                1,
                3,
                KeyCode::E.code(),
                1,
                2,
                KeyCode::R.code(),
                1,
                3,
                KeyCode::R.code(),
                1,
                2,
                KeyCode::Kb1.code(),
                1,
                3,
                KeyCode::Kb1.code(),
                1,
                2,
                KeyCode::Kb1.code(),
                1,
                3,
                KeyCode::Kb1.code(),
                1,
                2,
                KeyCode::Kb1.code(),
                1,
                3,
                KeyCode::Kb1.code(),
                1,
                2,
                KeyCode::Kb1.code(),
                1,
                3,
                KeyCode::Kb1.code(),
                1,
                3,
                KeyCode::LShift.code(),
            ]).as_slice()),
        ),
        Sequence(
            // Equivalent to:
            // &sequence! {
            //     Tap(Q),
            //     Tap(W),
            //     Tap(E),
            // }
            // .as_slice(),
            leak(leak([
                1,
                1,
                KeyCode::Q.code(),
                1,
                1,
                KeyCode::W.code(),
                1,
                1,
                KeyCode::E.code(),
            ]).as_slice()),
        ),
        Sequence(
            // Equivalent to:
            // &sequence! {
            //     Tap(X),
            //     Tap(Y),
            //     Tap(Z),
            // }
            // .as_slice(),
            leak(leak([
                1,
                1,
                KeyCode::X.code(),
                1,
                1,
                KeyCode::Y.code(),
                1,
                1,
                KeyCode::Z.code(),
            ]).as_slice()),
        ),
        Sequence(
            // ASCII bytes, equivalent to:
            // &sequence! {
            //     "tEst!"
            // }
            // .as_slice(),
            leak(leak([116u8, 69u8, 115u8, 116u8, 33u8]).as_slice()),
        ),
    ]]];
    let mut layout = Layout::new(layers);
    // Test a basic sequence
    assert_eq!(CustomEvent::NoEvent, layout.tick());
    assert!(!layout.is_active());
    assert_keys(&[], layout.keycodes());
    layout.event(Press(0, 0));
    // Sequences take an extra tick to kickoff since the first tick starts the sequence:
    assert_eq!(CustomEvent::NoEvent, layout.tick()); // Sequence detected & added
    assert!(layout.is_active());
    assert_eq!(CustomEvent::NoEvent, layout.tick()); // Sequence starts
    assert!(layout.is_active());
    assert_keys(&[LCtrl], layout.keycodes()); // First item in the SequenceEvent
    assert_eq!(CustomEvent::NoEvent, layout.tick());
    assert!(layout.is_active());
    assert_keys(&[LCtrl, C], layout.keycodes());
    assert_eq!(CustomEvent::NoEvent, layout.tick());
    assert!(layout.is_active());
    assert_keys(&[LCtrl], layout.keycodes());
    assert_eq!(CustomEvent::NoEvent, layout.tick());
    assert!(layout.is_active());
    assert_keys(&[], layout.keycodes());
    layout.event(Release(0, 0));
    assert_eq!(CustomEvent::NoEvent, layout.tick());
    assert!(!layout.is_active());
    assert_keys(&[], layout.keycodes());

    // Test the use of Complete()
    assert_keys(&[], layout.keycodes());
    layout.event(Press(0, 1));
    assert_eq!(CustomEvent::NoEvent, layout.tick());
    assert!(layout.is_active());
    assert_eq!(CustomEvent::NoEvent, layout.tick());
    assert!(layout.is_active());
    assert_keys(&[LCtrl], layout.keycodes());
    assert_eq!(CustomEvent::NoEvent, layout.tick());
    assert!(layout.is_active());
    assert_keys(&[LCtrl, C], layout.keycodes());
    assert_eq!(CustomEvent::NoEvent, layout.tick());
    assert!(!layout.is_active());
    assert_keys(&[], layout.keycodes());
    layout.event(Release(0, 1));
    assert_eq!(CustomEvent::NoEvent, layout.tick());
    assert!(!layout.is_active());
    assert_keys(&[], layout.keycodes());

    // Test a sequence with a Delay() (aka The Mr Owl test; duration == 3)
    layout.event(Press(0, 2));
    assert_eq!(CustomEvent::NoEvent, layout.tick());
    assert!(layout.is_active());
    assert_eq!(CustomEvent::NoEvent, layout.tick());
    assert!(layout.is_active());
    assert_keys(&[Y], layout.keycodes());
    assert_eq!(CustomEvent::NoEvent, layout.tick()); // First decrement (2)
    assert!(layout.is_active());
    assert_keys(&[], layout.keycodes()); // "Eh Ooone!"
    assert_eq!(CustomEvent::NoEvent, layout.tick()); // Second decrement (1)
    assert!(layout.is_active());
    assert_keys(&[], layout.keycodes()); // "Eh two!"
    assert_eq!(CustomEvent::NoEvent, layout.tick()); // Final decrement (0)
    assert!(layout.is_active());
    assert_keys(&[], layout.keycodes()); // "Eh three."
    assert_eq!(CustomEvent::NoEvent, layout.tick()); // Press() added for the next tick()
    assert!(layout.is_active());
    assert_eq!(CustomEvent::NoEvent, layout.tick()); // FakeKey Press()
    assert!(layout.is_active());
    assert_keys(&[O], layout.keycodes()); // CHOMP!
    assert_eq!(CustomEvent::NoEvent, layout.tick());
    assert!(layout.is_active());
    assert_keys(&[], layout.keycodes());
    layout.event(Release(0, 2));
    assert_eq!(CustomEvent::NoEvent, layout.tick());
    assert!(!layout.is_active());
    assert_keys(&[], layout.keycodes());

    // // Test really long sequences (aka macros)...
    layout.event(Press(0, 3));
    assert_eq!(CustomEvent::NoEvent, layout.tick());
    assert!(layout.is_active());
    assert_eq!(CustomEvent::NoEvent, layout.tick());
    assert!(layout.is_active());
    assert_keys(&[LShift], layout.keycodes());
    assert_eq!(CustomEvent::NoEvent, layout.tick());
    assert!(layout.is_active());
    assert_keys(&[LShift, U], layout.keycodes());
    assert_eq!(CustomEvent::NoEvent, layout.tick());
    assert!(layout.is_active());
    assert_keys(&[LShift], layout.keycodes());
    assert_eq!(CustomEvent::NoEvent, layout.tick());
    assert!(layout.is_active());
    assert_keys(&[LShift, N], layout.keycodes());
    assert_eq!(CustomEvent::NoEvent, layout.tick());
    assert!(layout.is_active());
    assert_keys(&[LShift], layout.keycodes());
    assert_eq!(CustomEvent::NoEvent, layout.tick());
    assert!(layout.is_active());
    assert_keys(&[LShift, L], layout.keycodes());
    assert_eq!(CustomEvent::NoEvent, layout.tick());
    assert!(layout.is_active());
    assert_keys(&[LShift], layout.keycodes());
    assert_eq!(CustomEvent::NoEvent, layout.tick());
    assert!(layout.is_active());
    assert_keys(&[LShift, I], layout.keycodes());
    assert_eq!(CustomEvent::NoEvent, layout.tick());
    assert!(layout.is_active());
    assert_keys(&[LShift], layout.keycodes());
    assert_eq!(CustomEvent::NoEvent, layout.tick());
    assert!(layout.is_active());
    assert_keys(&[LShift, M], layout.keycodes());
    assert_eq!(CustomEvent::NoEvent, layout.tick());
    assert!(layout.is_active());
    assert_keys(&[LShift], layout.keycodes());
    assert_eq!(CustomEvent::NoEvent, layout.tick());
    assert!(layout.is_active());
    assert_keys(&[LShift, I], layout.keycodes());
    assert_eq!(CustomEvent::NoEvent, layout.tick());
    assert!(layout.is_active());
    assert_keys(&[LShift], layout.keycodes());
    assert_eq!(CustomEvent::NoEvent, layout.tick());
    assert!(layout.is_active());
    assert_keys(&[LShift, T], layout.keycodes());
    assert_eq!(CustomEvent::NoEvent, layout.tick());
    assert!(layout.is_active());
    assert_keys(&[LShift], layout.keycodes());
    assert_eq!(CustomEvent::NoEvent, layout.tick());
    assert!(layout.is_active());
    assert_keys(&[LShift, E], layout.keycodes());
    assert_eq!(CustomEvent::NoEvent, layout.tick());
    assert!(layout.is_active());
    assert_keys(&[LShift], layout.keycodes());
    assert_eq!(CustomEvent::NoEvent, layout.tick());
    assert!(layout.is_active());
    assert_keys(&[LShift, D], layout.keycodes());
    assert_eq!(CustomEvent::NoEvent, layout.tick());
    assert!(layout.is_active());
    assert_keys(&[LShift], layout.keycodes());
    assert_eq!(CustomEvent::NoEvent, layout.tick());
    assert!(layout.is_active());
    assert_keys(&[LShift, Space], layout.keycodes());
    assert_eq!(CustomEvent::NoEvent, layout.tick());
    assert!(layout.is_active());
    assert_keys(&[LShift], layout.keycodes());
    assert_eq!(CustomEvent::NoEvent, layout.tick());
    assert!(layout.is_active());
    assert_keys(&[LShift, P], layout.keycodes());
    assert_eq!(CustomEvent::NoEvent, layout.tick());
    assert!(layout.is_active());
    assert_keys(&[LShift], layout.keycodes());
    assert_eq!(CustomEvent::NoEvent, layout.tick());
    assert!(layout.is_active());
    assert_keys(&[LShift, O], layout.keycodes());
    assert_eq!(CustomEvent::NoEvent, layout.tick());
    assert!(layout.is_active());
    assert_keys(&[LShift], layout.keycodes());
    assert_eq!(CustomEvent::NoEvent, layout.tick());
    assert!(layout.is_active());
    assert_keys(&[LShift, W], layout.keycodes());
    assert_eq!(CustomEvent::NoEvent, layout.tick());
    assert!(layout.is_active());
    assert_keys(&[LShift], layout.keycodes());
    assert_eq!(CustomEvent::NoEvent, layout.tick());
    assert!(layout.is_active());
    assert_keys(&[LShift, E], layout.keycodes());
    assert_eq!(CustomEvent::NoEvent, layout.tick());
    assert!(layout.is_active());
    assert_keys(&[LShift], layout.keycodes());
    assert_eq!(CustomEvent::NoEvent, layout.tick());
    assert!(layout.is_active());
    assert_keys(&[LShift, R], layout.keycodes());
    assert_eq!(CustomEvent::NoEvent, layout.tick());
    assert!(layout.is_active());
    assert_keys(&[LShift], layout.keycodes());
    assert_eq!(CustomEvent::NoEvent, layout.tick());
    assert!(layout.is_active());
    assert_keys(&[LShift, Kb1], layout.keycodes());
    assert_eq!(CustomEvent::NoEvent, layout.tick());
    assert!(layout.is_active());
    assert_keys(&[LShift], layout.keycodes());
    assert_eq!(CustomEvent::NoEvent, layout.tick());
    assert!(layout.is_active());
    assert_keys(&[LShift, Kb1], layout.keycodes());
    assert_eq!(CustomEvent::NoEvent, layout.tick());
    assert!(layout.is_active());
    assert_keys(&[LShift], layout.keycodes());
    assert_eq!(CustomEvent::NoEvent, layout.tick());
    assert!(layout.is_active());
    assert_keys(&[LShift, Kb1], layout.keycodes());
    assert_eq!(CustomEvent::NoEvent, layout.tick());
    assert!(layout.is_active());
    assert_keys(&[LShift], layout.keycodes());
    assert_eq!(CustomEvent::NoEvent, layout.tick());
    assert!(layout.is_active());
    assert_keys(&[LShift, Kb1], layout.keycodes());
    assert_eq!(CustomEvent::NoEvent, layout.tick());
    assert!(layout.is_active());
    assert_keys(&[LShift], layout.keycodes());
    assert_eq!(CustomEvent::NoEvent, layout.tick());
    assert!(layout.is_active());
    layout.event(Release(0, 3));
    assert_eq!(CustomEvent::NoEvent, layout.tick());
    assert!(!layout.is_active());
    assert_keys(&[], layout.keycodes());

    // Test a sequence with Tap Events
    assert_eq!(CustomEvent::NoEvent, layout.tick());
    assert!(!layout.is_active());
    assert_keys(&[], layout.keycodes());
    layout.event(Press(0, 4));
    assert_eq!(CustomEvent::NoEvent, layout.tick()); // Sequence detected & added
    assert!(layout.is_active());
    assert_keys(&[], layout.keycodes());
    assert_eq!(CustomEvent::NoEvent, layout.tick()); // To Process Tap(Q)
    assert!(layout.is_active());
    assert_keys(&[Q], layout.keycodes());
    assert_eq!(CustomEvent::NoEvent, layout.tick()); // Release(Q)
    assert!(layout.is_active());
    assert_keys(&[], layout.keycodes());
    assert_eq!(CustomEvent::NoEvent, layout.tick()); // To Process Tap(W)
    assert!(layout.is_active());
    assert_keys(&[W], layout.keycodes());
    assert_eq!(CustomEvent::NoEvent, layout.tick()); // Release(W)
    assert!(layout.is_active());
    assert_keys(&[], layout.keycodes());
    assert_eq!(CustomEvent::NoEvent, layout.tick()); // To Process Tap(E)
    assert!(layout.is_active());
    assert_keys(&[E], layout.keycodes());
    assert_eq!(CustomEvent::NoEvent, layout.tick()); // Release(E)
    assert!(layout.is_active());
    assert_keys(&[], layout.keycodes());
    assert_eq!(CustomEvent::NoEvent, layout.tick()); // Sequence is finished
    assert!(!layout.is_active());
    assert_keys(&[], layout.keycodes());
    layout.event(Release(0, 4));
    assert_eq!(CustomEvent::NoEvent, layout.tick());
    assert!(!layout.is_active());
    assert_keys(&[], layout.keycodes());

    // Test two sequences
    assert_eq!(CustomEvent::NoEvent, layout.tick());
    assert!(!layout.is_active());
    assert_keys(&[], layout.keycodes());
    layout.event(Press(0, 5));
    assert_eq!(CustomEvent::NoEvent, layout.tick()); // Sequence detected & added
    assert!(layout.is_active());
    assert_keys(&[], layout.keycodes());
    layout.event(Press(0, 4));
    assert_eq!(CustomEvent::NoEvent, layout.tick()); // Tap(X)
    assert!(layout.is_active());
    assert_keys(&[X], layout.keycodes());
    layout.event(Release(0, 5));
    assert_eq!(CustomEvent::NoEvent, layout.tick()); // Release(X), Tap(Q)
    assert!(layout.is_active());
    assert_keys(&[Q], layout.keycodes());
    layout.event(Release(0, 4));
    assert_eq!(CustomEvent::NoEvent, layout.tick()); // Tap(Y), Release(Q)
    assert!(layout.is_active());
    assert_keys(&[Y], layout.keycodes());
    assert_eq!(CustomEvent::NoEvent, layout.tick()); // Release(Y), Press(W)
    assert!(layout.is_active());
    assert_keys(&[W], layout.keycodes());
    assert_eq!(CustomEvent::NoEvent, layout.tick()); // Press(Z), Release(W)
    assert!(layout.is_active());
    assert_keys(&[Z], layout.keycodes());
    assert_eq!(CustomEvent::NoEvent, layout.tick()); // Release(Z), Press(E)
    assert!(layout.is_active());
    assert_keys(&[E], layout.keycodes());
    assert_eq!(CustomEvent::NoEvent, layout.tick()); // Release(E)
    assert!(layout.is_active());
    assert_keys(&[], layout.keycodes());
    assert_eq!(CustomEvent::NoEvent, layout.tick()); // Sequence is
    assert!(!layout.is_active());
    // finished
    assert_keys(&[], layout.keycodes());

    // Test ASCII bytes
    assert_eq!(CustomEvent::NoEvent, layout.tick());
    assert!(!layout.is_active());
    assert_keys(&[], layout.keycodes());
    layout.event(Press(0, 6));
    assert_eq!(CustomEvent::NoEvent, layout.tick());
    assert!(layout.is_active());
    layout.event(Release(0, 6));
    assert_eq!(CustomEvent::NoEvent, layout.tick());
    assert!(layout.is_active());
    assert_keys(&[T], layout.keycodes());
    assert_eq!(CustomEvent::NoEvent, layout.tick());
    assert!(layout.is_active());
    assert_keys(&[], layout.keycodes());
    assert_eq!(CustomEvent::NoEvent, layout.tick());
    assert!(layout.is_active());
    assert_keys(&[LShift, E], layout.keycodes());
    assert_eq!(CustomEvent::NoEvent, layout.tick());
    assert!(layout.is_active());
    assert_keys(&[], layout.keycodes());
    assert_eq!(CustomEvent::NoEvent, layout.tick());
    assert!(layout.is_active());
    assert_keys(&[S], layout.keycodes());
    assert_eq!(CustomEvent::NoEvent, layout.tick());
    assert!(layout.is_active());
    assert_keys(&[], layout.keycodes());
    assert_eq!(CustomEvent::NoEvent, layout.tick());
    assert!(layout.is_active());
    assert_keys(&[T], layout.keycodes());
    assert_eq!(CustomEvent::NoEvent, layout.tick());
    assert!(layout.is_active());
    assert_keys(&[], layout.keycodes());
    assert_eq!(CustomEvent::NoEvent, layout.tick());
    assert!(layout.is_active());
    assert_keys(&[LShift, Kb1], layout.keycodes());
    assert_eq!(CustomEvent::NoEvent, layout.tick());
    assert!(layout.is_active());
    assert_keys(&[], layout.keycodes()); // End of sequence
    assert_eq!(CustomEvent::NoEvent, layout.tick());
    assert!(!layout.is_active());
    assert_keys(&[], layout.keycodes()); // Should still be empty
}

#[test]
fn hold_tap_press_ends_lazy_tap_dance() {
    let layers: Layers<2, 1, 1> = [[[
        TapDance(leak(TapDanceAction {
            timeout: 10,
            actions: leak([k(A), k(B)]),
            config: TapDanceConfig::Lazy,
        })),
        HoldTap(leak(HoldTapAction {
            timeout: 200,
            hold: k(LAlt),
            tap: k(Space),
            config: HoldTapConfig::Default,
            tap_hold_interval: 0,
        })),
    ]]];
    let mut layout = Layout::new(layers);
    layout.event(Press(0, 0));
    assert_eq!(CustomEvent::NoEvent, layout.tick());
    assert_keys(&[], layout.keycodes());
    layout.event(Press(0, 1));
    assert_eq!(CustomEvent::NoEvent, layout.tick());
    assert_keys(&[A], layout.keycodes());
    for _ in 0..250 {
        assert_eq!(CustomEvent::NoEvent, layout.tick());
    }
    assert_keys(&[A, LAlt], layout.keycodes());
}
