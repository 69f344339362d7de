//! Backlight configurations and the commands that change them.

use rumcake::backlight::presses::{has_led_at, LastPresses};
use rumcake::backlight::rgb_backlight_matrix::animations as rgb_new;
use rumcake::backlight::rgb_matrix_animations as rgb_old;
use rumcake::backlight::simple_animations as simple_old;
use rumcake::backlight::simple_backlight::animations as simple_new;
use rumcake::backlight::simple_matrix_animations as matrix_old;
use rumcake::backlight::{adjust_u8, get_led_layout_bounds, seek_index};
use rumcake::layout::Event;

#[test]
fn default_configs() {
    let c = simple_new::BacklightConfig::default();
    assert!(c.enabled);
    assert_eq!(c.effect, simple_new::BacklightEffect::Solid);
    assert_eq!(c.val, 255);
    assert_eq!(c.speed, 86);
    let c = rgb_new::BacklightConfig::default();
    assert!(c.enabled);
    assert_eq!(c.effect, rgb_new::BacklightEffect::Solid);
    assert_eq!((c.hue, c.sat, c.val, c.speed), (0, 255, 255, 86));
    let c = rgb_old::BacklightConfig::default();
    assert_eq!((c.hue, c.sat, c.val, c.speed), (0, 255, 255, 86));
    let c = matrix_old::BacklightConfig::default();
    assert_eq!((c.enabled, c.val, c.speed), (true, 255, 86));
    let c = simple_old::BacklightConfig::default();
    assert_eq!((c.enabled, c.val, c.speed), (true, 255, 86));
}

#[test]
fn default_trait_matches_default_configs() {
    assert_eq!(
        <simple_new::BacklightConfig as Default>::default(),
        simple_new::BacklightConfig::default()
    );
    assert_eq!(
        <rgb_new::BacklightConfig as Default>::default(),
        rgb_new::BacklightConfig::default()
    );
    assert_eq!(
        <rgb_old::BacklightConfig as Default>::default(),
        rgb_old::BacklightConfig::default()
    );
    assert_eq!(
        <matrix_old::BacklightConfig as Default>::default(),
        matrix_old::BacklightConfig::default()
    );
    let c: simple_old::BacklightConfig = Default::default();
    assert_eq!((c.enabled, c.effect, c.val, c.speed), (true, simple_old::BacklightEffect::Solid, 255, 86));
}

#[test]
fn effects_cycle_around() {
    let mut e = simple_old::BacklightEffect::Reactive;
    e.increment();
    assert_eq!(e, simple_old::BacklightEffect::Solid);
    e.decrement();
    assert_eq!(e, simple_old::BacklightEffect::Reactive);
    e.decrement();
    assert_eq!(e, simple_old::BacklightEffect::Breathing);
    let mut e = rgb_new::BacklightEffect::Solid;
    e.decrement();
    assert_eq!(e, rgb_new::BacklightEffect::SolidMultiSplash);
    assert_eq!(rgb_new::EFFECT_COUNT, 44);
    assert_eq!(matrix_old::EFFECT_COUNT, 24);
}

#[test]
fn effect_kinds() {
    assert!(!simple_new::BacklightEffect::Solid.is_animated());
    assert!(simple_new::BacklightEffect::Breathing.is_animated());
    assert!(!simple_new::BacklightEffect::Breathing.is_reactive());
    assert!(simple_new::BacklightEffect::Reactive.is_reactive());
    assert!(rgb_new::BacklightEffect::Splash.is_reactive());
    assert!(!rgb_new::BacklightEffect::GradientUpDown.is_animated());
    assert!(rgb_new::BacklightEffect::DigitalRain.is_animated());
}

#[test]
fn toggle_and_switch_power() {
    let mut a = simple_new::BacklightAnimator::new(simple_new::BacklightConfig::default());
    let enabled = [true, false, true];
    a.process_command(simple_new::BacklightCommand::Toggle, &enabled);
    assert!(!a.config.enabled);
    assert!(!a.is_animated());
    a.process_command(simple_new::BacklightCommand::Toggle, &enabled);
    assert!(a.config.enabled);
    a.process_command(simple_new::BacklightCommand::TurnOff, &enabled);
    assert!(!a.config.enabled);
    a.process_command(simple_new::BacklightCommand::TurnOn, &enabled);
    assert!(a.config.enabled);
}

#[test]
fn saturating_value_and_speed() {
    let mut a = simple_new::BacklightAnimator::new(simple_new::BacklightConfig::default());
    let enabled = [true, true, false];
    a.process_command(simple_new::BacklightCommand::DecreaseValue(100), &enabled);
    assert_eq!(a.config.val, 155);
    a.process_command(simple_new::BacklightCommand::IncreaseValue(200), &enabled);
    assert_eq!(a.config.val, 255);
    a.process_command(simple_new::BacklightCommand::DecreaseSpeed(90), &enabled);
    assert_eq!(a.config.speed, 0);
    a.process_command(simple_new::BacklightCommand::IncreaseSpeed(30), &enabled);
    assert_eq!(a.config.speed, 30);
    a.process_command(simple_new::BacklightCommand::SetValue(7), &enabled);
    assert_eq!(a.config.val, 7);
}

#[test]
fn reset_and_set_time() {
    let mut a = simple_new::BacklightAnimator::new(simple_new::BacklightConfig::default());
    a.tick = 500;
    a.process_command(simple_new::BacklightCommand::ResetTime, &[true, true, false]);
    assert_eq!(a.tick, 0);
    let mut b = rgb_old::BacklightAnimator::new(rgb_old::BacklightConfig::default());
    b.process_command(rgb_old::BacklightCommand::SetTime(1234));
    assert_eq!(b.tick, 1234);
}

#[test]
fn adjust_clamps() {
    let mut a = rgb_old::BacklightAnimator::new(rgb_old::BacklightConfig::default());
    a.process_command(rgb_old::BacklightCommand::AdjustHue(-5));
    assert_eq!(a.config.hue, 0);
    a.process_command(rgb_old::BacklightCommand::AdjustHue(300));
    assert_eq!(a.config.hue, 255);
    a.process_command(rgb_old::BacklightCommand::AdjustSaturation(-55));
    assert_eq!(a.config.sat, 200);
    assert_eq!(adjust_u8(10, 5), 15);
    assert_eq!(adjust_u8(10, -20), 0);
    assert_eq!(adjust_u8(250, 20), 255);
}

#[test]
fn set_config_replaces() {
    let mut a = matrix_old::BacklightAnimator::new(matrix_old::BacklightConfig::default());
    let c = matrix_old::BacklightConfig {
        enabled: false,
        effect: matrix_old::BacklightEffect::Raindrops,
        val: 3,
        speed: 4,
    };
    a.process_command(matrix_old::BacklightCommand::SetConfig(c), &[true; 24]);
    assert_eq!(a.config, c);
}

#[test]
fn old_effect_commands_step() {
    let mut a = simple_old::BacklightAnimator::new(simple_old::BacklightConfig::default());
    a.process_command(simple_old::BacklightCommand::NextEffect);
    assert_eq!(a.config.effect, simple_old::BacklightEffect::Breathing);
    a.process_command(simple_old::BacklightCommand::PrevEffect);
    a.process_command(simple_old::BacklightCommand::PrevEffect);
    assert_eq!(a.config.effect, simple_old::BacklightEffect::Reactive);
}

#[test]
fn rgb_next_effect_skips_switched_off_effects() {
    let mut a = rgb_new::BacklightAnimator::new(rgb_new::BacklightConfig::default());
    let mut enabled = [false; 44];
    enabled[0] = true;
    enabled[5] = true;
    a.process_command(rgb_new::BacklightCommand::NextEffect, &enabled);
    assert_eq!(a.config.effect, rgb_new::BacklightEffect::ColorbandSat);
    a.process_command(rgb_new::BacklightCommand::NextEffect, &enabled);
    assert_eq!(a.config.effect, rgb_new::BacklightEffect::Solid);
    a.process_command(rgb_new::BacklightCommand::PrevEffect, &enabled);
    assert_eq!(a.config.effect, rgb_new::BacklightEffect::ColorbandSat);
}

#[test]
fn simple_next_effect_stops_at_a_switched_off_effect() {
    let mut a = simple_new::BacklightAnimator::new(simple_new::BacklightConfig::default());
    let enabled = [true, true, false];
    a.process_command(simple_new::BacklightCommand::NextEffect, &enabled);
    assert_eq!(a.config.effect, simple_new::BacklightEffect::Reactive);
    a.process_command(simple_new::BacklightCommand::PrevEffect, &enabled);
    assert_eq!(a.config.effect, simple_new::BacklightEffect::Reactive);
}

#[test]
fn seek_wraps_around() {
    assert_eq!(seek_index(3, &[true, false, false, false], true, true), 0);
    assert_eq!(seek_index(0, &[true, false, false, true], true, false), 3);
    assert_eq!(seek_index(1, &[false, true, false], true, true), 1);
}

#[test]
fn animation_clock() {
    // 20 frames per second at speed 86: (20 << 8) / (86 + 128 + 43) = 5120 / 257 = 19
    assert_eq!(simple_new::animation_time(19, 20, 86), (19 << 8) / 19);
    assert_eq!(simple_new::animation_time(100, 20, 86), 25600 / 19);
    assert_eq!(simple_new::reactive_level(300, 100), 55);
    assert_eq!(simple_new::reactive_level(400, 100), 0);
    assert_eq!(simple_new::reactive_level(100, 100), 255);
}

#[test]
fn layout_bounds() {
    let layout: [[Option<(u8, u8)>; 3]; 2] = [
        [Some((10, 20)), None, Some((200, 30))],
        [None, Some((50, 5)), None],
    ];
    let b = get_led_layout_bounds(&layout);
    assert_eq!(b.min, (10, 5));
    assert_eq!(b.max, (200, 30));
    assert_eq!(b.mid, (105, 17));
    assert!(has_led_at(&layout, 0, 2));
    assert!(!has_led_at(&layout, 1, 2));
    assert!(!has_led_at(&layout, 5, 0));
}

#[test]
fn last_presses() {
    let mut p = LastPresses::new();
    p.register_event(Event::Press(0, 1), 5, true);
    p.register_event(Event::Press(0, 2), 6, false);
    p.register_event(Event::Release(0, 1), 7, true);
    assert_eq!(p.len(), 1);
    assert_eq!(p.get(0), ((0, 1), 5));
    p.register_event(Event::Press(0, 1), 9, false);
    assert_eq!(p.get(0), ((0, 1), 9));
    for i in 0..8u8 {
        p.register_event(Event::Press(1, i), 10 + i as u32, true);
    }
    assert_eq!(p.len(), 8);
    assert_eq!(p.get(0), ((1, 0), 10));
    assert_eq!(p.get(7), ((1, 7), 17));
}

#[test]
fn toggle_twice_restores_the_animator() {
    let start = rgb_old::BacklightAnimator::new(rgb_old::BacklightConfig::default());
    let mut a = start;
    a.process_command(rgb_old::BacklightCommand::Toggle);
    a.process_command(rgb_old::BacklightCommand::Toggle);
    assert_eq!(a, start);
    a.process_command(rgb_old::BacklightCommand::NextEffect);
    a.process_command(rgb_old::BacklightCommand::PrevEffect);
    assert_eq!(a, start);
}

#[test]
fn matrix_frame_drawing() {
    let layout = [[Some((0, 0)), None], [Some((1, 1)), Some((2, 2))]];
    let alpha = [[true, false], [false, true]];
    let computed = [[10, 20], [30, 40]];
    let buf = vec![vec![1, 2], vec![3, 4]];
    let mut a = matrix_old::BacklightAnimator::new(matrix_old::BacklightConfig::default());
    assert_eq!(
        a.draw_frame(&buf, &layout, &alpha, &computed, true),
        Some(vec![vec![255, 2], vec![255, 255]])
    );
    assert_eq!(a.tick, 1);
    a.config.val = 128;
    a.config.effect = matrix_old::BacklightEffect::AlphasMods;
    assert_eq!(
        a.draw_frame(&buf, &layout, &alpha, &computed, true),
        Some(vec![vec![128, 2], vec![43, 128]])
    );
    a.config.val = 255;
    a.config.effect = matrix_old::BacklightEffect::Breathing;
    assert_eq!(
        a.draw_frame(&buf, &layout, &alpha, &computed, true),
        Some(vec![vec![10, 2], vec![30, 40]])
    );
    assert_eq!(a.draw_frame(&buf, &layout, &alpha, &computed, false), Some(buf.clone()));
    assert_eq!(a.tick, 4);
    a.config.enabled = false;
    assert_eq!(a.draw_frame(&buf, &layout, &alpha, &computed, true), None);
    assert_eq!(a.tick, 4);
}
