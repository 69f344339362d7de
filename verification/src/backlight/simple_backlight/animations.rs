//! Configuration, commands and effects of a simple backlight (one brightness for every LED).

use crate::backlight::{sat_add, sat_sub, seek, seek_index};
use vstd::prelude::*;

verus! {

/// The state of the backlight that the commands change: whether it is on, the effect shown,
/// and the effect's parameters.
#[derive(Debug, Clone, Copy, PartialEq, Eq, Structural)]
pub struct BacklightConfig {
    pub enabled: bool,
    pub effect: BacklightEffect,
    pub val: u8,
    pub speed: u8,
}

impl BacklightConfig {
    /// The configuration a keyboard starts with: on, showing [`BacklightEffect::Solid`].
    pub open spec fn initial() -> Self {
        BacklightConfig {
            enabled: true,
            effect: BacklightEffect::Solid,
            val: 255,
            speed: 86,
        }
    }

    /// The configuration a keyboard starts with.
    pub fn default() -> (r: Self)
        ensures
            r == Self::initial(),
    {
        BacklightConfig {
            enabled: true,
            effect: BacklightEffect::Solid,
            val: 255,
            speed: 86,
        }
    }
}

impl Default for BacklightConfig {
    /// The configuration a keyboard starts with.
    fn default() -> (r: Self)
        ensures
            r == Self::initial(),
    {
        BacklightConfig {
            enabled: true,
            effect: BacklightEffect::Solid,
            val: 255,
            speed: 86,
        }
    }
}

/// A request to change the backlight.
#[derive(Debug, Clone, Copy)]
pub enum BacklightCommand {
    Toggle,
    TurnOn,
    TurnOff,
    NextEffect,
    PrevEffect,
    SetEffect(BacklightEffect),
    SetValue(u8),
    IncreaseValue(u8),
    DecreaseValue(u8),
    SetSpeed(u8),
    IncreaseSpeed(u8),
    DecreaseSpeed(u8),
    /// Restarts the animation clock; used to keep the halves of a split keyboard in step.
    ResetTime,
}

/// The effects, in the order in which the effect switching commands go through them.
#[derive(Debug, Clone, Copy, PartialEq, Eq, Structural)]
pub enum BacklightEffect {
    Solid,
    Breathing,
    Reactive,
}

/// The number of effects.
pub const EFFECT_COUNT: usize = 3;

impl BacklightEffect {
    /// The position of the effect in the list of effects.
    pub open spec fn index(self) -> int {
        match self {
            BacklightEffect::Solid => 0,
            BacklightEffect::Breathing => 1,
            BacklightEffect::Reactive => 2,
        }
    }

    /// The effect at a position of the list of effects.
    pub open spec fn at(i: int) -> Self {
        if i == 0 {
            BacklightEffect::Solid
        } else if i == 1 {
            BacklightEffect::Breathing
        } else {
            BacklightEffect::Reactive
        }
    }

    /// Whether the effect changes from frame to frame.
    pub open spec fn animated(self) -> bool {
        match self {
            BacklightEffect::Solid => false,
            _ => true,
        }
    }

    /// Whether the effect reacts to key presses.
    pub open spec fn reactive(self) -> bool {
        match self {
            BacklightEffect::Reactive => true,
            _ => false,
        }
    }

    /// The position of the effect in the list of effects.
    pub fn position(&self) -> (r: usize)
        ensures
            r == self.index(),
    {
        match self {
            BacklightEffect::Solid => 0,
            BacklightEffect::Breathing => 1,
            BacklightEffect::Reactive => 2,
        }
    }

    /// The effect at a position of the list of effects.
    pub fn from_position(i: usize) -> (r: Self)
        requires
            i < EFFECT_COUNT,
        ensures
            r == Self::at(i as int),
            r.index() == i,
    {
        if i == 0 {
            BacklightEffect::Solid
        } else if i == 1 {
            BacklightEffect::Breathing
        } else {
            BacklightEffect::Reactive
        }
    }

    /// The effect after this one; the last effect is followed by the first.
    pub open spec fn next(self) -> Self {
        if self.index() + 1 >= 3 {
            Self::at(0)
        } else {
            Self::at(self.index() + 1)
        }
    }

    /// The effect before this one; the first effect is preceded by the last.
    pub open spec fn prev(self) -> Self {
        if self.index() == 0 {
            Self::at(2)
        } else {
            Self::at(self.index() - 1)
        }
    }

    /// Moves to the next effect, wrapping from the last to the first.
    pub fn increment(&mut self)
        ensures
            *final(self) == old(self).next(),
    {
        let i = self.position();
        *self = if i + 1 >= EFFECT_COUNT {
            Self::from_position(0)
        } else {
            Self::from_position(i + 1)
        };
    }

    /// Moves to the previous effect, wrapping from the first to the last.
    pub fn decrement(&mut self)
        ensures
            *final(self) == old(self).prev(),
    {
        let i = self.position();
        *self = if i == 0 {
            Self::from_position(EFFECT_COUNT - 1)
        } else {
            Self::from_position(i - 1)
        };
    }

    /// Whether the effect changes from frame to frame.
    pub fn is_animated(&self) -> (r: bool)
        ensures
            r == self.animated(),
    {
        match self {
            BacklightEffect::Solid => false,
            _ => true,
        }
    }

    /// Whether the effect reacts to key presses.
    pub fn is_reactive(&self) -> (r: bool)
        ensures
            r == self.reactive(),
    {
        match self {
            BacklightEffect::Reactive => true,
            _ => false,
        }
    }

    /// Whether the keyboard has this effect switched on: `enabled` holds one flag per effect,
    /// in the order of the list of effects.
    pub fn is_enabled(&self, enabled: &[bool]) -> (r: bool)
        requires
            enabled@.len() == EFFECT_COUNT,
        ensures
            r == enabled@[self.index()],
    {
        enabled[self.position()]
    }
}

/// The part of the animator's state that commands change: its copy of the configuration and
/// its animation clock, in frames.
#[derive(Debug, Clone, Copy, PartialEq, Eq, Structural)]
pub struct BacklightAnimator {
    pub config: BacklightConfig,
    pub tick: u32,
}

impl BacklightAnimator {
    /// An animator that starts from `config`, at frame 0.
    pub fn new(config: BacklightConfig) -> (r: Self)
        ensures
            r.config == config,
            r.tick == 0,
    {
        BacklightAnimator { config, tick: 0 }
    }

    /// Whether the animator has to draw new frames: it is on and shows an animated effect.
    pub fn is_animated(&self) -> (r: bool)
        ensures
            r == (self.config.enabled && self.config.effect.animated()),
    {
        self.config.enabled && self.config.effect.is_animated()
    }

    /// Where an effect switching command lands: searching from the current effect, in the
    /// command's direction, the first effect whose enabled flag is `false`.
    pub open spec fn switched(effect: BacklightEffect, forward: bool, enabled: Seq<bool>) -> BacklightEffect {
        BacklightEffect::at(seek(effect.index(), 3, forward, enabled, false, 3))
    }

    /// Whether `command` can be carried out: an effect switching command needs an effect whose
    /// enabled flag is `false`, otherwise the search for one never ends.
    pub open spec fn can_process(command: BacklightCommand, enabled: Seq<bool>) -> bool {
        (command is NextEffect || command is PrevEffect) ==> exists|t: int|
            0 <= t < 3 && enabled[t] == false
    }

    /// The animator after carrying out `command`.
    pub open spec fn after(self, command: BacklightCommand, enabled: Seq<bool>) -> Self {
        let c = self.config;
        match command {
            BacklightCommand::Toggle => Self { config: BacklightConfig { enabled: !c.enabled, ..c }, ..self },
            BacklightCommand::TurnOn => Self { config: BacklightConfig { enabled: true, ..c }, ..self },
            BacklightCommand::TurnOff => Self { config: BacklightConfig { enabled: false, ..c }, ..self },
            BacklightCommand::NextEffect => Self {
                config: BacklightConfig { effect: Self::switched(c.effect, true, enabled), ..c },
                ..self
            },
            BacklightCommand::PrevEffect => Self {
                config: BacklightConfig { effect: Self::switched(c.effect, false, enabled), ..c },
                ..self
            },
            BacklightCommand::SetEffect(e) => Self { config: BacklightConfig { effect: e, ..c }, ..self },
            BacklightCommand::SetValue(v) => Self { config: BacklightConfig { val: v, ..c }, ..self },
            BacklightCommand::IncreaseValue(v) => Self { config: BacklightConfig { val: sat_add(c.val, v), ..c }, ..self },
            BacklightCommand::DecreaseValue(v) => Self { config: BacklightConfig { val: sat_sub(c.val, v), ..c }, ..self },
            BacklightCommand::SetSpeed(v) => Self { config: BacklightConfig { speed: v, ..c }, ..self },
            BacklightCommand::IncreaseSpeed(v) => Self { config: BacklightConfig { speed: sat_add(c.speed, v), ..c }, ..self },
            BacklightCommand::DecreaseSpeed(v) => Self { config: BacklightConfig { speed: sat_sub(c.speed, v), ..c }, ..self },
            BacklightCommand::ResetTime => Self { tick: 0, ..self },
        }
    }

    /// Carries out a command.
    ///
    /// `enabled` holds the keyboard's flag for each effect, in the order of the list of effects.
    pub fn process_command(&mut self, command: BacklightCommand, enabled: &[bool])
        requires
            enabled@.len() == EFFECT_COUNT,
            Self::can_process(command, enabled@),
        ensures
            *final(self) == old(self).after(command, enabled@),
    {
        match command {
            BacklightCommand::Toggle => {
                self.config.enabled = !self.config.enabled;
            },
            BacklightCommand::TurnOn => {
                self.config.enabled = true;
            },
            BacklightCommand::TurnOff => {
                self.config.enabled = false;
            },
            BacklightCommand::NextEffect => {
                let i = seek_index(self.config.effect.position(), enabled, false, true);
                self.config.effect = BacklightEffect::from_position(i);
            },
            BacklightCommand::PrevEffect => {
                let i = seek_index(self.config.effect.position(), enabled, false, false);
                self.config.effect = BacklightEffect::from_position(i);
            },
            BacklightCommand::SetEffect(effect) => {
                self.config.effect = effect;
            },
            BacklightCommand::SetValue(v) => {
                self.config.val = v;
            },
            BacklightCommand::IncreaseValue(amount) => {
                self.config.val = self.config.val.saturating_add(amount);
            },
            BacklightCommand::DecreaseValue(amount) => {
                self.config.val = self.config.val.saturating_sub(amount);
            },
            BacklightCommand::SetSpeed(v) => {
                self.config.speed = v;
            },
            BacklightCommand::IncreaseSpeed(amount) => {
                self.config.speed = self.config.speed.saturating_add(amount);
            },
            BacklightCommand::DecreaseSpeed(amount) => {
                self.config.speed = self.config.speed.saturating_sub(amount);
            },
            BacklightCommand::ResetTime => {
                self.tick = 0;
            },
        }
    }
}

/// The divisor that turns frames into animation time: the number of frames, times 256, in which
/// the animation clock advances by 256 at the configured speed.
pub open spec fn frames_per_unit(fps: u32, speed: u8) -> u32 {
    ((fps << 8u32) / (speed + 128 + (speed >> 1u8)) as u32) as u32
}

/// The animation clock at frame `tick`, for a keyboard that draws `fps` frames per second: it
/// advances by 255 every second at the middle speed, and faster or slower with the speed
/// setting. The animation clock must advance at all: `frames_per_unit(fps, speed)` is not 0.
pub fn animation_time(tick: u32, fps: u32, speed: u8) -> (r: u32)
    requires
        frames_per_unit(fps, speed) != 0,
    ensures
        r == (tick << 8u32) / frames_per_unit(fps, speed),
{
    let per_unit = (fps << 8u32) / (speed as u32 + 128 + ((speed as u32) >> 1u32));
    assert((speed as u32) >> 1u32 == (speed >> 1u8) as u32) by (bit_vector);
    (tick << 8u32) / per_unit
}

/// The brightness of the reactive effect, `time` units after the last key press at
/// `last_press`: it fades from full brightness to dark in 255 units.
pub fn reactive_level(time: u32, last_press: u32) -> (r: u8)
    requires
        last_press <= time,
    ensures
        r == (if time - last_press >= 255 { 0 } else { 255 - (time - last_press) }),
{
    (255u32).saturating_sub(time - last_press) as u8
}


/// Every position of the list of effects holds an effect, and the effect at a position is at
/// that position.
pub proof fn lemma_positions(i: int)
    requires
        0 <= i < EFFECT_COUNT,
    ensures
        BacklightEffect::at(i).index() == i,
{
}

/// Moving to the next effect and then to the previous one, or the other way round, comes back
/// to the same effect.
pub proof fn lemma_increment_decrement(e: BacklightEffect)
    ensures
        e.next().prev() == e,
        e.prev().next() == e,
{
}

/// Toggling the backlight twice restores the animator.
pub proof fn lemma_toggle_twice(a: BacklightAnimator, enabled: Seq<bool>)
    ensures
        a.after(BacklightCommand::Toggle, enabled).after(BacklightCommand::Toggle, enabled) == a,
{
}

/// An effect switching command lands on an effect whose enabled flag is `false` (one whose enabled flag is off),
/// and changes nothing but the effect.
pub proof fn lemma_switch_lands(a: BacklightAnimator, forward: bool, enabled: Seq<bool>)
    requires
        enabled.len() == EFFECT_COUNT,
        exists|t: int| 0 <= t < EFFECT_COUNT && enabled[t] == false,
    ensures
        enabled[BacklightAnimator::switched(a.config.effect, forward, enabled).index()] == false,
        a.after(if forward { BacklightCommand::NextEffect } else { BacklightCommand::PrevEffect }, enabled)
            == (BacklightAnimator {
            config: BacklightConfig { effect: BacklightAnimator::switched(a.config.effect, forward, enabled), ..a.config },
            ..a
        }),
{
    crate::backlight::lemma_seek_lands_on_wanted(a.config.effect.index(), forward, enabled, false);
    lemma_positions(crate::backlight::seek(a.config.effect.index(), 3, forward, enabled, false, 3));
}

/// Raising the brightness never lowers it and lowering it never raises it; both stop at the
/// ends of the range.
pub proof fn lemma_value_steps(a: BacklightAnimator, amount: u8, enabled: Seq<bool>)
    ensures
        a.after(BacklightCommand::IncreaseValue(amount), enabled).config.val >= a.config.val,
        a.after(BacklightCommand::DecreaseValue(amount), enabled).config.val <= a.config.val,
        a.config.val + amount >= 255 ==> a.after(BacklightCommand::IncreaseValue(amount), enabled).config.val == 255,
        a.config.val <= amount ==> a.after(BacklightCommand::DecreaseValue(amount), enabled).config.val == 0,
{
}

/// What each command other than an effect switch does to the animator: switching on and off
/// changes only whether the backlight is on; a setting command sets its parameter to the given
/// value; raising, lowering or adjusting a parameter moves it by the given amount, stopping at
/// 0 and 255; a new configuration replaces the old one; setting the clock changes only the
/// clock. Each leaves every other field as it was.
pub proof fn lemma_command_effects(a: BacklightAnimator, x: u8, e: BacklightEffect, enabled: Seq<bool>)
    ensures
        a.after(BacklightCommand::Toggle, enabled) == (BacklightAnimator { config: BacklightConfig { enabled: !a.config.enabled, ..a.config }, ..a }),
        a.after(BacklightCommand::TurnOn, enabled) == (BacklightAnimator { config: BacklightConfig { enabled: true, ..a.config }, ..a }),
        a.after(BacklightCommand::TurnOff, enabled) == (BacklightAnimator { config: BacklightConfig { enabled: false, ..a.config }, ..a }),
        a.after(BacklightCommand::SetEffect(e), enabled) == (BacklightAnimator { config: BacklightConfig { effect: e, ..a.config }, ..a }),
        a.after(BacklightCommand::SetValue(x), enabled).config.val == x,
        a.after(BacklightCommand::SetValue(x), enabled) == (BacklightAnimator { config: BacklightConfig { val: x, ..a.config }, ..a }),
        a.after(BacklightCommand::IncreaseValue(x), enabled).config.val >= a.config.val,
        a.after(BacklightCommand::IncreaseValue(x), enabled).config.val == (if a.config.val + x <= 255 { a.config.val + x } else { 255 }),
        a.after(BacklightCommand::IncreaseValue(x), enabled) == (BacklightAnimator { config: BacklightConfig { val: a.after(BacklightCommand::IncreaseValue(x), enabled).config.val, ..a.config }, ..a }),
        a.after(BacklightCommand::DecreaseValue(x), enabled).config.val <= a.config.val,
        a.after(BacklightCommand::DecreaseValue(x), enabled).config.val == (if a.config.val >= x { a.config.val - x } else { 0 }),
        a.after(BacklightCommand::DecreaseValue(x), enabled) == (BacklightAnimator { config: BacklightConfig { val: a.after(BacklightCommand::DecreaseValue(x), enabled).config.val, ..a.config }, ..a }),
        a.after(BacklightCommand::SetSpeed(x), enabled).config.speed == x,
        a.after(BacklightCommand::SetSpeed(x), enabled) == (BacklightAnimator { config: BacklightConfig { speed: x, ..a.config }, ..a }),
        a.after(BacklightCommand::IncreaseSpeed(x), enabled).config.speed >= a.config.speed,
        a.after(BacklightCommand::IncreaseSpeed(x), enabled).config.speed == (if a.config.speed + x <= 255 { a.config.speed + x } else { 255 }),
        a.after(BacklightCommand::IncreaseSpeed(x), enabled) == (BacklightAnimator { config: BacklightConfig { speed: a.after(BacklightCommand::IncreaseSpeed(x), enabled).config.speed, ..a.config }, ..a }),
        a.after(BacklightCommand::DecreaseSpeed(x), enabled).config.speed <= a.config.speed,
        a.after(BacklightCommand::DecreaseSpeed(x), enabled).config.speed == (if a.config.speed >= x { a.config.speed - x } else { 0 }),
        a.after(BacklightCommand::DecreaseSpeed(x), enabled) == (BacklightAnimator { config: BacklightConfig { speed: a.after(BacklightCommand::DecreaseSpeed(x), enabled).config.speed, ..a.config }, ..a }),
        a.after(BacklightCommand::ResetTime, enabled) == (BacklightAnimator { tick: 0, ..a }),
{
}

/// An effect switching command stops at the first effect, in its direction, that it looks for
/// (one whose flag is `false`): every effect that it passes on the way is one whose flag is `true`.
pub proof fn lemma_switch_first(a: BacklightAnimator, forward: bool, enabled: Seq<bool>)
    requires
        enabled.len() == EFFECT_COUNT,
        exists|t: int| 0 <= t < EFFECT_COUNT && enabled[t] == false,
    ensures
        forall|t: int|
            0 <= t < EFFECT_COUNT && 1 <= crate::backlight::distance(
                a.config.effect.index(),
                t,
                EFFECT_COUNT as int,
                forward,
            ) < crate::backlight::distance(
                a.config.effect.index(),
                BacklightAnimator::switched(a.config.effect, forward, enabled).index(),
                EFFECT_COUNT as int,
                forward,
            ) ==> enabled[t],
{
    assert(0 <= a.config.effect.index() < 3);
    crate::backlight::lemma_seek_lands_on_wanted(a.config.effect.index(), forward, enabled, false);
    crate::backlight::lemma_seek_first(a.config.effect.index(), forward, enabled, false);
    lemma_positions(crate::backlight::seek(a.config.effect.index(), 3, forward, enabled, false, 3));
}

} // verus!
