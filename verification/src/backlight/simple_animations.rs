//! Configuration, commands and effects of a simple backlight (one brightness for every LED).

use crate::backlight::{adjust_u8, clamp_u8};
use vstd::prelude::*;

verus! {

/// The state of the backlight that the commands change: whether it is on, the effect shown,
/// and the effect's parameters.
#[derive(Debug, Clone, Copy, PartialEq, Eq, Structural)]
pub struct BacklightConfig {
    pub enabled: bool,
    pub effect: BacklightEffect,
    pub val: u8,
    pub speed: u8,
}

impl BacklightConfig {
    /// The configuration a keyboard starts with: on, showing [`BacklightEffect::Solid`].
    pub open spec fn initial() -> Self {
        BacklightConfig {
            enabled: true,
            effect: BacklightEffect::Solid,
            val: 255,
            speed: 86,
        }
    }
}

impl Default for BacklightConfig {
    /// The configuration a keyboard starts with.
    fn default() -> (r: Self)
        ensures
            r == Self::initial(),
    {
        BacklightConfig {
            enabled: true,
            effect: BacklightEffect::Solid,
            val: 255,
            speed: 86,
        }
    }
}

/// A request to change the backlight.
#[derive(Debug, Clone, Copy)]
pub enum BacklightCommand {
    Toggle,
    NextEffect,
    PrevEffect,
    SetEffect(BacklightEffect),
    SetValue(u8),
    AdjustValue(i16),
    SetSpeed(u8),
    AdjustSpeed(i16),
    SetConfig(BacklightConfig),
    /// Sets the animation clock; used to keep the halves of a split keyboard in step.
    SetTime(u32),
}

/// The effects, in the order in which the effect switching commands go through them.
#[derive(Debug, Clone, Copy, PartialEq, Eq, Structural)]
pub enum BacklightEffect {
    Solid,
    Breathing,
    Reactive,
}

/// The number of effects.
pub const EFFECT_COUNT: usize = 3;

impl BacklightEffect {
    /// The position of the effect in the list of effects.
    pub open spec fn index(self) -> int {
        match self {
            BacklightEffect::Solid => 0,
            BacklightEffect::Breathing => 1,
            BacklightEffect::Reactive => 2,
        }
    }

    /// The effect at a position of the list of effects.
    pub open spec fn at(i: int) -> Self {
        if i == 0 {
            BacklightEffect::Solid
        } else if i == 1 {
            BacklightEffect::Breathing
        } else {
            BacklightEffect::Reactive
        }
    }

    /// Whether the effect changes from frame to frame.
    pub open spec fn animated(self) -> bool {
        match self {
            BacklightEffect::Solid => false,
            _ => true,
        }
    }

    /// Whether the effect reacts to key presses.
    pub open spec fn reactive(self) -> bool {
        match self {
            BacklightEffect::Reactive => true,
            _ => false,
        }
    }

    /// The position of the effect in the list of effects.
    pub fn position(&self) -> (r: usize)
        ensures
            r == self.index(),
    {
        match self {
            BacklightEffect::Solid => 0,
            BacklightEffect::Breathing => 1,
            BacklightEffect::Reactive => 2,
        }
    }

    /// The effect at a position of the list of effects.
    pub fn from_position(i: usize) -> (r: Self)
        requires
            i < EFFECT_COUNT,
        ensures
            r == Self::at(i as int),
            r.index() == i,
    {
        if i == 0 {
            BacklightEffect::Solid
        } else if i == 1 {
            BacklightEffect::Breathing
        } else {
            BacklightEffect::Reactive
        }
    }

    /// The effect after this one; the last effect is followed by the first.
    pub open spec fn next(self) -> Self {
        if self.index() + 1 >= 3 {
            Self::at(0)
        } else {
            Self::at(self.index() + 1)
        }
    }

    /// The effect before this one; the first effect is preceded by the last.
    pub open spec fn prev(self) -> Self {
        if self.index() == 0 {
            Self::at(2)
        } else {
            Self::at(self.index() - 1)
        }
    }

    /// Moves to the next effect, wrapping from the last to the first.
    pub fn increment(&mut self)
        ensures
            *final(self) == old(self).next(),
    {
        let i = self.position();
        *self = if i + 1 >= EFFECT_COUNT {
            Self::from_position(0)
        } else {
            Self::from_position(i + 1)
        };
    }

    /// Moves to the previous effect, wrapping from the first to the last.
    pub fn decrement(&mut self)
        ensures
            *final(self) == old(self).prev(),
    {
        let i = self.position();
        *self = if i == 0 {
            Self::from_position(EFFECT_COUNT - 1)
        } else {
            Self::from_position(i - 1)
        };
    }

    /// Whether the effect changes from frame to frame.
    pub fn is_animated(&self) -> (r: bool)
        ensures
            r == self.animated(),
    {
        match self {
            BacklightEffect::Solid => false,
            _ => true,
        }
    }

    /// Whether the effect reacts to key presses.
    pub fn is_reactive(&self) -> (r: bool)
        ensures
            r == self.reactive(),
    {
        match self {
            BacklightEffect::Reactive => true,
            _ => false,
        }
    }
}

/// The part of the animator's state that commands change: its copy of the configuration and
/// its animation clock, in frames.
#[derive(Debug, Clone, Copy, PartialEq, Eq, Structural)]
pub struct BacklightAnimator {
    pub config: BacklightConfig,
    pub tick: u32,
}

impl BacklightAnimator {
    /// An animator that starts from `config`, at frame 0.
    pub fn new(config: BacklightConfig) -> (r: Self)
        ensures
            r.config == config,
            r.tick == 0,
    {
        BacklightAnimator { config, tick: 0 }
    }

    /// Whether the animator has to draw new frames: it is on and shows an animated effect.
    pub fn is_animated(&self) -> (r: bool)
        ensures
            r == (self.config.enabled && self.config.effect.animated()),
    {
        self.config.enabled && self.config.effect.is_animated()
    }

    /// The animator after carrying out `command`.
    pub open spec fn after(self, command: BacklightCommand) -> Self {
        let c = self.config;
        match command {
            BacklightCommand::Toggle => Self { config: BacklightConfig { enabled: !c.enabled, ..c }, ..self },
            BacklightCommand::NextEffect => Self { config: BacklightConfig { effect: c.effect.next(), ..c }, ..self },
            BacklightCommand::PrevEffect => Self { config: BacklightConfig { effect: c.effect.prev(), ..c }, ..self },
            BacklightCommand::SetEffect(e) => Self { config: BacklightConfig { effect: e, ..c }, ..self },
            BacklightCommand::SetValue(v) => Self { config: BacklightConfig { val: v, ..c }, ..self },
            BacklightCommand::AdjustValue(v) => Self { config: BacklightConfig { val: clamp_u8(c.val + v), ..c }, ..self },
            BacklightCommand::SetSpeed(v) => Self { config: BacklightConfig { speed: v, ..c }, ..self },
            BacklightCommand::AdjustSpeed(v) => Self { config: BacklightConfig { speed: clamp_u8(c.speed + v), ..c }, ..self },
            BacklightCommand::SetConfig(config) => Self { config, ..self },
            BacklightCommand::SetTime(time) => Self { tick: time, ..self },
        }
    }

    /// Carries out a command.
    pub fn process_command(&mut self, command: BacklightCommand)
        requires
            command matches BacklightCommand::AdjustValue(v) ==> i16::MIN <= old(self).config.val + v <= i16::MAX,
            command matches BacklightCommand::AdjustSpeed(v) ==> i16::MIN <= old(self).config.speed + v <= i16::MAX,
        ensures
            *final(self) == old(self).after(command),
    {
        match command {
            BacklightCommand::Toggle => {
                self.config.enabled = !self.config.enabled;
            },
            BacklightCommand::NextEffect => {
                self.config.effect.increment();
            },
            BacklightCommand::PrevEffect => {
                self.config.effect.decrement();
            },
            BacklightCommand::SetEffect(effect) => {
                self.config.effect = effect;
            },
            BacklightCommand::SetValue(v) => {
                self.config.val = v;
            },
            BacklightCommand::AdjustValue(amount) => {
                self.config.val = adjust_u8(self.config.val, amount);
            },
            BacklightCommand::SetSpeed(v) => {
                self.config.speed = v;
            },
            BacklightCommand::AdjustSpeed(amount) => {
                self.config.speed = adjust_u8(self.config.speed, amount);
            },
            BacklightCommand::SetConfig(config) => {
                self.config = config;
            },
            BacklightCommand::SetTime(time) => {
                self.tick = time;
            },
        }
    }
}


/// Every position of the list of effects holds an effect, and the effect at a position is at
/// that position.
pub proof fn lemma_positions(i: int)
    requires
        0 <= i < EFFECT_COUNT,
    ensures
        BacklightEffect::at(i).index() == i,
{
}

/// Moving to the next effect and then to the previous one, or the other way round, comes back
/// to the same effect.
pub proof fn lemma_increment_decrement(e: BacklightEffect)
    ensures
        e.next().prev() == e,
        e.prev().next() == e,
{
}

/// Toggling the backlight twice restores the animator.
pub proof fn lemma_toggle_twice(a: BacklightAnimator)
    ensures
        a.after(BacklightCommand::Toggle).after(BacklightCommand::Toggle) == a,
{
}

/// Switching to the next effect and then to the previous one restores the animator.
pub proof fn lemma_next_then_prev(a: BacklightAnimator)
    ensures
        a.after(BacklightCommand::NextEffect).after(BacklightCommand::PrevEffect) == a,
        a.after(BacklightCommand::PrevEffect).after(BacklightCommand::NextEffect) == a,
{
    lemma_increment_decrement(a.config.effect);
}

/// Adjusting the brightness by an amount moves it by that amount, held to the range of a byte.
pub proof fn lemma_value_adjust(a: BacklightAnimator, amount: i16)
    ensures
        a.after(BacklightCommand::AdjustValue(amount)).config.val == crate::backlight::clamp_u8(a.config.val + amount),
        0 <= a.config.val + amount <= 255 ==> a.after(BacklightCommand::AdjustValue(amount)).config.val == a.config.val + amount,
{
}

/// What each command other than an effect switch does to the animator: switching on and off
/// changes only whether the backlight is on; a setting command sets its parameter to the given
/// value; raising, lowering or adjusting a parameter moves it by the given amount, stopping at
/// 0 and 255; a new configuration replaces the old one; setting the clock changes only the
/// clock. Each leaves every other field as it was.
pub proof fn lemma_command_effects(a: BacklightAnimator, x: u8, e: BacklightEffect, dx: i16, cfg: BacklightConfig, t: u32)
    ensures
        a.after(BacklightCommand::Toggle) == (BacklightAnimator { config: BacklightConfig { enabled: !a.config.enabled, ..a.config }, ..a }),
        a.after(BacklightCommand::SetEffect(e)) == (BacklightAnimator { config: BacklightConfig { effect: e, ..a.config }, ..a }),
        a.after(BacklightCommand::SetValue(x)).config.val == x,
        a.after(BacklightCommand::SetValue(x)) == (BacklightAnimator { config: BacklightConfig { val: x, ..a.config }, ..a }),
        a.after(BacklightCommand::AdjustValue(dx)).config.val == (if a.config.val + dx < 0 { 0 } else if a.config.val + dx > 255 { 255 } else { a.config.val + dx }),
        a.after(BacklightCommand::AdjustValue(dx)) == (BacklightAnimator { config: BacklightConfig { val: a.after(BacklightCommand::AdjustValue(dx)).config.val, ..a.config }, ..a }),
        a.after(BacklightCommand::SetSpeed(x)).config.speed == x,
        a.after(BacklightCommand::SetSpeed(x)) == (BacklightAnimator { config: BacklightConfig { speed: x, ..a.config }, ..a }),
        a.after(BacklightCommand::AdjustSpeed(dx)).config.speed == (if a.config.speed + dx < 0 { 0 } else if a.config.speed + dx > 255 { 255 } else { a.config.speed + dx }),
        a.after(BacklightCommand::AdjustSpeed(dx)) == (BacklightAnimator { config: BacklightConfig { speed: a.after(BacklightCommand::AdjustSpeed(dx)).config.speed, ..a.config }, ..a }),
        a.after(BacklightCommand::SetConfig(cfg)) == (BacklightAnimator { config: cfg, ..a }),
        a.after(BacklightCommand::SetTime(t)) == (BacklightAnimator { tick: t, ..a }),
{
}

/// The next effect is the one after the current one in the list of effects, and the previous
/// one the one before it; past either end the list wraps around.
pub proof fn lemma_effect_cycle(e: BacklightEffect)
    ensures
        e.next().index() == (e.index() + 1) % (EFFECT_COUNT as int),
        e.prev().index() == (e.index() + EFFECT_COUNT - 1) % (EFFECT_COUNT as int),
{
}

} // verus!
