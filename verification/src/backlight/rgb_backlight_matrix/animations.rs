//! Configuration, commands and effects of a matrix of RGB LEDs.

use crate::backlight::{sat_add, sat_sub, seek, seek_index};
use vstd::prelude::*;

verus! {

/// The state of the backlight that the commands change: whether it is on, the effect shown,
/// and the effect's parameters.
#[derive(Debug, Clone, Copy, PartialEq, Eq, Structural)]
pub struct BacklightConfig {
    pub enabled: bool,
    pub effect: BacklightEffect,
    pub hue: u8,
    pub sat: u8,
    pub val: u8,
    pub speed: u8,
}

impl BacklightConfig {
    /// The configuration a keyboard starts with: on, showing [`BacklightEffect::Solid`].
    pub open spec fn initial() -> Self {
        BacklightConfig {
            enabled: true,
            effect: BacklightEffect::Solid,
            hue: 0,
            sat: 255,
            val: 255,
            speed: 86,
        }
    }

    /// The configuration a keyboard starts with.
    pub fn default() -> (r: Self)
        ensures
            r == Self::initial(),
    {
        BacklightConfig {
            enabled: true,
            effect: BacklightEffect::Solid,
            hue: 0,
            sat: 255,
            val: 255,
            speed: 86,
        }
    }
}

impl Default for BacklightConfig {
    /// The configuration a keyboard starts with.
    fn default() -> (r: Self)
        ensures
            r == Self::initial(),
    {
        BacklightConfig {
            enabled: true,
            effect: BacklightEffect::Solid,
            hue: 0,
            sat: 255,
            val: 255,
            speed: 86,
        }
    }
}

/// A request to change the backlight.
#[derive(Debug, Clone, Copy)]
pub enum BacklightCommand {
    Toggle,
    TurnOn,
    TurnOff,
    NextEffect,
    PrevEffect,
    SetEffect(BacklightEffect),
    SetHue(u8),
    IncreaseHue(u8),
    DecreaseHue(u8),
    SetSaturation(u8),
    IncreaseSaturation(u8),
    DecreaseSaturation(u8),
    SetValue(u8),
    IncreaseValue(u8),
    DecreaseValue(u8),
    SetSpeed(u8),
    IncreaseSpeed(u8),
    DecreaseSpeed(u8),
    /// Restarts the animation clock; used to keep the halves of a split keyboard in step.
    ResetTime,
}

/// The effects, in the order in which the effect switching commands go through them.
#[derive(Debug, Clone, Copy, PartialEq, Eq, Structural)]
pub enum BacklightEffect {
    Solid,
    AlphasMods,
    GradientUpDown,
    GradientLeftRight,
    Breathing,
    ColorbandSat,
    ColorbandVal,
    ColorbandPinWheelSat,
    ColorbandPinWheelVal,
    ColorbandSpiralSat,
    ColorbandSpiralVal,
    CycleAll,
    CycleLeftRight,
    CycleUpDown,
    RainbowMovingChevron,
    CycleOutIn,
    CycleOutInDual,
    CyclePinWheel,
    CycleSpiral,
    DualBeacon,
    RainbowBeacon,
    RainbowPinWheels,
    Raindrops,
    JellybeanRaindrops,
    HueBreathing,
    HuePendulum,
    HueWave,
    PixelRain,
    PixelFlow,
    PixelFractal,
    TypingHeatmap,
    DigitalRain,
    SolidReactiveSimple,
    SolidReactive,
    SolidReactiveWide,
    SolidReactiveMultiWide,
    SolidReactiveCross,
    SolidReactiveMultiCross,
    SolidReactiveNexus,
    SolidReactiveMultiNexus,
    Splash,
    MultiSplash,
    SolidSplash,
    SolidMultiSplash,
}

/// The number of effects.
pub const EFFECT_COUNT: usize = 44;

impl BacklightEffect {
    /// The position of the effect in the list of effects.
    pub open spec fn index(self) -> int {
        match self {
            BacklightEffect::Solid => 0,
            BacklightEffect::AlphasMods => 1,
            BacklightEffect::GradientUpDown => 2,
            BacklightEffect::GradientLeftRight => 3,
            BacklightEffect::Breathing => 4,
            BacklightEffect::ColorbandSat => 5,
            BacklightEffect::ColorbandVal => 6,
            BacklightEffect::ColorbandPinWheelSat => 7,
            BacklightEffect::ColorbandPinWheelVal => 8,
            BacklightEffect::ColorbandSpiralSat => 9,
            BacklightEffect::ColorbandSpiralVal => 10,
            BacklightEffect::CycleAll => 11,
            BacklightEffect::CycleLeftRight => 12,
            BacklightEffect::CycleUpDown => 13,
            BacklightEffect::RainbowMovingChevron => 14,
            BacklightEffect::CycleOutIn => 15,
            BacklightEffect::CycleOutInDual => 16,
            BacklightEffect::CyclePinWheel => 17,
            BacklightEffect::CycleSpiral => 18,
            BacklightEffect::DualBeacon => 19,
            BacklightEffect::RainbowBeacon => 20,
            BacklightEffect::RainbowPinWheels => 21,
            BacklightEffect::Raindrops => 22,
            BacklightEffect::JellybeanRaindrops => 23,
            BacklightEffect::HueBreathing => 24,
            BacklightEffect::HuePendulum => 25,
            BacklightEffect::HueWave => 26,
            BacklightEffect::PixelRain => 27,
            BacklightEffect::PixelFlow => 28,
            BacklightEffect::PixelFractal => 29,
            BacklightEffect::TypingHeatmap => 30,
            BacklightEffect::DigitalRain => 31,
            BacklightEffect::SolidReactiveSimple => 32,
            BacklightEffect::SolidReactive => 33,
            BacklightEffect::SolidReactiveWide => 34,
            BacklightEffect::SolidReactiveMultiWide => 35,
            BacklightEffect::SolidReactiveCross => 36,
            BacklightEffect::SolidReactiveMultiCross => 37,
            BacklightEffect::SolidReactiveNexus => 38,
            BacklightEffect::SolidReactiveMultiNexus => 39,
            BacklightEffect::Splash => 40,
            BacklightEffect::MultiSplash => 41,
            BacklightEffect::SolidSplash => 42,
            BacklightEffect::SolidMultiSplash => 43,
        }
    }

    /// The effect at a position of the list of effects.
    pub open spec fn at(i: int) -> Self {
        if i == 0 {
            BacklightEffect::Solid
        } else if i == 1 {
            BacklightEffect::AlphasMods
        } else if i == 2 {
            BacklightEffect::GradientUpDown
        } else if i == 3 {
            BacklightEffect::GradientLeftRight
        } else if i == 4 {
            BacklightEffect::Breathing
        } else if i == 5 {
            BacklightEffect::ColorbandSat
        } else if i == 6 {
            BacklightEffect::ColorbandVal
        } else if i == 7 {
            BacklightEffect::ColorbandPinWheelSat
        } else if i == 8 {
            BacklightEffect::ColorbandPinWheelVal
        } else if i == 9 {
            BacklightEffect::ColorbandSpiralSat
        } else if i == 10 {
            BacklightEffect::ColorbandSpiralVal
        } else if i == 11 {
            BacklightEffect::CycleAll
        } else if i == 12 {
            BacklightEffect::CycleLeftRight
        } else if i == 13 {
            BacklightEffect::CycleUpDown
        } else if i == 14 {
            BacklightEffect::RainbowMovingChevron
        } else if i == 15 {
            BacklightEffect::CycleOutIn
        } else if i == 16 {
            BacklightEffect::CycleOutInDual
        } else if i == 17 {
            BacklightEffect::CyclePinWheel
        } else if i == 18 {
            BacklightEffect::CycleSpiral
        } else if i == 19 {
            BacklightEffect::DualBeacon
        } else if i == 20 {
            BacklightEffect::RainbowBeacon
        } else if i == 21 {
            BacklightEffect::RainbowPinWheels
        } else if i == 22 {
            BacklightEffect::Raindrops
        } else if i == 23 {
            BacklightEffect::JellybeanRaindrops
        } else if i == 24 {
            BacklightEffect::HueBreathing
        } else if i == 25 {
            BacklightEffect::HuePendulum
        } else if i == 26 {
            BacklightEffect::HueWave
        } else if i == 27 {
            BacklightEffect::PixelRain
        } else if i == 28 {
            BacklightEffect::PixelFlow
        } else if i == 29 {
            BacklightEffect::PixelFractal
        } else if i == 30 {
            BacklightEffect::TypingHeatmap
        } else if i == 31 {
            BacklightEffect::DigitalRain
        } else if i == 32 {
            BacklightEffect::SolidReactiveSimple
        } else if i == 33 {
            BacklightEffect::SolidReactive
        } else if i == 34 {
            BacklightEffect::SolidReactiveWide
        } else if i == 35 {
            BacklightEffect::SolidReactiveMultiWide
        } else if i == 36 {
            BacklightEffect::SolidReactiveCross
        } else if i == 37 {
            BacklightEffect::SolidReactiveMultiCross
        } else if i == 38 {
            BacklightEffect::SolidReactiveNexus
        } else if i == 39 {
            BacklightEffect::SolidReactiveMultiNexus
        } else if i == 40 {
            BacklightEffect::Splash
        } else if i == 41 {
            BacklightEffect::MultiSplash
        } else if i == 42 {
            BacklightEffect::SolidSplash
        } else {
            BacklightEffect::SolidMultiSplash
        }
    }

    /// Whether the effect changes from frame to frame.
    pub open spec fn animated(self) -> bool {
        match self {
            BacklightEffect::Solid => false,
            BacklightEffect::AlphasMods => false,
            BacklightEffect::GradientUpDown => false,
            BacklightEffect::GradientLeftRight => false,
            _ => true,
        }
    }

    /// Whether the effect reacts to key presses.
    pub open spec fn reactive(self) -> bool {
        match self {
            BacklightEffect::SolidReactiveSimple => true,
            BacklightEffect::SolidReactive => true,
            BacklightEffect::SolidReactiveWide => true,
            BacklightEffect::SolidReactiveMultiWide => true,
            BacklightEffect::SolidReactiveCross => true,
            BacklightEffect::SolidReactiveMultiCross => true,
            BacklightEffect::SolidReactiveNexus => true,
            BacklightEffect::SolidReactiveMultiNexus => true,
            BacklightEffect::Splash => true,
            BacklightEffect::MultiSplash => true,
            BacklightEffect::SolidSplash => true,
            BacklightEffect::SolidMultiSplash => true,
            _ => false,
        }
    }

    /// The position of the effect in the list of effects.
    pub fn position(&self) -> (r: usize)
        ensures
            r == self.index(),
    {
        match self {
            BacklightEffect::Solid => 0,
            BacklightEffect::AlphasMods => 1,
            BacklightEffect::GradientUpDown => 2,
            BacklightEffect::GradientLeftRight => 3,
            BacklightEffect::Breathing => 4,
            BacklightEffect::ColorbandSat => 5,
            BacklightEffect::ColorbandVal => 6,
            BacklightEffect::ColorbandPinWheelSat => 7,
            BacklightEffect::ColorbandPinWheelVal => 8,
            BacklightEffect::ColorbandSpiralSat => 9,
            BacklightEffect::ColorbandSpiralVal => 10,
            BacklightEffect::CycleAll => 11,
            BacklightEffect::CycleLeftRight => 12,
            BacklightEffect::CycleUpDown => 13,
            BacklightEffect::RainbowMovingChevron => 14,
            BacklightEffect::CycleOutIn => 15,
            BacklightEffect::CycleOutInDual => 16,
            BacklightEffect::CyclePinWheel => 17,
            BacklightEffect::CycleSpiral => 18,
            BacklightEffect::DualBeacon => 19,
            BacklightEffect::RainbowBeacon => 20,
            BacklightEffect::RainbowPinWheels => 21,
            BacklightEffect::Raindrops => 22,
            BacklightEffect::JellybeanRaindrops => 23,
            BacklightEffect::HueBreathing => 24,
            BacklightEffect::HuePendulum => 25,
            BacklightEffect::HueWave => 26,
            BacklightEffect::PixelRain => 27,
            BacklightEffect::PixelFlow => 28,
            BacklightEffect::PixelFractal => 29,
            BacklightEffect::TypingHeatmap => 30,
            BacklightEffect::DigitalRain => 31,
            BacklightEffect::SolidReactiveSimple => 32,
            BacklightEffect::SolidReactive => 33,
            BacklightEffect::SolidReactiveWide => 34,
            BacklightEffect::SolidReactiveMultiWide => 35,
            BacklightEffect::SolidReactiveCross => 36,
            BacklightEffect::SolidReactiveMultiCross => 37,
            BacklightEffect::SolidReactiveNexus => 38,
            BacklightEffect::SolidReactiveMultiNexus => 39,
            BacklightEffect::Splash => 40,
            BacklightEffect::MultiSplash => 41,
            BacklightEffect::SolidSplash => 42,
            BacklightEffect::SolidMultiSplash => 43,
        }
    }

    /// The effect at a position of the list of effects.
    pub fn from_position(i: usize) -> (r: Self)
        requires
            i < EFFECT_COUNT,
        ensures
            r == Self::at(i as int),
            r.index() == i,
    {
        if i == 0 {
            BacklightEffect::Solid
        } else if i == 1 {
            BacklightEffect::AlphasMods
        } else if i == 2 {
            BacklightEffect::GradientUpDown
        } else if i == 3 {
            BacklightEffect::GradientLeftRight
        } else if i == 4 {
            BacklightEffect::Breathing
        } else if i == 5 {
            BacklightEffect::ColorbandSat
        } else if i == 6 {
            BacklightEffect::ColorbandVal
        } else if i == 7 {
            BacklightEffect::ColorbandPinWheelSat
        } else if i == 8 {
            BacklightEffect::ColorbandPinWheelVal
        } else if i == 9 {
            BacklightEffect::ColorbandSpiralSat
        } else if i == 10 {
            BacklightEffect::ColorbandSpiralVal
        } else if i == 11 {
            BacklightEffect::CycleAll
        } else if i == 12 {
            BacklightEffect::CycleLeftRight
        } else if i == 13 {
            BacklightEffect::CycleUpDown
        } else if i == 14 {
            BacklightEffect::RainbowMovingChevron
        } else if i == 15 {
            BacklightEffect::CycleOutIn
        } else if i == 16 {
            BacklightEffect::CycleOutInDual
        } else if i == 17 {
            BacklightEffect::CyclePinWheel
        } else if i == 18 {
            BacklightEffect::CycleSpiral
        } else if i == 19 {
            BacklightEffect::DualBeacon
        } else if i == 20 {
            BacklightEffect::RainbowBeacon
        } else if i == 21 {
            BacklightEffect::RainbowPinWheels
        } else if i == 22 {
            BacklightEffect::Raindrops
        } else if i == 23 {
            BacklightEffect::JellybeanRaindrops
        } else if i == 24 {
            BacklightEffect::HueBreathing
        } else if i == 25 {
            BacklightEffect::HuePendulum
        } else if i == 26 {
            BacklightEffect::HueWave
        } else if i == 27 {
            BacklightEffect::PixelRain
        } else if i == 28 {
            BacklightEffect::PixelFlow
        } else if i == 29 {
            BacklightEffect::PixelFractal
        } else if i == 30 {
            BacklightEffect::TypingHeatmap
        } else if i == 31 {
            BacklightEffect::DigitalRain
        } else if i == 32 {
            BacklightEffect::SolidReactiveSimple
        } else if i == 33 {
            BacklightEffect::SolidReactive
        } else if i == 34 {
            BacklightEffect::SolidReactiveWide
        } else if i == 35 {
            BacklightEffect::SolidReactiveMultiWide
        } else if i == 36 {
            BacklightEffect::SolidReactiveCross
        } else if i == 37 {
            BacklightEffect::SolidReactiveMultiCross
        } else if i == 38 {
            BacklightEffect::SolidReactiveNexus
        } else if i == 39 {
            BacklightEffect::SolidReactiveMultiNexus
        } else if i == 40 {
            BacklightEffect::Splash
        } else if i == 41 {
            BacklightEffect::MultiSplash
        } else if i == 42 {
            BacklightEffect::SolidSplash
        } else {
            BacklightEffect::SolidMultiSplash
        }
    }

    /// The effect after this one; the last effect is followed by the first.
    pub open spec fn next(self) -> Self {
        if self.index() + 1 >= 44 {
            Self::at(0)
        } else {
            Self::at(self.index() + 1)
        }
    }

    /// The effect before this one; the first effect is preceded by the last.
    pub open spec fn prev(self) -> Self {
        if self.index() == 0 {
            Self::at(43)
        } else {
            Self::at(self.index() - 1)
        }
    }

    /// Moves to the next effect, wrapping from the last to the first.
    pub fn increment(&mut self)
        ensures
            *final(self) == old(self).next(),
    {
        let i = self.position();
        *self = if i + 1 >= EFFECT_COUNT {
            Self::from_position(0)
        } else {
            Self::from_position(i + 1)
        };
    }

    /// Moves to the previous effect, wrapping from the first to the last.
    pub fn decrement(&mut self)
        ensures
            *final(self) == old(self).prev(),
    {
        let i = self.position();
        *self = if i == 0 {
            Self::from_position(EFFECT_COUNT - 1)
        } else {
            Self::from_position(i - 1)
        };
    }

    /// Whether the effect changes from frame to frame.
    pub fn is_animated(&self) -> (r: bool)
        ensures
            r == self.animated(),
    {
        match self {
            BacklightEffect::Solid => false,
            BacklightEffect::AlphasMods => false,
            BacklightEffect::GradientUpDown => false,
            BacklightEffect::GradientLeftRight => false,
            _ => true,
        }
    }

    /// Whether the effect reacts to key presses.
    pub fn is_reactive(&self) -> (r: bool)
        ensures
            r == self.reactive(),
    {
        match self {
            BacklightEffect::SolidReactiveSimple => true,
            BacklightEffect::SolidReactive => true,
            BacklightEffect::SolidReactiveWide => true,
            BacklightEffect::SolidReactiveMultiWide => true,
            BacklightEffect::SolidReactiveCross => true,
            BacklightEffect::SolidReactiveMultiCross => true,
            BacklightEffect::SolidReactiveNexus => true,
            BacklightEffect::SolidReactiveMultiNexus => true,
            BacklightEffect::Splash => true,
            BacklightEffect::MultiSplash => true,
            BacklightEffect::SolidSplash => true,
            BacklightEffect::SolidMultiSplash => true,
            _ => false,
        }
    }

    /// Whether the keyboard has this effect switched on: `enabled` holds one flag per effect,
    /// in the order of the list of effects.
    pub fn is_enabled(&self, enabled: &[bool]) -> (r: bool)
        requires
            enabled@.len() == EFFECT_COUNT,
        ensures
            r == enabled@[self.index()],
    {
        enabled[self.position()]
    }
}

/// The part of the animator's state that commands change: its copy of the configuration and
/// its animation clock, in frames.
#[derive(Debug, Clone, Copy, PartialEq, Eq, Structural)]
pub struct BacklightAnimator {
    pub config: BacklightConfig,
    pub tick: u32,
}

impl BacklightAnimator {
    /// An animator that starts from `config`, at frame 0.
    pub fn new(config: BacklightConfig) -> (r: Self)
        ensures
            r.config == config,
            r.tick == 0,
    {
        BacklightAnimator { config, tick: 0 }
    }

    /// Whether the animator has to draw new frames: it is on and shows an animated effect.
    pub fn is_animated(&self) -> (r: bool)
        ensures
            r == (self.config.enabled && self.config.effect.animated()),
    {
        self.config.enabled && self.config.effect.is_animated()
    }

    /// Where an effect switching command lands: searching from the current effect, in the
    /// command's direction, the first effect whose enabled flag is `true`.
    pub open spec fn switched(effect: BacklightEffect, forward: bool, enabled: Seq<bool>) -> BacklightEffect {
        BacklightEffect::at(seek(effect.index(), 44, forward, enabled, true, 44))
    }

    /// Whether `command` can be carried out: an effect switching command needs an effect whose
    /// enabled flag is `true`, otherwise the search for one never ends.
    pub open spec fn can_process(command: BacklightCommand, enabled: Seq<bool>) -> bool {
        (command is NextEffect || command is PrevEffect) ==> exists|t: int|
            0 <= t < 44 && enabled[t] == true
    }

    /// The animator after carrying out `command`.
    pub open spec fn after(self, command: BacklightCommand, enabled: Seq<bool>) -> Self {
        let c = self.config;
        match command {
            BacklightCommand::Toggle => Self { config: BacklightConfig { enabled: !c.enabled, ..c }, ..self },
            BacklightCommand::TurnOn => Self { config: BacklightConfig { enabled: true, ..c }, ..self },
            BacklightCommand::TurnOff => Self { config: BacklightConfig { enabled: false, ..c }, ..self },
            BacklightCommand::NextEffect => Self {
                config: BacklightConfig { effect: Self::switched(c.effect, true, enabled), ..c },
                ..self
            },
            BacklightCommand::PrevEffect => Self {
                config: BacklightConfig { effect: Self::switched(c.effect, false, enabled), ..c },
                ..self
            },
            BacklightCommand::SetEffect(e) => Self { config: BacklightConfig { effect: e, ..c }, ..self },
            BacklightCommand::SetHue(v) => Self { config: BacklightConfig { hue: v, ..c }, ..self },
            BacklightCommand::IncreaseHue(v) => Self { config: BacklightConfig { hue: sat_add(c.hue, v), ..c }, ..self },
            BacklightCommand::DecreaseHue(v) => Self { config: BacklightConfig { hue: sat_sub(c.hue, v), ..c }, ..self },
            BacklightCommand::SetSaturation(v) => Self { config: BacklightConfig { sat: v, ..c }, ..self },
            BacklightCommand::IncreaseSaturation(v) => Self { config: BacklightConfig { sat: sat_add(c.sat, v), ..c }, ..self },
            BacklightCommand::DecreaseSaturation(v) => Self { config: BacklightConfig { sat: sat_sub(c.sat, v), ..c }, ..self },
            BacklightCommand::SetValue(v) => Self { config: BacklightConfig { val: v, ..c }, ..self },
            BacklightCommand::IncreaseValue(v) => Self { config: BacklightConfig { val: sat_add(c.val, v), ..c }, ..self },
            BacklightCommand::DecreaseValue(v) => Self { config: BacklightConfig { val: sat_sub(c.val, v), ..c }, ..self },
            BacklightCommand::SetSpeed(v) => Self { config: BacklightConfig { speed: v, ..c }, ..self },
            BacklightCommand::IncreaseSpeed(v) => Self { config: BacklightConfig { speed: sat_add(c.speed, v), ..c }, ..self },
            BacklightCommand::DecreaseSpeed(v) => Self { config: BacklightConfig { speed: sat_sub(c.speed, v), ..c }, ..self },
            BacklightCommand::ResetTime => Self { tick: 0, ..self },
        }
    }

    /// Carries out a command.
    ///
    /// `enabled` holds the keyboard's flag for each effect, in the order of the list of effects.
    pub fn process_command(&mut self, command: BacklightCommand, enabled: &[bool])
        requires
            enabled@.len() == EFFECT_COUNT,
            Self::can_process(command, enabled@),
        ensures
            *final(self) == old(self).after(command, enabled@),
    {
        match command {
            BacklightCommand::Toggle => {
                self.config.enabled = !self.config.enabled;
            },
            BacklightCommand::TurnOn => {
                self.config.enabled = true;
            },
            BacklightCommand::TurnOff => {
                self.config.enabled = false;
            },
            BacklightCommand::NextEffect => {
                let i = seek_index(self.config.effect.position(), enabled, true, true);
                self.config.effect = BacklightEffect::from_position(i);
            },
            BacklightCommand::PrevEffect => {
                let i = seek_index(self.config.effect.position(), enabled, true, false);
                self.config.effect = BacklightEffect::from_position(i);
            },
            BacklightCommand::SetEffect(effect) => {
                self.config.effect = effect;
            },
            BacklightCommand::SetHue(v) => {
                self.config.hue = v;
            },
            BacklightCommand::IncreaseHue(amount) => {
                self.config.hue = self.config.hue.saturating_add(amount);
            },
            BacklightCommand::DecreaseHue(amount) => {
                self.config.hue = self.config.hue.saturating_sub(amount);
            },
            BacklightCommand::SetSaturation(v) => {
                self.config.sat = v;
            },
            BacklightCommand::IncreaseSaturation(amount) => {
                self.config.sat = self.config.sat.saturating_add(amount);
            },
            BacklightCommand::DecreaseSaturation(amount) => {
                self.config.sat = self.config.sat.saturating_sub(amount);
            },
            BacklightCommand::SetValue(v) => {
                self.config.val = v;
            },
            BacklightCommand::IncreaseValue(amount) => {
                self.config.val = self.config.val.saturating_add(amount);
            },
            BacklightCommand::DecreaseValue(amount) => {
                self.config.val = self.config.val.saturating_sub(amount);
            },
            BacklightCommand::SetSpeed(v) => {
                self.config.speed = v;
            },
            BacklightCommand::IncreaseSpeed(amount) => {
                self.config.speed = self.config.speed.saturating_add(amount);
            },
            BacklightCommand::DecreaseSpeed(amount) => {
                self.config.speed = self.config.speed.saturating_sub(amount);
            },
            BacklightCommand::ResetTime => {
                self.tick = 0;
            },
        }
    }
}


/// Every position of the list of effects holds an effect, and the effect at a position is at
/// that position.
pub proof fn lemma_positions(i: int)
    requires
        0 <= i < EFFECT_COUNT,
    ensures
        BacklightEffect::at(i).index() == i,
{
}

/// Moving to the next effect and then to the previous one, or the other way round, comes back
/// to the same effect.
pub proof fn lemma_increment_decrement(e: BacklightEffect)
    ensures
        e.next().prev() == e,
        e.prev().next() == e,
{
}

/// Toggling the backlight twice restores the animator.
pub proof fn lemma_toggle_twice(a: BacklightAnimator, enabled: Seq<bool>)
    ensures
        a.after(BacklightCommand::Toggle, enabled).after(BacklightCommand::Toggle, enabled) == a,
{
}

/// An effect switching command lands on an effect whose enabled flag is `true` (one the keyboard has switched on),
/// and changes nothing but the effect.
pub proof fn lemma_switch_lands(a: BacklightAnimator, forward: bool, enabled: Seq<bool>)
    requires
        enabled.len() == EFFECT_COUNT,
        exists|t: int| 0 <= t < EFFECT_COUNT && enabled[t] == true,
    ensures
        enabled[BacklightAnimator::switched(a.config.effect, forward, enabled).index()] == true,
        a.after(if forward { BacklightCommand::NextEffect } else { BacklightCommand::PrevEffect }, enabled)
            == (BacklightAnimator {
            config: BacklightConfig { effect: BacklightAnimator::switched(a.config.effect, forward, enabled), ..a.config },
            ..a
        }),
{
    assert(0 <= a.config.effect.index() < 44);
    crate::backlight::lemma_seek_lands_on_wanted(a.config.effect.index(), forward, enabled, true);
    assert(enabled.len() == 44);
    let s = crate::backlight::seek(a.config.effect.index(), 44, forward, enabled, true, 44);
    assert(0 <= s < 44);
    lemma_positions(crate::backlight::seek(a.config.effect.index(), 44, forward, enabled, true, 44));
}

/// Raising the brightness never lowers it and lowering it never raises it; both stop at the
/// ends of the range.
pub proof fn lemma_value_steps(a: BacklightAnimator, amount: u8, enabled: Seq<bool>)
    ensures
        a.after(BacklightCommand::IncreaseValue(amount), enabled).config.val >= a.config.val,
        a.after(BacklightCommand::DecreaseValue(amount), enabled).config.val <= a.config.val,
        a.config.val + amount >= 255 ==> a.after(BacklightCommand::IncreaseValue(amount), enabled).config.val == 255,
        a.config.val <= amount ==> a.after(BacklightCommand::DecreaseValue(amount), enabled).config.val == 0,
{
}

/// What each command other than an effect switch does to the animator: switching on and off
/// changes only whether the backlight is on; a setting command sets its parameter to the given
/// value; raising, lowering or adjusting a parameter moves it by the given amount, stopping at
/// 0 and 255; a new configuration replaces the old one; setting the clock changes only the
/// clock. Each leaves every other field as it was.
pub proof fn lemma_command_effects(a: BacklightAnimator, x: u8, e: BacklightEffect, enabled: Seq<bool>)
    ensures
        a.after(BacklightCommand::Toggle, enabled) == (BacklightAnimator { config: BacklightConfig { enabled: !a.config.enabled, ..a.config }, ..a }),
        a.after(BacklightCommand::TurnOn, enabled) == (BacklightAnimator { config: BacklightConfig { enabled: true, ..a.config }, ..a }),
        a.after(BacklightCommand::TurnOff, enabled) == (BacklightAnimator { config: BacklightConfig { enabled: false, ..a.config }, ..a }),
        a.after(BacklightCommand::SetEffect(e), enabled) == (BacklightAnimator { config: BacklightConfig { effect: e, ..a.config }, ..a }),
        a.after(BacklightCommand::SetHue(x), enabled).config.hue == x,
        a.after(BacklightCommand::SetHue(x), enabled) == (BacklightAnimator { config: BacklightConfig { hue: x, ..a.config }, ..a }),
        a.after(BacklightCommand::IncreaseHue(x), enabled).config.hue >= a.config.hue,
        a.after(BacklightCommand::IncreaseHue(x), enabled).config.hue == (if a.config.hue + x <= 255 { a.config.hue + x } else { 255 }),
        a.after(BacklightCommand::IncreaseHue(x), enabled) == (BacklightAnimator { config: BacklightConfig { hue: a.after(BacklightCommand::IncreaseHue(x), enabled).config.hue, ..a.config }, ..a }),
        a.after(BacklightCommand::DecreaseHue(x), enabled).config.hue <= a.config.hue,
        a.after(BacklightCommand::DecreaseHue(x), enabled).config.hue == (if a.config.hue >= x { a.config.hue - x } else { 0 }),
        a.after(BacklightCommand::DecreaseHue(x), enabled) == (BacklightAnimator { config: BacklightConfig { hue: a.after(BacklightCommand::DecreaseHue(x), enabled).config.hue, ..a.config }, ..a }),
        a.after(BacklightCommand::SetSaturation(x), enabled).config.sat == x,
        a.after(BacklightCommand::SetSaturation(x), enabled) == (BacklightAnimator { config: BacklightConfig { sat: x, ..a.config }, ..a }),
        a.after(BacklightCommand::IncreaseSaturation(x), enabled).config.sat >= a.config.sat,
        a.after(BacklightCommand::IncreaseSaturation(x), enabled).config.sat == (if a.config.sat + x <= 255 { a.config.sat + x } else { 255 }),
        a.after(BacklightCommand::IncreaseSaturation(x), enabled) == (BacklightAnimator { config: BacklightConfig { sat: a.after(BacklightCommand::IncreaseSaturation(x), enabled).config.sat, ..a.config }, ..a }),
        a.after(BacklightCommand::DecreaseSaturation(x), enabled).config.sat <= a.config.sat,
        a.after(BacklightCommand::DecreaseSaturation(x), enabled).config.sat == (if a.config.sat >= x { a.config.sat - x } else { 0 }),
        a.after(BacklightCommand::DecreaseSaturation(x), enabled) == (BacklightAnimator { config: BacklightConfig { sat: a.after(BacklightCommand::DecreaseSaturation(x), enabled).config.sat, ..a.config }, ..a }),
        a.after(BacklightCommand::SetValue(x), enabled).config.val == x,
        a.after(BacklightCommand::SetValue(x), enabled) == (BacklightAnimator { config: BacklightConfig { val: x, ..a.config }, ..a }),
        a.after(BacklightCommand::IncreaseValue(x), enabled).config.val >= a.config.val,
        a.after(BacklightCommand::IncreaseValue(x), enabled).config.val == (if a.config.val + x <= 255 { a.config.val + x } else { 255 }),
        a.after(BacklightCommand::IncreaseValue(x), enabled) == (BacklightAnimator { config: BacklightConfig { val: a.after(BacklightCommand::IncreaseValue(x), enabled).config.val, ..a.config }, ..a }),
        a.after(BacklightCommand::DecreaseValue(x), enabled).config.val <= a.config.val,
        a.after(BacklightCommand::DecreaseValue(x), enabled).config.val == (if a.config.val >= x { a.config.val - x } else { 0 }),
        a.after(BacklightCommand::DecreaseValue(x), enabled) == (BacklightAnimator { config: BacklightConfig { val: a.after(BacklightCommand::DecreaseValue(x), enabled).config.val, ..a.config }, ..a }),
        a.after(BacklightCommand::SetSpeed(x), enabled).config.speed == x,
        a.after(BacklightCommand::SetSpeed(x), enabled) == (BacklightAnimator { config: BacklightConfig { speed: x, ..a.config }, ..a }),
        a.after(BacklightCommand::IncreaseSpeed(x), enabled).config.speed >= a.config.speed,
        a.after(BacklightCommand::IncreaseSpeed(x), enabled).config.speed == (if a.config.speed + x <= 255 { a.config.speed + x } else { 255 }),
        a.after(BacklightCommand::IncreaseSpeed(x), enabled) == (BacklightAnimator { config: BacklightConfig { speed: a.after(BacklightCommand::IncreaseSpeed(x), enabled).config.speed, ..a.config }, ..a }),
        a.after(BacklightCommand::DecreaseSpeed(x), enabled).config.speed <= a.config.speed,
        a.after(BacklightCommand::DecreaseSpeed(x), enabled).config.speed == (if a.config.speed >= x { a.config.speed - x } else { 0 }),
        a.after(BacklightCommand::DecreaseSpeed(x), enabled) == (BacklightAnimator { config: BacklightConfig { speed: a.after(BacklightCommand::DecreaseSpeed(x), enabled).config.speed, ..a.config }, ..a }),
        a.after(BacklightCommand::ResetTime, enabled) == (BacklightAnimator { tick: 0, ..a }),
{
}

/// An effect switching command stops at the first effect, in its direction, that it looks for
/// (one switched on): every effect that it passes on the way is one switched off.
pub proof fn lemma_switch_first(a: BacklightAnimator, forward: bool, enabled: Seq<bool>)
    requires
        enabled.len() == EFFECT_COUNT,
        exists|t: int| 0 <= t < EFFECT_COUNT && enabled[t] == true,
    ensures
        forall|t: int|
            0 <= t < EFFECT_COUNT && 1 <= crate::backlight::distance(
                a.config.effect.index(),
                t,
                EFFECT_COUNT as int,
                forward,
            ) < crate::backlight::distance(
                a.config.effect.index(),
                BacklightAnimator::switched(a.config.effect, forward, enabled).index(),
                EFFECT_COUNT as int,
                forward,
            ) ==> !enabled[t],
{
    assert(0 <= a.config.effect.index() < 44);
    crate::backlight::lemma_seek_lands_on_wanted(a.config.effect.index(), forward, enabled, true);
    crate::backlight::lemma_seek_first(a.config.effect.index(), forward, enabled, true);
    lemma_positions(crate::backlight::seek(a.config.effect.index(), 44, forward, enabled, true, 44));
}

} // verus!
