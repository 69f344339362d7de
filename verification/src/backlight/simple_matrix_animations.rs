//! Configuration, commands and effects of a matrix of single-colour LEDs.

use crate::backlight::{adjust_u8, clamp_u8, seek, seek_index};
use vstd::prelude::*;

verus! {

/// The state of the backlight that the commands change: whether it is on, the effect shown,
/// and the effect's parameters.
#[derive(Debug, Clone, Copy, PartialEq, Eq, Structural)]
pub struct BacklightConfig {
    pub enabled: bool,
    pub effect: BacklightEffect,
    pub val: u8,
    pub speed: u8,
}

impl BacklightConfig {
    /// The configuration a keyboard starts with: on, showing [`BacklightEffect::Solid`].
    pub open spec fn initial() -> Self {
        BacklightConfig {
            enabled: true,
            effect: BacklightEffect::Solid,
            val: 255,
            speed: 86,
        }
    }

    /// The configuration a keyboard starts with.
    pub fn default() -> (r: Self)
        ensures
            r == Self::initial(),
    {
        BacklightConfig {
            enabled: true,
            effect: BacklightEffect::Solid,
            val: 255,
            speed: 86,
        }
    }
}

impl Default for BacklightConfig {
    /// The configuration a keyboard starts with.
    fn default() -> (r: Self)
        ensures
            r == Self::initial(),
    {
        BacklightConfig {
            enabled: true,
            effect: BacklightEffect::Solid,
            val: 255,
            speed: 86,
        }
    }
}

/// A request to change the backlight.
#[derive(Debug, Clone, Copy)]
pub enum BacklightCommand {
    Toggle,
    TurnOn,
    TurnOff,
    NextEffect,
    PrevEffect,
    SetEffect(BacklightEffect),
    SetValue(u8),
    AdjustValue(i16),
    SetSpeed(u8),
    AdjustSpeed(i16),
    SetConfig(BacklightConfig),
    /// Sets the animation clock; used to keep the halves of a split keyboard in step.
    SetTime(u32),
}

/// The effects, in the order in which the effect switching commands go through them.
#[derive(Debug, Clone, Copy, PartialEq, Eq, Structural)]
pub enum BacklightEffect {
    Solid,
    AlphasMods,
    GradientUpDown,
    GradientLeftRight,
    Breathing,
    Band,
    BandPinWheel,
    BandSpiral,
    CycleLeftRight,
    CycleUpDown,
    CycleOutIn,
    Raindrops,
    DualBeacon,
    WaveLeftRight,
    WaveUpDown,
    Reactive,
    ReactiveWide,
    ReactiveMultiWide,
    ReactiveCross,
    ReactiveMultiCross,
    ReactiveNexus,
    ReactiveMultiNexus,
    ReactiveSplash,
    ReactiveMultiSplash,
}

/// The number of effects.
pub const EFFECT_COUNT: usize = 24;

impl BacklightEffect {
    /// The position of the effect in the list of effects.
    pub open spec fn index(self) -> int {
        match self {
            BacklightEffect::Solid => 0,
            BacklightEffect::AlphasMods => 1,
            BacklightEffect::GradientUpDown => 2,
            BacklightEffect::GradientLeftRight => 3,
            BacklightEffect::Breathing => 4,
            BacklightEffect::Band => 5,
            BacklightEffect::BandPinWheel => 6,
            BacklightEffect::BandSpiral => 7,
            BacklightEffect::CycleLeftRight => 8,
            BacklightEffect::CycleUpDown => 9,
            BacklightEffect::CycleOutIn => 10,
            BacklightEffect::Raindrops => 11,
            BacklightEffect::DualBeacon => 12,
            BacklightEffect::WaveLeftRight => 13,
            BacklightEffect::WaveUpDown => 14,
            BacklightEffect::Reactive => 15,
            BacklightEffect::ReactiveWide => 16,
            BacklightEffect::ReactiveMultiWide => 17,
            BacklightEffect::ReactiveCross => 18,
            BacklightEffect::ReactiveMultiCross => 19,
            BacklightEffect::ReactiveNexus => 20,
            BacklightEffect::ReactiveMultiNexus => 21,
            BacklightEffect::ReactiveSplash => 22,
            BacklightEffect::ReactiveMultiSplash => 23,
        }
    }

    /// The effect at a position of the list of effects.
    pub open spec fn at(i: int) -> Self {
        if i == 0 {
            BacklightEffect::Solid
        } else if i == 1 {
            BacklightEffect::AlphasMods
        } else if i == 2 {
            BacklightEffect::GradientUpDown
        } else if i == 3 {
            BacklightEffect::GradientLeftRight
        } else if i == 4 {
            BacklightEffect::Breathing
        } else if i == 5 {
            BacklightEffect::Band
        } else if i == 6 {
            BacklightEffect::BandPinWheel
        } else if i == 7 {
            BacklightEffect::BandSpiral
        } else if i == 8 {
            BacklightEffect::CycleLeftRight
        } else if i == 9 {
            BacklightEffect::CycleUpDown
        } else if i == 10 {
            BacklightEffect::CycleOutIn
        } else if i == 11 {
            BacklightEffect::Raindrops
        } else if i == 12 {
            BacklightEffect::DualBeacon
        } else if i == 13 {
            BacklightEffect::WaveLeftRight
        } else if i == 14 {
            BacklightEffect::WaveUpDown
        } else if i == 15 {
            BacklightEffect::Reactive
        } else if i == 16 {
            BacklightEffect::ReactiveWide
        } else if i == 17 {
            BacklightEffect::ReactiveMultiWide
        } else if i == 18 {
            BacklightEffect::ReactiveCross
        } else if i == 19 {
            BacklightEffect::ReactiveMultiCross
        } else if i == 20 {
            BacklightEffect::ReactiveNexus
        } else if i == 21 {
            BacklightEffect::ReactiveMultiNexus
        } else if i == 22 {
            BacklightEffect::ReactiveSplash
        } else {
            BacklightEffect::ReactiveMultiSplash
        }
    }

    /// Whether the effect changes from frame to frame.
    pub open spec fn animated(self) -> bool {
        match self {
            BacklightEffect::Solid => false,
            BacklightEffect::AlphasMods => false,
            BacklightEffect::GradientUpDown => false,
            BacklightEffect::GradientLeftRight => false,
            _ => true,
        }
    }

    /// Whether the effect reacts to key presses.
    pub open spec fn reactive(self) -> bool {
        match self {
            BacklightEffect::Reactive => true,
            BacklightEffect::ReactiveWide => true,
            BacklightEffect::ReactiveMultiWide => true,
            BacklightEffect::ReactiveCross => true,
            BacklightEffect::ReactiveMultiCross => true,
            BacklightEffect::ReactiveNexus => true,
            BacklightEffect::ReactiveMultiNexus => true,
            BacklightEffect::ReactiveSplash => true,
            BacklightEffect::ReactiveMultiSplash => true,
            _ => false,
        }
    }

    /// The position of the effect in the list of effects.
    pub fn position(&self) -> (r: usize)
        ensures
            r == self.index(),
    {
        match self {
            BacklightEffect::Solid => 0,
            BacklightEffect::AlphasMods => 1,
            BacklightEffect::GradientUpDown => 2,
            BacklightEffect::GradientLeftRight => 3,
            BacklightEffect::Breathing => 4,
            BacklightEffect::Band => 5,
            BacklightEffect::BandPinWheel => 6,
            BacklightEffect::BandSpiral => 7,
            BacklightEffect::CycleLeftRight => 8,
            BacklightEffect::CycleUpDown => 9,
            BacklightEffect::CycleOutIn => 10,
            BacklightEffect::Raindrops => 11,
            BacklightEffect::DualBeacon => 12,
            BacklightEffect::WaveLeftRight => 13,
            BacklightEffect::WaveUpDown => 14,
            BacklightEffect::Reactive => 15,
            BacklightEffect::ReactiveWide => 16,
            BacklightEffect::ReactiveMultiWide => 17,
            BacklightEffect::ReactiveCross => 18,
            BacklightEffect::ReactiveMultiCross => 19,
            BacklightEffect::ReactiveNexus => 20,
            BacklightEffect::ReactiveMultiNexus => 21,
            BacklightEffect::ReactiveSplash => 22,
            BacklightEffect::ReactiveMultiSplash => 23,
        }
    }

    /// The effect at a position of the list of effects.
    pub fn from_position(i: usize) -> (r: Self)
        requires
            i < EFFECT_COUNT,
        ensures
            r == Self::at(i as int),
            r.index() == i,
    {
        if i == 0 {
            BacklightEffect::Solid
        } else if i == 1 {
            BacklightEffect::AlphasMods
        } else if i == 2 {
            BacklightEffect::GradientUpDown
        } else if i == 3 {
            BacklightEffect::GradientLeftRight
        } else if i == 4 {
            BacklightEffect::Breathing
        } else if i == 5 {
            BacklightEffect::Band
        } else if i == 6 {
            BacklightEffect::BandPinWheel
        } else if i == 7 {
            BacklightEffect::BandSpiral
        } else if i == 8 {
            BacklightEffect::CycleLeftRight
        } else if i == 9 {
            BacklightEffect::CycleUpDown
        } else if i == 10 {
            BacklightEffect::CycleOutIn
        } else if i == 11 {
            BacklightEffect::Raindrops
        } else if i == 12 {
            BacklightEffect::DualBeacon
        } else if i == 13 {
            BacklightEffect::WaveLeftRight
        } else if i == 14 {
            BacklightEffect::WaveUpDown
        } else if i == 15 {
            BacklightEffect::Reactive
        } else if i == 16 {
            BacklightEffect::ReactiveWide
        } else if i == 17 {
            BacklightEffect::ReactiveMultiWide
        } else if i == 18 {
            BacklightEffect::ReactiveCross
        } else if i == 19 {
            BacklightEffect::ReactiveMultiCross
        } else if i == 20 {
            BacklightEffect::ReactiveNexus
        } else if i == 21 {
            BacklightEffect::ReactiveMultiNexus
        } else if i == 22 {
            BacklightEffect::ReactiveSplash
        } else {
            BacklightEffect::ReactiveMultiSplash
        }
    }

    /// The effect after this one; the last effect is followed by the first.
    pub open spec fn next(self) -> Self {
        if self.index() + 1 >= 24 {
            Self::at(0)
        } else {
            Self::at(self.index() + 1)
        }
    }

    /// The effect before this one; the first effect is preceded by the last.
    pub open spec fn prev(self) -> Self {
        if self.index() == 0 {
            Self::at(23)
        } else {
            Self::at(self.index() - 1)
        }
    }

    /// Moves to the next effect, wrapping from the last to the first.
    pub fn increment(&mut self)
        ensures
            *final(self) == old(self).next(),
    {
        let i = self.position();
        *self = if i + 1 >= EFFECT_COUNT {
            Self::from_position(0)
        } else {
            Self::from_position(i + 1)
        };
    }

    /// Moves to the previous effect, wrapping from the first to the last.
    pub fn decrement(&mut self)
        ensures
            *final(self) == old(self).prev(),
    {
        let i = self.position();
        *self = if i == 0 {
            Self::from_position(EFFECT_COUNT - 1)
        } else {
            Self::from_position(i - 1)
        };
    }

    /// Whether the effect changes from frame to frame.
    pub fn is_animated(&self) -> (r: bool)
        ensures
            r == self.animated(),
    {
        match self {
            BacklightEffect::Solid => false,
            BacklightEffect::AlphasMods => false,
            BacklightEffect::GradientUpDown => false,
            BacklightEffect::GradientLeftRight => false,
            _ => true,
        }
    }

    /// Whether the effect reacts to key presses.
    pub fn is_reactive(&self) -> (r: bool)
        ensures
            r == self.reactive(),
    {
        match self {
            BacklightEffect::Reactive => true,
            BacklightEffect::ReactiveWide => true,
            BacklightEffect::ReactiveMultiWide => true,
            BacklightEffect::ReactiveCross => true,
            BacklightEffect::ReactiveMultiCross => true,
            BacklightEffect::ReactiveNexus => true,
            BacklightEffect::ReactiveMultiNexus => true,
            BacklightEffect::ReactiveSplash => true,
            BacklightEffect::ReactiveMultiSplash => true,
            _ => false,
        }
    }

    /// Whether the keyboard has this effect switched on: `enabled` holds one flag per effect,
    /// in the order of the list of effects.
    pub fn is_enabled(&self, enabled: &[bool]) -> (r: bool)
        requires
            enabled@.len() == EFFECT_COUNT,
        ensures
            r == enabled@[self.index()],
    {
        enabled[self.position()]
    }
}

/// The brightness that an effect's value `raw` gives at the backlight value `val`.
pub open spec fn scaled(raw: u8, val: u8) -> u8 {
    (raw as int * val as int / 255) as u8
}

/// The brightness that an effect's value `raw` gives at the backlight value `val`.
pub fn scale(raw: u8, val: u8) -> (r: u8)
    ensures
        r == scaled(raw, val),
{
    assert(raw as int * val as int <= 255 * 255) by (nonlinear_arith)
        requires
            raw <= 255,
            val <= 255,
    ;
    assert(raw as int * val as int / 255 <= 255) by (nonlinear_arith)
        requires
            raw as int * val as int <= 255 * 255,
    ;
    (raw as u16 * val as u16 / 255) as u8
}

/// The part of the animator's state that commands change: its copy of the configuration and
/// its animation clock, in frames.
#[derive(Debug, Clone, Copy, PartialEq, Eq, Structural)]
pub struct BacklightAnimator {
    pub config: BacklightConfig,
    pub tick: u32,
}

impl BacklightAnimator {
    /// An animator that starts from `config`, at frame 0.
    pub fn new(config: BacklightConfig) -> (r: Self)
        ensures
            r.config == config,
            r.tick == 0,
    {
        BacklightAnimator { config, tick: 0 }
    }

    /// Whether the animator has to draw new frames: it is on and shows an animated effect.
    pub fn is_animated(&self) -> (r: bool)
        ensures
            r == (self.config.enabled && self.config.effect.animated()),
    {
        self.config.enabled && self.config.effect.is_animated()
    }

    /// Where an effect switching command lands: searching from the current effect, in the
    /// command's direction, the first effect whose enabled flag is `false`.
    pub open spec fn switched(effect: BacklightEffect, forward: bool, enabled: Seq<bool>) -> BacklightEffect {
        BacklightEffect::at(seek(effect.index(), 24, forward, enabled, false, 24))
    }

    /// Whether `command` can be carried out: an effect switching command needs an effect whose
    /// enabled flag is `false`, otherwise the search for one never ends.
    pub open spec fn can_process(command: BacklightCommand, enabled: Seq<bool>) -> bool {
        (command is NextEffect || command is PrevEffect) ==> exists|t: int|
            0 <= t < 24 && enabled[t] == false
    }

    /// The animator after carrying out `command`.
    pub open spec fn after(self, command: BacklightCommand, enabled: Seq<bool>) -> Self {
        let c = self.config;
        match command {
            BacklightCommand::Toggle => Self { config: BacklightConfig { enabled: !c.enabled, ..c }, ..self },
            BacklightCommand::TurnOn => Self { config: BacklightConfig { enabled: true, ..c }, ..self },
            BacklightCommand::TurnOff => Self { config: BacklightConfig { enabled: false, ..c }, ..self },
            BacklightCommand::NextEffect => Self {
                config: BacklightConfig { effect: Self::switched(c.effect, true, enabled), ..c },
                ..self
            },
            BacklightCommand::PrevEffect => Self {
                config: BacklightConfig { effect: Self::switched(c.effect, false, enabled), ..c },
                ..self
            },
            BacklightCommand::SetEffect(e) => Self { config: BacklightConfig { effect: e, ..c }, ..self },
            BacklightCommand::SetValue(v) => Self { config: BacklightConfig { val: v, ..c }, ..self },
            BacklightCommand::AdjustValue(v) => Self { config: BacklightConfig { val: clamp_u8(c.val + v), ..c }, ..self },
            BacklightCommand::SetSpeed(v) => Self { config: BacklightConfig { speed: v, ..c }, ..self },
            BacklightCommand::AdjustSpeed(v) => Self { config: BacklightConfig { speed: clamp_u8(c.speed + v), ..c }, ..self },
            BacklightCommand::SetConfig(config) => Self { config, ..self },
            BacklightCommand::SetTime(time) => Self { tick: time, ..self },
        }
    }

    /// Carries out a command.
    ///
    /// `enabled` holds the keyboard's flag for each effect, in the order of the list of effects.
    pub fn process_command(&mut self, command: BacklightCommand, enabled: &[bool])
        requires
            enabled@.len() == EFFECT_COUNT,
            Self::can_process(command, enabled@),
            command matches BacklightCommand::AdjustValue(v) ==> i16::MIN <= old(self).config.val + v <= i16::MAX,
            command matches BacklightCommand::AdjustSpeed(v) ==> i16::MIN <= old(self).config.speed + v <= i16::MAX,
        ensures
            *final(self) == old(self).after(command, enabled@),
    {
        match command {
            BacklightCommand::Toggle => {
                self.config.enabled = !self.config.enabled;
            },
            BacklightCommand::TurnOn => {
                self.config.enabled = true;
            },
            BacklightCommand::TurnOff => {
                self.config.enabled = false;
            },
            BacklightCommand::NextEffect => {
                let i = seek_index(self.config.effect.position(), enabled, false, true);
                self.config.effect = BacklightEffect::from_position(i);
            },
            BacklightCommand::PrevEffect => {
                let i = seek_index(self.config.effect.position(), enabled, false, false);
                self.config.effect = BacklightEffect::from_position(i);
            },
            BacklightCommand::SetEffect(effect) => {
                self.config.effect = effect;
            },
            BacklightCommand::SetValue(v) => {
                self.config.val = v;
            },
            BacklightCommand::AdjustValue(amount) => {
                self.config.val = adjust_u8(self.config.val, amount);
            },
            BacklightCommand::SetSpeed(v) => {
                self.config.speed = v;
            },
            BacklightCommand::AdjustSpeed(amount) => {
                self.config.speed = adjust_u8(self.config.speed, amount);
            },
            BacklightCommand::SetConfig(config) => {
                self.config = config;
            },
            BacklightCommand::SetTime(time) => {
                self.tick = time;
            },
        }
    }

    /// The value that the current effect gives an LED, before it is scaled by the backlight
    /// value: full brightness for `Solid`; for `AlphasMods`, full brightness on an alpha key
    /// and the speed elsewhere; for the other effects, `computed`, what the effect computes
    /// for the LED.
    pub open spec fn effect_value(self, alpha: bool, computed: u8) -> u8 {
        match self.config.effect {
            BacklightEffect::Solid => 255,
            BacklightEffect::AlphasMods => if alpha {
                255
            } else {
                self.config.speed
            },
            _ => computed,
        }
    }

    /// The brightness of the slot at `row` and `col` in the frame that the animator draws over
    /// `buf`: a slot with an LED gets its effect value scaled by the backlight value, when the
    /// keyboard has the current effect (`effect_built`); any other slot keeps its value.
    pub open spec fn drawn<const C: usize, const R: usize>(
        self,
        buf: Seq<Vec<u8>>,
        layout: [[Option<(u8, u8)>; C]; R],
        alpha: [[bool; C]; R],
        computed: [[u8; C]; R],
        effect_built: bool,
        row: int,
        col: int,
    ) -> u8 {
        if effect_built && layout@[row]@[col] is Some {
            scaled(self.effect_value(alpha@[row]@[col], computed@[row]@[col]), self.config.val)
        } else {
            buf[row]@[col]
        }
    }

    /// Draws one frame and advances the animation clock by one frame. While the backlight is
    /// off, nothing is drawn (`None`) and the clock stands still. Otherwise the result is the
    /// frame to send to the LEDs: `buf`, the last frame (one row of `C` values per matrix row),
    /// with each slot as [`BacklightAnimator::drawn`] says.
    ///
    /// `layout` gives the position of the LED at each slot (`None` where there is none),
    /// `alpha` which slots are alpha keys, and `computed` what the current effect computes for
    /// each slot where it is not `Solid` or `AlphasMods`.
    pub fn draw_frame<const C: usize, const R: usize>(
        &mut self,
        buf: &Vec<Vec<u8>>,
        layout: &[[Option<(u8, u8)>; C]; R],
        alpha: &[[bool; C]; R],
        computed: &[[u8; C]; R],
        effect_built: bool,
    ) -> (r: Option<Vec<Vec<u8>>>)
        requires
            buf@.len() == R,
            forall|row: int| 0 <= row < R ==> (#[trigger] buf@[row])@.len() == C,
            old(self).config.enabled ==> old(self).tick < u32::MAX,
        ensures
            !old(self).config.enabled ==> r is None && *final(self) == *old(self),
            old(self).config.enabled ==> final(self).config == old(self).config && final(self).tick
                == old(self).tick + 1,
            old(self).config.enabled ==> (r matches Some(frame) && frame@.len() == R && (forall|
                row: int,
            |
                0 <= row < R ==> (#[trigger] frame@[row])@.len() == C) && forall|row: int, col: int|
                0 <= row < R && 0 <= col < C ==> #[trigger] frame@[row]@[col] == old(self).drawn(
                    buf@,
                    *layout,
                    *alpha,
                    *computed,
                    effect_built,
                    row,
                    col,
                )),
    {
        if !self.config.enabled {
            return None;
        }
        let mut frame: Vec<Vec<u8>> = Vec::new();
        let mut row: usize = 0;
        while row < R
            invariant
                row <= R,
                frame@.len() == row,
                buf@.len() == R,
                forall|r: int| 0 <= r < R ==> (#[trigger] buf@[r])@.len() == C,
                forall|r: int| 0 <= r < row ==> (#[trigger] frame@[r])@.len() == C,
                forall|r: int, c: int|
                    0 <= r < row && 0 <= c < C ==> #[trigger] frame@[r]@[c] == self.drawn(
                        buf@,
                        *layout,
                        *alpha,
                        *computed,
                        effect_built,
                        r,
                        c,
                    ),
            decreases R - row,
        {
            let mut line: Vec<u8> = Vec::new();
            let mut col: usize = 0;
            while col < C
                invariant
                    row < R,
                    col <= C,
                    line@.len() == col,
                    buf@.len() == R,
                    forall|r: int| 0 <= r < R ==> (#[trigger] buf@[r])@.len() == C,
                    forall|c: int|
                        0 <= c < col ==> line@[c] == self.drawn(
                            buf@,
                            *layout,
                            *alpha,
                            *computed,
                            effect_built,
                            row as int,
                            c,
                        ),
                decreases C - col,
            {
                let v = if effect_built && layout[row][col].is_some() {
                    let value = match self.config.effect {
                        BacklightEffect::Solid => 255u8,
                        BacklightEffect::AlphasMods => if alpha[row][col] {
                            255u8
                        } else {
                            self.config.speed
                        },
                        _ => computed[row][col],
                    };
                    scale(value, self.config.val)
                } else {
                    buf[row][col]
                };
                line.push(v);
                col = col + 1;
            }
            frame.push(line);
            row = row + 1;
        }
        self.tick = self.tick + 1;
        Some(frame)
    }
}


/// Every position of the list of effects holds an effect, and the effect at a position is at
/// that position.
pub proof fn lemma_positions(i: int)
    requires
        0 <= i < EFFECT_COUNT,
    ensures
        BacklightEffect::at(i).index() == i,
{
}

/// Moving to the next effect and then to the previous one, or the other way round, comes back
/// to the same effect.
pub proof fn lemma_increment_decrement(e: BacklightEffect)
    ensures
        e.next().prev() == e,
        e.prev().next() == e,
{
}

/// Toggling the backlight twice restores the animator.
pub proof fn lemma_toggle_twice(a: BacklightAnimator, enabled: Seq<bool>)
    ensures
        a.after(BacklightCommand::Toggle, enabled).after(BacklightCommand::Toggle, enabled) == a,
{
}

/// An effect switching command lands on an effect whose enabled flag is `false` (one whose enabled flag is off),
/// and changes nothing but the effect.
pub proof fn lemma_switch_lands(a: BacklightAnimator, forward: bool, enabled: Seq<bool>)
    requires
        enabled.len() == EFFECT_COUNT,
        exists|t: int| 0 <= t < EFFECT_COUNT && enabled[t] == false,
    ensures
        enabled[BacklightAnimator::switched(a.config.effect, forward, enabled).index()] == false,
        a.after(if forward { BacklightCommand::NextEffect } else { BacklightCommand::PrevEffect }, enabled)
            == (BacklightAnimator {
            config: BacklightConfig { effect: BacklightAnimator::switched(a.config.effect, forward, enabled), ..a.config },
            ..a
        }),
{
    crate::backlight::lemma_seek_lands_on_wanted(a.config.effect.index(), forward, enabled, false);
    lemma_positions(crate::backlight::seek(a.config.effect.index(), 24, forward, enabled, false, 24));
}

/// Adjusting the brightness by an amount moves it by that amount, held to the range of a byte.
pub proof fn lemma_value_adjust(a: BacklightAnimator, enabled: Seq<bool>, amount: i16)
    ensures
        a.after(BacklightCommand::AdjustValue(amount), enabled).config.val == crate::backlight::clamp_u8(a.config.val + amount),
        0 <= a.config.val + amount <= 255 ==> a.after(BacklightCommand::AdjustValue(amount), enabled).config.val == a.config.val + amount,
{
}

/// What each command other than an effect switch does to the animator: switching on and off
/// changes only whether the backlight is on; a setting command sets its parameter to the given
/// value; raising, lowering or adjusting a parameter moves it by the given amount, stopping at
/// 0 and 255; a new configuration replaces the old one; setting the clock changes only the
/// clock. Each leaves every other field as it was.
pub proof fn lemma_command_effects(a: BacklightAnimator, x: u8, e: BacklightEffect, dx: i16, cfg: BacklightConfig, t: u32, enabled: Seq<bool>)
    ensures
        a.after(BacklightCommand::Toggle, enabled) == (BacklightAnimator { config: BacklightConfig { enabled: !a.config.enabled, ..a.config }, ..a }),
        a.after(BacklightCommand::TurnOn, enabled) == (BacklightAnimator { config: BacklightConfig { enabled: true, ..a.config }, ..a }),
        a.after(BacklightCommand::TurnOff, enabled) == (BacklightAnimator { config: BacklightConfig { enabled: false, ..a.config }, ..a }),
        a.after(BacklightCommand::SetEffect(e), enabled) == (BacklightAnimator { config: BacklightConfig { effect: e, ..a.config }, ..a }),
        a.after(BacklightCommand::SetValue(x), enabled).config.val == x,
        a.after(BacklightCommand::SetValue(x), enabled) == (BacklightAnimator { config: BacklightConfig { val: x, ..a.config }, ..a }),
        a.after(BacklightCommand::AdjustValue(dx), enabled).config.val == (if a.config.val + dx < 0 { 0 } else if a.config.val + dx > 255 { 255 } else { a.config.val + dx }),
        a.after(BacklightCommand::AdjustValue(dx), enabled) == (BacklightAnimator { config: BacklightConfig { val: a.after(BacklightCommand::AdjustValue(dx), enabled).config.val, ..a.config }, ..a }),
        a.after(BacklightCommand::SetSpeed(x), enabled).config.speed == x,
        a.after(BacklightCommand::SetSpeed(x), enabled) == (BacklightAnimator { config: BacklightConfig { speed: x, ..a.config }, ..a }),
        a.after(BacklightCommand::AdjustSpeed(dx), enabled).config.speed == (if a.config.speed + dx < 0 { 0 } else if a.config.speed + dx > 255 { 255 } else { a.config.speed + dx }),
        a.after(BacklightCommand::AdjustSpeed(dx), enabled) == (BacklightAnimator { config: BacklightConfig { speed: a.after(BacklightCommand::AdjustSpeed(dx), enabled).config.speed, ..a.config }, ..a }),
        a.after(BacklightCommand::SetConfig(cfg), enabled) == (BacklightAnimator { config: cfg, ..a }),
        a.after(BacklightCommand::SetTime(t), enabled) == (BacklightAnimator { tick: t, ..a }),
{
}

/// An effect switching command stops at the first effect, in its direction, that it looks for
/// (one whose flag is `false`): every effect that it passes on the way is one whose flag is `true`.
pub proof fn lemma_switch_first(a: BacklightAnimator, forward: bool, enabled: Seq<bool>)
    requires
        enabled.len() == EFFECT_COUNT,
        exists|t: int| 0 <= t < EFFECT_COUNT && enabled[t] == false,
    ensures
        forall|t: int|
            0 <= t < EFFECT_COUNT && 1 <= crate::backlight::distance(
                a.config.effect.index(),
                t,
                EFFECT_COUNT as int,
                forward,
            ) < crate::backlight::distance(
                a.config.effect.index(),
                BacklightAnimator::switched(a.config.effect, forward, enabled).index(),
                EFFECT_COUNT as int,
                forward,
            ) ==> enabled[t],
{
    assert(0 <= a.config.effect.index() < 24);
    crate::backlight::lemma_seek_lands_on_wanted(a.config.effect.index(), forward, enabled, false);
    crate::backlight::lemma_seek_first(a.config.effect.index(), forward, enabled, false);
    lemma_positions(crate::backlight::seek(a.config.effect.index(), 24, forward, enabled, false, 24));
}

} // verus!
