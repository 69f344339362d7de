//! Hardware helpers: where HID reports go, the commands that change it, and analog multiplexers.

pub mod platform;

use vstd::prelude::*;

verus! {

/// How the firmware chooses the destination of HID reports.
#[derive(Debug, Clone, Copy, PartialEq, Eq, Structural)]
#[non_exhaustive]
pub enum OutputMode {
    Usb,
    Bluetooth,
}

/// Where HID reports are sent.
#[derive(Debug, Clone, Copy, PartialEq, Eq, Structural)]
pub enum HIDOutput {
    Usb,
    Bluetooth,
}

/// A command that changes the output mode.
#[derive(Debug, Clone, Copy, PartialEq, Eq, Structural)]
#[non_exhaustive]
pub enum HardwareCommand {
    /// Switch between USB and Bluetooth operation.
    ///
    /// This does **not** disconnect the keyboard from its host device: it only decides which
    /// device the HID reports are sent to.
    ToggleOutput,
    /// Switch to USB operation.
    OutputUSB,
    /// Switch to Bluetooth operation.
    OutputBluetooth,
}

/// The output mode after a command.
pub open spec fn mode_after(mode: OutputMode, command: HardwareCommand) -> OutputMode {
    match command {
        HardwareCommand::ToggleOutput => match mode {
            OutputMode::Usb => OutputMode::Bluetooth,
            OutputMode::Bluetooth => OutputMode::Usb,
        },
        HardwareCommand::OutputUSB => OutputMode::Usb,
        HardwareCommand::OutputBluetooth => OutputMode::Bluetooth,
    }
}

/// The output mode after carrying out `command` in output mode `mode`.
pub fn next_output_mode(mode: OutputMode, command: HardwareCommand) -> (r: OutputMode)
    ensures
        r == mode_after(mode, command),
{
    match command {
        HardwareCommand::ToggleOutput => match mode {
            OutputMode::Usb => OutputMode::Bluetooth,
            OutputMode::Bluetooth => OutputMode::Usb,
        },
        HardwareCommand::OutputUSB => OutputMode::Usb,
        HardwareCommand::OutputBluetooth => OutputMode::Bluetooth,
    }
}

/// Where HID reports go in output mode `mode`: to USB while USB is running, to Bluetooth while a
/// Bluetooth host is connected, and nowhere otherwise. `usb` and `bluetooth` say whether the
/// firmware was built with each of the two transports.
pub fn current_output(
    mode: OutputMode,
    usb: bool,
    bluetooth: bool,
    usb_running: bool,
    bluetooth_connected: bool,
) -> (r: Option<HIDOutput>)
    ensures
        r == (match mode {
            OutputMode::Usb => if usb && usb_running {
                Some(HIDOutput::Usb)
            } else {
                None
            },
            OutputMode::Bluetooth => if bluetooth && bluetooth_connected {
                Some(HIDOutput::Bluetooth)
            } else {
                None
            },
        }),
{
    match mode {
        OutputMode::Usb => {
            if usb && usb_running {
                Some(HIDOutput::Usb)
            } else {
                None
            }
        },
        OutputMode::Bluetooth => {
            if bluetooth && bluetooth_connected {
                Some(HIDOutput::Bluetooth)
            } else {
                None
            }
        },
    }
}

/// The output mode a keyboard starts in: Bluetooth where the firmware has Bluetooth, else USB.
pub fn initial_output_mode(bluetooth: bool) -> (r: OutputMode)
    ensures
        r == (if bluetooth { OutputMode::Bluetooth } else { OutputMode::Usb }),
{
    if bluetooth {
        OutputMode::Bluetooth
    } else {
        OutputMode::Usb
    }
}

/// A digital output line, such as a GPIO pin.
///
/// Implementations come from the board support code. An implementation may describe its
/// line through `level`; the contracts of `set_low` and `set_high` say that a call that
/// succeeds leaves a described line at the level it asked for. They are believed of every
/// implementation, not proved. A line that is not described (`level` is `None`, the default)
/// meets them whatever it does, so nothing is claimed of it.
pub trait OutputPin {
    type Error;

    /// The level the line is driven to, where the implementation describes it: `Some(true)`
    /// high, `Some(false)` low, `None` where it does not.
    open spec fn level(&self) -> Option<bool> {
        None
    }

    /// Drives the line low.
    fn set_low(&mut self) -> (r: Result<(), Self::Error>)
        ensures
            r is Ok ==> at_level(final(self).level(), false),
    ;

    /// Drives the line high.
    fn set_high(&mut self) -> (r: Result<(), Self::Error>)
        ensures
            r is Ok ==> at_level(final(self).level(), true),
    ;
}

/// A line whose level is `level` is at `high` (high when `high`, else low), as far as its
/// level is described.
pub open spec fn at_level(level: Option<bool>, high: bool) -> bool {
    level is Some ==> level == Some(high)
}

/// `2` to the power `n`.
pub open spec fn pow2(n: nat) -> nat
    decreases n,
{
    if n == 0 {
        1
    } else {
        2 * pow2((n - 1) as nat)
    }
}

proof fn lemma_pow2_pos(n: nat)
    ensures
        pow2(n) > 0,
    decreases n,
{
    if n > 0 {
        lemma_pow2_pos((n - 1) as nat);
    }
}

/// An analog multiplexer: `P` select lines (some of which may be absent) choose one of its
/// channels, and an optional enable line switches it on (low) and off (high).
pub struct Multiplexer<T, const P: usize> {
    cur_channel: u8,
    pins: [Option<T>; P],
    en: Option<T>,
}

/// The level of an optional line: that of the line where it is present.
pub open spec fn line_level<T: OutputPin>(line: Option<T>) -> Option<bool> {
    match line {
        Some(p) => p.level(),
        None => None,
    }
}

/// Bit `i` of `channel`, the level that selects `channel` on select line `i`.
pub open spec fn channel_bit(channel: u8, i: nat) -> bool {
    (channel as int / pow2(i) as int) % 2 == 1
}

impl<T: OutputPin, const P: usize> Multiplexer<T, P> {
    /// The value kept from the last channel selection: the channel number shifted right once per
    /// select line.
    pub closed spec fn current(&self) -> u8 {
        self.cur_channel
    }

    /// Whether select line `i` is present.
    pub closed spec fn has_select(&self, i: int) -> bool {
        self.pins@[i] is Some
    }

    /// Whether the multiplexer has an enable line.
    pub closed spec fn has_enable(&self) -> bool {
        self.en is Some
    }

    /// The level of select line `i`, where its implementation describes it.
    pub closed spec fn select_level(&self, i: int) -> Option<bool> {
        line_level(self.pins@[i])
    }

    /// The level of the enable line, where its implementation describes it.
    pub closed spec fn enable_level(&self) -> Option<bool> {
        line_level(self.en)
    }

    /// Channel 0 is selected on the select lines before line `k`: those present are low;
    /// line `k`, unless `k` is `P`, is present, and the lines after it have the levels of
    /// `pins`.
    pub open spec fn zero_selected_up_to(&self, k: int, pins: Seq<Option<T>>) -> bool {
        &&& 0 <= k <= P
        &&& forall|i: int| 0 <= i < k && self.has_select(i) ==> at_level(self.select_level(i), false)
        &&& k < P ==> self.has_select(k)
        &&& forall|j: int| k < j < P ==> self.select_level(j) == line_level(pins[j])
    }

    /// A multiplexer with the given select lines and enable line, switched to channel 0: each
    /// present select line is driven low, in order. A failure to drive a select line is
    /// ignored; the lines after it keep their level, and the enable line is left as it is.
    pub fn new(pins: [Option<T>; P], en: Option<T>) -> (r: Self)
        ensures
            r.current() == 0,
            forall|i: int| 0 <= i < P ==> r.has_select(i) == (pins@[i] is Some),
            r.has_enable() == (en is Some),
            r.enable_level() == line_level(en),
            exists|k: int| #[trigger] r.zero_selected_up_to(k, pins@),
    {
        let mut multiplexer = Multiplexer { pins, en, cur_channel: 0 };
        let ghost m0 = multiplexer;
        let res = multiplexer.select_channel(0);
        proof {
            lemma_pow2_pos(P as nat);
            let d = pow2(P as nat) as int;
            assert(0int / d == 0) by (nonlinear_arith)
                requires
                    d > 0,
            ;
            assert forall|i: nat| !channel_bit(0, i) by {
                lemma_pow2_pos(i);
                let d = pow2(i) as int;
                assert(0int / d == 0) by (nonlinear_arith)
                    requires
                        d > 0,
                ;
            }
            let k: int = if res is Ok {
                P as int
            } else {
                choose|k: int|
                    0 <= k < P && m0.has_select(k) && (forall|i: int|
                        0 <= i < k && m0.has_select(i) ==> at_level(
                            multiplexer.select_level(i),
                            channel_bit(0, i as nat),
                        )) && (forall|j: int|
                        k < j < P ==> multiplexer.select_level(j) == m0.select_level(j))
            };
            assert(multiplexer.zero_selected_up_to(k, pins@));
        }
        multiplexer
    }

    /// Switches the multiplexer on by driving its enable line low; a multiplexer without an
    /// enable line is always on.
    pub fn enable(&mut self) -> (r: Result<(), T::Error>)
        ensures
            !old(self).has_enable() ==> r is Ok,
            r is Ok && old(self).has_enable() ==> at_level(final(self).enable_level(), false),
            !old(self).has_enable() ==> final(self).enable_level() == old(self).enable_level(),
            final(self).current() == old(self).current(),
            final(self).has_enable() == old(self).has_enable(),
            forall|i: int| 0 <= i < P ==> final(self).has_select(i) == old(self).has_select(i),
            forall|i: int| 0 <= i < P ==> final(self).select_level(i) == old(self).select_level(i),
    {
        match &mut self.en {
            Some(en) => {
                en.set_low()?;
            },
            None => {},
        }
        Ok(())
    }

    /// Switches the multiplexer off by driving its enable line high; a multiplexer without an
    /// enable line cannot be switched off.
    pub fn disable(&mut self) -> (r: Result<(), T::Error>)
        ensures
            !old(self).has_enable() ==> r is Ok,
            r is Ok && old(self).has_enable() ==> at_level(final(self).enable_level(), true),
            !old(self).has_enable() ==> final(self).enable_level() == old(self).enable_level(),
            final(self).current() == old(self).current(),
            final(self).has_enable() == old(self).has_enable(),
            forall|i: int| 0 <= i < P ==> final(self).has_select(i) == old(self).has_select(i),
            forall|i: int| 0 <= i < P ==> final(self).select_level(i) == old(self).select_level(i),
    {
        match &mut self.en {
            Some(en) => {
                en.set_high()?;
            },
            None => {},
        }
        Ok(())
    }

    /// Drives the select lines for `channel`, in order: line `i`, where present, high if bit `i`
    /// of `channel` is set and low otherwise. Stops at the first line that fails, leaving the
    /// lines after it as they were; the enable line is left as it is.
    pub fn select_channel(&mut self, channel: u8) -> (r: Result<(), T::Error>)
        ensures
            r is Ok ==> final(self).current() == (channel as int / pow2(P as nat) as int) as u8,
            r is Ok ==> forall|i: int|
                0 <= i < P && old(self).has_select(i) ==> at_level(
                    final(self).select_level(i),
                    channel_bit(channel, i as nat),
                ),
            r is Err ==> final(self).current() == old(self).current(),
            r is Err ==> exists|k: int|
                0 <= k < P && old(self).has_select(k) && (forall|i: int|
                    0 <= i < k && old(self).has_select(i) ==> at_level(
                        final(self).select_level(i),
                        channel_bit(channel, i as nat),
                    )) && (forall|j: int|
                    k < j < P ==> final(self).select_level(j) == old(self).select_level(j)),
            (forall|i: int| 0 <= i < P ==> !old(self).has_select(i)) ==> r is Ok,
            final(self).has_enable() == old(self).has_enable(),
            final(self).enable_level() == old(self).enable_level(),
            forall|i: int| 0 <= i < P ==> final(self).has_select(i) == old(self).has_select(i),
    {
        let mut ch = channel;
        let mut i: usize = 0;
        assert(pow2(0) == 1);
        while i < P
            invariant
                i <= P,
                ch as int == channel as int / pow2(i as nat) as int,
                self.cur_channel == old(self).cur_channel,
                self.en == old(self).en,
                forall|j: int| 0 <= j < P ==> (self.pins@[j] is Some) == (old(self).pins@[j] is Some),
                forall|j: int|
                    0 <= j < i && self.pins@[j] is Some ==> at_level(
                        line_level(self.pins@[j]),
                        channel_bit(channel, j as nat),
                    ),
                forall|j: int| i <= j < P ==> self.pins@[j] == old(self).pins@[j],
            decreases P - i,
        {
            let high = ch & 1 == 1;
            assert(ch & 1 == ch % 2) by (bit_vector);
            assert(high == channel_bit(channel, i as nat));
            if self.pins[i].is_some() {
                assert(old(self).has_select(i as int));
                match &mut self.pins[i] {
                    Some(pin) => {
                        if high {
                            pin.set_high()?;
                        } else {
                            pin.set_low()?;
                        }
                    },
                    None => {},
                }
            }
            assert(ch >> 1u8 == ch / 2) by (bit_vector);
            proof {
                lemma_pow2_pos(i as nat);
                vstd::arithmetic::div_mod::lemma_div_denominator(
                    channel as int,
                    pow2(i as nat) as int,
                    2,
                );
                assert(pow2((i + 1) as nat) == pow2(i as nat) * 2);
            }
            ch = ch >> 1;
            i = i + 1;
        }
        self.cur_channel = ch;
        Ok(())
    }
}


/// Toggling the output twice comes back to the same mode; choosing USB or Bluetooth gives that
/// mode whatever the mode was, and choosing it again changes nothing.
pub proof fn lemma_output_commands(mode: OutputMode)
    ensures
        mode_after(mode_after(mode, HardwareCommand::ToggleOutput), HardwareCommand::ToggleOutput)
            == mode,
        mode_after(mode, HardwareCommand::ToggleOutput) != mode,
        mode_after(mode, HardwareCommand::OutputUSB) == OutputMode::Usb,
        mode_after(mode, HardwareCommand::OutputBluetooth) == OutputMode::Bluetooth,
        mode_after(mode_after(mode, HardwareCommand::OutputUSB), HardwareCommand::OutputUSB)
            == mode_after(mode, HardwareCommand::OutputUSB),
        mode_after(
            mode_after(mode, HardwareCommand::OutputBluetooth),
            HardwareCommand::OutputBluetooth,
        ) == mode_after(mode, HardwareCommand::OutputBluetooth),
{
}

/// A multiplexer with 8 or more select lines keeps 0 as its current value after any channel
/// selection: every bit of the channel number has been shifted out.
pub proof fn lemma_wide_multiplexer_current(channel: u8, p: nat)
    requires
        p >= 8,
    ensures
        channel as int / pow2(p) as int == 0,
    decreases p,
{
    if p == 8 {
        assert(pow2(8) == 256) by {
            reveal_with_fuel(pow2, 9);
        }
    } else {
        lemma_wide_multiplexer_current(channel, (p - 1) as nat);
        lemma_pow2_pos((p - 1) as nat);
        assert(pow2(p) == 2 * pow2((p - 1) as nat));
        let a = pow2((p - 1) as nat) as int;
        assert(channel as int / (2 * a) == 0) by (nonlinear_arith)
            requires
                a > 0,
                channel as int / a == 0,
                channel >= 0,
        ;
    }
}

} // verus!
