//! Keyboard building blocks: rumcake's own key codes, rotary encoders, and the sampling of
//! analog key matrices.

use crate::hw::HardwareCommand;
use crate::layout::{CustomEvent, Event};
use crate::matrix::{AnalogMatrix, can_sample, fails_with, normalized, ranges_valid, scanned};
use core::ops::Range;
use vstd::prelude::*;

verus! {

/// Custom key codes used to interact with other rumcake features. They can be used in a
/// keyboard layout.
#[derive(Debug, Clone, Copy, PartialEq, Eq, Structural)]
#[non_exhaustive]
pub enum Keycode {
    /// Custom key code, which can be used to run the keyboard's own code.
    Custom(u8),
    /// Hardware key code, which can be any [`HardwareCommand`].
    Hardware(HardwareCommand),
}

/// What the firmware does with the custom event of a layout tick.
#[derive(Debug, Clone, Copy, PartialEq, Eq, Structural)]
pub enum KeycodeAction {
    /// Nothing.
    Nothing,
    /// Calls the keyboard's handler of custom key codes with the key code's id, and whether the
    /// key was pressed (`true`) or released (`false`).
    Custom(u8, bool),
    /// Sends a command to the hardware task.
    Hardware(HardwareCommand),
}

/// What the firmware does with the custom event of a layout tick: a custom key code goes to the
/// keyboard's handler on press and on release; a hardware key code sends its command on press.
pub fn keycode_action(event: CustomEvent<Keycode>) -> (r: KeycodeAction)
    ensures
        r == (match event {
            CustomEvent::Press(Keycode::Custom(id)) => KeycodeAction::Custom(id, true),
            CustomEvent::Press(Keycode::Hardware(command)) => KeycodeAction::Hardware(command),
            CustomEvent::Release(Keycode::Custom(id)) => KeycodeAction::Custom(id, false),
            _ => KeycodeAction::Nothing,
        }),
{
    match event {
        CustomEvent::Press(Keycode::Custom(id)) => KeycodeAction::Custom(id, true),
        CustomEvent::Press(Keycode::Hardware(command)) => KeycodeAction::Hardware(command),
        CustomEvent::Release(Keycode::Custom(id)) => KeycodeAction::Custom(id, false),
        _ => KeycodeAction::Nothing,
    }
}

/// The most key codes that a keyboard report holds.
pub const REPORT_KEYS: usize = 24;

/// Whether two lists of key codes are the same.
fn same_keys(a: &Vec<u8>, b: &Vec<u8>) -> (r: bool)
    ensures
        r == (a@ == b@),
{
    if a.len() != b.len() {
        return false;
    }
    let mut i: usize = 0;
    while i < a.len()
        invariant
            a@.len() == b@.len(),
            i <= a@.len(),
            forall|j: int| 0 <= j < i ==> a@[j] == b@[j],
        decreases a@.len() - i,
    {
        if a[i] != b[i] {
            return false;
        }
        i = i + 1;
    }
    assert(a@ =~= b@);
    true
}

/// One step of reporting the pressed keys to the host. `keys` holds the HID usage ids of the
/// keys pressed now, `last_keys` those of the last change. When the keys changed, `last_keys`
/// becomes `keys`, and `keys` is the report to send if an output is current
/// (`output_current`); a report with no output to take it is dropped. When nothing changed,
/// nothing is sent.
pub fn report_keys(last_keys: &mut Vec<u8>, keys: Vec<u8>, output_current: bool) -> (r: Option<
    Vec<u8>,
>)
    requires
        keys@.len() <= REPORT_KEYS,
    ensures
        final(last_keys)@ == keys@,
        r is Some <==> (old(last_keys)@ != keys@ && output_current),
        r matches Some(report) ==> report@ == keys@,
{
    if same_keys(last_keys, &keys) {
        return None;
    }
    *last_keys = keys.clone();
    if output_current {
        Some(keys)
    } else {
        None
    }
}

/// A layout that receives no events.
pub struct EmptyKeyboardLayout;

/// Something that happened to a rotary encoder.
#[derive(Debug, Clone, Copy, PartialEq, Eq, Structural)]
pub enum EncoderEvent {
    ClockwiseRotation,
    CounterClockwiseRotation,
    Press,
    Release,
}

/// The signal an EC11 encoder woke up on.
#[derive(Debug, Clone, Copy, PartialEq, Eq, Structural)]
pub enum Ec11Edge {
    /// A falling edge on the A line: the encoder was turned.
    Rotation,
    /// An edge on the switch line: the encoder's button was pressed or released.
    Switch,
}

/// An EC11 rotary encoder, with its switch line and its A and B lines.
pub struct EC11Encoder<SW, A, B> {
    sw: SW,
    a: A,
    b: B,
}

impl<SW, A, B> EC11Encoder<SW, A, B> {
    /// The switch line.
    pub closed spec fn switch_line(&self) -> SW {
        self.sw
    }

    /// The A line.
    pub closed spec fn a_line(&self) -> A {
        self.a
    }

    /// The B line.
    pub closed spec fn b_line(&self) -> B {
        self.b
    }

    /// An encoder on the given lines.
    pub fn new(sw: SW, a: A, b: B) -> (r: Self)
        ensures
            r.switch_line() == sw,
            r.a_line() == a,
            r.b_line() == b,
    {
        EC11Encoder { sw, a, b }
    }
}

/// What an EC11 encoder reports for the signal it woke up on. For a rotation, `level` is whether
/// the B line reads high (counter-clockwise) or low (clockwise); for the switch, whether the
/// switch line reads low (pressed) or high (released). A line that cannot be read counts as
/// `false`.
pub fn ec11_event(edge: Ec11Edge, level: Option<bool>) -> (r: EncoderEvent)
    ensures
        r == (match edge {
            Ec11Edge::Rotation => if level == Some(true) {
                EncoderEvent::CounterClockwiseRotation
            } else {
                EncoderEvent::ClockwiseRotation
            },
            Ec11Edge::Switch => if level == Some(true) {
                EncoderEvent::Press
            } else {
                EncoderEvent::Release
            },
        }),
{
    let high = match level {
        Some(v) => v,
        None => false,
    };
    match edge {
        Ec11Edge::Rotation => {
            if high {
                EncoderEvent::CounterClockwiseRotation
            } else {
                EncoderEvent::ClockwiseRotation
            }
        },
        Ec11Edge::Switch => {
            if high {
                EncoderEvent::Press
            } else {
                EncoderEvent::Release
            }
        },
    }
}

/// The key events that an encoder event stands for. `mapping` holds the layout positions of
/// the encoder's switch, of its clockwise rotation and of its counter-clockwise rotation: a
/// rotation taps its position (a press, then a release); the switch presses or releases its
/// position.
pub fn encoder_events(event: EncoderEvent, mapping: [(u8, u8); 3]) -> (r: Vec<Event>)
    ensures
        r@ == (match event {
            EncoderEvent::ClockwiseRotation => seq![
                Event::Press(mapping@[1].0, mapping@[1].1),
                Event::Release(mapping@[1].0, mapping@[1].1),
            ],
            EncoderEvent::CounterClockwiseRotation => seq![
                Event::Press(mapping@[2].0, mapping@[2].1),
                Event::Release(mapping@[2].0, mapping@[2].1),
            ],
            EncoderEvent::Press => seq![Event::Press(mapping@[0].0, mapping@[0].1)],
            EncoderEvent::Release => seq![Event::Release(mapping@[0].0, mapping@[0].1)],
        }),
{
    let sw_pos = mapping[0];
    let cw_pos = mapping[1];
    let ccw_pos = mapping[2];
    let mut events: Vec<Event> = Vec::new();
    match event {
        EncoderEvent::ClockwiseRotation => {
            events.push(Event::Press(cw_pos.0, cw_pos.1));
            events.push(Event::Release(cw_pos.0, cw_pos.1));
        },
        EncoderEvent::CounterClockwiseRotation => {
            events.push(Event::Press(ccw_pos.0, ccw_pos.1));
            events.push(Event::Release(ccw_pos.0, ccw_pos.1));
        },
        EncoderEvent::Press => {
            events.push(Event::Press(sw_pos.0, sw_pos.1));
        },
        EncoderEvent::Release => {
            events.push(Event::Release(sw_pos.0, sw_pos.1));
        },
    }
    assert(events@ =~= (match event {
        EncoderEvent::ClockwiseRotation => seq![
            Event::Press(mapping@[1].0, mapping@[1].1),
            Event::Release(mapping@[1].0, mapping@[1].1),
        ],
        EncoderEvent::CounterClockwiseRotation => seq![
            Event::Press(mapping@[2].0, mapping@[2].1),
            Event::Release(mapping@[2].0, mapping@[2].1),
        ],
        EncoderEvent::Press => seq![Event::Press(mapping@[0].0, mapping@[0].1)],
        EncoderEvent::Release => seq![Event::Release(mapping@[0].0, mapping@[0].1)],
    }));
    events
}

/// Uses ADC hardware to take the samples of an analog matrix; implemented by each keyboard.
pub trait MatrixSampler {
    /// Type of samples generated by the ADC.
    type SampleType;

    /// The sample of analog channel `ch`; `sub_ch` selects the input of a multiplexed channel.
    fn get_sample(&self, ch: usize, sub_ch: usize) -> Option<Self::SampleType>;
}

/// Takes the samples of an analog matrix: each matrix position is wired to an analog channel
/// and, for a multiplexed channel, one of its inputs.
pub struct AnalogMatrixSampler<'a, S, const CS: usize, const RS: usize> {
    pos_to_ch: [[(u8, u8); CS]; RS],
    sampler: &'a S,
}

/// The sampling failed for a key position.
#[derive(Debug, Clone, Copy, PartialEq, Eq, Structural)]
pub enum SampleError {
    NoSampleForKeyPosition(usize, usize),
}

impl<'a, S: MatrixSampler, const CS: usize, const RS: usize> AnalogMatrixSampler<'a, S, CS, RS> {
    /// The analog channel and input of each matrix position.
    pub closed spec fn channels(&self) -> [[(u8, u8); CS]; RS] {
        self.pos_to_ch
    }

    /// The ADC that takes the samples.
    pub closed spec fn sampler(&self) -> &'a S {
        self.sampler
    }

    /// `o` is an answer that the ADC can give when it is asked for the channel and input of the
    /// key at `row` and `col`.
    pub open spec fn can_read(&self, row: int, col: int, o: Option<S::SampleType>) -> bool {
        call_ensures(
            S::get_sample,
            (
                self.sampler(),
                self.channels()@[row]@[col].0 as usize,
                self.channels()@[row]@[col].1 as usize,
            ),
            o,
        )
    }

    /// A sampler for a matrix whose positions are wired as `pos_to_ch` says.
    pub fn new(pos_to_ch: [[(u8, u8); CS]; RS], sampler: &'a S) -> (r: Self)
        ensures
            r.channels() == pos_to_ch,
            r.sampler() == sampler,
    {
        AnalogMatrixSampler { pos_to_ch, sampler }
    }

    /// The analog channel and input of the key at `row` and `col`, or `None` outside the matrix.
    pub fn channel_of(&self, row: usize, col: usize) -> (r: Option<(usize, usize)>)
        ensures
            r == (if row < RS && col < CS {
                Some(
                    (
                        self.channels()@[row as int]@[col as int].0 as usize,
                        self.channels()@[row as int]@[col as int].1 as usize,
                    ),
                )
            } else {
                None
            }),
    {
        if row < RS && col < CS {
            let (ch, sub_ch) = self.pos_to_ch[row][col];
            Some((ch as usize, sub_ch as usize))
        } else {
            None
        }
    }

    /// The sample of the key at `row` and `col`: `None` outside the matrix, else what the ADC
    /// returns when it is asked for the key's channel and input.
    pub fn get_key_state(&self, row: usize, col: usize) -> (r: Option<S::SampleType>)
        ensures
            !(row < RS && col < CS) ==> r is None,
            row < RS && col < CS ==> self.can_read(row as int, col as int, r),
    {
        match self.channel_of(row, col) {
            Some((ch, sub_ch)) => self.sampler.get_sample(ch, sub_ch),
            None => None,
        }
    }
}

impl<'a, S: MatrixSampler<SampleType = u16>, const CS: usize, const RS: usize> AnalogMatrixSampler<
    'a,
    S,
    CS,
    RS,
> {
    /// `key` is the normalized value, for a key calibrated to `range`, of a sample that the ADC
    /// can give for the key at `row` and `col`.
    pub open spec fn reads_as(&self, row: int, col: int, key: u8, range: Range<u16>) -> bool {
        exists|v: u16|
            #[trigger] self.can_read(row, col, Some(v)) && key == normalized(
                v,
                range.start,
                range.end,
            )
    }

    /// `keys` is what a scan of the matrix gives: for each key, the normalized value of a
    /// sample that the ADC can give for it.
    pub open spec fn scans_to(&self, keys: [[u8; CS]; RS], ranges: [[Range<u16>; CS]; RS]) -> bool {
        forall|row: int, col: int|
            0 <= row < RS && 0 <= col < CS ==> #[trigger] self.reads_as(
                row,
                col,
                keys@[row]@[col],
                ranges@[row]@[col],
            )
    }

    /// The scan stops at the key at `row` and `col`: the ADC can answer that it has no sample
    /// for it, and it can give a sample for each key before it, row by row.
    pub open spec fn stops_at(&self, row: int, col: int) -> bool {
        &&& 0 <= row < RS && 0 <= col < CS
        &&& self.can_read(row, col, None)
        &&& forall|r: int, c: int|
            (0 <= r < row && 0 <= c < CS) || (r == row && 0 <= c < col) ==> #[trigger] self.has_sample(
                r,
                c,
            )
    }

    /// The ADC can give a sample for the key at `row` and `col`.
    pub open spec fn has_sample(&self, row: int, col: int) -> bool {
        exists|v: u16| #[trigger] self.can_read(row, col, Some(v))
    }
}

/// The sample of a key, or the error that names the key where there is none.
pub fn key_sample<'a, S: MatrixSampler<SampleType = u16>, const CS: usize, const RS: usize>(
    sampler: &AnalogMatrixSampler<'a, S, CS, RS>,
    row: usize,
    col: usize,
) -> (r: Result<u16, SampleError>)
    ensures
        r matches Err(e) ==> e == SampleError::NoSampleForKeyPosition(row, col),
        !(row < RS && col < CS) ==> r == Err::<u16, SampleError>(
            SampleError::NoSampleForKeyPosition(row, col),
        ),
        row < RS && col < CS ==> sampler.can_read(
            row as int,
            col as int,
            match r {
                Ok(v) => Some(v),
                Err(_) => None,
            },
        ),
{
    match sampler.get_key_state(row, col) {
        Some(v) => Ok(v),
        None => Err(SampleError::NoSampleForKeyPosition(row, col)),
    }
}

/// Samples every key of an analog matrix and normalizes the samples; the first key without a
/// sample ends the scan with an error that names it.
pub fn sample_analog_matrix<'a, S: MatrixSampler<SampleType = u16>, const CS: usize, const RS: usize>(
    sampler: &AnalogMatrixSampler<'a, S, CS, RS>,
    matrix: &mut AnalogMatrix<u16, CS, RS>,
) -> (r: Result<[[u8; CS]; RS], SampleError>)
    requires
        ranges_valid(old(matrix).ranges()),
    ensures
        final(matrix).ranges() == old(matrix).ranges(),
        r matches Ok(keys) ==> sampler.scans_to(keys, old(matrix).ranges()),
        r matches Err(e) ==> exists|row: usize, col: usize|
            e == SampleError::NoSampleForKeyPosition(row, col) && #[trigger] sampler.stops_at(
                row as int,
                col as int,
            ),
{
    let get = |row: usize, col: usize| -> (r: Result<u16, SampleError>)
        ensures
            r matches Err(e) ==> e == SampleError::NoSampleForKeyPosition(row, col),
            row < RS && col < CS ==> sampler.can_read(
                row as int,
                col as int,
                match r {
                    Ok(v) => Some(v),
                    Err(_) => None,
                },
            ),
        { key_sample(sampler, row, col) };
    let r = matrix.get(get);
    proof {
        if r is Ok {
            let keys = r->Ok_0;
            let ranges = old(matrix).ranges();
            assert(scanned(keys, get, ranges));
            assert forall|row: int, col: int| 0 <= row < RS && 0 <= col < CS implies #[trigger] sampler.reads_as(
                row,
                col,
                keys@[row]@[col],
                ranges@[row]@[col],
            ) by {
                assert(crate::matrix::sample_gives(get, row, col, keys@[row]@[col], ranges@[row]@[col]));
                let v = choose|v: u16|
                    get.ensures((row as usize, col as usize), Ok(v)) && keys@[row]@[col] == normalized(
                        v,
                        ranges@[row]@[col].start,
                        ranges@[row]@[col].end,
                    );
                assert(sampler.can_read(row, col, Some(v)));
            }
        }
        if r is Err {
            let e = r->Err_0;
            assert(fails_with::<SampleError, _, CS, RS>(get, e));
            let (row, col) = choose|row: usize, col: usize|
                row < RS && col < CS && #[trigger] get.ensures((row, col), Err(e)) && (forall|
                    r: usize,
                    c: usize,
                |
                    (r < row && c < CS) || (r == row && c < col) ==> #[trigger] can_sample(
                        get,
                        r,
                        c,
                    ));
            assert(e == SampleError::NoSampleForKeyPosition(row, col));
            assert forall|r: int, c: int|
                (0 <= r < row && 0 <= c < CS) || (r == row && 0 <= c < col) implies #[trigger] sampler.has_sample(
                r,
                c,
            ) by {
                assert(can_sample(get, r as usize, c as usize));
                let v = choose|v: u16| get.ensures((r as usize, c as usize), Ok(v));
                assert(sampler.can_read(r, c, Some(v)));
            }
            assert(sampler.stops_at(row as int, col as int));
        }
    }
    r
}

} // verus!
