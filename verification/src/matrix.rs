//! Matrices of analog switches.

use core::ops::Range;
use vstd::prelude::*;

verus! {

/// Matrix where switches generate an analog signal (e.g. hall-effect switches or
/// electrocapacitive). The raw sample of each key is normalized into an 8-bit value, where 0
/// represents an unpressed key and 255 a fully-pressed key, using the range of raw values that
/// the key was calibrated to.
///
/// Generic parameters are in order: the raw type returned when sampling the ADC, the number of
/// columns and rows.
pub struct AnalogMatrix<T, const CS: usize, const RS: usize> {
    ranges: [[Range<T>; CS]; RS],
}

impl<T, const CS: usize, const RS: usize> AnalogMatrix<T, CS, RS> {
    /// The calibrated range of each key.
    pub closed spec fn ranges(&self) -> [[Range<T>; CS]; RS] {
        self.ranges
    }

    /// Creates a new AnalogMatrix from the calibrated range of each key.
    pub fn new(ranges: [[Range<T>; CS]; RS]) -> (r: Self)
        ensures
            r.ranges() == ranges,
    {
        AnalogMatrix { ranges }
    }
}

/// The normalized value of a raw sample `value` for a key calibrated to `start..end`: the sample
/// is first held to the range, then scaled so that `start` gives 0 and `end` gives 255.
pub open spec fn normalized(value: u16, start: u16, end: u16) -> u8 {
    let held: int = if value < start {
        start as int
    } else if value > end {
        end as int
    } else {
        value as int
    };
    ((held - start) * 255 / (end - start)) as u8
}

/// Whether every key's calibrated range is non-empty.
pub open spec fn ranges_valid<const CS: usize, const RS: usize>(
    ranges: [[Range<u16>; CS]; RS],
) -> bool {
    forall|r: int, c: int| 0 <= r < RS && 0 <= c < CS ==> #[trigger] ranges@[r]@[c].start < ranges@[r]@[c].end
}

/// The normalized value of a raw sample for a key calibrated to `start..end`, which must not be
/// empty.
pub fn normalize(value: u16, start: u16, end: u16) -> (r: u8)
    requires
        start < end,
    ensures
        r == normalized(value, start, end),
{
    let held = if value < start {
        start
    } else if value > end {
        end
    } else {
        value
    };
    let span = (end - start) as u32;
    let offset = (held - start) as u32;
    assert(offset * 255 <= span * 255) by (nonlinear_arith)
        requires
            offset <= span,
    ;
    assert((offset * 255) as int / (span as int) <= 255) by (nonlinear_arith)
        requires
            offset <= span,
            span > 0,
            offset * 255 <= span * 255,
    ;
    (offset * 255 / span) as u8
}

/// `key` is the normalized value, for a key calibrated to `range`, of a sample that
/// `get_press_value` can return for the key at `row` and `col`.
pub open spec fn sample_gives<E, F: Fn(usize, usize) -> Result<u16, E>>(
    get_press_value: F,
    row: int,
    col: int,
    key: u8,
    range: Range<u16>,
) -> bool {
    exists|v: u16|
        get_press_value.ensures((row as usize, col as usize), Ok(v)) && key == normalized(
            v,
            range.start,
            range.end,
        )
}

/// `keys` is what a scan gives: for each key, the normalized value of a sample that
/// `get_press_value` can return for it.
pub open spec fn scanned<E, F: Fn(usize, usize) -> Result<u16, E>, const CS: usize, const RS: usize>(
    keys: [[u8; CS]; RS],
    get_press_value: F,
    ranges: [[Range<u16>; CS]; RS],
) -> bool {
    forall|row: int, col: int|
        0 <= row < RS && 0 <= col < CS ==> #[trigger] sample_gives(
            get_press_value,
            row,
            col,
            keys@[row]@[col],
            ranges@[row]@[col],
        )
}

/// `get_press_value` can return a sample for the key at `row` and `col`.
pub open spec fn can_sample<E, F: Fn(usize, usize) -> Result<u16, E>>(
    get_press_value: F,
    row: usize,
    col: usize,
) -> bool {
    exists|v: u16| #[trigger] get_press_value.ensures((row, col), Ok(v))
}

/// `e` is an error that `get_press_value` can return for some key of the matrix, and each key
/// before that one, row by row, can give a sample: the scan stopped at its first failure.
pub open spec fn fails_with<E, F: Fn(usize, usize) -> Result<u16, E>, const CS: usize, const RS: usize>(
    get_press_value: F,
    e: E,
) -> bool {
    exists|row: usize, col: usize|
        row < RS && col < CS && #[trigger] get_press_value.ensures((row, col), Err(e)) && (
        forall|r: usize, c: usize|
            (r < row && c < CS) || (r == row && c < col) ==> #[trigger] can_sample(
                get_press_value,
                r,
                c,
            ))
}

impl<const CS: usize, const RS: usize> AnalogMatrix<u16, CS, RS> {
    /// Samples every key with `get_press_value` (which returns the raw ADC sample of the key at a
    /// row and column), row by row, and normalizes the samples. The first failing sample ends
    /// the scan with its error.
    pub fn get<E, F: Fn(usize, usize) -> Result<u16, E>>(&mut self, get_press_value: F) -> (r:
        Result<[[u8; CS]; RS], E>)
        requires
            ranges_valid(old(self).ranges()),
            forall|row: usize, col: usize| #[trigger] get_press_value.requires((row, col)),
        ensures
            final(self).ranges() == old(self).ranges(),
            r matches Ok(keys) ==> scanned(keys, get_press_value, old(self).ranges()),
            r matches Err(e) ==> fails_with::<E, F, CS, RS>(get_press_value, e),
    {
        let ranges = &self.ranges;
        let mut keys = [[0u8; CS]; RS];
        let ghost mut samples: Seq<Seq<u16>> = Seq::empty();
        let mut row: usize = 0;
        while row < RS
            invariant
                row <= RS,
                samples.len() == row,
                *ranges == old(self).ranges,
                ranges_valid(*ranges),
                forall|row: usize, col: usize| #[trigger] get_press_value.requires((row, col)),
                forall|r: int| 0 <= r < row ==> (#[trigger] samples[r]).len() == CS,
                forall|r: int, c: int|
                    0 <= r < row && 0 <= c < CS ==> get_press_value.ensures(
                        (r as usize, c as usize),
                        Ok(#[trigger] samples[r][c]),
                    ) && keys@[r]@[c] == normalized(samples[r][c], ranges@[r]@[c].start, ranges@[r]@[c].end),
            decreases RS - row,
        {
            let ghost mut row_samples: Seq<u16> = Seq::empty();
            let mut col: usize = 0;
            while col < CS
                invariant
                    row < RS,
                    col <= CS,
                    row_samples.len() == col,
                    samples.len() == row,
                    forall|r: int| 0 <= r < row ==> (#[trigger] samples[r]).len() == CS,
                    forall|r: int, c: int|
                        0 <= r < row && 0 <= c < CS ==> get_press_value.ensures(
                            (r as usize, c as usize),
                            Ok(#[trigger] samples[r][c]),
                        ) && keys@[r]@[c] == normalized(
                            samples[r][c],
                            ranges@[r]@[c].start,
                            ranges@[r]@[c].end,
                        ),
                    *ranges == old(self).ranges,
                    ranges_valid(*ranges),
                    forall|row: usize, col: usize| #[trigger] get_press_value.requires((row, col)),
                    forall|c: int|
                        0 <= c < col ==> get_press_value.ensures((row, c as usize), Ok(#[trigger] row_samples[c]))
                            && keys@[row as int]@[c] == normalized(
                            row_samples[c],
                            ranges@[row as int]@[c].start,
                            ranges@[row as int]@[c].end,
                        ),
                decreases CS - col,
            {
                let sample = get_press_value(row, col);
                let value = match sample {
                    Ok(v) => v,
                    Err(e) => {
                        assert forall|r: usize, c: usize|
                            (r < row && c < CS) || (r == row && c < col) implies #[trigger] can_sample(
                            get_press_value,
                            r,
                            c,
                        ) by {
                            if r < row {
                                assert(get_press_value.ensures(
                                    (r as int as usize, c as int as usize),
                                    Ok(samples[r as int][c as int]),
                                ));
                            } else {
                                assert(get_press_value.ensures(
                                    (row, c as int as usize),
                                    Ok(row_samples[c as int]),
                                ));
                            }
                        }
                        assert(get_press_value.ensures((row, col), Err(e)));
                        assert(fails_with::<E, F, CS, RS>(get_press_value, e));
                        return Err(e);
                    },
                };
                let range = &ranges[row][col];
                assert(ranges@[row as int]@[col as int].start < ranges@[row as int]@[col as int].end);
                let key = normalize(value, range.start, range.end);
                keys[row][col] = key;
                proof {
                    row_samples = row_samples.push(value);
                }
                col = col + 1;
            }
            proof {
                samples = samples.push(row_samples);
            }
            row = row + 1;
        }
        assert forall|r: int, c: int| 0 <= r < RS && 0 <= c < CS implies #[trigger] sample_gives(
            get_press_value,
            r,
            c,
            keys@[r]@[c],
            old(self).ranges()@[r]@[c],
        ) by {
            assert(get_press_value.ensures((r as usize, c as usize), Ok(samples[r][c])));
        }
        Ok(keys)
    }
}


/// Normalization maps the ends of a key's range to 0 and 255 and keeps the order of samples:
/// a larger sample never gives a smaller value.
pub proof fn lemma_normalized_range(start: u16, end: u16, v1: u16, v2: u16)
    requires
        start < end,
    ensures
        normalized(start, start, end) == 0,
        normalized(end, start, end) == 255,
        v1 <= start ==> normalized(v1, start, end) == 0,
        v1 >= end ==> normalized(v1, start, end) == 255,
        v1 <= v2 ==> normalized(v1, start, end) <= normalized(v2, start, end),
{
    let span = end - start;
    assert(0int * 255 / (span as int) == 0) by (nonlinear_arith)
        requires
            span > 0,
    ;
    assert((span as int) * 255 / (span as int) == 255) by (nonlinear_arith)
        requires
            span > 0,
    ;
    let h1: int = if v1 < start { start as int } else if v1 > end { end as int } else { v1 as int };
    let h2: int = if v2 < start { start as int } else if v2 > end { end as int } else { v2 as int };
    assert(v1 <= v2 ==> (h1 - start) * 255 / (span as int) <= (h2 - start) * 255 / (span as int))
        by (nonlinear_arith)
        requires
            span > 0,
            v1 <= v2 ==> h1 <= h2,
            start <= h1 <= end,
            start <= h2 <= end,
    ;
    assert((h1 - start) * 255 / (span as int) <= 255) by (nonlinear_arith)
        requires
            span > 0,
            start <= h1 <= end,
            span == end - start,
    ;
    assert((h2 - start) * 255 / (span as int) <= 255) by (nonlinear_arith)
        requires
            span > 0,
            start <= h2 <= end,
            span == end - start,
    ;
    assert(0 <= (h1 - start) * 255 / (span as int)) by (nonlinear_arith)
        requires
            span > 0,
            start <= h1,
    ;
    assert(0 <= (h2 - start) * 255 / (span as int)) by (nonlinear_arith)
        requires
            span > 0,
            start <= h2,
    ;
}

} // verus!
