//! Backlighting: the configuration of each kind of backlight, the commands that change it, and
//! the geometry of a lighting matrix.
//!
//! Every effect list is cyclic: stepping past the last effect wraps to the first one and the
//! other way round. A keyboard may switch individual effects off; the effect switching commands of
//! the newer animators then search, in the chosen direction, for the next effect whose enabled
//! flag matches what the animator looks for.

pub mod simple_animations;
pub mod simple_matrix_animations;
pub mod rgb_matrix_animations;
pub mod simple_backlight;
pub mod rgb_backlight_matrix;
pub mod presses;

use vstd::prelude::*;

verus! {

/// The index that follows `i` in a cyclic list of `n` entries, forwards or backwards.
pub open spec fn step(i: int, n: int, forward: bool) -> int {
    if forward {
        if i + 1 >= n { 0 } else { i + 1 }
    } else {
        if i <= 0 { n - 1 } else { i - 1 }
    }
}

/// The index reached from `i` by stepping (at least once, and at most `fuel` times) until the
/// flag of the entry reached equals `want`.
pub open spec fn seek(i: int, n: int, forward: bool, flags: Seq<bool>, want: bool, fuel: nat) -> int
    decreases fuel,
{
    let j = step(i, n, forward);
    if fuel <= 1 || flags[j] == want {
        j
    } else {
        seek(j, n, forward, flags, want, (fuel - 1) as nat)
    }
}

/// The number of steps from `i` to `t` in a cyclic list of `n` entries (between 1 and `n`).
pub open spec fn distance(i: int, t: int, n: int, forward: bool) -> int {
    if forward {
        if t > i { t - i } else { t + n - i }
    } else {
        if t < i { i - t } else { i + n - t }
    }
}

/// Steps from `start` through the cyclic list `flags` until an entry whose flag is `want` is
/// reached, and returns its index. Some entry must have that flag, otherwise the search would go
/// round forever.
pub fn seek_index(start: usize, flags: &[bool], want: bool, forward: bool) -> (r: usize)
    requires
        start < flags@.len(),
        exists|t: int| 0 <= t < flags@.len() && flags@[t] == want,
    ensures
        r == seek(start as int, flags@.len() as int, forward, flags@, want, flags@.len() as nat),
        r < flags@.len(),
        flags@[r as int] == want,
{
    let n = flags.len();
    let ghost target = choose|t: int| 0 <= t < flags@.len() && flags@[t] == want;
    let ghost total = distance(start as int, target, n as int, forward);
    let mut i = start;
    let mut k: usize = 0;
    loop
        invariant
            n == flags@.len(),
            0 <= target < n,
            flags@[target] == want,
            i < n,
            k < n,
            1 <= total <= n,
            k + distance(i as int, target, n as int, forward) == total,
            seek(start as int, n as int, forward, flags@, want, n as nat) == seek(
                i as int,
                n as int,
                forward,
                flags@,
                want,
                (n - k) as nat,
            ),
        decreases distance(i as int, target, n as int, forward),
    {
        let j = if forward {
            if i + 1 >= n {
                0
            } else {
                i + 1
            }
        } else {
            if i == 0 {
                n - 1
            } else {
                i - 1
            }
        };
        assert(j == step(i as int, n as int, forward));
        if flags[j] == want {
            return j;
        }
        i = j;
        k = k + 1;
    }
}

/// A value `base + amount`, held to the range of a `u8`. The sum must fit in an `i16`.
pub fn adjust_u8(base: u8, amount: i16) -> (r: u8)
    requires
        i16::MIN <= base + amount <= i16::MAX,
    ensures
        r == clamp_u8(base + amount),
{
    let v: i16 = base as i16 + amount;
    if v < 0 {
        0
    } else if v > 255 {
        255
    } else {
        v as u8
    }
}

/// An integer held to the range of a `u8`.
pub open spec fn clamp_u8(v: int) -> u8 {
    if v < 0 {
        0
    } else if v > 255 {
        255
    } else {
        v as u8
    }
}

/// `a + b`, or 255 where that does not fit in a `u8`.
pub open spec fn sat_add(a: u8, b: u8) -> u8 {
    if a + b > 255 {
        255
    } else {
        (a + b) as u8
    }
}

/// `a - b`, or 0 where that would be negative.
pub open spec fn sat_sub(a: u8, b: u8) -> u8 {
    if a < b {
        0
    } else {
        (a - b) as u8
    }
}


/// The extent of the LEDs of a lighting matrix: the smallest and largest coordinates of the LEDs,
/// and the point halfway between them.
#[derive(Debug, Clone, Copy)]
pub struct LayoutBounds {
    pub max: (u8, u8),
    pub mid: (u8, u8),
    pub min: (u8, u8),
}

/// A matrix that has no LEDs.
pub struct EmptyBacklightMatrix;

/// Whether the matrix position holds an LED.
pub open spec fn has_led<const C: usize, const R: usize>(
    layout: [[Option<(u8, u8)>; C]; R],
    row: int,
    col: int,
) -> bool {
    0 <= row < R && 0 <= col < C && layout@[row]@[col] is Some
}

/// The physical position of the LED at a matrix position.
pub open spec fn led_at<const C: usize, const R: usize>(
    layout: [[Option<(u8, u8)>; C]; R],
    row: int,
    col: int,
) -> (u8, u8) {
    layout@[row]@[col]->0
}

/// `b` is the smallest of 255 and the coordinates `pick` of the LEDs of `layout`.
pub open spec fn is_min_coord<const C: usize, const R: usize>(
    layout: [[Option<(u8, u8)>; C]; R],
    pick: spec_fn((u8, u8)) -> u8,
    b: u8,
) -> bool {
    &&& forall|r: int, c: int| has_led(layout, r, c) ==> b <= pick(#[trigger] led_at(layout, r, c))
    &&& (b == 255 || exists|r: int, c: int| has_led(layout, r, c) && b == pick(#[trigger] led_at(layout, r, c)))
}

/// `b` is the largest of 0 and the coordinates `pick` of the LEDs of `layout`.
pub open spec fn is_max_coord<const C: usize, const R: usize>(
    layout: [[Option<(u8, u8)>; C]; R],
    pick: spec_fn((u8, u8)) -> u8,
    b: u8,
) -> bool {
    &&& forall|r: int, c: int| has_led(layout, r, c) ==> pick(#[trigger] led_at(layout, r, c)) <= b
    &&& (b == 0 || exists|r: int, c: int| has_led(layout, r, c) && b == pick(#[trigger] led_at(layout, r, c)))
}

/// The extent of the LEDs of a lighting matrix. `layout` holds, for each matrix position, the
/// physical position of its LED, or `None` where there is none; there must be at least one LED.
pub fn get_led_layout_bounds<const C: usize, const R: usize>(
    layout: &[[Option<(u8, u8)>; C]; R],
) -> (bounds: LayoutBounds)
    requires
        exists|r: int, c: int| has_led(*layout, r, c),
    ensures
        is_min_coord(*layout, |p: (u8, u8)| p.0, bounds.min.0),
        is_min_coord(*layout, |p: (u8, u8)| p.1, bounds.min.1),
        is_max_coord(*layout, |p: (u8, u8)| p.0, bounds.max.0),
        is_max_coord(*layout, |p: (u8, u8)| p.1, bounds.max.1),
        bounds.min.0 <= bounds.max.0,
        bounds.min.1 <= bounds.max.1,
        bounds.mid.0 == (bounds.max.0 - bounds.min.0) / 2 + bounds.min.0,
        bounds.mid.1 == (bounds.max.1 - bounds.min.1) / 2 + bounds.min.1,
{
    let ghost lay = *layout;
    let ghost px = |p: (u8, u8)| p.0;
    let ghost py = |p: (u8, u8)| p.1;
    let mut min_x: u8 = 255;
    let mut min_y: u8 = 255;
    let mut max_x: u8 = 0;
    let mut max_y: u8 = 0;
    let mut row: usize = 0;
    while row < R
        invariant
            lay == *layout,
            row <= R,
            forall|r: int, c: int| has_led(lay, r, c) && r < row ==> min_x <= #[trigger] led_at(lay, r, c).0
                && min_y <= led_at(lay, r, c).1 && led_at(lay, r, c).0 <= max_x && led_at(lay, r, c).1 <= max_y,
            min_x == 255 || exists|r: int, c: int| has_led(lay, r, c) && min_x == #[trigger] led_at(lay, r, c).0,
            min_y == 255 || exists|r: int, c: int| has_led(lay, r, c) && min_y == #[trigger] led_at(lay, r, c).1,
            max_x == 0 || exists|r: int, c: int| has_led(lay, r, c) && max_x == #[trigger] led_at(lay, r, c).0,
            max_y == 0 || exists|r: int, c: int| has_led(lay, r, c) && max_y == #[trigger] led_at(lay, r, c).1,
            (exists|r: int, c: int| has_led(lay, r, c) && r < row) ==> min_x <= max_x && min_y <= max_y,
        decreases R - row,
    {
        let mut col: usize = 0;
        while col < C
            invariant
                lay == *layout,
                row < R,
                col <= C,
                forall|r: int, c: int| has_led(lay, r, c) && (r < row || (r == row && c < col)) ==> min_x
                    <= #[trigger] led_at(lay, r, c).0 && min_y <= led_at(lay, r, c).1 && led_at(lay, r, c).0
                    <= max_x && led_at(lay, r, c).1 <= max_y,
                min_x == 255 || exists|r: int, c: int| has_led(lay, r, c) && min_x == #[trigger] led_at(lay, r, c).0,
                min_y == 255 || exists|r: int, c: int| has_led(lay, r, c) && min_y == #[trigger] led_at(lay, r, c).1,
                max_x == 0 || exists|r: int, c: int| has_led(lay, r, c) && max_x == #[trigger] led_at(lay, r, c).0,
                max_y == 0 || exists|r: int, c: int| has_led(lay, r, c) && max_y == #[trigger] led_at(lay, r, c).1,
                (exists|r: int, c: int| has_led(lay, r, c) && (r < row || (r == row && c < col))) ==> min_x
                    <= max_x && min_y <= max_y,
            decreases C - col,
        {
            if let Some((x, y)) = layout[row][col] {
                assert(has_led(lay, row as int, col as int));
                assert(led_at(lay, row as int, col as int) == (x, y));
                if x <= min_x {
                    min_x = x;
                }
                if y <= min_y {
                    min_y = y;
                }
                if x >= max_x {
                    max_x = x;
                }
                if y >= max_y {
                    max_y = y;
                }
            }
            col = col + 1;
        }
        row = row + 1;
    }
    let bounds = LayoutBounds {
        max: (max_x, max_y),
        mid: ((max_x - min_x) / 2 + min_x, (max_y - min_y) / 2 + min_y),
        min: (min_x, min_y),
    };
    assert(is_min_coord(lay, px, min_x));
    assert(is_min_coord(lay, py, min_y));
    assert(is_max_coord(lay, px, max_x));
    assert(is_max_coord(lay, py, max_y));
    bounds
}


proof fn lemma_seek_reaches(i: int, n: int, forward: bool, flags: Seq<bool>, want: bool, fuel: nat, t: int)
    requires
        n == flags.len(),
        0 <= i < n,
        0 <= t < n,
        flags[t] == want,
        1 <= distance(i, t, n, forward) <= fuel,
    ensures
        0 <= seek(i, n, forward, flags, want, fuel) < n,
        flags[seek(i, n, forward, flags, want, fuel)] == want,
    decreases fuel,
{
    let j = step(i, n, forward);
    if flags[j] != want {
        lemma_seek_reaches(j, n, forward, flags, want, (fuel - 1) as nat, t);
    }
}

/// A search through a cyclic list of flags that has an entry with the wanted flag lands on such
/// an entry.
pub proof fn lemma_seek_lands_on_wanted(i: int, forward: bool, flags: Seq<bool>, want: bool)
    requires
        0 <= i < flags.len(),
        exists|t: int| 0 <= t < flags.len() && flags[t] == want,
    ensures
        0 <= seek(i, flags.len() as int, forward, flags, want, flags.len()) < flags.len(),
        flags[seek(i, flags.len() as int, forward, flags, want, flags.len())] == want,
{
    let t = choose|t: int| 0 <= t < flags.len() && flags[t] == want;
    lemma_seek_reaches(i, flags.len() as int, forward, flags, want, flags.len(), t);
}

/// The point halfway between the extremes of a lighting matrix lies between them.
pub proof fn lemma_bounds_mid_between(b: LayoutBounds)
    requires
        b.min.0 <= b.max.0,
        b.min.1 <= b.max.1,
        b.mid.0 == (b.max.0 - b.min.0) / 2 + b.min.0,
        b.mid.1 == (b.max.1 - b.min.1) / 2 + b.min.1,
    ensures
        b.min.0 <= b.mid.0 <= b.max.0,
        b.min.1 <= b.mid.1 <= b.max.1,
{
}

proof fn lemma_seek_first_from(i: int, n: int, forward: bool, flags: Seq<bool>, want: bool, fuel: nat, target: int)
    requires
        n == flags.len(),
        0 <= i < n,
        0 <= target < n,
        flags[target] == want,
        1 <= distance(i, target, n, forward) <= fuel,
    ensures
        0 <= seek(i, n, forward, flags, want, fuel) < n,
        1 <= distance(i, seek(i, n, forward, flags, want, fuel), n, forward) <= distance(
            i,
            target,
            n,
            forward,
        ),
        forall|t: int|
            0 <= t < n && 1 <= distance(i, t, n, forward) < distance(
                i,
                seek(i, n, forward, flags, want, fuel),
                n,
                forward,
            ) ==> #[trigger] flags[t] != want,
    decreases fuel,
{
    let j = step(i, n, forward);
    if flags[j] != want {
        lemma_seek_first_from(j, n, forward, flags, want, (fuel - 1) as nat, target);
    }
}

/// A search through a cyclic list of flags that has an entry with the wanted flag stops at the
/// first such entry in its direction: each entry that it passes on the way has the other flag.
pub proof fn lemma_seek_first(i: int, forward: bool, flags: Seq<bool>, want: bool)
    requires
        0 <= i < flags.len(),
        exists|t: int| 0 <= t < flags.len() && flags[t] == want,
    ensures
        forall|t: int|
            0 <= t < flags.len() && 1 <= distance(i, t, flags.len() as int, forward) < distance(
                i,
                seek(i, flags.len() as int, forward, flags, want, flags.len()),
                flags.len() as int,
                forward,
            ) ==> #[trigger] flags[t] != want,
{
    let t = choose|t: int| 0 <= t < flags.len() && flags[t] == want;
    lemma_seek_first_from(i, flags.len() as int, forward, flags, want, flags.len(), t);
}

} // verus!
