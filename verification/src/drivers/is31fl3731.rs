//! The IS31FL3731 LED driver.

use vstd::prelude::*;

verus! {

/// Possible positions on an IS31FL3731-backed charlieplexed matrix: `Cm_n` is LED `n` of
/// matrix row `m`. Consult the datasheet for more details.
#[derive(Debug, Clone, Copy, PartialEq, Eq, Structural)]
#[allow(non_camel_case_types)]
pub enum Position {
    C1_1,
    C1_2,
    C1_3,
    C1_4,
    C1_5,
    C1_6,
    C1_7,
    C1_8,
    C1_9,
    C1_10,
    C1_11,
    C1_12,
    C1_13,
    C1_14,
    C1_15,
    C1_16,
    C2_1,
    C2_2,
    C2_3,
    C2_4,
    C2_5,
    C2_6,
    C2_7,
    C2_8,
    C2_9,
    C2_10,
    C2_11,
    C2_12,
    C2_13,
    C2_14,
    C2_15,
    C2_16,
    C3_1,
    C3_2,
    C3_3,
    C3_4,
    C3_5,
    C3_6,
    C3_7,
    C3_8,
    C3_9,
    C3_10,
    C3_11,
    C3_12,
    C3_13,
    C3_14,
    C3_15,
    C3_16,
    C4_1,
    C4_2,
    C4_3,
    C4_4,
    C4_5,
    C4_6,
    C4_7,
    C4_8,
    C4_9,
    C4_10,
    C4_11,
    C4_12,
    C4_13,
    C4_14,
    C4_15,
    C4_16,
    C5_1,
    C5_2,
    C5_3,
    C5_4,
    C5_5,
    C5_6,
    C5_7,
    C5_8,
    C5_9,
    C5_10,
    C5_11,
    C5_12,
    C5_13,
    C5_14,
    C5_15,
    C5_16,
    C6_1,
    C6_2,
    C6_3,
    C6_4,
    C6_5,
    C6_6,
    C6_7,
    C6_8,
    C6_9,
    C6_10,
    C6_11,
    C6_12,
    C6_13,
    C6_14,
    C6_15,
    C6_16,
    C7_1,
    C7_2,
    C7_3,
    C7_4,
    C7_5,
    C7_6,
    C7_7,
    C7_8,
    C7_9,
    C7_10,
    C7_11,
    C7_12,
    C7_13,
    C7_14,
    C7_15,
    C7_16,
    C8_1,
    C8_2,
    C8_3,
    C8_4,
    C8_5,
    C8_6,
    C8_7,
    C8_8,
    C8_9,
    C8_10,
    C8_11,
    C8_12,
    C8_13,
    C8_14,
    C8_15,
    C8_16,
    C9_1,
    C9_2,
    C9_3,
    C9_4,
    C9_5,
    C9_6,
    C9_7,
    C9_8,
    C9_9,
    C9_10,
    C9_11,
    C9_12,
    C9_13,
    C9_14,
    C9_15,
    C9_16,
}

impl Position {
    /// The row (1 to 9) and the LED within the row (1 to 16) of a position.
    pub open spec fn row_led(self) -> (int, int) {
        match self {
            Position::C1_1 => (1, 1),
            Position::C1_2 => (1, 2),
            Position::C1_3 => (1, 3),
            Position::C1_4 => (1, 4),
            Position::C1_5 => (1, 5),
            Position::C1_6 => (1, 6),
            Position::C1_7 => (1, 7),
            Position::C1_8 => (1, 8),
            Position::C1_9 => (1, 9),
            Position::C1_10 => (1, 10),
            Position::C1_11 => (1, 11),
            Position::C1_12 => (1, 12),
            Position::C1_13 => (1, 13),
            Position::C1_14 => (1, 14),
            Position::C1_15 => (1, 15),
            Position::C1_16 => (1, 16),
            Position::C2_1 => (2, 1),
            Position::C2_2 => (2, 2),
            Position::C2_3 => (2, 3),
            Position::C2_4 => (2, 4),
            Position::C2_5 => (2, 5),
            Position::C2_6 => (2, 6),
            Position::C2_7 => (2, 7),
            Position::C2_8 => (2, 8),
            Position::C2_9 => (2, 9),
            Position::C2_10 => (2, 10),
            Position::C2_11 => (2, 11),
            Position::C2_12 => (2, 12),
            Position::C2_13 => (2, 13),
            Position::C2_14 => (2, 14),
            Position::C2_15 => (2, 15),
            Position::C2_16 => (2, 16),
            Position::C3_1 => (3, 1),
            Position::C3_2 => (3, 2),
            Position::C3_3 => (3, 3),
            Position::C3_4 => (3, 4),
            Position::C3_5 => (3, 5),
            Position::C3_6 => (3, 6),
            Position::C3_7 => (3, 7),
            Position::C3_8 => (3, 8),
            Position::C3_9 => (3, 9),
            Position::C3_10 => (3, 10),
            Position::C3_11 => (3, 11),
            Position::C3_12 => (3, 12),
            Position::C3_13 => (3, 13),
            Position::C3_14 => (3, 14),
            Position::C3_15 => (3, 15),
            Position::C3_16 => (3, 16),
            Position::C4_1 => (4, 1),
            Position::C4_2 => (4, 2),
            Position::C4_3 => (4, 3),
            Position::C4_4 => (4, 4),
            Position::C4_5 => (4, 5),
            Position::C4_6 => (4, 6),
            Position::C4_7 => (4, 7),
            Position::C4_8 => (4, 8),
            Position::C4_9 => (4, 9),
            Position::C4_10 => (4, 10),
            Position::C4_11 => (4, 11),
            Position::C4_12 => (4, 12),
            Position::C4_13 => (4, 13),
            Position::C4_14 => (4, 14),
            Position::C4_15 => (4, 15),
            Position::C4_16 => (4, 16),
            Position::C5_1 => (5, 1),
            Position::C5_2 => (5, 2),
            Position::C5_3 => (5, 3),
            Position::C5_4 => (5, 4),
            Position::C5_5 => (5, 5),
            Position::C5_6 => (5, 6),
            Position::C5_7 => (5, 7),
            Position::C5_8 => (5, 8),
            Position::C5_9 => (5, 9),
            Position::C5_10 => (5, 10),
            Position::C5_11 => (5, 11),
            Position::C5_12 => (5, 12),
            Position::C5_13 => (5, 13),
            Position::C5_14 => (5, 14),
            Position::C5_15 => (5, 15),
            Position::C5_16 => (5, 16),
            Position::C6_1 => (6, 1),
            Position::C6_2 => (6, 2),
            Position::C6_3 => (6, 3),
            Position::C6_4 => (6, 4),
            Position::C6_5 => (6, 5),
            Position::C6_6 => (6, 6),
            Position::C6_7 => (6, 7),
            Position::C6_8 => (6, 8),
            Position::C6_9 => (6, 9),
            Position::C6_10 => (6, 10),
            Position::C6_11 => (6, 11),
            Position::C6_12 => (6, 12),
            Position::C6_13 => (6, 13),
            Position::C6_14 => (6, 14),
            Position::C6_15 => (6, 15),
            Position::C6_16 => (6, 16),
            Position::C7_1 => (7, 1),
            Position::C7_2 => (7, 2),
            Position::C7_3 => (7, 3),
            Position::C7_4 => (7, 4),
            Position::C7_5 => (7, 5),
            Position::C7_6 => (7, 6),
            Position::C7_7 => (7, 7),
            Position::C7_8 => (7, 8),
            Position::C7_9 => (7, 9),
            Position::C7_10 => (7, 10),
            Position::C7_11 => (7, 11),
            Position::C7_12 => (7, 12),
            Position::C7_13 => (7, 13),
            Position::C7_14 => (7, 14),
            Position::C7_15 => (7, 15),
            Position::C7_16 => (7, 16),
            Position::C8_1 => (8, 1),
            Position::C8_2 => (8, 2),
            Position::C8_3 => (8, 3),
            Position::C8_4 => (8, 4),
            Position::C8_5 => (8, 5),
            Position::C8_6 => (8, 6),
            Position::C8_7 => (8, 7),
            Position::C8_8 => (8, 8),
            Position::C8_9 => (8, 9),
            Position::C8_10 => (8, 10),
            Position::C8_11 => (8, 11),
            Position::C8_12 => (8, 12),
            Position::C8_13 => (8, 13),
            Position::C8_14 => (8, 14),
            Position::C8_15 => (8, 15),
            Position::C8_16 => (8, 16),
            Position::C9_1 => (9, 1),
            Position::C9_2 => (9, 2),
            Position::C9_3 => (9, 3),
            Position::C9_4 => (9, 4),
            Position::C9_5 => (9, 5),
            Position::C9_6 => (9, 6),
            Position::C9_7 => (9, 7),
            Position::C9_8 => (9, 8),
            Position::C9_9 => (9, 9),
            Position::C9_10 => (9, 10),
            Position::C9_11 => (9, 11),
            Position::C9_12 => (9, 12),
            Position::C9_13 => (9, 13),
            Position::C9_14 => (9, 14),
            Position::C9_15 => (9, 15),
            Position::C9_16 => (9, 16),
        }
    }

    /// The driver's LED number of a position: the positions are numbered from 0, row by row.
    pub fn code(self) -> (r: u8)
        ensures
            r == (self.row_led().0 - 1) * 16 + (self.row_led().1 - 1),
    {
        match self {
            Position::C1_1 => 0,
            Position::C1_2 => 1,
            Position::C1_3 => 2,
            Position::C1_4 => 3,
            Position::C1_5 => 4,
            Position::C1_6 => 5,
            Position::C1_7 => 6,
            Position::C1_8 => 7,
            Position::C1_9 => 8,
            Position::C1_10 => 9,
            Position::C1_11 => 10,
            Position::C1_12 => 11,
            Position::C1_13 => 12,
            Position::C1_14 => 13,
            Position::C1_15 => 14,
            Position::C1_16 => 15,
            Position::C2_1 => 16,
            Position::C2_2 => 17,
            Position::C2_3 => 18,
            Position::C2_4 => 19,
            Position::C2_5 => 20,
            Position::C2_6 => 21,
            Position::C2_7 => 22,
            Position::C2_8 => 23,
            Position::C2_9 => 24,
            Position::C2_10 => 25,
            Position::C2_11 => 26,
            Position::C2_12 => 27,
            Position::C2_13 => 28,
            Position::C2_14 => 29,
            Position::C2_15 => 30,
            Position::C2_16 => 31,
            Position::C3_1 => 32,
            Position::C3_2 => 33,
            Position::C3_3 => 34,
            Position::C3_4 => 35,
            Position::C3_5 => 36,
            Position::C3_6 => 37,
            Position::C3_7 => 38,
            Position::C3_8 => 39,
            Position::C3_9 => 40,
            Position::C3_10 => 41,
            Position::C3_11 => 42,
            Position::C3_12 => 43,
            Position::C3_13 => 44,
            Position::C3_14 => 45,
            Position::C3_15 => 46,
            Position::C3_16 => 47,
            Position::C4_1 => 48,
            Position::C4_2 => 49,
            Position::C4_3 => 50,
            Position::C4_4 => 51,
            Position::C4_5 => 52,
            Position::C4_6 => 53,
            Position::C4_7 => 54,
            Position::C4_8 => 55,
            Position::C4_9 => 56,
            Position::C4_10 => 57,
            Position::C4_11 => 58,
            Position::C4_12 => 59,
            Position::C4_13 => 60,
            Position::C4_14 => 61,
            Position::C4_15 => 62,
            Position::C4_16 => 63,
            Position::C5_1 => 64,
            Position::C5_2 => 65,
            Position::C5_3 => 66,
            Position::C5_4 => 67,
            Position::C5_5 => 68,
            Position::C5_6 => 69,
            Position::C5_7 => 70,
            Position::C5_8 => 71,
            Position::C5_9 => 72,
            Position::C5_10 => 73,
            Position::C5_11 => 74,
            Position::C5_12 => 75,
            Position::C5_13 => 76,
            Position::C5_14 => 77,
            Position::C5_15 => 78,
            Position::C5_16 => 79,
            Position::C6_1 => 80,
            Position::C6_2 => 81,
            Position::C6_3 => 82,
            Position::C6_4 => 83,
            Position::C6_5 => 84,
            Position::C6_6 => 85,
            Position::C6_7 => 86,
            Position::C6_8 => 87,
            Position::C6_9 => 88,
            Position::C6_10 => 89,
            Position::C6_11 => 90,
            Position::C6_12 => 91,
            Position::C6_13 => 92,
            Position::C6_14 => 93,
            Position::C6_15 => 94,
            Position::C6_16 => 95,
            Position::C7_1 => 96,
            Position::C7_2 => 97,
            Position::C7_3 => 98,
            Position::C7_4 => 99,
            Position::C7_5 => 100,
            Position::C7_6 => 101,
            Position::C7_7 => 102,
            Position::C7_8 => 103,
            Position::C7_9 => 104,
            Position::C7_10 => 105,
            Position::C7_11 => 106,
            Position::C7_12 => 107,
            Position::C7_13 => 108,
            Position::C7_14 => 109,
            Position::C7_15 => 110,
            Position::C7_16 => 111,
            Position::C8_1 => 112,
            Position::C8_2 => 113,
            Position::C8_3 => 114,
            Position::C8_4 => 115,
            Position::C8_5 => 116,
            Position::C8_6 => 117,
            Position::C8_7 => 118,
            Position::C8_8 => 119,
            Position::C8_9 => 120,
            Position::C8_10 => 121,
            Position::C8_11 => 122,
            Position::C8_12 => 123,
            Position::C8_13 => 124,
            Position::C8_14 => 125,
            Position::C8_15 => 126,
            Position::C8_16 => 127,
            Position::C9_1 => 128,
            Position::C9_2 => 129,
            Position::C9_3 => 130,
            Position::C9_4 => 131,
            Position::C9_5 => 132,
            Position::C9_6 => 133,
            Position::C9_7 => 134,
            Position::C9_8 => 135,
            Position::C9_9 => 136,
            Position::C9_10 => 137,
            Position::C9_11 => 138,
            Position::C9_12 => 139,
            Position::C9_13 => 140,
            Position::C9_14 => 141,
            Position::C9_15 => 142,
            Position::C9_16 => 143,
        }
    }
}


/// The driver's LED numbers run from 0 to 143, and different positions have different numbers.
pub proof fn lemma_codes_distinct(p: Position, q: Position)
    ensures
        0 <= (p.row_led().0 - 1) * 16 + (p.row_led().1 - 1) < 144,
        p != q ==> (p.row_led().0 - 1) * 16 + (p.row_led().1 - 1) != (q.row_led().0 - 1) * 16 + (
        q.row_led().1 - 1),
{
}


/// The number of LEDs an IS31FL3731 drives.
pub const LED_COUNT: usize = 144;

/// The payload after the matrix positions before `p` (row by row) were drawn into `payload`:
/// each position whose entry in `leds` is an LED number (255 marks a position without an LED)
/// sets that LED to the position's brightness, so a later position overwrites an earlier one.
pub open spec fn drawn<const C: usize, const R: usize>(
    buf: [[u8; C]; R],
    leds: [[u8; C]; R],
    payload: Seq<u8>,
    p: nat,
) -> Seq<u8>
    decreases p,
{
    if p == 0 || C == 0 {
        payload
    } else {
        let q = (p - 1) as nat;
        let before = drawn(buf, leds, payload, q);
        let row = q as int / C as int;
        let col = q as int % C as int;
        if leds@[row]@[col] != 255 {
            before.update(leds@[row]@[col] as int, buf@[row]@[col])
        } else {
            before
        }
    }
}

/// Whether every LED number in `leds` is one of the driver's 144 LEDs or the mark 255.
pub open spec fn leds_fit<const C: usize, const R: usize>(leds: [[u8; C]; R]) -> bool {
    forall|x: int, y: int|
        0 <= x < C && 0 <= y < R ==> #[trigger] leds@[y]@[x] < LED_COUNT || leds@[y]@[x] == 255
}

/// The brightness of each of the 144 LEDs for a matrix frame: `leds` holds, for each matrix
/// position, its LED number (what the keyboard's coordinate conversion gives for it, 255 for a
/// position without an LED); the LEDs that no position names stay dark. Each brightness is
/// written as it is given: no gamma correction is applied, since the `is31fl3731` crate this
/// library builds with offers none.
pub fn matrix_payload<const C: usize, const R: usize>(
    buf: &[[u8; C]; R],
    leds: &[[u8; C]; R],
) -> (r: Vec<u8>)
    requires
        leds_fit(*leds),
    ensures
        r@ == drawn(*buf, *leds, Seq::new(LED_COUNT as nat, |i: int| 0u8), (R * C) as nat),
{
    let mut payload: Vec<u8> = Vec::new();
    let mut i: usize = 0;
    while i < LED_COUNT
        invariant
            i <= LED_COUNT,
            payload@.len() == i,
            forall|j: int| 0 <= j < i ==> #[trigger] payload@[j] == 0,
        decreases LED_COUNT - i,
    {
        payload.push(0);
        i = i + 1;
    }
    let ghost start = payload@;
    assert(start =~= Seq::new(LED_COUNT as nat, |i: int| 0u8));
    let mut row: usize = 0;
    while row < R
        invariant
            row <= R,
            leds_fit(*leds),
            payload@.len() == LED_COUNT,
            payload@ == drawn(*buf, *leds, start, (row * C) as nat),
        decreases R - row,
    {
        let mut col: usize = 0;
        while col < C
            invariant
                row < R,
                col <= C,
                leds_fit(*leds),
                payload@.len() == LED_COUNT,
                payload@ == drawn(*buf, *leds, start, (row * C + col) as nat),
            decreases C - col,
        {
            proof {
                assert((row * C + col) as int / C as int == row) by (nonlinear_arith)
                    requires
                        col < C,
                ;
                assert((row * C + col) as int % C as int == col) by (nonlinear_arith)
                    requires
                        col < C,
                ;
            }
            let offset = leds[row][col];
            if offset != 255 {
                payload.set(offset as usize, buf[row][col]);
            }
            col = col + 1;
        }
        assert((row + 1) * C == row * C + C) by (nonlinear_arith);
        row = row + 1;
    }
    payload
}

} // verus!
