//! WS2812 LEDs driven by bit-banging a pin: the order of the data on the wire and the colours
//! of a frame.

use vstd::prelude::*;

verus! {

/// An RGB colour with 8 bits per channel.
#[derive(Debug, Clone, Copy, PartialEq, Eq, Structural)]
pub struct RGB8 {
    pub r: u8,
    pub g: u8,
    pub b: u8,
}

/// The order in which a colour's bytes go down the wire: green, red, then blue.
pub fn wire_bytes(color: RGB8) -> (r: [u8; 3])
    ensures
        r@ == seq![color.g, color.r, color.b],
{
    let r = [color.g, color.r, color.b];
    assert(r@ =~= seq![color.g, color.r, color.b]);
    r
}

/// The bits of a byte in the order they are sent: the most significant bit first. A `true`
/// bit is sent as a long high pulse, a `false` bit as a short one.
pub fn wire_bits(data: u8) -> (r: [bool; 8])
    ensures
        forall|i: int| 0 <= i < 8 ==> r@[i] == ((data >> ((7 - i) as u8)) & 1 == 1),
{
    let mut bits = [false; 8];
    let mut d = data;
    let mut i: usize = 0;
    assert(data << 0u8 == data) by (bit_vector);
    while i < 8
        invariant
            i <= 8,
            d == data << (i as u8),
            forall|j: int| 0 <= j < i ==> bits@[j] == ((data >> ((7 - j) as u8)) & 1 == 1),
        decreases 8 - i,
    {
        let high = d & 0x80 == 0x80;
        assert(((data << (i as u8)) & 0x80 == 0x80) == ((data >> ((7 - i) as u8)) & 1 == 1))
            by (bit_vector)
            requires
                i < 8,
        ;
        bits.set(i, high);
        assert((data << (i as u8)) << 1u8 == data << ((i + 1) as u8)) by (bit_vector)
            requires
                i < 8,
        ;
        d = d << 1;
        i = i + 1;
    }
    bits
}


/// The table through which `smart_leds::gamma` remaps each channel of a colour: the
/// brightness that an LED shows for each requested brightness.
pub open spec fn gamma_table() -> Seq<u8> {
    seq![
        0, 0, 0, 0, 0, 0, 0, 0, 0, 0, 0, 0, 0, 0, 0, 0,
        0, 0, 0, 0, 0, 0, 0, 0, 0, 0, 0, 0, 1, 1, 1, 1,
        1, 1, 1, 1, 1, 1, 1, 1, 1, 2, 2, 2, 2, 2, 2, 2,
        2, 3, 3, 3, 3, 3, 3, 3, 4, 4, 4, 4, 4, 5, 5, 5,
        5, 6, 6, 6, 6, 7, 7, 7, 7, 8, 8, 8, 9, 9, 9, 10,
        10, 10, 11, 11, 11, 12, 12, 13, 13, 13, 14, 14, 15, 15, 16, 16,
        17, 17, 18, 18, 19, 19, 20, 20, 21, 21, 22, 22, 23, 24, 24, 25,
        25, 26, 27, 27, 28, 29, 29, 30, 31, 32, 32, 33, 34, 35, 35, 36,
        37, 38, 39, 39, 40, 41, 42, 43, 44, 45, 46, 47, 48, 49, 50, 50,
        51, 52, 54, 55, 56, 57, 58, 59, 60, 61, 62, 63, 64, 66, 67, 68,
        69, 70, 72, 73, 74, 75, 77, 78, 79, 81, 82, 83, 85, 86, 87, 89,
        90, 92, 93, 95, 96, 98, 99, 101, 102, 104, 105, 107, 109, 110, 112, 114,
        115, 117, 119, 120, 122, 124, 126, 127, 129, 131, 133, 135, 137, 138, 140, 142,
        144, 146, 148, 150, 152, 154, 156, 158, 160, 162, 164, 167, 169, 171, 173, 175,
        177, 180, 182, 184, 186, 189, 191, 193, 196, 198, 200, 203, 205, 208, 210, 213,
        215, 218, 220, 223, 225, 228, 231, 233, 236, 239, 241, 244, 247, 249, 252, 255,
    ]
}

/// The correction that `smart_leds::gamma` applies to each channel of a colour.
pub open spec fn gamma8(v: u8) -> u8 {
    gamma_table()[v as int]
}

/// A colour after gamma correction.
pub open spec fn corrected(c: RGB8) -> RGB8 {
    RGB8 { r: gamma8(c.r), g: gamma8(c.g), b: gamma8(c.b) }
}

/// `smart_leds::gamma`: each colour with each channel remapped through the same gamma table,
/// in the same order.
#[verifier::external_body]
fn gamma_all(colors: Vec<RGB8>) -> (r: Vec<RGB8>)
    ensures
        r@.len() == colors@.len(),
        forall|i: int| 0 <= i < colors@.len() ==> #[trigger] r@[i] == (RGB8 {
            r: gamma8(colors@[i].r),
            g: gamma8(colors@[i].g),
            b: gamma8(colors@[i].b),
        }),
{
    smart_leds::gamma(colors.into_iter().map(|c| smart_leds::RGB8 { r: c.r, g: c.g, b: c.b })).map(
        |c| RGB8 { r: c.r, g: c.g, b: c.b },
    ).collect()
}

/// The grey of a brightness: all three channels at that value.
pub open spec fn grey(v: u8) -> RGB8 {
    RGB8 { r: v, g: v, b: v }
}

/// The colours sent to `num_leds` LEDs of a simple backlight at `brightness`: the same grey,
/// gamma corrected, for every LED.
pub fn simple_backlight_colors(brightness: u8, num_leds: usize) -> (r: Vec<RGB8>)
    ensures
        r@.len() == num_leds,
        forall|i: int| 0 <= i < num_leds ==> #[trigger] r@[i] == corrected(grey(brightness)),
{
    let mut frame: Vec<RGB8> = Vec::new();
    let mut i: usize = 0;
    while i < num_leds
        invariant
            i <= num_leds,
            frame@.len() == i,
            forall|j: int| 0 <= j < i ==> #[trigger] frame@[j] == grey(brightness),
        decreases num_leds - i,
    {
        frame.push(RGB8 { r: brightness, g: brightness, b: brightness });
        i = i + 1;
    }
    gamma_all(frame)
}

/// The colours that turn `num_leds` LEDs off.
pub fn off_colors(num_leds: usize) -> (r: Vec<RGB8>)
    ensures
        r@.len() == num_leds,
        forall|i: int| 0 <= i < num_leds ==> #[trigger] r@[i] == grey(0),
{
    let mut frame: Vec<RGB8> = Vec::new();
    let mut i: usize = 0;
    while i < num_leds
        invariant
            i <= num_leds,
            frame@.len() == i,
            forall|j: int| 0 <= j < i ==> #[trigger] frame@[j] == grey(0),
        decreases num_leds - i,
    {
        frame.push(RGB8 { r: 0, g: 0, b: 0 });
        i = i + 1;
    }
    frame
}

/// Maps the positions of a lighting matrix to the index of their WS2812 LED on the chain;
/// implemented by each keyboard.
pub trait WS2812BitbangBacklightMatrixDriver {
    /// Converts matrix coordinates in the form of (column, row) to a WS2812 LED index.
    fn get_led_from_matrix_coordinates(x: u8, y: u8) -> Option<u8>;
}

/// Describes a simple WS2812 backlight; implemented by each keyboard.
pub trait WS2812BitbangSimpleBacklightDriver {
    /// The number of LEDs on the chain.
    fn num_leds() -> usize;
}

/// The frame after the matrix positions before `p` (row by row) were drawn into `frame`: each
/// position whose entry in `leds` names an LED sets that LED to the grey of its brightness, so a
/// later position overwrites an earlier one on the same LED.
pub open spec fn drawn<const C: usize, const R: usize>(
    buf: [[u8; C]; R],
    leds: [[Option<u8>; C]; R],
    frame: Seq<RGB8>,
    p: nat,
) -> Seq<RGB8>
    decreases p,
{
    if p == 0 || C == 0 {
        frame
    } else {
        let q = (p - 1) as nat;
        let before = drawn(buf, leds, frame, q);
        let row = q as int / C as int;
        let col = q as int % C as int;
        match leds@[row]@[col] {
            Some(o) => before.update(o as int, grey(buf@[row]@[col])),
            None => before,
        }
    }
}

/// Whether every LED named in `leds` is on the chain of `R * C` LEDs.
pub open spec fn leds_fit<const C: usize, const R: usize>(leds: [[Option<u8>; C]; R]) -> bool {
    forall|x: int, y: int|
        0 <= x < C && 0 <= y < R ==> match #[trigger] leds@[y]@[x] {
            Some(o) => o < R * C,
            None => true,
        }
}

/// The colours of a matrix frame of brightnesses, gamma corrected, for a chain of `R * C` LEDs: `leds` holds, for each matrix position, its LED on the chain (what
/// [`WS2812BitbangBacklightMatrixDriver::get_led_from_matrix_coordinates`] gives for it); the
/// LEDs that no position names stay dark.
pub fn matrix_colors<const C: usize, const R: usize>(
    buf: &[[u8; C]; R],
    leds: &[[Option<u8>; C]; R],
) -> (r: Vec<RGB8>)
    requires
        R * C <= usize::MAX,
        leds_fit(*leds),
    ensures
        r@.len() == R * C,
        forall|i: int| 0 <= i < R * C ==> #[trigger] r@[i] == corrected(
            drawn(*buf, *leds, Seq::new((R * C) as nat, |i: int| grey(0)), (R * C) as nat)[i],
        ),
{
    let n = R * C;
    let mut frame: Vec<RGB8> = Vec::new();
    let mut i: usize = 0;
    while i < n
        invariant
            n == R * C,
            i <= n,
            frame@.len() == i,
            forall|j: int| 0 <= j < i ==> #[trigger] frame@[j] == grey(0),
        decreases n - i,
    {
        frame.push(RGB8 { r: 0, g: 0, b: 0 });
        i = i + 1;
    }
    let ghost start = frame@;
    assert(start =~= Seq::new(n as nat, |i: int| grey(0)));
    let mut row: usize = 0;
    while row < R
        invariant
            n == R * C,
            row <= R,
            leds_fit(*leds),
            frame@.len() == n,
            frame@ == drawn(*buf, *leds, start, (row * C) as nat),
        decreases R - row,
    {
        let mut col: usize = 0;
        while col < C
            invariant
                n == R * C,
                row < R,
                col <= C,
                leds_fit(*leds),
                frame@.len() == n,
                frame@ == drawn(*buf, *leds, start, (row * C + col) as nat),
            decreases C - col,
        {
            proof {
                assert((row * C + col) as int / C as int == row) by (nonlinear_arith)
                    requires
                        col < C,
                ;
                assert((row * C + col) as int % C as int == col) by (nonlinear_arith)
                    requires
                        col < C,
                ;
            }
            match leds[row][col] {
                Some(offset) => {
                    assert(offset < R * C);
                    let v = buf[row][col];
                    frame.set(offset as usize, RGB8 { r: v, g: v, b: v });
                },
                None => {},
            }
            col = col + 1;
        }
        assert((row + 1) * C == row * C + C) by (nonlinear_arith);
        row = row + 1;
    }
    assert(row * C == n);
    gamma_all(frame)
}

/// The eight bits sent for a byte, most significant first, are its binary digits: weighted by
/// 128, 64, ..., 2, 1 in that order, they add up to the byte.
pub proof fn lemma_wire_bits_value(data: u8, bits: Seq<bool>)
    requires
        bits.len() == 8,
        forall|i: int| 0 <= i < 8 ==> bits[i] == ((data >> ((7 - i) as u8)) & 1 == 1),
    ensures
        data == (if bits[0] { 128int } else { 0int }) + (if bits[1] { 64int } else { 0int }) + (if bits[2] { 32int } else { 0int }) + (if bits[3] { 16int } else { 0int }) + (if bits[4] { 8int } else { 0int }) + (if bits[5] { 4int } else { 0int }) + (if bits[6] { 2int } else { 0int }) + (if bits[7] { 1int } else { 0int }),
{
    assert(bits[0] == ((data >> 7u8) & 1 == 1));
    assert(bits[1] == ((data >> 6u8) & 1 == 1));
    assert(bits[2] == ((data >> 5u8) & 1 == 1));
    assert(bits[3] == ((data >> 4u8) & 1 == 1));
    assert(bits[4] == ((data >> 3u8) & 1 == 1));
    assert(bits[5] == ((data >> 2u8) & 1 == 1));
    assert(bits[6] == ((data >> 1u8) & 1 == 1));
    assert(bits[7] == ((data >> 0u8) & 1 == 1));
    assert(data as u32 == (if (data >> 7u8) & 1 == 1 { 128u32 } else { 0u32 }) + (if (data >> 6u8) & 1 == 1 { 64u32 } else { 0u32 }) + (if (data >> 5u8) & 1 == 1 { 32u32 } else { 0u32 }) + (if (data >> 4u8) & 1 == 1 { 16u32 } else { 0u32 }) + (if (data >> 3u8) & 1 == 1 { 8u32 } else { 0u32 }) + (if (data >> 2u8) & 1 == 1 { 4u32 } else { 0u32 }) + (if (data >> 1u8) & 1 == 1 { 2u32 } else { 0u32 }) + (if (data >> 0u8) & 1 == 1 { 1u32 } else { 0u32 })) by (bit_vector);
}

} // verus!
