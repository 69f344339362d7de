//! The last key presses that a matrix animator remembers for its reactive effects.
//!
//! They live in a `ringbuffer::ConstGenericRingBuffer` of capacity 8: pushing onto a full
//! buffer drops the oldest press.

use crate::layout::{same_coord, Event};
use crate::queues::wrap_push;
use ringbuffer::{ConstGenericRingBuffer, RingBuffer};
use vstd::prelude::*;

verus! {

/// The number of presses remembered.
pub const PRESS_CAPACITY: usize = 8;

#[verifier::external_type_specification]
#[verifier::external_body]
#[verifier::reject_recursive_types(T)]
pub struct ExConstGenericRingBuffer<T, const CAP: usize>(ConstGenericRingBuffer<T, CAP>);

/// The presses that a ring buffer holds, oldest first.
pub uninterp spec fn press_items(p: ConstGenericRingBuffer<((u8, u8), u32), 8>) -> Seq<
    ((u8, u8), u32),
>;

/// `ConstGenericRingBuffer::new`: no presses.
#[verifier::external_body]
fn presses_new() -> (r: ConstGenericRingBuffer<((u8, u8), u32), 8>)
    ensures
        press_items(r) == Seq::<((u8, u8), u32)>::empty(),
{
    ConstGenericRingBuffer::new()
}

/// `RingBuffer::len`: the number of presses, at most the capacity 8.
#[verifier::external_body]
fn presses_len(p: &ConstGenericRingBuffer<((u8, u8), u32), 8>) -> (r: usize)
    ensures
        r == press_items(*p).len(),
        r <= PRESS_CAPACITY,
{
    p.len()
}

/// `Index::index` of `ConstGenericRingBuffer`: the press at position `i`, counted from the
/// oldest.
#[verifier::external_body]
fn presses_get(p: &ConstGenericRingBuffer<((u8, u8), u32), 8>, i: usize) -> (r: ((u8, u8), u32))
    requires
        i < press_items(*p).len(),
    ensures
        r == press_items(*p)[i as int],
{
    p[i]
}

/// `IndexMut::index_mut` of `ConstGenericRingBuffer`: sets the frame of the press at position
/// `i`, counted from the oldest.
#[verifier::external_body]
fn presses_set_time(p: &mut ConstGenericRingBuffer<((u8, u8), u32), 8>, i: usize, time: u32)
    requires
        i < press_items(*old(p)).len(),
    ensures
        press_items(*final(p)) == press_items(*old(p)).update(
            i as int,
            (press_items(*old(p))[i as int].0, time),
        ),
{
    p[i].1 = time;
}

/// `RingBuffer::push`: adds a press as the newest; a full buffer drops its oldest press.
#[verifier::external_body]
fn presses_push(p: &mut ConstGenericRingBuffer<((u8, u8), u32), 8>, press: ((u8, u8), u32))
    ensures
        press_items(*final(p)) == wrap_push(press_items(*old(p)), press, 8),
{
    p.push(press);
}

/// The last key presses: the key's position and the frame of the press, oldest first.
pub struct LastPresses {
    buf: ConstGenericRingBuffer<((u8, u8), u32), 8>,
}

/// The position of the oldest press of the key at `c`, if there is one.
pub open spec fn find_press(s: Seq<((u8, u8), u32)>, c: (u8, u8)) -> Option<int>
    decreases s.len(),
{
    if s.len() == 0 {
        None
    } else {
        match find_press(s.drop_last(), c) {
            Some(i) => Some(i),
            None => if s.last().0 == c {
                Some(s.len() - 1)
            } else {
                None
            },
        }
    }
}

/// The presses after a press of the key at `c` in frame `tick`: a key already remembered gets
/// the new frame (its oldest entry); another key is added, if it has an LED.
pub open spec fn pressed(
    s: Seq<((u8, u8), u32)>,
    c: (u8, u8),
    tick: u32,
    has_led: bool,
) -> Seq<((u8, u8), u32)> {
    match find_press(s, c) {
        Some(i) => s.update(i, (c, tick)),
        None => if has_led {
            wrap_push(s, (c, tick), 8)
        } else {
            s
        },
    }
}

proof fn lemma_find_press_bounds(s: Seq<((u8, u8), u32)>, c: (u8, u8))
    ensures
        find_press(s, c) matches Some(i) ==> 0 <= i < s.len() && s[i].0 == c && forall|j: int|
            0 <= j < i ==> s[j].0 != c,
        find_press(s, c) is None ==> forall|j: int| 0 <= j < s.len() ==> s[j].0 != c,
    decreases s.len(),
{
    if s.len() > 0 {
        let t = s.drop_last();
        lemma_find_press_bounds(t, c);
        assert(forall|j: int| 0 <= j < t.len() ==> t[j] == s[j]);
    }
}

impl LastPresses {
    /// The remembered presses, oldest first.
    pub closed spec fn items(&self) -> Seq<((u8, u8), u32)> {
        press_items(self.buf)
    }

    /// No presses remembered.
    pub fn new() -> (r: Self)
        ensures
            r.items() == Seq::<((u8, u8), u32)>::empty(),
    {
        LastPresses { buf: presses_new() }
    }

    /// The number of presses remembered.
    pub fn len(&self) -> (r: usize)
        ensures
            r == self.items().len(),
            r <= PRESS_CAPACITY,
    {
        presses_len(&self.buf)
    }

    /// The press at position `i`, counted from the oldest.
    pub fn get(&self, i: usize) -> (r: ((u8, u8), u32))
        requires
            i < self.items().len(),
        ensures
            r == self.items()[i as int],
    {
        presses_get(&self.buf, i)
    }

    /// Records a key event in frame `tick`. A press of a key already remembered moves the key's
    /// frame to `tick`; a press of another key is remembered if `has_led` says that the key has
    /// an LED. Releases are not recorded.
    pub fn register_event(&mut self, event: Event, tick: u32, has_led: bool)
        ensures
            final(self).items() == match event {
                Event::Press(row, col) => pressed(old(self).items(), (row, col), tick, has_led),
                Event::Release(..) => old(self).items(),
            },
    {
        match event {
            Event::Press(row, col) => {
                let n = presses_len(&self.buf);
                let mut i: usize = 0;
                while i < n
                    invariant
                        event == Event::Press(row, col),
                        n == press_items(self.buf).len(),
                        self.buf == old(self).buf,
                        i <= n,
                        forall|j: int| 0 <= j < i ==> press_items(self.buf)[j].0 != (row, col),
                    decreases n - i,
                {
                    let (coord, _time) = presses_get(&self.buf, i);
                    if same_coord(coord, (row, col)) {
                        proof {
                            lemma_find_press_bounds(press_items(self.buf), (row, col));
                            assert(press_items(self.buf)[i as int].0 == (row, col));
                            let k = find_press(press_items(self.buf), (row, col))->Some_0;
                            assert(k == i);
                        }
                        presses_set_time(&mut self.buf, i, tick);
                        return;
                    }
                    i = i + 1;
                }
                proof {
                    lemma_find_press_bounds(press_items(self.buf), (row, col));
                }
                if has_led {
                    presses_push(&mut self.buf, ((row, col), tick));
                }
            },
            Event::Release(..) => {},
        }
    }
}

/// Whether the lighting matrix has an LED at the position of the key at `row` and `col`.
pub fn has_led_at<const C: usize, const R: usize>(
    layout: &[[Option<(u8, u8)>; C]; R],
    row: u8,
    col: u8,
) -> (r: bool)
    ensures
        r == crate::backlight::has_led(*layout, row as int, col as int),
{
    if (row as usize) < R && (col as usize) < C {
        layout[row as usize][col as usize].is_some()
    } else {
        false
    }
}


/// After a press, the key is remembered with the frame of the press (if it was remembered
/// already or has an LED), and no more than 8 presses are remembered.
pub proof fn lemma_press_remembered(s: Seq<((u8, u8), u32)>, c: (u8, u8), tick: u32, has_led: bool)
    requires
        s.len() <= PRESS_CAPACITY,
    ensures
        pressed(s, c, tick, has_led).len() <= PRESS_CAPACITY,
        (find_press(s, c) is Some || has_led) ==> pressed(s, c, tick, has_led).contains((c, tick)),
{
    lemma_find_press_bounds(s, c);
    let r = pressed(s, c, tick, has_led);
    match find_press(s, c) {
        Some(i) => {
            assert(r[i] == (c, tick));
        },
        None => {
            if has_led {
                assert(r[r.len() - 1] == (c, tick));
            }
        },
    }
}

} // verus!
