//! Raw input events of the stylus device, their decoding, and the bounded history
//! in which button events are kept.

use crate::clock::{accepted_by_chrono, Timestamp};
use vstd::prelude::*;

verus! {

/// One event record as the kernel's input device hands it out: a `timeval`
/// (seconds, microseconds), the event type, the event code and the value.
#[derive(Debug)]
pub struct StylusInputRaw {
    pub tv_sec: i64,
    pub tv_usec: i64,
    pub type_: u16,
    pub code: u16,
    pub val: i32,
}

/// The size in bytes of one encoded event record.
pub const RAW_EVENT_SIZE: usize = 24usize;

/// `256` raised to `n`.
pub open spec fn byte_power(n: nat) -> nat
    decreases n,
{
    if n == 0 {
        1
    } else {
        256 * byte_power((n - 1) as nat)
    }
}

/// The number whose base-256 digits, most significant first, are `bytes`.
pub open spec fn big_endian_value(bytes: Seq<u8>) -> nat
    decreases bytes.len(),
{
    if bytes.len() == 0 {
        0
    } else {
        big_endian_value(bytes.drop_last()) * 256 + bytes.last() as nat
    }
}

/// The unsigned number that `bytes` encode in the given byte order.
pub open spec fn unsigned_value(bytes: Seq<u8>, little_endian: bool) -> nat {
    if little_endian {
        big_endian_value(bytes.reverse())
    } else {
        big_endian_value(bytes)
    }
}

/// The two's-complement number that `bytes` encode in the given byte order.
pub open spec fn signed_value(bytes: Seq<u8>, little_endian: bool) -> int {
    let u = unsigned_value(bytes, little_endian);
    if u < byte_power(bytes.len()) / 2 {
        u as int
    } else {
        u - byte_power(bytes.len())
    }
}

/// The event record that the first 24 bytes of `bytes` encode in the given byte
/// order: two 8-byte signed fields, two 2-byte unsigned fields, one 4-byte signed field.
pub open spec fn decoded_event(bytes: Seq<u8>, little_endian: bool) -> StylusInputRaw {
    StylusInputRaw {
        tv_sec: signed_value(bytes.subrange(0, 8), little_endian) as i64,
        tv_usec: signed_value(bytes.subrange(8, 16), little_endian) as i64,
        type_: unsigned_value(bytes.subrange(16, 18), little_endian) as u16,
        code: unsigned_value(bytes.subrange(18, 20), little_endian) as u16,
        val: signed_value(bytes.subrange(20, 24), little_endian) as i32,
    }
}

proof fn lemma_byte_powers()
    ensures
        byte_power(2) == 0x1_0000,
        byte_power(4) == 0x1_0000_0000,
        byte_power(8) == 0x1_0000_0000_0000_0000,
{
    reveal_with_fuel(byte_power, 9);
}

proof fn lemma_byte_power_grows(a: nat, b: nat)
    requires
        a <= b,
    ensures
        byte_power(a) <= byte_power(b),
    decreases b - a,
{
    if a < b {
        lemma_byte_power_grows(a, (b - 1) as nat);
    }
}

/// Reads `width` bytes from `start` as an unsigned number in the given byte order.
fn read_unsigned(bytes: &[u8], start: usize, width: usize, little_endian: bool) -> (res: u64)
    requires
        1 <= width <= 8,
        start + width <= bytes.len(),
    ensures
        res == unsigned_value(bytes@.subrange(start as int, start + width), little_endian),
        res < byte_power(width as nat),
{
    let ghost s = bytes@.subrange(start as int, start + width);
    let ghost t = if little_endian {
        s.reverse()
    } else {
        s
    };
    let mut acc: u64 = 0;
    let mut i: usize = 0;
    proof {
        lemma_byte_powers();
        assert(t.take(0) =~= Seq::<u8>::empty());
    }
    while i < width
        invariant
            0 <= i <= width,
            1 <= width <= 8,
            start + width <= bytes.len(),
            s == bytes@.subrange(start as int, start + width),
            t == (if little_endian {
                s.reverse()
            } else {
                s
            }),
            acc == big_endian_value(t.take(i as int)),
            acc < byte_power(i as nat),
            byte_power(8) == 0x1_0000_0000_0000_0000,
        decreases width - i,
    {
        let b = if little_endian {
            bytes[start + width - 1 - i]
        } else {
            bytes[start + i]
        };
        proof {
            assert(b == t[i as int]);
            assert(t.take(i + 1).drop_last() =~= t.take(i as int));
            lemma_byte_power_grows((i + 1) as nat, 8);
            let p = byte_power(i as nat);
            assert(acc * 256 + b < p * 256) by (nonlinear_arith)
                requires
                    acc < p,
                    b < 256,
            ;
        }
        acc = acc * 256 + b as u64;
        i = i + 1;
    }
    proof {
        assert(t.take(width as int) =~= t);
    }
    acc
}

/// Reads 8 bytes from `start` as a two's-complement number.
fn read_i64(bytes: &[u8], start: usize, little_endian: bool) -> (res: i64)
    requires
        start + 8 <= bytes@.len(),
    ensures
        res == signed_value(bytes@.subrange(start as int, start + 8), little_endian),
{
    proof {
        lemma_byte_powers();
    }
    let u = read_unsigned(bytes, start, 8, little_endian);
    if u <= 0x7fff_ffff_ffff_ffffu64 {
        u as i64
    } else {
        let high = (u - 0x8000_0000_0000_0000u64) as i64;
        high - 0x7fff_ffff_ffff_ffffi64 - 1
    }
}

/// Reads 4 bytes from `start` as a two's-complement number.
fn read_i32(bytes: &[u8], start: usize, little_endian: bool) -> (res: i32)
    requires
        start + 4 <= bytes@.len(),
    ensures
        res == signed_value(bytes@.subrange(start as int, start + 4), little_endian),
{
    proof {
        lemma_byte_powers();
    }
    let u = read_unsigned(bytes, start, 4, little_endian);
    if u <= 0x7fff_ffffu64 {
        u as i32
    } else {
        let high = (u - 0x8000_0000u64) as i32;
        high - 0x7fff_ffffi32 - 1
    }
}

/// Reads 2 bytes from `start` as an unsigned number.
fn read_u16(bytes: &[u8], start: usize, little_endian: bool) -> (res: u16)
    requires
        start + 2 <= bytes@.len(),
    ensures
        res == unsigned_value(bytes@.subrange(start as int, start + 2), little_endian),
{
    proof {
        lemma_byte_powers();
    }
    let u = read_unsigned(bytes, start, 2, little_endian);
    u as u16
}

/// Decodes the event record held in the first 24 bytes of `bytes`, in the given byte
/// order.
pub fn decode_stylus_input(bytes: &[u8], little_endian: bool) -> (res: StylusInputRaw)
    requires
        bytes@.len() >= RAW_EVENT_SIZE,
    ensures
        res == decoded_event(bytes@, little_endian),
{
    StylusInputRaw {
        tv_sec: read_i64(bytes, 0, little_endian),
        tv_usec: read_i64(bytes, 8, little_endian),
        type_: read_u16(bytes, 16, little_endian),
        code: read_u16(bytes, 18, little_endian),
        val: read_i32(bytes, 20, little_endian),
    }
}

/// `u16::from_ne_bytes([1, 0])`: `1` on a little-endian machine and `256` on a
/// big-endian one. Which of the two is not claimed: it is a fact of the machine.
#[verifier::external_body]
pub(crate) fn native_order_probe() -> (res: u16)
    ensures
        res == 1 || res == 256,
{
    u16::from_ne_bytes([1u8, 0u8])
}

/// Decodes one event record, in the machine's byte order, from a buffer that is
/// expected to hold exactly `size` bytes: `None` when it holds another number of bytes.
pub fn parse_stylus_input(raw_data: &Vec<u8>, size: usize) -> (res: Option<StylusInputRaw>)
    requires
        raw_data@.len() == size ==> size >= RAW_EVENT_SIZE,
    ensures
        res is None <==> raw_data@.len() != size,
        res matches Some(event) ==> exists|little_endian: bool|
            event == decoded_event(raw_data@, little_endian),
{
    if raw_data.len() != size {
        return None;
    }
    let little_endian = native_order_probe() == 1;
    let event = decode_stylus_input(raw_data.as_slice(), little_endian);
    assert(event == decoded_event(raw_data@, little_endian));
    Some(event)
}

/// The pen's tilt along one axis.
#[derive(Debug, PartialEq, Eq, Structural, Clone, Copy)]
pub enum StylusCoord {
    X(i32),
    Y(i32),
}

/// A button of the pen going down (`true`) or up (`false`), or a tilt reading.
#[derive(Debug, PartialEq, Eq, Structural, Clone, Copy)]
pub enum StylusAction {
    Tilt(StylusCoord),
    Btn1(bool),
    Btn2(bool),
}

/// What one event record reports.
#[derive(Debug, PartialEq, Eq, Structural, Clone, Copy)]
pub enum StylusData {
    Coord(StylusCoord),
    Action(StylusAction),
    Pression,
    Terminator,
}

/// A decoded event: when it happened and what it reports.
#[derive(Debug)]
pub struct StylusInput {
    pub date: Timestamp,
    pub data: StylusData,
}

/// What an event record with this type, code and value reports, if it is one the
/// library understands: type 0 ends a report, type 1 is a key (320 and 331 are the
/// two buttons, pressed while the value is at least 1; 26 and 27 are the tilt axes),
/// type 3 is an absolute position (codes 0 and 1), type 4 is pressure.
pub open spec fn event_data(type_: u16, code: u16, val: i32) -> Option<StylusData> {
    if type_ == 0 {
        Some(StylusData::Terminator)
    } else if type_ == 1 {
        if code == 320 {
            Some(StylusData::Action(StylusAction::Btn1(val >= 1)))
        } else if code == 331 {
            Some(StylusData::Action(StylusAction::Btn2(val >= 1)))
        } else if code == 26 {
            Some(StylusData::Action(StylusAction::Tilt(StylusCoord::X(val))))
        } else if code == 27 {
            Some(StylusData::Action(StylusAction::Tilt(StylusCoord::Y(val))))
        } else {
            None
        }
    } else if type_ == 3 {
        if code == 0 {
            Some(StylusData::Coord(StylusCoord::X(val)))
        } else if code == 1 {
            Some(StylusData::Coord(StylusCoord::Y(val)))
        } else {
            None
        }
    } else if type_ == 4 {
        Some(StylusData::Pression)
    } else {
        None
    }
}

/// The nanosecond part given to the clock: the microseconds times 1000, cut to 32 bits.
pub open spec fn event_nanos(tv_usec: i64) -> u32 {
    (tv_usec * 1000) as u32
}

/// A record can be converted when its microseconds times 1000 fit in 64 bits and the
/// resulting instant is one that `chrono` represents.
pub open spec fn convertible(raw: StylusInputRaw) -> bool {
    &&& i64::MIN <= raw.tv_usec * 1000 <= i64::MAX
    &&& accepted_by_chrono(raw.tv_sec as int, event_nanos(raw.tv_usec) as int)
}

impl StylusInput {
    /// Whether `from_raw` can take `raw`.
    pub fn can_convert(raw: &StylusInputRaw) -> (res: bool)
        ensures
            res == convertible(*raw),
    {
        match raw.tv_usec.checked_mul(1_000) {
            Some(micros_as_nanos) => Timestamp::from_timestamp(
                raw.tv_sec,
                micros_as_nanos as u32,
            ).is_some(),
            None => false,
        }
    }

    /// The event that `raw` reports, stamped with its time; `None` for a record the
    /// library does not understand.
    pub fn from_raw(raw: StylusInputRaw) -> (res: Option<Self>)
        requires
            convertible(raw),
        ensures
            res is Some <==> event_data(raw.type_, raw.code, raw.val) is Some,
            res matches Some(input) ==> {
                &&& input.date@ == (raw.tv_sec, event_nanos(raw.tv_usec))
                &&& Some(input.data) == event_data(raw.type_, raw.code, raw.val)
            },
    {
        let timestamp = raw.tv_sec;
        let nanos = (raw.tv_usec * 1_000) as u32;
        let date = match Timestamp::from_timestamp(timestamp, nanos) {
            Some(date) => date,
            None => {
                assert(false);
                return None;
            },
        };
        let data = match raw.type_ {
            0 => Some(StylusData::Terminator),
            1 => match raw.code {
                320 => Some(StylusData::Action(StylusAction::Btn1(raw.val >= 1))),
                331 => Some(StylusData::Action(StylusAction::Btn2(raw.val >= 1))),
                26 => Some(StylusData::Action(StylusAction::Tilt(StylusCoord::X(raw.val)))),
                27 => Some(StylusData::Action(StylusAction::Tilt(StylusCoord::Y(raw.val)))),
                _ => None,
            },
            3 => match raw.code {
                0 => Some(StylusData::Coord(StylusCoord::X(raw.val))),
                1 => Some(StylusData::Coord(StylusCoord::Y(raw.val))),
                _ => None,
            },
            4 => Some(StylusData::Pression),
            _ => None,
        };
        match data {
            Some(data) => Some(StylusInput { date, data }),
            None => None,
        }
    }
}

/// A button event: where the pen was and the event itself.
#[derive(Debug)]
pub struct StylusButtonAction {
    pub x: i32,
    pub y: i32,
    pub action: StylusInput,
}

/// A history that keeps at most a fixed number of items, the oldest first.
#[derive(Debug)]
pub struct EventHolder<T> {
    max_size: usize,
    elements: Vec<T>,
}

/// The items after `item` is added to `items` in a history that holds at most
/// `capacity`: a full history first drops its oldest item.
pub open spec fn pushed_within<T>(items: Seq<T>, capacity: nat, item: T) -> Seq<T> {
    if items.len() == capacity {
        items.drop_first().push(item)
    } else {
        items.push(item)
    }
}

impl<T> View for EventHolder<T> {
    type V = Seq<T>;

    closed spec fn view(&self) -> Seq<T> {
        self.elements@
    }
}

impl<T> EventHolder<T> {
    /// The most items the history keeps.
    pub closed spec fn capacity(&self) -> nat {
        self.max_size as nat
    }

    /// The history holds no more items than its capacity.
    pub open spec fn wf(&self) -> bool {
        self@.len() <= self.capacity()
    }

    /// An empty history that keeps at most `max_size` items.
    pub fn new(max_size: usize) -> (res: Self)
        ensures
            res@ == Seq::<T>::empty(),
            res.capacity() == max_size,
            res.wf(),
    {
        Self { max_size, elements: Vec::with_capacity(max_size) }
    }

    /// Adds `item` as the newest item; when the history is full its oldest item is
    /// dropped first.
    pub fn push(&mut self, item: T)
        requires
            old(self).wf(),
            old(self).capacity() > 0,
        ensures
            final(self).wf(),
            final(self).capacity() == old(self).capacity(),
            final(self)@ == pushed_within(old(self)@, old(self).capacity(), item),
    {
        if self.elements.len() == self.max_size {
            self.elements.remove(0);
        }
        self.elements.push(item);
    }

    /// Removes and returns the newest item, if any.
    pub fn pop(&mut self) -> (res: Option<T>)
        requires
            old(self).wf(),
        ensures
            final(self).wf(),
            final(self).capacity() == old(self).capacity(),
            old(self)@.len() == 0 ==> res is None && final(self)@ == old(self)@,
            old(self)@.len() > 0 ==> res == Some(old(self)@.last()) && final(self)@
                == old(self)@.drop_last(),
    {
        self.elements.pop()
    }

    /// The number of items held.
    pub fn len(&self) -> (res: usize)
        ensures
            res == self@.len(),
    {
        self.elements.len()
    }

    /// The item at `index`, counted from the oldest.
    pub fn get_ref(&self, index: usize) -> (res: &T)
        requires
            index < self@.len(),
        ensures
            *res == self@[index as int],
    {
        &self.elements[index]
    }

    /// The newest item.
    pub fn last(&self) -> (res: &T)
        requires
            self@.len() > 0,
        ensures
            *res == self@.last(),
    {
        &self.elements[self.elements.len() - 1]
    }

    /// The newest item, to be changed in place.
    pub fn last_mut(&mut self) -> (res: &mut T)
        requires
            old(self)@.len() > 0,
        ensures
            *res == old(self)@.last(),
            final(self)@ == old(self)@.update(old(self)@.len() - 1, *final(res)),
            final(self).capacity() == old(self).capacity(),
    {
        let len = self.elements.len();
        &mut self.elements[len - 1]
    }
}

/// A history never holds more than its capacity: adding an item to a history within
/// its capacity leaves it within its capacity.
pub proof fn lemma_push_stays_within_capacity<T>(items: Seq<T>, capacity: nat, item: T)
    requires
        items.len() <= capacity,
        capacity > 0,
    ensures
        pushed_within(items, capacity, item).len() <= capacity,
        pushed_within(items, capacity, item).len() == (if items.len() == capacity {
            capacity
        } else {
            items.len() + 1
        }),
{
}

/// The item just added is the newest one.
pub proof fn lemma_push_then_last<T>(items: Seq<T>, capacity: nat, item: T)
    requires
        items.len() <= capacity,
        capacity > 0,
    ensures
        pushed_within(items, capacity, item).last() == item,
{
}

/// Removing the newest item undoes adding an item to a history that was not full.
pub proof fn lemma_pop_undoes_push<T>(items: Seq<T>, capacity: nat, item: T)
    requires
        items.len() < capacity,
    ensures
        pushed_within(items, capacity, item).drop_last() == items,
{
    assert(pushed_within(items, capacity, item).drop_last() =~= items);
}

/// Adding to a full history keeps the order of the items that stay: all but the
/// oldest, followed by the new one.
pub proof fn lemma_full_push_drops_oldest<T>(items: Seq<T>, capacity: nat, item: T)
    requires
        items.len() == capacity,
        capacity > 0,
    ensures
        pushed_within(items, capacity, item).len() == capacity,
        forall|i: int|
            0 <= i < capacity - 1 ==> #[trigger] pushed_within(items, capacity, item)[i] == items[i
                + 1],
{
}

} // verus!
