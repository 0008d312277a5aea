//! Input events as the guest's input reader expects them: the kernel's
//! `input_event` record of a 64-bit little-endian machine, 24 bytes, and the
//! event types and codes that the virtual devices use.

use crate::wire::{
    append_bytes, i32_le, i32_of_le, i32_to_le, i64_le, i64_of_le, i64_to_le, lemma_append_field,
    lemma_decode_encode, lemma_encode_decode, read_i32_le, read_i64_le, read_u16_le, u16_le,
    u16_of_le, u16_to_le,
};
use vstd::prelude::*;

verus! {

/// Event type: synchronisation.
pub const EV_SYN: i32 = 0x00;

/// Event type: key or button.
pub const EV_KEY: i32 = 0x01;

/// Event type: absolute axis.
pub const EV_ABS: i32 = 0x03;

/// Synchronisation code that closes a batch of events.
pub const SYN_REPORT: i32 = 0;

/// Button: a finger is the tool in use.
pub const BTN_TOOL_FINGER: i32 = 0x145;

/// Button: the surface is touched.
pub const BTN_TOUCH: i32 = 0x14a;

/// Absolute axis: rotation about z.
pub const ABS_RZ: i32 = 0x05;

/// Absolute axis: throttle.
pub const ABS_THROTTLE: i32 = 0x06;

/// Absolute axis: rudder.
pub const ABS_RUDDER: i32 = 0x07;

/// Multi-touch: the slot that the events after it speak of.
pub const ABS_MT_SLOT: i32 = 0x2f;

/// Multi-touch: long axis of the touching ellipse.
pub const ABS_MT_TOUCH_MAJOR: i32 = 0x30;

/// Multi-touch: short axis of the touching ellipse.
pub const ABS_MT_TOUCH_MINOR: i32 = 0x31;

/// Multi-touch: x of the touch.
pub const ABS_MT_POSITION_X: i32 = 0x35;

/// Multi-touch: y of the touch.
pub const ABS_MT_POSITION_Y: i32 = 0x36;

/// Multi-touch: id of the contact, -1 once it is lifted.
pub const ABS_MT_TRACKING_ID: i32 = 0x39;

/// Multi-touch: pressure of the touch.
pub const ABS_MT_PRESSURE: i32 = 0x3a;

/// Device property: the pad has a button under it.
pub const INPUT_PROP_BUTTONPAD: i32 = 0x02;

/// A reading of the host's monotonic clock: seconds and microseconds.
#[derive(Debug, Clone, Copy, PartialEq, Eq, Structural)]
pub struct Timestamp {
    pub sec: i64,
    pub usec: i64,
}

/// `nsec` nanoseconds in whole microseconds, rounded towards zero.
pub open spec fn micros_of_nanos(nsec: i64) -> i64 {
    if nsec >= 0 {
        (nsec / 1000) as i64
    } else {
        (-((-nsec) / 1000)) as i64
    }
}

impl Timestamp {
    /// The timestamp for a clock reading in seconds and nanoseconds.
    pub fn from_timespec(tv_sec: i64, tv_nsec: i64) -> (t: Timestamp)
        ensures
            t.sec == tv_sec,
            t.usec == micros_of_nanos(tv_nsec),
    {
        Timestamp { sec: tv_sec, usec: tv_nsec / 1000 }
    }
}

/// One input event.
#[derive(Debug, Clone, Copy, PartialEq, Eq, Structural)]
pub struct InputEvent {
    pub time_sec: i64,
    pub time_usec: i64,
    pub kind: u16,
    pub code: u16,
    pub value: i32,
}

/// The low 16 bits of `x`: what is left of a type or code when it is stored
/// in an event.
pub open spec fn low16(x: i32) -> u16 {
    (x % 0x1_0000) as u16
}

/// The low 16 bits of `x`.
pub fn low16_of(x: i32) -> (r: u16)
    ensures
        r == low16(x),
{
    let m: i32 = x % 0x1_0000;
    if m < 0 {
        (m + 0x1_0000) as u16
    } else {
        m as u16
    }
}

/// The event of type `kind` and code `code` that carries `value`, stamped
/// `now`.
pub open spec fn event_at(now: Timestamp, kind: i32, code: i32, value: i32) -> InputEvent {
    InputEvent {
        time_sec: now.sec,
        time_usec: now.usec,
        kind: low16(kind),
        code: low16(code),
        value,
    }
}

/// Whether `e` closes a batch.
pub open spec fn is_syn_report(e: InputEvent) -> bool {
    e.kind == EV_SYN && e.code == SYN_REPORT
}

impl InputEvent {
    /// Bytes that an event takes on the wire.
    pub const SIZE: usize = 24;

    /// The bytes that carry this event.
    pub open spec fn wire(self) -> Seq<u8> {
        i64_le(self.time_sec) + i64_le(self.time_usec) + u16_le(self.kind) + u16_le(self.code)
            + i32_le(self.value)
    }

    /// The event that the first 24 bytes of `s` carry.
    pub open spec fn parse(s: Seq<u8>) -> InputEvent {
        InputEvent {
            time_sec: i64_of_le(s.subrange(0, 8)),
            time_usec: i64_of_le(s.subrange(8, 16)),
            kind: u16_of_le(s.subrange(16, 18)),
            code: u16_of_le(s.subrange(18, 20)),
            value: i32_of_le(s.subrange(20, 24)),
        }
    }

    /// The event of type `kind` and code `code` that carries `value`, stamped
    /// `now`. Type and code keep their low 16 bits.
    pub fn new(now: Timestamp, kind: i32, code: i32, value: i32) -> (e: InputEvent)
        ensures
            e == event_at(now, kind, code, value),
    {
        InputEvent {
            time_sec: now.sec,
            time_usec: now.usec,
            kind: low16_of(kind),
            code: low16_of(code),
            value,
        }
    }

    /// Lays the event out for the guest.
    pub fn to_bytes(&self) -> (out: Vec<u8>)
        ensures
            out@ == self.wire(),
    {
        let mut out: Vec<u8> = Vec::new();
        append_bytes(&mut out, i64_to_le(self.time_sec).as_slice());
        append_bytes(&mut out, i64_to_le(self.time_usec).as_slice());
        append_bytes(&mut out, u16_to_le(self.kind).as_slice());
        append_bytes(&mut out, u16_to_le(self.code).as_slice());
        append_bytes(&mut out, i32_to_le(self.value).as_slice());
        out
    }

    /// Reads an event from the front of `buf`; fewer than 24 bytes are no
    /// event.
    pub fn from_bytes(buf: &[u8]) -> (r: Option<InputEvent>)
        ensures
            buf@.len() < 24 ==> r is None,
            buf@.len() >= 24 ==> r == Some(InputEvent::parse(buf@)),
    {
        if buf.len() < Self::SIZE {
            return None;
        }
        Some(
            InputEvent {
                time_sec: read_i64_le(buf, 0),
                time_usec: read_i64_le(buf, 8),
                kind: read_u16_le(buf, 16),
                code: read_u16_le(buf, 18),
                value: read_i32_le(buf, 20),
            },
        )
    }
}

/// The bytes of a run of events, one after the other.
pub open spec fn events_wire(events: Seq<InputEvent>) -> Seq<u8>
    decreases events.len(),
{
    if events.len() == 0 {
        Seq::empty()
    } else {
        events_wire(events.drop_last()) + events.last().wire()
    }
}

/// Lays a run of events out for the guest, in order.
pub fn events_to_bytes(events: &Vec<InputEvent>) -> (out: Vec<u8>)
    ensures
        out@ == events_wire(events@),
{
    let mut out: Vec<u8> = Vec::new();
    let mut i: usize = 0;
    while i < events.len()
        invariant
            i <= events.len(),
            out@ == events_wire(events@.subrange(0, i as int)),
        decreases events.len() - i,
    {
        let bytes = events[i].to_bytes();
        append_bytes(&mut out, bytes.as_slice());
        proof {
            let next = events@.subrange(0, i + 1);
            assert(next.drop_last() =~= events@.subrange(0, i as int));
        }
        i += 1;
    }
    assert(events@.subrange(0, events@.len() as int) =~= events@);
    out
}

/// Appends to `tx` the event of type `kind` and code `code` that carries
/// `val`, stamped `now`.
pub fn input_event_write(tx: &mut Vec<InputEvent>, now: Timestamp, kind: i32, code: i32, val: i32)
    ensures
        final(tx)@ == old(tx)@.push(event_at(now, kind, code, val)),
{
    tx.push(InputEvent::new(now, kind, code, val));
}

/// An event survives the wire: its 24 bytes parse back to it.
pub proof fn lemma_event_round_trip(e: InputEvent)
    ensures
        e.wire().len() == 24,
        InputEvent::parse(e.wire()) == e,
{
    let a = i64_le(e.time_sec);
    let b = i64_le(e.time_usec);
    let c = u16_le(e.kind);
    let d = u16_le(e.code);
    let f = i32_le(e.value);
    lemma_decode_encode(e.kind, 0, 0, e.value, e.time_sec);
    lemma_decode_encode(e.code, 0, 0, 0, e.time_usec);
    lemma_append_field(a, b);
    lemma_append_field(a + b, c);
    lemma_append_field(a + b + c, d);
    lemma_append_field(a + b + c + d, f);
    let w = e.wire();
    assert(w == a + b + c + d + f);
    assert(w.subrange(0, 8) == a);
    assert(w.subrange(8, 16) == b);
    assert(w.subrange(16, 18) == c);
    assert(w.subrange(18, 20) == d);
    assert(w.subrange(20, 24) == f);
}

/// Any 24 bytes are the wire form of the event they parse to.
pub proof fn lemma_event_bytes_round_trip(s: Seq<u8>)
    requires
        s.len() == 24,
    ensures
        InputEvent::parse(s).wire() == s,
{
    let a = s.subrange(0, 8);
    let b = s.subrange(8, 16);
    let c = s.subrange(16, 18);
    let d = s.subrange(18, 20);
    let f = s.subrange(20, 24);
    assert(a + b + c + d + f =~= s);
    lemma_encode_decode(a);
    lemma_encode_decode(b);
    lemma_encode_decode(c);
    lemma_encode_decode(d);
    lemma_encode_decode(f);
}

} // verus!
