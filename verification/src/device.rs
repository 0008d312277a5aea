//! Device descriptors: the record that a virtual input device sends to the
//! guest before any event, and the two descriptors that the daemon offers,
//! one for the touch screen and one for the keys.

use crate::event::{
    ABS_MT_POSITION_X, ABS_MT_POSITION_Y, ABS_MT_PRESSURE, ABS_MT_SLOT, ABS_MT_TOUCH_MAJOR,
    ABS_MT_TOUCH_MINOR, ABS_RUDDER, ABS_RZ, ABS_THROTTLE, INPUT_PROP_BUTTONPAD,
};
use crate::wire::{
    append_bytes, i32_bits, i32_le, i32_of_le, i32_to_bits, i32_to_le, lemma_append_field,
    lemma_decode_encode, read_i32_le, read_u16_le, read_u32_le, u16_le, u16_of_le, u16_to_le,
    u32_le, u32_of_le, u32_to_le, zero_bytes,
};
use vstd::prelude::*;
use vstd::string::StringSliceAdditionalSpecFns;

verus! {

/// Length of the three text fields of a descriptor.
pub const TEXT_LEN: usize = 80;

/// Bytes that a descriptor takes on the wire.
pub const DEVICE_INFO_SIZE: usize = 896;

/// Identity of an input device.
#[derive(Debug, Clone, Copy, PartialEq, Eq, Structural)]
pub struct InputId {
    pub bustype: u16,
    pub vendor: u16,
    pub product: u16,
    pub version: u16,
}

impl InputId {
    /// The bytes that carry this identity.
    pub open spec fn wire(self) -> Seq<u8> {
        u16_le(self.bustype) + u16_le(self.vendor) + u16_le(self.product) + u16_le(self.version)
    }
}

/// What a virtual input device tells the guest of itself: its name and
/// identity, where it sits, and which keys and axes it has.
///
/// Text fields hold a NUL-terminated string of at most 79 bytes; bit masks
/// hold one bit per key or axis; the two tables at the end hold a bound per
/// absolute axis.
#[derive(Debug, Clone, Copy)]
pub struct DeviceInfo {
    pub name: [u8; 80],
    pub driver_version: i32,
    pub id: InputId,
    pub physical_location: [u8; 80],
    pub unique_id: [u8; 80],
    pub key_bitmask: [u8; 96],
    pub abs_bitmask: [u8; 8],
    pub rel_bitmask: [u8; 2],
    pub sw_bitmask: [u8; 2],
    pub led_bitmask: [u8; 2],
    pub ff_bitmask: [u8; 16],
    pub prop_bitmask: [u8; 4],
    pub abs_max: [u32; 64],
    pub abs_min: [u32; 64],
}

/// `n` zero words.
pub open spec fn zero_words(n: nat) -> Seq<u32> {
    Seq::new(n, |i: int| 0u32)
}

/// How many bytes of a text of `len` bytes a field of `n` bytes holds: all
/// of them, or as many as leave room for the closing NUL.
pub open spec fn c_string_len(len: nat, n: nat) -> nat {
    if len < n {
        len
    } else if n > 0 {
        (n - 1) as nat
    } else {
        0
    }
}

/// A text field of `n` bytes that holds `text` as a NUL-terminated string:
/// the text, cut so that a NUL still fits behind it, then zeros.
pub open spec fn c_string(text: Seq<u8>, n: nat) -> Seq<u8> {
    Seq::new(
        n,
        |i: int|
            if i < c_string_len(text.len(), n) {
                text[i]
            } else {
                0u8
            },
    )
}

/// `field` after `text` was copied to its front as a NUL-terminated string:
/// the text, cut so that the NUL still fits, then the NUL, and behind it
/// what was in the field.
pub open spec fn c_string_into(field: Seq<u8>, text: Seq<u8>) -> Seq<u8> {
    Seq::new(
        field.len(),
        |i: int|
            if i < c_string_len(text.len(), field.len()) {
                text[i]
            } else if i == c_string_len(text.len(), field.len()) {
                0u8
            } else {
                field[i]
            },
    )
}

/// A text field always ends its text with a NUL inside the field, however
/// long the text is, and holds the text's front up to there.
pub proof fn lemma_c_string_is_terminated(field: Seq<u8>, text: Seq<u8>)
    requires
        field.len() > 0,
    ensures
        c_string_len(text.len(), field.len()) < field.len(),
        c_string_len(text.len(), field.len()) <= text.len(),
        c_string_into(field, text)[c_string_len(text.len(), field.len()) as int] == 0,
        c_string(text, field.len())[c_string_len(text.len(), field.len()) as int] == 0,
        forall|i: int|
            0 <= i < c_string_len(text.len(), field.len()) ==> c_string_into(field, text)[i]
                == text[i] && c_string(text, field.len())[i] == text[i],
        field == zero_bytes(field.len()) ==> c_string_into(field, text) == c_string(
            text,
            field.len(),
        ),
{
    if field == zero_bytes(field.len()) {
        assert(c_string_into(field, text) =~= c_string(text, field.len()));
    }
}

/// The bytes of a table of words, each word little-endian.
pub open spec fn words_le(words: Seq<u32>) -> Seq<u8>
    decreases words.len(),
{
    if words.len() == 0 {
        Seq::empty()
    } else {
        words_le(words.drop_last()) + u32_le(words.last())
    }
}

/// The table of words that `bytes` carry, four bytes a word.
pub open spec fn words_of_le(bytes: Seq<u8>) -> Seq<u32> {
    Seq::new(bytes.len() / 4, |i: int| u32_of_le(bytes.subrange(4 * i, 4 * i + 4)))
}

/// Name of the touch device: `vtouch`.
pub open spec fn touch_device_name() -> Seq<u8> {
    seq!['v' as u8, 't' as u8, 'o' as u8, 'u' as u8, 'c' as u8, 'h' as u8]
}

/// Unique id of the touch device: `<vtouch 0>`.
pub open spec fn touch_device_unique_id() -> Seq<u8> {
    seq![
        '<' as u8,
        'v' as u8,
        't' as u8,
        'o' as u8,
        'u' as u8,
        'c' as u8,
        'h' as u8,
        ' ' as u8,
        '0' as u8,
        '>' as u8,
    ]
}

/// Name of the key device: `vkey`.
pub open spec fn key_device_name() -> Seq<u8> {
    seq!['v' as u8, 'k' as u8, 'e' as u8, 'y' as u8]
}

/// Unique id of the key device: `<keyboard 0>`.
pub open spec fn key_device_unique_id() -> Seq<u8> {
    seq![
        '<' as u8,
        'k' as u8,
        'e' as u8,
        'y' as u8,
        'b' as u8,
        'o' as u8,
        'a' as u8,
        'r' as u8,
        'd' as u8,
        ' ' as u8,
        '0' as u8,
        '>' as u8,
    ]
}

/// Copies `text` to the front of `arr` as a NUL-terminated string. A text
/// that does not fit is cut so that the NUL still does. What lies behind
/// the NUL in `arr` stays.
pub fn copy_bytes_to_cstr<const COUNT: usize>(text: &[u8], arr: &mut [u8; COUNT])
    ensures
        final(arr)@ == c_string_into(old(arr)@, text@),
{
    if COUNT == 0 {
        assert(arr@ =~= c_string_into(arr@, text@));
        return ;
    }
    let ghost before = arr@;
    let len = if text.len() < COUNT {
        text.len()
    } else {
        COUNT - 1
    };
    let mut i: usize = 0;
    while i < len
        invariant
            i <= len,
            len < COUNT,
            len <= text.len(),
            arr@.len() == COUNT,
            before.len() == COUNT,
            forall|k: int| 0 <= k < i ==> arr@[k] == text@[k],
            forall|k: int| i <= k < COUNT ==> arr@[k] == before[k],
        decreases len - i,
    {
        arr[i] = text[i];
        i += 1;
    }
    arr[len] = 0;
    assert(arr@ =~= c_string_into(before, text@));
}

/// Copies `data` to the front of `arr` as a NUL-terminated string. A string
/// that does not fit is cut so that the NUL still does.
pub fn copy_to_cstr<const COUNT: usize>(data: &str, arr: &mut [u8; COUNT])
    ensures
        final(arr)@ == c_string_into(old(arr)@, data.spec_bytes()),
{
    copy_bytes_to_cstr(data.as_bytes(), arr);
}

/// Appends the bytes of `words`, each word little-endian.
fn append_words_le(out: &mut Vec<u8>, words: &[u32])
    ensures
        final(out)@ == old(out)@ + words_le(words@),
{
    let ghost before = out@;
    let mut i: usize = 0;
    while i < words.len()
        invariant
            i <= words.len(),
            out@ == before + words_le(words@.subrange(0, i as int)),
        decreases words.len() - i,
    {
        append_bytes(out, u32_to_le(words[i]).as_slice());
        proof {
            let next = words@.subrange(0, i + 1);
            assert(next.drop_last() =~= words@.subrange(0, i as int));
            assert(next.last() == words@[i as int]);
            assert(out@ =~= before + words_le(next));
        }
        i += 1;
    }
    assert(words@.subrange(0, words@.len() as int) =~= words@);
}

/// A table of `n` words takes `4 * n` bytes.
pub proof fn lemma_words_le_len(words: Seq<u32>)
    ensures
        words_le(words).len() == 4 * words.len(),
    decreases words.len(),
{
    if words.len() > 0 {
        lemma_words_le_len(words.drop_last());
    }
}

/// A table of words survives the wire.
pub proof fn lemma_words_round_trip(words: Seq<u32>)
    ensures
        words_le(words).len() == 4 * words.len(),
        words_of_le(words_le(words)) == words,
    decreases words.len(),
{
    lemma_words_le_len(words);
    if words.len() > 0 {
        let front = words.drop_last();
        lemma_words_round_trip(front);
        lemma_append_field(words_le(front), u32_le(words.last()));
        lemma_decode_encode(0, words.last(), 0, 0, 0);
        let bytes = words_le(words);
        assert forall|i: int| 0 <= i < words.len() implies words_of_le(bytes)[i] == words[i] by {
            if i < front.len() {
                assert(bytes.subrange(4 * i, 4 * i + 4) == words_le(front).subrange(
                    4 * i,
                    4 * i + 4,
                ));
                assert(words_of_le(words_le(front))[i] == front[i]);
            } else {
                assert(bytes.subrange(4 * i, 4 * i + 4) == u32_le(words.last()));
            }
        }
        assert(words_of_le(bytes) =~= words);
    } else {
        assert(words_of_le(words_le(words)) =~= words);
    }
}

/// The `N` bytes of `buf` that start at `at`.
fn bytes_at<const N: usize>(buf: &[u8], at: usize) -> (out: [u8; N])
    requires
        at + N <= buf.len(),
    ensures
        out@ == buf@.subrange(at as int, at + N),
{
    let mut out = [0u8; N];
    let mut i: usize = 0;
    while i < N
        invariant
            i <= N,
            at + N <= buf.len(),
            out@.len() == N,
            forall|k: int| 0 <= k < i ==> out@[k] == buf@[at + k],
        decreases N - i,
    {
        out[i] = buf[at + i];
        i += 1;
    }
    assert(out@ =~= buf@.subrange(at as int, at + N));
    out
}

/// The table of `N` words that the bytes of `buf` from `at` on carry.
fn words_at<const N: usize>(buf: &[u8], at: usize) -> (out: [u32; N])
    requires
        at + 4 * N <= buf.len(),
    ensures
        out@ == words_of_le(buf@.subrange(at as int, at + 4 * N)),
{
    let mut out = [0u32; N];
    let ghost table = buf@.subrange(at as int, at + 4 * N);
    let mut i: usize = 0;
    while i < N
        invariant
            i <= N,
            at + 4 * N <= buf.len(),
            out@.len() == N,
            table == buf@.subrange(at as int, at + 4 * N),
            forall|k: int| 0 <= k < i ==> out@[k] == words_of_le(table)[k],
        decreases N - i,
    {
        out[i] = read_u32_le(buf, at + 4 * i);
        assert(buf@.subrange(at + 4 * i, at + 4 * i + 4) =~= table.subrange(4 * i, 4 * i + 4));
        i += 1;
    }
    assert(out@ =~= words_of_le(table));
    out
}

impl DeviceInfo {
    /// The bytes that carry this descriptor: the fields in order, each
    /// number little-endian, and two bytes of padding in front of the two
    /// tables so that they start on a word boundary.
    pub open spec fn wire(self) -> Seq<u8> {
        self.name@ + i32_le(self.driver_version) + self.id.wire() + self.physical_location@
            + self.unique_id@ + self.key_bitmask@ + self.abs_bitmask@ + self.rel_bitmask@
            + self.sw_bitmask@ + self.led_bitmask@ + self.ff_bitmask@ + self.prop_bitmask@
            + zero_bytes(2) + words_le(self.abs_max@) + words_le(self.abs_min@)
    }

    /// Whether this is the descriptor that the first 896 bytes of `s` carry.
    /// The two bytes of padding carry nothing.
    pub open spec fn is_carried_by(self, s: Seq<u8>) -> bool {
        &&& self.name@ == s.subrange(0, 80)
        &&& self.driver_version == i32_of_le(s.subrange(80, 84))
        &&& self.id == (InputId {
            bustype: u16_of_le(s.subrange(84, 86)),
            vendor: u16_of_le(s.subrange(86, 88)),
            product: u16_of_le(s.subrange(88, 90)),
            version: u16_of_le(s.subrange(90, 92)),
        })
        &&& self.physical_location@ == s.subrange(92, 172)
        &&& self.unique_id@ == s.subrange(172, 252)
        &&& self.key_bitmask@ == s.subrange(252, 348)
        &&& self.abs_bitmask@ == s.subrange(348, 356)
        &&& self.rel_bitmask@ == s.subrange(356, 358)
        &&& self.sw_bitmask@ == s.subrange(358, 360)
        &&& self.led_bitmask@ == s.subrange(360, 362)
        &&& self.ff_bitmask@ == s.subrange(362, 378)
        &&& self.prop_bitmask@ == s.subrange(378, 382)
        &&& self.abs_max@ == words_of_le(s.subrange(384, 640))
        &&& self.abs_min@ == words_of_le(s.subrange(640, 896))
    }

    /// Whether every field is zero.
    pub open spec fn is_zeroed(self) -> bool {
        &&& self.name@ == zero_bytes(80)
        &&& self.driver_version == 0
        &&& self.id == (InputId { bustype: 0, vendor: 0, product: 0, version: 0 })
        &&& self.physical_location@ == zero_bytes(80)
        &&& self.unique_id@ == zero_bytes(80)
        &&& self.key_bitmask@ == zero_bytes(96)
        &&& self.abs_bitmask@ == zero_bytes(8)
        &&& self.rel_bitmask@ == zero_bytes(2)
        &&& self.sw_bitmask@ == zero_bytes(2)
        &&& self.led_bitmask@ == zero_bytes(2)
        &&& self.ff_bitmask@ == zero_bytes(16)
        &&& self.prop_bitmask@ == zero_bytes(4)
        &&& self.abs_max@ == zero_words(64)
        &&& self.abs_min@ == zero_words(64)
    }

    /// A descriptor with every field zero.
    pub fn zeroed() -> (d: DeviceInfo)
        ensures
            d.is_zeroed(),
    {
        let d = DeviceInfo {
            name: [0u8; 80],
            driver_version: 0,
            id: InputId { bustype: 0, vendor: 0, product: 0, version: 0 },
            physical_location: [0u8; 80],
            unique_id: [0u8; 80],
            key_bitmask: [0u8; 96],
            abs_bitmask: [0u8; 8],
            rel_bitmask: [0u8; 2],
            sw_bitmask: [0u8; 2],
            led_bitmask: [0u8; 2],
            ff_bitmask: [0u8; 16],
            prop_bitmask: [0u8; 4],
            abs_max: [0u32; 64],
            abs_min: [0u32; 64],
        };
        assert(d.name@ =~= zero_bytes(80));
        assert(d.physical_location@ =~= zero_bytes(80));
        assert(d.unique_id@ =~= zero_bytes(80));
        assert(d.key_bitmask@ =~= zero_bytes(96));
        assert(d.abs_bitmask@ =~= zero_bytes(8));
        assert(d.rel_bitmask@ =~= zero_bytes(2));
        assert(d.sw_bitmask@ =~= zero_bytes(2));
        assert(d.led_bitmask@ =~= zero_bytes(2));
        assert(d.ff_bitmask@ =~= zero_bytes(16));
        assert(d.prop_bitmask@ =~= zero_bytes(4));
        assert(d.abs_max@ =~= zero_words(64));
        assert(d.abs_min@ =~= zero_words(64));
        d
    }

    /// Lays the descriptor out for the guest.
    pub fn to_bytes(&self) -> (out: Vec<u8>)
        ensures
            out@ == self.wire(),
            out@.len() == DEVICE_INFO_SIZE,
    {
        let mut out: Vec<u8> = Vec::new();
        append_bytes(&mut out, self.name.as_slice());
        append_bytes(&mut out, i32_to_le(self.driver_version).as_slice());
        append_bytes(&mut out, u16_to_le(self.id.bustype).as_slice());
        append_bytes(&mut out, u16_to_le(self.id.vendor).as_slice());
        append_bytes(&mut out, u16_to_le(self.id.product).as_slice());
        append_bytes(&mut out, u16_to_le(self.id.version).as_slice());
        append_bytes(&mut out, self.physical_location.as_slice());
        append_bytes(&mut out, self.unique_id.as_slice());
        append_bytes(&mut out, self.key_bitmask.as_slice());
        append_bytes(&mut out, self.abs_bitmask.as_slice());
        append_bytes(&mut out, self.rel_bitmask.as_slice());
        append_bytes(&mut out, self.sw_bitmask.as_slice());
        append_bytes(&mut out, self.led_bitmask.as_slice());
        append_bytes(&mut out, self.ff_bitmask.as_slice());
        append_bytes(&mut out, self.prop_bitmask.as_slice());
        let padding = [0u8; 2];
        append_bytes(&mut out, padding.as_slice());
        assert(padding@ =~= zero_bytes(2));
        append_words_le(&mut out, self.abs_max.as_slice());
        append_words_le(&mut out, self.abs_min.as_slice());
        proof {
            lemma_words_le_len(self.abs_max@);
            lemma_words_le_len(self.abs_min@);
            assert(out@ =~= self.wire());
        }
        out
    }
}

impl DeviceInfo {
    /// Reads a descriptor from the front of `buf`; fewer than 896 bytes are
    /// no descriptor.
    pub fn from_bytes(buf: &[u8]) -> (r: Option<DeviceInfo>)
        ensures
            buf@.len() < 896 ==> r is None,
            buf@.len() >= 896 ==> r is Some && r.unwrap().is_carried_by(buf@),
    {
        if buf.len() < DEVICE_INFO_SIZE {
            return None;
        }
        Some(
            DeviceInfo {
                name: bytes_at(buf, 0),
                driver_version: read_i32_le(buf, 80),
                id: InputId {
                    bustype: read_u16_le(buf, 84),
                    vendor: read_u16_le(buf, 86),
                    product: read_u16_le(buf, 88),
                    version: read_u16_le(buf, 90),
                },
                physical_location: bytes_at(buf, 92),
                unique_id: bytes_at(buf, 172),
                key_bitmask: bytes_at(buf, 252),
                abs_bitmask: bytes_at(buf, 348),
                rel_bitmask: bytes_at(buf, 356),
                sw_bitmask: bytes_at(buf, 358),
                led_bitmask: bytes_at(buf, 360),
                ff_bitmask: bytes_at(buf, 362),
                prop_bitmask: bytes_at(buf, 378),
                abs_max: words_at(buf, 384),
                abs_min: words_at(buf, 640),
            },
        )
    }
}

/// A descriptor survives the wire: its 896 bytes carry it.
pub proof fn lemma_descriptor_round_trip(d: DeviceInfo)
    ensures
        d.wire().len() == 896,
        d.is_carried_by(d.wire()),
{
    let version = i32_le(d.driver_version);
    let bustype = u16_le(d.id.bustype);
    let vendor = u16_le(d.id.vendor);
    let product = u16_le(d.id.product);
    let id_version = u16_le(d.id.version);
    let id = d.id.wire();
    let max = words_le(d.abs_max@);
    let min = words_le(d.abs_min@);
    lemma_decode_encode(d.id.bustype, 0, 0, d.driver_version, 0);
    lemma_decode_encode(d.id.vendor, 0, 0, 0, 0);
    lemma_decode_encode(d.id.product, 0, 0, 0, 0);
    lemma_decode_encode(d.id.version, 0, 0, 0, 0);
    lemma_words_round_trip(d.abs_max@);
    lemma_words_round_trip(d.abs_min@);
    lemma_append_field(bustype, vendor);
    lemma_append_field(bustype + vendor, product);
    lemma_append_field(bustype + vendor + product, id_version);
    let w1 = d.name@ + version;
    let w2 = w1 + id;
    let w3 = w2 + d.physical_location@;
    let w4 = w3 + d.unique_id@;
    let w5 = w4 + d.key_bitmask@;
    let w6 = w5 + d.abs_bitmask@;
    let w7 = w6 + d.rel_bitmask@;
    let w8 = w7 + d.sw_bitmask@;
    let w9 = w8 + d.led_bitmask@;
    let w10 = w9 + d.ff_bitmask@;
    let w11 = w10 + d.prop_bitmask@;
    let w12 = w11 + zero_bytes(2);
    let w13 = w12 + max;
    let w14 = w13 + min;
    lemma_append_field(d.name@, version);
    lemma_append_field(w1, id);
    lemma_append_field(w2, d.physical_location@);
    lemma_append_field(w3, d.unique_id@);
    lemma_append_field(w4, d.key_bitmask@);
    lemma_append_field(w5, d.abs_bitmask@);
    lemma_append_field(w6, d.rel_bitmask@);
    lemma_append_field(w7, d.sw_bitmask@);
    lemma_append_field(w8, d.led_bitmask@);
    lemma_append_field(w9, d.ff_bitmask@);
    lemma_append_field(w10, d.prop_bitmask@);
    lemma_append_field(w11, zero_bytes(2));
    lemma_append_field(w12, max);
    lemma_append_field(w13, min);
    assert(d.wire() == w14);
    assert(w14.subrange(84, 92) == id);
    assert(w14.subrange(84, 86) =~= id.subrange(0, 2));
    assert(w14.subrange(86, 88) =~= id.subrange(2, 4));
    assert(w14.subrange(88, 90) =~= id.subrange(4, 6));
    assert(w14.subrange(90, 92) =~= id.subrange(6, 8));
}

/// Whether `d` is the descriptor of the touch device for a screen of
/// `width` by `height` whose socket lies at `path`.
///
/// The device is a button pad with the multi-touch axes: slot, position,
/// tracking id. Position runs from zero to the screen's size, pressure from
/// zero to 80.
pub open spec fn is_touch_device(d: DeviceInfo, width: i32, height: i32, path: Seq<u8>) -> bool {
    &&& d.name@ == c_string(touch_device_name(), 80)
    &&& d.driver_version == 1
    &&& d.id == (InputId { bustype: 0, vendor: 0, product: 1, version: 0 })
    &&& d.physical_location@ == c_string(path, 80)
    &&& d.unique_id@ == c_string(touch_device_unique_id(), 80)
    &&& d.key_bitmask@ == zero_bytes(96)
    &&& d.abs_bitmask@ == zero_bytes(8).update(ABS_RZ as int, 0x80u8).update(
        ABS_THROTTLE as int,
        0x60u8,
    ).update(ABS_RUDDER as int, 0x02u8)
    &&& d.rel_bitmask@ == zero_bytes(2)
    &&& d.sw_bitmask@ == zero_bytes(2)
    &&& d.led_bitmask@ == zero_bytes(2)
    &&& d.ff_bitmask@ == zero_bytes(16)
    &&& d.prop_bitmask@ == zero_bytes(4).update(0, INPUT_PROP_BUTTONPAD as u8)
    &&& d.abs_max@ == zero_words(64).update(ABS_MT_POSITION_X as int, i32_bits(width)).update(
        ABS_MT_POSITION_Y as int,
        i32_bits(height),
    ).update(ABS_MT_PRESSURE as int, 80u32)
    &&& d.abs_min@ == zero_words(64).update(ABS_MT_TOUCH_MAJOR as int, 0u32).update(
        ABS_MT_TOUCH_MINOR as int,
        15u32,
    ).update(ABS_MT_SLOT as int, 4u32)
}

/// Whether `d` is the descriptor of the key device whose socket lies at
/// `path`.
pub open spec fn is_key_device(d: DeviceInfo, path: Seq<u8>) -> bool {
    &&& d.name@ == c_string(key_device_name(), 80)
    &&& d.driver_version == 1
    &&& d.id == (InputId { bustype: 0, vendor: 0, product: 1, version: 0 })
    &&& d.physical_location@ == c_string(path, 80)
    &&& d.unique_id@ == c_string(key_device_unique_id(), 80)
    &&& d.key_bitmask@ == zero_bytes(96).update(14, 0x1Cu8)
    &&& d.abs_bitmask@ == zero_bytes(8)
    &&& d.rel_bitmask@ == zero_bytes(2)
    &&& d.sw_bitmask@ == zero_bytes(2)
    &&& d.led_bitmask@ == zero_bytes(2)
    &&& d.ff_bitmask@ == zero_bytes(16)
    &&& d.prop_bitmask@ == zero_bytes(4)
    &&& d.abs_max@ == zero_words(64)
    &&& d.abs_min@ == zero_words(64)
}

/// The descriptor of the touch device.
pub fn generate_touch_device(width: i32, height: i32, touch_path: &str) -> (d: DeviceInfo)
    ensures
        is_touch_device(d, width, height, touch_path.spec_bytes()),
        d.name@[79] == 0 && d.physical_location@[79] == 0 && d.unique_id@[79] == 0,
{
    let mut info = DeviceInfo::zeroed();
    info.driver_version = 0x1;
    info.id = InputId { product: 0x1, version: 0, vendor: 0, bustype: 0 };
    let name: [u8; 6] = ['v' as u8, 't' as u8, 'o' as u8, 'u' as u8, 'c' as u8, 'h' as u8];
    let unique_id: [u8; 10] = [
        '<' as u8,
        'v' as u8,
        't' as u8,
        'o' as u8,
        'u' as u8,
        'c' as u8,
        'h' as u8,
        ' ' as u8,
        '0' as u8,
        '>' as u8,
    ];
    assert(name@ =~= touch_device_name());
    assert(unique_id@ =~= touch_device_unique_id());
    copy_bytes_to_cstr(name.as_slice(), &mut info.name);
    copy_to_cstr(touch_path, &mut info.physical_location);
    copy_bytes_to_cstr(unique_id.as_slice(), &mut info.unique_id);

    info.prop_bitmask[0] = INPUT_PROP_BUTTONPAD as u8;

    info.abs_bitmask[ABS_RZ as usize] = 0x80;
    info.abs_bitmask[ABS_THROTTLE as usize] = 0x60;
    info.abs_bitmask[ABS_RUDDER as usize] = 0x2;

    info.abs_min[ABS_MT_POSITION_X as usize] = 0;
    info.abs_max[ABS_MT_POSITION_X as usize] = i32_to_bits(width);

    info.abs_min[ABS_MT_POSITION_Y as usize] = 0;
    info.abs_max[ABS_MT_POSITION_Y as usize] = i32_to_bits(height);

    info.abs_min[ABS_MT_TOUCH_MAJOR as usize] = 0;
    info.abs_min[ABS_MT_TOUCH_MINOR as usize] = 15;

    info.abs_min[ABS_MT_SLOT as usize] = 4;
    info.abs_min[ABS_MT_PRESSURE as usize] = 0;
    info.abs_max[ABS_MT_PRESSURE as usize] = 80;

    proof {
        assert(info.name@ =~= c_string(touch_device_name(), 80));
        assert(info.physical_location@ =~= c_string(touch_path.spec_bytes(), 80));
        assert(info.unique_id@ =~= c_string(touch_device_unique_id(), 80));
        assert(info.abs_bitmask@ =~= zero_bytes(8).update(ABS_RZ as int, 0x80u8).update(
            ABS_THROTTLE as int,
            0x60u8,
        ).update(ABS_RUDDER as int, 0x02u8));
        assert(info.prop_bitmask@ =~= zero_bytes(4).update(0, INPUT_PROP_BUTTONPAD as u8));
        assert(info.abs_max@ =~= zero_words(64).update(
            ABS_MT_POSITION_X as int,
            i32_bits(width),
        ).update(ABS_MT_POSITION_Y as int, i32_bits(height)).update(
            ABS_MT_PRESSURE as int,
            80u32,
        ));
        assert(info.abs_min@ =~= zero_words(64).update(ABS_MT_TOUCH_MAJOR as int, 0u32).update(
            ABS_MT_TOUCH_MINOR as int,
            15u32,
        ).update(ABS_MT_SLOT as int, 4u32));
    }
    info
}

/// The descriptor of the key device.
pub fn generate_key_device(key_path: &str) -> (d: DeviceInfo)
    ensures
        is_key_device(d, key_path.spec_bytes()),
        d.name@[79] == 0 && d.physical_location@[79] == 0 && d.unique_id@[79] == 0,
{
    let mut info = DeviceInfo::zeroed();
    info.driver_version = 0x1;
    info.id.product = 0x1;
    let name: [u8; 4] = ['v' as u8, 'k' as u8, 'e' as u8, 'y' as u8];
    let unique_id: [u8; 12] = [
        '<' as u8,
        'k' as u8,
        'e' as u8,
        'y' as u8,
        'b' as u8,
        'o' as u8,
        'a' as u8,
        'r' as u8,
        'd' as u8,
        ' ' as u8,
        '0' as u8,
        '>' as u8,
    ];
    assert(name@ =~= key_device_name());
    assert(unique_id@ =~= key_device_unique_id());
    copy_bytes_to_cstr(name.as_slice(), &mut info.name);
    copy_to_cstr(key_path, &mut info.physical_location);
    copy_bytes_to_cstr(unique_id.as_slice(), &mut info.unique_id);

    info.key_bitmask[14] = 0x1C;

    proof {
        assert(info.name@ =~= c_string(key_device_name(), 80));
        assert(info.physical_location@ =~= c_string(key_path.spec_bytes(), 80));
        assert(info.unique_id@ =~= c_string(key_device_unique_id(), 80));
        assert(info.key_bitmask@ =~= zero_bytes(96).update(14, 0x1Cu8));
    }
    info
}

} // verus!
