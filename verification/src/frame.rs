//! Frames as the viewers receive them, and the picture that is shown while
//! the guest has drawn nothing.
//!
//! A frame on the wire is the five bytes `FRAME`, the picture's width and
//! height and the number of bytes that follow, each in 32 bits
//! little-endian, and then that many bytes of pixels.

use crate::wire::{
    i32_le, i32_of_le, i32_to_le, lemma_append_field, lemma_decode_encode, put_bytes, read_i32_le,
    read_u32_le, u32_le, u32_of_le, u32_to_le,
};
use vstd::prelude::*;

verus! {

/// The five bytes that open every frame: `FRAME`.
pub open spec fn frame_magic() -> Seq<u8> {
    seq!['F' as u8, 'R' as u8, 'A' as u8, 'M' as u8, 'E' as u8]
}

/// What stands in front of a frame's pixels.
#[derive(Debug, Clone, Copy, PartialEq, Eq, Structural)]
pub struct FrameHeader {
    pub width: i32,
    pub height: i32,
    pub length: u32,
}

impl FrameHeader {
    /// Bytes that a header takes on the wire.
    pub const SIZE: usize = 17;

    /// The bytes that carry this header.
    pub open spec fn wire(self) -> Seq<u8> {
        frame_magic() + i32_le(self.width) + i32_le(self.height) + u32_le(self.length)
    }

    /// The header at the front of `s`, if `s` starts with one.
    pub open spec fn parse(s: Seq<u8>) -> Option<FrameHeader> {
        if s.len() >= 17 && s.subrange(0, 5) == frame_magic() {
            Some(
                FrameHeader {
                    width: i32_of_le(s.subrange(5, 9)),
                    height: i32_of_le(s.subrange(9, 13)),
                    length: u32_of_le(s.subrange(13, 17)),
                },
            )
        } else {
            None
        }
    }

    /// Lays the header out for a viewer.
    pub fn to_bytes(&self) -> (out: [u8; 17])
        ensures
            out@ == self.wire(),
    {
        let mut buf = [0u8; 17];
        let magic: [u8; 5] = ['F' as u8, 'R' as u8, 'A' as u8, 'M' as u8, 'E' as u8];
        put_bytes(&mut buf, 0, magic.as_slice());
        put_bytes(&mut buf, 5, i32_to_le(self.width).as_slice());
        put_bytes(&mut buf, 9, i32_to_le(self.height).as_slice());
        put_bytes(&mut buf, 13, u32_to_le(self.length).as_slice());
        buf
    }

    /// Reads a header from the front of `buf`.
    pub fn from_bytes(buf: &[u8]) -> (r: Option<FrameHeader>)
        ensures
            r == FrameHeader::parse(buf@),
    {
        if buf.len() < Self::SIZE {
            return None;
        }
        if buf[0] != 'F' as u8 || buf[1] != 'R' as u8 || buf[2] != 'A' as u8 || buf[3] != 'M' as u8
            || buf[4] != 'E' as u8 {
            return None;
        }
        assert(buf@.subrange(0, 5) =~= frame_magic());
        Some(
            FrameHeader {
                width: read_i32_le(buf, 5),
                height: read_i32_le(buf, 9),
                length: read_u32_le(buf, 13),
            },
        )
    }
}

/// The bytes of a frame: header, then pixels.
pub open spec fn frame_packet(data: Seq<u8>, width: i32, height: i32) -> Seq<u8> {
    (FrameHeader { width, height, length: data.len() as u32 }).wire() + data
}

/// The header for a picture, or `None` where the picture is too long for
/// one.
pub fn frame_header(data: &[u8], width: i32, height: i32) -> (r: Option<FrameHeader>)
    ensures
        r == if data@.len() <= u32::MAX {
            Some(FrameHeader { width, height, length: data@.len() as u32 })
        } else {
            None
        },
{
    if data.len() as u64 <= u32::MAX as u64 {
        Some(FrameHeader { width, height, length: data.len() as u32 })
    } else {
        None
    }
}

/// What is written to a viewer for one frame, in this order: the header,
/// then the pixels as they are.
pub struct FrameParts<'a> {
    pub header: [u8; 17],
    pub payload: &'a [u8],
}

impl<'a> FrameParts<'a> {
    /// The bytes that the parts make on the wire.
    pub open spec fn wire(self) -> Seq<u8> {
        self.header@ + self.payload@
    }
}

/// The frame for a picture, as the parts to write to a viewer one after the
/// other. Every picture whose length fits the header's 32 bits has a frame;
/// a longer one has none.
pub fn send_frame<'a>(data: &'a [u8], width: i32, height: i32) -> (r: Option<FrameParts<'a>>)
    ensures
        r is Some <==> data@.len() <= u32::MAX,
        r matches Some(parts) ==> {
            &&& parts.header@ == (FrameHeader { width, height, length: data@.len() as u32 }).wire()
            &&& parts.payload@ == data@
            &&& parts.wire() == frame_packet(data@, width, height)
        },
{
    match frame_header(data, width, height) {
        Some(header) => Some(FrameParts { header: header.to_bytes(), payload: data }),
        None => None,
    }
}

/// A header survives the wire, and a frame is made the way a viewer reads
/// it: the magic, three numbers of 32 bits, and then exactly as many bytes
/// as the third number says.
pub proof fn lemma_frame_is_well_formed(data: Seq<u8>, width: i32, height: i32)
    requires
        data.len() <= u32::MAX,
    ensures
        ({
            let packet = frame_packet(data, width, height);
            let header = FrameHeader { width, height, length: data.len() as u32 };
            &&& packet.subrange(0, 5) == frame_magic()
            &&& packet.subrange(5, 9) == i32_le(width)
            &&& packet.subrange(9, 13) == i32_le(height)
            &&& packet.subrange(13, 17) == u32_le(data.len() as u32)
            &&& FrameHeader::parse(packet) == Some(header)
            &&& packet.len() == 17 + header.length
            &&& packet.subrange(17, packet.len() as int) == data
        }),
{
    let a = frame_magic();
    let b = i32_le(width);
    let c = i32_le(height);
    let d = u32_le(data.len() as u32);
    lemma_decode_encode(0, data.len() as u32, 0, width, 0);
    lemma_decode_encode(0, 0, 0, height, 0);
    lemma_append_field(a, b);
    lemma_append_field(a + b, c);
    lemma_append_field(a + b + c, d);
    lemma_append_field(a + b + c + d, data);
    let packet = frame_packet(data, width, height);
    assert(packet == a + b + c + d + data);
    assert(packet.subrange(0, 5) == a);
    assert(packet.subrange(5, 9) == b);
    assert(packet.subrange(9, 13) == c);
    assert(packet.subrange(13, 17) == d);
    assert(packet.subrange(17, packet.len() as int) == data);
}

/// Width of the white border of the test picture, in pixels.
pub const PATTERN_BORDER: u64 = 20;

/// Row above the moving square of the test picture.
pub const PATTERN_INDICATOR_Y: u64 = 100;

/// Side of the moving square of the test picture, in pixels.
pub const PATTERN_INDICATOR_SIZE: u64 = 50;

/// The colour of the test picture's ground: one of six, the next one every
/// thirty frames.
pub open spec fn base_color(frame: u32) -> (u8, u8, u8) {
    let phase = (frame / 30) % 6;
    if phase == 0 {
        (50u8, 50u8, 50u8)
    } else if phase == 1 {
        (100u8, 50u8, 50u8)
    } else if phase == 2 {
        (50u8, 100u8, 50u8)
    } else if phase == 3 {
        (50u8, 50u8, 100u8)
    } else if phase == 4 {
        (100u8, 100u8, 50u8)
    } else {
        (50u8, 100u8, 100u8)
    }
}

/// Whether pixel `(x, y)` of a `w` by `h` picture lies in the border.
pub open spec fn in_border(x: int, y: int, w: int, h: int) -> bool {
    x < PATTERN_BORDER || x >= w - PATTERN_BORDER || y < PATTERN_BORDER || y >= h - PATTERN_BORDER
}

/// Whether pixel `(x, y)` lies on the cross in the middle of the picture.
pub open spec fn in_crosshair(x: int, y: int, w: int, h: int) -> bool {
    (x > w / 2 - 2 && x < w / 2 + 2 && y > h / 4 && y < 3 * h / 4) || (y > h / 2 - 2 && y < h / 2
        + 2 && x > w / 4 && x < 3 * w / 4)
}

/// Column to the left of the moving square. The square moves five pixels a
/// frame and starts over at the left once it has crossed the picture; a
/// picture too narrow for the square to move in has none.
pub open spec fn indicator_left(frame: u32, w: int) -> int {
    (frame * 5) % (w - PATTERN_INDICATOR_SIZE)
}

/// Whether pixel `(x, y)` lies in the moving square.
pub open spec fn in_indicator(x: int, y: int, w: int, frame: u32) -> bool {
    &&& w > PATTERN_INDICATOR_SIZE
    &&& y > PATTERN_INDICATOR_Y
    &&& y < PATTERN_INDICATOR_Y + PATTERN_INDICATOR_SIZE
    &&& x > indicator_left(frame, w)
    &&& x < indicator_left(frame, w) + PATTERN_INDICATOR_SIZE
}

/// The colour of pixel `(x, y)`: white in the border, red on the cross,
/// green in the moving square, and the ground colour elsewhere.
pub open spec fn pattern_color(x: int, y: int, w: int, h: int, frame: u32) -> (u8, u8, u8) {
    if in_border(x, y, w, h) {
        (255u8, 255u8, 255u8)
    } else if in_crosshair(x, y, w, h) {
        (255u8, 0u8, 0u8)
    } else if in_indicator(x, y, w, frame) {
        (0u8, 255u8, 0u8)
    } else {
        base_color(frame)
    }
}

/// Byte `channel` of pixel `(x, y)`: red, green, blue, and an alpha of 255.
pub open spec fn pattern_byte(x: int, y: int, w: int, h: int, frame: u32, channel: int) -> u8 {
    let c = pattern_color(x, y, w, h, frame);
    if channel == 0 {
        c.0
    } else if channel == 1 {
        c.1
    } else if channel == 2 {
        c.2
    } else {
        255u8
    }
}

/// How many pixels of a `w` by `h` picture are drawn into `len` bytes: all
/// of them, or as many whole pixels as fit. A picture without width or
/// height has no pixels.
pub open spec fn pattern_pixels(len: nat, w: int, h: int) -> int {
    if w <= 0 || h <= 0 {
        0
    } else if w * h <= len / 4 {
        w * h
    } else {
        (len / 4) as int
    }
}

/// `data` with the test picture of frame `frame` drawn over it, row by row
/// from the top, four bytes a pixel. Bytes behind the picture stay.
pub open spec fn test_pattern(data: Seq<u8>, w: int, h: int, frame: u32) -> Seq<u8> {
    Seq::new(
        data.len(),
        |i: int|
            if i / 4 < pattern_pixels(data.len(), w, h) {
                pattern_byte((i / 4) % w, (i / 4) / w, w, h, frame, i % 4)
            } else {
                data[i]
            },
    )
}

/// The ground colour of frame `frame`.
fn base_color_of(frame: u32) -> (c: (u8, u8, u8))
    ensures
        c == base_color(frame),
    no_unwind
{
    let phase = (frame / 30) % 6;
    if phase == 0 {
        (50, 50, 50)
    } else if phase == 1 {
        (100, 50, 50)
    } else if phase == 2 {
        (50, 100, 50)
    } else if phase == 3 {
        (50, 50, 100)
    } else if phase == 4 {
        (100, 100, 50)
    } else {
        (50, 100, 100)
    }
}

/// The colour of pixel `(x, y)`.
fn pattern_color_of(x: u64, y: u64, w: u64, h: u64, frame: u32) -> (c: (u8, u8, u8))
    requires
        x < w <= i32::MAX,
        y < h <= i32::MAX,
    ensures
        c == pattern_color(x as int, y as int, w as int, h as int, frame),
    no_unwind
{
    let border = PATTERN_BORDER;
    let is_border = x < border || x + border >= w || y < border || y + border >= h;
    let center_x = w / 2;
    let center_y = h / 2;
    let is_crosshair = (x + 2 > center_x && x < center_x + 2 && y > h / 4 && y < 3 * h / 4) || (y
        + 2 > center_y && y < center_y + 2 && x > w / 4 && x < 3 * w / 4);
    let is_indicator = if w > PATTERN_INDICATOR_SIZE {
        let anim_x = (frame as u64 * 5) % (w - PATTERN_INDICATOR_SIZE);
        y > PATTERN_INDICATOR_Y && y < PATTERN_INDICATOR_Y + PATTERN_INDICATOR_SIZE && x > anim_x
            && x < anim_x + PATTERN_INDICATOR_SIZE
    } else {
        false
    };
    if is_border {
        (255, 255, 255)
    } else if is_crosshair {
        (255, 0, 0)
    } else if is_indicator {
        (0, 255, 0)
    } else {
        base_color_of(frame)
    }
}

/// Draws the test picture of frame `frame` for a screen of `width` by
/// `height` into `data`, as far as `data` reaches.
pub fn generate_test_pattern(data: &mut Vec<u8>, width: i32, height: i32, frame: u32)
    ensures
        final(data)@ == test_pattern(old(data)@, width as int, height as int, frame),
    no_unwind
{
    if width <= 0 || height <= 0 {
        return ;
    }
    let ghost before = data@;
    let w = width as u64;
    let h = height as u64;
    assert(0 < (w as int) * (h as int) <= 0x7fff_ffff * 0x7fff_ffff) by (nonlinear_arith)
        requires
            0 < w <= 0x7fff_ffff,
            0 < h <= 0x7fff_ffff,
    ;
    let whole = (data.len() / 4) as u64;
    let pixels = if w * h <= whole {
        w * h
    } else {
        whole
    };
    let mut p: u64 = 0;
    let mut x: u64 = 0;
    let mut y: u64 = 0;
    while p < pixels
        invariant
            0 < w <= i32::MAX,
            0 < h <= i32::MAX,
            p <= pixels,
            pixels <= w * h,
            pixels <= before.len() / 4,
            data@.len() == before.len(),
            before.len() <= usize::MAX,
            x < w,
            p == y * w + x,
            forall|i: int|
                0 <= i < 4 * p ==> data@[i] == test_pattern(before, w as int, h as int, frame)[i],
            forall|i: int| 4 * p <= i < data@.len() ==> data@[i] == before[i],
            pixels == pattern_pixels(before.len(), w as int, h as int),
        decreases pixels - p,
    {
        assert(y < h) by (nonlinear_arith)
            requires
                p == y * w + x,
                p < w * h,
                0 <= x,
                0 < w,
        ;
        let (r, g, b) = pattern_color_of(x, y, w, h, frame);
        let idx = (p * 4) as usize;
        proof {
            vstd::arithmetic::div_mod::lemma_fundamental_div_mod_converse(
                p as int,
                w as int,
                y as int,
                x as int,
            );
        }
        data[idx] = r;
        data[idx + 1] = g;
        data[idx + 2] = b;
        data[idx + 3] = 255;
        p += 1;
        x += 1;
        if x == w {
            assert((y + 1) * w == y * w + w) by (nonlinear_arith);
            x = 0;
            y += 1;
        }
    }
}

} // verus!
