//! Software graphics allocator: pixel formats, the request and response
//! records of its socket protocol, and the buffers it hands out.

use crate::wire::{
    i32_le, i32_of_le, i32_to_le, lemma_append_field, lemma_decode_encode, lemma_encode_decode,
    put_bytes, read_i32_le, read_u32_le, read_u64_le, u32_le, u32_of_le, u32_to_le, u64_le,
    u64_of_le, u64_to_le, zero_bytes,
};
use vstd::prelude::*;

verus! {

/// Pixel layout of a buffer. The numbers that stand for the formats on the
/// wire are those of the guest's graphics stack.
#[derive(Debug, Clone, Copy, PartialEq, Eq, Structural)]
pub enum PixelFormat {
    Rgba8888,
    Rgbx8888,
    Rgb888,
    Rgb565,
    Bgra8888,
}

impl PixelFormat {
    /// Bytes that one pixel takes.
    pub open spec fn bpp(self) -> nat {
        match self {
            PixelFormat::Rgba8888 | PixelFormat::Rgbx8888 | PixelFormat::Bgra8888 => 4,
            PixelFormat::Rgb888 => 3,
            PixelFormat::Rgb565 => 2,
        }
    }

    /// The number that stands for the format on the wire.
    pub open spec fn code(self) -> u32 {
        match self {
            PixelFormat::Rgba8888 => 1,
            PixelFormat::Rgbx8888 => 2,
            PixelFormat::Rgb888 => 3,
            PixelFormat::Rgb565 => 4,
            PixelFormat::Bgra8888 => 5,
        }
    }

    /// The format that `value` stands for, if any.
    pub open spec fn of_code(value: u32) -> Option<PixelFormat> {
        if value == 1 {
            Some(PixelFormat::Rgba8888)
        } else if value == 2 {
            Some(PixelFormat::Rgbx8888)
        } else if value == 3 {
            Some(PixelFormat::Rgb888)
        } else if value == 4 {
            Some(PixelFormat::Rgb565)
        } else if value == 5 {
            Some(PixelFormat::Bgra8888)
        } else {
            None
        }
    }

    /// The format a request asks for: the one its number names, or RGBA
    /// where the number names none.
    pub open spec fn of_code_or_default(value: u32) -> PixelFormat {
        match PixelFormat::of_code(value) {
            Some(f) => f,
            None => PixelFormat::Rgba8888,
        }
    }

    /// Bytes that one pixel takes.
    pub fn bytes_per_pixel(&self) -> (n: usize)
        ensures
            n == self.bpp(),
    {
        match self {
            PixelFormat::Rgba8888 | PixelFormat::Rgbx8888 | PixelFormat::Bgra8888 => 4,
            PixelFormat::Rgb888 => 3,
            PixelFormat::Rgb565 => 2,
        }
    }

    /// The format that `value` stands for, if any.
    pub fn from_u32(value: u32) -> (r: Option<Self>)
        ensures
            r == PixelFormat::of_code(value),
    {
        match value {
            1 => Some(PixelFormat::Rgba8888),
            2 => Some(PixelFormat::Rgbx8888),
            3 => Some(PixelFormat::Rgb888),
            4 => Some(PixelFormat::Rgb565),
            5 => Some(PixelFormat::Bgra8888),
            _ => None,
        }
    }

    /// The number that stands for the format on the wire.
    pub fn to_u32(&self) -> (value: u32)
        ensures
            value == self.code(),
    {
        match self {
            PixelFormat::Rgba8888 => 1,
            PixelFormat::Rgbx8888 => 2,
            PixelFormat::Rgb888 => 3,
            PixelFormat::Rgb565 => 4,
            PixelFormat::Bgra8888 => 5,
        }
    }
}

/// What a buffer will be used for. Each use is one bit of a request's
/// `usage` word.
#[derive(Debug, Clone, Copy, PartialEq, Eq, Structural)]
pub enum BufferUsage {
    CpuRead,
    CpuWrite,
    GpuTexture,
    GpuRenderTarget,
    Composer,
    Framebuffer,
}

impl BufferUsage {
    /// The bit of the usage word that stands for this use.
    pub open spec fn mask(self) -> u64 {
        match self {
            BufferUsage::CpuRead => 0x1,
            BufferUsage::CpuWrite => 0x2,
            BufferUsage::GpuTexture => 0x100,
            BufferUsage::GpuRenderTarget => 0x200,
            BufferUsage::Composer => 0x800,
            BufferUsage::Framebuffer => 0x4000,
        }
    }

    /// The bit of the usage word that stands for this use.
    pub fn bits(&self) -> (b: u64)
        ensures
            b == self.mask(),
    {
        match self {
            BufferUsage::CpuRead => 0x1,
            BufferUsage::CpuWrite => 0x2,
            BufferUsage::GpuTexture => 0x100,
            BufferUsage::GpuRenderTarget => 0x200,
            BufferUsage::Composer => 0x800,
            BufferUsage::Framebuffer => 0x4000,
        }
    }
}

/// Shape of a buffer.
#[derive(Debug, Clone, Copy, PartialEq, Eq, Structural)]
pub struct BufferDescriptor {
    pub width: u32,
    pub height: u32,
    pub format: PixelFormat,
    pub usage: u64,
    pub stride: u32,
}

impl BufferDescriptor {
    /// Bytes that a buffer of this shape holds.
    pub open spec fn byte_len(self) -> nat {
        (self.stride as nat) * (self.height as nat) * self.format.bpp()
    }
}

/// Bytes that a buffer `width` pixels wide and `height` rows high holds.
pub open spec fn pixel_bytes(width: u32, height: u32, format: PixelFormat) -> nat {
    (width as nat) * (height as nat) * format.bpp()
}

/// Largest buffer the allocator hands out: what one allocation can hold.
pub open spec fn max_buffer_bytes() -> nat {
    isize::MAX as nat
}

/// The size in bytes of a `width` by `height` buffer, or `None` where no
/// single allocation can hold that many.
pub fn buffer_size(width: u32, height: u32, format: PixelFormat) -> (r: Option<usize>)
    ensures
        r matches Some(n) ==> n == pixel_bytes(width, height, format),
        r is Some <==> pixel_bytes(width, height, format) <= max_buffer_bytes(),
{
    let bpp = format.bytes_per_pixel() as u128;
    assert(0 <= (width as int) * (height as int) <= 0xffff_ffff * 0xffff_ffff) by (nonlinear_arith)
        requires
            0 <= width <= 0xffff_ffff,
            0 <= height <= 0xffff_ffff,
    ;
    let area = (width as u128) * (height as u128);
    assert(0 <= (area as int) * (bpp as int) <= 0xffff_ffff * 0xffff_ffff * 4) by (nonlinear_arith)
        requires
            0 <= area <= 0xffff_ffff * 0xffff_ffff,
            0 <= bpp <= 4,
    ;
    let size = area * bpp;
    if size <= isize::MAX as u128 {
        Some(size as usize)
    } else {
        None
    }
}

/// A pixel buffer that the allocator owns.
pub struct GrallocBuffer {
    pub id: u64,
    pub descriptor: BufferDescriptor,
    pub data: Vec<u8>,
    pub fd: Option<i32>,
}

impl GrallocBuffer {
    /// The buffer holds exactly the bytes that its shape calls for.
    pub open spec fn wf(&self) -> bool {
        self.data@.len() == self.descriptor.byte_len()
    }

    /// A zero-filled buffer whose rows are `width` pixels apart.
    pub fn new(id: u64, width: u32, height: u32, format: PixelFormat, usage: u64) -> (b: Self)
        requires
            pixel_bytes(width, height, format) <= max_buffer_bytes(),
        ensures
            b.id == id,
            b.descriptor == (BufferDescriptor { width, height, format, usage, stride: width }),
            b.data@ == zero_bytes(pixel_bytes(width, height, format)),
            b.fd is None,
            b.wf(),
    {
        let size = match buffer_size(width, height, format) {
            Some(n) => n,
            None => 0,
        };
        let data = vec![0u8; size];
        GrallocBuffer {
            id,
            descriptor: BufferDescriptor { width, height, format, usage, stride: width },
            data,
            fd: None,
        }
    }

    /// Bytes that the buffer holds.
    pub fn size(&self) -> (n: usize)
        ensures
            n == self.data@.len(),
    {
        self.data.len()
    }
}

/// What a request asks the allocator to do.
#[derive(Debug, Clone, Copy, PartialEq, Eq, Structural)]
pub enum GrallocCommand {
    Allocate,
    Free,
    Lock,
    Unlock,
    GetInfo,
    ImportBuffer,
    Present,
}

impl GrallocCommand {
    /// The number that stands for the command on the wire.
    pub open spec fn code(self) -> u32 {
        match self {
            GrallocCommand::Allocate => 1,
            GrallocCommand::Free => 2,
            GrallocCommand::Lock => 3,
            GrallocCommand::Unlock => 4,
            GrallocCommand::GetInfo => 5,
            GrallocCommand::ImportBuffer => 6,
            GrallocCommand::Present => 7,
        }
    }

    /// The command that `value` stands for, if any.
    pub open spec fn of_code(value: u32) -> Option<GrallocCommand> {
        if value == 1 {
            Some(GrallocCommand::Allocate)
        } else if value == 2 {
            Some(GrallocCommand::Free)
        } else if value == 3 {
            Some(GrallocCommand::Lock)
        } else if value == 4 {
            Some(GrallocCommand::Unlock)
        } else if value == 5 {
            Some(GrallocCommand::GetInfo)
        } else if value == 6 {
            Some(GrallocCommand::ImportBuffer)
        } else if value == 7 {
            Some(GrallocCommand::Present)
        } else {
            None
        }
    }

    /// The command that `value` stands for, if any.
    pub fn from_u32(value: u32) -> (r: Option<Self>)
        ensures
            r == GrallocCommand::of_code(value),
    {
        match value {
            1 => Some(GrallocCommand::Allocate),
            2 => Some(GrallocCommand::Free),
            3 => Some(GrallocCommand::Lock),
            4 => Some(GrallocCommand::Unlock),
            5 => Some(GrallocCommand::GetInfo),
            6 => Some(GrallocCommand::ImportBuffer),
            7 => Some(GrallocCommand::Present),
            _ => None,
        }
    }

    /// The number that stands for the command on the wire.
    pub fn to_u32(&self) -> (value: u32)
        ensures
            value == self.code(),
    {
        match self {
            GrallocCommand::Allocate => 1,
            GrallocCommand::Free => 2,
            GrallocCommand::Lock => 3,
            GrallocCommand::Unlock => 4,
            GrallocCommand::GetInfo => 5,
            GrallocCommand::ImportBuffer => 6,
            GrallocCommand::Present => 7,
        }
    }
}

/// Every format and every command is the one that its number names.
pub proof fn lemma_codes_name_their_values(f: PixelFormat, c: GrallocCommand)
    ensures
        PixelFormat::of_code(f.code()) == Some(f),
        GrallocCommand::of_code(c.code()) == Some(c),
{
}

/// A request as the guest sends it: 48 bytes, each field little-endian, no
/// padding between fields.
#[derive(Debug, Clone, Copy, PartialEq, Eq, Structural)]
pub struct GrallocRequest {
    pub command: u32,
    pub buffer_id: u64,
    pub width: u32,
    pub height: u32,
    pub format: u32,
    pub usage: u64,
    pub offset: u64,
    pub size: u64,
}

impl Default for GrallocRequest {
    fn default() -> (r: Self)
        ensures
            r == (GrallocRequest {
                command: 0,
                buffer_id: 0,
                width: 0,
                height: 0,
                format: 0,
                usage: 0,
                offset: 0,
                size: 0,
            }),
    {
        GrallocRequest {
            command: 0,
            buffer_id: 0,
            width: 0,
            height: 0,
            format: 0,
            usage: 0,
            offset: 0,
            size: 0,
        }
    }
}

impl GrallocRequest {
    /// Bytes that a request takes on the wire.
    pub const SIZE: usize = 48;

    /// The bytes that carry this request.
    pub open spec fn wire(self) -> Seq<u8> {
        u32_le(self.command) + u64_le(self.buffer_id) + u32_le(self.width) + u32_le(self.height)
            + u32_le(self.format) + u64_le(self.usage) + u64_le(self.offset) + u64_le(self.size)
    }

    /// The request that the first 48 bytes of `s` carry.
    pub open spec fn parse(s: Seq<u8>) -> GrallocRequest {
        GrallocRequest {
            command: u32_of_le(s.subrange(0, 4)),
            buffer_id: u64_of_le(s.subrange(4, 12)),
            width: u32_of_le(s.subrange(12, 16)),
            height: u32_of_le(s.subrange(16, 20)),
            format: u32_of_le(s.subrange(20, 24)),
            usage: u64_of_le(s.subrange(24, 32)),
            offset: u64_of_le(s.subrange(32, 40)),
            size: u64_of_le(s.subrange(40, 48)),
        }
    }

    /// Reads a request from the front of `buf`. Bytes past the 48th are not
    /// looked at; fewer than 48 are no request.
    pub fn from_bytes(buf: &[u8]) -> (r: Option<Self>)
        ensures
            buf@.len() < 48 ==> r is None,
            buf@.len() >= 48 ==> r == Some(GrallocRequest::parse(buf@)),
    {
        if buf.len() < Self::SIZE {
            return None;
        }
        Some(
            GrallocRequest {
                command: read_u32_le(buf, 0),
                buffer_id: read_u64_le(buf, 4),
                width: read_u32_le(buf, 12),
                height: read_u32_le(buf, 16),
                format: read_u32_le(buf, 20),
                usage: read_u64_le(buf, 24),
                offset: read_u64_le(buf, 32),
                size: read_u64_le(buf, 40),
            },
        )
    }

    /// Lays the request out as the guest would send it.
    pub fn to_bytes(&self) -> (out: [u8; 48])
        ensures
            out@ == self.wire(),
    {
        let mut buf = [0u8; 48];
        put_bytes(&mut buf, 0, u32_to_le(self.command).as_slice());
        put_bytes(&mut buf, 4, u64_to_le(self.buffer_id).as_slice());
        put_bytes(&mut buf, 12, u32_to_le(self.width).as_slice());
        put_bytes(&mut buf, 16, u32_to_le(self.height).as_slice());
        put_bytes(&mut buf, 20, u32_to_le(self.format).as_slice());
        put_bytes(&mut buf, 24, u64_to_le(self.usage).as_slice());
        put_bytes(&mut buf, 32, u64_to_le(self.offset).as_slice());
        put_bytes(&mut buf, 40, u64_to_le(self.size).as_slice());
        buf
    }
}

/// Status of a request that was served.
pub const STATUS_OK: i32 = 0;

/// Status of a request that could not be served.
pub const STATUS_ERROR: i32 = -1;

/// A response as the guest reads it: 36 bytes, each field little-endian, no
/// padding between fields.
#[derive(Debug, Clone, Copy, PartialEq, Eq, Structural)]
pub struct GrallocResponse {
    pub status: i32,
    pub buffer_id: u64,
    pub width: u32,
    pub height: u32,
    pub stride: u32,
    pub format: u32,
    pub size: u64,
}

impl GrallocResponse {
    /// Bytes that a response takes on the wire.
    pub const SIZE: usize = 36;

    /// The bytes that carry this response.
    pub open spec fn wire(self) -> Seq<u8> {
        i32_le(self.status) + u64_le(self.buffer_id) + u32_le(self.width) + u32_le(self.height)
            + u32_le(self.stride) + u32_le(self.format) + u64_le(self.size)
    }

    /// The response that the first 36 bytes of `s` carry.
    pub open spec fn parse(s: Seq<u8>) -> GrallocResponse {
        GrallocResponse {
            status: i32_of_le(s.subrange(0, 4)),
            buffer_id: u64_of_le(s.subrange(4, 12)),
            width: u32_of_le(s.subrange(12, 16)),
            height: u32_of_le(s.subrange(16, 20)),
            stride: u32_of_le(s.subrange(20, 24)),
            format: u32_of_le(s.subrange(24, 28)),
            size: u64_of_le(s.subrange(28, 36)),
        }
    }

    /// A response that carries a status and a buffer id and nothing else.
    pub open spec fn bare(status: i32, buffer_id: u64) -> GrallocResponse {
        GrallocResponse { status, buffer_id, width: 0, height: 0, stride: 0, format: 0, size: 0 }
    }

    /// The response that describes a buffer.
    pub open spec fn describing(buffer_id: u64, d: BufferDescriptor) -> GrallocResponse {
        GrallocResponse {
            status: STATUS_OK,
            buffer_id,
            width: d.width,
            height: d.height,
            stride: d.stride,
            format: d.format.code(),
            size: d.byte_len() as u64,
        }
    }

    /// A response that carries a status and a buffer id and nothing else.
    pub fn status_only(status: i32, buffer_id: u64) -> (r: Self)
        ensures
            r == GrallocResponse::bare(status, buffer_id),
    {
        GrallocResponse { status, buffer_id, width: 0, height: 0, stride: 0, format: 0, size: 0 }
    }

    /// Lays the response out for the guest.
    pub fn to_bytes(&self) -> (out: [u8; 36])
        ensures
            out@ == self.wire(),
    {
        let mut buf = [0u8; 36];
        put_bytes(&mut buf, 0, i32_to_le(self.status).as_slice());
        put_bytes(&mut buf, 4, u64_to_le(self.buffer_id).as_slice());
        put_bytes(&mut buf, 12, u32_to_le(self.width).as_slice());
        put_bytes(&mut buf, 16, u32_to_le(self.height).as_slice());
        put_bytes(&mut buf, 20, u32_to_le(self.stride).as_slice());
        put_bytes(&mut buf, 24, u32_to_le(self.format).as_slice());
        put_bytes(&mut buf, 28, u64_to_le(self.size).as_slice());
        buf
    }

    /// Reads a response from the front of `buf`; fewer than 36 bytes are no
    /// response.
    pub fn from_bytes(buf: &[u8]) -> (r: Option<Self>)
        ensures
            buf@.len() < 36 ==> r is None,
            buf@.len() >= 36 ==> r == Some(GrallocResponse::parse(buf@)),
    {
        if buf.len() < Self::SIZE {
            return None;
        }
        Some(
            GrallocResponse {
                status: read_i32_le(buf, 0),
                buffer_id: read_u64_le(buf, 4),
                width: read_u32_le(buf, 12),
                height: read_u32_le(buf, 16),
                stride: read_u32_le(buf, 20),
                format: read_u32_le(buf, 24),
                size: read_u64_le(buf, 28),
            },
        )
    }
}

/// A request survives the wire: its 48 bytes parse back to it.
pub proof fn lemma_request_round_trip(r: GrallocRequest)
    ensures
        r.wire().len() == 48,
        GrallocRequest::parse(r.wire()) == r,
{
    let a = u32_le(r.command);
    let b = u64_le(r.buffer_id);
    let c = u32_le(r.width);
    let d = u32_le(r.height);
    let e = u32_le(r.format);
    let f = u64_le(r.usage);
    let g = u64_le(r.offset);
    let h = u64_le(r.size);
    lemma_decode_encode(0, r.command, r.buffer_id, 0, 0);
    lemma_decode_encode(0, r.width, r.usage, 0, 0);
    lemma_decode_encode(0, r.height, r.offset, 0, 0);
    lemma_decode_encode(0, r.format, r.size, 0, 0);
    lemma_append_field(a, b);
    lemma_append_field(a + b, c);
    lemma_append_field(a + b + c, d);
    lemma_append_field(a + b + c + d, e);
    lemma_append_field(a + b + c + d + e, f);
    lemma_append_field(a + b + c + d + e + f, g);
    lemma_append_field(a + b + c + d + e + f + g, h);
    let w = r.wire();
    assert(w == a + b + c + d + e + f + g + h);
    assert(w.subrange(0, 4) == a);
    assert(w.subrange(4, 12) == b);
    assert(w.subrange(12, 16) == c);
    assert(w.subrange(16, 20) == d);
    assert(w.subrange(20, 24) == e);
    assert(w.subrange(24, 32) == f);
    assert(w.subrange(32, 40) == g);
    assert(w.subrange(40, 48) == h);
}

/// Any 48 bytes are the wire form of the request they parse to, so no two
/// different byte strings carry the same request.
pub proof fn lemma_request_bytes_round_trip(s: Seq<u8>)
    requires
        s.len() == 48,
    ensures
        GrallocRequest::parse(s).wire() == s,
{
    let a = s.subrange(0, 4);
    let b = s.subrange(4, 12);
    let c = s.subrange(12, 16);
    let d = s.subrange(16, 20);
    let e = s.subrange(20, 24);
    let f = s.subrange(24, 32);
    let g = s.subrange(32, 40);
    let h = s.subrange(40, 48);
    assert(a + b + c + d + e + f + g + h =~= s);
    lemma_encode_decode(a);
    lemma_encode_decode(b);
    lemma_encode_decode(c);
    lemma_encode_decode(d);
    lemma_encode_decode(e);
    lemma_encode_decode(f);
    lemma_encode_decode(g);
    lemma_encode_decode(h);
}

/// A response survives the wire: its 36 bytes parse back to it.
pub proof fn lemma_response_round_trip(r: GrallocResponse)
    ensures
        r.wire().len() == 36,
        GrallocResponse::parse(r.wire()) == r,
{
    let a = i32_le(r.status);
    let b = u64_le(r.buffer_id);
    let c = u32_le(r.width);
    let d = u32_le(r.height);
    let e = u32_le(r.stride);
    let f = u32_le(r.format);
    let g = u64_le(r.size);
    lemma_decode_encode(0, r.width, r.buffer_id, r.status, 0);
    lemma_decode_encode(0, r.height, r.size, 0, 0);
    lemma_decode_encode(0, r.stride, 0, 0, 0);
    lemma_decode_encode(0, r.format, 0, 0, 0);
    lemma_append_field(a, b);
    lemma_append_field(a + b, c);
    lemma_append_field(a + b + c, d);
    lemma_append_field(a + b + c + d, e);
    lemma_append_field(a + b + c + d + e, f);
    lemma_append_field(a + b + c + d + e + f, g);
    let w = r.wire();
    assert(w == a + b + c + d + e + f + g);
    assert(w.subrange(0, 4) == a);
    assert(w.subrange(4, 12) == b);
    assert(w.subrange(12, 16) == c);
    assert(w.subrange(16, 20) == d);
    assert(w.subrange(20, 24) == e);
    assert(w.subrange(24, 28) == f);
    assert(w.subrange(28, 36) == g);
}

/// Any 36 bytes are the wire form of the response they parse to.
pub proof fn lemma_response_bytes_round_trip(s: Seq<u8>)
    requires
        s.len() == 36,
    ensures
        GrallocResponse::parse(s).wire() == s,
{
    let a = s.subrange(0, 4);
    let b = s.subrange(4, 12);
    let c = s.subrange(12, 16);
    let d = s.subrange(16, 20);
    let e = s.subrange(20, 24);
    let f = s.subrange(24, 28);
    let g = s.subrange(28, 36);
    assert(a + b + c + d + e + f + g =~= s);
    lemma_encode_decode(a);
    lemma_encode_decode(b);
    lemma_encode_decode(c);
    lemma_encode_decode(d);
    lemma_encode_decode(e);
    lemma_encode_decode(f);
    lemma_encode_decode(g);
}

} // verus!
