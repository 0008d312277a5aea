use twoyi_server::gralloc::{
    buffer_size, BufferUsage, GrallocBuffer, GrallocCommand, GrallocRequest, GrallocResponse,
    PixelFormat, STATUS_ERROR, STATUS_OK,
};
use twoyi_server::gralloc_server::{
    handle_gralloc_client, overwrite_front, write_buffer_data, ClientSession, GrallocServer,
};

fn request(command: u32, buffer_id: u64) -> GrallocRequest {
    GrallocRequest { command, buffer_id, ..GrallocRequest::default() }
}

fn allocate(width: u32, height: u32, format: u32, usage: u64) -> GrallocRequest {
    GrallocRequest { command: 1, width, height, format, usage, ..GrallocRequest::default() }
}

fn unlock(buffer_id: u64, size: u64) -> GrallocRequest {
    GrallocRequest { command: 4, buffer_id, size, ..GrallocRequest::default() }
}

fn bare(status: i32, buffer_id: u64) -> GrallocResponse {
    GrallocResponse { status, buffer_id, width: 0, height: 0, stride: 0, format: 0, size: 0 }
}

#[test]
fn pixel_formats_have_their_sizes_and_numbers() {
    assert_eq!(PixelFormat::Rgba8888.bytes_per_pixel(), 4);
    assert_eq!(PixelFormat::Rgbx8888.bytes_per_pixel(), 4);
    assert_eq!(PixelFormat::Bgra8888.bytes_per_pixel(), 4);
    assert_eq!(PixelFormat::Rgb888.bytes_per_pixel(), 3);
    assert_eq!(PixelFormat::Rgb565.bytes_per_pixel(), 2);
    assert_eq!(PixelFormat::from_u32(1), Some(PixelFormat::Rgba8888));
    assert_eq!(PixelFormat::from_u32(2), Some(PixelFormat::Rgbx8888));
    assert_eq!(PixelFormat::from_u32(3), Some(PixelFormat::Rgb888));
    assert_eq!(PixelFormat::from_u32(4), Some(PixelFormat::Rgb565));
    assert_eq!(PixelFormat::from_u32(5), Some(PixelFormat::Bgra8888));
    assert_eq!(PixelFormat::from_u32(0), None);
    assert_eq!(PixelFormat::from_u32(6), None);
    assert_eq!(PixelFormat::from_u32(u32::MAX), None);
    for code in 1..=5u32 {
        assert_eq!(PixelFormat::from_u32(code).unwrap().to_u32(), code);
    }
}

#[test]
fn commands_have_their_numbers() {
    assert!(matches!(GrallocCommand::from_u32(1), Some(GrallocCommand::Allocate)));
    assert!(matches!(GrallocCommand::from_u32(2), Some(GrallocCommand::Free)));
    assert!(matches!(GrallocCommand::from_u32(3), Some(GrallocCommand::Lock)));
    assert!(matches!(GrallocCommand::from_u32(4), Some(GrallocCommand::Unlock)));
    assert!(matches!(GrallocCommand::from_u32(5), Some(GrallocCommand::GetInfo)));
    assert!(matches!(GrallocCommand::from_u32(6), Some(GrallocCommand::ImportBuffer)));
    assert!(matches!(GrallocCommand::from_u32(7), Some(GrallocCommand::Present)));
    assert!(GrallocCommand::from_u32(0).is_none());
    assert!(GrallocCommand::from_u32(8).is_none());
    for code in 1..=7u32 {
        assert_eq!(GrallocCommand::from_u32(code).unwrap().to_u32(), code);
    }
}

#[test]
fn usage_flags_are_single_bits() {
    assert_eq!(BufferUsage::CpuRead.bits(), 0x1);
    assert_eq!(BufferUsage::CpuWrite.bits(), 0x2);
    assert_eq!(BufferUsage::GpuTexture.bits(), 0x100);
    assert_eq!(BufferUsage::GpuRenderTarget.bits(), 0x200);
    assert_eq!(BufferUsage::Composer.bits(), 0x800);
    assert_eq!(BufferUsage::Framebuffer.bits(), 0x4000);
}

#[test]
fn request_parses_from_fixed_bytes() {
    let bytes: [u8; 48] = [
        0x01, 0x00, 0x00, 0x00, // command 1
        0x08, 0x07, 0x06, 0x05, 0x04, 0x03, 0x02, 0x01, // buffer_id
        0x04, 0x00, 0x00, 0x00, // width 4
        0x02, 0x00, 0x00, 0x00, // height 2
        0x01, 0x00, 0x00, 0x00, // format 1
        0x00, 0x48, 0x00, 0x00, 0x00, 0x00, 0x00, 0x00, // usage 0x4800
        0x10, 0x00, 0x00, 0x00, 0x00, 0x00, 0x00, 0x00, // offset 16
        0xff, 0xff, 0xff, 0xff, 0xff, 0xff, 0xff, 0xff, // size
    ];
    let parsed = GrallocRequest::from_bytes(&bytes).unwrap();
    assert_eq!(
        parsed,
        GrallocRequest {
            command: 1,
            buffer_id: 0x0102_0304_0506_0708,
            width: 4,
            height: 2,
            format: 1,
            usage: 0x4800,
            offset: 16,
            size: u64::MAX,
        }
    );
    assert_eq!(parsed.to_bytes(), bytes);
}

#[test]
fn request_needs_forty_eight_bytes() {
    assert_eq!(GrallocRequest::SIZE, 48);
    assert!(GrallocRequest::from_bytes(&[]).is_none());
    assert!(GrallocRequest::from_bytes(&[0u8; 47]).is_none());
    assert_eq!(GrallocRequest::from_bytes(&[0u8; 48]), Some(GrallocRequest::default()));
    let mut long = [0u8; 60];
    long[0] = 7;
    long[50] = 0xee;
    assert_eq!(GrallocRequest::from_bytes(&long), Some(request(7, 0)));
}

#[test]
fn default_request_is_all_zero() {
    let r = GrallocRequest::default();
    assert_eq!(r.command, 0);
    assert_eq!(r.buffer_id, 0);
    assert_eq!(r.width, 0);
    assert_eq!(r.height, 0);
    assert_eq!(r.format, 0);
    assert_eq!(r.usage, 0);
    assert_eq!(r.offset, 0);
    assert_eq!(r.size, 0);
}

#[test]
fn response_serialises_to_fixed_bytes() {
    let r = GrallocResponse {
        status: 0,
        buffer_id: 1,
        width: 4,
        height: 2,
        stride: 4,
        format: 1,
        size: 32,
    };
    let expected: [u8; 36] = [
        0x00, 0x00, 0x00, 0x00, // status
        0x01, 0x00, 0x00, 0x00, 0x00, 0x00, 0x00, 0x00, // id
        0x04, 0x00, 0x00, 0x00, // width
        0x02, 0x00, 0x00, 0x00, // height
        0x04, 0x00, 0x00, 0x00, // stride
        0x01, 0x00, 0x00, 0x00, // format
        0x20, 0x00, 0x00, 0x00, 0x00, 0x00, 0x00, 0x00, // size
    ];
    assert_eq!(GrallocResponse::SIZE, 36);
    assert_eq!(r.to_bytes(), expected);
    assert_eq!(GrallocResponse::from_bytes(&expected), Some(r));
}

#[test]
fn failed_response_carries_minus_one() {
    let r = GrallocResponse::status_only(STATUS_ERROR, 9);
    assert_eq!(STATUS_ERROR, -1);
    assert_eq!(STATUS_OK, 0);
    let bytes = r.to_bytes();
    assert_eq!(&bytes[0..4], &[0xff, 0xff, 0xff, 0xff]);
    assert_eq!(&bytes[4..12], &[9, 0, 0, 0, 0, 0, 0, 0]);
    assert!(bytes[12..].iter().all(|b| *b == 0));
    assert_eq!(GrallocResponse::from_bytes(&bytes), Some(bare(-1, 9)));
    assert!(GrallocResponse::from_bytes(&bytes[..35]).is_none());
}

#[test]
fn records_survive_the_wire() {
    let requests = [
        GrallocRequest::default(),
        allocate(1080, 1920, 5, 0x4801),
        GrallocRequest {
            command: u32::MAX,
            buffer_id: u64::MAX,
            width: u32::MAX,
            height: 0x8000_0000,
            format: 0x0102_0304,
            usage: 0x8000_0000_0000_0001,
            offset: 0x00ff_00ff_00ff_00ff,
            size: 0x1_0000_0000,
        },
    ];
    for r in requests {
        assert_eq!(GrallocRequest::from_bytes(&r.to_bytes()), Some(r));
    }
    let responses = [
        bare(0, 0),
        bare(-1, u64::MAX),
        bare(i32::MIN, 1),
        GrallocResponse {
            status: i32::MAX,
            buffer_id: 0x0123_4567_89ab_cdef,
            width: u32::MAX,
            height: 1,
            stride: 0xdead_beef,
            format: 5,
            size: u64::MAX,
        },
    ];
    for r in responses {
        assert_eq!(GrallocResponse::from_bytes(&r.to_bytes()), Some(r));
    }
}

#[test]
fn buffer_size_is_width_by_height_by_pixel() {
    assert_eq!(buffer_size(4, 2, PixelFormat::Rgba8888), Some(32));
    assert_eq!(buffer_size(4, 2, PixelFormat::Rgb888), Some(24));
    assert_eq!(buffer_size(4, 2, PixelFormat::Rgb565), Some(16));
    assert_eq!(buffer_size(0, 2, PixelFormat::Rgba8888), Some(0));
    assert_eq!(buffer_size(1080, 1920, PixelFormat::Rgba8888), Some(8_294_400));
    assert_eq!(buffer_size(u32::MAX, u32::MAX, PixelFormat::Rgba8888), None);
    assert_eq!(buffer_size(u32::MAX, u32::MAX, PixelFormat::Rgb565), None);
}

#[test]
fn new_buffer_is_zeroed() {
    let b = GrallocBuffer::new(7, 3, 2, PixelFormat::Rgb565, 0x33);
    assert_eq!(b.id, 7);
    assert_eq!(b.descriptor.width, 3);
    assert_eq!(b.descriptor.height, 2);
    assert_eq!(b.descriptor.stride, 3);
    assert_eq!(b.descriptor.format, PixelFormat::Rgb565);
    assert_eq!(b.descriptor.usage, 0x33);
    assert_eq!(b.size(), 12);
    assert_eq!(b.data, vec![0u8; 12]);
    assert_eq!(b.fd, None);
}

#[test]
fn gralloc_happy_path() {
    let mut server = GrallocServer::new("/rootfs/dev/gralloc", 1080, 1920);
    let expected = GrallocResponse {
        status: 0,
        buffer_id: 1,
        width: 4,
        height: 2,
        stride: 4,
        format: 1,
        size: 32,
    };
    assert_eq!(server.handle_allocate(&allocate(4, 2, 1, 0)), expected);
    assert_eq!(server.handle_get_info(&request(5, 1)), expected);
    assert_eq!(server.handle_free(&request(2, 1)), bare(0, 1));
    assert_eq!(server.handle_get_info(&request(5, 1)), bare(-1, 1));
}

#[test]
fn unlock_then_lock_round_trip() {
    let mut server = GrallocServer::new("/rootfs/dev/gralloc", 1080, 1920);
    let id = server.handle_allocate(&allocate(2, 1, 1, 0)).buffer_id;
    let payload = [0x00, 0x01, 0x02, 0x03, 0x04, 0x05, 0x06, 0x07];
    assert_eq!(server.handle_unlock_with_data(&unlock(id, 8), &payload), bare(0, id));
    let reply = server.handle_lock(&request(3, id));
    assert_eq!(
        reply.response,
        GrallocResponse { status: 0, buffer_id: id, width: 2, height: 1, stride: 2, format: 1, size: 8 }
    );
    assert_eq!(reply.pixels, payload.to_vec());
    assert!(reply.frame.is_none());
    let mut wire = reply.response.to_bytes().to_vec();
    wire.extend_from_slice(&payload);
    assert_eq!(reply.to_bytes(), wire);
    assert_eq!(wire.len(), 36 + 8);
}

#[test]
fn unlock_cuts_and_lock_pads() {
    let mut server = GrallocServer::new("/g", 8, 8);
    let id = server.handle_allocate(&allocate(2, 1, 4, 0)).buffer_id;
    assert_eq!(server.handle_lock(&request(3, id)).pixels, vec![0, 0, 0, 0]);
    server.handle_unlock_with_data(&unlock(id, 2), &[9, 8]);
    assert_eq!(server.handle_lock(&request(3, id)).pixels, vec![9, 8, 0, 0]);
    server.handle_unlock_with_data(&unlock(id, 6), &[1, 2, 3, 4, 5, 6]);
    assert_eq!(server.handle_lock(&request(3, id)).pixels, vec![1, 2, 3, 4]);
    server.handle_unlock_with_data(&unlock(id, 1), &[7]);
    assert_eq!(server.handle_lock(&request(3, id)).pixels, vec![7, 2, 3, 4]);
}

#[test]
fn unlock_without_announced_bytes_writes_nothing() {
    let mut server = GrallocServer::new("/g", 8, 8);
    let id = server.handle_allocate(&allocate(1, 1, 1, 0)).buffer_id;
    assert_eq!(server.handle_unlock_with_data(&unlock(id, 0), &[1, 2, 3, 4]), bare(0, id));
    assert_eq!(server.handle_lock(&request(3, id)).pixels, vec![0, 0, 0, 0]);
    assert_eq!(server.handle_unlock(&unlock(id, 0)), bare(0, id));
    assert_eq!(server.handle_unlock(&unlock(id + 1, 0)), bare(-1, id + 1));
    assert_eq!(server.handle_unlock_with_data(&unlock(99, 4), &[1, 2, 3, 4]), bare(-1, 99));
}

#[test]
fn lock_of_unknown_buffer_fails_without_pixels() {
    let server = GrallocServer::new("/g", 8, 8);
    let reply = server.handle_lock(&request(3, 5));
    assert_eq!(reply.response, bare(-1, 5));
    assert!(reply.pixels.is_empty());
    assert_eq!(reply.to_bytes(), bare(-1, 5).to_bytes().to_vec());
}

#[test]
fn allocate_uses_defaults_where_zero() {
    let mut server = GrallocServer::new("/g", 6, 3);
    let r = server.handle_allocate(&allocate(0, 0, 0, 0));
    assert_eq!(
        r,
        GrallocResponse { status: 0, buffer_id: 1, width: 6, height: 3, stride: 6, format: 1, size: 72 }
    );
    let r = server.handle_allocate(&allocate(2, 0, 4, 0));
    assert_eq!(
        r,
        GrallocResponse { status: 0, buffer_id: 2, width: 2, height: 3, stride: 2, format: 4, size: 12 }
    );
    let r = server.handle_allocate(&allocate(0, 5, 77, 0));
    assert_eq!(
        r,
        GrallocResponse { status: 0, buffer_id: 3, width: 6, height: 5, stride: 6, format: 1, size: 120 }
    );
    let r = server.handle_allocate(&allocate(2, 2, 3, 0));
    assert_eq!(r.size, 12);
    assert_eq!(r.format, 3);
}

#[test]
fn ids_count_up_from_one_and_are_not_reused() {
    let mut server = GrallocServer::new("/g", 1, 1);
    assert_eq!(server.handle_allocate(&allocate(1, 1, 1, 0)).buffer_id, 1);
    assert_eq!(server.handle_allocate(&allocate(1, 1, 1, 0)).buffer_id, 2);
    assert_eq!(server.handle_free(&request(2, 1)), bare(0, 1));
    assert_eq!(server.handle_free(&request(2, 1)), bare(-1, 1));
    assert_eq!(server.handle_allocate(&allocate(1, 1, 1, 0)).buffer_id, 3);
    assert_eq!(server.handle_get_info(&request(5, 1)), bare(-1, 1));
    assert_eq!(server.handle_get_info(&request(5, 2)).status, 0);
}

#[test]
fn allocation_too_large_is_refused() {
    let mut server = GrallocServer::new("/g", 1, 1);
    let r = server.handle_allocate(&allocate(u32::MAX, u32::MAX, 1, 0));
    assert_eq!(r, bare(-1, 0));
    assert_eq!(server.handle_allocate(&allocate(1, 1, 1, 0)).buffer_id, 1);
}

#[test]
fn info_stays_the_same_until_free() {
    let mut server = GrallocServer::new("/g", 1, 1);
    let first = server.handle_allocate(&allocate(3, 5, 3, 0x200));
    assert_eq!(first.size, 3 * 5 * 3);
    assert_eq!(first.size, (first.stride * first.height) as u64 * 3);
    server.handle_allocate(&allocate(9, 9, 1, 0));
    server.handle_unlock_with_data(&unlock(first.buffer_id, 3), &[1, 2, 3]);
    server.handle_present(&request(7, first.buffer_id));
    server.handle_free(&request(2, 2));
    server.handle_request(&request(42, first.buffer_id), &[]);
    assert_eq!(server.handle_get_info(&request(5, first.buffer_id)), first);
}

#[test]
fn present_shows_the_buffer_as_it_is_now() {
    let mut server = GrallocServer::new("/g", 1, 1);
    assert_eq!(server.get_display_buffer(), None);
    let id = server.handle_allocate(&allocate(2, 1, 1, 0)).buffer_id;
    assert_eq!(server.get_display_buffer(), None);
    server.handle_unlock_with_data(&unlock(id, 8), &[1, 2, 3, 4, 5, 6, 7, 8]);
    let reply = server.handle_present(&request(7, id));
    assert_eq!(reply.response, bare(0, id));
    assert!(reply.pixels.is_empty());
    let frame = reply.frame.unwrap();
    assert_eq!(frame.data, vec![1, 2, 3, 4, 5, 6, 7, 8]);
    assert_eq!((frame.width, frame.height), (2, 1));
    assert_eq!(server.get_display_buffer(), Some((vec![1, 2, 3, 4, 5, 6, 7, 8], 2, 1)));
    server.handle_unlock_with_data(&unlock(id, 2), &[0xaa, 0xbb]);
    assert_eq!(server.get_display_buffer(), Some((vec![0xaa, 0xbb, 3, 4, 5, 6, 7, 8], 2, 1)));
}

#[test]
fn free_after_present_leaves_nothing_to_show() {
    let mut server = GrallocServer::new("/g", 1, 1);
    let id = server.handle_allocate(&allocate(1, 1, 1, 0)).buffer_id;
    server.handle_present(&request(7, id));
    assert!(server.get_display_buffer().is_some());
    assert_eq!(server.handle_free(&request(2, id)), bare(0, id));
    assert_eq!(server.get_display_buffer(), None);
    let again = server.handle_present(&request(7, id));
    assert_eq!(again.response, bare(0, id));
    assert!(again.frame.is_none());
}

#[test]
fn present_of_unknown_buffer_succeeds_without_a_frame() {
    let mut server = GrallocServer::new("/g", 1, 1);
    let reply = server.handle_present(&request(7, 12));
    assert_eq!(reply.response, bare(0, 12));
    assert!(reply.frame.is_none());
    assert_eq!(server.get_display_buffer(), None);
}

#[test]
fn unknown_commands_are_refused_with_id_zero() {
    let mut server = GrallocServer::new("/g", 1, 1);
    for command in [0u32, 6, 8, 100, u32::MAX] {
        let reply = server.handle_request(&request(command, 5), &[]);
        assert_eq!(reply.response, bare(-1, 0));
        assert!(reply.pixels.is_empty());
        assert!(reply.frame.is_none());
    }
    assert_eq!(server.handle_allocate(&allocate(1, 1, 1, 0)).buffer_id, 1);
}

#[test]
fn handle_request_dispatches_on_the_command() {
    let mut server = GrallocServer::new("/g", 1, 1);
    let r = server.handle_request(&allocate(2, 2, 1, 0), &[]);
    assert_eq!(r.response.status, 0);
    assert_eq!(r.response.size, 16);
    let id = r.response.buffer_id;
    assert_eq!(server.handle_request(&unlock(id, 3), &[5, 6, 7]).response, bare(0, id));
    let locked = server.handle_request(&request(3, id), &[]);
    assert_eq!(locked.response.size, 16);
    assert_eq!(&locked.pixels[..4], &[5, 6, 7, 0]);
    assert_eq!(server.handle_request(&request(5, id), &[]).response, locked.response);
    let shown = server.handle_request(&request(7, id), &[]);
    assert_eq!(shown.frame.unwrap().data.len(), 16);
    assert_eq!(server.handle_request(&request(2, id), &[]).response, bare(0, id));
    assert_eq!(server.handle_request(&request(2, id), &[]).response, bare(-1, id));
}

#[test]
fn write_buffer_data_reports_whether_the_buffer_is_there() {
    let mut server = GrallocServer::new("/g", 1, 1);
    assert!(!write_buffer_data(&mut server, 1, &[1]));
    let id = server.handle_allocate(&allocate(1, 1, 4, 0)).buffer_id;
    assert!(write_buffer_data(&mut server, id, &[1, 2, 3]));
    assert_eq!(server.handle_lock(&request(3, id)).pixels, vec![1, 2]);
    assert!(write_buffer_data(&mut server, id, &[]));
    assert_eq!(server.handle_lock(&request(3, id)).pixels, vec![1, 2]);
}

#[test]
fn overwrite_front_keeps_the_length() {
    let mut dst = vec![1u8, 2, 3, 4];
    overwrite_front(&mut dst, &[9, 9]);
    assert_eq!(dst, vec![9, 9, 3, 4]);
    overwrite_front(&mut dst, &[5, 6, 7, 8, 9, 10]);
    assert_eq!(dst, vec![5, 6, 7, 8]);
    overwrite_front(&mut dst, &[]);
    assert_eq!(dst, vec![5, 6, 7, 8]);
    let mut empty: Vec<u8> = Vec::new();
    overwrite_front(&mut empty, &[1]);
    assert!(empty.is_empty());
}

#[test]
fn server_starts_once() {
    let mut server = GrallocServer::new("/rootfs/dev/gralloc", 1, 1);
    assert_eq!(server.socket_path(), "/rootfs/dev/gralloc");
    assert!(!server.is_running());
    assert!(server.start());
    assert!(server.is_running());
    assert!(!server.start());
    server.stop();
    assert!(!server.is_running());
    assert!(server.start());
}

#[test]
fn session_reads_requests_and_announced_bytes() {
    let mut server = GrallocServer::new("/g", 1, 1);
    let mut session = ClientSession::new();
    assert_eq!(session.bytes_wanted(), 48);
    let reply =
        handle_gralloc_client(&mut server, &mut session, &allocate(2, 1, 1, 0).to_bytes()).unwrap();
    assert_eq!(reply.response.buffer_id, 1);
    assert_eq!(session.bytes_wanted(), 48);

    assert!(!session.is_awaiting_payload());
    assert!(handle_gralloc_client(&mut server, &mut session, &unlock(1, 8).to_bytes()).is_none());
    assert_eq!(session.bytes_wanted(), 8);
    assert!(session.is_awaiting_payload());
    let reply =
        handle_gralloc_client(&mut server, &mut session, &[8, 7, 6, 5, 4, 3, 2, 1]).unwrap();
    assert_eq!(reply.response, bare(0, 1));
    assert_eq!(session.bytes_wanted(), 48);

    let reply = handle_gralloc_client(&mut server, &mut session, &request(3, 1).to_bytes()).unwrap();
    assert_eq!(reply.pixels, vec![8, 7, 6, 5, 4, 3, 2, 1]);
    assert_eq!(reply.to_bytes().len(), 36 + 8);
    assert!(!session.is_closed());

    // an unlock for a buffer that is not there still takes its bytes
    assert!(handle_gralloc_client(&mut server, &mut session, &unlock(77, 3).to_bytes()).is_none());
    assert_eq!(session.bytes_wanted(), 3);
    let reply = handle_gralloc_client(&mut server, &mut session, &[1, 2, 3]).unwrap();
    assert_eq!(reply.response, bare(-1, 77));
    assert_eq!(session.bytes_wanted(), 48);
}

#[test]
fn session_passes_over_short_reads_and_answers_plain_unlock_at_once() {
    let mut server = GrallocServer::new("/g", 1, 1);
    let mut session = ClientSession::new();
    assert!(handle_gralloc_client(&mut server, &mut session, &[1, 2, 3]).is_none());
    assert_eq!(session.bytes_wanted(), 48);
    let reply = handle_gralloc_client(&mut server, &mut session, &unlock(4, 0).to_bytes()).unwrap();
    assert_eq!(reply.response, bare(-1, 4));
    assert_eq!(session.bytes_wanted(), 48);
    let reply = handle_gralloc_client(&mut server, &mut session, &request(9, 4).to_bytes()).unwrap();
    assert_eq!(reply.response, bare(-1, 0));
}

#[test]
fn unlock_that_announces_too_much_ends_the_connection() {
    let mut server = GrallocServer::new("/g", 1, 1);
    let mut session = ClientSession::new();
    let id = handle_gralloc_client(&mut server, &mut session, &allocate(1, 1, 1, 0).to_bytes())
        .unwrap()
        .response
        .buffer_id;
    let most = isize::MAX as u64;
    assert!(handle_gralloc_client(&mut server, &mut session, &unlock(id, most).to_bytes()).is_none());
    assert!(!session.is_closed());
    assert_eq!(session.bytes_wanted(), isize::MAX as usize);
    let mut session = ClientSession::new();
    for size in [most + 1, u64::MAX] {
        assert!(handle_gralloc_client(&mut server, &mut session, &unlock(id, size).to_bytes())
            .is_none());
        assert!(session.is_closed());
        assert!(!session.is_awaiting_payload());
        assert_eq!(session.bytes_wanted(), 0);
        assert!(handle_gralloc_client(&mut server, &mut session, &request(5, id).to_bytes())
            .is_none());
    }
    assert_eq!(server.handle_get_info(&request(5, id)).status, 0);
}
