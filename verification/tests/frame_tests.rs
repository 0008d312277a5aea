use twoyi_server::frame::{
    frame_header, generate_test_pattern, send_frame, FrameHeader, PATTERN_BORDER,
    PATTERN_INDICATOR_SIZE, PATTERN_INDICATOR_Y,
};
use twoyi_server::framebuffer::{
    first_deadline, frame_interval_ms, frame_size, plan_tick, read_framebuffer_or_test_pattern,
    FrameStreamer, FramebufferData, TickPlan, FRAME_FPS,
};
use twoyi_server::gralloc::GrallocRequest;
use twoyi_server::gralloc_server::GrallocServer;

fn packet_of(data: &[u8], width: i32, height: i32) -> Vec<u8> {
    let parts = send_frame(data, width, height).unwrap();
    let mut packet = parts.header.to_vec();
    packet.extend_from_slice(parts.payload);
    packet
}

fn pixel(data: &[u8], w: usize, x: usize, y: usize) -> [u8; 4] {
    let i = (y * w + x) * 4;
    [data[i], data[i + 1], data[i + 2], data[i + 3]]
}

fn pattern(w: i32, h: i32, frame: u32) -> Vec<u8> {
    let mut data = vec![0u8; (w * h * 4) as usize];
    generate_test_pattern(&mut data, w, h, frame);
    data
}

const WHITE: [u8; 4] = [255, 255, 255, 255];
const RED: [u8; 4] = [255, 0, 0, 255];
const GREEN: [u8; 4] = [0, 255, 0, 255];

#[test]
fn header_bytes_are_fixed() {
    let h = FrameHeader { width: 4, height: 2, length: 32 };
    let expected: [u8; 17] = [
        b'F', b'R', b'A', b'M', b'E', 4, 0, 0, 0, 2, 0, 0, 0, 32, 0, 0, 0,
    ];
    assert_eq!(FrameHeader::SIZE, 17);
    assert_eq!(h.to_bytes(), expected);
    assert_eq!(FrameHeader::from_bytes(&expected), Some(h));
    let h = FrameHeader { width: -1, height: 1080, length: 0x0102_0304 };
    assert_eq!(
        h.to_bytes(),
        [b'F', b'R', b'A', b'M', b'E', 0xff, 0xff, 0xff, 0xff, 0x38, 0x04, 0, 0, 4, 3, 2, 1]
    );
    assert_eq!(FrameHeader::from_bytes(&h.to_bytes()), Some(h));
}

#[test]
fn header_needs_the_magic_and_seventeen_bytes() {
    let good = FrameHeader { width: 1, height: 1, length: 4 }.to_bytes();
    assert!(FrameHeader::from_bytes(&good[..16]).is_none());
    assert!(FrameHeader::from_bytes(&[]).is_none());
    for i in 0..5 {
        let mut bad = good;
        bad[i] ^= 0x20;
        assert!(FrameHeader::from_bytes(&bad).is_none());
    }
    let mut long = good.to_vec();
    long.extend_from_slice(&[1, 2, 3, 4, 5]);
    assert_eq!(FrameHeader::from_bytes(&long), Some(FrameHeader { width: 1, height: 1, length: 4 }));
}

#[test]
fn frame_is_header_then_pixels() {
    let data = [0xabu8; 32];
    let parts = send_frame(&data, 4, 2).unwrap();
    assert_eq!(parts.header, FrameHeader { width: 4, height: 2, length: 32 }.to_bytes());
    assert_eq!(parts.payload, &data);
    let packet = packet_of(&data, 4, 2);
    assert_eq!(packet.len(), 17 + 32);
    assert_eq!(&packet[..5], b"FRAME");
    assert_eq!(&packet[5..9], &4i32.to_le_bytes());
    assert_eq!(&packet[9..13], &2i32.to_le_bytes());
    assert_eq!(&packet[13..17], &32u32.to_le_bytes());
    assert_eq!(&packet[17..], &data);
    let header = FrameHeader::from_bytes(&packet).unwrap();
    assert_eq!(header.length as usize, packet.len() - 17);
    assert_eq!(frame_header(&data, 4, 2), Some(header));
    let empty = packet_of(&[], 0, 0);
    assert_eq!(empty.len(), 17);
    assert_eq!(FrameHeader::from_bytes(&empty).unwrap().length, 0);
}

#[test]
fn tick_interval_follows_the_rate() {
    assert_eq!(FRAME_FPS, 30);
    assert_eq!(frame_interval_ms(), 33);
    let ticks_in_ten_seconds = 10_000 / frame_interval_ms();
    assert!(ticks_in_ten_seconds >= 10 * FRAME_FPS - 3);
    assert_eq!(ticks_in_ten_seconds, 303);
}

#[test]
fn frame_size_is_four_bytes_a_pixel() {
    assert_eq!(frame_size(4, 2), 32);
    assert_eq!(frame_size(1080, 1920), 8_294_400);
    assert_eq!(frame_size(0, 5), 0);
    assert_eq!(frame_size(5, 0), 0);
    assert_eq!(frame_size(-4, 2), 0);
    assert_eq!(frame_size(-4, -2), 0);
    assert_eq!(frame_size(1, 1), 4);
}

#[test]
fn test_pattern_has_border_crosshair_and_ground() {
    assert_eq!((PATTERN_BORDER, PATTERN_INDICATOR_Y, PATTERN_INDICATOR_SIZE), (20, 100, 50));
    let (w, h) = (200usize, 300usize);
    let data = pattern(200, 300, 0);
    assert_eq!(pixel(&data, w, 0, 0), WHITE);
    assert_eq!(pixel(&data, w, 19, 150), WHITE);
    assert_eq!(pixel(&data, w, 180, 150), WHITE);
    assert_eq!(pixel(&data, w, 199, 299), WHITE);
    assert_eq!(pixel(&data, w, 100, 19), WHITE);
    assert_eq!(pixel(&data, w, 100, 280), WHITE);
    assert_eq!(pixel(&data, w, 179, 279), [50, 50, 50, 255]);
    assert_eq!(pixel(&data, w, 20, 20), [50, 50, 50, 255]);
    // the cross: columns 99..=101 between the quarter rows, rows 149..=151
    // between the quarter columns
    assert_eq!(pixel(&data, w, 100, 150), RED);
    assert_eq!(pixel(&data, w, 99, 76), RED);
    assert_eq!(pixel(&data, w, 101, 224), RED);
    assert_eq!(pixel(&data, w, 98, 76), [50, 50, 50, 255]);
    assert_eq!(pixel(&data, w, 102, 200), [50, 50, 50, 255]);
    assert_eq!(pixel(&data, w, 100, 75), [50, 50, 50, 255]);
    assert_eq!(pixel(&data, w, 100, 225), [50, 50, 50, 255]);
    assert_eq!(pixel(&data, w, 51, 150), RED);
    assert_eq!(pixel(&data, w, 149, 151), RED);
    assert_eq!(pixel(&data, w, 50, 150), [50, 50, 50, 255]);
    assert_eq!(pixel(&data, w, 150, 150), [50, 50, 50, 255]);
    assert_eq!(pixel(&data, w, 60, 148), [50, 50, 50, 255]);
    assert_eq!(data.len(), w * h * 4);
}

#[test]
fn test_pattern_square_moves_five_pixels_a_frame() {
    let w = 200usize;
    // frame 6: the square's left edge is column 30, it covers 31..=79
    let data = pattern(200, 300, 6);
    assert_eq!(pixel(&data, w, 31, 101), GREEN);
    assert_eq!(pixel(&data, w, 79, 148), GREEN);
    assert_eq!(pixel(&data, w, 79, 149), RED);
    assert_eq!(pixel(&data, w, 30, 120), [50, 50, 50, 255]);
    assert_eq!(pixel(&data, w, 80, 120), [50, 50, 50, 255]);
    assert_eq!(pixel(&data, w, 50, 100), [50, 50, 50, 255]);
    assert_eq!(pixel(&data, w, 50, 150), [50, 50, 50, 255]);
    // the cross lies over the square
    let data = pattern(200, 300, 12);
    assert_eq!(pixel(&data, w, 100, 120), RED);
    assert_eq!(pixel(&data, w, 90, 120), GREEN);
    // frame 30: 150 mod (200 - 50) is 0, the square is back at the left
    let data = pattern(200, 300, 30);
    assert_eq!(pixel(&data, w, 21, 120), GREEN);
    assert_eq!(pixel(&data, w, 49, 120), GREEN);
    assert_eq!(pixel(&data, w, 50, 120), [100, 50, 50, 255]);
    // a large frame number
    let data = pattern(200, 300, u32::MAX);
    let left = ((u32::MAX as u64 * 5) % 150) as usize;
    assert_eq!(left, 75);
    assert_eq!(pixel(&data, w, left + 1, 120), GREEN);
    assert_eq!(pixel(&data, w, left, 120), [50, 100, 50, 255]);
}

#[test]
fn test_pattern_ground_changes_every_thirty_frames() {
    let grounds = [
        [50, 50, 50, 255],
        [100, 50, 50, 255],
        [50, 100, 50, 255],
        [50, 50, 100, 255],
        [100, 100, 50, 255],
        [50, 100, 100, 255],
    ];
    for (phase, ground) in grounds.iter().enumerate() {
        for frame in [phase as u32 * 30, phase as u32 * 30 + 29, phase as u32 * 30 + 180] {
            let data = pattern(100, 100, frame);
            assert_eq!(pixel(&data, 100, 30, 30), *ground);
        }
    }
}

#[test]
fn small_pictures_are_all_border() {
    for (w, h) in [(1, 1), (2, 2), (40, 40), (50, 10), (10, 50), (39, 200)] {
        let data = pattern(w, h, 3);
        assert_eq!(data.len(), (w * h * 4) as usize);
        assert!(data.iter().all(|b| *b == 255));
    }
    let data = pattern(41, 41, 0);
    assert_eq!(pixel(&data, 41, 20, 20), RED);
    assert_eq!(data.iter().filter(|b| **b != 255).count(), 2);
    let data = pattern(50, 200, 0);
    assert!(data.chunks(4).all(|p| p != GREEN));
    let data = pattern(51, 200, 7);
    assert_eq!(pixel(&data, 51, 20, 120), GREEN);
    assert_eq!(pixel(&data, 51, 30, 120), GREEN);
    let data = pattern(72, 200, 1);
    assert_eq!(pixel(&data, 72, 20, 120), GREEN);
}

#[test]
fn test_pattern_draws_only_whole_pixels_that_fit() {
    let mut data = vec![7u8; 10];
    generate_test_pattern(&mut data, 3, 3, 0);
    assert_eq!(data, vec![255, 255, 255, 255, 255, 255, 255, 255, 7, 7]);
    let mut data = vec![7u8; 10];
    generate_test_pattern(&mut data, 1, 1, 0);
    assert_eq!(data, vec![255, 255, 255, 255, 7, 7, 7, 7, 7, 7]);
    let mut data = vec![7u8; 3];
    generate_test_pattern(&mut data, 5, 5, 0);
    assert_eq!(data, vec![7, 7, 7]);
    for (w, h) in [(0, 4), (4, 0), (-1, 4), (4, -1), (-2, -2), (i32::MIN, i32::MIN)] {
        let mut data = vec![7u8; 8];
        generate_test_pattern(&mut data, w, h, 0);
        assert_eq!(data, vec![7u8; 8]);
    }
    let mut data = vec![7u8; 16];
    generate_test_pattern(&mut data, i32::MAX, i32::MAX, 0);
    assert_eq!(data, vec![255u8; 16]);
    let mut empty: Vec<u8> = Vec::new();
    generate_test_pattern(&mut empty, 4, 4, 0);
    assert!(empty.is_empty());
}

#[test]
fn framebuffer_cell_takes_the_latest_picture() {
    let mut cell = FramebufferData::default();
    assert!(cell.data.is_empty());
    assert_eq!((cell.width, cell.height, cell.dirty), (0, 0, false));
    assert!(!cell.is_usable());
    cell.update(&[1, 2, 3, 4], 1, 1);
    assert_eq!(cell.data, vec![1, 2, 3, 4]);
    assert_eq!((cell.width, cell.height, cell.dirty), (1, 1, true));
    assert!(cell.is_usable());
    cell.update(&[9; 8], 2, 1);
    assert_eq!(cell.data, vec![9; 8]);
    assert_eq!((cell.width, cell.height), (2, 1));
    cell.update(&[9; 8], 0, 1);
    assert!(!cell.is_usable());
    cell.update(&[9; 8], 1, 0);
    assert!(!cell.is_usable());
    cell.update(&[], 1, 1);
    assert!(!cell.is_usable());
    let copy = cell.clone();
    assert_eq!(copy.data, cell.data);
}

#[test]
fn streamer_starts_once() {
    let mut streamer = FrameStreamer::new(4, 2, "/rootfs");
    assert_eq!(streamer.framebuffer_path(), "/rootfs/dev/graphics/fb0");
    assert!(!streamer.is_running());
    assert!(streamer.start());
    assert!(!streamer.start());
    assert!(!streamer.start());
    assert!(streamer.is_running());
    streamer.stop();
    assert!(!streamer.is_running());
    assert!(streamer.start());
}

#[test]
fn viewers_are_kept_in_the_order_they_came() {
    let mut streamer = FrameStreamer::new(4, 2, "/r");
    assert!(streamer.clients().is_empty());
    for id in [5, 3, 9, 3, 1] {
        streamer.add_client(id);
    }
    assert_eq!(*streamer.clients(), vec![5, 3, 9, 3, 1]);
    streamer.remove_client(9);
    assert_eq!(*streamer.clients(), vec![5, 3, 3, 1]);
    streamer.remove_client(3);
    assert_eq!(*streamer.clients(), vec![5, 1]);
    streamer.remove_client(42);
    assert_eq!(*streamer.clients(), vec![5, 1]);
    streamer.remove_client(5);
    streamer.remove_client(1);
    assert!(streamer.clients().is_empty());
}

#[test]
fn the_guests_picture_comes_first() {
    let mut streamer = FrameStreamer::new(1080, 1920, "/r");
    assert!(streamer.latest_frame().is_none());
    streamer.frame_presented(&[0xab; 32], 4, 2);
    let frame = streamer.latest_frame().unwrap();
    assert_eq!(frame.data, vec![0xab; 32]);
    assert_eq!((frame.width, frame.height), (4, 2));
    let cell = streamer.get_framebuffer_data();
    assert_eq!((cell.width, cell.height, cell.dirty), (4, 2, true));
    streamer.frame_presented(&[1, 2, 3], 0x8000_0000, 1);
    let frame = streamer.latest_frame().unwrap();
    assert_eq!((frame.width, frame.height), (i32::MIN, 1));
    streamer.frame_presented(&[], 4, 2);
    assert!(streamer.latest_frame().is_none());
    streamer.frame_presented(&[1], 0, 2);
    assert!(streamer.latest_frame().is_none());
}

#[test]
fn fallback_is_the_device_and_then_the_test_picture() {
    let mut streamer = FrameStreamer::new(2, 2, "/r");
    assert_eq!(streamer.frame_size(), 16);
    let frame = streamer.fallback_frame(Some(vec![3u8; 16]));
    assert_eq!(frame.data, vec![3u8; 16]);
    assert_eq!((frame.width, frame.height), (2, 2));
    let frame = streamer.fallback_frame(None);
    assert_eq!(frame.data, vec![255u8; 16]);
    assert_eq!((frame.width, frame.height), (2, 2));
    let frame = streamer.fallback_frame(Some(vec![3u8; 15]));
    assert_eq!(frame.data, vec![255u8; 16]);
    let mut scratch = vec![0u8; 16];
    let bytes = read_framebuffer_or_test_pattern(Some(vec![8u8; 16]), &mut scratch, 2, 2, 0, 16);
    assert_eq!(bytes, vec![8u8; 16]);
    assert_eq!(scratch, vec![0u8; 16]);
    let bytes = read_framebuffer_or_test_pattern(None, &mut scratch, 2, 2, 0, 16);
    assert_eq!(bytes, vec![255u8; 16]);
    assert_eq!(scratch, vec![255u8; 16]);
}

#[test]
fn sources_are_taken_in_order() {
    let mut streamer = FrameStreamer::new(2, 2, "/r");
    assert!(streamer.needs_fallback());
    let frame = streamer.next_frame(None);
    assert_eq!(frame.data, vec![255u8; 16]);
    assert_eq!((frame.width, frame.height), (2, 2));
    let frame = streamer.next_frame(Some(vec![4u8; 16]));
    assert_eq!(frame.data, vec![4u8; 16]);
    assert_eq!((frame.width, frame.height), (2, 2));
    streamer.frame_presented(&[7u8; 4], 1, 1);
    assert!(!streamer.needs_fallback());
    let frame = streamer.next_frame(Some(vec![4u8; 16]));
    assert_eq!(frame.data, vec![7u8; 4]);
    assert_eq!((frame.width, frame.height), (1, 1));
    let frame = streamer.next_frame(None);
    assert_eq!(frame.data, vec![7u8; 4]);
    streamer.frame_presented(&[], 1, 1);
    assert!(streamer.needs_fallback());
    assert_eq!(streamer.next_frame(None).data, vec![255u8; 16]);
}

#[test]
fn test_picture_follows_the_tick_count() {
    let mut streamer = FrameStreamer::new(100, 100, "/r");
    let first = streamer.fallback_frame(None);
    assert_eq!(pixel(&first.data, 100, 30, 30), [50, 50, 50, 255]);
    for _ in 0..30 {
        streamer.finish_tick();
    }
    let later = streamer.fallback_frame(None);
    assert_eq!(pixel(&later.data, 100, 30, 30), [100, 50, 50, 255]);
    assert_eq!(later.data.len(), 40_000);
    assert_eq!(later.data, pattern(100, 100, 30));
}

#[test]
fn frame_broadcast_fanout() {
    let mut server = GrallocServer::new("/rootfs/dev/gralloc", 1080, 1920);
    let mut streamer = FrameStreamer::new(1080, 1920, "/rootfs");
    for viewer in [1, 2, 3] {
        streamer.add_client(viewer);
    }
    let allocate =
        GrallocRequest { command: 1, width: 4, height: 2, format: 1, ..GrallocRequest::default() };
    let id = server.handle_allocate(&allocate).buffer_id;
    let unlock = GrallocRequest { command: 4, buffer_id: id, size: 32, ..GrallocRequest::default() };
    server.handle_unlock_with_data(&unlock, &[0xab; 32]);
    let present = GrallocRequest { command: 7, buffer_id: id, ..GrallocRequest::default() };
    let shown = server.handle_present(&present).frame.unwrap();
    streamer.frame_presented(&shown.data, shown.width, shown.height);

    let frame = streamer.latest_frame().unwrap();
    let packet = packet_of(&frame.data, frame.width, frame.height);
    let mut received: Vec<(u64, Vec<u8>)> = Vec::new();
    for viewer in streamer.clients().iter() {
        received.push((*viewer, packet.clone()));
    }
    streamer.finish_tick();
    assert_eq!(received.iter().map(|r| r.0).collect::<Vec<u64>>(), vec![1, 2, 3]);
    for (_, bytes) in &received {
        let header = FrameHeader::from_bytes(bytes).unwrap();
        assert_eq!(header, FrameHeader { width: 4, height: 2, length: 32 });
        assert_eq!(&bytes[..5], b"FRAME");
        assert_eq!(&bytes[17..], &[0xab; 32]);
        assert_eq!(bytes.len(), 17 + 32);
    }
}

#[test]
fn ticks_on_time_are_one_interval_apart() {
    assert_eq!(first_deadline(0), 33);
    assert_eq!(first_deadline(1000), 1033);
    assert_eq!(first_deadline(u64::MAX), u64::MAX);
    assert_eq!(plan_tick(33, 5), TickPlan { pause_ms: 28, next_deadline_ms: 66 });
    assert_eq!(plan_tick(33, 33), TickPlan { pause_ms: 0, next_deadline_ms: 66 });
    assert_eq!(plan_tick(33, 40), TickPlan { pause_ms: 0, next_deadline_ms: 73 });
    assert_eq!(
        plan_tick(u64::MAX, 7),
        TickPlan { pause_ms: u64::MAX - 7, next_deadline_ms: u64::MAX }
    );
    // a worker whose ticks take 20 ms each makes 303 ticks in ten seconds
    let mut now = 0u64;
    let mut deadline = first_deadline(now);
    let mut ticks = 0u64;
    while now < 10_000 {
        ticks += 1;
        now += 20;
        let plan = plan_tick(deadline, now);
        now += plan.pause_ms;
        deadline = plan.next_deadline_ms;
    }
    assert!(ticks >= 10 * 30 - 3);
    assert_eq!(ticks, 304);
}

#[test]
fn fallback_pictures_have_the_screens_size() {
    let mut streamer = FrameStreamer::new(3, 2, "/r");
    for device in [None, Some(vec![1u8; 24]), Some(vec![1u8; 23]), Some(Vec::new()), None] {
        let frame = streamer.next_frame(device);
        assert_eq!(frame.data.len(), 24);
        assert_eq!((frame.width, frame.height), (3, 2));
        streamer.finish_tick();
        streamer.add_client(1);
        streamer.frame_presented(&[], 0, 0);
    }
    let mut none = FrameStreamer::new(0, 5, "/r");
    assert_eq!(none.next_frame(None).data.len(), 0);
    assert_eq!(none.next_frame(Some(Vec::new())).data.len(), 0);
}
