use twoyi_server::control::{
    control_input, handle_input_event, low32_of, status_record, ControlFields, ControlInput,
};
use twoyi_server::event::Timestamp;
use twoyi_server::input::start_input_system;
use twoyi_server::protocol::ServerMessage;

const NOW: Timestamp = Timestamp { sec: 1, usec: 2 };

fn fields(kind: Option<&str>) -> ControlFields {
    ControlFields {
        kind: kind.map(|k| k.to_string()),
        action: None,
        pointer_id: None,
        x: None,
        y: None,
        pressure: None,
        keycode: None,
    }
}

#[test]
fn viewer_is_greeted_with_the_status() {
    let r = status_record(1080, 1920, "/data/rootfs", false, "0.0.0.0:5556");
    assert_eq!((r.width, r.height), (1080, 1920));
    assert_eq!(r.rootfs, "/data/rootfs");
    assert_eq!(r.status, "running");
    assert!(r.streaming);
    assert_eq!(r.adb_address, "0.0.0.0:5556");
    assert_eq!(r.display_mode, "fake_gralloc");
    let r = status_record(1, 2, "", true, "");
    assert_eq!(r.status, "setup");
    assert!(r.streaming);
}

#[test]
fn touch_message_with_all_fields() {
    let mut f = fields(Some("touch"));
    f.action = Some(5);
    f.pointer_id = Some(2);
    f.x = Some(100);
    f.y = Some(200);
    f.pressure = Some(50);
    assert_eq!(
        control_input(&f),
        ControlInput::Touch { action: 5, pointer_id: 2, x: 100, y: 200, pressure: 50 }
    );
}

#[test]
fn missing_fields_have_defaults() {
    assert_eq!(
        control_input(&fields(Some("touch"))),
        ControlInput::Touch { action: 0, pointer_id: 0, x: 0, y: 0, pressure: 1 }
    );
    assert_eq!(control_input(&fields(Some("key"))), ControlInput::Key { keycode: 0 });
    let mut f = fields(Some("key"));
    f.keycode = Some(158);
    f.action = Some(3);
    assert_eq!(control_input(&f), ControlInput::Key { keycode: 158 });
}

#[test]
fn other_messages_ask_for_nothing() {
    assert_eq!(control_input(&fields(None)), ControlInput::Other);
    for kind in ["", "Touch", "touch ", "keys", "ping", "TouchEvent"] {
        let mut f = fields(Some(kind));
        f.action = Some(0);
        f.keycode = Some(4);
        assert_eq!(control_input(&f), ControlInput::Other);
    }
}

#[test]
fn wide_numbers_keep_their_low_bits() {
    assert_eq!(low32_of(0), 0);
    assert_eq!(low32_of(-1), -1);
    assert_eq!(low32_of(0x7fff_ffff), i32::MAX);
    assert_eq!(low32_of(0x8000_0000), i32::MIN);
    assert_eq!(low32_of(0x1_0000_0005), 5);
    assert_eq!(low32_of(-0x1_0000_0000), 0);
    assert_eq!(low32_of(i64::MAX), -1);
    assert_eq!(low32_of(i64::MIN), 0);
    for v in [1i64, -2, 123_456_789_012, -123_456_789_012, 0xffff_ffff, -0x8000_0001] {
        assert_eq!(low32_of(v), v as i32);
    }
    let mut f = fields(Some("touch"));
    f.action = Some(0x1_0000_0002);
    f.pointer_id = Some(-1);
    assert_eq!(
        control_input(&f),
        ControlInput::Touch { action: 2, pointer_id: -1, x: 0, y: 0, pressure: 1 }
    );
}

#[test]
fn messages_reach_their_device() {
    let mut sys = start_input_system(1080, 1920, "/r");
    sys.touch.device.accept();
    sys.key.accept();
    let touch = ControlInput::Touch { action: 0, pointer_id: 0, x: 100, y: 200, pressure: 50 };
    let out = handle_input_event(&touch, &mut sys, NOW);
    assert_eq!(out.touch.len(), 8);
    assert!(out.key.is_empty());
    assert!(sys.touch.state.is_active(0));
    let out = handle_input_event(&ControlInput::Key { keycode: 4 }, &mut sys, NOW);
    assert!(out.touch.is_empty());
    assert_eq!(
        out.key.iter().map(|e| (e.kind, e.code, e.value)).collect::<Vec<_>>(),
        vec![(1, 4, 1), (0, 0, 0), (1, 4, 0), (0, 0, 0)]
    );
    let out = handle_input_event(&ControlInput::Other, &mut sys, NOW);
    assert!(out.touch.is_empty() && out.key.is_empty());
    assert!(sys.touch.state.is_active(0));
}

#[test]
fn messages_without_a_consumer_are_dropped() {
    let mut sys = start_input_system(1080, 1920, "/r");
    let touch = ControlInput::Touch { action: 0, pointer_id: 0, x: 1, y: 2, pressure: 3 };
    let out = handle_input_event(&touch, &mut sys, NOW);
    assert!(out.touch.is_empty() && out.key.is_empty());
    assert!(!sys.touch.state.is_active(0));
    let out = handle_input_event(&ControlInput::Key { keycode: 4 }, &mut sys, NOW);
    assert!(out.touch.is_empty() && out.key.is_empty());
}

#[test]
fn server_messages_hold_their_fields() {
    let status = ServerMessage::Status {
        container_running: true,
        rootfs_path: "/r".to_string(),
        width: 1,
        height: 2,
    };
    assert!(matches!(
        status,
        ServerMessage::Status { container_running: true, width: 1, height: 2, .. }
    ));
    let error = ServerMessage::Error { message: "no".to_string() };
    assert!(matches!(error, ServerMessage::Error { .. }));
    let plain = [ServerMessage::ContainerStarted, ServerMessage::Okay, ServerMessage::Pong];
    assert_eq!(plain.len(), 3);
}
