use twoyi_server::device::generate_key_device;
use twoyi_server::event::{
    InputEvent, Timestamp, ABS_MT_POSITION_X, ABS_MT_POSITION_Y, ABS_MT_PRESSURE, ABS_MT_SLOT,
    ABS_MT_TRACKING_ID, BTN_TOOL_FINGER, BTN_TOUCH, EV_ABS, EV_KEY, EV_SYN, SYN_REPORT,
};
use twoyi_server::input::{handle_touch_event, send_key_code, start_input_system, InputDevice};
use twoyi_server::touch::{
    key_event, key_tap, TouchAction, TouchState, ACTION_CANCEL, ACTION_DOWN, ACTION_MOVE,
    ACTION_POINTER_DOWN, ACTION_POINTER_UP, ACTION_UP, BUTTON_DOWN, MAX_POINTERS,
};

const NOW: Timestamp = Timestamp { sec: 12, usec: 345 };

fn triples(events: &[InputEvent]) -> Vec<(i32, i32, i32)> {
    events.iter().map(|e| (e.kind as i32, e.code as i32, e.value)).collect()
}

fn active(state: &TouchState) -> Vec<bool> {
    (0..5).map(|i| state.is_active(i)).collect()
}

#[test]
fn touch_tap_at_100_200() {
    let mut state = TouchState::new();
    let down = state.apply(NOW, ACTION_DOWN, 0, 100, 200, 50);
    assert_eq!(
        triples(&down),
        vec![
            (EV_ABS, ABS_MT_SLOT, 0),
            (EV_ABS, ABS_MT_TRACKING_ID, 1),
            (EV_KEY, BTN_TOUCH, 108),
            (EV_KEY, BTN_TOOL_FINGER, 108),
            (EV_ABS, ABS_MT_POSITION_X, 100),
            (EV_ABS, ABS_MT_POSITION_Y, 200),
            (EV_ABS, ABS_MT_PRESSURE, 50),
            (EV_SYN, SYN_REPORT, 0),
        ]
    );
    assert!(state.is_active(0));
    let up = state.apply(NOW, ACTION_UP, 0, 0, 0, 0);
    assert_eq!(
        triples(&up),
        vec![(EV_ABS, ABS_MT_SLOT, 0), (EV_ABS, ABS_MT_TRACKING_ID, -1), (EV_SYN, SYN_REPORT, 0)]
    );
    assert!(!state.is_active(0));
    assert_eq!(BUTTON_DOWN, 108);
}

#[test]
fn multi_touch_move_on_inactive_slot() {
    let mut state = TouchState::new();
    assert!(state.apply(NOW, ACTION_MOVE, 1, 10, 20, 30).is_empty());
    assert_eq!(active(&state), vec![false; 5]);
    state.apply(NOW, ACTION_DOWN, 0, 1, 1, 1);
    assert!(state.apply(NOW, ACTION_MOVE, 1, 10, 20, 30).is_empty());
    assert_eq!(active(&state), vec![true, false, false, false, false]);
}

#[test]
fn events_carry_the_time_they_were_made() {
    let mut state = TouchState::new();
    let events = state.apply(NOW, ACTION_DOWN, 0, 1, 2, 3);
    assert!(events.iter().all(|e| e.time_sec == 12 && e.time_usec == 345));
    let keys = key_tap(Timestamp { sec: -1, usec: 7 }, 3);
    assert!(keys.iter().all(|e| e.time_sec == -1 && e.time_usec == 7));
}

#[test]
fn second_finger_goes_down_without_buttons() {
    let mut state = TouchState::new();
    state.apply(NOW, ACTION_DOWN, 0, 1, 1, 1);
    let second = state.apply(NOW, ACTION_POINTER_DOWN, 2, 300, 400, 60);
    assert_eq!(
        triples(&second),
        vec![
            (EV_ABS, ABS_MT_SLOT, 2),
            (EV_ABS, ABS_MT_TRACKING_ID, 3),
            (EV_ABS, ABS_MT_POSITION_X, 300),
            (EV_ABS, ABS_MT_POSITION_Y, 400),
            (EV_ABS, ABS_MT_PRESSURE, 60),
            (EV_SYN, SYN_REPORT, 0),
        ]
    );
    assert_eq!(active(&state), vec![true, false, true, false, false]);
}

#[test]
fn move_of_a_finger_that_is_down() {
    let mut state = TouchState::new();
    state.apply(NOW, ACTION_POINTER_DOWN, 4, 1, 1, 1);
    let moved = state.apply(NOW, ACTION_MOVE, 4, -5, 7, 80);
    assert_eq!(
        triples(&moved),
        vec![
            (EV_ABS, ABS_MT_SLOT, 4),
            (EV_ABS, ABS_MT_POSITION_X, -5),
            (EV_ABS, ABS_MT_POSITION_Y, 7),
            (EV_ABS, ABS_MT_PRESSURE, 80),
            (EV_SYN, SYN_REPORT, 0),
        ]
    );
    assert_eq!(active(&state), vec![false, false, false, false, true]);
}

#[test]
fn pointer_up_lifts_only_its_finger() {
    let mut state = TouchState::new();
    state.apply(NOW, ACTION_DOWN, 0, 1, 1, 1);
    state.apply(NOW, ACTION_POINTER_DOWN, 1, 1, 1, 1);
    let up = state.apply(NOW, ACTION_POINTER_UP, 1, 0, 0, 0);
    assert_eq!(
        triples(&up),
        vec![(EV_ABS, ABS_MT_SLOT, 1), (EV_ABS, ABS_MT_TRACKING_ID, -1), (EV_SYN, SYN_REPORT, 0)]
    );
    assert_eq!(active(&state), vec![true, false, false, false, false]);
    assert!(state.apply(NOW, ACTION_POINTER_UP, 1, 0, 0, 0).is_empty());
    assert!(state.apply(NOW, ACTION_POINTER_UP, 3, 0, 0, 0).is_empty());
    assert_eq!(active(&state), vec![true, false, false, false, false]);
}

#[test]
fn up_and_cancel_lift_every_finger_lowest_first() {
    for action in [ACTION_UP, ACTION_CANCEL] {
        let mut state = TouchState::new();
        state.apply(NOW, ACTION_POINTER_DOWN, 3, 1, 1, 1);
        state.apply(NOW, ACTION_DOWN, 0, 1, 1, 1);
        state.apply(NOW, ACTION_POINTER_DOWN, 1, 1, 1, 1);
        let up = state.apply(NOW, action, 3, 9, 9, 9);
        assert_eq!(
            triples(&up),
            vec![
                (EV_ABS, ABS_MT_SLOT, 0),
                (EV_ABS, ABS_MT_TRACKING_ID, -1),
                (EV_SYN, SYN_REPORT, 0),
                (EV_ABS, ABS_MT_SLOT, 1),
                (EV_ABS, ABS_MT_TRACKING_ID, -1),
                (EV_SYN, SYN_REPORT, 0),
                (EV_ABS, ABS_MT_SLOT, 3),
                (EV_ABS, ABS_MT_TRACKING_ID, -1),
                (EV_SYN, SYN_REPORT, 0),
            ]
        );
        assert_eq!(active(&state), vec![false; 5]);
        assert!(state.apply(NOW, action, 0, 0, 0, 0).is_empty());
    }
}

#[test]
fn pointers_that_name_no_slot_are_dropped() {
    let mut state = TouchState::new();
    for pointer in [-1, 5, 6, i32::MAX, i32::MIN] {
        assert!(state.apply(NOW, ACTION_DOWN, pointer, 1, 1, 1).is_empty());
        assert!(state.apply(NOW, ACTION_POINTER_DOWN, pointer, 1, 1, 1).is_empty());
        assert!(state.apply(NOW, ACTION_MOVE, pointer, 1, 1, 1).is_empty());
        assert!(state.apply(NOW, ACTION_POINTER_UP, pointer, 1, 1, 1).is_empty());
        assert!(!state.is_active(pointer));
    }
    assert_eq!(active(&state), vec![false; 5]);
    state.apply(NOW, ACTION_DOWN, 2, 1, 1, 1);
    let up = state.apply(NOW, ACTION_UP, 77, 0, 0, 0);
    assert_eq!(up.len(), 3);
    assert_eq!(active(&state), vec![false; 5]);
}

#[test]
fn unknown_actions_change_nothing() {
    let mut state = TouchState::new();
    state.apply(NOW, ACTION_DOWN, 1, 1, 1, 1);
    for action in [4, 7, -1, 100, i32::MIN] {
        assert!(state.apply(NOW, action, 1, 1, 1, 1).is_empty());
        assert_eq!(active(&state), vec![false, true, false, false, false]);
    }
}

#[test]
fn every_batch_ends_with_a_report() {
    let mut state = TouchState::new();
    let script = [
        (ACTION_DOWN, 0),
        (ACTION_POINTER_DOWN, 1),
        (ACTION_MOVE, 1),
        (ACTION_MOVE, 3),
        (ACTION_POINTER_DOWN, 4),
        (ACTION_POINTER_UP, 1),
        (ACTION_POINTER_UP, 1),
        (ACTION_CANCEL, 0),
        (ACTION_UP, 0),
        (9, 0),
    ];
    for (action, pointer) in script {
        let events = state.apply(NOW, action, pointer, 5, 6, 7);
        if let Some(last) = events.last() {
            assert_eq!((last.kind, last.code, last.value), (0, 0, 0));
        }
    }
}

#[test]
fn slot_is_active_after_its_last_command_was_a_press() {
    let scripts: [&[(i32, i32)]; 5] = [
        &[(ACTION_DOWN, 0), (ACTION_DOWN, 0), (ACTION_POINTER_UP, 0)],
        &[(ACTION_DOWN, 0), (ACTION_POINTER_DOWN, 1), (ACTION_UP, 0)],
        &[(ACTION_UP, 0), (ACTION_POINTER_DOWN, 2), (ACTION_MOVE, 2), (ACTION_MOVE, 1)],
        &[(ACTION_POINTER_DOWN, 3), (ACTION_POINTER_UP, 3), (ACTION_POINTER_DOWN, 3)],
        &[(ACTION_POINTER_DOWN, 4), (ACTION_CANCEL, 1), (ACTION_POINTER_UP, 4)],
    ];
    for script in scripts {
        let mut state = TouchState::new();
        for (action, pointer) in script {
            state.apply(NOW, *action, *pointer, 0, 0, 0);
        }
        for slot in 0..5i32 {
            let mut expected = false;
            for (action, pointer) in script {
                let press = (*action == ACTION_DOWN || *action == ACTION_POINTER_DOWN)
                    && *pointer == slot;
                let release = *action == ACTION_UP
                    || *action == ACTION_CANCEL
                    || (*action == ACTION_POINTER_UP && *pointer == slot);
                if press {
                    expected = true;
                } else if release {
                    expected = false;
                }
            }
            assert_eq!(state.is_active(slot), expected);
        }
    }
}

#[test]
fn presses_and_releases_that_take_turns_can_be_counted() {
    let script = [
        (ACTION_DOWN, 0),
        (ACTION_POINTER_DOWN, 1),
        (ACTION_MOVE, 0),
        (ACTION_POINTER_UP, 1),
        (ACTION_POINTER_DOWN, 1),
        (ACTION_UP, 0),
        (ACTION_DOWN, 0),
    ];
    let mut state = TouchState::new();
    for (action, pointer) in script {
        state.apply(NOW, action, pointer, 0, 0, 0);
    }
    for slot in [0, 1] {
        let presses = script
            .iter()
            .filter(|(a, p)| (*a == ACTION_DOWN || *a == ACTION_POINTER_DOWN) && *p == slot)
            .count();
        let releases = script
            .iter()
            .filter(|(a, p)| *a == ACTION_UP || *a == ACTION_CANCEL || (*a == ACTION_POINTER_UP && *p == slot))
            .count();
        assert_eq!(state.is_active(slot), presses > releases);
    }
    assert!(state.is_active(0));
    assert!(!state.is_active(1));
}

#[test]
fn action_names_and_numbers() {
    assert_eq!(MAX_POINTERS, 5);
    assert_eq!(
        [ACTION_DOWN, ACTION_UP, ACTION_MOVE, ACTION_CANCEL, ACTION_POINTER_DOWN, ACTION_POINTER_UP],
        [0, 1, 2, 3, 5, 6]
    );
    let all = [
        TouchAction::Down,
        TouchAction::Up,
        TouchAction::Move,
        TouchAction::Cancel,
        TouchAction::PointerDown,
        TouchAction::PointerUp,
    ];
    for action in all {
        assert_eq!(TouchAction::from_code(action.to_code()), Some(action));
    }
    assert_eq!(TouchAction::PointerDown.to_code(), 5);
    assert_eq!(TouchAction::from_code(4), None);
    assert_eq!(TouchAction::from_code(-1), None);
    assert_eq!(TouchAction::from_code(7), None);
}

#[test]
fn key_press_and_release() {
    assert_eq!(triples(&key_event(NOW, 4, true)), vec![(EV_KEY, 4, 1), (EV_SYN, SYN_REPORT, 0)]);
    assert_eq!(triples(&key_event(NOW, 4, false)), vec![(EV_KEY, 4, 0), (EV_SYN, SYN_REPORT, 0)]);
    assert_eq!(
        triples(&key_tap(NOW, 158)),
        vec![(EV_KEY, 158, 1), (EV_SYN, SYN_REPORT, 0), (EV_KEY, 158, 0), (EV_SYN, SYN_REPORT, 0)]
    );
}

#[test]
fn key_codes_keep_their_low_sixteen_bits() {
    assert_eq!(key_event(NOW, 0x1_0004, true)[0].code, 4);
    assert_eq!(key_event(NOW, -1, true)[0].code, 0xffff);
    assert_eq!(key_event(NOW, i32::MIN, true)[0].code, 0);
    assert_eq!(key_event(NOW, 0xffff, true)[0].code, 0xffff);
}

#[test]
fn touch_without_a_consumer_is_dropped() {
    let mut sys = start_input_system(1080, 1920, "/rootfs");
    assert!(handle_touch_event(&mut sys.touch, NOW, ACTION_DOWN, 0, 1, 2, 3).is_empty());
    assert!(!sys.touch.state.is_active(0));
    let (session, _) = sys.touch.device.accept();
    assert_eq!(session, 0);
    assert_eq!(handle_touch_event(&mut sys.touch, NOW, ACTION_DOWN, 0, 1, 2, 3).len(), 8);
    assert!(sys.touch.state.is_active(0));
    sys.touch.device.disconnect(session);
    assert!(handle_touch_event(&mut sys.touch, NOW, ACTION_UP, 0, 0, 0, 0).is_empty());
    assert!(sys.touch.state.is_active(0));
}

#[test]
fn key_without_a_consumer_is_dropped() {
    let mut key = InputDevice::new(generate_key_device("/rootfs/dev/input/key0"));
    assert!(send_key_code(&key, NOW, 3).is_empty());
    key.accept();
    assert_eq!(
        triples(&send_key_code(&key, NOW, 3)),
        vec![(EV_KEY, 3, 1), (EV_SYN, SYN_REPORT, 0), (EV_KEY, 3, 0), (EV_SYN, SYN_REPORT, 0)]
    );
}

#[test]
fn a_new_consumer_takes_the_place_of_the_old() {
    let mut key = InputDevice::new(generate_key_device("/k"));
    assert_eq!(key.consumer(), None);
    assert!(!key.is_attached());
    let (first, greeting) = key.accept();
    assert_eq!(greeting, key.info().to_bytes());
    assert_eq!(key.consumer(), Some(first));
    let (second, again) = key.accept();
    assert_eq!(again, greeting);
    assert_ne!(first, second);
    assert_eq!(key.consumer(), Some(second));
    key.disconnect(first);
    assert_eq!(key.consumer(), Some(second));
    key.disconnect(second);
    assert_eq!(key.consumer(), None);
    key.disconnect(second);
    assert_eq!(key.consumer(), None);
}

#[test]
fn input_system_knows_its_paths() {
    let sys = start_input_system(720, 1280, "/data/rootfs");
    assert_eq!(sys.input_dir, "/data/rootfs/dev/input");
    assert_eq!(sys.touch_path, "/data/rootfs/dev/input/touch");
    assert_eq!(sys.key_path, "/data/rootfs/dev/input/key0");
    assert!(!sys.touch.device.is_attached());
    assert!(!sys.key.is_attached());
    assert_eq!(&sys.touch.device.info().name[..7], b"vtouch\0");
    assert_eq!(&sys.key.info().name[..5], b"vkey\0");
    assert_eq!(&sys.touch.device.info().physical_location[..29], b"/data/rootfs/dev/input/touch\0");
    assert_eq!(&sys.key.info().physical_location[..28], b"/data/rootfs/dev/input/key0\0");
}
