//! The two virtual input devices and the consumer that each one serves.
//!
//! A device serves one consumer at a time: the guest's input reader, which
//! connects to the device's socket. A consumer that connects takes the place
//! of the one before it. Events made while nobody is connected are dropped.

use crate::device::{
    generate_key_device, generate_touch_device, is_key_device, is_touch_device, DeviceInfo,
};
use crate::event::{InputEvent, Timestamp};
use crate::touch::{key_tap, key_tap_events, no_fingers, touch_events, touch_next, TouchState};
use vstd::prelude::*;
use vstd::string::StringExecFns;
use vstd::utf8::encode_utf8;

verus! {

/// A device and its consumer as values.
pub struct DeviceModel {
    pub info: DeviceInfo,
    pub consumer: Option<u64>,
    pub accepted: u64,
}

impl DeviceModel {
    /// The number that the next consumer gets.
    pub open spec fn next_session(self) -> u64 {
        self.accepted
    }

    /// The device after a consumer connected: it is the one served now.
    pub open spec fn accept(self) -> DeviceModel {
        DeviceModel {
            consumer: Some(self.accepted),
            accepted: if self.accepted == u64::MAX {
                0
            } else {
                (self.accepted + 1) as u64
            },
            ..self
        }
    }

    /// The device after writing to consumer `session` failed: if that
    /// consumer is still the one served, nobody is served any more.
    pub open spec fn disconnect(self, session: u64) -> DeviceModel {
        if self.consumer == Some(session) {
            DeviceModel { consumer: None, ..self }
        } else {
            self
        }
    }
}

/// A virtual input device: its descriptor and the consumer it serves.
pub struct InputDevice {
    info: DeviceInfo,
    consumer: Option<u64>,
    accepted: u64,
}

impl View for InputDevice {
    type V = DeviceModel;

    closed spec fn view(&self) -> DeviceModel {
        DeviceModel { info: self.info, consumer: self.consumer, accepted: self.accepted }
    }
}

impl InputDevice {
    /// A device that nobody is connected to.
    pub fn new(info: DeviceInfo) -> (d: InputDevice)
        ensures
            d@ == (DeviceModel { info, consumer: None, accepted: 0 }),
    {
        InputDevice { info, consumer: None, accepted: 0 }
    }

    /// A consumer connected. Returns its session number and the bytes to
    /// write to it before any event: the descriptor, once.
    pub fn accept(&mut self) -> (r: (u64, Vec<u8>))
        ensures
            final(self)@ == old(self)@.accept(),
            r.0 == old(self)@.next_session(),
            r.1@ == old(self)@.info.wire(),
    {
        let session = self.accepted;
        self.consumer = Some(session);
        self.accepted = if session == u64::MAX {
            0
        } else {
            session + 1
        };
        (session, self.info.to_bytes())
    }

    /// Writing to consumer `session` failed: its session is over.
    pub fn disconnect(&mut self, session: u64)
        ensures
            final(self)@ == old(self)@.disconnect(session),
    {
        let current = match self.consumer {
            Some(s) => s == session,
            None => false,
        };
        if current {
            self.consumer = None;
        }
    }

    /// The session number of the consumer that is served, if any.
    pub fn consumer(&self) -> (r: Option<u64>)
        ensures
            r == self@.consumer,
    {
        self.consumer
    }

    /// Whether a consumer is served.
    pub fn is_attached(&self) -> (r: bool)
        ensures
            r == self@.consumer.is_some(),
    {
        self.consumer.is_some()
    }

    /// The device's descriptor.
    pub fn info(&self) -> (info: &DeviceInfo)
        ensures
            *info == self@.info,
    {
        &self.info
    }
}

/// The touch device: the device proper and which fingers are down.
pub struct TouchDevice {
    pub device: InputDevice,
    pub state: TouchState,
}

/// Takes a touch action for the touch device. Returns the events to send to
/// the device's consumer, in order and as one batch. While the device
/// serves nobody the action is dropped: no event, and no finger goes down
/// or up.
pub fn handle_touch_event(
    touch: &mut TouchDevice,
    now: Timestamp,
    action: i32,
    pointer_id: i32,
    x: i32,
    y: i32,
    pressure: i32,
) -> (events: Vec<InputEvent>)
    ensures
        final(touch).device@ == old(touch).device@,
        old(touch).device@.consumer is Some ==> {
            &&& final(touch).state@ == touch_next(old(touch).state@, action, pointer_id)
            &&& events@ == touch_events(old(touch).state@, now, action, pointer_id, x, y, pressure)
        },
        old(touch).device@.consumer is None ==> {
            &&& final(touch).state@ == old(touch).state@
            &&& events@ == Seq::<InputEvent>::empty()
        },
{
    if touch.device.is_attached() {
        touch.state.apply(now, action, pointer_id, x, y, pressure)
    } else {
        Vec::new()
    }
}

/// Taps key `keycode` on the key device. Returns the events to send to the
/// device's consumer: the key down, then the key up; none while the device
/// serves nobody.
pub fn send_key_code(key: &InputDevice, now: Timestamp, keycode: i32) -> (events: Vec<InputEvent>)
    ensures
        events@ == if key@.consumer is Some {
            key_tap_events(now, keycode)
        } else {
            Seq::<InputEvent>::empty()
        },
{
    if key.is_attached() {
        key_tap(now, keycode)
    } else {
        Vec::new()
    }
}

/// Both devices, and where their sockets lie.
pub struct InputSystem {
    pub input_dir: String,
    pub touch_path: String,
    pub key_path: String,
    pub touch: TouchDevice,
    pub key: InputDevice,
}

/// Sets up the two devices for a screen of `width` by `height` and a guest
/// whose root directory is `rootfs_path`. Nobody is connected yet and no
/// finger is down.
pub fn start_input_system(width: i32, height: i32, rootfs_path: &str) -> (sys: InputSystem)
    ensures
        sys.input_dir@ == rootfs_path@ + "/dev/input"@,
        sys.touch_path@ == rootfs_path@ + "/dev/input/touch"@,
        sys.key_path@ == rootfs_path@ + "/dev/input/key0"@,
        is_touch_device(sys.touch.device@.info, width, height, encode_utf8(sys.touch_path@)),
        is_key_device(sys.key@.info, encode_utf8(sys.key_path@)),
        sys.touch.device@.consumer is None,
        sys.touch.device@.accepted == 0,
        sys.touch.state@ == no_fingers(),
        sys.key@.consumer is None,
        sys.key@.accepted == 0,
{
    let input_dir = String::from_str(rootfs_path).concat("/dev/input");
    let touch_path = String::from_str(rootfs_path).concat("/dev/input/touch");
    let key_path = String::from_str(rootfs_path).concat("/dev/input/key0");
    let touch = TouchDevice {
        device: InputDevice::new(generate_touch_device(width, height, touch_path.as_str())),
        state: TouchState::new(),
    };
    let key = InputDevice::new(generate_key_device(key_path.as_str()));
    InputSystem { input_dir, touch_path, key_path, touch, key }
}

/// A consumer that connects is served from then on, whoever was served
/// before, and no two consumers in a row get the same session number: a
/// late failure of the old consumer does not end the new one's session.
pub proof fn lemma_accept_replaces_consumer(d: DeviceModel)
    ensures
        d.accept().consumer == Some(d.next_session()),
        d.accept().next_session() != d.next_session(),
        d.accept().accept().consumer != d.accept().consumer,
        d.accept().accept().disconnect(d.next_session()) == d.accept().accept(),
        d.accept().disconnect(d.next_session()).consumer is None,
{
}

} // verus!
