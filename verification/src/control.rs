//! The control port: the status record that greets a viewer, and what
//! becomes of the messages that a viewer sends.
//!
//! How messages are written on the wire is not decided here. The daemon
//! reads a message into the fields that it carries, and this module says
//! what the fields mean and which events they cause.

use crate::event::{InputEvent, Timestamp};
use crate::input::{handle_touch_event, send_key_code, InputSystem};
use crate::touch::{key_tap_events, touch_events, touch_next};
use crate::wire::{i32_from_bits, i32_of_bits};
use vstd::prelude::*;
use vstd::string::StringExecFns;

verus! {

/// The record that greets a viewer.
pub struct StatusRecord {
    pub width: i32,
    pub height: i32,
    pub rootfs: String,
    pub status: String,
    pub streaming: bool,
    pub adb_address: String,
    pub display_mode: String,
}

/// The status that the record names: `setup` while the daemon runs without
/// a container, `running` otherwise.
pub open spec fn status_text(setup_mode: bool) -> Seq<char> {
    if setup_mode {
        "setup"@
    } else {
        "running"@
    }
}

/// The record that greets a viewer. Frames are always streamed, and they
/// come from the software allocator.
pub fn status_record(
    width: i32,
    height: i32,
    rootfs: &str,
    setup_mode: bool,
    adb_address: &str,
) -> (r: StatusRecord)
    ensures
        r.width == width,
        r.height == height,
        r.rootfs@ == rootfs@,
        r.status@ == status_text(setup_mode),
        r.streaming,
        r.adb_address@ == adb_address@,
        r.display_mode@ == "fake_gralloc"@,
{
    StatusRecord {
        width,
        height,
        rootfs: String::from_str(rootfs),
        status: if setup_mode {
            String::from_str("setup")
        } else {
            String::from_str("running")
        },
        streaming: true,
        adb_address: String::from_str(adb_address),
        display_mode: String::from_str("fake_gralloc"),
    }
}

/// The fields of a message as the daemon has read them; a field that the
/// message does not carry is `None`. Coordinates and pressure come as whole
/// numbers.
pub struct ControlFields {
    pub kind: Option<String>,
    pub action: Option<i64>,
    pub pointer_id: Option<i64>,
    pub x: Option<i32>,
    pub y: Option<i32>,
    pub pressure: Option<i32>,
    pub keycode: Option<i64>,
}

/// What a message asks for.
#[derive(Debug, Clone, Copy, PartialEq, Eq, Structural)]
pub enum ControlInput {
    /// A touch action.
    Touch { action: i32, pointer_id: i32, x: i32, y: i32, pressure: i32 },
    /// A tap of a key.
    Key { keycode: i32 },
    /// Nothing that the daemon acts on.
    Other,
}

/// The low 32 bits of `v` as a signed number.
pub open spec fn low32(v: i64) -> i32 {
    i32_of_bits((v % 0x1_0000_0000) as u32)
}

/// The low 32 bits of `v` as a signed number.
pub fn low32_of(v: i64) -> (r: i32)
    ensures
        r == low32(v),
{
    let m: i64 = v % 0x1_0000_0000;
    let bits = if m < 0 {
        (m + 0x1_0000_0000) as u32
    } else {
        m as u32
    };
    i32_from_bits(bits)
}

/// The number in a field, or `default` where the field is missing.
pub open spec fn field_or(field: Option<i64>, default: i32) -> i32 {
    match field {
        Some(v) => low32(v),
        None => default,
    }
}

/// The number in a field, or `default` where the field is missing.
pub open spec fn number_or(field: Option<i32>, default: i32) -> i32 {
    match field {
        Some(v) => v,
        None => default,
    }
}

/// What the fields of a message ask for. A message of kind `touch` is a
/// touch action; what it leaves out is zero, but for the pressure, which is
/// one. A message of kind `key` taps a key, key zero where it names none.
/// Any other message, and one without a kind, asks for nothing.
pub open spec fn input_of(
    kind: Option<Seq<char>>,
    action: Option<i64>,
    pointer_id: Option<i64>,
    x: Option<i32>,
    y: Option<i32>,
    pressure: Option<i32>,
    keycode: Option<i64>,
) -> ControlInput {
    if kind == Some("touch"@) {
        ControlInput::Touch {
            action: field_or(action, 0),
            pointer_id: field_or(pointer_id, 0),
            x: number_or(x, 0),
            y: number_or(y, 0),
            pressure: number_or(pressure, 1),
        }
    } else if kind == Some("key"@) {
        ControlInput::Key { keycode: field_or(keycode, 0) }
    } else {
        ControlInput::Other
    }
}

fn int_field(field: Option<i64>, default: i32) -> (r: i32)
    ensures
        r == field_or(field, default),
{
    match field {
        Some(v) => low32_of(v),
        None => default,
    }
}

fn number_field(field: Option<i32>, default: i32) -> (r: i32)
    ensures
        r == number_or(field, default),
{
    match field {
        Some(v) => v,
        None => default,
    }
}

/// What the fields of a message ask for.
pub fn control_input(fields: &ControlFields) -> (input: ControlInput)
    ensures
        input == input_of(
            match fields.kind {
                Some(k) => Some(k@),
                None => None,
            },
            fields.action,
            fields.pointer_id,
            fields.x,
            fields.y,
            fields.pressure,
            fields.keycode,
        ),
{
    match &fields.kind {
        Some(kind) => {
            if *kind == String::from_str("touch") {
                ControlInput::Touch {
                    action: int_field(fields.action, 0),
                    pointer_id: int_field(fields.pointer_id, 0),
                    x: number_field(fields.x, 0),
                    y: number_field(fields.y, 0),
                    pressure: number_field(fields.pressure, 1),
                }
            } else if *kind == String::from_str("key") {
                ControlInput::Key { keycode: int_field(fields.keycode, 0) }
            } else {
                ControlInput::Other
            }
        },
        None => ControlInput::Other,
    }
}

/// The events that a message causes, each batch for its own device.
pub struct ControlOutput {
    pub touch: Vec<InputEvent>,
    pub key: Vec<InputEvent>,
}

/// Acts on a message: a touch action goes to the touch device, a key is
/// tapped on the key device, and anything else is passed over.
pub fn handle_input_event(input: &ControlInput, sys: &mut InputSystem, now: Timestamp) -> (out:
    ControlOutput)
    ensures
        final(sys).key@ == old(sys).key@,
        final(sys).touch.device@ == old(sys).touch.device@,
        final(sys).input_dir == old(sys).input_dir,
        final(sys).touch_path == old(sys).touch_path,
        final(sys).key_path == old(sys).key_path,
        match *input {
            ControlInput::Touch { action, pointer_id, x, y, pressure } => {
                &&& out.key@ == Seq::<InputEvent>::empty()
                &&& old(sys).touch.device@.consumer is Some ==> {
                    &&& final(sys).touch.state@ == touch_next(
                        old(sys).touch.state@,
                        action,
                        pointer_id,
                    )
                    &&& out.touch@ == touch_events(
                        old(sys).touch.state@,
                        now,
                        action,
                        pointer_id,
                        x,
                        y,
                        pressure,
                    )
                }
                &&& old(sys).touch.device@.consumer is None ==> {
                    &&& final(sys).touch.state@ == old(sys).touch.state@
                    &&& out.touch@ == Seq::<InputEvent>::empty()
                }
            },
            ControlInput::Key { keycode } => {
                &&& out.touch@ == Seq::<InputEvent>::empty()
                &&& final(sys).touch.state@ == old(sys).touch.state@
                &&& out.key@ == if old(sys).key@.consumer is Some {
                    key_tap_events(now, keycode)
                } else {
                    Seq::<InputEvent>::empty()
                }
            },
            ControlInput::Other => {
                &&& out.touch@ == Seq::<InputEvent>::empty()
                &&& out.key@ == Seq::<InputEvent>::empty()
                &&& final(sys).touch.state@ == old(sys).touch.state@
            },
        },
{
    match *input {
        ControlInput::Touch { action, pointer_id, x, y, pressure } => {
            let touch = handle_touch_event(&mut sys.touch, now, action, pointer_id, x, y, pressure);
            ControlOutput { touch, key: Vec::new() }
        },
        ControlInput::Key { keycode } => {
            let key = send_key_code(&sys.key, now, keycode);
            ControlOutput { touch: Vec::new(), key }
        },
        ControlInput::Other => ControlOutput { touch: Vec::new(), key: Vec::new() },
    }
}

} // verus!
