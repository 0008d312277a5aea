//! Multi-touch and key input: from a touch action or a key code to the
//! events that the guest's input reader sees.
//!
//! A touch device has five slots, one per finger. A finger goes down into a
//! slot, moves there, and is lifted from it; moves of a finger that is not
//! down are dropped. Every batch of events that is sent ends with a
//! synchronisation report.

use crate::event::{
    event_at, input_event_write, is_syn_report, InputEvent, Timestamp, ABS_MT_POSITION_X,
    ABS_MT_POSITION_Y, ABS_MT_PRESSURE, ABS_MT_SLOT, ABS_MT_TRACKING_ID, BTN_TOOL_FINGER, BTN_TOUCH,
    EV_ABS, EV_KEY, EV_SYN, SYN_REPORT,
};
use vstd::prelude::*;

verus! {

/// Number of fingers that the touch device tells apart.
pub const MAX_POINTERS: usize = 5;

/// First finger down.
pub const ACTION_DOWN: i32 = 0;

/// Last finger up.
pub const ACTION_UP: i32 = 1;

/// A finger moved.
pub const ACTION_MOVE: i32 = 2;

/// The gesture was called off.
pub const ACTION_CANCEL: i32 = 3;

/// A further finger down.
pub const ACTION_POINTER_DOWN: i32 = 5;

/// One finger of several up.
pub const ACTION_POINTER_UP: i32 = 6;

/// Value that the touch buttons carry while a finger is down.
pub const BUTTON_DOWN: i32 = 108;

/// A touch action by name.
#[derive(Debug, Clone, Copy, PartialEq, Eq, Structural)]
pub enum TouchAction {
    Down,
    Up,
    Move,
    Cancel,
    PointerDown,
    PointerUp,
}

impl TouchAction {
    /// The number that stands for the action.
    pub open spec fn code(self) -> i32 {
        match self {
            TouchAction::Down => ACTION_DOWN,
            TouchAction::Up => ACTION_UP,
            TouchAction::Move => ACTION_MOVE,
            TouchAction::Cancel => ACTION_CANCEL,
            TouchAction::PointerDown => ACTION_POINTER_DOWN,
            TouchAction::PointerUp => ACTION_POINTER_UP,
        }
    }

    /// The action that `code` stands for, if any.
    pub open spec fn of_code(code: i32) -> Option<TouchAction> {
        if code == ACTION_DOWN {
            Some(TouchAction::Down)
        } else if code == ACTION_UP {
            Some(TouchAction::Up)
        } else if code == ACTION_MOVE {
            Some(TouchAction::Move)
        } else if code == ACTION_CANCEL {
            Some(TouchAction::Cancel)
        } else if code == ACTION_POINTER_DOWN {
            Some(TouchAction::PointerDown)
        } else if code == ACTION_POINTER_UP {
            Some(TouchAction::PointerUp)
        } else {
            None
        }
    }

    /// The number that stands for the action.
    pub fn to_code(&self) -> (code: i32)
        ensures
            code == self.code(),
            TouchAction::of_code(code) == Some(*self),
    {
        match self {
            TouchAction::Down => ACTION_DOWN,
            TouchAction::Up => ACTION_UP,
            TouchAction::Move => ACTION_MOVE,
            TouchAction::Cancel => ACTION_CANCEL,
            TouchAction::PointerDown => ACTION_POINTER_DOWN,
            TouchAction::PointerUp => ACTION_POINTER_UP,
        }
    }

    /// The action that `code` stands for, if any.
    pub fn from_code(code: i32) -> (r: Option<TouchAction>)
        ensures
            r == TouchAction::of_code(code),
    {
        if code == ACTION_DOWN {
            Some(TouchAction::Down)
        } else if code == ACTION_UP {
            Some(TouchAction::Up)
        } else if code == ACTION_MOVE {
            Some(TouchAction::Move)
        } else if code == ACTION_CANCEL {
            Some(TouchAction::Cancel)
        } else if code == ACTION_POINTER_DOWN {
            Some(TouchAction::PointerDown)
        } else if code == ACTION_POINTER_UP {
            Some(TouchAction::PointerUp)
        } else {
            None
        }
    }
}

/// Whether `action` puts a finger down.
pub open spec fn is_press(action: i32) -> bool {
    action == ACTION_DOWN || action == ACTION_POINTER_DOWN
}

/// Whether `action` lifts every finger.
pub open spec fn is_release_all(action: i32) -> bool {
    action == ACTION_UP || action == ACTION_CANCEL
}

/// Whether `pointer_id` names a slot.
pub open spec fn is_slot(pointer_id: i32) -> bool {
    0 <= pointer_id < MAX_POINTERS
}

/// No finger down.
pub open spec fn no_fingers() -> Seq<bool> {
    Seq::new(MAX_POINTERS as nat, |i: int| false)
}

/// The events for a finger that goes down into slot `pointer_id`. The first
/// slot also presses the touch buttons.
pub open spec fn press_events(
    now: Timestamp,
    pointer_id: i32,
    x: i32,
    y: i32,
    pressure: i32,
) -> Seq<InputEvent> {
    seq![
        event_at(now, EV_ABS, ABS_MT_SLOT, pointer_id),
        event_at(now, EV_ABS, ABS_MT_TRACKING_ID, (pointer_id + 1) as i32),
    ] + (if pointer_id == 0 {
        seq![
            event_at(now, EV_KEY, BTN_TOUCH, BUTTON_DOWN),
            event_at(now, EV_KEY, BTN_TOOL_FINGER, BUTTON_DOWN),
        ]
    } else {
        Seq::empty()
    }) + seq![
        event_at(now, EV_ABS, ABS_MT_POSITION_X, x),
        event_at(now, EV_ABS, ABS_MT_POSITION_Y, y),
        event_at(now, EV_ABS, ABS_MT_PRESSURE, pressure),
        event_at(now, EV_SYN, SYN_REPORT, SYN_REPORT),
    ]
}

/// The events for a finger that moves in slot `pointer_id`.
pub open spec fn move_events(
    now: Timestamp,
    pointer_id: i32,
    x: i32,
    y: i32,
    pressure: i32,
) -> Seq<InputEvent> {
    seq![
        event_at(now, EV_ABS, ABS_MT_SLOT, pointer_id),
        event_at(now, EV_ABS, ABS_MT_POSITION_X, x),
        event_at(now, EV_ABS, ABS_MT_POSITION_Y, y),
        event_at(now, EV_ABS, ABS_MT_PRESSURE, pressure),
        event_at(now, EV_SYN, SYN_REPORT, SYN_REPORT),
    ]
}

/// The events for the finger that is lifted from slot `slot`.
pub open spec fn lift_events(now: Timestamp, slot: i32) -> Seq<InputEvent> {
    seq![
        event_at(now, EV_ABS, ABS_MT_SLOT, slot),
        event_at(now, EV_ABS, ABS_MT_TRACKING_ID, -1i32),
        event_at(now, EV_SYN, SYN_REPORT, SYN_REPORT),
    ]
}

/// The events that lift every finger that is down in the first `n` slots,
/// lowest slot first.
pub open spec fn lift_all_events(slots: Seq<bool>, now: Timestamp, n: nat) -> Seq<InputEvent>
    decreases n,
{
    if n == 0 {
        Seq::empty()
    } else {
        lift_all_events(slots, now, (n - 1) as nat) + (if slots[n - 1] {
            lift_events(now, (n - 1) as i32)
        } else {
            Seq::empty()
        })
    }
}

/// The slots after an action.
///
/// A press marks its slot, a pointer-up clears its slot, an up or a cancel
/// clears every slot. A move changes nothing, and neither does an action
/// that is unknown or that names no slot.
pub open spec fn touch_next(slots: Seq<bool>, action: i32, pointer_id: i32) -> Seq<bool> {
    if is_press(action) && is_slot(pointer_id) {
        slots.update(pointer_id as int, true)
    } else if action == ACTION_POINTER_UP && is_slot(pointer_id) {
        slots.update(pointer_id as int, false)
    } else if is_release_all(action) {
        no_fingers()
    } else {
        slots
    }
}

/// The events that an action sends.
pub open spec fn touch_events(
    slots: Seq<bool>,
    now: Timestamp,
    action: i32,
    pointer_id: i32,
    x: i32,
    y: i32,
    pressure: i32,
) -> Seq<InputEvent> {
    if is_press(action) {
        if is_slot(pointer_id) {
            press_events(now, pointer_id, x, y, pressure)
        } else {
            Seq::empty()
        }
    } else if action == ACTION_MOVE {
        if is_slot(pointer_id) && slots[pointer_id as int] {
            move_events(now, pointer_id, x, y, pressure)
        } else {
            Seq::empty()
        }
    } else if action == ACTION_POINTER_UP {
        if is_slot(pointer_id) && slots[pointer_id as int] {
            lift_events(now, pointer_id)
        } else {
            Seq::empty()
        }
    } else if is_release_all(action) {
        lift_all_events(slots, now, MAX_POINTERS as nat)
    } else {
        Seq::empty()
    }
}

/// Which fingers are down.
pub struct TouchState {
    pub slots: [bool; 5],
}

impl View for TouchState {
    type V = Seq<bool>;

    open spec fn view(&self) -> Seq<bool> {
        self.slots@
    }
}

impl TouchState {
    /// No finger down.
    pub fn new() -> (s: TouchState)
        ensures
            s@ == no_fingers(),
    {
        TouchState { slots: [false; 5] }
    }

    /// Whether a finger is down in slot `pointer_id`. No finger is ever down
    /// in a slot that does not exist.
    pub fn is_active(&self, pointer_id: i32) -> (r: bool)
        ensures
            r == (is_slot(pointer_id) && self@[pointer_id as int]),
    {
        if 0 <= pointer_id && pointer_id < MAX_POINTERS as i32 {
            self.slots[pointer_id as usize]
        } else {
            false
        }
    }

    /// Takes one touch action: updates the slots and returns the events to
    /// send, all stamped `now`.
    pub fn apply(
        &mut self,
        now: Timestamp,
        action: i32,
        pointer_id: i32,
        x: i32,
        y: i32,
        pressure: i32,
    ) -> (events: Vec<InputEvent>)
        ensures
            final(self)@ == touch_next(old(self)@, action, pointer_id),
            events@ == touch_events(old(self)@, now, action, pointer_id, x, y, pressure),
    {
        let mut tx: Vec<InputEvent> = Vec::new();
        let in_range = 0 <= pointer_id && pointer_id < MAX_POINTERS as i32;
        if action == ACTION_DOWN || action == ACTION_POINTER_DOWN {
            if in_range {
                self.slots[pointer_id as usize] = true;
                input_event_write(&mut tx, now, EV_ABS, ABS_MT_SLOT, pointer_id);
                input_event_write(&mut tx, now, EV_ABS, ABS_MT_TRACKING_ID, pointer_id + 1);
                if pointer_id == 0 {
                    input_event_write(&mut tx, now, EV_KEY, BTN_TOUCH, BUTTON_DOWN);
                    input_event_write(&mut tx, now, EV_KEY, BTN_TOOL_FINGER, BUTTON_DOWN);
                }
                input_event_write(&mut tx, now, EV_ABS, ABS_MT_POSITION_X, x);
                input_event_write(&mut tx, now, EV_ABS, ABS_MT_POSITION_Y, y);
                input_event_write(&mut tx, now, EV_ABS, ABS_MT_PRESSURE, pressure);
                input_event_write(&mut tx, now, EV_SYN, SYN_REPORT, SYN_REPORT);
            }
        } else if action == ACTION_MOVE {
            if in_range && self.slots[pointer_id as usize] {
                input_event_write(&mut tx, now, EV_ABS, ABS_MT_SLOT, pointer_id);
                input_event_write(&mut tx, now, EV_ABS, ABS_MT_POSITION_X, x);
                input_event_write(&mut tx, now, EV_ABS, ABS_MT_POSITION_Y, y);
                input_event_write(&mut tx, now, EV_ABS, ABS_MT_PRESSURE, pressure);
                input_event_write(&mut tx, now, EV_SYN, SYN_REPORT, SYN_REPORT);
            }
        } else if action == ACTION_POINTER_UP {
            if in_range {
                if self.slots[pointer_id as usize] {
                    self.lift(&mut tx, now, pointer_id as usize);
                }
            }
        } else if action == ACTION_UP || action == ACTION_CANCEL {
            let mut index: usize = 0;
            while index < MAX_POINTERS
                invariant
                    index <= MAX_POINTERS,
                    self@.len() == MAX_POINTERS,
                    forall|k: int| 0 <= k < index ==> !self@[k],
                    forall|k: int| index <= k < MAX_POINTERS ==> self@[k] == old(self)@[k],
                    tx@ == lift_all_events(old(self)@, now, index as nat),
                decreases MAX_POINTERS - index,
            {
                if self.slots[index] {
                    self.lift(&mut tx, now, index);
                }
                index += 1;
            }
        }
        tx
    }

    /// Clears slot `slot` and appends the events that lift its finger.
    fn lift(&mut self, tx: &mut Vec<InputEvent>, now: Timestamp, slot: usize)
        requires
            slot < MAX_POINTERS,
        ensures
            final(self)@ == old(self)@.update(slot as int, false),
            final(tx)@ == old(tx)@ + lift_events(now, slot as i32),
    {
        self.slots[slot] = false;
        input_event_write(tx, now, EV_ABS, ABS_MT_SLOT, slot as i32);
        input_event_write(tx, now, EV_ABS, ABS_MT_TRACKING_ID, -1);
        input_event_write(tx, now, EV_SYN, SYN_REPORT, SYN_REPORT);
    }
}

/// The events for one key going down or up: the key, then the report that
/// closes the batch.
pub open spec fn key_events(now: Timestamp, keycode: i32, pressed: bool) -> Seq<InputEvent> {
    seq![
        event_at(
            now,
            EV_KEY,
            keycode,
            if pressed {
                1i32
            } else {
                0i32
            },
        ),
        event_at(now, EV_SYN, SYN_REPORT, SYN_REPORT),
    ]
}

/// The events for a key tap: the key goes down and comes up again.
pub open spec fn key_tap_events(now: Timestamp, keycode: i32) -> Seq<InputEvent> {
    key_events(now, keycode, true) + key_events(now, keycode, false)
}

/// The events for one key going down (`pressed`) or up.
pub fn key_event(now: Timestamp, keycode: i32, pressed: bool) -> (events: Vec<InputEvent>)
    ensures
        events@ == key_events(now, keycode, pressed),
{
    let mut tx: Vec<InputEvent> = Vec::new();
    let value: i32 = if pressed {
        1
    } else {
        0
    };
    input_event_write(&mut tx, now, EV_KEY, keycode, value);
    input_event_write(&mut tx, now, EV_SYN, SYN_REPORT, SYN_REPORT);
    tx
}

/// The events for a tap of key `keycode`.
pub fn key_tap(now: Timestamp, keycode: i32) -> (events: Vec<InputEvent>)
    ensures
        events@ == key_tap_events(now, keycode),
{
    let mut tx = key_event(now, keycode, true);
    input_event_write(&mut tx, now, EV_KEY, keycode, 0);
    input_event_write(&mut tx, now, EV_SYN, SYN_REPORT, SYN_REPORT);
    tx
}

/// The slots after a run of actions, each an action number with the pointer
/// it names.
pub open spec fn run_touch(slots: Seq<bool>, ops: Seq<(i32, i32)>) -> Seq<bool>
    decreases ops.len(),
{
    if ops.len() == 0 {
        slots
    } else {
        touch_next(run_touch(slots, ops.drop_last()), ops.last().0, ops.last().1)
    }
}

/// Whether `op` puts a finger down into `slot`.
pub open spec fn presses(op: (i32, i32), slot: int) -> bool {
    is_press(op.0) && op.1 == slot
}

/// Whether `op` lifts the finger in `slot`, if one is down there: a
/// pointer-up that names the slot, or an up or cancel, which lift all.
pub open spec fn releases(op: (i32, i32), slot: int) -> bool {
    is_release_all(op.0) || (op.0 == ACTION_POINTER_UP && op.1 == slot)
}

/// Whether the last action of `ops` that presses or releases `slot` is a
/// press.
pub open spec fn ends_pressed(ops: Seq<(i32, i32)>, slot: int) -> bool
    decreases ops.len(),
{
    if ops.len() == 0 {
        false
    } else if presses(ops.last(), slot) {
        true
    } else if releases(ops.last(), slot) {
        false
    } else {
        ends_pressed(ops.drop_last(), slot)
    }
}

/// How many actions of `ops` press `slot`.
pub open spec fn count_presses(ops: Seq<(i32, i32)>, slot: int) -> nat
    decreases ops.len(),
{
    if ops.len() == 0 {
        0
    } else {
        count_presses(ops.drop_last(), slot) + (if presses(ops.last(), slot) {
            1nat
        } else {
            0nat
        })
    }
}

/// How many actions of `ops` release `slot`.
pub open spec fn count_releases(ops: Seq<(i32, i32)>, slot: int) -> nat
    decreases ops.len(),
{
    if ops.len() == 0 {
        0
    } else {
        count_releases(ops.drop_last(), slot) + (if releases(ops.last(), slot) {
            1nat
        } else {
            0nat
        })
    }
}

/// Whether presses and releases of `slot` take turns in `ops`: a finger
/// goes down only into a free slot and is lifted only where one is down.
pub open spec fn takes_turns(ops: Seq<(i32, i32)>, slot: int) -> bool
    decreases ops.len(),
{
    if ops.len() == 0 {
        true
    } else {
        let before = run_touch(no_fingers(), ops.drop_last());
        &&& takes_turns(ops.drop_last(), slot)
        &&& presses(ops.last(), slot) ==> !before[slot]
        &&& releases(ops.last(), slot) ==> before[slot]
    }
}

/// A run of actions leaves five slots.
pub proof fn lemma_run_touch_len(slots: Seq<bool>, ops: Seq<(i32, i32)>)
    requires
        slots.len() == MAX_POINTERS,
    ensures
        run_touch(slots, ops).len() == MAX_POINTERS,
    decreases ops.len(),
{
    if ops.len() > 0 {
        lemma_run_touch_len(slots, ops.drop_last());
    }
}

/// A move changes no slot, whatever pointer it names, and neither does an
/// action that is none of the six.
pub proof fn lemma_move_keeps_slots(slots: Seq<bool>, action: i32, pointer_id: i32)
    requires
        action == ACTION_MOVE || TouchAction::of_code(action) is None,
    ensures
        touch_next(slots, action, pointer_id) == slots,
{
}

/// After any run of actions from rest, a finger is down in a slot exactly
/// when the last action that pressed or released that slot was a press.
pub proof fn lemma_slot_follows_last_command(ops: Seq<(i32, i32)>, slot: int)
    requires
        0 <= slot < MAX_POINTERS,
    ensures
        run_touch(no_fingers(), ops)[slot] == ends_pressed(ops, slot),
    decreases ops.len(),
{
    if ops.len() > 0 {
        lemma_slot_follows_last_command(ops.drop_last(), slot);
        lemma_run_touch_len(no_fingers(), ops.drop_last());
    }
}

/// Where presses and releases of a slot take turns they can be counted: a
/// finger is down in the slot exactly when it was pressed more often than
/// released, and then by one.
pub proof fn lemma_turns_can_be_counted(ops: Seq<(i32, i32)>, slot: int)
    requires
        0 <= slot < MAX_POINTERS,
        takes_turns(ops, slot),
    ensures
        ends_pressed(ops, slot) == (count_presses(ops, slot) > count_releases(ops, slot)),
        run_touch(no_fingers(), ops)[slot] <==> count_presses(ops, slot) > count_releases(
            ops,
            slot,
        ),
        count_presses(ops, slot) == count_releases(ops, slot) + (if run_touch(
            no_fingers(),
            ops,
        )[slot] {
            1nat
        } else {
            0nat
        }),
    decreases ops.len(),
{
    lemma_slot_follows_last_command(ops, slot);
    if ops.len() > 0 {
        lemma_turns_can_be_counted(ops.drop_last(), slot);
        lemma_run_touch_len(no_fingers(), ops.drop_last());
    }
}

/// Whether `events` is nothing, or ends with the report that closes a batch.
pub open spec fn closed_by_report(events: Seq<InputEvent>) -> bool {
    events.len() == 0 || is_syn_report(events.last())
}

proof fn lemma_lift_all_closed(slots: Seq<bool>, now: Timestamp, n: nat)
    ensures
        closed_by_report(lift_all_events(slots, now, n)),
    decreases n,
{
    if n > 0 {
        lemma_lift_all_closed(slots, now, (n - 1) as nat);
    }
}

/// Whatever a touch action or a key sends ends with the report that closes
/// the batch.
pub proof fn lemma_batches_are_closed(
    slots: Seq<bool>,
    now: Timestamp,
    action: i32,
    pointer_id: i32,
    x: i32,
    y: i32,
    pressure: i32,
    keycode: i32,
    pressed: bool,
)
    ensures
        closed_by_report(touch_events(slots, now, action, pointer_id, x, y, pressure)),
        closed_by_report(key_events(now, keycode, pressed)),
        closed_by_report(key_tap_events(now, keycode)),
{
    lemma_lift_all_closed(slots, now, MAX_POINTERS as nat);
}

} // verus!
