//! The framebuffer streamer: which picture goes out on a tick, and to whom.
//!
//! On every tick the streamer sends one frame to each viewer. It takes the
//! picture that the guest presented last; where there is none, what the
//! framebuffer device holds; and where that cannot be read, a test picture.
//! A viewer that cannot be written to is dropped.

use crate::frame::{generate_test_pattern, test_pattern};
use crate::wire::{i32_bits, i32_from_bits, i32_of_bits, zero_bytes};
use vstd::prelude::*;
use vstd::slice::slice_to_vec;
use vstd::string::StringExecFns;

verus! {

/// Frames per second that the streamer aims at.
pub const FRAME_FPS: u64 = 30;

/// Milliseconds from one tick to the next at `fps` frames per second.
pub open spec fn tick_millis(fps: u64) -> u64 {
    (1000u64 / fps) as u64
}

/// Milliseconds from one tick to the next.
pub fn frame_interval_ms() -> (ms: u64)
    ensures
        ms == tick_millis(FRAME_FPS),
        ms == 33,
{
    1000 / FRAME_FPS
}

/// Ticks that are one interval apart are at least as many per second as the
/// rate asks for: ten seconds hold ten times the rate, or more.
pub proof fn lemma_tick_budget(fps: u64)
    requires
        1 <= fps <= 1000,
    ensures
        tick_millis(fps) >= 1,
        10_000int / (tick_millis(fps) as int) >= 10 * fps,
        10_000int / (tick_millis(fps) as int) >= 10 * fps - 3,
{
    let q = 1000int / (fps as int);
    assert(q >= 1 && q * fps <= 1000) by (nonlinear_arith)
        requires
            q == 1000int / (fps as int),
            1 <= fps <= 1000,
    ;
    assert(10_000int / q >= 10 * fps) by (nonlinear_arith)
        requires
            q >= 1,
            q * fps <= 1000,
    ;
}

/// What the worker does between two ticks: how long it pauses, and when
/// the tick after the next is due.
#[derive(Debug, Clone, Copy, PartialEq, Eq, Structural)]
pub struct TickPlan {
    pub pause_ms: u64,
    pub next_deadline_ms: u64,
}

/// `a + b`, or the largest number where that is too large.
pub open spec fn capped_sum(a: u64, b: u64) -> u64 {
    if a + b <= u64::MAX {
        (a + b) as u64
    } else {
        u64::MAX
    }
}

/// The pause after a tick's work is done at `now_ms`, where the next tick
/// is due at `deadline_ms` and ticks are `interval_ms` apart. A worker that
/// is done in time pauses until the next tick is due, and the tick after it
/// is due one interval later. A worker that is late goes on at once and
/// counts the interval from now: ticks that were missed are not made up.
pub open spec fn tick_plan(deadline_ms: u64, now_ms: u64, interval_ms: u64) -> TickPlan {
    if now_ms <= deadline_ms {
        TickPlan {
            pause_ms: (deadline_ms - now_ms) as u64,
            next_deadline_ms: capped_sum(deadline_ms, interval_ms),
        }
    } else {
        TickPlan { pause_ms: 0, next_deadline_ms: capped_sum(now_ms, interval_ms) }
    }
}

/// When the first tick after a start at `now_ms` is due.
pub fn first_deadline(now_ms: u64) -> (deadline_ms: u64)
    ensures
        deadline_ms == capped_sum(now_ms, tick_millis(FRAME_FPS)),
{
    let interval = frame_interval_ms();
    if now_ms <= u64::MAX - interval {
        now_ms + interval
    } else {
        u64::MAX
    }
}

/// The pause after a tick's work is done at `now_ms`, where the next tick
/// is due at `deadline_ms`; times are milliseconds on one clock.
pub fn plan_tick(deadline_ms: u64, now_ms: u64) -> (plan: TickPlan)
    ensures
        plan == tick_plan(deadline_ms, now_ms, tick_millis(FRAME_FPS)),
{
    let interval = frame_interval_ms();
    let from = if now_ms <= deadline_ms {
        deadline_ms
    } else {
        now_ms
    };
    TickPlan {
        pause_ms: if now_ms <= deadline_ms {
            deadline_ms - now_ms
        } else {
            0
        },
        next_deadline_ms: if from <= u64::MAX - interval {
            from + interval
        } else {
            u64::MAX
        },
    }
}

/// A tick whose work is done before the next is due is followed by a tick
/// exactly when that one is due, and ticks that are on time are exactly one
/// interval apart.
pub proof fn lemma_ticks_on_time_keep_the_interval(deadline_ms: u64, now_ms: u64, interval_ms: u64)
    requires
        now_ms <= deadline_ms,
        deadline_ms + interval_ms <= u64::MAX,
    ensures
        now_ms + tick_plan(deadline_ms, now_ms, interval_ms).pause_ms == deadline_ms,
        tick_plan(deadline_ms, now_ms, interval_ms).next_deadline_ms == deadline_ms + interval_ms,
{
}

/// The picture that the guest presented last.
pub struct FramebufferData {
    pub data: Vec<u8>,
    pub width: u32,
    pub height: u32,
    pub dirty: bool,
}

impl Clone for FramebufferData {
    fn clone(&self) -> (copy: Self)
        ensures
            copy.data@ == self.data@,
            copy.width == self.width,
            copy.height == self.height,
            copy.dirty == self.dirty,
    {
        FramebufferData {
            data: slice_to_vec(self.data.as_slice()),
            width: self.width,
            height: self.height,
            dirty: self.dirty,
        }
    }
}

impl Default for FramebufferData {
    fn default() -> (f: Self)
        ensures
            f.data@ == Seq::<u8>::empty(),
            f.width == 0,
            f.height == 0,
            !f.dirty,
    {
        FramebufferData { data: Vec::new(), width: 0, height: 0, dirty: false }
    }
}

impl FramebufferData {
    /// Whether there is a picture to show: some bytes, and a width and a
    /// height that are not zero.
    pub open spec fn usable(&self) -> bool {
        self.data@.len() > 0 && self.width > 0 && self.height > 0
    }

    /// Whether there is a picture to show.
    pub fn is_usable(&self) -> (r: bool)
        ensures
            r == self.usable(),
    {
        self.data.len() > 0 && self.width > 0 && self.height > 0
    }

    /// Takes a picture that the guest presented: it replaces the one before
    /// it, and the cell is marked as changed.
    pub fn update(&mut self, data: &[u8], width: u32, height: u32)
        ensures
            final(self).data@ == data@,
            final(self).width == width,
            final(self).height == height,
            final(self).dirty,
    {
        self.data = slice_to_vec(data);
        self.width = width;
        self.height = height;
        self.dirty = true;
    }
}

/// A picture to send: its bytes, and the width and height that go into the
/// frame's header.
pub struct Frame {
    pub data: Vec<u8>,
    pub width: i32,
    pub height: i32,
}

/// Bytes of a picture of `width` by `height` at four bytes a pixel; zero
/// where the screen has no width or no height, or where one allocation
/// cannot hold the picture.
pub open spec fn frame_bytes(width: i32, height: i32) -> nat {
    if width > 0 && height > 0 && 4 * (width * height) <= isize::MAX {
        (4 * (width * height)) as nat
    } else {
        0
    }
}

/// Bytes of a picture of `width` by `height` at four bytes a pixel.
pub fn frame_size(width: i32, height: i32) -> (n: usize)
    ensures
        n == frame_bytes(width, height),
{
    if width <= 0 || height <= 0 {
        return 0;
    }
    assert(0 < (width as int) * (height as int) <= 0x7fff_ffff * 0x7fff_ffff) by (nonlinear_arith)
        requires
            0 < width <= 0x7fff_ffff,
            0 < height <= 0x7fff_ffff,
    ;
    let bytes = 4 * (width as u64 * height as u64);
    if bytes <= isize::MAX as u64 {
        bytes as usize
    } else {
        0
    }
}

/// The frame for the fallback: what was read from the framebuffer device if
/// that is a whole picture, and else the test picture of frame
/// `frame_counter`, drawn into `frame_data`.
pub open spec fn fallback_data(
    device: Option<Seq<u8>>,
    frame_data: Seq<u8>,
    width: i32,
    height: i32,
    frame_counter: u32,
    frame_size: nat,
) -> Seq<u8> {
    match device {
        Some(bytes) => if bytes.len() == frame_size {
            bytes
        } else {
            test_pattern(frame_data, width as int, height as int, frame_counter)
        },
        None => test_pattern(frame_data, width as int, height as int, frame_counter),
    }
}

/// Whether the fallback draws the test picture.
pub open spec fn fallback_draws(device: Option<Seq<u8>>, frame_size: nat) -> bool {
    match device {
        Some(bytes) => bytes.len() != frame_size,
        None => true,
    }
}

/// The bytes of the fallback frame. `device` is what reading `frame_size`
/// bytes from the framebuffer device gave, `None` where it could not be
/// read. Where the test picture is used it is drawn into `frame_data`,
/// which is otherwise left alone.
pub fn read_framebuffer_or_test_pattern(
    device: Option<Vec<u8>>,
    frame_data: &mut Vec<u8>,
    width: i32,
    height: i32,
    frame_counter: u32,
    frame_size: usize,
) -> (frame: Vec<u8>)
    ensures
        frame@ == fallback_data(
            match device {
                Some(bytes) => Some(bytes@),
                None => None,
            },
            old(frame_data)@,
            width,
            height,
            frame_counter,
            frame_size as nat,
        ),
        final(frame_data)@ == if fallback_draws(
            match device {
                Some(bytes) => Some(bytes@),
                None => None,
            },
            frame_size as nat,
        ) {
            test_pattern(old(frame_data)@, width as int, height as int, frame_counter)
        } else {
            old(frame_data)@
        },
        final(frame_data)@.len() == old(frame_data)@.len(),
        frame@.len() == if fallback_draws(
            match device {
                Some(bytes) => Some(bytes@),
                None => None,
            },
            frame_size as nat,
        ) {
            old(frame_data)@.len()
        } else {
            frame_size as nat
        },
{
    match device {
        Some(bytes) => {
            if bytes.len() == frame_size {
                return bytes;
            }
        },
        None => {},
    }
    generate_test_pattern(frame_data, width, height, frame_counter);
    slice_to_vec(frame_data.as_slice())
}

/// `clients` without `client`, the others in the order they came.
pub open spec fn without(clients: Seq<u64>, client: u64) -> Seq<u64>
    decreases clients.len(),
{
    if clients.len() == 0 {
        Seq::empty()
    } else if clients.last() == client {
        without(clients.drop_last(), client)
    } else {
        without(clients.drop_last(), client).push(clients.last())
    }
}

/// Dropping a viewer takes away that viewer and no other: every other
/// viewer is still there, and a viewer that was not there changes nothing.
pub proof fn lemma_without_drops_one_viewer(clients: Seq<u64>, client: u64)
    ensures
        forall|v: u64|
            without(clients, client).contains(v) <==> clients.contains(v) && v != client,
        !clients.contains(client) ==> without(clients, client) == clients,
    decreases clients.len(),
{
    broadcast use vstd::seq_lib::lemma_seq_contains_after_push;

    if clients.len() > 0 {
        let rest = clients.drop_last();
        lemma_without_drops_one_viewer(rest, client);
        assert(clients =~= rest.push(clients.last()));
        assert forall|v: u64| without(clients, client).contains(v) <==> clients.contains(v) && v
            != client by {
            assert(rest.push(clients.last()).contains(v) <==> clients.last() == v || rest.contains(
                v,
            ));
        }
        if !clients.contains(client) {
            assert(rest.push(clients.last()).contains(client) <==> clients.last() == client
                || rest.contains(client));
            assert(without(clients, client) =~= clients);
        }
    } else {
        assert(without(clients, client) =~= clients);
    }
}

/// Dropping a viewer keeps the others in their order: the viewers before
/// any place and the viewers after it stay on their sides.
pub proof fn lemma_without_keeps_the_order(front: Seq<u64>, back: Seq<u64>, client: u64)
    ensures
        without(front + back, client) == without(front, client) + without(back, client),
    decreases back.len(),
{
    if back.len() > 0 {
        lemma_without_keeps_the_order(front, back.drop_last(), client);
        assert((front + back).drop_last() =~= front + back.drop_last());
        assert(without(front + back, client) =~= without(front, client) + without(back, client));
    } else {
        assert(front + back =~= front);
        assert(without(front, client) + without(back, client) =~= without(front, client));
    }
}

/// The streamer as a value.
pub struct StreamerModel {
    pub width: i32,
    pub height: i32,
    pub clients: Seq<u64>,
    pub running: bool,
    pub framebuffer_path: Seq<char>,
    pub latest_data: Seq<u8>,
    pub latest_width: u32,
    pub latest_height: u32,
    pub latest_dirty: bool,
    pub pattern: Seq<u8>,
    pub frame_counter: u32,
}

/// A picture to send, as a value.
pub struct FrameValue {
    pub data: Seq<u8>,
    pub width: i32,
    pub height: i32,
}

impl View for Frame {
    type V = FrameValue;

    open spec fn view(&self) -> FrameValue {
        FrameValue { data: self.data@, width: self.width, height: self.height }
    }
}

impl StreamerModel {
    /// A streamer that is not running yet, without viewers and without a
    /// picture from the guest.
    pub open spec fn initial(width: i32, height: i32, rootfs_path: Seq<char>) -> StreamerModel {
        StreamerModel {
            width,
            height,
            clients: Seq::empty(),
            running: false,
            framebuffer_path: rootfs_path + "/dev/graphics/fb0"@,
            latest_data: Seq::empty(),
            latest_width: 0,
            latest_height: 0,
            latest_dirty: false,
            pattern: zero_bytes(frame_bytes(width, height)),
            frame_counter: 0,
        }
    }

    /// The buffer of the test picture holds one picture of the screen's
    /// size.
    pub open spec fn wf(self) -> bool {
        self.pattern.len() == frame_bytes(self.width, self.height)
    }

    /// Whether the guest has presented a picture that can be shown.
    pub open spec fn has_latest(self) -> bool {
        self.latest_data.len() > 0 && self.latest_width > 0 && self.latest_height > 0
    }

    /// The picture that the guest presented last, with its own width and
    /// height, whatever the screen's are.
    pub open spec fn latest_frame(self) -> Option<FrameValue> {
        if self.has_latest() {
            Some(
                FrameValue {
                    data: self.latest_data,
                    width: i32_of_bits(self.latest_width),
                    height: i32_of_bits(self.latest_height),
                },
            )
        } else {
            None
        }
    }

    /// The streamer after [`start`](FrameStreamer::start), and whether a
    /// worker is to be launched: only where none is running.
    pub open spec fn start(self) -> (StreamerModel, bool) {
        (StreamerModel { running: true, ..self }, !self.running)
    }

    /// The viewers without `client`, the others in the order they came.
    pub open spec fn without(self, client: u64) -> Seq<u64> {
        without(self.clients, client)
    }

    /// The picture that goes out on a tick. The guest's picture comes
    /// first; without one, what the framebuffer device gave, if that is a
    /// whole picture of the screen's size; and else the test picture.
    /// `device` is what was read from the framebuffer device, `None` where
    /// it was not read or could not be.
    pub open spec fn next_frame(self, device: Option<Seq<u8>>) -> FrameValue {
        match self.latest_frame() {
            Some(frame) => frame,
            None => FrameValue {
                data: fallback_data(
                    device,
                    self.pattern,
                    self.width,
                    self.height,
                    self.frame_counter,
                    frame_bytes(self.width, self.height),
                ),
                width: self.width,
                height: self.height,
            },
        }
    }

    /// The buffer of the test picture after a tick: drawn over where the
    /// test picture went out, left alone otherwise.
    pub open spec fn next_pattern(self, device: Option<Seq<u8>>) -> Seq<u8> {
        if !self.has_latest() && fallback_draws(device, frame_bytes(self.width, self.height)) {
            test_pattern(self.pattern, self.width as int, self.height as int, self.frame_counter)
        } else {
            self.pattern
        }
    }

    /// The frame counter after a tick; it starts over after its last value.
    pub open spec fn next_counter(self) -> u32 {
        if self.frame_counter == u32::MAX {
            0
        } else {
            (self.frame_counter + 1) as u32
        }
    }
}

/// The framebuffer streamer.
pub struct FrameStreamer {
    width: i32,
    height: i32,
    clients: Vec<u64>,
    running: bool,
    framebuffer_path: String,
    gralloc_framebuffer: FramebufferData,
    frame_data: Vec<u8>,
    frame_counter: u32,
}

impl View for FrameStreamer {
    type V = StreamerModel;

    closed spec fn view(&self) -> StreamerModel {
        StreamerModel {
            width: self.width,
            height: self.height,
            clients: self.clients@,
            running: self.running,
            framebuffer_path: self.framebuffer_path@,
            latest_data: self.gralloc_framebuffer.data@,
            latest_width: self.gralloc_framebuffer.width,
            latest_height: self.gralloc_framebuffer.height,
            latest_dirty: self.gralloc_framebuffer.dirty,
            pattern: self.frame_data@,
            frame_counter: self.frame_counter,
        }
    }
}

impl FrameStreamer {
    /// The buffer of the test picture holds one picture of the screen's
    /// size.
    #[verifier::type_invariant]
    spec fn inv(&self) -> bool {
        self.frame_data@.len() == frame_bytes(self.width, self.height)
    }

    /// A streamer for a screen of `width` by `height` and a guest whose root
    /// directory is `rootfs_path`. It does not run yet.
    pub fn new(width: i32, height: i32, rootfs_path: &str) -> (s: Self)
        ensures
            s@ == StreamerModel::initial(width, height, rootfs_path@),
            s@.wf(),
    {
        let framebuffer_path = String::from_str(rootfs_path).concat("/dev/graphics/fb0");
        let frame_data = vec![0u8; frame_size(width, height)];
        assert(frame_data@ =~= zero_bytes(frame_bytes(width, height)));
        FrameStreamer {
            width,
            height,
            clients: Vec::new(),
            running: false,
            framebuffer_path,
            gralloc_framebuffer: FramebufferData::default(),
            frame_data,
            frame_counter: 0,
        }
    }

    /// Takes a picture that the guest presented.
    pub fn frame_presented(&mut self, data: &[u8], width: u32, height: u32)
        ensures
            final(self)@ == (StreamerModel {
                latest_data: data@,
                latest_width: width,
                latest_height: height,
                latest_dirty: true,
                ..old(self)@
            }),
            final(self)@.wf(),
    {
        proof {
            use_type_invariant(&*self);
        }
        self.gralloc_framebuffer = FramebufferData {
            data: slice_to_vec(data),
            width,
            height,
            dirty: true,
        };
    }

    /// The picture that the guest presented last.
    pub fn get_framebuffer_data(&self) -> (f: &FramebufferData)
        ensures
            f.data@ == self@.latest_data,
            f.width == self@.latest_width,
            f.height == self@.latest_height,
            f.dirty == self@.latest_dirty,
            self@.wf(),
    {
        proof {
            use_type_invariant(self);
        }
        &self.gralloc_framebuffer
    }

    /// Where the framebuffer device lies.
    pub fn framebuffer_path(&self) -> (p: &str)
        ensures
            p@ == self@.framebuffer_path,
            self@.wf(),
    {
        proof {
            use_type_invariant(self);
        }
        self.framebuffer_path.as_str()
    }

    /// Adds a viewer behind those that are there.
    pub fn add_client(&mut self, client: u64)
        ensures
            final(self)@ == (StreamerModel {
                clients: old(self)@.clients.push(client),
                ..old(self)@
            }),
            final(self)@.wf(),
    {
        proof {
            use_type_invariant(&*self);
        }
        let mut clients = Vec::new();
        std::mem::swap(&mut self.clients, &mut clients);
        clients.push(client);
        std::mem::swap(&mut self.clients, &mut clients);
    }

    /// Drops a viewer that could not be written to.
    pub fn remove_client(&mut self, client: u64)
        ensures
            final(self)@ == (StreamerModel { clients: old(self)@.without(client), ..old(self)@ }),
            final(self)@.wf(),
    {
        proof {
            use_type_invariant(&*self);
        }
        let mut kept: Vec<u64> = Vec::new();
        let mut i: usize = 0;
        while i < self.clients.len()
            invariant
                i <= self.clients.len(),
                self@ == old(self)@,
                kept@ == without(self.clients@.subrange(0, i as int), client),
            decreases self.clients.len() - i,
        {
            let c = self.clients[i];
            proof {
                let next = self.clients@.subrange(0, i + 1);
                assert(next.drop_last() =~= self.clients@.subrange(0, i as int));
            }
            if c != client {
                kept.push(c);
            }
            i += 1;
        }
        assert(self.clients@.subrange(0, self.clients@.len() as int) =~= self.clients@);
        self.clients = kept;
    }

    /// The viewers, in the order in which a frame is written to them.
    pub fn clients(&self) -> (c: &Vec<u64>)
        ensures
            c@ == self@.clients,
            self@.wf(),
    {
        proof {
            use_type_invariant(self);
        }
        &self.clients
    }

    /// Marks the streamer as running. The caller launches the worker
    /// exactly when this returns `true`.
    pub fn start(&mut self) -> (launch: bool)
        ensures
            final(self)@ == old(self)@.start().0,
            launch == old(self)@.start().1,
            final(self)@.wf(),
    {
        proof {
            use_type_invariant(&*self);
        }
        let was = self.running;
        self.running = true;
        !was
    }

    /// Marks the streamer as stopped; its worker ends with the tick it is in.
    pub fn stop(&mut self)
        ensures
            final(self)@ == (StreamerModel { running: false, ..old(self)@ }),
            final(self)@.wf(),
    {
        proof {
            use_type_invariant(&*self);
        }
        self.running = false;
    }

    /// Whether the streamer is marked as running.
    pub fn is_running(&self) -> (r: bool)
        ensures
            r == self@.running,
            self@.wf(),
    {
        proof {
            use_type_invariant(self);
        }
        self.running
    }

    /// Bytes of a picture of the screen's size: how many to read from the
    /// framebuffer device.
    pub fn frame_size(&self) -> (n: usize)
        ensures
            n == frame_bytes(self@.width, self@.height),
            self@.wf(),
    {
        proof {
            use_type_invariant(self);
        }
        frame_size(self.width, self.height)
    }

    /// The picture to send on this tick if the guest has presented one.
    pub fn latest_frame(&self) -> (r: Option<Frame>)
        ensures
            match r {
                Some(f) => self@.latest_frame() == Some(f@),
                None => self@.latest_frame() is None,
            },
    {
        if self.gralloc_framebuffer.is_usable() {
            Some(
                Frame {
                    data: slice_to_vec(self.gralloc_framebuffer.data.as_slice()),
                    width: i32_from_bits(self.gralloc_framebuffer.width),
                    height: i32_from_bits(self.gralloc_framebuffer.height),
                },
            )
        } else {
            None
        }
    }

    /// The picture to send on this tick where the guest has presented none.
    /// `device` is what reading [`frame_size`](Self::frame_size) bytes from
    /// the framebuffer device gave, `None` where it could not be read.
    pub fn fallback_frame(&mut self, device: Option<Vec<u8>>) -> (f: Frame)
        ensures
            f@ == (FrameValue {
                data: fallback_data(
                    match device {
                        Some(bytes) => Some(bytes@),
                        None => None,
                    },
                    old(self)@.pattern,
                    old(self)@.width,
                    old(self)@.height,
                    old(self)@.frame_counter,
                    frame_bytes(old(self)@.width, old(self)@.height),
                ),
                width: old(self)@.width,
                height: old(self)@.height,
            }),
            final(self)@ == (StreamerModel {
                pattern: if fallback_draws(
                    match device {
                        Some(bytes) => Some(bytes@),
                        None => None,
                    },
                    frame_bytes(old(self)@.width, old(self)@.height),
                ) {
                    test_pattern(
                        old(self)@.pattern,
                        old(self)@.width as int,
                        old(self)@.height as int,
                        old(self)@.frame_counter,
                    )
                } else {
                    old(self)@.pattern
                },
                ..old(self)@
            }),
            f@.data.len() == frame_bytes(old(self)@.width, old(self)@.height),
            final(self)@.wf(),
    {
        proof {
            use_type_invariant(&*self);
        }
        match device {
            Some(bytes) => {
                if bytes.len() == frame_size(self.width, self.height) {
                    return Frame { data: bytes, width: self.width, height: self.height };
                }
            },
            None => {},
        }
        generate_test_pattern(&mut self.frame_data, self.width, self.height, self.frame_counter);
        Frame {
            data: slice_to_vec(self.frame_data.as_slice()),
            width: self.width,
            height: self.height,
        }
    }

    /// Whether the framebuffer device is to be read on this tick: only
    /// where the guest has presented no picture.
    pub fn needs_fallback(&self) -> (r: bool)
        ensures
            r == !self@.has_latest(),
            self@.wf(),
    {
        proof {
            use_type_invariant(self);
        }
        !self.gralloc_framebuffer.is_usable()
    }

    /// The picture to send on this tick. `device` is what reading
    /// [`frame_size`](Self::frame_size) bytes from the framebuffer device
    /// gave, `None` where it was not read or could not be; it is looked at
    /// only where the guest has presented no picture.
    pub fn next_frame(&mut self, device: Option<Vec<u8>>) -> (f: Frame)
        ensures
            f@ == old(self)@.next_frame(
                match device {
                    Some(bytes) => Some(bytes@),
                    None => None,
                },
            ),
            final(self)@ == (StreamerModel {
                pattern: old(self)@.next_pattern(
                    match device {
                        Some(bytes) => Some(bytes@),
                        None => None,
                    },
                ),
                ..old(self)@
            }),
            !old(self)@.has_latest() ==> f@.data.len() == frame_bytes(
                old(self)@.width,
                old(self)@.height,
            ),
            final(self)@.wf(),
    {
        proof {
            use_type_invariant(&*self);
        }
        match self.latest_frame() {
            Some(frame) => frame,
            None => self.fallback_frame(device),
        }
    }

    /// Ends a tick: the next frame is the next in the count.
    pub fn finish_tick(&mut self)
        ensures
            final(self)@ == (StreamerModel {
                frame_counter: old(self)@.next_counter(),
                ..old(self)@
            }),
            final(self)@.wf(),
    {
        proof {
            use_type_invariant(&*self);
        }
        self.frame_counter = if self.frame_counter == u32::MAX {
            0
        } else {
            self.frame_counter + 1
        };
    }
}

/// Starting a streamer twice launches one worker: the second start finds it
/// running and launches nothing.
pub proof fn lemma_start_is_idempotent(s: StreamerModel)
    ensures
        s.start().0.running,
        !s.start().0.start().1,
        s.start().0.start().0 == s.start().0,
        !s.running ==> s.start().1,
{
}

/// Without a picture from the guest, what goes out is one picture of the
/// screen's size, four bytes a pixel, whether it comes from the framebuffer
/// device or is the test picture; and the buffer of the test picture keeps
/// that size.
pub proof fn lemma_fallback_has_the_screens_size(s: StreamerModel, device: Option<Seq<u8>>)
    requires
        s.wf(),
        !s.has_latest(),
    ensures
        s.next_frame(device).data.len() == frame_bytes(s.width, s.height),
        s.next_frame(device).width == s.width,
        s.next_frame(device).height == s.height,
        s.next_pattern(device).len() == frame_bytes(s.width, s.height),
{
}

/// A picture from the guest goes out as it is, under its own width and
/// height, whether or not they are the screen's, and whatever the
/// framebuffer device holds.
pub proof fn lemma_latest_passes_through(s: StreamerModel, device: Option<Seq<u8>>)
    requires
        s.has_latest(),
    ensures
        s.next_frame(device).data == s.latest_data,
        i32_bits(s.next_frame(device).width) == s.latest_width,
        i32_bits(s.next_frame(device).height) == s.latest_height,
        s.next_pattern(device) == s.pattern,
{
}

} // verus!
