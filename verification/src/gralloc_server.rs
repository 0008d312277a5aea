//! The allocator's state machine: a table of buffers keyed by id, the id that
//! is presented for display, and one transition per command of the protocol.
//!
//! Nothing here touches a socket. The daemon reads a request, hands it to the
//! server, and writes what comes back.

use crate::gralloc::{
    buffer_size, lemma_request_round_trip, max_buffer_bytes, BufferDescriptor, GrallocBuffer,
    GrallocCommand, GrallocRequest, GrallocResponse, PixelFormat, STATUS_ERROR, STATUS_OK,
};
use crate::wire::{append_bytes, zero_bytes};
use std::collections::HashMap;
use vstd::prelude::*;
use vstd::slice::slice_to_vec;
use vstd::string::StringExecFns;

verus! {

broadcast use vstd::std_specs::hash::group_hash_axioms;

/// `data` with its front overwritten by `patch`; what of `patch` does not
/// fit is dropped, and `data` keeps its length.
pub open spec fn overlay(data: Seq<u8>, patch: Seq<u8>) -> Seq<u8> {
    Seq::new(
        data.len(),
        |i: int|
            if i < patch.len() {
                patch[i]
            } else {
                data[i]
            },
    )
}

/// `bytes` cut or padded with zeros to exactly `n` bytes.
pub open spec fn fit(bytes: Seq<u8>, n: nat) -> Seq<u8> {
    Seq::new(
        n,
        |i: int|
            if i < bytes.len() {
                bytes[i]
            } else {
                0u8
            },
    )
}

/// What the table holds of one buffer.
pub struct BufferModel {
    pub descriptor: BufferDescriptor,
    pub data: Seq<u8>,
}

impl BufferModel {
    /// The buffer holds the bytes that its shape calls for, and no more
    /// than one allocation can hold.
    pub open spec fn wf(self) -> bool {
        &&& self.data.len() == self.descriptor.byte_len()
        &&& self.descriptor.byte_len() <= max_buffer_bytes()
    }

    /// The buffer as a picture.
    pub open spec fn frame(self) -> FrameModel {
        FrameModel {
            data: self.data,
            width: self.descriptor.width,
            height: self.descriptor.height,
        }
    }
}

/// A picture ready for display: its bytes and its size in pixels.
pub struct FrameModel {
    pub data: Seq<u8>,
    pub width: u32,
    pub height: u32,
}

/// What the server sends back for one request.
pub struct ReplyModel {
    pub response: GrallocResponse,
    pub pixels: Seq<u8>,
    pub frame: Option<FrameModel>,
}

impl ReplyModel {
    /// A reply that is a response and nothing more.
    pub open spec fn plain(response: GrallocResponse) -> ReplyModel {
        ReplyModel { response, pixels: Seq::empty(), frame: None }
    }

    /// The bytes that go to the guest: the response, then the pixels.
    pub open spec fn wire(self) -> Seq<u8> {
        self.response.wire() + self.pixels
    }
}

/// The allocator as a value: the table, the next id to hand out and the id
/// that is presented.
pub struct ServerModel {
    pub buffers: Map<u64, BufferModel>,
    pub next_id: u64,
    pub presented: Option<u64>,
    pub default_width: u32,
    pub default_height: u32,
    pub running: bool,
    pub socket_path: Seq<char>,
}

impl ServerModel {
    /// Ids start at 1 and every id in the table was handed out before
    /// `next_id`; every buffer has the length that its shape calls for.
    pub open spec fn wf(self) -> bool {
        &&& self.next_id >= 1
        &&& forall|id: u64| #[trigger]
            self.buffers.contains_key(id) ==> 1 <= id < self.next_id && self.buffers[id].wf()
    }

    /// A server that has handed out nothing yet.
    pub open spec fn initial(socket_path: Seq<char>, width: u32, height: u32) -> ServerModel {
        ServerModel {
            buffers: Map::empty(),
            next_id: 1,
            presented: None,
            default_width: width,
            default_height: height,
            running: false,
            socket_path,
        }
    }

    /// The shape that an Allocate request asks for: its own width and
    /// height, or the server's where the request leaves one at zero; rows
    /// lie `width` pixels apart.
    pub open spec fn requested_shape(self, req: GrallocRequest) -> BufferDescriptor {
        let width = if req.width > 0 {
            req.width
        } else {
            self.default_width
        };
        let height = if req.height > 0 {
            req.height
        } else {
            self.default_height
        };
        BufferDescriptor {
            width,
            height,
            format: PixelFormat::of_code_or_default(req.format),
            usage: req.usage,
            stride: width,
        }
    }

    /// Whether an Allocate request can be served: an id is left and one
    /// allocation can hold the buffer.
    pub open spec fn can_allocate(self, req: GrallocRequest) -> bool {
        &&& self.next_id < u64::MAX
        &&& self.requested_shape(req).byte_len() <= max_buffer_bytes()
    }

    /// Allocate puts a zeroed buffer of the requested shape into the table
    /// under the next id and answers with its description. Where it cannot
    /// be served it changes nothing.
    pub open spec fn allocate(self, req: GrallocRequest) -> (ServerModel, GrallocResponse) {
        let d = self.requested_shape(req);
        if self.can_allocate(req) {
            (
                ServerModel {
                    buffers: self.buffers.insert(
                        self.next_id,
                        BufferModel { descriptor: d, data: zero_bytes(d.byte_len()) },
                    ),
                    next_id: (self.next_id + 1) as u64,
                    ..self
                },
                GrallocResponse::describing(self.next_id, d),
            )
        } else {
            (self, GrallocResponse::bare(STATUS_ERROR, 0))
        }
    }

    /// Free takes the buffer out of the table, and fails where the table
    /// does not hold it.
    pub open spec fn free(self, req: GrallocRequest) -> (ServerModel, GrallocResponse) {
        if self.buffers.contains_key(req.buffer_id) {
            (
                ServerModel { buffers: self.buffers.remove(req.buffer_id), ..self },
                GrallocResponse::bare(STATUS_OK, req.buffer_id),
            )
        } else {
            (self, GrallocResponse::bare(STATUS_ERROR, req.buffer_id))
        }
    }

    /// GetInfo answers with the buffer's description, and fails where the
    /// table does not hold the buffer.
    pub open spec fn get_info(self, req: GrallocRequest) -> GrallocResponse {
        if self.buffers.contains_key(req.buffer_id) {
            GrallocResponse::describing(req.buffer_id, self.buffers[req.buffer_id].descriptor)
        } else {
            GrallocResponse::bare(STATUS_ERROR, req.buffer_id)
        }
    }

    /// Lock answers with the buffer's description and, after it, the
    /// buffer's bytes.
    pub open spec fn lock(self, req: GrallocRequest) -> ReplyModel {
        if self.buffers.contains_key(req.buffer_id) {
            ReplyModel {
                response: self.get_info(req),
                pixels: self.buffers[req.buffer_id].data,
                frame: None,
            }
        } else {
            ReplyModel::plain(GrallocResponse::bare(STATUS_ERROR, req.buffer_id))
        }
    }

    /// What an Unlock request answers; it changes nothing by itself.
    pub open spec fn unlock_status(self, req: GrallocRequest) -> GrallocResponse {
        if self.buffers.contains_key(req.buffer_id) {
            GrallocResponse::bare(STATUS_OK, req.buffer_id)
        } else {
            GrallocResponse::bare(STATUS_ERROR, req.buffer_id)
        }
    }

    /// The table after `data` was written over the front of buffer `id`.
    pub open spec fn written(self, id: u64, data: Seq<u8>) -> ServerModel {
        if self.buffers.contains_key(id) {
            ServerModel {
                buffers: self.buffers.insert(
                    id,
                    BufferModel { data: overlay(self.buffers[id].data, data), ..self.buffers[id] },
                ),
                ..self
            }
        } else {
            self
        }
    }

    /// Unlock with the bytes that followed the request: where the request
    /// announces any, they overwrite the front of the buffer.
    pub open spec fn unlock(self, req: GrallocRequest, payload: Seq<u8>) -> (
        ServerModel,
        GrallocResponse,
    ) {
        (
            if req.size > 0 {
                self.written(req.buffer_id, payload)
            } else {
                self
            },
            self.unlock_status(req),
        )
    }

    /// Present marks the id as the one on display, whether or not the table
    /// holds it, and hands the buffer's picture out where it does.
    pub open spec fn present(self, req: GrallocRequest) -> (ServerModel, ReplyModel) {
        (
            ServerModel { presented: Some(req.buffer_id), ..self },
            ReplyModel {
                response: GrallocResponse::bare(STATUS_OK, req.buffer_id),
                pixels: Seq::empty(),
                frame: if self.buffers.contains_key(req.buffer_id) {
                    Some(self.buffers[req.buffer_id].frame())
                } else {
                    None
                },
            },
        )
    }

    /// The picture on display: that of the presented buffer, while the table
    /// holds it.
    pub open spec fn displayed(self) -> Option<FrameModel> {
        match self.presented {
            Some(id) => if self.buffers.contains_key(id) {
                Some(self.buffers[id].frame())
            } else {
                None
            },
            None => None,
        }
    }

    /// One request, with the bytes that followed it, through the server.
    pub open spec fn step(self, req: GrallocRequest, payload: Seq<u8>) -> (
        ServerModel,
        ReplyModel,
    ) {
        match GrallocCommand::of_code(req.command) {
            Some(GrallocCommand::Allocate) => (
                self.allocate(req).0,
                ReplyModel::plain(self.allocate(req).1),
            ),
            Some(GrallocCommand::Free) => (self.free(req).0, ReplyModel::plain(self.free(req).1)),
            Some(GrallocCommand::Lock) => (self, self.lock(req)),
            Some(GrallocCommand::Unlock) => (
                self.unlock(req, payload).0,
                ReplyModel::plain(self.unlock(req, payload).1),
            ),
            Some(GrallocCommand::GetInfo) => (self, ReplyModel::plain(self.get_info(req))),
            Some(GrallocCommand::Present) => self.present(req),
            _ => (self, ReplyModel::plain(GrallocResponse::bare(STATUS_ERROR, 0))),
        }
    }
}

/// Where the allocator's socket lies unless the daemon is told otherwise:
/// `dev/gralloc` in the guest's root.
pub fn default_socket_path(rootfs: &str) -> (p: String)
    ensures
        p@ == rootfs@ + "/dev/gralloc"@,
{
    String::from_str(rootfs).concat("/dev/gralloc")
}

/// A picture handed out for display.
pub struct PresentedFrame {
    pub data: Vec<u8>,
    pub width: u32,
    pub height: u32,
}

impl View for PresentedFrame {
    type V = FrameModel;

    open spec fn view(&self) -> FrameModel {
        FrameModel { data: self.data@, width: self.width, height: self.height }
    }
}

/// What the daemon does with one request: write `response`, then `pixels`,
/// and pass `frame` on to whoever shows pictures.
pub struct GrallocReply {
    pub response: GrallocResponse,
    pub pixels: Vec<u8>,
    pub frame: Option<PresentedFrame>,
}

impl View for GrallocReply {
    type V = ReplyModel;

    open spec fn view(&self) -> ReplyModel {
        ReplyModel {
            response: self.response,
            pixels: self.pixels@,
            frame: match self.frame {
                Some(f) => Some(f@),
                None => None,
            },
        }
    }
}

impl GrallocReply {
    /// A reply that is a response and nothing more.
    pub fn plain(response: GrallocResponse) -> (r: Self)
        ensures
            r@ == ReplyModel::plain(response),
    {
        GrallocReply { response, pixels: Vec::new(), frame: None }
    }

    /// The bytes to write to the guest.
    pub fn to_bytes(&self) -> (out: Vec<u8>)
        ensures
            out@ == self@.wire(),
    {
        let head = self.response.to_bytes();
        let mut out = slice_to_vec(head.as_slice());
        append_bytes(&mut out, self.pixels.as_slice());
        out
    }
}

/// Writes `src` over the front of `dst`, as far as it fits.
pub fn overwrite_front(dst: &mut Vec<u8>, src: &[u8])
    ensures
        final(dst)@ == overlay(old(dst)@, src@),
{
    let ghost before = dst@;
    let n = if src.len() < dst.len() {
        src.len()
    } else {
        dst.len()
    };
    let mut i: usize = 0;
    while i < n
        invariant
            i <= n,
            n <= src.len(),
            n <= dst.len(),
            dst@.len() == before.len(),
            forall|k: int| 0 <= k < i ==> dst@[k] == src@[k],
            forall|k: int| i <= k < dst@.len() ==> dst@[k] == before[k],
        decreases n - i,
    {
        dst[i] = src[i];
        i += 1;
    }
}

/// The allocator: owner of every buffer.
pub struct GrallocServer {
    buffers: HashMap<u64, GrallocBuffer>,
    next_buffer_id: u64,
    display_buffer_id: Option<u64>,
    running: bool,
    socket_path: String,
    width: u32,
    height: u32,
}

impl View for GrallocServer {
    type V = ServerModel;

    closed spec fn view(&self) -> ServerModel {
        ServerModel {
            buffers: self.buffers@.map_values(
                |b: GrallocBuffer| BufferModel { descriptor: b.descriptor, data: b.data@ },
            ),
            next_id: self.next_buffer_id,
            presented: self.display_buffer_id,
            default_width: self.width,
            default_height: self.height,
            running: self.running,
            socket_path: self.socket_path@,
        }
    }
}

impl GrallocServer {
    #[verifier::type_invariant]
    spec fn inv(&self) -> bool {
        &&& self.next_buffer_id >= 1
        &&& forall|id: u64| #[trigger]
            self.buffers@.contains_key(id) ==> {
                &&& 1 <= id < self.next_buffer_id
                &&& self.buffers@[id].id == id
                &&& self.buffers@[id].wf()
                &&& self.buffers@[id].descriptor.byte_len() <= max_buffer_bytes()
            }
    }

    /// A server that has handed out nothing yet. `width` and `height` are
    /// what a request gets that names none.
    pub fn new(socket_path: &str, width: u32, height: u32) -> (s: Self)
        ensures
            s@ == ServerModel::initial(socket_path@, width, height),
            s@.wf(),
    {
        let s = GrallocServer {
            buffers: HashMap::new(),
            next_buffer_id: 1,
            display_buffer_id: None,
            running: false,
            socket_path: socket_path.to_owned(),
            width,
            height,
        };
        assert(s@.buffers =~= Map::empty());
        s
    }

    /// Marks the server as running. The caller binds the socket and starts
    /// accepting exactly when this returns `true`: a server that is already
    /// running is not started again.
    pub fn start(&mut self) -> (launch: bool)
        ensures
            launch == !old(self)@.running,
            final(self)@ == (ServerModel { running: true, ..old(self)@ }),
    {
        proof {
            use_type_invariant(&*self);
        }
        let was = self.running;
        self.running = true;
        !was
    }

    /// Marks the server as stopped.
    pub fn stop(&mut self)
        ensures
            final(self)@ == (ServerModel { running: false, ..old(self)@ }),
    {
        proof {
            use_type_invariant(&*self);
        }
        self.running = false;
    }

    /// Whether the server is marked as running.
    pub fn is_running(&self) -> (r: bool)
        ensures
            r == self@.running,
    {
        self.running
    }

    /// Where the server's socket lies.
    pub fn socket_path(&self) -> (p: &str)
        ensures
            p@ == self@.socket_path,
    {
        self.socket_path.as_str()
    }

    /// Answers an Allocate request.
    pub fn handle_allocate(&mut self, request: &GrallocRequest) -> (response: GrallocResponse)
        ensures
            final(self)@ == old(self)@.allocate(*request).0,
            response == old(self)@.allocate(*request).1,
            final(self)@.wf(),
    {
        proof {
            use_type_invariant(&*self);
        }
        let width = if request.width > 0 {
            request.width
        } else {
            self.width
        };
        let height = if request.height > 0 {
            request.height
        } else {
            self.height
        };
        let format = match PixelFormat::from_u32(request.format) {
            Some(f) => f,
            None => PixelFormat::Rgba8888,
        };
        let size = buffer_size(width, height, format);
        if self.next_buffer_id == u64::MAX || size.is_none() {
            return GrallocResponse::status_only(STATUS_ERROR, 0);
        }
        let buffer_id = self.next_buffer_id;
        let buffer = GrallocBuffer::new(buffer_id, width, height, format, request.usage);
        let response = GrallocResponse {
            status: STATUS_OK,
            buffer_id,
            width,
            height,
            stride: buffer.descriptor.stride,
            format: format.to_u32(),
            size: buffer.size() as u64,
        };
        let ghost model = BufferModel { descriptor: buffer.descriptor, data: buffer.data@ };
        // The table is taken out while it changes and put back when it is
        // whole again, so that the server is well formed at every step.
        let mut table = HashMap::new();
        std::mem::swap(&mut self.buffers, &mut table);
        table.insert(buffer_id, buffer);
        self.next_buffer_id = buffer_id + 1;
        std::mem::swap(&mut self.buffers, &mut table);
        assert(self@.buffers =~= old(self)@.buffers.insert(buffer_id, model));
        response
    }

    /// Answers a Free request.
    pub fn handle_free(&mut self, request: &GrallocRequest) -> (response: GrallocResponse)
        ensures
            final(self)@ == old(self)@.free(*request).0,
            response == old(self)@.free(*request).1,
            final(self)@.wf(),
    {
        proof {
            use_type_invariant(&*self);
        }
        let buffer_id = request.buffer_id;
        let mut table = HashMap::new();
        std::mem::swap(&mut self.buffers, &mut table);
        let removed = table.remove(&buffer_id);
        std::mem::swap(&mut self.buffers, &mut table);
        match removed {
            Some(_) => {
                assert(self@.buffers =~= old(self)@.buffers.remove(buffer_id));
                GrallocResponse::status_only(STATUS_OK, buffer_id)
            },
            None => {
                assert(self@.buffers =~= old(self)@.buffers);
                GrallocResponse::status_only(STATUS_ERROR, buffer_id)
            },
        }
    }

    /// Answers a GetInfo request.
    pub fn handle_get_info(&self, request: &GrallocRequest) -> (response: GrallocResponse)
        ensures
            response == self@.get_info(*request),
            self@.wf(),
    {
        proof {
            use_type_invariant(self);
        }
        let buffer_id = request.buffer_id;
        match self.buffers.get(&buffer_id) {
            Some(buffer) => GrallocResponse {
                status: STATUS_OK,
                buffer_id,
                width: buffer.descriptor.width,
                height: buffer.descriptor.height,
                stride: buffer.descriptor.stride,
                format: buffer.descriptor.format.to_u32(),
                size: buffer.size() as u64,
            },
            None => GrallocResponse::status_only(STATUS_ERROR, buffer_id),
        }
    }

    /// Answers a Lock request: the buffer's description, and its bytes to
    /// send after it.
    pub fn handle_lock(&self, request: &GrallocRequest) -> (reply: GrallocReply)
        ensures
            reply@ == self@.lock(*request),
            self@.wf(),
    {
        proof {
            use_type_invariant(self);
        }
        let buffer_id = request.buffer_id;
        match self.buffers.get(&buffer_id) {
            Some(buffer) => GrallocReply {
                response: GrallocResponse {
                    status: STATUS_OK,
                    buffer_id,
                    width: buffer.descriptor.width,
                    height: buffer.descriptor.height,
                    stride: buffer.descriptor.stride,
                    format: buffer.descriptor.format.to_u32(),
                    size: buffer.size() as u64,
                },
                pixels: slice_to_vec(buffer.data.as_slice()),
                frame: None,
            },
            None => GrallocReply::plain(GrallocResponse::status_only(STATUS_ERROR, buffer_id)),
        }
    }

    /// Answers an Unlock request that carries no bytes.
    pub fn handle_unlock(&self, request: &GrallocRequest) -> (response: GrallocResponse)
        ensures
            response == self@.unlock_status(*request),
            self@.wf(),
    {
        proof {
            use_type_invariant(self);
        }
        let buffer_id = request.buffer_id;
        if self.buffers.contains_key(&buffer_id) {
            GrallocResponse::status_only(STATUS_OK, buffer_id)
        } else {
            GrallocResponse::status_only(STATUS_ERROR, buffer_id)
        }
    }

    /// Writes `data` over the front of buffer `buffer_id`, as far as it
    /// fits. Returns whether the table holds such a buffer.
    pub fn write(&mut self, buffer_id: u64, data: &[u8]) -> (found: bool)
        ensures
            found == old(self)@.buffers.contains_key(buffer_id),
            final(self)@ == old(self)@.written(buffer_id, data@),
            final(self)@.wf(),
    {
        proof {
            use_type_invariant(&*self);
        }
        let mut table = HashMap::new();
        std::mem::swap(&mut self.buffers, &mut table);
        let found = match table.remove(&buffer_id) {
            Some(buffer) => {
                let mut buffer = buffer;
                overwrite_front(&mut buffer.data, data);
                table.insert(buffer_id, buffer);
                true
            },
            None => false,
        };
        std::mem::swap(&mut self.buffers, &mut table);
        assert(self@.buffers =~= old(self)@.written(buffer_id, data@).buffers);
        found
    }

    /// Answers an Unlock request together with the bytes that followed it:
    /// `payload` is what the guest sent after the request, empty where the
    /// request announced none.
    pub fn handle_unlock_with_data(
        &mut self,
        request: &GrallocRequest,
        payload: &[u8],
    ) -> (response: GrallocResponse)
        ensures
            final(self)@ == old(self)@.unlock(*request, payload@).0,
            response == old(self)@.unlock(*request, payload@).1,
            final(self)@.wf(),
    {
        proof {
            use_type_invariant(&*self);
        }
        let buffer_id = request.buffer_id;
        let found = if request.size > 0 {
            self.write(buffer_id, payload)
        } else {
            self.buffers.contains_key(&buffer_id)
        };
        if found {
            GrallocResponse::status_only(STATUS_OK, buffer_id)
        } else {
            GrallocResponse::status_only(STATUS_ERROR, buffer_id)
        }
    }

    /// Answers a Present request. The reply's `frame` is the picture to pass
    /// on, present exactly when the table holds the buffer.
    pub fn handle_present(&mut self, request: &GrallocRequest) -> (reply: GrallocReply)
        ensures
            final(self)@ == old(self)@.present(*request).0,
            reply@ == old(self)@.present(*request).1,
            final(self)@.wf(),
    {
        proof {
            use_type_invariant(&*self);
        }
        let buffer_id = request.buffer_id;
        self.display_buffer_id = Some(buffer_id);
        let frame = match self.buffers.get(&buffer_id) {
            Some(buffer) => Some(
                PresentedFrame {
                    data: slice_to_vec(buffer.data.as_slice()),
                    width: buffer.descriptor.width,
                    height: buffer.descriptor.height,
                },
            ),
            None => None,
        };
        GrallocReply {
            response: GrallocResponse::status_only(STATUS_OK, buffer_id),
            pixels: Vec::new(),
            frame,
        }
    }

    /// The picture on display, if the presented buffer is still there.
    pub fn get_display_buffer(&self) -> (r: Option<(Vec<u8>, u32, u32)>)
        ensures
            match r {
                Some((data, width, height)) => self@.displayed() == Some(
                    FrameModel { data: data@, width, height },
                ),
                None => self@.displayed() is None,
            },
            self@.wf(),
    {
        proof {
            use_type_invariant(self);
        }
        match self.display_buffer_id {
            Some(buffer_id) => match self.buffers.get(&buffer_id) {
                Some(buffer) => Some(
                    (
                        slice_to_vec(buffer.data.as_slice()),
                        buffer.descriptor.width,
                        buffer.descriptor.height,
                    ),
                ),
                None => None,
            },
            None => None,
        }
    }

    /// Serves one request. `payload` is what followed the request on the
    /// wire; only Unlock looks at it.
    pub fn handle_request(&mut self, request: &GrallocRequest, payload: &[u8]) -> (reply:
        GrallocReply)
        ensures
            final(self)@ == old(self)@.step(*request, payload@).0,
            reply@ == old(self)@.step(*request, payload@).1,
            final(self)@.wf(),
    {
        proof {
            use_type_invariant(&*self);
        }
        match GrallocCommand::from_u32(request.command) {
            Some(GrallocCommand::Allocate) => GrallocReply::plain(self.handle_allocate(request)),
            Some(GrallocCommand::Free) => GrallocReply::plain(self.handle_free(request)),
            Some(GrallocCommand::Lock) => self.handle_lock(request),
            Some(GrallocCommand::Unlock) => GrallocReply::plain(
                self.handle_unlock_with_data(request, payload),
            ),
            Some(GrallocCommand::GetInfo) => GrallocReply::plain(self.handle_get_info(request)),
            Some(GrallocCommand::Present) => self.handle_present(request),
            _ => GrallocReply::plain(GrallocResponse::status_only(STATUS_ERROR, 0)),
        }
    }
}

/// Writes `data` over the front of a buffer of `server`, as far as it fits.
/// Returns whether the server holds a buffer `buffer_id`.
pub fn write_buffer_data(server: &mut GrallocServer, buffer_id: u64, data: &[u8]) -> (found: bool)
    ensures
        found == old(server)@.buffers.contains_key(buffer_id),
        final(server)@ == old(server)@.written(buffer_id, data@),
        final(server)@.wf(),
{
    server.write(buffer_id, data)
}

/// A connection to the allocator between two reads: either a request is
/// due, or the bytes that an Unlock request announced.
pub struct SessionModel {
    pub pending: Option<GrallocRequest>,
    pub closed: bool,
}

impl SessionModel {
    /// A connection that was just accepted.
    pub open spec fn start() -> SessionModel {
        SessionModel { pending: None, closed: false }
    }

    /// How many bytes the daemon reads next.
    pub open spec fn wanted(self) -> nat {
        if self.closed {
            0
        } else {
            match self.pending {
                Some(req) => req.size as nat,
                None => 48,
            }
        }
    }

    /// Whether `req` is an Unlock that announces bytes to follow.
    pub open spec fn announces_payload(req: GrallocRequest) -> bool {
        GrallocCommand::of_code(req.command) == Some(GrallocCommand::Unlock) && req.size > 0
    }

    /// What the connection and the server become once `bytes` were read, and
    /// what is sent back. Bytes too few for a request are passed over. An
    /// Unlock that announces more bytes than one allocation can hold ends
    /// the connection: they cannot be read, so what follows them can no
    /// longer be told apart.
    pub open spec fn feed(self, server: ServerModel, bytes: Seq<u8>) -> (
        SessionModel,
        ServerModel,
        Option<ReplyModel>,
    ) {
        if self.closed {
            (self, server, None)
        } else {
            match self.pending {
                Some(req) => (
                    SessionModel::start(),
                    server.unlock(req, bytes).0,
                    Some(ReplyModel::plain(server.unlock(req, bytes).1)),
                ),
                None => if bytes.len() < 48 {
                    (self, server, None)
                } else {
                    let req = GrallocRequest::parse(bytes);
                    if SessionModel::announces_payload(req) {
                        if req.size <= max_buffer_bytes() {
                            (SessionModel { pending: Some(req), closed: false }, server, None)
                        } else {
                            (SessionModel { pending: None, closed: true }, server, None)
                        }
                    } else {
                        (
                            self,
                            server.step(req, Seq::empty()).0,
                            Some(server.step(req, Seq::empty()).1),
                        )
                    }
                },
            }
        }
    }
}

/// One guest connection.
pub struct ClientSession {
    pending: Option<GrallocRequest>,
    closed: bool,
}

impl View for ClientSession {
    type V = SessionModel;

    closed spec fn view(&self) -> SessionModel {
        SessionModel { pending: self.pending, closed: self.closed }
    }
}

impl ClientSession {
    /// What a request announces fits into one allocation.
    #[verifier::type_invariant]
    spec fn inv(&self) -> bool {
        self.pending matches Some(req) ==> req.size <= max_buffer_bytes()
    }

    /// A connection that was just accepted.
    pub fn new() -> (s: Self)
        ensures
            s@ == SessionModel::start(),
    {
        ClientSession { pending: None, closed: false }
    }

    /// Whether the bytes that an Unlock announced are due. A stream that
    /// ends now has lost them.
    pub fn is_awaiting_payload(&self) -> (r: bool)
        ensures
            r == (!self@.closed && self@.pending is Some),
    {
        !self.closed && self.pending.is_some()
    }

    /// Whether the connection is to be closed.
    pub fn is_closed(&self) -> (r: bool)
        ensures
            r == self@.closed,
    {
        self.closed
    }

    /// How many bytes to read from the guest before the next call of
    /// [`handle_gralloc_client`].
    pub fn bytes_wanted(&self) -> (n: usize)
        ensures
            n == self@.wanted(),
    {
        proof {
            use_type_invariant(self);
        }
        if self.closed {
            0
        } else {
            match self.pending {
                Some(req) => if req.size <= isize::MAX as u64 {
                    req.size as usize
                } else {
                    0
                },
                None => GrallocRequest::SIZE,
            }
        }
    }
}

/// Serves a connection with the bytes just read from it: a request, or the
/// bytes that the last request announced. Returns what to send back, if
/// anything.
pub fn handle_gralloc_client(
    server: &mut GrallocServer,
    session: &mut ClientSession,
    bytes: &[u8],
) -> (reply: Option<GrallocReply>)
    ensures
        final(session)@ == old(session)@.feed(old(server)@, bytes@).0,
        final(server)@ == old(session)@.feed(old(server)@, bytes@).1,
        match reply {
            Some(r) => old(session)@.feed(old(server)@, bytes@).2 == Some(r@),
            None => old(session)@.feed(old(server)@, bytes@).2 is None,
        },
        final(server)@.wf(),
{
    proof {
        use_type_invariant(&*server);
    }
    if session.closed {
        return None;
    }
    match session.pending {
        Some(req) => {
            session.pending = None;
            Some(GrallocReply::plain(server.handle_unlock_with_data(&req, bytes)))
        },
        None => match GrallocRequest::from_bytes(bytes) {
            None => None,
            Some(req) => {
                let unlock = match GrallocCommand::from_u32(req.command) {
                    Some(GrallocCommand::Unlock) => true,
                    _ => false,
                };
                if unlock && req.size > 0 {
                    if req.size <= isize::MAX as u64 {
                        session.pending = Some(req);
                    } else {
                        session.closed = true;
                    }
                    None
                } else {
                    let empty: Vec<u8> = Vec::new();
                    Some(server.handle_request(&req, empty.as_slice()))
                }
            },
        },
    }
}

/// A request that arrives on a fresh connection as its 48 bytes is served
/// as that request. An Unlock that announces bytes is served once they have
/// arrived, and then with exactly those bytes.
pub proof fn lemma_session_serves_the_wire(
    server: ServerModel,
    req: GrallocRequest,
    payload: Seq<u8>,
)
    requires
        req.size <= max_buffer_bytes(),
    ensures
        !SessionModel::announces_payload(req) ==> SessionModel::start().feed(server, req.wire())
            == (
            SessionModel::start(),
            server.step(req, Seq::empty()).0,
            Some(server.step(req, Seq::empty()).1),
        ),
        SessionModel::announces_payload(req) ==> {
            let waiting = SessionModel::start().feed(server, req.wire());
            &&& waiting.0.wanted() == req.size
            &&& waiting.1 == server
            &&& waiting.2 is None
            &&& waiting.0.feed(server, payload) == (
                SessionModel::start(),
                server.step(req, payload).0,
                Some(server.step(req, payload).1),
            )
        },
{
    lemma_request_round_trip(req);
}

/// The replies to a run of requests, in the order of the requests.
pub open spec fn replies(s: ServerModel, trace: Seq<(GrallocRequest, Seq<u8>)>) -> Seq<ReplyModel>
    decreases trace.len(),
{
    if trace.len() == 0 {
        Seq::empty()
    } else {
        replies(s, trace.drop_last()).push(
            run(s, trace.drop_last()).step(trace.last().0, trace.last().1).1,
        )
    }
}

/// What the daemon reads from a connection that carries a run of requests:
/// for each request its 48 bytes, then, where the request announces them,
/// the bytes that follow it.
pub open spec fn reads_of(trace: Seq<(GrallocRequest, Seq<u8>)>) -> Seq<Seq<u8>>
    decreases trace.len(),
{
    if trace.len() == 0 {
        Seq::empty()
    } else if SessionModel::announces_payload(trace.last().0) {
        reads_of(trace.drop_last()).push(trace.last().0.wire()).push(trace.last().1)
    } else {
        reads_of(trace.drop_last()).push(trace.last().0.wire())
    }
}

/// The connection, the server and the replies sent after a run of reads.
pub open spec fn serve(session: SessionModel, server: ServerModel, reads: Seq<Seq<u8>>) -> (
    SessionModel,
    ServerModel,
    Seq<ReplyModel>,
)
    decreases reads.len(),
{
    if reads.len() == 0 {
        (session, server, Seq::empty())
    } else {
        let before = serve(session, server, reads.drop_last());
        let fed = before.0.feed(before.1, reads.last());
        (
            fed.0,
            fed.1,
            match fed.2 {
                Some(reply) => before.2.push(reply),
                None => before.2,
            },
        )
    }
}

/// Requests on one connection are served in order: a connection that
/// carries a run of requests, however long, leaves the server as the
/// requests one after the other leave it, and is sent their replies in
/// their order, one reply a request. Each announced payload must be one that
/// can be read.
pub proof fn lemma_connection_serves_in_order(
    server: ServerModel,
    trace: Seq<(GrallocRequest, Seq<u8>)>,
)
    requires
        forall|k: int|
            0 <= k < trace.len() ==> (#[trigger] trace[k]).0.size <= max_buffer_bytes(),
    ensures
        serve(SessionModel::start(), server, reads_of(trace)) == (
            SessionModel::start(),
            run(server, trace),
            replies(server, trace),
        ),
    decreases trace.len(),
{
    if trace.len() > 0 {
        let front = trace.drop_last();
        let req = trace.last().0;
        let payload = trace.last().1;
        assert(trace[trace.len() - 1].0.size <= max_buffer_bytes());
        lemma_connection_serves_in_order(server, front);
        let at = run(server, front);
        lemma_session_serves_the_wire(at, req, payload);
        let reads = reads_of(front);
        if SessionModel::announces_payload(req) {
            let first = reads.push(req.wire());
            assert(first.drop_last() =~= reads);
            assert(first.push(payload).drop_last() =~= first);
            assert(serve(SessionModel::start(), server, first) == (
                SessionModel::start().feed(at, req.wire()).0,
                at,
                replies(server, front),
            ));
        } else {
            assert(reads.push(req.wire()).drop_last() =~= reads);
            assert(at.step(req, payload) == at.step(req, Seq::empty()));
        }
    }
}

/// Serving a request keeps the server well formed.
pub proof fn lemma_step_keeps_wf(s: ServerModel, req: GrallocRequest, payload: Seq<u8>)
    requires
        s.wf(),
    ensures
        s.step(req, payload).0.wf(),
{
}

/// GetInfo for a buffer that was just allocated answers what Allocate
/// answered, and the size in it is stride times height times the bytes of a
/// pixel.
pub proof fn lemma_info_matches_allocation(
    s: ServerModel,
    alloc: GrallocRequest,
    info: GrallocRequest,
)
    requires
        s.wf(),
        s.allocate(alloc).1.status == STATUS_OK,
        info.buffer_id == s.allocate(alloc).1.buffer_id,
    ensures
        s.allocate(alloc).0.get_info(info) == s.allocate(alloc).1,
        s.allocate(alloc).1.size == s.allocate(alloc).1.stride * s.allocate(alloc).1.height
            * PixelFormat::of_code_or_default(s.allocate(alloc).1.format).bpp(),
        PixelFormat::of_code(s.allocate(alloc).1.format) is Some,
{
}

/// The server after a run of requests, each with the bytes that followed it.
pub open spec fn run(s: ServerModel, trace: Seq<(GrallocRequest, Seq<u8>)>) -> ServerModel
    decreases trace.len(),
{
    if trace.len() == 0 {
        s
    } else {
        run(s, trace.drop_last()).step(trace.last().0, trace.last().1).0
    }
}

/// Whether `req` is a Free of buffer `id`.
pub open spec fn frees(req: GrallocRequest, id: u64) -> bool {
    GrallocCommand::of_code(req.command) == Some(GrallocCommand::Free) && req.buffer_id == id
}

/// An id is handed out once: the id that Allocate answers with is the
/// server's next, was never in the table before, and is not handed out
/// again, since the next id lies behind it.
pub proof fn lemma_ids_are_fresh(s: ServerModel, alloc: GrallocRequest)
    requires
        s.wf(),
        s.allocate(alloc).1.status == STATUS_OK,
    ensures
        s.allocate(alloc).1.buffer_id == s.next_id,
        s.allocate(alloc).1.buffer_id >= 1,
        !s.buffers.contains_key(s.next_id),
        s.allocate(alloc).0.buffers.contains_key(s.next_id),
        s.allocate(alloc).0.next_id == s.next_id + 1,
{
}

/// Only Allocate puts a buffer into the table and only Free takes one out;
/// only Present changes which id is presented, and no request takes the
/// mark away. The next id never goes back.
pub proof fn lemma_table_changes(s: ServerModel, req: GrallocRequest, payload: Seq<u8>, id: u64)
    requires
        s.wf(),
    ensures
        !s.buffers.contains_key(id) && s.step(req, payload).0.buffers.contains_key(id) ==> {
            &&& GrallocCommand::of_code(req.command) == Some(GrallocCommand::Allocate)
            &&& id == s.next_id
        },
        s.buffers.contains_key(id) && !s.step(req, payload).0.buffers.contains_key(id) ==> frees(
            req,
            id,
        ),
        s.step(req, payload).0.presented == if GrallocCommand::of_code(req.command) == Some(
            GrallocCommand::Present,
        ) {
            Some(req.buffer_id)
        } else {
            s.presented
        },
        s.presented is Some ==> s.step(req, payload).0.presented is Some,
        s.step(req, payload).0.next_id >= s.next_id,
        s.buffers.contains_key(id) && s.step(req, payload).0.buffers.contains_key(id) ==> s.step(
            req,
            payload,
        ).0.buffers[id].descriptor == s.buffers[id].descriptor,
{
}

/// A buffer keeps its description until it is freed: whatever requests are
/// served in between, as long as none frees it, GetInfo answers the same.
pub proof fn lemma_description_is_stable(
    s: ServerModel,
    trace: Seq<(GrallocRequest, Seq<u8>)>,
    info: GrallocRequest,
)
    requires
        s.wf(),
        s.buffers.contains_key(info.buffer_id),
        forall|k: int| 0 <= k < trace.len() ==> !frees(#[trigger] trace[k].0, info.buffer_id),
    ensures
        run(s, trace).wf(),
        run(s, trace).buffers.contains_key(info.buffer_id),
        run(s, trace).get_info(info) == s.get_info(info),
        run(s, trace).next_id >= s.next_id,
    decreases trace.len(),
{
    if trace.len() > 0 {
        lemma_description_is_stable(s, trace.drop_last(), info);
    }
}

/// GetInfo answers what Allocate answered for as long as the buffer lives:
/// whatever requests are served after Allocate, as long as none frees the
/// buffer.
pub proof fn lemma_info_outlives_requests(
    s: ServerModel,
    alloc: GrallocRequest,
    trace: Seq<(GrallocRequest, Seq<u8>)>,
    info: GrallocRequest,
)
    requires
        s.wf(),
        s.allocate(alloc).1.status == STATUS_OK,
        info.buffer_id == s.allocate(alloc).1.buffer_id,
        forall|k: int| 0 <= k < trace.len() ==> !frees(#[trigger] trace[k].0, info.buffer_id),
    ensures
        run(s.allocate(alloc).0, trace).get_info(info) == s.allocate(alloc).1,
{
    lemma_info_matches_allocation(s, alloc, info);
    lemma_description_is_stable(s.allocate(alloc).0, trace, info);
}

/// Bytes written by Unlock into a fresh buffer come back from Lock, cut or
/// padded with zeros to the size that Allocate announced.
pub proof fn lemma_unlock_then_lock(
    s: ServerModel,
    alloc: GrallocRequest,
    unlock: GrallocRequest,
    bytes: Seq<u8>,
    lock: GrallocRequest,
)
    requires
        s.wf(),
        s.allocate(alloc).1.status == STATUS_OK,
        unlock.buffer_id == s.allocate(alloc).1.buffer_id,
        unlock.size == bytes.len(),
        lock.buffer_id == s.allocate(alloc).1.buffer_id,
    ensures
        ({
            let allocated = s.allocate(alloc);
            let unlocked = allocated.0.unlock(unlock, bytes);
            let reply = unlocked.0.lock(lock);
            &&& unlocked.1 == GrallocResponse::bare(STATUS_OK, allocated.1.buffer_id)
            &&& reply.response == allocated.1
            &&& reply.pixels == fit(bytes, allocated.1.size as nat)
        }),
{
}

/// After Present of a buffer that the table holds, the picture on display is
/// that buffer's, and it follows the buffer: bytes written later show.
pub proof fn lemma_present_shows_buffer(s: ServerModel, present: GrallocRequest, later: Seq<u8>)
    requires
        s.wf(),
        s.buffers.contains_key(present.buffer_id),
    ensures
        s.present(present).1.response == GrallocResponse::bare(STATUS_OK, present.buffer_id),
        s.present(present).1.frame == Some(s.buffers[present.buffer_id].frame()),
        s.present(present).0.displayed() == Some(s.buffers[present.buffer_id].frame()),
        s.present(present).0.written(present.buffer_id, later).displayed() == Some(
            FrameModel {
                data: overlay(s.buffers[present.buffer_id].data, later),
                ..s.buffers[present.buffer_id].frame()
            },
        ),
{
}

/// Free after Present takes the buffer away but not the mark: the presented
/// id stays, and there is no picture on display any more.
pub proof fn lemma_free_after_present(s: ServerModel, present: GrallocRequest, free: GrallocRequest)
    requires
        s.wf(),
        free.buffer_id == present.buffer_id,
    ensures
        s.present(present).0.free(free).0.presented == Some(present.buffer_id),
        !s.present(present).0.free(free).0.buffers.contains_key(present.buffer_id),
        s.present(present).0.free(free).0.displayed() is None,
{
}

} // verus!
