//! Host-side support for a containerised guest: virtual input devices, a
//! software graphics allocator and a framebuffer streamer, each written as a
//! state machine over plain values so that the surrounding daemon only has to
//! move bytes.
//!
//! - [`wire`]: little-endian numbers, the ground of every record below.
//! - [`event`], [`device`], [`touch`], [`input`]: the events and descriptors
//!   of the virtual touch screen and keys, and the consumer that each device
//!   serves.
//! - [`gralloc`], [`gralloc_server`]: the allocator's records and its table
//!   of buffers.
//! - [`frame`], [`framebuffer`]: frames for the viewers and the streamer
//!   that picks them.
//! - [`container`], [`forward`], [`control`], [`protocol`], [`text`]: the
//!   rules of the supervisor, the ADB forwarder and the control port.

pub mod container;
pub mod control;
pub mod device;
pub mod event;
pub mod forward;
pub mod frame;
pub mod framebuffer;
pub mod gralloc;
pub mod gralloc_server;
pub mod input;
pub mod protocol;
pub mod text;
pub mod touch;
pub mod wire;
