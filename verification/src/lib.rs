//! A client-side library for a remote virtualized-display protocol.
//!
//! The library covers the wire-protocol framing and packet codec, the
//! session/window state machine, and the decode-and-dispatch pipeline that
//! turns compressed draw messages into acknowledged screen updates.  Window
//! creation, pixel presentation and socket I/O are left to the embedding
//! program, which drives this library with plain values.

pub mod codec;
pub mod decoder;
pub mod framing;
pub mod packet;
pub mod session;
pub mod value;
pub mod wire;
