//! Transport layer of an X Input Method (XIM) client.
//!
//! The library models the protocol logic of the layer: resolving the
//! well-known atom names, discovering an advertised input-method server,
//! driving the connection handshake as an explicit state machine, framing
//! outbound protocol messages and classifying inbound ones, and building
//! id-tagged attribute lists. All X11 round trips (property reads, selection
//! conversion, event delivery) are performed by the caller, which feeds their
//! results back in as plain values.

pub mod atoms;
pub mod attrs;
pub mod codec;
pub mod discovery;
pub mod error;
pub mod handshake;
pub mod transport;
