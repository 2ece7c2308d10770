//! Errors of the transport layer.

use vstd::prelude::*;

verus! {

/// Every way the protocol logic of this layer can fail. Failures of the
/// window-system connection itself happen outside the library and are wrapped
/// by the caller.
#[derive(Debug)]
pub enum ClientError {
    /// A property had a different type, format or shape than the protocol
    /// specifies.
    InvalidReply,
    /// The transport property value named a transport family this layer does
    /// not support.
    UnsupportedTransport,
    /// Discovery exhausted the candidate list without a match, or no server
    /// name was available at all.
    NoXimServer,
    /// The wire-format decoder rejected an inbound message.
    ReadProtocol(xim_parser::ReadError),
    /// A decoded error reply from the peer, carrying its code and free-text
    /// detail.
    XimError(xim_parser::ErrorCode, String),
    /// The encoded message exceeds 20 bytes but is still under the transport
    /// maximum: multi-fragment inline framing is unsupported and refused
    /// rather than sent corrupted.
    UnsupportedFraming,
}

} // verus!
