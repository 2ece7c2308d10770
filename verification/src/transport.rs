//! Framing of outbound protocol messages.
//!
//! A message strictly shorter than the negotiated transport maximum travels
//! inline in a format-8 client-message event, zero-padded to exactly 20
//! bytes; one of at least the maximum travels through a window property plus
//! a format-32 pointer event. The in-between range (over 20 bytes yet under
//! the maximum) would need multi-fragment inline framing, which is
//! unsupported and refused rather than sent corrupted.

use vstd::prelude::*;

use crate::error::ClientError;

verus! {

/// Payload size of a format-8 client-message event.
pub const INLINE_MESSAGE_SIZE: usize = 20;

/// A framed outbound protocol message, ready for delivery by the caller.
pub enum Framed {
    /// Deliver as a format-8 client-message event whose payload is the
    /// encoded message zero-padded to exactly 20 bytes.
    Inline { payload: Vec<u8> },
    /// Append `data` to the private data property on the server
    /// communication window, then deliver a format-32 client-message event
    /// carrying (length, property atom, 0, 0, 0).
    ViaProperty { data: Vec<u8>, length: u32 },
}

/// The encoded message followed by zeros up to the inline payload size.
pub open spec fn zero_pad(data: Seq<u8>) -> Seq<u8> {
    data + Seq::new((INLINE_MESSAGE_SIZE - data.len()) as nat, |i: int| 0u8)
}

/// The framing relation: which shape an encoded message of a given length
/// takes under a given transport maximum, and with which bytes.
pub open spec fn frames(data: Seq<u8>, transport_max: u32, r: Result<Framed, ClientError>) -> bool {
    match r {
        Ok(f) => match f {
            Framed::Inline { payload } => {
                &&& data.len() <= INLINE_MESSAGE_SIZE
                &&& data.len() < transport_max
                &&& payload@ == zero_pad(data)
            },
            Framed::ViaProperty { data: stored, length } => {
                &&& data.len() >= transport_max
                &&& data.len() <= u32::MAX
                &&& stored@ == data
                &&& length == data.len()
            },
        },
        Err(e) => {
            &&& (INLINE_MESSAGE_SIZE < data.len() < transport_max || data.len() > u32::MAX)
            &&& (e matches ClientError::UnsupportedFraming)
        },
    }
}

/// Choose the framing of an encoded message under the negotiated transport
/// maximum.
pub fn frame_message(data: Vec<u8>, transport_max: u32) -> (r: Result<Framed, ClientError>)
    ensures
        frames(data@, transport_max, r),
{
    let ghost orig = data@;
    if data.len() < transport_max as usize {
        if data.len() > INLINE_MESSAGE_SIZE {
            return Err(ClientError::UnsupportedFraming);
        }
        let mut payload = data;
        while payload.len() < INLINE_MESSAGE_SIZE
            invariant
                orig.len() <= payload@.len() <= INLINE_MESSAGE_SIZE,
                payload@.take(orig.len() as int) == orig,
                forall|i: int| orig.len() <= i < payload@.len() ==> payload@[i] == 0u8,
            decreases INLINE_MESSAGE_SIZE - payload@.len(),
        {
            payload.push(0u8);
            assert(payload@.take(orig.len() as int) == orig);
        }
        proof {
            assert(payload@ =~= zero_pad(orig));
        }
        Ok(Framed::Inline { payload })
    } else {
        if data.len() > u32::MAX as usize {
            return Err(ClientError::UnsupportedFraming);
        }
        let length = data.len() as u32;
        Ok(Framed::ViaProperty { data, length })
    }
}

/// The framing threshold: a message goes inline exactly when it fits the
/// inline payload and is under the transport maximum; it goes through a
/// property exactly when it reaches the maximum (and its length is
/// expressible on the wire); everything in between is refused, never sent
/// corrupted.
pub proof fn lemma_framing_threshold(
    data: Seq<u8>,
    transport_max: u32,
    r: Result<Framed, ClientError>,
)
    requires
        frames(data, transport_max, r),
    ensures
        (r matches Ok(f) && f matches Framed::Inline { .. }) <==> (data.len()
            <= INLINE_MESSAGE_SIZE && data.len() < transport_max),
        (r matches Ok(f) && f matches Framed::ViaProperty { .. }) <==> (transport_max <= data.len()
            <= u32::MAX),
        (r matches Err(_)) <==> (INLINE_MESSAGE_SIZE < data.len() < transport_max || data.len()
            > u32::MAX),
{
}

/// Decode one reassembled inbound message through the external wire-format
/// decoder. A decode failure is surfaced to the caller per message, wrapped
/// as a read-protocol error; it does not tear down the transport.
pub fn decode_message(data: &Vec<u8>) -> (r: Result<xim_parser::Request, ClientError>)
    ensures
        r matches Err(e) ==> e matches ClientError::ReadProtocol(_),
{
    match crate::codec::decode_request(data.as_slice()) {
        Ok(req) => Ok(req),
        Err(e) => Err(ClientError::ReadProtocol(e)),
    }
}

/// Framing never corrupts a message: the bytes the receiving side extracts
/// (the first `data.len()` bytes of an inline payload; the whole stored
/// property value otherwise) are exactly the bytes that were framed.
pub proof fn lemma_framing_preserves_message(
    data: Seq<u8>,
    transport_max: u32,
    r: Result<Framed, ClientError>,
)
    requires
        frames(data, transport_max, r),
    ensures
        (match r {
            Ok(f) => match f {
                Framed::Inline { payload } => payload@.len() == INLINE_MESSAGE_SIZE
                    && payload@.take(data.len() as int) == data,
                Framed::ViaProperty { data: stored, length } => stored@ == data
                    && length == stored@.len(),
            },
            Err(_) => true,
        }),
{
    match r {
        Ok(f) => match f {
            Framed::Inline { payload } => {
                assert(payload@.take(data.len() as int) =~= data);
            },
            Framed::ViaProperty { .. } => {},
        },
        Err(_) => {},
    }
}

} // verus!
