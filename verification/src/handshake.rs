//! The connection handshake, driven as an explicit state machine.
//!
//! The caller owns the event loop and all window-system round trips. It feeds
//! each selection-notify or client-message event in as plain values; the
//! state machine decides what the event means in the current state and hands
//! back the one action to perform (read a property, convert a selection,
//! deliver a message). Property values read on its behalf come back through
//! the dedicated `transport_received` / `locales_received` entry points.

use vstd::prelude::*;

use crate::atoms::Atoms;
use crate::attrs::{pairs_view, prepend_rev, AttrIdMap};
use crate::codec;
use crate::discovery::{
    spec_matches_server, select_server, starts_with_bytes, ServerCandidate, SERVERS_FORMAT, XA_ATOM,
};
use crate::error::ClientError;
use crate::transport::{frame_message, frames, Framed};

verus! {

/// The window identifier that names no window.
pub const WINDOW_NONE: u32 = 0;

/// The states of the handshake, in the order they are passed through.
#[derive(Clone, Copy, Debug, PartialEq, Eq, Structural)]
pub enum HandshakeState {
    /// Waiting for the selection-notify event on the transport atom.
    AwaitTransport,
    /// Waiting for the selection-notify event on the locales atom.
    AwaitLocales,
    /// Waiting for the XConnect client message from the server.
    AwaitXConnectAck,
    /// Steady state: protocol messages flow.
    Connected,
}

/// The payload of a client-message event, as its format presents it: raw
/// bytes for format 8, 32-bit words for format 32.
pub enum ClientMessageData {
    Bytes(Vec<u8>),
    Words(Vec<u32>),
}

/// An incoming window-system event, reduced to the plain values this state
/// machine reads.
pub enum Event {
    SelectionNotify { requestor: u32, property: u32 },
    ClientMessage { window: u32, message_type: u32, data: ClientMessageData },
}

/// A client-message payload has exactly 20 bytes or exactly 5 words.
pub open spec fn event_wf(e: Event) -> bool {
    match e {
        Event::SelectionNotify { .. } => true,
        Event::ClientMessage { data, .. } => match data {
            ClientMessageData::Bytes(b) => b@.len() == 20,
            ClientMessageData::Words(w) => w@.len() == 5,
        },
    }
}

/// A selection-conversion request the caller must issue, followed by a flush.
pub struct SelectionRequest {
    pub requestor: u32,
    pub selection: u32,
    pub target: u32,
    pub property: u32,
}

/// A format-32 client-message event the caller must deliver, followed by a
/// flush.
pub struct ClientMessageRequest {
    pub window: u32,
    pub message_type: u32,
    pub words: Vec<u32>,
}

/// What the caller must do with one incoming event.
pub enum Reaction {
    /// The event is not owned by this state machine; unrelated traffic is
    /// never consumed.
    NotHandled,
    /// Read and delete the named property on the named window, then hand the
    /// value to `transport_received`.
    FetchTransport { window: u32, property: u32 },
    /// Read and delete the named property on the named window, then hand the
    /// value to `locales_received`.
    FetchLocales { window: u32, property: u32 },
    /// Deliver the framed message to the server communication window under
    /// the protocol atom, then flush.
    Send(Framed),
    /// Read and delete `length` bytes of the named property on the named
    /// window, then decode what was read.
    FetchMessage { window: u32, property: u32, length: u32 },
    /// A whole inbound message arrived inline: decode these payload bytes.
    Deliver(Vec<u8>),
}

/// The connection-scoped record: resolved atoms, window handles, negotiated
/// transport maximum and the attribute id maps.
pub struct Client {
    pub state: HandshakeState,
    pub atoms: Atoms<u32>,
    pub client_window: u32,
    pub server_atom: u32,
    pub server_owner_window: u32,
    pub im_window: u32,
    pub transport_max: u32,
    pub im_attributes: AttrIdMap,
    pub ic_attributes: AttrIdMap,
    pub forward_event_mask: u32,
    pub synchronous_event_mask: u32,
}

/// The event that advances `AwaitTransport`: a selection-notify on the
/// transport atom targeted at the client's own window.
pub open spec fn wants_transport(c: Client, e: Event) -> bool {
    &&& c.state == HandshakeState::AwaitTransport
    &&& e matches Event::SelectionNotify { requestor, property } && requestor == c.client_window
        && property == c.atoms.TRANSPORT
}

/// The event that advances `AwaitLocales`: a selection-notify on the locales
/// atom targeted at the client's own window.
pub open spec fn wants_locales(c: Client, e: Event) -> bool {
    &&& c.state == HandshakeState::AwaitLocales
    &&& e matches Event::SelectionNotify { requestor, property } && requestor == c.client_window
        && property == c.atoms.LOCALES
}

/// The event that advances `AwaitXConnectAck`: a client message of the
/// XConnect type addressed to the client window, carrying format-32 data.
pub open spec fn wants_xconnect(c: Client, e: Event) -> bool {
    &&& c.state == HandshakeState::AwaitXConnectAck
    &&& e matches Event::ClientMessage { window, message_type, data } && window == c.client_window
        && message_type == c.atoms.XIM_XCONNECT && data matches ClientMessageData::Words(_)
}

/// An inbound protocol message delivered inline: a client message of the
/// protocol type addressed to the client window, carrying format-8 data.
pub open spec fn wants_protocol_inline(c: Client, e: Event) -> bool {
    &&& c.state == HandshakeState::Connected
    &&& e matches Event::ClientMessage { window, message_type, data } && window == c.client_window
        && message_type == c.atoms.XIM_PROTOCOL && data matches ClientMessageData::Bytes(_)
}

/// An inbound protocol message delivered through a property: a client
/// message of the protocol type addressed to the client window, carrying
/// format-32 data.
pub open spec fn wants_protocol_property(c: Client, e: Event) -> bool {
    &&& c.state == HandshakeState::Connected
    &&& e matches Event::ClientMessage { window, message_type, data } && window == c.client_window
        && message_type == c.atoms.XIM_PROTOCOL && data matches ClientMessageData::Words(_)
}

/// The events this state machine owns in a given state; everything else is
/// ignored, never an error.
pub open spec fn owns_event(c: Client, e: Event) -> bool {
    ||| wants_transport(c, e)
    ||| wants_locales(c, e)
    ||| wants_xconnect(c, e)
    ||| wants_protocol_inline(c, e)
    ||| wants_protocol_property(c, e)
}

/// The fields that no event handling ever changes.
pub open spec fn same_identity(a: Client, b: Client) -> bool {
    &&& a.atoms == b.atoms
    &&& a.client_window == b.client_window
    &&& a.server_atom == b.server_atom
    &&& a.server_owner_window == b.server_owner_window
    &&& a.im_attributes@ == b.im_attributes@
    &&& a.ic_attributes@ == b.ic_attributes@
    &&& a.forward_event_mask == b.forward_event_mask
    &&& a.synchronous_event_mask == b.synchronous_event_mask
}

/// The expected prefix of the transport property value: the only transport
/// family this layer supports.
pub open spec fn transport_prefix() -> Seq<u8> {
    seq![
        '@' as u8,
        't' as u8,
        'r' as u8,
        'a' as u8,
        'n' as u8,
        's' as u8,
        'p' as u8,
        'o' as u8,
        'r' as u8,
        't' as u8,
        '=' as u8,
        'X' as u8,
        '/' as u8,
    ]
}

/// Does the transport property value start with the supported family's
/// prefix?
pub open spec fn transport_supported(value: Seq<u8>) -> bool {
    value.len() >= transport_prefix().len() && value.take(transport_prefix().len() as int)
        == transport_prefix()
}

impl Client {
    /// Discovery fused with handshake kickoff: validate the servers-list
    /// property reply, pick the first advertised entry matching the requested
    /// name, and return the fresh client (awaiting transport negotiation)
    /// together with the selection conversion the caller must issue for the
    /// transport atom. A wrong property type or format is an invalid reply; a
    /// list without a match means no server.
    pub fn start(
        atoms: Atoms<u32>,
        client_window: u32,
        reply_type: u32,
        reply_format: u8,
        candidates: Vec<ServerCandidate>,
        im_name: &Vec<u8>,
    ) -> (r: Result<(Client, SelectionRequest), ClientError>)
        ensures
            (match r {
                Ok((c, sel)) => {
                    &&& reply_type == XA_ATOM
                    &&& reply_format == SERVERS_FORMAT
                    &&& exists|i: int|
                        {
                            &&& 0 <= i < candidates@.len()
                            &&& #[trigger] spec_matches_server(candidates@[i].name@, im_name@)
                            &&& forall|j: int|
                                0 <= j < i ==> !spec_matches_server(
                                    candidates@[j].name@,
                                    im_name@,
                                )
                            &&& c.server_atom == candidates@[i].atom
                            &&& c.server_owner_window == candidates@[i].owner
                        }
                    &&& c.state == HandshakeState::AwaitTransport
                    &&& c.atoms == atoms
                    &&& c.client_window == client_window
                    &&& c.im_window == WINDOW_NONE
                    &&& c.transport_max == 20
                    &&& c.im_attributes@ == Seq::<(Seq<char>, u16)>::empty()
                    &&& c.ic_attributes@ == Seq::<(Seq<char>, u16)>::empty()
                    &&& c.forward_event_mask == 0
                    &&& c.synchronous_event_mask == 0
                    &&& sel.requestor == client_window
                    &&& sel.selection == c.server_atom
                    &&& sel.target == atoms.TRANSPORT
                    &&& sel.property == atoms.TRANSPORT
                },
                Err(e) => {
                    ||| (reply_type != XA_ATOM || reply_format != SERVERS_FORMAT) && (
                    e matches ClientError::InvalidReply)
                    ||| {
                        &&& reply_type == XA_ATOM
                        &&& reply_format == SERVERS_FORMAT
                        &&& forall|j: int|
                            0 <= j < candidates@.len() ==> !spec_matches_server(
                                candidates@[j].name@,
                                im_name@,
                            )
                        &&& e matches ClientError::NoXimServer
                    }
                },
            }),
    {
        if reply_type != XA_ATOM || reply_format != SERVERS_FORMAT {
            return Err(ClientError::InvalidReply);
        }
        match select_server(&candidates, im_name) {
            Some(i) => {
                let server_atom = candidates[i].atom;
                let server_owner_window = candidates[i].owner;
                let c = Client {
                    state: HandshakeState::AwaitTransport,
                    atoms,
                    client_window,
                    server_atom,
                    server_owner_window,
                    im_window: WINDOW_NONE,
                    transport_max: 20,
                    im_attributes: AttrIdMap::new(),
                    ic_attributes: AttrIdMap::new(),
                    forward_event_mask: 0,
                    synchronous_event_mask: 0,
                };
                let sel = SelectionRequest {
                    requestor: client_window,
                    selection: server_atom,
                    target: c.atoms.TRANSPORT,
                    property: c.atoms.TRANSPORT,
                };
                Ok((c, sel))
            },
            None => Err(ClientError::NoXimServer),
        }
    }

    /// The single event entry point: pattern-match the current state against
    /// the incoming event and hand back the action it calls for. Events this
    /// machine does not own are reported as not handled and change nothing.
    pub fn filter_event(&mut self, e: Event) -> (r: Result<Reaction, ClientError>)
        requires
            event_wf(e),
        ensures
            !owns_event(*old(self), e) ==> *final(self) == *old(self) && (r matches Ok(rr)
                && rr matches Reaction::NotHandled),
            wants_transport(*old(self), e) ==> *final(self) == *old(self) && (r matches Ok(rr)
                && rr matches Reaction::FetchTransport { window, property }
                && window == old(self).client_window && property == old(self).atoms.TRANSPORT),
            wants_locales(*old(self), e) ==> *final(self) == *old(self) && (r matches Ok(rr)
                && rr matches Reaction::FetchLocales { window, property }
                && window == old(self).client_window && property == old(self).atoms.LOCALES),
            wants_xconnect(*old(self), e) ==> {
                &&& same_identity(*old(self), *final(self))
                &&& (e matches Event::ClientMessage { data: ClientMessageData::Words(w), .. }
                    ==> final(self).im_window == w@[0] && final(self).transport_max == w@[3])
                &&& final(self).state == HandshakeState::Connected
                &&& (match r {
                    Ok(rr) => rr matches Reaction::Send(f) && exists|data: Seq<u8>|
                        #[trigger] frames(data, final(self).transport_max, Ok(f)),
                    Err(err) => err matches ClientError::UnsupportedFraming,
                })
            },
            wants_protocol_inline(*old(self), e) ==> *final(self) == *old(self) && (r matches Ok(
                rr,
            ) && (e matches Event::ClientMessage { data: ClientMessageData::Bytes(b), .. }
                ==> (rr matches Reaction::Deliver(d) && d@ == b@))),
            wants_protocol_property(*old(self), e) ==> *final(self) == *old(self) && (r matches Ok(
                rr,
            ) && (e matches Event::ClientMessage { data: ClientMessageData::Words(w), .. }
                ==> (rr matches Reaction::FetchMessage { window, property, length }
                && window == old(self).client_window && property == w@[1] && length == w@[0]))),
    {
        match e {
            Event::SelectionNotify { requestor, property } => {
                match self.state {
                    HandshakeState::AwaitTransport => {
                        if requestor == self.client_window && property == self.atoms.TRANSPORT {
                            Ok(
                                Reaction::FetchTransport {
                                    window: self.client_window,
                                    property: self.atoms.TRANSPORT,
                                },
                            )
                        } else {
                            Ok(Reaction::NotHandled)
                        }
                    },
                    HandshakeState::AwaitLocales => {
                        if requestor == self.client_window && property == self.atoms.LOCALES {
                            Ok(
                                Reaction::FetchLocales {
                                    window: self.client_window,
                                    property: self.atoms.LOCALES,
                                },
                            )
                        } else {
                            Ok(Reaction::NotHandled)
                        }
                    },
                    _ => Ok(Reaction::NotHandled),
                }
            },
            Event::ClientMessage { window, message_type, data } => {
                if window != self.client_window {
                    return Ok(Reaction::NotHandled);
                }
                match self.state {
                    HandshakeState::AwaitXConnectAck => {
                        if message_type == self.atoms.XIM_XCONNECT {
                            match data {
                                ClientMessageData::Words(w) => {
                                    self.im_window = w[0];
                                    self.transport_max = w[3];
                                    self.state = HandshakeState::Connected;
                                    match self.send_req(codec::connect_request(1, 0)) {
                                        Ok(f) => Ok(Reaction::Send(f)),
                                        Err(err) => Err(err),
                                    }
                                },
                                _ => Ok(Reaction::NotHandled),
                            }
                        } else {
                            Ok(Reaction::NotHandled)
                        }
                    },
                    HandshakeState::Connected => {
                        if message_type == self.atoms.XIM_PROTOCOL {
                            match data {
                                ClientMessageData::Bytes(b) => Ok(Reaction::Deliver(b)),
                                ClientMessageData::Words(w) => Ok(
                                    Reaction::FetchMessage {
                                        window,
                                        property: w[1],
                                        length: w[0],
                                    },
                                ),
                            }
                        } else {
                            Ok(Reaction::NotHandled)
                        }
                    },
                    _ => Ok(Reaction::NotHandled),
                }
            },
        }
    }

    /// The transport property arrived: require the supported family's prefix
    /// and move on to locale negotiation by converting the locales selection;
    /// any other value is an unsupported transport, terminally.
    pub fn transport_received(&mut self, value: &Vec<u8>) -> (r: Result<
        SelectionRequest,
        ClientError,
    >)
        requires
            old(self).state == HandshakeState::AwaitTransport,
        ensures
            same_identity(*old(self), *final(self)),
            final(self).im_window == old(self).im_window,
            final(self).transport_max == old(self).transport_max,
            (if transport_supported(value@) {
                &&& final(self).state == HandshakeState::AwaitLocales
                &&& r matches Ok(sel) && sel.requestor == old(self).client_window && sel.selection
                    == old(self).server_atom && sel.target == old(self).atoms.LOCALES
                    && sel.property == old(self).atoms.LOCALES
            } else {
                &&& *final(self) == *old(self)
                &&& r matches Err(e) && e matches ClientError::UnsupportedTransport
            }),
    {
        let prefix: [u8; 13] = [
            '@' as u8,
            't' as u8,
            'r' as u8,
            'a' as u8,
            'n' as u8,
            's' as u8,
            'p' as u8,
            'o' as u8,
            'r' as u8,
            't' as u8,
            '=' as u8,
            'X' as u8,
            '/' as u8,
        ];
        proof {
            assert(prefix@ =~= transport_prefix());
        }
        if !starts_with_bytes(value, prefix.as_slice()) {
            return Err(ClientError::UnsupportedTransport);
        }
        self.state = HandshakeState::AwaitLocales;
        Ok(
            SelectionRequest {
                requestor: self.client_window,
                selection: self.server_atom,
                target: self.atoms.LOCALES,
                property: self.atoms.LOCALES,
            },
        )
    }

    /// The locales property arrived. Its content is only acknowledged, not
    /// yet threaded into later requests; receipt alone advances the handshake
    /// to XConnect: the caller must deliver the returned client message,
    /// which carries the client's own window, to the server's owner window.
    pub fn locales_received(&mut self, value: &Vec<u8>) -> (r: ClientMessageRequest)
        requires
            old(self).state == HandshakeState::AwaitLocales,
        ensures
            same_identity(*old(self), *final(self)),
            final(self).im_window == old(self).im_window,
            final(self).transport_max == old(self).transport_max,
            final(self).state == HandshakeState::AwaitXConnectAck,
            r.window == old(self).server_owner_window,
            r.message_type == old(self).atoms.XIM_XCONNECT,
            r.words@ == seq![old(self).client_window, 0u32, 0u32, 0u32, 0u32],
    {
        self.state = HandshakeState::AwaitXConnectAck;
        let mut words: Vec<u32> = Vec::new();
        words.push(self.client_window);
        words.push(0);
        words.push(0);
        words.push(0);
        words.push(0);
        proof {
            assert(words@ =~= seq![self.client_window, 0u32, 0u32, 0u32, 0u32]);
        }
        ClientMessageRequest {
            window: self.server_owner_window,
            message_type: self.atoms.XIM_XCONNECT,
            words,
        }
    }

    /// Encode a protocol request through the external wire-format codec and
    /// frame it under the negotiated transport maximum. No protocol message
    /// may be sent before XConnect completes. Whatever bytes the encoder
    /// produced, the result is framed exactly as the framing relation says.
    pub fn send_req(&self, req: xim_parser::Request) -> (r: Result<Framed, ClientError>)
        requires
            self.state == HandshakeState::Connected,
        ensures
            exists|data: Seq<u8>| #[trigger] frames(data, self.transport_max, r),
    {
        let encoded = codec::encode_request(&req);
        let ghost data = encoded@;
        let r = frame_message(encoded, self.transport_max);
        proof {
            assert(frames(data, self.transport_max, r));
        }
        r
    }

    /// Record the server-assigned attribute ids, input-method-level and
    /// input-context-level, each list applied in order with later entries
    /// shadowing earlier ones.
    pub fn set_attrs(&mut self, im_attrs: Vec<(String, u16)>, ic_attrs: Vec<(String, u16)>)
        ensures
            final(self).im_attributes@ == prepend_rev(
                pairs_view(im_attrs@),
                old(self).im_attributes@,
            ),
            final(self).ic_attributes@ == prepend_rev(
                pairs_view(ic_attrs@),
                old(self).ic_attributes@,
            ),
            final(self).state == old(self).state,
            final(self).atoms == old(self).atoms,
            final(self).client_window == old(self).client_window,
            final(self).server_atom == old(self).server_atom,
            final(self).server_owner_window == old(self).server_owner_window,
            final(self).im_window == old(self).im_window,
            final(self).transport_max == old(self).transport_max,
            final(self).forward_event_mask == old(self).forward_event_mask,
            final(self).synchronous_event_mask == old(self).synchronous_event_mask,
    {
        let mut im_attrs = im_attrs;
        let mut ic_attrs = ic_attrs;
        let ghost im_goal = prepend_rev(pairs_view(im_attrs@), self.im_attributes@);
        let ghost ic_goal = prepend_rev(pairs_view(ic_attrs@), self.ic_attributes@);
        while im_attrs.len() > 0
            invariant
                prepend_rev(pairs_view(im_attrs@), self.im_attributes@) == im_goal,
                self.ic_attributes@ == old(self).ic_attributes@,
                self.state == old(self).state,
                self.atoms == old(self).atoms,
                self.client_window == old(self).client_window,
                self.server_atom == old(self).server_atom,
                self.server_owner_window == old(self).server_owner_window,
                self.im_window == old(self).im_window,
                self.transport_max == old(self).transport_max,
                self.forward_event_mask == old(self).forward_event_mask,
                self.synchronous_event_mask == old(self).synchronous_event_mask,
            decreases im_attrs@.len(),
        {
            let ghost items_pre = pairs_view(im_attrs@);
            let p = im_attrs.remove(0);
            proof {
                assert(items_pre[0] == (p.0@, p.1));
                assert(pairs_view(im_attrs@) =~= items_pre.drop_first());
            }
            self.im_attributes.insert(p.0, p.1);
        }
        proof {
            assert(pairs_view(im_attrs@).len() == 0);
            assert(self.im_attributes@ == im_goal);
        }
        while ic_attrs.len() > 0
            invariant
                prepend_rev(pairs_view(ic_attrs@), self.ic_attributes@) == ic_goal,
                self.im_attributes@ == im_goal,
                self.state == old(self).state,
                self.atoms == old(self).atoms,
                self.client_window == old(self).client_window,
                self.server_atom == old(self).server_atom,
                self.server_owner_window == old(self).server_owner_window,
                self.im_window == old(self).im_window,
                self.transport_max == old(self).transport_max,
                self.forward_event_mask == old(self).forward_event_mask,
                self.synchronous_event_mask == old(self).synchronous_event_mask,
            decreases ic_attrs@.len(),
        {
            let ghost items_pre = pairs_view(ic_attrs@);
            let p = ic_attrs.remove(0);
            proof {
                assert(items_pre[0] == (p.0@, p.1));
                assert(pairs_view(ic_attrs@) =~= items_pre.drop_first());
            }
            self.ic_attributes.insert(p.0, p.1);
        }
        proof {
            assert(pairs_view(ic_attrs@).len() == 0);
            assert(self.ic_attributes@ == ic_goal);
        }
    }

    /// Record which events the session layer wants forwarded and which it
    /// wants delivered synchronously.
    pub fn set_event_mask(&mut self, forward_event_mask: u32, synchronous_event_mask: u32)
        ensures
            final(self).forward_event_mask == forward_event_mask,
            final(self).synchronous_event_mask == synchronous_event_mask,
            final(self).state == old(self).state,
            final(self).atoms == old(self).atoms,
            final(self).client_window == old(self).client_window,
            final(self).server_atom == old(self).server_atom,
            final(self).server_owner_window == old(self).server_owner_window,
            final(self).im_window == old(self).im_window,
            final(self).transport_max == old(self).transport_max,
            final(self).im_attributes@ == old(self).im_attributes@,
            final(self).ic_attributes@ == old(self).ic_attributes@,
    {
        self.forward_event_mask = forward_event_mask;
        self.synchronous_event_mask = synchronous_event_mask;
    }
}

} // verus!
