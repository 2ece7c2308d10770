use xim::atoms::Atoms;
use xim::attrs::AttrIdMap;
use xim::error::ClientError;
use xim::handshake::{Client, ClientMessageData, Event, HandshakeState, Reaction};
use xim::transport::Framed;

fn client(state: HandshakeState) -> Client {
    Client {
        state,
        atoms: Atoms {
            XIM_SERVERS: 1,
            LOCALES: 2,
            TRANSPORT: 3,
            XIM_XCONNECT: 4,
            XIM_PROTOCOL: 5,
            DATA: 6,
        },
        client_window: 10,
        server_atom: 20,
        server_owner_window: 30,
        im_window: 0,
        transport_max: 20,
        im_attributes: AttrIdMap::new(),
        ic_attributes: AttrIdMap::new(),
        forward_event_mask: 0,
        synchronous_event_mask: 0,
    }
}

#[test]
fn transport_notify_asks_for_the_property() {
    let mut c = client(HandshakeState::AwaitTransport);
    let r = c.filter_event(Event::SelectionNotify { requestor: 10, property: 3 }).unwrap();
    assert!(matches!(r, Reaction::FetchTransport { window: 10, property: 3 }));
    assert!(matches!(c.state, HandshakeState::AwaitTransport));
}

#[test]
fn foreign_notify_is_not_handled() {
    let mut c = client(HandshakeState::AwaitTransport);
    // wrong requestor window
    let r = c.filter_event(Event::SelectionNotify { requestor: 11, property: 3 }).unwrap();
    assert!(matches!(r, Reaction::NotHandled));
    // wrong property for the current state
    let r = c.filter_event(Event::SelectionNotify { requestor: 10, property: 2 }).unwrap();
    assert!(matches!(r, Reaction::NotHandled));
    assert!(matches!(c.state, HandshakeState::AwaitTransport));
}

#[test]
fn supported_transport_value_is_accepted() {
    let mut c = client(HandshakeState::AwaitTransport);
    let sel = c.transport_received(&b"@transport=X/".to_vec()).unwrap();
    assert!(matches!(c.state, HandshakeState::AwaitLocales));
    assert_eq!(sel.requestor, 10);
    assert_eq!(sel.selection, 20);
    assert_eq!(sel.target, 2);
    assert_eq!(sel.property, 2);
}

#[test]
fn unsupported_transport_value_is_rejected() {
    let mut c = client(HandshakeState::AwaitTransport);
    let r = c.transport_received(&b"@transport=TCP/".to_vec());
    assert!(matches!(r, Err(ClientError::UnsupportedTransport)));
    assert!(matches!(c.state, HandshakeState::AwaitTransport));
}

#[test]
fn locales_receipt_sends_xconnect() {
    let mut c = client(HandshakeState::AwaitLocales);
    let msg = c.locales_received(&b"@locale=en_US".to_vec());
    assert!(matches!(c.state, HandshakeState::AwaitXConnectAck));
    assert_eq!(msg.window, 30);
    assert_eq!(msg.message_type, 4);
    assert_eq!(msg.words, vec![10, 0, 0, 0, 0]);
}

#[test]
fn xconnect_records_window_and_max_and_sends_one_connect() {
    let mut c = client(HandshakeState::AwaitXConnectAck);
    let e = Event::ClientMessage {
        window: 10,
        message_type: 4,
        data: ClientMessageData::Words(vec![99, 1, 0, 20, 0]),
    };
    let r = c.filter_event(e).unwrap();
    assert_eq!(c.im_window, 99);
    assert_eq!(c.transport_max, 20);
    assert!(matches!(c.state, HandshakeState::Connected));
    match r {
        Reaction::Send(Framed::Inline { payload }) => {
            assert_eq!(payload.len(), 20);
            let req: xim_parser::Request = xim_parser::read(&payload).unwrap();
            match req {
                xim_parser::Request::Connect {
                    client_major_protocol_version,
                    client_minor_protocol_version,
                    client_auth_protocol_names,
                    ..
                } => {
                    assert_eq!(client_major_protocol_version, 1);
                    assert_eq!(client_minor_protocol_version, 0);
                    assert!(client_auth_protocol_names.is_empty());
                },
                other => panic!("expected a Connect request, got {:?}", other),
            }
        },
        _ => panic!("expected exactly one inline send"),
    }
}

#[test]
fn protocol_message_format32_asks_for_one_property_read() {
    let mut c = client(HandshakeState::Connected);
    let e = Event::ClientMessage {
        window: 10,
        message_type: 5,
        data: ClientMessageData::Words(vec![5, 77, 0, 0, 0]),
    };
    let r = c.filter_event(e).unwrap();
    assert!(matches!(r, Reaction::FetchMessage { window: 10, property: 77, length: 5 }));
}

#[test]
fn protocol_message_format8_delivers_payload_verbatim() {
    let mut c = client(HandshakeState::Connected);
    let payload: Vec<u8> = (0u8..20u8).collect();
    let e = Event::ClientMessage {
        window: 10,
        message_type: 5,
        data: ClientMessageData::Bytes(payload.clone()),
    };
    let r = c.filter_event(e).unwrap();
    match r {
        Reaction::Deliver(b) => assert_eq!(b, payload),
        _ => panic!("expected the payload back"),
    }
}

#[test]
fn protocol_message_before_connected_is_not_handled() {
    let mut c = client(HandshakeState::AwaitTransport);
    let e = Event::ClientMessage {
        window: 10,
        message_type: 5,
        data: ClientMessageData::Words(vec![5, 77, 0, 0, 0]),
    };
    let r = c.filter_event(e).unwrap();
    assert!(matches!(r, Reaction::NotHandled));
}

#[test]
fn set_attrs_fills_both_maps() {
    let mut c = client(HandshakeState::Connected);
    c.set_attrs(
        vec![(String::from("queryInputStyle"), 0)],
        vec![(String::from("inputStyle"), 1), (String::from("inputStyle"), 8)],
    );
    assert_eq!(c.im_attributes.get("queryInputStyle"), Some(0));
    assert_eq!(c.ic_attributes.get("inputStyle"), Some(8));
    assert_eq!(c.ic_attributes.get("queryInputStyle"), None);
}

#[test]
fn set_event_mask_records_both_masks() {
    let mut c = client(HandshakeState::Connected);
    c.set_event_mask(3, 4294967292);
    assert_eq!(c.forward_event_mask, 3);
    assert_eq!(c.synchronous_event_mask, 4294967292);
}

#[test]
fn full_handshake_sequence_reaches_connected() {
    let mut c = client(HandshakeState::AwaitTransport);
    let r = c.filter_event(Event::SelectionNotify { requestor: 10, property: 3 }).unwrap();
    assert!(matches!(r, Reaction::FetchTransport { .. }));
    c.transport_received(&b"@transport=X/".to_vec()).unwrap();
    let r = c.filter_event(Event::SelectionNotify { requestor: 10, property: 2 }).unwrap();
    assert!(matches!(r, Reaction::FetchLocales { .. }));
    let msg = c.locales_received(&b"@locale=C".to_vec());
    assert_eq!(msg.words, vec![10, 0, 0, 0, 0]);
    let r = c
        .filter_event(Event::ClientMessage {
            window: 10,
            message_type: 4,
            data: ClientMessageData::Words(vec![777, 1, 0, 100, 0]),
        })
        .unwrap();
    assert!(matches!(r, Reaction::Send(_)));
    assert!(matches!(c.state, HandshakeState::Connected));
    assert_eq!(c.im_window, 777);
    assert_eq!(c.transport_max, 100);
}
