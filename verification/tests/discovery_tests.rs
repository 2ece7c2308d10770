use xim::atoms::Atoms;
use xim::discovery::{choose_im_name, matches_server, select_server, ServerCandidate};
use xim::error::ClientError;
use xim::handshake::{Client, HandshakeState};

fn test_atoms() -> Atoms<u32> {
    Atoms {
        XIM_SERVERS: 1,
        LOCALES: 2,
        TRANSPORT: 3,
        XIM_XCONNECT: 4,
        XIM_PROTOCOL: 5,
        DATA: 6,
    }
}

fn candidates() -> Vec<ServerCandidate> {
    vec![
        ServerCandidate { atom: 100, owner: 1000, name: b"no prefix here".to_vec() },
        ServerCandidate { atom: 101, owner: 1001, name: b"@server=other".to_vec() },
        ServerCandidate { atom: 102, owner: 1002, name: b"@server=test_im".to_vec() },
        ServerCandidate { atom: 103, owner: 1003, name: b"@server=test_im".to_vec() },
    ]
}

#[test]
fn matches_server_requires_exact_prefix_and_name() {
    assert!(matches_server(&b"@server=kime".to_vec(), &b"kime".to_vec()));
    assert!(!matches_server(&b"@server=kime2".to_vec(), &b"kime".to_vec()));
    assert!(!matches_server(&b"@server=kim".to_vec(), &b"kime".to_vec()));
    assert!(!matches_server(&b"kime".to_vec(), &b"kime".to_vec()));
    assert!(!matches_server(&b"@Server=kime".to_vec(), &b"kime".to_vec()));
}

#[test]
fn first_match_wins_and_prefixless_entries_are_ignored() {
    let cands = candidates();
    assert_eq!(select_server(&cands, &b"test_im".to_vec()), Some(2));
    assert_eq!(select_server(&cands, &b"other".to_vec()), Some(1));
    assert_eq!(select_server(&cands, &b"missing".to_vec()), None);
}

#[test]
fn start_picks_first_matching_server() {
    let r = Client::start(test_atoms(), 10, 4, 32, candidates(), &b"test_im".to_vec());
    let (c, sel) = r.unwrap();
    assert_eq!(c.server_atom, 102);
    assert_eq!(c.server_owner_window, 1002);
    assert!(matches!(c.state, HandshakeState::AwaitTransport));
    assert_eq!(c.client_window, 10);
    assert_eq!(c.im_window, 0);
    assert_eq!(c.transport_max, 20);
    assert_eq!(sel.requestor, 10);
    assert_eq!(sel.selection, 102);
    assert_eq!(sel.target, 3);
    assert_eq!(sel.property, 3);
}

#[test]
fn start_with_wrong_property_type_is_invalid_reply() {
    // type STRING (atom 31) instead of ATOM (atom 4)
    let r = Client::start(test_atoms(), 10, 31, 32, candidates(), &b"test_im".to_vec());
    assert!(matches!(r, Err(ClientError::InvalidReply)));
}

#[test]
fn start_with_wrong_property_format_is_invalid_reply() {
    let r = Client::start(test_atoms(), 10, 4, 8, candidates(), &b"test_im".to_vec());
    assert!(matches!(r, Err(ClientError::InvalidReply)));
}

#[test]
fn start_without_match_is_no_server() {
    let r = Client::start(test_atoms(), 10, 4, 32, candidates(), &b"absent".to_vec());
    assert!(matches!(r, Err(ClientError::NoXimServer)));
}

#[test]
fn explicit_name_wins_over_environment() {
    let r = choose_im_name(Some(b"kime".to_vec()), Some(b"@im=fcitx".to_vec()));
    assert_eq!(r.unwrap(), b"kime".to_vec());
}

#[test]
fn environment_name_needs_im_prefix() {
    let r = choose_im_name(None, Some(b"@im=fcitx".to_vec()));
    assert_eq!(r.unwrap(), b"fcitx".to_vec());
    let r = choose_im_name(None, Some(b"fcitx".to_vec()));
    assert!(matches!(r, Err(ClientError::NoXimServer)));
}

#[test]
fn no_name_at_all_is_no_server() {
    let r = choose_im_name(None, None);
    assert!(matches!(r, Err(ClientError::NoXimServer)));
}
