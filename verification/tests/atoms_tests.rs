use std::cell::Cell;

use xim::atoms::Atoms;

#[test]
fn all_six_names_are_resolved_once() {
    let calls = Cell::new(0u32);
    let r: Result<Atoms<u32>, ()> = Atoms::new(|name| {
        calls.set(calls.get() + 1);
        Ok(match name {
            "XIM_SERVERS" => 11,
            "LOCALES" => 12,
            "TRANSPORT" => 13,
            "_XIM_XCONNECT" => 14,
            "_XIM_PROTOCOL" => 15,
            "XIM_RS_DATA" => 16,
            other => panic!("unexpected name {}", other),
        })
    });
    let a = r.unwrap();
    assert_eq!(calls.get(), 6);
    assert_eq!(a.XIM_SERVERS, 11);
    assert_eq!(a.LOCALES, 12);
    assert_eq!(a.TRANSPORT, 13);
    assert_eq!(a.XIM_XCONNECT, 14);
    assert_eq!(a.XIM_PROTOCOL, 15);
    assert_eq!(a.DATA, 16);
}

#[test]
fn first_failing_resolution_aborts_construction() {
    let calls = Cell::new(0u32);
    let r: Result<Atoms<u32>, &'static str> = Atoms::new(|name| {
        calls.set(calls.get() + 1);
        if name == "TRANSPORT" {
            Err("no such atom")
        } else {
            Ok(7)
        }
    });
    assert_eq!(r.unwrap_err(), "no such atom");
    // XIM_SERVERS and LOCALES resolved, TRANSPORT failed, nothing after it was tried
    assert_eq!(calls.get(), 3);
}
