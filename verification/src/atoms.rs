//! The fixed set of well-known X11 atom names this protocol needs, resolved
//! to server-assigned identifiers through a caller-supplied resolver.

use vstd::prelude::*;

verus! {

/// Identifiers of the six well-known names, resolved once per connection and
/// never mutated afterwards.
#[allow(non_snake_case)]
#[derive(Clone, Copy, Debug)]
pub struct Atoms<Atom> {
    pub XIM_SERVERS: Atom,
    pub LOCALES: Atom,
    pub TRANSPORT: Atom,
    pub XIM_XCONNECT: Atom,
    pub XIM_PROTOCOL: Atom,
    pub DATA: Atom,
}

/// The resolver admits a successful resolution of `name`.
pub open spec fn may_resolve<Atom, E, F: Fn(&'static str) -> Result<Atom, E>>(
    f: F,
    name: &'static str,
) -> bool {
    exists|a: Atom| call_ensures(f, (name,), Ok(a))
}

impl<Atom> Atoms<Atom> {
    /// Resolve the whole fixed set of names through `f`, in a fixed order.
    /// The first failing resolution aborts construction and surfaces the
    /// resolver's error unchanged.
    pub fn new<E, F: Fn(&'static str) -> Result<Atom, E>>(f: F) -> (r: Result<Self, E>)
        requires
            forall|s: &'static str| #[trigger] call_requires(f, (s,)),
        ensures
            (match r {
                Ok(a) => {
                    &&& call_ensures(f, ("XIM_SERVERS",), Ok(a.XIM_SERVERS))
                    &&& call_ensures(f, ("LOCALES",), Ok(a.LOCALES))
                    &&& call_ensures(f, ("TRANSPORT",), Ok(a.TRANSPORT))
                    &&& call_ensures(f, ("_XIM_XCONNECT",), Ok(a.XIM_XCONNECT))
                    &&& call_ensures(f, ("_XIM_PROTOCOL",), Ok(a.XIM_PROTOCOL))
                    &&& call_ensures(f, ("XIM_RS_DATA",), Ok(a.DATA))
                },
                Err(e) => {
                    ||| call_ensures(f, ("XIM_SERVERS",), Err(e))
                    ||| may_resolve(f, "XIM_SERVERS") && call_ensures(f, ("LOCALES",), Err(e))
                    ||| may_resolve(f, "XIM_SERVERS") && may_resolve(f, "LOCALES")
                        && call_ensures(f, ("TRANSPORT",), Err(e))
                    ||| may_resolve(f, "XIM_SERVERS") && may_resolve(f, "LOCALES") && may_resolve(
                        f,
                        "TRANSPORT",
                    ) && call_ensures(f, ("_XIM_XCONNECT",), Err(e))
                    ||| may_resolve(f, "XIM_SERVERS") && may_resolve(f, "LOCALES") && may_resolve(
                        f,
                        "TRANSPORT",
                    ) && may_resolve(f, "_XIM_XCONNECT") && call_ensures(
                        f,
                        ("_XIM_PROTOCOL",),
                        Err(e),
                    )
                    ||| may_resolve(f, "XIM_SERVERS") && may_resolve(f, "LOCALES") && may_resolve(
                        f,
                        "TRANSPORT",
                    ) && may_resolve(f, "_XIM_XCONNECT") && may_resolve(f, "_XIM_PROTOCOL")
                        && call_ensures(f, ("XIM_RS_DATA",), Err(e))
                },
            }),
    {
        let xim_servers = match f("XIM_SERVERS") {
            Ok(a) => a,
            Err(e) => {
                return Err(e);
            },
        };
        let locales = match f("LOCALES") {
            Ok(a) => a,
            Err(e) => {
                return Err(e);
            },
        };
        let transport = match f("TRANSPORT") {
            Ok(a) => a,
            Err(e) => {
                return Err(e);
            },
        };
        let xim_xconnect = match f("_XIM_XCONNECT") {
            Ok(a) => a,
            Err(e) => {
                return Err(e);
            },
        };
        let xim_protocol = match f("_XIM_PROTOCOL") {
            Ok(a) => a,
            Err(e) => {
                return Err(e);
            },
        };
        let data = match f("XIM_RS_DATA") {
            Ok(a) => a,
            Err(e) => {
                return Err(e);
            },
        };
        Ok(Atoms {
            XIM_SERVERS: xim_servers,
            LOCALES: locales,
            TRANSPORT: transport,
            XIM_XCONNECT: xim_xconnect,
            XIM_PROTOCOL: xim_protocol,
            DATA: data,
        })
    }
}

} // verus!
