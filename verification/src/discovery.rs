//! Server discovery: selecting the advertised input-method server whose
//! `@server=<name>` entry matches the requested name.

use vstd::prelude::*;

use crate::error::ClientError;

verus! {

/// X11's predefined atom identifier for the type ATOM.
pub const XA_ATOM: u32 = 4;

/// The property format (bits per item) the servers-list property must have.
pub const SERVERS_FORMAT: u8 = 32;

/// One entry of the root window's servers-list property: the atom naming a
/// server's selection, the current owner window of that selection, and the
/// atom's name. Entries whose names are not valid text never match, so the
/// name is kept as raw bytes.
pub struct ServerCandidate {
    pub atom: u32,
    pub owner: u32,
    pub name: Vec<u8>,
}

/// Does `s` start with `prefix`?
pub fn starts_with_bytes(s: &Vec<u8>, prefix: &[u8]) -> (r: bool)
    ensures
        r == (prefix@.len() <= s@.len() && s@.take(prefix@.len() as int) == prefix@),
{
    if prefix.len() > s.len() {
        return false;
    }
    let mut i: usize = 0;
    while i < prefix.len()
        invariant
            i <= prefix@.len() <= s@.len(),
            forall|j: int| 0 <= j < i ==> s@[j] == prefix@[j],
        decreases prefix@.len() - i,
    {
        if s[i] != prefix[i] {
            proof {
                assert(s@.take(prefix@.len() as int)[i as int] != prefix@[i as int]);
            }
            return false;
        }
        i = i + 1;
    }
    proof {
        assert(s@.take(prefix@.len() as int) =~= prefix@);
    }
    true
}

/// The fixed prefix an advertising entry must carry.
pub open spec fn server_prefix() -> Seq<u8> {
    seq!['@' as u8, 's' as u8, 'e' as u8, 'r' as u8, 'v' as u8, 'e' as u8, 'r' as u8, '=' as u8]
}

/// Does `name` read `@server=<rest>` with `rest` exactly the requested name?
pub open spec fn spec_matches_server(name: Seq<u8>, im_name: Seq<u8>) -> bool {
    &&& name.len() == server_prefix().len() + im_name.len()
    &&& name.take(server_prefix().len() as int) == server_prefix()
    &&& name.skip(server_prefix().len() as int) == im_name
}

/// Decide whether one advertised name matches the requested server name,
/// case-sensitively and exactly.
pub fn matches_server(name: &Vec<u8>, im_name: &Vec<u8>) -> (r: bool)
    ensures
        r == spec_matches_server(name@, im_name@),
{
    if name.len() < 8 || name.len() - 8 != im_name.len() {
        return false;
    }
    let prefix: [u8; 8] = ['@' as u8, 's' as u8, 'e' as u8, 'r' as u8, 'v' as u8, 'e' as u8,
        'r' as u8, '=' as u8];
    proof {
        assert(prefix@ =~= server_prefix());
    }
    if !starts_with_bytes(name, prefix.as_slice()) {
        return false;
    }
    let mut k: usize = 8;
    while k < name.len()
        invariant
            8 <= k <= name@.len(),
            name@.len() == 8 + im_name@.len(),
            forall|j: int| 8 <= j < k ==> name@[j] == im_name@[j - 8],
        decreases name@.len() - k,
    {
        if name[k] != im_name[k - 8] {
            proof {
                assert(name@.skip(8)[k - 8] != im_name@[k - 8]);
            }
            return false;
        }
        k = k + 1;
    }
    proof {
        assert(name@.take(8) =~= server_prefix());
        assert(name@.skip(8) =~= im_name@);
    }
    true
}

/// Scan the advertised entries in property order and pick the first whose
/// name reads `@server=<requested>`; entries without that prefix, or with a
/// different remainder, are ignored. `None` means the list held no match.
pub fn select_server(candidates: &Vec<ServerCandidate>, im_name: &Vec<u8>) -> (r: Option<usize>)
    ensures
        (match r {
            Some(i) => {
                &&& i < candidates@.len()
                &&& spec_matches_server(candidates@[i as int].name@, im_name@)
                &&& forall|j: int|
                    0 <= j < i ==> !spec_matches_server(candidates@[j].name@, im_name@)
            },
            None => forall|j: int|
                0 <= j < candidates@.len() ==> !spec_matches_server(
                    candidates@[j].name@,
                    im_name@,
                ),
        }),
{
    let mut i: usize = 0;
    while i < candidates.len()
        invariant
            i <= candidates@.len(),
            forall|j: int| 0 <= j < i ==> !spec_matches_server(candidates@[j].name@, im_name@),
        decreases candidates@.len() - i,
    {
        if matches_server(&candidates[i].name, im_name) {
            return Some(i);
        }
        i = i + 1;
    }
    None
}

/// The prefix under which the platform environment variable names a server.
pub open spec fn im_prefix() -> Seq<u8> {
    seq!['@' as u8, 'i' as u8, 'm' as u8, '=' as u8]
}

/// Pick the target server name: an explicit name wins; otherwise the
/// environment value is accepted only in the form `@im=<name>`; with neither,
/// discovery cannot even start.
pub fn choose_im_name(explicit: Option<Vec<u8>>, modifiers: Option<Vec<u8>>) -> (r: Result<
    Vec<u8>,
    ClientError,
>)
    ensures
        (match explicit {
            Some(name) => r matches Ok(n) && n@ == name@,
            None => match modifiers {
                Some(m) => {
                    if m@.len() >= 4 && m@.take(4) == im_prefix() {
                        r matches Ok(n) && n@ == m@.skip(4)
                    } else {
                        r matches Err(e) && e matches ClientError::NoXimServer
                    }
                },
                None => r matches Err(e) && e matches ClientError::NoXimServer,
            },
        }),
{
    match explicit {
        Some(name) => Ok(name),
        None => match modifiers {
            Some(m) => {
                if m.len() < 4 {
                    return Err(ClientError::NoXimServer);
                }
                if m[0] != '@' as u8 || m[1] != 'i' as u8 || m[2] != 'm' as u8 || m[3]
                    != '=' as u8 {
                    proof {
                        assert(m@.take(4) != im_prefix());
                    }
                    return Err(ClientError::NoXimServer);
                }
                proof {
                    assert(m@.take(4) =~= im_prefix());
                }
                let mut out: Vec<u8> = Vec::new();
                let mut i: usize = 4;
                while i < m.len()
                    invariant
                        4 <= i <= m@.len(),
                        out@ == m@.subrange(4, i as int),
                    decreases m@.len() - i,
                {
                    out.push(m[i]);
                    proof {
                        assert(out@ =~= m@.subrange(4, i as int + 1));
                    }
                    i = i + 1;
                }
                proof {
                    assert(out@ =~= m@.skip(4));
                }
                Ok(out)
            },
            None => Err(ClientError::NoXimServer),
        },
    }
}

} // verus!
