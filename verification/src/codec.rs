//! Trusted boundary to the external XIM wire-format codec.

use vstd::prelude::*;

verus! {

#[verifier::external_type_specification]
#[verifier::external_body]
pub struct ExRequest(xim_parser::Request);

#[verifier::external_type_specification]
#[verifier::external_body]
pub struct ExReadError(xim_parser::ReadError);

#[verifier::external_type_specification]
#[verifier::external_body]
pub struct ExErrorCode(xim_parser::ErrorCode);

/// Relies on xim_parser::write_to_vec: serializes the request into a fresh
/// byte buffer in one pass. Nothing is assumed of the produced bytes; every
/// caller handles an arbitrary encoding.
#[verifier::external_body]
pub(crate) fn encode_request(req: &xim_parser::Request) -> Vec<u8> {
    xim_parser::write_to_vec(req)
}

/// Relies on xim_parser::read: parses a byte slice into a protocol request,
/// failing with a read error on malformed input. Nothing is assumed of the
/// outcome; every caller handles both cases.
#[verifier::external_body]
pub(crate) fn decode_request(data: &[u8]) -> Result<xim_parser::Request, xim_parser::ReadError> {
    xim_parser::read(data)
}

/// Relies on xim_parser::Request::Connect: builds the protocol Connect
/// request carrying the given client protocol version, native endianness and
/// no auth protocol names.
#[verifier::external_body]
pub(crate) fn connect_request(major: u16, minor: u16) -> xim_parser::Request {
    xim_parser::Request::Connect {
        client_major_protocol_version: major,
        client_minor_protocol_version: minor,
        endian: xim_parser::Endian::Native,
        client_auth_protocol_names: Vec::new(),
    }
}

} // verus!
