//! Errors of the DNS-leak diagnostic. The probing itself only reads
//! external HTTP endpoints and lives outside the engine; the error kinds
//! and their texts are fixed here.

use vstd::prelude::*;

verus! {

/// What went wrong while asking the external leak-test service.
#[derive(Clone, Copy, Debug, PartialEq, Eq, Structural)]
pub enum HttpError {
    /// The service could not be contacted.
    ResponseError,
    /// The service's answer could not be read as an address.
    ParseError,
}

impl HttpError {
    /// The text shown for the error.
    pub fn message(&self) -> (s: String)
        ensures
            s@ == (match self {
                HttpError::ResponseError => "Error contacting ipleak.net"@,
                HttpError::ParseError => "Error getting the DNS server"@,
            }),
    {
        match self {
            HttpError::ResponseError => String::from_str("Error contacting ipleak.net"),
            HttpError::ParseError => String::from_str("Error getting the DNS server"),
        }
    }
}

} // verus!
