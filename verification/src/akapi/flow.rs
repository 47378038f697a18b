//! Deleting an authentication flow: `DELETE /api/v3/flows/instances/{slug}/`
//! with the slug percent-encoded, a 204 meaning done, a 404 meaning the
//! flow was not found.

use vstd::prelude::*;
use vstd::string::is_ascii;
use vstd::string::StringExecFns;

use crate::encoding::{percent_encode, spec_percent_encode};
use crate::error::AkApiError;
use crate::textfmt::{append_decimal, spec_decimal};

verus! {

/// The delete-flow operation.
pub struct DeleteFlow;

/// How a delete operation reports an unexpected but successfully received
/// status code.
pub open spec fn spec_unknown_message(status: nat) -> Seq<char> {
    "Invalid status code "@ + spec_decimal(status)
}

pub(crate) fn unknown_message(status: u16) -> (r: String)
    ensures
        r@ == spec_unknown_message(status as nat),
{
    let mut m = String::from_str("Invalid status code ");
    append_decimal(&mut m, status as u64);
    m
}

/// The request path, with the untrusted slug percent-encoded.
pub open spec fn spec_flow_path(slug: Seq<char>) -> Seq<char> {
    "/api/v3/flows/instances/"@ + spec_percent_encode(slug) + "/"@
}

impl DeleteFlow {
    /// The HTTP method of the operation.
    pub fn method() -> (r: &'static str)
        ensures
            r@ == "DELETE"@,
    {
        "DELETE"
    }

    /// The request path for a slug. The character-exact encoding guarantee
    /// is stated for ASCII slugs (which cover the reserved characters such
    /// as space and `/`); the encoder still percent-encodes the UTF-8
    /// bytes of any other slug, but nothing is promised of that here.
    pub fn path(slug: &str) -> (r: String)
        ensures
            is_ascii(slug) ==> r@ == spec_flow_path(slug@),
    {
        let mut r = String::from_str("/api/v3/flows/instances/");
        let encoded = percent_encode(slug);
        r.append(encoded.as_str());
        r.append("/");
        proof {
            if is_ascii(slug) {
                assert(r@ =~= spec_flow_path(slug@));
            }
        }
        r
    }

    /// Classifies the received status: 204 is the only success, 404 means
    /// the flow was not found, anything else is unknown and carries the
    /// offending code.
    pub fn classify(status: u16) -> (r: Result<(), DeleteFlowError>)
        ensures
            (status == 204) <==> (r is Ok),
            (status == 404) ==> (r matches Err(DeleteFlowError::NotFound)),
            (status != 204 && status != 404) ==> (r matches Err(DeleteFlowError::Unknown(m))
                && m@ == spec_unknown_message(status as nat)),
    {
        if status == 204 {
            Ok(())
        } else if status == 404 {
            Err(DeleteFlowError::NotFound)
        } else {
            Err(DeleteFlowError::Unknown(unknown_message(status)))
        }
    }
}

/// The closed error set of the delete-flow operation.
#[derive(Debug)]
pub enum DeleteFlowError {
    /// The given flow was not found (404).
    NotFound,
    /// An unexpected status code, named in the message.
    Unknown(String),
    /// The request itself failed at the transport or decode layer.
    RequestError(AkApiError),
}

} // verus!
