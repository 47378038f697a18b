//! Deleting a stage: `DELETE /api/v3/stages/all/{slug}/` with the slug
//! percent-encoded, a 204 meaning done, a 404 meaning the stage was not
//! found.

use vstd::prelude::*;
use vstd::string::is_ascii;
use vstd::string::StringExecFns;

use crate::akapi::flow::{spec_unknown_message, unknown_message};
use crate::encoding::{percent_encode, spec_percent_encode};

verus! {

/// The delete-stage operation.
pub struct DeleteStage;

/// The request path, with the untrusted slug percent-encoded.
pub open spec fn spec_stage_path(slug: Seq<char>) -> Seq<char> {
    "/api/v3/stages/all/"@ + spec_percent_encode(slug) + "/"@
}

impl DeleteStage {
    /// The HTTP method of the operation.
    pub fn method() -> (r: &'static str)
        ensures
            r@ == "DELETE"@,
    {
        "DELETE"
    }

    /// The request path for a slug. The character-exact encoding guarantee
    /// is stated for ASCII slugs (which cover the reserved characters such
    /// as space and `/`); the encoder still percent-encodes the UTF-8
    /// bytes of any other slug, but nothing is promised of that here.
    pub fn path(slug: &str) -> (r: String)
        ensures
            is_ascii(slug) ==> r@ == spec_stage_path(slug@),
    {
        let mut r = String::from_str("/api/v3/stages/all/");
        let encoded = percent_encode(slug);
        r.append(encoded.as_str());
        r.append("/");
        proof {
            if is_ascii(slug) {
                assert(r@ =~= spec_stage_path(slug@));
            }
        }
        r
    }

    /// Classifies the received status: 204 is the only success, 404 means
    /// the stage was not found, anything else is unknown and carries the
    /// offending code.
    pub fn classify(status: u16) -> (r: Result<(), DeleteStageError>)
        ensures
            (status == 204) <==> (r is Ok),
            (status == 404) ==> (r matches Err(DeleteStageError::NotFound)),
            (status != 204 && status != 404) ==> (r matches Err(DeleteStageError::Unknown(m))
                && m@ == spec_unknown_message(status as nat)),
    {
        if status == 204 {
            Ok(())
        } else if status == 404 {
            Err(DeleteStageError::NotFound)
        } else {
            Err(DeleteStageError::Unknown(unknown_message(status)))
        }
    }
}

/// The closed error set of the delete-stage operation.
#[derive(Debug)]
pub enum DeleteStageError {
    /// The given stage was not found (404).
    NotFound,
    /// An unexpected status code, named in the message.
    Unknown(String),
    /// The HTTP request could not be sent or no response arrived.
    ConnectionError(String),
}

} // verus!
