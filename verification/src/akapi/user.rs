//! Creating a service account: `POST /api/v3/core/users/service_account/`
//! with a `{name, create_group}` body. A 400 means the account already
//! exists; any other response is decoded as the `{username, user_uid,
//! user_pk, token}` payload, tolerating unknown extra fields; a missing
//! required field is a decode error, kept distinct from transport errors.

use vstd::prelude::*;
use vstd::string::StringExecFns;

use crate::akapi::{json_field_str, json_field_u64, json_str_field, json_u64_field};
use crate::error::AkApiError;
use crate::textfmt::{append_json_string, spec_bool_str, spec_json_string};

verus! {

/// The create-service-account operation.
pub struct CreateServiceAccount;

/// The request body: the account name and whether to create its group.
pub struct CreateServiceAccountBody {
    pub name: String,
    pub create_group: bool,
}

/// The decoded success payload.
pub struct CreateServiceAccountResponse {
    pub username: String,
    pub user_uid: String,
    pub user_pk: usize,
    pub token: String,
}

/// The closed error set of the create-service-account operation.
#[derive(Debug)]
pub enum CreateServiceAccountError {
    /// The server answered 400: the account probably already exists.
    ExistsError,
    /// The request failed at the transport or decode layer.
    RequestError(AkApiError),
}

/// The JSON document the request body is serialized to.
pub open spec fn spec_account_body_json(name: Seq<char>, create_group: bool) -> Seq<char> {
    "{\"name\":"@ + spec_json_string(name) + ",\"create_group\":"@ + spec_bool_str(create_group)
        + "}"@
}

impl CreateServiceAccountBody {
    /// Serializes the body as its JSON document.
    pub fn to_json(&self) -> (r: String)
        ensures
            r@ == spec_account_body_json(self.name@, self.create_group),
    {
        let mut r = String::from_str("{\"name\":");
        append_json_string(&mut r, self.name.as_str());
        r.append(",\"create_group\":");
        if self.create_group {
            r.append("true");
        } else {
            r.append("false");
        }
        r.append("}");
        proof {
            assert(r@ =~= spec_account_body_json(self.name@, self.create_group));
        }
        r
    }
}

/// When decoding the response bytes succeeds: every required field is
/// present with its expected kind (extra fields do not matter), and the
/// numeric key fits the machine.
pub open spec fn spec_decode_ok(bytes: Seq<u8>) -> bool {
    json_field_str(bytes, "username"@) is Some && json_field_str(bytes, "user_uid"@) is Some
        && json_field_u64(bytes, "user_pk"@) is Some && json_field_str(bytes, "token"@) is Some
        && json_field_u64(bytes, "user_pk"@)->Some_0 <= usize::MAX as u64
}

/// Builds the decoded payload from the four extracted fields: succeeds
/// exactly when every required field was present (and the numeric key fits
/// the machine), else reports a decode error.
pub fn assemble_response(
    username: Option<String>,
    user_uid: Option<String>,
    user_pk: Option<u64>,
    token: Option<String>,
) -> (r: Result<CreateServiceAccountResponse, CreateServiceAccountError>)
    ensures
        (r is Ok) <==> (username is Some && user_uid is Some && user_pk is Some && token is Some
            && user_pk->Some_0 <= usize::MAX as u64),
        r is Ok ==> r->Ok_0.username@ == username->Some_0@ && r->Ok_0.user_uid@
            == user_uid->Some_0@ && r->Ok_0.user_pk == user_pk->Some_0 as usize && r->Ok_0.token@
            == token->Some_0@,
        r is Err ==> (r matches Err(
            CreateServiceAccountError::RequestError(AkApiError::SerializeError(_)),
        )),
{
    match (username, user_uid, user_pk, token) {
        (Some(username), Some(user_uid), Some(user_pk), Some(token)) => {
            if user_pk <= usize::MAX as u64 {
                Ok(
                    CreateServiceAccountResponse {
                        username,
                        user_uid,
                        user_pk: user_pk as usize,
                        token,
                    },
                )
            } else {
                Err(
                    CreateServiceAccountError::RequestError(
                        AkApiError::SerializeError(
                            String::from_str("Numeric field out of range in response payload."),
                        ),
                    ),
                )
            }
        },
        _ => Err(
            CreateServiceAccountError::RequestError(
                AkApiError::SerializeError(
                    String::from_str("Missing or malformed field in response payload."),
                ),
            ),
        ),
    }
}

/// Decodes the success payload from the response bytes: succeeds exactly
/// when the four required fields are present, with each decoded field
/// fixed to the named field of the bytes; extra unknown fields are
/// ignored, and anything else is a decode error.
pub fn decode_response(body: &[u8]) -> (r: Result<
    CreateServiceAccountResponse,
    CreateServiceAccountError,
>)
    ensures
        (r is Ok) == spec_decode_ok(body@),
        r matches Ok(resp) ==> Some(resp.username@) == json_field_str(body@, "username"@) && Some(
            resp.user_uid@,
        ) == json_field_str(body@, "user_uid"@) && Some(resp.user_pk as u64) == json_field_u64(
            body@,
            "user_pk"@,
        ) && Some(resp.token@) == json_field_str(body@, "token"@),
        r is Err ==> (r matches Err(
            CreateServiceAccountError::RequestError(AkApiError::SerializeError(_)),
        )),
{
    let username = json_str_field(body, "username");
    let user_uid = json_str_field(body, "user_uid");
    let user_pk = json_u64_field(body, "user_pk");
    let token = json_str_field(body, "token");
    assemble_response(username, user_uid, user_pk, token)
}

impl CreateServiceAccount {
    /// The HTTP method of the operation.
    pub fn method() -> (r: &'static str)
        ensures
            r@ == "POST"@,
    {
        "POST"
    }

    /// The request path; it carries no untrusted segment.
    pub fn path() -> (r: &'static str)
        ensures
            r@ == "/api/v3/core/users/service_account/"@,
    {
        "/api/v3/core/users/service_account/"
    }

    /// Classifies the received status and body: a 400 is the exists error
    /// and nothing else is; every other status has its body decoded, with
    /// success exactly when the required fields are present and the result
    /// fixed to the named fields of the bytes; a failing decode is a
    /// decode error.
    pub fn classify(status: u16, body: &[u8]) -> (r: Result<
        CreateServiceAccountResponse,
        CreateServiceAccountError,
    >)
        ensures
            (status == 400) <==> (r matches Err(CreateServiceAccountError::ExistsError)),
            status != 400 ==> (r is Ok) == spec_decode_ok(body@),
            status != 400 ==> (r matches Ok(resp) ==> Some(resp.username@) == json_field_str(
                body@,
                "username"@,
            ) && Some(resp.user_uid@) == json_field_str(body@, "user_uid"@) && Some(
                resp.user_pk as u64,
            ) == json_field_u64(body@, "user_pk"@) && Some(resp.token@) == json_field_str(
                body@,
                "token"@,
            )),
            (status != 400 && r is Err) ==> (r matches Err(
                CreateServiceAccountError::RequestError(AkApiError::SerializeError(_)),
            )),
    {
        if status == 400 {
            return Err(CreateServiceAccountError::ExistsError);
        }
        decode_response(body)
    }
}

} // verus!
