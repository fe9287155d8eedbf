//! Account registration and login for a small chat-protocol homeserver.
//!
//! The library verifies the request-handling logic: routing, request
//! validation, the user-interactive-auth handshake for registration,
//! credential checking for login, the account/token store with its
//! uniqueness and referential-integrity invariants, and the mapping of
//! every failure to a stable wire-visible error body. Calls into outside
//! crates (JSON, password hashing, identifier generation, query strings)
//! stand behind small trusted wrappers in `outside`.

use vstd::prelude::*;

mod outside;
pub mod server_administration;
pub mod session_management;
pub mod store;
pub mod user_data;

pub use outside::FieldValue;
pub use outside::FieldValueV;
pub use outside::ParseFault;
pub use outside::json_quoted;
pub use outside::query_param_of;
pub use outside::parse_fault_of;
pub use outside::field_of;
pub use outside::bcrypt_matches;
pub use outside::bcrypt_hash_wf;

verus! {

/// Attaches an extra value to both arms of a result, so that a value can be
/// threaded through a fallible step without being lost on the error path.
pub fn tack_on<T, E, A>(res: Result<T, E>, addition: A) -> (r: Result<(T, A), (E, A)>)
    ensures
        match r {
            Ok(p) => res matches Ok(v) && p.0 == v && p.1 == addition,
            Err(p) => res matches Err(e) && p.0 == e && p.1 == addition,
        },
{
    match res {
        Ok(value) => Ok((value, addition)),
        Err(err) => Err((err, addition)),
    }
}

/// The transport-independent shape of an HTTP response: a status code and a
/// JSON body. The surrounding server turns this into a real response and
/// always attaches an `application/json` content type.
pub struct HttpResponse {
    pub status: u16,
    pub body: String,
}

pub ghost struct RespV {
    pub status: u16,
    pub body: Seq<char>,
}

impl View for HttpResponse {
    type V = RespV;

    open spec fn view(&self) -> RespV {
        RespV { status: self.status, body: self.body@ }
    }
}

/// A client-facing error body: a stable machine-readable code and a
/// human-readable message.
pub struct ErrorBody {
    pub errcode: &'static str,
    pub error: &'static str,
}

pub ghost struct ErrorBodyV {
    pub errcode: Seq<char>,
    pub error: Seq<char>,
}

impl View for ErrorBody {
    type V = ErrorBodyV;

    open spec fn view(&self) -> ErrorBodyV {
        ErrorBodyV { errcode: self.errcode@, error: self.error@ }
    }
}

/// The error code that maps to HTTP 500; every other code maps to 400.
pub open spec fn internal_error_code() -> Seq<char> {
    "CHAT_LOMATIA_INTERNAL_ERROR"@
}

/// The wire form of an error body: `{"errcode":...,"error":...}` with both
/// fields JSON-quoted.
pub open spec fn error_body_json(errcode: Seq<char>, error: Seq<char>) -> Seq<char> {
    "{\"errcode\":"@ + json_quoted(errcode) + ",\"error\":"@ + json_quoted(error) + "}"@
}

pub open spec fn to_response_spec(b: ErrorBodyV) -> RespV {
    RespV {
        status: if b.errcode == internal_error_code() { 500u16 } else { 400u16 },
        body: error_body_json(b.errcode, b.error),
    }
}

impl ErrorBody {
    pub fn new_static(errcode: &'static str, error: &'static str) -> (r: ErrorBody)
        ensures
            r@ == (ErrorBodyV { errcode: errcode@, error: error@ }),
    {
        ErrorBody { errcode, error }
    }

    /// Renders the body as its wire JSON.
    pub fn to_json(&self) -> (r: String)
        ensures
            r@ == error_body_json(self@.errcode, self@.error),
    {
        let mut s: String = "{\"errcode\":".to_owned();
        s.append(outside::json_quote(self.errcode).as_str());
        s.append(",\"error\":");
        s.append(outside::json_quote(self.error).as_str());
        s.append("}");
        s
    }

    /// Turns the body into a complete response: the internal-error code maps
    /// to HTTP 500, every other code to HTTP 400.
    pub fn to_response(&self) -> (r: HttpResponse)
        ensures
            r@ == to_response_spec(self@),
    {
        let status: u16 = if outside::str_eq(self.errcode, "CHAT_LOMATIA_INTERNAL_ERROR") {
            500
        } else {
            400
        };
        HttpResponse { status, body: self.to_json() }
    }
}

/// The error taxonomy: one variant per client-visible failure, plus a single
/// `Fault` variant that wraps every lower-layer failure (storage, hashing).
/// Only the mapper below turns a variant into a status and a wire body.
pub enum Error {
    NotJson,
    BadJson,
    GuestAccessForbidden,
    InvalidUsername,
    InvalidParameter,
    MissingUser,
    MissingPassword,
    UnknownLoginType,
    UnsupportedMedium,
    InvalidCredentials,
    Unrecognized,
    Fault,
}

pub open spec fn errcode_of(e: Error) -> Seq<char> {
    match e {
        Error::NotJson => "M_NOT_JSON"@,
        Error::BadJson => "M_BAD_JSON"@,
        Error::GuestAccessForbidden => "M_GUEST_ACCESS_FORBIDDEN"@,
        Error::InvalidUsername => "M_INVALID_USERNAME"@,
        Error::InvalidParameter => "CHAT_LOMATIA_INVALID_PARAM"@,
        Error::MissingUser => "M_UNKNOWN"@,
        Error::MissingPassword => "M_UNKNOWN"@,
        Error::UnknownLoginType => "M_UNKNOWN"@,
        Error::UnsupportedMedium => "M_UNKNOWN"@,
        Error::InvalidCredentials => "M_FORBIDDEN"@,
        Error::Unrecognized => "M_UNRECOGNIZED"@,
        Error::Fault => "CHAT_LOMATIA_INTERNAL_ERROR"@,
    }
}

pub open spec fn message_of(e: Error) -> Seq<char> {
    match e {
        Error::NotJson => "Content not JSON"@,
        Error::BadJson => "Invalid JSON body"@,
        Error::GuestAccessForbidden => "Guest accounts are forbidden"@,
        Error::InvalidUsername => "The desired user ID is not a valid user name"@,
        Error::InvalidParameter => "Invalid 'kind' value, must be either 'guest' or 'user'"@,
        Error::MissingUser => "Missing user parameter"@,
        Error::MissingPassword => "Missing password parameter"@,
        Error::UnknownLoginType => "Unknown login type"@,
        Error::UnsupportedMedium => "3pid is not supported"@,
        Error::InvalidCredentials => "Invalid password"@,
        Error::Unrecognized => "Unrecognized request"@,
        Error::Fault => "Internal server error"@,
    }
}

/// The one rule that picks a status from an error: internal faults are 500,
/// every recognized client error is 400.
pub open spec fn error_status(e: Error) -> u16 {
    match e {
        Error::Fault => 500u16,
        _ => 400u16,
    }
}

pub open spec fn error_resp(e: Error) -> RespV {
    RespV { status: error_status(e), body: error_body_json(errcode_of(e), message_of(e)) }
}

/// The error mapper: the single point that turns an error into its wire
/// response.
pub fn error_response(e: &Error) -> (r: HttpResponse)
    ensures
        r@ == error_resp(*e),
{
    let b = match e {
        Error::NotJson => ErrorBody::new_static("M_NOT_JSON", "Content not JSON"),
        Error::BadJson => ErrorBody::new_static("M_BAD_JSON", "Invalid JSON body"),
        Error::GuestAccessForbidden => ErrorBody::new_static(
            "M_GUEST_ACCESS_FORBIDDEN",
            "Guest accounts are forbidden",
        ),
        Error::InvalidUsername => ErrorBody::new_static(
            "M_INVALID_USERNAME",
            "The desired user ID is not a valid user name",
        ),
        Error::InvalidParameter => ErrorBody::new_static(
            "CHAT_LOMATIA_INVALID_PARAM",
            "Invalid 'kind' value, must be either 'guest' or 'user'",
        ),
        Error::MissingUser => ErrorBody::new_static("M_UNKNOWN", "Missing user parameter"),
        Error::MissingPassword => ErrorBody::new_static("M_UNKNOWN", "Missing password parameter"),
        Error::UnknownLoginType => ErrorBody::new_static("M_UNKNOWN", "Unknown login type"),
        Error::UnsupportedMedium => ErrorBody::new_static("M_UNKNOWN", "3pid is not supported"),
        Error::InvalidCredentials => ErrorBody::new_static("M_FORBIDDEN", "Invalid password"),
        Error::Unrecognized => ErrorBody::new_static("M_UNRECOGNIZED", "Unrecognized request"),
        Error::Fault => ErrorBody::new_static(
            "CHAT_LOMATIA_INTERNAL_ERROR",
            "Internal server error",
        ),
    };
    let status: u16 = match e {
        Error::Fault => 500,
        _ => 400,
    };
    HttpResponse { status, body: b.to_json() }
}

/// The wire form of a successful registration or login.
pub open spec fn success_body_json(
    user: Seq<char>,
    token: Seq<char>,
    device: Seq<char>,
    host: Seq<char>,
) -> Seq<char> {
    "{\"user_id\":"@ + json_quoted(user) + ",\"access_token\":"@ + json_quoted(token)
        + ",\"device_id\":"@ + json_quoted(device) + ",\"home_server\":"@ + json_quoted(host)
        + "}"@
}

pub open spec fn success_resp(
    user: Seq<char>,
    token: Seq<char>,
    device: Seq<char>,
    host: Seq<char>,
) -> RespV {
    RespV { status: 200u16, body: success_body_json(user, token, device, host) }
}

/// Builds the 200 response of a successful registration or login.
pub fn success_response(user: &str, token: &str, device: &str, host: &str) -> (r: HttpResponse)
    ensures
        r@ == success_resp(user@, token@, device@, host@),
{
    let mut s: String = "{\"user_id\":".to_owned();
    s.append(outside::json_quote(user).as_str());
    s.append(",\"access_token\":");
    s.append(outside::json_quote(token).as_str());
    s.append(",\"device_id\":");
    s.append(outside::json_quote(device).as_str());
    s.append(",\"home_server\":");
    s.append(outside::json_quote(host).as_str());
    s.append("}");
    HttpResponse { status: 200, body: s }
}

/// The routing table: which handler serves a method and path.
#[derive(PartialEq, Eq, Structural, Clone, Copy, Debug)]
pub enum Route {
    Versions,
    Register,
    Login,
    Unrecognized,
}

pub open spec fn route_spec(method: Seq<char>, path: Seq<char>) -> Route {
    if method == "GET"@ && path == "/_matrix/client/versions"@ {
        Route::Versions
    } else if method == "POST"@ && path == "/_matrix/client/r0/register"@ {
        Route::Register
    } else if method == "POST"@ && path == "/_matrix/client/r0/login"@ {
        Route::Login
    } else {
        Route::Unrecognized
    }
}

/// Maps a request's method and path to its handler; anything unknown gets
/// the standard unrecognized-request error.
pub fn route(method: &str, path: &str) -> (r: Route)
    ensures
        r == route_spec(method@, path@),
{
    if outside::str_eq(method, "GET") && outside::str_eq(path, "/_matrix/client/versions") {
        Route::Versions
    } else if outside::str_eq(method, "POST") && outside::str_eq(
        path,
        "/_matrix/client/r0/register",
    ) {
        Route::Register
    } else if outside::str_eq(method, "POST") && outside::str_eq(
        path,
        "/_matrix/client/r0/login",
    ) {
        Route::Login
    } else {
        Route::Unrecognized
    }
}

/// The status rule is one rule: rendering an error's code and message
/// through `to_response` picks exactly the status the mapper picks, because
/// the internal-error code belongs to the `Fault` variant alone.
pub proof fn lemma_error_mapper_coherent(e: Error)
    ensures
        to_response_spec(ErrorBodyV { errcode: errcode_of(e), error: message_of(e) }) == error_resp(
            e,
        ),
{
    reveal_strlit("M_NOT_JSON");
    reveal_strlit("M_BAD_JSON");
    reveal_strlit("M_GUEST_ACCESS_FORBIDDEN");
    reveal_strlit("M_INVALID_USERNAME");
    reveal_strlit("CHAT_LOMATIA_INVALID_PARAM");
    reveal_strlit("M_UNKNOWN");
    reveal_strlit("M_FORBIDDEN");
    reveal_strlit("M_UNRECOGNIZED");
    reveal_strlit("CHAT_LOMATIA_INTERNAL_ERROR");
    assert("CHAT_LOMATIA_INTERNAL_ERROR"@.len() == 27);
    assert("M_NOT_JSON"@.len() == 10);
    assert("M_BAD_JSON"@.len() == 10);
    assert("M_GUEST_ACCESS_FORBIDDEN"@.len() == 24);
    assert("M_INVALID_USERNAME"@.len() == 18);
    assert("CHAT_LOMATIA_INVALID_PARAM"@.len() == 26);
    assert("M_UNKNOWN"@.len() == 9);
    assert("M_FORBIDDEN"@.len() == 11);
    assert("M_UNRECOGNIZED"@.len() == 14);
}

} // verus!
