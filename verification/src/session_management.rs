//! The login authenticator: password-based login, credential verification
//! through the hasher, and token issuance for the session.

use vstd::prelude::*;

use crate::outside;
use crate::store::AccountStore;
use crate::store::StoreV;
use crate::store::Token;
use crate::store::TokenV;
use crate::store::has_localpart;
use crate::store::has_token_id;
use crate::store::has_user_id;
use crate::store::user_with_localpart;
use crate::user_data::FreshIds;
use crate::user_data::FreshV;
use crate::user_data::device_or;
use crate::user_data::draw_fresh_ids;
use crate::user_data::fresh_wf;
use crate::Error;
use crate::FieldValue;
use crate::FieldValueV;
use crate::HttpResponse;
use crate::ParseFault;
use crate::RespV;
use crate::bcrypt_hash_wf;
use crate::bcrypt_matches;
use crate::error_resp;
use crate::parse_fault_of;
use crate::field_of;
use crate::error_response;
use crate::success_resp;
use crate::success_response;

verus! {

/// A login request body: the login type and the optional credential fields.
pub struct LoginBody {
    pub type_: String,
    pub user: Option<String>,
    pub medium: Option<String>,
    pub password: Option<String>,
    pub device_id: Option<String>,
}

pub ghost struct LoginBodyV {
    pub type_: Seq<char>,
    pub user: Option<Seq<char>>,
    pub medium: Option<Seq<char>>,
    pub password: Option<Seq<char>>,
    pub device_id: Option<Seq<char>>,
}

impl View for LoginBody {
    type V = LoginBodyV;

    open spec fn view(&self) -> LoginBodyV {
        LoginBodyV {
            type_: self.type_@,
            user: match self.user {
                Some(s) => Some(s@),
                None => None,
            },
            medium: match self.medium {
                Some(s) => Some(s@),
                None => None,
            },
            password: match self.password {
                Some(s) => Some(s@),
                None => None,
            },
            device_id: match self.device_id {
                Some(s) => Some(s@),
                None => None,
            },
        }
    }
}

/// How an optional string field of the login schema reads: absent and null
/// are missing, a string is its value, anything else fails the shape check.
pub open spec fn login_opt_field(f: FieldValueV) -> Result<Option<Seq<char>>, Error> {
    match f {
        FieldValueV::Absent => Ok(None),
        FieldValueV::Null => Ok(None),
        FieldValueV::Str(s) => Ok(Some(s)),
        FieldValueV::Obj(_) => Err(Error::BadJson),
        FieldValueV::Other(_) => Err(Error::BadJson),
    }
}

/// The typed login schema: `type` must be a string, and every credential
/// field must be a string when present; anything else is JSON of the wrong
/// shape.
pub open spec fn login_body_of_fields(
    type_: FieldValueV,
    user: FieldValueV,
    medium: FieldValueV,
    password: FieldValueV,
    device_id: FieldValueV,
) -> Result<LoginBodyV, Error> {
    match type_ {
        FieldValueV::Str(t) => match (
            login_opt_field(user),
            login_opt_field(medium),
            login_opt_field(password),
            login_opt_field(device_id),
        ) {
            (Ok(u), Ok(m), Ok(p), Ok(d)) => Ok(
                LoginBodyV { type_: t, user: u, medium: m, password: p, device_id: d },
            ),
            _ => Err(Error::BadJson),
        },
        _ => Err(Error::BadJson),
    }
}

/// Reads one optional string field of the login schema.
fn login_field(f: FieldValue) -> (r: Result<Option<String>, Error>)
    ensures
        match r {
            Ok(v) => login_opt_field(f@) == Ok::<Option<Seq<char>>, Error>(
                match v {
                    Some(s) => Some(s@),
                    None => None,
                },
            ),
            Err(e) => login_opt_field(f@) == Err::<Option<Seq<char>>, Error>(e),
        },
{
    match f {
        FieldValue::Absent => Ok(None),
        FieldValue::Null => Ok(None),
        FieldValue::Str(s) => Ok(Some(s)),
        FieldValue::Obj(_) => Err(Error::BadJson),
        FieldValue::Other(_) => Err(Error::BadJson),
    }
}

/// Assembles a login body from its extracted JSON fields.
pub fn login_body_from_fields(
    type_: FieldValue,
    user: FieldValue,
    medium: FieldValue,
    password: FieldValue,
    device_id: FieldValue,
) -> (r: Result<LoginBody, Error>)
    ensures
        match r {
            Ok(b) => login_body_of_fields(type_@, user@, medium@, password@, device_id@) == Ok::<
                LoginBodyV,
                Error,
            >(b@),
            Err(e) => login_body_of_fields(type_@, user@, medium@, password@, device_id@)
                == Err::<LoginBodyV, Error>(e),
        },
{
    let t: String = match type_ {
        FieldValue::Str(t) => t,
        _ => {
            return Err(Error::BadJson);
        },
    };
    let u = match login_field(user) {
        Ok(v) => v,
        Err(e) => {
            return Err(e);
        },
    };
    let m = match login_field(medium) {
        Ok(v) => v,
        Err(e) => {
            return Err(e);
        },
    };
    let p = match login_field(password) {
        Ok(v) => v,
        Err(e) => {
            return Err(e);
        },
    };
    let d = match login_field(device_id) {
        Ok(v) => v,
        Err(e) => {
            return Err(e);
        },
    };
    Ok(LoginBody { type_: t, user: u, medium: m, password: p, device_id: d })
}

/// What a login body's bytes mean: the parse fault when they are not a
/// JSON document, else what the typed schema makes of the five fields of
/// the document.
pub open spec fn login_parse_of(bytes: Seq<u8>) -> Result<LoginBodyV, Error> {
    match parse_fault_of(bytes) {
        Some(ParseFault::NotJson) => Err(Error::NotJson),
        Some(ParseFault::BadJson) => Err(Error::BadJson),
        None => login_body_of_fields(
            field_of(bytes, "type"@),
            field_of(bytes, "user"@),
            field_of(bytes, "medium"@),
            field_of(bytes, "password"@),
            field_of(bytes, "device_id"@),
        ),
    }
}

/// Parses a login request body: exactly `login_parse_of` of the bytes.
pub fn parse_login_request(bytes: &[u8]) -> (r: Result<LoginBody, Error>)
    ensures
        match r {
            Ok(b) => login_parse_of(bytes@) == Ok::<LoginBodyV, Error>(b@),
            Err(e) => login_parse_of(bytes@) == Err::<LoginBodyV, Error>(e),
        },
{
    match outside::json_parse_fault(bytes) {
        Some(ParseFault::NotJson) => Err(Error::NotJson),
        Some(ParseFault::BadJson) => Err(Error::BadJson),
        None => {
            let type_ = outside::json_field(bytes, "type");
            let user = outside::json_field(bytes, "user");
            let medium = outside::json_field(bytes, "medium");
            let password = outside::json_field(bytes, "password");
            let device_id = outside::json_field(bytes, "device_id");
            login_body_from_fields(type_, user, medium, password, device_id)
        },
    }
}

/// What the shape checks decide before any lookup or verification.
pub enum LoginStep {
    Reject(Error),
    Authenticate { user: String, password: String, device_id: Option<String> },
}

pub ghost enum LoginStepV {
    Reject(Error),
    Authenticate { user: Seq<char>, password: Seq<char>, device_id: Option<Seq<char>> },
}

impl View for LoginStep {
    type V = LoginStepV;

    open spec fn view(&self) -> LoginStepV {
        match self {
            LoginStep::Reject(e) => LoginStepV::Reject(*e),
            LoginStep::Authenticate { user, password, device_id } => LoginStepV::Authenticate {
                user: user@,
                password: password@,
                device_id: match device_id {
                    Some(d) => Some(d@),
                    None => None,
                },
            },
        }
    }
}

/// The login shape rules: only password login is known, third-party
/// identifiers are unsupported, and both `user` and `password` are
/// required.
pub open spec fn screen_login_spec(b: LoginBodyV) -> LoginStepV {
    if b.type_ != "m.login.password"@ {
        LoginStepV::Reject(Error::UnknownLoginType)
    } else if b.medium is Some {
        LoginStepV::Reject(Error::UnsupportedMedium)
    } else {
        match (b.user, b.password) {
            (None, _) => LoginStepV::Reject(Error::MissingUser),
            (Some(_), None) => LoginStepV::Reject(Error::MissingPassword),
            (Some(u), Some(p)) => LoginStepV::Authenticate {
                user: u,
                password: p,
                device_id: b.device_id,
            },
        }
    }
}

/// Decides what a login request leads to, before any effect.
pub fn screen_login(body: LoginBody) -> (r: LoginStep)
    ensures
        r@ == screen_login_spec(body@),
{
    if !outside::str_eq(body.type_.as_str(), "m.login.password") {
        return LoginStep::Reject(Error::UnknownLoginType);
    }
    if body.medium.is_some() {
        return LoginStep::Reject(Error::UnsupportedMedium);
    }
    match (body.user, body.password) {
        (None, _) => LoginStep::Reject(Error::MissingUser),
        (Some(_), None) => LoginStep::Reject(Error::MissingPassword),
        (Some(user), Some(password)) => LoginStep::Authenticate {
            user,
            password,
            device_id: body.device_id,
        },
    }
}

/// What can be assumed of the verification outcome for a login attempt:
/// when the named account exists, a reported result is the truth of the
/// match, a failed call means no match, and a well-formed stored hash never
/// lets the call fail.
pub open spec fn verify_admissible(s: StoreV, b: LoginBodyV, vr: Option<bool>) -> bool {
    match screen_login_spec(b) {
        LoginStepV::Authenticate { user, password, device_id } => has_localpart(s, user) ==> {
            let h = user_with_localpart(s, user).passhash;
            &&& (vr matches Some(x) ==> x == bcrypt_matches(password, h))
            &&& (vr is None ==> !bcrypt_matches(password, h))
            &&& (bcrypt_hash_wf(h) ==> vr is Some)
        },
        _ => true,
    }
}

/// The full effect of one login attempt, given the parsed body, the fresh
/// identifiers and the verification outcome: shape errors leave the store
/// untouched; an unknown account and a wrong password get the same
/// credentials error; a verified password gets a fresh token bound to the
/// requested or a fresh device.
pub open spec fn login_outcome(
    s: StoreV,
    host: Seq<char>,
    b: LoginBodyV,
    fresh: FreshV,
    created: u64,
    vr: Option<bool>,
) -> (RespV, StoreV) {
    match screen_login_spec(b) {
        LoginStepV::Reject(e) => (error_resp(e), s),
        LoginStepV::Authenticate { user, password, device_id } => {
            if !has_localpart(s, user) {
                (error_resp(Error::InvalidCredentials), s)
            } else {
                match vr {
                    None => (error_resp(Error::Fault), s),
                    Some(false) => (error_resp(Error::InvalidCredentials), s),
                    Some(true) => {
                        let dev = device_or(device_id, fresh.device_id);
                        let u = user_with_localpart(s, user);
                        if has_token_id(s, fresh.token_id) {
                            (error_resp(Error::Fault), s)
                        } else {
                            (
                                success_resp(user, fresh.token_id, dev, host),
                                StoreV {
                                    users: s.users,
                                    tokens: s.tokens.push(
                                        TokenV {
                                            id: fresh.token_id,
                                            user_id: u.id,
                                            device_id: dev,
                                            created,
                                        },
                                    ),
                                },
                            )
                        }
                    },
                }
            }
        },
    }
}

/// Runs one login attempt against the store with the given fresh
/// identifiers: shape checks, account lookup, password verification and
/// token issuance, exactly as `login_outcome` lays it out for the
/// verification outcome that occurred.
pub fn login_with_ids(
    store: &mut AccountStore,
    host: &str,
    body: LoginBody,
    fresh: FreshIds,
    created: u64,
) -> (r: HttpResponse)
    requires
        old(store).wf(),
    ensures
        final(store).wf(),
        exists|vr: Option<bool>|
            #[trigger] verify_admissible(old(store)@, body@, vr) && (r@, final(store)@)
                == login_outcome(old(store)@, host@, body@, fresh@, created, vr),
{
    let ghost bodyv = body@;
    match screen_login(body) {
        LoginStep::Reject(e) => {
            let r = error_response(&e);
            proof {
                assert(verify_admissible(old(store)@, bodyv, None));
            }
            r
        },
        LoginStep::Authenticate { user, password, device_id } => {
            match store.find_user_by_localpart(user.as_str()) {
                None => {
                    let r = error_response(&Error::InvalidCredentials);
                    proof {
                        assert(verify_admissible(old(store)@, bodyv, None));
                    }
                    r
                },
                Some(found) => {
                    let passhash = found.passhash.clone();
                    let uid = found.id.clone();
                    match outside::check_password(password.as_str(), passhash.as_str()) {
                        None => {
                            let r = error_response(&Error::Fault);
                            proof {
                                assert(verify_admissible(old(store)@, bodyv, None));
                            }
                            r
                        },
                        Some(false) => {
                            let r = error_response(&Error::InvalidCredentials);
                            proof {
                                assert(verify_admissible(old(store)@, bodyv, Some(false)));
                            }
                            r
                        },
                        Some(true) => {
                            let dev: String = match device_id {
                                Some(d) => d,
                                None => fresh.device_id.clone(),
                            };
                            let tok = Token {
                                id: fresh.token_id.clone(),
                                user_id: uid,
                                device_id: dev.clone(),
                                created,
                            };
                            proof {
                                let s = old(store)@;
                                let c = choose|i: int|
                                    0 <= i < s.users.len() && #[trigger] s.users[i].localpart
                                        == user@;
                                assert(s.users[c].id == user_with_localpart(s, user@).id);
                                assert(has_user_id(s, user_with_localpart(s, user@).id));
                            }
                            match store.insert_token(tok) {
                                Err(_) => {
                                    let r = error_response(&Error::Fault);
                                    proof {
                                        assert(verify_admissible(old(store)@, bodyv, Some(true)));
                                    }
                                    r
                                },
                                Ok(()) => {
                                    let r = success_response(
                                        user.as_str(),
                                        fresh.token_id.as_str(),
                                        dev.as_str(),
                                        host,
                                    );
                                    proof {
                                        assert(verify_admissible(old(store)@, bodyv, Some(true)));
                                    }
                                    r
                                },
                            }
                        },
                    }
                },
            }
        },
    }
}

/// What can be assumed of the verification outcome of a byte-level
/// attempt: `verify_admissible` for the parsed body, and nothing where the
/// body did not parse.
pub open spec fn login_bytes_admissible(
    s: StoreV,
    pr: Result<LoginBodyV, Error>,
    vr: Option<bool>,
) -> bool {
    match pr {
        Ok(b) => verify_admissible(s, b, vr),
        Err(_) => true,
    }
}

/// `login_outcome`, extended to bodies that did not parse.
pub open spec fn login_outcome_bytes(
    s: StoreV,
    host: Seq<char>,
    pr: Result<LoginBodyV, Error>,
    fresh: FreshV,
    created: u64,
    vr: Option<bool>,
) -> (RespV, StoreV) {
    match pr {
        Err(e) => (error_resp(e), s),
        Ok(b) => login_outcome(s, host, b, fresh, created, vr),
    }
}

/// The login endpoint: takes the raw body bytes, draws fresh identifiers,
/// and runs the attempt. The body is exactly what `login_parse_of` makes of
/// the bytes, and the behaviour is `login_outcome_bytes` for some
/// well-formed fresh identifiers and the verification outcome that
/// occurred.
pub fn login(store: &mut AccountStore, host: &str, body: &[u8], created: u64) -> (r: HttpResponse)
    requires
        old(store).wf(),
    ensures
        final(store).wf(),
        exists|fresh: FreshV, vr: Option<bool>|
            #![trigger login_outcome_bytes(
                old(store)@,
                host@,
                login_parse_of(body@),
                fresh,
                created,
                vr,
            )]
            fresh_wf(fresh) && login_bytes_admissible(old(store)@, login_parse_of(body@), vr) && (
            r@,
            final(store)@,
            ) == login_outcome_bytes(
                old(store)@,
                host@,
                login_parse_of(body@),
                fresh,
                created,
                vr,
            ),
{
    let fresh = draw_fresh_ids();
    let ghost freshv = fresh@;
    match parse_login_request(body) {
        Err(e) => {
            let r = error_response(&e);
            proof {
                assert(login_bytes_admissible(old(store)@, login_parse_of(body@), None));
                assert((r@, store@) == login_outcome_bytes(
                    old(store)@,
                    host@,
                    login_parse_of(body@),
                    freshv,
                    created,
                    None,
                ));
            }
            r
        },
        Ok(b) => {
            let ghost bodyv = b@;
            let r = login_with_ids(store, host, b, fresh, created);
            proof {
                let vr = choose|vr: Option<bool>|
                    #[trigger] verify_admissible(old(store)@, bodyv, vr) && (r@, store@)
                        == login_outcome(old(store)@, host@, bodyv, freshv, created, vr);
                assert(login_bytes_admissible(old(store)@, login_parse_of(body@), vr));
                assert((r@, store@) == login_outcome_bytes(
                    old(store)@,
                    host@,
                    login_parse_of(body@),
                    freshv,
                    created,
                    vr,
                ));
            }
            r
        },
    }
}

/// A login with a correct password always succeeds: the response is 200
/// with the fresh token, and the token is bound to the requested device, or
/// to the fresh one when the request named none.
pub proof fn lemma_login_correct_password(
    s: StoreV,
    host: Seq<char>,
    b: LoginBodyV,
    fresh: FreshV,
    created: u64,
    vr: Option<bool>,
)
    ensures
        match screen_login_spec(b) {
            LoginStepV::Authenticate { user, password, device_id } => (verify_admissible(s, b, vr)
                && has_localpart(s, user) && bcrypt_matches(
                password,
                user_with_localpart(s, user).passhash,
            ) && !has_token_id(s, fresh.token_id)) ==> login_outcome(
                s,
                host,
                b,
                fresh,
                created,
                vr,
            ) == (
                success_resp(user, fresh.token_id, device_or(device_id, fresh.device_id), host),
                StoreV {
                    users: s.users,
                    tokens: s.tokens.push(
                        TokenV {
                            id: fresh.token_id,
                            user_id: user_with_localpart(s, user).id,
                            device_id: device_or(device_id, fresh.device_id),
                            created,
                        },
                    ),
                },
            ),
            LoginStepV::Reject(_) => true,
        },
        fresh_wf(fresh) ==> fresh.token_id.len() > 0,
{
}

/// A login for an account that does not exist and a login with a wrong
/// password are answered identically: both yield exactly the credentials
/// error, so neither the code nor the status reveals whether the account
/// exists. (The wrong-password side assumes the stored hash is well formed,
/// as every hash the registration pipeline stores is.)
pub proof fn lemma_credential_errors_uniform(
    s1: StoreV,
    host1: Seq<char>,
    b1: LoginBodyV,
    fresh1: FreshV,
    created1: u64,
    vr1: Option<bool>,
    s2: StoreV,
    host2: Seq<char>,
    b2: LoginBodyV,
    fresh2: FreshV,
    created2: u64,
    vr2: Option<bool>,
)
    ensures
        match screen_login_spec(b1) {
            LoginStepV::Authenticate { user, .. } => !has_localpart(s1, user) ==> login_outcome(
                s1,
                host1,
                b1,
                fresh1,
                created1,
                vr1,
            ).0 == error_resp(Error::InvalidCredentials),
            LoginStepV::Reject(_) => true,
        },
        match screen_login_spec(b2) {
            LoginStepV::Authenticate { user, password, .. } => ({
                let h = user_with_localpart(s2, user).passhash;
                (verify_admissible(s2, b2, vr2) && has_localpart(s2, user) && bcrypt_hash_wf(h)
                    && !bcrypt_matches(password, h)) ==> login_outcome(
                    s2,
                    host2,
                    b2,
                    fresh2,
                    created2,
                    vr2,
                ).0 == error_resp(Error::InvalidCredentials)
            }),
            LoginStepV::Reject(_) => true,
        },
{
}

} // verus!
