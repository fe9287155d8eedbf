//! The registration pipeline: the user-interactive-auth negotiation, the
//! localpart format check, account creation and token issuance.

use vstd::prelude::*;
use vstd::string::StrSliceExecFns;

use crate::outside;
use crate::store::AccountStore;
use crate::store::StoreError;
use crate::store::StoreV;
use crate::store::Token;
use crate::store::TokenV;
use crate::store::UserV;
use crate::store::has_localpart;
use crate::store::has_token_id;
use crate::store::has_user_id;
use crate::store::store_wf;
use crate::store::token_owner;
use crate::store::user_with_id;
use crate::store::user_with_localpart;
use crate::Error;
use crate::FieldValue;
use crate::FieldValueV;
use crate::HttpResponse;
use crate::ParseFault;
use crate::RespV;
use crate::bcrypt_hash_wf;
use crate::bcrypt_matches;
use crate::error_resp;
use crate::error_response;
use crate::json_quoted;
use crate::query_param_of;
use crate::parse_fault_of;
use crate::field_of;
use crate::success_resp;
use crate::success_response;

verus! {

/// A character the localpart pattern admits: lowercase letters, digits, and
/// `- . = _ /`.
pub open spec fn valid_username_char(c: char) -> bool {
    ('a' <= c && c <= 'z') || ('0' <= c && c <= '9') || c == '-' || c == '.' || c == '=' || c
        == '_' || c == '/'
}

/// The localpart pattern: one or more admitted characters.
pub open spec fn valid_username(s: Seq<char>) -> bool {
    s.len() > 0 && forall|i: int| 0 <= i < s.len() ==> valid_username_char(#[trigger] s[i])
}

/// Checks a desired localpart against the pattern.
#[verifier::loop_isolation(false)]
pub fn is_valid_username(s: &str) -> (r: bool)
    ensures
        r == valid_username(s@),
{
    let n = s.unicode_len();
    if n == 0 {
        return false;
    }
    let mut i: usize = 0;
    while i < n
        invariant
            0 <= i <= n,
            forall|k: int| 0 <= k < i ==> valid_username_char(#[trigger] s@[k]),
        decreases n - i,
    {
        let c = s.get_char(i);
        let ok = ('a' <= c && c <= 'z') || ('0' <= c && c <= '9') || c == '-' || c == '.' || c
            == '=' || c == '_' || c == '/';
        if !ok {
            return false;
        }
        i = i + 1;
    }
    true
}

/// A registration request body, reduced to the fields the pipeline reads.
/// `auth` records whether the body carried an `auth` object; `password` is
/// the submitted password, already stringified when it was not a JSON
/// string.
pub struct RegisterBody {
    pub auth: bool,
    pub username: Option<String>,
    pub password: String,
    pub device_id: Option<String>,
}

pub ghost struct RegisterBodyV {
    pub auth: bool,
    pub username: Option<Seq<char>>,
    pub password: Seq<char>,
    pub device_id: Option<Seq<char>>,
}

impl View for RegisterBody {
    type V = RegisterBodyV;

    open spec fn view(&self) -> RegisterBodyV {
        RegisterBodyV {
            auth: self.auth,
            username: match self.username {
                Some(u) => Some(u@),
                None => None,
            },
            password: self.password@,
            device_id: match self.device_id {
                Some(d) => Some(d@),
                None => None,
            },
        }
    }
}

/// The typed registration schema: how the four JSON fields become a
/// `RegisterBody`. The `auth` stage counts as satisfied only for an object;
/// a username or device of the wrong type is dropped; an absent or
/// non-string password is its JSON text, as submitted passwords are hashed
/// in their wire form.
pub open spec fn register_body_of_fields(
    auth: FieldValueV,
    username: FieldValueV,
    password: FieldValueV,
    device_id: FieldValueV,
) -> RegisterBodyV {
    RegisterBodyV {
        auth: auth is Obj,
        username: match username {
            FieldValueV::Str(s) => Some(s),
            _ => None,
        },
        password: match password {
            FieldValueV::Str(s) => s,
            FieldValueV::Absent => "null"@,
            FieldValueV::Null => "null"@,
            FieldValueV::Obj(t) => t,
            FieldValueV::Other(t) => t,
        },
        device_id: match device_id {
            FieldValueV::Str(s) => Some(s),
            _ => None,
        },
    }
}

/// Assembles a registration body from its extracted JSON fields.
pub fn register_body_from_fields(
    auth: FieldValue,
    username: FieldValue,
    password: FieldValue,
    device_id: FieldValue,
) -> (r: RegisterBody)
    ensures
        r@ == register_body_of_fields(auth@, username@, password@, device_id@),
{
    RegisterBody {
        auth: matches!(auth, FieldValue::Obj(_)),
        username: match username {
            FieldValue::Str(s) => Some(s),
            _ => None,
        },
        password: match password {
            FieldValue::Str(s) => s,
            FieldValue::Absent => "null".to_owned(),
            FieldValue::Null => "null".to_owned(),
            FieldValue::Obj(t) => t,
            FieldValue::Other(t) => t,
        },
        device_id: match device_id {
            FieldValue::Str(s) => Some(s),
            _ => None,
        },
    }
}

/// What a registration body's bytes mean: the parse fault when they are
/// not a JSON document, else the body the schema above builds from the four
/// fields of the document.
pub open spec fn register_parse_of(bytes: Seq<u8>) -> Result<RegisterBodyV, Error> {
    match parse_fault_of(bytes) {
        Some(ParseFault::NotJson) => Err(Error::NotJson),
        Some(ParseFault::BadJson) => Err(Error::BadJson),
        None => Ok(
            register_body_of_fields(
                field_of(bytes, "auth"@),
                field_of(bytes, "username"@),
                field_of(bytes, "password"@),
                field_of(bytes, "device_id"@),
            ),
        ),
    }
}

/// Parses a registration request body: exactly `register_parse_of` of the
/// bytes.
pub fn parse_register_request(bytes: &[u8]) -> (r: Result<RegisterBody, Error>)
    ensures
        match r {
            Ok(b) => register_parse_of(bytes@) == Ok::<RegisterBodyV, Error>(b@),
            Err(e) => register_parse_of(bytes@) == Err::<RegisterBodyV, Error>(e),
        },
{
    match outside::json_parse_fault(bytes) {
        Some(ParseFault::NotJson) => Err(Error::NotJson),
        Some(ParseFault::BadJson) => Err(Error::BadJson),
        None => {
            let auth = outside::json_field(bytes, "auth");
            let username = outside::json_field(bytes, "username");
            let password = outside::json_field(bytes, "password");
            let device_id = outside::json_field(bytes, "device_id");
            Ok(register_body_from_fields(auth, username, password, device_id))
        },
    }
}

pub open spec fn opt_view(o: Option<&String>) -> Option<Seq<char>> {
    match o {
        Some(s) => Some(s@),
        None => None,
    }
}

/// The username a request asks for: absent usernames count as empty, and
/// the empty string then fails the pattern check.
pub open spec fn effective_username(b: RegisterBodyV) -> Seq<char> {
    match b.username {
        Some(u) => u,
        None => Seq::empty(),
    }
}

/// What the negotiator decides before any storage or hashing work.
pub enum RegisterStep {
    Reject(Error),
    Challenge,
    CreateAccount { username: String, password: String, device_id: Option<String> },
}

pub ghost enum RegisterStepV {
    Reject(Error),
    Challenge,
    CreateAccount { username: Seq<char>, password: Seq<char>, device_id: Option<Seq<char>> },
}

impl View for RegisterStep {
    type V = RegisterStepV;

    open spec fn view(&self) -> RegisterStepV {
        match self {
            RegisterStep::Reject(e) => RegisterStepV::Reject(*e),
            RegisterStep::Challenge => RegisterStepV::Challenge,
            RegisterStep::CreateAccount { username, password, device_id } => {
                RegisterStepV::CreateAccount {
                    username: username@,
                    password: password@,
                    device_id: match device_id {
                        Some(d) => Some(d@),
                        None => None,
                    },
                }
            },
        }
    }
}

/// The user-interactive-auth negotiation and request validation: guest
/// registration is never permitted; an unknown kind is refused; a body
/// without an auth object gets the handshake challenge; a localpart that
/// fails the pattern is refused; everything else proceeds to account
/// creation.
pub open spec fn screen_register_spec(kind: Option<Seq<char>>, b: RegisterBodyV) -> RegisterStepV {
    let k = match kind {
        Some(k) => k,
        None => "user"@,
    };
    if k == "guest"@ {
        RegisterStepV::Reject(Error::GuestAccessForbidden)
    } else if k != "user"@ {
        RegisterStepV::Reject(Error::InvalidParameter)
    } else if !b.auth {
        RegisterStepV::Challenge
    } else if !valid_username(effective_username(b)) {
        RegisterStepV::Reject(Error::InvalidUsername)
    } else {
        RegisterStepV::CreateAccount {
            username: effective_username(b),
            password: b.password,
            device_id: b.device_id,
        }
    }
}

/// Decides what a registration request leads to, before any effect.
pub fn screen_register(kind: Option<&String>, body: &RegisterBody) -> (r: RegisterStep)
    ensures
        r@ == screen_register_spec(opt_view(kind), body@),
{
    let k: &str = match kind {
        Some(s) => s.as_str(),
        None => "user",
    };
    if outside::str_eq(k, "guest") {
        return RegisterStep::Reject(Error::GuestAccessForbidden);
    }
    if !outside::str_eq(k, "user") {
        return RegisterStep::Reject(Error::InvalidParameter);
    }
    if !body.auth {
        return RegisterStep::Challenge;
    }
    let username: String = match &body.username {
        Some(u) => u.clone(),
        None => {
            proof {
                reveal_strlit("");
                assert(""@ =~= Seq::<char>::empty());
            }
            "".to_owned()
        },
    };
    if !is_valid_username(username.as_str()) {
        return RegisterStep::Reject(Error::InvalidUsername);
    }
    RegisterStep::CreateAccount {
        username,
        password: body.password.clone(),
        device_id: match &body.device_id {
            Some(d) => Some(d.clone()),
            None => None,
        },
    }
}

/// The body of the 401 handshake response: the one available flow, the
/// dummy stage, and the session identifier scoped to this attempt.
pub open spec fn uia_body_json(session: Seq<char>) -> Seq<char> {
    "{\"flows\":[{\"stages\":[\"m.login.dummy\"]}],\"session\":"@ + json_quoted(session) + "}"@
}

pub open spec fn uia_challenge_resp(session: Seq<char>) -> RespV {
    RespV { status: 401u16, body: uia_body_json(session) }
}

/// Builds the 401 handshake response that lists the available
/// authentication flows. It is a protocol step, not an error.
pub fn uia_challenge_response(session: &str) -> (r: HttpResponse)
    ensures
        r@ == uia_challenge_resp(session@),
{
    let mut s: String = "{\"flows\":[{\"stages\":[\"m.login.dummy\"]}],\"session\":".to_owned();
    s.append(outside::json_quote(session).as_str());
    s.append("}");
    HttpResponse { status: 401, body: s }
}

/// Fresh identifiers drawn for one request: the new account's id, the
/// access token, the fallback device id, and the handshake session id.
pub struct FreshIds {
    pub user_id: String,
    pub token_id: String,
    pub device_id: String,
    pub session: String,
}

pub ghost struct FreshV {
    pub user_id: Seq<char>,
    pub token_id: Seq<char>,
    pub device_id: Seq<char>,
    pub session: Seq<char>,
}

impl View for FreshIds {
    type V = FreshV;

    open spec fn view(&self) -> FreshV {
        FreshV {
            user_id: self.user_id@,
            token_id: self.token_id@,
            device_id: self.device_id@,
            session: self.session@,
        }
    }
}

pub open spec fn fresh_wf(f: FreshV) -> bool {
    f.user_id.len() == 36 && f.token_id.len() == 36 && f.device_id.len() == 36 && f.session.len()
        == 36
}

/// Draws the four identifiers one request may need.
pub fn draw_fresh_ids() -> (r: FreshIds)
    ensures
        fresh_wf(r@),
{
    FreshIds {
        user_id: outside::fresh_uuid(),
        token_id: outside::fresh_uuid(),
        device_id: outside::fresh_uuid(),
        session: outside::fresh_uuid(),
    }
}

/// The device a token is bound to: the caller's, or the fresh one when the
/// caller named none.
pub open spec fn device_or(device_id: Option<Seq<char>>, fallback: Seq<char>) -> Seq<char> {
    match device_id {
        Some(d) => d,
        None => fallback,
    }
}

/// What can be assumed of a hashing outcome: when it succeeded, the hash is
/// a 60-character well-formed bcrypt hash that verifies against the
/// password.
pub open spec fn hash_admissible(password: Seq<char>, hr: Option<Seq<char>>) -> bool {
    hr matches Some(h) ==> h.len() == 60 && bcrypt_hash_wf(h) && bcrypt_matches(password, h)
}

/// The full effect of one registration attempt, given the parsed body, the
/// fresh identifiers and the hashing outcome: the response on the wire and
/// the store afterwards. Validation failures and the handshake leave the
/// store untouched; a duplicate localpart (or an identifier collision)
/// surfaces as the internal error; on success exactly one user row and one
/// token row are added.
pub open spec fn register_outcome(
    s: StoreV,
    host: Seq<char>,
    kind: Option<Seq<char>>,
    b: RegisterBodyV,
    fresh: FreshV,
    created: u64,
    hr: Option<Seq<char>>,
) -> (RespV, StoreV) {
    match screen_register_spec(kind, b) {
        RegisterStepV::Reject(e) => (error_resp(e), s),
        RegisterStepV::Challenge => (uia_challenge_resp(fresh.session), s),
        RegisterStepV::CreateAccount { username, password, device_id } => match hr {
            None => (error_resp(Error::Fault), s),
            Some(h) => if has_localpart(s, username) || has_user_id(s, fresh.user_id) {
                (error_resp(Error::Fault), s)
            } else {
                let s1 = StoreV {
                    users: s.users.push(
                        UserV { id: fresh.user_id, localpart: username, passhash: h },
                    ),
                    tokens: s.tokens,
                };
                let dev = device_or(device_id, fresh.device_id);
                if has_token_id(s1, fresh.token_id) {
                    (error_resp(Error::Fault), s1)
                } else {
                    (
                        success_resp(username, fresh.token_id, dev, host),
                        StoreV {
                            users: s1.users,
                            tokens: s1.tokens.push(
                                TokenV {
                                    id: fresh.token_id,
                                    user_id: fresh.user_id,
                                    device_id: dev,
                                    created,
                                },
                            ),
                        },
                    )
                }
            },
        },
    }
}

/// Runs one registration attempt against the store with the given fresh
/// identifiers: negotiation, validation, hashing, the user row, the token
/// row, and the final response, exactly as `register_outcome` lays it out
/// for the hashing outcome that occurred.
pub fn register_with_ids(
    store: &mut AccountStore,
    host: &str,
    kind: Option<&String>,
    body: &RegisterBody,
    fresh: FreshIds,
    created: u64,
) -> (r: HttpResponse)
    requires
        old(store).wf(),
    ensures
        final(store).wf(),
        exists|hr: Option<Seq<char>>|
            #[trigger] hash_admissible(body@.password, hr) && (r@, final(store)@)
                == register_outcome(
                old(store)@,
                host@,
                opt_view(kind),
                body@,
                fresh@,
                created,
                hr,
            ),
{
    match screen_register(kind, body) {
        RegisterStep::Reject(e) => {
            let r = error_response(&e);
            proof {
                assert(hash_admissible(body@.password, None));
            }
            r
        },
        RegisterStep::Challenge => {
            let r = uia_challenge_response(fresh.session.as_str());
            proof {
                assert(hash_admissible(body@.password, None));
            }
            r
        },
        RegisterStep::CreateAccount { username, password, device_id } => {
            match outside::hash_password(password.as_str()) {
                None => {
                    let r = error_response(&Error::Fault);
                    proof {
                        assert(hash_admissible(body@.password, None));
                    }
                    r
                },
                Some(h) => {
                    let ghost hr = Some(h@);
                    match store.insert_user(fresh.user_id.clone(), username.clone(), h) {
                        Err(_) => {
                            let r = error_response(&Error::Fault);
                            proof {
                                assert(hash_admissible(body@.password, hr));
                            }
                            r
                        },
                        Ok(()) => {
                            let dev: String = match device_id {
                                Some(d) => d,
                                None => fresh.device_id.clone(),
                            };
                            let tok = Token {
                                id: fresh.token_id.clone(),
                                user_id: fresh.user_id.clone(),
                                device_id: dev.clone(),
                                created,
                            };
                            proof {
                                assert(store@.users[store@.users.len() - 1].id == fresh.user_id@);
                                assert(has_user_id(store@, fresh.user_id@));
                            }
                            match store.insert_token(tok) {
                                Err(_) => {
                                    let r = error_response(&Error::Fault);
                                    proof {
                                        assert(hash_admissible(body@.password, hr));
                                    }
                                    r
                                },
                                Ok(()) => {
                                    let r = success_response(
                                        username.as_str(),
                                        fresh.token_id.as_str(),
                                        dev.as_str(),
                                        host,
                                    );
                                    proof {
                                        assert(hash_admissible(body@.password, hr));
                                    }
                                    r
                                },
                            }
                        },
                    }
                },
            }
        },
    }
}

/// What can be assumed of the hashing outcome of a byte-level attempt:
/// `hash_admissible` for the password the parsed body carries, and nothing
/// where the body did not parse.
pub open spec fn register_bytes_admissible(
    pr: Result<RegisterBodyV, Error>,
    hr: Option<Seq<char>>,
) -> bool {
    match pr {
        Ok(b) => hash_admissible(b.password, hr),
        Err(_) => true,
    }
}

/// `register_outcome`, extended to bodies that did not parse.
pub open spec fn register_outcome_bytes(
    s: StoreV,
    host: Seq<char>,
    kind: Option<Seq<char>>,
    pr: Result<RegisterBodyV, Error>,
    fresh: FreshV,
    created: u64,
    hr: Option<Seq<char>>,
) -> (RespV, StoreV) {
    match pr {
        Err(e) => (error_resp(e), s),
        Ok(b) => register_outcome(s, host, kind, b, fresh, created, hr),
    }
}

/// The registration endpoint: takes the raw query string and body bytes,
/// draws fresh identifiers, and runs the attempt. The `kind` selector is
/// exactly the query's `kind` parameter, the body is exactly what
/// `register_parse_of` makes of the bytes, and the behaviour is
/// `register_outcome_bytes` for some well-formed fresh identifiers and the
/// hashing outcome that occurred. The query must be ASCII, as an HTTP
/// request target is: the query-string parser aborts on a query whose
/// segments start inside a multi-byte character.
pub fn register(
    store: &mut AccountStore,
    host: &str,
    query: &str,
    body: &[u8],
    created: u64,
) -> (r: HttpResponse)
    requires
        old(store).wf(),
        query.is_ascii(),
    ensures
        final(store).wf(),
        exists|fresh: FreshV, hr: Option<Seq<char>>|
            #![trigger register_outcome_bytes(
                old(store)@,
                host@,
                query_param_of(query@, "kind"@),
                register_parse_of(body@),
                fresh,
                created,
                hr,
            )]
            fresh_wf(fresh) && register_bytes_admissible(register_parse_of(body@), hr) && (
            r@,
            final(store)@,
            ) == register_outcome_bytes(
                old(store)@,
                host@,
                query_param_of(query@, "kind"@),
                register_parse_of(body@),
                fresh,
                created,
                hr,
            ),
{
    let fresh = draw_fresh_ids();
    let ghost freshv = fresh@;
    let kind: Option<String> = outside::query_param(query, "kind");
    let kind_ref: Option<&String> = match &kind {
        Some(s) => Some(s),
        None => None,
    };
    match parse_register_request(body) {
        Err(e) => {
            let r = error_response(&e);
            proof {
                assert(register_bytes_admissible(register_parse_of(body@), None));
                assert((r@, store@) == register_outcome_bytes(
                    old(store)@,
                    host@,
                    query_param_of(query@, "kind"@),
                    register_parse_of(body@),
                    freshv,
                    created,
                    None,
                ));
            }
            r
        },
        Ok(b) => {
            let r = register_with_ids(store, host, kind_ref, &b, fresh, created);
            proof {
                let hr = choose|hr: Option<Seq<char>>|
                    #[trigger] hash_admissible(b@.password, hr) && (r@, store@)
                        == register_outcome(
                        old(store)@,
                        host@,
                        opt_view(kind_ref),
                        b@,
                        freshv,
                        created,
                        hr,
                    );
                assert(register_bytes_admissible(register_parse_of(body@), hr));
                assert(opt_view(kind_ref) == query_param_of(query@, "kind"@));
                assert((r@, store@) == register_outcome_bytes(
                    old(store)@,
                    host@,
                    query_param_of(query@, "kind"@),
                    register_parse_of(body@),
                    freshv,
                    created,
                    hr,
                ));
            }
            r
        },
    }
}

/// The token issuer: mints a fresh opaque token for the user, records it
/// with the device and creation time, and returns the bearer value. On
/// success the token resolves back to the issuing user.
pub fn create_access_token(
    store: &mut AccountStore,
    user_id: &str,
    device_id: &str,
    created: u64,
) -> (r: Result<String, StoreError>)
    requires
        old(store).wf(),
    ensures
        final(store).wf(),
        r matches Ok(t) ==> t@.len() == 36 && has_user_id(old(store)@, user_id@) && !has_token_id(
            old(store)@,
            t@,
        ) && final(store)@.users == old(store)@.users && final(store)@.tokens == old(
            store,
        )@.tokens.push(TokenV { id: t@, user_id: user_id@, device_id: device_id@, created })
            && token_owner(final(store)@, t@) == Some(user_with_id(old(store)@, user_id@)),
        r matches Err(e) ==> final(store)@ == old(store)@ && ((!has_user_id(
            old(store)@,
            user_id@,
        ) && e == StoreError::ForeignKeyViolation) || e == StoreError::UniqueViolation),
{
    let token = outside::fresh_uuid();
    let tok = Token {
        id: token.clone(),
        user_id: user_id.to_owned(),
        device_id: device_id.to_owned(),
        created,
    };
    match store.insert_token(tok) {
        Ok(()) => {
            proof {
                let s2 = store@;
                let oldv = old(store)@;
                assert(s2.tokens[s2.tokens.len() - 1].id == token@);
                assert(has_token_id(s2, token@));
                let c = choose|i: int|
                    0 <= i < s2.tokens.len() && #[trigger] s2.tokens[i].id == token@;
                assert(c == s2.tokens.len() - 1);
                assert(s2.tokens[c].user_id == user_id@);
                let w = choose|i: int|
                    0 <= i < oldv.users.len() && #[trigger] oldv.users[i].id == user_id@;
                assert(s2.users[w].id == user_id@);
                assert(has_user_id(s2, user_id@));
                let c2 = choose|i: int|
                    0 <= i < s2.users.len() && #[trigger] s2.users[i].id == user_id@;
                assert(oldv.users[c2].id == user_id@);
                assert(c2 == w);
            }
            Ok(token)
        },
        Err(e) => Err(e),
    }
}

/// No account is ever created under a localpart that fails the pattern:
/// with the `user` kind selected (or defaulted) and the auth stage
/// satisfied, a registration whose desired localpart does not match is
/// answered with exactly the invalid-username error, and the store is
/// untouched.
pub proof fn lemma_invalid_username_rejected(
    s: StoreV,
    host: Seq<char>,
    kind: Option<Seq<char>>,
    b: RegisterBodyV,
    fresh: FreshV,
    created: u64,
    hr: Option<Seq<char>>,
)
    ensures
        (match kind {
            Some(k) => k == "user"@,
            None => true,
        }) && b.auth && !valid_username(effective_username(b)) ==> register_outcome(
            s,
            host,
            kind,
            b,
            fresh,
            created,
            hr,
        ) == (error_resp(Error::InvalidUsername), s),
{
    reveal_strlit("user");
    reveal_strlit("guest");
    assert("user"@.len() == 4);
    assert("guest"@.len() == 5);
    assert("user"@ != "guest"@);
}

/// Every user row a registration can leave in the store was either already
/// there or carries a localpart that matches the pattern.
pub proof fn lemma_register_creates_only_valid_users(
    s: StoreV,
    host: Seq<char>,
    kind: Option<Seq<char>>,
    b: RegisterBodyV,
    fresh: FreshV,
    created: u64,
    hr: Option<Seq<char>>,
)
    ensures
        ({
            let s1 = register_outcome(s, host, kind, b, fresh, created, hr).1;
            forall|i: int|
                0 <= i < s1.users.len() ==> s.users.contains(#[trigger] s1.users[i])
                    || valid_username(s1.users[i].localpart)
        }),
{
    let s1 = register_outcome(s, host, kind, b, fresh, created, hr).1;
    assert forall|i: int|
        0 <= i < s1.users.len() implies s.users.contains(#[trigger] s1.users[i])
        || valid_username(s1.users[i].localpart) by {
        if 0 <= i < s.users.len() && s1.users[i] == s.users[i] {
            assert(s.users.contains(s.users[i]));
        }
    }
}

/// Guest registration is never permitted: whatever the body holds, the
/// response is exactly the guest-access error, and the store is untouched.
pub proof fn lemma_guest_forbidden(
    s: StoreV,
    host: Seq<char>,
    b: RegisterBodyV,
    fresh: FreshV,
    created: u64,
    hr: Option<Seq<char>>,
)
    ensures
        register_outcome(s, host, Some("guest"@), b, fresh, created, hr) == (
            error_resp(Error::GuestAccessForbidden),
            s,
        ),
{
}

/// A registration without the auth stage is answered with the 401
/// handshake: the one dummy flow and the session drawn for the attempt,
/// which is never empty; the store is untouched.
pub proof fn lemma_no_auth_gets_challenge(
    s: StoreV,
    host: Seq<char>,
    kind: Option<Seq<char>>,
    b: RegisterBodyV,
    fresh: FreshV,
    created: u64,
    hr: Option<Seq<char>>,
)
    ensures
        (match kind {
            Some(k) => k == "user"@,
            None => true,
        }) && !b.auth ==> register_outcome(s, host, kind, b, fresh, created, hr) == (
            uia_challenge_resp(fresh.session),
            s,
        ),
        fresh_wf(fresh) ==> fresh.session.len() > 0,
        uia_challenge_resp(fresh.session).status == 401,
{
    reveal_strlit("user");
    reveal_strlit("guest");
    assert("user"@.len() == 4);
    assert("guest"@.len() == 5);
    assert("user"@ != "guest"@);
}

/// A localpart that is already taken never registers again: the attempt is
/// not a silent success. With the `user` kind and the auth stage satisfied
/// it surfaces as the internal error (the uniqueness violation is a storage
/// fault), and in every case the status is not 200.
pub proof fn lemma_duplicate_localpart_fails(
    s: StoreV,
    host: Seq<char>,
    kind: Option<Seq<char>>,
    b: RegisterBodyV,
    fresh: FreshV,
    created: u64,
    hr: Option<Seq<char>>,
)
    ensures
        has_localpart(s, effective_username(b)) ==> register_outcome(
            s,
            host,
            kind,
            b,
            fresh,
            created,
            hr,
        ).0.status != 200,
        (match kind {
            Some(k) => k == "user"@,
            None => true,
        }) && b.auth && valid_username(effective_username(b)) && has_localpart(
            s,
            effective_username(b),
        ) ==> register_outcome(s, host, kind, b, fresh, created, hr) == (
            error_resp(Error::Fault),
            s,
        ),
{
    reveal_strlit("user");
    reveal_strlit("guest");
    assert("user"@.len() == 4);
    assert("guest"@.len() == 5);
    assert("user"@ != "guest"@);
}

/// Registering the same localpart twice cannot succeed twice: once a
/// registration has answered 200, repeating it against the store it left
/// behind is answered with the internal error and changes nothing.
pub proof fn lemma_register_twice(
    s: StoreV,
    host: Seq<char>,
    kind: Option<Seq<char>>,
    b: RegisterBodyV,
    fresh1: FreshV,
    fresh2: FreshV,
    created1: u64,
    created2: u64,
    hr1: Option<Seq<char>>,
    hr2: Option<Seq<char>>,
)
    ensures
        ({
            let (r1, s1) = register_outcome(s, host, kind, b, fresh1, created1, hr1);
            r1.status == 200 ==> register_outcome(s1, host, kind, b, fresh2, created2, hr2) == (
                error_resp(Error::Fault),
                s1,
            )
        }),
{
    let (r1, s1) = register_outcome(s, host, kind, b, fresh1, created1, hr1);
    if r1.status == 200 {
        match screen_register_spec(kind, b) {
            RegisterStepV::CreateAccount { username, password, device_id } => {
                assert(s1.users[s.users.len() as int].localpart == username);
                assert(has_localpart(s1, username));
            },
            _ => {
                assert(false);
            },
        }
    }
}

/// A token issued by a successful registration authorizes a lookup of the
/// issuing user: resolving the new token in the store the registration left
/// behind yields exactly the account that was created.
pub proof fn lemma_registration_token_round_trip(
    s: StoreV,
    host: Seq<char>,
    kind: Option<Seq<char>>,
    b: RegisterBodyV,
    fresh: FreshV,
    created: u64,
    hr: Option<Seq<char>>,
)
    requires
        store_wf(s),
    ensures
        ({
            let (r1, s1) = register_outcome(s, host, kind, b, fresh, created, hr);
            r1.status == 200 ==> (token_owner(s1, fresh.token_id) matches Some(u) && u.id
                == fresh.user_id && u.localpart == effective_username(b))
        }),
{
    let (r1, s1) = register_outcome(s, host, kind, b, fresh, created, hr);
    if r1.status == 200 {
        match screen_register_spec(kind, b) {
            RegisterStepV::CreateAccount { username, password, device_id } => {
                let h = hr->0;
                let newu = UserV { id: fresh.user_id, localpart: username, passhash: h };
                let smid = StoreV { users: s.users.push(newu), tokens: s.tokens };
                let dev = device_or(device_id, fresh.device_id);
                let newt = TokenV {
                    id: fresh.token_id,
                    user_id: fresh.user_id,
                    device_id: dev,
                    created,
                };
                crate::store::lemma_push_user_wf(s, newu);
                assert(smid.users[s.users.len() as int].id == fresh.user_id);
                assert(has_user_id(smid, fresh.user_id));
                crate::store::lemma_push_token_wf(smid, newt);
                assert(s1 == (StoreV { users: smid.users, tokens: smid.tokens.push(newt) }));
                assert(store_wf(s1));
                assert(s1.tokens[smid.tokens.len() as int].id == fresh.token_id);
                assert(has_token_id(s1, fresh.token_id));
                let c = choose|i: int|
                    0 <= i < s1.tokens.len() && #[trigger] s1.tokens[i].id == fresh.token_id;
                assert(c == smid.tokens.len() as int);
                assert(s1.users[s.users.len() as int].id == fresh.user_id);
                assert(has_user_id(s1, fresh.user_id));
                let c2 = choose|i: int|
                    0 <= i < s1.users.len() && #[trigger] s1.users[i].id == fresh.user_id;
                assert(c2 == s.users.len() as int);
            },
            _ => {
                assert(false);
            },
        }
    }
}

/// A successful registration leaves credentials that a later login can
/// check: the new account is found under its localpart, and its stored
/// hash is well formed and verifies against the submitted password.
pub proof fn lemma_register_enables_login(
    s: StoreV,
    host: Seq<char>,
    kind: Option<Seq<char>>,
    b: RegisterBodyV,
    fresh: FreshV,
    created: u64,
    hr: Option<Seq<char>>,
)
    requires
        store_wf(s),
    ensures
        hash_admissible(b.password, hr) ==> ({
            let (r1, s1) = register_outcome(s, host, kind, b, fresh, created, hr);
            r1.status == 200 ==> {
                let stored = user_with_localpart(s1, effective_username(b));
                &&& has_localpart(s1, effective_username(b))
                &&& bcrypt_matches(b.password, stored.passhash)
                &&& bcrypt_hash_wf(stored.passhash)
            }
        }),
{
    let (r1, s1) = register_outcome(s, host, kind, b, fresh, created, hr);
    if hash_admissible(b.password, hr) && r1.status == 200 {
        match screen_register_spec(kind, b) {
            RegisterStepV::CreateAccount { username, password, device_id } => {
                let h = hr->0;
                let newu = UserV { id: fresh.user_id, localpart: username, passhash: h };
                let smid = StoreV { users: s.users.push(newu), tokens: s.tokens };
                crate::store::lemma_push_user_wf(s, newu);
                assert(s1.users == smid.users);
                assert(s1.users[s.users.len() as int].localpart == username);
                assert(has_localpart(s1, username));
                let c = choose|i: int|
                    0 <= i < s1.users.len() && #[trigger] s1.users[i].localpart == username;
                assert(forall|i: int, j: int|
                    0 <= i < smid.users.len() && 0 <= j < smid.users.len() && i != j
                        ==> #[trigger] smid.users[i].localpart != #[trigger] smid.users[j].localpart);
                assert(c == s.users.len() as int);
                assert(user_with_localpart(s1, username).passhash == h);
            },
            _ => {
                assert(false);
            },
        }
    }
}

} // verus!
