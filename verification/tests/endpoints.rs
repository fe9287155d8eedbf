//! End-to-end tests of the registration and login endpoints against the
//! in-memory account store, with the real outside crates linked.

use lomatia::server_administration;
use lomatia::session_management::login;
use lomatia::store::AccountStore;
use lomatia::user_data::create_access_token;
use lomatia::user_data::is_valid_username;
use lomatia::user_data::register;
use lomatia::error_response;
use lomatia::route;
use lomatia::tack_on;
use lomatia::Error;
use lomatia::ErrorBody;
use lomatia::HttpResponse;
use lomatia::Route;

const HOST: &str = "127.0.0.1:8448";

fn body_json(r: &HttpResponse) -> serde_json::Value {
    serde_json::from_str(&r.body).expect("response body is JSON")
}

fn errcode(r: &HttpResponse) -> String {
    body_json(r)["errcode"].as_str().expect("errcode is a string").to_owned()
}

fn register_alice(store: &mut AccountStore) -> HttpResponse {
    register(
        store,
        HOST,
        "kind=user",
        br#"{"username":"alice","password":"hunter2","auth":{}}"#,
        0,
    )
}

#[test]
fn versions() {
    let r = server_administration::versions();
    assert_eq!(r.status, 200);
    assert_eq!(r.body, r#"{"versions":["r0.3.0"]}"#);
}

#[test]
fn register_alice_succeeds() {
    let mut store = AccountStore::new();
    let r = register_alice(&mut store);
    assert_eq!(r.status, 200);
    let v = body_json(&r);
    assert_eq!(v["user_id"].as_str(), Some("alice"));
    let token = v["access_token"].as_str().expect("token is a string");
    assert!(!token.is_empty());
    let device = v["device_id"].as_str().expect("device is a string");
    assert_eq!(device.len(), 36);
    assert_eq!(v["home_server"].as_str(), Some(HOST));
    assert_eq!(store.user_count(), 1);
    assert_eq!(store.token_count(), 1);
}

#[test]
fn register_same_localpart_twice_fails() {
    let mut store = AccountStore::new();
    let r1 = register_alice(&mut store);
    assert_eq!(r1.status, 200);
    let r2 = register_alice(&mut store);
    assert_ne!(r2.status, 200);
    assert_eq!(r2.status, 500);
    assert_eq!(errcode(&r2), "CHAT_LOMATIA_INTERNAL_ERROR");
    assert_eq!(store.user_count(), 1);
    assert_eq!(store.token_count(), 1);
}

#[test]
fn register_guest_forbidden() {
    let mut store = AccountStore::new();
    let r = register(&mut store, HOST, "kind=guest", br#"{}"#, 0);
    assert_eq!(r.status, 400);
    assert_eq!(errcode(&r), "M_GUEST_ACCESS_FORBIDDEN");
    assert_eq!(store.user_count(), 0);
}


#[test]
fn register_guest_forbidden_even_without_auth() {
    let mut store = AccountStore::new();
    let r = register(&mut store, HOST, "kind=guest", br#"{"username":"alice"}"#, 0);
    assert_eq!(r.status, 400);
    assert_eq!(errcode(&r), "M_GUEST_ACCESS_FORBIDDEN");
}

#[test]
fn register_guest_from_percent_encoded_query() {
    let mut store = AccountStore::new();
    let r = register(&mut store, HOST, "foo=1&kind=gu%65st", br#"{"auth":{}}"#, 0);
    assert_eq!(r.status, 400);
    assert_eq!(errcode(&r), "M_GUEST_ACCESS_FORBIDDEN");
}

#[test]
fn register_unknown_kind_rejected() {
    let mut store = AccountStore::new();
    let r = register(&mut store, HOST, "kind=banana", br#"{"auth":{}}"#, 0);
    assert_eq!(r.status, 400);
    assert_eq!(errcode(&r), "CHAT_LOMATIA_INVALID_PARAM");
    assert_eq!(store.user_count(), 0);
}

#[test]
fn register_without_auth_gets_challenge() {
    let mut store = AccountStore::new();
    let r = register(
        &mut store,
        HOST,
        "kind=user",
        br#"{"username":"alice","password":"hunter2"}"#,
        0,
    );
    assert_eq!(r.status, 401);
    let v = body_json(&r);
    assert_eq!(v["flows"][0]["stages"][0].as_str(), Some("m.login.dummy"));
    let session = v["session"].as_str().expect("session is a string");
    assert!(!session.is_empty());
    assert_eq!(store.user_count(), 0);
    assert_eq!(store.token_count(), 0);
}

#[test]
fn register_auth_must_be_an_object() {
    let mut store = AccountStore::new();
    let r = register(
        &mut store,
        HOST,
        "",
        br#"{"username":"alice","password":"x","auth":"yes"}"#,
        0,
    );
    assert_eq!(r.status, 401);
    assert_eq!(store.user_count(), 0);
}

#[test]
fn register_invalid_username_rejected() {
    let mut store = AccountStore::new();
    for body in [
        &br#"{"username":"Alice","password":"x","auth":{}}"#[..],
        &br#"{"username":"al ice","password":"x","auth":{}}"#[..],
        &br#"{"username":"","password":"x","auth":{}}"#[..],
        &br#"{"password":"x","auth":{}}"#[..],
        "{\"username\":\"\u{e5}lice\",\"password\":\"x\",\"auth\":{}}".as_bytes(),
    ] {
        let r = register(&mut store, HOST, "kind=user", body, 0);
        assert_eq!(r.status, 400);
        assert_eq!(errcode(&r), "M_INVALID_USERNAME");
    }
    assert_eq!(store.user_count(), 0);
}

#[test]
fn register_accepts_full_character_class() {
    let mut store = AccountStore::new();
    let r = register(
        &mut store,
        HOST,
        "kind=user",
        br#"{"username":"alice/bob-x.y=z_09","password":"x","auth":{}}"#,
        0,
    );
    assert_eq!(r.status, 200);
    assert_eq!(body_json(&r)["user_id"].as_str(), Some("alice/bob-x.y=z_09"));
}

#[test]
fn register_body_not_json() {
    let mut store = AccountStore::new();
    let r = register(&mut store, HOST, "kind=user", b"not json at all", 0);
    assert_eq!(r.status, 400);
    assert_eq!(errcode(&r), "M_NOT_JSON");
}

#[test]
fn register_keeps_requested_device_id_with_escaping() {
    let mut store = AccountStore::new();
    let r = register(
        &mut store,
        HOST,
        "kind=user",
        br#"{"username":"alice","password":"x","auth":{},"device_id":"my \"laptop\"\\home"}"#,
        0,
    );
    assert_eq!(r.status, 200);
    let v = body_json(&r);
    assert_eq!(v["device_id"].as_str(), Some("my \"laptop\"\\home"));
}

#[test]
fn login_correct_password_succeeds() {
    let mut store = AccountStore::new();
    assert_eq!(register_alice(&mut store).status, 200);
    let r = login(
        &mut store,
        HOST,
        br#"{"type":"m.login.password","user":"alice","password":"hunter2","device_id":"laptop"}"#,
        7,
    );
    assert_eq!(r.status, 200);
    let v = body_json(&r);
    assert_eq!(v["user_id"].as_str(), Some("alice"));
    assert!(!v["access_token"].as_str().expect("token").is_empty());
    assert_eq!(v["device_id"].as_str(), Some("laptop"));
    assert_eq!(v["home_server"].as_str(), Some(HOST));
    assert_eq!(store.token_count(), 2);
}

#[test]
fn login_generates_device_id_when_omitted() {
    let mut store = AccountStore::new();
    assert_eq!(register_alice(&mut store).status, 200);
    let r = login(
        &mut store,
        HOST,
        br#"{"type":"m.login.password","user":"alice","password":"hunter2"}"#,
        7,
    );
    assert_eq!(r.status, 200);
    assert_eq!(body_json(&r)["device_id"].as_str().expect("device").len(), 36);
}

#[test]
fn login_wrong_password_rejected() {
    let mut store = AccountStore::new();
    assert_eq!(register_alice(&mut store).status, 200);
    let r = login(
        &mut store,
        HOST,
        br#"{"type":"m.login.password","user":"alice","password":"wrong"}"#,
        7,
    );
    assert_eq!(r.status, 400);
    assert_eq!(errcode(&r), "M_FORBIDDEN");
    assert_eq!(store.token_count(), 1);
}

#[test]
fn login_unknown_user_same_error_as_wrong_password() {
    let mut store = AccountStore::new();
    assert_eq!(register_alice(&mut store).status, 200);
    let wrong_password = login(
        &mut store,
        HOST,
        br#"{"type":"m.login.password","user":"alice","password":"wrong"}"#,
        7,
    );
    let unknown_user = login(
        &mut store,
        HOST,
        br#"{"type":"m.login.password","user":"bob","password":"wrong"}"#,
        7,
    );
    assert_eq!(unknown_user.status, wrong_password.status);
    assert_eq!(unknown_user.body, wrong_password.body);
    assert_eq!(errcode(&unknown_user), "M_FORBIDDEN");
}

#[test]
fn login_shape_errors() {
    let mut store = AccountStore::new();
    let cases: [(&[u8], u16, &str); 6] = [
        (br#"{"type":"m.login.token","token":"x"}"#, 400, "M_UNKNOWN"),
        (
            br#"{"type":"m.login.password","medium":"email","address":"a@b","password":"x"}"#,
            400,
            "M_UNKNOWN",
        ),
        (br#"{"type":"m.login.password","password":"x"}"#, 400, "M_UNKNOWN"),
        (br#"{"type":"m.login.password","user":"alice"}"#, 400, "M_UNKNOWN"),
        (br#"5"#, 400, "M_BAD_JSON"),
        (br#"{"type":"m.login.password","user":5,"password":"x"}"#, 400, "M_BAD_JSON"),
    ];
    for (body, status, code) in cases {
        let r = login(&mut store, HOST, body, 0);
        assert_eq!(r.status, status);
        assert_eq!(errcode(&r), code);
    }
}

#[test]
fn login_body_not_json() {
    let mut store = AccountStore::new();
    let r = login(&mut store, HOST, b"{", 0);
    assert_eq!(r.status, 400);
    assert_eq!(errcode(&r), "M_NOT_JSON");
}

#[test]
fn login_missing_parameter_messages() {
    let mut store = AccountStore::new();
    let missing_user = login(&mut store, HOST, br#"{"type":"m.login.password","password":"x"}"#, 0);
    assert_eq!(
        body_json(&missing_user)["error"].as_str(),
        Some("Missing user parameter")
    );
    let missing_password = login(&mut store, HOST, br#"{"type":"m.login.password","user":"a"}"#, 0);
    assert_eq!(
        body_json(&missing_password)["error"].as_str(),
        Some("Missing password parameter")
    );
}

#[test]
fn numeric_password_is_stringified() {
    let mut store = AccountStore::new();
    let r = register(
        &mut store,
        HOST,
        "kind=user",
        br#"{"username":"alice","password":42,"auth":{}}"#,
        0,
    );
    assert_eq!(r.status, 200);
    let r = login(
        &mut store,
        HOST,
        br#"{"type":"m.login.password","user":"alice","password":"42"}"#,
        0,
    );
    assert_eq!(r.status, 200);
}

#[test]
fn token_round_trip_authorizes_issuing_user() {
    let mut store = AccountStore::new();
    let r = register_alice(&mut store);
    assert_eq!(r.status, 200);
    let v = body_json(&r);
    let token = v["access_token"].as_str().expect("token").to_owned();
    let owner = store.find_user_by_token(&token).expect("token resolves");
    assert_eq!(owner.localpart, "alice");
    assert!(store.find_user_by_token("no-such-token").is_none());
}

#[test]
fn issued_token_resolves_to_user() {
    let mut store = AccountStore::new();
    assert_eq!(register_alice(&mut store).status, 200);
    let user_id = store
        .find_user_by_localpart("alice")
        .expect("alice exists")
        .id
        .clone();
    let token = create_access_token(&mut store, &user_id, "tablet", 99).expect("issues");
    assert_eq!(token.len(), 36);
    let owner = store.find_user_by_token(&token).expect("token resolves");
    assert_eq!(owner.id, user_id);
    assert_eq!(store.token_count(), 2);
}

#[test]
fn create_access_token_requires_existing_user() {
    let mut store = AccountStore::new();
    assert!(create_access_token(&mut store, "nobody", "tablet", 0).is_err());
    assert_eq!(store.token_count(), 0);
}

#[test]
fn tokens_differ_between_logins() {
    let mut store = AccountStore::new();
    let r1 = register_alice(&mut store);
    let t1 = body_json(&r1)["access_token"].as_str().expect("token").to_owned();
    let r2 = login(
        &mut store,
        HOST,
        br#"{"type":"m.login.password","user":"alice","password":"hunter2"}"#,
        0,
    );
    let t2 = body_json(&r2)["access_token"].as_str().expect("token").to_owned();
    assert_ne!(t1, t2);
}

#[test]
fn home_server_is_escaped() {
    let mut store = AccountStore::new();
    let r = register(
        &mut store,
        "host\"with quote",
        "kind=user",
        br#"{"username":"alice","password":"x","auth":{}}"#,
        0,
    );
    assert_eq!(r.status, 200);
    assert_eq!(body_json(&r)["home_server"].as_str(), Some("host\"with quote"));
}

#[test]
fn routing_table() {
    assert_eq!(route("GET", "/_matrix/client/versions"), Route::Versions);
    assert_eq!(route("POST", "/_matrix/client/r0/register"), Route::Register);
    assert_eq!(route("POST", "/_matrix/client/r0/login"), Route::Login);
    assert_eq!(route("GET", "/_matrix/client/r0/register"), Route::Unrecognized);
    assert_eq!(route("POST", "/somewhere/else"), Route::Unrecognized);
    let r = error_response(&Error::Unrecognized);
    assert_eq!(r.status, 400);
    assert_eq!(errcode(&r), "M_UNRECOGNIZED");
}

#[test]
fn error_bodies_and_statuses() {
    let internal = error_response(&Error::Fault);
    assert_eq!(internal.status, 500);
    assert_eq!(errcode(&internal), "CHAT_LOMATIA_INTERNAL_ERROR");
    assert_eq!(
        internal.body,
        r#"{"errcode":"CHAT_LOMATIA_INTERNAL_ERROR","error":"Internal server error"}"#
    );
    let invalid = error_response(&Error::InvalidUsername);
    assert_eq!(invalid.status, 400);
    assert_eq!(errcode(&invalid), "M_INVALID_USERNAME");
}

#[test]
fn error_body_to_response_picks_status_by_code() {
    let internal = ErrorBody::new_static("CHAT_LOMATIA_INTERNAL_ERROR", "boom").to_response();
    assert_eq!(internal.status, 500);
    let client = ErrorBody::new_static("M_SOMETHING", "nope").to_response();
    assert_eq!(client.status, 400);
    assert_eq!(client.body, r#"{"errcode":"M_SOMETHING","error":"nope"}"#);
}

#[test]
fn username_pattern() {
    assert!(is_valid_username("alice"));
    assert!(is_valid_username("a-b.c=d_e/f0123456789"));
    assert!(!is_valid_username(""));
    assert!(!is_valid_username("Alice"));
    assert!(!is_valid_username("alice!"));
    assert!(!is_valid_username("al ice"));
    assert!(!is_valid_username("\u{e5}lice"));
}

#[test]
fn tack_on_keeps_both_arms() {
    let ok: Result<u32, &str> = Ok(5);
    assert_eq!(tack_on(ok, "extra"), Ok((5, "extra")));
    let err: Result<u32, &str> = Err("bad");
    assert_eq!(tack_on(err, "extra"), Err(("bad", "extra")));
}
