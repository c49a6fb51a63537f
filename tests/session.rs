use google_workspace_apis::auth::{
    exchange_code_request, get_oauth_url, refresh_request, token_from_exchange_reply,
    token_from_refresh_reply, AccessToken, ClientCredentials, Scope, TokenFields, TokenReply,
};
use google_workspace_apis::client::{GoogleClient, Next, Reply, Response};
use google_workspace_apis::error::ApiError;
use google_workspace_apis::request::Method;

fn credentials() -> ClientCredentials {
    ClientCredentials {
        client_id: "id-1".to_string(),
        client_secret: "secret-1".to_string(),
        redirect_uri: "https://app.example/cb".to_string(),
        refresh_token: "refresh-old".to_string(),
    }
}

fn token(expires_in: i64) -> AccessToken {
    AccessToken {
        token_type: "Bearer".to_string(),
        access_token: "access-old".to_string(),
        expires_in,
        refresh_token: "refresh-old".to_string(),
        refresh_token_expires_in: 0,
        scope: "s".to_string(),
    }
}

fn fields(refresh_token: Option<&str>, expires_in: Option<i64>) -> TokenFields {
    TokenFields {
        token_type: Some("Bearer".to_string()),
        access_token: Some("access-new".to_string()),
        expires_in,
        refresh_token: refresh_token.map(|s| s.to_string()),
        refresh_token_expires_in: Some(604_800),
        scope: Some("https://www.googleapis.com/auth/calendar".to_string()),
    }
}

fn ok_reply(f: TokenFields) -> TokenReply {
    TokenReply::Answered { status: 200, body: Some("{}".to_string()), fields: Some(f) }
}

fn pairs(form: &[(String, String)]) -> Vec<(&str, &str)> {
    form.iter().map(|(k, v)| (k.as_str(), v.as_str())).collect()
}

#[test]
fn oauth_url_joins_scopes_with_spaces() {
    let url = get_oauth_url(
        "cid",
        "https://app.example/cb",
        vec![Scope::CalendarReadOnly, Scope::CalendarEvents, Scope::TasksReadOnly],
    );
    assert_eq!(
        url,
        "https://accounts.google.com/o/oauth2/auth?client_id=cid&redirect_uri=https://app.example/cb\
         &response_type=code&scope=https://www.googleapis.com/auth/calendar.readonly \
         https://www.googleapis.com/auth/calendar.events https://www.googleapis.com/auth/tasks.readonly\
         &access_type=offline&prompt=consent"
    );
}

#[test]
fn oauth_url_without_scopes() {
    let url = get_oauth_url("c", "r", vec![]);
    assert_eq!(
        url,
        "https://accounts.google.com/o/oauth2/auth?client_id=c&redirect_uri=r&response_type=code\
         &scope=&access_type=offline&prompt=consent"
    );
}

#[test]
fn exchange_form_fields() {
    let r = exchange_code_request("the-code", "sec", "cid", "https://app.example/cb");
    assert_eq!(r.url, "https://oauth2.googleapis.com/token");
    assert_eq!(
        pairs(&r.form),
        vec![
            ("code", "the-code"),
            ("client_id", "cid"),
            ("client_secret", "sec"),
            ("redirect_uri", "https://app.example/cb"),
            ("grant_type", "authorization_code"),
        ]
    );
}

#[test]
fn refresh_form_fields() {
    let r = refresh_request(&credentials());
    assert_eq!(r.url, "https://oauth2.googleapis.com/token");
    assert_eq!(
        pairs(&r.form),
        vec![
            ("client_id", "id-1"),
            ("client_secret", "secret-1"),
            ("refresh_token", "refresh-old"),
            ("grant_type", "refresh_token"),
        ]
    );
}

#[test]
fn exchange_reads_missing_fields_as_empty_or_zero() {
    let f = TokenFields {
        token_type: None,
        access_token: Some("acc".to_string()),
        expires_in: None,
        refresh_token: Some("ref".to_string()),
        refresh_token_expires_in: Some(100),
        scope: None,
    };
    let t = token_from_exchange_reply(ok_reply(f)).unwrap();
    assert_eq!(t.token_type, "");
    assert_eq!(t.access_token, "acc");
    assert_eq!(t.expires_in, 0);
    assert_eq!(t.refresh_token, "ref");
    assert_eq!(t.refresh_token_expires_in, 100);
    assert_eq!(t.scope, "");
}

#[test]
fn exchange_failure_carries_status_and_body() {
    let reply = TokenReply::Answered {
        status: 400,
        body: Some("invalid_grant".to_string()),
        fields: None,
    };
    match token_from_exchange_reply(reply) {
        Err(ApiError::Auth { status, body }) => {
            assert_eq!(status, 400);
            assert_eq!(body, "invalid_grant");
        }
        other => panic!("unexpected {:?}", other),
    }
    let reply = TokenReply::Answered { status: 401, body: None, fields: None };
    match token_from_exchange_reply(reply) {
        Err(ApiError::Auth { status, body }) => {
            assert_eq!(status, 401);
            assert_eq!(body, "Unable to read error body");
        }
        other => panic!("unexpected {:?}", other),
    }
    let reply = TokenReply::Answered { status: 200, body: Some("<html>".to_string()), fields: None };
    match token_from_exchange_reply(reply) {
        Err(ApiError::Auth { status, body }) => {
            assert_eq!(status, 200);
            assert_eq!(body, "<html>");
        }
        other => panic!("unexpected {:?}", other),
    }
    let reply = TokenReply::Unreachable { cause: "dns".to_string() };
    match token_from_exchange_reply(reply) {
        Err(ApiError::AuthTransport { cause }) => assert_eq!(cause, "dns"),
        other => panic!("unexpected {:?}", other),
    }
}

#[test]
fn refresh_reply_with_new_refresh_token_rotates_it() {
    let t = token_from_refresh_reply(ok_reply(fields(Some("refresh-new"), Some(3599))), "refresh-old").unwrap();
    assert_eq!(t.refresh_token, "refresh-new");
    assert_eq!(t.access_token, "access-new");
    assert_eq!(t.expires_in, 3599);
    assert_eq!(t.refresh_token_expires_in, 0);
}

#[test]
fn refresh_reply_without_refresh_token_keeps_the_held_one() {
    let t = token_from_refresh_reply(ok_reply(fields(None, Some(3599))), "refresh-old").unwrap();
    assert_eq!(t.refresh_token, "refresh-old");
}

#[test]
fn client_refresh_stores_rotated_token_in_credentials() {
    let mut c = GoogleClient::new(credentials(), token(3600), 1_000);
    c.refresh(ok_reply(fields(Some("refresh-new"), Some(1800))), 5_000).unwrap();
    assert_eq!(c.credentials().refresh_token, "refresh-new");
    assert_eq!(c.access_token().refresh_token, "refresh-new");
    assert_eq!(c.access_token().access_token, "access-new");
    assert_eq!(c.credentials().client_id, "id-1");
    assert_eq!(c.expires_at(), 6_800);

    let mut c = GoogleClient::new(credentials(), token(3600), 1_000);
    c.refresh(ok_reply(fields(None, Some(1800))), 5_000).unwrap();
    assert_eq!(c.credentials().refresh_token, "refresh-old");
    assert_eq!(c.access_token().refresh_token, "refresh-old");
}

#[test]
fn failed_refresh_leaves_client_unchanged() {
    let mut c = GoogleClient::new(credentials(), token(3600), 1_000);
    let reply = TokenReply::Answered { status: 400, body: Some("revoked".to_string()), fields: None };
    match c.refresh(reply, 9_000) {
        Err(ApiError::Auth { status, body }) => {
            assert_eq!(status, 400);
            assert_eq!(body, "revoked");
        }
        other => panic!("unexpected {:?}", other),
    }
    assert_eq!(c.expires_at(), 4_600);
    assert_eq!(c.access_token().access_token, "access-old");
    assert_eq!(c.credentials().refresh_token, "refresh-old");
}

#[test]
fn fresh_token_needs_no_refresh_call() {
    let c = GoogleClient::new(credentials(), token(3600), 1_000);
    assert_eq!(c.expires_at(), 4_600);
    assert!(!c.is_expired(1_000));
    assert!(!c.is_expired(4_539));
    let mut refresh_calls = 0;
    for now in [1_000, 2_000, 4_539] {
        if let Next::Refresh(_) = c.ensure_fresh(Method::Get, now) {
            refresh_calls += 1;
        }
    }
    assert_eq!(refresh_calls, 0);
}

#[test]
fn expired_token_needs_exactly_one_refresh_call() {
    let mut c = GoogleClient::new(credentials(), token(3600), 1_000);
    assert!(c.is_expired(4_540));
    let call = match c.ensure_fresh(Method::Get, 10_000) {
        Next::Refresh(call) => call,
        Next::Send(_) => panic!("an expired token must be refreshed"),
    };
    assert_eq!(
        pairs(&call.token_request().form),
        vec![
            ("client_id", "id-1"),
            ("client_secret", "secret-1"),
            ("refresh_token", "refresh-old"),
            ("grant_type", "refresh_token"),
        ]
    );
    let send = call.complete(&mut c, ok_reply(fields(None, Some(3599))), 10_000).unwrap();
    assert_eq!(c.expires_at(), 13_599);
    assert!(matches!(c.ensure_fresh(Method::Get, 10_000), Next::Send(_)));
    let reply = Reply::Answered { status: 200, body: Some("{\"items\":[]}".to_string()) };
    match send.complete(reply) {
        Ok(Response::Body(b)) => assert_eq!(b, "{\"items\":[]}"),
        other => panic!("unexpected {:?}", other),
    }
}

#[test]
fn failed_refresh_aborts_the_request() {
    let mut c = GoogleClient::new(credentials(), token(10), 1_000);
    let call = match c.ensure_fresh(Method::Delete, 2_000) {
        Next::Refresh(call) => call,
        Next::Send(_) => panic!("an expired token must be refreshed"),
    };
    let reply = TokenReply::Unreachable { cause: "timeout".to_string() };
    match call.complete(&mut c, reply, 2_000) {
        Err(ApiError::AuthTransport { cause }) => assert_eq!(cause, "timeout"),
        _ => panic!("the refresh failure must be reported"),
    }
    assert_eq!(c.expires_at(), 1_010);
}

fn send_call(method: Method) -> google_workspace_apis::client::ResourceCall {
    let c = GoogleClient::new(credentials(), token(3600), 0);
    match c.ensure_fresh(method, 0) {
        Next::Send(call) => call,
        Next::Refresh(_) => panic!("a fresh token needs no refresh"),
    }
}

#[test]
fn delete_success_has_no_body() {
    let r = send_call(Method::Delete).complete(Reply::Answered { status: 204, body: Some(String::new()) });
    assert!(matches!(r, Ok(Response::Deleted)));
    let r = send_call(Method::Delete).complete(Reply::Answered { status: 200, body: None });
    assert!(matches!(r, Ok(Response::Deleted)));
}

#[test]
fn delete_not_found_is_a_request_error() {
    let reply = Reply::Answered { status: 404, body: Some("Not Found".to_string()) };
    match send_call(Method::Delete).complete(reply) {
        Err(ApiError::Request { status, body }) => {
            assert_eq!(status, 404);
            assert_eq!(body, "Not Found");
        }
        other => panic!("unexpected {:?}", other),
    }
}

#[test]
fn empty_success_body_is_no_result() {
    let r = send_call(Method::Get).complete(Reply::Answered { status: 200, body: Some(String::new()) });
    assert!(matches!(r, Ok(Response::Empty)));
    let r = send_call(Method::Patch).complete(Reply::Answered { status: 299, body: Some("{}".to_string()) });
    assert!(matches!(r, Ok(Response::Body(ref b)) if b == "{}"));
}

#[test]
fn error_statuses_and_transport_failures() {
    let r = send_call(Method::Post).complete(Reply::Answered { status: 300, body: None });
    match r {
        Err(ApiError::Request { status, body }) => {
            assert_eq!(status, 300);
            assert_eq!(body, "Unable to read error body");
        }
        other => panic!("unexpected {:?}", other),
    }
    let r = send_call(Method::Get).complete(Reply::Answered { status: 199, body: Some("x".to_string()) });
    assert!(matches!(r, Err(ApiError::Request { status: 199, .. })));
    let r = send_call(Method::Get).complete(Reply::Unreachable { cause: "refused".to_string() });
    match r {
        Err(ApiError::Transport { cause }) => assert_eq!(cause, "refused"),
        other => panic!("unexpected {:?}", other),
    }
    let r = send_call(Method::Get).complete(Reply::Answered { status: 200, body: None });
    assert!(matches!(r, Err(ApiError::Transport { .. })));
}
