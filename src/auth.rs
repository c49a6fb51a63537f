use vstd::prelude::*;

use crate::error::{body_or_placeholder, body_text, is_success, success_status, ApiError};

verus! {

/// An area of a Google account that an application asks to reach.
#[derive(Clone, Copy, Debug, PartialEq, Eq, Structural)]
pub enum Scope {
    Calendar,
    CalendarReadOnly,
    CalendarEvents,
    CalendarEventsReadOnly,
    Tasks,
    TasksReadOnly,
}

/// The URL that names a scope.
pub open spec fn scope_url(s: Scope) -> Seq<char> {
    match s {
        Scope::Calendar => "https://www.googleapis.com/auth/calendar"@,
        Scope::CalendarReadOnly => "https://www.googleapis.com/auth/calendar.readonly"@,
        Scope::CalendarEvents => "https://www.googleapis.com/auth/calendar.events"@,
        Scope::CalendarEventsReadOnly => "https://www.googleapis.com/auth/calendar.events.readonly"@,
        Scope::Tasks => "https://www.googleapis.com/auth/tasks"@,
        Scope::TasksReadOnly => "https://www.googleapis.com/auth/tasks.readonly"@,
    }
}

impl Scope {
    pub fn as_str(&self) -> (r: &'static str)
        ensures
            r@ == scope_url(*self),
    {
        match self {
            Scope::Calendar => "https://www.googleapis.com/auth/calendar",
            Scope::CalendarReadOnly => "https://www.googleapis.com/auth/calendar.readonly",
            Scope::CalendarEvents => "https://www.googleapis.com/auth/calendar.events",
            Scope::CalendarEventsReadOnly => "https://www.googleapis.com/auth/calendar.events.readonly",
            Scope::Tasks => "https://www.googleapis.com/auth/tasks",
            Scope::TasksReadOnly => "https://www.googleapis.com/auth/tasks.readonly",
        }
    }
}

/// The URLs of `scopes`, in order, separated by single spaces.
pub open spec fn scope_list(scopes: Seq<Scope>) -> Seq<char>
    decreases scopes.len(),
{
    if scopes.len() == 0 {
        Seq::empty()
    } else if scopes.len() == 1 {
        scope_url(scopes[0])
    } else {
        scope_list(scopes.drop_last()) + " "@ + scope_url(scopes.last())
    }
}

/// The consent page that asks the user to grant `scopes` to client `client_id`, and then
/// sends an authorization code to `redirect_uri`.
pub open spec fn oauth_url(client_id: Seq<char>, redirect_uri: Seq<char>, scopes: Seq<Scope>) -> Seq<char> {
    "https://accounts.google.com/o/oauth2/auth?client_id="@ + client_id + "&redirect_uri="@
        + redirect_uri + "&response_type=code&scope="@ + scope_list(scopes)
        + "&access_type=offline&prompt=consent"@
}

/// The URL of Google's consent page for `scopes`. After consent the browser is sent to
/// `redirect_uri` with an authorization code, which `exchange_code_request` trades for
/// a token. The values are put in as they are, without escaping.
pub fn get_oauth_url(client_id: &str, redirect_uri: &str, scopes: Vec<Scope>) -> (r: String)
    ensures
        r@ == oauth_url(client_id@, redirect_uri@, scopes@),
{
    let mut list = String::new();
    let mut i: usize = 0;
    while i < scopes.len()
        invariant
            0 <= i <= scopes@.len(),
            list@ == scope_list(scopes@.subrange(0, i as int)),
        decreases scopes@.len() - i,
    {
        if i > 0 {
            list.append(" ");
        }
        list.append(scopes[i].as_str());
        proof {
            let next = scopes@.subrange(0, i + 1);
            assert(next.drop_last() =~= scopes@.subrange(0, i as int));
            assert(next.last() == scopes@[i as int]);
            if i == 0 {
                assert(scopes@.subrange(0, 0) =~= Seq::<Scope>::empty());
            }
        }
        i = i + 1;
    }
    assert(scopes@.subrange(0, scopes@.len() as int) =~= scopes@);
    let mut url = String::from_str("https://accounts.google.com/o/oauth2/auth?client_id=");
    url.append(client_id);
    url.append("&redirect_uri=");
    url.append(redirect_uri);
    url.append("&response_type=code&scope=");
    url.append(list.as_str());
    url.append("&access_type=offline&prompt=consent");
    url
}

/// What identifies the application and the user's grant to the token endpoint.
#[derive(Clone, Debug)]
pub struct ClientCredentials {
    pub client_id: String,
    pub client_secret: String,
    pub redirect_uri: String,
    pub refresh_token: String,
}

/// An access token and what came with it. `expires_in` counts seconds from when the
/// token was issued.
#[derive(Clone, Debug)]
pub struct AccessToken {
    pub token_type: String,
    pub access_token: String,
    pub expires_in: i64,
    pub refresh_token: String,
    pub refresh_token_expires_in: i64,
    pub scope: String,
}

/// The fields of the token endpoint's JSON reply, each `None` where it is missing or not
/// of the expected JSON type. `refresh_token_expires_in` comes from the field
/// `x_refresh_token_expires_in`.
#[derive(Clone, Debug)]
pub struct TokenFields {
    pub token_type: Option<String>,
    pub access_token: Option<String>,
    pub expires_in: Option<i64>,
    pub refresh_token: Option<String>,
    pub refresh_token_expires_in: Option<i64>,
    pub scope: Option<String>,
}

/// What came back from the token endpoint.
pub enum TokenReply {
    /// The endpoint answered with `status`. `body` is the reply's text (`None` where it
    /// could not be read) and `fields` what it holds (`None` where it is not JSON).
    Answered { status: u16, body: Option<String>, fields: Option<TokenFields> },
    /// The endpoint could not be reached.
    Unreachable { cause: String },
}

/// A form to post to the token endpoint.
pub struct TokenRequest {
    pub url: String,
    pub form: Vec<(String, String)>,
}

/// The token endpoint.
pub open spec fn token_url() -> Seq<char> {
    "https://oauth2.googleapis.com/token"@
}

/// The names and values of a form.
pub open spec fn form_view(form: Seq<(String, String)>) -> Seq<(Seq<char>, Seq<char>)> {
    form.map_values(|p: (String, String)| (p.0@, p.1@))
}

/// The form that trades authorization code `code` for a token.
pub open spec fn exchange_form(
    code: Seq<char>,
    client_secret: Seq<char>,
    client_id: Seq<char>,
    redirect_uri: Seq<char>,
) -> Seq<(Seq<char>, Seq<char>)> {
    seq![
        ("code"@, code),
        ("client_id"@, client_id),
        ("client_secret"@, client_secret),
        ("redirect_uri"@, redirect_uri),
        ("grant_type"@, "authorization_code"@),
    ]
}

/// The form that trades the refresh token of `c` for a new access token.
pub open spec fn refresh_form(c: ClientCredentials) -> Seq<(Seq<char>, Seq<char>)> {
    seq![
        ("client_id"@, c.client_id@),
        ("client_secret"@, c.client_secret@),
        ("refresh_token"@, c.refresh_token@),
        ("grant_type"@, "refresh_token"@),
    ]
}

/// An optional text, or the empty text where it is missing.
pub open spec fn text_or_empty(o: Option<String>) -> Seq<char> {
    match o {
        Some(s) => s@,
        None => Seq::empty(),
    }
}

/// An optional number, or zero where it is missing.
pub open spec fn int_or_zero(o: Option<i64>) -> i64 {
    match o {
        Some(n) => n,
        None => 0,
    }
}

/// `t` is the token read from `f`, with `refresh` as its refresh token and
/// `refresh_expires_in` as that token's lifetime; every other missing field reads as
/// empty or zero.
pub open spec fn token_read(t: AccessToken, f: TokenFields, refresh: Seq<char>, refresh_expires_in: i64) -> bool {
    &&& t.token_type@ == text_or_empty(f.token_type)
    &&& t.access_token@ == text_or_empty(f.access_token)
    &&& t.expires_in == int_or_zero(f.expires_in)
    &&& t.refresh_token@ == refresh
    &&& t.refresh_token_expires_in == refresh_expires_in
    &&& t.scope@ == text_or_empty(f.scope)
}

/// The refresh token to keep after a refresh: the one in the reply where there is one,
/// else the one held before.
pub open spec fn rotated_refresh_token(f: TokenFields, held: Seq<char>) -> Seq<char> {
    match f.refresh_token {
        Some(t) => t@,
        None => held,
    }
}

/// The error for a reply of the token endpoint that brings no token.
pub open spec fn auth_failure(reply: TokenReply, e: ApiError) -> bool {
    match reply {
        TokenReply::Unreachable { cause } => e == ApiError::AuthTransport { cause },
        TokenReply::Answered { status, body, .. } => e matches ApiError::Auth { status: s, body: b }
            && s == status && b@ == body_text(body),
    }
}

/// The fields of a reply that brings a token: one with a success status and a JSON body.
pub open spec fn token_fields(reply: TokenReply) -> Option<TokenFields> {
    match reply {
        TokenReply::Answered { status, fields, .. } => if success_status(status) {
            fields
        } else {
            None
        },
        TokenReply::Unreachable { .. } => None,
    }
}

fn text_field(o: Option<String>) -> (r: String)
    ensures
        r@ == text_or_empty(o),
{
    match o {
        Some(s) => s,
        None => String::new(),
    }
}

fn int_field(o: Option<i64>) -> (r: i64)
    ensures
        r == int_or_zero(o),
{
    match o {
        Some(n) => n,
        None => 0,
    }
}

fn auth_error(status: u16, body: Option<String>) -> (r: ApiError)
    ensures
        r matches ApiError::Auth { status: s, body: b } && s == status && b@ == body_text(body),
{
    ApiError::Auth { status, body: body_or_placeholder(body) }
}

/// The form that trades authorization code `code` for a token.
pub fn exchange_code_request(code: &str, client_secret: &str, client_id: &str, redirect_uri: &str) -> (r:
    TokenRequest)
    ensures
        r.url@ == token_url(),
        form_view(r.form@) == exchange_form(code@, client_secret@, client_id@, redirect_uri@),
{
    let mut form: Vec<(String, String)> = Vec::new();
    form.push((String::from_str("code"), String::from_str(code)));
    form.push((String::from_str("client_id"), String::from_str(client_id)));
    form.push((String::from_str("client_secret"), String::from_str(client_secret)));
    form.push((String::from_str("redirect_uri"), String::from_str(redirect_uri)));
    form.push((String::from_str("grant_type"), String::from_str("authorization_code")));
    let r = TokenRequest { url: String::from_str("https://oauth2.googleapis.com/token"), form };
    assert(form_view(r.form@) =~= exchange_form(code@, client_secret@, client_id@, redirect_uri@));
    r
}

/// The token that the endpoint's reply to a code exchange brings: on a success status
/// with a JSON body, the token read from it, missing fields read as empty or zero;
/// otherwise the error.
pub fn token_from_exchange_reply(reply: TokenReply) -> (r: Result<AccessToken, ApiError>)
    ensures
        match token_fields(reply) {
            Some(f) => r matches Ok(t) && token_read(
                t,
                f,
                text_or_empty(f.refresh_token),
                int_or_zero(f.refresh_token_expires_in),
            ),
            None => r matches Err(e) && auth_failure(reply, e),
        },
{
    match reply {
        TokenReply::Unreachable { cause } => Err(ApiError::AuthTransport { cause }),
        TokenReply::Answered { status, body, fields } => {
            if !is_success(status) {
                return Err(auth_error(status, body));
            }
            match fields {
                None => Err(auth_error(status, body)),
                Some(f) => {
                    let TokenFields {
                        token_type,
                        access_token,
                        expires_in,
                        refresh_token,
                        refresh_token_expires_in,
                        scope,
                    } = f;
                    Ok(
                        AccessToken {
                            token_type: text_field(token_type),
                            access_token: text_field(access_token),
                            expires_in: int_field(expires_in),
                            refresh_token: text_field(refresh_token),
                            refresh_token_expires_in: int_field(refresh_token_expires_in),
                            scope: text_field(scope),
                        },
                    )
                },
            }
        },
    }
}

/// The form that trades the refresh token of `credentials` for a new access token.
pub fn refresh_request(credentials: &ClientCredentials) -> (r: TokenRequest)
    ensures
        r.url@ == token_url(),
        form_view(r.form@) == refresh_form(*credentials),
{
    let mut form: Vec<(String, String)> = Vec::new();
    form.push((String::from_str("client_id"), credentials.client_id.clone()));
    form.push((String::from_str("client_secret"), credentials.client_secret.clone()));
    form.push((String::from_str("refresh_token"), credentials.refresh_token.clone()));
    form.push((String::from_str("grant_type"), String::from_str("refresh_token")));
    let r = TokenRequest { url: String::from_str("https://oauth2.googleapis.com/token"), form };
    assert(form_view(r.form@) =~= refresh_form(*credentials));
    r
}

/// The token that the endpoint's reply to a refresh brings: on a success status with a
/// JSON body, the token read from it, keeping `held_refresh_token` where the reply
/// brings no new refresh token; otherwise the error.
pub fn token_from_refresh_reply(reply: TokenReply, held_refresh_token: &str) -> (r: Result<AccessToken, ApiError>)
    ensures
        match token_fields(reply) {
            Some(f) => r matches Ok(t) && token_read(t, f, rotated_refresh_token(f, held_refresh_token@), 0),
            None => r matches Err(e) && auth_failure(reply, e),
        },
{
    match reply {
        TokenReply::Unreachable { cause } => Err(ApiError::AuthTransport { cause }),
        TokenReply::Answered { status, body, fields } => {
            if !is_success(status) {
                return Err(auth_error(status, body));
            }
            match fields {
                None => Err(auth_error(status, body)),
                Some(f) => {
                    let TokenFields { token_type, access_token, expires_in, refresh_token, scope, .. } = f;
                    let refresh_token = match refresh_token {
                        Some(t) => t,
                        None => String::from_str(held_refresh_token),
                    };
                    Ok(
                        AccessToken {
                            token_type: text_field(token_type),
                            access_token: text_field(access_token),
                            expires_in: int_field(expires_in),
                            refresh_token,
                            refresh_token_expires_in: 0,
                            scope: text_field(scope),
                        },
                    )
                },
            }
        },
    }
}

} // verus!
