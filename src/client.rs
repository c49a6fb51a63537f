use vstd::prelude::*;

use crate::auth::{
    auth_failure, form_view, int_or_zero, refresh_form, refresh_request, rotated_refresh_token,
    token_fields, token_from_refresh_reply, token_read, token_url, AccessToken, ClientCredentials,
    TokenReply, TokenRequest,
};
use crate::error::{body_or_placeholder, body_text, is_success, success_status, ApiError};
use crate::request::Method;

verus! {

/// Seconds before its stated expiry at which a token is already treated as expired, so
/// that it does not run out while a request is under way.
pub const EXPIRY_MARGIN_SECS: i64 = 60;

/// Whether a token that expires at second `expires_at` must be refreshed at second `now`.
pub open spec fn expired(expires_at: int, now: int) -> bool {
    now + EXPIRY_MARGIN_SECS >= expires_at
}

/// An authenticated session: the credentials, the current access token and the second
/// at which that token expires. A refresh replaces the token in place. Callers that
/// share one client between tasks must hold it exclusively from the freshness check to
/// the end of the request.
pub struct GoogleClient {
    credentials: ClientCredentials,
    token: AccessToken,
    expires_at: i128,
}

impl GoogleClient {
    pub closed spec fn creds(&self) -> ClientCredentials {
        self.credentials
    }

    pub closed spec fn token(&self) -> AccessToken {
        self.token
    }

    /// The second (since the Unix epoch) at which the current token expires.
    pub closed spec fn expiry(&self) -> int {
        self.expires_at as int
    }

    /// A session with `token`, issued at second `now`.
    pub fn new(credentials: ClientCredentials, token: AccessToken, now: i64) -> (r: GoogleClient)
        ensures
            r.creds() == credentials,
            r.token() == token,
            r.expiry() == now + token.expires_in,
    {
        let expires_at = now as i128 + token.expires_in as i128;
        GoogleClient { credentials, token, expires_at }
    }

    pub fn credentials(&self) -> (r: &ClientCredentials)
        ensures
            *r == self.creds(),
    {
        &self.credentials
    }

    pub fn access_token(&self) -> (r: &AccessToken)
        ensures
            *r == self.token(),
    {
        &self.token
    }

    /// The second (since the Unix epoch) at which the current token expires.
    pub fn expires_at(&self) -> (r: i128)
        ensures
            r == self.expiry(),
    {
        self.expires_at
    }

    /// Whether the token must be refreshed before a request made at second `now`.
    pub fn is_expired(&self, now: i64) -> (r: bool)
        ensures
            r == expired(self.expiry(), now as int),
    {
        now as i128 + EXPIRY_MARGIN_SECS as i128 >= self.expires_at
    }

    /// Takes in the token endpoint's reply to a refresh made at second `now`. On success
    /// the new token replaces the old one, expires `expires_in` seconds after `now`, and
    /// its refresh token (the reply's, or else the one held) is stored in the
    /// credentials. On failure the session is left as it was.
    pub fn refresh(&mut self, reply: TokenReply, now: i64) -> (r: Result<(), ApiError>)
        ensures
            match token_fields(reply) {
                Some(f) => {
                    let rotated = rotated_refresh_token(f, old(self).creds().refresh_token@);
                    &&& r is Ok
                    &&& token_read(final(self).token(), f, rotated, 0)
                    &&& final(self).creds().refresh_token@ == rotated
                    &&& final(self).creds().client_id == old(self).creds().client_id
                    &&& final(self).creds().client_secret == old(self).creds().client_secret
                    &&& final(self).creds().redirect_uri == old(self).creds().redirect_uri
                    &&& final(self).expiry() == now + int_or_zero(f.expires_in)
                },
                None => r matches Err(e) && auth_failure(reply, e) && *final(self) == *old(self),
            },
    {
        match token_from_refresh_reply(reply, self.credentials.refresh_token.as_str()) {
            Ok(token) => {
                self.credentials.refresh_token = token.refresh_token.clone();
                self.expires_at = now as i128 + token.expires_in as i128;
                self.token = token;
                Ok(())
            },
            Err(e) => Err(e),
        }
    }

    /// The check made before every request, at second `now`, for a request with verb
    /// `method`. A fresh token needs no call: the request can be sent. An expired one
    /// needs one refresh call first.
    pub fn ensure_fresh(&self, method: Method, now: i64) -> (r: Next)
        ensures
            !expired(self.expiry(), now as int) ==> (r matches Next::Send(c) && c.method() == method),
            expired(self.expiry(), now as int) ==> (r matches Next::Refresh(c) && c.method() == method
                && c.form().url@ == token_url() && form_view(c.form().form@) == refresh_form(self.creds())),
    {
        if self.is_expired(now) {
            Next::Refresh(RefreshCall { method, request: refresh_request(&self.credentials) })
        } else {
            Next::Send(ResourceCall { method })
        }
    }
}

/// What has to happen before a request can be sent.
pub enum Next {
    /// Post the refresh form, then hand the reply to `RefreshCall::complete`.
    Refresh(RefreshCall),
    /// Send the request, then hand the reply to `ResourceCall::complete`.
    Send(ResourceCall),
}

/// A refresh that must be made before a request with verb `method`.
pub struct RefreshCall {
    method: Method,
    request: TokenRequest,
}

impl RefreshCall {
    pub closed spec fn method(&self) -> Method {
        self.method
    }

    pub closed spec fn form(&self) -> TokenRequest {
        self.request
    }

    /// The form to post to the token endpoint.
    pub fn token_request(&self) -> (r: &TokenRequest)
        ensures
            *r == self.form(),
    {
        &self.request
    }

    /// Takes in the refresh reply, as `GoogleClient::refresh` does. On success the request
    /// can be sent, with no further refresh; on failure the request is not sent.
    pub fn complete(self, client: &mut GoogleClient, reply: TokenReply, now: i64) -> (r: Result<ResourceCall, ApiError>)
        ensures
            match token_fields(reply) {
                Some(f) => {
                    let rotated = rotated_refresh_token(f, old(client).creds().refresh_token@);
                    &&& r matches Ok(c) && c.method() == self.method()
                    &&& token_read(final(client).token(), f, rotated, 0)
                    &&& final(client).creds().refresh_token@ == rotated
                    &&& final(client).creds().client_id == old(client).creds().client_id
                    &&& final(client).creds().client_secret == old(client).creds().client_secret
                    &&& final(client).creds().redirect_uri == old(client).creds().redirect_uri
                    &&& final(client).expiry() == now + int_or_zero(f.expires_in)
                },
                None => r matches Err(e) && auth_failure(reply, e) && *final(client) == *old(client),
            },
    {
        match client.refresh(reply, now) {
            Ok(()) => Ok(ResourceCall { method: self.method }),
            Err(e) => Err(e),
        }
    }
}

/// A request with verb `method` that may be sent now.
pub struct ResourceCall {
    method: Method,
}

/// What came back from the calendar service.
pub enum Reply {
    /// The service answered with `status`; `body` is the reply's text, `None` where it
    /// could not be read.
    Answered { status: u16, body: Option<String> },
    /// The service could not be reached.
    Unreachable { cause: String },
}

/// What a successful request brought.
#[derive(Debug)]
pub enum Response {
    /// The event was deleted.
    Deleted,
    /// The reply had an empty body: no result.
    Empty,
    /// The reply's body, to be decoded as the resource the request asked for.
    Body(String),
}

/// The cause given when a successful reply's body could not be read.
pub open spec fn unread_success_body() -> Seq<char> {
    "the reply body could not be read"@
}

/// What a request with verb `method` yields for `reply`: a status outside 200 to 299 is
/// an error with that status and the body; a successful delete is done whatever the
/// body; another successful request yields its body, or no result where it is empty.
pub open spec fn resource_outcome(method: Method, reply: Reply, r: Result<Response, ApiError>) -> bool {
    match reply {
        Reply::Unreachable { cause } => r == Err::<Response, ApiError>(ApiError::Transport { cause }),
        Reply::Answered { status, body } => if !success_status(status) {
            r matches Err(ApiError::Request { status: s, body: b }) && s == status && b@ == body_text(body)
        } else if method == Method::Delete {
            r == Ok::<Response, ApiError>(Response::Deleted)
        } else {
            match body {
                None => r matches Err(ApiError::Transport { cause }) && cause@ == unread_success_body(),
                Some(b) => if b@.len() == 0 {
                    r == Ok::<Response, ApiError>(Response::Empty)
                } else {
                    r == Ok::<Response, ApiError>(Response::Body(b))
                },
            }
        },
    }
}

impl ResourceCall {
    pub closed spec fn method(&self) -> Method {
        self.method
    }

    /// Sorts the service's reply into a result or an error; nothing is retried.
    pub fn complete(self, reply: Reply) -> (r: Result<Response, ApiError>)
        ensures
            resource_outcome(self.method(), reply, r),
    {
        match reply {
            Reply::Unreachable { cause } => Err(ApiError::Transport { cause }),
            Reply::Answered { status, body } => {
                if !is_success(status) {
                    return Err(ApiError::Request { status, body: body_or_placeholder(body) });
                }
                if self.method == Method::Delete {
                    return Ok(Response::Deleted);
                }
                match body {
                    None => Err(ApiError::Transport { cause: String::from_str("the reply body could not be read") }),
                    Some(b) => {
                        if b.as_str().is_empty() {
                            Ok(Response::Empty)
                        } else {
                            Ok(Response::Body(b))
                        }
                    },
                }
            },
        }
    }
}

} // verus!
