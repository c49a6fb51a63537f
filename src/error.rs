use vstd::prelude::*;

verus! {

/// Text that stands in for a reply body that could not be read.
pub open spec fn unreadable_body() -> Seq<char> {
    "Unable to read error body"@
}

/// The text of a reply body, or the stand-in where it could not be read.
pub open spec fn body_text(body: Option<String>) -> Seq<char> {
    match body {
        Some(b) => b@,
        None => unreadable_body(),
    }
}

/// Whether an HTTP status reports success (200 to 299).
pub open spec fn success_status(status: u16) -> bool {
    200 <= status <= 299
}

/// Whether an HTTP status reports success (200 to 299).
pub fn is_success(status: u16) -> (r: bool)
    ensures
        r == success_status(status),
{
    200 <= status && status <= 299
}

/// The text of a reply body, or a stand-in where it could not be read.
pub fn body_or_placeholder(body: Option<String>) -> (r: String)
    ensures
        r@ == body_text(body),
{
    match body {
        Some(b) => b,
        None => String::from_str("Unable to read error body"),
    }
}

/// Why a call to the token endpoint or to the calendar service failed.
#[derive(Debug)]
pub enum ApiError {
    /// The token endpoint refused an authorization code or refresh token, or its
    /// success reply held no token.
    Auth { status: u16, body: String },
    /// The token endpoint could not be reached.
    AuthTransport { cause: String },
    /// A calendar request came back with a status outside 200 to 299.
    Request { status: u16, body: String },
    /// A calendar request could not reach the service, or its reply could not be read.
    Transport { cause: String },
}

} // verus!
