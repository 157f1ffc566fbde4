//! What the library knows of HTTP: a request to post, a status, and the two
//! ways in which sending can end.

use vstd::prelude::*;

verus! {

/// The text that `reqwest::StatusCode` displays for the status with number
/// `code`: the number, a space, and the reason phrase that the `http` crate
/// keeps for it.
pub uninterp spec fn status_display(code: u16) -> Seq<char>;

/// Whether `code` is a number that `reqwest::StatusCode` can hold.
pub open spec fn is_status_code(code: u16) -> bool {
    100 <= code <= 999
}

/// Whether a status with number `code` reports success.
pub open spec fn is_success_code(code: u16) -> bool {
    200 <= code <= 299
}

/// The number of the status "Not Found".
pub open spec fn is_not_found_code(code: u16) -> bool {
    code == 404
}

/// Calls `reqwest::StatusCode::is_success` on the status with number `code`.
/// `StatusCode::from_u16` accepts the numbers from 100 to 999 and no others,
/// and `is_success` holds of those from 200 to 299.
#[verifier::external_body]
fn status_is_success(code: u16) -> (success: bool)
    ensures
        success == is_success_code(code),
{
    match reqwest::StatusCode::from_u16(code) {
        Ok(status) => status.is_success(),
        Err(_) => false,
    }
}

/// Compares the status with number `code` to `reqwest::StatusCode::NOT_FOUND`,
/// which is the status 404.
#[verifier::external_body]
fn status_is_not_found(code: u16) -> (not_found: bool)
    ensures
        not_found == is_not_found_code(code),
{
    match reqwest::StatusCode::from_u16(code) {
        Ok(status) => status == reqwest::StatusCode::NOT_FOUND,
        Err(_) => false,
    }
}

/// Formats the status with number `code` as `reqwest::StatusCode` displays
/// it. There is such a status exactly for the numbers from 100 to 999; the
/// text itself is only named, by [`status_display`].
#[verifier::external_body]
fn status_to_string(code: u16) -> (text: Option<String>)
    ensures
        text is Some <==> is_status_code(code),
        text matches Some(t) ==> t@ == status_display(code),
{
    match reqwest::StatusCode::from_u16(code) {
        Ok(status) => Some(status.to_string()),
        Err(_) => None,
    }
}

/// The status of an HTTP response: a number from 100 to 999.
#[derive(Debug, Clone, Copy, PartialEq, Eq)]
pub struct HttpStatus {
    code: u16,
}

impl View for HttpStatus {
    type V = u16;

    closed spec fn view(&self) -> u16 {
        self.code
    }
}

impl HttpStatus {
    #[verifier::type_invariant]
    spec fn in_range(self) -> bool {
        is_status_code(self.code)
    }

    /// The status with number `code`, if there is one.
    pub fn new(code: u16) -> (status: Option<HttpStatus>)
        ensures
            status is Some <==> is_status_code(code),
            status matches Some(s) ==> s@ == code,
    {
        if 100 <= code && code <= 999 {
            Some(HttpStatus { code })
        } else {
            None
        }
    }

    /// The number of the status.
    pub fn code(&self) -> (code: u16)
        ensures
            code == self@,
            is_status_code(code),
    {
        proof {
            use_type_invariant(self);
        }
        self.code
    }

    /// Whether the status reports success.
    pub fn is_success(&self) -> (success: bool)
        ensures
            success == is_success_code(self@),
    {
        status_is_success(self.code)
    }

    /// Whether the status is "Not Found".
    pub fn is_not_found(&self) -> (not_found: bool)
        ensures
            not_found == is_not_found_code(self@),
    {
        status_is_not_found(self.code)
    }

    /// The status as it is shown to the user.
    pub fn text(&self) -> (text: String)
        ensures
            text@ == status_display(self@),
    {
        proof {
            use_type_invariant(self);
        }
        match status_to_string(self.code) {
            Some(text) => text,
            None => vstd::pervasive::unreached(),
        }
    }
}

/// A request to post: where to, and what.
#[derive(Debug, PartialEq, Eq)]
pub struct HttpRequest<B> {
    pub url: String,
    pub body: B,
}

/// How the sending of a request ended.
#[derive(Debug, PartialEq, Eq)]
pub enum SendOutcome {
    /// No response arrived. `connect` tells whether the connection itself
    /// could not be made; `message` is the transport's description.
    Failed { connect: bool, message: String },
    /// A response arrived with this status; its body has not been read.
    Responded { status: HttpStatus },
}

} // verus!
