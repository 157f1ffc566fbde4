//! The backend that asks the hosted model.

use vstd::prelude::*;
use vstd::string::*;
use crate::error::{ErrorKind, GenerationError, GenerationErrorView};
use crate::http::{is_success_code, status_display, HttpRequest, SendOutcome};
use crate::models::{first_text, single_prompt, GeminiRequest, GeminiResponse};
use crate::services::LlmService;

verus! {

/// Where a generation is asked for. The API key follows as it is.
pub const GEMINI_ENDPOINT: &'static str =
    "https://generativelanguage.googleapis.com/v1beta/models/gemini-flash-latest:generateContent?key=";

/// What is said where the API key is missing.
pub const MISSING_KEY: &'static str = "GEMINI_API_KEY environment variable not set";

/// The error for a backend without an API key.
pub open spec fn gemini_credential_error() -> GenerationErrorView {
    GenerationErrorView {
        kind: ErrorKind::MissingCredential,
        message: MISSING_KEY@,
        diagnostics: seq![MISSING_KEY@],
    }
}

/// The error for a request that could not be sent, for the given reason.
pub open spec fn gemini_send_error(reason: Seq<char>) -> GenerationErrorView {
    GenerationErrorView {
        kind: ErrorKind::Request,
        message: reason,
        diagnostics: seq!["Error sending request to Gemini server: "@ + reason],
    }
}

/// The error for a response whose status, shown as `status`, does not report
/// success.
pub open spec fn gemini_status_error(status: Seq<char>) -> GenerationErrorView {
    GenerationErrorView {
        kind: ErrorKind::Status,
        message: "Gemini server error: "@ + status,
        diagnostics: seq!["Error from Gemini server: Status "@ + status],
    }
}

/// The error for a body that could not be decoded, for the given reason.
pub open spec fn gemini_parse_error(reason: Seq<char>) -> GenerationErrorView {
    GenerationErrorView {
        kind: ErrorKind::Parse,
        message: reason,
        diagnostics: seq!["Error parsing response from Gemini server: "@ + reason],
    }
}

/// The hosted backend. It is viewed as its API key, if it has one.
#[derive(Debug, PartialEq, Eq)]
pub struct GeminiService {
    api_key: Option<String>,
}

impl View for GeminiService {
    type V = Option<Seq<char>>;

    closed spec fn view(&self) -> Option<Seq<char>> {
        match self.api_key {
            Some(key) => Some(key@),
            None => None,
        }
    }
}

impl GeminiService {
    /// The backend with the given API key, or without one.
    pub fn new(api_key: Option<String>) -> (service: GeminiService)
        ensures
            service@ == match api_key {
                Some(key) => Some(key@),
                None => None,
            },
    {
        GeminiService { api_key }
    }

    /// Whether the backend has an API key.
    pub fn has_key(&self) -> (has: bool)
        ensures
            has == self@ is Some,
    {
        self.api_key.is_some()
    }

    /// The error for a backend without an API key.
    pub fn credential_error() -> (error: GenerationError)
        ensures
            error@ == gemini_credential_error(),
    {
        GenerationError::with_line(
            ErrorKind::MissingCredential,
            String::from_str(MISSING_KEY),
            String::from_str(MISSING_KEY),
        )
    }

    /// The error for a request that could not be sent.
    pub fn send_error(reason: String) -> (error: GenerationError)
        ensures
            error@ == gemini_send_error(reason@),
    {
        let line = String::from_str("Error sending request to Gemini server: ").concat(
            reason.as_str(),
        );
        GenerationError::with_line(ErrorKind::Request, reason, line)
    }

    /// The error for a response whose status does not report success.
    /// `status` is the status as it is shown to the user.
    pub fn status_error(status: &str) -> (error: GenerationError)
        ensures
            error@ == gemini_status_error(status@),
    {
        let message = String::from_str("Gemini server error: ").concat(status);
        let line = String::from_str("Error from Gemini server: Status ").concat(status);
        GenerationError::with_line(ErrorKind::Status, message, line)
    }

    /// The error for a body that could not be decoded.
    pub fn parse_error(reason: String) -> (error: GenerationError)
        ensures
            error@ == gemini_parse_error(reason@),
    {
        let line = String::from_str("Error parsing response from Gemini server: ").concat(
            reason.as_str(),
        );
        GenerationError::with_line(ErrorKind::Parse, reason, line)
    }
}

impl LlmService for GeminiService {
    type Request = GeminiRequest;

    type Response = GeminiResponse;

    open spec fn prompt_of(request: &GeminiRequest) -> Option<Seq<char>> {
        first_text(request@)
    }

    open spec fn answer(response: &GeminiResponse) -> Option<Seq<char>> {
        first_text(response@)
    }

    /// Without an API key there is no request. With one, the request goes to
    /// the hosted endpoint with the key appended as it is, and carries the
    /// prompt as its only part.
    fn request(&self, prompt: &str) -> (planned: Result<HttpRequest<GeminiRequest>, GenerationError>)
        ensures
            match self@ {
                Some(key) => planned matches Ok(request) && request.url@ == GEMINI_ENDPOINT@ + key
                    && request.body@ == single_prompt(prompt@),
                None => planned matches Err(e) && e@ == gemini_credential_error(),
            },
    {
        match &self.api_key {
            Some(key) => Ok(
                HttpRequest {
                    url: String::from_str(GEMINI_ENDPOINT).concat(key.as_str()),
                    body: GeminiRequest::new(prompt),
                },
            ),
            None => Err(Self::credential_error()),
        }
    }

    fn accept(&self, outcome: SendOutcome) -> (step: Result<(), GenerationError>)
        ensures
            match outcome {
                SendOutcome::Failed { connect, message } => step matches Err(e) && e@
                    == gemini_send_error(message@),
                SendOutcome::Responded { status } => if is_success_code(status@) {
                    step is Ok
                } else {
                    step matches Err(e) && e@ == gemini_status_error(status_display(status@))
                },
            },
    {
        match outcome {
            SendOutcome::Failed { connect: _, message } => Err(Self::send_error(message)),
            SendOutcome::Responded { status } => {
                if status.is_success() {
                    Ok(())
                } else {
                    let shown = status.text();
                    Err(Self::status_error(shown.as_str()))
                }
            },
        }
    }

    fn conclude(&self, body: Result<GeminiResponse, String>) -> (text: Result<
        String,
        GenerationError,
    >)
        ensures
            body matches Err(reason) ==> (text matches Err(e) && e@ == gemini_parse_error(reason@)),
    {
        match body {
            Ok(response) => {
                match response.first_text() {
                    Some(text) => Ok(text.clone()),
                    None => vstd::pervasive::unreached(),
                }
            },
            Err(reason) => Err(Self::parse_error(reason)),
        }
    }
}

} // verus!
