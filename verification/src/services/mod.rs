//! The one capability of a backend: to turn a prompt into generated text.
//!
//! A generation is one HTTP round trip. The library decides each step of it
//! and leaves the round trip itself to the caller, who
//!
//! 1. asks [`LlmService::request`] what to post,
//! 2. posts it and hands the way the sending ended to [`LlmService::accept`],
//! 3. decodes the body and hands it to [`LlmService::conclude`].
//!
//! The first error ends the generation; nothing is tried again.

pub mod gemini;
pub mod ollama;

use vstd::prelude::*;
use crate::error::{ErrorKind, GenerationError};
use crate::http::{is_success_code, HttpRequest, SendOutcome};

verus! {

/// Whether the sending ended with a response whose status reports success.
pub open spec fn responded_with_success(outcome: SendOutcome) -> bool {
    outcome matches SendOutcome::Responded { status } && is_success_code(status@)
}

/// A service that generates text from a prompt.
pub trait LlmService {
    /// The record that is posted.
    type Request;

    /// The record that a successful response carries.
    type Response;

    /// The prompt that `request` carries, if it carries one.
    spec fn prompt_of(request: &Self::Request) -> Option<Seq<char>>;

    /// The generated text that `response` carries, if it carries one.
    spec fn answer(response: &Self::Response) -> Option<Seq<char>>;

    /// The request that asks for an answer to `prompt`, or the reason why
    /// none can be made. A request carries the prompt as it is.
    fn request(&self, prompt: &str) -> (planned: Result<
        HttpRequest<Self::Request>,
        GenerationError,
    >)
        ensures
            planned matches Ok(request) ==> Self::prompt_of(&request.body) == Some(prompt@),
    ;

    /// Judges how the sending ended. The generation goes on exactly when a
    /// response arrived whose status reports success.
    fn accept(&self, outcome: SendOutcome) -> (step: Result<(), GenerationError>)
        ensures
            step is Ok <==> responded_with_success(outcome),
    ;

    /// Ends the generation with the decoded body, or with the description of
    /// why it could not be decoded. The text of the response is returned as
    /// it is.
    fn conclude(&self, body: Result<Self::Response, String>) -> (text: Result<
        String,
        GenerationError,
    >)
        requires
            body matches Ok(response) ==> Self::answer(&response) is Some,
        ensures
            body matches Ok(response) ==> (text matches Ok(t) && Some(t@) == Self::answer(
                &response,
            )),
            body matches Err(reason) ==> (text matches Err(e) && e@.kind == ErrorKind::Parse
                && e@.message == reason@),
    ;
}

} // verus!
