//! The backend that asks a model server on this machine.

use vstd::prelude::*;
use vstd::string::*;
use crate::error::{ErrorKind, GenerationError, GenerationErrorView, lines_view};
use crate::http::{
    is_not_found_code, is_success_code, status_display, HttpRequest, SendOutcome,
};
use crate::models::{OllamaRequest, OllamaRequestView, OllamaResponse};
use crate::services::LlmService;
use crate::text::{has_substring, lemma_concat_has_substring};

verus! {

/// Where the local server listens.
pub const OLLAMA_SERVER: &'static str = "http://localhost:11434";

/// Where a generation is asked for.
pub const OLLAMA_ENDPOINT: &'static str = "http://localhost:11434/api/generate";

/// The model that is asked where none is configured.
pub const DEFAULT_MODEL: &'static str = "gemma3";

/// The model to ask: the configured one, or the default where none is
/// configured. A configured empty name is kept.
pub open spec fn model_or_default(configured: Option<Seq<char>>) -> Seq<char> {
    match configured {
        Some(model) => model,
        None => DEFAULT_MODEL@,
    }
}

/// The error for a request that could not be sent: `reason` is the
/// transport's description, `connect` tells whether no connection could be
/// made.
pub open spec fn ollama_send_error(connect: bool, reason: Seq<char>) -> GenerationErrorView {
    if connect {
        GenerationErrorView {
            kind: ErrorKind::Connection,
            message: reason,
            diagnostics: seq![
                "Error: Could not connect to Ollama server at "@ + OLLAMA_SERVER@,
                "Please make sure the Ollama server is running"@,
            ],
        }
    } else {
        GenerationErrorView {
            kind: ErrorKind::Request,
            message: reason,
            diagnostics: seq!["Error sending request to Ollama server: "@ + reason],
        }
    }
}

/// The error for a response whose status, shown as `status`, does not report
/// success; `not_found` tells whether it is "Not Found", which the server
/// answers for a model that it does not have.
pub open spec fn ollama_status_error(
    model: Seq<char>,
    not_found: bool,
    status: Seq<char>,
) -> GenerationErrorView {
    GenerationErrorView {
        kind: if not_found {
            ErrorKind::ModelNotFound
        } else {
            ErrorKind::Status
        },
        message: "Ollama server error: "@ + status,
        diagnostics: if not_found {
            seq![
                "Error: Model '"@ + model + "' not found on the Ollama server"@,
                "To install "@ + model + ": ollama pull "@ + model,
                "Or set OLLAMA_MODEL environment variable to use a different model"@,
            ]
        } else {
            seq!["Error from Ollama server: Status "@ + status]
        },
    }
}

/// The error for a body that could not be decoded, for the given reason.
pub open spec fn ollama_parse_error(reason: Seq<char>) -> GenerationErrorView {
    GenerationErrorView {
        kind: ErrorKind::Parse,
        message: reason,
        diagnostics: seq!["Error parsing response from Ollama server: "@ + reason],
    }
}

/// The local backend. It is viewed as the name of the model that it asks.
#[derive(Debug, PartialEq, Eq)]
pub struct OllamaService {
    model: String,
}

impl View for OllamaService {
    type V = Seq<char>;

    closed spec fn view(&self) -> Seq<char> {
        self.model@
    }
}

impl OllamaService {
    /// The backend for the configured model, or for the default model where
    /// none is configured.
    pub fn new(configured_model: Option<String>) -> (service: OllamaService)
        ensures
            service@ == model_or_default(
                match configured_model {
                    Some(model) => Some(model@),
                    None => None,
                },
            ),
    {
        match configured_model {
            Some(model) => OllamaService { model },
            None => OllamaService { model: String::from_str(DEFAULT_MODEL) },
        }
    }

    /// The name of the model that is asked.
    pub fn model(&self) -> (model: &str)
        ensures
            model@ == self@,
    {
        self.model.as_str()
    }

    /// The error for a request that could not be sent.
    pub fn send_error(connect: bool, reason: String) -> (error: GenerationError)
        ensures
            error@ == ollama_send_error(connect, reason@),
    {
        if connect {
            let mut diagnostics: Vec<String> = Vec::new();
            diagnostics.push(
                String::from_str("Error: Could not connect to Ollama server at ").concat(
                    OLLAMA_SERVER,
                ),
            );
            diagnostics.push(String::from_str("Please make sure the Ollama server is running"));
            let error = GenerationError { kind: ErrorKind::Connection, message: reason, diagnostics };
            proof {
                assert(error@.diagnostics =~= ollama_send_error(connect, reason@).diagnostics);
            }
            error
        } else {
            let line = String::from_str("Error sending request to Ollama server: ").concat(
                reason.as_str(),
            );
            GenerationError::with_line(ErrorKind::Request, reason, line)
        }
    }

    /// The error for a response whose status does not report success.
    /// `status` is the status as it is shown to the user.
    pub fn status_error(&self, not_found: bool, status: &str) -> (error: GenerationError)
        ensures
            error@ == ollama_status_error(self@, not_found, status@),
    {
        let message = String::from_str("Ollama server error: ").concat(status);
        if not_found {
            let model = self.model.as_str();
            let mut diagnostics: Vec<String> = Vec::new();
            diagnostics.push(
                String::from_str("Error: Model '").concat(model).concat(
                    "' not found on the Ollama server",
                ),
            );
            diagnostics.push(
                String::from_str("To install ").concat(model).concat(": ollama pull ").concat(
                    model,
                ),
            );
            diagnostics.push(
                String::from_str(
                    "Or set OLLAMA_MODEL environment variable to use a different model",
                ),
            );
            let error = GenerationError { kind: ErrorKind::ModelNotFound, message, diagnostics };
            proof {
                assert(error@.diagnostics =~= ollama_status_error(
                    self@,
                    not_found,
                    status@,
                ).diagnostics);
            }
            error
        } else {
            let line = String::from_str("Error from Ollama server: Status ").concat(status);
            GenerationError::with_line(ErrorKind::Status, message, line)
        }
    }

    /// The error for a body that could not be decoded.
    pub fn parse_error(reason: String) -> (error: GenerationError)
        ensures
            error@ == ollama_parse_error(reason@),
    {
        let line = String::from_str("Error parsing response from Ollama server: ").concat(
            reason.as_str(),
        );
        GenerationError::with_line(ErrorKind::Parse, reason, line)
    }
}

impl LlmService for OllamaService {
    type Request = OllamaRequest;

    type Response = OllamaResponse;

    open spec fn prompt_of(request: &OllamaRequest) -> Option<Seq<char>> {
        Some(request@.prompt)
    }

    open spec fn answer(response: &OllamaResponse) -> Option<Seq<char>> {
        Some(response@)
    }

    /// Always a request: to the local endpoint, for the model of this
    /// backend, with the prompt as it is, answered in one piece.
    fn request(&self, prompt: &str) -> (planned: Result<HttpRequest<OllamaRequest>, GenerationError>)
        ensures
            planned matches Ok(request) && request.url@ == OLLAMA_ENDPOINT@ && request.body@ == (
            OllamaRequestView { model: self@, prompt: prompt@, stream: false }),
    {
        Ok(
            HttpRequest {
                url: String::from_str(OLLAMA_ENDPOINT),
                body: OllamaRequest::new(self.model.as_str(), prompt),
            },
        )
    }

    fn accept(&self, outcome: SendOutcome) -> (step: Result<(), GenerationError>)
        ensures
            match outcome {
                SendOutcome::Failed { connect, message } => step matches Err(e) && e@
                    == ollama_send_error(connect, message@),
                SendOutcome::Responded { status } => if is_success_code(status@) {
                    step is Ok
                } else {
                    step matches Err(e) && e@ == ollama_status_error(
                        self@,
                        is_not_found_code(status@),
                        status_display(status@),
                    )
                },
            },
    {
        match outcome {
            SendOutcome::Failed { connect, message } => Err(Self::send_error(connect, message)),
            SendOutcome::Responded { status } => {
                if status.is_success() {
                    Ok(())
                } else {
                    let shown = status.text();
                    Err(self.status_error(status.is_not_found(), shown.as_str()))
                }
            },
        }
    }

    fn conclude(&self, body: Result<OllamaResponse, String>) -> (text: Result<
        String,
        GenerationError,
    >)
        ensures
            body matches Err(reason) ==> (text matches Err(e) && e@ == ollama_parse_error(reason@)),
    {
        match body {
            Ok(response) => Ok(response.response),
            Err(reason) => Err(Self::parse_error(reason)),
        }
    }
}

/// Where the server does not have the model, the first line of explanation
/// names the model, whatever its name and however the status is shown.
pub proof fn lemma_missing_model_is_named(model: Seq<char>, status: Seq<char>)
    ensures
        ollama_status_error(model, true, status).kind == ErrorKind::ModelNotFound,
        has_substring(ollama_status_error(model, true, status).diagnostics[0], model),
{
    lemma_concat_has_substring(
        "Error: Model '"@,
        model,
        "' not found on the Ollama server"@,
    );
}

/// Where no connection could be made, the first line of explanation names
/// the address of the local server.
pub proof fn lemma_refused_connection_names_server(reason: Seq<char>)
    ensures
        ollama_send_error(true, reason).kind == ErrorKind::Connection,
        has_substring(ollama_send_error(true, reason).diagnostics[0], OLLAMA_SERVER@),
{
    let before = "Error: Could not connect to Ollama server at "@;
    lemma_concat_has_substring(before, OLLAMA_SERVER@, Seq::empty());
    assert(before + OLLAMA_SERVER@ + Seq::<char>::empty() =~= before + OLLAMA_SERVER@);
}

} // verus!
