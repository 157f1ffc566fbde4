//! One run of the tool, from what was read to what is printed.
//!
//! A run reads a diff, picks one backend, asks it once and prints the answer.
//! This module decides the first and the last of these: whether there is
//! anything to ask, whom to ask, and what the process leaves behind.

use vstd::prelude::*;
use vstd::string::*;
use crate::error::{lines_view, GenerationError, GenerationErrorView};
use crate::prompt::{create_commit_message_prompt, prompt_text};
use crate::services::gemini::GeminiService;
use crate::services::ollama::{model_or_default, OllamaService};
use crate::services::LlmService;
use crate::text::{
    blank, has_substring, is_blank, lemma_blank_iff_trimmed_empty, lemma_trim_bounds, occurs_at,
    trim, trim_end, trim_start, trimmed,
};

verus! {

/// What is said where standard input holds no diff.
pub const NO_INPUT: &'static str = "No git diff provided on stdin";

/// The characters of an optional string.
pub open spec fn text_view(text: Option<String>) -> Option<Seq<char>> {
    match text {
        Some(t) => Some(t@),
        None => None,
    }
}

/// Whether a key was given and is not empty.
pub open spec fn has_credential(api_key: Option<Seq<char>>) -> bool {
    api_key matches Some(key) && key.len() > 0
}

/// The backend of a run.
#[derive(Debug, PartialEq, Eq)]
pub enum Backend {
    /// The model server on this machine.
    Local(OllamaService),
    /// The hosted model.
    Hosted(GeminiService),
}

/// A [`Backend`] as plain values: the model that the local backend asks, or
/// the key that the hosted backend holds.
pub ghost enum BackendView {
    Local { model: Seq<char> },
    Hosted { api_key: Option<Seq<char>> },
}

impl View for Backend {
    type V = BackendView;

    open spec fn view(&self) -> BackendView {
        match self {
            Backend::Local(service) => BackendView::Local { model: service@ },
            Backend::Hosted(service) => BackendView::Hosted { api_key: service@ },
        }
    }
}

/// The backend for the given API key and configured model: the hosted one
/// exactly when a key is given and not empty, else the local one, which asks
/// the configured model or, where none is configured, the default one.
pub open spec fn selected(api_key: Option<Seq<char>>, model: Option<Seq<char>>) -> BackendView {
    if has_credential(api_key) {
        BackendView::Hosted { api_key }
    } else {
        BackendView::Local { model: model_or_default(model) }
    }
}

/// Picks the backend of a run.
pub fn select_backend(api_key: Option<String>, model: Option<String>) -> (backend: Backend)
    ensures
        backend@ == selected(text_view(api_key), text_view(model)),
        backend is Hosted <==> has_credential(text_view(api_key)),
        api_key is None ==> backend is Local,
{
    let hosted = match &api_key {
        Some(key) => !key.as_str().is_empty(),
        None => false,
    };
    if hosted {
        Backend::Hosted(GeminiService::new(api_key))
    } else {
        Backend::Local(OllamaService::new(model))
    }
}

/// How a run ends.
#[derive(Debug, PartialEq, Eq)]
pub enum Outcome {
    /// There was no diff: nothing was asked.
    NoInput,
    /// The backend answered; the message is its answer, trimmed.
    Message { text: String },
    /// The backend failed.
    Failed { error: GenerationError },
}

/// An [`Outcome`] as plain values.
pub ghost enum OutcomeView {
    NoInput,
    Message { text: Seq<char> },
    Failed { error: GenerationErrorView },
}

impl View for Outcome {
    type V = OutcomeView;

    open spec fn view(&self) -> OutcomeView {
        match self {
            Outcome::NoInput => OutcomeView::NoInput,
            Outcome::Message { text } => OutcomeView::Message { text: text@ },
            Outcome::Failed { error } => OutcomeView::Failed { error: error@ },
        }
    }
}

impl OutcomeView {
    /// The status that the process exits with: zero unless the backend
    /// failed.
    pub open spec fn exit_code(self) -> u8 {
        match self {
            OutcomeView::Failed { .. } => 1,
            _ => 0,
        }
    }

    /// What goes to standard output: the message, if there is one.
    pub open spec fn stdout(self) -> Option<Seq<char>> {
        match self {
            OutcomeView::Message { text } => Some(text),
            _ => None,
        }
    }

    /// The lines that go to standard error.
    pub open spec fn stderr(self) -> Seq<Seq<char>> {
        match self {
            OutcomeView::NoInput => seq![NO_INPUT@],
            OutcomeView::Message { .. } => seq![],
            OutcomeView::Failed { error } => error.diagnostics,
        }
    }
}

impl Outcome {
    /// The status that the process exits with.
    pub fn exit_code(&self) -> (code: u8)
        ensures
            code == self@.exit_code(),
    {
        match self {
            Outcome::Failed { .. } => 1,
            _ => 0,
        }
    }

    /// What goes to standard output, if anything does.
    pub fn stdout(&self) -> (line: Option<&str>)
        ensures
            match line {
                Some(l) => self@.stdout() == Some(l@),
                None => self@.stdout() is None,
            },
    {
        match self {
            Outcome::Message { text } => Some(text.as_str()),
            _ => None,
        }
    }

    /// The lines that go to standard error.
    pub fn stderr(&self) -> (lines: Vec<String>)
        ensures
            lines_view(lines@) == self@.stderr(),
    {
        let mut lines: Vec<String> = Vec::new();
        match self {
            Outcome::NoInput => {
                lines.push(String::from_str(NO_INPUT));
            },
            Outcome::Message { .. } => {},
            Outcome::Failed { error } => {
                let n: usize = error.diagnostics.len();
                let mut i: usize = 0;
                while i < n
                    invariant
                        n == error.diagnostics@.len(),
                        i <= n,
                        lines@.len() == i,
                        forall|j: int| 0 <= j < i ==> lines@[j]@ == error.diagnostics@[j]@,
                    decreases n - i,
                {
                    lines.push(error.diagnostics[i].clone());
                    i = i + 1;
                }
            },
        }
        proof {
            assert(lines_view(lines@) =~= self@.stderr());
        }
        lines
    }
}

/// What a run does first.
#[derive(Debug, PartialEq, Eq)]
pub enum Plan {
    /// Nothing is asked; the run ends at once.
    Stop(Outcome),
    /// The backend is asked with this prompt.
    Generate { backend: Backend, prompt: String },
}

/// A [`Plan`] as plain values.
pub ghost enum PlanView {
    Stop(OutcomeView),
    Generate { backend: BackendView, prompt: Seq<char> },
}

impl View for Plan {
    type V = PlanView;

    open spec fn view(&self) -> PlanView {
        match self {
            Plan::Stop(outcome) => PlanView::Stop(outcome@),
            Plan::Generate { backend, prompt } => PlanView::Generate {
                backend: backend@,
                prompt: prompt@,
            },
        }
    }
}

/// What a run does with what it read. Blank input ends the run at once, with
/// no backend picked. Any other input is put into a prompt as it is, for the
/// backend that [`selected`] names.
pub open spec fn planned(
    input: Seq<char>,
    api_key: Option<Seq<char>>,
    model: Option<Seq<char>>,
) -> PlanView {
    if is_blank(input) {
        PlanView::Stop(OutcomeView::NoInput)
    } else {
        PlanView::Generate { backend: selected(api_key, model), prompt: prompt_text(input) }
    }
}

/// Decides what a run does with the text of standard input, the API key of
/// the hosted backend and the configured local model.
pub fn begin(input: &str, api_key: Option<String>, model: Option<String>) -> (plan: Plan)
    ensures
        plan@ == planned(input@, text_view(api_key), text_view(model)),
        plan is Stop <==> is_blank(input@),
{
    if blank(input) {
        Plan::Stop(Outcome::NoInput)
    } else {
        let prompt = create_commit_message_prompt(input);
        Plan::Generate { backend: select_backend(api_key, model), prompt }
    }
}

/// What the run makes of the backend's result: its answer becomes the
/// message, with the white space at both ends cut away and nothing else
/// changed; its error is kept as it is.
pub open spec fn finished(result: Result<Seq<char>, GenerationErrorView>) -> OutcomeView {
    match result {
        Ok(text) => OutcomeView::Message { text: trimmed(text) },
        Err(error) => OutcomeView::Failed { error },
    }
}

/// Ends a run with the result of the backend.
pub fn finish(result: Result<String, GenerationError>) -> (outcome: Outcome)
    ensures
        outcome@ == finished(
            match result {
                Ok(text) => Ok(text@),
                Err(error) => Err(error@),
            },
        ),
{
    match result {
        Ok(text) => Outcome::Message { text: String::from_str(trim(text.as_str())) },
        Err(error) => Outcome::Failed { error },
    }
}

/// Ends a generation and the run with the decoded body of the response, or
/// with the description of why it could not be decoded. What is printed is
/// the text that the response carries, trimmed.
pub fn complete<S: LlmService>(service: &S, body: Result<S::Response, String>) -> (outcome: Outcome)
    requires
        body matches Ok(response) ==> S::answer(&response) is Some,
    ensures
        body matches Ok(response) ==> outcome@ == (OutcomeView::Message {
            text: trimmed(S::answer(&response).unwrap()),
        }),
        body matches Err(reason) ==> outcome@ is Failed,
{
    finish(service.conclude(body))
}

/// Blank input is no error and no work: whatever the key and the model, the
/// run ends at once with status zero, nothing on standard output and one
/// line on standard error.
pub proof fn lemma_blank_input_ends_quietly(
    input: Seq<char>,
    api_key: Option<Seq<char>>,
    model: Option<Seq<char>>,
)
    requires
        is_blank(input),
    ensures
        planned(input, api_key, model) == PlanView::Stop(OutcomeView::NoInput),
        OutcomeView::NoInput.exit_code() == 0,
        OutcomeView::NoInput.stdout() is None,
        OutcomeView::NoInput.stderr() == seq![NO_INPUT@],
{
}

/// Without an API key the local backend is picked, and with a key that is
/// not empty the hosted one, whatever model is configured.
pub proof fn lemma_key_decides_backend(api_key: Option<Seq<char>>, model: Option<Seq<char>>)
    ensures
        api_key is None ==> selected(api_key, model) is Local,
        has_credential(api_key) ==> selected(api_key, model) == (BackendView::Hosted { api_key }),
        selected(api_key, model) is Hosted <==> has_credential(api_key),
{
}

/// The message that is printed is the answer of the backend with the white
/// space at its ends cut away: a contiguous part of the answer, with every
/// character between its ends as the backend gave it. A failure prints
/// nothing on standard output and ends the run with a status other than
/// zero.
pub proof fn lemma_answer_is_only_trimmed(answer: Seq<char>, error: GenerationErrorView)
    ensures
        finished(Ok(answer)).stdout() == Some(trimmed(answer)),
        finished(Ok(answer)).exit_code() == 0,
        finished(Ok(answer)).stderr().len() == 0,
        has_substring(answer, trimmed(answer)),
        !is_blank(answer) ==> trimmed(answer) == answer.subrange(
            trim_start(answer),
            trim_end(answer),
        ),
        is_blank(answer) ==> trimmed(answer).len() == 0,
        finished(Err(error)).stdout() is None,
        finished(Err(error)).exit_code() != 0,
        finished(Err(error)).stderr() == error.diagnostics,
{
    lemma_trim_bounds(answer);
    lemma_blank_iff_trimmed_empty(answer);
    let kept = trimmed(answer);
    if trim_start(answer) < trim_end(answer) {
        assert(occurs_at(answer, kept, trim_start(answer)));
    } else {
        assert(answer.subrange(0, 0) =~= kept);
        assert(occurs_at(answer, kept, 0));
    }
}

} // verus!
