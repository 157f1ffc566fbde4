//! The records that travel to and from the two backends.
//!
//! Each record is viewed as the text it carries: a string as its characters,
//! a list as the sequence of its items' views.

use vstd::prelude::*;
use vstd::string::*;

verus! {

/// What the local model server is asked: which model, which prompt, and
/// whether the answer should arrive in pieces.
#[derive(Debug, PartialEq, Eq)]
pub struct OllamaRequest {
    pub model: String,
    pub prompt: String,
    pub stream: bool,
}

/// An [`OllamaRequest`] as plain values.
pub ghost struct OllamaRequestView {
    pub model: Seq<char>,
    pub prompt: Seq<char>,
    pub stream: bool,
}

impl View for OllamaRequest {
    type V = OllamaRequestView;

    open spec fn view(&self) -> OllamaRequestView {
        OllamaRequestView { model: self.model@, prompt: self.prompt@, stream: self.stream }
    }
}

/// What the local model server answers: the generated text.
#[derive(Debug, PartialEq, Eq)]
pub struct OllamaResponse {
    pub response: String,
}

impl View for OllamaResponse {
    type V = Seq<char>;

    open spec fn view(&self) -> Seq<char> {
        self.response@
    }
}

/// One piece of text.
#[derive(Debug, PartialEq, Eq)]
pub struct Part {
    pub text: String,
}

impl View for Part {
    type V = Seq<char>;

    open spec fn view(&self) -> Seq<char> {
        self.text@
    }
}

/// The texts of a list of parts, in order.
pub open spec fn part_texts(parts: Seq<Part>) -> Seq<Seq<char>> {
    parts.map_values(|p: Part| p@)
}

/// One block of content in a request to the hosted model: a list of parts.
#[derive(Debug, PartialEq, Eq)]
pub struct Contents {
    pub parts: Vec<Part>,
}

impl View for Contents {
    type V = Seq<Seq<char>>;

    open spec fn view(&self) -> Seq<Seq<char>> {
        part_texts(self.parts@)
    }
}

/// What the hosted model is asked: a list of content blocks.
#[derive(Debug, PartialEq, Eq)]
pub struct GeminiRequest {
    pub contents: Vec<Contents>,
}

impl View for GeminiRequest {
    type V = Seq<Seq<Seq<char>>>;

    open spec fn view(&self) -> Seq<Seq<Seq<char>>> {
        self.contents@.map_values(|c: Contents| c@)
    }
}

/// The content of one candidate answer: a list of parts.
#[derive(Debug, PartialEq, Eq)]
pub struct Content {
    pub parts: Vec<Part>,
}

impl View for Content {
    type V = Seq<Seq<char>>;

    open spec fn view(&self) -> Seq<Seq<char>> {
        part_texts(self.parts@)
    }
}

/// One alternative answer of the hosted model.
#[derive(Debug, PartialEq, Eq)]
pub struct Candidate {
    pub content: Content,
}

impl View for Candidate {
    type V = Seq<Seq<char>>;

    open spec fn view(&self) -> Seq<Seq<char>> {
        self.content@
    }
}

/// What the hosted model answers: its candidates, the preferred one first.
#[derive(Debug, PartialEq, Eq)]
pub struct GeminiResponse {
    pub candidates: Vec<Candidate>,
}

impl View for GeminiResponse {
    type V = Seq<Seq<Seq<char>>>;

    open spec fn view(&self) -> Seq<Seq<Seq<char>>> {
        self.candidates@.map_values(|c: Candidate| c@)
    }
}

/// The first text of the first list, where there is one: of a response, the
/// text of the first part of its first candidate.
pub open spec fn first_text(lists: Seq<Seq<Seq<char>>>) -> Option<Seq<char>> {
    if lists.len() > 0 && lists[0].len() > 0 {
        Some(lists[0][0])
    } else {
        None
    }
}

/// The request that carries one prompt: one content block of one part.
pub open spec fn single_prompt(prompt: Seq<char>) -> Seq<Seq<Seq<char>>> {
    seq![seq![prompt]]
}

impl OllamaRequest {
    /// A request for `prompt` to `model`, answered in one piece.
    pub fn new(model: &str, prompt: &str) -> (request: OllamaRequest)
        ensures
            request@ == (OllamaRequestView { model: model@, prompt: prompt@, stream: false }),
    {
        OllamaRequest {
            model: String::from_str(model),
            prompt: String::from_str(prompt),
            stream: false,
        }
    }
}

impl GeminiRequest {
    /// A request that carries `prompt` as its only part.
    pub fn new(prompt: &str) -> (request: GeminiRequest)
        ensures
            request@ == single_prompt(prompt@),
    {
        let mut parts: Vec<Part> = Vec::new();
        parts.push(Part { text: String::from_str(prompt) });
        let mut contents: Vec<Contents> = Vec::new();
        contents.push(Contents { parts });
        let request = GeminiRequest { contents };
        proof {
            assert(request.contents@[0]@ =~= seq![prompt@]);
            assert(request@ =~= single_prompt(prompt@));
        }
        request
    }
}

impl GeminiResponse {
    /// The text of the first part of the first candidate, or `None` where the
    /// answer holds no candidate or its first candidate holds no part.
    pub fn first_text(&self) -> (text: Option<&String>)
        ensures
            text is Some <==> first_text(self@) is Some,
            text matches Some(t) ==> Some(t@) == first_text(self@),
    {
        if self.candidates.len() == 0 {
            return None;
        }
        let parts = &self.candidates[0].content.parts;
        proof {
            assert(self@[0] == self.candidates@[0]@);
            assert(self@[0].len() == parts@.len());
        }
        if parts.len() == 0 {
            return None;
        }
        proof {
            assert(self@[0][0] == parts@[0]@);
        }
        Some(&parts[0].text)
    }
}

} // verus!
