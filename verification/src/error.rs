//! The one error that a backend can return.

use vstd::prelude::*;

verus! {

/// Where a generation went wrong.
#[derive(Debug, Clone, Copy, PartialEq, Eq, Structural)]
pub enum ErrorKind {
    /// The hosted backend has no API key.
    MissingCredential,
    /// No connection to the server could be made.
    Connection,
    /// The request could not be sent for another reason.
    Request,
    /// The server does not know the model that was asked for.
    ModelNotFound,
    /// The server answered with a status outside the successful ones.
    Status,
    /// The body of the answer could not be read as the expected record.
    Parse,
}

/// A failed generation: what kind of failure, the message that describes
/// it, and the lines that explain it to the user on standard error.
#[derive(Debug, PartialEq, Eq)]
pub struct GenerationError {
    pub kind: ErrorKind,
    pub message: String,
    pub diagnostics: Vec<String>,
}

/// A [`GenerationError`] as plain values.
pub ghost struct GenerationErrorView {
    pub kind: ErrorKind,
    pub message: Seq<char>,
    pub diagnostics: Seq<Seq<char>>,
}

/// The characters of each line, in order.
pub open spec fn lines_view(lines: Seq<String>) -> Seq<Seq<char>> {
    lines.map_values(|line: String| line@)
}

impl View for GenerationError {
    type V = GenerationErrorView;

    open spec fn view(&self) -> GenerationErrorView {
        GenerationErrorView {
            kind: self.kind,
            message: self.message@,
            diagnostics: lines_view(self.diagnostics@),
        }
    }
}

impl GenerationError {
    /// An error with one line of explanation.
    pub fn with_line(kind: ErrorKind, message: String, line: String) -> (error: GenerationError)
        ensures
            error@ == (GenerationErrorView {
                kind,
                message: message@,
                diagnostics: seq![line@],
            }),
    {
        let mut diagnostics: Vec<String> = Vec::new();
        diagnostics.push(line);
        proof {
            assert(lines_view(diagnostics@) =~= seq![line@]);
        }
        GenerationError { kind, message, diagnostics }
    }
}

} // verus!
