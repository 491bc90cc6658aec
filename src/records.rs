use vstd::prelude::*;

use crate::sampling::Real;

verus! {

/// The items of one page of a listing.
#[derive(Debug)]
pub struct Container<T> {
    /// Items in the page's results
    pub data: Vec<T>,
}

impl<T> Container<T> {
    /// The page's items, in the order the service listed them.
    pub fn into_items(self) -> (r: Vec<T>)
        ensures
            r@ == self.data@,
    {
        self.data
    }
}

/// Detailed information on a particular model.
#[derive(Debug, Clone)]
pub struct ModelInfo {
    /// The name of the model, e.g. `"davinci"` or `"ada"`
    pub id: String,
    /// The owner of the model. Usually `"openai"`
    pub owned_by: String,
    /// Usually `"model"`
    pub object: String,
}

impl ModelInfo {
    /// The record made of these three fields.
    pub fn new(id: String, owned_by: String, object: String) -> (r: ModelInfo)
        ensures
            r.id == id,
            r.owned_by == owned_by,
            r.object == object,
    {
        ModelInfo { id, owned_by, object }
    }
}

impl View for ModelInfo {
    /// `(id, owned_by, object)`
    type V = (Seq<char>, Seq<char>, Seq<char>);

    open spec fn view(&self) -> (Seq<char>, Seq<char>, Seq<char>) {
        (self.id@, self.owned_by@, self.object@)
    }
}

impl PartialEq for ModelInfo {
    fn eq(&self, other: &ModelInfo) -> (r: bool) {
        self.id == other.id && self.owned_by == other.owned_by && self.object == other.object
    }
}

impl vstd::std_specs::cmp::PartialEqSpecImpl for ModelInfo {
    open spec fn obeys_eq_spec() -> bool {
        true
    }

    open spec fn eq_spec(&self, other: &ModelInfo) -> bool {
        self@ == other@
    }
}

impl Eq for ModelInfo {}

/// Represents a non-streamed completion response
#[derive(Debug, Clone)]
pub struct Completion {
    /// Completion unique identifier
    pub id: String,
    /// Unix timestamp when the completion was generated
    pub created: u64,
    /// Exact model type and version used for the completion
    pub model: String,
    /// List of completions generated by the model
    pub choices: Vec<Choice>,
}

impl Completion {
    /// The text of the first choice, which is how a completion reads.
    pub fn to_text(&self) -> (r: String)
        requires
            self.choices@.len() > 0,
        ensures
            r@ == self.choices@[0].text@,
    {
        self.choices[0].to_text()
    }
}

/// A single completion result
#[derive(Debug, Clone)]
pub struct Choice {
    /// The text of the completion. Will contain the prompt if echo is true.
    pub text: String,
    /// Offset in the result where the completion began. Useful if using echo.
    pub index: u64,
    /// If requested, the log probabilities of the completion tokens
    pub logprobs: Option<LogProbs>,
    /// Why the completion ended when it did
    pub finish_reason: String,
}

impl Choice {
    /// The completion's text.
    pub fn to_text(&self) -> (r: String)
        ensures
            r@ == self.text@,
    {
        self.text.clone()
    }
}

/// Represents a logprobs subdocument
#[derive(Debug, Clone)]
pub struct LogProbs {
    pub tokens: Vec<String>,
    pub token_logprobs: Vec<Option<Real>>,
    /// For each position, the most likely tokens with their log probabilities.
    pub top_logprobs: Vec<Option<Vec<(String, Real)>>>,
    pub text_offset: Vec<u64>,
}

/// An error reported by the service, as the client surfaces it: the service's
/// message and the HTTP status that the reply came with.
#[derive(Debug, Clone)]
pub struct ErrorMessage {
    pub message: String,
    pub status_code: String,
}

/// The text that describes a service error.
pub open spec fn error_text(status_code: Seq<char>, message: Seq<char>) -> Seq<char> {
    "err code: "@ + status_code + ", err msg: "@ + message + ")"@
}

impl ErrorMessage {
    /// A human-readable line holding the status and the service's message.
    pub fn to_text(&self) -> (r: String)
        ensures
            r@ == error_text(self.status_code@, self.message@),
    {
        let mut r = String::from_str("err code: ");
        r.append(self.status_code.as_str());
        r.append(", err msg: ");
        r.append(self.message.as_str());
        r.append(")");
        r
    }
}

impl View for ErrorMessage {
    /// `(message, status_code)`
    type V = (Seq<char>, Seq<char>);

    open spec fn view(&self) -> (Seq<char>, Seq<char>) {
        (self.message@, self.status_code@)
    }
}

impl PartialEq for ErrorMessage {
    fn eq(&self, other: &ErrorMessage) -> (r: bool) {
        self.message == other.message && self.status_code == other.status_code
    }
}

impl vstd::std_specs::cmp::PartialEqSpecImpl for ErrorMessage {
    open spec fn obeys_eq_spec() -> bool {
        true
    }

    open spec fn eq_spec(&self, other: &ErrorMessage) -> bool {
        self@ == other@
    }
}

impl Eq for ErrorMessage {}

/// The error object inside a failure reply's body, as the service sends it:
/// its message, and a code of its own that may be absent.
#[derive(Debug, Clone)]
pub struct ErrorBody {
    pub message: String,
    pub code: Option<String>,
}

/// The envelope of a failure reply's body: `{ "error": ... }`.
#[derive(Debug, Clone)]
pub struct ErrorWrapper {
    pub error: ErrorBody,
}

} // verus!
