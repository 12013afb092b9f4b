//! Error taxonomy, message rendering and the integer codes that cross the boundary.
use vstd::prelude::*;
use vstd::string::StringExecFns;

verus! {

/// Integer result returned to the guest. Open-ended: new codes may appear.
#[derive(Clone, Copy, Debug, PartialEq, Eq, Structural)]
#[non_exhaustive]
pub enum ErrorCode {
    Success,
    InvalidArguments,
    ResourceExhausted,
    NotFound,
}

impl ErrorCode {
    pub open spec fn spec_value(self) -> u32 {
        match self {
            ErrorCode::Success => 0,
            ErrorCode::InvalidArguments => 1,
            ErrorCode::ResourceExhausted => 2,
            ErrorCode::NotFound => 6,
        }
    }

    /// The integer the guest sees for this code.
    pub fn value(self) -> (r: u32)
        ensures
            r == self.spec_value(),
    {
        match self {
            ErrorCode::Success => 0,
            ErrorCode::InvalidArguments => 1,
            ErrorCode::ResourceExhausted => 2,
            ErrorCode::NotFound => 6,
        }
    }
}

/// What went wrong, independent of the message attached to it.
#[derive(Clone, Copy, Debug, PartialEq, Eq, Structural)]
pub enum ApiErrorKind {
    /// A malformed pointer, length, size overflow or invalid text from the guest.
    InvalidArguments,
    /// The host has no room left for another outstanding operation.
    ResourceExhausted,
    /// A benign negative result of a lookup.
    NotFound,
}

impl ApiErrorKind {
    pub open spec fn spec_code(self) -> ErrorCode {
        match self {
            ApiErrorKind::InvalidArguments => ErrorCode::InvalidArguments,
            ApiErrorKind::ResourceExhausted => ErrorCode::ResourceExhausted,
            ApiErrorKind::NotFound => ErrorCode::NotFound,
        }
    }

    pub open spec fn spec_label(self) -> Seq<char> {
        match self {
            ApiErrorKind::InvalidArguments => "invalid arguments"@,
            ApiErrorKind::ResourceExhausted => "resource exhausted"@,
            ApiErrorKind::NotFound => "not found"@,
        }
    }

    /// Human-readable name of the kind.
    pub fn label(self) -> (r: &'static str)
        ensures
            r@ == self.spec_label(),
    {
        match self {
            ApiErrorKind::InvalidArguments => "invalid arguments",
            ApiErrorKind::ResourceExhausted => "resource exhausted",
            ApiErrorKind::NotFound => "not found",
        }
    }
}

/// Optional text attached to an error.
#[derive(Debug, Clone)]
pub enum ApiErrorMessage {
    Empty,
    Static(&'static str),
    Dynamic(String),
}

impl ApiErrorMessage {
    pub open spec fn spec_text(&self) -> Seq<char> {
        match self {
            ApiErrorMessage::Empty => Seq::empty(),
            ApiErrorMessage::Static(s) => s@,
            ApiErrorMessage::Dynamic(s) => s@,
        }
    }

    /// The attached text, empty when there is none.
    pub fn text(&self) -> (r: &str)
        ensures
            r@ == self.spec_text(),
    {
        match self {
            ApiErrorMessage::Empty => {
                proof {
                    reveal_strlit("");
                }
                ""
            },
            ApiErrorMessage::Static(s) => s,
            ApiErrorMessage::Dynamic(s) => s.as_str(),
        }
    }
}

impl From<&'static str> for ApiErrorMessage {
    fn from(s: &'static str) -> (r: ApiErrorMessage) {
        if s.is_empty() {
            ApiErrorMessage::Empty
        } else {
            ApiErrorMessage::Static(s)
        }
    }
}

impl vstd::std_specs::convert::FromSpecImpl<&'static str> for ApiErrorMessage {
    open spec fn obeys_from_spec() -> bool {
        true
    }

    open spec fn from_spec(s: &'static str) -> ApiErrorMessage {
        if s@.len() == 0 {
            ApiErrorMessage::Empty
        } else {
            ApiErrorMessage::Static(s)
        }
    }
}

impl From<String> for ApiErrorMessage {
    fn from(s: String) -> (r: ApiErrorMessage) {
        ApiErrorMessage::Dynamic(s)
    }
}

impl vstd::std_specs::convert::FromSpecImpl<String> for ApiErrorMessage {
    open spec fn obeys_from_spec() -> bool {
        true
    }

    open spec fn from_spec(s: String) -> ApiErrorMessage {
        ApiErrorMessage::Dynamic(s)
    }
}

/// The text of a message with an outer context placed in front of it.
pub open spec fn chained(outer: Seq<char>, inner: Seq<char>) -> Seq<char> {
    if inner.len() == 0 {
        outer
    } else {
        outer + " -> "@ + inner
    }
}

/// A host-side error. Only its code ever reaches the guest.
#[derive(Debug, Clone)]
pub struct ApiError {
    pub kind: ApiErrorKind,
    pub message: ApiErrorMessage,
}

impl ApiError {
    pub open spec fn spec_code(&self) -> ErrorCode {
        self.kind.spec_code()
    }

    /// The rendered message: the kind's label, then the text if there is any.
    pub open spec fn spec_display(&self) -> Seq<char> {
        let text = self.message.spec_text();
        if text.len() == 0 {
            self.kind.spec_label()
        } else {
            self.kind.spec_label() + ": "@ + text
        }
    }

    pub fn new(kind: ApiErrorKind, message: ApiErrorMessage) -> (r: ApiError)
        ensures
            r.kind == kind,
            r.message == message,
    {
        ApiError { kind, message }
    }

    /// An `InvalidArguments` error with a fixed message.
    pub fn invalid_arguments(message: &'static str) -> (r: ApiError)
        ensures
            r.kind == ApiErrorKind::InvalidArguments,
            r.message.spec_text() == message@,
    {
        ApiError { kind: ApiErrorKind::InvalidArguments, message: ApiErrorMessage::from(message) }
    }

    /// The code this error is reported as.
    pub fn code(&self) -> (r: ErrorCode)
        ensures
            r == self.spec_code(),
    {
        match self.kind {
            ApiErrorKind::InvalidArguments => ErrorCode::InvalidArguments,
            ApiErrorKind::ResourceExhausted => ErrorCode::ResourceExhausted,
            ApiErrorKind::NotFound => ErrorCode::NotFound,
        }
    }

    /// Renders the error for diagnostics.
    pub fn display(&self) -> (r: String)
        ensures
            r@ == self.spec_display(),
    {
        let text = self.message.text();
        let label = String::from_str(self.kind.label());
        if text.is_empty() {
            label
        } else {
            label.concat(": ").concat(text)
        }
    }

    /// Places `outer` in front of this error's text, keeping its kind.
    pub fn context(self, outer: &str) -> (r: ApiError)
        ensures
            r.kind == self.kind,
            r.message.spec_text() == chained(outer@, self.message.spec_text()),
    {
        let inner = self.message.text();
        let text = if inner.is_empty() {
            String::from_str(outer)
        } else {
            String::from_str(outer).concat(" -> ").concat(inner)
        };
        ApiError { kind: self.kind, message: ApiErrorMessage::Dynamic(text) }
    }
}

/// No error kind is reported as success.
pub proof fn lemma_error_code_nonzero(kind: ApiErrorKind)
    ensures
        kind.spec_code().spec_value() != 0,
        kind.spec_code() != ErrorCode::Success,
{
}

} // verus!
