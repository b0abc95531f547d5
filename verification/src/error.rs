//! The ways in which a quote request can fail.

use vstd::prelude::*;
use vstd::string::*;

verus! {

/// The closed set of failure kinds of a quote request.
#[derive(Debug, Clone, Copy, PartialEq, Eq, Structural)]
pub enum QuoteErrorKind {
    /// The pricing service could not be reached.
    TransportFailure,
    /// The body of the reply is not JSON of the expected structure.
    MalformedResponse,
    /// The body is well formed, but an expected key is not in it.
    MissingField,
    /// The price is there, but it is no decimal number.
    UnparseablePrice,
    /// The 24-hour change is there, but it is no number.
    UnparseableChange,
    /// A fallback for states that should not be reached.
    Internal,
}

/// A failed quote request: its kind, with a detail for the log.
#[derive(Debug, Clone, PartialEq, Eq)]
pub enum QuoteRequestError {
    /// The pricing service could not be reached.
    HttpRequest(String),
    /// The body of the reply is not JSON, or not a JSON object.
    JsonParse(String),
    /// An expected key is missing from the reply.
    MissingField(String),
    /// The price is no decimal number.
    ParseBigDecimal(String),
    /// The 24-hour change is no number.
    ParseChange(String),
    /// Anything else; the fallback for states that should not be reached.
    Other(String),
}

/// What an error holds: its kind and its detail.
pub struct ErrorView {
    pub kind: QuoteErrorKind,
    pub detail: Seq<char>,
}

impl View for QuoteRequestError {
    type V = ErrorView;

    open spec fn view(&self) -> ErrorView {
        ErrorView { kind: self.spec_kind(), detail: self.detail() }
    }
}

impl QuoteRequestError {
    /// The kind of this error.
    pub open spec fn spec_kind(&self) -> QuoteErrorKind {
        match self {
            QuoteRequestError::HttpRequest(_) => QuoteErrorKind::TransportFailure,
            QuoteRequestError::JsonParse(_) => QuoteErrorKind::MalformedResponse,
            QuoteRequestError::MissingField(_) => QuoteErrorKind::MissingField,
            QuoteRequestError::ParseBigDecimal(_) => QuoteErrorKind::UnparseablePrice,
            QuoteRequestError::ParseChange(_) => QuoteErrorKind::UnparseableChange,
            QuoteRequestError::Other(_) => QuoteErrorKind::Internal,
        }
    }

    /// The detail that the error carries.
    pub open spec fn detail(&self) -> Seq<char> {
        match self {
            QuoteRequestError::HttpRequest(d) => d@,
            QuoteRequestError::JsonParse(d) => d@,
            QuoteRequestError::MissingField(d) => d@,
            QuoteRequestError::ParseBigDecimal(d) => d@,
            QuoteRequestError::ParseChange(d) => d@,
            QuoteRequestError::Other(d) => d@,
        }
    }

    /// The words that a message of this kind begins with.
    pub open spec fn prefix(kind: QuoteErrorKind) -> Seq<char> {
        match kind {
            QuoteErrorKind::TransportFailure => "HTTP Request Error: "@,
            QuoteErrorKind::MalformedResponse => "JSON Parse Error: "@,
            QuoteErrorKind::UnparseablePrice => "BigDecimal Parse Error: "@,
            _ => "Other Error: "@,
        }
    }

    /// The message of this error: the prefix of its kind, then its detail.
    pub open spec fn spec_message(&self) -> Seq<char> {
        Self::prefix(self.spec_kind()) + self.detail()
    }

    /// The kind of this error.
    #[verifier::when_used_as_spec(spec_kind)]
    pub fn kind(&self) -> (kind: QuoteErrorKind)
        ensures
            kind == self.spec_kind(),
    {
        match self {
            QuoteRequestError::HttpRequest(_) => QuoteErrorKind::TransportFailure,
            QuoteRequestError::JsonParse(_) => QuoteErrorKind::MalformedResponse,
            QuoteRequestError::MissingField(_) => QuoteErrorKind::MissingField,
            QuoteRequestError::ParseBigDecimal(_) => QuoteErrorKind::UnparseablePrice,
            QuoteRequestError::ParseChange(_) => QuoteErrorKind::UnparseableChange,
            QuoteRequestError::Other(_) => QuoteErrorKind::Internal,
        }
    }

    /// The message of this error, as it is logged.
    pub fn message(&self) -> (text: String)
        ensures
            text@ == self.spec_message(),
    {
        match self {
            QuoteRequestError::HttpRequest(d) => String::from_str("HTTP Request Error: ").concat(
                d.as_str(),
            ),
            QuoteRequestError::JsonParse(d) => String::from_str("JSON Parse Error: ").concat(
                d.as_str(),
            ),
            QuoteRequestError::ParseBigDecimal(d) => String::from_str(
                "BigDecimal Parse Error: ",
            ).concat(d.as_str()),
            QuoteRequestError::MissingField(d) => String::from_str("Other Error: ").concat(
                d.as_str(),
            ),
            QuoteRequestError::ParseChange(d) => String::from_str("Other Error: ").concat(
                d.as_str(),
            ),
            QuoteRequestError::Other(d) => String::from_str("Other Error: ").concat(d.as_str()),
        }
    }
}

} // verus!
