//! Error taxonomy of the engine.
//!
//! Every failure of a document read or write is reported through [`Error`];
//! nothing is swallowed except the deliberate lax skipping of unrecognized
//! elements, which is not an error path.

use vstd::prelude::*;

verus! {

/// Specification-level mirror of [`Error`]: strings become `Seq<char>`.
pub enum ErrorView {
    /// A structural read error: an event of the wrong kind, a wrong or
    /// missing closing tag, or a truncated document, met while reading the
    /// named element.
    UnexpectedElement { element: Seq<char> },
    /// A required child element or attribute was absent.
    RequiredDataMissing { required_field: Seq<char>, element: Seq<char> },
    /// A mutually exclusive slot was filled twice.
    DuplicateElement { element: Seq<char> },
    /// Scalar text that fails conversion, naming the field and the text.
    ValueParse { field: Seq<char>, text: Seq<char> },
    /// The root element's namespace is not the one of the requested version.
    InvalidNamespace { expected: Seq<char>, actual: Seq<char> },
    /// The document is not well-formed at the lexical level; the message
    /// comes from the underlying tokenizer.
    Syntax { message: Seq<char> },
    /// Write direction only: the internal model uses a feature that the
    /// requested schema version cannot represent.
    UnsupportedInVersion { field: Seq<char>, version: Seq<char> },
    /// The underlying writer refused the document.
    WriteFailed { message: Seq<char> },
}

/// A typed error of the engine.  All errors are fatal to the current
/// document read or write.
#[derive(Debug, Clone, PartialEq, Eq)]
pub enum Error {
    /// A structural read error: an event of the wrong kind, a wrong or
    /// missing closing tag, or a truncated document, met while reading the
    /// named element.
    UnexpectedElement { element: String },
    /// A required child element or attribute was absent.
    RequiredDataMissing { required_field: String, element: String },
    /// A mutually exclusive slot was filled twice.
    DuplicateElement { element: String },
    /// Scalar text that fails conversion, naming the field and the text.
    ValueParse { field: String, text: String },
    /// The root element's namespace is not the one of the requested version.
    InvalidNamespace { expected: String, actual: String },
    /// The document is not well-formed at the lexical level; the message
    /// comes from the underlying tokenizer.
    Syntax { message: String },
    /// Write direction only: the internal model uses a feature that the
    /// requested schema version cannot represent.
    UnsupportedInVersion { field: String, version: String },
    /// The underlying writer refused the document.
    WriteFailed { message: String },
}

impl DeepView for Error {
    type V = ErrorView;

    open spec fn deep_view(&self) -> ErrorView {
        match self {
            Error::UnexpectedElement { element } => ErrorView::UnexpectedElement {
                element: element.deep_view(),
            },
            Error::RequiredDataMissing { required_field, element } => {
                ErrorView::RequiredDataMissing {
                    required_field: required_field.deep_view(),
                    element: element.deep_view(),
                }
            },
            Error::DuplicateElement { element } => ErrorView::DuplicateElement {
                element: element.deep_view(),
            },
            Error::ValueParse { field, text } => ErrorView::ValueParse {
                field: field.deep_view(),
                text: text.deep_view(),
            },
            Error::InvalidNamespace { expected, actual } => ErrorView::InvalidNamespace {
                expected: expected.deep_view(),
                actual: actual.deep_view(),
            },
            Error::Syntax { message } => ErrorView::Syntax { message: message.deep_view() },
            Error::UnsupportedInVersion { field, version } => ErrorView::UnsupportedInVersion {
                field: field.deep_view(),
                version: version.deep_view(),
            },
            Error::WriteFailed { message } => ErrorView::WriteFailed {
                message: message.deep_view(),
            },
        }
    }
}

} // verus!
