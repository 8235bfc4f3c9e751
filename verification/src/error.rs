//! The failures of an encoding.

use crate::types::{field_text, type_text, Field, FieldView, Type, TypeView};
use vstd::prelude::*;
use vstd::std_specs::convert::FromSpecImpl;

verus! {

/// The error of a write to a byte sink, `std::io::Error`, carried as an
/// opaque value.
#[verifier::external_type_specification]
#[verifier::external_body]
pub struct ExIoError(std::io::Error);

/// The error of a formatted write, `std::fmt::Error`, carried as an opaque
/// value.
#[verifier::external_type_specification]
#[verifier::external_body]
pub struct ExFmtError(std::fmt::Error);

/// Why an encoding failed.
#[derive(Debug)]
pub enum Error {
    /// A failure reported in words by whoever drives the encoder.
    Message(String),
    /// The sink that receives the literal refused a write.
    IOError(std::io::Error),
    /// A formatted write failed.
    FormattingError(std::fmt::Error),
    /// The value has no literal form.
    UnsupportedType,
    /// A struct literal would have had no member.
    EmptyStruct,
    /// A value of this type was offered as a name.
    InvalidIdentifierType(Type),
    /// A value of type `found` stands where the earlier elements of its
    /// array call for `expected`.
    UnexpectedType { expected: Type, found: Type },
    /// A struct has a member for which the shape of the earlier elements of
    /// its array has no room.
    UnexpectedStructField(Field),
    /// A struct names the same out-of-order member twice.
    DuplicateStructField(String),
}

/// The mathematical value of an [`Error`]. The two errors that come from
/// outside the encoder are told apart, and nothing more is said of them.
pub enum ErrorView {
    Message(Seq<char>),
    IOError,
    FormattingError,
    UnsupportedType,
    EmptyStruct,
    InvalidIdentifierType(TypeView),
    UnexpectedType { expected: TypeView, found: TypeView },
    UnexpectedStructField(FieldView),
    DuplicateStructField(Seq<char>),
}

impl View for Error {
    type V = ErrorView;

    open spec fn view(&self) -> ErrorView {
        match *self {
            Error::Message(msg) => ErrorView::Message(msg@),
            Error::IOError(_) => ErrorView::IOError,
            Error::FormattingError(_) => ErrorView::FormattingError,
            Error::UnsupportedType => ErrorView::UnsupportedType,
            Error::EmptyStruct => ErrorView::EmptyStruct,
            Error::InvalidIdentifierType(t) => ErrorView::InvalidIdentifierType(t@),
            Error::UnexpectedType { expected, found } => ErrorView::UnexpectedType {
                expected: expected@,
                found: found@,
            },
            Error::UnexpectedStructField(field) => ErrorView::UnexpectedStructField(field@),
            Error::DuplicateStructField(name) => ErrorView::DuplicateStructField(name@),
        }
    }
}

/// The view of the outcome of encoding one value: the type that was
/// inferred, or the failure.
pub open spec fn result_view(r: Result<Type, Error>) -> Result<TypeView, ErrorView> {
    match r {
        Ok(t) => Ok(t@),
        Err(e) => Err(e@),
    }
}

/// Whether `text` begins with `prefix`.
pub open spec fn starts_with(text: Seq<char>, prefix: Seq<char>) -> bool {
    prefix.len() <= text.len() && text.subrange(0, prefix.len() as int) == prefix
}

/// The message of an error, as far as the encoder determines it: for the two
/// errors that come from outside, only how the message begins.
pub open spec fn is_error_text(e: ErrorView, text: Seq<char>) -> bool {
    match e {
        ErrorView::Message(msg) => text == msg,
        ErrorView::IOError => starts_with(text, "I/O error: "@),
        ErrorView::FormattingError => starts_with(text, "Formatting error: "@),
        ErrorView::UnsupportedType => text == "unsupported type"@,
        ErrorView::EmptyStruct => text == "empty struct"@,
        ErrorView::InvalidIdentifierType(t) => text == "invalid identifier type: "@ + type_text(t),
        ErrorView::UnexpectedType { expected, found } => text == "unexpected type: "@ + type_text(
            found,
        ) + " expected: "@ + type_text(expected),
        ErrorView::UnexpectedStructField(field) => text == "unexpected struct field: "@
            + field_text(field),
        ErrorView::DuplicateStructField(name) => text == "duplicate struct field: "@ + name,
    }
}

/// What `std::io::Error` displays. The text depends on the error and, for an
/// error of the operating system, on the machine, so nothing is claimed of
/// it.
#[verifier::external_body]
fn io_error_text(err: &std::io::Error) -> (r: String) {
    format!("{}", err)
}

/// What `std::fmt::Error` displays. Its documentation does not fix the
/// text, so nothing is claimed of it.
#[verifier::external_body]
fn fmt_error_text(err: &std::fmt::Error) -> (r: String) {
    format!("{}", err)
}

impl Error {
    /// The error for a sink that refused a write.
    pub fn io(err: std::io::Error) -> (r: Error)
        ensures
            r == Error::IOError(err),
    {
        Error::IOError(err)
    }

    /// The error for a formatted write that failed.
    pub fn fmt(err: std::fmt::Error) -> (r: Error)
        ensures
            r == Error::FormattingError(err),
    {
        Error::FormattingError(err)
    }

    /// The message of this error.
    pub fn to_string(&self) -> (r: String)
        ensures
            is_error_text(self@, r@),
    {
        match self {
            Error::Message(msg) => msg.clone(),
            Error::IOError(err) => {
                let detail = io_error_text(err);
                let mut out = String::from_str("I/O error: ");
                out.append(detail.as_str());
                assert(out@.subrange(0, "I/O error: "@.len() as int) =~= "I/O error: "@);
                out
            },
            Error::FormattingError(err) => {
                let detail = fmt_error_text(err);
                let mut out = String::from_str("Formatting error: ");
                out.append(detail.as_str());
                assert(out@.subrange(0, "Formatting error: "@.len() as int)
                    =~= "Formatting error: "@);
                out
            },
            Error::UnsupportedType => String::from_str("unsupported type"),
            Error::EmptyStruct => String::from_str("empty struct"),
            Error::InvalidIdentifierType(t) => {
                let mut out = String::from_str("invalid identifier type: ");
                out.append(t.to_string().as_str());
                out
            },
            Error::UnexpectedType { expected, found } => {
                let mut out = String::from_str("unexpected type: ");
                out.append(found.to_string().as_str());
                out.append(" expected: ");
                out.append(expected.to_string().as_str());
                out
            },
            Error::UnexpectedStructField(field) => {
                let mut out = String::from_str("unexpected struct field: ");
                out.append(field.to_string().as_str());
                out
            },
            Error::DuplicateStructField(name) => {
                let mut out = String::from_str("duplicate struct field: ");
                out.append(name.as_str());
                out
            },
        }
    }
}

impl From<std::io::Error> for Error {
    /// The error for a sink that refused a write.
    fn from(err: std::io::Error) -> (r: Error) {
        Error::io(err)
    }
}

impl FromSpecImpl<std::io::Error> for Error {
    open spec fn obeys_from_spec() -> bool {
        true
    }

    open spec fn from_spec(err: std::io::Error) -> Error {
        Error::IOError(err)
    }
}

impl From<std::fmt::Error> for Error {
    /// The error for a formatted write that failed.
    fn from(err: std::fmt::Error) -> (r: Error) {
        Error::fmt(err)
    }
}

impl FromSpecImpl<std::fmt::Error> for Error {
    open spec fn obeys_from_spec() -> bool {
        true
    }

    open spec fn from_spec(err: std::fmt::Error) -> Error {
        Error::FormattingError(err)
    }
}

} // verus!
