//! Decoding failures: one precise, attributable error per failed decode,
//! carrying a dotted field path into nested records.

use vstd::prelude::*;

use crate::value::Kind;

verus! {

/// A decoding failure: the first problem met while walking a document.
#[derive(Debug)]
pub enum DecodeError {
    /// A required field is absent from the document.
    MissingField(String),
    /// A field's wire value has the wrong kind.
    TypeMismatch { field: String, expected: Kind, actual: Kind },
    /// A timestamp field does not match the fixed wire pattern.
    MalformedTimestamp { field: String, raw: String },
    /// A failure inside a nested record, wrapped with the enclosing
    /// field's name so the full dotted path can be reported.
    Nested { field: String, cause: Box<DecodeError> },
}

/// The innermost failure of a decoding error.
pub enum LeafV {
    MissingField(Seq<char>),
    TypeMismatch { field: Seq<char>, expected: Kind, actual: Kind },
    MalformedTimestamp { field: Seq<char>, raw: Seq<char> },
}

/// Mathematical model of a decoding failure: the names of the enclosing
/// record fields, outermost first — the dotted path — and the innermost
/// failure.
pub struct ErrorV {
    pub path: Seq<Seq<char>>,
    pub leaf: LeafV,
}

/// The model of a decoding failure: the dotted path and the innermost
/// failure.
pub open spec fn error_model(e: DecodeError) -> ErrorV
    decreases e,
{
    match e {
        DecodeError::MissingField(f) => ErrorV { path: seq![], leaf: LeafV::MissingField(f@) },
        DecodeError::TypeMismatch { field, expected, actual } => ErrorV {
            path: seq![],
            leaf: LeafV::TypeMismatch { field: field@, expected, actual },
        },
        DecodeError::MalformedTimestamp { field, raw } => ErrorV {
            path: seq![],
            leaf: LeafV::MalformedTimestamp { field: field@, raw: raw@ },
        },
        DecodeError::Nested { field, cause } => ErrorV {
            path: seq![field@] + error_model(*cause).path,
            leaf: error_model(*cause).leaf,
        },
    }
}

impl View for DecodeError {
    type V = ErrorV;

    open spec fn view(&self) -> ErrorV {
        error_model(*self)
    }
}

/// A top-level missing-field error.
pub open spec fn missing_err(name: Seq<char>) -> ErrorV {
    ErrorV { path: seq![], leaf: LeafV::MissingField(name) }
}

/// A top-level kind-mismatch error.
pub open spec fn mismatch_err(field: Seq<char>, expected: Kind, actual: Kind) -> ErrorV {
    ErrorV { path: seq![], leaf: LeafV::TypeMismatch { field, expected, actual } }
}

/// A top-level malformed-timestamp error.
pub open spec fn malformed_err(field: Seq<char>, raw: Seq<char>) -> ErrorV {
    ErrorV { path: seq![], leaf: LeafV::MalformedTimestamp { field, raw } }
}

/// An error wrapped with the name of the enclosing record field.
pub open spec fn nested_err(field: Seq<char>, cause: ErrorV) -> ErrorV {
    ErrorV { path: seq![field] + cause.path, leaf: cause.leaf }
}

/// Build a missing-field error.
pub fn missing_x(name: &str) -> (e: DecodeError)
    ensures
        e@ == missing_err(name@),
{
    let e = DecodeError::MissingField(name.to_owned());
    proof {
        assert(e@.path =~= missing_err(name@).path);
    }
    e
}

/// Build a kind-mismatch error.
pub fn mismatch_x(field: &str, expected: Kind, actual: Kind) -> (e: DecodeError)
    ensures
        e@ == mismatch_err(field@, expected, actual),
{
    let e = DecodeError::TypeMismatch { field: field.to_owned(), expected, actual };
    proof {
        assert(e@.path =~= mismatch_err(field@, expected, actual).path);
    }
    e
}

/// Build a malformed-timestamp error.
pub fn malformed_x(field: &str, raw: &str) -> (e: DecodeError)
    ensures
        e@ == malformed_err(field@, raw@),
{
    let e = DecodeError::MalformedTimestamp { field: field.to_owned(), raw: raw.to_owned() };
    proof {
        assert(e@.path =~= malformed_err(field@, raw@).path);
    }
    e
}

/// Wrap a nested record's error with the enclosing field's name.
pub fn nest_x(field: &str, cause: DecodeError) -> (e: DecodeError)
    ensures
        e@ == nested_err(field@, cause@),
{
    let e = DecodeError::Nested { field: field.to_owned(), cause: Box::new(cause) };
    proof {
        assert(e@.path =~= nested_err(field@, cause@).path);
    }
    e
}

} // verus!
