use vstd::prelude::*;

verus! {

/// Why lowering an AST JSON document failed.
#[derive(Clone, Debug, PartialEq, Eq)]
pub enum Error {
    /// A node lacks a field that its kind requires.
    MissingField { field: &'static str, context: String },
    /// A node has another kind than the one expected at its place.
    UnexpectedKind { expected: &'static str, actual: Option<String> },
    /// The text is not a JSON document; the parser's description of why.
    Json(String),
    /// Any other failure, described in words.
    Message(String),
}

/// The model of an [`Error`]: its texts as character sequences.
pub enum SpecError {
    MissingField { field: Seq<char>, context: Seq<char> },
    UnexpectedKind { expected: Seq<char>, actual: Option<Seq<char>> },
    Json(Seq<char>),
    Message(Seq<char>),
}

impl View for Error {
    type V = SpecError;

    open spec fn view(&self) -> SpecError {
        match self {
            Error::MissingField { field, context } => SpecError::MissingField {
                field: field@,
                context: context@,
            },
            Error::UnexpectedKind { expected, actual } => SpecError::UnexpectedKind {
                expected: expected@,
                actual: match actual {
                    Some(a) => Some(a@),
                    None => None,
                },
            },
            Error::Json(m) => SpecError::Json(m@),
            Error::Message(m) => SpecError::Message(m@),
        }
    }
}

/// The result of a fallible lowering step.
pub type Result<T> = core::result::Result<T, Error>;

/// The model of a lowering result.
pub type SpecResult<T> = core::result::Result<T, SpecError>;

/// The model of a result whose value has a view.
pub open spec fn res_view<T: View>(r: Result<T>) -> SpecResult<T::V> {
    match r {
        Ok(t) => Ok(t@),
        Err(e) => Err(e@),
    }
}

/// The text that `{:?}` gives for a string: quoted, with escapes.
pub uninterp spec fn debug_text(s: Seq<char>) -> Seq<char>;

/// Formats a string the way `{:?}` does.
///
/// Trusted: the body is `format!("{:?}", s)`; the contract claims only that the
/// result depends on the characters of `s` alone, which it names `debug_text`.
#[verifier::external_body]
fn debug_string(s: &str) -> (r: String)
    ensures
        r@ == debug_text(s@),
{
    format!("{:?}", s)
}

/// The message that describes an error, as the error's `Display` writes it.
pub open spec fn error_message(e: SpecError) -> Seq<char> {
    match e {
        SpecError::MissingField { field, context } => "missing field `"@ + field
            + "` while lowering "@ + context,
        SpecError::UnexpectedKind { expected, actual } => "expected kind `"@ + expected
            + "`, got "@ + match actual {
            Some(a) => "Some("@ + debug_text(a) + ")"@,
            None => "None"@,
        },
        SpecError::Json(m) => "JSON error: "@ + m,
        SpecError::Message(m) => m,
    }
}

impl Error {
    /// The human-readable message of this error.
    pub fn message(&self) -> (r: String)
        ensures
            r@ == error_message(self@),
    {
        match self {
            Error::MissingField { field, context } => {
                let mut r = String::from_str("missing field `");
                r.append(field);
                r.append("` while lowering ");
                r.append(context.as_str());
                r
            },
            Error::UnexpectedKind { expected, actual } => {
                let mut r = String::from_str("expected kind `");
                r.append(expected);
                r.append("`, got ");
                match actual {
                    Some(a) => {
                        r.append("Some(");
                        let d = debug_string(a.as_str());
                        r.append(d.as_str());
                        r.append(")");
                    },
                    None => {
                        r.append("None");
                    },
                }
                r
            },
            Error::Json(m) => {
                let mut r = String::from_str("JSON error: ");
                r.append(m.as_str());
                r
            },
            Error::Message(m) => m.clone(),
        }
    }
}

/// A missing-field error for `field` of a node met while lowering `context`.
pub fn missing(field: &'static str, context: &str) -> (e: Error)
    ensures
        e@ == (SpecError::MissingField { field: field@, context: context@ }),
{
    Error::MissingField { field, context: context.to_owned() }
}

} // verus!
