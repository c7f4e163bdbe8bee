use vstd::prelude::*;

use crate::error::{missing, Error, Result, SpecError};
use crate::text::{chars_of, find_char, find_in, text_eq};

verus! {

broadcast use vstd::std_specs::vec::group_vec_axioms;

/// A JSON number, as far as lowering reads it.
#[derive(Clone, Debug, PartialEq, Eq)]
pub enum JsonNumber {
    /// A non-negative integer.
    Unsigned(u64),
    /// A negative integer.
    Negative(i64),
    /// A number written with a fraction or an exponent.
    Real,
}

/// A JSON document: what slang's AST dump holds, as plain values.
#[derive(Debug, PartialEq, Eq)]
pub enum JsonValue {
    Null,
    Bool(bool),
    Number(JsonNumber),
    String(String),
    Array(Vec<JsonValue>),
    /// The members of an object, in order; a key is looked up at its first occurrence.
    Object(Vec<(String, JsonValue)>),
}

/// `i` is the index of the first member of `m` named `key`.
pub open spec fn is_first_key(m: Seq<(String, JsonValue)>, key: Seq<char>, i: int) -> bool {
    &&& 0 <= i < m.len()
    &&& m[i].0@ == key
    &&& forall|k: int| 0 <= k < i ==> m[k].0@ != key
}

/// The value of member `key` of `j`, if `j` is an object with such a member.
pub open spec fn json_get(j: JsonValue, key: Seq<char>) -> Option<JsonValue> {
    match j {
        JsonValue::Object(m) => if exists|i: int| is_first_key(m@, key, i) {
            Some(m@[choose|i: int| is_first_key(m@, key, i)].1)
        } else {
            None
        },
        _ => None,
    }
}

/// The text of `j`, if it is a string.
pub open spec fn json_as_str(j: JsonValue) -> Option<Seq<char>> {
    match j {
        JsonValue::String(s) => Some(s@),
        _ => None,
    }
}

/// The value of `j`, if it is a non-negative integer.
pub open spec fn json_as_u64(j: JsonValue) -> Option<u64> {
    match j {
        JsonValue::Number(JsonNumber::Unsigned(n)) => Some(n),
        _ => None,
    }
}

/// The value of `j`, if it is a boolean.
pub open spec fn json_as_bool(j: JsonValue) -> Option<bool> {
    match j {
        JsonValue::Bool(b) => Some(b),
        _ => None,
    }
}

/// The elements of `j`, if it is an array.
pub open spec fn json_as_array(j: JsonValue) -> Option<Seq<JsonValue>> {
    match j {
        JsonValue::Array(a) => Some(a@),
        _ => None,
    }
}

/// The text of member `field` of `j`, if it is a string.
pub open spec fn field_str(j: JsonValue, field: Seq<char>) -> Option<Seq<char>> {
    match json_get(j, field) {
        Some(v) => json_as_str(v),
        None => None,
    }
}

/// The `kind` of a node.
pub open spec fn node_kind(j: JsonValue) -> Option<Seq<char>> {
    field_str(j, "kind"@)
}

/// The boolean member `field` of `j`, `false` when absent or not a boolean.
pub open spec fn field_flag(j: JsonValue, field: Seq<char>) -> bool {
    match json_get(j, field) {
        Some(v) => match json_as_bool(v) {
            Some(b) => b,
            None => false,
        },
        None => false,
    }
}

/// The boolean member `field` of `j`, if present and a boolean.
pub open spec fn field_bool(j: JsonValue, field: Seq<char>) -> Option<bool> {
    match json_get(j, field) {
        Some(v) => json_as_bool(v),
        None => None,
    }
}

/// The non-negative integer member `field` of `j`, if present and such a number.
pub open spec fn field_u64(j: JsonValue, field: Seq<char>) -> Option<u64> {
    match json_get(j, field) {
        Some(v) => json_as_u64(v),
        None => None,
    }
}

/// The array member `field` of `j`, if present and an array.
pub open spec fn field_array(j: JsonValue, field: Seq<char>) -> Option<Seq<JsonValue>> {
    match json_get(j, field) {
        Some(v) => json_as_array(v),
        None => None,
    }
}

/// A member of a JSON value is smaller than the value.
pub proof fn lemma_get_decreases(j: JsonValue, key: Seq<char>)
    ensures
        json_get(j, key) matches Some(c) ==> decreases_to!(j => c),
{
    if let JsonValue::Object(m) = j {
        if exists|i: int| is_first_key(m@, key, i) {
            let i = choose|i: int| is_first_key(m@, key, i);
            assert(decreases_to!(m => m@[i]));
            assert(decreases_to!(j => m@[i].1));
        }
    }
}

/// The elements of an array member of a JSON value are smaller than the value.
pub proof fn lemma_array_decreases(j: JsonValue, field: Seq<char>)
    ensures
        field_array(j, field) matches Some(a) ==> decreases_to!(j => a),
        field_array(j, field) matches Some(a) ==> forall|i: int|
            0 <= i < a.len() ==> decreases_to!(j => #[trigger] a[i]),
{
    lemma_get_decreases(j, field);
    if let Some(v) = json_get(j, field) {
        if let JsonValue::Array(a) = v {
            assert(decreases_to!(a => a@));
            assert forall|i: int| 0 <= i < a@.len() implies decreases_to!(j => #[trigger] a@[i]) by {
                assert(decreases_to!(a => a@[i]));
            }
        }
    }
}

impl JsonValue {
    /// `serde_json::Value::get` with a key: the member `key` of an object.
    pub fn get(&self, key: &str) -> (r: Option<&JsonValue>)
        ensures
            match r {
                Some(c) => json_get(*self, key@) == Some(*c),
                None => json_get(*self, key@) is None,
            },
    {
        match self {
            JsonValue::Object(m) => {
                let mut i: usize = 0;
                while i < m.len()
                    invariant
                        i <= m.len(),
                        *self == JsonValue::Object(*m),
                        forall|k: int| 0 <= k < i ==> m@[k].0@ != key@,
                    decreases m.len() - i,
                {
                    if text_eq(m[i].0.as_str(), key) {
                        assert(is_first_key(m@, key@, i as int));
                        proof {
                            let j = choose|j: int| is_first_key(m@, key@, j);
                            assert(j == i);
                            assert(json_get(*self, key@) == Some(m@[j].1));

                        }
                        return Some(&m[i].1);
                    }
                    i += 1;
                }
                assert(!exists|k: int| is_first_key(m@, key@, k));
                None
            },
            _ => None,
        }
    }

    /// `serde_json::Value::as_str`.
    pub fn as_str(&self) -> (r: Option<&str>)
        ensures
            match r {
                Some(s) => json_as_str(*self) == Some(s@),
                None => json_as_str(*self) is None,
            },
    {
        match self {
            JsonValue::String(s) => Some(s.as_str()),
            _ => None,
        }
    }

    /// `serde_json::Value::as_u64`.
    pub fn as_u64(&self) -> (r: Option<u64>)
        ensures
            r == json_as_u64(*self),
    {
        match self {
            JsonValue::Number(JsonNumber::Unsigned(n)) => Some(*n),
            _ => None,
        }
    }

    /// `serde_json::Value::as_bool`.
    pub fn as_bool(&self) -> (r: Option<bool>)
        ensures
            r == json_as_bool(*self),
    {
        match self {
            JsonValue::Bool(b) => Some(*b),
            _ => None,
        }
    }

    /// `serde_json::Value::as_array`.
    pub fn as_array(&self) -> (r: Option<&Vec<JsonValue>>)
        ensures
            match r {
                Some(a) => json_as_array(*self) == Some(a@),
                None => json_as_array(*self) is None,
            },
    {
        match self {
            JsonValue::Array(a) => Some(a),
            _ => None,
        }
    }
}

/// The text of member `field` of `value`, if it is a string.
pub fn opt_str<'a>(value: &'a JsonValue, field: &str) -> (r: Option<&'a str>)
    ensures
        match r {
            Some(s) => field_str(*value, field@) == Some(s@),
            None => field_str(*value, field@) is None,
        },
{
    match value.get(field) {
        Some(v) => v.as_str(),
        None => None,
    }
}

/// An owned copy of the text of member `field` of `value`, if it is a string.
pub fn opt_string(value: &JsonValue, field: &str) -> (r: Option<String>)
    ensures
        match r {
            Some(s) => field_str(*value, field@) == Some(s@),
            None => field_str(*value, field@) is None,
        },
{
    match opt_str(value, field) {
        Some(s) => Some(s.to_owned()),
        None => None,
    }
}

/// The `kind` of a node.
pub fn kind(value: &JsonValue) -> (r: Option<&str>)
    ensures
        match r {
            Some(s) => node_kind(*value) == Some(s@),
            None => node_kind(*value) is None,
        },
{
    opt_str(value, "kind")
}

/// Whether the `kind` of a node is `expected`.
pub fn kind_is(value: &JsonValue, expected: &str) -> (r: bool)
    ensures
        r == (node_kind(*value) == Some(expected@)),
{
    match kind(value) {
        Some(k) => text_eq(k, expected),
        None => false,
    }
}

/// The text of a required string member.
pub fn str_field<'a>(value: &'a JsonValue, field: &'static str, context: &str) -> (r: Result<
    &'a str,
>)
    ensures
        match r {
            Ok(s) => field_str(*value, field@) == Some(s@),
            Err(e) => field_str(*value, field@) is None && e@ == (SpecError::MissingField {
                field: field@,
                context: context@,
            }),
        },
{
    match opt_str(value, field) {
        Some(s) => Ok(s),
        None => Err(missing(field, context)),
    }
}

/// The boolean member `field`, `false` when absent.
pub fn bool_field(value: &JsonValue, field: &str) -> (r: bool)
    ensures
        r == field_flag(*value, field@),
{
    match value.get(field) {
        Some(v) => match v.as_bool() {
            Some(b) => b,
            None => false,
        },
        None => false,
    }
}

/// The boolean member `field`, if present.
pub fn opt_bool(value: &JsonValue, field: &str) -> (r: Option<bool>)
    ensures
        r == field_bool(*value, field@),
{
    match value.get(field) {
        Some(v) => v.as_bool(),
        None => None,
    }
}

/// The non-negative integer member `field`, if present.
pub fn opt_u64(value: &JsonValue, field: &str) -> (r: Option<u64>)
    ensures
        r == field_u64(*value, field@),
{
    match value.get(field) {
        Some(v) => v.as_u64(),
        None => None,
    }
}

/// The elements of a required array member.
pub fn array<'a>(value: &'a JsonValue, field: &'static str, context: &str) -> (r: Result<
    &'a Vec<JsonValue>,
>)
    ensures
        match r {
            Ok(a) => field_array(*value, field@) == Some(a@),
            Err(e) => field_array(*value, field@) is None && e@ == (SpecError::MissingField {
                field: field@,
                context: context@,
            }),
        },
{
    match value.get(field) {
        Some(v) => match v.as_array() {
            Some(a) => Ok(a),
            None => Err(missing(field, context)),
        },
        None => Err(missing(field, context)),
    }
}

/// A required member.
pub fn member<'a>(value: &'a JsonValue, field: &'static str, context: &str) -> (r: Result<
    &'a JsonValue,
>)
    ensures
        match r {
            Ok(c) => json_get(*value, field@) == Some(*c),
            Err(e) => json_get(*value, field@) is None && e@ == (SpecError::MissingField {
                field: field@,
                context: context@,
            }),
        },
{
    match value.get(field) {
        Some(v) => Ok(v),
        None => Err(missing(field, context)),
    }
}

/// What checking a node's kind against `expected` gives.
pub open spec fn spec_expect_kind(j: JsonValue, expected: Seq<char>) -> core::result::Result<
    (),
    SpecError,
> {
    if node_kind(j) == Some(expected) {
        Ok(())
    } else {
        Err(SpecError::UnexpectedKind { expected, actual: node_kind(j) })
    }
}

/// Checks that a node has the kind `expected`.
pub fn expect_kind(value: &JsonValue, expected: &'static str) -> (r: Result<()>)
    ensures
        match r {
            Ok(()) => spec_expect_kind(*value, expected@) == Ok::<(), SpecError>(()),
            Err(e) => spec_expect_kind(*value, expected@) == Err::<(), SpecError>(e@),
        },
{
    match kind(value) {
        Some(k) => {
            if text_eq(k, expected) {
                Ok(())
            } else {
                Err(Error::UnexpectedKind { expected, actual: Some(k.to_owned()) })
            }
        },
        None => Err(Error::UnexpectedKind { expected, actual: None }),
    }
}

/// The part of `text` that starts at its first `{`: where a JSON document
/// begins when something else was printed before it.
pub fn from_first_brace(text: &str) -> (r: Option<&str>)
    ensures
        match r {
            Some(s) => find_char(text@, '{') is Some && s@ == text@.skip(find_char(text@, '{').unwrap()),
            None => find_char(text@, '{') is None,
        },
{
    let v = chars_of(text);
    match find_in(&v, '{') {
        Some(i) => {
            let s = text.substring_char(i, v.len());
            assert(s@ =~= text@.skip(i as int));
            Some(s)
        },
        None => None,
    }
}

// ---------------------------------------------------------------- JSON text

/// `serde_json`'s untyped document.
#[verifier::external_type_specification]
#[verifier::external_body]
pub struct ExSerdeJsonValue(serde_json::Value);

/// What `serde_json` reads from `text`: the document, or its description of
/// why `text` is not one.
pub uninterp spec fn json_document(text: Seq<char>) -> core::result::Result<JsonValue, Seq<char>>;

/// The model of a `serde_json` value. Integers keep their value; a number
/// with a fraction or an exponent becomes `Real`. Trusted, with no contract:
/// the body only moves each variant's fields over.
#[verifier::external_body]
fn to_json_value(v: &serde_json::Value) -> JsonValue {
    match v {
        serde_json::Value::Null => JsonValue::Null,
        serde_json::Value::Bool(b) => JsonValue::Bool(*b),
        serde_json::Value::Number(n) => JsonValue::Number(match (n.as_u64(), n.as_i64()) {
            (Some(u), _) => JsonNumber::Unsigned(u),
            (None, Some(i)) => JsonNumber::Negative(i),
            (None, None) => JsonNumber::Real,
        }),
        serde_json::Value::String(t) => JsonValue::String(t.clone()),
        serde_json::Value::Array(a) => JsonValue::Array(a.iter().map(to_json_value).collect()),
        serde_json::Value::Object(m) => JsonValue::Object(m.iter().map(|(k, x)| (k.clone(), to_json_value(x))).collect()),
    }
}

/// Parses `text` as one JSON document with `serde_json::from_str`.
///
/// Trusted: the contract claims only that the outcome depends on the
/// characters of `text` alone, which it names `json_document`; on failure the
/// text is the parser error's `Display`.
#[verifier::external_body]
fn parse_json(text: &str) -> (r: core::result::Result<JsonValue, String>)
    ensures
        match r {
            Ok(v) => json_document(text@) == Ok::<JsonValue, Seq<char>>(v),
            Err(m) => json_document(text@) == Err::<JsonValue, Seq<char>>(m@),
        },
{
    match serde_json::from_str::<serde_json::Value>(text) {
        Ok(v) => Ok(to_json_value(&v)),
        Err(e) => Err(e.to_string()),
    }
}

/// The document in what slang printed: the whole text where it parses;
/// otherwise the part from its first `{`, where there is one; otherwise the
/// first parse's error.
pub open spec fn slang_document(text: Seq<char>) -> core::result::Result<JsonValue, Seq<char>> {
    match json_document(text) {
        Ok(v) => Ok(v),
        Err(first) => match find_char(text, '{') {
            None => Err(first),
            Some(i) => json_document(text.skip(i)),
        },
    }
}

/// The model of what `parse_slang_json` gives for `text`.
pub open spec fn slang_json_result(text: Seq<char>) -> core::result::Result<JsonValue, SpecError> {
    match slang_document(text) {
        Ok(v) => Ok(v),
        Err(m) => Err(SpecError::Json(m)),
    }
}

/// Reads the JSON document that slang printed, skipping text printed before
/// its first `{` when the whole output does not parse.
pub fn parse_slang_json(text: &str) -> (r: Result<JsonValue>)
    ensures
        match r {
            Ok(v) => slang_json_result(text@) == Ok::<JsonValue, SpecError>(v),
            Err(e) => slang_json_result(text@) == Err::<JsonValue, SpecError>(e@),
        },
{
    match parse_json(text) {
        Ok(v) => Ok(v),
        Err(first) => match from_first_brace(text) {
            None => Err(Error::Json(first)),
            Some(rest) => match parse_json(rest) {
                Ok(v) => Ok(v),
                Err(m) => Err(Error::Json(m)),
            },
        },
    }
}

/// The part of what slang printed that holds its JSON document: the whole
/// text where it parses, otherwise the part from its first `{`, where that
/// parses; otherwise the error that reading the document gives.
pub fn document_text(text: &str) -> (r: Result<&str>)
    ensures
        match r {
            Ok(t) => {
                &&& t@ == (if json_document(text@) is Ok {
                    text@
                } else {
                    text@.skip(find_char(text@, '{').unwrap())
                })
                &&& json_document(t@) is Ok
                &&& slang_document(text@) == json_document(t@)
            },
            Err(e) => slang_json_result(text@) == Err::<JsonValue, SpecError>(e@),
        },
{
    match parse_json(text) {
        Ok(_) => Ok(text),
        Err(first) => match from_first_brace(text) {
            None => Err(Error::Json(first)),
            Some(rest) => match parse_json(rest) {
                Ok(_) => Ok(rest),
                Err(m) => Err(Error::Json(m)),
            },
        },
    }
}

} // verus!
