//! JSON documents, read through `serde_json`.
//!
//! A [`Document`] keeps the `serde_json::Value` that parsing gave. What it
//! holds is described by the mathematical type [`Json`]; its methods read
//! single members out of it as plain [`Field`]s, and everything else in the
//! crate works on those.
use vstd::prelude::*;

verus! {

#[verifier::external_type_specification]
#[verifier::external_body]
pub struct ExValue(serde_json::Value);

/// The shape of a JSON value.
pub enum Json {
    Null,
    Bool(bool),
    /// A number, by the text that Rust's `Debug` formatting gives the 64-bit
    /// float it is read as: `5` and `5.0` are both `5.0`.
    Number(Seq<char>),
    Text(Seq<char>),
    Array(Seq<Json>),
    Object(Map<Seq<char>, Json>),
}

/// What a parsed value holds.
pub uninterp spec fn json_of(v: serde_json::Value) -> Json;

/// What parsing a text as one JSON document gives: the document, or the
/// message of the parse error.
pub uninterp spec fn json_document(text: Seq<char>) -> Result<Json, Seq<char>>;

/// Parses a text as one JSON document with `serde_json::from_str`.
///
/// Trusted: the outcome depends on the text alone; it is the document that
/// [`json_document`] names, or the error message that it names, as the
/// error's `Display` writes it.
#[verifier::external_body]
fn parse_document(text: &str) -> (r: Result<serde_json::Value, String>)
    ensures
        match r {
            Ok(v) => json_document(text@) == Ok::<Json, Seq<char>>(json_of(v)),
            Err(e) => json_document(text@) == Err::<Json, Seq<char>>(e@),
        },
{
    match serde_json::from_str::<serde_json::Value>(text) {
        Ok(v) => Ok(v),
        Err(e) => Err(e.to_string()),
    }
}

/// Looks a member up by its key with `serde_json::Value::get`.
///
/// Trusted: the result is the member under `key` where `v` is an object that
/// has one, and `None` for an object without that key and for every value
/// that is not an object.
#[verifier::external_body]
fn member<'a>(v: &'a serde_json::Value, key: &str) -> (r: Option<&'a serde_json::Value>)
    ensures
        match r {
            Some(m) => json_of(*v) matches Json::Object(fields) && fields.contains_key(key@)
                && json_of(*m) == fields[key@],
            None => !(json_of(*v) matches Json::Object(fields) && fields.contains_key(key@)),
        },
{
    v.get(key)
}

/// Tells whether a value is an object, with `serde_json::Value::is_object`.
///
/// Trusted: true for objects and for nothing else.
#[verifier::external_body]
fn is_object(v: &serde_json::Value) -> (r: bool)
    ensures
        r == (json_of(*v) is Object),
{
    v.is_object()
}

/// Tells whether a value is `null`, with `serde_json::Value::is_null`.
///
/// Trusted: true for `null` and for nothing else.
#[verifier::external_body]
fn is_null(v: &serde_json::Value) -> (r: bool)
    ensures
        r == (json_of(*v) is Null),
{
    v.is_null()
}

/// Reads a string value with `serde_json::Value::as_str`.
///
/// Trusted: the result is the string's own text where `v` is a string, and
/// `None` for every other value.
#[verifier::external_body]
fn as_text<'a>(v: &'a serde_json::Value) -> (r: Option<&'a str>)
    ensures
        match r {
            Some(s) => json_of(*v) == Json::Text(s@),
            None => !(json_of(*v) is Text),
        },
{
    v.as_str()
}

/// Reads a number with `serde_json::Value::as_f64` and prints the float with
/// `Debug`.
///
/// Trusted: `as_f64` gives a float for every number, an integer being
/// converted, and `None` for every other value, so the result is `Some`
/// exactly for numbers (this holds of `serde_json` as it is built here,
/// without arbitrary precision); the text is the one by which
/// [`Json::Number`] identifies the number.
#[verifier::external_body]
fn number_text(v: &serde_json::Value) -> (r: Option<String>)
    ensures
        match r {
            Some(s) => json_of(*v) == Json::Number(s@),
            None => !(json_of(*v) is Number),
        },
{
    v.as_f64().map(|x| format!("{:?}", x))
}

/// One member of an object, as far as this crate reads it.
#[derive(Debug, PartialEq, Eq)]
pub enum Field {
    /// The object has no such member.
    Absent,
    /// The member is `null`.
    Null,
    /// The member is a string.
    Text(String),
    /// The member is a number, written as in [`Json::Number`].
    Number(String),
    /// The member is a boolean, an array or an object.
    Other,
}

/// The mathematical value of a [`Field`].
pub enum FieldView {
    Absent,
    Null,
    Text(Seq<char>),
    Number(Seq<char>),
    Other,
}

impl View for Field {
    type V = FieldView;

    open spec fn view(&self) -> FieldView {
        match *self {
            Field::Absent => FieldView::Absent,
            Field::Null => FieldView::Null,
            Field::Text(s) => FieldView::Text(s@),
            Field::Number(s) => FieldView::Number(s@),
            Field::Other => FieldView::Other,
        }
    }
}

/// How a value that is present reads as a field.
pub open spec fn field_shape(j: Json) -> FieldView {
    match j {
        Json::Null => FieldView::Null,
        Json::Text(s) => FieldView::Text(s),
        Json::Number(n) => FieldView::Number(n),
        _ => FieldView::Other,
    }
}

/// The member of `doc` under `key`. A value that is not an object has no
/// members.
pub open spec fn field_of(doc: Json, key: Seq<char>) -> FieldView {
    match doc {
        Json::Object(fields) => if fields.contains_key(key) {
            field_shape(fields[key])
        } else {
            FieldView::Absent
        },
        _ => FieldView::Absent,
    }
}

/// The member of `doc` under `key`, for nested lookups: `None` where there is
/// none.
pub open spec fn member_of(doc: Json, key: Seq<char>) -> Option<Json> {
    match doc {
        Json::Object(fields) => if fields.contains_key(key) {
            Some(fields[key])
        } else {
            None
        },
        _ => None,
    }
}

/// Reads a value that is present as a field.
fn read_value(v: &serde_json::Value) -> (f: Field)
    ensures
        f@ == field_shape(json_of(*v)),
{
    if is_null(v) {
        return Field::Null;
    }
    match as_text(v) {
        Some(s) => Field::Text(String::from_str(s)),
        None => match number_text(v) {
            Some(n) => Field::Number(n),
            None => Field::Other,
        },
    }
}

/// Reads the member of `doc` under `key`.
fn read_field(doc: &serde_json::Value, key: &str) -> (f: Field)
    ensures
        f@ == field_of(json_of(*doc), key@),
{
    match member(doc, key) {
        Some(v) => read_value(v),
        None => Field::Absent,
    }
}

/// The member under `inner` of the member of `doc` under `outer`.
pub open spec fn nested_field_of(doc: Json, outer: Seq<char>, inner: Seq<char>) -> FieldView {
    match member_of(doc, outer) {
        Some(m) => field_of(m, inner),
        None => FieldView::Absent,
    }
}

/// A parsed JSON document.
pub struct Document {
    value: serde_json::Value,
}

impl View for Document {
    type V = Json;

    closed spec fn view(&self) -> Json {
        json_of(self.value)
    }
}

impl Document {
    /// Parses a text as one JSON document; fails with the parser's message.
    pub fn parse(text: &str) -> (r: Result<Document, String>)
        ensures
            match r {
                Ok(doc) => json_document(text@) == Ok::<Json, Seq<char>>(doc@),
                Err(e) => json_document(text@) == Err::<Json, Seq<char>>(e@),
            },
    {
        match parse_document(text) {
            Ok(value) => Ok(Document { value }),
            Err(e) => Err(e),
        }
    }

    /// Whether the document is an object.
    pub fn is_object(&self) -> (r: bool)
        ensures
            r == (self@ is Object),
    {
        is_object(&self.value)
    }

    /// The member under `key`.
    pub fn field(&self, key: &str) -> (f: Field)
        ensures
            f@ == field_of(self@, key@),
    {
        read_field(&self.value, key)
    }

    /// The member under `inner` of the member under `outer`.
    pub fn nested_field(&self, outer: &str, inner: &str) -> (f: Field)
        ensures
            f@ == nested_field_of(self@, outer@, inner@),
    {
        match member(&self.value, outer) {
            Some(m) => read_field(m, inner),
            None => Field::Absent,
        }
    }
}

} // verus!
