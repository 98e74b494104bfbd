//! Stored documents: named values, as the store keeps them.
//!
//! A document is the store's own `Document`. The library reads and writes
//! it one value at a time, and speaks of it as a map from names to values.

use crate::identifier::Identifier;
use crate::views::outcome;
use mongodb::bson::oid::ObjectId;
use mongodb::bson::{Bson, DateTime, Document};
use vstd::prelude::*;
use vstd::string::StringExecFns;

verus! {

/// One value of a stored document, as the library reads and writes it.
#[derive(Debug, Clone, PartialEq, Eq)]
pub enum Value {
    /// The store's null.
    Null,
    /// A text.
    Text(String),
    /// A whole number.
    Integer(i64),
    /// A point in time, in milliseconds since the Unix epoch.
    Timestamp(i64),
    /// A list. Each item is the text that it is, or nothing where it is
    /// not a text.
    List(Vec<Option<String>>),
    /// An identifier of the store.
    Id(Identifier),
    /// A value of a kind that no entity holds.
    Other,
}

/// The mathematical content of a `Value`. A list counts as a list of texts
/// where every item is a text, and as a value of another kind otherwise.
pub enum ValueView {
    Null,
    Text(Seq<char>),
    Integer(i64),
    Timestamp(i64),
    TextList(Seq<Seq<char>>),
    Id(Seq<u8>),
    Other,
}

/// Whether every item of the list is a text.
pub open spec fn all_texts(items: Seq<Option<Seq<char>>>) -> bool {
    forall|i: int| 0 <= i < items.len() ==> (#[trigger] items[i]) is Some
}

/// What a list is as a value.
pub open spec fn list_view(items: Seq<Option<Seq<char>>>) -> ValueView {
    if all_texts(items) {
        ValueView::TextList(Seq::new(items.len(), |i: int| items[i]->0))
    } else {
        ValueView::Other
    }
}

impl View for Value {
    type V = ValueView;

    open spec fn view(&self) -> ValueView {
        match self {
            Value::Null => ValueView::Null,
            Value::Text(text) => ValueView::Text(text@),
            Value::Integer(number) => ValueView::Integer(*number),
            Value::Timestamp(millis) => ValueView::Timestamp(*millis),
            Value::List(items) => list_view(items.deep_view()),
            Value::Id(id) => ValueView::Id(id@),
            Value::Other => ValueView::Other,
        }
    }
}

impl DeepView for Value {
    type V = ValueView;

    open spec fn deep_view(&self) -> ValueView {
        self@
    }
}

impl Value {
    /// The list of the given texts.
    pub fn texts(texts: &Vec<String>) -> (value: Value)
        ensures
            value@ == ValueView::TextList(texts.deep_view()),
    {
        let mut items: Vec<Option<String>> = Vec::new();
        let mut i: usize = 0;
        while i < texts.len()
            invariant
                i <= texts.len(),
                items.len() == i,
                forall|j: int|
                    0 <= j < i ==> (#[trigger] items@[j]).deep_view() == Some(texts@[j]@),
            decreases texts.len() - i,
        {
            items.push(Some(texts[i].clone()));
            i = i + 1;
        }
        assert(all_texts(items.deep_view()));
        assert(Seq::new(items.deep_view().len(), |i: int| items.deep_view()[i]->0)
            =~= texts.deep_view());
        Value::List(items)
    }

    /// The texts of the value, where it is a list of texts.
    pub fn into_texts(self) -> (texts: Option<Vec<String>>)
        ensures
            match texts {
                Some(texts) => self@ == ValueView::TextList(texts.deep_view()),
                None => !(self@ is TextList),
            },
    {
        let items = match self {
            Value::List(items) => items,
            _ => return None,
        };
        let mut texts: Vec<String> = Vec::new();
        let mut i: usize = 0;
        while i < items.len()
            invariant
                i <= items.len(),
                texts.len() == i,
                self@ == list_view(items.deep_view()),
                forall|j: int|
                    0 <= j < i ==> (#[trigger] items@[j]).deep_view() == Some(texts@[j]@),
            decreases items.len() - i,
        {
            match &items[i] {
                Some(text) => texts.push(text.clone()),
                None => {
                    assert(items.deep_view()[i as int] is None);
                    return None;
                },
            }
            i = i + 1;
        }
        assert forall|j: int| 0 <= j < items.len() implies (#[trigger] items.deep_view()[j])
            == Some(texts.deep_view()[j]) by {
            assert(items@[j].deep_view() == Some(texts@[j]@));
        }
        assert(Seq::new(items.deep_view().len(), |i: int| items.deep_view()[i]->0)
            =~= texts.deep_view());
        Some(texts)
    }
}

/// The store's document, carried as it is.
#[verifier::external_type_specification]
#[verifier::external_body]
pub struct ExDocument(mongodb::bson::Document);

/// The mathematical content of a document: each name with its value.
pub type DocumentView = Map<Seq<char>, ValueView>;

/// What a document holds: each of its names with the value under it. A
/// string is a text; a 32-bit or 64-bit integer is a whole number; a date
/// is a point in time, by its milliseconds; an object identifier is an
/// identifier, by its bytes; an array whose items are all strings is a list
/// of texts; null is null; anything else is a value of another kind.
pub uninterp spec fn document_fields(document: Document) -> Map<Seq<char>, ValueView>;

/// `Document::new`: a document that holds nothing.
#[verifier::external_body]
fn new_document() -> (document: Document)
    ensures
        document_fields(document) == DocumentView::empty(),
{
    Document::new()
}

/// `Document::insert`, with the value as the store keeps it: afterwards the
/// document holds the value under the name, whether or not it held one
/// there before, and everything else as before. What is no text in a list,
/// and a value of another kind, is stored as the store's undefined value.
#[verifier::external_body]
fn insert_value(document: &mut Document, name: &str, value: Value)
    ensures
        document_fields(*final(document)) == document_fields(*old(document)).insert(name@, value@),
{
    let stored = match value {
        Value::Null => Bson::Null,
        Value::Text(text) => Bson::String(text),
        Value::Integer(number) => Bson::Int64(number),
        Value::Timestamp(millis) => Bson::DateTime(DateTime::from_millis(millis)),
        Value::List(items) => Bson::Array(
            items.into_iter().map(|item| item.map_or(Bson::Undefined, Bson::String)).collect(),
        ),
        Value::Id(id) => Bson::ObjectId(ObjectId::from_bytes(id.bytes())),
        Value::Other => Bson::Undefined,
    };
    document.insert(name, stored);
}

/// `Document::get`, with the value as the library reads it: the value that
/// the document holds under the name, or nothing where it holds none. It
/// looks for the name as it is written, and changes nothing.
#[verifier::external_body]
fn get_value(document: &Document, name: &str) -> (found: Option<Value>)
    ensures
        found.deep_view() == document_fields(*document).get(name@),
{
    let value = document.get(name)?;
    Some(match value {
        Bson::Null => Value::Null,
        Bson::String(text) => Value::Text(text.clone()),
        Bson::Int32(number) => Value::Integer(i64::from(*number)),
        Bson::Int64(number) => Value::Integer(*number),
        Bson::DateTime(time) => Value::Timestamp(time.timestamp_millis()),
        Bson::ObjectId(id) => Value::Id(Identifier::from_bytes(id.bytes())),
        Bson::Array(items) => Value::List(
            items.iter().map(|item| item.as_str().map(str::to_owned)).collect(),
        ),
        _ => Value::Other,
    })
}

/// A document that holds nothing.
pub fn empty_document() -> (document: Document)
    ensures
        document_fields(document) == DocumentView::empty(),
{
    new_document()
}

/// Gives `name` the value `value`, whether or not the document had a value
/// under that name.
pub fn set_field(document: &mut Document, name: &str, value: Value)
    ensures
        document_fields(*final(document)) == document_fields(*old(document)).insert(name@, value@),
{
    insert_value(document, name, value)
}

/// The value under `name`, if the document has one.
pub fn field_value(document: &Document, name: &str) -> (found: Option<Value>)
    ensures
        found.deep_view() == document_fields(*document).get(name@),
{
    get_value(document, name)
}

/// Why a document could not be read as an entity.
#[derive(Debug, Clone, PartialEq, Eq)]
pub enum DecodeError {
    /// The document has no value under this name.
    MissingField(&'static str),
    /// The value under this name is of the wrong kind.
    InvalidType(&'static str),
}

/// The mathematical content of a `DecodeError`.
pub enum DecodeErrorView {
    MissingField(Seq<char>),
    InvalidType(Seq<char>),
}

impl View for DecodeError {
    type V = DecodeErrorView;

    open spec fn view(&self) -> DecodeErrorView {
        match self {
            DecodeError::MissingField(name) => DecodeErrorView::MissingField(name@),
            DecodeError::InvalidType(name) => DecodeErrorView::InvalidType(name@),
        }
    }
}

impl DeepView for DecodeError {
    type V = DecodeErrorView;

    open spec fn deep_view(&self) -> DecodeErrorView {
        self@
    }
}

impl DecodeErrorView {
    /// The text that describes the error.
    pub open spec fn message(self) -> Seq<char> {
        match self {
            DecodeErrorView::MissingField(name) => "missing field `"@ + name + "`"@,
            DecodeErrorView::InvalidType(name) => "invalid type for field `"@ + name + "`"@,
        }
    }
}

impl DecodeError {
    /// The text that describes the error.
    pub fn to_string(&self) -> (text: String)
        ensures
            text@ == self@.message(),
    {
        match self {
            DecodeError::MissingField(name) => String::from_str("missing field `").concat(
                name,
            ).concat("`"),
            DecodeError::InvalidType(name) => String::from_str("invalid type for field `").concat(
                name,
            ).concat("`"),
        }
    }
}

/// The identifier that a document must hold under `name`.
pub open spec fn required_id(document: DocumentView, name: Seq<char>) -> Result<
    Seq<u8>,
    DecodeErrorView,
> {
    if !document.contains_key(name) {
        Err(DecodeErrorView::MissingField(name))
    } else {
        match document[name] {
            ValueView::Id(id) => Ok(id),
            _ => Err(DecodeErrorView::InvalidType(name)),
        }
    }
}

/// The text that a document must hold under `name`.
pub open spec fn required_text(document: DocumentView, name: Seq<char>) -> Result<
    Seq<char>,
    DecodeErrorView,
> {
    if !document.contains_key(name) {
        Err(DecodeErrorView::MissingField(name))
    } else {
        match document[name] {
            ValueView::Text(text) => Ok(text),
            _ => Err(DecodeErrorView::InvalidType(name)),
        }
    }
}

/// The text that a document may hold under `name`: none where the name is
/// absent or its value is null.
pub open spec fn optional_text(document: DocumentView, name: Seq<char>) -> Result<
    Option<Seq<char>>,
    DecodeErrorView,
> {
    if !document.contains_key(name) {
        Ok(None)
    } else {
        match document[name] {
            ValueView::Null => Ok(None),
            ValueView::Text(text) => Ok(Some(text)),
            _ => Err(DecodeErrorView::InvalidType(name)),
        }
    }
}

/// The point in time that a document must hold under `name`.
pub open spec fn required_timestamp(document: DocumentView, name: Seq<char>) -> Result<
    i64,
    DecodeErrorView,
> {
    if !document.contains_key(name) {
        Err(DecodeErrorView::MissingField(name))
    } else {
        match document[name] {
            ValueView::Timestamp(millis) => Ok(millis),
            _ => Err(DecodeErrorView::InvalidType(name)),
        }
    }
}

/// The point in time that a document may hold under `name`: none where the
/// name is absent or its value is null.
pub open spec fn optional_timestamp(document: DocumentView, name: Seq<char>) -> Result<
    Option<i64>,
    DecodeErrorView,
> {
    if !document.contains_key(name) {
        Ok(None)
    } else {
        match document[name] {
            ValueView::Null => Ok(None),
            ValueView::Timestamp(millis) => Ok(Some(millis)),
            _ => Err(DecodeErrorView::InvalidType(name)),
        }
    }
}

/// The count that a document must hold under `name`: a whole number from 0
/// to 4294967295.
pub open spec fn required_count(document: DocumentView, name: Seq<char>) -> Result<
    u32,
    DecodeErrorView,
> {
    if !document.contains_key(name) {
        Err(DecodeErrorView::MissingField(name))
    } else {
        match document[name] {
            ValueView::Integer(number) if 0 <= number <= u32::MAX => Ok(number as u32),
            _ => Err(DecodeErrorView::InvalidType(name)),
        }
    }
}

/// The list of texts that a document must hold under `name`.
pub open spec fn required_list(document: DocumentView, name: Seq<char>) -> Result<
    Seq<Seq<char>>,
    DecodeErrorView,
> {
    if !document.contains_key(name) {
        Err(DecodeErrorView::MissingField(name))
    } else {
        match document[name] {
            ValueView::TextList(texts) => Ok(texts),
            _ => Err(DecodeErrorView::InvalidType(name)),
        }
    }
}

/// Reads the identifier under `name`.
pub fn read_id(document: &Document, name: &'static str) -> (res: Result<Identifier, DecodeError>)
    ensures
        outcome(res) == required_id(document_fields(*document), name@),
{
    match get_value(document, name) {
        None => Err(DecodeError::MissingField(name)),
        Some(Value::Id(id)) => Ok(id),
        Some(_) => Err(DecodeError::InvalidType(name)),
    }
}

/// Reads the text under `name`.
pub fn read_text(document: &Document, name: &'static str) -> (res: Result<String, DecodeError>)
    ensures
        outcome(res) == required_text(document_fields(*document), name@),
{
    match get_value(document, name) {
        None => Err(DecodeError::MissingField(name)),
        Some(Value::Text(text)) => Ok(text),
        Some(_) => Err(DecodeError::InvalidType(name)),
    }
}

/// Reads the text under `name`, where there is one.
pub fn read_optional_text(document: &Document, name: &'static str) -> (res: Result<
    Option<String>,
    DecodeError,
>)
    ensures
        outcome(res) == optional_text(document_fields(*document), name@),
{
    match get_value(document, name) {
        None => Ok(None),
        Some(Value::Null) => Ok(None),
        Some(Value::Text(text)) => Ok(Some(text)),
        Some(_) => Err(DecodeError::InvalidType(name)),
    }
}

/// Reads the point in time under `name`.
pub fn read_timestamp(document: &Document, name: &'static str) -> (res: Result<i64, DecodeError>)
    ensures
        outcome(res) == required_timestamp(document_fields(*document), name@),
{
    match get_value(document, name) {
        None => Err(DecodeError::MissingField(name)),
        Some(Value::Timestamp(millis)) => Ok(millis),
        Some(_) => Err(DecodeError::InvalidType(name)),
    }
}

/// Reads the point in time under `name`, where there is one.
pub fn read_optional_timestamp(document: &Document, name: &'static str) -> (res: Result<
    Option<i64>,
    DecodeError,
>)
    ensures
        outcome(res) == optional_timestamp(document_fields(*document), name@),
{
    match get_value(document, name) {
        None => Ok(None),
        Some(Value::Null) => Ok(None),
        Some(Value::Timestamp(millis)) => Ok(Some(millis)),
        Some(_) => Err(DecodeError::InvalidType(name)),
    }
}

/// Reads the count under `name`.
pub fn read_count(document: &Document, name: &'static str) -> (res: Result<u32, DecodeError>)
    ensures
        outcome(res) == required_count(document_fields(*document), name@),
{
    match get_value(document, name) {
        None => Err(DecodeError::MissingField(name)),
        Some(Value::Integer(number)) => {
            if 0 <= number && number <= 4294967295 {
                Ok(number as u32)
            } else {
                Err(DecodeError::InvalidType(name))
            }
        },
        Some(_) => Err(DecodeError::InvalidType(name)),
    }
}

/// Reads the list of texts under `name`.
pub fn read_list(document: &Document, name: &'static str) -> (res: Result<
    Vec<String>,
    DecodeError,
>)
    ensures
        outcome(res) == required_list(document_fields(*document), name@),
{
    match get_value(document, name) {
        None => Err(DecodeError::MissingField(name)),
        Some(value) => match value.into_texts() {
            Some(texts) => Ok(texts),
            None => Err(DecodeError::InvalidType(name)),
        },
    }
}

} // verus!
