//! BSON documents: what they hold, and the calls by which the library reads and builds them.
use bson::oid::ObjectId;
use bson::{Bson, DateTime, Document};
use vstd::prelude::*;

verus! {

/// What a BSON value holds. Dates are milliseconds since the Unix epoch, object ids their twelve
/// bytes. A kind of value that no rule of this library looks into is kept whole in `Other`.
pub ghost enum BsonValue {
    Null,
    Bool(bool),
    Int32(i32),
    Int64(i64),
    Str(Seq<char>),
    Date(i64),
    ObjectId(Seq<u8>),
    Array(Seq<BsonValue>),
    Doc(Map<Seq<char>, BsonValue>),
    Other(Bson),
}

/// The fields of a document: which value stands under which name.
pub type Fields = Map<Seq<char>, BsonValue>;

#[verifier::external_type_specification]
#[verifier::external_body]
pub struct ExDocument(Document);

#[verifier::external_type_specification]
#[verifier::external_body]
pub struct ExBson(Bson);

/// The fields that a document holds.
pub uninterp spec fn document_fields(document: Document) -> Map<Seq<char>, BsonValue>;

/// What a BSON value holds.
pub uninterp spec fn bson_value(value: Bson) -> BsonValue;

/// The fields of an empty document.
pub open spec fn no_fields() -> Fields {
    Map::empty()
}

/// The value under `key`, if there is one.
pub open spec fn field(fields: Fields, key: Seq<char>) -> Option<BsonValue> {
    if fields.dom().contains(key) {
        Some(fields[key])
    } else {
        None
    }
}

/// The string under `key`, if that is what stands there.
pub open spec fn str_field(fields: Fields, key: Seq<char>) -> Option<Seq<char>> {
    match field(fields, key) {
        Some(BsonValue::Str(text)) => Some(text),
        _ => None,
    }
}

/// The 64-bit integer under `key`, if that is what stands there.
pub open spec fn i64_field(fields: Fields, key: Seq<char>) -> Option<i64> {
    match field(fields, key) {
        Some(BsonValue::Int64(number)) => Some(number),
        _ => None,
    }
}

/// The date under `key`, in milliseconds since the Unix epoch, if that is what stands there.
pub open spec fn date_field(fields: Fields, key: Seq<char>) -> Option<i64> {
    match field(fields, key) {
        Some(BsonValue::Date(millis)) => Some(millis),
        _ => None,
    }
}

/// The bytes of the object id under `key`, if that is what stands there.
pub open spec fn object_id_field(fields: Fields, key: Seq<char>) -> Option<Seq<u8>> {
    match field(fields, key) {
        Some(BsonValue::ObjectId(bytes)) => Some(bytes),
        _ => None,
    }
}

/// The fields of the document under `key`, if that is what stands there.
pub open spec fn doc_field(fields: Fields, key: Seq<char>) -> Option<Fields> {
    match field(fields, key) {
        Some(BsonValue::Doc(inner)) => Some(inner),
        _ => None,
    }
}

/// The view of an optional string.
pub open spec fn text_view(text: Option<&str>) -> Option<Seq<char>> {
    match text {
        Some(text) => Some(text@),
        None => None,
    }
}

/// The view of an optional owned string.
pub open spec fn string_view(text: Option<String>) -> Option<Seq<char>> {
    match text {
        Some(text) => Some(text@),
        None => None,
    }
}

/// The views of several strings, in order.
pub open spec fn string_views(texts: Seq<String>) -> Seq<Seq<char>> {
    texts.map_values(|text: String| text@)
}

/// What several BSON values hold, in order.
pub open spec fn bson_values(values: Seq<Bson>) -> Seq<BsonValue> {
    values.map_values(|value: Bson| bson_value(value))
}

/// `bson::Document::new`: a document without fields.
#[verifier::external_body]
pub(crate) fn document_new() -> (document: Document)
    ensures
        document_fields(document) == no_fields(),
{
    Document::new()
}

/// `bson::Document::insert`: the value now stands under the key, in place of what stood there
/// before; the other fields stay.
#[verifier::external_body]
pub(crate) fn document_insert(document: &mut Document, key: &str, value: Bson)
    ensures
        document_fields(*final(document)) == document_fields(*old(document)).insert(
            key@,
            bson_value(value),
        ),
{
    let _ = document.insert(key, value);
}

/// `bson::Document::get`, with `Clone` of the value found: a copy of what stands under the key.
#[verifier::external_body]
pub(crate) fn document_get(document: &Document, key: &str) -> (value: Option<Bson>)
    ensures
        match value {
            Some(found) => field(document_fields(*document), key@) == Some(bson_value(found)),
            None => field(document_fields(*document), key@) is None,
        },
{
    document.get(key).cloned()
}

/// `bson::Document::get_str`: the string under the key; nothing if the key is missing or holds
/// another kind of value.
#[verifier::external_body]
pub(crate) fn document_get_str<'a>(document: &'a Document, key: &str) -> (value: Option<&'a str>)
    ensures
        text_view(value) == str_field(document_fields(*document), key@),
{
    document.get_str(key).ok()
}

/// `bson::Document::get_i64`: the 64-bit integer under the key; nothing if the key is missing or
/// holds another kind of value, a 32-bit integer among them.
#[verifier::external_body]
pub(crate) fn document_get_i64(document: &Document, key: &str) -> (value: Option<i64>)
    ensures
        value == i64_field(document_fields(*document), key@),
{
    document.get_i64(key).ok()
}

/// `bson::Document::get_datetime`: the date under the key as milliseconds since the Unix epoch;
/// nothing if the key is missing or holds another kind of value.
#[verifier::external_body]
pub(crate) fn document_get_date(document: &Document, key: &str) -> (value: Option<i64>)
    ensures
        value == date_field(document_fields(*document), key@),
{
    document.get_datetime(key).ok().map(|date| date.timestamp_millis())
}

/// `bson::Document::get_object_id`: the bytes of the object id under the key; nothing if the key is
/// missing or holds another kind of value.
#[verifier::external_body]
pub(crate) fn document_get_object_id(document: &Document, key: &str) -> (value: Option<[u8; 12]>)
    ensures
        match value {
            Some(bytes) => object_id_field(document_fields(*document), key@) == Some(bytes@),
            None => object_id_field(document_fields(*document), key@) is None,
        },
{
    document.get_object_id(key).ok().map(|id| id.bytes())
}

/// `bson::Document::get_document`: the document under the key; nothing if the key is missing or
/// holds another kind of value.
#[verifier::external_body]
pub(crate) fn document_get_document<'a>(document: &'a Document, key: &str) -> (value: Option<
    &'a Document,
>)
    ensures
        match value {
            Some(inner) => doc_field(document_fields(*document), key@) == Some(
                document_fields(*inner),
            ),
            None => doc_field(document_fields(*document), key@) is None,
        },
{
    document.get_document(key).ok()
}

/// `From<&str> for bson::Bson`: a string.
#[verifier::external_body]
pub(crate) fn bson_str(text: &str) -> (value: Bson)
    ensures
        bson_value(value) == BsonValue::Str(text@),
{
    Bson::from(text)
}

/// `From<i32> for bson::Bson`: a 32-bit integer.
#[verifier::external_body]
pub(crate) fn bson_i32(number: i32) -> (value: Bson)
    ensures
        bson_value(value) == BsonValue::Int32(number),
{
    Bson::from(number)
}

/// `From<i64> for bson::Bson`: a 64-bit integer.
#[verifier::external_body]
pub(crate) fn bson_i64(number: i64) -> (value: Bson)
    ensures
        bson_value(value) == BsonValue::Int64(number),
{
    Bson::from(number)
}

/// `From<bool> for bson::Bson`: a boolean.
#[verifier::external_body]
pub(crate) fn bson_bool(flag: bool) -> (value: Bson)
    ensures
        bson_value(value) == BsonValue::Bool(flag),
{
    Bson::from(flag)
}

/// `bson::Bson::Null`: the null value.
#[verifier::external_body]
pub(crate) fn bson_null() -> (value: Bson)
    ensures
        bson_value(value) == BsonValue::Null,
{
    Bson::Null
}

/// `bson::DateTime::from_millis`, as a value: the date at that many milliseconds since the Unix
/// epoch.
#[verifier::external_body]
pub(crate) fn bson_date(millis: i64) -> (value: Bson)
    ensures
        bson_value(value) == BsonValue::Date(millis),
{
    Bson::from(DateTime::from_millis(millis))
}

/// `bson::oid::ObjectId::from_bytes`, as a value: the object id with those bytes.
#[verifier::external_body]
pub(crate) fn bson_object_id(bytes: [u8; 12]) -> (value: Bson)
    ensures
        bson_value(value) == BsonValue::ObjectId(bytes@),
{
    Bson::from(ObjectId::from_bytes(bytes))
}

/// `From<bson::Document> for bson::Bson`: a document inside another.
#[verifier::external_body]
pub(crate) fn bson_doc(document: Document) -> (value: Bson)
    ensures
        bson_value(value) == BsonValue::Doc(document_fields(document)),
{
    Bson::from(document)
}

/// `bson::Bson::Array`: the values in order.
#[verifier::external_body]
pub(crate) fn bson_array(values: Vec<Bson>) -> (value: Bson)
    ensures
        bson_value(value) == BsonValue::Array(bson_values(values@)),
{
    Bson::Array(values)
}

/// `PartialEq for bson::Bson`, against `Bson::Null`: whether the value is null.
#[verifier::external_body]
pub(crate) fn bson_is_null(value: &Bson) -> (null: bool)
    ensures
        null == (bson_value(*value) == BsonValue::Null),
{
    *value == Bson::Null
}

/// `PartialEq for bson::Document`: whether both hold the same fields, in whatever order. Said only
/// of a right-hand side that holds nothing but 32-bit integers, where equal means identical.
#[verifier::external_body]
pub(crate) fn document_eq(left: &Document, right: &Document) -> (equal: bool)
    requires
        forall|key: Seq<char>| #[trigger]
            document_fields(*right).dom().contains(key) ==> document_fields(*right)[key] is Int32,
    ensures
        equal == (document_fields(*left) == document_fields(*right)),
{
    left == right
}

/// `bson::DateTime::now`: the current time in milliseconds since the Unix epoch. Nothing is known
/// of the value: it comes from the clock of the machine.
#[verifier::external_body]
pub(crate) fn now_millis() -> (millis: i64) {
    DateTime::now().timestamp_millis()
}

/// `PartialEq for str`: whether both hold the same characters.
#[verifier::external_body]
pub(crate) fn same_text(left: &str, right: &str) -> (same: bool)
    ensures
        same == (left@ == right@),
{
    left == right
}

/// The document with one more field, or with the value of a field replaced.
pub(crate) fn with_field(document: Document, key: &str, value: Bson) -> (extended: Document)
    ensures
        document_fields(extended) == document_fields(document).insert(key@, bson_value(value)),
{
    let mut extended = document;
    document_insert(&mut extended, key, value);
    extended
}

/// A document with one field.
pub(crate) fn one_field(key: &str, value: Bson) -> (document: Document)
    ensures
        document_fields(document) == no_fields().insert(key@, bson_value(value)),
{
    with_field(document_new(), key, value)
}

/// Strings as BSON values, in order.
pub(crate) fn bson_strings(texts: &Vec<String>) -> (values: Vec<Bson>)
    ensures
        bson_values(values@) == str_values(string_views(texts@)),
{
    let mut values: Vec<Bson> = Vec::new();
    let mut i: usize = 0;
    while i < texts.len()
        invariant
            i <= texts.len(),
            values.len() == i,
            forall|k: int|
                0 <= k < i ==> bson_value(#[trigger] values@[k]) == BsonValue::Str(texts@[k]@),
        decreases texts.len() - i,
    {
        values.push(bson_str(texts[i].as_str()));
        i = i + 1;
    }
    proof {
        assert(bson_values(values@) =~= str_values(string_views(texts@)));
    }
    values
}

/// Strings as what BSON values hold, in order.
pub open spec fn str_values(texts: Seq<Seq<char>>) -> Seq<BsonValue> {
    texts.map_values(|text: Seq<char>| BsonValue::Str(text))
}

} // verus!
