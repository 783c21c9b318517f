use vstd::prelude::*;

verus! {

#[verifier::external_type_specification]
#[verifier::external_body]
pub struct ExObjectId(mongodb::bson::oid::ObjectId);

/// What a field of a document holds, as far as equality filters are concerned.
pub enum FieldValue {
    /// A string.
    Text(Seq<char>),
    /// A store-native object identifier.
    ObjectId(mongodb::bson::oid::ObjectId),
    /// Any other kind of value.
    Other,
}

/// The fields of a document: each key with the value stored under it.
pub uninterp spec fn document_fields(d: mongodb::bson::Document) -> Map<Seq<char>, FieldValue>;

/// Relies on bson's `Document::new`: a document without fields.
pub assume_specification[ mongodb::bson::Document::new ]() -> (r: mongodb::bson::Document)
    ensures
        document_fields(r).dom() == Set::<Seq<char>>::empty(),
;

/// Relies on bson's `Document::insert` with a `&str` value: the key now holds
/// that string (`Bson::String`), replacing any earlier value; other fields stay.
#[verifier::external_body]
fn insert_text(d: &mut mongodb::bson::Document, key: &str, value: &str)
    ensures
        document_fields(*final(d)) == document_fields(*old(d)).insert(
            key@,
            FieldValue::Text(value@),
        ),
{
    d.insert(key, value);
}

/// Relies on bson's `Document::insert` with an `ObjectId` value: the key now
/// holds that identifier (`Bson::ObjectId`), replacing any earlier value;
/// other fields stay.
#[verifier::external_body]
fn insert_object_id(
    d: &mut mongodb::bson::Document,
    key: &str,
    value: mongodb::bson::oid::ObjectId,
)
    ensures
        document_fields(*final(d)) == document_fields(*old(d)).insert(
            key@,
            FieldValue::ObjectId(value),
        ),
{
    d.insert(key, value);
}

/// The name of the field that carries a record's identifier.
pub open spec fn id_field() -> Seq<char> {
    "_id"@
}

/// A filter matching the records whose field `name` equals the string `value`.
pub fn string_field_filter(name: &str, value: &str) -> (r: mongodb::bson::Document)
    ensures
        document_fields(r) == map![name@ => FieldValue::Text(value@)],
{
    let mut filter = mongodb::bson::Document::new();
    insert_text(&mut filter, name, value);
    proof {
        assert(document_fields(filter) =~= map![name@ => FieldValue::Text(value@)]);
    }
    filter
}

/// A filter matching the record whose identifier is the object identifier `id`.
pub fn id_filter(id: &mongodb::bson::oid::ObjectId) -> (r: mongodb::bson::Document)
    ensures
        document_fields(r) == map![id_field() => FieldValue::ObjectId(*id)],
{
    let mut filter = mongodb::bson::Document::new();
    insert_object_id(&mut filter, "_id", *id);
    proof {
        assert(document_fields(filter) =~= map![id_field() => FieldValue::ObjectId(*id)]);
    }
    filter
}

/// A filter matching the record whose identifier is the string `id`; a string
/// identifier never matches an object identifier.
pub fn string_id_filter(id: &str) -> (r: mongodb::bson::Document)
    ensures
        document_fields(r) == map![id_field() => FieldValue::Text(id@)],
{
    string_field_filter("_id", id)
}

} // verus!
