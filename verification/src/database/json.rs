//! JSON columns: what a `serde_json::Value` holds, and how field values and
//! tags are written into one and read back.

use vstd::prelude::*;
use crate::error::DecodeError;
use crate::model::content::ContentTag;
use crate::model::field::{fields_view, Field};
use crate::model::field_meta::{FieldMeta, FieldType};
use crate::text::owned;

verus! {

/// `serde_json::Value`, declared so that it can stand in signatures and
/// fields. Nothing inside a value is seen but through the functions below.
#[verifier::external_type_specification]
#[verifier::external_body]
pub struct ExJsonValue(serde_json::Value);

/// A JSON document as a mathematical value. Numbers are not told apart.
pub enum JsonModel {
    Null,
    Bool(bool),
    Number,
    Text(Seq<char>),
    Array(Seq<JsonModel>),
    Object(Map<Seq<char>, JsonModel>),
}

/// The document that a `serde_json::Value` holds.
pub uninterp spec fn json_model(value: serde_json::Value) -> JsonModel;

/// The documents that a sequence of values holds, one by one.
pub open spec fn json_models(values: Seq<serde_json::Value>) -> Seq<JsonModel> {
    Seq::new(values.len(), |i: int| json_model(values[i]))
}

/// `Clone` for `serde_json::Value`, which the crate derives: the copy holds
/// the same document.
pub assume_specification[ <serde_json::Value as Clone>::clone ](
    value: &serde_json::Value,
) -> (r: serde_json::Value)
    ensures
        json_model(r) == json_model(*value),
;

/// `serde_json::Value::as_array`: the elements of an array, `None` for any
/// other document.
#[verifier::external_body]
fn json_items(value: &serde_json::Value) -> (r: Option<&Vec<serde_json::Value>>)
    ensures
        match json_model(*value) {
            JsonModel::Array(items) => r is Some && json_models(r->Some_0@) == items,
            _ => r is None,
        },
{
    value.as_array()
}

/// `serde_json::Value::get` with a text index: the member of an object
/// under `key`, `None` where the object has none or the document is no
/// object.
#[verifier::external_body]
fn json_member<'a>(value: &'a serde_json::Value, key: &str) -> (r: Option<&'a serde_json::Value>)
    ensures
        match json_model(*value) {
            JsonModel::Object(members) => if members.contains_key(key@) {
                r is Some && json_model(*r->Some_0) == members[key@]
            } else {
                r is None
            },
            _ => r is None,
        },
{
    value.get(key)
}

/// `serde_json::Value::as_str`: the characters of a text, `None` for any
/// other document.
#[verifier::external_body]
fn json_text<'a>(value: &'a serde_json::Value) -> (r: Option<&'a str>)
    ensures
        match json_model(*value) {
            JsonModel::Text(text) => r is Some && r->Some_0@ == text,
            _ => r is None,
        },
{
    value.as_str()
}

/// `serde_json::Value::as_bool`: the value of a boolean, `None` for any
/// other document.
#[verifier::external_body]
fn json_flag(value: &serde_json::Value) -> (r: Option<bool>)
    ensures
        match json_model(*value) {
            JsonModel::Bool(flag) => r == Some(flag),
            _ => r is None,
        },
{
    value.as_bool()
}

/// Builds `serde_json::Value::String`.
#[verifier::external_body]
fn json_from_text(text: String) -> (r: serde_json::Value)
    ensures
        json_model(r) == JsonModel::Text(text@),
{
    serde_json::Value::String(text)
}

/// Builds `serde_json::Value::Array`.
#[verifier::external_body]
fn json_from_items(items: Vec<serde_json::Value>) -> (r: serde_json::Value)
    ensures
        json_model(r) == JsonModel::Array(json_models(items@)),
{
    serde_json::Value::Array(items)
}

/// Builds `serde_json::Value::Object` from a `serde_json::Map` into which
/// the two members are inserted in turn; `Map::insert` replaces what stood
/// under the key.
#[verifier::external_body]
fn json_from_pair(
    first_key: &str,
    first: serde_json::Value,
    second_key: &str,
    second: serde_json::Value,
) -> (r: serde_json::Value)
    ensures
        json_model(r) == JsonModel::Object(
            Map::<Seq<char>, JsonModel>::empty().insert(first_key@, json_model(first)).insert(
                second_key@,
                json_model(second),
            ),
        ),
{
    let mut members = serde_json::Map::new();
    members.insert(first_key.to_owned(), first);
    members.insert(second_key.to_owned(), second);
    serde_json::Value::Object(members)
}

/// The text under `key` in an object.
pub open spec fn text_member(document: JsonModel, key: Seq<char>) -> Result<
    Seq<char>,
    DecodeError,
> {
    match document {
        JsonModel::Object(members) => if members.contains_key(key) {
            match members[key] {
                JsonModel::Text(text) => Ok(text),
                _ => Err(DecodeError::NotText),
            }
        } else {
            Err(DecodeError::MissingMember)
        },
        _ => Err(DecodeError::NotAnObject),
    }
}

/// Reads the text under `key` in an object.
fn read_text_member(value: &serde_json::Value, key: &str) -> (r: Result<String, DecodeError>)
    ensures
        match text_member(json_model(*value), key@) {
            Ok(text) => r is Ok && r->Ok_0@ == text,
            Err(e) => r == Err::<String, DecodeError>(e),
        },
{
    match json_member(value, key) {
        Some(member) => match json_text(member) {
            Some(text) => Ok(owned(text)),
            None => Err(DecodeError::NotText),
        },
        None => {
            if json_is_object(value) {
                Err(DecodeError::MissingMember)
            } else {
                Err(DecodeError::NotAnObject)
            }
        },
    }
}

/// `serde_json::Value::is_object`: whether the document is an object.
#[verifier::external_body]
fn json_is_object(value: &serde_json::Value) -> (r: bool)
    ensures
        r == (json_model(*value) is Object),
{
    value.is_object()
}

/// The field value that one element of a fields column holds: an object
/// with a known kind as text under `field_type` and a text under `value`.
/// Other members are passed over.
pub open spec fn decoded_field(document: JsonModel) -> Result<(FieldType, Seq<char>), DecodeError> {
    match text_member(document, "field_type"@) {
        Ok(name) => match FieldType::named(name) {
            Some(field_type) => match text_member(document, "value"@) {
                Ok(value) => Ok((field_type, value)),
                Err(e) => Err(e),
            },
            None => Err(DecodeError::UnknownFieldType),
        },
        Err(e) => Err(e),
    }
}

/// The field values that the first `n` elements hold, or the fault of the
/// first element that holds none.
pub open spec fn decoded_field_prefix(items: Seq<JsonModel>, n: nat) -> Result<
    Seq<(FieldType, Seq<char>)>,
    DecodeError,
>
    decreases n,
{
    if n == 0 {
        Ok(Seq::empty())
    } else {
        match decoded_field_prefix(items, (n - 1) as nat) {
            Ok(fields) => match decoded_field(items[n - 1]) {
                Ok(field) => Ok(fields.push(field)),
                Err(e) => Err(e),
            },
            Err(e) => Err(e),
        }
    }
}

/// The field values that a fields column holds, in the order of the array.
pub open spec fn decoded_fields(document: JsonModel) -> Result<
    Seq<(FieldType, Seq<char>)>,
    DecodeError,
> {
    match document {
        JsonModel::Array(items) => decoded_field_prefix(items, items.len()),
        _ => Err(DecodeError::NotAnArray),
    }
}

/// The element that stands for one field value in a fields column.
pub open spec fn encoded_field(field: (FieldType, Seq<char>)) -> JsonModel {
    JsonModel::Object(
        Map::<Seq<char>, JsonModel>::empty().insert(
            "field_type"@,
            JsonModel::Text(field.0.name()),
        ).insert("value"@, JsonModel::Text(field.1)),
    )
}

/// The fields column for a sequence of field values.
pub open spec fn encoded_fields(fields: Seq<(FieldType, Seq<char>)>) -> JsonModel {
    JsonModel::Array(Seq::new(fields.len(), |i: int| encoded_field(fields[i])))
}

/// Reads one field value from an element of a fields column.
pub fn decode_field(value: &serde_json::Value) -> (r: Result<Field, DecodeError>)
    ensures
        match decoded_field(json_model(*value)) {
            Ok(field) => r is Ok && r->Ok_0.view() == field,
            Err(e) => r == Err::<Field, DecodeError>(e),
        },
{
    let name = match read_text_member(value, "field_type") {
        Ok(name) => name,
        Err(e) => { return Err(e); },
    };
    let field_type = match FieldType::from_name(name.as_str()) {
        Some(field_type) => field_type,
        None => { return Err(DecodeError::UnknownFieldType); },
    };
    match read_text_member(value, "value") {
        Ok(text) => Ok(Field { field_type, value: text }),
        Err(e) => Err(e),
    }
}

/// Reads the field values of a fields column, in order. Any element that
/// is no field value fails the whole column.
pub fn decode_fields(column: &serde_json::Value) -> (r: Result<Vec<Field>, DecodeError>)
    ensures
        match decoded_fields(json_model(*column)) {
            Ok(fields) => r is Ok && fields_view(r->Ok_0@) == fields,
            Err(e) => r == Err::<Vec<Field>, DecodeError>(e),
        },
{
    let items = match json_items(column) {
        Some(items) => items,
        None => { return Err(DecodeError::NotAnArray); },
    };
    let ghost models = json_models(items@);
    let mut fields: Vec<Field> = Vec::new();
    let mut i: usize = 0;
    assert(fields_view(fields@) =~= Seq::empty());
    while i < items.len()
        invariant
            i <= items.len(),
            models == json_models(items@),
            json_model(*column) == JsonModel::Array(models),
            decoded_field_prefix(models, i as nat) == Ok::<
                Seq<(FieldType, Seq<char>)>,
                DecodeError,
            >(fields_view(fields@)),
        decreases items.len() - i,
    {
        match decode_field(&items[i]) {
            Ok(field) => {
                let ghost before = fields_view(fields@);
                fields.push(field);
                assert(models[i as int] == json_model(items@[i as int]));
                assert(fields_view(fields@) =~= before.push(field.view()));
            },
            Err(e) => {
                proof {
                    assert(models[i as int] == json_model(items@[i as int]));
                    assert(decoded_field_prefix(models, (i + 1) as nat) is Err);
                    lemma_prefix_error_stays(models, (i + 1) as nat, models.len());
                }
                return Err(e);
            },
        }
        i += 1;
    }
    Ok(fields)
}

/// Once a prefix fails, every longer prefix fails in the same way.
proof fn lemma_prefix_error_stays(items: Seq<JsonModel>, n: nat, m: nat)
    requires
        n <= m,
        decoded_field_prefix(items, n) is Err,
    ensures
        decoded_field_prefix(items, m) == decoded_field_prefix(items, n),
    decreases m,
{
    if n < m {
        lemma_prefix_error_stays(items, n, (m - 1) as nat);
    }
}

/// Writes one field value as an element of a fields column.
pub fn encode_field(field: &Field) -> (r: serde_json::Value)
    ensures
        json_model(r) == encoded_field(field.view()),
{
    json_from_pair(
        "field_type",
        json_from_text(owned(field.field_type.as_name())),
        "value",
        json_from_text(field.value.clone()),
    )
}

/// Writes field values as a fields column, in order.
pub fn encode_fields(fields: &Vec<Field>) -> (r: serde_json::Value)
    ensures
        json_model(r) == encoded_fields(fields_view(fields@)),
{
    let mut items: Vec<serde_json::Value> = Vec::new();
    let mut i: usize = 0;
    while i < fields.len()
        invariant
            i <= fields.len(),
            items@.len() == i,
            forall|j: int| 0 <= j < i ==> json_model(#[trigger] items@[j]) == encoded_field(fields@[j].view()),
        decreases fields.len() - i,
    {
        items.push(encode_field(&fields[i]));
        i += 1;
    }
    assert(json_models(items@) =~= Seq::new(
        fields_view(fields@).len(),
        |i: int| encoded_field(fields_view(fields@)[i]),
    ));
    json_from_items(items)
}

/// A fields column that was written from field values is read back as the
/// same values in the same order, each with its kind.
pub proof fn fields_round_trip(fields: Seq<(FieldType, Seq<char>)>)
    ensures
        decoded_fields(encoded_fields(fields)) == Ok::<Seq<(FieldType, Seq<char>)>, DecodeError>(
            fields,
        ),
{
    lemma_encoded_prefix(fields, fields.len());
    assert(fields.take(fields.len() as int) =~= fields);
}

/// The first `n` elements of an encoded column decode to the first `n`
/// field values.
proof fn lemma_encoded_prefix(fields: Seq<(FieldType, Seq<char>)>, n: nat)
    requires
        n <= fields.len(),
    ensures
        decoded_field_prefix(Seq::new(fields.len(), |i: int| encoded_field(fields[i])), n) == Ok::<
            Seq<(FieldType, Seq<char>)>,
            DecodeError,
        >(fields.take(n as int)),
    decreases n,
{
    let items = Seq::new(fields.len(), |i: int| encoded_field(fields[i]));
    if n == 0 {
        assert(fields.take(0) =~= Seq::empty());
    } else {
        lemma_encoded_prefix(fields, (n - 1) as nat);
        field_round_trip(fields[n - 1]);
        assert(items[n - 1] == encoded_field(fields[n - 1]));
        assert(fields.take(n as int) =~= fields.take(n - 1).push(fields[n - 1]));
    }
}

/// One encoded field value decodes to itself.
pub proof fn field_round_trip(field: (FieldType, Seq<char>))
    ensures
        decoded_field(encoded_field(field)) == Ok::<(FieldType, Seq<char>), DecodeError>(field),
{
    reveal_strlit("field_type");
    reveal_strlit("value");
    assert("field_type"@.len() != "value"@.len());
    FieldType::name_round_trip(field.0);
}

/// What contracts say of a tag on a content item: its id and its name.
pub open spec fn tag_view(tag: ContentTag) -> (Seq<char>, Seq<char>) {
    (tag.id@, tag.name@)
}

/// What contracts say of a sequence of tags.
pub open spec fn tags_view(tags: Seq<ContentTag>) -> Seq<(Seq<char>, Seq<char>)> {
    Seq::new(tags.len(), |i: int| tag_view(tags[i]))
}

/// The tag that one element of a tags column holds: an object with texts
/// under `id` and `name`.
pub open spec fn decoded_tag(document: JsonModel) -> Result<(Seq<char>, Seq<char>), DecodeError> {
    match text_member(document, "id"@) {
        Ok(id) => match text_member(document, "name"@) {
            Ok(name) => Ok((id, name)),
            Err(e) => Err(e),
        },
        Err(e) => Err(e),
    }
}

/// The tags that the first `n` elements hold, or the fault of the first
/// element that holds none.
pub open spec fn decoded_tag_prefix(items: Seq<JsonModel>, n: nat) -> Result<
    Seq<(Seq<char>, Seq<char>)>,
    DecodeError,
>
    decreases n,
{
    if n == 0 {
        Ok(Seq::empty())
    } else {
        match decoded_tag_prefix(items, (n - 1) as nat) {
            Ok(tags) => match decoded_tag(items[n - 1]) {
                Ok(tag) => Ok(tags.push(tag)),
                Err(e) => Err(e),
            },
            Err(e) => Err(e),
        }
    }
}

/// The tags that a tags column holds, in the order of the array.
pub open spec fn decoded_tags(document: JsonModel) -> Result<
    Seq<(Seq<char>, Seq<char>)>,
    DecodeError,
> {
    match document {
        JsonModel::Array(items) => decoded_tag_prefix(items, items.len()),
        _ => Err(DecodeError::NotAnArray),
    }
}

/// Reads one tag from an element of a tags column.
pub fn decode_tag(value: &serde_json::Value) -> (r: Result<ContentTag, DecodeError>)
    ensures
        match decoded_tag(json_model(*value)) {
            Ok(tag) => r is Ok && tag_view(r->Ok_0) == tag,
            Err(e) => r == Err::<ContentTag, DecodeError>(e),
        },
{
    let id = match read_text_member(value, "id") {
        Ok(id) => id,
        Err(e) => { return Err(e); },
    };
    match read_text_member(value, "name") {
        Ok(name) => Ok(ContentTag { id, name }),
        Err(e) => Err(e),
    }
}

/// Reads the tags of a tags column, in order. Any element that is no tag
/// fails the whole column.
pub fn decode_tags(column: &serde_json::Value) -> (r: Result<Vec<ContentTag>, DecodeError>)
    ensures
        match decoded_tags(json_model(*column)) {
            Ok(tags) => r is Ok && tags_view(r->Ok_0@) == tags,
            Err(e) => r == Err::<Vec<ContentTag>, DecodeError>(e),
        },
{
    let items = match json_items(column) {
        Some(items) => items,
        None => { return Err(DecodeError::NotAnArray); },
    };
    let ghost models = json_models(items@);
    let mut tags: Vec<ContentTag> = Vec::new();
    let mut i: usize = 0;
    assert(tags_view(tags@) =~= Seq::empty());
    while i < items.len()
        invariant
            i <= items.len(),
            models == json_models(items@),
            json_model(*column) == JsonModel::Array(models),
            decoded_tag_prefix(models, i as nat) == Ok::<
                Seq<(Seq<char>, Seq<char>)>,
                DecodeError,
            >(tags_view(tags@)),
        decreases items.len() - i,
    {
        match decode_tag(&items[i]) {
            Ok(tag) => {
                let ghost before = tags_view(tags@);
                tags.push(tag);
                assert(models[i as int] == json_model(items@[i as int]));
                assert(tags_view(tags@) =~= before.push(tag_view(tag)));
            },
            Err(e) => {
                proof {
                    assert(models[i as int] == json_model(items@[i as int]));
                    assert(decoded_tag_prefix(models, (i + 1) as nat) is Err);
                    lemma_tag_prefix_error_stays(models, (i + 1) as nat, models.len());
                }
                return Err(e);
            },
        }
        i += 1;
    }
    Ok(tags)
}

/// Once a prefix fails, every longer prefix fails in the same way.
proof fn lemma_tag_prefix_error_stays(items: Seq<JsonModel>, n: nat, m: nat)
    requires
        n <= m,
        decoded_tag_prefix(items, n) is Err,
    ensures
        decoded_tag_prefix(items, m) == decoded_tag_prefix(items, n),
    decreases m,
{
    if n < m {
        lemma_tag_prefix_error_stays(items, n, (m - 1) as nat);
    }
}

/// The boolean under `key` in an object.
pub open spec fn flag_member(document: JsonModel, key: Seq<char>) -> Result<bool, DecodeError> {
    match document {
        JsonModel::Object(members) => if members.contains_key(key) {
            match members[key] {
                JsonModel::Bool(flag) => Ok(flag),
                _ => Err(DecodeError::NotABoolean),
            }
        } else {
            Err(DecodeError::MissingMember)
        },
        _ => Err(DecodeError::NotAnObject),
    }
}

/// Reads the boolean under `key` in an object.
fn read_flag_member(value: &serde_json::Value, key: &str) -> (r: Result<bool, DecodeError>)
    ensures
        r == flag_member(json_model(*value), key@),
{
    match json_member(value, key) {
        Some(member) => match json_flag(member) {
            Some(flag) => Ok(flag),
            None => Err(DecodeError::NotABoolean),
        },
        None => {
            if json_is_object(value) {
                Err(DecodeError::MissingMember)
            } else {
                Err(DecodeError::NotAnObject)
            }
        },
    }
}

/// What contracts say of a field definition.
pub struct FieldMetaModel {
    pub name: Seq<char>,
    pub field_id: Seq<char>,
    pub field_type: FieldType,
    pub is_required: bool,
}

/// What contracts say of a field definition.
pub open spec fn field_meta_view(meta: FieldMeta) -> FieldMetaModel {
    FieldMetaModel {
        name: meta.name@,
        field_id: meta.field_id@,
        field_type: meta.field_type,
        is_required: meta.is_required,
    }
}

/// What contracts say of a sequence of field definitions.
pub open spec fn field_metas_view(metas: Seq<FieldMeta>) -> Seq<FieldMetaModel> {
    Seq::new(metas.len(), |i: int| field_meta_view(metas[i]))
}

/// The field definition that one element of a field definitions column
/// holds: an object with texts under `name` and `field_id`, a known kind
/// as text under `field_type`, and a boolean under `is_required`.
pub open spec fn decoded_field_meta(document: JsonModel) -> Result<FieldMetaModel, DecodeError> {
    match text_member(document, "name"@) {
        Ok(name) => match text_member(document, "field_id"@) {
            Ok(field_id) => match text_member(document, "field_type"@) {
                Ok(kind) => match FieldType::named(kind) {
                    Some(field_type) => match flag_member(document, "is_required"@) {
                        Ok(is_required) => Ok(
                            FieldMetaModel { name, field_id, field_type, is_required },
                        ),
                        Err(e) => Err(e),
                    },
                    None => Err(DecodeError::UnknownFieldType),
                },
                Err(e) => Err(e),
            },
            Err(e) => Err(e),
        },
        Err(e) => Err(e),
    }
}

/// The field definitions that the first `n` elements hold, or the fault
/// of the first element that holds none.
pub open spec fn decoded_field_meta_prefix(items: Seq<JsonModel>, n: nat) -> Result<
    Seq<FieldMetaModel>,
    DecodeError,
>
    decreases n,
{
    if n == 0 {
        Ok(Seq::empty())
    } else {
        match decoded_field_meta_prefix(items, (n - 1) as nat) {
            Ok(metas) => match decoded_field_meta(items[n - 1]) {
                Ok(meta) => Ok(metas.push(meta)),
                Err(e) => Err(e),
            },
            Err(e) => Err(e),
        }
    }
}

/// The field definitions that a column holds, in the order of the array.
pub open spec fn decoded_field_metas(document: JsonModel) -> Result<
    Seq<FieldMetaModel>,
    DecodeError,
> {
    match document {
        JsonModel::Array(items) => decoded_field_meta_prefix(items, items.len()),
        _ => Err(DecodeError::NotAnArray),
    }
}

/// Reads one field definition from an element of a column.
pub fn decode_field_meta(value: &serde_json::Value) -> (r: Result<FieldMeta, DecodeError>)
    ensures
        match decoded_field_meta(json_model(*value)) {
            Ok(meta) => r is Ok && field_meta_view(r->Ok_0) == meta,
            Err(e) => r == Err::<FieldMeta, DecodeError>(e),
        },
{
    let name = match read_text_member(value, "name") {
        Ok(name) => name,
        Err(e) => { return Err(e); },
    };
    let field_id = match read_text_member(value, "field_id") {
        Ok(field_id) => field_id,
        Err(e) => { return Err(e); },
    };
    let kind = match read_text_member(value, "field_type") {
        Ok(kind) => kind,
        Err(e) => { return Err(e); },
    };
    let field_type = match FieldType::from_name(kind.as_str()) {
        Some(field_type) => field_type,
        None => { return Err(DecodeError::UnknownFieldType); },
    };
    match read_flag_member(value, "is_required") {
        Ok(is_required) => Ok(FieldMeta { name, field_id, field_type, is_required }),
        Err(e) => Err(e),
    }
}

/// Reads the field definitions of a column, in order. Any element that is
/// no field definition fails the whole column.
pub fn decode_field_metas(column: &serde_json::Value) -> (r: Result<Vec<FieldMeta>, DecodeError>)
    ensures
        match decoded_field_metas(json_model(*column)) {
            Ok(metas) => r is Ok && field_metas_view(r->Ok_0@) == metas,
            Err(e) => r == Err::<Vec<FieldMeta>, DecodeError>(e),
        },
{
    let items = match json_items(column) {
        Some(items) => items,
        None => { return Err(DecodeError::NotAnArray); },
    };
    let ghost models = json_models(items@);
    let mut metas: Vec<FieldMeta> = Vec::new();
    let mut i: usize = 0;
    assert(field_metas_view(metas@) =~= Seq::empty());
    while i < items.len()
        invariant
            i <= items.len(),
            models == json_models(items@),
            json_model(*column) == JsonModel::Array(models),
            decoded_field_meta_prefix(models, i as nat) == Ok::<Seq<FieldMetaModel>, DecodeError>(
                field_metas_view(metas@),
            ),
        decreases items.len() - i,
    {
        match decode_field_meta(&items[i]) {
            Ok(meta) => {
                let ghost before = field_metas_view(metas@);
                metas.push(meta);
                assert(models[i as int] == json_model(items@[i as int]));
                assert(field_metas_view(metas@) =~= before.push(field_meta_view(meta)));
            },
            Err(e) => {
                proof {
                    assert(models[i as int] == json_model(items@[i as int]));
                    assert(decoded_field_meta_prefix(models, (i + 1) as nat) is Err);
                    lemma_field_meta_prefix_error_stays(models, (i + 1) as nat, models.len());
                }
                return Err(e);
            },
        }
        i += 1;
    }
    Ok(metas)
}

/// Once a prefix fails, every longer prefix fails in the same way.
proof fn lemma_field_meta_prefix_error_stays(items: Seq<JsonModel>, n: nat, m: nat)
    requires
        n <= m,
        decoded_field_meta_prefix(items, n) is Err,
    ensures
        decoded_field_meta_prefix(items, m) == decoded_field_meta_prefix(items, n),
    decreases m,
{
    if n < m {
        lemma_field_meta_prefix_error_stays(items, n, (m - 1) as nat);
    }
}

} // verus!
