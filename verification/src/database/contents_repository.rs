//! Content rows and how they become content items.

use vstd::prelude::*;
use vstd::std_specs::convert::FromSpecImpl;
use crate::database::json::{
    decode_fields, decode_tags, decoded_fields, decoded_tags, json_model, tag_view, tags_view,
};
use crate::error::RepositoryError;
use crate::ident::{canonical_text, EntityId};
use crate::model::content::{
    Content, ContentCategory, ContentStatus, ContentTag, CreatedBy, Timestamp, UpdatedBy,
};
use crate::model::field::{fields_view, Field};
use crate::model::field_meta::FieldType;

verus! {

/// The status of a content row, as the store's enumerated type has it.
#[derive(Debug, Clone, Copy, PartialEq, Eq, Structural)]
pub enum ContentRowStatus {
    Draft,
    Published,
    Reserved,
    Unpublished,
}

/// The status of the model that stands for a status of the store.
pub open spec fn model_status(row: ContentRowStatus) -> ContentStatus {
    match row {
        ContentRowStatus::Draft => ContentStatus::Draft,
        ContentRowStatus::Published => ContentStatus::Published,
        ContentRowStatus::Reserved => ContentStatus::Reserved,
        ContentRowStatus::Unpublished => ContentStatus::Unpublished,
    }
}

/// The status of the store that stands for a status of the model.
pub open spec fn row_status(model: ContentStatus) -> ContentRowStatus {
    match model {
        ContentStatus::Draft => ContentRowStatus::Draft,
        ContentStatus::Published => ContentRowStatus::Published,
        ContentStatus::Reserved => ContentRowStatus::Reserved,
        ContentStatus::Unpublished => ContentRowStatus::Unpublished,
    }
}

impl From<ContentRowStatus> for ContentStatus {
    fn from(content_row_status: ContentRowStatus) -> (r: ContentStatus) {
        match content_row_status {
            ContentRowStatus::Draft => ContentStatus::Draft,
            ContentRowStatus::Published => ContentStatus::Published,
            ContentRowStatus::Reserved => ContentStatus::Reserved,
            ContentRowStatus::Unpublished => ContentStatus::Unpublished,
        }
    }
}

impl FromSpecImpl<ContentRowStatus> for ContentStatus {
    open spec fn obeys_from_spec() -> bool {
        true
    }

    open spec fn from_spec(content_row_status: ContentRowStatus) -> ContentStatus {
        model_status(content_row_status)
    }
}

impl From<ContentStatus> for ContentRowStatus {
    fn from(content_status: ContentStatus) -> (r: ContentRowStatus) {
        match content_status {
            ContentStatus::Draft => ContentRowStatus::Draft,
            ContentStatus::Published => ContentRowStatus::Published,
            ContentStatus::Reserved => ContentRowStatus::Reserved,
            ContentStatus::Unpublished => ContentRowStatus::Unpublished,
        }
    }
}

impl FromSpecImpl<ContentStatus> for ContentRowStatus {
    open spec fn obeys_from_spec() -> bool {
        true
    }

    open spec fn from_spec(content_status: ContentStatus) -> ContentRowStatus {
        row_status(content_status)
    }
}

/// The status of the store and the status of the model stand one for one:
/// going to the other side and back gives the status one started from.
pub proof fn status_mapping_is_one_to_one(row: ContentRowStatus, model: ContentStatus)
    ensures
        row_status(model_status(row)) == row,
        model_status(row_status(model)) == model,
{
}

/// A content row as the listing reads it: the row as a write returns it,
/// and its tags gathered into a JSON column.
#[derive(Debug, Clone)]
pub struct ContentsRow {
    pub content: ContentRow,
    pub tags: serde_json::Value,
}

/// A tag row as far as a content item shows it.
#[derive(Debug, Clone)]
pub struct TagRow {
    pub id: EntityId,
    pub name: String,
}

impl TagRow {
    /// What contracts say of the tag that the row stands for: the
    /// identifier in its canonical form, and the name.
    pub open spec fn tag(self) -> (Seq<char>, Seq<char>) {
        (canonical_text(self.id.value), self.name@)
    }

    /// The tag that the row stands for.
    pub fn to_content_tag(&self) -> (r: ContentTag)
        ensures
            r.id@ == canonical_text(self.id.value),
            r.name == self.name,
    {
        ContentTag { id: self.id.to_text(), name: self.name.clone() }
    }
}

/// What contracts say of the tags that rows stand for, in order.
pub open spec fn row_tags(rows: Seq<TagRow>) -> Seq<(Seq<char>, Seq<char>)> {
    Seq::new(rows.len(), |i: int| rows[i].tag())
}

/// A content row as a write returns it: joined with its category and its
/// users, without its tags.
#[derive(Debug, Clone)]
pub struct ContentRow {
    pub id: EntityId,
    pub title: String,
    pub fields: serde_json::Value,
    pub status: ContentRowStatus,
    pub published_at: Option<Timestamp>,
    pub created_by_id: EntityId,
    pub created_by_name: String,
    pub updated_by_id: EntityId,
    pub updated_by_name: String,
    pub created_at: Timestamp,
    pub updated_at: Timestamp,
    pub category_id: EntityId,
    pub category_name: String,
}

impl ContentRow {
    /// Whether `content` shows the columns of this row: identifiers in
    /// their canonical form, the status of the model that stands for the
    /// row's, the time of publication present exactly where the row has
    /// one, everything else as it is.
    pub open spec fn shown_by(self, content: Content) -> bool {
        &&& content.id@ == canonical_text(self.id.value)
        &&& content.title == self.title
        &&& content.category.id@ == canonical_text(self.category_id.value)
        &&& content.category.name == self.category_name
        &&& content.status == model_status(self.status)
        &&& content.created_by.id@ == canonical_text(self.created_by_id.value)
        &&& content.created_by.name == self.created_by_name
        &&& content.updated_by.id@ == canonical_text(self.updated_by_id.value)
        &&& content.updated_by.name == self.updated_by_name
        &&& content.published_at == self.published_at
        &&& content.created_at == self.created_at
        &&& content.updated_at == self.updated_at
    }
}

/// Puts a content item together from a row, the field values read from
/// its column, and its tags.
fn assemble(content_row: &ContentRow, fields: Vec<Field>, tags: Vec<ContentTag>) -> (r: Content)
    ensures
        content_row.shown_by(r),
        r.fields == fields,
        r.tags == tags,
{
    Content {
        id: content_row.id.to_text(),
        title: content_row.title.clone(),
        category: ContentCategory::new(
            content_row.category_id.to_text(),
            content_row.category_name.clone(),
        ),
        status: ContentStatus::from(content_row.status),
        fields,
        tags,
        created_by: CreatedBy::new(
            content_row.created_by_id.to_text(),
            content_row.created_by_name.clone(),
        ),
        updated_by: UpdatedBy::new(
            content_row.updated_by_id.to_text(),
            content_row.updated_by_name.clone(),
        ),
        published_at: content_row.published_at,
        created_at: content_row.created_at,
        updated_at: content_row.updated_at,
    }
}

/// Builds the content item that a row and the rows of its tags stand for.
/// The field values are read from their JSON column, in order; a column
/// that holds none fails the whole row. The tags stand in the order of
/// their rows.
pub fn try_new_content(content_row: &ContentRow, tag_rows: &Vec<TagRow>) -> (r: Result<
    Content,
    RepositoryError,
>)
    ensures
        match decoded_fields(json_model(content_row.fields)) {
            Ok(fields) => {
                &&& r is Ok
                &&& content_row.shown_by(r->Ok_0)
                &&& fields_view(r->Ok_0.fields@) == fields
                &&& tags_view(r->Ok_0.tags@) == row_tags(tag_rows@)
            },
            Err(e) => r == Err::<Content, RepositoryError>(RepositoryError::Decode(e)),
        },
{
    let fields = match decode_fields(&content_row.fields) {
        Ok(fields) => fields,
        Err(e) => { return Err(RepositoryError::Decode(e)); },
    };
    let mut tags: Vec<ContentTag> = Vec::new();
    let mut i: usize = 0;
    while i < tag_rows.len()
        invariant
            i <= tag_rows.len(),
            tags@.len() == i,
            forall|j: int| 0 <= j < i ==> tag_view(#[trigger] tags@[j]) == tag_rows@[j].tag(),
        decreases tag_rows.len() - i,
    {
        tags.push(tag_rows[i].to_content_tag());
        i += 1;
    }
    assert(tags_view(tags@) =~= row_tags(tag_rows@));
    Ok(assemble(content_row, fields, tags))
}

/// The field values of a content item and its tags, as contracts say
/// them.
pub type Decoded = (Seq<(FieldType, Seq<char>)>, Seq<(Seq<char>, Seq<char>)>);

impl ContentsRow {
    /// The field values and the tags that the JSON columns hold, or the
    /// fault of the fields column, or else that of the tags column.
    pub open spec fn decoded(self) -> Result<Decoded, RepositoryError> {
        match decoded_fields(json_model(self.content.fields)) {
            Err(e) => Err(RepositoryError::Decode(e)),
            Ok(fields) => match decoded_tags(json_model(self.tags)) {
                Err(e) => Err(RepositoryError::Decode(e)),
                Ok(tags) => Ok((fields, tags)),
            },
        }
    }

    /// Whether `content` is the content item that the row stands for.
    pub open spec fn shown_by(self, content: Content) -> bool {
        &&& self.content.shown_by(content)
        &&& self.decoded() == Ok::<Decoded, RepositoryError>(
            (fields_view(content.fields@), tags_view(content.tags@)),
        )
    }

    /// Builds the content item that a row of the listing stands for. The
    /// field values and the tags are read from their JSON columns, in
    /// order; a column that does not hold them fails the whole row.
    pub fn try_to_content(&self) -> (r: Result<Content, RepositoryError>)
        ensures
            match self.decoded() {
                Ok(_) => r is Ok && self.shown_by(r->Ok_0),
                Err(e) => r == Err::<Content, RepositoryError>(e),
            },
    {
        let fields = match decode_fields(&self.content.fields) {
            Ok(fields) => fields,
            Err(e) => { return Err(RepositoryError::Decode(e)); },
        };
        let tags = match decode_tags(&self.tags) {
            Ok(tags) => tags,
            Err(e) => { return Err(RepositoryError::Decode(e)); },
        };
        Ok(assemble(&self.content, fields, tags))
    }
}

/// The fault of the first of the first `n` rows that stands for no content
/// item, if there is such a row.
pub open spec fn first_failure(rows: Seq<ContentsRow>, n: nat) -> Option<RepositoryError>
    decreases n,
{
    if n == 0 {
        None
    } else if first_failure(rows, (n - 1) as nat) is Some {
        first_failure(rows, (n - 1) as nat)
    } else {
        match rows[n - 1].decoded() {
            Err(e) => Some(e),
            Ok(_) => None,
        }
    }
}

/// Builds the content items that the rows of a listing stand for, in
/// order. One row that fails fails the listing, with the fault of the
/// first such row.
pub fn try_to_contents(rows: &Vec<ContentsRow>) -> (r: Result<Vec<Content>, RepositoryError>)
    ensures
        match first_failure(rows@, rows@.len()) {
            Some(e) => r == Err::<Vec<Content>, RepositoryError>(e),
            None => {
                &&& r is Ok
                &&& r->Ok_0@.len() == rows@.len()
                &&& forall|i: int|
                    0 <= i < rows@.len() ==> rows@[i].shown_by(#[trigger] r->Ok_0@[i])
            },
        },
{
    let mut contents: Vec<Content> = Vec::new();
    let mut i: usize = 0;
    while i < rows.len()
        invariant
            i <= rows.len(),
            first_failure(rows@, i as nat) is None,
            contents@.len() == i,
            forall|j: int| 0 <= j < i ==> rows@[j].shown_by(#[trigger] contents@[j]),
        decreases rows.len() - i,
    {
        match rows[i].try_to_content() {
            Ok(content) => {
                contents.push(content);
            },
            Err(e) => {
                proof {
                    assert(first_failure(rows@, (i + 1) as nat) == Some(e));
                    lemma_first_failure_stays(rows@, (i + 1) as nat, rows@.len());
                }
                return Err(e);
            },
        }
        i += 1;
    }
    Ok(contents)
}

/// Once one of the first rows fails, the first failure stays what it is
/// however many rows follow.
proof fn lemma_first_failure_stays(rows: Seq<ContentsRow>, n: nat, m: nat)
    requires
        n <= m,
        first_failure(rows, n) is Some,
    ensures
        first_failure(rows, m) == first_failure(rows, n),
    decreases m,
{
    if n < m {
        lemma_first_failure_stays(rows, n, (m - 1) as nat);
    }
}

} // verus!
