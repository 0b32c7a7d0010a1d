//! What can be asked of the store about content models.

use vstd::prelude::*;
use crate::database::json::{field_metas_view, FieldMetaModel};
use crate::error::{IdField, RepositoryError, ValidationError};
use crate::ident::{canonical_text, lemma_position, position, EntityId};
use crate::model::content_model::{content_model_violation, ContentModel};
use crate::text::{replaced, text_or_empty};
use crate::validation::{
    check_api_identifier, check_name, check_optional_api_identifier, check_optional_description,
    check_optional_name, first_of, optional_api_identifier_violation,
    optional_description_violation, optional_name_violation, optional_view, API_IDENTIFIER_MAX,
    DESCRIPTION_MAX, NAME_MAX,
};

verus! {

/// The fields of a content model to create.
#[derive(Debug, Clone)]
pub struct CreateContentModel {
    pub name: String,
    pub api_identifier: String,
    pub description: Option<String>,
}

impl CreateContentModel {
    pub fn new(name: String, api_identifier: String, description: Option<String>) -> (r:
        CreateContentModel)
        ensures
            r == (CreateContentModel { name, api_identifier, description }),
    {
        CreateContentModel { name, api_identifier, description }
    }

    /// The first rule of a content model that the fields break.
    pub open spec fn violation(&self) -> Option<ValidationError> {
        content_model_violation(self.name@, self.api_identifier@, optional_view(self.description))
    }

    /// Holds the fields against the rules of a content model.
    pub fn validate(&self) -> (r: Option<ValidationError>)
        ensures
            r == self.violation(),
    {
        if let Some(e) = check_name(self.name.as_str(), false) {
            return Some(e);
        }
        if let Some(e) = check_api_identifier(self.api_identifier.as_str(), false) {
            return Some(e);
        }
        check_optional_description(&self.description)
    }
}

/// The changes to make to a content model: an absent field stays as it is
/// stored.
#[derive(Debug, Clone)]
pub struct UpdateContentModel {
    pub id: String,
    pub name: Option<String>,
    pub api_identifier: Option<String>,
    pub description: Option<String>,
}

impl UpdateContentModel {
    pub fn new(
        id: String,
        name: Option<String>,
        api_identifier: Option<String>,
        description: Option<String>,
    ) -> (r: UpdateContentModel)
        ensures
            r == (UpdateContentModel { id, name, api_identifier, description }),
    {
        UpdateContentModel { id, name, api_identifier, description }
    }

    /// The first rule of a content model that a new value breaks.
    pub open spec fn violation(&self) -> Option<ValidationError> {
        first_of(
            optional_name_violation(optional_view(self.name), false),
            first_of(
                optional_api_identifier_violation(optional_view(self.api_identifier), false),
                optional_description_violation(optional_view(self.description)),
            ),
        )
    }

    /// Holds the new values against the rules of a content model.
    pub fn validate(&self) -> (r: Option<ValidationError>)
        ensures
            r == self.violation(),
    {
        if let Some(e) = check_optional_name(&self.name, false) {
            return Some(e);
        }
        if let Some(e) = check_optional_api_identifier(&self.api_identifier, false) {
            return Some(e);
        }
        check_optional_description(&self.description)
    }
}

/// What contracts say of a stored content model.
pub struct ContentModelRecord {
    pub id: EntityId,
    pub name: Seq<char>,
    pub api_identifier: Seq<char>,
    pub description: Seq<char>,
    pub field_metas: Seq<FieldMetaModel>,
}

/// Whether `model` is the content model that a row stands for: the
/// identifier in its canonical form, the other columns as they are, the
/// description always present, the field definitions in order.
pub open spec fn shows(model: ContentModel, record: ContentModelRecord) -> bool {
    &&& model.id@ == canonical_text(record.id.value)
    &&& model.name@ == record.name
    &&& model.api_identifier@ == record.api_identifier
    &&& model.description is Some
    &&& model.description->Some_0@ == record.description
    &&& field_metas_view(model.field_metas@) == record.field_metas
}

/// The identifiers of content model rows, in order.
pub open spec fn record_ids(rows: Seq<ContentModelRecord>) -> Seq<EntityId> {
    Seq::new(rows.len(), |i: int| rows[i].id)
}

impl CreateContentModel {
    /// A field that is longer than its bound breaks a rule.
    pub proof fn over_long_is_refused(self)
        ensures
            self.name@.len() > NAME_MAX ==> self.violation() is Some,
            self.api_identifier@.len() > API_IDENTIFIER_MAX ==> self.violation() is Some,
            self.description is Some && self.description->Some_0@.len() > DESCRIPTION_MAX
                ==> self.violation() is Some,
    {
    }

    /// The row that is stored for the fields under `id`.
    pub open spec fn record(self, id: EntityId) -> ContentModelRecord {
        ContentModelRecord {
            id,
            name: self.name@,
            api_identifier: self.api_identifier@,
            description: text_or_empty(self.description),
            field_metas: Seq::empty(),
        }
    }
}

impl UpdateContentModel {
    /// A new value that is longer than its bound breaks a rule.
    pub proof fn over_long_is_refused(self)
        ensures
            self.name is Some && self.name->Some_0@.len() > NAME_MAX ==> self.violation() is Some,
            self.api_identifier is Some && self.api_identifier->Some_0@.len() > API_IDENTIFIER_MAX
                ==> self.violation() is Some,
            self.description is Some && self.description->Some_0@.len() > DESCRIPTION_MAX
                ==> self.violation() is Some,
    {
    }

    /// Whether the update names no field to change.
    pub open spec fn changes_nothing(self) -> bool {
        self.name is None && self.api_identifier is None && self.description is None
    }

    /// The row that the update makes of a stored row: each field that is
    /// present takes the place of the stored one, each absent field leaves
    /// the stored one as it is.
    pub open spec fn applied_to(self, stored: ContentModelRecord) -> ContentModelRecord {
        ContentModelRecord {
            id: stored.id,
            name: replaced(stored.name, self.name),
            api_identifier: replaced(stored.api_identifier, self.api_identifier),
            description: replaced(stored.description, self.description),
            field_metas: stored.field_metas,
        }
    }

    /// Applying an update a second time changes nothing more.
    pub proof fn applying_twice_is_applying_once(self, stored: ContentModelRecord)
        ensures
            self.applied_to(self.applied_to(stored)) == self.applied_to(stored),
    {
    }
}

/// What a listing may answer, given the rows of the store: a failure of
/// the store, or the content models of all rows, in order.
pub open spec fn listing(
    rows: Seq<ContentModelRecord>,
    answer: Result<Vec<ContentModel>, RepositoryError>,
) -> bool {
    match answer {
        Ok(models) => {
            &&& models@.len() == rows.len()
            &&& forall|i: int| 0 <= i < rows.len() ==> shows(#[trigger] models@[i], rows[i])
        },
        Err(e) => e is Store,
    }
}

/// What a creation may answer and leave behind, given the rows of the
/// store before it. Fields that break a rule are refused before the store
/// is touched. Else the store fails and nothing changes, or a row with the
/// fields is added under an identifier that no row had, and the answer is
/// its content model.
pub open spec fn creation(
    before: Seq<ContentModelRecord>,
    data: CreateContentModel,
    answer: Result<ContentModel, RepositoryError>,
    after: Seq<ContentModelRecord>,
) -> bool {
    if data.violation() is Some {
        answer == Err::<ContentModel, RepositoryError>(
            RepositoryError::Validation(data.violation()->Some_0),
        ) && after == before
    } else {
        match answer {
            Ok(model) => exists|id: EntityId|
                {
                    &&& !record_ids(before).contains(id)
                    &&& after == before.push(#[trigger] data.record(id))
                    &&& shows(model, data.record(id))
                },
            Err(e) => e is Store && after == before,
        }
    }
}

/// What an update may answer and leave behind, given the rows of the
/// store before it and what was read from the identifier. In this order:
/// a value that breaks a rule, an update that changes nothing, and an
/// identifier that could not be read are refused before the store is
/// touched. Else the store fails and nothing changes, or no row has the
/// identifier and nothing changes, or the row with the identifier becomes
/// what the update makes of it, and the answer is its content model.
pub open spec fn change(
    before: Seq<ContentModelRecord>,
    data: UpdateContentModel,
    id: Option<EntityId>,
    answer: Result<ContentModel, RepositoryError>,
    after: Seq<ContentModelRecord>,
) -> bool {
    if data.violation() is Some {
        answer == Err::<ContentModel, RepositoryError>(
            RepositoryError::Validation(data.violation()->Some_0),
        ) && after == before
    } else if data.changes_nothing() {
        answer == Err::<ContentModel, RepositoryError>(
            RepositoryError::Validation(ValidationError::NothingToUpdate),
        ) && after == before
    } else if id is None {
        answer == Err::<ContentModel, RepositoryError>(RepositoryError::InvalidId(IdField::Id))
            && after == before
    } else {
        let place = position(record_ids(before), id->Some_0);
        match answer {
            Ok(model) => {
                &&& place is Some
                &&& after == before.update(place->Some_0, data.applied_to(before[place->Some_0]))
                &&& shows(model, data.applied_to(before[place->Some_0]))
            },
            Err(e) => after == before && (e is Store || (e == RepositoryError::NotFound
                && place is None)),
        }
    }
}

/// What a deletion may answer and leave behind, given the rows of the
/// store before it and what was read from the identifier. An identifier
/// that could not be read is refused before the store is touched. Else
/// the store fails and nothing changes, or no row has the identifier and
/// nothing changes, or the row with the identifier is gone and every other
/// row stays where it was.
pub open spec fn removal(
    before: Seq<ContentModelRecord>,
    id: Option<EntityId>,
    answer: Result<(), RepositoryError>,
    after: Seq<ContentModelRecord>,
) -> bool {
    if id is None {
        answer == Err::<(), RepositoryError>(RepositoryError::InvalidId(IdField::Id)) && after
            == before
    } else {
        let place = position(record_ids(before), id->Some_0);
        match answer {
            Ok(_) => place is Some && after == before.remove(place->Some_0),
            Err(e) => after == before && (e is Store || (e == RepositoryError::NotFound
                && place is None)),
        }
    }
}

/// After a content model was deleted, no row has its identifier.
pub proof fn deleted_is_gone(
    before: Seq<ContentModelRecord>,
    id: EntityId,
    after: Seq<ContentModelRecord>,
)
    requires
        record_ids(before).no_duplicates(),
        removal(before, Some(id), Ok(()), after),
    ensures
        !record_ids(after).contains(id),
{
    let ids = record_ids(before);
    lemma_position(ids, id);
    let place = position(ids, id)->Some_0;
    assert forall|j: int| 0 <= j < after.len() implies (#[trigger] after[j]).id != id by {
        if j < place {
            assert(after[j] == before[j]);
            assert(ids[j] == before[j].id);
        } else {
            assert(after[j] == before[j + 1]);
            assert(ids[j + 1] == before[j + 1].id);
            assert(ids[place] == id);
        }
    }
    if record_ids(after).contains(id) {
        let j = choose|j: int| 0 <= j < after.len() && record_ids(after)[j] == id;
        assert(after[j].id == id);
    }
}

/// An update that succeeded and is issued once more leaves the rows as
/// the first left them, whatever the store answers the second time.
pub proof fn second_update_changes_nothing(
    before: Seq<ContentModelRecord>,
    data: UpdateContentModel,
    id: Option<EntityId>,
    first: ContentModel,
    between: Seq<ContentModelRecord>,
    second: Result<ContentModel, RepositoryError>,
    after: Seq<ContentModelRecord>,
)
    requires
        record_ids(before).no_duplicates(),
        change(before, data, id, Ok(first), between),
        change(between, data, id, second, after),
    ensures
        after == between,
{
    if second is Ok {
        let ids = record_ids(before);
        let place = position(ids, id->Some_0)->Some_0;
        lemma_position(ids, id->Some_0);
        assert(record_ids(between) =~= ids);
        data.applying_twice_is_applying_once(before[place]);
        assert(after =~= between);
    }
}

/// A store of content models.
pub trait ContentModelRepository {
    /// The rows of the store, in the order in which the store lists them.
    spec fn rows(&self) -> Seq<ContentModelRecord>;

    /// Whether the store is in order; then no two rows have the same
    /// identifier.
    spec fn well_formed(&self) -> bool;

    /// No two rows of a store in order have the same identifier.
    proof fn identifiers_are_distinct(&self)
        requires
            self.well_formed(),
        ensures
            record_ids(self.rows()).no_duplicates(),
    ;

    /// Lists every content model.
    fn get(&self) -> (r: Result<Vec<ContentModel>, RepositoryError>)
        requires
            self.well_formed(),
        ensures
            listing(self.rows(), r),
    ;

    /// Creates a content model under a fresh identifier, without field
    /// definitions.
    fn create(&mut self, data: CreateContentModel) -> (r: Result<ContentModel, RepositoryError>)
        requires
            old(self).well_formed(),
        ensures
            final(self).well_formed(),
            creation(old(self).rows(), data, r, final(self).rows()),
    ;

    /// Changes the fields of a content model that the update names.
    fn update(&mut self, data: UpdateContentModel) -> (r: Result<ContentModel, RepositoryError>)
        requires
            old(self).well_formed(),
        ensures
            final(self).well_formed(),
            change(old(self).rows(), data, EntityId::parsed(data.id@), r, final(self).rows()),
    ;

    /// Deletes the content model whose identifier is written in `id`.
    fn delete(&mut self, id: String) -> (r: Result<(), RepositoryError>)
        requires
            old(self).well_formed(),
        ensures
            final(self).well_formed(),
            removal(old(self).rows(), EntityId::parsed(id@), r, final(self).rows()),
    ;
}

} // verus!
