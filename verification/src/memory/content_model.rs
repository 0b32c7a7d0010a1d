//! A store of content models that lives in memory.

use vstd::prelude::*;
use crate::database::json::{field_meta_view, field_metas_view};
use crate::error::{IdField, RepositoryError, StoreFailure, ValidationError};
use crate::ident::{is_version_7, lemma_position, lemma_remove_keeps_distinct, EntityId};
use crate::memory::keyed::{find, keys, Keyed};
use crate::model::content_model::ContentModel;
use crate::model::field_meta::FieldMeta;
use crate::repository::content_model::{
    creation, record_ids, shows, ContentModelRecord, ContentModelRepository, CreateContentModel,
    UpdateContentModel,
};

verus! {

/// A content model as it is kept in memory.
pub struct StoredContentModel {
    pub id: EntityId,
    pub name: String,
    pub api_identifier: String,
    pub description: String,
    pub field_metas: Vec<FieldMeta>,
}

impl View for StoredContentModel {
    type V = ContentModelRecord;

    open spec fn view(&self) -> ContentModelRecord {
        ContentModelRecord {
            id: self.id,
            name: self.name@,
            api_identifier: self.api_identifier@,
            description: self.description@,
            field_metas: field_metas_view(self.field_metas@),
        }
    }
}

impl Keyed for StoredContentModel {
    open spec fn key(&self) -> EntityId {
        self.id
    }

    fn id(&self) -> (r: EntityId) {
        self.id
    }
}

/// A copy of field definitions.
fn copy_of(metas: &Vec<FieldMeta>) -> (r: Vec<FieldMeta>)
    ensures
        field_metas_view(r@) == field_metas_view(metas@),
{
    let mut copies: Vec<FieldMeta> = Vec::new();
    let mut i: usize = 0;
    while i < metas.len()
        invariant
            i <= metas.len(),
            copies@.len() == i,
            forall|j: int| 0 <= j < i ==> field_meta_view(#[trigger] copies@[j]) == field_meta_view(
                metas@[j],
            ),
        decreases metas.len() - i,
    {
        copies.push(
            FieldMeta {
                name: metas[i].name.clone(),
                field_id: metas[i].field_id.clone(),
                field_type: metas[i].field_type,
                is_required: metas[i].is_required,
            },
        );
        i += 1;
    }
    assert(field_metas_view(copies@) =~= field_metas_view(metas@));
    copies
}

impl StoredContentModel {
    /// The content model that the row stands for.
    pub fn to_content_model(&self) -> (r: ContentModel)
        ensures
            shows(r, self@),
    {
        ContentModel {
            id: self.id.to_text(),
            name: self.name.clone(),
            api_identifier: self.api_identifier.clone(),
            description: Some(self.description.clone()),
            field_metas: copy_of(&self.field_metas),
        }
    }
}

/// What contracts say of stored content models, in order.
pub open spec fn records(rows: Seq<StoredContentModel>) -> Seq<ContentModelRecord> {
    Seq::new(rows.len(), |i: int| rows[i]@)
}

/// Content models kept in memory, in the order of their creation.
pub struct MemoryContentModelRepository {
    stored: Vec<StoredContentModel>,
}

impl MemoryContentModelRepository {
    /// A store without content models.
    pub fn new() -> (r: MemoryContentModelRepository)
        ensures
            r.well_formed(),
            r.rows() == Seq::<ContentModelRecord>::empty(),
    {
        let r = MemoryContentModelRepository { stored: Vec::new() };
        assert(r.rows() =~= Seq::<ContentModelRecord>::empty());
        r
    }

    /// Creates a content model under `id`, without field definitions.
    /// Fields that break a rule are refused; an identifier that a row
    /// already has fails as a broken constraint; else the row is added
    /// last, and the answer is its content model.
    pub fn create_with(&mut self, id: EntityId, data: CreateContentModel) -> (r: Result<
        ContentModel,
        RepositoryError,
    >)
        requires
            old(self).well_formed(),
        ensures
            final(self).well_formed(),
            creation(old(self).rows(), data, r, final(self).rows()),
            match r {
                Ok(model) => final(self).rows() == old(self).rows().push(data.record(id))
                    && shows(model, data.record(id)),
                Err(e) => e == (if data.violation() is Some {
                    RepositoryError::Validation(data.violation()->Some_0)
                } else {
                    RepositoryError::Store(StoreFailure::Constraint)
                }),
            },
            r is Ok <==> data.violation() is None && !record_ids(old(self).rows()).contains(id),
    {
        if let Some(e) = data.validate() {
            return Err(RepositoryError::Validation(e));
        }
        proof {
            lemma_position(keys(self.stored@), id);
            assert(keys(self.stored@) =~= record_ids(self.rows()));
        }
        if find(&self.stored, id).is_some() {
            return Err(RepositoryError::Store(StoreFailure::Constraint));
        }
        let CreateContentModel { name, api_identifier, description } = data;
        let description = match description {
            Some(text) => text,
            None => String::new(),
        };
        let row = StoredContentModel {
            id,
            name,
            api_identifier,
            description,
            field_metas: Vec::new(),
        };
        assert(row@.field_metas =~= Seq::empty());
        let model = row.to_content_model();
        let ghost before = self.rows();
        self.stored.push(row);
        proof {
            assert(self.rows() =~= before.push(data.record(id)));
            assert(record_ids(self.rows()) =~= record_ids(before).push(id));
        }
        Ok(model)
    }
}

impl ContentModelRepository for MemoryContentModelRepository {
    closed spec fn rows(&self) -> Seq<ContentModelRecord> {
        records(self.stored@)
    }

    closed spec fn well_formed(&self) -> bool {
        record_ids(self.rows()).no_duplicates()
    }

    proof fn identifiers_are_distinct(&self) {
    }

    /// Never fails.
    fn get(&self) -> (r: Result<Vec<ContentModel>, RepositoryError>)
        ensures
            r is Ok,
    {
        let mut models: Vec<ContentModel> = Vec::new();
        let mut i: usize = 0;
        while i < self.stored.len()
            invariant
                i <= self.stored.len(),
                models@.len() == i,
                forall|j: int| 0 <= j < i ==> shows(#[trigger] models@[j], self.rows()[j]),
            decreases self.stored.len() - i,
        {
            models.push(self.stored[i].to_content_model());
            i += 1;
        }
        Ok(models)
    }

    /// Draws an identifier of version 7 and creates the content model under it. It
    /// succeeds exactly where no field breaks a rule and no row has the
    /// identifier drawn, and then the row stands under that identifier; it
    /// fails on the store's account only where a row has the identifier
    /// already, as a broken constraint.
    fn create(&mut self, data: CreateContentModel) -> (r: Result<ContentModel, RepositoryError>)
        ensures
            exists|id: EntityId|
                {
                    &&& #[trigger] is_version_7(id.value)
                    &&& r is Ok <==> data.violation() is None && !(record_ids(
                        old(self).rows(),
                    ).contains(id))
                    &&& r is Ok ==> final(self).rows() == old(self).rows().push(data.record(id))
                },
            r matches Err(RepositoryError::Store(failure)) ==> failure == StoreFailure::Constraint,
    {
        let id = EntityId::generate();
        let ghost before = self.rows();
        let r = self.create_with(id, data);
        assert({
            &&& is_version_7(id.value)
            &&& r is Ok <==> data.violation() is None && !(record_ids(before).contains(id))
        });
        r
    }

    /// Never fails on the store's account.
    fn update(&mut self, data: UpdateContentModel) -> (r: Result<ContentModel, RepositoryError>)
        ensures
            r is Err ==> !(r->Err_0 is Store),
    {
        if let Some(e) = data.validate() {
            return Err(RepositoryError::Validation(e));
        }
        let UpdateContentModel { id, name, api_identifier, description } = data;
        if name.is_none() && api_identifier.is_none() && description.is_none() {
            return Err(RepositoryError::Validation(ValidationError::NothingToUpdate));
        }
        let key = match EntityId::parse(id.as_str()) {
            Some(key) => key,
            None => { return Err(RepositoryError::InvalidId(IdField::Id)); },
        };
        proof {
            assert(keys(self.stored@) =~= record_ids(self.rows()));
        }
        let place = match find(&self.stored, key) {
            Some(place) => place,
            None => { return Err(RepositoryError::NotFound); },
        };
        let ghost before = self.rows();
        let mut row = self.stored.remove(place);
        assert(row@ == before[place as int]);
        if let Some(text) = name {
            row.name = text;
        }
        if let Some(text) = api_identifier {
            row.api_identifier = text;
        }
        if let Some(text) = description {
            row.description = text;
        }
        assert(row@ == data.applied_to(before[place as int]));
        let model = row.to_content_model();
        self.stored.insert(place, row);
        proof {
            let now = data.applied_to(before[place as int]);
            assert(self.rows() =~= before.update(place as int, now));
            assert(record_ids(self.rows()) =~= record_ids(before));
        }
        Ok(model)
    }

    /// Never fails on the store's account.
    fn delete(&mut self, id: String) -> (r: Result<(), RepositoryError>)
        ensures
            r is Err ==> !(r->Err_0 is Store),
    {
        let key = match EntityId::parse(id.as_str()) {
            Some(key) => key,
            None => { return Err(RepositoryError::InvalidId(IdField::Id)); },
        };
        proof {
            assert(keys(self.stored@) =~= record_ids(self.rows()));
        }
        let place = match find(&self.stored, key) {
            Some(place) => place,
            None => { return Err(RepositoryError::NotFound); },
        };
        let ghost before = self.rows();
        self.stored.remove(place);
        proof {
            assert(self.rows() =~= before.remove(place as int));
            assert(record_ids(self.rows()) =~= record_ids(before).remove(place as int));
            lemma_remove_keeps_distinct(record_ids(before), place as int);
        }
        Ok(())
    }
}

} // verus!
