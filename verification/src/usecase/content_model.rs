//! What the application does with content models.

use vstd::prelude::*;
use crate::error::RepositoryError;
use crate::ident::EntityId;
use crate::model::content_model::ContentModel;
use crate::repository::content_model::{
    change, creation, listing, removal, ContentModelRepository, CreateContentModel,
    UpdateContentModel,
};

verus! {

pub type CreateContentModelInput = CreateContentModel;

pub type UpdateContentModelInput = UpdateContentModel;

/// The use cases of content models, over the store that is handed in.
pub struct ContentModelUsecase<R: ContentModelRepository> {
    pub repository: R,
}

impl<R: ContentModelRepository> ContentModelUsecase<R> {
    pub fn new(repository: R) -> (r: ContentModelUsecase<R>)
        ensures
            r.repository == repository,
    {
        ContentModelUsecase { repository }
    }

    /// Lists every content model, as the store answers.
    pub fn get(&self) -> (r: Result<Vec<ContentModel>, RepositoryError>)
        requires
            self.repository.well_formed(),
        ensures
            listing(self.repository.rows(), r),
    {
        self.repository.get()
    }

    /// Creates a content model, as the store answers.
    pub fn create(&mut self, input: CreateContentModelInput) -> (r: Result<
        ContentModel,
        RepositoryError,
    >)
        requires
            old(self).repository.well_formed(),
        ensures
            final(self).repository.well_formed(),
            creation(old(self).repository.rows(), input, r, final(self).repository.rows()),
    {
        self.repository.create(input)
    }

    /// Changes a content model, as the store answers.
    pub fn update(&mut self, input: UpdateContentModelInput) -> (r: Result<
        ContentModel,
        RepositoryError,
    >)
        requires
            old(self).repository.well_formed(),
        ensures
            final(self).repository.well_formed(),
            change(
                old(self).repository.rows(),
                input,
                EntityId::parsed(input.id@),
                r,
                final(self).repository.rows(),
            ),
    {
        self.repository.update(input)
    }

    /// Deletes a content model, as the store answers.
    pub fn delete(&mut self, id: String) -> (r: Result<(), RepositoryError>)
        requires
            old(self).repository.well_formed(),
        ensures
            final(self).repository.well_formed(),
            removal(
                old(self).repository.rows(),
                EntityId::parsed(id@),
                r,
                final(self).repository.rows(),
            ),
    {
        self.repository.delete(id)
    }
}

} // verus!
