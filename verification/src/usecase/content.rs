//! What the application does with content items.

use vstd::prelude::*;
use crate::error::RepositoryError;
use crate::ident::EntityId;
use crate::model::content::Content;
use crate::repository::content::{
    change, creation, listing, parsed_create_ids, parsed_update_ids, removal, ContentRepository,
    CreateContent, GetContentQuery, UpdateContent,
};

verus! {

pub type GetContentInput = GetContentQuery;

pub type CreateContentInput = CreateContent;

pub type UpdateContentInput = UpdateContent;

/// The use cases of content items, over the store that is handed in.
pub struct ContentUsecase<R: ContentRepository> {
    pub repository: R,
}

impl<R: ContentRepository> ContentUsecase<R> {
    pub fn new(repository: R) -> (r: ContentUsecase<R>)
        ensures
            r.repository == repository,
    {
        ContentUsecase { repository }
    }

    /// Lists the content items of one page, as the store answers.
    pub fn get(&self, input: GetContentInput) -> (r: Result<Vec<Content>, RepositoryError>)
        requires
            self.repository.well_formed(),
        ensures
            listing(self.repository.rows(), self.repository.references(), input, r),
    {
        self.repository.get(input)
    }

    /// Creates a content item, as the store answers.
    pub fn create(&mut self, input: CreateContentInput) -> (r: Result<Content, RepositoryError>)
        requires
            old(self).repository.well_formed(),
        ensures
            final(self).repository.well_formed(),
            final(self).repository.references() == old(self).repository.references(),
            creation(
                old(self).repository.rows(),
                old(self).repository.references(),
                input,
                parsed_create_ids(input),
                r,
                final(self).repository.rows(),
            ),
    {
        self.repository.create(input)
    }

    /// Changes a content item, as the store answers.
    pub fn update(&mut self, input: UpdateContentInput) -> (r: Result<Content, RepositoryError>)
        requires
            old(self).repository.well_formed(),
        ensures
            final(self).repository.well_formed(),
            final(self).repository.references() == old(self).repository.references(),
            change(
                old(self).repository.rows(),
                old(self).repository.references(),
                input,
                parsed_update_ids(input),
                r,
                final(self).repository.rows(),
            ),
    {
        self.repository.update(input)
    }

    /// Deletes a content item, as the store answers.
    pub fn delete(&mut self, id: String) -> (r: Result<(), RepositoryError>)
        requires
            old(self).repository.well_formed(),
        ensures
            final(self).repository.well_formed(),
            final(self).repository.references() == old(self).repository.references(),
            removal(
                old(self).repository.rows(),
                EntityId::parsed(id@),
                r,
                final(self).repository.rows(),
            ),
    {
        self.repository.delete(id)
    }
}

} // verus!
