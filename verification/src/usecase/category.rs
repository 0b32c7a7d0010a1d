//! What the application does with categories.

use vstd::prelude::*;
use crate::error::RepositoryError;
use crate::ident::EntityId;
use crate::model::category::Category;
use crate::repository::category::{
    change, creation, listing, removal, CategoryRepository, CreateCategory, GetCategoryQuery,
    UpdateCategory,
};

verus! {

pub type GetCategoryInput = GetCategoryQuery;

pub type CreateCategoryInput = CreateCategory;

pub type UpdateCategoryInput = UpdateCategory;

/// The use cases of categories, over the store that is handed in.
pub struct CategoryUsecase<R: CategoryRepository> {
    pub repository: R,
}

impl<R: CategoryRepository> CategoryUsecase<R> {
    pub fn new(repository: R) -> (r: CategoryUsecase<R>)
        ensures
            r.repository == repository,
    {
        CategoryUsecase { repository }
    }

    /// Lists the categories of one page, as the store answers.
    pub fn get(&self, input: GetCategoryInput) -> (r: Result<Vec<Category>, RepositoryError>)
        requires
            self.repository.well_formed(),
        ensures
            listing(self.repository.rows(), input, r),
    {
        self.repository.get(input)
    }

    /// Creates a category, as the store answers.
    pub fn create(&mut self, input: CreateCategoryInput) -> (r: Result<Category, RepositoryError>)
        requires
            old(self).repository.well_formed(),
        ensures
            final(self).repository.well_formed(),
            creation(old(self).repository.rows(), input, r, final(self).repository.rows()),
    {
        self.repository.create(input)
    }

    /// Changes a category, as the store answers.
    pub fn update(&mut self, input: UpdateCategoryInput) -> (r: Result<Category, RepositoryError>)
        requires
            old(self).repository.well_formed(),
        ensures
            final(self).repository.well_formed(),
            change(
                old(self).repository.rows(),
                input,
                EntityId::parsed(input.id@),
                r,
                final(self).repository.rows(),
            ),
    {
        self.repository.update(input)
    }

    /// Deletes a category, as the store answers.
    pub fn delete(&mut self, id: String) -> (r: Result<(), RepositoryError>)
        requires
            old(self).repository.well_formed(),
        ensures
            final(self).repository.well_formed(),
            removal(
                old(self).repository.rows(),
                EntityId::parsed(id@),
                r,
                final(self).repository.rows(),
            ),
    {
        self.repository.delete(id)
    }
}

} // verus!
