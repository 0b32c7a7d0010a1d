//! Content items and the small records that travel with them.

use vstd::prelude::*;
use crate::error::ValidationError;
use crate::model::field::Field;
use crate::validation::{check_title, title_violation};

verus! {

/// The category a content item is filed under, as far as the item shows it.
#[derive(Debug, Clone)]
pub struct ContentCategory {
    pub id: String,
    pub name: String,
}

impl ContentCategory {
    pub fn new(id: String, name: String) -> (r: ContentCategory)
        ensures
            r == (ContentCategory { id, name }),
    {
        ContentCategory { id, name }
    }
}

/// A tag on a content item, as far as the item shows it.
#[derive(Debug, Clone)]
pub struct ContentTag {
    pub id: String,
    pub name: String,
}

impl ContentTag {
    pub fn new(id: String, name: String) -> (r: ContentTag)
        ensures
            r == (ContentTag { id, name }),
    {
        ContentTag { id, name }
    }
}

/// Where a content item stands on its way to publication. Any status may
/// follow any other.
#[derive(Debug, Clone, Copy, PartialEq, Eq, Structural)]
pub enum ContentStatus {
    Draft,
    Published,
    Reserved,
    Unpublished,
}

/// The user who created a content item.
#[derive(Debug, Clone)]
pub struct CreatedBy {
    pub id: String,
    pub name: String,
}

impl CreatedBy {
    pub fn new(id: String, name: String) -> (r: CreatedBy)
        ensures
            r == (CreatedBy { id, name }),
    {
        CreatedBy { id, name }
    }
}

/// The user who last changed a content item.
#[derive(Debug, Clone)]
pub struct UpdatedBy {
    pub id: String,
    pub name: String,
}

impl UpdatedBy {
    pub fn new(id: String, name: String) -> (r: UpdatedBy)
        ensures
            r == (UpdatedBy { id, name }),
    {
        UpdatedBy { id, name }
    }
}

/// A point in time: microseconds since 1970-01-01T00:00:00Z.
#[derive(Debug, Clone, Copy, PartialEq, Eq, Structural)]
pub struct Timestamp {
    pub micros: i64,
}

/// A content item: a title of 1 to 50 characters, its category, status,
/// field values in order, tags, the users who wrote it, and its times.
#[derive(Debug, Clone)]
pub struct Content {
    pub id: String,
    pub title: String,
    pub category: ContentCategory,
    pub status: ContentStatus,
    pub fields: Vec<Field>,
    pub tags: Vec<ContentTag>,
    pub created_by: CreatedBy,
    pub updated_by: UpdatedBy,
    pub published_at: Option<Timestamp>,
    pub created_at: Timestamp,
    pub updated_at: Timestamp,
}

impl Content {
    /// Whether the title keeps its bounds.
    pub open spec fn well_formed(&self) -> bool {
        title_violation(self.title@) is None
    }

    /// Builds a content item, or names the rule that the title breaks.
    pub fn try_new(
        id: String,
        title: String,
        category: ContentCategory,
        status: ContentStatus,
        fields: Vec<Field>,
        tags: Vec<ContentTag>,
        created_by: CreatedBy,
        updated_by: UpdatedBy,
        published_at: Option<Timestamp>,
        created_at: Timestamp,
        updated_at: Timestamp,
    ) -> (r: Result<Content, ValidationError>)
        ensures
            match title_violation(title@) {
                Some(e) => r == Err::<Content, ValidationError>(e),
                None => r == Ok::<Content, ValidationError>(
                    Content {
                        id,
                        title,
                        category,
                        status,
                        fields,
                        tags,
                        created_by,
                        updated_by,
                        published_at,
                        created_at,
                        updated_at,
                    },
                ),
            },
            r is Ok ==> r->Ok_0.well_formed(),
    {
        if let Some(e) = check_title(title.as_str()) {
            return Err(e);
        }
        Ok(
            Content {
                id,
                title,
                category,
                status,
                fields,
                tags,
                created_by,
                updated_by,
                published_at,
                created_at,
                updated_at,
            },
        )
    }
}

} // verus!
