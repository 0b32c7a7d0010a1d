pub mod category;
pub mod content;
pub mod content_model;
pub mod field;
pub mod field_meta;
pub mod role;
pub mod tag;
pub mod user;
