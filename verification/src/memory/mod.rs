pub mod category;
pub mod content;
pub mod content_model;
pub mod keyed;
pub mod tag;
pub mod user;
