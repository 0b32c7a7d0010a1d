pub mod category;
pub mod content;
pub mod content_model;
