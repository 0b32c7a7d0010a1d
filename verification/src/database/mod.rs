pub mod category_repository;
pub mod content_model_repository;
pub mod content_statements;
pub mod content_transaction;
pub mod contents_repository;
pub mod json;
pub mod outcome;
pub mod statement;
pub mod tag_repository;
pub mod user_repository;
