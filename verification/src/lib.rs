//! A headless content-management system: categories, content items,
//! content models, tags and users.
//!
//! - `model` holds the entities and the rules their fields keep.
//! - `repository` holds the commands on each entity, what a store of them
//!   promises, and what holds of every such store.
//! - `database` turns commands into statements for a relational store,
//!   rows into entities, and runs the write of a content item and its tags
//!   as one unit of work.
//! - `memory` holds stores that live in memory.
//! - `usecase` holds the use cases over a store.
//! - `handler`, `config` and `storage` hold what the HTTP layer, the start
//!   of the process and the object storage decide.

pub mod config;
pub mod database;
pub mod error;
pub mod handler;
pub mod ident;
pub mod memory;
pub mod model;
pub mod repository;
pub mod storage;
pub mod text;
pub mod usecase;
pub mod validation;
