//! The rows of the tables of the store.

pub mod attributes_index;
pub mod content;
pub mod data_repository;
pub mod events;
pub mod extraction_event;
pub mod extractors;
pub mod index;
pub mod index_chunks;
pub mod work;
