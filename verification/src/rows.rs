//! The rows under which the store keeps what it is given.

use crate::completion::ExtractorBindingsState;
use crate::entity::attributes_index;
use crate::entity::content;
use crate::entity::data_repository;
use crate::entity::events;
use crate::entity::extractors;
use crate::entity::index;
use crate::entity::index_chunks;
use crate::event::Event;
use crate::persistence::bindings_by_id;
use crate::state::{
    attributes_row, chunk_row, content_row, event_row, extractor_row, index_row, repository_row,
};
use crate::types::{
    clone_connectors, Chunk, ContentType, DataRepository, ExtractedAttributes, ExtractorConfig,
    Text,
};
use crate::vectordbs::CreateIndexParams;
use vstd::prelude::*;
use vstd::string::StringExecFns;

verus! {

/// The row under which a text of a repository is stored: of the kind
/// `text`, with no binding marked as applied yet.
pub fn content_row_of(repository: &str, text: &Text) -> (row: content::Model)
    ensures
        row.deep_view() == content_row(repository@, text.deep_view()),
{
    content::Model {
        id: text.id.clone(),
        repository_id: String::from_str(repository),
        text: text.text.clone(),
        metadata: text.metadata.clone(),
        content_type: ContentType::Text.to_string(),
        extractor_bindings_state: ExtractorBindingsState::default(),
    }
}

/// The row that describes a new index for embeddings.
pub fn index_row_of(
    repository: &str,
    extractor: &str,
    index: &str,
    params: &CreateIndexParams,
) -> (row: index::Model)
    ensures
        row.deep_view() == index_row(repository@, extractor@, index@, params.deep_view()),
{
    index::Model {
        name: String::from_str(index),
        vector_index_name: Some(params.vectordb_index_name.clone()),
        extractor_name: String::from_str(extractor),
        index_type: String::from_str("embedding"),
        repository_id: String::from_str(repository),
    }
}

/// The row under which a chunk is stored in an index.
pub fn chunk_row_of(chunk: &Chunk, index: &str) -> (row: index_chunks::Model)
    ensures
        row.deep_view() == chunk_row(index@)(chunk.deep_view()),
{
    index_chunks::Model {
        chunk_id: chunk.chunk_id.clone(),
        content_id: chunk.content_id.clone(),
        text: chunk.text.clone(),
        index_name: String::from_str(index),
    }
}

/// The row under which a logged event of a repository is stored. Its time
/// is the event's, read as a signed number.
pub fn event_row_of(repository: &str, event: &Event) -> (row: events::Model)
    ensures
        row.deep_view() == event_row(repository@)(event.deep_view()),
{
    events::Model {
        id: event.id.clone(),
        repository_id: String::from_str(repository),
        message: event.message.clone(),
        unix_time_stamp: #[verifier::truncate]
        (event.unix_timestamp as i64),
        metadata: event.metadata.clone(),
    }
}

/// The row under which new attributes are stored for an index of a
/// repository.
pub fn attributes_row_of(repository: &str, index: &str, found: &ExtractedAttributes) -> (row:
    attributes_index::Model)
    ensures
        row.deep_view() == attributes_row(repository@, index@, found.deep_view()),
{
    attributes_index::Model {
        id: found.id.clone(),
        repository_id: String::from_str(repository),
        index_name: String::from_str(index),
        extractor_id: found.extractor_name.clone(),
        data: found.attributes.clone(),
        content_id: found.content_id.clone(),
        created_at: 0,
    }
}

/// The row under which a new extractor is recorded.
pub fn extractor_row_of(config: &ExtractorConfig) -> (row: extractors::Model)
    ensures
        row.deep_view() == extractor_row(config.deep_view()),
{
    extractors::Model {
        id: config.name.clone(),
        description: config.description.clone(),
        extractor_type: config.extractor_type.clone(),
        input_params: config.input_params.clone(),
    }
}

/// The row under which a new repository is stored: its bindings are kept
/// by their identifier.
pub fn repository_row_of(repository: &DataRepository) -> (row: data_repository::Model)
    ensures
        row.deep_view() == repository_row(repository.deep_view()),
{
    data_repository::Model {
        name: repository.name.clone(),
        extractor_bindings: bindings_by_id(&repository.extractor_bindings),
        metadata: repository.metadata.clone(),
        data_connectors: clone_connectors(&repository.data_connectors),
    }
}

} // verus!
