//! The operations that change the store, as values, and what a run of them
//! makes of the store.

use crate::entity::events;
use crate::entity::index;
use crate::entity::index_chunks;
use crate::entity::work;
use crate::event::EventView;
use crate::state::{
    all_assigned, attributes_added, chunk_row, content_marked, event_marked, event_row,
    extractors_recorded, index_row, ingested, repository_stored, work_state_set, StoreState,
};
use crate::table::{each_inserted_if_new, inserted_if_new};
use crate::types::{
    ChunkView, DataRepositoryView, ExtractedAttributesView, ExtractorConfigView, TextView,
};
use crate::vectordbs::CreateIndexParamsView;
use crate::work::{enqueued_row, WorkState, WorkView};
use vstd::prelude::*;

verus! {

/// An operation that changes the store, with what it is given.
pub enum Operation {
    /// Record extractors.
    RecordExtractors { extractors: Seq<ExtractorConfigView> },
    /// Store a repository and announce its bindings under the given event
    /// identifiers.
    UpsertRepository { declared: DataRepositoryView, event_ids: Seq<Seq<char>> },
    /// Store texts and announce them under the given event identifiers.
    AddContent { repository: Seq<char>, texts: Seq<TextView>, event_ids: Seq<Seq<char>> },
    /// Mark the extractor of a binding as applied to a content item.
    MarkContentAsProcessed { content_id: Seq<char>, binding_id: Seq<char> },
    /// Mark an event of the outbox as handed off at a time.
    MarkExtractionEventAsProcessed { id: Seq<char>, at: i64 },
    /// Describe an index, given whether the vector backend created it.
    CreateVectorIndex {
        repository: Seq<char>,
        extractor: Seq<char>,
        index: Seq<char>,
        params: CreateIndexParamsView,
        created: bool,
    },
    /// Log events for a repository.
    AddEvents { repository: Seq<char>, events: Seq<EventView> },
    /// Store chunks in an index.
    CreateChunks { chunks: Seq<ChunkView>, index: Seq<char> },
    /// Store the attributes that an extractor found.
    AddAttributes { repository: Seq<char>, index: Seq<char>, found: ExtractedAttributesView },
    /// Add work to the queue.
    InsertWork { work: WorkView },
    /// Assign work to workers.
    AssignWork { allocation: Seq<(Seq<char>, Seq<char>)> },
    /// Set the state of work.
    UpdateWorkState { work_id: Seq<char>, state: WorkState },
}

impl StoreState {
    /// The store after an operation. An operation that fails leaves the
    /// store as it is.
    pub open spec fn after(self, operation: Operation) -> StoreState {
        match operation {
            Operation::RecordExtractors { extractors } => StoreState {
                extractors: extractors_recorded(self.extractors, extractors),
                ..self
            },
            Operation::UpsertRepository { declared, event_ids } => {
                if event_ids.len() == declared.extractor_bindings.len() {
                    match repository_stored(self, declared, event_ids) {
                        Some(store) => store,
                        None => self,
                    }
                } else {
                    self
                }
            },
            Operation::AddContent { repository, texts, event_ids } => {
                if event_ids.len() == texts.len() {
                    match ingested(self, repository, texts, event_ids) {
                        Some(store) => store,
                        None => self,
                    }
                } else {
                    self
                }
            },
            Operation::MarkContentAsProcessed { content_id, binding_id } => StoreState {
                content: content_marked(self.content, content_id, binding_id),
                ..self
            },
            Operation::MarkExtractionEventAsProcessed { id, at } => StoreState {
                extraction_events: event_marked(self.extraction_events, id, at),
                ..self
            },
            Operation::CreateVectorIndex { repository, extractor, index, params, created } => {
                if created {
                    StoreState {
                        indexes: inserted_if_new::<index::Model>(
                            self.indexes,
                            index_row(repository, extractor, index, params),
                        ),
                        ..self
                    }
                } else {
                    self
                }
            },
            Operation::AddEvents { repository, events } => StoreState {
                events: each_inserted_if_new::<events::Model>(
                    self.events,
                    events.map_values(event_row(repository)),
                ),
                ..self
            },
            Operation::CreateChunks { chunks, index } => StoreState {
                chunks: each_inserted_if_new::<index_chunks::Model>(
                    self.chunks,
                    chunks.map_values(chunk_row(index)),
                ),
                ..self
            },
            Operation::AddAttributes { repository, index, found } => StoreState {
                attributes: attributes_added(self.attributes, repository, index, found),
                ..self
            },
            Operation::InsertWork { work } => StoreState {
                work: inserted_if_new::<work::Model>(self.work, enqueued_row(work)),
                ..self
            },
            Operation::AssignWork { allocation } => StoreState {
                work: all_assigned(self.work, allocation),
                ..self
            },
            Operation::UpdateWorkState { work_id, state } => StoreState {
                work: work_state_set(self.work, work_id, state),
                ..self
            },
        }
    }

    /// The store after a run of operations, in their order.
    pub open spec fn after_all(self, operations: Seq<Operation>) -> StoreState
        decreases operations.len(),
    {
        if operations.len() == 0 {
            self
        } else {
            self.after_all(operations.drop_last()).after(operations.last())
        }
    }
}

} // verus!
