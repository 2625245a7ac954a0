//! The store: its tables and the operations on them.

use crate::entity::attributes_index;
use crate::entity::content;
use crate::entity::data_repository;
use crate::entity::events;
use crate::entity::extraction_event;
use crate::entity::extractors;
use crate::entity::index;
use crate::entity::index_chunks;
use crate::entity::work;
use crate::error::{RepositoryError, RepositoryErrorView};
use crate::event::{clock_seconds, generated_id, is_generated_id, unix_seconds, Event, EventView};
use crate::json::{same_text, Metadata};
use crate::laws::{law_marked_content_is_marked, law_marked_event_is_handed_off};
use crate::operation::Operation;
use crate::rows::{
    attributes_row_of, chunk_row_of, content_row_of, event_row_of, extractor_row_of, index_row_of,
    repository_row_of,
};
use crate::state::{
    all_assigned, announcements, as_attributes, as_event, as_extractor, as_repository, as_work,
    attributes_added, attributes_of, binding_found, bound_as, chunk_row, content_found,
    content_marked, declares, event_marked, event_of, event_row, extractors_recorded, filter_holds,
    filter_text, filters_are_text, filters_hold, index_found, index_row, ingest_plan, ingested,
    is_handed_off, is_marked, keyed_bindings, logged_for, outbox_agrees, outbox_row, pending_for,
    repository_stored, unapplied, unassigned, waiting, waiting_events, work_state_set, StoreState,
};
use crate::table::{
    each_inserted_if_new, has_key, inserted_if_new, key_index, lemma_appended_is_concat, Table,
};
use crate::types::{
    clone_connectors, content_of_row, extractor_of_row, repository_of_row, Chunk, ChunkWithMetadata,
    ChunkWithMetadataView, Content, DataRepository, ExtractedAttributes, ExtractedAttributesView,
    ExtractionEvent, ExtractionEventPayload, ExtractionEventPayloadView, ExtractionEventView,
    ExtractorBinding, ExtractorConfig, ExtractorFilter, Text,
};
use crate::vectordbs::{CreateIndexParams, VectorDbError};
use crate::views::{
    lemma_deep_view_empty, lemma_deep_view_push, lemma_filter_next, lemma_filter_none,
    lemma_first_match, lemma_map_push, lemma_take_all, lemma_take_next,
};
use crate::work::{enqueued_row, Work, WorkState, WorkView};
use vstd::prelude::*;
use vstd::string::StringExecFns;

verus! {

/// The store: its tables, each with its rows in the order in which they
/// were inserted.
pub struct Repository {
    extractors: Table<extractors::Model>,
    repositories: Table<data_repository::Model>,
    content: Table<content::Model>,
    extraction_events: Table<extraction_event::Model>,
    events: Table<events::Model>,
    indexes: Table<index::Model>,
    chunks: Table<index_chunks::Model>,
    attributes: Table<attributes_index::Model>,
    work: Table<work::Model>,
}

impl View for Repository {
    type V = StoreState;

    closed spec fn view(&self) -> StoreState {
        StoreState {
            extractors: self.extractors@,
            repositories: self.repositories@,
            content: self.content@,
            extraction_events: self.extraction_events@,
            events: self.events@,
            indexes: self.indexes@,
            chunks: self.chunks@,
            attributes: self.attributes@,
            work: self.work@,
        }
    }
}

/// The message of the failure to mark an event that the outbox does not
/// hold.
pub open spec fn no_such_event() -> Seq<char> {
    "extraction event not found"@
}

/// The message of the failure to tell what a filter compares with.
pub open spec fn filter_not_text() -> Seq<char> {
    "filter value is not a string"@
}

/// Whether a binding's filters all compare with a string.
pub fn filters_compare_text(filters: &Vec<ExtractorFilter>) -> (all: bool)
    ensures
        all == filters_are_text(filters.deep_view()),
{
    let mut i: usize = 0;
    while i < filters.len()
        invariant
            i <= filters.len(),
            forall|j: int| 0 <= j < i ==> (#[trigger] filter_text(filters.deep_view()[j])) is Some,
        decreases filters.len() - i,
    {
        let is_text = match &filters[i] {
            ExtractorFilter::Eq { field, value } => value.as_str().is_some(),
            ExtractorFilter::Neq { field, value } => value.as_str().is_some(),
        };
        if !is_text {
            assert(filter_text(filters.deep_view()[i as int]) is None);
            return false;
        }
        i = i + 1;
    }
    true
}

/// Whether metadata passes every filter of a list. A filter that compares
/// with anything but a string is passed by nothing.
pub fn passes_filters(metadata: &Metadata, filters: &Vec<ExtractorFilter>) -> (passes:
    bool)
    ensures
        passes == filters_hold(metadata.deep_view(), filters.deep_view()),
{
    let mut i: usize = 0;
    while i < filters.len()
        invariant
            i <= filters.len(),
            forall|j: int|
                0 <= j < i ==> #[trigger] filter_holds(
                    metadata.deep_view(),
                    filters.deep_view()[j],
                ),
        decreases filters.len() - i,
    {
        let holds = match &filters[i] {
            ExtractorFilter::Eq { field, value } => {
                match (metadata.get(field.as_str()), value.as_str()) {
                    (Some(found), Some(wanted)) => match found.as_text() {
                        Some(text) => same_text(text, wanted),
                        None => false,
                    },
                    _ => false,
                }
            },
            ExtractorFilter::Neq { field, value } => {
                match (metadata.get(field.as_str()), value.as_str()) {
                    (Some(found), Some(wanted)) => match found.as_text() {
                        Some(text) => !same_text(text, wanted),
                        None => false,
                    },
                    _ => false,
                }
            },
        };
        if !holds {
            assert(!filter_holds(metadata.deep_view(), filters.deep_view()[i as int]));
            return false;
        }
        i = i + 1;
    }
    true
}

impl Repository {
    /// Whether the store is well formed: no table holds two rows with the
    /// same key, and each row of the outbox holds the event of the row's
    /// identifier. The empty store is well formed, and every operation
    /// keeps the store so.
    pub open spec fn wf(&self) -> bool {
        self@.wf()
    }

    /// The empty store.
    pub fn new() -> (store: Self)
        ensures
            store@ == StoreState::empty(),
            store.wf(),
    {
        Repository {
            extractors: Table::new(),
            repositories: Table::new(),
            content: Table::new(),
            extraction_events: Table::new(),
            events: Table::new(),
            indexes: Table::new(),
            chunks: Table::new(),
            attributes: Table::new(),
            work: Table::new(),
        }
    }

    /// The events of the outbox that wait to be handed off, in the order in
    /// which they were appended.
    pub fn unprocessed_extraction_events(&self) -> (result: Result<
        Vec<ExtractionEvent>,
        RepositoryError,
    >)
        ensures
            result is Ok,
            result->Ok_0.deep_view() == waiting_events(self@.extraction_events),
    {
        let mut found: Vec<ExtractionEvent> = Vec::new();
        let ghost rows = self.extraction_events@;
        let mut i: usize = 0;
        proof {
            lemma_deep_view_empty(found);
            lemma_filter_none(waiting());
            assert(Seq::<extraction_event::ModelView>::empty().map_values(event_of())
                =~= Seq::<ExtractionEventView>::empty());
        }
        while i < self.extraction_events.len()
            invariant
                i <= rows.len(),
                rows == self.extraction_events@,
                found.deep_view() == waiting_events(rows.take(i as int)),
            decreases rows.len() - i,
        {
            let row = self.extraction_events.row(i);
            proof {
                lemma_filter_next(rows, waiting(), i as int);
            }
            if row.processed_at.is_none() {
                let event = row.payload.clone();
                let ghost before = found;
                found.push(event);
                proof {
                    lemma_deep_view_push(before, found, event);
                    lemma_map_push(rows.take(i as int).filter(waiting()), rows[i as int], event_of());
                }
            }
            i = i + 1;
        }
        proof {
            lemma_take_all(rows);
        }
        Ok(found)
    }

    /// Marks an event of the outbox as handed off at the given time, in
    /// seconds since the epoch. To mark an event again changes nothing and
    /// is no failure; an event that the outbox does not hold cannot be
    /// marked.
    pub fn mark_extraction_event_as_processed_at(&mut self, extraction_id: &str, now: i64) -> (result:
        Result<(), RepositoryError>)
        requires
            old(self).wf(),
        ensures
            final(self).wf(),
            final(self)@ == (StoreState {
                extraction_events: event_marked(old(self)@.extraction_events, extraction_id@, now),
                ..old(self)@
            }),
            result is Ok == has_key::<extraction_event::Model>(
                old(self)@.extraction_events,
                extraction_id@,
            ),
            result is Ok ==> is_handed_off(final(self)@.extraction_events, extraction_id@),
            result is Err ==> result->Err_0.deep_view() == RepositoryErrorView::LogicError(
                no_such_event(),
            ),
            final(self)@ == old(self)@.after(
                Operation::MarkExtractionEventAsProcessed { id: extraction_id@, at: now },
            ),
    {
        proof {
            if has_key::<extraction_event::Model>(self@.extraction_events, extraction_id@) {
                law_marked_event_is_handed_off(self@.extraction_events, extraction_id@, now);
            }
        }
        match self.extraction_events.position(extraction_id) {
            None => Err(RepositoryError::LogicError(String::from_str("extraction event not found"))),
            Some(i) => {
                match self.extraction_events.row(i).marked_at(now) {
                    Some(marked) => self.extraction_events.replace(i, marked),
                    None => {},
                }
                Ok(())
            },
        }
    }

    /// Marks an event of the outbox as handed off now, by the system clock.
    /// Whatever the clock says, the outcome is that of
    /// [`Repository::mark_extraction_event_as_processed_at`] for some time.
    pub fn mark_extraction_event_as_processed(&mut self, extraction_id: &str) -> (result: Result<
        (),
        RepositoryError,
    >)
        requires
            old(self).wf(),
        ensures
            final(self).wf(),
            exists|now: i64|
                final(self)@ == (StoreState {
                    extraction_events: #[trigger] event_marked(
                        old(self)@.extraction_events,
                        extraction_id@,
                        now,
                    ),
                    ..old(self)@
                }),
            result is Ok == has_key::<extraction_event::Model>(
                old(self)@.extraction_events,
                extraction_id@,
            ),
            result is Ok ==> is_handed_off(final(self)@.extraction_events, extraction_id@),
            result is Err ==> result->Err_0.deep_view() == RepositoryErrorView::LogicError(
                no_such_event(),
            ),
    {
        let seconds = clock_seconds(unix_seconds());
        let now = #[verifier::truncate]
        (seconds as i64);
        self.mark_extraction_event_as_processed_at(extraction_id, now)
    }

    /// Marks the extractor of a binding as applied to a content item: an
    /// item that the store holds is marked for the binding from then on. The
    /// markers of other bindings and other items stay as they are. An item
    /// that the store does not hold is no failure, and nothing is marked.
    pub fn mark_content_as_processed(&mut self, content_id: &str, binding_id: &str) -> (result:
        Result<(), RepositoryError>)
        requires
            old(self).wf(),
        ensures
            final(self).wf(),
            result is Ok,
            final(self)@ == (StoreState {
                content: content_marked(old(self)@.content, content_id@, binding_id@),
                ..old(self)@
            }),
            has_key::<content::Model>(old(self)@.content, content_id@) ==> is_marked(
                final(self)@.content,
                content_id@,
                binding_id@,
            ),
            final(self)@ == old(self)@.after(
                Operation::MarkContentAsProcessed {
                    content_id: content_id@,
                    binding_id: binding_id@,
                },
            ),
    {
        proof {
            if has_key::<content::Model>(self@.content, content_id@) {
                law_marked_content_is_marked(self@.content, content_id@, binding_id@);
            }
        }
        match self.content.position(content_id) {
            None => {},
            Some(i) => {
                let mut marked = self.content.row(i).clone();
                marked.extractor_bindings_state.mark(binding_id);
                self.content.replace(i, marked);
            },
        }
        Ok(())
    }

    /// The content of a repository that the extractor of a binding still
    /// has to be applied to, in the order in which it was stored: the items
    /// whose marker for the binding is absent or zero and which pass every
    /// filter of the binding; where an item is named, that item alone. A
    /// filter that compares with anything but a string is refused.
    pub fn content_with_unapplied_extractor(
        &self,
        repo_id: &str,
        extractor_binding: &ExtractorBinding,
        content_id: Option<&str>,
    ) -> (result: Result<Vec<content::Model>, RepositoryError>)
        ensures
            result is Ok == filters_are_text(extractor_binding.deep_view().filters),
            result is Ok ==> result->Ok_0.deep_view() == self@.content.filter(
                unapplied(repo_id@, extractor_binding.deep_view(), content_id.deep_view()),
            ),
            result is Err ==> result->Err_0.deep_view() == RepositoryErrorView::LogicError(
                filter_not_text(),
            ),
    {
        if !filters_compare_text(&extractor_binding.filters) {
            return Err(RepositoryError::LogicError(String::from_str("filter value is not a string")));
        }
        let ghost test = unapplied(repo_id@, extractor_binding.deep_view(), content_id.deep_view());
        let ghost rows = self.content@;
        let mut found: Vec<content::Model> = Vec::new();
        let mut i: usize = 0;
        proof {
            lemma_deep_view_empty(found);
            lemma_filter_none(test);
        }
        while i < self.content.len()
            invariant
                i <= rows.len(),
                rows == self.content@,
                filters_are_text(extractor_binding.deep_view().filters),
                test == unapplied(repo_id@, extractor_binding.deep_view(), content_id.deep_view()),
                found.deep_view() == rows.take(i as int).filter(test),
            decreases rows.len() - i,
        {
            let row = self.content.row(i);
            proof {
                lemma_filter_next(rows, test, i as int);
            }
            let is_item = match content_id {
                Some(id) => same_text(row.id.as_str(), id),
                None => true,
            };
            if is_item && same_text(row.repository_id.as_str(), repo_id)
                && row.extractor_bindings_state.marker(extractor_binding.id.as_str()) < 1
                && passes_filters(&row.metadata, &extractor_binding.filters) {
                let copy = row.clone();
                let ghost before = found;
                found.push(copy);
                proof {
                    lemma_deep_view_push(before, found, copy);
                }
            }
            i = i + 1;
        }
        proof {
            lemma_take_all(rows);
        }
        Ok(found)
    }

    /// Adds work to the queue: pending, and assigned to nobody. Work that
    /// the queue holds already, by its identifier, is not added again and
    /// stays as it is, and that is no failure.
    pub fn insert_work(&mut self, work: &Work) -> (result: Result<(), RepositoryError>)
        requires
            old(self).wf(),
        ensures
            final(self).wf(),
            result is Ok,
            final(self)@ == (StoreState {
                work: inserted_if_new::<work::Model>(
                    old(self)@.work,
                    enqueued_row(work.deep_view()),
                ),
                ..old(self)@
            }),
            final(self)@ == old(self)@.after(Operation::InsertWork { work: work.deep_view() }),
    {
        self.work.insert_ignore(work.to_enqueued_row());
        Ok(())
    }

    /// The pending work that is assigned to nobody, in the order in which
    /// it was added.
    pub fn unallocated_work(&self) -> (result: Result<Vec<work::Model>, RepositoryError>)
        ensures
            result is Ok,
            result->Ok_0.deep_view() == self@.work.filter(unassigned()),
    {
        let ghost rows = self.work@;
        let mut found: Vec<work::Model> = Vec::new();
        let mut i: usize = 0;
        proof {
            lemma_deep_view_empty(found);
            lemma_filter_none(unassigned());
        }
        while i < self.work.len()
            invariant
                i <= rows.len(),
                rows == self.work@,
                found.deep_view() == rows.take(i as int).filter(unassigned()),
            decreases rows.len() - i,
        {
            let row = self.work.row(i);
            proof {
                lemma_filter_next(rows, unassigned(), i as int);
            }
            if row.worker_id.is_none() && same_text(row.state.as_str(), "Pending") {
                let copy = row.clone();
                let ghost before = found;
                found.push(copy);
                proof {
                    lemma_deep_view_push(before, found, copy);
                }
            }
            i = i + 1;
        }
        proof {
            lemma_take_all(rows);
        }
        Ok(found)
    }

    /// Assigns work to workers: each entry names the work and its worker.
    /// The entries are applied in their order, so of two for the same work
    /// the later one stays; an earlier assignment is overwritten; the state
    /// of the work stays; work that the queue does not hold is passed over.
    pub fn assign_work(&mut self, allocation: Vec<(String, String)>) -> (result: Result<
        (),
        RepositoryError,
    >)
        requires
            old(self).wf(),
        ensures
            final(self).wf(),
            result is Ok,
            final(self)@ == (StoreState {
                work: all_assigned(old(self)@.work, allocation.deep_view()),
                ..old(self)@
            }),
            final(self)@ == old(self)@.after(
                Operation::AssignWork { allocation: allocation.deep_view() },
            ),
    {
        let ghost entries = allocation.deep_view();
        let mut i: usize = 0;
        while i < allocation.len()
            invariant
                i <= allocation.len(),
                entries == allocation.deep_view(),
                self.wf(),
                self@ == (StoreState {
                    work: all_assigned(old(self)@.work, entries.take(i as int)),
                    ..old(self)@
                }),
            decreases allocation.len() - i,
        {
            let entry = &allocation[i];
            proof {
                lemma_take_next(entries, i as int);
            }
            match self.work.position(entry.0.as_str()) {
                None => {},
                Some(at) => {
                    let mut assigned = self.work.row(at).clone();
                    assigned.worker_id = Some(entry.1.clone());
                    self.work.replace(at, assigned);
                },
            }
            i = i + 1;
        }
        proof {
            lemma_take_all(entries);
        }
        Ok(())
    }

    /// Sets the state of work, whatever it was. Work that the queue does
    /// not hold is no failure.
    pub fn update_work_state(&mut self, work_id: &str, state: WorkState) -> (result: Result<
        (),
        RepositoryError,
    >)
        requires
            old(self).wf(),
        ensures
            final(self).wf(),
            result is Ok,
            final(self)@ == (StoreState {
                work: work_state_set(old(self)@.work, work_id@, state),
                ..old(self)@
            }),
            final(self)@ == old(self)@.after(Operation::UpdateWorkState { work_id: work_id@, state }),
    {
        match self.work.position(work_id) {
            None => {},
            Some(at) => {
                let mut changed = self.work.row(at).clone();
                changed.state = state.to_string();
                self.work.replace(at, changed);
            },
        }
        Ok(())
    }

    /// The pending work that is assigned to a worker, in the order in which
    /// it was added.
    pub fn work_for_worker(&self, worker_id: &str) -> (result: Result<Vec<Work>, RepositoryError>)
        ensures
            result is Ok,
            result->Ok_0.deep_view() == self@.work.filter(pending_for(worker_id@)).map_values(
                as_work(),
            ),
    {
        let ghost rows = self.work@;
        let ghost test = pending_for(worker_id@);
        let mut found: Vec<Work> = Vec::new();
        let mut i: usize = 0;
        proof {
            lemma_deep_view_empty(found);
            lemma_filter_none(test);
            assert(Seq::<work::ModelView>::empty().map_values(as_work()) =~= Seq::<
                WorkView,
            >::empty());
        }
        while i < self.work.len()
            invariant
                i <= rows.len(),
                rows == self.work@,
                test == pending_for(worker_id@),
                found.deep_view() == rows.take(i as int).filter(test).map_values(as_work()),
            decreases rows.len() - i,
        {
            let row = self.work.row(i);
            proof {
                lemma_filter_next(rows, test, i as int);
            }
            let is_assigned = match &row.worker_id {
                Some(w) => same_text(w.as_str(), worker_id),
                None => false,
            };
            if is_assigned && same_text(row.state.as_str(), "Pending") {
                let item = Work::from(row.clone());
                let ghost before = found;
                found.push(item);
                proof {
                    lemma_deep_view_push(before, found, item);
                    lemma_map_push(rows.take(i as int).filter(test), rows[i as int], as_work());
                }
            }
            i = i + 1;
        }
        proof {
            lemma_take_all(rows);
        }
        Ok(found)
    }
}

/// The message of the failure to append an event whose identifier is taken.
pub open spec fn event_id_taken() -> Seq<char> {
    "extraction event identifier is taken"@
}

/// The message of the failure to pair each new event with an identifier.
pub open spec fn event_ids_mismatch() -> Seq<char> {
    "one event identifier is needed for each event"@
}

/// As many new random identifiers as asked for.
pub fn generated_ids(count: usize) -> (ids: Vec<String>)
    ensures
        ids.len() == count,
        forall|i: int| 0 <= i < count ==> is_generated_id(#[trigger] ids.deep_view()[i]),
{
    let mut ids: Vec<String> = Vec::new();
    let mut i: usize = 0;
    while i < count
        invariant
            i <= count,
            ids.len() == i,
            forall|j: int| 0 <= j < i ==> is_generated_id(#[trigger] ids.deep_view()[j]),
        decreases count - i,
    {
        let id = generated_id();
        let ghost before = ids;
        ids.push(id);
        proof {
            lemma_deep_view_push(before, ids, id);
        }
        i = i + 1;
    }
    ids
}

impl Repository {
    /// Stores texts as content of a repository and announces each stored
    /// text in the outbox, with the given identifiers for the events. A text
    /// whose identifier the store holds already is passed over and not
    /// announced. All of it happens or none of it: where the identifier of
    /// an event is taken, or the identifiers are not as many as the texts,
    /// the store stays as it was.
    pub fn add_content_with_ids(
        &mut self,
        repository_name: &str,
        texts: Vec<Text>,
        event_ids: Vec<String>,
    ) -> (result: Result<(), RepositoryError>)
        requires
            old(self).wf(),
        ensures
            final(self).wf(),
            event_ids.len() != texts.len() ==> final(self)@ == old(self)@ && result is Err
                && result->Err_0.deep_view() == RepositoryErrorView::LogicError(
                event_ids_mismatch(),
            ),
            event_ids.len() == texts.len() ==> match ingested(
                old(self)@,
                repository_name@,
                texts.deep_view(),
                event_ids.deep_view(),
            ) {
                Some(store) => result is Ok && final(self)@ == store,
                None => final(self)@ == old(self)@ && result is Err && result->Err_0.deep_view()
                    == RepositoryErrorView::LogicError(event_id_taken()),
            },
            final(self)@ == old(self)@.after(
                Operation::AddContent {
                    repository: repository_name@,
                    texts: texts.deep_view(),
                    event_ids: event_ids.deep_view(),
                },
            ),
    {
        if event_ids.len() != texts.len() {
            return Err(
                RepositoryError::LogicError(
                    String::from_str("one event identifier is needed for each event"),
                ),
            );
        }
        let ghost all = texts.deep_view();
        let ghost ids = event_ids.deep_view();
        let before: usize = self.content.len();
        let mut events: Vec<extraction_event::Model> = Vec::new();
        let mut i: usize = 0;
        proof {
            lemma_deep_view_empty(events);
            assert(self.content@.take(before as int) =~= self.content@);
        }
        while i < texts.len()
            invariant
                i <= texts.len(),
                event_ids.len() == texts.len(),
                all == texts.deep_view(),
                ids == event_ids.deep_view(),
                self.wf(),
                before == old(self)@.content.len(),
                before <= self.content@.len(),
                self.content@.take(before as int) == old(self)@.content,
                self@ == (StoreState { content: self.content@, ..old(self)@ }),
                (self.content@, events.deep_view()) == ingest_plan(
                    old(self)@.content,
                    repository_name@,
                    all.take(i as int),
                    ids,
                ),
                outbox_agrees(events.deep_view()),
            decreases texts.len() - i,
        {
            let text = &texts[i];
            proof {
                lemma_take_next(all, i as int);
            }
            let row = content_row_of(repository_name, text);
            let ghost so_far = self.content@;
            let added = self.content.insert_ignore(row);
            proof {
                assert(self.content@.take(before as int) =~= so_far.take(before as int));
            }
            if added {
                let event = announce(
                    event_ids[i].clone(),
                    repository_name,
                    ExtractionEventPayload::CreateContent { content_id: text.id.clone() },
                );
                let ghost listed = events;
                events.push(event);
                proof {
                    lemma_deep_view_push(listed, events, event);
                }
            }
            i = i + 1;
        }
        proof {
            lemma_take_all(all);
        }
        if self.extraction_events.append_all(&events) {
            proof {
                lemma_appended_is_concat::<extraction_event::Model>(
                    old(self)@.extraction_events,
                    events.deep_view(),
                );
            }
            Ok(())
        } else {
            self.content.truncate(before);
            Err(RepositoryError::LogicError(String::from_str("extraction event identifier is taken")))
        }
    }

    /// Stores texts as content of a repository and announces each stored
    /// text in the outbox under a new random identifier. Whatever the
    /// identifiers are, the outcome is that of
    /// [`Repository::add_content_with_ids`] for them.
    pub fn add_content(&mut self, repository_name: &str, texts: Vec<Text>) -> (result: Result<
        (),
        RepositoryError,
    >)
        requires
            old(self).wf(),
        ensures
            final(self).wf(),
            exists|event_ids: Seq<Seq<char>>|
                {
                    &&& event_ids.len() == texts.len()
                    &&& forall|i: int|
                        0 <= i < event_ids.len() ==> is_generated_id(#[trigger] event_ids[i])
                    &&& match #[trigger] ingested(
                        old(self)@,
                        repository_name@,
                        texts.deep_view(),
                        event_ids,
                    ) {
                        Some(store) => result is Ok && final(self)@ == store,
                        None => final(self)@ == old(self)@ && result is Err
                            && result->Err_0.deep_view() == RepositoryErrorView::LogicError(
                            event_id_taken(),
                        ),
                    }
                },
    {
        let event_ids = generated_ids(texts.len());
        self.add_content_with_ids(repository_name, texts, event_ids)
    }
}

/// The outbox row of a new event.
pub fn announce(id: String, repository: &str, payload: ExtractionEventPayload) -> (row:
    extraction_event::Model)
    ensures
        row.deep_view() == outbox_row(id@, repository@, payload.deep_view()),
{
    extraction_event::Model {
        id: id.clone(),
        payload: ExtractionEvent { id, repository_id: String::from_str(repository), payload },
        allocation_info: None,
        processed_at: None,
    }
}

/// The place of the first binding with an identifier.
pub fn find_binding(bindings: &Vec<ExtractorBinding>, id: &str) -> (at: Option<usize>)
    ensures
        match at {
            Some(i) => i < bindings.len() && bindings.deep_view().filter(bound_as(id@)).len() > 0
                && bindings.deep_view().filter(bound_as(id@))[0] == bindings.deep_view()[i as int],
            None => bindings.deep_view().filter(bound_as(id@)).len() == 0,
        },
{
    let ghost all = bindings.deep_view();
    let mut i: usize = 0;
    proof {
        lemma_filter_none(bound_as(id@));
        assert(all.take(0) =~= Seq::empty());
    }
    while i < bindings.len()
        invariant
            i <= bindings.len(),
            all == bindings.deep_view(),
            all.take(i as int).filter(bound_as(id@)).len() == 0,
        decreases bindings.len() - i,
    {
        if same_text(bindings[i].id.as_str(), id) {
            proof {
                lemma_first_match(all, bound_as(id@), i as int);
            }
            return Some(i);
        }
        proof {
            lemma_filter_next(all, bound_as(id@), i as int);
        }
        i = i + 1;
    }
    proof {
        lemma_take_all(all);
    }
    None
}

/// The bindings of a list by their identifier: a later binding takes the
/// place of an earlier one with the same identifier.
pub fn bindings_by_id(bindings: &Vec<ExtractorBinding>) -> (keyed: Vec<ExtractorBinding>)
    ensures
        keyed.deep_view() == keyed_bindings(bindings.deep_view()),
{
    let ghost all = bindings.deep_view();
    let mut keyed: Table<ExtractorBinding> = Table::new();
    let mut i: usize = 0;
    while i < bindings.len()
        invariant
            i <= bindings.len(),
            all == bindings.deep_view(),
            keyed.wf(),
            keyed@ == keyed_bindings(all.take(i as int)),
        decreases bindings.len() - i,
    {
        proof {
            lemma_take_next(all, i as int);
        }
        keyed.upsert(bindings[i].clone());
        i = i + 1;
    }
    proof {
        lemma_take_all(all);
    }
    keyed.into_rows()
}

impl Repository {
    /// Stores a repository and announces each of its bindings in the
    /// outbox, with the given identifiers for the events. A repository of
    /// that name has its bindings and metadata replaced; each binding of the
    /// list is announced, whether it was declared before or not. All of it
    /// happens or none of it: where the identifier of an event is taken, or
    /// the identifiers are not as many as the bindings, the store stays as
    /// it was.
    pub fn upsert_repository_with_ids(&mut self, repository: DataRepository, event_ids: Vec<String>) -> (result:
        Result<(), RepositoryError>)
        requires
            old(self).wf(),
        ensures
            final(self).wf(),
            event_ids.len() != repository.extractor_bindings.len() ==> final(self)@ == old(self)@
                && result is Err && result->Err_0.deep_view() == RepositoryErrorView::LogicError(
                event_ids_mismatch(),
            ),
            event_ids.len() == repository.extractor_bindings.len() ==> match repository_stored(
                old(self)@,
                repository.deep_view(),
                event_ids.deep_view(),
            ) {
                Some(store) => result is Ok && final(self)@ == store,
                None => final(self)@ == old(self)@ && result is Err && result->Err_0.deep_view()
                    == RepositoryErrorView::LogicError(event_id_taken()),
            },
            final(self)@ == old(self)@.after(
                Operation::UpsertRepository {
                    declared: repository.deep_view(),
                    event_ids: event_ids.deep_view(),
                },
            ),
    {
        if event_ids.len() != repository.extractor_bindings.len() {
            return Err(
                RepositoryError::LogicError(
                    String::from_str("one event identifier is needed for each event"),
                ),
            );
        }
        let ghost declared = repository.extractor_bindings.deep_view();
        let ghost ids = event_ids.deep_view();
        let mut events: Vec<extraction_event::Model> = Vec::new();
        let mut i: usize = 0;
        while i < repository.extractor_bindings.len()
            invariant
                i <= repository.extractor_bindings.len(),
                event_ids.len() == repository.extractor_bindings.len(),
                declared == repository.extractor_bindings.deep_view(),
                ids == event_ids.deep_view(),
                events.len() == i,
                forall|j: int|
                    0 <= j < i ==> #[trigger] events.deep_view()[j] == outbox_row(
                        ids[j],
                        repository.name@,
                        ExtractionEventPayloadView::ExtractorBindingAdded {
                            repository: repository.name@,
                            id: declared[j].id,
                        },
                    ),
            decreases repository.extractor_bindings.len() - i,
        {
            let event = announce(
                event_ids[i].clone(),
                repository.name.as_str(),
                ExtractionEventPayload::ExtractorBindingAdded {
                    repository: repository.name.clone(),
                    id: repository.extractor_bindings[i].id.clone(),
                },
            );
            let ghost listed = events;
            events.push(event);
            proof {
                lemma_deep_view_push(listed, events, event);
            }
            i = i + 1;
        }
        assert(events.deep_view() =~= announcements(repository.name@, declared, ids));
        if !self.extraction_events.append_all(&events) {
            return Err(
                RepositoryError::LogicError(String::from_str("extraction event identifier is taken")),
            );
        }
        proof {
            lemma_appended_is_concat::<extraction_event::Model>(
                old(self)@.extraction_events,
                events.deep_view(),
            );
        }
        match self.repositories.position(repository.name.as_str()) {
            Some(at) => {
                let stored = self.repositories.row(at);
                let row = data_repository::Model {
                    name: stored.name.clone(),
                    extractor_bindings: bindings_by_id(&repository.extractor_bindings),
                    metadata: repository.metadata,
                    data_connectors: clone_connectors(&stored.data_connectors),
                };
                self.repositories.replace(at, row);
            },
            None => {
                self.repositories.insert_ignore(repository_row_of(&repository));
            },
        }
        Ok(())
    }

    /// Stores a repository and announces each of its bindings in the
    /// outbox under a new random identifier. Whatever the identifiers are,
    /// the outcome is that of [`Repository::upsert_repository_with_ids`] for
    /// them.
    pub fn upsert_repository(&mut self, repository: DataRepository) -> (result: Result<
        (),
        RepositoryError,
    >)
        requires
            old(self).wf(),
        ensures
            final(self).wf(),
            exists|event_ids: Seq<Seq<char>>|
                {
                    &&& event_ids.len() == repository.extractor_bindings.len()
                    &&& forall|i: int|
                        0 <= i < event_ids.len() ==> is_generated_id(#[trigger] event_ids[i])
                    &&& match #[trigger] repository_stored(
                        old(self)@,
                        repository.deep_view(),
                        event_ids,
                    ) {
                        Some(store) => result is Ok && final(self)@ == store,
                        None => final(self)@ == old(self)@ && result is Err
                            && result->Err_0.deep_view() == RepositoryErrorView::LogicError(
                            event_id_taken(),
                        ),
                    }
                },
    {
        let event_ids = generated_ids(repository.extractor_bindings.len());
        self.upsert_repository_with_ids(repository, event_ids)
    }

    /// Describes a new index for embeddings, given what the vector backend
    /// answered when it was asked to create the index. Where the backend
    /// failed, the store stays as it was and the failure is handed on. An
    /// index of that name that is described already stays as it is, and
    /// that is no failure.
    pub fn create_vector_index(
        &mut self,
        repository_name: &str,
        extractor_name: &str,
        index_name: &str,
        index_params: CreateIndexParams,
        created: Result<(), VectorDbError>,
    ) -> (result: Result<(), RepositoryError>)
        requires
            old(self).wf(),
        ensures
            final(self).wf(),
            match created {
                Ok(()) => result is Ok && final(self)@ == (StoreState {
                    indexes: inserted_if_new::<index::Model>(
                        old(self)@.indexes,
                        index_row(
                            repository_name@,
                            extractor_name@,
                            index_name@,
                            index_params.deep_view(),
                        ),
                    ),
                    ..old(self)@
                }),
                Err(e) => final(self)@ == old(self)@ && result is Err && result->Err_0.deep_view()
                    == RepositoryErrorView::VectorDb(e.deep_view()),
            },
            final(self)@ == old(self)@.after(
                Operation::CreateVectorIndex {
                    repository: repository_name@,
                    extractor: extractor_name@,
                    index: index_name@,
                    params: index_params.deep_view(),
                    created: created is Ok,
                },
            ),
    {
        match created {
            Err(e) => Err(RepositoryError::VectorDb(e)),
            Ok(()) => {
                self.indexes.insert_ignore(
                    index_row_of(repository_name, extractor_name, index_name, &index_params),
                );
                Ok(())
            },
        }
    }

    /// The description of an index of a repository.
    pub fn get_index(&self, index: &str, repository: &str) -> (result: Result<
        index::Model,
        RepositoryError,
    >)
        requires
            self.wf(),
        ensures
            match index_found(self@.indexes, index@, repository@) {
                Some(row) => result is Ok && result->Ok_0.deep_view() == row,
                None => result is Err && result->Err_0.deep_view()
                    == RepositoryErrorView::IndexNotFound(index@),
            },
    {
        match self.indexes.position(index) {
            Some(at) => {
                let row = self.indexes.row(at);
                if same_text(row.repository_id.as_str(), repository) {
                    return Ok(row.clone());
                }
            },
            None => {},
        }
        Err(RepositoryError::IndexNotFound(String::from_str(index)))
    }

    /// A content item of a repository.
    pub fn content_from_repo(&self, content_id: &str, repo_id: &str) -> (result: Result<
        Content<String>,
        RepositoryError,
    >)
        requires
            self.wf(),
        ensures
            match content_found(self@.content, content_id@, repo_id@) {
                Some(row) => result is Ok && result->Ok_0.deep_view() == content_of_row(row),
                None => result is Err && result->Err_0.deep_view()
                    == RepositoryErrorView::ContentNotFound(content_id@),
            },
    {
        match self.content.position(content_id) {
            Some(at) => {
                let row = self.content.row(at);
                if same_text(row.repository_id.as_str(), repo_id) {
                    return Ok(Content::from(row.clone()));
                }
            },
            None => {},
        }
        Err(RepositoryError::ContentNotFound(String::from_str(content_id)))
    }

    /// A chunk, with the metadata of the content item that it is a part of.
    pub fn chunk_with_id(&self, id: &str) -> (result: Result<ChunkWithMetadata, RepositoryError>)
        requires
            self.wf(),
        ensures
            !has_key::<index_chunks::Model>(self@.chunks, id@) ==> result is Err
                && result->Err_0.deep_view() == RepositoryErrorView::ChunkNotFound(id@),
            has_key::<index_chunks::Model>(self@.chunks, id@) ==> {
                let chunk = self@.chunks[key_index::<index_chunks::Model>(self@.chunks, id@)];
                if has_key::<content::Model>(self@.content, chunk.content_id) {
                    result is Ok && result->Ok_0.deep_view() == (ChunkWithMetadataView {
                        chunk_id: chunk.chunk_id,
                        content_id: chunk.content_id,
                        text: chunk.text,
                        metadata: self@.content[key_index::<content::Model>(
                            self@.content,
                            chunk.content_id,
                        )].metadata,
                    })
                } else {
                    result is Err && result->Err_0.deep_view()
                        == RepositoryErrorView::ContentNotFound(chunk.content_id)
                }
            },
    {
        match self.chunks.position(id) {
            None => Err(RepositoryError::ChunkNotFound(String::from_str(id))),
            Some(at) => {
                let chunk = self.chunks.row(at);
                match self.content.position(chunk.content_id.as_str()) {
                    None => Err(RepositoryError::ContentNotFound(chunk.content_id.clone())),
                    Some(item) => Ok(
                        ChunkWithMetadata {
                            chunk_id: chunk.chunk_id.clone(),
                            content_id: chunk.content_id.clone(),
                            text: chunk.text.clone(),
                            metadata: self.content.row(item).metadata.clone(),
                        },
                    ),
                }
            },
        }
    }

    /// The repository of a name.
    pub fn repository_by_name(&self, name: &str) -> (result: Result<DataRepository, RepositoryError>)
        requires
            self.wf(),
        ensures
            has_key::<data_repository::Model>(self@.repositories, name@) ==> result is Ok
                && result->Ok_0.deep_view() == repository_of_row(
                self@.repositories[key_index::<data_repository::Model>(self@.repositories, name@)],
            ),
            !has_key::<data_repository::Model>(self@.repositories, name@) ==> result is Err
                && result->Err_0.deep_view() == RepositoryErrorView::RepositoryNotFound(name@),
    {
        match self.repositories.position(name) {
            Some(at) => Ok(DataRepository::from(self.repositories.row(at).clone())),
            None => Err(RepositoryError::RepositoryNotFound(String::from_str(name))),
        }
    }

    /// The extractor of a name.
    pub fn extractor_by_name(&self, name: &str) -> (result: Result<ExtractorConfig, RepositoryError>)
        requires
            self.wf(),
        ensures
            has_key::<extractors::Model>(self@.extractors, name@) ==> result is Ok
                && result->Ok_0.deep_view() == extractor_of_row(
                self@.extractors[key_index::<extractors::Model>(self@.extractors, name@)],
            ),
            !has_key::<extractors::Model>(self@.extractors, name@) ==> result is Err
                && result->Err_0.deep_view() == RepositoryErrorView::ExtractorNotFound(name@),
    {
        match self.extractors.position(name) {
            Some(at) => Ok(ExtractorConfig::from(self.extractors.row(at).clone())),
            None => Err(RepositoryError::ExtractorNotFound(String::from_str(name))),
        }
    }

    /// The extractor of a name. Where there is none, the failure names the
    /// extractor that is missing.
    pub fn get_extractor(&self, extractor_name: &str) -> (result: Result<
        ExtractorConfig,
        RepositoryError,
    >)
        requires
            self.wf(),
        ensures
            has_key::<extractors::Model>(self@.extractors, extractor_name@) ==> result is Ok
                && result->Ok_0.deep_view() == extractor_of_row(
                self@.extractors[key_index::<extractors::Model>(self@.extractors, extractor_name@)],
            ),
            !has_key::<extractors::Model>(self@.extractors, extractor_name@) ==> result is Err
                && result->Err_0.deep_view() == RepositoryErrorView::ExtractorNotFound(
                extractor_name@,
            ),
    {
        match self.extractors.position(extractor_name) {
            Some(at) => Ok(ExtractorConfig::from(self.extractors.row(at).clone())),
            None => Err(RepositoryError::ExtractorNotFound(String::from_str(extractor_name))),
        }
    }

    /// The binding with an identifier: that of the first repository that
    /// declares one. Where none does, the failure names the repository that
    /// was asked about.
    pub fn binding_by_id(&self, repository: &str, id: &str) -> (result: Result<
        ExtractorBinding,
        RepositoryError,
    >)
        ensures
            match binding_found(self@.repositories, id@) {
                Some(binding) => result is Ok && result->Ok_0.deep_view() == binding,
                None => result is Err && result->Err_0.deep_view()
                    == RepositoryErrorView::RepositoryNotFound(repository@),
            },
    {
        let ghost rows = self.repositories@;
        let mut i: usize = 0;
        proof {
            lemma_filter_none(declares(id@));
            assert(rows.take(0) =~= Seq::empty());
        }
        while i < self.repositories.len()
            invariant
                i <= rows.len(),
                rows == self.repositories@,
                rows.take(i as int).filter(declares(id@)).len() == 0,
            decreases rows.len() - i,
        {
            let row = self.repositories.row(i);
            match find_binding(&row.extractor_bindings, id) {
                Some(at) => {
                    proof {
                        lemma_first_match(rows, declares(id@), i as int);
                    }
                    return Ok(row.extractor_bindings[at].clone());
                },
                None => {
                    proof {
                        lemma_filter_next(rows, declares(id@), i as int);
                    }
                },
            }
            i = i + 1;
        }
        proof {
            lemma_take_all(rows);
        }
        Err(RepositoryError::RepositoryNotFound(String::from_str(repository)))
    }
}

impl Repository {
    /// Logs events for a repository. An event whose identifier is logged
    /// already is passed over, and that is no failure.
    pub fn add_events(&mut self, repository: &str, events: Vec<Event>) -> (result: Result<
        (),
        RepositoryError,
    >)
        requires
            old(self).wf(),
        ensures
            final(self).wf(),
            result is Ok,
            final(self)@ == (StoreState {
                events: each_inserted_if_new::<events::Model>(
                    old(self)@.events,
                    events.deep_view().map_values(event_row(repository@)),
                ),
                ..old(self)@
            }),
            final(self)@ == old(self)@.after(
                Operation::AddEvents { repository: repository@, events: events.deep_view() },
            ),
    {
        let ghost all = events.deep_view();
        let mut rows: Vec<events::Model> = Vec::new();
        let mut i: usize = 0;
        proof {
            lemma_deep_view_empty(rows);
            assert(all.take(0).map_values(event_row(repository@)) =~= Seq::empty());
        }
        while i < events.len()
            invariant
                i <= events.len(),
                all == events.deep_view(),
                rows.deep_view() == all.take(i as int).map_values(event_row(repository@)),
            decreases events.len() - i,
        {
            let row = event_row_of(repository, &events[i]);
            let ghost listed = rows;
            rows.push(row);
            proof {
                lemma_deep_view_push(listed, rows, row);
                lemma_take_next(all, i as int);
                lemma_map_push(all.take(i as int), all[i as int], event_row(repository@));
            }
            i = i + 1;
        }
        proof {
            lemma_take_all(all);
        }
        self.events.insert_each_if_new(&rows);
        Ok(())
    }

    /// The logged events of a repository, in the order in which they were
    /// logged.
    pub fn list_events(&self, repository: &str) -> (result: Result<Vec<Event>, RepositoryError>)
        ensures
            result is Ok,
            result->Ok_0.deep_view() == self@.events.filter(logged_for(repository@)).map_values(
                as_event(),
            ),
    {
        let ghost rows = self.events@;
        let ghost test = logged_for(repository@);
        let mut found: Vec<Event> = Vec::new();
        let mut i: usize = 0;
        proof {
            lemma_deep_view_empty(found);
            lemma_filter_none(test);
            assert(Seq::<events::ModelView>::empty().map_values(as_event()) =~= Seq::<
                EventView,
            >::empty());
        }
        while i < self.events.len()
            invariant
                i <= rows.len(),
                rows == self.events@,
                test == logged_for(repository@),
                found.deep_view() == rows.take(i as int).filter(test).map_values(as_event()),
            decreases rows.len() - i,
        {
            let row = self.events.row(i);
            proof {
                lemma_filter_next(rows, test, i as int);
            }
            if same_text(row.repository_id.as_str(), repository) {
                let event = Event {
                    id: row.id.clone(),
                    message: row.message.clone(),
                    unix_timestamp: #[verifier::truncate]
                    (row.unix_time_stamp as u64),
                    metadata: row.metadata.clone(),
                };
                let ghost before = found;
                found.push(event);
                proof {
                    lemma_deep_view_push(before, found, event);
                    lemma_map_push(rows.take(i as int).filter(test), rows[i as int], as_event());
                }
            }
            i = i + 1;
        }
        proof {
            lemma_take_all(rows);
        }
        Ok(found)
    }

    /// Stores chunks in an index. A chunk whose identifier is stored
    /// already is passed over, and that is no failure.
    pub fn create_chunks(&mut self, chunks: Vec<Chunk>, index_name: &str) -> (result: Result<
        (),
        RepositoryError,
    >)
        requires
            old(self).wf(),
        ensures
            final(self).wf(),
            result is Ok,
            final(self)@ == (StoreState {
                chunks: each_inserted_if_new::<index_chunks::Model>(
                    old(self)@.chunks,
                    chunks.deep_view().map_values(chunk_row(index_name@)),
                ),
                ..old(self)@
            }),
            final(self)@ == old(self)@.after(
                Operation::CreateChunks { chunks: chunks.deep_view(), index: index_name@ },
            ),
    {
        let ghost all = chunks.deep_view();
        let mut rows: Vec<index_chunks::Model> = Vec::new();
        let mut i: usize = 0;
        proof {
            lemma_deep_view_empty(rows);
            assert(all.take(0).map_values(chunk_row(index_name@)) =~= Seq::empty());
        }
        while i < chunks.len()
            invariant
                i <= chunks.len(),
                all == chunks.deep_view(),
                rows.deep_view() == all.take(i as int).map_values(chunk_row(index_name@)),
            decreases chunks.len() - i,
        {
            let row = chunk_row_of(&chunks[i], index_name);
            let ghost listed = rows;
            rows.push(row);
            proof {
                lemma_deep_view_push(listed, rows, row);
                lemma_take_next(all, i as int);
                lemma_map_push(all.take(i as int), all[i as int], chunk_row(index_name@));
            }
            i = i + 1;
        }
        proof {
            lemma_take_all(all);
        }
        self.chunks.insert_each_if_new(&rows);
        Ok(())
    }

    /// The repositories, in the order in which they were first stored.
    pub fn repositories(&self) -> (result: Result<Vec<DataRepository>, RepositoryError>)
        ensures
            result is Ok,
            result->Ok_0.deep_view() == self@.repositories.map_values(as_repository()),
    {
        let ghost rows = self.repositories@;
        let mut found: Vec<DataRepository> = Vec::new();
        let mut i: usize = 0;
        proof {
            lemma_deep_view_empty(found);
            assert(rows.take(0).map_values(as_repository()) =~= Seq::empty());
        }
        while i < self.repositories.len()
            invariant
                i <= rows.len(),
                rows == self.repositories@,
                found.deep_view() == rows.take(i as int).map_values(as_repository()),
            decreases rows.len() - i,
        {
            let item = DataRepository::from(self.repositories.row(i).clone());
            let ghost before = found;
            found.push(item);
            proof {
                lemma_deep_view_push(before, found, item);
                lemma_take_next(rows, i as int);
                lemma_map_push(rows.take(i as int), rows[i as int], as_repository());
            }
            i = i + 1;
        }
        proof {
            lemma_take_all(rows);
        }
        Ok(found)
    }

    /// The recorded extractors, in the order in which they were first
    /// recorded.
    pub fn list_extractors(&self) -> (result: Result<Vec<ExtractorConfig>, RepositoryError>)
        ensures
            result is Ok,
            result->Ok_0.deep_view() == self@.extractors.map_values(as_extractor()),
    {
        let ghost rows = self.extractors@;
        let mut found: Vec<ExtractorConfig> = Vec::new();
        let mut i: usize = 0;
        proof {
            lemma_deep_view_empty(found);
            assert(rows.take(0).map_values(as_extractor()) =~= Seq::empty());
        }
        while i < self.extractors.len()
            invariant
                i <= rows.len(),
                rows == self.extractors@,
                found.deep_view() == rows.take(i as int).map_values(as_extractor()),
            decreases rows.len() - i,
        {
            let item = ExtractorConfig::from(self.extractors.row(i).clone());
            let ghost before = found;
            found.push(item);
            proof {
                lemma_deep_view_push(before, found, item);
                lemma_take_next(rows, i as int);
                lemma_map_push(rows.take(i as int), rows[i as int], as_extractor());
            }
            i = i + 1;
        }
        proof {
            lemma_take_all(rows);
        }
        Ok(found)
    }

    /// Records extractors, in the order of the list. An extractor of a name
    /// that is recorded already has its description and its parameters
    /// replaced; its type stays.
    pub fn record_extractors(&mut self, extractors: Vec<ExtractorConfig>) -> (result: Result<
        (),
        RepositoryError,
    >)
        requires
            old(self).wf(),
        ensures
            final(self).wf(),
            result is Ok,
            final(self)@ == (StoreState {
                extractors: extractors_recorded(old(self)@.extractors, extractors.deep_view()),
                ..old(self)@
            }),
            final(self)@ == old(self)@.after(
                Operation::RecordExtractors { extractors: extractors.deep_view() },
            ),
    {
        let ghost all = extractors.deep_view();
        let mut i: usize = 0;
        while i < extractors.len()
            invariant
                i <= extractors.len(),
                all == extractors.deep_view(),
                self.wf(),
                self@ == (StoreState {
                    extractors: extractors_recorded(old(self)@.extractors, all.take(i as int)),
                    ..old(self)@
                }),
            decreases extractors.len() - i,
        {
            let config = &extractors[i];
            proof {
                lemma_take_next(all, i as int);
            }
            match self.extractors.position(config.name.as_str()) {
                Some(at) => {
                    let stored = self.extractors.row(at);
                    let row = extractors::Model {
                        id: stored.id.clone(),
                        description: config.description.clone(),
                        extractor_type: stored.extractor_type.clone(),
                        input_params: config.input_params.clone(),
                    };
                    self.extractors.replace(at, row);
                },
                None => {
                    self.extractors.insert_ignore(extractor_row_of(config));
                },
            }
            i = i + 1;
        }
        proof {
            lemma_take_all(all);
        }
        Ok(())
    }

    /// Stores the attributes that an extractor found in a content item,
    /// under an index of a repository. Attributes with that identifier that
    /// are stored already have their data replaced.
    pub fn add_attributes(
        &mut self,
        repository: &str,
        index_name: &str,
        extracted_attributes: ExtractedAttributes,
    ) -> (result: Result<(), RepositoryError>)
        requires
            old(self).wf(),
        ensures
            final(self).wf(),
            result is Ok,
            final(self)@ == (StoreState {
                attributes: attributes_added(
                    old(self)@.attributes,
                    repository@,
                    index_name@,
                    extracted_attributes.deep_view(),
                ),
                ..old(self)@
            }),
            final(self)@ == old(self)@.after(
                Operation::AddAttributes {
                    repository: repository@,
                    index: index_name@,
                    found: extracted_attributes.deep_view(),
                },
            ),
    {
        match self.attributes.position(extracted_attributes.id.as_str()) {
            Some(at) => {
                let mut row = self.attributes.row(at).clone();
                row.data = extracted_attributes.attributes;
                row.created_at = 0;
                self.attributes.replace(at, row);
            },
            None => {
                self.attributes.insert_ignore(
                    attributes_row_of(repository, index_name, &extracted_attributes),
                );
            },
        }
        Ok(())
    }

    /// The attributes stored under an index of a repository, in the order in
    /// which they were first stored; where a content item is named, those
    /// of that item alone.
    pub fn get_extracted_attributes(
        &self,
        repository: &str,
        index: &str,
        content_id: Option<&String>,
    ) -> (result: Result<Vec<ExtractedAttributes>, RepositoryError>)
        ensures
            result is Ok,
            result->Ok_0.deep_view() == self@.attributes.filter(
                attributes_of(repository@, index@, content_id.deep_view()),
            ).map_values(as_attributes()),
    {
        let ghost rows = self.attributes@;
        let ghost test = attributes_of(repository@, index@, content_id.deep_view());
        let mut found: Vec<ExtractedAttributes> = Vec::new();
        let mut i: usize = 0;
        proof {
            lemma_deep_view_empty(found);
            lemma_filter_none(test);
            assert(Seq::<attributes_index::ModelView>::empty().map_values(as_attributes())
                =~= Seq::<ExtractedAttributesView>::empty());
        }
        while i < self.attributes.len()
            invariant
                i <= rows.len(),
                rows == self.attributes@,
                test == attributes_of(repository@, index@, content_id.deep_view()),
                found.deep_view() == rows.take(i as int).filter(test).map_values(as_attributes()),
            decreases rows.len() - i,
        {
            let row = self.attributes.row(i);
            proof {
                lemma_filter_next(rows, test, i as int);
            }
            let is_item = match content_id {
                Some(id) => same_text(row.content_id.as_str(), id.as_str()),
                None => true,
            };
            if is_item && same_text(row.repository_id.as_str(), repository)
                && same_text(row.index_name.as_str(), index) {
                let item = ExtractedAttributes::from(row.clone());
                let ghost before = found;
                found.push(item);
                proof {
                    lemma_deep_view_push(before, found, item);
                    lemma_map_push(rows.take(i as int).filter(test), rows[i as int], as_attributes());
                }
            }
            i = i + 1;
        }
        proof {
            lemma_take_all(rows);
        }
        Ok(found)
    }
}

} // verus!
