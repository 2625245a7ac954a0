//! What the store holds, and what each operation makes of it.

use crate::completion::is_applied;
use crate::entity::attributes_index;
use crate::entity::content;
use crate::entity::data_repository;
use crate::entity::events;
use crate::entity::extraction_event;
use crate::entity::extractors;
use crate::entity::index;
use crate::entity::index_chunks;
use crate::entity::work;
use crate::event::EventView;
use crate::json::JsonView;
use crate::table::{all_appended, distinct_keys, has_key, key_index, upserted};
use crate::types::{
    attributes_of_row, extractor_of_row, repository_of_row, ChunkView, ContentType,
    DataRepositoryView, ExtractedAttributesView, ExtractionEventPayloadView, ExtractionEventView,
    ExtractorBinding, ExtractorBindingView, ExtractorConfigView, ExtractorFilterView, TextView,
};
use crate::vectordbs::CreateIndexParamsView;
use crate::work::{work_of_row, WorkState, WorkView};
use vstd::prelude::*;

verus! {

/// What the store holds: the rows of each table, in the order in which
/// they were inserted.
pub struct StoreState {
    pub extractors: Seq<extractors::ModelView>,
    pub repositories: Seq<data_repository::ModelView>,
    pub content: Seq<content::ModelView>,
    pub extraction_events: Seq<extraction_event::ModelView>,
    pub events: Seq<events::ModelView>,
    pub indexes: Seq<index::ModelView>,
    pub chunks: Seq<index_chunks::ModelView>,
    pub attributes: Seq<attributes_index::ModelView>,
    pub work: Seq<work::ModelView>,
}

impl StoreState {
    /// The store without rows.
    pub open spec fn empty() -> StoreState {
        StoreState {
            extractors: Seq::empty(),
            repositories: Seq::empty(),
            content: Seq::empty(),
            extraction_events: Seq::empty(),
            events: Seq::empty(),
            indexes: Seq::empty(),
            chunks: Seq::empty(),
            attributes: Seq::empty(),
            work: Seq::empty(),
        }
    }

    /// Whether the store is well formed: no table holds two rows with the
    /// same key, and each row of the outbox holds the event of the row's
    /// identifier.
    pub open spec fn wf(self) -> bool {
        &&& outbox_agrees(self.extraction_events)
        &&& distinct_keys::<extractors::Model>(self.extractors)
        &&& distinct_keys::<data_repository::Model>(self.repositories)
        &&& distinct_keys::<content::Model>(self.content)
        &&& distinct_keys::<extraction_event::Model>(self.extraction_events)
        &&& distinct_keys::<events::Model>(self.events)
        &&& distinct_keys::<index::Model>(self.indexes)
        &&& distinct_keys::<index_chunks::Model>(self.chunks)
        &&& distinct_keys::<attributes_index::Model>(self.attributes)
        &&& distinct_keys::<work::Model>(self.work)
    }
}

// ---------------------------------------------------------------------
// The outbox
// ---------------------------------------------------------------------

/// Whether each row of the outbox holds the event of the row's identifier.
pub open spec fn outbox_agrees(rows: Seq<extraction_event::ModelView>) -> bool {
    forall|i: int| 0 <= i < rows.len() ==> (#[trigger] rows[i]).payload.id == rows[i].id
}

/// The test that an outbox row waits to be handed off.
pub open spec fn waiting() -> spec_fn(extraction_event::ModelView) -> bool {
    |row: extraction_event::ModelView| row.processed_at is None
}

/// The event of an outbox row.
pub open spec fn event_of() -> spec_fn(extraction_event::ModelView) -> ExtractionEventView {
    |row: extraction_event::ModelView| row.payload
}

/// The events that wait to be handed off, in the order in which they were
/// appended.
pub open spec fn waiting_events(rows: Seq<extraction_event::ModelView>) -> Seq<
    ExtractionEventView,
> {
    rows.filter(waiting()).map_values(event_of())
}

/// The outbox after the event with the identifier was marked as handed off
/// at a time: a first mark sets the time, a later one changes nothing, and
/// so does the mark of an event that the outbox does not hold.
pub open spec fn event_marked(
    rows: Seq<extraction_event::ModelView>,
    id: Seq<char>,
    at: i64,
) -> Seq<extraction_event::ModelView> {
    if has_key::<extraction_event::Model>(rows, id) {
        let i = key_index::<extraction_event::Model>(rows, id);
        if rows[i].processed_at is None {
            rows.update(i, extraction_event::ModelView { processed_at: Some(at), ..rows[i] })
        } else {
            rows
        }
    } else {
        rows
    }
}

/// Whether the outbox holds the event with the identifier, handed off.
pub open spec fn is_handed_off(rows: Seq<extraction_event::ModelView>, id: Seq<char>) -> bool {
    has_key::<extraction_event::Model>(rows, id) && rows[key_index::<extraction_event::Model>(
        rows,
        id,
    )].processed_at is Some
}

// ---------------------------------------------------------------------
// Completion
// ---------------------------------------------------------------------

/// Whether the store holds the content item with the identifier, with the
/// extractor of the binding marked as applied to it.
pub open spec fn is_marked(
    rows: Seq<content::ModelView>,
    content_id: Seq<char>,
    binding_id: Seq<char>,
) -> bool {
    has_key::<content::Model>(rows, content_id) && is_applied(
        rows[key_index::<content::Model>(rows, content_id)].extractor_bindings_state,
        binding_id,
    )
}


/// The content after the extractor of a binding was marked as applied to
/// the item with the identifier: the item's marker for that binding is one,
/// all else is as before.
pub open spec fn content_marked(
    rows: Seq<content::ModelView>,
    content_id: Seq<char>,
    binding_id: Seq<char>,
) -> Seq<content::ModelView> {
    if has_key::<content::Model>(rows, content_id) {
        let i = key_index::<content::Model>(rows, content_id);
        rows.update(
            i,
            content::ModelView {
                extractor_bindings_state: rows[i].extractor_bindings_state.insert(binding_id, 1),
                ..rows[i]
            },
        )
    } else {
        rows
    }
}

/// The string that a filter compares with, if its value is a string.
pub open spec fn filter_text(filter: ExtractorFilterView) -> Option<Seq<char>> {
    match filter {
        ExtractorFilterView::Eq { field, value } => value.as_str(),
        ExtractorFilterView::Neq { field, value } => value.as_str(),
    }
}

/// Whether every filter compares with a string.
pub open spec fn filters_are_text(filters: Seq<ExtractorFilterView>) -> bool {
    forall|i: int| 0 <= i < filters.len() ==> (#[trigger] filter_text(filters[i])) is Some
}

/// The text of a field of the metadata: nothing where the field is absent
/// or null.
pub open spec fn field_text(metadata: Map<Seq<char>, JsonView>, field: Seq<char>) -> Option<
    Seq<char>,
> {
    if metadata.contains_key(field) {
        metadata[field].as_text()
    } else {
        None
    }
}

/// Whether metadata passes a filter. A field without text passes neither
/// kind of filter.
pub open spec fn filter_holds(
    metadata: Map<Seq<char>, JsonView>,
    filter: ExtractorFilterView,
) -> bool {
    match filter {
        ExtractorFilterView::Eq { field, value } => {
            &&& value.as_str() is Some
            &&& field_text(metadata, field) == value.as_str()
        },
        ExtractorFilterView::Neq { field, value } => {
            &&& value.as_str() is Some
            &&& field_text(metadata, field) is Some
            &&& field_text(metadata, field) != value.as_str()
        },
    }
}

/// Whether metadata passes every filter.
pub open spec fn filters_hold(
    metadata: Map<Seq<char>, JsonView>,
    filters: Seq<ExtractorFilterView>,
) -> bool {
    forall|i: int| 0 <= i < filters.len() ==> #[trigger] filter_holds(metadata, filters[i])
}

/// Whether a content item is one that the binding's extractor still has to
/// be applied to: it belongs to the repository, its marker for the binding
/// is absent or zero, it passes the binding's filters and, where one item
/// is asked for, it is that item.
pub open spec fn is_unapplied(
    row: content::ModelView,
    repository: Seq<char>,
    binding: ExtractorBindingView,
    content_id: Option<Seq<char>>,
) -> bool {
    &&& row.repository_id == repository
    &&& !is_applied(row.extractor_bindings_state, binding.id)
    &&& (content_id is Some ==> row.id == content_id->0)
    &&& filters_hold(row.metadata, binding.filters)
}

/// The test [`is_unapplied`] for a repository, a binding and an item.
pub open spec fn unapplied(
    repository: Seq<char>,
    binding: ExtractorBindingView,
    content_id: Option<Seq<char>>,
) -> spec_fn(content::ModelView) -> bool {
    |row: content::ModelView| is_unapplied(row, repository, binding, content_id)
}

// ---------------------------------------------------------------------
// The work queue
// ---------------------------------------------------------------------

/// The test that work is pending and assigned to nobody.
pub open spec fn unassigned() -> spec_fn(work::ModelView) -> bool {
    |row: work::ModelView| row.worker_id is None && row.state == WorkState::Pending.name()
}

/// The test that work is pending and assigned to the worker.
pub open spec fn pending_for(worker_id: Seq<char>) -> spec_fn(work::ModelView) -> bool {
    |row: work::ModelView|
        row.worker_id == Some(worker_id) && row.state == WorkState::Pending.name()
}

/// The work that a row stands for.
pub open spec fn as_work() -> spec_fn(work::ModelView) -> WorkView {
    |row: work::ModelView| work_of_row(row)
}

/// The queue after work was assigned to a worker: where the queue holds the
/// work, the worker is now its worker, whoever was before.
pub open spec fn work_assigned(
    rows: Seq<work::ModelView>,
    work_id: Seq<char>,
    worker_id: Seq<char>,
) -> Seq<work::ModelView> {
    if has_key::<work::Model>(rows, work_id) {
        let i = key_index::<work::Model>(rows, work_id);
        rows.update(i, work::ModelView { worker_id: Some(worker_id), ..rows[i] })
    } else {
        rows
    }
}

/// The queue after each assignment of a list was made, in the order of the
/// list.
pub open spec fn all_assigned(
    rows: Seq<work::ModelView>,
    allocation: Seq<(Seq<char>, Seq<char>)>,
) -> Seq<work::ModelView>
    decreases allocation.len(),
{
    if allocation.len() == 0 {
        rows
    } else {
        work_assigned(
            all_assigned(rows, allocation.drop_last()),
            allocation.last().0,
            allocation.last().1,
        )
    }
}

/// The queue after the state of work was set: where the queue holds the
/// work, its state is the new one, whatever it was.
pub open spec fn work_state_set(
    rows: Seq<work::ModelView>,
    work_id: Seq<char>,
    state: WorkState,
) -> Seq<work::ModelView> {
    if has_key::<work::Model>(rows, work_id) {
        let i = key_index::<work::Model>(rows, work_id);
        rows.update(i, work::ModelView { state: state.name(), ..rows[i] })
    } else {
        rows
    }
}

// ---------------------------------------------------------------------
// Content and repositories
// ---------------------------------------------------------------------

/// The row under which a text of a repository is stored: no binding is
/// marked as applied yet.
pub open spec fn content_row(repository: Seq<char>, text: TextView) -> content::ModelView {
    content::ModelView {
        id: text.id,
        repository_id: repository,
        text: text.text,
        metadata: text.metadata,
        content_type: ContentType::Text.name(),
        extractor_bindings_state: Map::empty(),
    }
}

/// The outbox row of a new event: it waits to be handed off.
pub open spec fn outbox_row(
    id: Seq<char>,
    repository: Seq<char>,
    payload: ExtractionEventPayloadView,
) -> extraction_event::ModelView {
    extraction_event::ModelView {
        id,
        payload: ExtractionEventView { id, repository_id: repository, payload },
        allocation_info: None,
        processed_at: None,
    }
}

/// What storing texts comes to, text by text: the content rows after it, and
/// the events for the texts that were stored. A text whose identifier is
/// taken is not stored and gets no event; the text at place `i` would get
/// the event identifier at place `i`.
pub open spec fn ingest_plan(
    content_rows: Seq<content::ModelView>,
    repository: Seq<char>,
    texts: Seq<TextView>,
    event_ids: Seq<Seq<char>>,
) -> (Seq<content::ModelView>, Seq<extraction_event::ModelView>)
    decreases texts.len(),
{
    if texts.len() == 0 {
        (content_rows, Seq::empty())
    } else {
        let (stored, events) = ingest_plan(content_rows, repository, texts.drop_last(), event_ids);
        let text = texts.last();
        if has_key::<content::Model>(stored, text.id) {
            (stored, events)
        } else {
            (
                stored.push(content_row(repository, text)),
                events.push(
                    outbox_row(
                        event_ids[texts.len() - 1],
                        repository,
                        ExtractionEventPayloadView::CreateContent { content_id: text.id },
                    ),
                ),
            )
        }
    }
}

/// The store after texts were stored and announced; nothing where an
/// event's identifier is taken.
pub open spec fn ingested(
    store: StoreState,
    repository: Seq<char>,
    texts: Seq<TextView>,
    event_ids: Seq<Seq<char>>,
) -> Option<StoreState> {
    let (stored, events) = ingest_plan(store.content, repository, texts, event_ids);
    match all_appended::<extraction_event::Model>(store.extraction_events, events) {
        Some(outbox) => Some(StoreState { content: stored, extraction_events: outbox, ..store }),
        None => None,
    }
}

/// The bindings of a list by their identifier: a later binding takes the
/// place of an earlier one with the same identifier.
pub open spec fn keyed_bindings(bindings: Seq<ExtractorBindingView>) -> Seq<ExtractorBindingView>
    decreases bindings.len(),
{
    if bindings.len() == 0 {
        Seq::empty()
    } else {
        upserted::<ExtractorBinding>(keyed_bindings(bindings.drop_last()), bindings.last())
    }
}

/// The row under which a new repository is stored: its bindings are kept
/// by their identifier.
pub open spec fn repository_row(repository: DataRepositoryView) -> data_repository::ModelView {
    data_repository::ModelView {
        name: repository.name,
        extractor_bindings: keyed_bindings(repository.extractor_bindings),
        metadata: repository.metadata,
        data_connectors: repository.data_connectors,
    }
}

/// The repositories after one was stored: a new row, or the row of that name
/// with its bindings and metadata replaced and its connectors kept.
pub open spec fn repository_upserted(
    rows: Seq<data_repository::ModelView>,
    repository: DataRepositoryView,
) -> Seq<data_repository::ModelView> {
    if has_key::<data_repository::Model>(rows, repository.name) {
        let i = key_index::<data_repository::Model>(rows, repository.name);
        rows.update(
            i,
            data_repository::ModelView {
                extractor_bindings: keyed_bindings(repository.extractor_bindings),
                metadata: repository.metadata,
                ..rows[i]
            },
        )
    } else {
        rows.push(repository_row(repository))
    }
}

/// The events that announce the bindings of a repository: one for each
/// binding of the list, in its order, the one at place `i` with the event
/// identifier at place `i`.
pub open spec fn announcements(
    repository: Seq<char>,
    bindings: Seq<ExtractorBindingView>,
    event_ids: Seq<Seq<char>>,
) -> Seq<extraction_event::ModelView> {
    Seq::new(
        bindings.len(),
        |i: int|
            outbox_row(
                event_ids[i],
                repository,
                ExtractionEventPayloadView::ExtractorBindingAdded {
                    repository,
                    id: bindings[i].id,
                },
            ),
    )
}

/// The store after a repository was stored and its bindings were announced;
/// nothing where an event's identifier is taken.
pub open spec fn repository_stored(
    store: StoreState,
    repository: DataRepositoryView,
    event_ids: Seq<Seq<char>>,
) -> Option<StoreState> {
    match all_appended::<extraction_event::Model>(
        store.extraction_events,
        announcements(repository.name, repository.extractor_bindings, event_ids),
    ) {
        Some(outbox) => Some(
            StoreState {
                repositories: repository_upserted(store.repositories, repository),
                extraction_events: outbox,
                ..store
            },
        ),
        None => None,
    }
}

/// The row that describes a new index for embeddings.
pub open spec fn index_row(
    repository: Seq<char>,
    extractor: Seq<char>,
    index: Seq<char>,
    params: CreateIndexParamsView,
) -> index::ModelView {
    index::ModelView {
        name: index,
        vector_index_name: Some(params.vectordb_index_name),
        extractor_name: extractor,
        index_type: "embedding"@,
        repository_id: repository,
    }
}

// ---------------------------------------------------------------------
// Lookups and the smaller tables
// ---------------------------------------------------------------------

/// The row of an index.
pub open spec fn index_found(rows: Seq<index::ModelView>, index: Seq<char>, repository: Seq<char>) -> Option<
    index::ModelView,
> {
    if has_key::<index::Model>(rows, index) && rows[key_index::<index::Model>(
        rows,
        index,
    )].repository_id == repository {
        Some(rows[key_index::<index::Model>(rows, index)])
    } else {
        None
    }
}

/// The row of a content item of a repository.
pub open spec fn content_found(
    rows: Seq<content::ModelView>,
    content_id: Seq<char>,
    repository: Seq<char>,
) -> Option<content::ModelView> {
    if has_key::<content::Model>(rows, content_id) && rows[key_index::<content::Model>(
        rows,
        content_id,
    )].repository_id == repository {
        Some(rows[key_index::<content::Model>(rows, content_id)])
    } else {
        None
    }
}

/// The row under which a logged event of a repository is stored.
pub open spec fn event_row(repository: Seq<char>) -> spec_fn(EventView) -> events::ModelView {
    |event: EventView|
        events::ModelView {
            id: event.id,
            repository_id: repository,
            message: event.message,
            unix_time_stamp: event.unix_timestamp as i64,
            metadata: event.metadata,
        }
}

/// The test that a logged event belongs to a repository.
pub open spec fn logged_for(repository: Seq<char>) -> spec_fn(events::ModelView) -> bool {
    |row: events::ModelView| row.repository_id == repository
}

/// The logged event that a row stands for.
pub open spec fn as_event() -> spec_fn(events::ModelView) -> EventView {
    |row: events::ModelView|
        EventView {
            id: row.id,
            message: row.message,
            unix_timestamp: row.unix_time_stamp as u64,
            metadata: row.metadata,
        }
}

/// The row under which a chunk is stored in an index.
pub open spec fn chunk_row(index: Seq<char>) -> spec_fn(ChunkView) -> index_chunks::ModelView {
    |chunk: ChunkView|
        index_chunks::ModelView {
            chunk_id: chunk.chunk_id,
            content_id: chunk.content_id,
            text: chunk.text,
            index_name: index,
        }
}

/// The repository that a row stands for.
pub open spec fn as_repository() -> spec_fn(data_repository::ModelView) -> DataRepositoryView {
    |row: data_repository::ModelView| repository_of_row(row)
}

/// The extractor that a row stands for.
pub open spec fn as_extractor() -> spec_fn(extractors::ModelView) -> ExtractorConfigView {
    |row: extractors::ModelView| extractor_of_row(row)
}

/// The row under which a new extractor is recorded.
pub open spec fn extractor_row(config: ExtractorConfigView) -> extractors::ModelView {
    extractors::ModelView {
        id: config.name,
        description: config.description,
        extractor_type: config.extractor_type,
        input_params: config.input_params,
    }
}

/// The extractors after one was recorded: a new row, or the row of that
/// name with its description and parameters replaced and its type kept.
pub open spec fn extractor_recorded(
    rows: Seq<extractors::ModelView>,
    config: ExtractorConfigView,
) -> Seq<extractors::ModelView> {
    if has_key::<extractors::Model>(rows, config.name) {
        let i = key_index::<extractors::Model>(rows, config.name);
        rows.update(
            i,
            extractors::ModelView {
                description: config.description,
                input_params: config.input_params,
                ..rows[i]
            },
        )
    } else {
        rows.push(extractor_row(config))
    }
}

/// The extractors after each one of a list was recorded, in the order of
/// the list.
pub open spec fn extractors_recorded(
    rows: Seq<extractors::ModelView>,
    configs: Seq<ExtractorConfigView>,
) -> Seq<extractors::ModelView>
    decreases configs.len(),
{
    if configs.len() == 0 {
        rows
    } else {
        extractor_recorded(extractors_recorded(rows, configs.drop_last()), configs.last())
    }
}

/// The row under which new attributes are stored for an index of a
/// repository.
pub open spec fn attributes_row(
    repository: Seq<char>,
    index: Seq<char>,
    found: ExtractedAttributesView,
) -> attributes_index::ModelView {
    attributes_index::ModelView {
        id: found.id,
        repository_id: repository,
        index_name: index,
        extractor_id: found.extractor_name,
        data: found.attributes,
        content_id: found.content_id,
        created_at: 0,
    }
}

/// The stored attributes after those that an extractor found in a content
/// item were added: a new row, or the row with that identifier with its
/// data replaced.
pub open spec fn attributes_added(
    rows: Seq<attributes_index::ModelView>,
    repository: Seq<char>,
    index: Seq<char>,
    found: ExtractedAttributesView,
) -> Seq<attributes_index::ModelView> {
    if has_key::<attributes_index::Model>(rows, found.id) {
        let i = key_index::<attributes_index::Model>(rows, found.id);
        rows.update(
            i,
            attributes_index::ModelView { data: found.attributes, created_at: 0, ..rows[i] },
        )
    } else {
        rows.push(attributes_row(repository, index, found))
    }
}

/// The test that stored attributes belong to an index of a repository and,
/// where a content item is named, to that item.
pub open spec fn attributes_of(
    repository: Seq<char>,
    index: Seq<char>,
    content_id: Option<Seq<char>>,
) -> spec_fn(attributes_index::ModelView) -> bool {
    |row: attributes_index::ModelView|
        row.repository_id == repository && row.index_name == index && (content_id is Some
            ==> row.content_id == content_id->0)
}

/// The attributes that a row stands for.
pub open spec fn as_attributes() -> spec_fn(attributes_index::ModelView) -> ExtractedAttributesView {
    |row: attributes_index::ModelView| attributes_of_row(row)
}

/// The test that a binding has an identifier.
pub open spec fn bound_as(id: Seq<char>) -> spec_fn(ExtractorBindingView) -> bool {
    |binding: ExtractorBindingView| binding.id == id
}

/// The test that a repository declares a binding with an identifier.
pub open spec fn declares(id: Seq<char>) -> spec_fn(data_repository::ModelView) -> bool {
    |row: data_repository::ModelView| row.extractor_bindings.filter(bound_as(id)).len() > 0
}

/// The binding with an identifier: the first one with it of the first
/// repository that declares one.
pub open spec fn binding_found(rows: Seq<data_repository::ModelView>, id: Seq<char>) -> Option<
    ExtractorBindingView,
> {
    if rows.filter(declares(id)).len() > 0 {
        Some(rows.filter(declares(id))[0].extractor_bindings.filter(bound_as(id))[0])
    } else {
        None
    }
}

} // verus!
