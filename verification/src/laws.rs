//! What holds of the store whatever it holds and whatever is asked of it.

use crate::completion::is_applied;
use crate::entity::attributes_index;
use crate::entity::content;
use crate::entity::data_repository;
use crate::entity::events;
use crate::entity::extraction_event;
use crate::entity::extractors;
use crate::entity::index;
use crate::entity::index_chunks;
use crate::entity::work;
use crate::identity::{
    digest, fits_hex, hex_digit, hex_digits, hex_fixed, id_of, lemma_hex_width,
};
use crate::operation::Operation;
use crate::state::{
    all_assigned, announcements, attributes_row, chunk_row, content_marked, content_row,
    event_marked, event_of, event_row, extractor_row, extractors_recorded, index_row, ingest_plan,
    ingested, is_handed_off, is_marked, keyed_bindings, outbox_agrees, outbox_row, pending_for,
    repository_row, unapplied, unassigned, waiting, waiting_events, work_assigned, work_state_set,
    StoreState,
};
use crate::table::{
    all_appended, distinct_keys, has_key, inserted_if_new, key_index, lemma_appended_distinct,
    lemma_appended_is_concat, lemma_each_inserted, lemma_has_key, lemma_inserted_distinct,
    lemma_key_index_unique, lemma_update_distinct,
};
use crate::types::{
    ExtractionEventPayloadView, ExtractionEventView, ExtractorBindingView, ExtractorConfigView,
    TextView,
};
use crate::views::{lemma_filtered_row, lemma_map_push};
use crate::work::{enqueued_row, WorkState, WorkView};
use vstd::prelude::*;

verus! {

// ---------------------------------------------------------------------
// Identifiers
// ---------------------------------------------------------------------

/// An identifier depends on the tuple of strings alone: equal tuples have
/// equal identifiers.
pub proof fn law_identity_is_deterministic(first: Seq<Seq<char>>, second: Seq<Seq<char>>)
    requires
        first == second,
    ensures
        id_of(first) == id_of(second),
{
}

/// A number written in hexadecimal digits is written in hexadecimal digits
/// alone.
pub proof fn law_hex_is_made_of_digits(value: nat, width: nat)
    ensures
        forall|i: int|
            0 <= i < width ==> hex_digits().contains(#[trigger] hex_fixed(value, width)[i]),
    decreases width,
{
    if width > 0 {
        law_hex_is_made_of_digits(value / 16, (width - 1) as nat);
        lemma_hex_width(value / 16, (width - 1) as nat);
        let digit = hex_digit(value % 16);
        assert(hex_digits()[(value % 16) as int] == digit);
        assert forall|i: int| 0 <= i < width implies hex_digits().contains(
            #[trigger] hex_fixed(value, width)[i],
        ) by {
            if i < width - 1 {
                assert(hex_fixed(value, width)[i] == hex_fixed(value / 16, (width - 1) as nat)[i]);
            }
        }
    }
}

/// Every identifier has sixteen characters, each of them a hexadecimal
/// digit.
pub proof fn law_identity_has_fixed_width(parts: Seq<Seq<char>>)
    ensures
        id_of(parts).len() == 16,
        forall|i: int| 0 <= i < 16 ==> hex_digits().contains(#[trigger] id_of(parts)[i]),
{
    lemma_hex_width(digest(parts) as nat, 16);
    law_hex_is_made_of_digits(digest(parts) as nat, 16);
}

/// Two numbers that fit in `width` hexadecimal digits and are written
/// alike are the same number.
pub proof fn law_hex_is_injective(first: nat, second: nat, width: nat)
    requires
        fits_hex(first, width),
        fits_hex(second, width),
        hex_fixed(first, width) == hex_fixed(second, width),
    ensures
        first == second,
    decreases width,
{
    if width > 0 {
        let a = hex_fixed(first / 16, (width - 1) as nat);
        let b = hex_fixed(second / 16, (width - 1) as nat);
        let x = hex_digit(first % 16);
        let y = hex_digit(second % 16);
        assert(a.push(x).drop_last() =~= a);
        assert(b.push(y).drop_last() =~= b);
        assert(a.push(x).last() == x);
        assert(b.push(y).last() == y);
        assert(a == b);
        assert(x == y);
        law_hex_is_injective(first / 16, second / 16, (width - 1) as nat);
        assert(first % 16 == second % 16);
    }
}

/// Every 64-bit number fits in sixteen hexadecimal digits.
pub proof fn law_digest_fits(value: u64)
    ensures
        fits_hex(value as nat, 16),
{
    reveal_with_fuel(fits_hex, 17);
    let v = value as nat;
    let v4 = v / 16 / 16 / 16 / 16;
    let v8 = v4 / 16 / 16 / 16 / 16;
    let v12 = v8 / 16 / 16 / 16 / 16;
    let v16 = v12 / 16 / 16 / 16 / 16;
    assert(v4 <= 0xffff_ffff_ffff);
    assert(v8 <= 0xffff_ffff);
    assert(v12 <= 0xffff);
    assert(v16 == 0);
}

/// Tuples with different digests have different identifiers: an identifier
/// is taken twice only where the digest is.
pub proof fn law_identity_differs_with_digest(first: Seq<Seq<char>>, second: Seq<Seq<char>>)
    requires
        digest(first) != digest(second),
    ensures
        id_of(first) != id_of(second),
{
    law_digest_fits(digest(first));
    law_digest_fits(digest(second));
    if id_of(first) == id_of(second) {
        law_hex_is_injective(digest(first) as nat, digest(second) as nat, 16);
    }
}

// ---------------------------------------------------------------------
// Ingestion
// ---------------------------------------------------------------------

/// Storing texts keeps what was stored, stores each of the texts, and
/// leaves no identifier twice.
pub proof fn law_ingestion_stores_each_text_once(
    content_rows: Seq<content::ModelView>,
    repository: Seq<char>,
    texts: Seq<TextView>,
    event_ids: Seq<Seq<char>>,
)
    requires
        distinct_keys::<content::Model>(content_rows),
    ensures
        distinct_keys::<content::Model>(ingest_plan(content_rows, repository, texts, event_ids).0),
        forall|key: Seq<char>|
            has_key::<content::Model>(content_rows, key) ==> has_key::<content::Model>(
                ingest_plan(content_rows, repository, texts, event_ids).0,
                key,
            ),
        forall|i: int|
            0 <= i < texts.len() ==> has_key::<content::Model>(
                ingest_plan(content_rows, repository, texts, event_ids).0,
                (#[trigger] texts[i]).id,
            ),
    decreases texts.len(),
{
    if texts.len() > 0 {
        let earlier = texts.drop_last();
        law_ingestion_stores_each_text_once(content_rows, repository, earlier, event_ids);
        let before = ingest_plan(content_rows, repository, earlier, event_ids).0;
        let after = ingest_plan(content_rows, repository, texts, event_ids).0;
        let row = content_row(repository, texts.last());
        assert(after == inserted_if_new::<content::Model>(before, row));
        lemma_inserted_distinct::<content::Model>(before, row);
        assert forall|key: Seq<char>| has_key::<content::Model>(before, key) implies has_key::<
            content::Model,
        >(after, key) by {
            let j = key_index::<content::Model>(before, key);
            assert(after[j].id == key);
        }
        assert(has_key::<content::Model>(after, texts.last().id)) by {
            if !has_key::<content::Model>(before, texts.last().id) {
                assert(after[before.len() as int].id == texts.last().id);
            }
        }
        assert forall|i: int| 0 <= i < texts.len() implies has_key::<content::Model>(
            after,
            (#[trigger] texts[i]).id,
        ) by {
            if i < texts.len() - 1 {
                assert(earlier[i] == texts[i]);
            }
        }
    }
}

/// Storing texts that are all stored already stores nothing and announces
/// nothing.
pub proof fn law_stored_texts_are_passed_over(
    content_rows: Seq<content::ModelView>,
    repository: Seq<char>,
    texts: Seq<TextView>,
    event_ids: Seq<Seq<char>>,
)
    requires
        forall|i: int|
            0 <= i < texts.len() ==> has_key::<content::Model>(content_rows, (#[trigger] texts[i]).id),
    ensures
        ingest_plan(content_rows, repository, texts, event_ids) == (
            content_rows,
            Seq::<extraction_event::ModelView>::empty(),
        ),
    decreases texts.len(),
{
    if texts.len() > 0 {
        let earlier = texts.drop_last();
        assert forall|i: int| 0 <= i < earlier.len() implies has_key::<content::Model>(
            content_rows,
            (#[trigger] earlier[i]).id,
        ) by {
            assert(earlier[i] == texts[i]);
        }
        law_stored_texts_are_passed_over(content_rows, repository, earlier, event_ids);
        assert(has_key::<content::Model>(content_rows, texts[texts.len() - 1].id));
    }
}

/// Ingestion is idempotent: once texts were stored, storing the same texts
/// again, under whatever event identifiers, leaves the store as it is. No
/// content row is added, and no event.
pub proof fn law_ingestion_is_idempotent(
    store: StoreState,
    repository: Seq<char>,
    texts: Seq<TextView>,
    first_ids: Seq<Seq<char>>,
    second_ids: Seq<Seq<char>>,
)
    requires
        store.wf(),
        ingested(store, repository, texts, first_ids) is Some,
    ensures
        ingested(ingested(store, repository, texts, first_ids)->0, repository, texts, second_ids)
            == ingested(store, repository, texts, first_ids),
{
    let once = ingested(store, repository, texts, first_ids)->0;
    law_ingestion_stores_each_text_once(store.content, repository, texts, first_ids);
    law_stored_texts_are_passed_over(once.content, repository, texts, second_ids);
    assert(all_appended::<extraction_event::Model>(
        once.extraction_events,
        Seq::<extraction_event::ModelView>::empty(),
    ) == Some(once.extraction_events));
}

// ---------------------------------------------------------------------
// The outbox
// ---------------------------------------------------------------------

/// An appended event waits: after an event was appended under an
/// identifier that was free, the waiting events are those of before and,
/// last, the new one.
pub proof fn law_appended_event_waits(
    rows: Seq<extraction_event::ModelView>,
    id: Seq<char>,
    repository: Seq<char>,
    payload: ExtractionEventPayloadView,
)
    requires
        !has_key::<extraction_event::Model>(rows, id),
    ensures
        all_appended::<extraction_event::Model>(rows, seq![outbox_row(id, repository, payload)])
            == Some(rows.push(outbox_row(id, repository, payload))),
        waiting_events(rows.push(outbox_row(id, repository, payload))) == waiting_events(
            rows,
        ).push(ExtractionEventView { id, repository_id: repository, payload }),
{
    let row = outbox_row(id, repository, payload);
    assert(seq![row].drop_last() =~= Seq::<extraction_event::ModelView>::empty());
    assert(seq![row].last() == row);
    assert(all_appended::<extraction_event::Model>(rows, seq![row].drop_last()) == Some(rows));
    rows.lemma_filter_push(row, waiting());
    lemma_map_push(rows.filter(waiting()), row, event_of());
}

/// An event that the outbox holds is handed off once it was marked.
pub proof fn law_marked_event_is_handed_off(
    rows: Seq<extraction_event::ModelView>,
    id: Seq<char>,
    at: i64,
)
    requires
        distinct_keys::<extraction_event::Model>(rows),
        has_key::<extraction_event::Model>(rows, id),
    ensures
        is_handed_off(event_marked(rows, id, at), id),
        distinct_keys::<extraction_event::Model>(event_marked(rows, id, at)),
        outbox_agrees(rows) ==> outbox_agrees(event_marked(rows, id, at)),
{
    let i = key_index::<extraction_event::Model>(rows, id);
    let after = event_marked(rows, id, at);
    if rows[i].processed_at is None {
        let row = extraction_event::ModelView { processed_at: Some(at), ..rows[i] };
        lemma_update_distinct::<extraction_event::Model>(rows, i, row);
        lemma_key_index_unique::<extraction_event::Model>(after, id, i);
    }
}

/// An event that was handed off is not among the waiting events.
pub proof fn law_handed_off_event_does_not_wait(
    rows: Seq<extraction_event::ModelView>,
    id: Seq<char>,
)
    requires
        distinct_keys::<extraction_event::Model>(rows),
        outbox_agrees(rows),
        is_handed_off(rows, id),
    ensures
        forall|k: int|
            0 <= k < waiting_events(rows).len() ==> (#[trigger] waiting_events(rows)[k]).id != id,
{
    let found = rows.filter(waiting());
    assert forall|k: int| 0 <= k < waiting_events(rows).len() implies (#[trigger] waiting_events(
        rows,
    )[k]).id != id by {
        lemma_filtered_row(rows, waiting(), k);
        let j = choose|j: int| 0 <= j < rows.len() && rows[j] == found[k];
        assert(waiting_events(rows)[k] == rows[j].payload);
        if rows[j].id == id {
            lemma_key_index_unique::<extraction_event::Model>(rows, id, j);
        }
    }
}

/// To mark an event twice is to mark it once: the second mark changes
/// nothing, whatever its time, and it fails no more than the first.
pub proof fn law_marking_an_event_is_idempotent(
    rows: Seq<extraction_event::ModelView>,
    id: Seq<char>,
    first: i64,
    second: i64,
)
    requires
        distinct_keys::<extraction_event::Model>(rows),
    ensures
        event_marked(event_marked(rows, id, first), id, second) == event_marked(rows, id, first),
        has_key::<extraction_event::Model>(event_marked(rows, id, first), id) == has_key::<
            extraction_event::Model,
        >(rows, id),
{
    if has_key::<extraction_event::Model>(rows, id) {
        law_marked_event_is_handed_off(rows, id, first);
    }
}

/// An event that was handed off stays handed off when another event is
/// marked.
pub proof fn law_handed_off_event_stays_so_after_a_mark(
    rows: Seq<extraction_event::ModelView>,
    id: Seq<char>,
    other: Seq<char>,
    at: i64,
)
    requires
        distinct_keys::<extraction_event::Model>(rows),
        is_handed_off(rows, id),
    ensures
        is_handed_off(event_marked(rows, other, at), id),
{
    let i = key_index::<extraction_event::Model>(rows, id);
    let after = event_marked(rows, other, at);
    if has_key::<extraction_event::Model>(rows, other) {
        let j = key_index::<extraction_event::Model>(rows, other);
        if rows[j].processed_at is None {
            let row = extraction_event::ModelView { processed_at: Some(at), ..rows[j] };
            lemma_update_distinct::<extraction_event::Model>(rows, j, row);
            assert(after[i].id == id);
            lemma_key_index_unique::<extraction_event::Model>(after, id, i);
        }
    }
}

/// An event that was handed off stays handed off when events are appended.
pub proof fn law_handed_off_event_stays_so_after_an_append(
    rows: Seq<extraction_event::ModelView>,
    id: Seq<char>,
    new_rows: Seq<extraction_event::ModelView>,
)
    requires
        distinct_keys::<extraction_event::Model>(rows),
        is_handed_off(rows, id),
        all_appended::<extraction_event::Model>(rows, new_rows) is Some,
    ensures
        is_handed_off(all_appended::<extraction_event::Model>(rows, new_rows)->0, id),
    decreases new_rows.len(),
{
    if new_rows.len() > 0 {
        law_handed_off_event_stays_so_after_an_append(rows, id, new_rows.drop_last());
        let so_far = all_appended::<extraction_event::Model>(rows, new_rows.drop_last())->0;
        let after = so_far.push(new_rows.last());
        let i = key_index::<extraction_event::Model>(so_far, id);
        assert(after[i].id == id);
        assert(has_key::<extraction_event::Model>(after, id));
        let j = key_index::<extraction_event::Model>(after, id);
        if j == so_far.len() {
            assert(has_key::<extraction_event::Model>(so_far, new_rows.last().id));
        } else {
            assert(so_far[j].id == id);
            lemma_appended_is_concat::<extraction_event::Model>(rows, new_rows.drop_last());
            lemma_appended_distinct::<extraction_event::Model>(rows, new_rows.drop_last());
            lemma_key_index_unique::<extraction_event::Model>(so_far, id, j);
        }
    }
}

// ---------------------------------------------------------------------
// Completion
// ---------------------------------------------------------------------

/// A content item that the store holds is marked for a binding once the
/// binding's extractor was marked as applied to it.
pub proof fn law_marked_content_is_marked(
    rows: Seq<content::ModelView>,
    content_id: Seq<char>,
    binding_id: Seq<char>,
)
    requires
        distinct_keys::<content::Model>(rows),
        has_key::<content::Model>(rows, content_id),
    ensures
        is_marked(content_marked(rows, content_id, binding_id), content_id, binding_id),
        distinct_keys::<content::Model>(content_marked(rows, content_id, binding_id)),
{
    let i = key_index::<content::Model>(rows, content_id);
    let row = content::ModelView {
        extractor_bindings_state: rows[i].extractor_bindings_state.insert(binding_id, 1),
        ..rows[i]
    };
    lemma_update_distinct::<content::Model>(rows, i, row);
    lemma_key_index_unique::<content::Model>(rows.update(i, row), content_id, i);
}

/// A content item that is marked for a binding is not among the content
/// that the binding's extractor still has to be applied to, whatever the
/// repository, the filters and the item that is asked for.
pub proof fn law_marked_content_is_not_returned(
    rows: Seq<content::ModelView>,
    content_id: Seq<char>,
    repository: Seq<char>,
    binding: ExtractorBindingView,
    asked: Option<Seq<char>>,
)
    requires
        distinct_keys::<content::Model>(rows),
        is_marked(rows, content_id, binding.id),
    ensures
        forall|k: int|
            0 <= k < rows.filter(unapplied(repository, binding, asked)).len() ==> (
            #[trigger] rows.filter(unapplied(repository, binding, asked))[k]).id != content_id,
{
    let test = unapplied(repository, binding, asked);
    assert forall|k: int| 0 <= k < rows.filter(test).len() implies (#[trigger] rows.filter(
        test,
    )[k]).id != content_id by {
        lemma_filtered_row(rows, test, k);
        let j = choose|j: int| 0 <= j < rows.len() && rows[j] == rows.filter(test)[k];
        if rows[j].id == content_id {
            lemma_key_index_unique::<content::Model>(rows, content_id, j);
        }
    }
}

/// Completion is monotonic: a content item that is marked for a binding
/// stays marked for it when any binding's extractor is marked as applied to
/// any item.
pub proof fn law_marked_content_stays_marked(
    rows: Seq<content::ModelView>,
    content_id: Seq<char>,
    binding_id: Seq<char>,
    other_content: Seq<char>,
    other_binding: Seq<char>,
)
    requires
        distinct_keys::<content::Model>(rows),
        is_marked(rows, content_id, binding_id),
    ensures
        is_marked(content_marked(rows, other_content, other_binding), content_id, binding_id),
{
    let i = key_index::<content::Model>(rows, content_id);
    let after = content_marked(rows, other_content, other_binding);
    if has_key::<content::Model>(rows, other_content) {
        let j = key_index::<content::Model>(rows, other_content);
        let row = content::ModelView {
            extractor_bindings_state: rows[j].extractor_bindings_state.insert(other_binding, 1),
            ..rows[j]
        };
        lemma_update_distinct::<content::Model>(rows, j, row);
        assert(after[i].id == content_id);
        lemma_key_index_unique::<content::Model>(after, content_id, i);
    }
}

/// A content item that is marked for a binding stays marked for it when
/// texts are stored.
pub proof fn law_marked_content_stays_marked_after_ingestion(
    rows: Seq<content::ModelView>,
    content_id: Seq<char>,
    binding_id: Seq<char>,
    repository: Seq<char>,
    texts: Seq<TextView>,
    event_ids: Seq<Seq<char>>,
)
    requires
        distinct_keys::<content::Model>(rows),
        is_marked(rows, content_id, binding_id),
    ensures
        is_marked(ingest_plan(rows, repository, texts, event_ids).0, content_id, binding_id),
    decreases texts.len(),
{
    if texts.len() > 0 {
        let earlier = texts.drop_last();
        law_marked_content_stays_marked_after_ingestion(
            rows,
            content_id,
            binding_id,
            repository,
            earlier,
            event_ids,
        );
        law_ingestion_stores_each_text_once(rows, repository, earlier, event_ids);
        law_ingestion_stores_each_text_once(rows, repository, texts, event_ids);
        let before = ingest_plan(rows, repository, earlier, event_ids).0;
        let after = ingest_plan(rows, repository, texts, event_ids).0;
        let i = key_index::<content::Model>(before, content_id);
        assert(after[i] == before[i]);
        lemma_key_index_unique::<content::Model>(after, content_id, i);
    }
}

// ---------------------------------------------------------------------
// The work queue
// ---------------------------------------------------------------------

/// To add the same work twice is to add it once, and no identifier is held
/// twice.
pub proof fn law_enqueue_is_idempotent(rows: Seq<work::ModelView>, row: work::ModelView)
    requires
        distinct_keys::<work::Model>(rows),
    ensures
        inserted_if_new::<work::Model>(inserted_if_new::<work::Model>(rows, row), row)
            == inserted_if_new::<work::Model>(rows, row),
        distinct_keys::<work::Model>(inserted_if_new::<work::Model>(rows, row)),
        has_key::<work::Model>(inserted_if_new::<work::Model>(rows, row), row.id),
{
    lemma_inserted_distinct::<work::Model>(rows, row);
    if !has_key::<work::Model>(rows, row.id) {
        assert(rows.push(row)[rows.len() as int].id == row.id);
    }
}

/// New work is unassigned: once work was added under an identifier that
/// was free, it is the last of the unassigned work.
pub proof fn law_enqueued_work_is_unassigned(rows: Seq<work::ModelView>, work: WorkView)
    requires
        !has_key::<work::Model>(rows, work.id),
    ensures
        inserted_if_new::<work::Model>(rows, enqueued_row(work)).filter(unassigned())
            == rows.filter(unassigned()).push(enqueued_row(work)),
{
    rows.lemma_filter_push(enqueued_row(work), unassigned());
}

/// Work that is assigned to a worker is not among the unassigned work, and
/// the unassigned work is pending.
pub proof fn law_unassigned_work_has_no_worker(rows: Seq<work::ModelView>)
    ensures
        forall|k: int|
            0 <= k < rows.filter(unassigned()).len() ==> (#[trigger] rows.filter(
                unassigned(),
            )[k]).worker_id is None && rows.filter(unassigned())[k].state
                == WorkState::Pending.name(),
{
    assert forall|k: int| 0 <= k < rows.filter(unassigned()).len() implies (#[trigger] rows.filter(
        unassigned(),
    )[k]).worker_id is None && rows.filter(unassigned())[k].state
        == WorkState::Pending.name() by {
        lemma_filtered_row(rows, unassigned(), k);
    }
}

/// Whether the queue holds the work with the identifier, in the state.
pub open spec fn is_in_state(rows: Seq<work::ModelView>, work_id: Seq<char>, state: WorkState) -> bool {
    has_key::<work::Model>(rows, work_id) && rows[key_index::<work::Model>(rows, work_id)].state
        == state.name()
}

/// Work that the queue holds is in the state that was set.
pub proof fn law_set_state_is_the_state(
    rows: Seq<work::ModelView>,
    work_id: Seq<char>,
    state: WorkState,
)
    requires
        distinct_keys::<work::Model>(rows),
        has_key::<work::Model>(rows, work_id),
    ensures
        is_in_state(work_state_set(rows, work_id, state), work_id, state),
        distinct_keys::<work::Model>(work_state_set(rows, work_id, state)),
{
    let i = key_index::<work::Model>(rows, work_id);
    let row = work::ModelView { state: state.name(), ..rows[i] };
    lemma_update_distinct::<work::Model>(rows, i, row);
    lemma_key_index_unique::<work::Model>(rows.update(i, row), work_id, i);
}

/// Work in a state other than pending, such as completed work, is neither
/// among the unassigned work nor among the work of any worker.
pub proof fn law_work_that_is_not_pending_is_not_returned(
    rows: Seq<work::ModelView>,
    work_id: Seq<char>,
    state: WorkState,
    worker_id: Seq<char>,
)
    requires
        distinct_keys::<work::Model>(rows),
        is_in_state(rows, work_id, state),
        state != WorkState::Pending,
    ensures
        forall|k: int|
            0 <= k < rows.filter(unassigned()).len() ==> (#[trigger] rows.filter(
                unassigned(),
            )[k]).id != work_id,
        forall|k: int|
            0 <= k < rows.filter(pending_for(worker_id)).len() ==> (#[trigger] rows.filter(
                pending_for(worker_id),
            )[k]).id != work_id,
{
    state.lemma_named_name();
    WorkState::Pending.lemma_named_name();
    assert(state.name() != WorkState::Pending.name());
    assert forall|k: int| 0 <= k < rows.filter(unassigned()).len() implies (#[trigger] rows.filter(
        unassigned(),
    )[k]).id != work_id by {
        lemma_filtered_row(rows, unassigned(), k);
        let j = choose|j: int| 0 <= j < rows.len() && rows[j] == rows.filter(unassigned())[k];
        if rows[j].id == work_id {
            lemma_key_index_unique::<work::Model>(rows, work_id, j);
        }
    }
    let test = pending_for(worker_id);
    assert forall|k: int| 0 <= k < rows.filter(test).len() implies (#[trigger] rows.filter(
        test,
    )[k]).id != work_id by {
        lemma_filtered_row(rows, test, k);
        let j = choose|j: int| 0 <= j < rows.len() && rows[j] == rows.filter(test)[k];
        if rows[j].id == work_id {
            lemma_key_index_unique::<work::Model>(rows, work_id, j);
        }
    }
}

/// To assign work changes the state of no work.
pub proof fn law_assignment_keeps_the_state(
    rows: Seq<work::ModelView>,
    work_id: Seq<char>,
    state: WorkState,
    assigned: Seq<char>,
    worker_id: Seq<char>,
)
    requires
        distinct_keys::<work::Model>(rows),
        is_in_state(rows, work_id, state),
    ensures
        is_in_state(work_assigned(rows, assigned, worker_id), work_id, state),
        distinct_keys::<work::Model>(work_assigned(rows, assigned, worker_id)),
{
    let i = key_index::<work::Model>(rows, work_id);
    let after = work_assigned(rows, assigned, worker_id);
    if has_key::<work::Model>(rows, assigned) {
        let j = key_index::<work::Model>(rows, assigned);
        let row = work::ModelView { worker_id: Some(worker_id), ..rows[j] };
        lemma_update_distinct::<work::Model>(rows, j, row);
        assert(after[i].id == work_id);
        lemma_key_index_unique::<work::Model>(after, work_id, i);
    }
}

/// To assign work, however often, changes the state of no work: completed
/// work stays completed.
pub proof fn law_assignments_keep_the_state(
    rows: Seq<work::ModelView>,
    work_id: Seq<char>,
    state: WorkState,
    allocation: Seq<(Seq<char>, Seq<char>)>,
)
    requires
        distinct_keys::<work::Model>(rows),
        is_in_state(rows, work_id, state),
    ensures
        is_in_state(all_assigned(rows, allocation), work_id, state),
        distinct_keys::<work::Model>(all_assigned(rows, allocation)),
    decreases allocation.len(),
{
    if allocation.len() > 0 {
        law_assignments_keep_the_state(rows, work_id, state, allocation.drop_last());
        law_assignment_keeps_the_state(
            all_assigned(rows, allocation.drop_last()),
            work_id,
            state,
            allocation.last().0,
            allocation.last().1,
        );
    }
}

// ---------------------------------------------------------------------
// Runs of operations
// ---------------------------------------------------------------------

/// The events that announce stored texts hold the identifier of their row.
pub proof fn lemma_ingestion_events_agree(
    content_rows: Seq<content::ModelView>,
    repository: Seq<char>,
    texts: Seq<TextView>,
    event_ids: Seq<Seq<char>>,
)
    ensures
        outbox_agrees(ingest_plan(content_rows, repository, texts, event_ids).1),
    decreases texts.len(),
{
    if texts.len() > 0 {
        lemma_ingestion_events_agree(content_rows, repository, texts.drop_last(), event_ids);
    }
}

/// Storing texts keeps the content rows that were there, in their places.
pub proof fn lemma_ingestion_keeps_rows(
    content_rows: Seq<content::ModelView>,
    repository: Seq<char>,
    texts: Seq<TextView>,
    event_ids: Seq<Seq<char>>,
)
    ensures
        content_rows.len() <= ingest_plan(content_rows, repository, texts, event_ids).0.len(),
        ingest_plan(content_rows, repository, texts, event_ids).0.take(content_rows.len() as int)
            == content_rows,
    decreases texts.len(),
{
    if texts.len() > 0 {
        lemma_ingestion_keeps_rows(content_rows, repository, texts.drop_last(), event_ids);
        let before = ingest_plan(content_rows, repository, texts.drop_last(), event_ids).0;
        let after = ingest_plan(content_rows, repository, texts, event_ids).0;
        assert(after.take(content_rows.len() as int) =~= before.take(content_rows.len() as int));
    } else {
        assert(content_rows.take(content_rows.len() as int) =~= content_rows);
    }
}

/// Recording extractors leaves no name twice.
pub proof fn lemma_extractors_recorded_distinct(
    rows: Seq<extractors::ModelView>,
    configs: Seq<ExtractorConfigView>,
)
    requires
        distinct_keys::<extractors::Model>(rows),
    ensures
        distinct_keys::<extractors::Model>(extractors_recorded(rows, configs)),
    decreases configs.len(),
{
    if configs.len() > 0 {
        lemma_extractors_recorded_distinct(rows, configs.drop_last());
        let so_far = extractors_recorded(rows, configs.drop_last());
        let config = configs.last();
        if has_key::<extractors::Model>(so_far, config.name) {
            let i = key_index::<extractors::Model>(so_far, config.name);
            lemma_update_distinct::<extractors::Model>(
                so_far,
                i,
                extractors::ModelView {
                    description: config.description,
                    input_params: config.input_params,
                    ..so_far[i]
                },
            );
        } else {
            lemma_inserted_distinct::<extractors::Model>(so_far, extractor_row(config));
        }
    }
}

/// Assigning work leaves no identifier twice.
pub proof fn lemma_assigned_distinct(
    rows: Seq<work::ModelView>,
    allocation: Seq<(Seq<char>, Seq<char>)>,
)
    requires
        distinct_keys::<work::Model>(rows),
    ensures
        distinct_keys::<work::Model>(all_assigned(rows, allocation)),
    decreases allocation.len(),
{
    if allocation.len() > 0 {
        lemma_assigned_distinct(rows, allocation.drop_last());
        let so_far = all_assigned(rows, allocation.drop_last());
        let work_id = allocation.last().0;
        if has_key::<work::Model>(so_far, work_id) {
            let i = key_index::<work::Model>(so_far, work_id);
            lemma_update_distinct::<work::Model>(
                so_far,
                i,
                work::ModelView { worker_id: Some(allocation.last().1), ..so_far[i] },
            );
        }
    }
}

/// Every operation keeps the store well formed.
pub proof fn law_operation_keeps_the_store_well_formed(store: StoreState, operation: Operation)
    requires
        store.wf(),
    ensures
        store.after(operation).wf(),
{
    match operation {
        Operation::RecordExtractors { extractors } => {
            lemma_extractors_recorded_distinct(store.extractors, extractors);
        },
        Operation::UpsertRepository { declared: repository, event_ids } => {
            let new_rows = announcements(
                repository.name,
                repository.extractor_bindings,
                event_ids,
            );
            if all_appended::<extraction_event::Model>(store.extraction_events, new_rows) is Some {
                lemma_appended_distinct::<extraction_event::Model>(
                    store.extraction_events,
                    new_rows,
                );
                lemma_appended_is_concat::<extraction_event::Model>(
                    store.extraction_events,
                    new_rows,
                );
                let rows = store.repositories;
                if has_key::<data_repository::Model>(rows, repository.name) {
                    let i = key_index::<data_repository::Model>(rows, repository.name);
                    lemma_update_distinct::<data_repository::Model>(
                        rows,
                        i,
                        data_repository::ModelView {
                            extractor_bindings: keyed_bindings(repository.extractor_bindings),
                            metadata: repository.metadata,
                            ..rows[i]
                        },
                    );
                } else {
                    lemma_inserted_distinct::<data_repository::Model>(
                        rows,
                        repository_row(repository),
                    );
                }
            }
        },
        Operation::AddContent { repository, texts, event_ids } => {
            let plan = ingest_plan(store.content, repository, texts, event_ids);
            if all_appended::<extraction_event::Model>(store.extraction_events, plan.1) is Some {
                law_ingestion_stores_each_text_once(store.content, repository, texts, event_ids);
                lemma_ingestion_events_agree(store.content, repository, texts, event_ids);
                lemma_appended_distinct::<extraction_event::Model>(store.extraction_events, plan.1);
                lemma_appended_is_concat::<extraction_event::Model>(
                    store.extraction_events,
                    plan.1,
                );
            }
        },
        Operation::MarkContentAsProcessed { content_id, binding_id } => {
            if has_key::<content::Model>(store.content, content_id) {
                law_marked_content_is_marked(store.content, content_id, binding_id);
            }
        },
        Operation::MarkExtractionEventAsProcessed { id, at } => {
            if has_key::<extraction_event::Model>(store.extraction_events, id) {
                law_marked_event_is_handed_off(store.extraction_events, id, at);
            }
        },
        Operation::CreateVectorIndex { repository, extractor, index, params, created } => {
            lemma_inserted_distinct::<index::Model>(
                store.indexes,
                index_row(repository, extractor, index, params),
            );
        },
        Operation::AddEvents { repository, events } => {
            lemma_each_inserted::<events::Model>(
                store.events,
                events.map_values(event_row(repository)),
            );
        },
        Operation::CreateChunks { chunks, index } => {
            lemma_each_inserted::<index_chunks::Model>(
                store.chunks,
                chunks.map_values(chunk_row(index)),
            );
        },
        Operation::AddAttributes { repository, index, found } => {
            let rows = store.attributes;
            if has_key::<attributes_index::Model>(rows, found.id) {
                let i = key_index::<attributes_index::Model>(rows, found.id);
                lemma_update_distinct::<attributes_index::Model>(
                    rows,
                    i,
                    attributes_index::ModelView {
                        data: found.attributes,
                        created_at: 0,
                        ..rows[i]
                    },
                );
            } else {
                lemma_inserted_distinct::<attributes_index::Model>(
                    rows,
                    attributes_row(repository, index, found),
                );
            }
        },
        Operation::InsertWork { work } => {
            lemma_inserted_distinct::<work::Model>(store.work, enqueued_row(work));
        },
        Operation::AssignWork { allocation } => {
            lemma_assigned_distinct(store.work, allocation);
        },
        Operation::UpdateWorkState { work_id, state } => {
            if has_key::<work::Model>(store.work, work_id) {
                law_set_state_is_the_state(store.work, work_id, state);
            }
        },
    }
}

/// Every run of operations keeps the store well formed.
pub proof fn law_run_keeps_the_store_well_formed(store: StoreState, operations: Seq<Operation>)
    requires
        store.wf(),
    ensures
        store.after_all(operations).wf(),
    decreases operations.len(),
{
    if operations.len() > 0 {
        law_run_keeps_the_store_well_formed(store, operations.drop_last());
        law_operation_keeps_the_store_well_formed(
            store.after_all(operations.drop_last()),
            operations.last(),
        );
    }
}

/// Whether an outbox has become another by appends and marks alone: every
/// row is still in its place with its event, and a row that was handed off
/// is handed off as before.
pub open spec fn outbox_kept(
    before: Seq<extraction_event::ModelView>,
    after: Seq<extraction_event::ModelView>,
) -> bool {
    &&& before.len() <= after.len()
    &&& forall|i: int|
        0 <= i < before.len() ==> {
            &&& (#[trigger] after[i]).id == before[i].id
            &&& after[i].payload == before[i].payload
            &&& after[i].allocation_info == before[i].allocation_info
            &&& (before[i].processed_at is Some ==> after[i].processed_at == before[i].processed_at)
        }
}

/// Whether stored content has become other stored content by storing and
/// marking alone: every item is still in its place as it was but for its
/// markers, and an extractor that was marked as applied to it still is.
pub open spec fn content_kept(
    before: Seq<content::ModelView>,
    after: Seq<content::ModelView>,
) -> bool {
    &&& before.len() <= after.len()
    &&& forall|i: int|
        0 <= i < before.len() ==> {
            &&& (#[trigger] after[i]).id == before[i].id
            &&& after[i].repository_id == before[i].repository_id
            &&& after[i].text == before[i].text
            &&& after[i].metadata == before[i].metadata
            &&& after[i].content_type == before[i].content_type
            &&& forall|binding_id: Seq<char>|
                is_applied(before[i].extractor_bindings_state, binding_id) ==> is_applied(
                    after[i].extractor_bindings_state,
                    binding_id,
                )
        }
}

/// The outbox is append-only: an operation removes no row of it, changes
/// the event of none, and takes the mark from none.
pub proof fn law_operation_keeps_the_outbox(store: StoreState, operation: Operation)
    ensures
        outbox_kept(store.extraction_events, store.after(operation).extraction_events),
{
    let rows = store.extraction_events;
    match operation {
        Operation::UpsertRepository { declared: repository, event_ids } => {
            let new_rows = announcements(
                repository.name,
                repository.extractor_bindings,
                event_ids,
            );
            if all_appended::<extraction_event::Model>(rows, new_rows) is Some {
                lemma_appended_is_concat::<extraction_event::Model>(rows, new_rows);
            }
        },
        Operation::AddContent { repository, texts, event_ids } => {
            let plan = ingest_plan(store.content, repository, texts, event_ids);
            if all_appended::<extraction_event::Model>(rows, plan.1) is Some {
                lemma_appended_is_concat::<extraction_event::Model>(rows, plan.1);
            }
        },
        _ => {},
    }
}

/// Content is never removed and completion is monotonic: an operation
/// removes no content item, changes none but for its markers, and takes
/// back no marker.
pub proof fn law_operation_keeps_the_content(store: StoreState, operation: Operation)
    ensures
        content_kept(store.content, store.after(operation).content),
{
    let rows = store.content;
    match operation {
        Operation::AddContent { repository, texts, event_ids } => {
            lemma_ingestion_keeps_rows(rows, repository, texts, event_ids);
            let after = ingest_plan(rows, repository, texts, event_ids).0;
            assert forall|i: int| 0 <= i < rows.len() implies (#[trigger] after[i]) == rows[i] by {
                assert(after.take(rows.len() as int)[i] == after[i]);
            }
        },
        _ => {},
    }
}

/// Over every run of operations the outbox is append-only.
pub proof fn law_run_keeps_the_outbox(store: StoreState, operations: Seq<Operation>)
    ensures
        outbox_kept(store.extraction_events, store.after_all(operations).extraction_events),
    decreases operations.len(),
{
    if operations.len() > 0 {
        law_run_keeps_the_outbox(store, operations.drop_last());
        law_operation_keeps_the_outbox(store.after_all(operations.drop_last()), operations.last());
    }
}

/// Over every run of operations content is never removed and completion is
/// monotonic.
pub proof fn law_run_keeps_the_content(store: StoreState, operations: Seq<Operation>)
    ensures
        content_kept(store.content, store.after_all(operations).content),
    decreases operations.len(),
{
    if operations.len() > 0 {
        law_run_keeps_the_content(store, operations.drop_last());
        law_operation_keeps_the_content(store.after_all(operations.drop_last()), operations.last());
    }
}

/// An event that was handed off is never delivered again: whatever
/// operations follow, it is not among the waiting events.
pub proof fn law_handed_off_event_never_waits_again(
    store: StoreState,
    id: Seq<char>,
    operations: Seq<Operation>,
)
    requires
        store.wf(),
        is_handed_off(store.extraction_events, id),
    ensures
        is_handed_off(store.after_all(operations).extraction_events, id),
        forall|k: int|
            0 <= k < waiting_events(store.after_all(operations).extraction_events).len() ==> (
            #[trigger] waiting_events(store.after_all(operations).extraction_events)[k]).id != id,
{
    let before = store.extraction_events;
    let after = store.after_all(operations).extraction_events;
    law_run_keeps_the_outbox(store, operations);
    law_run_keeps_the_store_well_formed(store, operations);
    let i = key_index::<extraction_event::Model>(before, id);
    assert(after[i].id == id);
    lemma_key_index_unique::<extraction_event::Model>(after, id, i);
    law_handed_off_event_does_not_wait(after, id);
}

/// Content whose extractor was marked as applied for a binding is never
/// returned for that binding again: whatever operations follow, on this
/// item or on others, for this binding or for others, the item stays
/// marked and is not among the content that the binding's extractor still
/// has to be applied to.
pub proof fn law_marked_content_is_never_returned_again(
    store: StoreState,
    content_id: Seq<char>,
    operations: Seq<Operation>,
    repository: Seq<char>,
    binding: ExtractorBindingView,
    asked: Option<Seq<char>>,
)
    requires
        store.wf(),
        is_marked(store.content, content_id, binding.id),
    ensures
        is_marked(store.after_all(operations).content, content_id, binding.id),
        forall|k: int|
            0 <= k < store.after_all(operations).content.filter(
                unapplied(repository, binding, asked),
            ).len() ==> (#[trigger] store.after_all(operations).content.filter(
                unapplied(repository, binding, asked),
            )[k]).id != content_id,
{
    let before = store.content;
    let after = store.after_all(operations).content;
    law_run_keeps_the_content(store, operations);
    law_run_keeps_the_store_well_formed(store, operations);
    let i = key_index::<content::Model>(before, content_id);
    assert(after[i].id == content_id);
    lemma_key_index_unique::<content::Model>(after, content_id, i);
    law_marked_content_is_not_returned(after, content_id, repository, binding, asked);
}

/// Content that is stored stays stored, in one row: whatever operations
/// follow, such as storing the same text again, the store holds the item
/// and holds no identifier twice.
pub proof fn law_stored_content_stays_in_one_row(
    store: StoreState,
    content_id: Seq<char>,
    operations: Seq<Operation>,
)
    requires
        store.wf(),
        has_key::<content::Model>(store.content, content_id),
    ensures
        has_key::<content::Model>(store.after_all(operations).content, content_id),
        distinct_keys::<content::Model>(store.after_all(operations).content),
        key_index::<content::Model>(store.after_all(operations).content, content_id)
            == key_index::<content::Model>(store.content, content_id),
{
    let after = store.after_all(operations).content;
    law_run_keeps_the_content(store, operations);
    law_run_keeps_the_store_well_formed(store, operations);
    let i = key_index::<content::Model>(store.content, content_id);
    assert(after[i].id == content_id);
    lemma_key_index_unique::<content::Model>(after, content_id, i);
}

/// Whether an operation sets the state of the work with the identifier.
pub open spec fn sets_state_of(operation: Operation, work_id: Seq<char>) -> bool {
    match operation {
        Operation::UpdateWorkState { work_id: set, state } => set == work_id,
        _ => false,
    }
}

/// The state of work changes only when it is set: an operation that does
/// not set the state of the work leaves the work in its state.
pub proof fn law_operation_keeps_the_state_of_work(
    store: StoreState,
    work_id: Seq<char>,
    state: WorkState,
    operation: Operation,
)
    requires
        store.wf(),
        is_in_state(store.work, work_id, state),
        !sets_state_of(operation, work_id),
    ensures
        is_in_state(store.after(operation).work, work_id, state),
{
    let rows = store.work;
    let i = key_index::<work::Model>(rows, work_id);
    match operation {
        Operation::InsertWork { work } => {
            let after = inserted_if_new::<work::Model>(rows, enqueued_row(work));
            lemma_inserted_distinct::<work::Model>(rows, enqueued_row(work));
            assert(after[i] == rows[i]);
            lemma_key_index_unique::<work::Model>(after, work_id, i);
        },
        Operation::AssignWork { allocation } => {
            law_assignments_keep_the_state(rows, work_id, state, allocation);
        },
        Operation::UpdateWorkState { work_id: other, state: set } => {
            if has_key::<work::Model>(rows, other) {
                let j = key_index::<work::Model>(rows, other);
                let row = work::ModelView { state: set.name(), ..rows[j] };
                lemma_update_distinct::<work::Model>(rows, j, row);
                assert(rows.update(j, row)[i] == rows[i]);
                lemma_key_index_unique::<work::Model>(rows.update(j, row), work_id, i);
            }
        },
        _ => {},
    }
}

/// Work that has left the pending state, such as completed work, stays out
/// of the unassigned work and out of the work of every worker, whatever
/// operations follow, until its state is set again.
pub proof fn law_completed_work_is_not_returned_again(
    store: StoreState,
    work_id: Seq<char>,
    state: WorkState,
    operations: Seq<Operation>,
    worker_id: Seq<char>,
)
    requires
        store.wf(),
        is_in_state(store.work, work_id, state),
        state != WorkState::Pending,
        forall|i: int|
            0 <= i < operations.len() ==> !sets_state_of(#[trigger] operations[i], work_id),
    ensures
        is_in_state(store.after_all(operations).work, work_id, state),
        forall|k: int|
            0 <= k < store.after_all(operations).work.filter(unassigned()).len() ==> (
            #[trigger] store.after_all(operations).work.filter(unassigned())[k]).id != work_id,
        forall|k: int|
            0 <= k < store.after_all(operations).work.filter(pending_for(worker_id)).len() ==> (
            #[trigger] store.after_all(operations).work.filter(pending_for(worker_id))[k]).id
                != work_id,
    decreases operations.len(),
{
    law_run_keeps_the_store_well_formed(store, operations);
    if operations.len() > 0 {
        let earlier = operations.drop_last();
        assert forall|i: int| 0 <= i < earlier.len() implies !sets_state_of(
            #[trigger] earlier[i],
            work_id,
        ) by {
            assert(earlier[i] == operations[i]);
        }
        law_completed_work_is_not_returned_again(store, work_id, state, earlier, worker_id);
        law_run_keeps_the_store_well_formed(store, earlier);
        assert(!sets_state_of(operations[operations.len() - 1], work_id));
        law_operation_keeps_the_state_of_work(
            store.after_all(earlier),
            work_id,
            state,
            operations.last(),
        );
    }
    law_work_that_is_not_pending_is_not_returned(
        store.after_all(operations).work,
        work_id,
        state,
        worker_id,
    );
}

/// Work that is in the queue stays in it, in one row: whatever operations
/// follow, such as adding the same work again, the queue holds the work and
/// holds no identifier twice.
pub proof fn law_enqueued_work_stays_in_one_row(
    store: StoreState,
    work_id: Seq<char>,
    operations: Seq<Operation>,
)
    requires
        store.wf(),
        has_key::<work::Model>(store.work, work_id),
    ensures
        has_key::<work::Model>(store.after_all(operations).work, work_id),
        distinct_keys::<work::Model>(store.after_all(operations).work),
    decreases operations.len(),
{
    law_run_keeps_the_store_well_formed(store, operations);
    if operations.len() > 0 {
        let earlier = operations.drop_last();
        law_enqueued_work_stays_in_one_row(store, work_id, earlier);
        law_run_keeps_the_store_well_formed(store, earlier);
        let rows = store.after_all(earlier).work;
        let i = key_index::<work::Model>(rows, work_id);
        match operations.last() {
            Operation::InsertWork { work } => {
                let after = inserted_if_new::<work::Model>(rows, enqueued_row(work));
                assert(after[i].id == work_id);
                lemma_has_key::<work::Model>(after, i);
            },
            Operation::AssignWork { allocation } => {
                lemma_assigned_keeps_keys(rows, work_id, allocation);
            },
            Operation::UpdateWorkState { work_id: other, state } => {
                let after = work_state_set(rows, other, state);
                assert(after.len() == rows.len());
                assert(after[i].id == work_id);
                lemma_has_key::<work::Model>(after, i);
            },
            _ => {},
        }
    }
}

/// Assigning work removes no work from the queue.
pub proof fn lemma_assigned_keeps_keys(
    rows: Seq<work::ModelView>,
    work_id: Seq<char>,
    allocation: Seq<(Seq<char>, Seq<char>)>,
)
    requires
        has_key::<work::Model>(rows, work_id),
    ensures
        has_key::<work::Model>(all_assigned(rows, allocation), work_id),
    decreases allocation.len(),
{
    if allocation.len() > 0 {
        lemma_assigned_keeps_keys(rows, work_id, allocation.drop_last());
        let so_far = all_assigned(rows, allocation.drop_last());
        let after = all_assigned(rows, allocation);
        let i = key_index::<work::Model>(so_far, work_id);
        assert(after == work_assigned(so_far, allocation.last().0, allocation.last().1));
        assert(after.len() == so_far.len());
        assert(after[i].id == work_id);
        lemma_has_key::<work::Model>(after, i);
    }
}

} // verus!
