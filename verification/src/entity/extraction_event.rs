//! The rows of the outbox.

use crate::json::{clone_optional_json, JsonValue, JsonView};
use crate::table::Row;
use crate::types::{ExtractionEvent, ExtractionEventView};
use vstd::prelude::*;

verus! {

/// A row of the outbox: an extraction event and whether it was handed off.
#[derive(Debug)]
pub struct Model {
    /// The identifier of the event.
    pub id: String,
    /// The event itself.
    pub payload: ExtractionEvent,
    pub allocation_info: Option<JsonValue>,
    /// When the event was handed off, in seconds since the epoch; nothing while it waits.
    pub processed_at: Option<i64>,
}

/// What a [`Model`] holds.
pub struct ModelView {
    pub id: Seq<char>,
    pub payload: ExtractionEventView,
    pub allocation_info: Option<JsonView>,
    pub processed_at: Option<i64>,
}

impl DeepView for Model {
    type V = ModelView;

    open spec fn deep_view(&self) -> ModelView {
        ModelView {
            id: self.id@,
            payload: self.payload.deep_view(),
            allocation_info: self.allocation_info.deep_view(),
            processed_at: self.processed_at,
        }
    }
}

impl Clone for Model {
    fn clone(&self) -> (res: Self)
        ensures
            res.deep_view() == self.deep_view(),
    {
        Model {
            id: self.id.clone(),
            payload: self.payload.clone(),
            allocation_info: clone_optional_json(&self.allocation_info),
            processed_at: self.processed_at,
        }
    }
}

impl Row for Model {
    open spec fn key_of(row: ModelView) -> Seq<char> {
        row.id
    }

    fn key(&self) -> (key: &str) {
        self.id.as_str()
    }

    fn replica(&self) -> (copy: Self) {
        self.clone()
    }
}

impl Model {
    /// The row marked as handed off at a time, where it waits; nothing
    /// where it was handed off before.
    pub fn marked_at(&self, now: i64) -> (marked: Option<Model>)
        ensures
            marked.deep_view() == (if self.processed_at is None {
                Some(ModelView { processed_at: Some(now), ..self.deep_view() })
            } else {
                None
            }),
    {
        if self.processed_at.is_none() {
            let mut marked = self.clone();
            marked.processed_at = Some(now);
            Some(marked)
        } else {
            None
        }
    }
}

} // verus!
