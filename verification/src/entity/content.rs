//! The rows of stored content.

use crate::completion::ExtractorBindingsState;
use crate::json::{JsonView, Metadata};
use crate::table::Row;
use vstd::prelude::*;

verus! {

/// A stored content item.
#[derive(Debug)]
pub struct Model {
    pub id: String,
    pub repository_id: String,
    pub text: String,
    pub metadata: Metadata,
    /// The name of the kind of content.
    pub content_type: String,
    /// The completion marker of each binding that was applied.
    pub extractor_bindings_state: ExtractorBindingsState,
}

/// What a [`Model`] holds.
pub struct ModelView {
    pub id: Seq<char>,
    pub repository_id: Seq<char>,
    pub text: Seq<char>,
    pub metadata: Map<Seq<char>, JsonView>,
    pub content_type: Seq<char>,
    pub extractor_bindings_state: Map<Seq<char>, u64>,
}

impl DeepView for Model {
    type V = ModelView;

    open spec fn deep_view(&self) -> ModelView {
        ModelView {
            id: self.id@,
            repository_id: self.repository_id@,
            text: self.text@,
            metadata: self.metadata.deep_view(),
            content_type: self.content_type@,
            extractor_bindings_state: self.extractor_bindings_state.deep_view(),
        }
    }
}

impl Clone for Model {
    fn clone(&self) -> (res: Self)
        ensures
            res.deep_view() == self.deep_view(),
    {
        Model {
            id: self.id.clone(),
            repository_id: self.repository_id.clone(),
            text: self.text.clone(),
            metadata: self.metadata.clone(),
            content_type: self.content_type.clone(),
            extractor_bindings_state: self.extractor_bindings_state.clone(),
        }
    }
}

impl Row for Model {
    open spec fn key_of(row: ModelView) -> Seq<char> {
        row.id
    }

    fn key(&self) -> (key: &str) {
        self.id.as_str()
    }

    fn replica(&self) -> (copy: Self) {
        self.clone()
    }
}

} // verus!
