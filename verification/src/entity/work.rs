//! The rows of the work queue.

use crate::json::{JsonValue, JsonView};
use crate::table::Row;
use crate::types::clone_optional;
use vstd::prelude::*;

verus! {

/// A unit of extraction work as it is stored.
#[derive(Debug)]
pub struct Model {
    pub id: String,
    /// The name of the state of the work.
    pub state: String,
    /// The worker that the work is assigned to.
    pub worker_id: Option<String>,
    pub content_id: String,
    pub index_name: String,
    pub extractor: String,
    pub extractor_params: JsonValue,
    pub repository_id: String,
}

/// What a [`Model`] holds.
pub struct ModelView {
    pub id: Seq<char>,
    pub state: Seq<char>,
    pub worker_id: Option<Seq<char>>,
    pub content_id: Seq<char>,
    pub index_name: Seq<char>,
    pub extractor: Seq<char>,
    pub extractor_params: JsonView,
    pub repository_id: Seq<char>,
}

impl DeepView for Model {
    type V = ModelView;

    open spec fn deep_view(&self) -> ModelView {
        ModelView {
            id: self.id@,
            state: self.state@,
            worker_id: self.worker_id.deep_view(),
            content_id: self.content_id@,
            index_name: self.index_name@,
            extractor: self.extractor@,
            extractor_params: self.extractor_params.deep_view(),
            repository_id: self.repository_id@,
        }
    }
}

impl Clone for Model {
    fn clone(&self) -> (res: Self)
        ensures
            res.deep_view() == self.deep_view(),
    {
        Model {
            id: self.id.clone(),
            state: self.state.clone(),
            worker_id: clone_optional(&self.worker_id),
            content_id: self.content_id.clone(),
            index_name: self.index_name.clone(),
            extractor: self.extractor.clone(),
            extractor_params: self.extractor_params.clone(),
            repository_id: self.repository_id.clone(),
        }
    }
}

impl Row for Model {
    open spec fn key_of(row: ModelView) -> Seq<char> {
        row.id
    }

    fn key(&self) -> (key: &str) {
        self.id.as_str()
    }

    fn replica(&self) -> (copy: Self) {
        self.clone()
    }
}

} // verus!
