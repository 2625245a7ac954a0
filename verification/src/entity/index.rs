//! The rows that describe indexes.

use crate::table::Row;
use crate::types::clone_optional;
use vstd::prelude::*;

verus! {

/// The description of an index.
#[derive(Debug)]
pub struct Model {
    pub name: String,
    /// The name of the index in the vector backend.
    pub vector_index_name: Option<String>,
    pub extractor_name: String,
    pub index_type: String,
    pub repository_id: String,
}

/// What a [`Model`] holds.
pub struct ModelView {
    pub name: Seq<char>,
    pub vector_index_name: Option<Seq<char>>,
    pub extractor_name: Seq<char>,
    pub index_type: Seq<char>,
    pub repository_id: Seq<char>,
}

impl DeepView for Model {
    type V = ModelView;

    open spec fn deep_view(&self) -> ModelView {
        ModelView {
            name: self.name@,
            vector_index_name: self.vector_index_name.deep_view(),
            extractor_name: self.extractor_name@,
            index_type: self.index_type@,
            repository_id: self.repository_id@,
        }
    }
}

impl Clone for Model {
    fn clone(&self) -> (res: Self)
        ensures
            res.deep_view() == self.deep_view(),
    {
        Model {
            name: self.name.clone(),
            vector_index_name: clone_optional(&self.vector_index_name),
            extractor_name: self.extractor_name.clone(),
            index_type: self.index_type.clone(),
            repository_id: self.repository_id.clone(),
        }
    }
}

impl Row for Model {
    open spec fn key_of(row: ModelView) -> Seq<char> {
        row.name
    }

    fn key(&self) -> (key: &str) {
        self.name.as_str()
    }

    fn replica(&self) -> (copy: Self) {
        self.clone()
    }
}

} // verus!
