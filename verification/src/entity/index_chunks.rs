//! The rows of stored chunks.

use crate::table::Row;
use vstd::prelude::*;

verus! {

/// A chunk as it is stored in an index.
#[derive(Debug)]
pub struct Model {
    pub chunk_id: String,
    pub content_id: String,
    pub text: String,
    pub index_name: String,
}

/// What a [`Model`] holds.
pub struct ModelView {
    pub chunk_id: Seq<char>,
    pub content_id: Seq<char>,
    pub text: Seq<char>,
    pub index_name: Seq<char>,
}

impl DeepView for Model {
    type V = ModelView;

    open spec fn deep_view(&self) -> ModelView {
        ModelView {
            chunk_id: self.chunk_id@,
            content_id: self.content_id@,
            text: self.text@,
            index_name: self.index_name@,
        }
    }
}

impl Clone for Model {
    fn clone(&self) -> (res: Self)
        ensures
            res.deep_view() == self.deep_view(),
    {
        Model {
            chunk_id: self.chunk_id.clone(),
            content_id: self.content_id.clone(),
            text: self.text.clone(),
            index_name: self.index_name.clone(),
        }
    }
}

impl Row for Model {
    open spec fn key_of(row: ModelView) -> Seq<char> {
        row.chunk_id
    }

    fn key(&self) -> (key: &str) {
        self.chunk_id.as_str()
    }

    fn replica(&self) -> (copy: Self) {
        self.clone()
    }
}

} // verus!
