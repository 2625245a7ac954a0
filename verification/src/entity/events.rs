//! The rows of the event log of a repository.

use crate::json::{JsonView, Metadata};
use crate::table::Row;
use vstd::prelude::*;

verus! {

/// A logged event of a repository.
#[derive(Debug)]
pub struct Model {
    pub id: String,
    pub repository_id: String,
    pub message: String,
    pub unix_time_stamp: i64,
    pub metadata: Metadata,
}

/// What a [`Model`] holds.
pub struct ModelView {
    pub id: Seq<char>,
    pub repository_id: Seq<char>,
    pub message: Seq<char>,
    pub unix_time_stamp: i64,
    pub metadata: Map<Seq<char>, JsonView>,
}

impl DeepView for Model {
    type V = ModelView;

    open spec fn deep_view(&self) -> ModelView {
        ModelView {
            id: self.id@,
            repository_id: self.repository_id@,
            message: self.message@,
            unix_time_stamp: self.unix_time_stamp,
            metadata: self.metadata.deep_view(),
        }
    }
}

impl Clone for Model {
    fn clone(&self) -> (res: Self)
        ensures
            res.deep_view() == self.deep_view(),
    {
        Model {
            id: self.id.clone(),
            repository_id: self.repository_id.clone(),
            message: self.message.clone(),
            unix_time_stamp: self.unix_time_stamp,
            metadata: self.metadata.clone(),
        }
    }
}

impl Row for Model {
    open spec fn key_of(row: ModelView) -> Seq<char> {
        row.id
    }

    fn key(&self) -> (key: &str) {
        self.id.as_str()
    }

    fn replica(&self) -> (copy: Self) {
        self.clone()
    }
}

} // verus!
