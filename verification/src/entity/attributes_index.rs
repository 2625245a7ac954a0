//! The rows of extracted attributes.

use crate::json::{JsonValue, JsonView};
use crate::table::Row;
use vstd::prelude::*;

verus! {

/// The attributes that an extractor found in a content item, as they are stored.
#[derive(Debug)]
pub struct Model {
    pub id: String,
    pub repository_id: String,
    pub index_name: String,
    pub extractor_id: String,
    pub data: JsonValue,
    pub content_id: String,
    pub created_at: i64,
}

/// What a [`Model`] holds.
pub struct ModelView {
    pub id: Seq<char>,
    pub repository_id: Seq<char>,
    pub index_name: Seq<char>,
    pub extractor_id: Seq<char>,
    pub data: JsonView,
    pub content_id: Seq<char>,
    pub created_at: i64,
}

impl DeepView for Model {
    type V = ModelView;

    open spec fn deep_view(&self) -> ModelView {
        ModelView {
            id: self.id@,
            repository_id: self.repository_id@,
            index_name: self.index_name@,
            extractor_id: self.extractor_id@,
            data: self.data.deep_view(),
            content_id: self.content_id@,
            created_at: self.created_at,
        }
    }
}

impl Clone for Model {
    fn clone(&self) -> (res: Self)
        ensures
            res.deep_view() == self.deep_view(),
    {
        Model {
            id: self.id.clone(),
            repository_id: self.repository_id.clone(),
            index_name: self.index_name.clone(),
            extractor_id: self.extractor_id.clone(),
            data: self.data.clone(),
            content_id: self.content_id.clone(),
            created_at: self.created_at,
        }
    }
}

impl Row for Model {
    open spec fn key_of(row: ModelView) -> Seq<char> {
        row.id
    }

    fn key(&self) -> (key: &str) {
        self.id.as_str()
    }

    fn replica(&self) -> (copy: Self) {
        self.clone()
    }
}

} // verus!
