//! The rows of recorded extractors.

use crate::json::{JsonValue, JsonView};
use crate::table::Row;
use crate::types::{ExtractorType, ExtractorTypeView};
use vstd::prelude::*;

verus! {

/// An extractor as it is recorded.
#[derive(Debug)]
pub struct Model {
    /// The name of the extractor.
    pub id: String,
    pub description: String,
    pub extractor_type: ExtractorType,
    pub input_params: JsonValue,
}

/// What a [`Model`] holds.
pub struct ModelView {
    pub id: Seq<char>,
    pub description: Seq<char>,
    pub extractor_type: ExtractorTypeView,
    pub input_params: JsonView,
}

impl DeepView for Model {
    type V = ModelView;

    open spec fn deep_view(&self) -> ModelView {
        ModelView {
            id: self.id@,
            description: self.description@,
            extractor_type: self.extractor_type.deep_view(),
            input_params: self.input_params.deep_view(),
        }
    }
}

impl Clone for Model {
    fn clone(&self) -> (res: Self)
        ensures
            res.deep_view() == self.deep_view(),
    {
        Model {
            id: self.id.clone(),
            description: self.description.clone(),
            extractor_type: self.extractor_type.clone(),
            input_params: self.input_params.clone(),
        }
    }
}

impl Row for Model {
    open spec fn key_of(row: ModelView) -> Seq<char> {
        row.id
    }

    fn key(&self) -> (key: &str) {
        self.id.as_str()
    }

    fn replica(&self) -> (copy: Self) {
        self.clone()
    }
}

} // verus!
