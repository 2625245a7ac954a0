//! The rows of repositories.

use crate::json::{JsonView, Metadata};
use crate::table::Row;
use crate::types::{
    clone_bindings, clone_connectors, DataConnector, DataConnectorView, ExtractorBinding,
    ExtractorBindingView,
};
use vstd::prelude::*;

verus! {

/// A repository as it is stored.
#[derive(Debug)]
pub struct Model {
    pub name: String,
    /// The bindings of the repository, no two of them with the same identifier.
    pub extractor_bindings: Vec<ExtractorBinding>,
    pub metadata: Metadata,
    pub data_connectors: Vec<DataConnector>,
}

/// What a [`Model`] holds.
pub struct ModelView {
    pub name: Seq<char>,
    pub extractor_bindings: Seq<ExtractorBindingView>,
    pub metadata: Map<Seq<char>, JsonView>,
    pub data_connectors: Seq<DataConnectorView>,
}

impl DeepView for Model {
    type V = ModelView;

    open spec fn deep_view(&self) -> ModelView {
        ModelView {
            name: self.name@,
            extractor_bindings: self.extractor_bindings.deep_view(),
            metadata: self.metadata.deep_view(),
            data_connectors: self.data_connectors.deep_view(),
        }
    }
}

impl Clone for Model {
    fn clone(&self) -> (res: Self)
        ensures
            res.deep_view() == self.deep_view(),
    {
        Model {
            name: self.name.clone(),
            extractor_bindings: clone_bindings(&self.extractor_bindings),
            metadata: self.metadata.clone(),
            data_connectors: clone_connectors(&self.data_connectors),
        }
    }
}

impl Row for Model {
    open spec fn key_of(row: ModelView) -> Seq<char> {
        row.name
    }

    fn key(&self) -> (key: &str) {
        self.name.as_str()
    }

    fn replica(&self) -> (copy: Self) {
        self.clone()
    }
}

} // verus!
