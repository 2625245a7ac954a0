//! What the store hands to the vector index backend, and what it gets back.

use vstd::prelude::*;

verus! {

/// How the distance between two vectors of an index is measured.
#[derive(Debug, Clone, Copy, PartialEq, Eq, Structural)]
pub enum IndexDistance {
    Cosine,
    Dot,
    Euclidean,
}

impl DeepView for IndexDistance {
    type V = IndexDistance;

    open spec fn deep_view(&self) -> IndexDistance {
        *self
    }
}

/// The parameters with which the backend creates an index.
#[derive(Debug)]
pub struct CreateIndexParams {
    pub vectordb_index_name: String,
    pub vector_dim: u64,
    pub metric: IndexDistance,
    pub unique_params: Option<Vec<String>>,
}

/// What a [`CreateIndexParams`] holds.
pub struct CreateIndexParamsView {
    pub vectordb_index_name: Seq<char>,
    pub vector_dim: u64,
    pub metric: IndexDistance,
    pub unique_params: Option<Seq<Seq<char>>>,
}

impl DeepView for CreateIndexParams {
    type V = CreateIndexParamsView;

    open spec fn deep_view(&self) -> CreateIndexParamsView {
        CreateIndexParamsView {
            vectordb_index_name: self.vectordb_index_name@,
            vector_dim: self.vector_dim,
            metric: self.metric,
            unique_params: self.unique_params.deep_view(),
        }
    }
}

/// Why the backend did not do what it was asked.
#[derive(Debug)]
pub enum VectorDbError {
    IndexCreationError(String),
    IndexWriteError(String),
    IndexReadError(String),
}

/// What a [`VectorDbError`] holds.
pub enum VectorDbErrorView {
    IndexCreationError(Seq<char>),
    IndexWriteError(Seq<char>),
    IndexReadError(Seq<char>),
}

impl DeepView for VectorDbError {
    type V = VectorDbErrorView;

    open spec fn deep_view(&self) -> VectorDbErrorView {
        match self {
            VectorDbError::IndexCreationError(m) => VectorDbErrorView::IndexCreationError(m@),
            VectorDbError::IndexWriteError(m) => VectorDbErrorView::IndexWriteError(m@),
            VectorDbError::IndexReadError(m) => VectorDbErrorView::IndexReadError(m@),
        }
    }
}

} // verus!
