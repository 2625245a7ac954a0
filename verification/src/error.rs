//! The ways in which an operation of the store fails.

use crate::vectordbs::{VectorDbError, VectorDbErrorView};
use vstd::prelude::*;
use vstd::string::StringExecFns;

verus! {

/// A failure of the underlying store.
#[derive(Debug)]
pub enum DatabaseError {
    /// An insert that was told to skip rows whose key is taken inserted
    /// nothing.
    RecordNotInserted,
    /// Any other failure, with its message.
    Failed(String),
}

/// What a [`DatabaseError`] holds.
pub enum DatabaseErrorView {
    RecordNotInserted,
    Failed(Seq<char>),
}

impl DeepView for DatabaseError {
    type V = DatabaseErrorView;

    open spec fn deep_view(&self) -> DatabaseErrorView {
        match self {
            DatabaseError::RecordNotInserted => DatabaseErrorView::RecordNotInserted,
            DatabaseError::Failed(m) => DatabaseErrorView::Failed(m@),
        }
    }
}

impl DatabaseErrorView {
    /// The message of the failure.
    pub open spec fn message(self) -> Seq<char> {
        match self {
            DatabaseErrorView::RecordNotInserted => "None of the records are inserted"@,
            DatabaseErrorView::Failed(m) => m,
        }
    }
}

impl DatabaseError {
    /// The message of the failure.
    pub fn message(&self) -> (text: String)
        ensures
            text@ == self.deep_view().message(),
    {
        match self {
            DatabaseError::RecordNotInserted => String::from_str(
                "None of the records are inserted",
            ),
            DatabaseError::Failed(m) => m.clone(),
        }
    }
}

impl VectorDbErrorView {
    /// The message of the failure: what the backend said.
    pub open spec fn message(self) -> Seq<char> {
        match self {
            VectorDbErrorView::IndexCreationError(m) => m,
            VectorDbErrorView::IndexWriteError(m) => m,
            VectorDbErrorView::IndexReadError(m) => m,
        }
    }
}

impl VectorDbError {
    /// The message of the failure.
    pub fn message(&self) -> (text: String)
        ensures
            text@ == self.deep_view().message(),
    {
        match self {
            VectorDbError::IndexCreationError(m) => m.clone(),
            VectorDbError::IndexWriteError(m) => m.clone(),
            VectorDbError::IndexReadError(m) => m.clone(),
        }
    }
}

/// Why an operation of the store failed.
#[derive(Debug)]
pub enum RepositoryError {
    DatabaseError(DatabaseError),
    VectorDb(VectorDbError),
    RepositoryNotFound(String),
    ExtractorNotFound(String),
    IndexNotFound(String),
    ContentNotFound(String),
    ChunkNotFound(String),
    IndexAlreadyExists(String),
    UniqueParamsSerializationError(String),
    SessionNotFound(String),
    LogicError(String),
}

/// What a [`RepositoryError`] holds.
pub enum RepositoryErrorView {
    DatabaseError(DatabaseErrorView),
    VectorDb(VectorDbErrorView),
    RepositoryNotFound(Seq<char>),
    ExtractorNotFound(Seq<char>),
    IndexNotFound(Seq<char>),
    ContentNotFound(Seq<char>),
    ChunkNotFound(Seq<char>),
    IndexAlreadyExists(Seq<char>),
    UniqueParamsSerializationError(Seq<char>),
    SessionNotFound(Seq<char>),
    LogicError(Seq<char>),
}

impl DeepView for RepositoryError {
    type V = RepositoryErrorView;

    open spec fn deep_view(&self) -> RepositoryErrorView {
        match self {
            RepositoryError::DatabaseError(e) => RepositoryErrorView::DatabaseError(e.deep_view()),
            RepositoryError::VectorDb(e) => RepositoryErrorView::VectorDb(e.deep_view()),
            RepositoryError::RepositoryNotFound(n) => RepositoryErrorView::RepositoryNotFound(n@),
            RepositoryError::ExtractorNotFound(n) => RepositoryErrorView::ExtractorNotFound(n@),
            RepositoryError::IndexNotFound(n) => RepositoryErrorView::IndexNotFound(n@),
            RepositoryError::ContentNotFound(n) => RepositoryErrorView::ContentNotFound(n@),
            RepositoryError::ChunkNotFound(n) => RepositoryErrorView::ChunkNotFound(n@),
            RepositoryError::IndexAlreadyExists(n) => RepositoryErrorView::IndexAlreadyExists(n@),
            RepositoryError::UniqueParamsSerializationError(n) => {
                RepositoryErrorView::UniqueParamsSerializationError(n@)
            },
            RepositoryError::SessionNotFound(n) => RepositoryErrorView::SessionNotFound(n@),
            RepositoryError::LogicError(n) => RepositoryErrorView::LogicError(n@),
        }
    }
}

impl RepositoryErrorView {
    /// The message of the failure.
    pub open spec fn message(self) -> Seq<char> {
        match self {
            RepositoryErrorView::DatabaseError(e) => e.message(),
            RepositoryErrorView::VectorDb(e) => e.message(),
            RepositoryErrorView::RepositoryNotFound(n) => "repository `"@ + n + "` not found"@,
            RepositoryErrorView::ExtractorNotFound(n) => "extractor`"@ + n + "` not found"@,
            RepositoryErrorView::IndexNotFound(n) => "index `"@ + n + "` not found"@,
            RepositoryErrorView::ContentNotFound(n) => "content`"@ + n + "` not found"@,
            RepositoryErrorView::ChunkNotFound(n) => "chunk `"@ + n + "` not found"@,
            RepositoryErrorView::IndexAlreadyExists(n) => "index `"@ + n + "` already exists"@,
            RepositoryErrorView::UniqueParamsSerializationError(n) => {
                "unable to serialize unique params `"@ + n + "`"@
            },
            RepositoryErrorView::SessionNotFound(n) => "session `"@ + n + "` not found"@,
            RepositoryErrorView::LogicError(n) => "internal application error `"@ + n + "`"@,
        }
    }
}

fn quoted(before: &str, name: &String, after: &str) -> (text: String)
    ensures
        text@ == before@ + name@ + after@,
{
    String::from_str(before).concat(name.as_str()).concat(after)
}

impl RepositoryError {
    /// The message of the failure.
    pub fn message(&self) -> (text: String)
        ensures
            text@ == self.deep_view().message(),
    {
        match self {
            RepositoryError::DatabaseError(e) => e.message(),
            RepositoryError::VectorDb(e) => e.message(),
            RepositoryError::RepositoryNotFound(n) => quoted("repository `", n, "` not found"),
            RepositoryError::ExtractorNotFound(n) => quoted("extractor`", n, "` not found"),
            RepositoryError::IndexNotFound(n) => quoted("index `", n, "` not found"),
            RepositoryError::ContentNotFound(n) => quoted("content`", n, "` not found"),
            RepositoryError::ChunkNotFound(n) => quoted("chunk `", n, "` not found"),
            RepositoryError::IndexAlreadyExists(n) => quoted("index `", n, "` already exists"),
            RepositoryError::UniqueParamsSerializationError(n) => quoted(
                "unable to serialize unique params `",
                n,
                "`",
            ),
            RepositoryError::SessionNotFound(n) => quoted("session `", n, "` not found"),
            RepositoryError::LogicError(n) => quoted("internal application error `", n, "`"),
        }
    }

    /// Whether an insert that skips a row whose key is taken inserted the
    /// row: that nothing was inserted is no failure, any other failure of
    /// the store is.
    pub fn insert_took(outcome: Result<(), DatabaseError>) -> (took: Result<bool, RepositoryError>)
        ensures
            match outcome {
                Ok(()) => took is Ok && took->Ok_0,
                Err(DatabaseError::RecordNotInserted) => took is Ok && !took->Ok_0,
                Err(e) => took is Err && took->Err_0.deep_view()
                    == RepositoryErrorView::DatabaseError(e.deep_view()),
            },
    {
        match outcome {
            Ok(()) => Ok(true),
            Err(DatabaseError::RecordNotInserted) => Ok(false),
            Err(e) => Err(RepositoryError::DatabaseError(e)),
        }
    }

    /// What becomes of the outcome of an insert that skips rows whose key
    /// is taken: that nothing was inserted is no failure, any other failure
    /// of the store is.
    pub fn settle_insert(outcome: Result<(), DatabaseError>) -> (settled: Result<
        (),
        RepositoryError,
    >)
        ensures
            match outcome {
                Ok(()) => settled is Ok,
                Err(DatabaseError::RecordNotInserted) => settled is Ok,
                Err(e) => settled is Err && settled->Err_0.deep_view()
                    == RepositoryErrorView::DatabaseError(e.deep_view()),
            },
    {
        match outcome {
            Ok(()) => Ok(()),
            Err(DatabaseError::RecordNotInserted) => Ok(()),
            Err(e) => Err(RepositoryError::DatabaseError(e)),
        }
    }
}

} // verus!
