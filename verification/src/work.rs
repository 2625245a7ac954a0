//! Units of extraction work and their states.

use crate::entity::work::{Model, ModelView};
use crate::identity::{derive_quad, id_of};
use crate::json::{same_text, JsonValue, JsonView};
use crate::types::clone_optional;
use vstd::prelude::*;
use vstd::std_specs::convert::FromSpecImpl;
use vstd::string::StringExecFns;

verus! {

/// The state of a unit of work. Work is created `Pending`, is taken up
/// (`InProgress`) and ends `Completed` or `Failed`. `Unknown` stands for a
/// state that could not be read.
#[derive(Debug, Clone, Copy, PartialEq, Eq, Structural)]
pub enum WorkState {
    Unknown,
    Pending,
    InProgress,
    Completed,
    Failed,
}

impl DeepView for WorkState {
    type V = WorkState;

    open spec fn deep_view(&self) -> WorkState {
        *self
    }
}

impl Default for WorkState {
    fn default() -> (state: Self)
        ensures
            state == WorkState::Unknown,
    {
        WorkState::Unknown
    }
}

impl WorkState {
    /// The name under which a state is stored.
    pub open spec fn name(self) -> Seq<char> {
        match self {
            WorkState::Unknown => "Unknown"@,
            WorkState::Pending => "Pending"@,
            WorkState::InProgress => "InProgress"@,
            WorkState::Completed => "Completed"@,
            WorkState::Failed => "Failed"@,
        }
    }

    /// The state that is stored under a name, if the name is that of a
    /// state.
    pub open spec fn named(name: Seq<char>) -> Option<WorkState> {
        if name == "Unknown"@ {
            Some(WorkState::Unknown)
        } else if name == "Pending"@ {
            Some(WorkState::Pending)
        } else if name == "InProgress"@ {
            Some(WorkState::InProgress)
        } else if name == "Completed"@ {
            Some(WorkState::Completed)
        } else if name == "Failed"@ {
            Some(WorkState::Failed)
        } else {
            None
        }
    }

    /// The state that a stored name stands for: `Unknown` where the name is
    /// that of no state.
    pub open spec fn stored(name: Seq<char>) -> WorkState {
        match WorkState::named(name) {
            Some(state) => state,
            None => WorkState::Unknown,
        }
    }

    /// Whether work in this state is over.
    pub open spec fn is_terminal(self) -> bool {
        self == WorkState::Completed || self == WorkState::Failed
    }

    /// The names of the states differ, so the name of a state leads back to
    /// the state.
    pub proof fn lemma_named_name(self)
        ensures
            WorkState::named(self.name()) == Some(self),
            WorkState::stored(self.name()) == self,
    {
        reveal_strlit("Unknown");
        reveal_strlit("Pending");
        reveal_strlit("InProgress");
        reveal_strlit("Completed");
        reveal_strlit("Failed");
        assert("Unknown"@.len() == 7 && "Unknown"@[0] == 'U');
        assert("Pending"@.len() == 7 && "Pending"@[0] == 'P');
        assert("InProgress"@.len() == 10);
        assert("Completed"@.len() == 9);
        assert("Failed"@.len() == 6);
    }

    /// The name under which this state is stored.
    pub fn to_string(&self) -> (name: String)
        ensures
            name@ == self.name(),
    {
        match self {
            WorkState::Unknown => String::from_str("Unknown"),
            WorkState::Pending => String::from_str("Pending"),
            WorkState::InProgress => String::from_str("InProgress"),
            WorkState::Completed => String::from_str("Completed"),
            WorkState::Failed => String::from_str("Failed"),
        }
    }

    /// The state that is stored under a name, if the name is that of a
    /// state.
    pub fn from_str(name: &str) -> (state: Option<WorkState>)
        ensures
            state == WorkState::named(name@),
    {
        if same_text(name, "Unknown") {
            Some(WorkState::Unknown)
        } else if same_text(name, "Pending") {
            Some(WorkState::Pending)
        } else if same_text(name, "InProgress") {
            Some(WorkState::InProgress)
        } else if same_text(name, "Completed") {
            Some(WorkState::Completed)
        } else if same_text(name, "Failed") {
            Some(WorkState::Failed)
        } else {
            None
        }
    }
}

/// A unit of extraction work: one extractor to be run over one content
/// item, into one index.
#[derive(Debug)]
pub struct Work {
    pub id: String,
    pub content_id: String,
    pub repository_id: String,
    pub index_name: String,
    pub extractor: String,
    pub extractor_params: JsonValue,
    pub work_state: WorkState,
    pub worker_id: Option<String>,
}

/// What a [`Work`] holds.
pub struct WorkView {
    pub id: Seq<char>,
    pub content_id: Seq<char>,
    pub repository_id: Seq<char>,
    pub index_name: Seq<char>,
    pub extractor: Seq<char>,
    pub extractor_params: JsonView,
    pub work_state: WorkState,
    pub worker_id: Option<Seq<char>>,
}

impl DeepView for Work {
    type V = WorkView;

    open spec fn deep_view(&self) -> WorkView {
        WorkView {
            id: self.id@,
            content_id: self.content_id@,
            repository_id: self.repository_id@,
            index_name: self.index_name@,
            extractor: self.extractor@,
            extractor_params: self.extractor_params.deep_view(),
            work_state: self.work_state,
            worker_id: self.worker_id.deep_view(),
        }
    }
}

impl Clone for Work {
    fn clone(&self) -> (res: Self)
        ensures
            res.deep_view() == self.deep_view(),
    {
        Work {
            id: self.id.clone(),
            content_id: self.content_id.clone(),
            repository_id: self.repository_id.clone(),
            index_name: self.index_name.clone(),
            extractor: self.extractor.clone(),
            extractor_params: self.extractor_params.clone(),
            work_state: self.work_state,
            worker_id: clone_optional(&self.worker_id),
        }
    }
}

impl Work {
    /// New work, `Pending`. Its identifier is derived from the identifier
    /// of the content, the names of the repository, of the index and of the
    /// extractor, in this order.
    pub fn new(
        content_id: &str,
        repository: &str,
        index_name: &str,
        extractor: &str,
        extractor_params: &JsonValue,
        worker_id: Option<&str>,
    ) -> (work: Self)
        ensures
            work.deep_view() == (WorkView {
                id: id_of(seq![content_id@, repository@, index_name@, extractor@]),
                content_id: content_id@,
                repository_id: repository@,
                index_name: index_name@,
                extractor: extractor@,
                extractor_params: extractor_params.deep_view(),
                work_state: WorkState::Pending,
                worker_id: worker_id.deep_view(),
            }),
    {
        let id = derive_quad(content_id, repository, index_name, extractor);
        let worker_id = match worker_id {
            Some(w) => Some(String::from_str(w)),
            None => None,
        };
        Work {
            id,
            content_id: String::from_str(content_id),
            repository_id: String::from_str(repository),
            index_name: String::from_str(index_name),
            extractor: String::from_str(extractor),
            extractor_params: extractor_params.clone(),
            work_state: WorkState::Pending,
            worker_id,
        }
    }

    /// Whether the work is over: completed or failed.
    pub fn terminal_state(&self) -> (over: bool)
        ensures
            over == self.work_state.is_terminal(),
    {
        self.work_state == WorkState::Completed || self.work_state == WorkState::Failed
    }
}

/// The work that a stored row stands for.
pub open spec fn work_of_row(row: ModelView) -> WorkView {
    WorkView {
        id: row.id,
        content_id: row.content_id,
        repository_id: row.repository_id,
        index_name: row.index_name,
        extractor: row.extractor,
        extractor_params: row.extractor_params,
        work_state: WorkState::stored(row.state),
        worker_id: row.worker_id,
    }
}

/// The row under which work is stored.
pub open spec fn row_of_work(work: WorkView) -> ModelView {
    ModelView {
        id: work.id,
        state: work.work_state.name(),
        worker_id: work.worker_id,
        content_id: work.content_id,
        index_name: work.index_name,
        extractor: work.extractor,
        extractor_params: work.extractor_params,
        repository_id: work.repository_id,
    }
}

/// The row under which work is added to the queue: pending, and assigned
/// to nobody.
pub open spec fn enqueued_row(work: WorkView) -> ModelView {
    row_of_work(WorkView { work_state: WorkState::Pending, worker_id: None, ..work })
}

impl From<Model> for Work {
    fn from(model: Model) -> (work: Self)
        ensures
            work.deep_view() == work_of_row(model.deep_view()),
    {
        let work_state = match WorkState::from_str(model.state.as_str()) {
            Some(state) => state,
            None => WorkState::Unknown,
        };
        Work {
            id: model.id,
            content_id: model.content_id,
            repository_id: model.repository_id,
            index_name: model.index_name,
            extractor: model.extractor,
            extractor_params: model.extractor_params,
            work_state,
            worker_id: model.worker_id,
        }
    }
}

impl FromSpecImpl<Model> for Work {
    open spec fn obeys_from_spec() -> bool {
        true
    }

    open spec fn from_spec(model: Model) -> Work {
        Work {
            id: model.id,
            content_id: model.content_id,
            repository_id: model.repository_id,
            index_name: model.index_name,
            extractor: model.extractor,
            extractor_params: model.extractor_params,
            work_state: WorkState::stored(model.state@),
            worker_id: model.worker_id,
        }
    }
}

impl Work {
    /// The row under which this work is added to the queue: pending, and
    /// assigned to nobody.
    pub fn to_enqueued_row(&self) -> (row: Model)
        ensures
            row.deep_view() == enqueued_row(self.deep_view()),
    {
        Model {
            id: self.id.clone(),
            state: WorkState::Pending.to_string(),
            worker_id: None,
            content_id: self.content_id.clone(),
            index_name: self.index_name.clone(),
            extractor: self.extractor.clone(),
            extractor_params: self.extractor_params.clone(),
            repository_id: self.repository_id.clone(),
        }
    }

    /// The row under which this work is stored.
    pub fn to_row(&self) -> (row: Model)
        ensures
            row.deep_view() == row_of_work(self.deep_view()),
    {
        Model {
            id: self.id.clone(),
            state: self.work_state.to_string(),
            worker_id: clone_optional(&self.worker_id),
            content_id: self.content_id.clone(),
            index_name: self.index_name.clone(),
            extractor: self.extractor.clone(),
            extractor_params: self.extractor_params.clone(),
            repository_id: self.repository_id.clone(),
        }
    }
}

} // verus!
