//! Domain models: the status enumerations with their wire names, and the
//! plain input records the tool layer accepts.

use vstd::prelude::*;

use crate::strutil::str_eq;

verus! {

/// Status of an acceptance criterion.
#[derive(Clone, Copy, Debug, PartialEq, Eq, Structural)]
pub enum CriterionStatus {
    Pending,
    Complete,
    Blocked,
}

/// The wire name of a criterion status.
pub open spec fn criterion_status_name(s: CriterionStatus) -> Seq<char> {
    match s {
        CriterionStatus::Pending => "pending"@,
        CriterionStatus::Complete => "complete"@,
        CriterionStatus::Blocked => "blocked"@,
    }
}

impl CriterionStatus {
    pub fn as_str(&self) -> (r: &'static str)
        ensures
            r@ == criterion_status_name(*self),
    {
        match self {
            Self::Pending => "pending",
            Self::Complete => "complete",
            Self::Blocked => "blocked",
        }
    }

    /// Parse a wire name; exactly the three status names are accepted.
    pub fn from_str(s: &str) -> (r: Option<Self>)
        ensures
            match r {
                Some(v) => s@ == criterion_status_name(v),
                None => forall|v: CriterionStatus| s@ != criterion_status_name(v),
            },
    {
        if str_eq(s, "pending") {
            Some(Self::Pending)
        } else if str_eq(s, "complete") {
            Some(Self::Complete)
        } else if str_eq(s, "blocked") {
            Some(Self::Blocked)
        } else {
            proof {
                assert forall|v: CriterionStatus| s@ != criterion_status_name(v) by {
                    match v {
                        CriterionStatus::Pending => {},
                        CriterionStatus::Complete => {},
                        CriterionStatus::Blocked => {},
                    }
                }
            }
            None
        }
    }
}

/// How an acceptance criterion is verified.
#[derive(Clone, Copy, Debug, PartialEq, Eq, Structural)]
pub enum VerificationType {
    Manual,
    Test,
}

/// The wire name of a verification type.
pub open spec fn verification_type_name(s: VerificationType) -> Seq<char> {
    match s {
        VerificationType::Manual => "manual"@,
        VerificationType::Test => "test"@,
    }
}

impl VerificationType {
    pub fn as_str(&self) -> (r: &'static str)
        ensures
            r@ == verification_type_name(*self),
    {
        match self {
            Self::Manual => "manual",
            Self::Test => "test",
        }
    }

    /// Parse a wire name; exactly the two type names are accepted.
    pub fn from_str(s: &str) -> (r: Option<Self>)
        ensures
            match r {
                Some(v) => s@ == verification_type_name(v),
                None => forall|v: VerificationType| s@ != verification_type_name(v),
            },
    {
        if str_eq(s, "manual") {
            Some(Self::Manual)
        } else if str_eq(s, "test") {
            Some(Self::Test)
        } else {
            proof {
                assert forall|v: VerificationType| s@ != verification_type_name(v) by {
                    match v {
                        VerificationType::Manual => {},
                        VerificationType::Test => {},
                    }
                }
            }
            None
        }
    }
}

/// Lifecycle state of a feature.
#[derive(Clone, Copy, Debug, PartialEq, Eq, Structural)]
pub enum FeatureState {
    Proposed,
    Specified,
    Implemented,
    Deprecated,
}

/// The wire name of a feature state.
pub open spec fn feature_state_name(s: FeatureState) -> Seq<char> {
    match s {
        FeatureState::Proposed => "proposed"@,
        FeatureState::Specified => "specified"@,
        FeatureState::Implemented => "implemented"@,
        FeatureState::Deprecated => "deprecated"@,
    }
}

impl FeatureState {
    pub fn as_str(&self) -> (r: &'static str)
        ensures
            r@ == feature_state_name(*self),
    {
        match self {
            Self::Proposed => "proposed",
            Self::Specified => "specified",
            Self::Implemented => "implemented",
            Self::Deprecated => "deprecated",
        }
    }

    /// Parse a wire name; exactly the four state names are accepted.
    pub fn from_str(s: &str) -> (r: Option<Self>)
        ensures
            match r {
                Some(v) => s@ == feature_state_name(v),
                None => forall|v: FeatureState| s@ != feature_state_name(v),
            },
    {
        if str_eq(s, "proposed") {
            Some(Self::Proposed)
        } else if str_eq(s, "specified") {
            Some(Self::Specified)
        } else if str_eq(s, "implemented") {
            Some(Self::Implemented)
        } else if str_eq(s, "deprecated") {
            Some(Self::Deprecated)
        } else {
            proof {
                assert forall|v: FeatureState| s@ != feature_state_name(v) by {
                    match v {
                        FeatureState::Proposed => {},
                        FeatureState::Specified => {},
                        FeatureState::Implemented => {},
                        FeatureState::Deprecated => {},
                    }
                }
            }
            None
        }
    }
}

/// Status of a working session.
#[derive(Clone, Copy, Debug, PartialEq, Eq, Structural)]
pub enum SessionStatus {
    Active,
    Completed,
    Failed,
}

/// The wire name of a session status.
pub open spec fn session_status_name(s: SessionStatus) -> Seq<char> {
    match s {
        SessionStatus::Active => "active"@,
        SessionStatus::Completed => "completed"@,
        SessionStatus::Failed => "failed"@,
    }
}

impl SessionStatus {
    pub fn as_str(&self) -> (r: &'static str)
        ensures
            r@ == session_status_name(*self),
    {
        match self {
            Self::Active => "active",
            Self::Completed => "completed",
            Self::Failed => "failed",
        }
    }

    /// Parse a wire name; exactly the three status names are accepted.
    pub fn from_str(s: &str) -> (r: Option<Self>)
        ensures
            match r {
                Some(v) => s@ == session_status_name(v),
                None => forall|v: SessionStatus| s@ != session_status_name(v),
            },
    {
        if str_eq(s, "active") {
            Some(Self::Active)
        } else if str_eq(s, "completed") {
            Some(Self::Completed)
        } else if str_eq(s, "failed") {
            Some(Self::Failed)
        } else {
            proof {
                assert forall|v: SessionStatus| s@ != session_status_name(v) by {
                    match v {
                        SessionStatus::Active => {},
                        SessionStatus::Completed => {},
                        SessionStatus::Failed => {},
                    }
                }
            }
            None
        }
    }
}

/// Status of a task within a session.
#[derive(Clone, Copy, Debug, PartialEq, Eq, Structural)]
pub enum TaskStatus {
    Pending,
    Running,
    Completed,
    Failed,
}

/// The wire name of a task status.
pub open spec fn task_status_name(s: TaskStatus) -> Seq<char> {
    match s {
        TaskStatus::Pending => "pending"@,
        TaskStatus::Running => "running"@,
        TaskStatus::Completed => "completed"@,
        TaskStatus::Failed => "failed"@,
    }
}

impl TaskStatus {
    pub fn as_str(&self) -> (r: &'static str)
        ensures
            r@ == task_status_name(*self),
    {
        match self {
            Self::Pending => "pending",
            Self::Running => "running",
            Self::Completed => "completed",
            Self::Failed => "failed",
        }
    }

    /// Parse a wire name; exactly the four status names are accepted.
    pub fn from_str(s: &str) -> (r: Option<Self>)
        ensures
            match r {
                Some(v) => s@ == task_status_name(v),
                None => forall|v: TaskStatus| s@ != task_status_name(v),
            },
    {
        if str_eq(s, "pending") {
            Some(Self::Pending)
        } else if str_eq(s, "running") {
            Some(Self::Running)
        } else if str_eq(s, "completed") {
            Some(Self::Completed)
        } else if str_eq(s, "failed") {
            Some(Self::Failed)
        } else {
            proof {
                assert forall|v: TaskStatus| s@ != task_status_name(v) by {
                    match v {
                        TaskStatus::Pending => {},
                        TaskStatus::Running => {},
                        TaskStatus::Completed => {},
                        TaskStatus::Failed => {},
                    }
                }
            }
            None
        }
    }
}

/// Which agent runs a task.
#[derive(Clone, Copy, Debug, PartialEq, Eq, Structural)]
pub enum AgentType {
    Assistant,
    Gemini,
    Codex,
}

/// The wire name of an agent type.
pub open spec fn agent_type_name(s: AgentType) -> Seq<char> {
    match s {
        AgentType::Assistant => "assistant"@,
        AgentType::Gemini => "gemini"@,
        AgentType::Codex => "codex"@,
    }
}

impl AgentType {
    pub fn as_str(&self) -> (r: &'static str)
        ensures
            r@ == agent_type_name(*self),
    {
        match self {
            Self::Assistant => "assistant",
            Self::Gemini => "gemini",
            Self::Codex => "codex",
        }
    }

    /// Parse a wire name; exactly the three agent names are accepted.
    pub fn from_str(s: &str) -> (r: Option<Self>)
        ensures
            match r {
                Some(v) => s@ == agent_type_name(v),
                None => forall|v: AgentType| s@ != agent_type_name(v),
            },
    {
        if str_eq(s, "assistant") {
            Some(Self::Assistant)
        } else if str_eq(s, "gemini") {
            Some(Self::Gemini)
        } else if str_eq(s, "codex") {
            Some(Self::Codex)
        } else {
            proof {
                assert forall|v: AgentType| s@ != agent_type_name(v) by {
                    match v {
                        AgentType::Assistant => {},
                        AgentType::Gemini => {},
                        AgentType::Codex => {},
                    }
                }
            }
            None
        }
    }
}

/// Input for creating an acceptance criterion.
#[derive(Clone, Debug)]
pub struct CreateCriterionInput {
    pub description: String,
    pub verification: Option<VerificationType>,
    pub test_file: Option<String>,
}

/// Input for updating an acceptance criterion.
#[derive(Clone, Debug)]
pub struct UpdateCriterionInput {
    pub status: Option<CriterionStatus>,
    pub blocked_reason: Option<String>,
}

/// Input for recording an implementation note.
#[derive(Clone, Debug)]
pub struct CreateImplementationNoteInput {
    pub content: String,
    pub files_changed: Vec<String>,
}

/// Input for creating a project.
#[derive(Clone, Debug)]
pub struct CreateProjectInput {
    pub name: String,
    pub description: Option<String>,
}

/// Input for updating a project.
#[derive(Clone, Debug)]
pub struct UpdateProjectInput {
    pub name: Option<String>,
    pub description: Option<String>,
}

/// Input for attaching a directory to a project.
#[derive(Clone, Debug)]
pub struct AddDirectoryInput {
    pub path: String,
    pub git_remote: Option<String>,
    pub is_primary: bool,
}

/// Input for updating a project directory.
#[derive(Clone, Debug)]
pub struct UpdateDirectoryInput {
    pub path: Option<String>,
    pub git_remote: Option<String>,
    pub is_primary: Option<bool>,
}

/// Input for completing a session.
#[derive(Clone, Debug)]
pub struct CompleteSessionInput {
    pub summary: String,
}

/// Input for updating a task.
#[derive(Clone, Debug)]
pub struct UpdateTaskInput {
    pub status: Option<TaskStatus>,
    pub worktree_path: Option<String>,
    pub branch: Option<String>,
}

/// Request to fetch the working context of a task.
#[derive(Debug)]
pub struct GetTaskContextRequest {
    pub task_id: String,
}

/// Request to record an implementation note against a task.
#[derive(Debug)]
pub struct AddImplementationNoteRequest {
    pub task_id: String,
    pub content: String,
    pub files_changed: Vec<String>,
}

/// Request to mark a task as complete.
#[derive(Debug)]
pub struct CompleteTaskRequest {
    pub task_id: String,
}

/// Wire names are distinct, so parsing a status's own wire name can give
/// back only that status.
pub proof fn lemma_criterion_status_round_trip(v: CriterionStatus, w: CriterionStatus)
    requires
        criterion_status_name(v) == criterion_status_name(w),
    ensures
        v == w,
{
    reveal_strlit("pending");
    reveal_strlit("complete");
    reveal_strlit("blocked");
    match v {
        CriterionStatus::Pending => {
            match w {
                CriterionStatus::Pending => {},
                CriterionStatus::Complete => {
                    assert("pending"@.len() != "complete"@.len());
                },
                CriterionStatus::Blocked => {
                    assert("pending"@[0] != "blocked"@[0]);
                },
            }
        },
        CriterionStatus::Complete => {
            match w {
                CriterionStatus::Pending => {
                    assert("pending"@.len() != "complete"@.len());
                },
                CriterionStatus::Complete => {},
                CriterionStatus::Blocked => {
                    assert("complete"@.len() != "blocked"@.len());
                },
            }
        },
        CriterionStatus::Blocked => {
            match w {
                CriterionStatus::Pending => {
                    assert("pending"@[0] != "blocked"@[0]);
                },
                CriterionStatus::Complete => {
                    assert("complete"@.len() != "blocked"@.len());
                },
                CriterionStatus::Blocked => {},
            }
        },
    }
}

/// Wire names are distinct, so parsing a task status's own wire name can
/// give back only that status.
pub proof fn lemma_task_status_round_trip(v: TaskStatus, w: TaskStatus)
    requires
        task_status_name(v) == task_status_name(w),
    ensures
        v == w,
{
    reveal_strlit("pending");
    reveal_strlit("running");
    reveal_strlit("completed");
    reveal_strlit("failed");
    assert("pending"@[0] != "running"@[0]);
    assert("pending"@.len() != "completed"@.len());
    assert("pending"@.len() != "failed"@.len());
    assert("running"@.len() != "completed"@.len());
    assert("running"@.len() != "failed"@.len());
    assert("completed"@.len() != "failed"@.len());
    match v {
        TaskStatus::Pending => {
            match w {
                TaskStatus::Pending => {},
                TaskStatus::Running => {},
                TaskStatus::Completed => {},
                TaskStatus::Failed => {},
            }
        },
        TaskStatus::Running => {
            match w {
                TaskStatus::Pending => {},
                TaskStatus::Running => {},
                TaskStatus::Completed => {},
                TaskStatus::Failed => {},
            }
        },
        TaskStatus::Completed => {
            match w {
                TaskStatus::Pending => {},
                TaskStatus::Running => {},
                TaskStatus::Completed => {},
                TaskStatus::Failed => {},
            }
        },
        TaskStatus::Failed => {
            match w {
                TaskStatus::Pending => {},
                TaskStatus::Running => {},
                TaskStatus::Completed => {},
                TaskStatus::Failed => {},
            }
        },
    }
}

} // verus!
