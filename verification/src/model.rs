//! Data model: the workflow-run descriptor handed in by the event source,
//! and the derived presentation/message types.

use vstd::prelude::*;

verus! {

/// Lifecycle state of a workflow run.
#[derive(Clone, Copy, PartialEq, Eq, Structural, Debug)]
pub enum WorkflowStatus {
    Queued,
    InProgress,
    Completed,
}

/// Terminal outcome of a completed run. Absent means the run completed
/// without a recognized outcome (for example, cancelled).
#[derive(Clone, Copy, PartialEq, Eq, Structural, Debug)]
pub enum WorkflowConclusion {
    Success,
    Failure,
}

/// The user that triggered the run.
#[derive(Clone, Debug)]
pub struct Actor {
    pub login: String,
}

/// The repository the run belongs to.
#[derive(Clone, Debug)]
pub struct Repository {
    pub full_name: String,
    pub html_url: String,
}

/// One execution instance of a CI pipeline, as supplied by the event source.
/// Timestamps are wall-clock instants in whole seconds since the Unix epoch;
/// both are present only when the run has finished.
#[derive(Clone, Debug)]
pub struct WorkflowRun {
    pub status: WorkflowStatus,
    pub conclusion: Option<WorkflowConclusion>,
    pub name: String,
    pub head_branch: String,
    pub head_sha: String,
    pub id: u64,
    pub repository: Repository,
    pub actor: Actor,
    pub html_url: String,
    pub run_started_at: Option<i64>,
    pub completed_at: Option<i64>,
}

/// The flat presentation marker: the five-way collapse of
/// `status` x `conclusion`.
#[derive(Clone, Copy, PartialEq, Eq, Structural, Debug)]
pub enum StatusMarker {
    Pending,
    Running,
    Success,
    Failure,
    Unknown,
}

/// Presentation state derived from a run: its marker and short label.
/// Built fresh per invocation, never reused.
#[derive(Clone, Debug)]
pub struct PresentationState {
    pub marker: StatusMarker,
    pub label: String,
}

/// The two equivalent message bodies handed to the transport.
#[derive(Clone, Debug)]
pub struct RenderedMessage {
    pub fallback_text: String,
    pub rich_text: String,
}

} // verus!
