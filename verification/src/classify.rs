//! Status classification: the five-way collapse of `status` x `conclusion`
//! into one presentation state.

use vstd::prelude::*;
use crate::model::{PresentationState, StatusMarker, WorkflowConclusion, WorkflowRun, WorkflowStatus};

verus! {

/// The marker a run presents as. `conclusion` is ignored unless the run
/// has completed; a completed run with no recognized conclusion is a
/// distinct, valid outcome.
pub open spec fn spec_marker(
    status: WorkflowStatus,
    conclusion: Option<WorkflowConclusion>,
) -> StatusMarker {
    match status {
        WorkflowStatus::Queued => StatusMarker::Pending,
        WorkflowStatus::InProgress => StatusMarker::Running,
        WorkflowStatus::Completed => match conclusion {
            Some(WorkflowConclusion::Success) => StatusMarker::Success,
            Some(WorkflowConclusion::Failure) => StatusMarker::Failure,
            None => StatusMarker::Unknown,
        },
    }
}

/// The short label shown for each marker.
pub open spec fn spec_label(m: StatusMarker) -> Seq<char> {
    match m {
        StatusMarker::Pending => "Pending"@,
        StatusMarker::Running => "Running"@,
        StatusMarker::Success => "Succeeded"@,
        StatusMarker::Failure => "Failed"@,
        StatusMarker::Unknown => "Unknown"@,
    }
}

/// The icon glyph shown for each marker.
pub open spec fn spec_icon(m: StatusMarker) -> Seq<char> {
    match m {
        StatusMarker::Pending => "⏳"@,
        StatusMarker::Running => "🔄"@,
        StatusMarker::Success => "✅"@,
        StatusMarker::Failure => "❌"@,
        StatusMarker::Unknown => "❔"@,
    }
}

/// Maps a run to its presentation state. Total: every combination of
/// `status` and `conclusion` yields a defined state, and the label is
/// exactly the table entry for the derived marker.
pub fn classify(run: &WorkflowRun) -> (state: PresentationState)
    ensures
        state.marker == spec_marker(run.status, run.conclusion),
        state.label@ == spec_label(state.marker),
{
    let (marker, label): (StatusMarker, &str) = match run.status {
        WorkflowStatus::Queued => (StatusMarker::Pending, "Pending"),
        WorkflowStatus::InProgress => (StatusMarker::Running, "Running"),
        WorkflowStatus::Completed => match run.conclusion {
            Some(WorkflowConclusion::Success) => (StatusMarker::Success, "Succeeded"),
            Some(WorkflowConclusion::Failure) => (StatusMarker::Failure, "Failed"),
            None => (StatusMarker::Unknown, "Unknown"),
        },
    };
    PresentationState { marker, label: label.to_owned() }
}

/// Renders a marker's icon glyph.
pub fn marker_icon(m: StatusMarker) -> (r: String)
    ensures
        r@ == spec_icon(m),
{
    match m {
        StatusMarker::Pending => "⏳".to_owned(),
        StatusMarker::Running => "🔄".to_owned(),
        StatusMarker::Success => "✅".to_owned(),
        StatusMarker::Failure => "❌".to_owned(),
        StatusMarker::Unknown => "❔".to_owned(),
    }
}

} // verus!
