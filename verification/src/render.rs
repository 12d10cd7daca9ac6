//! The dual-format message renderer: one fixed field order, serialized
//! twice — once as plain newline-separated text, once with markup and
//! hyperlinks — both ending in the correlation marker `[ci-run:<id>]`.

use vstd::prelude::*;
use vstd::string::StringExecFns;
use crate::classify::{classify, marker_icon, spec_icon, spec_label, spec_marker};
use crate::duration::{duration_of, spec_run_duration};
use crate::model::{PresentationState, RenderedMessage, StatusMarker, WorkflowRun};
use crate::numfmt::{dec_str, u64_to_string};

verus! {

/// The correlation marker for run `id`: `[ci-run:<id>]`.
pub open spec fn spec_marker_text(id: nat) -> Seq<char> {
    "[ci-run:"@ + dec_str(id) + "]"@
}

/// The duration field of the plain form: a whole line, or nothing at all.
pub open spec fn spec_duration_plain(d: Option<Seq<char>>) -> Seq<char> {
    match d {
        Some(t) => "\nDuration: "@ + t,
        None => Seq::empty(),
    }
}

/// The duration field of the rich form: a whole line, or nothing at all.
pub open spec fn spec_duration_rich(d: Option<Seq<char>>) -> Seq<char> {
    match d {
        Some(t) => "<br>\n<strong>Duration:</strong> "@ + t,
        None => Seq::empty(),
    }
}

/// The plain fallback body: header, then one line per field in fixed
/// order, the duration line only when a duration is given, and the
/// correlation marker last.
pub open spec fn spec_fallback_text(run: WorkflowRun, m: StatusMarker, d: Option<Seq<char>>) -> Seq<
    char,
> {
    spec_icon(m) + " CI Workflow "@ + spec_label(m) + "\nRepo: "@ + run.repository.full_name@
        + "\nWorkflow: "@ + run.name@ + "\nBranch: "@ + run.head_branch@ + "\nCommit: "@
        + run.head_sha@ + "\nRun: "@ + run.html_url@ + "\nActor: "@ + run.actor.login@
        + spec_duration_plain(d) + "\n"@ + spec_marker_text(run.id as nat)
}

/// The rich body: the same fields in the same order, with the header in
/// emphasis, repository and run as hyperlinks, the actor and the
/// correlation marker as inline code.
pub open spec fn spec_rich_text(run: WorkflowRun, m: StatusMarker, d: Option<Seq<char>>) -> Seq<
    char,
> {
    spec_icon(m) + " <strong>CI Workflow "@ + spec_label(m) + "</strong>"@
        + "<br>\n<strong>Repo:</strong> <a href=\""@ + run.repository.html_url@ + "\"><code>"@
        + run.repository.full_name@ + "</code></a>"@ + "<br>\n<strong>Workflow:</strong> "@
        + run.name@ + "<br>\n<strong>Branch:</strong> "@ + run.head_branch@
        + "<br>\n<strong>Commit:</strong> "@ + run.head_sha@
        + "<br>\n<strong>Run:</strong> <a href=\""@ + run.html_url@ + "\">"@ + run.html_url@
        + "</a>"@ + "<br>\n<strong>Actor:</strong> <code>"@ + run.actor.login@ + "</code>"@
        + spec_duration_rich(d) + "<br>\n<code>"@ + spec_marker_text(run.id as nat) + "</code>"@
}

/// The duration argument as the spec sees it.
pub open spec fn spec_duration_view(d: Option<String>) -> Option<Seq<char>> {
    match d {
        Some(t) => Some(t@),
        None => None,
    }
}

/// Renders the two message bodies for a run, given its presentation state
/// and an already formatted duration. Pure and total; the outputs are
/// exactly the two fixed templates over the run's fields.
pub fn render(run: &WorkflowRun, state: &PresentationState, duration: &Option<String>) -> (msg:
    RenderedMessage)
    requires
        state.label@ == spec_label(state.marker),
    ensures
        msg.fallback_text@ == spec_fallback_text(*run, state.marker, spec_duration_view(*duration)),
        msg.rich_text@ == spec_rich_text(*run, state.marker, spec_duration_view(*duration)),
{
    let icon = marker_icon(state.marker);
    let id_text = u64_to_string(run.id);

    let mut f = String::new();
    f.append(icon.as_str());
    f.append(" CI Workflow ");
    f.append(state.label.as_str());
    f.append("\nRepo: ");
    f.append(run.repository.full_name.as_str());
    f.append("\nWorkflow: ");
    f.append(run.name.as_str());
    f.append("\nBranch: ");
    f.append(run.head_branch.as_str());
    f.append("\nCommit: ");
    f.append(run.head_sha.as_str());
    f.append("\nRun: ");
    f.append(run.html_url.as_str());
    f.append("\nActor: ");
    f.append(run.actor.login.as_str());
    match duration {
        Some(d) => {
            f.append("\nDuration: ");
            f.append(d.as_str());
        },
        None => {},
    }
    f.append("\n[ci-run:");
    f.append(id_text.as_str());
    f.append("]");

    let mut r = String::new();
    r.append(icon.as_str());
    r.append(" <strong>CI Workflow ");
    r.append(state.label.as_str());
    r.append("</strong>");
    r.append("<br>\n<strong>Repo:</strong> <a href=\"");
    r.append(run.repository.html_url.as_str());
    r.append("\"><code>");
    r.append(run.repository.full_name.as_str());
    r.append("</code></a>");
    r.append("<br>\n<strong>Workflow:</strong> ");
    r.append(run.name.as_str());
    r.append("<br>\n<strong>Branch:</strong> ");
    r.append(run.head_branch.as_str());
    r.append("<br>\n<strong>Commit:</strong> ");
    r.append(run.head_sha.as_str());
    r.append("<br>\n<strong>Run:</strong> <a href=\"");
    r.append(run.html_url.as_str());
    r.append("\">");
    r.append(run.html_url.as_str());
    r.append("</a>");
    r.append("<br>\n<strong>Actor:</strong> <code>");
    r.append(run.actor.login.as_str());
    r.append("</code>");
    match duration {
        Some(d) => {
            r.append("<br>\n<strong>Duration:</strong> ");
            r.append(d.as_str());
        },
        None => {},
    }
    r.append("<br>\n<code>[ci-run:");
    r.append(id_text.as_str());
    r.append("]</code>");

    proof {
        reveal_strlit("\n[ci-run:");
        reveal_strlit("\n");
        reveal_strlit("[ci-run:");
        reveal_strlit("]");
        reveal_strlit("<br>\n<code>[ci-run:");
        reveal_strlit("<br>\n<code>");
        reveal_strlit("]</code>");
        reveal_strlit("</code>");
        assert("\n[ci-run:"@ =~= "\n"@ + "[ci-run:"@);
        assert("<br>\n<code>[ci-run:"@ =~= "<br>\n<code>"@ + "[ci-run:"@);
        assert("]</code>"@ =~= "]"@ + "</code>"@);
        assert(f@ =~= spec_fallback_text(*run, state.marker, spec_duration_view(*duration)));
        assert(r@ =~= spec_rich_text(*run, state.marker, spec_duration_view(*duration)));
    }
    RenderedMessage { fallback_text: f, rich_text: r }
}

/// Classifies a run, derives its duration, and renders both message
/// bodies: the whole pure core in one call.
pub fn render_message(run: &WorkflowRun) -> (msg: RenderedMessage)
    ensures
        msg.fallback_text@ == spec_fallback_text(
            *run,
            spec_marker(run.status, run.conclusion),
            spec_run_duration(*run),
        ),
        msg.rich_text@ == spec_rich_text(
            *run,
            spec_marker(run.status, run.conclusion),
            spec_run_duration(*run),
        ),
{
    let state = classify(run);
    let duration = duration_of(run);
    let msg = render(run, &state, &duration);
    proof {
        assert(spec_duration_view(duration) == spec_run_duration(*run));
    }
    msg
}

} // verus!
