use ci_notify::classify::{classify, marker_icon};
use ci_notify::duration::{duration_of, format_duration};
use ci_notify::model::{
    Actor, PresentationState, Repository, StatusMarker, WorkflowConclusion, WorkflowRun,
    WorkflowStatus,
};
use ci_notify::numfmt::u64_to_string;
use ci_notify::render::{render, render_message};

fn sample_run(
    status: WorkflowStatus,
    conclusion: Option<WorkflowConclusion>,
    started: Option<i64>,
    completed: Option<i64>,
) -> WorkflowRun {
    WorkflowRun {
        status,
        conclusion,
        name: "build".to_owned(),
        head_branch: "main".to_owned(),
        head_sha: "abc123".to_owned(),
        id: 42,
        repository: Repository {
            full_name: "org/repo".to_owned(),
            html_url: "https://example.test/org/repo".to_owned(),
        },
        actor: Actor { login: "alice".to_owned() },
        html_url: "https://example.test/org/repo/runs/42".to_owned(),
        run_started_at: started,
        completed_at: completed,
    }
}

fn count_occurrences(s: &str, sub: &str) -> usize {
    let mut count: usize = 0;
    let mut rest = s;
    while let Some(pos) = rest.find(sub) {
        count += 1;
        rest = &rest[pos + sub.len()..];
    }
    count
}

fn strip_tags(s: &str) -> String {
    let mut out = String::new();
    let mut inside = false;
    for c in s.chars() {
        if inside {
            if c == '>' {
                inside = false;
            }
        } else if c == '<' {
            inside = true;
        } else {
            out.push(c);
        }
    }
    out
}

#[test]
fn classify_queued() {
    let run = sample_run(WorkflowStatus::Queued, None, None, None);
    let state = classify(&run);
    assert!(state.marker == StatusMarker::Pending);
    assert_eq!(state.label, "Pending");
    assert_eq!(marker_icon(state.marker), "\u{23F3}");
}

#[test]
fn classify_in_progress() {
    let run = sample_run(WorkflowStatus::InProgress, None, None, None);
    let state = classify(&run);
    assert!(state.marker == StatusMarker::Running);
    assert_eq!(state.label, "Running");
    assert_eq!(marker_icon(state.marker), "\u{1F504}");
}

#[test]
fn classify_completed_success() {
    let run = sample_run(
        WorkflowStatus::Completed,
        Some(WorkflowConclusion::Success),
        None,
        None,
    );
    let state = classify(&run);
    assert!(state.marker == StatusMarker::Success);
    assert_eq!(state.label, "Succeeded");
    assert_eq!(marker_icon(state.marker), "\u{2705}");
}

#[test]
fn classify_completed_failure() {
    let run = sample_run(
        WorkflowStatus::Completed,
        Some(WorkflowConclusion::Failure),
        None,
        None,
    );
    let state = classify(&run);
    assert!(state.marker == StatusMarker::Failure);
    assert_eq!(state.label, "Failed");
    assert_eq!(marker_icon(state.marker), "\u{274C}");
}

#[test]
fn classify_completed_no_conclusion() {
    let run = sample_run(WorkflowStatus::Completed, None, None, None);
    let state = classify(&run);
    assert!(state.marker == StatusMarker::Unknown);
    assert_eq!(state.label, "Unknown");
    assert_eq!(marker_icon(state.marker), "\u{2754}");
}

#[test]
fn classify_is_total() {
    let statuses = [
        WorkflowStatus::Queued,
        WorkflowStatus::InProgress,
        WorkflowStatus::Completed,
    ];
    let conclusions = [
        None,
        Some(WorkflowConclusion::Success),
        Some(WorkflowConclusion::Failure),
    ];
    for status in statuses {
        for conclusion in conclusions {
            let run = sample_run(status, conclusion, None, None);
            let state = classify(&run);
            assert!(!state.label.is_empty());
        }
    }
    // Conclusion is ignored unless the run has completed.
    let run = sample_run(WorkflowStatus::Queued, Some(WorkflowConclusion::Failure), None, None);
    assert!(classify(&run).marker == StatusMarker::Pending);
}

#[test]
fn duration_125_seconds() {
    assert_eq!(format_duration(100, 225), "2m 5s");
}

#[test]
fn duration_59_seconds() {
    assert_eq!(format_duration(0, 59), "0m 59s");
}

#[test]
fn duration_60_seconds() {
    assert_eq!(format_duration(0, 60), "1m 0s");
}

#[test]
fn duration_zero_and_negative() {
    assert_eq!(format_duration(0, 0), "0m 0s");
    assert_eq!(format_duration(5, 0), "0m -5s");
    assert_eq!(format_duration(125, 0), "-2m -5s");
    assert_eq!(format_duration(60, 0), "-1m 0s");
}

#[test]
fn duration_extreme_timestamps() {
    assert_eq!(format_duration(i64::MIN, i64::MAX), "307445734561825860m 15s");
}

#[test]
fn duration_of_present_only_when_completed() {
    let done = sample_run(
        WorkflowStatus::Completed,
        Some(WorkflowConclusion::Success),
        Some(100),
        Some(225),
    );
    assert_eq!(duration_of(&done), Some("2m 5s".to_owned()));

    let running = sample_run(WorkflowStatus::InProgress, None, Some(100), Some(225));
    assert_eq!(duration_of(&running), None);

    let no_start = sample_run(
        WorkflowStatus::Completed,
        Some(WorkflowConclusion::Success),
        None,
        Some(225),
    );
    assert_eq!(duration_of(&no_start), None);

    let no_end = sample_run(
        WorkflowStatus::Completed,
        Some(WorkflowConclusion::Success),
        Some(100),
        None,
    );
    assert_eq!(duration_of(&no_end), None);
}

#[test]
fn duration_line_present_when_completed() {
    let run = sample_run(
        WorkflowStatus::Completed,
        Some(WorkflowConclusion::Success),
        Some(100),
        Some(225),
    );
    let msg = render_message(&run);
    assert!(msg.fallback_text.contains("\nDuration: 2m 5s"));
    assert!(msg.rich_text.contains("<strong>Duration:</strong> 2m 5s"));
}

#[test]
fn duration_omitted_when_not_completed() {
    let run = sample_run(WorkflowStatus::InProgress, None, Some(100), Some(225));
    let msg = render_message(&run);
    assert!(!msg.fallback_text.contains("Duration"));
    assert!(!msg.rich_text.contains("Duration"));
}

#[test]
fn duration_omitted_when_timestamp_missing() {
    let run = sample_run(
        WorkflowStatus::Completed,
        Some(WorkflowConclusion::Success),
        Some(100),
        None,
    );
    let msg = render_message(&run);
    assert!(!msg.fallback_text.contains("Duration"));
    assert!(!msg.rich_text.contains("Duration"));
}

#[test]
fn correlation_marker_exactly_once() {
    let run = sample_run(
        WorkflowStatus::Completed,
        Some(WorkflowConclusion::Success),
        Some(100),
        Some(225),
    );
    let msg = render_message(&run);
    assert_eq!(count_occurrences(&msg.fallback_text, "[ci-run:42]"), 1);
    assert_eq!(count_occurrences(&msg.rich_text, "[ci-run:42]"), 1);
}

#[test]
fn correlation_marker_every_status() {
    for status in [
        WorkflowStatus::Queued,
        WorkflowStatus::InProgress,
        WorkflowStatus::Completed,
    ] {
        let run = sample_run(status, None, None, None);
        let msg = render_message(&run);
        assert_eq!(count_occurrences(&msg.fallback_text, "[ci-run:42]"), 1);
        assert_eq!(count_occurrences(&msg.rich_text, "[ci-run:42]"), 1);
    }
}

#[test]
fn correlation_marker_duplicated_by_bracket_field() {
    // A field that itself holds the marker text defeats uniqueness; this is
    // why the uniqueness law asks for bracket-free fields.
    let mut run = sample_run(WorkflowStatus::Queued, None, None, None);
    run.name = "[ci-run:42]".to_owned();
    let msg = render_message(&run);
    assert_eq!(count_occurrences(&msg.fallback_text, "[ci-run:42]"), 2);
}

#[test]
fn duration_text_in_field_still_rendered() {
    // A field that itself holds the word excluded by the omission law is
    // rendered verbatim; the omission law therefore asks for fields free
    // of a capital D.
    let mut run = sample_run(WorkflowStatus::InProgress, None, None, None);
    run.head_branch = "Duration-fix".to_owned();
    let msg = render_message(&run);
    assert!(msg.fallback_text.contains("Duration-fix"));
    assert!(!msg.fallback_text.contains("Duration: "));
}

#[test]
fn content_parity_after_stripping_markup() {
    let run = sample_run(
        WorkflowStatus::Completed,
        Some(WorkflowConclusion::Failure),
        Some(0),
        Some(59),
    );
    let msg = render_message(&run);
    let stripped = strip_tags(&msg.rich_text);
    let fields = ["org/repo", "build", "main", "abc123", "alice"];
    let mut plain_pos: usize = 0;
    let mut rich_pos: usize = 0;
    for field in fields {
        let p = msg.fallback_text[plain_pos..].find(field).unwrap();
        plain_pos += p + field.len();
        let r = stripped[rich_pos..].find(field).unwrap();
        rich_pos += r + field.len();
    }
}

#[test]
fn end_to_end_success_example() {
    let run = sample_run(
        WorkflowStatus::Completed,
        Some(WorkflowConclusion::Success),
        None,
        None,
    );
    let msg = render_message(&run);
    assert!(msg.fallback_text.starts_with("\u{2705} CI Workflow Succeeded"));
    assert!(msg.fallback_text.ends_with("[ci-run:42]"));
    assert!(msg.rich_text.contains("<a href=\"https://example.test/org/repo/runs/42\">"));
    assert!(msg.rich_text.contains("<code>alice</code>"));
}

#[test]
fn end_to_end_unknown_example() {
    let run = sample_run(WorkflowStatus::Completed, None, None, None);
    let msg = render_message(&run);
    assert!(msg.fallback_text.contains("Unknown"));
    assert!(msg.rich_text.contains("Unknown"));
}

#[test]
fn full_message_exact() {
    let run = sample_run(
        WorkflowStatus::Completed,
        Some(WorkflowConclusion::Success),
        Some(100),
        Some(225),
    );
    let msg = render_message(&run);
    assert_eq!(
        msg.fallback_text,
        "\u{2705} CI Workflow Succeeded\n\
         Repo: org/repo\n\
         Workflow: build\n\
         Branch: main\n\
         Commit: abc123\n\
         Run: https://example.test/org/repo/runs/42\n\
         Actor: alice\n\
         Duration: 2m 5s\n\
         [ci-run:42]"
    );
    assert_eq!(
        msg.rich_text,
        "\u{2705} <strong>CI Workflow Succeeded</strong><br>\n\
         <strong>Repo:</strong> <a href=\"https://example.test/org/repo\"><code>org/repo</code></a><br>\n\
         <strong>Workflow:</strong> build<br>\n\
         <strong>Branch:</strong> main<br>\n\
         <strong>Commit:</strong> abc123<br>\n\
         <strong>Run:</strong> <a href=\"https://example.test/org/repo/runs/42\">https://example.test/org/repo/runs/42</a><br>\n\
         <strong>Actor:</strong> <code>alice</code><br>\n\
         <strong>Duration:</strong> 2m 5s<br>\n\
         <code>[ci-run:42]</code>"
    );
}

#[test]
fn render_uses_given_state_and_duration() {
    let run = sample_run(WorkflowStatus::Queued, None, None, None);
    let state = PresentationState {
        marker: StatusMarker::Pending,
        label: "Pending".to_owned(),
    };
    let msg = render(&run, &state, &None);
    assert!(msg.fallback_text.starts_with("\u{23F3} CI Workflow Pending\n"));
    assert!(!msg.fallback_text.contains("Duration"));
}

#[test]
fn u64_decimal_rendering() {
    assert_eq!(u64_to_string(0), "0");
    assert_eq!(u64_to_string(7), "7");
    assert_eq!(u64_to_string(10), "10");
    assert_eq!(u64_to_string(105), "105");
    assert_eq!(u64_to_string(u64::MAX), "18446744073709551615");
}
