//! Library-wide laws: facts about the rendered messages that hold for
//! every run, stated over the same spec functions the renderer's own
//! contracts use.

use vstd::prelude::*;
use crate::classify::{spec_icon, spec_label};
use crate::duration::{spec_duration_text, spec_run_duration, trunc_div_60};
use crate::model::{StatusMarker, WorkflowRun};
use crate::numfmt::{dec_str, lemma_dec_str_digits};
use crate::render::{
    spec_duration_plain, spec_duration_rich, spec_fallback_text, spec_marker_text, spec_rich_text,
};

verus! {

/// `sub` occurs in `s` starting at index `i`.
pub open spec fn occurs_at(s: Seq<char>, sub: Seq<char>, i: int) -> bool {
    0 <= i && i + sub.len() <= s.len() && s.subrange(i, i + sub.len()) == sub
}

/// `sub` occurs somewhere in `s`.
pub open spec fn has_substring(s: Seq<char>, sub: Seq<char>) -> bool {
    exists|i: int| occurs_at(s, sub, i)
}

/// `sub` occurs in `s` at exactly one position.
pub open spec fn occurs_exactly_once(s: Seq<char>, sub: Seq<char>) -> bool {
    has_substring(s, sub) && (forall|i: int, j: int|
        occurs_at(s, sub, i) && occurs_at(s, sub, j) ==> i == j)
}

/// `c` occurs somewhere in `s`.
pub open spec fn has_char(s: Seq<char>, c: char) -> bool
    decreases s.len(),
{
    if s.len() == 0 {
        false
    } else {
        s.last() == c || has_char(s.drop_last(), c)
    }
}

/// `c` occurs nowhere in `s`.
pub open spec fn char_free(s: Seq<char>, c: char) -> bool {
    !has_char(s, c)
}

/// `has_char` agrees with pointwise membership.
pub proof fn lemma_has_char_iff(s: Seq<char>, c: char)
    ensures
        has_char(s, c) <==> (exists|i: int| 0 <= i < s.len() && s[i] == c),
    decreases s.len(),
{
    if s.len() == 0 {
    } else {
        let t = s.drop_last();
        lemma_has_char_iff(t, c);
        if s.last() == c {
            assert(s[s.len() - 1] == c);
        } else if has_char(t, c) {
            let i = choose|i: int| 0 <= i < t.len() && t[i] == c;
            assert(s[i] == c);
        } else {
            assert forall|i: int| 0 <= i < s.len() implies s[i] != c by {
                if i < s.len() - 1 {
                    assert(t[i] == s[i]);
                }
            }
        }
    }
}

/// `has_char` distributes over concatenation.
pub broadcast proof fn lemma_has_char_concat(a: Seq<char>, b: Seq<char>, c: char)
    ensures
        #[trigger] has_char(a + b, c) == (has_char(a, c) || has_char(b, c)),
    decreases b.len(),
{
    if b.len() == 0 {
        assert(a + b =~= a);
    } else {
        lemma_has_char_concat(a, b.drop_last(), c);
        assert((a + b).drop_last() =~= a + b.drop_last());
        assert((a + b).last() == b.last());
    }
}

/// A string without `c` has no substring that starts with `c`.
pub proof fn lemma_char_free_no_substring(s: Seq<char>, sub: Seq<char>, c: char)
    requires
        sub.len() > 0,
        sub[0] == c,
        char_free(s, c),
    ensures
        !has_substring(s, sub),
{
    lemma_has_char_iff(s, c);
    assert forall|i: int| !occurs_at(s, sub, i) by {
        if 0 <= i && i + sub.len() <= s.len() {
            if s.subrange(i, i + sub.len()) == sub {
                assert(s.subrange(i, i + sub.len())[0] == s[i]);
                assert(s[i] == c);
                assert(false);
            }
        }
    }
}

/// A decimal rendering holds digits only.
pub proof fn lemma_dec_str_char_free(n: nat, c: char)
    requires
        !('0' <= c <= '9'),
    ensures
        char_free(dec_str(n), c),
{
    lemma_dec_str_digits(n);
    lemma_has_char_iff(dec_str(n), c);
}

/// The correlation marker holds only its own characters.
pub proof fn lemma_marker_text_char_free(id: nat, c: char)
    requires
        c != '[' && c != ']' && c != 'c' && c != 'i' && c != '-' && c != 'r' && c != 'u' && c != 'n'
            && c != ':' && !('0' <= c <= '9'),
    ensures
        char_free(spec_marker_text(id), c),
{
    broadcast use lemma_has_char_concat;

    reveal_strlit("[ci-run:");
    reveal_strlit("]");
    lemma_has_char_iff("[ci-run:"@, c);
    assert(forall|i: int| 0 <= i < "[ci-run:"@.len() ==> "[ci-run:"@[i] != c);
    lemma_has_char_iff("]"@, c);
    assert(forall|i: int| 0 <= i < "]"@.len() ==> "]"@[i] != c);
    lemma_dec_str_char_free(id, c);
}

/// A signed decimal rendering holds digits and at most a minus sign.
proof fn lemma_int_str_char_free(i: int, c: char)
    requires
        c != '-' && !('0' <= c <= '9'),
    ensures
        char_free(crate::duration::int_str(i), c),
{
    broadcast use lemma_has_char_concat;

    if i >= 0 {
        lemma_dec_str_char_free(i as nat, c);
    } else {
        lemma_dec_str_char_free((-i) as nat, c);
        lemma_has_char_iff(seq!['-'], c);
        assert(seq!['-'][0] == '-');
    }
}

/// A duration text holds only digits, a minus sign, and `m`/`s` markers.
pub proof fn lemma_duration_text_char_free(start: int, end: int, c: char)
    requires
        c != '-' && c != 'm' && c != ' ' && c != 's' && !('0' <= c <= '9'),
    ensures
        char_free(spec_duration_text(start, end), c),
{
    broadcast use lemma_has_char_concat;

    reveal_strlit("m ");
    reveal_strlit("s");
    lemma_has_char_iff("m "@, c);
    assert(forall|i: int| 0 <= i < "m "@.len() ==> "m "@[i] != c);
    lemma_has_char_iff("s"@, c);
    assert(forall|i: int| 0 <= i < "s"@.len() ==> "s"@[i] != c);
    let t = end - start;
    lemma_int_str_char_free(trunc_div_60(t), c);
    lemma_int_str_char_free(t - trunc_div_60(t) * 60, c);
}

/// The fixed texts of the plain template, the labels and the icons hold
/// none of the characters outside their own small alphabet.
pub(crate) proof fn lemma_plain_texts_char_free(c: char)
    requires
        c != ' ' && c != '\n' && c != ':' && c != 'A' && c != 'B' && c != 'C' && c != 'F'
            && c != 'I' && c != 'P' && c != 'R' && c != 'S' && c != 'U' && c != 'W' && c != 'a'
            && c != 'c' && c != 'd' && c != 'e' && c != 'f' && c != 'g' && c != 'h' && c != 'i'
            && c != 'k' && c != 'l' && c != 'm' && c != 'n' && c != 'o' && c != 'p' && c != 'r'
            && c != 't' && c != 'u' && c != 'w' && c != '\u{23F3}' && c != '\u{1F504}'
            && c != '\u{2705}' && c != '\u{274C}' && c != '\u{2754}',
    ensures
        char_free(" CI Workflow "@, c),
        char_free("\nRepo: "@, c),
        char_free("\nWorkflow: "@, c),
        char_free("\nBranch: "@, c),
        char_free("\nCommit: "@, c),
        char_free("\nRun: "@, c),
        char_free("\nActor: "@, c),
        char_free("\n"@, c),
        forall|m: StatusMarker| char_free(#[trigger] spec_label(m), c),
        forall|m: StatusMarker| char_free(#[trigger] spec_icon(m), c),
{
    reveal_strlit(" CI Workflow ");
    lemma_has_char_iff(" CI Workflow "@, c);
    assert(forall|i: int| 0 <= i < " CI Workflow "@.len() ==> " CI Workflow "@[i] != c);
    reveal_strlit("\nRepo: ");
    lemma_has_char_iff("\nRepo: "@, c);
    assert(forall|i: int| 0 <= i < "\nRepo: "@.len() ==> "\nRepo: "@[i] != c);
    reveal_strlit("\nWorkflow: ");
    lemma_has_char_iff("\nWorkflow: "@, c);
    assert(forall|i: int| 0 <= i < "\nWorkflow: "@.len() ==> "\nWorkflow: "@[i] != c);
    reveal_strlit("\nBranch: ");
    lemma_has_char_iff("\nBranch: "@, c);
    assert(forall|i: int| 0 <= i < "\nBranch: "@.len() ==> "\nBranch: "@[i] != c);
    reveal_strlit("\nCommit: ");
    lemma_has_char_iff("\nCommit: "@, c);
    assert(forall|i: int| 0 <= i < "\nCommit: "@.len() ==> "\nCommit: "@[i] != c);
    reveal_strlit("\nRun: ");
    lemma_has_char_iff("\nRun: "@, c);
    assert(forall|i: int| 0 <= i < "\nRun: "@.len() ==> "\nRun: "@[i] != c);
    reveal_strlit("\nActor: ");
    lemma_has_char_iff("\nActor: "@, c);
    assert(forall|i: int| 0 <= i < "\nActor: "@.len() ==> "\nActor: "@[i] != c);
    reveal_strlit("\n");
    lemma_has_char_iff("\n"@, c);
    assert(forall|i: int| 0 <= i < "\n"@.len() ==> "\n"@[i] != c);
    reveal_strlit("Pending");
    lemma_has_char_iff("Pending"@, c);
    assert(forall|i: int| 0 <= i < "Pending"@.len() ==> "Pending"@[i] != c);
    reveal_strlit("Running");
    lemma_has_char_iff("Running"@, c);
    assert(forall|i: int| 0 <= i < "Running"@.len() ==> "Running"@[i] != c);
    reveal_strlit("Succeeded");
    lemma_has_char_iff("Succeeded"@, c);
    assert(forall|i: int| 0 <= i < "Succeeded"@.len() ==> "Succeeded"@[i] != c);
    reveal_strlit("Failed");
    lemma_has_char_iff("Failed"@, c);
    assert(forall|i: int| 0 <= i < "Failed"@.len() ==> "Failed"@[i] != c);
    reveal_strlit("Unknown");
    lemma_has_char_iff("Unknown"@, c);
    assert(forall|i: int| 0 <= i < "Unknown"@.len() ==> "Unknown"@[i] != c);
    reveal_strlit("⏳");
    lemma_has_char_iff("⏳"@, c);
    assert(forall|i: int| 0 <= i < "⏳"@.len() ==> "⏳"@[i] != c);
    reveal_strlit("🔄");
    lemma_has_char_iff("🔄"@, c);
    assert(forall|i: int| 0 <= i < "🔄"@.len() ==> "🔄"@[i] != c);
    reveal_strlit("✅");
    lemma_has_char_iff("✅"@, c);
    assert(forall|i: int| 0 <= i < "✅"@.len() ==> "✅"@[i] != c);
    reveal_strlit("❌");
    lemma_has_char_iff("❌"@, c);
    assert(forall|i: int| 0 <= i < "❌"@.len() ==> "❌"@[i] != c);
    reveal_strlit("❔");
    lemma_has_char_iff("❔"@, c);
    assert(forall|i: int| 0 <= i < "❔"@.len() ==> "❔"@[i] != c);
    assert forall|m: StatusMarker| char_free(#[trigger] spec_label(m), c) by {
        match m {
            StatusMarker::Pending => assert(spec_label(m) == "Pending"@),
            StatusMarker::Running => assert(spec_label(m) == "Running"@),
            StatusMarker::Success => assert(spec_label(m) == "Succeeded"@),
            StatusMarker::Failure => assert(spec_label(m) == "Failed"@),
            StatusMarker::Unknown => assert(spec_label(m) == "Unknown"@),
        }
    }
    assert forall|m: StatusMarker| char_free(#[trigger] spec_icon(m), c) by {
        match m {
            StatusMarker::Pending => assert(spec_icon(m) == "⏳"@),
            StatusMarker::Running => assert(spec_icon(m) == "🔄"@),
            StatusMarker::Success => assert(spec_icon(m) == "✅"@),
            StatusMarker::Failure => assert(spec_icon(m) == "❌"@),
            StatusMarker::Unknown => assert(spec_icon(m) == "❔"@),
        }
    }
}

/// The fixed texts peculiar to the rich template hold none of the
/// characters outside their own small alphabet.
proof fn lemma_rich_texts_char_free(c: char)
    requires
        c != ' ' && c != '\n' && c != '"' && c != '/' && c != ':' && c != '<' && c != '='
            && c != '>' && c != 'A' && c != 'B' && c != 'C' && c != 'I' && c != 'R' && c != 'W'
            && c != 'a' && c != 'b' && c != 'c' && c != 'd' && c != 'e' && c != 'f' && c != 'g'
            && c != 'h' && c != 'i' && c != 'k' && c != 'l' && c != 'm' && c != 'n' && c != 'o'
            && c != 'p' && c != 'r' && c != 's' && c != 't' && c != 'u' && c != 'w',
    ensures
        char_free(" <strong>CI Workflow "@, c),
        char_free("</strong>"@, c),
        char_free("<br>\n<strong>Repo:</strong> <a href=\""@, c),
        char_free("\"><code>"@, c),
        char_free("</code></a>"@, c),
        char_free("<br>\n<strong>Workflow:</strong> "@, c),
        char_free("<br>\n<strong>Branch:</strong> "@, c),
        char_free("<br>\n<strong>Commit:</strong> "@, c),
        char_free("<br>\n<strong>Run:</strong> <a href=\""@, c),
        char_free("\">"@, c),
        char_free("</a>"@, c),
        char_free("<br>\n<strong>Actor:</strong> <code>"@, c),
        char_free("</code>"@, c),
        char_free("<br>\n<code>"@, c),
{
    reveal_strlit(" <strong>CI Workflow ");
    lemma_has_char_iff(" <strong>CI Workflow "@, c);
    assert(forall|i: int|
        0 <= i < " <strong>CI Workflow "@.len() ==> " <strong>CI Workflow "@[i] != c);
    reveal_strlit("</strong>");
    lemma_has_char_iff("</strong>"@, c);
    assert(forall|i: int| 0 <= i < "</strong>"@.len() ==> "</strong>"@[i] != c);
    reveal_strlit("<br>\n<strong>Repo:</strong> <a href=\"");
    lemma_has_char_iff("<br>\n<strong>Repo:</strong> <a href=\""@, c);
    assert(forall|i: int|
        0 <= i < "<br>\n<strong>Repo:</strong> <a href=\""@.len()
            ==> "<br>\n<strong>Repo:</strong> <a href=\""@[i] != c);
    reveal_strlit("\"><code>");
    lemma_has_char_iff("\"><code>"@, c);
    assert(forall|i: int| 0 <= i < "\"><code>"@.len() ==> "\"><code>"@[i] != c);
    reveal_strlit("</code></a>");
    lemma_has_char_iff("</code></a>"@, c);
    assert(forall|i: int| 0 <= i < "</code></a>"@.len() ==> "</code></a>"@[i] != c);
    reveal_strlit("<br>\n<strong>Workflow:</strong> ");
    lemma_has_char_iff("<br>\n<strong>Workflow:</strong> "@, c);
    assert(forall|i: int|
        0 <= i < "<br>\n<strong>Workflow:</strong> "@.len()
            ==> "<br>\n<strong>Workflow:</strong> "@[i] != c);
    reveal_strlit("<br>\n<strong>Branch:</strong> ");
    lemma_has_char_iff("<br>\n<strong>Branch:</strong> "@, c);
    assert(forall|i: int|
        0 <= i < "<br>\n<strong>Branch:</strong> "@.len()
            ==> "<br>\n<strong>Branch:</strong> "@[i] != c);
    reveal_strlit("<br>\n<strong>Commit:</strong> ");
    lemma_has_char_iff("<br>\n<strong>Commit:</strong> "@, c);
    assert(forall|i: int|
        0 <= i < "<br>\n<strong>Commit:</strong> "@.len()
            ==> "<br>\n<strong>Commit:</strong> "@[i] != c);
    reveal_strlit("<br>\n<strong>Run:</strong> <a href=\"");
    lemma_has_char_iff("<br>\n<strong>Run:</strong> <a href=\""@, c);
    assert(forall|i: int|
        0 <= i < "<br>\n<strong>Run:</strong> <a href=\""@.len()
            ==> "<br>\n<strong>Run:</strong> <a href=\""@[i] != c);
    reveal_strlit("\">");
    lemma_has_char_iff("\">"@, c);
    assert(forall|i: int| 0 <= i < "\">"@.len() ==> "\">"@[i] != c);
    reveal_strlit("</a>");
    lemma_has_char_iff("</a>"@, c);
    assert(forall|i: int| 0 <= i < "</a>"@.len() ==> "</a>"@[i] != c);
    reveal_strlit("<br>\n<strong>Actor:</strong> <code>");
    lemma_has_char_iff("<br>\n<strong>Actor:</strong> <code>"@, c);
    assert(forall|i: int|
        0 <= i < "<br>\n<strong>Actor:</strong> <code>"@.len()
            ==> "<br>\n<strong>Actor:</strong> <code>"@[i] != c);
    reveal_strlit("</code>");
    lemma_has_char_iff("</code>"@, c);
    assert(forall|i: int| 0 <= i < "</code>"@.len() ==> "</code>"@[i] != c);
    reveal_strlit("<br>\n<code>");
    lemma_has_char_iff("<br>\n<code>"@, c);
    assert(forall|i: int| 0 <= i < "<br>\n<code>"@.len() ==> "<br>\n<code>"@[i] != c);
}

/// The fixed duration texts hold none of the characters outside their own
/// small alphabet.
proof fn lemma_duration_label_char_free(c: char)
    requires
        c != ' ' && c != '\n' && c != ':' && c != '<' && c != '>' && c != '/' && c != 'D'
            && c != 'a' && c != 'b' && c != 'g' && c != 'i' && c != 'n' && c != 'o' && c != 'r'
            && c != 's' && c != 't' && c != 'u',
    ensures
        char_free("\nDuration: "@, c),
        char_free("<br>\n<strong>Duration:</strong> "@, c),
{
    reveal_strlit("\nDuration: ");
    lemma_has_char_iff("\nDuration: "@, c);
    assert(forall|i: int| 0 <= i < "\nDuration: "@.len() ==> "\nDuration: "@[i] != c);
    reveal_strlit("<br>\n<strong>Duration:</strong> ");
    lemma_has_char_iff("<br>\n<strong>Duration:</strong> "@, c);
    assert(forall|i: int|
        0 <= i < "<br>\n<strong>Duration:</strong> "@.len()
            ==> "<br>\n<strong>Duration:</strong> "@[i] != c);
}

/// In `prefix + marker + tail` with `[`-free `prefix` and `tail`, the
/// marker occurs exactly once.
proof fn lemma_unique_occurrence(s: Seq<char>, prefix: Seq<char>, id: nat, tail: Seq<char>)
    requires
        s == prefix + spec_marker_text(id) + tail,
        char_free(prefix, '['),
        char_free(tail, '['),
    ensures
        occurs_exactly_once(s, spec_marker_text(id)),
{
    let marker = spec_marker_text(id);
    reveal_strlit("[ci-run:");
    reveal_strlit("]");
    let k = prefix.len() as int;
    assert(s.subrange(k, k + marker.len()) =~= marker);
    assert(occurs_at(s, marker, k));
    assert(marker[0] == '[');
    lemma_dec_str_char_free(id, '[');
    lemma_has_char_iff(dec_str(id), '[');
    lemma_has_char_iff(prefix, '[');
    lemma_has_char_iff(tail, '[');
    assert(forall|p: int| 1 <= p < "[ci-run:"@.len() ==> "[ci-run:"@[p] != '[');
    assert("]"@[0] != '[');
    assert forall|i: int| 0 <= i < s.len() && s[i] == '[' implies i == k by {
        if i < k {
            assert(s[i] == prefix[i]);
        } else if i < k + 8 {
            assert(s[i] == "[ci-run:"@[i - k]);
        } else if i < k + 8 + dec_str(id).len() {
            assert(s[i] == dec_str(id)[i - k - 8]);
        } else if i < k + marker.len() {
            assert(s[i] == "]"@[i - k - 8 - dec_str(id).len()]);
        } else {
            assert(s[i] == tail[i - k - marker.len()]);
        }
    }
    assert forall|i: int, j: int| occurs_at(s, marker, i) && occurs_at(s, marker, j) implies i
        == j by {
        assert(s.subrange(i, i + marker.len())[0] == s[i]);
        assert(s.subrange(j, j + marker.len())[0] == s[j]);
        assert(s[i] == '[' && s[j] == '[');
    }
}

/// Both message bodies contain the correlation marker `[ci-run:<id>]`
/// of the run they were rendered from, whatever the run's fields hold.
pub proof fn lemma_marker_present(run: WorkflowRun, m: StatusMarker, d: Option<Seq<char>>)
    ensures
        has_substring(spec_fallback_text(run, m, d), spec_marker_text(run.id as nat)),
        has_substring(spec_rich_text(run, m, d), spec_marker_text(run.id as nat)),
{
    let marker = spec_marker_text(run.id as nat);
    let f = spec_fallback_text(run, m, d);
    let fp = f.len() - marker.len();
    assert(f.subrange(fp, fp + marker.len()) =~= marker);
    assert(occurs_at(f, marker, fp));

    let r = spec_rich_text(run, m, d);
    reveal_strlit("</code>");
    let rp = r.len() - marker.len() - "</code>"@.len();
    assert(r.subrange(rp, rp + marker.len()) =~= marker);
    assert(occurs_at(r, marker, rp));
}

/// Both message bodies contain the correlation marker `[ci-run:<id>]`
/// exactly once, for every run whose descriptive fields (and given
/// duration text) are free of the opening bracket `[`.
pub proof fn lemma_marker_exactly_once(run: WorkflowRun, m: StatusMarker, d: Option<Seq<char>>)
    requires
        char_free(run.name@, '['),
        char_free(run.head_branch@, '['),
        char_free(run.head_sha@, '['),
        char_free(run.repository.full_name@, '['),
        char_free(run.repository.html_url@, '['),
        char_free(run.actor.login@, '['),
        char_free(run.html_url@, '['),
        d is Some ==> char_free(d->0, '['),
    ensures
        occurs_exactly_once(spec_fallback_text(run, m, d), spec_marker_text(run.id as nat)),
        occurs_exactly_once(spec_rich_text(run, m, d), spec_marker_text(run.id as nat)),
{
    broadcast use lemma_has_char_concat;

    lemma_plain_texts_char_free('[');
    lemma_rich_texts_char_free('[');
    lemma_duration_label_char_free('[');
    match d {
        Some(t) => {
            assert(char_free(spec_duration_plain(d), '['));
            assert(char_free(spec_duration_rich(d), '['));
        },
        None => {
            assert(char_free(spec_duration_plain(d), '['));
            assert(char_free(spec_duration_rich(d), '['));
        },
    }

    let id = run.id as nat;
    let fprefix = spec_icon(m) + " CI Workflow "@ + spec_label(m) + "\nRepo: "@
        + run.repository.full_name@ + "\nWorkflow: "@ + run.name@ + "\nBranch: "@
        + run.head_branch@ + "\nCommit: "@ + run.head_sha@ + "\nRun: "@ + run.html_url@
        + "\nActor: "@ + run.actor.login@ + spec_duration_plain(d) + "\n"@;
    let f = spec_fallback_text(run, m, d);
    assert(f == fprefix + spec_marker_text(id));
    assert(f =~= fprefix + spec_marker_text(id) + Seq::<char>::empty());
    assert(char_free(fprefix, '['));
    assert(char_free(Seq::<char>::empty(), '['));
    lemma_unique_occurrence(f, fprefix, id, Seq::<char>::empty());

    let rprefix = spec_icon(m) + " <strong>CI Workflow "@ + spec_label(m) + "</strong>"@
        + "<br>\n<strong>Repo:</strong> <a href=\""@ + run.repository.html_url@ + "\"><code>"@
        + run.repository.full_name@ + "</code></a>"@ + "<br>\n<strong>Workflow:</strong> "@
        + run.name@ + "<br>\n<strong>Branch:</strong> "@ + run.head_branch@
        + "<br>\n<strong>Commit:</strong> "@ + run.head_sha@
        + "<br>\n<strong>Run:</strong> <a href=\""@ + run.html_url@ + "\">"@ + run.html_url@
        + "</a>"@ + "<br>\n<strong>Actor:</strong> <code>"@ + run.actor.login@ + "</code>"@
        + spec_duration_rich(d) + "<br>\n<code>"@;
    let r = spec_rich_text(run, m, d);
    assert(r == rprefix + spec_marker_text(id) + "</code>"@);
    assert(char_free(rprefix, '['));
    assert(char_free("</code>"@, '['));
    lemma_unique_occurrence(r, rprefix, id, "</code>"@);
}

/// The message bodies that `render_message` produces contain the run's
/// correlation marker exactly once, for every run whose descriptive
/// fields are free of the opening bracket `[`.
pub proof fn lemma_message_marker_exactly_once(run: WorkflowRun, m: StatusMarker)
    requires
        char_free(run.name@, '['),
        char_free(run.head_branch@, '['),
        char_free(run.head_sha@, '['),
        char_free(run.repository.full_name@, '['),
        char_free(run.repository.html_url@, '['),
        char_free(run.actor.login@, '['),
        char_free(run.html_url@, '['),
    ensures
        occurs_exactly_once(
            spec_fallback_text(run, m, spec_run_duration(run)),
            spec_marker_text(run.id as nat),
        ),
        occurs_exactly_once(
            spec_rich_text(run, m, spec_run_duration(run)),
            spec_marker_text(run.id as nat),
        ),
{
    let d = spec_run_duration(run);
    if d is Some {
        lemma_duration_text_char_free(
            run.run_started_at->0 as int,
            run.completed_at->0 as int,
            '[',
        );
    }
    lemma_marker_exactly_once(run, m, d);
}

/// When a run has not completed, or either timestamp is absent, no duration
/// is rendered: neither body contains the text `Duration` at all, for every
/// run whose descriptive fields are free of the capital letter `D`.
pub proof fn lemma_no_duration_line(run: WorkflowRun, m: StatusMarker)
    requires
        !(run.status is Completed) || run.run_started_at is None || run.completed_at is None,
        char_free(run.name@, 'D'),
        char_free(run.head_branch@, 'D'),
        char_free(run.head_sha@, 'D'),
        char_free(run.repository.full_name@, 'D'),
        char_free(run.repository.html_url@, 'D'),
        char_free(run.actor.login@, 'D'),
        char_free(run.html_url@, 'D'),
    ensures
        spec_run_duration(run) is None,
        !has_substring(spec_fallback_text(run, m, spec_run_duration(run)), "Duration"@),
        !has_substring(spec_rich_text(run, m, spec_run_duration(run)), "Duration"@),
{
    broadcast use lemma_has_char_concat;

    lemma_plain_texts_char_free('D');
    lemma_rich_texts_char_free('D');
    lemma_marker_text_char_free(run.id as nat, 'D');
    let d = spec_run_duration(run);
    assert(char_free(spec_duration_plain(d), 'D'));
    assert(char_free(spec_duration_rich(d), 'D'));
    let f = spec_fallback_text(run, m, d);
    let r = spec_rich_text(run, m, d);
    assert(char_free(f, 'D'));
    assert(char_free(r, 'D'));
    reveal_strlit("Duration");
    lemma_char_free_no_substring(f, "Duration"@, 'D');
    lemma_char_free_no_substring(r, "Duration"@, 'D');
}

} // verus!
