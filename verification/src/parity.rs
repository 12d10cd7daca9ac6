//! Content parity between the two message forms: stripping the markup
//! tags from the rich body yields exactly the plain fallback body.

use vstd::prelude::*;
use crate::classify::{spec_icon, spec_label};
use crate::laws::{char_free, lemma_has_char_iff, lemma_marker_text_char_free,
    lemma_plain_texts_char_free};
use crate::model::{StatusMarker, WorkflowRun};
use crate::render::{
    spec_duration_plain, spec_duration_rich, spec_fallback_text, spec_marker_text, spec_rich_text,
};

verus! {

/// The text left of `s` after dropping every `<`..`>` region, starting
/// inside a tag when `inside` holds.
pub open spec fn strip_from(s: Seq<char>, inside: bool) -> Seq<char>
    decreases s.len(),
{
    if s.len() == 0 {
        Seq::empty()
    } else if inside {
        if s[0] == '>' {
            strip_from(s.drop_first(), false)
        } else {
            strip_from(s.drop_first(), true)
        }
    } else {
        if s[0] == '<' {
            strip_from(s.drop_first(), true)
        } else {
            seq![s[0]] + strip_from(s.drop_first(), false)
        }
    }
}

/// The text of `s` outside its markup tags.
pub open spec fn strip_tags(s: Seq<char>) -> Seq<char> {
    strip_from(s, false)
}

/// Whether a scan of `s` that begins inside a tag when `inside` holds
/// ends inside a tag.
pub open spec fn tag_state(s: Seq<char>, inside: bool) -> bool
    decreases s.len(),
{
    if s.len() == 0 {
        inside
    } else {
        tag_state(
            s.drop_first(),
            if inside {
                s[0] != '>'
            } else {
                s[0] == '<'
            },
        )
    }
}

/// `s` holds neither markup delimiter.
pub open spec fn angle_free(s: Seq<char>) -> bool {
    forall|i: int| 0 <= i < s.len() ==> s[i] != '<' && s[i] != '>'
}

/// Stripping distributes over concatenation, threading the tag state.
pub proof fn lemma_strip_concat(a: Seq<char>, b: Seq<char>, st: bool)
    ensures
        strip_from(a + b, st) == strip_from(a, st) + strip_from(b, tag_state(a, st)),
        tag_state(a + b, st) == tag_state(b, tag_state(a, st)),
    decreases a.len(),
{
    if a.len() == 0 {
        assert(a + b =~= b);
        assert(strip_from(a, st) + strip_from(b, st) =~= strip_from(b, st));
    } else {
        let st2 = if st {
            a[0] != '>'
        } else {
            a[0] == '<'
        };
        lemma_strip_concat(a.drop_first(), b, st2);
        assert((a + b).drop_first() =~= a.drop_first() + b);
        if !st && a[0] != '<' {
            assert(strip_from(a + b, st) =~= seq![a[0]] + strip_from(a.drop_first() + b, false));
            assert(strip_from(a, st) + strip_from(b, tag_state(a, st)) =~= seq![a[0]] + (
            strip_from(a.drop_first(), false) + strip_from(b, tag_state(a, st))));
        }
    }
}

/// Text without markup delimiters passes through a scan unchanged.
pub proof fn lemma_strip_text(s: Seq<char>)
    requires
        angle_free(s),
    ensures
        strip_from(s, false) == s,
        tag_state(s, false) == false,
    decreases s.len(),
{
    if s.len() > 0 {
        lemma_strip_text(s.drop_first());
        assert(seq![s[0]] + s.drop_first() =~= s);
    }
}

/// Inside a tag, text without a closing delimiter is dropped whole.
pub proof fn lemma_strip_inside(s: Seq<char>)
    requires
        forall|i: int| 0 <= i < s.len() ==> s[i] != '>',
    ensures
        strip_from(s, true) == Seq::<char>::empty(),
        tag_state(s, true) == true,
    decreases s.len(),
{
    if s.len() > 0 {
        lemma_strip_inside(s.drop_first());
    }
}

/// A lone closing delimiter ends the tag and leaves no text.
proof fn lemma_strip_gt()
    ensures
        strip_from(seq!['>'], true) == Seq::<char>::empty(),
        tag_state(seq!['>'], true) == false,
{
    reveal_with_fuel(strip_from, 3);
    reveal_with_fuel(tag_state, 3);
    assert(seq!['>'].drop_first() =~= Seq::<char>::empty());
}

/// A complete tag `<`..`>` is dropped whole and ends outside a tag.
proof fn lemma_strip_tag(s: Seq<char>)
    requires
        s.len() >= 2,
        s[0] == '<',
        s[s.len() - 1] == '>',
        forall|i: int| 1 <= i < s.len() - 1 ==> s[i] != '>',
    ensures
        strip_from(s, false) == Seq::<char>::empty(),
        tag_state(s, false) == false,
{
    let middle = s.subrange(1, s.len() - 1);
    assert(s.drop_first() =~= middle + seq!['>']);
    lemma_strip_inside(middle);
    lemma_strip_gt();
    lemma_strip_concat(middle, seq!['>'], true);
}

/// An unclosed opening tag is dropped whole and ends inside a tag.
proof fn lemma_strip_open(s: Seq<char>)
    requires
        s.len() >= 1,
        s[0] == '<',
        forall|i: int| 0 <= i < s.len() ==> s[i] != '>',
    ensures
        strip_from(s, false) == Seq::<char>::empty(),
        tag_state(s, false) == true,
{
    lemma_strip_inside(s.drop_first());
}

/// The individual tags of the rich template are dropped whole.
proof fn lemma_tag_lits()
    ensures
        strip_from("<br>"@, false) == Seq::<char>::empty() && tag_state("<br>"@, false) == false,
        strip_from("<strong>"@, false) == Seq::<char>::empty() && tag_state("<strong>"@, false)
            == false,
        strip_from("</strong>"@, false) == Seq::<char>::empty() && tag_state("</strong>"@, false)
            == false,
        strip_from("<code>"@, false) == Seq::<char>::empty() && tag_state("<code>"@, false)
            == false,
        strip_from("</code>"@, false) == Seq::<char>::empty() && tag_state("</code>"@, false)
            == false,
        strip_from("</a>"@, false) == Seq::<char>::empty() && tag_state("</a>"@, false) == false,
        strip_from("<a href=\""@, false) == Seq::<char>::empty() && tag_state("<a href=\""@, false)
            == true,
{
    reveal_strlit("<br>");
    assert(forall|i: int| 1 <= i < "<br>"@.len() - 1 ==> "<br>"@[i] != '>');
    lemma_strip_tag("<br>"@);
    reveal_strlit("<strong>");
    assert(forall|i: int| 1 <= i < "<strong>"@.len() - 1 ==> "<strong>"@[i] != '>');
    lemma_strip_tag("<strong>"@);
    reveal_strlit("</strong>");
    assert(forall|i: int| 1 <= i < "</strong>"@.len() - 1 ==> "</strong>"@[i] != '>');
    lemma_strip_tag("</strong>"@);
    reveal_strlit("<code>");
    assert(forall|i: int| 1 <= i < "<code>"@.len() - 1 ==> "<code>"@[i] != '>');
    lemma_strip_tag("<code>"@);
    reveal_strlit("</code>");
    assert(forall|i: int| 1 <= i < "</code>"@.len() - 1 ==> "</code>"@[i] != '>');
    lemma_strip_tag("</code>"@);
    reveal_strlit("</a>");
    assert(forall|i: int| 1 <= i < "</a>"@.len() - 1 ==> "</a>"@[i] != '>');
    lemma_strip_tag("</a>"@);
    reveal_strlit("<a href=\"");
    assert(forall|i: int| 0 <= i < "<a href=\""@.len() ==> "<a href=\""@[i] != '>');
    lemma_strip_open("<a href=\""@);
}

/// The rich header text strips to the plain header text.
proof fn lemma_piece_header()
    ensures
        strip_from(" <strong>CI Workflow "@, false) == " CI Workflow "@,
        tag_state(" <strong>CI Workflow "@, false) == false,
{
    lemma_tag_lits();
    reveal_strlit(" <strong>CI Workflow ");
    reveal_strlit(" ");
    reveal_strlit("<strong>");
    reveal_strlit("CI Workflow ");
    reveal_strlit(" CI Workflow ");
    assert(" <strong>CI Workflow "@ =~= " "@ + "<strong>"@ + "CI Workflow "@);
    assert(angle_free(" "@));
    lemma_strip_text(" "@);
    assert(angle_free("CI Workflow "@));
    lemma_strip_text("CI Workflow "@);
    lemma_strip_concat(" "@, "<strong>"@, false);
    lemma_strip_concat(" "@ + "<strong>"@, "CI Workflow "@, false);
    assert(strip_from(" <strong>CI Workflow "@, false) =~= " CI Workflow "@);
}

/// A rich field introduction `<br>\n<strong>(text)</strong> ` strips to
/// the plain `\n(text) `, given the delimiter-free inner text.
proof fn lemma_piece_field_intro(text: Seq<char>)
    requires
        angle_free(text),
    ensures
        strip_from("<br>"@ + "\n"@ + "<strong>"@ + text + "</strong>"@ + " "@, false) == "\n"@
            + text + " "@,
        tag_state("<br>"@ + "\n"@ + "<strong>"@ + text + "</strong>"@ + " "@, false) == false,
{
    lemma_tag_lits();
    reveal_strlit("\n");
    reveal_strlit(" ");
    assert(angle_free("\n"@));
    lemma_strip_text("\n"@);
    assert(angle_free(" "@));
    lemma_strip_text(" "@);
    lemma_strip_text(text);
    let a1 = "<br>"@;
    let a2 = a1 + "\n"@;
    let a3 = a2 + "<strong>"@;
    let a4 = a3 + text;
    let a5 = a4 + "</strong>"@;
    lemma_strip_concat(a1, "\n"@, false);
    lemma_strip_concat(a2, "<strong>"@, false);
    lemma_strip_concat(a3, text, false);
    lemma_strip_concat(a4, "</strong>"@, false);
    lemma_strip_concat(a5, " "@, false);
    assert(strip_from(a5 + " "@, false) =~= "\n"@ + text + " "@);
}

/// The rich repository introduction strips to the plain one and leaves
/// the scan inside the opened link tag.
proof fn lemma_piece_linked_intro(text: Seq<char>)
    requires
        angle_free(text),
    ensures
        strip_from(
            "<br>"@ + "\n"@ + "<strong>"@ + text + "</strong>"@ + " "@ + "<a href=\""@,
            false,
        ) == "\n"@ + text + " "@,
        tag_state(
            "<br>"@ + "\n"@ + "<strong>"@ + text + "</strong>"@ + " "@ + "<a href=\""@,
            false,
        ) == true,
{
    lemma_tag_lits();
    lemma_piece_field_intro(text);
    let a6 = "<br>"@ + "\n"@ + "<strong>"@ + text + "</strong>"@ + " "@;
    lemma_strip_concat(a6, "<a href=\""@, false);
    assert(strip_from(a6 + "<a href=\""@, false) =~= "\n"@ + text + " "@);
}

/// From inside a tag, `">` closes it and leaves no text.
proof fn lemma_piece_close()
    ensures
        strip_from("\">"@, true) == Seq::<char>::empty(),
        tag_state("\">"@, true) == false,
{
    reveal_strlit("\">");
    reveal_strlit("\"");
    reveal_strlit(">");
    assert("\">"@ =~= "\""@ + ">"@);
    assert(forall|i: int| 0 <= i < "\""@.len() ==> "\""@[i] != '>');
    lemma_strip_inside("\""@);
    assert(">"@ =~= seq!['>']);
    lemma_strip_gt();
    lemma_strip_concat("\""@, ">"@, true);
    assert(strip_from("\">"@, true) =~= Seq::<char>::empty());
}

/// From inside a tag, `"><code>` closes it, opens and drops the code
/// tag, and leaves no text.
proof fn lemma_piece_close_code()
    ensures
        strip_from("\"><code>"@, true) == Seq::<char>::empty(),
        tag_state("\"><code>"@, true) == false,
{
    lemma_tag_lits();
    lemma_piece_close();
    reveal_strlit("\"><code>");
    reveal_strlit("\">");
    reveal_strlit("<code>");
    assert("\"><code>"@ =~= "\">"@ + "<code>"@);
    lemma_strip_concat("\">"@, "<code>"@, true);
    assert(strip_from("\"><code>"@, true) =~= Seq::<char>::empty());
}

/// `</code></a>` is dropped whole.
proof fn lemma_piece_end_code_a()
    ensures
        strip_from("</code></a>"@, false) == Seq::<char>::empty(),
        tag_state("</code></a>"@, false) == false,
{
    lemma_tag_lits();
    reveal_strlit("</code></a>");
    reveal_strlit("</code>");
    reveal_strlit("</a>");
    assert("</code></a>"@ =~= "</code>"@ + "</a>"@);
    lemma_strip_concat("</code>"@, "</a>"@, false);
    assert(strip_from("</code></a>"@, false) =~= Seq::<char>::empty());
}

/// `<br>\n<code>` strips to the plain line break.
proof fn lemma_piece_br_code()
    ensures
        strip_from("<br>"@ + "\n"@ + "<code>"@, false) == "\n"@,
        tag_state("<br>"@ + "\n"@ + "<code>"@, false) == false,
{
    lemma_tag_lits();
    reveal_strlit("\n");
    assert(angle_free("\n"@));
    lemma_strip_text("\n"@);
    lemma_strip_concat("<br>"@, "\n"@, false);
    lemma_strip_concat("<br>"@ + "\n"@, "<code>"@, false);
    assert(strip_from("<br>"@ + "\n"@ + "<code>"@, false) =~= "\n"@);
}

/// The repository introduction of the rich template strips to the plain one.
proof fn lemma_lit_repo()
    ensures
        strip_from("<br>\n<strong>Repo:</strong> <a href=\""@, false) == "\nRepo: "@,
        tag_state("<br>\n<strong>Repo:</strong> <a href=\""@, false) == true,
{
    reveal_strlit("<br>\n<strong>Repo:</strong> <a href=\"");
    reveal_strlit("<br>");
    reveal_strlit("\n");
    reveal_strlit("<strong>");
    reveal_strlit("Repo:");
    reveal_strlit("</strong>");
    reveal_strlit(" ");
    reveal_strlit("<a href=\"");
    reveal_strlit("\nRepo: ");
    assert("<br>\n<strong>Repo:</strong> <a href=\""@ =~= "<br>"@ + "\n"@ + "<strong>"@ + "Repo:"@
        + "</strong>"@ + " "@ + "<a href=\""@);
    assert(angle_free("Repo:"@));
    lemma_piece_linked_intro("Repo:"@);
    assert("\n"@ + "Repo:"@ + " "@ =~= "\nRepo: "@);
}

/// The workflow introduction of the rich template strips to the plain one.
proof fn lemma_lit_workflow()
    ensures
        strip_from("<br>\n<strong>Workflow:</strong> "@, false) == "\nWorkflow: "@,
        tag_state("<br>\n<strong>Workflow:</strong> "@, false) == false,
{
    reveal_strlit("<br>\n<strong>Workflow:</strong> ");
    reveal_strlit("<br>");
    reveal_strlit("\n");
    reveal_strlit("<strong>");
    reveal_strlit("Workflow:");
    reveal_strlit("</strong>");
    reveal_strlit(" ");
    reveal_strlit("\nWorkflow: ");
    assert("<br>\n<strong>Workflow:</strong> "@ =~= "<br>"@ + "\n"@ + "<strong>"@ + "Workflow:"@
        + "</strong>"@ + " "@);
    assert(angle_free("Workflow:"@));
    lemma_piece_field_intro("Workflow:"@);
    assert("\n"@ + "Workflow:"@ + " "@ =~= "\nWorkflow: "@);
}

/// The branch introduction of the rich template strips to the plain one.
proof fn lemma_lit_branch()
    ensures
        strip_from("<br>\n<strong>Branch:</strong> "@, false) == "\nBranch: "@,
        tag_state("<br>\n<strong>Branch:</strong> "@, false) == false,
{
    reveal_strlit("<br>\n<strong>Branch:</strong> ");
    reveal_strlit("<br>");
    reveal_strlit("\n");
    reveal_strlit("<strong>");
    reveal_strlit("Branch:");
    reveal_strlit("</strong>");
    reveal_strlit(" ");
    reveal_strlit("\nBranch: ");
    assert("<br>\n<strong>Branch:</strong> "@ =~= "<br>"@ + "\n"@ + "<strong>"@ + "Branch:"@
        + "</strong>"@ + " "@);
    assert(angle_free("Branch:"@));
    lemma_piece_field_intro("Branch:"@);
    assert("\n"@ + "Branch:"@ + " "@ =~= "\nBranch: "@);
}

/// The commit introduction of the rich template strips to the plain one.
proof fn lemma_lit_commit()
    ensures
        strip_from("<br>\n<strong>Commit:</strong> "@, false) == "\nCommit: "@,
        tag_state("<br>\n<strong>Commit:</strong> "@, false) == false,
{
    reveal_strlit("<br>\n<strong>Commit:</strong> ");
    reveal_strlit("<br>");
    reveal_strlit("\n");
    reveal_strlit("<strong>");
    reveal_strlit("Commit:");
    reveal_strlit("</strong>");
    reveal_strlit(" ");
    reveal_strlit("\nCommit: ");
    assert("<br>\n<strong>Commit:</strong> "@ =~= "<br>"@ + "\n"@ + "<strong>"@ + "Commit:"@
        + "</strong>"@ + " "@);
    assert(angle_free("Commit:"@));
    lemma_piece_field_intro("Commit:"@);
    assert("\n"@ + "Commit:"@ + " "@ =~= "\nCommit: "@);
}

/// The run introduction of the rich template strips to the plain one.
proof fn lemma_lit_run()
    ensures
        strip_from("<br>\n<strong>Run:</strong> <a href=\""@, false) == "\nRun: "@,
        tag_state("<br>\n<strong>Run:</strong> <a href=\""@, false) == true,
{
    reveal_strlit("<br>\n<strong>Run:</strong> <a href=\"");
    reveal_strlit("<br>");
    reveal_strlit("\n");
    reveal_strlit("<strong>");
    reveal_strlit("Run:");
    reveal_strlit("</strong>");
    reveal_strlit(" ");
    reveal_strlit("<a href=\"");
    reveal_strlit("\nRun: ");
    assert("<br>\n<strong>Run:</strong> <a href=\""@ =~= "<br>"@ + "\n"@ + "<strong>"@ + "Run:"@
        + "</strong>"@ + " "@ + "<a href=\""@);
    assert(angle_free("Run:"@));
    lemma_piece_linked_intro("Run:"@);
    assert("\n"@ + "Run:"@ + " "@ =~= "\nRun: "@);
}

/// The actor introduction of the rich template strips to the plain one.
proof fn lemma_lit_actor()
    ensures
        strip_from("<br>\n<strong>Actor:</strong> <code>"@, false) == "\nActor: "@,
        tag_state("<br>\n<strong>Actor:</strong> <code>"@, false) == false,
{
    lemma_tag_lits();
    reveal_strlit("<br>\n<strong>Actor:</strong> <code>");
    reveal_strlit("<br>");
    reveal_strlit("\n");
    reveal_strlit("<strong>");
    reveal_strlit("Actor:");
    reveal_strlit("</strong>");
    reveal_strlit(" ");
    reveal_strlit("<code>");
    reveal_strlit("\nActor: ");
    assert("<br>\n<strong>Actor:</strong> <code>"@ =~= ("<br>"@ + "\n"@ + "<strong>"@ + "Actor:"@
        + "</strong>"@ + " "@) + "<code>"@);
    assert(angle_free("Actor:"@));
    lemma_piece_field_intro("Actor:"@);
    lemma_strip_concat(
        "<br>"@ + "\n"@ + "<strong>"@ + "Actor:"@ + "</strong>"@ + " "@,
        "<code>"@,
        false,
    );
    assert("\n"@ + "Actor:"@ + " "@ + Seq::<char>::empty() =~= "\nActor: "@);
}

/// The duration introduction of the rich template strips to the plain one.
proof fn lemma_lit_duration()
    ensures
        strip_from("<br>\n<strong>Duration:</strong> "@, false) == "\nDuration: "@,
        tag_state("<br>\n<strong>Duration:</strong> "@, false) == false,
{
    reveal_strlit("<br>\n<strong>Duration:</strong> ");
    reveal_strlit("<br>");
    reveal_strlit("\n");
    reveal_strlit("<strong>");
    reveal_strlit("Duration:");
    reveal_strlit("</strong>");
    reveal_strlit(" ");
    reveal_strlit("\nDuration: ");
    assert("<br>\n<strong>Duration:</strong> "@ =~= "<br>"@ + "\n"@ + "<strong>"@ + "Duration:"@
        + "</strong>"@ + " "@);
    assert(angle_free("Duration:"@));
    lemma_piece_field_intro("Duration:"@);
    assert("\n"@ + "Duration:"@ + " "@ =~= "\nDuration: "@);
}

/// The closing line introduction of the rich template strips to the
/// plain line break.
proof fn lemma_lit_br_code()
    ensures
        strip_from("<br>\n<code>"@, false) == "\n"@,
        tag_state("<br>\n<code>"@, false) == false,
{
    lemma_piece_br_code();
    reveal_strlit("<br>\n<code>");
    reveal_strlit("<br>");
    reveal_strlit("\n");
    reveal_strlit("<code>");
    assert("<br>\n<code>"@ =~= "<br>"@ + "\n"@ + "<code>"@);
}

/// Content parity: stripping the markup tags from the rich body yields
/// exactly the plain fallback body, for every run whose descriptive
/// fields (and given duration text) are free of the markup delimiters
/// `<` and `>`.
#[verifier::rlimit(50)]
pub proof fn lemma_strip_rich_is_fallback(run: WorkflowRun, m: StatusMarker, d: Option<Seq<char>>)
    requires
        angle_free(run.name@),
        angle_free(run.head_branch@),
        angle_free(run.head_sha@),
        angle_free(run.repository.full_name@),
        angle_free(run.repository.html_url@),
        angle_free(run.actor.login@),
        angle_free(run.html_url@),
        d is Some ==> angle_free(d->0),
    ensures
        strip_tags(spec_rich_text(run, m, d)) == spec_fallback_text(run, m, d),
{
    let id = run.id as nat;
    lemma_tag_lits();
    lemma_plain_texts_char_free('<');
    lemma_has_char_iff(spec_icon(m), '<');
    lemma_has_char_iff(spec_label(m), '<');
    lemma_plain_texts_char_free('>');
    lemma_has_char_iff(spec_icon(m), '>');
    lemma_has_char_iff(spec_label(m), '>');
    assert(angle_free(spec_icon(m)));
    assert(angle_free(spec_label(m)));
    lemma_marker_text_char_free(id, '<');
    lemma_has_char_iff(spec_marker_text(id), '<');
    lemma_marker_text_char_free(id, '>');
    lemma_has_char_iff(spec_marker_text(id), '>');
    assert(angle_free(spec_marker_text(id)));

    let a1 = spec_icon(m);
    lemma_strip_text(a1);
    let s1 = a1;

    let a2 = a1 + " <strong>CI Workflow "@;
    lemma_piece_header();
    lemma_strip_concat(a1, " <strong>CI Workflow "@, false);
    let s2 = s1 + " CI Workflow "@;
    assert(strip_from(a2, false) == s2 && tag_state(a2, false) == false);

    let a3 = a2 + spec_label(m);
    lemma_strip_text(spec_label(m));
    lemma_strip_concat(a2, spec_label(m), false);
    let s3 = s2 + spec_label(m);
    assert(strip_from(a3, false) == s3 && tag_state(a3, false) == false);

    let a4 = a3 + "</strong>"@;
    lemma_strip_concat(a3, "</strong>"@, false);
    assert(strip_from(a4, false) =~= s3);
    assert(tag_state(a4, false) == false);

    let a5 = a4 + "<br>\n<strong>Repo:</strong> <a href=\""@;
    lemma_lit_repo();
    lemma_strip_concat(a4, "<br>\n<strong>Repo:</strong> <a href=\""@, false);
    let s5 = s3 + "\nRepo: "@;
    assert(strip_from(a5, false) == s5 && tag_state(a5, false) == true);

    let a6 = a5 + run.repository.html_url@;
    lemma_strip_inside(run.repository.html_url@);
    lemma_strip_concat(a5, run.repository.html_url@, false);
    assert(strip_from(a6, false) =~= s5);
    assert(tag_state(a6, false) == true);

    let a7 = a6 + "\"><code>"@;
    lemma_piece_close_code();
    lemma_strip_concat(a6, "\"><code>"@, false);
    assert(strip_from(a7, false) =~= s5);
    assert(tag_state(a7, false) == false);

    let a8 = a7 + run.repository.full_name@;
    lemma_strip_text(run.repository.full_name@);
    lemma_strip_concat(a7, run.repository.full_name@, false);
    let s8 = s5 + run.repository.full_name@;
    assert(strip_from(a8, false) == s8 && tag_state(a8, false) == false);

    let a9 = a8 + "</code></a>"@;
    lemma_piece_end_code_a();
    lemma_strip_concat(a8, "</code></a>"@, false);
    assert(strip_from(a9, false) =~= s8);
    assert(tag_state(a9, false) == false);

    let a10 = a9 + "<br>\n<strong>Workflow:</strong> "@;
    lemma_lit_workflow();
    lemma_strip_concat(a9, "<br>\n<strong>Workflow:</strong> "@, false);
    let s10 = s8 + "\nWorkflow: "@;
    assert(strip_from(a10, false) == s10 && tag_state(a10, false) == false);

    let a11 = a10 + run.name@;
    lemma_strip_text(run.name@);
    lemma_strip_concat(a10, run.name@, false);
    let s11 = s10 + run.name@;
    assert(strip_from(a11, false) == s11 && tag_state(a11, false) == false);

    let a12 = a11 + "<br>\n<strong>Branch:</strong> "@;
    lemma_lit_branch();
    lemma_strip_concat(a11, "<br>\n<strong>Branch:</strong> "@, false);
    let s12 = s11 + "\nBranch: "@;
    assert(strip_from(a12, false) == s12 && tag_state(a12, false) == false);

    let a13 = a12 + run.head_branch@;
    lemma_strip_text(run.head_branch@);
    lemma_strip_concat(a12, run.head_branch@, false);
    let s13 = s12 + run.head_branch@;
    assert(strip_from(a13, false) == s13 && tag_state(a13, false) == false);

    let a14 = a13 + "<br>\n<strong>Commit:</strong> "@;
    lemma_lit_commit();
    lemma_strip_concat(a13, "<br>\n<strong>Commit:</strong> "@, false);
    let s14 = s13 + "\nCommit: "@;
    assert(strip_from(a14, false) == s14 && tag_state(a14, false) == false);

    let a15 = a14 + run.head_sha@;
    lemma_strip_text(run.head_sha@);
    lemma_strip_concat(a14, run.head_sha@, false);
    let s15 = s14 + run.head_sha@;
    assert(strip_from(a15, false) == s15 && tag_state(a15, false) == false);

    let a16 = a15 + "<br>\n<strong>Run:</strong> <a href=\""@;
    lemma_lit_run();
    lemma_strip_concat(a15, "<br>\n<strong>Run:</strong> <a href=\""@, false);
    let s16 = s15 + "\nRun: "@;
    assert(strip_from(a16, false) == s16 && tag_state(a16, false) == true);

    let a17 = a16 + run.html_url@;
    lemma_strip_inside(run.html_url@);
    lemma_strip_concat(a16, run.html_url@, false);
    assert(strip_from(a17, false) =~= s16);
    assert(tag_state(a17, false) == true);

    let a18 = a17 + "\">"@;
    lemma_piece_close();
    lemma_strip_concat(a17, "\">"@, false);
    assert(strip_from(a18, false) =~= s16);
    assert(tag_state(a18, false) == false);

    let a19 = a18 + run.html_url@;
    lemma_strip_text(run.html_url@);
    lemma_strip_concat(a18, run.html_url@, false);
    let s19 = s16 + run.html_url@;
    assert(strip_from(a19, false) == s19 && tag_state(a19, false) == false);

    let a20 = a19 + "</a>"@;
    lemma_strip_concat(a19, "</a>"@, false);
    assert(strip_from(a20, false) =~= s19);
    assert(tag_state(a20, false) == false);

    let a21 = a20 + "<br>\n<strong>Actor:</strong> <code>"@;
    lemma_lit_actor();
    lemma_strip_concat(a20, "<br>\n<strong>Actor:</strong> <code>"@, false);
    let s21 = s19 + "\nActor: "@;
    assert(strip_from(a21, false) == s21 && tag_state(a21, false) == false);

    let a22 = a21 + run.actor.login@;
    lemma_strip_text(run.actor.login@);
    lemma_strip_concat(a21, run.actor.login@, false);
    let s22 = s21 + run.actor.login@;
    assert(strip_from(a22, false) == s22 && tag_state(a22, false) == false);

    let a23 = a22 + "</code>"@;
    lemma_strip_concat(a22, "</code>"@, false);
    assert(strip_from(a23, false) =~= s22);
    assert(tag_state(a23, false) == false);

    let a24 = a23 + spec_duration_rich(d);
    match d {
        Some(t) => {
            lemma_lit_duration();
            lemma_strip_text(t);
            lemma_strip_concat("<br>\n<strong>Duration:</strong> "@, t, false);
            assert(strip_from(spec_duration_rich(d), false) == "\nDuration: "@ + t);
            assert(tag_state(spec_duration_rich(d), false) == false);
            assert(strip_from(spec_duration_rich(d), false) == spec_duration_plain(d));
        },
        None => {
            assert(spec_duration_rich(d) == Seq::<char>::empty());
            assert(strip_from(spec_duration_rich(d), false) =~= spec_duration_plain(d));
            assert(tag_state(spec_duration_rich(d), false) == false);
        },
    }
    lemma_strip_concat(a23, spec_duration_rich(d), false);
    let s24 = s22 + spec_duration_plain(d);
    assert(strip_from(a24, false) == s24 && tag_state(a24, false) == false);

    let a25 = a24 + "<br>\n<code>"@;
    lemma_lit_br_code();
    lemma_strip_concat(a24, "<br>\n<code>"@, false);
    let s25 = s24 + "\n"@;
    assert(strip_from(a25, false) == s25 && tag_state(a25, false) == false);

    let a26 = a25 + spec_marker_text(id);
    lemma_strip_text(spec_marker_text(id));
    lemma_strip_concat(a25, spec_marker_text(id), false);
    let s26 = s25 + spec_marker_text(id);
    assert(strip_from(a26, false) == s26 && tag_state(a26, false) == false);

    let a27 = a26 + "</code>"@;
    lemma_strip_concat(a26, "</code>"@, false);
    assert(strip_from(a27, false) =~= s26);

    assert(a27 == spec_rich_text(run, m, d));
    assert(s26 == spec_fallback_text(run, m, d));
}

/// Content parity for the messages that `render_message` produces:
/// stripping the markup from the rich body yields exactly the plain
/// body, for every run whose descriptive fields are free of `<` and `>`.
pub proof fn lemma_message_parity(run: WorkflowRun, m: StatusMarker)
    requires
        angle_free(run.name@),
        angle_free(run.head_branch@),
        angle_free(run.head_sha@),
        angle_free(run.repository.full_name@),
        angle_free(run.repository.html_url@),
        angle_free(run.actor.login@),
        angle_free(run.html_url@),
    ensures
        strip_tags(spec_rich_text(run, m, crate::duration::spec_run_duration(run)))
            == spec_fallback_text(run, m, crate::duration::spec_run_duration(run)),
{
    let d = crate::duration::spec_run_duration(run);
    if d is Some {
        let start = run.run_started_at->0 as int;
        let end = run.completed_at->0 as int;
        crate::laws::lemma_duration_text_char_free(start, end, '<');
        lemma_has_char_iff(crate::duration::spec_duration_text(start, end), '<');
        crate::laws::lemma_duration_text_char_free(start, end, '>');
        lemma_has_char_iff(crate::duration::spec_duration_text(start, end), '>');
        assert(angle_free(d->0));
    }
    lemma_strip_rich_is_fallback(run, m, d);
}

} // verus!
