//! Elapsed-time formatting: `"<minutes>m <seconds>s"` with truncating
//! division, over wall-clock timestamps in whole seconds.

use vstd::prelude::*;
use vstd::string::StringExecFns;
use crate::model::{WorkflowRun, WorkflowStatus};
use crate::numfmt::dec_str;
use crate::numfmt::u64_to_string;

verus! {

/// Decimal rendering of a signed integer: a minus sign before the digits
/// of the magnitude when negative.
pub open spec fn int_str(i: int) -> Seq<char> {
    if i >= 0 {
        dec_str(i as nat)
    } else {
        seq!['-'] + dec_str((-i) as nat)
    }
}

/// Division by 60 truncated toward zero, as machine integer division is.
pub open spec fn trunc_div_60(t: int) -> int {
    if t >= 0 {
        t / 60
    } else {
        -((-t) / 60)
    }
}

/// The duration text for an interval from `start` to `end`:
/// truncating minutes, remainder seconds, each rendered as a signed
/// decimal. A negative interval is rendered as the arithmetic yields it,
/// not clamped.
pub open spec fn spec_duration_text(start: int, end: int) -> Seq<char> {
    let t = end - start;
    let m = trunc_div_60(t);
    let s = t - m * 60;
    int_str(m) + "m "@ + int_str(s) + "s"@
}

/// Formats the elapsed time between two timestamps as
/// `"<minutes>m <seconds>s"`, e.g. 125 seconds apart gives `"2m 5s"`.
pub fn format_duration(start: i64, end: i64) -> (r: String)
    ensures
        r@ == spec_duration_text(start as int, end as int),
{
    let t: i128 = (end as i128) - (start as i128);
    let neg: bool = t < 0;
    let mag: u64 = if neg {
        (-t) as u64
    } else {
        t as u64
    };
    let m: u64 = mag / 60;
    let s: u64 = mag % 60;
    let mut r = String::new();
    if neg && m > 0 {
        r.append("-");
    }
    r.append(u64_to_string(m).as_str());
    r.append("m ");
    if neg && s > 0 {
        r.append("-");
    }
    r.append(u64_to_string(s).as_str());
    r.append("s");
    proof {
        reveal_strlit("-");
        let ti = end - start;
        let mi = trunc_div_60(ti);
        let si = ti - mi * 60;
        vstd::arithmetic::div_mod::lemma_fundamental_div_mod(mag as int, 60);
        if neg {
            assert(mag == -ti);
            assert(mi == -((mag as int) / 60));
            assert(si == -((mag as int) % 60));
        } else {
            assert(mag == ti);
            assert(mi == (mag as int) / 60);
            assert(si == (mag as int) % 60);
        }
        assert(m as int == (mag as int) / 60);
        assert(s as int == (mag as int) % 60);
        assert(int_str(mi) == if neg && m > 0 {
            seq!['-'] + dec_str(m as nat)
        } else {
            dec_str(m as nat)
        });
        assert(int_str(si) == if neg && s > 0 {
            seq!['-'] + dec_str(s as nat)
        } else {
            dec_str(s as nat)
        });
        assert(r@ =~= spec_duration_text(start as int, end as int));
    }
    r
}

/// The duration text of a run, present exactly when the run has completed
/// and both timestamps are present.
pub open spec fn spec_run_duration(run: WorkflowRun) -> Option<Seq<char>> {
    if run.status is Completed && run.run_started_at is Some && run.completed_at is Some {
        Some(spec_duration_text(run.run_started_at->0 as int, run.completed_at->0 as int))
    } else {
        None
    }
}

/// Computes the duration text of a run: `Some` exactly when the run has
/// completed and both timestamps are present, `None` otherwise.
pub fn duration_of(run: &WorkflowRun) -> (d: Option<String>)
    ensures
        d is Some <==> spec_run_duration(*run) is Some,
        d is Some ==> d->0@ == spec_run_duration(*run)->0,
{
    match (run.status, run.run_started_at, run.completed_at) {
        (WorkflowStatus::Completed, Some(start), Some(end)) => Some(format_duration(start, end)),
        _ => None,
    }
}

} // verus!
