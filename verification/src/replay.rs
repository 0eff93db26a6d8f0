//! Summaries and comparisons of recordings.

use vstd::prelude::*;
use vstd::string::*;

use crate::cli::Cli;
use crate::record;
use crate::record::{diff_commands, Divergence, Frame};
use crate::safety::SafetyVerdict;
use crate::text;
use crate::text::{push_decimal, same_words};

verus! {

/// How many control periods show what.
#[derive(Clone, Copy, Debug, PartialEq, Eq, Structural)]
pub struct Summary {
    pub periods: usize,
    /// Anything at all.
    pub touched: usize,
    pub clamped: usize,
    pub rate_limited: usize,
    pub held: usize,
    pub faulted: usize,
}

/// How many of the first `n` frames have a verdict with property `p`.
pub open spec fn count_frames(frames: Seq<Frame>, p: spec_fn(SafetyVerdict) -> bool, n: int) -> int
    decreases n,
{
    if n <= 0 {
        0
    } else {
        count_frames(frames, p, n - 1) + (if p(frames[n - 1].verdict) { 1int } else { 0 })
    }
}

pub open spec fn touched() -> spec_fn(SafetyVerdict) -> bool {
    |v: SafetyVerdict| !v.clean()
}

pub open spec fn clamped() -> spec_fn(SafetyVerdict) -> bool {
    |v: SafetyVerdict| v.clamped@.len() > 0
}

pub open spec fn rate_limited() -> spec_fn(SafetyVerdict) -> bool {
    |v: SafetyVerdict| v.rate_limited@.len() > 0
}

pub open spec fn held() -> spec_fn(SafetyVerdict) -> bool {
    |v: SafetyVerdict| v.held_for_stale_observation
}

pub open spec fn faulted() -> spec_fn(SafetyVerdict) -> bool {
    |v: SafetyVerdict| v.faulted@.len() > 0
}

proof fn lemma_count_bounds(frames: Seq<Frame>, p: spec_fn(SafetyVerdict) -> bool, n: int)
    requires
        0 <= n,
    ensures
        0 <= count_frames(frames, p, n) <= n,
    decreases n,
{
    if n > 0 {
        lemma_count_bounds(frames, p, n - 1);
    }
}

/// Counts what the safety gate did over a recording.
pub fn summarize(frames: &[Frame]) -> (r: Summary)
    ensures
        r.periods == frames@.len(),
        r.touched == count_frames(frames@, touched(), frames@.len() as int),
        r.clamped == count_frames(frames@, clamped(), frames@.len() as int),
        r.rate_limited == count_frames(frames@, rate_limited(), frames@.len() as int),
        r.held == count_frames(frames@, held(), frames@.len() as int),
        r.faulted == count_frames(frames@, faulted(), frames@.len() as int),
{
    let n: usize = frames.len();
    let mut out = Summary { periods: n, touched: 0, clamped: 0, rate_limited: 0, held: 0, faulted: 0 };
    let mut i: usize = 0;
    while i < n
        invariant
            i <= n == frames@.len(),
            out.periods == n,
            out.touched == count_frames(frames@, touched(), i as int),
            out.clamped == count_frames(frames@, clamped(), i as int),
            out.rate_limited == count_frames(frames@, rate_limited(), i as int),
            out.held == count_frames(frames@, held(), i as int),
            out.faulted == count_frames(frames@, faulted(), i as int),
        decreases n - i,
    {
        let v: &SafetyVerdict = &frames[i].verdict;
        proof {
            lemma_count_bounds(frames@, touched(), i as int);
            lemma_count_bounds(frames@, clamped(), i as int);
            lemma_count_bounds(frames@, rate_limited(), i as int);
            lemma_count_bounds(frames@, held(), i as int);
            lemma_count_bounds(frames@, faulted(), i as int);
        }
        if !v.is_clean() {
            out.touched += 1;
        }
        if v.clamped.len() > 0 {
            out.clamped += 1;
        }
        if v.rate_limited.len() > 0 {
            out.rate_limited += 1;
        }
        if v.held_for_stale_observation {
            out.held += 1;
        }
        if v.faulted.len() > 0 {
            out.faulted += 1;
        }
        i += 1;
    }
    out
}

/// What a replay is asked to do.
#[derive(Clone, Copy, Debug, PartialEq, Eq)]
pub enum ReplayTask<'a> {
    /// Summarise one recording.
    Summary(&'a str),
    /// Compare two.
    Compare(&'a str, &'a str),
    /// Neither one nor two recordings are named.
    Usage,
}

/// The recordings that follow the command's own name.
pub fn replay_task(cli: &Cli) -> (r: ReplayTask<'_>)
    ensures
        match r {
            ReplayTask::Summary(a) => cli@.positionals.len() == 2 && a@ == cli@.positionals[1],
            ReplayTask::Compare(a, b) => cli@.positionals.len() == 3 && a@ == cli@.positionals[1] && b@
                == cli@.positionals[2],
            ReplayTask::Usage => cli@.positionals.len() != 2 && cli@.positionals.len() != 3,
        },
{
    let words: &[String] = cli.positionals();
    assert(text::words(words@) == cli@.positionals);
    if words.len() == 2 {
        assert(text::words(words@)[1] == words@[1]@);
        ReplayTask::Summary(words[1].as_str())
    } else if words.len() == 3 {
        assert(text::words(words@)[1] == words@[1]@);
        assert(text::words(words@)[2] == words@[2]@);
        ReplayTask::Compare(words[1].as_str(), words[2].as_str())
    } else {
        ReplayTask::Usage
    }
}

/// The result of comparing two recordings.
pub enum Comparison {
    /// Their axes differ, so there is nothing to compare.
    Incomparable,
    /// No command differs over this many periods.
    Same { periods: usize },
    Different(Vec<Divergence>),
}

/// Compares the commands of two recordings of the same axes.
pub fn compare(
    left_axes: &Vec<String>,
    left: &[Frame],
    right_axes: &Vec<String>,
    right: &[Frame],
    limit: usize,
) -> (r: Comparison)
    ensures
        ({
            let m = record::shorter(left@.len(), right@.len());
            let diffs = record::capped(record::all_diffs(left@, right@, m), limit as int);
            match r {
                Comparison::Incomparable => text::words(left_axes@) != text::words(right_axes@),
                Comparison::Same { periods } => {
                    &&& text::words(left_axes@) == text::words(right_axes@)
                    &&& diffs.len() == 0
                    &&& periods == m
                },
                Comparison::Different(d) => {
                    &&& text::words(left_axes@) == text::words(right_axes@)
                    &&& d@ == diffs
                    &&& diffs.len() > 0
                },
            }
        }),
{
    if !same_words(left_axes, right_axes) {
        return Comparison::Incomparable;
    }
    let d: Vec<Divergence> = diff_commands(left, right, limit);
    if d.len() == 0 {
        let periods: usize = if left.len() <= right.len() {
            left.len()
        } else {
            right.len()
        };
        Comparison::Same { periods }
    } else {
        Comparison::Different(d)
    }
}

/// How many divergences are shown without `--limit`.
pub const DEFAULT_LIMIT: usize = 20;

pub open spec fn same_line(periods: usize) -> Seq<char> {
    "食い違いなし（"@ + text::decimal(periods as nat)
        + " 周期を比較。指令は 1 bit も変わっていません）"@
}

/// The line for recordings that agree.
pub fn agreement_line(periods: usize) -> (r: String)
    ensures
        r@ == same_line(periods),
{
    let mut out: String = "食い違いなし（".to_owned();
    push_decimal(&mut out, periods as u64);
    out.append(" 周期を比較。指令は 1 bit も変わっていません）");
    out
}

pub open spec fn different_line(found: usize, limit: usize) -> Seq<char> {
    "食い違い "@ + text::decimal(found as nat) + " 件（先頭 "@ + text::decimal(limit as nat)
        + " 件まで）"@
}

/// The line for recordings that differ.
pub fn divergence_line(found: usize, limit: usize) -> (r: String)
    ensures
        r@ == different_line(found, limit),
{
    let mut out: String = "食い違い ".to_owned();
    push_decimal(&mut out, found as u64);
    out.append(" 件（先頭 ");
    push_decimal(&mut out, limit as u64);
    out.append(" 件まで）");
    out
}

/// A period that was clamped, rate limited, held or faulted was touched.
pub proof fn every_intervention_is_counted(frames: Seq<Frame>, n: int)
    requires
        0 <= n <= frames.len(),
    ensures
        count_frames(frames, clamped(), n) <= count_frames(frames, touched(), n),
        count_frames(frames, rate_limited(), n) <= count_frames(frames, touched(), n),
        count_frames(frames, held(), n) <= count_frames(frames, touched(), n),
        count_frames(frames, faulted(), n) <= count_frames(frames, touched(), n),
        count_frames(frames, touched(), n) <= n,
    decreases n,
{
    if n > 0 {
        every_intervention_is_counted(frames, n - 1);
    }
}

/// The summary counts exactly the periods with a verdict of the kind.
pub proof fn a_count_is_the_number_of_such_periods(
    frames: Seq<Frame>,
    p: spec_fn(SafetyVerdict) -> bool,
    n: int,
)
    requires
        0 <= n <= frames.len(),
    ensures
        count_frames(frames, p, n) == frames.take(n).filter(|f: Frame| p(f.verdict)).len(),
    decreases n,
{
    reveal(Seq::filter);
    if n > 0 {
        a_count_is_the_number_of_such_periods(frames, p, n - 1);
        assert(frames.take(n).drop_last() == frames.take(n - 1));
        assert(frames.take(n).last() == frames[n - 1]);
    }
}

/// What a period counts as: clamped, rate limited or faulted where it lists an
/// axis, held where the observation was too old, and touched where it is any of
/// these or some torque was cut.
pub proof fn a_period_counts_as_what_was_done_in_it(v: SafetyVerdict)
    ensures
        clamped()(v) <==> v.clamped@.len() > 0,
        rate_limited()(v) <==> v.rate_limited@.len() > 0,
        held()(v) <==> v.held_for_stale_observation,
        faulted()(v) <==> v.faulted@.len() > 0,
        touched()(v) <==> v.clamped@.len() > 0 || v.rate_limited@.len() > 0 || v.torque_limited@.len() > 0
            || v.held_for_stale_observation || v.faulted@.len() > 0,
{
}

} // verus!
