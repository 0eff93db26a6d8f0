//! Recordings of control periods, and how two of them differ.

use vstd::prelude::*;

use crate::axis;
use crate::axis::{id_of_index, AxisId, AXIS_CAPACITY};
use crate::command::{AxisCommand, Command, ControlMode};
use crate::intent::Intent;
use crate::observation::Observation;
use crate::safety::SafetyVerdict;
use crate::scalar::Scalar;
use crate::time::Time;

verus! {

/// Version of the recording's layout.
pub const FORMAT_VERSION: u32 = 1;

/// The first item of a recording.
#[derive(Clone, Debug, PartialEq, Eq)]
pub struct Header {
    pub format_version: u32,
    pub robot: String,
    pub axes: Vec<String>,
    pub rate_hz: Scalar,
}

/// One control period.
#[derive(Clone, Debug, PartialEq, Eq)]
pub struct Frame {
    pub seq: u64,
    pub time: Time,
    pub intent: Intent,
    pub observation: Observation,
    pub command: Command,
    pub verdict: SafetyVerdict,
}

/// One value that differs between two recordings.
#[derive(Clone, Copy, Debug, PartialEq, Eq)]
pub struct Divergence {
    pub seq: u64,
    pub axis: AxisId,
    pub field: &'static str,
    pub left: Scalar,
    pub right: Scalar,
}

/// The mode's number as a binary64 number.
pub open spec fn mode_value(mode: ControlMode) -> Scalar {
    match mode {
        ControlMode::Idle => Scalar { bits: 0 },
        ControlMode::Position => Scalar { bits: 0x3ff0_0000_0000_0000 },
        ControlMode::Velocity => Scalar { bits: 0x4000_0000_0000_0000 },
        ControlMode::Torque => Scalar { bits: 0x4008_0000_0000_0000 },
        ControlMode::Impedance => Scalar { bits: 0x4010_0000_0000_0000 },
    }
}

fn mode_scalar(mode: ControlMode) -> (r: Scalar)
    ensures
        r == mode_value(mode),
{
    match mode {
        ControlMode::Idle => Scalar { bits: 0 },
        ControlMode::Position => Scalar { bits: 0x3ff0_0000_0000_0000 },
        ControlMode::Velocity => Scalar { bits: 0x4000_0000_0000_0000 },
        ControlMode::Torque => Scalar { bits: 0x4008_0000_0000_0000 },
        ControlMode::Impedance => Scalar { bits: 0x4010_0000_0000_0000 },
    }
}

/// The divergence of one value: none where not one bit differs.
pub open spec fn value_diff(
    seq: u64,
    axis: AxisId,
    field: &'static str,
    left: Scalar,
    right: Scalar,
) -> Seq<Divergence> {
    if left == right {
        Seq::empty()
    } else {
        seq![Divergence { seq, axis, field, left, right }]
    }
}

/// All divergences of one axis in one period, in a fixed order of fields.
pub open spec fn axis_diff(seq: u64, axis: AxisId, a: AxisCommand, b: AxisCommand) -> Seq<Divergence> {
    value_diff(seq, axis, "mode", mode_value(a.mode), mode_value(b.mode)) + value_diff(
        seq,
        axis,
        "position_rad",
        a.position_rad,
        b.position_rad,
    ) + value_diff(seq, axis, "velocity_rad_s", a.velocity_rad_s, b.velocity_rad_s) + value_diff(
        seq,
        axis,
        "torque_ff_nm",
        a.torque_ff_nm,
        b.torque_ff_nm,
    ) + value_diff(seq, axis, "kp_nm_per_rad", a.kp_nm_per_rad, b.kp_nm_per_rad) + value_diff(
        seq,
        axis,
        "kd_nm_s_per_rad",
        a.kd_nm_s_per_rad,
        b.kd_nm_s_per_rad,
    )
}

/// Divergences of the first `n` axes of a period. An axis is looked up by its id.
pub open spec fn period_diff(seq: u64, a: Seq<AxisCommand>, b: Seq<AxisCommand>, n: int) -> Seq<Divergence>
    decreases n,
{
    if n <= 0 {
        Seq::empty()
    } else {
        let id = axis::id_at(n - 1);
        period_diff(seq, a, b, n - 1) + axis_diff(seq, id, a[id.0 as int], b[id.0 as int])
    }
}

pub open spec fn shorter(a: nat, b: nat) -> int {
    if a <= b {
        a as int
    } else {
        b as int
    }
}

pub open spec fn frame_diff(a: Frame, b: Frame) -> Seq<Divergence> {
    period_diff(a.seq, a.command@, b.command@, shorter(a.command@.len(), b.command@.len()))
}

/// Divergences of the first `m` periods of two recordings.
pub open spec fn all_diffs(left: Seq<Frame>, right: Seq<Frame>, m: int) -> Seq<Divergence>
    decreases m,
{
    if m <= 0 {
        Seq::empty()
    } else {
        all_diffs(left, right, m - 1) + frame_diff(left[m - 1], right[m - 1])
    }
}

/// At most the first `limit` items.
pub open spec fn capped(s: Seq<Divergence>, limit: int) -> Seq<Divergence> {
    if s.len() <= limit {
        s
    } else {
        s.take(limit)
    }
}

fn push_diff(
    out: &mut Vec<Divergence>,
    seq: u64,
    axis: AxisId,
    field: &'static str,
    left: Scalar,
    right: Scalar,
)
    ensures
        final(out)@ == old(out)@ + value_diff(seq, axis, field, left, right),
{
    if left != right {
        out.push(Divergence { seq, axis, field, left, right });
    }
}

fn diff_axis(seq: u64, axis: AxisId, a: &AxisCommand, b: &AxisCommand, out: &mut Vec<Divergence>)
    ensures
        final(out)@ == old(out)@ + axis_diff(seq, axis, *a, *b),
{
    push_diff(out, seq, axis, "mode", mode_scalar(a.mode), mode_scalar(b.mode));
    push_diff(out, seq, axis, "position_rad", a.position_rad, b.position_rad);
    push_diff(out, seq, axis, "velocity_rad_s", a.velocity_rad_s, b.velocity_rad_s);
    push_diff(out, seq, axis, "torque_ff_nm", a.torque_ff_nm, b.torque_ff_nm);
    push_diff(out, seq, axis, "kp_nm_per_rad", a.kp_nm_per_rad, b.kp_nm_per_rad);
    push_diff(out, seq, axis, "kd_nm_s_per_rad", a.kd_nm_s_per_rad, b.kd_nm_s_per_rad);
}

/// Where the commands of two recordings differ, up to the end of the shorter
/// one and up to `limit` places. Values are compared bit by bit.
pub fn diff_commands(left: &[Frame], right: &[Frame], limit: usize) -> (r: Vec<Divergence>)
    ensures
        r@ == capped(all_diffs(left@, right@, shorter(left@.len(), right@.len())), limit as int),
{
    let mut out: Vec<Divergence> = Vec::new();
    let m: usize = if left.len() <= right.len() {
        left.len()
    } else {
        right.len()
    };
    let mut f: usize = 0;
    while f < m && out.len() < limit
        invariant
            f <= m,
            m == shorter(left@.len(), right@.len()),
            out@ == all_diffs(left@, right@, f as int),
        decreases m - f,
    {
        let a: &Frame = &left[f];
        let b: &Frame = &right[f];
        let n: usize = if a.command.len() <= b.command.len() {
            a.command.len()
        } else {
            b.command.len()
        };
        let mut i: usize = 0;
        while i < n
            invariant
                i <= n,
                f < m,
                m == shorter(left@.len(), right@.len()),
                *a == left@[f as int],
                *b == right@[f as int],
                n == shorter(a.command@.len(), b.command@.len()),
                out@ == all_diffs(left@, right@, f as int) + period_diff(
                    a.seq,
                    a.command@,
                    b.command@,
                    i as int,
                ),
            decreases n - i,
        {
            let id: AxisId = id_of_index(i);
            if let (Some(ca), Some(cb)) = (a.command.get(id), b.command.get(id)) {
                diff_axis(a.seq, id, ca, cb, &mut out);
            }
            i += 1;
        }
        f += 1;
    }
    proof {
        lemma_diffs_extend(left@, right@, f as int, m as int);
    }
    if out.len() > limit {
        out.truncate(limit);
    }
    out
}

/// The divergences of fewer periods are the beginning of those of more.
proof fn lemma_diffs_extend(left: Seq<Frame>, right: Seq<Frame>, f: int, m: int)
    requires
        0 <= f <= m,
    ensures
        all_diffs(left, right, f).len() <= all_diffs(left, right, m).len(),
        all_diffs(left, right, m).take(all_diffs(left, right, f).len() as int) == all_diffs(left, right, f),
    decreases m - f,
{
    if f < m {
        lemma_diffs_extend(left, right, f, m - 1);
        let few = all_diffs(left, right, f);
        let more = all_diffs(left, right, m - 1);
        assert(all_diffs(left, right, m).take(few.len() as int) == more.take(few.len() as int));
    } else {
        assert(all_diffs(left, right, m).take(all_diffs(left, right, m).len() as int) == all_diffs(
            left,
            right,
            m,
        ));
    }
}

/// A recording compared with itself shows no divergence.
pub proof fn identical_recordings_do_not_diverge(frames: Seq<Frame>, m: int)
    requires
        0 <= m <= frames.len(),
    ensures
        all_diffs(frames, frames, m).len() == 0,
    decreases m,
{
    if m > 0 {
        identical_recordings_do_not_diverge(frames, m - 1);
        let a = frames[m - 1];
        lemma_same_period(a.seq, a.command@, a.command@.len() as int);
    }
}

proof fn lemma_same_period(seq: u64, a: Seq<AxisCommand>, n: int)
    requires
        0 <= n <= a.len(),
    ensures
        period_diff(seq, a, a, n).len() == 0,
    decreases n,
{
    if n > 0 {
        lemma_same_period(seq, a, n - 1);
    }
}

/// Without a divergence in the first `m` periods, not one bit of a command
/// differs there, on any axis that both recordings command.
pub proof fn no_divergence_means_equal_commands(left: Seq<Frame>, right: Seq<Frame>, m: int)
    requires
        0 <= m <= left.len(),
        m <= right.len(),
        all_diffs(left, right, m).len() == 0,
        forall|f: int| 0 <= f < m ==> (#[trigger] left[f]).command@.len() <= AXIS_CAPACITY,
    ensures
        forall|f: int, i: int|
            0 <= f < m && 0 <= i < shorter(left[f].command@.len(), right[f].command@.len())
                ==> #[trigger] left[f].command@[i] == #[trigger] right[f].command@[i],
    decreases m,
{
    if m > 0 {
        no_divergence_means_equal_commands(left, right, m - 1);
        let a = left[m - 1];
        let b = right[m - 1];
        lemma_equal_period(a.seq, a.command@, b.command@, shorter(a.command@.len(), b.command@.len()));
    }
}

proof fn lemma_equal_period(seq: u64, a: Seq<AxisCommand>, b: Seq<AxisCommand>, n: int)
    requires
        0 <= n <= a.len() <= AXIS_CAPACITY,
        n <= b.len(),
        period_diff(seq, a, b, n).len() == 0,
    ensures
        forall|i: int| 0 <= i < n ==> #[trigger] a[i] == #[trigger] b[i],
    decreases n,
{
    if n > 0 {
        lemma_equal_period(seq, a, b, n - 1);
        let id = axis::id_at(n - 1);
        assert(id.0 == n - 1);
        assert(axis_diff(seq, id, a[n - 1], b[n - 1]).len() == 0);
    }
}

/// A divergence of the first `m` periods names one of them, and the two values
/// it shows really differ.
pub proof fn divergences_are_real(left: Seq<Frame>, right: Seq<Frame>, m: int, k: int)
    requires
        0 <= m <= left.len(),
        m <= right.len(),
        0 <= k < all_diffs(left, right, m).len(),
    ensures
        all_diffs(left, right, m)[k].left != all_diffs(left, right, m)[k].right,
        exists|f: int| 0 <= f < m && all_diffs(left, right, m)[k].seq == (#[trigger] left[f]).seq,
    decreases m,
{
    if m > 0 {
        let earlier = all_diffs(left, right, m - 1);
        if k < earlier.len() {
            divergences_are_real(left, right, m - 1, k);
        } else {
            let a = left[m - 1];
            let b = right[m - 1];
            lemma_period_diff_real(
                a.seq,
                a.command@,
                b.command@,
                shorter(a.command@.len(), b.command@.len()),
                k - earlier.len(),
            );
        }
    }
}

proof fn lemma_period_diff_real(seq: u64, a: Seq<AxisCommand>, b: Seq<AxisCommand>, n: int, k: int)
    requires
        0 <= n,
        0 <= k < period_diff(seq, a, b, n).len(),
    ensures
        period_diff(seq, a, b, n)[k].seq == seq,
        period_diff(seq, a, b, n)[k].left != period_diff(seq, a, b, n)[k].right,
    decreases n,
{
    if n > 0 {
        let earlier = period_diff(seq, a, b, n - 1);
        if k < earlier.len() {
            lemma_period_diff_real(seq, a, b, n - 1, k);
        }
    }
}

/// The numbers that stand for the modes are told apart and ordered as the modes'
/// own numbers are.
pub proof fn modes_compare_as_their_numbers(a: ControlMode, b: ControlMode)
    ensures
        mode_value(a) == mode_value(b) <==> a == b,
        mode_value(a).lt_num(mode_value(b)) <==> a.number_spec() < b.number_spec(),
        mode_value(ControlMode::Idle).is_zero_num(),
        mode_value(ControlMode::Position).bits == 0x3ff0_0000_0000_0000,
{
}

/// One more divergence for each value that differs.
pub open spec fn differs(a: Scalar, b: Scalar) -> int {
    if a == b {
        0
    } else {
        1
    }
}

/// Every value of an axis that differs is listed under its own field with the
/// left value on the left, a change of mode in front, and nothing else is listed.
pub proof fn every_changed_value_is_listed(seq: u64, axis: AxisId, a: AxisCommand, b: AxisCommand)
    ensures
        axis_diff(seq, axis, a, b).len() == differs(mode_value(a.mode), mode_value(b.mode)) + differs(
            a.position_rad,
            b.position_rad,
        ) + differs(a.velocity_rad_s, b.velocity_rad_s) + differs(a.torque_ff_nm, b.torque_ff_nm)
            + differs(a.kp_nm_per_rad, b.kp_nm_per_rad) + differs(a.kd_nm_s_per_rad, b.kd_nm_s_per_rad),
        a.mode != b.mode ==> axis_diff(seq, axis, a, b)[0] == (Divergence {
            seq,
            axis,
            field: "mode",
            left: mode_value(a.mode),
            right: mode_value(b.mode),
        }),
        a.position_rad != b.position_rad ==> axis_diff(seq, axis, a, b).contains(
            Divergence {
                seq,
                axis,
                field: "position_rad",
                left: a.position_rad,
                right: b.position_rad,
            },
        ),
        a.velocity_rad_s != b.velocity_rad_s ==> axis_diff(seq, axis, a, b).contains(
            Divergence {
                seq,
                axis,
                field: "velocity_rad_s",
                left: a.velocity_rad_s,
                right: b.velocity_rad_s,
            },
        ),
        a.torque_ff_nm != b.torque_ff_nm ==> axis_diff(seq, axis, a, b).contains(
            Divergence {
                seq,
                axis,
                field: "torque_ff_nm",
                left: a.torque_ff_nm,
                right: b.torque_ff_nm,
            },
        ),
        a.kp_nm_per_rad != b.kp_nm_per_rad ==> axis_diff(seq, axis, a, b).contains(
            Divergence {
                seq,
                axis,
                field: "kp_nm_per_rad",
                left: a.kp_nm_per_rad,
                right: b.kp_nm_per_rad,
            },
        ),
        a.kd_nm_s_per_rad != b.kd_nm_s_per_rad ==> axis_diff(seq, axis, a, b).contains(
            Divergence {
                seq,
                axis,
                field: "kd_nm_s_per_rad",
                left: a.kd_nm_s_per_rad,
                right: b.kd_nm_s_per_rad,
            },
        ),
{
    let all = axis_diff(seq, axis, a, b);
    let n0 = differs(mode_value(a.mode), mode_value(b.mode));
    let n1 = n0 + differs(a.position_rad, b.position_rad);
    let n2 = n1 + differs(a.velocity_rad_s, b.velocity_rad_s);
    let n3 = n2 + differs(a.torque_ff_nm, b.torque_ff_nm);
    let n4 = n3 + differs(a.kp_nm_per_rad, b.kp_nm_per_rad);
    modes_compare_as_their_numbers(a.mode, b.mode);
    if a.position_rad != b.position_rad {
        assert(all[n0].left == a.position_rad);
    }
    if a.velocity_rad_s != b.velocity_rad_s {
        assert(all[n1].left == a.velocity_rad_s);
    }
    if a.torque_ff_nm != b.torque_ff_nm {
        assert(all[n2].left == a.torque_ff_nm);
    }
    if a.kp_nm_per_rad != b.kp_nm_per_rad {
        assert(all[n3].left == a.kp_nm_per_rad);
    }
    if a.kd_nm_s_per_rad != b.kd_nm_s_per_rad {
        assert(all[n4].left == a.kd_nm_s_per_rad);
    }
}

/// Whatever differs on an axis that both recordings command in a period is among
/// the divergences of that period, under the axis's own id.
pub proof fn every_axis_of_a_period_is_compared(
    seq: u64,
    a: Seq<AxisCommand>,
    b: Seq<AxisCommand>,
    n: int,
    i: int,
    d: Divergence,
)
    requires
        0 <= i < n <= AXIS_CAPACITY,
        axis_diff(seq, AxisId(i as u16), a[i], b[i]).contains(d),
    ensures
        period_diff(seq, a, b, n).contains(d),
    decreases n,
{
    let before = period_diff(seq, a, b, n - 1);
    let own = axis_diff(seq, axis::id_at(n - 1), a[n - 1], b[n - 1]);
    let all = period_diff(seq, a, b, n);
    if i == n - 1 {
        let k = own.index_of(d);
        assert(all[before.len() + k] == d);
    } else {
        every_axis_of_a_period_is_compared(seq, a, b, n - 1, i, d);
        let k = before.index_of(d);
        assert(all[k] == d);
    }
}

/// The periods are compared one with its counterpart, as far as both recordings
/// reach, each under the number that the left one gives it.
pub proof fn every_period_is_compared(
    left: Seq<Frame>,
    right: Seq<Frame>,
    m: int,
    f: int,
    i: int,
    d: Divergence,
)
    requires
        0 <= f < m,
        m <= left.len(),
        m <= right.len(),
        0 <= i < left[f].command@.len(),
        i < right[f].command@.len(),
        i < AXIS_CAPACITY,
        left[f].command@.len() <= AXIS_CAPACITY,
        axis_diff(left[f].seq, AxisId(i as u16), left[f].command@[i], right[f].command@[i]).contains(d),
    ensures
        all_diffs(left, right, m).contains(d),
    decreases m,
{
    let before = all_diffs(left, right, m - 1);
    let own = frame_diff(left[m - 1], right[m - 1]);
    let all = all_diffs(left, right, m);
    if f == m - 1 {
        let n = shorter(left[f].command@.len(), right[f].command@.len());
        every_axis_of_a_period_is_compared(left[f].seq, left[f].command@, right[f].command@, n, i, d);
        let k = own.index_of(d);
        assert(all[before.len() + k] == d);
    } else {
        every_period_is_compared(left, right, m - 1, f, i, d);
        let k = before.index_of(d);
        assert(all[k] == d);
    }
}

/// The divergences that are kept are the first ones, as many as asked for.
pub proof fn the_first_divergences_are_kept(s: Seq<Divergence>, limit: int, k: int)
    requires
        0 <= limit,
    ensures
        capped(s, limit).len() == (if s.len() < limit {
            s.len() as int
        } else {
            limit
        }),
        0 <= k < capped(s, limit).len() ==> capped(s, limit)[k] == s[k],
{
}

/// Two recordings are compared up to the end of the shorter one.
pub proof fn the_shorter_one_ends_the_comparison(a: nat, b: nat)
    ensures
        shorter(a, b) <= a,
        shorter(a, b) <= b,
        shorter(a, b) == a || shorter(a, b) == b,
{
}

} // verus!
