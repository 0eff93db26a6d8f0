//! Keeping the body over the line between two feet.
//!
//! Two point contacts cannot stop the body from tipping about the line between
//! them. The standing legs therefore move the body across the line, by a shift
//! that follows the tilt and is limited in size and in rate.

use vstd::prelude::*;

use crate::jointvec::JointVec;
use crate::knee;
use crate::knee::{FlipEdge, FlipStep, ProbeSample};
use crate::legs::LegFlags;
use crate::scalar;
use crate::scalar::Scalar;

verus! {

/// What the balance remembers.
pub struct BalanceState {
    /// The body's shift across the support line.
    pub shift_m: Scalar,
    /// The smoothed shift that is wanted.
    pub want_m: Scalar,
    /// The mass's distance from the line one period ago.
    pub last_offset_m: Option<Scalar>,
    /// The smoothed rate of that distance.
    pub offset_rate: Scalar,
    /// Samples of the probe that runs.
    pub samples: Vec<ProbeSample>,
    /// Seconds since the probe's hold began.
    pub sample_clock_s: Scalar,
    /// The largest tilt of this choreography.
    pub tilt_max_rad: Scalar,
    /// The largest shift of this choreography.
    pub shift_max_m: Scalar,
}

/// The larger of a peak and a new value.
pub open spec fn peak(a: Scalar, b: Scalar) -> Scalar {
    if a.lt_num(b) {
        b
    } else {
        a
    }
}

/// The size `x` is held to `max` in both directions.
pub open spec fn held(x: Scalar, max: Scalar) -> Scalar {
    x.clamp_spec(max.neg_spec(), max)
}

/// A limit is a number that is not below zero.
pub open spec fn is_limit(max: Scalar) -> bool {
    Scalar::zero_spec().le_num(max)
}

/// Holds `x` to `max` in both directions.
pub fn hold(x: Scalar, max: Scalar) -> (r: Scalar)
    requires
        is_limit(max),
    ensures
        r == held(x, max),
{
    x.clamp(max.neg(), max)
}

/// Where to move on four feet: so far that the mass comes over the line. The
/// mass is `offset` away from it.
pub fn adjust_target(offset: Scalar, max: Scalar) -> (r: Scalar)
    requires
        is_limit(max),
    ensures
        r == held(offset.neg_spec(), max),
{
    hold(offset.neg(), max)
}

/// The shift that is wanted after smoothing: without a corner frequency there is
/// none. `smoothed` is one step of the smoothing from the last towards `want`.
pub fn smoothed_want(corner_hz: Scalar, want: Scalar, smoothed: Scalar) -> (r: Scalar)
    ensures
        r == (if corner_hz.positive() { smoothed } else { want }),
{
    if corner_hz.is_positive() {
        smoothed
    } else {
        want
    }
}

impl BalanceState {
    pub fn new() -> (r: BalanceState)
        ensures
            r.shift_m == Scalar::zero_spec(),
            r.want_m == Scalar::zero_spec(),
            r.last_offset_m is None,
            r.offset_rate == Scalar::zero_spec(),
            r.samples@.len() == 0,
            r.sample_clock_s == Scalar::zero_spec(),
            r.tilt_max_rad == Scalar::zero_spec(),
            r.shift_max_m == Scalar::zero_spec(),
    {
        BalanceState {
            shift_m: Scalar::zero(),
            want_m: Scalar::zero(),
            last_offset_m: None,
            offset_rate: Scalar::zero(),
            samples: Vec::new(),
            sample_clock_s: Scalar::zero(),
            tilt_max_rad: Scalar::zero(),
            shift_max_m: Scalar::zero(),
        }
    }

    /// A choreography begins.
    pub fn begin(&mut self)
        ensures
            final(self).shift_m == Scalar::zero_spec(),
            final(self).want_m == old(self).want_m,
            final(self).last_offset_m is None,
            final(self).offset_rate == Scalar::zero_spec(),
            final(self).samples@.len() == 0,
            final(self).sample_clock_s == old(self).sample_clock_s,
            final(self).tilt_max_rad == Scalar::zero_spec(),
            final(self).shift_max_m == Scalar::zero_spec(),
    {
        self.samples = Vec::new();
        self.last_offset_m = None;
        self.offset_rate = Scalar::zero();
        self.shift_m = Scalar::zero();
        self.tilt_max_rad = Scalar::zero();
        self.shift_max_m = Scalar::zero();
    }

    /// The choreography moves on. `planned` is the shift that the step's plan
    /// already holds.
    pub fn enter(&mut self, edge: &FlipEdge, planned: Scalar)
        ensures
            final(self).shift_m == (if edge.restart_feedback && edge.take_planned_shift {
                planned
            } else {
                old(self).shift_m
            }),
            final(self).want_m == (if edge.restart_feedback {
                final(self).shift_m
            } else {
                old(self).want_m
            }),
            final(self).last_offset_m == (if edge.restart_feedback {
                None
            } else {
                old(self).last_offset_m
            }),
            final(self).offset_rate == (if edge.restart_feedback {
                Scalar::zero_spec()
            } else {
                old(self).offset_rate
            }),
            final(self).samples@ == (if edge.clear_probe {
                Seq::empty()
            } else {
                old(self).samples@
            }),
            final(self).sample_clock_s == (if edge.clear_probe {
                Scalar::zero_spec()
            } else {
                old(self).sample_clock_s
            }),
            final(self).tilt_max_rad == old(self).tilt_max_rad,
            final(self).shift_max_m == old(self).shift_max_m,
    {
        if edge.restart_feedback {
            if edge.take_planned_shift {
                self.shift_m = planned;
            }
            self.want_m = self.shift_m;
            self.last_offset_m = None;
            self.offset_rate = Scalar::zero();
        }
        if edge.clear_probe {
            self.samples = Vec::new();
            self.sample_clock_s = Scalar::zero();
        }
    }

    /// Everything but the shift, the wanted shift and the peaks is as in `before`.
    pub open spec fn keeps_history(&self, before: &BalanceState) -> bool {
        &&& self.last_offset_m == before.last_offset_m
        &&& self.offset_rate == before.offset_rate
        &&& self.samples@ == before.samples@
        &&& self.sample_clock_s == before.sample_clock_s
    }

    /// The shift while adjusting on four feet.
    pub fn adjust(&mut self, shift: Scalar)
        ensures
            final(self).shift_m == shift,
            final(self).want_m == shift,
            final(self).keeps_history(old(self)),
            final(self).tilt_max_rad == old(self).tilt_max_rad,
            final(self).shift_max_m == old(self).shift_max_m,
    {
        self.shift_m = shift;
        self.want_m = shift;
    }

    /// A sample of the probe. `clock` is the time since its hold began.
    pub fn sample(&mut self, clock: Scalar, tilt_rate: Scalar, tilt: Scalar)
        ensures
            final(self).samples@ == old(self).samples@.push(
                ProbeSample { at_s: clock, tilt_rate, tilt },
            ),
            final(self).sample_clock_s == clock,
            final(self).shift_m == old(self).shift_m,
            final(self).want_m == old(self).want_m,
            final(self).last_offset_m == old(self).last_offset_m,
            final(self).offset_rate == old(self).offset_rate,
            final(self).tilt_max_rad == old(self).tilt_max_rad,
            final(self).shift_max_m == old(self).shift_max_m,
    {
        self.sample_clock_s = clock;
        self.samples.push(ProbeSample { at_s: clock, tilt_rate, tilt });
    }

    /// The unsmoothed rate of the distance: zero in the first period and where no
    /// time has passed. `quotient` is the difference over the time.
    pub fn raw_rate(&self, dt: Scalar, quotient: Scalar) -> (r: Scalar)
        ensures
            r == (if self.last_offset_m is Some && dt.positive() {
                quotient
            } else {
                Scalar::zero_spec()
            }),
    {
        if self.last_offset_m.is_some() && dt.is_positive() {
            quotient
        } else {
            Scalar::zero()
        }
    }

    /// One period of feedback: the measured distance and its smoothed rate, the
    /// smoothed wanted shift, and the shift that comes of it.
    pub fn follow(
        &mut self,
        offset: Scalar,
        rate: Scalar,
        want: Scalar,
        shift: Scalar,
        tilt: Scalar,
    )
        ensures
            final(self).shift_m == shift,
            final(self).want_m == want,
            final(self).last_offset_m == Some(offset),
            final(self).offset_rate == rate,
            final(self).samples@ == old(self).samples@,
            final(self).sample_clock_s == old(self).sample_clock_s,
            final(self).tilt_max_rad == peak(old(self).tilt_max_rad, tilt.abs_spec()),
            final(self).shift_max_m == peak(old(self).shift_max_m, shift.abs_spec()),
    {
        self.last_offset_m = Some(offset);
        self.offset_rate = rate;
        self.want_m = want;
        self.shift_m = shift;
        if self.tilt_max_rad.less(tilt.abs()) {
            self.tilt_max_rad = tilt.abs();
        }
        if self.shift_max_m.less(shift.abs()) {
            self.shift_max_m = shift.abs();
        }
    }
}

/// The posture that the mass is measured in: the standing legs as they are, the
/// others as planned. A swinging leg lags behind its plan, and its lag must not
/// show up as motion of the body.
pub fn mixed_posture(planned: &JointVec, measured: &JointVec, support: LegFlags) -> (r: JointVec)
    ensures
        r.arm == planned.arm,
        forall|leg: int, k: int|
            0 <= leg < 4 && 0 <= k < 3 ==> #[trigger] r.at(leg, k) == (if support.at(leg) {
                measured.at(leg, k)
            } else {
                planned.at(leg, k)
            }),
{
    let mut out: JointVec = *planned;
    let mut leg: usize = 0;
    while leg < 4
        invariant
            leg <= 4,
            out.arm == planned.arm,
            forall|l: int, k: int|
                0 <= l < 4 && 0 <= k < 3 ==> #[trigger] out.at(l, k) == (if l < leg && support.at(
                    l,
                ) {
                    measured.at(l, k)
                } else {
                    planned.at(l, k)
                }),
        decreases 4 - leg,
    {
        if support.get(leg) {
            out.set(leg, 0, measured.get(leg, 0));
            out.set(leg, 1, measured.get(leg, 1));
            out.set(leg, 2, measured.get(leg, 2));
        }
        leg += 1;
    }
    out
}

/// Overwrites the targets of the standing legs with the solved angles. A leg
/// whose foot cannot be reached keeps its target.
pub fn overwrite_legs(targets: &mut JointVec, support: LegFlags, solved: &Vec<Option<[Scalar; 3]>>)
    requires
        solved@.len() == 4,
    ensures
        final(targets).arm == old(targets).arm,
        forall|leg: int, k: int|
            0 <= leg < 4 && 0 <= k < 3 ==> #[trigger] final(targets).at(leg, k) == (if support.at(
                leg,
            ) && solved@[leg] is Some {
                solved@[leg]->0@[k]
            } else {
                old(targets).at(leg, k)
            }),
{
    let mut leg: usize = 0;
    while leg < 4
        invariant
            leg <= 4 == solved@.len(),
            targets.arm == old(targets).arm,
            forall|l: int, k: int|
                0 <= l < 4 && 0 <= k < 3 ==> #[trigger] targets.at(l, k) == (if l < leg
                    && support.at(l) && solved@[l] is Some {
                    solved@[l]->0@[k]
                } else {
                    old(targets).at(l, k)
                }),
        decreases 4 - leg,
    {
        if support.get(leg) {
            match solved[leg] {
                Some(q) => {
                    targets.set(leg, 0, q[0]);
                    targets.set(leg, 1, q[1]);
                    targets.set(leg, 2, q[2]);
                },
                None => {},
            }
        }
        leg += 1;
    }
}

/// The wanted shift never exceeds its limit, and holding it again changes
/// nothing.
pub proof fn the_wanted_shift_is_limited(x: Scalar, max: Scalar)
    requires
        is_limit(max),
        !x.nan(),
    ensures
        held(x, max).abs_spec().le_num(max),
        held(held(x, max), max) == held(x, max),
{
    scalar::clamping_lands_inside(x, max.neg_spec(), max);
}

/// Where the feedback restarts, it starts from the shift that the body has: the
/// first wanted shift is no jump.
pub proof fn feedback_starts_without_a_jump(
    before: BalanceState,
    after: BalanceState,
    steps: Seq<FlipStep>,
    was: int,
    now: int,
    planned: Scalar,
)
    requires
        ({
            let edge = knee::edge_spec(steps, was, now);
            &&& edge.restart_feedback
            &&& after.shift_m == (if edge.take_planned_shift { planned } else { before.shift_m })
            &&& after.want_m == after.shift_m
        }),
    ensures
        knee::kind_of(steps, was) is Adjust ==> after.want_m == before.shift_m,
        !(knee::kind_of(steps, was) is Adjust) ==> after.want_m == planned,
{
}

/// A peak is the larger of what it was and what comes, so it never falls.
pub proof fn a_peak_never_falls(a: Scalar, b: Scalar)
    requires
        !a.nan(),
        !b.nan(),
    ensures
        a.le_num(peak(a, b)),
        b.le_num(peak(a, b)),
        peak(a, b) == a || peak(a, b) == b,
{
}

/// A shift within its limit is taken as it is; one beyond stops at the limit on
/// its own side.
pub proof fn a_shift_stops_at_its_limit(x: Scalar, max: Scalar)
    requires
        is_limit(max),
        !x.nan(),
    ensures
        x.abs_spec().le_num(max) ==> held(x, max) == x,
        max.lt_num(x) ==> held(x, max) == max,
        x.lt_num(max.neg_spec()) ==> held(x, max) == max.neg_spec(),
{
}

/// On four feet the body moves against the mass's distance from the line, so that
/// the mass comes back over it.
pub proof fn adjusting_moves_against_the_offset(offset: Scalar, max: Scalar)
    requires
        is_limit(max),
        !offset.nan(),
    ensures
        offset.positive() ==> held(offset.neg_spec(), max).le_num(Scalar::zero_spec()),
        offset.lt_num(Scalar::zero_spec()) ==> Scalar::zero_spec().le_num(held(offset.neg_spec(), max)),
        offset.abs_spec().le_num(max) ==> held(offset.neg_spec(), max) == offset.neg_spec(),
{
}

/// What keeps its history keeps all of it: the last offset and its rate, the
/// samples and their clock.
pub proof fn history_is_kept_whole(after: BalanceState, before: BalanceState)
    requires
        after.keeps_history(&before),
    ensures
        after.last_offset_m == before.last_offset_m,
        after.offset_rate == before.offset_rate,
        after.samples@ == before.samples@,
        after.sample_clock_s == before.sample_clock_s,
{
}

/// Zero is a limit, and so is every number above it; nothing below it is.
pub proof fn limits_start_at_zero(max: Scalar)
    ensures
        is_limit(Scalar::zero_spec()),
        max.positive() ==> is_limit(max),
        max.lt_num(Scalar::zero_spec()) ==> !is_limit(max),
        max.nan() ==> !is_limit(max),
{
}

} // verus!
