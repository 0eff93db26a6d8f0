//! What the joints are sent to, and what is laid over the gait.

use vstd::prelude::*;

use crate::controller::{Action, ArmSource, State};
use crate::intent::{GaitTune, TuneRanges};
use crate::jointvec::JointVec;
use crate::keys;
use crate::keys::is_changed;
use crate::scalar::Scalar;

verus! {

/// Where this period's targets can come from.
pub struct TargetSources {
    /// The targets of the last period.
    pub now: JointVec,
    pub measured: JointVec,
    /// What the running trajectory gives; `None` where none runs.
    pub played: Option<JointVec>,
    /// What the gait gives, where it has run.
    pub gait: JointVec,
    /// The arm's angle that the head stabiliser gives, where it has run.
    pub stabilised_arm: Scalar,
}

pub open spec fn with_arm(q: JointVec, arm: Scalar) -> JointVec {
    JointVec { arm, ..q }
}

/// The targets with the observed arm laid over them, where there is one.
pub open spec fn over_arm(q: JointVec, observed: Option<Scalar>) -> JointVec {
    match observed {
        Some(a) => with_arm(q, a),
        None => q,
    }
}

pub open spec fn played_or_now(src: TargetSources) -> JointVec {
    match src.played {
        Some(q) => q,
        None => src.now,
    }
}

/// The arm's target while the gait runs.
pub open spec fn arm_from(src: TargetSources, arm: ArmSource) -> Scalar {
    match arm {
        ArmSource::Stabiliser => src.stabilised_arm,
        ArmSource::Observed(q) => q,
        ArmSource::Keep => src.now.arm,
    }
}

/// The targets of a period that was spent in `state` and did `action`.
/// `observed_arm` is the observed angle of an arm that others drive, and `arm`
/// where the arm's target comes from while the gait runs.
pub open spec fn targets_spec(
    state: State,
    action: Action,
    src: TargetSources,
    observed_arm: Option<Scalar>,
    arm: ArmSource,
) -> JointVec {
    match state {
        State::Relaxed => src.measured,
        State::GoingToStart => played_or_now(src),
        State::HoldingStart => over_arm(src.now, observed_arm),
        State::GoingToStance => played_or_now(src),
        State::Active => if action is RunGait {
            with_arm(src.gait, arm_from(src, arm))
        } else {
            src.now
        },
        State::PlayingPose => over_arm(played_or_now(src), observed_arm),
        State::FlippingKnees => over_arm(played_or_now(src), observed_arm),
    }
}

pub fn joint_targets(
    state: State,
    action: &Action,
    src: &TargetSources,
    observed_arm: Option<Scalar>,
    arm: ArmSource,
) -> (r: JointVec)
    ensures
        r == targets_spec(state, *action, *src, observed_arm, arm),
{
    let mut played: JointVec = match src.played {
        Some(q) => q,
        None => src.now,
    };
    match state {
        State::Relaxed => src.measured,
        State::GoingToStart => played,
        State::GoingToStance => played,
        State::HoldingStart => {
            let mut out: JointVec = src.now;
            if let Some(a) = observed_arm {
                out.arm = a;
            }
            out
        },
        State::Active => match action {
            Action::RunGait => {
                let mut out: JointVec = src.gait;
                out.arm = match arm {
                    ArmSource::Stabiliser => src.stabilised_arm,
                    ArmSource::Observed(q) => q,
                    ArmSource::Keep => src.now.arm,
                };
                out
            },
            _ => src.now,
        },
        State::PlayingPose => {
            if let Some(a) = observed_arm {
                played.arm = a;
            }
            played
        },
        State::FlippingKnees => {
            if let Some(a) = observed_arm {
                played.arm = a;
            }
            played
        },
    }
}

/// Two sets of overrides are not the same numbers.
pub open spec fn tunes_differ(a: GaitTune, b: GaitTune) -> bool {
    keys::differs(a.cycle_period_s, b.cycle_period_s) || keys::differs(
        a.swing_height_m,
        b.swing_height_m,
    ) || keys::differs(a.step_length_m, b.step_length_m) || keys::differs(
        a.duty_factor,
        b.duty_factor,
    )
}

/// The overrides that the running gait has.
#[derive(Clone, Copy, Debug, PartialEq, Eq, Structural)]
pub struct TuneState {
    pub tune: GaitTune,
}

impl TuneState {
    pub fn new() -> (r: TuneState)
        ensures
            r.tune == GaitTune::empty_spec(),
    {
        TuneState { tune: GaitTune::default() }
    }

    /// The gait was built anew and has no overrides.
    pub fn rebuilt(&mut self)
        ensures
            final(self).tune == GaitTune::empty_spec(),
    {
        self.tune = GaitTune::default();
    }

    pub fn gait_tune(&self) -> (r: GaitTune)
        ensures
            r == self.tune,
    {
        self.tune
    }

    /// Takes the overrides that are asked for, held to their ranges. Returns
    /// whether the gait has to be given new parameters.
    pub fn apply_gait_tune(&mut self, asked: &GaitTune, ranges: &TuneRanges) -> (changed: bool)
        requires
            ranges.ordered(),
        ensures
            changed == tunes_differ(asked.clamped_spec(*ranges), old(self).tune),
            final(self).tune == (if changed {
                asked.clamped_spec(*ranges)
            } else {
                old(self).tune
            }),
    {
        let want: GaitTune = asked.clamped(ranges);
        let now: GaitTune = self.tune;
        let changed: bool = is_changed(want.cycle_period_s, now.cycle_period_s) || is_changed(
            want.swing_height_m,
            now.swing_height_m,
        ) || is_changed(want.step_length_m, now.step_length_m) || is_changed(
            want.duty_factor,
            now.duty_factor,
        );
        if changed {
            self.tune = want;
        }
        changed
    }
}

/// Whether it was said that the legs do not reach while the body is tilted.
#[derive(Clone, Copy, Debug, PartialEq, Eq, Structural)]
pub struct ReachWarning {
    pub warned: bool,
}

impl ReachWarning {
    /// Whether to say so now: once, until the legs reach again.
    pub fn note(&mut self, reachable: bool) -> (say: bool)
        ensures
            say == (!reachable && !old(self).warned),
            final(self).warned == !reachable,
    {
        let say: bool = !reachable && !self.warned;
        self.warned = !reachable;
        say
    }
}

/// How much of the way to the wanted tilt one period goes: all of it without a
/// time constant or without time. `share` is the period over the period plus the
/// time constant.
pub fn tilt_share(tau_s: Scalar, dt_s: Scalar, share: Scalar) -> (r: Scalar)
    ensures
        r == (if tau_s.positive() && dt_s.positive() {
            share.clamp_spec(Scalar::zero_spec(), Scalar { bits: WHOLE })
        } else {
            Scalar { bits: WHOLE }
        }),
{
    if tau_s.is_positive() && dt_s.is_positive() {
        share.clamp(Scalar::zero(), Scalar::from_bits(WHOLE))
    } else {
        Scalar::from_bits(WHOLE)
    }
}

/// One.
pub const WHOLE: u64 = 0x3ff0_0000_0000_0000;

/// A thousandth of a millimetre, in metres.
pub const SAME_HEIGHT: u64 = 0x3eb0_c6f7_a0b5_ed8d;

/// A billionth of a metre.
pub const SAME_PLACE: u64 = 0x3e11_2e0b_e826_d695;

/// The feet stand where they stood: no shift is larger than what is called the
/// same.
pub open spec fn feet_unmoved(moved: Seq<Scalar>) -> bool {
    forall|i: int| 0 <= i < moved.len() ==> (#[trigger] moved[i]).lt_num(Scalar { bits: SAME_PLACE })
}

/// Whether the gait needs new leg geometry: the body's height or a foot's place
/// has changed. `height_change` is the difference to what the gait has, and
/// `moved` how far each foot's place has moved.
pub fn needs_new_kinematics(height_change: Scalar, moved: &Vec<Scalar>) -> (r: bool)
    ensures
        r == !(height_change.abs_spec().lt_num(Scalar { bits: SAME_HEIGHT }) && feet_unmoved(
            moved@,
        )),
{
    if !height_change.abs().less(Scalar::from_bits(SAME_HEIGHT)) {
        return true;
    }
    let mut i: usize = 0;
    while i < moved.len()
        invariant
            i <= moved@.len(),
            forall|k: int|
                0 <= k < i ==> (#[trigger] moved@[k]).lt_num(Scalar { bits: SAME_PLACE }),
        decreases moved@.len() - i,
    {
        if !moved[i].less(Scalar::from_bits(SAME_PLACE)) {
            assert(!moved@[i as int].lt_num(Scalar { bits: SAME_PLACE }));
            return true;
        }
        i += 1;
    }
    false
}

/// A limp robot's targets are its own angles, so rising starts where it is.
pub proof fn limp_targets_follow_the_robot(
    action: Action,
    src: TargetSources,
    observed_arm: Option<Scalar>,
    arm: ArmSource,
)
    ensures
        targets_spec(State::Relaxed, action, src, observed_arm, arm) == src.measured,
{
}

/// Holding the start pose moves no leg.
pub proof fn holding_moves_no_leg(
    action: Action,
    src: TargetSources,
    observed_arm: Option<Scalar>,
    arm: ArmSource,
)
    ensures
        targets_spec(State::HoldingStart, action, src, observed_arm, arm).legs == src.now.legs,
{
}

/// An arm that others drive is never sent elsewhere: where its angle is
/// observed, that is its target in every state that follows the operator.
pub proof fn a_foreign_arm_is_sent_nowhere(
    state: State,
    action: Action,
    src: TargetSources,
    observed: Scalar,
)
    requires
        state is HoldingStart || state is PlayingPose || state is FlippingKnees || (state is Active
            && action is RunGait),
    ensures
        targets_spec(state, action, src, Some(observed), ArmSource::Observed(observed)).arm
            == observed,
{
}

/// Asking for the same overrides again changes nothing, unless one of them is
/// not a number.
pub proof fn asking_again_changes_nothing(t: GaitTune)
    requires
        t.cycle_period_s is Some ==> !t.cycle_period_s->0.nan(),
        t.swing_height_m is Some ==> !t.swing_height_m->0.nan(),
        t.step_length_m is Some ==> !t.step_length_m->0.nan(),
        t.duty_factor is Some ==> !t.duty_factor->0.nan(),
    ensures
        !tunes_differ(t, t),
{
}

/// While a trajectory runs, the legs follow what it gives, in each of the states
/// that have one. Where none runs they stay.
pub proof fn a_trajectory_moves_the_legs(
    state: State,
    action: Action,
    src: TargetSources,
    observed_arm: Option<Scalar>,
    arm: ArmSource,
)
    requires
        state == State::GoingToStart || state == State::GoingToStance || state == State::PlayingPose
            || state == State::FlippingKnees,
    ensures
        ({
            let q = targets_spec(state, action, src, observed_arm, arm);
            &&& src.played matches Some(p) ==> q.legs == p.legs
            &&& src.played is None ==> q.legs == src.now.legs
        }),
{
}

/// The arm follows the trajectory too, unless others drive it and it is seen while
/// a pose plays or knees are turned.
pub proof fn a_trajectory_moves_our_arm(
    state: State,
    action: Action,
    src: TargetSources,
    observed_arm: Option<Scalar>,
    arm: ArmSource,
)
    requires
        state == State::GoingToStart || state == State::GoingToStance || state == State::PlayingPose
            || state == State::FlippingKnees,
    ensures
        ({
            let q = targets_spec(state, action, src, observed_arm, arm);
            let seen = observed_arm is Some && (state == State::PlayingPose || state
                == State::FlippingKnees);
            &&& seen ==> Some(q.arm) == observed_arm
            &&& !seen && src.played is Some ==> q.arm == src.played->0.arm
            &&& !seen && src.played is None ==> q.arm == src.now.arm
        }),
{
}

/// While the gait runs, the legs follow the gait, and the arm whatever it is to
/// follow. In any other period of the gait's state nothing moves.
pub proof fn the_running_gait_moves_the_legs(
    action: Action,
    src: TargetSources,
    observed_arm: Option<Scalar>,
    arm: ArmSource,
)
    ensures
        ({
            let q = targets_spec(State::Active, action, src, observed_arm, arm);
            &&& action == Action::RunGait ==> {
                &&& q.legs == src.gait.legs
                &&& arm == ArmSource::Stabiliser ==> q.arm == src.stabilised_arm
                &&& arm matches ArmSource::Observed(a) ==> q.arm == a
                &&& arm == ArmSource::Keep ==> q.arm == src.now.arm
            }
            &&& action != Action::RunGait ==> q == src.now
        }),
{
}

/// A held start pose keeps its arm, unless others drive it and it is seen.
pub proof fn a_held_pose_keeps_its_arm(
    action: Action,
    src: TargetSources,
    observed_arm: Option<Scalar>,
    arm: ArmSource,
)
    ensures
        observed_arm is None ==> targets_spec(State::HoldingStart, action, src, observed_arm, arm)
            == src.now,
        observed_arm matches Some(a) ==> targets_spec(
            State::HoldingStart,
            action,
            src,
            observed_arm,
            arm,
        ).arm == a,
{
}

/// The gait is given new parameters as soon as one of the four differs as a
/// number, appears or disappears.
pub proof fn one_changed_override_is_enough(a: GaitTune, b: GaitTune)
    ensures
        ({
            let off = |x: Option<Scalar>, y: Option<Scalar>|
                x is Some != y is Some || (x is Some && y is Some && !x->0.eq_num(y->0));
            tunes_differ(a, b) <==> off(a.cycle_period_s, b.cycle_period_s) || off(
                a.swing_height_m,
                b.swing_height_m,
            ) || off(a.step_length_m, b.step_length_m) || off(a.duty_factor, b.duty_factor)
        }),
{
}

/// One foot that has moved by a billionth of a metre or more is enough for new
/// leg geometry.
pub proof fn one_moved_foot_is_enough(moved: Seq<Scalar>, i: int)
    requires
        0 <= i < moved.len(),
        (Scalar { bits: SAME_PLACE }).le_num(moved[i]),
    ensures
        !feet_unmoved(moved),
{
}

} // verus!
