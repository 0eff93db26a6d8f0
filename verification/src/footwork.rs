//! Where each step of a knee choreography sends the legs.
//!
//! The order of the steps is laid out in [`crate::knee`]. Here each step says what
//! becomes of each leg: which of its joints move, and to which foot place. The
//! angles that bring a foot to a place come from the leg kinematics.

use vstd::prelude::*;

use crate::config::KneeFlipStyle;
use crate::jointvec::JointVec;
use crate::knee;
use crate::knee::{first_outside, FlipRequest, FlipStep, JointAt, Motion, Tag};
use crate::legs::LegFlags;
use crate::parking;
use crate::parking::fold_calf;
use crate::scalar::Scalar;

verus! {

/// Where on the ground a foot belongs.
#[derive(Clone, Copy, Debug, PartialEq, Eq, Structural)]
pub enum Place {
    /// Where it stands when the choreography begins.
    Stance,
    /// Where the body can be lowered onto it with the old knees.
    OldRest,
    /// Where the body can be raised from it with the new knees.
    NewRest,
}

/// How far below the body a foot is.
#[derive(Clone, Copy, Debug, PartialEq, Eq, Structural)]
pub enum Level {
    /// On the ground, the body at standing height.
    Stance,
    /// A little above that ground.
    StanceRaised,
    /// On the ground, with so many thirds of the way to the resting height done.
    Lowered(u8),
    /// On the ground, with so many thirds of the way back up done.
    Risen(u8),
    /// On the ground, the body resting.
    Rest,
    /// Lifted off it, the body resting.
    RestLifted,
    /// On the ground, the body at the height at which legs are turned.
    Flip,
    /// Lifted off it for turning.
    FlipLifted,
    /// Lifted off it for probing.
    FlipProbe,
}

/// How the body is shifted over the feet.
#[derive(Clone, Copy, Debug, PartialEq, Eq, Structural)]
pub enum Lean {
    Centred,
    /// Away from the leg, to the opposite corner.
    AwayFrom(usize),
    /// Across the support line, so that the mass is over it.
    OverLine,
    /// As before the last correction of that shift.
    NearLine,
}

/// A place for a foot, seen from the body.
#[derive(Clone, Copy, Debug, PartialEq, Eq, Structural)]
pub struct Spot {
    pub place: Place,
    pub level: Level,
    pub lean: Lean,
}

/// What a step does to one leg.
#[derive(Clone, Copy, Debug, PartialEq, Eq, Structural)]
pub enum LegGoal {
    /// Nothing.
    Keep,
    /// All joints bring the foot to a spot.
    Foot(Spot),
    /// The same, but with the hip rolled outward.
    FootRolled(Spot),
    /// Thigh and calf as for a spot; the hip stays.
    ThighAndCalf(Spot),
    /// The thigh as for a spot.
    Thigh(Spot),
    /// The calf folds further the way it is bent, never less.
    FoldCalf,
    /// The hip rolls outward.
    RollHip,
    /// The thigh points away.
    SwingThigh,
    StraightenCalf,
    /// The calf folds the other way.
    FoldCalfOver,
}

pub open spec fn covers(tag: Tag, leg: int) -> bool {
    match tag {
        Tag::Everyone => true,
        Tag::Leg(s) => s == leg,
        Tag::Diagonal(a, b) => a == leg || b == leg,
    }
}

/// The place of a leg in the order in which feet are put elsewhere.
pub open spec fn turn_of(leg: int) -> int {
    if leg == 0 {
        0
    } else if leg == 3 {
        1
    } else if leg == 1 {
        2
    } else {
        3
    }
}

pub open spec fn lean_of(tag: Tag) -> Lean {
    match tag {
        Tag::Everyone => Lean::Centred,
        Tag::Leg(s) => Lean::AwayFrom(s),
        Tag::Diagonal(_, _) => Lean::OverLine,
    }
}

/// The goals while the robot stands on the legs that are not turned.
pub open spec fn standing_goal(req: FlipRequest, step: FlipStep, leg: int) -> LegGoal {
    let turned = covers(step.tag, leg) && req.flips(leg);
    let lean = lean_of(step.tag);
    let lift_lean = if lean is OverLine { Lean::NearLine } else { lean };
    match step.motion {
        Motion::Lean => LegGoal::Foot(Spot { place: Place::Stance, level: Level::Flip, lean }),
        Motion::Centre => LegGoal::Foot(Spot { place: Place::Stance, level: Level::Stance, lean }),
        Motion::ProbeUp(_) => if turned {
            LegGoal::Foot(Spot { place: Place::Stance, level: Level::FlipProbe, lean })
        } else {
            LegGoal::Keep
        },
        Motion::ProbeDown(_) => if turned {
            LegGoal::Foot(Spot { place: Place::Stance, level: Level::Flip, lean })
        } else {
            LegGoal::Keep
        },
        Motion::Lift => if turned {
            LegGoal::FootRolled(
                Spot { place: Place::Stance, level: Level::FlipLifted, lean: lift_lean },
            )
        } else {
            LegGoal::Keep
        },
        Motion::Turn => if turned {
            LegGoal::ThighAndCalf(Spot { place: Place::Stance, level: Level::FlipLifted, lean })
        } else {
            LegGoal::Keep
        },
        Motion::Home => if turned {
            LegGoal::Foot(Spot { place: Place::Stance, level: Level::FlipLifted, lean })
        } else {
            LegGoal::Keep
        },
        Motion::Land => if turned {
            LegGoal::Foot(Spot { place: Place::Stance, level: Level::Flip, lean })
        } else {
            LegGoal::Keep
        },
        _ => LegGoal::Keep,
    }
}

pub open spec fn at(place: Place, level: Level) -> Spot {
    Spot { place, level, lean: Lean::Centred }
}

/// The goals while the robot lies down.
pub open spec fn resting_goal(req: FlipRequest, step: FlipStep, leg: int) -> LegGoal {
    let named = covers(step.tag, leg);
    let turned = req.flips(leg);
    let lean = lean_of(step.tag);
    match step.motion {
        Motion::Lean => {
            let moved = step.tag matches Tag::Leg(s) && turn_of(leg) < turn_of(s as int);
            let place = if moved { Place::OldRest } else { Place::Stance };
            LegGoal::Foot(Spot { place, level: Level::Stance, lean })
        },
        Motion::Raise => if named {
            LegGoal::Foot(Spot { place: Place::Stance, level: Level::StanceRaised, lean })
        } else {
            LegGoal::Keep
        },
        Motion::Carry => if named {
            LegGoal::Foot(Spot { place: Place::OldRest, level: Level::StanceRaised, lean })
        } else {
            LegGoal::Keep
        },
        Motion::Place => if named {
            LegGoal::Foot(Spot { place: Place::OldRest, level: Level::Stance, lean })
        } else {
            LegGoal::Keep
        },
        Motion::Centre => LegGoal::Foot(at(Place::OldRest, Level::Stance)),
        Motion::Lower(i) => LegGoal::Foot(at(Place::OldRest, Level::Lowered(i))),
        Motion::Float => LegGoal::Foot(at(Place::OldRest, Level::RestLifted)),
        Motion::Fold => if turned { LegGoal::FoldCalf } else { LegGoal::Keep },
        Motion::RollOut => if turned { LegGoal::RollHip } else { LegGoal::Keep },
        Motion::SwingOut => if turned { LegGoal::SwingThigh } else { LegGoal::Keep },
        Motion::Straighten => if turned { LegGoal::StraightenCalf } else { LegGoal::Keep },
        Motion::FoldBack => if turned { LegGoal::FoldCalfOver } else { LegGoal::Keep },
        Motion::ThighHome => if turned {
            LegGoal::Thigh(at(Place::NewRest, Level::RestLifted))
        } else {
            LegGoal::Keep
        },
        Motion::Home => if turned {
            LegGoal::Foot(at(Place::NewRest, Level::RestLifted))
        } else {
            LegGoal::Keep
        },
        Motion::Align => if turned {
            LegGoal::Keep
        } else {
            LegGoal::Foot(at(Place::NewRest, Level::RestLifted))
        },
        Motion::Ground => LegGoal::Foot(at(Place::NewRest, Level::Rest)),
        Motion::Rise(i) => LegGoal::Foot(at(Place::NewRest, Level::Risen(i))),
        _ => LegGoal::Keep,
    }
}

pub open spec fn goal_of(req: FlipRequest, step: FlipStep, leg: int) -> LegGoal {
    if req.style is Rest {
        resting_goal(req, step, leg)
    } else {
        standing_goal(req, step, leg)
    }
}

fn tag_covers(tag: Tag, leg: usize) -> (r: bool)
    ensures
        r == covers(tag, leg as int),
{
    match tag {
        Tag::Everyone => true,
        Tag::Leg(s) => s == leg,
        Tag::Diagonal(a, b) => a == leg || b == leg,
    }
}

fn tag_lean(tag: Tag) -> (r: Lean)
    ensures
        r == lean_of(tag),
{
    match tag {
        Tag::Everyone => Lean::Centred,
        Tag::Leg(s) => Lean::AwayFrom(s),
        Tag::Diagonal(_, _) => Lean::OverLine,
    }
}

fn turn_number(leg: usize) -> (r: usize)
    ensures
        r == turn_of(leg as int),
{
    if leg == 0 {
        0
    } else if leg == 3 {
        1
    } else if leg == 1 {
        2
    } else {
        3
    }
}

fn only_if(moves: bool, goal: LegGoal) -> (r: LegGoal)
    ensures
        r == (if moves { goal } else { LegGoal::Keep }),
{
    if moves {
        goal
    } else {
        LegGoal::Keep
    }
}

fn centred(place: Place, level: Level) -> (r: LegGoal)
    ensures
        r == LegGoal::Foot(at(place, level)),
{
    LegGoal::Foot(Spot { place, level, lean: Lean::Centred })
}

fn goal_standing(req: &FlipRequest, step: &FlipStep, leg: usize) -> (r: LegGoal)
    requires
        leg < 4,
    ensures
        r == standing_goal(*req, *step, leg as int),
{
    let turned: bool = tag_covers(step.tag, leg) && req.old.forward(leg) != req.new.forward(leg);
    let lean: Lean = tag_lean(step.tag);
    let lift_lean: Lean = if lean == Lean::OverLine {
        Lean::NearLine
    } else {
        lean
    };
    let place: Place = Place::Stance;
    match step.motion {
        Motion::Lean => LegGoal::Foot(Spot { place, level: Level::Flip, lean }),
        Motion::Centre => LegGoal::Foot(Spot { place, level: Level::Stance, lean }),
        Motion::ProbeUp(_) => only_if(turned, LegGoal::Foot(Spot { place, level: Level::FlipProbe, lean })),
        Motion::ProbeDown(_) => only_if(turned, LegGoal::Foot(Spot { place, level: Level::Flip, lean })),
        Motion::Lift => only_if(
            turned,
            LegGoal::FootRolled(Spot { place, level: Level::FlipLifted, lean: lift_lean }),
        ),
        Motion::Turn => only_if(
            turned,
            LegGoal::ThighAndCalf(Spot { place, level: Level::FlipLifted, lean }),
        ),
        Motion::Home => only_if(turned, LegGoal::Foot(Spot { place, level: Level::FlipLifted, lean })),
        Motion::Land => only_if(turned, LegGoal::Foot(Spot { place, level: Level::Flip, lean })),
        _ => LegGoal::Keep,
    }
}

fn goal_resting(req: &FlipRequest, step: &FlipStep, leg: usize) -> (r: LegGoal)
    requires
        leg < 4,
    ensures
        r == resting_goal(*req, *step, leg as int),
{
    let named: bool = tag_covers(step.tag, leg);
    let turned: bool = req.old.forward(leg) != req.new.forward(leg);
    let lean: Lean = tag_lean(step.tag);
    match step.motion {
        Motion::Lean => {
            let moved: bool = match step.tag {
                Tag::Leg(s) => turn_number(leg) < turn_number(s),
                _ => false,
            };
            let place: Place = if moved {
                Place::OldRest
            } else {
                Place::Stance
            };
            LegGoal::Foot(Spot { place, level: Level::Stance, lean })
        },
        Motion::Raise => only_if(
            named,
            LegGoal::Foot(Spot { place: Place::Stance, level: Level::StanceRaised, lean }),
        ),
        Motion::Carry => only_if(
            named,
            LegGoal::Foot(Spot { place: Place::OldRest, level: Level::StanceRaised, lean }),
        ),
        Motion::Place => only_if(
            named,
            LegGoal::Foot(Spot { place: Place::OldRest, level: Level::Stance, lean }),
        ),
        Motion::Centre => centred(Place::OldRest, Level::Stance),
        Motion::Lower(i) => centred(Place::OldRest, Level::Lowered(i)),
        Motion::Float => centred(Place::OldRest, Level::RestLifted),
        Motion::Fold => only_if(turned, LegGoal::FoldCalf),
        Motion::RollOut => only_if(turned, LegGoal::RollHip),
        Motion::SwingOut => only_if(turned, LegGoal::SwingThigh),
        Motion::Straighten => only_if(turned, LegGoal::StraightenCalf),
        Motion::FoldBack => only_if(turned, LegGoal::FoldCalfOver),
        Motion::ThighHome => only_if(
            turned,
            LegGoal::Thigh(
                Spot { place: Place::NewRest, level: Level::RestLifted, lean: Lean::Centred },
            ),
        ),
        Motion::Home => only_if(turned, centred(Place::NewRest, Level::RestLifted)),
        Motion::Align => only_if(!turned, centred(Place::NewRest, Level::RestLifted)),
        Motion::Ground => centred(Place::NewRest, Level::Rest),
        Motion::Rise(i) => centred(Place::NewRest, Level::Risen(i)),
        _ => LegGoal::Keep,
    }
}

/// What a step does to a leg. A foot goes to its spot with the knee bent as the
/// step says.
pub fn leg_goal(req: &FlipRequest, step: &FlipStep, leg: usize) -> (r: LegGoal)
    requires
        leg < 4,
    ensures
        r == goal_of(*req, *step, leg as int),
{
    if req.style == KneeFlipStyle::Rest {
        goal_resting(req, step, leg)
    } else {
        goal_standing(req, step, leg)
    }
}

// ---- From goals to angles ----

/// The angles of a leg.
#[derive(Clone, Copy, Debug, PartialEq, Eq, Structural)]
pub struct LegAngles {
    pub hip: Scalar,
    pub thigh: Scalar,
    pub calf: Scalar,
}

/// What the leg kinematics and the joint ranges offer for a leg in a step.
#[derive(Clone, Copy, Debug, PartialEq, Eq, Structural)]
pub struct LegPieces {
    /// The angles for the goal's spot; `None` where the leg does not reach it.
    pub foot: Option<LegAngles>,
    /// The hip rolled outward.
    pub hip_out: Scalar,
    /// The thigh pointing away; `None` where the foot would dig in either way.
    pub thigh_out: Option<Scalar>,
    /// The ends of the calf's range, less a margin.
    pub above_low: Scalar,
    pub below_high: Scalar,
}

/// Bent at least as far as `folded`, the way the calf is bent already.
pub open spec fn folded_further(calf: Scalar, folded: Scalar) -> Scalar {
    if calf.lt_num(Scalar::zero_spec()) {
        if folded.lt_num(calf) {
            folded
        } else {
            calf
        }
    } else if calf.nan() || calf.lt_num(folded) {
        folded
    } else {
        calf
    }
}

/// A leg after a step; `None` where it cannot do what the step asks. `backward`
/// says which way the calf was bent before it was folded.
pub open spec fn moved(before: LegAngles, backward: bool, goal: LegGoal, p: LegPieces) -> Option<LegAngles> {
    match goal {
        LegGoal::Keep => Some(before),
        LegGoal::Foot(_) => p.foot,
        LegGoal::FootRolled(_) => match p.foot {
            Some(f) => Some(LegAngles { hip: p.hip_out, ..f }),
            None => None,
        },
        LegGoal::ThighAndCalf(_) => match p.foot {
            Some(f) => Some(LegAngles { hip: before.hip, ..f }),
            None => None,
        },
        LegGoal::Thigh(_) => match p.foot {
            Some(f) => Some(LegAngles { thigh: f.thigh, ..before }),
            None => None,
        },
        LegGoal::FoldCalf => {
            let fold = parking::folded_calf(
                before.calf.lt_num(Scalar::zero_spec()),
                true,
                p.above_low,
                p.below_high,
            );
            Some(LegAngles { calf: folded_further(before.calf, fold), ..before })
        },
        LegGoal::RollHip => Some(LegAngles { hip: p.hip_out, ..before }),
        LegGoal::SwingThigh => match p.thigh_out {
            Some(t) => Some(LegAngles { thigh: t, ..before }),
            None => None,
        },
        LegGoal::StraightenCalf => Some(LegAngles { calf: Scalar::zero_spec(), ..before }),
        LegGoal::FoldCalfOver => Some(
            LegAngles {
                calf: parking::folded_calf(!backward, true, p.above_low, p.below_high),
                ..before
            },
        ),
    }
}

fn move_leg(before: LegAngles, backward: bool, goal: LegGoal, p: &LegPieces) -> (r: Option<LegAngles>)
    ensures
        r == moved(before, backward, goal, *p),
{
    match goal {
        LegGoal::Keep => Some(before),
        LegGoal::Foot(_) => p.foot,
        LegGoal::FootRolled(_) => match p.foot {
            Some(f) => Some(LegAngles { hip: p.hip_out, ..f }),
            None => None,
        },
        LegGoal::ThighAndCalf(_) => match p.foot {
            Some(f) => Some(LegAngles { hip: before.hip, ..f }),
            None => None,
        },
        LegGoal::Thigh(_) => match p.foot {
            Some(f) => Some(LegAngles { thigh: f.thigh, ..before }),
            None => None,
        },
        LegGoal::FoldCalf => {
            let back: bool = before.calf.less(Scalar::zero());
            let fold: Scalar = fold_calf(back, true, p.above_low, p.below_high);
            let calf: Scalar = if back {
                if fold.less(before.calf) {
                    fold
                } else {
                    before.calf
                }
            } else if before.calf.is_nan() || before.calf.less(fold) {
                fold
            } else {
                before.calf
            };
            Some(LegAngles { calf, ..before })
        },
        LegGoal::RollHip => Some(LegAngles { hip: p.hip_out, ..before }),
        LegGoal::SwingThigh => match p.thigh_out {
            Some(t) => Some(LegAngles { thigh: t, ..before }),
            None => None,
        },
        LegGoal::StraightenCalf => Some(LegAngles { calf: Scalar::zero(), ..before }),
        LegGoal::FoldCalfOver => Some(
            LegAngles { calf: fold_calf(!backward, true, p.above_low, p.below_high), ..before },
        ),
    }
}

/// The four legs.
#[derive(Clone, Copy, Debug, PartialEq, Eq, Structural)]
pub struct LegSet {
    pub fl: LegAngles,
    pub fr: LegAngles,
    pub rl: LegAngles,
    pub rr: LegAngles,
}

impl LegSet {
    pub open spec fn at(self, leg: int) -> LegAngles {
        if leg == 0 {
            self.fl
        } else if leg == 1 {
            self.fr
        } else if leg == 2 {
            self.rl
        } else {
            self.rr
        }
    }

    /// The legs of a posture.
    pub fn of(q: &JointVec) -> (r: LegSet)
        ensures
            forall|leg: int|
                0 <= leg < 4 ==> #[trigger] r.at(leg) == (LegAngles {
                    hip: q.at(leg, 0),
                    thigh: q.at(leg, 1),
                    calf: q.at(leg, 2),
                }),
    {
        LegSet {
            fl: LegAngles { hip: q.get(0, 0), thigh: q.get(0, 1), calf: q.get(0, 2) },
            fr: LegAngles { hip: q.get(1, 0), thigh: q.get(1, 1), calf: q.get(1, 2) },
            rl: LegAngles { hip: q.get(2, 0), thigh: q.get(2, 1), calf: q.get(2, 2) },
            rr: LegAngles { hip: q.get(3, 0), thigh: q.get(3, 1), calf: q.get(3, 2) },
        }
    }

    /// The posture with these legs.
    pub fn posture(&self, arm: Scalar) -> (r: JointVec)
        ensures
            r.arm == arm,
            forall|leg: int|
                0 <= leg < 4 ==> {
                    &&& (#[trigger] self.at(leg)).hip == r.at(leg, 0)
                    &&& self.at(leg).thigh == r.at(leg, 1)
                    &&& self.at(leg).calf == r.at(leg, 2)
                },
    {
        JointVec {
            legs: [
                [self.fl.hip, self.fl.thigh, self.fl.calf],
                [self.fr.hip, self.fr.thigh, self.fr.calf],
                [self.rl.hip, self.rl.thigh, self.rl.calf],
                [self.rr.hip, self.rr.thigh, self.rr.calf],
            ],
            arm,
        }
    }
}

/// The legs between two steps, and which way each calf was bent before it was
/// folded.
#[derive(Clone, Copy, Debug, PartialEq, Eq, Structural)]
pub struct FlipPose {
    pub legs: LegSet,
    pub backward: LegFlags,
}

/// A leg that cannot do what a step asks of it.
#[derive(Clone, Copy, Debug, PartialEq, Eq, Structural)]
pub struct Stuck {
    pub step: usize,
    pub leg: usize,
}

pub open spec fn leg_after(
    req: FlipRequest,
    step: FlipStep,
    pose: FlipPose,
    pieces: Seq<LegPieces>,
    leg: int,
) -> Option<LegAngles> {
    moved(pose.legs.at(leg), backward_in(step, pose).at(leg), goal_of(req, step, leg), pieces[leg])
}

/// Folding remembers which way the calves are bent.
pub open spec fn backward_in(step: FlipStep, pose: FlipPose) -> LegFlags {
    if step.motion is Fold {
        LegFlags {
            fl: pose.legs.fl.calf.lt_num(Scalar::zero_spec()),
            fr: pose.legs.fr.calf.lt_num(Scalar::zero_spec()),
            rl: pose.legs.rl.calf.lt_num(Scalar::zero_spec()),
            rr: pose.legs.rr.calf.lt_num(Scalar::zero_spec()),
        }
    } else {
        pose.backward
    }
}

/// The legs after step number `n`, or the first leg that cannot follow.
pub open spec fn pose_after_step(
    req: FlipRequest,
    step: FlipStep,
    pose: FlipPose,
    pieces: Seq<LegPieces>,
    n: int,
) -> Result<FlipPose, Stuck> {
    match (
        leg_after(req, step, pose, pieces, 0),
        leg_after(req, step, pose, pieces, 1),
        leg_after(req, step, pose, pieces, 2),
        leg_after(req, step, pose, pieces, 3),
    ) {
        (Some(fl), Some(fr), Some(rl), Some(rr)) => Ok(
            FlipPose { legs: LegSet { fl, fr, rl, rr }, backward: backward_in(step, pose) },
        ),
        (None, _, _, _) => Err(Stuck { step: n as usize, leg: 0 }),
        (_, None, _, _) => Err(Stuck { step: n as usize, leg: 1 }),
        (_, _, None, _) => Err(Stuck { step: n as usize, leg: 2 }),
        _ => Err(Stuck { step: n as usize, leg: 3 }),
    }
}

/// The legs after the first `n` steps.
pub open spec fn pose_after(
    req: FlipRequest,
    steps: Seq<FlipStep>,
    start: FlipPose,
    pieces: Seq<Vec<LegPieces>>,
    n: int,
) -> Result<FlipPose, Stuck>
    decreases n,
{
    if n <= 0 {
        Ok(start)
    } else {
        match pose_after(req, steps, start, pieces, n - 1) {
            Ok(pose) => pose_after_step(req, steps[n - 1], pose, pieces[n - 1]@, n - 1),
            Err(e) => Err(e),
        }
    }
}

/// The choreography got there, with these legs.
pub open spec fn stands_as(pose: Result<FlipPose, Stuck>, legs: LegSet) -> bool {
    match pose {
        Ok(p) => p.legs == legs,
        Err(_) => false,
    }
}

fn advance_pose(
    req: &FlipRequest,
    step: &FlipStep,
    pose: &FlipPose,
    pieces: &Vec<LegPieces>,
    n: usize,
) -> (r: Result<FlipPose, Stuck>)
    requires
        pieces@.len() == 4,
    ensures
        r == pose_after_step(*req, *step, *pose, pieces@, n as int),
{
    let backward: LegFlags = match step.motion {
        Motion::Fold => LegFlags {
            fl: pose.legs.fl.calf.less(Scalar::zero()),
            fr: pose.legs.fr.calf.less(Scalar::zero()),
            rl: pose.legs.rl.calf.less(Scalar::zero()),
            rr: pose.legs.rr.calf.less(Scalar::zero()),
        },
        _ => pose.backward,
    };
    let fl = match move_leg(pose.legs.fl, backward.fl, leg_goal(req, step, 0), &pieces[0]) {
        Some(l) => l,
        None => return Err(Stuck { step: n, leg: 0 }),
    };
    let fr = match move_leg(pose.legs.fr, backward.fr, leg_goal(req, step, 1), &pieces[1]) {
        Some(l) => l,
        None => return Err(Stuck { step: n, leg: 1 }),
    };
    let rl = match move_leg(pose.legs.rl, backward.rl, leg_goal(req, step, 2), &pieces[2]) {
        Some(l) => l,
        None => return Err(Stuck { step: n, leg: 2 }),
    };
    let rr = match move_leg(pose.legs.rr, backward.rr, leg_goal(req, step, 3), &pieces[3]) {
        Some(l) => l,
        None => return Err(Stuck { step: n, leg: 3 }),
    };
    Ok(FlipPose { legs: LegSet { fl, fr, rl, rr }, backward })
}

/// The legs at the end of each step. A choreography with a leg that cannot follow
/// is refused. `pieces` holds what there is for each leg in each step.
pub fn flip_targets(
    req: &FlipRequest,
    steps: &Vec<FlipStep>,
    start: LegSet,
    pieces: &Vec<Vec<LegPieces>>,
) -> (r: Result<Vec<LegSet>, Stuck>)
    requires
        pieces@.len() == steps@.len(),
        forall|i: int| 0 <= i < pieces@.len() ==> (#[trigger] pieces@[i])@.len() == 4,
    ensures
        ({
            let first = FlipPose { legs: start, backward: LegFlags::none_spec() };
            match r {
                Ok(v) => {
                    &&& v@.len() == steps@.len()
                    &&& forall|i: int|
                        0 <= i < v@.len() ==> stands_as(
                            pose_after(*req, steps@, first, pieces@, i + 1),
                            #[trigger] v@[i],
                        )
                },
                Err(e) => pose_after(*req, steps@, first, pieces@, steps@.len() as int) == Err::<
                    FlipPose,
                    Stuck,
                >(e),
            }
        }),
{
    let ghost first = FlipPose { legs: start, backward: LegFlags::none_spec() };
    let mut pose = FlipPose { legs: start, backward: LegFlags::none() };
    let mut out: Vec<LegSet> = Vec::new();
    let mut i: usize = 0;
    while i < steps.len()
        invariant
            i <= steps@.len() == pieces@.len(),
            forall|k: int| 0 <= k < pieces@.len() ==> (#[trigger] pieces@[k])@.len() == 4,
            out@.len() == i,
            pose_after(*req, steps@, first, pieces@, i as int) == Ok::<FlipPose, Stuck>(pose),
            first == (FlipPose { legs: start, backward: LegFlags::none_spec() }),
            forall|k: int|
                0 <= k < i ==> stands_as(
                    pose_after(*req, steps@, first, pieces@, k + 1),
                    #[trigger] out@[k],
                ),
        decreases steps@.len() - i,
    {
        match advance_pose(req, &steps[i], &pose, &pieces[i], i) {
            Ok(p) => {
                assert(pose_after(*req, steps@, first, pieces@, i + 1) == Ok::<FlipPose, Stuck>(p));
                pose = p;
                out.push(p.legs);
            },
            Err(e) => {
                proof {
                    lemma_stuck_stays(*req, steps@, first, pieces@, i + 1, steps@.len() as int, e);
                }
                return Err(e);
            },
        }
        i += 1;
    }
    Ok(out)
}

proof fn lemma_stuck_stays(
    req: FlipRequest,
    steps: Seq<FlipStep>,
    start: FlipPose,
    pieces: Seq<Vec<LegPieces>>,
    n: int,
    m: int,
    e: Stuck,
)
    requires
        0 < n <= m,
        pose_after(req, steps, start, pieces, n) == Err::<FlipPose, Stuck>(e),
    ensures
        pose_after(req, steps, start, pieces, m) == Err::<FlipPose, Stuck>(e),
    decreases m - n,
{
    if n < m {
        lemma_stuck_stays(req, steps, start, pieces, n, m - 1, e);
    }
}

// ---- Staying off the floor ----

/// How many times an airborne leg is looked at on its way through a step, both
/// ends included.
pub const AIR_SAMPLES: usize = 21;

/// The way of a leg through a step, sampled.
#[derive(Clone, Debug, PartialEq, Eq)]
pub struct AirPath {
    /// The foot's height at the beginning of the step, less a tolerance.
    pub begin_z: Scalar,
    /// The floor below the body, with a margin.
    pub floor_z: Scalar,
    pub feet_z: Vec<Scalar>,
    pub knees_z: Vec<Scalar>,
}

/// The lower of two heights.
pub open spec fn lower_of(a: Scalar, b: Scalar) -> Scalar {
    if a.nan() || b.lt_num(a) {
        b
    } else {
        a
    }
}

/// The foot is too low: below both the height at which it left the ground and the
/// floor.
pub open spec fn by_foot(path: AirPath, lift_off_z: Scalar, k: int) -> bool {
    path.feet_z@[k].lt_num(lower_of(lift_off_z, path.floor_z))
}

/// A foot may sink below where it left the ground as long as it stays off the
/// floor; a knee has to stay off the floor.
pub open spec fn scrapes(path: AirPath, lift_off_z: Scalar, k: int) -> bool {
    by_foot(path, lift_off_z, k) || path.knees_z@[k].lt_num(path.floor_z)
}

/// Where an airborne leg comes too close to the floor.
#[derive(Clone, Copy, Debug, PartialEq, Eq, Structural)]
pub struct Scrape {
    pub sample: usize,
    /// The foot is too low; else it is the knee.
    pub foot: bool,
}

/// The first sample at which an airborne leg that left the ground at `lift_off_z`
/// comes too close to the floor.
pub fn first_scrape(path: &AirPath, lift_off_z: Scalar) -> (r: Option<Scrape>)
    requires
        path.feet_z@.len() == path.knees_z@.len(),
    ensures
        match r {
            Some(s) => {
                &&& s.sample < path.feet_z@.len()
                &&& scrapes(*path, lift_off_z, s.sample as int)
                &&& s.foot == by_foot(*path, lift_off_z, s.sample as int)
                &&& forall|k: int| 0 <= k < s.sample ==> !#[trigger] scrapes(*path, lift_off_z, k)
            },
            None => forall|k: int|
                0 <= k < path.feet_z@.len() ==> !#[trigger] scrapes(*path, lift_off_z, k),
        },
{
    let lowest: Scalar = if lift_off_z.is_nan() || path.floor_z.less(lift_off_z) {
        path.floor_z
    } else {
        lift_off_z
    };
    let mut k: usize = 0;
    while k < path.feet_z.len()
        invariant
            k <= path.feet_z@.len() == path.knees_z@.len(),
            lowest == lower_of(lift_off_z, path.floor_z),
            forall|j: int| 0 <= j < k ==> !#[trigger] scrapes(*path, lift_off_z, j),
        decreases path.feet_z@.len() - k,
    {
        if path.feet_z[k].less(lowest) {
            assert(scrapes(*path, lift_off_z, k as int));
            return Some(Scrape { sample: k, foot: true });
        }
        if path.knees_z[k].less(path.floor_z) {
            assert(scrapes(*path, lift_off_z, k as int));
            return Some(Scrape { sample: k, foot: false });
        }
        k += 1;
    }
    None
}

/// The height at which a leg that is airborne at step `i` left the ground: that at
/// the beginning of the first of the steps through which it has been airborne, as
/// far as it could be measured.
pub open spec fn lift_off(steps: Seq<FlipStep>, paths: Seq<Vec<AirPath>>, i: int, leg: int) -> Scalar
    decreases i,
{
    if i > 0 && !steps[i - 1].stance.at(leg) && !lift_off(steps, paths, i - 1, leg).nan() {
        lift_off(steps, paths, i - 1, leg)
    } else {
        paths[i]@[leg].begin_z
    }
}

/// A leg stands through a step, or stays off the floor at every sample.
pub open spec fn leg_is_clear(steps: Seq<FlipStep>, paths: Seq<Vec<AirPath>>, i: int, leg: int) -> bool {
    steps[i].stance.at(leg) || forall|k: int|
        0 <= k < paths[i]@[leg].feet_z@.len() ==> !#[trigger] scrapes(
            paths[i]@[leg],
            lift_off(steps, paths, i, leg),
            k,
        )
}

/// Every leg of every step before leg `leg` of step `step` is clear.
pub open spec fn clear_before(
    steps: Seq<FlipStep>,
    paths: Seq<Vec<AirPath>>,
    step: int,
    leg: int,
) -> bool {
    forall|i: int, l: int|
        0 <= i < steps.len() && 0 <= l < 4 && (i < step || (i == step && l < leg))
            ==> #[trigger] leg_is_clear(steps, paths, i, l)
}

/// Why a choreography is refused.
#[derive(Clone, Copy, Debug, PartialEq, Eq, Structural)]
pub enum FlipFault {
    /// A joint leaves its range.
    Range(JointAt),
    /// An airborne leg comes too close to the floor on its way through a step.
    Floor { step: usize, leg: usize, scrape: Scrape },
}

/// The samples of each step: four legs, and as many heights of knees as of feet,
/// [`AIR_SAMPLES`] of them where the leg is airborne.
pub open spec fn sampled(steps: Seq<FlipStep>, paths: Seq<Vec<AirPath>>) -> bool {
    &&& paths.len() == steps.len()
    &&& forall|i: int| 0 <= i < paths.len() ==> (#[trigger] paths[i])@.len() == 4
    &&& forall|i: int, l: int|
        0 <= i < paths.len() && 0 <= l < 4 && !steps[i].stance.at(l) ==> {
            let p = #[trigger] paths[i]@[l];
            p.feet_z@.len() == AIR_SAMPLES && p.knees_z@.len() == AIR_SAMPLES
        }
}

/// Approves a choreography: every joint of every step's target inside its range,
/// and every airborne leg off the floor. The first fault is reported, ranges
/// before floors, in the order of the steps and of the legs.
pub fn approve_flip(
    steps: &Vec<FlipStep>,
    targets: &Vec<Vec<Scalar>>,
    bounds: &Vec<(Scalar, Scalar)>,
    paths: &Vec<Vec<AirPath>>,
) -> (r: Result<(), FlipFault>)
    requires
        targets@.len() == steps@.len(),
        forall|i: int| 0 <= i < targets@.len() ==> (#[trigger] targets@[i])@.len() == bounds@.len(),
        sampled(steps@, paths@),
    ensures
        r is Ok <==> knee::inside_before(targets@, bounds@, targets@.len() as int, 0) && clear_before(
            steps@,
            paths@,
            steps@.len() as int,
            0,
        ),
        match r {
            Ok(_) => true,
            Err(FlipFault::Range(at)) => {
                &&& at.step < steps@.len()
                &&& at.joint < bounds@.len()
                &&& knee::outside(targets@[at.step as int]@, bounds@, at.joint as int)
                &&& knee::inside_before(targets@, bounds@, at.step as int, at.joint as int)
            },
            Err(FlipFault::Floor { step, leg, scrape }) => {
                let path = paths@[step as int]@[leg as int];
                let from = lift_off(steps@, paths@, step as int, leg as int);
                &&& step < steps@.len()
                &&& leg < 4
                &&& !steps@[step as int].stance.at(leg as int)
                &&& scrape.sample < AIR_SAMPLES
                &&& scrapes(path, from, scrape.sample as int)
                &&& scrape.foot == by_foot(path, from, scrape.sample as int)
                &&& forall|k: int| 0 <= k < scrape.sample ==> !#[trigger] scrapes(path, from, k)
                &&& knee::inside_before(targets@, bounds@, targets@.len() as int, 0)
                &&& clear_before(steps@, paths@, step as int, leg as int)
            },
        },
{
    if let Some(at) = first_outside(targets, bounds) {
        return Err(FlipFault::Range(at));
    }
    // Where each leg left the ground, unless it stands or that is not known.
    let mut left: Vec<Option<Scalar>> = Vec::new();
    left.push(None);
    left.push(None);
    left.push(None);
    left.push(None);
    let mut i: usize = 0;
    while i < steps.len()
        invariant
            i <= steps@.len(),
            sampled(steps@, paths@),
            clear_before(steps@, paths@, i as int, 0),
            knee::inside_before(targets@, bounds@, targets@.len() as int, 0),
            left@.len() == 4,
            forall|l: int| 0 <= l < 4 ==> #[trigger] left@[l] == carried(steps@, paths@, i as int, l),
        decreases steps@.len() - i,
    {
        let mut leg: usize = 0;
        while leg < 4
            invariant
                i < steps@.len(),
                leg <= 4,
                sampled(steps@, paths@),
                clear_before(steps@, paths@, i as int, leg as int),
                knee::inside_before(targets@, bounds@, targets@.len() as int, 0),
                left@.len() == 4,
                forall|l: int|
                    0 <= l < leg ==> #[trigger] left@[l] == carried(steps@, paths@, i + 1, l),
                forall|l: int|
                    leg <= l < 4 ==> #[trigger] left@[l] == carried(steps@, paths@, i as int, l),
            decreases 4 - leg,
        {
            if steps[i].stance.get(leg) {
                left[leg] = None;
            } else {
                let path: &AirPath = &paths[i][leg];
                assert(*path == paths@[i as int]@[leg as int]);
                let from: Scalar = match left[leg] {
                    Some(z) => z,
                    None => path.begin_z,
                };
                assert(from == lift_off(steps@, paths@, i as int, leg as int));
                if let Some(scrape) = first_scrape(path, from) {
                    assert(!leg_is_clear(steps@, paths@, i as int, leg as int));
                    return Err(FlipFault::Floor { step: i, leg, scrape });
                }
                left[leg] = if from.is_nan() { None } else { Some(from) };
            }
            assert(leg_is_clear(steps@, paths@, i as int, leg as int));
            leg += 1;
        }
        i += 1;
    }
    Ok(())
}

/// What is known at the beginning of step `i` of where a leg left the ground.
spec fn carried(steps: Seq<FlipStep>, paths: Seq<Vec<AirPath>>, i: int, leg: int) -> Option<Scalar> {
    if i > 0 && !steps[i - 1].stance.at(leg) && !lift_off(steps, paths, i - 1, leg).nan() {
        Some(lift_off(steps, paths, i - 1, leg))
    } else {
        None
    }
}

/// A leg's height is measured against the beginning of the step in which it left
/// the ground, for as long as it stays in the air.
pub proof fn the_lift_off_stays_while_airborne(
    steps: Seq<FlipStep>,
    paths: Seq<Vec<AirPath>>,
    lifted: int,
    i: int,
    leg: int,
)
    requires
        0 <= lifted <= i < steps.len(),
        forall|k: int| lifted <= k <= i ==> !(#[trigger] steps[k]).stance.at(leg),
        lifted > 0 ==> steps[lifted - 1].stance.at(leg),
        !paths[lifted]@[leg].begin_z.nan(),
    ensures
        lift_off(steps, paths, i, leg) == paths[lifted]@[leg].begin_z,
    decreases i,
{
    if i > lifted {
        the_lift_off_stays_while_airborne(steps, paths, lifted, i - 1, leg);
    }
}

// ---- What every choreography keeps ----

/// While a foot is in the air, no leg that stands is moved.
pub open spec fn standing_legs_rest(req: FlipRequest, step: FlipStep) -> bool {
    step.stance == LegFlags::all_spec() || forall|leg: int|
        0 <= leg < 4 && #[trigger] step.stance.at(leg) ==> goal_of(req, step, leg) is Keep
}

pub open spec fn all_rest(req: FlipRequest, s: Seq<FlipStep>) -> bool {
    forall|i: int| 0 <= i < s.len() ==> standing_legs_rest(req, #[trigger] s[i])
}

proof fn lemma_rest_join(req: FlipRequest, a: Seq<FlipStep>, b: Seq<FlipStep>)
    requires
        all_rest(req, a),
        all_rest(req, b),
    ensures
        all_rest(req, a + b),
{
    let s = a + b;
    assert forall|i: int| 0 <= i < s.len() implies standing_legs_rest(req, #[trigger] s[i]) by {
        if i < a.len() {
            assert(s[i] == a[i]);
        } else {
            assert(s[i] == b[i - a.len()]);
        }
    }
}

proof fn lemma_rest_probe(
    req: FlipRequest,
    a: usize,
    b: usize,
    lifted: LegFlags,
    forward: LegFlags,
    support: knee::Support,
    rounds: nat,
)
    requires
        !(req.style is Rest),
        forall|leg: int|
            0 <= leg < 4 && #[trigger] lifted.at(leg) ==> !((leg == a || leg == b) && req.flips(leg)),
    ensures
        all_rest(req, knee::probe_rounds(Tag::Diagonal(a, b), lifted, forward, support, rounds)),
    decreases rounds,
{
    if rounds > 0 {
        let fewer = (rounds - 1) as nat;
        lemma_rest_probe(req, a, b, lifted, forward, support, fewer);
        let q = knee::probe_round(Tag::Diagonal(a, b), lifted, forward, support, rounds as u64);
        assert(all_rest(req, q));
        lemma_rest_join(
            req,
            knee::probe_rounds(Tag::Diagonal(a, b), lifted, forward, support, fewer),
            q,
        );
    }
}

proof fn lemma_rest_pair(
    req: FlipRequest,
    a: usize,
    b: usize,
    support: knee::Support,
    done: LegFlags,
)
    requires
        !(req.style is Rest),
        a < 4,
        b < 4,
        a != b,
    ensures
        all_rest(req, knee::trot_pair(req, a, b, support, done)),
{
    if req.flips(a as int) || req.flips(b as int) {
        let s = knee::trot_pair(req, a, b, support, done);
        let lifted = LegFlags::all_spec().with(a as int, !req.flips(a as int)).with(
            b as int,
            !req.flips(b as int),
        );
        let before = req.knees(done);
        let n = knee::probing(req, a as int, b as int);
        lemma_rest_probe(req, a, b, lifted, before, support, n);
        let middle = knee::probe_rounds(Tag::Diagonal(a, b), lifted, before, support, n);
        let head = s.take(1);
        let tail = s.skip(1 + middle.len() as int);
        assert(s == head + middle + tail);
        assert(all_rest(req, head));
        assert(all_rest(req, tail));
        lemma_rest_join(req, head, middle);
        lemma_rest_join(req, head + middle, tail);
    }
}

proof fn lemma_rest_stand_leg(req: FlipRequest, slot: usize, done: LegFlags)
    requires
        !(req.style is Rest),
        slot < 4,
    ensures
        all_rest(req, knee::stand_leg(req, slot, done)),
{
}

proof fn lemma_rest_replace(req: FlipRequest, slot: usize)
    requires
        req.style is Rest,
        slot < 4,
    ensures
        all_rest(req, knee::replace_foot(req, slot)),
{
}

/// While a foot is in the air, no leg that stands is moved, whatever the style.
pub proof fn standing_legs_stay_put(req: FlipRequest)
    ensures
        all_rest(req, knee::flip_plan(req)),
{
    let none = LegFlags::none_spec();
    match req.style {
        KneeFlipStyle::Stand => {
            let one = none.with(0, true);
            let two = one.with(3, true);
            let three = two.with(1, true);
            let a = knee::stand_leg(req, 0, none);
            let b = knee::stand_leg(req, 3, one);
            let c = knee::stand_leg(req, 1, two);
            let d = knee::stand_leg(req, 2, three);
            let s = knee::stand_plan(req);
            let last = s.skip(s.len() - 1);
            lemma_rest_stand_leg(req, 0, none);
            lemma_rest_stand_leg(req, 3, one);
            lemma_rest_stand_leg(req, 1, two);
            lemma_rest_stand_leg(req, 2, three);
            lemma_rest_join(req, a, b);
            lemma_rest_join(req, a + b, c);
            lemma_rest_join(req, a + b + c, d);
            assert(all_rest(req, last));
            lemma_rest_join(req, a + b + c + d, last);
            assert(s == a + b + c + d + last);
        },
        KneeFlipStyle::Trot => {
            let half = none.with(0, true).with(3, true);
            let a = knee::trot_pair(req, 0, 3, knee::Support { a: 1, b: 2 }, none);
            let b = knee::trot_pair(req, 1, 2, knee::Support { a: 0, b: 3 }, half);
            let s = knee::trot_plan(req);
            let last = s.skip(s.len() - 1);
            lemma_rest_pair(req, 0, 3, knee::Support { a: 1, b: 2 }, none);
            lemma_rest_pair(req, 1, 2, knee::Support { a: 0, b: 3 }, half);
            lemma_rest_join(req, a, b);
            assert(all_rest(req, last));
            lemma_rest_join(req, a + b, last);
            assert(s == a + b + last);
        },
        KneeFlipStyle::Rest => {
            let before = req.knees(none);
            let after = req.knees(LegFlags::all_spec());
            let a = knee::replace_feet(req);
            let b = knee::settle_down(before);
            let c = knee::turn_floating(before, after);
            let e = knee::get_up(after);
            let s = knee::rest_plan(req);
            let d = s.subrange((a + b + c).len() as int, s.len() - e.len());
            lemma_rest_replace(req, 0);
            lemma_rest_replace(req, 3);
            lemma_rest_replace(req, 1);
            lemma_rest_replace(req, 2);
            let w = knee::replace_foot(req, 0);
            let x = knee::replace_foot(req, 3);
            let y = knee::replace_foot(req, 1);
            let z = knee::replace_foot(req, 2);
            lemma_rest_join(req, w, x);
            lemma_rest_join(req, w + x, y);
            lemma_rest_join(req, w + x + y, z);
            if req.apart.count_spec() > 0 {
                let last = a.skip(a.len() - 1);
                assert(all_rest(req, last));
                lemma_rest_join(req, w + x + y + z, last);
                assert(a == w + x + y + z + last);
            }
            assert(all_rest(req, a));
            assert(all_rest(req, b));
            assert(all_rest(req, c));
            assert(all_rest(req, d));
            assert(all_rest(req, e));
            lemma_rest_join(req, a, b);
            lemma_rest_join(req, a + b, c);
            lemma_rest_join(req, a + b + c, d);
            lemma_rest_join(req, a + b + c + d, e);
            assert(s == a + b + c + d + e);
        },
    }
}

/// A leg that stands while another is in the air keeps its angles.
pub proof fn standing_legs_keep_their_angles(
    req: FlipRequest,
    start: FlipPose,
    pieces: Seq<Vec<LegPieces>>,
    i: int,
    leg: int,
)
    requires
        0 <= i < knee::flip_plan(req).len(),
        0 <= leg < 4,
        knee::flip_plan(req)[i].stance.at(leg),
        knee::flip_plan(req)[i].stance != LegFlags::all_spec(),
        pose_after(req, knee::flip_plan(req), start, pieces, i + 1) is Ok,
    ensures
        pose_after(req, knee::flip_plan(req), start, pieces, i) is Ok,
        pose_after(req, knee::flip_plan(req), start, pieces, i + 1)->Ok_0.legs.at(leg) == pose_after(
            req,
            knee::flip_plan(req),
            start,
            pieces,
            i,
        )->Ok_0.legs.at(leg),
{
    standing_legs_stay_put(req);
    let step = knee::flip_plan(req)[i];
    assert(standing_legs_rest(req, step));
    assert(goal_of(req, step, leg) is Keep);
}

/// The choreography ends with every foot put on the ground at standing height.
pub proof fn the_choreography_ends_on_its_feet(req: FlipRequest, leg: int)
    requires
        0 <= leg < 4,
    ensures
        ({
            let last = knee::flip_plan(req).last();
            &&& knee::flip_plan(req).len() > 0
            &&& goal_of(req, last, leg) == LegGoal::Foot(
                if req.style is Rest {
                    at(Place::NewRest, Level::Risen(3))
                } else {
                    at(Place::Stance, Level::Stance)
                },
            )
        }),
{
}

// ---- What the goals are for ----

/// The spot that a goal is about.
pub open spec fn spot_of(goal: LegGoal) -> Option<Spot> {
    match goal {
        LegGoal::Foot(s) => Some(s),
        LegGoal::FootRolled(s) => Some(s),
        LegGoal::ThighAndCalf(s) => Some(s),
        LegGoal::Thigh(s) => Some(s),
        _ => None,
    }
}

/// The leg is one that the step is about, and its knee is to change.
pub open spec fn turns(req: FlipRequest, step: FlipStep, leg: int) -> bool {
    &&& match step.tag {
        Tag::Everyone => true,
        Tag::Leg(a) => leg == a,
        Tag::Diagonal(a, b) => leg == a || leg == b,
    }
    &&& req.old.forward_spec(leg) != req.new.forward_spec(leg)
}

/// Standing, the body leans over all four feet at the turning height and comes
/// back to the stance at the end; otherwise only the legs that turn move. They are
/// lifted with the hip rolled out, turn with the hip left alone, come home above
/// their place, and land on it. Probing lifts them a little and puts them back.
pub proof fn standing_legs_turn_above_their_place(req: FlipRequest, step: FlipStep, leg: int)
    requires
        !(req.style is Rest),
        0 <= leg < 4,
    ensures
        ({
            let g = goal_of(req, step, leg);
            let own = turns(req, step, leg);
            let level = |l: Level| spot_of(g) matches Some(s) && s.level == l && s.place == Place::Stance;
            &&& step.motion is Lean ==> g is Foot && level(Level::Flip)
            &&& step.motion is Centre ==> g is Foot && level(Level::Stance)
            &&& step.motion is Lift && own ==> g is FootRolled && level(Level::FlipLifted)
            &&& step.motion is Turn && own ==> g is ThighAndCalf && level(Level::FlipLifted)
            &&& step.motion is Home && own ==> g is Foot && level(Level::FlipLifted)
            &&& step.motion is Land && own ==> g is Foot && level(Level::Flip)
            &&& step.motion is ProbeUp && own ==> g is Foot && level(Level::FlipProbe)
            &&& step.motion is ProbeDown && own ==> g is Foot && level(Level::Flip)
            &&& !(step.motion is Lean) && !(step.motion is Centre) && !own ==> g is Keep
            &&& step.motion is ProbeHold || step.motion is Readjust ==> g is Keep
        }),
{
}

/// A leg that is turned alone is turned with the body leaning away from it, a
/// diagonal with the mass over the other one (lifting as before the correction of
/// that shift), and all of them together with the body in the middle.
pub proof fn the_body_leans_away_from_what_is_lifted(req: FlipRequest, step: FlipStep, leg: int, spot: Spot)
    requires
        0 <= leg < 4,
        spot_of(goal_of(req, step, leg)) == Some(spot),
    ensures
        step.tag matches Tag::Leg(a) && !(step.motion is Centre) && (!(req.style is Rest) || step.motion is Lean
            || step.motion is Raise || step.motion is Carry || step.motion is Place) ==> spot.lean
            == Lean::AwayFrom(step.tag->Leg_0),
        step.tag is Everyone ==> spot.lean == Lean::Centred,
        step.tag is Diagonal && !(req.style is Rest) && step.motion is Lift ==> spot.lean
            == Lean::NearLine,
        step.tag is Diagonal && !(req.style is Rest) && !(step.motion is Lift) ==> spot.lean
            == Lean::OverLine,
{
}

/// Resting, a foot that is put elsewhere is raised where it stands, carried over
/// and put down; feet that have had their turn are already there while the body
/// leans for the next. Then the body is lowered onto the feet, which float, turn
/// joint by joint where knees change, and end up, with the others, where the body
/// rises from.
pub proof fn resting_legs_go_from_the_old_to_the_new_place(req: FlipRequest, step: FlipStep, leg: int)
    requires
        req.style is Rest,
        0 <= leg < 4,
    ensures
        ({
            let g = goal_of(req, step, leg);
            let flips = req.old.forward_spec(leg) != req.new.forward_spec(leg);
            let own = step.tag is Everyone || step.tag == Tag::Leg(leg as usize);
            let foot = |p: Place, l: Level|
                g matches LegGoal::Foot(s) && s.place == p && s.level == l;
            &&& step.motion is Raise && own ==> foot(Place::Stance, Level::StanceRaised)
            &&& step.motion is Carry && own ==> foot(Place::OldRest, Level::StanceRaised)
            &&& step.motion is Place && own ==> foot(Place::OldRest, Level::Stance)
            &&& (step.motion is Raise || step.motion is Carry || step.motion is Place) && step.tag is Leg
                && !own ==> g is Keep
            &&& step.motion is Lean && own ==> foot(Place::Stance, Level::Stance)
            &&& step.motion is Lean && step.tag == Tag::Leg(2) && leg != 2 ==> foot(
                Place::OldRest,
                Level::Stance,
            )
            &&& step.motion is Lean && step.tag == Tag::Leg(0) ==> foot(Place::Stance, Level::Stance)
            &&& step.motion is Lean && step.tag == Tag::Leg(3) ==> foot(
                if leg == 0 { Place::OldRest } else { Place::Stance },
                Level::Stance,
            )
            &&& step.motion is Lean && step.tag == Tag::Leg(1) ==> foot(
                if leg == 0 || leg == 3 { Place::OldRest } else { Place::Stance },
                Level::Stance,
            )
            &&& step.motion is Centre ==> foot(Place::OldRest, Level::Stance)
            &&& step.motion matches Motion::Lower(n) ==> foot(Place::OldRest, Level::Lowered(n))
            &&& step.motion is Float ==> foot(Place::OldRest, Level::RestLifted)
            &&& step.motion is Fold ==> g == (if flips { LegGoal::FoldCalf } else { LegGoal::Keep })
            &&& step.motion is RollOut ==> g == (if flips { LegGoal::RollHip } else { LegGoal::Keep })
            &&& step.motion is SwingOut ==> g == (if flips { LegGoal::SwingThigh } else {
                LegGoal::Keep
            })
            &&& step.motion is Straighten ==> g == (if flips { LegGoal::StraightenCalf } else {
                LegGoal::Keep
            })
            &&& step.motion is FoldBack ==> g == (if flips { LegGoal::FoldCalfOver } else {
                LegGoal::Keep
            })
            &&& step.motion is ThighHome && flips ==> (g matches LegGoal::Thigh(s) && s.place
                == Place::NewRest && s.level == Level::RestLifted)
            &&& step.motion is Home && flips ==> foot(Place::NewRest, Level::RestLifted)
            &&& (step.motion is ThighHome || step.motion is Home) && !flips ==> g is Keep
            &&& step.motion is Align && !flips ==> foot(Place::NewRest, Level::RestLifted)
            &&& step.motion is Align && flips ==> g is Keep
            &&& step.motion is Ground ==> foot(Place::NewRest, Level::Rest)
            &&& step.motion matches Motion::Rise(n) ==> foot(Place::NewRest, Level::Risen(n))
        }),
{
}

/// A goal moves the joints that it names and no others.
pub proof fn a_goal_moves_only_its_joints(before: LegAngles, backward: bool, goal: LegGoal, p: LegPieces)
    ensures
        ({
            let r = moved(before, backward, goal, p);
            &&& goal is Keep ==> r == Some(before)
            &&& goal is Foot ==> r == p.foot
            &&& goal is FootRolled ==> r is Some == p.foot is Some && (r is Some ==> r->0.hip == p.hip_out
                && r->0.thigh == p.foot->0.thigh && r->0.calf == p.foot->0.calf)
            &&& goal is ThighAndCalf ==> r is Some == p.foot is Some && (r is Some ==> r->0.hip
                == before.hip && r->0.thigh == p.foot->0.thigh && r->0.calf == p.foot->0.calf)
            &&& goal is Thigh ==> r is Some == p.foot is Some && (r is Some ==> r->0.hip == before.hip
                && r->0.thigh == p.foot->0.thigh && r->0.calf == before.calf)
            &&& goal is RollHip ==> r is Some && r->0.hip == p.hip_out && r->0.thigh == before.thigh
                && r->0.calf == before.calf
            &&& goal is SwingThigh ==> r is Some == p.thigh_out is Some && (r is Some ==> r->0.hip
                == before.hip && Some(r->0.thigh) == p.thigh_out && r->0.calf == before.calf)
            &&& goal is StraightenCalf ==> r is Some && r->0.hip == before.hip && r->0.thigh
                == before.thigh && r->0.calf.is_zero_num()
            &&& goal is FoldCalf || goal is FoldCalfOver ==> r is Some && r->0.hip == before.hip
                && r->0.thigh == before.thigh
        }),
{
}

/// Folding a calf keeps the side that it is bent to and never bends it less, and
/// folding it over brings it to the other side.
pub proof fn folding_keeps_its_side_and_folding_over_changes_it(
    before: LegAngles,
    backward: bool,
    p: LegPieces,
)
    requires
        !before.calf.nan(),
        p.above_low.lt_num(Scalar::zero_spec()),
        p.below_high.positive(),
    ensures
        ({
            let zero = Scalar::zero_spec();
            let folded = moved(before, backward, LegGoal::FoldCalf, p)->0.calf;
            let over = moved(before, backward, LegGoal::FoldCalfOver, p)->0.calf;
            &&& before.calf.lt_num(zero) ==> folded.le_num(before.calf)
            &&& !before.calf.lt_num(zero) ==> before.calf.le_num(folded)
            &&& backward ==> over.positive() && over.le_num(p.below_high)
            &&& !backward ==> over.lt_num(zero) && p.above_low.le_num(over)
        }),
{
}

/// One step moves each leg by its own goal, from where it was. Which way the
/// calves were bent is noted as they are folded, and kept otherwise. The first leg
/// that cannot follow is the one that is named.
pub proof fn a_step_moves_each_leg_by_its_own_goal(
    req: FlipRequest,
    step: FlipStep,
    pose: FlipPose,
    pieces: Seq<LegPieces>,
    n: usize,
    leg: int,
)
    requires
        0 <= leg < 4,
    ensures
        ({
            let next = pose_after_step(req, step, pose, pieces, n as int);
            let bent = if step.motion is Fold {
                pose.legs.at(leg).calf.lt_num(Scalar::zero_spec())
            } else {
                pose.backward.at(leg)
            };
            let own = moved(pose.legs.at(leg), bent, goal_of(req, step, leg), pieces[leg]);
            &&& next matches Ok(q) ==> own == Some(q.legs.at(leg)) && q.backward.at(leg) == bent
            &&& own is None ==> next is Err && next->Err_0.step == n && next->Err_0.leg <= leg
            &&& next is Err && next->Err_0.leg == leg ==> own is None
            &&& next is Err ==> next->Err_0.leg < 4
        }),
{
}

/// The steps act one after the other, and one that cannot be done ends it all.
pub proof fn steps_act_one_after_the_other(
    req: FlipRequest,
    steps: Seq<FlipStep>,
    start: FlipPose,
    pieces: Seq<Vec<LegPieces>>,
    n: int,
)
    requires
        0 <= n < steps.len(),
    ensures
        pose_after(req, steps, start, pieces, 0) == Ok::<FlipPose, Stuck>(start),
        pose_after(req, steps, start, pieces, n) matches Ok(p) ==> pose_after(
            req,
            steps,
            start,
            pieces,
            n + 1,
        ) == pose_after_step(req, steps[n], p, pieces[n]@, n),
        pose_after(req, steps, start, pieces, n) matches Err(e) ==> pose_after(
            req,
            steps,
            start,
            pieces,
            n + 1,
        ) == Err::<FlipPose, Stuck>(e),
{
}

/// A clear leg keeps its knee above the floor, and its foot above the floor or
/// above where it left the ground, at every sample; a leg that is not clear fails
/// one of the two.
pub proof fn a_clear_leg_keeps_its_distance(path: AirPath, lift_off_z: Scalar, k: int)
    requires
        !path.feet_z@[k].nan(),
        !path.knees_z@[k].nan(),
        !path.floor_z.nan(),
        !lift_off_z.nan(),
    ensures
        !scrapes(path, lift_off_z, k) <==> path.floor_z.le_num(path.knees_z@[k]) && (path.floor_z.le_num(
            path.feet_z@[k],
        ) || lift_off_z.le_num(path.feet_z@[k])),
        by_foot(path, lift_off_z, k) <==> path.feet_z@[k].lt_num(path.floor_z) && path.feet_z@[k].lt_num(
            lift_off_z,
        ),
{
}

/// An approved leg is off the floor at every sample of every step in which it does
/// not stand.
pub proof fn an_approved_leg_is_clear_in_every_step(
    steps: Seq<FlipStep>,
    paths: Seq<Vec<AirPath>>,
    i: int,
    leg: int,
    k: int,
)
    requires
        clear_before(steps, paths, steps.len() as int, 0),
        0 <= i < steps.len(),
        0 <= leg < 4,
        !steps[i].stance.at(leg),
        0 <= k < paths[i]@[leg].feet_z@.len(),
    ensures
        !paths[i]@[leg].knees_z@[k].lt_num(paths[i]@[leg].floor_z),
        !(paths[i]@[leg].feet_z@[k].lt_num(paths[i]@[leg].floor_z) && paths[i]@[leg].feet_z@[k].lt_num(
            lift_off(steps, paths, i, leg),
        )),
{
    assert(leg_is_clear(steps, paths, i, leg));
    assert(!scrapes(paths[i]@[leg], lift_off(steps, paths, i, leg), k));
}

/// A leg on the ground is clear, and so is one that scrapes at no sample; one
/// scrape in the air is enough not to be.
pub proof fn a_standing_leg_is_clear(steps: Seq<FlipStep>, paths: Seq<Vec<AirPath>>, i: int, leg: int, k: int)
    ensures
        steps[i].stance.at(leg) ==> leg_is_clear(steps, paths, i, leg),
        !steps[i].stance.at(leg) && 0 <= k < paths[i]@[leg].feet_z@.len() && scrapes(
            paths[i]@[leg],
            lift_off(steps, paths, i, leg),
            k,
        ) ==> !leg_is_clear(steps, paths, i, leg),
        paths[i]@[leg].feet_z@.len() == 0 ==> leg_is_clear(steps, paths, i, leg),
{
}

/// Legs are looked at step by step, and within a step from front left to rear
/// right: each clear leg extends what is clear by itself.
pub proof fn clearing_goes_leg_by_leg(steps: Seq<FlipStep>, paths: Seq<Vec<AirPath>>, step: int, leg: int)
    requires
        0 <= step < steps.len(),
        0 <= leg < 4,
    ensures
        clear_before(steps, paths, 0, 0),
        clear_before(steps, paths, step, leg + 1) <==> clear_before(steps, paths, step, leg)
            && leg_is_clear(steps, paths, step, leg),
        clear_before(steps, paths, step, 4) <==> clear_before(steps, paths, step + 1, 0),
{
    let here = clear_before(steps, paths, step, leg);
    let on = clear_before(steps, paths, step, leg + 1);
    if on {
        assert(leg_is_clear(steps, paths, step, leg));
        assert(here);
    }
    if here && leg_is_clear(steps, paths, step, leg) {
        assert forall|i: int, l: int|
            0 <= i < steps.len() && 0 <= l < 4 && (i < step || (i == step && l < leg + 1))
                implies #[trigger] leg_is_clear(steps, paths, i, l) by {
            if i == step && l == leg {
            }
        }
    }
    if clear_before(steps, paths, step, 4) {
        assert(clear_before(steps, paths, step + 1, 0));
    }
    if clear_before(steps, paths, step + 1, 0) {
        assert(clear_before(steps, paths, step, 4));
    }
}

/// Folding bends the calf as far as the deep fold goes, three radians,
/// where the range lets it and it is not bent further already.
pub proof fn folding_goes_as_deep_as_it_can(before: LegAngles, backward: bool, p: LegPieces)
    requires
        p.above_low.nan(),
        p.below_high.nan(),
    ensures
        ({
            let deep = Scalar { bits: parking::DEEP_FOLD };
            let after = moved(before, backward, LegGoal::FoldCalf, p)->0.calf;
            let over = moved(before, backward, LegGoal::FoldCalfOver, p)->0.calf;
            &&& before.calf.is_zero_num() ==> after == deep
            &&& before.calf.positive() ==> deep.le_num(after)
            &&& before.calf.lt_num(Scalar::zero_spec()) ==> after.le_num(deep.neg_spec())
            &&& backward ==> over == deep
            &&& !backward ==> over == deep.neg_spec()
        }),
{
}

/// A choreography that gets somewhere stands there on exactly the legs it
/// reached; one that gets stuck stands nowhere.
pub proof fn what_is_reached_is_where_it_stands(pose: FlipPose, stuck: Stuck, legs: LegSet)
    ensures
        stands_as(Ok(pose), pose.legs),
        stands_as(Ok(pose), legs) ==> legs == pose.legs,
        !stands_as(Err(stuck), legs),
{
}

} // verus!
