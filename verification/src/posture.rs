//! Joint angles, to and from the forms that the model and the gait have them in.

use vstd::prelude::*;

use crate::jointvec::JointVec;
use crate::scalar::Scalar;
use crate::serial::{MotorReport, LEG_AXES};
use crate::text::same;

verus! {

/// Where a leg joint is: its leg, and its number there.
#[derive(Clone, Copy, Debug, PartialEq, Eq, Structural)]
pub struct LegJoint {
    pub leg: usize,
    pub k: usize,
}

impl LegJoint {
    pub open spec fn wf(self) -> bool {
        self.leg < 4 && self.k < 3
    }
}

/// A target that the gait gives, in the model's sign. A name that is no leg
/// joint's has no place.
#[derive(Clone, Copy, Debug, PartialEq, Eq, Structural)]
pub struct JointTarget {
    pub place: Option<LegJoint>,
    pub angle: Scalar,
}

/// The last of the first `n` targets for a joint; zero where there is none.
pub open spec fn last_target(targets: Seq<JointTarget>, n: int, leg: int, k: int) -> Scalar
    decreases n,
{
    if n <= 0 {
        Scalar::zero_spec()
    } else if targets[n - 1].place matches Some(p) && p.leg == leg && p.k == k {
        targets[n - 1].angle
    } else {
        last_target(targets, n - 1, leg, k)
    }
}

/// `q` is what the gait gives, with the arm as it is.
pub open spec fn is_output(targets: Seq<JointTarget>, arm: Scalar, q: JointVec) -> bool {
    &&& q.arm == arm
    &&& forall|leg: int, k: int|
        0 <= leg < 4 && 0 <= k < 3 ==> #[trigger] q.at(leg, k) == last_target(
            targets,
            targets.len() as int,
            leg,
            k,
        )
}

/// The gait's targets as joint angles. The arm is not the gait's to move.
pub fn output_to_joints(targets: &Vec<JointTarget>, arm: Scalar) -> (q: JointVec)
    requires
        forall|i: int|
            0 <= i < targets@.len() ==> ((#[trigger] targets@[i]).place matches Some(p) ==> p.wf()),
    ensures
        is_output(targets@, arm, q),
{
    let zero = JointVec::zeros();
    let mut q = JointVec { legs: zero.legs, arm };
    assert forall|leg: int, k: int| 0 <= leg < 4 && 0 <= k < 3 implies #[trigger] q.at(leg, k)
        == Scalar::zero_spec() by {
        assert(q.at(leg, k) == zero.at(leg, k));
    }
    let mut i: usize = 0;
    while i < targets.len()
        invariant
            i <= targets@.len(),
            q.arm == arm,
            forall|j: int|
                0 <= j < targets@.len() ==> ((#[trigger] targets@[j]).place matches Some(p) ==> p.wf()),
            forall|leg: int, k: int|
                0 <= leg < 4 && 0 <= k < 3 ==> #[trigger] q.at(leg, k) == last_target(
                    targets@,
                    i as int,
                    leg,
                    k,
                ),
        decreases targets@.len() - i,
    {
        if let Some(p) = targets[i].place {
            q.set(p.leg, p.k, targets[i].angle);
        }
        i += 1;
    }
    q
}

/// A leg bent so that its foot reaches a point: its angles in the model's sign,
/// and whether it really gets there.
#[derive(Clone, Copy, Debug, PartialEq, Eq)]
pub struct LegSolution {
    pub angles: [Scalar; 3],
    pub reachable: bool,
}

/// No tilt at all.
pub open spec fn is_level(attitude: Seq<Scalar>) -> bool {
    attitude[0].is_zero_num() && attitude[1].is_zero_num() && attitude[2].is_zero_num()
}

/// The gait's targets with the body tilted by `attitude`. `solved` are the legs
/// bent for the feet turned the other way, so that they stay where they are on
/// the ground. A level body takes the gait's own targets, to the last bit.
pub fn output_to_joints_tilted(
    targets: &Vec<JointTarget>,
    all_reachable: bool,
    solved: &[LegSolution; 4],
    arm: Scalar,
    attitude: [Scalar; 3],
) -> (r: (JointVec, bool))
    requires
        forall|i: int|
            0 <= i < targets@.len() ==> ((#[trigger] targets@[i]).place matches Some(p) ==> p.wf()),
    ensures
        is_level(attitude@) ==> is_output(targets@, arm, r.0) && r.1 == all_reachable,
        !is_level(attitude@) ==> {
            &&& r.0.arm == arm
            &&& forall|leg: int, k: int|
                0 <= leg < 4 && 0 <= k < 3 ==> #[trigger] r.0.at(leg, k) == solved@[leg].angles@[k]
            &&& r.1 == (solved@[0].reachable && solved@[1].reachable && solved@[2].reachable
                && solved@[3].reachable)
        },
{
    if attitude[0].is_zero() && attitude[1].is_zero() && attitude[2].is_zero() {
        return (output_to_joints(targets, arm), all_reachable);
    }
    let q = JointVec {
        legs: [solved[0].angles, solved[1].angles, solved[2].angles, solved[3].angles],
        arm,
    };
    let reachable: bool = solved[0].reachable && solved[1].reachable && solved[2].reachable
        && solved[3].reachable;
    (q, reachable)
}

/// The measured angles of the leg motors, with the arm's.
pub fn measured(motors: &Vec<MotorReport>, arm: Scalar) -> (q: JointVec)
    requires
        motors@.len() == LEG_AXES,
    ensures
        q.arm == arm,
        forall|leg: int, k: int|
            0 <= leg < 4 && 0 <= k < 3 ==> #[trigger] q.at(leg, k) == motors@[leg * 3 + k].position_rad,
{
    JointVec {
        legs: [
            [motors[0].position_rad, motors[1].position_rad, motors[2].position_rad],
            [motors[3].position_rad, motors[4].position_rad, motors[5].position_rad],
            [motors[6].position_rad, motors[7].position_rad, motors[8].position_rad],
            [motors[9].position_rad, motors[10].position_rad, motors[11].position_rad],
        ],
        arm,
    }
}

/// A joint of the model, and its place among the model's coordinates.
#[derive(Clone, Debug, PartialEq, Eq)]
pub struct ModelJoint {
    pub name: String,
    pub place: usize,
}

/// The place of the first joint of that name, from joint `i` on.
pub open spec fn place_from(joints: Seq<ModelJoint>, name: Seq<char>, i: int) -> Option<usize>
    decreases joints.len() - i,
{
    if i >= joints.len() {
        None
    } else if joints[i].name@ == name {
        Some(joints[i].place)
    } else {
        place_from(joints, name, i + 1)
    }
}

/// Every joint has its place among `n` coordinates.
pub open spec fn places_fit(joints: Seq<ModelJoint>, n: int) -> bool {
    forall|i: int| 0 <= i < joints.len() ==> (#[trigger] joints[i]).place < n
}

pub open spec fn with_joint(q: Seq<Scalar>, place: Option<usize>, value: Scalar) -> Seq<Scalar> {
    match place {
        Some(p) => q.update(p as int, value),
        None => q,
    }
}

/// Writes the coordinate of a joint. A name that the model lacks has no effect.
pub fn set_joint(joints: &Vec<ModelJoint>, q: &mut Vec<Scalar>, name: &str, value: Scalar)
    requires
        places_fit(joints@, old(q)@.len() as int),
    ensures
        final(q)@ == with_joint(old(q)@, place_from(joints@, name@, 0), value),
{
    let mut i: usize = 0;
    while i < joints.len()
        invariant
            i <= joints@.len(),
            places_fit(joints@, q@.len() as int),
            *q == *old(q),
            place_from(joints@, name@, 0) == place_from(joints@, name@, i as int),
        decreases joints@.len() - i,
    {
        if same(joints[i].name.as_str(), name) {
            let p: usize = joints[i].place;
            q.set(p, value);
            return ;
        }
        i += 1;
    }
}

/// A joint by its name, with its angle.
#[derive(Clone, Debug, PartialEq, Eq)]
pub struct NamedAngle {
    pub name: String,
    pub angle: Scalar,
}

/// The coordinates with the first `n` angles written in.
pub open spec fn filled(
    neutral: Seq<Scalar>,
    joints: Seq<ModelJoint>,
    posture: Seq<NamedAngle>,
    n: int,
) -> Seq<Scalar>
    decreases n,
{
    if n <= 0 {
        neutral
    } else {
        with_joint(
            filled(neutral, joints, posture, n - 1),
            place_from(joints, posture[n - 1].name@, 0),
            posture[n - 1].angle,
        )
    }
}

/// A posture as the model's coordinates: the neutral ones, with the posture's
/// angles written in.
pub fn build_q(neutral: Vec<Scalar>, joints: &Vec<ModelJoint>, posture: &Vec<NamedAngle>) -> (r: Vec<Scalar>)
    requires
        places_fit(joints@, neutral@.len() as int),
    ensures
        r@ == filled(neutral@, joints@, posture@, posture@.len() as int),
        r@.len() == neutral@.len(),
{
    let ghost start = neutral@;
    let mut q: Vec<Scalar> = neutral;
    let mut i: usize = 0;
    while i < posture.len()
        invariant
            i <= posture@.len(),
            places_fit(joints@, start.len() as int),
            q@.len() == start.len(),
            q@ == filled(start, joints@, posture@, i as int),
        decreases posture@.len() - i,
    {
        proof {
            lemma_filled_len(start, joints@, posture@, i + 1);
        }
        set_joint(joints, &mut q, posture[i].name.as_str(), posture[i].angle);
        i += 1;
    }
    q
}

proof fn lemma_place_fits(joints: Seq<ModelJoint>, name: Seq<char>, i: int, n: int)
    requires
        0 <= i <= joints.len(),
        places_fit(joints, n),
    ensures
        place_from(joints, name, i) matches Some(p) ==> p < n,
    decreases joints.len() - i,
{
    if i < joints.len() && joints[i].name@ != name {
        lemma_place_fits(joints, name, i + 1, n);
    }
}

proof fn lemma_filled_len(
    neutral: Seq<Scalar>,
    joints: Seq<ModelJoint>,
    posture: Seq<NamedAngle>,
    n: int,
)
    requires
        places_fit(joints, neutral.len() as int),
    ensures
        filled(neutral, joints, posture, n).len() == neutral.len(),
    decreases n,
{
    if n > 0 {
        lemma_filled_len(neutral, joints, posture, n - 1);
        lemma_place_fits(joints, posture[n - 1].name@, 0, neutral.len() as int);
    }
}

/// A coordinate that belongs to no joint of the posture stays neutral.
pub proof fn other_coordinates_stay_neutral(
    neutral: Seq<Scalar>,
    joints: Seq<ModelJoint>,
    posture: Seq<NamedAngle>,
    n: int,
    c: int,
)
    requires
        0 <= n <= posture.len(),
        0 <= c < neutral.len(),
        places_fit(joints, neutral.len() as int),
        forall|i: int|
            0 <= i < n ==> (place_from(joints, (#[trigger] posture[i]).name@, 0) matches Some(p) ==> p
                != c),
    ensures
        filled(neutral, joints, posture, n)[c] == neutral[c],
    decreases n,
{
    if n > 0 {
        other_coordinates_stay_neutral(neutral, joints, posture, n - 1, c);
        lemma_filled_len(neutral, joints, posture, n - 1);
        lemma_place_fits(joints, posture[n - 1].name@, 0, neutral.len() as int);
        assert(place_from(joints, posture[n - 1].name@, 0) matches Some(p) ==> p != c);
    }
}

/// A joint goes to the last target that the gait gives for it, and to zero where
/// it gives none.
pub proof fn the_last_target_of_a_joint_counts(
    targets: Seq<JointTarget>,
    n: int,
    leg: usize,
    k: usize,
    i: int,
)
    requires
        0 <= n <= targets.len(),
    ensures
        ({
            let own = |m: int| targets[m].place == Some(LegJoint { leg, k });
            &&& 0 <= i < n && own(i) && (forall|m: int| i < m < n ==> !#[trigger] own(m)) ==> last_target(
                targets,
                n,
                leg as int,
                k as int,
            ) == targets[i].angle
            &&& (forall|m: int| 0 <= m < n ==> !#[trigger] own(m)) ==> last_target(
                targets,
                n,
                leg as int,
                k as int,
            ) == Scalar::zero_spec()
        }),
    decreases n,
{
    let own = |m: int| targets[m].place == Some(LegJoint { leg, k });
    if n > 0 {
        the_last_target_of_a_joint_counts(targets, n - 1, leg, k, i);
        assert(own(n - 1) <==> targets[n - 1].place == Some(LegJoint { leg, k }));
    }
}

/// A body is level when it neither rolls, nor pitches, nor yaws.
pub proof fn a_level_body_has_no_tilt(attitude: Seq<Scalar>)
    requires
        attitude.len() == 3,
    ensures
        is_level(attitude) <==> forall|i: int|
            0 <= i < 3 ==> (#[trigger] attitude[i]).eq_num(Scalar::zero_spec()),
{
}

/// A joint's place is that of the first joint of its name.
pub proof fn a_joint_is_the_first_of_its_name(joints: Seq<ModelJoint>, name: Seq<char>, i: int, k: int)
    requires
        0 <= i,
    ensures
        i <= k < joints.len() && joints[k].name@ == name && (forall|m: int|
            i <= m < k ==> (#[trigger] joints[m]).name@ != name) ==> place_from(joints, name, i) == Some(
            joints[k].place,
        ),
        (forall|m: int| i <= m < joints.len() ==> (#[trigger] joints[m]).name@ != name) ==> place_from(
            joints,
            name,
            i,
        ) is None,
    decreases joints.len() - i,
{
    if i < joints.len() {
        a_joint_is_the_first_of_its_name(joints, name, i + 1, k);
    }
}

/// A coordinate holds the angle of the last entry of the posture that is about it.
pub proof fn a_coordinate_holds_its_joints_angle(
    neutral: Seq<Scalar>,
    joints: Seq<ModelJoint>,
    posture: Seq<NamedAngle>,
    n: int,
    c: usize,
    i: int,
)
    requires
        0 <= i < n <= posture.len(),
        c < neutral.len(),
        places_fit(joints, neutral.len() as int),
        place_from(joints, posture[i].name@, 0) == Some(c),
        forall|m: int|
            i < m < n ==> place_from(joints, (#[trigger] posture[m]).name@, 0) != Some(c),
    ensures
        filled(neutral, joints, posture, n)[c as int] == posture[i].angle,
    decreases n,
{
    lemma_filled_len(neutral, joints, posture, n - 1);
    lemma_place_fits(joints, posture[n - 1].name@, 0, neutral.len() as int);
    if n - 1 > i {
        a_coordinate_holds_its_joints_angle(neutral, joints, posture, n - 1, c, i);
    }
}

/// Each leg joint of the gait's posture is at the last angle given for that
/// joint, at zero where none was given, and the arm is where it was.
pub proof fn every_joint_is_at_its_last_target(
    targets: Seq<JointTarget>,
    arm: Scalar,
    q: JointVec,
    i: int,
    leg: int,
    k: int,
)
    requires
        is_output(targets, arm, q),
        0 <= i < targets.len(),
        0 <= leg < 4,
        0 <= k < 3,
        targets[i].place matches Some(p) && p.leg == leg && p.k == k,
        forall|j: int|
            i < j < targets.len() ==> !((#[trigger] targets[j]).place matches Some(p) && p.leg == leg
                && p.k == k),
    ensures
        q.at(leg, k) == targets[i].angle,
        q.arm == arm,
{
    assert(q.at(leg, k) == last_target(targets, targets.len() as int, leg, k));
    lemma_last_target_at(targets, targets.len() as int, i, leg, k);
}

proof fn lemma_last_target_at(targets: Seq<JointTarget>, n: int, i: int, leg: int, k: int)
    requires
        0 <= i < n <= targets.len(),
        targets[i].place matches Some(p) && p.leg == leg && p.k == k,
        forall|j: int|
            i < j < n ==> !((#[trigger] targets[j]).place matches Some(p) && p.leg == leg && p.k == k),
    ensures
        last_target(targets, n, leg, k) == targets[i].angle,
    decreases n,
{
    if i < n - 1 {
        assert(!(targets[n - 1].place matches Some(p) && p.leg == leg && p.k == k));
        lemma_last_target_at(targets, n - 1, i, leg, k);
    }
}

/// A joint that no target names stands at zero.
pub proof fn a_joint_without_a_target_is_at_zero(
    targets: Seq<JointTarget>,
    arm: Scalar,
    q: JointVec,
    leg: int,
    k: int,
)
    requires
        is_output(targets, arm, q),
        0 <= leg < 4,
        0 <= k < 3,
        forall|j: int|
            0 <= j < targets.len() ==> !((#[trigger] targets[j]).place matches Some(p) && p.leg == leg
                && p.k == k),
    ensures
        q.at(leg, k).bits == 0,
{
    assert(q.at(leg, k) == last_target(targets, targets.len() as int, leg, k));
    lemma_no_last_target(targets, targets.len() as int, leg, k);
}

proof fn lemma_no_last_target(targets: Seq<JointTarget>, n: int, leg: int, k: int)
    requires
        0 <= n <= targets.len(),
        forall|j: int|
            0 <= j < n ==> !((#[trigger] targets[j]).place matches Some(p) && p.leg == leg && p.k == k),
    ensures
        last_target(targets, n, leg, k) == Scalar::zero_spec(),
    decreases n,
{
    if n > 0 {
        assert(!(targets[n - 1].place matches Some(p) && p.leg == leg && p.k == k));
        lemma_no_last_target(targets, n - 1, leg, k);
    }
}

/// A place is one of the three joints of one of the four legs.
pub proof fn there_are_four_legs_of_three_joints(j: LegJoint)
    ensures
        j.wf() <==> j.leg <= 3 && j.k <= 2,
{
}

} // verus!
