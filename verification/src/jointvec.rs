//! One value per joint of the robot.

use vstd::prelude::*;

use crate::axis::AxisId;
use crate::observation::{AxisState, Observation};
use crate::scalar::Scalar;

verus! {

/// Hip, thigh and calf of the four legs, and the arm.
#[derive(Clone, Copy, Debug, PartialEq, Eq)]
pub struct JointVec {
    pub legs: [[Scalar; 3]; 4],
    pub arm: Scalar,
}

impl JointVec {
    /// Joint `k` of leg `leg`.
    pub open spec fn at(&self, leg: int, k: int) -> Scalar {
        self.legs@[leg]@[k]
    }

    /// All joints in the order of the axes: the legs one after the other, then
    /// the arm.
    pub open spec fn joint(&self, i: int) -> Scalar {
        if i < 12 {
            self.at(i / 3, i % 3)
        } else {
            self.arm
        }
    }

    pub open spec fn is_zero(&self) -> bool {
        &&& forall|leg: int, k: int|
            0 <= leg < 4 && 0 <= k < 3 ==> #[trigger] self.at(leg, k) == Scalar::zero_spec()
        &&& self.arm == Scalar::zero_spec()
    }

    /// Equal joint by joint.
    pub open spec fn same_as(&self, other: &JointVec) -> bool {
        &&& forall|leg: int, k: int|
            0 <= leg < 4 && 0 <= k < 3 ==> #[trigger] self.at(leg, k) == other.at(leg, k)
        &&& self.arm == other.arm
    }

    pub fn zeros() -> (r: JointVec)
        ensures
            r.is_zero(),
    {
        let z = Scalar::zero();
        JointVec { legs: [[z, z, z], [z, z, z], [z, z, z], [z, z, z]], arm: z }
    }

    pub fn get(&self, leg: usize, k: usize) -> (r: Scalar)
        requires
            leg < 4,
            k < 3,
        ensures
            r == self.at(leg as int, k as int),
    {
        self.legs[leg][k]
    }

    pub fn set(&mut self, leg: usize, k: usize, v: Scalar)
        requires
            leg < 4,
            k < 3,
        ensures
            final(self).arm == old(self).arm,
            forall|l: int, m: int|
                0 <= l < 4 && 0 <= m < 3 ==> #[trigger] final(self).at(l, m) == (if l == leg && m == k {
                    v
                } else {
                    old(self).at(l, m)
                }),
    {
        let mut row: [Scalar; 3] = self.legs[leg];
        row[k] = v;
        self.legs[leg] = row;
    }
}

/// What an observation says of joint `i`: its position; zero where there is no
/// such axis.
pub open spec fn position_at(axes: Seq<AxisState>, i: int) -> Scalar {
    if i < axes.len() {
        axes[i].position_rad
    } else {
        Scalar::zero_spec()
    }
}

/// The measured joint angles. The first twelve axes are the legs, the
/// thirteenth is the arm.
pub fn jointvec_from(obs: &Observation) -> (r: JointVec)
    ensures
        forall|leg: int, k: int|
            0 <= leg < 4 && 0 <= k < 3 ==> #[trigger] r.at(leg, k) == position_at(
                obs.axes@,
                leg * 3 + k,
            ),
        r.arm == position_at(obs.axes@, 12),
{
    let mut q = JointVec::zeros();
    let mut leg: usize = 0;
    while leg < 4
        invariant
            leg <= 4,
            q.arm == Scalar::zero_spec(),
            forall|l: int, m: int|
                0 <= l < 4 && 0 <= m < 3 ==> #[trigger] q.at(l, m) == (if l < leg {
                    position_at(obs.axes@, l * 3 + m)
                } else {
                    Scalar::zero_spec()
                }),
        decreases 4 - leg,
    {
        let mut k: usize = 0;
        while k < 3
            invariant
                leg < 4,
                k <= 3,
                q.arm == Scalar::zero_spec(),
                forall|l: int, m: int|
                    0 <= l < 4 && 0 <= m < 3 ==> #[trigger] q.at(l, m) == (if l < leg || (l == leg && m < k) {
                        position_at(obs.axes@, l * 3 + m)
                    } else {
                        Scalar::zero_spec()
                    }),
            decreases 3 - k,
        {
            if let Some(a) = obs.get(AxisId::new((leg * 3 + k) as u16)) {
                q.set(leg, k, a.position_rad);
            }
            k += 1;
        }
        leg += 1;
    }
    let ghost legs = q;
    if let Some(a) = obs.get(AxisId::new(12)) {
        q.arm = a.position_rad;
    }
    assert forall|l: int, m: int| 0 <= l < 4 && 0 <= m < 3 implies #[trigger] q.at(l, m) == position_at(
        obs.axes@,
        l * 3 + m,
    ) by {
        assert(q.at(l, m) == legs.at(l, m));
    }
    q
}

/// The joints in the order of the axes.
pub fn obs_axes(q: &JointVec) -> (r: Vec<Scalar>)
    ensures
        r@.len() == 13,
        forall|i: int| 0 <= i < 13 ==> #[trigger] r@[i] == q.joint(i),
{
    let mut out: Vec<Scalar> = Vec::new();
    let mut i: usize = 0;
    while i < 12
        invariant
            i <= 12,
            out@.len() == i,
            forall|j: int| 0 <= j < i ==> #[trigger] out@[j] == q.joint(j),
        decreases 12 - i,
    {
        out.push(q.get(i / 3, i % 3));
        i += 1;
    }
    out.push(q.arm);
    out
}

/// The joints are numbered leg by leg, three to a leg, and the arm is the
/// thirteenth; a joint's measured angle is that of the axis of its number.
pub proof fn joints_are_numbered_leg_by_leg(q: JointVec, axes: Seq<AxisState>, leg: int, k: int)
    requires
        0 <= leg < 4,
        0 <= k < 3,
    ensures
        q.joint(leg * 3 + k) == q.at(leg, k),
        q.joint(12) == q.arm,
        leg * 3 + k < axes.len() ==> position_at(axes, leg * 3 + k) == axes[leg * 3 + k].position_rad,
        leg * 3 + k >= axes.len() ==> position_at(axes, leg * 3 + k) == Scalar::zero_spec(),
{
}

/// Postures that are the same agree at every joint of every leg and at the arm.
pub proof fn the_same_posture_agrees_everywhere(a: JointVec, b: JointVec, leg: int, k: int)
    requires
        a.same_as(&b),
        0 <= leg < 4,
        0 <= k < 3,
    ensures
        a.at(leg, k) == b.at(leg, k),
        a.arm == b.arm,
        a.is_zero() ==> b.at(leg, k).bits == 0 && b.arm.bits == 0,
{
}

} // verus!
