//! Which feet to believe in, and what is known of the body from them.

use vstd::prelude::*;

use crate::axis::AxisId;
use crate::config::EstimatorKind;
use crate::jointvec::JointVec;
use crate::legs;
use crate::legs::LegFlags;
use crate::observation::{AxisState, Contact, Observation};
use crate::scalar::Scalar;

verus! {

/// The measured contact of foot `slot`, where it can be measured.
pub open spec fn contact_of(contacts: Seq<Contact>, slot: int) -> Contact {
    if slot < contacts.len() {
        contacts[slot]
    } else {
        None
    }
}

fn contact_at(obs: &Observation, slot: usize) -> (r: Contact)
    ensures
        r == contact_of(obs.contacts@, slot as int),
{
    if slot < obs.contacts.len() {
        obs.contacts[slot]
    } else {
        None
    }
}

/// The planned stance with early touchdowns added. A foot that should stand but
/// does not is left as planned: taking the last support away would leave
/// nothing to stand on.
pub fn stance_with_measured_contact(planned: [bool; 4], obs: &Observation) -> (r: [bool; 4])
    ensures
        forall|slot: int|
            0 <= slot < 4 ==> #[trigger] r@[slot] == (planned@[slot] || contact_of(
                obs.contacts@,
                slot,
            ) == Some(true)),
{
    let mut out: [bool; 4] = planned;
    let mut slot: usize = 0;
    while slot < 4
        invariant
            slot <= 4,
            forall|s: int|
                0 <= s < slot ==> #[trigger] out@[s] == (planned@[s] || contact_of(obs.contacts@, s)
                    == Some(true)),
            forall|s: int| slot <= s < 4 ==> #[trigger] out@[s] == planned@[s],
        decreases 4 - slot,
    {
        if let Some(down) = contact_at(obs, slot) {
            if down {
                out[slot] = true;
            }
        }
        slot += 1;
    }
    out
}

/// The stance for the estimator: measured where it can be, else planned. Here a
/// foot that floats must not count, since its speed would be taken for the body's.
pub fn stance_for_estimator(planned: [bool; 4], obs: &Observation) -> (r: [bool; 4])
    ensures
        forall|slot: int|
            0 <= slot < 4 ==> #[trigger] r@[slot] == (match contact_of(obs.contacts@, slot) {
                Some(down) => down,
                None => planned@[slot],
            }),
{
    let mut out: [bool; 4] = planned;
    let mut slot: usize = 0;
    while slot < 4
        invariant
            slot <= 4,
            forall|s: int|
                0 <= s < slot ==> #[trigger] out@[s] == (match contact_of(obs.contacts@, s) {
                    Some(down) => down,
                    None => planned@[s],
                }),
            forall|s: int| slot <= s < 4 ==> #[trigger] out@[s] == planned@[s],
        decreases 4 - slot,
    {
        if let Some(down) = contact_at(obs, slot) {
            out[slot] = down;
        }
        slot += 1;
    }
    out
}

/// What an observation says of the speed of joint `i`. An axis that was not
/// read, or is not there, counts as still.
pub open spec fn velocity_at(axes: Seq<AxisState>, i: int) -> Scalar {
    if i < axes.len() && axes[i].health.valid {
        axes[i].velocity_rad_s
    } else {
        Scalar::zero_spec()
    }
}

/// The measured joint speeds of the legs.
pub fn velocities_from(obs: &Observation) -> (r: JointVec)
    ensures
        forall|leg: int, k: int|
            0 <= leg < 4 && 0 <= k < 3 ==> #[trigger] r.at(leg, k) == velocity_at(
                obs.axes@,
                leg * 3 + k,
            ),
        r.arm == Scalar::zero_spec(),
{
    let mut v = JointVec::zeros();
    let mut leg: usize = 0;
    while leg < 4
        invariant
            leg <= 4,
            v.arm == Scalar::zero_spec(),
            forall|l: int, m: int|
                0 <= l < 4 && 0 <= m < 3 ==> #[trigger] v.at(l, m) == (if l < leg {
                    velocity_at(obs.axes@, l * 3 + m)
                } else {
                    Scalar::zero_spec()
                }),
        decreases 4 - leg,
    {
        let mut k: usize = 0;
        while k < 3
            invariant
                leg < 4,
                k <= 3,
                v.arm == Scalar::zero_spec(),
                forall|l: int, m: int|
                    0 <= l < 4 && 0 <= m < 3 ==> #[trigger] v.at(l, m) == (if l < leg || (l == leg && m < k) {
                        velocity_at(obs.axes@, l * 3 + m)
                    } else {
                        Scalar::zero_spec()
                    }),
            decreases 3 - k,
        {
            if let Some(a) = obs.get(AxisId::new((leg * 3 + k) as u16)) {
                if a.health.valid {
                    v.set(leg, k, a.velocity_rad_s);
                }
            }
            k += 1;
        }
        leg += 1;
    }
    v
}

/// A vector in the world frame.
#[derive(Clone, Copy, Debug, PartialEq, Eq, Structural)]
pub struct Vec3 {
    pub x: Scalar,
    pub y: Scalar,
    pub z: Scalar,
}

/// What the standing feet say of the body.
#[derive(Clone, Copy, Debug, PartialEq, Eq, Structural)]
pub struct Odometry {
    pub height_m: Scalar,
    pub velocity_world: Vec3,
    /// Where the body should be, seen from where it is.
    pub position_error_world: Vec3,
}

/// What the filter says of the body.
#[derive(Clone, Copy, Debug, PartialEq, Eq, Structural)]
pub struct Filtered {
    pub height_m: Scalar,
    pub velocity_world: Vec3,
}

/// The body's state. Without a standing foot the feet say nothing: unknown is
/// not zero.
#[derive(Clone, Copy, Debug, PartialEq, Eq, Structural)]
pub struct BodyState {
    pub height_m: Option<Scalar>,
    pub position_error_world: Option<Vec3>,
    pub velocity_world: Option<Vec3>,
    pub angular_velocity_world: Vec3,
    pub stance_count: usize,
}

/// The filter has to be started from the odometry once.
#[derive(Clone, Copy, Debug, PartialEq, Eq, Structural)]
pub struct FilterSeed {
    /// Whether there is a filter.
    pub filtering: bool,
    /// Whether it has been started.
    pub seeded: bool,
}

impl FilterSeed {
    pub fn new(kind: EstimatorKind) -> (r: FilterSeed)
        ensures
            r == (FilterSeed { filtering: kind is Kalman, seeded: false }),
    {
        FilterSeed { filtering: kind == EstimatorKind::Kalman, seeded: false }
    }

    /// Forgets the start: while the gait does not run, feet do move.
    pub fn reset(&mut self)
        ensures
            *final(self) == (FilterSeed { seeded: false, ..*old(self) }),
    {
        self.seeded = false;
    }

    /// The height to start the filter at, where it has to be started now: the
    /// odometry's, or the nominal one without a standing foot.
    pub fn start_height(&mut self, odometry: Option<Scalar>, nominal: Scalar) -> (r: Option<Scalar>)
        ensures
            r == (if old(self).filtering && !old(self).seeded {
                Some(
                    match odometry {
                        Some(h) => h,
                        None => nominal,
                    },
                )
            } else {
                None
            }),
            *final(self) == (FilterSeed {
                seeded: old(self).seeded || old(self).filtering,
                ..*old(self)
            }),
    {
        if !self.filtering || self.seeded {
            return None;
        }
        self.seeded = true;
        match odometry {
            Some(h) => Some(h),
            None => Some(nominal),
        }
    }
}

/// Puts the body's state together. `odometry` is what the standing feet give,
/// and counts only where a foot stands; the filter, where there is one, replaces
/// its height and velocity.
pub fn assemble(
    stance: LegFlags,
    angular_velocity_world: Vec3,
    odometry: Odometry,
    filtered: Option<Filtered>,
) -> (r: BodyState)
    ensures
        r.stance_count == stance.count_spec(),
        r.angular_velocity_world == angular_velocity_world,
        r.position_error_world == (if stance.count_spec() > 0 {
            Some(odometry.position_error_world)
        } else {
            None
        }),
        r.height_m == (match filtered {
            Some(f) => Some(f.height_m),
            None => if stance.count_spec() > 0 {
                Some(odometry.height_m)
            } else {
                None
            },
        }),
        r.velocity_world == (match filtered {
            Some(f) => Some(f.velocity_world),
            None => if stance.count_spec() > 0 {
                Some(odometry.velocity_world)
            } else {
                None
            },
        }),
{
    let count: usize = stance.count();
    let mut out = BodyState {
        height_m: None,
        position_error_world: None,
        velocity_world: None,
        angular_velocity_world,
        stance_count: count,
    };
    if count > 0 {
        out.height_m = Some(odometry.height_m);
        out.velocity_world = Some(odometry.velocity_world);
        out.position_error_world = Some(odometry.position_error_world);
    }
    if let Some(f) = filtered {
        out.height_m = Some(f.height_m);
        out.velocity_world = Some(f.velocity_world);
    }
    out
}

/// What the gait is told of the observed body.
#[derive(Clone, Copy, Debug, PartialEq, Eq, Structural)]
pub struct GaitObservation {
    /// The height, where it is to be observed and is known.
    pub height_m: Option<Scalar>,
    /// Whether a velocity is told at all.
    pub tells_velocity: bool,
    /// Tell the commanded velocity instead of the measured one.
    pub commanded: bool,
}

/// What to tell the gait of the body.
pub fn observe_body(body: &BodyState, observe_pose: bool, observe_velocity: bool) -> (r: GaitObservation)
    ensures
        r.height_m == (if observe_pose { body.height_m } else { None }),
        r.tells_velocity == body.velocity_world is Some,
        r.commanded == (body.velocity_world is Some && !observe_velocity),
{
    let tells: bool = body.velocity_world.is_some();
    GaitObservation {
        height_m: if observe_pose { body.height_m } else { None },
        tells_velocity: tells,
        commanded: tells && !observe_velocity,
    }
}

/// Feet without sensors leave the plan alone, for the controller and for the
/// estimator.
pub proof fn without_sensors_the_plan_stands(contacts: Seq<Contact>, planned: Seq<bool>, slot: int)
    requires
        0 <= slot < 4,
        planned.len() == 4,
        forall|i: int| 0 <= i < contacts.len() ==> (#[trigger] contacts[i]) is None,
    ensures
        (planned[slot] || contact_of(contacts, slot) == Some(true)) == planned[slot],
        (match contact_of(contacts, slot) {
            Some(down) => down,
            None => planned[slot],
        }) == planned[slot],
{
}

/// A foot's contact is its own reading, where there is one, and a joint's speed is
/// its own as far as it has been read.
pub proof fn readings_are_taken_from_their_own_place(contacts: Seq<Contact>, axes: Seq<AxisState>, i: int)
    requires
        0 <= i,
    ensures
        i < contacts.len() ==> contact_of(contacts, i) == contacts[i],
        i >= contacts.len() ==> contact_of(contacts, i) is None,
        i < axes.len() && axes[i].health.valid ==> velocity_at(axes, i) == axes[i].velocity_rad_s,
        i >= axes.len() || !axes[i].health.valid ==> velocity_at(axes, i) == Scalar::zero_spec(),
{
}

} // verus!
