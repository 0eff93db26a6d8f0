//! What the operator wants.
//!
//! Everything behind this point sees meaning ("walk", "go limp"), never the
//! switch or the channel that said it.

use vstd::prelude::*;

use crate::config::KneeShape;
use crate::scalar::Scalar;
use crate::time::Time;

verus! {

/// Body velocity, in metres and radians per second.
#[derive(Clone, Copy, Debug, PartialEq, Eq, Structural)]
pub struct Velocity {
    pub vx_m_s: Scalar,
    pub vy_m_s: Scalar,
    pub wz_rad_s: Scalar,
}

impl Velocity {
    pub open spec fn zero_spec() -> Velocity {
        Velocity {
            vx_m_s: Scalar::zero_spec(),
            vy_m_s: Scalar::zero_spec(),
            wz_rad_s: Scalar::zero_spec(),
        }
    }

    pub open spec fn is_zero_spec(self) -> bool {
        self.vx_m_s.is_zero_num() && self.vy_m_s.is_zero_num() && self.wz_rad_s.is_zero_num()
    }

    pub fn zero() -> (r: Velocity)
        ensures
            r == Self::zero_spec(),
            r.is_zero_spec(),
    {
        Velocity { vx_m_s: Scalar::zero(), vy_m_s: Scalar::zero(), wz_rad_s: Scalar::zero() }
    }

    /// Exactly zero. There is no threshold: smoothing is the velocity ramp's job.
    pub fn is_zero(&self) -> (r: bool)
        ensures
            r == self.is_zero_spec(),
    {
        self.vx_m_s.is_zero() && self.vy_m_s.is_zero() && self.wz_rad_s.is_zero()
    }
}

impl Default for Velocity {
    fn default() -> (r: Velocity)
        ensures
            r == Velocity::zero_spec(),
    {
        Velocity::zero()
    }
}

/// How far the robot may go, from least to most active.
#[derive(Clone, Copy, Debug, PartialEq, Eq, PartialOrd, Ord, Structural)]
pub enum ModeRequest {
    /// Limp.
    Relax,
    /// Hold the start pose.
    Stand,
    Walk,
}

impl ModeRequest {
    /// Place in the order of activity.
    pub open spec fn activity(self) -> int {
        match self {
            ModeRequest::Relax => 0,
            ModeRequest::Stand => 1,
            ModeRequest::Walk => 2,
        }
    }

    /// Where a lost link leaves the mode: exactly where it was. A limp robot
    /// must not rise, a standing one must not collapse, and a walking one stops
    /// because its velocity is zeroed, not because its mode changes.
    pub fn capped_for_failsafe(self) -> (r: ModeRequest)
        ensures
            r == self,
    {
        self
    }
}

impl Default for ModeRequest {
    fn default() -> (r: ModeRequest)
        ensures
            r is Relax,
    {
        ModeRequest::Relax
    }
}

/// Which footfall pattern to use.
#[derive(Clone, Copy, Debug, PartialEq, Eq, Structural)]
pub enum GaitSelect {
    Crawl,
    Walk,
    Trot,
}

impl GaitSelect {
    pub open spec fn label_spec(self) -> Seq<char> {
        match self {
            GaitSelect::Crawl => "Crawl"@,
            GaitSelect::Walk => "Walk"@,
            GaitSelect::Trot => "Trot"@,
        }
    }

    pub fn label(self) -> (r: &'static str)
        ensures
            r@ == self.label_spec(),
    {
        match self {
            GaitSelect::Crawl => "Crawl",
            GaitSelect::Walk => "Walk",
            GaitSelect::Trot => "Trot",
        }
    }
}

impl Default for GaitSelect {
    fn default() -> (r: GaitSelect)
        ensures
            r is Crawl,
    {
        GaitSelect::Crawl
    }
}

/// Which of the configured poses to play.
#[derive(Clone, Copy, Debug, PartialEq, Eq, Structural)]
pub struct PoseSlot(pub u8);

impl Default for PoseSlot {
    fn default() -> (r: PoseSlot)
        ensures
            r.0 == 0,
    {
        PoseSlot(0)
    }
}

/// Overrides of the gait's parameters. `None` leaves the profile's value.
#[derive(Clone, Copy, Debug, PartialEq, Eq, Structural)]
pub struct GaitTune {
    pub cycle_period_s: Option<Scalar>,
    pub swing_height_m: Option<Scalar>,
    pub step_length_m: Option<Scalar>,
    pub duty_factor: Option<Scalar>,
}

/// The range that each override is held to.
#[derive(Clone, Copy, Debug, PartialEq, Eq)]
pub struct TuneRanges {
    pub cycle_s: (Scalar, Scalar),
    pub swing_m: (Scalar, Scalar),
    pub step_m: (Scalar, Scalar),
    pub duty: (Scalar, Scalar),
}

impl TuneRanges {
    pub open spec fn ordered(self) -> bool {
        &&& self.cycle_s.0.le_num(self.cycle_s.1)
        &&& self.swing_m.0.le_num(self.swing_m.1)
        &&& self.step_m.0.le_num(self.step_m.1)
        &&& self.duty.0.le_num(self.duty.1)
    }

    pub fn are_ordered(&self) -> (r: bool)
        ensures
            r == self.ordered(),
    {
        self.cycle_s.0.at_most(self.cycle_s.1) && self.swing_m.0.at_most(self.swing_m.1)
            && self.step_m.0.at_most(self.step_m.1) && self.duty.0.at_most(self.duty.1)
    }
}

/// An override held to its range.
pub open spec fn clamp_option(v: Option<Scalar>, range: (Scalar, Scalar)) -> Option<Scalar> {
    match v {
        Some(x) => Some(x.clamp_spec(range.0, range.1)),
        None => None,
    }
}

fn clamp_some(v: Option<Scalar>, range: (Scalar, Scalar)) -> (r: Option<Scalar>)
    requires
        range.0.le_num(range.1),
    ensures
        r == clamp_option(v, range),
{
    match v {
        Some(x) => Some(x.clamp(range.0, range.1)),
        None => None,
    }
}

impl GaitTune {
    pub open spec fn empty_spec() -> GaitTune {
        GaitTune { cycle_period_s: None, swing_height_m: None, step_length_m: None, duty_factor: None }
    }

    pub open spec fn clamped_spec(self, ranges: TuneRanges) -> GaitTune {
        GaitTune {
            cycle_period_s: clamp_option(self.cycle_period_s, ranges.cycle_s),
            swing_height_m: clamp_option(self.swing_height_m, ranges.swing_m),
            step_length_m: clamp_option(self.step_length_m, ranges.step_m),
            duty_factor: clamp_option(self.duty_factor, ranges.duty),
        }
    }

    /// The overrides, each held to its range.
    pub fn clamped(&self, ranges: &TuneRanges) -> (r: GaitTune)
        requires
            ranges.ordered(),
        ensures
            r == self.clamped_spec(*ranges),
    {
        GaitTune {
            cycle_period_s: clamp_some(self.cycle_period_s, ranges.cycle_s),
            swing_height_m: clamp_some(self.swing_height_m, ranges.swing_m),
            step_length_m: clamp_some(self.step_length_m, ranges.step_m),
            duty_factor: clamp_some(self.duty_factor, ranges.duty),
        }
    }

    pub fn is_empty(&self) -> (r: bool)
        ensures
            r == (*self == Self::empty_spec()),
    {
        self.cycle_period_s.is_none() && self.swing_height_m.is_none() && self.step_length_m.is_none()
            && self.duty_factor.is_none()
    }
}

impl Default for GaitTune {
    fn default() -> (r: GaitTune)
        ensures
            r == GaitTune::empty_spec(),
    {
        GaitTune { cycle_period_s: None, swing_height_m: None, step_length_m: None, duty_factor: None }
    }
}

/// A request to change the gait controller while running.
#[derive(Clone, Copy, Debug, PartialEq, Eq, Structural)]
pub enum GaitControllerRequest {
    Champ,
    Mpc,
}

/// A request to change the whole-body controller's output while running.
#[derive(Clone, Copy, Debug, PartialEq, Eq, Structural)]
pub enum WbcRequest {
    Off,
    Position,
    Torque,
}

/// One period's worth of operator intent.
#[derive(Clone, Debug, PartialEq, Eq)]
pub struct Intent {
    pub time: Time,
    pub velocity: Velocity,
    /// Roll, pitch and yaw of the body.
    pub body_attitude_rad: [Scalar; 3],
    pub height_offset_m: Scalar,
    pub mode: ModeRequest,
    pub gait: GaitSelect,
    /// Set for the one period in which a pose is asked for.
    pub play_pose: bool,
    pub pose_slot: PoseSlot,
    pub stabilize_head: bool,
    /// Observed angles of the auxiliary axes that others drive.
    pub aux_rad: Vec<Option<Scalar>>,
    pub link_ok: bool,
    pub gait_tune: GaitTune,
    pub gait_controller: Option<GaitControllerRequest>,
    pub wbc: Option<WbcRequest>,
    pub knee_pattern: Option<KneeShape>,
}

impl Intent {
    pub open spec fn aux_spec(&self, index: int) -> Option<Scalar> {
        if 0 <= index < self.aux_rad@.len() {
            self.aux_rad@[index]
        } else {
            None
        }
    }

    /// Equal in every field.
    pub open spec fn same_as(&self, other: &Intent) -> bool {
        &&& self.time == other.time
        &&& self.velocity == other.velocity
        &&& self.body_attitude_rad@ == other.body_attitude_rad@
        &&& self.height_offset_m == other.height_offset_m
        &&& self.mode == other.mode
        &&& self.gait == other.gait
        &&& self.play_pose == other.play_pose
        &&& self.pose_slot == other.pose_slot
        &&& self.stabilize_head == other.stabilize_head
        &&& self.aux_rad@ == other.aux_rad@
        &&& self.link_ok == other.link_ok
        &&& self.gait_tune == other.gait_tune
        &&& self.gait_controller == other.gait_controller
        &&& self.wbc == other.wbc
        &&& self.knee_pattern == other.knee_pattern
    }

    /// `self` is what `before` becomes when the link is lost: no velocity, a
    /// level body, no pose, no head stabilisation; the rest stays.
    pub open spec fn failsafe_of(&self, before: &Intent) -> bool {
        &&& self.time == before.time
        &&& self.velocity == Velocity::zero_spec()
        &&& self.body_attitude_rad@ == seq![
            Scalar::zero_spec(),
            Scalar::zero_spec(),
            Scalar::zero_spec(),
        ]
        &&& self.height_offset_m == before.height_offset_m
        &&& self.mode == before.mode
        &&& self.gait == before.gait
        &&& !self.play_pose
        &&& self.pose_slot == before.pose_slot
        &&& !self.stabilize_head
        &&& self.aux_rad@ == before.aux_rad@
        &&& !self.link_ok
        &&& self.gait_tune == before.gait_tune
        &&& self.gait_controller == before.gait_controller
        &&& self.wbc == before.wbc
        &&& self.knee_pattern == before.knee_pattern
    }

    /// The observed angle of auxiliary axis `index`, where there is one.
    pub fn aux(&self, index: usize) -> (r: Option<Scalar>)
        ensures
            r == self.aux_spec(index as int),
    {
        if index < self.aux_rad.len() {
            self.aux_rad[index]
        } else {
            None
        }
    }

    /// A copy.
    pub fn duplicate(&self) -> (r: Intent)
        ensures
            r.same_as(self),
    {
        Intent {
            time: self.time,
            velocity: self.velocity,
            body_attitude_rad: self.body_attitude_rad,
            height_offset_m: self.height_offset_m,
            mode: self.mode,
            gait: self.gait,
            play_pose: self.play_pose,
            pose_slot: self.pose_slot,
            stabilize_head: self.stabilize_head,
            aux_rad: copy_aux(&self.aux_rad),
            link_ok: self.link_ok,
            gait_tune: self.gait_tune,
            gait_controller: self.gait_controller,
            wbc: self.wbc,
            knee_pattern: self.knee_pattern,
        }
    }

    /// What the intent becomes when the link is lost.
    pub fn failsafe(&self) -> (r: Intent)
        ensures
            r.failsafe_of(self),
    {
        let mut out = self.duplicate();
        out.velocity = Velocity::zero();
        out.body_attitude_rad = [Scalar::zero(), Scalar::zero(), Scalar::zero()];
        out.mode = self.mode.capped_for_failsafe();
        out.play_pose = false;
        out.stabilize_head = false;
        out.link_ok = false;
        out
    }
}

fn copy_aux(v: &Vec<Option<Scalar>>) -> (r: Vec<Option<Scalar>>)
    ensures
        r@ == v@,
{
    let mut out: Vec<Option<Scalar>> = Vec::new();
    let mut i: usize = 0;
    while i < v.len()
        invariant
            i <= v@.len(),
            out@ == v@.take(i as int),
        decreases v@.len() - i,
    {
        out.push(v[i]);
        i += 1;
    }
    out
}

impl Default for Intent {
    fn default() -> (r: Intent)
        ensures
            r.time == (Time { nanos: 0 }),
            r.velocity == Velocity::zero_spec(),
            r.body_attitude_rad@ == seq![
                Scalar::zero_spec(),
                Scalar::zero_spec(),
                Scalar::zero_spec(),
            ],
            r.height_offset_m == Scalar::zero_spec(),
            r.mode is Relax,
            r.gait is Crawl,
            !r.play_pose,
            r.pose_slot.0 == 0,
            !r.stabilize_head,
            r.aux_rad@.len() == 0,
            !r.link_ok,
            r.gait_tune == GaitTune::empty_spec(),
            r.gait_controller is None,
            r.wbc is None,
            r.knee_pattern is None,
    {
        Intent {
            time: Time::zero(),
            velocity: Velocity::zero(),
            body_attitude_rad: [Scalar::zero(), Scalar::zero(), Scalar::zero()],
            height_offset_m: Scalar::zero(),
            mode: ModeRequest::Relax,
            gait: GaitSelect::Crawl,
            play_pose: false,
            pose_slot: PoseSlot(0),
            stabilize_head: false,
            aux_rad: Vec::new(),
            link_ok: false,
            gait_tune: GaitTune::default(),
            gait_controller: None,
            wbc: None,
            knee_pattern: None,
        }
    }
}

/// Losing the link never raises the activity, stops the robot and fires no pose.
pub proof fn failsafe_never_raises_activity(after: Intent, before: Intent)
    requires
        after.failsafe_of(&before),
    ensures
        after.mode.activity() <= before.mode.activity(),
        after.mode == before.mode,
        after.velocity.is_zero_spec(),
        !after.play_pose,
{
}

/// Losing the link a second time changes nothing more.
pub proof fn failsafe_is_idempotent(twice: Intent, once: Intent, before: Intent)
    requires
        once.failsafe_of(&before),
        twice.failsafe_of(&once),
    ensures
        twice.same_as(&once),
{
}

/// Holding overrides to their ranges twice changes nothing more.
pub proof fn clamping_a_tune_is_idempotent(t: GaitTune, ranges: TuneRanges)
    requires
        ranges.ordered(),
    ensures
        t.clamped_spec(ranges).clamped_spec(ranges) == t.clamped_spec(ranges),
{
}

/// Limp is less active than standing, and standing less than walking.
pub proof fn activity_rises_from_limp_to_walking(a: ModeRequest, b: ModeRequest)
    ensures
        ModeRequest::Relax.activity() < ModeRequest::Stand.activity(),
        ModeRequest::Stand.activity() < ModeRequest::Walk.activity(),
        a.activity() == b.activity() <==> a == b,
{
}

/// A velocity is zero exactly if none of its three components is anything else.
pub proof fn one_component_makes_a_velocity(v: Velocity)
    ensures
        v.is_zero_spec() <==> !(v.vx_m_s.magnitude() > 0 || v.vy_m_s.magnitude() > 0
            || v.wz_rad_s.magnitude() > 0),
        Velocity::zero_spec().is_zero_spec(),
{
}

/// Losing the link takes away the velocity, the lean, the pose and the head's
/// stabilisation. What the robot stands on stays: its mode, gait, height, knees,
/// overrides and controllers.
pub proof fn a_lost_link_leaves_the_robot_where_it_stands(after: Intent, before: Intent, k: int)
    requires
        after.failsafe_of(&before),
        0 <= k < 3,
    ensures
        after.velocity.vx_m_s.bits == 0,
        after.velocity.vy_m_s.bits == 0,
        after.velocity.wz_rad_s.bits == 0,
        after.body_attitude_rad@.len() == 3,
        after.body_attitude_rad@[k].bits == 0,
        !after.play_pose,
        !after.stabilize_head,
        !after.link_ok,
        after.mode == before.mode,
        after.gait == before.gait,
        after.height_offset_m == before.height_offset_m,
        after.knee_pattern == before.knee_pattern,
        after.gait_tune == before.gait_tune,
        after.gait_controller == before.gait_controller,
        after.wbc == before.wbc,
        after.pose_slot == before.pose_slot,
        after.time == before.time,
        after.aux_rad@ == before.aux_rad@,
{
}

/// Each override is held to its own range: below it becomes the lower end,
/// above it the upper end, inside it stays, and one that is not given stays so.
pub proof fn each_override_is_held_to_its_own_range(t: GaitTune, ranges: TuneRanges)
    requires
        ranges.ordered(),
    ensures
        held_to(t.cycle_period_s, ranges.cycle_s, t.clamped_spec(ranges).cycle_period_s),
        held_to(t.swing_height_m, ranges.swing_m, t.clamped_spec(ranges).swing_height_m),
        held_to(t.step_length_m, ranges.step_m, t.clamped_spec(ranges).step_length_m),
        held_to(t.duty_factor, ranges.duty, t.clamped_spec(ranges).duty_factor),
{
}

/// `after` is `before` moved into `range` no further than needed.
pub open spec fn held_to(before: Option<Scalar>, range: (Scalar, Scalar), after: Option<Scalar>) -> bool {
    &&& before is None <==> after is None
    &&& before matches Some(x) ==> {
        &&& x.lt_num(range.0) ==> after == Some(range.0)
        &&& range.1.lt_num(x) ==> after == Some(range.1)
        &&& !x.lt_num(range.0) && !range.1.lt_num(x) ==> after == Some(x)
    }
}

/// Ranges are in order only if every one of the four is.
pub proof fn one_reversed_range_is_enough(ranges: TuneRanges)
    ensures
        ranges.cycle_s.1.lt_num(ranges.cycle_s.0) ==> !ranges.ordered(),
        ranges.swing_m.1.lt_num(ranges.swing_m.0) ==> !ranges.ordered(),
        ranges.step_m.1.lt_num(ranges.step_m.0) ==> !ranges.ordered(),
        ranges.duty.1.lt_num(ranges.duty.0) ==> !ranges.ordered(),
{
}

/// Without a single override there is nothing to change, and one is enough.
pub proof fn one_override_is_enough(t: GaitTune)
    ensures
        t == GaitTune::empty_spec() <==> t.cycle_period_s is None && t.swing_height_m is None
            && t.step_length_m is None && t.duty_factor is None,
{
}

/// An auxiliary axis shows the angle at its own place, and beyond the last one
/// nothing is known.
pub proof fn an_auxiliary_axis_shows_its_own_angle(intent: Intent, index: int)
    ensures
        0 <= index < intent.aux_rad@.len() ==> intent.aux_spec(index) == intent.aux_rad@[index],
        index >= intent.aux_rad@.len() ==> intent.aux_spec(index) is None,
{
}

/// Copies agree in everything that the operator can say.
pub proof fn a_copy_says_the_same(a: Intent, b: Intent)
    requires
        a.same_as(&b),
    ensures
        a.velocity == b.velocity,
        a.mode == b.mode,
        a.gait == b.gait,
        a.play_pose == b.play_pose,
        a.pose_slot == b.pose_slot,
        a.stabilize_head == b.stabilize_head,
        a.link_ok == b.link_ok,
        a.gait_tune == b.gait_tune,
        a.gait_controller == b.gait_controller,
        a.wbc == b.wbc,
        a.knee_pattern == b.knee_pattern,
        a.height_offset_m == b.height_offset_m,
        a.body_attitude_rad@ == b.body_attitude_rad@,
        a.aux_rad@ == b.aux_rad@,
        a.time == b.time,
{
}

/// A gait's label is its name, with a capital letter.
pub proof fn gaits_are_labelled_by_name(g: GaitSelect)
    ensures
        g is Crawl <==> g.label_spec() == "Crawl"@,
        g is Walk <==> g.label_spec() == "Walk"@,
        g is Trot <==> g.label_spec() == "Trot"@,
{
    reveal_strlit("Crawl");
    reveal_strlit("Walk");
    reveal_strlit("Trot");
    assert("Crawl"@.len() == 5);
    assert("Walk"@.len() == 4 && "Walk"@[0] == 'W');
    assert("Trot"@.len() == 4 && "Trot"@[0] == 'T');
}

} // verus!
