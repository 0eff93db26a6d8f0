//! The robot model's tables, and how the gait is set up from the profile.

use vstd::prelude::*;
use vstd::string::*;

use crate::config::{GaitControllerKind, GaitTuning, KneeShape};
use crate::intent::{GaitSelect, GaitTune, TuneRanges};
use crate::jointvec::JointVec;
use crate::scalar::Scalar;
use crate::text;
use crate::text::same;

verus! {

/// The gait library's footfall patterns.
#[derive(Clone, Copy, Debug, PartialEq, Eq, Structural)]
pub enum GaitType {
    Crawl,
    Walk,
    Trot,
}

/// The gait library's controllers.
#[derive(Clone, Copy, Debug, PartialEq, Eq, Structural)]
pub enum GaitMode {
    Champ,
    LinearCrawl,
    Mpc,
    CentroidalSrbd,
}

/// The gait library's knee patterns.
#[derive(Clone, Copy, Debug, PartialEq, Eq, Structural)]
pub enum KneePattern {
    BothBack,
    MammalianForward,
    MammalianReverse,
    BothForward,
}

pub fn gait_type_of(select: GaitSelect) -> (r: GaitType)
    ensures
        select is Crawl ==> r is Crawl,
        select is Walk ==> r is Walk,
        select is Trot ==> r is Trot,
{
    match select {
        GaitSelect::Crawl => GaitType::Crawl,
        GaitSelect::Walk => GaitType::Walk,
        GaitSelect::Trot => GaitType::Trot,
    }
}

pub fn knee_pattern_of(shape: KneeShape) -> (r: KneePattern)
    ensures
        shape is BothBack ==> r is BothBack,
        shape is MammalianForward ==> r is MammalianForward,
        shape is MammalianReverse ==> r is MammalianReverse,
        shape is BothForward ==> r is BothForward,
{
    match shape {
        KneeShape::BothBack => KneePattern::BothBack,
        KneeShape::MammalianForward => KneePattern::MammalianForward,
        KneeShape::MammalianReverse => KneePattern::MammalianReverse,
        KneeShape::BothForward => KneePattern::BothForward,
    }
}

/// Left to itself, only a crawl may use the straight-line planner. A controller
/// that is named wins over the older flag.
pub open spec fn mode_spec(select: GaitSelect, tuning: GaitTuning) -> GaitMode {
    match tuning.controller {
        GaitControllerKind::Auto => if select is Crawl && tuning.crawl_use_linear {
            GaitMode::LinearCrawl
        } else {
            GaitMode::Champ
        },
        GaitControllerKind::Champ => GaitMode::Champ,
        GaitControllerKind::LinearCrawl => GaitMode::LinearCrawl,
        GaitControllerKind::Mpc => GaitMode::Mpc,
        GaitControllerKind::Centroidal => GaitMode::CentroidalSrbd,
    }
}

/// The controller that runs a footfall pattern.
pub fn gait_mode_of(select: GaitSelect, tuning: &GaitTuning) -> (r: GaitMode)
    ensures
        r == mode_spec(select, *tuning),
{
    match tuning.controller {
        GaitControllerKind::Auto => {
            if select == GaitSelect::Crawl && tuning.crawl_use_linear {
                GaitMode::LinearCrawl
            } else {
                GaitMode::Champ
            }
        },
        GaitControllerKind::Champ => GaitMode::Champ,
        GaitControllerKind::LinearCrawl => GaitMode::LinearCrawl,
        GaitControllerKind::Mpc => GaitMode::Mpc,
        GaitControllerKind::Centroidal => GaitMode::CentroidalSrbd,
    }
}

/// Whether a controller takes a change of body height while it runs. Only the
/// straight-line planner does; the others drop it without a word.
pub fn gait_supports_body_height(mode: GaitMode) -> (r: bool)
    ensures
        r == (mode is LinearCrawl),
{
    mode == GaitMode::LinearCrawl
}

pub open spec fn cycle_spec(tuning: GaitTuning, select: GaitSelect) -> Option<Scalar> {
    match select {
        GaitSelect::Crawl => tuning.crawl_cycle_s,
        GaitSelect::Walk => tuning.walk_cycle_s,
        GaitSelect::Trot => tuning.trot_cycle_s,
    }
}

/// The profile's cycle time of a gait.
pub fn cycle_period_of(tuning: &GaitTuning, select: GaitSelect) -> (r: Option<Scalar>)
    ensures
        r == cycle_spec(*tuning, select),
{
    match select {
        GaitSelect::Crawl => tuning.crawl_cycle_s,
        GaitSelect::Walk => tuning.walk_cycle_s,
        GaitSelect::Trot => tuning.trot_cycle_s,
    }
}

/// The parameters of a gait.
#[derive(Clone, Copy, Debug, PartialEq, Eq, Structural)]
pub struct GaitConfig {
    pub cycle_period_s: Scalar,
    pub swing_height_m: Scalar,
    pub max_step_length_m: Scalar,
    pub duty_factor: Scalar,
}

pub open spec fn or_else(v: Option<Scalar>, other: Scalar) -> Scalar {
    match v {
        Some(x) => x,
        None => other,
    }
}

fn given_or(v: Option<Scalar>, other: Scalar) -> (r: Scalar)
    ensures
        r == or_else(v, other),
{
    match v {
        Some(x) => x,
        None => other,
    }
}

pub open spec fn base_spec(tuning: GaitTuning, select: GaitSelect, preset: GaitConfig) -> GaitConfig {
    GaitConfig {
        cycle_period_s: or_else(cycle_spec(tuning, select), preset.cycle_period_s),
        swing_height_m: tuning.swing_height_m,
        max_step_length_m: or_else(tuning.step_length_m, preset.max_step_length_m),
        duty_factor: preset.duty_factor,
    }
}

/// A gait's parameters from the profile. `preset` is the gait library's own
/// setting for that gait, which stands where the profile says nothing.
pub fn base_gait_config(tuning: &GaitTuning, select: GaitSelect, preset: &GaitConfig) -> (r: GaitConfig)
    ensures
        r == base_spec(*tuning, select, *preset),
{
    GaitConfig {
        cycle_period_s: given_or(cycle_period_of(tuning, select), preset.cycle_period_s),
        swing_height_m: tuning.swing_height_m,
        max_step_length_m: given_or(tuning.step_length_m, preset.max_step_length_m),
        duty_factor: preset.duty_factor,
    }
}

pub open spec fn tuned_spec(base: GaitConfig, tune: GaitTune, ranges: TuneRanges) -> GaitConfig {
    let t = tune.clamped_spec(ranges);
    GaitConfig {
        cycle_period_s: or_else(t.cycle_period_s, base.cycle_period_s),
        swing_height_m: or_else(t.swing_height_m, base.swing_height_m),
        max_step_length_m: or_else(t.step_length_m, base.max_step_length_m),
        duty_factor: or_else(t.duty_factor, base.duty_factor),
    }
}

/// A gait's parameters with the overrides laid over them, each held to its
/// range first.
pub fn tuned_gait_config(
    tuning: &GaitTuning,
    select: GaitSelect,
    preset: &GaitConfig,
    tune: &GaitTune,
    ranges: &TuneRanges,
) -> (r: GaitConfig)
    requires
        ranges.ordered(),
    ensures
        r == tuned_spec(base_spec(*tuning, select, *preset), *tune, *ranges),
{
    let base = base_gait_config(tuning, select, preset);
    let t = tune.clamped(ranges);
    GaitConfig {
        cycle_period_s: given_or(t.cycle_period_s, base.cycle_period_s),
        swing_height_m: given_or(t.swing_height_m, base.swing_height_m),
        max_step_length_m: given_or(t.step_length_m, base.max_step_length_m),
        duty_factor: given_or(t.duty_factor, base.duty_factor),
    }
}

pub open spec fn as_tune(c: GaitConfig) -> GaitTune {
    GaitTune {
        cycle_period_s: Some(c.cycle_period_s),
        swing_height_m: Some(c.swing_height_m),
        step_length_m: Some(c.max_step_length_m),
        duty_factor: Some(c.duty_factor),
    }
}

/// A gait's parameters in the form of overrides, to start turning knobs from.
pub fn base_gait_tune(tuning: &GaitTuning, select: GaitSelect, preset: &GaitConfig) -> (r: GaitTune)
    ensures
        r == as_tune(base_spec(*tuning, select, *preset)),
{
    let c = base_gait_config(tuning, select, preset);
    GaitTune {
        cycle_period_s: Some(c.cycle_period_s),
        swing_height_m: Some(c.swing_height_m),
        step_length_m: Some(c.max_step_length_m),
        duty_factor: Some(c.duty_factor),
    }
}

/// One joint angle of a pose. Joints are numbered as the axes are: the legs one
/// after the other, then the arm as number 12.
#[derive(Clone, Copy, Debug, PartialEq, Eq, Structural)]
pub struct PoseAngle {
    pub joint: usize,
    pub angle: Scalar,
}

/// A named pose: the angles that it gives. It may leave joints out.
#[derive(Clone, Debug, PartialEq, Eq)]
pub struct Pose {
    pub name: String,
    pub angles: Vec<PoseAngle>,
}

/// The poses of a robot model.
#[derive(Clone, Debug, PartialEq, Eq)]
pub struct PoseLibrary {
    pub poses: Vec<Pose>,
    pub home: JointVec,
}

/// The last angle that the first `n` entries give joint `i`; else `base`.
pub open spec fn angle_of(angles: Seq<PoseAngle>, n: int, i: int, base: Scalar) -> Scalar
    decreases n,
{
    if n <= 0 {
        base
    } else if angles[n - 1].joint == i {
        angles[n - 1].angle
    } else {
        angle_of(angles, n - 1, i, base)
    }
}

/// `q` is `base` with the pose's angles laid over it.
pub open spec fn resolves(angles: Seq<PoseAngle>, base: JointVec, q: JointVec) -> bool {
    forall|i: int|
        0 <= i < 13 ==> #[trigger] q.joint(i) == angle_of(angles, angles.len() as int, i, base.joint(i))
}

/// Pose `i` is the first of that name.
pub open spec fn first_named(poses: Seq<Pose>, name: Seq<char>, i: int) -> bool {
    &&& 0 <= i < poses.len()
    &&& poses[i].name@ == name
    &&& forall|k: int| 0 <= k < i ==> #[trigger] poses[k].name@ != name
}

pub open spec fn no_pose_named(poses: Seq<Pose>, name: Seq<char>) -> bool {
    forall|k: int| 0 <= k < poses.len() ==> #[trigger] poses[k].name@ != name
}

impl PoseLibrary {
    /// The first pose of that name.
    pub fn pose(&self, name: &str) -> (r: Option<usize>)
        ensures
            match r {
                Some(i) => first_named(self.poses@, name@, i as int),
                None => no_pose_named(self.poses@, name@),
            },
    {
        let mut i: usize = 0;
        while i < self.poses.len()
            invariant
                i <= self.poses@.len(),
                forall|k: int| 0 <= k < i ==> #[trigger] self.poses@[k].name@ != name@,
            decreases self.poses@.len() - i,
        {
            if same(self.poses[i].name.as_str(), name) {
                return Some(i);
            }
            i += 1;
        }
        None
    }

    /// Lays the angles of pose `i` over `base`. An angle of an unknown joint
    /// has no effect.
    pub fn resolve(&self, i: usize, base: JointVec) -> (q: JointVec)
        requires
            i < self.poses@.len(),
        ensures
            resolves(self.poses@[i as int].angles@, base, q),
    {
        let angles: &Vec<PoseAngle> = &self.poses[i].angles;
        let mut q: JointVec = base;
        let mut n: usize = 0;
        while n < angles.len()
            invariant
                n <= angles@.len(),
                forall|j: int| 0 <= j < 13 ==> #[trigger] q.joint(j) == angle_of(
                    angles@,
                    n as int,
                    j,
                    base.joint(j),
                ),
            decreases angles@.len() - n,
        {
            let a: PoseAngle = angles[n];
            let ghost before = q;
            if a.joint < 12 {
                q.set(a.joint / 3, a.joint % 3, a.angle);
            } else if a.joint == 12 {
                q.arm = a.angle;
            }
            proof {
                assert forall|j: int| 0 <= j < 13 implies #[trigger] q.joint(j) == angle_of(
                    angles@,
                    n + 1,
                    j,
                    base.joint(j),
                ) by {
                    assert(before.joint(j) == angle_of(angles@, n as int, j, base.joint(j)));
                    if j < 12 {
                        assert(q.at(j / 3, j % 3) == q.joint(j));
                        assert(before.at(j / 3, j % 3) == before.joint(j));
                        if a.joint < 12 && j != a.joint {
                            assert(!(j / 3 == a.joint as int / 3 && j % 3 == a.joint as int % 3));
                        }
                    }
                }
            }
            n += 1;
        }
        q
    }
}

/// The posture of a pose by its name: the pose over zero where there is one,
/// else the model's home. The name `home` itself means the model's home.
/// `missing` says that a name was not found.
pub fn resolve_kinematics_posture(poses: &PoseLibrary, name: &str) -> (r: (JointVec, bool))
    ensures
        match r {
            (q, missing) => {
                &&& forall|i: int|
                    #[trigger] first_named(poses.poses@, name@, i) ==> !missing && exists|z: JointVec|
                        #[trigger] z.is_zero() && resolves(poses.poses@[i].angles@, z, q)
                &&& no_pose_named(poses.poses@, name@) ==> q == poses.home && missing == (name@
                    != "home"@)
            },
        },
{
    match poses.pose(name) {
        Some(i) => {
            let zero = JointVec::zeros();
            let q = poses.resolve(i, zero);
            assert forall|k: int| #[trigger] first_named(poses.poses@, name@, k) implies k == i by {
                assert(first_named(poses.poses@, name@, i as int));
            }
            (q, false)
        },
        None => (poses.home, !same(name, "home")),
    }
}

/// `q` is the model's home with the calibrated zero angles of the legs laid over
/// it. A leg without a bus, or a joint without a motor, stays as in the home.
pub open spec fn calibrated(home: JointVec, legs: Seq<Option<Vec<Scalar>>>, q: JointVec) -> bool {
    &&& q.arm == home.arm
    &&& forall|leg: int, k: int|
        0 <= leg < 4 && 0 <= k < 3 ==> #[trigger] q.at(leg, k) == zero_angle(legs[leg], k, home.at(leg, k))
}

/// The zero angle of motor `k` of a leg, where it has one; else `home`.
pub open spec fn zero_angle(motors: Option<Vec<Scalar>>, k: int, home: Scalar) -> Scalar {
    match motors {
        Some(v) => if k < v@.len() {
            v@[k]
        } else {
            home
        },
        None => home,
    }
}

fn calibrate(home: JointVec, legs: &Vec<Option<Vec<Scalar>>>) -> (q: JointVec)
    requires
        legs@.len() == 4,
    ensures
        calibrated(home, legs@, q),
{
    let mut q: JointVec = home;
    let mut leg: usize = 0;
    while leg < 4
        invariant
            leg <= 4 == legs@.len(),
            q.arm == home.arm,
            forall|l: int, m: int|
                0 <= l < 4 && 0 <= m < 3 ==> #[trigger] q.at(l, m) == (if l < leg {
                    zero_angle(legs@[l], m, home.at(l, m))
                } else {
                    home.at(l, m)
                }),
        decreases 4 - leg,
    {
        if let Some(motors) = &legs[leg] {
            let mut k: usize = 0;
            while k < 3 && k < motors.len()
                invariant
                    k <= 3,
                    leg < 4 == legs@.len(),
                    legs@[leg as int] == Some(*motors),
                    k <= motors@.len(),
                    q.arm == home.arm,
                    forall|l: int, m: int|
                        0 <= l < 4 && 0 <= m < 3 ==> #[trigger] q.at(l, m) == (if l < leg || (l == leg
                            && m < k) {
                            zero_angle(legs@[l], m, home.at(l, m))
                        } else {
                            home.at(l, m)
                        }),
                decreases 3 - k,
            {
                q.set(leg, k, motors[k]);
                k += 1;
            }
        }
        leg += 1;
    }
    q
}

/// `q` is the posture without a named pose: the calibration of a serial robot,
/// else the model's home.
pub open spec fn unnamed_rest(home: JointVec, serial: Option<&Vec<Option<Vec<Scalar>>>>, q: JointVec) -> bool {
    match serial {
        Some(legs) => calibrated(home, legs@, q),
        None => q == home,
    }
}

/// Where a simulation starts from: the named pose over the model's home, else
/// the calibration of a serial robot, else the model's home. `serial` holds the
/// zero angles of each leg's motors, `None` for a leg without a bus. The flag
/// says that a name was given and not found.
pub fn rest_pose(
    poses: &PoseLibrary,
    name: Option<&str>,
    serial: Option<&Vec<Option<Vec<Scalar>>>>,
) -> (r: (JointVec, bool))
    requires
        serial matches Some(legs) ==> legs@.len() == 4,
    ensures
        match name {
            Some(n) => {
                &&& forall|i: int|
                    #[trigger] first_named(poses.poses@, n@, i) ==> !r.1 && resolves(
                        poses.poses@[i].angles@,
                        poses.home,
                        r.0,
                    )
                &&& no_pose_named(poses.poses@, n@) ==> r.1 && unnamed_rest(poses.home, serial, r.0)
            },
            None => !r.1 && unnamed_rest(poses.home, serial, r.0),
        },
{
    let mut missing: bool = false;
    if let Some(n) = name {
        match poses.pose(n) {
            Some(i) => {
                assert forall|k: int| #[trigger] first_named(poses.poses@, n@, k) implies k == i by {
                    assert(first_named(poses.poses@, n@, i as int));
                }
                return (poses.resolve(i, poses.home), false);
            },
            None => {
                missing = true;
            },
        }
    }
    match serial {
        Some(legs) => (calibrate(poses.home, legs), missing),
        None => (poses.home, missing),
    }
}

/// What a robot model declares of a joint.
#[derive(Clone, Debug, PartialEq, Eq)]
pub struct JointSpec {
    pub name: String,
    pub lower: Scalar,
    pub upper: Scalar,
    pub velocity: Scalar,
    pub effort: Scalar,
}

/// A joint declares a range if its two ends differ. Equal ends mean that
/// nothing was declared, not that the joint is fixed.
pub open spec fn declares_range(j: JointSpec) -> bool {
    !j.lower.eq_num(j.upper)
}

pub open spec fn with_range() -> spec_fn(JointSpec) -> bool {
    |j: JointSpec| declares_range(j)
}

pub open spec fn with_velocity() -> spec_fn(JointSpec) -> bool {
    |j: JointSpec| j.velocity.positive()
}

pub open spec fn with_effort() -> spec_fn(JointSpec) -> bool {
    |j: JointSpec| j.effort.positive()
}

/// `i` is the last joint of that name with property `p`.
pub open spec fn last_named(
    joints: Seq<JointSpec>,
    name: Seq<char>,
    p: spec_fn(JointSpec) -> bool,
    i: int,
) -> bool {
    &&& 0 <= i < joints.len()
    &&& joints[i].name@ == name
    &&& p(joints[i])
    &&& forall|k: int|
        i < k < joints.len() ==> !((#[trigger] joints[k]).name@ == name && p(joints[k]))
}

pub open spec fn none_named(
    joints: Seq<JointSpec>,
    name: Seq<char>,
    p: spec_fn(JointSpec) -> bool,
) -> bool {
    forall|k: int| 0 <= k < joints.len() ==> !((#[trigger] joints[k]).name@ == name && p(joints[k]))
}

/// The declared range of a joint.
pub fn declared_range(joints: &Vec<JointSpec>, name: &str) -> (r: Option<(Scalar, Scalar)>)
    ensures
        match r {
            Some(range) => exists|i: int|
                #[trigger] last_named(joints@, name@, with_range(), i) && range == (
                    joints@[i].lower,
                    joints@[i].upper,
                ),
            None => none_named(joints@, name@, with_range()),
        },
{
    let ghost p = with_range();
    let mut i: usize = joints.len();
    while i > 0
        invariant
            i <= joints@.len(),
            p == with_range(),
            forall|k: int|
                i <= k < joints@.len() ==> !((#[trigger] joints@[k]).name@ == name@ && p(joints@[k])),
        decreases i,
    {
        i -= 1;
        if same(joints[i].name.as_str(), name) && !joints[i].lower.same_value(joints[i].upper) {
            assert(last_named(joints@, name@, p, i as int));
            return Some((joints[i].lower, joints[i].upper));
        }
    }
    None
}

/// The rated speed of a joint, where one is declared.
pub fn declared_velocity(joints: &Vec<JointSpec>, name: &str) -> (r: Option<Scalar>)
    ensures
        match r {
            Some(v) => exists|i: int|
                #[trigger] last_named(joints@, name@, with_velocity(), i) && v
                    == joints@[i].velocity,
            None => none_named(joints@, name@, with_velocity()),
        },
{
    let ghost p = with_velocity();
    let mut i: usize = joints.len();
    while i > 0
        invariant
            i <= joints@.len(),
            p == with_velocity(),
            forall|k: int|
                i <= k < joints@.len() ==> !((#[trigger] joints@[k]).name@ == name@ && p(joints@[k])),
        decreases i,
    {
        i -= 1;
        if same(joints[i].name.as_str(), name) && joints[i].velocity.is_positive() {
            assert(last_named(joints@, name@, p, i as int));
            return Some(joints[i].velocity);
        }
    }
    None
}

/// The rated torque of a joint, where one is declared.
pub fn declared_effort(joints: &Vec<JointSpec>, name: &str) -> (r: Option<Scalar>)
    ensures
        match r {
            Some(v) => exists|i: int|
                #[trigger] last_named(joints@, name@, with_effort(), i) && v
                    == joints@[i].effort,
            None => none_named(joints@, name@, with_effort()),
        },
{
    let ghost p = with_effort();
    let mut i: usize = joints.len();
    while i > 0
        invariant
            i <= joints@.len(),
            p == with_effort(),
            forall|k: int|
                i <= k < joints@.len() ==> !((#[trigger] joints@[k]).name@ == name@ && p(joints@[k])),
        decreases i,
    {
        i -= 1;
        if same(joints[i].name.as_str(), name) && joints[i].effort.is_positive() {
            assert(last_named(joints@, name@, p, i as int));
            return Some(joints[i].effort);
        }
    }
    None
}

/// A collision mesh that cannot be used.
pub open spec fn mesh_message(link: Seq<char>, file: Seq<char>, sizes: Seq<u64>) -> Seq<char> {
    link + " の "@ + file + " が"@ + (if sizes.len() > 0 { "空です"@ } else { "見つかりません"@ })
}

/// A mesh is usable if one of the files it may stand for has content.
pub open spec fn mesh_usable(sizes: Seq<u64>) -> bool {
    exists|i: int| 0 <= i < sizes.len() && #[trigger] sizes[i] > 0
}

/// What a model says of a collision mesh, and the sizes of the files that were
/// found for it.
#[derive(Clone, Debug, PartialEq, Eq)]
pub struct CollisionMesh {
    pub link: String,
    pub file: String,
    pub sizes: Vec<u64>,
}

/// The complaints with that about one more mesh added, each only once.
pub open spec fn noted(
    bad: Seq<Seq<char>>,
    link: Seq<char>,
    file: Seq<char>,
    sizes: Seq<u64>,
) -> Seq<Seq<char>> {
    let message = mesh_message(link, file, sizes);
    if mesh_usable(sizes) || bad.contains(message) {
        bad
    } else {
        bad.push(message)
    }
}

/// The complaints about the first `n` meshes.
pub open spec fn bad_upto(meshes: Seq<CollisionMesh>, n: int) -> Seq<Seq<char>>
    decreases n,
{
    if n <= 0 {
        Seq::empty()
    } else {
        noted(
            bad_upto(meshes, n - 1),
            meshes[n - 1].link@,
            meshes[n - 1].file@,
            meshes[n - 1].sizes@,
        )
    }
}

/// The collision meshes that cannot be used. A link without its mesh touches
/// nothing, and a robot that touches nothing seems to move well.
pub fn bad_meshes(meshes: &Vec<CollisionMesh>) -> (r: Vec<String>)
    ensures
        text::words(r@) == bad_upto(meshes@, meshes@.len() as int),
{
    let mut bad: Vec<String> = Vec::new();
    assert(text::words(bad@) =~= Seq::<Seq<char>>::empty());
    let mut i: usize = 0;
    while i < meshes.len()
        invariant
            i <= meshes@.len(),
            text::words(bad@) == bad_upto(meshes@, i as int),
        decreases meshes@.len() - i,
    {
        let m: &CollisionMesh = &meshes[i];
        note_mesh(&mut bad, m.link.as_str(), m.file.as_str(), &m.sizes);
        i += 1;
    }
    bad
}

fn note_mesh(bad: &mut Vec<String>, link: &str, file: &str, sizes: &Vec<u64>)
    ensures
        text::words(final(bad)@) == noted(text::words(old(bad)@), link@, file@, sizes@),
{
    let mut i: usize = 0;
    while i < sizes.len()
        invariant
            i <= sizes@.len(),
            *bad == *old(bad),
            forall|k: int| 0 <= k < i ==> #[trigger] sizes@[k] == 0,
        decreases sizes@.len() - i,
    {
        if sizes[i] > 0 {
            return ;
        }
        i += 1;
    }
    let mut message: String = link.to_owned();
    message.append(" の ");
    message.append(file);
    message.append(" が");
    if sizes.len() > 0 {
        message.append("空です");
    } else {
        message.append("見つかりません");
    }
    assert(message@ == mesh_message(link@, file@, sizes@));
    let mut k: usize = 0;
    while k < bad.len()
        invariant
            k <= bad@.len(),
            *bad == *old(bad),
            message@ == mesh_message(link@, file@, sizes@),
            forall|j: int| 0 <= j < k ==> #[trigger] text::words(bad@)[j] != message@,
        decreases bad@.len() - k,
    {
        assert(text::words(bad@)[k as int] == bad@[k as int]@);
        if bad[k] == message {
            return ;
        }
        k += 1;
    }
    let ghost before = text::words(bad@);
    bad.push(message);
    assert(text::words(bad@) == before.push(message@));
}

/// Every mesh that cannot be used is complained about, and nothing is complained
/// about twice.
pub proof fn every_bad_mesh_is_named_once(meshes: Seq<CollisionMesh>, n: int)
    requires
        0 <= n <= meshes.len(),
    ensures
        forall|i: int|
            0 <= i < n && !mesh_usable((#[trigger] meshes[i]).sizes@) ==> bad_upto(meshes, n).contains(
                mesh_message(meshes[i].link@, meshes[i].file@, meshes[i].sizes@),
            ),
        bad_upto(meshes, n).no_duplicates(),
        (forall|i: int| 0 <= i < n ==> mesh_usable((#[trigger] meshes[i]).sizes@)) ==> bad_upto(
            meshes,
            n,
        ).len() == 0,
    decreases n,
{
    if n > 0 {
        every_bad_mesh_is_named_once(meshes, n - 1);
        let before = bad_upto(meshes, n - 1);
        let m = meshes[n - 1];
        let message = mesh_message(m.link@, m.file@, m.sizes@);
        let after = bad_upto(meshes, n);
        assert forall|i: int| 0 <= i < n && !mesh_usable((#[trigger] meshes[i]).sizes@) implies after.contains(
            mesh_message(meshes[i].link@, meshes[i].file@, meshes[i].sizes@),
        ) by {
            let other = mesh_message(meshes[i].link@, meshes[i].file@, meshes[i].sizes@);
            if i < n - 1 {
                let k = choose|k: int| 0 <= k < before.len() && before[k] == other;
                assert(after[k] == other);
            } else if !before.contains(message) {
                assert(after[before.len() as int] == other);
            }
        }
    }
}

/// Laying a gait's own parameters over it changes nothing, as far as they lie
/// in their ranges.
pub proof fn the_base_overrides_change_nothing(base: GaitConfig, ranges: TuneRanges)
    requires
        ranges.ordered(),
        as_tune(base).clamped_spec(ranges) == as_tune(base),
    ensures
        tuned_spec(base, as_tune(base), ranges) == base,
        tuned_spec(base, GaitTune::empty_spec(), ranges) == base,
{
}

/// A named controller runs every footfall pattern; the older flag only matters
/// where none is named.
pub proof fn a_named_controller_wins(select: GaitSelect, a: GaitTuning, b: GaitTuning)
    requires
        a.controller == b.controller,
        !(a.controller is Auto),
    ensures
        mode_spec(select, a) == mode_spec(select, b),
{
}

/// A named controller runs as itself. Left alone, a crawl runs on the
/// straight-line planner where the flag says so, and everything else on the usual
/// one.
pub proof fn a_controller_runs_as_named(select: GaitSelect, t: GaitTuning)
    ensures
        t.controller is Champ ==> mode_spec(select, t) == GaitMode::Champ,
        t.controller is LinearCrawl ==> mode_spec(select, t) == GaitMode::LinearCrawl,
        t.controller is Mpc ==> mode_spec(select, t) == GaitMode::Mpc,
        t.controller is Centroidal ==> mode_spec(select, t) == GaitMode::CentroidalSrbd,
        t.controller is Auto && select is Crawl && t.crawl_use_linear ==> mode_spec(select, t)
            == GaitMode::LinearCrawl,
        t.controller is Auto && !(select is Crawl && t.crawl_use_linear) ==> mode_spec(select, t)
            == GaitMode::Champ,
{
}

/// The profile's own values go before the gait library's: the gait's own cycle
/// time, the swing height, the step length. The duty factor is the library's.
pub proof fn the_profile_goes_before_the_preset(t: GaitTuning, select: GaitSelect, preset: GaitConfig)
    ensures
        ({
            let c = base_spec(t, select, preset);
            let own = |g: GaitSelect, v: Option<Scalar>|
                select == g ==> {
                    &&& v matches Some(x) ==> c.cycle_period_s == x
                    &&& v is None ==> c.cycle_period_s == preset.cycle_period_s
                };
            &&& own(GaitSelect::Crawl, t.crawl_cycle_s)
            &&& own(GaitSelect::Walk, t.walk_cycle_s)
            &&& own(GaitSelect::Trot, t.trot_cycle_s)
            &&& c.swing_height_m == t.swing_height_m
            &&& t.step_length_m matches Some(x) ==> c.max_step_length_m == x
            &&& t.step_length_m is None ==> c.max_step_length_m == preset.max_step_length_m
            &&& c.duty_factor == preset.duty_factor
        }),
{
}

/// An override takes the place of its own parameter, held to its range; a
/// parameter without one stays.
#[verifier::spinoff_prover]
pub proof fn an_override_replaces_its_own_parameter(base: GaitConfig, t: GaitTune, r: TuneRanges)
    requires
        r.ordered(),
    ensures
        ({
            let c = tuned_spec(base, t, r);
            let laid = |v: Option<Scalar>, range: (Scalar, Scalar), was: Scalar, now: Scalar|
                {
                    &&& v is None ==> now == was
                    &&& v is Some && range.0.le_num(v->0) && v->0.le_num(range.1) ==> now == v->0
                    &&& v is Some && v->0.lt_num(range.0) ==> now == range.0
                    &&& v is Some && range.1.lt_num(v->0) ==> now == range.1
                };
            &&& laid(t.cycle_period_s, r.cycle_s, base.cycle_period_s, c.cycle_period_s)
            &&& laid(t.swing_height_m, r.swing_m, base.swing_height_m, c.swing_height_m)
            &&& laid(t.step_length_m, r.step_m, base.max_step_length_m, c.max_step_length_m)
            &&& laid(t.duty_factor, r.duty, base.duty_factor, c.duty_factor)
        }),
{
}

/// A gait's parameters as overrides are those parameters, each of them.
pub proof fn a_gait_is_its_own_overrides(c: GaitConfig)
    ensures
        as_tune(c).cycle_period_s == Some(c.cycle_period_s),
        as_tune(c).swing_height_m == Some(c.swing_height_m),
        as_tune(c).step_length_m == Some(c.max_step_length_m),
        as_tune(c).duty_factor == Some(c.duty_factor),
{
}

/// A pose gives a joint the last angle that it names for it, and leaves joints
/// alone that it does not name.
pub proof fn a_pose_gives_the_last_angle_it_names(
    angles: Seq<PoseAngle>,
    n: int,
    i: int,
    base: Scalar,
    k: int,
)
    requires
        0 <= n <= angles.len(),
    ensures
        0 <= k < n && angles[k].joint == i && (forall|m: int| k < m < n ==> (#[trigger] angles[m]).joint != i)
            ==> angle_of(angles, n, i, base) == angles[k].angle,
        (forall|m: int| 0 <= m < n ==> (#[trigger] angles[m]).joint != i) ==> angle_of(angles, n, i, base)
            == base,
    decreases n,
{
    if n > 0 {
        a_pose_gives_the_last_angle_it_names(angles, n - 1, i, base, k);
    }
}

/// A calibrated zero angle is the motor's own; without a bus or without a motor it
/// is the model's.
pub proof fn a_zero_angle_is_its_motors_own(motors: Vec<Scalar>, k: int, home: Scalar)
    requires
        0 <= k,
    ensures
        zero_angle(None, k, home) == home,
        k < motors@.len() ==> zero_angle(Some(motors), k, home) == motors@[k],
        k >= motors@.len() ==> zero_angle(Some(motors), k, home) == home,
{
}

/// A range is declared by two different ends, a speed and a torque by being
/// positive.
pub proof fn what_counts_as_declared(j: JointSpec)
    requires
        !j.lower.nan(),
        !j.upper.nan(),
    ensures
        with_range()(j) <==> j.lower.lt_num(j.upper) || j.upper.lt_num(j.lower),
        with_velocity()(j) <==> Scalar::zero_spec().lt_num(j.velocity),
        with_effort()(j) <==> Scalar::zero_spec().lt_num(j.effort),
{
}

/// A mesh cannot be used exactly when none of its files has content, and the
/// complaint tells an empty file from a missing one.
pub proof fn a_mesh_needs_a_file_with_content(link: Seq<char>, file: Seq<char>, sizes: Seq<u64>)
    ensures
        !mesh_usable(sizes) <==> forall|i: int| 0 <= i < sizes.len() ==> #[trigger] sizes[i] == 0,
        sizes.len() == 0 ==> !mesh_usable(sizes) && mesh_message(link, file, sizes) == link + " の "@ + file
            + " が"@ + "見つかりません"@,
        sizes.len() > 0 ==> mesh_message(link, file, sizes) == link + " の "@ + file + " が"@ + "空です"@,
{
}

/// A pose puts each joint that it names at the last angle it gives, from the
/// first joint to the arm, and leaves the others as they were.
pub proof fn a_pose_moves_the_joints_it_names(
    angles: Seq<PoseAngle>,
    base: JointVec,
    q: JointVec,
    i: int,
    at: int,
)
    requires
        resolves(angles, base, q),
        0 <= i < 13,
    ensures
        (forall|j: int| 0 <= j < angles.len() ==> (#[trigger] angles[j]).joint != i) ==> q.joint(i)
            == base.joint(i),
        0 <= at < angles.len() && angles[at].joint == i && (forall|j: int|
            at < j < angles.len() ==> (#[trigger] angles[j]).joint != i) ==> q.joint(i)
            == angles[at].angle,
{
    assert(q.joint(i) == angle_of(angles, angles.len() as int, i, base.joint(i)));
    if forall|j: int| 0 <= j < angles.len() ==> (#[trigger] angles[j]).joint != i {
        lemma_angle_of(angles, angles.len() as int, i, base.joint(i), -1);
    }
    if 0 <= at < angles.len() && angles[at].joint == i && (forall|j: int|
        at < j < angles.len() ==> (#[trigger] angles[j]).joint != i) {
        lemma_angle_of(angles, angles.len() as int, i, base.joint(i), at);
    }
}

proof fn lemma_angle_of(angles: Seq<PoseAngle>, n: int, i: int, base: Scalar, at: int)
    requires
        -1 <= at < n <= angles.len(),
        at >= 0 ==> angles[at].joint == i,
        forall|j: int| at < j < n ==> (#[trigger] angles[j]).joint != i,
    ensures
        at >= 0 ==> angle_of(angles, n, i, base) == angles[at].angle,
        at < 0 ==> angle_of(angles, n, i, base) == base,
    decreases n,
{
    if n > 0 && at < n - 1 {
        assert(angles[n - 1].joint != i);
        lemma_angle_of(angles, n - 1, i, base, at);
    }
}

/// Calibration puts each joint that has a motor at that motor's zero angle. A
/// joint without one, and the arm, stay as in the model's home.
pub proof fn calibration_moves_the_joints_with_motors(
    home: JointVec,
    legs: Seq<Option<Vec<Scalar>>>,
    q: JointVec,
    leg: int,
    k: int,
)
    requires
        calibrated(home, legs, q),
        0 <= leg < 4,
        0 <= k < 3,
    ensures
        q.arm == home.arm,
        legs[leg] is None ==> q.at(leg, k) == home.at(leg, k),
        legs[leg] matches Some(v) ==> (k < v@.len() ==> q.at(leg, k) == v@[k]) && (k >= v@.len() ==> q.at(
            leg,
            k,
        ) == home.at(leg, k)),
{
    assert(q.at(leg, k) == zero_angle(legs[leg], k, home.at(leg, k)));
}

/// Without a name and without a serial bus a simulation starts from the model's
/// home; with a bus it starts from the calibration.
pub proof fn a_simulation_without_a_bus_starts_at_home(
    home: JointVec,
    legs: Vec<Option<Vec<Scalar>>>,
    q: JointVec,
)
    ensures
        unnamed_rest(home, None, home),
        unnamed_rest(home, None, q) ==> q == home,
        unnamed_rest(home, Some(&legs), q) ==> q.arm == home.arm,
        unnamed_rest(home, Some(&legs), q) && legs@[0] is None ==> q.at(0, 0) == home.at(0, 0),
{
    if unnamed_rest(home, Some(&legs), q) && legs@[0] is None {
        calibration_moves_the_joints_with_motors(home, legs@, q, 0, 0);
    }
}

/// The first pose of a name is the one that counts, and a name that no pose has
/// finds none.
pub proof fn the_first_pose_of_a_name_counts(poses: Seq<Pose>, name: Seq<char>, i: int, k: int)
    requires
        0 <= i < poses.len(),
        poses[i].name@ == name,
    ensures
        !no_pose_named(poses, name),
        first_named(poses, name, k) ==> 0 <= k <= i && poses[k].name@ == name,
        (forall|j: int| 0 <= j < i ==> (#[trigger] poses[j]).name@ != name) ==> first_named(poses, name, i),
{
}

/// The last declaration of a joint with the property counts. Another joint's, or
/// one without the property, does not.
pub proof fn the_last_declaration_counts(
    joints: Seq<JointSpec>,
    name: Seq<char>,
    p: spec_fn(JointSpec) -> bool,
    i: int,
    k: int,
)
    requires
        0 <= i < joints.len(),
        joints[i].name@ == name,
        p(joints[i]),
    ensures
        !none_named(joints, name, p),
        last_named(joints, name, p, k) ==> i <= k < joints.len() && joints[k].name@ == name && p(joints[k]),
        (forall|j: int| i < j < joints.len() ==> (#[trigger] joints[j]).name@ != name) ==> last_named(
            joints,
            name,
            p,
            i,
        ),
{
}

/// Nothing is declared where no joint of that name has the property, whatever
/// other joints have.
pub proof fn what_is_not_declared_is_not_found(
    joints: Seq<JointSpec>,
    name: Seq<char>,
    p: spec_fn(JointSpec) -> bool,
)
    ensures
        (forall|k: int| 0 <= k < joints.len() ==> (#[trigger] joints[k]).name@ != name) ==> none_named(
            joints,
            name,
            p,
        ),
        (forall|k: int| 0 <= k < joints.len() ==> !p(#[trigger] joints[k])) ==> none_named(joints, name, p),
{
}

} // verus!
