//! A robot inside a physics simulation.
//!
//! The simulation has no limp actuators: an axis that is to be limp holds the
//! angle that it has.

use vstd::prelude::*;
use vstd::string::*;

use crate::axis;
use crate::axis::{id_of_index, AxisTable};
use crate::command::{AxisCommand, Command, ControlMode};
use crate::observation::{AxisHealth, AxisState, Contact, Imu, Observation};
use crate::plant::PlantCaps;
use crate::scalar::Scalar;
use crate::text;
use crate::text::{chars_of, comes_before, quoted, same};
use crate::time::{Span, Time};

verus! {

/// How the simulation is set up.
pub struct SimOptions {
    pub misa_path: String,
    /// Physics time per control period.
    pub control_period_s: Scalar,
    pub actuator_kp: Scalar,
    pub actuator_kv: Scalar,
    /// Factor on the model's torque limits.
    pub torque_scale: Scalar,
    /// The only gain of velocity control; not the damping of position control.
    pub velocity_kv: Scalar,
    pub base_height_m: Scalar,
    /// Joint angles to begin with.
    pub home: Vec<(String, Scalar)>,
    pub friction: Option<[Scalar; 3]>,
    pub timestep_s: Option<Scalar>,
    pub impratio: Option<Scalar>,
    pub cone: Option<String>,
    /// Vertical force from which a foot counts as on the ground.
    pub contact_threshold_n: Scalar,
    pub feet: Vec<String>,
    pub root_link: String,
}

impl Default for SimOptions {
    fn default() -> (r: SimOptions)
        ensures
            r.misa_path@.len() == 0,
            r.control_period_s.bits == 0x3f74_7ae1_47ae_147b,
            r.actuator_kp.bits == 0x404e_0000_0000_0000,
            r.actuator_kv.bits == 0x3ff0_0000_0000_0000,
            r.torque_scale.bits == 0x3ff0_0000_0000_0000,
            r.velocity_kv.bits == 0x4034_0000_0000_0000,
            r.base_height_m.bits == 0x3fd3_3333_3333_3333,
            r.home@.len() == 0,
            r.friction is None,
            r.timestep_s is None,
            r.impratio is None,
            r.cone is None,
            r.contact_threshold_n.bits == 0x4014_0000_0000_0000,
            text::words(r.feet@) == seq!["FL_foot"@, "FR_foot"@, "RL_foot"@, "RR_foot"@],
            r.root_link@ == "trunk"@,
    {
        let mut feet: Vec<String> = Vec::new();
        feet.push("FL_foot".to_owned());
        feet.push("FR_foot".to_owned());
        feet.push("RL_foot".to_owned());
        feet.push("RR_foot".to_owned());
        assert(text::words(feet@) =~= seq!["FL_foot"@, "FR_foot"@, "RL_foot"@, "RR_foot"@]);
        SimOptions {
            misa_path: String::new(),
            control_period_s: Scalar::from_bits(0x3f74_7ae1_47ae_147b),
            actuator_kp: Scalar::from_bits(0x404e_0000_0000_0000),
            actuator_kv: Scalar::from_bits(0x3ff0_0000_0000_0000),
            torque_scale: Scalar::from_bits(0x3ff0_0000_0000_0000),
            velocity_kv: Scalar::from_bits(0x4034_0000_0000_0000),
            base_height_m: Scalar::from_bits(0x3fd3_3333_3333_3333),
            home: Vec::new(),
            friction: None,
            timestep_s: None,
            impratio: None,
            cone: None,
            contact_threshold_n: Scalar::from_bits(0x4014_0000_0000_0000),
            feet,
            root_link: "trunk".to_owned(),
        }
    }
}

/// Shape of the friction cone.
#[derive(Clone, Copy, Debug, PartialEq, Eq, Structural)]
pub enum Cone {
    Elliptic,
    Pyramidal,
}

/// The friction cone by its name.
pub fn cone_of(name: Option<&str>) -> (r: Result<Option<Cone>, String>)
    ensures
        match name {
            None => r == Ok::<Option<Cone>, String>(None),
            Some(s) => {
                &&& s@ == "elliptic"@ ==> r == Ok::<Option<Cone>, String>(Some(Cone::Elliptic))
                &&& s@ == "pyramidal"@ ==> r == Ok::<Option<Cone>, String>(Some(Cone::Pyramidal))
                &&& s@ != "elliptic"@ && s@ != "pyramidal"@ ==> r is Err && r->Err_0@
                    == "未知の cone "@ + text::debug_quoted(s@) + "（pyramidal|elliptic）"@
            },
        },
{
    match name {
        None => Ok(None),
        Some(s) => {
            proof {
                reveal_strlit("elliptic");
                reveal_strlit("pyramidal");
                assert("elliptic"@.len() != "pyramidal"@.len());
            }
            if same(s, "elliptic") {
                return Ok(Some(Cone::Elliptic));
            }
            if same(s, "pyramidal") {
                return Ok(Some(Cone::Pyramidal));
            }
            let mut out: String = "未知の cone ".to_owned();
            let q = quoted(s);
            out.append(q.as_str());
            out.append("（pyramidal|elliptic）");
            Err(out)
        },
    }
}

/// A joint of the model with its number.
pub struct NamedJoint {
    pub name: String,
    pub number: usize,
}

/// No two joints have the same name.
pub open spec fn unique_names(joints: Seq<NamedJoint>) -> bool {
    forall|a: int, b: int|
        0 <= a < b < joints.len() ==> (#[trigger] joints[a]).name@ != (#[trigger] joints[b]).name@
}

/// The model has a joint `name`.
pub open spec fn has_joint(joints: Seq<NamedJoint>, name: Seq<char>) -> bool {
    exists|i: int| 0 <= i < joints.len() && (#[trigger] joints[i]).name@ == name
}

/// `number` is that of the joint `name`.
pub open spec fn number_of(joints: Seq<NamedJoint>, name: Seq<char>, number: usize) -> bool {
    exists|i: int|
        0 <= i < joints.len() && (#[trigger] joints[i]).name@ == name && joints[i].number == number
}

fn find_joint(joints: &Vec<NamedJoint>, name: &str) -> (r: Option<usize>)
    ensures
        match r {
            Some(n) => number_of(joints@, name@, n) && has_joint(joints@, name@),
            None => !has_joint(joints@, name@),
        },
{
    let mut i: usize = 0;
    while i < joints.len()
        invariant
            i <= joints@.len(),
            forall|k: int| 0 <= k < i ==> (#[trigger] joints@[k]).name@ != name@,
        decreases joints@.len() - i,
    {
        if same(joints[i].name.as_str(), name) {
            assert(joints@[i as int].name@ == name@);
            return Some(joints[i].number);
        }
        i += 1;
    }
    None
}

/// The joint number of each axis. A robot whose model lacks one is refused.
pub fn axis_joints(axes: &AxisTable, joints: &Vec<NamedJoint>) -> (r: Result<Vec<usize>, String>)
    ensures
        r is Ok <==> forall|i: int|
            0 <= i < axes@.len() ==> has_joint(joints@, #[trigger] axes@[i].name@),
        r matches Ok(v) ==> v@.len() == axes@.len() && forall|i: int|
            0 <= i < axes@.len() ==> number_of(joints@, axes@[i].name@, #[trigger] v@[i]),
        r matches Err(e) ==> exists|i: int|
            {
                &&& 0 <= i < axes@.len()
                &&& !has_joint(joints@, #[trigger] axes@[i].name@)
                &&& forall|k: int| 0 <= k < i ==> has_joint(joints@, #[trigger] axes@[k].name@)
                &&& e@ == "関節 "@ + axes@[i].name@ + " がモデルにありません"@
            },
{
    let n: usize = axes.len();
    let table = axes.axes();
    let mut out: Vec<usize> = Vec::new();
    let mut i: usize = 0;
    while i < n
        invariant
            i <= n == axes@.len(),
            table@ == axes@,
            out@.len() == i,
            forall|k: int| 0 <= k < i ==> has_joint(joints@, #[trigger] axes@[k].name@),
            forall|k: int| 0 <= k < i ==> number_of(joints@, axes@[k].name@, #[trigger] out@[k]),
        decreases n - i,
    {
        match find_joint(joints, table[i].name.as_str()) {
            Some(number) => {
                out.push(number);
            },
            None => {
                let mut e: String = "関節 ".to_owned();
                e.append(table[i].name.as_str());
                e.append(" がモデルにありません");
                assert(!has_joint(joints@, axes@[i as int].name@));
                return Err(e);
            },
        }
        i += 1;
    }
    Ok(out)
}

/// The angles after the first `n` entries of the starting pose; later entries
/// win.
pub open spec fn homed(
    positions: Seq<Scalar>,
    numbers: Seq<usize>,
    home: Seq<(String, Scalar)>,
    n: int,
) -> Seq<Scalar>
    decreases n,
{
    if n <= 0 {
        positions
    } else {
        homed(positions, numbers, home, n - 1).update(numbers[n - 1] as int, home[n - 1].1)
    }
}

/// The numbers of the joints of a starting pose. A pose with a joint that the
/// model lacks is refused.
pub fn home_joints(home: &Vec<(String, Scalar)>, joints: &Vec<NamedJoint>) -> (r: Result<
    Vec<usize>,
    String,
>)
    ensures
        r is Ok <==> forall|i: int|
            0 <= i < home@.len() ==> has_joint(joints@, #[trigger] home@[i].0@),
        r matches Ok(v) ==> v@.len() == home@.len() && forall|i: int|
            0 <= i < home@.len() ==> number_of(joints@, home@[i].0@, #[trigger] v@[i]),
        r matches Err(e) ==> exists|i: int|
            {
                &&& 0 <= i < home@.len()
                &&& !has_joint(joints@, #[trigger] home@[i].0@)
                &&& forall|k: int| 0 <= k < i ==> has_joint(joints@, #[trigger] home@[k].0@)
                &&& e@ == "初期姿勢の関節 "@ + home@[i].0@ + " がモデルにありません"@
            },
{
    let mut out: Vec<usize> = Vec::new();
    let mut i: usize = 0;
    while i < home.len()
        invariant
            i <= home@.len(),
            out@.len() == i,
            forall|k: int| 0 <= k < i ==> has_joint(joints@, #[trigger] home@[k].0@),
            forall|k: int| 0 <= k < i ==> number_of(joints@, home@[k].0@, #[trigger] out@[k]),
        decreases home@.len() - i,
    {
        match find_joint(joints, home[i].0.as_str()) {
            Some(number) => {
                out.push(number);
            },
            None => {
                let mut e: String = "初期姿勢の関節 ".to_owned();
                e.append(home[i].0.as_str());
                e.append(" がモデルにありません");
                assert(!has_joint(joints@, home@[i as int].0@));
                return Err(e);
            },
        }
        i += 1;
    }
    Ok(out)
}

/// Puts the joints into the starting pose.
pub fn set_home(positions: &mut Vec<Scalar>, numbers: &Vec<usize>, home: &Vec<(String, Scalar)>)
    requires
        numbers@.len() == home@.len(),
        forall|i: int| 0 <= i < numbers@.len() ==> #[trigger] numbers@[i] < old(positions)@.len(),
    ensures
        final(positions)@.len() == old(positions)@.len(),
        final(positions)@ == homed(old(positions)@, numbers@, home@, home@.len() as int),
{
    let mut i: usize = 0;
    while i < home.len()
        invariant
            i <= home@.len() == numbers@.len(),
            positions@.len() == old(positions)@.len(),
            forall|k: int| 0 <= k < numbers@.len() ==> #[trigger] numbers@[k] < positions@.len(),
            positions@ == homed(old(positions)@, numbers@, home@, i as int),
        decreases home@.len() - i,
    {
        positions[numbers[i]] = home[i].1;
        i += 1;
    }
}

/// What the simulation offers. Contacts are known, unlike on a real robot.
pub fn simulated_caps(n: usize) -> (r: PlantCaps)
    ensures
        r.modes@ == seq![ControlMode::Position, ControlMode::Velocity, ControlMode::Torque],
        r.has_imu,
        r.has_contacts,
        r.driven@ == Seq::new(n as nat, |i: int| true),
{
    let mut modes: Vec<ControlMode> = Vec::new();
    modes.push(ControlMode::Position);
    modes.push(ControlMode::Velocity);
    modes.push(ControlMode::Torque);
    let mut driven: Vec<bool> = Vec::new();
    let mut i: usize = 0;
    while i < n
        invariant
            i <= n,
            driven@ == Seq::new(i as nat, |k: int| true),
        decreases n - i,
    {
        driven.push(true);
        i += 1;
    }
    PlantCaps { modes, has_imu: true, has_contacts: true, driven }
}

/// What an actuator follows.
#[derive(Clone, Copy, Debug, PartialEq, Eq, Structural)]
pub enum ActuatorMode {
    Position,
    Velocity,
    Torque,
}

/// An actuator's settings and targets.
#[derive(Clone, Copy, Debug, PartialEq, Eq, Structural)]
pub struct Actuator {
    pub mode: ActuatorMode,
    pub kp: Scalar,
    pub kv: Scalar,
    pub position_target: Scalar,
    pub position_target_velocity: Scalar,
    pub torque_feedforward: Scalar,
    pub velocity_target: Scalar,
    pub torque_target: Scalar,
    /// The most torque that it gives.
    pub effort: Scalar,
}

/// A movable joint's actuator before the first period: position control, and
/// with a positive scale its torque limit is the scaled one. A fixed joint's
/// stays as it is.
pub fn set_up_actuator(a: &mut Actuator, fixed: bool, opts: &SimOptions, scaled_effort: Scalar)
    ensures
        *final(a) == (if fixed {
            *old(a)
        } else {
            Actuator {
                mode: ActuatorMode::Position,
                kp: opts.actuator_kp,
                kv: opts.actuator_kv,
                effort: if opts.torque_scale.positive() {
                    scaled_effort
                } else {
                    old(a).effort
                },
                ..*old(a)
            }
        }),
{
    if !fixed {
        a.mode = ActuatorMode::Position;
        a.kp = opts.actuator_kp;
        a.kv = opts.actuator_kv;
        if opts.torque_scale.is_positive() {
            a.effort = scaled_effort;
        }
    }
}

/// The gains to use where the command brings none.
#[derive(Clone, Copy, Debug, PartialEq, Eq, Structural)]
pub struct SimGains {
    pub position_kp: Scalar,
    pub position_kv: Scalar,
    pub velocity_kv: Scalar,
}

/// An actuator after a command. `q` is the joint's angle.
pub open spec fn driven_by(a: Actuator, c: AxisCommand, q: Scalar, gains: SimGains) -> Actuator {
    match c.mode {
        ControlMode::Idle => Actuator {
            mode: ActuatorMode::Position,
            position_target: q,
            position_target_velocity: Scalar::zero_spec(),
            torque_feedforward: Scalar::zero_spec(),
            ..a
        },
        ControlMode::Torque => Actuator {
            mode: ActuatorMode::Torque,
            torque_target: c.torque_ff_nm,
            ..a
        },
        ControlMode::Velocity => Actuator {
            mode: ActuatorMode::Velocity,
            kv: gains.velocity_kv,
            velocity_target: c.velocity_rad_s,
            ..a
        },
        ControlMode::Position | ControlMode::Impedance => Actuator {
            mode: ActuatorMode::Position,
            kp: if c.kp_nm_per_rad.positive() { c.kp_nm_per_rad } else { gains.position_kp },
            kv: if c.kp_nm_per_rad.positive() { c.kd_nm_s_per_rad } else { gains.position_kv },
            position_target: c.position_rad,
            torque_feedforward: c.torque_ff_nm,
            ..a
        },
    }
}

/// Applies a command to an actuator. Gains that the command brings are used;
/// without them the simulation's own are.
pub fn drive(a: &mut Actuator, c: &AxisCommand, q: Scalar, gains: &SimGains)
    ensures
        *final(a) == driven_by(*old(a), *c, q, *gains),
{
    match c.mode {
        ControlMode::Idle => {
            a.mode = ActuatorMode::Position;
            a.position_target = q;
            a.position_target_velocity = Scalar::zero();
            a.torque_feedforward = Scalar::zero();
        },
        ControlMode::Torque => {
            a.mode = ActuatorMode::Torque;
            a.torque_target = c.torque_ff_nm;
        },
        ControlMode::Velocity => {
            a.mode = ActuatorMode::Velocity;
            a.kv = gains.velocity_kv;
            a.velocity_target = c.velocity_rad_s;
        },
        ControlMode::Position | ControlMode::Impedance => {
            a.mode = ActuatorMode::Position;
            if c.kp_nm_per_rad.is_positive() {
                a.kp = c.kp_nm_per_rad;
                a.kv = c.kd_nm_s_per_rad;
            } else {
                a.kp = gains.position_kp;
                a.kv = gains.position_kv;
            }
            a.position_target = c.position_rad;
            a.torque_feedforward = c.torque_ff_nm;
        },
    }
}

/// The actuators after the commands to the first `n` axes. Axes that the
/// command leaves out keep theirs.
pub open spec fn actuated(
    actuators: Seq<Actuator>,
    joint_idx: Seq<usize>,
    positions: Seq<Scalar>,
    cmd: Seq<AxisCommand>,
    gains: SimGains,
    n: int,
) -> Seq<Actuator>
    decreases n,
{
    if n <= 0 {
        actuators
    } else {
        let before = actuated(actuators, joint_idx, positions, cmd, gains, n - 1);
        let i = axis::id_at(n - 1).0 as int;
        let j = joint_idx[n - 1] as int;
        if i < cmd.len() {
            before.update(j, driven_by(before[j], cmd[i], positions[j], gains))
        } else {
            before
        }
    }
}

/// Applies a command to all actuators.
pub fn drive_all(
    actuators: &mut Vec<Actuator>,
    joint_idx: &Vec<usize>,
    positions: &Vec<Scalar>,
    cmd: &Command,
    gains: &SimGains,
)
    requires
        positions@.len() == old(actuators)@.len(),
        forall|i: int|
            0 <= i < joint_idx@.len() ==> #[trigger] joint_idx@[i] < old(actuators)@.len(),
    ensures
        final(actuators)@.len() == old(actuators)@.len(),
        final(actuators)@ == actuated(
            old(actuators)@,
            joint_idx@,
            positions@,
            cmd@,
            *gains,
            joint_idx@.len() as int,
        ),
{
    let mut i: usize = 0;
    while i < joint_idx.len()
        invariant
            i <= joint_idx@.len(),
            actuators@.len() == old(actuators)@.len() == positions@.len(),
            forall|k: int| 0 <= k < joint_idx@.len() ==> #[trigger] joint_idx@[k] < actuators@.len(),
            actuators@ == actuated(
                old(actuators)@,
                joint_idx@,
                positions@,
                cmd@,
                *gains,
                i as int,
            ),
        decreases joint_idx@.len() - i,
    {
        let j: usize = joint_idx[i];
        match cmd.get(id_of_index(i)) {
            Some(c) => {
                let mut a: Actuator = actuators[j];
                drive(&mut a, c, positions[j], gains);
                actuators[j] = a;
            },
            None => {},
        }
        i += 1;
    }
}

/// A frame of the simulation, indexed by joint number.
pub struct PhysicsFrame {
    pub time: Time,
    pub q: Vec<Scalar>,
    pub qvel: Vec<Scalar>,
    pub tau: Vec<Scalar>,
}

/// Entry `j`, or zero where there is none.
pub open spec fn or_zero(v: Seq<Scalar>, j: usize) -> Scalar {
    if j < v.len() {
        v[j as int]
    } else {
        Scalar::zero_spec()
    }
}

/// An axis after the reading of joint `j`. Readings of a simulation are never
/// old and never faulted.
pub open spec fn axis_after(
    before: AxisState,
    q: Seq<Scalar>,
    qvel: Seq<Scalar>,
    tau: Seq<Scalar>,
    j: usize,
) -> AxisState {
    AxisState {
        position_rad: or_zero(q, j),
        velocity_rad_s: or_zero(qvel, j),
        torque_nm: if j < tau.len() { Some(tau[j as int]) } else { None },
        health: AxisHealth { valid: true, age: Span::zero_spec(), fault_raw: 0, ..before.health },
    }
}

/// The axes after the readings of the first `n` of them.
pub open spec fn observed(
    axes: Seq<AxisState>,
    joint_idx: Seq<usize>,
    q: Seq<Scalar>,
    qvel: Seq<Scalar>,
    tau: Seq<Scalar>,
    n: int,
) -> Seq<AxisState>
    decreases n,
{
    if n <= 0 {
        axes
    } else {
        let before = observed(axes, joint_idx, q, qvel, tau, n - 1);
        let i = axis::id_at(n - 1).0 as int;
        if i < before.len() {
            before.update(i, axis_after(before[i], q, qvel, tau, joint_idx[n - 1]))
        } else {
            before
        }
    }
}

fn entry(v: &Vec<Scalar>, j: usize) -> (r: Scalar)
    ensures
        r == or_zero(v@, j),
{
    if j < v.len() {
        v[j]
    } else {
        Scalar::zero()
    }
}

/// Puts a frame and the inertial unit's sample into the observation.
pub fn absorb(obs: &mut Observation, frame: &PhysicsFrame, joint_idx: &Vec<usize>, imu: Imu)
    ensures
        final(obs).time == frame.time,
        final(obs).imu == Some(imu),
        final(obs).contacts == old(obs).contacts,
        final(obs).axes@ == observed(
            old(obs).axes@,
            joint_idx@,
            frame.q@,
            frame.qvel@,
            frame.tau@,
            joint_idx@.len() as int,
        ),
{
    obs.time = frame.time;
    let mut i: usize = 0;
    while i < joint_idx.len()
        invariant
            i <= joint_idx@.len(),
            obs.time == frame.time,
            obs.contacts == old(obs).contacts,
            obs.axes@ == observed(
                old(obs).axes@,
                joint_idx@,
                frame.q@,
                frame.qvel@,
                frame.tau@,
                i as int,
            ),
        decreases joint_idx@.len() - i,
    {
        let at: usize = id_of_index(i).index();
        let j: usize = joint_idx[i];
        if at < obs.axes.len() {
            let before: AxisState = obs.axes[at];
            obs.axes[at] = AxisState {
                position_rad: entry(&frame.q, j),
                velocity_rad_s: entry(&frame.qvel, j),
                torque_nm: if j < frame.tau.len() {
                    Some(frame.tau[j])
                } else {
                    None
                },
                health: AxisHealth {
                    valid: true,
                    age: Span::zero(),
                    fault_raw: 0,
                    ..before.health
                },
            };
        }
        i += 1;
    }
    obs.imu = Some(imu);
}

/// The number of a character, with capital letters of the alphabet counted as
/// small ones.
pub open spec fn folded(c: char) -> int {
    if 'A' <= c <= 'Z' {
        c as int + 32
    } else {
        c as int
    }
}

/// Equal up to the case of the letters a to z.
pub open spec fn same_but_case(a: Seq<char>, b: Seq<char>) -> bool {
    a.len() == b.len() && forall|i: int|
        0 <= i < a.len() ==> folded(#[trigger] a[i]) == folded(b[i])
}

fn fold(c: char) -> (r: u32)
    ensures
        r == folded(c),
{
    if 'A' <= c && c <= 'Z' {
        c as u32 + 32
    } else {
        c as u32
    }
}

pub fn equal_ignoring_case(a: &str, b: &str) -> (r: bool)
    ensures
        r == same_but_case(a@, b@),
{
    let x: Vec<char> = chars_of(a);
    let y: Vec<char> = chars_of(b);
    if x.len() != y.len() {
        return false;
    }
    let mut i: usize = 0;
    while i < x.len()
        invariant
            i <= x@.len() == y@.len(),
            x@ == a@,
            y@ == b@,
            forall|k: int| 0 <= k < i ==> folded(#[trigger] a@[k]) == folded(b@[k]),
        decreases x@.len() - i,
    {
        if fold(x[i]) != fold(y[i]) {
            assert(folded(a@[i as int]) != folded(b@[i as int]));
            return false;
        }
        i += 1;
    }
    true
}

/// Two bodies that touch. The ground's name is empty.
pub struct Touch {
    pub body1: String,
    pub body2: String,
    /// Both belong to the robot.
    pub within_robot: bool,
}

/// A touch from outside that involves the body `foot`.
pub open spec fn touches(t: Touch, foot: Seq<char>) -> bool {
    !t.within_robot && (same_but_case(t.body1@, foot) || same_but_case(t.body2@, foot))
}

/// A foot that some touch involves.
pub open spec fn touched(all: Seq<Touch>, foot: Seq<char>) -> bool {
    exists|k: int| 0 <= k < all.len() && touches(#[trigger] all[k], foot)
}

fn is_touched(all: &Vec<Touch>, foot: &str) -> (r: bool)
    ensures
        r == touched(all@, foot@),
{
    let mut k: usize = 0;
    while k < all.len()
        invariant
            k <= all@.len(),
            forall|j: int| 0 <= j < k ==> !touches(#[trigger] all@[j], foot@),
        decreases all@.len() - k,
    {
        if !all[k].within_robot && (equal_ignoring_case(all[k].body1.as_str(), foot)
            || equal_ignoring_case(all[k].body2.as_str(), foot)) {
            assert(touches(all@[k as int], foot@));
            return true;
        }
        k += 1;
    }
    false
}

/// What tells which feet are on the ground.
pub enum ContactSource {
    /// The vertical force under each foot. A swinging foot that merely brushes
    /// the ground is not on it.
    Forces([Scalar; 4]),
    /// The touching bodies.
    Touches(Vec<Touch>),
}

/// Forces decide where there is a threshold and the robot has four feet.
pub fn contacts_go_by_force(threshold: Scalar, feet: usize) -> (r: bool)
    ensures
        r == (threshold.positive() && feet == 4),
{
    threshold.is_positive() && feet == 4
}

/// Whether foot `i` is on the ground.
pub open spec fn on_ground(
    source: ContactSource,
    feet: Seq<String>,
    threshold: Scalar,
    i: int,
) -> bool {
    match source {
        ContactSource::Forces(f) => i < 4 && threshold.lt_num(f[i]),
        ContactSource::Touches(all) => i < feet.len() && touched(all@, feet[i]@),
    }
}

/// Which feet are on the ground. Every slot is known afterwards.
pub fn set_contacts(
    contacts: &mut Vec<Contact>,
    source: &ContactSource,
    feet: &Vec<String>,
    threshold: Scalar,
)
    ensures
        final(contacts)@.len() == old(contacts)@.len(),
        forall|i: int|
            0 <= i < old(contacts)@.len() ==> #[trigger] final(contacts)@[i] == Some(
                on_ground(*source, feet@, threshold, i),
            ),
{
    let mut i: usize = 0;
    while i < contacts.len()
        invariant
            i <= contacts@.len() == old(contacts)@.len(),
            forall|k: int|
                0 <= k < i ==> #[trigger] contacts@[k] == Some(
                    on_ground(*source, feet@, threshold, k),
                ),
        decreases contacts@.len() - i,
    {
        let hit: bool = match source {
            ContactSource::Forces(f) => i < 4 && threshold.less(f[i]),
            ContactSource::Touches(all) => i < feet.len() && is_touched(all, feet[i].as_str()),
        };
        contacts[i] = Some(hit);
        i += 1;
    }
}

/// The body that a touch with the ground is about.
pub open spec fn grounded_body(t: Touch) -> Seq<char> {
    if t.body1@.len() == 0 {
        t.body2@
    } else {
        t.body1@
    }
}

/// `name` is one of the feet, up to case.
pub open spec fn is_foot(feet: Seq<String>, name: Seq<char>) -> bool {
    exists|i: int| 0 <= i < feet.len() && same_but_case(#[trigger] feet[i]@, name)
}

/// A touch with the ground by something that is no foot.
pub open spec fn stray(t: Touch, feet: Seq<String>) -> bool {
    !t.within_robot && grounded_body(t).len() > 0 && !is_foot(feet, grounded_body(t))
}

/// Some touch is of `name`, which is no foot.
pub open spec fn strays(all: Seq<Touch>, feet: Seq<String>, n: int, name: Seq<char>) -> bool {
    exists|k: int| 0 <= k < n && stray(#[trigger] all[k], feet) && grounded_body(all[k]) == name
}

/// In lexicographic order, and each once.
pub open spec fn ascending(v: Seq<String>) -> bool {
    forall|i: int, j: int|
        0 <= i < j < v.len() ==> text::precedes((#[trigger] v[i])@, (#[trigger] v[j])@)
}

pub open spec fn listed(v: Seq<String>, name: Seq<char>) -> bool {
    exists|i: int| 0 <= i < v.len() && (#[trigger] v[i])@ == name
}

fn names_a_foot(feet: &Vec<String>, name: &str) -> (r: bool)
    ensures
        r == is_foot(feet@, name@),
{
    let mut i: usize = 0;
    while i < feet.len()
        invariant
            i <= feet@.len(),
            forall|k: int| 0 <= k < i ==> !same_but_case(#[trigger] feet@[k]@, name@),
        decreases feet@.len() - i,
    {
        if equal_ignoring_case(feet[i].as_str(), name) {
            assert(same_but_case(feet@[i as int]@, name@));
            return true;
        }
        i += 1;
    }
    false
}

/// Adds a name to a list in order, unless it is there.
fn enter(v: &mut Vec<String>, name: &str)
    requires
        ascending(old(v)@),
    ensures
        ascending(final(v)@),
        forall|s: Seq<char>|
            #[trigger] listed(final(v)@, s) <==> listed(old(v)@, s) || s == name@,
{
    let mut i: usize = 0;
    while i < v.len()
        invariant
            v@ == old(v)@,
            ascending(v@),
            i <= v@.len(),
            forall|k: int| 0 <= k < i ==> text::precedes((#[trigger] v@[k])@, name@),
        ensures
            i < v@.len() ==> v@[i as int]@ != name@ && !text::precedes(v@[i as int]@, name@),
        decreases v@.len() - i,
    {
        if same(v[i].as_str(), name) {
            assert(listed(v@, name@)) by {
                assert(v@[i as int]@ == name@);
            }
            return ;
        }
        if !comes_before(v[i].as_str(), name) {
            break;
        }
        i += 1;
    }
    let ghost before = v@;
    let owned: String = name.to_owned();
    v.insert(i, owned);
    proof {
        assert(v@ == before.insert(i as int, owned));
        if i < before.len() {
            text::order_is_total(before[i as int]@, name@);
        }
        assert(ascending(v@)) by {
            assert forall|a: int, b: int| 0 <= a < b < v@.len() implies text::precedes(
                (#[trigger] v@[a])@,
                (#[trigger] v@[b])@,
            ) by {
                if b < i {
                    assert(v@[a] == before[a] && v@[b] == before[b]);
                } else if b == i {
                    assert(v@[a] == before[a]);
                } else if a == i {
                    assert(v@[b] == before[b - 1]);
                    if b - 1 > i {
                        assert(text::precedes(before[i as int]@, before[b - 1]@));
                        text::order_is_transitive(name@, before[i as int]@, before[b - 1]@);
                    }
                } else if a < i {
                    assert(v@[a] == before[a]);
                    assert(v@[b] == before[b - 1]);
                } else {
                    assert(v@[a] == before[a - 1]);
                    assert(v@[b] == before[b - 1]);
                }
            }
        }
        assert forall|s: Seq<char>| #[trigger] listed(v@, s) <==> listed(before, s) || s
            == name@ by {
            if listed(before, s) {
                let k = choose|k: int| 0 <= k < before.len() && (#[trigger] before[k])@ == s;
                if k < i {
                    assert(v@[k]@ == s);
                } else {
                    assert(v@[k + 1]@ == s);
                }
            }
            if s == name@ {
                assert(v@[i as int]@ == s);
            }
            if listed(v@, s) {
                let k = choose|k: int| 0 <= k < v@.len() && (#[trigger] v@[k])@ == s;
                if k < i {
                    assert(before[k]@ == s);
                } else if k > i {
                    assert(before[k - 1]@ == s);
                }
            }
        }
    }
}

/// The links that touch the ground and are no feet, each once, in order. A robot
/// that rests on its wheels or its belly only looks as if it walked.
pub fn non_foot_ground_contacts(all: &Vec<Touch>, feet: &Vec<String>) -> (r: Vec<String>)
    ensures
        ascending(r@),
        forall|name: Seq<char>|
            #[trigger] listed(r@, name) <==> strays(all@, feet@, all@.len() as int, name),
{
    let mut out: Vec<String> = Vec::new();
    let mut k: usize = 0;
    while k < all.len()
        invariant
            k <= all@.len(),
            ascending(out@),
            forall|name: Seq<char>|
                #[trigger] listed(out@, name) <==> strays(all@, feet@, k as int, name),
        decreases all@.len() - k,
    {
        let t: &Touch = &all[k];
        let ghost before = out@;
        if !t.within_robot {
            let body: &str = if t.body1.as_str().unicode_len() == 0 {
                t.body2.as_str()
            } else {
                t.body1.as_str()
            };
            assert(body@ == grounded_body(*t));
            if body.unicode_len() > 0 && !names_a_foot(feet, body) {
                enter(&mut out, body);
            }
        }
        proof {
            assert forall|name: Seq<char>| #[trigger] listed(out@, name) <==> strays(
                all@,
                feet@,
                k + 1,
                name,
            ) by {
                assert(listed(before, name) <==> strays(all@, feet@, k as int, name));
                if strays(all@, feet@, k as int, name) {
                    let j = choose|j: int|
                        0 <= j < k && stray(#[trigger] all@[j], feet@) && grounded_body(all@[j])
                            == name;
                    assert(stray(all@[j], feet@));
                }
                if stray(all@[k as int], feet@) && grounded_body(all@[k as int]) == name {
                    assert(stray(all@[k as int], feet@));
                }
            }
        }
        k += 1;
    }
    out
}

/// In a model without repeated names a joint has one number.
pub proof fn a_joint_has_one_number(joints: Seq<NamedJoint>, name: Seq<char>, a: usize, b: usize)
    requires
        unique_names(joints),
        number_of(joints, name, a),
        number_of(joints, name, b),
    ensures
        a == b,
{
    let i = choose|i: int|
        0 <= i < joints.len() && (#[trigger] joints[i]).name@ == name && joints[i].number == a;
    let j = choose|j: int|
        0 <= j < joints.len() && (#[trigger] joints[j]).name@ == name && joints[j].number == b;
    if i < j {
        assert(joints[i].name@ != joints[j].name@);
    } else if j < i {
        assert(joints[j].name@ != joints[i].name@);
    }
}

/// A limp axis stays where it is: its target is its own angle.
pub proof fn a_limp_axis_holds_its_angle(a: Actuator, c: AxisCommand, q: Scalar, gains: SimGains)
    requires
        c.mode is Idle,
    ensures
        driven_by(a, c, q, gains).mode is Position,
        driven_by(a, c, q, gains).position_target == q,
        driven_by(a, c, q, gains).torque_feedforward == Scalar::zero_spec(),
{
}

/// Going through velocity control leaves no trace in the gains of position
/// control.
pub proof fn position_gains_come_back(
    a: Actuator,
    v: AxisCommand,
    p: AxisCommand,
    q: Scalar,
    gains: SimGains,
)
    requires
        v.mode is Velocity,
        p.mode is Position || p.mode is Impedance,
    ensures
        ({
            let direct = driven_by(a, p, q, gains);
            let around = driven_by(driven_by(a, v, q, gains), p, q, gains);
            around.kp == direct.kp && around.kv == direct.kv && around.mode == direct.mode
        }),
{
}

/// In position and impedance control the actuator goes to the asked angle with the
/// asked torque on top, by the command's gains if it brings a stiffness and by the
/// simulation's own otherwise.
pub proof fn position_control_goes_to_the_asked_angle(a: Actuator, c: AxisCommand, q: Scalar, gains: SimGains)
    requires
        c.mode == ControlMode::Position || c.mode == ControlMode::Impedance,
    ensures
        ({
            let b = driven_by(a, c, q, gains);
            &&& b.mode == ActuatorMode::Position
            &&& b.position_target == c.position_rad
            &&& b.torque_feedforward == c.torque_ff_nm
            &&& c.kp_nm_per_rad.positive() ==> b.kp == c.kp_nm_per_rad && b.kv == c.kd_nm_s_per_rad
            &&& !c.kp_nm_per_rad.positive() ==> b.kp == gains.position_kp && b.kv == gains.position_kv
        }),
{
}

/// In torque control the actuator gives the asked torque, and in velocity control
/// it keeps the asked speed by the gain of velocity control.
pub proof fn torque_and_velocity_are_passed_on(a: Actuator, c: AxisCommand, q: Scalar, gains: SimGains)
    ensures
        c.mode == ControlMode::Torque ==> driven_by(a, c, q, gains).mode == ActuatorMode::Torque
            && driven_by(a, c, q, gains).torque_target == c.torque_ff_nm,
        c.mode == ControlMode::Velocity ==> driven_by(a, c, q, gains).mode == ActuatorMode::Velocity
            && driven_by(a, c, q, gains).velocity_target == c.velocity_rad_s && driven_by(
            a,
            c,
            q,
            gains,
        ).kv == gains.velocity_kv,
        c.mode == ControlMode::Idle ==> driven_by(a, c, q, gains).mode == ActuatorMode::Position
            && driven_by(a, c, q, gains).position_target == q && driven_by(
            a,
            c,
            q,
            gains,
        ).torque_feedforward == Scalar::zero_spec() && driven_by(a, c, q, gains).position_target_velocity
            == Scalar::zero_spec(),
        driven_by(a, c, q, gains).effort == a.effort,
{
}

/// Each axis drives the actuator of its own joint, from that joint's own angle.
/// Joints without an axis, and axes that the command leaves out, keep theirs.
pub proof fn each_axis_drives_its_own_joint(
    actuators: Seq<Actuator>,
    joint_idx: Seq<usize>,
    positions: Seq<Scalar>,
    cmd: Seq<AxisCommand>,
    gains: SimGains,
    n: int,
    j: int,
)
    requires
        0 <= n <= joint_idx.len(),
        n <= axis::AXIS_CAPACITY,
        0 <= j < actuators.len(),
        forall|i: int| 0 <= i < joint_idx.len() ==> #[trigger] joint_idx[i] < actuators.len(),
        forall|i: int, k: int|
            0 <= i < k < joint_idx.len() ==> #[trigger] joint_idx[i] != #[trigger] joint_idx[k],
    ensures
        actuated(actuators, joint_idx, positions, cmd, gains, n).len() == actuators.len(),
        forall|i: int|
            0 <= i < n && i < cmd.len() && #[trigger] joint_idx[i] == j ==> actuated(
                actuators,
                joint_idx,
                positions,
                cmd,
                gains,
                n,
            )[j] == driven_by(actuators[j], cmd[i], positions[j], gains),
        (forall|i: int| 0 <= i < n && #[trigger] joint_idx[i] == j ==> i >= cmd.len()) ==> actuated(
            actuators,
            joint_idx,
            positions,
            cmd,
            gains,
            n,
        )[j] == actuators[j],
    decreases n,
{
    if n > 0 {
        each_axis_drives_its_own_joint(actuators, joint_idx, positions, cmd, gains, n - 1, j);
        assert(axis::id_at(n - 1).0 == n - 1);
        if joint_idx[n - 1] == j {
            assert forall|i: int| 0 <= i < n - 1 implies #[trigger] joint_idx[i] != j by {
                assert(joint_idx[i] != joint_idx[n - 1]);
            }
        }
    }
}

/// A reading of the simulation is fresh and without fault; what the model lacks
/// reads as zero, or as no torque.
pub proof fn a_simulated_axis_is_fresh(
    before: AxisState,
    q: Seq<Scalar>,
    qvel: Seq<Scalar>,
    tau: Seq<Scalar>,
    j: usize,
)
    ensures
        ({
            let a = axis_after(before, q, qvel, tau, j);
            &&& j < q.len() ==> a.position_rad == q[j as int]
            &&& j >= q.len() ==> a.position_rad == Scalar::zero_spec()
            &&& j < qvel.len() ==> a.velocity_rad_s == qvel[j as int]
            &&& j >= qvel.len() ==> a.velocity_rad_s == Scalar::zero_spec()
            &&& j < tau.len() ==> a.torque_nm == Some(tau[j as int])
            &&& j >= tau.len() ==> a.torque_nm is None
            &&& a.health.valid
            &&& a.health.age.nanos == 0
            &&& a.health.fault_raw == 0
        }),
{
}

/// Each axis shows the reading of its own joint.
pub proof fn each_axis_shows_its_own_joint(
    axes: Seq<AxisState>,
    joint_idx: Seq<usize>,
    q: Seq<Scalar>,
    qvel: Seq<Scalar>,
    tau: Seq<Scalar>,
    n: int,
    i: int,
)
    requires
        0 <= n <= joint_idx.len(),
        n <= axis::AXIS_CAPACITY,
        0 <= i < axes.len(),
    ensures
        observed(axes, joint_idx, q, qvel, tau, n).len() == axes.len(),
        i < n ==> observed(axes, joint_idx, q, qvel, tau, n)[i] == axis_after(
            axes[i],
            q,
            qvel,
            tau,
            joint_idx[i],
        ),
        i >= n ==> observed(axes, joint_idx, q, qvel, tau, n)[i] == axes[i],
    decreases n,
{
    if n > 0 {
        each_axis_shows_its_own_joint(axes, joint_idx, q, qvel, tau, n - 1, i);
        assert(axis::id_at(n - 1).0 == n - 1);
    }
}

/// A joint begins at the angle of the last entry of the starting pose that names
/// it, and one that no entry names stays.
pub proof fn the_last_entry_of_the_pose_wins(
    positions: Seq<Scalar>,
    numbers: Seq<usize>,
    home: Seq<(String, Scalar)>,
    n: int,
    j: int,
)
    requires
        0 <= n <= numbers.len(),
        n <= home.len(),
        0 <= j < positions.len(),
        forall|i: int| 0 <= i < numbers.len() ==> #[trigger] numbers[i] < positions.len(),
    ensures
        homed(positions, numbers, home, n).len() == positions.len(),
        forall|i: int|
            0 <= i < n && #[trigger] numbers[i] == j && (forall|k: int|
                i < k < n ==> #[trigger] numbers[k] != j) ==> homed(positions, numbers, home, n)[j]
                == home[i].1,
        (forall|i: int| 0 <= i < n ==> #[trigger] numbers[i] != j) ==> homed(positions, numbers, home, n)[j]
            == positions[j],
    decreases n,
{
    if n > 0 {
        the_last_entry_of_the_pose_wins(positions, numbers, home, n - 1, j);
    }
}

/// A foot is on the ground where more than the threshold presses on it; or, by
/// touch, where something from outside touches a body of its name.
pub proof fn a_foot_is_on_the_ground_when_pressed(
    f: [Scalar; 4],
    all: Vec<Touch>,
    feet: Seq<String>,
    threshold: Scalar,
    i: int,
)
    ensures
        0 <= i < 4 ==> (on_ground(ContactSource::Forces(f), feet, threshold, i) <==> threshold.lt_num(f@[i])),
        i >= 4 ==> !on_ground(ContactSource::Forces(f), feet, threshold, i),
        i >= feet.len() ==> !on_ground(ContactSource::Touches(all), feet, threshold, i),
        0 <= i < feet.len() ==> (on_ground(ContactSource::Touches(all), feet, threshold, i) <==> exists|k: int|
            0 <= k < all@.len() && !(#[trigger] all@[k]).within_robot && (same_but_case(
                all@[k].body1@,
                feet[i]@,
            ) || same_but_case(all@[k].body2@, feet[i]@))),
{
    if 0 <= i < feet.len() && exists|k: int|
        0 <= k < all@.len() && !(#[trigger] all@[k]).within_robot && (same_but_case(
            all@[k].body1@,
            feet[i]@,
        ) || same_but_case(all@[k].body2@, feet[i]@)) {
        let k = choose|k: int|
            0 <= k < all@.len() && !(#[trigger] all@[k]).within_robot && (same_but_case(
                all@[k].body1@,
                feet[i]@,
            ) || same_but_case(all@[k].body2@, feet[i]@));
        assert(touches(all@[k], feet[i]@));
    }
}

/// Names that differ only in case are the same, and no others are.
pub proof fn only_case_is_ignored(a: Seq<char>, b: Seq<char>)
    ensures
        same_but_case(a, b) == same_but_case(b, a),
        same_but_case(a, a),
        a.len() != b.len() ==> !same_but_case(a, b),
        a.len() == b.len() ==> (same_but_case(a, b) <==> forall|i: int|
            0 <= i < a.len() ==> #[trigger] a[i] == b[i] || ('A' <= a[i] <= 'Z' && b[i] as int == a[i] as int
                + 32) || ('A' <= b[i] <= 'Z' && a[i] as int == b[i] as int + 32)),
{
    if a.len() == b.len() && same_but_case(a, b) {
        assert forall|i: int| 0 <= i < a.len() implies #[trigger] a[i] == b[i] || ('A' <= a[i] <= 'Z'
            && b[i] as int == a[i] as int + 32) || ('A' <= b[i] <= 'Z' && a[i] as int == b[i] as int + 32) by {
            assert(folded(a[i]) == folded(b[i]));
        }
    }
}

/// What touches the ground and is no foot is a stray: the touching body is the one
/// with a name.
pub proof fn a_stray_is_a_named_body_that_is_no_foot(t: Touch, feet: Seq<String>)
    ensures
        t.within_robot ==> !stray(t, feet),
        t.body1@.len() > 0 ==> grounded_body(t) == t.body1@,
        t.body1@.len() == 0 ==> grounded_body(t) == t.body2@,
        !t.within_robot && t.body1@.len() > 0 ==> (stray(t, feet) <==> forall|i: int|
            0 <= i < feet.len() ==> !same_but_case(#[trigger] feet[i]@, t.body1@)),
        !t.within_robot && t.body1@.len() == 0 && t.body2@.len() > 0 ==> (stray(t, feet) <==> forall|
            i: int,
        | 0 <= i < feet.len() ==> !same_but_case(#[trigger] feet[i]@, t.body2@)),
        t.body1@.len() == 0 && t.body2@.len() == 0 ==> !stray(t, feet),
{
}

/// Every touch counts, from the first on: a stray one makes its body a stray, and
/// a body without a stray touch is none.
pub proof fn one_stray_touch_is_enough(all: Seq<Touch>, feet: Seq<String>, n: int, k: int, name: Seq<char>)
    requires
        0 <= k < n,
    ensures
        stray(all[k], feet) ==> strays(all, feet, n, grounded_body(all[k])),
        strays(all, feet, k, name) ==> strays(all, feet, n, name),
        !strays(all, feet, 0, name),
        strays(all, feet, k + 1, name) && !strays(all, feet, k, name) ==> stray(all[k], feet)
            && grounded_body(all[k]) == name,
{
    if strays(all, feet, k, name) {
        let i = choose|i: int| 0 <= i < k && stray(#[trigger] all[i], feet) && grounded_body(all[i]) == name;
        assert(stray(all[i], feet));
    }
}

/// Every name of a list is in it, from the first to the last, and nothing else.
pub proof fn every_name_of_a_list_is_listed(v: Seq<String>, i: int, name: Seq<char>)
    ensures
        0 <= i < v.len() ==> listed(v, v[i]@),
        v.len() == 0 ==> !listed(v, name),
        (forall|k: int| 0 <= k < v.len() ==> (#[trigger] v[k])@ != name) ==> !listed(v, name),
{
}

/// The names of an ascending list follow each other; none stands twice.
pub proof fn an_ascending_list_has_no_name_twice(v: Seq<String>, i: int, j: int)
    requires
        ascending(v),
        0 <= i < j < v.len(),
    ensures
        text::precedes(v[i]@, v[j]@),
        v[i]@ != v[j]@,
{
    text::order_is_total(v[i]@, v[j]@);
}

} // verus!
