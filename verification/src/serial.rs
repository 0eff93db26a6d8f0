//! The exchange with motors on serial buses.

use vstd::prelude::*;

use crate::axis::AxisId;
use crate::command::{AxisCommand, Command, ControlMode};
use crate::observation::{AxisHealth, AxisState, Imu, Observation};
use crate::plant::PlantCaps;
use crate::scalar::Scalar;
use crate::time::{Span, Time};

verus! {

/// Leg joints on the buses.
pub const LEG_AXES: usize = 12;

/// The axis of the arm.
pub const ARM_AXIS: usize = 12;

/// What a bus motor can be told.
#[derive(Clone, Copy, Debug, PartialEq, Eq, Structural)]
pub enum JointMode {
    Idle,
    Position,
}

#[derive(Clone, Copy, Debug, PartialEq, Eq, Structural)]
pub struct JointCommand {
    pub mode: JointMode,
    pub position_rad: Scalar,
    pub max_speed_rad_s: Scalar,
    pub torque_nm: Scalar,
}

/// What a motor is told. Everything but limp is position control at the
/// configured speed limit.
pub open spec fn joint_spec(a: AxisCommand, max_speed_rad_s: Scalar) -> JointCommand {
    JointCommand {
        mode: if a.mode is Idle { JointMode::Idle } else { JointMode::Position },
        position_rad: a.position_rad,
        max_speed_rad_s,
        torque_nm: a.torque_ff_nm,
    }
}

/// The commands to the leg motors, leg by leg. An axis that the command leaves
/// out is `None`: its motor gets the bus's default.
pub fn joint_commands(cmd: &Command, max_speed_rad_s: Scalar) -> (r: Vec<Option<JointCommand>>)
    ensures
        r@.len() == LEG_AXES,
        forall|i: int|
            0 <= i < LEG_AXES ==> #[trigger] r@[i] == (if i < cmd@.len() {
                Some(joint_spec(cmd@[i], max_speed_rad_s))
            } else {
                None
            }),
{
    let mut out: Vec<Option<JointCommand>> = Vec::new();
    let mut i: usize = 0;
    while i < LEG_AXES
        invariant
            i <= LEG_AXES,
            out@.len() == i,
            forall|k: int|
                0 <= k < i ==> #[trigger] out@[k] == (if k < cmd@.len() {
                    Some(joint_spec(cmd@[k], max_speed_rad_s))
                } else {
                    None
                }),
        decreases LEG_AXES - i,
    {
        match cmd.get(AxisId::new(i as u16)) {
            Some(a) => {
                out.push(
                    Some(
                        JointCommand {
                            mode: match a.mode {
                                ControlMode::Idle => JointMode::Idle,
                                _ => JointMode::Position,
                            },
                            position_rad: a.position_rad,
                            max_speed_rad_s,
                            torque_nm: a.torque_ff_nm,
                        },
                    ),
                );
            },
            None => {
                out.push(None);
            },
        }
        i += 1;
    }
    out
}

/// Where to send the arm, if anywhere: only where it follows our commands, and
/// not while it is to be limp.
pub fn arm_target(cmd: &Command, app_driven: bool) -> (r: Option<Scalar>)
    ensures
        r == (if app_driven && ARM_AXIS < cmd@.len() && !(cmd@[ARM_AXIS as int].mode is Idle) {
            Some(cmd@[ARM_AXIS as int].position_rad)
        } else {
            None
        }),
{
    if !app_driven {
        return None;
    }
    match cmd.get(AxisId::new(ARM_AXIS as u16)) {
        Some(a) => if a.mode != ControlMode::Idle {
            Some(a.position_rad)
        } else {
            None
        },
        None => None,
    }
}

/// What the buses offer: position control, an inertial unit, no foot sensors.
/// The last axis is the arm; that it moves does not mean that we move it.
pub fn serial_caps(n: usize, arm_app_driven: bool) -> (r: PlantCaps)
    ensures
        r.modes@ == seq![ControlMode::Position],
        r.has_imu,
        !r.has_contacts,
        r.driven@ == Seq::new(n as nat, |i: int| i < n - 1 || arm_app_driven),
{
    let mut modes: Vec<ControlMode> = Vec::new();
    modes.push(ControlMode::Position);
    let mut driven: Vec<bool> = Vec::new();
    let mut i: usize = 0;
    while i < n
        invariant
            i <= n,
            driven@ == Seq::new(i as nat, |k: int| k < n - 1 || arm_app_driven),
        decreases n - i,
    {
        driven.push(i + 1 < n || arm_app_driven);
        i += 1;
    }
    PlantCaps { modes, has_imu: true, has_contacts: false, driven }
}

/// What a bus reports about one motor.
#[derive(Clone, Copy, Debug, PartialEq, Eq, Structural)]
pub struct MotorReport {
    pub position_rad: Scalar,
    pub velocity_rad_s: Scalar,
    pub ok: bool,
    /// How long ago the bus renewed this report.
    pub age: Span,
    pub error_raw: u16,
    /// Whether temperature and voltage have been read.
    pub status_valid: bool,
    pub temperature_c: Scalar,
    pub voltage_v: Scalar,
}

/// An axis after a report. The buses do not measure torque.
pub open spec fn axis_after(m: MotorReport) -> AxisState {
    AxisState {
        position_rad: m.position_rad,
        velocity_rad_s: m.velocity_rad_s,
        torque_nm: None,
        health: AxisHealth {
            valid: m.ok,
            age: m.age,
            fault_raw: m.error_raw as u32,
            temperature_c: if m.status_valid { Some(m.temperature_c) } else { None },
            voltage_v: if m.status_valid { Some(m.voltage_v) } else { None },
        },
    }
}

/// Puts the buses' reports, the arm's angle and the inertial unit's sample into
/// the observation, each with its age: a bus that is stuck shows as one whose
/// readings grow old.
pub fn absorb(
    obs: &mut Observation,
    now: Time,
    motors: &Vec<MotorReport>,
    arm_rad: Scalar,
    arm_age: Span,
    imu: Imu,
)
    requires
        motors@.len() == LEG_AXES,
    ensures
        final(obs).time == now,
        final(obs).imu == Some(imu),
        final(obs).contacts == old(obs).contacts,
        final(obs).axes@.len() == old(obs).axes@.len(),
        forall|i: int|
            0 <= i < old(obs).axes@.len() ==> #[trigger] final(obs).axes@[i] == (if i < LEG_AXES {
                axis_after(motors@[i])
            } else if i == ARM_AXIS {
                AxisState {
                    position_rad: arm_rad,
                    health: AxisHealth { valid: true, age: arm_age, ..old(obs).axes@[i].health },
                    ..old(obs).axes@[i]
                }
            } else {
                old(obs).axes@[i]
            }),
{
    obs.time = now;
    let mut i: usize = 0;
    while i < LEG_AXES
        invariant
            i <= LEG_AXES == motors@.len(),
            obs.time == now,
            obs.contacts == old(obs).contacts,
            obs.axes@.len() == old(obs).axes@.len(),
            forall|k: int|
                0 <= k < old(obs).axes@.len() ==> #[trigger] obs.axes@[k] == (if k < i {
                    axis_after(motors@[k])
                } else {
                    old(obs).axes@[k]
                }),
        decreases LEG_AXES - i,
    {
        if i < obs.axes.len() {
            let m: MotorReport = motors[i];
            obs.axes[i] = AxisState {
                position_rad: m.position_rad,
                velocity_rad_s: m.velocity_rad_s,
                torque_nm: None,
                health: AxisHealth {
                    valid: m.ok,
                    age: m.age,
                    fault_raw: m.error_raw as u32,
                    temperature_c: if m.status_valid {
                        Some(m.temperature_c)
                    } else {
                        None
                    },
                    voltage_v: if m.status_valid {
                        Some(m.voltage_v)
                    } else {
                        None
                    },
                },
            };
        }
        i += 1;
    }
    if ARM_AXIS < obs.axes.len() {
        let before: AxisState = obs.axes[ARM_AXIS];
        obs.axes[ARM_AXIS] = AxisState {
            position_rad: arm_rad,
            health: AxisHealth { valid: true, age: arm_age, ..before.health },
            ..before
        };
    }
    obs.imu = Some(imu);
}

/// A motor is limp exactly when its axis is to be, and otherwise goes to the asked
/// angle with the asked torque, no faster than the limit.
pub proof fn a_motor_follows_its_axis(a: AxisCommand, max_speed_rad_s: Scalar)
    ensures
        ({
            let j = joint_spec(a, max_speed_rad_s);
            &&& j.mode == JointMode::Idle <==> a.mode == ControlMode::Idle
            &&& j.position_rad == a.position_rad
            &&& j.torque_nm == a.torque_ff_nm
            &&& j.max_speed_rad_s == max_speed_rad_s
        }),
{
}

/// An axis shows what its motor reports, and how old that is. Temperature and
/// voltage are shown once they have been read, and torque never.
pub proof fn an_axis_shows_its_report(m: MotorReport)
    ensures
        ({
            let a = axis_after(m);
            &&& a.position_rad == m.position_rad
            &&& a.velocity_rad_s == m.velocity_rad_s
            &&& a.torque_nm is None
            &&& a.health.valid == m.ok
            &&& a.health.age == m.age
            &&& a.health.fault_raw == m.error_raw
            &&& m.status_valid ==> a.health.temperature_c == Some(m.temperature_c)
                && a.health.voltage_v == Some(m.voltage_v)
            &&& !m.status_valid ==> a.health.temperature_c is None && a.health.voltage_v is None
        }),
{
}

} // verus!
