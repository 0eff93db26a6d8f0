//! The settings of predictive gait controllers, and what their forces mean for the
//! whole body.

use vstd::prelude::*;

use crate::config::{GaitTuning, WbcConfig};
use crate::estimator::Vec3;
use crate::robot::GaitMode;
use crate::scalar::Scalar;

verus! {

/// What a predictive controller is set to. The robot's mass, inertia and centre
/// of mass come on top: without them it would plan for the library's own robot.
#[derive(Clone, Copy, Debug, PartialEq, Eq, Structural)]
pub struct MpcSettings {
    pub horizon_steps: usize,
    pub dt_per_step: Scalar,
    /// The same friction that the whole-body controller counts on.
    pub friction_mu: Scalar,
    pub capture_point_gain_s: Scalar,
    /// Takes the full inertia and the centre of mass; else only the diagonal.
    pub full_inertia: bool,
}

pub open spec fn settings_of(mode: GaitMode, tuning: GaitTuning, wbc: WbcConfig) -> Option<MpcSettings> {
    if mode is Mpc || mode is CentroidalSrbd {
        Some(
            MpcSettings {
                horizon_steps: tuning.mpc_horizon_steps,
                dt_per_step: tuning.mpc_dt_per_step,
                friction_mu: wbc.friction_mu,
                capture_point_gain_s: tuning.mpc_capture_point_gain_s,
                full_inertia: mode is CentroidalSrbd,
            },
        )
    } else {
        None
    }
}

/// The settings of a controller that predicts; `None` for one that does not.
pub fn configure_mpc(mode: GaitMode, tuning: &GaitTuning, wbc: &WbcConfig) -> (r: Option<MpcSettings>)
    ensures
        r == settings_of(mode, *tuning, *wbc),
{
    if mode != GaitMode::Mpc && mode != GaitMode::CentroidalSrbd {
        return None;
    }
    Some(
        MpcSettings {
            horizon_steps: tuning.mpc_horizon_steps,
            dt_per_step: tuning.mpc_dt_per_step,
            friction_mu: wbc.friction_mu,
            capture_point_gain_s: tuning.mpc_capture_point_gain_s,
            full_inertia: mode == GaitMode::CentroidalSrbd,
        },
    )
}

/// The forces that a predictive controller settled on.
#[derive(Clone, Copy, Debug, PartialEq, Eq)]
pub struct PredictedForces {
    /// Per foot, in the world frame.
    pub grf_world: [Vec3; 4],
    pub solved: bool,
}

/// How the body accelerates under those forces.
#[derive(Clone, Copy, Debug, PartialEq, Eq, Structural)]
pub struct BodyAcceleration {
    pub linear_world: Vec3,
    pub angular_world: Vec3,
}

/// What the whole-body controller is to follow.
#[derive(Clone, Copy, Debug, PartialEq, Eq)]
pub struct MpcReference {
    pub grf_world: [Vec3; 4],
    pub accel: BodyAcceleration,
    pub solved: bool,
}

/// The whole-body reference of a predictive controller. `centroidal` and `srbd`
/// are the accelerations that the two body models give, each where the
/// controller has such a model; the centroidal one goes first. Without forces or
/// without a model there is no reference.
pub fn mpc_reference(
    forces: Option<PredictedForces>,
    centroidal: Option<BodyAcceleration>,
    srbd: Option<BodyAcceleration>,
) -> (r: Option<MpcReference>)
    ensures
        r is Some <==> forces is Some && (centroidal is Some || srbd is Some),
        r matches Some(m) ==> {
            &&& m.grf_world == forces->0.grf_world
            &&& m.solved == forces->0.solved
            &&& m.accel == (match centroidal {
                Some(a) => a,
                None => srbd->0,
            })
        },
{
    let f: PredictedForces = match forces {
        Some(f) => f,
        None => return None,
    };
    let accel: BodyAcceleration = match centroidal {
        Some(a) => a,
        None => match srbd {
            Some(a) => a,
            None => return None,
        },
    };
    Some(MpcReference { grf_world: f.grf_world, accel, solved: f.solved })
}

/// Exactly the predictive controllers are set up, with the profile's horizon, the
/// whole-body controller's friction, and the full inertia where they model it.
pub proof fn predictive_controllers_are_set_up(mode: GaitMode, t: GaitTuning, w: WbcConfig)
    ensures
        settings_of(mode, t, w) is Some <==> mode == GaitMode::Mpc || mode == GaitMode::CentroidalSrbd,
        settings_of(mode, t, w) matches Some(s) ==> {
            &&& s.horizon_steps == t.mpc_horizon_steps
            &&& s.dt_per_step == t.mpc_dt_per_step
            &&& s.friction_mu == w.friction_mu
            &&& s.capture_point_gain_s == t.mpc_capture_point_gain_s
            &&& s.full_inertia <==> mode == GaitMode::CentroidalSrbd
        },
{
}

} // verus!
