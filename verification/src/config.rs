//! Settings of the controller.

use vstd::prelude::*;
use vstd::string::*;

use crate::scalar::Scalar;
use crate::text;
use crate::text::{chars_of, push_decimal, quoted, same};

verus! {

/// Which way the knees bend.
#[derive(Clone, Copy, Debug, PartialEq, Eq, Structural)]
pub enum KneeShape {
    /// `<<`: all four backward.
    BothBack,
    /// `<>`: front backward, rear forward.
    MammalianForward,
    /// `><`: front forward, rear backward.
    MammalianReverse,
    /// `>>`: all four forward.
    BothForward,
}

impl Default for KneeShape {
    fn default() -> (r: KneeShape)
        ensures
            r is BothBack,
    {
        KneeShape::BothBack
    }
}

impl KneeShape {
    /// Whether the knee of leg `slot` (front left, front right, rear left, rear
    /// right) bends forward.
    pub open spec fn forward_spec(self, slot: int) -> bool {
        match self {
            KneeShape::BothBack => false,
            KneeShape::MammalianForward => slot >= 2,
            KneeShape::MammalianReverse => slot < 2,
            KneeShape::BothForward => true,
        }
    }

    pub fn forward(self, slot: usize) -> (r: bool)
        ensures
            r == self.forward_spec(slot as int),
    {
        match self {
            KneeShape::BothBack => false,
            KneeShape::MammalianForward => slot >= 2,
            KneeShape::MammalianReverse => slot < 2,
            KneeShape::BothForward => true,
        }
    }
}

/// How the knees are turned over.
#[derive(Clone, Copy, Debug, PartialEq, Eq, Structural)]
pub enum KneeFlipStyle {
    /// Resting on wheels or belly, all legs together.
    Rest,
    /// Standing on one diagonal, turning the other.
    Trot,
    /// Standing on three legs, turning one at a time.
    Stand,
}

/// Which gait controller runs.
#[derive(Clone, Copy, Debug, PartialEq, Eq, Structural)]
pub enum GaitControllerKind {
    Auto,
    Champ,
    LinearCrawl,
    Mpc,
    Centroidal,
}

impl GaitControllerKind {
    pub open spec fn label_spec(self) -> Seq<char> {
        match self {
            GaitControllerKind::Auto => "自動"@,
            GaitControllerKind::Champ => "CHAMP"@,
            GaitControllerKind::LinearCrawl => "LinearCrawl"@,
            GaitControllerKind::Mpc => "MPC (SRBD)"@,
            GaitControllerKind::Centroidal => "MPC (重心)"@,
        }
    }

    pub open spec fn has_mpc_spec(self) -> bool {
        self is Mpc || self is Centroidal
    }

    pub open spec fn parse_spec(s: Seq<char>) -> Option<GaitControllerKind> {
        if s == "auto"@ {
            Some(GaitControllerKind::Auto)
        } else if s == "champ"@ {
            Some(GaitControllerKind::Champ)
        } else if s == "linear_crawl"@ || s == "linear"@ {
            Some(GaitControllerKind::LinearCrawl)
        } else if s == "mpc"@ || s == "srbd"@ {
            Some(GaitControllerKind::Mpc)
        } else if s == "centroidal"@ {
            Some(GaitControllerKind::Centroidal)
        } else {
            None
        }
    }

    pub fn label(self) -> (r: &'static str)
        ensures
            r@ == self.label_spec(),
    {
        match self {
            GaitControllerKind::Auto => "自動",
            GaitControllerKind::Champ => "CHAMP",
            GaitControllerKind::LinearCrawl => "LinearCrawl",
            GaitControllerKind::Mpc => "MPC (SRBD)",
            GaitControllerKind::Centroidal => "MPC (重心)",
        }
    }

    /// Whether the controller predicts ground reaction forces.
    pub fn has_mpc(self) -> (r: bool)
        ensures
            r == self.has_mpc_spec(),
    {
        matches!(self, GaitControllerKind::Mpc | GaitControllerKind::Centroidal)
    }

    pub fn parse(s: &str) -> (r: Option<GaitControllerKind>)
        ensures
            r == Self::parse_spec(s@),
    {
        if same(s, "auto") {
            Some(GaitControllerKind::Auto)
        } else if same(s, "champ") {
            Some(GaitControllerKind::Champ)
        } else if same(s, "linear_crawl") || same(s, "linear") {
            Some(GaitControllerKind::LinearCrawl)
        } else if same(s, "mpc") || same(s, "srbd") {
            Some(GaitControllerKind::Mpc)
        } else if same(s, "centroidal") {
            Some(GaitControllerKind::Centroidal)
        } else {
            None
        }
    }
}

impl Default for GaitControllerKind {
    fn default() -> (r: GaitControllerKind)
        ensures
            r is Auto,
    {
        GaitControllerKind::Auto
    }
}

/// In which quantity the whole-body controller's solution goes out.
#[derive(Clone, Copy, Debug, PartialEq, Eq, Structural)]
pub enum WbcOutput {
    Torque,
    Velocity,
    Position,
}

impl WbcOutput {
    pub open spec fn label_spec(self) -> Seq<char> {
        match self {
            WbcOutput::Torque => "トルク"@,
            WbcOutput::Velocity => "速度"@,
            WbcOutput::Position => "位置"@,
        }
    }

    pub open spec fn parse_spec(s: Seq<char>) -> Option<WbcOutput> {
        if s == "torque"@ || s == "trq"@ {
            Some(WbcOutput::Torque)
        } else if s == "velocity"@ || s == "vel"@ {
            Some(WbcOutput::Velocity)
        } else if s == "position"@ || s == "pos"@ {
            Some(WbcOutput::Position)
        } else {
            None
        }
    }

    pub fn label(self) -> (r: &'static str)
        ensures
            r@ == self.label_spec(),
    {
        match self {
            WbcOutput::Torque => "トルク",
            WbcOutput::Velocity => "速度",
            WbcOutput::Position => "位置",
        }
    }

    pub fn parse(s: &str) -> (r: Option<WbcOutput>)
        ensures
            r == Self::parse_spec(s@),
    {
        if same(s, "torque") || same(s, "trq") {
            Some(WbcOutput::Torque)
        } else if same(s, "velocity") || same(s, "vel") {
            Some(WbcOutput::Velocity)
        } else if same(s, "position") || same(s, "pos") {
            Some(WbcOutput::Position)
        } else {
            None
        }
    }
}

impl Default for WbcOutput {
    fn default() -> (r: WbcOutput)
        ensures
            r is Position,
    {
        WbcOutput::Position
    }
}

/// What an axis outside the legs is for.
#[derive(Clone, Copy, Debug, PartialEq, Eq, Structural)]
pub enum AuxRole {
    /// Counters the body's tilt. There is at most one.
    Head,
    Wheel,
    /// Only observed.
    Other,
}

impl Default for AuxRole {
    fn default() -> (r: AuxRole)
        ensures
            r is Other,
    {
        AuxRole::Other
    }
}

/// One axis outside the legs.
#[derive(Clone, Debug, PartialEq, Eq)]
pub struct AuxAxis {
    /// The joint's name in the model.
    pub joint: String,
    pub role: AuxRole,
}

/// How the body's state is estimated.
#[derive(Clone, Copy, Debug, PartialEq, Eq, Structural)]
pub enum EstimatorKind {
    LegOdometry,
    Kalman,
}

impl Default for EstimatorKind {
    fn default() -> (r: EstimatorKind)
        ensures
            r is LegOdometry,
    {
        EstimatorKind::LegOdometry
    }
}

/// The whole-body controller.
#[derive(Clone, Copy, Debug, PartialEq, Eq, Structural)]
pub struct WbcConfig {
    /// Off unless asked for.
    pub enabled: bool,
    pub output: WbcOutput,
    /// Friction coefficient of the ground.
    pub friction_mu: Scalar,
    /// Least vertical force of a foot planned to carry.
    pub f_min_stance_n: Scalar,
    /// Factor on the model's torque limits.
    pub torque_scale: Scalar,
    /// Absolute torque limit; zero is none.
    pub max_torque_nm: Scalar,
    /// Swing foot gains.
    pub swing_kp: Scalar,
    pub swing_kd: Scalar,
    /// Auxiliary axis gains.
    pub aux_kp: Scalar,
    pub aux_kd: Scalar,
    /// Joint gains beside the torque.
    pub joint_kp: Scalar,
    pub joint_kd: Scalar,
    /// Stance joint gains.
    pub stance_kp: Scalar,
    pub stance_kd: Scalar,
    /// Roll and pitch gains.
    pub attitude_kp: Scalar,
    pub attitude_kd: Scalar,
    pub yaw_kp: Scalar,
    pub yaw_kd: Scalar,
    pub height_kp: Scalar,
    pub height_kd: Scalar,
    pub position_kp: Scalar,
    pub velocity_kd: Scalar,
    /// Body mass; zero takes the model's.
    pub mass_kg: Scalar,
    pub weight_base_accel: Scalar,
    pub weight_joint_track: Scalar,
    pub weight_contact_force: Scalar,
    pub weight_tau_gravity: Scalar,
    /// Limits; zero is none.
    pub max_joint_accel: Scalar,
    pub max_base_accel_lin: Scalar,
    pub max_base_accel_ang: Scalar,
    /// Vertical force above which a foot counts as loaded.
    pub contact_force_threshold_n: Scalar,
    /// Smoothing of predicted forces, from zero to one.
    pub grf_smoothing: Scalar,
    pub prox_weight: Scalar,
    pub velocity_track_kp: Scalar,
    pub swing_accel_integral_k: Scalar,
    pub swing_accel_integral_sat_nm: Scalar,
    /// Let measured contact override planned swing feet.
    pub use_measured_contact: bool,
}

impl WbcConfig {
    pub open spec fn default_spec() -> WbcConfig {
        WbcConfig {
            enabled: false,
            output: WbcOutput::Position,
            friction_mu: Scalar { bits: 0x3fe6_6666_6666_6666 },
            f_min_stance_n: Scalar { bits: 0x3fe0_0000_0000_0000 },
            torque_scale: Scalar { bits: 0x3ff0_0000_0000_0000 },
            max_torque_nm: Scalar { bits: 0x0000_0000_0000_0000 },
            swing_kp: Scalar { bits: 0x4075_e000_0000_0000 },
            swing_kd: Scalar { bits: 0x4042_8000_0000_0000 },
            aux_kp: Scalar { bits: 0x4059_0000_0000_0000 },
            aux_kd: Scalar { bits: 0x4024_0000_0000_0000 },
            joint_kp: Scalar { bits: 0x4014_0000_0000_0000 },
            joint_kd: Scalar { bits: 0x3fd3_3333_3333_3333 },
            stance_kp: Scalar { bits: 0x0000_0000_0000_0000 },
            stance_kd: Scalar { bits: 0x0000_0000_0000_0000 },
            attitude_kp: Scalar { bits: 0x404e_0000_0000_0000 },
            attitude_kd: Scalar { bits: 0x4020_0000_0000_0000 },
            yaw_kp: Scalar { bits: 0x4024_0000_0000_0000 },
            yaw_kd: Scalar { bits: 0x4000_0000_0000_0000 },
            height_kp: Scalar { bits: 0x4059_0000_0000_0000 },
            height_kd: Scalar { bits: 0x4034_0000_0000_0000 },
            position_kp: Scalar { bits: 0x4059_0000_0000_0000 },
            velocity_kd: Scalar { bits: 0x4024_0000_0000_0000 },
            mass_kg: Scalar { bits: 0x0000_0000_0000_0000 },
            weight_base_accel: Scalar { bits: 0x4049_0000_0000_0000 },
            weight_joint_track: Scalar { bits: 0x4069_0000_0000_0000 },
            weight_contact_force: Scalar { bits: 0x4014_0000_0000_0000 },
            weight_tau_gravity: Scalar { bits: 0x4014_0000_0000_0000 },
            max_joint_accel: Scalar { bits: 0x4069_0000_0000_0000 },
            max_base_accel_lin: Scalar { bits: 0x4024_0000_0000_0000 },
            max_base_accel_ang: Scalar { bits: 0x4059_0000_0000_0000 },
            contact_force_threshold_n: Scalar { bits: 0x4014_0000_0000_0000 },
            grf_smoothing: Scalar { bits: 0x3fd3_3333_3333_3333 },
            prox_weight: Scalar { bits: 0x3f50_624d_d2f1_a9fc },
            velocity_track_kp: Scalar { bits: 0x4034_0000_0000_0000 },
            swing_accel_integral_k: Scalar { bits: 0x0000_0000_0000_0000 },
            swing_accel_integral_sat_nm: Scalar { bits: 0x3fe0_0000_0000_0000 },
            use_measured_contact: false,
        }
    }
}

impl Default for WbcConfig {
    fn default() -> (r: WbcConfig)
        ensures
            r == WbcConfig::default_spec(),
    {
        WbcConfig {
            enabled: false,
            output: WbcOutput::Position,
            friction_mu: Scalar::from_bits(0x3fe6_6666_6666_6666),
            f_min_stance_n: Scalar::from_bits(0x3fe0_0000_0000_0000),
            torque_scale: Scalar::from_bits(0x3ff0_0000_0000_0000),
            max_torque_nm: Scalar::from_bits(0x0000_0000_0000_0000),
            swing_kp: Scalar::from_bits(0x4075_e000_0000_0000),
            swing_kd: Scalar::from_bits(0x4042_8000_0000_0000),
            aux_kp: Scalar::from_bits(0x4059_0000_0000_0000),
            aux_kd: Scalar::from_bits(0x4024_0000_0000_0000),
            joint_kp: Scalar::from_bits(0x4014_0000_0000_0000),
            joint_kd: Scalar::from_bits(0x3fd3_3333_3333_3333),
            stance_kp: Scalar::from_bits(0x0000_0000_0000_0000),
            stance_kd: Scalar::from_bits(0x0000_0000_0000_0000),
            attitude_kp: Scalar::from_bits(0x404e_0000_0000_0000),
            attitude_kd: Scalar::from_bits(0x4020_0000_0000_0000),
            yaw_kp: Scalar::from_bits(0x4024_0000_0000_0000),
            yaw_kd: Scalar::from_bits(0x4000_0000_0000_0000),
            height_kp: Scalar::from_bits(0x4059_0000_0000_0000),
            height_kd: Scalar::from_bits(0x4034_0000_0000_0000),
            position_kp: Scalar::from_bits(0x4059_0000_0000_0000),
            velocity_kd: Scalar::from_bits(0x4024_0000_0000_0000),
            mass_kg: Scalar::from_bits(0x0000_0000_0000_0000),
            weight_base_accel: Scalar::from_bits(0x4049_0000_0000_0000),
            weight_joint_track: Scalar::from_bits(0x4069_0000_0000_0000),
            weight_contact_force: Scalar::from_bits(0x4014_0000_0000_0000),
            weight_tau_gravity: Scalar::from_bits(0x4014_0000_0000_0000),
            max_joint_accel: Scalar::from_bits(0x4069_0000_0000_0000),
            max_base_accel_lin: Scalar::from_bits(0x4024_0000_0000_0000),
            max_base_accel_ang: Scalar::from_bits(0x4059_0000_0000_0000),
            contact_force_threshold_n: Scalar::from_bits(0x4014_0000_0000_0000),
            grf_smoothing: Scalar::from_bits(0x3fd3_3333_3333_3333),
            prox_weight: Scalar::from_bits(0x3f50_624d_d2f1_a9fc),
            velocity_track_kp: Scalar::from_bits(0x4034_0000_0000_0000),
            swing_accel_integral_k: Scalar::from_bits(0x0000_0000_0000_0000),
            swing_accel_integral_sat_nm: Scalar::from_bits(0x3fe0_0000_0000_0000),
            use_measured_contact: false,
        }
    }
}

/// Tuning of the gaits.
#[derive(Clone, Copy, Debug, PartialEq, Eq, Structural)]
pub struct GaitTuning {
    pub knee_pattern: KneeShape,
    /// Body height when standing.
    pub stance_height_m: Scalar,
    /// Height of the swinging foot.
    pub swing_height_m: Scalar,
    /// Velocity limits.
    pub max_vx_m_s: Scalar,
    pub max_vy_m_s: Scalar,
    pub max_wz_rad_s: Scalar,
    /// How far the operator may raise or lower the body.
    pub height_range_m: Scalar,
    pub mpc_dt_per_step: Scalar,
    pub mpc_capture_point_gain_s: Scalar,
    /// Time from rest to full speed.
    pub velocity_ramp_s: Scalar,
    /// Time from full speed to rest.
    pub velocity_ramp_stop_s: Scalar,
    /// Longest wait for feet to land when stopping.
    pub stop_settle_s: Scalar,
    /// How far the operator may tilt the body; zero switches it off.
    pub body_attitude_max_rad: Scalar,
    pub body_attitude_tau_s: Scalar,
    /// Crawl with the straight-line planner. It ignores sideways and turning commands.
    pub crawl_use_linear: bool,
    pub controller: GaitControllerKind,
    pub mpc_horizon_steps: usize,
    pub mpc_observe_pose: bool,
    pub mpc_observe_velocity: bool,
    /// Estimate from feet whose contact is measured where it can be.
    pub estimator_use_measured_contact: bool,
    pub estimator: EstimatorKind,
    /// Cycle times; the gait library's own where not given.
    pub crawl_cycle_s: Option<Scalar>,
    pub walk_cycle_s: Option<Scalar>,
    pub trot_cycle_s: Option<Scalar>,
    /// Longest step; the gait library's own where not given.
    pub step_length_m: Option<Scalar>,
}

impl GaitTuning {
    pub open spec fn default_spec() -> GaitTuning {
        GaitTuning {
            knee_pattern: KneeShape::BothBack,
            stance_height_m: Scalar { bits: 0x3fc9_9999_9999_999a },
            swing_height_m: Scalar { bits: 0x3f9e_b851_eb85_1eb8 },
            max_vx_m_s: Scalar { bits: 0x3fc3_3333_3333_3333 },
            max_vy_m_s: Scalar { bits: 0x3fb4_7ae1_47ae_147b },
            max_wz_rad_s: Scalar { bits: 0x3fe3_3333_3333_3333 },
            height_range_m: Scalar { bits: 0x3fa4_7ae1_47ae_147b },
            mpc_dt_per_step: Scalar { bits: 0x3f9e_b851_eb85_1eb8 },
            mpc_capture_point_gain_s: Scalar { bits: 0x3fa9_9999_9999_999a },
            velocity_ramp_s: Scalar { bits: 0x3fe0_0000_0000_0000 },
            velocity_ramp_stop_s: Scalar { bits: 0x3fc3_3333_3333_3333 },
            stop_settle_s: Scalar { bits: 0x3fd0_0000_0000_0000 },
            body_attitude_max_rad: Scalar { bits: 0x0000_0000_0000_0000 },
            body_attitude_tau_s: Scalar { bits: 0x3fc3_3333_3333_3333 },
            crawl_use_linear: false,
            controller: GaitControllerKind::Auto,
            mpc_horizon_steps: 10,
            mpc_observe_pose: true,
            mpc_observe_velocity: true,
            estimator_use_measured_contact: false,
            estimator: EstimatorKind::LegOdometry,
            crawl_cycle_s: None,
            walk_cycle_s: None,
            trot_cycle_s: None,
            step_length_m: None,
        }
    }
}

impl Default for GaitTuning {
    fn default() -> (r: GaitTuning)
        ensures
            r == GaitTuning::default_spec(),
    {
        GaitTuning {
            knee_pattern: KneeShape::BothBack,
            stance_height_m: Scalar::from_bits(0x3fc9_9999_9999_999a),
            swing_height_m: Scalar::from_bits(0x3f9e_b851_eb85_1eb8),
            max_vx_m_s: Scalar::from_bits(0x3fc3_3333_3333_3333),
            max_vy_m_s: Scalar::from_bits(0x3fb4_7ae1_47ae_147b),
            max_wz_rad_s: Scalar::from_bits(0x3fe3_3333_3333_3333),
            height_range_m: Scalar::from_bits(0x3fa4_7ae1_47ae_147b),
            mpc_dt_per_step: Scalar::from_bits(0x3f9e_b851_eb85_1eb8),
            mpc_capture_point_gain_s: Scalar::from_bits(0x3fa9_9999_9999_999a),
            velocity_ramp_s: Scalar::from_bits(0x3fe0_0000_0000_0000),
            velocity_ramp_stop_s: Scalar::from_bits(0x3fc3_3333_3333_3333),
            stop_settle_s: Scalar::from_bits(0x3fd0_0000_0000_0000),
            body_attitude_max_rad: Scalar::from_bits(0x0000_0000_0000_0000),
            body_attitude_tau_s: Scalar::from_bits(0x3fc3_3333_3333_3333),
            crawl_use_linear: false,
            controller: GaitControllerKind::Auto,
            mpc_horizon_steps: 10,
            mpc_observe_pose: true,
            mpc_observe_velocity: true,
            estimator_use_measured_contact: false,
            estimator: EstimatorKind::LegOdometry,
            crawl_cycle_s: None,
            walk_cycle_s: None,
            trot_cycle_s: None,
            step_length_m: None,
        }
    }
}

/// What is wrong with the whole-body controller's settings.
#[derive(Clone, Copy, Debug, PartialEq, Eq, Structural)]
pub enum WbcError {
    Friction,
    MinForce,
    JointAccel,
    BaseAccel,
    Smoothing,
    TorqueScale,
    Mass,
    VelocityTrack,
}

impl WbcError {
    pub open spec fn message_spec(self) -> Seq<char> {
        match self {
            WbcError::Friction => "wbc.friction_mu は正の値が必要です"@,
            WbcError::MinForce => "wbc.f_min_stance_n は 0 以上が必要です"@,
            WbcError::JointAccel => "wbc.max_joint_accel は 0 以上が必要です"@,
            WbcError::BaseAccel => "wbc.max_base_accel_* は 0 以上が必要です"@,
            WbcError::Smoothing => "wbc.grf_smoothing は 0〜1 が必要です"@,
            WbcError::TorqueScale => "wbc.torque_scale は正の値が必要です"@,
            WbcError::Mass => "wbc.mass_kg は 0 以上が必要です（0 ならモデルから取ります）"@,
            WbcError::VelocityTrack => "wbc.velocity_track_kp は 0 以上が必要です"@,
        }
    }

    pub fn message(self) -> (r: &'static str)
        ensures
            r@ == self.message_spec(),
    {
        match self {
            WbcError::Friction => "wbc.friction_mu は正の値が必要です",
            WbcError::MinForce => "wbc.f_min_stance_n は 0 以上が必要です",
            WbcError::JointAccel => "wbc.max_joint_accel は 0 以上が必要です",
            WbcError::BaseAccel => "wbc.max_base_accel_* は 0 以上が必要です",
            WbcError::Smoothing => "wbc.grf_smoothing は 0〜1 が必要です",
            WbcError::TorqueScale => "wbc.torque_scale は正の値が必要です",
            WbcError::Mass => "wbc.mass_kg は 0 以上が必要です（0 ならモデルから取ります）",
            WbcError::VelocityTrack => "wbc.velocity_track_kp は 0 以上が必要です",
        }
    }
}

/// One.
pub const ONE: u64 = 0x3ff0_0000_0000_0000;

pub open spec fn below_zero(x: Scalar) -> bool {
    x.lt_num(Scalar::zero_spec())
}

pub open spec fn zero_or_below(x: Scalar) -> bool {
    x.le_num(Scalar::zero_spec())
}

impl WbcConfig {
    /// The first thing wrong, in a fixed order. Nothing is while it is off.
    pub open spec fn error(self) -> Option<WbcError> {
        if !self.enabled {
            None
        } else if zero_or_below(self.friction_mu) {
            Some(WbcError::Friction)
        } else if below_zero(self.f_min_stance_n) {
            Some(WbcError::MinForce)
        } else if below_zero(self.max_joint_accel) {
            Some(WbcError::JointAccel)
        } else if below_zero(self.max_base_accel_lin) || below_zero(self.max_base_accel_ang) {
            Some(WbcError::BaseAccel)
        } else if !(Scalar::zero_spec().le_num(self.grf_smoothing) && self.grf_smoothing.le_num(
            Scalar { bits: ONE },
        )) {
            Some(WbcError::Smoothing)
        } else if zero_or_below(self.torque_scale) {
            Some(WbcError::TorqueScale)
        } else if below_zero(self.mass_kg) {
            Some(WbcError::Mass)
        } else if below_zero(self.velocity_track_kp) {
            Some(WbcError::VelocityTrack)
        } else {
            None
        }
    }

    pub fn validate(&self) -> (r: Result<(), WbcError>)
        ensures
            match r {
                Ok(()) => self.error() is None,
                Err(e) => self.error() == Some(e),
            },
    {
        let zero = Scalar::zero();
        if !self.enabled {
            return Ok(());
        }
        if self.friction_mu.at_most(zero) {
            return Err(WbcError::Friction);
        }
        if self.f_min_stance_n.less(zero) {
            return Err(WbcError::MinForce);
        }
        if self.max_joint_accel.less(zero) {
            return Err(WbcError::JointAccel);
        }
        if self.max_base_accel_lin.less(zero) || self.max_base_accel_ang.less(zero) {
            return Err(WbcError::BaseAccel);
        }
        if !(zero.at_most(self.grf_smoothing) && self.grf_smoothing.at_most(Scalar::from_bits(ONE))) {
            return Err(WbcError::Smoothing);
        }
        if self.torque_scale.at_most(zero) {
            return Err(WbcError::TorqueScale);
        }
        if self.mass_kg.less(zero) {
            return Err(WbcError::Mass);
        }
        if self.velocity_track_kp.less(zero) {
            return Err(WbcError::VelocityTrack);
        }
        Ok(())
    }

    /// The torque limit of an axis: the model's, scaled, but no more than the
    /// absolute limit; zero where there is neither. `scaled` is the model's
    /// limit times [`WbcConfig::torque_scale`].
    pub open spec fn ceiling(self, scaled: Scalar) -> Scalar {
        if scaled.positive() && self.max_torque_nm.positive() {
            if scaled.lt_num(self.max_torque_nm) {
                scaled
            } else {
                self.max_torque_nm
            }
        } else if scaled.positive() {
            scaled
        } else if self.max_torque_nm.positive() {
            self.max_torque_nm
        } else {
            Scalar::zero_spec()
        }
    }

    pub fn torque_ceiling(&self, scaled: Scalar) -> (r: Scalar)
        ensures
            r == self.ceiling(scaled),
    {
        if scaled.is_positive() {
            if self.max_torque_nm.is_positive() {
                if scaled.less(self.max_torque_nm) {
                    scaled
                } else {
                    self.max_torque_nm
                }
            } else {
                scaled
            }
        } else if self.max_torque_nm.is_positive() {
            self.max_torque_nm
        } else {
            Scalar::zero()
        }
    }
}

/// The control loop as a whole.
#[derive(Clone, Debug, PartialEq, Eq)]
pub struct ControlConfig {
    /// The robot model's path.
    pub model: String,
    /// Where a simulation starts from.
    pub rest_pose: Option<String>,
    pub rate_hz: Scalar,
    /// Time of a transition between poses.
    pub transition_s: Scalar,
    /// The pose to hold before walking.
    pub start_pose: String,
    /// Take the posture at the first start after power-on as the origin.
    pub zero_multiturn_on_boot: bool,
    /// The pose from which the leg kinematics are measured.
    pub kinematics_pose: String,
    pub teleop_timeout_ms: u64,
    /// Tilt to report; derived from the attitude limit where not given.
    pub max_tilt_rad: Option<Scalar>,
}

pub fn default_robot_name() -> (r: String)
    ensures
        r@ == "robot"@,
{
    "robot".to_owned()
}

pub fn default_model_path() -> (r: String)
    ensures
        r@ == "models/namiashi/namiashi.misa"@,
{
    "models/namiashi/namiashi.misa".to_owned()
}

pub fn default_start_pose() -> (r: String)
    ensures
        r@ == "constrain"@,
{
    "constrain".to_owned()
}

pub fn default_kinematics_pose() -> (r: String)
    ensures
        r@ == "extend"@,
{
    "extend".to_owned()
}

pub fn default_teleop_timeout_ms() -> (r: u64)
    ensures
        r == 100,
{
    100
}

pub fn default_greeting() -> (r: String)
    ensures
        r@ == "greeting"@,
{
    "greeting".to_owned()
}

pub fn default_greeting_alt() -> (r: String)
    ensures
        r@.len() == 0,
{
    String::new()
}

impl Default for ControlConfig {
    fn default() -> (r: ControlConfig)
        ensures
            r.model@ == "models/namiashi/namiashi.misa"@,
            r.rest_pose is None,
            r.rate_hz == (Scalar { bits: 0x4069_0000_0000_0000 }),
            r.transition_s == (Scalar { bits: 0x3ff8_0000_0000_0000 }),
            r.start_pose@ == "constrain"@,
            !r.zero_multiturn_on_boot,
            r.kinematics_pose@ == "extend"@,
            r.teleop_timeout_ms == 100,
            r.max_tilt_rad is None,
    {
        ControlConfig {
            model: default_model_path(),
            rest_pose: None,
            rate_hz: Scalar::from_bits(0x4069_0000_0000_0000),
            transition_s: Scalar::from_bits(0x3ff8_0000_0000_0000),
            start_pose: default_start_pose(),
            zero_multiturn_on_boot: false,
            kinematics_pose: default_kinematics_pose(),
            teleop_timeout_ms: default_teleop_timeout_ms(),
            max_tilt_rad: None,
        }
    }
}

/// Playing poses, and stabilising the head.
#[derive(Clone, Debug, PartialEq, Eq)]
pub struct PoseConfig {
    pub greeting: String,
    /// The other greeting; empty where there is none.
    pub greeting_alt: String,
    pub chicken_head_base_rad: Scalar,
    pub chicken_head_gain: Scalar,
    pub chicken_head_tau_s: Scalar,
}

impl Default for PoseConfig {
    fn default() -> (r: PoseConfig)
        ensures
            r.greeting@ == "greeting"@,
            r.greeting_alt@.len() == 0,
            r.chicken_head_base_rad == Scalar::zero_spec(),
            r.chicken_head_gain == (Scalar { bits: ONE }),
            r.chicken_head_tau_s == (Scalar { bits: 0x3fa9_9999_9999_999a }),
    {
        PoseConfig {
            greeting: default_greeting(),
            greeting_alt: default_greeting_alt(),
            chicken_head_base_rad: Scalar::zero(),
            chicken_head_gain: Scalar::from_bits(ONE),
            chicken_head_tau_s: Scalar::from_bits(0x3fa9_9999_9999_999a),
        }
    }
}

impl PoseConfig {
    /// The pose to play: the other greeting where it is asked for and there is
    /// one.
    pub fn pose_to_play(&self, alt: bool) -> (r: &str)
        ensures
            r@ == (if alt && self.greeting_alt@.len() > 0 { self.greeting_alt@ } else { self.greeting@ }),
    {
        if alt && !self.greeting_alt.as_str().is_empty() {
            self.greeting_alt.as_str()
        } else {
            self.greeting.as_str()
        }
    }
}

/// A robot's profile, apart from its wiring and its transmitter.
#[derive(Clone, Debug, PartialEq, Eq)]
pub struct AppConfig {
    /// The robot's name. It becomes part of file names.
    pub name: String,
    pub control: ControlConfig,
    pub gait: GaitTuning,
    pub poses: PoseConfig,
    pub wbc: WbcConfig,
    pub aux: Vec<AuxAxis>,
}

/// What is wrong with a profile.
pub enum ConfigError {
    EmptyName,
    /// The name holds a character that must not be in a file name.
    NameCharacters,
    /// The wiring is wrong; the text says how.
    Hardware(String),
    Rate,
    /// The control rate is above that of the motor bus.
    RateAboveBus,
    TwoHeads(usize),
    /// The transmitter's settings are wrong; the text says how.
    Teleop(String),
    Wbc(WbcError),
    GaitSpeed,
    NegativeTilt,
    /// The tilt to report is inside the tilt that is commanded.
    TiltInsideAttitude,
}

/// A character that may stand in a robot's name.
pub open spec fn name_char(c: char) -> bool {
    ('a' <= c <= 'z') || ('A' <= c <= 'Z') || ('0' <= c <= '9') || c == '-' || c == '_'
}

pub open spec fn name_chars(name: Seq<char>) -> bool {
    forall|i: int| 0 <= i < name.len() ==> name_char(#[trigger] name[i])
}

/// How many of the first `n` auxiliary axes are heads.
pub open spec fn head_count(aux: Seq<AuxAxis>, n: int) -> int
    decreases n,
{
    if n <= 0 {
        0
    } else {
        head_count(aux, n - 1) + (if aux[n - 1].role is Head { 1int } else { 0 })
    }
}

impl AppConfig {
    /// `e` is the first thing wrong with the profile, in a fixed order.
    /// `hardware` and `teleop` are the complaints about the wiring and the
    /// transmitter, `bus_hz` the rate of the motor bus where there is one.
    pub open spec fn has_error(
        &self,
        hardware: Option<String>,
        bus_hz: Option<Scalar>,
        teleop: Option<String>,
        e: Option<ConfigError>,
    ) -> bool {
        let heads = head_count(self.aux@, self.aux@.len() as int);
        let tilt = self.control.max_tilt_rad;
        if self.name@.len() == 0 {
            e == Some(ConfigError::EmptyName)
        } else if !name_chars(self.name@) {
            e == Some(ConfigError::NameCharacters)
        } else if hardware is Some {
            e == Some(ConfigError::Hardware(hardware->0))
        } else if zero_or_below(self.control.rate_hz) {
            e == Some(ConfigError::Rate)
        } else if bus_hz is Some && bus_hz->0.lt_num(self.control.rate_hz) {
            e == Some(ConfigError::RateAboveBus)
        } else if heads > 1 {
            e == Some(ConfigError::TwoHeads(heads as usize))
        } else if teleop is Some {
            e == Some(ConfigError::Teleop(teleop->0))
        } else if self.wbc.error() is Some {
            e == Some(ConfigError::Wbc(self.wbc.error()->0))
        } else if zero_or_below(self.gait.max_vx_m_s) || zero_or_below(self.gait.max_vy_m_s) || zero_or_below(
            self.gait.max_wz_rad_s,
        ) {
            e == Some(ConfigError::GaitSpeed)
        } else if tilt is Some && below_zero(tilt->0) {
            e == Some(ConfigError::NegativeTilt)
        } else if tilt is Some && tilt->0.positive() && tilt->0.le_num(self.gait.body_attitude_max_rad) {
            e == Some(ConfigError::TiltInsideAttitude)
        } else {
            e is None
        }
    }

    /// Checks a profile.
    pub fn validate(
        &self,
        hardware: Option<String>,
        bus_hz: Option<Scalar>,
        teleop: Option<String>,
    ) -> (r: Result<(), ConfigError>)
        ensures
            match r {
                Ok(()) => self.has_error(hardware, bus_hz, teleop, None),
                Err(e) => self.has_error(hardware, bus_hz, teleop, Some(e)),
            },
    {
        let zero = Scalar::zero();
        if self.name.as_str().is_empty() {
            return Err(ConfigError::EmptyName);
        }
        if !self.name_is_safe() {
            return Err(ConfigError::NameCharacters);
        }
        if let Some(e) = hardware {
            return Err(ConfigError::Hardware(e));
        }
        if self.control.rate_hz.at_most(zero) {
            return Err(ConfigError::Rate);
        }
        if let Some(bus) = bus_hz {
            if bus.less(self.control.rate_hz) {
                return Err(ConfigError::RateAboveBus);
            }
        }
        let heads: usize = self.heads();
        if heads > 1 {
            return Err(ConfigError::TwoHeads(heads));
        }
        if let Some(e) = teleop {
            return Err(ConfigError::Teleop(e));
        }
        if let Err(e) = self.wbc.validate() {
            return Err(ConfigError::Wbc(e));
        }
        if self.gait.max_vx_m_s.at_most(zero) || self.gait.max_vy_m_s.at_most(zero)
            || self.gait.max_wz_rad_s.at_most(zero) {
            return Err(ConfigError::GaitSpeed);
        }
        if let Some(tilt) = self.control.max_tilt_rad {
            if tilt.less(zero) {
                return Err(ConfigError::NegativeTilt);
            }
            if tilt.is_positive() && tilt.at_most(self.gait.body_attitude_max_rad) {
                return Err(ConfigError::TiltInsideAttitude);
            }
        }
        Ok(())
    }

    fn name_is_safe(&self) -> (r: bool)
        ensures
            r == name_chars(self.name@),
    {
        let chars: Vec<char> = chars_of(self.name.as_str());
        let mut i: usize = 0;
        while i < chars.len()
            invariant
                i <= chars@.len(),
                chars@ == self.name@,
                forall|k: int| 0 <= k < i ==> name_char(#[trigger] chars@[k]),
            decreases chars@.len() - i,
        {
            let c: char = chars[i];
            let ok: bool = ('a' <= c && c <= 'z') || ('A' <= c && c <= 'Z') || ('0' <= c && c <= '9') || c
                == '-' || c == '_';
            if !ok {
                return false;
            }
            i += 1;
        }
        true
    }

    fn heads(&self) -> (r: usize)
        ensures
            r == head_count(self.aux@, self.aux@.len() as int),
    {
        let mut n: usize = 0;
        let mut i: usize = 0;
        while i < self.aux.len()
            invariant
                i <= self.aux@.len(),
                n == head_count(self.aux@, i as int),
                n <= i,
            decreases self.aux@.len() - i,
        {
            if self.aux[i].role == AuxRole::Head {
                n += 1;
            }
            i += 1;
        }
        n
    }

    /// The tilt to report: as given, else the attitude limit plus a margin, but
    /// no less than half a radian. `raised` is the attitude limit plus 0.3.
    pub open spec fn tilt_limit(&self, raised: Scalar) -> Scalar {
        match self.control.max_tilt_rad {
            Some(v) => v,
            None => if (Scalar { bits: HALF }).lt_num(raised) {
                raised
            } else {
                Scalar { bits: HALF }
            },
        }
    }

    pub fn max_tilt_rad(&self, raised: Scalar) -> (r: Scalar)
        ensures
            r == self.tilt_limit(raised),
    {
        match self.control.max_tilt_rad {
            Some(v) => v,
            None => {
                let half = Scalar::from_bits(HALF);
                if half.less(raised) {
                    raised
                } else {
                    half
                }
            },
        }
    }
}

/// One half.
pub const HALF: u64 = 0x3fe0_0000_0000_0000;

impl ConfigError {
    /// The complaint. `name` is the robot's name; `first` and `second` are the
    /// two numbers that two of the complaints quote, as text: the control and
    /// the bus rate, or the tilt and the attitude limit.
    pub open spec fn message_spec(&self, name: Seq<char>, first: Seq<char>, second: Seq<char>) -> Seq<char> {
        match *self {
            ConfigError::EmptyName => "name が空です。ロボット名を書いてください"@,
            ConfigError::NameCharacters => "name "@ + text::debug_quoted(name)
                + " に使えない文字があります。英数字と - _ だけにしてください（実行時のパスに入るため）"@,
            ConfigError::Hardware(e) => e@,
            ConfigError::Rate => "control.rate_hz は正の値が必要です"@,
            ConfigError::RateAboveBus => "control.rate_hz ("@ + first + ") が legs.bus_rate_hz ("@ + second
                + ") を超えています。バスが追いつかないので制御周期を落とすか、バス周期を上げてください"@,
            ConfigError::TwoHeads(n) => "role = \"head\" の補助軸が "@ + text::decimal(n as nat)
                + " 本あります。1 本までです"@,
            ConfigError::Teleop(e) => e@,
            ConfigError::Wbc(e) => e.message_spec(),
            ConfigError::GaitSpeed => "gait の速度上限は正の値が必要です"@,
            ConfigError::NegativeTilt => "control.max_tilt_rad は 0 以上（0 で無効）"@,
            ConfigError::TiltInsideAttitude => "control.max_tilt_rad ("@ + first
                + ") が gait.body_attitude_max_rad ("@ + second
                + ") 以下です。指令どおり傾けただけで転倒と報告されるので、姿勢の上限より大きく取ってください"@,
        }
    }

    pub fn message(&self, name: &str, first: &str, second: &str) -> (r: String)
        ensures
            r@ == self.message_spec(name@, first@, second@),
    {
        match self {
            ConfigError::EmptyName => "name が空です。ロボット名を書いてください".to_owned(),
            ConfigError::NameCharacters => {
                let mut out: String = "name ".to_owned();
                let shown: String = quoted(name);
                out.append(shown.as_str());
                out.append(
                    " に使えない文字があります。英数字と - _ だけにしてください（実行時のパスに入るため）",
                );
                out
            },
            ConfigError::Hardware(e) => e.as_str().to_owned(),
            ConfigError::Rate => "control.rate_hz は正の値が必要です".to_owned(),
            ConfigError::RateAboveBus => {
                let mut out: String = "control.rate_hz (".to_owned();
                out.append(first);
                out.append(") が legs.bus_rate_hz (");
                out.append(second);
                out.append(
                    ") を超えています。バスが追いつかないので制御周期を落とすか、バス周期を上げてください",
                );
                out
            },
            ConfigError::TwoHeads(n) => {
                let mut out: String = "role = \"head\" の補助軸が ".to_owned();
                push_decimal(&mut out, *n as u64);
                out.append(" 本あります。1 本までです");
                out
            },
            ConfigError::Teleop(e) => e.as_str().to_owned(),
            ConfigError::Wbc(e) => e.message().to_owned(),
            ConfigError::GaitSpeed => "gait の速度上限は正の値が必要です".to_owned(),
            ConfigError::NegativeTilt => "control.max_tilt_rad は 0 以上（0 で無効）".to_owned(),
            ConfigError::TiltInsideAttitude => {
                let mut out: String = "control.max_tilt_rad (".to_owned();
                out.append(first);
                out.append(") が gait.body_attitude_max_rad (");
                out.append(second);
                out.append(
                    ") 以下です。指令どおり傾けただけで転倒と報告されるので、姿勢の上限より大きく取ってください",
                );
                out
            },
        }
    }
}

/// The name of the arm's joint, which a profile has unless it lists its own
/// auxiliary axes.
pub fn default_aux_axes(arm_joint: &str) -> (r: Vec<AuxAxis>)
    ensures
        r@.len() == 1,
        r@[0].joint@ == arm_joint@,
        r@[0].role is Head,
{
    let mut out: Vec<AuxAxis> = Vec::new();
    out.push(AuxAxis { joint: arm_joint.to_owned(), role: AuxRole::Head });
    out
}

impl AppConfig {
    /// The built-in profile, for a robot whose arm joint has that name.
    pub fn with_arm_joint(arm_joint: &str) -> (r: AppConfig)
        ensures
            r.name@ == "robot"@,
            call_ensures(ControlConfig::default, (), r.control),
            r.gait == GaitTuning::default_spec(),
            call_ensures(PoseConfig::default, (), r.poses),
            r.wbc == WbcConfig::default_spec(),
            r.aux@.len() == 1,
            r.aux@[0].joint@ == arm_joint@,
            r.aux@[0].role is Head,
            r.has_error(None, None, None, None),
    {
        proof {
            reveal_strlit("robot");
        }
        let r = AppConfig {
            name: default_robot_name(),
            control: ControlConfig::default(),
            gait: GaitTuning::default(),
            poses: PoseConfig::default(),
            wbc: WbcConfig::default(),
            aux: default_aux_axes(arm_joint),
        };
        assert(head_count(r.aux@, 0) == 0);
        assert(head_count(r.aux@, 1) == 1);
        r
    }
}

/// The top-level keys of a TOML document, in the table's own order; `None`
/// where the text is not TOML.
pub uninterp spec fn toml_keys(text: Seq<char>) -> Option<Seq<Seq<char>>>;

#[verifier::external_type_specification]
#[verifier::external_body]
pub struct ExTomlError(toml::de::Error);

/// The keys of the table that `toml::from_str` makes of a text. The contract
/// claims that they, and whether there are any, are a function of the text.
#[verifier::external_body]
fn top_level_keys(text: &str) -> (r: Result<Vec<String>, toml::de::Error>)
    ensures
        match r {
            Ok(keys) => toml_keys(text@) == Some(text::words(keys@)),
            Err(_) => toml_keys(text@) is None,
        },
{
    let table: toml::Table = toml::from_str(text)?;
    Ok(table.keys().cloned().collect())
}

/// Why a text is not taken for a profile.
#[derive(Clone, Copy, Debug, PartialEq, Eq, Structural)]
pub enum NotAProfile {
    /// It has no `hardware` table.
    Plain,
    /// It has none, but poses or joints: it is a robot model.
    Model,
}

/// A profile has a `hardware` table. Every setting has a default, so without
/// this any TOML would pass, and an uncalibrated robot would move.
pub open spec fn judge_spec(keys: Seq<Seq<char>>) -> Option<NotAProfile> {
    if keys.contains("hardware"@) {
        None
    } else if keys.contains("pose"@) || keys.contains("joint"@) {
        Some(NotAProfile::Model)
    } else {
        Some(NotAProfile::Plain)
    }
}

fn holds(keys: &Vec<String>, key: &str) -> (r: bool)
    ensures
        r == text::words(keys@).contains(key@),
{
    let mut i: usize = 0;
    while i < keys.len()
        invariant
            i <= keys@.len(),
            forall|k: int| 0 <= k < i ==> #[trigger] text::words(keys@)[k] != key@,
        decreases keys@.len() - i,
    {
        assert(text::words(keys@)[i as int] == keys@[i as int]@);
        if same(keys[i].as_str(), key) {
            return true;
        }
        i += 1;
    }
    false
}

/// Judges a document by its top-level keys.
pub fn judge_keys(keys: &Vec<String>) -> (r: Option<NotAProfile>)
    ensures
        r == judge_spec(text::words(keys@)),
{
    if holds(keys, "hardware") {
        None
    } else if holds(keys, "pose") || holds(keys, "joint") {
        Some(NotAProfile::Model)
    } else {
        Some(NotAProfile::Plain)
    }
}

/// What a text turned out to be.
pub enum ProfileText {
    /// TOML with a `hardware` table.
    Profile,
    /// TOML, but no profile.
    Refused(NotAProfile),
    /// Not TOML.
    Malformed(toml::de::Error),
}

/// Whether a text is a profile.
pub fn inspect_profile(text: &str) -> (r: ProfileText)
    ensures
        match toml_keys(text@) {
            None => r is Malformed,
            Some(keys) => match judge_spec(keys) {
                None => r is Profile,
                Some(why) => r == ProfileText::Refused(why),
            },
        },
{
    match top_level_keys(text) {
        Err(e) => ProfileText::Malformed(e),
        Ok(keys) => match judge_keys(&keys) {
            None => ProfileText::Profile,
            Some(why) => ProfileText::Refused(why),
        },
    }
}

impl NotAProfile {
    pub open spec fn message_spec(self) -> Seq<char> {
        "設定ファイルに [hardware] がありません"@ + (match self {
            NotAProfile::Model => "（`[[pose]]` があります — **モデルファイルを渡していませんか**）"@,
            NotAProfile::Plain => ""@,
        }) + "。既定値で走らせたいなら --config を付けないでください"@
    }

    pub fn message(self) -> (r: String)
        ensures
            r@ == self.message_spec(),
    {
        let mut out: String = "設定ファイルに [hardware] がありません".to_owned();
        match self {
            NotAProfile::Model => {
                out.append("（`[[pose]]` があります — **モデルファイルを渡していませんか**）");
            },
            NotAProfile::Plain => {
                out.append("");
            },
        }
        out.append("。既定値で走らせたいなら --config を付けないでください");
        out
    }
}

/// Why a torque command would go out in the wrong unit: a serial robot without
/// a torque constant takes the number for a current.
pub fn torque_unit_mismatch(serial: bool, has_torque_constant: bool) -> (r: Option<&'static str>)
    ensures
        serial && !has_torque_constant ==> r is Some && r->0@
            == "[hardware.legs] に torque_constant_nm_per_a がないので、トルク指令は N·m ではなく電流 (A) として線に乗ります"@,
        !(serial && !has_torque_constant) ==> r is None,
{
    if serial && !has_torque_constant {
        Some(
            "[hardware.legs] に torque_constant_nm_per_a がないので、トルク指令は N·m ではなく電流 (A) として線に乗ります",
        )
    } else {
        None
    }
}

/// An accepted name holds no path separator and no dot, so it cannot lead
/// out of its directory.
pub proof fn an_accepted_name_stays_in_its_directory(
    cfg: AppConfig,
    hardware: Option<String>,
    bus_hz: Option<Scalar>,
    teleop: Option<String>,
)
    requires
        cfg.has_error(hardware, bus_hz, teleop, None),
    ensures
        cfg.name@.len() > 0,
        !cfg.name@.contains('/'),
        !cfg.name@.contains('.'),
{
    assert(name_chars(cfg.name@));
}

/// An accepted tilt limit is off or beyond the commanded tilt, if the derived
/// one is.
pub proof fn an_accepted_tilt_limit_is_beyond_the_command(
    cfg: AppConfig,
    hardware: Option<String>,
    bus_hz: Option<Scalar>,
    teleop: Option<String>,
    raised: Scalar,
)
    requires
        cfg.has_error(hardware, bus_hz, teleop, None),
        cfg.gait.body_attitude_max_rad.lt_num(raised),
        !(match cfg.control.max_tilt_rad {
            Some(v) => v.nan(),
            None => false,
        }),
    ensures
        cfg.tilt_limit(raised).is_zero_num() || cfg.gait.body_attitude_max_rad.lt_num(
            cfg.tilt_limit(raised),
        ),
{
}

/// The torque limit is never above the absolute one, and there is one as soon
/// as the model or the settings give one.
pub proof fn the_torque_ceiling_is_the_smaller_limit(cfg: WbcConfig, scaled: Scalar)
    ensures
        cfg.max_torque_nm.positive() ==> cfg.ceiling(scaled).le_num(cfg.max_torque_nm),
        scaled.positive() ==> cfg.ceiling(scaled).le_num(scaled),
        cfg.ceiling(scaled).positive() <==> scaled.positive() || cfg.max_torque_nm.positive(),
{
}

/// Which knees bend forward: none, the rear ones, the front ones, or all.
pub proof fn knee_shapes_say_which_knees_bend_forward(slot: int)
    requires
        0 <= slot < 4,
    ensures
        !KneeShape::BothBack.forward_spec(slot),
        KneeShape::BothForward.forward_spec(slot),
        KneeShape::MammalianForward.forward_spec(slot) <==> slot == 2 || slot == 3,
        KneeShape::MammalianReverse.forward_spec(slot) <==> slot == 0 || slot == 1,
{
}

/// Each name stands for one kind of controller, and no other text for any.
pub proof fn a_controller_is_known_by_its_names(s: Seq<char>)
    ensures
        ({
            let k = GaitControllerKind::parse_spec(s);
            &&& k == Some(GaitControllerKind::Auto) <==> s == "auto"@
            &&& k == Some(GaitControllerKind::Champ) <==> s == "champ"@
            &&& k == Some(GaitControllerKind::LinearCrawl) <==> s == "linear_crawl"@ || s == "linear"@
            &&& k == Some(GaitControllerKind::Mpc) <==> s == "mpc"@ || s == "srbd"@
            &&& k == Some(GaitControllerKind::Centroidal) <==> s == "centroidal"@
        }),
        forall|kind: GaitControllerKind| #[trigger]
            kind.has_mpc_spec() <==> kind == GaitControllerKind::Mpc || kind
                == GaitControllerKind::Centroidal,
{
    reveal_strlit("auto");
    reveal_strlit("champ");
    reveal_strlit("linear_crawl");
    reveal_strlit("linear");
    reveal_strlit("mpc");
    reveal_strlit("srbd");
    reveal_strlit("centroidal");
    assert("auto"@.len() == 4 && "champ"@.len() == 5 && "linear_crawl"@.len() == 12 && "linear"@.len() == 6
        && "mpc"@.len() == 3 && "srbd"@.len() == 4 && "centroidal"@.len() == 10);
    assert("auto"@[0] == 'a' && "srbd"@[0] == 's');
}

/// Each name stands for one output, and no other text for any.
pub proof fn an_output_is_known_by_its_names(s: Seq<char>)
    ensures
        ({
            let k = WbcOutput::parse_spec(s);
            &&& k == Some(WbcOutput::Torque) <==> s == "torque"@ || s == "trq"@
            &&& k == Some(WbcOutput::Velocity) <==> s == "velocity"@ || s == "vel"@
            &&& k == Some(WbcOutput::Position) <==> s == "position"@ || s == "pos"@
        }),
{
    reveal_strlit("torque");
    reveal_strlit("trq");
    reveal_strlit("velocity");
    reveal_strlit("vel");
    reveal_strlit("position");
    reveal_strlit("pos");
    assert("torque"@.len() == 6 && "trq"@.len() == 3 && "velocity"@.len() == 8 && "vel"@.len() == 3
        && "position"@.len() == 8 && "pos"@.len() == 3);
    assert("trq"@[0] == 't' && "vel"@[0] == 'v' && "pos"@[0] == 'p' && "velocity"@[0] == 'v'
        && "position"@[0] == 'p');
}

/// The whole-body controller's settings are accepted exactly when it is off, or
/// every one of them is where it has to be; a complaint is always true.
#[verifier::spinoff_prover]
pub proof fn accepted_wbc_settings_are_sound(c: WbcConfig)
    requires
        !c.friction_mu.nan() && !c.torque_scale.nan() && !c.f_min_stance_n.nan()
            && !c.max_joint_accel.nan() && !c.max_base_accel_lin.nan() && !c.max_base_accel_ang.nan()
            && !c.mass_kg.nan() && !c.velocity_track_kp.nan(),
    ensures
        ({
            let zero = Scalar::zero_spec();
            let one = Scalar { bits: 0x3ff0_0000_0000_0000 };
            let smooth = zero.le_num(c.grf_smoothing) && c.grf_smoothing.le_num(one);
            let base = zero.le_num(c.max_base_accel_lin) && zero.le_num(c.max_base_accel_ang);
            &&& c.error() is None <==> !c.enabled || (c.friction_mu.positive() && zero.le_num(
                c.f_min_stance_n,
            ) && zero.le_num(c.max_joint_accel) && base && smooth && c.torque_scale.positive()
                && zero.le_num(c.mass_kg) && zero.le_num(c.velocity_track_kp))
            &&& c.error() == Some(WbcError::Friction) ==> c.friction_mu.le_num(zero)
            &&& c.error() == Some(WbcError::MinForce) ==> c.f_min_stance_n.lt_num(zero)
            &&& c.error() == Some(WbcError::JointAccel) ==> c.max_joint_accel.lt_num(zero)
            &&& c.error() == Some(WbcError::BaseAccel) ==> !base
            &&& c.error() == Some(WbcError::Smoothing) ==> !smooth
            &&& c.error() == Some(WbcError::TorqueScale) ==> c.torque_scale.le_num(zero)
            &&& c.error() == Some(WbcError::Mass) ==> c.mass_kg.lt_num(zero)
            &&& c.error() == Some(WbcError::VelocityTrack) ==> c.velocity_track_kp.lt_num(zero)
        }),
{
}

/// The torque limit is the smaller of the two where both are given, the one that
/// is given where only one is, and none where neither is.
pub proof fn the_torque_ceiling_takes_what_is_given(c: WbcConfig, scaled: Scalar)
    ensures
        scaled.positive() && !c.max_torque_nm.positive() ==> c.ceiling(scaled) == scaled,
        !scaled.positive() && c.max_torque_nm.positive() ==> c.ceiling(scaled) == c.max_torque_nm,
        !scaled.positive() && !c.max_torque_nm.positive() ==> c.ceiling(scaled) == Scalar::zero_spec(),
        scaled.positive() && c.max_torque_nm.positive() ==> c.ceiling(scaled).le_num(scaled)
            && c.ceiling(scaled).le_num(c.max_torque_nm) && (c.ceiling(scaled) == scaled || c.ceiling(scaled)
            == c.max_torque_nm),
{
}

/// A profile is accepted exactly when everything about it is right: its name can
/// be part of a path, the wiring and the transmitter have no complaint, its rate
/// is positive and within the bus's, it has at most one head, its whole-body
/// settings are sound, its speed limits are positive, and its tilt to report is
/// off, or not negative and beyond the tilt that may be commanded.
#[verifier::spinoff_prover]
#[verifier::rlimit(40)]
pub proof fn an_accepted_profile_is_right_in_everything(
    c: AppConfig,
    hardware: Option<String>,
    bus_hz: Option<Scalar>,
    teleop: Option<String>,
)
    ensures
        ({
            let zero = Scalar::zero_spec();
            let g = c.gait;
            let letters = forall|i: int|
                0 <= i < c.name@.len() ==> ({
                    let x = #[trigger] c.name@[i];
                    ('a' <= x <= 'z') || ('A' <= x <= 'Z') || ('0' <= x <= '9') || x == '-' || x == '_'
                });
            let rate = !c.control.rate_hz.le_num(zero) && (bus_hz is Some ==> !bus_hz->0.lt_num(
                c.control.rate_hz,
            ));
            let speeds = !g.max_vx_m_s.le_num(zero) && !g.max_vy_m_s.le_num(zero)
                && !g.max_wz_rad_s.le_num(zero);
            let tilt = match c.control.max_tilt_rad {
                Some(t) => !t.lt_num(zero) && !(t.positive() && t.le_num(g.body_attitude_max_rad)),
                None => true,
            };
            c.has_error(hardware, bus_hz, teleop, None) <==> c.name@.len() > 0 && letters && hardware is None
                && rate && head_count(c.aux@, c.aux@.len() as int) <= 1 && teleop is None
                && c.wbc.error() is None && speeds && tilt
        }),
{
    assert(name_chars(c.name@) <==> forall|i: int|
        0 <= i < c.name@.len() ==> ({
            let x = #[trigger] c.name@[i];
            ('a' <= x <= 'z') || ('A' <= x <= 'Z') || ('0' <= x <= '9') || x == '-' || x == '_'
        }));
}

/// A complaint about a profile is true of it, and a profile has one complaint.
#[verifier::spinoff_prover]
#[verifier::rlimit(40)]
pub proof fn a_complaint_about_a_profile_is_true(
    c: AppConfig,
    hardware: Option<String>,
    bus_hz: Option<Scalar>,
    teleop: Option<String>,
    e: ConfigError,
)
    requires
        c.has_error(hardware, bus_hz, teleop, Some(e)),
    ensures
        ({
            let zero = Scalar::zero_spec();
            let g = c.gait;
            match e {
                ConfigError::EmptyName => c.name@.len() == 0,
                ConfigError::NameCharacters => !name_chars(c.name@),
                ConfigError::Hardware(t) => hardware == Some(t),
                ConfigError::Rate => c.control.rate_hz.le_num(zero),
                ConfigError::RateAboveBus => bus_hz is Some && bus_hz->0.lt_num(c.control.rate_hz),
                ConfigError::TwoHeads(n) => head_count(c.aux@, c.aux@.len() as int) > 1,
                ConfigError::Teleop(t) => teleop == Some(t),
                ConfigError::Wbc(w) => c.wbc.error() == Some(w),
                ConfigError::GaitSpeed => g.max_vx_m_s.le_num(zero) || g.max_vy_m_s.le_num(zero)
                    || g.max_wz_rad_s.le_num(zero),
                ConfigError::NegativeTilt => c.control.max_tilt_rad is Some
                    && c.control.max_tilt_rad->0.lt_num(zero),
                ConfigError::TiltInsideAttitude => c.control.max_tilt_rad is Some
                    && c.control.max_tilt_rad->0.le_num(g.body_attitude_max_rad),
            }
        }),
        !c.has_error(hardware, bus_hz, teleop, None),
{
}

/// The heads are the auxiliary axes of that role.
pub proof fn heads_are_counted_by_role(aux: Seq<AuxAxis>, n: int)
    requires
        0 <= n <= aux.len(),
    ensures
        head_count(aux, n) == aux.take(n).filter(|a: AuxAxis| a.role == AuxRole::Head).len(),
    decreases n,
{
    reveal(Seq::filter);
    if n > 0 {
        heads_are_counted_by_role(aux, n - 1);
        assert(aux.take(n).drop_last() == aux.take(n - 1));
        assert(aux.take(n).last() == aux[n - 1]);
    }
}

/// The tilt to report is the one that is given; a derived one is half a radian or
/// the raised attitude limit, whichever is larger.
pub proof fn a_given_tilt_limit_wins(c: AppConfig, raised: Scalar)
    ensures
        c.control.max_tilt_rad matches Some(v) ==> c.tilt_limit(raised) == v,
        c.control.max_tilt_rad is None && !raised.nan() ==> ({
            let half = Scalar { bits: 0x3fe0_0000_0000_0000 };
            let t = c.tilt_limit(raised);
            half.le_num(t) && raised.le_num(t) && (t == half || t == raised)
        }),
{
}

/// A document is a profile exactly when it has a `hardware` table; one without it
/// that has poses or joints is a model.
pub proof fn a_profile_has_a_hardware_table(keys: Seq<Seq<char>>)
    ensures
        judge_spec(keys) is None <==> exists|i: int| 0 <= i < keys.len() && #[trigger] keys[i] == "hardware"@,
        judge_spec(keys) == Some(NotAProfile::Model) <==> !keys.contains("hardware"@) && (keys.contains(
            "pose"@,
        ) || keys.contains("joint"@)),
{
}

/// Unless a profile says otherwise the whole-body controller is off, would give
/// positions, sets no torque limit of its own and trusts the planned contacts.
pub proof fn the_whole_body_controller_is_off_by_default()
    ensures
        !WbcConfig::default_spec().enabled,
        WbcConfig::default_spec().output is Position,
        WbcConfig::default_spec().max_torque_nm.is_zero_num(),
        !WbcConfig::default_spec().use_measured_contact,
        WbcConfig::default_spec().friction_mu.positive(),
        WbcConfig::default_spec().swing_kd.lt_num(WbcConfig::default_spec().swing_kp),
        WbcConfig::default_spec().joint_kd.lt_num(WbcConfig::default_spec().joint_kp),
{
}

} // verus!
