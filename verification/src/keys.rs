//! Steering from the keyboard.
//!
//! A terminal reports presses, not releases. So a press moves a value by one
//! step, a held key only keeps the robot going, and a deadman zeroes the
//! velocity when no key comes any more.

use vstd::prelude::*;

use crate::config::{AppConfig, GaitControllerKind, WbcOutput};
use crate::intent;
use crate::intent::{
    GaitControllerRequest, GaitSelect, GaitTune, Intent, ModeRequest, TuneRanges, Velocity, WbcRequest,
};
use crate::robot;
use crate::robot::{base_gait_tune, GaitConfig};
use crate::scalar::Scalar;
use crate::time::{Span, Time};

verus! {

/// Presses from zero to a limit.
pub const STEPS: u8 = 8;

/// The gait parameters that can be changed while walking.
#[derive(Clone, Copy, Debug, PartialEq, Eq, Structural)]
pub enum Knob {
    /// Time of one cycle.
    Cycle,
    /// Height of the swinging foot.
    Swing,
    /// Longest step.
    Step,
    /// Share of the cycle on the ground.
    Duty,
}

impl Knob {
    /// How far one press moves the knob: 0.05, 0.005, 0.01 and 0.02.
    pub open spec fn step_spec(self) -> Scalar {
        match self {
            Knob::Cycle => Scalar { bits: 0x3fa9_9999_9999_999a },
            Knob::Swing => Scalar { bits: 0x3f74_7ae1_47ae_147b },
            Knob::Step => Scalar { bits: 0x3f84_7ae1_47ae_147b },
            Knob::Duty => Scalar { bits: 0x3f94_7ae1_47ae_147b },
        }
    }

    pub fn step(self) -> (r: Scalar)
        ensures
            r == self.step_spec(),
    {
        match self {
            Knob::Cycle => Scalar::from_bits(0x3fa9_9999_9999_999a),
            Knob::Swing => Scalar::from_bits(0x3f74_7ae1_47ae_147b),
            Knob::Step => Scalar::from_bits(0x3f84_7ae1_47ae_147b),
            Knob::Duty => Scalar::from_bits(0x3f94_7ae1_47ae_147b),
        }
    }

    pub open spec fn label_spec(self) -> Seq<char> {
        match self {
            Knob::Cycle => "周期"@,
            Knob::Swing => "遊脚"@,
            Knob::Step => "歩幅"@,
            Knob::Duty => "接地比"@,
        }
    }

    pub fn label(self) -> (r: &'static str)
        ensures
            r@ == self.label_spec(),
    {
        match self {
            Knob::Cycle => "周期",
            Knob::Swing => "遊脚",
            Knob::Step => "歩幅",
            Knob::Duty => "接地比",
        }
    }
}

/// What a press means.
#[derive(Clone, Copy, Debug, PartialEq, Eq, Structural)]
pub enum Key {
    Forward,
    Back,
    Left,
    Right,
    TurnLeft,
    TurnRight,
    Stop,
    Mode(ModeRequest),
    Gait(GaitSelect),
    Higher,
    Lower,
    TiltUp,
    TiltDown,
    TiltLeft,
    TiltRight,
    Level,
    Tune(Knob, i8),
    TuneReset,
    /// Off, position, torque and off again.
    WbcCycle,
    /// Predictive or not.
    ControllerToggle,
    Help,
    Quit,
}

pub open spec fn lower_case(c: u8) -> u8 {
    if 65 <= c <= 90 {
        (c + 32) as u8
    } else {
        c
    }
}

/// The meaning of a lower-case character.
pub open spec fn meaning(c: u8) -> Option<Key> {
    if c == 119 {
        Some(Key::Forward)
    } else if c == 115 {
        Some(Key::Back)
    } else if c == 97 {
        Some(Key::Left)
    } else if c == 100 {
        Some(Key::Right)
    } else if c == 113 {
        Some(Key::TurnLeft)
    } else if c == 101 {
        Some(Key::TurnRight)
    } else if c == 32 {
        Some(Key::Stop)
    } else if c == 48 {
        Some(Key::Mode(ModeRequest::Relax))
    } else if c == 49 {
        Some(Key::Mode(ModeRequest::Stand))
    } else if c == 50 {
        Some(Key::Mode(ModeRequest::Walk))
    } else if c == 122 {
        Some(Key::Gait(GaitSelect::Crawl))
    } else if c == 120 {
        Some(Key::Gait(GaitSelect::Walk))
    } else if c == 99 {
        Some(Key::Gait(GaitSelect::Trot))
    } else if c == 114 {
        Some(Key::Higher)
    } else if c == 102 {
        Some(Key::Lower)
    } else if c == 105 {
        Some(Key::TiltUp)
    } else if c == 107 {
        Some(Key::TiltDown)
    } else if c == 106 {
        Some(Key::TiltLeft)
    } else if c == 108 {
        Some(Key::TiltRight)
    } else if c == 118 {
        Some(Key::Level)
    } else if c == 116 {
        Some(Key::Tune(Knob::Cycle, 1))
    } else if c == 103 {
        Some(Key::Tune(Knob::Cycle, -1i8))
    } else if c == 121 {
        Some(Key::Tune(Knob::Swing, 1))
    } else if c == 98 {
        Some(Key::Tune(Knob::Swing, -1i8))
    } else if c == 117 {
        Some(Key::Tune(Knob::Step, 1))
    } else if c == 110 {
        Some(Key::Tune(Knob::Step, -1i8))
    } else if c == 46 {
        Some(Key::Tune(Knob::Duty, 1))
    } else if c == 44 {
        Some(Key::Tune(Knob::Duty, -1i8))
    } else if c == 109 {
        Some(Key::TuneReset)
    } else if c == 111 {
        Some(Key::WbcCycle)
    } else if c == 112 {
        Some(Key::ControllerToggle)
    } else if c == 104 || c == 63 {
        Some(Key::Help)
    } else if c == 3 || c == 27 {
        Some(Key::Quit)
    } else {
        None
    }
}

/// What a character means. Upper case works too, and Ctrl-C and Escape are
/// caught here because a raw terminal sends no interrupt.
pub fn decode(c: u8) -> (r: Option<Key>)
    ensures
        r == meaning(lower_case(c)),
{
    let c: u8 = if 65 <= c && c <= 90 {
        c + 32
    } else {
        c
    };
    match c {
        119 => Some(Key::Forward),
        115 => Some(Key::Back),
        97 => Some(Key::Left),
        100 => Some(Key::Right),
        113 => Some(Key::TurnLeft),
        101 => Some(Key::TurnRight),
        32 => Some(Key::Stop),
        48 => Some(Key::Mode(ModeRequest::Relax)),
        49 => Some(Key::Mode(ModeRequest::Stand)),
        50 => Some(Key::Mode(ModeRequest::Walk)),
        122 => Some(Key::Gait(GaitSelect::Crawl)),
        120 => Some(Key::Gait(GaitSelect::Walk)),
        99 => Some(Key::Gait(GaitSelect::Trot)),
        114 => Some(Key::Higher),
        102 => Some(Key::Lower),
        105 => Some(Key::TiltUp),
        107 => Some(Key::TiltDown),
        106 => Some(Key::TiltLeft),
        108 => Some(Key::TiltRight),
        118 => Some(Key::Level),
        116 => Some(Key::Tune(Knob::Cycle, 1)),
        103 => Some(Key::Tune(Knob::Cycle, -1)),
        121 => Some(Key::Tune(Knob::Swing, 1)),
        98 => Some(Key::Tune(Knob::Swing, -1)),
        117 => Some(Key::Tune(Knob::Step, 1)),
        110 => Some(Key::Tune(Knob::Step, -1)),
        46 => Some(Key::Tune(Knob::Duty, 1)),
        44 => Some(Key::Tune(Knob::Duty, -1)),
        109 => Some(Key::TuneReset),
        111 => Some(Key::WbcCycle),
        112 => Some(Key::ControllerToggle),
        104 => Some(Key::Help),
        63 => Some(Key::Help),
        3 => Some(Key::Quit),
        27 => Some(Key::Quit),
        _ => None,
    }
}

/// How far the keys reach, and what they start from.
#[derive(Clone, Copy, Debug, PartialEq, Eq)]
pub struct Limits {
    pub max_vx: Scalar,
    pub max_vy: Scalar,
    pub max_wz: Scalar,
    pub height_range: Scalar,
    pub attitude_max: Scalar,
    /// Gait parameters of the profile: crawl, walk, trot.
    pub base_crawl: GaitTune,
    pub base_walk: GaitTune,
    pub base_trot: GaitTune,
    pub tune_ranges: TuneRanges,
    pub wbc_initial: WbcRequest,
    pub controller_initial: GaitControllerRequest,
}

/// A limit is a number that is not negative.
pub open spec fn is_limit(x: Scalar) -> bool {
    Scalar::zero_spec().le_num(x)
}

impl Limits {
    pub open spec fn wf(self) -> bool {
        &&& is_limit(self.max_vx)
        &&& is_limit(self.max_vy)
        &&& is_limit(self.max_wz)
        &&& is_limit(self.height_range)
        &&& self.tune_ranges.ordered()
    }

    pub open spec fn base_spec(self, g: GaitSelect) -> GaitTune {
        match g {
            GaitSelect::Crawl => self.base_crawl,
            GaitSelect::Walk => self.base_walk,
            GaitSelect::Trot => self.base_trot,
        }
    }

    /// What a key holds its value to is a limit, or a range. Most keys hold
    /// nothing.
    pub open spec fn allow(self, key: Key) -> bool {
        match key {
            Key::Forward => is_limit(self.max_vx),
            Key::Back => is_limit(self.max_vx),
            Key::Left => is_limit(self.max_vy),
            Key::Right => is_limit(self.max_vy),
            Key::TurnLeft => is_limit(self.max_wz),
            Key::TurnRight => is_limit(self.max_wz),
            Key::Higher => is_limit(self.height_range),
            Key::Lower => is_limit(self.height_range),
            Key::Tune(_, _) => self.tune_ranges.ordered(),
            _ => true,
        }
    }

    /// Whether a key's value can be held to its limit.
    pub fn allows(&self, key: Key) -> (r: bool)
        ensures
            r == self.allow(key),
    {
        let zero = Scalar::zero();
        match key {
            Key::Forward => zero.at_most(self.max_vx),
            Key::Back => zero.at_most(self.max_vx),
            Key::Left => zero.at_most(self.max_vy),
            Key::Right => zero.at_most(self.max_vy),
            Key::TurnLeft => zero.at_most(self.max_wz),
            Key::TurnRight => zero.at_most(self.max_wz),
            Key::Higher => zero.at_most(self.height_range),
            Key::Lower => zero.at_most(self.height_range),
            Key::Tune(_, _) => self.tune_ranges.are_ordered(),
            _ => true,
        }
    }

    /// The limits of a profile. `crawl`, `walk` and `trot` are the gait library's
    /// own settings of the three gaits.
    pub fn from(
        cfg: &AppConfig,
        crawl: &GaitConfig,
        walk: &GaitConfig,
        trot: &GaitConfig,
        tune_ranges: TuneRanges,
    ) -> (r: Limits)
        ensures
            r.max_vx == cfg.gait.max_vx_m_s,
            r.max_vy == cfg.gait.max_vy_m_s,
            r.max_wz == cfg.gait.max_wz_rad_s,
            r.height_range == cfg.gait.height_range_m,
            r.attitude_max == cfg.gait.body_attitude_max_rad,
            r.base_crawl == robot::as_tune(robot::base_spec(cfg.gait, GaitSelect::Crawl, *crawl)),
            r.base_walk == robot::as_tune(robot::base_spec(cfg.gait, GaitSelect::Walk, *walk)),
            r.base_trot == robot::as_tune(robot::base_spec(cfg.gait, GaitSelect::Trot, *trot)),
            r.tune_ranges == tune_ranges,
            r.wbc_initial == wbc_at_start(cfg.wbc.enabled, cfg.wbc.output),
            r.controller_initial == controller_at_start(cfg.gait.controller),
    {
        Limits {
            max_vx: cfg.gait.max_vx_m_s,
            max_vy: cfg.gait.max_vy_m_s,
            max_wz: cfg.gait.max_wz_rad_s,
            height_range: cfg.gait.height_range_m,
            attitude_max: cfg.gait.body_attitude_max_rad,
            base_crawl: base_gait_tune(&cfg.gait, GaitSelect::Crawl, crawl),
            base_walk: base_gait_tune(&cfg.gait, GaitSelect::Walk, walk),
            base_trot: base_gait_tune(&cfg.gait, GaitSelect::Trot, trot),
            tune_ranges,
            wbc_initial: initial_wbc(cfg.wbc.enabled, cfg.wbc.output),
            controller_initial: initial_controller(cfg.gait.controller),
        }
    }

    /// The profile's parameters of a gait.
    pub fn base_of(&self, g: GaitSelect) -> (r: GaitTune)
        ensures
            r == self.base_spec(g),
    {
        match g {
            GaitSelect::Crawl => self.base_crawl,
            GaitSelect::Walk => self.base_walk,
            GaitSelect::Trot => self.base_trot,
        }
    }
}

pub open spec fn wbc_at_start(enabled: bool, output: WbcOutput) -> WbcRequest {
    if !enabled {
        WbcRequest::Off
    } else if output is Torque {
        WbcRequest::Torque
    } else {
        WbcRequest::Position
    }
}

pub open spec fn controller_at_start(kind: GaitControllerKind) -> GaitControllerRequest {
    if kind.has_mpc_spec() {
        GaitControllerRequest::Mpc
    } else {
        GaitControllerRequest::Champ
    }
}

/// What the whole-body controller is doing at the start.
pub fn initial_wbc(enabled: bool, output: WbcOutput) -> (r: WbcRequest)
    ensures
        r == wbc_at_start(enabled, output),
{
    if !enabled {
        WbcRequest::Off
    } else if output == WbcOutput::Torque {
        WbcRequest::Torque
    } else {
        WbcRequest::Position
    }
}

/// Which gait controller runs at the start.
pub fn initial_controller(kind: GaitControllerKind) -> (r: GaitControllerRequest)
    ensures
        r == controller_at_start(kind),
{
    if kind.has_mpc() {
        GaitControllerRequest::Mpc
    } else {
        GaitControllerRequest::Champ
    }
}

/// The sum that a key asks for.
#[derive(Clone, Copy, Debug, PartialEq, Eq, Structural)]
pub enum Operand {
    /// None.
    Nothing,
    /// `from` plus, or minus, one of [`STEPS`] parts of `limit`.
    Part { from: Scalar, limit: Scalar, up: bool },
    /// Roll and pitch, each moved by that many parts of `limit`.
    Tilt { roll: Scalar, pitch: Scalar, limit: Scalar, roll_parts: i8, pitch_parts: i8 },
    /// `from` plus `times` times `step`.
    Knob { from: Scalar, step: Scalar, times: i8 },
}

/// The results of that sum.
#[derive(Clone, Copy, Debug, PartialEq, Eq, Structural)]
pub struct Moved {
    /// The sum of a part or of a knob.
    pub value: Scalar,
    /// The new roll and pitch.
    pub roll: Scalar,
    pub pitch: Scalar,
    /// Their magnitude.
    pub magnitude: Scalar,
    /// The two, scaled down to the limit.
    pub scaled_roll: Scalar,
    pub scaled_pitch: Scalar,
}

pub open spec fn or_zero(a: Option<Scalar>, b: Option<Scalar>) -> Scalar {
    match a {
        Some(x) => x,
        None => match b {
            Some(y) => y,
            None => Scalar::zero_spec(),
        },
    }
}

/// The override that a knob stands for.
pub open spec fn knob_of(t: GaitTune, k: Knob) -> Option<Scalar> {
    match k {
        Knob::Cycle => t.cycle_period_s,
        Knob::Swing => t.swing_height_m,
        Knob::Step => t.step_length_m,
        Knob::Duty => t.duty_factor,
    }
}

pub open spec fn with_knob(t: GaitTune, k: Knob, v: Scalar) -> GaitTune {
    match k {
        Knob::Cycle => GaitTune { cycle_period_s: Some(v), ..t },
        Knob::Swing => GaitTune { swing_height_m: Some(v), ..t },
        Knob::Step => GaitTune { step_length_m: Some(v), ..t },
        Knob::Duty => GaitTune { duty_factor: Some(v), ..t },
    }
}

fn knob_value(t: &GaitTune, k: Knob) -> (r: Option<Scalar>)
    ensures
        r == knob_of(*t, k),
{
    match k {
        Knob::Cycle => t.cycle_period_s,
        Knob::Swing => t.swing_height_m,
        Knob::Step => t.step_length_m,
        Knob::Duty => t.duty_factor,
    }
}

fn set_knob(t: GaitTune, k: Knob, v: Scalar) -> (r: GaitTune)
    ensures
        r == with_knob(t, k, v),
{
    match k {
        Knob::Cycle => GaitTune { cycle_period_s: Some(v), ..t },
        Knob::Swing => GaitTune { swing_height_m: Some(v), ..t },
        Knob::Step => GaitTune { step_length_m: Some(v), ..t },
        Knob::Duty => GaitTune { duty_factor: Some(v), ..t },
    }
}

/// The part of an intent that keys change.
pub struct Steering {
    pub velocity: Velocity,
    pub roll: Scalar,
    pub pitch: Scalar,
    pub yaw: Scalar,
    pub height_offset_m: Scalar,
    pub mode: ModeRequest,
    pub gait: GaitSelect,
    pub gait_tune: GaitTune,
    pub gait_controller: Option<GaitControllerRequest>,
    pub wbc: Option<WbcRequest>,
}

pub open spec fn steering_of(i: Intent) -> Steering {
    Steering {
        velocity: i.velocity,
        roll: i.body_attitude_rad@[0],
        pitch: i.body_attitude_rad@[1],
        yaw: i.body_attitude_rad@[2],
        height_offset_m: i.height_offset_m,
        mode: i.mode,
        gait: i.gait,
        gait_tune: i.gait_tune,
        gait_controller: i.gait_controller,
        wbc: i.wbc,
    }
}

/// The part that keys leave alone is the same.
pub open spec fn rest_same(a: Intent, b: Intent) -> bool {
    &&& a.time == b.time
    &&& a.play_pose == b.play_pose
    &&& a.pose_slot == b.pose_slot
    &&& a.stabilize_head == b.stabilize_head
    &&& a.aux_rad@ == b.aux_rad@
    &&& a.link_ok == b.link_ok
    &&& a.knee_pattern == b.knee_pattern
}

/// The sum that a key asks for.
pub open spec fn operand_spec(s: Steering, key: Key, lim: Limits) -> Operand {
    let tilt = |r: i8, p: i8|
        Operand::Tilt {
            roll: s.roll,
            pitch: s.pitch,
            limit: lim.attitude_max,
            roll_parts: r,
            pitch_parts: p,
        };
    match key {
        Key::Forward => Operand::Part { from: s.velocity.vx_m_s, limit: lim.max_vx, up: true },
        Key::Back => Operand::Part { from: s.velocity.vx_m_s, limit: lim.max_vx, up: false },
        Key::Left => Operand::Part { from: s.velocity.vy_m_s, limit: lim.max_vy, up: true },
        Key::Right => Operand::Part { from: s.velocity.vy_m_s, limit: lim.max_vy, up: false },
        Key::TurnLeft => Operand::Part { from: s.velocity.wz_rad_s, limit: lim.max_wz, up: true },
        Key::TurnRight => Operand::Part { from: s.velocity.wz_rad_s, limit: lim.max_wz, up: false },
        Key::Higher => Operand::Part { from: s.height_offset_m, limit: lim.height_range, up: true },
        Key::Lower => Operand::Part { from: s.height_offset_m, limit: lim.height_range, up: false },
        Key::TiltUp => tilt(0, 1),
        Key::TiltDown => tilt(0, -1i8),
        Key::TiltLeft => tilt(-1i8, 0),
        Key::TiltRight => tilt(1, 0),
        Key::Tune(knob, dir) => Operand::Knob {
            from: or_zero(knob_of(s.gait_tune, knob), knob_of(lim.base_spec(s.gait), knob)),
            step: knob.step_spec(),
            times: dir,
        },
        _ => Operand::Nothing,
    }
}

pub open spec fn held(x: Scalar, max: Scalar) -> Scalar {
    x.clamp_spec(max.neg_spec(), max)
}

/// The tilt is over its limit.
pub open spec fn too_far(m: Moved, lim: Limits) -> bool {
    lim.attitude_max.lt_num(m.magnitude) && m.magnitude.positive()
}

/// What a key makes of the steering, given the sum that it asked for.
pub open spec fn pressed(s: Steering, key: Key, lim: Limits, m: Moved) -> Steering {
    match key {
        Key::Forward => Steering {
            velocity: Velocity { vx_m_s: held(m.value, lim.max_vx), ..s.velocity },
            ..s
        },
        Key::Back => Steering {
            velocity: Velocity { vx_m_s: held(m.value, lim.max_vx), ..s.velocity },
            ..s
        },
        Key::Left => Steering {
            velocity: Velocity { vy_m_s: held(m.value, lim.max_vy), ..s.velocity },
            ..s
        },
        Key::Right => Steering {
            velocity: Velocity { vy_m_s: held(m.value, lim.max_vy), ..s.velocity },
            ..s
        },
        Key::TurnLeft => Steering {
            velocity: Velocity { wz_rad_s: held(m.value, lim.max_wz), ..s.velocity },
            ..s
        },
        Key::TurnRight => Steering {
            velocity: Velocity { wz_rad_s: held(m.value, lim.max_wz), ..s.velocity },
            ..s
        },
        Key::Stop => Steering { velocity: Velocity::zero_spec(), ..s },
        Key::Mode(mode) => Steering { mode, ..s },
        Key::Gait(gait) => Steering { gait, gait_tune: lim.base_spec(gait), ..s },
        Key::Higher => Steering { height_offset_m: held(m.value, lim.height_range), ..s },
        Key::Lower => Steering { height_offset_m: held(m.value, lim.height_range), ..s },
        Key::TiltUp => tilted(s, lim, m),
        Key::TiltDown => tilted(s, lim, m),
        Key::TiltLeft => tilted(s, lim, m),
        Key::TiltRight => tilted(s, lim, m),
        Key::Level => Steering {
            roll: Scalar::zero_spec(),
            pitch: Scalar::zero_spec(),
            yaw: Scalar::zero_spec(),
            ..s
        },
        Key::Tune(knob, _) => Steering {
            gait_tune: with_knob(s.gait_tune, knob, m.value).clamped_spec(lim.tune_ranges),
            ..s
        },
        Key::TuneReset => Steering { gait_tune: lim.base_spec(s.gait), ..s },
        Key::WbcCycle => Steering { wbc: Some(next_wbc(s.wbc, lim.wbc_initial)), ..s },
        Key::ControllerToggle => Steering {
            gait_controller: Some(other_controller(s.gait_controller, lim.controller_initial)),
            ..s
        },
        Key::Help => s,
        Key::Quit => s,
    }
}

/// The tilt is limited by its magnitude, not axis by axis.
pub open spec fn tilted(s: Steering, lim: Limits, m: Moved) -> Steering {
    if too_far(m, lim) {
        Steering { roll: m.scaled_roll, pitch: m.scaled_pitch, ..s }
    } else {
        Steering { roll: m.roll, pitch: m.pitch, ..s }
    }
}

/// The first press counts from what runs at the start.
pub open spec fn next_wbc(now: Option<WbcRequest>, initial: WbcRequest) -> WbcRequest {
    let from = match now {
        Some(w) => w,
        None => initial,
    };
    match from {
        WbcRequest::Off => WbcRequest::Position,
        WbcRequest::Position => WbcRequest::Torque,
        WbcRequest::Torque => WbcRequest::Off,
    }
}

pub open spec fn other_controller(
    now: Option<GaitControllerRequest>,
    initial: GaitControllerRequest,
) -> GaitControllerRequest {
    let from = match now {
        Some(c) => c,
        None => initial,
    };
    match from {
        GaitControllerRequest::Champ => GaitControllerRequest::Mpc,
        GaitControllerRequest::Mpc => GaitControllerRequest::Champ,
    }
}

/// The sum that a key asks for.
pub fn operand(intent: &Intent, key: Key, lim: &Limits) -> (r: Operand)
    ensures
        r == operand_spec(steering_of(*intent), key, *lim),
{
    let v: Velocity = intent.velocity;
    let roll: Scalar = intent.body_attitude_rad[0];
    let pitch: Scalar = intent.body_attitude_rad[1];
    let limit: Scalar = lim.attitude_max;
    match key {
        Key::Forward => Operand::Part { from: v.vx_m_s, limit: lim.max_vx, up: true },
        Key::Back => Operand::Part { from: v.vx_m_s, limit: lim.max_vx, up: false },
        Key::Left => Operand::Part { from: v.vy_m_s, limit: lim.max_vy, up: true },
        Key::Right => Operand::Part { from: v.vy_m_s, limit: lim.max_vy, up: false },
        Key::TurnLeft => Operand::Part { from: v.wz_rad_s, limit: lim.max_wz, up: true },
        Key::TurnRight => Operand::Part { from: v.wz_rad_s, limit: lim.max_wz, up: false },
        Key::Higher => Operand::Part { from: intent.height_offset_m, limit: lim.height_range, up: true },
        Key::Lower => Operand::Part { from: intent.height_offset_m, limit: lim.height_range, up: false },
        Key::TiltUp => Operand::Tilt { roll, pitch, limit, roll_parts: 0, pitch_parts: 1 },
        Key::TiltDown => Operand::Tilt { roll, pitch, limit, roll_parts: 0, pitch_parts: -1 },
        Key::TiltLeft => Operand::Tilt { roll, pitch, limit, roll_parts: -1, pitch_parts: 0 },
        Key::TiltRight => Operand::Tilt { roll, pitch, limit, roll_parts: 1, pitch_parts: 0 },
        Key::Tune(knob, dir) => {
            let base: GaitTune = lim.base_of(intent.gait);
            let from: Scalar = match knob_value(&intent.gait_tune, knob) {
                Some(x) => x,
                None => match knob_value(&base, knob) {
                    Some(y) => y,
                    None => Scalar::zero(),
                },
            };
            Operand::Knob { from, step: knob.step(), times: dir }
        },
        _ => Operand::Nothing,
    }
}

fn hold(x: Scalar, max: Scalar) -> (r: Scalar)
    requires
        is_limit(max),
    ensures
        r == held(x, max),
{
    x.clamp(max.neg(), max)
}

/// Puts a press into the intent. `moved` holds the results of the sum that
/// [`operand`] names. Quitting is left to the caller.
pub fn apply(intent: &mut Intent, key: Key, lim: &Limits, moved: &Moved)
    requires
        lim.allow(key),
    ensures
        steering_of(*final(intent)) == pressed(steering_of(*old(intent)), key, *lim, *moved),
        rest_same(*final(intent), *old(intent)),
{
    match key {
        Key::Forward => {
            intent.velocity.vx_m_s = hold(moved.value, lim.max_vx);
        },
        Key::Back => {
            intent.velocity.vx_m_s = hold(moved.value, lim.max_vx);
        },
        Key::Left => {
            intent.velocity.vy_m_s = hold(moved.value, lim.max_vy);
        },
        Key::Right => {
            intent.velocity.vy_m_s = hold(moved.value, lim.max_vy);
        },
        Key::TurnLeft => {
            intent.velocity.wz_rad_s = hold(moved.value, lim.max_wz);
        },
        Key::TurnRight => {
            intent.velocity.wz_rad_s = hold(moved.value, lim.max_wz);
        },
        Key::Stop => {
            intent.velocity = Velocity::zero();
        },
        Key::Mode(mode) => {
            intent.mode = mode;
        },
        Key::Gait(gait) => {
            intent.gait = gait;
            intent.gait_tune = lim.base_of(gait);
        },
        Key::Higher => {
            intent.height_offset_m = hold(moved.value, lim.height_range);
        },
        Key::Lower => {
            intent.height_offset_m = hold(moved.value, lim.height_range);
        },
        Key::TiltUp => {
            tilt(intent, lim, moved);
        },
        Key::TiltDown => {
            tilt(intent, lim, moved);
        },
        Key::TiltLeft => {
            tilt(intent, lim, moved);
        },
        Key::TiltRight => {
            tilt(intent, lim, moved);
        },
        Key::Level => {
            intent.body_attitude_rad = [Scalar::zero(), Scalar::zero(), Scalar::zero()];
        },
        Key::Tune(knob, _) => {
            let t: GaitTune = set_knob(intent.gait_tune, knob, moved.value);
            intent.gait_tune = t.clamped(&lim.tune_ranges);
        },
        Key::TuneReset => {
            intent.gait_tune = lim.base_of(intent.gait);
        },
        Key::WbcCycle => {
            let from: WbcRequest = match intent.wbc {
                Some(w) => w,
                None => lim.wbc_initial,
            };
            intent.wbc = Some(
                match from {
                    WbcRequest::Off => WbcRequest::Position,
                    WbcRequest::Position => WbcRequest::Torque,
                    WbcRequest::Torque => WbcRequest::Off,
                },
            );
        },
        Key::ControllerToggle => {
            let from: GaitControllerRequest = match intent.gait_controller {
                Some(c) => c,
                None => lim.controller_initial,
            };
            intent.gait_controller = Some(
                match from {
                    GaitControllerRequest::Champ => GaitControllerRequest::Mpc,
                    GaitControllerRequest::Mpc => GaitControllerRequest::Champ,
                },
            );
        },
        Key::Help => {},
        Key::Quit => {},
    }
}

fn tilt(intent: &mut Intent, lim: &Limits, moved: &Moved)
    ensures
        steering_of(*final(intent)) == tilted(steering_of(*old(intent)), *lim, *moved),
        rest_same(*final(intent), *old(intent)),
{
    let yaw: Scalar = intent.body_attitude_rad[2];
    if lim.attitude_max.less(moved.magnitude) && moved.magnitude.is_positive() {
        intent.body_attitude_rad = [moved.scaled_roll, moved.scaled_pitch, yaw];
    } else {
        intent.body_attitude_rad = [moved.roll, moved.pitch, yaw];
    }
}

/// The last direction key.
#[derive(Clone, Copy, Debug, PartialEq, Eq, Structural)]
pub struct DirPress {
    pub key: Key,
    pub at: Time,
}

/// A direction key that comes again sooner than this is being held, in
/// nanoseconds.
pub const REPEAT_WINDOW: u128 = 120_000_000;

/// What the keys have made of the robot's course so far.
pub struct KeyState {
    pub intent: Intent,
    pub quit: bool,
    pub last_key: Option<Time>,
    pub last_dir_key: Option<DirPress>,
    /// The deadman has spoken since the last key.
    pub deadman_tripped: bool,
}

pub open spec fn is_direction(key: Key) -> bool {
    key is Forward || key is Back || key is Left || key is Right || key is TurnLeft || key is TurnRight
}

/// The key is being held: the same direction key came a moment ago.
pub open spec fn is_repeat(s: KeyState, key: Key, now: Time) -> bool {
    is_direction(key) && match s.last_dir_key {
        Some(p) => p.key == key && now.since_spec(p.at).nanos < REPEAT_WINDOW,
        None => false,
    }
}

/// What can happen to the steering.
pub enum Event {
    /// A press, with the results of the sum that it asked for.
    Press { key: Key, moved: Moved },
    /// A key that is being held.
    Held,
    /// The deadman.
    Deadman,
}

pub open spec fn after_event(s: Steering, e: Event, lim: Limits) -> Steering {
    match e {
        Event::Press { key, moved } => pressed(s, key, lim, moved),
        Event::Held => s,
        Event::Deadman => Steering { velocity: Velocity::zero_spec(), ..s },
    }
}

/// What a key amounts to.
pub open spec fn key_event(s: KeyState, key: Key, now: Time, moved: Moved) -> Event {
    if is_repeat(s, key, now) {
        Event::Held
    } else {
        Event::Press { key, moved }
    }
}

/// Takes a press at time `now`. Returns whether the help is asked for.
pub fn on_key(s: &mut KeyState, key: Key, now: Time, lim: &Limits, moved: &Moved) -> (help: bool)
    requires
        is_repeat(*old(s), key, now) || lim.allow(key),
    ensures
        final(s).last_key == Some(now),
        !final(s).deadman_tripped,
        final(s).last_dir_key == (if is_direction(key) {
            Some(DirPress { key, at: now })
        } else {
            old(s).last_dir_key
        }),
        help == (key is Help),
        final(s).quit == (old(s).quit || key is Quit),
        steering_of(final(s).intent) == after_event(
            steering_of(old(s).intent),
            key_event(*old(s), key, now, *moved),
            *lim,
        ),
        rest_same(final(s).intent, old(s).intent),
{
    s.last_key = Some(now);
    s.deadman_tripped = false;
    let direction: bool = match key {
        Key::Forward => true,
        Key::Back => true,
        Key::Left => true,
        Key::Right => true,
        Key::TurnLeft => true,
        Key::TurnRight => true,
        _ => false,
    };
    if direction {
        let repeat: bool = match s.last_dir_key {
            Some(p) => p.key == key && now.since(p.at).nanos < REPEAT_WINDOW,
            None => false,
        };
        s.last_dir_key = Some(DirPress { key, at: now });
        if repeat {
            return false;
        }
    }
    match key {
        Key::Quit => {
            s.quit = true;
            false
        },
        Key::Help => true,
        other => {
            apply(&mut s.intent, other, lim, moved);
            false
        },
    }
}

/// The deadman acts: keys have come, none for `deadman`, and the robot is
/// asked to move.
pub open spec fn deadman_due(s: KeyState, now: Time, deadman: Span) -> bool {
    match s.last_key {
        Some(last) => now.since_spec(last).nanos >= deadman.nanos && !s.intent.velocity.is_zero_spec(),
        None => false,
    }
}

/// Zeroes the velocity when no key has come for `deadman`. Returns whether to
/// say so, which happens once until the next key.
pub fn deadman_check(s: &mut KeyState, now: Time, deadman: Span) -> (say: bool)
    ensures
        steering_of(final(s).intent) == (if deadman_due(*old(s), now, deadman) {
            Steering { velocity: Velocity::zero_spec(), ..steering_of(old(s).intent) }
        } else {
            steering_of(old(s).intent)
        }),
        rest_same(final(s).intent, old(s).intent),
        say == (deadman_due(*old(s), now, deadman) && !old(s).deadman_tripped),
        final(s).deadman_tripped == (old(s).deadman_tripped || deadman_due(*old(s), now, deadman)),
        final(s).quit == old(s).quit,
        final(s).last_key == old(s).last_key,
        final(s).last_dir_key == old(s).last_dir_key,
{
    let last: Time = match s.last_key {
        Some(t) => t,
        None => {
            return false;
        },
    };
    if now.since(last).nanos < deadman.nanos || s.intent.velocity.is_zero() {
        return false;
    }
    s.intent.velocity = Velocity::zero();
    if s.deadman_tripped {
        return false;
    }
    s.deadman_tripped = true;
    true
}

/// What the keys start with: a limp robot, with the profile's gait parameters.
pub fn open(gait: GaitSelect, lim: &Limits) -> (r: KeyState)
    ensures
        r.intent.mode is Relax,
        r.intent.gait == gait,
        r.intent.gait_tune == lim.base_spec(gait),
        r.intent.aux_rad@ == seq![None::<Scalar>],
        r.intent.link_ok,
        r.intent.time == (Time { nanos: 0 }),
        r.intent.velocity == Velocity::zero_spec(),
        r.intent.body_attitude_rad@ == seq![
            Scalar::zero_spec(),
            Scalar::zero_spec(),
            Scalar::zero_spec(),
        ],
        r.intent.height_offset_m == Scalar::zero_spec(),
        !r.intent.play_pose,
        r.intent.pose_slot.0 == 0,
        !r.intent.stabilize_head,
        r.intent.gait_controller is None,
        r.intent.wbc is None,
        r.intent.knee_pattern is None,
        !r.quit,
        r.last_key is None,
        r.last_dir_key is None,
        !r.deadman_tripped,
{
    let mut intent = Intent::default();
    intent.gait = gait;
    let mut aux: Vec<Option<Scalar>> = Vec::new();
    aux.push(None);
    intent.aux_rad = aux;
    intent.link_ok = true;
    intent.gait_tune = lim.base_of(gait);
    KeyState { intent, quit: false, last_key: None, last_dir_key: None, deadman_tripped: false }
}

pub open spec fn differs(a: Option<Scalar>, b: Option<Scalar>) -> bool {
    match (a, b) {
        (Some(x), Some(y)) => !x.eq_num(y),
        (None, None) => false,
        _ => true,
    }
}

/// Whether a parameter is not the profile's own, so that it is marked on
/// display.
pub fn is_changed(a: Option<Scalar>, b: Option<Scalar>) -> (r: bool)
    ensures
        r == differs(a, b),
{
    match (a, b) {
        (Some(x), Some(y)) => !x.same_value(y),
        (None, None) => false,
        _ => true,
    }
}

/// Upper case means the same as lower case.
pub proof fn case_does_not_matter(c: u8)
    requires
        97 <= c <= 122,
    ensures
        meaning(lower_case((c - 32) as u8)) == meaning(lower_case(c)),
{
}

/// Speeds and height are within their limits.
pub open spec fn within(s: Steering, lim: Limits) -> bool {
    &&& s.velocity.vx_m_s.abs_spec().le_num(lim.max_vx)
    &&& s.velocity.vy_m_s.abs_spec().le_num(lim.max_vy)
    &&& s.velocity.wz_rad_s.abs_spec().le_num(lim.max_wz)
    &&& s.height_offset_m.abs_spec().le_num(lim.height_range)
}

/// The steering after all of the events, in order.
pub open spec fn after_events(s: Steering, events: Seq<Event>, lim: Limits) -> Steering
    decreases events.len(),
{
    if events.len() == 0 {
        s
    } else {
        after_event(after_events(s, events.drop_last(), lim), events.last(), lim)
    }
}

/// No sum came out as a NaN.
pub open spec fn all_numbers(events: Seq<Event>) -> bool {
    forall|i: int|
        0 <= i < events.len() ==> (#[trigger] events[i] matches Event::Press { moved, .. }
            ==> !moved.value.nan())
}

/// Whatever is pressed, in whatever order, and whenever the deadman acts: speeds
/// and height stay within their limits, and the body is never asked to yaw.
pub proof fn keys_never_leave_the_limits(start: Steering, events: Seq<Event>, lim: Limits)
    requires
        lim.wf(),
        within(start, lim),
        start.yaw == Scalar::zero_spec(),
        all_numbers(events),
    ensures
        within(after_events(start, events, lim), lim),
        after_events(start, events, lim).yaw == Scalar::zero_spec(),
    decreases events.len(),
{
    if events.len() > 0 {
        let shorter = events.drop_last();
        assert forall|i: int| 0 <= i < shorter.len() implies (#[trigger] shorter[i] matches Event::Press {
            moved,
            ..
        } ==> !moved.value.nan()) by {
            assert(shorter[i] == events[i]);
        }
        keys_never_leave_the_limits(start, shorter, lim);
        assert(events.last() == events[events.len() - 1]);
    }
}

/// Steering starts within its limits.
pub proof fn standing_still_is_within_the_limits(s: Steering, lim: Limits)
    requires
        lim.wf(),
        s.velocity == Velocity::zero_spec(),
        s.height_offset_m == Scalar::zero_spec(),
    ensures
        within(s, lim),
{
}

pub open spec fn is_tilt(key: Key) -> bool {
    key is TiltUp || key is TiltDown || key is TiltLeft || key is TiltRight
}

/// The tilt stays within its limit over any events, by whatever measure `radius`
/// the magnitudes are taken, as far as scaling a tilt down to the limit lands
/// inside it.
pub proof fn the_tilt_stays_within_its_limit(
    start: Steering,
    events: Seq<Event>,
    lim: Limits,
    radius: spec_fn(Scalar, Scalar) -> Scalar,
)
    requires
        is_limit(lim.attitude_max),
        radius(start.roll, start.pitch).le_num(lim.attitude_max),
        radius(Scalar::zero_spec(), Scalar::zero_spec()).le_num(lim.attitude_max),
        forall|i: int|
            0 <= i < events.len() ==> (#[trigger] events[i] matches Event::Press { key, moved } ==> is_tilt(
                key,
            ) ==> {
                &&& !moved.magnitude.nan()
                &&& radius(moved.roll, moved.pitch) == moved.magnitude
                &&& too_far(moved, lim) ==> radius(moved.scaled_roll, moved.scaled_pitch).le_num(
                    lim.attitude_max,
                )
            }),
    ensures
        ({
            let s = after_events(start, events, lim);
            radius(s.roll, s.pitch).le_num(lim.attitude_max)
        }),
    decreases events.len(),
{
    if events.len() > 0 {
        let shorter = events.drop_last();
        assert forall|i: int| 0 <= i < shorter.len() implies shorter[i] == #[trigger] events[i] by {}
        the_tilt_stays_within_its_limit(start, shorter, lim, radius);
        assert(events.last() == events[events.len() - 1]);
    }
}

/// Over any events the mode changes only by a mode key, and the footfall pattern
/// only by a gait key.
pub proof fn modes_and_gaits_change_only_by_their_keys(start: Steering, events: Seq<Event>, lim: Limits)
    ensures
        after_events(start, events, lim).mode != start.mode ==> exists|i: int|
            0 <= i < events.len() && #[trigger] events[i] is Press && events[i]->key is Mode,
        after_events(start, events, lim).gait != start.gait ==> exists|i: int|
            0 <= i < events.len() && #[trigger] events[i] is Press && events[i]->key is Gait,
    decreases events.len(),
{
    if events.len() > 0 {
        let shorter = events.drop_last();
        modes_and_gaits_change_only_by_their_keys(start, shorter, lim);
        let before = after_events(start, shorter, lim);
        let last = events[events.len() - 1];
        if before.mode != start.mode {
            let i = choose|i: int|
                0 <= i < shorter.len() && #[trigger] shorter[i] is Press && shorter[i]->key is Mode;
            assert(events[i] == shorter[i]);
        }
        if before.gait != start.gait {
            let i = choose|i: int|
                0 <= i < shorter.len() && #[trigger] shorter[i] is Press && shorter[i]->key is Gait;
            assert(events[i] == shorter[i]);
        }
        assert(events.last() == last);
    }
}

/// Stopping zeroes the velocity and nothing else: a robot that stands must not
/// collapse because somebody hit the stop key in a hurry.
pub proof fn stop_changes_only_the_velocity(s: Steering, lim: Limits, m: Moved)
    ensures
        pressed(s, Key::Stop, lim, m) == (Steering { velocity: Velocity::zero_spec(), ..s }),
{
}

/// Only a mode key changes the mode.
pub proof fn only_mode_keys_change_the_mode(s: Steering, key: Key, lim: Limits, m: Moved)
    requires
        !(key is Mode),
    ensures
        pressed(s, key, lim, m).mode == s.mode,
{
}

/// Three presses of the output key lead back to where it began.
pub proof fn the_output_key_goes_round(now: WbcRequest, initial: WbcRequest)
    ensures
        next_wbc(Some(next_wbc(Some(next_wbc(Some(now), initial)), initial)), initial) == now,
{
}

/// Overrides stay in their ranges: one press of a knob holds all of them to it.
pub proof fn tuning_stays_in_range(s: Steering, knob: Knob, dir: i8, lim: Limits, m: Moved)
    requires
        lim.wf(),
    ensures
        pressed(s, Key::Tune(knob, dir), lim, m).gait_tune.clamped_spec(lim.tune_ranges) == pressed(
            s,
            Key::Tune(knob, dir),
            lim,
            m,
        ).gait_tune,
{
    intent::clamping_a_tune_is_idempotent(with_knob(s.gait_tune, knob, m.value), lim.tune_ranges);
}

/// Each meaning has its own key, the one that the help shows, and upper case
/// works where the key is a letter.
#[verifier::rlimit(60)]
pub proof fn each_meaning_has_its_own_key(c: u8)
    ensures
        ({
            let m = meaning(lower_case(c));
            &&& m == Some(Key::Forward) <==> c == 'w' || c == 'W'
            &&& m == Some(Key::Back) <==> c == 's' || c == 'S'
            &&& m == Some(Key::Left) <==> c == 'a' || c == 'A'
            &&& m == Some(Key::Right) <==> c == 'd' || c == 'D'
            &&& m == Some(Key::TurnLeft) <==> c == 'q' || c == 'Q'
            &&& m == Some(Key::TurnRight) <==> c == 'e' || c == 'E'
            &&& m == Some(Key::Stop) <==> c == ' '
            &&& m == Some(Key::Mode(ModeRequest::Relax)) <==> c == '0'
            &&& m == Some(Key::Mode(ModeRequest::Stand)) <==> c == '1'
            &&& m == Some(Key::Mode(ModeRequest::Walk)) <==> c == '2'
            &&& m == Some(Key::Gait(GaitSelect::Crawl)) <==> c == 'z' || c == 'Z'
            &&& m == Some(Key::Gait(GaitSelect::Walk)) <==> c == 'x' || c == 'X'
            &&& m == Some(Key::Gait(GaitSelect::Trot)) <==> c == 'c' || c == 'C'
            &&& m == Some(Key::Higher) <==> c == 'r' || c == 'R'
            &&& m == Some(Key::Lower) <==> c == 'f' || c == 'F'
            &&& m == Some(Key::TiltUp) <==> c == 'i' || c == 'I'
            &&& m == Some(Key::TiltDown) <==> c == 'k' || c == 'K'
            &&& m == Some(Key::TiltLeft) <==> c == 'j' || c == 'J'
            &&& m == Some(Key::TiltRight) <==> c == 'l' || c == 'L'
            &&& m == Some(Key::Level) <==> c == 'v' || c == 'V'
            &&& m == Some(Key::Tune(Knob::Cycle, 1)) <==> c == 't' || c == 'T'
            &&& m == Some(Key::Tune(Knob::Cycle, -1i8)) <==> c == 'g' || c == 'G'
            &&& m == Some(Key::Tune(Knob::Swing, 1)) <==> c == 'y' || c == 'Y'
            &&& m == Some(Key::Tune(Knob::Swing, -1i8)) <==> c == 'b' || c == 'B'
            &&& m == Some(Key::Tune(Knob::Step, 1)) <==> c == 'u' || c == 'U'
            &&& m == Some(Key::Tune(Knob::Step, -1i8)) <==> c == 'n' || c == 'N'
            &&& m == Some(Key::Tune(Knob::Duty, 1)) <==> c == '.'
            &&& m == Some(Key::Tune(Knob::Duty, -1i8)) <==> c == ','
            &&& m == Some(Key::TuneReset) <==> c == 'm' || c == 'M'
            &&& m == Some(Key::WbcCycle) <==> c == 'o' || c == 'O'
            &&& m == Some(Key::ControllerToggle) <==> c == 'p' || c == 'P'
            &&& m == Some(Key::Help) <==> c == 'h' || c == 'H' || c == '?'
            &&& m == Some(Key::Quit) <==> c == 3 || c == 27
        }),
{
}

/// `m` holds the results of the sum `op`, as far as they have a direction: adding
/// a part of a limit does not lower a value, subtracting one does not raise it,
/// and from zero either has its sign where the limit is positive.
pub open spec fn moves_as_asked(op: Operand, m: Moved) -> bool {
    op matches Operand::Part { from, limit, up } ==> {
        let zero = Scalar::zero_spec();
        &&& !m.value.nan()
        &&& up ==> from.le_num(m.value)
        &&& !up ==> m.value.le_num(from)
        &&& up && from.is_zero_num() && limit.positive() ==> zero.lt_num(m.value)
        &&& !up && from.is_zero_num() && limit.positive() ==> m.value.lt_num(zero)
    }
}

/// Every direction key pushes its own way: forward, left, turning left and higher
/// never lower their value, back, right, turning right and lower never raise it,
/// and from rest one press moves the robot that way.
#[verifier::spinoff_prover]
pub proof fn every_direction_key_pushes_its_own_way(s: Steering, key: Key, lim: Limits, m: Moved)
    requires
        lim.wf(),
        within(s, lim),
        moves_as_asked(operand_spec(s, key, lim), m),
    ensures
        ({
            let t = pressed(s, key, lim, m);
            let zero = Scalar::zero_spec();
            let (v, w) = (s.velocity, t.velocity);
            &&& key is Forward ==> v.vx_m_s.le_num(w.vx_m_s)
            &&& key is Back ==> w.vx_m_s.le_num(v.vx_m_s)
            &&& key is Left ==> v.vy_m_s.le_num(w.vy_m_s)
            &&& key is Right ==> w.vy_m_s.le_num(v.vy_m_s)
            &&& key is TurnLeft ==> v.wz_rad_s.le_num(w.wz_rad_s)
            &&& key is TurnRight ==> w.wz_rad_s.le_num(v.wz_rad_s)
            &&& key is Higher ==> s.height_offset_m.le_num(t.height_offset_m)
            &&& key is Lower ==> t.height_offset_m.le_num(s.height_offset_m)
            &&& key is Forward && v.vx_m_s.is_zero_num() && lim.max_vx.positive() ==> zero.lt_num(
                w.vx_m_s,
            )
            &&& key is Back && v.vx_m_s.is_zero_num() && lim.max_vx.positive() ==> w.vx_m_s.lt_num(zero)
            &&& key is Left && v.vy_m_s.is_zero_num() && lim.max_vy.positive() ==> zero.lt_num(w.vy_m_s)
            &&& key is Right && v.vy_m_s.is_zero_num() && lim.max_vy.positive() ==> w.vy_m_s.lt_num(zero)
            &&& key is TurnLeft && v.wz_rad_s.is_zero_num() && lim.max_wz.positive() ==> zero.lt_num(
                w.wz_rad_s,
            )
            &&& key is TurnRight && v.wz_rad_s.is_zero_num() && lim.max_wz.positive()
                ==> w.wz_rad_s.lt_num(zero)
            &&& key is Higher && s.height_offset_m.is_zero_num() && lim.height_range.positive()
                ==> zero.lt_num(t.height_offset_m)
            &&& key is Lower && s.height_offset_m.is_zero_num() && lim.height_range.positive()
                ==> t.height_offset_m.lt_num(zero)
        }),
{
}

/// Each direction key asks for a sum over its own value and its own limit.
pub proof fn every_direction_key_moves_its_own_value(s: Steering, lim: Limits)
    ensures
        ({
            let part = |key: Key, from: Scalar, limit: Scalar, up: bool|
                operand_spec(s, key, lim) == (Operand::Part { from, limit, up });
            &&& part(Key::Forward, s.velocity.vx_m_s, lim.max_vx, true)
            &&& part(Key::Back, s.velocity.vx_m_s, lim.max_vx, false)
            &&& part(Key::Left, s.velocity.vy_m_s, lim.max_vy, true)
            &&& part(Key::Right, s.velocity.vy_m_s, lim.max_vy, false)
            &&& part(Key::TurnLeft, s.velocity.wz_rad_s, lim.max_wz, true)
            &&& part(Key::TurnRight, s.velocity.wz_rad_s, lim.max_wz, false)
            &&& part(Key::Higher, s.height_offset_m, lim.height_range, true)
            &&& part(Key::Lower, s.height_offset_m, lim.height_range, false)
        }),
{
}

/// A sum that stays within the limit is taken as it is; one beyond it stops at the
/// limit, on its own side.
#[verifier::spinoff_prover]
pub proof fn a_press_takes_the_sum_up_to_the_limit(s: Steering, key: Key, lim: Limits, m: Moved, max: Scalar)
    requires
        lim.wf(),
        !m.value.nan(),
        (key is Forward || key is Back) && max == lim.max_vx || (key is Left || key is Right) && max
            == lim.max_vy || (key is TurnLeft || key is TurnRight) && max == lim.max_wz || (key is Higher
            || key is Lower) && max == lim.height_range,
    ensures
        ({
            let t = pressed(s, key, lim, m);
            let x = if key is Forward || key is Back {
                t.velocity.vx_m_s
            } else if key is Left || key is Right {
                t.velocity.vy_m_s
            } else if key is TurnLeft || key is TurnRight {
                t.velocity.wz_rad_s
            } else {
                t.height_offset_m
            };
            &&& m.value.abs_spec().le_num(max) ==> x == m.value
            &&& max.lt_num(m.value) ==> x == max
            &&& m.value.lt_num(max.neg_spec()) ==> x == max.neg_spec()
        }),
{
}

/// A press changes its own value and nothing else.
#[verifier::spinoff_prover]
#[verifier::rlimit(60)]
pub proof fn a_press_changes_only_its_own_value(s: Steering, key: Key, lim: Limits, m: Moved)
    ensures
        ({
            let t = pressed(s, key, lim, m);
            &&& !(key is Forward || key is Back || key is Stop) ==> t.velocity.vx_m_s
                == s.velocity.vx_m_s
            &&& !(key is Left || key is Right || key is Stop) ==> t.velocity.vy_m_s == s.velocity.vy_m_s
            &&& !(key is TurnLeft || key is TurnRight || key is Stop) ==> t.velocity.wz_rad_s
                == s.velocity.wz_rad_s
            &&& !(key is Higher || key is Lower) ==> t.height_offset_m == s.height_offset_m
            &&& !(key is TiltUp || key is TiltDown || key is TiltLeft || key is TiltRight || key is Level)
                ==> t.roll == s.roll && t.pitch == s.pitch
            &&& !(key is Level) ==> t.yaw == s.yaw
            &&& !(key is Mode) ==> t.mode == s.mode
            &&& !(key is Gait) ==> t.gait == s.gait
            &&& !(key is Gait || key is Tune || key is TuneReset) ==> t.gait_tune == s.gait_tune
            &&& !(key is WbcCycle) ==> t.wbc == s.wbc
            &&& !(key is ControllerToggle) ==> t.gait_controller == s.gait_controller
        }),
{
}

/// What the keys without a sum do: stop, choose a mode or a gait (with that gait's
/// own parameters), level the body, go back to the gait's parameters.
pub proof fn keys_without_a_sum(s: Steering, lim: Limits, m: Moved, mode: ModeRequest, gait: GaitSelect)
    ensures
        ({
            let zero = Scalar::zero_spec();
            let own = |g: GaitSelect, t: GaitTune|
                {
                    &&& g == GaitSelect::Crawl ==> t == lim.base_crawl
                    &&& g == GaitSelect::Walk ==> t == lim.base_walk
                    &&& g == GaitSelect::Trot ==> t == lim.base_trot
                };
            let stopped = pressed(s, Key::Stop, lim, m).velocity;
            let level = pressed(s, Key::Level, lim, m);
            &&& stopped.vx_m_s == zero && stopped.vy_m_s == zero && stopped.wz_rad_s == zero
            &&& pressed(s, Key::Mode(mode), lim, m).mode == mode
            &&& pressed(s, Key::Gait(gait), lim, m).gait == gait
            &&& own(gait, pressed(s, Key::Gait(gait), lim, m).gait_tune)
            &&& own(s.gait, pressed(s, Key::TuneReset, lim, m).gait_tune)
            &&& level.roll == zero && level.pitch == zero && level.yaw == zero
        }),
{
}

/// A tilt key moves one angle by one part of the limit and asks for the other as
/// it is: up and down pitch, left and right roll, each the opposite of the other.
pub proof fn a_tilt_key_moves_one_angle(s: Steering, lim: Limits)
    ensures
        ({
            let tilt = |key: Key, r: i8, p: i8|
                operand_spec(s, key, lim) == (Operand::Tilt {
                    roll: s.roll,
                    pitch: s.pitch,
                    limit: lim.attitude_max,
                    roll_parts: r,
                    pitch_parts: p,
                });
            &&& tilt(Key::TiltUp, 0, 1)
            &&& tilt(Key::TiltDown, 0, -1i8)
            &&& tilt(Key::TiltRight, 1, 0)
            &&& tilt(Key::TiltLeft, -1i8, 0)
        }),
{
}

/// A tilt is taken as it is while its magnitude is within the limit, and scaled
/// down beyond it.
pub proof fn a_tilt_is_scaled_only_beyond_its_limit(s: Steering, key: Key, lim: Limits, m: Moved)
    requires
        is_limit(lim.attitude_max),
        key is TiltUp || key is TiltDown || key is TiltLeft || key is TiltRight,
    ensures
        ({
            let t = pressed(s, key, lim, m);
            &&& m.magnitude.le_num(lim.attitude_max) ==> t.roll == m.roll && t.pitch == m.pitch
            &&& lim.attitude_max.lt_num(m.magnitude) ==> t.roll == m.scaled_roll && t.pitch
                == m.scaled_pitch
        }),
{
}

/// A knob moves its own parameter, from the override or, without one, from the
/// gait's own value; the press sets that parameter, held to its range, and leaves
/// parameters alone that are within theirs.
#[verifier::spinoff_prover]
pub proof fn a_knob_moves_its_own_parameter(s: Steering, knob: Knob, dir: i8, lim: Limits, m: Moved)
    requires
        lim.tune_ranges.ordered(),
    ensures
        ({
            let own = lim.base_spec(s.gait);
            let from = |over: Option<Scalar>, base: Option<Scalar>|
                {
                    let op = operand_spec(s, Key::Tune(knob, dir), lim);
                    &&& op is Knob
                    &&& op->times == dir
                    &&& op->step == knob.step_spec()
                    &&& over matches Some(x) ==> op->Knob_from == x
                    &&& over is None && base is Some ==> op->Knob_from == base->0
                };
            let t = pressed(s, Key::Tune(knob, dir), lim, m).gait_tune;
            let set = |now: Option<Scalar>, range: (Scalar, Scalar)|
                {
                    &&& now is Some
                    &&& range.0.le_num(m.value) && m.value.le_num(range.1) ==> now == Some(m.value)
                    &&& m.value.lt_num(range.0) ==> now == Some(range.0)
                    &&& range.1.lt_num(m.value) ==> now == Some(range.1)
                };
            let kept = |was: Option<Scalar>, now: Option<Scalar>, range: (Scalar, Scalar)|
                {
                    &&& was is None ==> now is None
                    &&& was is Some && range.0.le_num(was->0) && was->0.le_num(range.1) ==> now == was
                };
            let u = s.gait_tune;
            let r = lim.tune_ranges;
            &&& knob is Cycle ==> from(u.cycle_period_s, own.cycle_period_s)
            &&& knob is Swing ==> from(u.swing_height_m, own.swing_height_m)
            &&& knob is Step ==> from(u.step_length_m, own.step_length_m)
            &&& knob is Duty ==> from(u.duty_factor, own.duty_factor)
            &&& if knob is Cycle { set(t.cycle_period_s, r.cycle_s) } else {
                kept(u.cycle_period_s, t.cycle_period_s, r.cycle_s)
            }
            &&& if knob is Swing { set(t.swing_height_m, r.swing_m) } else {
                kept(u.swing_height_m, t.swing_height_m, r.swing_m)
            }
            &&& if knob is Step { set(t.step_length_m, r.step_m) } else {
                kept(u.step_length_m, t.step_length_m, r.step_m)
            }
            &&& if knob is Duty { set(t.duty_factor, r.duty) } else {
                kept(u.duty_factor, t.duty_factor, r.duty)
            }
        }),
{
}

/// The output key goes from off to position, to torque and to off, and the
/// controller key from one controller to the other. The first press counts from
/// what ran at the start.
pub proof fn switching_keys_count_from_what_runs(s: Steering, lim: Limits, m: Moved)
    ensures
        ({
            let w = pressed(s, Key::WbcCycle, lim, m).wbc;
            let now = match s.wbc {
                Some(x) => x,
                None => lim.wbc_initial,
            };
            let c = pressed(s, Key::ControllerToggle, lim, m).gait_controller;
            let runs = match s.gait_controller {
                Some(x) => x,
                None => lim.controller_initial,
            };
            &&& now == WbcRequest::Off ==> w == Some(WbcRequest::Position)
            &&& now == WbcRequest::Position ==> w == Some(WbcRequest::Torque)
            &&& now == WbcRequest::Torque ==> w == Some(WbcRequest::Off)
            &&& c is Some && c != Some(runs)
        }),
{
}

/// A key that is pressed, and not held, acts. A direction key counts as held when
/// the same one came less than the window before; every other key always acts.
pub proof fn only_a_quick_repeat_of_a_direction_is_ignored(
    s: KeyState,
    key: Key,
    now: Time,
    moved: Moved,
)
    ensures
        ({
            let turns = key is Forward || key is Back || key is Left || key is Right || key is TurnLeft
                || key is TurnRight;
            let e = key_event(s, key, now, moved);
            &&& !turns ==> e == (Event::Press { key, moved })
            &&& s.last_dir_key is None ==> e == (Event::Press { key, moved })
            &&& turns ==> (s.last_dir_key matches Some(p) ==> {
                &&& p.key != key ==> e == (Event::Press { key, moved })
                &&& p.at.nanos + REPEAT_WINDOW <= now.nanos ==> e == (Event::Press { key, moved })
                &&& p.key == key && now.nanos < p.at.nanos + REPEAT_WINDOW ==> e == Event::Held
            })
        }),
{
}

/// What an event makes of the steering: a press acts, a held key changes nothing,
/// and the deadman stops the robot and changes nothing else.
pub proof fn the_deadman_only_stops(s: Steering, key: Key, moved: Moved, lim: Limits)
    ensures
        after_event(s, Event::Held, lim) == s,
        after_event(s, Event::Press { key, moved }, lim) == pressed(s, key, lim, moved),
        after_event(s, Event::Deadman, lim) == pressed(s, Key::Stop, lim, moved),
{
}

/// The deadman acts exactly when a key has come, none since for as long as it
/// waits, and the robot is asked to move.
pub proof fn the_deadman_waits_for_silence(s: KeyState, now: Time, deadman: Span)
    ensures
        s.last_key is None ==> !deadman_due(s, now, deadman),
        s.last_key matches Some(last) ==> {
            let v = s.intent.velocity;
            let moving = !(v.vx_m_s.is_zero_num() && v.vy_m_s.is_zero_num() && v.wz_rad_s.is_zero_num());
            &&& now.nanos >= last.nanos + deadman.nanos ==> deadman_due(s, now, deadman) == moving
            &&& now.nanos < last.nanos + deadman.nanos && deadman.nanos > 0 ==> !deadman_due(
                s,
                now,
                deadman,
            )
        },
{
}

/// What runs at the start: the whole-body controller if it is on, in torque if
/// that is its output, and the predictive gait if the profile names one.
pub proof fn the_start_follows_the_profile(enabled: bool, output: WbcOutput, kind: GaitControllerKind)
    ensures
        !enabled ==> wbc_at_start(enabled, output) == WbcRequest::Off,
        enabled && output == WbcOutput::Torque ==> wbc_at_start(enabled, output) == WbcRequest::Torque,
        enabled && output != WbcOutput::Torque ==> wbc_at_start(enabled, output) == WbcRequest::Position,
        kind.has_mpc_spec() ==> controller_at_start(kind) == GaitControllerRequest::Mpc,
        !kind.has_mpc_spec() ==> controller_at_start(kind) == GaitControllerRequest::Champ,
{
}

/// What keys leave alone stays as it was: the time, the pose, the head, the
/// auxiliary axes, the link and the knees.
pub proof fn keys_leave_the_rest_alone(a: Intent, b: Intent)
    requires
        rest_same(a, b),
    ensures
        a.time == b.time,
        a.play_pose == b.play_pose,
        a.pose_slot == b.pose_slot,
        a.stabilize_head == b.stabilize_head,
        a.aux_rad@ == b.aux_rad@,
        a.link_ok == b.link_ok,
        a.knee_pattern == b.knee_pattern,
{
}

/// The steering part of an intent is what the operator last asked for, each
/// value under its own name.
pub proof fn steering_is_what_was_asked(i: Intent)
    ensures
        steering_of(i).velocity == i.velocity,
        steering_of(i).roll == i.body_attitude_rad@[0],
        steering_of(i).pitch == i.body_attitude_rad@[1],
        steering_of(i).yaw == i.body_attitude_rad@[2],
        steering_of(i).height_offset_m == i.height_offset_m,
        steering_of(i).mode == i.mode,
        steering_of(i).gait == i.gait,
        steering_of(i).gait_tune == i.gait_tune,
        steering_of(i).gait_controller == i.gait_controller,
        steering_of(i).wbc == i.wbc,
{
}

/// A parameter is marked as changed if it is another number than the profile's,
/// or if only one of the two is there.
pub proof fn a_changed_parameter_is_marked(x: Scalar, y: Scalar)
    ensures
        !x.nan() ==> !differs(Some(x), Some(x)),
        x.lt_num(y) ==> differs(Some(x), Some(y)),
        y.lt_num(x) ==> differs(Some(x), Some(y)),
        differs(Some(x), None),
        differs(None, Some(x)),
        !differs(None, None),
{
}

} // verus!
