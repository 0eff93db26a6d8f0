//! The state machine of the operating modes.
//!
//! ```text
//!   Relaxed -> GoingToStart -> HoldingStart -> GoingToStance -> Active
//!      ^                                                          |
//!      +------------------------ (relax) -------------------------+
//!                                        Active <-> PlayingPose
//!                                        Active <-> FlippingKnees
//! ```
//!
//! The machine decides; whoever drives it moves the joints. [`Controller::tick`]
//! is one period: it takes the switches, ramps the velocity while the gait runs,
//! takes the state forward and says what the joints follow.

use vstd::prelude::*;

use crate::config::{GaitControllerKind, KneeFlipStyle, KneeShape};
use crate::intent;
use crate::intent::{GaitControllerRequest, GaitSelect, Intent, ModeRequest, Velocity};
use crate::knee;
use crate::knee::{balance_of, flip_edge, Balance, FlipEdge, FlipStep};
use crate::legs::LegFlags;
use crate::scalar::Scalar;

verus! {

#[derive(Clone, Copy, Debug, PartialEq, Eq, Structural)]
pub enum State {
    /// Limp: nothing is commanded.
    Relaxed,
    /// On the way to the start pose.
    GoingToStart,
    /// Holding the start pose, powered.
    HoldingStart,
    /// On the way to the gait's stance.
    GoingToStance,
    /// The gait runs. At zero velocity it stands.
    Active,
    PlayingPose,
    /// Turning the knees over.
    FlippingKnees,
}

impl State {
    pub open spec fn label_spec(self) -> Seq<char> {
        match self {
            State::Relaxed => "脱力"@,
            State::GoingToStart => "初期姿勢へ"@,
            State::HoldingStart => "初期姿勢"@,
            State::GoingToStance => "立ち姿勢へ"@,
            State::Active => "歩容"@,
            State::PlayingPose => "ポーズ再生"@,
            State::FlippingKnees => "膝を反転中"@,
        }
    }

    pub fn label(self) -> (r: &'static str)
        ensures
            r@ == self.label_spec(),
    {
        match self {
            State::Relaxed => "脱力",
            State::GoingToStart => "初期姿勢へ",
            State::HoldingStart => "初期姿勢",
            State::GoingToStance => "立ち姿勢へ",
            State::Active => "歩容",
            State::PlayingPose => "ポーズ再生",
            State::FlippingKnees => "膝を反転中",
        }
    }
}

/// The machine's memory.
pub struct Controller {
    pub state: State,
    pub gait_select: GaitSelect,
    pub controller: GaitControllerKind,
    pub knee_pattern: KneeShape,
    pub knee_flip_style: KneeFlipStyle,
    /// Whether the auxiliary arm follows our commands.
    pub arm_app_driven: bool,
    /// The velocity that the gait is given, after the ramp.
    pub ramped_v: Velocity,
    /// Feet on the ground, as the gait last planned.
    pub stance: LegFlags,
    pub just_changed: bool,
    /// The pose last asked for was the alternative one.
    pub alt_pose_requested: bool,
    pub warned_knee_flip: bool,
    /// A knee pattern that could not be planned. It is not tried again until
    /// the request changes.
    pub knee_flip_failed: Option<KneeShape>,
    /// The knee pattern that the running choreography leads to.
    pub knee_flip_target: Option<KneeShape>,
    pub flip_steps: Vec<FlipStep>,
    pub flip_index: usize,
    pub warned_chicken_head: bool,
    /// How long the stop has been waiting for feet to land.
    pub settling_s: Scalar,
    /// The feet that were in the air when the stop was asked for.
    pub settling_airborne: Option<LegFlags>,
}

/// The machine's memory as a value.
pub struct ControllerView {
    pub state: State,
    pub gait_select: GaitSelect,
    pub controller: GaitControllerKind,
    pub knee_pattern: KneeShape,
    pub knee_flip_style: KneeFlipStyle,
    pub arm_app_driven: bool,
    pub ramped_v: Velocity,
    pub stance: LegFlags,
    pub just_changed: bool,
    pub alt_pose_requested: bool,
    pub warned_knee_flip: bool,
    pub knee_flip_failed: Option<KneeShape>,
    pub knee_flip_target: Option<KneeShape>,
    pub flip_steps: Seq<FlipStep>,
    pub flip_index: int,
    pub warned_chicken_head: bool,
    pub settling_s: Scalar,
    pub settling_airborne: Option<LegFlags>,
}

impl View for Controller {
    type V = ControllerView;

    open spec fn view(&self) -> ControllerView {
        ControllerView {
            state: self.state,
            gait_select: self.gait_select,
            controller: self.controller,
            knee_pattern: self.knee_pattern,
            knee_flip_style: self.knee_flip_style,
            arm_app_driven: self.arm_app_driven,
            ramped_v: self.ramped_v,
            stance: self.stance,
            just_changed: self.just_changed,
            alt_pose_requested: self.alt_pose_requested,
            warned_knee_flip: self.warned_knee_flip,
            knee_flip_failed: self.knee_flip_failed,
            knee_flip_target: self.knee_flip_target,
            flip_steps: self.flip_steps@,
            flip_index: self.flip_index as int,
            warned_chicken_head: self.warned_chicken_head,
            settling_s: self.settling_s,
            settling_airborne: self.settling_airborne,
        }
    }
}

/// What became of a knee request.
#[derive(Clone, Copy, Debug, PartialEq, Eq, Structural)]
pub enum KneeOutcome {
    /// There was nothing to do.
    Nothing,
    /// The robot is not standing still, and this was not said before.
    Refused,
    /// The choreography starts now.
    Started,
    /// The choreography cannot be planned.
    Impossible,
}

/// What a period decided of the operator's switches.
#[derive(Clone, Copy, Debug, PartialEq, Eq, Structural)]
pub struct Prepared {
    /// Rebuild the gait for this footfall pattern.
    pub switch_gait: bool,
    /// Rebuild it for this controller.
    pub switch_controller: bool,
    pub knee: KneeOutcome,
}

/// What the machine needs to know of the trajectories.
#[derive(Clone, Copy, Debug, PartialEq, Eq, Structural)]
pub struct Facts {
    /// The running trajectory has ended, or there is none.
    pub player_done: bool,
    /// The step that the running choreography is at.
    pub step_index: usize,
    pub start_pose_known: bool,
    pub greeting_known: bool,
    /// An alternative greeting is configured.
    pub alt_configured: bool,
    pub alt_known: bool,
}

/// What the joints follow in this period.
#[derive(Clone, Copy, Debug, PartialEq, Eq, Structural)]
pub enum Action {
    /// Nothing: keep the measured angles as targets.
    TrackMeasured,
    /// Start from the measured angles to the start pose, or, where it is not
    /// known, to the stance.
    RiseFromMeasured { to_start_pose: bool },
    /// Follow the running trajectory.
    Follow,
    /// The start pose is reached.
    Hold,
    /// Start a trajectory to the stance.
    ToStance,
    /// Start a trajectory to the start pose.
    ToStart,
    /// The start pose is not known: stay.
    StartPoseMissing,
    /// The gait takes over, with its phase at the beginning.
    HandOver,
    /// Start playing a pose.
    Play { alt: bool },
    /// The pose is not known: stay.
    PoseMissing { alt: bool },
    RunGait,
    /// Follow the choreography.
    FollowFlip { edge: FlipEdge, balance: Balance },
    /// The choreography has ended: take the new knees over.
    FinishFlip { edge: FlipEdge, balance: Balance, adopted: Option<KneeShape> },
}

/// What a period decided of the state.
#[derive(Clone, Copy, Debug, PartialEq, Eq, Structural)]
pub struct Advanced {
    pub action: Action,
    /// The relax request was carried out, on top of the action.
    pub relaxed: bool,
    /// The legs are limp.
    pub legs_idle: bool,
}

pub open spec fn requested_kind(req: GaitControllerRequest) -> GaitControllerKind {
    match req {
        GaitControllerRequest::Champ => GaitControllerKind::Champ,
        GaitControllerRequest::Mpc => GaitControllerKind::Mpc,
    }
}

impl ControllerView {
    /// Whether the gait may be replaced now: no leg is in the air. Standing
    /// still in the gait counts; playing a pose or turning knees does not.
    pub open spec fn can_switch(self) -> bool {
        match self.state {
            State::PlayingPose => false,
            State::FlippingKnees => false,
            State::Active => self.ramped_v.is_zero_spec() && self.stance == LegFlags::all_spec(),
            _ => true,
        }
    }

    pub open spec fn switches_gait(self, cmd: Intent) -> bool {
        cmd.gait != self.gait_select && self.can_switch()
    }

    pub open spec fn switches_controller(self, cmd: Intent) -> bool {
        match cmd.gait_controller {
            Some(req) => requested_kind(req) != self.controller && self.can_switch(),
            None => false,
        }
    }

    /// The knee pattern for which a choreography has to be planned now.
    pub open spec fn plan_needed(self, cmd: Intent) -> Option<KneeShape> {
        match cmd.knee_pattern {
            Some(shape) => if shape != self.knee_pattern && self.knee_flip_failed != Some(shape)
                && self.state is Active && self.can_switch() {
                Some(shape)
            } else {
                None
            },
            None => None,
        }
    }

    /// The memory after the gait switches.
    pub open spec fn after_switches(self, cmd: Intent) -> ControllerView {
        ControllerView {
            gait_select: if self.switches_gait(cmd) { cmd.gait } else { self.gait_select },
            controller: if self.switches_controller(cmd) {
                requested_kind(cmd.gait_controller->0)
            } else {
                self.controller
            },
            ..self
        }
    }

    /// The memory after the knee request, and what became of it.
    pub open spec fn after_knees(self, cmd: Intent, plan: Option<Seq<FlipStep>>) -> (
        ControllerView,
        KneeOutcome,
    ) {
        match cmd.knee_pattern {
            None => (
                ControllerView { warned_knee_flip: false, knee_flip_failed: None, ..self },
                KneeOutcome::Nothing,
            ),
            Some(shape) => if shape == self.knee_pattern || self.state is FlippingKnees {
                (
                    ControllerView { warned_knee_flip: false, knee_flip_failed: None, ..self },
                    KneeOutcome::Nothing,
                )
            } else if self.knee_flip_failed == Some(shape) {
                (self, KneeOutcome::Nothing)
            } else if !(self.state is Active) || !self.can_switch() {
                (
                    ControllerView { warned_knee_flip: true, ..self },
                    if self.warned_knee_flip { KneeOutcome::Nothing } else { KneeOutcome::Refused },
                )
            } else {
                match plan {
                    Some(steps) => (
                        ControllerView {
                            state: State::FlippingKnees,
                            knee_flip_target: Some(shape),
                            flip_steps: steps,
                            flip_index: 0,
                            ..self
                        },
                        KneeOutcome::Started,
                    ),
                    None => (
                        ControllerView { knee_flip_failed: Some(shape), ..self },
                        KneeOutcome::Impossible,
                    ),
                }
            },
        }
    }

    /// Whether this period's pose request means the alternative pose.
    pub open spec fn plays_alt(cmd: Intent, facts: Facts) -> bool {
        cmd.pose_slot.0 != 0 && facts.alt_configured
    }

    pub open spec fn pose_known(cmd: Intent, facts: Facts) -> bool {
        if Self::plays_alt(cmd, facts) {
            facts.alt_known
        } else {
            facts.greeting_known
        }
    }

    /// The action of this period, before a relax request is looked at.
    pub open spec fn action(self, cmd: Intent, facts: Facts) -> Action {
        match self.state {
            State::Relaxed => if cmd.mode is Relax {
                Action::TrackMeasured
            } else {
                Action::RiseFromMeasured { to_start_pose: facts.start_pose_known }
            },
            State::GoingToStart => if !facts.player_done {
                Action::Follow
            } else if cmd.mode is Walk {
                Action::ToStance
            } else {
                Action::Hold
            },
            State::HoldingStart => if cmd.mode is Walk {
                Action::ToStance
            } else {
                Action::Hold
            },
            State::GoingToStance => if facts.player_done {
                Action::HandOver
            } else {
                Action::Follow
            },
            State::Active => if cmd.play_pose {
                if Self::pose_known(cmd, facts) {
                    Action::Play { alt: Self::plays_alt(cmd, facts) }
                } else {
                    Action::PoseMissing { alt: Self::plays_alt(cmd, facts) }
                }
            } else if cmd.mode is Stand {
                if facts.start_pose_known {
                    Action::ToStart
                } else {
                    Action::StartPoseMissing
                }
            } else {
                Action::RunGait
            },
            State::PlayingPose => if facts.player_done || cmd.mode is Stand {
                Action::ToStance
            } else {
                Action::Follow
            },
            State::FlippingKnees => {
                let edge = knee::edge_spec(self.flip_steps, self.flip_index, facts.step_index as int);
                let balance = knee::balance_spec(
                    self.flip_steps,
                    self.knee_flip_style,
                    facts.step_index as int,
                );
                if facts.player_done {
                    Action::FinishFlip { edge, balance, adopted: self.knee_flip_target }
                } else {
                    Action::FollowFlip { edge, balance }
                }
            },
        }
    }

    /// The state that an action leads to.
    pub open spec fn state_after(self, action: Action) -> State {
        match action {
            Action::TrackMeasured => self.state,
            Action::RiseFromMeasured { .. } => State::GoingToStart,
            Action::Follow => self.state,
            Action::Hold => State::HoldingStart,
            Action::ToStance => State::GoingToStance,
            Action::ToStart => State::GoingToStart,
            Action::StartPoseMissing => self.state,
            Action::HandOver => State::Active,
            Action::Play { .. } => State::PlayingPose,
            Action::PoseMissing { .. } => self.state,
            Action::RunGait => self.state,
            Action::FollowFlip { .. } => self.state,
            Action::FinishFlip { .. } => State::Active,
        }
    }

    /// The memory after the action, before a relax request is looked at.
    pub open spec fn after_action(self, cmd: Intent, facts: Facts) -> ControllerView {
        let action = self.action(cmd, facts);
        let moved = ControllerView { state: self.state_after(action), ..self };
        match action {
            Action::Play { .. } => ControllerView { alt_pose_requested: cmd.pose_slot.0 != 0, ..moved },
            Action::PoseMissing { .. } => ControllerView {
                alt_pose_requested: cmd.pose_slot.0 != 0,
                ..moved
            },
            Action::FollowFlip { .. } => ControllerView {
                flip_index: facts.step_index as int,
                stance: if facts.step_index < self.flip_steps.len() {
                    self.flip_steps[facts.step_index as int].stance
                } else {
                    self.stance
                },
                ..moved
            },
            Action::FinishFlip { .. } => ControllerView {
                flip_index: facts.step_index as int,
                flip_steps: Seq::empty(),
                stance: LegFlags::all_spec(),
                knee_pattern: match self.knee_flip_target {
                    Some(shape) => shape,
                    None => self.knee_pattern,
                },
                knee_flip_target: None,
                ..moved
            },
            _ => moved,
        }
    }

    /// Whether the relax request has to be carried out after the action.
    pub open spec fn relaxes(self, cmd: Intent, facts: Facts) -> bool {
        cmd.mode is Relax && !(self.state_after(self.action(cmd, facts)) is Relaxed)
    }

    /// The memory after a whole second half of a period, given the state that
    /// the period began in.
    pub open spec fn after_period(self, cmd: Intent, facts: Facts, began: State) -> ControllerView {
        let acted = self.after_action(cmd, facts);
        let last = if self.relaxes(cmd, facts) {
            ControllerView { state: State::Relaxed, ramped_v: Velocity::zero_spec(), ..acted }
        } else {
            acted
        };
        ControllerView { just_changed: began != last.state, ..last }
    }
}

/// Ramp times, in seconds. Zero or less is no ramp.
#[derive(Clone, Copy, Debug, PartialEq, Eq, Structural)]
pub struct RampTimes {
    /// For speeding up.
    pub up_s: Scalar,
    /// For slowing down.
    pub down_s: Scalar,
    /// Longest wait for feet to land when stopping.
    pub settle_s: Scalar,
}

/// The creeping speed at which the gait walks on until feet have landed: a
/// thousandth of a metre per second.
pub const CREEP_M_S: u64 = 0x3f50_624d_d2f1_a9fc;

/// At most zero.
pub open spec fn at_most_zero(x: Scalar) -> bool {
    x.le_num(Scalar::zero_spec())
}

/// One axis of the ramp: the request itself without a ramp, else the step
/// towards it. Slowing down has a ramp of its own.
pub open spec fn ramp_axis(want: Scalar, current: Scalar, times: RampTimes, stepped: Scalar) -> Scalar {
    let slowing = want.abs_spec().lt_num(current.abs_spec());
    let ramp = if slowing { times.down_s } else { times.up_s };
    if at_most_zero(ramp) {
        want
    } else {
        stepped
    }
}

pub open spec fn ramp_all(want: Velocity, current: Velocity, times: RampTimes, stepped: Velocity) -> Velocity {
    Velocity {
        vx_m_s: ramp_axis(want.vx_m_s, current.vx_m_s, times, stepped.vx_m_s),
        vy_m_s: ramp_axis(want.vy_m_s, current.vy_m_s, times, stepped.vy_m_s),
        wz_rad_s: ramp_axis(want.wz_rad_s, current.wz_rad_s, times, stepped.wz_rad_s),
    }
}

pub open spec fn creeps(v: Scalar) -> bool {
    v.abs_spec().le_num(Scalar { bits: CREEP_M_S })
}

pub open spec fn nearly_stopped(v: Velocity) -> bool {
    creeps(v.vx_m_s) && creeps(v.vy_m_s) && creeps(v.wz_rad_s)
}

/// Every foot that was in the air has landed.
pub open spec fn landed(airborne: LegFlags, stance: LegFlags) -> bool {
    &&& airborne.fl ==> stance.fl
    &&& airborne.fr ==> stance.fr
    &&& airborne.rl ==> stance.rl
    &&& airborne.rr ==> stance.rr
}

pub open spec fn in_the_air(stance: LegFlags) -> LegFlags {
    LegFlags { fl: !stance.fl, fr: !stance.fr, rl: !stance.rl, rr: !stance.rr }
}

impl ControllerView {
    /// The ramp is out of play.
    pub open spec fn unramped(dt: Scalar, times: RampTimes) -> bool {
        at_most_zero(dt) || (at_most_zero(times.up_s) && at_most_zero(times.down_s))
    }

    /// The feet that a stop waits for.
    pub open spec fn awaited(self) -> LegFlags {
        match self.settling_airborne {
            Some(a) => a,
            None => in_the_air(self.stance),
        }
    }

    /// One period of the velocity ramp: the memory afterwards, and the velocity
    /// for the gait. `stepped` is one ramp step from the current velocity
    /// towards `want`, `waited` the waiting time with this period added.
    pub open spec fn after_ramp(
        self,
        want: Velocity,
        dt: Scalar,
        times: RampTimes,
        stepped: Velocity,
        waited: Scalar,
    ) -> (ControllerView, Velocity) {
        if Self::unramped(dt, times) {
            (ControllerView { ramped_v: want, ..self }, want)
        } else {
            let next = ramp_all(want, self.ramped_v, times, stepped);
            (ControllerView { ramped_v: next, ..self }).settled(want, times, waited)
        }
    }

    /// The end of a ramp step. A stop that is nearly done becomes exactly zero
    /// once the awaited feet have landed or the wait is over; until then the
    /// gait creeps on.
    pub open spec fn settled(self, want: Velocity, times: RampTimes, waited: Scalar) -> (
        ControllerView,
        Velocity,
    ) {
        if want.is_zero_spec() && nearly_stopped(self.ramped_v) {
            if landed(self.awaited(), self.stance) || times.settle_s.le_num(self.settling_s) {
                (
                    ControllerView {
                        ramped_v: Velocity::zero_spec(),
                        settling_s: Scalar::zero_spec(),
                        settling_airborne: None,
                        ..self
                    },
                    Velocity::zero_spec(),
                )
            } else {
                (
                    ControllerView {
                        settling_s: waited,
                        settling_airborne: Some(self.awaited()),
                        ..self
                    },
                    Velocity { vx_m_s: Scalar { bits: CREEP_M_S }, ..Velocity::zero_spec() },
                )
            }
        } else {
            (
                ControllerView {
                    settling_s: Scalar::zero_spec(),
                    settling_airborne: None,
                    ..self
                },
                self.ramped_v,
            )
        }
    }
}

/// One period of the velocity ramp, as far as it is arithmetic.
#[derive(Clone, Copy, Debug, PartialEq, Eq, Structural)]
pub struct RampStep {
    /// The length of the period, in seconds.
    pub dt: Scalar,
    pub times: RampTimes,
    /// One ramp step of each component, from the current velocity towards the
    /// wanted one.
    pub stepped: Velocity,
    /// The waiting time so far, with this period added.
    pub waited: Scalar,
}

/// What [`Controller::tick`] decided.
#[derive(Clone, Copy, Debug, PartialEq, Eq, Structural)]
pub struct Ticked {
    pub prepared: Prepared,
    pub advanced: Advanced,
    /// The velocity for the gait, where it runs.
    pub velocity: Option<Velocity>,
}

/// The velocity that the gait is asked for: the operator's when walking, zero
/// otherwise.
pub open spec fn wanted(cmd: Intent) -> Velocity {
    if cmd.mode is Walk {
        cmd.velocity
    } else {
        Velocity::zero_spec()
    }
}

pub open spec fn shown(plan: Option<Vec<FlipStep>>) -> Option<Seq<FlipStep>> {
    match plan {
        Some(steps) => Some(steps@),
        None => None,
    }
}

impl ControllerView {
    /// A limp machine has no velocity left over.
    pub open spec fn wf(self) -> bool {
        self.state is Relaxed ==> self.ramped_v == Velocity::zero_spec()
    }

    /// The memory after the operator's switches.
    pub open spec fn readied(self, cmd: Intent, plan: Option<Seq<FlipStep>>) -> ControllerView {
        self.after_switches(cmd).after_knees(cmd, plan).0
    }

    /// The ramp of a period whose switches are taken.
    pub open spec fn ramped(self, cmd: Intent, ramp: RampStep) -> (ControllerView, Velocity) {
        self.after_ramp(wanted(cmd), ramp.dt, ramp.times, ramp.stepped, ramp.waited)
    }

    /// The memory after a whole period. The ramp comes before a relax request is
    /// looked at.
    pub open spec fn after_tick(
        self,
        cmd: Intent,
        plan: Option<Seq<FlipStep>>,
        facts: Facts,
        ramp: RampStep,
    ) -> ControllerView {
        let ready = self.readied(cmd, plan);
        let moving = if ready.action(cmd, facts) is RunGait {
            ready.ramped(cmd, ramp).0
        } else {
            ready
        };
        moving.after_period(cmd, facts, self.state)
    }
}

/// Where the arm's target comes from.
#[derive(Clone, Copy, Debug, PartialEq, Eq, Structural)]
pub enum ArmSource {
    /// The head stabiliser.
    Stabiliser,
    /// The observed angle: others drive the arm.
    Observed(Scalar),
    /// The last target.
    Keep,
}

fn ramp_one(want: Scalar, current: Scalar, times: &RampTimes, stepped: Scalar) -> (r: Scalar)
    ensures
        r == ramp_axis(want, current, *times, stepped),
{
    let slowing: bool = want.abs().less(current.abs());
    let ramp: Scalar = if slowing { times.down_s } else { times.up_s };
    if ramp.at_most(Scalar::zero()) {
        want
    } else {
        stepped
    }
}

fn is_creeping(v: Scalar) -> (r: bool)
    ensures
        r == creeps(v),
{
    v.abs().at_most(Scalar::from_bits(CREEP_M_S))
}

impl Controller {
    /// A relaxed machine.
    pub fn with_arm(
        controller: GaitControllerKind,
        knee_pattern: KneeShape,
        knee_flip_style: KneeFlipStyle,
        arm_app_driven: bool,
        stance: LegFlags,
    ) -> (r: Controller)
        ensures
            r@ == (ControllerView {
                state: State::Relaxed,
                gait_select: GaitSelect::Crawl,
                controller,
                knee_pattern,
                knee_flip_style,
                arm_app_driven,
                ramped_v: Velocity::zero_spec(),
                stance,
                just_changed: false,
                alt_pose_requested: false,
                warned_knee_flip: false,
                knee_flip_failed: None,
                knee_flip_target: None,
                flip_steps: Seq::empty(),
                flip_index: 0,
                warned_chicken_head: false,
                settling_s: Scalar::zero_spec(),
                settling_airborne: None,
            }),
            r@.wf(),
    {
        Controller {
            state: State::Relaxed,
            gait_select: GaitSelect::Crawl,
            controller,
            knee_pattern,
            knee_flip_style,
            arm_app_driven,
            ramped_v: Velocity::zero(),
            stance,
            just_changed: false,
            alt_pose_requested: false,
            warned_knee_flip: false,
            knee_flip_failed: None,
            knee_flip_target: None,
            flip_steps: Vec::new(),
            flip_index: 0,
            warned_chicken_head: false,
            settling_s: Scalar::zero(),
            settling_airborne: None,
        }
    }

    pub fn state(&self) -> (r: State)
        ensures
            r == self@.state,
    {
        self.state
    }

    pub fn gait_select(&self) -> (r: GaitSelect)
        ensures
            r == self@.gait_select,
    {
        self.gait_select
    }

    pub fn controller_kind(&self) -> (r: GaitControllerKind)
        ensures
            r == self@.controller,
    {
        self.controller
    }

    pub fn knee_pattern(&self) -> (r: KneeShape)
        ensures
            r == self@.knee_pattern,
    {
        self.knee_pattern
    }

    /// Whether the last period changed the state.
    pub fn state_changed(&self) -> (r: bool)
        ensures
            r == self@.just_changed,
    {
        self.just_changed
    }

    /// Standing still in the gait.
    pub fn is_standing_still(&self) -> (r: bool)
        ensures
            r == (self@.state is Active && self@.can_switch()),
    {
        self.state == State::Active && self.can_switch_gait()
    }

    /// Whether the gait may be replaced now.
    pub fn can_switch_gait(&self) -> (r: bool)
        ensures
            r == self@.can_switch(),
    {
        match self.state {
            State::PlayingPose => false,
            State::FlippingKnees => false,
            State::Active => self.ramped_v.is_zero() && self.stance == LegFlags::all(),
            _ => true,
        }
    }

    /// The knee pattern for which [`Controller::tick`] will want a choreography.
    /// It starts in that call if it is given one.
    pub fn plan_needed(&self, cmd: &Intent) -> (r: Option<KneeShape>)
        ensures
            r == self@.plan_needed(*cmd),
    {
        match cmd.knee_pattern {
            Some(shape) => {
                let failed: bool = match self.knee_flip_failed {
                    Some(f) => f == shape,
                    None => false,
                };
                if shape != self.knee_pattern && !failed && self.state == State::Active
                    && self.can_switch_gait() {
                    Some(shape)
                } else {
                    None
                }
            },
            None => None,
        }
    }

    /// One period. `plan` is the choreography for the knees that
    /// [`Controller::plan_needed`] names, `None` where there is none; `facts` are
    /// those of the trajectories once it has started.
    pub fn tick(
        &mut self,
        cmd: &Intent,
        plan: Option<Vec<FlipStep>>,
        facts: &Facts,
        ramp: &RampStep,
    ) -> (r: Ticked)
        ensures
            final(self)@ == old(self)@.after_tick(*cmd, shown(plan), *facts, *ramp),
            old(self)@.wf() ==> final(self)@.wf(),
            r.prepared == (Prepared {
                switch_gait: old(self)@.switches_gait(*cmd),
                switch_controller: old(self)@.switches_controller(*cmd),
                knee: old(self)@.after_switches(*cmd).after_knees(*cmd, shown(plan)).1,
            }),
            ({
                let ready = old(self)@.readied(*cmd, shown(plan));
                &&& r.advanced.action == ready.action(*cmd, *facts)
                &&& r.advanced.relaxed == ready.relaxes(*cmd, *facts)
                &&& r.velocity == (if ready.action(*cmd, *facts) is RunGait {
                    Some(ready.ramped(*cmd, *ramp).1)
                } else {
                    None
                })
            }),
            r.advanced.legs_idle == (final(self)@.state is Relaxed),
    {
        let began: State = self.state;
        let prepared = self.prepare(cmd, plan);
        let ghost ready = self@;
        let runs: bool = self.state == State::Active && !cmd.play_pose && cmd.mode != ModeRequest::Stand;
        let velocity: Option<Velocity> = if runs {
            let want = Self::wanted_velocity(cmd);
            Some(self.ramp_velocity(want, ramp.dt, &ramp.times, ramp.stepped, ramp.waited))
        } else {
            None
        };
        assert(self@.action(*cmd, *facts) == ready.action(*cmd, *facts));
        let advanced = self.advance(cmd, facts, began);
        Ticked { prepared, advanced, velocity }
    }

    /// Takes the operator's switches: footfall pattern, gait controller, knees.
    /// `plan` is the choreography for the requested knees, `None` where there
    /// is none.
    fn prepare(&mut self, cmd: &Intent, plan: Option<Vec<FlipStep>>) -> (r: Prepared)
        ensures
            final(self)@ == old(self)@.readied(*cmd, shown(plan)),
            r.knee == old(self)@.after_switches(*cmd).after_knees(*cmd, shown(plan)).1,
            r.switch_gait == old(self)@.switches_gait(*cmd),
            r.switch_controller == old(self)@.switches_controller(*cmd),
    {
        let allowed: bool = self.can_switch_gait();
        let mut switch_gait: bool = false;
        if cmd.gait != self.gait_select && allowed {
            self.gait_select = cmd.gait;
            switch_gait = true;
        }
        let mut switch_controller: bool = false;
        if let Some(req) = cmd.gait_controller {
            let kind: GaitControllerKind = match req {
                GaitControllerRequest::Champ => GaitControllerKind::Champ,
                GaitControllerRequest::Mpc => GaitControllerKind::Mpc,
            };
            if kind != self.controller && allowed {
                self.controller = kind;
                switch_controller = true;
            }
        }
        let knee = self.handle_knee_request(cmd, plan);
        Prepared { switch_gait, switch_controller, knee }
    }

    fn handle_knee_request(&mut self, cmd: &Intent, plan: Option<Vec<FlipStep>>) -> (r: KneeOutcome)
        ensures
            (final(self)@, r) == old(self)@.after_knees(*cmd, shown(plan)),
    {
        let shape: KneeShape = match cmd.knee_pattern {
            Some(shape) => shape,
            None => {
                self.warned_knee_flip = false;
                self.knee_flip_failed = None;
                return KneeOutcome::Nothing;
            },
        };
        if shape == self.knee_pattern || self.state == State::FlippingKnees {
            self.warned_knee_flip = false;
            self.knee_flip_failed = None;
            return KneeOutcome::Nothing;
        }
        if let Some(failed) = self.knee_flip_failed {
            if failed == shape {
                return KneeOutcome::Nothing;
            }
        }
        if self.state != State::Active || !self.can_switch_gait() {
            if self.warned_knee_flip {
                return KneeOutcome::Nothing;
            }
            self.warned_knee_flip = true;
            return KneeOutcome::Refused;
        }
        match plan {
            Some(steps) => {
                self.flip_steps = steps;
                self.flip_index = 0;
                self.knee_flip_target = Some(shape);
                self.state = State::FlippingKnees;
                KneeOutcome::Started
            },
            None => {
                self.knee_flip_failed = Some(shape);
                KneeOutcome::Impossible
            },
        }
    }

    /// Takes the state forward. `began` is the state that the period began in.
    fn advance(&mut self, cmd: &Intent, facts: &Facts, began: State) -> (r: Advanced)
        ensures
            final(self)@ == old(self)@.after_period(*cmd, *facts, began),
            r.action == old(self)@.action(*cmd, *facts),
            r.relaxed == old(self)@.relaxes(*cmd, *facts),
            r.legs_idle == (final(self)@.state is Relaxed),
    {
        let action: Action = self.act(cmd, facts);
        let mut relaxed: bool = false;
        if cmd.mode == ModeRequest::Relax && self.state != State::Relaxed {
            self.enter_relaxed();
            relaxed = true;
        }
        self.just_changed = began != self.state;
        Advanced { action, relaxed, legs_idle: self.state == State::Relaxed }
    }

    #[verifier::rlimit(60)]
    fn act(&mut self, cmd: &Intent, facts: &Facts) -> (r: Action)
        ensures
            r == old(self)@.action(*cmd, *facts),
            final(self)@ == old(self)@.after_action(*cmd, *facts),
    {
        match self.state {
            State::Relaxed => {
                if cmd.mode == ModeRequest::Relax {
                    Action::TrackMeasured
                } else {
                    self.state = State::GoingToStart;
                    Action::RiseFromMeasured { to_start_pose: facts.start_pose_known }
                }
            },
            State::GoingToStart => {
                if !facts.player_done {
                    Action::Follow
                } else if cmd.mode == ModeRequest::Walk {
                    self.state = State::GoingToStance;
                    Action::ToStance
                } else {
                    self.state = State::HoldingStart;
                    Action::Hold
                }
            },
            State::HoldingStart => {
                if cmd.mode == ModeRequest::Walk {
                    self.state = State::GoingToStance;
                    Action::ToStance
                } else {
                    Action::Hold
                }
            },
            State::GoingToStance => {
                if facts.player_done {
                    self.state = State::Active;
                    Action::HandOver
                } else {
                    Action::Follow
                }
            },
            State::Active => self.advance_active(cmd, facts),
            State::PlayingPose => {
                if facts.player_done || cmd.mode == ModeRequest::Stand {
                    self.state = State::GoingToStance;
                    Action::ToStance
                } else {
                    Action::Follow
                }
            },
            State::FlippingKnees => self.advance_flip(cmd, facts),
        }
    }

    fn advance_active(&mut self, cmd: &Intent, facts: &Facts) -> (r: Action)
        requires
            old(self)@.state is Active,
        ensures
            r == old(self)@.action(*cmd, *facts),
            final(self)@ == old(self)@.after_action(*cmd, *facts),
    {
        if cmd.play_pose {
            // The switch as it stands at this moment decides. Moving it later
            // does not change the pose.
            self.alt_pose_requested = cmd.pose_slot.0 != 0;
            let alt: bool = self.alt_pose_requested && facts.alt_configured;
            let known: bool = if alt { facts.alt_known } else { facts.greeting_known };
            if known {
                self.state = State::PlayingPose;
                return Action::Play { alt };
            }
            return Action::PoseMissing { alt };
        }
        if cmd.mode == ModeRequest::Stand {
            if facts.start_pose_known {
                self.state = State::GoingToStart;
                return Action::ToStart;
            }
            return Action::StartPoseMissing;
        }
        Action::RunGait
    }

    fn advance_flip(&mut self, cmd: &Intent, facts: &Facts) -> (r: Action)
        requires
            old(self)@.state is FlippingKnees,
        ensures
            r == old(self)@.action(*cmd, *facts),
            final(self)@ == old(self)@.after_action(*cmd, *facts),
    {
        let now: usize = facts.step_index;
        let edge = flip_edge(&self.flip_steps, self.flip_index, now);
        let balance = balance_of(&self.flip_steps, self.knee_flip_style, now);
        self.flip_index = now;
        if !facts.player_done {
            if now < self.flip_steps.len() {
                self.stance = self.flip_steps[now].stance;
            }
            return Action::FollowFlip { edge, balance };
        }
        let adopted = self.knee_flip_target;
        self.flip_steps = Vec::new();
        self.stance = LegFlags::all();
        if let Some(shape) = adopted {
            self.knee_pattern = shape;
        }
        self.knee_flip_target = None;
        self.state = State::Active;
        Action::FinishFlip { edge, balance, adopted }
    }

    /// Goes limp. The next start must not walk off at the old velocity.
    pub fn enter_relaxed(&mut self)
        ensures
            final(self)@ == (ControllerView {
                state: State::Relaxed,
                ramped_v: Velocity::zero_spec(),
                ..old(self)@
            }),
            final(self)@.wf(),
    {
        self.state = State::Relaxed;
        self.ramped_v = Velocity::zero();
    }

    /// Takes over the feet that the gait plans on the ground.
    pub fn observe_stance(&mut self, stance: LegFlags)
        ensures
            final(self)@ == (ControllerView { stance, ..old(self)@ }),
            old(self)@.wf() ==> final(self)@.wf(),
    {
        self.stance = stance;
    }

    /// The velocity that the gait is asked for: the operator's when walking,
    /// zero otherwise.
    pub fn wanted_velocity(cmd: &Intent) -> (r: Velocity)
        ensures
            r == wanted(*cmd),
    {
        if cmd.mode == ModeRequest::Walk {
            cmd.velocity
        } else {
            Velocity::zero()
        }
    }

    /// One period of the velocity ramp. `stepped` is one ramp step of each
    /// component from the current velocity towards `want`, and `waited` the
    /// waiting time so far with this period added.
    fn ramp_velocity(
        &mut self,
        want: Velocity,
        dt: Scalar,
        times: &RampTimes,
        stepped: Velocity,
        waited: Scalar,
    ) -> (r: Velocity)
        ensures
            (final(self)@, r) == old(self)@.after_ramp(want, dt, *times, stepped, waited),
    {
        let zero = Scalar::zero();
        if dt.at_most(zero) || (times.up_s.at_most(zero) && times.down_s.at_most(zero)) {
            self.ramped_v = want;
            return want;
        }
        let now = self.ramped_v;
        let next = Velocity {
            vx_m_s: ramp_one(want.vx_m_s, now.vx_m_s, times, stepped.vx_m_s),
            vy_m_s: ramp_one(want.vy_m_s, now.vy_m_s, times, stepped.vy_m_s),
            wz_rad_s: ramp_one(want.wz_rad_s, now.wz_rad_s, times, stepped.wz_rad_s),
        };
        self.ramped_v = next;
        self.settle(want, times, waited)
    }

    /// The end of a ramp step: a stop waits here for feet to land.
    fn settle(&mut self, want: Velocity, times: &RampTimes, waited: Scalar) -> (r: Velocity)
        ensures
            (final(self)@, r) == old(self)@.settled(want, *times, waited),
    {
        let zero = Scalar::zero();
        let next = self.ramped_v;
        // Exactly zero makes the gait snap all feet to the ground. So the stop
        // creeps on until the feet that were in the air have landed.
        let stopping: bool = want.is_zero();
        let slow: bool = is_creeping(next.vx_m_s) && is_creeping(next.vy_m_s) && is_creeping(
            next.wz_rad_s,
        );
        if stopping && slow {
            let stance = self.stance;
            let airborne: LegFlags = match self.settling_airborne {
                Some(a) => a,
                None => LegFlags { fl: !stance.fl, fr: !stance.fr, rl: !stance.rl, rr: !stance.rr },
            };
            let down: bool = (!airborne.fl || stance.fl) && (!airborne.fr || stance.fr) && (!airborne.rl
                || stance.rl) && (!airborne.rr || stance.rr);
            if down || times.settle_s.at_most(self.settling_s) {
                self.settling_s = zero;
                self.settling_airborne = None;
                self.ramped_v = Velocity::zero();
                return Velocity::zero();
            }
            self.settling_airborne = Some(airborne);
            self.settling_s = waited;
            return Velocity { vx_m_s: Scalar::from_bits(CREEP_M_S), vy_m_s: zero, wz_rad_s: zero };
        }
        self.settling_s = zero;
        self.settling_airborne = None;
        next
    }

    /// Where this period's arm target comes from while the gait runs, and
    /// whether to say once that the head cannot be stabilised.
    pub fn arm_source(&mut self, cmd: &Intent, attitude_enabled: bool) -> (r: (ArmSource, bool))
        ensures
            r.0 == (if old(self)@.arm_app_driven {
                ArmSource::Stabiliser
            } else {
                match cmd.aux_spec(0) {
                    Some(q) => ArmSource::Observed(q),
                    None => ArmSource::Keep,
                }
            }),
            r.1 == (!old(self)@.arm_app_driven && cmd.stabilize_head && !attitude_enabled && !old(
                self,
            )@.warned_chicken_head),
            final(self)@ == (ControllerView {
                warned_chicken_head: old(self)@.warned_chicken_head || r.1,
                ..old(self)@
            }),
    {
        if self.arm_app_driven {
            return (ArmSource::Stabiliser, false);
        }
        let warn: bool = cmd.stabilize_head && !attitude_enabled && !self.warned_chicken_head;
        if warn {
            self.warned_chicken_head = true;
        }
        match cmd.aux(0) {
            Some(q) => (ArmSource::Observed(q), warn),
            None => (ArmSource::Keep, warn),
        }
    }

    /// The observed arm angle that replaces the target while a trajectory runs,
    /// where others drive the arm.
    pub fn arm_override(&self, cmd: &Intent) -> (r: Option<Scalar>)
        ensures
            r == (if self@.arm_app_driven { None } else { cmd.aux_spec(0) }),
    {
        if self.arm_app_driven {
            None
        } else {
            cmd.aux(0)
        }
    }
}

/// A relax request takes effect within the period, from any state and whatever
/// the gait is doing: the machine is limp and no velocity is left over.
pub proof fn relax_takes_effect_from_any_state(
    c: ControllerView,
    cmd: Intent,
    plan: Option<Seq<FlipStep>>,
    facts: Facts,
    ramp: RampStep,
)
    requires
        c.wf(),
        cmd.mode is Relax,
    ensures
        c.after_tick(cmd, plan, facts, ramp).state is Relaxed,
        c.after_tick(cmd, plan, facts, ramp).ramped_v == Velocity::zero_spec(),
{
}

/// What one period is given.
pub struct Inputs {
    pub cmd: Intent,
    pub plan: Option<Seq<FlipStep>>,
    pub facts: Facts,
    pub ramp: RampStep,
    /// The feet that the gait plans on the ground afterwards, where it ran.
    pub stance: Option<LegFlags>,
}

impl ControllerView {
    /// The memory after a period and the gait's report.
    pub open spec fn after_inputs(self, i: Inputs) -> ControllerView {
        let ticked = self.after_tick(i.cmd, i.plan, i.facts, i.ramp);
        match i.stance {
            Some(stance) => ControllerView { stance, ..ticked },
            None => ticked,
        }
    }

    /// The memory after a run of periods.
    pub open spec fn after_run(self, run: Seq<Inputs>) -> ControllerView
        decreases run.len(),
    {
        if run.len() == 0 {
            self
        } else {
            self.after_run(run.drop_last()).after_inputs(run.last())
        }
    }
}

/// Over any run of periods a limp machine has no velocity left over, so that the
/// next start does not walk off. The last period says that the state changed
/// exactly where it did.
pub proof fn a_limp_machine_never_keeps_a_velocity(c: ControllerView, run: Seq<Inputs>)
    requires
        c.wf(),
    ensures
        c.after_run(run).wf(),
        run.len() > 0 ==> c.after_run(run).just_changed == (c.after_run(run.drop_last()).state
            != c.after_run(run).state),
        run.len() > 0 && run.last().cmd.mode is Relax ==> {
            &&& c.after_run(run).state is Relaxed
            &&& c.after_run(run).ramped_v == Velocity::zero_spec()
        },
    decreases run.len(),
{
    if run.len() > 0 {
        a_limp_machine_never_keeps_a_velocity(c, run.drop_last());
        let i = run.last();
        lemma_one_period(c.after_run(run.drop_last()), i.cmd, i.plan, i.facts, i.ramp);
    }
}

#[verifier::spinoff_prover]
#[verifier::rlimit(40)]
proof fn lemma_one_period(
    c: ControllerView,
    cmd: Intent,
    plan: Option<Seq<FlipStep>>,
    facts: Facts,
    ramp: RampStep,
)
    requires
        c.wf(),
    ensures
        ({
            let next = c.after_tick(cmd, plan, facts, ramp);
            &&& next.wf()
            &&& next.just_changed == (c.state != next.state)
            &&& cmd.mode is Relax ==> next.state is Relaxed && next.ramped_v == Velocity::zero_spec()
        }),
{
}

/// A limp robot stays limp until it is asked for more.
pub proof fn a_limp_robot_does_not_rise_by_itself(
    c: ControllerView,
    cmd: Intent,
    facts: Facts,
    plan: Option<Seq<FlipStep>>,
    began: State,
)
    requires
        c.state is Relaxed,
        cmd.mode is Relax,
    ensures
        c.after_switches(cmd).after_knees(cmd, plan).0.after_period(cmd, facts, began).state is Relaxed,
{
}

/// The gait takes over only from the stance, from a finished choreography, or
/// by running on: nobody walks without having stood.
pub proof fn the_gait_starts_from_the_stance(c: ControllerView, cmd: Intent, facts: Facts, began: State)
    requires
        c.after_period(cmd, facts, began).state is Active,
    ensures
        c.state is GoingToStance || c.state is FlippingKnees || c.state is Active,
{
}

/// Rising always begins with the start pose, and the start pose is held until
/// walking is asked for.
pub proof fn rising_goes_through_the_start_pose(c: ControllerView, cmd: Intent, facts: Facts, began: State)
    ensures
        c.state is Relaxed ==> {
            let s = c.after_period(cmd, facts, began).state;
            s is Relaxed || s is GoingToStart
        },
        (c.state is GoingToStart || c.state is HoldingStart) && cmd.mode is Stand ==> {
            let s = c.after_period(cmd, facts, began).state;
            s is GoingToStart || s is HoldingStart
        },
{
}

/// A lost link leaves a walking robot in its gait with nothing to walk: the
/// mode is kept, no pose fires and no velocity is asked for.
pub proof fn a_lost_link_holds_the_stance(
    c: ControllerView,
    before: Intent,
    lost: Intent,
    facts: Facts,
    began: State,
)
    requires
        lost.failsafe_of(&before),
        before.mode is Walk,
        c.state is Active,
    ensures
        c.after_period(lost, facts, began).state is Active,
        c.action(lost, facts) is RunGait,
        lost.velocity.is_zero_spec(),
{
    intent::failsafe_never_raises_activity(lost, before);
}

/// Neither the footfall pattern, nor the gait controller, nor the knees change
/// while a leg of the running gait is in the air or the robot is moving.
pub proof fn switches_wait_for_a_standing_robot(
    c: ControllerView,
    cmd: Intent,
    plan: Option<Seq<FlipStep>>,
)
    requires
        c.state is Active,
        !c.ramped_v.is_zero_spec() || c.stance != LegFlags::all_spec(),
    ensures
        ({
            let after = c.after_switches(cmd).after_knees(cmd, plan).0;
            &&& after.gait_select == c.gait_select
            &&& after.controller == c.controller
            &&& after.knee_pattern == c.knee_pattern
            &&& after.state is Active
            &&& after.flip_steps == c.flip_steps
        }),
{
}

/// Nothing is switched while a pose plays or knees are turned.
pub proof fn switches_wait_for_the_choreography(
    c: ControllerView,
    cmd: Intent,
    plan: Option<Seq<FlipStep>>,
)
    requires
        c.state is PlayingPose || c.state is FlippingKnees,
    ensures
        ({
            let after = c.after_switches(cmd).after_knees(cmd, plan).0;
            &&& after.gait_select == c.gait_select
            &&& after.controller == c.controller
            &&& after.knee_pattern == c.knee_pattern
            &&& after.state == c.state
            &&& after.flip_steps == c.flip_steps
        }),
{
}

/// The knee pattern changes only when a choreography ends, and then to the one
/// that it was started for.
pub proof fn knees_change_only_through_a_choreography(
    c: ControllerView,
    cmd: Intent,
    facts: Facts,
    began: State,
)
    requires
        c.after_period(cmd, facts, began).knee_pattern != c.knee_pattern,
    ensures
        c.state is FlippingKnees,
        facts.player_done,
        c.knee_flip_target == Some(c.after_period(cmd, facts, began).knee_pattern),
{
}

/// A choreography starts in the very period in which it is needed and given, and
/// in no other.
pub proof fn a_needed_plan_starts_at_once(c: ControllerView, cmd: Intent, plan: Option<Seq<FlipStep>>)
    ensures
        c.after_switches(cmd).after_knees(cmd, plan).1 is Started <==> c.plan_needed(cmd) is Some
            && plan is Some,
        c.readied(cmd, plan).state == (if c.plan_needed(cmd) is Some && plan is Some {
            State::FlippingKnees
        } else {
            c.state
        }),
{
}

/// A refused knee request is refused once, and one that cannot be planned is
/// not tried again, for as long as it stays.
pub proof fn a_standing_knee_request_is_reported_once(
    c: ControllerView,
    cmd: Intent,
    plan: Option<Seq<FlipStep>>,
    again: Option<Seq<FlipStep>>,
)
    requires
        c.after_knees(cmd, plan).1 is Refused || c.after_knees(cmd, plan).1 is Impossible,
    ensures
        c.after_knees(cmd, plan).0.after_knees(cmd, again).1 is Nothing,
        c.after_knees(cmd, plan).0.after_knees(cmd, again).0 == c.after_knees(cmd, plan).0,
{
}

/// The gait is given exactly zero only when every foot that was in the air has
/// landed, or the wait is over.
pub proof fn stopping_waits_for_airborne_feet(
    c: ControllerView,
    dt: Scalar,
    times: RampTimes,
    stepped: Velocity,
    waited: Scalar,
)
    requires
        !ControllerView::unramped(dt, times),
        nearly_stopped(ramp_all(Velocity::zero_spec(), c.ramped_v, times, stepped)),
        !landed(c.awaited(), c.stance),
        !times.settle_s.le_num(c.settling_s),
    ensures
        ({
            let (after, out) = c.after_ramp(Velocity::zero_spec(), dt, times, stepped, waited);
            &&& !out.is_zero_spec()
            &&& after.settling_s == waited
            &&& after.settling_airborne == Some(c.awaited())
        }),
{
}

/// Asking to move again ends a pending stop at once.
pub proof fn a_new_request_cancels_the_stop(
    c: ControllerView,
    want: Velocity,
    dt: Scalar,
    times: RampTimes,
    stepped: Velocity,
    waited: Scalar,
)
    requires
        !want.is_zero_spec(),
        !ControllerView::unramped(dt, times),
    ensures
        ({
            let (after, out) = c.after_ramp(want, dt, times, stepped, waited);
            &&& after.settling_airborne is None
            &&& after.settling_s == Scalar::zero_spec()
            &&& out == after.ramped_v
        }),
{
}

// ---- What the velocity ramp does to a request ----

/// `out` is what the ramp makes of `want` for one component whose velocity is
/// `now`: the request itself where the ramp that applies has no length, else the
/// step. A falling magnitude has a ramp of its own.
pub open spec fn ramps_to(want: Scalar, now: Scalar, times: RampTimes, step: Scalar, out: Scalar) -> bool {
    &&& want.abs_spec().lt_num(now.abs_spec()) && times.down_s.le_num(Scalar::zero_spec()) ==> out == want
    &&& want.abs_spec().lt_num(now.abs_spec()) && !times.down_s.le_num(Scalar::zero_spec()) ==> out
        == step
    &&& !want.abs_spec().lt_num(now.abs_spec()) && times.up_s.le_num(Scalar::zero_spec()) ==> out == want
    &&& !want.abs_spec().lt_num(now.abs_spec()) && !times.up_s.le_num(Scalar::zero_spec()) ==> out == step
}

/// A request to move reaches the gait ramped in each of its three components, and
/// what the gait is given is what is remembered for the next step.
pub proof fn a_request_to_move_is_ramped_in_every_component(
    c: ControllerView,
    want: Velocity,
    dt: Scalar,
    times: RampTimes,
    stepped: Velocity,
    waited: Scalar,
)
    requires
        !(want.vx_m_s.is_zero_num() && want.vy_m_s.is_zero_num() && want.wz_rad_s.is_zero_num()),
        !dt.le_num(Scalar::zero_spec()),
    ensures
        ({
            let (after, out) = c.after_ramp(want, dt, times, stepped, waited);
            &&& ramps_to(want.vx_m_s, c.ramped_v.vx_m_s, times, stepped.vx_m_s, out.vx_m_s)
            &&& ramps_to(want.vy_m_s, c.ramped_v.vy_m_s, times, stepped.vy_m_s, out.vy_m_s)
            &&& ramps_to(want.wz_rad_s, c.ramped_v.wz_rad_s, times, stepped.wz_rad_s, out.wz_rad_s)
            &&& after.ramped_v == out
            &&& stepped == want ==> out == want
        }),
{
}

/// Where no time has passed, or neither ramp has a length, the gait gets the
/// request itself.
pub proof fn without_a_ramp_the_request_goes_through(
    c: ControllerView,
    want: Velocity,
    dt: Scalar,
    times: RampTimes,
    stepped: Velocity,
    waited: Scalar,
)
    requires
        dt.le_num(Scalar::zero_spec()) || (times.up_s.le_num(Scalar::zero_spec())
            && times.down_s.le_num(Scalar::zero_spec())),
    ensures
        c.after_ramp(want, dt, times, stepped, waited).1 == want,
        c.after_ramp(want, dt, times, stepped, waited).0 == (ControllerView { ramped_v: want, ..c }),
{
}

/// A leg that was in the air when the stop was asked for, or is now if none is on
/// record, and that has not come down.
pub open spec fn still_up(c: ControllerView, leg: int) -> bool {
    !c.stance.at(leg) && match c.settling_airborne {
        Some(up) => up.at(leg),
        None => true,
    }
}

/// A stop ramps down in every component. Once all three creep, the gait gets
/// exactly zero if no awaited foot is still up or the wait is over; else it creeps
/// forward and the wait goes on. Until they creep the ramp alone decides.
pub proof fn a_stop_waits_only_for_feet_that_were_up(
    c: ControllerView,
    want: Velocity,
    dt: Scalar,
    times: RampTimes,
    stepped: Velocity,
    waited: Scalar,
    vx: Scalar,
    vy: Scalar,
    wz: Scalar,
)
    requires
        want.vx_m_s.is_zero_num() && want.vy_m_s.is_zero_num() && want.wz_rad_s.is_zero_num(),
        !dt.le_num(Scalar::zero_spec()),
        !times.up_s.le_num(Scalar::zero_spec()) || !times.down_s.le_num(Scalar::zero_spec()),
        ramps_to(want.vx_m_s, c.ramped_v.vx_m_s, times, stepped.vx_m_s, vx),
        ramps_to(want.vy_m_s, c.ramped_v.vy_m_s, times, stepped.vy_m_s, vy),
        ramps_to(want.wz_rad_s, c.ramped_v.wz_rad_s, times, stepped.wz_rad_s, wz),
    ensures
        ({
            let (after, out) = c.after_ramp(want, dt, times, stepped, waited);
            let slow = Scalar { bits: CREEP_M_S };
            let creeping = vx.abs_spec().le_num(slow) && vy.abs_spec().le_num(slow)
                && wz.abs_spec().le_num(slow);
            let up = still_up(c, 0) || still_up(c, 1) || still_up(c, 2) || still_up(c, 3);
            let over = times.settle_s.le_num(c.settling_s);
            let ramped = Velocity { vx_m_s: vx, vy_m_s: vy, wz_rad_s: wz };
            &&& !creeping ==> out == ramped && after.ramped_v == ramped && after.settling_airborne is None
                && after.settling_s == Scalar::zero_spec()
            &&& creeping && (!up || over) ==> out == Velocity::zero_spec() && after.ramped_v
                == Velocity::zero_spec() && after.settling_airborne is None && after.settling_s
                == Scalar::zero_spec()
            &&& creeping && up && !over ==> {
                &&& out == (Velocity {
                    vx_m_s: slow,
                    vy_m_s: Scalar::zero_spec(),
                    wz_rad_s: Scalar::zero_spec(),
                })
                &&& after.ramped_v == ramped
                &&& after.settling_s == waited
                &&& after.settling_airborne matches Some(legs) && (c.settling_airborne is Some ==> Some(
                    legs,
                ) == c.settling_airborne) && (c.settling_airborne is None ==> forall|l: int|
                    0 <= l < 4 ==> #[trigger] legs.at(l) == !c.stance.at(l))
            }
        }),
{
}

/// The gait runs exactly in the gait's own state, when neither a pose nor the
/// start pose is asked for. It is then given the operator's velocity if walking is
/// asked for, and is asked to stop otherwise.
pub proof fn the_gait_follows_the_operator(
    c: ControllerView,
    cmd: Intent,
    facts: Facts,
    ramp: RampStep,
)
    requires
        c.state is Active,
        !cmd.play_pose,
        cmd.mode != ModeRequest::Stand,
    ensures
        c.action(cmd, facts) is RunGait,
        cmd.mode == ModeRequest::Walk ==> c.ramped(cmd, ramp) == c.after_ramp(
            cmd.velocity,
            ramp.dt,
            ramp.times,
            ramp.stepped,
            ramp.waited,
        ),
        cmd.mode == ModeRequest::Relax ==> c.ramped(cmd, ramp) == c.after_ramp(
            Velocity::zero_spec(),
            ramp.dt,
            ramp.times,
            ramp.stepped,
            ramp.waited,
        ),
        cmd.mode == ModeRequest::Walk ==> ({
            let after = c.after_action(cmd, facts);
            after.state is Active
        }),
{
}

/// The gait runs in no other state and for no other request.
pub proof fn only_the_gait_state_runs_the_gait(c: ControllerView, cmd: Intent, facts: Facts)
    requires
        c.action(cmd, facts) is RunGait,
    ensures
        c.state is Active,
        !cmd.play_pose,
        cmd.mode != ModeRequest::Stand,
{
}

/// The ramp touches nothing but its own memory.
#[verifier::spinoff_prover]
pub proof fn the_ramp_touches_only_its_memory(
    c: ControllerView,
    want: Velocity,
    dt: Scalar,
    times: RampTimes,
    stepped: Velocity,
    waited: Scalar,
)
    ensures
        ({
            let after = c.after_ramp(want, dt, times, stepped, waited).0;
            &&& after.state == c.state
            &&& after.gait_select == c.gait_select
            &&& after.controller == c.controller
            &&& after.knee_pattern == c.knee_pattern
            &&& after.stance == c.stance
            &&& after.flip_steps == c.flip_steps
            &&& after.flip_index == c.flip_index
            &&& after.knee_flip_target == c.knee_flip_target
            &&& after.knee_flip_failed == c.knee_flip_failed
            &&& after.alt_pose_requested == c.alt_pose_requested
            &&& after.just_changed == c.just_changed
        }),
{
}

// ---- The course of the states ----

/// Rising: a limp machine that is asked for anything goes to the start pose from
/// where it was measured, or to the stance where the pose is not known.
pub proof fn any_request_makes_a_limp_machine_rise(c: ControllerView, cmd: Intent, facts: Facts, began: State)
    requires
        c.state is Relaxed,
        cmd.mode != ModeRequest::Relax,
    ensures
        c.after_period(cmd, facts, began).state == State::GoingToStart,
        c.action(cmd, facts) == (Action::RiseFromMeasured { to_start_pose: facts.start_pose_known }),
{
}

/// A trajectory on the way somewhere is followed until it ends, and only then does
/// the state move on: from the start pose to the stance if walking is asked for,
/// else to holding it; from the stance to the gait; from a pose to the stance.
pub proof fn a_running_trajectory_is_followed_to_its_end(
    c: ControllerView,
    cmd: Intent,
    facts: Facts,
    began: State,
)
    requires
        cmd.mode != ModeRequest::Relax,
    ensures
        ({
            let next = c.after_period(cmd, facts, began).state;
            let act = c.action(cmd, facts);
            &&& c.state is GoingToStart && !facts.player_done ==> act == Action::Follow && next == c.state
            &&& c.state is GoingToStart && facts.player_done && cmd.mode == ModeRequest::Walk ==> act
                == Action::ToStance && next == State::GoingToStance
            &&& c.state is GoingToStart && facts.player_done && cmd.mode == ModeRequest::Stand ==> act
                == Action::Hold && next == State::HoldingStart
            &&& c.state is GoingToStance && !facts.player_done ==> act == Action::Follow && next
                == c.state
            &&& c.state is GoingToStance && facts.player_done ==> act == Action::HandOver && next
                == State::Active
            &&& c.state is PlayingPose && !facts.player_done && cmd.mode == ModeRequest::Walk ==> act
                == Action::Follow && next == c.state
            &&& c.state is PlayingPose && facts.player_done ==> act == Action::ToStance && next
                == State::GoingToStance
            &&& c.state is PlayingPose && cmd.mode == ModeRequest::Stand ==> act == Action::ToStance
                && next == State::GoingToStance
        }),
{
}

/// The start pose is held until walking is asked for, and then left for the
/// stance.
pub proof fn a_held_start_pose_waits_for_walking(c: ControllerView, cmd: Intent, facts: Facts, began: State)
    requires
        c.state is HoldingStart,
    ensures
        cmd.mode == ModeRequest::Walk ==> c.action(cmd, facts) == Action::ToStance && c.after_period(
            cmd,
            facts,
            began,
        ).state == State::GoingToStance,
        cmd.mode == ModeRequest::Stand ==> c.action(cmd, facts) == Action::Hold && c.after_period(
            cmd,
            facts,
            began,
        ).state == State::HoldingStart,
{
}

/// In the gait, a pose that is asked for and known plays, the alternative one when
/// its slot is chosen and configured; one that is not known changes no state.
/// Asked to stand, the machine goes back to the start pose if it is known.
pub proof fn poses_and_the_start_pose_leave_the_gait(
    c: ControllerView,
    cmd: Intent,
    facts: Facts,
    began: State,
)
    requires
        c.state is Active,
        cmd.mode != ModeRequest::Relax,
    ensures
        ({
            let next = c.after_period(cmd, facts, began);
            let act = c.action(cmd, facts);
            let alt = cmd.pose_slot.0 != 0 && facts.alt_configured;
            &&& cmd.play_pose && alt && facts.alt_known ==> act == (Action::Play { alt: true })
                && next.state == State::PlayingPose
            &&& cmd.play_pose && alt && !facts.alt_known ==> act == (Action::PoseMissing { alt: true })
                && next.state == State::Active
            &&& cmd.play_pose && !alt && facts.greeting_known ==> act == (Action::Play { alt: false })
                && next.state == State::PlayingPose
            &&& cmd.play_pose && !alt && !facts.greeting_known ==> act == (Action::PoseMissing {
                alt: false,
            }) && next.state == State::Active
            &&& cmd.play_pose ==> next.alt_pose_requested == (cmd.pose_slot.0 != 0)
            &&& !cmd.play_pose ==> next.alt_pose_requested == c.alt_pose_requested
            &&& !cmd.play_pose && cmd.mode == ModeRequest::Stand && facts.start_pose_known ==> act
                == Action::ToStart && next.state == State::GoingToStart
            &&& !cmd.play_pose && cmd.mode == ModeRequest::Stand && !facts.start_pose_known ==> act
                == Action::StartPoseMissing && next.state == State::Active
            &&& !cmd.play_pose && cmd.mode == ModeRequest::Walk ==> act == Action::RunGait && next.state
                == State::Active
        }),
{
}

/// A choreography keeps its state, and the feet that its current step stands on,
/// until it ends. Then the gait goes on with the new knees and all feet down.
pub proof fn a_choreography_runs_to_its_end(c: ControllerView, cmd: Intent, facts: Facts, began: State)
    requires
        c.state is FlippingKnees,
        cmd.mode != ModeRequest::Relax,
    ensures
        ({
            let next = c.after_period(cmd, facts, began);
            &&& next.flip_index == facts.step_index
            &&& !facts.player_done ==> {
                &&& c.action(cmd, facts) is FollowFlip
                &&& next.state == State::FlippingKnees
                &&& next.knee_pattern == c.knee_pattern
                &&& next.knee_flip_target == c.knee_flip_target
                &&& next.flip_steps == c.flip_steps
                &&& facts.step_index < c.flip_steps.len() ==> next.stance
                    == c.flip_steps[facts.step_index as int].stance
                &&& facts.step_index >= c.flip_steps.len() ==> next.stance == c.stance
            }
            &&& facts.player_done ==> {
                &&& c.action(cmd, facts) is FinishFlip
                &&& next.state == State::Active
                &&& next.stance == (LegFlags { fl: true, fr: true, rl: true, rr: true })
                &&& next.flip_steps.len() == 0
                &&& next.knee_flip_target is None
                &&& c.knee_flip_target matches Some(shape) ==> next.knee_pattern == shape
                &&& c.knee_flip_target is None ==> next.knee_pattern == c.knee_pattern
            }
        }),
{
}

/// A period touches nothing that is not its business: the switches only the
/// operator changes, warnings, and the wait of a stop.
pub proof fn a_period_leaves_the_switches_alone(c: ControllerView, cmd: Intent, facts: Facts, began: State)
    ensures
        ({
            let next = c.after_period(cmd, facts, began);
            &&& next.gait_select == c.gait_select
            &&& next.controller == c.controller
            &&& next.knee_flip_style == c.knee_flip_style
            &&& next.arm_app_driven == c.arm_app_driven
            &&& next.warned_knee_flip == c.warned_knee_flip
            &&& next.knee_flip_failed == c.knee_flip_failed
            &&& next.warned_chicken_head == c.warned_chicken_head
            &&& next.settling_s == c.settling_s
            &&& next.settling_airborne == c.settling_airborne
            &&& next.just_changed == (began != next.state)
            &&& !(c.state is FlippingKnees) ==> next.stance == c.stance && next.flip_steps
                == c.flip_steps && next.flip_index == c.flip_index && next.knee_flip_target
                == c.knee_flip_target && next.knee_pattern == c.knee_pattern
            &&& cmd.mode != ModeRequest::Relax ==> next.ramped_v == c.ramped_v
        }),
{
}

/// Asked to relax, every state goes limp, and only a machine that is not yet limp
/// has to carry it out.
pub proof fn relaxing_is_carried_out_once(c: ControllerView, cmd: Intent, facts: Facts, began: State)
    requires
        cmd.mode == ModeRequest::Relax,
    ensures
        c.after_period(cmd, facts, began).state == State::Relaxed,
        c.relaxes(cmd, facts) == !(c.state is Relaxed),
        !(c.state is Relaxed) ==> c.after_period(cmd, facts, began).ramped_v == Velocity::zero_spec(),
        c.state is Relaxed ==> c.action(cmd, facts) == Action::TrackMeasured,
{
}

/// Nobody is made limp who did not ask for it.
pub proof fn nothing_but_a_request_relaxes(c: ControllerView, cmd: Intent, facts: Facts, began: State)
    requires
        cmd.mode != ModeRequest::Relax,
    ensures
        !(c.after_period(cmd, facts, began).state is Relaxed),
        !c.relaxes(cmd, facts),
{
}

// ---- The operator's switches ----

/// The robot stands: in no choreography, and if the gait runs, at rest and with
/// every foot down.
pub open spec fn stands(c: ControllerView) -> bool {
    &&& c.state != State::PlayingPose
    &&& c.state != State::FlippingKnees
    &&& c.state == State::Active ==> {
        &&& c.ramped_v.vx_m_s.is_zero_num() && c.ramped_v.vy_m_s.is_zero_num()
            && c.ramped_v.wz_rad_s.is_zero_num()
        &&& c.stance.fl && c.stance.fr && c.stance.rl && c.stance.rr
    }
}

/// A requested footfall pattern and a requested gait controller are taken over
/// exactly when the robot stands.
pub proof fn a_standing_robot_takes_the_requested_gait(
    c: ControllerView,
    cmd: Intent,
    plan: Option<Seq<FlipStep>>,
)
    ensures
        ({
            let next = c.readied(cmd, plan);
            &&& c.can_switch() == stands(c)
            &&& stands(c) ==> next.gait_select == cmd.gait
            &&& !stands(c) ==> next.gait_select == c.gait_select
            &&& c.switches_gait(cmd) == (next.gait_select != c.gait_select)
            &&& stands(c) && cmd.gait_controller == Some(GaitControllerRequest::Champ)
                ==> next.controller == GaitControllerKind::Champ
            &&& stands(c) && cmd.gait_controller == Some(GaitControllerRequest::Mpc) ==> next.controller
                == GaitControllerKind::Mpc
            &&& !stands(c) || cmd.gait_controller is None ==> next.controller == c.controller
            &&& c.switches_controller(cmd) == (next.controller != c.controller)
            &&& next.ramped_v == c.ramped_v
            &&& next.stance == c.stance
            &&& next.knee_pattern == c.knee_pattern
            &&& next.just_changed == c.just_changed
            &&& next.settling_s == c.settling_s
            &&& next.settling_airborne == c.settling_airborne
            &&& next.arm_app_driven == c.arm_app_driven
            &&& next.knee_flip_style == c.knee_flip_style
            &&& next.alt_pose_requested == c.alt_pose_requested
            &&& next.warned_chicken_head == c.warned_chicken_head
        }),
{
}

/// New knees need a choreography exactly when they differ, were not found
/// impossible, and the robot stands in its gait.
pub proof fn new_knees_need_a_standing_gait(c: ControllerView, cmd: Intent)
    ensures
        c.plan_needed(cmd) matches Some(shape) ==> cmd.knee_pattern == Some(shape) && shape
            != c.knee_pattern && c.knee_flip_failed != Some(shape) && c.state == State::Active && stands(c),
        cmd.knee_pattern matches Some(shape) && shape != c.knee_pattern && c.knee_flip_failed != Some(shape)
            && c.state == State::Active && stands(c) ==> c.plan_needed(cmd) == cmd.knee_pattern,
{
}

/// What becomes of a knee request: with a choreography it starts from its first
/// step, without one it is on record as impossible, and where the robot does not
/// stand in its gait it is refused, which is said once. No request, or one for the
/// knees that there are, clears the record.
pub proof fn a_knee_request_is_started_refused_or_recorded(
    c: ControllerView,
    cmd: Intent,
    plan: Option<Seq<FlipStep>>,
)
    ensures
        ({
            let (next, said) = c.after_knees(cmd, plan);
            let settled = cmd.knee_pattern is None || cmd.knee_pattern == Some(c.knee_pattern) || c.state
                == State::FlippingKnees;
            let failed = cmd.knee_pattern == c.knee_flip_failed;
            let ready = c.state == State::Active && stands(c);
            &&& settled ==> said == KneeOutcome::Nothing && !next.warned_knee_flip
                && next.knee_flip_failed is None && next.state == c.state
            &&& !settled && failed ==> said == KneeOutcome::Nothing && next == c
            &&& !settled && !failed && !ready ==> {
                &&& said == (if c.warned_knee_flip { KneeOutcome::Nothing } else { KneeOutcome::Refused })
                &&& next.warned_knee_flip
                &&& next.state == c.state
                &&& next.knee_flip_failed == c.knee_flip_failed
            }
            &&& !settled && !failed && ready && plan is Some ==> {
                &&& said == KneeOutcome::Started
                &&& next.state == State::FlippingKnees
                &&& next.knee_flip_target == cmd.knee_pattern
                &&& Some(next.flip_steps) == plan
                &&& next.flip_index == 0
            }
            &&& !settled && !failed && ready && plan is None ==> {
                &&& said == KneeOutcome::Impossible
                &&& next.knee_flip_failed == cmd.knee_pattern
                &&& next.state == c.state
            }
        }),
{
}

/// A whole period ramps the operator's velocity while the gait runs and stays the
/// gait, and leaves the velocity alone where it does not run.
#[verifier::spinoff_prover]
#[verifier::rlimit(40)]
pub proof fn a_period_ramps_while_the_gait_runs(
    c: ControllerView,
    cmd: Intent,
    plan: Option<Seq<FlipStep>>,
    facts: Facts,
    ramp: RampStep,
)
    requires
        cmd.mode == ModeRequest::Walk,
    ensures
        ({
            let ready = c.readied(cmd, plan);
            let next = c.after_tick(cmd, plan, facts, ramp);
            &&& ready.state is Active && !cmd.play_pose ==> next.state is Active && next.ramped_v
                == ready.after_ramp(cmd.velocity, ramp.dt, ramp.times, ramp.stepped, ramp.waited).0.ramped_v
            &&& !(ready.state is Active) || cmd.play_pose ==> next.ramped_v == c.ramped_v
            &&& next.state == ready.after_period(cmd, facts, c.state).state
            &&& next.gait_select == ready.gait_select
            &&& next.controller == ready.controller
        }),
{
}

} // verus!
