use misa::balance::{adjust_target, hold, mixed_posture, overwrite_legs, smoothed_want, BalanceState};
use misa::config::{GaitControllerKind, GaitTuning, KneeFlipStyle, KneeShape};
use misa::controller::{Action, Advanced, ArmSource, Controller, Facts, KneeOutcome, RampStep, RampTimes, State, CREEP_M_S};
use misa::intent::{GaitControllerRequest, GaitSelect, GaitTune, Intent, ModeRequest, PoseSlot, TuneRanges, Velocity};
use misa::jointvec::JointVec;
use misa::knee::{
    balance_of, first_outside, flip_edge, plan_knee_flip, usable_samples, Balance, FlipError,
    FlipRequest, FlipStep, JointAt, KneeStepKind, Motion, ProbeSample,
};
use misa::legs::LegFlags;
use misa::parking::{can_stand, first_cheapest, fold_calf, no_place, shift_at, Shift, SHIFTS_X, SHIFTS_Y};
use misa::scalar::Scalar;
use misa::targets::{
    joint_targets, needs_new_kinematics, tilt_share, ReachWarning, TargetSources, TuneState,
};

fn s(x: f64) -> Scalar {
    Scalar::from_bits(x.to_bits())
}

fn f(x: Scalar) -> f64 {
    f64::from_bits(x.to_bits())
}

const DT: f64 = 0.005;

const NO_FACTS: Facts = Facts {
    player_done: true,
    step_index: 0,
    start_pose_known: true,
    greeting_known: false,
    alt_configured: false,
    alt_known: false,
};

fn cmd(mode: ModeRequest) -> Intent {
    Intent { mode, gait: GaitSelect::Crawl, aux_rad: vec![None], link_ok: true, ..Intent::default() }
}

fn request(old: KneeShape, new: KneeShape, style: KneeFlipStyle) -> FlipRequest {
    FlipRequest {
        old,
        new,
        style,
        rest_height_m: Some(s(0.1)),
        stance_height_m: s(0.2),
        apart: LegFlags::none(),
        settled: LegFlags::all(),
        relocated: LegFlags::none(),
        probe_rounds: 1,
        probe_lift_m: s(0.01),
    }
}

/// A trajectory: where it ends, and how long that takes.
struct Player {
    to: JointVec,
    left: u32,
    steps: usize,
    per_step: u32,
}

/// The state machine with trajectories and footfalls made up around it.
struct Rig {
    c: Controller,
    player: Option<Player>,
    targets: JointVec,
    start_pose: Option<JointVec>,
    stance_pose: JointVec,
    /// Length of the pose in periods; `None` where it is not known.
    pose: Option<u32>,
    tuning: GaitTuning,
    phase: u32,
    stabilised: Scalar,
    last: Advanced,
    knee: KneeOutcome,
}

fn posture(x: f64) -> JointVec {
    let mut q = JointVec::zeros();
    for leg in 0..4 {
        for k in 0..3 {
            q.set(leg, k, s(x + 0.1 * k as f64));
        }
    }
    q
}

const TRANSITION: u32 = 300;

impl Rig {
    fn with(arm: bool, pose: Option<u32>) -> Rig {
        let c = Controller::with_arm(
            GaitControllerKind::Auto,
            KneeShape::BothBack,
            KneeFlipStyle::Stand,
            arm,
            LegFlags::none(),
        );
        Rig {
            c,
            player: None,
            targets: JointVec::zeros(),
            start_pose: Some(posture(0.4)),
            stance_pose: posture(0.7),
            pose,
            tuning: GaitTuning::default(),
            phase: 0,
            stabilised: s(-0.4),
            last: Advanced {
                action: Action::TrackMeasured,
                relaxed: false,
                legs_idle: true,
            },
            knee: KneeOutcome::Nothing,
        }
    }

    fn new() -> Rig {
        Rig::with(false, Some(200))
    }

    fn go(&mut self, to: JointVec, left: u32) {
        self.player = Some(Player { to, left, steps: 1, per_step: left });
    }

    fn tick(&mut self, cmd: &Intent) -> State {
        self.tick_at(cmd, &JointVec::zeros())
    }

    fn tick_at(&mut self, cmd: &Intent, measured: &JointVec) -> State {
        let plan: Option<Vec<FlipStep>> = match self.c.plan_needed(cmd) {
            Some(new) => plan_knee_flip(&request(self.c.knee_pattern(), new, KneeFlipStyle::Stand)).ok(),
            None => None,
        };
        let mut acted = self.c.state();
        if let Some(p) = &plan {
            let n = p.len() as u32;
            self.player = Some(Player { to: self.stance_pose, left: n * 20, steps: p.len(), per_step: 20 });
            acted = State::FlippingKnees;
        }
        let runs = matches!(
            acted,
            State::GoingToStart | State::GoingToStance | State::PlayingPose | State::FlippingKnees
        );
        let mut done = true;
        let mut step_index = 0;
        let mut played = None;
        if let Some(p) = self.player.as_mut() {
            if runs {
                p.left = p.left.saturating_sub(1);
                done = p.left == 0;
                step_index = (p.steps - 1).min(p.steps - (p.left.div_ceil(p.per_step)) as usize);
                played = Some(if done { p.to } else { self.targets });
            }
        }
        let facts = Facts {
            player_done: done,
            step_index,
            start_pose_known: self.start_pose.is_some(),
            greeting_known: self.pose.is_some(),
            alt_configured: false,
            alt_known: false,
        };
        let started = plan.is_some();
        let ramp = self.ramp(cmd);
        let done = self.c.tick(cmd, plan, &facts, &ramp);
        assert_eq!(done.prepared.knee == KneeOutcome::Started, started);
        self.knee = done.prepared.knee;
        let out = done.advanced;
        assert_eq!(done.velocity.is_some(), out.action == Action::RunGait);
        if let Some(v) = done.velocity {
            self.gait(v);
        }
        let (arm, _) = self.c.arm_source(cmd, false);
        let src = TargetSources {
            now: self.targets,
            measured: *measured,
            played,
            gait: self.stance_pose,
            stabilised_arm: self.stabilised,
        };
        self.targets = joint_targets(acted, &out.action, &src, self.c.arm_override(cmd), arm);
        match out.action {
            Action::RiseFromMeasured { to_start_pose } => {
                assert_eq!(to_start_pose, self.start_pose.is_some());
                let to = self.start_pose.unwrap_or(self.stance_pose);
                self.go(to, TRANSITION);
            }
            Action::ToStart => self.go(self.start_pose.unwrap(), TRANSITION),
            Action::ToStance => self.go(self.stance_pose, TRANSITION),
            Action::Play { .. } => self.go(self.targets, self.pose.unwrap()),
            Action::HandOver | Action::Hold | Action::FinishFlip { .. } => self.player = None,
            _ => {}
        }
        if out.relaxed {
            self.player = None;
        }
        self.last = out;
        self.c.state()
    }

    fn ramp(&self, cmd: &Intent) -> RampStep {
        let t = &self.tuning;
        let now = self.c.ramped_v;
        let want = Controller::wanted_velocity(cmd);
        let one = |want: Scalar, now: Scalar, full: Scalar| {
            let slowing = f(want).abs() < f(now).abs();
            let ramp = f(if slowing { t.velocity_ramp_stop_s } else { t.velocity_ramp_s });
            let step = f(full).abs() / ramp * DT;
            s(f(now) + (f(want) - f(now)).clamp(-step, step))
        };
        RampStep {
            dt: s(DT),
            times: RampTimes {
                up_s: t.velocity_ramp_s,
                down_s: t.velocity_ramp_stop_s,
                settle_s: t.stop_settle_s,
            },
            stepped: Velocity {
                vx_m_s: one(want.vx_m_s, now.vx_m_s, t.max_vx_m_s),
                vy_m_s: one(want.vy_m_s, now.vy_m_s, t.max_vy_m_s),
                wz_rad_s: one(want.wz_rad_s, now.wz_rad_s, t.max_wz_rad_s),
            },
            waited: s(f(self.c.settling_s) + DT),
        }
    }

    /// Runs the made-up gait: diagonals in turn, all feet down at rest.
    fn gait(&mut self, v: Velocity) {
        let stance = if v.is_zero() {
            self.phase = 0;
            [true; 4]
        } else {
            self.phase = (self.phase + 1) % 60;
            if self.phase < 30 {
                [false, true, true, false]
            } else {
                [true, false, false, true]
            }
        };
        self.c.observe_stance(LegFlags::from_array(stance));
    }

    fn run_until(&mut self, cmd: &Intent, want: State, max_s: f64) {
        let mut t = 0.0;
        while t < max_s {
            if self.tick(cmd) == want {
                return;
            }
            t += DT;
        }
        panic!("{:?} was not reached, it is {:?}", want, self.c.state());
    }

    fn run(&mut self, cmd: &Intent, n: u32) {
        for _ in 0..n {
            self.tick(cmd);
        }
    }
}

fn walk(vx: f64) -> Intent {
    let mut go = cmd(ModeRequest::Walk);
    go.velocity.vx_m_s = s(vx);
    go
}

// ---- states ----

#[test]
fn it_starts_relaxed_and_sends_no_position_command() {
    let mut r = Rig::new();
    assert_eq!(r.tick(&cmd(ModeRequest::Relax)), State::Relaxed);
    assert!(r.last.legs_idle);
}

#[test]
fn relaxed_targets_follow_the_measured_angles() {
    let mut r = Rig::new();
    let mut measured = JointVec::zeros();
    measured.legs[2][1] = s(0.61);
    r.tick_at(&cmd(ModeRequest::Relax), &measured);
    assert_eq!(r.targets, measured);
}

#[test]
fn standing_goes_through_the_start_pose_then_the_stance() {
    let mut r = Rig::new();
    let stand = cmd(ModeRequest::Walk);
    r.tick(&stand);
    assert_eq!(r.c.state(), State::GoingToStart);
    r.run_until(&stand, State::GoingToStance, 10.0);
    r.run_until(&stand, State::Active, 10.0);
    r.tick(&stand);
    assert!(!r.last.legs_idle);
}

#[test]
fn the_start_pose_is_actually_reached_before_the_stance_transition() {
    let mut r = Rig::new();
    r.run_until(&cmd(ModeRequest::Walk), State::GoingToStance, 10.0);
    assert_eq!(Some(r.targets), r.start_pose);
}

#[test]
fn the_middle_switch_position_holds_the_start_pose() {
    let mut r = Rig::new();
    let stand = cmd(ModeRequest::Stand);
    r.run_until(&stand, State::HoldingStart, 20.0);
    r.tick(&stand);
    let held = r.targets;
    assert_eq!(r.tick(&stand), State::HoldingStart);
    assert!(!r.last.legs_idle);
    r.run(&stand, 200);
    assert_eq!(r.targets, held);
    assert_eq!(Some(held), r.start_pose);
}

#[test]
fn a_lost_link_while_walking_holds_the_stance() {
    let mut r = Rig::new();
    let go = walk(0.10);
    r.run_until(&go, State::Active, 20.0);
    r.run(&go, 400);
    let lost = cmd(ModeRequest::Walk).failsafe();
    for _ in 0..600 {
        assert_eq!(r.tick(&lost), State::Active);
    }
    assert!(r.c.ramped_v.is_zero());
}

#[test]
fn the_bench_command_stops_at_the_start_pose() {
    let mut r = Rig::new();
    let bench = Intent { mode: ModeRequest::Stand, ..Intent::default() };
    r.run_until(&bench, State::HoldingStart, 20.0);
    for _ in 0..2000 {
        assert_eq!(r.tick(&bench), State::HoldingStart);
    }
}

#[test]
fn the_switch_walks_from_the_start_pose_and_returns_to_it() {
    let mut r = Rig::new();
    r.run_until(&cmd(ModeRequest::Stand), State::HoldingStart, 20.0);
    r.run_until(&cmd(ModeRequest::Walk), State::Active, 20.0);
    for _ in 0..100 {
        assert_eq!(r.tick(&cmd(ModeRequest::Walk)), State::Active);
    }
    r.run_until(&cmd(ModeRequest::Stand), State::HoldingStart, 20.0);
}

#[test]
fn relax_takes_effect_from_any_state() {
    let mut r = Rig::new();
    r.run_until(&cmd(ModeRequest::Walk), State::Active, 20.0);
    assert_eq!(r.tick(&cmd(ModeRequest::Relax)), State::Relaxed);
    assert!(r.last.legs_idle);
    let mut r = Rig::new();
    r.run_until(&cmd(ModeRequest::Stand), State::HoldingStart, 20.0);
    assert_eq!(r.tick(&cmd(ModeRequest::Relax)), State::Relaxed);
    assert!(r.last.legs_idle);
    assert!(r.c.state_changed());
}

#[test]
fn without_a_start_pose_the_gait_keeps_running() {
    let mut r = Rig::new();
    r.run_until(&cmd(ModeRequest::Walk), State::Active, 20.0);
    r.start_pose = None;
    assert_eq!(r.tick(&cmd(ModeRequest::Stand)), State::Active);
    assert_eq!(r.last.action, Action::StartPoseMissing);
}

#[test]
fn states_have_labels() {
    assert_eq!(State::Relaxed.label(), "脱力");
    assert_eq!(State::GoingToStart.label(), "初期姿勢へ");
    assert_eq!(State::HoldingStart.label(), "初期姿勢");
    assert_eq!(State::GoingToStance.label(), "立ち姿勢へ");
    assert_eq!(State::Active.label(), "歩容");
    assert_eq!(State::PlayingPose.label(), "ポーズ再生");
    assert_eq!(State::FlippingKnees.label(), "膝を反転中");
}

// ---- the velocity ramp ----

#[test]
fn a_momentary_stick_centre_does_not_stop_the_gait() {
    for select in [GaitSelect::Crawl, GaitSelect::Walk, GaitSelect::Trot] {
        let mut r = Rig::new();
        let mut go = walk(0.10);
        go.gait = select;
        r.run_until(&go, State::Active, 20.0);
        r.run(&go, 400);
        let mut centre = go.clone();
        centre.velocity.vx_m_s = s(0.0);
        let mut back = go.clone();
        back.velocity.vx_m_s = s(-0.10);
        for _ in 0..5 {
            r.tick(&centre);
            assert!(!r.c.ramped_v.is_zero(), "{select:?}");
        }
        r.run(&back, 5);
    }
}

#[test]
fn centring_the_stick_stops_the_gait_promptly() {
    let mut r = Rig::new();
    let mut go = walk(0.15);
    go.velocity.wz_rad_s = s(0.6);
    r.run_until(&go, State::Active, 20.0);
    r.run(&go, 400);
    let centre = walk(0.0);
    let mut stopped = None;
    for i in 0..600 {
        r.tick(&centre);
        if r.c.ramped_v.is_zero() {
            stopped = Some(i as f64 * DT);
            break;
        }
    }
    assert!(stopped.unwrap() < 0.6, "{stopped:?}");
}

#[test]
fn the_velocity_ramp_applies_in_both_directions() {
    let mut r = Rig::new();
    r.run_until(&cmd(ModeRequest::Walk), State::Active, 20.0);
    r.run(&walk(0.15), 20);
    assert!(f(r.c.ramped_v.vx_m_s) < 0.15 * 0.5);
    let before = f(r.c.ramped_v.vx_m_s);
    r.tick(&cmd(ModeRequest::Walk));
    assert!(f(r.c.ramped_v.vx_m_s) < before);
    assert!(f(r.c.ramped_v.vx_m_s) > 0.0);
}

#[test]
fn stopping_waits_for_the_airborne_legs_to_land() {
    let mut r = Rig::new();
    let go = walk(0.10);
    r.run_until(&go, State::Active, 20.0);
    r.run(&go, 400);
    assert_ne!(r.c.stance, LegFlags::all());
    let stop = walk(0.0);
    let mut awaited: Option<LegFlags> = None;
    let mut stopped = None;
    for i in 0..600 {
        let stance = r.c.stance;
        r.tick(&stop);
        if awaited.is_none() {
            awaited = r.c.settling_airborne;
        }
        if r.c.ramped_v.is_zero() && r.c.settling_airborne.is_none() {
            let up = awaited.expect("the stop did not wait");
            for k in 0..4 {
                assert!(!up.get(k) || stance.get(k));
            }
            stopped = Some(i as f64 * DT);
            break;
        }
    }
    assert!(stopped.unwrap() < 0.6, "{stopped:?}");
    assert_eq!(f(Scalar::from_bits(CREEP_M_S)), 1e-3);
}

#[test]
fn relaxing_out_of_a_walk_leaves_no_velocity() {
    let mut r = Rig::new();
    r.run_until(&cmd(ModeRequest::Walk), State::Active, 20.0);
    r.run(&walk(0.1), 200);
    assert!(f(r.c.ramped_v.vx_m_s) > 0.05);
    let relax = cmd(ModeRequest::Relax);
    assert_eq!(r.tick(&relax), State::Relaxed);
    // The gait ran once more, slower, before the legs went limp.
    assert_eq!(r.last.action, Action::RunGait);
    assert!(r.last.relaxed && r.last.legs_idle);
    assert_eq!(r.c.ramped_v, Velocity::zero());
    assert!(r.c.state_changed());
    assert_eq!(r.tick(&relax), State::Relaxed);
    assert_eq!(r.c.ramped_v, Velocity::zero());
    assert!(!r.c.state_changed());
}

#[test]
fn without_ramp_times_the_velocity_follows_at_once() {
    let mut r = Rig::new();
    let want = Velocity { vx_m_s: s(0.1), ..Velocity::zero() };
    r.run_until(&cmd(ModeRequest::Walk), State::Active, 20.0);
    let off = RampStep {
        dt: s(DT),
        times: RampTimes { up_s: s(0.0), down_s: s(0.0), settle_s: s(1.0) },
        stepped: Velocity::zero(),
        waited: s(0.0),
    };
    let done = r.c.tick(&walk(0.1), None, &NO_FACTS, &off);
    assert_eq!(done.velocity, Some(want));
    assert_eq!(r.c.ramped_v, want);
}

// ---- switching ----

#[test]
fn the_gait_can_be_switched_while_standing_still_but_not_while_moving() {
    let mut r = Rig::new();
    let stand = cmd(ModeRequest::Walk);
    r.run_until(&stand, State::Active, 20.0);
    r.run(&stand, 200);
    let before = r.targets;
    let mut to_trot = stand;
    to_trot.gait = GaitSelect::Trot;
    r.tick(&to_trot);
    assert_eq!(r.c.gait_select(), GaitSelect::Trot);
    assert_eq!(r.c.state(), State::Active);
    assert_eq!(r.targets, before);
    let mut moving = to_trot;
    moving.velocity.vx_m_s = s(0.10);
    r.run(&moving, 200);
    let mut to_crawl = moving;
    to_crawl.gait = GaitSelect::Crawl;
    r.tick(&to_crawl);
    assert_eq!(r.c.gait_select(), GaitSelect::Trot);
}

#[test]
fn the_gait_can_be_switched_while_holding_the_start_pose() {
    let mut r = Rig::new();
    r.run_until(&cmd(ModeRequest::Stand), State::HoldingStart, 20.0);
    assert_eq!(r.c.gait_select(), GaitSelect::Crawl);
    let mut hold_trot = cmd(ModeRequest::Stand);
    hold_trot.gait = GaitSelect::Trot;
    r.tick(&hold_trot);
    assert_eq!(r.c.gait_select(), GaitSelect::Trot);
    assert_eq!(r.c.state(), State::HoldingStart);
    let mut hold_walk = cmd(ModeRequest::Stand);
    hold_walk.gait = GaitSelect::Walk;
    r.tick(&hold_walk);
    assert_eq!(r.c.gait_select(), GaitSelect::Walk);
    let mut go = cmd(ModeRequest::Walk);
    go.gait = GaitSelect::Walk;
    r.run_until(&go, State::Active, 20.0);
    assert_eq!(r.c.gait_select(), GaitSelect::Walk);
}

#[test]
fn the_gait_can_be_switched_while_relaxed_but_not_while_active() {
    let mut r = Rig::new();
    let mut relax_trot = cmd(ModeRequest::Relax);
    relax_trot.gait = GaitSelect::Trot;
    r.tick(&relax_trot);
    assert_eq!(r.c.gait_select(), GaitSelect::Trot);
    let mut stand_trot = cmd(ModeRequest::Walk);
    stand_trot.gait = GaitSelect::Trot;
    r.run_until(&stand_trot, State::Active, 20.0);
    assert_eq!(r.c.gait_select(), GaitSelect::Trot);
    let mut walk_crawl = cmd(ModeRequest::Walk);
    walk_crawl.gait = GaitSelect::Crawl;
    r.tick(&walk_crawl);
    assert_eq!(r.c.gait_select(), GaitSelect::Trot);
}

#[test]
fn the_gait_controller_can_be_switched_while_standing_but_not_while_walking() {
    let mut r = Rig::new();
    assert_eq!(r.c.controller_kind(), GaitControllerKind::Auto);
    let mut relax_mpc = cmd(ModeRequest::Relax);
    relax_mpc.gait_controller = Some(GaitControllerRequest::Mpc);
    r.tick(&relax_mpc);
    assert_eq!(r.c.controller_kind(), GaitControllerKind::Mpc);
    let go = walk(0.1);
    r.run_until(&go, State::Active, 20.0);
    r.run(&go, 200);
    let mut walk_champ = go.clone();
    walk_champ.gait_controller = Some(GaitControllerRequest::Champ);
    r.tick(&walk_champ);
    assert_eq!(r.c.controller_kind(), GaitControllerKind::Mpc);
    let mut stand_champ = cmd(ModeRequest::Walk);
    stand_champ.gait_controller = Some(GaitControllerRequest::Champ);
    r.run(&stand_champ, 600);
    assert_eq!(r.c.controller_kind(), GaitControllerKind::Champ);
}

// ---- poses and the arm ----

#[test]
fn an_unknown_pose_name_does_not_break_the_gait() {
    let mut r = Rig::with(false, None);
    r.run_until(&cmd(ModeRequest::Walk), State::Active, 20.0);
    let mut play = cmd(ModeRequest::Walk);
    play.play_pose = true;
    assert_eq!(r.tick(&play), State::Active);
    assert_eq!(r.last.action, Action::PoseMissing { alt: false });
}

/// Seconds from the start of a pose until it is left, while `hold` is asked for.
fn play_pose_seconds(periods: u32, hold: &Intent) -> f64 {
    let mut r = Rig::with(false, Some(periods));
    r.run_until(&cmd(ModeRequest::Walk), State::Active, 20.0);
    let mut play = cmd(ModeRequest::Walk);
    play.play_pose = true;
    assert_eq!(r.tick(&play), State::PlayingPose);
    let mut t = 0.0;
    while t < 20.0 {
        if r.tick(hold) != State::PlayingPose {
            return t;
        }
        t += DT;
    }
    panic!("the pose never ended");
}

#[test]
fn playing_a_pose_returns_to_the_stance() {
    let mut r = Rig::new();
    r.run_until(&cmd(ModeRequest::Walk), State::Active, 20.0);
    let mut play = cmd(ModeRequest::Walk);
    play.play_pose = true;
    play.pose_slot = PoseSlot(1);
    assert_eq!(r.tick(&play), State::PlayingPose);
    r.run_until(&cmd(ModeRequest::Walk), State::Active, 20.0);
}

#[test]
fn a_pose_plays_to_the_end_while_the_switch_stays_up() {
    assert!(play_pose_seconds(200, &cmd(ModeRequest::Walk)) > 0.9);
}

#[test]
fn the_wave_sequences_play_to_the_end() {
    assert!(play_pose_seconds(760, &cmd(ModeRequest::Walk)) > 3.5);
}

#[test]
fn the_middle_switch_position_interrupts_the_pose() {
    assert!(play_pose_seconds(760, &cmd(ModeRequest::Stand)) < 0.05);
}

#[test]
fn a_non_driven_arm_follows_the_observed_angle_not_the_chicken_head() {
    let mut r = Rig::new();
    r.run_until(&cmd(ModeRequest::Walk), State::Active, 20.0);
    let mut with_arm = cmd(ModeRequest::Walk);
    with_arm.stabilize_head = true;
    with_arm.aux_rad = vec![Some(s(-0.7))];
    r.run(&with_arm, 201);
    assert_eq!(f(r.targets.arm), -0.7);
}

#[test]
fn a_driven_arm_does_run_the_chicken_head() {
    let mut r = Rig::with(true, None);
    r.run_until(&cmd(ModeRequest::Walk), State::Active, 20.0);
    let mut on = cmd(ModeRequest::Walk);
    on.stabilize_head = true;
    on.aux_rad = vec![Some(s(0.9))];
    r.run(&on, 10);
    assert_eq!(f(r.targets.arm), -0.4);
}

#[test]
fn a_non_driven_arm_holds_its_last_value_when_the_link_is_lost() {
    let mut r = Rig::new();
    r.run_until(&cmd(ModeRequest::Walk), State::Active, 20.0);
    let mut seen = cmd(ModeRequest::Walk);
    seen.aux_rad = vec![Some(s(0.3))];
    r.tick(&seen);
    let lost = cmd(ModeRequest::Stand).failsafe();
    r.tick(&lost);
    assert_eq!(f(r.targets.arm), 0.3);
}

#[test]
fn a_head_that_cannot_move_is_mentioned_once() {
    let mut r = Rig::new();
    let mut on = cmd(ModeRequest::Walk);
    on.stabilize_head = true;
    assert_eq!(r.c.arm_source(&on, true), (ArmSource::Keep, false));
    assert_eq!(r.c.arm_source(&on, false), (ArmSource::Keep, true));
    assert_eq!(r.c.arm_source(&on, false), (ArmSource::Keep, false));
}

// ---- knees ----

#[test]
fn the_knees_flip_while_standing_still_and_not_while_walking() {
    let mut r = Rig::new();
    let stand = cmd(ModeRequest::Walk);
    r.run_until(&stand, State::Active, 20.0);
    r.run(&stand, 200);
    assert_eq!(r.c.knee_pattern(), KneeShape::BothBack);

    let mut walking = walk(0.10);
    r.run(&walking, 200);
    walking.knee_pattern = Some(KneeShape::BothForward);
    r.tick(&walking);
    assert_eq!(r.knee, KneeOutcome::Refused);
    r.tick(&walking);
    assert_eq!(r.knee, KneeOutcome::Nothing);
    r.run(&walking, 198);
    assert_eq!(r.c.state(), State::Active);
    assert_eq!(r.c.knee_pattern(), KneeShape::BothBack);

    let mut flip = stand;
    flip.knee_pattern = Some(KneeShape::BothForward);
    let mut entered = false;
    for _ in 0..6000 {
        let state = r.tick(&flip);
        if state == State::FlippingKnees {
            entered = true;
            assert!(r.c.stance.count() >= 3);
        } else if entered {
            break;
        }
    }
    assert!(entered);
    assert_eq!(r.c.state(), State::Active);
    assert_eq!(r.c.knee_pattern(), KneeShape::BothForward);
    assert_eq!(r.c.stance, LegFlags::all());
    for _ in 0..50 {
        assert_eq!(r.tick(&flip), State::Active);
    }
}

#[test]
fn a_choreography_that_cannot_be_planned_is_not_tried_again() {
    let mut r = Rig::new();
    r.run_until(&cmd(ModeRequest::Walk), State::Active, 20.0);
    r.run(&cmd(ModeRequest::Walk), 200);
    let mut flip = cmd(ModeRequest::Walk);
    flip.knee_pattern = Some(KneeShape::BothForward);
    let ramp = r.ramp(&flip);
    assert_eq!(r.c.tick(&flip, None, &NO_FACTS, &ramp).prepared.knee, KneeOutcome::Impossible);
    assert_eq!(r.c.plan_needed(&flip), None);
    assert_eq!(r.c.tick(&flip, None, &NO_FACTS, &ramp).prepared.knee, KneeOutcome::Nothing);
    r.c.tick(&cmd(ModeRequest::Walk), None, &NO_FACTS, &ramp);
    assert_eq!(r.c.plan_needed(&flip), Some(KneeShape::BothForward));
}

#[test]
fn every_style_turns_every_knee_in_the_air() {
    for style in [KneeFlipStyle::Stand, KneeFlipStyle::Trot, KneeFlipStyle::Rest] {
        for (old, new) in [
            (KneeShape::BothBack, KneeShape::BothForward),
            (KneeShape::MammalianForward, KneeShape::BothBack),
            (KneeShape::MammalianForward, KneeShape::MammalianReverse),
        ] {
            let steps = plan_knee_flip(&request(old, new, style)).unwrap();
            let mut knees = [0, 1, 2, 3].map(|k| old.forward(k));
            for step in &steps {
                for k in 0..4 {
                    if step.forward.get(k) != knees[k] {
                        assert!(!step.stance.get(k), "{style:?}: {}", step.name());
                        knees[k] = step.forward.get(k);
                    }
                }
                match style {
                    KneeFlipStyle::Stand => assert!(step.stance.count() >= 3),
                    KneeFlipStyle::Trot => assert!(step.stance.count() >= 2),
                    KneeFlipStyle::Rest => {}
                }
            }
            assert_eq!(knees, [0, 1, 2, 3].map(|k| new.forward(k)));
        }
    }
}

#[test]
fn a_flip_without_sense_is_refused() {
    let same = request(KneeShape::BothBack, KneeShape::BothBack, KneeFlipStyle::Stand);
    assert_eq!(plan_knee_flip(&same), Err(FlipError::NothingToFlip));
    let mut rest = request(KneeShape::BothBack, KneeShape::BothForward, KneeFlipStyle::Rest);
    rest.rest_height_m = None;
    assert_eq!(plan_knee_flip(&rest), Err(FlipError::NoRestHeight));
    rest.rest_height_m = Some(s(0.2));
    assert_eq!(plan_knee_flip(&rest), Err(FlipError::RestTooHigh));
}

#[test]
fn steps_are_named_after_their_legs() {
    let steps =
        plan_knee_flip(&request(KneeShape::BothBack, KneeShape::BothForward, KneeFlipStyle::Stand)).unwrap();
    let names: Vec<String> = steps.iter().map(|x| x.name()).collect();
    assert_eq!(steps.len(), 21);
    assert_eq!(names[0], "寄せる FL");
    assert_eq!(names[2], "反転 FL");
    assert_eq!(names[5], "寄せる RR");
    assert_eq!(names[20], "中央へ");
    let steps =
        plan_knee_flip(&request(KneeShape::BothBack, KneeShape::BothForward, KneeFlipStyle::Trot)).unwrap();
    assert!(steps.iter().any(|x| x.name() == "探る FL+RR 上げ 1"));
    assert!(steps.iter().any(|x| x.name() == "寄せ直し FL+RR 1"));
    let steps =
        plan_knee_flip(&request(KneeShape::BothBack, KneeShape::BothForward, KneeFlipStyle::Rest)).unwrap();
    assert_eq!(steps[0].name(), "下ろす 1/3");
    assert_eq!(steps.last().unwrap().name(), "上げる 3/3");
}

#[test]
fn a_resting_robot_moves_its_feet_apart_first() {
    let mut req = request(KneeShape::MammalianForward, KneeShape::BothForward, KneeFlipStyle::Rest);
    req.apart = LegFlags::none().set(1, true);
    req.settled = LegFlags::all().set(1, false);
    req.relocated = LegFlags::none().set(2, true);
    let steps = plan_knee_flip(&req).unwrap();
    assert_eq!(steps[0].name(), "寄せる FR");
    assert_eq!(steps[1].name(), "広げる FR: 浮かす");
    assert!(steps.iter().any(|x| x.motion == Motion::Align));
}

#[test]
fn moving_onto_two_legs_restarts_the_feedback() {
    let steps =
        plan_knee_flip(&request(KneeShape::BothBack, KneeShape::BothForward, KneeFlipStyle::Trot)).unwrap();
    let hold = steps.iter().position(|x| x.kind == KneeStepKind::ProbeHold).unwrap();
    assert_eq!(steps[hold].stance.count(), 2);
    let e = flip_edge(&steps, hold - 1, hold);
    assert!(e.clear_probe && !e.finish_probe);
    let e = flip_edge(&steps, hold, hold + 1);
    assert!(e.finish_probe && !e.clear_probe);
    assert_eq!(balance_of(&steps, KneeFlipStyle::Trot, hold), Balance::Freeze { sample: true });
    assert_eq!(balance_of(&steps, KneeFlipStyle::Stand, hold), Balance::Leave);
    let adjust = steps.iter().position(|x| x.kind == KneeStepKind::Adjust).unwrap();
    assert_eq!(balance_of(&steps, KneeFlipStyle::Trot, adjust), Balance::Adjust);
    let e = flip_edge(&steps, adjust, adjust + 1);
    assert!(e.restart_feedback && !e.take_planned_shift);
    let up = steps.iter().position(|x| x.motion == Motion::ProbeUp(1)).unwrap();
    let mut unadjusted = steps.clone();
    unadjusted[up - 1].kind = KneeStepKind::Normal;
    let e = flip_edge(&unadjusted, up - 1, up);
    assert!(e.restart_feedback && e.take_planned_shift);
    assert_eq!(balance_of(&steps, KneeFlipStyle::Trot, steps.len()), Balance::Leave);
}

#[test]
fn a_target_outside_its_range_is_found() {
    let bounds = vec![(s(-1.0), s(1.0)), (s(0.0), s(2.0))];
    let row = |a: f64, b: f64| vec![s(a), s(b)];
    assert_eq!(first_outside(&vec![row(0.0, 1.0), row(1.0, 0.0)], &bounds), None);
    let found = first_outside(&vec![row(0.0, 1.0), row(0.5, 2.5), row(9.0, 0.0)], &bounds);
    assert_eq!(found, Some(JointAt { step: 1, joint: 1 }));
}

#[test]
fn a_probe_needs_enough_samples() {
    let sample = |i: usize| ProbeSample {
        at_s: s(0.05 + 0.01 * i as f64),
        tilt_rate: s(0.1),
        tilt: s(0.001 * i as f64),
    };
    let all: Vec<ProbeSample> = (0..40).map(sample).collect();
    let used = usable_samples(&all, s(0.03)).unwrap();
    assert!(used.iter().all(|p| f(p.at_s) > 0.1 && f(p.tilt).abs() < 0.03));
    assert_eq!(usable_samples(&all, s(0.01)), None);
}

// ---- balance ----

#[test]
fn the_balance_starts_from_where_the_body_is() {
    let steps =
        plan_knee_flip(&request(KneeShape::BothBack, KneeShape::BothForward, KneeFlipStyle::Trot)).unwrap();
    let up = steps.iter().position(|x| x.motion == Motion::ProbeUp(1)).unwrap();
    let mut unadjusted = steps.clone();
    unadjusted[up - 1].kind = KneeStepKind::Normal;
    let mut b = BalanceState::new();
    b.follow(s(0.01), s(0.2), s(0.03), s(-0.02), s(-0.1));
    assert_eq!(b.last_offset_m, Some(s(0.01)));
    assert_eq!((f(b.tilt_max_rad), f(b.shift_max_m)), (0.1, 0.02));
    assert_eq!(b.raw_rate(s(DT), s(4.0)), s(4.0));
    assert_eq!(b.raw_rate(s(0.0), s(4.0)), s(0.0));
    b.enter(&flip_edge(&steps, up - 1, up), s(0.04));
    assert_eq!((f(b.shift_m), f(b.want_m)), (-0.02, -0.02));
    b.enter(&flip_edge(&unadjusted, up - 1, up), s(0.04));
    assert_eq!((f(b.shift_m), f(b.want_m)), (0.04, 0.04));
    assert_eq!(b.last_offset_m, None);
    assert_eq!(b.raw_rate(s(DT), s(4.0)), s(0.0));
    b.sample(s(0.1), s(0.2), s(0.3));
    assert_eq!(b.samples.len(), 1);
    let hold_step = steps.iter().position(|x| x.kind == KneeStepKind::ProbeHold).unwrap();
    b.enter(&flip_edge(&steps, hold_step - 1, hold_step), s(0.0));
    assert!(b.samples.is_empty());
    assert_eq!(f(b.shift_m), 0.04);
    b.adjust(s(-0.01));
    assert_eq!((f(b.shift_m), f(b.want_m)), (-0.01, -0.01));
    b.begin();
    assert_eq!((f(b.shift_m), f(b.tilt_max_rad), f(b.shift_max_m)), (0.0, 0.0, 0.0));
}

#[test]
fn the_wanted_shift_is_limited_and_smoothed() {
    assert_eq!(f(hold(s(0.5), s(0.06))), 0.06);
    assert_eq!(f(hold(s(-0.5), s(0.06))), -0.06);
    assert_eq!(f(adjust_target(s(0.02), s(0.06))), -0.02);
    assert_eq!(f(smoothed_want(s(20.0), s(1.0), s(0.5))), 0.5);
    assert_eq!(f(smoothed_want(s(0.0), s(1.0), s(0.5))), 1.0);
}

#[test]
fn only_standing_legs_count_as_measured() {
    let support = LegFlags::none().set(1, true).set(2, true);
    let mixed = mixed_posture(&posture(0.0), &posture(1.0), support);
    assert_eq!(mixed.get(0, 0), s(0.0));
    assert_eq!(mixed.get(1, 0), s(1.0));
    assert_eq!(mixed.get(2, 0), s(1.0));
    let mut t = posture(0.0);
    let solved = vec![Some([s(9.0); 3]), None, Some([s(8.0); 3]), None];
    overwrite_legs(&mut t, support, &solved);
    assert_eq!(t.get(0, 0), s(0.0));
    assert_eq!(t.get(1, 0), s(0.0));
    assert_eq!(t.get(2, 2), s(8.0));
}

// ---- places for the feet ----

#[test]
fn shifts_are_tried_from_near_to_far() {
    let first: Vec<Shift> = (0..5).map(shift_at).collect();
    let at = |x, y| Shift { x, y };
    assert_eq!(first, vec![at(0, 0), at(-1, 0), at(1, 0), at(-2, 0), at(2, 0)]);
    assert_eq!(shift_at(SHIFTS_X), at(0, 1));
    assert_eq!(shift_at(SHIFTS_X * SHIFTS_Y - 1), at(20, 25));
}

#[test]
fn the_cheapest_place_wins_and_the_first_of_equals() {
    assert_eq!(first_cheapest(&vec![]), None);
    assert_eq!(first_cheapest(&vec![None, None]), None);
    let costs = vec![None, Some(s(0.3)), Some(s(0.1)), Some(s(0.1)), None, Some(s(0.2))];
    assert_eq!(first_cheapest(&costs), Some(2));
}

#[test]
fn a_foot_stands_where_its_leg_fits() {
    let ranges = [(s(-1.0), s(1.0)), (s(-2.0), s(2.0)), (s(-2.7), s(-0.8))];
    let q = [s(0.1), s(0.5), s(-1.5)];
    assert!(can_stand(Some(q), &ranges, s(-0.1), s(-0.15)));
    assert!(!can_stand(Some(q), &ranges, s(-0.2), s(-0.15)));
    assert!(!can_stand(None, &ranges, s(-0.1), s(-0.15)));
    assert!(!can_stand(Some([s(0.1), s(0.5), s(0.0)]), &ranges, s(-0.1), s(-0.15)));
    assert_eq!(no_place(2, "0.100", true), "RL は足先をどこへずらしても胴体 0.100 m で膝前に置けない");
    assert_eq!(no_place(0, "0.100", false), "FL は足先をどこへずらしても胴体 0.100 m で膝後ろに置けない");
}

#[test]
fn a_calf_is_folded_but_not_to_its_stop() {
    assert_eq!(f(fold_calf(true, false, s(-2.55), s(0.0))), -2.2);
    assert_eq!(f(fold_calf(true, true, s(-2.55), s(0.0))), -2.55);
    assert_eq!(f(fold_calf(false, false, s(0.0), s(1.5))), 1.5);
    assert_eq!(f(fold_calf(false, true, s(0.0), s(3.5))), 3.0);
}

// ---- what lies over the gait ----

#[test]
fn overrides_are_handed_to_the_gait_when_they_change() {
    let ranges = TuneRanges {
        cycle_s: (s(0.2), s(2.0)),
        swing_m: (s(0.01), s(0.1)),
        step_m: (s(0.02), s(0.3)),
        duty: (s(0.5), s(0.95)),
    };
    let mut t = TuneState::new();
    let asked = GaitTune { cycle_period_s: Some(s(9.0)), ..GaitTune::default() };
    assert!(!t.apply_gait_tune(&GaitTune::default(), &ranges));
    assert!(t.apply_gait_tune(&asked, &ranges));
    assert_eq!(t.gait_tune().cycle_period_s, Some(s(2.0)));
    assert!(!t.apply_gait_tune(&asked, &ranges));
    t.rebuilt();
    assert!(t.gait_tune().is_empty());
    assert!(t.apply_gait_tune(&asked, &ranges));
}

#[test]
fn a_leg_out_of_reach_is_mentioned_once() {
    let mut w = ReachWarning { warned: false };
    assert!(!w.note(true));
    assert!(w.note(false));
    assert!(!w.note(false));
    assert!(!w.note(true));
    assert!(w.note(false));
}

#[test]
fn new_geometry_is_needed_when_something_moved() {
    assert!(!needs_new_kinematics(s(0.0), &vec![s(0.0); 4]));
    assert!(!needs_new_kinematics(s(-9e-7), &vec![s(1e-10); 4]));
    assert!(needs_new_kinematics(s(1e-6), &vec![s(0.0); 4]));
    assert!(needs_new_kinematics(s(-0.01), &vec![s(0.0); 4]));
    assert!(needs_new_kinematics(s(0.0), &vec![s(0.0), s(0.0), s(1e-9), s(0.0)]));
    assert_eq!(f(tilt_share(s(0.15), s(0.005), s(0.03))), 0.03);
    assert_eq!(f(tilt_share(s(0.0), s(0.005), s(0.03))), 1.0);
    assert_eq!(f(tilt_share(s(0.15), s(0.0), s(0.03))), 1.0);
}
