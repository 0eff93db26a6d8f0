use misa::axis::AxisId;
use misa::command::ControlMode;
use misa::config::WbcOutput;
use misa::intent::{GaitSelect, Intent, ModeRequest, PoseSlot, Velocity};
use misa::jointvec::JointVec;
use misa::pilot::{
    node_settings, radio_source, velocity_timeout, NodeSettings, Pilot, RadioSource, ScriptPilot, Shared,
};
use misa::plant::PlantCaps;
use misa::runner::{
    check_wbc_mode, crouch_frame, gate_line, head_driven, mode_until_read, multiturn_action, multiturn_marker,
    next_phase, recorded_line, start_step, LoopFacts, LoopPhase, LoopState, Multiturn, Power, Readiness,
    StageOutcome, StartOptions, StartStage, TiltReport, Watch,
};
use misa::safety::SafetyVerdict;
use misa::scalar::Scalar;
use misa::time::{Span, Time};

fn s(x: f64) -> Scalar {
    Scalar::from_bits(x.to_bits())
}

fn secs(x: f64) -> Time {
    Time::from_nanos((x * 1e9) as u64)
}

fn ms(n: u64) -> Span {
    Span::from_nanos(n as u128 * 1_000_000)
}

fn at_ms(n: u64) -> Time {
    Time::from_nanos(n * 1_000_000)
}

const MODES: [ModeRequest; 3] = [ModeRequest::Relax, ModeRequest::Stand, ModeRequest::Walk];

// ---- pilots ----

#[test]
fn a_script_pilot_stamps_the_time_it_was_polled() {
    let mut p = ScriptPilot::new(Intent {
        mode: ModeRequest::Walk,
        gait: GaitSelect::Trot,
        velocity: Velocity { vx_m_s: s(0.2), ..Velocity::zero() },
        ..Intent::default()
    });
    let i = p.poll(secs(1.5));
    assert_eq!(i.time, secs(1.5));
    assert_eq!(i.velocity.vx_m_s, s(0.2));
    assert_eq!(i.mode, ModeRequest::Walk);
    assert!(!p.quit_requested());
    assert_eq!(p.status_line(), "");
}

#[test]
fn the_script_can_be_changed_between_ticks() {
    let mut p = ScriptPilot::new(Intent::default());
    assert_eq!(p.poll(Time::zero()).mode, ModeRequest::Relax);
    p.intent_mut().mode = ModeRequest::Walk;
    assert_eq!(p.poll(Time::zero()).mode, ModeRequest::Walk);
    p.set(Intent { mode: ModeRequest::Stand, ..Intent::default() });
    assert_eq!(p.poll(Time::zero()).mode, ModeRequest::Stand);
}

#[test]
fn a_stale_cmd_vel_zeroes_the_velocity_but_keeps_the_mode() {
    let mut shared = Shared {
        velocity: Velocity { vx_m_s: s(0.3), ..Velocity::zero() },
        velocity_at: Some(at_ms(1000)),
        mode: ModeRequest::Walk,
        ..Shared::default()
    };
    let i = shared.poll(Time::zero(), at_ms(2000), ms(200));
    assert!(i.velocity.is_zero());
    assert_eq!(i.mode, ModeRequest::Walk);
    assert!(!i.link_ok);
}

#[test]
fn a_fresh_velocity_gets_through() {
    let mut shared = Shared::default();
    shared.on_velocity(Velocity { vx_m_s: s(0.3), ..Velocity::zero() }, at_ms(1000));
    let i = shared.poll(secs(7.0), at_ms(1200), ms(200));
    assert_eq!(i.velocity.vx_m_s, s(0.3));
    assert_eq!(i.time, secs(7.0));
    assert!(i.link_ok);
    let i = shared.poll(secs(7.0), at_ms(1201), ms(200));
    assert!(i.velocity.is_zero());
}

#[test]
fn a_pose_request_fires_once() {
    let mut shared = Shared { pose_pending: Some(PoseSlot(1)), ..Shared::default() };
    let first = shared.poll(Time::zero(), Time::zero(), ms(200));
    assert!(first.play_pose);
    assert_eq!(first.pose_slot, PoseSlot(1));
    assert!(!shared.poll(Time::zero(), Time::zero(), ms(200)).play_pose);
}

#[test]
fn the_default_mode_is_relaxed() {
    assert_eq!(Shared::default().mode, ModeRequest::Relax);
}

#[test]
fn requests_are_answered_in_words() {
    let mut shared = Shared::default();
    for (n, mode, word) in
        [(0, ModeRequest::Relax, "Relax"), (1, ModeRequest::Stand, "Stand"), (2, ModeRequest::Walk, "Walk")]
    {
        let r = shared.set_mode(n);
        assert!(r.ok);
        assert_eq!(r.message, word);
        assert_eq!(shared.mode, mode);
    }
    let r = shared.set_mode(3);
    assert!(!r.ok);
    assert_eq!(r.message, "mode 3 は 0..=2 の外です");
    assert_eq!(shared.mode, ModeRequest::Walk);
    let r = shared.set_gait(2);
    assert!(r.ok);
    assert_eq!(r.message, "Trot を要求しました");
    assert_eq!(shared.gait, GaitSelect::Trot);
    let r = shared.set_gait(200);
    assert!(!r.ok);
    assert_eq!(r.message, "gait 200 は 0..=2 の外です");
    assert_eq!(shared.gait, GaitSelect::Trot);
    let r = shared.play_pose(7);
    assert!(r.ok);
    assert_eq!(r.message, "slot 7 の再生を要求しました");
    assert!(shared.set_body_attitude(s(0.1), s(0.2), s(0.3)).ok);
    assert!(shared.set_height(s(-0.02)).ok);
    let i = shared.poll(Time::zero(), Time::zero(), ms(20));
    assert_eq!(i.body_attitude_rad, [s(0.1), s(0.2), s(0.3)]);
    assert_eq!(i.height_offset_m, s(-0.02));
    assert_eq!(i.pose_slot, PoseSlot(7));
}

#[test]
fn the_network_pilot_has_usual_settings() {
    assert_eq!(velocity_timeout(0), ms(20));
    assert_eq!(velocity_timeout(300), ms(300));
    let n = node_settings(None);
    assert_eq!((n.node_name.as_str(), n.namespace.as_str(), n.timeout_ms), ("misa_run", "", 300));
    let n = node_settings(Some(NodeSettings {
        node_name: "a".into(),
        namespace: "/b".into(),
        timeout_ms: 5,
    }));
    assert_eq!((n.node_name.as_str(), n.namespace.as_str(), n.timeout_ms), ("a", "/b", 5));
}

#[test]
fn a_bench_without_receiver_is_no_lost_link() {
    assert_eq!(radio_source(false, true), RadioSource::BenchStand);
    assert_eq!(radio_source(false, false), RadioSource::Sticks);
    assert_eq!(radio_source(true, true), RadioSource::Sticks);
}

// ---- the loop ----

#[test]
fn nothing_stands_before_the_first_state_arrives() {
    for want in MODES {
        assert_eq!(mode_until_read(want, true), ModeRequest::Relax, "{want:?}");
    }
}

#[test]
fn once_read_the_pilot_gets_through() {
    for want in MODES {
        assert_eq!(mode_until_read(want, false), want);
    }
}

#[test]
fn waiting_is_said_once() {
    let mut l = LoopState::new(Time::zero());
    assert_eq!(l.note_read(false), Readiness::Waiting { say: true });
    assert_eq!(l.note_read(false), Readiness::Waiting { say: false });
    assert_eq!(l.note_read(true), Readiness::Arrived);
    assert_eq!(l.note_read(false), Readiness::Ready);
    assert!(l.measured_seen);
}

#[test]
fn power_is_switched_on_a_change_only() {
    let mut l = LoopState::new(Time::zero());
    assert_eq!(l.power(true), Power::Keep);
    assert_eq!(l.power(false), Power::Arm);
    l.powered(false);
    assert_eq!(l.power(false), Power::Keep);
    assert_eq!(l.power(true), Power::Disarm);
}

#[test]
fn changes_are_reported_once() {
    let mut l = LoopState::new(Time::zero());
    assert!(!l.note_verdict(true));
    assert!(l.note_verdict(false));
    assert!(!l.note_verdict(false));
    assert!(l.note_verdict(true));
    assert_eq!(l.note_tilt(false), TiltReport::Nothing);
    assert_eq!(l.note_tilt(true), TiltReport::Tilted);
    assert_eq!(l.note_tilt(true), TiltReport::Nothing);
    assert_eq!(l.note_tilt(false), TiltReport::Recovered);
    assert!(l.note_faults(true));
    assert!(!l.note_faults(true));
    assert!(!l.note_faults(false));
    assert!(l.note_faults(true));
}

#[test]
fn a_late_period_is_not_made_up_for() {
    let mut l = LoopState::new(at_ms(0));
    assert_eq!(l.pace(at_ms(2), ms(5)), ms(3));
    assert_eq!(l.next, at_ms(5));
    assert_eq!(l.pace(at_ms(17), ms(5)), ms(0));
    assert_eq!(l.next, at_ms(17));
    assert_eq!(l.worst_overrun, ms(7));
    assert_eq!(l.pace(at_ms(23), ms(5)), ms(0));
    assert_eq!(l.worst_overrun, ms(7));
    l.status_given();
    assert_eq!(l.worst_overrun, ms(0));
    l.count();
    assert_eq!(l.ticks, 1);
}

#[test]
fn the_watch_speaks_when_a_joint_leaves_its_range() {
    let mut calibrated = vec![None; 12];
    calibrated[3] = Some((s(-0.5), s(0.5)));
    let mut model = vec![None; 12];
    model[3] = Some((s(-3.0), s(3.0)));
    model[4] = Some((s(-1.0), s(1.0)));
    let mut w = Watch::new(&model, &calibrated);
    let mut errors = vec![s(0.0); 12];
    errors[7] = s(0.2);
    errors[8] = s(0.2);
    let mut q = JointVec::zeros();
    q.set(1, 0, s(0.6));
    q.set(1, 1, s(-1.5));
    q.set(2, 0, s(100.0));
    let (out, say) = w.tick(&errors, &q);
    assert_eq!(out, vec![3, 4]);
    assert!(say);
    let (_, say) = w.tick(&errors, &q);
    assert!(!say);
    let (out, say) = w.tick(&errors, &JointVec::zeros());
    assert!(out.is_empty() && !say);
    let (_, say) = w.tick(&errors, &q);
    assert!(say);
    let worst = w.take();
    assert_eq!((worst.value, worst.at), (s(0.2), Some(7)));
    assert_eq!(w.take().at, None);
}

#[test]
fn the_crouch_is_judged_by_its_worst_joint() {
    let mut offsets = vec![s(0.1); 12];
    let (w, ok) = crouch_frame(&offsets);
    assert!(ok);
    assert_eq!(w.at, Some(0));
    offsets[5] = s(0.35);
    assert!(crouch_frame(&offsets).1);
    offsets[5] = s(0.36);
    let (w, ok) = crouch_frame(&offsets);
    assert!(!ok);
    assert_eq!(w.at, Some(5));
}

fn opts(allow_no_sbus: bool, skip_zero: bool) -> StartOptions {
    StartOptions { allow_no_sbus, skip_zero }
}

#[test]
fn a_start_takes_its_steps_in_order() {
    let o = opts(false, false);
    let mut stage = StartStage::Receiver;
    let mut seen = vec![stage];
    while stage != StartStage::Done {
        stage = start_step(stage, &StageOutcome::Passed, &o).unwrap();
        seen.push(stage);
    }
    assert_eq!(
        seen,
        vec![
            StartStage::Receiver,
            StartStage::Imu,
            StartStage::Anchors,
            StartStage::FirstRead,
            StartStage::Switch,
            StartStage::Multiturn,
            StartStage::Frame,
            StartStage::Done,
        ]
    );
    assert_eq!(
        start_step(StartStage::Imu, &StageOutcome::Passed, &opts(false, true)),
        Ok(StartStage::FirstRead)
    );
    assert_eq!(
        start_step(StartStage::FirstRead, &StageOutcome::Passed, &opts(true, false)),
        Ok(StartStage::Multiturn)
    );
}

#[test]
fn a_start_fails_with_advice() {
    let failed = |e: &str| StageOutcome::Failed(e.to_string());
    let o = opts(false, false);
    let e = start_step(StartStage::Receiver, &failed("無受信"), &o).unwrap_err();
    assert!(e.starts_with("[retryable] 無受信。"), "{e}");
    assert!(start_step(StartStage::Receiver, &failed("無受信"), &opts(true, false)).is_ok());
    assert!(start_step(StartStage::Imu, &failed("x"), &o).is_ok());
    assert_eq!(
        start_step(StartStage::Anchors, &failed("x"), &o),
        Err("x（モータの電源とボーレートを確認してください）".to_string())
    );
    assert_eq!(
        start_step(StartStage::FirstRead, &failed("x"), &o),
        Err("x（12 軸すべてが応答している必要があります）".to_string())
    );
    assert_eq!(start_step(StartStage::Multiturn, &failed("x"), &o), Err("x".to_string()));
    let e = start_step(StartStage::Switch, &StageOutcome::SwitchAt { position: 2, raw: 1811 }, &o).unwrap_err();
    assert!(e.starts_with("[retryable] CH5（モード）が脱力位置にありません（いま 2 段目 / raw 1811）。"), "{e}");
    let limp = StageOutcome::SwitchAt { position: 0, raw: 172 };
    assert_eq!(start_step(StartStage::Switch, &limp, &o), Ok(StartStage::Multiturn));
}

#[test]
fn the_origin_is_taken_once_and_only_when_asked_for() {
    assert_eq!(multiturn_action(false, false), Multiturn::Leave);
    assert_eq!(multiturn_action(true, true), Multiturn::AlreadyDone);
    assert_eq!(multiturn_action(true, false), Multiturn::Zero);
    assert_eq!(multiturn_marker("namiashi"), "/dev/shm/misa-multiturn-zeroed-namiashi");
}

#[test]
fn an_incomplete_recording_says_so() {
    assert_eq!(recorded_line(120, 0), "120 周期を記録しました");
    assert_eq!(recorded_line(120, 3), "120 周期を記録しました（3 周期は取りこぼし）");
}

#[test]
fn a_robot_that_cannot_be_driven_that_way_is_refused() {
    let caps = PlantCaps {
        modes: vec![ControlMode::Position],
        has_imu: true,
        has_contacts: false,
        driven: vec![true, false],
    };
    assert!(check_wbc_mode(&caps, WbcOutput::Position, None).is_ok());
    assert_eq!(
        check_wbc_mode(&caps, WbcOutput::Torque, Some("why")),
        Err("この機体は Torque 制御を扱えません（wbc.output = \"トルク\"）。why".to_string())
    );
    assert!(head_driven(&caps, Some(AxisId::new(0))));
    assert!(!head_driven(&caps, Some(AxisId::new(1))));
    assert!(!head_driven(&caps, Some(AxisId::new(2))));
    assert!(!head_driven(&caps, None));
}

#[test]
fn what_the_safety_gate_changed_is_said_in_one_line() {
    let mut v = SafetyVerdict::default();
    assert_eq!(gate_line(&v), "安全ゲート: 可動域 0 軸 / 変化率 0 軸 / トルク 0 軸");
    v.clamped = vec![AxisId::new(0), AxisId::new(1)];
    v.held_for_stale_observation = true;
    v.faulted = vec![AxisId::new(2)];
    assert_eq!(
        gate_line(&v),
        "安全ゲート: 可動域 2 軸 / 変化率 0 軸 / トルク 0 軸 / 観測が古いので目標を進めていません / 異常ビット 1 軸"
    );
}

fn calm() -> LoopFacts {
    LoopFacts {
        stop_requested: false,
        failed: false,
        legs_idle: false,
        power: Power::Keep,
        recording: false,
        publishing: false,
        status_due: false,
    }
}

fn walk_through(from: LoopPhase, f: &LoopFacts, n: usize) -> Vec<LoopPhase> {
    let mut seen = vec![from];
    for _ in 0..n {
        seen.push(next_phase(*seen.last().unwrap(), f));
    }
    seen
}

#[test]
fn a_period_goes_through_the_safety_gate_before_it_goes_out() {
    assert_eq!(
        walk_through(LoopPhase::Poll, &calm(), 7),
        vec![LoopPhase::Poll, LoopPhase::Control, LoopPhase::Watch, LoopPhase::Solve, LoopPhase::Limit, LoopPhase::Exchange, LoopPhase::Pace, LoopPhase::Poll]
    );
    let busy = LoopFacts {
        power: Power::Arm,
        recording: true,
        publishing: true,
        status_due: true,
        ..calm()
    };
    assert_eq!(
        walk_through(LoopPhase::Poll, &busy, 11),
        vec![LoopPhase::Poll, LoopPhase::Control, LoopPhase::SwitchPower, LoopPhase::Watch, LoopPhase::Solve, LoopPhase::Limit, LoopPhase::Record, LoopPhase::Exchange, LoopPhase::Publish, LoopPhase::Status, LoopPhase::Pace, LoopPhase::Poll]
    );
    assert_eq!(next_phase(LoopPhase::Control, &LoopFacts { legs_idle: true, ..calm() }), LoopPhase::Solve);
}

#[test]
fn a_loop_that_ends_cuts_the_power_last() {
    let stop = LoopFacts { stop_requested: true, recording: true, ..calm() };
    assert_eq!(walk_through(LoopPhase::Poll, &stop, 3), vec![LoopPhase::Poll, LoopPhase::CloseRecording, LoopPhase::Disarm, LoopPhase::Ended]);
    let failed = LoopFacts { failed: true, ..calm() };
    assert_eq!(walk_through(LoopPhase::Exchange, &failed, 2), vec![LoopPhase::Exchange, LoopPhase::Disarm, LoopPhase::Ended]);
    assert_eq!(next_phase(LoopPhase::SwitchPower, &failed), LoopPhase::Disarm);
}
