use misa::axis::{Axis, AxisId, AxisRole, AxisTable};
use misa::command::{AxisCommand, Command, ControlMode};
use misa::intent::{GaitSelect, GaitTune, Intent, ModeRequest, PoseSlot, TuneRanges, Velocity};
use misa::observation::Observation;
use misa::plant::PlantCaps;
use misa::record::{diff_commands, Frame};
use misa::safety::{AxisLimits, SafetyConfig, SafetyGate, SafetyVerdict};
use misa::scalar::Scalar;
use misa::time::{Span, Time};

fn s(x: f64) -> Scalar {
    Scalar::from_bits(x.to_bits())
}

fn f(x: Scalar) -> f64 {
    f64::from_bits(x.to_bits())
}

fn ms(n: u64) -> Span {
    Span::from_nanos(n as u128 * 1_000_000)
}

fn secs(x: f64) -> Time {
    Time::from_nanos((x.max(0.0) * 1e9) as u64)
}

// ---- axes ----

fn leg(name: &str, leg: u8, joint: u8) -> Axis {
    Axis { name: name.into(), role: AxisRole::Leg { leg, joint } }
}

fn aux(name: &str) -> Axis {
    Axis { name: name.into(), role: AxisRole::Aux }
}

fn seven_axes() -> AxisTable {
    AxisTable::new(vec![
        leg("FL_hip_joint", 0, 0),
        leg("FL_thigh_joint", 0, 1),
        leg("FL_calf_joint", 0, 2),
        leg("FR_hip_joint", 1, 0),
        leg("FR_thigh_joint", 1, 1),
        leg("FR_calf_joint", 1, 2),
        aux("arm_pitch_joint"),
    ])
    .unwrap()
}

#[test]
fn names_resolve_to_indices() {
    let t = seven_axes();
    assert_eq!(t.id_of("FR_thigh_joint"), Some(AxisId::new(4)));
    assert_eq!(t.name(AxisId::new(4)), Some("FR_thigh_joint"));
    assert_eq!(t.id_of("nope"), None);
}

#[test]
fn legs_and_aux_are_separated() {
    let t = seven_axes();
    let legs = t.legs();
    assert_eq!(legs.len(), 2);
    assert_eq!(legs[0].len(), 3);
    assert_eq!(t.aux(), vec![AxisId::new(6)]);
}

#[test]
fn a_duplicated_joint_name_is_rejected() {
    let e = AxisTable::new(vec![leg("FL_hip_joint", 0, 0), leg("FL_hip_joint", 1, 0)]).unwrap_err();
    assert!(e.contains("FL_hip_joint"), "{e}");
    assert_eq!(e, "関節名 \"FL_hip_joint\" が 0 番と 1 番で重複しています");
}

#[test]
fn every_axis_is_found_under_its_own_name() {
    let t = seven_axes();
    for i in 0..t.len() {
        let id = AxisId::new(i as u16);
        let name = t.name(id).unwrap().to_string();
        assert_eq!(t.id_of(&name), Some(id));
        assert_eq!(t.get(id).unwrap().name, name);
    }
    assert_eq!(t.get(AxisId::new(7)), None);
    assert_eq!(t.name(AxisId::new(7)), None);
    assert_eq!(t.axes().len(), 7);
    assert!(!t.is_empty());
}

#[test]
fn leg_numbers_with_gaps_leave_empty_legs() {
    let t = AxisTable::new(vec![leg("a", 2, 0), aux("b"), leg("c", 0, 1)]).unwrap();
    assert_eq!(t.legs(), vec![vec![AxisId::new(2)], vec![], vec![AxisId::new(0)]]);
    assert_eq!(t.aux(), vec![AxisId::new(1)]);
}

// ---- commands ----

#[test]
fn a_fresh_command_relaxes_every_axis() {
    let c = Command::idle(13);
    assert_eq!(c.len(), 13);
    assert!(c.axes().iter().all(|a| a.mode == ControlMode::Idle));
}

#[test]
fn relaxing_keeps_the_last_targets() {
    let mut c = Command::idle(2);
    *c.get_mut(AxisId::new(0)).unwrap() = AxisCommand::position(s(1.25), s(8.0));
    c.relax_all();
    let a = c.get(AxisId::new(0)).unwrap();
    assert_eq!(a.mode, ControlMode::Idle);
    assert_eq!(f(a.position_rad), 1.25);
}

#[test]
fn modes_have_names_and_numbers() {
    let all = [
        ControlMode::Idle,
        ControlMode::Position,
        ControlMode::Velocity,
        ControlMode::Torque,
        ControlMode::Impedance,
    ];
    for (i, m) in all.iter().enumerate() {
        assert_eq!(m.number() as usize, i);
        assert_eq!(m.name(), format!("{m:?}"));
    }
}

// ---- intents ----

fn walking() -> Intent {
    Intent {
        velocity: Velocity { vx_m_s: s(0.2), vy_m_s: s(0.1), wz_rad_s: s(0.3) },
        body_attitude_rad: [s(0.1), s(0.2), s(0.3)],
        mode: ModeRequest::Walk,
        play_pose: true,
        pose_slot: PoseSlot(1),
        stabilize_head: true,
        link_ok: true,
        ..Intent::default()
    }
}

#[test]
fn losing_the_link_stops_the_robot_without_changing_its_mode() {
    let g = walking().failsafe();
    assert_eq!(g.mode, ModeRequest::Walk);
    assert!(g.velocity.is_zero());
    assert_eq!(g.body_attitude_rad, [s(0.0); 3]);
    assert!(!g.link_ok);
}

#[test]
fn losing_the_link_does_not_fire_a_pose() {
    let g = walking().failsafe();
    assert!(!g.play_pose);
    assert_eq!(g.pose_slot, PoseSlot(1));
    assert!(!g.stabilize_head);
}

#[test]
fn the_failsafe_never_raises_activity() {
    for m in [ModeRequest::Relax, ModeRequest::Stand, ModeRequest::Walk] {
        let before = Intent { mode: m, ..Intent::default() };
        assert!(before.failsafe().mode <= m, "{m:?}");
    }
}

#[test]
fn losing_the_link_twice_is_losing_it_once() {
    let once = walking().failsafe();
    assert_eq!(once.failsafe(), once);
}

#[test]
fn zero_velocity_is_an_exact_comparison() {
    assert!(Velocity::zero().is_zero());
    assert!(!Velocity { vx_m_s: s(1e-12), ..Velocity::zero() }.is_zero());
    assert!(Velocity { vx_m_s: s(-0.0), ..Velocity::zero() }.is_zero());
}

#[test]
fn observed_aux_angles_are_read_by_index() {
    let i = Intent { aux_rad: vec![None, Some(s(0.5))], ..Intent::default() };
    assert_eq!(i.aux(0), None);
    assert_eq!(i.aux(1), Some(s(0.5)));
    assert_eq!(i.aux(2), None);
    assert_eq!(i.gait, GaitSelect::Crawl);
    assert_eq!(i.gait.label(), "Crawl");
}

#[test]
fn overrides_are_held_to_their_ranges() {
    let ranges = TuneRanges {
        cycle_s: (s(0.2), s(2.0)),
        swing_m: (s(0.01), s(0.1)),
        step_m: (s(0.02), s(0.3)),
        duty: (s(0.5), s(0.95)),
    };
    let t = GaitTune {
        cycle_period_s: Some(s(0.1)),
        swing_height_m: Some(s(0.05)),
        step_length_m: Some(s(9.0)),
        duty_factor: None,
    };
    let c = t.clamped(&ranges);
    assert_eq!(c.cycle_period_s, Some(s(0.2)));
    assert_eq!(c.swing_height_m, Some(s(0.05)));
    assert_eq!(c.step_length_m, Some(s(0.3)));
    assert_eq!(c.duty_factor, None);
    assert_eq!(c.clamped(&ranges), c);
    assert!(!c.is_empty());
    assert!(GaitTune::default().is_empty());
}

// ---- observations ----

#[test]
fn a_fresh_observation_has_nothing_read_yet() {
    let o = Observation::empty(13, 4);
    assert_eq!(o.len(), 13);
    assert_eq!(o.contacts.len(), 4);
    assert!(o.any_unread());
    assert!(o.contacts.iter().all(|c| c.is_none()));
}

#[test]
fn staleness_is_reported_by_the_worst_axis() {
    let mut o = Observation::empty(3, 1);
    o.get_mut(AxisId::new(0)).unwrap().health.age = ms(5);
    o.get_mut(AxisId::new(1)).unwrap().health.age = ms(200);
    o.get_mut(AxisId::new(2)).unwrap().health.age = ms(5);
    assert_eq!(o.worst_age(), ms(200));
}

#[test]
fn faults_are_listed_but_only_for_axes_that_were_read() {
    let mut o = Observation::empty(2, 1);
    o.get_mut(AxisId::new(0)).unwrap().health.fault_raw = 0x04;
    let a1 = o.get_mut(AxisId::new(1)).unwrap();
    a1.health.valid = true;
    a1.health.fault_raw = 0x08;
    let ids: Vec<AxisId> = o.faulted().iter().map(|(id, _)| *id).collect();
    assert_eq!(ids, vec![AxisId::new(1)]);
}

#[test]
fn an_observation_without_axes_is_not_old() {
    let o = Observation::default();
    assert!(o.is_empty());
    assert_eq!(o.worst_age(), ms(0));
    assert!(!o.any_unread());
}

// ---- plants ----

fn caps(driven: Vec<bool>) -> PlantCaps {
    PlantCaps { modes: vec![ControlMode::Position], has_imu: true, has_contacts: false, driven }
}

#[test]
fn idle_is_always_accepted() {
    let c = caps(vec![false]);
    assert!(c.accepts(ControlMode::Idle));
    assert!(!c.accepts(ControlMode::Torque));
}

#[test]
fn a_mode_the_plant_cannot_do_is_refused_up_front() {
    let mut cmd = Command::idle(1);
    cmd.get_mut(AxisId::new(0)).unwrap().mode = ControlMode::Torque;
    let e = caps(vec![true]).check(&cmd).unwrap_err();
    assert!(e.contains("Torque"), "{e}");
    assert_eq!(e, "軸 0 の Torque をこの Plant は受け付けません");
}

#[test]
fn commanding_an_axis_the_plant_does_not_drive_is_refused() {
    let mut cmd = Command::idle(2);
    *cmd.get_mut(AxisId::new(1)).unwrap() = AxisCommand::position(s(0.0), s(1.0));
    let e = caps(vec![true, false]).check(&cmd).unwrap_err();
    assert!(e.contains("軸 1"), "{e}");
}

#[test]
fn leaving_an_undriven_axis_relaxed_is_fine() {
    let cmd = Command::idle(2);
    assert!(caps(vec![true, false]).check(&cmd).is_ok());
}

#[test]
fn the_axis_table_and_the_caps_line_up() {
    let t = AxisTable::new(vec![Axis {
        name: "FL_hip_joint".into(),
        role: AxisRole::Leg { leg: 0, joint: 0 },
    }])
    .unwrap();
    assert_eq!(t.len(), caps(vec![true]).driven.len());
}

#[test]
fn limp_commands_pass_every_plant() {
    assert!(PlantCaps::default().check(&Command::idle(5)).is_ok());
}

// ---- recordings ----

fn frame(seq: u64, q: f64) -> Frame {
    let mut command = Command::idle(2);
    for i in 0..2 {
        *command.get_mut(AxisId::new(i)).unwrap() = AxisCommand::position(s(q), s(8.0));
    }
    Frame {
        seq,
        time: secs(seq as f64 * 0.005),
        intent: Intent::default(),
        observation: Observation::empty(2, 1),
        command,
        verdict: SafetyVerdict::default(),
    }
}

#[test]
fn identical_recordings_do_not_diverge() {
    let a: Vec<Frame> = (0..10).map(|i| frame(i, 0.5)).collect();
    let b = a.clone();
    assert!(diff_commands(&a, &b, 100).is_empty());
}

#[test]
fn a_changed_target_is_reported_with_its_axis_and_field() {
    let a: Vec<Frame> = (0..3).map(|i| frame(i, 0.5)).collect();
    let mut b = a.clone();
    b[1].command.get_mut(AxisId::new(1)).unwrap().position_rad = s(0.6);

    let d = diff_commands(&a, &b, 100);
    assert_eq!(d.len(), 1);
    assert_eq!(d[0].seq, 1);
    assert_eq!(d[0].axis, AxisId::new(1));
    assert_eq!(d[0].field, "position_rad");
    assert_eq!((f(d[0].left), f(d[0].right)), (0.5, 0.6));
}

#[test]
fn even_the_last_bit_counts_as_a_divergence() {
    let a: Vec<Frame> = (0..2).map(|i| frame(i, 0.5)).collect();
    let mut b = a.clone();
    b[0].command.get_mut(AxisId::new(0)).unwrap().position_rad = s(0.5 + f64::EPSILON);
    assert_eq!(diff_commands(&a, &b, 100).len(), 1);
}

#[test]
fn a_mode_change_is_a_divergence_too() {
    let a: Vec<Frame> = (0..2).map(|i| frame(i, 0.5)).collect();
    let mut b = a.clone();
    b[0].command.get_mut(AxisId::new(0)).unwrap().mode = ControlMode::Idle;
    let d = diff_commands(&a, &b, 100);
    assert_eq!(d[0].field, "mode");
    assert_eq!((f(d[0].left), f(d[0].right)), (1.0, 0.0));
}

#[test]
fn the_number_of_reported_divergences_is_capped() {
    let a: Vec<Frame> = (0..1000).map(|i| frame(i, 0.5)).collect();
    let b: Vec<Frame> = (0..1000).map(|i| frame(i, 0.6)).collect();
    assert_eq!(diff_commands(&a, &b, 5).len(), 5);
}

#[test]
fn recordings_of_different_lengths_compare_up_to_the_shorter_one() {
    let a: Vec<Frame> = (0..10).map(|i| frame(i, 0.5)).collect();
    let b: Vec<Frame> = (0..3).map(|i| frame(i, 0.5)).collect();
    assert!(diff_commands(&a, &b, 100).is_empty());
}

#[test]
fn one_differing_bit_is_a_divergence() {
    let a = vec![frame(0, 0.0)];
    let b = vec![frame(0, -0.0)];
    let d = diff_commands(&a, &b, 100);
    assert!(!d.is_empty());
    assert_eq!((d[0].seq, d[0].axis, d[0].field), (0, AxisId::new(0), "position_rad"));
    assert_eq!((d[0].left, d[0].right), (s(0.0), s(-0.0)));
    let n = vec![frame(0, f64::NAN)];
    assert!(diff_commands(&n, &n, 100).is_empty());
}

// ---- the safety gate ----

fn dt() -> Span {
    ms(10)
}

fn limits(min: f64, max: f64, rate: f64, torque: f64) -> AxisLimits {
    AxisLimits {
        min_rad: s(min),
        max_rad: s(max),
        max_target_rate_rad_s: s(rate),
        max_torque_nm: s(torque),
    }
}

fn rate_only(rate: f64) -> AxisLimits {
    AxisLimits { max_target_rate_rad_s: s(rate), ..AxisLimits::unlimited() }
}

fn gate(limits: AxisLimits, n: usize) -> SafetyGate {
    SafetyGate::new(SafetyConfig { axes: vec![limits; n], max_observation_age: ms(100) })
}

fn fresh_obs(n: usize, position_rad: f64) -> Observation {
    let mut o = Observation::empty(n, 1);
    for i in 0..n {
        let a = o.get_mut(AxisId::new(i as u16)).unwrap();
        a.position_rad = s(position_rad);
        a.health.valid = true;
    }
    o
}

fn position_cmd(n: usize, q: f64) -> Command {
    let mut c = Command::idle(n);
    for i in 0..n {
        *c.get_mut(AxisId::new(i as u16)).unwrap() = AxisCommand::position(s(q), s(8.0));
    }
    c
}

/// Runs the safety gate with the arithmetic of the rate limit done here.
fn apply(g: &mut SafetyGate, cmd: &mut Command, obs: &Observation, dt: Span) -> SafetyVerdict {
    let dt_s = dt.as_nanos() as f64 * 1e-9;
    let stepped: Vec<Scalar> = g
        .approach(cmd, obs)
        .iter()
        .enumerate()
        .map(|(i, (from, want))| {
            let step = f(g.limits()[i].max_target_rate_rad_s) * dt_s;
            let d = f(*want) - f(*from);
            s(f(*from) + if step >= 0.0 { d.clamp(-step, step) } else { d })
        })
        .collect();
    g.apply(cmd, obs, dt, &stepped)
}

fn first(c: &Command) -> AxisCommand {
    *c.get(AxisId::new(0)).unwrap()
}

#[test]
fn a_target_outside_the_range_is_clamped() {
    let mut g = gate(limits(-0.5, 0.5, 0.0, 0.0), 1);
    let mut cmd = position_cmd(1, 2.0);
    let v = apply(&mut g, &mut cmd, &fresh_obs(1, 0.0), dt());
    assert_eq!(f(first(&cmd).position_rad), 0.5);
    assert_eq!(v.clamped, vec![AxisId::new(0)]);
}

#[test]
fn the_target_moves_no_faster_than_the_rate_limit() {
    let mut g = gate(rate_only(3.0), 1);
    let mut cmd = position_cmd(1, 1.5);
    let v = apply(&mut g, &mut cmd, &fresh_obs(1, 0.0), dt());
    assert!((f(first(&cmd).position_rad) - 0.03).abs() < 1e-12);
    assert_eq!(v.rate_limited, vec![AxisId::new(0)]);
}

#[test]
fn re_entering_position_control_starts_from_the_measured_angle() {
    let mut g = gate(rate_only(3.0), 1);
    let mut cmd = position_cmd(1, 1.0);
    apply(&mut g, &mut cmd, &fresh_obs(1, 0.0), dt());
    let mut relaxed = Command::idle(1);
    apply(&mut g, &mut relaxed, &fresh_obs(1, 0.0), dt());

    let mut cmd = position_cmd(1, 1.0);
    apply(&mut g, &mut cmd, &fresh_obs(1, 0.8), dt());
    assert!((f(first(&cmd).position_rad) - 0.83).abs() < 1e-12);
}

#[test]
fn holding_a_target_outside_the_range_does_not_wind_up() {
    let mut g = gate(limits(-0.5, 0.5, 100.0, 0.0), 1);
    let obs = fresh_obs(1, 0.0);
    for _ in 0..100 {
        let mut cmd = position_cmd(1, 50.0);
        apply(&mut g, &mut cmd, &obs, dt());
    }
    let mut cmd = position_cmd(1, 0.4);
    apply(&mut g, &mut cmd, &obs, dt());
    assert!((f(first(&cmd).position_rad) - 0.4).abs() < 1e-12);
}

#[test]
fn a_stale_observation_freezes_the_target_without_relaxing() {
    let mut g = gate(rate_only(3.0), 1);
    let mut cmd = position_cmd(1, 1.0);
    apply(&mut g, &mut cmd, &fresh_obs(1, 0.0), dt());
    let held = first(&cmd).position_rad;

    let mut stale = fresh_obs(1, 0.0);
    stale.get_mut(AxisId::new(0)).unwrap().health.age = ms(500);
    let mut cmd = position_cmd(1, 1.0);
    let v = apply(&mut g, &mut cmd, &stale, dt());

    assert!(v.held_for_stale_observation);
    assert_eq!(first(&cmd).position_rad, held);
    assert_eq!(first(&cmd).mode, ControlMode::Position);
}

#[test]
fn a_fault_is_reported_but_never_relaxes_the_robot() {
    let mut g = gate(AxisLimits::unlimited(), 1);
    let mut obs = fresh_obs(1, 0.0);
    obs.get_mut(AxisId::new(0)).unwrap().health.fault_raw = 0x04;

    let mut cmd = position_cmd(1, 0.7);
    let v = apply(&mut g, &mut cmd, &obs, dt());

    assert_eq!(v.faulted, vec![AxisId::new(0)]);
    assert_eq!(first(&cmd).mode, ControlMode::Position);
    assert_eq!(f(first(&cmd).position_rad), 0.7);
}

#[test]
fn a_fault_changes_nothing_but_the_report() {
    let mut a = gate(limits(-1.0, 1.0, 5.0, 2.0), 3);
    let mut b = gate(limits(-1.0, 1.0, 5.0, 2.0), 3);
    let obs = fresh_obs(3, 0.2);
    let mut faulty = obs.clone();
    for i in [0, 2] {
        let h = &mut faulty.get_mut(AxisId::new(i)).unwrap().health;
        h.fault_raw = 0x40;
        h.temperature_c = Some(s(99.0));
        h.voltage_v = Some(s(1.0));
    }
    // A fault that was never read is none.
    faulty.get_mut(AxisId::new(2)).unwrap().health.valid = false;
    let (mut x, mut y) = (position_cmd(3, 4.0), position_cmd(3, 4.0));
    let v = apply(&mut a, &mut x, &obs, dt());
    let w = apply(&mut b, &mut y, &faulty, dt());
    assert_eq!(x, y);
    assert_eq!(a.issued, b.issued);
    assert_eq!(w.faulted, vec![AxisId::new(0)]);
    assert_eq!(SafetyVerdict { faulted: vec![], ..w }, v);
    assert_eq!(v.clamped.len(), 3);
}

#[test]
fn a_limp_axis_needs_no_range() {
    let mut g = gate(limits(-1.0, 1.0, 0.0, 0.0), 2);
    g.cfg.axes[1] = limits(1.0, -1.0, 0.0, 0.0);
    let mut c = position_cmd(2, 0.5);
    c.axes[1].mode = ControlMode::Idle;
    let obs = fresh_obs(2, 0.0);
    assert_eq!(g.approach(&c, &obs)[1], (s(0.0), s(0.5)));
    let v = apply(&mut g, &mut c, &obs, dt());
    assert!(v.is_clean());
    assert_eq!(g.issued, vec![Some(s(0.5)), None]);
}

#[test]
fn a_run_of_periods_stays_inside_the_range() {
    let mut g = gate(limits(-0.5, 0.5, 3.0, 0.0), 1);
    for i in 0..400u32 {
        let mut obs = fresh_obs(1, 0.3);
        if i % 7 == 3 {
            obs.get_mut(AxisId::new(0)).unwrap().health.age = ms(500);
        }
        let mut c = position_cmd(1, if i % 50 < 25 { 9.0 } else { -9.0 });
        if i % 90 == 89 {
            c.axes[0].mode = ControlMode::Idle;
        }
        let limp = c.axes[0].mode == ControlMode::Idle;
        apply(&mut g, &mut c, &obs, dt());
        assert!(limp || f(first(&c).position_rad).abs() <= 0.5);
        assert!(g.issued[0].map_or(true, |q| f(q).abs() <= 0.5));
    }
}

#[test]
fn nothing_to_report_when_the_command_is_already_inside_every_limit() {
    let mut g = gate(limits(-1.0, 1.0, 100.0, 10.0), 2);
    let mut cmd = position_cmd(2, 0.1);
    let v = apply(&mut g, &mut cmd, &fresh_obs(2, 0.1), dt());
    assert!(v.is_clean(), "{v:?}");
}

#[test]
fn torque_is_held_to_its_limit_in_both_directions() {
    for (asked, got) in [(25.0, 10.0), (-25.0, -10.0), (9.0, 9.0)] {
        let mut g = gate(limits(-1.0, 1.0, 0.0, 10.0), 1);
        let mut cmd = position_cmd(1, 0.1);
        cmd.get_mut(AxisId::new(0)).unwrap().torque_ff_nm = s(asked);
        let v = apply(&mut g, &mut cmd, &fresh_obs(1, 0.1), dt());
        assert_eq!(f(first(&cmd).torque_ff_nm), got);
        assert_eq!(v.torque_limited.is_empty(), asked == got);
    }
}

#[test]
fn without_time_the_rate_limit_does_not_apply() {
    let mut g = gate(rate_only(3.0), 1);
    let mut cmd = position_cmd(1, 1.5);
    let v = apply(&mut g, &mut cmd, &fresh_obs(1, 0.0), ms(0));
    assert_eq!(f(first(&cmd).position_rad), 1.5);
    assert!(v.is_clean());
}

#[test]
fn forgetting_starts_over_from_the_measured_angle() {
    let mut g = gate(rate_only(3.0), 1);
    let mut cmd = position_cmd(1, 1.0);
    apply(&mut g, &mut cmd, &fresh_obs(1, 0.0), dt());
    g.forget();
    let mut cmd = position_cmd(1, 1.0);
    apply(&mut g, &mut cmd, &fresh_obs(1, 0.5), dt());
    assert!((f(first(&cmd).position_rad) - 0.53).abs() < 1e-12);
}

#[test]
fn axes_beyond_the_limits_pass_untouched() {
    let mut g = gate(limits(-0.5, 0.5, 0.0, 0.0), 1);
    let mut cmd = position_cmd(2, 2.0);
    apply(&mut g, &mut cmd, &fresh_obs(2, 0.0), dt());
    assert_eq!(f(cmd.get(AxisId::new(1)).unwrap().position_rad), 2.0);
}

// ---- time ----

#[test]
fn elapsed_never_wraps_backwards() {
    let t0 = secs(1.0);
    let t1 = secs(2.0);
    assert_eq!(t1.since(t0), ms(1000));
    assert_eq!(t0.since(t1), Span::zero());
}

#[test]
fn seconds_round_trip() {
    let t = secs(1.25);
    assert!((t.as_nanos() as f64 * 1e-9 - 1.25).abs() < 1e-9);
}

#[test]
fn later_times_are_held_at_the_end() {
    assert_eq!(secs(1.0).later(ms(500)).since(secs(1.0)), ms(500));
    assert_eq!(Time::from_nanos(u64::MAX - 1).later(ms(1)).as_nanos(), u64::MAX);
    assert_eq!(Time::default(), Time::zero());
    assert!(Span::default().is_zero());
}

// ---- numbers ----

#[test]
fn comparisons_agree_with_the_machine() {
    let xs = [
        0.0,
        -0.0,
        1.0,
        -1.0,
        f64::MIN_POSITIVE,
        -f64::MIN_POSITIVE,
        f64::EPSILON,
        1e300,
        -1e300,
        f64::INFINITY,
        f64::NEG_INFINITY,
        f64::NAN,
        5e-324,
        -5e-324,
    ];
    for a in xs {
        assert_eq!(s(a).is_nan(), a.is_nan());
        assert_eq!(s(a).is_finite(), a.is_finite());
        assert_eq!(s(a).is_zero(), a == 0.0);
        assert_eq!(s(a).is_positive(), a > 0.0);
        assert_eq!(f(s(a).abs()).to_bits(), a.abs().to_bits());
        assert_eq!(f(s(a).neg()).to_bits(), (-a).to_bits());
        for b in xs {
            assert_eq!(s(a).less(s(b)), a < b, "{a} < {b}");
            assert_eq!(s(a).at_most(s(b)), a <= b, "{a} <= {b}");
            assert_eq!(s(a).same_value(s(b)), a == b, "{a} == {b}");
        }
        let c = s(a).clamp(s(-0.5), s(0.5));
        assert_eq!(f(c).to_bits(), a.clamp(-0.5, 0.5).to_bits());
    }
}
