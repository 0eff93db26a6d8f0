use misa::axis::{Axis, AxisId, AxisRole, AxisTable};
use misa::bridge::{
    bridge_caps, low_command, motor_command, state_timeout, IndexReport, JointIndex, LowState, MotorState,
    RoundTrips,
};
use misa::command::{AxisCommand, Command, ControlMode};
use misa::dispatch::{PilotKind, VizConfig};
use misa::intent::{GaitSelect, GaitTune, ModeRequest, Velocity};
use misa::jointvec::JointVec;
use misa::observation::{Imu, Observation};
use misa::plant::{raw_fault, Plant, PlantCaps};
use misa::rehearsal::{
    bounded_axes, check_limits, dump_in_real_time, dump_intent, dump_verdict, feet_text, script_velocity,
    sim_in_real_time, sim_intent, sim_steps, GroundTally, PeakRates, SimRecord, Violation,
};
use misa::safety::{AxisLimits, SafetyConfig};
use misa::scalar::Scalar;
use misa::serial::{arm_target, joint_commands, serial_caps, JointMode, MotorReport};
use misa::simulated::{
    axis_joints, cone_of, contacts_go_by_force, drive, drive_all, equal_ignoring_case, home_joints,
    non_foot_ground_contacts, set_contacts, set_home, set_up_actuator, simulated_caps, Actuator, ActuatorMode, Cone,
    ContactSource, NamedJoint, PhysicsFrame, SimGains, SimOptions, Touch,
};
use misa::time::{Span, Time};

fn s(x: f64) -> Scalar {
    Scalar::from_bits(x.to_bits())
}

fn f(x: Scalar) -> f64 {
    f64::from_bits(x.to_bits())
}

fn ms(n: u64) -> Span {
    Span::from_nanos(n as u128 * 1_000_000)
}

fn table(names: &[&str]) -> AxisTable {
    AxisTable::new(names.iter().map(|n| Axis { name: n.to_string(), role: AxisRole::Aux }).collect()).unwrap()
}

fn level() -> Imu {
    Imu { rpy_rad: [s(0.0); 3], gyro_rad_s: [s(0.0); 3], accel_m_s2: [s(0.0); 3], age: ms(0) }
}

fn texts(v: &[&str]) -> Vec<String> {
    v.iter().map(|x| x.to_string()).collect()
}

// ---- the bridge ----

#[test]
fn a_limp_motor_gets_neither_torque_nor_gains() {
    let mut c = AxisCommand::position(s(0.5), s(8.0));
    c.torque_ff_nm = s(2.0);
    c.kp_nm_per_rad = s(120.0);
    c.kd_nm_s_per_rad = s(2.0);
    c.mode = ControlMode::Impedance;
    let m = motor_command(c);
    assert_eq!(m.control_mode, 4);
    assert_eq!((f(m.joint_angle), f(m.joint_angular_velocity)), (0.5, 0.0));
    assert_eq!((f(m.joint_tau), f(m.kp), f(m.kd)), (2.0, 120.0, 2.0));
    c.mode = ControlMode::Idle;
    let m = motor_command(c);
    assert_eq!((f(m.joint_tau), f(m.kp), f(m.kd)), (0.0, 0.0, 0.0));
    assert_eq!(f(m.joint_angle), 0.5);
}

#[test]
fn every_axis_is_commanded_by_name() {
    let t = table(&["a", "b", "c"]);
    let mut cmd = Command::idle(2);
    cmd.get_mut(AxisId::new(1)).unwrap().mode = ControlMode::Torque;
    let m = low_command(&t, &cmd);
    assert_eq!(m.joint_name, texts(&["a", "b", "c"]));
    assert_eq!(m.num_motors, 3);
    assert_eq!(m.motor_commands[1].control_mode, 3);
    assert_eq!(m.motor_commands[2].control_mode, 0);
    let caps = bridge_caps(3);
    assert!(caps.accepts(ControlMode::Impedance) && !caps.accepts(ControlMode::Position));
    assert_eq!(caps.driven, vec![true; 3]);
    assert_eq!(state_timeout(0), ms(5));
    assert_eq!(state_timeout(50), ms(50));
}

fn motor(angle: f64) -> MotorState {
    MotorState {
        joint_angle: s(angle),
        joint_angular_velocity: s(0.1),
        motor_output_torque: s(3.0),
        motor_output_torque_valid: true,
        motor_error: 7,
        motor_temperature: s(40.0),
        motor_temperature_valid: false,
    }
}

fn low_state(names: &[&str], states: Vec<MotorState>) -> LowState {
    LowState {
        joint_names: texts(names),
        joint_states: states,
        rpy_rad: [s(0.1), s(0.2), s(0.3)],
        gyro_rad_s: [s(0.0); 3],
        accel_m_s2: [s(0.0); 3],
    }
}

#[test]
fn readings_go_to_the_axis_of_their_name() {
    let t = table(&["a", "b", "c"]);
    let mut index = JointIndex::new(3);
    let mut obs = Observation::empty(3, 4);
    let r = index.absorb(&t, &mut obs, Time::from_nanos(9), None, ms(0));
    assert!(matches!(r, IndexReport::Quiet));
    assert!(obs.any_unread());
    assert_eq!(obs.time, Time::from_nanos(9));

    let st = low_state(&["c", "x", "a"], vec![motor(3.0), motor(9.0), motor(1.0)]);
    match index.absorb(&t, &mut obs, Time::from_nanos(10), Some(&st), ms(4)) {
        IndexReport::Missing(names) => assert_eq!(names, texts(&["b"])),
        _ => panic!("b is missing"),
    }
    assert_eq!(f(obs.axes[0].position_rad), 1.0);
    assert_eq!(f(obs.axes[2].position_rad), 3.0);
    assert!(!obs.axes[1].health.valid);
    assert_eq!(obs.axes[0].torque_nm, Some(s(3.0)));
    assert_eq!(obs.axes[0].health.temperature_c, None);
    assert_eq!(obs.axes[0].health.fault_raw, 7);
    assert_eq!(obs.axes[0].health.age, ms(4));
    assert_eq!(obs.imu.unwrap().rpy_rad[1], s(0.2));

    // Another order with the same gap is not reported again.
    let st = low_state(&["a", "c"], vec![motor(1.5), motor(3.5)]);
    let r = index.absorb(&t, &mut obs, Time::from_nanos(11), Some(&st), ms(4));
    assert!(matches!(r, IndexReport::Quiet));
    assert_eq!(f(obs.axes[2].position_rad), 3.5);

    let st = low_state(&["a", "b", "c"], vec![motor(1.0), motor(2.0), motor(3.0)]);
    let r = index.absorb(&t, &mut obs, Time::from_nanos(12), Some(&st), ms(4));
    assert!(matches!(r, IndexReport::AllFound));
    assert!(!obs.any_unread());

    // A name without a reading leaves its axis unread.
    let st = low_state(&["a", "b", "c"], vec![motor(1.0)]);
    index.absorb(&t, &mut obs, Time::from_nanos(13), Some(&st), ms(4));
    assert!(obs.axes[0].health.valid && !obs.axes[1].health.valid);
    assert_eq!(f(obs.axes[1].position_rad), 2.0);
}

#[test]
fn an_exchange_without_answers_has_failed() {
    let mut r = RoundTrips::new();
    r.note(false);
    assert_eq!(
        r.verdict("/low_state"),
        Err("/low_state から状態が来ていません。ブリッジが動いているか、トピック名と QoS を確認してください".to_string())
    );
    r.note(true);
    assert!(r.verdict("/low_state").is_ok());
    assert_eq!(r.line(), "2 周期のうち 1 周期で全軸の状態が揃いました");
}

// ---- serial buses ----

#[test]
fn bus_motors_are_limp_or_position_controlled() {
    let mut cmd = Command::idle(5);
    *cmd.get_mut(AxisId::new(1)).unwrap() = AxisCommand::position(s(0.7), s(3.0));
    cmd.get_mut(AxisId::new(2)).unwrap().mode = ControlMode::Torque;
    let c = joint_commands(&cmd, s(8.0));
    assert_eq!(c.len(), 12);
    assert_eq!(c[0].unwrap().mode, JointMode::Idle);
    assert_eq!(c[1].unwrap().mode, JointMode::Position);
    assert_eq!(f(c[1].unwrap().position_rad), 0.7);
    assert_eq!(f(c[1].unwrap().max_speed_rad_s), 8.0);
    assert_eq!(c[2].unwrap().mode, JointMode::Position);
    assert_eq!(c[5], None);
}

#[test]
fn the_arm_is_sent_only_where_we_drive_it() {
    let mut cmd = Command::idle(13);
    assert_eq!(arm_target(&cmd, true), None);
    *cmd.get_mut(AxisId::new(12)).unwrap() = AxisCommand::position(s(0.4), s(1.0));
    assert_eq!(arm_target(&cmd, true), Some(s(0.4)));
    assert_eq!(arm_target(&cmd, false), None);
    let caps = serial_caps(13, false);
    assert!(caps.driven[11] && !caps.driven[12]);
    assert!(serial_caps(13, true).driven[12]);
    assert!(caps.accepts(ControlMode::Position) && !caps.accepts(ControlMode::Torque));
}

#[test]
fn bus_reports_become_an_observation() {
    let report = |i: usize| MotorReport {
        position_rad: s(i as f64),
        velocity_rad_s: s(0.5),
        ok: i != 3,
        age: ms(if i == 5 { 40 } else { 2 }),
        error_raw: 0x10,
        status_valid: i == 0,
        temperature_c: s(33.0),
        voltage_v: s(24.0),
    };
    let motors: Vec<MotorReport> = (0..12).map(report).collect();
    let mut obs = Observation::empty(14, 4);
    misa::serial::absorb(&mut obs, Time::from_nanos(5), &motors, s(-0.3), ms(1), level());
    assert_eq!(f(obs.axes[7].position_rad), 7.0);
    assert!(!obs.axes[3].health.valid);
    assert_eq!(obs.axes[0].health.voltage_v, Some(s(24.0)));
    assert_eq!(obs.axes[1].health.voltage_v, None);
    assert_eq!(obs.axes[1].health.fault_raw, 0x10);
    assert_eq!(f(obs.axes[12].position_rad), -0.3);
    assert!(obs.axes[12].health.valid && !obs.axes[13].health.valid);
    assert_eq!(obs.imu, Some(level()));
    // A bus that is stuck shows by its age.
    assert_eq!(obs.axes[0].health.age, ms(2));
    assert_eq!(obs.axes[12].health.age, ms(1));
    assert_eq!(obs.worst_age(), ms(40));
    let fresh: Vec<MotorReport> = (0..12).map(|i| MotorReport { age: ms(2), ..report(i) }).collect();
    misa::serial::absorb(&mut obs, Time::from_nanos(6), &fresh, s(-0.3), ms(60), level());
    assert_eq!(obs.worst_age(), ms(60));
}

// ---- the simulation ----

fn joint_list(names: &[&str]) -> Vec<NamedJoint> {
    names.iter().enumerate().map(|(i, n)| NamedJoint { name: n.to_string(), number: i }).collect()
}

#[test]
fn the_simulation_needs_every_joint() {
    let joints = joint_list(&["root", "b", "a"]);
    assert_eq!(axis_joints(&table(&["a", "b"]), &joints), Ok(vec![2, 1]));
    assert_eq!(
        axis_joints(&table(&["a", "z"]), &joints),
        Err("関節 z がモデルにありません".to_string())
    );
    let home = vec![("b".to_string(), s(0.5)), ("b".to_string(), s(0.6))];
    let numbers = home_joints(&home, &joints).unwrap();
    let mut q = vec![s(0.0); 3];
    set_home(&mut q, &numbers, &home);
    assert_eq!(f(q[1]), 0.6);
    let bad = vec![("q".to_string(), s(0.5))];
    assert_eq!(
        home_joints(&bad, &joints),
        Err("初期姿勢の関節 q がモデルにありません".to_string())
    );
}

#[test]
fn the_friction_cone_has_two_shapes() {
    assert_eq!(cone_of(None), Ok(None));
    assert_eq!(cone_of(Some("elliptic")), Ok(Some(Cone::Elliptic)));
    assert_eq!(cone_of(Some("pyramidal")), Ok(Some(Cone::Pyramidal)));
    assert_eq!(cone_of(Some("round")), Err("未知の cone \"round\"（pyramidal|elliptic）".to_string()));
}

#[test]
fn the_usual_simulation_is_as_documented() {
    let o = SimOptions::default();
    assert_eq!(f(o.control_period_s), 0.005);
    assert_eq!((f(o.actuator_kp), f(o.actuator_kv), f(o.velocity_kv)), (60.0, 1.0, 20.0));
    assert_eq!((f(o.torque_scale), f(o.base_height_m), f(o.contact_threshold_n)), (1.0, 0.30, 5.0));
    assert_eq!(o.feet, texts(&["FL_foot", "FR_foot", "RL_foot", "RR_foot"]));
    assert_eq!(o.root_link, "trunk");
    let caps = simulated_caps(2);
    assert_eq!(caps.modes, vec![ControlMode::Position, ControlMode::Velocity, ControlMode::Torque]);
    assert!(caps.has_contacts);
}

fn actuator() -> Actuator {
    Actuator {
        mode: ActuatorMode::Torque,
        kp: s(1.0),
        kv: s(2.0),
        position_target: s(0.0),
        position_target_velocity: s(5.0),
        torque_feedforward: s(6.0),
        velocity_target: s(0.0),
        torque_target: s(0.0),
        effort: s(10.0),
    }
}

fn gains() -> SimGains {
    SimGains { position_kp: s(60.0), position_kv: s(1.0), velocity_kv: s(20.0) }
}

#[test]
fn an_actuator_follows_its_command() {
    let mut c = AxisCommand::position(s(0.3), s(8.0));
    c.torque_ff_nm = s(4.0);
    let mut a = actuator();
    drive(&mut a, &c, s(0.9), &gains());
    assert_eq!(a.mode, ActuatorMode::Position);
    assert_eq!((f(a.kp), f(a.kv), f(a.position_target), f(a.torque_feedforward)), (60.0, 1.0, 0.3, 4.0));
    c.mode = ControlMode::Impedance;
    c.kp_nm_per_rad = s(120.0);
    c.kd_nm_s_per_rad = s(2.5);
    drive(&mut a, &c, s(0.9), &gains());
    assert_eq!((f(a.kp), f(a.kv)), (120.0, 2.5));
    c.mode = ControlMode::Velocity;
    drive(&mut a, &c, s(0.9), &gains());
    assert_eq!(a.mode, ActuatorMode::Velocity);
    assert_eq!((f(a.kv), f(a.velocity_target)), (20.0, 8.0));
    c.mode = ControlMode::Torque;
    drive(&mut a, &c, s(0.9), &gains());
    assert_eq!(a.mode, ActuatorMode::Torque);
    assert_eq!(f(a.torque_target), 4.0);
    c.mode = ControlMode::Idle;
    drive(&mut a, &c, s(0.9), &gains());
    assert_eq!(a.mode, ActuatorMode::Position);
    assert_eq!((f(a.position_target), f(a.position_target_velocity), f(a.torque_feedforward)), (0.9, 0.0, 0.0));
}

#[test]
fn actuators_are_found_through_their_joint_numbers() {
    let mut all = vec![actuator(), actuator(), actuator()];
    let q = vec![s(0.1), s(0.2), s(0.3)];
    let mut cmd = Command::idle(2);
    *cmd.get_mut(AxisId::new(0)).unwrap() = AxisCommand::position(s(0.7), s(1.0));
    drive_all(&mut all, &vec![2, 0, 1], &q, &cmd, &gains());
    assert_eq!(f(all[2].position_target), 0.7);
    assert_eq!(f(all[0].position_target), 0.1);
    assert_eq!(all[1], actuator());
}

#[test]
fn movable_joints_are_set_up_for_position_control() {
    let mut o = SimOptions::default();
    let mut a = actuator();
    set_up_actuator(&mut a, true, &o, s(20.0));
    assert_eq!(a, actuator());
    set_up_actuator(&mut a, false, &o, s(20.0));
    assert_eq!(a.mode, ActuatorMode::Position);
    assert_eq!((f(a.kp), f(a.kv), f(a.effort)), (60.0, 1.0, 20.0));
    o.torque_scale = s(0.0);
    let mut a = actuator();
    set_up_actuator(&mut a, false, &o, s(0.0));
    assert_eq!(f(a.effort), 10.0);
}

#[test]
fn a_frame_becomes_an_observation() {
    let frame = PhysicsFrame {
        time: Time::from_nanos(77),
        q: vec![s(0.1), s(0.2), s(0.3)],
        qvel: vec![s(1.1), s(1.2)],
        tau: vec![s(5.0)],
    };
    let mut obs = Observation::empty(2, 4);
    obs.axes[0].health.fault_raw = 9;
    misa::simulated::absorb(&mut obs, &frame, &vec![2, 0], level());
    assert_eq!(obs.time, Time::from_nanos(77));
    assert_eq!((f(obs.axes[0].position_rad), f(obs.axes[0].velocity_rad_s)), (0.3, 0.0));
    assert_eq!(obs.axes[0].torque_nm, None);
    assert_eq!(obs.axes[0].health.fault_raw, 0);
    assert_eq!(obs.axes[1].torque_nm, Some(s(5.0)));
    assert!(!obs.any_unread());
}

fn touch(a: &str, b: &str, within: bool) -> Touch {
    Touch { body1: a.into(), body2: b.into(), within_robot: within }
}

#[test]
fn feet_touch_by_force_or_by_name() {
    let feet = texts(&["FL_foot", "FR_foot", "RL_foot", "RR_foot"]);
    assert!(contacts_go_by_force(s(5.0), 4));
    assert!(!contacts_go_by_force(s(0.0), 4));
    assert!(!contacts_go_by_force(s(5.0), 3));
    let mut c = vec![None; 4];
    let forces = ContactSource::Forces([s(4.9), s(5.0), s(5.1), s(0.0)]);
    set_contacts(&mut c, &forces, &feet, s(5.0));
    assert_eq!(c, vec![Some(false), Some(false), Some(true), Some(false)]);
    let touches = ContactSource::Touches(vec![
        touch("", "fl_FOOT", false),
        touch("RR_foot", "trunk", true),
        touch("RL_foot", "", false),
    ]);
    let mut c = vec![None; 5];
    set_contacts(&mut c, &touches, &feet, s(5.0));
    assert_eq!(c, vec![Some(true), Some(false), Some(true), Some(false), Some(false)]);
    assert!(equal_ignoring_case("Trunk", "tRUNK"));
    assert!(!equal_ignoring_case("trunk", "trunks"));
    assert!(!equal_ignoring_case("É", "é"));
}

#[test]
fn what_else_touches_the_ground_is_listed_once_and_in_order() {
    let feet = texts(&["FL_foot", "FR_foot"]);
    let all = vec![
        touch("", "wheel_b", false),
        touch("FL_FOOT", "", false),
        touch("trunk", "", false),
        touch("", "wheel_a", false),
        touch("wheel_b", "", false),
        touch("calf", "thigh", true),
        touch("", "", false),
    ];
    assert_eq!(non_foot_ground_contacts(&all, &feet), texts(&["trunk", "wheel_a", "wheel_b"]));
    assert!(non_foot_ground_contacts(&vec![], &feet).is_empty());
}

// ---- rehearsals ----

fn limited(n: usize) -> SafetyConfig {
    SafetyConfig {
        axes: vec![
            AxisLimits {
                min_rad: s(-1.0),
                max_rad: s(1.0),
                max_target_rate_rad_s: s(10.0),
                max_torque_nm: s(0.0),
            };
            n
        ],
        max_observation_age: ms(25),
    }
}

#[test]
fn targets_out_of_range_are_found() {
    let mut q = JointVec::zeros();
    q.set(1, 2, s(1.5));
    q.arm = s(-2.0);
    let v = check_limits(&limited(13), Some(AxisId::new(12)), &q);
    assert_eq!(
        v,
        vec![
            Violation { axis: AxisId::new(5), value: s(1.5), min_rad: s(-1.0), max_rad: s(1.0) },
            Violation { axis: AxisId::new(12), value: s(-2.0), min_rad: s(-1.0), max_rad: s(1.0) },
        ]
    );
    assert_eq!(check_limits(&limited(13), None, &q).len(), 1);
    assert_eq!(check_limits(&limited(3), Some(AxisId::new(12)), &q).len(), 0);
}

#[test]
fn a_dry_run_says_how_much_it_checked() {
    let mut l = limited(13);
    l.axes[12] = AxisLimits::unlimited();
    assert_eq!(bounded_axes(&l), 12);
    assert_eq!(dump_verdict(0, &l), Ok("可動域: すべて範囲内（12/13 軸に可動域の宣言あり）".to_string()));
    assert!(dump_verdict(1, &l).unwrap_err().starts_with("可動域を超える指令が出ています。"));
}

#[test]
fn a_gait_that_is_too_fast_is_noticed() {
    let mut p = PeakRates::new();
    let mut rates = vec![s(1.0); 12];
    rates[4] = s(16.0);
    p.note(&rates);
    p.note(&vec![s(2.0); 12]);
    assert_eq!((f(p.peak[0]), f(p.peak[4])), (2.0, 16.0));
    assert_eq!(p.over_limit(&limited(13)), vec![4]);
    let mut free = limited(13);
    free.axes[4].max_target_rate_rad_s = s(0.0);
    assert!(p.over_limit(&free).is_empty());
    assert!(p.over_limit(&limited(4)).is_empty());
}

#[test]
fn a_fall_is_seen_by_the_posture() {
    let mut r = SimRecord::new();
    r.note_body(s(0.1), s(0.9), s(-1.0), s(0.05));
    assert_eq!(r.fell, None);
    assert!(r.verdict(0, "").is_ok());
    r.note_body(s(0.2), s(0.0), s(-1.1), s(0.07));
    r.note_body(s(0.3), s(2.0), s(0.0), s(f64::NAN));
    assert_eq!(r.fell, Some(s(0.2)));
    assert_eq!(f(r.min_z), 0.05);
    assert_eq!(
        r.verdict(3, "0.20"),
        Err("**転倒しました**（t=0.20 s で胴体が 1 rad 以上傾いた）".to_string())
    );
    let r = SimRecord::new();
    assert!(r.verdict(3, "").unwrap_err().starts_with("可動域を超える指令が 3 件出ています。"));
}

#[test]
fn swinging_feet_are_measured_from_their_lowest_point() {
    let mut r = SimRecord::new();
    r.note_foot(1, Some(true), s(0.01));
    r.note_foot(1, Some(false), s(0.05));
    r.note_foot(1, None, s(0.09));
    r.note_foot(1, Some(false), s(0.03));
    assert_eq!((f(r.clear_max[1]), f(r.clear_min[1])), (0.05, 0.01));
    assert_eq!(f(r.clear_max[0]), f64::NEG_INFINITY);
}

#[test]
fn contacts_are_shown_as_signs() {
    assert_eq!(feet_text(&vec![Some(true), Some(false), None, Some(true)]), "■□?■");
    assert_eq!(feet_text(&vec![]), "");
}

#[test]
fn links_on_the_ground_are_listed_most_frequent_first() {
    let mut t = GroundTally::new();
    for name in ["b", "c", "a", "c", "b", "c", "d"] {
        t.note(name);
    }
    assert_eq!(t.names, texts(&["a", "b", "c", "d"]));
    let order: Vec<&str> = t.most_frequent().iter().map(|i| t.names[*i].as_str()).collect();
    assert_eq!(order, vec!["c", "b", "a", "d"]);
    assert_eq!(t.counts, vec![1, 2, 3, 1]);
}

fn viz(enabled: bool) -> VizConfig {
    VizConfig {
        enabled,
        key_planned: String::new(),
        key_measured: String::new(),
        rate_hz: s(100.0),
        endpoint: None,
    }
}

#[test]
fn a_watched_or_steered_run_keeps_to_real_time() {
    assert!(!dump_in_real_time(false, &viz(false)));
    assert!(dump_in_real_time(false, &viz(true)));
    assert!(dump_in_real_time(true, &viz(false)));
    assert!(!sim_in_real_time(false, &viz(false), PilotKind::Script));
    assert!(sim_in_real_time(false, &viz(false), PilotKind::Keys));
    assert_eq!(sim_steps(s(0.0), true, 7), usize::MAX);
    assert_eq!(sim_steps(s(0.0), false, 7), 7);
    assert_eq!(sim_steps(s(1.0), true, 7), 7);
}

#[test]
fn scripts_walk_from_the_beginning_and_move_later() {
    let i = dump_intent(GaitSelect::Walk, [s(0.1), s(0.2), s(0.3)]);
    assert_eq!((i.mode, i.gait), (ModeRequest::Walk, GaitSelect::Walk));
    assert!(i.velocity.is_zero() && i.link_ok && !i.stabilize_head);
    assert_eq!(i.body_attitude_rad[2], s(0.3));
    let tune = GaitTune { duty_factor: Some(s(0.6)), ..GaitTune::default() };
    let i = sim_intent(GaitSelect::Trot, [s(0.0); 3], true, tune, false);
    assert!(i.stabilize_head);
    assert_eq!(i.gait_tune, tune);
    assert!(sim_intent(GaitSelect::Trot, [s(0.0); 3], true, tune, true).gait_tune.is_empty());
    let v = Velocity { vx_m_s: s(0.1), ..Velocity::zero() };
    assert_eq!(script_velocity(Velocity::zero(), v, false), Velocity::zero());
    assert_eq!(script_velocity(Velocity::zero(), v, true), v);
}

// ---- the plant's own words ----

struct Bench {
    axes: AxisTable,
    caps: PlantCaps,
}

impl Plant for Bench {
    fn axes(&self) -> &AxisTable {
        &self.axes
    }

    fn capabilities(&self) -> &PlantCaps {
        &self.caps
    }

    fn arm(&mut self) -> Result<(), String> {
        Ok(())
    }

    fn disarm(&mut self) -> Result<(), String> {
        Ok(())
    }

    fn exchange(&mut self, cmd: &Command, obs: &mut Observation) -> Result<(), String> {
        self.caps.check(cmd)?;
        for (a, c) in obs.axes.iter_mut().zip(cmd.axes()) {
            a.position_rad = c.position_rad;
            a.health.valid = true;
        }
        Ok(())
    }
}

#[test]
fn a_plant_without_words_of_its_own_shows_the_raw_fault() {
    let mut bench: Box<dyn Plant> = Box::new(Bench { axes: table(&["a", "b"]), caps: bridge_caps(2) });
    assert_eq!(bench.describe_fault(0x1f), "0x0000001f");
    assert_eq!(raw_fault(0), "0x00000000");
    assert_eq!(raw_fault(0xdead_beef), "0xdeadbeef");
    assert_eq!(raw_fault(0x0123_4567), "0x01234567");
    assert_eq!(raw_fault(0x89ab_cdef), "0x89abcdef");
    assert_eq!(bench.status_line(), "");
    bench.observe_aux(AxisId::new(0), s(0.1));
    let mut obs = Observation::empty(2, 4);
    let mut cmd = Command::idle(2);
    cmd.get_mut(AxisId::new(1)).unwrap().position_rad = s(0.4);
    bench.arm().unwrap();
    bench.exchange(&cmd, &mut obs).unwrap();
    assert_eq!(obs.get(AxisId::new(1)).unwrap().position_rad, s(0.4));
    bench.disarm().unwrap();
}
