use misa::axis::{Axis, AxisId, AxisRole, AxisTable};
use misa::config::{EstimatorKind, GaitControllerKind, GaitTuning, KneeShape, WbcConfig};
use misa::estimator::{
    assemble, observe_body, stance_for_estimator, stance_with_measured_contact, velocities_from, Filtered,
    FilterSeed, Odometry, Vec3,
};
use misa::intent::{GaitSelect, GaitTune, TuneRanges};
use misa::jointvec::{jointvec_from, obs_axes, JointVec};
use misa::legs::LegFlags;
use misa::mpc::{configure_mpc, mpc_reference, BodyAcceleration, MpcSettings, PredictedForces};
use misa::observation::Observation;
use misa::posture::{
    build_q, measured, output_to_joints, output_to_joints_tilted, JointTarget, LegJoint, LegSolution, ModelJoint,
    NamedAngle,
};
use misa::rehearsal::{check_meshes, leg_home};
use misa::robot::{
    base_gait_config, base_gait_tune, cycle_period_of, declared_effort, declared_range, declared_velocity,
    bad_meshes, gait_mode_of, gait_supports_body_height, gait_type_of, knee_pattern_of,
    resolve_kinematics_posture, rest_pose, tuned_gait_config, CollisionMesh, GaitConfig, GaitMode, GaitType,
    JointSpec, KneePattern, Pose, PoseAngle, PoseLibrary,
};
use misa::scalar::Scalar;
use misa::time::Span;
use misa::serial::MotorReport;

fn s(x: f64) -> Scalar {
    Scalar::from_bits(x.to_bits())
}

fn tuning(controller: GaitControllerKind, crawl_use_linear: bool) -> GaitTuning {
    GaitTuning { controller, crawl_use_linear, ..GaitTuning::default() }
}

const GAITS: [GaitSelect; 3] = [GaitSelect::Crawl, GaitSelect::Walk, GaitSelect::Trot];

#[test]
fn gait_selection_maps_to_the_documented_controllers() {
    assert_eq!(gait_type_of(GaitSelect::Crawl), GaitType::Crawl);
    assert_eq!(gait_type_of(GaitSelect::Walk), GaitType::Walk);
    assert_eq!(gait_type_of(GaitSelect::Trot), GaitType::Trot);
    let auto_off = tuning(GaitControllerKind::Auto, false);
    let auto_on = tuning(GaitControllerKind::Auto, true);
    for select in GAITS {
        assert_eq!(gait_mode_of(select, &auto_off), GaitMode::Champ);
    }
    assert_eq!(gait_mode_of(GaitSelect::Crawl, &auto_on), GaitMode::LinearCrawl);
    assert_eq!(gait_mode_of(GaitSelect::Walk, &auto_on), GaitMode::Champ);
}

fn preset() -> GaitConfig {
    GaitConfig {
        cycle_period_s: s(1.9),
        swing_height_m: s(0.04),
        max_step_length_m: s(0.06),
        duty_factor: s(0.75),
    }
}

#[test]
fn a_profile_step_length_reaches_the_gait() {
    let t = GaitTuning { step_length_m: Some(s(0.145)), ..GaitTuning::default() };
    for select in GAITS {
        assert_eq!(base_gait_config(&t, select, &preset()).max_step_length_m, s(0.145));
    }
    let d = GaitTuning::default();
    assert_eq!(base_gait_config(&d, GaitSelect::Crawl, &preset()).max_step_length_m, s(0.06));
}

#[test]
fn an_explicit_controller_overrides_the_legacy_flag() {
    let t = tuning(GaitControllerKind::Mpc, true);
    for select in GAITS {
        assert_eq!(gait_mode_of(select, &t), GaitMode::Mpc);
    }
    let t = tuning(GaitControllerKind::Centroidal, false);
    assert_eq!(gait_mode_of(GaitSelect::Trot, &t), GaitMode::CentroidalSrbd);
    assert_eq!(gait_type_of(GaitSelect::Trot), GaitType::Trot);
}

#[test]
fn only_the_mpc_controllers_advertise_a_grf_prediction() {
    assert!(GaitControllerKind::Mpc.has_mpc());
    assert!(GaitControllerKind::Centroidal.has_mpc());
    assert!(!GaitControllerKind::Auto.has_mpc());
    assert!(!GaitControllerKind::Champ.has_mpc());
    assert!(!GaitControllerKind::LinearCrawl.has_mpc());
}

#[test]
fn only_linear_crawl_takes_a_body_height_change() {
    assert!(gait_supports_body_height(GaitMode::LinearCrawl));
    assert!(!gait_supports_body_height(GaitMode::Champ));
    for select in GAITS {
        let off = tuning(GaitControllerKind::Auto, false);
        assert!(!gait_supports_body_height(gait_mode_of(select, &off)), "{select:?}");
    }
    let on = tuning(GaitControllerKind::Auto, true);
    assert!(gait_supports_body_height(gait_mode_of(GaitSelect::Crawl, &on)));
    assert!(!gait_supports_body_height(gait_mode_of(GaitSelect::Trot, &on)));
}

#[test]
fn a_missing_kinematics_pose_falls_back_to_home() {
    let mut home = JointVec::zeros();
    home.legs[0][1] = s(0.5);
    let lib = PoseLibrary { poses: vec![], home };
    assert_eq!(resolve_kinematics_posture(&lib, "nope"), (home, true));
    assert_eq!(resolve_kinematics_posture(&lib, "home"), (home, false));
}

fn library() -> PoseLibrary {
    let mut home = JointVec::zeros();
    home.legs[0][0] = s(0.1);
    home.arm = s(0.9);
    PoseLibrary {
        poses: vec![
            Pose {
                name: "extend".into(),
                angles: vec![
                    PoseAngle { joint: 1, angle: s(0.7) },
                    PoseAngle { joint: 12, angle: s(-0.2) },
                    PoseAngle { joint: 99, angle: s(5.0) },
                    PoseAngle { joint: 1, angle: s(0.8) },
                ],
            },
            Pose { name: "extend".into(), angles: vec![] },
        ],
        home,
    }
}

#[test]
fn a_pose_lies_over_zero_or_over_home() {
    let lib = library();
    let (q, missing) = resolve_kinematics_posture(&lib, "extend");
    assert!(!missing);
    assert_eq!(q.get(0, 0), s(0.0));
    assert_eq!(q.get(0, 1), s(0.8));
    assert_eq!(q.arm, s(-0.2));
    let (q, missing) = rest_pose(&lib, Some("extend"), Some(&calibration()));
    assert!(!missing);
    assert_eq!(q.get(0, 0), s(0.1));
    assert_eq!(q.get(0, 1), s(0.8));
}

/// The first leg's motors, a leg without a bus, one with a single motor, and a
/// bus without motors.
fn calibration() -> Vec<Option<Vec<Scalar>>> {
    vec![Some(vec![s(0.5), s(1.5), s(2.5), s(9.0)]), None, Some(vec![s(-1.0)]), Some(vec![])]
}

#[test]
fn a_simulation_starts_from_the_best_pose_there_is() {
    let lib = library();
    let zero = calibration();
    for (name, missing) in [(None, false), (Some("nope"), true)] {
        assert_eq!(rest_pose(&lib, name, None), (lib.home, missing));
        let (q, m) = rest_pose(&lib, name, Some(&zero));
        assert_eq!(m, missing);
        for k in 0..3 {
            assert_eq!(q.get(0, k), s(0.5 + k as f64));
            assert_eq!(q.get(1, k), lib.home.get(1, k));
            assert_eq!(q.get(3, k), lib.home.get(3, k));
        }
        assert_eq!(q.get(2, 0), s(-1.0));
        assert_eq!(q.get(2, 1), lib.home.get(2, 1));
        assert_eq!(q.arm, lib.home.arm);
    }
}

#[test]
fn knee_patterns_keep_their_names() {
    assert_eq!(knee_pattern_of(KneeShape::BothBack), KneePattern::BothBack);
    assert_eq!(knee_pattern_of(KneeShape::MammalianForward), KneePattern::MammalianForward);
    assert_eq!(knee_pattern_of(KneeShape::MammalianReverse), KneePattern::MammalianReverse);
    assert_eq!(knee_pattern_of(KneeShape::BothForward), KneePattern::BothForward);
}

#[test]
fn only_predictive_controllers_need_the_body() {
    let t = GaitTuning {
        mpc_horizon_steps: 12,
        mpc_dt_per_step: s(0.025),
        mpc_capture_point_gain_s: s(0.1),
        ..GaitTuning::default()
    };
    let w = WbcConfig { friction_mu: s(0.45), ..WbcConfig::default() };
    let expected = MpcSettings {
        horizon_steps: 12,
        dt_per_step: s(0.025),
        friction_mu: s(0.45),
        capture_point_gain_s: s(0.1),
        full_inertia: false,
    };
    assert_eq!(configure_mpc(GaitMode::Mpc, &t, &w), Some(expected));
    assert_eq!(
        configure_mpc(GaitMode::CentroidalSrbd, &t, &w),
        Some(MpcSettings { full_inertia: true, ..expected })
    );
    assert_eq!(configure_mpc(GaitMode::Champ, &t, &w), None);
    assert_eq!(configure_mpc(GaitMode::LinearCrawl, &t, &w), None);
}

fn v3(x: f64, y: f64, z: f64) -> Vec3 {
    Vec3 { x: s(x), y: s(y), z: s(z) }
}

#[test]
fn the_whole_body_follows_the_predicted_forces() {
    let forces = PredictedForces { grf_world: [v3(0.0, 0.0, 6.0); 4], solved: true };
    let a = BodyAcceleration { linear_world: v3(0.1, 0.0, 0.0), angular_world: v3(0.0, 0.0, 0.2) };
    let b = BodyAcceleration { linear_world: v3(0.3, 0.0, 0.0), angular_world: v3(0.0, 0.4, 0.0) };
    let r = mpc_reference(Some(forces), Some(a), Some(b)).unwrap();
    assert_eq!(r.grf_world, forces.grf_world);
    assert!(r.solved);
    assert_eq!(r.accel, a);
    assert_eq!(mpc_reference(Some(forces), None, Some(b)).unwrap().accel, b);
    assert_eq!(mpc_reference(Some(forces), None, None), None);
    assert_eq!(mpc_reference(None, Some(a), Some(b)), None);
}

fn target(leg: usize, k: usize, angle: f64) -> JointTarget {
    JointTarget { place: Some(LegJoint { leg, k }), angle: s(angle) }
}

#[test]
fn the_gait_moves_the_legs_and_leaves_the_arm() {
    let out = vec![
        target(0, 0, 0.1),
        target(3, 2, -1.5),
        JointTarget { place: None, angle: s(7.0) },
        target(0, 0, 0.2),
    ];
    let q = output_to_joints(&out, s(0.4));
    assert_eq!(q.arm, s(0.4));
    for leg in 0..4 {
        for k in 0..3 {
            let expected = match (leg, k) {
                (0, 0) => 0.2,
                (3, 2) => -1.5,
                _ => 0.0,
            };
            assert_eq!(q.get(leg, k), s(expected));
        }
    }
}

#[test]
fn a_level_body_takes_the_gait_as_it_is() {
    let out = vec![target(1, 1, 0.7)];
    let leg = |x: f64, reachable: bool| LegSolution { angles: [s(x), s(x + 0.1), s(x + 0.2)], reachable };
    let solved = [leg(1.0, true), leg(2.0, true), leg(3.0, true), leg(4.0, false)];
    // Minus zero is level too.
    let level = [s(0.0), s(-0.0), s(0.0)];
    assert_eq!(
        output_to_joints_tilted(&out, true, &solved, s(0.4), level),
        (output_to_joints(&out, s(0.4)), true)
    );
    assert!(!output_to_joints_tilted(&out, false, &solved, s(0.4), level).1);
    let (q, reachable) = output_to_joints_tilted(&out, true, &solved, s(0.4), [s(0.0), s(0.0), s(0.05)]);
    assert!(!reachable);
    assert_eq!(q.arm, s(0.4));
    for l in 0..4 {
        assert_eq!(q.legs[l], solved[l].angles);
    }
    let all = [leg(1.0, true); 4];
    assert!(output_to_joints_tilted(&out, false, &all, s(0.4), [s(0.1), s(0.0), s(0.0)]).1);
}

#[test]
fn measured_angles_go_leg_by_leg() {
    let motors: Vec<MotorReport> = (0..12)
        .map(|i| MotorReport {
            position_rad: s(i as f64),
            velocity_rad_s: s(0.0),
            ok: true,
            age: Span::zero(),
            error_raw: 0,
            status_valid: false,
            temperature_c: s(0.0),
            voltage_v: s(0.0),
        })
        .collect();
    let q = measured(&motors, s(-0.5));
    assert_eq!(q.arm, s(-0.5));
    for leg in 0..4 {
        for k in 0..3 {
            assert_eq!(q.get(leg, k), s((leg * 3 + k) as f64));
        }
    }
}

#[test]
fn a_posture_fills_the_model_coordinates_by_name() {
    let joint = |name: &str, place: usize| ModelJoint { name: name.to_string(), place };
    let angle = |name: &str, x: f64| NamedAngle { name: name.to_string(), angle: s(x) };
    let joints = vec![joint("base", 0), joint("hip", 2), joint("knee", 3), joint("hip", 1)];
    let neutral = vec![s(9.0), s(8.0), s(7.0), s(6.0)];
    let posture = vec![angle("knee", 0.3), angle("tail", 5.0), angle("hip", 0.1), angle("knee", 0.4)];
    assert_eq!(build_q(neutral, &joints, &posture), vec![s(9.0), s(8.0), s(0.1), s(0.4)]);
}

fn ranges() -> TuneRanges {
    TuneRanges {
        cycle_s: (s(0.2), s(3.0)),
        swing_m: (s(0.0), s(0.15)),
        step_m: (s(0.01), s(0.5)),
        duty: (s(0.35), s(0.95)),
    }
}

#[test]
fn overrides_lie_over_the_profile() {
    let t = GaitTuning { walk_cycle_s: Some(s(0.8)), ..GaitTuning::default() };
    assert_eq!(cycle_period_of(&t, GaitSelect::Walk), Some(s(0.8)));
    let base = base_gait_config(&t, GaitSelect::Walk, &preset());
    assert_eq!(base.cycle_period_s, s(0.8));
    assert_eq!(base.duty_factor, s(0.75));
    let same = base_gait_tune(&t, GaitSelect::Walk, &preset());
    assert_eq!(tuned_gait_config(&t, GaitSelect::Walk, &preset(), &same, &ranges()), base);
    let empty = GaitTune::default();
    assert_eq!(tuned_gait_config(&t, GaitSelect::Walk, &preset(), &empty, &ranges()), base);
    let wild = GaitTune { duty_factor: Some(s(2.0)), ..GaitTune::default() };
    let c = tuned_gait_config(&t, GaitSelect::Walk, &preset(), &wild, &ranges());
    assert_eq!(c.duty_factor, s(0.95));
    assert_eq!(c.cycle_period_s, s(0.8));
}

fn joint(name: &str, lower: f64, upper: f64, velocity: f64, effort: f64) -> JointSpec {
    JointSpec {
        name: name.into(),
        lower: s(lower),
        upper: s(upper),
        velocity: s(velocity),
        effort: s(effort),
    }
}

#[test]
fn only_declared_limits_count() {
    let joints = vec![joint("a", -1.0, 1.0, 10.0, 5.0), joint("b", 0.0, 0.0, 0.0, 0.0)];
    assert_eq!(declared_range(&joints, "a"), Some((s(-1.0), s(1.0))));
    assert_eq!(declared_range(&joints, "b"), None);
    assert_eq!(declared_range(&joints, "c"), None);
    assert_eq!(declared_velocity(&joints, "a"), Some(s(10.0)));
    assert_eq!(declared_velocity(&joints, "b"), None);
    assert_eq!(declared_effort(&joints, "a"), Some(s(5.0)));
    assert_eq!(declared_effort(&joints, "b"), None);
}

#[test]
fn an_unusable_mesh_is_noted_once_and_stops_the_simulation() {
    let mesh = |link: &str, file: &str, sizes: Vec<u64>| CollisionMesh {
        link: link.to_string(),
        file: file.to_string(),
        sizes,
    };
    let good = mesh("FL_calf", "calf.stl", vec![0, 120]);
    assert!(bad_meshes(&vec![good.clone()]).is_empty());
    assert!(check_meshes(&vec![]).is_ok());
    let lost = mesh("FL_calf", "calf.stl", vec![]);
    let bad = bad_meshes(&vec![good, lost.clone(), lost, mesh("trunk", "trunk.stl", vec![0])]);
    assert_eq!(
        bad,
        vec!["FL_calf の calf.stl が見つかりません".to_string(), "trunk の trunk.stl が空です".to_string()]
    );
    let e = check_meshes(&bad).unwrap_err();
    assert!(e.starts_with("当たり判定のメッシュを 2 件読めません。"), "{e}");
    assert!(e.ends_with("\n  FL_calf の calf.stl が見つかりません\n  trunk の trunk.stl が空です"), "{e}");
}

#[test]
fn joint_vectors_follow_the_axes() {
    let mut obs = Observation::empty(13, 4);
    for i in 0..13 {
        obs.axes[i].position_rad = s(i as f64);
        obs.axes[i].velocity_rad_s = s(-(i as f64));
        obs.axes[i].health.valid = i != 4;
    }
    let q = jointvec_from(&obs);
    assert_eq!(q.get(1, 1), s(4.0));
    assert_eq!(q.arm, s(12.0));
    let back = obs_axes(&q);
    assert_eq!(back.len(), 13);
    for (i, v) in back.iter().enumerate() {
        assert_eq!(*v, s(i as f64));
    }
    let v = velocities_from(&obs);
    assert_eq!(v.get(1, 0), s(-3.0));
    assert_eq!(v.get(1, 1), s(0.0));
    assert_eq!(jointvec_from(&Observation::empty(0, 0)), JointVec::zeros());
}

#[test]
fn the_starting_pose_names_the_leg_joints_only() {
    let mut axes = Vec::new();
    for i in 0..13u8 {
        axes.push(Axis {
            name: format!("j{i}"),
            role: if i < 12 { AxisRole::Leg { leg: i / 3, joint: i % 3 } } else { AxisRole::Aux },
        });
    }
    let t = AxisTable::new(axes).unwrap();
    let mut q = JointVec::zeros();
    q.set(3, 2, s(-2.5));
    let home = leg_home(&t, &q);
    assert_eq!(home.len(), 12);
    assert_eq!(home[11], ("j11".to_string(), s(-2.5)));
    assert_eq!(t.id_of("j11"), Some(AxisId::new(11)));
}

// ---- the body's state ----

#[test]
fn a_plant_without_contact_sensors_leaves_the_plan_alone() {
    let obs = Observation::empty(13, 4);
    assert!(obs.contacts.iter().all(|c| c.is_none()));
    let planned = [true, false, true, false];
    assert_eq!(stance_with_measured_contact(planned, &obs), planned);
    assert_eq!(stance_for_estimator(planned, &obs), planned);
}

#[test]
fn only_an_early_touchdown_overrides_the_plan() {
    let mut obs = Observation::empty(13, 4);
    obs.contacts[0] = Some(true);
    obs.contacts[1] = Some(false);
    let got = stance_with_measured_contact([false, true, false, true], &obs);
    assert_eq!(got, [true, true, false, true]);
}

#[test]
fn the_estimator_believes_the_sensors() {
    let mut obs = Observation::empty(13, 4);
    obs.contacts[0] = Some(true);
    obs.contacts[1] = Some(false);
    assert_eq!(stance_for_estimator([false, true, false, true], &obs), [true, false, false, true]);
}

fn odometry() -> Odometry {
    Odometry { height_m: s(0.2), velocity_world: v3(0.1, 0.0, 0.0), position_error_world: v3(0.0, 0.0, 0.01) }
}

#[test]
fn a_flight_phase_reports_nothing() {
    let st = assemble(LegFlags::from_array([false; 4]), v3(0.1, 0.0, 0.0), odometry(), None);
    assert_eq!(st.stance_count, 0);
    assert!(st.height_m.is_none());
    assert!(st.velocity_world.is_none());
    assert!(st.position_error_world.is_none());
    assert_eq!(st.angular_velocity_world, v3(0.1, 0.0, 0.0));
}

#[test]
fn the_filter_replaces_height_and_velocity_only() {
    let f = Filtered { height_m: s(0.21), velocity_world: v3(0.2, 0.0, 0.0) };
    let st = assemble(LegFlags::from_array([true; 4]), v3(0.0, 0.0, 0.0), odometry(), Some(f));
    assert_eq!(st.stance_count, 4);
    assert_eq!(st.height_m, Some(s(0.21)));
    assert_eq!(st.velocity_world, Some(v3(0.2, 0.0, 0.0)));
    assert_eq!(st.position_error_world, Some(v3(0.0, 0.0, 0.01)));
    let o = observe_body(&st, false, false);
    assert_eq!(o.height_m, None);
    assert!(o.tells_velocity && o.commanded);
    let o = observe_body(&st, true, true);
    assert_eq!(o.height_m, Some(s(0.21)));
    assert!(o.tells_velocity && !o.commanded);
}

#[test]
fn the_filter_starts_once_from_the_odometry() {
    let mut seed = FilterSeed::new(EstimatorKind::Kalman);
    assert_eq!(seed.start_height(Some(s(0.2)), s(0.3)), Some(s(0.2)));
    assert_eq!(seed.start_height(Some(s(0.2)), s(0.3)), None);
    seed.reset();
    assert_eq!(seed.start_height(None, s(0.3)), Some(s(0.3)));
    let mut none = FilterSeed::new(EstimatorKind::LegOdometry);
    assert_eq!(none.start_height(Some(s(0.2)), s(0.3)), None);
}
