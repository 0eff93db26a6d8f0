use misa::config::{
    default_model_path, inspect_profile, judge_keys, torque_unit_mismatch, AppConfig, AuxAxis, AuxRole, ConfigError,
    ControlConfig, EstimatorKind, GaitControllerKind, GaitTuning, KneeShape, NotAProfile, PoseConfig, ProfileText,
    WbcConfig, WbcError, WbcOutput,
};
use misa::scalar::Scalar;

fn s(x: f64) -> Scalar {
    Scalar::from_bits(x.to_bits())
}

fn f(x: Scalar) -> f64 {
    f64::from_bits(x.to_bits())
}

fn usual() -> AppConfig {
    AppConfig::with_arm_joint("arm_pitch_joint")
}

/// The rate of the motor bus that the profile is checked against.
const BUS_HZ: f64 = 400.0;

fn check(cfg: &AppConfig) -> Result<(), ConfigError> {
    cfg.validate(None, Some(s(BUS_HZ)), None)
}

fn words(cfg: &AppConfig) -> String {
    check(cfg).unwrap_err().message(&cfg.name, "1", "2")
}

fn refusal(text: &str) -> String {
    match inspect_profile(text) {
        ProfileText::Profile => panic!("taken for a profile"),
        ProfileText::Refused(why) => why.message(),
        ProfileText::Malformed(e) => e.to_string(),
    }
}

#[test]
fn a_model_file_is_not_accepted_as_a_config() {
    let misa = r#"
[[pose]]
name = "start"

[pose.angles]
FL_hip_joint = 0.0
"#;
    let e = refusal(misa);
    assert!(e.contains("[hardware]"), "{e}");
    assert!(e.contains("モデルファイル"), "{e}");
}

#[test]
fn an_empty_toml_is_not_accepted_as_a_config() {
    assert!(!matches!(inspect_profile(""), ProfileText::Profile));
    assert!(refusal("").contains("[hardware]"));
}

#[test]
fn a_hardware_table_makes_a_profile() {
    let text = r#"
name = "bridged"
[control]
model = "models/namiashi/namiashi.misa"
[hardware]
kind = "ros2"
namespace = "/bridged"
[[aux]]
joint = "FL_wheel_joint"
role = "wheel"
"#;
    assert!(matches!(inspect_profile(text), ProfileText::Profile));
}

#[test]
fn text_that_is_no_toml_is_malformed() {
    assert!(matches!(inspect_profile("name = "), ProfileText::Malformed(_)));
    assert!(matches!(inspect_profile("[hardware"), ProfileText::Malformed(_)));
}

#[test]
fn documents_are_judged_by_their_tables() {
    let keys = |k: &[&str]| k.iter().map(|x| x.to_string()).collect::<Vec<String>>();
    assert_eq!(judge_keys(&keys(&["name", "hardware"])), None);
    assert_eq!(judge_keys(&keys(&["pose", "hardware"])), None);
    assert_eq!(judge_keys(&keys(&["pose"])), Some(NotAProfile::Model));
    assert_eq!(judge_keys(&keys(&["link", "joint"])), Some(NotAProfile::Model));
    assert_eq!(judge_keys(&keys(&["name"])), Some(NotAProfile::Plain));
    assert_eq!(judge_keys(&keys(&[])), Some(NotAProfile::Plain));
}

#[test]
fn a_robot_name_that_would_escape_its_path_is_rejected() {
    for bad in ["../../etc/passwd", "a/b", "", "name with space", "名前"] {
        let mut cfg = usual();
        cfg.name = bad.to_string();
        assert!(check(&cfg).is_err(), "{bad:?}");
    }
    for good in ["namiashi", "keel-2", "A_b_9"] {
        let mut cfg = usual();
        cfg.name = good.to_string();
        assert!(check(&cfg).is_ok(), "{good:?}");
    }
}

#[test]
fn a_bad_name_is_quoted() {
    let mut cfg = usual();
    cfg.name = "a\"/b".into();
    assert!(words(&cfg).starts_with("name \"a\\\"/b\" に使えない文字"), "{}", words(&cfg));
    cfg.name = String::new();
    assert_eq!(words(&cfg), "name が空です。ロボット名を書いてください");
}

fn tilt_cfg(attitude_max_rad: f64, max_tilt_rad: Option<f64>) -> AppConfig {
    AppConfig {
        control: ControlConfig { max_tilt_rad: max_tilt_rad.map(s), ..Default::default() },
        gait: GaitTuning { body_attitude_max_rad: s(attitude_max_rad), ..Default::default() },
        ..usual()
    }
}

fn max_tilt(cfg: &AppConfig) -> f64 {
    f(cfg.max_tilt_rad(s(f(cfg.gait.body_attitude_max_rad) + 0.3)))
}

#[test]
fn the_tilt_limit_is_derived_from_how_far_the_body_is_tilted_on_purpose() {
    assert!((max_tilt(&tilt_cfg(0.20, None)) - 0.50).abs() < 1e-12);
    assert!((max_tilt(&tilt_cfg(0.6, None)) - 0.9).abs() < 1e-12);
    assert!((max_tilt(&tilt_cfg(0.0, None)) - 0.5).abs() < 1e-12);
    for max in [0.0, 0.1, 0.2, 0.6, 1.0] {
        assert!(max_tilt(&tilt_cfg(max, None)) > max, "{max}");
    }
}

#[test]
fn a_tilt_limit_inside_the_attitude_command_is_rejected() {
    let e = words(&tilt_cfg(0.6, Some(0.5)));
    assert!(e.contains("max_tilt_rad"), "{e}");
    let off = tilt_cfg(0.6, Some(0.0));
    assert!(check(&off).is_ok());
    assert_eq!(max_tilt(&off), 0.0);
    assert_eq!(words(&tilt_cfg(0.6, Some(-0.1))), "control.max_tilt_rad は 0 以上（0 で無効）");
}

#[test]
fn default_config_is_valid() {
    assert!(check(&usual()).is_ok());
}

#[test]
fn the_defaults_are_usable_without_a_config_file() {
    assert!(check(&usual()).is_ok());
    assert_eq!(usual().control.model, default_model_path());
}

#[test]
fn control_rate_above_the_bus_rate_is_rejected() {
    let mut cfg = usual();
    cfg.control.rate_hz = s(BUS_HZ * 2.0);
    assert!(check(&cfg).is_err());
    assert!(matches!(check(&cfg), Err(ConfigError::RateAboveBus)));
    assert!(cfg.validate(None, None, None).is_ok());
    assert!(words(&cfg).starts_with("control.rate_hz (1) が legs.bus_rate_hz (2) を超えています"));
}

#[test]
fn each_fault_of_a_profile_is_named() {
    let mut cfg = usual();
    cfg.control.rate_hz = s(0.0);
    assert_eq!(words(&cfg), "control.rate_hz は正の値が必要です");
    let mut cfg = usual();
    cfg.aux.push(AuxAxis { joint: "b".into(), role: AuxRole::Head });
    assert_eq!(words(&cfg), "role = \"head\" の補助軸が 2 本あります。1 本までです");
    let mut cfg = usual();
    cfg.gait.max_vy_m_s = s(0.0);
    assert_eq!(words(&cfg), "gait の速度上限は正の値が必要です");
    let mut cfg = usual();
    cfg.wbc.enabled = true;
    cfg.wbc.torque_scale = s(0.0);
    assert_eq!(words(&cfg), "wbc.torque_scale は正の値が必要です");
    let cfg = usual();
    let e = cfg.validate(Some("wiring".into()), None, Some("radio".into())).unwrap_err();
    assert_eq!(e.message("", "", ""), "wiring");
    let e = cfg.validate(None, None, Some("radio".into())).unwrap_err();
    assert_eq!(e.message("", "", ""), "radio");
}

#[test]
fn each_fault_of_the_body_controller_is_named() {
    let on = WbcConfig { enabled: true, ..WbcConfig::default() };
    assert_eq!(on.validate(), Ok(()));
    for (cfg, e) in [
        (WbcConfig { friction_mu: s(0.0), ..on }, WbcError::Friction),
        (WbcConfig { f_min_stance_n: s(-1.0), ..on }, WbcError::MinForce),
        (WbcConfig { max_joint_accel: s(-1.0), ..on }, WbcError::JointAccel),
        (WbcConfig { max_base_accel_ang: s(-1.0), ..on }, WbcError::BaseAccel),
        (WbcConfig { grf_smoothing: s(1.5), ..on }, WbcError::Smoothing),
        (WbcConfig { grf_smoothing: s(f64::NAN), ..on }, WbcError::Smoothing),
        (WbcConfig { torque_scale: s(-1.0), ..on }, WbcError::TorqueScale),
        (WbcConfig { mass_kg: s(-1.0), ..on }, WbcError::Mass),
        (WbcConfig { velocity_track_kp: s(-1.0), ..on }, WbcError::VelocityTrack),
    ] {
        assert_eq!(cfg.validate(), Err(e));
        assert_eq!(WbcConfig { enabled: false, ..cfg }.validate(), Ok(()));
    }
}

#[test]
fn the_torque_ceiling_is_the_smaller_of_two_limits() {
    let none = WbcConfig::default();
    assert_eq!(f(none.torque_ceiling(s(12.0))), 12.0);
    assert_eq!(f(none.torque_ceiling(s(0.0))), 0.0);
    let ten = WbcConfig { max_torque_nm: s(10.0), ..none };
    assert_eq!(f(ten.torque_ceiling(s(12.0))), 10.0);
    assert_eq!(f(ten.torque_ceiling(s(8.0))), 8.0);
    assert_eq!(f(ten.torque_ceiling(s(0.0))), 10.0);
}

#[test]
fn names_in_a_profile_parse() {
    assert_eq!(WbcOutput::parse("torque"), Some(WbcOutput::Torque));
    assert_eq!(WbcOutput::parse("trq"), Some(WbcOutput::Torque));
    assert_eq!(WbcOutput::parse("vel"), Some(WbcOutput::Velocity));
    assert_eq!(WbcOutput::parse("pos"), Some(WbcOutput::Position));
    assert_eq!(WbcOutput::parse("x"), None);
    assert_eq!(GaitControllerKind::parse("mpc"), Some(GaitControllerKind::Mpc));
    assert_eq!(GaitControllerKind::parse("x"), None);
}

#[test]
fn the_other_greeting_plays_where_there_is_one() {
    let mut p = PoseConfig::default();
    assert_eq!(p.pose_to_play(false), "greeting");
    assert_eq!(p.pose_to_play(true), "greeting");
    p.greeting_alt = "wave".into();
    assert_eq!(p.pose_to_play(true), "wave");
    assert_eq!(p.pose_to_play(false), "greeting");
}

#[test]
fn torque_in_the_wrong_unit_is_explained() {
    assert!(torque_unit_mismatch(true, false).unwrap().contains("torque_constant_nm_per_a"));
    assert_eq!(torque_unit_mismatch(true, true), None);
    assert_eq!(torque_unit_mismatch(false, false), None);
}

#[test]
fn the_usual_gait_is_as_documented() {
    let g = GaitTuning::default();
    assert_eq!(f(g.stance_height_m), 0.20);
    assert_eq!(f(g.swing_height_m), 0.03);
    assert_eq!(f(g.max_vx_m_s), 0.15);
    assert_eq!(g.estimator, EstimatorKind::LegOdometry);
    assert_eq!(g.knee_pattern, KneeShape::BothBack);
    let c = ControlConfig::default();
    assert_eq!(f(c.rate_hz), 200.0);
    assert_eq!(f(c.transition_s), 1.5);
    assert_eq!(c.teleop_timeout_ms, 100);
}
