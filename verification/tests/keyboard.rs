use misa::config::{AppConfig, GaitControllerKind, WbcOutput};
use misa::intent::{
    GaitControllerRequest, GaitSelect, GaitTune, Intent, ModeRequest, TuneRanges, Velocity, WbcRequest,
};
use misa::keys::{
    apply, deadman_check, decode, initial_controller, initial_wbc, is_changed, on_key, open, operand, Key,
    KeyState, Knob, Limits, Moved, Operand, STEPS,
};
use misa::robot::GaitConfig;
use misa::scalar::Scalar;
use misa::time::{Span, Time};

fn s(x: f64) -> Scalar {
    Scalar::from_bits(x.to_bits())
}

fn f(x: Scalar) -> f64 {
    f64::from_bits(x.to_bits())
}

fn at_ms(n: u64) -> Time {
    Time::from_nanos(n * 1_000_000)
}

fn base_tune(duty: f64) -> GaitTune {
    GaitTune {
        cycle_period_s: Some(s(0.60)),
        swing_height_m: Some(s(0.05)),
        step_length_m: Some(s(0.15)),
        duty_factor: Some(s(duty)),
    }
}

const CYCLE_S: (f64, f64) = (0.2, 3.0);
const SWING_M: (f64, f64) = (0.01, 0.15);
const STEP_M: (f64, f64) = (0.01, 0.5);
const DUTY: (f64, f64) = (0.35, 0.95);

fn lim() -> Limits {
    Limits {
        max_vx: s(0.4),
        max_vy: s(0.2),
        max_wz: s(0.8),
        height_range: s(0.08),
        attitude_max: s(0.20),
        base_crawl: base_tune(0.85),
        base_walk: base_tune(0.75),
        base_trot: base_tune(0.5),
        tune_ranges: TuneRanges {
            cycle_s: (s(CYCLE_S.0), s(CYCLE_S.1)),
            swing_m: (s(SWING_M.0), s(SWING_M.1)),
            step_m: (s(STEP_M.0), s(STEP_M.1)),
            duty: (s(DUTY.0), s(DUTY.1)),
        },
        wbc_initial: WbcRequest::Off,
        controller_initial: GaitControllerRequest::Champ,
    }
}

/// Does the arithmetic that a key asks for.
fn moved(i: &Intent, key: Key, l: &Limits) -> Moved {
    let mut m = Moved {
        value: s(0.0),
        roll: s(0.0),
        pitch: s(0.0),
        magnitude: s(0.0),
        scaled_roll: s(0.0),
        scaled_pitch: s(0.0),
    };
    match operand(i, key, l) {
        Operand::Nothing => {}
        Operand::Part { from, limit, up } => {
            let part = f(limit) / STEPS as f64;
            m.value = s(f(from) + if up { part } else { -part });
        }
        Operand::Tilt { roll, pitch, limit, roll_parts, pitch_parts } => {
            let part = f(limit) / STEPS as f64;
            let r = f(roll) + part * roll_parts as f64;
            let p = f(pitch) + part * pitch_parts as f64;
            let n = (r * r + p * p).sqrt();
            let k = f(limit) / n;
            m.roll = s(r);
            m.pitch = s(p);
            m.magnitude = s(n);
            m.scaled_roll = s(r * k);
            m.scaled_pitch = s(p * k);
        }
        Operand::Knob { from, step, times } => {
            m.value = s(f(from) + f(step) * times as f64);
        }
    }
    m
}

fn press(i: &mut Intent, key: Key, l: &Limits) {
    let m = moved(i, key, l);
    apply(i, key, l, &m);
}

fn key_at(st: &mut KeyState, key: Key, now: Time, l: &Limits) -> bool {
    let m = moved(&st.intent, key, l);
    on_key(st, key, now, l, &m)
}

fn shared() -> KeyState {
    KeyState {
        intent: Intent { gait_tune: lim().base_of(GaitSelect::Crawl), ..Intent::default() },
        quit: false,
        last_key: None,
        last_dir_key: None,
        deadman_tripped: false,
    }
}

fn intent() -> Intent {
    Intent { aux_rad: vec![None], link_ok: true, ..Intent::default() }
}

#[test]
fn a_held_key_keeps_the_speed_instead_of_ramping_it() {
    let l = lim();
    let mut st = shared();
    key_at(&mut st, Key::Forward, at_ms(1000), &l);
    let one_step = f(st.intent.velocity.vx_m_s);
    assert!(one_step > 0.0);
    for i in 1..=10 {
        key_at(&mut st, Key::Forward, at_ms(1000 + 30 * i), &l);
    }
    assert_eq!(f(st.intent.velocity.vx_m_s), one_step);
    key_at(&mut st, Key::Forward, at_ms(1700), &l);
    assert!(f(st.intent.velocity.vx_m_s) > one_step);
}

#[test]
fn the_deadman_zeroes_the_velocity_when_keys_stop() {
    let l = lim();
    let mut st = shared();
    let t0 = 1000;
    key_at(&mut st, Key::Mode(ModeRequest::Walk), at_ms(t0), &l);
    key_at(&mut st, Key::Forward, at_ms(t0), &l);
    let d = Span::from_nanos(500_000_000);
    assert!(!deadman_check(&mut st, at_ms(t0 + 400), d));
    assert!(f(st.intent.velocity.vx_m_s) > 0.0);
    assert!(deadman_check(&mut st, at_ms(t0 + 600), d));
    assert_eq!(st.intent.velocity, Velocity::zero());
    assert_eq!(st.intent.mode, ModeRequest::Walk);
    assert!(!deadman_check(&mut st, at_ms(t0 + 700), d));
    key_at(&mut st, Key::Forward, at_ms(t0 + 2000), &l);
    assert!(f(st.intent.velocity.vx_m_s) > 0.0);
}

#[test]
fn o_cycles_the_wbc_output_and_p_toggles_the_controller() {
    let l = lim();
    let mut i = Intent::default();
    assert_eq!(i.wbc, None);
    press(&mut i, Key::WbcCycle, &l);
    assert_eq!(i.wbc, Some(WbcRequest::Position));
    press(&mut i, Key::WbcCycle, &l);
    assert_eq!(i.wbc, Some(WbcRequest::Torque));
    press(&mut i, Key::WbcCycle, &l);
    assert_eq!(i.wbc, Some(WbcRequest::Off));
    press(&mut i, Key::ControllerToggle, &l);
    assert_eq!(i.gait_controller, Some(GaitControllerRequest::Mpc));
    press(&mut i, Key::ControllerToggle, &l);
    assert_eq!(i.gait_controller, Some(GaitControllerRequest::Champ));
    assert_eq!(decode(b'o'), Some(Key::WbcCycle));
    assert_eq!(decode(b'p'), Some(Key::ControllerToggle));
}

#[test]
fn the_first_press_moves_from_the_profile_value() {
    let (l, mut i) = (lim(), intent());
    i.gait_tune = l.base_of(i.gait);
    press(&mut i, Key::Tune(Knob::Cycle, -1), &l);
    assert!((f(i.gait_tune.cycle_period_s.unwrap()) - 0.55).abs() < 1e-9);
    press(&mut i, Key::Tune(Knob::Swing, 1), &l);
    assert!((f(i.gait_tune.swing_height_m.unwrap()) - 0.055).abs() < 1e-9);
}

#[test]
fn an_empty_tune_still_starts_from_the_base() {
    let (l, mut i) = (lim(), intent());
    assert!(i.gait_tune.is_empty());
    press(&mut i, Key::Tune(Knob::Cycle, 1), &l);
    assert!((f(i.gait_tune.cycle_period_s.unwrap()) - 0.65).abs() < 1e-9);
}

#[test]
fn tuning_stops_at_the_range_ends() {
    let (l, mut i) = (lim(), intent());
    for _ in 0..200 {
        press(&mut i, Key::Tune(Knob::Duty, -1), &l);
        press(&mut i, Key::Tune(Knob::Swing, -1), &l);
    }
    assert_eq!(i.gait_tune.duty_factor, Some(s(DUTY.0)));
    assert_eq!(i.gait_tune.swing_height_m, Some(s(SWING_M.0)));
    for _ in 0..200 {
        press(&mut i, Key::Tune(Knob::Cycle, 1), &l);
    }
    assert_eq!(i.gait_tune.cycle_period_s, Some(s(CYCLE_S.1)));
}

#[test]
fn switching_gait_resets_the_tune_to_that_gaits_base() {
    let (l, mut i) = (lim(), intent());
    press(&mut i, Key::Tune(Knob::Duty, -1), &l);
    assert_ne!(i.gait_tune.duty_factor, l.base_of(i.gait).duty_factor);
    press(&mut i, Key::Gait(GaitSelect::Walk), &l);
    assert_eq!(i.gait_tune, l.base_of(GaitSelect::Walk));
    assert_eq!(i.gait_tune.duty_factor, Some(s(0.75)));
}

#[test]
fn tune_reset_leaves_the_rest_alone() {
    let (l, mut i) = (lim(), intent());
    press(&mut i, Key::Forward, &l);
    press(&mut i, Key::Tune(Knob::Cycle, -1), &l);
    let v = i.velocity;
    press(&mut i, Key::TuneReset, &l);
    assert_eq!(i.gait_tune, l.base_of(i.gait));
    assert_eq!(i.velocity, v);
}

#[test]
fn pressing_forward_steps_up_and_stops_at_the_limit() {
    let (l, mut i) = (lim(), intent());
    for _ in 0..STEPS {
        press(&mut i, Key::Forward, &l);
    }
    assert!((f(i.velocity.vx_m_s) - f(l.max_vx)).abs() < 1e-12);
    press(&mut i, Key::Forward, &l);
    assert!((f(i.velocity.vx_m_s) - f(l.max_vx)).abs() < 1e-12);
}

#[test]
fn stop_zeroes_the_velocity_but_leaves_the_mode_and_attitude() {
    let (l, mut i) = (lim(), intent());
    press(&mut i, Key::Mode(ModeRequest::Walk), &l);
    press(&mut i, Key::Forward, &l);
    press(&mut i, Key::TiltUp, &l);
    press(&mut i, Key::Stop, &l);
    assert!(i.velocity.is_zero());
    assert_eq!(i.mode, ModeRequest::Walk);
    assert!(f(i.body_attitude_rad[1]) > 0.0);
}

#[test]
fn the_attitude_is_clamped_by_its_magnitude() {
    let (l, mut i) = (lim(), intent());
    for _ in 0..STEPS * 2 {
        press(&mut i, Key::TiltUp, &l);
        press(&mut i, Key::TiltRight, &l);
    }
    let [r, p, _] = i.body_attitude_rad;
    let n = (f(r) * f(r) + f(p) * f(p)).sqrt();
    assert!(n <= f(l.attitude_max) + 1e-9, "{n:.4}");
    assert!(n > f(l.attitude_max) * 0.9);
}

#[test]
fn upper_case_works_too() {
    assert_eq!(decode(b'W'), Some(Key::Forward));
    assert_eq!(decode(b'w'), Some(Key::Forward));
    assert_eq!(decode(b'2'), Some(Key::Mode(ModeRequest::Walk)));
}

#[test]
fn ctrl_c_and_escape_are_quit() {
    assert_eq!(decode(0x03), Some(Key::Quit));
    assert_eq!(decode(0x1b), Some(Key::Quit));
}

#[test]
fn unknown_keys_do_nothing() {
    assert_eq!(decode(b'@'), None);
}

#[test]
fn every_key_has_one_meaning() {
    for (c, k) in [
        (b's', Key::Back),
        (b'a', Key::Left),
        (b'd', Key::Right),
        (b'q', Key::TurnLeft),
        (b'e', Key::TurnRight),
        (b' ', Key::Stop),
        (b'0', Key::Mode(ModeRequest::Relax)),
        (b'1', Key::Mode(ModeRequest::Stand)),
        (b'z', Key::Gait(GaitSelect::Crawl)),
        (b'x', Key::Gait(GaitSelect::Walk)),
        (b'c', Key::Gait(GaitSelect::Trot)),
        (b'h', Key::Help),
        (b'?', Key::Help),
        (b'm', Key::TuneReset),
    ] {
        assert_eq!(decode(c), Some(k));
        assert_eq!(decode(c.to_ascii_uppercase()), Some(k));
    }
}

#[test]
fn going_back_and_forth_ends_where_it_began() {
    let (l, mut i) = (lim(), intent());
    for (there, back) in [
        (Key::Forward, Key::Back),
        (Key::Left, Key::Right),
        (Key::TurnLeft, Key::TurnRight),
        (Key::Higher, Key::Lower),
    ] {
        press(&mut i, there, &l);
        press(&mut i, back, &l);
    }
    assert!(i.velocity.is_zero());
    assert!(i.height_offset_m.is_zero());
    press(&mut i, Key::TiltLeft, &l);
    assert!(f(i.body_attitude_rad[0]) < 0.0);
    press(&mut i, Key::Level, &l);
    assert_eq!(i.body_attitude_rad, [s(0.0); 3]);
}

#[test]
fn help_and_quit_do_not_steer() {
    let l = lim();
    let mut st = open(GaitSelect::Trot, &l);
    assert_eq!(st.intent.mode, ModeRequest::Relax);
    assert_eq!(st.intent.gait_tune, l.base_of(GaitSelect::Trot));
    let before = st.intent.clone();
    assert!(key_at(&mut st, Key::Help, at_ms(1), &l));
    assert!(!st.quit);
    assert!(!key_at(&mut st, Key::Quit, at_ms(2), &l));
    assert!(st.quit);
    assert_eq!(st.intent, before);
}

#[test]
fn the_deadman_is_quiet_without_keys() {
    let mut st = open(GaitSelect::Trot, &lim());
    assert!(!deadman_check(&mut st, at_ms(10_000), Span::from_nanos(1)));
}

#[test]
fn parameters_that_differ_from_the_profile_are_marked() {
    assert!(!is_changed(Some(s(0.6)), Some(s(0.6))));
    assert!(is_changed(Some(s(0.65)), Some(s(0.6))));
    assert!(is_changed(Some(s(0.6)), None));
    assert!(!is_changed(None, None));
}

#[test]
fn the_keys_start_from_what_runs() {
    assert_eq!(initial_wbc(false, WbcOutput::Torque), WbcRequest::Off);
    assert_eq!(initial_wbc(true, WbcOutput::Torque), WbcRequest::Torque);
    assert_eq!(initial_wbc(true, WbcOutput::Velocity), WbcRequest::Position);
    assert_eq!(initial_controller(GaitControllerKind::Mpc), GaitControllerRequest::Mpc);
    assert_eq!(initial_controller(GaitControllerKind::Champ), GaitControllerRequest::Champ);
    assert_eq!(f(Knob::Cycle.step()), 0.05);
    assert_eq!(f(Knob::Swing.step()), 0.005);
    assert_eq!(f(Knob::Step.step()), 0.01);
    assert_eq!(f(Knob::Duty.step()), 0.02);
    assert_eq!(Knob::Duty.label(), "接地比");
}

#[test]
fn the_profile_sets_the_limits() {
    let mut cfg = AppConfig::with_arm_joint("arm_joint");
    cfg.gait.max_vx_m_s = s(0.3);
    cfg.gait.max_vy_m_s = s(0.1);
    cfg.gait.max_wz_rad_s = s(0.7);
    cfg.gait.height_range_m = s(0.05);
    cfg.gait.body_attitude_max_rad = s(0.25);
    cfg.gait.swing_height_m = s(0.03);
    cfg.gait.walk_cycle_s = Some(s(0.9));
    cfg.gait.controller = GaitControllerKind::Centroidal;
    cfg.wbc.enabled = true;
    cfg.wbc.output = WbcOutput::Velocity;
    let preset = |duty: f64| GaitConfig {
        cycle_period_s: s(1.0),
        swing_height_m: s(0.04),
        max_step_length_m: s(0.06),
        duty_factor: s(duty),
    };
    let l = Limits::from(&cfg, &preset(0.85), &preset(0.75), &preset(0.5), lim().tune_ranges);
    assert_eq!((l.max_vx, l.max_vy, l.max_wz), (s(0.3), s(0.1), s(0.7)));
    assert_eq!((l.height_range, l.attitude_max), (s(0.05), s(0.25)));
    assert_eq!(l.base_of(GaitSelect::Crawl).cycle_period_s, Some(s(1.0)));
    assert_eq!(l.base_of(GaitSelect::Walk).cycle_period_s, Some(s(0.9)));
    assert_eq!(l.base_of(GaitSelect::Trot).duty_factor, Some(s(0.5)));
    assert_eq!(l.base_of(GaitSelect::Trot).swing_height_m, Some(s(0.03)));
    assert_eq!(l.wbc_initial, WbcRequest::Position);
    assert_eq!(l.controller_initial, GaitControllerRequest::Mpc);
    assert!(l.allows(Key::Higher));
    cfg.gait.height_range_m = s(-0.05);
    let l = Limits::from(&cfg, &preset(0.85), &preset(0.75), &preset(0.5), lim().tune_ranges);
    // Only the keys that are held to the limit need it.
    assert!(!l.allows(Key::Higher) && !l.allows(Key::Lower));
    assert!(l.allows(Key::Forward) && l.allows(Key::Stop) && l.allows(Key::Tune(Knob::Duty, 1)));
    let mut i = intent();
    press(&mut i, Key::Forward, &l);
    assert!(f(i.velocity.vx_m_s) > 0.0);
    press(&mut i, Key::Stop, &l);
    assert!(i.velocity.is_zero());
    let mut crossed = lim();
    crossed.tune_ranges.duty = (s(0.9), s(0.1));
    assert!(!crossed.allows(Key::Tune(Knob::Cycle, 1)) && crossed.allows(Key::TuneReset));
    crossed.max_vx = s(f64::NAN);
    assert!(!crossed.allows(Key::Forward) && !crossed.allows(Key::Back));
    crossed.max_vy = s(-0.1);
    assert!(!crossed.allows(Key::Left) && !crossed.allows(Key::Right));
    crossed.max_wz = s(-0.1);
    assert!(!crossed.allows(Key::TurnLeft) && !crossed.allows(Key::TurnRight));
}

#[test]
fn no_run_of_keys_leaves_the_limits() {
    let l = lim();
    let keys = [
        Key::Forward,
        Key::TiltUp,
        Key::TurnLeft,
        Key::Higher,
        Key::TiltRight,
        Key::Left,
        Key::Tune(Knob::Cycle, 1),
        Key::Back,
        Key::Lower,
        Key::Level,
        Key::WbcCycle,
    ];
    let mut st = shared();
    let (mode, gait) = (st.intent.mode, st.intent.gait);
    let mut seed: u64 = 7;
    for i in 0..4000u64 {
        seed = seed.wrapping_mul(6364136223846793005).wrapping_add(1442695040888963407);
        // Runs of one key, so that limits are reached.
        let key = keys[((seed >> 33) % 3 + i / 40) as usize % keys.len()];
        key_at(&mut st, key, at_ms(1000 + 200 * i), &l);
        let v = st.intent.velocity;
        assert!(f(v.vx_m_s).abs() <= f(l.max_vx) && f(v.vy_m_s).abs() <= f(l.max_vy));
        assert!(f(v.wz_rad_s).abs() <= f(l.max_wz));
        assert!(f(st.intent.height_offset_m).abs() <= f(l.height_range));
        let [r, p, y] = st.intent.body_attitude_rad.map(f);
        assert!(r.hypot(p) <= f(l.attitude_max) + 1e-12);
        assert_eq!(y, 0.0);
        assert_eq!((st.intent.mode, st.intent.gait), (mode, gait));
    }
}
