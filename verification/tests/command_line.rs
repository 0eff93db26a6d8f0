use misa::cli::{nearest_flag, Cli};
use misa::dispatch::{
    dispatch, exit_report, gait_option, pilot_option, profile_path, route_of, secs_or_forever,
    unknown_command, viz_config, PilotKind, Route,
};
use misa::distance::edit_distance;
use misa::intent::GaitSelect;
use misa::rehearsal::print_every;
use misa::scalar::Scalar;

fn s(x: f64) -> Scalar {
    Scalar::from_bits(x.to_bits())
}

fn cli(args: &[&str]) -> Cli {
    Cli::parse(args.iter().map(|a| a.to_string()).collect())
}

fn number(c: &Cli, key: &str) -> Option<f64> {
    c.str(key).and_then(|v| v.parse().ok())
}

#[test]
fn the_default_command_is_the_harmless_one() {
    assert_eq!(cli(&[]).command(), "check");
}

#[test]
fn both_flag_spellings_parse() {
    let c = cli(&["run", "--status", "2.5", "--config=/tmp/a.toml"]);
    assert_eq!(c.command(), "run");
    assert_eq!(number(&c, "status"), Some(2.5));
    assert_eq!(c.str("config"), Some("/tmp/a.toml"));
}

#[test]
fn a_bool_flag_does_not_eat_the_next_token() {
    let c = cli(&["run", "--allow-no-sbus", "--secs", "3"]);
    assert!(c.flag("allow-no-sbus"));
    assert_eq!(number(&c, "secs"), Some(3.0));
}

#[test]
fn help_is_recognised_in_every_spelling() {
    assert!(cli(&["--help"]).wants_help());
    assert!(cli(&["-h"]).wants_help());
    assert!(cli(&["help"]).wants_help());
    assert!(!cli(&["run"]).wants_help());
}

#[test]
fn the_last_of_several_values_counts() {
    let c = cli(&["sim", "--gait", "walk", "--gait=trot"]);
    assert_eq!(c.str("gait"), Some("trot"));
    assert_eq!(c.str("nothing"), None);
}

#[test]
fn whole_numbers_parse_or_are_absent() {
    let c = cli(&["dump", "--every", "7"]);
    assert_eq!(c.usize("every"), Some(7));
    assert_eq!(cli(&["dump", "--every", "x"]).usize("every"), None);
    assert_eq!(cli(&["dump"]).usize("every"), None);
    assert_eq!(cli(&["dump", "--every", "+12"]).usize("every"), Some(12));
    assert_eq!(cli(&["dump", "--every", "99999999999999999999999"]).usize("every"), None);
    assert_eq!(print_every(&c, 20), 7);
    assert_eq!(print_every(&cli(&["dump", "--every", "0"]), 20), 1);
    assert_eq!(print_every(&cli(&["dump"]), 20), 20);
}

#[test]
fn positional_arguments_begin_with_the_command() {
    let c = cli(&["replay", "a.rec", "--limit", "3", "b.rec"]);
    assert_eq!(c.command(), "replay");
    assert_eq!(
        c.positionals().to_vec(),
        vec!["replay".to_string(), "a.rec".to_string(), "b.rec".to_string()]
    );
}

#[test]
fn a_misspelt_flag_is_refused_with_a_suggestion() {
    assert!(cli(&["run", "--secs", "3"]).validate_flags().is_ok());
    let e = cli(&["run", "--sesc", "3"]).validate_flags().unwrap_err();
    assert!(e.contains("--sesc"), "{e}");
    assert!(e.contains("--secs"), "{e}");
    assert_eq!(nearest_flag("sesc"), Some("secs"));
    assert_eq!(nearest_flag("completely-different-thing"), None);
}

#[test]
fn the_pose_of_a_calibration_is_a_known_flag() {
    let c = cli(&["calib", "zero", "--pose", "start"]);
    assert_eq!(c.validate_flags(), Ok(()));
    assert_eq!(c.str("pose"), Some("start"));
    assert_eq!(nearest_flag("poze"), Some("pose"));
}

#[test]
fn a_detour_is_never_shorter() {
    let words = ["", "gait", "gate", "gaits", "tilt-yaw", "tilt-roll", "status", "stats"];
    for a in words {
        for b in words {
            for c in words {
                assert!(edit_distance(a, c) <= edit_distance(a, b) + edit_distance(b, c));
            }
        }
    }
    // One edit of each kind.
    assert_eq!(edit_distance("gait", "gaits"), 1);
    assert_eq!(edit_distance("status", "stats"), 1);
    assert_eq!(edit_distance("tilt", "tilq"), 1);
}

#[test]
fn distances_count_single_edits() {
    assert_eq!(edit_distance("", ""), 0);
    assert_eq!(edit_distance("abc", ""), 3);
    assert_eq!(edit_distance("kitten", "sitting"), 3);
    assert_eq!(edit_distance("sitting", "kitten"), 3);
    assert_eq!(edit_distance("gait", "gait"), 0);
}

#[test]
fn commands_lead_to_their_routes() {
    for (name, route) in [
        ("ports", Route::Ports),
        ("config", Route::WriteConfig),
        ("replay", Route::Replay),
        ("check", Route::Check),
        ("bridge", Route::Bridge),
        ("dump", Route::Dump),
        ("sim", Route::Sim),
        ("calib", Route::Calib),
        ("imu", Route::Imu),
        ("sbus", Route::Sbus),
        ("legs", Route::Legs),
        ("run", Route::Run),
    ] {
        assert_eq!(route_of(name), route);
        assert_eq!(dispatch(&cli(&[name])), Ok(route));
    }
    assert!(!Route::Ports.needs_profile());
    assert!(Route::Run.needs_profile());
    assert_eq!(dispatch(&cli(&["walk"])), Ok(Route::Unknown));
    assert_eq!(
        unknown_command("walk"),
        "未知のコマンド \"walk\"。`misa-run --help` を見てください"
    );
    assert!(dispatch(&cli(&["run", "--sesc", "3"])).is_err());
}

#[test]
fn the_gait_and_the_pilot_are_named() {
    assert_eq!(gait_option(&cli(&["dump"]), GaitSelect::Crawl), Ok(GaitSelect::Crawl));
    assert_eq!(gait_option(&cli(&["dump", "--gait", "walk"]), GaitSelect::Crawl), Ok(GaitSelect::Walk));
    assert_eq!(
        gait_option(&cli(&["dump", "--gait", "run"]), GaitSelect::Crawl),
        Err("未知の歩容 \"run\"（crawl|walk|trot）".to_string())
    );
    assert_eq!(pilot_option(&cli(&["sim"]), false), Ok(PilotKind::Script));
    assert_eq!(pilot_option(&cli(&["sim", "--pilot", "keys"]), false), Ok(PilotKind::Keys));
    assert_eq!(pilot_option(&cli(&["sim", "--pilot", "ros2"]), true), Ok(PilotKind::Ros2));
    let e = pilot_option(&cli(&["sim", "--pilot", "ros2"]), false).unwrap_err();
    assert_eq!(e, "未知の pilot \"ros2\"（script|keys|sbus）");
    let e = pilot_option(&cli(&["sim", "--pilot", "me"]), true).unwrap_err();
    assert_eq!(e, "未知の pilot \"me\"（script|keys|sbus|ros2）");
}

#[test]
fn a_duration_is_given_forever_or_usual() {
    let c = cli(&["imu", "--forever"]);
    assert_eq!(secs_or_forever(&c, None, s(5.0)), None);
    let c = cli(&["imu", "--secs", "2"]);
    assert_eq!(secs_or_forever(&c, Some(s(2.0)), s(5.0)), Some(s(2.0)));
    let c = cli(&["imu"]);
    assert_eq!(secs_or_forever(&c, None, s(5.0)), Some(s(5.0)));
}

#[test]
fn the_profile_comes_from_its_flag() {
    assert_eq!(profile_path(&cli(&["run", "--config", "a.toml"])), Some("a.toml"));
    assert!(!viz_config(&cli(&["run"]), None).enabled);
    assert!(viz_config(&cli(&["run", "--viz"]), None).enabled);
}

#[test]
fn failures_that_may_be_retried_have_their_own_exit_code() {
    let r = exit_report("[retryable] CH5");
    assert_eq!(r.code, 75);
    let r = exit_report("plain");
    assert_eq!(r.code, 1);
}
