//! From the command line to what is to be done.

use vstd::prelude::*;
use vstd::string::*;

use crate::cli::Cli;
use crate::intent::GaitSelect;
use crate::scalar::Scalar;
use crate::text;
use crate::text::{begins_with, quoted, same, tail};

verus! {

/// What a command does.
#[derive(Clone, Copy, Debug, PartialEq, Eq, Structural)]
pub enum Route {
    Ports,
    WriteConfig,
    Replay,
    Check,
    Bridge,
    Dump,
    Sim,
    Calib,
    Imu,
    Sbus,
    Legs,
    Run,
    Unknown,
}

pub open spec fn route_spec(command: Seq<char>) -> Route {
    if command == "ports"@ {
        Route::Ports
    } else if command == "config"@ {
        Route::WriteConfig
    } else if command == "replay"@ {
        Route::Replay
    } else if command == "check"@ {
        Route::Check
    } else if command == "bridge"@ {
        Route::Bridge
    } else if command == "dump"@ {
        Route::Dump
    } else if command == "sim"@ {
        Route::Sim
    } else if command == "calib"@ {
        Route::Calib
    } else if command == "imu"@ {
        Route::Imu
    } else if command == "sbus"@ {
        Route::Sbus
    } else if command == "legs"@ {
        Route::Legs
    } else if command == "run"@ {
        Route::Run
    } else {
        Route::Unknown
    }
}

/// The route of a command.
pub fn route_of(command: &str) -> (r: Route)
    ensures
        r == route_spec(command@),
{
    if same(command, "ports") {
        Route::Ports
    } else if same(command, "config") {
        Route::WriteConfig
    } else if same(command, "replay") {
        Route::Replay
    } else if same(command, "check") {
        Route::Check
    } else if same(command, "bridge") {
        Route::Bridge
    } else if same(command, "dump") {
        Route::Dump
    } else if same(command, "sim") {
        Route::Sim
    } else if same(command, "calib") {
        Route::Calib
    } else if same(command, "imu") {
        Route::Imu
    } else if same(command, "sbus") {
        Route::Sbus
    } else if same(command, "legs") {
        Route::Legs
    } else if same(command, "run") {
        Route::Run
    } else {
        Route::Unknown
    }
}

impl Route {
    /// Whether a robot profile is read before the command runs. An unknown
    /// command is complained about only after that.
    pub open spec fn needs_profile_spec(self) -> bool {
        !(self is Ports) && !(self is WriteConfig) && !(self is Replay)
    }

    pub fn needs_profile(self) -> (r: bool)
        ensures
            r == self.needs_profile_spec(),
    {
        match self {
            Route::Ports => false,
            Route::WriteConfig => false,
            Route::Replay => false,
            _ => true,
        }
    }
}

pub open spec fn unknown_command_message(command: Seq<char>) -> Seq<char> {
    "未知のコマンド "@ + text::debug_quoted(command) + "。`misa-run --help` を見てください"@
}

/// The complaint about an unknown command.
pub fn unknown_command(command: &str) -> (r: String)
    ensures
        r@ == unknown_command_message(command@),
{
    let mut out: String = "未知のコマンド ".to_owned();
    let name: String = quoted(command);
    out.append(name.as_str());
    out.append("。`misa-run --help` を見てください");
    out
}

/// Checks the flags, then finds the route. No flag may be unknown.
pub fn dispatch(cli: &Cli) -> (r: Result<Route, String>)
    requires
        cli.wf(),
    ensures
        r is Ok <==> forall|k: Seq<char>|
            #[trigger] cli@.flags.dom().contains(k) ==> crate::cli::is_known_flag(k),
        r matches Ok(route) ==> route == route_spec(
            if cli@.positionals.len() > 0 { cli@.positionals[0] } else { "check"@ },
        ),
        r matches Err(e) ==> exists|keys: Seq<Seq<char>>|
            #[trigger] crate::cli::are_the_unknown(keys, cli@.flags) && e@ == crate::cli::unknown_message(
                keys,
            ),
{
    match cli.validate_flags() {
        Ok(()) => Ok(route_of(cli.command())),
        Err(e) => Err(e),
    }
}

/// The value of a flag, as [`Cli::str`] gives it.
pub open spec fn flag_text(cli: Cli, key: Seq<char>) -> Option<Seq<char>> {
    if cli@.flags.dom().contains(key) && cli@.flags[key].len() > 0 {
        Some(cli@.flags[key])
    } else {
        None
    }
}

pub open spec fn flag_set(cli: Cli, key: Seq<char>) -> bool {
    cli@.flags.dom().contains(key) && cli@.flags[key] != "false"@
}

/// The robot profile's path: `--robot`, or its older spelling `--config`.
pub fn profile_path(cli: &Cli) -> (r: Option<&str>)
    requires
        cli.wf(),
    ensures
        match flag_text(*cli, "robot"@) {
            Some(p) => r is Some && r->0@ == p,
            None => match flag_text(*cli, "config"@) {
                Some(p) => r is Some && r->0@ == p,
                None => r is None,
            },
        },
{
    match cli.str("robot") {
        Some(p) => Some(p),
        None => cli.str("config"),
    }
}

/// How long an observing command runs; `None` is until it is interrupted.
/// `given` is the number that `--secs` holds, if it holds one.
pub fn secs_or_forever(cli: &Cli, given: Option<Scalar>, default: Scalar) -> (r: Option<Scalar>)
    requires
        cli.wf(),
    ensures
        ({
            let secs = match given {
                Some(s) => s,
                None => default,
            };
            r == (if !flag_set(*cli, "forever"@) && secs.positive() { Some(secs) } else { None })
        }),
{
    if cli.flag("forever") {
        return None;
    }
    let secs: Scalar = match given {
        Some(s) => s,
        None => default,
    };
    if secs.is_positive() {
        Some(secs)
    } else {
        None
    }
}

/// Where to publish the robot's pose for display.
pub struct VizConfig {
    pub enabled: bool,
    pub key_planned: String,
    pub key_measured: String,
    pub rate_hz: Scalar,
    pub endpoint: Option<String>,
}

/// One hundred.
pub const DEFAULT_VIZ_RATE: u64 = 0x4059_0000_0000_0000;

/// The display options. `rate` is the number that `--viz-rate` holds, if it
/// holds one.
pub fn viz_config(cli: &Cli, rate: Option<Scalar>) -> (r: VizConfig)
    requires
        cli.wf(),
    ensures
        r.enabled == flag_set(*cli, "viz"@),
        r.key_planned@ == (match flag_text(*cli, "viz-key"@) {
            Some(k) => k,
            None => "go2/gait/planned"@,
        }),
        r.key_measured@ == (match flag_text(*cli, "viz-key-measured"@) {
            Some(k) => k,
            None => "go2/gait/measured"@,
        }),
        r.rate_hz == (match rate {
            Some(x) => x,
            None => Scalar { bits: DEFAULT_VIZ_RATE },
        }),
        match flag_text(*cli, "viz-endpoint"@) {
            Some(e) => r.endpoint is Some && r.endpoint->0@ == e,
            None => r.endpoint is None,
        },
{
    let key_planned: String = match cli.str("viz-key") {
        Some(k) => k.to_owned(),
        None => "go2/gait/planned".to_owned(),
    };
    let key_measured: String = match cli.str("viz-key-measured") {
        Some(k) => k.to_owned(),
        None => "go2/gait/measured".to_owned(),
    };
    let endpoint: Option<String> = match cli.str("viz-endpoint") {
        Some(e) => Some(e.to_owned()),
        None => None,
    };
    let rate_hz: Scalar = match rate {
        Some(x) => x,
        None => Scalar::from_bits(DEFAULT_VIZ_RATE),
    };
    VizConfig { enabled: cli.flag("viz"), key_planned, key_measured, rate_hz, endpoint }
}

pub open spec fn gait_named(name: Seq<char>) -> Option<GaitSelect> {
    if name == "crawl"@ {
        Some(GaitSelect::Crawl)
    } else if name == "walk"@ {
        Some(GaitSelect::Walk)
    } else if name == "trot"@ {
        Some(GaitSelect::Trot)
    } else {
        None
    }
}

pub open spec fn unknown_gait_message(name: Seq<char>) -> Seq<char> {
    "未知の歩容 "@ + text::debug_quoted(name) + "（crawl|walk|trot）"@
}

/// The gait that `--gait` names; `default` without it.
pub fn gait_option(cli: &Cli, default: GaitSelect) -> (r: Result<GaitSelect, String>)
    requires
        cli.wf(),
    ensures
        match flag_text(*cli, "gait"@) {
            None => r == Ok::<GaitSelect, String>(default),
            Some(name) => match gait_named(name) {
                Some(g) => r == Ok::<GaitSelect, String>(g),
                None => r is Err && r->Err_0@ == unknown_gait_message(name),
            },
        },
{
    match cli.str("gait") {
        None => Ok(default),
        Some(name) => {
            if same(name, "crawl") {
                Ok(GaitSelect::Crawl)
            } else if same(name, "walk") {
                Ok(GaitSelect::Walk)
            } else if same(name, "trot") {
                Ok(GaitSelect::Trot)
            } else {
                let mut out: String = "未知の歩容 ".to_owned();
                let shown: String = quoted(name);
                out.append(shown.as_str());
                out.append("（crawl|walk|trot）");
                Err(out)
            }
        },
    }
}

/// Who steers a simulated robot.
#[derive(Clone, Copy, Debug, PartialEq, Eq, Structural)]
pub enum PilotKind {
    Script,
    Keys,
    Sbus,
    Ros2,
}

pub open spec fn pilot_named(name: Seq<char>) -> Option<PilotKind> {
    if name == "script"@ {
        Some(PilotKind::Script)
    } else if name == "keys"@ {
        Some(PilotKind::Keys)
    } else if name == "sbus"@ {
        Some(PilotKind::Sbus)
    } else if name == "ros2"@ {
        Some(PilotKind::Ros2)
    } else {
        None
    }
}

/// The pilot that `--pilot` names; the script without it. `with_ros2` says
/// whether this build can be steered over ROS 2.
pub fn pilot_option(cli: &Cli, with_ros2: bool) -> (r: Result<PilotKind, String>)
    requires
        cli.wf(),
    ensures
        ({
            let name = match flag_text(*cli, "pilot"@) {
                Some(n) => n,
                None => "script"@,
            };
            let kind = pilot_named(name);
            if kind is Some && (kind->0 is Ros2 ==> with_ros2) {
                r == Ok::<PilotKind, String>(kind->0)
            } else {
                r is Err && r->Err_0@ == "未知の pilot "@ + text::debug_quoted(name)
                    + "（script|keys|sbus"@ + (if with_ros2 { "|ros2"@ } else { ""@ }) + "）"@
            }
        }),
{
    proof {
        reveal_strlit("script");
        reveal_strlit("keys");
        reveal_strlit("sbus");
        reveal_strlit("ros2");
    }
    let name: &str = match cli.str("pilot") {
        Some(n) => n,
        None => "script",
    };
    if same(name, "script") {
        return Ok(PilotKind::Script);
    }
    if same(name, "keys") {
        return Ok(PilotKind::Keys);
    }
    if same(name, "sbus") {
        return Ok(PilotKind::Sbus);
    }
    if with_ros2 && same(name, "ros2") {
        return Ok(PilotKind::Ros2);
    }
    let mut out: String = "未知の pilot ".to_owned();
    let shown: String = quoted(name);
    out.append(shown.as_str());
    out.append("（script|keys|sbus");
    if with_ros2 {
        out.append("|ros2");
    } else {
        out.append("");
    }
    out.append("）");
    Err(out)
}

/// How the process ends after an error.
pub struct ExitReport {
    pub code: u8,
    pub line: String,
}

/// What marks an error that only says that the conditions for starting are not
/// met yet.
pub open spec fn retryable() -> Seq<char> {
    "[retryable] "@
}

/// An error that is worth another try ends with 75, every other with 1: a
/// supervisor restarts on 75 alone, since a restart after a crash in the control
/// loop would set the legs in motion again.
pub fn exit_report(e: &str) -> (r: ExitReport)
    ensures
        text::begins(e@, retryable()) ==> r.code == 75 && r.line@ == "待機: "@ + e@.skip(
            retryable().len() as int,
        ),
        !text::begins(e@, retryable()) ==> r.code == 1 && r.line@ == "エラー: "@ + e@,
{
    if begins_with(e, "[retryable] ") {
        proof {
            reveal_strlit("[retryable] ");
        }
        let mut line: String = "待機: ".to_owned();
        line.append(tail(e, 12));
        ExitReport { code: 75, line }
    } else {
        let mut line: String = "エラー: ".to_owned();
        line.append(e);
        ExitReport { code: 1, line }
    }
}

/// Every command leads to its own route, and only its own name leads there.
#[verifier::rlimit(40)]
pub proof fn every_command_has_its_own_route(command: Seq<char>)
    ensures
        route_spec(command) is Ports <==> command == "ports"@,
        route_spec(command) is WriteConfig <==> command == "config"@,
        route_spec(command) is Replay <==> command == "replay"@,
        route_spec(command) is Check <==> command == "check"@,
        route_spec(command) is Bridge <==> command == "bridge"@,
        route_spec(command) is Dump <==> command == "dump"@,
        route_spec(command) is Sim <==> command == "sim"@,
        route_spec(command) is Calib <==> command == "calib"@,
        route_spec(command) is Imu <==> command == "imu"@,
        route_spec(command) is Sbus <==> command == "sbus"@,
        route_spec(command) is Legs <==> command == "legs"@,
        route_spec(command) is Run <==> command == "run"@,
        route_spec(command).needs_profile_spec() <==> command != "ports"@ && command != "config"@
            && command != "replay"@,
{
    reveal_strlit("ports");
    reveal_strlit("config");
    reveal_strlit("replay");
    reveal_strlit("check");
    reveal_strlit("bridge");
    reveal_strlit("dump");
    reveal_strlit("sim");
    reveal_strlit("calib");
    reveal_strlit("imu");
    reveal_strlit("sbus");
    reveal_strlit("legs");
    reveal_strlit("run");
    assert("ports"@.len() == 5 && "ports"@[0] == 'p');
    assert("check"@.len() == 5 && "check"@[0] == 'c' && "check"@[1] == 'h');
    assert("calib"@.len() == 5 && "calib"@[0] == 'c' && "calib"@[1] == 'a');
    assert("config"@.len() == 6 && "config"@[0] == 'c');
    assert("replay"@.len() == 6 && "replay"@[0] == 'r');
    assert("bridge"@.len() == 6 && "bridge"@[0] == 'b');
    assert("dump"@.len() == 4 && "dump"@[0] == 'd');
    assert("sbus"@.len() == 4 && "sbus"@[0] == 's');
    assert("legs"@.len() == 4 && "legs"@[0] == 'l');
    assert("sim"@.len() == 3 && "sim"@[0] == 's');
    assert("imu"@.len() == 3 && "imu"@[0] == 'i');
    assert("run"@.len() == 3 && "run"@[0] == 'r');
}

/// Every gait and every pilot is found under its own name and no other.
pub proof fn gaits_and_pilots_go_by_their_names(name: Seq<char>)
    ensures
        gait_named(name) == Some(GaitSelect::Crawl) <==> name == "crawl"@,
        gait_named(name) == Some(GaitSelect::Walk) <==> name == "walk"@,
        gait_named(name) == Some(GaitSelect::Trot) <==> name == "trot"@,
        pilot_named(name) == Some(PilotKind::Script) <==> name == "script"@,
        pilot_named(name) == Some(PilotKind::Keys) <==> name == "keys"@,
        pilot_named(name) == Some(PilotKind::Sbus) <==> name == "sbus"@,
        pilot_named(name) == Some(PilotKind::Ros2) <==> name == "ros2"@,
{
    reveal_strlit("crawl");
    reveal_strlit("walk");
    reveal_strlit("trot");
    reveal_strlit("script");
    reveal_strlit("keys");
    reveal_strlit("sbus");
    reveal_strlit("ros2");
    assert("crawl"@.len() == 5);
    assert("walk"@.len() == 4 && "walk"@[0] == 'w');
    assert("trot"@.len() == 4 && "trot"@[0] == 't');
    assert("script"@.len() == 6);
    assert("keys"@.len() == 4 && "keys"@[0] == 'k');
    assert("sbus"@.len() == 4 && "sbus"@[0] == 's');
    assert("ros2"@.len() == 4 && "ros2"@[0] == 'r');
}

/// A flag has a text only where one was given and it is not empty; the text is
/// the one that was given.
pub proof fn a_flag_has_the_text_it_was_given(cli: Cli, key: Seq<char>, value: Seq<char>)
    requires
        cli@.flags.dom().contains(key),
        cli@.flags[key] == value,
    ensures
        value.len() > 0 ==> flag_text(cli, key) == Some(value),
        value.len() == 0 ==> flag_text(cli, key) is None,
        value == seq!['f', 'a', 'l', 's', 'e'] ==> !flag_set(cli, key),
        value != seq!['f', 'a', 'l', 's', 'e'] ==> flag_set(cli, key),
{
    reveal_strlit("false");
    assert("false"@ == seq!['f', 'a', 'l', 's', 'e']);
}

/// A flag that was not given has no text and is not set.
pub proof fn a_flag_not_given_is_not_set(cli: Cli, key: Seq<char>)
    requires
        !cli@.flags.dom().contains(key),
    ensures
        flag_text(cli, key) is None,
        !flag_set(cli, key),
{
}

/// What may be tried again is marked in front by its name in brackets.
pub proof fn the_mark_of_another_try(e: Seq<char>)
    ensures
        text::begins("[retryable] "@ + e, retryable()),
        ("[retryable] "@ + e).skip(retryable().len() as int) == e,
        e.len() > 0 && e[0] != '[' ==> !text::begins(e, retryable()),
{
    reveal_strlit("[retryable] ");
    assert(("[retryable] "@ + e).take("[retryable] "@.len() as int) == "[retryable] "@);
    assert(retryable()[0] == '[');
    if text::begins(e, retryable()) {
        assert(e.take(retryable().len() as int)[0] == e[0]);
    }
}

} // verus!
