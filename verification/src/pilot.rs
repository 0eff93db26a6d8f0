//! Sources of intent.
//!
//! A script, a radio receiver and a network all come out as the same intent, so
//! nothing behind this point can tell them apart.

use vstd::prelude::*;
use vstd::string::*;

use crate::intent::{GaitSelect, GaitTune, Intent, ModeRequest, PoseSlot, Velocity};
use crate::scalar::Scalar;
use crate::text;
use crate::text::push_decimal;
use crate::time::{Span, Time};

verus! {

/// `self` is `script` at time `now`.
pub open spec fn stamped(out: Intent, script: Intent, now: Time) -> bool {
    &&& out.time == now
    &&& out.velocity == script.velocity
    &&& out.body_attitude_rad@ == script.body_attitude_rad@
    &&& out.height_offset_m == script.height_offset_m
    &&& out.mode == script.mode
    &&& out.gait == script.gait
    &&& out.play_pose == script.play_pose
    &&& out.pose_slot == script.pose_slot
    &&& out.stabilize_head == script.stabilize_head
    &&& out.aux_rad@ == script.aux_rad@
    &&& out.link_ok == script.link_ok
    &&& out.gait_tune == script.gait_tune
    &&& out.gait_controller == script.gait_controller
    &&& out.wbc == script.wbc
    &&& out.knee_pattern == script.knee_pattern
}

/// A source of intent.
///
/// An intent comes back even when nothing comes in: without one, the last
/// velocity would stay in force.
pub trait Pilot {
    /// The intent of this period.
    fn poll(&mut self, now: Time) -> Intent;

    /// What only this source knows about itself, in a line.
    fn status_line(&self) -> (r: String)
        default_ensures
            r@.len() == 0,
    {
        String::new()
    }

    /// Whether the operator wants to end the program.
    fn quit_requested(&self) -> (r: bool)
        default_ensures
            !r,
    {
        false
    }
}

/// A script: it returns the same intent every period until it is changed.
pub struct ScriptPilot {
    pub intent: Intent,
}

impl ScriptPilot {
    pub fn new(intent: Intent) -> (r: ScriptPilot)
        ensures
            r.intent == intent,
    {
        ScriptPilot { intent }
    }

    pub fn set(&mut self, intent: Intent)
        ensures
            final(self).intent == intent,
    {
        self.intent = intent;
    }

    pub fn intent_mut(&mut self) -> (r: &mut Intent)
        ensures
            *r == old(self).intent,
            final(self).intent == *final(r),
    {
        &mut self.intent
    }

}

impl Pilot for ScriptPilot {
    /// The script's intent, stamped with the time of asking.
    fn poll(&mut self, now: Time) -> (r: Intent)
        ensures
            stamped(r, old(self).intent, now),
            *final(self) == *old(self),
    {
        let mut out = self.intent.duplicate();
        out.time = now;
        out
    }
}

/// What a radio pilot goes by.
#[derive(Clone, Copy, Debug, PartialEq, Eq, Structural)]
pub enum RadioSource {
    /// Stand, for a bench without a receiver.
    BenchStand,
    /// What the sticks say, or what is left of it when the link is lost.
    Sticks,
}

/// A bench that has no receiver is not a lost link: the one stands, the other
/// must not become more active.
pub fn radio_source(usable: bool, allow_no_sbus: bool) -> (r: RadioSource)
    ensures
        r == (if !usable && allow_no_sbus {
            RadioSource::BenchStand
        } else {
            RadioSource::Sticks
        }),
{
    if !usable && allow_no_sbus {
        RadioSource::BenchStand
    } else {
        RadioSource::Sticks
    }
}

/// Shortest time after which a velocity counts as old.
pub const SHORTEST_TIMEOUT_MS: u64 = 20;

/// How long a velocity stays good: what the profile says, and not less than
/// the shortest.
pub fn velocity_timeout(configured_ms: u64) -> (r: Span)
    ensures
        r.nanos == (if configured_ms < SHORTEST_TIMEOUT_MS {
            SHORTEST_TIMEOUT_MS
        } else {
            configured_ms
        }) * 1_000_000,
{
    let ms: u64 = if configured_ms < SHORTEST_TIMEOUT_MS {
        SHORTEST_TIMEOUT_MS
    } else {
        configured_ms
    };
    Span::from_nanos((ms as u128) * 1_000_000)
}

/// How a network pilot presents itself.
pub struct NodeSettings {
    pub node_name: String,
    pub namespace: String,
    pub timeout_ms: u64,
}

/// The profile's settings, or the usual ones for a robot whose profile has none.
pub fn node_settings(profile: Option<NodeSettings>) -> (r: NodeSettings)
    ensures
        match profile {
            Some(p) => r == p,
            None => r.node_name@ == "misa_run"@ && r.namespace@.len() == 0 && r.timeout_ms == 300,
        },
{
    match profile {
        Some(p) => p,
        None => NodeSettings {
            node_name: "misa_run".to_owned(),
            namespace: String::new(),
            timeout_ms: 300,
        },
    }
}

/// What the network has asked for so far.
///
/// Velocity comes as a stream, the rest by request. That nothing comes is
/// normal: then the velocity drops to zero, and the mode stays.
#[derive(Clone, Copy, Debug, PartialEq, Eq)]
pub struct Shared {
    pub velocity: Velocity,
    /// When the last velocity came.
    pub velocity_at: Option<Time>,
    pub mode: ModeRequest,
    pub gait: GaitSelect,
    /// A pose that was asked for and not handed on yet.
    pub pose_pending: Option<PoseSlot>,
    pub attitude_rad: [Scalar; 3],
    pub height_offset_m: Scalar,
}

/// Answer to a request.
pub struct Reply {
    pub ok: bool,
    pub message: String,
}

impl Shared {
    /// The last velocity is recent enough at `clock`.
    pub open spec fn fresh(self, clock: Time, timeout: Span) -> bool {
        match self.velocity_at {
            Some(t) => clock.since_spec(t).nanos <= timeout.nanos,
            None => false,
        }
    }

    /// A velocity arrives.
    pub fn on_velocity(&mut self, velocity: Velocity, clock: Time)
        ensures
            *final(self) == (Shared { velocity, velocity_at: Some(clock), ..*old(self) }),
    {
        self.velocity = velocity;
        self.velocity_at = Some(clock);
    }

    /// A mode by its number. A number that stands for none changes nothing.
    pub fn set_mode(&mut self, mode: u8) -> (r: Reply)
        ensures
            r.ok == (mode <= 2),
            *final(self) == (Shared {
                mode: if mode == 0 {
                    ModeRequest::Relax
                } else if mode == 1 {
                    ModeRequest::Stand
                } else if mode == 2 {
                    ModeRequest::Walk
                } else {
                    old(self).mode
                },
                ..*old(self)
            }),
            r.message@ == (if mode == 0 {
                "Relax"@
            } else if mode == 1 {
                "Stand"@
            } else if mode == 2 {
                "Walk"@
            } else {
                "mode "@ + text::decimal(mode as nat) + " は 0..=2 の外です"@
            }),
    {
        if mode == 0 {
            self.mode = ModeRequest::Relax;
            Reply { ok: true, message: "Relax".to_owned() }
        } else if mode == 1 {
            self.mode = ModeRequest::Stand;
            Reply { ok: true, message: "Stand".to_owned() }
        } else if mode == 2 {
            self.mode = ModeRequest::Walk;
            Reply { ok: true, message: "Walk".to_owned() }
        } else {
            let mut message: String = "mode ".to_owned();
            push_decimal(&mut message, mode as u64);
            message.append(" は 0..=2 の外です");
            Reply { ok: false, message }
        }
    }

    /// A gait by its number. That it was received is all that is said: when it
    /// takes effect is the controller's decision.
    pub fn set_gait(&mut self, gait: u8) -> (r: Reply)
        ensures
            r.ok == (gait <= 2),
            *final(self) == (Shared {
                gait: if gait == 0 {
                    GaitSelect::Crawl
                } else if gait == 1 {
                    GaitSelect::Walk
                } else if gait == 2 {
                    GaitSelect::Trot
                } else {
                    old(self).gait
                },
                ..*old(self)
            }),
            r.message@ == (if gait <= 2 {
                final(self).gait.label_spec() + " を要求しました"@
            } else {
                "gait "@ + text::decimal(gait as nat) + " は 0..=2 の外です"@
            }),
    {
        if gait > 2 {
            let mut message: String = "gait ".to_owned();
            push_decimal(&mut message, gait as u64);
            message.append(" は 0..=2 の外です");
            return Reply { ok: false, message };
        }
        self.gait = if gait == 0 {
            GaitSelect::Crawl
        } else if gait == 1 {
            GaitSelect::Walk
        } else {
            GaitSelect::Trot
        };
        let mut message: String = self.gait.label().to_owned();
        message.append(" を要求しました");
        Reply { ok: true, message }
    }

    /// Asks for a pose once.
    pub fn play_pose(&mut self, slot: u8) -> (r: Reply)
        ensures
            r.ok,
            r.message@ == "slot "@ + text::decimal(slot as nat) + " の再生を要求しました"@,
            *final(self) == (Shared { pose_pending: Some(PoseSlot(slot)), ..*old(self) }),
    {
        self.pose_pending = Some(PoseSlot(slot));
        let mut message: String = "slot ".to_owned();
        push_decimal(&mut message, slot as u64);
        message.append(" の再生を要求しました");
        Reply { ok: true, message }
    }

    pub fn set_body_attitude(&mut self, roll: Scalar, pitch: Scalar, yaw: Scalar) -> (r: Reply)
        ensures
            r.ok,
            r.message@.len() == 0,
            final(self).attitude_rad@ == seq![roll, pitch, yaw],
            *final(self) == (Shared { attitude_rad: final(self).attitude_rad, ..*old(self) }),
    {
        self.attitude_rad = [roll, pitch, yaw];
        Reply { ok: true, message: String::new() }
    }

    pub fn set_height(&mut self, offset_m: Scalar) -> (r: Reply)
        ensures
            r.ok,
            r.message@.len() == 0,
            *final(self) == (Shared { height_offset_m: offset_m, ..*old(self) }),
    {
        self.height_offset_m = offset_m;
        Reply { ok: true, message: String::new() }
    }

    /// The intent at plant time `now`. `clock` is the time on the clock that
    /// stamps velocities. A pose that was asked for is handed on once.
    pub fn poll(&mut self, now: Time, clock: Time, timeout: Span) -> (r: Intent)
        ensures
            r.time == now,
            r.velocity == (if old(self).fresh(clock, timeout) {
                old(self).velocity
            } else {
                Velocity::zero_spec()
            }),
            r.body_attitude_rad@ == old(self).attitude_rad@,
            r.height_offset_m == old(self).height_offset_m,
            r.mode == old(self).mode,
            r.gait == old(self).gait,
            r.play_pose == (old(self).pose_pending is Some),
            r.pose_slot == (match old(self).pose_pending {
                Some(slot) => slot,
                None => PoseSlot(0),
            }),
            !r.stabilize_head,
            r.aux_rad@.len() == 0,
            r.link_ok == old(self).fresh(clock, timeout),
            r.gait_tune == GaitTune::empty_spec(),
            r.gait_controller is None,
            r.wbc is None,
            r.knee_pattern is None,
            *final(self) == (Shared { pose_pending: None, ..*old(self) }),
    {
        let fresh: bool = match self.velocity_at {
            Some(t) => clock.since(t).nanos <= timeout.nanos,
            None => false,
        };
        let slot: Option<PoseSlot> = self.pose_pending;
        self.pose_pending = None;
        Intent {
            time: now,
            velocity: if fresh {
                self.velocity
            } else {
                Velocity::zero()
            },
            body_attitude_rad: self.attitude_rad,
            height_offset_m: self.height_offset_m,
            mode: self.mode,
            gait: self.gait,
            play_pose: slot.is_some(),
            pose_slot: match slot {
                Some(s) => s,
                None => PoseSlot(0),
            },
            stabilize_head: false,
            aux_rad: Vec::new(),
            link_ok: fresh,
            gait_tune: GaitTune::default(),
            gait_controller: None,
            wbc: None,
            knee_pattern: None,
        }
    }
}

impl Default for Shared {
    /// Limp: being connected must not make the robot rise.
    fn default() -> (r: Shared)
        ensures
            r.velocity == Velocity::zero_spec(),
            r.velocity_at is None,
            r.mode is Relax,
            r.gait is Crawl,
            r.pose_pending is None,
            r.attitude_rad@ == seq![Scalar::zero_spec(), Scalar::zero_spec(), Scalar::zero_spec()],
            r.height_offset_m == Scalar::zero_spec(),
    {
        Shared {
            velocity: Velocity::zero(),
            velocity_at: None,
            mode: ModeRequest::Relax,
            gait: GaitSelect::Crawl,
            pose_pending: None,
            attitude_rad: [Scalar::zero(), Scalar::zero(), Scalar::zero()],
            height_offset_m: Scalar::zero(),
        }
    }
}

/// A velocity that has grown old stays old: once the time is up, no later time
/// makes it count again.
pub proof fn old_velocities_stay_old(s: Shared, clock: Time, later: Time, timeout: Span)
    requires
        clock.nanos <= later.nanos,
        !s.fresh(clock, timeout),
    ensures
        !s.fresh(later, timeout),
{
}

/// A velocity counts exactly from when it came until its time is up.
pub proof fn a_velocity_counts_until_its_time_is_up(s: Shared, clock: Time, timeout: Span)
    ensures
        s.velocity_at is None ==> !s.fresh(clock, timeout),
        s.velocity_at matches Some(t) ==> (s.fresh(clock, timeout) <==> clock.nanos <= t.nanos
            + timeout.nanos),
{
}

/// A script is repeated as written, field by field; only the time is that of the
/// period.
pub proof fn a_script_is_repeated_as_written(out: Intent, script: Intent, now: Time)
    requires
        stamped(out, script, now),
    ensures
        out.time == now,
        out.velocity == script.velocity,
        out.body_attitude_rad@ == script.body_attitude_rad@,
        out.height_offset_m == script.height_offset_m,
        out.mode == script.mode,
        out.gait == script.gait,
        out.play_pose == script.play_pose,
        out.pose_slot == script.pose_slot,
        out.stabilize_head == script.stabilize_head,
        out.aux_rad@ == script.aux_rad@,
        out.link_ok == script.link_ok,
        out.gait_tune == script.gait_tune,
        out.gait_controller == script.gait_controller,
        out.wbc == script.wbc,
        out.knee_pattern == script.knee_pattern,
{
}

} // verus!
