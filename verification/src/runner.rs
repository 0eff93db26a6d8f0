//! The control loop's bookkeeping: what to do when, and what to say once.

use vstd::prelude::*;
use vstd::string::*;

use crate::axis::AxisId;
use crate::command::ControlMode;
use crate::config::WbcOutput;
use crate::controller::{ControllerView, Facts, State};
use crate::intent::{Intent, ModeRequest};
use crate::jointvec::JointVec;
use crate::plant::PlantCaps;
use crate::scalar::Scalar;
use crate::text;
use crate::text::{push_decimal, quoted};
use crate::time::{Span, Time};

verus! {

pub open spec fn let_through(want: ModeRequest, unread: bool) -> ModeRequest {
    if unread {
        ModeRequest::Relax
    } else {
        want
    }
}

/// The mode that is let through. Before every commanded axis has been read, an
/// unread axis shows as zero, and rising from there is dangerous: so nothing but
/// going limp is let through.
pub fn mode_until_read(want: ModeRequest, unread: bool) -> (r: ModeRequest)
    ensures
        r == let_through(want, unread),
{
    if unread {
        ModeRequest::Relax
    } else {
        want
    }
}

/// Whether the head axis follows our commands.
pub fn head_driven(caps: &PlantCaps, head: Option<AxisId>) -> (r: bool)
    ensures
        r == (match head {
            Some(id) => caps.drives(id.0 as int),
            None => false,
        }),
{
    match head {
        Some(id) => id.index() < caps.driven.len() && caps.driven[id.index()],
        None => false,
    }
}

/// What to do about a robot whose state has not been read.
#[derive(Clone, Copy, Debug, PartialEq, Eq, Structural)]
pub enum Readiness {
    /// Still waiting; `say` once.
    Waiting { say: bool },
    /// Read for the first time.
    Arrived,
    /// Read before.
    Ready,
}

/// What to do about the motors' power.
#[derive(Clone, Copy, Debug, PartialEq, Eq, Structural)]
pub enum Power {
    Keep,
    Arm,
    Disarm,
}

/// What to say about the body's tilt.
#[derive(Clone, Copy, Debug, PartialEq, Eq, Structural)]
pub enum TiltReport {
    Nothing,
    Tilted,
    Recovered,
}

/// The loop's memory.
#[derive(Clone, Copy, Debug, PartialEq, Eq, Structural)]
pub struct LoopState {
    pub measured_seen: bool,
    pub warned_unread: bool,
    pub motors_enabled: bool,
    pub last_verdict_clean: bool,
    pub tilt_reported: bool,
    pub fault_hint_shown: bool,
    pub ticks: u64,
    /// When the next period begins.
    pub next: Time,
    /// The longest overrun since the last status line.
    pub worst_overrun: Span,
}

impl LoopState {
    pub fn new(now: Time) -> (r: LoopState)
        ensures
            r == (LoopState {
                measured_seen: false,
                warned_unread: false,
                motors_enabled: false,
                last_verdict_clean: true,
                tilt_reported: false,
                fault_hint_shown: false,
                ticks: 0,
                next: now,
                worst_overrun: Span::zero_spec(),
            }),
    {
        LoopState {
            measured_seen: false,
            warned_unread: false,
            motors_enabled: false,
            last_verdict_clean: true,
            tilt_reported: false,
            fault_hint_shown: false,
            ticks: 0,
            next: now,
            worst_overrun: Span::zero(),
        }
    }

    pub open spec fn readiness(self, all_read: bool) -> Readiness {
        if self.measured_seen {
            Readiness::Ready
        } else if all_read {
            Readiness::Arrived
        } else {
            Readiness::Waiting { say: !self.warned_unread }
        }
    }

    /// Takes note of whether all commanded axes have been read. Once they have
    /// been, that stays so.
    pub fn note_read(&mut self, all_read: bool) -> (r: Readiness)
        ensures
            r == old(self).readiness(all_read),
            *final(self) == (LoopState {
                measured_seen: old(self).measured_seen || all_read,
                warned_unread: old(self).warned_unread || !(old(self).measured_seen || all_read),
                ..*old(self)
            }),
    {
        if self.measured_seen {
            return Readiness::Ready;
        }
        if all_read {
            self.measured_seen = true;
            return Readiness::Arrived;
        }
        let say: bool = !self.warned_unread;
        self.warned_unread = true;
        Readiness::Waiting { say }
    }

    pub open spec fn power_spec(self, legs_idle: bool) -> Power {
        if self.motors_enabled == !legs_idle {
            Power::Keep
        } else if legs_idle {
            Power::Disarm
        } else {
            Power::Arm
        }
    }

    /// Power is switched only on a change.
    pub fn power(&self, legs_idle: bool) -> (r: Power)
        ensures
            r == self.power_spec(legs_idle),
    {
        if self.motors_enabled == !legs_idle {
            Power::Keep
        } else if legs_idle {
            Power::Disarm
        } else {
            Power::Arm
        }
    }

    /// Takes note of a switch that went through.
    pub fn powered(&mut self, legs_idle: bool)
        ensures
            *final(self) == (LoopState { motors_enabled: !legs_idle, ..*old(self) }),
    {
        self.motors_enabled = !legs_idle;
    }

    /// Whether the safety gate's verdict is worth a line: only when it changes between
    /// clean and not clean.
    pub fn note_verdict(&mut self, clean: bool) -> (say: bool)
        ensures
            say == (old(self).last_verdict_clean != clean),
            *final(self) == (LoopState { last_verdict_clean: clean, ..*old(self) }),
    {
        let say: bool = self.last_verdict_clean != clean;
        self.last_verdict_clean = clean;
        say
    }

    pub open spec fn tilt_report(self, tilted: bool) -> TiltReport {
        if tilted && !self.tilt_reported {
            TiltReport::Tilted
        } else if !tilted && self.tilt_reported {
            TiltReport::Recovered
        } else {
            TiltReport::Nothing
        }
    }

    /// What to say about the tilt: once when it begins, once when it ends.
    pub fn note_tilt(&mut self, tilted: bool) -> (r: TiltReport)
        ensures
            r == old(self).tilt_report(tilted),
            *final(self) == (LoopState { tilt_reported: tilted, ..*old(self) }),
    {
        let was: bool = self.tilt_reported;
        self.tilt_reported = tilted;
        if tilted && !was {
            TiltReport::Tilted
        } else if !tilted && was {
            TiltReport::Recovered
        } else {
            TiltReport::Nothing
        }
    }

    /// Whether to explain that a fault does not make the robot limp: once, until
    /// the faults are gone.
    pub fn note_faults(&mut self, any: bool) -> (say: bool)
        ensures
            say == (any && !old(self).fault_hint_shown),
            *final(self) == (LoopState { fault_hint_shown: any, ..*old(self) }),
    {
        let say: bool = any && !self.fault_hint_shown;
        self.fault_hint_shown = any;
        say
    }

    /// Counts a period.
    pub fn count(&mut self)
        requires
            old(self).ticks < u64::MAX,
        ensures
            *final(self) == (LoopState { ticks: (old(self).ticks + 1) as u64, ..*old(self) }),
    {
        self.ticks = self.ticks + 1;
    }

    /// Starts a new status interval.
    pub fn status_given(&mut self)
        ensures
            *final(self) == (LoopState { worst_overrun: Span::zero_spec(), ..*old(self) }),
    {
        self.worst_overrun = Span::zero();
    }

    /// The end of a period: how long to sleep. A period that ran over is not
    /// made up for; the next one begins at once.
    pub fn pace(&mut self, now: Time, period: Span) -> (sleep: Span)
        ensures
            ({
                let due = old(self).next.later_spec(period);
                if due.nanos > now.nanos {
                    &&& sleep == due.since_spec(now)
                    &&& *final(self) == (LoopState { next: due, ..*old(self) })
                } else {
                    let over = now.since_spec(due);
                    &&& sleep == Span::zero_spec()
                    &&& *final(self) == (LoopState {
                        next: now,
                        worst_overrun: if over.nanos > old(self).worst_overrun.nanos {
                            over
                        } else {
                            old(self).worst_overrun
                        },
                        ..*old(self)
                    })
                }
            }),
    {
        let due: Time = self.next.later(period);
        if due.nanos > now.nanos {
            self.next = due;
            due.since(now)
        } else {
            let over: Span = now.since(due);
            if over.nanos > self.worst_overrun.nanos {
                self.worst_overrun = over;
            }
            self.next = now;
            Span::zero()
        }
    }
}

/// The largest value so far, and which joint it belongs to.
#[derive(Clone, Copy, Debug, PartialEq, Eq, Structural)]
pub struct Worst {
    pub value: Scalar,
    pub at: Option<usize>,
}

/// The worst after the first `n` values. A value has to be larger to take over.
pub open spec fn worst_spec(start: Worst, values: Seq<Scalar>, n: int) -> Worst
    decreases n,
{
    if n <= 0 {
        start
    } else {
        let before = worst_spec(start, values, n - 1);
        if before.value.lt_num(values[n - 1]) {
            Worst { value: values[n - 1], at: Some((n - 1) as usize) }
        } else {
            before
        }
    }
}

/// Updates the worst with one value per joint.
pub fn worst_of(start: Worst, values: &Vec<Scalar>) -> (r: Worst)
    ensures
        r == worst_spec(start, values@, values@.len() as int),
{
    let mut out: Worst = start;
    let mut i: usize = 0;
    while i < values.len()
        invariant
            i <= values@.len(),
            out == worst_spec(start, values@, i as int),
        decreases values@.len() - i,
    {
        if out.value.less(values[i]) {
            out = Worst { value: values[i], at: Some(i) };
        }
        i += 1;
    }
    out
}

/// Thirty-five hundredths of a radian.
pub const CROUCH_TOLERANCE: u64 = 0x3fd6_6666_6666_6666;

/// Judges whether the joints are where they should be when the robot lies down:
/// the worst of the offsets, and whether it is within the tolerance. `offsets`
/// are absolute values.
pub fn crouch_frame(offsets: &Vec<Scalar>) -> (r: (Worst, bool))
    ensures
        r.0 == worst_spec(
            Worst { value: Scalar::zero_spec(), at: None },
            offsets@,
            offsets@.len() as int,
        ),
        r.1 == r.0.value.le_num(Scalar { bits: CROUCH_TOLERANCE }),
{
    let worst = worst_of(Worst { value: Scalar::zero(), at: None }, offsets);
    (worst, worst.value.at_most(Scalar::from_bits(CROUCH_TOLERANCE)))
}

/// Watches how the joints follow their targets.
pub struct Watch {
    pub worst: Worst,
    pub warned_excursion: bool,
    /// Range of each leg joint.
    pub limits: Vec<(Scalar, Scalar)>,
}

/// Leg joint `i` has left its range.
pub open spec fn left_range(limits: Seq<(Scalar, Scalar)>, q: JointVec, i: int) -> bool {
    q.joint(i).lt_num(limits[i].0) || limits[i].1.lt_num(q.joint(i))
}

/// The joints among the first `n` that have left their range.
pub open spec fn excursions(limits: Seq<(Scalar, Scalar)>, q: JointVec, n: int) -> Seq<usize>
    decreases n,
{
    if n <= 0 {
        Seq::empty()
    } else if left_range(limits, q, n - 1) {
        excursions(limits, q, n - 1).push((n - 1) as usize)
    } else {
        excursions(limits, q, n - 1)
    }
}

impl Watch {
    /// The ranges: the calibrated one where there is one, else the model's, else
    /// none.
    pub fn new(model: &Vec<Option<(Scalar, Scalar)>>, calibrated: &Vec<Option<(Scalar, Scalar)>>) -> (r: Watch)
        requires
            model@.len() == 12,
            calibrated@.len() == 12,
        ensures
            r.worst == (Worst { value: Scalar::zero_spec(), at: None }),
            !r.warned_excursion,
            r.limits@.len() == 12,
            forall|i: int|
                0 <= i < 12 ==> #[trigger] r.limits@[i] == (match calibrated@[i] {
                    Some(c) => c,
                    None => match model@[i] {
                        Some(m) => m,
                        None => (
                            Scalar { bits: 0xfff0_0000_0000_0000 },
                            Scalar { bits: 0x7ff0_0000_0000_0000 },
                        ),
                    },
                }),
    {
        let mut limits: Vec<(Scalar, Scalar)> = Vec::new();
        let mut i: usize = 0;
        while i < 12
            invariant
                i <= 12,
                model@.len() == 12,
                calibrated@.len() == 12,
                limits@.len() == i,
                forall|k: int|
                    0 <= k < i ==> #[trigger] limits@[k] == (match calibrated@[k] {
                        Some(c) => c,
                        None => match model@[k] {
                            Some(m) => m,
                            None => (
                                Scalar { bits: 0xfff0_0000_0000_0000 },
                                Scalar { bits: 0x7ff0_0000_0000_0000 },
                            ),
                        },
                    }),
            decreases 12 - i,
        {
            let range: (Scalar, Scalar) = match calibrated[i] {
                Some(c) => c,
                None => match model[i] {
                    Some(m) => m,
                    None => (
                        Scalar::from_bits(0xfff0_0000_0000_0000),
                        Scalar::from_bits(0x7ff0_0000_0000_0000),
                    ),
                },
            };
            limits.push(range);
            i += 1;
        }
        Watch { worst: Worst { value: Scalar::zero(), at: None }, warned_excursion: false, limits }
    }

    /// One period. `errors` are the distances between targets and measured
    /// angles. Returns the joints outside their range, and whether to say so: on
    /// leaving, not for as long as it lasts.
    pub fn tick(&mut self, errors: &Vec<Scalar>, measured: &JointVec) -> (r: (Vec<usize>, bool))
        requires
            old(self).limits@.len() == 12,
            errors@.len() == 12,
        ensures
            r.0@ == excursions(old(self).limits@, *measured, 12),
            r.1 == (r.0@.len() > 0 && !old(self).warned_excursion),
            final(self).worst == worst_spec(old(self).worst, errors@, 12),
            final(self).warned_excursion == (r.0@.len() > 0),
            final(self).limits@ == old(self).limits@,
    {
        self.worst = worst_of(self.worst, errors);
        let mut out: Vec<usize> = Vec::new();
        let mut i: usize = 0;
        while i < 12
            invariant
                i <= 12,
                self.limits@ == old(self).limits@,
                self.limits@.len() == 12,
                self.warned_excursion == old(self).warned_excursion,
                self.worst == worst_spec(old(self).worst, errors@, 12),
                out@ == excursions(self.limits@, *measured, i as int),
            decreases 12 - i,
        {
            let m: Scalar = measured.get(i / 3, i % 3);
            assert(m == measured.joint(i as int));
            if m.less(self.limits[i].0) || self.limits[i].1.less(m) {
                out.push(i);
            }
            i += 1;
        }
        let say: bool = out.len() > 0 && !self.warned_excursion;
        self.warned_excursion = out.len() > 0;
        (out, say)
    }

    /// The worst since the last call.
    pub fn take(&mut self) -> (r: Worst)
        ensures
            r == old(self).worst,
            final(self).worst == (Worst { value: Scalar::zero_spec(), at: None }),
            final(self).warned_excursion == old(self).warned_excursion,
            final(self).limits@ == old(self).limits@,
    {
        let out: Worst = self.worst;
        self.worst = Worst { value: Scalar::zero(), at: None };
        out
    }
}

/// The steps of starting a serial robot, in order.
#[derive(Clone, Copy, Debug, PartialEq, Eq, Structural)]
pub enum StartStage {
    /// Wait for the receiver.
    Receiver,
    /// Wait for the inertial unit.
    Imu,
    /// Wait for the motors' multi-turn frames.
    Anchors,
    /// Wait for every motor's first reading.
    FirstRead,
    /// Look at the mode switch.
    Switch,
    /// Take the posture as the origin, if that is due.
    Multiturn,
    /// Compare the posture with the origin.
    Frame,
    Done,
}

/// What came of a step.
pub enum StageOutcome {
    Passed,
    /// It did not pass; the text says why.
    Failed(String),
    /// The mode switch is in this position. In position zero the robot is limp.
    SwitchAt { position: u64, raw: u64 },
}

pub struct StartOptions {
    /// Start without a receiver.
    pub allow_no_sbus: bool,
    /// Leave the multi-turn frames alone.
    pub skip_zero: bool,
}

/// The step after one that passed.
pub open spec fn next_stage(stage: StartStage, opts: StartOptions) -> StartStage {
    match stage {
        StartStage::Receiver => StartStage::Imu,
        StartStage::Imu => if opts.skip_zero {
            StartStage::FirstRead
        } else {
            StartStage::Anchors
        },
        StartStage::Anchors => StartStage::FirstRead,
        StartStage::FirstRead => if opts.allow_no_sbus {
            StartStage::Multiturn
        } else {
            StartStage::Switch
        },
        StartStage::Switch => StartStage::Multiturn,
        StartStage::Multiturn => StartStage::Frame,
        StartStage::Frame => StartStage::Done,
        StartStage::Done => StartStage::Done,
    }
}

/// Some steps may fail without ending the start: a missing inertial unit, and a
/// missing receiver where that is allowed.
pub open spec fn tolerated(stage: StartStage, opts: StartOptions) -> bool {
    stage is Imu || stage is Frame || (stage is Receiver && opts.allow_no_sbus)
}

/// The complaint about a step that failed.
pub open spec fn stage_message(stage: StartStage, e: Seq<char>) -> Seq<char> {
    match stage {
        StartStage::Receiver => "[retryable] "@ + e
            + "。送信機の電源とポートを確認してください（ベンチで脚を浮かせて いるなら --allow-no-sbus）"@,
        StartStage::Anchors => e + "（モータの電源とボーレートを確認してください）"@,
        StartStage::FirstRead => e + "（12 軸すべてが応答している必要があります）"@,
        _ => e,
    }
}

pub open spec fn switch_message(position: u64, raw: u64) -> Seq<char> {
    "[retryable] CH5（モード）が脱力位置にありません（いま "@ + text::decimal(position as nat)
        + " 段目 / raw "@ + text::decimal(raw as nat)
        + "）。                 **脱力に戻してから起動してください。** このまま起動すると                 操作なしで立ち上がります"@
}

/// Goes on from one step of the start to the next, or gives the start up.
pub fn start_step(stage: StartStage, outcome: &StageOutcome, opts: &StartOptions) -> (r: Result<
    StartStage,
    String,
>)
    ensures
        match *outcome {
            StageOutcome::Passed => r == Ok::<StartStage, String>(next_stage(stage, *opts)),
            StageOutcome::Failed(e) => if tolerated(stage, *opts) {
                r == Ok::<StartStage, String>(next_stage(stage, *opts))
            } else {
                r is Err && r->Err_0@ == stage_message(stage, e@)
            },
            StageOutcome::SwitchAt { position, raw } => if position == 0 {
                r == Ok::<StartStage, String>(next_stage(stage, *opts))
            } else {
                r is Err && r->Err_0@ == switch_message(position, raw)
            },
        },
{
    match outcome {
        StageOutcome::SwitchAt { position, raw } => {
            if *position != 0 {
                let mut out: String =
                    "[retryable] CH5（モード）が脱力位置にありません（いま ".to_owned();
                push_decimal(&mut out, *position);
                out.append(" 段目 / raw ");
                push_decimal(&mut out, *raw);
                out.append(
                    "）。                 **脱力に戻してから起動してください。** このまま起動すると                 操作なしで立ち上がります",
                );
                return Err(out);
            }
        },
        StageOutcome::Failed(e) => {
            let fine: bool = stage == StartStage::Imu || stage == StartStage::Frame || (stage
                == StartStage::Receiver && opts.allow_no_sbus);
            if !fine {
                let mut out: String = String::new();
                if stage == StartStage::Receiver {
                    out.append("[retryable] ");
                }
                out.append(e.as_str());
                if stage == StartStage::Receiver {
                    out.append(
                        "。送信機の電源とポートを確認してください（ベンチで脚を浮かせて いるなら --allow-no-sbus）",
                    );
                } else if stage == StartStage::Anchors {
                    out.append("（モータの電源とボーレートを確認してください）");
                } else if stage == StartStage::FirstRead {
                    out.append("（12 軸すべてが応答している必要があります）");
                }
                assert(out@ == stage_message(stage, e@));
                return Err(out);
            }
        },
        StageOutcome::Passed => {},
    }
    Ok(
        match stage {
            StartStage::Receiver => StartStage::Imu,
            StartStage::Imu => if opts.skip_zero {
                StartStage::FirstRead
            } else {
                StartStage::Anchors
            },
            StartStage::Anchors => StartStage::FirstRead,
            StartStage::FirstRead => if opts.allow_no_sbus {
                StartStage::Multiturn
            } else {
                StartStage::Switch
            },
            StartStage::Switch => StartStage::Multiturn,
            StartStage::Multiturn => StartStage::Frame,
            StartStage::Frame => StartStage::Done,
            StartStage::Done => StartStage::Done,
        },
    )
}

/// What to do about the multi-turn origin.
#[derive(Clone, Copy, Debug, PartialEq, Eq, Structural)]
pub enum Multiturn {
    /// It is not asked for.
    Leave,
    /// It was done since the power came on.
    AlreadyDone,
    /// Do it now, leaving the mark first.
    Zero,
}

/// The posture becomes the origin once after power-on, and only where asked for.
pub fn multiturn_action(enabled: bool, marked: bool) -> (r: Multiturn)
    ensures
        r == (if !enabled {
            Multiturn::Leave
        } else if marked {
            Multiturn::AlreadyDone
        } else {
            Multiturn::Zero
        }),
{
    if !enabled {
        Multiturn::Leave
    } else if marked {
        Multiturn::AlreadyDone
    } else {
        Multiturn::Zero
    }
}

/// Where the mark is left. The place is cleared when the power goes.
pub fn multiturn_marker(name: &str) -> (r: String)
    ensures
        r@ == "/dev/shm/misa-multiturn-zeroed-"@ + name@,
{
    let mut out: String = "/dev/shm/misa-multiturn-zeroed-".to_owned();
    out.append(name);
    out
}

pub open spec fn recorded_spec(written: u64, dropped: u64) -> Seq<char> {
    if dropped == 0 {
        text::decimal(written as nat) + " 周期を記録しました"@
    } else {
        text::decimal(written as nat) + " 周期を記録しました（"@ + text::decimal(dropped as nat)
            + " 周期は取りこぼし）"@
    }
}

/// What to say of a finished recording. An incomplete one says so.
pub fn recorded_line(written: u64, dropped: u64) -> (r: String)
    ensures
        r@ == recorded_spec(written, dropped),
{
    let mut out: String = String::new();
    push_decimal(&mut out, written);
    if dropped == 0 {
        out.append(" 周期を記録しました");
    } else {
        out.append(" 周期を記録しました（");
        push_decimal(&mut out, dropped);
        out.append(" 周期は取りこぼし）");
    }
    assert(out@ == recorded_spec(written, dropped));
    out
}

/// The control mode that an output of the whole-body controller needs.
pub open spec fn mode_for(output: WbcOutput) -> ControlMode {
    match output {
        WbcOutput::Torque => ControlMode::Torque,
        WbcOutput::Velocity => ControlMode::Velocity,
        WbcOutput::Position => ControlMode::Position,
    }
}

/// Refuses a robot that cannot be driven the way the whole-body controller
/// wants. `why` adds a reason, if there is one.
pub fn check_wbc_mode(caps: &PlantCaps, output: WbcOutput, why: Option<&'static str>) -> (r: Result<
    (),
    String,
>)
    ensures
        r is Ok <==> caps.modes@.contains(mode_for(output)),
        r matches Err(e) ==> e@ == "この機体は "@ + mode_for(output).name_spec()
            + " 制御を扱えません（wbc.output = "@ + text::debug_quoted(output.label_spec()) + "）。"@ + (
        match why {
            Some(w) => w@,
            None => ""@,
        }),
{
    let want: ControlMode = match output {
        WbcOutput::Torque => ControlMode::Torque,
        WbcOutput::Velocity => ControlMode::Velocity,
        WbcOutput::Position => ControlMode::Position,
    };
    if caps.accepts(want) {
        return Ok(());
    }
    let mut out: String = "この機体は ".to_owned();
    out.append(want.name());
    out.append(" 制御を扱えません（wbc.output = ");
    let label: String = quoted(output.label());
    out.append(label.as_str());
    out.append("）。");
    match why {
        Some(w) => {
            out.append(w);
        },
        None => {
            out.append("");
        },
    }
    Err(out)
}

pub open spec fn gate_spec(
    clamped: nat,
    rate_limited: nat,
    torque_limited: nat,
    held: bool,
    faulted: nat,
) -> Seq<char> {
    "安全ゲート: 可動域 "@ + text::decimal(clamped) + " 軸 / 変化率 "@ + text::decimal(rate_limited)
        + " 軸 / トルク "@ + text::decimal(torque_limited) + " 軸"@ + (if held {
        " / 観測が古いので目標を進めていません"@
    } else {
        ""@
    }) + (if faulted == 0 {
        ""@
    } else {
        " / 異常ビット "@ + text::decimal(faulted) + " 軸"@
    })
}

/// The line about what the safety gate had to change.
pub fn gate_line(v: &crate::safety::SafetyVerdict) -> (r: String)
    ensures
        r@ == gate_spec(
            v.clamped@.len(),
            v.rate_limited@.len(),
            v.torque_limited@.len(),
            v.held_for_stale_observation,
            v.faulted@.len(),
        ),
{
    let mut out: String = "安全ゲート: 可動域 ".to_owned();
    push_decimal(&mut out, v.clamped.len() as u64);
    out.append(" 軸 / 変化率 ");
    push_decimal(&mut out, v.rate_limited.len() as u64);
    out.append(" 軸 / トルク ");
    push_decimal(&mut out, v.torque_limited.len() as u64);
    out.append(" 軸");
    if v.held_for_stale_observation {
        out.append(" / 観測が古いので目標を進めていません");
    } else {
        out.append("");
    }
    if v.faulted.len() > 0 {
        let mut more: String = " / 異常ビット ".to_owned();
        push_decimal(&mut more, v.faulted.len() as u64);
        more.append(" 軸");
        out.append(more.as_str());
    } else {
        out.append("");
    }
    out
}

/// The places of the control loop, in the order of a period.
#[derive(Clone, Copy, Debug, PartialEq, Eq, Structural)]
pub enum LoopPhase {
    /// Ask the pilot, unless the loop is to stop.
    Poll,
    /// Take the controller one period forward.
    Control,
    /// Switch the motors' power.
    SwitchPower,
    /// Look at how the joints follow.
    Watch,
    /// Let the whole-body controller solve, and put the command together.
    Solve,
    /// Put the command through the safety gate.
    Limit,
    /// Record what goes out, with what it was computed from.
    Record,
    /// Send the command and take the next observation.
    Exchange,
    Publish,
    Status,
    /// Sleep until the next period.
    Pace,
    CloseRecording,
    /// Cut the motors' power.
    Disarm,
    Ended,
}

/// What decides where the loop goes on.
#[derive(Clone, Copy, Debug, PartialEq, Eq, Structural)]
pub struct LoopFacts {
    pub stop_requested: bool,
    /// The phase that just ran has failed.
    pub failed: bool,
    /// The controller wants the legs limp.
    pub legs_idle: bool,
    pub power: Power,
    pub recording: bool,
    pub publishing: bool,
    pub status_due: bool,
}

/// Where a loop that is given up goes.
pub open spec fn closing(f: LoopFacts) -> LoopPhase {
    if f.recording {
        LoopPhase::CloseRecording
    } else {
        LoopPhase::Disarm
    }
}

/// Following is watched only while there is something to follow.
pub open spec fn after_power(f: LoopFacts) -> LoopPhase {
    if f.legs_idle {
        LoopPhase::Solve
    } else {
        LoopPhase::Watch
    }
}

pub open spec fn status_or_pace(f: LoopFacts) -> LoopPhase {
    if f.status_due {
        LoopPhase::Status
    } else {
        LoopPhase::Pace
    }
}

/// The phase that follows. A power switch or an exchange that fails ends the
/// loop; so does a stop request, before the next period begins.
pub open spec fn next_spec(phase: LoopPhase, f: LoopFacts) -> LoopPhase {
    match phase {
        LoopPhase::Poll => if f.stop_requested {
            closing(f)
        } else {
            LoopPhase::Control
        },
        LoopPhase::Control => if f.power is Keep {
            after_power(f)
        } else {
            LoopPhase::SwitchPower
        },
        LoopPhase::SwitchPower => if f.failed {
            closing(f)
        } else {
            after_power(f)
        },
        LoopPhase::Watch => LoopPhase::Solve,
        LoopPhase::Solve => LoopPhase::Limit,
        LoopPhase::Limit => if f.recording {
            LoopPhase::Record
        } else {
            LoopPhase::Exchange
        },
        LoopPhase::Record => LoopPhase::Exchange,
        LoopPhase::Exchange => if f.failed {
            closing(f)
        } else if f.publishing {
            LoopPhase::Publish
        } else {
            status_or_pace(f)
        },
        LoopPhase::Publish => status_or_pace(f),
        LoopPhase::Status => LoopPhase::Pace,
        LoopPhase::Pace => LoopPhase::Poll,
        LoopPhase::CloseRecording => LoopPhase::Disarm,
        LoopPhase::Disarm => LoopPhase::Ended,
        LoopPhase::Ended => LoopPhase::Ended,
    }
}

pub fn next_phase(phase: LoopPhase, f: &LoopFacts) -> (r: LoopPhase)
    ensures
        r == next_spec(phase, *f),
{
    let close: LoopPhase = if f.recording {
        LoopPhase::CloseRecording
    } else {
        LoopPhase::Disarm
    };
    let powered: LoopPhase = if f.legs_idle {
        LoopPhase::Solve
    } else {
        LoopPhase::Watch
    };
    let told: LoopPhase = if f.status_due {
        LoopPhase::Status
    } else {
        LoopPhase::Pace
    };
    match phase {
        LoopPhase::Poll => if f.stop_requested {
            close
        } else {
            LoopPhase::Control
        },
        LoopPhase::Control => if f.power == Power::Keep {
            powered
        } else {
            LoopPhase::SwitchPower
        },
        LoopPhase::SwitchPower => if f.failed {
            close
        } else {
            powered
        },
        LoopPhase::Watch => LoopPhase::Solve,
        LoopPhase::Solve => LoopPhase::Limit,
        LoopPhase::Limit => if f.recording {
            LoopPhase::Record
        } else {
            LoopPhase::Exchange
        },
        LoopPhase::Record => LoopPhase::Exchange,
        LoopPhase::Exchange => if f.failed {
            close
        } else if f.publishing {
            LoopPhase::Publish
        } else {
            told
        },
        LoopPhase::Publish => told,
        LoopPhase::Status => LoopPhase::Pace,
        LoopPhase::Pace => LoopPhase::Poll,
        LoopPhase::CloseRecording => LoopPhase::Disarm,
        LoopPhase::Disarm => LoopPhase::Ended,
        LoopPhase::Ended => LoopPhase::Ended,
    }
}

/// The phases from `phase` on, under the facts `f` at each of them.
pub open spec fn course(phase: LoopPhase, f: Seq<LoopFacts>, n: int) -> LoopPhase
    decreases n,
{
    if n <= 0 {
        phase
    } else {
        next_spec(course(phase, f, n - 1), f[n - 1])
    }
}

/// Nothing is sent, and nothing is recorded as sent, that has not just been
/// through the safety gate.
pub proof fn only_limited_commands_are_sent(phase: LoopPhase, f: LoopFacts)
    ensures
        next_spec(phase, f) is Exchange ==> phase is Limit || phase is Record,
        next_spec(phase, f) is Record ==> phase is Limit,
{
}

/// However the loop ends, the motors' power is cut last.
pub proof fn the_loop_ends_without_power(phase: LoopPhase, f: LoopFacts)
    requires
        !(phase is Ended),
        next_spec(phase, f) is Ended,
    ensures
        phase is Disarm,
{
}

/// How many phases a loop that is to stop still goes through, at most.
pub open spec fn phases_left(phase: LoopPhase) -> int {
    match phase {
        LoopPhase::Control => 13,
        LoopPhase::SwitchPower => 12,
        LoopPhase::Watch => 11,
        LoopPhase::Solve => 10,
        LoopPhase::Limit => 9,
        LoopPhase::Record => 8,
        LoopPhase::Exchange => 7,
        LoopPhase::Publish => 6,
        LoopPhase::Status => 5,
        LoopPhase::Pace => 4,
        LoopPhase::Poll => 3,
        LoopPhase::CloseRecording => 2,
        LoopPhase::Disarm => 1,
        LoopPhase::Ended => 0,
    }
}

/// A loop that is asked to stop comes to its end: it finishes the period that
/// it is in and begins no other.
pub proof fn a_stop_request_ends_the_loop(phase: LoopPhase, f: Seq<LoopFacts>, n: int)
    requires
        0 <= n <= f.len(),
        forall|i: int| 0 <= i < n ==> (#[trigger] f[i]).stop_requested,
    ensures
        phases_left(course(phase, f, n)) <= if phases_left(phase) > n {
            phases_left(phase) - n
        } else {
            0
        },
    decreases n,
{
    if n > 0 {
        a_stop_request_ends_the_loop(phase, f, n - 1);
    }
}

/// Before the first reading nothing but going limp is let through, and never
/// more than was asked for.
pub proof fn unread_robots_stay_limp(want: ModeRequest, unread: bool)
    ensures
        let_through(want, unread).activity() <= want.activity(),
        let_through(want, true) is Relax,
        let_through(want, false) == want,
{
}

/// Until every commanded axis has been read the motors are never switched on,
/// whatever the pilot asks for and whatever the controller was doing.
pub proof fn an_unread_robot_is_never_armed(
    s: LoopState,
    c: ControllerView,
    want: ModeRequest,
    cmd: Intent,
    facts: Facts,
    began: State,
)
    requires
        !s.measured_seen,
        cmd.mode == let_through(want, !s.measured_seen),
    ensures
        ({
            let legs_idle = c.after_period(cmd, facts, began).state is Relaxed;
            legs_idle && !(s.power_spec(legs_idle) is Arm)
        }),
{
}

/// The start ends only by passing every step that the options ask for, in order:
/// at most seven steps are left from any of them.
pub proof fn the_start_ends(stage: StartStage, opts: StartOptions)
    ensures
        stages_left(next_stage(stage, opts)) < stages_left(stage) || stage is Done,
{
}

/// An upper bound of the steps that are left.
pub open spec fn stages_left(stage: StartStage) -> int {
    match stage {
        StartStage::Receiver => 7,
        StartStage::Imu => 6,
        StartStage::Anchors => 5,
        StartStage::FirstRead => 4,
        StartStage::Switch => 3,
        StartStage::Multiturn => 2,
        StartStage::Frame => 1,
        StartStage::Done => 0,
    }
}

/// The worst is at least every value that is a number, and is one of them or
/// what it was before.
pub proof fn the_worst_is_the_largest(start: Worst, values: Seq<Scalar>, n: int)
    requires
        0 <= n <= values.len() <= usize::MAX,
        !start.value.nan(),
    ensures
        !worst_spec(start, values, n).value.nan(),
        start.value.le_num(worst_spec(start, values, n).value),
        forall|i: int|
            0 <= i < n && !(#[trigger] values[i]).nan() ==> values[i].le_num(
                worst_spec(start, values, n).value,
            ),
        worst_spec(start, values, n) == start || exists|i: int|
            0 <= i < n && worst_spec(start, values, n).value == #[trigger] values[i] && worst_spec(
                start,
                values,
                n,
            ).at == Some(i as usize),
    decreases n,
{
    if n > 0 {
        the_worst_is_the_largest(start, values, n - 1);
        let before = worst_spec(start, values, n - 1);
        assert forall|i: int| 0 <= i < n && !(#[trigger] values[i]).nan() implies values[i].le_num(
            worst_spec(start, values, n).value,
        ) by {
            if i < n - 1 {
                assert(values[i].le_num(before.value));
            }
        }
        assert(values[n - 1] == values[n - 1]);
    }
}

/// The motors have power exactly when the legs are not to be limp: power is
/// switched on for legs that are to move, off for limp ones, and left alone where
/// it is right already.
pub proof fn power_follows_the_legs(s: LoopState, legs_idle: bool)
    ensures
        s.motors_enabled && legs_idle <==> s.power_spec(legs_idle) == Power::Disarm,
        !s.motors_enabled && !legs_idle <==> s.power_spec(legs_idle) == Power::Arm,
        s.motors_enabled != legs_idle <==> s.power_spec(legs_idle) == Power::Keep,
{
}

/// A robot is ready once it has been read, for good; until then it is waited for,
/// which is said once.
pub proof fn a_robot_is_ready_once_read(s: LoopState, all_read: bool)
    ensures
        s.measured_seen ==> s.readiness(all_read) == Readiness::Ready,
        !s.measured_seen && all_read ==> s.readiness(all_read) == Readiness::Arrived,
        !s.measured_seen && !all_read ==> s.readiness(all_read) == (Readiness::Waiting {
            say: !s.warned_unread,
        }),
{
}

/// A tilt is reported when it begins and when it ends.
pub proof fn a_tilt_is_reported_at_its_ends(s: LoopState, tilted: bool)
    ensures
        s.tilt_report(tilted) == TiltReport::Tilted <==> tilted && !s.tilt_reported,
        s.tilt_report(tilted) == TiltReport::Recovered <==> !tilted && s.tilt_reported,
{
}

/// The joints reported as out of range are exactly those below the lower or above
/// the upper end of their range, in order.
pub proof fn excursions_are_exactly_the_joints_outside(limits: Seq<(Scalar, Scalar)>, q: JointVec, n: int)
    requires
        0 <= n <= usize::MAX,
    ensures
        forall|i: usize| #[trigger]
            excursions(limits, q, n).contains(i) <==> i < n && (q.joint(i as int).lt_num(
                limits[i as int].0,
            ) || limits[i as int].1.lt_num(q.joint(i as int))),
        forall|j: int, k: int|
            0 <= j < k < excursions(limits, q, n).len() ==> #[trigger] excursions(limits, q, n)[j]
                < #[trigger] excursions(limits, q, n)[k],
    decreases n,
{
    if n > 0 {
        excursions_are_exactly_the_joints_outside(limits, q, n - 1);
        let shorter = excursions(limits, q, n - 1);
        let all = excursions(limits, q, n);
        assert forall|i: usize| #[trigger] all.contains(i) <==> i < n && (q.joint(i as int).lt_num(
            limits[i as int].0,
        ) || limits[i as int].1.lt_num(q.joint(i as int))) by {
            assert(shorter.contains(i) <==> i < n - 1 && left_range(limits, q, i as int));
            if all.contains(i) {
                let k = choose|k: int| 0 <= k < all.len() && all[k] == i;
                if k < shorter.len() {
                    assert(shorter[k] == i);
                }
            }
            if shorter.contains(i) {
                let k = choose|k: int| 0 <= k < shorter.len() && shorter[k] == i;
                assert(all[k] == i);
            }
            if i == n - 1 && left_range(limits, q, n - 1) {
                assert(all[all.len() - 1] == i);
            }
        }
        assert forall|j: int, k: int| 0 <= j < k < all.len() implies #[trigger] all[j]
            < #[trigger] all[k] by {
            if k == shorter.len() {
                assert(shorter.contains(shorter[j]));
            }
        }
    }
}

/// The start goes through every step in its order. Leaving the multi-turn frames
/// alone skips waiting for them, starting without a receiver skips its switch, and
/// nothing else is ever skipped.
pub proof fn the_start_skips_only_what_it_is_told_to(opts: StartOptions)
    ensures
        next_stage(StartStage::Receiver, opts) == StartStage::Imu,
        next_stage(StartStage::Imu, opts) == (if opts.skip_zero {
            StartStage::FirstRead
        } else {
            StartStage::Anchors
        }),
        next_stage(StartStage::Anchors, opts) == StartStage::FirstRead,
        next_stage(StartStage::FirstRead, opts) == (if opts.allow_no_sbus {
            StartStage::Multiturn
        } else {
            StartStage::Switch
        }),
        next_stage(StartStage::Switch, opts) == StartStage::Multiturn,
        next_stage(StartStage::Multiturn, opts) == StartStage::Frame,
        next_stage(StartStage::Frame, opts) == StartStage::Done,
{
}

/// A failed step ends the start, except that the inertial unit and the comparison
/// of the frame may fail, and the receiver where that is allowed.
pub proof fn a_failed_step_ends_the_start(stage: StartStage, opts: StartOptions)
    ensures
        stage is Imu || stage is Frame ==> tolerated(stage, opts),
        stage is Receiver ==> tolerated(stage, opts) == opts.allow_no_sbus,
        stage is Anchors || stage is FirstRead || stage is Switch || stage is Multiturn || stage is Done
            ==> !tolerated(stage, opts),
{
}

/// Each output of the whole-body controller needs the control mode of its name.
pub proof fn an_output_needs_its_own_mode(output: WbcOutput)
    ensures
        output is Torque <==> mode_for(output) == ControlMode::Torque,
        output is Velocity <==> mode_for(output) == ControlMode::Velocity,
        output is Position <==> mode_for(output) == ControlMode::Position,
{
}

/// A period runs in its order: ask, control, switch the power where it changes,
/// watch the legs where they are driven, solve, limit, record where a recording
/// runs, exchange, publish and show the status where due, and sleep.
pub proof fn a_period_runs_in_its_order(f: LoopFacts)
    ensures
        ({
            let power = if f.legs_idle { LoopPhase::Solve } else { LoopPhase::Watch };
            let rest = if f.status_due { LoopPhase::Status } else { LoopPhase::Pace };
            &&& !f.stop_requested ==> next_spec(LoopPhase::Poll, f) == LoopPhase::Control
            &&& f.power == Power::Keep ==> next_spec(LoopPhase::Control, f) == power
            &&& f.power != Power::Keep ==> next_spec(LoopPhase::Control, f) == LoopPhase::SwitchPower
            &&& !f.failed ==> next_spec(LoopPhase::SwitchPower, f) == power
            &&& next_spec(LoopPhase::Watch, f) == LoopPhase::Solve
            &&& next_spec(LoopPhase::Solve, f) == LoopPhase::Limit
            &&& f.recording ==> next_spec(LoopPhase::Limit, f) == LoopPhase::Record
            &&& !f.recording ==> next_spec(LoopPhase::Limit, f) == LoopPhase::Exchange
            &&& next_spec(LoopPhase::Record, f) == LoopPhase::Exchange
            &&& !f.failed && f.publishing ==> next_spec(LoopPhase::Exchange, f) == LoopPhase::Publish
            &&& !f.failed && !f.publishing ==> next_spec(LoopPhase::Exchange, f) == rest
            &&& next_spec(LoopPhase::Publish, f) == rest
            &&& next_spec(LoopPhase::Status, f) == LoopPhase::Pace
            &&& next_spec(LoopPhase::Pace, f) == LoopPhase::Poll
        }),
{
}

/// A stop request before a period, a power switch that fails and an exchange that
/// fails each end the loop: the recording is closed if there is one, and the power
/// is cut. Nothing else ends it.
pub proof fn the_loop_closes_its_recording_and_cuts_the_power(phase: LoopPhase, f: LoopFacts)
    ensures
        ({
            let ends = phase is Poll && f.stop_requested || (phase is SwitchPower || phase is Exchange)
                && f.failed;
            &&& ends && f.recording ==> next_spec(phase, f) == LoopPhase::CloseRecording
            &&& ends && !f.recording ==> next_spec(phase, f) == LoopPhase::Disarm
            &&& next_spec(LoopPhase::CloseRecording, f) == LoopPhase::Disarm
            &&& next_spec(LoopPhase::Disarm, f) == LoopPhase::Ended
            &&& next_spec(LoopPhase::Ended, f) == LoopPhase::Ended
            &&& !ends && !(phase is CloseRecording || phase is Disarm || phase is Ended) ==> {
                let next = next_spec(phase, f);
                !(next is CloseRecording || next is Disarm || next is Ended)
            }
        }),
{
}

/// A recording without gaps is reported by its count alone; one with gaps says
/// how many periods are missing, behind the count.
pub proof fn gaps_in_a_recording_are_reported(written: u64, dropped: u64)
    ensures
        text::begins(recorded_spec(written, dropped), text::decimal(written as nat)),
        dropped > 0 ==> text::begins(
            recorded_spec(written, dropped),
            text::decimal(written as nat) + " 周期を記録しました（"@ + text::decimal(dropped as nat),
        ),
        dropped > 0 ==> recorded_spec(written, 0).len() < recorded_spec(written, dropped).len(),
{
    reveal_strlit(" 周期を記録しました（");
    reveal_strlit(" 周期を記録しました");
    let count = text::decimal(written as nat);
    let gaps = text::decimal(dropped as nat);
    let m = recorded_spec(written, dropped);
    assert(m.take(count.len() as int) == count);
    if dropped > 0 {
        let head = count + " 周期を記録しました（"@ + gaps;
        assert(m.take(head.len() as int) == head);
        assert(" 周期を記録しました（"@.len() > " 周期を記録しました"@.len());
    }
}

/// The line about the safety gate names the three counts in their order. A fault
/// and a held target lengthen it; without them it ends with the torques.
pub proof fn the_line_about_the_gate_names_what_happened(
    clamped: nat,
    rate_limited: nat,
    torque_limited: nat,
    held: bool,
    faulted: nat,
)
    ensures
        ({
            let counts = "安全ゲート: 可動域 "@ + text::decimal(clamped) + " 軸 / 変化率 "@ + text::decimal(
                rate_limited,
            ) + " 軸 / トルク "@ + text::decimal(torque_limited) + " 軸"@;
            let line = gate_spec(clamped, rate_limited, torque_limited, held, faulted);
            &&& !held && faulted == 0 ==> line == counts
            &&& held && faulted == 0 ==> line == counts + " / 観測が古いので目標を進めていません"@
            &&& !held && faulted > 0 ==> line == counts + " / 異常ビット "@ + text::decimal(faulted)
                + " 軸"@
        }),
{
    reveal_strlit("");
    let counts = "安全ゲート: 可動域 "@ + text::decimal(clamped) + " 軸 / 変化率 "@ + text::decimal(
        rate_limited,
    ) + " 軸 / トルク "@ + text::decimal(torque_limited) + " 軸"@;
    let line = gate_spec(clamped, rate_limited, torque_limited, held, faulted);
    assert(""@.len() == 0);
    if !held && faulted == 0 {
        assert(line == counts);
    }
    if held && faulted == 0 {
        assert(line == counts + " / 観測が古いので目標を進めていません"@);
    }
    if !held && faulted > 0 {
        assert(line == counts + " / 異常ビット "@ + text::decimal(faulted) + " 軸"@);
    }
}

} // verus!
