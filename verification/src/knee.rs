//! Turning the knees over: the order of the steps.
//!
//! A leg whose knee is to bend the other way has to be lifted, straightened and
//! folded again. This module lays out the steps: what moves, which feet stay on
//! the ground, which way each knee bends at each step, and where a balance
//! correction applies. The joint angles of a step come from the leg kinematics.

use vstd::prelude::*;
use vstd::string::*;

use crate::config::{KneeFlipStyle, KneeShape};
use crate::legs::LegFlags;
use crate::scalar::Scalar;
use crate::text;
use crate::text::push_decimal;

verus! {

/// What a step does to the legs it moves.
#[derive(Clone, Copy, Debug, PartialEq, Eq, Structural)]
pub enum Motion {
    /// Shift the body so that the legs to be lifted are unloaded.
    Lean,
    /// Lift one foot to put it elsewhere.
    Raise,
    /// Carry that foot over.
    Carry,
    /// Put it down.
    Place,
    /// Bring the body back over the feet.
    Centre,
    /// Lower the body, one third at a time.
    Lower(u8),
    /// Lift all feet while the body rests.
    Float,
    Fold,
    /// Swing the hips outward.
    RollOut,
    /// Point the thighs away.
    SwingOut,
    Straighten,
    /// Fold the calves the other way.
    FoldBack,
    /// Bring the thighs back with the hips still out.
    ThighHome,
    /// Bring the legs back to where they land.
    Home,
    /// Bring the other feet to their new places.
    Align,
    /// Put the feet on the ground.
    Ground,
    /// Raise the body, one third at a time.
    Rise(u8),
    /// Lift a diagonal a little to feel where the mass is.
    ProbeUp(u64),
    ProbeHold(u64),
    ProbeDown(u64),
    /// Shift the body to where the mass was found to be.
    Readjust(u64),
    /// Lift the feet with the hips swung outward.
    Lift,
    /// Turn thighs and calves to the new side at once.
    Turn,
    /// Put the turned feet down.
    Land,
}

/// How long a step takes.
#[derive(Clone, Copy, Debug, PartialEq, Eq, Structural)]
pub enum StepTime {
    Phase,
    TwoPhases,
    TwoThirdsOfPhase,
    StandPhase,
    TwoStandPhases,
    ProbeMove,
    ProbeHold,
    /// Six tenths of a second.
    Readjust,
}

/// The ground below the body during a step.
#[derive(Clone, Copy, Debug, PartialEq, Eq, Structural)]
pub enum Floor {
    /// At standing height.
    Stance,
    /// At the height at which the body rests.
    Rest,
    /// At the height at which legs are turned.
    Flip,
}

/// What may be overridden while a step runs.
#[derive(Clone, Copy, Debug, PartialEq, Eq, Structural)]
pub enum KneeStepKind {
    /// As planned; on two legs the balance feedback shifts the feet.
    Normal,
    /// Lifting or lowering to probe: the shift is frozen.
    ProbeMove,
    /// Holding to probe: the shift is frozen and the tilt rate is collected.
    ProbeHold,
    /// On four legs: move the body so that the mass is over the support line.
    Adjust,
}

impl Default for KneeStepKind {
    fn default() -> (r: KneeStepKind)
        ensures
            r is Normal,
    {
        KneeStepKind::Normal
    }
}

/// Which legs a step is named after.
#[derive(Clone, Copy, Debug, PartialEq, Eq, Structural)]
pub enum Tag {
    Everyone,
    Leg(usize),
    Diagonal(usize, usize),
}

/// The two legs of the support line.
#[derive(Clone, Copy, Debug, PartialEq, Eq, Structural)]
pub struct Support {
    pub a: usize,
    pub b: usize,
}

/// One step of the choreography.
#[derive(Clone, Copy, Debug, PartialEq, Eq, Structural)]
pub struct FlipStep {
    pub motion: Motion,
    pub tag: Tag,
    pub time: StepTime,
    /// The feet that carry the body.
    pub stance: LegFlags,
    /// Which knees bend forward at the end of the step.
    pub forward: LegFlags,
    pub floor: Floor,
    pub kind: KneeStepKind,
    pub support: Support,
    /// Whether the planned body shift of the support line applies.
    pub shifted: bool,
}

pub open spec fn leg_name_spec(slot: int) -> Seq<char> {
    if slot == 0 {
        "FL"@
    } else if slot == 1 {
        "FR"@
    } else if slot == 2 {
        "RL"@
    } else {
        "RR"@
    }
}

/// The short name of a leg.
pub fn leg_name(slot: usize) -> (r: &'static str)
    ensures
        r@ == leg_name_spec(slot as int),
{
    if slot == 0 {
        "FL"
    } else if slot == 1 {
        "FR"
    } else if slot == 2 {
        "RL"
    } else {
        "RR"
    }
}

impl Tag {
    pub open spec fn text(self) -> Seq<char> {
        match self {
            Tag::Everyone => ""@,
            Tag::Leg(s) => " "@ + leg_name_spec(s as int),
            Tag::Diagonal(a, b) => " "@ + leg_name_spec(a as int) + "+"@ + leg_name_spec(b as int),
        }
    }

    fn push(self, out: &mut String)
        ensures
            final(out)@ == old(out)@ + self.text(),
    {
        match self {
            Tag::Everyone => {
                out.append("");
            },
            Tag::Leg(s) => {
                out.append(" ");
                out.append(leg_name(s));
                assert(out@ == old(out)@ + self.text());
            },
            Tag::Diagonal(a, b) => {
                out.append(" ");
                out.append(leg_name(a));
                out.append("+");
                out.append(leg_name(b));
                assert(out@ == old(out)@ + self.text());
            },
        }
    }
}

/// The words before and after the legs' names in a step's name.
pub open spec fn words(motion: Motion) -> (Seq<char>, Seq<char>) {
    match motion {
        Motion::Lean => ("寄せる"@, ""@),
        Motion::Raise => ("広げる"@, ": 浮かす"@),
        Motion::Carry => ("広げる"@, ": 移す"@),
        Motion::Place => ("広げる"@, ": 着ける"@),
        Motion::Centre => ("中央へ"@, ""@),
        Motion::Lower(i) => ("下ろす "@ + text::decimal(i as nat) + "/3"@, ""@),
        Motion::Float => ("浮かす"@, ""@),
        Motion::Fold => ("畳む"@, ""@),
        Motion::RollOut => ("倒す"@, ""@),
        Motion::SwingOut => ("振り出す"@, ""@),
        Motion::Straighten => ("伸ばす"@, ""@),
        Motion::FoldBack => ("逆へ畳む"@, ""@),
        Motion::ThighHome => ("戻す"@, " 腿"@),
        Motion::Home => ("戻す"@, ""@),
        Motion::Align => ("揃える"@, ""@),
        Motion::Ground => ("着ける"@, ""@),
        Motion::Rise(i) => ("上げる "@ + text::decimal(i as nat) + "/3"@, ""@),
        Motion::ProbeUp(n) => ("探る"@, " 上げ "@ + text::decimal(n as nat)),
        Motion::ProbeHold(n) => ("探る"@, " 保持 "@ + text::decimal(n as nat)),
        Motion::ProbeDown(n) => ("探る"@, " 下げ "@ + text::decimal(n as nat)),
        Motion::Readjust(n) => ("寄せ直し"@, " "@ + text::decimal(n as nat)),
        Motion::Lift => ("浮かす"@, ""@),
        Motion::Turn => ("反転"@, ""@),
        Motion::Land => ("着ける"@, ""@),
    }
}

fn with_number(head: &str, n: u64, tail: &str) -> (r: String)
    ensures
        r@ == head@ + text::decimal(n as nat) + tail@,
{
    let mut out: String = head.to_owned();
    push_decimal(&mut out, n);
    out.append(tail);
    out
}

fn ending(head: &str, n: u64) -> (r: String)
    ensures
        r@ == head@ + text::decimal(n as nat),
{
    let mut out: String = head.to_owned();
    push_decimal(&mut out, n);
    out
}

fn plain(head: &str, tail: &str) -> (r: (String, String))
    ensures
        r.0@ == head@,
        r.1@ == tail@,
{
    (head.to_owned(), tail.to_owned())
}

fn name_parts(motion: Motion) -> (r: (String, String))
    ensures
        (r.0@, r.1@) == words(motion),
{
    match motion {
        Motion::Lean => plain("寄せる", ""),
        Motion::Raise => plain("広げる", ": 浮かす"),
        Motion::Carry => plain("広げる", ": 移す"),
        Motion::Place => plain("広げる", ": 着ける"),
        Motion::Centre => plain("中央へ", ""),
        Motion::Lower(i) => (with_number("下ろす ", i as u64, "/3"), "".to_owned()),
        Motion::Float => plain("浮かす", ""),
        Motion::Fold => plain("畳む", ""),
        Motion::RollOut => plain("倒す", ""),
        Motion::SwingOut => plain("振り出す", ""),
        Motion::Straighten => plain("伸ばす", ""),
        Motion::FoldBack => plain("逆へ畳む", ""),
        Motion::ThighHome => plain("戻す", " 腿"),
        Motion::Home => plain("戻す", ""),
        Motion::Align => plain("揃える", ""),
        Motion::Ground => plain("着ける", ""),
        Motion::Rise(i) => (with_number("上げる ", i as u64, "/3"), "".to_owned()),
        Motion::ProbeUp(n) => ("探る".to_owned(), ending(" 上げ ", n)),
        Motion::ProbeHold(n) => ("探る".to_owned(), ending(" 保持 ", n)),
        Motion::ProbeDown(n) => ("探る".to_owned(), ending(" 下げ ", n)),
        Motion::Readjust(n) => ("寄せ直し".to_owned(), ending(" ", n)),
        Motion::Lift => plain("浮かす", ""),
        Motion::Turn => plain("反転", ""),
        Motion::Land => plain("着ける", ""),
    }
}

impl FlipStep {
    pub open spec fn name_spec(self) -> Seq<char> {
        words(self.motion).0 + self.tag.text() + words(self.motion).1
    }

    /// The step's name, for display.
    pub fn name(self) -> (r: String)
        ensures
            r@ == self.name_spec(),
    {
        let (mut out, tail) = name_parts(self.motion);
        self.tag.push(&mut out);
        out.append(tail.as_str());
        out
    }
}

/// What the choreography depends on.
#[derive(Clone, Copy, Debug, PartialEq, Eq)]
pub struct FlipRequest {
    pub old: KneeShape,
    pub new: KneeShape,
    pub style: KneeFlipStyle,
    /// Body height at rest, where the robot can rest.
    pub rest_height_m: Option<Scalar>,
    /// Body height when standing.
    pub stance_height_m: Scalar,
    /// Resting: feet that are not where the body can be lowered onto them.
    pub apart: LegFlags,
    /// Resting: feet that already are there.
    pub settled: LegFlags,
    /// Resting: feet whose place differs between the old and the new knees.
    pub relocated: LegFlags,
    pub probe_rounds: u64,
    pub probe_lift_m: Scalar,
}

#[derive(Clone, Copy, Debug, PartialEq, Eq, Structural)]
pub enum FlipError {
    /// No knee changes its direction.
    NothingToFlip,
    /// The robot is not known to be able to rest.
    NoRestHeight,
    /// The resting body would not be lower than the standing one.
    RestTooHigh,
}

impl FlipRequest {
    /// The legs to turn over.
    pub open spec fn flips(self, slot: int) -> bool {
        self.old.forward_spec(slot) != self.new.forward_spec(slot)
    }

    pub open spec fn flip_flags(self) -> LegFlags {
        LegFlags {
            fl: self.flips(0),
            fr: self.flips(1),
            rl: self.flips(2),
            rr: self.flips(3),
        }
    }

    /// Knee directions once the legs in `done` are turned.
    pub open spec fn knees(self, done: LegFlags) -> LegFlags {
        LegFlags {
            fl: if done.fl { self.new.forward_spec(0) } else { self.old.forward_spec(0) },
            fr: if done.fr { self.new.forward_spec(1) } else { self.old.forward_spec(1) },
            rl: if done.rl { self.new.forward_spec(2) } else { self.old.forward_spec(2) },
            rr: if done.rr { self.new.forward_spec(3) } else { self.old.forward_spec(3) },
        }
    }

    pub open spec fn error(self) -> Option<FlipError> {
        if self.flip_flags().count_spec() == 0 {
            Some(FlipError::NothingToFlip)
        } else if self.style is Rest && self.rest_height_m is None {
            Some(FlipError::NoRestHeight)
        } else if self.style is Rest && self.stance_height_m.le_num(self.rest_height_m->0) {
            Some(FlipError::RestTooHigh)
        } else {
            None
        }
    }

    fn flags(&self) -> (r: LegFlags)
        ensures
            r == self.flip_flags(),
    {
        LegFlags {
            fl: self.old.forward(0) != self.new.forward(0),
            fr: self.old.forward(1) != self.new.forward(1),
            rl: self.old.forward(2) != self.new.forward(2),
            rr: self.old.forward(3) != self.new.forward(3),
        }
    }

    fn knees_now(&self, done: LegFlags) -> (r: LegFlags)
        ensures
            r == self.knees(done),
    {
        LegFlags {
            fl: if done.fl { self.new.forward(0) } else { self.old.forward(0) },
            fr: if done.fr { self.new.forward(1) } else { self.old.forward(1) },
            rl: if done.rl { self.new.forward(2) } else { self.old.forward(2) },
            rr: if done.rr { self.new.forward(3) } else { self.old.forward(3) },
        }
    }
}

/// The support line where no diagonal has been chosen: front right to rear left.
pub open spec fn usual_support() -> Support {
    Support { a: 1, b: 2 }
}

/// A step on all four feet or on fewer, without anything to override.
pub open spec fn step_of(
    motion: Motion,
    tag: Tag,
    time: StepTime,
    stance: LegFlags,
    forward: LegFlags,
    floor: Floor,
) -> FlipStep {
    FlipStep {
        motion,
        tag,
        time,
        stance,
        forward,
        floor,
        kind: KneeStepKind::Normal,
        support: usual_support(),
        shifted: false,
    }
}

fn plain_step(
    motion: Motion,
    tag: Tag,
    time: StepTime,
    stance: LegFlags,
    forward: LegFlags,
    floor: Floor,
) -> (r: FlipStep)
    ensures
        r == step_of(motion, tag, time, stance, forward, floor),
{
    FlipStep {
        motion,
        tag,
        time,
        stance,
        forward,
        floor,
        kind: KneeStepKind::Normal,
        support: Support { a: 1, b: 2 },
        shifted: false,
    }
}

// ---- One leg at a time, standing on the other three ----

/// The steps that turn leg `slot`, when the legs in `done` have been turned.
pub open spec fn stand_leg(req: FlipRequest, slot: usize, done: LegFlags) -> Seq<FlipStep> {
    let all = LegFlags::all_spec();
    let lifted = all.with(slot as int, false);
    let before = req.knees(done);
    let after = req.knees(done.with(slot as int, true));
    let tag = Tag::Leg(slot);
    let first = !(req.flips(0) && done.fl) && !(req.flips(1) && done.fr) && !(req.flips(2) && done.rl)
        && !(req.flips(3) && done.rr);
    let lean = if first { StepTime::TwoStandPhases } else { StepTime::StandPhase };
    if !req.flips(slot as int) {
        Seq::empty()
    } else {
        seq![
            step_of(Motion::Lean, tag, lean, all, before, Floor::Flip),
            step_of(Motion::Lift, tag, StepTime::StandPhase, lifted, before, Floor::Flip),
            step_of(Motion::Turn, tag, StepTime::StandPhase, lifted, after, Floor::Flip),
            step_of(Motion::Home, tag, StepTime::StandPhase, lifted, after, Floor::Flip),
            step_of(Motion::Land, tag, StepTime::StandPhase, all, after, Floor::Flip),
        ]
    }
}

/// Diagonal neighbours follow each other: front left, rear right, front right,
/// rear left; then the body goes back to the middle.
pub open spec fn stand_plan(req: FlipRequest) -> Seq<FlipStep> {
    let none = LegFlags::none_spec();
    let one = none.with(0, true);
    let two = one.with(3, true);
    let three = two.with(1, true);
    let four = three.with(2, true);
    stand_leg(req, 0, none) + stand_leg(req, 3, one) + stand_leg(req, 1, two) + stand_leg(req, 2, three)
        + seq![
        step_of(
            Motion::Centre,
            Tag::Everyone,
            StepTime::TwoStandPhases,
            LegFlags::all_spec(),
            req.knees(four),
            Floor::Stance,
        ),
    ]
}

fn push_stand_leg(out: &mut Vec<FlipStep>, req: &FlipRequest, slot: usize, done: LegFlags)
    requires
        slot < 4,
    ensures
        final(out)@ == old(out)@ + stand_leg(*req, slot, done),
{
    let flips = req.flags();
    if flips.get(slot) {
        let all = LegFlags::all();
        let lifted = all.set(slot, false);
        let before = req.knees_now(done);
        let after = req.knees_now(done.set(slot, true));
        let tag = Tag::Leg(slot);
        let first: bool = !(flips.fl && done.fl) && !(flips.fr && done.fr) && !(flips.rl && done.rl) && !(
        flips.rr && done.rr);
        let lean = if first { StepTime::TwoStandPhases } else { StepTime::StandPhase };
        out.push(plain_step(Motion::Lean, tag, lean, all, before, Floor::Flip));
        out.push(plain_step(Motion::Lift, tag, StepTime::StandPhase, lifted, before, Floor::Flip));
        out.push(plain_step(Motion::Turn, tag, StepTime::StandPhase, lifted, after, Floor::Flip));
        out.push(plain_step(Motion::Home, tag, StepTime::StandPhase, lifted, after, Floor::Flip));
        out.push(plain_step(Motion::Land, tag, StepTime::StandPhase, all, after, Floor::Flip));
    }
    assert(out@ == old(out)@ + stand_leg(*req, slot, done));
}

fn plan_standing(req: &FlipRequest) -> (r: Vec<FlipStep>)
    ensures
        r@ == stand_plan(*req),
{
    let mut out: Vec<FlipStep> = Vec::new();
    let none = LegFlags::none();
    let one = none.set(0, true);
    let two = one.set(3, true);
    let three = two.set(1, true);
    let four = three.set(2, true);
    push_stand_leg(&mut out, req, 0, none);
    push_stand_leg(&mut out, req, 3, one);
    push_stand_leg(&mut out, req, 1, two);
    push_stand_leg(&mut out, req, 2, three);
    out.push(
        plain_step(
            Motion::Centre,
            Tag::Everyone,
            StepTime::TwoStandPhases,
            LegFlags::all(),
            req.knees_now(four),
            Floor::Stance,
        ),
    );
    out
}

// ---- A diagonal at a time, standing on the other one ----

/// A step of the diagonal that rests on `support`.
pub open spec fn diagonal_step(
    motion: Motion,
    tag: Tag,
    time: StepTime,
    stance: LegFlags,
    forward: LegFlags,
    kind: KneeStepKind,
    support: Support,
) -> FlipStep {
    FlipStep { motion, tag, time, stance, forward, floor: Floor::Flip, kind, support, shifted: true }
}

fn shifted_step(
    motion: Motion,
    tag: Tag,
    time: StepTime,
    stance: LegFlags,
    forward: LegFlags,
    kind: KneeStepKind,
    support: Support,
) -> (r: FlipStep)
    ensures
        r == diagonal_step(motion, tag, time, stance, forward, kind, support),
{
    FlipStep { motion, tag, time, stance, forward, floor: Floor::Flip, kind, support, shifted: true }
}

/// One round of probing: up, hold, down, and shift to where the mass is.
pub open spec fn probe_round(
    tag: Tag,
    lifted: LegFlags,
    forward: LegFlags,
    support: Support,
    round: u64,
) -> Seq<FlipStep> {
    let all = LegFlags::all_spec();
    seq![
        diagonal_step(
            Motion::ProbeUp(round),
            tag,
            StepTime::ProbeMove,
            lifted,
            forward,
            KneeStepKind::ProbeMove,
            support,
        ),
        diagonal_step(
            Motion::ProbeHold(round),
            tag,
            StepTime::ProbeHold,
            lifted,
            forward,
            KneeStepKind::ProbeHold,
            support,
        ),
        diagonal_step(
            Motion::ProbeDown(round),
            tag,
            StepTime::ProbeMove,
            all,
            forward,
            KneeStepKind::Normal,
            support,
        ),
        diagonal_step(
            Motion::Readjust(round),
            tag,
            StepTime::Readjust,
            all,
            forward,
            KneeStepKind::Adjust,
            support,
        ),
    ]
}

pub open spec fn probe_rounds(
    tag: Tag,
    lifted: LegFlags,
    forward: LegFlags,
    support: Support,
    rounds: nat,
) -> Seq<FlipStep>
    decreases rounds,
{
    if rounds == 0 {
        Seq::empty()
    } else {
        probe_rounds(tag, lifted, forward, support, (rounds - 1) as nat) + probe_round(
            tag,
            lifted,
            forward,
            support,
            rounds as u64,
        )
    }
}

/// Probing takes two lifted legs, at least one round and a lift to probe with.
pub open spec fn probing(req: FlipRequest, a: int, b: int) -> nat {
    if req.flips(a) && req.flips(b) && req.probe_lift_m.positive() {
        req.probe_rounds as nat
    } else {
        0
    }
}

/// The steps that turn the legs `a` and `b`, when the legs in `done` have been turned.
pub open spec fn trot_pair(
    req: FlipRequest,
    a: usize,
    b: usize,
    support: Support,
    done: LegFlags,
) -> Seq<FlipStep> {
    let all = LegFlags::all_spec();
    let lifted = all.with(a as int, !req.flips(a as int)).with(b as int, !req.flips(b as int));
    let before = req.knees(done);
    let after = req.knees(done.with(a as int, true).with(b as int, true));
    let tag = Tag::Diagonal(a, b);
    let normal = KneeStepKind::Normal;
    if !req.flips(a as int) && !req.flips(b as int) {
        Seq::empty()
    } else {
        seq![
            diagonal_step(
                Motion::Lean,
                tag,
                StepTime::TwoPhases,
                all,
                before,
                KneeStepKind::Adjust,
                support,
            ),
        ] + probe_rounds(tag, lifted, before, support, probing(req, a as int, b as int)) + seq![
            diagonal_step(Motion::Lift, tag, StepTime::Phase, lifted, before, normal, support),
            diagonal_step(Motion::Turn, tag, StepTime::Phase, lifted, after, normal, support),
            diagonal_step(Motion::Home, tag, StepTime::Phase, lifted, after, normal, support),
            diagonal_step(Motion::Land, tag, StepTime::Phase, all, after, normal, support),
        ]
    }
}

/// First front left with rear right, then front right with rear left; then the
/// body goes back to the middle.
pub open spec fn trot_plan(req: FlipRequest) -> Seq<FlipStep> {
    let none = LegFlags::none_spec();
    let half = none.with(0, true).with(3, true);
    let full = half.with(1, true).with(2, true);
    let last = if req.flips(1) || req.flips(2) {
        Support { a: 0, b: 3 }
    } else {
        Support { a: 1, b: 2 }
    };
    trot_pair(req, 0, 3, Support { a: 1, b: 2 }, none) + trot_pair(
        req,
        1,
        2,
        Support { a: 0, b: 3 },
        half,
    ) + seq![
        FlipStep {
            support: last,
            ..step_of(
                Motion::Centre,
                Tag::Everyone,
                StepTime::TwoPhases,
                LegFlags::all_spec(),
                req.knees(full),
                Floor::Stance,
            )
        },
    ]
}

fn push_probe_round(
    out: &mut Vec<FlipStep>,
    tag: Tag,
    lifted: LegFlags,
    forward: LegFlags,
    support: Support,
    round: u64,
)
    ensures
        final(out)@ == old(out)@ + probe_round(tag, lifted, forward, support, round),
{
    let all = LegFlags::all();
    out.push(
        shifted_step(
            Motion::ProbeUp(round),
            tag,
            StepTime::ProbeMove,
            lifted,
            forward,
            KneeStepKind::ProbeMove,
            support,
        ),
    );
    out.push(
        shifted_step(
            Motion::ProbeHold(round),
            tag,
            StepTime::ProbeHold,
            lifted,
            forward,
            KneeStepKind::ProbeHold,
            support,
        ),
    );
    out.push(
        shifted_step(
            Motion::ProbeDown(round),
            tag,
            StepTime::ProbeMove,
            all,
            forward,
            KneeStepKind::Normal,
            support,
        ),
    );
    out.push(
        shifted_step(
            Motion::Readjust(round),
            tag,
            StepTime::Readjust,
            all,
            forward,
            KneeStepKind::Adjust,
            support,
        ),
    );
    assert(out@ == old(out)@ + probe_round(tag, lifted, forward, support, round));
}

fn push_trot_pair(
    out: &mut Vec<FlipStep>,
    req: &FlipRequest,
    a: usize,
    b: usize,
    support: Support,
    done: LegFlags,
)
    requires
        a < 4,
        b < 4,
    ensures
        final(out)@ == old(out)@ + trot_pair(*req, a, b, support, done),
{
    let ghost start = out@;
    let flips = req.flags();
    if flips.get(a) || flips.get(b) {
        let all = LegFlags::all();
        let lifted = all.set(a, !flips.get(a)).set(b, !flips.get(b));
        let before = req.knees_now(done);
        let after = req.knees_now(done.set(a, true).set(b, true));
        let tag = Tag::Diagonal(a, b);
        let normal = KneeStepKind::Normal;
        out.push(
            shifted_step(
                Motion::Lean,
                tag,
                StepTime::TwoPhases,
                all,
                before,
                KneeStepKind::Adjust,
                support,
            ),
        );
        let ghost lean = out@.last();
        assert(out@ == start + seq![lean]);
        let rounds: u64 = if flips.get(a) && flips.get(b) && req.probe_lift_m.is_positive() {
            req.probe_rounds
        } else {
            0
        };
        let mut round: u64 = 0;
        while round < rounds
            invariant
                round <= rounds,
                out@ == start + seq![lean] + probe_rounds(tag, lifted, before, support, round as nat),
            decreases rounds - round,
        {
            round += 1;
            push_probe_round(out, tag, lifted, before, support, round);
        }
        out.push(shifted_step(Motion::Lift, tag, StepTime::Phase, lifted, before, normal, support));
        out.push(shifted_step(Motion::Turn, tag, StepTime::Phase, lifted, after, normal, support));
        out.push(shifted_step(Motion::Home, tag, StepTime::Phase, lifted, after, normal, support));
        out.push(shifted_step(Motion::Land, tag, StepTime::Phase, all, after, normal, support));
    }
    assert(out@ == start + trot_pair(*req, a, b, support, done));
}

fn plan_trotting(req: &FlipRequest) -> (r: Vec<FlipStep>)
    ensures
        r@ == trot_plan(*req),
{
    let mut out: Vec<FlipStep> = Vec::new();
    let flips = req.flags();
    let none = LegFlags::none();
    let half = none.set(0, true).set(3, true);
    let full = half.set(1, true).set(2, true);
    push_trot_pair(&mut out, req, 0, 3, Support { a: 1, b: 2 }, none);
    push_trot_pair(&mut out, req, 1, 2, Support { a: 0, b: 3 }, half);
    let mut centre = plain_step(
        Motion::Centre,
        Tag::Everyone,
        StepTime::TwoPhases,
        LegFlags::all(),
        req.knees_now(full),
        Floor::Stance,
    );
    if flips.fr || flips.rl {
        centre.support = Support { a: 0, b: 3 };
    }
    out.push(centre);
    out
}

// ---- All legs together, with the body resting ----

/// The steps that move foot `slot` to where the body can be lowered onto it.
pub open spec fn replace_foot(req: FlipRequest, slot: usize) -> Seq<FlipStep> {
    let all = LegFlags::all_spec();
    let lifted = all.with(slot as int, false);
    let knees = req.knees(LegFlags::none_spec());
    let tag = Tag::Leg(slot);
    if req.settled.at(slot as int) {
        Seq::empty()
    } else {
        seq![
            step_of(Motion::Lean, tag, StepTime::TwoPhases, all, knees, Floor::Stance),
            step_of(Motion::Raise, tag, StepTime::Phase, lifted, knees, Floor::Stance),
            step_of(Motion::Carry, tag, StepTime::Phase, lifted, knees, Floor::Stance),
            step_of(Motion::Place, tag, StepTime::Phase, all, knees, Floor::Stance),
        ]
    }
}

/// Moving all feet that are not where they should be.
pub open spec fn replace_feet(req: FlipRequest) -> Seq<FlipStep> {
    if req.apart.count_spec() == 0 {
        Seq::empty()
    } else {
        replace_foot(req, 0) + replace_foot(req, 3) + replace_foot(req, 1) + replace_foot(req, 2) + seq![
            step_of(
                Motion::Centre,
                Tag::Everyone,
                StepTime::TwoPhases,
                LegFlags::all_spec(),
                req.knees(LegFlags::none_spec()),
                Floor::Stance,
            ),
        ]
    }
}

pub open spec fn together(
    motion: Motion,
    time: StepTime,
    stance: LegFlags,
    forward: LegFlags,
    floor: Floor,
) -> FlipStep {
    step_of(motion, Tag::Everyone, time, stance, forward, floor)
}

/// Lowering the body and lifting the feet.
pub open spec fn settle_down(knees: LegFlags) -> Seq<FlipStep> {
    let all = LegFlags::all_spec();
    let third = StepTime::TwoThirdsOfPhase;
    seq![
        together(Motion::Lower(1), third, all, knees, Floor::Stance),
        together(Motion::Lower(2), third, all, knees, Floor::Stance),
        together(Motion::Lower(3), third, all, knees, Floor::Stance),
        together(Motion::Float, StepTime::Phase, all, knees, Floor::Rest),
    ]
}

/// Turning the floating legs over.
pub open spec fn turn_floating(before: LegFlags, after: LegFlags) -> Seq<FlipStep> {
    let none = LegFlags::none_spec();
    let time = StepTime::Phase;
    seq![
        together(Motion::Fold, time, none, before, Floor::Rest),
        together(Motion::RollOut, time, none, before, Floor::Rest),
        together(Motion::SwingOut, time, none, before, Floor::Rest),
        together(Motion::Straighten, time, none, before, Floor::Rest),
        together(Motion::FoldBack, time, none, before, Floor::Rest),
        together(Motion::ThighHome, time, none, after, Floor::Rest),
        together(Motion::Home, time, none, after, Floor::Rest),
    ]
}

/// Putting the feet down and raising the body.
pub open spec fn get_up(knees: LegFlags) -> Seq<FlipStep> {
    let all = LegFlags::all_spec();
    let third = StepTime::TwoThirdsOfPhase;
    seq![
        together(Motion::Ground, StepTime::Phase, all, knees, Floor::Rest),
        together(Motion::Rise(1), third, all, knees, Floor::Rest),
        together(Motion::Rise(2), third, all, knees, Floor::Rest),
        together(Motion::Rise(3), third, all, knees, Floor::Rest),
    ]
}

/// A foot that is not turned but has a new place.
pub open spec fn needs_align(req: FlipRequest) -> bool {
    exists|s: int| 0 <= s < 4 && !req.flips(s) && #[trigger] req.relocated.at(s)
}

pub open spec fn rest_plan(req: FlipRequest) -> Seq<FlipStep> {
    let before = req.knees(LegFlags::none_spec());
    let after = req.knees(LegFlags::all_spec());
    let align = if needs_align(req) {
        seq![together(Motion::Align, StepTime::Phase, LegFlags::none_spec(), after, Floor::Rest)]
    } else {
        Seq::empty()
    };
    replace_feet(req) + settle_down(before) + turn_floating(before, after) + align + get_up(after)
}

fn push_together(
    out: &mut Vec<FlipStep>,
    motion: Motion,
    time: StepTime,
    stance: LegFlags,
    forward: LegFlags,
    floor: Floor,
)
    ensures
        final(out)@ == old(out)@.push(together(motion, time, stance, forward, floor)),
{
    out.push(plain_step(motion, Tag::Everyone, time, stance, forward, floor));
}

fn push_replace_foot(out: &mut Vec<FlipStep>, req: &FlipRequest, slot: usize)
    ensures
        final(out)@ == old(out)@ + replace_foot(*req, slot),
{
    if !req.settled.get(slot) {
        let all = LegFlags::all();
        let lifted = all.set(slot, false);
        let knees = req.knees_now(LegFlags::none());
        let tag = Tag::Leg(slot);
        out.push(plain_step(Motion::Lean, tag, StepTime::TwoPhases, all, knees, Floor::Stance));
        out.push(plain_step(Motion::Raise, tag, StepTime::Phase, lifted, knees, Floor::Stance));
        out.push(plain_step(Motion::Carry, tag, StepTime::Phase, lifted, knees, Floor::Stance));
        out.push(plain_step(Motion::Place, tag, StepTime::Phase, all, knees, Floor::Stance));
    }
    assert(out@ == old(out)@ + replace_foot(*req, slot));
}

fn push_replace_feet(out: &mut Vec<FlipStep>, req: &FlipRequest)
    ensures
        final(out)@ == old(out)@ + replace_feet(*req),
{
    let ghost start = out@;
    if req.apart.count() > 0 {
        push_replace_foot(out, req, 0);
        push_replace_foot(out, req, 3);
        push_replace_foot(out, req, 1);
        push_replace_foot(out, req, 2);
        out.push(
            plain_step(
                Motion::Centre,
                Tag::Everyone,
                StepTime::TwoPhases,
                LegFlags::all(),
                req.knees_now(LegFlags::none()),
                Floor::Stance,
            ),
        );
    }
    assert(out@ == start + replace_feet(*req));
}

fn plan_resting(req: &FlipRequest) -> (r: Vec<FlipStep>)
    ensures
        r@ == rest_plan(*req),
{
    let mut out: Vec<FlipStep> = Vec::new();
    let flips = req.flags();
    let all = LegFlags::all();
    let none = LegFlags::none();
    let before = req.knees_now(none);
    let after = req.knees_now(all);
    let third = StepTime::TwoThirdsOfPhase;
    let phase = StepTime::Phase;
    push_replace_feet(&mut out, req);
    let ghost replaced = out@;
    assert(replaced == replace_feet(*req));
    push_together(&mut out, Motion::Lower(1), third, all, before, Floor::Stance);
    push_together(&mut out, Motion::Lower(2), third, all, before, Floor::Stance);
    push_together(&mut out, Motion::Lower(3), third, all, before, Floor::Stance);
    push_together(&mut out, Motion::Float, phase, all, before, Floor::Rest);
    let ghost down = out@;
    assert(down == replaced + settle_down(before));
    push_together(&mut out, Motion::Fold, phase, none, before, Floor::Rest);
    push_together(&mut out, Motion::RollOut, phase, none, before, Floor::Rest);
    push_together(&mut out, Motion::SwingOut, phase, none, before, Floor::Rest);
    push_together(&mut out, Motion::Straighten, phase, none, before, Floor::Rest);
    push_together(&mut out, Motion::FoldBack, phase, none, before, Floor::Rest);
    push_together(&mut out, Motion::ThighHome, phase, none, after, Floor::Rest);
    push_together(&mut out, Motion::Home, phase, none, after, Floor::Rest);
    let ghost turned = out@;
    assert(turned == down + turn_floating(before, after));
    let align: bool = (!flips.fl && req.relocated.fl) || (!flips.fr && req.relocated.fr) || (!flips.rl
        && req.relocated.rl) || (!flips.rr && req.relocated.rr);
    assert(align == needs_align(*req)) by {
        assert(req.relocated.at(0) == req.relocated.fl);
        assert(req.relocated.at(1) == req.relocated.fr);
        assert(req.relocated.at(2) == req.relocated.rl);
        assert(req.relocated.at(3) == req.relocated.rr);
    }
    if align {
        push_together(&mut out, Motion::Align, phase, none, after, Floor::Rest);
    }
    let ghost aligned = out@;
    push_together(&mut out, Motion::Ground, phase, all, after, Floor::Rest);
    push_together(&mut out, Motion::Rise(1), third, all, after, Floor::Rest);
    push_together(&mut out, Motion::Rise(2), third, all, after, Floor::Rest);
    push_together(&mut out, Motion::Rise(3), third, all, after, Floor::Rest);
    assert(out@ == aligned + get_up(after));
    out
}

/// The whole choreography.
pub open spec fn flip_plan(req: FlipRequest) -> Seq<FlipStep> {
    match req.style {
        KneeFlipStyle::Rest => rest_plan(req),
        KneeFlipStyle::Trot => trot_plan(req),
        KneeFlipStyle::Stand => stand_plan(req),
    }
}

/// Lays out the steps that turn the knees from `req.old` to `req.new`.
pub fn plan_knee_flip(req: &FlipRequest) -> (r: Result<Vec<FlipStep>, FlipError>)
    ensures
        match r {
            Ok(steps) => req.error() is None && steps@ == flip_plan(*req),
            Err(e) => req.error() == Some(e),
        },
{
    if req.flags().count() == 0 {
        return Err(FlipError::NothingToFlip);
    }
    match req.style {
        KneeFlipStyle::Rest => {
            match req.rest_height_m {
                None => Err(FlipError::NoRestHeight),
                Some(rest) => {
                    if req.stance_height_m.at_most(rest) {
                        Err(FlipError::RestTooHigh)
                    } else {
                        Ok(plan_resting(req))
                    }
                },
            }
        },
        KneeFlipStyle::Trot => Ok(plan_trotting(req)),
        KneeFlipStyle::Stand => Ok(plan_standing(req)),
    }
}

// ---- Following the steps ----

/// How many feet carry the body at step `i`. Past the end all four do.
pub open spec fn feet_down(steps: Seq<FlipStep>, i: int) -> int {
    if 0 <= i < steps.len() {
        steps[i].stance.count_spec()
    } else {
        4
    }
}

pub open spec fn kind_of(steps: Seq<FlipStep>, i: int) -> KneeStepKind {
    if 0 <= i < steps.len() {
        steps[i].kind
    } else {
        KneeStepKind::Normal
    }
}

/// What has to happen when the choreography moves on from one step to another.
#[derive(Clone, Copy, Debug, PartialEq, Eq, Structural)]
pub struct FlipEdge {
    /// Evaluate the samples of the probe that ended.
    pub finish_probe: bool,
    /// Start the balance from the planned shift.
    pub take_planned_shift: bool,
    /// Forget the balance feedback's history.
    pub restart_feedback: bool,
    /// Forget the samples of the last probe.
    pub clear_probe: bool,
}

pub open spec fn edge_spec(steps: Seq<FlipStep>, was: int, now: int) -> FlipEdge {
    let onto_two = feet_down(steps, was) == 4 && feet_down(steps, now) == 2;
    FlipEdge {
        finish_probe: was != now && kind_of(steps, was) is ProbeHold,
        take_planned_shift: was != now && onto_two && !(kind_of(steps, was) is Adjust),
        restart_feedback: was != now && onto_two,
        clear_probe: was != now && kind_of(steps, now) is ProbeHold,
    }
}

fn feet_at(steps: &Vec<FlipStep>, i: usize) -> (r: usize)
    ensures
        r == feet_down(steps@, i as int),
{
    if i < steps.len() {
        steps[i].stance.count()
    } else {
        4
    }
}

fn kind_at(steps: &Vec<FlipStep>, i: usize) -> (r: KneeStepKind)
    ensures
        r == kind_of(steps@, i as int),
{
    if i < steps.len() {
        steps[i].kind
    } else {
        KneeStepKind::Normal
    }
}

/// What moving from step `was` to step `now` entails. Staying entails nothing.
pub fn flip_edge(steps: &Vec<FlipStep>, was: usize, now: usize) -> (r: FlipEdge)
    ensures
        r == edge_spec(steps@, was as int, now as int),
{
    if was == now {
        return FlipEdge {
            finish_probe: false,
            take_planned_shift: false,
            restart_feedback: false,
            clear_probe: false,
        };
    }
    let left = kind_at(steps, was);
    let entered = kind_at(steps, now);
    let onto_two: bool = feet_at(steps, was) == 4 && feet_at(steps, now) == 2;
    FlipEdge {
        finish_probe: left == KneeStepKind::ProbeHold,
        take_planned_shift: onto_two && left != KneeStepKind::Adjust,
        restart_feedback: onto_two,
        clear_probe: entered == KneeStepKind::ProbeHold,
    }
}

/// What the balance does to the feet during a step.
#[derive(Clone, Copy, Debug, PartialEq, Eq, Structural)]
pub enum Balance {
    /// Nothing: the step runs as planned.
    Leave,
    /// Move slowly to where the mass is over the support line.
    Adjust,
    /// Keep the shift; collect a sample if `sample`.
    Freeze { sample: bool },
    /// Shift by the tilt feedback.
    Feedback,
}

/// Balancing belongs to the diagonal style, on two legs or while adjusting on four.
pub open spec fn balance_spec(steps: Seq<FlipStep>, style: KneeFlipStyle, i: int) -> Balance {
    let feet = feet_down(steps, i);
    let kind = kind_of(steps, i);
    if !(style is Trot) || !(0 <= i < steps.len()) || !(feet == 2 || (feet == 4 && kind is Adjust)) {
        Balance::Leave
    } else {
        match kind {
            KneeStepKind::Adjust => Balance::Adjust,
            KneeStepKind::ProbeMove => Balance::Freeze { sample: false },
            KneeStepKind::ProbeHold => Balance::Freeze { sample: true },
            KneeStepKind::Normal => Balance::Feedback,
        }
    }
}

pub fn balance_of(steps: &Vec<FlipStep>, style: KneeFlipStyle, i: usize) -> (r: Balance)
    ensures
        r == balance_spec(steps@, style, i as int),
{
    if style != KneeFlipStyle::Trot || i >= steps.len() {
        return Balance::Leave;
    }
    let kind = kind_at(steps, i);
    let feet: usize = feet_at(steps, i);
    if feet == 2 || (feet == 4 && kind == KneeStepKind::Adjust) {
        match kind {
            KneeStepKind::Adjust => Balance::Adjust,
            KneeStepKind::ProbeMove => Balance::Freeze { sample: false },
            KneeStepKind::ProbeHold => Balance::Freeze { sample: true },
            KneeStepKind::Normal => Balance::Feedback,
        }
    } else {
        Balance::Leave
    }
}

/// Joint `k` of a step's target leaves its range.
pub open spec fn outside(target: Seq<Scalar>, bounds: Seq<(Scalar, Scalar)>, k: int) -> bool {
    target[k].lt_num(bounds[k].0) || bounds[k].1.lt_num(target[k])
}

/// A step and a joint, in the order in which they are checked.
#[derive(Clone, Copy, Debug, PartialEq, Eq, Structural)]
pub struct JointAt {
    pub step: usize,
    pub joint: usize,
}

/// Everything before `at` is inside its range.
pub open spec fn inside_before(
    targets: Seq<Vec<Scalar>>,
    bounds: Seq<(Scalar, Scalar)>,
    step: int,
    joint: int,
) -> bool {
    forall|i: int, k: int|
        0 <= i < targets.len() && 0 <= k < bounds.len() && (i < step || (i == step && k < joint))
            ==> !#[trigger] outside(targets[i]@, bounds, k)
}

/// The first joint of the first step whose target leaves its range. Each target
/// holds one angle per range.
pub fn first_outside(targets: &Vec<Vec<Scalar>>, bounds: &Vec<(Scalar, Scalar)>) -> (r: Option<JointAt>)
    requires
        forall|i: int| 0 <= i < targets@.len() ==> (#[trigger] targets@[i])@.len() == bounds@.len(),
    ensures
        match r {
            None => inside_before(targets@, bounds@, targets@.len() as int, 0),
            Some(at) => {
                &&& at.step < targets@.len()
                &&& at.joint < bounds@.len()
                &&& outside(targets@[at.step as int]@, bounds@, at.joint as int)
                &&& inside_before(targets@, bounds@, at.step as int, at.joint as int)
            },
        },
{
    let mut i: usize = 0;
    while i < targets.len()
        invariant
            i <= targets@.len(),
            forall|k: int| 0 <= k < targets@.len() ==> (#[trigger] targets@[k])@.len() == bounds@.len(),
            inside_before(targets@, bounds@, i as int, 0),
        decreases targets@.len() - i,
    {
        let target: &Vec<Scalar> = &targets[i];
        let mut k: usize = 0;
        while k < bounds.len()
            invariant
                i < targets@.len(),
                k <= bounds@.len(),
                *target == targets@[i as int],
                target@.len() == bounds@.len(),
                inside_before(targets@, bounds@, i as int, k as int),
            decreases bounds@.len() - k,
        {
            if target[k].less(bounds[k].0) || bounds[k].1.less(target[k]) {
                return Some(JointAt { step: i, joint: k });
            }
            k += 1;
        }
        i += 1;
    }
    None
}

/// One tenth of a second, during which the lift's recoil still shows.
pub const PROBE_SETTLE: u64 = 0x3fb9_9999_9999_999a;

/// Fewest samples that a probe is judged by.
pub const PROBE_MIN_SAMPLES: usize = 10;

/// A reading taken while probing.
#[derive(Clone, Copy, Debug, PartialEq, Eq, Structural)]
pub struct ProbeSample {
    /// Seconds since the hold began.
    pub at_s: Scalar,
    pub tilt_rate: Scalar,
    pub tilt: Scalar,
}

/// A sample counts once the recoil is over and as long as no foot touches down.
pub open spec fn sample_counts(s: ProbeSample, max_tilt: Scalar) -> bool {
    s.tilt.abs_spec().lt_num(max_tilt) && (Scalar { bits: PROBE_SETTLE }).lt_num(s.at_s)
}

pub open spec fn counted_samples(samples: Seq<ProbeSample>, max_tilt: Scalar, n: int) -> Seq<ProbeSample>
    decreases n,
{
    if n <= 0 {
        Seq::empty()
    } else if sample_counts(samples[n - 1], max_tilt) {
        counted_samples(samples, max_tilt, n - 1).push(samples[n - 1])
    } else {
        counted_samples(samples, max_tilt, n - 1)
    }
}

/// The samples that count, in order; `None` where they are too few to judge by.
pub fn usable_samples(samples: &Vec<ProbeSample>, max_tilt: Scalar) -> (r: Option<Vec<ProbeSample>>)
    ensures
        ({
            let counted = counted_samples(samples@, max_tilt, samples@.len() as int);
            match r {
                Some(v) => counted.len() >= PROBE_MIN_SAMPLES && v@ == counted,
                None => counted.len() < PROBE_MIN_SAMPLES,
            }
        }),
{
    let mut out: Vec<ProbeSample> = Vec::new();
    let mut i: usize = 0;
    while i < samples.len()
        invariant
            i <= samples@.len(),
            out@ == counted_samples(samples@, max_tilt, i as int),
        decreases samples@.len() - i,
    {
        let s: ProbeSample = samples[i];
        if s.tilt.abs().less(max_tilt) && Scalar::from_bits(PROBE_SETTLE).less(s.at_s) {
            out.push(s);
        }
        i += 1;
    }
    if out.len() < PROBE_MIN_SAMPLES {
        None
    } else {
        Some(out)
    }
}

} // verus!
