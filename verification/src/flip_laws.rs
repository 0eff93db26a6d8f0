//! What each step of a knee choreography is, and what comes after it.

use vstd::prelude::*;

use crate::config::KneeFlipStyle;
use crate::knee;
use crate::knee::{
    Balance, FlipError, FlipRequest, FlipStep, Floor, KneeStepKind, Motion, ProbeSample, StepTime, Support, Tag,
};
use crate::legs::LegFlags;
use crate::scalar::Scalar;

verus! {

/// Every foot is on the ground.
pub open spec fn all_down(s: LegFlags) -> bool {
    s.fl && s.fr && s.rl && s.rr
}

/// The legs that a step is named after.
pub open spec fn named(tag: Tag, leg: int) -> bool {
    match tag {
        Tag::Everyone => true,
        Tag::Leg(a) => leg == a,
        Tag::Diagonal(a, b) => leg == a || leg == b,
    }
}

pub open spec fn all_are(s: Seq<FlipStep>, p: spec_fn(FlipStep) -> bool) -> bool {
    forall|i: int| 0 <= i < s.len() ==> p(#[trigger] s[i])
}

proof fn lemma_all_join(a: Seq<FlipStep>, b: Seq<FlipStep>, p: spec_fn(FlipStep) -> bool)
    requires
        all_are(a, p),
        all_are(b, p),
    ensures
        all_are(a + b, p),
{
    assert forall|i: int| 0 <= i < (a + b).len() implies p(#[trigger] (a + b)[i]) by {
        if i < a.len() {
            assert(p(a[i]));
        } else {
            assert(p(b[i - a.len()]));
        }
    }
}

/// A row of steps that begins with a lean, ends with a landing and keeps the order
/// in between.
spec fn is_row(s: Seq<FlipStep>) -> bool {
    &&& s.len() > 0 ==> s[0].motion is Lean && s.last().motion is Land
    &&& in_order(s)
}

/// Each step comes right after the one that it continues.
pub open spec fn in_order(s: Seq<FlipStep>) -> bool {
    forall|i: int, j: int|
        0 <= i && j == i + 1 && j < s.len() ==> continues(#[trigger] s[i], #[trigger] s[j])
}

/// `next` may come right after `step`: legs are unloaded before they are lifted,
/// lifted before they turn, turned before they come home, and home before they
/// land; a probe goes up, holds, comes down and is acted on, round after round.
pub open spec fn continues(step: FlipStep, next: FlipStep) -> bool {
    let same = step.tag == next.tag;
    match step.motion {
        Motion::Lean => same && (next.motion is Lift || next.motion == Motion::ProbeUp(1)),
        Motion::ProbeUp(n) => same && next.motion == Motion::ProbeHold(n),
        Motion::ProbeHold(n) => same && next.motion == Motion::ProbeDown(n),
        Motion::ProbeDown(n) => same && next.motion == Motion::Readjust(n),
        Motion::Readjust(n) => same && (next.motion is Lift || next.motion == Motion::ProbeUp(
            (n + 1) as u64,
        )),
        Motion::Lift => same && next.motion is Turn,
        Motion::Turn => same && next.motion is Home,
        Motion::Home => same && next.motion is Land,
        Motion::Land => next.motion is Lean || next.motion is Centre,
        _ => false,
    }
}

proof fn lemma_rows_join(a: Seq<FlipStep>, b: Seq<FlipStep>)
    requires
        is_row(a),
        is_row(b),
    ensures
        is_row(a + b),
{
    let s = a + b;
    assert forall|i: int, j: int| 0 <= i && j == i + 1 && j < s.len() implies continues(
        #[trigger] s[i],
        #[trigger] s[j],
    ) by {
        if j < a.len() {
            assert(continues(a[i], a[j]));
        } else if i >= a.len() {
            assert(continues(b[i - a.len()], b[j - a.len()]));
        }
    }
    if b.len() > 0 {
        assert(s.last() == b.last());
    } else {
        assert(s == a);
    }
}

proof fn lemma_row_ends(a: Seq<FlipStep>, last: FlipStep)
    requires
        is_row(a),
        last.motion is Centre,
    ensures
        in_order(a + seq![last]),
{
    let s = a + seq![last];
    assert forall|i: int, j: int| 0 <= i && j == i + 1 && j < s.len() implies continues(
        #[trigger] s[i],
        #[trigger] s[j],
    ) by {
        if j < a.len() {
            assert(continues(a[i], a[j]));
        }
    }
}

// ---- One leg at a time ----

/// A step of the style that turns one leg at a time, by what it does: which leg
/// it is about, that only that leg is lifted, and only to be turned, which way
/// that knee bends by then, how long it takes and how high the body is.
pub open spec fn is_stand_step(req: FlipRequest, s: FlipStep) -> bool {
    let air = s.motion is Lift || s.motion is Turn || s.motion is Home;
    &&& s.kind is Normal
    &&& !s.shifted
    &&& s.support == (Support { a: 1, b: 2 })
    &&& s.motion is Lean || s.motion is Land || s.motion is Centre || air
    &&& s.motion is Centre ==> {
        &&& s.tag is Everyone
        &&& all_down(s.stance)
        &&& s.floor is Stance
        &&& s.time is TwoStandPhases
        &&& forall|l: int| 0 <= l < 4 ==> #[trigger] s.forward.at(l) == req.new.forward_spec(l)
    }
    &&& !(s.motion is Centre) ==> {
        &&& s.tag matches Tag::Leg(leg) && leg < 4 && req.old.forward_spec(leg as int)
            != req.new.forward_spec(leg as int)
        &&& s.floor is Flip
        &&& !(s.motion is Lean) ==> s.time is StandPhase
        &&& s.motion is Lean ==> s.time is StandPhase || s.time is TwoStandPhases
        &&& forall|l: int| 0 <= l < 4 ==> #[trigger] s.stance.at(l) == !(air && named(s.tag, l))
        &&& forall|l: int|
            0 <= l < 4 && named(s.tag, l) ==> #[trigger] s.forward.at(l) == (if s.motion is Turn
                || s.motion is Home || s.motion is Land {
                req.new.forward_spec(l)
            } else {
                req.old.forward_spec(l)
            })
    }
}

proof fn lemma_stand_leg(req: FlipRequest, slot: usize, done: LegFlags)
    requires
        slot < 4,
        !done.at(slot as int),
    ensures
        all_are(knee::stand_leg(req, slot, done), |s: FlipStep| is_stand_step(req, s)),
        all_are(knee::stand_leg(req, slot, done), |s: FlipStep| s.tag == Tag::Leg(slot)),
        is_row(knee::stand_leg(req, slot, done)),
        knee::stand_leg(req, slot, done).len() == if req.flips(slot as int) { 5int } else { 0 },
{
    let s = knee::stand_leg(req, slot, done);
    assert forall|i: int| 0 <= i < s.len() implies is_stand_step(req, #[trigger] s[i]) by {
        assert(i == 0 || i == 1 || i == 2 || i == 3 || i == 4);
    }
    assert forall|i: int| 0 <= i < s.len() implies (#[trigger] s[i]).tag == Tag::Leg(slot) by {
        assert(i == 0 || i == 1 || i == 2 || i == 3 || i == 4);
    }
    assert forall|i: int, j: int| 0 <= i && j == i + 1 && j < s.len() implies continues(
        #[trigger] s[i],
        #[trigger] s[j],
    ) by {
        assert(i == 0 || i == 1 || i == 2 || i == 3);
    }
}

/// In which order the legs take their turn: front left, rear right, front right,
/// rear left, and the whole robot at the end.
pub open spec fn turn_rank(tag: Tag) -> int {
    match tag {
        Tag::Leg(l) => if l == 0 {
            0
        } else if l == 3 {
            1
        } else if l == 1 {
            2
        } else {
            3
        },
        Tag::Diagonal(a, _) => if a == 0 {
            0
        } else {
            1
        },
        Tag::Everyone => 9,
    }
}

/// Turning one leg at a time, every step does what it is for, in the right order:
/// each leg to be turned is unloaded, lifted, turned, brought home and landed in
/// one go, the legs come in their order, and only the very first lean takes twice
/// as long.
pub proof fn every_standing_step_does_what_it_is_for(req: FlipRequest)
    requires
        req.style is Stand,
    ensures
        ({
            let s = knee::flip_plan(req);
            &&& all_are(s, |x: FlipStep| is_stand_step(req, x))
            &&& in_order(s)
            &&& s.last().motion is Centre
            &&& s.len() == 1 + 5 * req.flip_flags().count_spec()
            &&& forall|i: int, j: int|
                0 <= i <= j < s.len() ==> turn_rank(#[trigger] s[i].tag) <= turn_rank(
                    #[trigger] s[j].tag,
                )
            &&& forall|i: int|
                0 <= i < s.len() && (#[trigger] s[i]).motion is Lean ==> (s[i].time is TwoStandPhases
                    <==> i == 0)
        }),
{
    let none = LegFlags::none_spec();
    let one = none.with(0, true);
    let two = one.with(3, true);
    let three = two.with(1, true);
    let a = knee::stand_leg(req, 0, none);
    let b = knee::stand_leg(req, 3, one);
    let c = knee::stand_leg(req, 1, two);
    let d = knee::stand_leg(req, 2, three);
    let s = knee::flip_plan(req);
    let centre = s.last();
    assert(s == a + b + c + d + seq![centre]);
    lemma_stand_leg(req, 0, none);
    lemma_stand_leg(req, 3, one);
    lemma_stand_leg(req, 1, two);
    lemma_stand_leg(req, 2, three);
    lemma_stand_rows(req, a, b, c, d, centre);
    assert forall|i: int, j: int| 0 <= i <= j < s.len() implies turn_rank(#[trigger] s[i].tag)
        <= turn_rank(#[trigger] s[j].tag) by {
        lemma_rank_at(a, b, c, d, s, centre, i);
        lemma_rank_at(a, b, c, d, s, centre, j);
    }
    assert forall|i: int| 0 <= i < s.len() && (#[trigger] s[i]).motion is Lean implies (
    s[i].time is TwoStandPhases <==> i == 0) by {
        lemma_first_lean(req, i);
    }
}

proof fn lemma_stand_rows(
    req: FlipRequest,
    a: Seq<FlipStep>,
    b: Seq<FlipStep>,
    c: Seq<FlipStep>,
    d: Seq<FlipStep>,
    centre: FlipStep,
)
    requires
        is_row(a),
        is_row(b),
        is_row(c),
        is_row(d),
        centre.motion is Centre,
        is_stand_step(req, centre),
        all_are(a, |x: FlipStep| is_stand_step(req, x)),
        all_are(b, |x: FlipStep| is_stand_step(req, x)),
        all_are(c, |x: FlipStep| is_stand_step(req, x)),
        all_are(d, |x: FlipStep| is_stand_step(req, x)),
    ensures
        in_order(a + b + c + d + seq![centre]),
        all_are(a + b + c + d + seq![centre], |x: FlipStep| is_stand_step(req, x)),
{
    let p = |x: FlipStep| is_stand_step(req, x);
    lemma_rows_join(a, b);
    lemma_rows_join(a + b, c);
    lemma_rows_join(a + b + c, d);
    lemma_row_ends(a + b + c + d, centre);
    lemma_all_join(a, b, p);
    lemma_all_join(a + b, c, p);
    lemma_all_join(a + b + c, d, p);
    assert(all_are(seq![centre], p));
    lemma_all_join(a + b + c + d, seq![centre], p);
}

/// The first step of a leg, by whether any leg came before.
proof fn lemma_lean_of(req: FlipRequest, slot: usize, done: LegFlags, k: int)
    requires
        slot < 4,
        0 <= k < knee::stand_leg(req, slot, done).len(),
        knee::stand_leg(req, slot, done)[k].motion is Lean,
    ensures
        k == 0,
        req.flips(slot as int),
        knee::stand_leg(req, slot, done)[k].time is TwoStandPhases <==> !(req.flips(0) && done.fl) && !(
        req.flips(1) && done.fr) && !(req.flips(2) && done.rl) && !(req.flips(3) && done.rr),
{
    assert(k == 0 || k == 1 || k == 2 || k == 3 || k == 4);
}

#[verifier::spinoff_prover]
#[verifier::rlimit(60)]
proof fn lemma_first_lean(req: FlipRequest, i: int)
    requires
        req.style is Stand,
        0 <= i < knee::flip_plan(req).len(),
        knee::flip_plan(req)[i].motion is Lean,
    ensures
        knee::flip_plan(req)[i].time is TwoStandPhases <==> i == 0,
{
    let none = LegFlags::none_spec();
    let one = none.with(0, true);
    let two = one.with(3, true);
    let three = two.with(1, true);
    let a = knee::stand_leg(req, 0, none);
    let b = knee::stand_leg(req, 3, one);
    let c = knee::stand_leg(req, 1, two);
    let d = knee::stand_leg(req, 2, three);
    let s = knee::flip_plan(req);
    let (la, lb, lc, ld) = (a.len() as int, b.len() as int, c.len() as int, d.len() as int);
    assert(la == 0 <==> !req.flips(0));
    assert(lb == 0 <==> !req.flips(3));
    assert(lc == 0 <==> !req.flips(1));
    if i < la {
        assert(s[i] == a[i]);
        lemma_lean_of(req, 0, none, i);
    } else if i < la + lb {
        assert(s[i] == b[i - la]);
        lemma_lean_of(req, 3, one, i - la);
    } else if i < la + lb + lc {
        assert(s[i] == c[i - la - lb]);
        lemma_lean_of(req, 1, two, i - la - lb);
    } else if i < la + lb + lc + ld {
        assert(s[i] == d[i - la - lb - lc]);
        lemma_lean_of(req, 2, three, i - la - lb - lc);
    }
}

proof fn lemma_rank_at(
    a: Seq<FlipStep>,
    b: Seq<FlipStep>,
    c: Seq<FlipStep>,
    d: Seq<FlipStep>,
    s: Seq<FlipStep>,
    centre: FlipStep,
    i: int,
)
    requires
        0 <= i < s.len(),
        s == a + b + c + d + seq![centre],
        centre.tag is Everyone,
        all_are(a, |s: FlipStep| s.tag == Tag::Leg(0)),
        all_are(b, |s: FlipStep| s.tag == Tag::Leg(3)),
        all_are(c, |s: FlipStep| s.tag == Tag::Leg(1)),
        all_are(d, |s: FlipStep| s.tag == Tag::Leg(2)),
    ensures
        turn_rank(s[i].tag) == (if i < a.len() {
            0int
        } else if i < a.len() + b.len() {
            1
        } else if i < a.len() + b.len() + c.len() {
            2
        } else if i < a.len() + b.len() + c.len() + d.len() {
            3
        } else {
            9
        }),
{
    if i < a.len() {
        assert(s[i] == a[i]);
    } else if i < a.len() + b.len() {
        assert(s[i] == b[i - a.len()]);
    } else if i < a.len() + b.len() + c.len() {
        assert(s[i] == c[i - a.len() - b.len()]);
    } else if i < a.len() + b.len() + c.len() + d.len() {
        assert(s[i] == d[i - a.len() - b.len() - c.len()]);
    }
}

// ---- A diagonal at a time ----

/// A step of the style that turns a diagonal at a time.
pub open spec fn is_trot_step(req: FlipRequest, s: FlipStep) -> bool {
    let probes = s.motion is ProbeUp || s.motion is ProbeHold;
    let air = s.motion is Lift || s.motion is Turn || s.motion is Home || probes;
    let down = s.motion is Lean || s.motion is Land || s.motion is ProbeDown || s.motion is Readjust;
    let turned = s.motion is Turn || s.motion is Home || s.motion is Land;
    &&& s.motion is Centre || air || down
    &&& s.motion is Centre ==> {
        &&& s.tag is Everyone
        &&& all_down(s.stance)
        &&& s.floor is Stance
        &&& s.time is TwoPhases
        &&& s.kind is Normal
        &&& !s.shifted
        &&& forall|l: int| 0 <= l < 4 ==> #[trigger] s.forward.at(l) == req.new.forward_spec(l)
    }
    &&& !(s.motion is Centre) ==> {
        &&& s.tag == Tag::Diagonal(0, 3) && s.support == (Support { a: 1, b: 2 }) || s.tag
            == Tag::Diagonal(1, 2) && s.support == (Support { a: 0, b: 3 })
        &&& s.shifted
        &&& s.floor is Flip
        &&& forall|l: int|
            0 <= l < 4 ==> #[trigger] s.stance.at(l) == !(air && named(s.tag, l)
                && req.old.forward_spec(l) != req.new.forward_spec(l))
        &&& forall|l: int|
            0 <= l < 4 && named(s.tag, l) ==> #[trigger] s.forward.at(l) == (if turned {
                req.new.forward_spec(l)
            } else {
                req.old.forward_spec(l)
            })
        &&& s.motion is Lean ==> s.time is TwoPhases && s.kind is Adjust
        &&& s.motion is ProbeUp ==> s.time is ProbeMove && s.kind is ProbeMove
        &&& s.motion is ProbeHold ==> s.time is ProbeHold && s.kind is ProbeHold
        &&& s.motion is ProbeDown ==> s.time is ProbeMove && s.kind is Normal
        &&& s.motion is Readjust ==> s.time is Readjust && s.kind is Adjust
        &&& s.motion is Lift || turned ==> s.time is Phase && s.kind is Normal
        &&& probes || s.motion is ProbeDown || s.motion is Readjust ==> {
            &&& req.probe_lift_m.positive()
            &&& forall|l: int|
                0 <= l < 4 && named(s.tag, l) ==> #[trigger] req.old.forward_spec(l)
                    != req.new.forward_spec(l)
        }
        &&& s.motion matches Motion::ProbeUp(n) ==> 1 <= n <= req.probe_rounds
    }
}

/// A row of probe rounds, after a lean and before the lift.
spec fn is_probe_row(s: Seq<FlipStep>, tag: Tag, rounds: int) -> bool {
    &&& s.len() == 4 * rounds
    &&& rounds > 0 ==> s[0].motion == Motion::ProbeUp(1) && s.last().motion == Motion::Readjust(
        rounds as u64,
    )
    &&& all_are(s, |x: FlipStep| x.tag == tag)
    &&& in_order(s)
}

proof fn lemma_probe_rounds(
    req: FlipRequest,
    a: usize,
    b: usize,
    support: Support,
    lifted: LegFlags,
    knees: LegFlags,
    rounds: nat,
)
    requires
        a == 0 && b == 3 && support == (Support { a: 1, b: 2 }) || a == 1 && b == 2 && support
            == (Support { a: 0, b: 3 }),
        req.flips(a as int),
        req.flips(b as int),
        req.probe_lift_m.positive(),
        lifted == LegFlags::all_spec().with(a as int, false).with(b as int, false),
        knees.at(a as int) == req.old.forward_spec(a as int),
        knees.at(b as int) == req.old.forward_spec(b as int),
        rounds <= req.probe_rounds,
    ensures
        all_are(
            knee::probe_rounds(Tag::Diagonal(a, b), lifted, knees, support, rounds),
            |s: FlipStep| is_trot_step(req, s),
        ),
        is_probe_row(
            knee::probe_rounds(Tag::Diagonal(a, b), lifted, knees, support, rounds),
            Tag::Diagonal(a, b),
            rounds as int,
        ),
    decreases rounds,
{
    let tag = Tag::Diagonal(a, b);
    let p = |s: FlipStep| is_trot_step(req, s);
    let t = |s: FlipStep| s.tag == tag;
    if rounds > 0 {
        let fewer = (rounds - 1) as nat;
        lemma_probe_rounds(req, a, b, support, lifted, knees, fewer);
        let s = knee::probe_rounds(tag, lifted, knees, support, fewer);
        let q = knee::probe_round(tag, lifted, knees, support, rounds as u64);
        assert(q.len() == 4);
        assert forall|i: int| 0 <= i < q.len() implies p(#[trigger] q[i]) by {
            assert(i == 0 || i == 1 || i == 2 || i == 3);
        }
        assert forall|i: int| 0 <= i < q.len() implies t(#[trigger] q[i]) by {
            assert(i == 0 || i == 1 || i == 2 || i == 3);
        }
        lemma_all_join(s, q, p);
        lemma_all_join(s, q, t);
        let w = s + q;
        assert(w == knee::probe_rounds(tag, lifted, knees, support, rounds));
        assert forall|i: int, j: int| 0 <= i && j == i + 1 && j < w.len() implies continues(
            #[trigger] w[i],
            #[trigger] w[j],
        ) by {
            if j < s.len() {
                assert(continues(s[i], s[j]));
            } else {
                let k = i - s.len();
                assert(k == -1 || k == 0 || k == 1 || k == 2);
                if k == -1 {
                    assert(w[i] == s.last());
                    assert(t(s[i]));
                    assert(fewer + 1 == rounds);
                }
            }
        }
        assert(w.last() == q[3]);
        if fewer > 0 {
            assert(w[0] == s[0]);
        } else {
            assert(w[0] == q[0]);
        }
    }
}

/// The four steps that end a diagonal's turn.
spec fn turn_of(
    req: FlipRequest,
    a: usize,
    b: usize,
    support: Support,
    done: LegFlags,
) -> Seq<FlipStep> {
    let n = 1 + 4 * (knee::probing(req, a as int, b as int) as int);
    knee::trot_pair(req, a, b, support, done).subrange(n, n + 4)
}

spec fn pairs(a: usize, b: usize, support: Support) -> bool {
    a == 0 && b == 3 && support == (Support { a: 1, b: 2 }) || a == 1 && b == 2 && support == (Support {
        a: 0,
        b: 3,
    })
}

#[verifier::spinoff_prover]
#[verifier::rlimit(60)]
proof fn lemma_trot_parts(req: FlipRequest, a: usize, b: usize, support: Support, done: LegFlags) -> (probe:
    Seq<FlipStep>)
    requires
        pairs(a, b, support),
        !done.at(a as int),
        !done.at(b as int),
        req.flips(a as int) || req.flips(b as int),
    ensures
        ({
            let w = knee::trot_pair(req, a, b, support, done);
            let turn = turn_of(req, a, b, support, done);
            let n = knee::probing(req, a as int, b as int);
            &&& w == seq![w[0]] + probe + turn
            &&& probe.len() == 4 * n
            &&& turn.len() == 4
            &&& w.len() == 5 + 4 * n
            &&& w[0].motion is Lean && turn[0].motion is Lift && turn[1].motion is Turn
                && turn[2].motion is Home && turn[3].motion is Land
            &&& is_trot_step(req, w[0])
            &&& all_are(probe, |s: FlipStep| is_trot_step(req, s))
            &&& is_probe_row(probe, Tag::Diagonal(a, b), n as int)
            &&& w[0].tag == Tag::Diagonal(a, b)
            &&& all_are(turn, |s: FlipStep| s.tag == Tag::Diagonal(a, b))
        }),
{
    let tag = Tag::Diagonal(a, b);
    let w = knee::trot_pair(req, a, b, support, done);
    let all = LegFlags::all_spec();
    let lifted = all.with(a as int, !req.flips(a as int)).with(b as int, !req.flips(b as int));
    let before = req.knees(done);
    let n = knee::probing(req, a as int, b as int);
    let probe = knee::probe_rounds(tag, lifted, before, support, n);
    if n > 0 {
        lemma_probe_rounds(req, a, b, support, lifted, before, n);
    } else {
        assert(probe.len() == 0);
    }
    let turn = turn_of(req, a, b, support, done);
    assert(w == seq![w[0]] + probe + turn);
    assert forall|i: int| 0 <= i < turn.len() implies (#[trigger] turn[i]).tag == tag by {
        assert(i == 0 || i == 1 || i == 2 || i == 3);
    }
    probe
}

#[verifier::spinoff_prover]
#[verifier::rlimit(60)]
proof fn lemma_trot_turn(req: FlipRequest, a: usize, b: usize, support: Support, done: LegFlags)
    requires
        pairs(a, b, support),
        !done.at(a as int),
        !done.at(b as int),
        req.flips(a as int) || req.flips(b as int),
    ensures
        all_are(turn_of(req, a, b, support, done), |s: FlipStep| is_trot_step(req, s)),
{
    let probe = lemma_trot_parts(req, a, b, support, done);
    let turn = turn_of(req, a, b, support, done);
    let p = |s: FlipStep| is_trot_step(req, s);
    let w = knee::trot_pair(req, a, b, support, done);
    let k = probe.len() as int;
    assert(turn[0] == w[k + 1] && turn[1] == w[k + 2] && turn[2] == w[k + 3] && turn[3] == w[k + 4]);
    assert(p(turn[0]));
    assert(p(turn[1]));
    assert(p(turn[2]));
    assert(p(turn[3]));
    assert forall|i: int| 0 <= i < turn.len() implies p(#[trigger] turn[i]) by {
        assert(i == 0 || i == 1 || i == 2 || i == 3);
    }
}

#[verifier::spinoff_prover]
proof fn lemma_pair_order(
    w: Seq<FlipStep>,
    lean: FlipStep,
    probe: Seq<FlipStep>,
    turn: Seq<FlipStep>,
    tag: Tag,
    n: int,
)
    requires
        w == seq![lean] + probe + turn,
        n >= 0,
        lean.motion is Lean,
        lean.tag == tag,
        is_probe_row(probe, tag, n),
        turn.len() == 4,
        turn[0].motion is Lift && turn[1].motion is Turn && turn[2].motion is Home
            && turn[3].motion is Land,
        all_are(turn, |s: FlipStep| s.tag == tag),
    ensures
        is_row(w),
        all_are(w, |s: FlipStep| s.tag == tag),
{
    let t = |s: FlipStep| s.tag == tag;
    let k = probe.len() as int;
    assert(all_are(seq![lean], t));
    lemma_all_join(seq![lean], probe, t);
    lemma_all_join(seq![lean] + probe, turn, t);
    assert forall|i: int, j: int| 0 <= i && j == i + 1 && j < w.len() implies continues(
        #[trigger] w[i],
        #[trigger] w[j],
    ) by {
        assert(t(w[i]) && t(w[j]));
        if i == 0 {
            if k > 0 {
                assert(w[j] == probe[0]);
            } else {
                assert(w[j] == turn[0]);
            }
        } else if j <= k {
            assert(continues(probe[i - 1], probe[j - 1]));
        } else if i == k {
            assert(w[i] == probe[i - 1]);
            assert(w[j] == turn[0]);
        } else {
            let x = i - k - 1;
            assert(x == 0 || x == 1 || x == 2);
            assert(w[i] == turn[x] && w[j] == turn[x + 1]);
        }
    }
    assert(w.last() == turn[3]);
}

proof fn lemma_trot_pair(req: FlipRequest, a: usize, b: usize, support: Support, done: LegFlags)
    requires
        pairs(a, b, support),
        !done.at(a as int),
        !done.at(b as int),
    ensures
        all_are(knee::trot_pair(req, a, b, support, done), |s: FlipStep| is_trot_step(req, s)),
        all_are(knee::trot_pair(req, a, b, support, done), |s: FlipStep| s.tag == Tag::Diagonal(a, b)),
        is_row(knee::trot_pair(req, a, b, support, done)),
        knee::trot_pair(req, a, b, support, done).len() == (if req.flips(a as int) && req.flips(b as int)
            && req.probe_lift_m.positive() {
            5 + 4 * req.probe_rounds
        } else if req.flips(a as int) || req.flips(b as int) {
            5
        } else {
            0
        }),
{
    let p = |s: FlipStep| is_trot_step(req, s);
    let w = knee::trot_pair(req, a, b, support, done);
    if req.flips(a as int) || req.flips(b as int) {
        let probe = lemma_trot_parts(req, a, b, support, done);
        let turn = turn_of(req, a, b, support, done);
        lemma_trot_turn(req, a, b, support, done);
        lemma_pair_order(
            w,
            w[0],
            probe,
            turn,
            Tag::Diagonal(a, b),
            knee::probing(req, a as int, b as int) as int,
        );
        assert(all_are(seq![w[0]], p));
        lemma_all_join(seq![w[0]], probe, p);
        lemma_all_join(seq![w[0]] + probe, turn, p);
    }
}

/// Turning a diagonal at a time, every step does what it is for, in the right
/// order: the diagonal is unloaded, probed round by round if both of its legs turn,
/// lifted, turned, brought home and landed, while the other one carries.
pub proof fn every_trotting_step_does_what_it_is_for(req: FlipRequest)
    requires
        req.style is Trot,
    ensures
        ({
            let s = knee::flip_plan(req);
            let first = |a: int, b: int|
                if req.flips(a) && req.flips(b) && req.probe_lift_m.positive() {
                    5 + 4 * req.probe_rounds
                } else if req.flips(a) || req.flips(b) {
                    5
                } else {
                    0
                };
            &&& all_are(s, |x: FlipStep| is_trot_step(req, x))
            &&& in_order(s)
            &&& s.last().motion is Centre
            &&& s.len() == first(0, 3) + first(1, 2) + 1
            &&& forall|i: int, j: int|
                0 <= i <= j < s.len() ==> turn_rank(#[trigger] s[i].tag) <= turn_rank(
                    #[trigger] s[j].tag,
                )
        }),
{
    let none = LegFlags::none_spec();
    let half = none.with(0, true).with(3, true);
    let a = knee::trot_pair(req, 0, 3, Support { a: 1, b: 2 }, none);
    let b = knee::trot_pair(req, 1, 2, Support { a: 0, b: 3 }, half);
    let s = knee::flip_plan(req);
    let centre = s.last();
    let p = |x: FlipStep| is_trot_step(req, x);
    lemma_trot_pair(req, 0, 3, Support { a: 1, b: 2 }, none);
    lemma_trot_pair(req, 1, 2, Support { a: 0, b: 3 }, half);
    lemma_rows_join(a, b);
    lemma_row_ends(a + b, centre);
    lemma_all_join(a, b, p);
    assert(p(centre));
    assert(all_are(seq![centre], p));
    lemma_all_join(a + b, seq![centre], p);
    assert(s == a + b + seq![centre]);
    assert forall|i: int, j: int| 0 <= i <= j < s.len() implies turn_rank(#[trigger] s[i].tag)
        <= turn_rank(#[trigger] s[j].tag) by {
        let la = a.len() as int;
        let lb = b.len() as int;
        if i < la {
            assert(s[i] == a[i]);
        } else if i < la + lb {
            assert(s[i] == b[i - la]);
        }
        if j < la {
            assert(s[j] == a[j]);
        } else if j < la + lb {
            assert(s[j] == b[j - la]);
        }
    }
}

// ---- All legs together ----

/// A step of the style that turns all legs together while the body rests.
pub open spec fn is_rest_step(req: FlipRequest, s: FlipStep) -> bool {
    let foot = s.motion is Lean || s.motion is Raise || s.motion is Carry || s.motion is Place;
    let floats = s.motion is Fold || s.motion is RollOut || s.motion is SwingOut || s.motion is Straighten
        || s.motion is FoldBack || s.motion is ThighHome || s.motion is Home || s.motion is Align;
    let turned = s.motion is ThighHome || s.motion is Home || s.motion is Align || s.motion is Ground
        || s.motion is Rise;
    &&& s.kind is Normal
    &&& !s.shifted
    &&& foot || floats || s.motion is Centre || s.motion is Lower || s.motion is Float
        || s.motion is Ground || s.motion is Rise
    &&& forall|l: int|
        0 <= l < 4 ==> #[trigger] s.forward.at(l) == (if turned {
            req.new.forward_spec(l)
        } else {
            req.old.forward_spec(l)
        })
    &&& foot ==> (s.tag matches Tag::Leg(leg) && leg < 4 && !req.settled.at(leg as int))
    &&& !foot ==> s.tag is Everyone
    &&& forall|l: int|
        0 <= l < 4 ==> #[trigger] s.stance.at(l) == !(floats || (s.motion is Raise || s.motion is Carry)
            && named(s.tag, l))
    &&& s.floor == (if foot || s.motion is Centre || s.motion is Lower {
        Floor::Stance
    } else {
        Floor::Rest
    })
    &&& s.time == (if s.motion is Lean || s.motion is Centre {
        StepTime::TwoPhases
    } else if s.motion is Lower || s.motion is Rise {
        StepTime::TwoThirdsOfPhase
    } else {
        StepTime::Phase
    })
}

/// What follows what while the body is lowered, the legs turn and it rises again.
pub open spec fn settles(step: FlipStep, next: FlipStep) -> bool {
    match step.motion {
        Motion::Lean => next.motion is Raise && next.tag == step.tag,
        Motion::Raise => next.motion is Carry && next.tag == step.tag,
        Motion::Carry => next.motion is Place && next.tag == step.tag,
        Motion::Place => next.motion is Lean || next.motion is Centre,
        Motion::Centre => next.motion == Motion::Lean || next.motion == Motion::Lower(1),
        Motion::Lower(n) => if n < 3 {
            next.motion == Motion::Lower((n + 1) as u8)
        } else {
            next.motion is Float
        },
        Motion::Float => next.motion is Fold,
        Motion::Fold => next.motion is RollOut,
        Motion::RollOut => next.motion is SwingOut,
        Motion::SwingOut => next.motion is Straighten,
        Motion::Straighten => next.motion is FoldBack,
        Motion::FoldBack => next.motion is ThighHome,
        Motion::ThighHome => next.motion is Home,
        Motion::Home => next.motion is Align || next.motion is Ground,
        Motion::Align => next.motion is Ground,
        Motion::Ground => next.motion == Motion::Rise(1),
        Motion::Rise(n) => n < 3 && next.motion == Motion::Rise((n + 1) as u8),
        _ => false,
    }
}

pub open spec fn settle_in_order(s: Seq<FlipStep>) -> bool {
    forall|i: int, j: int|
        0 <= i && j == i + 1 && j < s.len() ==> settles(#[trigger] s[i], #[trigger] s[j])
}

/// Whether `b` may follow `a`, where either may be empty.
spec fn may_follow(a: Seq<FlipStep>, b: Seq<FlipStep>) -> bool {
    a.len() > 0 && b.len() > 0 ==> settles(a.last(), b[0])
}

proof fn lemma_settle_join(a: Seq<FlipStep>, b: Seq<FlipStep>)
    requires
        settle_in_order(a),
        settle_in_order(b),
        may_follow(a, b),
    ensures
        settle_in_order(a + b),
{
    let s = a + b;
    assert forall|i: int, j: int| 0 <= i && j == i + 1 && j < s.len() implies settles(
        #[trigger] s[i],
        #[trigger] s[j],
    ) by {
        if j < a.len() {
            assert(settles(a[i], a[j]));
        } else if i >= a.len() {
            assert(settles(b[i - a.len()], b[j - a.len()]));
        }
    }
}

/// A row of feet being put elsewhere.
spec fn is_foot_row(s: Seq<FlipStep>) -> bool {
    &&& s.len() > 0 ==> s[0].motion is Lean && s.last().motion is Place
    &&& settle_in_order(s)
}

proof fn lemma_foot_rows(a: Seq<FlipStep>, b: Seq<FlipStep>)
    requires
        is_foot_row(a),
        is_foot_row(b),
    ensures
        is_foot_row(a + b),
{
    lemma_settle_join(a, b);
    if b.len() > 0 {
        assert((a + b).last() == b.last());
    } else {
        assert(a + b == a);
    }
}

proof fn lemma_replace_foot(req: FlipRequest, slot: usize)
    requires
        slot < 4,
    ensures
        all_are(knee::replace_foot(req, slot), |s: FlipStep| is_rest_step(req, s)),
        is_foot_row(knee::replace_foot(req, slot)),
        knee::replace_foot(req, slot).len() == (if req.settled.at(slot as int) { 0int } else { 4 }),
{
    let s = knee::replace_foot(req, slot);
    assert forall|i: int| 0 <= i < s.len() implies is_rest_step(req, #[trigger] s[i]) by {
        assert(i == 0 || i == 1 || i == 2 || i == 3);
    }
    assert forall|i: int, j: int| 0 <= i && j == i + 1 && j < s.len() implies settles(
        #[trigger] s[i],
        #[trigger] s[j],
    ) by {
        assert(i == 0 || i == 1 || i == 2);
    }
}

proof fn lemma_replace_feet(req: FlipRequest)
    ensures
        all_are(knee::replace_feet(req), |s: FlipStep| is_rest_step(req, s)),
        settle_in_order(knee::replace_feet(req)),
        knee::replace_feet(req).len() > 0 ==> knee::replace_feet(req).last().motion is Centre,
        knee::replace_feet(req).len() == (if req.apart.count_spec() == 0 {
            0
        } else {
            1 + 4 * (4 - req.settled.count_spec())
        }),
{
    let p = |s: FlipStep| is_rest_step(req, s);
    if req.apart.count_spec() != 0 {
        let s = knee::replace_feet(req);
        let a = knee::replace_foot(req, 0);
        let b = knee::replace_foot(req, 3);
        let c = knee::replace_foot(req, 1);
        let d = knee::replace_foot(req, 2);
        let centre = seq![s.last()];
        lemma_replace_foot(req, 0);
        lemma_replace_foot(req, 3);
        lemma_replace_foot(req, 1);
        lemma_replace_foot(req, 2);
        lemma_foot_rows(a, b);
        lemma_foot_rows(a + b, c);
        lemma_foot_rows(a + b + c, d);
        lemma_settle_join(a + b + c + d, centre);
        lemma_all_join(a, b, p);
        lemma_all_join(a + b, c, p);
        lemma_all_join(a + b + c, d, p);
        assert(p(centre[0]));
        assert(all_are(centre, p));
        lemma_all_join(a + b + c + d, centre, p);
        assert(s == a + b + c + d + centre);
    }
}

/// Turning all legs together, every step does what it is for, in the right order:
/// feet that stand apart are moved one by one, the body is lowered onto its rest,
/// the legs float, fold, turn over and come home, feet with a new place are
/// aligned, and the body rises.
pub proof fn every_resting_step_does_what_it_is_for(req: FlipRequest)
    requires
        req.style is Rest,
    ensures
        ({
            let s = knee::flip_plan(req);
            let moved = if req.apart.count_spec() == 0 {
                0
            } else {
                1 + 4 * (4 - req.settled.count_spec())
            };
            let aligned = exists|l: int|
                0 <= l < 4 && req.old.forward_spec(l) == req.new.forward_spec(l)
                    && #[trigger] req.relocated.at(l);
            &&& all_are(s, |x: FlipStep| is_rest_step(req, x))
            &&& settle_in_order(s)
            &&& s.last().motion == Motion::Rise(3)
            &&& s.len() == moved + 15 + (if aligned { 1int } else { 0 })
            &&& moved == 0 ==> s[0].motion == Motion::Lower(1)
        }),
{
    let p = |s: FlipStep| is_rest_step(req, s);
    let before = req.knees(LegFlags::none_spec());
    let after = req.knees(LegFlags::all_spec());
    let feet = knee::replace_feet(req);
    let down = knee::settle_down(before);
    let turn = knee::turn_floating(before, after);
    let align = if knee::needs_align(req) {
        seq![knee::together(Motion::Align, StepTime::Phase, LegFlags::none_spec(), after, Floor::Rest)]
    } else {
        Seq::empty()
    };
    let up = knee::get_up(after);
    let s = knee::flip_plan(req);
    lemma_replace_feet(req);
    lemma_whole_row(req, down, p);
    lemma_whole_row(req, turn, p);
    lemma_whole_row(req, up, p);
    assert forall|i: int| 0 <= i < align.len() implies p(#[trigger] align[i]) by {
        assert(i == 0);
    }
    lemma_settle_join(feet, down);
    lemma_settle_join(feet + down, turn);
    lemma_settle_join(feet + down + turn, align);
    lemma_settle_join(feet + down + turn + align, up);
    lemma_all_join(feet, down, p);
    lemma_all_join(feet + down, turn, p);
    lemma_all_join(feet + down + turn, align, p);
    lemma_all_join(feet + down + turn + align, up, p);
    assert(s == feet + down + turn + align + up);
    assert(s.last() == up[3]);
    let aligned = exists|l: int|
        0 <= l < 4 && req.old.forward_spec(l) == req.new.forward_spec(l)
            && #[trigger] req.relocated.at(l);
    assert(aligned == knee::needs_align(req)) by {
        if aligned {
            let l = choose|l: int|
                0 <= l < 4 && req.old.forward_spec(l) == req.new.forward_spec(l)
                    && #[trigger] req.relocated.at(l);
            assert(!req.flips(l) && req.relocated.at(l));
        }
        if knee::needs_align(req) {
            let l = choose|l: int| 0 <= l < 4 && !req.flips(l) && #[trigger] req.relocated.at(l);
            assert(req.relocated.at(l));
        }
    }
    if feet.len() == 0 {
        assert(s[0] == down[0]);
    }
}

proof fn lemma_whole_row(req: FlipRequest, s: Seq<FlipStep>, p: spec_fn(FlipStep) -> bool)
    requires
        p == (|s: FlipStep| is_rest_step(req, s)),
        ({
            let before = req.knees(LegFlags::none_spec());
            let after = req.knees(LegFlags::all_spec());
            s == knee::settle_down(before) || s == knee::turn_floating(before, after) || s
                == knee::get_up(after)
        }),
    ensures
        all_are(s, p),
        settle_in_order(s),
{
    assert forall|i: int| 0 <= i < s.len() implies p(#[trigger] s[i]) by {
        assert(i == 0 || i == 1 || i == 2 || i == 3 || i == 4 || i == 5 || i == 6);
    }
    assert forall|i: int, j: int| 0 <= i && j == i + 1 && j < s.len() implies settles(
        #[trigger] s[i],
        #[trigger] s[j],
    ) by {
        assert(i == 0 || i == 1 || i == 2 || i == 3 || i == 4 || i == 5);
    }
}

// ---- When there is no choreography ----

/// A choreography is refused exactly when no knee is to change, or, resting, when
/// the robot is not known to rest lower than it stands.
pub proof fn a_choreography_is_refused_for_a_reason(req: FlipRequest)
    ensures
        ({
            let same = forall|l: int|
                0 <= l < 4 ==> #[trigger] req.old.forward_spec(l) == req.new.forward_spec(l);
            let rests = req.rest_height_m matches Some(h) && !req.stance_height_m.le_num(h);
            &&& req.error() == Some(FlipError::NothingToFlip) <==> same
            &&& req.error() == Some(FlipError::NoRestHeight) <==> !same && req.style is Rest
                && req.rest_height_m is None
            &&& req.error() == Some(FlipError::RestTooHigh) <==> !same && req.style is Rest
                && req.rest_height_m is Some && !rests
            &&& req.error() is None <==> !same && (!(req.style is Rest) || rests)
        }),
{
    assert(req.old.forward_spec(0) == req.new.forward_spec(0) <==> !req.flips(0));
    assert(req.old.forward_spec(1) == req.new.forward_spec(1) <==> !req.flips(1));
    assert(req.old.forward_spec(2) == req.new.forward_spec(2) <==> !req.flips(2));
    assert(req.old.forward_spec(3) == req.new.forward_spec(3) <==> !req.flips(3));
}

// ---- Balance ----

/// In the diagonal style the tilt feedback balances every step on two feet that is
/// not a probe; probes freeze the shift, and the hold of a probe is sampled; an
/// adjustment moves the body on two feet or on four. Nothing else is balanced.
pub proof fn two_feet_are_balanced(steps: Seq<FlipStep>, style: KneeFlipStyle, i: int)
    ensures
        ({
            let b = knee::balance_spec(steps, style, i);
            let s = steps[i];
            let inside = 0 <= i < steps.len();
            let two = s.stance.count_spec() == 2;
            &&& !(style is Trot) || !inside ==> b == Balance::Leave
            &&& style is Trot && inside ==> {
                &&& two && s.kind is Normal ==> b == Balance::Feedback
                &&& two && s.kind is ProbeMove ==> b == (Balance::Freeze { sample: false })
                &&& two && s.kind is ProbeHold ==> b == (Balance::Freeze { sample: true })
                &&& (two || all_down(s.stance)) && s.kind is Adjust ==> b == Balance::Adjust
                &&& !two && !(s.kind is Adjust) ==> b == Balance::Leave
                &&& !two && !all_down(s.stance) ==> b == Balance::Leave
            }
        }),
{
}

/// In the diagonal style, every step of the plan that stands on two feet and is no
/// probe is balanced by the tilt feedback: lifting, turning and coming home.
pub proof fn lifted_diagonals_are_balanced(req: FlipRequest, i: int)
    requires
        req.style is Trot,
        0 <= i < knee::flip_plan(req).len(),
    ensures
        ({
            let s = knee::flip_plan(req);
            let b = knee::balance_spec(s, req.style, i);
            let both = req.flips(0) && req.flips(3) && s[i].tag == Tag::Diagonal(0, 3) || req.flips(1)
                && req.flips(2) && s[i].tag == Tag::Diagonal(1, 2);
            &&& s[i].stance.count_spec() == 2 && s[i].kind is Normal ==> b == Balance::Feedback
            &&& both && (s[i].motion is Lift || s[i].motion is Turn || s[i].motion is Home) ==> b
                == Balance::Feedback
            &&& s[i].motion is ProbeUp ==> b == (Balance::Freeze { sample: false })
            &&& s[i].motion is ProbeHold ==> b == (Balance::Freeze { sample: true })
            &&& s[i].motion is Lean || s[i].motion is Readjust ==> b == Balance::Adjust
            &&& s[i].motion is Land || s[i].motion is Centre || s[i].motion is ProbeDown ==> b
                == Balance::Leave
        }),
{
    let s = knee::flip_plan(req);
    every_trotting_step_does_what_it_is_for(req);
    let p = |x: FlipStep| is_trot_step(req, x);
    assert(p(s[i]));
    let x = s[i];
    assert(x.stance.at(0) == x.stance.fl && x.stance.at(1) == x.stance.fr && x.stance.at(2)
        == x.stance.rl && x.stance.at(3) == x.stance.rr);
    if x.motion is ProbeUp || x.motion is ProbeHold {
        assert(x.tag == Tag::Diagonal(0, 3) ==> req.old.forward_spec(0) != req.new.forward_spec(0)
            && req.old.forward_spec(3) != req.new.forward_spec(3));
        assert(x.tag == Tag::Diagonal(1, 2) ==> req.old.forward_spec(1) != req.new.forward_spec(1)
            && req.old.forward_spec(2) != req.new.forward_spec(2));
    }
}

/// Moving on from one step to another: leaving the hold of a probe evaluates it,
/// entering one clears its samples, and going from four feet onto two restarts the
/// feedback, from the planned shift unless the body was just adjusted. Staying
/// does none of it.
pub proof fn moving_on_prepares_the_balance(steps: Seq<FlipStep>, was: int, now: int)
    requires
        0 <= was < steps.len(),
        0 <= now < steps.len(),
    ensures
        ({
            let e = knee::edge_spec(steps, was, now);
            let moved = was != now;
            let onto_two = all_down(steps[was].stance) && steps[now].stance.count_spec() == 2;
            &&& e.finish_probe <==> moved && steps[was].kind == KneeStepKind::ProbeHold
            &&& e.clear_probe <==> moved && steps[now].kind == KneeStepKind::ProbeHold
            &&& e.restart_feedback <==> moved && onto_two
            &&& e.take_planned_shift <==> moved && onto_two && steps[was].kind != KneeStepKind::Adjust
        }),
{
}

/// The samples that a probe is judged by are those taken more than a tenth of a
/// second into the hold while the tilt was small, all of them and in order.
pub proof fn a_probe_is_judged_by_its_quiet_samples(samples: Seq<ProbeSample>, max_tilt: Scalar, n: int)
    requires
        0 <= n <= samples.len(),
    ensures
        knee::counted_samples(samples, max_tilt, n) == samples.take(n).filter(
            |s: ProbeSample|
                s.tilt.abs_spec().lt_num(max_tilt) && (Scalar { bits: 0x3fb9_9999_9999_999a }).lt_num(
                    s.at_s,
                ),
        ),
    decreases n,
{
    reveal(Seq::filter);
    let t = samples.take(n);
    if n > 0 {
        a_probe_is_judged_by_its_quiet_samples(samples, max_tilt, n - 1);
        assert(t.drop_last() == samples.take(n - 1));
        assert(t.last() == samples[n - 1]);
    }
}

/// A target is outside its range exactly when it is below the lower end or above
/// the upper one.
pub proof fn a_target_at_the_end_of_its_range_is_inside(
    target: Seq<Scalar>,
    bounds: Seq<(Scalar, Scalar)>,
    k: int,
)
    requires
        !target[k].nan(),
        bounds[k].0.le_num(bounds[k].1),
    ensures
        !knee::outside(target, bounds, k) <==> bounds[k].0.le_num(target[k]) && target[k].le_num(
            bounds[k].1,
        ),
{
}

} // verus!
