//! What every knee choreography keeps.

use vstd::prelude::*;

use crate::config::KneeFlipStyle;
use crate::knee;
use crate::knee::{FlipRequest, FlipStep, Floor, KneeStepKind, Motion, StepTime, Support, Tag};
use crate::legs::LegFlags;

verus! {

/// Knee directions before step `i`.
pub open spec fn knees_before(s: Seq<FlipStep>, start: LegFlags, i: int) -> LegFlags {
    if i <= 0 {
        start
    } else {
        s[i - 1].forward
    }
}

/// Feet on the ground before step `i`.
pub open spec fn feet_before(s: Seq<FlipStep>, i: int) -> LegFlags {
    if i <= 0 {
        LegFlags::all_spec()
    } else {
        s[i - 1].stance
    }
}

/// If leg `slot` changes its knee direction in step `i`, its foot is off the
/// ground in that step and was so before it.
pub open spec fn turn_ok(s: Seq<FlipStep>, start: LegFlags, i: int, slot: int) -> bool {
    s[i].forward.at(slot) != knees_before(s, start, i).at(slot) ==> !s[i].stance.at(slot) && !feet_before(
        s,
        i,
    ).at(slot)
}

pub open spec fn turns_in_air(s: Seq<FlipStep>, start: LegFlags) -> bool {
    forall|i: int, slot: int| 0 <= i < s.len() && 0 <= slot < 4 ==> #[trigger] turn_ok(s, start, i, slot)
}

/// Knee directions after all steps.
pub open spec fn knees_after(s: Seq<FlipStep>, start: LegFlags) -> LegFlags {
    if s.len() == 0 {
        start
    } else {
        s.last().forward
    }
}

/// Every step keeps at least `feet` feet on the ground and lifts only legs that
/// are to be turned, and its support line stands.
pub open spec fn stands_on(s: Seq<FlipStep>, req: FlipRequest, feet: int) -> bool {
    forall|i: int| 0 <= i < s.len() ==> #[trigger] step_stands(s[i], req, feet)
}

pub open spec fn step_stands(step: FlipStep, req: FlipRequest, feet: int) -> bool {
    &&& step.stance.count_spec() >= feet
    &&& forall|slot: int| 0 <= slot < 4 && !#[trigger] step.stance.at(slot) ==> req.flips(slot)
}

/// The overrides of a step fit its feet: probing happens on two legs, adjusting
/// on four, and the legs of the support line carry.
pub open spec fn overrides_fit(step: FlipStep) -> bool {
    &&& step.kind is Adjust ==> step.stance == LegFlags::all_spec()
    &&& step.kind is ProbeMove || step.kind is ProbeHold ==> step.stance.count_spec() == 2
    &&& step.stance.at(step.support.a as int)
    &&& step.stance.at(step.support.b as int)
}

pub open spec fn all_overrides_fit(s: Seq<FlipStep>) -> bool {
    forall|i: int| 0 <= i < s.len() ==> #[trigger] overrides_fit(s[i])
}

proof fn lemma_join(a: Seq<FlipStep>, b: Seq<FlipStep>, start: LegFlags)
    requires
        turns_in_air(a, start),
        turns_in_air(b, knees_after(a, start)),
    ensures
        turns_in_air(a + b, start),
        knees_after(a + b, start) == knees_after(b, knees_after(a, start)),
{
    let s = a + b;
    assert forall|i: int, slot: int| 0 <= i < s.len() && 0 <= slot < 4 implies #[trigger] turn_ok(
        s,
        start,
        i,
        slot,
    ) by {
        if i < a.len() {
            assert(turn_ok(a, start, i, slot));
        } else {
            assert(turn_ok(b, knees_after(a, start), i - a.len(), slot));
        }
    }
}

proof fn lemma_stand_leg(req: FlipRequest, slot: usize, done: LegFlags)
    requires
        slot < 4,
    ensures
        turns_in_air(knee::stand_leg(req, slot, done), req.knees(done)),
        knees_after(knee::stand_leg(req, slot, done), req.knees(done)) == req.knees(
            done.with(slot as int, true),
        ),
        stands_on(knee::stand_leg(req, slot, done), req, 3),
{
    let s = knee::stand_leg(req, slot, done);
    if req.flips(slot as int) {
        assert(s.len() == 5);
        assert forall|i: int, k: int| 0 <= i < s.len() && 0 <= k < 4 implies #[trigger] turn_ok(
            s,
            req.knees(done),
            i,
            k,
        ) by {
            assert(i == 0 || i == 1 || i == 2 || i == 3 || i == 4);
        }
        assert forall|i: int| 0 <= i < s.len() implies #[trigger] step_stands(s[i], req, 3) by {
            assert(i == 0 || i == 1 || i == 2 || i == 3 || i == 4);
        }
    }
}

proof fn lemma_stand_plan(req: FlipRequest)
    ensures
        turns_in_air(knee::stand_plan(req), req.knees(LegFlags::none_spec())),
        stands_on(knee::stand_plan(req), req, 3),
        knee::stand_plan(req).len() > 0,
        knee::stand_plan(req).last().stance == LegFlags::all_spec(),
        knee::stand_plan(req).last().forward == req.knees(LegFlags::all_spec()),
{
    let none = LegFlags::none_spec();
    let one = none.with(0, true);
    let two = one.with(3, true);
    let three = two.with(1, true);
    let four = three.with(2, true);
    let start = req.knees(none);
    let a = knee::stand_leg(req, 0, none);
    let b = knee::stand_leg(req, 3, one);
    let c = knee::stand_leg(req, 1, two);
    let d = knee::stand_leg(req, 2, three);
    let centre = seq![
        knee::step_of(
            Motion::Centre,
            Tag::Everyone,
            StepTime::TwoStandPhases,
            LegFlags::all_spec(),
            req.knees(four),
            Floor::Stance,
        ),
    ];
    lemma_stand_leg(req, 0, none);
    lemma_stand_leg(req, 3, one);
    lemma_stand_leg(req, 1, two);
    lemma_stand_leg(req, 2, three);
    lemma_join(a, b, start);
    lemma_join(a + b, c, start);
    lemma_join(a + b + c, d, start);
    assert(turns_in_air(centre, req.knees(four)));
    lemma_join(a + b + c + d, centre, start);
    assert forall|i: int| 0 <= i < knee::stand_plan(req).len() implies #[trigger] step_stands(
        knee::stand_plan(req)[i],
        req,
        3,
    ) by {
        lemma_stands_join(a, b, req, 3);
        lemma_stands_join(a + b, c, req, 3);
        lemma_stands_join(a + b + c, d, req, 3);
        assert(step_stands(centre[0], req, 3));
        lemma_stands_join(a + b + c + d, centre, req, 3);
    }
}

proof fn lemma_stands_join(a: Seq<FlipStep>, b: Seq<FlipStep>, req: FlipRequest, feet: int)
    requires
        stands_on(a, req, feet),
        stands_on(b, req, feet),
    ensures
        stands_on(a + b, req, feet),
{
    assert forall|i: int| 0 <= i < (a + b).len() implies #[trigger] step_stands((a + b)[i], req, feet) by {
        if i < a.len() {
            assert(step_stands(a[i], req, feet));
        } else {
            assert(step_stands(b[i - a.len()], req, feet));
        }
    }
}

proof fn lemma_fit_join(a: Seq<FlipStep>, b: Seq<FlipStep>)
    requires
        all_overrides_fit(a),
        all_overrides_fit(b),
    ensures
        all_overrides_fit(a + b),
{
    assert forall|i: int| 0 <= i < (a + b).len() implies #[trigger] overrides_fit((a + b)[i]) by {
        if i < a.len() {
            assert(overrides_fit(a[i]));
        } else {
            assert(overrides_fit(b[i - a.len()]));
        }
    }
}

/// What a row of steps with unchanged knees keeps.
spec fn steady(s: Seq<FlipStep>, knees: LegFlags, req: FlipRequest) -> bool {
    &&& turns_in_air(s, knees)
    &&& knees_after(s, knees) == knees
    &&& stands_on(s, req, 2)
    &&& all_overrides_fit(s)
}

/// `a` and `b` are one diagonal and `support` is the other.
spec fn diagonals(a: usize, b: usize, support: Support) -> bool {
    ||| a == 0 && b == 3 && support == (Support { a: 1, b: 2 })
    ||| a == 1 && b == 2 && support == (Support { a: 0, b: 3 })
}

proof fn lemma_probe(
    req: FlipRequest,
    a: usize,
    b: usize,
    support: Support,
    knees: LegFlags,
    rounds: nat,
)
    requires
        diagonals(a, b, support),
        req.flips(a as int),
        req.flips(b as int),
    ensures
        steady(
            knee::probe_rounds(
                Tag::Diagonal(a, b),
                LegFlags::all_spec().with(a as int, false).with(b as int, false),
                knees,
                support,
                rounds,
            ),
            knees,
            req,
        ),
    decreases rounds,
{
    let tag = Tag::Diagonal(a, b);
    let lifted = LegFlags::all_spec().with(a as int, false).with(b as int, false);
    if rounds > 0 {
        let fewer = (rounds - 1) as nat;
        lemma_probe(req, a, b, support, knees, fewer);
        let p = knee::probe_rounds(tag, lifted, knees, support, fewer);
        let q = knee::probe_round(tag, lifted, knees, support, rounds as u64);
        assert(q.len() == 4);
        assert forall|i: int, k: int| 0 <= i < q.len() && 0 <= k < 4 implies #[trigger] turn_ok(
            q,
            knees,
            i,
            k,
        ) by {
            assert(i == 0 || i == 1 || i == 2 || i == 3);
        }
        assert forall|i: int| 0 <= i < q.len() implies #[trigger] step_stands(q[i], req, 2) by {
            assert(i == 0 || i == 1 || i == 2 || i == 3);
        }
        assert forall|i: int| 0 <= i < q.len() implies #[trigger] overrides_fit(q[i]) by {
            assert(i == 0 || i == 1 || i == 2 || i == 3);
        }
        lemma_join(p, q, knees);
        lemma_stands_join(p, q, req, 2);
        lemma_fit_join(p, q);
    }
}

proof fn lemma_trot_pair(req: FlipRequest, a: usize, b: usize, support: Support, done: LegFlags)
    requires
        diagonals(a, b, support),
    ensures
        turns_in_air(knee::trot_pair(req, a, b, support, done), req.knees(done)),
        knees_after(knee::trot_pair(req, a, b, support, done), req.knees(done)) == req.knees(
            done.with(a as int, true).with(b as int, true),
        ),
        stands_on(knee::trot_pair(req, a, b, support, done), req, 2),
        all_overrides_fit(knee::trot_pair(req, a, b, support, done)),
{
    let all = LegFlags::all_spec();
    let lifted = all.with(a as int, !req.flips(a as int)).with(b as int, !req.flips(b as int));
    let before = req.knees(done);
    let after = req.knees(done.with(a as int, true).with(b as int, true));
    let tag = Tag::Diagonal(a, b);
    let normal = KneeStepKind::Normal;
    if req.flips(a as int) || req.flips(b as int) {
        let lean = seq![
            knee::diagonal_step(
                Motion::Lean,
                tag,
                StepTime::TwoPhases,
                all,
                before,
                KneeStepKind::Adjust,
                support,
            ),
        ];
        let n = knee::probing(req, a as int, b as int);
        let probe = knee::probe_rounds(tag, lifted, before, support, n);
        let turn = seq![
            knee::diagonal_step(Motion::Lift, tag, StepTime::Phase, lifted, before, normal, support),
            knee::diagonal_step(Motion::Turn, tag, StepTime::Phase, lifted, after, normal, support),
            knee::diagonal_step(Motion::Home, tag, StepTime::Phase, lifted, after, normal, support),
            knee::diagonal_step(Motion::Land, tag, StepTime::Phase, all, after, normal, support),
        ];
        if n > 0 {
            lemma_probe(req, a, b, support, before, n);
        }
        assert(steady(probe, before, req));
        assert(turns_in_air(lean, before));
        assert(step_stands(lean[0], req, 2));
        assert(overrides_fit(lean[0]));
        assert(stands_on(lean, req, 2));
        assert(all_overrides_fit(lean));
        assert forall|i: int, k: int| 0 <= i < turn.len() && 0 <= k < 4 implies #[trigger] turn_ok(
            turn,
            before,
            i,
            k,
        ) by {
            assert(i == 0 || i == 1 || i == 2 || i == 3);
        }
        assert forall|i: int| 0 <= i < turn.len() implies #[trigger] step_stands(turn[i], req, 2) by {
            assert(i == 0 || i == 1 || i == 2 || i == 3);
        }
        assert forall|i: int| 0 <= i < turn.len() implies #[trigger] overrides_fit(turn[i]) by {
            assert(i == 0 || i == 1 || i == 2 || i == 3);
        }
        lemma_join(lean, probe, before);
        lemma_join(lean + probe, turn, before);
        lemma_stands_join(lean, probe, req, 2);
        lemma_stands_join(lean + probe, turn, req, 2);
        lemma_fit_join(lean, probe);
        lemma_fit_join(lean + probe, turn);
    }
}

proof fn lemma_trot_plan(req: FlipRequest)
    ensures
        turns_in_air(knee::trot_plan(req), req.knees(LegFlags::none_spec())),
        stands_on(knee::trot_plan(req), req, 2),
        all_overrides_fit(knee::trot_plan(req)),
        knee::trot_plan(req).len() > 0,
        knee::trot_plan(req).last().stance == LegFlags::all_spec(),
        knee::trot_plan(req).last().forward == req.knees(LegFlags::all_spec()),
{
    let none = LegFlags::none_spec();
    let half = none.with(0, true).with(3, true);
    let full = half.with(1, true).with(2, true);
    let start = req.knees(none);
    let first = Support { a: 1, b: 2 };
    let second = Support { a: 0, b: 3 };
    let a = knee::trot_pair(req, 0, 3, first, none);
    let b = knee::trot_pair(req, 1, 2, second, half);
    let centre = seq![knee::trot_plan(req).last()];
    assert(knee::trot_plan(req) == a + b + centre);
    lemma_trot_pair(req, 0, 3, first, none);
    lemma_trot_pair(req, 1, 2, second, half);
    lemma_join(a, b, start);
    assert(turns_in_air(centre, req.knees(full)));
    lemma_join(a + b, centre, start);
    assert(step_stands(centre[0], req, 2));
    assert(overrides_fit(centre[0]));
    assert(stands_on(centre, req, 2));
    assert(all_overrides_fit(centre));
    lemma_stands_join(a, b, req, 2);
    lemma_stands_join(a + b, centre, req, 2);
    lemma_fit_join(a, b);
    lemma_fit_join(a + b, centre);
}

proof fn lemma_replace_foot(req: FlipRequest, slot: usize)
    requires
        slot < 4,
    ensures
        turns_in_air(knee::replace_foot(req, slot), req.knees(LegFlags::none_spec())),
        knees_after(knee::replace_foot(req, slot), req.knees(LegFlags::none_spec())) == req.knees(
            LegFlags::none_spec(),
        ),
{
    let s = knee::replace_foot(req, slot);
    assert forall|i: int, k: int| 0 <= i < s.len() && 0 <= k < 4 implies #[trigger] turn_ok(
        s,
        req.knees(LegFlags::none_spec()),
        i,
        k,
    ) by {
        assert(i == 0 || i == 1 || i == 2 || i == 3);
    }
}

proof fn lemma_replace_feet(req: FlipRequest)
    ensures
        turns_in_air(knee::replace_feet(req), req.knees(LegFlags::none_spec())),
        knees_after(knee::replace_feet(req), req.knees(LegFlags::none_spec())) == req.knees(
            LegFlags::none_spec(),
        ),
{
    let before = req.knees(LegFlags::none_spec());
    let feet = knee::replace_feet(req);
    if req.apart.count_spec() != 0 {
        let a = knee::replace_foot(req, 0);
        let b = knee::replace_foot(req, 3);
        let c = knee::replace_foot(req, 1);
        let d = knee::replace_foot(req, 2);
        let centre = seq![feet.last()];
        lemma_replace_foot(req, 0);
        lemma_replace_foot(req, 3);
        lemma_replace_foot(req, 1);
        lemma_replace_foot(req, 2);
        lemma_join(a, b, before);
        lemma_join(a + b, c, before);
        lemma_join(a + b + c, d, before);
        assert(turns_in_air(centre, before));
        lemma_join(a + b + c + d, centre, before);
        assert(feet == a + b + c + d + centre);
    }
}

proof fn lemma_settle_down(knees: LegFlags)
    ensures
        turns_in_air(knee::settle_down(knees), knees),
        knees_after(knee::settle_down(knees), knees) == knees,
{
    let s = knee::settle_down(knees);
    assert forall|i: int, k: int| 0 <= i < s.len() && 0 <= k < 4 implies #[trigger] turn_ok(
        s,
        knees,
        i,
        k,
    ) by {
        assert(i == 0 || i == 1 || i == 2 || i == 3);
    }
}

proof fn lemma_turn_floating(before: LegFlags, after: LegFlags)
    ensures
        turns_in_air(knee::turn_floating(before, after), before),
        knees_after(knee::turn_floating(before, after), before) == after,
{
    let s = knee::turn_floating(before, after);
    assert forall|i: int, k: int| 0 <= i < s.len() && 0 <= k < 4 implies #[trigger] turn_ok(
        s,
        before,
        i,
        k,
    ) by {
        assert(i == 0 || i == 1 || i == 2 || i == 3 || i == 4 || i == 5 || i == 6);
    }
}

proof fn lemma_get_up(knees: LegFlags)
    ensures
        turns_in_air(knee::get_up(knees), knees),
        knee::get_up(knees).len() == 4,
        knee::get_up(knees).last().stance == LegFlags::all_spec(),
        knee::get_up(knees).last().forward == knees,
{
    let s = knee::get_up(knees);
    assert forall|i: int, k: int| 0 <= i < s.len() && 0 <= k < 4 implies #[trigger] turn_ok(
        s,
        knees,
        i,
        k,
    ) by {
        assert(i == 0 || i == 1 || i == 2 || i == 3);
    }
}

proof fn lemma_rest_plan(req: FlipRequest)
    ensures
        turns_in_air(knee::rest_plan(req), req.knees(LegFlags::none_spec())),
        knee::rest_plan(req).len() > 0,
        knee::rest_plan(req).last().stance == LegFlags::all_spec(),
        knee::rest_plan(req).last().forward == req.knees(LegFlags::all_spec()),
{
    let before = req.knees(LegFlags::none_spec());
    let after = req.knees(LegFlags::all_spec());
    let feet = knee::replace_feet(req);
    let down = knee::settle_down(before);
    let turn = knee::turn_floating(before, after);
    let align = if knee::needs_align(req) {
        seq![knee::together(Motion::Align, StepTime::Phase, LegFlags::none_spec(), after, Floor::Rest)]
    } else {
        Seq::empty()
    };
    let up = knee::get_up(after);
    lemma_replace_feet(req);
    lemma_settle_down(before);
    lemma_turn_floating(before, after);
    lemma_get_up(after);
    assert(turns_in_air(align, after));
    lemma_join(feet, down, before);
    lemma_join(feet + down, turn, before);
    lemma_join(feet + down + turn, align, before);
    lemma_join(feet + down + turn + align, up, before);
}

/// A knee changes its direction only while its foot is in the air, and the foot
/// was in the air before.
pub proof fn knees_turn_only_in_the_air(req: FlipRequest)
    ensures
        turns_in_air(knee::flip_plan(req), req.knees(LegFlags::none_spec())),
{
    match req.style {
        KneeFlipStyle::Rest => lemma_rest_plan(req),
        KneeFlipStyle::Trot => lemma_trot_plan(req),
        KneeFlipStyle::Stand => lemma_stand_plan(req),
    }
}

/// The choreography ends on four feet, with every knee bent as requested.
pub proof fn the_choreography_ends_on_the_new_knees(req: FlipRequest)
    ensures
        knee::flip_plan(req).len() > 0,
        knee::flip_plan(req).last().stance == LegFlags::all_spec(),
        forall|slot: int|
            0 <= slot < 4 ==> #[trigger] knee::flip_plan(req).last().forward.at(slot) == req.new.forward_spec(
                slot,
            ),
{
    match req.style {
        KneeFlipStyle::Rest => lemma_rest_plan(req),
        KneeFlipStyle::Trot => lemma_trot_plan(req),
        KneeFlipStyle::Stand => lemma_stand_plan(req),
    }
}

/// Turning one leg at a time always leaves three feet on the ground, and lifts
/// only legs that are turned.
pub proof fn standing_keeps_three_feet_down(req: FlipRequest)
    requires
        req.style is Stand,
    ensures
        stands_on(knee::flip_plan(req), req, 3),
{
    lemma_stand_plan(req);
}

/// Turning a diagonal at a time always leaves two feet on the ground, lifts
/// only legs that are turned, keeps the support line standing, probes on two
/// legs and adjusts on four.
pub proof fn trotting_keeps_its_support_line(req: FlipRequest)
    requires
        req.style is Trot,
    ensures
        stands_on(knee::flip_plan(req), req, 2),
        all_overrides_fit(knee::flip_plan(req)),
{
    lemma_trot_plan(req);
}

} // verus!
