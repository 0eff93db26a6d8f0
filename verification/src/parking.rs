//! Searching for a place for a foot, and for a direction for a thigh.

use vstd::prelude::*;
use vstd::string::*;

use crate::knee;
use crate::knee::leg_name;
use crate::scalar::Scalar;

verus! {

/// Sideways shifts that are tried.
pub const SHIFTS_Y: usize = 26;

/// Forward and backward shifts that are tried at each sideways one.
pub const SHIFTS_X: usize = 41;

/// A shift of a foot in hundredths of a metre: forward, and outward.
#[derive(Clone, Copy, Debug, PartialEq, Eq, Structural)]
pub struct Shift {
    pub x: i32,
    pub y: i32,
}

/// The `n`th shift: at each sideways shift first straight, then ever further
/// backward and forward in turn.
pub open spec fn shift_spec(n: int) -> Shift {
    let ix = n % SHIFTS_X as int;
    let far = (ix + 1) / 2;
    Shift { x: (if ix % 2 == 0 { far } else { -far }) as i32, y: (n / SHIFTS_X as int) as i32 }
}

pub fn shift_at(n: usize) -> (r: Shift)
    requires
        n < SHIFTS_X * SHIFTS_Y,
    ensures
        r == shift_spec(n as int),
{
    let ix: usize = n % SHIFTS_X;
    let far: i32 = ((ix + 1) / 2) as i32;
    let iy: usize = n / SHIFTS_X;
    Shift {
        x: if ix % 2 == 0 {
            far
        } else {
            -far
        },
        y: iy as i32,
    }
}

/// Joint `k` is inside its range.
pub open spec fn inside(q: [Scalar; 3], ranges: [(Scalar, Scalar); 3], k: int) -> bool {
    ranges@[k].0.le_num(q@[k]) && q@[k].le_num(ranges@[k].1)
}

/// Whether a foot can stand in a place: the leg reaches it, every joint is
/// inside its range, and the knee stays off the floor. The ranges are already
/// widened by the tolerance.
pub fn can_stand(
    angles: Option<[Scalar; 3]>,
    ranges: &[(Scalar, Scalar); 3],
    knee_z: Scalar,
    lowest_knee_z: Scalar,
) -> (r: bool)
    ensures
        r == (match angles {
            None => false,
            Some(q) => {
                &&& forall|k: int| 0 <= k < 3 ==> #[trigger] inside(q, *ranges, k)
                &&& !knee_z.lt_num(lowest_knee_z)
            },
        }),
{
    match angles {
        None => false,
        Some(q) => {
            let mut k: usize = 0;
            while k < 3
                invariant
                    k <= 3,
                    angles == Some(q),
                    forall|j: int| 0 <= j < k ==> #[trigger] inside(q, *ranges, j),
                decreases 3 - k,
            {
                if !ranges[k].0.at_most(q[k]) || !q[k].at_most(ranges[k].1) {
                    assert(!inside(angles->0, *ranges, k as int));
                    return false;
                }
                k += 1;
            }
            !knee_z.less(lowest_knee_z)
        },
    }
}

/// The cheapest among the first `n` candidates. Candidates that will not do cost
/// nothing at all: they are `None`. Of equal ones the first is taken.
pub open spec fn cheapest(costs: Seq<Option<Scalar>>, n: int) -> Option<int>
    decreases n,
{
    if n <= 0 {
        None
    } else {
        let before = cheapest(costs, n - 1);
        match costs[n - 1] {
            None => before,
            Some(c) => match before {
                None => Some(n - 1),
                Some(b) => if c.lt_num(costs[b]->0) {
                    Some(n - 1)
                } else {
                    before
                },
            },
        }
    }
}

/// The first of the cheapest candidates.
pub fn first_cheapest(costs: &Vec<Option<Scalar>>) -> (r: Option<usize>)
    ensures
        match r {
            Some(i) => cheapest(costs@, costs@.len() as int) == Some(i as int) && i < costs@.len()
                && costs@[i as int] is Some,
            None => cheapest(costs@, costs@.len() as int) is None && forall|i: int|
                0 <= i < costs@.len() ==> (#[trigger] costs@[i]) is None,
        },
{
    let mut best: Option<(usize, Scalar)> = None;
    let mut i: usize = 0;
    while i < costs.len()
        invariant
            i <= costs@.len(),
            match best {
                Some(b) => cheapest(costs@, i as int) == Some(b.0 as int) && b.0 < i
                    && costs@[b.0 as int] == Some(b.1),
                None => cheapest(costs@, i as int) is None && forall|k: int|
                    0 <= k < i ==> (#[trigger] costs@[k]) is None,
            },
        decreases costs@.len() - i,
    {
        match costs[i] {
            Some(c) => {
                let better: bool = match best {
                    Some(b) => c.less(b.1),
                    None => true,
                };
                if better {
                    best = Some((i, c));
                }
            },
            None => {},
        }
        i += 1;
    }
    match best {
        Some(b) => Some(b.0),
        None => None,
    }
}

pub open spec fn knee_side(forward: bool) -> Seq<char> {
    if forward {
        "前"@
    } else {
        "後ろ"@
    }
}

/// The complaint about a leg for whose foot there is no place. `height` is the
/// body's height in words.
pub fn no_place(slot: usize, height: &str, forward: bool) -> (r: String)
    requires
        slot < 4,
    ensures
        r@ == knee::leg_name_spec(slot as int) + " は足先をどこへずらしても胴体 "@ + height@
            + " m で膝"@ + knee_side(forward) + "に置けない"@,
{
    let mut out: String = leg_name(slot).to_owned();
    out.append(" は足先をどこへずらしても胴体 ");
    out.append(height);
    out.append(" m で膝");
    if forward {
        out.append("前");
    } else {
        out.append("後ろ");
    }
    out.append("に置けない");
    out
}

/// Three radians.
pub const DEEP_FOLD: u64 = 0x4008_0000_0000_0000;

/// Two and a fifth radians.
pub const FOLD: u64 = 0x4001_9999_9999_999a;

/// How far a calf is folded: as far as asked for, but not up to its stop.
/// `above_low` and `below_high` are the ends of its range less the margin.
pub open spec fn folded_calf(
    backward: bool,
    deep: bool,
    above_low: Scalar,
    below_high: Scalar,
) -> Scalar {
    let cap = Scalar { bits: if deep { DEEP_FOLD } else { FOLD } };
    if backward {
        if above_low.nan() || above_low.lt_num(cap.neg_spec()) {
            cap.neg_spec()
        } else {
            above_low
        }
    } else {
        if below_high.nan() || cap.lt_num(below_high) {
            cap
        } else {
            below_high
        }
    }
}

pub fn fold_calf(backward: bool, deep: bool, above_low: Scalar, below_high: Scalar) -> (r: Scalar)
    ensures
        r == folded_calf(backward, deep, above_low, below_high),
{
    let cap: Scalar = Scalar::from_bits(
        if deep {
            DEEP_FOLD
        } else {
            FOLD
        },
    );
    if backward {
        if above_low.is_nan() || above_low.less(cap.neg()) {
            cap.neg()
        } else {
            above_low
        }
    } else {
        if below_high.is_nan() || cap.less(below_high) {
            cap
        } else {
            below_high
        }
    }
}

/// No candidate is cheaper than the chosen one, and no earlier one is as cheap.
pub proof fn the_chosen_one_is_cheapest(costs: Seq<Option<Scalar>>, n: int)
    requires
        0 <= n <= costs.len(),
        forall|i: int| 0 <= i < n && (#[trigger] costs[i]) is Some ==> !costs[i]->0.nan(),
    ensures
        match cheapest(costs, n) {
            None => forall|i: int| 0 <= i < n ==> (#[trigger] costs[i]) is None,
            Some(b) => {
                &&& 0 <= b < n
                &&& costs[b] is Some
                &&& forall|i: int|
                    0 <= i < n && (#[trigger] costs[i]) is Some ==> costs[b]->0.le_num(costs[i]->0)
                &&& forall|i: int|
                    0 <= i < b && (#[trigger] costs[i]) is Some ==> costs[b]->0.lt_num(costs[i]->0)
            },
        },
    decreases n,
{
    if n > 0 {
        the_chosen_one_is_cheapest(costs, n - 1);
    }
}

/// The search begins where the foot is, stays within a fifth of a metre along
/// the body and a quarter outward, and tries no shift twice.
pub proof fn shifts_cover_their_range(n: int, m: int)
    requires
        0 <= n < SHIFTS_X * SHIFTS_Y,
        0 <= m < SHIFTS_X * SHIFTS_Y,
    ensures
        shift_spec(0) == (Shift { x: 0, y: 0 }),
        -20 <= shift_spec(n).x <= 20,
        0 <= shift_spec(n).y <= 25,
        shift_spec(n) == shift_spec(m) ==> n == m,
{
    let a = n % 41;
    let b = m % 41;
    if shift_spec(n) == shift_spec(m) {
        assert(n / 41 == m / 41);
        assert(a == b);
    }
}

/// A calf folds to its own side, as far as is asked for (three radians, or two and
/// a fifth), but not beyond the end of its range less the margin.
pub proof fn a_calf_folds_to_its_side_within_its_range(
    backward: bool,
    deep: bool,
    above_low: Scalar,
    below_high: Scalar,
)
    requires
        !above_low.nan(),
        !below_high.nan(),
    ensures
        ({
            let q = folded_calf(backward, deep, above_low, below_high);
            let far = Scalar { bits: if deep { 0x4008_0000_0000_0000 } else { 0x4001_9999_9999_999a } };
            &&& backward ==> far.neg_spec().le_num(q) && above_low.le_num(q) && (q == far.neg_spec() || q
                == above_low)
            &&& !backward ==> q.le_num(far) && q.le_num(below_high) && (q == far || q == below_high)
        }),
{
}

/// A joint on the end of its range is inside.
pub proof fn a_joint_between_its_ends_is_inside(q: [Scalar; 3], ranges: [(Scalar, Scalar); 3], k: int)
    requires
        !q@[k].nan(),
        ranges@[k].0.le_num(ranges@[k].1),
    ensures
        !inside(q, ranges, k) <==> q@[k].lt_num(ranges@[k].0) || ranges@[k].1.lt_num(q@[k]),
{
}

/// Nearer shifts are tried before further ones: outward row by row, and within a
/// row never nearer again, backward before forward.
pub proof fn nearer_shifts_come_first(n: int, m: int)
    requires
        0 <= n < m < SHIFTS_X * SHIFTS_Y,
    ensures
        ({
            let a = shift_spec(n);
            let b = shift_spec(m);
            let far = |x: int| if x < 0 { -x } else { x };
            &&& a.y <= b.y
            &&& a.y == b.y ==> far(a.x as int) <= far(b.x as int)
            &&& a.y == b.y && far(a.x as int) == far(b.x as int) ==> a.x < 0 < b.x
        }),
{
}

/// A knee is named by the side it points to.
pub proof fn knees_are_named_by_their_side()
    ensures
        knee_side(true) == "前"@,
        knee_side(false) == "後ろ"@,
{
}

} // verus!
