//! The axes of a robot and their names.

use vstd::prelude::*;
use vstd::string::*;

use crate::text;
use crate::text::{push_decimal, quoted, same};

verus! {

/// Number of axes that an [`AxisId`] can tell apart.
pub const AXIS_CAPACITY: usize = 65536;

/// Position of an axis in the table, in every command and in every observation.
#[derive(Clone, Copy, Debug, PartialEq, Eq, PartialOrd, Ord, Hash, Structural)]
pub struct AxisId(pub u16);

impl AxisId {
    pub fn new(index: u16) -> (r: AxisId)
        ensures
            r == AxisId(index),
    {
        AxisId(index)
    }

    pub fn index(self) -> (r: usize)
        ensures
            r == self.0,
    {
        self.0 as usize
    }
}

/// The id of position `i`: its low 16 bits.
pub open spec fn id_at(i: int) -> AxisId {
    AxisId((i % 65536) as u16)
}

pub fn id_of_index(i: usize) -> (r: AxisId)
    ensures
        r == id_at(i as int),
{
    AxisId((i % 65536) as u16)
}

/// Ids of the positions below `n` for which `p` holds, in order.
pub open spec fn ids_where(n: int, p: spec_fn(int) -> bool) -> Seq<AxisId>
    decreases n,
{
    if n <= 0 {
        Seq::empty()
    } else if p(n - 1) {
        ids_where(n - 1, p).push(id_at(n - 1))
    } else {
        ids_where(n - 1, p)
    }
}

/// Nothing is listed where nothing qualifies.
pub proof fn ids_where_none(n: int, p: spec_fn(int) -> bool)
    requires
        forall|i: int| 0 <= i < n ==> !#[trigger] p(i),
    ensures
        ids_where(n, p).len() == 0,
    decreases n,
{
    if n > 0 {
        ids_where_none(n - 1, p);
    }
}

/// The list is ascending and holds exactly the positions that qualify.
pub proof fn ids_where_lists_exactly(n: int, p: spec_fn(int) -> bool)
    requires
        n <= AXIS_CAPACITY,
    ensures
        forall|id: AxisId| #[trigger]
            ids_where(n, p).contains(id) <==> id.0 < n && p(id.0 as int),
        forall|j: int, k: int|
            0 <= j < k < ids_where(n, p).len() ==> (#[trigger] ids_where(n, p)[j]).0 < (
            #[trigger] ids_where(n, p)[k]).0,
    decreases n,
{
    if n > 0 {
        ids_where_lists_exactly(n - 1, p);
        let shorter = ids_where(n - 1, p);
        let all = ids_where(n, p);
        assert forall|id: AxisId| #[trigger] all.contains(id) <==> id.0 < n && p(id.0 as int) by {
            assert(shorter.contains(id) <==> id.0 < n - 1 && p(id.0 as int));
            if all.contains(id) {
                let k = choose|k: int| 0 <= k < all.len() && all[k] == id;
                if k < shorter.len() {
                    assert(shorter[k] == id);
                }
            }
            if shorter.contains(id) {
                let k = choose|k: int| 0 <= k < shorter.len() && shorter[k] == id;
                assert(all[k] == id);
            }
            if id.0 == n - 1 && p(n - 1) {
                assert(all[all.len() - 1] == id);
            }
        }
        assert forall|j: int, k: int| 0 <= j < k < all.len() implies (#[trigger] all[j]).0 < (
        #[trigger] all[k]).0 by {
            assert(shorter.contains(shorter[j]) || j >= shorter.len());
        }
    }
}

/// The list depends only on which positions qualify.
pub proof fn ids_where_agree(n: int, p: spec_fn(int) -> bool, q: spec_fn(int) -> bool)
    requires
        forall|i: int| 0 <= i < n ==> #[trigger] p(i) == #[trigger] q(i),
    ensures
        ids_where(n, p) == ids_where(n, q),
    decreases n,
{
    if n > 0 {
        ids_where_agree(n - 1, p, q);
        assert(p(n - 1) == q(n - 1));
    }
}

/// What an axis is there for.
#[derive(Clone, Copy, Debug, PartialEq, Eq, Structural)]
pub enum AxisRole {
    Leg { leg: u8, joint: u8 },
    Aux,
}

/// One axis: the joint's name in the model, and its role.
#[derive(Clone, Debug, PartialEq, Eq)]
pub struct Axis {
    pub name: String,
    pub role: AxisRole,
}

/// All axes of a robot, in one fixed order. No joint name occurs twice.
#[derive(Clone, Debug, PartialEq, Eq)]
pub struct AxisTable {
    axes: Vec<Axis>,
}

/// Position `i` repeats the name of an earlier position.
pub open spec fn repeats(axes: Seq<Axis>, i: int) -> bool {
    exists|j: int| 0 <= j < i && #[trigger] axes[j].name@ == axes[i].name@
}

/// `i` is the first position that repeats a name, and `j` the first one with
/// that name.
pub open spec fn first_repeat(axes: Seq<Axis>, j: int, i: int) -> bool {
    &&& 0 <= j < i < axes.len()
    &&& axes[j].name@ == axes[i].name@
    &&& forall|k: int| 0 <= k < j ==> #[trigger] axes[k].name@ != axes[i].name@
    &&& forall|k: int| 0 <= k < i ==> !#[trigger] repeats(axes, k)
}

pub open spec fn repeat_message(name: Seq<char>, j: int, i: int) -> Seq<char> {
    "関節名 "@ + text::debug_quoted(name) + " が "@ + text::decimal(j as nat) + " 番と "@ + text::decimal(i as nat)
        + " 番で重複しています"@
}

/// Whether the axis at `i` belongs to leg number `leg`.
pub open spec fn in_leg(axes: Seq<Axis>, leg: int, i: int) -> bool {
    axes[i].role matches AxisRole::Leg { leg: l, .. } && l == leg
}

/// Ids of the axes of leg number `leg` among the first `n`, in order.
pub open spec fn leg_ids(axes: Seq<Axis>, leg: int, n: int) -> Seq<AxisId>
    decreases n,
{
    if n <= 0 {
        Seq::empty()
    } else if in_leg(axes, leg, n - 1) {
        leg_ids(axes, leg, n - 1).push(id_at(n - 1))
    } else {
        leg_ids(axes, leg, n - 1)
    }
}

/// One more than the largest leg number among the first `n` axes; zero
/// without a leg axis.
pub open spec fn leg_count(axes: Seq<Axis>, n: int) -> int
    decreases n,
{
    if n <= 0 {
        0
    } else {
        match axes[n - 1].role {
            AxisRole::Leg { leg, .. } => if leg + 1 > leg_count(axes, n - 1) {
                leg + 1
            } else {
                leg_count(axes, n - 1)
            },
            AxisRole::Aux => leg_count(axes, n - 1),
        }
    }
}

/// Ids of the auxiliary axes among the first `n`, in order.
pub open spec fn aux_ids(axes: Seq<Axis>, n: int) -> Seq<AxisId>
    decreases n,
{
    if n <= 0 {
        Seq::empty()
    } else if axes[n - 1].role is Aux {
        aux_ids(axes, n - 1).push(id_at(n - 1))
    } else {
        aux_ids(axes, n - 1)
    }
}

impl AxisTable {
    pub closed spec fn view(&self) -> Seq<Axis> {
        self.axes@
    }

    /// No name occurs twice.
    pub open spec fn wf(&self) -> bool {
        forall|i: int| 0 <= i < self@.len() ==> !#[trigger] repeats(self@, i)
    }

    pub fn new(axes: Vec<Axis>) -> (r: Result<AxisTable, String>)
        ensures
            r is Ok <==> forall|i: int| 0 <= i < axes@.len() ==> !#[trigger] repeats(axes@, i),
            r matches Ok(t) ==> t@ == axes@ && t.wf(),
            r matches Err(e) ==> exists|j: int, i: int|
                #[trigger] first_repeat(axes@, j, i) && e@ == repeat_message(axes@[i].name@, j, i),
    {
        let mut i: usize = 0;
        while i < axes.len()
            invariant
                i <= axes@.len(),
                forall|k: int| 0 <= k < i ==> !#[trigger] repeats(axes@, k),
            decreases axes@.len() - i,
        {
            let mut j: usize = 0;
            while j < i
                invariant
                    j <= i < axes@.len(),
                    forall|k: int| 0 <= k < i ==> !#[trigger] repeats(axes@, k),
                    forall|k: int| 0 <= k < j ==> #[trigger] axes@[k].name@ != axes@[i as int].name@,
                decreases i - j,
            {
                if axes[j].name == axes[i].name {
                    let mut message: String = "関節名 ".to_owned();
                    let name = quoted(axes[i].name.as_str());
                    message.append(name.as_str());
                    message.append(" が ");
                    push_decimal(&mut message, j as u64);
                    message.append(" 番と ");
                    push_decimal(&mut message, i as u64);
                    message.append(" 番で重複しています");
                    proof {
                        assert(first_repeat(axes@, j as int, i as int));
                        assert(repeats(axes@, i as int));
                        assert(message@ == repeat_message(axes@[i as int].name@, j as int, i as int));
                    }
                    return Err(message);
                }
                j += 1;
            }
            assert(!repeats(axes@, i as int));
            i += 1;
        }
        Ok(AxisTable { axes })
    }

    pub fn len(&self) -> (r: usize)
        ensures
            r == self@.len(),
    {
        self.axes.len()
    }

    pub fn is_empty(&self) -> (r: bool)
        ensures
            r == (self@.len() == 0),
    {
        self.axes.len() == 0
    }

    pub fn axes(&self) -> (r: &[Axis])
        ensures
            r@ == self@,
    {
        self.axes.as_slice()
    }

    pub fn get(&self, id: AxisId) -> (r: Option<&Axis>)
        ensures
            id.0 < self@.len() ==> r == Some(&self@[id.0 as int]),
            id.0 >= self@.len() ==> r is None,
    {
        if id.index() < self.axes.len() {
            Some(&self.axes[id.index()])
        } else {
            None
        }
    }

    pub fn name(&self, id: AxisId) -> (r: Option<&str>)
        ensures
            r is Some <==> id.0 < self@.len(),
            r matches Some(s) ==> s@ == self@[id.0 as int].name@,
    {
        if id.index() < self.axes.len() {
            Some(self.axes[id.index()].name.as_str())
        } else {
            None
        }
    }

    /// The first axis of that name.
    pub fn id_of(&self, name: &str) -> (r: Option<AxisId>)
        ensures
            r is None <==> forall|k: int| 0 <= k < self@.len() ==> #[trigger] self@[k].name@ != name@,
            r matches Some(id) ==> exists|i: int|
                0 <= i < self@.len() && #[trigger] self@[i].name@ == name@ && id == id_at(i) && forall|k: int|
                    0 <= k < i ==> #[trigger] self@[k].name@ != name@,
    {
        let mut i: usize = 0;
        while i < self.axes.len()
            invariant
                i <= self@.len(),
                self@ == self.axes@,
                forall|k: int| 0 <= k < i ==> #[trigger] self@[k].name@ != name@,
            decreases self@.len() - i,
        {
            if same(self.axes[i].name.as_str(), name) {
                return Some(id_of_index(i));
            }
            i += 1;
        }
        None
    }

    /// The axes of each leg, by leg number.
    pub fn legs(&self) -> (r: Vec<Vec<AxisId>>)
        ensures
            r@.len() == leg_count(self@, self@.len() as int),
            forall|leg: int|
                0 <= leg < r@.len() ==> (#[trigger] r@[leg])@ == leg_ids(self@, leg, self@.len() as int),
    {
        let mut out: Vec<Vec<AxisId>> = Vec::new();
        let mut i: usize = 0;
        while i < self.axes.len()
            invariant
                i <= self@.len(),
                self@ == self.axes@,
                out@.len() == leg_count(self@, i as int),
                forall|leg: int|
                    0 <= leg < out@.len() ==> (#[trigger] out@[leg])@ == leg_ids(self@, leg, i as int),
                forall|leg: int|
                    leg >= out@.len() ==> #[trigger] leg_ids(self@, leg, i as int) == Seq::<AxisId>::empty(),
            decreases self@.len() - i,
        {
            if let AxisRole::Leg { leg, .. } = self.axes[i].role {
                let leg: usize = leg as usize;
                let ghost base = leg_count(self@, i as int);
                while out.len() <= leg
                    invariant
                        base == leg_count(self@, i as int),
                        base <= out@.len(),
                        out@.len() <= base || out@.len() <= leg + 1,
                        forall|l: int|
                            0 <= l < out@.len() ==> (#[trigger] out@[l])@ == leg_ids(self@, l, i as int),
                        forall|l: int|
                            l >= base ==> #[trigger] leg_ids(self@, l, i as int) == Seq::<AxisId>::empty(),
                    decreases leg + 1 - out@.len(),
                {
                    let none: Vec<AxisId> = Vec::new();
                    assert(leg_ids(self@, out@.len() as int, i as int) == Seq::<AxisId>::empty());
                    out.push(none);
                }
                out[leg].push(id_of_index(i));
            }
            assert forall|l: int| l >= out@.len() implies #[trigger] leg_ids(self@, l, i + 1) == Seq::<
                AxisId,
            >::empty() by {
                assert(leg_ids(self@, l, i as int) == Seq::<AxisId>::empty());
                assert(!in_leg(self@, l, i as int));
            }
            i += 1;
        }
        out
    }

    /// The axes that belong to no leg.
    pub fn aux(&self) -> (r: Vec<AxisId>)
        ensures
            r@ == aux_ids(self@, self@.len() as int),
    {
        let mut out: Vec<AxisId> = Vec::new();
        let mut i: usize = 0;
        while i < self.axes.len()
            invariant
                i <= self@.len(),
                self@ == self.axes@,
                out@ == aux_ids(self@, i as int),
            decreases self@.len() - i,
        {
            if let AxisRole::Aux = self.axes[i].role {
                out.push(id_of_index(i));
            }
            i += 1;
        }
        out
    }
}

/// Where ids tell all axes apart, looking up an axis by its own name finds it.
pub proof fn names_find_their_axis(t: AxisTable, i: int, found: int)
    requires
        t.wf(),
        0 <= i < t@.len() <= AXIS_CAPACITY,
        0 <= found < t@.len(),
        t@[found].name@ == t@[i].name@,
        forall|k: int| 0 <= k < found ==> #[trigger] t@[k].name@ != t@[i].name@,
    ensures
        found == i,
        id_at(found).0 == i,
{
    if found < i {
        assert(repeats(t@, i));
    }
}

/// Every axis belongs either to exactly one leg or to the auxiliary axes: its
/// id is listed there and nowhere else.
pub proof fn legs_and_aux_partition_the_axes(axes: Seq<Axis>, i: int)
    requires
        0 <= i < axes.len() <= AXIS_CAPACITY,
    ensures
        aux_ids(axes, axes.len() as int).contains(id_at(i)) <==> axes[i].role is Aux,
        forall|leg: int|
            #[trigger] leg_ids(axes, leg, axes.len() as int).contains(id_at(i)) <==> in_leg(axes, leg, i),
        axes[i].role matches AxisRole::Leg { leg, .. } ==> 0 <= leg < leg_count(
            axes,
            axes.len() as int,
        ),
{
    lemma_aux_contains(axes, axes.len() as int, i);
    assert forall|leg: int|
        #[trigger] leg_ids(axes, leg, axes.len() as int).contains(id_at(i)) <==> in_leg(axes, leg, i) by {
        lemma_leg_contains(axes, leg, axes.len() as int, i);
    }
    lemma_leg_count_covers(axes, axes.len() as int, i);
}

proof fn lemma_aux_contains(axes: Seq<Axis>, n: int, i: int)
    requires
        0 <= i < AXIS_CAPACITY,
        0 <= n <= axes.len() <= AXIS_CAPACITY,
    ensures
        aux_ids(axes, n).contains(id_at(i)) <==> i < n && axes[i].role is Aux,
    decreases n,
{
    if n > 0 {
        lemma_aux_contains(axes, n - 1, i);
        let shorter = aux_ids(axes, n - 1);
        if axes[n - 1].role is Aux {
            lemma_push_contains(shorter, id_at(n - 1), id_at(i));
        }
    }
}

proof fn lemma_leg_contains(axes: Seq<Axis>, leg: int, n: int, i: int)
    requires
        0 <= i < AXIS_CAPACITY,
        0 <= n <= axes.len() <= AXIS_CAPACITY,
    ensures
        leg_ids(axes, leg, n).contains(id_at(i)) <==> i < n && in_leg(axes, leg, i),
    decreases n,
{
    if n > 0 {
        lemma_leg_contains(axes, leg, n - 1, i);
        if in_leg(axes, leg, n - 1) {
            lemma_push_contains(leg_ids(axes, leg, n - 1), id_at(n - 1), id_at(i));
        }
    }
}

proof fn lemma_leg_count_covers(axes: Seq<Axis>, n: int, i: int)
    requires
        0 <= i < n <= axes.len(),
    ensures
        axes[i].role matches AxisRole::Leg { leg, .. } ==> leg < leg_count(axes, n),
    decreases n,
{
    if i < n - 1 {
        lemma_leg_count_covers(axes, n - 1, i);
    }
}

proof fn lemma_push_contains(s: Seq<AxisId>, x: AxisId, y: AxisId)
    ensures
        s.push(x).contains(y) <==> s.contains(y) || x == y,
{
    if s.contains(y) {
        let k = s.index_of(y);
        assert(s.push(x)[k] == y);
    }
    if x == y {
        assert(s.push(x)[s.len() as int] == y);
    }
    if s.push(x).contains(y) {
        let k = s.push(x).index_of(y);
        if k < s.len() {
            assert(s[k] == y);
        }
    }
}

/// The auxiliary axes are listed in ascending order, each once, and no axis of
/// a leg is among them.
pub proof fn the_auxiliary_axes_are_listed_in_order(axes: Seq<Axis>, n: int)
    requires
        0 <= n <= axes.len(),
        n <= AXIS_CAPACITY,
    ensures
        forall|id: AxisId| #[trigger]
            aux_ids(axes, n).contains(id) <==> id.0 < n && axes[id.0 as int].role is Aux,
        forall|j: int, k: int|
            0 <= j < k < aux_ids(axes, n).len() ==> (#[trigger] aux_ids(axes, n)[j]).0 < (
            #[trigger] aux_ids(axes, n)[k]).0,
{
    let p = |i: int| axes[i].role is Aux;
    lemma_aux_where(axes, n, p);
    ids_where_lists_exactly(n, p);
}

proof fn lemma_aux_where(axes: Seq<Axis>, n: int, p: spec_fn(int) -> bool)
    requires
        forall|i: int| #[trigger] p(i) == (axes[i].role is Aux),
    ensures
        aux_ids(axes, n) == ids_where(n, p),
    decreases n,
{
    if n > 0 {
        lemma_aux_where(axes, n - 1, p);
        assert(p(n - 1) == (axes[n - 1].role is Aux));
    }
}

/// The axes of a leg are listed in ascending order, each once, and no axis of
/// another leg is among them.
pub proof fn the_axes_of_a_leg_are_listed_in_order(axes: Seq<Axis>, leg: int, n: int)
    requires
        0 <= n <= axes.len(),
        n <= AXIS_CAPACITY,
    ensures
        forall|id: AxisId| #[trigger]
            leg_ids(axes, leg, n).contains(id) <==> id.0 < n && (match axes[id.0 as int].role {
                AxisRole::Leg { leg: l, .. } => l == leg,
                AxisRole::Aux => false,
            }),
        forall|j: int, k: int|
            0 <= j < k < leg_ids(axes, leg, n).len() ==> (#[trigger] leg_ids(axes, leg, n)[j]).0 < (
            #[trigger] leg_ids(axes, leg, n)[k]).0,
{
    let p = |i: int| in_leg(axes, leg, i);
    lemma_leg_where(axes, leg, n, p);
    ids_where_lists_exactly(n, p);
    assert forall|id: AxisId| #[trigger] leg_ids(axes, leg, n).contains(id) <==> id.0 < n && (
    match axes[id.0 as int].role {
        AxisRole::Leg { leg: l, .. } => l == leg,
        AxisRole::Aux => false,
    }) by {
        assert(ids_where(n, p).contains(id) <==> id.0 < n && p(id.0 as int));
    }
}

proof fn lemma_leg_where(axes: Seq<Axis>, leg: int, n: int, p: spec_fn(int) -> bool)
    requires
        forall|i: int| #[trigger] p(i) == in_leg(axes, leg, i),
    ensures
        leg_ids(axes, leg, n) == ids_where(n, p),
    decreases n,
{
    if n > 0 {
        lemma_leg_where(axes, leg, n - 1, p);
        assert(p(n - 1) == in_leg(axes, leg, n - 1));
    }
}

/// There are as many legs as the largest leg number says, and none without an
/// axis of a leg.
pub proof fn the_largest_leg_number_counts_the_legs(axes: Seq<Axis>, n: int)
    requires
        0 <= n <= axes.len(),
    ensures
        leg_count(axes, n) >= 0,
        forall|i: int|
            0 <= i < n ==> ((#[trigger] axes[i]).role matches AxisRole::Leg { leg, .. } ==> leg < leg_count(
                axes,
                n,
            )),
        leg_count(axes, n) > 0 ==> exists|i: int|
            0 <= i < n && ((#[trigger] axes[i]).role matches AxisRole::Leg { leg, .. } && leg + 1
                == leg_count(axes, n)),
    decreases n,
{
    if n > 0 {
        the_largest_leg_number_counts_the_legs(axes, n - 1);
        if leg_count(axes, n) > 0 {
            if leg_count(axes, n) == leg_count(axes, n - 1) {
                let i = choose|i: int|
                    0 <= i < n - 1 && ((#[trigger] axes[i]).role matches AxisRole::Leg { leg, .. } && leg
                        + 1 == leg_count(axes, n - 1));
                assert(0 <= i < n && (axes[i].role matches AxisRole::Leg { leg, .. } && leg + 1
                    == leg_count(axes, n)));
            } else {
                assert(axes[n - 1].role matches AxisRole::Leg { leg, .. } && leg + 1 == leg_count(axes, n));
            }
        }
    }
}

/// Below the capacity the id of a place is the place itself.
pub proof fn an_id_is_the_place(i: int)
    requires
        0 <= i < AXIS_CAPACITY,
    ensures
        id_at(i).0 == i,
{
}

/// A place repeats a name exactly if another place before it has that name.
pub proof fn equal_names_are_a_repetition(axes: Seq<Axis>, j: int, i: int)
    requires
        0 <= j < i < axes.len(),
    ensures
        axes[j].name@ == axes[i].name@ ==> repeats(axes, i),
        !repeats(axes, i) ==> axes[j].name@ != axes[i].name@,
        !repeats(axes, 0),
{
}

/// The repetition that is reported is of two places with one name, the earlier
/// of them the first of that name, and no place before the later one repeats.
pub proof fn the_reported_repetition_is_the_first(axes: Seq<Axis>, j: int, i: int, k: int)
    requires
        first_repeat(axes, j, i),
    ensures
        0 <= j < i < axes.len(),
        axes[j].name@ == axes[i].name@,
        0 <= k < i && k != j ==> axes[k].name@ != axes[i].name@,
        0 <= k < i ==> !repeats(axes, k),
{
    if j < k < i {
        assert(!repeats(axes, k));
        assert(axes[j].name@ == axes[i].name@);
        if axes[k].name@ == axes[i].name@ {
            assert(axes[j].name@ == axes[k].name@);
        }
    }
}

} // verus!
