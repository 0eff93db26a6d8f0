//! How far apart two spellings are.

use vstd::prelude::*;

use crate::text::chars_of;

verus! {

pub open spec fn least(a: int, b: int) -> int {
    if a <= b {
        a
    } else {
        b
    }
}

/// The Levenshtein distance of the first `i` characters of `a` and the first
/// `j` of `b`: the fewest insertions, deletions and substitutions that turn one
/// into the other.
pub open spec fn distance(a: Seq<char>, i: nat, b: Seq<char>, j: nat) -> int
    decreases i, j,
{
    if i == 0 {
        j as int
    } else if j == 0 {
        i as int
    } else {
        let change = if a[i - 1] == b[j - 1] { 0int } else { 1int };
        least(
            least(
                distance(a, (i - 1) as nat, b, (j - 1) as nat) + change,
                distance(a, (i - 1) as nat, b, j) + 1,
            ),
            distance(a, i, b, (j - 1) as nat) + 1,
        )
    }
}

proof fn lemma_distance_bounds(a: Seq<char>, i: nat, b: Seq<char>, j: nat)
    ensures
        0 <= distance(a, i, b, j),
        distance(a, i, b, j) <= i || distance(a, i, b, j) <= j,
        i - j <= distance(a, i, b, j),
        j - i <= distance(a, i, b, j),
    decreases i, j,
{
    if i > 0 && j > 0 {
        lemma_distance_bounds(a, (i - 1) as nat, b, (j - 1) as nat);
        lemma_distance_bounds(a, (i - 1) as nat, b, j);
        lemma_distance_bounds(a, i, b, (j - 1) as nat);
    }
}

fn least_of(a: usize, b: usize) -> (r: usize)
    ensures
        r == least(a as int, b as int),
{
    if a <= b {
        a
    } else {
        b
    }
}

/// The Levenshtein distance of two texts.
pub fn edit_distance(a: &str, b: &str) -> (r: usize)
    ensures
        r == distance(a@, a@.len(), b@, b@.len()),
{
    let x: Vec<char> = chars_of(a);
    let y: Vec<char> = chars_of(b);
    // `row[j]` is the distance to the first `j + 1` characters of `b`.
    let mut row: Vec<usize> = Vec::new();
    let mut k: usize = 0;
    while k < y.len()
        invariant
            k <= y@.len(),
            row@.len() == k,
            forall|j: int| 0 <= j < k ==> row@[j] == distance(x@, 0, y@, (j + 1) as nat),
        decreases y@.len() - k,
    {
        row.push(k + 1);
        k += 1;
    }
    let rows: usize = x.len();
    let mut i: usize = 0;
    while i < rows
        invariant
            i <= rows == x@.len(),
            row@.len() == y@.len(),
            forall|j: int| 0 <= j < row@.len() ==> row@[j] == distance(x@, i as nat, y@, (j + 1) as nat),
        decreases x@.len() - i,
    {
        let mut next: Vec<usize> = Vec::new();
        let mut corner: usize = i;
        let mut left: usize = i + 1;
        let mut j: usize = 0;
        while j < y.len()
            invariant
                i < rows == x@.len(),
                j <= y@.len(),
                row@.len() == y@.len(),
                next@.len() == j,
                forall|m: int|
                    0 <= m < row@.len() ==> row@[m] == distance(x@, i as nat, y@, (m + 1) as nat),
                forall|m: int|
                    0 <= m < j ==> next@[m] == distance(x@, (i + 1) as nat, y@, (m + 1) as nat),
                corner == distance(x@, i as nat, y@, j as nat),
                left == distance(x@, (i + 1) as nat, y@, j as nat),
            decreases y@.len() - j,
        {
            let above: usize = row[j];
            let swapped: usize = if x[i] == y[j] {
                corner
            } else {
                corner.saturating_add(1)
            };
            let best: usize = least_of(
                least_of(swapped, above.saturating_add(1)),
                left.saturating_add(1),
            );
            proof {
                lemma_distance_bounds(x@, (i + 1) as nat, y@, (j + 1) as nat);
                let whole = distance(x@, (i + 1) as nat, y@, (j + 1) as nat);
                let change = if x@[i as int] == y@[j as int] { 0int } else { 1int };
                assert(whole == least(least(corner + change, above + 1), left + 1));
                assert(whole <= usize::MAX);
            }
            next.push(best);
            corner = above;
            left = best;
            j += 1;
        }
        row = next;
        i += 1;
    }
    if y.len() == 0 {
        x.len()
    } else {
        row[y.len() - 1]
    }
}

/// The distance is the same in both directions.
pub proof fn distance_is_symmetric(a: Seq<char>, i: nat, b: Seq<char>, j: nat)
    ensures
        distance(a, i, b, j) == distance(b, j, a, i),
    decreases i, j,
{
    if i > 0 && j > 0 {
        distance_is_symmetric(a, (i - 1) as nat, b, (j - 1) as nat);
        distance_is_symmetric(a, (i - 1) as nat, b, j);
        distance_is_symmetric(a, i, b, (j - 1) as nat);
    }
}

/// The distance is zero exactly for equal texts, and it is at least the
/// difference and at most the larger of the two lengths.
pub proof fn distance_tells_texts_apart(a: Seq<char>, b: Seq<char>)
    ensures
        distance(a, a.len(), b, b.len()) == 0 <==> a == b,
        distance(a, a.len(), b, b.len()) <= a.len() || distance(a, a.len(), b, b.len()) <= b.len(),
        a.len() - b.len() <= distance(a, a.len(), b, b.len()),
        b.len() - a.len() <= distance(a, a.len(), b, b.len()),
{
    lemma_distance_bounds(a, a.len(), b, b.len());
    lemma_distance_zero(a, a.len(), b, b.len());
    assert(a.take(a.len() as int) == a);
    assert(b.take(b.len() as int) == b);
}

proof fn lemma_distance_zero(a: Seq<char>, i: nat, b: Seq<char>, j: nat)
    requires
        i <= a.len(),
        j <= b.len(),
    ensures
        distance(a, i, b, j) == 0 <==> a.take(i as int) == b.take(j as int),
    decreases i, j,
{
    if i == 0 || j == 0 {
        if i == 0 && j == 0 {
            assert(a.take(0) == b.take(0));
        } else {
            assert(a.take(i as int).len() != b.take(j as int).len());
        }
    } else {
        let p = (i - 1) as nat;
        let q = (j - 1) as nat;
        lemma_distance_zero(a, p, b, q);
        lemma_distance_bounds(a, p, b, j);
        lemma_distance_bounds(a, i, b, q);
        lemma_distance_bounds(a, p, b, q);
        let s = a.take(i as int);
        let t = b.take(j as int);
        assert(s == a.take(p as int).push(a[p as int]));
        assert(t == b.take(q as int).push(b[q as int]));
        if s == t {
            assert(s.last() == t.last());
            assert(s.drop_last() == t.drop_last());
            assert(s.drop_last() == a.take(p as int));
            assert(t.drop_last() == b.take(q as int));
        }
    }
}

/// A detour is never shorter.
pub proof fn distance_obeys_the_triangle_inequality(
    a: Seq<char>,
    i: nat,
    b: Seq<char>,
    j: nat,
    c: Seq<char>,
    k: nat,
)
    ensures
        distance(a, i, c, k) <= distance(a, i, b, j) + distance(b, j, c, k),
    decreases i + j + k,
{
    lemma_distance_bounds(a, i, b, j);
    lemma_distance_bounds(b, j, c, k);
    lemma_distance_bounds(a, i, c, k);
    if i > 0 && j > 0 && k > 0 {
        let p = (i - 1) as nat;
        let q = (j - 1) as nat;
        let r = (k - 1) as nat;
        distance_obeys_the_triangle_inequality(a, p, b, j, c, k);
        distance_obeys_the_triangle_inequality(a, i, b, j, c, r);
        distance_obeys_the_triangle_inequality(a, p, b, q, c, r);
        distance_obeys_the_triangle_inequality(a, i, b, q, c, k);
        distance_obeys_the_triangle_inequality(a, p, b, q, c, k);
        distance_obeys_the_triangle_inequality(a, i, b, q, c, r);
    }
}

/// One insertion, deletion or substitution turns `x` into `y`.
pub open spec fn one_edit(x: Seq<char>, y: Seq<char>) -> bool {
    ||| exists|p: int, c: char| 0 <= p <= x.len() && y == #[trigger] x.insert(p, c)
    ||| exists|p: int| 0 <= p < x.len() && y == #[trigger] x.remove(p)
    ||| exists|p: int, c: char| 0 <= p < x.len() && y == #[trigger] x.update(p, c)
}

/// A script of edits: the texts on the way from `a` to `b`, each one edit after
/// the one before.
pub open spec fn is_script(texts: Seq<Seq<char>>, a: Seq<char>, b: Seq<char>) -> bool {
    &&& texts.len() > 0
    &&& texts[0] == a
    &&& texts[texts.len() - 1] == b
    &&& forall|i: int, j: int|
        0 <= i && j == i + 1 && j < texts.len() ==> one_edit(#[trigger] texts[i], #[trigger] texts[j])
}

/// No script has fewer edits than the distance.
pub proof fn every_script_has_at_least_the_distance(texts: Seq<Seq<char>>, a: Seq<char>, b: Seq<char>)
    requires
        is_script(texts, a, b),
    ensures
        distance(a, a.len(), b, b.len()) <= texts.len() - 1,
    decreases texts.len(),
{
    let n = texts.len() as int;
    if n == 1 {
        distance_tells_texts_apart(a, b);
    } else {
        let shorter = texts.drop_last();
        let z = texts[n - 2];
        assert forall|i: int, j: int| 0 <= i && j == i + 1 && j < shorter.len() implies one_edit(
            #[trigger] shorter[i],
            #[trigger] shorter[j],
        ) by {
            assert(one_edit(texts[i], texts[j]));
        }
        every_script_has_at_least_the_distance(shorter, a, z);
        assert(one_edit(z, texts[n - 1]));
        lemma_one_edit(z, b);
        distance_obeys_the_triangle_inequality(a, a.len(), z, z.len(), b, b.len());
    }
}

/// Some script has exactly as many edits as the distance.
pub proof fn some_script_has_the_distance(a: Seq<char>, b: Seq<char>) -> (texts: Seq<Seq<char>>)
    ensures
        is_script(texts, a, b),
        texts.len() - 1 == distance(a, a.len(), b, b.len()),
{
    let texts = lemma_script(a, a.len(), b, b.len(), Seq::empty());
    assert(a.take(a.len() as int) + Seq::<char>::empty() == a);
    assert(b.take(b.len() as int) + Seq::<char>::empty() == b);
    texts
}

/// A script from the first `i` characters of `a` to the first `j` of `b`, with
/// `tail` behind both.
proof fn lemma_script(a: Seq<char>, i: nat, b: Seq<char>, j: nat, tail: Seq<char>) -> (texts: Seq<
    Seq<char>,
>)
    requires
        i <= a.len(),
        j <= b.len(),
    ensures
        is_script(texts, a.take(i as int) + tail, b.take(j as int) + tail),
        texts.len() - 1 == distance(a, i, b, j),
    decreases i + j,
{
    let x = a.take(i as int) + tail;
    let y = b.take(j as int) + tail;
    if i == 0 && j == 0 {
        assert(x == y);
        seq![x]
    } else {
        let p = (i - 1) as nat;
        let q = (j - 1) as nat;
        let whole = distance(a, i, b, j);
        if j > 0 && whole == distance(a, i, b, q) + 1 {
            let t = seq![b[q as int]] + tail;
            let rest = lemma_script(a, i, b, q, t);
            assert(b.take(q as int) + t == y);
            assert(a.take(i as int) + t == x.insert(i as int, b[q as int]));
            lemma_longer_script(x, rest, a.take(i as int) + t, y)
        } else if i > 0 && whole == distance(a, p, b, j) + 1 {
            let rest = lemma_script(a, p, b, j, tail);
            assert(a.take(p as int) + tail == x.remove(p as int));
            lemma_longer_script(x, rest, a.take(p as int) + tail, y)
        } else {
            let t = seq![b[q as int]] + tail;
            let rest = lemma_script(a, p, b, q, t);
            assert(b.take(q as int) + t == y);
            if a[p as int] == b[q as int] {
                assert(a.take(p as int) + t == x);
                rest
            } else {
                assert(a.take(p as int) + t == x.update(p as int, b[q as int]));
                lemma_longer_script(x, rest, a.take(p as int) + t, y)
            }
        }
    }
}

proof fn lemma_longer_script(x: Seq<char>, rest: Seq<Seq<char>>, from: Seq<char>, to: Seq<char>) -> (texts:
    Seq<Seq<char>>)
    requires
        is_script(rest, from, to),
        one_edit(x, from),
    ensures
        is_script(texts, x, to),
        texts.len() == rest.len() + 1,
{
    let texts = seq![x] + rest;
    assert forall|i: int, j: int| 0 <= i && j == i + 1 && j < texts.len() implies one_edit(
        #[trigger] texts[i],
        #[trigger] texts[j],
    ) by {
        if i > 0 {
            assert(one_edit(rest[i - 1], rest[j - 1]));
        }
    }
    texts
}

proof fn lemma_one_edit(x: Seq<char>, y: Seq<char>)
    requires
        one_edit(x, y),
    ensures
        distance(x, x.len(), y, y.len()) <= 1,
{
    if exists|p: int, c: char| 0 <= p <= x.len() && y == #[trigger] x.insert(p, c) {
        let (p, c) = choose|p: int, c: char| 0 <= p <= x.len() && y == #[trigger] x.insert(p, c);
        lemma_common_run(x, 0, y, 0, p as nat);
        lemma_common_run(x, p as nat, y, (p + 1) as nat, (x.len() - p) as nat);
    } else if exists|p: int| 0 <= p < x.len() && y == #[trigger] x.remove(p) {
        let p = choose|p: int| 0 <= p < x.len() && y == #[trigger] x.remove(p);
        lemma_common_run(x, 0, y, 0, p as nat);
        lemma_common_run(x, (p + 1) as nat, y, p as nat, (y.len() - p) as nat);
    } else {
        let (p, c) = choose|p: int, c: char| 0 <= p < x.len() && y == #[trigger] x.update(p, c);
        lemma_common_run(x, 0, y, 0, p as nat);
        lemma_common_run(x, (p + 1) as nat, y, (p + 1) as nat, (x.len() - p - 1) as nat);
    }
}

/// A run of equal characters at the end adds nothing.
proof fn lemma_common_run(x: Seq<char>, i: nat, y: Seq<char>, j: nat, k: nat)
    requires
        i + k <= x.len(),
        j + k <= y.len(),
        forall|m: int, n: int| i <= m < i + k && n - j == m - i ==> #[trigger] x[m] == #[trigger] y[n],
    ensures
        distance(x, i + k, y, j + k) <= distance(x, i, y, j),
    decreases k,
{
    if k > 0 {
        lemma_common_run(x, i, y, j, (k - 1) as nat);
        assert(x[i + k - 1] == y[j + k - 1]);
    }
}

} // verus!
