//! Building and comparing text.

use vstd::prelude::*;
use vstd::string::*;

verus! {

/// The decimal digit of `d`, for `d < 10`.
pub open spec fn digit(d: nat) -> char {
    if d == 0 {
        '0'
    } else if d == 1 {
        '1'
    } else if d == 2 {
        '2'
    } else if d == 3 {
        '3'
    } else if d == 4 {
        '4'
    } else if d == 5 {
        '5'
    } else if d == 6 {
        '6'
    } else if d == 7 {
        '7'
    } else if d == 8 {
        '8'
    } else {
        '9'
    }
}

/// `n` in decimal notation, without leading zeros.
pub open spec fn decimal(n: nat) -> Seq<char>
    decreases n,
{
    if n < 10 {
        seq![digit(n)]
    } else {
        decimal(n / 10).push(digit(n % 10))
    }
}

/// What `{:?}` writes for a string: the text in quotes, with escapes.
pub uninterp spec fn debug_quoted(s: Seq<char>) -> Seq<char>;

/// `{:?}` of `str`, through `format!`. The contract claims that the result is a
/// function of the text alone.
#[verifier::external_body]
pub(crate) fn quoted(s: &str) -> (r: String)
    ensures
        r@ == debug_quoted(s@),
{
    format!("{:?}", s)
}

/// Whether two texts are the same.
pub fn same(a: &str, b: &str) -> (r: bool)
    ensures
        r == (a@ == b@),
{
    let x = a.to_owned();
    let y = b.to_owned();
    x == y
}

fn digit_text(d: u64) -> (r: &'static str)
    requires
        d < 10,
    ensures
        r@ == seq![digit(d as nat)],
{
    proof {
        reveal_strlit("0");
        reveal_strlit("1");
        reveal_strlit("2");
        reveal_strlit("3");
        reveal_strlit("4");
        reveal_strlit("5");
        reveal_strlit("6");
        reveal_strlit("7");
        reveal_strlit("8");
        reveal_strlit("9");
    }
    if d == 0 {
        "0"
    } else if d == 1 {
        "1"
    } else if d == 2 {
        "2"
    } else if d == 3 {
        "3"
    } else if d == 4 {
        "4"
    } else if d == 5 {
        "5"
    } else if d == 6 {
        "6"
    } else if d == 7 {
        "7"
    } else if d == 8 {
        "8"
    } else {
        "9"
    }
}

/// Appends `n` in decimal notation.
pub fn push_decimal(out: &mut String, n: u64)
    ensures
        final(out)@ == old(out)@ + decimal(n as nat),
    decreases n,
{
    if n < 10 {
        out.append(digit_text(n));
    } else {
        push_decimal(out, n / 10);
        out.append(digit_text(n % 10));
        assert(out@ == old(out)@ + decimal(n as nat));
    }
}

/// The hexadecimal digit of `d`.
pub open spec fn hex_digit(d: nat) -> Seq<char> {
    if d < 10 {
        decimal(d)
    } else if d == 10 {
        "a"@
    } else if d == 11 {
        "b"@
    } else if d == 12 {
        "c"@
    } else if d == 13 {
        "d"@
    } else if d == 14 {
        "e"@
    } else {
        "f"@
    }
}

/// The last `width` hexadecimal digits of `n`.
pub open spec fn hexadecimal(n: nat, width: nat) -> Seq<char>
    decreases width,
{
    if width == 0 {
        Seq::empty()
    } else {
        hexadecimal(n / 16, (width - 1) as nat) + hex_digit(n % 16)
    }
}

/// Appends the last `width` hexadecimal digits of `n`.
pub fn push_hexadecimal(out: &mut String, n: u32, width: u32)
    ensures
        final(out)@ == old(out)@ + hexadecimal(n as nat, width as nat),
    decreases width,
{
    if width > 0 {
        push_hexadecimal(out, n / 16, width - 1);
        let d: u32 = n % 16;
        if d < 10 {
            push_decimal(out, d as u64);
        } else if d == 10 {
            out.append("a");
        } else if d == 11 {
            out.append("b");
        } else if d == 12 {
            out.append("c");
        } else if d == 13 {
            out.append("d");
        } else if d == 14 {
            out.append("e");
        } else {
            out.append("f");
        }
    }
    assert(out@ == old(out)@ + hexadecimal(n as nat, width as nat));
}

/// The texts of a row of strings.
pub open spec fn words(v: Seq<String>) -> Seq<Seq<char>> {
    v.map_values(|s: String| s@)
}

/// Whether two rows of texts are the same.
pub fn same_words(a: &Vec<String>, b: &Vec<String>) -> (r: bool)
    ensures
        r == (words(a@) == words(b@)),
{
    if a.len() != b.len() {
        assert(words(a@).len() != words(b@).len());
        return false;
    }
    let mut i: usize = 0;
    while i < a.len()
        invariant
            i <= a@.len() == b@.len(),
            forall|k: int| 0 <= k < i ==> #[trigger] a@[k]@ == b@[k]@,
        decreases a@.len() - i,
    {
        if a[i] != b[i] {
            assert(words(a@)[i as int] != words(b@)[i as int]);
            return false;
        }
        i += 1;
    }
    assert(words(a@) =~= words(b@));
    true
}

/// The characters of a text.
pub fn chars_of(s: &str) -> (r: Vec<char>)
    ensures
        r@ == s@,
{
    let n: usize = s.unicode_len();
    let mut out: Vec<char> = Vec::new();
    let mut i: usize = 0;
    while i < n
        invariant
            i <= n,
            n == s@.len(),
            out@ == s@.take(i as int),
        decreases n - i,
    {
        out.push(s.get_char(i));
        assert(s@.take(i + 1) == s@.take(i as int).push(s@[i as int]));
        i += 1;
    }
    assert(s@.take(n as int) == s@);
    out
}

/// The text begins with `head`.
pub open spec fn begins(s: Seq<char>, head: Seq<char>) -> bool {
    s.len() >= head.len() && s.take(head.len() as int) == head
}

pub fn begins_with(s: &str, head: &str) -> (r: bool)
    ensures
        r == begins(s@, head@),
{
    let a: Vec<char> = chars_of(s);
    let b: Vec<char> = chars_of(head);
    if a.len() < b.len() {
        return false;
    }
    let mut i: usize = 0;
    while i < b.len()
        invariant
            i <= b@.len() <= a@.len(),
            a@ == s@,
            b@ == head@,
            forall|k: int| 0 <= k < i ==> a@[k] == b@[k],
        decreases b@.len() - i,
    {
        if a[i] != b[i] {
            assert(s@.take(head@.len() as int)[i as int] != head@[i as int]);
            return false;
        }
        i += 1;
    }
    assert(s@.take(head@.len() as int) == head@);
    true
}

/// The text from character `from` on.
pub fn tail(s: &str, from: usize) -> (r: &str)
    requires
        from <= s@.len(),
    ensures
        r@ == s@.skip(from as int),
{
    let n: usize = s.unicode_len();
    s.substring_char(from, n)
}

/// `i` is the first place where `c` occurs.
pub open spec fn first_at(s: Seq<char>, c: char, i: int) -> bool {
    &&& 0 <= i < s.len()
    &&& s[i] == c
    &&& forall|k: int| 0 <= k < i ==> s[k] != c
}

/// The first place where `c` occurs.
pub fn find_char(s: &str, c: char) -> (r: Option<usize>)
    ensures
        match r {
            Some(i) => first_at(s@, c, i as int) && i < usize::MAX,
            None => !s@.contains(c),
        },
{
    let a: Vec<char> = chars_of(s);
    let mut i: usize = 0;
    while i < a.len()
        invariant
            i <= a@.len(),
            a@ == s@,
            forall|k: int| 0 <= k < i ==> a@[k] != c,
        decreases a@.len() - i,
    {
        if a[i] == c {
            return Some(i);
        }
        i += 1;
    }
    None
}

/// Lexicographic order by character.
pub open spec fn precedes(a: Seq<char>, b: Seq<char>) -> bool
    decreases a.len(),
{
    if b.len() == 0 {
        false
    } else if a.len() == 0 {
        true
    } else if a[0] != b[0] {
        a[0] < b[0]
    } else {
        precedes(a.drop_first(), b.drop_first())
    }
}

fn chars_precede(a: &Vec<char>, b: &Vec<char>, i: usize) -> (r: bool)
    requires
        i <= a@.len(),
        i <= b@.len(),
    ensures
        r == precedes(a@.skip(i as int), b@.skip(i as int)),
    decreases a@.len() - i,
{
    if i == b.len() {
        return false;
    }
    if i == a.len() {
        return true;
    }
    if a[i] != b[i] {
        return a[i] < b[i];
    }
    proof {
        assert(a@.skip(i as int).drop_first() == a@.skip(i + 1));
        assert(b@.skip(i as int).drop_first() == b@.skip(i + 1));
    }
    chars_precede(a, b, i + 1)
}

/// Whether `a` comes before `b` in lexicographic order.
pub fn comes_before(a: &str, b: &str) -> (r: bool)
    ensures
        r == precedes(a@, b@),
{
    let x: Vec<char> = chars_of(a);
    let y: Vec<char> = chars_of(b);
    assert(x@.skip(0) == x@);
    assert(y@.skip(0) == y@);
    chars_precede(&x, &y, 0)
}

/// Of two different texts one comes before the other, and not both ways.
pub proof fn order_is_total(a: Seq<char>, b: Seq<char>)
    ensures
        !(precedes(a, b) && precedes(b, a)),
        a != b ==> precedes(a, b) || precedes(b, a),
        !precedes(a, a),
    decreases a.len(),
{
    if a.len() > 0 && b.len() > 0 && a[0] == b[0] {
        order_is_total(a.drop_first(), b.drop_first());
        if a.drop_first() == b.drop_first() {
            assert(a == seq![a[0]] + a.drop_first());
            assert(b == seq![b[0]] + b.drop_first());
        }
    }
    if a.len() > 0 {
        order_is_total(a.drop_first(), a.drop_first());
    }
    if a.len() == 0 && b.len() == 0 {
        assert(a == b);
    }
}

/// What comes before something that comes before a third comes before the third.
pub proof fn order_is_transitive(a: Seq<char>, b: Seq<char>, c: Seq<char>)
    requires
        precedes(a, b),
        precedes(b, c),
    ensures
        precedes(a, c),
    decreases a.len(),
{
    if a.len() > 0 && b.len() > 0 && c.len() > 0 && a[0] == b[0] && b[0] == c[0] {
        order_is_transitive(a.drop_first(), b.drop_first(), c.drop_first());
    }
}

/// The value of a decimal digit.
pub open spec fn digit_value(c: char) -> Option<nat> {
    if '0' <= c <= '9' {
        Some((c as u32 - '0' as u32) as nat)
    } else {
        None
    }
}

/// The number that a row of digits denotes; `None` if something else is in it.
pub open spec fn digits_value(s: Seq<char>) -> Option<nat>
    decreases s.len(),
{
    if s.len() == 0 {
        Some(0)
    } else {
        match (digits_value(s.drop_last()), digit_value(s.last())) {
            (Some(n), Some(d)) => Some(n * 10 + d),
            _ => None,
        }
    }
}

/// A natural number: digits, with an optional plus sign, that fit a `usize`.
pub open spec fn natural(s: Seq<char>) -> Option<usize> {
    let digits = if s.len() > 0 && s[0] == '+' { s.skip(1) } else { s };
    if digits.len() == 0 {
        None
    } else {
        match digits_value(digits) {
            Some(n) => if n <= usize::MAX {
                Some(n as usize)
            } else {
                None
            },
            None => None,
        }
    }
}

/// A prefix that is no number, or too large, makes the whole row so.
proof fn lemma_digits_prefix(s: Seq<char>, n: int)
    requires
        0 <= n <= s.len(),
    ensures
        digits_value(s.take(n)) is None ==> digits_value(s) is None,
        digits_value(s) is Some && digits_value(s.take(n)) is Some ==> digits_value(s.take(n))->0
            <= digits_value(s)->0,
    decreases s.len() - n,
{
    if n < s.len() {
        lemma_digits_prefix(s, n + 1);
        assert(s.take(n + 1).drop_last() == s.take(n));
    } else {
        assert(s.take(n) == s);
    }
}

/// Reads a natural number.
pub fn parse_natural(s: &str) -> (r: Option<usize>)
    ensures
        r == natural(s@),
{
    let a: Vec<char> = chars_of(s);
    let start: usize = if a.len() > 0 && a[0] == '+' {
        1
    } else {
        0
    };
    let ghost digits = s@.skip(start as int);
    assert(s@.skip(0) == s@);
    if a.len() == start {
        return None;
    }
    let mut i: usize = start;
    let mut n: usize = 0;
    assert(digits.take(0).len() == 0);
    while i < a.len()
        invariant
            start <= i <= a@.len(),
            a@ == s@,
            digits == s@.skip(start as int),
            digits.len() > 0,
            natural(s@) == (match digits_value(digits) {
                Some(v) => if v <= usize::MAX {
                    Some(v as usize)
                } else {
                    None
                },
                None => None,
            }),
            digits_value(digits.take(i - start)) == Some(n as nat),
        decreases a@.len() - i,
    {
        let c: char = a[i];
        proof {
            lemma_digits_prefix(digits, i - start + 1);
            assert(digits.take(i - start + 1).drop_last() == digits.take(i - start));
            assert(digits.take(i - start + 1).last() == c);
        }
        if c < '0' || c > '9' {
            return None;
        }
        let d: usize = (c as u32 - '0' as u32) as usize;
        match n.checked_mul(10) {
            None => {
                return None;
            },
            Some(m) => match m.checked_add(d) {
                None => {
                    return None;
                },
                Some(v) => {
                    n = v;
                },
            },
        }
        i += 1;
    }
    assert(digits.take(digits.len() as int) == digits);
    Some(n)
}

/// The decimal notation of a number reads back as that number.
pub proof fn decimal_reads_back(n: nat)
    ensures
        digits_value(decimal(n)) == Some(n),
        decimal(n).len() > 0,
    decreases n,
{
    if n < 10 {
        assert(decimal(n).drop_last().len() == 0);
        assert(decimal(n).last() == digit(n));
        assert(digits_value(decimal(n).drop_last()) == Some(0nat));
    } else {
        decimal_reads_back(n / 10);
        assert(decimal(n).drop_last() == decimal(n / 10));
        assert(decimal(n).last() == digit(n % 10));
    }
}

/// A text begins with a head exactly if something can be put behind the head to
/// give the text.
pub proof fn beginning_means_a_rest(s: Seq<char>, head: Seq<char>, rest: Seq<char>)
    ensures
        begins(head + rest, head),
        begins(s, head) ==> s == head + s.skip(head.len() as int),
        begins(s, head) ==> s.len() >= head.len(),
{
    assert((head + rest).take(head.len() as int) == head);
    if begins(s, head) {
        assert(s == s.take(head.len() as int) + s.skip(head.len() as int));
    }
}

/// The first place of a character is where it stands with none before it.
pub proof fn the_first_place_is_the_first(s: Seq<char>, c: char, rest: Seq<char>)
    requires
        !s.contains(c),
    ensures
        first_at(s + seq![c] + rest, c, s.len() as int),
        forall|i: int| #[trigger] first_at(s + seq![c] + rest, c, i) ==> i == s.len(),
        forall|i: int| !#[trigger] first_at(s, c, i),
{
    let all = s + seq![c] + rest;
    assert(all[s.len() as int] == c);
    assert forall|k: int| 0 <= k < s.len() implies all[k] != c by {
        assert(all[k] == s[k]);
        assert(s.contains(s[k]));
    }
}

/// The first character that differs decides which text comes first; a text
/// comes before every longer one that begins with it.
pub proof fn the_first_difference_decides(
    head: Seq<char>,
    x: char,
    y: char,
    r: Seq<char>,
    s: Seq<char>,
)
    requires
        x != y,
    ensures
        precedes(head + seq![x] + r, head + seq![y] + s) <==> x < y,
        precedes(head, head + seq![x] + r),
        !precedes(head + seq![x] + r, head),
    decreases head.len(),
{
    let a = head + seq![x] + r;
    let b = head + seq![y] + s;
    if head.len() > 0 {
        the_first_difference_decides(head.drop_first(), x, y, r, s);
        assert(a.drop_first() == head.drop_first() + seq![x] + r);
        assert(b.drop_first() == head.drop_first() + seq![y] + s);
        assert(a[0] == head[0] && b[0] == head[0]);
    } else {
        assert(a[0] == x && b[0] == y);
    }
}

/// The digits follow each other from `0` to `9`, and each denotes its place.
pub proof fn digits_follow_each_other(d: nat, c: char)
    requires
        d < 10,
    ensures
        digit(d) as int == 48 + d,
        digit_value(digit(d)) == Some(d),
        digit_value(c) is Some <==> 48 <= c as int <= 57,
        digit_value(c) matches Some(v) ==> c as int == 48 + v,
{
}

/// A digit behind a number multiplies it by ten and adds the digit; anything
/// else makes it no number.
pub proof fn a_digit_behind_counts_ten_times(s: Seq<char>, c: char)
    ensures
        48 <= c as int <= 57 && digits_value(s) is Some ==> digits_value(s.push(c)) == Some(
            (digits_value(s)->0 * 10 + (c as int - 48)) as nat,
        ),
        !(48 <= c as int <= 57) ==> digits_value(s.push(c)) is None,
        digits_value(s) is None ==> digits_value(s.push(c)) is None,
        digits_value(Seq::<char>::empty()) == Some(0nat),
{
    assert(s.push(c).drop_last() == s);
    assert(s.push(c).last() == c);
}

/// A natural number is written with digits, with or without a plus sign in
/// front. Nothing is no number, neither is a sign alone, and neither is what
/// does not fit.
pub proof fn a_plus_sign_changes_nothing(s: Seq<char>, n: nat)
    ensures
        natural(Seq::empty()) is None,
        natural(seq!['+']) is None,
        s.len() > 0 && s[0] != '+' ==> natural(seq!['+'] + s) == natural(s),
        n <= usize::MAX ==> natural(decimal(n)) == Some(n as usize),
        n > usize::MAX ==> natural(decimal(n)) is None,
{
    assert(seq!['+'].skip(1).len() == 0);
    assert((seq!['+'] + s).skip(1) == s);
    decimal_reads_back(n);
    lemma_decimal_has_digits(n, 0);
}

proof fn lemma_decimal_has_digits(n: nat, i: int)
    requires
        i == 0,
    ensures
        decimal(n).len() > 0,
        48 <= decimal(n)[i] as int <= 57,
    decreases n,
{
    if n >= 10 {
        lemma_decimal_has_digits(n / 10, i);
        assert(decimal(n)[i] == decimal(n / 10)[i]);
    }
}

/// The sixteen digits are `0` to `9` and then `a` to `f`.
pub proof fn hexadecimal_digits_follow_each_other(d: nat)
    requires
        d < 16,
    ensures
        hex_digit(d).len() == 1,
        d < 10 ==> hex_digit(d)[0] as int == 48 + d,
        d >= 10 ==> hex_digit(d)[0] as int == 97 + (d - 10),
{
    reveal_strlit("a");
    reveal_strlit("b");
    reveal_strlit("c");
    reveal_strlit("d");
    reveal_strlit("e");
    reveal_strlit("f");
}

/// A hexadecimal number has the width asked for. Its last digit is the number
/// modulo sixteen; what stands before it is the number divided by sixteen.
pub proof fn hexadecimal_counts_by_sixteen(n: nat, width: nat)
    ensures
        hexadecimal(n, width).len() == width,
        width > 0 ==> hexadecimal(n, width).drop_last() == hexadecimal(n / 16, (width - 1) as nat),
        width > 0 && n % 16 < 10 ==> hexadecimal(n, width).last() as int == 48 + n % 16,
        width > 0 && n % 16 >= 10 ==> hexadecimal(n, width).last() as int == 97 + (n % 16 - 10),
    decreases width,
{
    if width > 0 {
        hexadecimal_counts_by_sixteen(n / 16, (width - 1) as nat);
        hexadecimal_digits_follow_each_other(n % 16);
        let before = hexadecimal(n / 16, (width - 1) as nat);
        assert(hexadecimal(n, width).drop_last() == before);
        assert(hexadecimal(n, width).last() == hex_digit(n % 16)[0]);
    }
}

/// A row of texts shows each text at its own place.
pub proof fn words_keep_their_places(v: Seq<String>, i: int)
    requires
        0 <= i < v.len(),
    ensures
        words(v).len() == v.len(),
        words(v)[i] == v[i]@,
{
}

} // verus!
