//! The command line.
//!
//! A misspelt flag that is silently ignored means a robot that moves without
//! the setting its operator believes in. So every flag is checked against the
//! list of known ones before anything happens.

use vstd::prelude::*;
use vstd::string::*;

use crate::distance;
use crate::distance::edit_distance;
use crate::text;
use crate::text::{begins_with, comes_before, find_char, parse_natural, same, tail};

verus! {

/// How many flags stand alone.
pub const BOOL_FLAGS: usize = 10;

/// How many flags there are.
pub const ALL_FLAGS: usize = 69;

/// The known flags: first those that stand alone, then those that take a value.
pub open spec fn flag_spec(i: int) -> Seq<char> {
    if i == 0 {
        "help"@
    } else if i == 1 {
        "dry-run"@
    } else if i == 2 {
        "allow-no-sbus"@
    } else if i == 3 {
        "skip-zero"@
    } else if i == 4 {
        "viz"@
    } else if i == 5 {
        "realtime"@
    } else if i == 6 {
        "plain"@
    } else if i == 7 {
        "forever"@
    } else if i == 8 {
        "chicken"@
    } else if i == 9 {
        "cam-fixed"@
    } else if i == 10 {
        "robot"@
    } else if i == 11 {
        "record"@
    } else if i == 12 {
        "limit"@
    } else if i == 13 {
        "kp"@
    } else if i == 14 {
        "kv"@
    } else if i == 15 {
        "base-height"@
    } else if i == 16 {
        "timestep"@
    } else if i == 17 {
        "friction"@
    } else if i == 18 {
        "cycle"@
    } else if i == 19 {
        "swing"@
    } else if i == 20 {
        "step-length"@
    } else if i == 21 {
        "duty"@
    } else if i == 22 {
        "tune-at"@
    } else if i == 23 {
        "pilot"@
    } else if i == 24 {
        "video"@
    } else if i == 25 {
        "fps"@
    } else if i == 26 {
        "width"@
    } else if i == 27 {
        "height"@
    } else if i == 28 {
        "cam-az"@
    } else if i == 29 {
        "cam-el"@
    } else if i == 30 {
        "cam-dist"@
    } else if i == 31 {
        "cam-z"@
    } else if i == 32 {
        "cam-x"@
    } else if i == 33 {
        "cam-y"@
    } else if i == 34 {
        "config"@
    } else if i == 35 {
        "secs"@
    } else if i == 36 {
        "gait"@
    } else if i == 37 {
        "vx"@
    } else if i == 38 {
        "vy"@
    } else if i == 39 {
        "wz"@
    } else if i == 40 {
        "every"@
    } else if i == 41 {
        "out"@
    } else if i == 42 {
        "leg"@
    } else if i == 43 {
        "joint"@
    } else if i == 44 {
        "deg"@
    } else if i == 45 {
        "speed"@
    } else if i == 46 {
        "assume"@
    } else if i == 47 {
        "write"@
    } else if i == 48 {
        "max-id"@
    } else if i == 49 {
        "margin"@
    } else if i == 50 {
        "status"@
    } else if i == 51 {
        "viz-key"@
    } else if i == 52 {
        "viz-key-measured"@
    } else if i == 53 {
        "viz-rate"@
    } else if i == 54 {
        "viz-endpoint"@
    } else if i == 55 {
        "set-position-kp"@
    } else if i == 56 {
        "set-position-ki"@
    } else if i == 57 {
        "set-position-kd"@
    } else if i == 58 {
        "set-speed-kp"@
    } else if i == 59 {
        "set-speed-ki"@
    } else if i == 60 {
        "set-speed-kd"@
    } else if i == 61 {
        "set-current-kp"@
    } else if i == 62 {
        "set-current-ki"@
    } else if i == 63 {
        "set-current-kd"@
    } else if i == 64 {
        "set-torque-limit"@
    } else if i == 65 {
        "tilt-roll"@
    } else if i == 66 {
        "tilt-pitch"@
    } else if i == 67 {
        "tilt-yaw"@
    } else {
        "pose"@
    }
}

fn flag_at(i: usize) -> (r: &'static str)
    ensures
        r@ == flag_spec(i as int),
{
    if i == 0 {
        "help"
    } else if i == 1 {
        "dry-run"
    } else if i == 2 {
        "allow-no-sbus"
    } else if i == 3 {
        "skip-zero"
    } else if i == 4 {
        "viz"
    } else if i == 5 {
        "realtime"
    } else if i == 6 {
        "plain"
    } else if i == 7 {
        "forever"
    } else if i == 8 {
        "chicken"
    } else if i == 9 {
        "cam-fixed"
    } else if i == 10 {
        "robot"
    } else if i == 11 {
        "record"
    } else if i == 12 {
        "limit"
    } else if i == 13 {
        "kp"
    } else if i == 14 {
        "kv"
    } else if i == 15 {
        "base-height"
    } else if i == 16 {
        "timestep"
    } else if i == 17 {
        "friction"
    } else if i == 18 {
        "cycle"
    } else if i == 19 {
        "swing"
    } else if i == 20 {
        "step-length"
    } else if i == 21 {
        "duty"
    } else if i == 22 {
        "tune-at"
    } else if i == 23 {
        "pilot"
    } else if i == 24 {
        "video"
    } else if i == 25 {
        "fps"
    } else if i == 26 {
        "width"
    } else if i == 27 {
        "height"
    } else if i == 28 {
        "cam-az"
    } else if i == 29 {
        "cam-el"
    } else if i == 30 {
        "cam-dist"
    } else if i == 31 {
        "cam-z"
    } else if i == 32 {
        "cam-x"
    } else if i == 33 {
        "cam-y"
    } else if i == 34 {
        "config"
    } else if i == 35 {
        "secs"
    } else if i == 36 {
        "gait"
    } else if i == 37 {
        "vx"
    } else if i == 38 {
        "vy"
    } else if i == 39 {
        "wz"
    } else if i == 40 {
        "every"
    } else if i == 41 {
        "out"
    } else if i == 42 {
        "leg"
    } else if i == 43 {
        "joint"
    } else if i == 44 {
        "deg"
    } else if i == 45 {
        "speed"
    } else if i == 46 {
        "assume"
    } else if i == 47 {
        "write"
    } else if i == 48 {
        "max-id"
    } else if i == 49 {
        "margin"
    } else if i == 50 {
        "status"
    } else if i == 51 {
        "viz-key"
    } else if i == 52 {
        "viz-key-measured"
    } else if i == 53 {
        "viz-rate"
    } else if i == 54 {
        "viz-endpoint"
    } else if i == 55 {
        "set-position-kp"
    } else if i == 56 {
        "set-position-ki"
    } else if i == 57 {
        "set-position-kd"
    } else if i == 58 {
        "set-speed-kp"
    } else if i == 59 {
        "set-speed-ki"
    } else if i == 60 {
        "set-speed-kd"
    } else if i == 61 {
        "set-current-kp"
    } else if i == 62 {
        "set-current-ki"
    } else if i == 63 {
        "set-current-kd"
    } else if i == 64 {
        "set-torque-limit"
    } else if i == 65 {
        "tilt-roll"
    } else if i == 66 {
        "tilt-pitch"
    } else if i == 67 {
        "tilt-yaw"
    } else {
        "pose"
    }
}

pub open spec fn is_bool_flag(name: Seq<char>) -> bool {
    exists|i: int| 0 <= i < BOOL_FLAGS && #[trigger] flag_spec(i) == name
}

pub open spec fn is_known_flag(name: Seq<char>) -> bool {
    exists|i: int| 0 <= i < ALL_FLAGS && #[trigger] flag_spec(i) == name
}

fn listed(name: &str, n: usize) -> (r: bool)
    ensures
        r == exists|i: int| 0 <= i < n && #[trigger] flag_spec(i) == name@,
{
    let mut i: usize = 0;
    while i < n
        invariant
            i <= n,
            forall|k: int| 0 <= k < i ==> #[trigger] flag_spec(k) != name@,
        decreases n - i,
    {
        if same(flag_at(i), name) {
            assert(flag_spec(i as int) == name@);
            return true;
        }
        i += 1;
    }
    false
}

/// The distance of a given spelling to known flag `i`.
pub open spec fn flag_distance(given: Seq<char>, i: int) -> int {
    distance::distance(given, given.len(), flag_spec(i), flag_spec(i).len())
}

/// Known flag `i` may be what was meant: one begins with the other, or they are
/// at most two edits apart.
pub open spec fn may_be(given: Seq<char>, i: int) -> bool {
    ||| text::begins(flag_spec(i), given)
    ||| text::begins(given, flag_spec(i))
    ||| flag_distance(given, i) <= 2
}

/// Among the first `n` known flags, flag `i` is the closest that may be meant,
/// and the first of those that are equally close.
pub open spec fn closest(given: Seq<char>, n: int, i: int) -> bool {
    &&& 0 <= i < n
    &&& may_be(given, i)
    &&& forall|k: int|
        0 <= k < n && #[trigger] may_be(given, k) ==> flag_distance(given, i) <= flag_distance(
            given,
            k,
        )
    &&& forall|k: int|
        0 <= k < i && #[trigger] may_be(given, k) ==> flag_distance(given, i) < flag_distance(given, k)
}

/// The known flag that a misspelling most likely stands for.
pub fn nearest_flag(given: &str) -> (r: Option<&'static str>)
    ensures
        match r {
            Some(s) => exists|i: int| #[trigger] closest(given@, ALL_FLAGS as int, i) && s@ == flag_spec(i),
            None => forall|i: int| 0 <= i < ALL_FLAGS ==> !#[trigger] may_be(given@, i),
        },
{
    let mut best: Option<(usize, usize)> = None;
    let mut i: usize = 0;
    while i < ALL_FLAGS
        invariant
            i <= ALL_FLAGS,
            match best {
                Some((at, apart)) => closest(given@, i as int, at as int) && apart == flag_distance(
                    given@,
                    at as int,
                ),
                None => forall|k: int| 0 <= k < i ==> !#[trigger] may_be(given@, k),
            },
        decreases ALL_FLAGS - i,
    {
        let known: &str = flag_at(i);
        let apart: usize = edit_distance(given, known);
        assert(apart == flag_distance(given@, i as int));
        let candidate: bool = begins_with(known, given) || begins_with(given, known) || apart <= 2;
        assert(candidate == may_be(given@, i as int));
        if candidate {
            best = match best {
                None => Some((i, apart)),
                Some((at, least)) => if apart < least {
                    Some((i, apart))
                } else {
                    Some((at, least))
                },
            };
        }
        i += 1;
    }
    match best {
        Some((at, _)) => {
            assert(closest(given@, ALL_FLAGS as int, at as int));
            Some(flag_at(at))
        },
        None => None,
    }
}

/// One flag as given.
pub struct Flag {
    pub key: String,
    pub value: String,
}

/// The parsed command line.
pub struct Cli {
    pub positionals: Vec<String>,
    flags: Vec<Flag>,
}

/// The command line as a value.
pub struct CliView {
    pub positionals: Seq<Seq<char>>,
    pub flags: Map<Seq<char>, Seq<char>>,
}

pub closed spec fn has_key(flags: Seq<Flag>, key: Seq<char>, i: int) -> bool {
    0 <= i < flags.len() && flags[i].key@ == key
}

/// The flags as a map.
pub closed spec fn flag_map(flags: Seq<Flag>) -> Map<Seq<char>, Seq<char>> {
    Map::new(
        |key: Seq<char>| exists|i: int| has_key(flags, key, i),
        |key: Seq<char>| flags[choose|i: int| has_key(flags, key, i)].value@,
    )
}

pub closed spec fn distinct_keys(flags: Seq<Flag>) -> bool {
    forall|i: int, j: int|
        0 <= i < flags.len() && 0 <= j < flags.len() && i != j ==> #[trigger] flags[i].key@
            != #[trigger] flags[j].key@
}

impl View for Cli {
    type V = CliView;

    closed spec fn view(&self) -> CliView {
        CliView {
            positionals: text::words(self.positionals@),
            flags: flag_map(self.flags@),
        }
    }
}

/// One argument begins a flag.
pub open spec fn is_flag_argument(a: Seq<char>) -> bool {
    text::begins(a, "--"@)
}

/// Parsing from argument `i` on, with what came before in `acc`. A flag that
/// stands alone has the value `true`; one with `=` carries its value; any other
/// takes the next argument, whatever that is, or nothing at the end.
pub open spec fn parse_from(args: Seq<Seq<char>>, i: int, acc: CliView) -> CliView
    decreases args.len() - i,
{
    if i < 0 || i >= args.len() {
        acc
    } else {
        let a = args[i];
        if !is_flag_argument(a) {
            if a == "-h"@ {
                parse_from(
                    args,
                    i + 1,
                    CliView { flags: acc.flags.insert("help"@, "true"@), ..acc },
                )
            } else {
                parse_from(args, i + 1, CliView { positionals: acc.positionals.push(a), ..acc })
            }
        } else {
            let name = a.skip(2);
            if name.contains('=') {
                let at = choose|k: int| text::first_at(name, '=', k);
                parse_from(
                    args,
                    i + 1,
                    CliView { flags: acc.flags.insert(name.take(at), name.skip(at + 1)), ..acc },
                )
            } else if is_bool_flag(name) {
                parse_from(args, i + 1, CliView { flags: acc.flags.insert(name, "true"@), ..acc })
            } else {
                if i + 1 < args.len() {
                    parse_from(
                        args,
                        i + 2,
                        CliView { flags: acc.flags.insert(name, args[i + 1]), ..acc },
                    )
                } else {
                    CliView { flags: acc.flags.insert(name, Seq::empty()), ..acc }
                }
            }
        }
    }
}

pub open spec fn parse_spec(args: Seq<Seq<char>>) -> CliView {
    parse_from(args, 0, CliView { positionals: Seq::empty(), flags: Map::empty() })
}

/// What is said of an unknown flag.
pub open spec fn hint_spec(key: Seq<char>) -> Seq<char> {
    if exists|i: int| closest(key, ALL_FLAGS as int, i) {
        "--"@ + key + "（もしかして --"@ + flag_spec(choose|i: int| closest(key, ALL_FLAGS as int, i))
            + "?）"@
    } else {
        "--"@ + key
    }
}

/// The hints of the first `n` keys, separated by commas.
pub open spec fn hints_spec(keys: Seq<Seq<char>>, n: int) -> Seq<char>
    decreases n,
{
    if n <= 0 {
        Seq::empty()
    } else if n == 1 {
        hint_spec(keys[0])
    } else {
        hints_spec(keys, n - 1) + ", "@ + hint_spec(keys[n - 1])
    }
}

pub open spec fn unknown_message(keys: Seq<Seq<char>>) -> Seq<char> {
    "知らないオプション: "@ + hints_spec(keys, keys.len() as int) + "\n--help で一覧が出ます"@
}

/// In lexicographic order, without repetition.
pub open spec fn in_order(keys: Seq<Seq<char>>) -> bool {
    forall|i: int, j: int|
        0 <= i < j < keys.len() ==> text::precedes(#[trigger] keys[i], #[trigger] keys[j])
}

/// `keys` are the unknown flags of a command line, in order.
pub open spec fn are_the_unknown(keys: Seq<Seq<char>>, flags: Map<Seq<char>, Seq<char>>) -> bool {
    &&& in_order(keys)
    &&& forall|k: Seq<char>| #[trigger]
        keys.contains(k) <==> flags.dom().contains(k) && !is_known_flag(k)
}

proof fn lemma_closest_unique(given: Seq<char>, i: int, j: int)
    requires
        closest(given, ALL_FLAGS as int, i),
        closest(given, ALL_FLAGS as int, j),
    ensures
        i == j,
{
    assert(may_be(given, i) && may_be(given, j));
}

proof fn lemma_first_unique(s: Seq<char>, c: char, i: int, j: int)
    requires
        text::first_at(s, c, i),
        text::first_at(s, c, j),
    ensures
        i == j,
{
}

proof fn lemma_map_at(flags: Seq<Flag>, i: int)
    requires
        distinct_keys(flags),
        0 <= i < flags.len(),
    ensures
        flag_map(flags).dom().contains(flags[i].key@),
        flag_map(flags)[flags[i].key@] == flags[i].value@,
{
    let key = flags[i].key@;
    assert(has_key(flags, key, i));
    let j = choose|j: int| has_key(flags, key, j);
    assert(has_key(flags, key, j));
    assert(i == j);
}

fn hint(key: &str) -> (r: String)
    ensures
        r@ == hint_spec(key@),
{
    let mut out: String = "--".to_owned();
    out.append(key);
    match nearest_flag(key) {
        Some(near) => {
            out.append("（もしかして --");
            out.append(near);
            out.append("?）");
            proof {
                let i = choose|i: int| #[trigger]
                    closest(key@, ALL_FLAGS as int, i) && near@ == flag_spec(i);
                let j = choose|j: int| closest(key@, ALL_FLAGS as int, j);
                assert(closest(key@, ALL_FLAGS as int, i));
                lemma_closest_unique(key@, i, j);
            }
        },
        None => {
            assert forall|i: int| !closest(key@, ALL_FLAGS as int, i) by {
                if closest(key@, ALL_FLAGS as int, i) {
                    assert(may_be(key@, i));
                }
            }
        },
    }
    out
}

/// Puts `key` into a sorted row of other keys.
fn insert_sorted(keys: &mut Vec<String>, key: String)
    requires
        in_order(text::words(old(keys)@)),
        !text::words(old(keys)@).contains(key@),
    ensures
        in_order(text::words(final(keys)@)),
        forall|k: Seq<char>|
            #[trigger] text::words(final(keys)@).contains(k) <==> text::words(old(keys)@).contains(k) || k == key@,
{
    let ghost before = text::words(keys@);
    let mut at: usize = 0;
    while at < keys.len() && comes_before(keys[at].as_str(), key.as_str())
        invariant
            at <= keys@.len(),
            before == text::words(keys@),
            forall|k: int| 0 <= k < at ==> text::precedes(#[trigger] before[k], key@),
        decreases keys@.len() - at,
    {
        at += 1;
    }
    let ghost word = key@;
    proof {
        assert forall|k: int| at <= k < before.len() implies text::precedes(word, #[trigger] before[k]) by {
            text::order_is_total(before[at as int], word);
            assert(before.contains(before[at as int]));
            assert(before[at as int] != word);
            assert(text::precedes(word, before[at as int]));
            if k > at {
                text::order_is_transitive(word, before[at as int], before[k]);
            }
        }
    }
    keys.insert(at, key);
    proof {
        let after = text::words(keys@);
        assert(after == before.insert(at as int, word));
        assert forall|i: int, j: int| 0 <= i < j < after.len() implies text::precedes(
            #[trigger] after[i],
            #[trigger] after[j],
        ) by {
            if i < at && j > at {
                assert(after[i] == before[i]);
                assert(after[j] == before[j - 1]);
            } else if j < at {
                assert(after[i] == before[i] && after[j] == before[j]);
            } else if i > at {
                assert(after[i] == before[i - 1] && after[j] == before[j - 1]);
            } else if i == at {
                assert(after[j] == before[j - 1]);
            } else {
                assert(after[i] == before[i]);
            }
        }
        assert forall|k: Seq<char>| #[trigger] after.contains(k) <==> before.contains(k) || k == word by {
            if after.contains(k) {
                let i = choose|i: int| 0 <= i < after.len() && after[i] == k;
                if i < at {
                    assert(before[i] == k);
                } else if i > at {
                    assert(before[i - 1] == k);
                }
            }
            if before.contains(k) {
                let i = choose|i: int| 0 <= i < before.len() && before[i] == k;
                if i < at {
                    assert(after[i] == k);
                } else {
                    assert(after[i + 1] == k);
                }
            }
            if k == word {
                assert(after[at as int] == k);
            }
        }
    }
}

impl Cli {
    /// No flag is stored twice.
    pub closed spec fn wf(&self) -> bool {
        distinct_keys(self.flags@)
    }

    fn find(&self, key: &str) -> (r: Option<usize>)
        requires
            self.wf(),
        ensures
            match r {
                Some(i) => {
                    &&& i < self.flags@.len()
                    &&& self.flags@[i as int].key@ == key@
                    &&& self@.flags.dom().contains(key@)
                    &&& self@.flags[key@] == self.flags@[i as int].value@
                },
                None => {
                    &&& !self@.flags.dom().contains(key@)
                    &&& forall|k: int| 0 <= k < self.flags@.len() ==> #[trigger] self.flags@[k].key@ != key@
                },
            },
    {
        let mut i: usize = 0;
        while i < self.flags.len()
            invariant
                i <= self.flags@.len(),
                self.wf(),
                forall|k: int| 0 <= k < i ==> #[trigger] self.flags@[k].key@ != key@,
            decreases self.flags@.len() - i,
        {
            if same(self.flags[i].key.as_str(), key) {
                proof {
                    lemma_map_at(self.flags@, i as int);
                }
                return Some(i);
            }
            i += 1;
        }
        None
    }

    fn put(&mut self, key: &str, value: &str)
        requires
            old(self).wf(),
        ensures
            final(self).wf(),
            final(self)@ == (CliView { flags: old(self)@.flags.insert(key@, value@), ..old(self)@ }),
    {
        let ghost before = self.flags@;
        let flag = Flag { key: key.to_owned(), value: value.to_owned() };
        match self.find(key) {
            Some(i) => {
                self.flags[i] = flag;
                proof {
                    let after = self.flags@;
                    assert forall|k: int| 0 <= k < after.len() implies #[trigger] after[k].key@
                        == before[k].key@ by {}
                    lemma_map_insert(before, after, key@, value@, i as int);
                }
            },
            None => {
                self.flags.push(flag);
                proof {
                    let after = self.flags@;
                    lemma_map_insert(before, after, key@, value@, before.len() as int);
                }
            },
        }
    }

    pub fn parse(args: Vec<String>) -> (r: Cli)
        ensures
            r.wf(),
            r@ == parse_spec(text::words(args@)),
    {
        let ghost words = text::words(args@);
        let mut cli = Cli { positionals: Vec::new(), flags: Vec::new() };
        proof {
            assert(cli@.positionals == Seq::<Seq<char>>::empty());
            assert(cli@.flags == Map::<Seq<char>, Seq<char>>::empty());
        }
        let mut i: usize = 0;
        while i < args.len()
            invariant
                i <= args@.len(),
                words == text::words(args@),
                cli.wf(),
                parse_from(words, i as int, cli@) == parse_spec(words),
            decreases args@.len() - i,
        {
            let arg: &str = args[i].as_str();
            proof {
                reveal_strlit("--");
            }
            assert(arg@ == words[i as int]);
            if !begins_with(arg, "--") {
                if same(arg, "-h") {
                    cli.put("help", "true");
                } else {
                    let ghost before = cli@;
                    cli.positionals.push(args[i].clone());
                    assert(cli@.positionals == before.positionals.push(arg@));
                    assert(cli@ == (CliView { positionals: before.positionals.push(arg@), ..before }));
                }
                i += 1;
            } else {
                let name: &str = tail(arg, 2);
                match find_char(name, '=') {
                    Some(at) => {
                        let key: &str = name.substring_char(0, at);
                        let value: &str = tail(name, at + 1);
                        proof {
                            assert(name@[at as int] == '=');
                            let k = choose|k: int| text::first_at(name@, '=', k);
                            lemma_first_unique(name@, '=', at as int, k);
                            assert(key@ == name@.take(at as int));
                        }
                        cli.put(key, value);
                        i += 1;
                    },
                    None => {
                        if listed(name, BOOL_FLAGS) {
                            cli.put(name, "true");
                            i += 1;
                        } else if i + 1 < args.len() {
                            let value: &str = args[i + 1].as_str();
                            assert(value@ == words[i + 1]);
                            cli.put(name, value);
                            i += 2;
                        } else {
                            let nothing: String = String::new();
                            cli.put(name, nothing.as_str());
                            i += 1;
                        }
                    },
                }
            }
        }
        cli
    }

    /// Refuses flags that are not known, naming all of them and what each may
    /// have been meant to be.
    pub fn validate_flags(&self) -> (r: Result<(), String>)
        requires
            self.wf(),
        ensures
            r is Ok <==> forall|k: Seq<char>|
                #[trigger] self@.flags.dom().contains(k) ==> is_known_flag(k),
            r matches Err(e) ==> exists|keys: Seq<Seq<char>>|
                #[trigger] are_the_unknown(keys, self@.flags) && e@ == unknown_message(keys),
    {
        let mut unknown: Vec<String> = Vec::new();
        let mut i: usize = 0;
        while i < self.flags.len()
            invariant
                i <= self.flags@.len(),
                self.wf(),
                in_order(text::words(unknown@)),
                forall|k: Seq<char>|
                    #[trigger] text::words(unknown@).contains(k) <==> !is_known_flag(k)
                        && exists|j: int| 0 <= j < i && has_key(self.flags@, k, j),
            decreases self.flags@.len() - i,
        {
            let key: &str = self.flags[i].key.as_str();
            let ghost before = text::words(unknown@);
            if !listed(key, ALL_FLAGS) {
                assert(!before.contains(key@)) by {
                    if before.contains(key@) {
                        let j = choose|j: int| 0 <= j < i && has_key(self.flags@, key@, j);
                        assert(self.flags@[j].key@ == self.flags@[i as int].key@);
                    }
                }
                insert_sorted(&mut unknown, self.flags[i].key.clone());
            }
            proof {
                let after = text::words(unknown@);
                assert forall|k: Seq<char>| #[trigger] after.contains(k) <==> !is_known_flag(k) && exists|
                    j: int,
                |
                    0 <= j < i + 1 && has_key(self.flags@, k, j) by {
                    assert(has_key(self.flags@, self.flags@[i as int].key@, i as int));
                    if exists|j: int| 0 <= j < i + 1 && has_key(self.flags@, k, j) {
                        let j = choose|j: int| 0 <= j < i + 1 && has_key(self.flags@, k, j);
                        if j < i {
                            assert(exists|m: int| 0 <= m < i && has_key(self.flags@, k, m));
                        } else {
                            assert(k == self.flags@[i as int].key@);
                        }
                    }
                    assert(before.contains(k) <==> !is_known_flag(k) && exists|m: int|
                        0 <= m < i && has_key(self.flags@, k, m));
                    if before.contains(k) {
                        let m = choose|m: int| 0 <= m < i && has_key(self.flags@, k, m);
                        assert(0 <= m < i + 1 && has_key(self.flags@, k, m));
                    }
                }
            }
            i += 1;
        }
        let ghost keys = text::words(unknown@);
        proof {
            assert forall|k: Seq<char>| #[trigger] keys.contains(k) <==> self@.flags.dom().contains(k)
                && !is_known_flag(k) by {
                if self@.flags.dom().contains(k) {
                    let j = choose|j: int| has_key(self.flags@, k, j);
                    assert(0 <= j < self.flags@.len() && has_key(self.flags@, k, j));
                }
                if keys.contains(k) {
                    let j = choose|j: int| 0 <= j < self.flags@.len() && has_key(self.flags@, k, j);
                    assert(has_key(self.flags@, k, j));
                }
            }
            assert(are_the_unknown(keys, self@.flags));
        }
        if unknown.len() == 0 {
            assert forall|k: Seq<char>| #[trigger] self@.flags.dom().contains(k) implies is_known_flag(k) by {
                assert(!keys.contains(k));
            }
            return Ok(());
        }
        assert(keys.contains(keys[0]));
        let mut message: String = "知らないオプション: ".to_owned();
        let mut k: usize = 0;
        while k < unknown.len()
            invariant
                k <= unknown@.len(),
                keys == text::words(unknown@),
                message@ == "知らないオプション: "@ + hints_spec(keys, k as int),
            decreases unknown@.len() - k,
        {
            if k > 0 {
                message.append(", ");
            }
            let h: String = hint(unknown[k].as_str());
            message.append(h.as_str());
            assert(unknown@[k as int]@ == keys[k as int]);
            k += 1;
        }
        message.append("\n--help で一覧が出ます");
        assert(message@ == unknown_message(keys));
        Err(message)
    }

    /// The first positional argument. Without one it is the harmless command.
    pub fn command(&self) -> (r: &str)
        ensures
            r@ == (if self@.positionals.len() > 0 { self@.positionals[0] } else { "check"@ }),
    {
        if self.positionals.len() > 0 {
            self.positionals[0].as_str()
        } else {
            "check"
        }
    }

    pub fn wants_help(&self) -> (r: bool)
        requires
            self.wf(),
        ensures
            r == (self@.flags.dom().contains("help"@) || self@.positionals.contains("help"@)),
    {
        if self.find("help").is_some() {
            return true;
        }
        let mut i: usize = 0;
        while i < self.positionals.len()
            invariant
                i <= self.positionals@.len(),
                forall|k: int| 0 <= k < i ==> #[trigger] self@.positionals[k] != "help"@,
            decreases self.positionals@.len() - i,
        {
            assert(self@.positionals[i as int] == self.positionals@[i as int]@);
            if same(self.positionals[i].as_str(), "help") {
                return true;
            }
            i += 1;
        }
        false
    }

    pub fn positionals(&self) -> (r: &[String])
        ensures
            text::words(r@) == self@.positionals,
    {
        self.positionals.as_slice()
    }

    /// The value of a flag, unless it is empty.
    pub fn str(&self, key: &str) -> (r: Option<&str>)
        requires
            self.wf(),
        ensures
            match r {
                Some(v) => {
                    &&& self@.flags.dom().contains(key@)
                    &&& self@.flags[key@].len() > 0
                    &&& v@ == self@.flags[key@]
                },
                None => !self@.flags.dom().contains(key@) || self@.flags[key@].len() == 0,
            },
    {
        match self.find(key) {
            Some(i) => {
                let v: &str = self.flags[i].value.as_str();
                if v.is_empty() {
                    None
                } else {
                    Some(v)
                }
            },
            None => None,
        }
    }

    /// The value of a flag as a natural number.
    pub fn usize(&self, key: &str) -> (r: Option<usize>)
        requires
            self.wf(),
        ensures
            r == (if self@.flags.dom().contains(key@) { text::natural(self@.flags[key@]) } else { None }),
    {
        match self.str(key) {
            Some(v) => parse_natural(v),
            None => None,
        }
    }

    /// Whether a flag is given, and not as `false`.
    pub fn flag(&self, key: &str) -> (r: bool)
        requires
            self.wf(),
        ensures
            r == (self@.flags.dom().contains(key@) && self@.flags[key@] != "false"@),
    {
        match self.find(key) {
            Some(i) => !same(self.flags[i].value.as_str(), "false"),
            None => false,
        }
    }
}

proof fn lemma_map_insert(before: Seq<Flag>, after: Seq<Flag>, key: Seq<char>, value: Seq<char>, at: int)
    requires
        distinct_keys(before),
        0 <= at < after.len(),
        after[at].key@ == key,
        after[at].value@ == value,
        after.len() == before.len() || (after.len() == before.len() + 1 && at == before.len()),
        at < before.len() ==> before[at].key@ == key,
        at == before.len() ==> forall|k: int| 0 <= k < before.len() ==> #[trigger] before[k].key@ != key,
        forall|k: int| 0 <= k < before.len() && k != at ==> #[trigger] after[k] == before[k],
    ensures
        distinct_keys(after),
        flag_map(after) == flag_map(before).insert(key, value),
{
    assert(distinct_keys(after)) by {
        assert forall|i: int, j: int|
            0 <= i < after.len() && 0 <= j < after.len() && i != j implies #[trigger] after[i].key@
            != #[trigger] after[j].key@ by {
            if i < before.len() && j < before.len() {
                assert(before[i].key@ != before[j].key@);
            }
        }
    }
    let m = flag_map(before).insert(key, value);
    assert forall|k: Seq<char>| #[trigger] flag_map(after).dom().contains(k) <==> m.dom().contains(k) by {
        if flag_map(after).dom().contains(k) {
            let i = choose|i: int| has_key(after, k, i);
            if i != at {
                assert(has_key(before, k, i));
            }
        }
        if flag_map(before).dom().contains(k) {
            let i = choose|i: int| has_key(before, k, i);
            assert(has_key(after, k, i));
        }
        if k == key {
            assert(has_key(after, k, at));
        }
    }
    assert forall|k: Seq<char>| #[trigger] m.dom().contains(k) implies flag_map(after)[k] == m[k] by {
        if k == key {
            lemma_map_at(after, at);
        } else {
            let i = choose|i: int| has_key(before, k, i);
            lemma_map_at(before, i);
            lemma_map_at(after, i);
        }
    }
    assert(flag_map(after).dom() =~= m.dom());
    assert(flag_map(after) =~= m);
}

/// `--name=value` gives the flag that value. Only the first `=` separates.
pub proof fn an_equals_sign_separates_a_value(
    args: Seq<Seq<char>>,
    i: int,
    acc: CliView,
    name: Seq<char>,
    value: Seq<char>,
)
    requires
        0 <= i < args.len(),
        args[i] == "--"@ + name + "="@ + value,
        !name.contains('='),
    ensures
        parse_from(args, i, acc) == parse_from(
            args,
            i + 1,
            CliView { positionals: acc.positionals, flags: acc.flags.insert(name, value) },
        ),
{
    reveal_strlit("--");
    reveal_strlit("=");
    let a = args[i];
    let rest = a.skip(2);
    assert(a.take(2) == "--"@);
    assert(rest == name + "="@ + value);
    assert(rest[name.len() as int] == '=');
    assert forall|k: int| 0 <= k < name.len() implies rest[k] != '=' by {
        assert(rest[k] == name[k]);
    }
    assert(text::first_at(rest, '=', name.len() as int));
    let at = choose|k: int| text::first_at(rest, '=', k);
    lemma_first_unique(rest, '=', at, name.len() as int);
    assert(rest.take(at) == name);
    assert(rest.skip(at + 1) == value);
}

/// The flags that stand alone are these ten. Each is set to `true` and leaves
/// the next argument to be read for itself.
pub proof fn a_flag_that_stands_alone_takes_nothing(
    args: Seq<Seq<char>>,
    i: int,
    acc: CliView,
    name: Seq<char>,
)
    requires
        0 <= i < args.len(),
        args[i] == "--"@ + name,
        !name.contains('='),
        name == "help"@ || name == "dry-run"@ || name == "allow-no-sbus"@ || name == "skip-zero"@
            || name == "viz"@ || name == "realtime"@ || name == "plain"@ || name == "forever"@
            || name == "chicken"@ || name == "cam-fixed"@,
    ensures
        is_known_flag(name),
        parse_from(args, i, acc) == parse_from(
            args,
            i + 1,
            CliView { positionals: acc.positionals, flags: acc.flags.insert(name, "true"@) },
        ),
{
    reveal_strlit("--");
    assert(args[i].take(2) == "--"@);
    assert(args[i].skip(2) == name);
    assert(flag_spec(0) == "help"@);
    assert(flag_spec(1) == "dry-run"@);
    assert(flag_spec(2) == "allow-no-sbus"@);
    assert(flag_spec(3) == "skip-zero"@);
    assert(flag_spec(4) == "viz"@);
    assert(flag_spec(5) == "realtime"@);
    assert(flag_spec(6) == "plain"@);
    assert(flag_spec(7) == "forever"@);
    assert(flag_spec(8) == "chicken"@);
    assert(flag_spec(9) == "cam-fixed"@);
}

/// Every other flag takes the next argument as its value, whatever that looks
/// like, and the argument is not read again. At the end it has an empty value.
pub proof fn any_other_flag_takes_the_next_argument(
    args: Seq<Seq<char>>,
    i: int,
    acc: CliView,
    name: Seq<char>,
)
    requires
        0 <= i < args.len(),
        args[i] == "--"@ + name,
        !name.contains('='),
        name != "help"@ && name != "dry-run"@ && name != "allow-no-sbus"@ && name != "skip-zero"@
            && name != "viz"@ && name != "realtime"@ && name != "plain"@ && name != "forever"@
            && name != "chicken"@ && name != "cam-fixed"@,
    ensures
        i + 1 < args.len() ==> parse_from(args, i, acc) == parse_from(
            args,
            i + 2,
            CliView { positionals: acc.positionals, flags: acc.flags.insert(name, args[i + 1]) },
        ),
        i + 1 == args.len() ==> parse_from(args, i, acc) == (CliView {
            positionals: acc.positionals,
            flags: acc.flags.insert(name, Seq::empty()),
        }),
{
    reveal_strlit("--");
    assert(args[i].take(2) == "--"@);
    assert(args[i].skip(2) == name);
    assert(!is_bool_flag(name));
}

/// What does not begin with two dashes is a positional argument, in its order.
/// The one exception is `-h`, which asks for help.
pub proof fn what_is_no_flag_is_positional(args: Seq<Seq<char>>, i: int, acc: CliView)
    requires
        0 <= i < args.len(),
        args[i].len() < 2 || args[i][0] != '-' || args[i][1] != '-',
    ensures
        args[i] == seq!['-', 'h'] ==> parse_from(args, i, acc) == parse_from(
            args,
            i + 1,
            CliView { positionals: acc.positionals, flags: acc.flags.insert("help"@, "true"@) },
        ),
        args[i] != seq!['-', 'h'] ==> parse_from(args, i, acc) == parse_from(
            args,
            i + 1,
            CliView { positionals: acc.positionals.push(args[i]), flags: acc.flags },
        ),
{
    reveal_strlit("--");
    reveal_strlit("-h");
    assert("-h"@ == seq!['-', 'h']);
    if text::begins(args[i], "--"@) {
        assert(args[i].take(2)[0] == args[i][0]);
        assert(args[i].take(2)[1] == args[i][1]);
    }
}

/// Nothing given, nothing parsed; and after the last argument nothing is added.
pub proof fn parsing_ends_with_the_arguments(args: Seq<Seq<char>>, acc: CliView)
    ensures
        parse_from(args, args.len() as int, acc) == acc,
        args.len() == 0 ==> parse_spec(args).positionals.len() == 0,
        args.len() == 0 ==> forall|k: Seq<char>| !parse_spec(args).flags.dom().contains(k),
{
}

/// A later occurrence of a flag replaces an earlier one, and nothing that was
/// parsed is lost: positionals stay in front, flags stay set.
pub proof fn what_was_parsed_stays(args: Seq<Seq<char>>, i: int, acc: CliView, key: Seq<char>)
    requires
        0 <= i <= args.len(),
    ensures
        parse_from(args, i, acc).positionals.len() >= acc.positionals.len(),
        parse_from(args, i, acc).positionals.take(acc.positionals.len() as int) == acc.positionals,
        acc.flags.dom().contains(key) ==> parse_from(args, i, acc).flags.dom().contains(key),
    decreases args.len() - i,
{
    let last = parse_from(args, i, acc);
    if i < args.len() {
        let a = args[i];
        let name = a.skip(2);
        let n = acc.positionals.len() as int;
        let at = choose|k: int| text::first_at(name, '=', k);
        let next = if !is_flag_argument(a) {
            if a == "-h"@ {
                CliView { flags: acc.flags.insert("help"@, "true"@), ..acc }
            } else {
                CliView { positionals: acc.positionals.push(a), ..acc }
            }
        } else if name.contains('=') {
            CliView { flags: acc.flags.insert(name.take(at), name.skip(at + 1)), ..acc }
        } else if is_bool_flag(name) {
            CliView { flags: acc.flags.insert(name, "true"@), ..acc }
        } else if i + 1 < args.len() {
            CliView { flags: acc.flags.insert(name, args[i + 1]), ..acc }
        } else {
            CliView { flags: acc.flags.insert(name, Seq::empty()), ..acc }
        };
        assert(next.positionals.take(n) == acc.positionals);
        what_was_parsed_stays(args, i + 1, next, key);
        if i + 1 < args.len() {
            what_was_parsed_stays(args, i + 2, next, key);
        }
        assert(last.positionals.take(n) == last.positionals.take(next.positionals.len() as int).take(n));
    } else {
        assert(last.positionals.take(acc.positionals.len() as int) == acc.positionals);
    }
}

/// A flag spelt right is suggested as itself.
pub proof fn a_right_spelling_is_its_own_suggestion(given: Seq<char>, i: int)
    requires
        closest(given, ALL_FLAGS as int, i),
        is_known_flag(given),
    ensures
        flag_spec(i) == given,
{
    let k = choose|k: int| 0 <= k < ALL_FLAGS && #[trigger] flag_spec(k) == given;
    distance::distance_tells_texts_apart(given, flag_spec(k));
    distance::distance_tells_texts_apart(given, flag_spec(i));
    assert(may_be(given, k));
    assert(flag_distance(given, k) == 0);
}

/// A flag may be meant by a beginning of it, by a text that begins with it, and
/// by what is two edits or fewer away from it; by nothing else.
pub proof fn what_may_be_meant(given: Seq<char>, i: int, more: Seq<char>)
    ensures
        given + more == flag_spec(i) ==> may_be(given, i),
        flag_spec(i) + more == given ==> may_be(given, i),
        distance::distance(given, given.len(), flag_spec(i), flag_spec(i).len()) <= 2 ==> may_be(given, i),
        may_be(given, i) ==> distance::distance(given, given.len(), flag_spec(i), flag_spec(i).len()) <= 2
            || (exists|m: Seq<char>| #[trigger] (given + m) == flag_spec(i))
            || (exists|m: Seq<char>| #[trigger] (flag_spec(i) + m) == given),
{
    if given + more == flag_spec(i) {
        assert(flag_spec(i).take(given.len() as int) == given);
    }
    if flag_spec(i) + more == given {
        assert(given.take(flag_spec(i).len() as int) == flag_spec(i));
    }
    if text::begins(flag_spec(i), given) {
        assert(given + flag_spec(i).skip(given.len() as int) == flag_spec(i));
    }
    if text::begins(given, flag_spec(i)) {
        assert(flag_spec(i) + given.skip(flag_spec(i).len() as int) == given);
    }
}

/// The complaint about unknown flags spells each of them out.
pub proof fn every_unknown_flag_is_named(keys: Seq<Seq<char>>, i: int) -> (at: (Seq<char>, Seq<char>))
    requires
        0 <= i < keys.len(),
    ensures
        unknown_message(keys) == at.0 + "--"@ + keys[i] + at.1,
{
    let parts = lemma_hint_within(keys, keys.len() as int, i);
    let at = ("知らないオプション: "@ + parts.0, parts.1 + "\n--help で一覧が出ます"@);
    assert(unknown_message(keys) == at.0 + "--"@ + keys[i] + at.1);
    at
}

proof fn lemma_hint_within(keys: Seq<Seq<char>>, n: int, i: int) -> (at: (Seq<char>, Seq<char>))
    requires
        0 <= i < n <= keys.len(),
    ensures
        hints_spec(keys, n) == at.0 + "--"@ + keys[i] + at.1,
    decreases n,
{
    let key = keys[n - 1];
    let own = hint_spec(key);
    let after = if exists|k: int| closest(key, ALL_FLAGS as int, k) {
        "（もしかして --"@ + flag_spec(choose|k: int| closest(key, ALL_FLAGS as int, k)) + "?）"@
    } else {
        Seq::empty()
    };
    assert(own == "--"@ + key + after);
    if i == n - 1 {
        let before = if n == 1 {
            Seq::empty()
        } else {
            hints_spec(keys, n - 1) + ", "@
        };
        assert(hints_spec(keys, n) == before + "--"@ + key + after);
        (before, after)
    } else {
        let parts = lemma_hint_within(keys, n - 1, i);
        let at = (parts.0, parts.1 + ", "@ + own);
        assert(hints_spec(keys, n) == at.0 + "--"@ + keys[i] + at.1);
        at
    }
}

/// Reading starts with the first argument: a word there is the first positional
/// one.
pub proof fn reading_starts_with_the_first_argument(args: Seq<Seq<char>>)
    requires
        args.len() > 0,
        args[0].len() > 0,
        args[0][0] != '-',
    ensures
        parse_spec(args).positionals.len() > 0,
        parse_spec(args).positionals[0] == args[0],
{
    let none = CliView { positionals: Seq::empty(), flags: Map::empty() };
    let first = CliView { positionals: none.positionals.push(args[0]), flags: none.flags };
    assert(args[0] != seq!['-', 'h']);
    what_is_no_flag_is_positional(args, 0, none);
    what_was_parsed_stays(args, 1, first, Seq::empty());
    let last = parse_from(args, 1, first);
    assert(last.positionals.take(1)[0] == last.positionals[0]);
    assert(first.positionals[0] == args[0]);
}

} // verus!
