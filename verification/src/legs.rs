//! One flag per leg.

use vstd::prelude::*;

verus! {

/// A flag for each leg: front left, front right, rear left, rear right.
#[derive(Clone, Copy, Debug, PartialEq, Eq, Structural)]
pub struct LegFlags {
    pub fl: bool,
    pub fr: bool,
    pub rl: bool,
    pub rr: bool,
}

pub open spec fn one(b: bool) -> int {
    if b {
        1
    } else {
        0
    }
}

impl LegFlags {
    pub open spec fn at(self, slot: int) -> bool {
        if slot == 0 {
            self.fl
        } else if slot == 1 {
            self.fr
        } else if slot == 2 {
            self.rl
        } else {
            self.rr
        }
    }

    /// The flags with that of `slot` replaced.
    pub open spec fn with(self, slot: int, b: bool) -> LegFlags {
        if slot == 0 {
            LegFlags { fl: b, ..self }
        } else if slot == 1 {
            LegFlags { fr: b, ..self }
        } else if slot == 2 {
            LegFlags { rl: b, ..self }
        } else {
            LegFlags { rr: b, ..self }
        }
    }

    pub open spec fn all_spec() -> LegFlags {
        LegFlags { fl: true, fr: true, rl: true, rr: true }
    }

    pub open spec fn none_spec() -> LegFlags {
        LegFlags { fl: false, fr: false, rl: false, rr: false }
    }

    /// How many flags are set.
    pub open spec fn count_spec(self) -> int {
        one(self.fl) + one(self.fr) + one(self.rl) + one(self.rr)
    }

    pub fn all() -> (r: LegFlags)
        ensures
            r == Self::all_spec(),
    {
        LegFlags { fl: true, fr: true, rl: true, rr: true }
    }

    pub fn none() -> (r: LegFlags)
        ensures
            r == Self::none_spec(),
    {
        LegFlags { fl: false, fr: false, rl: false, rr: false }
    }

    pub fn get(self, slot: usize) -> (r: bool)
        ensures
            r == self.at(slot as int),
    {
        if slot == 0 {
            self.fl
        } else if slot == 1 {
            self.fr
        } else if slot == 2 {
            self.rl
        } else {
            self.rr
        }
    }

    pub fn set(self, slot: usize, b: bool) -> (r: LegFlags)
        ensures
            r == self.with(slot as int, b),
    {
        if slot == 0 {
            LegFlags { fl: b, ..self }
        } else if slot == 1 {
            LegFlags { fr: b, ..self }
        } else if slot == 2 {
            LegFlags { rl: b, ..self }
        } else {
            LegFlags { rr: b, ..self }
        }
    }

    pub fn count(self) -> (r: usize)
        ensures
            r == self.count_spec(),
    {
        let mut n: usize = 0;
        if self.fl {
            n += 1;
        }
        if self.fr {
            n += 1;
        }
        if self.rl {
            n += 1;
        }
        if self.rr {
            n += 1;
        }
        n
    }

    pub fn from_array(a: [bool; 4]) -> (r: LegFlags)
        ensures
            r == (LegFlags { fl: a@[0], fr: a@[1], rl: a@[2], rr: a@[3] }),
    {
        LegFlags { fl: a[0], fr: a[1], rl: a[2], rr: a[3] }
    }

    pub fn to_array(self) -> (r: [bool; 4])
        ensures
            r@ == seq![self.fl, self.fr, self.rl, self.rr],
    {
        [self.fl, self.fr, self.rl, self.rr]
    }
}

/// The slots count front left, front right, rear left, rear right.
pub proof fn slots_count_from_front_left_to_rear_right(flags: LegFlags)
    ensures
        flags.at(0) == flags.fl,
        flags.at(1) == flags.fr,
        flags.at(2) == flags.rl,
        flags.at(3) == flags.rr,
{
}

/// Setting one flag shows at its own slot and nowhere else, and changes the
/// count by at most that one flag.
pub proof fn setting_a_flag_changes_only_that_flag(flags: LegFlags, slot: int, other: int, b: bool)
    requires
        0 <= slot < 4,
        0 <= other < 4,
    ensures
        flags.with(slot, b).at(slot) == b,
        other != slot ==> flags.with(slot, b).at(other) == flags.at(other),
        b && !flags.at(slot) ==> flags.with(slot, b).count_spec() == flags.count_spec() + 1,
        !b && flags.at(slot) ==> flags.with(slot, b).count_spec() == flags.count_spec() - 1,
        b == flags.at(slot) ==> flags.with(slot, b) == flags,
{
}

/// All flags are four set ones, none are four cleared ones, and the count tells.
pub proof fn all_and_none(flags: LegFlags, slot: int)
    ensures
        LegFlags::all_spec().at(slot),
        !LegFlags::none_spec().at(slot),
        0 <= flags.count_spec() <= 4,
        flags.count_spec() == 4 <==> flags == LegFlags::all_spec(),
        flags.count_spec() == 0 <==> flags == LegFlags::none_spec(),
{
}

} // verus!
