//! What one control period knows about the robot.

use vstd::prelude::*;

use crate::axis;
use crate::axis::{id_of_index, AxisId, AXIS_CAPACITY};
use crate::scalar::Scalar;
use crate::time::{Span, Time};

verus! {

/// How far an axis reading can be trusted.
#[derive(Clone, Copy, Debug, PartialEq, Eq, Structural)]
pub struct AxisHealth {
    /// Whether the axis has been read at all.
    pub valid: bool,
    /// How old the reading is.
    pub age: Span,
    /// The device's own fault bits. Zero is no fault.
    pub fault_raw: u32,
    pub temperature_c: Option<Scalar>,
    pub voltage_v: Option<Scalar>,
}

impl AxisHealth {
    pub open spec fn faulted_spec(self) -> bool {
        self.valid && self.fault_raw != 0
    }

    pub open spec fn unread_spec() -> AxisHealth {
        AxisHealth {
            valid: false,
            age: Span::zero_spec(),
            fault_raw: 0,
            temperature_c: None,
            voltage_v: None,
        }
    }

    pub fn faulted(&self) -> (r: bool)
        ensures
            r == self.faulted_spec(),
    {
        self.valid && self.fault_raw != 0
    }
}

impl Default for AxisHealth {
    fn default() -> (r: AxisHealth)
        ensures
            r == AxisHealth::unread_spec(),
    {
        AxisHealth {
            valid: false,
            age: Span::zero(),
            fault_raw: 0,
            temperature_c: None,
            voltage_v: None,
        }
    }
}

/// The reading of one axis.
#[derive(Clone, Copy, Debug, PartialEq, Eq, Structural)]
pub struct AxisState {
    pub position_rad: Scalar,
    pub velocity_rad_s: Scalar,
    pub torque_nm: Option<Scalar>,
    pub health: AxisHealth,
}

impl AxisState {
    pub open spec fn unread_spec() -> AxisState {
        AxisState {
            position_rad: Scalar::zero_spec(),
            velocity_rad_s: Scalar::zero_spec(),
            torque_nm: None,
            health: AxisHealth::unread_spec(),
        }
    }
}

impl Default for AxisState {
    fn default() -> (r: AxisState)
        ensures
            r == AxisState::unread_spec(),
    {
        AxisState {
            position_rad: Scalar::zero(),
            velocity_rad_s: Scalar::zero(),
            torque_nm: None,
            health: AxisHealth::default(),
        }
    }
}

/// Body attitude and rates, in the body frame.
#[derive(Clone, Copy, Debug, PartialEq, Eq)]
pub struct Imu {
    pub rpy_rad: [Scalar; 3],
    pub gyro_rad_s: [Scalar; 3],
    pub accel_m_s2: [Scalar; 3],
    pub age: Span,
}

/// Ground contact of one foot; `None` where it cannot be measured.
pub type Contact = Option<bool>;

/// Everything observed in one period.
#[derive(Clone, Debug, PartialEq, Eq)]
pub struct Observation {
    pub time: Time,
    pub axes: Vec<AxisState>,
    pub imu: Option<Imu>,
    pub contacts: Vec<Contact>,
}

/// The faulted ones among the first `n` axes, in order.
pub open spec fn faulted_upto(axes: Seq<AxisState>, n: int) -> Seq<(AxisId, AxisState)>
    decreases n,
{
    if n <= 0 {
        Seq::empty()
    } else if axes[n - 1].health.faulted_spec() {
        faulted_upto(axes, n - 1).push((axis::id_at(n - 1), axes[n - 1]))
    } else {
        faulted_upto(axes, n - 1)
    }
}

/// The largest age among the first `n` axes; zero without an axis.
pub open spec fn worst_age_upto(axes: Seq<AxisState>, n: int) -> int
    decreases n,
{
    if n <= 0 {
        0
    } else if axes[n - 1].health.age.nanos > worst_age_upto(axes, n - 1) {
        axes[n - 1].health.age.nanos as int
    } else {
        worst_age_upto(axes, n - 1)
    }
}

impl Observation {
    /// An observation in which nothing has been read yet.
    pub fn empty(n: usize, legs: usize) -> (r: Observation)
        ensures
            r.time == (Time { nanos: 0 }),
            r.axes@ == Seq::new(n as nat, |i: int| AxisState::unread_spec()),
            r.imu is None,
            r.contacts@ == Seq::new(legs as nat, |i: int| None::<bool>),
    {
        let mut axes: Vec<AxisState> = Vec::new();
        let mut i: usize = 0;
        while i < n
            invariant
                i <= n,
                axes@ == Seq::new(i as nat, |k: int| AxisState::unread_spec()),
            decreases n - i,
        {
            axes.push(AxisState::default());
            i += 1;
        }
        let mut contacts: Vec<Contact> = Vec::new();
        let mut k: usize = 0;
        while k < legs
            invariant
                k <= legs,
                contacts@ == Seq::new(k as nat, |j: int| None::<bool>),
            decreases legs - k,
        {
            contacts.push(None);
            k += 1;
        }
        Observation { time: Time::zero(), axes, imu: None, contacts }
    }

    pub fn len(&self) -> (r: usize)
        ensures
            r == self.axes@.len(),
    {
        self.axes.len()
    }

    pub fn is_empty(&self) -> (r: bool)
        ensures
            r == (self.axes@.len() == 0),
    {
        self.axes.len() == 0
    }

    pub fn axes(&self) -> (r: &[AxisState])
        ensures
            r@ == self.axes@,
    {
        self.axes.as_slice()
    }

    pub fn get(&self, id: AxisId) -> (r: Option<&AxisState>)
        ensures
            id.0 < self.axes@.len() ==> r == Some(&self.axes@[id.0 as int]),
            id.0 >= self.axes@.len() ==> r is None,
    {
        if id.index() < self.axes.len() {
            Some(&self.axes[id.index()])
        } else {
            None
        }
    }

    pub fn get_mut(&mut self, id: AxisId) -> (r: Option<&mut AxisState>)
        ensures
            final(self).time == old(self).time,
            final(self).imu == old(self).imu,
            final(self).contacts == old(self).contacts,
            match r {
                Some(a) => {
                    &&& id.0 < old(self).axes@.len()
                    &&& *a == old(self).axes@[id.0 as int]
                    &&& final(self).axes@ == old(self).axes@.update(id.0 as int, *final(a))
                },
                None => id.0 >= old(self).axes@.len() && *final(self) == *old(self),
            },
    {
        if id.index() < self.axes.len() {
            Some(&mut self.axes[id.index()])
        } else {
            None
        }
    }

    /// Whether some axis has not been read yet.
    pub fn any_unread(&self) -> (r: bool)
        ensures
            r == exists|i: int| 0 <= i < self.axes@.len() && !(#[trigger] self.axes@[i]).health.valid,
    {
        let mut i: usize = 0;
        while i < self.axes.len()
            invariant
                i <= self.axes@.len(),
                forall|k: int| 0 <= k < i ==> (#[trigger] self.axes@[k]).health.valid,
            decreases self.axes@.len() - i,
        {
            if !self.axes[i].health.valid {
                return true;
            }
            i += 1;
        }
        false
    }

    /// The axes that report a fault, with their readings.
    pub fn faulted(&self) -> (r: Vec<(AxisId, AxisState)>)
        ensures
            r@ == faulted_upto(self.axes@, self.axes@.len() as int),
    {
        let mut out: Vec<(AxisId, AxisState)> = Vec::new();
        let mut i: usize = 0;
        while i < self.axes.len()
            invariant
                i <= self.axes@.len(),
                out@ == faulted_upto(self.axes@, i as int),
            decreases self.axes@.len() - i,
        {
            if self.axes[i].health.faulted() {
                out.push((id_of_index(i), self.axes[i]));
            }
            i += 1;
        }
        out
    }

    /// The age of the oldest reading.
    pub fn worst_age(&self) -> (r: Span)
        ensures
            r.nanos == worst_age_upto(self.axes@, self.axes@.len() as int),
    {
        let mut worst: u128 = 0;
        let mut i: usize = 0;
        while i < self.axes.len()
            invariant
                i <= self.axes@.len(),
                worst == worst_age_upto(self.axes@, i as int),
            decreases self.axes@.len() - i,
        {
            if self.axes[i].health.age.nanos > worst {
                worst = self.axes[i].health.age.nanos;
            }
            i += 1;
        }
        Span { nanos: worst }
    }
}

impl Default for Observation {
    fn default() -> (r: Observation)
        ensures
            r.time == (Time { nanos: 0 }),
            r.axes@.len() == 0,
            r.imu is None,
            r.contacts@.len() == 0,
    {
        Observation { time: Time::zero(), axes: Vec::new(), imu: None, contacts: Vec::new() }
    }
}

/// The worst age is an upper bound on every axis and is reached by one of them,
/// unless it is zero.
pub proof fn worst_age_is_the_largest(axes: Seq<AxisState>, n: int)
    requires
        0 <= n <= axes.len(),
    ensures
        forall|i: int| 0 <= i < n ==> (#[trigger] axes[i]).health.age.nanos <= worst_age_upto(axes, n),
        worst_age_upto(axes, n) > 0 ==> exists|i: int|
            0 <= i < n && (#[trigger] axes[i]).health.age.nanos == worst_age_upto(axes, n),
    decreases n,
{
    if n > 0 {
        worst_age_is_the_largest(axes, n - 1);
    }
}

/// An axis that was never read is not listed as faulted, whatever its bits say.
pub proof fn unread_axes_are_not_faulted(axes: Seq<AxisState>, n: int, k: int)
    requires
        0 <= n <= axes.len(),
        0 <= k < faulted_upto(axes, n).len(),
    ensures
        faulted_upto(axes, n)[k].1.health.valid,
        faulted_upto(axes, n)[k].1.health.fault_raw != 0,
    decreases n,
{
    if n > 0 && k < faulted_upto(axes, n - 1).len() {
        unread_axes_are_not_faulted(axes, n - 1, k);
    }
}

/// The fault list is ascending, and holds every axis that has been read and
/// reports a fault, with its reading.
pub proof fn the_faulted_are_listed_once(axes: Seq<AxisState>, n: int)
    requires
        0 <= n <= axes.len(),
        n <= AXIS_CAPACITY,
    ensures
        forall|k: int|
            0 <= k < faulted_upto(axes, n).len() ==> {
                let f = #[trigger] faulted_upto(axes, n)[k];
                f.0.0 < n && f.1 == axes[f.0.0 as int] && f.1.health.faulted_spec()
            },
        forall|j: int, k: int|
            0 <= j < k < faulted_upto(axes, n).len() ==> (#[trigger] faulted_upto(axes, n)[j]).0.0 < (
            #[trigger] faulted_upto(axes, n)[k]).0.0,
        forall|i: int|
            0 <= i < n && (#[trigger] axes[i]).health.faulted_spec() ==> exists|k: int|
                0 <= k < faulted_upto(axes, n).len() && (#[trigger] faulted_upto(axes, n)[k]).0.0 == i,
    decreases n,
{
    if n > 0 {
        the_faulted_are_listed_once(axes, n - 1);
        let shorter = faulted_upto(axes, n - 1);
        let all = faulted_upto(axes, n);
        assert forall|i: int| 0 <= i < n && (#[trigger] axes[i]).health.faulted_spec() implies exists|
            k: int,
        | 0 <= k < all.len() && (#[trigger] all[k]).0.0 == i by {
            if i == n - 1 {
                assert(all[all.len() - 1].0.0 == i);
            } else {
                let k = choose|k: int| 0 <= k < shorter.len() && (#[trigger] shorter[k]).0.0 == i;
                assert(all[k].0.0 == i);
            }
        }
    }
}

/// A fault is one that was read: bits of an axis that never answered say
/// nothing, and one bit of an axis that did is enough.
pub proof fn a_fault_is_a_bit_that_was_read(axes: Seq<AxisState>, n: int, i: int)
    requires
        0 <= i < n <= axes.len(),
        n <= AXIS_CAPACITY,
    ensures
        axes[i].health.valid && axes[i].health.fault_raw != 0 <==> exists|k: int|
            0 <= k < faulted_upto(axes, n).len() && (#[trigger] faulted_upto(axes, n)[k]).0.0 == i,
{
    the_faulted_are_listed_once(axes, n);
    if axes[i].health.valid && axes[i].health.fault_raw != 0 {
        assert(axes[i].health.faulted_spec());
    }
}

/// An axis that was not read yet shows nothing that could be taken for a
/// reading.
pub proof fn what_was_not_read_shows_nothing()
    ensures
        !AxisState::unread_spec().health.valid,
        AxisState::unread_spec().health.fault_raw == 0,
        AxisState::unread_spec().health.age.nanos == 0,
        AxisState::unread_spec().health.temperature_c is None,
        AxisState::unread_spec().health.voltage_v is None,
        AxisState::unread_spec().torque_nm is None,
        AxisState::unread_spec().position_rad.is_zero_num(),
        AxisState::unread_spec().velocity_rad_s.is_zero_num(),
        AxisState::unread_spec().health == AxisHealth::unread_spec(),
{
}

} // verus!
