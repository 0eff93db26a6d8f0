//! The last check between a command and the robot.
//!
//! The safety gate holds targets to their range, to their rate and to their torque,
//! and freezes them while the observation is stale. It never makes an axis
//! limp: a loaded quadruped that goes limp collapses, so faults are reported
//! and the decision stays with the operator.

use vstd::prelude::*;

use crate::axis;
use crate::axis::{id_of_index, AxisId, AXIS_CAPACITY};
use crate::command::{AxisCommand, Command, ControlMode};
use crate::observation;
use crate::observation::{AxisState, Observation};
use crate::scalar;
use crate::scalar::{Scalar, INFINITE, SIGN};
use crate::time::Span;

verus! {

/// Limits of one axis. A rate or torque limit of zero is no limit.
#[derive(Clone, Copy, Debug, PartialEq, Eq, Structural)]
pub struct AxisLimits {
    pub min_rad: Scalar,
    pub max_rad: Scalar,
    pub max_target_rate_rad_s: Scalar,
    pub max_torque_nm: Scalar,
}

impl AxisLimits {
    pub open spec fn unlimited_spec() -> AxisLimits {
        AxisLimits {
            min_rad: Scalar { bits: (SIGN + INFINITE) as u64 },
            max_rad: Scalar { bits: INFINITE },
            max_target_rate_rad_s: Scalar::zero_spec(),
            max_torque_nm: Scalar::zero_spec(),
        }
    }

    pub fn unlimited() -> (r: AxisLimits)
        ensures
            r == Self::unlimited_spec(),
            r.ordered(),
    {
        AxisLimits {
            min_rad: Scalar { bits: SIGN + INFINITE },
            max_rad: Scalar { bits: INFINITE },
            max_target_rate_rad_s: Scalar::zero(),
            max_torque_nm: Scalar::zero(),
        }
    }

    /// The range is a range.
    pub open spec fn ordered(self) -> bool {
        self.min_rad.le_num(self.max_rad)
    }

    pub open spec fn inside(self, x: Scalar) -> bool {
        self.min_rad.le_num(x) && x.le_num(self.max_rad)
    }

    /// The torque is over its limit.
    pub open spec fn torque_exceeded(self, torque: Scalar) -> bool {
        self.max_torque_nm.positive() && self.max_torque_nm.lt_num(torque.abs_spec())
    }
}

#[derive(Clone, Debug, PartialEq, Eq)]
pub struct SafetyConfig {
    pub axes: Vec<AxisLimits>,
    pub max_observation_age: Span,
}

/// What the safety gate had to change, and what it noticed.
#[derive(Clone, Debug, PartialEq, Eq)]
pub struct SafetyVerdict {
    pub clamped: Vec<AxisId>,
    pub rate_limited: Vec<AxisId>,
    pub torque_limited: Vec<AxisId>,
    pub held_for_stale_observation: bool,
    pub faulted: Vec<AxisId>,
}

impl SafetyVerdict {
    pub open spec fn clean(&self) -> bool {
        &&& self.clamped@.len() == 0
        &&& self.rate_limited@.len() == 0
        &&& self.torque_limited@.len() == 0
        &&& !self.held_for_stale_observation
        &&& self.faulted@.len() == 0
    }

    pub fn is_clean(&self) -> (r: bool)
        ensures
            r == self.clean(),
    {
        self.clamped.len() == 0 && self.rate_limited.len() == 0 && self.torque_limited.len() == 0
            && !self.held_for_stale_observation && self.faulted.len() == 0
    }
}

impl Default for SafetyVerdict {
    fn default() -> (r: SafetyVerdict)
        ensures
            r.clean(),
    {
        SafetyVerdict {
            clamped: Vec::new(),
            rate_limited: Vec::new(),
            torque_limited: Vec::new(),
            held_for_stale_observation: false,
            faulted: Vec::new(),
        }
    }
}

/// What the safety gate knows when it judges one axis.
pub struct AxisCase {
    pub limits: AxisLimits,
    /// The target issued last, unless the axis was limp since.
    pub issued: Option<Scalar>,
    pub measured: Scalar,
    pub asked: AxisCommand,
    pub stale: bool,
    pub no_time_passed: bool,
    /// One rate-limited step from [`AxisCase::from`] towards [`AxisCase::want`].
    pub stepped: Scalar,
}

impl AxisCase {
    pub open spec fn idle(self) -> bool {
        self.asked.mode is Idle
    }

    /// Where the target moves from.
    pub open spec fn from(self) -> Scalar {
        match self.issued {
            Some(q) => q,
            None => self.measured,
        }
    }

    /// The requested target, held to its range. A limp axis has no target to hold.
    pub open spec fn want(self) -> Scalar {
        if self.idle() {
            self.asked.position_rad
        } else {
            self.asked.position_rad.clamp_spec(self.limits.min_rad, self.limits.max_rad)
        }
    }

    /// The rate-limited step lies between its two ends.
    pub open spec fn steps_between(self) -> bool {
        ||| self.from().le_num(self.stepped) && self.stepped.le_num(self.want())
        ||| self.want().le_num(self.stepped) && self.stepped.le_num(self.from())
    }

    pub open spec fn target(self) -> Scalar {
        if self.stale {
            self.from()
        } else if self.limits.max_target_rate_rad_s.positive() && !self.no_time_passed {
            self.stepped
        } else {
            self.want()
        }
    }

    pub open spec fn torque(self) -> Scalar {
        if self.limits.torque_exceeded(self.asked.torque_ff_nm) {
            self.asked.torque_ff_nm.clamp_spec(
                self.limits.max_torque_nm.neg_spec(),
                self.limits.max_torque_nm,
            )
        } else {
            self.asked.torque_ff_nm
        }
    }

    /// The command that goes out.
    pub open spec fn outcome(self) -> AxisCommand {
        if self.idle() {
            self.asked
        } else {
            AxisCommand { position_rad: self.target(), torque_ff_nm: self.torque(), ..self.asked }
        }
    }

    /// What the safety gate remembers as issued.
    pub open spec fn remembered(self) -> Option<Scalar> {
        if self.idle() {
            None
        } else {
            Some(self.target())
        }
    }

    pub open spec fn is_clamped(self) -> bool {
        !self.idle() && !self.want().eq_num(self.asked.position_rad)
    }

    pub open spec fn is_rate_limited(self) -> bool {
        !self.idle() && !self.target().eq_num(self.want())
    }

    pub open spec fn is_torque_limited(self) -> bool {
        !self.idle() && self.limits.torque_exceeded(self.asked.torque_ff_nm)
    }
}

/// The safety gate's state: its limits and the targets it issued last.
pub struct SafetyGate {
    pub cfg: SafetyConfig,
    pub issued: Vec<Option<Scalar>>,
}

/// How many axes the safety gate, the command and the observation have in common.
pub open spec fn common_axes(limits: int, cmd: int, obs: int) -> int {
    if cmd <= limits && cmd <= obs {
        cmd
    } else if limits <= obs {
        limits
    } else {
        obs
    }
}

/// Whether the oldest reading is over its age limit.
pub open spec fn is_stale(axes: Seq<AxisState>, limit: Span) -> bool {
    observation::worst_age_upto(axes, axes.len() as int) > limit.nanos
}

/// The case of axis `i`.
pub open spec fn case_of(
    gate: SafetyGate,
    cmd: Seq<AxisCommand>,
    obs: Seq<AxisState>,
    dt: Span,
    stepped: Seq<Scalar>,
    i: int,
) -> AxisCase {
    AxisCase {
        limits: gate.cfg.axes@[i],
        issued: gate.issued@[i],
        measured: obs[i].position_rad,
        asked: cmd[i],
        stale: is_stale(obs, gate.cfg.max_observation_age),
        no_time_passed: dt.nanos == 0,
        stepped: stepped[i],
    }
}

/// One judged period: `before` takes the command `asked`, becomes `after`, lets
/// `sent` through and gives the verdict `v`.
pub open spec fn judged(
    before: SafetyGate,
    asked: Seq<AxisCommand>,
    obs: Seq<AxisState>,
    dt: Span,
    stepped: Seq<Scalar>,
    after: SafetyGate,
    sent: Seq<AxisCommand>,
    v: SafetyVerdict,
) -> bool {
    let n = before.axes_with(asked, obs);
    let case = |i: int| case_of(before, asked, obs, dt, stepped, i);
    &&& after.cfg == before.cfg
    &&& sent.len() == asked.len()
    &&& forall|i: int| 0 <= i < n ==> #[trigger] sent[i] == case(i).outcome()
    &&& forall|i: int| n <= i < asked.len() ==> #[trigger] sent[i] == asked[i]
    &&& after.issued@.len() == before.issued@.len()
    &&& forall|i: int| 0 <= i < n ==> #[trigger] after.issued@[i] == case(i).remembered()
    &&& forall|i: int|
        n <= i < before.issued@.len() ==> #[trigger] after.issued@[i] == before.issued@[i]
    &&& v.clamped@ == axis::ids_where(n, |i: int| case(i).is_clamped())
    &&& v.rate_limited@ == axis::ids_where(n, |i: int| case(i).is_rate_limited())
    &&& v.torque_limited@ == axis::ids_where(n, |i: int| case(i).is_torque_limited())
    &&& v.held_for_stale_observation == is_stale(obs, before.cfg.max_observation_age)
    &&& v.faulted@ == observation::faulted_upto(obs, obs.len() as int).map_values(
        |f: (AxisId, AxisState)| f.0,
    )
}

impl SafetyGate {
    pub open spec fn wf(&self) -> bool {
        self.issued@.len() == self.cfg.axes@.len()
    }

    /// Every range that the safety gate has to apply to the command is a range.
    /// One of a limp axis is not applied.
    pub open spec fn ordered(&self, cmd: Seq<AxisCommand>, obs: Seq<AxisState>) -> bool {
        forall|i: int|
            0 <= i < self.axes_with(cmd, obs) && !(cmd[i].mode is Idle)
                ==> (#[trigger] self.cfg.axes@[i]).ordered()
    }

    pub open spec fn axes_with(&self, cmd: Seq<AxisCommand>, obs: Seq<AxisState>) -> int {
        common_axes(self.cfg.axes@.len() as int, cmd.len() as int, obs.len() as int)
    }

    pub fn new(cfg: SafetyConfig) -> (r: SafetyGate)
        ensures
            r.cfg == cfg,
            r.issued@ == Seq::new(cfg.axes@.len(), |i: int| None::<Scalar>),
            r.wf(),
    {
        let mut issued: Vec<Option<Scalar>> = Vec::new();
        let mut i: usize = 0;
        while i < cfg.axes.len()
            invariant
                i <= cfg.axes@.len(),
                issued@ == Seq::new(i as nat, |k: int| None::<Scalar>),
            decreases cfg.axes@.len() - i,
        {
            issued.push(None);
            i += 1;
        }
        SafetyGate { cfg, issued }
    }

    pub fn limits(&self) -> (r: &[AxisLimits])
        ensures
            r@ == self.cfg.axes@,
    {
        self.cfg.axes.as_slice()
    }

    /// Forgets what was issued, so that the next target starts at the measured angle.
    pub fn forget(&mut self)
        ensures
            final(self).cfg == old(self).cfg,
            final(self).issued@ == Seq::new(old(self).issued@.len(), |i: int| None::<Scalar>),
            old(self).wf() ==> final(self).wf(),
    {
        let n: usize = self.issued.len();
        let mut issued: Vec<Option<Scalar>> = Vec::new();
        let mut i: usize = 0;
        while i < n
            invariant
                i <= n,
                issued@ == Seq::new(i as nat, |k: int| None::<Scalar>),
            decreases n - i,
        {
            issued.push(None);
            i += 1;
        }
        self.issued = issued;
    }

    fn shared(&self, cmd: &Command, obs: &Observation) -> (r: usize)
        ensures
            r == self.axes_with(cmd@, obs.axes@),
    {
        let mut n: usize = cmd.len();
        if self.cfg.axes.len() < n {
            n = self.cfg.axes.len();
        }
        if obs.len() < n {
            n = obs.len();
        }
        n
    }

    /// For each axis that [`SafetyGate::apply`] will judge, where its target
    /// moves from and where it wants to go.
    pub fn approach(&self, cmd: &Command, obs: &Observation) -> (r: Vec<(Scalar, Scalar)>)
        requires
            self.wf(),
            self.ordered(cmd@, obs.axes@),
        ensures
            r@.len() == self.axes_with(cmd@, obs.axes@),
            forall|i: int, dt: Span, stepped: Seq<Scalar>|
                0 <= i < r@.len() ==> {
                    let case = #[trigger] case_of(*self, cmd@, obs.axes@, dt, stepped, i);
                    r@[i] == (case.from(), case.want())
                },
    {
        let n: usize = self.shared(cmd, obs);
        let mut out: Vec<(Scalar, Scalar)> = Vec::new();
        let mut i: usize = 0;
        while i < n
            invariant
                self.wf(),
                self.ordered(cmd@, obs.axes@),
                i <= n,
                n == self.axes_with(cmd@, obs.axes@),
                out@.len() == i,
                forall|k: int, dt: Span, stepped: Seq<Scalar>|
                    0 <= k < i ==> {
                        let case = #[trigger] case_of(*self, cmd@, obs.axes@, dt, stepped, k);
                        out@[k] == (case.from(), case.want())
                    },
            decreases n - i,
        {
            let lim: AxisLimits = self.cfg.axes[i];
            let from: Scalar = match self.issued[i] {
                Some(q) => q,
                None => obs.axes[i].position_rad,
            };
            let asked: AxisCommand = cmd.axes[i];
            let want: Scalar = if asked.mode == ControlMode::Idle {
                asked.position_rad
            } else {
                assert(lim == self.cfg.axes@[i as int]);
                asked.position_rad.clamp(lim.min_rad, lim.max_rad)
            };
            out.push((from, want));
            i += 1;
        }
        out
    }

    /// Judges one period's command in place. `stepped[i]` is the rate-limited
    /// step of axis `i` from and towards what [`SafetyGate::approach`] reports:
    /// `from + (want - from)`, with the difference held to the rate limit times `dt`.
    pub fn apply(
        &mut self,
        cmd: &mut Command,
        obs: &Observation,
        dt: Span,
        stepped: &Vec<Scalar>,
    ) -> (v: SafetyVerdict)
        requires
            old(self).wf(),
            old(self).ordered(old(cmd)@, obs.axes@),
            old(self).axes_with(old(cmd)@, obs.axes@) <= stepped@.len(),
            old(self).axes_with(old(cmd)@, obs.axes@) <= AXIS_CAPACITY,
        ensures
            final(self).wf(),
            judged(
                *old(self),
                old(cmd)@,
                obs.axes@,
                dt,
                stepped@,
                *final(self),
                final(cmd)@,
                v,
            ),
    {
        let ghost before = *self;
        let ghost asked = cmd@;
        let ghost case = |i: int| case_of(before, asked, obs.axes@, dt, stepped@, i);
        let ghost clamped_at = |i: int| case(i).is_clamped();
        let ghost rate_limited_at = |i: int| case(i).is_rate_limited();
        let ghost torque_limited_at = |i: int| case(i).is_torque_limited();
        let mut v = SafetyVerdict::default();
        let stale: bool = obs.worst_age().nanos > self.cfg.max_observation_age.nanos;
        v.held_for_stale_observation = stale;

        let faults = obs.faulted();
        let mut k: usize = 0;
        let mut faulted: Vec<AxisId> = Vec::new();
        while k < faults.len()
            invariant
                k <= faults@.len(),
                faulted@ == faults@.take(k as int).map_values(|f: (AxisId, AxisState)| f.0),
            decreases faults@.len() - k,
        {
            faulted.push(faults[k].0);
            proof {
                assert(faults@.take(k + 1) == faults@.take(k as int).push(faults@[k as int]));
            }
            k += 1;
        }
        assert(faults@.take(k as int) == faults@);
        v.faulted = faulted;

        let n: usize = self.shared(cmd, obs);
        let mut clamped: Vec<AxisId> = Vec::new();
        let mut rate_limited: Vec<AxisId> = Vec::new();
        let mut torque_limited: Vec<AxisId> = Vec::new();
        let mut i: usize = 0;
        while i < n
            invariant
                i <= n,
                n == before.axes_with(asked, obs.axes@),
                n <= stepped@.len(),
                before.wf(),
                before.ordered(asked, obs.axes@),
                stale == is_stale(obs.axes@, before.cfg.max_observation_age),
                self.cfg == before.cfg,
                self.issued@.len() == before.issued@.len(),
                cmd@.len() == asked.len(),
                case == (|i: int| case_of(before, asked, obs.axes@, dt, stepped@, i)),
                clamped_at == (|i: int| case(i).is_clamped()),
                rate_limited_at == (|i: int| case(i).is_rate_limited()),
                torque_limited_at == (|i: int| case(i).is_torque_limited()),
                forall|j: int| 0 <= j < i ==> #[trigger] cmd@[j] == case(j).outcome(),
                forall|j: int| i <= j < asked.len() ==> #[trigger] cmd@[j] == asked[j],
                forall|j: int| 0 <= j < i ==> #[trigger] self.issued@[j] == case(j).remembered(),
                forall|j: int|
                    i <= j < before.issued@.len() ==> #[trigger] self.issued@[j] == before.issued@[j],
                clamped@ == axis::ids_where(i as int, clamped_at),
                rate_limited@ == axis::ids_where(i as int, rate_limited_at),
                torque_limited@ == axis::ids_where(i as int, torque_limited_at),
            decreases n - i,
        {
            let id: AxisId = id_of_index(i);
            let lim: AxisLimits = self.cfg.axes[i];
            let measured: Scalar = obs.axes[i].position_rad;
            let mut a: AxisCommand = cmd.axes[i];
            assert(a == asked[i as int]);
            assert(lim == before.cfg.axes@[i as int]);
            if a.mode == ControlMode::Idle {
                self.issued[i] = None;
            } else {
                let asked_position: Scalar = a.position_rad;
                if lim.max_torque_nm.is_positive() && lim.max_torque_nm.less(a.torque_ff_nm.abs()) {
                    a.torque_ff_nm = a.torque_ff_nm.clamp(lim.max_torque_nm.neg(), lim.max_torque_nm);
                    torque_limited.push(id);
                }
                let want: Scalar = asked_position.clamp(lim.min_rad, lim.max_rad);
                if !want.same_value(asked_position) {
                    clamped.push(id);
                }
                let from: Scalar = match self.issued[i] {
                    Some(q) => q,
                    None => measured,
                };
                let target: Scalar = if stale {
                    from
                } else if lim.max_target_rate_rad_s.is_positive() && !dt.is_zero() {
                    stepped[i]
                } else {
                    want
                };
                if !target.same_value(want) {
                    rate_limited.push(id);
                }
                self.issued[i] = Some(target);
                a.position_rad = target;
                cmd.axes[i] = a;
            }
            i += 1;
        }
        v.clamped = clamped;
        v.rate_limited = rate_limited;
        v.torque_limited = torque_limited;
        v
    }
}

/// The safety gate changes targets and torques, never the mode, the speed or the
/// gains: it makes no axis limp and wakes none up.
pub proof fn the_gate_never_changes_a_mode(case: AxisCase)
    ensures
        case.outcome().mode == case.asked.mode,
        case.outcome().velocity_rad_s == case.asked.velocity_rad_s,
        case.outcome().kp_nm_per_rad == case.asked.kp_nm_per_rad,
        case.outcome().kd_nm_s_per_rad == case.asked.kd_nm_s_per_rad,
{
}

/// While the observation is stale the target stays where it was issued last,
/// whatever is asked.
pub proof fn a_stale_observation_freezes_the_target(case: AxisCase, held: Scalar)
    requires
        case.stale,
        !case.idle(),
        case.issued == Some(held),
    ensures
        case.outcome().position_rad == held,
        case.remembered() == Some(held),
{
}

/// After an axis was limp its next target starts at the measured angle.
pub proof fn a_limp_axis_is_forgotten(limp: AxisCase, next: AxisCase)
    requires
        limp.idle(),
        next.issued == limp.remembered(),
    ensures
        next.from() == next.measured,
{
}

/// The two observations differ in nothing but fault bits, temperatures and voltages.
pub open spec fn same_but_for_faults(a: Seq<AxisState>, b: Seq<AxisState>) -> bool {
    &&& a.len() == b.len()
    &&& forall|i: int|
        0 <= i < a.len() ==> {
            let x = #[trigger] a[i];
            let y = #[trigger] b[i];
            &&& x.position_rad == y.position_rad
            &&& x.velocity_rad_s == y.velocity_rad_s
            &&& x.torque_nm == y.torque_nm
            &&& x.health.valid == y.health.valid
            &&& x.health.age == y.health.age
        }
}

/// Faults are reported and change nothing else: the same command, judged with two
/// observations that differ only in fault bits, temperatures and voltages, leaves
/// the same command, the same state and the same verdict but for the fault list.
pub proof fn faults_change_only_the_report(
    before: SafetyGate,
    asked: Seq<AxisCommand>,
    dt: Span,
    stepped: Seq<Scalar>,
    obs: Seq<AxisState>,
    after: SafetyGate,
    sent: Seq<AxisCommand>,
    v: SafetyVerdict,
    faulty: Seq<AxisState>,
    faulty_after: SafetyGate,
    faulty_sent: Seq<AxisCommand>,
    faulty_v: SafetyVerdict,
)
    requires
        before.wf(),
        same_but_for_faults(obs, faulty),
        judged(before, asked, obs, dt, stepped, after, sent, v),
        judged(before, asked, faulty, dt, stepped, faulty_after, faulty_sent, faulty_v),
    ensures
        faulty_sent == sent,
        faulty_after.cfg == after.cfg,
        faulty_after.issued@ == after.issued@,
        faulty_v.clamped@ == v.clamped@,
        faulty_v.rate_limited@ == v.rate_limited@,
        faulty_v.torque_limited@ == v.torque_limited@,
        faulty_v.held_for_stale_observation == v.held_for_stale_observation,
{
    let n = before.axes_with(asked, obs);
    lemma_same_worst_age(obs, faulty, obs.len() as int);
    let case = |i: int| case_of(before, asked, obs, dt, stepped, i);
    let other = |i: int| case_of(before, asked, faulty, dt, stepped, i);
    assert forall|i: int| 0 <= i < n implies #[trigger] case(i) == #[trigger] other(i) by {
        assert(obs[i].position_rad == faulty[i].position_rad);
    }
    assert(sent =~= faulty_sent) by {
        assert forall|i: int| 0 <= i < sent.len() implies sent[i] == faulty_sent[i] by {
            if i < n {
                assert(case(i) == other(i));
            }
        }
    }
    assert(after.issued@ =~= faulty_after.issued@) by {
        assert forall|i: int| 0 <= i < after.issued@.len() implies after.issued@[i]
            == faulty_after.issued@[i] by {
            if i < n {
                assert(case(i) == other(i));
            }
        }
    }
    axis::ids_where_agree(n, |i: int| case(i).is_clamped(), |i: int| other(i).is_clamped());
    axis::ids_where_agree(n, |i: int| case(i).is_rate_limited(), |i: int| other(i).is_rate_limited());
    axis::ids_where_agree(
        n,
        |i: int| case(i).is_torque_limited(),
        |i: int| other(i).is_torque_limited(),
    );
}

proof fn lemma_same_worst_age(a: Seq<AxisState>, b: Seq<AxisState>, n: int)
    requires
        same_but_for_faults(a, b),
        n <= a.len(),
    ensures
        observation::worst_age_upto(a, n) == observation::worst_age_upto(b, n),
    decreases n,
{
    if n > 0 {
        lemma_same_worst_age(a, b, n - 1);
        assert(a[n - 1].health.age == b[n - 1].health.age);
    }
}

/// The fault list of a verdict holds, ascending, exactly the axes that have been
/// read and report a fault.
pub proof fn the_report_lists_exactly_the_faulted(
    before: SafetyGate,
    asked: Seq<AxisCommand>,
    obs: Seq<AxisState>,
    dt: Span,
    stepped: Seq<Scalar>,
    after: SafetyGate,
    sent: Seq<AxisCommand>,
    v: SafetyVerdict,
)
    requires
        obs.len() <= AXIS_CAPACITY,
        judged(before, asked, obs, dt, stepped, after, sent, v),
    ensures
        forall|j: int, k: int|
            0 <= j < k < v.faulted@.len() ==> (#[trigger] v.faulted@[j]).0 < (
            #[trigger] v.faulted@[k]).0,
        forall|id: AxisId| #[trigger]
            v.faulted@.contains(id) <==> {
                &&& id.0 < obs.len()
                &&& obs[id.0 as int].health.valid
                &&& obs[id.0 as int].health.fault_raw != 0
            },
{
    let all = observation::faulted_upto(obs, obs.len() as int);
    observation::the_faulted_are_listed_once(obs, obs.len() as int);
    assert forall|id: AxisId| #[trigger] v.faulted@.contains(id) <==> {
        &&& id.0 < obs.len()
        &&& obs[id.0 as int].health.valid
        &&& obs[id.0 as int].health.fault_raw != 0
    } by {
        if v.faulted@.contains(id) {
            let k = choose|k: int| 0 <= k < v.faulted@.len() && v.faulted@[k] == id;
            assert(all[k].0 == id);
        }
        if id.0 < obs.len() && obs[id.0 as int].health.faulted_spec() {
            let k = choose|k: int| 0 <= k < all.len() && (#[trigger] all[k]).0.0 == id.0;
            assert(v.faulted@[k] == id);
        }
    }
}

/// One period of a run: what was asked and seen, and what came of it.
pub struct Period {
    pub asked: Seq<AxisCommand>,
    pub obs: Seq<AxisState>,
    pub dt: Span,
    pub stepped: Seq<Scalar>,
    pub sent: Seq<AxisCommand>,
    pub verdict: SafetyVerdict,
}

impl Period {
    /// Axis `i` is judged in this period and has a target.
    pub open spec fn drives(self, gate: SafetyGate, i: int) -> bool {
        0 <= i < gate.axes_with(self.asked, self.obs) && !(self.asked[i].mode is Idle)
    }

    pub open spec fn case(self, gate: SafetyGate, i: int) -> AxisCase {
        case_of(gate, self.asked, self.obs, self.dt, self.stepped, i)
    }
}

/// A run of the safety gate: period `k` takes `gates[k]` to `gates[k + 1]`.
pub open spec fn is_run(gates: Seq<SafetyGate>, periods: Seq<Period>) -> bool {
    &&& gates.len() == periods.len() + 1
    &&& gates[0].wf()
    &&& forall|k: int|
        0 <= k < periods.len() ==> {
            let p = #[trigger] periods[k];
            judged(gates[k], p.asked, p.obs, p.dt, p.stepped, gates[k + 1], p.sent, p.verdict)
        }
}

/// Holding a target outside the range does not wind up: over any run of calls,
/// stale or not, what is issued and what is sent to an axis stays inside its
/// range, however far away the requests are. The run starts with nothing issued
/// (or something inside), an axis that starts anew is measured inside its range,
/// no request is a NaN, and each rate-limited step lies between its two ends.
pub proof fn targets_stay_inside_over_any_run(
    gates: Seq<SafetyGate>,
    periods: Seq<Period>,
    i: int,
    k: int,
)
    requires
        is_run(gates, periods),
        0 <= i < gates[0].cfg.axes@.len(),
        gates[0].cfg.axes@[i].ordered(),
        gates[0].issued@[i] matches Some(q) ==> gates[0].cfg.axes@[i].inside(q),
        forall|m: int|
            0 <= m < periods.len() && (#[trigger] periods[m]).drives(gates[m], i) ==> {
                let case = periods[m].case(gates[m], i);
                &&& !case.asked.position_rad.nan()
                &&& case.issued is None ==> case.limits.inside(case.measured)
                &&& case.steps_between()
            },
        0 <= k <= periods.len(),
    ensures
        gates[k].wf(),
        gates[k].cfg == gates[0].cfg,
        gates[k].issued@[i] matches Some(q) ==> gates[0].cfg.axes@[i].inside(q),
        k < periods.len() && periods[k].drives(gates[k], i) ==> gates[0].cfg.axes@[i].inside(
            periods[k].sent[i].position_rad,
        ),
    decreases k,
{
    if k > 0 {
        targets_stay_inside_over_any_run(gates, periods, i, k - 1);
        let p = periods[k - 1];
        let g = gates[k - 1];
        assert(judged(g, p.asked, p.obs, p.dt, p.stepped, gates[k], p.sent, p.verdict));
        if p.drives(g, i) {
            issued_targets_stay_inside(p.case(g, i));
        } else if i < g.axes_with(p.asked, p.obs) {
            assert(gates[k].issued@[i] == p.case(g, i).remembered());
        }
    }
    if k < periods.len() && periods[k].drives(gates[k], i) {
        let p = periods[k];
        assert(judged(gates[k], p.asked, p.obs, p.dt, p.stepped, gates[k + 1], p.sent, p.verdict));
        issued_targets_stay_inside(p.case(gates[k], i));
        assert(p.sent[i] == p.case(gates[k], i).outcome());
    }
}

/// What is issued to an axis is inside its range, if what was issued before was:
/// one period. The step is taken to lie between its two ends.
pub proof fn issued_targets_stay_inside(case: AxisCase)
    requires
        case.limits.ordered(),
        !case.idle(),
        !case.asked.position_rad.nan(),
        case.limits.inside(case.from()),
        case.steps_between(),
    ensures
        case.limits.inside(case.target()),
        case.remembered() == Some(case.target()),
{
    scalar::clamping_lands_inside(case.asked.position_rad, case.limits.min_rad, case.limits.max_rad);
}

/// The torque that goes out is never over its limit.
pub proof fn issued_torque_is_limited(case: AxisCase)
    requires
        !case.idle(),
        case.limits.max_torque_nm.positive(),
        !case.asked.torque_ff_nm.nan(),
    ensures
        case.outcome().torque_ff_nm.abs_spec().le_num(case.limits.max_torque_nm),
{
}

/// A command that already is inside every limit passes unchanged, and there is
/// nothing to report about it.
pub proof fn a_command_inside_every_limit_is_untouched(
    gate: SafetyGate,
    cmd: Seq<AxisCommand>,
    obs: Seq<AxisState>,
    dt: Span,
    stepped: Seq<Scalar>,
)
    requires
        gate.wf(),
        gate.ordered(cmd, obs),
        !is_stale(obs, gate.cfg.max_observation_age),
        forall|i: int|
            0 <= i < gate.axes_with(cmd, obs) ==> {
                let case = #[trigger] case_of(gate, cmd, obs, dt, stepped, i);
                &&& case.limits.inside(case.asked.position_rad)
                &&& !case.limits.torque_exceeded(case.asked.torque_ff_nm)
                &&& case.stepped == case.want()
            },
    ensures
        forall|i: int|
            0 <= i < gate.axes_with(cmd, obs) ==> (#[trigger] case_of(
                gate,
                cmd,
                obs,
                dt,
                stepped,
                i,
            )).outcome() == cmd[i],
        axis::ids_where(
            gate.axes_with(cmd, obs),
            |i: int| case_of(gate, cmd, obs, dt, stepped, i).is_clamped(),
        ).len() == 0,
        axis::ids_where(
            gate.axes_with(cmd, obs),
            |i: int| case_of(gate, cmd, obs, dt, stepped, i).is_rate_limited(),
        ).len() == 0,
        axis::ids_where(
            gate.axes_with(cmd, obs),
            |i: int| case_of(gate, cmd, obs, dt, stepped, i).is_torque_limited(),
        ).len() == 0,
{
    let n = gate.axes_with(cmd, obs);
    assert forall|i: int| 0 <= i < n implies {
        let case = #[trigger] case_of(gate, cmd, obs, dt, stepped, i);
        &&& case.outcome() == cmd[i]
        &&& !case.is_clamped()
        &&& !case.is_rate_limited()
        &&& !case.is_torque_limited()
    } by {
        let case = case_of(gate, cmd, obs, dt, stepped, i);
        scalar::clamping_lands_inside(case.asked.position_rad, case.limits.min_rad, case.limits.max_rad);
    }
    axis::ids_where_none(n, |i: int| case_of(gate, cmd, obs, dt, stepped, i).is_clamped());
    axis::ids_where_none(n, |i: int| case_of(gate, cmd, obs, dt, stepped, i).is_rate_limited());
    axis::ids_where_none(n, |i: int| case_of(gate, cmd, obs, dt, stepped, i).is_torque_limited());
}

// ---- What a judged period does to one axis ----

/// Axis `i` is one that all three sides know, and it is asked for a target.
pub open spec fn is_driven(gate: SafetyGate, asked: Seq<AxisCommand>, obs: Seq<AxisState>, i: int) -> bool {
    &&& 0 <= i < gate.cfg.axes@.len()
    &&& i < asked.len()
    &&& i < obs.len()
    &&& asked[i].mode != ControlMode::Idle
}

/// No reading is older than it may be.
pub open spec fn all_fresh(gate: SafetyGate, obs: Seq<AxisState>) -> bool {
    forall|k: int|
        0 <= k < obs.len() ==> (#[trigger] obs[k]).health.age.nanos
            <= gate.cfg.max_observation_age.nanos
}

proof fn lemma_fresh(gate: SafetyGate, obs: Seq<AxisState>)
    ensures
        all_fresh(gate, obs) <==> !is_stale(obs, gate.cfg.max_observation_age),
{
    observation::worst_age_is_the_largest(obs, obs.len() as int);
}

/// With a rate limit, time passed and a fresh observation, the target that goes
/// out is the rate-limited step, in every period and not only in the first, and
/// it is what the next step starts from.
pub proof fn a_target_moves_by_its_rate_limited_step(
    before: SafetyGate,
    asked: Seq<AxisCommand>,
    obs: Seq<AxisState>,
    dt: Span,
    stepped: Seq<Scalar>,
    after: SafetyGate,
    sent: Seq<AxisCommand>,
    v: SafetyVerdict,
    i: int,
)
    requires
        before.wf(),
        judged(before, asked, obs, dt, stepped, after, sent, v),
        is_driven(before, asked, obs, i),
        before.cfg.axes@[i].max_target_rate_rad_s.positive(),
        dt.nanos > 0,
        all_fresh(before, obs),
    ensures
        sent[i].position_rad == stepped[i],
        after.issued@[i] == Some(stepped[i]),
{
    lemma_fresh(before, obs);
    assert(sent[i] == case_of(before, asked, obs, dt, stepped, i).outcome());
}

/// Where a target moves from and to: from the one issued last, or from the
/// measured angle where none was, to the request, held to the range.
pub proof fn a_target_moves_from_the_last_to_the_clamped_request(
    gate: SafetyGate,
    asked: Seq<AxisCommand>,
    obs: Seq<AxisState>,
    dt: Span,
    stepped: Seq<Scalar>,
    i: int,
)
    requires
        is_driven(gate, asked, obs, i),
        gate.cfg.axes@[i].ordered(),
    ensures
        ({
            let case = case_of(gate, asked, obs, dt, stepped, i);
            let (min, max) = (gate.cfg.axes@[i].min_rad, gate.cfg.axes@[i].max_rad);
            let q = asked[i].position_rad;
            &&& gate.issued@[i] matches Some(last) ==> case.from() == last
            &&& gate.issued@[i] is None ==> case.from() == obs[i].position_rad
            &&& min.le_num(q) && q.le_num(max) ==> case.want() == q
            &&& q.lt_num(min) ==> case.want() == min
            &&& max.lt_num(q) ==> case.want() == max
            &&& q.nan() ==> case.want() == q
        }),
{
}

/// Without a rate limit, or where no time has passed, the request goes out at
/// once, held to its range.
pub proof fn an_unlimited_rate_follows_at_once(
    before: SafetyGate,
    asked: Seq<AxisCommand>,
    obs: Seq<AxisState>,
    dt: Span,
    stepped: Seq<Scalar>,
    after: SafetyGate,
    sent: Seq<AxisCommand>,
    v: SafetyVerdict,
    i: int,
)
    requires
        before.wf(),
        judged(before, asked, obs, dt, stepped, after, sent, v),
        is_driven(before, asked, obs, i),
        before.cfg.axes@[i].ordered(),
        !before.cfg.axes@[i].max_target_rate_rad_s.positive() || dt.nanos == 0,
        all_fresh(before, obs),
    ensures
        ({
            let (min, max) = (before.cfg.axes@[i].min_rad, before.cfg.axes@[i].max_rad);
            let q = asked[i].position_rad;
            &&& min.le_num(q) && q.le_num(max) ==> sent[i].position_rad == q
            &&& q.lt_num(min) ==> sent[i].position_rad == min
            &&& max.lt_num(q) ==> sent[i].position_rad == max
        }),
        after.issued@[i] == Some(sent[i].position_rad),
{
    lemma_fresh(before, obs);
    assert(sent[i] == case_of(before, asked, obs, dt, stepped, i).outcome());
}

/// One reading that is too old freezes every target where it was issued last, or
/// at the measured angle, and the verdict says so; with none, it does not.
pub proof fn one_old_reading_freezes_every_target(
    before: SafetyGate,
    asked: Seq<AxisCommand>,
    obs: Seq<AxisState>,
    dt: Span,
    stepped: Seq<Scalar>,
    after: SafetyGate,
    sent: Seq<AxisCommand>,
    v: SafetyVerdict,
)
    requires
        before.wf(),
        judged(before, asked, obs, dt, stepped, after, sent, v),
    ensures
        v.held_for_stale_observation <==> exists|k: int|
            0 <= k < obs.len() && (#[trigger] obs[k]).health.age.nanos
                > before.cfg.max_observation_age.nanos,
        v.held_for_stale_observation ==> forall|i: int|
            is_driven(before, asked, obs, i) ==> {
                let held = match before.issued@[i] {
                    Some(q) => q,
                    None => obs[i].position_rad,
                };
                (#[trigger] sent[i]).position_rad == held && after.issued@[i] == Some(held)
            },
{
    lemma_fresh(before, obs);
    if v.held_for_stale_observation {
        assert forall|i: int| is_driven(before, asked, obs, i) implies {
            let held = match before.issued@[i] {
                Some(q) => q,
                None => obs[i].position_rad,
            };
            (#[trigger] sent[i]).position_rad == held && after.issued@[i] == Some(held)
        } by {
            assert(sent[i] == case_of(before, asked, obs, dt, stepped, i).outcome());
        }
    }
}

/// A feed-forward torque goes out as it is up to its limit, and as the limit with
/// its own sign beyond. A limit of zero is none.
pub proof fn torque_is_cut_to_its_limit_with_its_sign(
    before: SafetyGate,
    asked: Seq<AxisCommand>,
    obs: Seq<AxisState>,
    dt: Span,
    stepped: Seq<Scalar>,
    after: SafetyGate,
    sent: Seq<AxisCommand>,
    v: SafetyVerdict,
    i: int,
)
    requires
        before.wf(),
        judged(before, asked, obs, dt, stepped, after, sent, v),
        is_driven(before, asked, obs, i),
    ensures
        ({
            let max = before.cfg.axes@[i].max_torque_nm;
            let t = asked[i].torque_ff_nm;
            &&& !max.positive() ==> sent[i].torque_ff_nm == t
            &&& max.positive() && t.abs_spec().le_num(max) ==> sent[i].torque_ff_nm == t
            &&& max.positive() && max.lt_num(t) ==> sent[i].torque_ff_nm == max
            &&& max.positive() && t.lt_num(max.neg_spec()) ==> sent[i].torque_ff_nm == max.neg_spec()
        }),
{
    assert(sent[i] == case_of(before, asked, obs, dt, stepped, i).outcome());
}

/// A limp axis and one that the safety gate does not know pass as they are. The
/// first is forgotten; what was issued to the second stays. No mode, speed or gain
/// of any axis is touched.
pub proof fn what_is_not_driven_passes(
    before: SafetyGate,
    asked: Seq<AxisCommand>,
    obs: Seq<AxisState>,
    dt: Span,
    stepped: Seq<Scalar>,
    after: SafetyGate,
    sent: Seq<AxisCommand>,
    v: SafetyVerdict,
    i: int,
)
    requires
        before.wf(),
        judged(before, asked, obs, dt, stepped, after, sent, v),
        0 <= i < asked.len(),
    ensures
        sent.len() == asked.len(),
        !is_driven(before, asked, obs, i) ==> sent[i] == asked[i],
        i < before.cfg.axes@.len() && i < obs.len() && asked[i].mode == ControlMode::Idle
            ==> after.issued@[i] is None,
        i < before.cfg.axes@.len() && i >= obs.len() ==> after.issued@[i] == before.issued@[i],
        sent[i].mode == asked[i].mode,
        sent[i].velocity_rad_s == asked[i].velocity_rad_s,
        sent[i].kp_nm_per_rad == asked[i].kp_nm_per_rad,
        sent[i].kd_nm_s_per_rad == asked[i].kd_nm_s_per_rad,
{
    if i < before.axes_with(asked, obs) {
        assert(sent[i] == case_of(before, asked, obs, dt, stepped, i).outcome());
        assert(after.issued@[i] == case_of(before, asked, obs, dt, stepped, i).remembered());
    }
}

/// The verdict lists exactly the driven axes that were asked for an angle outside
/// their range, those that do not get the clamped request this period, and those
/// that were asked for too much torque.
pub proof fn the_verdict_lists_exactly_what_was_changed(
    before: SafetyGate,
    asked: Seq<AxisCommand>,
    obs: Seq<AxisState>,
    dt: Span,
    stepped: Seq<Scalar>,
    after: SafetyGate,
    sent: Seq<AxisCommand>,
    v: SafetyVerdict,
    id: AxisId,
)
    requires
        before.wf(),
        before.ordered(asked, obs),
        before.axes_with(asked, obs) <= AXIS_CAPACITY,
        judged(before, asked, obs, dt, stepped, after, sent, v),
    ensures
        ({
            let i = id.0 as int;
            let lim = before.cfg.axes@[i];
            let q = asked[i].position_rad;
            &&& v.clamped@.contains(id) <==> is_driven(before, asked, obs, i) && !(lim.min_rad.le_num(q)
                && q.le_num(lim.max_rad))
            &&& is_driven(before, asked, obs, i) && lim.min_rad.le_num(q) && q.le_num(lim.max_rad) ==> (
            v.rate_limited@.contains(id) <==> !sent[i].position_rad.eq_num(q))
            &&& is_driven(before, asked, obs, i) && q.lt_num(lim.min_rad) ==> (
            v.rate_limited@.contains(id) <==> !sent[i].position_rad.eq_num(lim.min_rad))
            &&& is_driven(before, asked, obs, i) && lim.max_rad.lt_num(q) ==> (
            v.rate_limited@.contains(id) <==> !sent[i].position_rad.eq_num(lim.max_rad))
            &&& v.rate_limited@.contains(id) ==> is_driven(before, asked, obs, i)
            &&& v.torque_limited@.contains(id) <==> is_driven(before, asked, obs, i)
                && lim.max_torque_nm.positive() && lim.max_torque_nm.lt_num(
                asked[i].torque_ff_nm.abs_spec(),
            )
        }),
{
    let n = before.axes_with(asked, obs);
    let case = |i: int| case_of(before, asked, obs, dt, stepped, i);
    axis::ids_where_lists_exactly(n, |i: int| case(i).is_clamped());
    axis::ids_where_lists_exactly(n, |i: int| case(i).is_rate_limited());
    axis::ids_where_lists_exactly(n, |i: int| case(i).is_torque_limited());
    let i = id.0 as int;
    if i < n {
        assert(sent[i] == case(i).outcome());
        assert(before.cfg.axes@[i].ordered() || asked[i].mode is Idle);
    }
}

/// Over a run, in every period with a rate limit, time passed and a fresh
/// observation, the target that goes out is the rate-limited step, and that step
/// starts from the target that the period before sent.
pub proof fn the_rate_limit_holds_in_every_period(
    gates: Seq<SafetyGate>,
    periods: Seq<Period>,
    k: int,
    i: int,
)
    requires
        is_run(gates, periods),
        0 <= k < periods.len(),
        is_driven(gates[0], periods[k].asked, periods[k].obs, i),
        gates[0].cfg.axes@[i].max_target_rate_rad_s.positive(),
        periods[k].dt.nanos > 0,
        all_fresh(gates[0], periods[k].obs),
    ensures
        periods[k].sent[i].position_rad == periods[k].stepped[i],
        gates[k + 1].issued@[i] == Some(periods[k].stepped[i]),
        k > 0 && is_driven(gates[0], periods[k - 1].asked, periods[k - 1].obs, i) ==> gates[k].issued@[i]
            == Some(periods[k - 1].sent[i].position_rad) && periods[k].case(gates[k], i).from()
            == periods[k - 1].sent[i].position_rad,
{
    lemma_run_keeps_its_limits(gates, periods, k);
    let p = periods[k];
    assert(judged(gates[k], p.asked, p.obs, p.dt, p.stepped, gates[k + 1], p.sent, p.verdict));
    a_target_moves_by_its_rate_limited_step(
        gates[k],
        p.asked,
        p.obs,
        p.dt,
        p.stepped,
        gates[k + 1],
        p.sent,
        p.verdict,
        i,
    );
    if k > 0 && is_driven(gates[0], periods[k - 1].asked, periods[k - 1].obs, i) {
        lemma_run_keeps_its_limits(gates, periods, k - 1);
        let b = periods[k - 1];
        assert(judged(gates[k - 1], b.asked, b.obs, b.dt, b.stepped, gates[k], b.sent, b.verdict));
        assert(b.sent[i] == b.case(gates[k - 1], i).outcome());
        assert(gates[k].issued@[i] == b.case(gates[k - 1], i).remembered());
    }
}

proof fn lemma_run_keeps_its_limits(gates: Seq<SafetyGate>, periods: Seq<Period>, k: int)
    requires
        is_run(gates, periods),
        0 <= k <= periods.len(),
    ensures
        gates[k].cfg == gates[0].cfg,
        gates[k].wf(),
    decreases k,
{
    if k > 0 {
        lemma_run_keeps_its_limits(gates, periods, k - 1);
        let p = periods[k - 1];
        assert(judged(gates[k - 1], p.asked, p.obs, p.dt, p.stepped, gates[k], p.sent, p.verdict));
    }
}

/// One changed axis, one fault or one stale observation is enough for a verdict
/// that is not clean.
pub proof fn one_finding_spoils_a_verdict(v: SafetyVerdict)
    ensures
        v.clamped@.len() > 0 ==> !v.clean(),
        v.rate_limited@.len() > 0 ==> !v.clean(),
        v.torque_limited@.len() > 0 ==> !v.clean(),
        v.faulted@.len() > 0 ==> !v.clean(),
        v.held_for_stale_observation ==> !v.clean(),
        !v.clean() ==> v.clamped@.len() + v.rate_limited@.len() + v.torque_limited@.len()
            + v.faulted@.len() > 0 || v.held_for_stale_observation,
{
}

} // verus!
