//! Trying a gait without a robot, with or without physics.

use vstd::prelude::*;
use vstd::string::*;

use crate::axis::{AxisId, AxisTable};
use crate::cli::Cli;
use crate::dispatch;
use crate::dispatch::{PilotKind, VizConfig};
use crate::intent::{GaitSelect, GaitTune, Intent, ModeRequest, Velocity};
use crate::jointvec::JointVec;
use crate::observation::Contact;
use crate::safety::{AxisLimits, SafetyConfig};
use crate::scalar::Scalar;
use crate::text;
use crate::text::push_decimal;

verus! {

/// Leg joints come first among the axes.
pub const LEG_AXES: usize = 12;

/// Every how many periods to print: what `--every` says, and at least one.
pub fn print_every(cli: &Cli, default: usize) -> (r: usize)
    requires
        cli.wf(),
        default >= 1,
    ensures
        r == (match dispatch::flag_text(*cli, "every"@) {
            Some(v) => match text::natural(v) {
                Some(n) => if n == 0 {
                    1
                } else {
                    n
                },
                None => default,
            },
            None => default,
        }),
{
    match cli.usize("every") {
        Some(n) => if n == 0 {
            1
        } else {
            n
        },
        None => default,
    }
}

/// Whether a dry run keeps to real time: where asked to, and where somebody
/// watches.
pub fn dump_in_real_time(realtime: bool, viz: &VizConfig) -> (r: bool)
    ensures
        r == (realtime || viz.enabled),
{
    realtime || viz.enabled
}

/// Whether a simulation keeps to real time: also where somebody steers.
pub fn sim_in_real_time(realtime: bool, viz: &VizConfig, pilot: PilotKind) -> (r: bool)
    ensures
        r == (realtime || viz.enabled || !(pilot is Script)),
{
    realtime || viz.enabled || pilot != PilotKind::Script
}

/// How many periods to simulate. `computed` is the given time in periods. A
/// steered robot with no time given runs until it is stopped.
pub fn sim_steps(seconds: Scalar, interactive: bool, computed: usize) -> (r: usize)
    ensures
        r == (if interactive && seconds.le_num(Scalar::zero_spec()) {
            usize::MAX
        } else {
            computed
        }),
{
    if interactive && seconds.at_most(Scalar::zero()) {
        usize::MAX
    } else {
        computed
    }
}

/// The script of a dry run: walk from the beginning, with no velocity yet.
pub fn dump_intent(gait: GaitSelect, tilt: [Scalar; 3]) -> (r: Intent)
    ensures
        r.time.nanos == 0,
        r.velocity == Velocity::zero_spec(),
        r.body_attitude_rad@ == tilt@,
        r.height_offset_m == Scalar::zero_spec(),
        r.mode is Walk,
        r.gait == gait,
        !r.play_pose,
        r.pose_slot.0 == 0,
        !r.stabilize_head,
        r.aux_rad@ == seq![None::<Scalar>],
        r.link_ok,
        r.gait_tune == GaitTune::empty_spec(),
        r.gait_controller is None,
        r.wbc is None,
        r.knee_pattern is None,
{
    let mut aux: Vec<Option<Scalar>> = Vec::new();
    aux.push(None);
    Intent {
        body_attitude_rad: tilt,
        mode: ModeRequest::Walk,
        gait,
        aux_rad: aux,
        link_ok: true,
        ..Intent::default()
    }
}

/// The script of a simulation. Overrides that come in later are not there from
/// the beginning.
pub fn sim_intent(
    gait: GaitSelect,
    tilt: [Scalar; 3],
    chicken: bool,
    tune: GaitTune,
    tuned_later: bool,
) -> (r: Intent)
    ensures
        r.time.nanos == 0,
        r.velocity == Velocity::zero_spec(),
        r.body_attitude_rad@ == tilt@,
        r.height_offset_m == Scalar::zero_spec(),
        r.mode is Walk,
        r.gait == gait,
        !r.play_pose,
        r.pose_slot.0 == 0,
        r.stabilize_head == chicken,
        r.aux_rad@ == seq![None::<Scalar>],
        r.link_ok,
        r.gait_tune == (if tuned_later { GaitTune::empty_spec() } else { tune }),
        r.gait_controller is None,
        r.wbc is None,
        r.knee_pattern is None,
{
    let mut out = dump_intent(gait, tilt);
    out.stabilize_head = chicken;
    if !tuned_later {
        out.gait_tune = tune;
    }
    out
}

/// A script's velocity: nothing until the gait runs, then what was asked for,
/// and that from then on.
pub fn script_velocity(current: Velocity, asked: Velocity, active: bool) -> (r: Velocity)
    ensures
        r == (if active { asked } else { current }),
{
    if active {
        asked
    } else {
        current
    }
}

/// The starting angles of the leg joints by name. The other axes are left to
/// the model.
pub fn leg_home(axes: &AxisTable, crouch: &JointVec) -> (r: Vec<(String, Scalar)>)
    ensures
        r@.len() == (if axes@.len() < LEG_AXES {
            axes@.len()
        } else {
            LEG_AXES as nat
        }),
        forall|i: int|
            0 <= i < r@.len() ==> (#[trigger] r@[i]).0@ == axes@[i].name@ && r@[i].1
                == crouch.joint(i),
{
    let n: usize = if axes.len() < LEG_AXES {
        axes.len()
    } else {
        LEG_AXES
    };
    let table = axes.axes();
    let mut out: Vec<(String, Scalar)> = Vec::new();
    let mut i: usize = 0;
    while i < n
        invariant
            i <= n <= LEG_AXES,
            n <= axes@.len(),
            table@ == axes@,
            out@.len() == i,
            forall|k: int|
                0 <= k < i ==> (#[trigger] out@[k]).0@ == axes@[k].name@ && out@[k].1
                    == crouch.joint(k),
        decreases n - i,
    {
        let name: String = table[i].name.as_str().to_owned();
        let q: Scalar = crouch.get(i / 3, i % 3);
        assert(q == crouch.joint(i as int));
        out.push((name, q));
        i += 1;
    }
    out
}

pub open spec fn join_lines(v: Seq<Seq<char>>, n: int) -> Seq<char>
    decreases n,
{
    if n <= 0 {
        ""@
    } else if n == 1 {
        v[0]
    } else {
        join_lines(v, n - 1) + "\n  "@ + v[n - 1]
    }
}

/// Refuses to simulate a robot with unusable collision meshes: a link without
/// its mesh touches nothing, and the robot would seem to move well.
pub fn check_meshes(bad: &Vec<String>) -> (r: Result<(), String>)
    ensures
        r is Ok <==> bad@.len() == 0,
        r matches Err(e) ==> e@ == "当たり判定のメッシュを "@ + text::decimal(bad@.len())
            + " 件読めません。**このまま回すと当たり判定の無いリンクができて、衝突しないぶん動いて見えてしまいます。**\n  "@
            + join_lines(text::words(bad@), bad@.len() as int),
{
    if bad.len() == 0 {
        return Ok(());
    }
    let mut out: String = "当たり判定のメッシュを ".to_owned();
    push_decimal(&mut out, bad.len() as u64);
    out.append(
        " 件読めません。**このまま回すと当たり判定の無いリンクができて、衝突しないぶん動いて見えてしまいます。**\n  ",
    );
    let ghost head = out@;
    let mut joined: String = bad[0].as_str().to_owned();
    let mut i: usize = 1;
    while i < bad.len()
        invariant
            1 <= i <= bad@.len(),
            joined@ == join_lines(text::words(bad@), i as int),
        decreases bad@.len() - i,
    {
        joined.append("\n  ");
        joined.append(bad[i].as_str());
        i += 1;
    }
    out.append(joined.as_str());
    Err(out)
}

/// A target outside the range of its axis.
#[derive(Clone, Copy, Debug, PartialEq, Eq, Structural)]
pub struct Violation {
    pub axis: AxisId,
    pub value: Scalar,
    pub min_rad: Scalar,
    pub max_rad: Scalar,
}

/// Axis `i` with the value `value` is out of range. An axis without limits never
/// is.
pub open spec fn out_of_range(limits: Seq<AxisLimits>, i: int, value: Scalar) -> bool {
    i < limits.len() && (value.lt_num(limits[i].min_rad) || limits[i].max_rad.lt_num(value))
}

pub open spec fn violation_of(limits: Seq<AxisLimits>, i: int, value: Scalar) -> Violation {
    Violation {
        axis: AxisId(i as u16),
        value,
        min_rad: limits[i].min_rad,
        max_rad: limits[i].max_rad,
    }
}

/// The violations among the first `n` leg joints.
pub open spec fn leg_violations(limits: Seq<AxisLimits>, q: JointVec, n: int) -> Seq<Violation>
    decreases n,
{
    if n <= 0 {
        Seq::empty()
    } else if out_of_range(limits, n - 1, q.joint(n - 1)) {
        leg_violations(limits, q, n - 1).push(violation_of(limits, n - 1, q.joint(n - 1)))
    } else {
        leg_violations(limits, q, n - 1)
    }
}

/// The violations of the legs, and of the head where there is one.
pub open spec fn violations_spec(
    limits: Seq<AxisLimits>,
    head: Option<AxisId>,
    q: JointVec,
) -> Seq<Violation> {
    let legs = leg_violations(limits, q, LEG_AXES as int);
    match head {
        Some(id) => if out_of_range(limits, id.0 as int, q.arm) {
            legs.push(violation_of(limits, id.0 as int, q.arm))
        } else {
            legs
        },
        None => legs,
    }
}

fn judge(limits: &SafetyConfig, i: u16, value: Scalar) -> (r: Option<Violation>)
    ensures
        r == (if out_of_range(limits.axes@, i as int, value) {
            Some(violation_of(limits.axes@, i as int, value))
        } else {
            None
        }),
{
    let at: usize = i as usize;
    if at >= limits.axes.len() {
        return None;
    }
    let lim: AxisLimits = limits.axes[at];
    if value.less(lim.min_rad) || lim.max_rad.less(value) {
        Some(
            Violation { axis: AxisId::new(i), value, min_rad: lim.min_rad, max_rad: lim.max_rad },
        )
    } else {
        None
    }
}

/// Finds the targets that are out of range, by the same limits that the safety gate
/// uses.
pub fn check_limits(limits: &SafetyConfig, head: Option<AxisId>, q: &JointVec) -> (r: Vec<
    Violation,
>)
    ensures
        r@ == violations_spec(limits.axes@, head, *q),
{
    let mut out: Vec<Violation> = Vec::new();
    let mut i: u16 = 0;
    while i < 12
        invariant
            i <= 12,
            out@ == leg_violations(limits.axes@, *q, i as int),
        decreases 12 - i,
    {
        let value: Scalar = q.get(i as usize / 3, i as usize % 3);
        assert(value == q.joint(i as int));
        match judge(limits, i, value) {
            Some(v) => {
                out.push(v);
            },
            None => {},
        }
        i += 1;
    }
    match head {
        Some(id) => match judge(limits, id.0, q.arm) {
            Some(v) => {
                out.push(v);
            },
            None => {},
        },
        None => {},
    }
    out
}

/// How many of the first `n` axes have a range.
pub open spec fn bounded_upto(limits: Seq<AxisLimits>, n: int) -> int
    decreases n,
{
    if n <= 0 {
        0
    } else {
        bounded_upto(limits, n - 1) + (if limits[n - 1].min_rad.finite()
            && limits[n - 1].max_rad.finite() {
            1int
        } else {
            0
        })
    }
}

/// How many axes have a range. "All inside" says nothing of axes without one.
pub fn bounded_axes(limits: &SafetyConfig) -> (r: usize)
    ensures
        r == bounded_upto(limits.axes@, limits.axes@.len() as int),
        r <= limits.axes@.len(),
{
    let mut n: usize = 0;
    let mut i: usize = 0;
    while i < limits.axes.len()
        invariant
            n <= i <= limits.axes@.len(),
            n == bounded_upto(limits.axes@, i as int),
        decreases limits.axes@.len() - i,
    {
        if limits.axes[i].min_rad.is_finite() && limits.axes[i].max_rad.is_finite() {
            n += 1;
        }
        i += 1;
    }
    n
}

/// The fastest that each leg joint was asked to move.
pub struct PeakRates {
    pub peak: Vec<Scalar>,
}

impl PeakRates {
    pub open spec fn wf(&self) -> bool {
        self.peak@.len() == LEG_AXES
    }

    pub fn new() -> (r: PeakRates)
        ensures
            r.wf(),
            r.peak@ == Seq::new(LEG_AXES as nat, |i: int| Scalar::zero_spec()),
    {
        let mut peak: Vec<Scalar> = Vec::new();
        let mut i: usize = 0;
        while i < LEG_AXES
            invariant
                i <= LEG_AXES,
                peak@ == Seq::new(i as nat, |k: int| Scalar::zero_spec()),
            decreases LEG_AXES - i,
        {
            peak.push(Scalar::zero());
            i += 1;
        }
        PeakRates { peak }
    }

    /// Takes in one period's rates.
    pub fn note(&mut self, rates: &Vec<Scalar>)
        requires
            old(self).wf(),
            rates@.len() == LEG_AXES,
        ensures
            final(self).wf(),
            forall|i: int|
                0 <= i < LEG_AXES ==> #[trigger] final(self).peak@[i] == (if old(self).peak@[i].lt_num(
                    rates@[i],
                ) {
                    rates@[i]
                } else {
                    old(self).peak@[i]
                }),
    {
        let mut i: usize = 0;
        while i < LEG_AXES
            invariant
                i <= LEG_AXES == rates@.len(),
                self.wf(),
                forall|k: int|
                    0 <= k < i ==> #[trigger] self.peak@[k] == (if old(self).peak@[k].lt_num(
                        rates@[k],
                    ) {
                        rates@[k]
                    } else {
                        old(self).peak@[k]
                    }),
                forall|k: int| i <= k < LEG_AXES ==> #[trigger] self.peak@[k] == old(self).peak@[k],
            decreases LEG_AXES - i,
        {
            if self.peak[i].less(rates[i]) {
                self.peak[i] = rates[i];
            }
            i += 1;
        }
    }

    /// Joint `i` was asked to move faster than the safety gate lets it.
    pub open spec fn over(&self, limits: Seq<AxisLimits>, i: int) -> bool {
        i < limits.len() && limits[i].max_target_rate_rad_s.positive()
            && limits[i].max_target_rate_rad_s.lt_num(self.peak@[i])
    }

    pub open spec fn over_upto(&self, limits: Seq<AxisLimits>, n: int) -> Seq<usize>
        decreases n,
    {
        if n <= 0 {
            Seq::empty()
        } else if self.over(limits, n - 1) {
            self.over_upto(limits, n - 1).push((n - 1) as usize)
        } else {
            self.over_upto(limits, n - 1)
        }
    }

    /// The joints that the safety gate would slow down.
    pub fn over_limit(&self, limits: &SafetyConfig) -> (r: Vec<usize>)
        requires
            self.wf(),
        ensures
            r@ == self.over_upto(limits.axes@, LEG_AXES as int),
    {
        let mut out: Vec<usize> = Vec::new();
        let mut i: usize = 0;
        while i < LEG_AXES
            invariant
                i <= LEG_AXES,
                self.wf(),
                out@ == self.over_upto(limits.axes@, i as int),
            decreases LEG_AXES - i,
        {
            let cap: Scalar = if i < limits.axes.len() {
                limits.axes[i].max_target_rate_rad_s
            } else {
                Scalar::zero()
            };
            if cap.is_positive() && cap.less(self.peak[i]) {
                out.push(i);
            }
            i += 1;
        }
        out
    }
}

/// Outcome of a dry run: a line for the screen, or the refusal.
pub fn dump_verdict(violations: usize, limits: &SafetyConfig) -> (r: Result<String, String>)
    ensures
        r is Ok <==> violations == 0,
        r matches Ok(line) ==> line@ == "可動域: すべて範囲内（"@ + text::decimal(
            bounded_upto(limits.axes@, limits.axes@.len() as int) as nat,
        ) + "/"@ + text::decimal(limits.axes@.len()) + " 軸に可動域の宣言あり）"@,
        r matches Err(e) ==> e@
            == "可動域を超える指令が出ています。gait の stance_height_m / swing_height_m と config の可動域を見直してください"@,
{
    if violations > 0 {
        return Err(
            "可動域を超える指令が出ています。gait の stance_height_m / swing_height_m と config の可動域を見直してください".to_owned(),
        );
    }
    let mut out: String = "可動域: すべて範囲内（".to_owned();
    let bounded: usize = bounded_axes(limits);
    push_decimal(&mut out, bounded as u64);
    out.append("/");
    push_decimal(&mut out, limits.axes.len() as u64);
    out.append(" 軸に可動域の宣言あり）");
    Ok(out)
}

/// One radian.
pub const FALLEN: u64 = 0x3ff0_0000_0000_0000;

/// The body lies: roll or pitch beyond one radian. Height alone would not tell a
/// fall from a crouch.
pub open spec fn lies(roll: Scalar, pitch: Scalar) -> bool {
    (Scalar { bits: FALLEN }).lt_num(roll.abs_spec()) || (Scalar { bits: FALLEN }).lt_num(
        pitch.abs_spec(),
    )
}

/// What a simulation has seen so far.
pub struct SimRecord {
    /// When the robot fell.
    pub fell: Option<Scalar>,
    /// The lowest that the body was.
    pub min_z: Scalar,
    /// Per foot, the highest that it was while swinging.
    pub clear_max: [Scalar; 4],
    /// Per foot, the lowest that it was.
    pub clear_min: [Scalar; 4],
}

impl SimRecord {
    pub fn new() -> (r: SimRecord)
        ensures
            r.fell is None,
            r.min_z.bits == 0x7ff0_0000_0000_0000,
            forall|i: int|
                0 <= i < 4 ==> #[trigger] r.clear_max@[i].bits == 0xfff0_0000_0000_0000,
            forall|i: int|
                0 <= i < 4 ==> #[trigger] r.clear_min@[i].bits == 0x7ff0_0000_0000_0000,
    {
        let low = Scalar::from_bits(0xfff0_0000_0000_0000);
        let high = Scalar::from_bits(0x7ff0_0000_0000_0000);
        SimRecord {
            fell: None,
            min_z: high,
            clear_max: [low, low, low, low],
            clear_min: [high, high, high, high],
        }
    }

    /// Takes in the body's posture at time `t`. The first fall counts.
    pub fn note_body(&mut self, t: Scalar, roll: Scalar, pitch: Scalar, z: Scalar)
        ensures
            final(self).fell == (if old(self).fell is None && lies(roll, pitch) {
                Some(t)
            } else {
                old(self).fell
            }),
            final(self).min_z == (if z.lt_num(old(self).min_z) { z } else { old(self).min_z }),
            final(self).clear_max == old(self).clear_max,
            final(self).clear_min == old(self).clear_min,
    {
        if z.less(self.min_z) {
            self.min_z = z;
        }
        let limit = Scalar::from_bits(FALLEN);
        if self.fell.is_none() && (limit.less(roll.abs()) || limit.less(pitch.abs())) {
            self.fell = Some(t);
        }
    }

    /// Takes in the height of foot `i` while the gait runs.
    pub fn note_foot(&mut self, i: usize, contact: Contact, z: Scalar)
        requires
            i < 4,
        ensures
            final(self).fell == old(self).fell,
            final(self).min_z == old(self).min_z,
            forall|k: int|
                0 <= k < 4 ==> #[trigger] final(self).clear_max@[k] == (if k == i && contact
                    == Some(false) && old(self).clear_max@[k].lt_num(z) {
                    z
                } else {
                    old(self).clear_max@[k]
                }),
            forall|k: int|
                0 <= k < 4 ==> #[trigger] final(self).clear_min@[k] == (if k == i && z.lt_num(
                    old(self).clear_min@[k],
                ) {
                    z
                } else {
                    old(self).clear_min@[k]
                }),
    {
        let swinging: bool = match contact {
            Some(down) => !down,
            None => false,
        };
        if swinging && self.clear_max[i].less(z) {
            self.clear_max[i] = z;
        }
        if z.less(self.clear_min[i]) {
            self.clear_min[i] = z;
        }
    }

    /// Outcome of a simulation: a robot that fell has failed, and so has a gait
    /// that left the joints' ranges. `fell_at` is the time of the fall in words.
    pub fn verdict(&self, violations: usize, fell_at: &str) -> (r: Result<(), String>)
        ensures
            r is Ok <==> self.fell is None && violations == 0,
            r matches Err(e) ==> e@ == (if self.fell is Some {
                "**転倒しました**（t="@ + fell_at@ + " s で胴体が 1 rad 以上傾いた）"@
            } else {
                "可動域を超える指令が "@ + text::decimal(violations as nat)
                    + " 件出ています。この結果を歩容の良し悪しの判断に使わないでください（脚が可動域に当たって長さが変わります）"@
            }),
    {
        if self.fell.is_some() {
            let mut out: String = "**転倒しました**（t=".to_owned();
            out.append(fell_at);
            out.append(" s で胴体が 1 rad 以上傾いた）");
            return Err(out);
        }
        if violations > 0 {
            let mut out: String = "可動域を超える指令が ".to_owned();
            push_decimal(&mut out, violations as u64);
            out.append(
                " 件出ています。この結果を歩容の良し悪しの判断に使わないでください（脚が可動域に当たって長さが変わります）",
            );
            return Err(out);
        }
        Ok(())
    }
}

/// A foot as a sign: down, up or unknown.
pub open spec fn foot_sign(c: Contact) -> Seq<char> {
    match c {
        Some(true) => "■"@,
        Some(false) => "□"@,
        None => "?"@,
    }
}

pub open spec fn feet_signs(v: Seq<Contact>, n: int) -> Seq<char>
    decreases n,
{
    if n <= 0 {
        Seq::empty()
    } else {
        feet_signs(v, n - 1) + foot_sign(v[n - 1])
    }
}

/// The feet, one sign each.
pub fn feet_text(contacts: &Vec<Contact>) -> (r: String)
    ensures
        r@ == feet_signs(contacts@, contacts@.len() as int),
{
    let mut out: String = String::new();
    let mut i: usize = 0;
    while i < contacts.len()
        invariant
            i <= contacts@.len(),
            out@ == feet_signs(contacts@, i as int),
        decreases contacts@.len() - i,
    {
        match contacts[i] {
            Some(down) => {
                if down {
                    out.append("■");
                } else {
                    out.append("□");
                }
            },
            None => {
                out.append("?");
            },
        }
        i += 1;
    }
    out
}

/// How often each link touched the ground.
pub struct GroundTally {
    pub names: Vec<String>,
    pub counts: Vec<u64>,
}

impl GroundTally {
    /// Each name once, in lexicographic order, with a count of at least one.
    pub open spec fn wf(&self) -> bool {
        &&& self.names@.len() == self.counts@.len()
        &&& crate::simulated::ascending(self.names@)
        &&& forall|i: int| 0 <= i < self.counts@.len() ==> #[trigger] self.counts@[i] > 0
    }

    /// How often `name` was counted.
    pub open spec fn count_of(&self, name: Seq<char>) -> int {
        if exists|i: int| self.holds(name, i) {
            self.counts@[choose|i: int| self.holds(name, i)] as int
        } else {
            0
        }
    }

    /// Entry `i` is that of `name`.
    pub open spec fn holds(&self, name: Seq<char>, i: int) -> bool {
        0 <= i < self.names@.len() && self.names@[i]@ == name
    }

    proof fn lemma_unique(&self, name: Seq<char>, i: int)
        requires
            self.wf(),
            self.holds(name, i),
        ensures
            self.count_of(name) == self.counts@[i],
    {
        let k = choose|k: int| self.holds(name, k);
        assert(self.holds(name, k));
        if k < i {
            text::order_is_total(self.names@[k]@, self.names@[i]@);
        } else if i < k {
            text::order_is_total(self.names@[i]@, self.names@[k]@);
        }
    }

    pub fn new() -> (r: GroundTally)
        ensures
            r.wf(),
            forall|name: Seq<char>| #[trigger] r.count_of(name) == 0,
    {
        let r = GroundTally { names: Vec::new(), counts: Vec::new() };
        assert forall|name: Seq<char>| #[trigger] r.count_of(name) == 0 by {
            assert(!exists|i: int| r.holds(name, i));
        }
        r
    }

    /// Counts one more touch of `name`.
    pub fn note(&mut self, name: &str)
        requires
            old(self).wf(),
            old(self).count_of(name@) < u64::MAX,
        ensures
            final(self).wf(),
            forall|s: Seq<char>|
                #[trigger] final(self).count_of(s) == old(self).count_of(s) + (if s == name@ {
                    1int
                } else {
                    0
                }),
    {
        let mut i: usize = 0;
        while i < self.names.len()
            invariant
                *self == *old(self),
                self.wf(),
                i <= self.names@.len(),
                self.count_of(name@) < u64::MAX,
                forall|k: int|
                    0 <= k < i ==> text::precedes((#[trigger] self.names@[k])@, name@),
            ensures
                i < self.names@.len() ==> self.names@[i as int]@ != name@ && !text::precedes(
                    self.names@[i as int]@,
                    name@,
                ),
            decreases self.names@.len() - i,
        {
            if crate::text::same(self.names[i].as_str(), name) {
                proof {
                    assert(self.holds(name@, i as int));
                    self.lemma_unique(name@, i as int);
                }
                let c: u64 = self.counts[i];
                self.counts[i] = c + 1;
                proof {
                    assert(self.names@ == old(self).names@);
                    assert forall|s: Seq<char>| #[trigger] self.count_of(s) == old(self).count_of(s)
                        + (if s == name@ {
                        1int
                    } else {
                        0
                    }) by {
                        if exists|k: int| self.holds(s, k) {
                            let k = choose|k: int| self.holds(s, k);
                            self.lemma_unique(s, k);
                            assert(old(self).holds(s, k));
                            old(self).lemma_unique(s, k);
                            if k == i {
                            } else if s == name@ {
                                self.lemma_unique(s, i as int);
                                old(self).lemma_unique(s, i as int);
                            }
                        } else {
                            assert(!self.holds(s, i as int));
                            assert forall|k: int| !old(self).holds(s, k) by {
                                assert(!self.holds(s, k));
                            }
                        }
                    }
                }
                return ;
            }
            if !crate::text::comes_before(self.names[i].as_str(), name) {
                break;
            }
            i += 1;
        }
        let ghost names = self.names@;
        let ghost counts = self.counts@;
        let owned: String = name.to_owned();
        self.names.insert(i, owned);
        self.counts.insert(i, 1);
        proof {
            let now = self.names@;
            assert(now == names.insert(i as int, owned));
            assert(self.counts@ == counts.insert(i as int, 1));
            if i < names.len() {
                text::order_is_total(names[i as int]@, name@);
            }
            assert(crate::simulated::ascending(now)) by {
                assert forall|a: int, b: int| 0 <= a < b < now.len() implies text::precedes(
                    (#[trigger] now[a])@,
                    (#[trigger] now[b])@,
                ) by {
                    if b < i {
                        assert(now[a] == names[a] && now[b] == names[b]);
                    } else if b == i {
                        assert(now[a] == names[a]);
                    } else if a == i {
                        assert(now[b] == names[b - 1]);
                        if b - 1 > i {
                            assert(text::precedes(names[i as int]@, names[b - 1]@));
                            text::order_is_transitive(name@, names[i as int]@, names[b - 1]@);
                        }
                    } else if a < i {
                        assert(now[a] == names[a]);
                        assert(now[b] == names[b - 1]);
                    } else {
                        assert(now[a] == names[a - 1]);
                        assert(now[b] == names[b - 1]);
                    }
                }
            }
            assert(self.wf());
            assert forall|k: int| !old(self).holds(name@, k) by {
                if old(self).holds(name@, k) {
                    if k < i {
                        text::order_is_total(names[k]@, name@);
                    } else if k > i {
                        assert(text::precedes(names[i as int]@, names[k]@));
                        text::order_is_total(names[i as int]@, name@);
                    }
                }
            }
            assert forall|s: Seq<char>| #[trigger] self.count_of(s) == old(self).count_of(s) + (if s
                == name@ {
                1int
            } else {
                0
            }) by {
                if s == name@ {
                    assert(self.holds(s, i as int));
                    self.lemma_unique(s, i as int);
                } else if exists|k: int| old(self).holds(s, k) {
                    let k = choose|k: int| old(self).holds(s, k);
                    old(self).lemma_unique(s, k);
                    if k < i {
                        assert(self.holds(s, k));
                        self.lemma_unique(s, k);
                    } else {
                        assert(self.holds(s, k + 1));
                        self.lemma_unique(s, k + 1);
                    }
                } else {
                    assert forall|k: int| !self.holds(s, k) by {
                        if self.holds(s, k) {
                            if k < i {
                                assert(old(self).holds(s, k));
                            } else if k > i {
                                assert(old(self).holds(s, k - 1));
                            }
                        }
                    }
                }
            }
        }
    }

    /// Entry `a` is listed before entry `b`: it was counted more often, or as
    /// often and its name comes first.
    pub open spec fn ahead(&self, a: int, b: int) -> bool {
        self.counts@[a] > self.counts@[b] || (self.counts@[a] == self.counts@[b] && a < b)
    }

    /// The entries, most frequent first; equally frequent ones by name.
    pub fn most_frequent(&self) -> (r: Vec<usize>)
        requires
            self.wf(),
        ensures
            r@.len() == self.names@.len(),
            r@.no_duplicates(),
            forall|k: int| 0 <= k < r@.len() ==> #[trigger] r@[k] < self.names@.len(),
            forall|a: int, b: int|
                0 <= a < b < r@.len() ==> self.ahead(#[trigger] r@[a] as int, #[trigger] r@[b] as int),
    {
        let mut out: Vec<usize> = Vec::new();
        let mut i: usize = 0;
        while i < self.names.len()
            invariant
                self.wf(),
                i <= self.names@.len(),
                out@.len() == i,
                out@.no_duplicates(),
                forall|k: int| 0 <= k < out@.len() ==> #[trigger] out@[k] < i,
                forall|a: int, b: int|
                    0 <= a < b < out@.len() ==> self.ahead(
                        #[trigger] out@[a] as int,
                        #[trigger] out@[b] as int,
                    ),
            decreases self.names@.len() - i,
        {
            let mut at: usize = 0;
            while at < out.len()
                invariant
                    self.wf(),
                    i < self.names@.len(),
                    at <= out@.len(),
                    forall|k: int| 0 <= k < out@.len() ==> #[trigger] out@[k] < i,
                    forall|k: int| 0 <= k < at ==> self.ahead(#[trigger] out@[k] as int, i as int),
                ensures
                    at < out@.len() ==> self.counts@[out@[at as int] as int]
                        < self.counts@[i as int],
                decreases out@.len() - at,
            {
                if self.counts[out[at]] < self.counts[i] {
                    break;
                }
                at += 1;
            }
            let ghost before = out@;
            out.insert(at, i);
            proof {
                assert(out@ == before.insert(at as int, i));
                assert forall|a: int, b: int| 0 <= a < b < out@.len() implies self.ahead(
                    #[trigger] out@[a] as int,
                    #[trigger] out@[b] as int,
                ) by {
                    if b < at {
                        assert(out@[a] == before[a] && out@[b] == before[b]);
                    } else if b == at {
                        assert(out@[a] == before[a]);
                    } else if a == at {
                        assert(out@[b] == before[b - 1]);
                        if b - 1 > at {
                            assert(self.ahead(before[at as int] as int, before[b - 1] as int));
                        }
                    } else if a < at {
                        assert(out@[a] == before[a]);
                        assert(out@[b] == before[b - 1]);
                    } else {
                        assert(out@[a] == before[a - 1]);
                        assert(out@[b] == before[b - 1]);
                    }
                }
                assert(out@.no_duplicates()) by {
                    assert forall|a: int, b: int| 0 <= a < b < out@.len() implies out@[a]
                        != out@[b] by {
                        assert(self.ahead(out@[a] as int, out@[b] as int));
                    }
                }
            }
            i += 1;
        }
        out
    }
}

/// A violation is what the safety gate would change: a target that violates its range
/// is not the one that the safety gate lets through.
pub proof fn the_gate_would_change_a_violation(limits: Seq<AxisLimits>, i: int, value: Scalar)
    requires
        0 <= i < limits.len(),
        limits[i].ordered(),
        !value.nan(),
    ensures
        out_of_range(limits, i, value) <==> value.clamp_spec(limits[i].min_rad, limits[i].max_rad)
            != value,
{
}

/// A target is out of range exactly when its axis has limits and it is below the
/// lower or above the upper one; the violation names the axis, the target and the
/// range.
pub proof fn a_violation_names_what_is_violated(limits: Seq<AxisLimits>, i: u16, value: Scalar)
    ensures
        i >= limits.len() ==> !out_of_range(limits, i as int, value),
        i < limits.len() ==> (out_of_range(limits, i as int, value) <==> value.lt_num(
            limits[i as int].min_rad,
        ) || limits[i as int].max_rad.lt_num(value)),
        violation_of(limits, i as int, value).axis.0 == i,
        violation_of(limits, i as int, value).value == value,
        violation_of(limits, i as int, value).min_rad == limits[i as int].min_rad,
        violation_of(limits, i as int, value).max_rad == limits[i as int].max_rad,
{
}

/// The reported violations are exactly the leg joints out of range, in order, and
/// the head at the end if it is out of its own.
pub proof fn every_joint_out_of_range_is_reported(
    limits: Seq<AxisLimits>,
    head: Option<AxisId>,
    q: JointVec,
)
    ensures
        ({
            let legs = leg_violations(limits, q, 12);
            let all = violations_spec(limits, head, q);
            &&& forall|i: int|
                0 <= i < 12 ==> (out_of_range(limits, i, #[trigger] q.joint(i)) <==> exists|k: int|
                    0 <= k < legs.len() && (#[trigger] legs[k]).axis.0 == i)
            &&& forall|k: int|
                0 <= k < legs.len() ==> (#[trigger] legs[k]).axis.0 < 12 && legs[k] == violation_of(
                    limits,
                    legs[k].axis.0 as int,
                    q.joint(legs[k].axis.0 as int),
                )
            &&& forall|j: int, k: int|
                0 <= j < k < legs.len() ==> (#[trigger] legs[j]).axis.0 < (#[trigger] legs[k]).axis.0
            &&& match head {
                None => all == legs,
                Some(id) => {
                    &&& out_of_range(limits, id.0 as int, q.arm) ==> all == legs.push(
                        violation_of(limits, id.0 as int, q.arm),
                    )
                    &&& !out_of_range(limits, id.0 as int, q.arm) ==> all == legs
                },
            }
        }),
{
    lemma_leg_violations(limits, q, 12);
    let legs = leg_violations(limits, q, 12);
    assert forall|i: int| 0 <= i < 12 implies (out_of_range(limits, i, #[trigger] q.joint(i)) <==> exists|
        k: int,
    | 0 <= k < legs.len() && (#[trigger] legs[k]).axis.0 == i) by {
        assert(reported(legs, i) <==> out_of_range(limits, i, q.joint(i)));
    }
}

spec fn reported(v: Seq<Violation>, i: int) -> bool {
    exists|k: int| 0 <= k < v.len() && (#[trigger] v[k]).axis.0 == i
}

proof fn lemma_leg_violations(limits: Seq<AxisLimits>, q: JointVec, n: int)
    requires
        0 <= n <= 12,
    ensures
        ({
            let v = leg_violations(limits, q, n);
            &&& forall|i: int|
                0 <= i < n ==> (#[trigger] reported(v, i) <==> out_of_range(limits, i, q.joint(i)))
            &&& forall|k: int|
                0 <= k < v.len() ==> (#[trigger] v[k]).axis.0 < n && v[k] == violation_of(
                    limits,
                    v[k].axis.0 as int,
                    q.joint(v[k].axis.0 as int),
                )
            &&& forall|j: int, k: int|
                0 <= j < k < v.len() ==> (#[trigger] v[j]).axis.0 < (#[trigger] v[k]).axis.0
        }),
    decreases n,
{
    if n > 0 {
        lemma_leg_violations(limits, q, n - 1);
        let shorter = leg_violations(limits, q, n - 1);
        let v = leg_violations(limits, q, n);
        assert forall|i: int| 0 <= i < n implies (#[trigger] reported(v, i) <==> out_of_range(
            limits,
            i,
            q.joint(i),
        )) by {
            if i < n - 1 {
                assert(reported(shorter, i) <==> out_of_range(limits, i, q.joint(i)));
                if reported(shorter, i) {
                    let k = choose|k: int|
                        0 <= k < shorter.len() && (#[trigger] shorter[k]).axis.0 == i;
                    assert(v[k].axis.0 == i);
                }
                if reported(v, i) {
                    let k = choose|k: int| 0 <= k < v.len() && (#[trigger] v[k]).axis.0 == i;
                    assert(shorter[k].axis.0 == i);
                }
            } else if out_of_range(limits, i, q.joint(i)) {
                assert(v[v.len() - 1].axis.0 == i);
            }
        }
    }
}

/// An axis counts as bounded exactly when both ends of its range are finite.
pub proof fn bounded_axes_have_two_finite_ends(limits: Seq<AxisLimits>, n: int)
    requires
        0 <= n <= limits.len(),
    ensures
        bounded_upto(limits, n) == limits.take(n).filter(
            |a: AxisLimits| a.min_rad.finite() && a.max_rad.finite(),
        ).len(),
    decreases n,
{
    reveal(Seq::filter);
    if n > 0 {
        bounded_axes_have_two_finite_ends(limits, n - 1);
        assert(limits.take(n).drop_last() == limits.take(n - 1));
        assert(limits.take(n).last() == limits[n - 1]);
    }
}

/// The joints that were asked to move too fast are exactly those with a rate limit
/// that their peak exceeds, in order.
pub proof fn joints_over_their_rate_are_listed(p: PeakRates, limits: Seq<AxisLimits>, n: int)
    requires
        0 <= n <= usize::MAX,
    ensures
        forall|i: usize| #[trigger]
            p.over_upto(limits, n).contains(i) <==> i < n && i < limits.len()
                && limits[i as int].max_target_rate_rad_s.positive()
                && limits[i as int].max_target_rate_rad_s.lt_num(p.peak@[i as int]),
        forall|j: int, k: int|
            0 <= j < k < p.over_upto(limits, n).len() ==> #[trigger] p.over_upto(limits, n)[j]
                < #[trigger] p.over_upto(limits, n)[k],
    decreases n,
{
    if n > 0 {
        joints_over_their_rate_are_listed(p, limits, n - 1);
        let shorter = p.over_upto(limits, n - 1);
        let all = p.over_upto(limits, n);
        assert forall|i: usize| #[trigger] all.contains(i) <==> i < n && i < limits.len()
            && limits[i as int].max_target_rate_rad_s.positive()
            && limits[i as int].max_target_rate_rad_s.lt_num(p.peak@[i as int]) by {
            assert(shorter.contains(i) <==> i < n - 1 && p.over(limits, i as int));
            if all.contains(i) {
                let k = choose|k: int| 0 <= k < all.len() && all[k] == i;
                if k < shorter.len() {
                    assert(shorter[k] == i);
                }
            }
            if shorter.contains(i) {
                let k = choose|k: int| 0 <= k < shorter.len() && shorter[k] == i;
                assert(all[k] == i);
            }
            if i == n - 1 && p.over(limits, n - 1) {
                assert(all[all.len() - 1] == i);
            }
        }
        assert forall|j: int, k: int| 0 <= j < k < all.len() implies #[trigger] all[j]
            < #[trigger] all[k] by {
            if k == shorter.len() {
                assert(shorter.contains(shorter[j]));
            }
        }
    }
}

/// A body lies when it rolls or pitches by more than one radian either way, and
/// not before.
pub proof fn a_body_lies_beyond_one_radian(roll: Scalar, pitch: Scalar)
    requires
        !roll.nan(),
        !pitch.nan(),
    ensures
        ({
            let one = Scalar { bits: 0x3ff0_0000_0000_0000 };
            let upright = |x: Scalar| one.neg_spec().le_num(x) && x.le_num(one);
            lies(roll, pitch) <==> !(upright(roll) && upright(pitch))
        }),
{
}

/// Entries that were counted more often come first, and of equal ones that with
/// the smaller name.
pub proof fn more_frequent_entries_come_first(t: GroundTally, a: int, b: int)
    requires
        t.wf(),
        0 <= a < t.names@.len(),
        0 <= b < t.names@.len(),
        a != b,
    ensures
        t.counts@[a] > t.counts@[b] ==> t.ahead(a, b) && !t.ahead(b, a),
        t.counts@[a] == t.counts@[b] && text::precedes(t.names@[a]@, t.names@[b]@) ==> t.ahead(a, b),
        t.ahead(a, b) != t.ahead(b, a),
{
    if t.counts@[a] == t.counts@[b] && text::precedes(t.names@[a]@, t.names@[b]@) && b < a {
        assert(text::precedes(t.names@[b]@, t.names@[a]@));
        text::order_is_total(t.names@[a]@, t.names@[b]@);
    }
}

/// Each foot has one sign, at its own place: a full square on the ground, an
/// empty one in the air, a question mark where nothing is known.
pub proof fn every_foot_has_its_own_sign(v: Seq<Contact>, n: int, i: int)
    requires
        0 <= i < n <= v.len(),
    ensures
        feet_signs(v, n).len() == n,
        v[i] == Some(true) ==> feet_signs(v, n)[i] == '■',
        v[i] == Some(false) ==> feet_signs(v, n)[i] == '□',
        v[i] is None ==> feet_signs(v, n)[i] == '?',
    decreases n,
{
    lemma_sign(v[n - 1]);
    lemma_signs_len(v, n - 1);
    if i < n - 1 {
        every_foot_has_its_own_sign(v, n - 1, i);
        assert(feet_signs(v, n)[i] == feet_signs(v, n - 1)[i]);
    } else {
        assert(feet_signs(v, n)[i] == foot_sign(v[i])[0]);
    }
}

proof fn lemma_sign(c: Contact)
    ensures
        foot_sign(c).len() == 1,
        c == Some(true) ==> foot_sign(c)[0] == '■',
        c == Some(false) ==> foot_sign(c)[0] == '□',
        c is None ==> foot_sign(c)[0] == '?',
{
    reveal_strlit("■");
    reveal_strlit("□");
    reveal_strlit("?");
}

proof fn lemma_signs_len(v: Seq<Contact>, n: int)
    requires
        0 <= n <= v.len(),
    ensures
        feet_signs(v, n).len() == n,
    decreases n,
{
    if n > 0 {
        lemma_sign(v[n - 1]);
        lemma_signs_len(v, n - 1);
    }
}

} // verus!
