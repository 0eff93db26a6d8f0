//! The exchange with a motor bridge.
//!
//! The bridge knows impedance control only: every period carries the target,
//! the feed-forward torque and both gains, and a limp axis is one whose gains
//! and torque are zero. The two sides agree on joints by name, because the other
//! side may leave out a joint and would otherwise shift all the rest by one.

use vstd::prelude::*;
use vstd::string::*;

use crate::axis;
use crate::axis::{id_of_index, AxisTable};
use crate::command::{AxisCommand, Command, ControlMode};
use crate::observation::{AxisHealth, AxisState, Imu, Observation};
use crate::plant::PlantCaps;
use crate::scalar::Scalar;
use crate::text;
use crate::text::{push_decimal, same, same_words};
use crate::time::{Span, Time};

verus! {

/// The command to one motor.
#[derive(Clone, Copy, Debug, PartialEq, Eq, Structural)]
pub struct MotorCommand {
    /// For the other side's log; nothing there acts on it.
    pub control_mode: i32,
    pub joint_angle: Scalar,
    pub joint_angular_velocity: Scalar,
    pub joint_tau: Scalar,
    pub kp: Scalar,
    pub kd: Scalar,
}

/// A limp axis gets no torque and no gains. The velocity is the target velocity
/// of the impedance law, not the axis's speed limit, so it is zero.
pub open spec fn motor_spec(c: AxisCommand) -> MotorCommand {
    MotorCommand {
        control_mode: c.mode.number_spec() as i32,
        joint_angle: c.position_rad,
        joint_angular_velocity: Scalar::zero_spec(),
        joint_tau: if c.mode is Idle { Scalar::zero_spec() } else { c.torque_ff_nm },
        kp: if c.mode is Idle { Scalar::zero_spec() } else { c.kp_nm_per_rad },
        kd: if c.mode is Idle { Scalar::zero_spec() } else { c.kd_nm_s_per_rad },
    }
}

pub fn motor_command(c: AxisCommand) -> (r: MotorCommand)
    ensures
        r == motor_spec(c),
{
    let limp: bool = c.mode == ControlMode::Idle;
    MotorCommand {
        control_mode: c.mode.number() as i32,
        joint_angle: c.position_rad,
        joint_angular_velocity: Scalar::zero(),
        joint_tau: if limp {
            Scalar::zero()
        } else {
            c.torque_ff_nm
        },
        kp: if limp {
            Scalar::zero()
        } else {
            c.kp_nm_per_rad
        },
        kd: if limp {
            Scalar::zero()
        } else {
            c.kd_nm_s_per_rad
        },
    }
}

/// The message to the bridge.
pub struct LowCommand {
    pub joint_name: Vec<String>,
    pub num_motors: u32,
    pub motor_commands: Vec<MotorCommand>,
}

/// What axis `i` is asked to do. An axis that the command leaves out is limp.
pub open spec fn asked(cmd: Seq<AxisCommand>, i: int) -> AxisCommand {
    if axis::id_at(i).0 < cmd.len() {
        cmd[axis::id_at(i).0 as int]
    } else {
        AxisCommand::idle_spec()
    }
}

/// One named motor command per axis.
pub fn low_command(axes: &AxisTable, cmd: &Command) -> (r: LowCommand)
    ensures
        r.joint_name@.len() == axes@.len(),
        r.motor_commands@.len() == axes@.len(),
        r.num_motors == axes@.len() % 0x1_0000_0000,
        forall|i: int| 0 <= i < axes@.len() ==> #[trigger] r.joint_name@[i]@ == axes@[i].name@,
        forall|i: int|
            0 <= i < axes@.len() ==> #[trigger] r.motor_commands@[i] == motor_spec(asked(cmd@, i)),
{
    let n: usize = axes.len();
    let table = axes.axes();
    let mut joint_name: Vec<String> = Vec::new();
    let mut motor_commands: Vec<MotorCommand> = Vec::new();
    let mut i: usize = 0;
    while i < n
        invariant
            i <= n == axes@.len(),
            table@ == axes@,
            joint_name@.len() == i,
            motor_commands@.len() == i,
            forall|k: int| 0 <= k < i ==> #[trigger] joint_name@[k]@ == axes@[k].name@,
            forall|k: int|
                0 <= k < i ==> #[trigger] motor_commands@[k] == motor_spec(asked(cmd@, k)),
        decreases n - i,
    {
        let c: AxisCommand = match cmd.get(id_of_index(i)) {
            Some(c) => *c,
            None => AxisCommand::idle(),
        };
        assert(c == asked(cmd@, i as int));
        joint_name.push(table[i].name.as_str().to_owned());
        motor_commands.push(motor_command(c));
        i += 1;
    }
    LowCommand { joint_name, num_motors: ((n as u64) % 0x1_0000_0000) as u32, motor_commands }
}

/// What the bridge offers: impedance control of every axis, an inertial unit,
/// no foot sensors.
pub fn bridge_caps(n: usize) -> (r: PlantCaps)
    ensures
        r.modes@ == seq![ControlMode::Impedance],
        r.has_imu,
        !r.has_contacts,
        r.driven@ == Seq::new(n as nat, |i: int| true),
{
    let mut modes: Vec<ControlMode> = Vec::new();
    modes.push(ControlMode::Impedance);
    let mut driven: Vec<bool> = Vec::new();
    let mut i: usize = 0;
    while i < n
        invariant
            i <= n,
            driven@ == Seq::new(i as nat, |k: int| true),
        decreases n - i,
    {
        driven.push(true);
        i += 1;
    }
    PlantCaps { modes, has_imu: true, has_contacts: false, driven }
}

/// Shortest time after which a state counts as old.
pub const SHORTEST_STATE_TIMEOUT_MS: u64 = 5;

/// How long a state stays good: what the profile says, and not less than the
/// shortest.
pub fn state_timeout(configured_ms: u64) -> (r: Span)
    ensures
        r.nanos == (if configured_ms < SHORTEST_STATE_TIMEOUT_MS {
            SHORTEST_STATE_TIMEOUT_MS
        } else {
            configured_ms
        }) * 1_000_000,
{
    let ms: u64 = if configured_ms < SHORTEST_STATE_TIMEOUT_MS {
        SHORTEST_STATE_TIMEOUT_MS
    } else {
        configured_ms
    };
    Span::from_nanos((ms as u128) * 1_000_000)
}

/// The reading of one motor.
#[derive(Clone, Copy, Debug, PartialEq, Eq, Structural)]
pub struct MotorState {
    pub joint_angle: Scalar,
    pub joint_angular_velocity: Scalar,
    pub motor_output_torque: Scalar,
    pub motor_output_torque_valid: bool,
    pub motor_error: u32,
    pub motor_temperature: Scalar,
    pub motor_temperature_valid: bool,
}

/// The message from the bridge. The names and the readings go together by
/// position. The body's attitude comes as angles.
pub struct LowState {
    pub joint_names: Vec<String>,
    pub joint_states: Vec<MotorState>,
    pub rpy_rad: [Scalar; 3],
    pub gyro_rad_s: [Scalar; 3],
    pub accel_m_s2: [Scalar; 3],
}

/// `p` is the first position of `name`, or `None` where it does not occur.
pub open spec fn place_of(names: Seq<String>, name: Seq<char>, p: Option<usize>) -> bool {
    match p {
        Some(j) => {
            &&& j < names.len()
            &&& names[j as int]@ == name
            &&& forall|k: int| 0 <= k < j ==> #[trigger] names[k]@ != name
        },
        None => forall|k: int| 0 <= k < names.len() ==> #[trigger] names[k]@ != name,
    }
}

fn find_name(names: &Vec<String>, name: &str) -> (r: Option<usize>)
    ensures
        place_of(names@, name@, r),
{
    let mut j: usize = 0;
    while j < names.len()
        invariant
            j <= names@.len(),
            forall|k: int| 0 <= k < j ==> #[trigger] names@[k]@ != name@,
        decreases names@.len() - j,
    {
        if same(names[j].as_str(), name) {
            return Some(j);
        }
        j += 1;
    }
    None
}

fn copy_names(v: &Vec<String>) -> (r: Vec<String>)
    ensures
        text::words(r@) == text::words(v@),
{
    let mut out: Vec<String> = Vec::new();
    let mut i: usize = 0;
    while i < v.len()
        invariant
            i <= v@.len(),
            out@.len() == i,
            forall|k: int| 0 <= k < i ==> #[trigger] out@[k]@ == v@[k]@,
        decreases v@.len() - i,
    {
        out.push(v[i].as_str().to_owned());
        i += 1;
    }
    assert(text::words(out@) =~= text::words(v@));
    out
}

/// The names of those of the first `n` axes that were not found, in order.
pub open spec fn missing_upto(axes: Seq<axis::Axis>, index: Seq<Option<usize>>, n: int) -> Seq<
    Seq<char>,
>
    decreases n,
{
    if n <= 0 {
        Seq::empty()
    } else if index[n - 1] is None {
        missing_upto(axes, index, n - 1).push(axes[n - 1].name@)
    } else {
        missing_upto(axes, index, n - 1)
    }
}

/// How our axes map to the other side's readings.
pub struct JointIndex {
    /// Per axis, the position of its reading.
    pub index: Vec<Option<usize>>,
    /// The names that `index` was made for.
    pub index_for: Vec<String>,
    /// The missing axes as last reported.
    pub reported: Option<Vec<String>>,
}

/// What to say after the readings were matched to the axes.
pub enum IndexReport {
    /// The same as last time: nothing.
    Quiet,
    AllFound,
    Missing(Vec<String>),
}

impl JointIndex {
    /// `index` maps each axis to the first reading of its name.
    pub open spec fn maps(self, axes: Seq<axis::Axis>, names: Seq<String>) -> bool {
        &&& self.index@.len() == axes.len()
        &&& forall|i: int|
            0 <= i < axes.len() ==> place_of(names, axes[i].name@, #[trigger] self.index@[i])
    }

    /// An index in which nothing is found yet.
    pub fn new(n: usize) -> (r: JointIndex)
        ensures
            r.index@ == Seq::new(n as nat, |i: int| None::<usize>),
            r.index_for@.len() == 0,
            r.reported is None,
    {
        let mut index: Vec<Option<usize>> = Vec::new();
        let mut i: usize = 0;
        while i < n
            invariant
                i <= n,
                index@ == Seq::new(i as nat, |k: int| None::<usize>),
            decreases n - i,
        {
            index.push(None);
            i += 1;
        }
        JointIndex { index, index_for: Vec::new(), reported: None }
    }

    /// Matches the readings to the axes anew. The result is reported only where
    /// it differs from the last report: with two senders on one topic the order
    /// could change every period.
    pub fn reindex(&mut self, axes: &AxisTable, names: &Vec<String>) -> (r: IndexReport)
        ensures
            reindexed(*old(self), *final(self), axes@, names@, r),
    {
        let n: usize = axes.len();
        let table = axes.axes();
        let mut index: Vec<Option<usize>> = Vec::new();
        let mut missing: Vec<String> = Vec::new();
        let mut i: usize = 0;
        while i < n
            invariant
                i <= n == axes@.len(),
                table@ == axes@,
                index@.len() == i,
                forall|k: int|
                    0 <= k < i ==> place_of(names@, axes@[k].name@, #[trigger] index@[k]),
                text::words(missing@) == missing_upto(axes@, index@, i as int),
            decreases n - i,
        {
            let p: Option<usize> = find_name(names, table[i].name.as_str());
            let ghost before = index@;
            index.push(p);
            proof {
                missing_prefix(axes@, before, index@, i as int);
            }
            if p.is_none() {
                let ghost m = missing@;
                missing.push(table[i].name.as_str().to_owned());
                assert(text::words(missing@) =~= text::words(m).push(axes@[i as int].name@));
            }
            i += 1;
        }
        self.index = index;
        self.index_for = copy_names(names);
        let quiet: bool = match &self.reported {
            Some(v) => same_words(v, &missing),
            None => false,
        };
        if quiet {
            return IndexReport::Quiet;
        }
        let out: IndexReport = if missing.len() == 0 {
            IndexReport::AllFound
        } else {
            IndexReport::Missing(copy_names(&missing))
        };
        self.reported = Some(missing);
        out
    }

    /// Takes a state in: the index is renewed where the names have changed, and
    /// the readings go to their axes. Without a state only the time passes.
    pub fn absorb(
        &mut self,
        axes: &AxisTable,
        obs: &mut Observation,
        now: Time,
        latest: Option<&LowState>,
        age: Span,
    ) -> (r: IndexReport)
        requires
            old(self).index@.len() == axes@.len(),
        ensures
            final(obs).time == now,
            final(obs).contacts == old(obs).contacts,
            match latest {
                None => {
                    &&& r is Quiet
                    &&& *final(self) == *old(self)
                    &&& final(obs).axes@ == old(obs).axes@
                    &&& final(obs).imu == old(obs).imu
                },
                Some(state) => {
                    &&& if text::words(state.joint_names@) == text::words(
                        old(self).index_for@,
                    ) {
                        *final(self) == *old(self) && r is Quiet
                    } else {
                        reindexed(*old(self), *final(self), axes@, state.joint_names@, r)
                    }
                    &&& text::words(final(self).index_for@) == text::words(state.joint_names@)
                    &&& final(self).index@.len() == axes@.len()
                    &&& final(obs).axes@ == received(
                        old(obs).axes@,
                        final(self).index@,
                        state.joint_states@,
                        age,
                        axes@.len() as int,
                    )
                    &&& final(obs).imu matches Some(imu) && imu.rpy_rad@ == state.rpy_rad@
                        && imu.gyro_rad_s@ == state.gyro_rad_s@ && imu.accel_m_s2@
                        == state.accel_m_s2@ && imu.age == age
                },
            },
    {
        obs.time = now;
        match latest {
            None => IndexReport::Quiet,
            Some(state) => {
                let mut report: IndexReport = IndexReport::Quiet;
                if !same_words(&state.joint_names, &self.index_for) {
                    report = self.reindex(axes, &state.joint_names);
                }
                receive(obs, &self.index, &state.joint_states, age);
                obs.imu = Some(
                    Imu {
                        rpy_rad: state.rpy_rad,
                        gyro_rad_s: state.gyro_rad_s,
                        accel_m_s2: state.accel_m_s2,
                        age,
                    },
                );
                report
            },
        }
    }
}

/// `after` is the index `before` made anew for `names`, and `r` is what there is
/// to report: which axes have no reading, where that has changed.
pub open spec fn reindexed(
    before: JointIndex,
    after: JointIndex,
    axes: Seq<axis::Axis>,
    names: Seq<String>,
    r: IndexReport,
) -> bool {
    let missing = missing_upto(axes, after.index@, axes.len() as int);
    &&& after.maps(axes, names)
    &&& text::words(after.index_for@) == text::words(names)
    &&& after.reported matches Some(v) && text::words(v@) == missing
    &&& match before.reported {
        Some(v) => text::words(v@) == missing <==> r is Quiet,
        None => !(r is Quiet),
    }
    &&& match r {
        IndexReport::Quiet => true,
        IndexReport::AllFound => missing.len() == 0,
        IndexReport::Missing(v) => missing.len() > 0 && text::words(v@) == missing,
    }
}

proof fn missing_prefix(
    axes: Seq<axis::Axis>,
    a: Seq<Option<usize>>,
    b: Seq<Option<usize>>,
    n: int,
)
    requires
        0 <= n <= a.len(),
        n <= b.len(),
        forall|k: int| 0 <= k < n ==> a[k] == b[k],
    ensures
        missing_upto(axes, a, n) == missing_upto(axes, b, n),
    decreases n,
{
    if n > 0 {
        missing_prefix(axes, a, b, n - 1);
    }
}

/// An axis after its reading `m`: what the motor does not report is unknown, and
/// an axis without a reading counts as unread and keeps its last values.
pub open spec fn axis_after(before: AxisState, m: Option<MotorState>, age: Span) -> AxisState {
    match m {
        None => AxisState {
            health: AxisHealth { valid: false, ..before.health },
            ..before
        },
        Some(m) => AxisState {
            position_rad: m.joint_angle,
            velocity_rad_s: m.joint_angular_velocity,
            torque_nm: if m.motor_output_torque_valid {
                Some(m.motor_output_torque)
            } else {
                None
            },
            health: AxisHealth {
                valid: true,
                age,
                fault_raw: m.motor_error,
                temperature_c: if m.motor_temperature_valid {
                    Some(m.motor_temperature)
                } else {
                    None
                },
                voltage_v: None,
            },
        },
    }
}

/// The reading at `place`, where there is one.
pub open spec fn reading(states: Seq<MotorState>, place: Option<usize>) -> Option<MotorState> {
    match place {
        Some(j) => if j < states.len() {
            Some(states[j as int])
        } else {
            None
        },
        None => None,
    }
}

/// The axes after the first `n` of the index have been read.
pub open spec fn received(
    axes: Seq<AxisState>,
    index: Seq<Option<usize>>,
    states: Seq<MotorState>,
    age: Span,
    n: int,
) -> Seq<AxisState>
    decreases n,
{
    if n <= 0 {
        axes
    } else {
        let before = received(axes, index, states, age, n - 1);
        let i = axis::id_at(n - 1).0 as int;
        if i < before.len() {
            before.update(i, axis_after(before[i], reading(states, index[n - 1]), age))
        } else {
            before
        }
    }
}

/// Puts the readings where the index says. An old reading is marked as old and
/// still given: without the last posture there would be nothing to recover from.
pub fn receive(
    obs: &mut Observation,
    index: &Vec<Option<usize>>,
    states: &Vec<MotorState>,
    age: Span,
)
    ensures
        final(obs).time == old(obs).time,
        final(obs).imu == old(obs).imu,
        final(obs).contacts == old(obs).contacts,
        final(obs).axes@ == received(
            old(obs).axes@,
            index@,
            states@,
            age,
            index@.len() as int,
        ),
{
    let mut i: usize = 0;
    while i < index.len()
        invariant
            i <= index@.len(),
            obs.time == old(obs).time,
            obs.imu == old(obs).imu,
            obs.contacts == old(obs).contacts,
            obs.axes@ == received(old(obs).axes@, index@, states@, age, i as int),
        decreases index@.len() - i,
    {
        let at: usize = id_of_index(i).index();
        if at < obs.axes.len() {
            let before: AxisState = obs.axes[at];
            let m: Option<MotorState> = match index[i] {
                Some(j) => if j < states.len() {
                    Some(states[j])
                } else {
                    None
                },
                None => None,
            };
            let after: AxisState = match m {
                None => AxisState {
                    health: AxisHealth { valid: false, ..before.health },
                    ..before
                },
                Some(m) => AxisState {
                    position_rad: m.joint_angle,
                    velocity_rad_s: m.joint_angular_velocity,
                    torque_nm: if m.motor_output_torque_valid {
                        Some(m.motor_output_torque)
                    } else {
                        None
                    },
                    health: AxisHealth {
                        valid: true,
                        age,
                        fault_raw: m.motor_error,
                        temperature_c: if m.motor_temperature_valid {
                            Some(m.motor_temperature)
                        } else {
                            None
                        },
                        voltage_v: None,
                    },
                },
            };
            obs.axes[at] = after;
        }
        i += 1;
    }
}

/// How an exchange test went.
#[derive(Clone, Copy, Debug, PartialEq, Eq, Structural)]
pub struct RoundTrips {
    pub ticks: u64,
    /// Periods in which every axis was read.
    pub seen: u64,
}

impl RoundTrips {
    pub fn new() -> (r: RoundTrips)
        ensures
            r == (RoundTrips { ticks: 0, seen: 0 }),
    {
        RoundTrips { ticks: 0, seen: 0 }
    }

    /// Counts a period.
    pub fn note(&mut self, all_read: bool)
        requires
            old(self).seen <= old(self).ticks < u64::MAX,
        ensures
            final(self).ticks == old(self).ticks + 1,
            final(self).seen == old(self).seen + (if all_read { 1int } else { 0 }),
            final(self).seen <= final(self).ticks,
    {
        self.ticks = self.ticks + 1;
        if all_read {
            self.seen = self.seen + 1;
        }
    }

    /// A test in which no period was complete has failed.
    pub fn verdict(&self, topic: &str) -> (r: Result<(), String>)
        ensures
            r is Ok <==> self.seen > 0,
            r matches Err(e) ==> e@ == topic@
                + " から状態が来ていません。ブリッジが動いているか、トピック名と QoS を確認してください"@,
    {
        if self.seen > 0 {
            return Ok(());
        }
        let mut out: String = topic.to_owned();
        out.append(" から状態が来ていません。ブリッジが動いているか、トピック名と QoS を確認してください");
        Err(out)
    }

    /// The counts in words, without the percentage.
    pub fn line(&self) -> (r: String)
        ensures
            r@ == text::decimal(self.ticks as nat) + " 周期のうち "@ + text::decimal(
                self.seen as nat,
            ) + " 周期で全軸の状態が揃いました"@,
    {
        let mut out: String = String::new();
        push_decimal(&mut out, self.ticks);
        out.append(" 周期のうち ");
        push_decimal(&mut out, self.seen);
        out.append(" 周期で全軸の状態が揃いました");
        assert(out@ == text::decimal(self.ticks as nat) + " 周期のうち "@ + text::decimal(
            self.seen as nat,
        ) + " 周期で全軸の状態が揃いました"@);
        out
    }
}

/// A limp command carries no force: neither torque nor gains.
pub proof fn limp_motors_get_no_force(c: AxisCommand)
    requires
        c.mode is Idle,
    ensures
        motor_spec(c).joint_tau == Scalar::zero_spec(),
        motor_spec(c).kp == Scalar::zero_spec(),
        motor_spec(c).kd == Scalar::zero_spec(),
{
}

/// Each axis gets the reading that the index gives for it, and no other.
pub proof fn each_axis_gets_its_own_reading(
    axes: Seq<AxisState>,
    index: Seq<Option<usize>>,
    states: Seq<MotorState>,
    age: Span,
    n: int,
)
    requires
        0 <= n <= index.len(),
        n <= axis::AXIS_CAPACITY,
    ensures
        received(axes, index, states, age, n).len() == axes.len(),
        forall|i: int|
            0 <= i < axes.len() ==> #[trigger] received(axes, index, states, age, n)[i] == (if i
                < n {
                axis_after(axes[i], reading(states, index[i]), age)
            } else {
                axes[i]
            }),
    decreases n,
{
    if n > 0 {
        each_axis_gets_its_own_reading(axes, index, states, age, n - 1);
        assert(axis::id_at(n - 1).0 == n - 1);
    }
}

/// The order in which the other side lists its joints does not matter: with the
/// names unique on both sides, an axis gets the reading under its own name.
pub proof fn readings_follow_the_name(
    table: Seq<axis::Axis>,
    index: JointIndex,
    names: Seq<String>,
    i: int,
    j: int,
)
    requires
        index.maps(table, names),
        0 <= i < table.len(),
        0 <= j < names.len() <= usize::MAX,
        names[j]@ == table[i].name@,
        forall|a: int, b: int|
            0 <= a < b < names.len() ==> (#[trigger] names[a])@ != (#[trigger] names[b])@,
    ensures
        index.index@[i] == Some(j as usize),
{
    assert(place_of(names, table[i].name@, index.index@[i]));
    match index.index@[i] {
        Some(k) => {
            if k < j {
                assert(names[k as int]@ != names[j]@);
            } else if j < k {
                assert(names[j]@ != table[i].name@);
            }
        },
        None => {
            assert(names[j]@ != table[i].name@);
        },
    }
}

/// A driven motor gets the asked angle, torque and gains, and is to be at rest
/// there. The mode goes along for the log.
pub proof fn a_driven_motor_gets_what_is_asked(c: AxisCommand)
    ensures
        ({
            let m = motor_spec(c);
            &&& m.joint_angle == c.position_rad
            &&& m.joint_angular_velocity == Scalar::zero_spec()
            &&& m.control_mode == c.mode.number_spec()
            &&& c.mode != ControlMode::Idle ==> m.joint_tau == c.torque_ff_nm && m.kp == c.kp_nm_per_rad
                && m.kd == c.kd_nm_s_per_rad
        }),
{
}

/// Each axis is asked for its own command, and one that the command leaves out is
/// limp.
pub proof fn each_axis_is_asked_for_its_own(cmd: Seq<AxisCommand>, i: int)
    requires
        0 <= i < axis::AXIS_CAPACITY,
    ensures
        i < cmd.len() ==> asked(cmd, i) == cmd[i],
        i >= cmd.len() ==> asked(cmd, i).mode == ControlMode::Idle,
{
}

/// A reading is shown with its age and counts as read; what the motor does not
/// report is unknown. An axis without a reading is unread and keeps its values.
pub proof fn an_axis_shows_its_reading(before: AxisState, m: MotorState, age: Span)
    ensures
        ({
            let a = axis_after(before, Some(m), age);
            let b = axis_after(before, None, age);
            &&& a.position_rad == m.joint_angle
            &&& a.velocity_rad_s == m.joint_angular_velocity
            &&& a.torque_nm == (if m.motor_output_torque_valid { Some(m.motor_output_torque) } else {
                None
            })
            &&& a.health.valid
            &&& a.health.age == age
            &&& a.health.fault_raw == m.motor_error
            &&& a.health.temperature_c == (if m.motor_temperature_valid { Some(m.motor_temperature) } else {
                None
            })
            &&& a.health.voltage_v is None
            &&& !b.health.valid
            &&& b.position_rad == before.position_rad
            &&& b.velocity_rad_s == before.velocity_rad_s
            &&& b.torque_nm == before.torque_nm
            &&& b.health.age == before.health.age
            &&& b.health.fault_raw == before.health.fault_raw
        }),
{
}

/// The missing axes are those without a place, in the order of the axes.
pub proof fn only_axes_without_a_place_are_missing(
    axes: Seq<axis::Axis>,
    index: Seq<Option<usize>>,
    n: int,
)
    requires
        0 <= n <= axes.len(),
        n <= index.len(),
    ensures
        missing_upto(axes, index, n).len() == 0 <==> forall|i: int|
            0 <= i < n ==> (#[trigger] index[i]) is Some,
        forall|i: int|
            0 <= i < n && (#[trigger] index[i]) is None ==> missing_upto(axes, index, n).contains(
                axes[i].name@,
            ),
        forall|k: int|
            0 <= k < missing_upto(axes, index, n).len() ==> exists|i: int|
                0 <= i < n && index[i] is None && (#[trigger] axes[i]).name@ == #[trigger] missing_upto(
                    axes,
                    index,
                    n,
                )[k],
    decreases n,
{
    if n > 0 {
        only_axes_without_a_place_are_missing(axes, index, n - 1);
        let shorter = missing_upto(axes, index, n - 1);
        let all = missing_upto(axes, index, n);
        assert forall|i: int| 0 <= i < n && (#[trigger] index[i]) is None implies all.contains(
            axes[i].name@,
        ) by {
            if i == n - 1 {
                assert(all[all.len() - 1] == axes[i].name@);
            } else {
                assert(shorter.contains(axes[i].name@));
                let k = choose|k: int| 0 <= k < shorter.len() && shorter[k] == axes[i].name@;
                assert(all[k] == shorter[k]);
            }
        }
        assert forall|k: int| 0 <= k < all.len() implies exists|i: int|
            0 <= i < n && index[i] is None && (#[trigger] axes[i]).name@ == #[trigger] all[k] by {
            if k < shorter.len() {
                let i = choose|i: int|
                    0 <= i < n - 1 && index[i] is None && (#[trigger] axes[i]).name@ == shorter[k];
                assert(axes[i].name@ == all[k]);
            } else {
                assert(axes[n - 1].name@ == all[k]);
            }
        }
        if index[n - 1] is None {
            assert(all.len() > 0);
        }
    }
}

/// A place is inside the list, holds the name and is the first to do so; without
/// a place the name is nowhere.
pub proof fn a_place_is_the_first_of_its_name(names: Seq<String>, name: Seq<char>, p: Option<usize>, k: int)
    requires
        place_of(names, name, p),
        0 <= k < names.len(),
        names[k]@ == name,
    ensures
        p matches Some(j) && j <= k && j < names.len() && names[j as int]@ == name,
{
}

/// Making the index anew is reported when the missing axes are others than
/// before, and only then. What is reported is what is missing now.
pub proof fn only_a_change_of_the_missing_is_reported(
    before: JointIndex,
    after: JointIndex,
    axes: Seq<axis::Axis>,
    names: Seq<String>,
    r: IndexReport,
)
    requires
        reindexed(before, after, axes, names, r),
    ensures
        ({
            let missing = missing_upto(axes, after.index@, axes.len() as int);
            &&& before.reported is None && missing.len() == 0 ==> r is AllFound
            &&& before.reported is None && missing.len() > 0 ==> r is Missing
            &&& r is AllFound ==> missing.len() == 0
            &&& r matches IndexReport::Missing(v) ==> v@.len() == missing.len() && missing.len() > 0
            &&& before.reported matches Some(v) ==> (r is Quiet <==> text::words(v@) == missing)
            &&& after.reported matches Some(v) && text::words(v@) == missing
            &&& text::words(after.index_for@) == text::words(names)
        }),
        forall|i: int|
            0 <= i < axes.len() ==> place_of(names, (#[trigger] axes[i]).name@, after.index@[i]),
{
    let missing = missing_upto(axes, after.index@, axes.len() as int);
    if let IndexReport::Missing(v) = r {
        assert(text::words(v@).len() == v@.len());
    }
    assert forall|i: int| 0 <= i < axes.len() implies place_of(
        names,
        (#[trigger] axes[i]).name@,
        after.index@[i],
    ) by {
        assert(after.maps(axes, names));
    }
}

/// A reading is the one at the given place. A place beyond the readings has none,
/// and neither has an axis without a place.
pub proof fn a_reading_is_the_one_at_its_place(states: Seq<MotorState>, j: usize)
    ensures
        j < states.len() ==> reading(states, Some(j)) == Some(states[j as int]),
        j >= states.len() ==> reading(states, Some(j)) is None,
        reading(states, None) is None,
{
}

} // verus!
