//! What one control period asks of the axes.

use vstd::prelude::*;

use crate::axis::AxisId;
use crate::scalar::Scalar;

verus! {

/// How an axis is driven.
#[derive(Clone, Copy, Debug, PartialEq, Eq, Structural)]
pub enum ControlMode {
    /// Limp. The target is kept but not followed.
    Idle,
    Position,
    Velocity,
    Torque,
    Impedance,
}

impl ControlMode {
    /// The mode's name as diagnostics write it.
    pub open spec fn name_spec(self) -> Seq<char> {
        match self {
            ControlMode::Idle => "Idle"@,
            ControlMode::Position => "Position"@,
            ControlMode::Velocity => "Velocity"@,
            ControlMode::Torque => "Torque"@,
            ControlMode::Impedance => "Impedance"@,
        }
    }

    pub fn name(self) -> (r: &'static str)
        ensures
            r@ == self.name_spec(),
    {
        match self {
            ControlMode::Idle => "Idle",
            ControlMode::Position => "Position",
            ControlMode::Velocity => "Velocity",
            ControlMode::Torque => "Torque",
            ControlMode::Impedance => "Impedance",
        }
    }

    /// The mode's number: its place in the declaration.
    pub open spec fn number_spec(self) -> int {
        match self {
            ControlMode::Idle => 0,
            ControlMode::Position => 1,
            ControlMode::Velocity => 2,
            ControlMode::Torque => 3,
            ControlMode::Impedance => 4,
        }
    }

    pub fn number(self) -> (r: u8)
        ensures
            r == self.number_spec(),
    {
        match self {
            ControlMode::Idle => 0,
            ControlMode::Position => 1,
            ControlMode::Velocity => 2,
            ControlMode::Torque => 3,
            ControlMode::Impedance => 4,
        }
    }
}

impl Default for ControlMode {
    fn default() -> (r: ControlMode)
        ensures
            r is Idle,
    {
        ControlMode::Idle
    }
}

/// The command to one axis.
#[derive(Clone, Copy, Debug, PartialEq, Eq, Structural)]
pub struct AxisCommand {
    pub mode: ControlMode,
    pub position_rad: Scalar,
    pub velocity_rad_s: Scalar,
    pub torque_ff_nm: Scalar,
    pub kp_nm_per_rad: Scalar,
    pub kd_nm_s_per_rad: Scalar,
}

impl AxisCommand {
    pub open spec fn idle_spec() -> AxisCommand {
        AxisCommand {
            mode: ControlMode::Idle,
            position_rad: Scalar::zero_spec(),
            velocity_rad_s: Scalar::zero_spec(),
            torque_ff_nm: Scalar::zero_spec(),
            kp_nm_per_rad: Scalar::zero_spec(),
            kd_nm_s_per_rad: Scalar::zero_spec(),
        }
    }

    pub fn idle() -> (r: AxisCommand)
        ensures
            r == Self::idle_spec(),
    {
        AxisCommand {
            mode: ControlMode::Idle,
            position_rad: Scalar::zero(),
            velocity_rad_s: Scalar::zero(),
            torque_ff_nm: Scalar::zero(),
            kp_nm_per_rad: Scalar::zero(),
            kd_nm_s_per_rad: Scalar::zero(),
        }
    }

    /// A position command with a speed limit beside it.
    pub fn position(position_rad: Scalar, max_speed_rad_s: Scalar) -> (r: AxisCommand)
        ensures
            r == (AxisCommand {
                mode: ControlMode::Position,
                position_rad,
                velocity_rad_s: max_speed_rad_s,
                ..Self::idle_spec()
            }),
    {
        AxisCommand {
            mode: ControlMode::Position,
            position_rad,
            velocity_rad_s: max_speed_rad_s,
            ..Self::idle()
        }
    }
}

impl Default for AxisCommand {
    fn default() -> (r: AxisCommand)
        ensures
            r == AxisCommand::idle_spec(),
    {
        AxisCommand::idle()
    }
}

/// One command per axis, in the order of the axis table.
#[derive(Clone, Debug, PartialEq, Eq)]
pub struct Command {
    pub axes: Vec<AxisCommand>,
}

impl View for Command {
    type V = Seq<AxisCommand>;

    open spec fn view(&self) -> Seq<AxisCommand> {
        self.axes@
    }
}

impl Command {
    /// A command that leaves all `n` axes limp.
    pub fn idle(n: usize) -> (r: Command)
        ensures
            r@ == Seq::new(n as nat, |i: int| AxisCommand::idle_spec()),
    {
        let mut axes: Vec<AxisCommand> = Vec::new();
        let mut i: usize = 0;
        while i < n
            invariant
                i <= n,
                axes@ == Seq::new(i as nat, |k: int| AxisCommand::idle_spec()),
            decreases n - i,
        {
            axes.push(AxisCommand::idle());
            i += 1;
        }
        Command { axes }
    }

    pub fn len(&self) -> (r: usize)
        ensures
            r == self@.len(),
    {
        self.axes.len()
    }

    pub fn is_empty(&self) -> (r: bool)
        ensures
            r == (self@.len() == 0),
    {
        self.axes.len() == 0
    }

    pub fn axes(&self) -> (r: &[AxisCommand])
        ensures
            r@ == self@,
    {
        self.axes.as_slice()
    }

    pub fn get(&self, id: AxisId) -> (r: Option<&AxisCommand>)
        ensures
            id.0 < self@.len() ==> r == Some(&self@[id.0 as int]),
            id.0 >= self@.len() ==> r is None,
    {
        if id.index() < self.axes.len() {
            Some(&self.axes[id.index()])
        } else {
            None
        }
    }

    pub fn get_mut(&mut self, id: AxisId) -> (r: Option<&mut AxisCommand>)
        ensures
            match r {
                Some(a) => {
                    &&& id.0 < old(self)@.len()
                    &&& *a == old(self)@[id.0 as int]
                    &&& final(self)@ == old(self)@.update(id.0 as int, *final(a))
                },
                None => id.0 >= old(self)@.len() && *final(self) == *old(self),
            },
    {
        if id.index() < self.axes.len() {
            Some(&mut self.axes[id.index()])
        } else {
            None
        }
    }

    /// Makes every axis limp. The targets stay as they were.
    pub fn relax_all(&mut self)
        ensures
            final(self)@ == old(self)@.map_values(
                |a: AxisCommand| AxisCommand { mode: ControlMode::Idle, ..a },
            ),
    {
        let ghost before = self@;
        let mut i: usize = 0;
        while i < self.axes.len()
            invariant
                i <= self@.len(),
                self@.len() == before.len(),
                forall|k: int|
                    0 <= k < i ==> #[trigger] self@[k] == (AxisCommand {
                        mode: ControlMode::Idle,
                        ..before[k]
                    }),
                forall|k: int| i <= k < before.len() ==> self@[k] == before[k],
            decreases self@.len() - i,
        {
            let a: AxisCommand = self.axes[i];
            self.axes[i] = AxisCommand { mode: ControlMode::Idle, ..a };
            i += 1;
        }
    }
}

impl Default for Command {
    fn default() -> (r: Command)
        ensures
            r@.len() == 0,
    {
        Command { axes: Vec::new() }
    }
}

/// No two modes share a number or a name, and the numbers count the modes from
/// limp through position, velocity and torque to impedance.
pub proof fn modes_are_told_apart(a: ControlMode, b: ControlMode)
    ensures
        a.number_spec() == b.number_spec() <==> a == b,
        a.name_spec() == b.name_spec() <==> a == b,
        0 <= a.number_spec() <= 4,
        a is Idle <==> a.number_spec() == 0,
        a is Position ==> a.number_spec() == 1 && a.name_spec()[0] == 'P',
        a is Velocity ==> a.number_spec() == 2 && a.name_spec()[0] == 'V',
        a is Torque ==> a.number_spec() == 3 && a.name_spec()[0] == 'T',
        a is Impedance ==> a.number_spec() == 4 && a.name_spec()[1] == 'm',
        a is Idle ==> a.name_spec()[1] == 'd',
{
    reveal_strlit("Idle");
    reveal_strlit("Position");
    reveal_strlit("Velocity");
    reveal_strlit("Torque");
    reveal_strlit("Impedance");
    assert("Idle"@.len() == 4 && "Idle"@[1] == 'd');
    assert("Position"@.len() == 8 && "Position"@[0] == 'P');
    assert("Velocity"@.len() == 8 && "Velocity"@[0] == 'V');
    assert("Torque"@.len() == 6 && "Torque"@[0] == 'T');
    assert("Impedance"@.len() == 9 && "Impedance"@[1] == 'm');
}

/// The limp command asks for nothing: every one of its numbers is zero.
pub proof fn a_limp_command_asks_for_nothing()
    ensures
        AxisCommand::idle_spec().mode is Idle,
        AxisCommand::idle_spec().position_rad.is_zero_num(),
        AxisCommand::idle_spec().velocity_rad_s.is_zero_num(),
        AxisCommand::idle_spec().torque_ff_nm.is_zero_num(),
        AxisCommand::idle_spec().kp_nm_per_rad.is_zero_num(),
        AxisCommand::idle_spec().kd_nm_s_per_rad.is_zero_num(),
{
}

} // verus!
