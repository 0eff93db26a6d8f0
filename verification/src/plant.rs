//! What a robot can be asked to do.

use vstd::prelude::*;
use vstd::string::*;

use crate::axis::{AxisId, AxisTable};
use crate::command::{AxisCommand, Command, ControlMode};
use crate::observation::Observation;
use crate::scalar::Scalar;
use crate::text;
use crate::text::{push_decimal, push_hexadecimal};

verus! {

/// What a plant offers.
#[derive(Clone, Debug, PartialEq, Eq)]
pub struct PlantCaps {
    pub modes: Vec<ControlMode>,
    pub has_imu: bool,
    pub has_contacts: bool,
    /// Which axes follow our commands.
    pub driven: Vec<bool>,
}

impl PlantCaps {
    pub open spec fn accepts_spec(&self, mode: ControlMode) -> bool {
        mode is Idle || self.modes@.contains(mode)
    }

    pub open spec fn drives(&self, i: int) -> bool {
        0 <= i < self.driven@.len() && self.driven@[i]
    }

    /// Axis `i` is asked for a mode that the plant does not have.
    pub open spec fn unknown_mode(&self, axes: Seq<AxisCommand>, i: int) -> bool {
        !self.accepts_spec(axes[i].mode)
    }

    /// Axis `i` is commanded although it does not follow commands.
    pub open spec fn undriven(&self, axes: Seq<AxisCommand>, i: int) -> bool {
        !(axes[i].mode is Idle) && !self.drives(i)
    }

    pub open spec fn acceptable(&self, axes: Seq<AxisCommand>, i: int) -> bool {
        !self.unknown_mode(axes, i) && !self.undriven(axes, i)
    }

    /// The complaint about axis `i`.
    pub open spec fn complaint(&self, axes: Seq<AxisCommand>, i: int) -> Seq<char> {
        if self.unknown_mode(axes, i) {
            "軸 "@ + text::decimal(i as nat) + " の "@ + axes[i].mode.name_spec()
                + " をこの Plant は受け付けません"@
        } else {
            "軸 "@ + text::decimal(i as nat) + " はこちらの指令では動きません"@
        }
    }

    /// Going limp is always possible; other modes are when they are listed.
    pub fn accepts(&self, mode: ControlMode) -> (r: bool)
        ensures
            r == self.accepts_spec(mode),
    {
        if mode == ControlMode::Idle {
            return true;
        }
        let mut i: usize = 0;
        while i < self.modes.len()
            invariant
                i <= self.modes@.len(),
                forall|k: int| 0 <= k < i ==> self.modes@[k] != mode,
            decreases self.modes@.len() - i,
        {
            if self.modes[i] == mode {
                return true;
            }
            i += 1;
        }
        false
    }

    /// Refuses a command that asks for what the plant cannot do, naming the
    /// first axis concerned.
    pub fn check(&self, cmd: &Command) -> (r: Result<(), String>)
        ensures
            r is Ok <==> forall|i: int| 0 <= i < cmd@.len() ==> #[trigger] self.acceptable(cmd@, i),
            r matches Err(e) ==> exists|i: int|
                {
                    &&& 0 <= i < cmd@.len()
                    &&& !#[trigger] self.acceptable(cmd@, i)
                    &&& forall|k: int| 0 <= k < i ==> #[trigger] self.acceptable(cmd@, k)
                    &&& e@ == self.complaint(cmd@, i)
                },
    {
        let mut i: usize = 0;
        while i < cmd.axes.len()
            invariant
                i <= cmd@.len(),
                forall|k: int| 0 <= k < i ==> #[trigger] self.acceptable(cmd@, k),
            decreases cmd@.len() - i,
        {
            let mode: ControlMode = cmd.axes[i].mode;
            if !self.accepts(mode) {
                let mut message: String = "軸 ".to_owned();
                push_decimal(&mut message, i as u64);
                message.append(" の ");
                message.append(mode.name());
                message.append(" をこの Plant は受け付けません");
                proof {
                    assert(!self.acceptable(cmd@, i as int));
                    assert(message@ == self.complaint(cmd@, i as int));
                }
                return Err(message);
            }
            let driven: bool = i < self.driven.len() && self.driven[i];
            if mode != ControlMode::Idle && !driven {
                let mut message: String = "軸 ".to_owned();
                push_decimal(&mut message, i as u64);
                message.append(" はこちらの指令では動きません");
                proof {
                    assert(!self.acceptable(cmd@, i as int));
                    assert(message@ == self.complaint(cmd@, i as int));
                }
                return Err(message);
            }
            assert(self.acceptable(cmd@, i as int));
            i += 1;
        }
        Ok(())
    }
}

/// A fault as it is shown where nobody knows its bits: all eight digits.
pub fn raw_fault(raw: u32) -> (r: String)
    ensures
        r@ == "0x"@ + text::hexadecimal(raw as nat, 8),
{
    let mut out: String = "0x".to_owned();
    push_hexadecimal(&mut out, raw, 8);
    out
}

/// A robot, real or simulated: commands go in, observations come out.
pub trait Plant {
    fn axes(&self) -> &AxisTable;

    fn capabilities(&self) -> &PlantCaps;

    /// Powers the motors.
    fn arm(&mut self) -> Result<(), String>;

    /// Cuts their power.
    fn disarm(&mut self) -> Result<(), String>;

    /// Tells the plant where an axis is that others drive.
    fn observe_aux(&mut self, axis: AxisId, value_rad: Scalar) {
    }

    /// What only the plant knows about itself, in a line.
    fn status_line(&self) -> (r: String)
        default_ensures
            r@.len() == 0,
    {
        String::new()
    }

    /// The fault bits in words.
    fn describe_fault(&self, raw: u32) -> (r: String)
        default_ensures
            r@ == "0x"@ + text::hexadecimal(raw as nat, 8),
    {
        raw_fault(raw)
    }

    /// One period: the commands are sent, and the observation is renewed.
    fn exchange(&mut self, cmd: &Command, obs: &mut Observation) -> Result<(), String>;
}

impl Default for PlantCaps {
    fn default() -> (r: PlantCaps)
        ensures
            r.modes@.len() == 0,
            !r.has_imu,
            !r.has_contacts,
            r.driven@.len() == 0,
    {
        PlantCaps { modes: Vec::new(), has_imu: false, has_contacts: false, driven: Vec::new() }
    }
}

/// A command that relaxes every axis is accepted by every plant.
pub proof fn a_limp_command_is_always_accepted(caps: PlantCaps, axes: Seq<AxisCommand>)
    requires
        forall|i: int| 0 <= i < axes.len() ==> (#[trigger] axes[i]).mode is Idle,
    ensures
        forall|i: int| 0 <= i < axes.len() ==> #[trigger] caps.acceptable(axes, i),
{
}

/// A command to an axis is acceptable exactly when the axis is to be limp, or the
/// plant has the mode and drives the axis.
pub proof fn what_a_plant_accepts(caps: PlantCaps, axes: Seq<AxisCommand>, i: int)
    requires
        0 <= i < axes.len(),
    ensures
        caps.acceptable(axes, i) <==> axes[i].mode == ControlMode::Idle || (caps.modes@.contains(
            axes[i].mode,
        ) && i < caps.driven@.len() && caps.driven@[i]),
        caps.accepts_spec(axes[i].mode) <==> axes[i].mode == ControlMode::Idle || caps.modes@.contains(
            axes[i].mode,
        ),
        caps.drives(i) <==> i < caps.driven@.len() && caps.driven@[i],
{
}

} // verus!
