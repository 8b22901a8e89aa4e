//! Running the upgrade inside one box.

use vstd::prelude::*;
use vstd::string::*;
use crate::invocation::{guest_command, Invocation, InvocationModel, Vagrant};
use crate::power::{power_down_call, power_up_call, TemporaryPowerOn};
use crate::vagrant_box::{display_name, has_display_name, BoxModel, VagrantBox};

verus! {

/// The fleet-wide settings that bear on one run.
#[derive(Debug, Clone, Copy, PartialEq, Eq, Structural)]
pub struct Policy {
    /// Whether a box at rest may be brought up.
    pub power_on: bool,
    /// Whether a box is always suspended afterwards, however it was found.
    pub always_suspend: bool,
    /// Whether the in-guest upgrade confirms by itself.
    pub yes: bool,
}

impl Policy {
    /// The policy that the settings give: a box may be brought up unless the
    /// settings say no, and is always suspended only where they say so.
    pub fn from_settings(power_on: Option<bool>, always_suspend: Option<bool>, yes: bool) -> (r:
        Policy)
        ensures
            r.power_on == (power_on != Some(false)),
            r.always_suspend == (always_suspend == Some(true)),
            r.yes == yes,
    {
        let power_on = match power_on {
            Some(v) => v,
            None => true,
        };
        let always_suspend = match always_suspend {
            Some(v) => v,
            None => false,
        };
        Policy { power_on, always_suspend, yes }
    }
}

/// Why a run failed.
#[derive(Debug, Clone, Copy, PartialEq, Eq, Structural)]
pub enum RunError {
    /// The tool is not installed.
    ToolMissing,
    /// The box could not be brought up; nothing was run in it.
    PowerUpFailed,
    /// The in-guest command failed.
    GuestFailed,
}

/// What to do next for a box, or how its run ended.
#[derive(Debug)]
pub enum RunStep {
    /// Make this invocation and come back with its result. The first
    /// invocation of a run comes with the heading to show before it.
    Execute(Invocation, Option<String>),
    /// Nothing was done, on purpose: the box named here is at rest and may
    /// not be brought up.
    Skipped(String),
    /// The in-guest command succeeded.
    Completed,
    Failed(RunError),
}

pub enum RunStepModel {
    Execute(InvocationModel, Option<Seq<char>>),
    Skipped(Seq<char>),
    Completed,
    Failed(RunError),
}

impl View for RunStep {
    type V = RunStepModel;

    open spec fn view(&self) -> RunStepModel {
        match self {
            RunStep::Execute(i, heading) => RunStepModel::Execute(
                i@,
                match heading {
                    Some(h) => Some(h@),
                    None => None,
                },
            ),
            RunStep::Skipped(name) => RunStepModel::Skipped(name@),
            RunStep::Completed => RunStepModel::Completed,
            RunStep::Failed(e) => RunStepModel::Failed(*e),
        }
    }
}

/// The command to run inside the box.
pub open spec fn guest_text(b: BoxModel, yes: bool) -> Seq<char>
    recommends
        has_display_name(b),
{
    "env TOPGRADE_PREFIX="@ + display_name(b) + " topgrade"@ + if yes {
        " -y"@
    } else {
        Seq::<char>::empty()
    }
}

/// The invocation that runs the upgrade inside the box.
pub open spec fn guest_call(tool: Seq<char>, b: BoxModel, yes: bool) -> InvocationModel
    recommends
        has_display_name(b),
{
    guest_command(tool, guest_text(b, yes), b.path)
}

/// The heading under which a run is shown.
pub open spec fn title_text(b: BoxModel) -> Seq<char>
    recommends
        has_display_name(b),
{
    "Vagrant ("@ + display_name(b) + ")"@
}

/// How a run goes on after the in-guest command returned `guest_ok`.
pub open spec fn outcome(guest_ok: bool) -> RunStepModel {
    if guest_ok {
        RunStepModel::Completed
    } else {
        RunStepModel::Failed(RunError::GuestFailed)
    }
}

/// The next step of a run, given whether each invocation made so far
/// succeeded. A running box gets the in-guest command and nothing else. A box
/// at rest is skipped where the policy forbids bringing it up; otherwise it is
/// brought up, and if that succeeded the in-guest command is run and the box
/// is put back, whatever the command returned. The heading is shown once,
/// before the first invocation, and never for a box that is skipped.
pub open spec fn next_step(
    tool: Option<Seq<char>>,
    policy: Policy,
    b: BoxModel,
    results: Seq<bool>,
) -> RunStepModel
    recommends
        has_display_name(b),
{
    match tool {
        None => RunStepModel::Failed(RunError::ToolMissing),
        Some(t) => if b.status.is_powered_on() {
            if results.len() == 0 {
                RunStepModel::Execute(guest_call(t, b, policy.yes), Some(title_text(b)))
            } else {
                outcome(results[0])
            }
        } else if !policy.power_on {
            RunStepModel::Skipped(display_name(b))
        } else if results.len() == 0 {
            RunStepModel::Execute(power_up_call(t, b), Some(title_text(b)))
        } else if !results[0] {
            RunStepModel::Failed(RunError::PowerUpFailed)
        } else if results.len() == 1 {
            RunStepModel::Execute(guest_call(t, b, policy.yes), None)
        } else if results.len() == 2 {
            RunStepModel::Execute(power_down_call(t, b, policy.always_suspend), None)
        } else {
            outcome(results[1])
        },
    }
}

/// The view of a tool's path, where there is one.
pub open spec fn tool_view(tool: Option<&str>) -> Option<Seq<char>> {
    match tool {
        Some(t) => Some(t@),
        None => None,
    }
}

/// The heading under which the run of a box is shown.
pub fn run_title(vagrant_box: &VagrantBox) -> (r: String)
    requires
        has_display_name(vagrant_box@),
    ensures
        r@ == title_text(vagrant_box@),
{
    String::from_str("Vagrant (").concat(vagrant_box.smart_name()).concat(")")
}

/// The command to run inside the box: the upgrade, told the box's name, and
/// told to confirm by itself where the policy says so.
pub fn guest_command_text(vagrant_box: &VagrantBox, yes: bool) -> (r: String)
    requires
        has_display_name(vagrant_box@),
    ensures
        r@ == guest_text(vagrant_box@, yes),
{
    let mut command = String::from_str("env TOPGRADE_PREFIX=").concat(
        vagrant_box.smart_name(),
    ).concat(" topgrade");
    if yes {
        command.append(" -y");
    } else {
        assert(command@ + Seq::<char>::empty() =~= command@);
    }
    command
}

fn finish(guest_ok: bool) -> (r: RunStep)
    ensures
        r@ == outcome(guest_ok),
{
    if guest_ok {
        RunStep::Completed
    } else {
        RunStep::Failed(RunError::GuestFailed)
    }
}

/// The next step of the run of one box. `tool` is the tool's executable, if
/// it is installed; `results` says of each invocation made so far for this
/// run whether it succeeded, in the order in which they were asked for.
pub fn topgrade_vagrant_box(
    tool: Option<&str>,
    policy: &Policy,
    vagrant_box: &VagrantBox,
    results: &Vec<bool>,
) -> (step: RunStep)
    requires
        has_display_name(vagrant_box@),
    ensures
        step@ == next_step(tool_view(tool), *policy, vagrant_box@, results@),
{
    let vagrant = match tool {
        Some(path) => Vagrant::new(path),
        None => {
            return RunStep::Failed(RunError::ToolMissing);
        },
    };
    let command = guest_command_text(vagrant_box, policy.yes);
    if vagrant_box.initial_status().powered_on() {
        if results.len() == 0 {
            return RunStep::Execute(
                vagrant.ssh(command.as_str(), vagrant_box.path()),
                Some(run_title(vagrant_box)),
            );
        }
        return finish(results[0]);
    }
    if !policy.power_on {
        return RunStep::Skipped(String::from_str(vagrant_box.smart_name()));
    }
    if results.len() == 0 {
        return RunStep::Execute(
            TemporaryPowerOn::power_up(&vagrant, vagrant_box),
            Some(run_title(vagrant_box)),
        );
    }
    let powered = TemporaryPowerOn::create(
        &vagrant,
        vagrant_box,
        policy.always_suspend,
        results[0],
    );
    match powered {
        None => RunStep::Failed(RunError::PowerUpFailed),
        Some(guard) => {
            if results.len() == 1 {
                RunStep::Execute(vagrant.ssh(command.as_str(), vagrant_box.path()), None)
            } else if results.len() == 2 {
                RunStep::Execute(guard.release(), None)
            } else {
                finish(results[1])
            }
        },
    }
}

} // verus!
