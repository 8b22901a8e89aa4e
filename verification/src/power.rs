//! The right to run a command in a box that was found at rest.

use vstd::prelude::*;
use crate::invocation::{power_transition, Invocation, InvocationModel, Vagrant};
use crate::vagrant_box::{BoxModel, VagrantBox};

verus! {

/// The invocation that brings a box at rest up.
pub open spec fn power_up_call(tool: Seq<char>, b: BoxModel) -> InvocationModel
    recommends
        !b.status.is_powered_on(),
{
    power_transition(tool, b.status.power_up_word(), b.name, b.path)
}

/// The invocation that puts a box back to rest.
pub open spec fn power_down_call(tool: Seq<char>, b: BoxModel, always_suspend: bool) -> InvocationModel
    recommends
        !b.status.is_powered_on(),
{
    power_transition(tool, b.status.power_down_word(always_suspend), b.name, b.path)
}

/// Held while a box that was found at rest is up. There is one only where the
/// power-up succeeded, and the only way to be rid of it is `release`, which
/// hands out the invocation that puts the box back.
pub struct TemporaryPowerOn<'a> {
    vagrant: &'a Vagrant,
    vagrant_box: &'a VagrantBox,
    always_suspend: bool,
}

impl<'a> TemporaryPowerOn<'a> {
    pub closed spec fn tool(&self) -> Seq<char> {
        self.vagrant.path@
    }

    pub closed spec fn guarded(&self) -> BoxModel {
        self.vagrant_box@
    }

    pub closed spec fn suspends(&self) -> bool {
        self.always_suspend
    }

    /// The invocation to make before `create`.
    pub fn power_up(vagrant: &Vagrant, vagrant_box: &VagrantBox) -> (r: Invocation)
        requires
            !vagrant_box@.status.is_powered_on(),
        ensures
            r@ == power_up_call(vagrant.path@, vagrant_box@),
    {
        let subcommand = vagrant_box.initial_status().power_up_subcommand();
        vagrant.power(subcommand, vagrant_box.name(), vagrant_box.path())
    }

    /// The guard for a box whose power-up was attempted: there is one exactly
    /// where the attempt succeeded.
    pub fn create(
        vagrant: &'a Vagrant,
        vagrant_box: &'a VagrantBox,
        always_suspend: bool,
        powered_up: bool,
    ) -> (r: Option<TemporaryPowerOn<'a>>)
        requires
            !vagrant_box@.status.is_powered_on(),
        ensures
            r is Some <==> powered_up,
            r is Some ==> r.unwrap().tool() == vagrant.path@ && r.unwrap().guarded() == vagrant_box@
                && r.unwrap().suspends() == always_suspend && !r.unwrap().guarded().status.is_powered_on(),
    {
        if powered_up {
            Some(TemporaryPowerOn { vagrant, vagrant_box, always_suspend })
        } else {
            None
        }
    }

    /// Ends the guard and hands out the invocation that restores the box:
    /// `suspend` where the policy says so or the box was suspended, `halt`
    /// otherwise.
    pub fn release(self) -> (r: Invocation)
        requires
            !self.guarded().status.is_powered_on(),
        ensures
            r@ == power_down_call(self.tool(), self.guarded(), self.suspends()),
    {
        let subcommand = self.vagrant_box.initial_status().power_down_subcommand(
            self.always_suspend,
        );
        self.vagrant.power(subcommand, self.vagrant_box.name(), self.vagrant_box.path())
    }
}

} // verus!
