//! The power state in which a box was found.

use vstd::prelude::*;
use crate::text::{eq_ignore_case, same_ignoring_case};

verus! {

/// The power state of a box as the status listing reported it.
#[derive(Debug, Clone, Copy, PartialEq, Eq, Structural)]
pub enum BoxStatus {
    PowerOff,
    Running,
    Saved,
    Aborted,
}

/// The status that a keyword of the listing stands for, whatever the case of
/// its letters.
pub open spec fn status_of_keyword(word: Seq<char>) -> Option<BoxStatus> {
    if eq_ignore_case(word, "poweroff"@) {
        Some(BoxStatus::PowerOff)
    } else if eq_ignore_case(word, "running"@) {
        Some(BoxStatus::Running)
    } else if eq_ignore_case(word, "saved"@) {
        Some(BoxStatus::Saved)
    } else if eq_ignore_case(word, "aborted"@) {
        Some(BoxStatus::Aborted)
    } else {
        None
    }
}

impl BoxStatus {
    /// Only a running box counts as powered on.
    pub open spec fn is_powered_on(self) -> bool {
        self == BoxStatus::Running
    }

    /// The subcommand that brings a box in this state up.
    pub open spec fn power_up_word(self) -> Seq<char>
        recommends
            !self.is_powered_on(),
    {
        if self == BoxStatus::Saved {
            "resume"@
        } else {
            "up"@
        }
    }

    /// The subcommand that puts a box found in this state back to rest.
    pub open spec fn power_down_word(self, always_suspend: bool) -> Seq<char>
        recommends
            !self.is_powered_on(),
    {
        if always_suspend || self == BoxStatus::Saved {
            "suspend"@
        } else {
            "halt"@
        }
    }

    pub fn powered_on(self) -> (r: bool)
        ensures
            r == self.is_powered_on(),
    {
        match self {
            BoxStatus::Running => true,
            _ => false,
        }
    }

    /// Reads a status keyword of the listing.
    pub fn from_keyword(word: &str) -> (r: Option<BoxStatus>)
        ensures
            r == status_of_keyword(word@),
    {
        if same_ignoring_case(word, "poweroff") {
            Some(BoxStatus::PowerOff)
        } else if same_ignoring_case(word, "running") {
            Some(BoxStatus::Running)
        } else if same_ignoring_case(word, "saved") {
            Some(BoxStatus::Saved)
        } else if same_ignoring_case(word, "aborted") {
            Some(BoxStatus::Aborted)
        } else {
            None
        }
    }

    /// `up` for a box that was off or aborted, `resume` for a suspended one.
    pub fn power_up_subcommand(self) -> (r: &'static str)
        requires
            !self.is_powered_on(),
        ensures
            r@ == self.power_up_word(),
    {
        match self {
            BoxStatus::Saved => "resume",
            _ => "up",
        }
    }

    /// `suspend` where the policy asks for it or the box was suspended,
    /// `halt` otherwise.
    pub fn power_down_subcommand(self, always_suspend: bool) -> (r: &'static str)
        requires
            !self.is_powered_on(),
        ensures
            r@ == self.power_down_word(always_suspend),
    {
        if always_suspend {
            "suspend"
        } else {
            match self {
                BoxStatus::Saved => "suspend",
                _ => "halt",
            }
        }
    }
}

} // verus!
