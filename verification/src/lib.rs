//! Lifecycle rules for Vagrant boxes: reading the tool's status listing,
//! bringing a box up only for the length of one in-guest command, and
//! reconciling the fleet against the tool's report of outdated boxes.
//!
//! The library decides and never runs a process: every entry point takes what
//! the tool printed or returned so far and answers with the next invocation to
//! make, or with the final outcome.

pub mod text;
pub mod status;
pub mod vagrant_box;
pub mod invocation;
pub mod listing;
pub mod power;
pub mod run;
pub mod outdated;
pub mod collect;
pub mod laws;

pub use status::BoxStatus;
pub use vagrant_box::VagrantBox;
pub use run::topgrade_vagrant_box;
pub use outdated::upgrade_vagrant_boxes;
pub use collect::collect_boxes;
