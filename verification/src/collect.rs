//! Gathering the boxes of every configured directory.

use vstd::prelude::*;
use vstd::string::*;
use crate::invocation::{status_query, Invocation, InvocationModel, Vagrant};
use crate::listing::{get_boxes, listed_boxes, status_entries, LineError};
use crate::run::tool_view;
use crate::text::texts;
use crate::vagrant_box::{box_views, BoxModel, VagrantBox};

verus! {

/// Why no box could be gathered at all.
#[derive(Debug, Clone, Copy, PartialEq, Eq, Structural)]
pub enum CollectError {
    /// The settings name no directory.
    NoDirectories,
    /// The tool is not installed.
    ToolMissing,
}

/// The boxes of the directories that could be read, and which could not.
#[derive(Debug)]
pub struct Collected {
    /// The boxes, directory by directory, each directory's in listing order.
    pub boxes: Vec<VagrantBox>,
    /// The directories that gave no readable listing, by position, each with
    /// the line error that stopped its reading, or `None` where the tool
    /// printed no listing.
    pub failed: Vec<(usize, Option<LineError>)>,
}

/// What to do next to gather the boxes, or what was gathered.
#[derive(Debug)]
pub enum CollectStep {
    /// Make this invocation and come back with what it printed.
    Query(Invocation),
    Done(Collected),
    Failed(CollectError),
}

pub enum CollectStepModel {
    Query(InvocationModel),
    Done(Seq<BoxModel>, Seq<(usize, Option<LineError>)>),
    Failed(CollectError),
}

impl View for CollectStep {
    type V = CollectStepModel;

    open spec fn view(&self) -> CollectStepModel {
        match self {
            CollectStep::Query(i) => CollectStepModel::Query(i@),
            CollectStep::Done(c) => CollectStepModel::Done(box_views(c.boxes@), c.failed@),
            CollectStep::Failed(e) => CollectStepModel::Failed(*e),
        }
    }
}

/// The boxes that one directory contributes: those of its listing, or none
/// where the tool printed no listing or a line of it cannot be read.
pub open spec fn contribution(directory: Seq<char>, output: Option<Seq<char>>) -> Seq<BoxModel> {
    match output {
        Some(text) => match listed_boxes(directory, text) {
            Ok(boxes) => boxes,
            Err(_) => Seq::empty(),
        },
        None => Seq::empty(),
    }
}

/// Why a directory gave no readable listing, if it gave none: a line error,
/// or `None` where the tool printed no listing.
pub open spec fn failure_of(output: Option<Seq<char>>) -> Option<Option<LineError>> {
    match output {
        Some(text) => match status_entries(text) {
            Ok(_) => None,
            Err(e) => Some(Some(e)),
        },
        None => Some(None),
    }
}

/// The boxes of the first `n` directories, in order.
pub open spec fn gathered(
    directories: Seq<Seq<char>>,
    outputs: Seq<Option<Seq<char>>>,
    n: nat,
) -> Seq<BoxModel>
    decreases n,
{
    if n == 0 {
        Seq::empty()
    } else {
        gathered(directories, outputs, (n - 1) as nat) + contribution(
            directories[n - 1],
            outputs[n - 1],
        )
    }
}

/// The directories, among the first `n`, that gave no readable listing, in
/// order, each with the reason.
pub open spec fn failures(outputs: Seq<Option<Seq<char>>>, n: nat) -> Seq<
    (usize, Option<LineError>),
>
    decreases n,
{
    if n == 0 {
        Seq::empty()
    } else {
        let earlier = failures(outputs, (n - 1) as nat);
        match failure_of(outputs[n - 1]) {
            Some(reason) => earlier.push(((n - 1) as usize, reason)),
            None => earlier,
        }
    }
}

pub open spec fn output_views(v: Seq<Option<String>>) -> Seq<Option<Seq<char>>> {
    Seq::new(
        v.len(),
        |i: int|
            match v[i] {
                Some(t) => Some(t@),
                None => None,
            },
    )
}

pub open spec fn directories_view(d: Option<&Vec<String>>) -> Option<Seq<Seq<char>>> {
    match d {
        Some(v) => Some(texts(v@)),
        None => None,
    }
}

/// The next step of the gathering: the status of each directory is asked in
/// turn, whatever the earlier ones gave, and then every readable listing
/// contributes its boxes.
pub open spec fn next_collect(
    directories: Option<Seq<Seq<char>>>,
    tool: Option<Seq<char>>,
    outputs: Seq<Option<Seq<char>>>,
) -> CollectStepModel {
    match directories {
        None => CollectStepModel::Failed(CollectError::NoDirectories),
        Some(dirs) => match tool {
            None => CollectStepModel::Failed(CollectError::ToolMissing),
            Some(t) => if outputs.len() < dirs.len() {
                CollectStepModel::Query(status_query(t, dirs[outputs.len() as int]))
            } else {
                CollectStepModel::Done(
                    gathered(dirs, outputs, dirs.len()),
                    failures(outputs, dirs.len()),
                )
            },
        },
    }
}

/// The boxes of all `directories`, given what the tool printed for each.
pub fn gather(directories: &Vec<String>, outputs: &Vec<Option<String>>) -> (r: Collected)
    requires
        directories@.len() <= outputs@.len(),
    ensures
        box_views(r.boxes@) == gathered(
            texts(directories@),
            output_views(outputs@),
            directories@.len(),
        ),
        r.failed@ == failures(output_views(outputs@), directories@.len()),
{
    let mut boxes: Vec<VagrantBox> = Vec::new();
    let mut failed: Vec<(usize, Option<LineError>)> = Vec::new();
    let mut i: usize = 0;
    assert(box_views(boxes@) =~= Seq::empty());
    while i < directories.len()
        invariant
            i <= directories@.len() <= outputs@.len(),
            box_views(boxes@) == gathered(texts(directories@), output_views(outputs@), i as nat),
            failed@ == failures(output_views(outputs@), i as nat),
        decreases directories@.len() - i,
    {
        let ghost before = boxes@;
        match &outputs[i] {
            Some(text) => {
                match get_boxes(directories[i].as_str(), text.as_str()) {
                    Ok(mut found) => {
                        let ghost added = found@;
                        boxes.append(&mut found);
                        assert(box_views(before + added) =~= box_views(before) + box_views(added));
                    },
                    Err(e) => {
                        failed.push((i, Some(e)));
                        assert(box_views(before) + Seq::empty() =~= box_views(before));
                    },
                }
            },
            None => {
                failed.push((i, None));
                assert(box_views(before) + Seq::empty() =~= box_views(before));
            },
        }
        i = i + 1;
    }
    Collected { boxes, failed }
}

/// The next step of gathering the boxes of the configured directories.
/// `directories` are the ones the settings name, if they name any; `tool` is
/// the tool's executable, if it is installed; `outputs` holds, for each
/// directory asked so far, the listing that the tool printed, or `None` where
/// it failed.
pub fn collect_boxes(
    directories: Option<&Vec<String>>,
    tool: Option<&str>,
    outputs: &Vec<Option<String>>,
) -> (step: CollectStep)
    ensures
        step@ == next_collect(directories_view(directories), tool_view(tool), output_views(outputs@)),
{
    let dirs = match directories {
        Some(dirs) => dirs,
        None => {
            return CollectStep::Failed(CollectError::NoDirectories);
        },
    };
    let vagrant = match tool {
        Some(path) => Vagrant::new(path),
        None => {
            return CollectStep::Failed(CollectError::ToolMissing);
        },
    };
    if outputs.len() < dirs.len() {
        CollectStep::Query(vagrant.status(dirs[outputs.len()].as_str()))
    } else {
        CollectStep::Done(gather(dirs, outputs))
    }
}

} // verus!
