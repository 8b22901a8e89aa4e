//! Reading the tool's report of outdated boxes and bringing the fleet up to
//! date.

use vstd::prelude::*;
use vstd::string::*;
use crate::invocation::{box_prune, box_update, outdated_query, Invocation, InvocationModel, Vagrant};
use crate::run::tool_view;

verus! {

/// What the first two groups of a pattern matched in one match, as plain
/// values; a group that took no part is `None`.
pub type GroupPair = (Option<Seq<char>>, Option<Seq<char>>);

/// What the regex crate finds: `None` where `Regex::new` rejects `pattern`;
/// otherwise, for each match that `Regex::captures_iter` yields on `text`, in
/// order, what `Captures::get` gives for groups 1 and 2.
pub uninterp spec fn regex_captures(pattern: Seq<char>, text: Seq<char>) -> Option<Seq<GroupPair>>;

pub open spec fn opt_text(s: Option<String>) -> Option<Seq<char>> {
    match s {
        Some(t) => Some(t@),
        None => None,
    }
}

pub open spec fn pair_views(v: Seq<(Option<String>, Option<String>)>) -> Seq<GroupPair> {
    Seq::new(v.len(), |i: int| (opt_text(v[i].0), opt_text(v[i].1)))
}

pub open spec fn captures_view(r: Option<Vec<(Option<String>, Option<String>)>>) -> Option<
    Seq<GroupPair>,
> {
    match r {
        Some(v) => Some(pair_views(v@)),
        None => None,
    }
}

/// Compiles `pattern` with `regex::Regex::new` and walks `text` with
/// `Regex::captures_iter`, keeping of each match what `Captures::get` gives
/// for groups 1 and 2. Nothing is claimed of what the crate finds but that it
/// depends on the pattern and the text alone.
#[verifier::external_body]
fn capture_pairs(pattern: &str, text: &str) -> (r: Option<Vec<(Option<String>, Option<String>)>>)
    ensures
        captures_view(r) == regex_captures(pattern@, text@),
{
    match regex::Regex::new(pattern) {
        Ok(re) => Some(
            re.captures_iter(text).map(
                |c| (
                    c.get(1).map(|m| m.as_str().to_string()),
                    c.get(2).map(|m| m.as_str().to_string()),
                ),
            ).collect(),
        ),
        Err(_) => None,
    }
}

/// The phrasing of one entry of the report: a box quoted after the marker,
/// a provider quoted after `for`.
pub open spec fn outdated_pattern() -> Seq<char> {
    "\\* '(.*?)' for '(.*?)' is outdated"@
}

/// One box that the report calls outdated, with the provider it names.
#[derive(Debug)]
pub struct OutdatedEntry {
    pub name: String,
    pub provider: String,
}

pub struct EntryModel {
    pub name: Seq<char>,
    pub provider: Seq<char>,
}

impl View for OutdatedEntry {
    type V = EntryModel;

    open spec fn view(&self) -> EntryModel {
        EntryModel { name: self.name@, provider: self.provider@ }
    }
}

pub open spec fn entry_views(v: Seq<OutdatedEntry>) -> Seq<EntryModel> {
    Seq::new(v.len(), |i: int| v[i]@)
}

/// The entries that matches stand for, in order: one for each match in which
/// both groups took part.
pub open spec fn entries_of(captures: Seq<GroupPair>) -> Seq<EntryModel>
    decreases captures.len(),
{
    if captures.len() == 0 {
        Seq::empty()
    } else {
        let earlier = entries_of(captures.drop_last());
        match captures.last() {
            (Some(name), Some(provider)) => earlier.push(EntryModel { name, provider }),
            _ => earlier,
        }
    }
}

/// The entries of a report, where the pattern compiles.
pub open spec fn report_entries(text: Seq<char>) -> Option<Seq<EntryModel>> {
    found_entries(outdated_pattern(), text)
}

/// Turns matches into entries.
pub fn entries_from_captures(captures: &Vec<(Option<String>, Option<String>)>) -> (r: Vec<
    OutdatedEntry,
>)
    ensures
        entry_views(r@) == entries_of(pair_views(captures@)),
{
    let mut entries: Vec<OutdatedEntry> = Vec::new();
    let mut i: usize = 0;
    assert(pair_views(captures@).take(0) =~= Seq::empty());
    assert(entry_views(entries@) =~= Seq::empty());
    while i < captures.len()
        invariant
            i <= captures.len(),
            entry_views(entries@) == entries_of(pair_views(captures@).take(i as int)),
        decreases captures.len() - i,
    {
        let ghost before = pair_views(captures@).take(i as int);
        let ghost now = pair_views(captures@).take(i + 1);
        assert(now.drop_last() =~= before);
        assert(now.last() == pair_views(captures@)[i as int]);
        match &captures[i] {
            (Some(name), Some(provider)) => {
                let entry = OutdatedEntry { name: name.clone(), provider: provider.clone() };
                assert(entry_views(entries@.push(entry)) =~= entry_views(entries@).push(entry@));
                entries.push(entry);
            },
            _ => {},
        }
        i = i + 1;
    }
    assert(pair_views(captures@).take(i as int) =~= pair_views(captures@));
    entries
}

/// The entries that `pattern` finds in `text`, where the pattern compiles.
pub open spec fn found_entries(pattern: Seq<char>, text: Seq<char>) -> Option<Seq<EntryModel>> {
    match regex_captures(pattern, text) {
        Some(captures) => Some(entries_of(captures)),
        None => None,
    }
}

/// Searches `text` for entries phrased as `pattern` says, its first group
/// being the box and its second the provider. `None` where the pattern is
/// rejected.
pub fn find_entries(pattern: &str, text: &str) -> (r: Option<Vec<OutdatedEntry>>)
    ensures
        match r {
            Some(entries) => found_entries(pattern@, text@) == Some(entry_views(entries@)),
            None => found_entries(pattern@, text@) is None,
        },
{
    match capture_pairs(pattern, text) {
        Some(captures) => Some(entries_from_captures(&captures)),
        None => None,
    }
}

/// Reads the report of outdated boxes. A line that does not follow the
/// phrasing is no entry. `None` only where the pattern is rejected.
pub fn parse_outdated(text: &str) -> (r: Option<Vec<OutdatedEntry>>)
    ensures
        match r {
            Some(entries) => report_entries(text@) == Some(entry_views(entries@)),
            None => report_entries(text@) is None,
        },
{
    find_entries("\\* '(.*?)' for '(.*?)' is outdated", text)
}

/// What is known of the report so far.
#[derive(Debug)]
pub enum Report {
    /// It was not asked for yet.
    Pending,
    /// The tool failed to give one.
    Unavailable,
    /// The tool printed this.
    Printed(String),
}

/// Why the fleet could not be brought up to date.
#[derive(Debug, Clone, Copy, PartialEq, Eq, Structural)]
pub enum UpgradeError {
    /// The tool is not installed.
    ToolMissing,
    /// The tool gave no report.
    ReportFailed,
    /// The report could not be searched.
    PatternRejected,
    /// The updates were made, and pruning failed.
    PruneFailed,
}

/// What to do next for the fleet, or how the pass ended.
#[derive(Debug)]
pub enum UpgradeStep {
    /// Make this invocation and come back with what it printed.
    Query(Invocation),
    /// Make this invocation and come back with its result.
    Execute(Invocation),
    /// The report names no outdated box: nothing was run.
    NoOutdatedBoxes,
    /// Every entry was tried and the superseded boxes were pruned.
    Updated,
    Failed(UpgradeError),
}

pub enum UpgradeStepModel {
    Query(InvocationModel),
    Execute(InvocationModel),
    NoOutdatedBoxes,
    Updated,
    Failed(UpgradeError),
}

impl View for UpgradeStep {
    type V = UpgradeStepModel;

    open spec fn view(&self) -> UpgradeStepModel {
        match self {
            UpgradeStep::Query(i) => UpgradeStepModel::Query(i@),
            UpgradeStep::Execute(i) => UpgradeStepModel::Execute(i@),
            UpgradeStep::NoOutdatedBoxes => UpgradeStepModel::NoOutdatedBoxes,
            UpgradeStep::Updated => UpgradeStepModel::Updated,
            UpgradeStep::Failed(e) => UpgradeStepModel::Failed(*e),
        }
    }
}

/// The next step once the entries are known, given whether each invocation
/// made for them so far succeeded: one update per entry, in order and
/// whatever the earlier ones returned, then one prune, whose failure fails
/// the pass. With no entry there is nothing to run.
pub open spec fn next_update(
    tool: Seq<char>,
    entries: Seq<EntryModel>,
    results: Seq<bool>,
) -> UpgradeStepModel {
    if entries.len() == 0 {
        UpgradeStepModel::NoOutdatedBoxes
    } else if results.len() < entries.len() {
        let entry = entries[results.len() as int];
        UpgradeStepModel::Execute(box_update(tool, entry.name, entry.provider))
    } else if results.len() == entries.len() {
        UpgradeStepModel::Execute(box_prune(tool))
    } else if results[entries.len() as int] {
        UpgradeStepModel::Updated
    } else {
        UpgradeStepModel::Failed(UpgradeError::PruneFailed)
    }
}

pub open spec fn report_view(report: &Report) -> Option<Option<Seq<char>>> {
    match report {
        Report::Pending => None,
        Report::Unavailable => Some(None),
        Report::Printed(text) => Some(Some(text@)),
    }
}

/// The next step once the report has been searched: a rejected pattern fails
/// the pass, and otherwise the entries found are worked off.
pub open spec fn next_after_search(
    tool: Seq<char>,
    found: Option<Seq<EntryModel>>,
    results: Seq<bool>,
) -> UpgradeStepModel {
    match found {
        None => UpgradeStepModel::Failed(UpgradeError::PatternRejected),
        Some(entries) => next_update(tool, entries, results),
    }
}

/// The next step of the pass over the fleet.
pub open spec fn next_upgrade(
    tool: Option<Seq<char>>,
    report: Option<Option<Seq<char>>>,
    results: Seq<bool>,
) -> UpgradeStepModel {
    match tool {
        None => UpgradeStepModel::Failed(UpgradeError::ToolMissing),
        Some(t) => match report {
            None => UpgradeStepModel::Query(outdated_query(t)),
            Some(None) => UpgradeStepModel::Failed(UpgradeError::ReportFailed),
            Some(Some(text)) => next_after_search(t, report_entries(text), results),
        },
    }
}

pub open spec fn found_view(found: &Option<Vec<OutdatedEntry>>) -> Option<Seq<EntryModel>> {
    match found {
        Some(entries) => Some(entry_views(entries@)),
        None => None,
    }
}

/// The next step for a fleet whose outdated entries are known.
pub fn update_entries(vagrant: &Vagrant, entries: &Vec<OutdatedEntry>, results: &Vec<bool>) -> (step:
    UpgradeStep)
    ensures
        step@ == next_update(vagrant.path@, entry_views(entries@), results@),
{
    let n: usize = entries.len();
    let done: usize = results.len();
    if n == 0 {
        UpgradeStep::NoOutdatedBoxes
    } else if done < n {
        let entry = &entries[done];
        UpgradeStep::Execute(vagrant.update(entry.name.as_str(), entry.provider.as_str()))
    } else if done == n {
        UpgradeStep::Execute(vagrant.prune())
    } else if results[n] {
        UpgradeStep::Updated
    } else {
        UpgradeStep::Failed(UpgradeError::PruneFailed)
    }
}

/// The next step for a fleet whose report has been searched.
pub fn after_search(vagrant: &Vagrant, found: &Option<Vec<OutdatedEntry>>, results: &Vec<bool>) -> (step:
    UpgradeStep)
    ensures
        step@ == next_after_search(vagrant.path@, found_view(found), results@),
{
    match found {
        None => UpgradeStep::Failed(UpgradeError::PatternRejected),
        Some(entries) => update_entries(vagrant, entries, results),
    }
}

/// The next step of the pass that brings every box of the fleet up to date.
/// `tool` is the tool's executable, if it is installed; `report` is what is
/// known of the report of outdated boxes; `results` says of each update or
/// prune made so far whether it succeeded.
pub fn upgrade_vagrant_boxes(tool: Option<&str>, report: &Report, results: &Vec<bool>) -> (step:
    UpgradeStep)
    ensures
        step@ == next_upgrade(tool_view(tool), report_view(report), results@),
{
    let vagrant = match tool {
        Some(path) => Vagrant::new(path),
        None => {
            return UpgradeStep::Failed(UpgradeError::ToolMissing);
        },
    };
    match report {
        Report::Pending => UpgradeStep::Query(vagrant.outdated()),
        Report::Unavailable => UpgradeStep::Failed(UpgradeError::ReportFailed),
        Report::Printed(text) => {
            let found = parse_outdated(text.as_str());
            after_search(&vagrant, &found, results)
        },
    }
}

} // verus!
