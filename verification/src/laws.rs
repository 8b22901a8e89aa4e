//! What holds of every run, whatever the tool returns.

use vstd::prelude::*;
use crate::collect::{contribution, gathered};
use crate::invocation::{box_prune, box_update, InvocationModel};
use crate::listing::{ends_section, line_entry, listed, listed_boxes, status_entries, LineError};
use crate::text::{eq_ignore_case, folded, lemma_run_len_bounds, run_len, stops, Boundary};
use crate::outdated::{next_update, EntryModel, UpgradeStepModel};
use crate::power::{power_down_call, power_up_call};
use crate::run::{guest_call, next_step, outcome, title_text, Policy, RunError, RunStepModel};
use crate::status::{status_of_keyword, BoxStatus};
use crate::vagrant_box::{display_name, BoxModel};

verus! {

/// The invocations that the run of a box asks for while `results` come in,
/// in order, the one asked for after the last result included.
pub open spec fn run_invocations(
    tool: Option<Seq<char>>,
    policy: Policy,
    b: BoxModel,
    results: Seq<bool>,
) -> Seq<InvocationModel>
    decreases results.len(),
{
    let earlier = if results.len() == 0 {
        Seq::empty()
    } else {
        run_invocations(tool, policy, b, results.drop_last())
    };
    match next_step(tool, policy, b, results) {
        RunStepModel::Execute(i, _) => earlier.push(i),
        _ => earlier,
    }
}

/// The invocations that the pass over known entries asks for while `results`
/// come in, in order, the one asked for after the last result included.
pub open spec fn update_invocations(
    tool: Seq<char>,
    entries: Seq<EntryModel>,
    results: Seq<bool>,
) -> Seq<InvocationModel>
    decreases results.len(),
{
    let earlier = if results.len() == 0 {
        Seq::empty()
    } else {
        update_invocations(tool, entries, results.drop_last())
    };
    match next_update(tool, entries, results) {
        UpgradeStepModel::Execute(i) => earlier.push(i),
        _ => earlier,
    }
}

/// One update per entry, in order, then one prune.
pub open spec fn full_pass(tool: Seq<char>, entries: Seq<EntryModel>) -> Seq<InvocationModel> {
    Seq::new(
        entries.len(),
        |i: int| box_update(tool, entries[i].name, entries[i].provider),
    ).push(box_prune(tool))
}

/// Whether a line holds no line feed.
pub open spec fn single_line(line: Seq<char>) -> bool {
    forall|i: int| 0 <= i < line.len() ==> line[i] != '\n'
}

/// Whether a line is one that the listing reads as a box.
pub open spec fn is_box_line(line: Seq<char>) -> bool {
    single_line(line) && !ends_section(line) && line_entry(line) is Ok
}

/// The text made of `lines`, each ended by a line feed.
pub open spec fn joined(lines: Seq<Seq<char>>) -> Seq<char>
    decreases lines.len(),
{
    if lines.len() == 0 {
        Seq::empty()
    } else {
        lines[0] + seq!['\n'] + joined(lines.skip(1))
    }
}

/// What each of the box lines says, in order.
pub open spec fn entries_in(lines: Seq<Seq<char>>) -> Seq<(Seq<char>, BoxStatus)> {
    Seq::new(lines.len(), |i: int| line_entry(lines[i])->Ok_0)
}

/// Whether `tail` begins with a line that ends the box section.
pub open spec fn begins_with_section_end(tail: Seq<char>) -> bool {
    tail.len() == 0 || tail[0] == '\n' || tail[0] == '\r'
}

/// What the listing gives when it starts with `line`, which is followed by
/// `rest` on the next line.
pub open spec fn line_by_line(line: Seq<char>, rest: Seq<char>, header: nat) -> Result<
    Seq<(Seq<char>, BoxStatus)>,
    LineError,
> {
    if header > 0 {
        listed(rest, 0, (header - 1) as nat)
    } else if ends_section(line) {
        Ok(Seq::empty())
    } else {
        match line_entry(line) {
            Err(e) => Err(e),
            Ok(entry) => match listed(rest, 0, 0) {
                Err(e) => Err(e),
                Ok(more) => Ok(seq![entry] + more),
            },
        }
    }
}

proof fn lemma_run_len_shift(pre: Seq<char>, rest: Seq<char>, k: int, boundary: Boundary)
    requires
        0 <= k <= rest.len(),
    ensures
        run_len(pre + rest, pre.len() + k, boundary) == run_len(rest, k, boundary),
    decreases rest.len() - k,
{
    if k < rest.len() {
        assert((pre + rest)[pre.len() + k] == rest[k]);
        if !stops(boundary, rest[k]) {
            lemma_run_len_shift(pre, rest, k + 1, boundary);
        }
    }
}

proof fn lemma_listed_shift(pre: Seq<char>, rest: Seq<char>, k: int, header: nat)
    requires
        0 <= k <= rest.len(),
    ensures
        listed(pre + rest, pre.len() + k, header) == listed(rest, k, header),
    decreases rest.len() - k,
{
    let s = pre + rest;
    lemma_run_len_shift(pre, rest, k, Boundary::Newline);
    lemma_run_len_bounds(rest, k, Boundary::Newline);
    let end = k + run_len(rest, k, Boundary::Newline);
    assert(s.subrange(pre.len() + k, pre.len() + end) =~= rest.subrange(k, end));
    if end < rest.len() {
        lemma_listed_shift(pre, rest, end + 1, header);
        if header > 0 {
            lemma_listed_shift(pre, rest, end + 1, (header - 1) as nat);
        }
    }
}

proof fn lemma_whole_line(line: Seq<char>, rest: Seq<char>)
    requires
        single_line(line),
        rest.len() == 0 || rest[0] == '\n',
    ensures
        run_len(line + rest, 0, Boundary::Newline) == line.len(),
        (line + rest).subrange(0, line.len() as int) == line,
{
    let s = line + rest;
    lemma_run_len_bounds(s, 0, Boundary::Newline);
    let e = run_len(s, 0, Boundary::Newline) as int;
    if e < line.len() {
        assert(s[e] == line[e]);
    }
    if e > line.len() {
        assert(s[line.len() as int] == rest[0]);
    }
    assert(s.subrange(0, line.len() as int) =~= line);
}

/// The listing is read line by line: a header line is passed over, a line
/// that ends the section ends the listing, and any other line must be a box
/// line, which comes before whatever the rest of the listing gives.
pub proof fn law_listing_line_by_line(line: Seq<char>, rest: Seq<char>, header: nat)
    requires
        single_line(line),
    ensures
        listed(line + seq!['\n'] + rest, 0, header) == line_by_line(line, rest, header),
{
    let pre = line + seq!['\n'];
    let s = pre + rest;
    assert(s =~= line + (seq!['\n'] + rest));
    lemma_whole_line(line, seq!['\n'] + rest);
    assert(pre.len() == line.len() + 1);
    lemma_listed_shift(pre, rest, 0, header);
    if header > 0 {
        lemma_listed_shift(pre, rest, 0, (header - 1) as nat);
    }
}

proof fn lemma_joined_split(lines: Seq<Seq<char>>, tail: Seq<char>)
    requires
        lines.len() > 0,
    ensures
        joined(lines) + tail == lines[0] + seq!['\n'] + (joined(lines.skip(1)) + tail),
{
    assert(joined(lines) + tail =~= lines[0] + seq!['\n'] + (joined(lines.skip(1)) + tail));
}

proof fn lemma_box_lines(lines: Seq<Seq<char>>, tail: Seq<char>)
    requires
        forall|i: int| 0 <= i < lines.len() ==> is_box_line(#[trigger] lines[i]),
        begins_with_section_end(tail),
    ensures
        listed(joined(lines) + tail, 0, 0) == Ok::<_, LineError>(entries_in(lines)),
    decreases lines.len(),
{
    if lines.len() == 0 {
        assert(joined(lines) + tail =~= tail);
        lemma_run_len_bounds(tail, 0, Boundary::Newline);
        assert(entries_in(lines) =~= Seq::empty());
    } else {
        let rest = joined(lines.skip(1)) + tail;
        lemma_joined_split(lines, tail);
        assert(is_box_line(lines[0]));
        law_listing_line_by_line(lines[0], rest, 0);
        assert forall|i: int| 0 <= i < lines.skip(1).len() implies is_box_line(
            #[trigger] lines.skip(1)[i],
        ) by {
            assert(lines.skip(1)[i] == lines[i + 1]);
        }
        lemma_box_lines(lines.skip(1), tail);
        assert(seq![line_entry(lines[0])->Ok_0] + entries_in(lines.skip(1)) =~= entries_in(lines));
    }
}

proof fn lemma_bad_line(lines: Seq<Seq<char>>, bad: Seq<char>, rest: Seq<char>)
    requires
        forall|i: int| 0 <= i < lines.len() ==> is_box_line(#[trigger] lines[i]),
        single_line(bad),
        !ends_section(bad),
        line_entry(bad) is Err,
        rest.len() == 0 || rest[0] == '\n',
    ensures
        listed(joined(lines) + (bad + rest), 0, 0) == Err::<Seq<(Seq<char>, BoxStatus)>, _>(
            line_entry(bad)->Err_0,
        ),
    decreases lines.len(),
{
    if lines.len() == 0 {
        assert(joined(lines) + (bad + rest) =~= bad + rest);
        if rest.len() == 0 {
            assert(bad + rest =~= bad);
            lemma_whole_line(bad, rest);
            assert(bad.subrange(0, bad.len() as int) =~= bad);
        } else {
            assert(bad + rest =~= bad + seq!['\n'] + rest.skip(1));
            law_listing_line_by_line(bad, rest.skip(1), 0);
        }
    } else {
        let after = joined(lines.skip(1)) + (bad + rest);
        lemma_joined_split(lines, bad + rest);
        assert(is_box_line(lines[0]));
        law_listing_line_by_line(lines[0], after, 0);
        assert forall|i: int| 0 <= i < lines.skip(1).len() implies is_box_line(
            #[trigger] lines.skip(1)[i],
        ) by {
            assert(lines.skip(1)[i] == lines[i + 1]);
        }
        lemma_bad_line(lines.skip(1), bad, rest);
    }
}

/// A listing of two header lines, then box lines, then a line that ends the
/// section gives exactly one entry per box line, in the order of the lines,
/// each with the name and status that its line gives; what comes after the
/// section is not read.
pub proof fn law_one_entry_per_box_line(
    first: Seq<char>,
    second: Seq<char>,
    lines: Seq<Seq<char>>,
    tail: Seq<char>,
)
    requires
        single_line(first),
        single_line(second),
        forall|i: int| 0 <= i < lines.len() ==> is_box_line(#[trigger] lines[i]),
        begins_with_section_end(tail),
    ensures
        status_entries(first + seq!['\n'] + (second + seq!['\n'] + (joined(lines) + tail)))
            == Ok::<_, LineError>(entries_in(lines)),
        entries_in(lines).len() == lines.len(),
{
    let body = joined(lines) + tail;
    law_listing_line_by_line(first, second + seq!['\n'] + body, 2);
    law_listing_line_by_line(second, body, 1);
    lemma_box_lines(lines, tail);
}

/// A line of the box section that cannot be read, be it for an unknown
/// status keyword or for a missing word, fails the whole listing with that
/// line's error: the box is not dropped in silence.
pub proof fn law_unreadable_line_fails(
    first: Seq<char>,
    second: Seq<char>,
    lines: Seq<Seq<char>>,
    bad: Seq<char>,
    rest: Seq<char>,
)
    requires
        single_line(first),
        single_line(second),
        forall|i: int| 0 <= i < lines.len() ==> is_box_line(#[trigger] lines[i]),
        single_line(bad),
        !ends_section(bad),
        line_entry(bad) is Err,
        rest.len() == 0 || rest[0] == '\n',
    ensures
        status_entries(
            first + seq!['\n'] + (second + seq!['\n'] + (joined(lines) + (bad + rest))),
        ) == Err::<Seq<(Seq<char>, BoxStatus)>, _>(line_entry(bad)->Err_0),
{
    let body = joined(lines) + (bad + rest);
    law_listing_line_by_line(first, second + seq!['\n'] + body, 2);
    law_listing_line_by_line(second, body, 1);
    lemma_bad_line(lines, bad, rest);
}

/// Each of the four keywords stands for its own status.
pub proof fn law_keywords()
    ensures
        status_of_keyword("poweroff"@) == Some(BoxStatus::PowerOff),
        status_of_keyword("running"@) == Some(BoxStatus::Running),
        status_of_keyword("saved"@) == Some(BoxStatus::Saved),
        status_of_keyword("aborted"@) == Some(BoxStatus::Aborted),
{
    reveal_strlit("poweroff");
    reveal_strlit("running");
    reveal_strlit("saved");
    reveal_strlit("aborted");
    assert("poweroff"@.len() == 8 && "running"@.len() == 7 && "saved"@.len() == 5);
    assert(folded("aborted"@[0]) != folded("running"@[0]));
}

/// Two words that differ only in the case of their ASCII letters stand for
/// the same status, or both for none.
pub proof fn law_keyword_case(a: Seq<char>, b: Seq<char>)
    requires
        eq_ignore_case(a, b),
    ensures
        status_of_keyword(a) == status_of_keyword(b),
{
    assert forall|k: Seq<char>| eq_ignore_case(a, k) == eq_ignore_case(b, k) by {
        if a.len() == k.len() {
            if eq_ignore_case(a, k) {
                assert forall|i: int| 0 <= i < b.len() implies folded(#[trigger] b[i]) == folded(
                    k[i],
                ) by {
                    assert(folded(a[i]) == folded(b[i]));
                    assert(folded(a[i]) == folded(k[i]));
                }
            }
            if eq_ignore_case(b, k) {
                assert forall|i: int| 0 <= i < a.len() implies folded(#[trigger] a[i]) == folded(
                    k[i],
                ) by {
                    assert(folded(a[i]) == folded(b[i]));
                    assert(folded(b[i]) == folded(k[i]));
                }
            }
        }
    }
}

/// A line of at least two words whose second word is no status keyword
/// cannot be read, and a line of fewer than two words cannot either.
pub proof fn law_line_needs_name_and_status(line: Seq<char>)
    ensures
        ({
            let a = run_len(line, 0, Boundary::Word) as int;
            let b = a + run_len(line, a, Boundary::Space);
            let c = b + run_len(line, b, Boundary::Word);
            let d = c + run_len(line, c, Boundary::Space);
            &&& c >= line.len() ==> line_entry(line) == Err::<(Seq<char>, BoxStatus), _>(
                LineError::MissingField,
            )
            &&& c < line.len() && status_of_keyword(line.subrange(c, d)) is None ==> line_entry(
                line,
            ) == Err::<(Seq<char>, BoxStatus), _>(LineError::UnknownStatus)
            &&& line_entry(line) is Ok ==> c < line.len() && line_entry(line)->Ok_0 == (
                line.subrange(a, b),
                status_of_keyword(line.subrange(c, d))->Some_0,
            )
        }),
{
}

/// Every box of a listing lives in the directory that the listing was asked
/// in: a listing never mixes in a box of another directory.
pub proof fn law_boxes_stay_in_directory(directory: Seq<char>, output: Seq<char>, i: int)
    requires
        listed_boxes(directory, output) is Ok,
        0 <= i < listed_boxes(directory, output)->Ok_0.len(),
    ensures
        listed_boxes(directory, output)->Ok_0[i].path == directory,
{
}

/// A suspended box is brought up with `resume` and put back with `suspend`;
/// a box that was off or aborted is brought up with `up` and put back with
/// `halt`; and where the policy always suspends, every box is put back with
/// `suspend`, however it was found.
pub proof fn law_power_words(status: BoxStatus)
    requires
        !status.is_powered_on(),
    ensures
        status == BoxStatus::Saved ==> status.power_up_word() == "resume"@
            && status.power_down_word(false) == "suspend"@,
        status != BoxStatus::Saved ==> status.power_up_word() == "up"@ && status.power_down_word(
            false,
        ) == "halt"@,
        status.power_down_word(true) == "suspend"@,
{
}

/// The invocation that puts a box back is neither the one that brought it up
/// nor the in-guest command.
pub proof fn law_restoration_is_distinct(
    t: Seq<char>,
    policy: Policy,
    b: BoxModel,
)
    requires
        !b.status.is_powered_on(),
    ensures
        power_down_call(t, b, policy.always_suspend) != power_up_call(t, b),
        power_down_call(t, b, policy.always_suspend) != guest_call(t, b, policy.yes),
{
    reveal_strlit("up");
    reveal_strlit("resume");
    reveal_strlit("halt");
    reveal_strlit("suspend");
    reveal_strlit("ssh");
    let down = power_down_call(t, b, policy.always_suspend);
    assert(down.args[0].len() == 4 || down.args[0].len() == 7);
    assert(power_up_call(t, b).args[0].len() == 2 || power_up_call(t, b).args[0].len() == 6);
    assert(guest_call(t, b, policy.yes).args[0].len() == 3);
}

/// Once a box at rest has been brought up, the run asks for exactly three
/// invocations, whatever the in-guest command and the restoration return: the
/// power-up, the in-guest command, and one restoration, which comes last.
/// The run then ends as the in-guest command did.
pub proof fn law_restoration_exactly_once(
    t: Seq<char>,
    policy: Policy,
    b: BoxModel,
    results: Seq<bool>,
)
    requires
        !b.status.is_powered_on(),
        policy.power_on,
        results.len() >= 2,
        results[0],
    ensures
        run_invocations(Some(t), policy, b, results) == seq![
            power_up_call(t, b),
            guest_call(t, b, policy.yes),
            power_down_call(t, b, policy.always_suspend),
        ],
        results.len() >= 3 ==> next_step(Some(t), policy, b, results) == outcome(results[1]),
    decreases results.len(),
{
    let tool = Some(t);
    if results.len() == 2 {
        let one = results.drop_last();
        let none = one.drop_last();
        assert(one.len() == 1 && one[0]);
        assert(none.len() == 0);
        assert(run_invocations(tool, policy, b, none) =~= seq![power_up_call(t, b)]);
        assert(run_invocations(tool, policy, b, one) =~= seq![
            power_up_call(t, b),
            guest_call(t, b, policy.yes),
        ]);
        assert(run_invocations(tool, policy, b, results) =~= seq![
            power_up_call(t, b),
            guest_call(t, b, policy.yes),
            power_down_call(t, b, policy.always_suspend),
        ]);
    } else {
        let earlier = results.drop_last();
        assert(earlier[0] == results[0]);
        law_restoration_exactly_once(t, policy, b, earlier);
    }
}

/// The heading of a run comes with its first invocation and with no other:
/// it is shown once, and never for a run that asks for nothing.
pub proof fn law_heading_once(
    tool: Option<Seq<char>>,
    policy: Policy,
    b: BoxModel,
    results: Seq<bool>,
)
    ensures
        match next_step(tool, policy, b, results) {
            RunStepModel::Execute(_, heading) => heading == if results.len() == 0 {
                Some(title_text(b))
            } else {
                None
            },
            _ => true,
        },
{
}

/// Where the power-up fails, the run ends there: nothing is run in the box
/// and nothing is restored.
pub proof fn law_failed_power_up(t: Seq<char>, policy: Policy, b: BoxModel, results: Seq<bool>)
    requires
        !b.status.is_powered_on(),
        policy.power_on,
        results.len() >= 1,
        !results[0],
    ensures
        run_invocations(Some(t), policy, b, results) == seq![power_up_call(t, b)],
        next_step(Some(t), policy, b, results) == RunStepModel::Failed(RunError::PowerUpFailed),
    decreases results.len(),
{
    let tool = Some(t);
    let earlier = results.drop_last();
    if results.len() == 1 {
        assert(run_invocations(tool, policy, b, earlier) =~= seq![power_up_call(t, b)]);
    } else {
        assert(earlier[0] == results[0]);
        law_failed_power_up(t, policy, b, earlier);
    }
}

/// A box that was found running gets the in-guest command and no other
/// invocation: no power transition, before or after.
pub proof fn law_running_box(t: Seq<char>, policy: Policy, b: BoxModel, results: Seq<bool>)
    requires
        b.status.is_powered_on(),
    ensures
        run_invocations(Some(t), policy, b, results) == seq![guest_call(t, b, policy.yes)],
        results.len() >= 1 ==> next_step(Some(t), policy, b, results) == outcome(results[0]),
    decreases results.len(),
{
    let tool = Some(t);
    if results.len() == 0 {
        assert(run_invocations(tool, policy, b, results) =~= seq![guest_call(t, b, policy.yes)]);
    } else {
        law_running_box(t, policy, b, results.drop_last());
    }
}

/// A box at rest that may not be brought up is skipped under its display
/// name, and no invocation is ever asked for.
pub proof fn law_skipped_box(t: Seq<char>, policy: Policy, b: BoxModel, results: Seq<bool>)
    requires
        !b.status.is_powered_on(),
        !policy.power_on,
    ensures
        next_step(Some(t), policy, b, results) == RunStepModel::Skipped(display_name(b)),
        run_invocations(Some(t), policy, b, results) == Seq::<InvocationModel>::empty(),
    decreases results.len(),
{
    if results.len() > 0 {
        law_skipped_box(t, policy, b, results.drop_last());
    }
}

/// With no entry, nothing is run and the pass says so.
pub proof fn law_nothing_outdated(t: Seq<char>, results: Seq<bool>)
    ensures
        next_update(t, Seq::empty(), results) == UpgradeStepModel::NoOutdatedBoxes,
        update_invocations(t, Seq::empty(), results) == Seq::<InvocationModel>::empty(),
    decreases results.len(),
{
    if results.len() > 0 {
        law_nothing_outdated(t, results.drop_last());
    }
}

/// While the results come in, the pass asks for the updates in the order of
/// the entries, whatever the earlier ones returned, and for the prune after
/// the last of them.
pub proof fn law_updates_in_order(t: Seq<char>, entries: Seq<EntryModel>, results: Seq<bool>)
    requires
        entries.len() >= 1,
    ensures
        update_invocations(t, entries, results) == full_pass(t, entries).take(
            if results.len() <= entries.len() {
                results.len() + 1
            } else {
                entries.len() + 1
            } as int,
        ),
    decreases results.len(),
{
    let full = full_pass(t, entries);
    if results.len() == 0 {
        assert(update_invocations(t, entries, results) =~= full.take(1));
    } else {
        law_updates_in_order(t, entries, results.drop_last());
        if results.len() <= entries.len() {
            assert(update_invocations(t, entries, results) =~= full.take(results.len() + 1 as int));
        }
    }
}

/// Once every update and the prune have returned, the pass has asked for one
/// update per entry and exactly one prune, which came last.
pub proof fn law_one_prune_after_updates(t: Seq<char>, entries: Seq<EntryModel>, results: Seq<bool>)
    requires
        entries.len() >= 1,
        results.len() >= entries.len(),
    ensures
        update_invocations(t, entries, results) == full_pass(t, entries),
{
    law_updates_in_order(t, entries, results);
    assert(full_pass(t, entries).take(entries.len() + 1 as int) =~= full_pass(t, entries));
}

/// The boxes of the first directories stay where they are when more
/// directories are gathered.
pub proof fn law_gathered_grows(
    directories: Seq<Seq<char>>,
    outputs: Seq<Option<Seq<char>>>,
    i: nat,
    n: nat,
)
    requires
        i <= n,
    ensures
        gathered(directories, outputs, i).len() <= gathered(directories, outputs, n).len(),
        gathered(directories, outputs, n).take(gathered(directories, outputs, i).len() as int)
            == gathered(directories, outputs, i),
    decreases n,
{
    let short = gathered(directories, outputs, i);
    let long = gathered(directories, outputs, n);
    if i == n {
        assert(long.take(short.len() as int) =~= short);
    } else {
        law_gathered_grows(directories, outputs, i, (n - 1) as nat);
        assert(long.take(short.len() as int) =~= short);
    }
}

/// Every directory's boxes appear in the result, in listing order and in the
/// directory's turn, whatever the other directories gave: one that could not
/// be read contributes nothing and takes nothing away.
pub proof fn law_every_directory_contributes(
    directories: Seq<Seq<char>>,
    outputs: Seq<Option<Seq<char>>>,
    i: nat,
    n: nat,
)
    requires
        i < n,
    ensures
        gathered(directories, outputs, i).len() + contribution(
            directories[i as int],
            outputs[i as int],
        ).len() <= gathered(directories, outputs, n).len(),
        gathered(directories, outputs, n).subrange(
            gathered(directories, outputs, i).len() as int,
            gathered(directories, outputs, i).len() as int + contribution(
                directories[i as int],
                outputs[i as int],
            ).len(),
        ) == contribution(directories[i as int], outputs[i as int]),
{
    let before = gathered(directories, outputs, i);
    let with = gathered(directories, outputs, i + 1);
    let all = gathered(directories, outputs, n);
    let own = contribution(directories[i as int], outputs[i as int]);
    assert(with == before + own);
    law_gathered_grows(directories, outputs, i + 1, n);
    assert(all.subrange(before.len() as int, before.len() as int + own.len()) =~= all.take(
        with.len() as int,
    ).subrange(before.len() as int, before.len() as int + own.len()));
    assert(with.subrange(before.len() as int, before.len() as int + own.len()) =~= own);
}

} // verus!
