//! Reading the tool's status listing for one directory.

use std::rc::Rc;
use vstd::prelude::*;
use vstd::string::*;
use crate::status::{status_of_keyword, BoxStatus};
use crate::text::{run_len, scan, Boundary};
use crate::vagrant_box::{box_views, BoxModel, VagrantBox};

verus! {

/// Why a line of the listing is no box line.
#[derive(Debug, Clone, Copy, PartialEq, Eq, Structural)]
pub enum LineError {
    /// The line has fewer than two words.
    MissingField,
    /// The second word is no status keyword.
    UnknownStatus,
}

/// The name and status that a box line gives: its first two words, split at
/// whitespace.
pub open spec fn line_entry(line: Seq<char>) -> Result<(Seq<char>, BoxStatus), LineError> {
    let a = run_len(line, 0, Boundary::Word) as int;
    let b = a + run_len(line, a, Boundary::Space);
    let c = b + run_len(line, b, Boundary::Word);
    let d = c + run_len(line, c, Boundary::Space);
    if c >= line.len() {
        Err(LineError::MissingField)
    } else {
        match status_of_keyword(line.subrange(c, d)) {
            Some(status) => Ok((line.subrange(a, b), status)),
            None => Err(LineError::UnknownStatus),
        }
    }
}

/// Whether a line ends the box section: an empty one, or one that begins with
/// a carriage return.
pub open spec fn ends_section(line: Seq<char>) -> bool {
    line.len() == 0 || line[0] == '\r'
}

/// The entries of the listing from the line that starts at `pos` on, after
/// `header` more lines have been passed over. A box line that cannot be read
/// fails the whole listing.
pub open spec fn listed(s: Seq<char>, pos: int, header: nat) -> Result<
    Seq<(Seq<char>, BoxStatus)>,
    LineError,
>
    decreases s.len() - pos,
{
    let end = pos + run_len(s, pos, Boundary::Newline);
    let line = s.subrange(pos, end);
    let more = 0 <= pos && end < s.len();
    if header > 0 {
        if more {
            listed(s, end + 1, (header - 1) as nat)
        } else {
            Ok(Seq::empty())
        }
    } else if ends_section(line) {
        Ok(Seq::empty())
    } else {
        match line_entry(line) {
            Err(e) => Err(e),
            Ok(entry) => if more {
                match listed(s, end + 1, 0) {
                    Err(e) => Err(e),
                    Ok(rest) => Ok(seq![entry] + rest),
                }
            } else {
                Ok(seq![entry])
            },
        }
    }
}

/// The entries of a whole status listing: two header lines are passed over,
/// then each line is a box line up to the line that ends the section.
pub open spec fn status_entries(output: Seq<char>) -> Result<
    Seq<(Seq<char>, BoxStatus)>,
    LineError,
> {
    listed(output, 0, 2)
}

/// The boxes that entries found in `directory` stand for.
pub open spec fn boxes_in(directory: Seq<char>, entries: Seq<(Seq<char>, BoxStatus)>) -> Seq<
    BoxModel,
> {
    Seq::new(
        entries.len(),
        |i: int| BoxModel { path: directory, name: entries[i].0, status: entries[i].1 },
    )
}

/// The boxes that a status listing of `directory` shows.
pub open spec fn listed_boxes(directory: Seq<char>, output: Seq<char>) -> Result<
    Seq<BoxModel>,
    LineError,
> {
    match status_entries(output) {
        Ok(entries) => Ok(boxes_in(directory, entries)),
        Err(e) => Err(e),
    }
}

/// `entries` put in front of what a listing still holds.
pub open spec fn after(
    entries: Seq<(Seq<char>, BoxStatus)>,
    rest: Result<Seq<(Seq<char>, BoxStatus)>, LineError>,
) -> Result<Seq<(Seq<char>, BoxStatus)>, LineError> {
    match rest {
        Ok(more) => Ok(entries + more),
        Err(e) => Err(e),
    }
}

/// Reads one box line.
pub fn parse_line(line: &str) -> (r: Result<(String, BoxStatus), LineError>)
    ensures
        match r {
            Ok((name, status)) => line_entry(line@) == Ok::<_, LineError>((name@, status)),
            Err(e) => line_entry(line@) == Err::<(Seq<char>, BoxStatus), _>(e),
        },
{
    let n: usize = line.unicode_len();
    let a: usize = scan(line, 0, Boundary::Word);
    let b: usize = scan(line, a, Boundary::Space);
    let c: usize = scan(line, b, Boundary::Word);
    let d: usize = scan(line, c, Boundary::Space);
    if c >= n {
        return Err(LineError::MissingField);
    }
    match BoxStatus::from_keyword(line.substring_char(c, d)) {
        Some(status) => Ok((String::from_str(line.substring_char(a, b)), status)),
        None => Err(LineError::UnknownStatus),
    }
}

/// Reads the status listing that the tool printed for `directory`.
pub fn get_boxes(directory: &str, output: &str) -> (r: Result<Vec<VagrantBox>, LineError>)
    ensures
        match r {
            Ok(boxes) => listed_boxes(directory@, output@) == Ok::<_, LineError>(
                box_views(boxes@),
            ),
            Err(e) => listed_boxes(directory@, output@) == Err::<Seq<BoxModel>, _>(e),
        },
{
    let n: usize = output.unicode_len();
    let path: Rc<String> = Rc::new(String::from_str(directory));
    let mut boxes: Vec<VagrantBox> = Vec::new();
    let ghost mut entries: Seq<(Seq<char>, BoxStatus)> = Seq::empty();
    let mut pos: usize = 0;
    let mut header: u8 = 2;
    let mut done: bool = false;
    assert(after(entries, listed(output@, 0, 2)) == listed(output@, 0, 2)) by {
        match listed(output@, 0, 2) {
            Ok(more) => assert(entries + more =~= more),
            Err(_) => {},
        }
    }
    assert(box_views(boxes@) =~= boxes_in(directory@, entries));
    while !done
        invariant
            pos <= n,
            n == output@.len(),
            (*path)@ == directory@,
            box_views(boxes@) == boxes_in(directory@, entries),
            !done ==> status_entries(output@) == after(
                entries,
                listed(output@, pos as int, header as nat),
            ),
            done ==> status_entries(output@) == Ok::<_, LineError>(entries),
        decreases n - pos + (if done { 0int } else { 1int }),
    {
        let end: usize = scan(output, pos, Boundary::Newline);
        let more: bool = end < n;
        if header > 0 {
            if more {
                header = header - 1;
                pos = end + 1;
            } else {
                assert(entries + Seq::empty() =~= entries);
                done = true;
            }
        } else if end == pos || output.get_char(pos) == '\r' {
            assert(entries + Seq::empty() =~= entries);
            done = true;
        } else {
            match parse_line(output.substring_char(pos, end)) {
                Err(e) => {
                    return Err(e);
                },
                Ok((name, status)) => {
                    let ghost entry = (name@, status);
                    let found = VagrantBox::in_directory(&path, name, status);
                    proof {
                        if more {
                            match listed(output@, end + 1, 0) {
                                Ok(rest) => assert(entries + (seq![entry] + rest) =~= entries.push(
                                    entry,
                                ) + rest),
                                Err(_) => {},
                            }
                        } else {
                            assert(entries + seq![entry] =~= entries.push(entry));
                        }
                        assert(box_views(boxes@).len() == boxes@.len());
                        assert(boxes_in(directory@, entries).len() == entries.len());
                        assert forall|i: int| 0 <= i < boxes@.len() implies boxes@[i]@
                            == boxes_in(directory@, entries.push(entry))[i] by {
                            assert(box_views(boxes@)[i] == boxes_in(directory@, entries)[i]);
                        }
                        assert(box_views(boxes@.push(found)) =~= boxes_in(
                            directory@,
                            entries.push(entry),
                        ));
                        entries = entries.push(entry);
                    }
                    boxes.push(found);
                    if more {
                        pos = end + 1;
                    } else {
                        done = true;
                    }
                },
            }
        }
    }
    Ok(boxes)
}

} // verus!
