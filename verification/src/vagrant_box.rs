//! One box: where it lives, what the tool calls it, and how it was found.

use std::rc::Rc;
use vstd::prelude::*;
use vstd::string::*;
use crate::status::BoxStatus;
use crate::text::{run_len, same_text, scan, Boundary};

verus! {

/// What a box record holds, as plain values.
pub struct BoxModel {
    pub path: Seq<char>,
    pub name: Seq<char>,
    pub status: BoxStatus,
}

/// A box found in one directory. The status is the one observed at discovery
/// and is never changed afterwards. The boxes found in one directory share
/// its path.
#[derive(Debug)]
pub struct VagrantBox {
    path: Rc<String>,
    name: String,
    initial_status: BoxStatus,
}

impl View for VagrantBox {
    type V = BoxModel;

    closed spec fn view(&self) -> BoxModel {
        BoxModel { path: (*self.path)@, name: self.name@, status: self.initial_status }
    }
}

/// One more handle on a shared path, made by `Rc::clone`: it points to the
/// same text.
#[verifier::external_body]
fn share(path: &Rc<String>) -> (r: Rc<String>)
    ensures
        r == *path,
{
    Rc::clone(path)
}

/// The views of a list of boxes.
pub open spec fn box_views(v: Seq<VagrantBox>) -> Seq<BoxModel> {
    Seq::new(v.len(), |i: int| v[i]@)
}

pub open spec fn is_dot(seg: Seq<char>) -> bool {
    seg.len() == 1 && seg[0] == '.'
}

pub open spec fn is_dot_dot(seg: Seq<char>) -> bool {
    seg.len() == 2 && seg[0] == '.' && seg[1] == '.'
}

/// The last segment of `p` at or after position `pos` that is neither empty
/// nor a single dot, or `found` where there is none. Segments are what `/`
/// separates.
pub open spec fn last_segment(p: Seq<char>, pos: int, found: Option<Seq<char>>) -> Option<
    Seq<char>,
>
    decreases p.len() - pos,
{
    let end = pos + run_len(p, pos, Boundary::Slash);
    let seg = p.subrange(pos, end);
    let cur = if seg.len() == 0 || is_dot(seg) {
        found
    } else {
        Some(seg)
    };
    if 0 <= pos && end < p.len() {
        last_segment(p, end + 1, cur)
    } else {
        cur
    }
}

/// The final segment of a path: its last segment that is neither empty nor a
/// single dot, unless that segment is `..` or there is no such segment.
pub open spec fn final_component(p: Seq<char>) -> Option<Seq<char>> {
    match last_segment(p, 0, None) {
        Some(seg) => if is_dot_dot(seg) {
            None
        } else {
            Some(seg)
        },
        None => None,
    }
}

/// Whether a box has a name to show: any box but one called `default` in a
/// directory whose path has no final segment.
pub open spec fn has_display_name(b: BoxModel) -> bool {
    b.name == "default"@ ==> final_component(b.path) is Some
}

/// The name to show for a box: its own, unless that is the placeholder
/// `default`, which says nothing across directories; then the final segment
/// of the directory's path.
pub open spec fn display_name(b: BoxModel) -> Seq<char>
    recommends
        has_display_name(b),
{
    if b.name == "default"@ {
        final_component(b.path).unwrap()
    } else {
        b.name
    }
}

/// What `describe` prints for a box.
pub open spec fn description(b: BoxModel) -> Seq<char> {
    b.name + " @ "@ + b.path
}

/// The bounds of the final segment of `path`, in characters.
pub fn final_component_bounds(path: &str) -> (r: Option<(usize, usize)>)
    ensures
        match r {
            Some((from, to)) => from <= to <= path@.len() && final_component(path@) == Some(
                path@.subrange(from as int, to as int),
            ),
            None => final_component(path@) is None,
        },
{
    let n: usize = path.unicode_len();
    let mut pos: usize = 0;
    let mut found: Option<(usize, usize)> = None;
    let ghost mut seen: Option<Seq<char>> = None;
    let mut done: bool = false;
    while !done
        invariant
            pos <= n,
            n == path@.len(),
            !done ==> last_segment(path@, 0, None) == last_segment(path@, pos as int, seen),
            done ==> last_segment(path@, 0, None) == seen,
            match found {
                Some((a, b)) => a <= b <= n && seen == Some(path@.subrange(a as int, b as int)),
                None => seen is None,
            },
        decreases n - pos + (if done { 0int } else { 1int }),
    {
        let end: usize = scan(path, pos, Boundary::Slash);
        let dot: bool = end - pos == 1 && path.get_char(pos) == '.';
        if end > pos && !dot {
            found = Some((pos, end));
            proof {
                seen = Some(path@.subrange(pos as int, end as int));
            }
        }
        if end < n {
            pos = end + 1;
        } else {
            done = true;
        }
    }
    match found {
        Some((a, b)) => {
            if b - a == 2 && path.get_char(a) == '.' && path.get_char(a + 1) == '.' {
                None
            } else {
                Some((a, b))
            }
        },
        None => None,
    }
}

impl VagrantBox {
    pub fn new(path: &str, name: &str, initial_status: BoxStatus) -> (r: VagrantBox)
        ensures
            r@ == (BoxModel { path: path@, name: name@, status: initial_status }),
    {
        VagrantBox {
            path: Rc::new(String::from_str(path)),
            name: String::from_str(name),
            initial_status,
        }
    }

    /// A box in a directory whose path it shares with the other boxes found
    /// there.
    pub fn in_directory(path: &Rc<String>, name: String, initial_status: BoxStatus) -> (r:
        VagrantBox)
        ensures
            r@ == (BoxModel { path: (**path)@, name: name@, status: initial_status }),
    {
        VagrantBox { path: share(path), name, initial_status }
    }

    /// The directory that holds the box's Vagrantfile.
    pub fn path(&self) -> (r: &str)
        ensures
            r@ == self@.path,
    {
        self.path.as_str()
    }

    /// The name the tool gave the box.
    pub fn name(&self) -> (r: &str)
        ensures
            r@ == self@.name,
    {
        self.name.as_str()
    }

    /// The power state in which the box was found.
    pub fn initial_status(&self) -> (r: BoxStatus)
        ensures
            r == self@.status,
    {
        self.initial_status
    }

    /// Whether `smart_name` can be asked for.
    pub fn is_nameable(&self) -> (r: bool)
        ensures
            r == has_display_name(self@),
    {
        if same_text(self.name.as_str(), "default") {
            final_component_bounds(self.path.as_str()).is_some()
        } else {
            true
        }
    }

    /// The name to show for this box.
    pub fn smart_name(&self) -> (r: &str)
        requires
            has_display_name(self@),
        ensures
            r@ == display_name(self@),
    {
        if same_text(self.name.as_str(), "default") {
            match final_component_bounds(self.path.as_str()) {
                Some((from, to)) => self.path.as_str().substring_char(from, to),
                None => self.name.as_str(),
            }
        } else {
            self.name.as_str()
        }
    }

    /// The box's name and directory, as `name @ directory`.
    pub fn describe(&self) -> (r: String)
        ensures
            r@ == description(self@),
    {
        String::from_str(self.name.as_str()).concat(" @ ").concat(self.path.as_str())
    }
}

} // verus!
