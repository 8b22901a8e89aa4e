//! Scanning of text by character position.

use vstd::prelude::*;
use vstd::string::*;

verus! {

/// What ends a run of characters.
#[derive(Debug, Clone, Copy, PartialEq, Eq, Structural)]
pub enum Boundary {
    /// A line feed.
    Newline,
    /// Any whitespace character.
    Space,
    /// Any character that is not whitespace.
    Word,
    /// A path separator.
    Slash,
}

/// The Unicode `White_Space` code points.
pub open spec fn is_space(c: char) -> bool {
    let n = c as u32;
    (0x09 <= n <= 0x0D) || n == 0x20 || n == 0x85 || n == 0xA0 || n == 0x1680 || (0x2000 <= n
        <= 0x200A) || n == 0x2028 || n == 0x2029 || n == 0x202F || n == 0x205F || n == 0x3000
}

/// Whether `c` ends a run bounded by `boundary`.
pub open spec fn stops(boundary: Boundary, c: char) -> bool {
    match boundary {
        Boundary::Newline => c == '\n',
        Boundary::Space => is_space(c),
        Boundary::Word => !is_space(c),
        Boundary::Slash => c == '/',
    }
}

/// The number of characters from position `from` on that come before the
/// first one that `boundary` stops at, or before the end of `s`.
pub open spec fn run_len(s: Seq<char>, from: int, boundary: Boundary) -> nat
    decreases s.len() - from,
{
    if from < 0 || from >= s.len() || stops(boundary, s[from]) {
        0
    } else {
        1 + run_len(s, from + 1, boundary)
    }
}

/// The code point of `c`, with the letters `A` to `Z` mapped to `a` to `z`.
pub open spec fn folded(c: char) -> u32 {
    let n = c as u32;
    if 0x41 <= n <= 0x5A {
        (n + 0x20) as u32
    } else {
        n
    }
}

/// Equality of two texts up to the case of ASCII letters.
pub open spec fn eq_ignore_case(a: Seq<char>, b: Seq<char>) -> bool {
    &&& a.len() == b.len()
    &&& forall|i: int| 0 <= i < a.len() ==> folded(#[trigger] a[i]) == folded(b[i])
}

/// A run never reaches past the end of the text.
pub proof fn lemma_run_len_bounds(s: Seq<char>, from: int, boundary: Boundary)
    requires
        0 <= from <= s.len(),
    ensures
        from + run_len(s, from, boundary) <= s.len(),
        forall|j: int|
            from <= j < from + run_len(s, from, boundary) ==> !stops(boundary, #[trigger] s[j]),
        from + run_len(s, from, boundary) < s.len() ==> stops(
            boundary,
            s[from + run_len(s, from, boundary)],
        ),
    decreases s.len() - from,
{
    if from < s.len() && !stops(boundary, s[from]) {
        lemma_run_len_bounds(s, from + 1, boundary);
    }
}

pub fn is_whitespace(c: char) -> (r: bool)
    ensures
        r == is_space(c),
{
    let n: u32 = c as u32;
    (0x09 <= n && n <= 0x0D) || n == 0x20 || n == 0x85 || n == 0xA0 || n == 0x1680 || (0x2000 <= n
        && n <= 0x200A) || n == 0x2028 || n == 0x2029 || n == 0x202F || n == 0x205F || n == 0x3000
}

pub fn is_boundary(boundary: Boundary, c: char) -> (r: bool)
    ensures
        r == stops(boundary, c),
{
    match boundary {
        Boundary::Newline => c == '\n',
        Boundary::Space => is_whitespace(c),
        Boundary::Word => !is_whitespace(c),
        Boundary::Slash => c == '/',
    }
}

pub fn fold_case(c: char) -> (r: u32)
    ensures
        r == folded(c),
{
    let n: u32 = c as u32;
    if 0x41 <= n && n <= 0x5A {
        n + 0x20
    } else {
        n
    }
}

/// The position of the first character at or after `from` that `boundary`
/// stops at, or the length of `s` where there is none.
pub fn scan(s: &str, from: usize, boundary: Boundary) -> (end: usize)
    requires
        from <= s@.len(),
    ensures
        end == from + run_len(s@, from as int, boundary),
        from <= end <= s@.len(),
{
    let n: usize = s.unicode_len();
    let mut i: usize = from;
    while i < n && !is_boundary(boundary, s.get_char(i))
        invariant
            from <= i <= n,
            n == s@.len(),
            from + run_len(s@, from as int, boundary) == i + run_len(s@, i as int, boundary),
        decreases n - i,
    {
        i = i + 1;
    }
    i
}

/// Whether two texts are equal up to the case of ASCII letters.
pub fn same_ignoring_case(a: &str, b: &str) -> (r: bool)
    ensures
        r == eq_ignore_case(a@, b@),
{
    let n: usize = a.unicode_len();
    if b.unicode_len() != n {
        return false;
    }
    let mut i: usize = 0;
    while i < n
        invariant
            i <= n,
            n == a@.len(),
            n == b@.len(),
            forall|j: int| 0 <= j < i ==> folded(#[trigger] a@[j]) == folded(b@[j]),
        decreases n - i,
    {
        if fold_case(a.get_char(i)) != fold_case(b.get_char(i)) {
            return false;
        }
        i = i + 1;
    }
    true
}

/// Whether two texts hold the same characters.
pub fn same_text(a: &str, b: &str) -> (r: bool)
    ensures
        r == (a@ == b@),
{
    let n: usize = a.unicode_len();
    if b.unicode_len() != n {
        return false;
    }
    let mut i: usize = 0;
    while i < n
        invariant
            i <= n,
            n == a@.len(),
            n == b@.len(),
            forall|j: int| 0 <= j < i ==> a@[j] == b@[j],
        decreases n - i,
    {
        if a.get_char(i) != b.get_char(i) {
            return false;
        }
        i = i + 1;
    }
    assert(a@ =~= b@);
    true
}

/// The views of a list of owned texts.
pub open spec fn texts(v: Seq<String>) -> Seq<Seq<char>> {
    Seq::new(v.len(), |i: int| v[i]@)
}

} // verus!
