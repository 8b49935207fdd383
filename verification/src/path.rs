//! Paths and entry names: how a child's path is built from its parent's, the
//! pattern that lists a directory, and the name held in a fixed name buffer.

use vstd::prelude::*;
use vstd::slice::*;
use vstd::string::*;
use crate::text::{decode_lossy, utf8_lossy};

verus! {

/// Whether a path ends in one of the two separators, `\` and `/`.
pub open spec fn ends_with_separator(path: Seq<char>) -> bool {
    path.len() > 0 && (path.last() == '\\' || path.last() == '/')
}

/// The path of the child `name` of the directory `parent`: a `\` stands
/// between the two unless `parent` already ends in a separator.
pub open spec fn joined(parent: Seq<char>, name: Seq<char>) -> Seq<char> {
    if ends_with_separator(parent) {
        parent + name
    } else {
        parent + seq!['\\'] + name
    }
}

/// The pattern that matches every entry of the directory `dir`.
pub open spec fn pattern_of(dir: Seq<char>) -> Seq<char> {
    joined(dir, seq!['*'])
}

/// Whether a name is one of the two references `.` and `..` that every
/// directory holds to itself and to its parent.
pub open spec fn is_dot_name(name: Seq<char>) -> bool {
    name == seq!['.'] || name == seq!['.', '.']
}

/// The number of bytes of `raw` before its first zero byte, or the length of
/// `raw` where it holds none.
pub open spec fn terminated_len(raw: Seq<u8>) -> nat
    decreases raw.len(),
{
    if raw.len() == 0 || raw[0] == 0 {
        0
    } else {
        1 + terminated_len(raw.drop_first())
    }
}

/// The name that a zero-terminated name buffer holds.
pub open spec fn name_in(raw: Seq<u8>) -> Seq<char> {
    utf8_lossy(raw.take(terminated_len(raw) as int))
}

/// `terminated_len` is the one position that has no zero byte before it and
/// a zero byte, or the end of the buffer, at it.
pub proof fn lemma_terminated_len(raw: Seq<u8>)
    ensures
        terminated_len(raw) <= raw.len(),
        forall|i: int| 0 <= i < terminated_len(raw) ==> raw[i] != 0,
        terminated_len(raw) < raw.len() ==> raw[terminated_len(raw) as int] == 0,
    decreases raw.len(),
{
    if raw.len() > 0 && raw[0] != 0 {
        let rest = raw.drop_first();
        lemma_terminated_len(rest);
        assert forall|i: int| 0 <= i < terminated_len(raw) implies raw[i] != 0 by {
            if i > 0 {
                assert(raw[i] == rest[i - 1]);
            }
        }
    }
}

/// A position with no zero byte before it, and a zero byte or the end of the
/// buffer at it, is `terminated_len`.
pub proof fn lemma_terminated_len_is(raw: Seq<u8>, n: int)
    requires
        0 <= n <= raw.len(),
        forall|i: int| 0 <= i < n ==> raw[i] != 0,
        n < raw.len() ==> raw[n] == 0,
    ensures
        terminated_len(raw) == n,
{
    lemma_terminated_len(raw);
    let t = terminated_len(raw) as int;
    if t < n {
        assert(raw[t] != 0);
    } else if n < t {
        assert(raw[n] != 0);
    }
}

/// Tells whether a path ends in a separator.
pub fn has_trailing_separator(path: &str) -> (ends: bool)
    ensures
        ends == ends_with_separator(path@),
{
    let n = path.unicode_len();
    if n == 0 {
        false
    } else {
        let c = path.get_char(n - 1);
        c == '\\' || c == '/'
    }
}

/// Builds the path of a child from its parent's path and its own name.
pub fn join_path(parent: &str, name: &str) -> (path: String)
    ensures
        path@ == joined(parent@, name@),
{
    let mut path = String::from_str(parent);
    if !has_trailing_separator(parent) {
        proof {
            reveal_strlit("\\");
        }
        path.append("\\");
    }
    path.append(name);
    path
}

/// Tells whether a text holds the character with code zero, which no path
/// handed to the file system may hold.
pub fn contains_nul(text: &str) -> (found: bool)
    ensures
        found == text@.contains('\0'),
{
    let mut found = false;
    for c in it: text.chars()
        invariant
            it.seq() == text@,
            found == exists|j: int| 0 <= j < it.index() && text@[j] == '\0',
    {
        if c == '\0' {
            found = true;
        }
    }
    found
}

/// The pattern that lists the directory `dir`, or `None` where `dir` holds a
/// zero character and so cannot be handed to the file system: such a
/// directory counts as one that cannot be listed.
pub fn search_pattern(dir: &str) -> (pattern: Option<String>)
    ensures
        pattern is Some <==> !dir@.contains('\0'),
        pattern matches Some(p) ==> p@ == pattern_of(dir@),
{
    if contains_nul(dir) {
        None
    } else {
        proof {
            reveal_strlit("*");
        }
        let p = join_path(dir, "*");
        Some(p)
    }
}

/// Tells whether a name is `.` or `..`.
pub fn is_dot_entry(name: &str) -> (dot: bool)
    ensures
        dot == is_dot_name(name@),
{
    let n = name.unicode_len();
    if n == 1 {
        let dot = name.get_char(0) == '.';
        assert(dot ==> name@ =~= seq!['.']);
        dot
    } else if n == 2 {
        let dot = name.get_char(0) == '.' && name.get_char(1) == '.';
        assert(dot ==> name@ =~= seq!['.', '.']);
        dot
    } else {
        false
    }
}

/// The length of the name in a zero-terminated name buffer.
pub fn name_length(raw: &[u8]) -> (len: usize)
    ensures
        len == terminated_len(raw@),
        len <= raw@.len(),
{
    let mut i: usize = 0;
    while i < raw.len() && raw[i] != 0
        invariant
            i <= raw@.len(),
            forall|j: int| 0 <= j < i ==> raw@[j] != 0,
        decreases raw@.len() - i,
    {
        i += 1;
    }
    proof {
        lemma_terminated_len_is(raw@, i as int);
    }
    i
}

/// Reads the name out of a zero-terminated name buffer. Bytes that are not
/// valid UTF-8 are replaced as `String::from_utf8_lossy` replaces them.
pub fn entry_name(raw: &[u8]) -> (name: String)
    ensures
        name@ == name_in(raw@),
{
    let len = name_length(raw);
    let bytes = slice_subrange(raw, 0, len);
    decode_lossy(bytes)
}

} // verus!
