//! Text handling that the reports share: characters and strings, trimming,
//! lines, and the few string functions of the standard library that are
//! taken on trust.

use vstd::prelude::*;

verus! {

/// The characters of a text, one by one.
pub fn chars_of(text: &str) -> (chars: Vec<char>)
    ensures
        chars@ == text@,
{
    let mut chars: Vec<char> = Vec::new();
    for c in it: text.chars()
        invariant
            it.seq() == text@,
            chars@ == text@.take(it.index()),
    {
        chars.push(c);
    }
    chars
}

/// The text that a run of characters spells.
pub fn text_of(chars: &[char]) -> (text: String)
    ensures
        text@ == chars@,
{
    let mut text = String::new();
    let mut k: usize = 0;
    while k < chars.len()
        invariant
            k <= chars@.len(),
            text@ == chars@.take(k as int),
        decreases chars@.len() - k,
    {
        push_char(&mut text, chars[k]);
        k += 1;
    }
    text
}

/// `String::push`. Trusted: the text afterwards is the text before with the
/// character appended.
#[verifier::external_body]
pub(crate) fn push_char(text: &mut String, c: char)
    ensures
        final(text)@ == old(text)@.push(c),
{
    text.push(c);
}

/// What `str::to_uppercase` makes of a text.
pub uninterp spec fn uppercase_of(text: Seq<char>) -> Seq<char>;

/// `str::to_uppercase`. Trusted: the result is the function's result for this
/// text; it depends on the text alone.
#[verifier::external_body]
pub(crate) fn to_uppercase(text: &str) -> (upper: String)
    ensures
        upper@ == uppercase_of(text@),
{
    text.to_uppercase()
}

/// What `String::from_utf8_lossy` makes of a byte string.
pub uninterp spec fn utf8_lossy(bytes: Seq<u8>) -> Seq<char>;

/// `String::from_utf8_lossy`, with the result owned. Trusted: the text is
/// the function's result for these bytes, whatever they hold.
#[verifier::external_body]
pub(crate) fn decode_lossy(bytes: &[u8]) -> (text: String)
    ensures
        text@ == utf8_lossy(bytes@),
{
    String::from_utf8_lossy(bytes).into_owned()
}

/// Whether a character is white space: one of the 25 characters with the
/// Unicode property `White_Space`.
pub open spec fn is_white_space(c: char) -> bool {
    let n = c as u32;
    (0x09 <= n && n <= 0x0d) || n == 0x20 || n == 0x85 || n == 0xa0 || n == 0x1680 || (0x2000 <= n
        && n <= 0x200a) || n == 0x2028 || n == 0x2029 || n == 0x202f || n == 0x205f || n == 0x3000
}

/// Tells whether a character is white space.
pub fn is_space(c: char) -> (space: bool)
    ensures
        space == is_white_space(c),
{
    let n = c as u32;
    (0x09 <= n && n <= 0x0d) || n == 0x20 || n == 0x85 || n == 0xa0 || n == 0x1680 || (0x2000 <= n
        && n <= 0x200a) || n == 0x2028 || n == 0x2029 || n == 0x202f || n == 0x205f || n == 0x3000
}

/// A text without the white space at its start.
pub open spec fn trim_start_of(s: Seq<char>) -> Seq<char>
    decreases s.len(),
{
    if s.len() > 0 && is_white_space(s.first()) {
        trim_start_of(s.drop_first())
    } else {
        s
    }
}

/// A text without the white space at its end.
pub open spec fn trim_end_of(s: Seq<char>) -> Seq<char>
    decreases s.len(),
{
    if s.len() > 0 && is_white_space(s.last()) {
        trim_end_of(s.drop_last())
    } else {
        s
    }
}

/// A text without the white space at its start and at its end.
pub open spec fn trimmed(s: Seq<char>) -> Seq<char> {
    trim_end_of(trim_start_of(s))
}

/// The number of characters before the first line feed of a text, or the
/// length of the text where it holds none.
pub open spec fn first_break(s: Seq<char>) -> nat
    decreases s.len(),
{
    if s.len() == 0 || s.first() == '\n' {
        0
    } else {
        1 + first_break(s.drop_first())
    }
}

/// The lines of a text, each without the white space at its start and at its
/// end. Lines end at a line feed; a carriage return before it is white space
/// and goes with the trimming. A line feed at the very end opens no further
/// line.
pub open spec fn trimmed_lines_of(s: Seq<char>) -> Seq<Seq<char>>
    decreases s.len(),
{
    if s.len() == 0 {
        Seq::empty()
    } else {
        let n = first_break(s) as int;
        if n >= s.len() {
            seq![trimmed(s)]
        } else {
            seq![trimmed(s.take(n))] + trimmed_lines_of(s.skip(n + 1))
        }
    }
}

/// `first_break` is the one position with no line feed before it and a line
/// feed, or the end of the text, at it.
pub proof fn lemma_first_break_is(s: Seq<char>, n: int)
    requires
        0 <= n <= s.len(),
        forall|i: int| 0 <= i < n ==> s[i] != '\n',
        n < s.len() ==> s[n] == '\n',
    ensures
        first_break(s) == n,
    decreases s.len(),
{
    if s.len() > 0 && s.first() != '\n' {
        let rest = s.drop_first();
        assert forall|i: int| 0 <= i < n - 1 implies rest[i] != '\n' by {
            assert(rest[i] == s[i + 1]);
        }
        lemma_first_break_is(rest, n - 1);
    }
}

/// The bounds of what is left of `chars[from..to]` when the white space at
/// its two ends is taken away.
fn trim_bounds(chars: &[char], from: usize, to: usize) -> (bounds: (usize, usize))
    requires
        from <= to <= chars@.len(),
    ensures
        from <= bounds.0 <= bounds.1 <= to,
        chars@.subrange(bounds.0 as int, bounds.1 as int) == trimmed(
            chars@.subrange(from as int, to as int),
        ),
{
    let mut a = from;
    while a < to && is_space(chars[a])
        invariant
            from <= a <= to <= chars@.len(),
            trim_start_of(chars@.subrange(from as int, to as int)) == trim_start_of(
                chars@.subrange(a as int, to as int),
            ),
        decreases to - a,
    {
        assert(chars@.subrange(a as int, to as int).drop_first() =~= chars@.subrange(
            a + 1,
            to as int,
        ));
        a += 1;
    }
    let mut b = to;
    while b > a && is_space(chars[b - 1])
        invariant
            a <= b <= to <= chars@.len(),
            trim_end_of(chars@.subrange(a as int, to as int)) == trim_end_of(
                chars@.subrange(a as int, b as int),
            ),
        decreases b - a,
    {
        assert(chars@.subrange(a as int, b as int).drop_last() =~= chars@.subrange(
            a as int,
            b - 1,
        ));
        b -= 1;
    }
    (a, b)
}

/// A text without the white space at its start and at its end.
pub fn trim(text: &str) -> (result: String)
    ensures
        result@ == trimmed(text@),
{
    let chars = chars_of(text);
    let (a, b) = trim_bounds(chars.as_slice(), 0, chars.len());
    assert(chars@.subrange(0, chars@.len() as int) =~= chars@);
    text_of(vstd::slice::slice_subrange(chars.as_slice(), a, b))
}

/// The views of a vector of strings.
pub open spec fn texts_of(strings: Seq<String>) -> Seq<Seq<char>> {
    Seq::new(strings.len(), |k: int| strings[k]@)
}

/// The lines of a text, each without the white space at its start and at its
/// end.
pub fn trimmed_lines(text: &str) -> (lines: Vec<String>)
    ensures
        texts_of(lines@) == trimmed_lines_of(text@),
{
    let chars = chars_of(text);
    let slice = chars.as_slice();
    let n = slice.len();
    let mut lines: Vec<String> = Vec::new();
    let mut start: usize = 0;
    assert(slice@.skip(0) =~= text@);
    while start < n
        invariant
            slice@ == text@,
            n == slice@.len(),
            start <= n,
            texts_of(lines@) + trimmed_lines_of(slice@.skip(start as int)) == trimmed_lines_of(
                text@,
            ),
        decreases n - start,
    {
        let ghost rest = slice@.skip(start as int);
        let mut end = start;
        while end < n && slice[end] != '\n'
            invariant
                n == slice@.len(),
                start <= end <= n,
                forall|i: int| start <= i < end ==> slice@[i] != '\n',
            decreases n - end,
        {
            end += 1;
        }
        proof {
            lemma_first_break_is(rest, end - start);
            assert(rest.take(end - start) =~= slice@.subrange(start as int, end as int));
            if end < n {
                assert(rest.skip(end - start + 1) =~= slice@.skip(end + 1));
            }
        }
        let (a, b) = trim_bounds(slice, start, end);
        let line = text_of(vstd::slice::slice_subrange(slice, a, b));
        lines.push(line);
        if end < n {
            start = end + 1;
        } else {
            start = n;
        }
    }
    lines
}

} // verus!
