//! The text of the census report: one section for each volume, with a
//! header line, one line for each ranked file, and a blank line at the end.

use vstd::prelude::*;
use vstd::string::*;

verus! {

/// Whether a character is one of the letters `A` to `Z` and `a` to `z`.
pub open spec fn is_ascii_letter(c: char) -> bool {
    ('A' <= c && c <= 'Z') || ('a' <= c && c <= 'z')
}

/// Whether a volume's root has the form of a drive letter: a letter, then a
/// colon, then anything.
pub open spec fn is_drive_style(root: Seq<char>) -> bool {
    root.len() >= 2 && is_ascii_letter(root[0]) && root[1] == ':'
}

/// The header line of a volume's section, without the line break. A root in
/// drive-letter form is named by its letter and its colon, and that colon
/// ends the line; a root of any other form is named in full, and a colon is
/// put behind it.
pub open spec fn header_of(root: Seq<char>) -> Seq<char> {
    if is_drive_style(root) {
        "Largest files on "@ + root.take(2)
    } else {
        "Largest files on "@ + root + ":"@
    }
}

/// The line of one ranked file, without the line break. `size_text` is the
/// file's size in MiB as it is to be printed.
pub open spec fn line_of(path: Seq<char>, size_text: Seq<char>) -> Seq<char> {
    path + ": "@ + size_text + " MB"@
}

/// The lines of a section, each followed by a line break.
pub open spec fn body_of(lines: Seq<Seq<char>>) -> Seq<char>
    decreases lines.len(),
{
    if lines.len() == 0 {
        Seq::empty()
    } else {
        body_of(lines.drop_last()) + lines.last() + "\n"@
    }
}

/// The section of one volume: the header line, the lines of the ranked
/// files, and a blank line.
pub open spec fn section_of(header: Seq<char>, lines: Seq<Seq<char>>) -> Seq<char> {
    header + "\n"@ + body_of(lines) + "\n"@
}

/// The views of a vector of strings.
pub open spec fn lines_of(lines: Seq<String>) -> Seq<Seq<char>> {
    Seq::new(lines.len(), |k: int| lines[k]@)
}

/// The letter and the colon of a root in drive-letter form; `None` for a root
/// of any other form, which is reported under its whole name.
pub fn drive_label(root: &str) -> (label: Option<String>)
    ensures
        label is Some <==> is_drive_style(root@),
        label matches Some(l) ==> l@ == root@.take(2),
{
    let n = root.unicode_len();
    if n < 2 {
        return None;
    }
    let letter = root.get_char(0);
    let colon = root.get_char(1);
    if (('A' <= letter && letter <= 'Z') || ('a' <= letter && letter <= 'z')) && colon == ':' {
        let label = String::from_str(root.substring_char(0, 2));
        Some(label)
    } else {
        None
    }
}

/// The header line of a volume's section, without the line break.
pub fn section_header(root: &str) -> (header: String)
    ensures
        header@ == header_of(root@),
{
    let mut header = String::from_str("Largest files on ");
    match drive_label(root) {
        Some(label) => {
            header.append(label.as_str());
        },
        None => {
            header.append(root);
            header.append(":");
        },
    }
    header
}

/// The line of one ranked file, without the line break.
pub fn entry_line(path: &str, size_text: &str) -> (line: String)
    ensures
        line@ == line_of(path@, size_text@),
{
    let mut line = String::from_str(path);
    line.append(": ");
    line.append(size_text);
    line.append(" MB");
    line
}

/// The section of one volume. A volume without ranked files still has its
/// header line and its blank line.
pub fn section_text(header: &str, lines: &Vec<String>) -> (section: String)
    ensures
        section@ == section_of(header@, lines_of(lines@)),
        lines@.len() == 0 ==> section@ == header@ + "\n"@ + "\n"@,
{
    let mut section = String::from_str(header);
    section.append("\n");
    let ghost start = section@;
    let mut k: usize = 0;
    while k < lines.len()
        invariant
            k <= lines@.len(),
            section@ == start + body_of(lines_of(lines@).take(k as int)),
        decreases lines@.len() - k,
    {
        let ghost all = lines_of(lines@);
        assert(all.take(k + 1).drop_last() =~= all.take(k as int));
        section.append(lines[k].as_str());
        section.append("\n");
        k += 1;
    }
    assert(lines_of(lines@).take(k as int) =~= lines_of(lines@));
    section.append("\n");
    section
}

} // verus!
