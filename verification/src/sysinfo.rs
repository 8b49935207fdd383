//! The text of the system information report: its headings, and the section
//! on the machine's locale and default encoding.

use vstd::prelude::*;
use vstd::string::*;
use codepage::to_encoding;
use encoding_rs::WINDOWS_1252;
use sys_locale::get_locale;
use crate::text::{to_uppercase, uppercase_of};

verus! {

/// The heading of a section of the report: a blank line, the heading between
/// two rows of equals signs, and another blank line.
pub open spec fn banner_of(heading: Seq<char>) -> Seq<char> {
    "\n===== "@ + heading + " =====\n\n"@
}

/// The heading of a part of a section: a blank line, then the title in
/// square brackets.
pub open spec fn sub_heading_of(title: Seq<char>) -> Seq<char> {
    "\n["@ + title + "]\n"@
}

/// Appends the heading of a section, as it is given.
pub fn push_banner(sb: &mut String, heading: &str)
    ensures
        final(sb)@ == old(sb)@ + banner_of(heading@),
{
    sb.append("\n===== ");
    sb.append(heading);
    sb.append(" =====\n\n");
}

/// Appends the heading of a section, with the title in upper case.
pub fn add_section_header(sb: &mut String, title: &str)
    ensures
        final(sb)@ == old(sb)@ + banner_of(uppercase_of(title@)),
{
    let heading = to_uppercase(title);
    push_banner(sb, heading.as_str());
}

/// Appends the heading of a part of a section.
pub fn add_sub_section_header(sb: &mut String, title: &str)
    ensures
        final(sb)@ == old(sb)@ + sub_heading_of(title@),
{
    sb.append("\n[");
    sb.append(title);
    sb.append("]\n");
}

/// `sys_locale::get_locale`. Trusted for nothing: the locale comes from the
/// machine's settings, so nothing is claimed of it.
#[verifier::external_body]
fn host_locale() -> Option<String> {
    get_locale()
}

/// The locale to report: the one that was found, or `unknown`.
pub fn locale_or_unknown(found: Option<String>) -> (locale: String)
    ensures
        locale@ == match found {
            Some(l) => l@,
            None => "unknown"@,
        },
{
    match found {
        Some(l) => l,
        None => String::from_str("unknown"),
    }
}

/// The machine's locale, or `unknown` where it has none.
pub fn get_system_locale() -> String {
    locale_or_unknown(host_locale())
}

/// The name of the encoding that `codepage::to_encoding` gives for a code
/// page, where it gives one.
pub uninterp spec fn encoding_name_for(code_page: u16) -> Option<Seq<char>>;

/// `codepage::to_encoding`, with `encoding_rs::Encoding::name` on the
/// encoding that it finds. Trusted: the result is the name of the encoding
/// that the table of code pages holds for this identifier, and `None` where
/// the table does not hold it.
#[verifier::external_body]
fn code_page_encoding_name(code_page: u16) -> (name: Option<String>)
    ensures
        encoding_name_for(code_page) == match name {
            Some(n) => Some(n@),
            None => None,
        },
{
    match to_encoding(code_page) {
        Some(encoding) => Some(encoding.name().to_string()),
        None => None,
    }
}

/// `encoding_rs::WINDOWS_1252`, with `encoding_rs::Encoding::name` on it.
/// Trusted: that encoding's name is `windows-1252`.
#[verifier::external_body]
fn windows_1252_name() -> (name: String)
    ensures
        name@ == "windows-1252"@,
{
    WINDOWS_1252.name().to_string()
}

/// The low 16 bits of a code page identifier.
pub open spec fn low_word(code_page: u32) -> u16 {
    (code_page % 0x1_0000) as u16
}

/// The name of the default encoding, given what the table of code pages
/// holds for the active code page: the name found, or `windows-1252`.
pub open spec fn encoding_name_or_default(found: Option<Seq<char>>) -> Seq<char> {
    match found {
        Some(name) => name,
        None => "windows-1252"@,
    }
}

/// The name to report for the default encoding: the one that was found for
/// the active code page, or that of windows-1252.
pub fn encoding_or_default(found: Option<String>) -> (name: String)
    ensures
        name@ == encoding_name_or_default(
            match found {
                Some(n) => Some(n@),
                None => None,
            },
        ),
{
    match found {
        Some(n) => n,
        None => windows_1252_name(),
    }
}

/// The name of the encoding of the active code page `code_page`; windows-1252
/// where the code page has no encoding. Of the identifier only the low 16
/// bits count.
pub fn get_system_encoding(code_page: u32) -> (name: String)
    ensures
        name@ == encoding_name_or_default(encoding_name_for(low_word(code_page))),
{
    let word: u16 = (code_page & 0xffff) as u16;
    assert(code_page & 0xffff == code_page % 0x1_0000) by (bit_vector);
    encoding_or_default(code_page_encoding_name(word))
}

/// The section on locale and encoding, after its heading.
pub open spec fn locale_lines(locale: Seq<char>, encoding: Seq<char>) -> Seq<char> {
    "System Locale: "@ + locale + "\n"@ + "Default Encoding: "@ + encoding + "\n"@
}

/// Appends the section on locale and encoding for a given locale and a given
/// encoding name.
pub fn push_locale_and_encoding(sb: &mut String, locale: &str, encoding: &str)
    ensures
        final(sb)@ == old(sb)@ + banner_of(uppercase_of("Locale and Encoding"@)) + locale_lines(
            locale@,
            encoding@,
        ),
{
    add_section_header(sb, "Locale and Encoding");
    sb.append("System Locale: ");
    sb.append(locale);
    sb.append("\n");
    sb.append("Default Encoding: ");
    sb.append(encoding);
    sb.append("\n");
}

/// Appends the section on locale and encoding: the machine's locale, whatever
/// it is, and the name of the encoding of the active code page `code_page`.
pub fn print_locale_and_encoding(sb: &mut String, code_page: u32)
    ensures
        exists|locale: Seq<char>|
            final(sb)@ == old(sb)@ + banner_of(uppercase_of("Locale and Encoding"@))
                + #[trigger] locale_lines(
                locale,
                encoding_name_or_default(encoding_name_for(low_word(code_page))),
            ),
{
    let locale = get_system_locale();
    let encoding = get_system_encoding(code_page);
    push_locale_and_encoding(sb, locale.as_str(), encoding.as_str());
}

} // verus!
