use sysdiag::sysinfo::{
    add_section_header, add_sub_section_header, encoding_or_default, get_system_encoding,
    get_system_locale, locale_or_unknown, print_locale_and_encoding, push_banner,
    push_locale_and_encoding,
};

#[test]
fn section_header_is_upper_case() {
    let mut sb = String::from("x");
    add_section_header(&mut sb, "System Summary");
    assert_eq!(sb, "x\n===== SYSTEM SUMMARY =====\n\n");
}

#[test]
fn banner_keeps_the_heading_as_given() {
    let mut sb = String::new();
    push_banner(&mut sb, "Mixed Case");
    assert_eq!(sb, "\n===== Mixed Case =====\n\n");
}

#[test]
fn sub_section_header_is_bracketed() {
    let mut sb = String::from("x");
    add_sub_section_header(&mut sb, "Memory Devices");
    assert_eq!(sb, "x\n[Memory Devices]\n");
}

#[test]
fn locale_falls_back_to_unknown() {
    assert_eq!(locale_or_unknown(Some("en-US".to_string())), "en-US");
    assert_eq!(locale_or_unknown(None), "unknown");
    assert!(!get_system_locale().is_empty());
}

#[test]
fn encoding_of_known_code_pages() {
    assert_eq!(get_system_encoding(1252), "windows-1252");
    assert_eq!(get_system_encoding(65001), "UTF-8");
    assert_eq!(get_system_encoding(932), "Shift_JIS");
    assert_eq!(get_system_encoding(1251), "windows-1251");
    assert_eq!(get_system_encoding(28591), "windows-1252");
}

#[test]
fn encoding_of_unknown_code_page_is_windows_1252() {
    assert_eq!(get_system_encoding(1), "windows-1252");
    assert_eq!(get_system_encoding(437), "windows-1252");
    assert_eq!(encoding_or_default(None), "windows-1252");
    assert_eq!(encoding_or_default(Some("UTF-8".to_string())), "UTF-8");
}

#[test]
fn encoding_reads_the_low_word_only() {
    assert_eq!(get_system_encoding(0x1_0000 + 65001), "UTF-8");
    assert_eq!(get_system_encoding(0xffff_0000 + 932), "Shift_JIS");
}

#[test]
fn locale_section_layout() {
    let mut sb = String::new();
    push_locale_and_encoding(&mut sb, "de-DE", "windows-1252");
    assert_eq!(
        sb,
        "\n===== LOCALE AND ENCODING =====\n\nSystem Locale: de-DE\nDefault Encoding: windows-1252\n"
    );
}

#[test]
fn locale_section_of_this_machine() {
    let mut sb = String::from("head");
    print_locale_and_encoding(&mut sb, 65001);
    assert!(sb.starts_with("head\n===== LOCALE AND ENCODING =====\n\nSystem Locale: "));
    assert!(sb.ends_with("\nDefault Encoding: UTF-8\n"));
}
