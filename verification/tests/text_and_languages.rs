use sysdiag::languages::{
    language_candidates, language_name, print_installed_languages, push_language_block,
    where_results, LANGUAGE_COUNT,
};
use sysdiag::plan::{
    components, hardware_resources, report_sections, software_environment, system_summary,
    ValueFormat, WmiProperty,
};
use sysdiag::properties::{
    decimal, push_property_line, push_query_error, push_record, query_text, render_value,
    signed_decimal, PropertyValue,
};
use sysdiag::text::{chars_of, is_space, text_of, trim, trimmed_lines};

#[test]
fn white_space_is_what_std_calls_white_space() {
    for code in 0..=0x10ffffu32 {
        if let Some(c) = char::from_u32(code) {
            assert_eq!(is_space(c), c.is_whitespace(), "U+{:04X}", code);
        }
    }
}

#[test]
fn chars_and_back() {
    assert_eq!(chars_of("a\u{e9}\u{1f600}z"), vec!['a', '\u{e9}', '\u{1f600}', 'z']);
    assert_eq!(chars_of(""), Vec::<char>::new());
    assert_eq!(text_of(&['h', 'i', '\u{3000}']), "hi\u{3000}");
    assert_eq!(text_of(&[]), "");
}

#[test]
fn trim_takes_both_ends() {
    for text in ["", " ", "a", "  a b  ", "\t\r\nx\u{a0}", "\u{2003}y z\u{3000}\n", "no-space", " \u{85} "] {
        assert_eq!(trim(text), text.trim(), "{:?}", text);
    }
}

#[test]
fn lines_are_split_and_trimmed() {
    assert_eq!(trimmed_lines(""), Vec::<String>::new());
    assert_eq!(trimmed_lines("\n"), vec![""]);
    assert_eq!(trimmed_lines("a"), vec!["a"]);
    assert_eq!(trimmed_lines("a\n"), vec!["a"]);
    assert_eq!(trimmed_lines("a\r\n  b  \r\n"), vec!["a", "b"]);
    assert_eq!(trimmed_lines("a\n\nb"), vec!["a", "", "b"]);
    assert_eq!(trimmed_lines("a\r"), vec!["a"]);
    for text in [
        "C:\\Program Files\\x\\cl.exe\r\nC:\\tools\\cl.exe\r\n",
        " one \n two\r\n\r\nthree",
        "\n\n",
        "x\ry\n",
        "tail   ",
    ] {
        let expected: Vec<String> = text.lines().map(|s| s.trim().to_string()).collect();
        assert_eq!(trimmed_lines(text), expected, "{:?}", text);
    }
}

#[test]
fn where_output_is_read_on_success_only() {
    let stdout = b"C:\\Python\\python.exe\r\nC:\\Users\\me\\python.exe\r\n";
    assert_eq!(
        where_results(true, stdout),
        vec!["C:\\Python\\python.exe".to_string(), "C:\\Users\\me\\python.exe".to_string()]
    );
    assert_eq!(where_results(false, stdout), Vec::<String>::new());
    assert_eq!(where_results(true, b""), Vec::<String>::new());
    assert_eq!(where_results(true, &[b'a', 0xff, b'\n']), vec!["a\u{fffd}".to_string()]);
}

#[test]
fn language_table_holds_the_known_languages() {
    assert_eq!(LANGUAGE_COUNT, 46);
    assert_eq!(language_name(0), "C");
    assert_eq!(language_candidates(0), vec!["cl.exe", "gcc.exe", "clang.exe"]);
    assert_eq!(language_name(1), "C++");
    assert_eq!(language_candidates(1), vec!["cl.exe", "g++.exe", "clang++.exe"]);
    assert_eq!(language_name(8), "Rust");
    assert_eq!(language_candidates(8), vec!["rustc.exe", "cargo.exe"]);
    assert_eq!(language_name(18), "Python");
    assert_eq!(
        language_candidates(18),
        vec!["python.exe", "python3.exe", "pypy.exe", "pypy3.exe"]
    );
    assert_eq!(language_name(39), "Emscripten (C/C++)");
    assert_eq!(language_candidates(39), vec!["emcc.bat", "em++.bat", "emcc", "em++"]);
    assert_eq!(language_name(45), "PowerShell");
    assert_eq!(language_candidates(45), vec!["powershell.exe", "pwsh.exe"]);
    assert_eq!(language_name(46), "");
    assert_eq!(language_candidates(46), Vec::<&str>::new());
    for index in 0..LANGUAGE_COUNT {
        assert!(!language_name(index).is_empty());
        assert!(!language_candidates(index).is_empty());
    }
}

#[test]
fn language_block_lists_the_paths() {
    let mut sb = String::from("x");
    push_language_block(&mut sb, "Go", &vec!["C:\\Go\\bin\\go.exe".to_string()]);
    assert_eq!(sb, "xGo is installed at:\n   C:\\Go\\bin\\go.exe\n\n");
    let mut sb = String::from("x");
    push_language_block(&mut sb, "Go", &Vec::new());
    assert_eq!(sb, "x");
    let mut sb = String::new();
    push_language_block(&mut sb, "R", &vec!["a".to_string(), "b".to_string()]);
    assert_eq!(sb, "R is installed at:\n   a\n   b\n\n");
}

#[test]
fn installed_languages_section() {
    let mut found: Vec<Vec<String>> = vec![Vec::new(); LANGUAGE_COUNT];
    found[8] = vec!["C:\\cargo\\bin\\rustc.exe".to_string(), "C:\\cargo\\bin\\cargo.exe".to_string()];
    found[0] = vec!["C:\\llvm\\clang.exe".to_string()];
    let mut sb = String::new();
    print_installed_languages(&mut sb, &found);
    assert_eq!(
        sb,
        "\n===== INSTALLED PROGRAMMING LANGUAGES =====\n\n\
         C is installed at:\n   C:\\llvm\\clang.exe\n\n\
         Rust is installed at:\n   C:\\cargo\\bin\\rustc.exe\n   C:\\cargo\\bin\\cargo.exe\n\n"
    );
}

#[test]
fn installed_languages_with_short_or_long_input() {
    let mut sb = String::new();
    print_installed_languages(&mut sb, &Vec::new());
    assert_eq!(sb, "\n===== INSTALLED PROGRAMMING LANGUAGES =====\n\n");
    let mut found: Vec<Vec<String>> = vec![Vec::new(); LANGUAGE_COUNT + 3];
    found[45] = vec!["ps".to_string()];
    found[46] = vec!["beyond".to_string()];
    let mut sb = String::new();
    print_installed_languages(&mut sb, &found);
    assert_eq!(
        sb,
        "\n===== INSTALLED PROGRAMMING LANGUAGES =====\n\nPowerShell is installed at:\n   ps\n\n"
    );
}

#[test]
fn decimal_numerals() {
    for n in [0u64, 1, 9, 10, 11, 99, 100, 1234567890, u64::MAX, 1 << 32, 1_000_000_007] {
        assert_eq!(decimal(n), n.to_string());
    }
    for n in [0i64, 1, -1, 9, -9, 10, -10, 123456, -123456, i64::MAX, i64::MIN, i64::MIN + 1] {
        assert_eq!(signed_decimal(n), n.to_string());
    }
}

#[test]
fn values_are_rendered_by_kind() {
    assert_eq!(render_value(&PropertyValue::Text("Windows 11".to_string())), "Windows 11");
    assert_eq!(render_value(&PropertyValue::Unsigned(17179869184)), "17179869184");
    assert_eq!(render_value(&PropertyValue::Signed(-42)), "-42");
    assert_eq!(render_value(&PropertyValue::Bool(true)), "true");
    assert_eq!(render_value(&PropertyValue::Bool(false)), "false");
    assert_eq!(render_value(&PropertyValue::Null), "Null");
    assert_eq!(render_value(&PropertyValue::Other("Array([])".to_string())), "Array([])");
}

#[test]
fn query_with_and_without_condition() {
    assert_eq!(query_text("Win32_BIOS", None), "SELECT * FROM Win32_BIOS");
    assert_eq!(
        query_text("Win32_NetworkAdapterConfiguration", Some("IPEnabled = TRUE")),
        "SELECT * FROM Win32_NetworkAdapterConfiguration WHERE IPEnabled = TRUE"
    );
}

#[test]
fn property_and_error_lines() {
    let mut sb = String::from("x");
    push_property_line(&mut sb, "OS Name", "Windows");
    assert_eq!(sb, "xOS Name: Windows\n");
    let mut sb = String::from("x");
    push_query_error(&mut sb, "Win32_BIOS", "access denied");
    assert_eq!(sb, "xError querying Win32_BIOS: access denied\n");
}

#[test]
fn record_prints_the_held_properties() {
    let names = vec!["Adapter".to_string(), "VRAM (GB)".to_string(), "Driver".to_string()];
    let mut sb = String::from("x");
    push_record(&mut sb, &names, &vec![Some("GPU".to_string()), None, Some("1.2".to_string())]);
    assert_eq!(sb, "xAdapter: GPU\nDriver: 1.2\n\n");
    let mut sb = String::new();
    push_record(&mut sb, &names, &vec![None, None, None]);
    assert_eq!(sb, "\n");
    let mut sb = String::new();
    push_record(&mut sb, &names, &vec![Some("only".to_string())]);
    assert_eq!(sb, "Adapter: only\n\n");
    let mut sb = String::new();
    push_record(
        &mut sb,
        &names[..1].to_vec(),
        &vec![Some("a".to_string()), Some("ignored".to_string())],
    );
    assert_eq!(sb, "Adapter: a\n\n");
}

#[test]
fn property_is_plain_until_told_otherwise() {
    let plain = WmiProperty::new("Capacity", "Memory Capacity (GB)");
    assert_eq!(plain.property_name, "Capacity");
    assert_eq!(plain.display_name, "Memory Capacity (GB)");
    assert_eq!(plain.format, ValueFormat::Plain);
    let scaled = plain.with_formatter(ValueFormat::MemoryGb);
    assert_eq!(scaled.property_name, "Capacity");
    assert_eq!(scaled.display_name, "Memory Capacity (GB)");
    assert_eq!(scaled.format, ValueFormat::MemoryGb);
}

#[test]
fn plan_names_the_classes_in_order() {
    let sections = report_sections();
    let titles: Vec<&str> = sections.iter().map(|s| s.title).collect();
    assert_eq!(
        titles,
        vec!["System Summary", "Hardware Resources", "Components", "Software Environment"]
    );
    let classes: Vec<Vec<&str>> =
        sections.iter().map(|s| s.queries.iter().map(|q| q.class_name).collect()).collect();
    assert_eq!(
        classes,
        vec![
            vec!["Win32_OperatingSystem", "Win32_BIOS", "Win32_ComputerSystem"],
            vec!["Win32_PhysicalMemory", "Win32_Processor"],
            vec!["Win32_VideoController", "Win32_DiskDrive"],
            vec!["Win32_QuickFixEngineering", "Win32_NetworkAdapterConfiguration"],
        ]
    );
    let counts: Vec<Vec<usize>> =
        sections.iter().map(|s| s.queries.iter().map(|q| q.properties.len()).collect()).collect();
    assert_eq!(counts, vec![vec![6, 4, 4], vec![3, 6], vec![4, 3], vec![3, 3]]);
}

#[test]
fn plan_details() {
    let summary = system_summary();
    assert!(summary.queries.iter().all(|q| q.section_title.is_none() && q.condition.is_none()));
    let memory = &summary.queries[2].properties[3];
    assert_eq!(memory.property_name, "TotalPhysicalMemory");
    assert_eq!(memory.display_name, "Total Physical Memory (GB)");
    assert_eq!(memory.format, ValueFormat::MemoryGb);
    assert_eq!(summary.queries[0].properties[0].property_name, "Caption");
    assert_eq!(summary.queries[0].properties[0].display_name, "OS Name");
    assert_eq!(summary.queries[0].properties[0].format, ValueFormat::Plain);

    let hardware = hardware_resources();
    assert_eq!(hardware.queries[0].section_title, Some("Memory Devices"));
    assert_eq!(hardware.queries[1].section_title, Some("Processor Details"));
    let formats: Vec<ValueFormat> = hardware.queries[1].properties.iter().map(|p| p.format).collect();
    assert_eq!(
        formats,
        vec![
            ValueFormat::Plain,
            ValueFormat::Plain,
            ValueFormat::Plain,
            ValueFormat::Plain,
            ValueFormat::CacheMb,
            ValueFormat::CacheMb,
        ]
    );
    assert_eq!(hardware.queries[1].properties[4].property_name, "L2CacheSize");
    assert_eq!(hardware.queries[1].properties[5].display_name, "L3 Cache (MB)");

    let parts = components();
    assert_eq!(parts.queries[0].section_title, Some("Display"));
    assert_eq!(parts.queries[1].section_title, Some("Storage"));
    assert_eq!(parts.queries[0].properties[1].format, ValueFormat::MemoryGb);
    assert_eq!(parts.queries[1].properties[1].property_name, "Size");

    let software = software_environment();
    assert_eq!(software.queries[0].section_title, Some("Windows Updates"));
    assert_eq!(software.queries[0].condition, None);
    assert_eq!(software.queries[1].section_title, Some("Network"));
    assert_eq!(software.queries[1].condition, Some("IPEnabled = TRUE"));
    assert_eq!(software.queries[1].properties[2].property_name, "MACAddress");
    assert_eq!(software.queries[1].properties[2].display_name, "MAC");
}
