use aws_lc::text::{
    chars_of, decimal_string, ends_with, join, lower, lower_ascii, parse_u32, replace_char, same_text, split_at_char,
    starts_with, trim, white_space,
};

fn parts(s: &str, separator: char) -> Vec<String> {
    split_at_char(&chars_of(s), separator)
        .iter()
        .map(|part| part.iter().collect::<String>())
        .collect()
}

fn trimmed(s: &str) -> String {
    trim(&chars_of(s)).iter().collect()
}

fn number(s: &str) -> Option<u32> {
    parse_u32(&chars_of(s))
}

#[test]
fn same_text_compares_characters() {
    assert!(same_text("", ""));
    assert!(same_text("linux", "linux"));
    assert!(!same_text("linux", "Linux"));
    assert!(!same_text("linux", "linux "));
}

#[test]
fn characters_beyond_ascii_are_kept() {
    assert_eq!(chars_of("aé字"), vec!['a', 'é', '字']);
}

#[test]
fn replacing_touches_one_character_only() {
    assert_eq!(replace_char("1.2.3", '.', '_'), "1_2_3");
    assert_eq!(replace_char("", '.', '_'), "");
    assert_eq!(replace_char("é-ü", '-', '_'), "é_ü");
    assert_eq!(replace_char("1.2.3", '.', '_'), "1.2.3".replace('.', "_"));
}

#[test]
fn prefixes_and_suffixes() {
    assert!(starts_with("offline", "off"));
    assert!(starts_with("off", ""));
    assert!(!starts_with("of", "off"));
    assert!(!starts_with("oft", "off"));
    assert!(ends_with("freebsd", "bsd"));
    assert!(ends_with("bsd", "bsd"));
    assert!(!ends_with("sd", "bsd"));
    assert!(!ends_with("bsdx", "bsd"));
}

#[test]
fn splitting_keeps_empty_parts() {
    for s in ["", ".", "a", "a.b", ".a", "a.", "a..b", "0.69.3"] {
        let expected: Vec<String> = s.split('.').map(str::to_owned).collect();
        assert_eq!(parts(s, '.'), expected);
    }
}

#[test]
fn splitting_and_joining_give_the_text_back() {
    for s in ["", "bindgen 0.69.3", " two  spaces ", "none"] {
        assert_eq!(join(&parts(s, ' '), " "), s);
        assert!(parts(s, ' ').iter().all(|part| !part.contains(' ')));
    }
}

#[test]
fn joining() {
    assert_eq!(join(&vec![], ","), "");
    assert_eq!(join(&vec!["a".to_owned()], ","), "a");
    assert_eq!(join(&vec!["a".to_owned(), String::new(), "b".to_owned()], ", "), "a, , b");
}

#[test]
fn trimming_removes_white_space_at_both_ends() {
    for s in ["", " ", "0.69.3\n", "\t a b \r\n", "\u{a0}x\u{3000}", "\u{200b}x"] {
        assert_eq!(trimmed(s), s.trim());
    }
}

#[test]
fn white_space_is_that_of_unicode() {
    for u in 0..=0x10ffffu32 {
        if let Some(c) = char::from_u32(u) {
            assert_eq!(white_space(c), c.is_whitespace(), "{u:x}");
        }
    }
}

#[test]
fn numbers_are_read() {
    for s in
        ["", "+", "-1", "0", "007", "69", "+3", "++3", "4294967295", "4294967296", "1e3", "1_0", "٣"]
    {
        assert_eq!(number(s), s.parse::<u32>().ok(), "{s}");
    }
    assert_eq!(number("99999999999999999999999999"), None);
}

#[test]
fn numbers_are_written_and_read_back() {
    assert_eq!(decimal_string(0), "0");
    assert_eq!(decimal_string(1203), "1203");
    assert_eq!(decimal_string(u32::MAX), "4294967295");
    for n in [0, 1, 9, 10, 69, 1000, u32::MAX] {
        assert_eq!(number(&decimal_string(n)), Some(n));
    }
}

#[test]
fn lower_case_of_ascii_letters() {
    assert_eq!(lower_ascii("AZ az 09 [`{@ É"), "az az 09 [`{@ É");
    assert_eq!(lower("AZ az 09 [`{@"), "az az 09 [`{@");
}

#[test]
fn lower_case_is_that_of_unicode() {
    let pieces = ["A", "a", "Z", "É", "é", "Σ", "σ", "ς", "\u{130}", "\u{307}", "'", " ", ".", "字"];
    for a in pieces {
        for b in pieces {
            for c in pieces {
                for d in pieces {
                    let s = format!("{a}{b}{c}{d}");
                    assert_eq!(lower(&s), s.to_lowercase(), "{s}");
                }
            }
        }
    }
}

#[test]
fn case_does_not_matter_to_lower_case() {
    for (a, b) in [("MACOS", "macOS"), ("OFFÉ", "offÉ"), ("AΣB", "aΣb"), ("AΣ", "aΣ")] {
        assert_eq!(lower(a), lower(b));
    }
}
