use theme_controller::cookie::{persisted_entry, read_persisted};
use theme_controller::text::{char_is_whitespace, chars_of};

/// Reads the theme with the string methods of std: split at `;`, trim, take
/// what follows `theme=` in the first segment that begins with it.
fn read_with_std(cookies: &str) -> Option<String> {
    for segment in cookies.split(';') {
        let segment = segment.trim();
        if segment.starts_with("theme=") {
            return Some(segment[6..].to_string());
        }
    }
    None
}

#[test]
fn reads_theme_between_other_pairs() {
    assert_eq!(read_persisted("a=1; theme=light; b=2"), Some("light".to_string()));
}

#[test]
fn reads_nothing_without_theme_segment() {
    assert_eq!(read_persisted("a=1; b=2"), None);
    assert_eq!(read_persisted("a=1"), None);
    assert_eq!(read_persisted("session=theme=light"), None);
}

#[test]
fn reads_nothing_from_empty_string() {
    assert_eq!(read_persisted(""), None);
    assert_eq!(read_persisted(";"), None);
    assert_eq!(read_persisted(" ; ;; "), None);
}

#[test]
fn first_match_wins() {
    assert_eq!(read_persisted("theme=dark; theme=light"), Some("dark".to_string()));
    assert_eq!(read_persisted("x=1;theme=a;theme=b;theme=c"), Some("a".to_string()));
}

#[test]
fn reads_theme_alone() {
    assert_eq!(read_persisted("theme=light"), Some("light".to_string()));
    assert_eq!(read_persisted("theme=light;"), Some("light".to_string()));
    assert_eq!(read_persisted(";theme=light"), Some("light".to_string()));
}

#[test]
fn reads_empty_value() {
    assert_eq!(read_persisted("theme="), Some(String::new()));
    assert_eq!(read_persisted("a=1; theme= ; b=2"), Some(String::new()));
}

#[test]
fn trims_segment_at_both_ends() {
    assert_eq!(read_persisted("  theme=light  "), Some("light".to_string()));
    assert_eq!(read_persisted("a=1;\t\ntheme=light\r\n;b=2"), Some("light".to_string()));
    assert_eq!(read_persisted("\u{a0}theme=light\u{3000}"), Some("light".to_string()));
    assert_eq!(read_persisted("\u{2003}theme=x\u{2028}\u{85}"), Some("x".to_string()));
}

#[test]
fn keeps_white_space_inside_value() {
    assert_eq!(read_persisted("theme= light"), Some(" light".to_string()));
    assert_eq!(read_persisted("theme=solar ized "), Some("solar ized".to_string()));
}

#[test]
fn keeps_equals_sign_inside_value() {
    assert_eq!(read_persisted("theme=a=b"), Some("a=b".to_string()));
}

#[test]
fn segment_must_begin_with_name() {
    assert_eq!(read_persisted("mytheme=light"), None);
    assert_eq!(read_persisted("Theme=light"), None);
    assert_eq!(read_persisted("theme =light"), None);
    assert_eq!(read_persisted("theme"), None);
    assert_eq!(read_persisted("them=e=light"), None);
    assert_eq!(read_persisted("=theme=light"), None);
}

#[test]
fn zero_width_space_is_not_trimmed() {
    assert_eq!(read_persisted("\u{200b}theme=light"), None);
    assert_eq!(read_persisted("theme=light\u{200b}"), Some("light\u{200b}".to_string()));
}

#[test]
fn reads_values_beyond_ascii() {
    assert_eq!(read_persisted("käse=1; theme=ночь; b=2"), Some("ночь".to_string()));
    assert_eq!(read_persisted("a=🌙; theme=🌙dark"), Some("🌙dark".to_string()));
}

#[test]
fn reads_as_std_string_methods_do() {
    let samples = [
        "",
        ";",
        ";;",
        "theme=",
        "theme=;",
        " theme=light",
        "theme=light ",
        "a=1; theme=light; b=2",
        "a=1;theme=light;b=2",
        "a=1 ;  theme=  light  ; b=2",
        "theme=dark; theme=light",
        "a; b; c",
        "theme",
        "theme ",
        "them",
        "theme=\u{a0}",
        "\u{1680}theme=\u{1680}x\u{1680}",
        "x=1;\u{2000}\u{200a}theme=é\u{202f}\u{205f};",
        "\u{180e}theme=x",
        "\u{feff}theme=x",
        "a=1;\u{b}theme=y\u{c}",
        "\u{1c}theme=z",
        "ttheme=1;hheme=2;theme=3",
        "theme=a;b; path=/; max-age=31536000",
    ];
    for cookies in samples {
        assert_eq!(read_persisted(cookies), read_with_std(cookies), "{:?}", cookies);
    }
}

#[test]
fn white_space_is_that_of_std() {
    for code in 0..=0x10ffff_u32 {
        if let Some(c) = char::from_u32(code) {
            assert_eq!(char_is_whitespace(c), c.is_whitespace(), "U+{:04X}", code);
        }
    }
}

#[test]
fn white_space_examples() {
    assert!(char_is_whitespace(' '));
    assert!(char_is_whitespace('\t'));
    assert!(char_is_whitespace('\n'));
    assert!(char_is_whitespace('\u{a0}'));
    assert!(char_is_whitespace('\u{3000}'));
    assert!(!char_is_whitespace('t'));
    assert!(!char_is_whitespace('='));
    assert!(!char_is_whitespace(';'));
    assert!(!char_is_whitespace('\u{8}'));
    assert!(!char_is_whitespace('\u{e}'));
    assert!(!char_is_whitespace('\u{200b}'));
}

#[test]
fn chars_of_gives_each_character() {
    assert_eq!(chars_of(""), Vec::<char>::new());
    assert_eq!(chars_of("a=é;"), vec!['a', '=', 'é', ';']);
}

#[test]
fn segments_end_at_each_semicolon() {
    assert_eq!(read_persisted("ab;cd;;theme=e"), Some("e".to_string()));
    assert_eq!(read_persisted("ab;cd;;theme=e;"), Some("e".to_string()));
    assert_eq!(read_persisted("theme=e;;"), Some("e".to_string()));
    assert_eq!(read_persisted(";;theme=;;"), Some(String::new()));
}

#[test]
fn segment_of_white_space_names_nothing() {
    assert_eq!(read_persisted("   "), None);
    assert_eq!(read_persisted(" \t ; \n "), None);
    assert_eq!(read_persisted("  ;theme=x"), Some("x".to_string()));
}

#[test]
fn segment_shorter_than_name_names_nothing() {
    assert_eq!(read_persisted("t"), None);
    assert_eq!(read_persisted("theme"), None);
    assert_eq!(read_persisted("a;th;theme=x"), Some("x".to_string()));
}

#[test]
fn entry_has_pair_path_and_max_age() {
    assert_eq!(persisted_entry("light"), "theme=light; path=/; max-age=31536000");
    assert_eq!(persisted_entry(""), "theme=; path=/; max-age=31536000");
    assert_eq!(persisted_entry("a;b"), "theme=a;b; path=/; max-age=31536000");
}

#[test]
fn max_age_is_365_days_in_seconds() {
    let entry = persisted_entry("dark");
    let seconds: u64 = entry.rsplit('=').next().unwrap().parse().unwrap();
    assert_eq!(seconds, 365 * 24 * 60 * 60);
}

#[test]
fn entry_is_read_back() {
    for name in ["light", "dark", "", "solar ized", "ночь", " x", "a=b"] {
        assert_eq!(read_persisted(&persisted_entry(name)), Some(name.to_string()));
    }
}
