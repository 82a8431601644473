use systemd_manager_tui::text::{chars_of, contains, contains_chars, ends_with, matches_at};

#[test]
fn chars_of_gives_characters_in_order() {
    assert_eq!(chars_of("a\u{e9}b"), vec!['a', '\u{e9}', 'b']);
    assert_eq!(chars_of(""), Vec::<char>::new());
}

#[test]
fn contains_finds_substrings() {
    assert!(contains("sshd.service", "ssh"));
    assert!(contains("sshd.service", "service"));
    assert!(contains("sshd.service", "d.s"));
    assert!(contains("sshd.service", "sshd.service"));
    assert!(!contains("cron.service", "ssh"));
    assert!(!contains("ssh", "sshd"));
    assert!(!contains("aab", "abb"));
    assert!(contains("aaab", "aab"));
}

#[test]
fn contains_is_case_sensitive() {
    assert!(!contains("sshd.service", "SSH"));
}

#[test]
fn empty_needle_is_contained_everywhere() {
    assert!(contains("", ""));
    assert!(contains("abc", ""));
}

#[test]
fn contains_nothing_in_empty_text_but_the_empty_text() {
    assert!(!contains("", "a"));
}

#[test]
fn contains_works_on_multibyte_text() {
    assert!(contains("caf\u{e9} \u{4e16}\u{754c}", "\u{e9} \u{4e16}"));
    assert!(!contains("caf\u{e9}", "e"));
}

#[test]
fn matches_at_tests_one_position() {
    let hay = chars_of("abcabc");
    let needle = chars_of("bc");
    assert!(!matches_at(&hay, &needle, 0));
    assert!(matches_at(&hay, &needle, 1));
    assert!(matches_at(&hay, &needle, 4));
    assert!(contains_chars(&hay, &needle));
}

#[test]
fn ends_with_tests_the_suffix() {
    assert!(ends_with("sshd.service", ".service"));
    assert!(ends_with(".service", ".service"));
    assert!(!ends_with("sshd.socket", ".service"));
    assert!(!ends_with("service", ".service"));
    assert!(!ends_with("sshd.service.d", ".service"));
    assert!(ends_with("abc", ""));
}
