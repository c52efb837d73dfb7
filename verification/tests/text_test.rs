use aiarena_client_gui_backend_lib::str_map::StrMap;
use aiarena_client_gui_backend_lib::text::{
    chars_of, concat2, concat3, contains_str, replace_str, same_text, to_ascii_lowercase,
};

#[test]
fn replace_removes_every_occurrence() {
    assert_eq!(replace_str("Bot (AI-Arena)", " (AI-Arena)", ""), "Bot");
    assert_eq!(replace_str("a-b-c", "-", "_"), "a_b_c");
    assert_eq!(replace_str("aaaa", "aa", "b"), "bb");
    assert_eq!(replace_str("aaa", "aa", "b"), "ba");
    assert_eq!(replace_str("plain", "x", "y"), "plain");
    assert_eq!(replace_str("", "x", "y"), "");
}

#[test]
fn replace_agrees_with_std() {
    for (s, p, r) in [("x (AI- (AI-Arena)Arena)", " (AI-Arena)", ""), ("12:30:00.5", ":", ""), ("é-é", "é", "e")] {
        assert_eq!(replace_str(s, p, r), s.replace(p, r));
    }
}

#[test]
fn contains_finds_substrings() {
    assert!(contains_str("abc", "b"));
    assert!(contains_str("abc", ""));
    assert!(contains_str("", ""));
    assert!(!contains_str("abc", "abcd"));
    assert!(!contains_str("abc", "ac"));
    assert!(contains_str("{\"MatchID\": 3}", "MatchID"));
}

#[test]
fn lowercase_touches_only_ascii_capitals() {
    assert_eq!(to_ascii_lowercase("BinaryCpp"), "binarycpp");
    assert_eq!(to_ascii_lowercase("ÄB-1"), "Äb-1");
}

#[test]
fn text_helpers() {
    assert!(same_text("java", "java"));
    assert!(!same_text("java", "Java"));
    assert!(!same_text("java", "javas"));
    assert_eq!(concat2("ab", "cd"), "abcd");
    assert_eq!(concat3("a", "b", "c"), "abc");
    assert_eq!(chars_of("hé"), vec!['h', 'é']);
}

#[test]
fn str_map_reads_back_what_was_written() {
    let mut m: StrMap<i32> = StrMap::new();
    assert!(m.is_empty());
    m.insert("a".to_string(), 1);
    m.insert("b".to_string(), 2);
    m.insert("a".to_string(), 3);
    assert_eq!(m.len(), 2);
    assert_eq!(m.get("a"), Some(&3));
    assert_eq!(m.get("b"), Some(&2));
    assert_eq!(m.get("c"), None);
    assert!(m.contains_key("b"));
    assert!(!m.contains_key("c"));
    assert_eq!(m.entry_at(0), (&"a".to_string(), &3));
    if let Some(v) = m.get_mut("b") {
        *v = 9;
    }
    assert_eq!(m.get("b"), Some(&9));
    assert!(m.get_mut("zzz").is_none());
    let entries = m.into_entries();
    assert_eq!(entries, vec![("a".to_string(), 3), ("b".to_string(), 9)]);
}

#[test]
fn str_map_any_value() {
    let mut m: StrMap<String> = StrMap::new();
    m.insert("x".to_string(), "SC2Crash".to_string());
    m.insert("y".to_string(), "Victory".to_string());
    assert!(m.any_value_is("SC2Crash"));
    assert!(!m.any_value_is("Defeat"));
    m.insert("x".to_string(), "Defeat".to_string());
    assert!(!m.any_value_is("SC2Crash"));
}
