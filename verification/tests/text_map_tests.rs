use cargo_liner::args::{join_strings, push_flag_if, push_opt, push_repeat};
use cargo_liner::string_map::StringMap;
use cargo_liner::text::{
    chars_of, first_line_of, is_whitespace_char, reversed, split_once, str_eq, str_lt, trim_end,
    trim_end_matches, trim_start_matches,
};

#[test]
fn string_map_keeps_insertion_order() {
    let mut m: StringMap<u32> = StringMap::new();
    assert!(m.is_empty());
    m.insert("b".to_owned(), 2);
    m.insert("a".to_owned(), 1);
    m.insert("c".to_owned(), 3);
    m.insert("b".to_owned(), 20);
    assert_eq!(m.len(), 3);
    assert_eq!(m.key_at(0), "b");
    assert_eq!(m.key_at(1), "a");
    assert_eq!(*m.value_at(0), 20);
    assert_eq!(m.get("c"), Some(&3));
    assert_eq!(m.get("d"), None);
    assert_eq!(m.remove("a"), Some(1));
    assert_eq!(m.remove("a"), None);
    assert!(!m.contains_key("a"));
    m.insert("a".to_owned(), 4);
    assert_eq!(
        m.into_entries(),
        vec![("b".to_owned(), 20), ("c".to_owned(), 3), ("a".to_owned(), 4)]
    );
}

#[test]
fn string_order_is_by_characters() {
    assert!(str_lt("a", "b"));
    assert!(str_lt("a", "ab"));
    assert!(!str_lt("ab", "ab"));
    assert!(str_lt("Z", "a"));
    assert!(str_eq("abc", "abc"));
    assert!(!str_eq("abc", "abd"));
}

#[test]
fn text_helpers() {
    assert_eq!(chars_of("héllo"), vec!['h', 'é', 'l', 'l', 'o']);
    assert_eq!(
        split_once("a+b+c", '+'),
        ("a".to_owned(), Some("b+c".to_owned()))
    );
    assert_eq!(split_once("abc", '+'), ("abc".to_owned(), None));
    assert_eq!(trim_start_matches("((x)", '('), "x)");
    assert_eq!(trim_end_matches("x))", ')'), "x");
    assert_eq!(trim_end("abc \t\n\u{3000}"), "abc");
    assert_eq!(trim_end("  a b  "), "  a b");
    assert!(is_whitespace_char('\u{85}'));
    assert!(!is_whitespace_char('x'));
    assert_eq!(first_line_of("one\r\ntwo"), Some("one".to_owned()));
    assert_eq!(first_line_of("one\ntwo"), Some("one".to_owned()));
    assert_eq!(first_line_of(""), None);
    assert_eq!(first_line_of("\n"), Some(String::new()));
    assert_eq!(reversed(vec![1, 2, 3]), vec![3, 2, 1]);
}

#[test]
fn argument_helpers() {
    let mut out = Vec::new();
    push_flag_if(&mut out, true, "--a");
    push_flag_if(&mut out, false, "--b");
    push_opt(&mut out, "--c", &Some("x".to_owned()));
    push_opt(&mut out, "--d", &None);
    push_repeat(&mut out, "--e", &vec!["1".to_owned(), "2".to_owned()]);
    assert_eq!(out, vec!["--a", "--c", "x", "--e", "1", "--e", "2"]);
    assert_eq!(
        join_strings(&vec!["a".to_owned(), "b".to_owned(), "c".to_owned()], ","),
        "a,b,c"
    );
    assert_eq!(join_strings(&Vec::new(), ","), "");
}
