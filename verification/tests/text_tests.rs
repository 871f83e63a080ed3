use aura_update::text::{
    decimal_chars, eq_ascii_case, lines_of, parse_u8_chars, push_i32, replace_all_exec,
    replace_char_exec, split_at_char, split_once, split_words, text_eq, trim_str,
    u64_to_string,
};

fn chars(s: &str) -> Vec<char> {
    s.chars().collect()
}

fn strings(v: Vec<Vec<char>>) -> Vec<String> {
    v.into_iter().map(|c| c.into_iter().collect()).collect()
}

#[test]
fn trimming_and_case() {
    assert_eq!(trim_str("  \t a b \r\n"), "a b");
    assert_eq!(trim_str(""), "");
    assert!(eq_ascii_case(&chars("MsEdge"), &chars("msedge")));
    assert!(!eq_ascii_case(&chars("edge"), &chars("edges")));
    assert!(text_eq("a", "a"));
    assert!(!text_eq("a", "A"));
}

#[test]
fn splitting() {
    assert_eq!(strings(split_at_char(&chars("a.b..c"), '.')), vec!["a", "b", "", "c"]);
    assert_eq!(strings(split_words(&chars("  one two\tthree "))), vec!["one", "two", "three"]);
    assert_eq!(strings(lines_of("a\r\nb\n\nc\n")), vec!["a", "b", "", "c"]);
    assert!(lines_of("").is_empty());
    let (before, after) = split_once(&chars("key=value=x"), '=');
    assert_eq!(before.iter().collect::<String>(), "key");
    assert_eq!(after.unwrap().iter().collect::<String>(), "value=x");
    assert!(split_once(&chars("novalue"), '=').1.is_none());
}

#[test]
fn numbers() {
    assert_eq!(u64_to_string(0), "0");
    assert_eq!(u64_to_string(18446744073709551615), "18446744073709551615");
    assert_eq!(decimal_chars(407).into_iter().collect::<String>(), "407");
    let mut s = String::from("code ");
    push_i32(&mut s, -12);
    assert_eq!(s, "code -12");
    assert_eq!(parse_u8_chars(&chars("255")), Some(255));
    assert_eq!(parse_u8_chars(&chars("256")), None);
    assert_eq!(parse_u8_chars(&chars("+7")), Some(7));
    assert_eq!(parse_u8_chars(&chars("")), None);
}

#[test]
fn replacing() {
    assert_eq!(replace_char_exec(&chars("it's Bob's"), '\'', "''"), "it''s Bob''s");
    assert_eq!(replace_all_exec("aaa", "aa", "b"), "ba");
    assert_eq!(replace_all_exec("Hidden=true\nHidden=true", "Hidden=true", "Hidden=false"), "Hidden=false\nHidden=false");
}
