use adventure_engine::menu::parse_quit;
use adventure_engine::stat_bonus::create_all_stat_bonuses;
use adventure_engine::text::{
    clean_words, parse_i32, parse_plain_number, split_words, str_eq, unwrap_str,
};

#[test]
fn unwrap_str_some_and_none() {
    let s = String::from("hello");
    assert_eq!(unwrap_str(Some(&s)), "hello");
    assert_eq!(unwrap_str(None), "");
}

#[test]
fn str_eq_compares_contents() {
    assert!(str_eq("abc", "abc"));
    assert!(!str_eq("abc", "abd"));
    assert!(!str_eq("abc", "ab"));
    assert!(str_eq("", ""));
}

#[test]
fn clean_words_folds_ascii_upper_case() {
    assert_eq!(clean_words(String::from("GoOdBYE")), "goodbye");
    assert_eq!(clean_words(String::from("NORTH")), "north");
    assert_eq!(clean_words(String::from("already lower 42!")), "already lower 42!");
}

#[test]
fn clean_words_folds_unicode_too() {
    assert_eq!(clean_words(String::from("Über")), "über");
    assert_eq!(clean_words(String::from("ÉCOUTE")), "écoute");
}

#[test]
fn split_words_splits_on_unicode_whitespace_too() {
    assert_eq!(split_words("go\u{a0}north"), vec!["go", "north"]);
    assert_eq!(split_words("one\u{2003}two\u{3000}three"), vec!["one", "two", "three"]);
}

#[test]
fn split_words_takes_maximal_runs() {
    assert_eq!(split_words("  go   north \t"), vec!["go", "north"]);
    assert_eq!(split_words("one"), vec!["one"]);
    let empty: Vec<String> = Vec::new();
    assert_eq!(split_words("   \t\n"), empty);
    assert_eq!(split_words(""), empty);
}

#[test]
fn parse_i32_accepts_signed_decimals() {
    assert_eq!(parse_i32("42"), Some(42));
    assert_eq!(parse_i32("+7"), Some(7));
    assert_eq!(parse_i32("-13"), Some(-13));
    assert_eq!(parse_i32("0"), Some(0));
    assert_eq!(parse_i32("007"), Some(7));
    assert_eq!(parse_i32("2147483647"), Some(i32::MAX));
    assert_eq!(parse_i32("-2147483648"), Some(i32::MIN));
}

#[test]
fn parse_i32_rejects_garbage_and_overflow() {
    assert_eq!(parse_i32(""), None);
    assert_eq!(parse_i32("a"), None);
    assert_eq!(parse_i32("12a"), None);
    assert_eq!(parse_i32("-"), None);
    assert_eq!(parse_i32("+"), None);
    assert_eq!(parse_i32("2147483648"), None);
    assert_eq!(parse_i32("-2147483649"), None);
    assert_eq!(parse_i32("99999999999999999999"), None);
}

#[test]
fn parse_plain_number_wants_canonical_digits() {
    assert_eq!(parse_plain_number("7"), Some(7));
    assert_eq!(parse_plain_number("0"), Some(0));
    assert_eq!(parse_plain_number("12"), Some(12));
    assert_eq!(parse_plain_number("007"), None);
    assert_eq!(parse_plain_number("+7"), None);
    assert_eq!(parse_plain_number("-7"), None);
    assert_eq!(parse_plain_number(""), None);
    assert_eq!(parse_plain_number("2147483648"), None);
}

#[test]
fn parse_quit_spots_the_quit_words() {
    assert!(parse_quit(vec![String::from("quit")]));
    assert!(parse_quit(vec![String::from("q"), String::from("rest")]));
    assert!(parse_quit(vec![String::from("exit")]));
    assert!(!parse_quit(vec![String::from("hello")]));
    assert!(!parse_quit(Vec::new()));
}

#[test]
fn stat_bonus_table_has_the_documented_values() {
    let table = create_all_stat_bonuses();
    let expected = vec![-6, -4, -3, -3, -2, -2, -1, -1, 0, 0, 1, 1, 2, 2, 3, 3, 4, 4, 5];
    assert_eq!(table, expected);
}

#[test]
fn stat_bonus_table_is_monotone() {
    let table = create_all_stat_bonuses();
    for i in 1..table.len() {
        assert!(table[i - 1] <= table[i]);
    }
}
