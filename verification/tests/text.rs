use yap::text::{
    before, chars_of, decimal_i64, decimal_u64, extension, join, parse_i64, same,
};

#[test]
fn join_puts_one_separator_between() {
    assert_eq!(join("a", "b"), "a/b");
    assert_eq!(join("a/", "b"), "a/b");
    assert_eq!(join("", "b"), "b");
    assert_eq!(join("a", "/b"), "/b");
}

#[test]
fn decimal_and_parse_agree() {
    assert_eq!(decimal_i64(0), "0");
    assert_eq!(decimal_i64(-42), "-42");
    assert_eq!(decimal_i64(i64::MIN), "-9223372036854775808");
    assert_eq!(decimal_i64(i64::MAX), "9223372036854775807");
    assert_eq!(parse_i64("-9223372036854775808"), Some(i64::MIN));
    assert_eq!(parse_i64("9223372036854775808"), None);
    assert_eq!(parse_i64("+7"), Some(7));
    assert_eq!(parse_i64("007"), Some(7));
    assert_eq!(parse_i64(""), None);
    assert_eq!(parse_i64("-"), None);
    assert_eq!(parse_i64("12a"), None);
}

#[test]
fn extension_follows_the_last_dot_of_the_name() {
    assert_eq!(extension("notes.md"), Some("md".to_string()));
    assert_eq!(extension("dir.d/notes"), None);
    assert_eq!(extension(".hidden"), None);
    assert_eq!(extension("a/b/table.tar.parquet"), Some("parquet".to_string()));
    assert_eq!(extension("name."), Some(String::new()));
}

#[test]
fn texts_are_compared_and_split_by_character() {
    assert!(same("", ""));
    assert!(same("día", "día"));
    assert!(!same("dia", "día"));
    assert!(!same("a", "ab"));
    assert_eq!(chars_of("a/é"), vec!['a', '/', 'é']);
    assert_eq!(chars_of(""), Vec::<char>::new());
}

#[test]
fn unsigned_numbers_are_written_in_decimal() {
    assert_eq!(decimal_u64(0), "0");
    assert_eq!(decimal_u64(9), "9");
    assert_eq!(decimal_u64(10), "10");
    assert_eq!(decimal_u64(u64::MAX), "18446744073709551615");
}

#[test]
fn what_is_written_is_read_back() {
    for n in [0i64, 1, -1, 9, 10, -10, 1700000000, i64::MIN, i64::MAX] {
        assert_eq!(parse_i64(&decimal_i64(n)), Some(n));
    }
}

#[test]
fn texts_are_ordered_as_strings_are() {
    let samples = ["", "a", "ab", "b", "B", "é", "z", "aa", "a ", "10", "9", "北", "\u{10000}"];
    for x in samples {
        for y in samples {
            assert_eq!(before(x, y), x < y, "{:?} {:?}", x, y);
        }
    }
}
