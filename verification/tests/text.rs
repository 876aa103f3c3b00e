use zotty::text::{int_to_string, parse_i32, replace, str_eq, u64_to_string};

#[test]
fn integers_render_in_decimal() {
    assert_eq!(int_to_string(0), "0");
    assert_eq!(int_to_string(7), "7");
    assert_eq!(int_to_string(-42), "-42");
    assert_eq!(int_to_string(1000), "1000");
    assert_eq!(int_to_string(i64::MIN), i64::MIN.to_string());
    assert_eq!(int_to_string(i64::MAX), i64::MAX.to_string());
    assert_eq!(u64_to_string(u64::MAX), "18446744073709551615");
}

#[test]
fn parse_i32_follows_std() {
    for text in ["0", "+5", "-0", "-17", "2147483647", "2147483648", "-2147483648", "-2147483649",
        "", "+", "-", "1a", " 1", "١", "99999999999999999999", "+-1", "007"] {
        assert_eq!(parse_i32(text), text.parse::<i32>().ok(), "{}", text);
    }
}

#[test]
fn rendered_numbers_parse_back() {
    for n in [0, 1, -1, 42, i32::MAX, i32::MIN, 123456, -98765] {
        assert_eq!(parse_i32(&int_to_string(n as i64)), Some(n));
    }
}

#[test]
fn replace_replaces_every_occurrence() {
    assert_eq!(replace("a%x%b%x%", "%x%", "yy"), "ayybyy");
    assert_eq!(replace("no placeholder", "%x%", "yy"), "no placeholder");
    assert_eq!(replace("aaaa", "aa", "b"), "bb");
    assert_eq!(replace("aaa", "aa", "b"), "ba");
    assert_eq!(replace("", "a", "b"), "");
    assert_eq!(replace("%%", "%", "%%"), "%%%%");
}

#[test]
fn str_eq_compares_characters() {
    assert!(str_eq("tester", "tester"));
    assert!(!str_eq("tester", "Tester"));
    assert!(!str_eq("test", "tester"));
}
