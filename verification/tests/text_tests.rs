use boron::clock::{stamp_text, Timestamp};
use boron::decimal::{decimal_len, is_float_literal, parse_int, push_decimal, push_int, push_padded, push_padded_int};
use boron::paths::{push_arrow_path, push_path, split_first, to_guard_name, to_slash_path};
use boron::text::{char_at, chars_of, count_char, find_char, push_range, str_eq};

fn chars(s: &str) -> Vec<char> {
    s.chars().collect()
}

fn written(write: impl Fn(&mut String)) -> String {
    let mut out = String::from(">");
    write(&mut out);
    out
}

#[test]
fn characters_of_a_string() {
    assert_eq!(chars_of("a\u{e9}b"), vec!['a', '\u{e9}', 'b']);
    assert_eq!(chars_of(""), Vec::<char>::new());
    assert_eq!(char_at(&chars("abc"), 1), 'b');
    assert_eq!(written(|out| push_range(out, &chars("abcdef"), 1, 4)), ">bcd");
    assert_eq!(written(|out| push_range(out, &chars("abcdef"), 2, 2)), ">");
}

#[test]
fn string_equality() {
    assert!(str_eq("int", "int"));
    assert!(str_eq("", ""));
    assert!(!str_eq("int", "Int"));
    assert!(!str_eq("int", "in"));
}

#[test]
fn finding_and_counting() {
    assert_eq!(find_char(&chars("a.b.c"), '.'), 1);
    assert_eq!(find_char(&chars("abc"), '.'), 3);
    assert_eq!(find_char(&chars(""), '.'), 0);
    assert_eq!(count_char(&chars("a.b.c"), '.'), 2);
    assert_eq!(count_char(&chars("abc"), '.'), 0);
    assert_eq!(count_char(&chars("..."), '.'), 3);
}

#[test]
fn decimal_digits() {
    assert_eq!(written(|out| push_decimal(out, 0)), ">0");
    assert_eq!(written(|out| push_decimal(out, 7)), ">7");
    assert_eq!(written(|out| push_decimal(out, 10)), ">10");
    assert_eq!(written(|out| push_decimal(out, 1234567890)), ">1234567890");
    assert_eq!(written(|out| push_decimal(out, u64::MAX)), ">18446744073709551615");
    assert_eq!(decimal_len(0), 1);
    assert_eq!(decimal_len(9), 1);
    assert_eq!(decimal_len(10), 2);
    assert_eq!(decimal_len(u64::MAX), 20);
}

#[test]
fn signed_decimal() {
    assert_eq!(written(|out| push_int(out, 0)), ">0");
    assert_eq!(written(|out| push_int(out, 42)), ">42");
    assert_eq!(written(|out| push_int(out, -42)), ">-42");
    assert_eq!(written(|out| push_int(out, i32::MAX)), ">2147483647");
    assert_eq!(written(|out| push_int(out, i32::MIN)), ">-2147483648");
}

#[test]
fn zero_padding() {
    assert_eq!(written(|out| push_padded(out, 5, 2)), ">05");
    assert_eq!(written(|out| push_padded(out, 0, 2)), ">00");
    assert_eq!(written(|out| push_padded(out, 12, 2)), ">12");
    assert_eq!(written(|out| push_padded(out, 123, 2)), ">123");
    assert_eq!(written(|out| push_padded(out, 7, 0)), ">7");
    assert_eq!(written(|out| push_padded(out, 7, 5)), ">00007");
    assert_eq!(written(|out| push_padded_int(out, 2024, 4)), ">2024");
    assert_eq!(written(|out| push_padded_int(out, 5, 4)), ">0005");
    assert_eq!(written(|out| push_padded_int(out, -5, 4)), ">-005");
    assert_eq!(written(|out| push_padded_int(out, -12345, 4)), ">-12345");
    assert_eq!(written(|out| push_padded_int(out, 12345, 4)), ">12345");
    assert_eq!(written(|out| push_padded_int(out, -5, 0)), ">-5");
}

#[test]
fn written_integers_read_back() {
    for value in [0, 1, -1, 9, 10, -10, 99, 100, 12345, -98765, i32::MAX, i32::MIN] {
        let text = written(|out| push_int(out, value));
        assert_eq!(parse_int(&chars(&text[1..])), Some(value));
    }
}

#[test]
fn integer_literals() {
    assert_eq!(parse_int(&chars("0")), Some(0));
    assert_eq!(parse_int(&chars("0042")), Some(42));
    assert_eq!(parse_int(&chars("+7")), Some(7));
    assert_eq!(parse_int(&chars("-7")), Some(-7));
    assert_eq!(parse_int(&chars("-0")), Some(0));
    assert_eq!(parse_int(&chars("2147483647")), Some(i32::MAX));
    assert_eq!(parse_int(&chars("-2147483648")), Some(i32::MIN));
    assert_eq!(parse_int(&chars("2147483648")), None);
    assert_eq!(parse_int(&chars("-2147483649")), None);
    assert_eq!(parse_int(&chars("99999999999999999999999")), None);
    assert_eq!(parse_int(&chars("")), None);
    assert_eq!(parse_int(&chars("+")), None);
    assert_eq!(parse_int(&chars("-")), None);
    assert_eq!(parse_int(&chars("1 ")), None);
    assert_eq!(parse_int(&chars("1.0")), None);
    assert_eq!(parse_int(&chars("--1")), None);
    assert_eq!(parse_int(&chars("x")), None);
}

#[test]
fn float_literals() {
    for accepted in ["1", "1.", "1.5", ".5", "0.0", "123.456", "1e5", "1E5", "1e+5", "1e-5", "1.5e10", "1.e2", ".5E-3", "007.5"] {
        assert!(is_float_literal(&chars(accepted)), "{}", accepted);
    }
    for refused in ["", ".", "e5", ".e5", "1e", "1e+", "1e5.0", "1.2.3", "1x", "-1.0", "+1.0", "1 ", "inf", "nan", "1e5e5", "1_0"] {
        assert!(!is_float_literal(&chars(refused)), "{}", refused);
    }
}

#[test]
fn field_paths_by_pointer() {
    assert_eq!(written(|out| push_arrow_path(out, "p.x")), ">p->x");
    assert_eq!(written(|out| push_arrow_path(out, "a.b.c")), ">a->b->c");
    assert_eq!(written(|out| push_arrow_path(out, "plain")), ">plain");
    assert_eq!(written(|out| push_arrow_path(out, "..")), ">->->");
    assert_eq!(written(|out| push_arrow_path(out, "")), ">");
}

#[test]
fn module_paths() {
    assert_eq!(to_slash_path("std.io"), "std/io");
    assert_eq!(to_slash_path("a.b.c"), "a/b/c");
    assert_eq!(to_slash_path("plain"), "plain");
    assert_eq!(to_slash_path(""), "");
}

#[test]
fn header_guards() {
    assert_eq!(to_guard_name("lib/math"), "LIB_MATH");
    assert_eq!(to_guard_name("Already_UPPER9"), "ALREADY_UPPER9");
    assert_eq!(to_guard_name("a-b.c"), "A-B.C");
    assert_eq!(to_guard_name("\u{e9}z"), "\u{e9}Z");
    assert_eq!(to_guard_name(""), "");
}

#[test]
fn splitting_at_the_first_separator() {
    assert_eq!(split_first("p.move", '.'), ("p".to_string(), "move".to_string()));
    assert_eq!(split_first("a.b.c", '.'), ("a".to_string(), "b.c".to_string()));
    assert_eq!(split_first("plain", '.'), ("plain".to_string(), "".to_string()));
    assert_eq!(split_first(".x", '.'), ("".to_string(), "x".to_string()));
    assert_eq!(split_first("x.", '.'), ("x".to_string(), "".to_string()));
}

fn path(components: &[&str]) -> String {
    let components: Vec<String> = components.iter().map(|c| c.to_string()).collect();
    let mut out = String::new();
    push_path(&mut out, &components);
    out
}

#[test]
fn path_texts() {
    assert_eq!(path(&["/", "home", "user"]), "/home/user");
    assert_eq!(path(&["home", "user"]), "home/user");
    assert_eq!(path(&["/"]), "/");
    assert_eq!(path(&["one"]), "one");
    assert_eq!(path(&[]), "");
    assert_eq!(path(&["a", "/", "b"]), "a///b");
}

#[test]
fn banner_stamp() {
    let stamp = Timestamp { year: 2024, month: 11, day: 9, hour: 0, minute: 7, second: 59 };
    assert_eq!(stamp_text(&stamp), "// Created on 2024/11/09 at 00:07:59 local time");
    let stamp = Timestamp { year: -44, month: 3, day: 15, hour: 12, minute: 0, second: 0 };
    assert_eq!(stamp_text(&stamp), "// Created on -044/03/15 at 12:00:00 local time");
    let stamp = Timestamp { year: 12345, month: 123, day: 1, hour: 1, minute: 1, second: 1 };
    assert_eq!(stamp_text(&stamp), "// Created on 12345/123/01 at 01:01:01 local time");
}
