use imagekit::text::{push_boolean, push_decimal, trim_matches};

fn decimal(n: u32) -> String {
    let mut out = String::new();
    push_decimal(&mut out, n);
    out
}

#[test]
fn decimal_writes_numbers_as_std_does() {
    for n in [0u32, 1, 9, 10, 11, 99, 100, 101, 200, 1009, 65535, 4294967295] {
        assert_eq!(decimal(n), n.to_string());
    }
    assert_eq!(decimal(0), "0");
    assert_eq!(decimal(1000), "1000");
}

#[test]
fn decimal_appends_to_what_is_there() {
    let mut out = String::from("w-");
    push_decimal(&mut out, 42);
    assert_eq!(out, "w-42");
}

#[test]
fn boolean_writes_true_and_false() {
    let mut out = String::from("private = ");
    push_boolean(&mut out, true);
    assert_eq!(out, "private = true");
    let mut out = String::new();
    push_boolean(&mut out, false);
    assert_eq!(out, "false");
}

#[test]
fn trim_matches_strips_both_ends() {
    assert_eq!(trim_matches("/a/b/", '/'), "a/b");
    assert_eq!(trim_matches("///a", '/'), "a");
    assert_eq!(trim_matches("a///", '/'), "a");
    assert_eq!(trim_matches("a", '/'), "a");
    assert_eq!(trim_matches("", '/'), "");
    assert_eq!(trim_matches("////", '/'), "");
    assert_eq!(trim_matches(",w-1,h-2", ','), "w-1,h-2");
}

#[test]
fn trim_matches_counts_characters_not_bytes() {
    assert_eq!(trim_matches("ééaéé", 'é'), "a");
    assert_eq!(trim_matches("/é/ü/", '/'), "é/ü");
    for text in ["/a/", "//", "x", "", "/é", "é/"] {
        assert_eq!(trim_matches(text, '/'), text.trim_matches('/'));
    }
}
