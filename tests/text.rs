use lobsters_mirror::text::{cleanup, downgrade_scheme, join, push_decimal, strip_tags};

#[test]
fn tags_are_removed() {
    assert_eq!(strip_tags("<p>Hello <a href=\"x\">world</a></p>"), "Hello world");
    assert_eq!(strip_tags("no markup"), "no markup");
    assert_eq!(strip_tags(""), "");
}

#[test]
fn tag_removal_is_leftmost_and_shortest() {
    assert_eq!(strip_tags("<<a>>"), ">");
    assert_eq!(strip_tags("a<<x>b>"), "ab>");
    assert_eq!(strip_tags("1 < 2"), "1 < 2");
    assert_eq!(strip_tags("2 > 1 < 3"), "2 > 1 < 3");
}

#[test]
fn tags_span_lines() {
    assert_eq!(strip_tags("a<b\nc>d"), "ad");
    assert_eq!(strip_tags("<x\n<y>z"), "z");
    assert_eq!(strip_tags("<a\nb>"), "");
    assert_eq!(strip_tags("keep\nlines <i>\n</i>here"), "keep\nlines \nhere");
    assert_eq!(strip_tags("<a\nhref=x>link</a>"), "link");
}

#[test]
fn unclosed_angle_is_kept() {
    assert_eq!(strip_tags("x < y\nand more"), "x < y\nand more");
    assert_eq!(strip_tags("<a> 3 < 4"), " 3 < 4");
}

#[test]
fn cleanup_transliterates_then_strips() {
    assert_eq!(cleanup("<i>na\u{ef}ve</i> \u{201c}quote\u{201d}"), "naive \"quote\"");
    let out = cleanup("<p>x</p>\u{ab}b\u{bb}");
    assert!(!out.contains('<'));
    assert!(out.is_ascii());
    assert_eq!(cleanup("a\u{7f}\u{e9}"), "ae");
    assert_eq!(cleanup("plain\u{7f}"), "plain");
    assert_eq!(cleanup("<p\nclass=\"c\">\u{e9}t\u{e9}</p>"), "ete");
}

#[test]
fn scheme_rewrite() {
    assert_eq!(downgrade_scheme("https://a.b/c"), "http://a.b/c");
    assert_eq!(downgrade_scheme("http://a.b/c"), "http://a.b/c");
    assert_eq!(downgrade_scheme("https"), "http");
    assert_eq!(downgrade_scheme("ftp://https"), "ftp://https");
    assert_eq!(downgrade_scheme(""), "");
}

#[test]
fn decimals() {
    let mut s = String::from("n=");
    push_decimal(&mut s, -128);
    assert_eq!(s, "n=-128");
    let mut s = String::new();
    push_decimal(&mut s, 0);
    assert_eq!(s, "0");
    let mut s = String::new();
    push_decimal(&mut s, i64::MIN);
    assert_eq!(s, "-9223372036854775808");
    let mut s = String::new();
    push_decimal(&mut s, 255);
    assert_eq!(s, "255");
}

#[test]
fn joining() {
    assert_eq!(join(&vec![], ", "), "");
    assert_eq!(join(&vec!["a".to_string()], ", "), "a");
    assert_eq!(join(&vec!["a".to_string(), "b".to_string(), "c".to_string()], ", "), "a, b, c");
}
