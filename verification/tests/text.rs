use rpatchur::text::{
    escape_literal, join, push_boolean, push_decimal, replace_char, same_text,
};

fn decimal(n: u64) -> String {
    let mut out = String::new();
    push_decimal(&mut out, n);
    out
}

#[test]
fn numbers_in_decimal() {
    assert_eq!(decimal(0), "0");
    assert_eq!(decimal(7), "7");
    assert_eq!(decimal(10), "10");
    assert_eq!(decimal(1907), "1907");
    assert_eq!(decimal(u64::MAX), "18446744073709551615");
}

#[test]
fn decimal_is_appended() {
    let mut out = "n=".to_string();
    push_decimal(&mut out, 42);
    push_boolean(&mut out, true);
    push_boolean(&mut out, false);
    assert_eq!(out, "n=42truefalse");
}

#[test]
fn literals_are_escaped() {
    assert_eq!(escape_literal("a\"b\\c", '"'), "a\\\"b\\\\c");
    assert_eq!(escape_literal("it's \\", '\''), "it\\'s \\\\");
    assert_eq!(escape_literal("", '"'), "");
    // A backslash before a quote does not protect it twice.
    assert_eq!(escape_literal("\\\"", '"'), "\\\\\\\"");
}

/// Reads a literal as a script does.
fn read_back(s: &str, quote: char) -> Option<(String, String)> {
    let mut text = String::new();
    let mut chars = s.chars();
    while let Some(c) = chars.next() {
        if c == quote {
            return Some((text, chars.collect()));
        }
        if c == '\\' {
            text.push(chars.next()?);
        } else {
            text.push(c);
        }
    }
    None
}

#[test]
fn escaped_literal_reads_back() {
    for message in ["", "plain", "\"", "\\", "\\\"", "C:\\dir\\\"x\"\\", "ação — ok"] {
        let script = format!("{}\") + rest", escape_literal(message, '"'));
        assert_eq!(
            read_back(&script, '"'),
            Some((message.to_string(), ") + rest".to_string()))
        );
    }
}

#[test]
fn characters_are_replaced() {
    assert_eq!(replace_char("a.b..c", '.', "<>"), "a<>b<><>c");
    assert_eq!(replace_char("abc", 'x', "y"), "abc");
    assert_eq!(replace_char("", 'x', "y"), "");
}

#[test]
fn lists_are_joined() {
    assert_eq!(join(&vec![], "; "), "");
    assert_eq!(join(&vec!["a".to_string()], "; "), "a");
    assert_eq!(
        join(&vec!["a".to_string(), "".to_string(), "c".to_string()], "; "),
        "a; ; c"
    );
}

#[test]
fn texts_are_compared() {
    assert!(same_text("hd", "hd"));
    assert!(!same_text("hd", "Hd"));
    assert!(!same_text("hd", "hd "));
}
