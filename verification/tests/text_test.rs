use luatalk::text::escape_json_str;

#[test]
fn escape_json_str_escapes_quotes_backslashes_and_controls() {
    assert_eq!(escape_json_str("a\"b\\c"), "a\\\"b\\\\c");
    assert_eq!(escape_json_str("x\ny\tz\r\u{8}\u{c}"), "x\\ny\\tz\\r\\b\\f");
    assert_eq!(escape_json_str("\u{0}\u{1f}\u{b}"), "\\u0000\\u001f\\u000b");
    assert_eq!(escape_json_str("Noto Sans 中文 /\u{7f}"), "Noto Sans 中文 /\u{7f}");
    assert_eq!(escape_json_str(""), "");
}

#[test]
fn escape_json_str_agrees_with_json_escape() {
    let mut all = String::new();
    for code in 0u32..0x300 {
        if let Some(c) = char::from_u32(code) {
            all.push(c);
        }
    }
    all.push_str("😀 end");
    let expected: String = json_escape::escape_str(&all).collect();
    assert_eq!(escape_json_str(&all), expected);
}
