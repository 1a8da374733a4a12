use todo_service::header::{is_valid_header_name, is_valid_header_value};

#[test]
fn header_name_accepts_lower_case_tokens() {
    assert!(is_valid_header_name("x-request-id"));
    assert!(is_valid_header_name("content-type"));
    assert!(is_valid_header_name("a"));
    assert!(is_valid_header_name("x_trace.id~1"));
    assert!(is_valid_header_name("!#$%&'*+-.^_`|~09az"));
}

#[test]
fn header_name_refuses_the_rest() {
    assert!(!is_valid_header_name(""));
    assert!(!is_valid_header_name("X-Request-Id"));
    assert!(!is_valid_header_name("x request id"));
    assert!(!is_valid_header_name("x-request-id:"));
    assert!(!is_valid_header_name("x-request-id\n"));
    assert!(!is_valid_header_name("x-réquest-id"));
    assert!(!is_valid_header_name("(x)"));
    assert!(!is_valid_header_name("a/b"));
    assert!(!is_valid_header_name("a\u{0}"));
}

#[test]
fn header_name_single_characters() {
    let allowed = "!\"#$%&'*+-.0123456789^_`abcdefghijklmnopqrstuvwxyz|~";
    let mut code: u32 = 0;
    while code < 0x250 {
        if let Some(c) = char::from_u32(code) {
            assert_eq!(is_valid_header_name(&c.to_string()), allowed.contains(c), "U+{:04X}", code);
            let inside = format!("a{}b", c);
            assert_eq!(is_valid_header_name(&inside), allowed.contains(c), "U+{:04X}", code);
        }
        code += 1;
    }
}

#[test]
fn header_name_length_limit() {
    assert!(is_valid_header_name(&"a".repeat(64)));
    assert!(is_valid_header_name(&"a".repeat(65)));
    assert!(is_valid_header_name(&"a".repeat(65535)));
    assert!(!is_valid_header_name(&"a".repeat(65536)));
    assert!(!is_valid_header_name(&format!("{}A", "a".repeat(100))));
    assert!(!is_valid_header_name(&format!("{}é", "a".repeat(100))));
}

#[test]
fn header_value_accepts_visible_text() {
    assert!(is_valid_header_value("https://a.example"));
    assert!(is_valid_header_value(""));
    assert!(is_valid_header_value("*"));
    assert!(is_valid_header_value("a\tb"));
    assert!(is_valid_header_value("a b"));
    assert!(is_valid_header_value("héllo"));
    assert!(is_valid_header_value("\u{80}"));
    assert!(is_valid_header_value("\u{10FFFF}"));
}

#[test]
fn header_value_refuses_control_characters() {
    assert!(!is_valid_header_value("\n"));
    assert!(!is_valid_header_value("a\r\nb"));
    assert!(!is_valid_header_value("\u{0}"));
    assert!(!is_valid_header_value("\u{1f}"));
    assert!(!is_valid_header_value("\u{7f}"));
    assert!(!is_valid_header_value("https://a.example\u{7f}"));
}

#[test]
fn header_value_single_characters() {
    let mut code: u32 = 0;
    while code < 0x250 {
        if let Some(c) = char::from_u32(code) {
            let expected = (code >= 0x20 && code != 0x7f) || code == 0x09;
            assert_eq!(is_valid_header_value(&c.to_string()), expected, "U+{:04X}", code);
        }
        code += 1;
    }
}
