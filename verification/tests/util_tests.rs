use http_parser::util;

#[test]
fn test_can_construct() {
    let _ = http_parser::HttpParser::new(true);
    let _ = http_parser::HttpParser::new(false);
}

#[test]
fn test_is_digit() {
    for ch in b"0123456789".iter() {
        assert!(util::is_digit(*ch));
    }
    for ch in b"/:abcdefABCDEF".iter() {
        assert!(!util::is_digit(*ch));
    }
}

#[test]
fn test_lowercase() {
    assert_eq!(util::lowercase(b'A'), b'a');
}

#[test]
fn test_is_alpha() {
    for ch in b"abcdefghijklmnopqrstuvwxyz".iter() {
        assert!(util::is_alpha(*ch));
    }
    for ch in b"ABCDEFGHIJKLMNOPQRSTUVWXYZ".iter() {
        assert!(util::is_alpha(*ch));
    }
    for ch in b"0123456789".iter() {
        assert!(!util::is_alpha(*ch));
    }
}

#[test]
fn test_is_alphanum() {
    for ch in b"abcdef012345".iter() {
        assert!(util::is_alphanum(*ch));
    }
}

#[test]
fn test_is_hex() {
    for ch in b"0123456789abcdef".iter() {
        assert!(util::is_hex(*ch));
    }
    for ch in b"ghiquvxyz".iter() {
        assert!(!util::is_hex(*ch));
    }
}

#[test]
fn test_is_token_char() {
    for ch in b"GETtoken-_.!#$%&'*+^`|~09".iter() {
        assert!(util::is_token_char(*ch));
    }
    for ch in b" :;@(),/\\\"\r\n".iter() {
        assert!(!util::is_token_char(*ch));
    }
}

#[test]
fn test_is_whitespace() {
    assert!(util::is_whitespace(b' '));
    assert!(util::is_whitespace(b'\t'));
    assert!(!util::is_whitespace(b'\r'));
    assert!(!util::is_whitespace(b'\n'));
    assert!(!util::is_whitespace(b'a'));
}

#[test]
fn test_to_lower() {
    assert_eq!(util::to_lower(b'A'), b'a');
    assert_eq!(util::to_lower(b'Z'), b'z');
    assert_eq!(util::to_lower(b'a'), b'a');
    assert_eq!(util::to_lower(b'-'), b'-');
    assert_eq!(util::to_lower(b'0'), b'0');
}

#[test]
fn test_hex_value() {
    assert_eq!(util::hex_value(b'0'), 0);
    assert_eq!(util::hex_value(b'9'), 9);
    assert_eq!(util::hex_value(b'a'), 10);
    assert_eq!(util::hex_value(b'F'), 15);
}
