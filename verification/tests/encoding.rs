use tripwire::encoding::{base64_encode, timestamp_id};
use tripwire::text::{is_blank, str_eq, trim, str_concat, before_char};

#[test]
fn base64_of_empty_input_is_empty() {
    assert_eq!(base64_encode(&[]), "");
}

#[test]
fn base64_pads_short_groups() {
    assert_eq!(base64_encode(b"f"), "Zg==");
    assert_eq!(base64_encode(b"fo"), "Zm8=");
    assert_eq!(base64_encode(b"foo"), "Zm9v");
    assert_eq!(base64_encode(b"foob"), "Zm9vYg==");
    assert_eq!(base64_encode(b"fooba"), "Zm9vYmE=");
    assert_eq!(base64_encode(b"foobar"), "Zm9vYmFy");
}

#[test]
fn base64_uses_plus_and_slash() {
    assert_eq!(base64_encode(&[0xfb, 0xff, 0xbf]), "+/+/");
    assert_eq!(base64_encode(&[0x00, 0x00, 0x00]), "AAAA");
}

#[test]
fn base64_length_is_four_per_started_group() {
    for n in 0..20usize {
        let data = vec![7u8; n];
        assert_eq!(base64_encode(&data).len(), 4 * ((n + 2) / 3));
    }
}

#[test]
fn timestamp_ids_are_decimal() {
    assert_eq!(timestamp_id(0), "msg_0");
    assert_eq!(timestamp_id(9), "msg_9");
    assert_eq!(timestamp_id(10), "msg_10");
    assert_eq!(timestamp_id(1700000000123456789), "msg_1700000000123456789");
    assert_eq!(timestamp_id(u128::MAX), format!("msg_{}", u128::MAX));
}

#[test]
fn timestamp_ids_differ_for_different_times() {
    assert_ne!(timestamp_id(12), timestamp_id(21));
    assert_ne!(timestamp_id(1), timestamp_id(10));
}

#[test]
fn trim_removes_unicode_white_space_at_both_ends() {
    assert_eq!(trim("  hello \n"), "hello");
    assert_eq!(trim("\u{3000}a b\u{2009}"), "a b");
    assert_eq!(trim("   "), "");
    assert_eq!(trim(""), "");
    assert_eq!(trim("x"), "x");
}

#[test]
fn trim_is_empty_exactly_for_blank_text() {
    for s in ["", " ", "\t\n", " a ", "b", "\u{a0}"] {
        assert_eq!(trim(s).is_empty(), is_blank(s));
        assert_eq!(is_blank(s), s.trim().is_empty());
    }
}

#[test]
fn string_helpers() {
    assert!(str_eq("abc", "abc"));
    assert!(!str_eq("abc", "abd"));
    assert!(!str_eq("ab", "abc"));
    assert_eq!(str_concat("user_", "bob"), "user_bob");
    assert_eq!(before_char("bob@example.com", '@'), "bob");
    assert_eq!(before_char("nobody", '@'), "nobody");
    assert_eq!(before_char("@x", '@'), "");
}
