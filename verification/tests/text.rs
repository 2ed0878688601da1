use ptmp::text::{char_is_white_space, is_blank, str_eq};
use ptmp::utf8::is_text_utf8;

#[test]
fn str_eq_compares_characters() {
    assert!(str_eq("taskfile", "taskfile"));
    assert!(!str_eq("taskfile", "taskfil"));
    assert!(!str_eq("latex", "julia"));
    assert!(str_eq("", ""));
    assert!(str_eq("résumé", "résumé"));
    assert!(!str_eq("résumé", "resume"));
}

#[test]
fn blank_matches_trim() {
    for s in ["", " ", "\t\n", " a ", "x", "\u{3000}", "\u{a0}b", "\u{200b}", "\u{85}\u{2028}"] {
        assert_eq!(is_blank(s), s.trim().is_empty(), "{s:?}");
    }
}

#[test]
fn white_space_matches_std() {
    for c in (0u32..0x3100).filter_map(char::from_u32) {
        assert_eq!(char_is_white_space(c), c.is_whitespace(), "{:x}", c as u32);
    }
}

#[test]
fn is_text_utf8_valid() {
    assert!(is_text_utf8("hello world".as_bytes()));
}

#[test]
fn is_text_utf8_binary() {
    assert!(!is_text_utf8(b"\xff\xfe\x00\x01"));
}

#[test]
fn is_text_utf8_agrees_with_std() {
    let cases: Vec<Vec<u8>> = vec![
        vec![],
        b"plain ascii".to_vec(),
        "黑风雷 👨‍👩‍👧‍👦".as_bytes().to_vec(),
        vec![0xc0, 0x80],
        vec![0xc2, 0x80],
        vec![0xe0, 0x80, 0x80],
        vec![0xe0, 0xa0, 0x80],
        vec![0xed, 0xa0, 0x80],
        vec![0xed, 0x9f, 0xbf],
        vec![0xf0, 0x8f, 0xbf, 0xbf],
        vec![0xf0, 0x90, 0x80, 0x80],
        vec![0xf4, 0x8f, 0xbf, 0xbf],
        vec![0xf4, 0x90, 0x80, 0x80],
        vec![0xf8, 0x80, 0x80, 0x80],
        vec![0x80],
        vec![0xe2, 0x82],
        vec![b'a', 0xe2, 0x82, 0xac, b'b'],
    ];
    for c in cases {
        assert_eq!(is_text_utf8(&c), std::str::from_utf8(&c).is_ok(), "{c:?}");
    }
    for a in 0u8..=255 {
        for b in [0x00u8, 0x7f, 0x80, 0x9f, 0xa0, 0xbf, 0xc0] {
            let bytes = [a, b, 0x80, 0x80];
            assert_eq!(is_text_utf8(&bytes), std::str::from_utf8(&bytes).is_ok(), "{bytes:?}");
            assert_eq!(is_text_utf8(&bytes[..2]), std::str::from_utf8(&bytes[..2]).is_ok());
        }
    }
}
