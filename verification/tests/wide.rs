use wallpaper::wide::decode_wide;
use wallpaper::wide::encode_wide;
use wallpaper::wide::encode_wide_nul;

#[test]
fn encodes_ascii_one_unit_each() {
    assert_eq!(encode_wide("abc"), vec![0x61u16, 0x62, 0x63]);
    assert_eq!(encode_wide(""), Vec::<u16>::new());
}

#[test]
fn encodes_basic_plane_characters() {
    assert_eq!(encode_wide("é"), vec![0x00E9u16]);
    assert_eq!(encode_wide("€"), vec![0x20ACu16]);
}

#[test]
fn encodes_supplementary_characters_as_pairs() {
    assert_eq!(encode_wide("😀"), vec![0xD83Du16, 0xDE00]);
    assert_eq!(encode_wide("a😀b"), vec![0x61u16, 0xD83D, 0xDE00, 0x62]);
}

#[test]
fn decodes_what_was_encoded() {
    for s in ["", "abc", "C:\\Users\\me\\pic.png", "é€", "a😀b"] {
        let units = encode_wide(s);
        assert_eq!(decode_wide(&units).as_deref(), Some(s));
    }
}

#[test]
fn decodes_a_surrogate_pair() {
    assert_eq!(decode_wide(&vec![0xD83Du16, 0xDE00]).as_deref(), Some("😀"));
}

#[test]
fn rejects_malformed_wide_text() {
    assert_eq!(decode_wide(&vec![0xD83Du16]), None);
    assert_eq!(decode_wide(&vec![0xDE00u16]), None);
    assert_eq!(decode_wide(&vec![0xD83Du16, 0x0041]), None);
    assert_eq!(decode_wide(&vec![0x41u16, 0xDC00, 0x42]), None);
}

#[test]
fn terminated_form_appends_one_zero_unit() {
    assert_eq!(encode_wide_nul("ab"), Some(vec![0x61u16, 0x62, 0]));
    assert_eq!(encode_wide_nul(""), Some(vec![0u16]));
}

#[test]
fn interior_zero_is_a_hard_error() {
    assert_eq!(encode_wide_nul("a\0b"), None);
}
