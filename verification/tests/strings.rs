use birdcage::wide::WideString;

#[test]
fn text_becomes_utf16() {
    let text = "path \u{e9} \u{1F426}";
    let expected: Vec<u16> = text.encode_utf16().collect();
    let string = WideString::from_text(text);
    assert_eq!(string.encode_wide(), &expected);
    assert_eq!(string.encode_wide()[7..], [0xD83D, 0xDC26]);
}

#[test]
fn unicode_comes_back_unchanged() {
    for text in ["", "C:\\Windows", "\u{e9}\u{10FFFF}\u{FFFF}\u{10000}"] {
        let string = WideString::from_text(text);
        assert_eq!(string.to_str(), Some(text.to_string()));
        assert_eq!(string.to_string_lossy(), text);
    }
}

#[test]
fn lone_surrogates_are_no_text() {
    for units in [vec![0xD800u16], vec![0xDC00], vec![0x41, 0xD83D, 0x42], vec![0xDC26, 0xD83D]] {
        let string = WideString::from_wide(units.clone());
        assert_eq!(string.to_str(), None);
        assert_eq!(string.to_string_lossy(), String::from_utf16_lossy(&units));
    }
    let mixed = WideString::from_wide(vec![0xD83D, 0xD83D, 0xDC26, 0x41]);
    assert_eq!(mixed.to_string_lossy(), "\u{FFFD}\u{1F426}A");
}

#[test]
fn system_calls_get_a_terminating_zero() {
    assert_eq!(WideString::from_text("ab").with_nul(), vec![0x61, 0x62, 0]);
    assert_eq!(WideString::from_wide(vec![]).with_nul(), vec![0]);
}

#[test]
fn leading_units_can_be_skipped() {
    let string = WideString::from_text("abc");
    assert_eq!(string.skip(1), WideString::from_text("bc"));
    assert_eq!(string.skip(3), WideString::from_text(""));
    assert_eq!(string.skip(9), WideString::from_text(""));
}

#[test]
fn strings_compare_unit_by_unit() {
    assert!(WideString::from_text("abc") == WideString::from_text("abc"));
    assert!(WideString::from_text("abc") != WideString::from_text("abd"));
    assert!(WideString::from_text("abc") != WideString::from_text("ab"));
    assert!(WideString::from_text("PATH") != WideString::from_text("Path"));
}
