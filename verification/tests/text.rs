use itunes_com::wrappers::text::{from_wide, through_wide, to_wide};

#[test]
fn to_wide_encodes_as_utf16() {
    assert_eq!(to_wide("My"), vec![0x4D, 0x79]);
    assert_eq!(to_wide(""), Vec::<u16>::new());
    assert_eq!(to_wide("é€"), vec![0x00E9, 0x20AC]);
}

#[test]
fn to_wide_writes_surrogate_pairs() {
    assert_eq!(to_wide("\u{1D11E}"), vec![0xD834, 0xDD1E]);
    assert_eq!(to_wide("\u{10000}"), vec![0xD800, 0xDC00]);
    assert_eq!(to_wide("\u{10FFFF}"), vec![0xDBFF, 0xDFFF]);
    assert_eq!(to_wide("\u{FFFF}"), vec![0xFFFF]);
}

#[test]
fn to_wide_stops_at_the_first_nul() {
    assert_eq!(to_wide("My\u{0}String"), vec![0x4D, 0x79]);
    assert_eq!(to_wide("\u{0}String"), Vec::<u16>::new());
    assert_eq!(to_wide("a\u{0}b\u{0}c"), vec![0x61]);
}

#[test]
fn from_wide_decodes_utf16() {
    assert_eq!(from_wide(vec![0x4D, 0x79]), "My");
    assert_eq!(from_wide(vec![]), "");
    assert_eq!(from_wide(vec![0xD834, 0xDD1E]), "\u{1D11E}");
}

#[test]
fn from_wide_stops_at_the_first_nul() {
    assert_eq!(from_wide(vec![0x4D, 0x79, 0, 0x53]), "My");
    assert_eq!(from_wide(vec![0, 0x53]), "");
    assert_eq!(from_wide(vec![0x4D, 0]), "M");
}

#[test]
fn from_wide_replaces_what_is_not_utf16() {
    assert_eq!(from_wide(vec![0xD834]), "\u{FFFD}");
    assert_eq!(from_wide(vec![0x61, 0xDC00, 0x62]), "a\u{FFFD}b");
}

#[test]
fn text_survives_the_way_to_the_host_and_back() {
    for text in ["", "Title", "Björk – Jóga", "日本語", "\u{1F3B5} music"] {
        assert_eq!(from_wide(to_wide(text)), text);
    }
}

#[test]
fn through_wide_keeps_the_text_up_to_the_first_nul() {
    assert_eq!(through_wide("Title"), "Title");
    assert_eq!(through_wide("\u{1F3B5} Björk"), "\u{1F3B5} Björk");
    assert_eq!(through_wide("My\u{0}String"), "My");
    assert_eq!(through_wide("\u{0}"), "");
    assert_eq!(through_wide(""), "");
}

#[test]
fn to_wide_holds_no_nul() {
    for text in ["", "Title", "a\u{0}b", "\u{0}", "\u{10000}\u{0}\u{10FFFF}"] {
        assert!(to_wide(text).iter().all(|unit| *unit != 0));
    }
}
