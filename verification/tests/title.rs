use winshift::title::{title_from_bytes, title_from_utf16};

#[test]
fn bytes_end_at_the_first_nul() {
    assert_eq!(title_from_bytes(b"Terminal\0junk\0more"), "Terminal");
}

#[test]
fn bytes_without_nul_are_taken_whole() {
    assert_eq!(title_from_bytes(b"Editor - main.rs"), "Editor - main.rs");
}

#[test]
fn leading_nul_gives_the_empty_title() {
    assert_eq!(title_from_bytes(b"\0hidden"), "");
    assert_eq!(title_from_bytes(b""), "");
}

#[test]
fn well_formed_utf8_is_decoded() {
    assert_eq!(title_from_bytes("Caf\u{e9} \u{2014} \u{1f600}\0".as_bytes()), "Caf\u{e9} \u{2014} \u{1f600}");
}

#[test]
fn ill_formed_utf8_is_replaced() {
    assert_eq!(title_from_bytes(&[b'a', 0xff, b'b', 0]), "a\u{fffd}b");
    assert_eq!(title_from_bytes(&[0xe2, 0x82]), "\u{fffd}");
}

#[test]
fn utf16_padding_is_removed() {
    let mut buffer = [0u16; 16];
    for (slot, unit) in buffer.iter_mut().zip("Notepad".encode_utf16()) {
        *slot = unit;
    }
    assert_eq!(title_from_utf16(&buffer), "Notepad");
}

#[test]
fn utf16_inner_nul_is_kept() {
    let units = [0x41u16, 0, 0x42, 0, 0];
    assert_eq!(title_from_utf16(&units), "A\0B");
}

#[test]
fn utf16_pairs_and_lone_surrogates() {
    let units = [0xd83du16, 0xde00, 0x20, 0xd800, 0];
    assert_eq!(title_from_utf16(&units), "\u{1f600} \u{fffd}");
}

#[test]
fn utf16_of_nothing_but_padding_is_empty() {
    assert_eq!(title_from_utf16(&[0u16; 8]), "");
    assert_eq!(title_from_utf16(&[]), "");
}
