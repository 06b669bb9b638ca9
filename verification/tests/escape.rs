use clipboard_transport::escape::{can_encode, set_clipboard_osc_52};

#[test]
fn sequence_for_hello() {
    assert_eq!(set_clipboard_osc_52("hello"), b"\x1b]52;c;aGVsbG8=\x07".to_vec());
}

#[test]
fn sequence_for_empty_text() {
    assert_eq!(set_clipboard_osc_52(""), b"\x1b]52;c;\x07".to_vec());
}

#[test]
fn sequence_encodes_the_utf8_bytes() {
    assert_eq!(set_clipboard_osc_52("\u{e9}"), b"\x1b]52;c;w6k=\x07".to_vec());
}

#[test]
fn sequence_pads_to_groups_of_four() {
    assert_eq!(set_clipboard_osc_52("a"), b"\x1b]52;c;YQ==\x07".to_vec());
    assert_eq!(set_clipboard_osc_52("ab"), b"\x1b]52;c;YWI=\x07".to_vec());
    assert_eq!(set_clipboard_osc_52("abc"), b"\x1b]52;c;YWJj\x07".to_vec());
}

#[test]
fn sequence_uses_the_standard_alphabet() {
    assert_eq!(set_clipboard_osc_52("\u{3ff}\u{7ff}"), b"\x1b]52;c;z7/fvw==\x07".to_vec());
    assert_eq!(set_clipboard_osc_52(">>>"), b"\x1b]52;c;Pj4+\x07".to_vec());
}

#[test]
fn sequence_starts_with_escape_and_ends_with_bell() {
    let sequence = set_clipboard_osc_52("some text\nwith a line break");
    assert_eq!(sequence[0], 0x1b);
    assert_eq!(&sequence[1..7], b"]52;c;");
    assert_eq!(sequence[sequence.len() - 1], 0x07);
    assert_eq!(sequence.len(), 7 + 36 + 1);
}

#[test]
fn short_text_can_be_encoded() {
    assert!(can_encode(0));
    assert!(can_encode(1));
    assert!(can_encode(5));
    assert!(can_encode(1 << 20));
}

#[test]
fn text_near_the_limit_of_usize_cannot_be_encoded() {
    assert!(!can_encode(usize::MAX));
    assert!(!can_encode(usize::MAX / 4 * 3 + 3));
}

#[test]
fn the_longest_text_that_can_be_encoded() {
    let groups = usize::MAX / 4;
    assert!(can_encode(groups * 3));
    assert!(!can_encode(groups * 3 + 1));
    assert!(can_encode((groups - 1) * 3 + 2));
}
