use clipboard_transport::text::trim;

fn same_as_std(text: &str) {
    assert_eq!(trim(text), text.trim().to_string());
}

#[test]
fn trim_removes_surrounding_whitespace() {
    assert_eq!(trim("  hello \r\n"), "hello");
}

#[test]
fn trim_removes_the_newline_that_the_utility_appends() {
    assert_eq!(trim("copied text\r\n"), "copied text");
}

#[test]
fn trim_keeps_whitespace_inside() {
    assert_eq!(trim("\t two  words\n"), "two  words");
}

#[test]
fn trim_of_whitespace_alone_is_empty() {
    assert_eq!(trim(" \t\r\n "), "");
}

#[test]
fn trim_of_nothing_is_nothing() {
    assert_eq!(trim(""), "");
}

#[test]
fn trim_leaves_clean_text_as_it_is() {
    assert_eq!(trim("clean"), "clean");
}

#[test]
fn trim_of_one_character() {
    assert_eq!(trim("x"), "x");
    assert_eq!(trim(" x"), "x");
    assert_eq!(trim("x "), "x");
}

#[test]
fn trim_knows_whitespace_beyond_ascii() {
    assert_eq!(trim("\u{a0}\u{3000}caf\u{e9}\u{2003}\u{85}"), "caf\u{e9}");
}

#[test]
fn trim_counts_characters_not_bytes() {
    assert_eq!(trim(" \u{65e5}\u{672c}\u{8a9e} \u{1f600} "), "\u{65e5}\u{672c}\u{8a9e} \u{1f600}");
}

#[test]
fn trim_does_not_take_a_zero_width_space_for_whitespace() {
    assert_eq!(trim("\u{200b}a\u{200b}"), "\u{200b}a\u{200b}");
}

#[test]
fn trim_agrees_with_the_standard_library() {
    same_as_std("");
    same_as_std("a");
    same_as_std("   ");
    same_as_std(" a b ");
    same_as_std("\n\n line \n\n");
    same_as_std("\u{2028}x\u{2029}");
    same_as_std("\u{1680}\u{202f}\u{205f}y\u{b}\u{c}");
    same_as_std("\u{feff}not whitespace\u{feff}");
}

#[test]
fn trim_twice_is_trim_once() {
    let once = trim("  a  b  ");
    assert_eq!(trim(&once), once);
}
