use route_bridge::api_key;
use route_bridge::api_key::{is_white, trim};

#[test]
fn key_is_the_text_without_the_space_around_it() {
    assert_eq!(api_key(Some("  abc123\n")), "abc123");
    assert_eq!(api_key(Some("abc123")), "abc123");
    assert_eq!(api_key(Some("\r\n\tkey with spaces inside \r\n")), "key with spaces inside");
}

#[test]
fn key_of_a_missing_file_is_empty() {
    assert_eq!(api_key(None), "");
}

#[test]
fn key_of_a_blank_file_is_empty() {
    assert_eq!(api_key(Some("")), "");
    assert_eq!(api_key(Some(" ")), "");
    assert_eq!(api_key(Some(" \n\t \r\n")), "");
}

#[test]
fn trim_keeps_what_is_inside() {
    assert_eq!(trim("a"), "a");
    assert_eq!(trim(" a"), "a");
    assert_eq!(trim("a "), "a");
    assert_eq!(trim(" a b "), "a b");
    assert_eq!(trim("\u{3000}\u{e9}t\u{e9}\u{2003}"), "\u{e9}t\u{e9}");
    assert_eq!(trim("\u{a0}x\u{85}"), "x");
    assert_eq!(trim("\u{200b}x\u{200b}"), "\u{200b}x\u{200b}");
}

#[test]
fn trim_agrees_with_the_standard_library() {
    let texts = [
        "",
        " ",
        "key",
        "  key",
        "key  ",
        "\t key \n",
        "\u{1680}\u{2000}k e y\u{2028}\u{2029}",
        "\u{feff}key\u{feff}",
        "\u{180e}key\u{180e}",
        "\u{b}\u{c}key\u{1c}\u{1f}",
        "\u{202f}\u{205f}\u{1f600} \u{1f600}\u{200a}",
    ];
    for text in texts {
        assert_eq!(trim(text), text.trim());
    }
}

#[test]
fn white_space_is_what_the_standard_library_says() {
    let mut code: u32 = 0;
    while code <= 0x10FFFF {
        if let Some(c) = char::from_u32(code) {
            assert_eq!(is_white(c), c.is_whitespace());
        }
        code += 1;
    }
}
