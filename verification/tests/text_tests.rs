use retro_chat::text::{is_white_space_char, trim};

#[test]
fn whitespace_agrees_with_std_for_every_char() {
    for v in 0u32..=0x10FFFF {
        if let Some(c) = char::from_u32(v) {
            assert_eq!(is_white_space_char(c), c.is_whitespace(), "code point {:#x}", v);
        }
    }
}

#[test]
fn trim_agrees_with_std_trim() {
    let samples = [
        "",
        " ",
        "hello",
        "  hello  ",
        "\thello world\n",
        "\u{3000}wide\u{2028}",
        "\u{a0}\u{85}x y\u{1680}",
        "inner  spaces stay",
        "\n\n\n",
        "é  ",
    ];
    for s in samples.iter() {
        assert_eq!(trim(s), s.trim());
    }
}

#[test]
fn trim_removes_line_end() {
    assert_eq!(trim("alice\n"), "alice");
    assert_eq!(trim("  hi there \r\n"), "hi there");
}

#[test]
fn trim_twice_is_trim_once() {
    let once = trim(" \t padded \n");
    assert_eq!(trim(&once), once);
    assert_eq!(once, "padded");
}

#[test]
fn trailing_whitespace_does_not_change_trim() {
    assert_eq!(trim("bob"), trim("bob\n"));
    assert_eq!(trim("   "), trim("   \n"));
}
