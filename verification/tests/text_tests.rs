use cliptype::text::{char_to_utf16, decimal_string, trim_str, white_space};

#[test]
fn trim_str_matches_std_trim() {
    for s in [
        "",
        "   ",
        "abc",
        "  abc  ",
        "\t\n a b \r\n",
        "\u{2000}\u{200a}x\u{202f}\u{205f}",
        "\u{1680}é ü\u{3000}",
        "\u{200b}zero width stays\u{200b}",
    ] {
        assert_eq!(trim_str(s), s.trim(), "trimming {s:?}");
    }
}

#[test]
fn white_space_matches_std() {
    for c in ['\t', '\n', '\u{b}', '\u{c}', '\r', ' ', '\u{85}', '\u{a0}', '\u{1680}', '\u{2000}',
        '\u{200a}', '\u{2028}', '\u{2029}', '\u{202f}', '\u{205f}', '\u{3000}', 'a', '\u{200b}',
        '\u{180e}', '\u{feff}', '0', '\u{1f600}']
    {
        assert_eq!(white_space(c), c.is_whitespace(), "classifying {c:?}");
    }
}

#[test]
fn decimal_string_renders_like_display() {
    for n in [0u64, 1, 9, 10, 42, 100, 1234567890, u64::MAX] {
        assert_eq!(decimal_string(n), n.to_string());
    }
}

#[test]
fn utf16_of_basic_plane_character_is_one_unit() {
    assert_eq!(char_to_utf16('A'), vec![0x41]);
    assert_eq!(char_to_utf16('é'), vec![0xE9]);
    assert_eq!(char_to_utf16('\u{FFFF}'), vec![0xFFFF]);
}

#[test]
fn utf16_above_basic_plane_is_a_surrogate_pair() {
    let mut buf = [0u16; 2];
    for c in ['\u{10000}', '\u{1F600}', '\u{10FFFF}'] {
        assert_eq!(char_to_utf16(c), c.encode_utf16(&mut buf).to_vec());
    }
    assert_eq!(char_to_utf16('\u{1F600}'), vec![0xD83D, 0xDE00]);
}
