use linguaspark::marshal::{read_c_text, take_until_nul, CText, NulError};

#[test]
fn c_text_is_the_bytes_and_a_terminator() {
    let text = CText::new("en-de").unwrap();
    assert_eq!(text.as_bytes(), b"en-de");
    assert_eq!(text.as_bytes_with_nul(), b"en-de\0");
    assert_eq!(text.into_bytes_with_nul(), b"en-de\0".to_vec());
}

#[test]
fn c_text_of_empty_text_is_the_terminator_alone() {
    let text = CText::new("").unwrap();
    assert_eq!(text.as_bytes(), b"");
    assert_eq!(text.as_bytes_with_nul(), b"\0");
}

#[test]
fn c_text_holds_utf8_bytes() {
    let text = CText::new("héllo, 世界").unwrap();
    assert_eq!(text.as_bytes(), "héllo, 世界".as_bytes());
    assert_eq!(text.as_bytes_with_nul().last(), Some(&0u8));
    assert_eq!(text.as_bytes_with_nul().len(), "héllo, 世界".len() + 1);
}

#[test]
fn text_with_a_null_byte_is_refused_at_its_position() {
    let error = CText::new("ab\0cd").unwrap_err();
    assert_eq!(error.nul_position(), 2);
    assert_eq!(error.into_vec(), b"ab\0cd".to_vec());
}

#[test]
fn refusal_names_the_first_null_byte() {
    assert_eq!(CText::new("\0").unwrap_err().nul_position(), 0);
    assert_eq!(CText::new("a\0b\0c").unwrap_err().nul_position(), 1);
    assert_eq!(CText::new("abc\0").unwrap_err().nul_position(), 3);
    assert_eq!(CText::new("é\0").unwrap_err().nul_position(), 2);
}

#[test]
fn marshaling_round_trips() {
    let texts = [
        "",
        "en",
        "en-de",
        "Hello, world!",
        "Grüße aus Köln",
        "こんにちは世界",
        "emoji 🎉 and more",
        "line one\nline two\ttabbed",
        "\u{7f}\u{80}\u{7ff}\u{800}\u{ffff}\u{10000}\u{10ffff}",
    ];
    for text in texts {
        let c_text = CText::new(text).unwrap();
        assert_eq!(read_c_text(c_text.as_bytes_with_nul()), text);
        assert_eq!(read_c_text(c_text.as_bytes()), text);
        assert_eq!(take_until_nul(c_text.as_bytes_with_nul()), text.as_bytes());
    }
}

#[test]
fn reading_stops_at_the_first_null_byte() {
    assert_eq!(read_c_text(b"abc\0def\0"), "abc");
    assert_eq!(read_c_text(b"\0abc"), "");
    assert_eq!(take_until_nul(b"abc\0def\0"), b"abc");
    assert_eq!(take_until_nul(b"\0"), b"");
}

#[test]
fn reading_takes_the_whole_buffer_without_a_null_byte() {
    assert_eq!(read_c_text(b"abc"), "abc");
    assert_eq!(read_c_text(b""), "");
    assert_eq!(take_until_nul(b"abc"), b"abc");
}

#[test]
fn invalid_bytes_are_read_with_replacement_markers() {
    assert_eq!(read_c_text(&[0x66, 0x6f, 0x80, 0x6f, 0x00]), "fo\u{fffd}o");
    assert_eq!(read_c_text(&[0xff]), "\u{fffd}");
    assert_eq!(read_c_text(&[0xe4, 0xb8]), "\u{fffd}");
    assert_eq!(read_c_text(&[0x61, 0xc3, 0x00, 0xa9]), "a\u{fffd}");
}

#[test]
fn valid_bytes_are_read_as_they_stand() {
    assert_eq!(read_c_text(&[0xc3, 0xa9, 0x00]), "é");
    assert_eq!(read_c_text("Übersetzung".as_bytes()), "Übersetzung");
}

#[test]
fn text_is_refused_exactly_if_it_holds_the_null_character() {
    let texts = ["", "a", "\0", "a\0", "\0a", "ü\0ü", "üü", "a b c", "\u{100}\u{1000}"];
    for text in texts {
        assert_eq!(CText::new(text).is_err(), text.contains('\0'), "{:?}", text);
    }
}

#[test]
fn nul_error_holds_position_and_bytes() {
    let error = NulError::new(1, b"a\0b".to_vec());
    assert_eq!(error.nul_position(), 1);
    assert_eq!(error, CText::new("a\0b").unwrap_err());
    assert_eq!(error.into_vec(), b"a\0b".to_vec());
}
