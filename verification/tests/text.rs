use kobo_db_tools::text::{parse_u8, text_equals};

#[test]
fn numbers_from_0_to_255_are_read() {
    assert_eq!(parse_u8("0"), Some(0));
    assert_eq!(parse_u8("7"), Some(7));
    assert_eq!(parse_u8("42"), Some(42));
    assert_eq!(parse_u8("100"), Some(100));
    assert_eq!(parse_u8("255"), Some(255));
    assert_eq!(parse_u8("+5"), Some(5));
    assert_eq!(parse_u8("007"), Some(7));
    assert_eq!(parse_u8("0000000000000000000000255"), Some(255));
}

#[test]
fn other_texts_are_no_numbers() {
    for text in
        ["", "+", "-", "-1", "-0", "256", "260", "999", "1000", "1.5", " 1", "1 ", "1a", "a1", "++1", "٣", "1٣", "½"]
    {
        assert_eq!(parse_u8(text), None, "{:?}", text);
    }
}

#[test]
fn reading_a_number_agrees_with_the_standard_library() {
    for text in ["0", "1", "99", "199", "249", "250", "255", "256", "259", "300", "+0", "+255", "+256", "00", "0x1"] {
        assert_eq!(parse_u8(text), text.parse::<u8>().ok(), "{:?}", text);
    }
    for n in 0..=300u32 {
        let text = n.to_string();
        assert_eq!(parse_u8(&text), text.parse::<u8>().ok());
    }
}

#[test]
fn texts_are_compared_character_by_character() {
    assert!(text_equals("", ""));
    assert!(text_equals("OpenContent", "OpenContent"));
    assert!(!text_equals("OpenContent", "Opencontent"));
    assert!(!text_equals("OpenContent", "OpenConten"));
    assert!(!text_equals("", " "));
    assert!(text_equals("żółw", "żółw"));
    assert!(!text_equals("żółw", "zolw"));
}
