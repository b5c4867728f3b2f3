use unic_ucd_category::GeneralCategory;
use unicode_explorer::{get_category_color, Category};

#[test]
fn category_of_common_characters() {
    assert_eq!(Category::of('A'), Category::UppercaseLetter);
    assert_eq!(Category::of('a'), Category::LowercaseLetter);
    assert_eq!(Category::of('\u{01C5}'), Category::TitlecaseLetter);
    assert_eq!(Category::of('\u{02B0}'), Category::ModifierLetter);
    assert_eq!(Category::of('\u{4E00}'), Category::OtherLetter);
    assert_eq!(Category::of('\u{0300}'), Category::NonspacingMark);
    assert_eq!(Category::of('\u{0903}'), Category::SpacingMark);
    assert_eq!(Category::of('\u{20DD}'), Category::EnclosingMark);
    assert_eq!(Category::of('7'), Category::DecimalNumber);
    assert_eq!(Category::of('\u{2160}'), Category::LetterNumber);
    assert_eq!(Category::of('\u{00BD}'), Category::OtherNumber);
    assert_eq!(Category::of('_'), Category::ConnectorPunctuation);
    assert_eq!(Category::of('-'), Category::DashPunctuation);
    assert_eq!(Category::of('('), Category::OpenPunctuation);
    assert_eq!(Category::of(')'), Category::ClosePunctuation);
    assert_eq!(Category::of('\u{00AB}'), Category::InitialPunctuation);
    assert_eq!(Category::of('\u{00BB}'), Category::FinalPunctuation);
    assert_eq!(Category::of('!'), Category::OtherPunctuation);
    assert_eq!(Category::of('+'), Category::MathSymbol);
    assert_eq!(Category::of('$'), Category::CurrencySymbol);
    assert_eq!(Category::of('^'), Category::ModifierSymbol);
    assert_eq!(Category::of('\u{00A9}'), Category::OtherSymbol);
    assert_eq!(Category::of(' '), Category::SpaceSeparator);
    assert_eq!(Category::of('\u{2028}'), Category::LineSeparator);
    assert_eq!(Category::of('\u{2029}'), Category::ParagraphSeparator);
    assert_eq!(Category::of('\u{0000}'), Category::Control);
    assert_eq!(Category::of('\u{00AD}'), Category::Format);
    assert_eq!(Category::of('\u{E000}'), Category::PrivateUse);
    assert_eq!(Category::of('\u{10FFFF}'), Category::Unassigned);
}

#[test]
fn category_of_agrees_with_the_tables_for_every_character() {
    for cp in 0..=0x10FFFFu32 {
        if let Some(c) = char::from_u32(cp) {
            let expected = format!("{:?}", GeneralCategory::of(c));
            assert_eq!(Category::of(c).name(), expected, "U+{:04X}", cp);
        }
    }
}

#[test]
fn from_code_follows_the_order_of_the_tables() {
    let all = [
        GeneralCategory::UppercaseLetter,
        GeneralCategory::LowercaseLetter,
        GeneralCategory::TitlecaseLetter,
        GeneralCategory::ModifierLetter,
        GeneralCategory::OtherLetter,
        GeneralCategory::NonspacingMark,
        GeneralCategory::SpacingMark,
        GeneralCategory::EnclosingMark,
        GeneralCategory::DecimalNumber,
        GeneralCategory::LetterNumber,
        GeneralCategory::OtherNumber,
        GeneralCategory::ConnectorPunctuation,
        GeneralCategory::DashPunctuation,
        GeneralCategory::OpenPunctuation,
        GeneralCategory::ClosePunctuation,
        GeneralCategory::InitialPunctuation,
        GeneralCategory::FinalPunctuation,
        GeneralCategory::OtherPunctuation,
        GeneralCategory::MathSymbol,
        GeneralCategory::CurrencySymbol,
        GeneralCategory::ModifierSymbol,
        GeneralCategory::OtherSymbol,
        GeneralCategory::SpaceSeparator,
        GeneralCategory::LineSeparator,
        GeneralCategory::ParagraphSeparator,
        GeneralCategory::Control,
        GeneralCategory::Format,
        GeneralCategory::Surrogate,
        GeneralCategory::PrivateUse,
        GeneralCategory::Unassigned,
    ];
    for category in all {
        let code = category as u8;
        assert_eq!(Category::from_code(code).name(), format!("{:?}", category));
    }
}

#[test]
fn from_code_past_the_table_is_unassigned() {
    assert_eq!(Category::from_code(29), Category::Unassigned);
    assert_eq!(Category::from_code(30), Category::Unassigned);
    assert_eq!(Category::from_code(255), Category::Unassigned);
}

#[test]
fn color_of_each_class() {
    assert_eq!(Category::UppercaseLetter.color(), "#2d5a27");
    assert_eq!(Category::LowercaseLetter.color(), "#2d5a27");
    assert_eq!(Category::TitlecaseLetter.color(), "#2d5a27");
    assert_eq!(Category::ModifierLetter.color(), "#2d5a27");
    assert_eq!(Category::OtherLetter.color(), "#2d5a27");
    assert_eq!(Category::DecimalNumber.color(), "#1a4d7a");
    assert_eq!(Category::LetterNumber.color(), "#1a4d7a");
    assert_eq!(Category::OtherNumber.color(), "#1a4d7a");
    assert_eq!(Category::SpaceSeparator.color(), "#4a4a4a");
    assert_eq!(Category::LineSeparator.color(), "#4a4a4a");
    assert_eq!(Category::ParagraphSeparator.color(), "#4a4a4a");
    assert_eq!(Category::Control.color(), "#5a1a1a");
    assert_eq!(Category::Format.color(), "#5a1a1a");
    assert_eq!(Category::Surrogate.color(), "#5a1a1a");
    assert_eq!(Category::PrivateUse.color(), "#5a1a1a");
    assert_eq!(Category::ConnectorPunctuation.color(), "#6b4c1a");
    assert_eq!(Category::DashPunctuation.color(), "#6b4c1a");
    assert_eq!(Category::OpenPunctuation.color(), "#6b4c1a");
    assert_eq!(Category::ClosePunctuation.color(), "#6b4c1a");
    assert_eq!(Category::InitialPunctuation.color(), "#6b4c1a");
    assert_eq!(Category::FinalPunctuation.color(), "#6b4c1a");
    assert_eq!(Category::OtherPunctuation.color(), "#6b4c1a");
    assert_eq!(Category::MathSymbol.color(), "#5a1a5a");
    assert_eq!(Category::CurrencySymbol.color(), "#5a1a5a");
    assert_eq!(Category::ModifierSymbol.color(), "#5a1a5a");
    assert_eq!(Category::OtherSymbol.color(), "#5a1a5a");
    assert_eq!(Category::NonspacingMark.color(), "#1a5a5a");
    assert_eq!(Category::SpacingMark.color(), "#1a5a5a");
    assert_eq!(Category::EnclosingMark.color(), "#1a5a5a");
    assert_eq!(Category::Unassigned.color(), "#2a2a2a");
}

#[test]
fn get_category_color_of_codepoints() {
    assert_eq!(get_category_color(0x41), "#2d5a27");
    assert_eq!(get_category_color(0x31), "#1a4d7a");
    assert_eq!(get_category_color(0x20), "#4a4a4a");
    assert_eq!(get_category_color(0x00), "#5a1a1a");
    assert_eq!(get_category_color(0xE000), "#5a1a1a");
    assert_eq!(get_category_color(0x21), "#6b4c1a");
    assert_eq!(get_category_color(0x2B), "#5a1a5a");
    assert_eq!(get_category_color(0x0300), "#1a5a5a");
    assert_eq!(get_category_color(0x10FFFF), "#2a2a2a");
}

#[test]
fn get_category_color_of_invalid_codepoints() {
    assert_eq!(get_category_color(0xD800), "#2a2a2a");
    assert_eq!(get_category_color(0xDFFF), "#2a2a2a");
    assert_eq!(get_category_color(0x110000), "#2a2a2a");
    assert_eq!(get_category_color(u32::MAX), "#2a2a2a");
}
