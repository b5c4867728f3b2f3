//! General categories of characters and the colour in which a cell of each is
//! filled.

use vstd::prelude::*;
use crate::ucd::{category_code, category_code_of, scalar_value};

verus! {

/// The general category of a character.
#[derive(Clone, Copy, Debug, PartialEq, Eq, Structural)]
pub enum Category {
    UppercaseLetter,
    LowercaseLetter,
    TitlecaseLetter,
    ModifierLetter,
    OtherLetter,
    NonspacingMark,
    SpacingMark,
    EnclosingMark,
    DecimalNumber,
    LetterNumber,
    OtherNumber,
    ConnectorPunctuation,
    DashPunctuation,
    OpenPunctuation,
    ClosePunctuation,
    InitialPunctuation,
    FinalPunctuation,
    OtherPunctuation,
    MathSymbol,
    CurrencySymbol,
    ModifierSymbol,
    OtherSymbol,
    SpaceSeparator,
    LineSeparator,
    ParagraphSeparator,
    Control,
    Format,
    Surrogate,
    PrivateUse,
    Unassigned,
}

/// Fill of a cell that holds no character, and of one whose character is
/// unassigned.
pub open spec fn spec_blank_color() -> Seq<char> {
    "#2a2a2a"@
}

impl Category {
    /// The category at place `code` of the table of categories; a place past
    /// the table counts as unassigned.
    pub open spec fn spec_from_code(code: u8) -> Category {
        if code == 0 {
            Category::UppercaseLetter
        } else if code == 1 {
            Category::LowercaseLetter
        } else if code == 2 {
            Category::TitlecaseLetter
        } else if code == 3 {
            Category::ModifierLetter
        } else if code == 4 {
            Category::OtherLetter
        } else if code == 5 {
            Category::NonspacingMark
        } else if code == 6 {
            Category::SpacingMark
        } else if code == 7 {
            Category::EnclosingMark
        } else if code == 8 {
            Category::DecimalNumber
        } else if code == 9 {
            Category::LetterNumber
        } else if code == 10 {
            Category::OtherNumber
        } else if code == 11 {
            Category::ConnectorPunctuation
        } else if code == 12 {
            Category::DashPunctuation
        } else if code == 13 {
            Category::OpenPunctuation
        } else if code == 14 {
            Category::ClosePunctuation
        } else if code == 15 {
            Category::InitialPunctuation
        } else if code == 16 {
            Category::FinalPunctuation
        } else if code == 17 {
            Category::OtherPunctuation
        } else if code == 18 {
            Category::MathSymbol
        } else if code == 19 {
            Category::CurrencySymbol
        } else if code == 20 {
            Category::ModifierSymbol
        } else if code == 21 {
            Category::OtherSymbol
        } else if code == 22 {
            Category::SpaceSeparator
        } else if code == 23 {
            Category::LineSeparator
        } else if code == 24 {
            Category::ParagraphSeparator
        } else if code == 25 {
            Category::Control
        } else if code == 26 {
            Category::Format
        } else if code == 27 {
            Category::Surrogate
        } else if code == 28 {
            Category::PrivateUse
        } else {
            Category::Unassigned
        }
    }

    /// The category of a character.
    pub open spec fn spec_of(c: char) -> Category {
        Self::spec_from_code(category_code_of(c))
    }

    /// The fill of a cell by the class of its category: letters, numbers,
    /// separators, controls and other special code points, punctuation,
    /// symbols, marks, and unassigned.
    pub open spec fn spec_color(self) -> Seq<char> {
        match self {
            Category::UppercaseLetter
            | Category::LowercaseLetter
            | Category::TitlecaseLetter
            | Category::ModifierLetter
            | Category::OtherLetter => "#2d5a27"@,
            Category::DecimalNumber | Category::LetterNumber | Category::OtherNumber => "#1a4d7a"@,
            Category::SpaceSeparator
            | Category::LineSeparator
            | Category::ParagraphSeparator => "#4a4a4a"@,
            Category::Control
            | Category::Format
            | Category::Surrogate
            | Category::PrivateUse => "#5a1a1a"@,
            Category::ConnectorPunctuation
            | Category::DashPunctuation
            | Category::OpenPunctuation
            | Category::ClosePunctuation
            | Category::InitialPunctuation
            | Category::FinalPunctuation
            | Category::OtherPunctuation => "#6b4c1a"@,
            Category::MathSymbol
            | Category::CurrencySymbol
            | Category::ModifierSymbol
            | Category::OtherSymbol => "#5a1a5a"@,
            Category::NonspacingMark | Category::SpacingMark | Category::EnclosingMark => "#1a5a5a"@,
            Category::Unassigned => spec_blank_color(),
        }
    }

    /// The name of the category, written as one word.
    pub open spec fn spec_name(self) -> Seq<char> {
        match self {
            Category::UppercaseLetter => "UppercaseLetter"@,
            Category::LowercaseLetter => "LowercaseLetter"@,
            Category::TitlecaseLetter => "TitlecaseLetter"@,
            Category::ModifierLetter => "ModifierLetter"@,
            Category::OtherLetter => "OtherLetter"@,
            Category::NonspacingMark => "NonspacingMark"@,
            Category::SpacingMark => "SpacingMark"@,
            Category::EnclosingMark => "EnclosingMark"@,
            Category::DecimalNumber => "DecimalNumber"@,
            Category::LetterNumber => "LetterNumber"@,
            Category::OtherNumber => "OtherNumber"@,
            Category::ConnectorPunctuation => "ConnectorPunctuation"@,
            Category::DashPunctuation => "DashPunctuation"@,
            Category::OpenPunctuation => "OpenPunctuation"@,
            Category::ClosePunctuation => "ClosePunctuation"@,
            Category::InitialPunctuation => "InitialPunctuation"@,
            Category::FinalPunctuation => "FinalPunctuation"@,
            Category::OtherPunctuation => "OtherPunctuation"@,
            Category::MathSymbol => "MathSymbol"@,
            Category::CurrencySymbol => "CurrencySymbol"@,
            Category::ModifierSymbol => "ModifierSymbol"@,
            Category::OtherSymbol => "OtherSymbol"@,
            Category::SpaceSeparator => "SpaceSeparator"@,
            Category::LineSeparator => "LineSeparator"@,
            Category::ParagraphSeparator => "ParagraphSeparator"@,
            Category::Control => "Control"@,
            Category::Format => "Format"@,
            Category::Surrogate => "Surrogate"@,
            Category::PrivateUse => "PrivateUse"@,
            Category::Unassigned => "Unassigned"@,
        }
    }

    /// The category at place `code` of the table of categories.
    pub fn from_code(code: u8) -> (cat: Category)
        ensures
            cat == Self::spec_from_code(code),
    {
        match code {
            0 => Category::UppercaseLetter,
            1 => Category::LowercaseLetter,
            2 => Category::TitlecaseLetter,
            3 => Category::ModifierLetter,
            4 => Category::OtherLetter,
            5 => Category::NonspacingMark,
            6 => Category::SpacingMark,
            7 => Category::EnclosingMark,
            8 => Category::DecimalNumber,
            9 => Category::LetterNumber,
            10 => Category::OtherNumber,
            11 => Category::ConnectorPunctuation,
            12 => Category::DashPunctuation,
            13 => Category::OpenPunctuation,
            14 => Category::ClosePunctuation,
            15 => Category::InitialPunctuation,
            16 => Category::FinalPunctuation,
            17 => Category::OtherPunctuation,
            18 => Category::MathSymbol,
            19 => Category::CurrencySymbol,
            20 => Category::ModifierSymbol,
            21 => Category::OtherSymbol,
            22 => Category::SpaceSeparator,
            23 => Category::LineSeparator,
            24 => Category::ParagraphSeparator,
            25 => Category::Control,
            26 => Category::Format,
            27 => Category::Surrogate,
            28 => Category::PrivateUse,
            _ => Category::Unassigned,
        }
    }

    /// Looks up the general category of a character.
    pub fn of(c: char) -> (cat: Category)
        ensures
            cat == Self::spec_of(c),
    {
        Self::from_code(category_code(c))
    }

    /// The fill of a cell whose character has this category.
    pub fn color(self) -> (color: &'static str)
        ensures
            color@ == self.spec_color(),
    {
        match self {
            Category::UppercaseLetter
            | Category::LowercaseLetter
            | Category::TitlecaseLetter
            | Category::ModifierLetter
            | Category::OtherLetter => "#2d5a27",
            Category::DecimalNumber | Category::LetterNumber | Category::OtherNumber => "#1a4d7a",
            Category::SpaceSeparator
            | Category::LineSeparator
            | Category::ParagraphSeparator => "#4a4a4a",
            Category::Control
            | Category::Format
            | Category::Surrogate
            | Category::PrivateUse => "#5a1a1a",
            Category::ConnectorPunctuation
            | Category::DashPunctuation
            | Category::OpenPunctuation
            | Category::ClosePunctuation
            | Category::InitialPunctuation
            | Category::FinalPunctuation
            | Category::OtherPunctuation => "#6b4c1a",
            Category::MathSymbol
            | Category::CurrencySymbol
            | Category::ModifierSymbol
            | Category::OtherSymbol => "#5a1a5a",
            Category::NonspacingMark | Category::SpacingMark | Category::EnclosingMark => "#1a5a5a",
            Category::Unassigned => "#2a2a2a",
        }
    }

    /// The name of the category, written as one word.
    pub fn name(self) -> (name: &'static str)
        ensures
            name@ == self.spec_name(),
    {
        match self {
            Category::UppercaseLetter => "UppercaseLetter",
            Category::LowercaseLetter => "LowercaseLetter",
            Category::TitlecaseLetter => "TitlecaseLetter",
            Category::ModifierLetter => "ModifierLetter",
            Category::OtherLetter => "OtherLetter",
            Category::NonspacingMark => "NonspacingMark",
            Category::SpacingMark => "SpacingMark",
            Category::EnclosingMark => "EnclosingMark",
            Category::DecimalNumber => "DecimalNumber",
            Category::LetterNumber => "LetterNumber",
            Category::OtherNumber => "OtherNumber",
            Category::ConnectorPunctuation => "ConnectorPunctuation",
            Category::DashPunctuation => "DashPunctuation",
            Category::OpenPunctuation => "OpenPunctuation",
            Category::ClosePunctuation => "ClosePunctuation",
            Category::InitialPunctuation => "InitialPunctuation",
            Category::FinalPunctuation => "FinalPunctuation",
            Category::OtherPunctuation => "OtherPunctuation",
            Category::MathSymbol => "MathSymbol",
            Category::CurrencySymbol => "CurrencySymbol",
            Category::ModifierSymbol => "ModifierSymbol",
            Category::OtherSymbol => "OtherSymbol",
            Category::SpaceSeparator => "SpaceSeparator",
            Category::LineSeparator => "LineSeparator",
            Category::ParagraphSeparator => "ParagraphSeparator",
            Category::Control => "Control",
            Category::Format => "Format",
            Category::Surrogate => "Surrogate",
            Category::PrivateUse => "PrivateUse",
            Category::Unassigned => "Unassigned",
        }
    }
}

/// The fill of the cell of a code point: the colour of its character's
/// category, and the blank fill where the code point is no character.
pub open spec fn spec_category_color(codepoint: u32) -> Seq<char> {
    match scalar_value(codepoint) {
        Some(c) => Category::spec_of(c).spec_color(),
        None => spec_blank_color(),
    }
}

/// The colour in which the cell of a code point is filled.
pub fn get_category_color(codepoint: u32) -> (color: &'static str)
    ensures
        color@ == spec_category_color(codepoint),
{
    match char::from_u32(codepoint) {
        Some(c) => Category::of(c).color(),
        None => "#2a2a2a",
    }
}

} // verus!
