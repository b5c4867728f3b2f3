//! The description of a code point as a line of JSON text.

use vstd::prelude::*;
use vstd::string::*;
use crate::category::Category;
use crate::ucd::{block_name, block_name_of, character_name, name_of, push_char, scalar_value};

verus! {

/// The character that writes the digit `digit` of base 16, in capitals if
/// `upper` is set.
pub open spec fn spec_hex_char(digit: nat, upper: bool) -> char {
    if digit < 10 {
        ('0' as int + digit) as char
    } else if upper {
        ('A' as int + digit - 10) as char
    } else {
        ('a' as int + digit - 10) as char
    }
}

/// A number in base 16, first digit highest, with no more digits than it
/// needs and at least one.
pub open spec fn spec_hex_digits(value: nat, upper: bool) -> Seq<char>
    decreases value,
{
    if value < 16 {
        seq![spec_hex_char(value, upper)]
    } else {
        spec_hex_digits(value / 16, upper).push(spec_hex_char(value % 16, upper))
    }
}

/// A run of `count` zeros; none where `count` is not positive.
pub open spec fn spec_zeros(count: int) -> Seq<char> {
    if count > 0 {
        Seq::new(count as nat, |i: int| '0')
    } else {
        Seq::empty()
    }
}

/// The label of a code point: `U+`, then the code point in capital
/// hexadecimal digits, filled with zeros from the left to four digits.
pub open spec fn spec_hex_label(codepoint: u32) -> Seq<char> {
    let digits = spec_hex_digits(codepoint as nat, true);
    "U+"@ + spec_zeros(4 - digits.len()) + digits
}

/// A character as it is written in a literal: a backslash before a tab (as
/// `t`), a carriage return (as `r`), a line feed (as `n`), a quote of either
/// kind and a backslash; the other printable characters of ASCII as they are;
/// every other character as `\u{..}` around its scalar value in small
/// hexadecimal digits.
pub open spec fn spec_escape(c: char) -> Seq<char> {
    if c == '\t' {
        seq!['\\', 't']
    } else if c == '\r' {
        seq!['\\', 'r']
    } else if c == '\n' {
        seq!['\\', 'n']
    } else if c == '\\' || c == '\'' || c == '"' {
        seq!['\\', c]
    } else if ' ' <= c <= '~' {
        seq![c]
    } else {
        seq!['\\', 'u', '{'] + spec_hex_digits(c as nat, false) + seq!['}']
    }
}

/// The description of a character: the fields `codepoint`, `char`, `name`,
/// `category` and `block` of one JSON object, in that order. A character
/// without a name is called `<unnamed>`, one outside every block lies in the
/// block `Unknown`.
pub open spec fn spec_describe(
    c: char,
    name: Option<Seq<char>>,
    category: Category,
    block: Option<Seq<char>>,
) -> Seq<char> {
    "{\"codepoint\":\""@ + spec_hex_label(c as u32) + "\",\"char\":\""@ + spec_escape(c)
        + "\",\"name\":\""@ + (match name {
        Some(n) => n,
        None => "<unnamed>"@,
    }) + "\",\"category\":\""@ + category.spec_name() + "\",\"block\":\""@ + (match block {
        Some(b) => b,
        None => "Unknown"@,
    }) + "\"}"@
}

/// The description of a code point that is no character.
pub open spec fn spec_describe_invalid(codepoint: u32) -> Seq<char> {
    "{\"codepoint\":\""@ + spec_hex_label(codepoint)
        + "\",\"char\":null,\"name\":\"Invalid\",\"category\":\"Invalid\",\"block\":\"Invalid\"}"@
}

/// The description of a code point: that of its character, with the name,
/// the category and the block that the Unicode tables give it, or that of a
/// code point that is no character.
pub open spec fn spec_char_info(codepoint: u32) -> Seq<char> {
    match scalar_value(codepoint) {
        Some(c) => spec_describe(c, name_of(c), Category::spec_of(c), block_name_of(c)),
        None => spec_describe_invalid(codepoint),
    }
}

proof fn lemma_hex_digits_len(value: nat, upper: bool)
    ensures
        value < 0x10 ==> spec_hex_digits(value, upper).len() == 1,
        0x10 <= value < 0x100 ==> spec_hex_digits(value, upper).len() == 2,
        0x100 <= value < 0x1000 ==> spec_hex_digits(value, upper).len() == 3,
        0x1000 <= value ==> spec_hex_digits(value, upper).len() >= 4,
    decreases value,
{
    if value >= 16 {
        lemma_hex_digits_len(value / 16, upper);
    }
}

fn hex_char(digit: u32, upper: bool) -> (c: char)
    requires
        digit < 16,
    ensures
        c == spec_hex_char(digit as nat, upper),
{
    let base: u8 = if digit < 10 {
        0x30
    } else if upper {
        0x41 - 10
    } else {
        0x61 - 10
    };
    (base + digit as u8) as char
}

/// Appends a number in base 16, with no more digits than it needs.
fn push_hex(text: &mut String, value: u32, upper: bool)
    ensures
        final(text)@ == old(text)@ + spec_hex_digits(value as nat, upper),
    decreases value,
{
    if value >= 16 {
        push_hex(text, value / 16, upper);
    }
    push_char(text, hex_char(value % 16, upper));
}

/// Appends the label of a code point.
fn push_hex_label(text: &mut String, codepoint: u32)
    ensures
        final(text)@ == old(text)@ + spec_hex_label(codepoint),
{
    proof {
        lemma_hex_digits_len(codepoint as nat, true);
        reveal_strlit("U+");
    }
    let ghost before = text@;
    text.append("U+");
    if codepoint < 0x1000 {
        push_char(text, '0');
    }
    if codepoint < 0x100 {
        push_char(text, '0');
    }
    if codepoint < 0x10 {
        push_char(text, '0');
    }
    let ghost zeros = text@;
    push_hex(text, codepoint, true);
    proof {
        let digits = spec_hex_digits(codepoint as nat, true);
        assert(zeros =~= before + "U+"@ + spec_zeros(4 - digits.len()));
        assert(text@ =~= before + spec_hex_label(codepoint));
    }
}

/// Appends a character as it is written in a literal.
fn push_escaped(text: &mut String, c: char)
    ensures
        final(text)@ == old(text)@ + spec_escape(c),
{
    let ghost before = text@;
    if c == '\t' {
        push_char(text, '\\');
        push_char(text, 't');
    } else if c == '\r' {
        push_char(text, '\\');
        push_char(text, 'r');
    } else if c == '\n' {
        push_char(text, '\\');
        push_char(text, 'n');
    } else if c == '\\' || c == '\'' || c == '"' {
        push_char(text, '\\');
        push_char(text, c);
    } else if ' ' <= c && c <= '~' {
        push_char(text, c);
    } else {
        push_char(text, '\\');
        push_char(text, 'u');
        push_char(text, '{');
        push_hex(text, c as u32, false);
        push_char(text, '}');
    }
    assert(text@ =~= before + spec_escape(c));
}

/// Describes a character whose name, category and block are given.
pub fn describe(
    c: char,
    name: Option<&str>,
    category: Category,
    block: Option<&str>,
) -> (info: String)
    ensures
        info@ == spec_describe(c, name.deep_view(), category, block.deep_view()),
{
    let mut info = String::new();
    info.append("{\"codepoint\":\"");
    push_hex_label(&mut info, c as u32);
    info.append("\",\"char\":\"");
    push_escaped(&mut info, c);
    info.append("\",\"name\":\"");
    match name {
        Some(n) => info.append(n),
        None => info.append("<unnamed>"),
    }
    info.append("\",\"category\":\"");
    info.append(category.name());
    info.append("\",\"block\":\"");
    match block {
        Some(b) => info.append(b),
        None => info.append("Unknown"),
    }
    info.append("\"}");
    assert(info@ =~= spec_describe(c, name.deep_view(), category, block.deep_view()));
    info
}

/// Describes a code point that is no character.
pub fn describe_invalid(codepoint: u32) -> (info: String)
    ensures
        info@ == spec_describe_invalid(codepoint),
{
    let mut info = String::new();
    info.append("{\"codepoint\":\"");
    push_hex_label(&mut info, codepoint);
    info.append(
        "\",\"char\":null,\"name\":\"Invalid\",\"category\":\"Invalid\",\"block\":\"Invalid\"}",
    );
    assert(info@ =~= spec_describe_invalid(codepoint));
    info
}

/// Describes a code point as one JSON object with the fields `codepoint`,
/// `char`, `name`, `category` and `block`.
pub fn get_char_info(codepoint: u32) -> (info: String)
    ensures
        info@ == spec_char_info(codepoint),
{
    match char::from_u32(codepoint) {
        Some(c) => {
            let name = character_name(c);
            let name_text: Option<&str> = match &name {
                Some(n) => Some(n.as_str()),
                None => None,
            };
            describe(c, name_text, Category::of(c), block_name(c))
        },
        None => describe_invalid(codepoint),
    }
}

} // verus!
