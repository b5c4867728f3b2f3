//! Search for code points: by address, written in hexadecimal after `u+` or
//! `0x`, or by a part of the character's name.

use vstd::prelude::*;
use vstd::string::*;
use crate::ucd::{
    character_name, is_substring, lowercase_of, name_of, scalar_value, str_contains, to_lowercase,
};

verus! {

/// The value of a hexadecimal digit, in either case.
pub open spec fn spec_hex_digit(c: char) -> Option<nat> {
    if '0' <= c <= '9' {
        Some((c as int - '0' as int) as nat)
    } else if 'a' <= c <= 'f' {
        Some((c as int - 'a' as int + 10) as nat)
    } else if 'A' <= c <= 'F' {
        Some((c as int - 'A' as int + 10) as nat)
    } else {
        None
    }
}

/// Every character is a hexadecimal digit.
pub open spec fn all_hex_digits(digits: Seq<char>) -> bool {
    forall|i: int| 0 <= i < digits.len() ==> spec_hex_digit(#[trigger] digits[i]) is Some
}

/// The number that a run of hexadecimal digits writes, first digit highest.
pub open spec fn spec_hex_value(digits: Seq<char>) -> nat
    decreases digits.len(),
{
    if digits.len() == 0 {
        0
    } else {
        16 * spec_hex_value(digits.drop_last()) + match spec_hex_digit(digits.last()) {
            Some(d) => d,
            None => 0,
        }
    }
}

/// A text without the plus sign that may stand before its digits.
pub open spec fn spec_unsigned(text: Seq<char>) -> Seq<char> {
    if text.len() > 0 && text[0] == '+' {
        text.skip(1)
    } else {
        text
    }
}

/// The number written by `text` in base 16: an optional plus sign, then one
/// or more hexadecimal digits and nothing else; `None` for any other text and
/// for a number that does not fit in 32 bits.
pub open spec fn spec_parse_hex(text: Seq<char>) -> Option<u32> {
    let digits = spec_unsigned(text);
    if digits.len() > 0 && all_hex_digits(digits) && spec_hex_value(digits) <= u32::MAX {
        Some(spec_hex_value(digits) as u32)
    } else {
        None
    }
}

/// The text begins with `u+` or with `0x`.
pub open spec fn has_address_prefix(query: Seq<char>) -> bool {
    &&& query.len() >= 2
    &&& (query[0] == 'u' && query[1] == '+') || (query[0] == '0' && query[1] == 'x')
}

/// The code point that a query names by its address: the query begins with
/// `u+` or `0x`, what follows that prefix is a number in base 16, and the
/// number is the scalar value of a character.
pub open spec fn spec_direct_address(query: Seq<char>) -> Option<u32> {
    if has_address_prefix(query) {
        match spec_parse_hex(query.skip(2)) {
            Some(cp) => if scalar_value(cp) is Some {
                Some(cp)
            } else {
                None
            },
            None => None,
        }
    } else {
        None
    }
}

/// The code point is a character whose name, in lowercase, holds `query`.
pub open spec fn spec_name_matches(query: Seq<char>, codepoint: u32) -> bool {
    match scalar_value(codepoint) {
        Some(c) => match name_of(c) {
            Some(name) => is_substring(query, lowercase_of(name)),
            None => false,
        },
        None => false,
    }
}

pub open spec fn name_matcher(query: Seq<char>) -> spec_fn(u32) -> bool {
    |codepoint: u32| spec_name_matches(query, codepoint)
}

/// The code points below `end`, in ascending order.
pub open spec fn codepoints_below(end: nat) -> Seq<u32> {
    Seq::new(end, |i: int| i as u32)
}

/// The code points below `end` whose name holds `query`, in ascending order.
pub open spec fn matches_below(query: Seq<char>, end: nat) -> Seq<u32> {
    codepoints_below(end).filter(name_matcher(query))
}

/// The first `limit` items of a sequence, or all of it if it has fewer.
pub open spec fn first_items(items: Seq<u32>, limit: nat) -> Seq<u32> {
    if items.len() <= limit {
        items
    } else {
        items.take(limit as int)
    }
}

/// The first `limit` code points, in ascending order, whose name holds
/// `query`.
pub open spec fn spec_name_scan(query: Seq<char>, limit: nat) -> Seq<u32> {
    first_items(matches_below(query, 0x110000), limit)
}

/// What a search for a query in lowercase finds: the code point that the
/// query names by its address, alone and whatever the limit; else the first
/// `limit` code points whose name holds the query.
pub open spec fn spec_search(query: Seq<char>, limit: nat) -> Seq<u32> {
    match spec_direct_address(query) {
        Some(cp) => seq![cp],
        None => spec_name_scan(query, limit),
    }
}

proof fn lemma_hex_value_of_prefix(digits: Seq<char>, k: int)
    requires
        0 <= k <= digits.len(),
    ensures
        spec_hex_value(digits.take(k)) <= spec_hex_value(digits),
    decreases digits.len() - k,
{
    if k == digits.len() {
        assert(digits.take(k) =~= digits);
    } else {
        assert(digits.drop_last().take(k) =~= digits.take(k));
        lemma_hex_value_of_prefix(digits.drop_last(), k);
    }
}

proof fn lemma_matches_step(query: Seq<char>, end: nat)
    requires
        end < 0x110000,
    ensures
        matches_below(query, end + 1) == if spec_name_matches(query, end as u32) {
            matches_below(query, end).push(end as u32)
        } else {
            matches_below(query, end)
        },
{
    reveal(Seq::filter);
    let next = codepoints_below(end + 1);
    assert(next.drop_last() =~= codepoints_below(end));
    assert(next.last() == end as u32);
}

proof fn lemma_matches_prefix(query: Seq<char>, end: nat, later: nat)
    requires
        end <= later <= 0x110000,
    ensures
        matches_below(query, end).len() <= matches_below(query, later).len(),
        matches_below(query, later).take(matches_below(query, end).len() as int) == matches_below(
            query,
            end,
        ),
    decreases later - end,
{
    if end == later {
        assert(matches_below(query, end).take(matches_below(query, end).len() as int)
            =~= matches_below(query, end));
    } else {
        lemma_matches_prefix(query, end, (later - 1) as nat);
        lemma_matches_step(query, (later - 1) as nat);
        let shorter = matches_below(query, (later - 1) as nat);
        let n = matches_below(query, end).len() as int;
        assert(matches_below(query, later).take(n) =~= shorter.take(n));
    }
}

proof fn lemma_matches_below(query: Seq<char>, end: nat)
    requires
        end <= 0x110000,
    ensures
        forall|i: int|
            0 <= i < matches_below(query, end).len() ==> {
                &&& (#[trigger] matches_below(query, end)[i]) < end
                &&& spec_name_matches(query, matches_below(query, end)[i])
            },
        forall|i: int, j: int|
            0 <= i < j < matches_below(query, end).len() ==> matches_below(query, end)[i]
                < matches_below(query, end)[j],
        forall|codepoint: u32|
            codepoint < end && spec_name_matches(query, codepoint) ==> matches_below(
                query,
                end,
            ).contains(codepoint),
    decreases end,
{
    if end == 0 {
        reveal(Seq::filter);
        assert(codepoints_below(0) =~= Seq::<u32>::empty());
    } else {
        let before = matches_below(query, (end - 1) as nat);
        let all = matches_below(query, end);
        lemma_matches_below(query, (end - 1) as nat);
        lemma_matches_step(query, (end - 1) as nat);
        assert forall|codepoint: u32|
            codepoint < end && spec_name_matches(query, codepoint) implies all.contains(
            codepoint,
        ) by {
            if codepoint < end - 1 {
                let i = choose|i: int| 0 <= i < before.len() && before[i] == codepoint;
                assert(all[i] == codepoint);
            } else {
                assert(all[all.len() - 1] == codepoint);
            }
        }
    }
}

/// A search by name finds no more code points than the limit allows.
pub proof fn lemma_scan_within_limit(query: Seq<char>, limit: nat)
    ensures
        spec_name_scan(query, limit).len() <= limit,
{
}

/// What a search by name finds is fixed by the query and the limit: code
/// points of characters whose name holds the query, in ascending order, and
/// none that matches is passed over before the limit is reached.
pub proof fn lemma_scan_finds_first_matches(query: Seq<char>, limit: nat)
    ensures
        forall|i: int|
            0 <= i < spec_name_scan(query, limit).len() ==> {
                &&& (#[trigger] spec_name_scan(query, limit)[i]) <= 0x10FFFF
                &&& spec_name_matches(query, spec_name_scan(query, limit)[i])
            },
        forall|i: int, j: int|
            0 <= i < j < spec_name_scan(query, limit).len() ==> spec_name_scan(query, limit)[i]
                < spec_name_scan(query, limit)[j],
        forall|codepoint: u32|
            codepoint <= 0x10FFFF && spec_name_matches(query, codepoint) && !spec_name_scan(
                query,
                limit,
            ).contains(codepoint) ==> {
                &&& spec_name_scan(query, limit).len() == limit
                &&& forall|i: int|
                    0 <= i < limit ==> (#[trigger] spec_name_scan(query, limit)[i]) < codepoint
            },
{
    let all = matches_below(query, 0x110000);
    let found = spec_name_scan(query, limit);
    lemma_matches_below(query, 0x110000);
    assert forall|codepoint: u32|
        codepoint <= 0x10FFFF && spec_name_matches(query, codepoint) && !found.contains(
            codepoint,
        ) implies found.len() == limit && forall|i: int|
        0 <= i < limit ==> (#[trigger] found[i]) < codepoint by {
        let k = choose|k: int| 0 <= k < all.len() && all[k] == codepoint;
        if k < found.len() {
            assert(found[k] == codepoint);
        }
        assert forall|i: int| 0 <= i < limit implies (#[trigger] found[i]) < codepoint by {
            assert(found[i] == all[i]);
        }
    }
}

/// The value of a byte that is a hexadecimal digit in ASCII.
fn hex_digit(byte: u8) -> (value: Option<u32>)
    requires
        byte < 128,
    ensures
        match value {
            Some(d) => spec_hex_digit(byte as char) == Some(d as nat) && d < 16,
            None => spec_hex_digit(byte as char) is None,
        },
{
    if 0x30 <= byte && byte <= 0x39 {
        Some((byte - 0x30) as u32)
    } else if 0x61 <= byte && byte <= 0x66 {
        Some((byte - 0x61 + 10) as u32)
    } else if 0x41 <= byte && byte <= 0x46 {
        Some((byte - 0x41 + 10) as u32)
    } else {
        None
    }
}

/// Reads a number in base 16: an optional plus sign, then one or more
/// hexadecimal digits in either case. Any other text, and a number too large
/// for 32 bits, gives `None`.
pub fn parse_hex(text: &str) -> (number: Option<u32>)
    ensures
        number == spec_parse_hex(text@),
{
    broadcast use is_ascii_spec_bytes;

    let ghost chars = text@;
    let ghost digits = spec_unsigned(chars);
    if !text.is_ascii() {
        proof {
            let i = choose|i: int| 0 <= i < chars.len() && !('\0' <= #[trigger] chars[i] <= '\u{7f}');
            if digits.len() == chars.len() {
                assert(spec_hex_digit(digits[i]) is None);
            } else {
                assert(i > 0);
                assert(spec_hex_digit(digits[i - 1]) is None);
            }
        }
        return None;
    }
    let bytes = text.as_bytes();
    let n: usize = bytes.len();
    assert(n == chars.len());
    assert(forall|j: int| 0 <= j < n ==> (#[trigger] chars[j] as int) < 128 && bytes@[j] as int == chars[j] as int);
    let start: usize = if n > 0 && bytes[0] == 0x2B {
        1
    } else {
        0
    };
    assert(digits =~= chars.skip(start as int));
    if start == n {
        return None;
    }
    let mut value: u32 = 0;
    let mut i: usize = start;
    while i < n
        invariant
            start <= i <= n,
            n == chars.len(),
            bytes@.len() == n,
            chars == text@,
            digits == spec_unsigned(chars),
            digits == chars.skip(start as int),
            forall|j: int| 0 <= j < n ==> (#[trigger] chars[j] as int) < 128 && bytes@[j] as int == chars[j] as int,
            all_hex_digits(digits.take(i - start)),
            value == spec_hex_value(digits.take(i - start)),
        decreases n - i,
    {
        let ghost seen = digits.take(i - start);
        let ghost next = digits.take(i - start + 1);
        proof {
            assert(next.drop_last() =~= seen);
            assert(next.last() == chars[i as int]);
            assert(bytes@[i as int] as char == chars[i as int]);
        }
        let digit: u32 = match hex_digit(bytes[i]) {
            Some(d) => d,
            None => {
                assert(spec_hex_digit(digits[i - start]) is None);
                return None;
            },
        };
        if value > (u32::MAX - digit) / 16 {
            proof {
                lemma_hex_value_of_prefix(digits, i - start + 1);
            }
            return None;
        }
        value = value * 16 + digit;
        i = i + 1;
    }
    assert(digits.take(n - start) =~= digits);
    Some(value)
}

/// The code point that a query names by its address, if it names one: `u+`
/// or `0x`, then the scalar value of a character in base 16.
pub fn direct_address(query: &str) -> (found: Option<u32>)
    ensures
        found == spec_direct_address(query@),
{
    let len: usize = query.unicode_len();
    if len < 2 {
        return None;
    }
    let first = query.get_char(0);
    let second = query.get_char(1);
    if !((first == 'u' && second == '+') || (first == '0' && second == 'x')) {
        return None;
    }
    let rest = query.substring_char(2, len);
    assert(rest@ =~= query@.skip(2));
    match parse_hex(rest) {
        Some(cp) => match char::from_u32(cp) {
            Some(_) => Some(cp),
            None => None,
        },
        None => None,
    }
}

/// Whether the code point is a character whose name, in lowercase, holds
/// `query`.
pub fn name_matches(query: &str, codepoint: u32) -> (matches: bool)
    ensures
        matches == spec_name_matches(query@, codepoint),
{
    match char::from_u32(codepoint) {
        Some(c) => match character_name(c) {
            Some(name) => {
                let lower = to_lowercase(name.as_str());
                str_contains(lower.as_str(), query)
            },
            None => false,
        },
        None => false,
    }
}

/// Walks the code points in ascending order and collects those whose name
/// holds `query`, until `limit` are found or the last code point is passed.
pub fn name_scan(query: &str, limit: u32) -> (found: Vec<u32>)
    ensures
        found@ == spec_name_scan(query@, limit as nat),
        found.len() <= limit,
{
    let mut found: Vec<u32> = Vec::new();
    let mut codepoint: u32 = 0;
    while codepoint <= 0x10FFFF && found.len() < limit as usize
        invariant
            codepoint <= 0x110000,
            found@ == matches_below(query@, codepoint as nat),
            found.len() <= limit,
        decreases 0x110000 - codepoint,
    {
        proof {
            lemma_matches_step(query@, codepoint as nat);
        }
        if name_matches(query, codepoint) {
            found.push(codepoint);
        }
        codepoint = codepoint + 1;
    }
    proof {
        lemma_matches_prefix(query@, codepoint as nat, 0x110000);
    }
    found
}

/// Searches for a query that is already in lowercase.
pub fn search_lowercase(query: &str, limit: u32) -> (found: Vec<u32>)
    ensures
        found@ == spec_search(query@, limit as nat),
        spec_direct_address(query@) is None ==> found.len() <= limit,
{
    match direct_address(query) {
        Some(cp) => {
            let mut found: Vec<u32> = Vec::new();
            found.push(cp);
            assert(found@ =~= seq![cp]);
            found
        },
        None => name_scan(query, limit),
    }
}

/// Searches for code points. The query is put in lowercase first. A query
/// that names a character by its address (`u+` or `0x`, then its scalar value
/// in base 16) finds that one code point, whatever the limit. Any other query
/// finds the first `limit` code points, in ascending order, of the characters
/// whose name holds the query.
pub fn search_characters(query: &str, limit: u32) -> (found: Vec<u32>)
    ensures
        found@ == spec_search(lowercase_of(query@), limit as nat),
        spec_direct_address(lowercase_of(query@)) is None ==> found.len() <= limit,
{
    let lower = to_lowercase(query);
    search_lowercase(lower.as_str(), limit)
}

} // verus!
