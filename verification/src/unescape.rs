//! The value of a JSON string, from its text as it stands between the
//! quotes: every escape is replaced by the character that it stands for.
//! What is no escape of JSON is kept as it is written.

use vstd::prelude::*;

verus! {

/// `String::push` appends the character to the end of the string.
pub assume_specification[ String::push ](text: &mut String, c: char)
    ensures
        final(text)@ == old(text)@.push(c),
;

/// `char::from_u32` gives the character with this number, where there is
/// one: the numbers up to 0x10FFFF without the surrogates 0xD800 to 0xDFFF.
pub assume_specification[ char::from_u32 ](number: u32) -> (r: Option<char>)
    ensures
        r == (if number <= 0xD7FF || (0xE000 <= number && number <= 0x10FFFF) {
            Some(number as char)
        } else {
            None::<char>
        }),
;

/// The value of a hexadecimal digit, in either case.
pub open spec fn hex_digit(c: char) -> Option<u32> {
    if '0' <= c && c <= '9' {
        Some((c as u32 - '0' as u32) as u32)
    } else if 'a' <= c && c <= 'f' {
        Some((c as u32 - 'a' as u32 + 10) as u32)
    } else if 'A' <= c && c <= 'F' {
        Some((c as u32 - 'A' as u32 + 10) as u32)
    } else {
        None
    }
}

/// The 16-bit unit that is written at `at` as a backslash, the letter `u`
/// and four hexadecimal digits, if that is what stands there.
pub open spec fn unit_at(raw: Seq<char>, at: int) -> Option<u32> {
    if 0 <= at && at + 6 <= raw.len() && raw[at] == '\\' && raw[at + 1] == 'u' {
        match (
            hex_digit(raw[at + 2]),
            hex_digit(raw[at + 3]),
            hex_digit(raw[at + 4]),
            hex_digit(raw[at + 5]),
        ) {
            (Some(a), Some(b), Some(c), Some(d)) => Some((a * 4096 + b * 256 + c * 16 + d) as u32),
            _ => None,
        }
    } else {
        None
    }
}

/// The character that a backslash and this letter stand for, for the
/// escapes of two characters.
pub open spec fn short_escape(c: char) -> Option<char> {
    if c == '"' {
        Some('"')
    } else if c == '\\' {
        Some('\\')
    } else if c == '/' {
        Some('/')
    } else if c == 'b' {
        Some('\u{8}')
    } else if c == 'f' {
        Some('\u{c}')
    } else if c == 'n' {
        Some('\n')
    } else if c == 'r' {
        Some('\r')
    } else if c == 't' {
        Some('\t')
    } else {
        None
    }
}

/// The character that two units written one after the other at `at` stand
/// for together: a high surrogate followed by a low one.
pub open spec fn pair_at(raw: Seq<char>, at: int) -> Option<char> {
    match (unit_at(raw, at), unit_at(raw, at + 6)) {
        (Some(high), Some(low)) => if 0xD800 <= high && high <= 0xDBFF && 0xDC00 <= low && low
            <= 0xDFFF {
            Some((0x10000 + (high - 0xD800) * 1024 + (low - 0xDC00)) as char)
        } else {
            None
        },
        _ => None,
    }
}

/// The escape that starts at `at`, if one does: the character that it
/// stands for, and how many characters it takes. A short escape takes two;
/// a unit that is no surrogate takes six; a surrogate pair takes twelve. A
/// surrogate without its partner is no escape.
pub open spec fn escape_at(raw: Seq<char>, at: int) -> Option<(char, int)> {
    if 0 <= at && at + 2 <= raw.len() && raw[at] == '\\' {
        if raw[at + 1] == 'u' {
            match unit_at(raw, at) {
                Some(unit) => if unit < 0xD800 || unit > 0xDFFF {
                    Some((unit as char, 6))
                } else {
                    match pair_at(raw, at) {
                        Some(c) => Some((c, 12)),
                        None => None,
                    }
                },
                None => None,
            }
        } else {
            match short_escape(raw[at + 1]) {
                Some(c) => Some((c, 2)),
                None => None,
            }
        }
    } else {
        None
    }
}

/// The value of the text from `at` on.
pub open spec fn value_from(raw: Seq<char>, at: int) -> Seq<char>
    decreases raw.len() - at,
{
    if at < 0 || at >= raw.len() {
        Seq::empty()
    } else {
        match escape_at(raw, at) {
            Some((c, taken)) => seq![c] + value_from(raw, at + taken),
            None => seq![raw[at]] + value_from(raw, at + 1),
        }
    }
}

/// The value of a JSON string whose text between the quotes is `raw`:
/// the text with every escape replaced by the character that it stands for.
pub open spec fn json_string_value(raw: Seq<char>) -> Seq<char> {
    value_from(raw, 0)
}

proof fn lemma_plain_from(raw: Seq<char>, at: int)
    requires
        0 <= at <= raw.len(),
        !raw.contains('\\'),
    ensures
        value_from(raw, at) == raw.skip(at),
    decreases raw.len() - at,
{
    if at < raw.len() {
        assert(raw.contains(raw[at]));
        lemma_plain_from(raw, at + 1);
        assert(raw.skip(at) == seq![raw[at]] + raw.skip(at + 1));
    } else {
        assert(raw.skip(at) == Seq::<char>::empty());
    }
}

/// A text without a backslash is its own value.
pub proof fn lemma_plain_text_is_its_value(raw: Seq<char>)
    requires
        !raw.contains('\\'),
    ensures
        json_string_value(raw) == raw,
{
    lemma_plain_from(raw, 0);
    assert(raw.skip(0) == raw);
}

/// The characters of a text, one by one.
pub fn chars_of(text: &str) -> (chars: Vec<char>)
    ensures
        chars@ == text@,
{
    let mut chars: Vec<char> = Vec::new();
    for c in it: text.chars()
        invariant
            it.seq() == text@,
            chars@ == it.seq().take(it.index() as int),
    {
        chars.push(c);
        assert(it.seq().take(it.index() + 1) == it.seq().take(it.index() as int).push(c));
    }
    assert(text@.take(text@.len() as int) == text@);
    chars
}

/// The value of a hexadecimal digit, in either case.
pub fn hex_value(c: char) -> (r: Option<u32>)
    ensures
        r == hex_digit(c),
{
    if '0' <= c && c <= '9' {
        Some(c as u32 - '0' as u32)
    } else if 'a' <= c && c <= 'f' {
        Some(c as u32 - 'a' as u32 + 10)
    } else if 'A' <= c && c <= 'F' {
        Some(c as u32 - 'A' as u32 + 10)
    } else {
        None
    }
}

/// The 16-bit unit written at `at`, if one is.
pub fn unit_in(chars: &Vec<char>, at: usize) -> (r: Option<u32>)
    ensures
        r == unit_at(chars@, at as int),
        r matches Some(unit) ==> unit <= 0xFFFF,
{
    if at > chars.len() || chars.len() - at < 6 {
        return None;
    }
    if chars[at] != '\\' || chars[at + 1] != 'u' {
        return None;
    }
    let a = match hex_value(chars[at + 2]) {
        Some(a) => a,
        None => { return None; },
    };
    let b = match hex_value(chars[at + 3]) {
        Some(b) => b,
        None => { return None; },
    };
    let c = match hex_value(chars[at + 4]) {
        Some(c) => c,
        None => { return None; },
    };
    let d = match hex_value(chars[at + 5]) {
        Some(d) => d,
        None => { return None; },
    };
    Some(a * 4096 + b * 256 + c * 16 + d)
}

/// The character that a backslash and this letter stand for.
pub fn short_escape_of(c: char) -> (r: Option<char>)
    ensures
        r == short_escape(c),
{
    if c == '"' {
        Some('"')
    } else if c == '\\' {
        Some('\\')
    } else if c == '/' {
        Some('/')
    } else if c == 'b' {
        Some('\u{8}')
    } else if c == 'f' {
        Some('\u{c}')
    } else if c == 'n' {
        Some('\n')
    } else if c == 'r' {
        Some('\r')
    } else if c == 't' {
        Some('\t')
    } else {
        None
    }
}

/// The escape that starts at `at`, if one does: its character, and how
/// many characters it takes.
pub fn escape_in(chars: &Vec<char>, at: usize) -> (r: Option<(char, usize)>)
    ensures
        match r {
            Some((c, taken)) => escape_at(chars@, at as int) == Some((c, taken as int)) && 2
                <= taken && at + taken <= chars.len(),
            None => escape_at(chars@, at as int) is None,
        },
{
    if at > chars.len() || chars.len() - at < 2 || chars[at] != '\\' {
        return None;
    }
    if chars[at + 1] != 'u' {
        return match short_escape_of(chars[at + 1]) {
            Some(c) => Some((c, 2)),
            None => None,
        };
    }
    let unit = match unit_in(chars, at) {
        Some(unit) => unit,
        None => { return None; },
    };
    if unit < 0xD800 || unit > 0xDFFF {
        return match char::from_u32(unit) {
            Some(c) => Some((c, 6)),
            None => None,
        };
    }
    if unit > 0xDBFF || chars.len() - at < 12 {
        return None;
    }
    let low = match unit_in(chars, at + 6) {
        Some(low) => low,
        None => { return None; },
    };
    if low < 0xDC00 || low > 0xDFFF {
        return None;
    }
    match char::from_u32(0x10000 + (unit - 0xD800) * 1024 + (low - 0xDC00)) {
        Some(c) => Some((c, 12)),
        None => None,
    }
}

/// The value of a JSON string whose text between the quotes is `raw`.
pub fn unescape(raw: &str) -> (value: String)
    ensures
        value@ == json_string_value(raw@),
{
    let chars = chars_of(raw);
    let mut value = String::new();
    let mut at: usize = 0;
    while at < chars.len()
        invariant
            at <= chars.len(),
            chars@ == raw@,
            value@ + value_from(raw@, at as int) == value_from(raw@, 0),
        decreases chars.len() - at,
    {
        let ghost before = value@;
        match escape_in(&chars, at) {
            Some((c, taken)) => {
                value.push(c);
                assert(before.push(c) + value_from(raw@, at + taken) == before + (seq![c]
                    + value_from(raw@, at + taken)));
                at = at + taken;
            },
            None => {
                value.push(chars[at]);
                assert(before.push(raw@[at as int]) + value_from(raw@, at + 1) == before + (
                seq![raw@[at as int]] + value_from(raw@, at + 1)));
                at = at + 1;
            },
        }
    }
    assert(value@ + Seq::<char>::empty() == value@);
    value
}

} // verus!
