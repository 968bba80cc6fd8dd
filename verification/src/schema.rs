//! What a schema says of the text form of `n` bytes: its least and its
//! greatest length, and a pattern that every such text matches.

use vstd::prelude::*;
use crate::encoding::{conforms, is_symbol, max_length, min_length, validation_bounds, PAD};

verus! {

/// The decimal digit for `d`.
pub open spec fn digit(d: nat) -> char
    recommends
        d < 10,
{
    if d == 0 {
        '0'
    } else if d == 1 {
        '1'
    } else if d == 2 {
        '2'
    } else if d == 3 {
        '3'
    } else if d == 4 {
        '4'
    } else if d == 5 {
        '5'
    } else if d == 6 {
        '6'
    } else if d == 7 {
        '7'
    } else if d == 8 {
        '8'
    } else {
        '9'
    }
}

/// `n` written in decimal, without leading zeros.
pub open spec fn decimal(n: nat) -> Seq<char>
    decreases n,
{
    if n < 10 {
        seq![digit(n)]
    } else {
        decimal(n / 10).push(digit(n % 10))
    }
}

/// The pattern for the text form of `n` bytes: as many symbols of the
/// alphabet as the shortest form has, and then no more padding characters
/// than the longest form has beyond them.
pub open spec fn pattern(n: nat) -> Seq<char> {
    "^[A-Za-z0-9_\\-]{"@ + decimal(min_length(n)) + "}={0,"@ + decimal(
        (max_length(n) - min_length(n)) as nat,
    ) + "}$"@
}

fn digit_text(d: usize) -> (text: &'static str)
    requires
        d < 10,
    ensures
        text@ == seq![digit(d as nat)],
{
    proof {
        reveal_strlit("0");
        reveal_strlit("1");
        reveal_strlit("2");
        reveal_strlit("3");
        reveal_strlit("4");
        reveal_strlit("5");
        reveal_strlit("6");
        reveal_strlit("7");
        reveal_strlit("8");
        reveal_strlit("9");
    }
    let text = if d == 0 {
        "0"
    } else if d == 1 {
        "1"
    } else if d == 2 {
        "2"
    } else if d == 3 {
        "3"
    } else if d == 4 {
        "4"
    } else if d == 5 {
        "5"
    } else if d == 6 {
        "6"
    } else if d == 7 {
        "7"
    } else if d == 8 {
        "8"
    } else {
        "9"
    };
    assert(text@ =~= seq![digit(d as nat)]);
    text
}

/// Writes `n` in decimal.
pub fn decimal_text(n: usize) -> (text: String)
    ensures
        text@ == decimal(n as nat),
    decreases n,
{
    if n < 10 {
        String::from_str(digit_text(n))
    } else {
        let mut text = decimal_text(n / 10);
        text.append(digit_text(n % 10));
        assert(text@ =~= decimal(n as nat));
        text
    }
}

/// What a schema says of a text.
pub struct TextSchema {
    /// Name of the text's format.
    pub format: &'static str,
    /// Least length of the text.
    pub min_length: usize,
    /// Greatest length of the text.
    pub max_length: usize,
    /// Greatest number of padding characters at the end of the text.
    pub max_padding: usize,
    /// Regular expression that the text matches.
    pub pattern: String,
}

/// The schema of the text form of `n` bytes.
pub fn text_schema(n: usize) -> (schema: TextSchema)
    requires
        max_length(n as nat) <= usize::MAX,
    ensures
        schema.format@ == "base64url"@,
        schema.min_length == min_length(n as nat),
        schema.max_length == max_length(n as nat),
        schema.max_padding == max_length(n as nat) - min_length(n as nat),
        schema.pattern@ == pattern(n as nat),
{
    let (min_length, max_length) = validation_bounds(n);
    let mut pattern = String::from_str("^[A-Za-z0-9_\\-]{");
    pattern.append(decimal_text(min_length).as_str());
    pattern.append("}={0,");
    pattern.append(decimal_text(max_length - min_length).as_str());
    pattern.append("}$");
    TextSchema {
        format: "base64url",
        min_length,
        max_length,
        max_padding: max_length - min_length,
        pattern,
    }
}

fn symbol(c: char) -> (is: bool)
    ensures
        is == is_symbol(c),
{
    ('A' <= c && c <= 'Z') || ('a' <= c && c <= 'z') || ('0' <= c && c <= '9') || c == '-' || c
        == '_'
}

/// Whether `text` has the shape of the text form of `n` bytes, which is
/// what the schema of `n` bytes asks of it. A text of another shape cannot
/// be read as `n` bytes, so it need not be decoded to be turned away.
pub fn admits(text: &str, n: usize) -> (is: bool)
    requires
        max_length(n as nat) <= usize::MAX,
    ensures
        is == conforms(text@, n as nat),
{
    let (least, most) = validation_bounds(n);
    let len = text.unicode_len();
    if len < least || len > most {
        return false;
    }
    let mut i: usize = 0;
    while i < len
        invariant
            i <= len,
            len == text@.len(),
            least == min_length(n as nat),
            least <= len,
            forall|k: int| 0 <= k < i && k < least ==> is_symbol(#[trigger] text@[k]),
            forall|k: int| least <= k < i ==> #[trigger] text@[k] == PAD,
        decreases len - i,
    {
        let c = text.get_char(i);
        if i < least {
            if !symbol(c) {
                return false;
            }
        } else if c != PAD {
            return false;
        }
        i += 1;
    }
    true
}

} // verus!
