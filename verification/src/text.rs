//! Text as the driver sees it: zero-terminated byte strings.

use vstd::prelude::*;
use vstd::string::*;
use vstd::utf8::{decode_utf8, encode_utf8, encode_utf8_decode_utf8, valid_utf8};

verus! {

/// Where the first zero byte of `bytes` stands; the length of `bytes` if
/// there is none.
pub open spec fn terminator_position(bytes: Seq<u8>) -> int
    decreases bytes.len(),
{
    if bytes.len() == 0 || bytes[0] == 0 {
        0
    } else {
        1 + terminator_position(bytes.drop_first())
    }
}

/// The bytes of `bytes` before its first zero byte: what a reader of
/// zero-terminated strings takes the buffer to hold.
pub open spec fn until_terminator(bytes: Seq<u8>) -> Seq<u8> {
    bytes.subrange(0, terminator_position(bytes))
}

/// The first zero byte is where a zero stands with none before it.
pub proof fn lemma_terminator_position(bytes: Seq<u8>, at: int)
    requires
        0 <= at <= bytes.len(),
        forall|k: int| 0 <= k < at ==> bytes[k] != 0,
        at == bytes.len() || bytes[at] == 0,
    ensures
        terminator_position(bytes) == at,
    decreases bytes.len(),
{
    if bytes.len() != 0 && bytes[0] != 0 {
        let rest = bytes.drop_first();
        assert forall|k: int| 0 <= k < at - 1 implies rest[k] != 0 by {
            assert(rest[k] == bytes[k + 1]);
        }
        lemma_terminator_position(rest, at - 1);
    }
}

/// The text that a zero-terminated buffer holds, if it is UTF-8.
pub open spec fn wrapped(bytes: Seq<u8>) -> Option<Seq<char>> {
    if valid_utf8(until_terminator(bytes)) {
        Some(decode_utf8(until_terminator(bytes)))
    } else {
        None
    }
}

/// `String::from_utf8` of the standard library: a string if and only if
/// `bytes` is well-formed UTF-8, and then the string whose encoding is
/// `bytes`.
#[verifier::external_body]
fn decode(bytes: Vec<u8>) -> (text: Option<String>)
    ensures
        text is Some <==> valid_utf8(bytes@),
        text matches Some(decoded) ==> encode_utf8(decoded@) == bytes@,
{
    match String::from_utf8(bytes) {
        Ok(decoded) => Some(decoded),
        Err(_) => None,
    }
}

/// Copies a zero-terminated string out of a buffer the driver filled: the
/// text before the first zero byte, or before the end of the buffer if it
/// holds no zero. `None` if those bytes are not UTF-8.
pub fn wrap_string(bytes: &[u8]) -> (text: Option<String>)
    ensures
        text is Some <==> wrapped(bytes@) is Some,
        text matches Some(copied) ==> Some(copied@) == wrapped(bytes@),
{
    let mut prefix: Vec<u8> = Vec::new();
    let mut at: usize = 0;
    while at < bytes.len() && bytes[at] != 0
        invariant
            at <= bytes@.len(),
            prefix@ == bytes@.subrange(0, at as int),
            forall|k: int| 0 <= k < at ==> bytes@[k] != 0,
        decreases bytes@.len() - at,
    {
        prefix.push(bytes[at]);
        proof {
            assert(bytes@.subrange(0, at + 1) =~= bytes@.subrange(0, at as int).push(
                bytes@[at as int],
            ));
        }
        at += 1;
    }
    proof {
        lemma_terminator_position(bytes@, at as int);
    }
    let text = decode(prefix);
    proof {
        if text is Some {
            encode_utf8_decode_utf8(text->0@);
        }
    }
    text
}

/// Whether `text`, as the driver gets it, holds the byte that ends a string
/// for the driver.
pub open spec fn has_terminator(text: Seq<char>) -> bool {
    encode_utf8(text).contains(0u8)
}

/// Whether `text`, as the driver gets it, holds the byte that ends a string
/// for the driver.
pub fn contains_terminator(text: &str) -> (found: bool)
    ensures
        found == has_terminator(text@),
{
    let bytes = text.as_bytes();
    let mut at: usize = 0;
    while at < bytes.len()
        invariant
            bytes@ == encode_utf8(text@),
            at <= bytes@.len(),
            forall|k: int| 0 <= k < at ==> bytes@[k] != 0,
        decreases bytes@.len() - at,
    {
        if bytes[at] == 0 {
            return true;
        }
        at += 1;
    }
    false
}

/// The character for a decimal digit.
pub open spec fn digit(value: nat) -> char
    recommends
        value < 10,
{
    if value == 0 {
        '0'
    } else if value == 1 {
        '1'
    } else if value == 2 {
        '2'
    } else if value == 3 {
        '3'
    } else if value == 4 {
        '4'
    } else if value == 5 {
        '5'
    } else if value == 6 {
        '6'
    } else if value == 7 {
        '7'
    } else if value == 8 {
        '8'
    } else {
        '9'
    }
}

/// `value` in decimal notation, without leading zeros.
pub open spec fn decimal(value: nat) -> Seq<char>
    decreases value,
{
    if value < 10 {
        seq![digit(value)]
    } else {
        decimal(value / 10).push(digit(value % 10))
    }
}

/// The one-character text for a decimal digit.
fn digit_text(value: u32) -> (text: &'static str)
    requires
        value < 10,
    ensures
        text@ == seq![digit(value as nat)],
{
    proof {
        reveal_strlit("0");
        reveal_strlit("1");
        reveal_strlit("2");
        reveal_strlit("3");
        reveal_strlit("4");
        reveal_strlit("5");
        reveal_strlit("6");
        reveal_strlit("7");
        reveal_strlit("8");
        reveal_strlit("9");
    }
    let text = if value == 0 {
        "0"
    } else if value == 1 {
        "1"
    } else if value == 2 {
        "2"
    } else if value == 3 {
        "3"
    } else if value == 4 {
        "4"
    } else if value == 5 {
        "5"
    } else if value == 6 {
        "6"
    } else if value == 7 {
        "7"
    } else if value == 8 {
        "8"
    } else {
        "9"
    };
    assert(text@ =~= seq![digit(value as nat)]);
    text
}

/// Writes `value` in decimal notation.
pub fn decimal_string(value: u32) -> (text: String)
    ensures
        text@ == decimal(value as nat),
    decreases value,
{
    if value < 10 {
        String::from_str(digit_text(value))
    } else {
        let mut text = decimal_string(value / 10);
        text.append(digit_text(value % 10));
        proof {
            assert(text@ =~= decimal((value / 10) as nat).push(digit((value % 10) as nat)));
        }
        text
    }
}

} // verus!
