//! How a transaction hash is shown in an event: `0x`, the first two bytes in
//! hexadecimal, an ellipsis, and the last two bytes. The text is for display
//! only; the digest cannot be had back from it.

use vstd::prelude::*;
use vstd::string::StringExecFns;
use crate::types::CryptoHash;

verus! {

/// The lower-case hexadecimal digit of a number below 16.
pub open spec fn hex_digit(nibble: int) -> char
    recommends
        0 <= nibble < 16,
{
    seq!['0', '1', '2', '3', '4', '5', '6', '7', '8', '9', 'a', 'b', 'c', 'd', 'e', 'f'][nibble]
}

/// The two hexadecimal digits of a byte, high digit first.
pub open spec fn hex_pair(byte: u8) -> Seq<char> {
    seq![hex_digit(byte as int / 16), hex_digit(byte as int % 16)]
}

/// The display text of a digest of at least two bytes.
pub open spec fn abbreviated_hash(digest: Seq<u8>) -> Seq<char>
    recommends
        digest.len() >= 2,
{
    seq!['0', 'x'] + hex_pair(digest[0]) + hex_pair(digest[1]) + seq!['\u{2026}'] + hex_pair(
        digest[digest.len() - 2],
    ) + hex_pair(digest[digest.len() - 1])
}

/// The text of one hexadecimal digit.
fn hex_digit_text(nibble: u8) -> (text: &'static str)
    requires
        nibble < 16,
    ensures
        text@ == seq![hex_digit(nibble as int)],
{
    proof {
        reveal_strlit("0");
        reveal_strlit("1");
        reveal_strlit("2");
        reveal_strlit("3");
        reveal_strlit("4");
        reveal_strlit("5");
        reveal_strlit("6");
        reveal_strlit("7");
        reveal_strlit("8");
        reveal_strlit("9");
        reveal_strlit("a");
        reveal_strlit("b");
        reveal_strlit("c");
        reveal_strlit("d");
        reveal_strlit("e");
        reveal_strlit("f");
    }
    let text = match nibble {
        0 => "0",
        1 => "1",
        2 => "2",
        3 => "3",
        4 => "4",
        5 => "5",
        6 => "6",
        7 => "7",
        8 => "8",
        9 => "9",
        10 => "a",
        11 => "b",
        12 => "c",
        13 => "d",
        14 => "e",
        _ => "f",
    };
    assert(text@ =~= seq![hex_digit(nibble as int)]);
    text
}

/// Appends the two hexadecimal digits of a byte to a text.
fn push_hex_pair(text: &mut String, byte: u8)
    ensures
        final(text)@ == old(text)@ + hex_pair(byte),
{
    text.append(hex_digit_text(byte / 16));
    text.append(hex_digit_text(byte % 16));
    assert(text@ =~= old(text)@ + hex_pair(byte));
}

/// Renders a digest for display: `0x`, the first four hexadecimal characters,
/// an ellipsis, the last four.
pub fn abbreviate_hash(digest: &CryptoHash) -> (text: String)
    ensures
        text@ == abbreviated_hash(digest@),
{
    proof {
        reveal_strlit("0x");
        reveal_strlit("\u{2026}");
    }
    let mut text = String::from_str("0x");
    push_hex_pair(&mut text, digest[0]);
    push_hex_pair(&mut text, digest[1]);
    text.append("\u{2026}");
    push_hex_pair(&mut text, digest[30]);
    push_hex_pair(&mut text, digest[31]);
    assert(text@ =~= abbreviated_hash(digest@));
    text
}

} // verus!
