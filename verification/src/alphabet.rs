//! The 64-symbol URL-safe alphabet that identifiers are written in.
//!
//! Every symbol is a single printable ASCII byte that needs no escaping in a
//! URL, and no symbol occurs twice, so a digit can always be read back from
//! its symbol.

use vstd::prelude::*;

verus! {

/// The symbols in digit order: `A`–`Z`, `a`–`z`, `0`–`9`, `-`, `_`.
pub const ALPHABET: [u8; 64] = [
    65, 66, 67, 68, 69, 70, 71, 72, 73, 74, 75, 76, 77, 78, 79, 80,
    81, 82, 83, 84, 85, 86, 87, 88, 89, 90, 97, 98, 99, 100, 101, 102,
    103, 104, 105, 106, 107, 108, 109, 110, 111, 112, 113, 114, 115, 116, 117, 118,
    119, 120, 121, 122, 48, 49, 50, 51, 52, 53, 54, 55, 56, 57, 45, 95,
];

/// The symbol that stands for the digit `d`, for `0 <= d < 64`.
pub open spec fn symbol(d: int) -> u8 {
    if d < 26 {
        (65 + d) as u8
    } else if d < 52 {
        (97 + (d - 26)) as u8
    } else if d < 62 {
        (48 + (d - 52)) as u8
    } else if d == 62 {
        45
    } else {
        95
    }
}

/// Whether `b` is one of the 64 symbols.
pub open spec fn is_symbol(b: u8) -> bool {
    ||| 65 <= b <= 90
    ||| 97 <= b <= 122
    ||| 48 <= b <= 57
    ||| b == 45
    ||| b == 95
}

/// The digit that the symbol `b` stands for.
pub open spec fn symbol_digit(b: u8) -> int {
    if 65 <= b <= 90 {
        b - 65
    } else if 97 <= b <= 122 {
        b - 97 + 26
    } else if 48 <= b <= 57 {
        b - 48 + 52
    } else if b == 45 {
        62
    } else {
        63
    }
}

/// Whether every byte of `bytes` is ASCII.
pub open spec fn is_ascii_bytes(bytes: Seq<u8>) -> bool {
    forall|i: int| 0 <= i < bytes.len() ==> #[trigger] bytes[i] < 128
}

/// Whether every byte of `bytes` is a symbol of the alphabet.
pub open spec fn is_symbol_text(bytes: Seq<u8>) -> bool {
    forall|i: int| 0 <= i < bytes.len() ==> is_symbol(#[trigger] bytes[i])
}

/// The table holds exactly the symbols, in digit order.
pub proof fn lemma_alphabet_holds_symbols(d: int)
    requires
        0 <= d < 64,
    ensures
        ALPHABET[d] == symbol(d),
{
}

/// Every digit has a symbol, the symbol is ASCII, and it gives the digit back.
pub proof fn lemma_symbol_of_digit(d: int)
    requires
        0 <= d < 64,
    ensures
        is_symbol(symbol(d)),
        symbol(d) < 128,
        symbol_digit(symbol(d)) == d,
{
}

/// Every symbol stands for exactly one digit.
pub proof fn lemma_digit_of_symbol(b: u8)
    requires
        is_symbol(b),
    ensures
        0 <= symbol_digit(b) < 64,
        symbol(symbol_digit(b)) == b,
{
}

/// No symbol occurs twice: two digits with the same symbol are the same digit.
pub proof fn lemma_symbol_injective(d1: int, d2: int)
    requires
        0 <= d1 < 64,
        0 <= d2 < 64,
        symbol(d1) == symbol(d2),
    ensures
        d1 == d2,
{
    lemma_symbol_of_digit(d1);
    lemma_symbol_of_digit(d2);
}

/// A text made of symbols is ASCII.
pub proof fn lemma_symbol_text_is_ascii(bytes: Seq<u8>)
    requires
        is_symbol_text(bytes),
    ensures
        is_ascii_bytes(bytes),
{
    assert forall|i: int| 0 <= i < bytes.len() implies #[trigger] bytes[i] < 128 by {
        assert(is_symbol(bytes[i]));
    }
}

} // verus!
