//! What holds of every request identifier.
//!
//! The statements here are about [`encoded`] and about the identifiers that
//! a [`RequestIdGenerator`] issues: which symbols an identifier is made of,
//! how it changes when the value counts up, which values share an
//! identifier, and when two counter values are sure to get different ones.

use crate::alphabet::is_ascii_bytes;
use crate::alphabet::is_symbol;
use crate::alphabet::is_symbol_text;
use crate::alphabet::lemma_alphabet_holds_symbols;
use crate::alphabet::lemma_symbol_injective;
use crate::alphabet::lemma_symbol_of_digit;
use crate::alphabet::lemma_symbol_text_is_ascii;
use crate::alphabet::symbol;
use crate::alphabet::ALPHABET;
use crate::mixer::lemma_mixed_injective;
use crate::mixer::mixed;
use crate::radix64::digit;
use crate::radix64::lemma_digit_bound;
use crate::radix64::lemma_digit_is_shift_mask;
use crate::radix64::lemma_digit_zero_beyond;
use crate::radix64::lemma_pow64_11;
use crate::radix64::lemma_same_digits_iff_same_residue;
use crate::radix64::same_digits;
use crate::request_id::ascii_text;
use crate::request_id::encoded;
use crate::request_id::RequestIdGenerator;
use crate::width::MAX_WIDTH;
use vstd::arithmetic::div_mod::lemma_small_mod;
use vstd::arithmetic::power::pow;
use vstd::prelude::*;
use vstd::utf8::encode_utf8;
use vstd::utf8::encode_utf8_decode_utf8;
use vstd::utf8::encode_utf8_valid_utf8;
use vstd::utf8::is_ascii_chars;
use vstd::utf8::is_ascii_chars_encode_utf8;
use vstd::utf8::valid_utf8;

verus! {

/// An identifier has exactly `width` bytes, each a symbol of the alphabet,
/// so it is ASCII text.
pub proof fn lemma_encoded_is_symbol_text(value: u64, width: nat)
    ensures
        encoded(value, width).len() == width,
        is_symbol_text(encoded(value, width)),
        is_ascii_bytes(encoded(value, width)),
{
    let id = encoded(value, width);
    assert forall|i: int| 0 <= i < id.len() implies is_symbol(#[trigger] id[i]) by {
        lemma_digit_bound(value as nat, i as nat);
        lemma_symbol_of_digit(digit(value as nat, i as nat) as int);
    }
    lemma_symbol_text_is_ascii(id);
}

/// Symbol `i` of an identifier is the entry of the alphabet that the bits
/// `[6 * i, 6 * i + 6)` of the value select: shift right by `6 * i`, mask
/// with `0x3F`, look up.
pub proof fn lemma_encoded_symbol_at(value: u64, width: nat, i: nat)
    requires
        i < width <= MAX_WIDTH,
    ensures
        (value >> ((6 * i) as u64)) & 0x3F < 64,
        encoded(value, width)[i as int] == ALPHABET[((value >> ((6 * i) as u64)) & 0x3F) as int],
{
    lemma_digit_is_shift_mask(value, i);
    lemma_digit_bound(value as nat, i);
    lemma_alphabet_holds_symbols(digit(value as nat, i) as int);
}

/// An identifier is the symbol of the lowest six bits, followed by the
/// identifier of the remaining bits at one symbol less.
pub proof fn lemma_encoded_unfold(value: u64, width: nat)
    requires
        width > 0,
    ensures
        encoded(value, width) == seq![symbol((value % 64) as int)] + encoded(
            value / 64,
            (width - 1) as nat,
        ),
{
    let whole = encoded(value, width);
    let parts = seq![symbol((value % 64) as int)] + encoded(value / 64, (width - 1) as nat);
    assert forall|i: int| 0 <= i < width implies whole[i] == parts[i] by {
        if i > 0 {
            assert(digit(value as nat, i as nat) == digit((value / 64) as nat, (i - 1) as nat));
        }
    }
    assert(whole =~= parts);
}

/// Counting up by one changes the first symbol alone, as long as the lowest
/// six bits do not wrap: the first symbol moves to the next one in the
/// alphabet.
pub proof fn lemma_successor_without_carry(value: u64, width: nat)
    requires
        width > 0,
        value % 64 != 63,
    ensures
        value < u64::MAX,
        encoded((value + 1) as u64, width) == encoded(value, width).update(
            0,
            symbol(value % 64 + 1),
        ),
{
    assert(value < u64::MAX && (value + 1) as u64 % 64 == value % 64 + 1 && (value + 1) as u64 / 64
        == value / 64) by (bit_vector)
        requires
            value % 64 != 63,
    ;
    lemma_encoded_unfold(value, width);
    lemma_encoded_unfold((value + 1) as u64, width);
    assert(encoded((value + 1) as u64, width) =~= encoded(value, width).update(
        0,
        symbol(value % 64 + 1),
    ));
}

/// Counting up by one when the lowest six bits wrap sets the first symbol
/// back to the first of the alphabet and carries into the symbols after it.
pub proof fn lemma_successor_with_carry(value: u64, width: nat)
    requires
        width > 0,
        value % 64 == 63,
        value < u64::MAX,
    ensures
        encoded((value + 1) as u64, width) == seq![symbol(0)] + encoded(
            (value / 64 + 1) as u64,
            (width - 1) as nat,
        ),
{
    assert((value + 1) as u64 % 64 == 0 && (value + 1) as u64 / 64 == (value / 64 + 1) as u64)
        by (bit_vector)
        requires
            value % 64 == 63,
            value < u64::MAX,
    ;
    lemma_encoded_unfold((value + 1) as u64, width);
}

/// Positions that a value does not reach hold the first symbol of the
/// alphabet: a value below `64^i` has it at position `i` and after.
pub proof fn lemma_encoded_zero_fill(value: u64, width: nat, i: nat)
    requires
        i < width,
        value < pow(64, i),
    ensures
        encoded(value, width)[i as int] == symbol(0),
{
    lemma_digit_zero_beyond(value as nat, i);
}

/// Two values have the same identifier at a width exactly when they agree
/// modulo `64^width`, that is, in their low `6 * width` bits.
pub proof fn lemma_encoded_equal_iff_same_residue(a: u64, b: u64, width: nat)
    ensures
        encoded(a, width) == encoded(b, width) <==> a as nat % (pow(64, width) as nat) == b as nat
            % (pow(64, width) as nat),
{
    let id_a = encoded(a, width);
    let id_b = encoded(b, width);
    if id_a == id_b {
        assert forall|i: nat| i < width implies #[trigger] digit(a as nat, i) == digit(
            b as nat,
            i,
        ) by {
            assert(id_a[i as int] == id_b[i as int]);
            lemma_digit_bound(a as nat, i);
            lemma_digit_bound(b as nat, i);
            lemma_symbol_injective(digit(a as nat, i) as int, digit(b as nat, i) as int);
        }
    }
    if same_digits(a as nat, b as nat, width) {
        assert forall|i: int| 0 <= i < width implies id_a[i] == id_b[i] by {
            assert(digit(a as nat, i as nat) == digit(b as nat, i as nat));
        }
        assert(id_a =~= id_b);
    }
    lemma_same_digits_iff_same_residue(a as nat, b as nat, width);
}

/// Six symbols keep the low 36 bits and nothing else: two values have the
/// same six-symbol identifier exactly when they differ only above bit 36.
pub proof fn lemma_narrow_keeps_low_36_bits(a: u64, b: u64)
    ensures
        encoded(a, 6) == encoded(b, 6) <==> a % 0x10_0000_0000 == b % 0x10_0000_0000,
{
    lemma_encoded_equal_iff_same_residue(a, b, 6);
    assert(pow(64, 6) == 0x10_0000_0000) by {
        reveal_with_fuel(pow, 7);
    }
}

/// Eleven symbols keep every bit: two distinct values never have the same
/// eleven-symbol identifier.
pub proof fn lemma_wide_keeps_all_bits(a: u64, b: u64)
    ensures
        encoded(a, 11) == encoded(b, 11) <==> a == b,
{
    lemma_encoded_equal_iff_same_residue(a, b, 11);
    lemma_pow64_11();
    lemma_small_mod(a as nat, pow(64, 11) as nat);
    lemma_small_mod(b as nat, pow(64, 11) as nat);
}

/// The eleventh symbol carries only the top four bits of the value, so it
/// is always one of the first 16 symbols of the alphabet.
pub proof fn lemma_wide_last_symbol(value: u64)
    ensures
        digit(value as nat, 10) == value >> 60,
        digit(value as nat, 10) < 16,
        encoded(value, 11)[10] == symbol((value >> 60) as int),
{
    lemma_digit_is_shift_mask(value, 10);
    assert((value >> 60) & 0x3F == value >> 60 && value >> 60 < 16) by (bit_vector);
}

/// ASCII bytes are valid UTF-8, and the only text that encodes to them is
/// the one that has each byte as a character.
pub proof fn lemma_ascii_bytes_spell_text(bytes: Seq<u8>, text: Seq<char>)
    requires
        is_ascii_bytes(bytes),
    ensures
        valid_utf8(bytes),
        encode_utf8(text) == bytes <==> text == ascii_text(bytes),
{
    let chars = ascii_text(bytes);
    assert forall|i: int| 0 <= i < chars.len() implies '\0' <= #[trigger] chars[i] <= '\u{7f}'
        && chars[i] as u8 == bytes[i] by {
        assert(bytes[i] < 128);
    }
    assert(is_ascii_chars(chars));
    is_ascii_chars_encode_utf8(chars);
    assert(encode_utf8(chars) =~= bytes);
    encode_utf8_valid_utf8(chars);
    encode_utf8_decode_utf8(chars);
    encode_utf8_decode_utf8(text);
}

/// A generator of eleven-symbol identifiers, mixing or not, never issues
/// the same identifier for two distinct counter values.
pub proof fn lemma_wide_ids_distinct(generator: RequestIdGenerator<11>, a: u64, b: u64)
    requires
        a != b,
    ensures
        generator.issued(a) != generator.issued(b),
{
    if generator.is_mixed() {
        if mixed(a) == mixed(b) {
            lemma_mixed_injective(a, b);
        }
        lemma_wide_keeps_all_bits(mixed(a), mixed(b));
    } else {
        lemma_wide_keeps_all_bits(a, b);
    }
}

/// A generator that does not mix never issues the same identifier for two
/// distinct counter values below `64^N`, the number of identifiers of `N`
/// symbols.
pub proof fn lemma_plain_ids_distinct<const N: usize>(
    generator: RequestIdGenerator<N>,
    a: u64,
    b: u64,
)
    requires
        !generator.is_mixed(),
        a != b,
        a < pow(64, N as nat),
        b < pow(64, N as nat),
    ensures
        generator.issued(a) != generator.issued(b),
{
    lemma_encoded_equal_iff_same_residue(a, b, N as nat);
    lemma_small_mod(a as nat, pow(64, N as nat) as nat);
    lemma_small_mod(b as nat, pow(64, N as nat) as nat);
}

} // verus!
