//! Fast request identifiers: a counter written as a short URL-safe text.
//!
//! An identifier is a fixed number of symbols of the [alphabet], each of
//! which carries six bits of a 64-bit value, least significant bits first.
//! Two widths are in common use:
//!
//! - **6 symbols** carry the low 36 bits of the value; higher bits are
//!   dropped.
//! - **11 symbols** carry all 64 bits. The last symbol has only four bits
//!   left to carry, so it is always one of the first 16 symbols. A split
//!   that gives some symbols more bits than others could do without the two
//!   idle bits; this layout keeps six bits per symbol throughout.
//!
//! A [`RequestIdGenerator`] hands out the identifiers of 1, 2, 3, ... and may
//! pass each counter value through the [mixer] first, so that
//! successive identifiers look unrelated.
//!
//! What holds of identifiers in general is proved in [`crate::laws`].
//!
//! [alphabet]: crate::alphabet
//! [mixer]: crate::mixer

use crate::alphabet::is_ascii_bytes;
use crate::alphabet::is_symbol_text;
use crate::alphabet::symbol;
use crate::alphabet::ALPHABET;
use crate::laws::lemma_ascii_bytes_spell_text;
use crate::laws::lemma_encoded_is_symbol_text;
use crate::laws::lemma_encoded_symbol_at;
use crate::mixer::mixed;
use crate::mixer::splitmix64;
use crate::radix64::digit;
use crate::width::Supported;
use crate::width::Width;
use crate::width::MAX_WIDTH;
use std::sync::atomic::AtomicU64;
use std::sync::atomic::Ordering;
use vstd::prelude::*;
use vstd::string::StringSliceAdditionalSpecFns;
use vstd::utf8::valid_utf8;

verus! {

/// The identifier of `value` at the given width: symbol `i` stands for digit
/// `i` of the value in base 64.
pub open spec fn encoded(value: u64, width: nat) -> Seq<u8> {
    Seq::new(width, |i: int| symbol(digit(value as nat, i as nat) as int))
}

/// The characters that a sequence of ASCII bytes spells.
pub open spec fn ascii_text(bytes: Seq<u8>) -> Seq<char> {
    Seq::new(bytes.len(), |i: int| bytes[i] as char)
}

/// Writes `n` as `N` symbols, six bits per symbol, least significant first.
///
/// Bits of `n` from `6 * N` upwards are not written. At the full width of
/// eleven symbols nothing is lost, and the last symbol carries the top four
/// bits alone.
pub fn encode_base64<const N: usize>(n: u64) -> (buf: [u8; N]) where Width: Supported<N>
    ensures
        buf@ == encoded(n, N as nat),
        is_symbol_text(buf@),
        is_ascii_bytes(buf@),
{
    proof {
        <Width as Supported<N>>::lemma_width_in_range();
    }
    let zero: u8 = ALPHABET[0];
    let mut buf: [u8; N] = [zero; N];
    let mut i: usize = 0;
    while i < N
        invariant
            i <= N <= MAX_WIDTH,
            forall|j: int| 0 <= j < i ==> #[trigger] buf@[j] == encoded(n, N as nat)[j],
        decreases N - i,
    {
        let d: u64 = (n >> (i * 6)) & 0x3F;
        proof {
            lemma_encoded_symbol_at(n, N as nat, i as nat);
        }
        buf[i] = ALPHABET[d as usize];
        i += 1;
    }
    proof {
        lemma_encoded_is_symbol_text(n, N as nat);
    }
    buf
}

/// Writes the low 36 bits of `n` as six symbols.
pub fn encode_request_id(n: u64) -> (id: [u8; 6])
    ensures
        id@ == encoded(n, 6),
        is_symbol_text(id@),
        is_ascii_bytes(id@),
{
    encode_base64(n)
}

/// Writes all 64 bits of `n` as eleven symbols.
pub fn encode_request_id_wide(n: u64) -> (id: [u8; 11])
    ensures
        id@ == encoded(n, 11),
        is_symbol_text(id@),
        is_ascii_bytes(id@),
{
    encode_base64(n)
}

/// Writes the low 36 bits of the mixed form of `n` as six symbols.
pub fn encode_request_id_mixed(n: u64) -> (id: [u8; 6])
    ensures
        id@ == encoded(mixed(n), 6),
        is_symbol_text(id@),
        is_ascii_bytes(id@),
{
    encode_base64(splitmix64(n))
}

/// Writes the mixed form of `n` as eleven symbols.
pub fn encode_request_id_mixed_wide(n: u64) -> (id: [u8; 11])
    ensures
        id@ == encoded(mixed(n), 11),
        is_symbol_text(id@),
        is_ascii_bytes(id@),
{
    encode_base64(splitmix64(n))
}

/// [`core::str::from_utf8`]: the bytes read as UTF-8 text. There is a text
/// exactly when the bytes are valid UTF-8, and it is made of those bytes.
#[verifier::external_body]
fn utf8_text(bytes: &[u8]) -> (text: Option<&str>)
    ensures
        text is Some <==> valid_utf8(bytes@),
        text matches Some(s) ==> s.spec_bytes() == bytes@,
{
    core::str::from_utf8(bytes).ok()
}

/// The identifier as text, without copying it.
///
/// An encoded identifier is ASCII, which is what makes this view possible:
/// character `i` of the text is byte `i` of the identifier.
pub fn as_str<const N: usize>(id: &[u8; N]) -> (text: &str)
    requires
        is_ascii_bytes(id@),
    ensures
        text@ == ascii_text(id@),
{
    match utf8_text(id.as_slice()) {
        Some(text) => {
            proof {
                lemma_ascii_bytes_spell_text(id@, text@);
            }
            text
        },
        None => {
            proof {
                lemma_ascii_bytes_spell_text(id@, Seq::empty());
            }
            ""
        },
    }
}

/// A source of request identifiers of `N` symbols that any number of
/// threads may share.
///
/// The generator owns a counter that starts at 1. Each call reserves the
/// current counter value in one atomic step, so no value is handed out
/// twice, and moves the counter on by one; after `u64::MAX` the counter
/// wraps around to 0. Nothing resets the counter, and two generators share
/// nothing.
///
/// Distinct counter values get distinct identifiers as long as the
/// identifier keeps the bits in which they differ. At eleven symbols that
/// is always so, mixed or not. Below that, a generator that does not mix
/// repeats itself only after `64^N` identifiers; one that mixes can do so
/// earlier, since the mixer spreads small counter values over all 64 bits
/// and the identifier keeps only the lowest `6 * N` of them.
///
/// Identifiers come only in the [supported](Supported) widths, so a
/// generator can be made for those alone.
pub struct RequestIdGenerator<const N: usize> {
    counter: AtomicU64,
    mixed: bool,
}

/// A generator of eleven-symbol identifiers, which carry the whole counter.
pub type WideRequestIdGenerator = RequestIdGenerator<11>;

impl<const N: usize> RequestIdGenerator<N> {
    /// Whether this generator mixes the counter before it encodes it.
    pub closed spec fn is_mixed(&self) -> bool {
        self.mixed
    }

    /// The identifier that this generator issues when it has reserved the
    /// counter value `n`.
    pub open spec fn issued(&self, n: u64) -> Seq<u8> {
        encoded(
            if self.is_mixed() {
                mixed(n)
            } else {
                n
            },
            N as nat,
        )
    }
}

impl<const N: usize> RequestIdGenerator<N> where Width: Supported<N> {
    /// A generator that starts at 1 and encodes the counter as it is.
    pub fn new() -> (generator: Self)
        ensures
            !generator.is_mixed(),
    {
        Self { counter: AtomicU64::new(1), mixed: false }
    }

    /// A generator that starts at 1 and mixes the counter before it encodes
    /// it, for identifiers that look random.
    pub fn new_mixed() -> (generator: Self)
        ensures
            generator.is_mixed(),
    {
        Self { counter: AtomicU64::new(1), mixed: true }
    }

    /// Reserves the next counter value and returns it.
    ///
    /// The reservation is a single atomic fetch-and-add with relaxed
    /// ordering: nothing else has to be kept in step with the counter.
    pub fn next_raw(&self) -> u64 {
        self.counter.fetch_add(1, Ordering::Relaxed)
    }

    /// The identifier that this generator issues for the reserved counter
    /// value `n`.
    pub fn id_for(&self, n: u64) -> (id: [u8; N])
        ensures
            id@ == self.issued(n),
            is_symbol_text(id@),
        is_ascii_bytes(id@),
    {
        if self.mixed {
            encode_base64(splitmix64(n))
        } else {
            encode_base64(n)
        }
    }

    /// Reserves the next counter value and returns its identifier.
    pub fn next_id(&self) -> (id: [u8; N])
        ensures
            exists|n: u64| id@ == self.issued(n),
            is_symbol_text(id@),
        is_ascii_bytes(id@),
    {
        let n: u64 = self.next_raw();
        self.id_for(n)
    }

    /// The identifier that this generator issues for the reserved counter
    /// value `n`, as an owned string: the same characters as the text view
    /// of [`id_for`](Self::id_for).
    pub fn id_string_for(&self, n: u64) -> (text: String)
        ensures
            text@ == ascii_text(self.issued(n)),
    {
        let id: [u8; N] = self.id_for(n);
        as_str(&id).to_owned()
    }

    /// Reserves the next counter value and returns its identifier as an
    /// owned string.
    pub fn next_id_string(&self) -> (text: String)
        ensures
            exists|n: u64| text@ == ascii_text(self.issued(n)),
    {
        let n: u64 = self.next_raw();
        self.id_string_for(n)
    }
}

impl<const N: usize> Default for RequestIdGenerator<N> where Width: Supported<N> {
    /// A generator that starts at 1 and does not mix.
    fn default() -> (generator: Self)
        ensures
            !generator.is_mixed(),
    {
        Self::new()
    }
}

} // verus!
