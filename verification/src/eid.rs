//! External identifiers: a caller's prefix and the 16 bytes of a UUID.
//!
//! The text form of an identifier is the prefix, a hyphen, and the bytes in
//! base 36.

use uuid::Uuid;
use vstd::prelude::*;
use vstd::string::StringExecFns;

verus! {

/// An external identifier. The prefix says what kind of thing is identified,
/// the bytes say which one.
#[derive(Debug, PartialEq, Eq, Hash)]
pub struct ExternalId {
    pub prefix: String,
    pub bytes: [u8; 16],
}

/// [`uuid::Uuid`], of which nothing is known here but the bytes that
/// [`uuid_bytes`] names.
#[verifier::external_type_specification]
#[verifier::external_body]
pub struct ExUuid(Uuid);

/// The 16 bytes that a UUID holds, in the order in which it stores them.
pub uninterp spec fn uuid_bytes(uuid: Uuid) -> Seq<u8>;

/// What [`base36::encode`] makes of a sequence of bytes.
pub uninterp spec fn base36_text(bytes: Seq<u8>) -> Seq<char>;

/// Whether 16 bytes carry the marks of a random (version 4) UUID: the
/// version in the high half of byte 6, the variant in the top two bits of
/// byte 8.
pub open spec fn is_random_uuid(bytes: Seq<u8>) -> bool {
    &&& bytes.len() == 16
    &&& bytes[6] / 16 == 4
    &&& bytes[8] / 64 == 2
}

/// The text form of an identifier whose bytes are written as `encoded`.
pub open spec fn prefixed_text(prefix: Seq<char>, encoded: Seq<char>) -> Seq<char> {
    prefix + seq!['-'] + encoded
}

/// [`Uuid::new_v4`]: a UUID from the operating system's random numbers.
/// Whatever they are, the version and variant bits are set to those of a
/// random UUID. The call does not return if the operating system has no
/// random numbers to give.
#[verifier::external_body]
fn random_uuid() -> (uuid: Uuid)
    ensures
        is_random_uuid(uuid_bytes(uuid)),
{
    Uuid::new_v4()
}

/// [`Uuid::as_bytes`]: the bytes that the UUID holds.
#[verifier::external_body]
fn bytes_of_uuid(uuid: &Uuid) -> (bytes: [u8; 16])
    ensures
        bytes@ == uuid_bytes(*uuid),
{
    *uuid.as_bytes()
}

/// [`Uuid::from_bytes`]: the UUID that holds the given bytes.
#[verifier::external_body]
fn uuid_of_bytes(bytes: [u8; 16]) -> (uuid: Uuid)
    ensures
        uuid_bytes(uuid) == bytes@,
{
    Uuid::from_bytes(bytes)
}

/// [`base36::encode`]: the bytes in base 36.
#[verifier::external_body]
fn base36_of_bytes(bytes: &[u8; 16]) -> (text: String)
    ensures
        text@ == base36_text(bytes@),
{
    base36::encode(bytes)
}

/// Joins a prefix and the encoded bytes with a hyphen.
pub fn prefixed(prefix: &str, encoded: &str) -> (text: String)
    ensures
        text@ == prefixed_text(prefix@, encoded@),
{
    let mut text: String = prefix.to_owned();
    proof {
        reveal_strlit("-");
    }
    text.append("-");
    assert("-"@ =~= seq!['-']);
    text.append(encoded);
    text
}

impl Clone for ExternalId {
    /// An identifier with the same prefix and the same bytes.
    fn clone(&self) -> (id: Self)
        ensures
            id == *self,
    {
        Self { prefix: self.prefix.clone(), bytes: self.bytes }
    }
}

impl ExternalId {
    /// A new identifier with the given prefix and the bytes of a fresh
    /// random UUID.
    pub fn new(prefix: &str) -> (id: Self)
        ensures
            id.prefix@ == prefix@,
            is_random_uuid(id.bytes@),
    {
        let uuid = random_uuid();
        Self::from_uuid(prefix, &uuid)
    }

    /// The identifier with the given prefix and the bytes of `uuid`.
    pub fn from_uuid(prefix: &str, uuid: &Uuid) -> (id: Self)
        ensures
            id.prefix@ == prefix@,
            id.bytes@ == uuid_bytes(*uuid),
    {
        Self { prefix: prefix.to_owned(), bytes: bytes_of_uuid(uuid) }
    }

    /// The text form: the prefix, a hyphen, and the bytes in base 36.
    pub fn to_string(&self) -> (text: String)
        ensures
            text@ == prefixed_text(self.prefix@, base36_text(self.bytes@)),
    {
        let encoded = base36_of_bytes(&self.bytes);
        prefixed(self.prefix.as_str(), encoded.as_str())
    }

    /// The UUID that holds the bytes of this identifier.
    pub fn uuid(&self) -> (uuid: Uuid)
        ensures
            uuid_bytes(uuid) == self.bytes@,
    {
        uuid_of_bytes(self.bytes)
    }
}

} // verus!
