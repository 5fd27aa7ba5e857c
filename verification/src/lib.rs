//! Small utilities shared across services.
//!
//! - [`request_id`]: fast request identifiers, a counter written as a short
//!   URL-safe text, with [`laws`] that hold of every identifier.
//! - [`eid`]: external identifiers, a prefix and the bytes of a UUID in
//!   base 36.
//!
//! The request identifiers rest on three smaller pieces: the [`alphabet`]
//! of 64 symbols, the base-64 digits of a value in [`radix64`], and the
//! [`mixer`] that scatters successive counter values. [`width`] says how
//! many symbols an identifier may have.

pub mod alphabet;
pub mod eid;
pub mod laws;
pub mod mixer;
pub mod radix64;
pub mod request_id;
pub mod width;
