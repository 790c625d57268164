//! The failure taxonomy of the credential store.

use vstd::prelude::*;

verus! {

/// Everything that can go wrong while registering or looking up a user.
///
/// `register` reports every failure to its caller as one of these, so a
/// caller can tell "username taken" apart from an internal fault.
/// Verification deliberately collapses every "no such record" condition to
/// a plain `false` answer instead; only a storage fault surfaces as
/// `Storage`.
#[derive(Clone, Copy, Debug, PartialEq, Eq, Structural)]
pub enum AuthError {
    /// The password hasher rejected its input or could not run.
    Hashing,
    /// The operating system's random source could not supply bytes.
    Entropy,
    /// A record with the requested username already exists.
    DuplicateUsername,
    /// The freshly generated token collided with a stored one.
    DuplicateToken,
    /// Any other persistence fault: connectivity, schema, query shape.
    Storage,
    /// A stored row could not be read back as a user record.
    Decode,
}

} // verus!
