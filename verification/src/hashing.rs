//! Password hashing.
//!
//! A plaintext password is stored only as a bcrypt hash: a slow, salted,
//! adaptively-costed one-way transformation. The 16 bytes of salt entropy
//! come from the operating system through the typed-error entropy path,
//! so a dry random source surfaces as a hashing failure instead of a
//! crash; turning those bytes into bcrypt's 22-character salt encoding is
//! verified here, and only the key derivation itself is an outside call.
//! The salt is drawn afresh on every call, so hashing is not a function
//! of the password alone and no contract equates two hashes of the same
//! plaintext. What the contracts do pin down is the shape of every hash
//! this module can produce.

use vstd::prelude::*;

use crate::errors::AuthError;
use crate::token::ascii_bytes_to_string;
use crate::token::os_random_bytes;

verus! {

/// The length, in characters, of every bcrypt hash string: a marker and
/// cost header of 7, a 22-character salt and a 31-character checksum.
pub const BCRYPT_LEN: usize = 60;

/// The length, in characters, of the encoded salt: 22 characters of
/// bcrypt's base64 alphabet carry the 16 salt bytes.
pub const SALT_LEN: usize = 22;

/// Random bytes are accepted for the salt only below this bound, so that
/// reduction modulo 64 stays uniform (192 == 3 * 64).
pub const SALT_REJECTION_BOUND: u8 = 192;

/// How many batches of random bytes may be drawn for one salt before the
/// source is considered unusable; a byte is rejected with probability
/// 64/256, so one batch nearly always suffices.
pub const SALT_DRAWS: usize = 16;

/// The ASCII code of a character of bcrypt's base64 alphabet:
/// `.`, `/`, the letters, and the digits.
pub open spec fn is_salt_byte(b: u8) -> bool {
    b == 46 || b == 47 || (65 <= b <= 90) || (97 <= b <= 122) || (48 <= b <= 57)
}

/// A character of bcrypt's base64 alphabet.
pub open spec fn is_salt_char(c: char) -> bool {
    c as u32 == 46 || c as u32 == 47 || (65 <= c as u32 <= 90) || (97 <= c as u32 <= 122) || (48
        <= c as u32 <= 57)
}

/// Where an accepted byte lands in bcrypt's base64 alphabet, in its
/// order `./A..Za..z0..9`: 0 onto `.`, 1 onto `/`, 2..=27 onto
/// 'A'..='Z', 28..=53 onto 'a'..='z', 54..=63 onto '0'..='9'.
pub open spec fn salt64_byte(b: u8) -> u8 {
    let x = b % 64;
    if x == 0 {
        46u8
    } else if x == 1 {
        47u8
    } else if x < 28 {
        (x + 63) as u8
    } else if x < 54 {
        (x + 69) as u8
    } else {
        (x - 6) as u8
    }
}

/// What rejection sampling keeps of a sequence of random bytes: every
/// byte below the bound, mapped onto the salt alphabet; the rest dropped.
pub open spec fn salt_bytes_of(s: Seq<u8>) -> Seq<u8>
    decreases s.len(),
{
    if s.len() == 0 {
        Seq::empty()
    } else if s[0] < SALT_REJECTION_BOUND {
        seq![salt64_byte(s[0])] + salt_bytes_of(s.drop_first())
    } else {
        salt_bytes_of(s.drop_first())
    }
}

/// Appending one byte to the input extends the sampled output by that
/// byte's contribution, if any.
proof fn lemma_salt_bytes_push(s: Seq<u8>, b: u8)
    ensures
        salt_bytes_of(s.push(b)) == salt_bytes_of(s) + (if b < SALT_REJECTION_BOUND {
            seq![salt64_byte(b)]
        } else {
            Seq::<u8>::empty()
        }),
    decreases s.len(),
{
    if s.len() == 0 {
        assert(s.push(b)[0] == b);
        assert(salt_bytes_of(Seq::<u8>::empty()) == Seq::<u8>::empty());
        assert(s.push(b).drop_first() =~= Seq::<u8>::empty());
        assert(s =~= Seq::<u8>::empty());
        if b < SALT_REJECTION_BOUND {
            assert(salt_bytes_of(s.push(b)) =~= seq![salt64_byte(b)]);
            assert(salt_bytes_of(s) + seq![salt64_byte(b)] =~= seq![salt64_byte(b)]);
        } else {
            assert(salt_bytes_of(s) + Seq::<u8>::empty() =~= Seq::<u8>::empty());
        }
    } else {
        assert(s.push(b).drop_first() =~= s.drop_first().push(b));
        lemma_salt_bytes_push(s.drop_first(), b);
        let tail_part = if b < SALT_REJECTION_BOUND {
            seq![salt64_byte(b)]
        } else {
            Seq::<u8>::empty()
        };
        if s[0] < SALT_REJECTION_BOUND {
            assert(seq![salt64_byte(s[0])] + (salt_bytes_of(s.drop_first()) + tail_part)
                =~= (seq![salt64_byte(s[0])] + salt_bytes_of(s.drop_first())) + tail_part);
        } else {
            assert(salt_bytes_of(s.push(b)) == salt_bytes_of(s.drop_first()) + tail_part);
        }
        assert(salt_bytes_of(s) + Seq::<u8>::empty() =~= salt_bytes_of(s));
    }
}

/// Keep every acceptable byte of `bytes`, mapped onto bcrypt's base64
/// alphabet. The mapping is deterministic, so a fixed byte sequence
/// always yields the same salt fragment.
pub fn salt_from_bytes(bytes: &Vec<u8>) -> (out: Vec<u8>)
    ensures
        out@ == salt_bytes_of(bytes@),
        forall|i: int| 0 <= i < out@.len() ==> is_salt_byte(#[trigger] out@[i]),
{
    let mut out: Vec<u8> = Vec::new();
    let mut i: usize = 0;
    while i < bytes.len()
        invariant
            i <= bytes@.len(),
            out@ == salt_bytes_of(bytes@.subrange(0, i as int)),
            forall|k: int| 0 <= k < out@.len() ==> is_salt_byte(#[trigger] out@[k]),
        decreases bytes@.len() - i,
    {
        let b = bytes[i];
        proof {
            assert(bytes@.subrange(0, i as int).push(b) =~= bytes@.subrange(0, i + 1));
            lemma_salt_bytes_push(bytes@.subrange(0, i as int), b);
        }
        if b < SALT_REJECTION_BOUND {
            let x = b % 64;
            let c = if x == 0 {
                46u8
            } else if x == 1 {
                47u8
            } else if x < 28 {
                x + 63
            } else if x < 54 {
                x + 69
            } else {
                x - 6
            };
            assert(c == salt64_byte(b));
            out.push(c);
        }
        i = i + 1;
    }
    proof {
        assert(bytes@.subrange(0, bytes@.len() as int) =~= bytes@);
    }
    out
}

/// A well-formed encoded salt: exactly `SALT_LEN` characters of bcrypt's
/// base64 alphabet.
pub open spec fn is_salt(s: Seq<char>) -> bool {
    &&& s.len() == SALT_LEN
    &&& forall|i: int| 0 <= i < s.len() ==> is_salt_char(#[trigger] s[i])
}

/// Draw bytes from the operating system until rejection sampling has
/// filled a whole encoded salt. Entropy failure here — a source that
/// yields nothing, or one that cannot fill a salt within `SALT_DRAWS`
/// batches — is a hashing failure: no password can be hashed without a
/// fresh salt.
fn generate_salt() -> (r: Result<String, AuthError>)
    ensures
        r matches Ok(s) ==> is_salt(s@),
        r matches Err(e) ==> e == AuthError::Hashing,
{
    let mut acc: Vec<u8> = Vec::new();
    let mut draws: usize = 0;
    while acc.len() < SALT_LEN && draws < SALT_DRAWS
        invariant
            forall|k: int| 0 <= k < acc@.len() ==> is_salt_byte(#[trigger] acc@[k]),
            draws <= SALT_DRAWS,
        decreases SALT_DRAWS - draws,
    {
        let batch = match os_random_bytes(64) {
            Ok(b) => b,
            Err(_) => {
                return Err(AuthError::Hashing);
            },
        };
        let mut fresh = salt_from_bytes(&batch);
        acc.append(&mut fresh);
        draws = draws + 1;
    }
    if acc.len() < SALT_LEN {
        return Err(AuthError::Hashing);
    }
    acc.truncate(SALT_LEN);
    assert(forall|i: int| 0 <= i < acc@.len() ==> acc@[i] < 128);
    let s = ascii_bytes_to_string(acc);
    Ok(s)
}

/// The shape of a bcrypt hash string produced here: 60 characters that
/// open with the `$2b$10$` marker (variant `2b`, cost 10).
pub open spec fn is_bcrypt_hash(s: Seq<char>) -> bool {
    &&& s.len() == BCRYPT_LEN
    &&& s[0] == '$'
    &&& s[1] == '2'
    &&& s[2] == 'b'
    &&& s[3] == '$'
    &&& s[4] == '1'
    &&& s[5] == '0'
    &&& s[6] == '$'
}

/// The bcrypt derivation itself: what `pwhash::bcrypt::hash_with` makes
/// of a password and a well-formed encoded salt, at cost 10, variant
/// `2b`. It draws no randomness of its own, so the result is a function
/// of these two arguments alone; its value is not written out here —
/// contracts speak of it only by this name.
pub uninterp spec fn bcrypt_of(password: Seq<char>, salt: Seq<char>) -> Seq<char>;

/// Relies on `pwhash::bcrypt::hash_with`: handed a well-formed
/// 22-character salt, cost 10 and variant `2b`, it decodes the salt —
/// which for a well-formed salt cannot fail — derives the key without
/// drawing any randomness of its own, and returns the hash in the
/// `$2b$10$` format: `bcrypt_of` the password and the salt.
#[verifier::external_body]
fn bcrypt_with_salt(password: &str, salt: &str) -> (r: Result<String, AuthError>)
    requires
        is_salt(salt@),
    ensures
        r is Ok,
        r matches Ok(h) ==> h@ == bcrypt_of(password@, salt@) && is_bcrypt_hash(h@),
{
    let setup = pwhash::bcrypt::BcryptSetup {
        salt: Some(salt),
        cost: Some(10),
        variant: Some(pwhash::bcrypt::BcryptVariant::V2b),
    };
    match pwhash::bcrypt::hash_with(setup, password) {
        Ok(h) => Ok(h),
        Err(_) => Err(AuthError::Hashing),
    }
}

/// Hash a password for storage: draw a fresh random salt and derive the
/// bcrypt hash from password and salt. A returned hash is the bcrypt
/// derivation of this very password under some well-formed salt — never
/// an unrelated string. Every failure — which here can only be a dry
/// entropy source — is the typed `Hashing` error, never a crash.
pub fn hash_password(password: &str) -> (r: Result<String, AuthError>)
    ensures
        r matches Ok(h) ==> is_bcrypt_hash(h@) && (exists|s: Seq<char>|
            is_salt(s) && h@ == #[trigger] bcrypt_of(password@, s)),
        r matches Err(e) ==> e == AuthError::Hashing,
{
    let salt = match generate_salt() {
        Ok(s) => s,
        Err(e) => {
            return Err(e);
        },
    };
    bcrypt_with_salt(password, salt.as_str())
}

/// A stored hash is never the plaintext it was derived from, for every
/// password that does not itself have the length and leading marker
/// character of a bcrypt hash string.
pub proof fn lemma_hash_differs_from_plaintext(h: Seq<char>, password: Seq<char>)
    requires
        is_bcrypt_hash(h),
        password.len() != BCRYPT_LEN || password[0] != '$',
    ensures
        h != password,
{
    if h == password {
        assert(password.len() == BCRYPT_LEN);
        assert(password[0] == '$');
    }
}

} // verus!
