//! Session-token generation.
//!
//! A token is a fixed-length string of ASCII letters and digits. Random
//! bytes come from the operating system; everything done with those bytes
//! afterwards — rejection sampling onto the alphanumeric alphabet and
//! assembly into a string — is verified here. Because a byte below the
//! rejection bound is reduced modulo 62, and the bound is a multiple of
//! 62, a uniform byte source yields a uniform choice of character.

use vstd::prelude::*;

use crate::errors::AuthError;

verus! {

/// Length of every issued session token, in characters.
pub const TOKEN_LEN: usize = 30;

/// Random bytes are accepted only below this bound, so that reduction
/// modulo 62 stays uniform (248 == 4 * 62).
pub const REJECTION_BOUND: u8 = 248;

/// The ASCII code of a lower-case letter, an upper-case letter or a digit.
pub open spec fn is_token_byte(b: u8) -> bool {
    (97 <= b <= 122) || (65 <= b <= 90) || (48 <= b <= 57)
}

/// A lower-case letter, an upper-case letter or a digit.
pub open spec fn is_token_char(c: char) -> bool {
    (97 <= c as u32 <= 122) || (65 <= c as u32 <= 90) || (48 <= c as u32 <= 57)
}

/// Where an accepted byte lands in the alphanumeric alphabet:
/// 0..=25 onto 'a'..='z', 26..=51 onto 'A'..='Z', 52..=61 onto '0'..='9'.
pub open spec fn alnum_byte(b: u8) -> u8 {
    let x = b % 62;
    if x < 26 {
        (x + 97) as u8
    } else if x < 52 {
        (x + 39) as u8
    } else {
        (x - 4) as u8
    }
}

/// What rejection sampling keeps of a sequence of random bytes: every
/// byte below the bound, mapped onto the alphabet; the rest dropped.
pub open spec fn token_bytes_of(s: Seq<u8>) -> Seq<u8>
    decreases s.len(),
{
    if s.len() == 0 {
        Seq::empty()
    } else if s[0] < REJECTION_BOUND {
        seq![alnum_byte(s[0])] + token_bytes_of(s.drop_first())
    } else {
        token_bytes_of(s.drop_first())
    }
}

/// Appending one byte to the input extends the sampled output by that
/// byte's contribution, if any.
proof fn lemma_token_bytes_push(s: Seq<u8>, b: u8)
    ensures
        token_bytes_of(s.push(b)) == token_bytes_of(s) + (if b < REJECTION_BOUND {
            seq![alnum_byte(b)]
        } else {
            Seq::<u8>::empty()
        }),
    decreases s.len(),
{
    if s.len() == 0 {
        assert(s.push(b)[0] == b);
        assert(token_bytes_of(Seq::<u8>::empty()) == Seq::<u8>::empty());
        assert(s.push(b).drop_first() =~= Seq::<u8>::empty());
        assert(s =~= Seq::<u8>::empty());
        if b < REJECTION_BOUND {
            assert(token_bytes_of(s.push(b)) =~= seq![alnum_byte(b)]);
            assert(token_bytes_of(s) + seq![alnum_byte(b)] =~= seq![alnum_byte(b)]);
        } else {
            assert(token_bytes_of(s) + Seq::<u8>::empty() =~= Seq::<u8>::empty());
        }
    } else {
        assert(s.push(b).drop_first() =~= s.drop_first().push(b));
        lemma_token_bytes_push(s.drop_first(), b);
        let tail_part = if b < REJECTION_BOUND {
            seq![alnum_byte(b)]
        } else {
            Seq::<u8>::empty()
        };
        if s[0] < REJECTION_BOUND {
            assert(seq![alnum_byte(s[0])] + (token_bytes_of(s.drop_first()) + tail_part)
                =~= (seq![alnum_byte(s[0])] + token_bytes_of(s.drop_first())) + tail_part);
        } else {
            assert(token_bytes_of(s.push(b)) == token_bytes_of(s.drop_first()) + tail_part);
        }
        assert(token_bytes_of(s) + Seq::<u8>::empty() =~= token_bytes_of(s));
    }
}

/// Keep every acceptable byte of `bytes`, mapped onto the alphanumeric
/// alphabet. The mapping is deterministic, so a fixed byte sequence
/// always yields the same token fragment.
pub fn token_from_bytes(bytes: &Vec<u8>) -> (out: Vec<u8>)
    ensures
        out@ == token_bytes_of(bytes@),
        forall|i: int| 0 <= i < out@.len() ==> is_token_byte(#[trigger] out@[i]),
{
    let mut out: Vec<u8> = Vec::new();
    let mut i: usize = 0;
    while i < bytes.len()
        invariant
            i <= bytes@.len(),
            out@ == token_bytes_of(bytes@.subrange(0, i as int)),
            forall|k: int| 0 <= k < out@.len() ==> is_token_byte(#[trigger] out@[k]),
        decreases bytes@.len() - i,
    {
        let b = bytes[i];
        proof {
            assert(bytes@.subrange(0, i as int).push(b) =~= bytes@.subrange(0, i + 1));
            lemma_token_bytes_push(bytes@.subrange(0, i as int), b);
        }
        if b < REJECTION_BOUND {
            let x = b % 62;
            let c = if x < 26 {
                x + 97
            } else if x < 52 {
                x + 39
            } else {
                x - 4
            };
            assert(c == alnum_byte(b));
            out.push(c);
        }
        i = i + 1;
    }
    proof {
        assert(bytes@.subrange(0, bytes@.len() as int) =~= bytes@);
    }
    out
}

/// Relies on `rand::rngs::OsRng::try_fill_bytes`: on success the whole
/// buffer holds bytes drawn from the operating system's random source;
/// nothing is promised of their values.
#[verifier::external_body]
pub(crate) fn os_random_bytes(len: usize) -> (r: Result<Vec<u8>, AuthError>)
    ensures
        r matches Ok(v) ==> v@.len() == len,
        r matches Err(e) ==> e == AuthError::Entropy,
{
    let mut buf = vec![0u8; len];
    match rand::RngCore::try_fill_bytes(&mut rand::rngs::OsRng, &mut buf) {
        Ok(()) => Ok(buf),
        Err(_) => Err(AuthError::Entropy),
    }
}

/// Relies on `String::from_utf8`: a buffer of ASCII bytes is valid UTF-8
/// and decodes to exactly one character per byte, each the character with
/// that byte's code.
#[verifier::external_body]
pub(crate) fn ascii_bytes_to_string(v: Vec<u8>) -> (r: String)
    requires
        forall|i: int| 0 <= i < v@.len() ==> v@[i] < 128,
    ensures
        r@.len() == v@.len(),
        forall|i: int| 0 <= i < r@.len() ==> r@[i] == (v@[i] as char),
{
    String::from_utf8(v).unwrap()
}

/// Exactly `TOKEN_LEN` characters, each an ASCII letter or digit.
pub open spec fn is_token(s: Seq<char>) -> bool {
    &&& s.len() == TOKEN_LEN
    &&& forall|i: int| 0 <= i < s.len() ==> is_token_char(#[trigger] s[i])
}

/// How many batches of random bytes may be drawn for one token before
/// the source is considered unusable. One batch nearly always suffices:
/// a byte is rejected with probability 8/256.
pub const MAX_DRAWS: usize = 16;

/// Draw bytes from the operating system until rejection sampling has
/// filled a whole token, then package it as a string. A source that
/// cannot fill a token within `MAX_DRAWS` batches is reported as an
/// entropy failure, like one that yields no bytes at all.
pub fn generate_token() -> (r: Result<String, AuthError>)
    ensures
        r matches Ok(t) ==> is_token(t@),
        r matches Err(e) ==> e == AuthError::Entropy,
{
    let mut acc: Vec<u8> = Vec::new();
    let mut draws: usize = 0;
    while acc.len() < TOKEN_LEN && draws < MAX_DRAWS
        invariant
            forall|k: int| 0 <= k < acc@.len() ==> is_token_byte(#[trigger] acc@[k]),
            draws <= MAX_DRAWS,
        decreases MAX_DRAWS - draws,
    {
        let batch = match os_random_bytes(64) {
            Ok(b) => b,
            Err(e) => {
                return Err(e);
            },
        };
        let mut fresh = token_from_bytes(&batch);
        acc.append(&mut fresh);
        draws = draws + 1;
    }
    if acc.len() < TOKEN_LEN {
        return Err(AuthError::Entropy);
    }
    acc.truncate(TOKEN_LEN);
    assert(forall|i: int| 0 <= i < acc@.len() ==> acc@[i] < 128);
    let s = ascii_bytes_to_string(acc);
    Ok(s)
}

} // verus!
