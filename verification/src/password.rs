//! The credential store: salted password hashes and their verification.
//!
//! Hashing and checking are done by the `crypto` crate. Its checker is only
//! handed text that has the layout its hasher writes, so that a damaged
//! stored hash is reported and never reaches the primitive.

use crate::error::{Error, Fault};
use vstd::prelude::*;

verus! {

/// The iteration count that every hash of this library is made with.
pub const HASH_ROUNDS: u32 = 1;

/// The number of characters of a stored hash.
pub const HASH_LENGTH: usize = 90;

/// What `crypto::pbkdf2::pbkdf2_check` answers for a password and a stored
/// hash: `Some(matches)`, or `None` where it rejects the hash's format.
pub uninterp spec fn pbkdf2_verdict(password: Seq<char>, hashed: Seq<char>) -> Option<bool>;

/// Whether `c` is a character of the standard base64 alphabet.
pub open spec fn is_base64_char(c: char) -> bool {
    ||| 'A' <= c <= 'Z'
    ||| 'a' <= c <= 'z'
    ||| '0' <= c <= '9'
    ||| c == '+'
    ||| c == '/'
}

/// What every stored hash begins with: the format's name, its version and
/// the iteration count 1 in base64.
pub open spec fn hash_prefix() -> Seq<char> {
    "$rpbkdf2$0$AAAAAQ==$"@
}

/// Whether `h` has the layout of a stored hash: the prefix, a padded base64
/// field of 16 bytes of salt, `$`, a padded base64 field of 32 bytes of key,
/// and a closing `$`.
pub open spec fn is_stored_hash(h: Seq<char>) -> bool {
    &&& h.len() == HASH_LENGTH
    &&& h.subrange(0, 20) == hash_prefix()
    &&& forall|i: int| 20 <= i < 42 ==> is_base64_char(#[trigger] h[i])
    &&& h[42] == '='
    &&& h[43] == '='
    &&& h[44] == '$'
    &&& forall|i: int| 45 <= i < 88 ==> is_base64_char(#[trigger] h[i])
    &&& h[88] == '='
    &&& h[89] == '$'
}

/// What verifying `password` against `hashed` yields: a hash that lacks the
/// stored layout, or that the checker rejects, is malformed; otherwise the
/// checker's answer stands.
pub open spec fn verification(password: Seq<char>, hashed: Seq<char>) -> Result<bool, Error> {
    if !is_stored_hash(hashed) {
        Err(Error::Infrastructure(Fault::MalformedHash))
    } else {
        verdict_outcome(pbkdf2_verdict(password, hashed))
    }
}

/// The result that a checker's answer stands for.
pub open spec fn verdict_outcome(verdict: Option<bool>) -> Result<bool, Error> {
    match verdict {
        Some(matches) => Ok(matches),
        None => Err(Error::Infrastructure(Fault::MalformedHash)),
    }
}

/// Calls `crypto::pbkdf2::pbkdf2_check`. The hash has the stored layout, so
/// that the checker finds the iteration count 1 and a key of 32 bytes and
/// reaches none of its assertions. The answer is the one named by
/// `pbkdf2_verdict`.
#[verifier::external_body]
fn pbkdf2_check(password: &str, hashed: &str) -> (verdict: Option<bool>)
    requires
        is_stored_hash(hashed@),
    ensures
        verdict == pbkdf2_verdict(password@, hashed@),
{
    match crypto::pbkdf2::pbkdf2_check(password, hashed) {
        Ok(matches) => Some(matches),
        Err(_) => None,
    }
}

/// Calls `crypto::pbkdf2::pbkdf2_simple`, which salts at random, so nothing
/// is said of which hash comes back; `None` stands for a failure of the
/// random source. A hash that comes back is one that the checker accepts
/// for the same text, and with one round it has the stored layout.
#[verifier::external_body]
fn pbkdf2_simple(text: &str, rounds: u32) -> (hashed: Option<String>)
    requires
        rounds > 0,
    ensures
        match hashed {
            Some(h) => {
                &&& pbkdf2_verdict(text@, h@) == Some(true)
                &&& rounds == 1 ==> is_stored_hash(h@)
            },
            None => true,
        },
{
    match crypto::pbkdf2::pbkdf2_simple(text, rounds) {
        Ok(hashed) => Some(hashed),
        Err(_) => None,
    }
}

/// Whether the characters of `text` from `from` up to `to` are all of the
/// base64 alphabet.
fn all_base64(text: &str, from: usize, to: usize) -> (all: bool)
    requires
        from <= to <= text@.len(),
    ensures
        all == forall|i: int| from <= i < to ==> is_base64_char(#[trigger] text@[i]),
{
    let mut i: usize = from;
    while i < to
        invariant
            from <= i <= to <= text@.len(),
            forall|j: int| from <= j < i ==> is_base64_char(#[trigger] text@[j]),
        decreases to - i,
    {
        let c: char = text.get_char(i);
        let fits: bool = ('A' <= c && c <= 'Z') || ('a' <= c && c <= 'z') || ('0' <= c && c
            <= '9') || c == '+' || c == '/';
        if !fits {
            return false;
        }
        i += 1;
    }
    true
}

/// Whether `hashed` has the layout of a stored hash.
pub fn has_stored_layout(hashed: &str) -> (fits: bool)
    ensures
        fits == is_stored_hash(hashed@),
{
    if hashed.unicode_len() != HASH_LENGTH {
        return false;
    }
    let prefix = "$rpbkdf2$0$AAAAAQ==$";
    proof {
        reveal_strlit("$rpbkdf2$0$AAAAAQ==$");
    }
    let mut i: usize = 0;
    while i < 20
        invariant
            i <= 20,
            hashed@.len() == HASH_LENGTH,
            prefix@ == hash_prefix(),
            prefix@.len() == 20,
            forall|j: int| 0 <= j < i ==> hashed@[j] == prefix@[j],
        decreases 20 - i,
    {
        if hashed.get_char(i) != prefix.get_char(i) {
            return false;
        }
        i += 1;
    }
    assert(hashed@.subrange(0, 20) =~= hash_prefix());
    all_base64(hashed, 20, 42) && hashed.get_char(42) == '=' && hashed.get_char(43) == '='
        && hashed.get_char(44) == '$' && all_base64(hashed, 45, 88) && hashed.get_char(88) == '='
        && hashed.get_char(89) == '$'
}

/// Hashes `password` under a fresh random salt. The hash has the stored
/// layout and verifies against `password`; which hash it is depends on the
/// salt. A failure of the random source is `HashFailure`.
pub fn hash_password(password: &str) -> (hashed: Result<String, Error>)
    ensures
        match hashed {
            Ok(h) => is_stored_hash(h@) && verification(password@, h@) == Ok::<bool, Error>(true),
            Err(e) => e == Error::Infrastructure(Fault::HashFailure),
        },
{
    hash_outcome(pbkdf2_simple(password, HASH_ROUNDS))
}

/// The result that a hasher's answer stands for: the hash, or `HashFailure`
/// where none came back.
pub fn hash_outcome(hashed: Option<String>) -> (outcome: Result<String, Error>)
    ensures
        match hashed {
            Some(h) => outcome == Ok::<String, Error>(h),
            None => outcome == Err::<String, Error>(Error::Infrastructure(Fault::HashFailure)),
        },
{
    match hashed {
        Some(h) => Ok(h),
        None => Err(Error::Infrastructure(Fault::HashFailure)),
    }
}

/// Checks `password` against a stored hash. A hash without the stored
/// layout is reported as malformed and not handed to the checker.
pub fn verify_password(password: &str, hashed: &str) -> (outcome: Result<bool, Error>)
    ensures
        outcome == verification(password@, hashed@),
{
    if !has_stored_layout(hashed) {
        return Err(Error::Infrastructure(Fault::MalformedHash));
    }
    settle_verdict(pbkdf2_check(password, hashed))
}

/// The result that a checker's answer stands for: its answer, or
/// `MalformedHash` where it rejected the hash.
pub fn settle_verdict(verdict: Option<bool>) -> (outcome: Result<bool, Error>)
    ensures
        outcome == verdict_outcome(verdict),
{
    match verdict {
        Some(matches) => Ok(matches),
        None => Err(Error::Infrastructure(Fault::MalformedHash)),
    }
}

} // verus!
