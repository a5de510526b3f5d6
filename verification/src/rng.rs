//! Randomness, behind trusted wrappers: mask keys, handshake key bytes,
//! and ranged draws. Nothing is claimed of the values beyond their
//! range; verified callers must hold for every outcome.

use vstd::prelude::*;

verus! {

/// Relies on `rand::random`: four bytes from the thread-local generator,
/// used as a per-frame mask key.
#[verifier::external_body]
pub fn random_mask() -> [u8; 4] {
    rand::random()
}

/// Relies on `rand::random`: sixteen bytes from the thread-local
/// generator, used for the handshake key.
#[verifier::external_body]
pub fn random_key_bytes() -> [u8; 16] {
    rand::random()
}

/// Relies on `rand::random_range`: a value in `min..max`. The function
/// panics only on an empty range, which the precondition rules out.
#[verifier::external_body]
pub(crate) fn random_below(min: u64, max: u64) -> (r: u64)
    requires
        min < max,
    ensures
        min <= r < max,
{
    rand::random_range(min..max)
}

/// A lower-case base-36 digit: `0`–`9` or `a`–`z`.
pub open spec fn spec_is_lower_alnum(c: char) -> bool {
    (48 <= c as u32 <= 57) || (97 <= c as u32 <= 122)
}

/// A lower-case base-36 digit as an ASCII byte.
pub open spec fn spec_is_lower_alnum_byte(b: u8) -> bool {
    (48 <= b <= 57) || (97 <= b <= 122)
}

/// A random lower-case alphanumeric byte (the ASCII codes of `0`–`9`
/// and `a`–`z`).
pub fn random_alnum_byte() -> (b: u8)
    ensures
        spec_is_lower_alnum_byte(b),
{
    let idx = random_below(0, 36);
    if idx < 10 {
        48 + (idx as u8)
    } else {
        97 + ((idx - 10) as u8)
    }
}

/// A string of `len` random characters, each a digit or a lower-case
/// letter.
pub fn random_string(len: usize) -> (r: String)
    ensures
        r@.len() == len,
        forall|i: int| 0 <= i < len ==> spec_is_lower_alnum(#[trigger] r@[i]),
{
    let mut chars: Vec<char> = Vec::new();
    let mut i: usize = 0;
    while i < len
        invariant
            i <= len,
            chars@.len() == i,
            forall|k: int| 0 <= k < i ==> spec_is_lower_alnum(#[trigger] chars@[k]),
        decreases len - i,
    {
        let b = random_alnum_byte();
        chars.push(b as char);
        assert(spec_is_lower_alnum(b as char)) by {
            assert(b as char as u32 == b);
        }
        i += 1;
    }
    crate::text::chars_to_string(&chars)
}

} // verus!
