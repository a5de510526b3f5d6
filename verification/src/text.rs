//! Exact-contract helpers for strings, which the wire logic and the
//! policy build on: equality, substring search, and conversions between
//! `&str` and `Vec<char>`.

use vstd::prelude::*;
use vstd::string::StringSliceAdditionalSpecFns;

verus! {

broadcast use vstd::string::group_string_axioms;

/// Compare two string slices; true exactly when their character views agree.
pub fn str_eq(a: &str, b: &str) -> (r: bool)
    ensures
        r == (a@ == b@),
{
    let ab = a.as_bytes();
    let bb = b.as_bytes();
    proof {
        vstd::utf8::encode_utf8_decode_utf8(a@);
        vstd::utf8::encode_utf8_decode_utf8(b@);
    }
    if ab.len() != bb.len() {
        return false;
    }
    let n = ab.len();
    let mut i: usize = 0;
    while i < n
        invariant
            n == ab@.len() == bb@.len(),
            ab@ == a.spec_bytes(),
            bb@ == b.spec_bytes(),
            i <= n,
            forall|j: int| 0 <= j < i ==> ab@[j] == bb@[j],
            vstd::utf8::decode_utf8(a.spec_bytes()) == a@,
            vstd::utf8::decode_utf8(b.spec_bytes()) == b@,
        decreases n - i,
    {
        if ab[i] != bb[i] {
            return false;
        }
        i += 1;
    }
    proof {
        assert(a.spec_bytes() =~= b.spec_bytes());
    }
    true
}

/// Relies on `str::chars` collected into a vector: exactly the
/// characters of `s`, in order.
#[verifier::external_body]
pub fn to_char_vec(s: &str) -> (v: Vec<char>)
    ensures
        v@ == s@,
{
    s.chars().collect()
}

/// Relies on `String`'s `FromIterator` over characters: a string made
/// of exactly the given characters, in order.
#[verifier::external_body]
pub fn chars_to_string(v: &Vec<char>) -> (s: String)
    ensures
        s@ == v@,
{
    v.iter().collect()
}

/// `needle` occurs as a contiguous run inside `haystack`.
pub open spec fn spec_contains(haystack: Seq<char>, needle: Seq<char>) -> bool {
    exists|i: int|
        0 <= i && i + needle.len() <= haystack.len() && #[trigger] haystack.subrange(
            i,
            i + needle.len(),
        ) == needle
}

/// Index of the first occurrence of `needle` in `haystack`, if any.
pub fn find_sub(haystack: &str, needle: &str) -> (r: Option<usize>)
    ensures
        match r {
            Some(i) => {
                &&& i + needle@.len() <= haystack@.len()
                &&& haystack@.subrange(i as int, i + needle@.len()) == needle@
                &&& forall|k: int|
                    0 <= k < i ==> #[trigger] haystack@.subrange(k, k + needle@.len()) != needle@
            },
            None => !spec_contains(haystack@, needle@),
        },
{
    let h = to_char_vec(haystack);
    let n = to_char_vec(needle);
    if n.len() > h.len() {
        assert(!spec_contains(haystack@, needle@));
        return None;
    }
    let hlen = h.len();
    let last_start = hlen - n.len();
    let mut i: usize = 0;
    while i <= last_start
        invariant
            h@ == haystack@,
            n@ == needle@,
            n@.len() <= h@.len(),
            hlen == h@.len(),
            last_start == h@.len() - n@.len(),
            i <= last_start + 1,
            forall|k: int|
                0 <= k < i ==> #[trigger] h@.subrange(k, k + n@.len()) != n@,
        decreases last_start + 1 - i,
    {
        let mut j: usize = 0;
        let mut all_match = true;
        while j < n.len()
            invariant
                h@ == haystack@,
                n@ == needle@,
                hlen == h@.len(),
                i + n@.len() <= h@.len(),
                j <= n@.len(),
                all_match <==> (forall|m: int| 0 <= m < j ==> h@[i + m] == n@[m]),
            decreases n@.len() - j,
        {
            if h[i + j] != n[j] {
                all_match = false;
                assert(h@[i + j as int] != n@[j as int]);
                assert(!(forall|m: int| 0 <= m < j + 1 ==> h@[i + m] == n@[m]));
                j = n.len();
            } else {
                assert(h@[i + j as int] == n@[j as int]);
                j += 1;
            }
        }
        if all_match {
            assert(h@.subrange(i as int, i + n@.len()) =~= n@);
            return Some(i);
        }
        assert(h@.subrange(i as int, i + n@.len()) != n@) by {
            assert(exists|m: int| 0 <= m < n@.len() && h@[i + m] != n@[m]);
            let m = choose|m: int| 0 <= m < n@.len() && h@[i + m] != n@[m];
            assert(h@.subrange(i as int, i + n@.len())[m] == h@[i + m]);
        }
        i += 1;
    }
    assert forall|k: int|
        0 <= k && k + needle@.len() <= haystack@.len() implies #[trigger] haystack@.subrange(
        k,
        k + needle@.len(),
    ) != needle@ by {
        assert(k <= last_start);
    }
    None
}

/// The characters of `v` from `from` (inclusive) to `to` (exclusive).
pub fn sub_chars(v: &Vec<char>, from: usize, to: usize) -> (r: Vec<char>)
    requires
        from <= to <= v@.len(),
    ensures
        r@ == v@.subrange(from as int, to as int),
{
    let mut r: Vec<char> = Vec::new();
    let mut i: usize = from;
    while i < to
        invariant
            from <= i <= to <= v@.len(),
            r@ == v@.subrange(from as int, i as int),
        decreases to - i,
    {
        r.push(v[i]);
        assert(v@.subrange(from as int, i + 1) =~= v@.subrange(from as int, i as int) + seq![
            v@[i as int],
        ]);
        i += 1;
    }
    r
}

/// Whether `needle` occurs inside `haystack`.
pub fn contains_sub(haystack: &str, needle: &str) -> (r: bool)
    ensures
        r == spec_contains(haystack@, needle@),
{
    match find_sub(haystack, needle) {
        Some(_) => true,
        None => false,
    }
}

} // verus!
