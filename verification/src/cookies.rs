//! The cookie rules an exported session uses: which cookies apply to a
//! domain, and how a set of them reads as a Cookie header value.

use vstd::prelude::*;

use crate::text::{chars_to_string, to_char_vec};
use crate::wire::push_str_chars;

verus! {

/// `suffix` is a suffix of `s`.
pub open spec fn spec_ends_with(s: Seq<char>, suffix: Seq<char>) -> bool {
    suffix.len() <= s.len() && s.subrange(s.len() - suffix.len(), s.len() as int) == suffix
}

/// Whether `s` ends with `suffix`.
pub fn ends_with(s: &str, suffix: &str) -> (r: bool)
    ensures
        r == spec_ends_with(s@, suffix@),
{
    let sc = to_char_vec(s);
    let tc = to_char_vec(suffix);
    if tc.len() > sc.len() {
        return false;
    }
    let slen = sc.len();
    let off = slen - tc.len();
    let n = tc.len();
    let mut j: usize = 0;
    while j < n
        invariant
            sc@ == s@,
            tc@ == suffix@,
            n == tc@.len(),
            slen == sc@.len(),
            n <= sc@.len(),
            off == sc@.len() - n,
            j <= n,
            forall|k: int| 0 <= k < j ==> s@[off + k] == suffix@[k],
        decreases n - j,
    {
        if sc[off + j] != tc[j] {
            assert(s@.subrange(s@.len() - suffix@.len(), s@.len() as int)[j as int]
                != suffix@[j as int]);
            return false;
        }
        j += 1;
    }
    assert(s@.subrange(s@.len() - suffix@.len(), s@.len() as int) =~= suffix@);
    true
}

/// The domain rule an exported session applies: a cookie belongs to a
/// domain when either is a suffix of the other.
pub fn domain_matches(domain: &str, cookie_domain: &str) -> (r: bool)
    ensures
        r == (spec_ends_with(domain@, cookie_domain@) || spec_ends_with(
            cookie_domain@,
            domain@,
        )),
{
    ends_with(domain, cookie_domain) || ends_with(cookie_domain, domain)
}

/// Name=value pairs joined with `; `, as a Cookie header value reads.
pub open spec fn spec_cookie_header(pairs: Seq<(String, String)>) -> Seq<char>
    decreases pairs.len(),
{
    if pairs.len() == 0 {
        Seq::empty()
    } else if pairs.len() == 1 {
        pairs[0].0@ + "="@ + pairs[0].1@
    } else {
        spec_cookie_header(pairs.drop_last()) + "; "@ + pairs.last().0@ + "="@ + pairs.last().1@
    }
}

/// Format name=value pairs as one Cookie header value.
pub fn cookie_header_of(pairs: &Vec<(String, String)>) -> (r: String)
    ensures
        r@ == spec_cookie_header(pairs@),
{
    let mut out: Vec<char> = Vec::new();
    let n = pairs.len();
    let mut i: usize = 0;
    while i < n
        invariant
            n == pairs@.len(),
            i <= n,
            out@ == spec_cookie_header(pairs@.subrange(0, i as int)),
        decreases n - i,
    {
        if i > 0 {
            push_str_chars("; ", &mut out);
        }
        push_str_chars(pairs[i].0.as_str(), &mut out);
        push_str_chars("=", &mut out);
        push_str_chars(pairs[i].1.as_str(), &mut out);
        proof {
            let cur = pairs@.subrange(0, i + 1);
            assert(cur.drop_last() =~= pairs@.subrange(0, i as int));
            assert(cur.last() == pairs@[i as int]);
            assert(cur[0] == pairs@[0]);
        }
        i += 1;
    }
    assert(pairs@.subrange(0, n as int) =~= pairs@);
    chars_to_string(&out)
}

} // verus!
