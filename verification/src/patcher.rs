//! The binary-patching rule: which byte patterns in a browser binary are
//! rewritten, how each is rewritten, and the application of the matches
//! the pattern matcher reports. File mapping, copying, and re-signing
//! happen outside; the rewrite itself is exact about what it may touch.

use vstd::prelude::*;
use vstd::slice::slice_to_vec;
use vstd::string::StringSliceAdditionalSpecFns;

use crate::rng::random_alnum_byte;

verus! {

broadcast use vstd::string::group_string_axioms;

/// How a matched pattern is rewritten.
#[derive(Debug, Clone, Copy, PartialEq, Eq, Structural)]
pub enum PatchStrategy {
    /// Replace the match with random alphanumeric bytes.
    RandomizePrefix,
    /// Swap neighbouring byte pairs in place.
    Scramble,
    /// Overwrite the match with spaces.
    Nullify,
    /// Detect only; leave the bytes alone.
    Skip,
}

/// One pattern with its replacement strategy.
#[derive(Debug, Clone)]
pub struct PatchPattern {
    /// The byte pattern to find.
    pub pattern: Vec<u8>,
    /// How a match is rewritten.
    pub strategy: PatchStrategy,
}

/// The catalogue of patterns, as (bytes, strategy) pairs in matcher
/// order.
pub open spec fn spec_patterns() -> Seq<(Seq<u8>, PatchStrategy)> {
    seq![
        (vstd::utf8::encode_utf8("$cdc_"@), PatchStrategy::RandomizePrefix),
        (vstd::utf8::encode_utf8("cdc_"@), PatchStrategy::RandomizePrefix),
        (vstd::utf8::encode_utf8("webdriver"@), PatchStrategy::Scramble),
        (vstd::utf8::encode_utf8("--enable-automation"@), PatchStrategy::Nullify),
        (vstd::utf8::encode_utf8("devtoolsw"@), PatchStrategy::Scramble),
        (vstd::utf8::encode_utf8("debuggerPrivate"@), PatchStrategy::Scramble),
        (vstd::utf8::encode_utf8("HeadlessChrome"@), PatchStrategy::Scramble),
        (vstd::utf8::encode_utf8("$wdc_"@), PatchStrategy::RandomizePrefix),
        (vstd::utf8::encode_utf8("$chromeDriver"@), PatchStrategy::RandomizePrefix),
        (vstd::utf8::encode_utf8("Runtime.enable"@), PatchStrategy::Skip),
        (vstd::utf8::encode_utf8("Page.addScriptToEvaluateOnNewDocument"@), PatchStrategy::Skip),
    ]
}

/// The catalogue as values.
pub fn patch_patterns() -> (r: Vec<PatchPattern>)
    ensures
        r@.len() == spec_patterns().len(),
        forall|i: int|
            0 <= i < r@.len() ==> (#[trigger] r@[i].pattern)@ == spec_patterns()[i].0,
        forall|i: int|
            0 <= i < r@.len() ==> #[trigger] r@[i].strategy == spec_patterns()[i].1,
{
    let mut v: Vec<PatchPattern> = Vec::new();
    v.push(
        PatchPattern {
            pattern: slice_to_vec("$cdc_".as_bytes()),
            strategy: PatchStrategy::RandomizePrefix,
        },
    );
    v.push(
        PatchPattern {
            pattern: slice_to_vec("cdc_".as_bytes()),
            strategy: PatchStrategy::RandomizePrefix,
        },
    );
    v.push(
        PatchPattern {
            pattern: slice_to_vec("webdriver".as_bytes()),
            strategy: PatchStrategy::Scramble,
        },
    );
    v.push(
        PatchPattern {
            pattern: slice_to_vec("--enable-automation".as_bytes()),
            strategy: PatchStrategy::Nullify,
        },
    );
    v.push(
        PatchPattern {
            pattern: slice_to_vec("devtoolsw".as_bytes()),
            strategy: PatchStrategy::Scramble,
        },
    );
    v.push(
        PatchPattern {
            pattern: slice_to_vec("debuggerPrivate".as_bytes()),
            strategy: PatchStrategy::Scramble,
        },
    );
    v.push(
        PatchPattern {
            pattern: slice_to_vec("HeadlessChrome".as_bytes()),
            strategy: PatchStrategy::Scramble,
        },
    );
    v.push(
        PatchPattern {
            pattern: slice_to_vec("$wdc_".as_bytes()),
            strategy: PatchStrategy::RandomizePrefix,
        },
    );
    v.push(
        PatchPattern {
            pattern: slice_to_vec("$chromeDriver".as_bytes()),
            strategy: PatchStrategy::RandomizePrefix,
        },
    );
    v.push(
        PatchPattern {
            pattern: slice_to_vec("Runtime.enable".as_bytes()),
            strategy: PatchStrategy::Skip,
        },
    );
    v.push(
        PatchPattern {
            pattern: slice_to_vec("Page.addScriptToEvaluateOnNewDocument".as_bytes()),
            strategy: PatchStrategy::Skip,
        },
    );
    v
}

/// Encoding a character sequence takes at most four bytes per
/// character.
proof fn lemma_encode_utf8_len_bound(chars: Seq<char>)
    ensures
        vstd::utf8::encode_utf8(chars).len() <= 4 * chars.len(),
    decreases chars.len(),
{
    if chars.len() > 0 {
        lemma_encode_utf8_len_bound(chars.drop_first());
        assert(vstd::utf8::encode_scalar(chars[0] as u32).len() <= 4);
    }
}

/// Every pattern in the catalogue encodes to at most 256 bytes.
proof fn lemma_catalogue_small()
    ensures
        forall|j: int|
            0 <= j < spec_patterns().len() ==> (#[trigger] spec_patterns()[j].0).len() <= 256,
{
    reveal_strlit("$cdc_");
    reveal_strlit("cdc_");
    reveal_strlit("webdriver");
    reveal_strlit("--enable-automation");
    reveal_strlit("devtoolsw");
    reveal_strlit("debuggerPrivate");
    reveal_strlit("HeadlessChrome");
    reveal_strlit("$wdc_");
    reveal_strlit("$chromeDriver");
    reveal_strlit("Runtime.enable");
    reveal_strlit("Page.addScriptToEvaluateOnNewDocument");
    lemma_encode_utf8_len_bound("$cdc_"@);
    lemma_encode_utf8_len_bound("cdc_"@);
    lemma_encode_utf8_len_bound("webdriver"@);
    lemma_encode_utf8_len_bound("--enable-automation"@);
    lemma_encode_utf8_len_bound("devtoolsw"@);
    lemma_encode_utf8_len_bound("debuggerPrivate"@);
    lemma_encode_utf8_len_bound("HeadlessChrome"@);
    lemma_encode_utf8_len_bound("$wdc_"@);
    lemma_encode_utf8_len_bound("$chromeDriver"@);
    lemma_encode_utf8_len_bound("Runtime.enable"@);
    lemma_encode_utf8_len_bound("Page.addScriptToEvaluateOnNewDocument"@);
}

/// Relies on `AhoCorasick::new` and `AhoCorasick::find_iter` over the
/// given patterns, in one step so the search provably uses the automaton
/// of these patterns. The build fails only when an internal limit is
/// exceeded (the state-id space, sized for hundreds of megabytes of
/// pattern data), which the size precondition rules out. Every reported
/// match cites a pattern index below the pattern count, lies inside the
/// haystack, and spans bytes equal to that pattern; and the
/// non-overlapping scan passes no occurrence by — every occurrence of a
/// non-empty pattern overlaps some reported match.
#[verifier::external_body]
fn find_matches(patterns: &Vec<Vec<u8>>, data: &[u8]) -> (r: Vec<(usize, usize, usize)>)
    requires
        patterns@.len() <= 64,
        forall|i: int| 0 <= i < patterns@.len() ==> (#[trigger] patterns@[i])@.len() <= 256,
    ensures
        forall|i: int|
            0 <= i < r@.len() ==> {
                let (p, s, e) = #[trigger] r@[i];
                &&& (p as int) < patterns@.len()
                &&& s <= e <= data@.len()
                &&& e - s == patterns@[p as int]@.len()
                &&& data@.subrange(s as int, e as int) == patterns@[p as int]@
            },
        forall|p: int, s: int|
            0 <= p < patterns@.len() && 0 < patterns@[p]@.len() && 0 <= s && s
                + patterns@[p]@.len() <= data@.len() && #[trigger] data@.subrange(
                s,
                s + patterns@[p]@.len(),
            ) == patterns@[p]@ ==> exists|i: int|
                0 <= i < r@.len() && ((#[trigger] r@[i]).1 as int) < s + patterns@[p]@.len()
                    && s < (r@[i].2 as int),
{
    match aho_corasick::AhoCorasick::new(patterns) {
        Ok(ac) => ac.find_iter(data).map(|m| (m.pattern().as_usize(), m.start(), m.end())).collect(),
        Err(_) => Vec::new(),
    }
}

/// A byte position that lies inside some occurrence of a catalogued
/// pattern.
pub open spec fn spec_in_patch_site(data: Seq<u8>, k: int) -> bool {
    exists|p: int, s: int|
        {
            &&& 0 <= p < spec_patterns().len()
            &&& 0 <= s
            &&& s + spec_patterns()[p].0.len() <= data.len()
            &&& s <= k < s + spec_patterns()[p].0.len()
            &&& #[trigger] data.subrange(s, s + spec_patterns()[p].0.len()) == spec_patterns()[p].0
        }
}

/// Find every pattern occurrence in a byte buffer: (pattern index,
/// start, end) triples, each spanning exactly that pattern's bytes; and
/// every occurrence of a catalogued pattern overlaps some reported
/// triple.
pub fn find_patch_sites(data: &[u8]) -> (r: Vec<(usize, usize, usize)>)
    ensures
        forall|i: int|
            0 <= i < r@.len() ==> {
                let (p, s, e) = #[trigger] r@[i];
                &&& (p as int) < spec_patterns().len()
                &&& s <= e <= data@.len()
                &&& e - s == spec_patterns()[p as int].0.len()
                &&& data@.subrange(s as int, e as int) == spec_patterns()[p as int].0
            },
        forall|p: int, s: int|
            0 <= p < spec_patterns().len() && 0 < spec_patterns()[p].0.len() && 0 <= s && s
                + spec_patterns()[p].0.len() <= data@.len() && #[trigger] data@.subrange(
                s,
                s + spec_patterns()[p].0.len(),
            ) == spec_patterns()[p].0 ==> exists|i: int|
                0 <= i < r@.len() && ((#[trigger] r@[i]).1 as int) < s + spec_patterns()[p].0.len()
                    && s < (r@[i].2 as int),
{
    let patterns = patch_patterns();
    let mut bytes: Vec<Vec<u8>> = Vec::new();
    let n = patterns.len();
    let mut i: usize = 0;
    while i < n
        invariant
            n == patterns@.len() == spec_patterns().len(),
            forall|j: int|
                0 <= j < patterns@.len() ==> (#[trigger] patterns@[j].pattern)@
                    == spec_patterns()[j].0,
            i <= n,
            bytes@.len() == i,
            forall|j: int| 0 <= j < i ==> (#[trigger] bytes@[j])@ == spec_patterns()[j].0,
        decreases n - i,
    {
        bytes.push(slice_to_vec(patterns[i].pattern.as_slice()));
        i += 1;
    }
    proof {
        lemma_catalogue_small();
    }
    let r = find_matches(&bytes, data);
    proof {
        assert forall|p: int, s: int|
            0 <= p < spec_patterns().len() && 0 < spec_patterns()[p].0.len() && 0 <= s && s
                + spec_patterns()[p].0.len() <= data@.len() && #[trigger] data@.subrange(
                s,
                s + spec_patterns()[p].0.len(),
            ) == spec_patterns()[p].0 implies exists|i: int|
            0 <= i < r@.len() && ((#[trigger] r@[i]).1 as int) < s + spec_patterns()[p].0.len()
                && s < (r@[i].2 as int) by {
            assert((bytes@[p])@ == spec_patterns()[p].0);
            assert(data@.subrange(s, s + (bytes@[p])@.len()) == (bytes@[p])@);
        }
    }
    r
}

/// The position whose original byte a scrambled range shows at offset
/// `k`: adjacent pairs swap; the last byte of an odd-length range (and
/// a range of one) stays put.
pub open spec fn spec_scrambled_index(k: int, len: int) -> int {
    if k % 2 == 0 {
        if k + 1 < len {
            k + 1
        } else {
            k
        }
    } else {
        k - 1
    }
}

/// A span one applied rewrite may cover: an occurrence of a catalogued
/// pattern whose strategy rewrites (detection-only patterns are never
/// applied).
pub open spec fn spec_applied_site(data: Seq<u8>, p: int, s: int, e: int) -> bool {
    &&& 0 <= p < spec_patterns().len()
    &&& 0 <= s <= e <= data.len()
    &&& e - s == spec_patterns()[p].0.len()
    &&& data.subrange(s, e) == spec_patterns()[p].0
    &&& spec_patterns()[p].1 != PatchStrategy::Skip
}

/// What one strategy leaves in its range, relative to the original
/// bytes.
pub open spec fn spec_strategy_effect(
    orig: Seq<u8>,
    now: Seq<u8>,
    p: int,
    s: int,
    e: int,
) -> bool {
    match spec_patterns()[p].1 {
        PatchStrategy::RandomizePrefix => forall|k: int|
            s <= k < e ==> crate::rng::spec_is_lower_alnum_byte(#[trigger] now[k]),
        PatchStrategy::Scramble => forall|k: int|
            0 <= k < e - s ==> #[trigger] now[s + k] == orig[s + spec_scrambled_index(k, e - s)],
        PatchStrategy::Nullify => forall|k: int| s <= k < e ==> #[trigger] now[k] == 32,
        PatchStrategy::Skip => true,
    }
}

/// The ranges of a rewrite list are pairwise disjoint.
pub open spec fn spec_ranges_disjoint(rs: Seq<(int, int, int)>) -> bool {
    forall|i: int, j: int|
        0 <= i < j < rs.len() ==> (#[trigger] rs[i]).2 <= (#[trigger] rs[j]).1 || rs[j].2
            <= rs[i].1
}

/// A position covered by none of the listed ranges.
pub open spec fn spec_outside_all(rs: Seq<(int, int, int)>, k: int) -> bool {
    forall|i: int| 0 <= i < rs.len() ==> !((#[trigger] rs[i]).1 <= k < rs[i].2)
}

/// One full account of a patch run over a byte buffer. `sites` is a
/// faithful and complete match report for the original bytes: every
/// triple cites a pattern whose bytes it spans, and every occurrence of
/// a catalogued pattern overlaps some triple. `applied` is the
/// pairwise-disjoint list of rewrites performed: each an occurrence of
/// a rewriting pattern, counted by `count`, with every byte outside
/// them untouched and every range showing its strategy's effect; and no
/// rewriting site is silently dropped — each is either applied or
/// overlaps an applied range.
pub open spec fn spec_patch_outcome(
    orig: Seq<u8>,
    now: Seq<u8>,
    count: int,
    sites: Seq<(int, int, int)>,
    applied: Seq<(int, int, int)>,
) -> bool {
    &&& now.len() == orig.len()
    &&& (forall|i: int|
        0 <= i < sites.len() ==> {
            let (p, st, en) = #[trigger] sites[i];
            &&& 0 <= p < spec_patterns().len()
            &&& 0 <= st <= en <= orig.len()
            &&& en - st == spec_patterns()[p].0.len()
            &&& orig.subrange(st, en) == spec_patterns()[p].0
        })
    &&& (forall|p: int, st: int|
        0 <= p < spec_patterns().len() && 0 < spec_patterns()[p].0.len() && 0 <= st && st
            + spec_patterns()[p].0.len() <= orig.len() && #[trigger] orig.subrange(
            st,
            st + spec_patterns()[p].0.len(),
        ) == spec_patterns()[p].0 ==> exists|i: int|
            0 <= i < sites.len() && (#[trigger] sites[i]).1 < st + spec_patterns()[p].0.len()
                && st < sites[i].2)
    &&& spec_ranges_disjoint(applied)
    &&& (forall|i: int|
        0 <= i < applied.len() ==> spec_applied_site(
            orig,
            (#[trigger] applied[i]).0,
            applied[i].1,
            applied[i].2,
        ))
    &&& count == applied.len()
    &&& (forall|k: int|
        0 <= k < orig.len() && spec_outside_all(applied, k) ==> now[k] == orig[k])
    &&& (forall|i: int|
        0 <= i < applied.len() ==> spec_strategy_effect(
            orig,
            now,
            (#[trigger] applied[i]).0,
            applied[i].1,
            applied[i].2,
        ))
    &&& (forall|j: int|
        0 <= j < sites.len() && spec_patterns()[(#[trigger] sites[j]).0].1 != PatchStrategy::Skip
            ==> applied.contains(sites[j]) || (exists|i: int|
            0 <= i < applied.len() && (#[trigger] applied[i]).1 < sites[j].2 && sites[j].1
                < applied[i].2))
}

/// Apply the patch catalogue to a byte buffer in place. The length
/// never changes, a byte outside every occurrence of a catalogued
/// pattern is never touched, and a complete match report with a
/// pairwise-disjoint applied-rewrite list accounts for the run: no
/// rewriting site silently dropped, nullified ranges turned to spaces,
/// scrambled ranges pair-swapped, randomized ranges lower-case
/// alphanumeric, `count` the number of applied rewrites. Matches
/// overlapping an applied rewrite are left alone.
#[verifier::loop_isolation(false)]
#[verifier::rlimit(100)]
pub fn apply_patches(data: &mut Vec<u8>) -> (count: usize)
    ensures
        final(data)@.len() == old(data)@.len(),
        forall|k: int|
            0 <= k < old(data)@.len() && !spec_in_patch_site(old(data)@, k) ==> final(data)@[k]
                == old(data)@[k],
        exists|sites: Seq<(int, int, int)>, applied: Seq<(int, int, int)>|
            #[trigger] spec_patch_outcome(old(data)@, final(data)@, count as int, sites, applied),
{
    let sites = find_patch_sites(data.as_slice());
    let patterns = patch_patterns();
    let dlen = data.len();
    let ghost orig = data@;
    let ghost sites_int: Seq<(int, int, int)> = Seq::new(
        sites@.len(),
        |i: int| (sites@[i].0 as int, sites@[i].1 as int, sites@[i].2 as int),
    );
    proof {
        // The reported list is faithful and complete for the original
        // bytes, translated to the spec-level triple list.
        assert forall|i: int| 0 <= i < sites_int.len() implies {
            let (p, st, en) = #[trigger] sites_int[i];
            &&& 0 <= p < spec_patterns().len()
            &&& 0 <= st <= en <= orig.len()
            &&& en - st == spec_patterns()[p].0.len()
            &&& orig.subrange(st, en) == spec_patterns()[p].0
        } by {
            assert(sites_int[i] == (sites@[i].0 as int, sites@[i].1 as int, sites@[i].2 as int));
            assert({
                let (p, st, en) = sites@[i];
                &&& (p as int) < spec_patterns().len()
                &&& st <= en <= orig.len()
                &&& en - st == spec_patterns()[p as int].0.len()
                &&& orig.subrange(st as int, en as int) == spec_patterns()[p as int].0
            });
        }
        assert forall|p: int, st: int|
            0 <= p < spec_patterns().len() && 0 < spec_patterns()[p].0.len() && 0 <= st && st
                + spec_patterns()[p].0.len() <= orig.len() && #[trigger] orig.subrange(
                st,
                st + spec_patterns()[p].0.len(),
            ) == spec_patterns()[p].0 implies exists|i: int|
            0 <= i < sites_int.len() && (#[trigger] sites_int[i]).1 < st
                + spec_patterns()[p].0.len() && st < sites_int[i].2 by {
            let i = choose|i: int|
                0 <= i < sites@.len() && ((#[trigger] sites@[i]).1 as int) < st
                    + spec_patterns()[p].0.len() && st < (sites@[i].2 as int);
            assert(sites_int[i] == (sites@[i].0 as int, sites@[i].1 as int, sites@[i].2 as int));
            assert(0 <= i < sites_int.len() && sites_int[i].1 < st + spec_patterns()[p].0.len()
                && st < sites_int[i].2);
        }
    }
    let ghost mut applied: Seq<(int, int, int)> = Seq::empty();
    let mut patched_ranges: Vec<(usize, usize)> = Vec::new();
    let mut count: usize = 0;
    let n_sites = sites.len();
    let mut m: usize = 0;
    while m < n_sites
        invariant
            n_sites == sites@.len(),
            m <= n_sites,
            dlen == data@.len(),
            data@.len() == orig.len(),
            count == applied.len(),
            count <= m,
            patterns@.len() == spec_patterns().len(),
            forall|j: int|
                0 <= j < patterns@.len() ==> (#[trigger] patterns@[j].pattern)@
                    == spec_patterns()[j].0,
            forall|j: int|
                0 <= j < patterns@.len() ==> #[trigger] patterns@[j].strategy
                    == spec_patterns()[j].1,
            forall|i: int|
                0 <= i < sites@.len() ==> {
                    let (p, s, e) = #[trigger] sites@[i];
                    &&& (p as int) < spec_patterns().len()
                    &&& s <= e <= orig.len()
                    &&& e - s == spec_patterns()[p as int].0.len()
                    &&& orig.subrange(s as int, e as int) == spec_patterns()[p as int].0
                },
            spec_ranges_disjoint(applied),
            forall|i: int|
                0 <= i < applied.len() ==> spec_applied_site(
                    orig,
                    (#[trigger] applied[i]).0,
                    applied[i].1,
                    applied[i].2,
                ),
            patched_ranges@.len() == applied.len(),
            forall|i: int|
                0 <= i < applied.len() ==> ((#[trigger] patched_ranges@[i]).0 as int)
                    == applied[i].1 && (patched_ranges@[i].1 as int) == applied[i].2,
            forall|k: int|
                0 <= k < orig.len() && spec_outside_all(applied, k) ==> data@[k] == orig[k],
            forall|i: int|
                0 <= i < applied.len() ==> spec_strategy_effect(
                    orig,
                    data@,
                    (#[trigger] applied[i]).0,
                    applied[i].1,
                    applied[i].2,
                ),
            forall|j: int|
                0 <= j < m && spec_patterns()[(#[trigger] sites_int[j]).0].1
                    != PatchStrategy::Skip ==> applied.contains(sites_int[j]) || (exists|i: int|
                    0 <= i < applied.len() && (#[trigger] applied[i]).1 < sites_int[j].2
                        && sites_int[j].1 < applied[i].2),
        decreases n_sites - m,
    {
        let (p, start, end) = sites[m];
        let ghost applied0 = applied;
        proof {
            assert(sites@[m as int] == (p, start, end));
            assert({
                let (pp, ss, ee) = sites@[m as int];
                &&& (pp as int) < spec_patterns().len()
                &&& ss <= ee <= orig.len()
                &&& ee - ss == spec_patterns()[pp as int].0.len()
                &&& orig.subrange(ss as int, ee as int) == spec_patterns()[pp as int].0
            });
            assert(sites_int[m as int] == (p as int, start as int, end as int));
        }
        let strategy = patterns[p].strategy;
        let mut overlaps = false;
        let nr = patched_ranges.len();
        let mut q: usize = 0;
        while q < nr
            invariant
                nr == patched_ranges@.len(),
                q <= nr,
                !overlaps ==> forall|t: int|
                    0 <= t < q ==> end <= (#[trigger] patched_ranges@[t]).0
                        || patched_ranges@[t].1 <= start,
                overlaps ==> exists|t: int|
                    0 <= t < nr && start < (#[trigger] patched_ranges@[t]).1 && end
                        > patched_ranges@[t].0,
            decreases nr - q,
        {
            let (ps, pe) = patched_ranges[q];
            if start < pe && end > ps {
                overlaps = true;
            }
            q += 1;
        }
        if !overlaps {
            let plen = end - start;
            let ghost pre = data@;
            let ghost applied_before = applied0;
            proof {
                // The new range is disjoint from every applied range.
                assert forall|i: int|
                    0 <= i < applied_before.len() implies (end as int) <= (
                #[trigger] applied_before[i]).1 || applied_before[i].2 <= (start as int) by {
                    assert(end <= (#[trigger] patched_ranges@[i]).0 || patched_ranges@[i].1
                        <= start);
                    assert((patched_ranges@[i].0 as int) == applied_before[i].1 && (
                    patched_ranges@[i].1 as int) == applied_before[i].2);
                }
                // The new range is an occurrence of its pattern and is
                // disjoint from every applied range, so it still holds
                // the original bytes.
                assert forall|k: int| start <= k < end implies spec_in_patch_site(orig, k) by {
                    assert(orig.subrange(
                        start as int,
                        start + spec_patterns()[p as int].0.len(),
                    ) == spec_patterns()[p as int].0);
                }
                assert forall|k: int| start <= k < end implies spec_outside_all(
                    applied_before,
                    k,
                ) by {
                    assert forall|i: int| 0 <= i < applied_before.len() implies !((
                    #[trigger] applied_before[i]).1 <= k < applied_before[i].2) by {
                        assert((end as int) <= applied_before[i].1 || applied_before[i].2 <= (
                        start as int));
                    }
                }
                assert(forall|k: int| start <= k < end ==> #[trigger] pre[k] == orig[k]);
            }
            match strategy {
                PatchStrategy::RandomizePrefix => {
                    let mut i: usize = 0;
                    while i < plen
                        invariant
                            dlen == data@.len(),
                            start + plen <= dlen,
                            data@.len() == pre.len(),
                            i <= plen,
                            forall|k: int|
                                0 <= k < pre.len() && !(start <= k < start + i) ==> data@[k]
                                    == pre[k],
                            forall|k: int|
                                start <= k < start + i
                                    ==> crate::rng::spec_is_lower_alnum_byte(#[trigger] data@[k]),
                        decreases plen - i,
                    {
                        let b = random_alnum_byte();
                        data.set(start + i, b);
                        i += 1;
                    }
                    count += 1;
                    patched_ranges.push((start, end));
                    proof {
                        applied = applied.push((p as int, start as int, end as int));
                    }
                },
                PatchStrategy::Scramble => {
                    if plen >= 2 {
                        let mut i: usize = 0;
                        while i < plen - 1
                            invariant
                                plen >= 2,
                                dlen == data@.len(),
                                start + plen <= dlen,
                                data@.len() == pre.len(),
                                i <= plen,
                                i % 2 == 0,
                                forall|k: int|
                                    0 <= k < pre.len() && !(start <= k < start + i) ==> data@[k]
                                        == pre[k],
                                forall|k: int|
                                    0 <= k < i ==> #[trigger] data@[start + k] == pre[start
                                        + spec_scrambled_index(k, plen as int)],
                            decreases plen - i,
                        {
                            let a = data[start + i];
                            let b = data[start + i + 1];
                            data.set(start + i, b);
                            data.set(start + i + 1, a);
                            i += 2;
                        }
                        proof {
                            assert forall|k: int| 0 <= k < plen implies #[trigger] data@[start + k]
                                == pre[start + spec_scrambled_index(k, plen as int)] by {
                                if k == plen - 1 && plen % 2 == 1 {
                                    assert(spec_scrambled_index(k, plen as int) == k);
                                }
                            }
                        }
                    } else {
                        proof {
                            assert forall|k: int| 0 <= k < plen implies #[trigger] data@[start + k]
                                == pre[start + spec_scrambled_index(k, plen as int)] by {
                                assert(spec_scrambled_index(k, plen as int) == k);
                            }
                        }
                    }
                    count += 1;
                    patched_ranges.push((start, end));
                    proof {
                        applied = applied.push((p as int, start as int, end as int));
                    }
                },
                PatchStrategy::Nullify => {
                    let mut i: usize = 0;
                    while i < plen
                        invariant
                            dlen == data@.len(),
                            start + plen <= dlen,
                            data@.len() == pre.len(),
                            i <= plen,
                            forall|k: int|
                                0 <= k < pre.len() && !(start <= k < start + i) ==> data@[k]
                                    == pre[k],
                            forall|k: int| start <= k < start + i ==> #[trigger] data@[k] == 32,
                        decreases plen - i,
                    {
                        data.set(start + i, 32);
                        i += 1;
                    }
                    count += 1;
                    patched_ranges.push((start, end));
                    proof {
                        applied = applied.push((p as int, start as int, end as int));
                    }
                },
                PatchStrategy::Skip => {
                    // Detection only: found, reported, never rewritten.
                },
            }
            proof {
                if strategy != PatchStrategy::Skip {
                    assert(applied == applied_before.push((p as int, start as int, end as int)));
                    // Writes stayed inside the new range.
                    assert(forall|k: int|
                        0 <= k < pre.len() && !(start <= k < start + plen) ==> #[trigger] data@[k]
                            == pre[k]);
                    assert forall|k: int|
                        0 <= k < orig.len() && spec_outside_all(applied, k) implies data@[k]
                        == orig[k] by {
                        assert(spec_outside_all(applied_before, k)) by {
                            assert forall|i: int| 0 <= i < applied_before.len() implies !((
                            #[trigger] applied_before[i]).1 <= k < applied_before[i].2) by {
                                assert(applied[i] == applied_before[i]);
                            }
                        }
                        assert(!(start <= k < end)) by {
                            assert(applied[applied.len() - 1] == (p as int, start as int, end
                                as int));
                        }
                        assert(data@[k] == pre[k]);
                        assert(pre[k] == orig[k]);
                    }
                    assert forall|i: int| 0 <= i < applied.len() implies spec_strategy_effect(
                        orig,
                        data@,
                        (#[trigger] applied[i]).0,
                        applied[i].1,
                        applied[i].2,
                    ) by {
                        if i < applied.len() - 1 {
                            assert(applied[i] == applied_before[i]);
                            assert(spec_strategy_effect(orig, pre, applied[i].0, applied[i].1,
                                applied[i].2));
                            assert((end as int) <= applied[i].1 || applied[i].2 <= (start
                                as int));
                            assert(forall|k: int|
                                applied[i].1 <= k < applied[i].2 ==> #[trigger] data@[k]
                                    == pre[k]);
                        } else {
                            assert(applied[i] == (p as int, start as int, end as int));
                        }
                    }
                }
            }
        }
        proof {
            assert forall|j: int|
                0 <= j < m + 1 && spec_patterns()[(#[trigger] sites_int[j]).0].1
                    != PatchStrategy::Skip implies applied.contains(sites_int[j]) || (exists|
            i: int|
                0 <= i < applied.len() && (#[trigger] applied[i]).1 < sites_int[j].2
                    && sites_int[j].1 < applied[i].2) by {
                if j == m {
                    if overlaps {
                        // The match overlapped an already-applied range.
                        let t = choose|t: int|
                            0 <= t < patched_ranges@.len() && start < (
                            #[trigger] patched_ranges@[t]).1 && end > patched_ranges@[t].0;
                        assert(applied[t].1 < sites_int[j].2 && sites_int[j].1 < applied[t].2);
                    } else if strategy != PatchStrategy::Skip {
                        assert(applied[applied.len() - 1] == sites_int[j]);
                        assert(applied.contains(sites_int[j]));
                    } else {
                        assert(spec_patterns()[sites_int[j].0].1 == PatchStrategy::Skip);
                    }
                } else {
                    // Carried over from the previous iterations; pushes
                    // keep every earlier index.
                    if applied0.contains(sites_int[j]) {
                        let i0 = choose|i: int|
                            0 <= i < applied0.len() && applied0[i] == sites_int[j];
                        assert(applied[i0] == sites_int[j]);
                        assert(applied.contains(sites_int[j]));
                    } else {
                        let i0 = choose|i: int|
                            0 <= i < applied0.len() && (#[trigger] applied0[i]).1
                                < sites_int[j].2 && sites_int[j].1 < applied0[i].2;
                        assert(applied[i0] == applied0[i0]);
                    }
                }
            }
        }
        m += 1;
    }
    proof {
        assert forall|k: int|
            0 <= k < orig.len() && !spec_in_patch_site(orig, k) implies data@[k] == orig[k] by {
            assert(spec_outside_all(applied, k)) by {
                assert forall|i: int| 0 <= i < applied.len() implies !((#[trigger] applied[i]).1
                    <= k < applied[i].2) by {
                    if applied[i].1 <= k < applied[i].2 {
                        assert(orig.subrange(
                            applied[i].1,
                            applied[i].1 + spec_patterns()[applied[i].0].0.len(),
                        ) == spec_patterns()[applied[i].0].0);
                        assert(spec_in_patch_site(orig, k));
                    }
                }
            }
        }
        assert(spec_patch_outcome(orig, data@, count as int, sites_int, applied));
    }
    count
}

} // verus!
