//! String key/value association lists, looked up by the first matching key.
//!
//! The capability registry of a module and the per-module configuration
//! table are both small maps with string keys; they are held as vectors of
//! pairs, read through [`lookup`] and written through [`upsert`].

use vstd::prelude::*;
use vstd::string::StringExecFns;

use crate::text::str_eq;

verus! {

/// The position of the first pair whose key reads `k`, or the list's length
/// when no key does.
pub open spec fn spec_key_index(ps: Seq<(String, String)>, k: Seq<char>) -> int
    decreases ps.len(),
{
    if ps.len() == 0 {
        0
    } else if ps[0].0@ == k {
        0
    } else {
        1 + spec_key_index(ps.skip(1), k)
    }
}

/// The value under the first matching key, if any key matches.
pub open spec fn spec_lookup(ps: Seq<(String, String)>, k: Seq<char>) -> Option<Seq<char>> {
    if spec_key_index(ps, k) < ps.len() {
        Some(ps[spec_key_index(ps, k)].1@)
    } else {
        None
    }
}

/// `spec_key_index` is a position in the list or its length; every earlier
/// key differs, and when it is a position, that pair's key matches.
pub proof fn lemma_key_index(ps: Seq<(String, String)>, k: Seq<char>)
    ensures
        0 <= spec_key_index(ps, k) <= ps.len(),
        forall|j: int| 0 <= j < spec_key_index(ps, k) ==> (#[trigger] ps[j]).0@ != k,
        spec_key_index(ps, k) < ps.len() ==> ps[spec_key_index(ps, k)].0@ == k,
    decreases ps.len(),
{
    if ps.len() == 0 {
    } else if ps[0].0@ == k {
    } else {
        lemma_key_index(ps.skip(1), k);
        assert forall|j: int| 0 <= j < spec_key_index(ps, k) implies (#[trigger] ps[j]).0@
            != k by {
            if j > 0 {
                assert(ps.skip(1)[j - 1] == ps[j]);
            }
        }
        assert(spec_key_index(ps, k) < ps.len() ==> ps.skip(1)[spec_key_index(ps, k) - 1]
            == ps[spec_key_index(ps, k)]);
    }
}

/// A position whose key matches, with no earlier match, is the key's index.
pub proof fn lemma_key_index_hit(ps: Seq<(String, String)>, k: Seq<char>, i: int)
    requires
        0 <= i < ps.len(),
        ps[i].0@ == k,
        forall|j: int| 0 <= j < i ==> (#[trigger] ps[j]).0@ != k,
    ensures
        spec_key_index(ps, k) == i,
    decreases ps.len(),
{
    if i == 0 {
    } else {
        assert(ps[0].0@ != k);
        assert(ps.skip(1)[i - 1] == ps[i]);
        assert(forall|j: int| 0 <= j < i - 1 ==> (#[trigger] ps.skip(1)[j]) == ps[j + 1]);
        lemma_key_index_hit(ps.skip(1), k, i - 1);
    }
}

/// When no key matches, the key's index is the list's length.
pub proof fn lemma_key_index_none(ps: Seq<(String, String)>, k: Seq<char>)
    requires
        forall|j: int| 0 <= j < ps.len() ==> (#[trigger] ps[j]).0@ != k,
    ensures
        spec_key_index(ps, k) == ps.len(),
    decreases ps.len(),
{
    if ps.len() > 0 {
        assert(forall|j: int| 0 <= j < ps.skip(1).len() ==> (#[trigger] ps.skip(1)[j]) == ps[j
            + 1]);
        lemma_key_index_none(ps.skip(1), k);
    }
}

/// The value under the first pair whose key reads `key`, cloned, or `None`.
pub fn lookup(ps: &Vec<(String, String)>, key: &str) -> (r: Option<String>)
    ensures
        r matches Some(v) ==> spec_lookup(ps@, key@) == Some(v@),
        r is None <==> spec_lookup(ps@, key@) is None,
{
    let mut i: usize = 0;
    while i < ps.len()
        invariant
            i <= ps@.len(),
            forall|j: int| 0 <= j < i ==> (#[trigger] ps@[j]).0@ != key@,
        decreases ps@.len() - i,
    {
        if str_eq(ps[i].0.as_str(), key) {
            proof {
                lemma_key_index_hit(ps@, key@, i as int);
            }
            return Some(ps[i].1.clone());
        }
        i += 1;
    }
    proof {
        lemma_key_index_none(ps@, key@);
    }
    None
}

/// Sets the value under a key: the first pair whose key matches is replaced,
/// every other pair is kept in place; with no match, the pair is appended.
pub fn upsert(ps: &mut Vec<(String, String)>, key: String, value: String)
    ensures
        ({
            let old_ps = old(ps)@;
            let new_ps = final(ps)@;
            let i = spec_key_index(old_ps, key@);
            &&& (i < old_ps.len() ==> new_ps.len() == old_ps.len() && new_ps[i] == (key, value)
                && (forall|j: int| 0 <= j < old_ps.len() && j != i ==> new_ps[j] == old_ps[j]))
            &&& (i >= old_ps.len() ==> new_ps == old_ps.push((key, value)))
        }),
{
    let mut i: usize = 0;
    while i < ps.len()
        invariant
            i <= ps@.len(),
            ps@ == old(ps)@,
            forall|j: int| 0 <= j < i ==> (#[trigger] ps@[j]).0@ != key@,
        decreases ps@.len() - i,
    {
        if str_eq(ps[i].0.as_str(), key.as_str()) {
            proof {
                lemma_key_index_hit(ps@, key@, i as int);
            }
            ps.set(i, (key, value));
            return ;
        }
        i += 1;
    }
    proof {
        lemma_key_index_none(ps@, key@);
    }
    ps.push((key, value));
}

} // verus!
