//! Lists of ids, in the order in which the ids were added.

use vstd::prelude::*;
use crate::common::text::str_equal;

verus! {

/// Whether `key` is among the ids.
pub open spec fn listed(ids: Seq<String>, key: Seq<char>) -> bool {
    exists|i: int| 0 <= i < ids.len() && (#[trigger] ids[i])@ == key
}

/// The ids without every occurrence of `key`, in the same order.
pub open spec fn without(ids: Seq<String>, key: Seq<char>) -> Seq<String>
    decreases ids.len(),
{
    if ids.len() == 0 {
        ids
    } else if ids.last()@ == key {
        without(ids.drop_last(), key)
    } else {
        without(ids.drop_last(), key).push(ids.last())
    }
}

/// What is left after the removal holds no `key`, and holds every other id
/// that was there.
pub proof fn lemma_without(ids: Seq<String>, key: Seq<char>)
    ensures
        !listed(without(ids, key), key),
        forall|k: Seq<char>| k != key ==> listed(without(ids, key), k) == listed(ids, k),
        without(ids, key).len() <= ids.len(),
    decreases ids.len(),
{
    if ids.len() > 0 {
        let front = ids.drop_last();
        lemma_without(front, key);
        let w = without(ids, key);
        let wf = without(front, key);
        if listed(w, key) {
            let i = choose|i: int| 0 <= i < w.len() && (#[trigger] w[i])@ == key;
            if ids.last()@ == key || i < wf.len() {
                assert(wf[i]@ == key);
            }
        }
        assert forall|k: Seq<char>| k != key implies listed(w, k) == listed(ids, k) by {
            if listed(ids, k) {
                let i = choose|i: int| 0 <= i < ids.len() && (#[trigger] ids[i])@ == k;
                if i < front.len() {
                    assert(front[i]@ == k);
                    assert(listed(front, k));
                    assert(listed(wf, k));
                    let j = choose|j: int| 0 <= j < wf.len() && (#[trigger] wf[j])@ == k;
                    assert(w[j]@ == k);
                } else {
                    assert(w[w.len() - 1]@ == k);
                }
            }
            if listed(w, k) {
                let j = choose|j: int| 0 <= j < w.len() && (#[trigger] w[j])@ == k;
                if j < wf.len() {
                    assert(wf[j]@ == k);
                    assert(listed(wf, k));
                    assert(listed(front, k));
                    let i = choose|i: int| 0 <= i < front.len() && (#[trigger] front[i])@ == k;
                    assert(ids[i]@ == k);
                } else {
                    assert(ids[ids.len() - 1]@ == k);
                }
            }
        }
    }
}

/// Whether `key` is among the ids.
pub fn contains_id(ids: &Vec<String>, key: &str) -> (r: bool)
    ensures
        r == listed(ids@, key@),
{
    let mut i: usize = 0;
    while i < ids.len()
        invariant
            i <= ids@.len(),
            forall|j: int| 0 <= j < i ==> (#[trigger] ids@[j])@ != key@,
        decreases ids@.len() - i,
    {
        if str_equal(ids[i].as_str(), key) {
            return true;
        }
        i += 1;
    }
    false
}

/// Removes every occurrence of `key`; the other ids keep their order.
pub fn remove_id(ids: &mut Vec<String>, key: &str)
    ensures
        final(ids)@ == without(old(ids)@, key@),
{
    let mut kept: Vec<String> = Vec::new();
    let mut i: usize = 0;
    let n = ids.len();
    while i < n
        invariant
            n == ids@.len(),
            i <= n,
            ids@ == old(ids)@,
            kept@ == without(ids@.subrange(0, i as int), key@),
        decreases n - i,
    {
        proof {
            assert(ids@.subrange(0, i + 1).drop_last() =~= ids@.subrange(0, i as int));
        }
        if !str_equal(ids[i].as_str(), key) {
            kept.push(ids[i].clone());
        }
        i += 1;
    }
    proof {
        assert(ids@.subrange(0, n as int) =~= ids@);
    }
    *ids = kept;
}

/// A copy of the ids.
pub fn clone_ids(ids: &Vec<String>) -> (r: Vec<String>)
    ensures
        r@ == ids@,
{
    let mut out: Vec<String> = Vec::new();
    let mut i: usize = 0;
    while i < ids.len()
        invariant
            i <= ids@.len(),
            out@ == ids@.subrange(0, i as int),
        decreases ids@.len() - i,
    {
        out.push(ids[i].clone());
        i += 1;
        proof {
            assert(out@ =~= ids@.subrange(0, i as int));
        }
    }
    proof {
        assert(ids@.subrange(0, ids@.len() as int) =~= ids@);
    }
    out
}

} // verus!

