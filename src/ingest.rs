//! Mempool ingestion: a transaction hash is forwarded downstream the first
//! time it is seen and dropped every time after.
use vstd::prelude::*;
use std::collections::HashMap;
use ethers::types::H256;
use crate::eth::same_hash;

verus! {

broadcast use vstd::std_specs::hash::group_hash_axioms;

/// The bucket of a hash: its first eight bytes, little-endian.
pub open spec fn fingerprint(h: H256) -> u64 {
    (h.0[0] as u64) | ((h.0[1] as u64) << 8u64) | ((h.0[2] as u64) << 16u64) | ((h.0[3] as u64)
        << 24u64) | ((h.0[4] as u64) << 32u64) | ((h.0[5] as u64) << 40u64) | ((h.0[6] as u64)
        << 48u64) | ((h.0[7] as u64) << 56u64)
}

fn fingerprint_of(h: &H256) -> (r: u64)
    ensures
        r == fingerprint(*h),
{
    (h.0[0] as u64) | ((h.0[1] as u64) << 8u64) | ((h.0[2] as u64) << 16u64) | ((h.0[3] as u64)
        << 24u64) | ((h.0[4] as u64) << 32u64) | ((h.0[5] as u64) << 40u64) | ((h.0[6] as u64)
        << 48u64) | ((h.0[7] as u64) << 56u64)
}

/// The hashes that buckets keyed by fingerprint hold.
pub open spec fn bucketed(m: Map<u64, Vec<H256>>) -> Set<H256> {
    Set::new(|h: H256| m.contains_key(fingerprint(h)) && m[fingerprint(h)]@.contains(h))
}

/// The transaction hashes seen so far, for the life of the process.
#[derive(Debug)]
pub struct SeenTransactions {
    buckets: HashMap<u64, Vec<H256>>,
}

/// The set of hashes seen before the stream together with those in it.
pub open spec fn seen_after(seen: Set<H256>, stream: Seq<H256>) -> Set<H256> {
    Set::new(|h: H256| seen.contains(h) || stream.contains(h))
}

/// The hashes of `stream` that are forwarded downstream, in order, when
/// `seen` had been seen before it: each one that was not seen earlier.
pub open spec fn forwarded(seen: Set<H256>, stream: Seq<H256>) -> Seq<H256>
    decreases stream.len(),
{
    if stream.len() == 0 {
        seq![]
    } else {
        let earlier = stream.drop_last();
        let prev = forwarded(seen, earlier);
        if seen_after(seen, earlier).contains(stream.last()) {
            prev
        } else {
            prev.push(stream.last())
        }
    }
}

/// Forwarding is at most once per hash: a hash is forwarded from a stream
/// exactly when it occurs in the stream and was not seen before, and no hash
/// is forwarded twice (so a hash submitted twice is forwarded once).
pub proof fn lemma_forwarded_once(seen: Set<H256>, stream: Seq<H256>)
    ensures
        forwarded(seen, stream).no_duplicates(),
        forall|h: H256|
            #[trigger] forwarded(seen, stream).contains(h) <==> (!seen.contains(h)
                && stream.contains(h)),
    decreases stream.len(),
{
    if stream.len() > 0 {
        let earlier = stream.drop_last();
        let last = stream.last();
        lemma_forwarded_once(seen, earlier);
        let prev = forwarded(seen, earlier);
        assert forall|h: H256| stream.contains(h) <==> (earlier.contains(h) || h == last) by {
            if stream.contains(h) {
                let i = choose|i: int| 0 <= i < stream.len() && stream[i] == h;
                if i < stream.len() - 1 {
                    assert(earlier[i] == h);
                }
            }
            if earlier.contains(h) {
                let i = choose|i: int| 0 <= i < earlier.len() && earlier[i] == h;
                assert(stream[i] == h);
            }
            if h == last {
                assert(stream[stream.len() - 1] == h);
            }
        }
        if !seen_after(seen, earlier).contains(last) {
            assert forall|h: H256| #[trigger] prev.push(last).contains(h) <==> (prev.contains(h)
                || h == last) by {
                if prev.push(last).contains(h) {
                    let i = choose|i: int| 0 <= i < prev.len() + 1 && prev.push(last)[i] == h;
                    if i < prev.len() {
                        assert(prev[i] == h);
                    }
                }
                if prev.contains(h) {
                    let i = choose|i: int| 0 <= i < prev.len() && prev[i] == h;
                    assert(prev.push(last)[i] == h);
                }
                if h == last {
                    assert(prev.push(last)[prev.len() as int] == h);
                }
            }
            assert forall|i: int, j: int|
                0 <= i < prev.push(last).len() && 0 <= j < prev.push(last).len() && i != j
                    implies prev.push(last)[i] != prev.push(last)[j] by {
                if i == prev.len() {
                    assert(!prev.contains(last));
                    assert(prev[j] == prev.push(last)[j]);
                } else if j == prev.len() {
                    assert(!prev.contains(last));
                    assert(prev[i] == prev.push(last)[i]);
                }
            }
        }
    }
}

impl View for SeenTransactions {
    type V = Set<H256>;

    closed spec fn view(&self) -> Set<H256> {
        bucketed(self.buckets@)
    }
}

impl SeenTransactions {
    /// Nothing seen yet.
    pub fn new() -> (r: SeenTransactions)
        ensures
            r@ == Set::<H256>::empty(),
    {
        let r = SeenTransactions { buckets: HashMap::new() };
        assert(r@ =~= Set::<H256>::empty());
        r
    }

    /// Whether the hash was seen.
    pub fn contains(&self, h: &H256) -> (r: bool)
        ensures
            r == self@.contains(*h),
    {
        let key = fingerprint_of(h);
        match self.buckets.get(&key) {
            None => false,
            Some(bucket) => {
                let mut i: usize = 0;
                while i < bucket.len()
                    invariant
                        key == fingerprint(*h),
                        self.buckets@.contains_key(key),
                        self.buckets@[key] == *bucket,
                        i <= bucket@.len(),
                        forall|j: int| 0 <= j < i ==> bucket@[j] != *h,
                    decreases bucket@.len() - i,
                {
                    if same_hash(&bucket[i], h) {
                        assert(bucket@[i as int] == *h);
                        return true;
                    }
                    i = i + 1;
                }
                false
            },
        }
    }

    /// Records the hash; whether it was new, that is, whether the
    /// transaction goes downstream.
    pub fn observe(&mut self, h: H256) -> (fresh: bool)
        ensures
            fresh == !old(self)@.contains(h),
            final(self)@ == old(self)@.insert(h),
    {
        if self.contains(&h) {
            assert(self@ =~= old(self)@.insert(h));
            return false;
        }
        let key = fingerprint_of(&h);
        let ghost old_map = self.buckets@;
        let mut bucket = match self.buckets.remove(&key) {
            Some(b) => b,
            None => Vec::new(),
        };
        let ghost old_bucket = bucket@;
        bucket.push(h);
        self.buckets.insert(key, bucket);
        proof {
            assert forall|x: H256| #[trigger] self@.contains(x) == old(self)@.insert(h).contains(x) by {
                if fingerprint(x) == key {
                    assert(bucket@ == old_bucket.push(h));
                    if old_bucket.contains(x) {
                        let i = choose|i: int| 0 <= i < old_bucket.len() && old_bucket[i] == x;
                        assert(bucket@[i] == x);
                    }
                    if bucket@.contains(x) && x != h {
                        let i = choose|i: int| 0 <= i < bucket@.len() && bucket@[i] == x;
                        assert(old_bucket[i] == x);
                    }
                    assert(bucket@[old_bucket.len() as int] == h);
                }
            }
            assert(self@ =~= old(self)@.insert(h));
        }
        true
    }

    /// Records a stream of hashes in order and returns those that go
    /// downstream: each hash not seen before, once.
    pub fn observe_all(&mut self, stream: &Vec<H256>) -> (out: Vec<H256>)
        ensures
            out@ == forwarded(old(self)@, stream@),
            final(self)@ == seen_after(old(self)@, stream@),
    {
        let ghost seen = self@;
        let mut out: Vec<H256> = Vec::new();
        let mut i: usize = 0;
        assert(self@ =~= seen_after(seen, stream@.subrange(0, 0)));
        while i < stream.len()
            invariant
                i <= stream@.len(),
                out@ == forwarded(seen, stream@.subrange(0, i as int)),
                self@ == seen_after(seen, stream@.subrange(0, i as int)),
            decreases stream@.len() - i,
        {
            let h = stream[i];
            let ghost prefix = stream@.subrange(0, i as int);
            let ghost next = stream@.subrange(0, i + 1);
            assert(next.drop_last() =~= prefix);
            assert(next.last() == h);
            if self.observe(h) {
                out.push(h);
            }
            proof {
                assert forall|x: H256| #[trigger] next.contains(x) <==> (prefix.contains(x) || x == h) by {
                    if next.contains(x) {
                        let k = choose|k: int| 0 <= k < next.len() && next[k] == x;
                        if k < i {
                            assert(prefix[k] == x);
                        }
                    }
                    if prefix.contains(x) {
                        let k = choose|k: int| 0 <= k < prefix.len() && prefix[k] == x;
                        assert(next[k] == x);
                    }
                    if x == h {
                        assert(next[i as int] == x);
                    }
                }
                assert(self@ =~= seen_after(seen, next));
            }
            i = i + 1;
        }
        assert(stream@.subrange(0, stream@.len() as int) =~= stream@);
        out
    }
}

} // verus!
