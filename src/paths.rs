//! Candidate arbitrage paths: every cycle that leaves a base token, passes
//! through distinct intermediate tokens and returns, within a hop budget.
use vstd::prelude::*;
use ethers::types::H160;
use crate::decoder::copy_path;
use crate::eth::same_address;

verus! {

/// `w` starts at `base` and then visits distinct tokens of `tokens`, none
/// of them `base`.
pub open spec fn is_walk(w: Seq<H160>, base: H160, tokens: Seq<H160>) -> bool {
    &&& w.len() >= 1
    &&& w[0] == base
    &&& forall|i: int| 1 <= i < w.len() ==> tokens.contains(#[trigger] w[i]) && w[i] != base
    &&& forall|i: int, j: int| 1 <= i < j < w.len() ==> #[trigger] w[i] != #[trigger] w[j]
}

/// `p` is an arbitrage cycle: a walk from `base` through at least one
/// intermediate token, back to `base`, of at most `depth` hops.
pub open spec fn is_cycle(p: Seq<H160>, base: H160, tokens: Seq<H160>, depth: nat) -> bool {
    &&& 3 <= p.len() <= depth + 1
    &&& p.last() == base
    &&& is_walk(p.drop_last(), base, tokens)
}

/// Some path of `v` is `p`.
pub open spec fn has_path(v: Seq<Vec<H160>>, p: Seq<H160>) -> bool {
    exists|k: int| 0 <= k < v.len() && (#[trigger] v[k])@ == p
}

proof fn lemma_has_path_push(v: Seq<Vec<H160>>, x: Vec<H160>, p: Seq<H160>)
    ensures
        has_path(v, p) ==> has_path(v.push(x), p),
        x@ == p ==> has_path(v.push(x), p),
{
    if has_path(v, p) {
        let k = choose|k: int| 0 <= k < v.len() && (#[trigger] v[k])@ == p;
        assert(v.push(x)[k] == v[k]);
    }
    if x@ == p {
        assert(v.push(x)[v.len() as int] == x);
    }
}

fn path_contains(path: &Vec<H160>, t: &H160) -> (r: bool)
    ensures
        r == path@.contains(*t),
{
    let mut i: usize = 0;
    while i < path.len()
        invariant
            i <= path@.len(),
            forall|j: int| 0 <= j < i ==> path@[j] != *t,
        decreases path@.len() - i,
    {
        if same_address(&path[i], t) {
            assert(path@[i as int] == *t);
            return true;
        }
        i = i + 1;
    }
    false
}

/// Every walk of `len + 1` tokens that extends a walk of `layer` by one token.
fn extend_walks(layer: &Vec<Vec<H160>>, tokens: &Vec<H160>, base: H160, len: Ghost<nat>) -> (r: Vec<Vec<H160>>)
    requires
        forall|i: int| 0 <= i < layer@.len() ==> is_walk((#[trigger] layer@[i])@, base, tokens@) && layer@[i]@.len() == len@,
    ensures
        forall|i: int| 0 <= i < r@.len() ==> is_walk((#[trigger] r@[i])@, base, tokens@) && r@[i]@.len() == len@ + 1,
        forall|w: Seq<H160>|
            is_walk(w, base, tokens@) && w.len() == len@ + 1 && has_path(layer@, w.drop_last())
                ==> #[trigger] has_path(r@, w),
{
    let mut out: Vec<Vec<H160>> = Vec::new();
    let mut i: usize = 0;
    while i < layer.len()
        invariant
            i <= layer@.len(),
            forall|i: int| 0 <= i < layer@.len() ==> is_walk((#[trigger] layer@[i])@, base, tokens@) && layer@[i]@.len() == len@,
            forall|k: int| 0 <= k < out@.len() ==> is_walk((#[trigger] out@[k])@, base, tokens@) && out@[k]@.len() == len@ + 1,
            forall|a: int, t: H160|
                0 <= a < i && tokens@.contains(t) && t != base && !layer@[a]@.contains(t)
                    ==> #[trigger] has_path(out@, layer@[a]@.push(t)),
        decreases layer@.len() - i,
    {
        let walk = &layer[i];
        let mut j: usize = 0;
        while j < tokens.len()
            invariant
                i < layer@.len(),
                *walk == layer@[i as int],
                is_walk(walk@, base, tokens@),
                walk@.len() == len@,
                j <= tokens@.len(),
                forall|k: int| 0 <= k < out@.len() ==> is_walk((#[trigger] out@[k])@, base, tokens@) && out@[k]@.len() == len@ + 1,
                forall|a: int, t: H160|
                    0 <= a < i && tokens@.contains(t) && t != base && !layer@[a]@.contains(t)
                        ==> #[trigger] has_path(out@, layer@[a]@.push(t)),
                forall|b: int|
                    0 <= b < j && tokens@[b] != base && !walk@.contains(tokens@[b])
                        ==> #[trigger] has_path(out@, walk@.push(tokens@[b])),
            decreases tokens@.len() - j,
        {
            let t = tokens[j];
            if !same_address(&t, &base) && !path_contains(walk, &t) {
                let mut next = copy_path(walk);
                next.push(t);
                let ghost before = out@;
                proof {
                    assert(tokens@[j as int] == t);
                    assert forall|x: int| 1 <= x < next@.len() implies tokens@.contains(#[trigger] next@[x])
                        && next@[x] != base by {
                        if x < walk@.len() {
                            assert(next@[x] == walk@[x]);
                        }
                    }
                    assert forall|x: int, y: int| 1 <= x < y < next@.len() implies #[trigger] next@[x]
                        != #[trigger] next@[y] by {
                        if y == walk@.len() {
                            assert(next@[x] == walk@[x]);
                        } else {
                            assert(next@[x] == walk@[x] && next@[y] == walk@[y]);
                        }
                    }
                }
                out.push(next);
                proof {
                    assert forall|a: int, s: H160|
                        0 <= a < i && tokens@.contains(s) && s != base && !layer@[a]@.contains(s)
                            implies #[trigger] has_path(out@, layer@[a]@.push(s)) by {
                        lemma_has_path_push(before, out@.last(), layer@[a]@.push(s));
                        assert(out@ == before.push(out@.last()));
                    }
                    assert forall|b: int|
                        0 <= b <= j && tokens@[b] != base && !walk@.contains(tokens@[b])
                            implies #[trigger] has_path(out@, walk@.push(tokens@[b])) by {
                        lemma_has_path_push(before, out@.last(), walk@.push(tokens@[b]));
                        assert(out@ == before.push(out@.last()));
                    }
                }
            }
            j = j + 1;
        }
        proof {
            assert forall|a: int, t: H160|
                0 <= a < i + 1 && tokens@.contains(t) && t != base && !layer@[a]@.contains(t)
                    implies #[trigger] has_path(out@, layer@[a]@.push(t)) by {
                if a == i {
                    let b = choose|b: int| 0 <= b < tokens@.len() && tokens@[b] == t;
                    assert(has_path(out@, walk@.push(tokens@[b])));
                }
            }
        }
        i = i + 1;
    }
    proof {
        assert forall|w: Seq<H160>|
            is_walk(w, base, tokens@) && w.len() == len@ + 1 && has_path(layer@, w.drop_last())
                implies #[trigger] has_path(out@, w) by {
            let a = choose|a: int| 0 <= a < layer@.len() && (#[trigger] layer@[a])@ == w.drop_last();
            let t = w.last();
            assert(w =~= w.drop_last().push(t));
            assert(tokens@.contains(w[w.len() - 1]));
            assert(!layer@[a]@.contains(t)) by {
                if layer@[a]@.contains(t) {
                    let x = choose|x: int| 0 <= x < layer@[a]@.len() && layer@[a]@[x] == t;
                    if x == 0 {
                        assert(w[0] == base);
                    } else {
                        assert(w[x] == t);
                        assert(w[x] != w[w.len() - 1]);
                    }
                }
            }
        }
    }
    out
}

proof fn lemma_walk_prefix(w: Seq<H160>, base: H160, tokens: Seq<H160>)
    requires
        is_walk(w, base, tokens),
        w.len() >= 2,
    ensures
        is_walk(w.drop_last(), base, tokens),
{
    let p = w.drop_last();
    assert forall|i: int| 1 <= i < p.len() implies tokens.contains(#[trigger] p[i]) && p[i] != base by {
        assert(p[i] == w[i]);
    }
    assert forall|i: int, j: int| 1 <= i < j < p.len() implies #[trigger] p[i] != #[trigger] p[j] by {
        assert(p[i] == w[i] && p[j] == w[j]);
    }
}

/// Every arbitrage cycle from `base` through distinct tokens of `tokens`,
/// of at most `depth` hops.
pub fn generate_arbitrage_paths(base: H160, tokens: &Vec<H160>, depth: usize) -> (r: Vec<Vec<H160>>)
    ensures
        forall|i: int| 0 <= i < r@.len() ==> is_cycle((#[trigger] r@[i])@, base, tokens@, depth as nat),
        forall|p: Seq<H160>| is_cycle(p, base, tokens@, depth as nat) ==> #[trigger] has_path(r@, p),
{
    let mut first: Vec<H160> = Vec::new();
    first.push(base);
    let mut layer: Vec<Vec<H160>> = Vec::new();
    layer.push(first);
    let mut len: usize = 1;
    let mut out: Vec<Vec<H160>> = Vec::new();
    proof {
        assert forall|w: Seq<H160>| is_walk(w, base, tokens@) && w.len() == 1 implies #[trigger] has_path(layer@, w) by {
            assert(layer@[0]@ =~= w);
        }
    }
    while len < depth
        invariant
            1 <= len <= depth || (len == 1 && depth < 1),
            forall|i: int| 0 <= i < layer@.len() ==> is_walk((#[trigger] layer@[i])@, base, tokens@) && layer@[i]@.len() == len,
            forall|w: Seq<H160>| is_walk(w, base, tokens@) && w.len() == len ==> #[trigger] has_path(layer@, w),
            forall|i: int| 0 <= i < out@.len() ==> is_cycle((#[trigger] out@[i])@, base, tokens@, depth as nat),
            forall|p: Seq<H160>|
                is_cycle(p, base, tokens@, depth as nat) && p.len() <= len + 1 ==> #[trigger] has_path(out@, p),
        decreases depth - len,
    {
        let next = extend_walks(&layer, tokens, base, Ghost((len as nat)));
        proof {
            assert forall|w: Seq<H160>| is_walk(w, base, tokens@) && w.len() == len + 1 implies #[trigger] has_path(next@, w) by {
                lemma_walk_prefix(w, base, tokens@);
                assert(has_path(layer@, w.drop_last()));
            }
        }
        let mut k: usize = 0;
        while k < next.len()
            invariant
                1 <= len < depth,
                k <= next@.len(),
                forall|i: int| 0 <= i < next@.len() ==> is_walk((#[trigger] next@[i])@, base, tokens@) && next@[i]@.len() == len + 1,
                forall|i: int| 0 <= i < out@.len() ==> is_cycle((#[trigger] out@[i])@, base, tokens@, depth as nat),
                forall|p: Seq<H160>|
                    is_cycle(p, base, tokens@, depth as nat) && p.len() <= len + 1 ==> #[trigger] has_path(out@, p),
                forall|x: int| 0 <= x < k ==> #[trigger] has_path(out@, next@[x]@.push(base)),
            decreases next@.len() - k,
        {
            let mut cycle = copy_path(&next[k]);
            cycle.push(base);
            let ghost before = out@;
            proof {
                assert(cycle@.drop_last() =~= next@[k as int]@);
            }
            out.push(cycle);
            proof {
                assert(out@ == before.push(out@.last()));
                assert forall|p: Seq<H160>|
                    is_cycle(p, base, tokens@, depth as nat) && p.len() <= len + 1 implies #[trigger] has_path(out@, p) by {
                    lemma_has_path_push(before, out@.last(), p);
                }
                assert forall|x: int| 0 <= x < k + 1 implies #[trigger] has_path(out@, next@[x]@.push(base)) by {
                    lemma_has_path_push(before, out@.last(), next@[x]@.push(base));
                }
            }
            k = k + 1;
        }
        proof {
            assert forall|p: Seq<H160>|
                is_cycle(p, base, tokens@, depth as nat) && p.len() <= len + 2 implies #[trigger] has_path(out@, p) by {
                if p.len() == len + 2 {
                    let w = p.drop_last();
                    assert(has_path(next@, w));
                    let x = choose|x: int| 0 <= x < next@.len() && (#[trigger] next@[x])@ == w;
                    assert(has_path(out@, next@[x]@.push(base)));
                    assert(p =~= w.push(base));
                }
            }
        }
        layer = next;
        len = len + 1;
    }
    proof {
        assert forall|p: Seq<H160>| is_cycle(p, base, tokens@, depth as nat) implies #[trigger] has_path(out@, p) by {
            assert(p.len() <= len + 1);
        }
    }
    out
}

} // verus!
