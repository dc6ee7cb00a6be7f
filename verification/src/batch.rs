//! The mini-batches of an epoch: the order in which the training examples
//! are visited, and the consecutive runs of that order that are trained on
//! together. A run that the examples do not fill is kept, shorter than the
//! others, so that every example is trained on once in every epoch.

use vstd::prelude::*;

verus! {

/// A mini-batch was asked to hold no example.
#[derive(Debug, Clone, Copy, PartialEq, Eq, Structural)]
pub struct ZeroBatchSize;

/// The number of mini-batches of `size` examples that `n` examples fill,
/// the last of them possibly in part.
pub open spec fn batch_count(n: int, size: int) -> int
    recommends
        0 <= n,
        0 < size,
{
    (n + size - 1) / size
}

/// The position at which mini-batch `k` starts.
pub open spec fn batch_start(size: int, k: int) -> int {
    k * size
}

/// The position before which mini-batch `k` ends.
pub open spec fn batch_end(n: int, size: int, k: int) -> int {
    if k * size + size <= n {
        k * size + size
    } else {
        n
    }
}

/// The mini-batches partition the positions `0..n`: they are
/// `batch_count(n, size)` non-empty runs of at most `size` positions, the
/// first starts at 0, each starts where the one before it ends, the last
/// ends at `n`, and position `i` lies in mini-batch `i / size` and in no
/// other.
pub proof fn lemma_batches_partition(n: int, size: int)
    requires
        0 <= n,
        0 < size,
    ensures
        0 <= batch_count(n, size),
        n == 0 <==> batch_count(n, size) == 0,
        forall|k: int|
            0 <= k < batch_count(n, size) ==> {
                &&& batch_start(size, k) < #[trigger] batch_end(n, size, k) <= n
                &&& batch_end(n, size, k) - batch_start(size, k) <= size
                &&& batch_end(n, size, k) == batch_start(size, k + 1) || k + 1 == batch_count(
                    n,
                    size,
                )
            },
        n > 0 ==> batch_end(n, size, batch_count(n, size) - 1) == n,
        forall|i: int, k: int|
            0 <= i < n && 0 <= k < batch_count(n, size) ==> (batch_start(size, k) <= i
                < #[trigger] batch_end(n, size, k) <==> k == #[trigger] (i / size)),
        forall|i: int| 0 <= i < n ==> 0 <= #[trigger] (i / size) < batch_count(n, size),
{
    let count = batch_count(n, size);
    lemma_count_bounds(n, size);
    assert forall|k: int| 0 <= k < count implies {
        &&& batch_start(size, k) < #[trigger] batch_end(n, size, k) <= n
        &&& batch_end(n, size, k) - batch_start(size, k) <= size
        &&& batch_end(n, size, k) == batch_start(size, k + 1) || k + 1 == count
    } by {
        lemma_batch_bounds(n, size, k);
    }
    if n > 0 {
        lemma_batch_bounds(n, size, count - 1);
    }
    assert forall|i: int, k: int| 0 <= i < n && 0 <= k < count implies (batch_start(size, k) <= i
        < #[trigger] batch_end(n, size, k) <==> k == #[trigger] (i / size)) by {
        lemma_batch_bounds(n, size, k);
        lemma_quotient(i, size, k);
    }
    assert forall|i: int| 0 <= i < n implies 0 <= #[trigger] (i / size) < count by {
        lemma_quotient(i, size, i / size);
        lemma_count_bounds(n, size);
        assert((i / size) * size < count * size);
        assert(i / size < count) by (nonlinear_arith)
            requires
                (i / size) * size < count * size,
                0 < size,
        ;
    }
}

/// `batch_count(n, size)` is the least number of runs of `size` positions
/// that cover `n` positions.
proof fn lemma_count_bounds(n: int, size: int)
    requires
        0 <= n,
        0 < size,
    ensures
        0 <= batch_count(n, size),
        n <= batch_count(n, size) * size < n + size,
        n == 0 <==> batch_count(n, size) == 0,
{
    let count = batch_count(n, size);
    assert(n <= count * size < n + size && 0 <= count) by (nonlinear_arith)
        requires
            count == (n + size - 1) / size,
            0 <= n,
            0 < size,
    ;
    assert(n == 0 <==> count == 0) by (nonlinear_arith)
        requires
            n <= count * size < n + size,
            0 <= n,
            0 < size,
            0 <= count,
    ;
}

/// Where mini-batch `k` starts and ends.
proof fn lemma_batch_bounds(n: int, size: int, k: int)
    requires
        0 <= n,
        0 < size,
        0 <= k < batch_count(n, size),
    ensures
        k * size < n,
        batch_start(size, k) < batch_end(n, size, k) <= n,
        batch_end(n, size, k) - batch_start(size, k) <= size,
        k + 1 < batch_count(n, size) ==> batch_end(n, size, k) == (k + 1) * size,
        k + 1 == batch_count(n, size) ==> batch_end(n, size, k) == n,
        batch_start(size, k + 1) == (k + 1) * size,
{
    let count = batch_count(n, size);
    lemma_count_bounds(n, size);
    assert(k * size + size <= count * size) by (nonlinear_arith)
        requires
            k + 1 <= count,
            0 < size,
    ;
    assert((k + 1) * size == k * size + size) by (nonlinear_arith);
    if k + 1 < count {
        assert(k * size + size + size <= count * size) by (nonlinear_arith)
            requires
                k + 2 <= count,
                0 < size,
        ;
    }
}

/// `k` is the quotient of `i` by `size` exactly where `i` lies in the
/// `k`-th run of `size` positions.
proof fn lemma_quotient(i: int, size: int, k: int)
    requires
        0 <= i,
        0 < size,
    ensures
        k * size <= i < k * size + size <==> k == i / size,
{
    assert(k * size <= i < k * size + size <==> k == i / size) by (nonlinear_arith)
        requires
            0 <= i,
            0 < size,
    ;
}

/// The bounds of the mini-batches of `mini_batch_size` positions over `n`
/// positions, in order: for each the position at which it starts and the
/// position before which it ends. A last mini-batch that `n` does not fill
/// is kept, shorter than the others.
pub fn mini_batches(n: usize, mini_batch_size: usize) -> (r: Result<
    Vec<(usize, usize)>,
    ZeroBatchSize,
>)
    ensures
        r is Err <==> mini_batch_size == 0,
        r is Ok ==> {
            &&& r->Ok_0@.len() == batch_count(n as int, mini_batch_size as int)
            &&& forall|k: int|
                0 <= k < r->Ok_0@.len() ==> {
                    &&& (#[trigger] r->Ok_0@[k]).0 == batch_start(mini_batch_size as int, k)
                    &&& r->Ok_0@[k].1 == batch_end(n as int, mini_batch_size as int, k)
                }
        },
{
    if mini_batch_size == 0 {
        return Err(ZeroBatchSize);
    }
    let mut bounds: Vec<(usize, usize)> = Vec::new();
    let mut start: usize = 0;
    proof {
        lemma_count_bounds(n as int, mini_batch_size as int);
        assert(0 * mini_batch_size == 0) by (nonlinear_arith);
    }
    while start < n
        invariant
            0 < mini_batch_size,
            start <= n,
            start == bounds@.len() * mini_batch_size || (start == n && bounds@.len()
                == batch_count(n as int, mini_batch_size as int)),
            bounds@.len() <= batch_count(n as int, mini_batch_size as int),
            forall|k: int|
                0 <= k < bounds@.len() ==> {
                    &&& (#[trigger] bounds@[k]).0 == batch_start(mini_batch_size as int, k)
                    &&& bounds@[k].1 == batch_end(n as int, mini_batch_size as int, k)
                },
        decreases n - start,
    {
        let ghost k = bounds@.len() as int;
        proof {
            lemma_count_bounds(n as int, mini_batch_size as int);
            assert(k < batch_count(n as int, mini_batch_size as int)) by (nonlinear_arith)
                requires
                    k * mini_batch_size < n,
                    n <= batch_count(n as int, mini_batch_size as int) * mini_batch_size,
                    0 < mini_batch_size,
            ;
            lemma_batch_bounds(n as int, mini_batch_size as int, k);
        }
        let end: usize = if mini_batch_size <= n - start {
            start + mini_batch_size
        } else {
            n
        };
        bounds.push((start, end));
        start = end;
    }
    proof {
        let count = batch_count(n as int, mini_batch_size as int);
        if bounds@.len() < count {
            lemma_batch_bounds(n as int, mini_batch_size as int, bounds@.len() as int);
        }
    }
    Ok(bounds)
}

/// The positions `0..n` in ascending order.
pub open spec fn identity(n: nat) -> Seq<usize> {
    Seq::new(n, |i: int| i as usize)
}

/// `order` visits each of the examples `0..n` once: it has `n` entries, each
/// names an example, no two name the same, and none is left out.
pub open spec fn is_permutation(order: Seq<usize>, n: nat) -> bool {
    &&& order.len() == n
    &&& forall|p: int| 0 <= p < order.len() ==> order[p] < n
    &&& forall|p: int, q: int| 0 <= p < q < order.len() ==> order[p] != order[q]
    &&& forall|v: usize| v < n ==> order.contains(v)
}

/// A rearrangement of the positions `0..n` visits each of them once.
pub proof fn lemma_rearranged_identity(order: Seq<usize>, n: nat)
    requires
        n <= usize::MAX,
        order.to_multiset() == identity(n).to_multiset(),
    ensures
        is_permutation(order, n),
{
    broadcast use vstd::seq_lib::group_to_multiset_ensures;

    let id = identity(n);
    assert(id.no_duplicates());
    id.lemma_multiset_has_no_duplicates();
    order.lemma_multiset_has_no_duplicates_conv();
    assert(order.len() == order.to_multiset().len());
    assert(id.len() == id.to_multiset().len());
    assert forall|p: int| 0 <= p < order.len() implies order[p] < n by {
        assert(order.contains(order[p]));
        assert(id.to_multiset().count(order[p]) > 0);
        assert(id.contains(order[p]));
    }
    assert forall|v: usize| v < n implies order.contains(v) by {
        assert(id[v as int] == v);
        assert(id.contains(v));
        assert(order.to_multiset().count(v) > 0);
    }
}

/// `rand::rngs::StdRng`, the generator that orders the examples of an epoch.
/// It is handed on as it comes; nothing is read from it.
#[verifier::external_type_specification]
#[verifier::external_body]
pub struct ExStdRng(rand::rngs::StdRng);

/// `rand::seq::SliceRandom::shuffle` on the entries of `order`. It swaps
/// entries and does nothing else, so the entries are the same after it, each
/// as often as before; where each comes to stand depends on the generator
/// and is not stated.
#[verifier::external_body]
fn shuffle(order: &mut Vec<usize>, rng: &mut rand::rngs::StdRng)
    ensures
        final(order)@.to_multiset() == old(order)@.to_multiset(),
{
    rand::seq::SliceRandom::shuffle(order.as_mut_slice(), rng);
}

/// An order drawn from `rng` in which to visit the examples `0..n`.
pub fn shuffled_order(n: usize, rng: &mut rand::rngs::StdRng) -> (order: Vec<usize>)
    ensures
        is_permutation(order@, n as nat),
{
    let mut order: Vec<usize> = Vec::new();
    let mut i: usize = 0;
    while i < n
        invariant
            i <= n,
            order@ =~= identity(i as nat),
        decreases n - i,
    {
        order.push(i);
        i += 1;
    }
    shuffle(&mut order, rng);
    proof {
        lemma_rearranged_identity(order@, n as nat);
    }
    order
}

/// The examples of mini-batch `k` where the examples are visited in `order`.
pub open spec fn batch_examples(order: Seq<usize>, size: int, k: int) -> Seq<usize> {
    order.subrange(batch_start(size, k), batch_end(order.len() as int, size, k))
}

/// Where every example is visited once, each example is trained on in one
/// mini-batch and at one place in it: none is dropped and none comes twice.
pub proof fn lemma_each_example_once(order: Seq<usize>, size: int, v: usize)
    requires
        0 < size,
        is_permutation(order, order.len()),
        v < order.len(),
    ensures
        exists|k: int, j: int|
            {
                &&& 0 <= k < batch_count(order.len() as int, size)
                &&& 0 <= j < batch_examples(order, size, k).len()
                &&& #[trigger] batch_examples(order, size, k)[j] == v
            },
        forall|k1: int, j1: int, k2: int, j2: int|
            {
                &&& 0 <= k1 < batch_count(order.len() as int, size)
                &&& 0 <= j1 < batch_examples(order, size, k1).len()
                &&& 0 <= k2 < batch_count(order.len() as int, size)
                &&& 0 <= j2 < batch_examples(order, size, k2).len()
                &&& #[trigger] batch_examples(order, size, k1)[j1] == v
                &&& #[trigger] batch_examples(order, size, k2)[j2] == v
            } ==> k1 == k2 && j1 == j2,
{
    let n = order.len() as int;
    lemma_batches_partition(n, size);
    assert(order.contains(v));
    let p = choose|p: int| 0 <= p < order.len() && order[p] == v;
    let k = p / size;
    assert(0 <= p / size < batch_count(n, size));
    lemma_batch_bounds(n, size, k);
    lemma_quotient(p, size, k);
    assert(batch_start(size, k) <= p < batch_end(n, size, k));
    assert(batch_examples(order, size, k)[p - batch_start(size, k)] == v);
    assert forall|k1: int, j1: int, k2: int, j2: int|
        {
            &&& 0 <= k1 < batch_count(n, size)
            &&& 0 <= j1 < batch_examples(order, size, k1).len()
            &&& 0 <= k2 < batch_count(n, size)
            &&& 0 <= j2 < batch_examples(order, size, k2).len()
            &&& #[trigger] batch_examples(order, size, k1)[j1] == v
            &&& #[trigger] batch_examples(order, size, k2)[j2] == v
        } implies k1 == k2 && j1 == j2 by {
        let here = batch_start(size, k1) + j1;
        let there = batch_start(size, k2) + j2;
        assert(batch_end(n, size, k1) <= n);
        assert(batch_end(n, size, k2) <= n);
        assert(order[here] == v && order[there] == v);
        assert(here == there);
        lemma_batch_bounds(n, size, k1);
        lemma_batch_bounds(n, size, k2);
        lemma_quotient(here, size, k1);
        lemma_quotient(here, size, k2);
    }
}

} // verus!
