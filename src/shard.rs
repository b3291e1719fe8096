//! The partition rule: each message identifier belongs to exactly one of
//! `total` workers, `owner(id, total) = hash(id) mod total`.
use vstd::prelude::*;

verus! {

/// The 64-bit Fx hash of the UTF-8 bytes of a text.
pub uninterp spec fn fx64_of(s: Seq<char>) -> u64;

/// Relies on fxhash's `FxHasher64` (`write` of the text's UTF-8 bytes, then
/// `finish`): a fixed, unseeded hash whose value depends on the bytes alone.
/// The hasher reads words in the machine's byte order, so all workers of one
/// deployment are expected to share it.
#[verifier::external_body]
fn fx_hash64(s: &str) -> (r: u64)
    ensures
        r == fx64_of(s@),
{
    let mut hasher = fxhash::FxHasher64::default();
    std::hash::Hasher::write(&mut hasher, s.as_bytes());
    std::hash::Hasher::finish(&hasher)
}

/// The worker that owns an identifier.
pub open spec fn owner_spec(id: Seq<char>, total: u64) -> u64
    recommends
        total >= 1,
{
    (fx64_of(id) % total) as u64
}

/// The positions of `ids` whose owner is `worker`, in increasing order.
pub open spec fn owned_positions_spec(ids: Seq<Seq<char>>, total: u64, worker: u64) -> Seq<usize>
    decreases ids.len(),
{
    if ids.len() == 0 {
        Seq::empty()
    } else {
        let head = owned_positions_spec(ids.drop_last(), total, worker);
        if owner_spec(ids.last(), total) == worker {
            head.push((ids.len() - 1) as usize)
        } else {
            head
        }
    }
}

/// The positions `i` whose hash `hashes[i]` reduces to `worker`, in
/// increasing order.
pub open spec fn positions_of_shard(hashes: Seq<u64>, total: u64, worker: u64) -> Seq<usize>
    decreases hashes.len(),
{
    if hashes.len() == 0 {
        Seq::empty()
    } else {
        let head = positions_of_shard(hashes.drop_last(), total, worker);
        if hashes.last() % total == worker {
            head.push((hashes.len() - 1) as usize)
        } else {
            head
        }
    }
}

/// The shard that a hash falls into.
pub fn shard_of_hash(hash: u64, total: u64) -> (r: u64)
    requires
        total >= 1,
    ensures
        r == hash % total,
        r < total,
{
    hash % total
}

/// The hash of a message identifier under the partition rule.
pub fn uid_hash(id: &str) -> (r: u64)
    ensures
        r == fx64_of(id@),
{
    fx_hash64(id)
}

/// The worker, out of `total`, that owns the message identifier `id`.
pub fn owner(id: &str, total: u64) -> (r: u64)
    requires
        total >= 1,
    ensures
        r == owner_spec(id@, total),
        r < total,
{
    shard_of_hash(fx_hash64(id), total)
}

/// Whether the worker `worker` owns the message identifier `id`.
pub fn is_owned(id: &str, total: u64, worker: u64) -> (r: bool)
    requires
        total >= 1,
    ensures
        r == (owner_spec(id@, total) == worker),
{
    owner(id, total) == worker
}

/// The positions, in increasing order, of the hashes that fall into the shard
/// `worker`.
pub fn shard_positions(hashes: &Vec<u64>, total: u64, worker: u64) -> (r: Vec<usize>)
    requires
        total >= 1,
    ensures
        r@ == positions_of_shard(hashes@, total, worker),
{
    let mut out: Vec<usize> = Vec::new();
    let mut i: usize = 0;
    while i < hashes.len()
        invariant
            total >= 1,
            i <= hashes@.len(),
            out@ == positions_of_shard(hashes@.subrange(0, i as int), total, worker),
        decreases hashes@.len() - i,
    {
        proof {
            let next = hashes@.subrange(0, i + 1);
            assert(next.drop_last() =~= hashes@.subrange(0, i as int));
            assert(next.last() == hashes@[i as int]);
        }
        if hashes[i] % total == worker {
            out.push(i);
        }
        i = i + 1;
    }
    assert(hashes@.subrange(0, hashes@.len() as int) =~= hashes@);
    out
}

/// The positions, in increasing order, of the identifiers that the worker
/// `worker` owns.
pub fn owned_positions(ids: &Vec<String>, total: u64, worker: u64) -> (r: Vec<usize>)
    requires
        total >= 1,
    ensures
        r@ == owned_positions_spec(ids@.map_values(|s: String| s@), total, worker),
{
    let ghost views = ids@.map_values(|s: String| s@);
    let mut out: Vec<usize> = Vec::new();
    let mut i: usize = 0;
    while i < ids.len()
        invariant
            total >= 1,
            i <= ids@.len(),
            views == ids@.map_values(|s: String| s@),
            out@ == owned_positions_spec(views.subrange(0, i as int), total, worker),
        decreases ids@.len() - i,
    {
        proof {
            let next = views.subrange(0, i + 1);
            assert(next.drop_last() =~= views.subrange(0, i as int));
            assert(next.last() == ids@[i as int]@);
        }
        if is_owned(ids[i].as_str(), total, worker) {
            out.push(i);
        }
        i = i + 1;
    }
    assert(views.subrange(0, views.len() as int) =~= views);
    out
}

/// The owner of an identifier is a function of the identifier and the worker
/// count alone: equal inputs give the same worker, below `total`, in every
/// call. Across processes this holds for workers that share one byte order,
/// which the hash reads words in (see `fx_hash64`).
pub proof fn owner_is_deterministic(a: Seq<char>, b: Seq<char>, total: u64)
    requires
        total >= 1,
        a == b,
    ensures
        owner_spec(a, total) == owner_spec(b, total),
        owner_spec(a, total) < total,
{
}

/// A position lies in the owned positions of `worker` exactly when the
/// identifier there is owned by `worker`.
pub proof fn owned_positions_member(ids: Seq<Seq<char>>, total: u64, worker: u64, i: int)
    requires
        total >= 1,
        0 <= i < ids.len(),
        ids.len() <= usize::MAX + 1,
    ensures
        owned_positions_spec(ids, total, worker).contains(i as usize)
            <==> owner_spec(ids[i], total) == worker,
    decreases ids.len(),
{
    let head = owned_positions_spec(ids.drop_last(), total, worker);
    owned_positions_below(ids.drop_last(), total, worker);
    if i < ids.len() - 1 {
        owned_positions_member(ids.drop_last(), total, worker, i);
        if owner_spec(ids.last(), total) == worker {
            let full = head.push((ids.len() - 1) as usize);
            if full.contains(i as usize) {
                let k = choose|k: int| 0 <= k < full.len() && full[k] == i as usize;
                if k < head.len() {
                    assert(head.contains(i as usize));
                }
            }
            if head.contains(i as usize) {
                let k = choose|k: int| 0 <= k < head.len() && head[k] == i as usize;
                assert(full[k] == i as usize);
            }
        }
    } else {
        if owner_spec(ids.last(), total) == worker {
            let full = head.push((ids.len() - 1) as usize);
            assert(full[head.len() as int] == i as usize);
        } else {
            if head.contains(i as usize) {
                let k = choose|k: int| 0 <= k < head.len() && head[k] == i as usize;
                assert(head[k] < ids.len() - 1);
            }
        }
    }
}

/// Every owned position lies below the number of identifiers.
proof fn owned_positions_below(ids: Seq<Seq<char>>, total: u64, worker: u64)
    requires
        ids.len() <= usize::MAX + 1,
    ensures
        forall|k: int|
            0 <= k < owned_positions_spec(ids, total, worker).len()
                ==> #[trigger] owned_positions_spec(ids, total, worker)[k] < ids.len(),
    decreases ids.len(),
{
    if ids.len() > 0 {
        owned_positions_below(ids.drop_last(), total, worker);
        let head = owned_positions_spec(ids.drop_last(), total, worker);
        let full = owned_positions_spec(ids, total, worker);
        assert forall|k: int| 0 <= k < full.len() implies #[trigger] full[k] < ids.len() by {
            if k < head.len() {
                assert(full[k] == head[k]);
            }
        }
    }
}

/// For `total >= 1` the workers `0 .. total` split any batch of identifiers:
/// each position belongs to the owned positions of exactly one worker, so the
/// owned subsets are pairwise disjoint and together cover the batch.
pub proof fn workers_partition_batch(ids: Seq<Seq<char>>, total: u64)
    requires
        total >= 1,
        ids.len() <= usize::MAX + 1,
    ensures
        forall|i: int|
            #![trigger ids[i]]
            0 <= i < ids.len() ==> owner_spec(ids[i], total) < total && owned_positions_spec(
                ids,
                total,
                owner_spec(ids[i], total),
            ).contains(i as usize),
        forall|i: int, w1: u64, w2: u64|
            0 <= i < ids.len() && w1 != w2
                ==> !(#[trigger] owned_positions_spec(ids, total, w1).contains(i as usize)
                && #[trigger] owned_positions_spec(ids, total, w2).contains(i as usize)),
{
    assert forall|i: int|
        #![trigger ids[i]]
        0 <= i < ids.len() implies owner_spec(ids[i], total) < total && owned_positions_spec(
            ids,
            total,
            owner_spec(ids[i], total),
        ).contains(i as usize) by {
        owned_positions_member(ids, total, owner_spec(ids[i], total), i);
    }
    assert forall|i: int, w1: u64, w2: u64|
        0 <= i < ids.len() && w1 != w2 implies !(#[trigger] owned_positions_spec(
        ids,
        total,
        w1,
    ).contains(i as usize) && #[trigger] owned_positions_spec(ids, total, w2).contains(
        i as usize,
    )) by {
        owned_positions_member(ids, total, w1, i);
        owned_positions_member(ids, total, w2, i);
    }
}

} // verus!
