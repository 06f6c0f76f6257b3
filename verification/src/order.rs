//! The order in which names are displayed, and a stable sort by it.
//!
//! Names are ordered as Rust orders strings: byte by byte over their UTF-8
//! encoding, a proper prefix before what continues it.

use vstd::prelude::*;

verus! {

/// `a` comes before `b` or equals it, byte by byte.
pub open spec fn bytes_le(a: Seq<u8>, b: Seq<u8>) -> bool
    decreases a.len(),
{
    if a.len() == 0 {
        true
    } else if b.len() == 0 {
        false
    } else if a[0] == b[0] {
        bytes_le(a.drop_first(), b.drop_first())
    } else {
        a[0] < b[0]
    }
}

/// Every sequence comes before or equals itself.
pub proof fn lemma_le_reflexive(a: Seq<u8>)
    ensures
        bytes_le(a, a),
    decreases a.len(),
{
    if a.len() > 0 {
        lemma_le_reflexive(a.drop_first());
    }
}

/// Of two sequences one comes before or equals the other.
pub proof fn lemma_le_total(a: Seq<u8>, b: Seq<u8>)
    ensures
        bytes_le(a, b) || bytes_le(b, a),
    decreases a.len(),
{
    if a.len() > 0 && b.len() > 0 && a[0] == b[0] {
        lemma_le_total(a.drop_first(), b.drop_first());
    }
}

/// The order is transitive.
pub proof fn lemma_le_transitive(a: Seq<u8>, b: Seq<u8>, c: Seq<u8>)
    requires
        bytes_le(a, b),
        bytes_le(b, c),
    ensures
        bytes_le(a, c),
    decreases a.len(),
{
    if a.len() > 0 && b.len() > 0 && c.len() > 0 && a[0] == b[0] && b[0] == c[0] {
        lemma_le_transitive(a.drop_first(), b.drop_first(), c.drop_first());
    }
}

/// Sequences that agree on their first `i` bytes compare as what follows
/// those bytes.
pub proof fn lemma_le_after_common_prefix(a: Seq<u8>, b: Seq<u8>, i: int)
    requires
        0 <= i <= a.len(),
        i <= b.len(),
        a.take(i) == b.take(i),
    ensures
        bytes_le(a, b) == bytes_le(a.skip(i), b.skip(i)),
    decreases i,
{
    if i == 0 {
        assert(a.skip(0) =~= a);
        assert(b.skip(0) =~= b);
    } else {
        assert(a[0] == a.take(i)[0]);
        assert(b[0] == b.take(i)[0]);
        assert(a.drop_first().take(i - 1) =~= a.take(i).drop_first());
        assert(b.drop_first().take(i - 1) =~= b.take(i).drop_first());
        lemma_le_after_common_prefix(a.drop_first(), b.drop_first(), i - 1);
        assert(a.drop_first().skip(i - 1) =~= a.skip(i));
        assert(b.drop_first().skip(i - 1) =~= b.skip(i));
    }
}

/// Whether `a` comes before `b` or equals it.
pub fn precedes_or_equals(a: &Vec<u8>, b: &Vec<u8>) -> (r: bool)
    ensures
        r == bytes_le(a@, b@),
{
    let mut i: usize = 0;
    while i < a.len() && i < b.len() && a[i] == b[i]
        invariant
            i <= a@.len(),
            i <= b@.len(),
            a@.take(i as int) == b@.take(i as int),
        decreases a@.len() - i,
    {
        assert(a@.take(i + 1) =~= a@.take(i as int).push(a@[i as int]));
        assert(b@.take(i + 1) =~= b@.take(i as int).push(b@[i as int]));
        i += 1;
    }
    proof {
        lemma_le_after_common_prefix(a@, b@, i as int);
    }
    if i >= a.len() {
        true
    } else if i >= b.len() {
        false
    } else {
        a[i] < b[i]
    }
}

/// `perm` names every index below `n` exactly once.
pub open spec fn is_arrangement(perm: Seq<int>, n: int) -> bool {
    &&& perm.len() == n
    &&& forall|i: int| 0 <= i < n ==> 0 <= #[trigger] perm[i] < n
    &&& forall|i: int, j: int| 0 <= i < j < n ==> #[trigger] perm[i] != #[trigger] perm[j]
}

/// Taken in the order `perm`, the keys ascend, and equal keys keep the order
/// they had.
pub open spec fn ascends(perm: Seq<int>, keys: Seq<Seq<u8>>) -> bool {
    forall|i: int, j: int|
        0 <= i < j < perm.len() ==> bytes_le(keys[#[trigger] perm[i]], keys[#[trigger] perm[j]])
            && (keys[perm[i]] == keys[perm[j]] ==> perm[i] < perm[j])
}

/// The keys ascend.
pub open spec fn sorted(keys: Seq<Seq<u8>>) -> bool {
    forall|i: int, j: int|
        0 <= i < j < keys.len() ==> bytes_le(#[trigger] keys[i], #[trigger] keys[j])
}

/// Keys taken in an order in which they ascend are sorted.
pub proof fn lemma_sorted_keys(perm: Seq<int>, keys: Seq<Seq<u8>>, now: Seq<Seq<u8>>)
    requires
        is_arrangement(perm, keys.len() as int),
        ascends(perm, keys),
        now.len() == keys.len(),
        forall|i: int| 0 <= i < now.len() ==> #[trigger] now[i] == keys[perm[i]],
    ensures
        sorted(now),
{
    assert forall|i: int, j: int| 0 <= i < j < now.len() implies bytes_le(
        #[trigger] now[i],
        #[trigger] now[j],
    ) by {
        assert(bytes_le(keys[perm[i]], keys[perm[j]]));
    }
}

/// `to` holds the items of `from` in the order `perm`.
pub open spec fn arranged<T>(perm: Seq<int>, from: Seq<T>, to: Seq<T>) -> bool {
    &&& is_arrangement(perm, from.len() as int)
    &&& to.len() == from.len()
    &&& forall|i: int| 0 <= i < to.len() ==> #[trigger] to[i] == from[perm[i]]
}

/// `to` is `from` sorted by `keys`, the key of `from[i]` being `keys[i]`:
/// the same items, keys ascending, ties in their former order.
pub open spec fn stable_sort_of<T>(to: Seq<T>, from: Seq<T>, keys: Seq<Seq<u8>>) -> bool {
    exists|perm: Seq<int>| arranged(perm, from, to) && #[trigger] ascends(perm, keys)
}

/// The views of a list of keys.
pub open spec fn key_views(keys: Seq<Vec<u8>>) -> Seq<Seq<u8>> {
    Seq::new(keys.len(), |i: int| keys[i]@)
}

/// Sorts `items` by their keys, `keys[i]` being the key of `items[i]`. The
/// sort is stable, and the keys are sorted along.
pub fn sort_by_keys<T>(items: &mut Vec<T>, keys: &mut Vec<Vec<u8>>)
    requires
        old(items)@.len() == old(keys)@.len(),
    ensures
        stable_sort_of(final(items)@, old(items)@, key_views(old(keys)@)),
        stable_sort_of(final(keys)@, old(keys)@, key_views(old(keys)@)),
        final(keys)@.len() == final(items)@.len(),
{
    let n: usize = items.len();
    let ghost from = items@;
    let ghost from_keys = keys@;
    let ghost okeys = key_views(keys@);
    let ghost mut perm: Seq<int> = Seq::new(n as nat, |i: int| i);
    let mut i: usize = 0;
    while i < n
        invariant
            i <= n,
            from.len() == n,
            from_keys.len() == n,
            okeys == key_views(from_keys),
            items@.len() == n,
            keys@.len() == n,
            arranged(perm, from, items@),
            arranged(perm, from_keys, keys@),
            forall|k: int| i <= k < n ==> perm[k] == k,
            forall|k: int| 0 <= k < i ==> perm[k] < i,
            ascends(perm.take(i as int), okeys),
        decreases n - i,
    {
        let mut j: usize = i;
        while j > 0 && !precedes_or_equals(&keys[j - 1], &keys[i])
            invariant
                j <= i < n,
                keys@.len() == n,
                forall|b: int| j <= b < i ==> !bytes_le(#[trigger] keys@[b]@, keys@[i as int]@),
            decreases j,
        {
            j -= 1;
        }
        let ghost before = perm;
        let ghost before_keys = keys@;
        if j < i {
            let key = keys.remove(i);
            keys.insert(j, key);
            let item = items.remove(i);
            items.insert(j, item);
        }
        proof {
            perm = before.remove(i as int).insert(j as int, i as int);
            assert(before[i as int] == i);
            if j == i {
                assert(perm =~= before);
            }
            // where each position of the new order comes from
            assert forall|k: int| 0 <= k < n implies #[trigger] perm[k] == (if k < j {
                before[k]
            } else if k == j {
                i as int
            } else if k <= i {
                before[k - 1]
            } else {
                before[k]
            }) by {}
            assert forall|k: int| 0 <= k < n implies #[trigger] items@[k] == from[perm[k]] by {}
            assert forall|k: int| 0 <= k < n implies #[trigger] keys@[k] == from_keys[perm[k]] by {}
            assert forall|a: int, b: int| 0 <= a < b < n implies #[trigger] perm[a]
                != #[trigger] perm[b] by {
                let sa = if a < j { a } else if a == j { i as int } else if a <= i { a - 1 } else { a };
                let sb = if b < j { b } else if b == j { i as int } else if b <= i { b - 1 } else { b };
                assert(perm[a] == before[sa]);
                assert(perm[b] == before[sb]);
                assert(sa != sb);
                if sa < sb {
                    assert(before[sa] != before[sb]);
                } else {
                    assert(before[sb] != before[sa]);
                }
            }
            let head = perm.take(i + 1);
            let old_head = before.take(i as int);
            let x = okeys[i as int];
            assert forall|a: int, b: int| 0 <= a < b < head.len() implies bytes_le(
                okeys[#[trigger] head[a]],
                okeys[#[trigger] head[b]],
            ) && (okeys[head[a]] == okeys[head[b]] ==> head[a] < head[b]) by {
                assert(head[a] == perm[a]);
                assert(head[b] == perm[b]);
                if b < j {
                    assert(old_head[a] == before[a] && old_head[b] == before[b]);
                } else if b == j {
                    // an old item before the inserted one
                    assert(old_head[a] == before[a]);
                    assert(before_keys[a] == from_keys[before[a]]);
                    assert(before_keys[j - 1] == from_keys[before[j - 1]]);
                    assert(before_keys[i as int] == from_keys[i as int]);
                    assert(bytes_le(okeys[before[j - 1]], x));
                    if a < j - 1 {
                        assert(old_head[j - 1] == before[j - 1]);
                        lemma_le_transitive(okeys[before[a]], okeys[before[j - 1]], x);
                    }
                } else if a == j {
                    // the inserted item before an old one that was passed over
                    assert(before_keys[b - 1] == from_keys[before[b - 1]]);
                    assert(before_keys[i as int] == from_keys[i as int]);
                    assert(!bytes_le(before_keys[b - 1]@, before_keys[i as int]@));
                    lemma_le_total(okeys[before[b - 1]], x);
                    lemma_le_reflexive(x);
                } else if a < j {
                    assert(old_head[a] == before[a] && old_head[b - 1] == before[b - 1]);
                } else {
                    assert(old_head[a - 1] == before[a - 1] && old_head[b - 1] == before[b - 1]);
                }
            }
        }
        i += 1;
    }
    proof {
        assert(perm.take(n as int) =~= perm);
        assert(arranged(perm, from, items@) && ascends(perm, okeys));
        assert(arranged(perm, from_keys, keys@) && ascends(perm, okeys));
    }
}

} // verus!
