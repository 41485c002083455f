//! Reading a table page by page: a page lists, in ascending order, the first
//! keys that lie after a cursor, up to a limit.

use vstd::prelude::*;
use crate::keys::Key;
use crate::store::ascending;

verus! {

/// The page size where none is asked for.
pub const DEFAULT_LIMIT: u32 = 10;

/// The largest page size: a larger one that is asked for is cut down to it.
pub const MAX_LIMIT: u32 = 1000;

/// The page size that a request gets.
pub open spec fn page_limit(limit: Option<u32>) -> nat {
    match limit {
        None => DEFAULT_LIMIT as nat,
        Some(n) => if n > MAX_LIMIT {
            MAX_LIMIT as nat
        } else {
            n as nat
        },
    }
}

/// The page size that a request gets.
pub fn effective_limit(limit: Option<u32>) -> (n: usize)
    ensures
        n == page_limit(limit),
{
    match limit {
        None => DEFAULT_LIMIT as usize,
        Some(n) => if n > MAX_LIMIT {
            MAX_LIMIT as usize
        } else {
            n as usize
        },
    }
}

/// Whether `key` lies after the cursor: every key does where there is none.
pub open spec fn after<K: Key>(cursor: Option<K::V>, key: K::V) -> bool {
    match cursor {
        None => true,
        Some(c) => K::precedes(c, key),
    }
}

/// The keys of `keys` that lie after the cursor.
pub open spec fn keys_after<K: Key>(keys: Set<K::V>, cursor: Option<K::V>) -> Set<K::V> {
    Set::new(|k: K::V| keys.contains(k) && after::<K>(cursor, k))
}

/// Whether `page` is the first page of `keys` for the limit: it lists keys
/// of the set in ascending order, no more than `limit` of them, and a key of
/// the set that it leaves out comes after all that it lists, and is left out
/// only because the page is full.
pub open spec fn first_keys<K: Key>(keys: Set<K::V>, limit: nat, page: Seq<K::V>) -> bool {
    &&& page.len() <= limit
    &&& ascending::<K>(page)
    &&& forall|i: int| 0 <= i < page.len() ==> keys.contains(#[trigger] page[i])
    &&& forall|k: K::V| #[trigger]
        keys.contains(k) && !page.contains(k) ==> page.len() == limit && comes_last::<K>(page, k)
}

/// Whether every key of `page` precedes `key`.
pub open spec fn comes_last<K: Key>(page: Seq<K::V>, key: K::V) -> bool {
    forall|i: int| 0 <= i < page.len() ==> K::precedes(#[trigger] page[i], key)
}

/// Where a walk through the ascending listing `keys` stands when it has
/// looked at the first `i` keys and picked `page` from those in `wanted`.
pub open spec fn page_so_far<K: Key>(keys: Seq<K::V>, wanted: Set<K::V>, i: int, page: Seq<K::V>) -> bool {
    &&& 0 <= i <= keys.len()
    &&& ascending::<K>(page)
    &&& forall|m: int| 0 <= m < page.len() ==> wanted.contains(#[trigger] page[m])
    &&& forall|j: int| i <= j < keys.len() ==> comes_last::<K>(page, #[trigger] keys[j])
    &&& forall|j: int| 0 <= j < i && wanted.contains(#[trigger] keys[j]) ==> page.contains(keys[j])
}

/// A walk that begins at `start` has nothing to pick before it, where no
/// key before `start` is wanted.
pub proof fn lemma_page_start<K: Key>(keys: Seq<K::V>, wanted: Set<K::V>, start: int)
    requires
        0 <= start <= keys.len(),
        forall|j: int| 0 <= j < start ==> !wanted.contains(#[trigger] keys[j]),
    ensures
        page_so_far::<K>(keys, wanted, start, Seq::empty()),
{
}

/// The walk goes on by one key that is wanted, and picks it.
pub proof fn lemma_page_take<K: Key>(keys: Seq<K::V>, wanted: Set<K::V>, i: int, page: Seq<K::V>)
    requires
        ascending::<K>(keys),
        page_so_far::<K>(keys, wanted, i, page),
        i < keys.len(),
        wanted.contains(keys[i]),
    ensures
        page_so_far::<K>(keys, wanted, i + 1, page.push(keys[i])),
{
    let next = page.push(keys[i]);
    assert(comes_last::<K>(page, keys[i]));
    assert forall|j: int| i + 1 <= j < keys.len() implies comes_last::<K>(next, #[trigger] keys[j]) by {
        assert(comes_last::<K>(page, keys[j]));
    }
    assert forall|j: int| 0 <= j < i + 1 && wanted.contains(#[trigger] keys[j]) implies next.contains(
        keys[j],
    ) by {
        if j < i {
            let m = page.index_of(keys[j]);
            assert(next[m] == keys[j]);
        } else {
            assert(next[page.len() as int] == keys[j]);
        }
    }
}

/// The walk goes on by one key that is not wanted, and passes it over.
pub proof fn lemma_page_skip<K: Key>(keys: Seq<K::V>, wanted: Set<K::V>, i: int, page: Seq<K::V>)
    requires
        page_so_far::<K>(keys, wanted, i, page),
        i < keys.len(),
        !wanted.contains(keys[i]),
    ensures
        page_so_far::<K>(keys, wanted, i + 1, page),
{
}

/// A walk that has only unwanted keys before it may as well be at the end
/// of the listing.
pub proof fn lemma_page_rest<K: Key>(keys: Seq<K::V>, wanted: Set<K::V>, i: int, page: Seq<K::V>)
    requires
        page_so_far::<K>(keys, wanted, i, page),
        forall|j: int| i <= j < keys.len() ==> !wanted.contains(#[trigger] keys[j]),
    ensures
        page_so_far::<K>(keys, wanted, keys.len() as int, page),
{
}

/// A walk that has come to the end of the listing, or has filled the page,
/// has picked the first page of the wanted keys.
pub proof fn lemma_page_end<K: Key>(
    keys: Seq<K::V>,
    wanted: Set<K::V>,
    i: int,
    page: Seq<K::V>,
    limit: nat,
)
    requires
        page_so_far::<K>(keys, wanted, i, page),
        page.len() <= limit,
        i == keys.len() || page.len() == limit,
        forall|k: K::V| wanted.contains(k) ==> keys.contains(k),
    ensures
        first_keys::<K>(wanted, limit, page),
{
    assert forall|k: K::V| #[trigger] wanted.contains(k) && !page.contains(k) implies page.len()
        == limit && comes_last::<K>(page, k) by {
        let j = keys.index_of(k);
        assert(keys[j] == k);
    }
}

/// A set of keys has one first page for a limit, and no other.
pub proof fn lemma_first_keys_unique<K: Key>(keys: Set<K::V>, limit: nat, p: Seq<K::V>, q: Seq<K::V>)
    requires
        first_keys::<K>(keys, limit, p),
        first_keys::<K>(keys, limit, q),
    ensures
        p == q,
{
    lemma_common_prefix::<K>(keys, limit, p, q, if p.len() <= q.len() {
        p.len() as int
    } else {
        q.len() as int
    });
    lemma_not_shorter::<K>(keys, limit, p, q);
    lemma_not_shorter::<K>(keys, limit, q, p);
    assert(p =~= q);
}

proof fn lemma_not_shorter<K: Key>(keys: Set<K::V>, limit: nat, p: Seq<K::V>, q: Seq<K::V>)
    requires
        first_keys::<K>(keys, limit, p),
        first_keys::<K>(keys, limit, q),
        forall|i: int| 0 <= i < p.len() && i < q.len() ==> p[i] == q[i],
    ensures
        q.len() <= p.len(),
{
    if p.len() < q.len() {
        let k = q[p.len() as int];
        assert(keys.contains(k));
        if p.contains(k) {
            let j = p.index_of(k);
            assert(q[j] == k);
            assert(K::precedes(q[j], q[p.len() as int]));
            K::lemma_irreflexive(k);
        }
    }
}

proof fn lemma_common_prefix<K: Key>(keys: Set<K::V>, limit: nat, p: Seq<K::V>, q: Seq<K::V>, n: int)
    requires
        first_keys::<K>(keys, limit, p),
        first_keys::<K>(keys, limit, q),
        0 <= n <= p.len(),
        n <= q.len(),
    ensures
        forall|i: int| 0 <= i < n ==> p[i] == q[i],
    decreases n,
{
    if n > 0 {
        lemma_common_prefix::<K>(keys, limit, p, q, n - 1);
        let i = n - 1;
        K::lemma_connected(p[i], q[i]);
        lemma_no_gap::<K>(keys, limit, p, q, i);
        lemma_no_gap::<K>(keys, limit, q, p, i);
    }
}

proof fn lemma_no_gap<K: Key>(keys: Set<K::V>, limit: nat, p: Seq<K::V>, q: Seq<K::V>, i: int)
    requires
        first_keys::<K>(keys, limit, p),
        first_keys::<K>(keys, limit, q),
        0 <= i < p.len(),
        i < q.len(),
        forall|j: int| 0 <= j < i ==> p[j] == q[j],
    ensures
        !K::precedes(p[i], q[i]),
{
    let k = p[i];
    assert(keys.contains(k));
    K::lemma_irreflexive(k);
    if K::precedes(p[i], q[i]) {
        if q.contains(k) {
            let j = q.index_of(k);
            if j < i {
                assert(K::precedes(p[j], p[i]));
            } else if j > i {
                assert(K::precedes(q[i], q[j]));
                K::lemma_transitive(k, q[i], k);
            }
        } else {
            assert(comes_last::<K>(q, k));
            assert(K::precedes(q[i], k));
            K::lemma_transitive(k, q[i], k);
        }
    }
}

/// Whether `m` is the least key of `keys`.
pub open spec fn is_least<K: Key>(keys: Set<K::V>, m: K::V) -> bool {
    keys.contains(m) && forall|k: K::V| #[trigger] keys.contains(k) && k != m ==> K::precedes(m, k)
}

/// A finite set of keys that is not empty has a least key.
pub proof fn lemma_least_exists<K: Key>(keys: Set<K::V>)
    requires
        keys.finite(),
        keys.len() > 0,
    ensures
        exists|m: K::V| is_least::<K>(keys, m),
    decreases keys.len(),
{
    let x = keys.choose();
    let rest = keys.remove(x);
    if rest.len() == 0 {
        assert forall|k: K::V| #[trigger] keys.contains(k) && k != x implies K::precedes(x, k) by {
            assert(rest.contains(k));
        }
        assert(is_least::<K>(keys, x));
    } else {
        lemma_least_exists::<K>(rest);
        let m = choose|m: K::V| is_least::<K>(rest, m);
        K::lemma_connected(x, m);
        if K::precedes(x, m) {
            assert forall|k: K::V| #[trigger] keys.contains(k) && k != x implies K::precedes(
                x,
                k,
            ) by {
                assert(rest.contains(k));
                if k != m {
                    K::lemma_transitive(x, m, k);
                }
            }
            assert(is_least::<K>(keys, x));
        } else {
            assert forall|k: K::V| #[trigger] keys.contains(k) && k != m implies K::precedes(
                m,
                k,
            ) by {
                if k != x {
                    assert(rest.contains(k));
                }
            }
            assert(is_least::<K>(keys, m));
        }
    }
}

/// A finite set of keys has a first page for every limit.
pub proof fn lemma_page_exists<K: Key>(keys: Set<K::V>, limit: nat)
    requires
        keys.finite(),
    ensures
        first_keys::<K>(keys, limit, page_of::<K>(keys, limit)),
    decreases limit,
{
    if limit == 0 || keys.len() == 0 {
        let page = Seq::<K::V>::empty();
        assert(first_keys::<K>(keys, limit, page));
    } else {
        lemma_least_exists::<K>(keys);
        let m = choose|m: K::V| is_least::<K>(keys, m);
        let rest = keys.remove(m);
        lemma_page_exists::<K>(rest, (limit - 1) as nat);
        let tail = page_of::<K>(rest, (limit - 1) as nat);
        let page = seq![m] + tail;
        assert forall|i: int, j: int| 0 <= i < j < page.len() implies K::precedes(
            #[trigger] page[i],
            #[trigger] page[j],
        ) by {
            assert(rest.contains(tail[j - 1]));
            if i > 0 {
                assert(K::precedes(tail[i - 1], tail[j - 1]));
            }
        }
        assert forall|i: int| 0 <= i < page.len() implies keys.contains(#[trigger] page[i]) by {
            if i > 0 {
                assert(rest.contains(tail[i - 1]));
            }
        }
        assert forall|k: K::V| #[trigger] keys.contains(k) && !page.contains(k) implies page.len()
            == limit && comes_last::<K>(page, k) by {
            assert(page[0] == m);
            assert(rest.contains(k));
            if tail.contains(k) {
                let i = tail.index_of(k);
                assert(page[i + 1] == k);
            }
            assert(comes_last::<K>(tail, k));
            assert forall|i: int| 0 <= i < page.len() implies K::precedes(#[trigger] page[i], k) by {
                if i > 0 {
                    assert(page[i] == tail[i - 1]);
                }
            }
        }
        assert(first_keys::<K>(keys, limit, page));
    }
}

/// The keys after a cursor are finitely many where the keys are.
pub proof fn lemma_keys_after_finite<K: Key>(keys: Set<K::V>, cursor: Option<K::V>)
    requires
        keys.finite(),
    ensures
        keys_after::<K>(keys, cursor).finite(),
{
    vstd::set_lib::lemma_len_subset(keys_after::<K>(keys, cursor), keys);
}

/// A page holds no key twice.
pub proof fn lemma_page_has_no_duplicates<K: Key>(keys: Set<K::V>, limit: nat, page: Seq<K::V>)
    requires
        first_keys::<K>(keys, limit, page),
    ensures
        page.no_duplicates(),
{
    assert forall|i: int, j: int| 0 <= i < page.len() && 0 <= j < page.len() && i != j implies page[i]
        != page[j] by {
        K::lemma_irreflexive(page[i]);
        if i < j {
            assert(K::precedes(page[i], page[j]));
        } else {
            assert(K::precedes(page[j], page[i]));
        }
    }
}

/// A page for a limit that is no less than the number of keys holds them
/// all.
pub proof fn lemma_large_page_is_all<K: Key>(keys: Set<K::V>, limit: nat, page: Seq<K::V>, k: K::V)
    requires
        keys.finite(),
        first_keys::<K>(keys, limit, page),
        limit >= keys.len(),
        keys.contains(k),
    ensures
        page.contains(k),
{
    if !page.contains(k) {
        lemma_page_has_no_duplicates::<K>(keys, limit, page);
        page.unique_seq_to_set();
        assert(page.to_set().subset_of(keys.remove(k))) by {
            assert forall|x: K::V| page.to_set().contains(x) implies keys.remove(k).contains(x) by {
                let i = page.index_of(x);
                assert(keys.contains(page[i]));
            }
        }
        vstd::set_lib::lemma_len_subset(page.to_set(), keys.remove(k));
    }
}

/// The first page of `keys` for the limit.
pub open spec fn page_of<K: Key>(keys: Set<K::V>, limit: nat) -> Seq<K::V> {
    choose|page: Seq<K::V>| first_keys::<K>(keys, limit, page)
}

/// A page that meets `first_keys` is the first page.
pub proof fn lemma_page_of<K: Key>(keys: Set<K::V>, limit: nat, page: Seq<K::V>)
    requires
        first_keys::<K>(keys, limit, page),
    ensures
        page_of::<K>(keys, limit) == page,
{
    lemma_first_keys_unique::<K>(keys, limit, page_of::<K>(keys, limit), page);
}

/// A page that is not full holds every key of the set: the walk has come to
/// its end.
pub proof fn lemma_short_page_is_all<K: Key>(keys: Set<K::V>, limit: nat, page: Seq<K::V>, k: K::V)
    requires
        first_keys::<K>(keys, limit, page),
        page.len() < limit,
        keys.contains(k),
    ensures
        page.contains(k),
{
}

/// Two pages in a row make one page. Where `first` is the page after
/// `cursor` and `second` the page after the last key of `first`, the two
/// together are the page after `cursor` for the sum of the limits: no key
/// comes up twice, and none between them is passed over.
pub proof fn lemma_pages_chain<K: Key>(
    keys: Set<K::V>,
    cursor: Option<K::V>,
    first: Seq<K::V>,
    n: nat,
    second: Seq<K::V>,
    m: nat,
)
    requires
        first.len() > 0,
        first_keys::<K>(keys_after::<K>(keys, cursor), n, first),
        first_keys::<K>(keys_after::<K>(keys, Some(first.last())), m, second),
    ensures
        first_keys::<K>(keys_after::<K>(keys, cursor), n + m, first + second),
{
    let all = keys_after::<K>(keys, cursor);
    let rest = keys_after::<K>(keys, Some(first.last()));
    let last = first.last();
    let page = first + second;
    assert(all.contains(last));
    assert forall|i: int| 0 <= i < second.len() implies K::precedes(last, #[trigger] second[i])
        && all.contains(second[i]) by {
        assert(rest.contains(second[i]));
        if cursor is Some {
            K::lemma_transitive(cursor->Some_0, last, second[i]);
        }
    }
    assert forall|i: int, j: int| 0 <= i < j < page.len() implies K::precedes(
        #[trigger] page[i],
        #[trigger] page[j],
    ) by {
        if i < first.len() && j >= first.len() {
            let s = second[j - first.len()];
            if i < first.len() - 1 {
                assert(K::precedes(first[i], first[first.len() - 1]));
                K::lemma_transitive(first[i], last, s);
            }
        }
    }
    assert forall|i: int| 0 <= i < page.len() implies all.contains(#[trigger] page[i]) by {
        if i >= first.len() {
            assert(page[i] == second[i - first.len()]);
        }
    }
    assert forall|k: K::V| #[trigger] all.contains(k) && !page.contains(k) implies page.len() == n
        + m && comes_last::<K>(page, k) by {
        if first.contains(k) {
            let i = first.index_of(k);
            assert(page[i] == k);
        }
        assert(comes_last::<K>(first, k));
        assert(K::precedes(first[first.len() - 1], k));
        assert(rest.contains(k));
        if second.contains(k) {
            let i = second.index_of(k);
            assert(page[first.len() + i] == k);
        }
        assert(comes_last::<K>(second, k));
        assert forall|i: int| 0 <= i < page.len() implies K::precedes(#[trigger] page[i], k) by {
            if i >= first.len() {
                assert(page[i] == second[i - first.len()]);
            }
        }
    }
}

} // verus!
