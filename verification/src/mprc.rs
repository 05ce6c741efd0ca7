//! A small registry of receivers keyed by a unique key.  Entries keep the
//! order in which they were inserted, except that removing an entry moves
//! the last entry into the freed slot.
use rand::Rng;
use vstd::prelude::*;
use vstd::std_specs::iter::IteratorSpec;

verus! {

/// Keys whose equality is decided by their view.
pub trait MprsKey: View + Sized {
    fn same_key(&self, other: &Self) -> (r: bool)
        ensures
            r == (self@ == other@),
    ;
}

impl MprsKey for String {
    fn same_key(&self, other: &Self) -> (r: bool) {
        *self == *other
    }
}

impl MprsKey for i32 {
    fn same_key(&self, other: &Self) -> (r: bool) {
        *self == *other
    }
}

impl MprsKey for u64 {
    fn same_key(&self, other: &Self) -> (r: bool) {
        *self == *other
    }
}

/// `k` is bound in `s`.
pub open spec fn has_key<KV, T>(s: Seq<(KV, T)>, k: KV) -> bool {
    exists|i: int| 0 <= i < s.len() && #[trigger] s[i].0 == k
}

/// No key is bound twice in `s`.
pub open spec fn keys_distinct<KV, T>(s: Seq<(KV, T)>) -> bool {
    forall|i: int, j: int|
        0 <= i < s.len() && 0 <= j < s.len() && i != j ==> #[trigger] s[i].0 != #[trigger] s[j].0
}

/// The slot of `k` in `s` (meaningful when `has_key(s, k)`).
pub open spec fn position<KV, T>(s: Seq<(KV, T)>, k: KV) -> int {
    choose|i: int| 0 <= i < s.len() && #[trigger] s[i].0 == k
}

/// `s` without the element at `i`, the last element taking its place.
pub open spec fn swap_removed<A>(s: Seq<A>, i: int) -> Seq<A> {
    s.update(i, s.last()).drop_last()
}

/// The value bound to `k` in `s`.
pub open spec fn lookup<KV, T>(s: Seq<(KV, T)>, k: KV) -> Option<T> {
    if has_key(s, k) {
        Some(s[position(s, k)].1)
    } else {
        None
    }
}

/// `s` after the binding of `k` has been removed.
pub open spec fn remove_spec<KV, T>(s: Seq<(KV, T)>, k: KV) -> Seq<(KV, T)> {
    if has_key(s, k) {
        swap_removed(s, position(s, k))
    } else {
        s
    }
}

/// `s` after `k` has been bound to `v`: any old binding of `k` is removed and
/// the new one is appended.
pub open spec fn insert_spec<KV, T>(s: Seq<(KV, T)>, k: KV, v: T) -> Seq<(KV, T)> {
    remove_spec(s, k).push((k, v))
}

/// Registry of values keyed by unique keys.
pub struct Mprs<K: MprsKey, T> {
    entries: Vec<(K, T)>,
}

impl<K: MprsKey, T> View for Mprs<K, T> {
    type V = Seq<(K::V, T)>;

    closed spec fn view(&self) -> Seq<(K::V, T)> {
        self.entries@.map_values(|e: (K, T)| (e.0@, e.1))
    }
}

/// Picks an index below `count` with `rand::thread_rng().gen_range(0..count)`.
/// The contract claims only that the index lies in `0..count`, which is what
/// `gen_range` documents for a non-empty range; which index comes out is left
/// to chance.
#[verifier::external_body]
fn random_index(count: usize) -> (r: usize)
    requires
        0 < count,
    ensures
        r < count,
{
    rand::thread_rng().gen_range(0..count)
}

impl<K: MprsKey, T> Mprs<K, T> {
    /// Well-formedness: no key is bound twice.
    pub closed spec fn wf(&self) -> bool {
        forall|i: int, j: int|
            0 <= i < self.entries@.len() && 0 <= j < self.entries@.len() && i != j
                ==> #[trigger] self.entries@[i].0@ != #[trigger] self.entries@[j].0@
    }

    proof fn lemma_view_distinct(&self)
        requires
            self.wf(),
        ensures
            keys_distinct(self@),
            self@.len() == self.entries@.len(),
            forall|i: int| 0 <= i < self.entries@.len() ==> #[trigger] self@[i] == (self.entries@[i].0@, self.entries@[i].1),
    {
        assert forall|i: int, j: int|
            0 <= i < self@.len() && 0 <= j < self@.len() && i != j implies #[trigger] self@[i].0 != #[trigger] self@[j].0 by {
            assert(self.entries@[i].0@ != self.entries@[j].0@);
        }
    }

    /// An empty registry.
    pub fn new() -> (r: Self)
        ensures
            r.wf(),
            r@ == Seq::<(K::V, T)>::empty(),
    {
        let r = Mprs { entries: Vec::new() };
        assert(r@ =~= Seq::<(K::V, T)>::empty());
        r
    }

    /// Removes the binding of `k` and hands back its value; the last entry
    /// takes the freed slot.
    pub fn remove(&mut self, k: &K) -> (r: Option<T>)
        requires
            old(self).wf(),
        ensures
            r == lookup(old(self)@, k@),
            final(self)@ == remove_spec(old(self)@, k@),
            final(self).wf(),
            keys_distinct(old(self)@),
            keys_distinct(final(self)@),
    {
        proof {
            self.lemma_view_distinct();
        }
        let n = self.entries.len();
        let mut i: usize = 0;
        while i < n
            invariant
                n == self.entries.len(),
                i <= n,
                self.wf(),
                *self == *old(self),
                forall|j: int| 0 <= j < i ==> self.entries@[j].0@ != k@,
            decreases n - i,
        {
            if self.entries[i].0.same_key(k) {
                proof {
                    self.lemma_view_distinct();
                    assert(self@[i as int].0 == k@);
                    assert(has_key(self@, k@));
                    let p = position(self@, k@);
                    assert(p == i);
                }
                let ghost before = self@;
                let ghost before_entries = self.entries@;
                let e = self.entries.swap_remove(i);
                proof {
                    assert(self@ =~= swap_removed(before, i as int));
                    assert forall|a: int, b: int|
                        0 <= a < self.entries@.len() && 0 <= b < self.entries@.len() && a != b
                        implies #[trigger] self.entries@[a].0@ != #[trigger] self.entries@[b].0@ by {
                        let ia = if a == i { n - 1 } else { a };
                        let ib = if b == i { n - 1 } else { b };
                        assert(self.entries@[a] == before_entries[ia]);
                        assert(self.entries@[b] == before_entries[ib]);
                    }
                }
                return Some(e.1);
            }
            i = i + 1;
        }
        proof {
            self.lemma_view_distinct();
            assert(!has_key(self@, k@)) by {
                if has_key(self@, k@) {
                    let p = choose|p: int| 0 <= p < self@.len() && #[trigger] self@[p].0 == k@;
                    assert(self.entries@[p].0@ == k@);
                }
            }
        }
        None
    }

    /// The entries in their current order.
    pub fn iter(&mut self) -> (r: core::slice::Iter<'_, (K, T)>)
        requires
            old(self).wf(),
        ensures
            r.remaining().unref().map_values(|e: (K, T)| (e.0@, e.1)) == old(self)@,
            final(self)@ == old(self)@,
            final(self).wf(),
    {
        let r = self.entries.iter();
        proof {
            broadcast use vstd::std_specs::slice::axiom_spec_slice_iter;
            assert(r.remaining().unref() =~= self.entries@);
        }
        r
    }

    /// Binds `k` to `sender`, appending the new entry after removing any old
    /// binding of `k`; hands back the value `k` was bound to before.
    pub fn insert(&mut self, k: K, sender: T) -> (r: Option<T>)
        requires
            old(self).wf(),
        ensures
            r == lookup(old(self)@, k@),
            final(self)@ == insert_spec(old(self)@, k@, sender),
            final(self).wf(),
            keys_distinct(old(self)@),
            keys_distinct(final(self)@),
    {
        let ret = self.remove(&k);
        let ghost before = self@;
        let ghost before_entries = self.entries@;
        proof {
            self.lemma_view_distinct();
            assert(!has_key(before, k@)) by {
                if has_key(before, k@) {
                    lemma_remove_spec_drops_key(old(self)@, k@);
                }
            }
        }
        self.entries.push((k, sender));
        proof {
            assert(self@ =~= before.push((k@, sender)));
            assert forall|a: int, b: int|
                0 <= a < self.entries@.len() && 0 <= b < self.entries@.len() && a != b
                implies #[trigger] self.entries@[a].0@ != #[trigger] self.entries@[b].0@ by {
                if a == before_entries.len() {
                    assert(before[b].0 == before_entries[b].0@);
                } else if b == before_entries.len() {
                    assert(before[a].0 == before_entries[a].0@);
                }
            }
        }
        ret
    }

    /// The value of the entry at slot `i`.
    pub fn pick(&self, i: usize) -> (r: Option<&T>)
        requires
            self.wf(),
            i < self@.len(),
        ensures
            r == Some(&self@[i as int].1),
    {
        proof {
            self.lemma_view_distinct();
        }
        let r = &self.entries[i].1;
        assert(self@[i as int].1 == *r);
        Some(r)
    }

    /// One of the values, picked at random: the entry at a slot drawn
    /// uniformly below the number of entries, handed to `pick`; `None` when
    /// the registry is empty.
    pub fn get_random(&mut self) -> (r: Option<&T>)
        requires
            old(self).wf(),
        ensures
            r is None <==> old(self)@.len() == 0,
            r is Some ==> exists|i: int| 0 <= i < old(self)@.len() && r == Some(&old(self)@[i].1),
            final(self)@ == old(self)@,
            final(self).wf(),
    {
        let count = self.entries.len();
        proof {
            self.lemma_view_distinct();
        }
        if count == 0 {
            return None;
        }
        let rand_one = random_index(count);
        self.pick(rand_one)
    }
}

/// After `remove_spec`, `k` is no longer bound and every other key keeps its
/// value.
pub proof fn lemma_remove_spec_drops_key<KV, T>(s: Seq<(KV, T)>, k: KV)
    requires
        keys_distinct(s),
    ensures
        !has_key(remove_spec(s, k), k),
        keys_distinct(remove_spec(s, k)),
        forall|k2: KV| k2 != k ==> lookup(remove_spec(s, k), k2) == lookup(s, k2),
{
    if has_key(s, k) {
        let p = position(s, k);
        let r = remove_spec(s, k);
        let n = s.len();
        assert(r.len() == n - 1);
        assert forall|i: int| 0 <= i < r.len() implies #[trigger] r[i] == s[if i == p { n - 1 } else { i }] by {}
        assert(!has_key(r, k)) by {
            if has_key(r, k) {
                let q = choose|q: int| 0 <= q < r.len() && #[trigger] r[q].0 == k;
                let iq = if q == p { n - 1 } else { q };
                assert(s[iq].0 == k);
            }
        }
        assert forall|a: int, b: int| 0 <= a < r.len() && 0 <= b < r.len() && a != b implies #[trigger] r[a].0 != #[trigger] r[b].0 by {
            let ia = if a == p { n - 1 } else { a };
            let ib = if b == p { n - 1 } else { b };
            assert(r[a] == s[ia]);
            assert(r[b] == s[ib]);
        }
        assert forall|k2: KV| k2 != k implies lookup(r, k2) == lookup(s, k2) by {
            if has_key(s, k2) {
                let q = position(s, k2);
                assert(q != p);
                let rq = if q == n - 1 { p } else { q };
                assert(r[rq] == s[q]);
                assert(has_key(r, k2));
                let q2 = position(r, k2);
                let iq2 = if q2 == p { n - 1 } else { q2 };
                assert(r[q2] == s[iq2]);
            }
            if has_key(r, k2) {
                let q2 = position(r, k2);
                let iq2 = if q2 == p { n - 1 } else { q2 };
                assert(r[q2] == s[iq2]);
                assert(has_key(s, k2));
            }
        }
    }
}

/// Law of the registry: after binding `k` to `v`, looking `k` up gives `v`,
/// and every other key keeps the value it had.
pub proof fn lemma_insert_then_lookup<KV, T>(s: Seq<(KV, T)>, k: KV, v: T)
    requires
        keys_distinct(s),
    ensures
        lookup(insert_spec(s, k, v), k) == Some(v),
        forall|k2: KV| k2 != k ==> lookup(insert_spec(s, k, v), k2) == lookup(s, k2),
        keys_distinct(insert_spec(s, k, v)),
{
    lemma_remove_spec_drops_key(s, k);
    let r = remove_spec(s, k);
    let t = insert_spec(s, k, v);
    assert(t[r.len() as int].0 == k);
    assert(has_key(t, k));
    let p = position(t, k);
    assert(p == r.len()) by {
        if p != r.len() {
            assert(r[p].0 == k);
        }
    }
    assert forall|a: int, b: int| 0 <= a < t.len() && 0 <= b < t.len() && a != b implies #[trigger] t[a].0 != #[trigger] t[b].0 by {
        if a == r.len() {
            assert(r[b].0 != k);
        } else if b == r.len() {
            assert(r[a].0 != k);
        }
    }
    assert forall|k2: KV| k2 != k implies lookup(t, k2) == lookup(r, k2) by {
        if has_key(r, k2) {
            let q = position(r, k2);
            assert(t[q] == r[q]);
            assert(has_key(t, k2));
            let q2 = position(t, k2);
            assert(q2 != r.len());
        }
        if has_key(t, k2) {
            let q2 = position(t, k2);
            assert(q2 != r.len());
            assert(t[q2] == r[q2]);
        }
    }
}

/// Law of the registry: after removing `k`, looking `k` up gives nothing,
/// and every other key keeps the value it had.
pub proof fn lemma_remove_then_lookup<KV, T>(s: Seq<(KV, T)>, k: KV)
    requires
        keys_distinct(s),
    ensures
        lookup(remove_spec(s, k), k) is None,
        forall|k2: KV| k2 != k ==> lookup(remove_spec(s, k), k2) == lookup(s, k2),
        remove_spec(s, k).len() == if has_key(s, k) { s.len() - 1 } else { s.len() as int },
{
    lemma_remove_spec_drops_key(s, k);
}

/// The entries of `s` whose key is not `k`, in order.
pub open spec fn without_key<KV, T>(s: Seq<(KV, T)>, k: KV) -> Seq<(KV, T)> {
    s.filter(|e: (KV, T)| e.0 != k)
}

/// Filtering keeps every element the filter accepts as often as it occurs.
proof fn lemma_filter_keeps_count<A>(s: Seq<A>, pred: spec_fn(A) -> bool, x: A)
    requires
        pred(x),
    ensures
        s.filter(pred).to_multiset().count(x) == s.to_multiset().count(x),
    decreases s.len(),
{
    broadcast use vstd::multiset::group_multiset_axioms;

    if s.len() == 0 {
        broadcast use vstd::seq_lib::group_filter_ensures;

        assert(s.filter(pred) =~= s);
    } else {
        let t = s.drop_last();
        let a = s.last();
        assert(s =~= t.push(a));
        lemma_filter_keeps_count(t, pred, x);
        t.lemma_filter_push(a, pred);
        vstd::seq_lib::to_multiset_build(t, a);
        if pred(a) {
            vstd::seq_lib::to_multiset_build(t.filter(pred), a);
        }
    }
}

/// Law of the registry: binding `k` to `v` leaves the new pair last, and
/// before it exactly the old entries whose key is not `k` (as a multiset:
/// removing a key moves the last entry into its slot); one entry more than
/// before when `k` was not bound, as many when it was; and keys stay
/// distinct.
pub proof fn lemma_insert_leaves<KV, T>(s: Seq<(KV, T)>, k: KV, v: T)
    requires
        keys_distinct(s),
    ensures
        insert_spec(s, k, v).last() == (k, v),
        insert_spec(s, k, v).len() == s.len() + (if has_key(s, k) { 0int } else { 1int }),
        insert_spec(s, k, v).drop_last().to_multiset() =~= without_key(s, k).to_multiset(),
        keys_distinct(insert_spec(s, k, v)),
{
    broadcast use vstd::multiset::group_multiset_axioms;

    lemma_insert_then_lookup(s, k, v);
    lemma_remove_spec_drops_key(s, k);
    let r = remove_spec(s, k);
    let w = without_key(s, k);
    let pred = |e: (KV, T)| e.0 != k;
    assert(insert_spec(s, k, v).drop_last() =~= r);
    assert forall|x: (KV, T)| r.to_multiset().count(x) == w.to_multiset().count(x) by {
        if x.0 == k {
            vstd::seq_lib::to_multiset_contains(r, x);
            vstd::seq_lib::to_multiset_contains(w, x);
            if r.contains(x) {
                let q = choose|q: int| 0 <= q < r.len() && r[q] == x;
                assert(r[q].0 == k);
            }
            if w.contains(x) {
                let q = choose|q: int| 0 <= q < w.len() && w[q] == x;
                s.lemma_filter_pred(pred, q);
            }
        } else {
            lemma_filter_keeps_count(s, pred, x);
            if has_key(s, k) {
                let p = position(s, k);
                let n = s.len();
                let u = s.update(p, s.last());
                vstd::seq_lib::to_multiset_update(s, p, s.last());
                assert(u.drop_last() =~= u.remove(n - 1));
                vstd::seq_lib::to_multiset_remove(u, n - 1);
                assert(u[n - 1] == s.last());
                assert(r == u.drop_last());
                assert(x != s[p]);
            }
        }
    }
}

} // verus!
