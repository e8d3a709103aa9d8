//! Maps keyed by strings, kept as entries in ascending key order.

use vstd::prelude::*;
use vstd::utf8::char_u32_cast;
use crate::text::{chars_of, str_eq, Duplicate, Same};

verus! {

/// The order of strings: by the first character in which they differ, a proper
/// prefix before what extends it.
pub open spec fn lex_lt(a: Seq<char>, b: Seq<char>) -> bool
    decreases a.len(),
{
    if b.len() == 0 {
        false
    } else if a.len() == 0 {
        true
    } else if a[0] == b[0] {
        lex_lt(a.drop_first(), b.drop_first())
    } else {
        (a[0] as u32) < (b[0] as u32)
    }
}

/// The order of strings is irreflexive.
pub proof fn lex_irreflexive(a: Seq<char>)
    ensures
        !lex_lt(a, a),
    decreases a.len(),
{
    if a.len() > 0 {
        lex_irreflexive(a.drop_first());
    }
}

/// The order of strings is transitive.
pub proof fn lex_transitive(a: Seq<char>, b: Seq<char>, c: Seq<char>)
    requires
        lex_lt(a, b),
        lex_lt(b, c),
    ensures
        lex_lt(a, c),
    decreases a.len(),
{
    if a.len() > 0 && b.len() > 0 && c.len() > 0 && a[0] == b[0] && b[0] == c[0] {
        lex_transitive(a.drop_first(), b.drop_first(), c.drop_first());
    }
}

/// Of two different strings one comes first.
pub proof fn lex_total(a: Seq<char>, b: Seq<char>)
    ensures
        lex_lt(a, b) || lex_lt(b, a) || a == b,
    decreases a.len(),
{
    if a.len() == 0 && b.len() == 0 {
        assert(a =~= b);
    } else if a.len() > 0 && b.len() > 0 {
        if a[0] == b[0] {
            lex_total(a.drop_first(), b.drop_first());
            if a.drop_first() == b.drop_first() {
                assert(a =~= seq![a[0]] + a.drop_first());
                assert(b =~= seq![b[0]] + b.drop_first());
            }
        } else {
            char_u32_cast(a[0], a[0] as u32);
            char_u32_cast(b[0], b[0] as u32);
        }
    }
}

/// Whether `a` comes before `b`.
pub fn str_lt(a: &str, b: &str) -> (r: bool)
    ensures
        r == lex_lt(a@, b@),
{
    let x = chars_of(a);
    let y = chars_of(b);
    let mut i: usize = 0;
    assert(a@.subrange(0, a@.len() as int) =~= a@);
    assert(b@.subrange(0, b@.len() as int) =~= b@);
    while i < x.len() && i < y.len()
        invariant
            i <= x.len(),
            i <= y.len(),
            x@ == a@,
            y@ == b@,
            lex_lt(a@, b@) == lex_lt(
                a@.subrange(i as int, a@.len() as int),
                b@.subrange(i as int, b@.len() as int),
            ),
        decreases x.len() - i,
    {
        assert(a@.subrange(i as int, a@.len() as int).drop_first() =~= a@.subrange(
            i + 1,
            a@.len() as int,
        ));
        assert(b@.subrange(i as int, b@.len() as int).drop_first() =~= b@.subrange(
            i + 1,
            b@.len() as int,
        ));
        if x[i] != y[i] {
            return (x[i] as u32) < (y[i] as u32);
        }
        i = i + 1;
    }
    i < y.len()
}

/// The keys of a sequence of entries.
pub open spec fn keys<W>(s: Seq<(Seq<char>, W)>) -> Seq<Seq<char>> {
    s.map_values(|e: (Seq<char>, W)| e.0)
}

/// Whether entries stand in strictly ascending key order.
pub open spec fn sorted<W>(s: Seq<(Seq<char>, W)>) -> bool {
    forall|i: int, j: int| 0 <= i < j < s.len() ==> #[trigger] lex_lt(s[i].0, s[j].0)
}

/// How many leading entries have a key before `k`.
pub open spec fn rank<W>(s: Seq<(Seq<char>, W)>, k: Seq<char>) -> int
    decreases s.len(),
{
    if s.len() == 0 || !lex_lt(s[0].0, k) {
        0
    } else {
        1 + rank(s.drop_first(), k)
    }
}

/// The value under `k`.
pub open spec fn lookup<W>(s: Seq<(Seq<char>, W)>, k: Seq<char>) -> Option<W> {
    let p = rank(s, k);
    if p < s.len() && s[p].0 == k {
        Some(s[p].1)
    } else {
        None
    }
}

/// The entries with `v` stored under `k`.
pub open spec fn put<W>(s: Seq<(Seq<char>, W)>, k: Seq<char>, v: W) -> Seq<(Seq<char>, W)> {
    let p = rank(s, k);
    if p < s.len() && s[p].0 == k {
        s.update(p, (k, v))
    } else {
        s.insert(p, (k, v))
    }
}

/// The entries without the one under `k`.
pub open spec fn del<W>(s: Seq<(Seq<char>, W)>, k: Seq<char>) -> Seq<(Seq<char>, W)> {
    let p = rank(s, k);
    if p < s.len() && s[p].0 == k {
        s.remove(p)
    } else {
        s
    }
}

/// The entries of `over` stored, one after the other, into `base`.
pub open spec fn put_all<W>(base: Seq<(Seq<char>, W)>, over: Seq<(Seq<char>, W)>) -> Seq<
    (Seq<char>, W),
>
    decreases over.len(),
{
    if over.len() == 0 {
        base
    } else {
        put(put_all(base, over.drop_last()), over.last().0, over.last().1)
    }
}

/// Every key before the rank is before `k`, and the key at the rank is not.
pub proof fn rank_bounds<W>(s: Seq<(Seq<char>, W)>, k: Seq<char>)
    ensures
        0 <= rank(s, k) <= s.len(),
        forall|i: int| 0 <= i < rank(s, k) ==> lex_lt(#[trigger] s[i].0, k),
        rank(s, k) < s.len() ==> !lex_lt(s[rank(s, k)].0, k),
    decreases s.len(),
{
    if s.len() > 0 && lex_lt(s[0].0, k) {
        let t = s.drop_first();
        rank_bounds(t, k);
        assert forall|i: int| 0 <= i < rank(s, k) implies lex_lt(#[trigger] s[i].0, k) by {
            if i > 0 {
                assert(s[i] == t[i - 1]);
            }
        }
        if rank(s, k) < s.len() {
            assert(s[rank(s, k)] == t[rank(t, k)]);
        }
    }
}

/// In sorted entries every key from the rank on is `k` or comes after it.
pub proof fn rank_upper<W>(s: Seq<(Seq<char>, W)>, k: Seq<char>)
    requires
        sorted(s),
    ensures
        forall|i: int| rank(s, k) <= i < s.len() ==> #[trigger] s[i].0 == k || lex_lt(k, s[i].0),
        forall|i: int| rank(s, k) < i < s.len() ==> lex_lt(k, #[trigger] s[i].0),
{
    rank_bounds(s, k);
    let p = rank(s, k);
    if p < s.len() {
        lex_total(s[p].0, k);
        assert forall|i: int| p < i < s.len() implies lex_lt(k, #[trigger] s[i].0) by {
            assert(lex_lt(s[p].0, s[i].0));
            if s[p].0 != k {
                lex_transitive(k, s[p].0, s[i].0);
            }
        }
    }
}

/// The rank is determined by its bounds.
pub proof fn rank_is<W>(s: Seq<(Seq<char>, W)>, k: Seq<char>, p: int)
    requires
        0 <= p <= s.len(),
        forall|i: int| 0 <= i < p ==> lex_lt(#[trigger] s[i].0, k),
        p < s.len() ==> !lex_lt(s[p].0, k),
    ensures
        rank(s, k) == p,
    decreases s.len(),
{
    rank_bounds(s, k);
    let r = rank(s, k);
    if r < p {
        assert(lex_lt(s[r].0, k));
    }
    if p < r {
        assert(lex_lt(s[p].0, k));
    }
}

/// An entry of sorted entries is found under its key.
pub proof fn lookup_at<W>(s: Seq<(Seq<char>, W)>, i: int)
    requires
        sorted(s),
        0 <= i < s.len(),
    ensures
        rank(s, s[i].0) == i,
        lookup(s, s[i].0) == Some(s[i].1),
{
    lex_irreflexive(s[i].0);
    rank_is(s, s[i].0, i);
}

/// What is found under a key is an entry.
pub proof fn lookup_some<W>(s: Seq<(Seq<char>, W)>, k: Seq<char>)
    ensures
        0 <= rank(s, k) <= s.len(),
        lookup(s, k) is Some ==> rank(s, k) < s.len() && s[rank(s, k)] == (k, lookup(s, k)->0),
{
    rank_bounds(s, k);
}

/// A key that no entry has is not found.
pub proof fn lookup_none<W>(s: Seq<(Seq<char>, W)>, k: Seq<char>)
    requires
        sorted(s),
    ensures
        lookup(s, k) is None <==> forall|i: int| 0 <= i < s.len() ==> (#[trigger] s[i]).0 != k,
{
    rank_bounds(s, k);
    if lookup(s, k) is None {
        assert forall|i: int| 0 <= i < s.len() implies (#[trigger] s[i]).0 != k by {
            if s[i].0 == k {
                lookup_at(s, i);
            }
        }
    }
}

/// Storing keeps the order.
pub proof fn put_sorted<W>(s: Seq<(Seq<char>, W)>, k: Seq<char>, v: W)
    requires
        sorted(s),
    ensures
        sorted(put(s, k, v)),
{
    rank_bounds(s, k);
    rank_upper(s, k);
    let p = rank(s, k);
    let t = put(s, k, v);
    assert forall|i: int, j: int| 0 <= i < j < t.len() implies #[trigger] lex_lt(t[i].0, t[j].0) by {
        if p < s.len() && s[p].0 == k {
            assert(lex_lt(s[i].0, s[j].0));
        } else {
            let i0 = if i < p { i } else { i - 1 };
            let j0 = if j < p { j } else { j - 1 };
            if i != p && j != p {
                assert(lex_lt(s[i0].0, s[j0].0));
            }
        }
    }
}

/// A store is seen under its key and nowhere else.
pub proof fn lookup_put<W>(s: Seq<(Seq<char>, W)>, k: Seq<char>, v: W, q: Seq<char>)
    requires
        sorted(s),
    ensures
        lookup(put(s, k, v), q) == if q == k {
            Some(v)
        } else {
            lookup(s, q)
        },
{
    let t = put(s, k, v);
    put_sorted(s, k, v);
    rank_bounds(s, k);
    let p = rank(s, k);
    assert(t[p] == (k, v));
    lookup_at(t, p);
    if q != k {
        lookup_some(s, q);
        lookup_some(t, q);
        if lookup(s, q) is Some {
            let i = rank(s, q);
            let j = if p < s.len() && s[p].0 == k {
                i
            } else if i < p {
                i
            } else {
                i + 1
            };
            assert(t[j] == s[i]);
            lookup_at(t, j);
        } else if lookup(t, q) is Some {
            let j = rank(t, q);
            let i = if p < s.len() && s[p].0 == k {
                j
            } else if j < p {
                j
            } else {
                j - 1
            };
            assert(t[j] == s[i]);
            lookup_at(s, i);
        }
    }
}

/// Storing under a key that comes after all others adds an entry at the end.
pub proof fn put_last<W>(s: Seq<(Seq<char>, W)>, k: Seq<char>, v: W)
    requires
        forall|i: int| 0 <= i < s.len() ==> lex_lt(#[trigger] s[i].0, k),
    ensures
        put(s, k, v) == s.push((k, v)),
{
    rank_is(s, k, s.len() as int);
    assert(put(s, k, v) =~= s.push((k, v)));
}

/// Removing keeps the order.
pub proof fn del_sorted<W>(s: Seq<(Seq<char>, W)>, k: Seq<char>)
    requires
        sorted(s),
    ensures
        sorted(del(s, k)),
{
    rank_bounds(s, k);
    let p = rank(s, k);
    let t = del(s, k);
    if p < s.len() && s[p].0 == k {
        assert forall|i: int, j: int| 0 <= i < j < t.len() implies #[trigger] lex_lt(
            t[i].0,
            t[j].0,
        ) by {
            let i0 = if i < p { i } else { i + 1 };
            let j0 = if j < p { j } else { j + 1 };
            assert(lex_lt(s[i0].0, s[j0].0));
        }
    }
}

/// A removed key is gone, and every other key keeps its value.
pub proof fn lookup_del<W>(s: Seq<(Seq<char>, W)>, k: Seq<char>, q: Seq<char>)
    requires
        sorted(s),
    ensures
        lookup(del(s, k), q) == if q == k {
            None
        } else {
            lookup(s, q)
        },
{
    let t = del(s, k);
    del_sorted(s, k);
    rank_bounds(s, k);
    let p = rank(s, k);
    if p < s.len() && s[p].0 == k {
        lookup_some(s, q);
        lookup_some(t, q);
        if q == k {
            if lookup(t, q) is Some {
                let j = rank(t, q);
                let i = if j < p { j } else { j + 1 };
                assert(t[j] == s[i]);
                lookup_at(s, i);
            }
        } else {
            if lookup(s, q) is Some {
                let i = rank(s, q);
                let j = if i < p { i } else { i - 1 };
                assert(t[j] == s[i]);
                lookup_at(t, j);
            } else if lookup(t, q) is Some {
                let j = rank(t, q);
                let i = if j < p { j } else { j + 1 };
                assert(t[j] == s[i]);
                lookup_at(s, i);
            }
        }
    }
}

/// Storing many entries keeps the order.
pub proof fn put_all_sorted<W>(base: Seq<(Seq<char>, W)>, over: Seq<(Seq<char>, W)>)
    requires
        sorted(base),
    ensures
        sorted(put_all(base, over)),
    decreases over.len(),
{
    if over.len() > 0 {
        put_all_sorted(base, over.drop_last());
        put_sorted(put_all(base, over.drop_last()), over.last().0, over.last().1);
    }
}

/// After storing the entries of `over`, a key of `over` has the value it has
/// there, and every other key the value it has in `base`.
pub proof fn lookup_put_all<W>(
    base: Seq<(Seq<char>, W)>,
    over: Seq<(Seq<char>, W)>,
    q: Seq<char>,
)
    requires
        sorted(base),
        sorted(over),
    ensures
        lookup(put_all(base, over), q) == match lookup(over, q) {
            Some(v) => Some(v),
            None => lookup(base, q),
        },
    decreases over.len(),
{
    if over.len() > 0 {
        let o = over.drop_last();
        assert(sorted(o)) by {
            assert forall|i: int, j: int| 0 <= i < j < o.len() implies #[trigger] lex_lt(
                o[i].0,
                o[j].0,
            ) by {
                assert(lex_lt(over[i].0, over[j].0));
            }
        }
        put_all_sorted(base, o);
        lookup_put_all(base, o, q);
        lookup_put(put_all(base, o), over.last().0, over.last().1, q);
        lookup_some(over, q);
        lookup_some(o, q);
        if q == over.last().0 {
            lookup_at(over, over.len() - 1);
        } else if lookup(over, q) is Some {
            let i = rank(over, q);
            assert(o[i] == over[i]);
            lookup_at(o, i);
        } else if lookup(o, q) is Some {
            let i = rank(o, q);
            assert(o[i] == over[i]);
            lookup_at(over, i);
        }
    }
}

/// Entries whose values are mapped have the mapped values, under the same keys.
pub proof fn lookup_mapped<V, W>(
    s: Seq<(Seq<char>, V)>,
    t: Seq<(Seq<char>, W)>,
    f: spec_fn(V) -> W,
    id: Seq<char>,
)
    requires
        sorted(s),
        t == s.map_values(|e: (Seq<char>, V)| (e.0, f(e.1))),
    ensures
        sorted(t),
        lookup(t, id) == match lookup(s, id) {
            None => None,
            Some(v) => Some(f(v)),
        },
{
    assert forall|i: int, j: int| 0 <= i < j < t.len() implies #[trigger] lex_lt(
        t[i].0,
        t[j].0,
    ) by {
        assert(lex_lt(s[i].0, s[j].0));
    }
    lookup_some(s, id);
    lookup_some(t, id);
    if lookup(s, id) is Some {
        let i = rank(s, id);
        assert(t[i].0 == id);
        lookup_at(t, i);
    } else if lookup(t, id) is Some {
        let i = rank(t, id);
        assert(s[i].0 == id);
        lookup_at(s, i);
    }
}

/// A map from strings to values, its entries in ascending key order.
#[derive(Debug, PartialEq, Eq)]
pub struct StrMap<V> {
    entries: Vec<(String, V)>,
}

/// The keys of stored entries.
pub closed spec fn raw_keys<V>(s: Seq<(String, V)>) -> Seq<(Seq<char>, ())> {
    Seq::new(s.len(), |i: int| (s[i].0@, ()))
}

impl<V> StrMap<V> {
    #[verifier::type_invariant]
    closed spec fn inv(self) -> bool {
        sorted(raw_keys(self.entries@))
    }
}

impl<V> StrMap<V> {
    /// The entries, with the values as they are.
    pub closed spec fn raw(&self) -> Seq<(Seq<char>, V)> {
        Seq::new(self.entries@.len(), |i: int| (self.entries@[i].0@, self.entries@[i].1))
    }

    /// The values of a map are smaller than the map.
    pub proof fn values_are_smaller(&self)
        ensures
            forall|i: int|
                0 <= i < self.raw().len() ==> decreases_to!(*self => (#[trigger] self.raw()[i]).1),
    {
        assert forall|i: int| 0 <= i < self.raw().len() implies decreases_to!(
            *self => (#[trigger] self.raw()[i]).1
        ) by {
            assert(decreases_to!(self.entries => self.entries[i]));
        }
    }
}

impl<V: DeepView> DeepView for StrMap<V> {
    type V = Seq<(Seq<char>, V::V)>;

    closed spec fn deep_view(&self) -> Seq<(Seq<char>, V::V)> {
        Seq::new(self.entries@.len(), |i: int| (self.entries@[i].0@, self.entries@[i].1.deep_view()))
    }
}

impl<V: DeepView> View for StrMap<V> {
    type V = Seq<(Seq<char>, V::V)>;

    open spec fn view(&self) -> Seq<(Seq<char>, V::V)> {
        self.deep_view()
    }
}

proof fn same_ranks<V, W>(s: Seq<(Seq<char>, V)>, t: Seq<(Seq<char>, W)>, k: Seq<char>)
    requires
        s.len() == t.len(),
        forall|i: int| 0 <= i < s.len() ==> (#[trigger] s[i]).0 == t[i].0,
    ensures
        rank(s, k) == rank(t, k),
{
    rank_bounds(s, k);
    assert forall|i: int| 0 <= i < rank(s, k) implies lex_lt(#[trigger] t[i].0, k) by {
        assert(lex_lt(s[i].0, k));
    }
    rank_is(t, k, rank(s, k));
}

impl<V: DeepView> StrMap<V> {
    /// A map without entries.
    pub fn new() -> (m: Self)
        ensures
            m@ == Seq::<(Seq<char>, V::V)>::empty(),
    {
        let m: StrMap<V> = StrMap { entries: Vec::new() };
        assert(m@ =~= Seq::<(Seq<char>, V::V)>::empty());
        m
    }

    /// The entries of a map are sorted.
    proof fn is_sorted(&self)
        requires
            sorted(raw_keys(self.entries@)),
        ensures
            sorted(self@),
    {
        let r = raw_keys(self.entries@);
        assert forall|i: int, j: int| 0 <= i < j < self@.len() implies #[trigger] lex_lt(
            self@[i].0,
            self@[j].0,
        ) by {
            assert(lex_lt(r[i].0, r[j].0));
        }
    }

    /// What a map stands for, by what its values stand for.
    pub proof fn raw_view(&self)
        ensures
            self@.len() == self.raw().len(),
            forall|i: int|
                0 <= i < self.raw().len() ==> #[trigger] self@[i] == (
                    self.raw()[i].0,
                    self.raw()[i].1.deep_view(),
                ),
    {
    }

    /// Learns that the entries stand in ascending key order.
    pub fn order(&self)
        ensures
            sorted(self@),
    {
        proof {
            use_type_invariant(self);
            self.is_sorted();
        }
    }

    pub fn len(&self) -> (n: usize)
        ensures
            n == self@.len(),
    {
        self.entries.len()
    }

    pub fn is_empty(&self) -> (b: bool)
        ensures
            b == (self@.len() == 0),
    {
        self.entries.len() == 0
    }

    /// The key at a position in key order.
    pub fn key_at(&self, i: usize) -> (k: &String)
        requires
            i < self@.len(),
        ensures
            k@ == self@[i as int].0,
    {
        &self.entries[i].0
    }

    /// The value at a position in key order.
    pub fn value_at(&self, i: usize) -> (v: &V)
        requires
            i < self@.len(),
        ensures
            v.deep_view() == self@[i as int].1,
            *v == self.raw()[i as int].1,
    {
        &self.entries[i].1
    }

    /// The position of the first key that is not before `k`.
    fn position(&self, k: &str) -> (p: usize)
        ensures
            p == rank(self@, k@),
            p <= self@.len(),
    {
        let mut p: usize = 0;
        while p < self.entries.len() && str_lt(self.entries[p].0.as_str(), k)
            invariant
                p <= self@.len(),
                self@.len() == self.entries@.len(),
                forall|i: int| 0 <= i < p ==> lex_lt(#[trigger] self@[i].0, k@),
            ensures
                p <= self@.len(),
                forall|i: int| 0 <= i < p ==> lex_lt(#[trigger] self@[i].0, k@),
                p < self@.len() ==> !lex_lt(self@[p as int].0, k@),
            decreases self.entries.len() - p,
        {
            p = p + 1;
        }
        proof {
            rank_is(self@, k@, p as int);
        }
        p
    }

    /// The value stored under `k`.
    pub fn get(&self, k: &str) -> (r: Option<&V>)
        ensures
            (match r {
                Some(v) => Some(v.deep_view()),
                None => None,
            }) == lookup(self@, k@),
    {
        let p = self.position(k);
        if p < self.entries.len() && str_eq(self.entries[p].0.as_str(), k) {
            Some(&self.entries[p].1)
        } else {
            None
        }
    }

    pub fn contains_key(&self, k: &str) -> (b: bool)
        ensures
            b == lookup(self@, k@) is Some,
    {
        let p = self.position(k);
        p < self.entries.len() && str_eq(self.entries[p].0.as_str(), k)
    }

    /// Stores `v` under `k`, in place of what stood there.
    pub fn insert(&mut self, k: String, v: V)
        ensures
            final(self)@ == put(old(self)@, k@, v.deep_view()),
    {
        let p = self.position(k.as_str());
        proof {
            use_type_invariant(&*self);
            put_sorted(raw_keys(self.entries@), k@, ());
            same_ranks(raw_keys(self.entries@), self@, k@);
        }
        let ghost before = self.entries@;
        let ghost kv = k@;
        let ghost vv = v.deep_view();
        let present = p < self.entries.len() && str_eq(self.entries[p].0.as_str(), k.as_str());
        let mut taken = StrMap { entries: Vec::new() };
        core::mem::swap(self, &mut taken);
        let StrMap { mut entries } = taken;
        if present {
            entries.set(p, (k, v));
        } else {
            entries.insert(p, (k, v));
        }
        assert(raw_keys(entries@) =~= put(raw_keys(before), kv, ()));
        *self = StrMap { entries };
        assert(self@ =~= put(old(self)@, kv, vv));
    }

    /// Removes the entry under `k`, and says whether there was one.
    pub fn remove(&mut self, k: &str) -> (found: bool)
        ensures
            final(self)@ == del(old(self)@, k@),
            found == lookup(old(self)@, k@) is Some,
    {
        let p = self.position(k);
        proof {
            use_type_invariant(&*self);
            del_sorted(raw_keys(self.entries@), k@);
            same_ranks(raw_keys(self.entries@), self@, k@);
        }
        let ghost before = self.entries@;
        if p < self.entries.len() && str_eq(self.entries[p].0.as_str(), k) {
            let mut taken = StrMap { entries: Vec::new() };
            core::mem::swap(self, &mut taken);
            let StrMap { mut entries } = taken;
            let _ = entries.remove(p);
            assert(raw_keys(entries@) =~= del(raw_keys(before), k@));
            *self = StrMap { entries };
            assert(self@ =~= del(old(self)@, k@));
            true
        } else {
            false
        }
    }
}

impl<V: Duplicate> StrMap<V> {
    /// Stores every entry of `over`.
    pub fn extend_from(&mut self, over: &StrMap<V>)
        ensures
            final(self)@ == put_all(old(self)@, over@),
    {
        let mut i: usize = 0;
        assert(over@.subrange(0, 0) =~= Seq::<(Seq<char>, V::V)>::empty());
        while i < over.entries.len()
            invariant
                i <= over@.len(),
                over@.len() == over.entries@.len(),
                self@ == put_all(old(self)@, over@.subrange(0, i as int)),
            decreases over.entries.len() - i,
        {
            let k = over.entries[i].0.clone();
            let v = over.entries[i].1.dup();
            self.insert(k, v);
            i = i + 1;
            assert(over@.subrange(0, i as int).drop_last() =~= over@.subrange(0, i - 1));
            assert(over@.subrange(0, i as int).last() == over@[i - 1]);
        }
        assert(over@.subrange(0, i as int) =~= over@);
    }
}

impl<V: Duplicate> Duplicate for StrMap<V> {
    fn dup(&self) -> (r: Self) {
        let entries = self.entries.dup();
        proof {
            use_type_invariant(self);
            assert(entries.deep_view().len() == self.entries.deep_view().len());
            assert forall|i: int| 0 <= i < entries@.len() implies (#[trigger] entries@[i]).0@
                == self.entries@[i].0@ && entries@[i].1.deep_view()
                == self.entries@[i].1.deep_view() by {
                assert(entries.deep_view()[i] == self.entries.deep_view()[i]);
            }
            assert(raw_keys(entries@) =~= raw_keys(self.entries@));
        }
        let r = StrMap { entries };
        assert(r.deep_view() =~= self.deep_view());
        r
    }
}

impl<V: Duplicate> Clone for StrMap<V> {
    fn clone(&self) -> (r: Self)
        ensures
            r@ == self@,
    {
        self.dup()
    }
}

impl<V: Same> Same for StrMap<V> {
    fn same(&self, other: &Self) -> (b: bool) {
        if self.entries.len() != other.entries.len() {
            assert(self.deep_view().len() != other.deep_view().len());
            return false;
        }
        let mut i: usize = 0;
        while i < self.entries.len()
            invariant
                i <= self.entries@.len(),
                self.entries@.len() == other.entries@.len(),
                self@.len() == self.entries@.len(),
                other@.len() == self.entries@.len(),
                forall|k: int| 0 <= k < i ==> #[trigger] self@[k] == other@[k],
            decreases self.entries.len() - i,
        {
            if !str_eq(self.entries[i].0.as_str(), other.entries[i].0.as_str())
                || !self.entries[i].1.same(&other.entries[i].1) {
                assert(self.deep_view()[i as int] != other.deep_view()[i as int]);
                return false;
            }
            assert(self@[i as int] == other@[i as int]);
            i = i + 1;
        }
        assert(self.deep_view() =~= other.deep_view());
        true
    }
}

} // verus!
