//! Resolutions that are remembered.

use vstd::prelude::*;
use crate::digest::{json_digest, sha256_json};
use crate::json::JsonView;
use crate::profiles::model::{
    LoadedProfilesRegistry, LoadedProfilesRegistryView, ResolvedSubjectProfiles,
    ResolvedSubjectProfilesView,
};
use crate::profiles::payload::{
    policy_documents_differ, refs_documents_differ, registry_documents_differ, request_document,
    request_json, ToJson,
};
use crate::profiles::resolve::{
    registry_acyclic, registry_fingerprint, registry_fingerprint_sha256, resolve_subject_profiles,
    resolved,
};
use crate::text::Duplicate;
use crate::types::config::{PolicyConfig, PolicyConfigView};
use crate::types::profile::{ProfileRefs, ProfileRefsView};

verus! {

/// `lru::LruCache`.
#[verifier::external_type_specification]
#[verifier::external_body]
#[verifier::reject_recursive_types(K)]
#[verifier::reject_recursive_types(V)]
#[verifier::reject_recursive_types(S)]
pub struct ExLruCache<K, V, S>(lru::LruCache<K, V, S>);

/// `lru::DefaultHasher`, which a cache hashes its keys with.
#[verifier::external_type_specification]
#[verifier::external_body]
pub struct ExDefaultHasher(lru::DefaultHasher);

/// What a cache holds, the most recently used entry first.
pub uninterp spec fn cached(c: lru::LruCache<String, ResolvedSubjectProfiles>) -> Seq<
    (Seq<char>, ResolvedSubjectProfilesView),
>;

/// How many entries a cache was made for.
pub uninterp spec fn room(c: lru::LruCache<String, ResolvedSubjectProfiles>) -> nat;

/// Entries of a cache.
pub type Entries = Seq<(Seq<char>, ResolvedSubjectProfilesView)>;

/// The first position from `i` on of the entry under `k`, or the length.
pub open spec fn entry_at(s: Entries, i: int, k: Seq<char>) -> int
    decreases s.len() - i,
{
    if i < 0 || i >= s.len() {
        s.len() as int
    } else if s[i].0 == k {
        i
    } else {
        entry_at(s, i + 1, k)
    }
}

/// The value under `k`.
pub open spec fn hit(s: Entries, k: Seq<char>) -> Option<ResolvedSubjectProfilesView> {
    let i = entry_at(s, 0, k);
    if i < s.len() {
        Some(s[i].1)
    } else {
        None
    }
}

/// The entries after `k` was looked up: what was found comes first.
pub open spec fn used(s: Entries, k: Seq<char>) -> Entries {
    let i = entry_at(s, 0, k);
    if i < s.len() {
        seq![s[i]] + s.remove(i)
    } else {
        s
    }
}

/// The entries after `v` was stored under `k`: the new entry comes first, in place of
/// one under the same key, else of the least recently used one where there is no room.
pub open spec fn stored(
    s: Entries,
    room: nat,
    k: Seq<char>,
    v: ResolvedSubjectProfilesView,
) -> Entries {
    let i = entry_at(s, 0, k);
    if i < s.len() {
        seq![(k, v)] + s.remove(i)
    } else if s.len() >= room && s.len() > 0 {
        seq![(k, v)] + s.drop_last()
    } else {
        seq![(k, v)] + s
    }
}

/// Whether a table for so many entries can be addressed. Its slots are a power of two, of
/// which an eighth stays free, and each takes two pointers and a byte: a larger table takes
/// more bytes than an allocation can have.
pub open spec fn addressable(cap: usize) -> bool {
    cap <= (if usize::BITS == 64 {
        0x380_0000_0000_0000int
    } else {
        0x700_0000int
    })
}

/// `lru::LruCache::new`. Claims that the cache is empty and made for `cap` entries. It
/// panics where the table for them cannot be addressed.
#[verifier::external_body]
fn lru_new(cap: usize) -> (c: lru::LruCache<String, ResolvedSubjectProfiles>)
    requires
        0 < cap,
        addressable(cap),
    ensures
        cached(c) == Seq::<(Seq<char>, ResolvedSubjectProfilesView)>::empty(),
        room(c) == cap,
{
    lru::LruCache::new(std::num::NonZeroUsize::new(cap).unwrap())
}

/// `lru::LruCache::get`, with the value copied out. Claims that it returns the value
/// stored under the key, and moves the entry to the front.
#[verifier::external_body]
fn lru_get(c: &mut lru::LruCache<String, ResolvedSubjectProfiles>, k: &str) -> (r: Option<
    ResolvedSubjectProfiles,
>)
    ensures
        r.deep_view() == hit(cached(*old(c)), k@),
        cached(*final(c)) == used(cached(*old(c)), k@),
        room(*final(c)) == room(*old(c)),
{
    c.get(k).map(|v| v.dup())
}

/// `lru::LruCache::put`. Claims that the entry comes to the front, in place of one under
/// the same key, else of the least recently used one where the cache is full.
#[verifier::external_body]
fn lru_put(
    c: &mut lru::LruCache<String, ResolvedSubjectProfiles>,
    k: String,
    v: ResolvedSubjectProfiles,
)
    ensures
        cached(*final(c)) == stored(cached(*old(c)), room(*old(c)), k@, v@),
        room(*final(c)) == room(*old(c)),
{
    c.put(k, v);
}

/// `lru::LruCache::clear`. Claims that nothing is left.
#[verifier::external_body]
fn lru_clear(c: &mut lru::LruCache<String, ResolvedSubjectProfiles>)
    ensures
        cached(*final(c)) == Seq::<(Seq<char>, ResolvedSubjectProfilesView)>::empty(),
        room(*final(c)) == room(*old(c)),
{
    c.clear();
}

/// Remembers resolutions.
pub struct ProfilesResolverCache {
    pub inner: lru::LruCache<String, ResolvedSubjectProfiles>,
}

/// A request for a resolution.
#[verifier::ext_equal]
pub struct Request {
    pub registry: LoadedProfilesRegistryView,
    pub refs: ProfileRefsView,
    pub base: PolicyConfigView,
    pub floor: PolicyConfigView,
}

/// The document that the key of a request is taken of.
pub open spec fn document_of(q: Request) -> JsonView {
    request_document(registry_fingerprint(q.registry), q.refs, q.base, q.floor)
}

/// The key under which the resolution of a request is remembered.
pub open spec fn key_of(q: Request) -> Seq<char> {
    json_digest(document_of(q))
}

/// What a request comes to where nothing is remembered.
pub open spec fn fresh_result(q: Request) -> ResolvedSubjectProfilesView {
    resolved(q.registry, q.refs, q.base, q.floor)
}

/// What a request is answered: what is remembered under its key, else what it comes to.
pub open spec fn answer(s: Entries, q: Request) -> ResolvedSubjectProfilesView {
    match hit(s, key_of(q)) {
        Some(v) => v,
        None => fresh_result(q),
    }
}

/// What is remembered after a request.
pub open spec fn after_request(s: Entries, room: nat, q: Request) -> Entries {
    match hit(s, key_of(q)) {
        Some(_) => used(s, key_of(q)),
        None => stored(s, room, key_of(q), fresh_result(q)),
    }
}

impl ProfilesResolverCache {
    /// An empty cache for `capacity` resolutions, and for one at least.
    pub fn new(capacity: usize) -> (r: Self)
        requires
            addressable(capacity),
        ensures
            cached(r.inner) == Seq::<(Seq<char>, ResolvedSubjectProfilesView)>::empty(),
            room(r.inner) == if capacity == 0 {
                1
            } else {
                capacity as nat
            },
    {
        let cap: usize = if capacity == 0 {
            1
        } else {
            capacity
        };
        ProfilesResolverCache { inner: lru_new(cap) }
    }

    /// Forgets everything.
    pub fn clear(&mut self)
        ensures
            cached(final(self).inner) == Seq::<(Seq<char>, ResolvedSubjectProfilesView)>::empty(),
            room(final(self).inner) == room(old(self).inner),
    {
        lru_clear(&mut self.inner);
    }
}

impl Default for ProfilesResolverCache {
    fn default() -> (r: Self)
        ensures
            cached(r.inner) == Seq::<(Seq<char>, ResolvedSubjectProfilesView)>::empty(),
            room(r.inner) == 512,
    {
        ProfilesResolverCache::new(512)
    }
}

/// What profiles come to for a request, remembered or worked out.
pub fn resolve_subject_profiles_cached(
    cache: &mut ProfilesResolverCache,
    registry: &LoadedProfilesRegistry,
    refs: &ProfileRefs,
    base_policy: &PolicyConfig,
    policy_floor: &PolicyConfig,
) -> (r: ResolvedSubjectProfiles)
    requires
        registry_acyclic(registry@),
    ensures
        ({
            let q = Request {
                registry: registry@,
                refs: refs@,
                base: base_policy@,
                floor: policy_floor@,
            };
            let before = cached(old(cache).inner);
            &&& r@ == answer(before, q)
            &&& cached(final(cache).inner) == after_request(before, room(old(cache).inner), q)
        }),
        room(final(cache).inner) == room(old(cache).inner),
{
    let fingerprint = registry_fingerprint_sha256(registry);
    let document = request_json(fingerprint.as_str(), refs, base_policy, policy_floor);
    let key = sha256_json(&document);
    if let Some(found) = lru_get(&mut cache.inner, key.as_str()) {
        return found;
    }
    let fresh = resolve_subject_profiles(registry, refs, base_policy, policy_floor);
    lru_put(&mut cache.inner, key, fresh.dup());
    fresh
}

proof fn entry_at_bounds(s: Entries, i: int, k: Seq<char>)
    requires
        0 <= i <= s.len(),
    ensures
        i <= entry_at(s, i, k) <= s.len(),
        entry_at(s, i, k) < s.len() ==> s[entry_at(s, i, k)].0 == k,
        forall|j: int| i <= j < entry_at(s, i, k) ==> (#[trigger] s[j]).0 != k,
    decreases s.len() - i,
{
    if i < s.len() && s[i].0 != k {
        entry_at_bounds(s, i + 1, k);
    }
}

/// What was worked out once is given back from memory: right after a request was
/// stored, the same request finds it.
pub proof fn stored_resolution_is_found(
    s: Entries,
    room: nat,
    k: Seq<char>,
    v: ResolvedSubjectProfilesView,
)
    ensures
        hit(stored(s, room, k, v), k) == Some(v),
{
    entry_at_bounds(s, 0, k);
    let t = stored(s, room, k, v);
    assert(t[0] == (k, v));
}

/// Looking up forgets nothing: every request that was found before is found after.
pub proof fn looking_up_forgets_nothing(s: Entries, k: Seq<char>, q: Seq<char>)
    requires
        forall|i: int, j: int| 0 <= i < j < s.len() ==> (#[trigger] s[i]).0 != (#[trigger] s[j]).0,
    ensures
        hit(used(s, k), q) == hit(s, q),
{
    entry_at_bounds(s, 0, k);
    entry_at_bounds(s, 0, q);
    let t = used(s, k);
    entry_at_bounds(t, 0, q);
    let i = entry_at(s, 0, k);
    if i < s.len() {
        assert(t[0] == s[i]);
        assert forall|j: int| 1 <= j < t.len() implies #[trigger] t[j] == if j - 1 < i {
            s[j - 1]
        } else {
            s[j]
        } by {}
        let p = entry_at(s, 0, q);
        if p < s.len() && p != i {
            let w = if p < i {
                p + 1
            } else {
                p
            };
            assert(t[w] == s[p]);
            let z = entry_at(t, 0, q);
            assert(z <= w);
        }
    }
}

/// The number of entries never grows past the room that the cache was made for.
pub proof fn cache_keeps_to_its_room(
    s: Entries,
    room: nat,
    k: Seq<char>,
    v: ResolvedSubjectProfilesView,
)
    requires
        0 < room,
        s.len() <= room,
    ensures
        stored(s, room, k, v).len() <= room,
        used(s, k).len() == s.len(),
{
    entry_at_bounds(s, 0, k);
}

/// Whether the digests of two requests collide in neither place where they are taken:
/// different registries have different fingerprints, and different documents different
/// keys.
pub open spec fn digests_tell_apart(p: Request, q: Request) -> bool {
    &&& registry_fingerprint(p.registry) == registry_fingerprint(q.registry)
        ==> LoadedProfilesRegistry::document(p.registry) == LoadedProfilesRegistry::document(
        q.registry,
    )
    &&& key_of(p) == key_of(q) ==> document_of(p) == document_of(q)
}

/// Requests with the same key are the same, as long as digests do not collide: the key is
/// taken of all that a resolution depends on.
pub proof fn keys_tell_requests_apart(p: Request, q: Request)
    requires
        digests_tell_apart(p, q),
        key_of(p) == key_of(q),
    ensures
        p == q,
{
    let x = document_of(p)->Obj_0;
    let y = document_of(q)->Obj_0;
    assert(x[0].1 == y[0].1 && x[1].1 == y[1].1 && x[2].1 == y[2].1 && x[3].1 == y[3].1);
    policy_documents_differ(p.base, q.base);
    policy_documents_differ(p.floor, q.floor);
    refs_documents_differ(p.refs, q.refs);
    registry_documents_differ(p.registry, q.registry);
    assert(p =~= q);
}

/// Whether an entry is the result of one of the requests, under its key.
pub open spec fn comes_from(e: (Seq<char>, ResolvedSubjectProfilesView), h: Seq<Request>) -> bool {
    exists|j: int| 0 <= j < h.len() && e == (key_of(#[trigger] h[j]), fresh_result(h[j]))
}

/// Whether everything that is remembered is the result of one of the requests.
pub open spec fn filled_by(s: Entries, h: Seq<Request>) -> bool {
    forall|i: int| 0 <= i < s.len() ==> comes_from(#[trigger] s[i], h)
}

proof fn comes_from_more(e: (Seq<char>, ResolvedSubjectProfilesView), h: Seq<Request>, q: Request)
    requires
        comes_from(e, h),
    ensures
        comes_from(e, h.push(q)),
{
    let j = choose|j: int| 0 <= j < h.len() && e == (key_of(#[trigger] h[j]), fresh_result(h[j]));
    assert(h.push(q)[j] == h[j]);
}

/// A request is answered with what a fresh resolution comes to, whether it is remembered
/// or not, where only results of requests are remembered and no digest of one of them
/// collides with one of this; and after it still only results of requests are remembered.
pub proof fn cached_answer_is_fresh(s: Entries, room: nat, h: Seq<Request>, q: Request)
    requires
        filled_by(s, h),
        forall|j: int| 0 <= j < h.len() ==> digests_tell_apart(#[trigger] h[j], q),
    ensures
        answer(s, q) == fresh_result(q),
        filled_by(after_request(s, room, q), h.push(q)),
{
    let k = key_of(q);
    entry_at_bounds(s, 0, k);
    let p = entry_at(s, 0, k);
    if p < s.len() {
        assert(comes_from(s[p], h));
        let j = choose|j: int|
            0 <= j < h.len() && s[p] == (key_of(#[trigger] h[j]), fresh_result(h[j]));
        keys_tell_requests_apart(h[j], q);
    }
    let t = after_request(s, room, q);
    assert forall|i: int| 0 <= i < t.len() implies comes_from(#[trigger] t[i], h.push(q)) by {
        if t[i] == (k, fresh_result(q)) {
            assert(h.push(q)[h.len() as int] == q);
        } else {
            let o = if p < s.len() && i - 1 >= p {
                i
            } else {
                i - 1
            };
            if i == 0 {
                assert(t[0] == s[p]);
                comes_from_more(s[p], h, q);
            } else {
                assert(t[i] == s[o]);
                comes_from_more(s[o], h, q);
            }
        }
    }
}

/// What an empty cache remembers after the first `n` of some requests.
pub open spec fn remembered(h: Seq<Request>, room: nat, n: int) -> Entries
    decreases n,
{
    if n <= 0 || n > h.len() {
        Seq::empty()
    } else {
        after_request(remembered(h, room, n - 1), room, h[n - 1])
    }
}

/// Whatever was requested before, a request is answered with what a fresh resolution comes
/// to, as long as no two digests collide.
pub proof fn every_answer_is_fresh(h: Seq<Request>, room: nat, n: int)
    requires
        0 <= n < h.len(),
        forall|i: int, j: int|
            0 <= i < h.len() && 0 <= j < h.len() ==> digests_tell_apart(
                #[trigger] h[i],
                #[trigger] h[j],
            ),
    ensures
        answer(remembered(h, room, n), h[n]) == fresh_result(h[n]),
{
    remembered_is_filled_by(h, room, n);
    cached_answer_is_fresh(remembered(h, room, n), room, h.subrange(0, n), h[n]);
}

proof fn remembered_is_filled_by(h: Seq<Request>, room: nat, n: int)
    requires
        0 <= n <= h.len(),
        forall|i: int, j: int|
            0 <= i < h.len() && 0 <= j < h.len() ==> digests_tell_apart(
                #[trigger] h[i],
                #[trigger] h[j],
            ),
    ensures
        filled_by(remembered(h, room, n), h.subrange(0, n)),
    decreases n,
{
    if n > 0 {
        remembered_is_filled_by(h, room, n - 1);
        let before = h.subrange(0, n - 1);
        cached_answer_is_fresh(remembered(h, room, n - 1), room, before, h[n - 1]);
        assert(before.push(h[n - 1]) =~= h.subrange(0, n));
    }
}

} // verus!
