//! The profiles that a command sees, and those that it drafts.

use vstd::prelude::*;
use crate::attach::refs::ProfileKind;
use crate::cli::scope::Scope;
use crate::profiles::graph::{acyclic, dependencies_first, graph_of, orders, Graph, Includes};
use crate::profiles::model::{
    profiles_error_text, LoadedProfilesRegistry, LoadedProfilesRegistryView, ProfileScope,
    ResolvedSubjectProfiles,
};
use crate::profiles::resolve::{
    checked_registry, load_profiles_registry, merged_registry, registry_acyclic,
    resolve_subject_profiles, resolved, ProjectProfiles,
};
use crate::strmap::{
    lex_lt, lookup, lookup_at, lookup_some, put, put_last, rank, sorted, StrMap,
};
use crate::text::{cat2, cat3, str_eq, Duplicate};
use crate::types::config::{PolicyConfig, PrintRevoltConfig, PrintRevoltConfigView};
use crate::types::profile::{
    default_policy_profile_patch_v1, GuidelineProfileV1, GuidelineProfileV1View,
    GuidelineProfilesFileV1, GuidelineProfilesFileV1View, PolicyProfilePatchV1, PolicyProfileV1,
    PolicyProfileV1View, PolicyProfilesFileV1, PolicyProfilesFileV1View, ProfileRefs,
    ProfileRefsView,
};

verus! {

/// The entries that come from a layer.
pub open spec fn from_layer<W>(
    s: Seq<(Seq<char>, W)>,
    scopes: Seq<(Seq<char>, ProfileScope)>,
    layer: ProfileScope,
) -> Seq<(Seq<char>, W)> {
    s.filter(|e: (Seq<char>, W)| lookup(scopes, e.0) == Some(layer))
}

/// The registry with the profiles of one layer only.
pub open spec fn layer_of(r: LoadedProfilesRegistryView, layer: ProfileScope) -> LoadedProfilesRegistryView {
    LoadedProfilesRegistryView {
        policy_profiles: from_layer(r.policy_profiles, r.policy_scope, layer),
        guideline_profiles: from_layer(r.guideline_profiles, r.guideline_scope, layer),
        ..r
    }
}

/// The registry that commands of a scope see.
pub open spec fn scoped_registry(r: LoadedProfilesRegistryView, scope: Scope) -> LoadedProfilesRegistryView {
    match scope {
        Scope::Both => r,
        Scope::Global => layer_of(r, ProfileScope::Global),
        Scope::Project => layer_of(r, ProfileScope::Project),
    }
}

fn keep_layer<V: Duplicate>(
    profiles: &StrMap<V>,
    scopes: &StrMap<ProfileScope>,
    layer: ProfileScope,
) -> (r: StrMap<V>)
    ensures
        r@ == from_layer(profiles@, scopes@, layer),
{
    let ghost s = profiles@;
    let ghost keep = |e: (Seq<char>, V::V)| lookup(scopes@, e.0) == Some(layer);
    let mut out: StrMap<V> = StrMap::new();
    profiles.order();
    let mut i: usize = 0;
    proof {
        reveal(Seq::filter);
        assert(s.subrange(0, 0) =~= Seq::empty());
    }
    while i < profiles.len()
        invariant
            i <= s.len(),
            s == profiles@,
            sorted(s),
            keep == (|e: (Seq<char>, V::V)| lookup(scopes@, e.0) == Some(layer)),
            out@ == s.subrange(0, i as int).filter(keep),
            forall|j: int, q: int|
                0 <= j < out@.len() && i <= q < s.len() ==> #[trigger] lex_lt(out@[j].0, s[q].0),
        decreases s.len() - i,
    {
        let ghost before = out@;
        let k = profiles.key_at(i);
        let here = match scopes.get(k.as_str()) {
            None => false,
            Some(x) => *x == layer,
        };
        proof {
            reveal(Seq::filter);
            assert(s.subrange(0, i + 1).drop_last() =~= s.subrange(0, i as int));
            assert(s.subrange(0, i + 1).last() == s[i as int]);
            assert(keep(s[i as int]) == here);
        }
        if here {
            proof {
                assert forall|j: int| 0 <= j < before.len() implies lex_lt(
                    #[trigger] before[j].0,
                    k@,
                ) by {
                    assert(lex_lt(before[j].0, s[i as int].0));
                }
                put_last(before, k@, s[i as int].1);
            }
            out.insert(k.clone(), profiles.value_at(i).dup());
            assert(out@ == before.push(s[i as int]));
        }
        assert forall|j: int, q: int| 0 <= j < out@.len() && i + 1 <= q < s.len() implies #[trigger] lex_lt(
            out@[j].0,
            s[q].0,
        ) by {
            if j < before.len() {
                assert(lex_lt(before[j].0, s[q].0));
            } else {
                assert(lex_lt(s[i as int].0, s[q].0));
            }
        }
        i = i + 1;
    }
    assert(s.subrange(0, i as int) =~= s);
    out
}

/// Leaves the profiles of the layers that a scope names.
pub fn filter_registry_for_scope(registry: &mut LoadedProfilesRegistry, scope: Scope)
    ensures
        final(registry)@ == scoped_registry(old(registry)@, scope),
{
    let layer = match scope {
        Scope::Both => {
            return ;
        },
        Scope::Global => ProfileScope::Global,
        Scope::Project => ProfileScope::Project,
    };
    let policy = keep_layer(&registry.policy_profiles, &registry.policy_scope, layer);
    let guideline = keep_layer(&registry.guideline_profiles, &registry.guideline_scope, layer);
    registry.policy_profiles = policy;
    registry.guideline_profiles = guideline;
}

proof fn sub_order(g: Graph, h: Graph, order: Seq<Seq<char>>)
    requires
        dependencies_first(g, order),
        forall|k: Seq<char>| #[trigger] lookup(h, k) is Some ==> lookup(h, k) == lookup(g, k),
    ensures
        ({
            let o = order.filter(|k: Seq<char>| lookup(h, k) is Some);
            &&& dependencies_first(h, o)
            &&& forall|k: Seq<char>| #[trigger]
                o.contains(k) <==> order.contains(k) && lookup(h, k) is Some
        }),
    decreases order.len(),
{
    reveal(Seq::filter);
    let p = |k: Seq<char>| lookup(h, k) is Some;
    let o = order.filter(p);
    if order.len() > 0 {
        let shorter = order.drop_last();
        let last = order.last();
        assert forall|i: int| #![trigger shorter[i]] 0 <= i < shorter.len() implies lookup(
            g,
            shorter[i],
        ) is Some && forall|j: int|
            #![trigger lookup(g, shorter[i])->0[j]]
            0 <= j < lookup(g, shorter[i])->0.len() && lookup(g, lookup(g, shorter[i])->0[j]) is Some
                ==> shorter.subrange(0, i).contains(lookup(g, shorter[i])->0[j]) by {
            assert(shorter[i] == order[i]);
            assert(shorter.subrange(0, i) =~= order.subrange(0, i));
        }
        sub_order(g, h, shorter);
        let o0 = shorter.filter(p);
        assert forall|k: Seq<char>| order.contains(k) <==> shorter.contains(k) || k == last by {
            if order.contains(k) {
                let i = choose|i: int| 0 <= i < order.len() && order[i] == k;
                if i < shorter.len() {
                    assert(shorter[i] == k);
                }
            }
            if shorter.contains(k) {
                let i = choose|i: int| 0 <= i < shorter.len() && shorter[i] == k;
                assert(order[i] == k);
            }
            assert(order[order.len() - 1] == last);
        }
        if p(last) {
            assert(o == o0.push(last));
            assert forall|k: Seq<char>| #[trigger]
                o.contains(k) <==> order.contains(k) && lookup(h, k) is Some by {
                if o.contains(k) {
                    let i = choose|i: int| 0 <= i < o.len() && o[i] == k;
                    if i < o0.len() {
                        assert(o0[i] == k);
                        assert(o0.contains(k));
                    }
                }
                if order.contains(k) && lookup(h, k) is Some {
                    if k == last {
                        assert(o[o0.len() as int] == k);
                    } else {
                        assert(o0.contains(k));
                        let i = choose|i: int| 0 <= i < o0.len() && o0[i] == k;
                        assert(o[i] == k);
                    }
                }
            }
            if o0.contains(last) {
                let i = choose|i: int| 0 <= i < shorter.len() && shorter[i] == last;
                assert(order[i] == order[order.len() - 1]);
            }
            assert(o.no_duplicates());
            assert forall|i: int| #![trigger o[i]] 0 <= i < o.len() implies lookup(h, o[i]) is Some
                && forall|j: int|
                #![trigger lookup(h, o[i])->0[j]]
                0 <= j < lookup(h, o[i])->0.len() && lookup(h, lookup(h, o[i])->0[j]) is Some
                    ==> o.subrange(0, i).contains(lookup(h, o[i])->0[j]) by {
                assert(o.subrange(0, i) =~= o0.subrange(0, i));
                if i < o0.len() {
                    assert(o[i] == o0[i]);
                } else {
                    assert(o0.subrange(0, i) =~= o0);
                    let n = order.len() - 1;
                    assert(order[n] == last);
                    assert(order.subrange(0, n) =~= shorter);
                    assert forall|j: int|
                        #![trigger lookup(h, o[i])->0[j]]
                        0 <= j < lookup(h, o[i])->0.len() && lookup(
                            h,
                            lookup(h, o[i])->0[j],
                        ) is Some implies o0.contains(lookup(h, o[i])->0[j]) by {
                        let d = lookup(g, order[n])->0[j];
                        assert(lookup(h, last) == lookup(g, last));
                        assert(lookup(h, d) == lookup(g, d));
                        assert(shorter.contains(d));
                    }
                }
            }
        } else {
            assert(o == o0);
        }
    }
}

/// What a filter keeps of sorted entries is sorted, and among them.
pub proof fn filtered_lookup<W>(s: Seq<(Seq<char>, W)>, keep: spec_fn((Seq<char>, W)) -> bool, n: int)
    requires
        sorted(s),
        0 <= n <= s.len(),
    ensures
        ({
            let t = s.subrange(0, n).filter(keep);
            &&& sorted(t)
            &&& forall|i: int|
                0 <= i < t.len() ==> exists|j: int| 0 <= j < n && #[trigger] t[i] == s[j]
        }),
    decreases n,
{
    reveal(Seq::filter);
    let t = s.subrange(0, n).filter(keep);
    if n > 0 {
        filtered_lookup(s, keep, n - 1);
        assert(s.subrange(0, n).drop_last() =~= s.subrange(0, n - 1));
        let t0 = s.subrange(0, n - 1).filter(keep);
        assert forall|i: int| 0 <= i < t.len() implies exists|j: int|
            0 <= j < n && #[trigger] t[i] == s[j] by {
            if i < t0.len() {
                assert(t[i] == t0[i]);
            } else {
                assert(t[i] == s[n - 1]);
            }
        }
        assert forall|i: int, j: int| 0 <= i < j < t.len() implies #[trigger] lex_lt(
            t[i].0,
            t[j].0,
        ) by {
            if j < t0.len() {
                assert(lex_lt(t0[i].0, t0[j].0));
            } else {
                let q = choose|q: int| 0 <= q < n - 1 && t0[i] == s[q];
                assert(lex_lt(s[q].0, s[n - 1].0));
            }
        }
    }
}

proof fn layer_is_acyclic<T: Includes>(
    s: Seq<(Seq<char>, T::V)>,
    keep: spec_fn((Seq<char>, T::V)) -> bool,
)
    requires
        sorted(s),
        acyclic(graph_of::<T>(s)),
    ensures
        acyclic(graph_of::<T>(s.filter(keep))),
{
    let t = s.filter(keep);
    let g = graph_of::<T>(s);
    let h = graph_of::<T>(t);
    assert(s.subrange(0, s.len() as int) =~= s);
    filtered_lookup(s, keep, s.len() as int);
    assert(sorted(g)) by {
        assert forall|i: int, j: int| 0 <= i < j < g.len() implies #[trigger] lex_lt(
            g[i].0,
            g[j].0,
        ) by {
            assert(lex_lt(s[i].0, s[j].0));
        }
    }
    assert(sorted(h)) by {
        assert forall|i: int, j: int| 0 <= i < j < h.len() implies #[trigger] lex_lt(
            h[i].0,
            h[j].0,
        ) by {
            assert(lex_lt(t[i].0, t[j].0));
        }
    }
    assert forall|k: Seq<char>| #[trigger] lookup(h, k) is Some implies lookup(h, k) == lookup(
        g,
        k,
    ) by {
        lookup_some(h, k);
        let i = rank(h, k);
        let j = choose|j: int| 0 <= j < s.len() && t[i] == s[j];
        assert(g[j] == h[i]);
        lookup_at(g, j);
    }
    let order = choose|order: Seq<Seq<char>>| orders(g, order);
    sub_order(g, h, order);
    let o = order.filter(|k: Seq<char>| lookup(h, k) is Some);
    assert forall|k: Seq<char>| #[trigger] lookup(h, k) is Some implies o.contains(k) by {
        assert(lookup(g, k) is Some);
    }
    assert(orders(h, o));
}

/// A registry without cycles has none in any of its layers.
pub proof fn layers_stay_acyclic(r: LoadedProfilesRegistryView, scope: Scope)
    requires
        registry_acyclic(r),
        sorted(r.policy_profiles),
        sorted(r.guideline_profiles),
    ensures
        registry_acyclic(scoped_registry(r, scope)),
{
    let layer = match scope {
        Scope::Project => ProfileScope::Project,
        _ => ProfileScope::Global,
    };
    layer_is_acyclic::<PolicyProfileV1>(
        r.policy_profiles,
        |e: (Seq<char>, PolicyProfileV1View)| lookup(r.policy_scope, e.0) == Some(layer),
    );
    layer_is_acyclic::<GuidelineProfileV1>(
        r.guideline_profiles,
        |e: (Seq<char>, GuidelineProfileV1View)| lookup(r.guideline_scope, e.0) == Some(layer),
    );
}

/// The project's profiles as a scope sees them.
pub open spec fn project_in(project: ProjectProfiles, scope: Scope) -> ProjectProfiles {
    if scope == Scope::Global {
        ProjectProfiles::Absent
    } else {
        project
    }
}

/// The registry that commands of a scope work with.
pub open spec fn registry_for(
    policy: PolicyProfilesFileV1View,
    guideline: GuidelineProfilesFileV1View,
    project: ProjectProfiles,
    scope: Scope,
) -> Result<LoadedProfilesRegistryView, Seq<char>> {
    match checked_registry(merged_registry(policy, guideline, project_in(project, scope))) {
        Ok(r) => Ok(scoped_registry(r, scope)),
        Err(e) => Err("failed to load profile registries: "@ + profiles_error_text(e)),
    }
}

pub fn load_registry_for_scope(
    policy: PolicyProfilesFileV1,
    guideline: GuidelineProfilesFileV1,
    project: ProjectProfiles,
    scope: Scope,
) -> (r: Result<LoadedProfilesRegistry, String>)
    ensures
        (match r {
            Ok(reg) => Ok(reg@),
            Err(e) => Err(e@),
        }) == registry_for(policy@, guideline@, project, scope),
        r is Ok ==> registry_acyclic(r->Ok_0@),
{
    let project = match scope {
        Scope::Global => ProjectProfiles::Absent,
        _ => project,
    };
    match load_profiles_registry(policy, guideline, project) {
        Err(e) => {
            let m = e.message();
            Err(cat2("failed to load profile registries: ", m.as_str()))
        },
        Ok(mut registry) => {
            registry.policy_profiles.order();
            registry.guideline_profiles.order();
            proof {
                layers_stay_acyclic(registry@, scope);
            }
            filter_registry_for_scope(&mut registry, scope);
            Ok(registry)
        },
    }
}

/// The names asked for, or, where none are, those of the settings.
pub open spec fn chosen(given: Seq<Seq<char>>, settings: Seq<Seq<char>>) -> Seq<Seq<char>> {
    if given.len() == 0 {
        settings
    } else {
        given
    }
}

pub open spec fn chosen_refs(given: ProfileRefsView, cfg: PrintRevoltConfigView) -> ProfileRefsView {
    ProfileRefsView {
        policy_profiles: chosen(given.policy_profiles, cfg.policy_profiles),
        guideline_profiles: chosen(given.guideline_profiles, cfg.guideline_profiles),
    }
}

/// The profiles that a command asks for.
pub fn requested_refs(given: &ProfileRefs, cfg: &PrintRevoltConfig) -> (r: ProfileRefs)
    ensures
        r@ == chosen_refs(given@, cfg@),
{
    assert(given.policy_profiles.deep_view().len() == given.policy_profiles@.len());
    assert(given.guideline_profiles.deep_view().len() == given.guideline_profiles@.len());
    ProfileRefs {
        policy_profiles: if given.policy_profiles.len() == 0 {
            cfg.policy_profiles.dup()
        } else {
            given.policy_profiles.dup()
        },
        guideline_profiles: if given.guideline_profiles.len() == 0 {
            cfg.guideline_profiles.dup()
        } else {
            given.guideline_profiles.dup()
        },
    }
}

/// What the profiles asked for, or those of the settings, come to. The global policy is
/// the floor.
pub fn resolved_profiles_for_scope(
    registry: &LoadedProfilesRegistry,
    given: &ProfileRefs,
    cfg: &PrintRevoltConfig,
    floor: &PolicyConfig,
) -> (r: ResolvedSubjectProfiles)
    requires
        registry_acyclic(registry@),
    ensures
        r@ == resolved(registry@, chosen_refs(given@, cfg@), cfg@.policy, floor@),
{
    let refs = requested_refs(given, cfg);
    resolve_subject_profiles(registry, &refs, &cfg.policy, floor)
}

/// Whether a registry has a profile.
pub open spec fn has_profile(r: LoadedProfilesRegistryView, kind: ProfileKind, id: Seq<char>) -> bool {
    match kind {
        ProfileKind::Policy => lookup(r.policy_profiles, id) is Some,
        ProfileKind::Guideline => lookup(r.guideline_profiles, id) is Some,
    }
}

/// Only a profile that the registry has can be attached.
pub fn check_profile_exists(registry: &LoadedProfilesRegistry, kind: ProfileKind, id: &str) -> (r:
    Result<(), String>)
    ensures
        r is Ok <==> has_profile(registry@, kind, id@),
        r is Err ==> r->Err_0@ == "profile id not found in effective registry: "@ + id@,
{
    let exists = match kind {
        ProfileKind::Policy => registry.policy_profiles.contains_key(id),
        ProfileKind::Guideline => registry.guideline_profiles.contains_key(id),
    };
    if exists {
        Ok(())
    } else {
        Err(cat2("profile id not found in effective registry: ", id))
    }
}

/// Whether a profiles file to be changed is of the known version. `name` is the file's.
pub fn check_profiles_file(name: &str, version: &str) -> (r: Result<(), String>)
    ensures
        r is Ok <==> version@ == "1"@,
        r is Err ==> r->Err_0@ == "unknown "@ + name@ + " schema_version: "@ + version@
            + " (expected 1)"@,
{
    if str_eq(version, "1") {
        Ok(())
    } else {
        let head = cat3("unknown ", name, " schema_version: ");
        Err(cat3(head.as_str(), version, " (expected 1)"))
    }
}

/// A policy profile to start from: it changes nothing.
pub open spec fn policy_draft(description: Option<Seq<char>>) -> PolicyProfileV1View {
    PolicyProfileV1View {
        description,
        includes: Seq::empty(),
        patch: default_policy_profile_patch_v1(),
    }
}

pub fn draft_policy_profile(description: Option<String>) -> (r: PolicyProfileV1)
    ensures
        r@ == policy_draft(description.deep_view()),
{
    let r = PolicyProfileV1 {
        description,
        includes: Vec::new(),
        patch: PolicyProfilePatchV1::default(),
    };
    assert(r@.includes =~= Seq::empty());
    r
}

/// A guideline profile to start from.
pub open spec fn guideline_draft(description: Option<Seq<char>>) -> GuidelineProfileV1View {
    GuidelineProfileV1View {
        description,
        includes: Seq::empty(),
        instructions: seq!["Be explicit about assumptions and tradeoffs."@],
    }
}

pub fn draft_guideline_profile(description: Option<String>) -> (r: GuidelineProfileV1)
    ensures
        r@ == guideline_draft(description.deep_view()),
{
    let mut instructions: Vec<String> = Vec::new();
    instructions.push("Be explicit about assumptions and tradeoffs.".to_owned());
    let r = GuidelineProfileV1 { description, includes: Vec::new(), instructions };
    assert(r@.includes =~= Seq::empty());
    assert(r@.instructions =~= seq!["Be explicit about assumptions and tradeoffs."@]);
    r
}

/// Stores a drafted policy profile.
pub fn add_policy_profile(file: &mut PolicyProfilesFileV1, id: String, profile: PolicyProfileV1)
    ensures
        final(file)@ == (PolicyProfilesFileV1View {
            profiles: put(old(file)@.profiles, id@, profile@),
            ..old(file)@
        }),
{
    file.profiles.insert(id, profile);
}

/// Stores a drafted guideline profile.
pub fn add_guideline_profile(
    file: &mut GuidelineProfilesFileV1,
    id: String,
    profile: GuidelineProfileV1,
)
    ensures
        final(file)@ == (GuidelineProfilesFileV1View {
            profiles: put(old(file)@.profiles, id@, profile@),
            ..old(file)@
        }),
{
    file.profiles.insert(id, profile);
}

} // verus!
