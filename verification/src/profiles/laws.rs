//! What profiles come to, whatever they hold.

use vstd::prelude::*;
use crate::digest::json_digest;
use crate::json::JsonView;
use crate::profiles::graph::{
    acyclic, closed_graph, dependencies_first, fault_free_means_well_founded, graph_fault, graph_of,
    has_blank, Graph, Includes,
};
use crate::profiles::model::{
    LoadedProfilesRegistryView, ProfileProvenanceEntryView, ProfileScope, ResolvedSubjectProfilesView,
};
use crate::profiles::order::{
    include_path, includes_name, leads, only_requested_names_are_missing, reached,
    request_finds_what_it_reaches, requested, requests_are_resolved_in_order,
};
use crate::profiles::payload::{
    policy_documents_differ, provenance_documents_differ, refs_documents_differ,
    resolution_document, str_arrays_differ,
};
use crate::profiles::resolve::{
    apply_guidelines, apply_profiles, applied_policy, at_least_as_strict, checked_registry, clamped,
    kept_instructions, merged_registry, missing_warnings, patched, profiles_only_tighten, registry_acyclic, resolved,
    scope_of, scopes_of, with_prefixes, Applying, Guiding, ProjectProfiles, Shaped,
};
use crate::strmap::{
    lex_lt, lookup, lookup_at, lookup_mapped, lookup_put_all, lookup_some, put_all, put_all_sorted,
    rank, sorted,
};
use crate::text::{decimal, is_blank};
use crate::types::config::PolicyConfigView;
use crate::types::profile::{
    GuidelineProfileV1, GuidelineProfileV1View, GuidelineProfilesFileV1,
    GuidelineProfilesFileV1View, PolicyProfilePatchV1View, PolicyProfileV1, PolicyProfileV1View,
    PolicyProfilesFileV1, PolicyProfilesFileV1View, ProfileRefsView,
};

verus! {

/// The smaller of two ages.
pub open spec fn lower(a: u64, b: u64) -> u64 {
    if a < b {
        a
    } else {
        b
    }
}

proof fn prefixes_come_from(have: Seq<Seq<Seq<char>>>, add: Seq<Seq<Seq<char>>>, i: int)
    requires
        0 <= i,
    ensures
        have.len() <= with_prefixes(have, add, i).len(),
        with_prefixes(have, add, i).subrange(0, have.len() as int) == have,
        forall|x: Seq<Seq<char>>| #[trigger]
            with_prefixes(have, add, i).contains(x) ==> have.contains(x) || add.contains(x),
        forall|k: int|
            i <= k < add.len() ==> with_prefixes(have, add, i).contains(#[trigger] add[k]),
    decreases add.len() - i,
{
    if i < add.len() {
        let next = if have.contains(add[i]) {
            have
        } else {
            have.push(add[i])
        };
        prefixes_come_from(next, add, i + 1);
        let all = with_prefixes(have, add, i);
        assert(all.subrange(0, have.len() as int) =~= next.subrange(0, have.len() as int)) by {
            assert forall|k: int| 0 <= k < have.len() implies all[k] == next[k] by {
                assert(all.subrange(0, next.len() as int)[k] == all[k]);
            }
        }
        assert(next.subrange(0, have.len() as int) =~= have);
        assert forall|x: Seq<Seq<char>>| #[trigger] all.contains(x) implies have.contains(x)
            || add.contains(x) by {
            if next.contains(x) && !have.contains(x) {
                let p = choose|p: int| 0 <= p < next.len() && next[p] == x;
                assert(p == have.len());
                assert(add[i] == x);
            }
        }
        assert(all.contains(add[i])) by {
            let p = if have.contains(add[i]) {
                choose|p: int| 0 <= p < have.len() && have[p] == add[i]
            } else {
                have.len() as int
            };
            assert(next[p] == add[i]);
            assert(all.subrange(0, next.len() as int)[p] == all[p]);
        }
    } else {
        assert(have.subrange(0, have.len() as int) =~= have);
    }
}

/// What a profile tightens takes effect, and nothing else does: a switch is on afterwards
/// exactly where it was on before, the profile turns it on or the floor has it on; the age of
/// evidence is the lowest of the three; and the verify commands are those of the three, those
/// from before coming first and in their order.
pub proof fn profile_takes_effect(
    s: Shaped,
    floor: PolicyConfigView,
    id: Seq<char>,
    patch: PolicyProfilePatchV1View,
)
    ensures
        ({
            let p = patched(s, floor, id, patch).policy;
            let had = s.policy.verify.command_prefixes;
            let has = p.verify.command_prefixes;
            &&& p.enabled == (s.policy.enabled || patch.enabled == Some(true) || floor.enabled)
            &&& p.deny_dangerous_always == (s.policy.deny_dangerous_always
                || patch.deny_dangerous_always == Some(true) || floor.deny_dangerous_always)
            &&& p.verify.required == (s.policy.verify.required || patch.verify_required == Some(
                true,
            ) || floor.verify.required)
            &&& p.verify.max_age_ms == lower(
                lower(s.policy.verify.max_age_ms, floor.verify.max_age_ms),
                match patch.verify_max_age_ms {
                    Some(ms) => ms,
                    None => s.policy.verify.max_age_ms,
                },
            )
            &&& had.len() <= has.len() && has.subrange(0, had.len() as int) == had
            &&& forall|x: Seq<Seq<char>>| #[trigger]
                has.contains(x) <==> had.contains(x) || patch.verify_command_prefixes_add.contains(x)
                    || floor.verify.command_prefixes.contains(x)
        }),
{
    let p = patched(s, floor, id, patch).policy;
    let had = s.policy.verify.command_prefixes;
    let has = p.verify.command_prefixes;
    let add = patch.verify_command_prefixes_add;
    let base = floor.verify.command_prefixes;
    let mid = with_prefixes(had, add, 0);
    assert(has == with_prefixes(mid, base, 0));
    prefixes_come_from(had, add, 0);
    prefixes_come_from(mid, base, 0);
    assert(has.subrange(0, had.len() as int) =~= had) by {
        assert forall|k: int| 0 <= k < had.len() implies has[k] == had[k] by {
            assert(mid.subrange(0, had.len() as int)[k] == mid[k]);
            assert(has.subrange(0, mid.len() as int)[k] == has[k]);
        }
    }
    assert forall|x: Seq<Seq<char>>| #[trigger]
        has.contains(x) <==> had.contains(x) || add.contains(x) || base.contains(x) by {
        if mid.contains(x) {
            let q = choose|q: int| 0 <= q < mid.len() && mid[q] == x;
            assert(has.subrange(0, mid.len() as int)[q] == has[q]);
            assert(has.contains(x));
        }
        if had.contains(x) {
            let q = choose|q: int| 0 <= q < had.len() && had[q] == x;
            assert(mid.subrange(0, had.len() as int)[q] == mid[q]);
            assert(mid.contains(x));
        }
        if add.contains(x) {
            let q = choose|q: int| 0 <= q < add.len() && add[q] == x;
            assert(mid.contains(add[q]));
        }
        if base.contains(x) {
            let q = choose|q: int| 0 <= q < base.len() && base[q] == x;
            assert(has.contains(base[q]));
        }
    }
}

/// Whether warnings that were there are still there, in their place.
pub open spec fn keeps_warnings(before: Seq<Seq<char>>, after: Seq<Seq<char>>) -> bool {
    before.len() <= after.len() && after.subrange(0, before.len() as int) == before
}

/// What a profile would relax is warned about, by its name, each switch and the age once; a
/// profile that relaxes nothing, applied to a policy at its floor, gives no warning.
pub proof fn relaxing_is_warned_about(
    s: Shaped,
    floor: PolicyConfigView,
    id: Seq<char>,
    patch: PolicyProfilePatchV1View,
)
    requires
        at_least_as_strict(s.policy, floor),
    ensures
        ({
            let t = patched(s, floor, id, patch);
            let enabled = patch.enabled == Some(false) && s.policy.enabled;
            let deny = patch.deny_dangerous_always == Some(false) && s.policy.deny_dangerous_always;
            let required = patch.verify_required == Some(false) && s.policy.verify.required;
            let age = patch.verify_max_age_ms matches Some(ms) && ms > s.policy.verify.max_age_ms;
            let one = |b: bool, w: Seq<char>|
                if b {
                    seq!["policy_profile "@ + id + w]
                } else {
                    Seq::<Seq<char>>::empty()
                };
            t.warnings == s.warnings + one(
                enabled,
                " attempted to relax policy.enabled=false; ignored"@,
            ) + one(
                deny,
                " attempted to relax policy.deny_dangerous_always=false; ignored"@,
            ) + one(
                required,
                " attempted to relax policy.verify.required=false; ignored"@,
            ) + one(
                age,
                " attempted to relax policy.verify.max_age_ms to "@ + decimal(
                    patch.verify_max_age_ms->0 as nat,
                ) + "; ignored"@,
            )
        }),
{
    let t = patched(s, floor, id, patch);
    let w = "policy_profile "@ + id + " attempted to relax policy.verify.max_age_ms to "@ + decimal(
        patch.verify_max_age_ms->0 as nat,
    ) + "; ignored"@;
    let v = "policy_profile "@ + id + (" attempted to relax policy.verify.max_age_ms to "@ + decimal(
        patch.verify_max_age_ms->0 as nat,
    ) + "; ignored"@);
    assert(w =~= v);
}

/// Whether one policy profile of a registry includes another.
pub open spec fn policy_includes(
    r: LoadedProfilesRegistryView,
    a: Seq<char>,
    b: Seq<char>,
) -> bool {
    lookup(r.policy_profiles, a) matches Some(p) && p.includes.contains(b)
}

/// Whether a policy profile is requested, or included by one that is, directly or through
/// others.
pub open spec fn policy_asked(
    r: LoadedProfilesRegistryView,
    refs: ProfileRefsView,
    id: Seq<char>,
) -> bool {
    exists|path: Seq<Seq<char>>| #[trigger] policy_path(r, refs, path, id)
}

/// Whether a path of includes leads from a requested policy profile to another.
pub open spec fn policy_path(
    r: LoadedProfilesRegistryView,
    refs: ProfileRefsView,
    path: Seq<Seq<char>>,
    id: Seq<char>,
) -> bool {
    &&& path.len() > 0
    &&& refs.policy_profiles.contains(path[0])
    &&& path.last() == id
    &&& forall|k: int, m: int|
        0 <= k && m == k + 1 && m < path.len() ==> policy_includes(
            r,
            #[trigger] path[k],
            #[trigger] path[m],
        )
}

/// Whether one guideline profile of a registry includes another.
pub open spec fn guideline_includes(
    r: LoadedProfilesRegistryView,
    a: Seq<char>,
    b: Seq<char>,
) -> bool {
    lookup(r.guideline_profiles, a) matches Some(p) && p.includes.contains(b)
}

/// Whether a guideline profile is requested, or included by one that is, directly or through
/// others.
pub open spec fn guideline_asked(
    r: LoadedProfilesRegistryView,
    refs: ProfileRefsView,
    id: Seq<char>,
) -> bool {
    exists|path: Seq<Seq<char>>| #[trigger] guideline_path(r, refs, path, id)
}

/// Whether a path of includes leads from a requested guideline profile to another.
pub open spec fn guideline_path(
    r: LoadedProfilesRegistryView,
    refs: ProfileRefsView,
    path: Seq<Seq<char>>,
    id: Seq<char>,
) -> bool {
    &&& path.len() > 0
    &&& refs.guideline_profiles.contains(path[0])
    &&& path.last() == id
    &&& forall|k: int, m: int|
        0 <= k && m == k + 1 && m < path.len() ==> guideline_includes(
            r,
            #[trigger] path[k],
            #[trigger] path[m],
        )
}

spec fn policy_graph(r: LoadedProfilesRegistryView) -> Graph {
    graph_of::<PolicyProfileV1>(r.policy_profiles)
}

spec fn guideline_graph(r: LoadedProfilesRegistryView) -> Graph {
    graph_of::<GuidelineProfileV1>(r.guideline_profiles)
}

proof fn policy_graph_is(r: LoadedProfilesRegistryView, a: Seq<char>, b: Seq<char>)
    requires
        sorted(r.policy_profiles),
    ensures
        lookup(policy_graph(r), a) is Some <==> lookup(r.policy_profiles, a) is Some,
        includes_name(policy_graph(r), a, b) <==> policy_includes(r, a, b),
{
    let f = |v: PolicyProfileV1View| v.includes;
    assert(policy_graph(r) =~= r.policy_profiles.map_values(
        |e: (Seq<char>, PolicyProfileV1View)| (e.0, f(e.1)),
    ));
    lookup_mapped(r.policy_profiles, policy_graph(r), f, a);
}

proof fn guideline_graph_is(r: LoadedProfilesRegistryView, a: Seq<char>, b: Seq<char>)
    requires
        sorted(r.guideline_profiles),
    ensures
        lookup(guideline_graph(r), a) is Some <==> lookup(r.guideline_profiles, a) is Some,
        includes_name(guideline_graph(r), a, b) <==> guideline_includes(r, a, b),
{
    let f = |v: GuidelineProfileV1View| v.includes;
    assert(guideline_graph(r) =~= r.guideline_profiles.map_values(
        |e: (Seq<char>, GuidelineProfileV1View)| (e.0, f(e.1)),
    ));
    lookup_mapped(r.guideline_profiles, guideline_graph(r), f, a);
}

proof fn policy_asked_is_reached(
    r: LoadedProfilesRegistryView,
    refs: ProfileRefsView,
    id: Seq<char>,
)
    requires
        sorted(r.policy_profiles),
    ensures
        policy_asked(r, refs, id) <==> reached(policy_graph(r), refs.policy_profiles, id),
{
    let g = policy_graph(r);
    if policy_asked(r, refs, id) {
        let p = choose|p: Seq<Seq<char>>| #[trigger] policy_path(r, refs, p, id);
        assert forall|k: int, m: int| 0 <= k && m == k + 1 && m < p.len() implies includes_name(
            g,
            #[trigger] p[k],
            #[trigger] p[m],
        ) by {
            policy_graph_is(r, p[k], p[m]);
        }
        assert(include_path(g, p));
        assert(leads(g, refs.policy_profiles, p, id));
    }
    if reached(g, refs.policy_profiles, id) {
        let p = choose|p: Seq<Seq<char>>| leads(g, refs.policy_profiles, p, id);
        assert forall|k: int, m: int| 0 <= k && m == k + 1 && m < p.len() implies policy_includes(
            r,
            #[trigger] p[k],
            #[trigger] p[m],
        ) by {
            policy_graph_is(r, p[k], p[m]);
            assert(includes_name(g, p[k], p[m]));
        }
        assert(policy_path(r, refs, p, id));
    }
}

proof fn guideline_asked_is_reached(
    r: LoadedProfilesRegistryView,
    refs: ProfileRefsView,
    id: Seq<char>,
)
    requires
        sorted(r.guideline_profiles),
    ensures
        guideline_asked(r, refs, id) <==> reached(guideline_graph(r), refs.guideline_profiles, id),
{
    let g = guideline_graph(r);
    if guideline_asked(r, refs, id) {
        let p = choose|p: Seq<Seq<char>>| #[trigger] guideline_path(r, refs, p, id);
        assert forall|k: int, m: int| 0 <= k && m == k + 1 && m < p.len() implies includes_name(
            g,
            #[trigger] p[k],
            #[trigger] p[m],
        ) by {
            guideline_graph_is(r, p[k], p[m]);
        }
        assert(include_path(g, p));
        assert(leads(g, refs.guideline_profiles, p, id));
    }
    if reached(g, refs.guideline_profiles, id) {
        let p = choose|p: Seq<Seq<char>>| leads(g, refs.guideline_profiles, p, id);
        assert forall|k: int, m: int|
            0 <= k && m == k + 1 && m < p.len() implies guideline_includes(
            r,
            #[trigger] p[k],
            #[trigger] p[m],
        ) by {
            guideline_graph_is(r, p[k], p[m]);
            assert(includes_name(g, p[k], p[m]));
        }
        assert(guideline_path(r, refs, p, id));
    }
}

/// Whether a policy profile exists and turns a switch on.
pub open spec fn turns_on_policy(r: LoadedProfilesRegistryView, id: Seq<char>) -> bool {
    lookup(r.policy_profiles, id) matches Some(p) && p.patch.enabled == Some(true)
}

pub open spec fn turns_on_denial(r: LoadedProfilesRegistryView, id: Seq<char>) -> bool {
    lookup(r.policy_profiles, id) matches Some(p) && p.patch.deny_dangerous_always == Some(true)
}

pub open spec fn turns_on_verification(r: LoadedProfilesRegistryView, id: Seq<char>) -> bool {
    lookup(r.policy_profiles, id) matches Some(p) && p.patch.verify_required == Some(true)
}

/// Whether a policy profile exists and bounds the age of evidence so.
pub open spec fn bounds_age(r: LoadedProfilesRegistryView, id: Seq<char>, ms: u64) -> bool {
    lookup(r.policy_profiles, id) matches Some(p) && p.patch.verify_max_age_ms == Some(ms)
}

/// Whether a policy profile exists and adds a verify command.
pub open spec fn adds_command(
    r: LoadedProfilesRegistryView,
    id: Seq<char>,
    x: Seq<Seq<char>>,
) -> bool {
    lookup(r.policy_profiles, id) matches Some(p) && p.patch.verify_command_prefixes_add.contains(x)
}

spec fn applied_so(
    r: LoadedProfilesRegistryView,
    floor: PolicyConfigView,
    ids: Seq<Seq<char>>,
    i: int,
    a: PolicyConfigView,
    q: PolicyConfigView,
) -> bool {
    &&& q.enabled ==> a.enabled || floor.enabled || exists|j: int|
        i <= j < ids.len() && turns_on_policy(r, #[trigger] ids[j])
    &&& q.deny_dangerous_always ==> a.deny_dangerous_always || floor.deny_dangerous_always
        || exists|j: int| i <= j < ids.len() && turns_on_denial(r, #[trigger] ids[j])
    &&& q.verify.required ==> a.verify.required || floor.verify.required || exists|j: int|
        i <= j < ids.len() && turns_on_verification(r, #[trigger] ids[j])
    &&& q.verify.max_age_ms == a.verify.max_age_ms || q.verify.max_age_ms
        == floor.verify.max_age_ms || exists|j: int|
        i <= j < ids.len() && bounds_age(r, #[trigger] ids[j], q.verify.max_age_ms)
    &&& forall|x: Seq<Seq<char>>| #[trigger]
        q.verify.command_prefixes.contains(x) ==> a.verify.command_prefixes.contains(x)
            || floor.verify.command_prefixes.contains(x) || exists|j: int|
            i <= j < ids.len() && adds_command(r, #[trigger] ids[j], x)
    &&& at_least_as_strict(q, a)
    &&& forall|j: int|
        i <= j < ids.len() ==> {
            &&& turns_on_policy(r, #[trigger] ids[j]) ==> q.enabled
            &&& turns_on_denial(r, ids[j]) ==> q.deny_dangerous_always
            &&& turns_on_verification(r, ids[j]) ==> q.verify.required
            &&& forall|ms: u64| bounds_age(r, ids[j], ms) ==> q.verify.max_age_ms <= ms
            &&& forall|x: Seq<Seq<char>>|
                adds_command(r, ids[j], x) ==> #[trigger] q.verify.command_prefixes.contains(x)
        }
}

proof fn profiles_take_effect(
    r: LoadedProfilesRegistryView,
    floor: PolicyConfigView,
    ids: Seq<Seq<char>>,
    i: int,
    a: Applying,
)
    requires
        0 <= i <= ids.len(),
    ensures
        applied_so(
            r,
            floor,
            ids,
            i,
            a.shape.policy,
            apply_profiles(r, floor, ids, i, a).shape.policy,
        ),
    decreases ids.len() - i,
{
    if i < ids.len() {
        let q = apply_profiles(r, floor, ids, i, a).shape.policy;
        match lookup(r.policy_profiles, ids[i]) {
            None => {
                profiles_take_effect(r, floor, ids, i + 1, a);
            },
            Some(profile) => {
                let next = Applying {
                    shape: patched(a.shape, floor, ids[i], profile.patch),
                    provenance: a.provenance.push(
                        ProfileProvenanceEntryView {
                            profile_type: "policy_profile"@,
                            profile_id: ids[i],
                            scope: scope_of(r.policy_scope, ids[i]),
                        },
                    ),
                };
                let m = next.shape.policy;
                profile_takes_effect(a.shape, floor, ids[i], profile.patch);
                profiles_only_tighten(a.shape, floor, ids[i], profile.patch);
                profiles_take_effect(r, floor, ids, i + 1, next);
                assert(turns_on_policy(r, ids[i]) == (profile.patch.enabled == Some(true)));
                assert(turns_on_denial(r, ids[i]) == (profile.patch.deny_dangerous_always == Some(
                    true,
                )));
                assert(turns_on_verification(r, ids[i]) == (profile.patch.verify_required == Some(
                    true,
                )));
                assert forall|x: Seq<Seq<char>>| #[trigger]
                    q.verify.command_prefixes.contains(
                        x,
                    ) implies a.shape.policy.verify.command_prefixes.contains(x)
                    || floor.verify.command_prefixes.contains(x) || exists|j: int|
                    i <= j < ids.len() && adds_command(r, #[trigger] ids[j], x) by {
                    if m.verify.command_prefixes.contains(x) {
                        if profile.patch.verify_command_prefixes_add.contains(x) {
                            assert(adds_command(r, ids[i], x));
                        }
                    }
                }
                assert(forall|x: Seq<Seq<char>>|
                    m.verify.command_prefixes.contains(x) ==> q.verify.command_prefixes.contains(
                        x,
                    ));
                assert forall|x: Seq<Seq<char>>|
                    adds_command(r, ids[i], x) implies #[trigger] q.verify.command_prefixes.contains(
                    x,
                ) by {
                    assert(m.verify.command_prefixes.contains(x));
                }
                assert(bounds_age(r, ids[i], m.verify.max_age_ms) || m.verify.max_age_ms
                    == a.shape.policy.verify.max_age_ms || m.verify.max_age_ms
                    == floor.verify.max_age_ms);
            },
        }
    }
}

proof fn clamp_takes_effect(s: Shaped, floor: PolicyConfigView, id: Seq<char>)
    ensures
        ({
            let p = clamped(s, floor, id).policy;
            &&& p.enabled == (s.policy.enabled || floor.enabled)
            &&& p.deny_dangerous_always == (s.policy.deny_dangerous_always
                || floor.deny_dangerous_always)
            &&& p.verify.required == (s.policy.verify.required || floor.verify.required)
            &&& p.verify.max_age_ms == lower(s.policy.verify.max_age_ms, floor.verify.max_age_ms)
            &&& forall|x: Seq<Seq<char>>| #[trigger]
                p.verify.command_prefixes.contains(x)
                    <==> s.policy.verify.command_prefixes.contains(x)
                    || floor.verify.command_prefixes.contains(x)
        }),
{
    let none = PolicyProfilePatchV1View {
        enabled: None,
        deny_dangerous_always: None,
        verify_required: None,
        verify_max_age_ms: None,
        verify_command_prefixes_add: Seq::empty(),
    };
    profile_takes_effect(s, floor, id, none);
    assert(with_prefixes(s.policy.verify.command_prefixes, Seq::empty(), 0)
        == s.policy.verify.command_prefixes);
    assert(patched(s, floor, id, none) == clamped(s, floor, id));
}

/// The policy that a request comes to is made of what it starts from, of the floor and of the
/// profiles that it asks for, and of nothing else: a switch is on exactly where one of them
/// has it on, a command verifies exactly where one of them says so, and the age of evidence is
/// the lowest that one of them gives.
pub proof fn requested_profiles_take_effect(
    r: LoadedProfilesRegistryView,
    refs: ProfileRefsView,
    base: PolicyConfigView,
    floor: PolicyConfigView,
)
    requires
        sorted(r.policy_profiles),
        registry_acyclic(r),
    ensures
        ({
            let p = resolved(r, refs, base, floor).effective_policy;
            &&& p.enabled <==> base.enabled || floor.enabled || exists|id: Seq<char>|
                policy_asked(r, refs, id) && #[trigger] turns_on_policy(r, id)
            &&& p.deny_dangerous_always <==> base.deny_dangerous_always
                || floor.deny_dangerous_always || exists|id: Seq<char>|
                policy_asked(r, refs, id) && #[trigger] turns_on_denial(r, id)
            &&& p.verify.required <==> base.verify.required || floor.verify.required || exists|
                id: Seq<char>,
            | policy_asked(r, refs, id) && #[trigger] turns_on_verification(r, id)
            &&& p.verify.max_age_ms <= base.verify.max_age_ms && p.verify.max_age_ms
                <= floor.verify.max_age_ms
            &&& forall|id: Seq<char>, ms: u64|
                policy_asked(r, refs, id) && #[trigger] bounds_age(r, id, ms)
                    ==> p.verify.max_age_ms <= ms
            &&& p.verify.max_age_ms == base.verify.max_age_ms || p.verify.max_age_ms
                == floor.verify.max_age_ms || exists|id: Seq<char>|
                policy_asked(r, refs, id) && #[trigger] bounds_age(r, id, p.verify.max_age_ms)
            &&& forall|x: Seq<Seq<char>>| #[trigger]
                p.verify.command_prefixes.contains(x) <==> base.verify.command_prefixes.contains(x)
                    || floor.verify.command_prefixes.contains(x) || exists|id: Seq<char>|
                    policy_asked(r, refs, id) && #[trigger] adds_command(r, id, x)
        }),
{
    let g = policy_graph(r);
    let found = requested(g, refs.policy_profiles);
    let ids = found.ordered;
    let lost = requested(guideline_graph(r), refs.guideline_profiles);
    let warnings = missing_warnings(
        "missing guideline profile reference: "@,
        lost.missing,
        0,
        missing_warnings("missing policy profile reference: "@, found.missing, 0, r.warnings),
    );
    let start = Applying { shape: Shaped { policy: base, warnings }, provenance: Seq::empty() };
    let a = apply_profiles(r, floor, ids, 0, start);
    profiles_take_effect(r, floor, ids, 0, start);
    clamp_takes_effect(a.shape, floor, "<resolved>"@);
    let q = a.shape.policy;
    let p = resolved(r, refs, base, floor).effective_policy;
    assert(p == clamped(a.shape, floor, "<resolved>"@).policy);
    assert forall|id: Seq<char>| #[trigger]
        lookup(r.policy_profiles, id) is Some implies ids.contains(id) == policy_asked(
        r,
        refs,
        id,
    ) by {
        policy_graph_is(r, id, id);
        policy_asked_is_reached(r, refs, id);
        request_finds_what_it_reaches(g, refs.policy_profiles, id);
    }
    assert forall|j: int| 0 <= j < ids.len() && #[trigger]
        lookup(r.policy_profiles, ids[j]) is Some implies policy_asked(r, refs, ids[j]) by {
        assert(ids.contains(ids[j]));
    }
    assert forall|id: Seq<char>|
        policy_asked(r, refs, id) && #[trigger] lookup(
            r.policy_profiles,
            id,
        ) is Some implies exists|j: int| 0 <= j < ids.len() && ids[j] == id by {
        assert(ids.contains(id));
    }
    assert forall|x: Seq<Seq<char>>| #[trigger]
        p.verify.command_prefixes.contains(x) <==> base.verify.command_prefixes.contains(x)
            || floor.verify.command_prefixes.contains(x) || exists|id: Seq<char>|
            policy_asked(r, refs, id) && #[trigger] adds_command(r, id, x) by {
        if q.verify.command_prefixes.contains(x) {
            if exists|j: int| 0 <= j < ids.len() && adds_command(r, #[trigger] ids[j], x) {
                let j = choose|j: int| 0 <= j < ids.len() && adds_command(r, #[trigger] ids[j], x);
                assert(policy_asked(r, refs, ids[j]));
            }
        }
        if exists|id: Seq<char>| policy_asked(r, refs, id) && #[trigger] adds_command(r, id, x) {
            let id = choose|id: Seq<char>|
                policy_asked(r, refs, id) && #[trigger] adds_command(r, id, x);
            let j = choose|j: int| 0 <= j < ids.len() && ids[j] == id;
            assert(adds_command(r, ids[j], x));
            assert(q.verify.command_prefixes.contains(x));
        }
    }
    assert forall|id: Seq<char>, ms: u64|
        policy_asked(r, refs, id) && #[trigger] bounds_age(r, id, ms) implies p.verify.max_age_ms
        <= ms by {
        let j = choose|j: int| 0 <= j < ids.len() && ids[j] == id;
        assert(bounds_age(r, ids[j], ms));
    }
}

/// The entry that a policy profile leaves, and the one that a guideline profile leaves.
pub open spec fn policy_entry(r: LoadedProfilesRegistryView, id: Seq<char>) -> ProfileProvenanceEntryView {
    ProfileProvenanceEntryView {
        profile_type: "policy_profile"@,
        profile_id: id,
        scope: match lookup(r.policy_scope, id) {
            Some(scope) => scope,
            None => ProfileScope::Global,
        },
    }
}

pub open spec fn guideline_entry(
    r: LoadedProfilesRegistryView,
    id: Seq<char>,
) -> ProfileProvenanceEntryView {
    ProfileProvenanceEntryView {
        profile_type: "guideline_profile"@,
        profile_id: id,
        scope: match lookup(r.guideline_scope, id) {
            Some(scope) => scope,
            None => ProfileScope::Global,
        },
    }
}

/// The instructions of a guideline profile that are not blank.
pub open spec fn instructions_of(r: LoadedProfilesRegistryView, id: Seq<char>) -> Seq<Seq<char>> {
    match lookup(r.guideline_profiles, id) {
        Some(p) => p.instructions.filter(|x: Seq<char>| !is_blank(x)),
        None => Seq::empty(),
    }
}

/// Whether a list holds the policy profiles that are asked for, each once and behind what it
/// includes.
pub open spec fn policy_list(
    r: LoadedProfilesRegistryView,
    refs: ProfileRefsView,
    ids: Seq<Seq<char>>,
) -> bool {
    &&& ids.no_duplicates()
    &&& forall|id: Seq<char>| #[trigger]
        ids.contains(id) <==> lookup(r.policy_profiles, id) is Some && policy_asked(r, refs, id)
    &&& forall|i: int, j: int|
        0 <= i < ids.len() && 0 <= j < ids.len() && policy_includes(
            r,
            #[trigger] ids[i],
            #[trigger] ids[j],
        ) ==> j < i
}

/// Whether a list holds the guideline profiles that are asked for, each once and behind what
/// it includes.
pub open spec fn guideline_list(
    r: LoadedProfilesRegistryView,
    refs: ProfileRefsView,
    ids: Seq<Seq<char>>,
) -> bool {
    &&& ids.no_duplicates()
    &&& forall|id: Seq<char>| #[trigger]
        ids.contains(id) <==> lookup(r.guideline_profiles, id) is Some && guideline_asked(
            r,
            refs,
            id,
        )
    &&& forall|i: int, j: int|
        0 <= i < ids.len() && 0 <= j < ids.len() && guideline_includes(
            r,
            #[trigger] ids[i],
            #[trigger] ids[j],
        ) ==> j < i
}

proof fn ordered_before(g: Graph, ids: Seq<Seq<char>>, i: int, j: int)
    requires
        dependencies_first(g, ids),
        0 <= i < ids.len(),
        0 <= j < ids.len(),
        includes_name(g, ids[i], ids[j]),
    ensures
        j < i,
{
    let incs = lookup(g, ids[i])->0;
    let k = choose|k: int| 0 <= k < incs.len() && incs[k] == ids[j];
    assert(lookup(g, lookup(g, ids[i])->0[k]) is Some);
    assert(ids.subrange(0, i).contains(lookup(g, ids[i])->0[k]));
    let m = choose|m: int| 0 <= m < i && ids.subrange(0, i)[m] == ids[j];
    assert(ids[m] == ids[j]);
}

proof fn found_policies_are_listed(r: LoadedProfilesRegistryView, refs: ProfileRefsView)
    requires
        sorted(r.policy_profiles),
        registry_acyclic(r),
    ensures
        policy_list(r, refs, requested(policy_graph(r), refs.policy_profiles).ordered),
{
    let g = policy_graph(r);
    let ids = requested(g, refs.policy_profiles).ordered;
    requests_are_resolved_in_order(g, refs.policy_profiles);
    assert forall|id: Seq<char>| #[trigger]
        ids.contains(id) <==> lookup(r.policy_profiles, id) is Some && policy_asked(
            r,
            refs,
            id,
        ) by {
        policy_graph_is(r, id, id);
        policy_asked_is_reached(r, refs, id);
        request_finds_what_it_reaches(g, refs.policy_profiles, id);
    }
    assert forall|i: int, j: int|
        0 <= i < ids.len() && 0 <= j < ids.len() && policy_includes(
            r,
            #[trigger] ids[i],
            #[trigger] ids[j],
        ) implies j < i by {
        policy_graph_is(r, ids[i], ids[j]);
        ordered_before(g, ids, i, j);
    }
}

proof fn found_guidelines_are_listed(r: LoadedProfilesRegistryView, refs: ProfileRefsView)
    requires
        sorted(r.guideline_profiles),
        registry_acyclic(r),
    ensures
        guideline_list(r, refs, requested(guideline_graph(r), refs.guideline_profiles).ordered),
{
    let g = guideline_graph(r);
    let ids = requested(g, refs.guideline_profiles).ordered;
    requests_are_resolved_in_order(g, refs.guideline_profiles);
    assert forall|id: Seq<char>| #[trigger]
        ids.contains(id) <==> lookup(r.guideline_profiles, id) is Some && guideline_asked(
            r,
            refs,
            id,
        ) by {
        guideline_graph_is(r, id, id);
        guideline_asked_is_reached(r, refs, id);
        request_finds_what_it_reaches(g, refs.guideline_profiles, id);
    }
    assert forall|i: int, j: int|
        0 <= i < ids.len() && 0 <= j < ids.len() && guideline_includes(
            r,
            #[trigger] ids[i],
            #[trigger] ids[j],
        ) implies j < i by {
        guideline_graph_is(r, ids[i], ids[j]);
        ordered_before(g, ids, i, j);
    }
}

proof fn applied_entries(
    r: LoadedProfilesRegistryView,
    floor: PolicyConfigView,
    ids: Seq<Seq<char>>,
    i: int,
    a: Applying,
)
    requires
        0 <= i <= ids.len(),
        forall|k: int| 0 <= k < ids.len() ==> lookup(r.policy_profiles, #[trigger] ids[k]) is Some,
    ensures
        apply_profiles(r, floor, ids, i, a).provenance == a.provenance + ids.subrange(
            i,
            ids.len() as int,
        ).map_values(|id: Seq<char>| policy_entry(r, id)),
        keeps_warnings(
            a.shape.warnings,
            apply_profiles(r, floor, ids, i, a).shape.warnings,
        ),
    decreases ids.len() - i,
{
    let f = |id: Seq<char>| policy_entry(r, id);
    let rest = ids.subrange(i, ids.len() as int);
    if i < ids.len() {
        let profile = lookup(r.policy_profiles, ids[i])->0;
        let next = Applying {
            shape: patched(a.shape, floor, ids[i], profile.patch),
            provenance: a.provenance.push(
                ProfileProvenanceEntryView {
                    profile_type: "policy_profile"@,
                    profile_id: ids[i],
                    scope: scope_of(r.policy_scope, ids[i]),
                },
            ),
        };
        applied_entries(r, floor, ids, i + 1, next);
        let below = ids.subrange(i + 1, ids.len() as int);
        assert(next.provenance + below.map_values(f) =~= a.provenance + rest.map_values(f));
        patched_keeps_warnings(a.shape, floor, ids[i], profile.patch);
        warnings_still_kept(
            a.shape.warnings,
            next.shape.warnings,
            apply_profiles(r, floor, ids, i + 1, next).shape.warnings,
        );
    } else {
        assert(a.provenance + rest.map_values(f) =~= a.provenance);
        assert(a.shape.warnings.subrange(0, a.shape.warnings.len() as int) =~= a.shape.warnings);
    }
}

proof fn warnings_still_kept(a: Seq<Seq<char>>, b: Seq<Seq<char>>, c: Seq<Seq<char>>)
    requires
        keeps_warnings(a, b),
        keeps_warnings(b, c),
    ensures
        keeps_warnings(a, c),
{
    assert forall|k: int| 0 <= k < a.len() implies c[k] == a[k] by {
        assert(b.subrange(0, a.len() as int)[k] == b[k]);
        assert(c.subrange(0, b.len() as int)[k] == c[k]);
    }
    assert(c.subrange(0, a.len() as int) =~= a);
}

proof fn clamped_keeps_warnings(s: Shaped, floor: PolicyConfigView, id: Seq<char>)
    ensures
        keeps_warnings(s.warnings, clamped(s, floor, id).warnings),
{
    let w = clamped(s, floor, id).warnings;
    assert(w.subrange(0, s.warnings.len() as int) =~= s.warnings);
}

proof fn patched_keeps_warnings(
    s: Shaped,
    floor: PolicyConfigView,
    id: Seq<char>,
    patch: PolicyProfilePatchV1View,
)
    ensures
        keeps_warnings(s.warnings, patched(s, floor, id, patch).warnings),
{
    let w = patched(s, floor, id, patch).warnings;
    assert(w.subrange(0, s.warnings.len() as int) =~= s.warnings);
}

proof fn kept_is_filtered(s: Seq<Seq<char>>, i: int, acc: Seq<Seq<char>>)
    requires
        0 <= i <= s.len(),
    ensures
        kept_instructions(s, i, acc) == acc + s.subrange(i, s.len() as int).filter(
            |x: Seq<char>| !is_blank(x),
        ),
    decreases s.len() - i,
{
    let f = |x: Seq<char>| !is_blank(x);
    let rest = s.subrange(i, s.len() as int);
    if i < s.len() {
        let below = s.subrange(i + 1, s.len() as int);
        assert(rest =~= seq![s[i]] + below);
        let one = seq![s[i]];
        filter_splits(one, below, f);
        assert(one.filter(f) =~= if f(s[i]) {
            one
        } else {
            Seq::empty()
        }) by {
            reveal(Seq::filter);
            assert(one.drop_last() =~= Seq::empty());
            let none: Seq<Seq<char>> = Seq::empty();
            assert(none.filter(f) =~= none);
        }
        if is_blank(s[i]) {
            kept_is_filtered(s, i + 1, acc);
            assert(acc + rest.filter(f) =~= acc + below.filter(f));
        } else {
            kept_is_filtered(s, i + 1, acc.push(s[i]));
            assert(acc + rest.filter(f) =~= acc.push(s[i]) + below.filter(f));
        }
    } else {
        reveal(Seq::filter);
        assert(rest =~= Seq::empty());
        assert(acc + rest.filter(f) =~= acc);
    }
}

proof fn filter_splits<T>(a: Seq<T>, b: Seq<T>, f: spec_fn(T) -> bool)
    ensures
        (a + b).filter(f) == a.filter(f) + b.filter(f),
    decreases b.len(),
{
    reveal(Seq::filter);
    if b.len() > 0 {
        assert((a + b).drop_last() =~= a + b.drop_last());
        assert((a + b).last() == b.last());
        filter_splits(a, b.drop_last(), f);
        if f(b.last()) {
            assert((a.filter(f) + b.drop_last().filter(f)).push(b.last()) =~= a.filter(f)
                + b.drop_last().filter(f).push(b.last()));
        }
    } else {
        assert(a + b =~= a);
        assert(a.filter(f) + b.filter(f) =~= a.filter(f));
    }
}

proof fn guided_entries(r: LoadedProfilesRegistryView, ids: Seq<Seq<char>>, i: int, a: Guiding)
    requires
        0 <= i <= ids.len(),
        forall|k: int|
            0 <= k < ids.len() ==> lookup(r.guideline_profiles, #[trigger] ids[k]) is Some,
    ensures
        apply_guidelines(r, ids, i, a).provenance == a.provenance + ids.subrange(
            i,
            ids.len() as int,
        ).map_values(|id: Seq<char>| guideline_entry(r, id)),
        apply_guidelines(r, ids, i, a).guidelines == a.guidelines + ids.subrange(
            i,
            ids.len() as int,
        ).map_values(|id: Seq<char>| instructions_of(r, id)).flatten(),
    decreases ids.len() - i,
{
    let f = |id: Seq<char>| guideline_entry(r, id);
    let h = |id: Seq<char>| instructions_of(r, id);
    let rest = ids.subrange(i, ids.len() as int);
    if i < ids.len() {
        let profile = lookup(r.guideline_profiles, ids[i])->0;
        let next = Guiding {
            guidelines: kept_instructions(profile.instructions, 0, a.guidelines),
            provenance: a.provenance.push(
                ProfileProvenanceEntryView {
                    profile_type: "guideline_profile"@,
                    profile_id: ids[i],
                    scope: scope_of(r.guideline_scope, ids[i]),
                },
            ),
        };
        guided_entries(r, ids, i + 1, next);
        let below = ids.subrange(i + 1, ids.len() as int);
        assert(next.provenance + below.map_values(f) =~= a.provenance + rest.map_values(f));
        kept_is_filtered(profile.instructions, 0, a.guidelines);
        assert(profile.instructions.subrange(0, profile.instructions.len() as int)
            =~= profile.instructions);
        assert(next.guidelines == a.guidelines + instructions_of(r, ids[i]));
        let all = rest.map_values(h);
        assert(all.first() == instructions_of(r, ids[i]));
        assert(all.drop_first() =~= below.map_values(h));
        assert(all.flatten() == all.first() + all.drop_first().flatten());
        assert(next.guidelines + below.map_values(h).flatten() =~= a.guidelines + all.flatten());
    } else {
        assert(a.provenance + rest.map_values(f) =~= a.provenance);
        assert(rest.map_values(h).len() == 0);
        assert(rest.map_values(h).flatten() =~= Seq::empty());
        assert(a.guidelines + rest.map_values(h).flatten() =~= a.guidelines);
    }
}

/// What a resolution is made from is told: the policy profiles that were asked for and then the
/// guideline profiles, each once, behind what it includes, and with where it comes from. The
/// guidelines are the instructions of those guideline profiles, in that order and without the
/// blank ones.
pub proof fn resolution_tells_its_profiles(
    r: LoadedProfilesRegistryView,
    refs: ProfileRefsView,
    base: PolicyConfigView,
    floor: PolicyConfigView,
) -> (lists: (Seq<Seq<char>>, Seq<Seq<char>>))
    requires
        sorted(r.policy_profiles),
        sorted(r.guideline_profiles),
        registry_acyclic(r),
    ensures
        policy_list(r, refs, lists.0),
        guideline_list(r, refs, lists.1),
        resolved(r, refs, base, floor).provenance == lists.0.map_values(
            |id: Seq<char>| policy_entry(r, id),
        ) + lists.1.map_values(|id: Seq<char>| guideline_entry(r, id)),
        resolved(r, refs, base, floor).guidelines == lists.1.map_values(
            |id: Seq<char>| instructions_of(r, id),
        ).flatten(),
{
    let p = requested(policy_graph(r), refs.policy_profiles);
    let g = requested(guideline_graph(r), refs.guideline_profiles);
    found_policies_are_listed(r, refs);
    found_guidelines_are_listed(r, refs);
    assert forall|k: int| 0 <= k < p.ordered.len() implies lookup(
        r.policy_profiles,
        #[trigger] p.ordered[k],
    ) is Some by {
        assert(p.ordered.contains(p.ordered[k]));
    }
    assert forall|k: int| 0 <= k < g.ordered.len() implies lookup(
        r.guideline_profiles,
        #[trigger] g.ordered[k],
    ) is Some by {
        assert(g.ordered.contains(g.ordered[k]));
    }
    let warnings = missing_warnings(
        "missing guideline profile reference: "@,
        g.missing,
        0,
        missing_warnings("missing policy profile reference: "@, p.missing, 0, r.warnings),
    );
    let start = Applying { shape: Shaped { policy: base, warnings }, provenance: Seq::empty() };
    applied_entries(r, floor, p.ordered, 0, start);
    assert(p.ordered.subrange(0, p.ordered.len() as int) =~= p.ordered);
    assert(g.ordered.subrange(0, g.ordered.len() as int) =~= g.ordered);
    let a = applied_policy(r, refs, base, floor);
    let none: Seq<ProfileProvenanceEntryView> = Seq::empty();
    let first = p.ordered.map_values(|id: Seq<char>| policy_entry(r, id));
    assert(none + first =~= first);
    assert(a.provenance == first);
    let start = Guiding { guidelines: Seq::empty(), provenance: a.provenance };
    guided_entries(r, g.ordered, 0, start);
    let texts = g.ordered.map_values(|id: Seq<char>| instructions_of(r, id)).flatten();
    let no_texts: Seq<Seq<char>> = Seq::empty();
    assert(no_texts + texts =~= texts);
    (p.ordered, g.ordered)
}

proof fn missing_is_mapped(head: Seq<char>, ids: Seq<Seq<char>>, i: int, acc: Seq<Seq<char>>)
    requires
        0 <= i <= ids.len(),
    ensures
        missing_warnings(head, ids, i, acc) == acc + ids.subrange(
            i,
            ids.len() as int,
        ).map_values(|id: Seq<char>| head + id),
    decreases ids.len() - i,
{
    let f = |id: Seq<char>| head + id;
    let rest = ids.subrange(i, ids.len() as int);
    if i < ids.len() {
        let below = ids.subrange(i + 1, ids.len() as int);
        missing_is_mapped(head, ids, i + 1, acc.push(head + ids[i]));
        assert(acc.push(head + ids[i]) + below.map_values(f) =~= acc + rest.map_values(f));
    } else {
        assert(acc + rest.map_values(f) =~= acc);
    }
}

/// What is asked for and does not exist is listed as missing, and nothing else is; where all
/// that profiles include exists, the lists are the requested names that do not exist, in their
/// order. The warnings are those of the registry, then one for each missing policy profile and
/// one for each missing guideline profile, then those about single profiles.
pub proof fn missing_profiles_are_told(
    r: LoadedProfilesRegistryView,
    refs: ProfileRefsView,
    base: PolicyConfigView,
    floor: PolicyConfigView,
    id: Seq<char>,
)
    requires
        sorted(r.policy_profiles),
        sorted(r.guideline_profiles),
        registry_acyclic(r),
    ensures
        ({
            let x = resolved(r, refs, base, floor);
            &&& x.missing_policy_profiles.contains(id) <==> policy_asked(r, refs, id) && lookup(
                r.policy_profiles,
                id,
            ) is None
            &&& x.missing_guideline_profiles.contains(id) <==> guideline_asked(r, refs, id)
                && lookup(r.guideline_profiles, id) is None
            &&& (forall|a: Seq<char>, b: Seq<char>| #[trigger]
                policy_includes(r, a, b) ==> lookup(r.policy_profiles, b) is Some)
                ==> x.missing_policy_profiles == refs.policy_profiles.filter(
                |n: Seq<char>| lookup(r.policy_profiles, n) is None,
            )
            &&& (forall|a: Seq<char>, b: Seq<char>| #[trigger]
                guideline_includes(r, a, b) ==> lookup(r.guideline_profiles, b) is Some)
                ==> x.missing_guideline_profiles == refs.guideline_profiles.filter(
                |n: Seq<char>| lookup(r.guideline_profiles, n) is None,
            )
            &&& keeps_warnings(
                r.warnings + x.missing_policy_profiles.map_values(
                    |n: Seq<char>| "missing policy profile reference: "@ + n,
                ) + x.missing_guideline_profiles.map_values(
                    |n: Seq<char>| "missing guideline profile reference: "@ + n,
                ),
                x.warnings,
            )
        }),
{
    let pg = policy_graph(r);
    let gg = guideline_graph(r);
    let p = requested(pg, refs.policy_profiles);
    let g = requested(gg, refs.guideline_profiles);
    policy_graph_is(r, id, id);
    guideline_graph_is(r, id, id);
    policy_asked_is_reached(r, refs, id);
    guideline_asked_is_reached(r, refs, id);
    request_finds_what_it_reaches(pg, refs.policy_profiles, id);
    request_finds_what_it_reaches(gg, refs.guideline_profiles, id);
    if forall|a: Seq<char>, b: Seq<char>| #[trigger]
        policy_includes(r, a, b) ==> lookup(r.policy_profiles, b) is Some {
        assert forall|i: int, j: int| 0 <= i < pg.len() && 0 <= j < pg[i].1.len() implies lookup(
            pg,
            #[trigger] pg[i].1[j],
        ) is Some by {
            let b = pg[i].1[j];
            lookup_at(r.policy_profiles, i);
            assert(policy_includes(r, r.policy_profiles[i].0, b));
            policy_graph_is(r, b, b);
        }
        only_requested_names_are_missing(pg, refs.policy_profiles);
        let want = |n: Seq<char>| lookup(r.policy_profiles, n) is None;
        let have = |n: Seq<char>| lookup(pg, n) is None;
        assert forall|n: Seq<char>| #[trigger] want(n) == have(n) by {
            policy_graph_is(r, n, n);
        }
        assert(want =~= have);
    }
    if forall|a: Seq<char>, b: Seq<char>| #[trigger]
        guideline_includes(r, a, b) ==> lookup(r.guideline_profiles, b) is Some {
        assert forall|i: int, j: int| 0 <= i < gg.len() && 0 <= j < gg[i].1.len() implies lookup(
            gg,
            #[trigger] gg[i].1[j],
        ) is Some by {
            let b = gg[i].1[j];
            lookup_at(r.guideline_profiles, i);
            assert(guideline_includes(r, r.guideline_profiles[i].0, b));
            guideline_graph_is(r, b, b);
        }
        only_requested_names_are_missing(gg, refs.guideline_profiles);
        let want = |n: Seq<char>| lookup(r.guideline_profiles, n) is None;
        let have = |n: Seq<char>| lookup(gg, n) is None;
        assert forall|n: Seq<char>| #[trigger] want(n) == have(n) by {
            guideline_graph_is(r, n, n);
        }
        assert(want =~= have);
    }
    let ph = "missing policy profile reference: "@;
    let gh = "missing guideline profile reference: "@;
    let w1 = missing_warnings(ph, p.missing, 0, r.warnings);
    let w2 = missing_warnings(gh, g.missing, 0, w1);
    missing_is_mapped(ph, p.missing, 0, r.warnings);
    missing_is_mapped(gh, g.missing, 0, w1);
    assert(p.missing.subrange(0, p.missing.len() as int) =~= p.missing);
    assert(g.missing.subrange(0, g.missing.len() as int) =~= g.missing);
    found_policies_are_listed(r, refs);
    assert forall|k: int| 0 <= k < p.ordered.len() implies lookup(
        r.policy_profiles,
        #[trigger] p.ordered[k],
    ) is Some by {
        assert(p.ordered.contains(p.ordered[k]));
    }
    let start = Applying { shape: Shaped { policy: base, warnings: w2 }, provenance: Seq::empty() };
    applied_entries(r, floor, p.ordered, 0, start);
    let a = apply_profiles(r, floor, p.ordered, 0, start);
    clamped_keeps_warnings(a.shape, floor, "<resolved>"@);
    warnings_still_kept(
        w2,
        a.shape.warnings,
        clamped(a.shape, floor, "<resolved>"@).warnings,
    );
}

/// What the fingerprint of a resolution is taken of.
pub open spec fn document_of(x: ResolvedSubjectProfilesView, refs: ProfileRefsView) -> JsonView {
    resolution_document(x.effective_policy, x.guidelines, x.provenance, x.warnings, refs)
}

/// Two resolutions with the same fingerprint come to the same and were asked for with the same
/// references, as long as their digests do not collide.
pub proof fn fingerprint_tells_resolutions_apart(
    r1: LoadedProfilesRegistryView,
    refs1: ProfileRefsView,
    base1: PolicyConfigView,
    floor1: PolicyConfigView,
    r2: LoadedProfilesRegistryView,
    refs2: ProfileRefsView,
    base2: PolicyConfigView,
    floor2: PolicyConfigView,
)
    requires
        ({
            let a = document_of(resolved(r1, refs1, base1, floor1), refs1);
            let b = document_of(resolved(r2, refs2, base2, floor2), refs2);
            json_digest(a) == json_digest(b) ==> a == b
        }),
    ensures
        ({
            let x = resolved(r1, refs1, base1, floor1);
            let y = resolved(r2, refs2, base2, floor2);
            x.fingerprint_sha256 == y.fingerprint_sha256 ==> {
                &&& x.effective_policy == y.effective_policy
                &&& x.guidelines == y.guidelines
                &&& x.provenance == y.provenance
                &&& x.warnings == y.warnings
                &&& refs1 == refs2
            }
        }),
{
    let x = resolved(r1, refs1, base1, floor1);
    let y = resolved(r2, refs2, base2, floor2);
    let a = document_of(x, refs1);
    let b = document_of(y, refs2);
    if x.fingerprint_sha256 == y.fingerprint_sha256 {
        assert(json_digest(a) == x.fingerprint_sha256);
        assert(json_digest(b) == y.fingerprint_sha256);
        assert(a == b);
        let s = a->Obj_0;
        let t = b->Obj_0;
        assert(s[0].1 == t[0].1 && s[1].1 == t[1].1 && s[2].1 == t[2].1 && s[3].1 == t[3].1
            && s[4].1 == t[4].1);
        policy_documents_differ(x.effective_policy, y.effective_policy);
        refs_documents_differ(refs1, refs2);
        str_arrays_differ(x.guidelines, y.guidelines);
        str_arrays_differ(x.warnings, y.warnings);
        provenance_documents_differ(x.provenance, y.provenance);
    }
}

/// A trusted project's guideline profile takes the place of a global one with the same name;
/// a profile of the project is known to come from it, and every other one is global.
pub proof fn project_guidelines_override_global(
    policy: PolicyProfilesFileV1View,
    guideline: GuidelineProfilesFileV1View,
    p: PolicyProfilesFileV1,
    g: GuidelineProfilesFileV1,
    id: Seq<char>,
)
    requires
        sorted(policy.profiles),
        sorted(guideline.profiles),
        sorted(p@.profiles),
        sorted(g@.profiles),
    ensures
        ({
            let r = merged_registry(policy, guideline, ProjectProfiles::Trusted(p, g));
            &&& lookup(r.guideline_profiles, id) == match lookup(g@.profiles, id) {
                Some(x) => Some(x),
                None => lookup(guideline.profiles, id),
            }
            &&& lookup(r.guideline_scope, id) == (if lookup(g@.profiles, id) is Some {
                Some(ProfileScope::Project)
            } else if lookup(guideline.profiles, id) is Some {
                Some(ProfileScope::Global)
            } else {
                None
            })
            &&& lookup(r.policy_scope, id) == (if lookup(p@.profiles, id) is Some {
                Some(ProfileScope::Project)
            } else if lookup(policy.profiles, id) is Some {
                Some(ProfileScope::Global)
            } else {
                None
            })
            &&& r.warnings.len() == 0
        }),
{
    lookup_put_all(guideline.profiles, g@.profiles, id);
    scopes_in_order(guideline.profiles, g@.profiles, id);
    scopes_in_order(policy.profiles, p@.profiles, id);
}

proof fn scopes_in_order<V>(global: Seq<(Seq<char>, V)>, own: Seq<(Seq<char>, V)>, id: Seq<char>)
    requires
        sorted(global),
        sorted(own),
    ensures
        lookup(
            put_all(
                put_all(Seq::empty(), scopes_of(global, ProfileScope::Global)),
                scopes_of(own, ProfileScope::Project),
            ),
            id,
        ) == (if lookup(own, id) is Some {
            Some(ProfileScope::Project)
        } else if lookup(global, id) is Some {
            Some(ProfileScope::Global)
        } else {
            None
        }),
        lookup(put_all(Seq::empty(), scopes_of(global, ProfileScope::Global)), id) == (if lookup(
            global,
            id,
        ) is Some {
            Some(ProfileScope::Global)
        } else {
            None
        }),
{
    let a = scopes_of(global, ProfileScope::Global);
    let b = scopes_of(own, ProfileScope::Project);
    let fa = |v: V| ProfileScope::Global;
    let fb = |v: V| ProfileScope::Project;
    assert(a =~= global.map_values(|e: (Seq<char>, V)| (e.0, fa(e.1))));
    assert(b =~= own.map_values(|e: (Seq<char>, V)| (e.0, fb(e.1))));
    lookup_mapped(global, a, fa, id);
    lookup_mapped(own, b, fb, id);
    let none: Seq<(Seq<char>, ProfileScope)> = Seq::empty();
    put_all_sorted(none, a);
    lookup_put_all(none, a, id);
    lookup_put_all(put_all(none, a), b, id);
}

/// An untrusted project's profiles count for nothing: the registry is that of the global
/// profiles, with a warning that names the project; without a project there is none.
pub proof fn untrusted_profiles_are_ignored(
    policy: PolicyProfilesFileV1View,
    guideline: GuidelineProfilesFileV1View,
    root: String,
    id: Seq<char>,
)
    requires
        sorted(policy.profiles),
        sorted(guideline.profiles),
    ensures
        ({
            let r = merged_registry(policy, guideline, ProjectProfiles::Absent);
            &&& r.policy_profiles == policy.profiles
            &&& r.guideline_profiles == guideline.profiles
            &&& lookup(r.policy_scope, id) == (if lookup(policy.profiles, id) is Some {
                Some(ProfileScope::Global)
            } else {
                None
            })
            &&& lookup(r.guideline_scope, id) == (if lookup(guideline.profiles, id) is Some {
                Some(ProfileScope::Global)
            } else {
                None
            })
            &&& r.warnings.len() == 0
            &&& merged_registry(policy, guideline, ProjectProfiles::Untrusted(root)) == (
            LoadedProfilesRegistryView {
                warnings: seq!["project profiles ignored (repo not trusted): "@ + root@],
                ..r
            })
        }),
{
    scopes_in_order(policy.profiles, policy.profiles, id);
    scopes_in_order(guideline.profiles, guideline.profiles, id);
}

/// Whether profiles of one kind are sound: none has a blank name, each that is included is there,
/// and they can be put in an order in which each comes after what it includes.
pub open spec fn sound_profiles<T: Includes>(s: Seq<(Seq<char>, T::V)>) -> bool {
    &&& forall|i: int| 0 <= i < s.len() ==> !is_blank((#[trigger] s[i]).0)
    &&& forall|i: int, j: int|
        0 <= i < s.len() && 0 <= j < T::included(s[i].1).len() ==> exists|k: int|
            0 <= k < s.len() && (#[trigger] s[k]).0 == #[trigger] T::included(s[i].1)[j]
    &&& acyclic(graph_of::<T>(s))
}

proof fn profiles_are_sound<T: Includes>(kind: Seq<char>, s: Seq<(Seq<char>, T::V)>)
    requires
        sorted(s),
    ensures
        graph_fault(kind, graph_of::<T>(s)) is None <==> sound_profiles::<T>(s),
{
    let g = graph_of::<T>(s);
    assert(g.len() == s.len());
    assert forall|i: int| 0 <= i < s.len() implies (#[trigger] g[i]).0 == s[i].0 && g[i].1
        == T::included(s[i].1) by {}
    assert(sorted(g)) by {
        assert forall|i: int, j: int| 0 <= i < j < g.len() implies #[trigger] lex_lt(
            g[i].0,
            g[j].0,
        ) by {
            assert(lex_lt(s[i].0, s[j].0));
        }
    }
    fault_free_means_well_founded(kind, g);
    if has_blank(g) {
        let i = choose|i: int| 0 <= i < g.len() && is_blank(#[trigger] g[i].0);
        assert(is_blank(s[i].0));
    }
    if exists|i: int| 0 <= i < s.len() && is_blank((#[trigger] s[i]).0) {
        let i = choose|i: int| 0 <= i < s.len() && is_blank((#[trigger] s[i]).0);
        assert(is_blank(g[i].0));
    }
    if closed_graph(g) {
        assert forall|i: int, j: int|
            0 <= i < s.len() && 0 <= j < T::included(s[i].1).len() implies exists|k: int|
            0 <= k < s.len() && (#[trigger] s[k]).0 == #[trigger] T::included(s[i].1)[j] by {
            let id = T::included(s[i].1)[j];
            assert(g[i].1[j] == id);
            lookup_some(g, id);
            let k = rank(g, id);
            assert(s[k].0 == id);
        }
    }
    if sound_profiles::<T>(s) {
        assert forall|i: int, j: int| 0 <= i < g.len() && 0 <= j < g[i].1.len() implies lookup(
            g,
            #[trigger] g[i].1[j],
        ) is Some by {
            let id = T::included(s[i].1)[j];
            assert(g[i].1[j] == id);
            let k = choose|k: int| 0 <= k < s.len() && (#[trigger] s[k]).0 == id;
            lookup_at(g, k);
        }
    }
}

/// A registry is accepted, as it is, exactly where its profiles of both kinds are sound.
pub proof fn sound_registries_are_accepted(r: LoadedProfilesRegistryView)
    requires
        sorted(r.policy_profiles),
        sorted(r.guideline_profiles),
    ensures
        checked_registry(r) is Ok <==> sound_profiles::<PolicyProfileV1>(r.policy_profiles)
            && sound_profiles::<GuidelineProfileV1>(r.guideline_profiles),
        checked_registry(r) is Ok ==> checked_registry(r)->Ok_0 == r,
{
    profiles_are_sound::<PolicyProfileV1>("policy_profile"@, r.policy_profiles);
    profiles_are_sound::<GuidelineProfileV1>("guideline_profile"@, r.guideline_profiles);
}

} // verus!
