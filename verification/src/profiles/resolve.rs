//! What profiles come to: a policy that is never weaker than its floor, and
//! guidelines.

use vstd::prelude::*;
use crate::digest::{json_digest, sha256_json};
use crate::profiles::graph::{acyclic, graph_fault, graph_of, validate_profile_graph};
use crate::profiles::model::{
    LoadedProfilesRegistry, LoadedProfilesRegistryView, ProfileProvenanceEntry,
    ProfileProvenanceEntryView, ProfileScope, ProfilesError, ProfilesErrorView,
    ResolvedSubjectProfiles, ResolvedSubjectProfilesView,
};
use crate::profiles::order::{requested, resolve_requested_ids};
use crate::profiles::payload::{resolution_document, resolution_json, ToJson};
use crate::strmap::{
    lex_lt, lookup, lookup_at, lookup_put_all, lookup_some, put_all, put_all_sorted, rank, sorted,
    StrMap,
};
use crate::text::{blank, cat2, cat4, decimal, decimal_string, is_blank, str_eq, Duplicate, Same};
use crate::types::config::{PolicyConfig, PolicyConfigView, VerifyPolicyView};
use crate::types::profile::{
    GuidelineProfileV1, GuidelineProfilesFileV1, GuidelineProfilesFileV1View, PolicyProfilePatchV1,
    PolicyProfilePatchV1View, PolicyProfileV1, PolicyProfilesFileV1, PolicyProfilesFileV1View,
    ProfileRefs, ProfileRefsView,
};

verus! {

/// A policy, and the warnings that came up on the way to it.
#[verifier::ext_equal]
pub struct Shaped {
    pub policy: PolicyConfigView,
    pub warnings: Seq<Seq<char>>,
}

/// The same policy, with one more warning.
pub open spec fn warned(s: Shaped, warning: Seq<char>) -> Shaped {
    Shaped { policy: s.policy, warnings: s.warnings.push(warning) }
}

/// The warning that a profile tried to relax a switch.
pub open spec fn relax_warning(id: Seq<char>, what: Seq<char>) -> Seq<char> {
    "policy_profile "@ + id + what
}

/// A switch that a profile may turn on and never off.
pub open spec fn patch_enabled(
    s: Shaped,
    floor: PolicyConfigView,
    id: Seq<char>,
    v: Option<bool>,
) -> Shaped {
    match v {
        Some(true) => Shaped { policy: PolicyConfigView { enabled: true, ..s.policy }, ..s },
        Some(false) => if s.policy.enabled || floor.enabled {
            warned(
                s,
                relax_warning(id, " attempted to relax policy.enabled=false; ignored"@),
            )
        } else {
            s
        },
        None => s,
    }
}

/// The denial of dangerous commands, which a profile may turn on and never off.
pub open spec fn patch_deny(
    s: Shaped,
    floor: PolicyConfigView,
    id: Seq<char>,
    v: Option<bool>,
) -> Shaped {
    match v {
        Some(true) => Shaped {
            policy: PolicyConfigView { deny_dangerous_always: true, ..s.policy },
            ..s
        },
        Some(false) => if s.policy.deny_dangerous_always || floor.deny_dangerous_always {
            warned(
                s,
                relax_warning(
                    id,
                    " attempted to relax policy.deny_dangerous_always=false; ignored"@,
                ),
            )
        } else {
            s
        },
        None => s,
    }
}

/// The requirement to verify, which a profile may turn on and never off.
pub open spec fn patch_required(
    s: Shaped,
    floor: PolicyConfigView,
    id: Seq<char>,
    v: Option<bool>,
) -> Shaped {
    match v {
        Some(true) => Shaped {
            policy: PolicyConfigView {
                verify: VerifyPolicyView { required: true, ..s.policy.verify },
                ..s.policy
            },
            ..s
        },
        Some(false) => if s.policy.verify.required || floor.verify.required {
            warned(
                s,
                relax_warning(id, " attempted to relax policy.verify.required=false; ignored"@),
            )
        } else {
            s
        },
        None => s,
    }
}

/// The age of evidence, which a profile may lower and never raise.
pub open spec fn patch_max_age(s: Shaped, id: Seq<char>, v: Option<u64>) -> Shaped {
    match v {
        Some(ms) => if ms < s.policy.verify.max_age_ms {
            Shaped {
                policy: PolicyConfigView {
                    verify: VerifyPolicyView { max_age_ms: ms, ..s.policy.verify },
                    ..s.policy
                },
                ..s
            }
        } else if ms > s.policy.verify.max_age_ms {
            warned(
                s,
                "policy_profile "@ + id + " attempted to relax policy.verify.max_age_ms to "@
                    + decimal(ms as nat) + "; ignored"@,
            )
        } else {
            s
        },
        None => s,
    }
}

/// The prefixes of `have`, and behind them those from position `i` of `add` on that
/// are not there yet.
pub open spec fn with_prefixes(
    have: Seq<Seq<Seq<char>>>,
    add: Seq<Seq<Seq<char>>>,
    i: int,
) -> Seq<Seq<Seq<char>>>
    decreases add.len() - i,
{
    if i < 0 || i >= add.len() {
        have
    } else if have.contains(add[i]) {
        with_prefixes(have, add, i + 1)
    } else {
        with_prefixes(have.push(add[i]), add, i + 1)
    }
}

/// A policy with verify commands added.
pub open spec fn with_commands(p: PolicyConfigView, add: Seq<Seq<Seq<char>>>) -> PolicyConfigView {
    PolicyConfigView {
        verify: VerifyPolicyView {
            command_prefixes: with_prefixes(p.verify.command_prefixes, add, 0),
            ..p.verify
        },
        ..p
    }
}

/// The warning that the floor changed a policy.
pub open spec fn clamp_warning(id: Seq<char>, what: Seq<char>) -> Seq<char> {
    "policy floor clamp applied after "@ + id + what
}

/// A policy raised to its floor.
pub open spec fn clamped(s: Shaped, floor: PolicyConfigView, id: Seq<char>) -> Shaped {
    let s1 = if floor.enabled && !s.policy.enabled {
        warned(
            Shaped { policy: PolicyConfigView { enabled: true, ..s.policy }, ..s },
            clamp_warning(id, ": policy.enabled=true"@),
        )
    } else {
        s
    };
    let s2 = if floor.deny_dangerous_always && !s1.policy.deny_dangerous_always {
        warned(
            Shaped { policy: PolicyConfigView { deny_dangerous_always: true, ..s1.policy }, ..s1 },
            clamp_warning(id, ": policy.deny_dangerous_always=true"@),
        )
    } else {
        s1
    };
    let s3 = if floor.verify.required && !s2.policy.verify.required {
        warned(
            Shaped {
                policy: PolicyConfigView {
                    verify: VerifyPolicyView { required: true, ..s2.policy.verify },
                    ..s2.policy
                },
                ..s2
            },
            clamp_warning(id, ": policy.verify.required=true"@),
        )
    } else {
        s2
    };
    let s4 = if s3.policy.verify.max_age_ms > floor.verify.max_age_ms {
        warned(
            Shaped {
                policy: PolicyConfigView {
                    verify: VerifyPolicyView {
                        max_age_ms: floor.verify.max_age_ms,
                        ..s3.policy.verify
                    },
                    ..s3.policy
                },
                ..s3
            },
            clamp_warning(
                id,
                ": policy.verify.max_age_ms="@ + decimal(floor.verify.max_age_ms as nat),
            ),
        )
    } else {
        s3
    };
    Shaped { policy: with_commands(s4.policy, floor.verify.command_prefixes), ..s4 }
}

/// A policy changed by a profile: what the profile tightens takes effect, what it
/// would relax is ignored with a warning.
pub open spec fn patched(
    s: Shaped,
    floor: PolicyConfigView,
    id: Seq<char>,
    patch: PolicyProfilePatchV1View,
) -> Shaped {
    let s1 = patch_enabled(s, floor, id, patch.enabled);
    let s2 = patch_deny(s1, floor, id, patch.deny_dangerous_always);
    let s3 = patch_required(s2, floor, id, patch.verify_required);
    let s4 = patch_max_age(s3, id, patch.verify_max_age_ms);
    let s5 = Shaped {
        policy: with_commands(s4.policy, patch.verify_command_prefixes_add),
        ..s4
    };
    clamped(s5, floor, id)
}

fn add_prefixes(have: &mut Vec<Vec<String>>, add: &Vec<Vec<String>>)
    ensures
        final(have).deep_view() == with_prefixes(old(have).deep_view(), add.deep_view(), 0),
{
    let ghost start = have.deep_view();
    let ghost wanted = add.deep_view();
    let mut i: usize = 0;
    while i < add.len()
        invariant
            i <= add.len(),
            wanted == add.deep_view(),
            start == old(have).deep_view(),
            with_prefixes(start, wanted, 0) == with_prefixes(have.deep_view(), wanted, i as int),
        decreases add.len() - i,
    {
        assert(wanted[i as int] == add[i as int].deep_view());
        if !has_prefix_list(have, &add[i]) {
            let ghost before = have.deep_view();
            have.push(add[i].dup());
            assert(have.deep_view() =~= before.push(wanted[i as int]));
        }
        i = i + 1;
    }
}

fn has_prefix_list(have: &Vec<Vec<String>>, p: &Vec<String>) -> (r: bool)
    ensures
        r == have.deep_view().contains(p.deep_view()),
{
    let mut i: usize = 0;
    while i < have.len()
        invariant
            i <= have.len(),
            forall|k: int| 0 <= k < i ==> have.deep_view()[k] != p.deep_view(),
        decreases have.len() - i,
    {
        if have[i].same(p) {
            assert(have.deep_view()[i as int] == p.deep_view());
            return true;
        }
        i = i + 1;
    }
    false
}

/// A policy and the warnings so far, as one value.
pub open spec fn shaped(cfg: &PolicyConfig, warnings: &Vec<String>) -> Shaped {
    Shaped { policy: cfg@, warnings: warnings.deep_view() }
}

fn warn(warnings: &mut Vec<String>, w: String)
    ensures
        final(warnings).deep_view() == old(warnings).deep_view().push(w@),
{
    let ghost before = warnings.deep_view();
    warnings.push(w);
    assert(warnings.deep_view() =~= before.push(w@));
}

fn clamp_to_floor(
    cfg: &mut PolicyConfig,
    floor: &PolicyConfig,
    profile_id: &str,
    warnings: &mut Vec<String>,
)
    ensures
        shaped(final(cfg), final(warnings)) == clamped(
            shaped(old(cfg), old(warnings)),
            floor@,
            profile_id@,
        ),
{
    let head = cat2("policy floor clamp applied after ", profile_id);
    if floor.enabled && !cfg.enabled {
        cfg.enabled = true;
        warn(warnings, cat2(head.as_str(), ": policy.enabled=true"));
    }
    if floor.deny_dangerous_always && !cfg.deny_dangerous_always {
        cfg.deny_dangerous_always = true;
        warn(warnings, cat2(head.as_str(), ": policy.deny_dangerous_always=true"));
    }
    if floor.verify.required && !cfg.verify.required {
        cfg.verify.required = true;
        warn(warnings, cat2(head.as_str(), ": policy.verify.required=true"));
    }
    if cfg.verify.max_age_ms > floor.verify.max_age_ms {
        cfg.verify.max_age_ms = floor.verify.max_age_ms;
        let ms = decimal_string(floor.verify.max_age_ms);
        let tail = cat2(": policy.verify.max_age_ms=", ms.as_str());
        warn(warnings, cat2(head.as_str(), tail.as_str()));
    }
    add_prefixes(&mut cfg.verify.command_prefixes, &floor.verify.command_prefixes);
}

fn apply_policy_patch(
    cfg: &mut PolicyConfig,
    floor: &PolicyConfig,
    profile_id: &str,
    patch: &PolicyProfilePatchV1,
    warnings: &mut Vec<String>,
)
    ensures
        shaped(final(cfg), final(warnings)) == patched(
            shaped(old(cfg), old(warnings)),
            floor@,
            profile_id@,
            patch@,
        ),
{
    let head = cat2("policy_profile ", profile_id);
    if let Some(enabled) = patch.enabled {
        if enabled {
            cfg.enabled = true;
        } else if cfg.enabled || floor.enabled {
            warn(
                warnings,
                cat2(head.as_str(), " attempted to relax policy.enabled=false; ignored"),
            );
        }
    }
    if let Some(deny) = patch.deny_dangerous_always {
        if deny {
            cfg.deny_dangerous_always = true;
        } else if cfg.deny_dangerous_always || floor.deny_dangerous_always {
            warn(
                warnings,
                cat2(
                    head.as_str(),
                    " attempted to relax policy.deny_dangerous_always=false; ignored",
                ),
            );
        }
    }
    if let Some(required) = patch.verify_required {
        if required {
            cfg.verify.required = true;
        } else if cfg.verify.required || floor.verify.required {
            warn(
                warnings,
                cat2(head.as_str(), " attempted to relax policy.verify.required=false; ignored"),
            );
        }
    }
    if let Some(ms) = patch.verify_max_age_ms {
        if ms < cfg.verify.max_age_ms {
            cfg.verify.max_age_ms = ms;
        } else if ms > cfg.verify.max_age_ms {
            let n = decimal_string(ms);
            warn(
                warnings,
                cat4(
                    head.as_str(),
                    " attempted to relax policy.verify.max_age_ms to ",
                    n.as_str(),
                    "; ignored",
                ),
            );
        }
    }
    add_prefixes(&mut cfg.verify.command_prefixes, &patch.verify_command_prefixes_add);
    clamp_to_floor(cfg, floor, profile_id, warnings);
}

/// Whether no profile of a registry includes itself, directly or through others.
pub open spec fn registry_acyclic(r: LoadedProfilesRegistryView) -> bool {
    &&& acyclic(graph_of::<PolicyProfileV1>(r.policy_profiles))
    &&& acyclic(graph_of::<GuidelineProfileV1>(r.guideline_profiles))
}

/// Warnings about missing names, from position `i` on, behind `acc`.
pub open spec fn missing_warnings(
    head: Seq<char>,
    ids: Seq<Seq<char>>,
    i: int,
    acc: Seq<Seq<char>>,
) -> Seq<Seq<char>>
    decreases ids.len() - i,
{
    if i < 0 || i >= ids.len() {
        acc
    } else {
        missing_warnings(head, ids, i + 1, acc.push(head + ids[i]))
    }
}

/// Where a profile comes from, taken as global where that is not known.
pub open spec fn scope_of(s: Seq<(Seq<char>, ProfileScope)>, id: Seq<char>) -> ProfileScope {
    match lookup(s, id) {
        Some(scope) => scope,
        None => ProfileScope::Global,
    }
}

/// A policy under resolution: its shape so far, and the profiles applied.
#[verifier::ext_equal]
pub struct Applying {
    pub shape: Shaped,
    pub provenance: Seq<ProfileProvenanceEntryView>,
}

/// The policy profiles from position `i` on, applied one after the other.
pub open spec fn apply_profiles(
    r: LoadedProfilesRegistryView,
    floor: PolicyConfigView,
    ids: Seq<Seq<char>>,
    i: int,
    a: Applying,
) -> Applying
    decreases ids.len() - i,
{
    if i < 0 || i >= ids.len() {
        a
    } else {
        match lookup(r.policy_profiles, ids[i]) {
            None => apply_profiles(r, floor, ids, i + 1, a),
            Some(profile) => apply_profiles(
                r,
                floor,
                ids,
                i + 1,
                Applying {
                    shape: patched(a.shape, floor, ids[i], profile.patch),
                    provenance: a.provenance.push(
                        ProfileProvenanceEntryView {
                            profile_type: "policy_profile"@,
                            profile_id: ids[i],
                            scope: scope_of(r.policy_scope, ids[i]),
                        },
                    ),
                },
            ),
        }
    }
}

/// The instructions from position `i` on that are not blank, behind `acc`.
pub open spec fn kept_instructions(s: Seq<Seq<char>>, i: int, acc: Seq<Seq<char>>) -> Seq<Seq<char>>
    decreases s.len() - i,
{
    if i < 0 || i >= s.len() {
        acc
    } else if is_blank(s[i]) {
        kept_instructions(s, i + 1, acc)
    } else {
        kept_instructions(s, i + 1, acc.push(s[i]))
    }
}

/// Guidelines under resolution: the instructions so far, and the profiles applied.
#[verifier::ext_equal]
pub struct Guiding {
    pub guidelines: Seq<Seq<char>>,
    pub provenance: Seq<ProfileProvenanceEntryView>,
}

/// The guideline profiles from position `i` on, taken up one after the other.
pub open spec fn apply_guidelines(
    r: LoadedProfilesRegistryView,
    ids: Seq<Seq<char>>,
    i: int,
    a: Guiding,
) -> Guiding
    decreases ids.len() - i,
{
    if i < 0 || i >= ids.len() {
        a
    } else {
        match lookup(r.guideline_profiles, ids[i]) {
            None => apply_guidelines(r, ids, i + 1, a),
            Some(profile) => apply_guidelines(
                r,
                ids,
                i + 1,
                Guiding {
                    guidelines: kept_instructions(profile.instructions, 0, a.guidelines),
                    provenance: a.provenance.push(
                        ProfileProvenanceEntryView {
                            profile_type: "guideline_profile"@,
                            profile_id: ids[i],
                            scope: scope_of(r.guideline_scope, ids[i]),
                        },
                    ),
                },
            ),
        }
    }
}

/// The policy that a request comes to, with the warnings on the way to it and the
/// profiles applied.
pub open spec fn applied_policy(
    r: LoadedProfilesRegistryView,
    refs: ProfileRefsView,
    base: PolicyConfigView,
    floor: PolicyConfigView,
) -> Applying {
    let p = requested(graph_of::<PolicyProfileV1>(r.policy_profiles), refs.policy_profiles);
    let g = requested(
        graph_of::<GuidelineProfileV1>(r.guideline_profiles),
        refs.guideline_profiles,
    );
    let warnings = missing_warnings(
        "missing guideline profile reference: "@,
        g.missing,
        0,
        missing_warnings("missing policy profile reference: "@, p.missing, 0, r.warnings),
    );
    let a = apply_profiles(
        r,
        floor,
        p.ordered,
        0,
        Applying { shape: Shaped { policy: base, warnings }, provenance: Seq::empty() },
    );
    Applying { shape: clamped(a.shape, floor, "<resolved>"@), provenance: a.provenance }
}

/// What profiles come to for a request.
pub open spec fn resolved(
    r: LoadedProfilesRegistryView,
    refs: ProfileRefsView,
    base: PolicyConfigView,
    floor: PolicyConfigView,
) -> ResolvedSubjectProfilesView {
    let p = requested(graph_of::<PolicyProfileV1>(r.policy_profiles), refs.policy_profiles);
    let g = requested(
        graph_of::<GuidelineProfileV1>(r.guideline_profiles),
        refs.guideline_profiles,
    );
    let a = applied_policy(r, refs, base, floor);
    let h = apply_guidelines(
        r,
        g.ordered,
        0,
        Guiding { guidelines: Seq::empty(), provenance: a.provenance },
    );
    ResolvedSubjectProfilesView {
        effective_policy: a.shape.policy,
        guidelines: h.guidelines,
        provenance: h.provenance,
        warnings: a.shape.warnings,
        missing_policy_profiles: p.missing,
        missing_guideline_profiles: g.missing,
        fingerprint_sha256: json_digest(
            resolution_document(
                a.shape.policy,
                h.guidelines,
                h.provenance,
                a.shape.warnings,
                refs,
            ),
        ),
    }
}

fn warn_missing(head: &str, ids: &Vec<String>, warnings: &mut Vec<String>)
    ensures
        final(warnings).deep_view() == missing_warnings(
            head@,
            ids.deep_view(),
            0,
            old(warnings).deep_view(),
        ),
{
    let ghost seen = ids.deep_view();
    let mut i: usize = 0;
    while i < ids.len()
        invariant
            i <= ids.len(),
            seen == ids.deep_view(),
            missing_warnings(head@, seen, 0, old(warnings).deep_view()) == missing_warnings(
                head@,
                seen,
                i as int,
                warnings.deep_view(),
            ),
        decreases ids.len() - i,
    {
        assert(seen[i as int] == ids[i as int]@);
        warn(warnings, cat2(head, ids[i].as_str()));
        i = i + 1;
    }
}

fn scope_or_global(scopes: &StrMap<ProfileScope>, id: &str) -> (r: ProfileScope)
    ensures
        r == scope_of(scopes@, id@),
{
    match scopes.get(id) {
        Some(s) => *s,
        None => ProfileScope::Global,
    }
}

fn note_provenance(
    provenance: &mut Vec<ProfileProvenanceEntry>,
    profile_type: &str,
    id: &str,
    scope: ProfileScope,
)
    ensures
        final(provenance).deep_view() == old(provenance).deep_view().push(
            ProfileProvenanceEntryView {
                profile_type: profile_type@,
                profile_id: id@,
                scope,
            },
        ),
{
    let ghost before = provenance.deep_view();
    let e = ProfileProvenanceEntry {
        profile_type: profile_type.to_owned(),
        profile_id: id.to_owned(),
        scope,
    };
    provenance.push(e);
    assert(provenance.deep_view() =~= before.push(e@));
}

fn keep_instructions(s: &Vec<String>, out: &mut Vec<String>)
    ensures
        final(out).deep_view() == kept_instructions(s.deep_view(), 0, old(out).deep_view()),
{
    let ghost seen = s.deep_view();
    let mut i: usize = 0;
    while i < s.len()
        invariant
            i <= s.len(),
            seen == s.deep_view(),
            kept_instructions(seen, 0, old(out).deep_view()) == kept_instructions(
                seen,
                i as int,
                out.deep_view(),
            ),
        decreases s.len() - i,
    {
        assert(seen[i as int] == s[i as int]@);
        if !blank(s[i].as_str()) {
            let ghost before = out.deep_view();
            out.push(s[i].clone());
            assert(out.deep_view() =~= before.push(seen[i as int]));
        }
        i = i + 1;
    }
}

/// What profiles come to for a request.
pub fn resolve_subject_profiles(
    registry: &LoadedProfilesRegistry,
    refs: &ProfileRefs,
    base_policy: &PolicyConfig,
    policy_floor: &PolicyConfig,
) -> (r: ResolvedSubjectProfiles)
    requires
        registry_acyclic(registry@),
    ensures
        r@ == resolved(registry@, refs@, base_policy@, policy_floor@),
{
    let ghost reg = registry@;
    let ghost floor = policy_floor@;
    let mut warnings = registry.warnings.dup();
    let (policy_ids, missing_policy_profiles) = resolve_requested_ids(
        &refs.policy_profiles,
        &registry.policy_profiles,
    );
    let (guideline_ids, missing_guideline_profiles) = resolve_requested_ids(
        &refs.guideline_profiles,
        &registry.guideline_profiles,
    );
    warn_missing("missing policy profile reference: ", &missing_policy_profiles, &mut warnings);
    warn_missing(
        "missing guideline profile reference: ",
        &missing_guideline_profiles,
        &mut warnings,
    );
    let mut effective_policy = base_policy.dup();
    let mut provenance: Vec<ProfileProvenanceEntry> = Vec::new();
    let ghost ids = policy_ids.deep_view();
    let ghost start = Applying {
        shape: shaped(&effective_policy, &warnings),
        provenance: Seq::empty(),
    };
    let mut i: usize = 0;
    assert(provenance.deep_view() =~= Seq::empty());
    while i < policy_ids.len()
        invariant
            i <= policy_ids.len(),
            ids == policy_ids.deep_view(),
            reg == registry@,
            floor == policy_floor@,
            apply_profiles(reg, floor, ids, 0, start) == apply_profiles(
                reg,
                floor,
                ids,
                i as int,
                Applying {
                    shape: shaped(&effective_policy, &warnings),
                    provenance: provenance.deep_view(),
                },
            ),
        decreases policy_ids.len() - i,
    {
        let id = policy_ids[i].as_str();
        assert(ids[i as int] == id@);
        if let Some(profile) = registry.policy_profiles.get(id) {
            apply_policy_patch(
                &mut effective_policy,
                policy_floor,
                id,
                &profile.patch,
                &mut warnings,
            );
            let scope = scope_or_global(&registry.policy_scope, id);
            note_provenance(&mut provenance, "policy_profile", id, scope);
        }
        i = i + 1;
    }
    clamp_to_floor(&mut effective_policy, policy_floor, "<resolved>", &mut warnings);
    let mut guidelines: Vec<String> = Vec::new();
    let ghost gids = guideline_ids.deep_view();
    let ghost gstart = Guiding {
        guidelines: Seq::empty(),
        provenance: provenance.deep_view(),
    };
    let mut j: usize = 0;
    assert(guidelines.deep_view() =~= Seq::empty());
    while j < guideline_ids.len()
        invariant
            j <= guideline_ids.len(),
            gids == guideline_ids.deep_view(),
            reg == registry@,
            apply_guidelines(reg, gids, 0, gstart) == apply_guidelines(
                reg,
                gids,
                j as int,
                Guiding {
                    guidelines: guidelines.deep_view(),
                    provenance: provenance.deep_view(),
                },
            ),
        decreases guideline_ids.len() - j,
    {
        let id = guideline_ids[j].as_str();
        assert(gids[j as int] == id@);
        if let Some(profile) = registry.guideline_profiles.get(id) {
            keep_instructions(&profile.instructions, &mut guidelines);
            let scope = scope_or_global(&registry.guideline_scope, id);
            note_provenance(&mut provenance, "guideline_profile", id, scope);
        }
        j = j + 1;
    }
    let document = resolution_json(&effective_policy, &guidelines, &provenance, &warnings, refs);
    let fingerprint_sha256 = sha256_json(&document);
    ResolvedSubjectProfiles {
        effective_policy,
        guidelines,
        provenance,
        warnings,
        missing_policy_profiles,
        missing_guideline_profiles,
        fingerprint_sha256,
    }
}

/// The fingerprint of a registry.
pub open spec fn registry_fingerprint(r: LoadedProfilesRegistryView) -> Seq<char> {
    json_digest(LoadedProfilesRegistry::document(r))
}

pub fn registry_fingerprint_sha256(registry: &LoadedProfilesRegistry) -> (r: String)
    ensures
        r@ == registry_fingerprint(registry@),
{
    let document = registry.to_json();
    sha256_json(&document)
}

/// The profiles of a project, as far as they may be used.
pub enum ProjectProfiles {
    /// There is no project.
    Absent,
    /// The project under the given root is not trusted.
    Untrusted(String),
    /// What the files of a trusted project hold.
    Trusted(PolicyProfilesFileV1, GuidelineProfilesFileV1),
}

/// The scope of every entry.
pub open spec fn scopes_of<V>(s: Seq<(Seq<char>, V)>, scope: ProfileScope) -> Seq<
    (Seq<char>, ProfileScope),
> {
    s.map_values(|e: (Seq<char>, V)| (e.0, scope))
}

/// The registry of global profiles and those of a project, before it is checked.
pub open spec fn merged_registry(
    policy: PolicyProfilesFileV1View,
    guideline: GuidelineProfilesFileV1View,
    project: ProjectProfiles,
) -> LoadedProfilesRegistryView {
    let global = LoadedProfilesRegistryView {
        policy_profiles: policy.profiles,
        guideline_profiles: guideline.profiles,
        policy_scope: put_all(Seq::empty(), scopes_of(policy.profiles, ProfileScope::Global)),
        guideline_scope: put_all(
            Seq::empty(),
            scopes_of(guideline.profiles, ProfileScope::Global),
        ),
        warnings: Seq::empty(),
    };
    match project {
        ProjectProfiles::Absent => global,
        ProjectProfiles::Untrusted(root) => LoadedProfilesRegistryView {
            warnings: seq!["project profiles ignored (repo not trusted): "@ + root@],
            ..global
        },
        ProjectProfiles::Trusted(p, g) => LoadedProfilesRegistryView {
            policy_profiles: put_all(policy.profiles, p@.profiles),
            guideline_profiles: put_all(guideline.profiles, g@.profiles),
            policy_scope: put_all(
                global.policy_scope,
                scopes_of(p@.profiles, ProfileScope::Project),
            ),
            guideline_scope: put_all(
                global.guideline_scope,
                scopes_of(g@.profiles, ProfileScope::Project),
            ),
            warnings: Seq::empty(),
        },
    }
}

/// A registry whose includes are in order, or what is wrong with them.
pub open spec fn checked_registry(r: LoadedProfilesRegistryView) -> Result<
    LoadedProfilesRegistryView,
    ProfilesErrorView,
> {
    match graph_fault("policy_profile"@, graph_of::<PolicyProfileV1>(r.policy_profiles)) {
        Some(e) => Err(ProfilesErrorView::Validation(e)),
        None => match graph_fault(
            "guideline_profile"@,
            graph_of::<GuidelineProfileV1>(r.guideline_profiles),
        ) {
            Some(e) => Err(ProfilesErrorView::Validation(e)),
            None => Ok(r),
        },
    }
}

fn set_scopes<V: DeepView>(
    profiles: &StrMap<V>,
    scope: ProfileScope,
    scopes: &mut StrMap<ProfileScope>,
)
    ensures
        final(scopes)@ == put_all(old(scopes)@, scopes_of(profiles@, scope)),
{
    let ghost all = scopes_of(profiles@, scope);
    let mut i: usize = 0;
    assert(all.subrange(0, 0) =~= Seq::empty());
    while i < profiles.len()
        invariant
            i <= profiles@.len(),
            all == scopes_of(profiles@, scope),
            scopes@ == put_all(old(scopes)@, all.subrange(0, i as int)),
        decreases profiles@.len() - i,
    {
        scopes.insert(profiles.key_at(i).clone(), scope);
        i = i + 1;
        assert(all.subrange(0, i as int).drop_last() =~= all.subrange(0, i - 1));
        assert(all.subrange(0, i as int).last() == all[i - 1]);
    }
    assert(all.subrange(0, i as int) =~= all);
}

/// The registry of global profiles and those of a project. A project's profile takes
/// the place of a global one with the same name; an untrusted project's profiles are
/// ignored.
pub fn load_profiles_registry(
    policy: PolicyProfilesFileV1,
    guideline: GuidelineProfilesFileV1,
    project: ProjectProfiles,
) -> (r: Result<LoadedProfilesRegistry, ProfilesError>)
    ensures
        (match r {
            Ok(reg) => Ok(reg@),
            Err(e) => Err(e@),
        }) == checked_registry(merged_registry(policy@, guideline@, project)),
        r is Ok ==> registry_acyclic(r->Ok_0@),
{
    let ghost expected = merged_registry(policy@, guideline@, project);
    let mut policy_profiles = policy.profiles;
    let mut guideline_profiles = guideline.profiles;
    let mut policy_scope: StrMap<ProfileScope> = StrMap::new();
    let mut guideline_scope: StrMap<ProfileScope> = StrMap::new();
    set_scopes(&policy_profiles, ProfileScope::Global, &mut policy_scope);
    set_scopes(&guideline_profiles, ProfileScope::Global, &mut guideline_scope);
    let mut warnings: Vec<String> = Vec::new();
    assert(warnings.deep_view() =~= Seq::empty());
    match &project {
        ProjectProfiles::Absent => {},
        ProjectProfiles::Untrusted(root) => {
            let w = cat2("project profiles ignored (repo not trusted): ", root.as_str());
            warnings.push(w);
            assert(warnings.deep_view() =~= seq![w@]);
        },
        ProjectProfiles::Trusted(p, g) => {
            policy_profiles.extend_from(&p.profiles);
            set_scopes(&p.profiles, ProfileScope::Project, &mut policy_scope);
            guideline_profiles.extend_from(&g.profiles);
            set_scopes(&g.profiles, ProfileScope::Project, &mut guideline_scope);
        },
    }
    let registry = LoadedProfilesRegistry {
        policy_profiles,
        guideline_profiles,
        policy_scope,
        guideline_scope,
        warnings,
    };
    assert(registry@ == expected);
    if let Err(e) = validate_profile_graph("policy_profile", &registry.policy_profiles) {
        return Err(ProfilesError::Validation(e));
    }
    if let Err(e) = validate_profile_graph("guideline_profile", &registry.guideline_profiles) {
        return Err(ProfilesError::Validation(e));
    }
    Ok(registry)
}

/// The error for a file of an unknown version.
pub open spec fn schema_error(kind: Seq<char>, version: Seq<char>) -> ProfilesErrorView {
    ProfilesErrorView::Validation(
        "unsupported "@ + kind + " schema_version="@ + version + " (expected 1)"@,
    )
}

/// Whether a profiles file is of the known version. `kind` names the file.
pub fn check_schema_version(kind: &str, version: &str) -> (r: Result<(), ProfilesError>)
    ensures
        r is Ok <==> version@ == "1"@,
        r is Err ==> r->Err_0@ == schema_error(kind@, version@),
{
    if str_eq(version, "1") {
        Ok(())
    } else {
        let head = cat4("unsupported ", kind, " schema_version=", version);
        Err(ProfilesError::Validation(cat2(head.as_str(), " (expected 1)")))
    }
}

/// Whether `p` is at least as strict as `q`: it has every switch on that `q` has, takes
/// no older evidence, and keeps every verify command.
pub open spec fn at_least_as_strict(p: PolicyConfigView, q: PolicyConfigView) -> bool {
    &&& q.enabled ==> p.enabled
    &&& q.deny_dangerous_always ==> p.deny_dangerous_always
    &&& q.verify.required ==> p.verify.required
    &&& p.verify.max_age_ms <= q.verify.max_age_ms
    &&& forall|x: Seq<Seq<char>>|
        q.verify.command_prefixes.contains(x) ==> p.verify.command_prefixes.contains(x)
}

proof fn with_prefixes_laws(
    have: Seq<Seq<Seq<char>>>,
    add: Seq<Seq<Seq<char>>>,
    i: int,
)
    requires
        0 <= i <= add.len(),
        forall|k: int| 0 <= k < i ==> have.contains(#[trigger] add[k]),
    ensures
        forall|x: Seq<Seq<char>>| have.contains(x) ==> with_prefixes(have, add, i).contains(x),
        forall|k: int| 0 <= k < add.len() ==> with_prefixes(have, add, i).contains(#[trigger] add[k]),
        (forall|k: int| 0 <= k < add.len() ==> have.contains(#[trigger] add[k])) ==> with_prefixes(
            have,
            add,
            i,
        ) == have,
    decreases add.len() - i,
{
    if i < add.len() {
        let next = if have.contains(add[i]) {
            have
        } else {
            have.push(add[i])
        };
        assert forall|x: Seq<Seq<char>>| have.contains(x) implies next.contains(x) by {
            let p = choose|p: int| 0 <= p < have.len() && have[p] == x;
            assert(next[p] == x);
        }
        if !have.contains(add[i]) {
            assert(next[have.len() as int] == add[i]);
        }
        with_prefixes_laws(next, add, i + 1);
    }
}

proof fn clamped_is_strict(s: Shaped, floor: PolicyConfigView, id: Seq<char>)
    ensures
        at_least_as_strict(clamped(s, floor, id).policy, floor),
        at_least_as_strict(clamped(s, floor, id).policy, s.policy),
{
    with_prefixes_laws(s.policy.verify.command_prefixes, floor.verify.command_prefixes, 0);
    assert forall|x: Seq<Seq<char>>|
        floor.verify.command_prefixes.contains(x) implies with_prefixes(
        s.policy.verify.command_prefixes,
        floor.verify.command_prefixes,
        0,
    ).contains(x) by {
        let k = choose|k: int|
            0 <= k < floor.verify.command_prefixes.len() && floor.verify.command_prefixes[k] == x;
        assert(with_prefixes(
            s.policy.verify.command_prefixes,
            floor.verify.command_prefixes,
            0,
        ).contains(floor.verify.command_prefixes[k]));
    }
}

/// A profile never weakens a policy, whatever it asks for, and leaves it no weaker than
/// the floor.
pub proof fn profiles_only_tighten(
    s: Shaped,
    floor: PolicyConfigView,
    id: Seq<char>,
    patch: PolicyProfilePatchV1View,
)
    ensures
        at_least_as_strict(patched(s, floor, id, patch).policy, s.policy),
        at_least_as_strict(patched(s, floor, id, patch).policy, floor),
{
    let s1 = patch_enabled(s, floor, id, patch.enabled);
    let s2 = patch_deny(s1, floor, id, patch.deny_dangerous_always);
    let s3 = patch_required(s2, floor, id, patch.verify_required);
    let s4 = patch_max_age(s3, id, patch.verify_max_age_ms);
    let s5 = Shaped {
        policy: with_commands(s4.policy, patch.verify_command_prefixes_add),
        ..s4
    };
    with_prefixes_laws(s4.policy.verify.command_prefixes, patch.verify_command_prefixes_add, 0);
    assert(at_least_as_strict(s5.policy, s.policy));
    clamped_is_strict(s5, floor, id);
}

proof fn applied_profiles_only_tighten(
    r: LoadedProfilesRegistryView,
    floor: PolicyConfigView,
    ids: Seq<Seq<char>>,
    i: int,
    a: Applying,
)
    requires
        0 <= i,
    ensures
        at_least_as_strict(apply_profiles(r, floor, ids, i, a).shape.policy, a.shape.policy),
    decreases ids.len() - i,
{
    if i < ids.len() {
        match lookup(r.policy_profiles, ids[i]) {
            None => {
                applied_profiles_only_tighten(r, floor, ids, i + 1, a);
            },
            Some(profile) => {
                profiles_only_tighten(a.shape, floor, ids[i], profile.patch);
                let next = Applying {
                    shape: patched(a.shape, floor, ids[i], profile.patch),
                    provenance: a.provenance.push(
                        ProfileProvenanceEntryView {
                            profile_type: "policy_profile"@,
                            profile_id: ids[i],
                            scope: scope_of(r.policy_scope, ids[i]),
                        },
                    ),
                };
                applied_profiles_only_tighten(r, floor, ids, i + 1, next);
            },
        }
    }
}

/// Whatever profiles are requested, the policy they come to is at least as strict as
/// the floor and as the policy they start from.
pub proof fn resolution_is_monotonic(
    r: LoadedProfilesRegistryView,
    refs: ProfileRefsView,
    base: PolicyConfigView,
    floor: PolicyConfigView,
)
    ensures
        at_least_as_strict(resolved(r, refs, base, floor).effective_policy, floor),
        at_least_as_strict(resolved(r, refs, base, floor).effective_policy, base),
{
    let p = requested(graph_of::<PolicyProfileV1>(r.policy_profiles), refs.policy_profiles);
    let g = requested(
        graph_of::<GuidelineProfileV1>(r.guideline_profiles),
        refs.guideline_profiles,
    );
    let warnings = missing_warnings(
        "missing guideline profile reference: "@,
        g.missing,
        0,
        missing_warnings("missing policy profile reference: "@, p.missing, 0, r.warnings),
    );
    let start = Applying { shape: Shaped { policy: base, warnings }, provenance: Seq::empty() };
    applied_profiles_only_tighten(r, floor, p.ordered, 0, start);
    let a = apply_profiles(r, floor, p.ordered, 0, start);
    clamped_is_strict(a.shape, floor, "<resolved>"@);
}

/// A policy that is at its floor already is left as it is, without a warning.
pub proof fn clamping_again_changes_nothing(
    s: Shaped,
    floor: PolicyConfigView,
    id: Seq<char>,
    again: Seq<char>,
)
    ensures
        clamped(clamped(s, floor, id), floor, again) == clamped(s, floor, id),
{
    let c = clamped(s, floor, id);
    clamped_is_strict(s, floor, id);
    assert forall|k: int| 0 <= k < floor.verify.command_prefixes.len() implies c.policy.verify.command_prefixes.contains(
    #[trigger] floor.verify.command_prefixes[k]) by {
        assert(floor.verify.command_prefixes.contains(floor.verify.command_prefixes[k]));
    }
    with_prefixes_laws(c.policy.verify.command_prefixes, floor.verify.command_prefixes, 0);
}

/// A trusted project's profile takes the place of a global one with the same name, and
/// is known to come from the project.
pub proof fn project_profiles_override_global(
    policy: PolicyProfilesFileV1View,
    guideline: GuidelineProfilesFileV1View,
    p: PolicyProfilesFileV1,
    g: GuidelineProfilesFileV1,
    id: Seq<char>,
)
    requires
        sorted(policy.profiles),
        sorted(p@.profiles),
    ensures
        lookup(
            merged_registry(policy, guideline, ProjectProfiles::Trusted(p, g)).policy_profiles,
            id,
        ) == match lookup(p@.profiles, id) {
            Some(x) => Some(x),
            None => lookup(policy.profiles, id),
        },
        lookup(p@.profiles, id) is Some ==> scope_of(
            merged_registry(policy, guideline, ProjectProfiles::Trusted(p, g)).policy_scope,
            id,
        ) == ProfileScope::Project,
{
    lookup_put_all(policy.profiles, p@.profiles, id);
    let global = scopes_of(policy.profiles, ProfileScope::Global);
    let own = scopes_of(p@.profiles, ProfileScope::Project);
    scopes_are_sorted(policy.profiles, ProfileScope::Global);
    scopes_are_sorted(p@.profiles, ProfileScope::Project);
    put_all_sorted(Seq::<(Seq<char>, ProfileScope)>::empty(), global);
    lookup_put_all(put_all(Seq::empty(), global), own, id);
    if lookup(p@.profiles, id) is Some {
        lookup_some(p@.profiles, id);
        let i = rank(p@.profiles, id);
        assert(own[i] == (id, ProfileScope::Project));
        lookup_at(own, i);
    }
}

proof fn scopes_are_sorted<V>(s: Seq<(Seq<char>, V)>, scope: ProfileScope)
    requires
        sorted(s),
    ensures
        sorted(scopes_of(s, scope)),
{
    let t = scopes_of(s, scope);
    assert forall|i: int, j: int| 0 <= i < j < t.len() implies #[trigger] lex_lt(
        t[i].0,
        t[j].0,
    ) by {
        assert(lex_lt(s[i].0, s[j].0));
    }
}

} // verus!
