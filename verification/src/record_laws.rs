//! What holds of every record that is kept, and of what is recommended.

use vstd::prelude::*;
use crate::advisor::{
    manager_from, names_from, parsed_scripts, recommended, script_names, suggests,
    only_what_is_missing_is_recommended, RecommendationKind,
};
use crate::audit::{redacted, rotated, rotation, usable_patterns};
use crate::json::{field, field_from, parsed, JsonView};
use crate::mru::{
    ago_text, last_use_from, noted, others_from, pruned, pruned_agents, pruned_store, recent_from,
    used_now, uses_of, AgentTemplatesStateV1View, MruEntryV1View, TemplatesMruStoreView, Uses,
};
use crate::pattern::{pattern_error, pattern_replaced};
use crate::strmap::{
    keys, lookup, lookup_mapped, lookup_none, lookup_put, lookup_some, put_sorted, rank, sorted,
};
use crate::text::decimal;

verus! {

/// Being a use that is at most ninety days old.
pub open spec fn not_too_old(now_ms: u64) -> spec_fn(MruEntryV1View) -> bool {
    |e: MruEntryV1View| now_ms <= e.last_used_at_ms + 7776000000
}

/// Being a use of another template.
pub open spec fn of_another(template_id: Seq<char>) -> spec_fn(MruEntryV1View) -> bool {
    |e: MruEntryV1View| e.template_id != template_id
}

/// The first fifty.
pub open spec fn first_fifty(s: Uses) -> Uses {
    if s.len() <= 50 {
        s
    } else {
        s.subrange(0, 50)
    }
}

proof fn recent_is_filter(s: Uses, i: int, acc: Uses, now_ms: u64)
    requires
        0 <= i <= s.len(),
        acc == s.subrange(0, i).filter(not_too_old(now_ms)),
    ensures
        recent_from(s, i, acc, now_ms) == s.filter(not_too_old(now_ms)),
    decreases s.len() - i,
{
    reveal(Seq::filter);
    if i < s.len() {
        let t = s.subrange(0, i + 1);
        assert(t.drop_last() =~= s.subrange(0, i));
        assert(t.last() == s[i]);
        if crate::mru::recent(now_ms, s[i]) {
            assert(t.filter(not_too_old(now_ms)) == acc.push(s[i]));
            recent_is_filter(s, i + 1, acc.push(s[i]), now_ms);
        } else {
            assert(t.filter(not_too_old(now_ms)) == acc);
            recent_is_filter(s, i + 1, acc, now_ms);
        }
    } else {
        assert(s.subrange(0, i) =~= s);
    }
}

proof fn others_is_filter(s: Uses, i: int, acc: Uses, template_id: Seq<char>)
    requires
        0 <= i <= s.len(),
        acc == s.subrange(0, i).filter(of_another(template_id)),
    ensures
        others_from(s, i, acc, template_id) == s.filter(of_another(template_id)),
    decreases s.len() - i,
{
    reveal(Seq::filter);
    if i < s.len() {
        let t = s.subrange(0, i + 1);
        assert(t.drop_last() =~= s.subrange(0, i));
        assert(t.last() == s[i]);
        if s[i].template_id != template_id {
            assert(t.filter(of_another(template_id)) == acc.push(s[i]));
            others_is_filter(s, i + 1, acc.push(s[i]), template_id);
        } else {
            assert(t.filter(of_another(template_id)) == acc);
            others_is_filter(s, i + 1, acc, template_id);
        }
    } else {
        assert(s.subrange(0, i) =~= s);
    }
}

/// Of the uses of an agent those of the last ninety days are remembered, in their order, at most
/// fifty of them.
pub proof fn recent_uses_are_remembered(s: Uses, now_ms: u64)
    ensures
        pruned(s, now_ms) == first_fifty(s.filter(not_too_old(now_ms))),
{
    reveal(Seq::filter);
    assert(s.subrange(0, 0) =~= Seq::empty());
    assert(s.subrange(0, 0).filter(not_too_old(now_ms)) =~= Seq::empty());
    recent_is_filter(s, 0, Seq::empty(), now_ms);
}

/// A template that is used comes first, with the time of its use; the uses of the others follow
/// in their order, as many as there is room for.
pub proof fn used_template_moves_to_the_front(s: Uses, template_id: Seq<char>, now_ms: u64)
    ensures
        used_now(s, template_id, now_ms) == first_fifty(
            seq![MruEntryV1View { template_id, last_used_at_ms: now_ms }] + s.filter(
                of_another(template_id),
            ),
        ),
{
    reveal(Seq::filter);
    assert(s.subrange(0, 0) =~= Seq::empty());
    assert(s.subrange(0, 0).filter(of_another(template_id)) =~= Seq::empty());
    others_is_filter(s, 0, Seq::empty(), template_id);
}

/// Noting a use puts it first among the uses of the agent, and then old uses are forgotten. What
/// is to be written has changed.
pub proof fn noted_uses_are_kept_in_order(
    s: TemplatesMruStoreView,
    agent_id: Seq<char>,
    template_id: Seq<char>,
    now_ms: u64,
)
    requires
        sorted(s.data.agents),
    ensures
        ({
            let t = noted(s, agent_id, template_id, now_ms);
            &&& uses_of(t, agent_id) == pruned(
                used_now(uses_of(s, agent_id), template_id, now_ms),
                now_ms,
            )
            &&& t.dirty
            &&& t.path == s.path
            &&& t.data.schema_version == s.data.schema_version
        }),
{
    let a = AgentTemplatesStateV1View { mru: used_now(uses_of(s, agent_id), template_id, now_ms) };
    let agents = crate::strmap::put(s.data.agents, agent_id, a);
    put_sorted(s.data.agents, agent_id, a);
    lookup_put(s.data.agents, agent_id, a, agent_id);
    agents_are_pruned(agents, now_ms, agent_id);
}

proof fn agents_are_pruned(agents: crate::mru::Agents, now_ms: u64, agent_id: Seq<char>)
    requires
        sorted(agents),
    ensures
        lookup(pruned_agents(agents, now_ms), agent_id) == (match lookup(agents, agent_id) {
            None => None,
            Some(a) => Some(AgentTemplatesStateV1View { mru: pruned(a.mru, now_ms) }),
        }),
{
    let f = |a: AgentTemplatesStateV1View|
        AgentTemplatesStateV1View { mru: pruned(a.mru, now_ms) };
    assert(pruned_agents(agents, now_ms) =~= agents.map_values(
        |e: (Seq<char>, AgentTemplatesStateV1View)| (e.0, f(e.1)),
    ));
    lookup_mapped(agents, pruned_agents(agents, now_ms), f, agent_id);
}

/// A store that is read keeps of every agent what is remembered; it is to be written again exactly
/// where something was forgotten, or was before.
pub proof fn store_is_pruned(s: TemplatesMruStoreView, now_ms: u64, agent_id: Seq<char>)
    requires
        sorted(s.data.agents),
    ensures
        ({
            let t = pruned_store(s, now_ms);
            &&& uses_of(t, agent_id) == pruned(uses_of(s, agent_id), now_ms)
            &&& t.path == s.path
            &&& s.dirty ==> t.dirty
            &&& pruned(uses_of(s, agent_id), now_ms).len() < uses_of(s, agent_id).len() ==> t.dirty
            &&& t.dirty && !s.dirty ==> exists|i: int|
                0 <= i < s.data.agents.len() && pruned(
                    (#[trigger] s.data.agents[i]).1.mru,
                    now_ms,
                ).len() != s.data.agents[i].1.mru.len()
        }),
{
    agents_are_pruned(s.data.agents, now_ms, agent_id);
    lookup_some(s.data.agents, agent_id);
    if lookup(s.data.agents, agent_id) is Some {
        let i = rank(s.data.agents, agent_id);
        assert(s.data.agents[i] == (agent_id, lookup(s.data.agents, agent_id)->0));
    } else {
        reveal(Seq::filter);
        assert(pruned(Seq::empty(), now_ms) =~= Seq::empty());
    }
}

/// The last use of a template is the time of the first entry for it; there is none where there is
/// no entry.
pub proof fn last_use_is_the_first_entry(s: Uses, i: int, k: int, template_id: Seq<char>)
    requires
        0 <= i <= k <= s.len(),
        forall|j: int| i <= j < k ==> (#[trigger] s[j]).template_id != template_id,
        k < s.len() ==> s[k].template_id == template_id,
    ensures
        last_use_from(s, i, template_id) == (if k < s.len() {
            Some(s[k].last_used_at_ms)
        } else {
            None
        }),
    decreases k - i,
{
    if i < k {
        last_use_is_the_first_entry(s, i + 1, k, template_id);
    }
}

/// Whether words say that something was used so many units ago.
pub open spec fn says_ago(t: Seq<char>, n: nat, unit: Seq<char>) -> bool {
    t == "used "@ + decimal(n) + unit + " ago"@
}

/// How long ago a template was used is told in whole seconds below a minute, whole minutes below
/// an hour, whole hours below a day, and whole days; nothing is told of the future.
pub proof fn age_is_told_in_the_largest_unit(now_ms: u64, last_ms: u64, n: nat)
    ensures
        ({
            let r = ago_text(now_ms, last_ms);
            let age = now_ms - last_ms;
            &&& r is None <==> now_ms < last_ms
            &&& n < 60 && n * 1000 <= age < n * 1000 + 1000 ==> r is Some && says_ago(
                r->0,
                n,
                "s"@,
            )
            &&& 0 < n < 60 && n * 60000 <= age < n * 60000 + 60000 ==> r is Some && says_ago(
                r->0,
                n,
                "m"@,
            )
            &&& 0 < n < 24 && n * 3600000 <= age < n * 3600000 + 3600000 ==> r is Some && says_ago(
                r->0,
                n,
                "h"@,
            )
            &&& 0 < n && n * 86400000 <= age < n * 86400000 + 86400000 ==> r is Some && says_ago(
                r->0,
                n,
                "d"@,
            )
        }),
{
    reveal_strlit("s");
    reveal_strlit("m");
    reveal_strlit("h");
    reveal_strlit("d");
    reveal_strlit("s ago");
    reveal_strlit("m ago");
    reveal_strlit("h ago");
    reveal_strlit("d ago");
    reveal_strlit(" ago");
    let w = "used "@ + decimal(n);
    assert(w + "s"@ + " ago"@ =~= w + "s ago"@);
    assert(w + "m"@ + " ago"@ =~= w + "m ago"@);
    assert(w + "h"@ + " ago"@ =~= w + "h ago"@);
    assert(w + "d"@ + " ago"@ =~= w + "d ago"@);
    if now_ms >= last_ms {
        let age = now_ms - last_ms;
        let secs = age / 1000;
        if n * 1000 <= age < n * 1000 + 1000 {
            assert(secs == n);
        }
        if n * 60000 <= age < n * 60000 + 60000 {
            assert(secs / 60 == n);
        }
        if n * 3600000 <= age < n * 3600000 + 3600000 {
            assert(secs / 3600 == n);
        }
        if n * 86400000 <= age < n * 86400000 + 86400000 {
            assert(secs / 86400 == n);
        }
    }
}

/// Being a pattern that compiles.
pub open spec fn compiles() -> spec_fn(Seq<char>) -> bool {
    |p: Seq<char>| pattern_error(p) is None
}

proof fn usable_is_filter(p: Seq<Seq<char>>, i: int, acc: Seq<Seq<char>>)
    requires
        0 <= i <= p.len(),
        acc == p.subrange(0, i).filter(compiles()),
    ensures
        usable_patterns(p, i, acc) == p.filter(compiles()),
    decreases p.len() - i,
{
    reveal(Seq::filter);
    if i < p.len() {
        let t = p.subrange(0, i + 1);
        assert(t.drop_last() =~= p.subrange(0, i));
        assert(t.last() == p[i]);
        if pattern_error(p[i]) is None {
            assert(t.filter(compiles()) == acc.push(p[i]));
            usable_is_filter(p, i + 1, acc.push(p[i]));
        } else {
            assert(t.filter(compiles()) == acc);
            usable_is_filter(p, i + 1, acc);
        }
    } else {
        assert(p.subrange(0, i) =~= p);
    }
}

/// A redactor uses every pattern that compiles, in their order, and no other.
pub proof fn patterns_that_compile_are_used(p: Seq<Seq<char>>)
    ensures
        usable_patterns(p, 0, Seq::empty()) == p.filter(compiles()),
{
    reveal(Seq::filter);
    assert(p.subrange(0, 0) =~= Seq::empty());
    assert(p.subrange(0, 0).filter(compiles()) =~= Seq::empty());
    usable_is_filter(p, 0, Seq::empty());
}

/// The last pattern blots out what it matches in what the others have left; without patterns a
/// text stays.
pub proof fn last_pattern_blots_out_its_matches(p: Seq<Seq<char>>, x: Seq<char>, i: int, text: Seq<char>)
    requires
        0 <= i <= p.len(),
    ensures
        redacted(p.push(x), i, text) == pattern_replaced(x, redacted(p, i, text), "[REDACTED]"@),
        redacted(Seq::empty(), 0, text) == text,
    decreases p.len() - i,
{
    let q = p.push(x);
    if i < p.len() {
        assert(q[i] == p[i]);
        last_pattern_blots_out_its_matches(
            p,
            x,
            i + 1,
            pattern_replaced(p[i], text, "[REDACTED]"@),
        );
    } else {
        assert(q[i] == x);
        let t = pattern_replaced(x, text, "[REDACTED]"@);
        assert(redacted(q, i + 1, t) == t);
    }
}

/// With every renaming a log becomes older by one number, from the oldest that stays to the
/// current one, which comes last.
pub proof fn logs_grow_older_by_one(base: Seq<char>, max_files: usize, k: nat)
    requires
        max_files > 0,
    ensures
        k >= max_files ==> rotation(base, max_files, k) is None,
        k + 1 == max_files ==> rotation(base, max_files, k) == Some((base, rotated(base, 1))),
        k + 1 < max_files ==> rotation(base, max_files, k) == Some(
            (
                rotated(base, (max_files - 2 - k) as nat),
                rotated(base, (max_files - 1 - k) as nat),
            ),
        ),
        rotated(base, 0) == base,
{
}

proof fn names_are_keys(
    s: Seq<(Seq<char>, JsonView)>,
    i: int,
    acc: Seq<(Seq<char>, bool)>,
    name: Seq<char>,
)
    requires
        0 <= i <= s.len(),
        sorted(acc),
    ensures
        sorted(names_from(s, i, acc)),
        lookup(names_from(s, i, acc), name) is Some <==> lookup(acc, name) is Some || field_from(
            s,
            i,
            name,
        ) is Some,
    decreases s.len() - i,
{
    if i < s.len() {
        put_sorted(acc, s[i].0, true);
        lookup_put(acc, s[i].0, true, name);
        names_are_keys(s, i + 1, crate::strmap::put(acc, s[i].0, true), name);
    }
}

/// The scripts of a package are the names under `scripts` in it.
pub proof fn scripts_are_the_names(package: JsonView, scripts: JsonView, name: Seq<char>)
    ensures
        field(package, "scripts"@) == Some(scripts) ==> (script_names(package).contains(name)
            <==> field(scripts, name) is Some),
        field(package, "scripts"@) is None ==> script_names(package).len() == 0,
{
    if let JsonView::Obj(s) = scripts {
        let none: Seq<(Seq<char>, bool)> = Seq::empty();
        lookup_some(none, name);
        names_are_keys(s, 0, none, name);
        let m = names_from(s, 0, none);
        lookup_none(m, name);
        let k = keys(m);
        assert(k.len() == m.len());
        assert forall|i: int| 0 <= i < m.len() implies (#[trigger] m[i]).0 == k[i] by {}
        if k.contains(name) {
            let i = choose|i: int| 0 <= i < k.len() && k[i] == name;
            assert(m[i].0 == name);
        }
        if lookup(m, name) is Some {
            let i = choose|i: int| 0 <= i < m.len() && (#[trigger] m[i]).0 == name;
            assert(k[i] == name);
        }
    }
}

/// The package manager is the one of the first lock file that is known.
pub proof fn first_lock_file_tells_the_manager(lockfiles: Seq<Seq<char>>, i: int, k: int)
    requires
        0 <= i <= k <= lockfiles.len(),
        forall|j: int|
            i <= j < k ==> (#[trigger] lockfiles[j]) != "pnpm-lock.yaml"@ && lockfiles[j]
                != "yarn.lock"@ && lockfiles[j] != "package-lock.json"@,
    ensures
        k == lockfiles.len() ==> manager_from(lockfiles, i) is None,
        k < lockfiles.len() && lockfiles[k] == "pnpm-lock.yaml"@ ==> manager_from(lockfiles, i)
            == Some("pnpm"@),
        k < lockfiles.len() && lockfiles[k] == "yarn.lock"@ ==> manager_from(lockfiles, i) == Some(
            "yarn"@,
        ),
        k < lockfiles.len() && lockfiles[k] == "package-lock.json"@ ==> manager_from(lockfiles, i)
            == Some("npm"@),
    decreases k - i,
{
    reveal_strlit("pnpm-lock.yaml");
    reveal_strlit("yarn.lock");
    reveal_strlit("package-lock.json");
    assert("pnpm-lock.yaml"@.len() == 14 && "yarn.lock"@.len() == 9);
    assert("package-lock.json"@.len() == 17);
    if i < k {
        first_lock_file_tells_the_manager(lockfiles, i + 1, k);
    }
}

/// What is recommended for a project follows from its package file and its lock files: only a
/// package file that is no document is an error; and what the project has is not recommended.
pub proof fn project_is_advised(
    repo_root: Option<Seq<char>>,
    package_json: Option<Seq<char>>,
    lockfiles: Seq<Seq<char>>,
    has_commands: bool,
    has_pipelines: bool,
)
    ensures
        ({
            let r = recommended(repo_root, package_json, lockfiles, has_commands, has_pipelines);
            &&& r is Err <==> package_json is Some && parsed(package_json->0) is Err
            &&& r is Ok ==> {
                let b = r->Ok_0;
                &&& b.repo_root == repo_root
                &&& b.detected.has_package_json == package_json is Some
                &&& b.detected.package_manager == manager_from(lockfiles, 0)
                &&& suggests(b, RecommendationKind::AddCommandsCatalog) <==> !has_commands
                    && package_json is Some && script_names(parsed(package_json->0)->Ok_0).len() > 0
                &&& suggests(b, RecommendationKind::AddVerifyPipeline) <==> !has_pipelines
                    && manager_from(lockfiles, 0) is Some
            }
        }),
{
    let scripts = match package_json {
        None => None,
        Some(raw) => match parsed_scripts(raw) {
            Ok(s) => Some(s),
            Err(_) => None,
        },
    };
    only_what_is_missing_is_recommended(
        repo_root,
        scripts,
        manager_from(lockfiles, 0),
        has_commands,
        has_pipelines,
    );
}

} // verus!
