//! The templates that agents used lately.

use vstd::prelude::*;
use crate::paths::{join_path3, joined3};
use crate::strmap::{
    lex_lt, lookup, lookup_mapped, lookup_put, put, put_last, put_sorted, sorted, StrMap,
};
use crate::text::{blank, cat3, decimal, decimal_string, is_blank, str_eq, Duplicate};

verus! {

/// That a template was used, and when.
#[derive(Debug, PartialEq, Eq)]
pub struct MruEntryV1 {
    pub template_id: String,
    pub last_used_at_ms: u64,
}

/// What a [`MruEntryV1`] stands for.
#[verifier::ext_equal]
pub struct MruEntryV1View {
    pub template_id: Seq<char>,
    pub last_used_at_ms: u64,
}

impl View for MruEntryV1 {
    type V = MruEntryV1View;

    open spec fn view(&self) -> MruEntryV1View {
        MruEntryV1View {
            template_id: self.template_id@,
            last_used_at_ms: self.last_used_at_ms,
        }
    }
}

impl DeepView for MruEntryV1 {
    type V = MruEntryV1View;

    open spec fn deep_view(&self) -> MruEntryV1View {
        self@
    }
}

impl Duplicate for MruEntryV1 {
    fn dup(&self) -> (r: Self) {
        MruEntryV1 {
            template_id: self.template_id.clone(),
            last_used_at_ms: self.last_used_at_ms,
        }
    }
}

impl Clone for MruEntryV1 {
    fn clone(&self) -> (r: Self)
        ensures
            r@ == self@,
    {
        self.dup()
    }
}

/// The templates that an agent used, the latest first.
#[derive(Debug, PartialEq, Eq)]
pub struct AgentTemplatesStateV1 {
    pub mru: Vec<MruEntryV1>,
}

/// What a [`AgentTemplatesStateV1`] stands for.
#[verifier::ext_equal]
pub struct AgentTemplatesStateV1View {
    pub mru: Seq<MruEntryV1View>,
}

impl View for AgentTemplatesStateV1 {
    type V = AgentTemplatesStateV1View;

    open spec fn view(&self) -> AgentTemplatesStateV1View {
        AgentTemplatesStateV1View {
            mru: self.mru.deep_view(),
        }
    }
}

impl DeepView for AgentTemplatesStateV1 {
    type V = AgentTemplatesStateV1View;

    open spec fn deep_view(&self) -> AgentTemplatesStateV1View {
        self@
    }
}

impl Duplicate for AgentTemplatesStateV1 {
    fn dup(&self) -> (r: Self) {
        AgentTemplatesStateV1 {
            mru: self.mru.dup(),
        }
    }
}

impl Clone for AgentTemplatesStateV1 {
    fn clone(&self) -> (r: Self)
        ensures
            r@ == self@,
    {
        self.dup()
    }
}

/// The contents of the file of used templates.
#[derive(Debug, PartialEq, Eq)]
pub struct TemplatesStateFileV1 {
    pub schema_version: String,
    pub agents: StrMap<AgentTemplatesStateV1>,
}

/// What a [`TemplatesStateFileV1`] stands for.
#[verifier::ext_equal]
pub struct TemplatesStateFileV1View {
    pub schema_version: Seq<char>,
    pub agents: Seq<(Seq<char>, AgentTemplatesStateV1View)>,
}

impl View for TemplatesStateFileV1 {
    type V = TemplatesStateFileV1View;

    open spec fn view(&self) -> TemplatesStateFileV1View {
        TemplatesStateFileV1View {
            schema_version: self.schema_version@,
            agents: self.agents.deep_view(),
        }
    }
}

impl DeepView for TemplatesStateFileV1 {
    type V = TemplatesStateFileV1View;

    open spec fn deep_view(&self) -> TemplatesStateFileV1View {
        self@
    }
}

impl Duplicate for TemplatesStateFileV1 {
    fn dup(&self) -> (r: Self) {
        TemplatesStateFileV1 {
            schema_version: self.schema_version.clone(),
            agents: self.agents.dup(),
        }
    }
}

impl Clone for TemplatesStateFileV1 {
    fn clone(&self) -> (r: Self)
        ensures
            r@ == self@,
    {
        self.dup()
    }
}

/// The templates that agents used.
#[derive(Debug, PartialEq, Eq)]
pub struct TemplatesMruStore {
    pub path: String,
    pub data: TemplatesStateFileV1,
    pub dirty: bool,
}

/// What a [`TemplatesMruStore`] stands for.
#[verifier::ext_equal]
pub struct TemplatesMruStoreView {
    pub path: Seq<char>,
    pub data: TemplatesStateFileV1View,
    pub dirty: bool,
}

impl View for TemplatesMruStore {
    type V = TemplatesMruStoreView;

    open spec fn view(&self) -> TemplatesMruStoreView {
        TemplatesMruStoreView {
            path: self.path@,
            data: self.data@,
            dirty: self.dirty,
        }
    }
}

impl DeepView for TemplatesMruStore {
    type V = TemplatesMruStoreView;

    open spec fn deep_view(&self) -> TemplatesMruStoreView {
        self@
    }
}

impl Duplicate for TemplatesMruStore {
    fn dup(&self) -> (r: Self) {
        TemplatesMruStore {
            path: self.path.clone(),
            data: self.data.dup(),
            dirty: self.dirty,
        }
    }
}

impl Clone for TemplatesMruStore {
    fn clone(&self) -> (r: Self)
        ensures
            r@ == self@,
    {
        self.dup()
    }
}

/// The most uses that are remembered of an agent.
pub const MAX_MRU_ENTRIES_PER_AGENT: usize = 50;

/// How long a use is remembered, in milliseconds.
pub const MAX_MRU_AGE_MS: u64 = 90 * 24 * 60 * 60 * 1000;

/// Uses, the latest first.
pub type Uses = Seq<MruEntryV1View>;

/// The contents of a file without uses.
pub open spec fn no_uses() -> TemplatesStateFileV1View {
    TemplatesStateFileV1View { schema_version: "1"@, agents: Seq::empty() }
}

impl Default for TemplatesStateFileV1 {
    fn default() -> (r: Self)
        ensures
            r@ == no_uses(),
    {
        TemplatesStateFileV1 { schema_version: "1".to_owned(), agents: StrMap::new() }
    }
}

/// Whether a use is recent enough to be remembered.
pub open spec fn recent(now_ms: u64, e: MruEntryV1View) -> bool {
    now_ms < e.last_used_at_ms || now_ms - e.last_used_at_ms <= MAX_MRU_AGE_MS
}

/// The recent ones of the uses from position `i` on, behind `acc`.
pub open spec fn recent_from(s: Uses, i: int, acc: Uses, now_ms: u64) -> Uses
    decreases s.len() - i,
{
    if i < 0 || i >= s.len() {
        acc
    } else if recent(now_ms, s[i]) {
        recent_from(s, i + 1, acc.push(s[i]), now_ms)
    } else {
        recent_from(s, i + 1, acc, now_ms)
    }
}

/// The first uses, as many as are remembered.
pub open spec fn first_uses(s: Uses) -> Uses {
    if s.len() > MAX_MRU_ENTRIES_PER_AGENT {
        s.subrange(0, MAX_MRU_ENTRIES_PER_AGENT as int)
    } else {
        s
    }
}

/// The uses that are remembered.
pub open spec fn pruned(s: Uses, now_ms: u64) -> Uses {
    first_uses(recent_from(s, 0, Seq::empty(), now_ms))
}

/// The uses from position `i` on that are not of the given template, behind `acc`.
pub open spec fn others_from(s: Uses, i: int, acc: Uses, template_id: Seq<char>) -> Uses
    decreases s.len() - i,
{
    if i < 0 || i >= s.len() {
        acc
    } else if s[i].template_id == template_id {
        others_from(s, i + 1, acc, template_id)
    } else {
        others_from(s, i + 1, acc.push(s[i]), template_id)
    }
}

/// The uses after a template was used: it comes first, and its earlier uses are forgotten.
pub open spec fn used_now(s: Uses, template_id: Seq<char>, now_ms: u64) -> Uses {
    first_uses(
        seq![MruEntryV1View { template_id, last_used_at_ms: now_ms }] + others_from(
            s,
            0,
            Seq::empty(),
            template_id,
        ),
    )
}

/// Agents, by name.
pub type Agents = Seq<(Seq<char>, AgentTemplatesStateV1View)>;

/// Every agent with the uses of it that are remembered.
pub open spec fn pruned_agents(s: Agents, now_ms: u64) -> Agents {
    s.map_values(
        |e: (Seq<char>, AgentTemplatesStateV1View)|
            (e.0, AgentTemplatesStateV1View { mru: pruned(e.1.mru, now_ms) }),
    )
}

/// Whether the uses of an agent become fewer.
pub open spec fn loses_uses(s: Agents, now_ms: u64) -> bool {
    exists|i: int|
        0 <= i < s.len() && pruned((#[trigger] s[i]).1.mru, now_ms).len() != s[i].1.mru.len()
}

/// The store after old uses were forgotten.
pub open spec fn pruned_store(s: TemplatesMruStoreView, now_ms: u64) -> TemplatesMruStoreView {
    TemplatesMruStoreView {
        data: TemplatesStateFileV1View { agents: pruned_agents(s.data.agents, now_ms), ..s.data },
        dirty: s.dirty || loses_uses(s.data.agents, now_ms),
        ..s
    }
}

/// The uses of an agent.
pub open spec fn uses_of(s: TemplatesMruStoreView, agent_id: Seq<char>) -> Uses {
    match lookup(s.data.agents, agent_id) {
        Some(a) => a.mru,
        None => Seq::empty(),
    }
}

/// The first use from position `i` on of a template.
pub open spec fn last_use_from(s: Uses, i: int, template_id: Seq<char>) -> Option<u64>
    decreases s.len() - i,
{
    if i < 0 || i >= s.len() {
        None
    } else if s[i].template_id == template_id {
        Some(s[i].last_used_at_ms)
    } else {
        last_use_from(s, i + 1, template_id)
    }
}

/// The store after a template was used.
pub open spec fn noted(
    s: TemplatesMruStoreView,
    agent_id: Seq<char>,
    template_id: Seq<char>,
    now_ms: u64,
) -> TemplatesMruStoreView {
    let agents = put(
        s.data.agents,
        agent_id,
        AgentTemplatesStateV1View { mru: used_now(uses_of(s, agent_id), template_id, now_ms) },
    );
    TemplatesMruStoreView {
        dirty: true,
        ..pruned_store(
            TemplatesMruStoreView {
                data: TemplatesStateFileV1View { agents, ..s.data },
                ..s
            },
            now_ms,
        )
    }
}

fn prune_uses(s: &Vec<MruEntryV1>, now_ms: u64) -> (r: Vec<MruEntryV1>)
    ensures
        r.deep_view() == pruned(s.deep_view(), now_ms),
{
    let ghost all = s.deep_view();
    let mut out: Vec<MruEntryV1> = Vec::new();
    let mut i: usize = 0;
    assert(out.deep_view() =~= Seq::empty());
    while i < s.len()
        invariant
            i <= s.len(),
            all == s.deep_view(),
            recent_from(all, 0, Seq::empty(), now_ms) == recent_from(
                all,
                i as int,
                out.deep_view(),
                now_ms,
            ),
        decreases s.len() - i,
    {
        let e = &s[i];
        assert(all[i as int] == e@);
        if now_ms.saturating_sub(e.last_used_at_ms) <= MAX_MRU_AGE_MS {
            let ghost before = out.deep_view();
            out.push(e.dup());
            assert(out.deep_view() =~= before.push(e@));
        }
        i = i + 1;
    }
    keep_first(&mut out);
    out
}

fn keep_first(s: &mut Vec<MruEntryV1>)
    ensures
        final(s).deep_view() == first_uses(old(s).deep_view()),
{
    let ghost before = s.deep_view();
    s.truncate(MAX_MRU_ENTRIES_PER_AGENT);
    assert(s.deep_view() =~= first_uses(before));
}

impl TemplatesMruStore {
    /// The store of what a file holds, with old uses forgotten. A file that cannot be read,
    /// or is of another version, counts as empty.
    pub fn load(codex_home: &str, file: Option<TemplatesStateFileV1>, now_ms: u64) -> (r: Self)
        ensures
            r@ == pruned_store(
                TemplatesMruStoreView {
                    path: joined3(codex_home@, "printrevolt"@, "state"@, "templates.json"@),
                    data: match file {
                        Some(f) => if f@.schema_version == "1"@ {
                            f@
                        } else {
                            no_uses()
                        },
                        None => no_uses(),
                    },
                    dirty: false,
                },
                now_ms,
            ),
    {
        let data = match file {
            Some(f) => {
                if str_eq(f.schema_version.as_str(), "1") {
                    f
                } else {
                    TemplatesStateFileV1::default()
                }
            },
            None => TemplatesStateFileV1::default(),
        };
        let mut out = TemplatesMruStore {
            path: join_path3(codex_home, "printrevolt", "state", "templates.json"),
            data,
            dirty: false,
        };
        out.prune_old_entries(now_ms);
        out
    }

    /// When an agent last used a template.
    pub fn last_used_at_ms(&self, agent_id: &str, template_id: &str) -> (r: Option<u64>)
        ensures
            r == last_use_from(uses_of(self@, agent_id@), 0, template_id@),
    {
        let agent = match self.data.agents.get(agent_id) {
            None => {
                return None;
            },
            Some(a) => a,
        };
        let ghost all = uses_of(self@, agent_id@);
        let mut i: usize = 0;
        while i < agent.mru.len()
            invariant
                i <= agent.mru.len(),
                all == agent.mru.deep_view(),
                all == uses_of(self@, agent_id@),
                last_use_from(all, 0, template_id@) == last_use_from(
                    all,
                    i as int,
                    template_id@,
                ),
            decreases agent.mru.len() - i,
        {
            assert(all[i as int] == agent.mru[i as int]@);
            if str_eq(agent.mru[i].template_id.as_str(), template_id) {
                return Some(agent.mru[i].last_used_at_ms);
            }
            i = i + 1;
        }
        None
    }

    /// The templates that an agent used, the latest first.
    pub fn mru_template_ids(&self, agent_id: &str) -> (r: Vec<String>)
        ensures
            r.deep_view() == uses_of(self@, agent_id@).map_values(|e: MruEntryV1View| e.template_id),
    {
        let mut out: Vec<String> = Vec::new();
        let ghost all = uses_of(self@, agent_id@);
        if let Some(agent) = self.data.agents.get(agent_id) {
            let mut i: usize = 0;
            while i < agent.mru.len()
                invariant
                    i <= agent.mru.len(),
                    all == agent.mru.deep_view(),
                    out@.len() == i,
                    forall|k: int| 0 <= k < i ==> (#[trigger] out@[k])@ == all[k].template_id,
                decreases agent.mru.len() - i,
            {
                assert(all[i as int] == agent.mru[i as int]@);
                out.push(agent.mru[i].template_id.clone());
                i = i + 1;
            }
        }
        assert(out.deep_view() =~= all.map_values(|e: MruEntryV1View| e.template_id));
        out
    }

    /// Notes that an agent used a template.
    pub fn note_used(&mut self, agent_id: &str, template_id: &str, now_ms: u64)
        ensures
            final(self)@ == noted(old(self)@, agent_id@, template_id@, now_ms),
    {
        let first = MruEntryV1 { template_id: template_id.to_owned(), last_used_at_ms: now_ms };
        let ghost head = seq![first@];
        let ghost all = uses_of(self@, agent_id@);
        let mut mru: Vec<MruEntryV1> = Vec::new();
        mru.push(first);
        assert(mru.deep_view() =~= head + Seq::empty());
        let ghost mut kept: Uses = Seq::empty();
        if let Some(agent) = self.data.agents.get(agent_id) {
            let mut i: usize = 0;
            while i < agent.mru.len()
                invariant
                    i <= agent.mru.len(),
                    all == agent.mru.deep_view(),
                    mru.deep_view() == head + kept,
                    others_from(all, 0, Seq::empty(), template_id@) == others_from(
                        all,
                        i as int,
                        kept,
                        template_id@,
                    ),
                decreases agent.mru.len() - i,
            {
                let e = &agent.mru[i];
                assert(all[i as int] == e@);
                if !str_eq(e.template_id.as_str(), template_id) {
                    let ghost before = mru.deep_view();
                    mru.push(e.dup());
                    assert(mru.deep_view() =~= before.push(e@));
                    assert(before.push(e@) =~= head + kept.push(e@));
                    proof {
                        kept = kept.push(e@);
                    }
                }
                i = i + 1;
            }
        }
        keep_first(&mut mru);
        self.data.agents.insert(agent_id.to_owned(), AgentTemplatesStateV1 { mru });
        self.prune_old_entries(now_ms);
        self.dirty = true;
    }

    /// Forgets old uses.
    fn prune_old_entries(&mut self, now_ms: u64)
        ensures
            final(self)@ == pruned_store(old(self)@, now_ms),
    {
        self.data.agents.order();
        let ghost all = self.data.agents@;
        let ghost want = pruned_agents(all, now_ms);
        let mut agents: StrMap<AgentTemplatesStateV1> = StrMap::new();
        let mut changed = false;
        let mut i: usize = 0;
        assert(want.subrange(0, 0) =~= Seq::empty());
        while i < self.data.agents.len()
            invariant
                i <= self.data.agents@.len(),
                all == self.data.agents@,
                sorted(all),
                want == pruned_agents(all, now_ms),
                agents@ == want.subrange(0, i as int),
                changed == (exists|k: int|
                    0 <= k < i && pruned((#[trigger] all[k]).1.mru, now_ms).len()
                        != all[k].1.mru.len()),
                self@ == old(self)@,
            decreases self.data.agents@.len() - i,
        {
            let k = self.data.agents.key_at(i).clone();
            let agent = self.data.agents.value_at(i);
            let mru = prune_uses(&agent.mru, now_ms);
            proof {
                assert(agent.mru.deep_view().len() == agent.mru@.len());
                assert(mru.deep_view().len() == mru@.len());
            }
            let differs = mru.len() != agent.mru.len();
            let kept = AgentTemplatesStateV1 { mru };
            proof {
                assert forall|j: int| 0 <= j < agents@.len() implies lex_lt(
                    #[trigger] agents@[j].0,
                    k@,
                ) by {
                    assert(lex_lt(all[j].0, all[i as int].0));
                }
                put_last(agents@, k@, kept@);
                if differs {
                    assert(pruned(all[i as int].1.mru, now_ms).len() != all[i as int].1.mru.len());
                }
            }
            agents.insert(k, kept);
            changed = changed || differs;
            i = i + 1;
            assert(agents@ =~= want.subrange(0, i as int));
        }
        assert(want.subrange(0, i as int) =~= want);
        self.data.agents = agents;
        if changed {
            self.dirty = true;
        }
    }
}

/// How long ago a template was used, in words; nothing for a use in the future.
pub open spec fn ago_text(now_ms: u64, last_used_at_ms: u64) -> Option<Seq<char>> {
    if now_ms < last_used_at_ms {
        None
    } else {
        let secs = (now_ms - last_used_at_ms) / 1000;
        if secs < 60 {
            Some("used "@ + decimal(secs as nat) + "s ago"@)
        } else if secs / 60 < 60 {
            Some("used "@ + decimal((secs / 60) as nat) + "m ago"@)
        } else if secs / 3600 < 24 {
            Some("used "@ + decimal((secs / 3600) as nat) + "h ago"@)
        } else {
            Some("used "@ + decimal((secs / 86400) as nat) + "d ago"@)
        }
    }
}

pub fn format_used_ago(now_ms: u64, last_used_at_ms: u64) -> (r: Option<String>)
    ensures
        r.deep_view() == ago_text(now_ms, last_used_at_ms),
{
    if now_ms < last_used_at_ms {
        return None;
    }
    let secs: u64 = (now_ms - last_used_at_ms) / 1000;
    if secs < 60 {
        let n = decimal_string(secs);
        return Some(cat3("used ", n.as_str(), "s ago"));
    }
    let mins: u64 = secs / 60;
    if mins < 60 {
        let n = decimal_string(mins);
        return Some(cat3("used ", n.as_str(), "m ago"));
    }
    let hours: u64 = mins / 60;
    assert(hours == secs / 3600);
    if hours < 24 {
        let n = decimal_string(hours);
        return Some(cat3("used ", n.as_str(), "h ago"));
    }
    let days: u64 = hours / 24;
    assert(days == secs / 86400);
    let n = decimal_string(days);
    Some(cat3("used ", n.as_str(), "d ago"))
}

/// The usual title of the interface.
pub open spec fn default_title() -> Seq<char> {
    "OpenAI Codex"@
}

/// The title of the interface: the configured one, unless it is blank.
pub fn tui_title(configured: Option<String>) -> (r: String)
    ensures
        r@ == match configured {
            Some(t) => if is_blank(t@) {
                default_title()
            } else {
                t@
            },
            None => default_title(),
        },
{
    if let Some(t) = configured {
        if !blank(t.as_str()) {
            return t;
        }
    }
    "OpenAI Codex".to_owned()
}

/// Whether none of the uses is of the given template.
pub open spec fn none_of(s: Uses, t: Seq<char>) -> bool {
    forall|k: int| 0 <= k < s.len() ==> (#[trigger] s[k]).template_id != t
}

/// Whether all uses are recent.
pub open spec fn all_recent(s: Uses, now_ms: u64) -> bool {
    forall|k: int| 0 <= k < s.len() ==> recent(now_ms, #[trigger] s[k])
}

proof fn others_laws(s: Uses, i: int, acc: Uses, t: Seq<char>)
    requires
        0 <= i <= s.len(),
        none_of(acc, t),
    ensures
        none_of(others_from(s, i, acc, t), t),
    decreases s.len() - i,
{
    if i < s.len() {
        if s[i].template_id == t {
            others_laws(s, i + 1, acc, t);
        } else {
            others_laws(s, i + 1, acc.push(s[i]), t);
        }
    }
}

/// A template that was just used comes first, occurs once, and no more uses are remembered
/// than allowed.
pub proof fn used_template_comes_first(s: Uses, t: Seq<char>, now_ms: u64)
    ensures
        used_now(s, t, now_ms).len() <= MAX_MRU_ENTRIES_PER_AGENT,
        used_now(s, t, now_ms).len() > 0,
        used_now(s, t, now_ms)[0] == (MruEntryV1View { template_id: t, last_used_at_ms: now_ms }),
        forall|k: int|
            0 < k < used_now(s, t, now_ms).len() ==> (#[trigger] used_now(
                s,
                t,
                now_ms,
            )[k]).template_id != t,
{
    others_laws(s, 0, Seq::empty(), t);
    let o = others_from(s, 0, Seq::empty(), t);
    let u = used_now(s, t, now_ms);
    assert forall|k: int| 0 < k < u.len() implies (#[trigger] u[k]).template_id != t by {
        assert(u[k] == o[k - 1]);
    }
}

proof fn recent_laws(s: Uses, i: int, acc: Uses, now_ms: u64)
    requires
        0 <= i <= s.len(),
        all_recent(acc, now_ms),
    ensures
        all_recent(recent_from(s, i, acc, now_ms), now_ms),
    decreases s.len() - i,
{
    if i < s.len() {
        if recent(now_ms, s[i]) {
            recent_laws(s, i + 1, acc.push(s[i]), now_ms);
        } else {
            recent_laws(s, i + 1, acc, now_ms);
        }
    }
}

/// What is remembered is recent, and no more than allowed.
pub proof fn remembered_uses_are_recent(s: Uses, now_ms: u64)
    ensures
        pruned(s, now_ms).len() <= MAX_MRU_ENTRIES_PER_AGENT,
        all_recent(pruned(s, now_ms), now_ms),
{
    recent_laws(s, 0, Seq::empty(), now_ms);
    let r = recent_from(s, 0, Seq::empty(), now_ms);
    let p = pruned(s, now_ms);
    assert forall|k: int| 0 <= k < p.len() implies recent(now_ms, #[trigger] p[k]) by {
        assert(p[k] == r[k]);
    }
}

proof fn first_recent(s: Uses, i: int, acc: Uses, now_ms: u64)
    requires
        0 <= i <= s.len(),
        acc.len() > 0,
    ensures
        recent_from(s, i, acc, now_ms).len() > 0,
        recent_from(s, i, acc, now_ms)[0] == acc[0],
    decreases s.len() - i,
{
    if i < s.len() {
        if recent(now_ms, s[i]) {
            first_recent(s, i + 1, acc.push(s[i]), now_ms);
        } else {
            first_recent(s, i + 1, acc, now_ms);
        }
    }
}

/// A use that was noted is the first that the store remembers of its agent.
pub proof fn noted_use_is_remembered(
    s: TemplatesMruStoreView,
    agent_id: Seq<char>,
    template_id: Seq<char>,
    now_ms: u64,
)
    requires
        sorted(s.data.agents),
    ensures
        ({
            let t = noted(s, agent_id, template_id, now_ms);
            &&& t.dirty
            &&& last_use_from(uses_of(t, agent_id), 0, template_id) == Some(now_ms)
            &&& uses_of(t, agent_id)[0].template_id == template_id
        }),
{
    let used = used_now(uses_of(s, agent_id), template_id, now_ms);
    used_template_comes_first(uses_of(s, agent_id), template_id, now_ms);
    let agents = put(s.data.agents, agent_id, AgentTemplatesStateV1View { mru: used });
    put_sorted(s.data.agents, agent_id, AgentTemplatesStateV1View { mru: used });
    lookup_put(s.data.agents, agent_id, AgentTemplatesStateV1View { mru: used }, agent_id);
    let prune = |a: AgentTemplatesStateV1View|
        AgentTemplatesStateV1View { mru: pruned(a.mru, now_ms) };
    assert(pruned_agents(agents, now_ms) =~= agents.map_values(
        |e: (Seq<char>, AgentTemplatesStateV1View)| (e.0, prune(e.1)),
    ));
    lookup_mapped(agents, pruned_agents(agents, now_ms), prune, agent_id);
    let first = used[0];
    assert(recent(now_ms, first));
    let none: Uses = Seq::empty();
    assert(recent_from(used, 0, none, now_ms) == recent_from(used, 1, none.push(first), now_ms));
    first_recent(used, 1, none.push(first), now_ms);
}

/// Noting a use of one agent leaves of another what it remembers, but for what is too old.
pub proof fn other_agents_are_left_alone(
    s: TemplatesMruStoreView,
    agent_id: Seq<char>,
    other: Seq<char>,
    template_id: Seq<char>,
    now_ms: u64,
)
    requires
        sorted(s.data.agents),
        other != agent_id,
    ensures
        uses_of(noted(s, agent_id, template_id, now_ms), other) == pruned(
            uses_of(s, other),
            now_ms,
        ),
{
    let used = used_now(uses_of(s, agent_id), template_id, now_ms);
    let agents = put(s.data.agents, agent_id, AgentTemplatesStateV1View { mru: used });
    put_sorted(s.data.agents, agent_id, AgentTemplatesStateV1View { mru: used });
    lookup_put(s.data.agents, agent_id, AgentTemplatesStateV1View { mru: used }, other);
    let prune = |a: AgentTemplatesStateV1View|
        AgentTemplatesStateV1View { mru: pruned(a.mru, now_ms) };
    assert(pruned_agents(agents, now_ms) =~= agents.map_values(
        |e: (Seq<char>, AgentTemplatesStateV1View)| (e.0, prune(e.1)),
    ));
    lookup_mapped(agents, pruned_agents(agents, now_ms), prune, other);
    if lookup(s.data.agents, other) is None {
        let none: Uses = Seq::empty();
        assert(pruned(none, now_ms) =~= none);
    }
}

} // verus!
