//! The commands that a repository or a user declares.

use vstd::prelude::*;
use crate::strmap::{lookup, lookup_at, lookup_put, put, put_sorted, sorted, StrMap};
use crate::text::{blank, cat3, is_blank, Duplicate, Same};

verus! {

/// How child processes of a command are treated.
#[derive(Debug, Clone, Copy, PartialEq, Eq, Structural)]
pub enum ChildProcessPolicy {
    Inherit,
    AuditAllowlist,
    EnforceAllowlist,
}

impl View for ChildProcessPolicy {
    type V = ChildProcessPolicy;

    open spec fn view(&self) -> ChildProcessPolicy {
        *self
    }
}

impl DeepView for ChildProcessPolicy {
    type V = ChildProcessPolicy;

    open spec fn deep_view(&self) -> ChildProcessPolicy {
        *self
    }
}

impl Duplicate for ChildProcessPolicy {
    fn dup(&self) -> (r: Self) {
        *self
    }
}

impl Same for ChildProcessPolicy {
    fn same(&self, other: &Self) -> (b: bool) {
        *self == *other
    }
}

impl Default for ChildProcessPolicy {
    fn default() -> (r: Self)
        ensures
            r == ChildProcessPolicy::Inherit,
    {
        ChildProcessPolicy::Inherit
    }
}

/// What a command is for.
#[derive(Debug, Clone, Copy, PartialEq, Eq, Structural)]
pub enum CommandCategory {
    Verify,
    Lint,
    Build,
    Setup,
    Git,
}

impl View for CommandCategory {
    type V = CommandCategory;

    open spec fn view(&self) -> CommandCategory {
        *self
    }
}

impl DeepView for CommandCategory {
    type V = CommandCategory;

    open spec fn deep_view(&self) -> CommandCategory {
        *self
    }
}

impl Duplicate for CommandCategory {
    fn dup(&self) -> (r: Self) {
        *self
    }
}

impl Same for CommandCategory {
    fn same(&self, other: &Self) -> (b: bool) {
        *self == *other
    }
}

/// A named command.
#[derive(Debug, PartialEq, Eq)]
pub struct CommandSpecV1 {
    pub id: String,
    pub name: String,
    pub cwd: String,
    pub argv: Vec<String>,
    pub category: Option<CommandCategory>,
    pub timeout_ms: Option<u64>,
    pub child_process_policy: ChildProcessPolicy,
    pub script_runner: bool,
    pub requires_sandbox: bool,
}

/// What a [`CommandSpecV1`] stands for.
#[verifier::ext_equal]
pub struct CommandSpecV1View {
    pub id: Seq<char>,
    pub name: Seq<char>,
    pub cwd: Seq<char>,
    pub argv: Seq<Seq<char>>,
    pub category: Option<CommandCategory>,
    pub timeout_ms: Option<u64>,
    pub child_process_policy: ChildProcessPolicy,
    pub script_runner: bool,
    pub requires_sandbox: bool,
}

impl View for CommandSpecV1 {
    type V = CommandSpecV1View;

    open spec fn view(&self) -> CommandSpecV1View {
        CommandSpecV1View {
            id: self.id@,
            name: self.name@,
            cwd: self.cwd@,
            argv: self.argv.deep_view(),
            category: self.category.deep_view(),
            timeout_ms: self.timeout_ms.deep_view(),
            child_process_policy: self.child_process_policy,
            script_runner: self.script_runner,
            requires_sandbox: self.requires_sandbox,
        }
    }
}

impl DeepView for CommandSpecV1 {
    type V = CommandSpecV1View;

    open spec fn deep_view(&self) -> CommandSpecV1View {
        self@
    }
}

impl Duplicate for CommandSpecV1 {
    fn dup(&self) -> (r: Self) {
        CommandSpecV1 {
            id: self.id.clone(),
            name: self.name.clone(),
            cwd: self.cwd.clone(),
            argv: self.argv.dup(),
            category: self.category.dup(),
            timeout_ms: self.timeout_ms.dup(),
            child_process_policy: self.child_process_policy,
            script_runner: self.script_runner,
            requires_sandbox: self.requires_sandbox,
        }
    }
}

impl Clone for CommandSpecV1 {
    fn clone(&self) -> (r: Self)
        ensures
            r@ == self@,
    {
        self.dup()
    }
}

/// The contents of a commands file.
#[derive(Debug, PartialEq, Eq)]
pub struct CommandsFileV1 {
    pub schema_version: String,
    pub commands: Vec<CommandSpecV1>,
}

/// What a [`CommandsFileV1`] stands for.
#[verifier::ext_equal]
pub struct CommandsFileV1View {
    pub schema_version: Seq<char>,
    pub commands: Seq<CommandSpecV1View>,
}

impl View for CommandsFileV1 {
    type V = CommandsFileV1View;

    open spec fn view(&self) -> CommandsFileV1View {
        CommandsFileV1View {
            schema_version: self.schema_version@,
            commands: self.commands.deep_view(),
        }
    }
}

impl DeepView for CommandsFileV1 {
    type V = CommandsFileV1View;

    open spec fn deep_view(&self) -> CommandsFileV1View {
        self@
    }
}

impl Duplicate for CommandsFileV1 {
    fn dup(&self) -> (r: Self) {
        CommandsFileV1 {
            schema_version: self.schema_version.clone(),
            commands: self.commands.dup(),
        }
    }
}

impl Clone for CommandsFileV1 {
    fn clone(&self) -> (r: Self)
        ensures
            r@ == self@,
    {
        self.dup()
    }
}

/// Commands by their identifier.
pub type Commands = Seq<(Seq<char>, CommandSpecV1View)>;

/// What is wrong with a command.
pub open spec fn command_problem(c: CommandSpecV1View) -> Option<Seq<char>> {
    if is_blank(c.id) {
        Some("command id cannot be empty"@)
    } else if c.argv.len() == 0 {
        Some("command "@ + c.id + " argv cannot be empty"@)
    } else {
        None
    }
}

/// The commands from position `i` on, stored into `acc` by their identifiers.
pub open spec fn collected(cmds: Seq<CommandSpecV1View>, i: int, acc: Commands) -> Result<
    Commands,
    Seq<char>,
>
    decreases cmds.len() - i,
{
    if i < 0 || i >= cmds.len() {
        Ok(acc)
    } else {
        match command_problem(cmds[i]) {
            Some(p) => Err(p),
            None => collected(cmds, i + 1, put(acc, cmds[i].id, cmds[i])),
        }
    }
}

/// The commands of an optional file, stored into `acc`.
pub open spec fn collected_file(f: Option<CommandsFileV1View>, acc: Commands) -> Result<
    Commands,
    Seq<char>,
> {
    match f {
        None => Ok(acc),
        Some(f) => collected(f.commands, 0, acc),
    }
}

/// The commands in effect, by identifier: those of the repository before the global
/// ones.
pub open spec fn effective_commands(
    global: Option<CommandsFileV1View>,
    repo: Option<CommandsFileV1View>,
) -> Result<Commands, Seq<char>> {
    match collected_file(global, Seq::empty()) {
        Err(p) => Err(p),
        Ok(base) => collected_file(repo, base),
    }
}

/// The values of entries, in key order.
pub open spec fn command_values(s: Commands) -> Seq<CommandSpecV1View> {
    s.map_values(|e: (Seq<char>, CommandSpecV1View)| e.1)
}

fn collect_into(cmds: &Vec<CommandSpecV1>, out: &mut StrMap<CommandSpecV1>) -> (r: Result<
    (),
    String,
>)
    ensures
        match collected(cmds.deep_view(), 0, old(out)@) {
            Ok(m) => r is Ok && final(out)@ == m,
            Err(p) => r is Err && r->Err_0@ == p,
        },
{
    let ghost seen = cmds.deep_view();
    let mut i: usize = 0;
    while i < cmds.len()
        invariant
            i <= cmds.len(),
            seen == cmds.deep_view(),
            collected(seen, 0, old(out)@) == collected(seen, i as int, out@),
        decreases cmds.len() - i,
    {
        let cmd = &cmds[i];
        assert(seen[i as int] == cmd@);
        if blank(cmd.id.as_str()) {
            return Err("command id cannot be empty".to_owned());
        }
        assert(cmd.argv.deep_view().len() == cmd.argv@.len());
        if cmd.argv.is_empty() {
            return Err(cat3("command ", cmd.id.as_str(), " argv cannot be empty"));
        }
        out.insert(cmd.id.clone(), cmd.dup());
        i = i + 1;
    }
    Ok(())
}

impl CommandsFileV1 {
    /// The commands in effect, in the order of their identifiers.
    pub fn merge_effective(global: Option<Self>, repo: Option<Self>) -> (r: Result<Self, String>)
        ensures
            match effective_commands(global.deep_view(), repo.deep_view()) {
                Ok(m) => r is Ok && r->Ok_0@.schema_version == "1"@ && r->Ok_0@.commands
                    == command_values(m),
                Err(p) => r is Err && r->Err_0@ == p,
            },
    {
        let mut commands: StrMap<CommandSpecV1> = StrMap::new();
        if let Some(g) = &global {
            collect_into(&g.commands, &mut commands)?;
        }
        if let Some(r) = &repo {
            collect_into(&r.commands, &mut commands)?;
        }
        let mut out: Vec<CommandSpecV1> = Vec::new();
        let mut i: usize = 0;
        while i < commands.len()
            invariant
                i <= commands@.len(),
                out@.len() == i,
                forall|k: int| 0 <= k < i ==> (#[trigger] out@[k])@ == commands@[k].1,
            decreases commands@.len() - i,
        {
            out.push(commands.value_at(i).dup());
            i = i + 1;
        }
        assert(out.deep_view() =~= command_values(commands@));
        Ok(CommandsFileV1 { schema_version: "1".to_owned(), commands: out })
    }
}

/// Whether entries are valid commands under their own identifiers, in order.
pub open spec fn well_kept(s: Commands) -> bool {
    &&& sorted(s)
    &&& forall|k: int|
        0 <= k < s.len() ==> (#[trigger] s[k]).1.id == s[k].0 && command_problem(s[k].1) is None
}

proof fn collected_well_kept(cmds: Seq<CommandSpecV1View>, i: int, acc: Commands)
    requires
        0 <= i,
        well_kept(acc),
    ensures
        collected(cmds, i, acc) matches Ok(m) ==> well_kept(m),
    decreases cmds.len() - i,
{
    if i < cmds.len() && command_problem(cmds[i]) is None {
        let next = put(acc, cmds[i].id, cmds[i]);
        put_sorted(acc, cmds[i].id, cmds[i]);
        assert forall|k: int| 0 <= k < next.len() implies (#[trigger] next[k]).1.id == next[k].0
            && command_problem(next[k].1) is None by {
            lookup_at(next, k);
            lookup_put(acc, cmds[i].id, cmds[i], next[k].0);
            crate::strmap::lookup_some(acc, next[k].0);
        }
        collected_well_kept(cmds, i + 1, next);
    }
}

/// Of the commands in effect each has an identifier of its own, none of them blank,
/// and something to run.
pub proof fn effective_commands_are_valid(
    global: Option<CommandsFileV1View>,
    repo: Option<CommandsFileV1View>,
)
    ensures
        effective_commands(global, repo) matches Ok(m) ==> well_kept(m),
{
    if let Some(g) = global {
        collected_well_kept(g.commands, 0, Seq::empty());
    }
    if let Ok(base) = collected_file(global, Seq::empty()) {
        if let Some(r) = repo {
            collected_well_kept(r.commands, 0, base);
        }
    }
}

/// The last of the first `n` commands with an identifier.
pub open spec fn last_with(cmds: Seq<CommandSpecV1View>, n: int, id: Seq<char>) -> Option<
    CommandSpecV1View,
>
    decreases n,
{
    if n <= 0 {
        None
    } else if cmds[n - 1].id == id {
        Some(cmds[n - 1])
    } else {
        last_with(cmds, n - 1, id)
    }
}

proof fn collected_lookup(
    cmds: Seq<CommandSpecV1View>,
    i: int,
    acc: Commands,
    base: Commands,
    id: Seq<char>,
)
    requires
        0 <= i <= cmds.len(),
        sorted(acc),
        lookup(acc, id) == match last_with(cmds, i, id) {
            Some(c) => Some(c),
            None => lookup(base, id),
        },
    ensures
        collected(cmds, i, acc) matches Ok(m) ==> lookup(m, id) == match last_with(
            cmds,
            cmds.len() as int,
            id,
        ) {
            Some(c) => Some(c),
            None => lookup(base, id),
        },
    decreases cmds.len() - i,
{
    if i < cmds.len() && command_problem(cmds[i]) is None {
        put_sorted(acc, cmds[i].id, cmds[i]);
        lookup_put(acc, cmds[i].id, cmds[i], id);
        collected_lookup(cmds, i + 1, put(acc, cmds[i].id, cmds[i]), base, id);
    }
}

/// A command of the repository takes the place of a global one with the same
/// identifier; in either file the last command with an identifier counts.
pub proof fn repo_commands_override_global(
    global: CommandsFileV1View,
    repo: CommandsFileV1View,
    id: Seq<char>,
)
    ensures
        effective_commands(Some(global), Some(repo)) matches Ok(m) ==> lookup(m, id)
            == match last_with(repo.commands, repo.commands.len() as int, id) {
            Some(c) => Some(c),
            None => last_with(global.commands, global.commands.len() as int, id),
        },
{
    let none: Commands = Seq::empty();
    collected_lookup(global.commands, 0, none, none, id);
    if let Ok(base) = collected(global.commands, 0, none) {
        collected_well_kept(global.commands, 0, none);
        collected_lookup(repo.commands, 0, base, base, id);
    }
}

} // verus!
