//! Plans for worktrees and branches.

use vstd::prelude::*;
use crate::digest::{json_digest, sha256_json};
use crate::json::{json_object, json_str, json_strs, str_array, Json, JsonView};
use crate::paths::{
    components, down_stays_below, goes_down_from, is_absolute, is_under, join_path, joined,
    joined_stays_below, path_is_under, path_stays_below, stays_below,
};
use crate::profiles::payload::{documents, json_list, ToJson};
use crate::text::{
    cat2, cat3, cat4, chars_of, decimal, decimal_string, join, join_strings, list_contains,
    pieces_are_free, split, split_on, split_undoes_join, starts_with, str_eq, Duplicate,
};

verus! {

/// Why an operation on a repository cannot be planned or done.
#[derive(Debug, PartialEq, Eq)]
pub enum RepoOpsError {
    NotAGitRepo(String),
    InvalidNaming(String),
    WorktreeEscapesRoot,
    GitFailed(String),
}

/// What a [`RepoOpsError`] stands for.
#[verifier::ext_equal]
pub enum RepoOpsErrorView {
    NotAGitRepo(Seq<char>),
    InvalidNaming(Seq<char>),
    WorktreeEscapesRoot,
    GitFailed(Seq<char>),
}

impl View for RepoOpsError {
    type V = RepoOpsErrorView;

    open spec fn view(&self) -> RepoOpsErrorView {
        match self {
            RepoOpsError::NotAGitRepo(a) => RepoOpsErrorView::NotAGitRepo(a@),
            RepoOpsError::InvalidNaming(a) => RepoOpsErrorView::InvalidNaming(a@),
            RepoOpsError::WorktreeEscapesRoot => RepoOpsErrorView::WorktreeEscapesRoot,
            RepoOpsError::GitFailed(a) => RepoOpsErrorView::GitFailed(a@),
        }
    }
}

impl DeepView for RepoOpsError {
    type V = RepoOpsErrorView;

    open spec fn deep_view(&self) -> RepoOpsErrorView {
        self@
    }
}

impl Duplicate for RepoOpsError {
    fn dup(&self) -> (r: Self) {
        match self {
            RepoOpsError::NotAGitRepo(a) => RepoOpsError::NotAGitRepo(a.clone()),
            RepoOpsError::InvalidNaming(a) => RepoOpsError::InvalidNaming(a.clone()),
            RepoOpsError::WorktreeEscapesRoot => RepoOpsError::WorktreeEscapesRoot,
            RepoOpsError::GitFailed(a) => RepoOpsError::GitFailed(a.clone()),
        }
    }
}

impl Clone for RepoOpsError {
    fn clone(&self) -> (r: Self)
        ensures
            r@ == self@,
    {
        self.dup()
    }
}

/// A command to run in a directory.
#[derive(Debug, PartialEq, Eq)]
pub struct GitCommand {
    pub cwd: String,
    pub argv: Vec<String>,
}

/// What a [`GitCommand`] stands for.
#[verifier::ext_equal]
pub struct GitCommandView {
    pub cwd: Seq<char>,
    pub argv: Seq<Seq<char>>,
}

impl View for GitCommand {
    type V = GitCommandView;

    open spec fn view(&self) -> GitCommandView {
        GitCommandView {
            cwd: self.cwd@,
            argv: self.argv.deep_view(),
        }
    }
}

impl DeepView for GitCommand {
    type V = GitCommandView;

    open spec fn deep_view(&self) -> GitCommandView {
        self@
    }
}

impl Duplicate for GitCommand {
    fn dup(&self) -> (r: Self) {
        GitCommand {
            cwd: self.cwd.clone(),
            argv: self.argv.dup(),
        }
    }
}

impl Clone for GitCommand {
    fn clone(&self) -> (r: Self)
        ensures
            r@ == self@,
    {
        self.dup()
    }
}

/// What is to be done to a repository. The hash binds an approval to it.
#[derive(Debug, PartialEq, Eq)]
pub struct RepoOpPlan {
    pub action: String,
    pub action_hash: String,
    pub commands: Vec<GitCommand>,
    pub notes: Vec<String>,
}

/// What a [`RepoOpPlan`] stands for.
#[verifier::ext_equal]
pub struct RepoOpPlanView {
    pub action: Seq<char>,
    pub action_hash: Seq<char>,
    pub commands: Seq<GitCommandView>,
    pub notes: Seq<Seq<char>>,
}

impl View for RepoOpPlan {
    type V = RepoOpPlanView;

    open spec fn view(&self) -> RepoOpPlanView {
        RepoOpPlanView {
            action: self.action@,
            action_hash: self.action_hash@,
            commands: self.commands.deep_view(),
            notes: self.notes.deep_view(),
        }
    }
}

impl DeepView for RepoOpPlan {
    type V = RepoOpPlanView;

    open spec fn deep_view(&self) -> RepoOpPlanView {
        self@
    }
}

impl Duplicate for RepoOpPlan {
    fn dup(&self) -> (r: Self) {
        RepoOpPlan {
            action: self.action.clone(),
            action_hash: self.action_hash.clone(),
            commands: self.commands.dup(),
            notes: self.notes.dup(),
        }
    }
}

impl Clone for RepoOpPlan {
    fn clone(&self) -> (r: Self)
        ensures
            r@ == self@,
    {
        self.dup()
    }
}

/// The names that are left once the pieces of a path, from position `i` on, are followed one
/// by one behind `names`: empty pieces and the current directory lead nowhere, and the
/// parent directory takes the last name away. There is no outcome where it finds none.
pub open spec fn followed(pieces: Seq<Seq<char>>, i: int, names: Seq<Seq<char>>) -> Option<
    Seq<Seq<char>>,
>
    decreases pieces.len() - i,
{
    if i < 0 || i >= pieces.len() {
        Some(names)
    } else if pieces[i].len() == 0 || pieces[i] == "."@ {
        followed(pieces, i + 1, names)
    } else if pieces[i] == ".."@ {
        if names.len() == 0 {
            None
        } else {
            followed(pieces, i + 1, names.drop_last())
        }
    } else {
        followed(pieces, i + 1, names.push(pieces[i]))
    }
}

/// The names that a relative path leads to, where it leads somewhere and never out of where
/// it starts.
pub open spec fn relative_names(path: Seq<char>) -> Option<Seq<Seq<char>>> {
    if is_absolute(path) {
        None
    } else {
        match followed(split(path, '/'), 0, Seq::empty()) {
            None => None,
            Some(names) => if names.len() == 0 {
                None
            } else {
                Some(names)
            },
        }
    }
}

/// What a relative path leads to, written plainly.
pub open spec fn resolved_path(path: Seq<char>) -> Result<Seq<char>, RepoOpsErrorView> {
    match relative_names(path) {
        None => Err(RepoOpsErrorView::InvalidNaming(path)),
        Some(names) => Ok(join(names, "/"@)),
    }
}

/// A relative path that does not hold the parent directory, written plainly.
pub open spec fn normalized_path(path: Seq<char>) -> Result<Seq<char>, RepoOpsErrorView> {
    if split(path, '/').contains(".."@) {
        Err(RepoOpsErrorView::InvalidNaming(path))
    } else {
        resolved_path(path)
    }
}

fn resolve_relative_path(path: &str) -> (r: Result<String, RepoOpsError>)
    ensures
        (match r {
            Ok(p) => Ok(p@),
            Err(e) => Err(e@),
        }) == resolved_path(path@),
{
    if starts_with(path, "/") {
        return Err(RepoOpsError::InvalidNaming(path.to_owned()));
    }
    let pieces = split_on(path, '/');
    let ghost all = split(path@, '/');
    let mut names: Vec<String> = Vec::new();
    let mut i: usize = 0;
    assert(names.deep_view() =~= Seq::empty());
    while i < pieces.len()
        invariant
            i <= pieces.len(),
            all == pieces.deep_view(),
            all == split(path@, '/'),
            !is_absolute(path@),
            followed(all, 0, Seq::empty()) == followed(all, i as int, names.deep_view()),
        decreases pieces.len() - i,
    {
        let piece = pieces[i].as_str();
        assert(all[i as int] == piece@);
        let ghost before = names.deep_view();
        assert(before.len() == names@.len());
        if chars_of(piece).len() == 0 || str_eq(piece, ".") {
        } else if str_eq(piece, "..") {
            if names.len() == 0 {
                return Err(RepoOpsError::InvalidNaming(path.to_owned()));
            }
            let _ = names.pop();
            assert(names.deep_view() =~= before.drop_last());
        } else {
            names.push(piece.to_owned());
            assert(names.deep_view() =~= before.push(piece@));
        }
        i = i + 1;
    }
    assert(names.deep_view().len() == names@.len());
    if names.len() == 0 {
        return Err(RepoOpsError::InvalidNaming(path.to_owned()));
    }
    Ok(join_strings(&names, "/"))
}

/// A relative path, written plainly; an error for one that is absolute, holds the parent
/// directory or leads nowhere.
pub fn normalize_relative_path(path: &str) -> (r: Result<String, RepoOpsError>)
    ensures
        (match r {
            Ok(p) => Ok(p@),
            Err(e) => Err(e@),
        }) == normalized_path(path@),
{
    let pieces = split_on(path, '/');
    if list_contains(&pieces, "..") {
        return Err(RepoOpsError::InvalidNaming(path.to_owned()));
    }
    resolve_relative_path(path)
}

/// Whether a name leads down: it is neither empty, nor the current or the parent
/// directory, nor does it hold a separator.
pub open spec fn leads_down(name: Seq<char>) -> bool {
    name.len() > 0 && name != "."@ && name != ".."@ && !name.contains('/')
}

proof fn followed_leads_down(pieces: Seq<Seq<char>>, i: int, names: Seq<Seq<char>>)
    requires
        0 <= i,
        forall|k: int| 0 <= k < names.len() ==> leads_down(#[trigger] names[k]),
        forall|k: int| 0 <= k < pieces.len() ==> !(#[trigger] pieces[k]).contains('/'),
    ensures
        followed(pieces, i, names) matches Some(r) ==> forall|k: int|
            0 <= k < r.len() ==> leads_down(#[trigger] r[k]),
    decreases pieces.len() - i,
{
    if i < pieces.len() {
        if pieces[i].len() == 0 || pieces[i] == "."@ {
            followed_leads_down(pieces, i + 1, names);
        } else if pieces[i] == ".."@ {
            if names.len() > 0 {
                followed_leads_down(pieces, i + 1, names.drop_last());
            }
        } else {
            followed_leads_down(pieces, i + 1, names.push(pieces[i]));
        }
    }
}

proof fn names_are_followed(names: Seq<Seq<char>>, i: int)
    requires
        0 <= i <= names.len(),
        forall|k: int| 0 <= k < names.len() ==> leads_down(#[trigger] names[k]),
    ensures
        followed(names, i, names.subrange(0, i)) == Some(names),
    decreases names.len() - i,
{
    if i < names.len() {
        assert(leads_down(names[i]));
        assert(names.subrange(0, i).push(names[i]) =~= names.subrange(0, i + 1));
        names_are_followed(names, i + 1);
    } else {
        assert(names.subrange(0, i) =~= names);
    }
}

proof fn joined_names_are_relative(names: Seq<Seq<char>>)
    requires
        names.len() > 0,
        forall|k: int| 0 <= k < names.len() ==> leads_down(#[trigger] names[k]),
    ensures
        join(names, "/"@).len() > 0,
        join(names, "/"@)[0] == names[0][0],
        !is_absolute(join(names, "/"@)),
    decreases names.len(),
{
    reveal_strlit("/");
    assert(leads_down(names[0]));
    let s = join(names, "/"@);
    if names.len() > 1 {
        let first = names.drop_last();
        assert forall|k: int| 0 <= k < first.len() implies leads_down(#[trigger] first[k]) by {
            assert(first[k] == names[k]);
        }
        joined_names_are_relative(first);
        assert(first[0] == names[0]);
    }
    assert(names[0].contains(names[0][0]));
    if is_absolute(s) {
        assert(s.subrange(0, 1)[0] == '/');
    }
}

/// What a relative path leads to is made of names that lead down, so that nothing that it is
/// joined to is ever left.
pub proof fn relative_names_lead_down(path: Seq<char>)
    ensures
        relative_names(path) matches Some(names) ==> {
            &&& names.len() > 0
            &&& forall|k: int| 0 <= k < names.len() ==> leads_down(#[trigger] names[k])
        },
{
    pieces_are_free(path, 0, '/');
    followed_leads_down(split(path, '/'), 0, Seq::empty());
}

/// What a relative path leads to is, once written plainly, made of names that lead down, is
/// accepted as it is, and lies below every root that it is joined to.
pub proof fn resolved_path_is_final(path: Seq<char>)
    ensures
        resolved_path(path) matches Ok(q) ==> {
            &&& relative_names(path) == Some(split(q, '/'))
            &&& split(q, '/').len() > 0
            &&& forall|k: int|
                0 <= k < split(q, '/').len() ==> leads_down(#[trigger] split(q, '/')[k])
            &&& normalized_path(q) == Ok::<Seq<char>, RepoOpsErrorView>(q)
            &&& forall|root: Seq<char>| #[trigger] goes_down_from(joined(root, q), root)
        },
{
    if let Ok(q) = resolved_path(path) {
        let names = relative_names(path)->0;
        relative_names_lead_down(path);
        reveal_strlit("/");
        assert("/"@ =~= seq!['/']);
        assert forall|k: int| 0 <= k < names.len() implies !(#[trigger] names[k]).contains('/') by {
            assert(leads_down(names[k]));
        }
        split_undoes_join(names, '/');
        names_are_followed(names, 0);
        assert(names.subrange(0, 0) =~= Seq::empty());
        joined_names_are_relative(names);
        assert forall|k: int| 0 <= k < split(q, '/').len() implies #[trigger] split(q, '/')[k]
            != ".."@ by {
            assert(leads_down(names[k]));
        }
        assert forall|root: Seq<char>| #[trigger] goes_down_from(joined(root, q), root) by {
            joined_stays_below(root, q);
        }
    }
}

/// A path that is accepted never was the parent directory at any piece; written plainly, it
/// is made of names that lead down, is accepted again as it is, and lies below every root
/// that it is joined to.
pub proof fn normal_path_is_final(path: Seq<char>)
    ensures
        normalized_path(path) matches Ok(q) ==> {
            &&& forall|k: int|
                0 <= k < split(path, '/').len() ==> #[trigger] split(path, '/')[k] != ".."@
            &&& forall|k: int|
                0 <= k < split(q, '/').len() ==> leads_down(#[trigger] split(q, '/')[k])
            &&& normalized_path(q) == Ok::<Seq<char>, RepoOpsErrorView>(q)
            &&& forall|root: Seq<char>| #[trigger] goes_down_from(joined(root, q), root)
        },
{
    resolved_path_is_final(path);
    if normalized_path(path) is Ok {
        assert forall|k: int| 0 <= k < split(path, '/').len() implies #[trigger] split(path, '/')[k]
            != ".."@ by {
            if split(path, '/')[k] == ".."@ {
                assert(split(path, '/').contains(".."@));
            }
        }
    }
}

impl ToJson for GitCommand {
    open spec fn document(v: GitCommandView) -> JsonView {
        JsonView::Obj(seq![("argv"@, str_array(v.argv)), ("cwd"@, JsonView::Str(v.cwd))])
    }

    fn to_json(&self) -> (r: Json) {
        let r = json_object(
            vec![
                ("argv".to_owned(), json_strs(&self.argv)),
                ("cwd".to_owned(), json_str(self.cwd.as_str())),
            ],
        );
        assert(r@->Obj_0 =~= Self::document(self@)->Obj_0);
        r
    }
}

/// What the hash of a plan is taken of.
pub open spec fn plan_document(action: Seq<char>, commands: Seq<GitCommandView>) -> JsonView {
    JsonView::Obj(
        seq![("action"@, JsonView::Str(action)), ("commands"@, documents::<GitCommand>(commands))],
    )
}

/// The hash of a plan: of what it does, and of nothing else.
pub fn hash_plan(action: &str, commands: &Vec<GitCommand>) -> (r: String)
    ensures
        r@ == json_digest(plan_document(action@, commands.deep_view())),
{
    let payload = json_object(
        vec![
            ("action".to_owned(), json_str(action)),
            ("commands".to_owned(), json_list(commands)),
        ],
    );
    assert(payload@->Obj_0 =~= plan_document(action@, commands.deep_view())->Obj_0);
    sha256_json(&payload)
}

/// A plan with its hash.
pub open spec fn plan_of(
    action: Seq<char>,
    commands: Seq<GitCommandView>,
    notes: Seq<Seq<char>>,
) -> RepoOpPlanView {
    RepoOpPlanView {
        action,
        action_hash: json_digest(plan_document(action, commands)),
        commands,
        notes,
    }
}

fn make_plan(action: &str, commands: Vec<GitCommand>, notes: Vec<String>) -> (r: RepoOpPlan)
    ensures
        r@ == plan_of(action@, commands.deep_view(), notes.deep_view()),
{
    let action_hash = hash_plan(action, &commands);
    RepoOpPlan { action: action.to_owned(), action_hash, commands, notes }
}

/// What a worktree is asked for with. The root has been made canonical.
pub struct WorktreeEnsureArgs<'a> {
    pub repo_root: &'a str,
    pub worktree_root: &'a str,
    pub naming: &'a str,
    pub branch_name: &'a str,
    pub base_branch: &'a str,
}

/// The notes of a plan for a worktree.
pub open spec fn worktree_notes(target: Seq<char>) -> Seq<Seq<char>> {
    seq![
        "Target worktree path: "@ + target,
        "Note: creating a worktree does not automatically move the current Codex session. Restart the session in the new worktree if needed."@,
    ]
}

/// The plan for a worktree, with its path.
pub open spec fn worktree_plan(
    repo_root: Seq<char>,
    worktree_root: Seq<char>,
    naming: Seq<char>,
    branch_name: Seq<char>,
    base_branch: Seq<char>,
) -> Result<(Seq<char>, RepoOpPlanView), RepoOpsErrorView> {
    match normalized_path(naming) {
        Err(e) => Err(e),
        Ok(rel) => {
            let target = joined(worktree_root, rel);
            if !is_under(target, worktree_root) {
                Err(RepoOpsErrorView::WorktreeEscapesRoot)
            } else {
                let command = GitCommandView {
                    cwd: repo_root,
                    argv: seq![
                        "git"@,
                        "worktree"@,
                        "add"@,
                        target,
                        "-b"@,
                        branch_name,
                        base_branch,
                    ],
                };
                Ok(
                    (
                        target,
                        plan_of("ensure_worktree"@, seq![command], worktree_notes(target)),
                    ),
                )
            }
        },
    }
}

/// The plan that makes sure of a worktree, with its path.
pub fn ensure_worktree_plan(args: WorktreeEnsureArgs<'_>) -> (r: Result<
    (String, RepoOpPlan),
    RepoOpsError,
>)
    ensures
        (match r {
            Ok((t, p)) => Ok((t@, p@)),
            Err(e) => Err(e@),
        }) == worktree_plan(
            args.repo_root@,
            args.worktree_root@,
            args.naming@,
            args.branch_name@,
            args.base_branch@,
        ),
{
    let rel = normalize_relative_path(args.naming)?;
    let target = join_path(args.worktree_root, rel.as_str());
    if !path_is_under(target.as_str(), args.worktree_root) {
        return Err(RepoOpsError::WorktreeEscapesRoot);
    }
    let argv = vec![
        "git".to_owned(),
        "worktree".to_owned(),
        "add".to_owned(),
        target.clone(),
        "-b".to_owned(),
        args.branch_name.to_owned(),
        args.base_branch.to_owned(),
    ];
    let notes = vec![
        cat2("Target worktree path: ", target.as_str()),
        "Note: creating a worktree does not automatically move the current Codex session. Restart the session in the new worktree if needed.".to_owned(),
    ];
    assert(argv.deep_view() =~= seq![
        "git"@,
        "worktree"@,
        "add"@,
        target@,
        "-b"@,
        args.branch_name@,
        args.base_branch@,
    ]);
    assert(notes.deep_view() =~= worktree_notes(target@));
    let command = GitCommand { cwd: args.repo_root.to_owned(), argv };
    let commands = vec![command];
    assert(commands.deep_view() =~= seq![command@]);
    let plan = make_plan("ensure_worktree", commands, notes);
    Ok((target, plan))
}

/// What a branch is asked for with.
pub struct BranchEnsureArgs<'a> {
    pub repo_root: &'a str,
    pub base_branch: &'a str,
    pub branch_name: &'a str,
    pub protected_branches: &'a Vec<String>,
}

/// The plan for a branch; a protected one is refused.
pub open spec fn branch_plan(
    repo_root: Seq<char>,
    base_branch: Seq<char>,
    branch_name: Seq<char>,
    protected: Seq<Seq<char>>,
) -> Result<RepoOpPlanView, RepoOpsErrorView> {
    if protected.contains(branch_name) {
        Err(
            RepoOpsErrorView::GitFailed(
                "refusing to create/switch to protected branch: "@ + branch_name,
            ),
        )
    } else {
        Ok(
            plan_of(
                "ensure_branch"@,
                seq![
                    GitCommandView {
                        cwd: repo_root,
                        argv: seq!["git"@, "fetch"@, "--all"@, "--prune"@],
                    },
                    GitCommandView {
                        cwd: repo_root,
                        argv: seq!["git"@, "checkout"@, "-B"@, branch_name, base_branch],
                    },
                ],
                Seq::empty(),
            ),
        )
    }
}

/// The plan that makes sure of a branch.
pub fn ensure_branch_plan(args: BranchEnsureArgs<'_>) -> (r: Result<RepoOpPlan, RepoOpsError>)
    ensures
        (match r {
            Ok(p) => Ok(p@),
            Err(e) => Err(e@),
        }) == branch_plan(
            args.repo_root@,
            args.base_branch@,
            args.branch_name@,
            args.protected_branches.deep_view(),
        ),
{
    if list_contains(args.protected_branches, args.branch_name) {
        return Err(
            RepoOpsError::GitFailed(
                cat2("refusing to create/switch to protected branch: ", args.branch_name),
            ),
        );
    }
    let fetch = vec![
        "git".to_owned(),
        "fetch".to_owned(),
        "--all".to_owned(),
        "--prune".to_owned(),
    ];
    let checkout = vec![
        "git".to_owned(),
        "checkout".to_owned(),
        "-B".to_owned(),
        args.branch_name.to_owned(),
        args.base_branch.to_owned(),
    ];
    assert(fetch.deep_view() =~= seq!["git"@, "fetch"@, "--all"@, "--prune"@]);
    assert(checkout.deep_view() =~= seq![
        "git"@,
        "checkout"@,
        "-B"@,
        args.branch_name@,
        args.base_branch@,
    ]);
    let first = GitCommand { cwd: args.repo_root.to_owned(), argv: fetch };
    let second = GitCommand { cwd: args.repo_root.to_owned(), argv: checkout };
    let commands = vec![first, second];
    assert(commands.deep_view() =~= seq![first@, second@]);
    let notes: Vec<String> = Vec::new();
    assert(notes.deep_view() =~= Seq::empty());
    Ok(make_plan("ensure_branch", commands, notes))
}

/// A path below a root: an absolute one as it is, what a relative one leads to joined to the
/// root.
pub open spec fn below_root(root: Seq<char>, path: Seq<char>) -> Result<
    Seq<char>,
    RepoOpsErrorView,
> {
    if is_absolute(path) {
        Ok(path)
    } else {
        match resolved_path(path) {
            Err(e) => Err(e),
            Ok(rel) => Ok(joined(root, rel)),
        }
    }
}

fn path_absolutize_under_root(root: &str, path: &str) -> (r: Result<String, RepoOpsError>)
    ensures
        (match r {
            Ok(p) => Ok(p@),
            Err(e) => Err(e@),
        }) == below_root(root@, path@),
{
    if starts_with(path, "/") {
        return Ok(path.to_owned());
    }
    let rel = resolve_relative_path(path)?;
    Ok(join_path(root, rel.as_str()))
}

/// The plan that removes a worktree: only what lies below the root, and does not lead back
/// out of it, is removed.
pub open spec fn removal_plan(
    repo_root: Seq<char>,
    worktree_root: Seq<char>,
    path: Seq<char>,
    force: bool,
) -> Result<RepoOpPlanView, RepoOpsErrorView> {
    match below_root(worktree_root, path) {
        Err(e) => Err(e),
        Ok(target) => if !stays_below(target, worktree_root) {
            Err(RepoOpsErrorView::WorktreeEscapesRoot)
        } else {
            let argv = seq!["git"@, "worktree"@, "remove"@, target];
            Ok(
                plan_of(
                    "remove_worktree"@,
                    seq![
                        GitCommandView {
                            cwd: repo_root,
                            argv: if force {
                                argv.push("--force"@)
                            } else {
                                argv
                            },
                        },
                    ],
                    seq!["Target worktree path: "@ + target],
                ),
            )
        },
    }
}

/// The plan that removes a worktree. The root has been made canonical.
pub fn remove_worktree_plan(
    repo_root: &str,
    worktree_root: &str,
    path: &str,
    force: bool,
) -> (r: Result<RepoOpPlan, RepoOpsError>)
    ensures
        (match r {
            Ok(p) => Ok(p@),
            Err(e) => Err(e@),
        }) == removal_plan(repo_root@, worktree_root@, path@, force),
{
    let target = path_absolutize_under_root(worktree_root, path)?;
    if !path_stays_below(target.as_str(), worktree_root) {
        return Err(RepoOpsError::WorktreeEscapesRoot);
    }
    let mut argv = vec![
        "git".to_owned(),
        "worktree".to_owned(),
        "remove".to_owned(),
        target.clone(),
    ];
    let ghost plain = seq!["git"@, "worktree"@, "remove"@, target@];
    assert(argv.deep_view() =~= plain);
    if force {
        argv.push("--force".to_owned());
        assert(argv.deep_view() =~= plain.push("--force"@));
    }
    let command = GitCommand { cwd: repo_root.to_owned(), argv };
    let commands = vec![command];
    assert(commands.deep_view() =~= seq![command@]);
    let notes = vec![cat2("Target worktree path: ", target.as_str())];
    assert(notes.deep_view() =~= seq!["Target worktree path: "@ + target@]);
    Ok(make_plan("remove_worktree", commands, notes))
}

/// What git answers inside a work tree.
pub open spec fn answers_yes(success: bool, stdout: Seq<char>) -> bool {
    success && crate::text::trim(stdout) == "true"@
}

/// Whether git's answer says that a directory is in a work tree.
pub fn check_git_repo(repo_root: &str, success: bool, stdout: &str) -> (r: Result<
    (),
    RepoOpsError,
>)
    ensures
        r is Ok <==> answers_yes(success, stdout@),
        r is Err ==> r->Err_0@ == RepoOpsErrorView::NotAGitRepo(repo_root@),
{
    if !success {
        return Err(RepoOpsError::NotAGitRepo(repo_root.to_owned()));
    }
    let t = crate::text::trim_string(stdout);
    if !str_eq(t.as_str(), "true") {
        return Err(RepoOpsError::NotAGitRepo(repo_root.to_owned()));
    }
    Ok(())
}

/// An exit code as it is shown: of a command that was ended by a signal there is none.
pub open spec fn exit_text(code: Option<i32>) -> Seq<char> {
    match code {
        None => "None"@,
        Some(n) => if n < 0 {
            "Some(-"@ + decimal((-n) as nat) + ")"@
        } else {
            "Some("@ + decimal(n as nat) + ")"@
        },
    }
}

pub fn exit_string(code: Option<i32>) -> (r: String)
    ensures
        r@ == exit_text(code),
{
    match code {
        None => "None".to_owned(),
        Some(n) => {
            if n < 0 {
                let d = decimal_string((-(n as i64)) as u64);
                cat3("Some(-", d.as_str(), ")")
            } else {
                let d = decimal_string(n as u64);
                cat3("Some(", d.as_str(), ")")
            }
        },
    }
}

/// The error for a command that did not succeed.
pub fn failed_command(argv: &Vec<String>, code: Option<i32>) -> (r: RepoOpsError)
    ensures
        r@ == command_failed(argv.deep_view(), code),
{
    let line = join_strings(argv, " ");
    let shown = exit_string(code);
    RepoOpsError::GitFailed(cat4(line.as_str(), " (exit ", shown.as_str(), ")"))
}

/// Plans that do the same have the same hash, so an approval of one holds for the other.
pub proof fn plan_hash_is_stable(
    action: Seq<char>,
    commands: Seq<GitCommandView>,
    notes_a: Seq<Seq<char>>,
    notes_b: Seq<Seq<char>>,
)
    ensures
        plan_of(action, commands, notes_a).action_hash == plan_of(
            action,
            commands,
            notes_b,
        ).action_hash,
{
}

/// A worktree that is planned, or planned to be removed, lies below its root and does not
/// lead back out of it. The path of a worktree that is planned does not even lead up: where
/// the root does not hold the parent directory, neither does the path.
pub proof fn planned_worktree_is_under_its_root(
    repo_root: Seq<char>,
    worktree_root: Seq<char>,
    path: Seq<char>,
    branch_name: Seq<char>,
    base_branch: Seq<char>,
    force: bool,
)
    ensures
        worktree_plan(repo_root, worktree_root, path, branch_name, base_branch) matches Ok(
            (target, plan),
        ) ==> {
            &&& plan.commands.len() == 1
            &&& plan.commands[0].argv[3] == target
            &&& stays_below(target, worktree_root)
            &&& !components(worktree_root).contains(".."@) ==> !components(target).contains(".."@)
        },
        removal_plan(repo_root, worktree_root, path, force) matches Ok(plan) ==> {
            &&& plan.commands.len() == 1
            &&& stays_below(plan.commands[0].argv[3], worktree_root)
        },
{
    normal_path_is_final(path);
    if let Ok((target, plan)) = worktree_plan(
        repo_root,
        worktree_root,
        path,
        branch_name,
        base_branch,
    ) {
        assert(goes_down_from(joined(worktree_root, normalized_path(path)->Ok_0), worktree_root));
        down_stays_below(target, worktree_root);
        below_without_parents(target, worktree_root);
    }
}

/// A worktree is planned to be removed wherever its path leads below the root: a relative one
/// that never leads out of where it starts, an absolute one that is written below the root
/// and does not lead back out of it.
pub proof fn path_below_the_root_is_removed(
    repo_root: Seq<char>,
    worktree_root: Seq<char>,
    path: Seq<char>,
    force: bool,
)
    ensures
        removal_plan(repo_root, worktree_root, path, force) is Ok <==> if is_absolute(path) {
            stays_below(path, worktree_root)
        } else {
            relative_names(path) is Some
        },
{
    resolved_path_is_final(path);
    if let Ok(q) = resolved_path(path) {
        assert(goes_down_from(joined(worktree_root, q), worktree_root));
        down_stays_below(joined(worktree_root, q), worktree_root);
    }
}

proof fn below_without_parents(target: Seq<char>, root: Seq<char>)
    requires
        goes_down_from(target, root),
    ensures
        !components(root).contains(".."@) ==> !components(target).contains(".."@),
{
    let c = components(target);
    if !components(root).contains(".."@) && c.contains(".."@) {
        let k = choose|k: int| 0 <= k < c.len() && c[k] == ".."@;
        if k < components(root).len() {
            assert(c.subrange(0, components(root).len() as int)[k] == c[k]);
            assert(components(root)[k] == ".."@);
        }
    }
}

/// A worktree is planned wherever its naming path is accepted: no root refuses it.
pub proof fn accepted_naming_is_planned(
    repo_root: Seq<char>,
    worktree_root: Seq<char>,
    naming: Seq<char>,
    branch_name: Seq<char>,
    base_branch: Seq<char>,
)
    ensures
        worktree_plan(repo_root, worktree_root, naming, branch_name, base_branch) is Ok
            <==> normalized_path(naming) is Ok,
{
    normal_path_is_final(naming);
    if let Ok(q) = normalized_path(naming) {
        assert(goes_down_from(joined(worktree_root, q), worktree_root));
    }
}

/// How a command ended.
#[derive(Debug, Clone, Copy, PartialEq, Eq)]
pub struct CommandEnd {
    pub success: bool,
    pub code: Option<i32>,
}

/// What comes next in carrying out a plan.
#[derive(Debug, PartialEq, Eq)]
pub enum PlanStep {
    /// A command is to be run.
    Run {
        cwd: String,
        program: String,
        args: Vec<String>,
    },
    /// The plan is carried out.
    Finished,
    /// The plan cannot be carried out.
    Failed(RepoOpsError),
}

/// What a [`PlanStep`] stands for.
#[verifier::ext_equal]
pub enum PlanStepView {
    Run {
        cwd: Seq<char>,
        program: Seq<char>,
        args: Seq<Seq<char>>,
    },
    Finished,
    Failed(RepoOpsErrorView),
}

impl View for PlanStep {
    type V = PlanStepView;

    open spec fn view(&self) -> PlanStepView {
        match self {
            PlanStep::Run { cwd, program, args } => PlanStepView::Run {
                cwd: cwd@,
                program: program@,
                args: args.deep_view(),
            },
            PlanStep::Finished => PlanStepView::Finished,
            PlanStep::Failed(e) => PlanStepView::Failed(e@),
        }
    }
}

/// The error for a command that did not succeed.
pub open spec fn command_failed(argv: Seq<Seq<char>>, code: Option<i32>) -> RepoOpsErrorView {
    RepoOpsErrorView::GitFailed(join(argv, " "@) + " (exit "@ + exit_text(code) + ")"@)
}

/// What comes after the first `done` commands of a plan, the last of which ended as `last`
/// says: the commands are run in order, and the first that fails ends the plan.
pub open spec fn plan_step(
    commands: Seq<GitCommandView>,
    done: nat,
    last: Option<CommandEnd>,
) -> PlanStepView {
    if 0 < done <= commands.len() && last is Some && !last->0.success {
        PlanStepView::Failed(command_failed(commands[done - 1].argv, last->0.code))
    } else if done >= commands.len() {
        PlanStepView::Finished
    } else if commands[done as int].argv.len() == 0 {
        PlanStepView::Failed(RepoOpsErrorView::GitFailed("empty argv"@))
    } else {
        let c = commands[done as int];
        PlanStepView::Run { cwd: c.cwd, program: c.argv[0], args: c.argv.drop_first() }
    }
}

/// What comes after the first `done` commands of a plan.
pub fn next_plan_step(plan: &RepoOpPlan, done: usize, last: Option<CommandEnd>) -> (r: PlanStep)
    ensures
        r@ == plan_step(plan@.commands, done as nat, last),
{
    let ghost all = plan.commands.deep_view();
    assert(all.len() == plan.commands@.len());
    if done > 0 && done <= plan.commands.len() {
        if let Some(end) = last {
            if !end.success {
                assert(all[done - 1] == plan.commands@[done - 1]@);
                return PlanStep::Failed(failed_command(&plan.commands[done - 1].argv, end.code));
            }
        }
    }
    if done >= plan.commands.len() {
        return PlanStep::Finished;
    }
    let c = &plan.commands[done];
    assert(all[done as int] == c@);
    assert(c.argv.deep_view().len() == c.argv@.len());
    if c.argv.len() == 0 {
        return PlanStep::Failed(RepoOpsError::GitFailed("empty argv".to_owned()));
    }
    let ghost words = c.argv.deep_view();
    let mut args: Vec<String> = Vec::new();
    let mut i: usize = 1;
    while i < c.argv.len()
        invariant
            1 <= i <= c.argv@.len(),
            words == c.argv.deep_view(),
            words.len() == c.argv@.len(),
            args@.len() == i - 1,
            forall|k: int| 0 <= k < i - 1 ==> (#[trigger] args@[k])@ == words[k + 1],
        decreases c.argv.len() - i,
    {
        assert(words[i as int] == c.argv@[i as int]@);
        args.push(c.argv[i].clone());
        i = i + 1;
    }
    assert(args.deep_view() =~= words.drop_first());
    PlanStep::Run { cwd: c.cwd.clone(), program: c.argv[0].clone(), args }
}

/// A plan is carried out only where each of its commands was run and the last one
/// succeeded; after a command that failed nothing more is run.
pub proof fn failure_ends_a_plan(
    commands: Seq<GitCommandView>,
    done: nat,
    last: Option<CommandEnd>,
)
    requires
        done <= commands.len(),
        last is Some <==> done > 0,
    ensures
        plan_step(commands, done, last) is Finished <==> done == commands.len() && (last matches Some(
            end,
        ) ==> end.success),
        last matches Some(end) && !end.success ==> plan_step(commands, done, last) is Failed,
        plan_step(commands, done, last) is Run ==> done < commands.len() && (last matches Some(end)
            ==> end.success),
{
}

/// The text of an error.
pub open spec fn repo_error_text(e: RepoOpsErrorView) -> Seq<char> {
    match e {
        RepoOpsErrorView::NotAGitRepo(m) => "not a git repository: "@ + m,
        RepoOpsErrorView::InvalidNaming(m) => "invalid naming path (must be relative, no ..): "@ + m,
        RepoOpsErrorView::WorktreeEscapesRoot => "target path escapes worktree root"@,
        RepoOpsErrorView::GitFailed(m) => "git command failed: "@ + m,
    }
}

impl RepoOpsError {
    /// The error in words.
    pub fn message(&self) -> (r: String)
        ensures
            r@ == repo_error_text(self@),
    {
        match self {
            RepoOpsError::NotAGitRepo(m) => cat2("not a git repository: ", m.as_str()),
            RepoOpsError::InvalidNaming(m) => cat2("invalid naming path (must be relative, no ..): ", m.as_str()),
            RepoOpsError::WorktreeEscapesRoot => "target path escapes worktree root".to_owned(),
            RepoOpsError::GitFailed(m) => cat2("git command failed: ", m.as_str()),
        }
    }
}

} // verus!
