//! What holds of every plan for a repository or an update.

use std::cmp::Ordering;
use vstd::prelude::*;
use crate::attach::laws::{decimal_is_read_back, digits_are_digits};
use crate::digest::json_digest;
use crate::paths::{is_absolute, joined};
use crate::profiles::payload::{documents, str_arrays_differ, ToJson};
use crate::repo_ops::{
    answers_yes, branch_plan, command_failed, followed, plan_document, plan_step, removal_plan,
    relative_names, worktree_plan, CommandEnd, GitCommand, GitCommandView, PlanStepView,
};
use crate::text::{
    decimal, is_white, join, next_char, next_char_behind, next_char_bounds, next_char_in, split,
    split_between, trim, trim_end, trim_start,
};
use crate::updater::{
    update_check, update_document, update_plan, version_core, version_of, version_order, without_v,
    UpdateCheckRequestView, Version,
};

verus! {

/// Whether a command is run in a directory with the given words.
pub open spec fn runs_in(c: GitCommandView, cwd: Seq<char>, words: Seq<Seq<char>>) -> bool {
    c.cwd == cwd && c.argv == words
}

/// A pathname is followed piece by piece: the last piece takes the last name away where it is the
/// parent directory, does nothing where it is empty or the current one, and else adds a name.
pub proof fn pieces_are_followed_in_order(
    pieces: Seq<Seq<char>>,
    x: Seq<char>,
    i: int,
    names: Seq<Seq<char>>,
)
    requires
        0 <= i <= pieces.len(),
    ensures
        ({
            let before = followed(pieces, i, names);
            let after = followed(pieces.push(x), i, names);
            &&& before is None ==> after is None
            &&& before is Some && x == ".."@ ==> after == (if before->0.len() == 0 {
                None
            } else {
                Some(before->0.drop_last())
            })
            &&& before is Some && (x == "."@ || x.len() == 0) ==> after == before
            &&& before is Some && x != ".."@ && x != "."@ && x.len() > 0 ==> after == Some(
                before->0.push(x),
            )
        }),
    decreases pieces.len() - i,
{
    reveal_strlit(".");
    reveal_strlit("..");
    let more = pieces.push(x);
    if i < pieces.len() {
        assert(more[i] == pieces[i]);
        if pieces[i].len() == 0 || pieces[i] == "."@ {
            pieces_are_followed_in_order(pieces, x, i + 1, names);
        } else if pieces[i] == ".."@ {
            if names.len() > 0 {
                pieces_are_followed_in_order(pieces, x, i + 1, names.drop_last());
            }
        } else {
            pieces_are_followed_in_order(pieces, x, i + 1, names.push(pieces[i]));
        }
    } else {
        assert(more[i] == x);
        assert(followed(more, i + 1, names) == Some(names));
        assert(followed(more, i + 1, names.push(x)) == Some(names.push(x)));
        if names.len() > 0 {
            assert(followed(more, i + 1, names.drop_last()) == Some(names.drop_last()));
        }
    }
}

/// A worktree is added below its root, at what its naming path leads to, for a new branch from
/// the base, by one command at the root of the repository. The path that is returned is the one
/// of the command.
pub proof fn worktree_is_added_as_asked(
    repo_root: Seq<char>,
    worktree_root: Seq<char>,
    naming: Seq<char>,
    branch_name: Seq<char>,
    base_branch: Seq<char>,
)
    ensures
        worktree_plan(repo_root, worktree_root, naming, branch_name, base_branch) matches Ok(
            (target, plan),
        ) ==> {
            &&& relative_names(naming) is Some
            &&& target == joined(worktree_root, join(relative_names(naming)->0, "/"@))
            &&& plan.action == "ensure_worktree"@
            &&& plan.commands.len() == 1
            &&& runs_in(
                plan.commands[0],
                repo_root,
                seq!["git"@, "worktree"@, "add"@, target, "-b"@, branch_name, base_branch],
            )
            &&& plan.action_hash == json_digest(plan_document(plan.action, plan.commands))
        },
        split(naming, '/').contains(".."@) || is_absolute(naming) ==> worktree_plan(
            repo_root,
            worktree_root,
            naming,
            branch_name,
            base_branch,
        ) is Err,
{
}

/// A branch that is not protected is set to the base, after everything is fetched; a protected
/// one is refused.
pub proof fn branch_is_set_as_asked(
    repo_root: Seq<char>,
    base_branch: Seq<char>,
    branch_name: Seq<char>,
    protected: Seq<Seq<char>>,
)
    ensures
        ({
            let r = branch_plan(repo_root, base_branch, branch_name, protected);
            &&& r is Err <==> exists|i: int|
                0 <= i < protected.len() && #[trigger] protected[i] == branch_name
            &&& r is Ok ==> {
                let plan = r->Ok_0;
                &&& plan.action == "ensure_branch"@
                &&& plan.commands.len() == 2
                &&& runs_in(
                    plan.commands[0],
                    repo_root,
                    seq!["git"@, "fetch"@, "--all"@, "--prune"@],
                )
                &&& runs_in(
                    plan.commands[1],
                    repo_root,
                    seq!["git"@, "checkout"@, "-B"@, branch_name, base_branch],
                )
                &&& plan.action_hash == json_digest(plan_document(plan.action, plan.commands))
            }
        }),
{
}

/// A worktree is removed at its path, or at what a relative one leads to below the root, by one
/// command at the root of the repository; by force exactly where that is asked for.
pub proof fn worktree_is_removed_as_asked(
    repo_root: Seq<char>,
    worktree_root: Seq<char>,
    path: Seq<char>,
    force: bool,
)
    ensures
        removal_plan(repo_root, worktree_root, path, force) matches Ok(plan) ==> {
            let target = if is_absolute(path) {
                path
            } else {
                joined(worktree_root, join(relative_names(path)->0, "/"@))
            };
            let words = seq!["git"@, "worktree"@, "remove"@, target];
            &&& plan.action == "remove_worktree"@
            &&& plan.commands.len() == 1
            &&& force ==> runs_in(plan.commands[0], repo_root, words + seq!["--force"@])
            &&& !force ==> runs_in(plan.commands[0], repo_root, words)
            &&& plan.action_hash == json_digest(plan_document(plan.action, plan.commands))
        },
{
    let target = if is_absolute(path) {
        path
    } else {
        joined(worktree_root, join(relative_names(path)->0, "/"@))
    };
    let words = seq!["git"@, "worktree"@, "remove"@, target];
    assert(words.push("--force"@) =~= words + seq!["--force"@]);
}

/// Plans that do different things are told apart by what their hashes are taken of.
pub proof fn different_plans_have_different_documents(
    action: Seq<char>,
    other_action: Seq<char>,
    commands: Seq<GitCommandView>,
    other_commands: Seq<GitCommandView>,
)
    requires
        plan_document(action, commands) == plan_document(other_action, other_commands),
    ensures
        action == other_action,
        commands == other_commands,
{
    let x = plan_document(action, commands)->Obj_0;
    let y = plan_document(other_action, other_commands)->Obj_0;
    assert(x[0] == y[0]);
    assert(x[1] == y[1]);
    let a = documents::<GitCommand>(commands)->Arr_0;
    let b = documents::<GitCommand>(other_commands)->Arr_0;
    assert(a.len() == commands.len() && b.len() == other_commands.len());
    assert forall|i: int| 0 <= i < commands.len() implies commands[i] == other_commands[i] by {
        assert(a[i] == GitCommand::document(commands[i]));
        assert(b[i] == GitCommand::document(other_commands[i]));
        let m = a[i]->Obj_0;
        let n = b[i]->Obj_0;
        assert(m[0] == n[0]);
        assert(m[1] == n[1]);
        str_arrays_differ(commands[i].argv, other_commands[i].argv);
    }
    assert(commands =~= other_commands);
}

/// The commands of a plan are run as they are, in their order: the program is the first word and
/// the arguments are the others. The command that failed is the one that is told.
pub proof fn plans_are_carried_out_in_order(
    commands: Seq<GitCommandView>,
    done: nat,
    last: Option<CommandEnd>,
)
    ensures
        done < commands.len() && (last is None || last->0.success) && commands[done as int].argv.len()
            > 0 ==> {
            &&& plan_step(commands, done, last) matches PlanStepView::Run { cwd, program, args }
            &&& cwd == commands[done as int].cwd
            &&& seq![program] + args == commands[done as int].argv
        },
        0 < done <= commands.len() && last is Some && !last->0.success ==> plan_step(
            commands,
            done,
            last,
        ) == PlanStepView::Failed(command_failed(commands[done - 1].argv, last->0.code)),
{
    if done < commands.len() && commands[done as int].argv.len() > 0 {
        let argv = commands[done as int].argv;
        assert(seq![argv[0]] + argv.drop_first() =~= argv);
    }
}

/// Three numbers with dots between them.
pub open spec fn dotted_version(a: u64, b: u64, c: u64) -> Seq<char> {
    decimal(a as nat).push('.') + (decimal(b as nat).push('.') + decimal(c as nat))
}

proof fn free_of(s: Seq<char>, c: char)
    requires
        !s.contains(c),
    ensures
        next_char(s, 0, c) == s.len(),
        split(s, c) == seq![s],
{
    next_char_bounds(s, 0, c);
    assert(s.subrange(0, s.len() as int) =~= s);
}

proof fn not_white_at_the_ends(s: Seq<char>)
    requires
        s.len() > 0,
        !is_white(s[0]),
        !is_white(s.last()),
    ensures
        trim(s) == s,
{
    assert(trim_start(s) == s);
    assert(trim_end(s) == s);
}

proof fn core_is_free(a: u64, b: u64, c: u64)
    ensures
        !dotted_version(a, b, c).contains('-'),
{
    let x = decimal(a as nat);
    let y = decimal(b as nat);
    let z = decimal(c as nat);
    let core = dotted_version(a, b, c);
    digits_are_digits(a as nat);
    digits_are_digits(b as nat);
    digits_are_digits(c as nat);
    if core.contains('-') {
        let i = choose|i: int| 0 <= i < core.len() && core[i] == '-';
        if i < x.len() {
            assert(core[i] == x[i]);
        } else if i == x.len() {
            assert(core[i] == '.');
        } else if i < x.len() + 1 + y.len() {
            assert(core[i] == y[i - x.len() - 1]);
        } else if i == x.len() + 1 + y.len() {
            assert(core[i] == '.');
        } else {
            assert(core[i] == z[i - x.len() - y.len() - 2]);
        }
    }
}

proof fn core_is_split(a: u64, b: u64, c: u64)
    ensures
        split(dotted_version(a, b, c), '.') == seq![
            decimal(a as nat),
            decimal(b as nat),
            decimal(c as nat),
        ],
{
    let x = decimal(a as nat);
    let y = decimal(b as nat);
    let z = decimal(c as nat);
    decimal_is_read_back(a as nat, u64::MAX as nat);
    decimal_is_read_back(b as nat, u64::MAX as nat);
    decimal_is_read_back(c as nat, u64::MAX as nat);
    split_between(x, y.push('.') + z, '.');
    split_between(y, z, '.');
    free_of(x, '.');
    free_of(y, '.');
    free_of(z, '.');
    assert(split(dotted_version(a, b, c), '.') =~= seq![x, y, z]);
}

proof fn suffix_is_cut(core: Seq<char>, suffix: Seq<char>)
    requires
        !core.contains('-'),
        suffix.len() > 0 ==> suffix[0] == '-',
    ensures
        version_core(core + suffix) == core,
{
    free_of(core, '-');
    next_char_in(core, suffix, 0, '-');
    next_char_behind(core, suffix, 0, '-');
    assert((core + suffix).subrange(0, core.len() as int) =~= core);
}

proof fn lead_is_taken_off(a: u64, b: u64, c: u64, suffix: Seq<char>, lead: bool)
    requires
        suffix.len() > 0 ==> suffix[0] == '-' && !is_white(suffix.last()),
    ensures
        without_v(
            trim(
                (if lead {
                    "v"@
                } else {
                    ""@
                }) + (dotted_version(a, b, c) + suffix),
            ),
        ) == dotted_version(a, b, c) + suffix,
{
    reveal_strlit("v");
    reveal_strlit("");
    let x = decimal(a as nat);
    let z = decimal(c as nat);
    let bare = dotted_version(a, b, c) + suffix;
    let text = (if lead {
        "v"@
    } else {
        ""@
    }) + bare;
    digits_are_digits(a as nat);
    digits_are_digits(c as nat);
    assert(bare[0] == x[0]);
    assert(text[0] == 'v' || text[0] == x[0]);
    assert(text.last() == bare.last());
    assert(bare.last() == (if suffix.len() > 0 {
        suffix.last()
    } else {
        z.last()
    }));
    not_white_at_the_ends(text);
    assert(without_v(bare) == bare);
    if lead {
        assert(text.drop_first() =~= bare);
    } else {
        assert(text =~= bare);
    }
}

/// A version is read as its three numbers, with or without a `v` before it and a suffix behind
/// it.
pub proof fn versions_are_read_back(a: u64, b: u64, c: u64, suffix: Seq<char>, lead: bool)
    requires
        suffix.len() > 0 ==> suffix[0] == '-' && !is_white(suffix.last()),
    ensures
        version_of(
            (if lead {
                "v"@
            } else {
                ""@
            }) + (dotted_version(a, b, c) + suffix),
        ) == Ok::<Version, crate::updater::UpdateErrorView>((a, b, c)),
{
    lead_is_taken_off(a, b, c, suffix, lead);
    core_is_free(a, b, c);
    suffix_is_cut(dotted_version(a, b, c), suffix);
    core_is_split(a, b, c);
    decimal_is_read_back(a as nat, u64::MAX as nat);
    decimal_is_read_back(b as nat, u64::MAX as nat);
    decimal_is_read_back(c as nat, u64::MAX as nat);
}

/// An update is offered exactly where the latest version is above the current one by the first
/// number in which they differ; then not the other way round; and both are told as they are.
pub proof fn newer_versions_are_offered(
    current: Seq<char>,
    latest: Seq<char>,
    a: u64,
    b: u64,
    c: u64,
    d: u64,
    e: u64,
    f: u64,
    req: UpdateCheckRequestView,
)
    requires
        version_of(current) == Ok::<Version, crate::updater::UpdateErrorView>((a, b, c)),
        version_of(latest) == Ok::<Version, crate::updater::UpdateErrorView>((d, e, f)),
        req.current_version == current,
    ensures
        update_check(req, latest) is Ok,
        ({
            let r = update_check(req, latest)->Ok_0;
            &&& a < d ==> r.update_available
            &&& a == d && b < e ==> r.update_available
            &&& a == d && b == e ==> (r.update_available <==> c < f)
            &&& a > d ==> !r.update_available
            &&& a == d && b > e ==> !r.update_available
            &&& r.current_version == current
            &&& r.latest_version == latest
        }),
{
}

/// Versions compare by the first number in which they differ.
pub proof fn versions_compare_by_number(a: u64, b: u64, c: u64, d: u64, e: u64, f: u64)
    ensures
        a < d ==> version_order((a, b, c), (d, e, f)) == Ordering::Less,
        a > d ==> version_order((a, b, c), (d, e, f)) == Ordering::Greater,
        b < e ==> version_order((a, b, c), (a, e, f)) == Ordering::Less,
        b > e ==> version_order((a, b, c), (a, e, f)) == Ordering::Greater,
        c < f ==> version_order((a, b, c), (a, b, f)) == Ordering::Less,
        c > f ==> version_order((a, b, c), (a, b, f)) == Ordering::Greater,
        version_order((a, b, c), (a, b, c)) == Ordering::Equal,
{
}

/// An update is planned wherever both versions are read; it installs the target version of the
/// package; and plans of different updates are told apart by what their hashes are taken of.
pub proof fn update_is_planned_as_asked(
    package: Seq<char>,
    current: Seq<char>,
    target: Seq<char>,
    other_package: Seq<char>,
    other_current: Seq<char>,
    other_target: Seq<char>,
)
    ensures
        ({
            let r = update_plan(package, current, target);
            &&& r is Ok <==> version_of(current) is Ok && version_of(target) is Ok
            &&& r is Ok ==> {
                &&& r->Ok_0.package == package
                &&& r->Ok_0.current_version == current
                &&& r->Ok_0.target_version == target
                &&& r->Ok_0.command == seq!["npm"@, "install"@, "-g"@, package + "@"@ + target]
                &&& r->Ok_0.action_hash == json_digest(update_document(package, current, target))
            }
        }),
        update_document(package, current, target) == update_document(
            other_package,
            other_current,
            other_target,
        ) ==> package == other_package && current == other_current && target == other_target,
{
    let x = update_document(package, current, target)->Obj_0;
    let y = update_document(other_package, other_current, other_target)->Obj_0;
    if x == y {
        assert(x[2] == y[2]);
        assert(x[3] == y[3]);
        assert(x[4] == y[4]);
    }
}

/// Git says that a directory is in a work tree where it succeeds and says just `true`, whatever
/// the space around it.
pub proof fn work_trees_are_told(answer: Seq<char>, success: bool)
    ensures
        answers_yes(success, answer) ==> success,
        success && trim(answer) == seq!['t', 'r', 'u', 'e'] ==> answers_yes(success, answer),
        answers_yes(success, answer) ==> trim(answer) == seq!['t', 'r', 'u', 'e'],
{
    reveal_strlit("true");
    assert("true"@ =~= seq!['t', 'r', 'u', 'e']);
}

} // verus!
