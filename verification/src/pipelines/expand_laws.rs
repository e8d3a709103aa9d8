//! What the expansion of components gives.

use vstd::prelude::*;
use crate::pipelines::expand::{
    component_args, default_args, expand_env, expand_from, expand_from_step, expand_one,
    expand_workflows, expanded_pipeline, fill_entries, fill_opt, fill_part, fill_parts, fill_seq,
    fill_str, filled_from, given_args, missing_param, param_free, plain, Args, ExpandEnv, FillEnv,
    Totals,
};
use crate::pipelines::model::{
    ComponentV2View, ExpandLimits, ExtractParserView, ParamSpecV2View, PartView, PipelineErrorView,
    PipelineView, WorkflowView,
};
use crate::strmap::{lookup, lookup_at, lookup_put, lookup_some, put, put_sorted, rank, sorted};
use crate::text::{
    bytes_len, contains, next_char, next_char_behind, next_char_bounds, starts_at,
};
use crate::types::tool::{ToolCallView, ToolInputView};

verus! {

/// The value that a use of a component has for a parameter: what the use gives, else the
/// default of the parameter.
pub open spec fn value_for(
    component: ComponentV2View,
    call: Args,
    name: Seq<char>,
) -> Option<Seq<char>> {
    match lookup(call, name) {
        Some(v) => Some(v),
        None => match lookup(component.params, name) {
            Some(p) => p.default,
            None => None,
        },
    }
}

proof fn defaults_are_looked_up(
    id: Seq<char>,
    params: Seq<(Seq<char>, ParamSpecV2View)>,
    i: int,
    acc: Args,
    k: Seq<char>,
)
    requires
        sorted(params),
        sorted(acc),
        0 <= i <= params.len(),
    ensures
        default_args(id, params, i, acc) matches Ok(a) ==> {
            &&& sorted(a)
            &&& lookup(a, k) == (if lookup(params, k) is Some && rank(params, k) >= i && lookup(
                params,
                k,
            )->0.default is Some {
                lookup(params, k)->0.default
            } else {
                lookup(acc, k)
            })
        },
        default_args(id, params, i, acc) matches Err(e) ==> e is InvalidComponentArg,
        default_args(id, params, i, acc) is Ok <==> forall|j: int|
            i <= j < params.len() && (#[trigger] params[j]).1.default is Some ==> !contains(
                params[j].1.default->0,
                "${"@,
            ),
    decreases params.len() - i,
{
    lookup_some(params, k);
    if i < params.len() {
        lookup_at(params, i);
        match params[i].1.default {
            None => {
                defaults_are_looked_up(id, params, i + 1, acc, k);
            },
            Some(d) => {
                if !contains(d, "${"@) {
                    put_sorted(acc, params[i].0, d);
                    lookup_put(acc, params[i].0, d, k);
                    defaults_are_looked_up(id, params, i + 1, put(acc, params[i].0, d), k);
                }
            },
        }
    }
}

proof fn given_are_looked_up(id: Seq<char>, call: Args, i: int, acc: Args, k: Seq<char>)
    requires
        sorted(call),
        sorted(acc),
        0 <= i <= call.len(),
    ensures
        given_args(id, call, i, acc) matches Ok(a) ==> {
            &&& sorted(a)
            &&& lookup(a, k) == (if lookup(call, k) is Some && rank(call, k) >= i {
                lookup(call, k)
            } else {
                lookup(acc, k)
            })
        },
        given_args(id, call, i, acc) matches Err(e) ==> e is InvalidComponentArg,
        given_args(id, call, i, acc) is Ok <==> forall|j: int|
            i <= j < call.len() ==> !contains((#[trigger] call[j]).1, "${"@),
    decreases call.len() - i,
{
    lookup_some(call, k);
    if i < call.len() {
        lookup_at(call, i);
        if !contains(call[i].1, "${"@) {
            put_sorted(acc, call[i].0, call[i].1);
            lookup_put(acc, call[i].0, call[i].1, k);
            given_are_looked_up(id, call, i + 1, put(acc, call[i].0, call[i].1), k);
        }
    }
}

proof fn missing_is_none(params: Seq<(Seq<char>, ParamSpecV2View)>, i: int, args: Args)
    requires
        0 <= i,
    ensures
        missing_param(params, i, args) is None <==> forall|j: int|
            i <= j < params.len() && (#[trigger] params[j]).1.default is None ==> lookup(
                args,
                params[j].0,
            ) is Some,
        missing_param(params, i, args) matches Some(n) ==> exists|j: int|
            i <= j < params.len() && (#[trigger] params[j]).0 == n && params[j].1.default is None
                && lookup(args, n) is None,
    decreases params.len() - i,
{
    if i < params.len() {
        missing_is_none(params, i + 1, args);
    }
}

/// Whether a use of a component is complete and literal: every parameter without a default is
/// given, and neither what is given nor a default holds a placeholder.
pub open spec fn well_used(component: ComponentV2View, call: Args) -> bool {
    &&& forall|j: int|
        0 <= j < component.params.len() && (#[trigger] component.params[j]).1.default is None
            ==> lookup(call, component.params[j].0) is Some
    &&& forall|j: int|
        0 <= j < component.params.len() && (#[trigger] component.params[j]).1.default is Some
            ==> !contains(component.params[j].1.default->0, "${"@)
    &&& forall|j: int| 0 <= j < call.len() ==> !contains((#[trigger] call[j]).1, "${"@)
}

/// What a use gives overrides the defaults of the component: a parameter has the value that the
/// use gives it, else its default. A use is accepted exactly where it is complete and literal.
pub proof fn arguments_override_defaults(
    id: Seq<char>,
    component: ComponentV2View,
    call: Args,
    name: Seq<char>,
)
    requires
        sorted(component.params),
        sorted(call),
    ensures
        component_args(id, component, call) is Ok <==> well_used(component, call),
        component_args(id, component, call) matches Ok(args) ==> lookup(args, name) == value_for(
            component,
            call,
            name,
        ),
        component_args(id, component, call) matches Err(
            PipelineErrorView::MissingComponentParam { component_id, param },
        ) ==> component_id == id && lookup(component.params, param) is Some && value_for(
            component,
            call,
            param,
        ) is None,
{
    let none: Args = Seq::empty();
    let params = component.params;
    defaults_are_looked_up(id, params, 0, none, name);
    lookup_some(params, name);
    lookup_some(call, name);
    if let Ok(d) = default_args(id, params, 0, none) {
        given_are_looked_up(id, call, 0, d, name);
        if let Ok(args) = given_args(id, call, 0, d) {
            missing_is_none(params, 0, args);
            assert forall|j: int|
                0 <= j < params.len() && (#[trigger] params[j]).1.default is None implies lookup(
                args,
                params[j].0,
            ) is Some == lookup(call, params[j].0) is Some by {
                let k = params[j].0;
                lookup_at(params, j);
                defaults_are_looked_up(id, params, 0, none, k);
                given_are_looked_up(id, call, 0, d, k);
                lookup_some(call, k);
            }
            if let Some(n) = missing_param(params, 0, args) {
                let j = choose|j: int|
                    0 <= j < params.len() && (#[trigger] params[j]).0 == n && params[j].1.default is None
                        && lookup(args, n) is None;
                lookup_at(params, j);
                assert(lookup(args, params[j].0) is Some == lookup(call, params[j].0) is Some);
            }
        }
    }
}

proof fn filled_behind(
    env: FillEnv,
    p: Seq<char>,
    s: Seq<char>,
    i: int,
    pre: Seq<char>,
    out: Seq<char>,
)
    requires
        0 <= i <= s.len(),
    ensures
        filled_from(env, p + s, p.len() + i, pre + out) == match filled_from(env, s, i, out) {
            Ok(t) => Ok(pre + t),
            Err(e) => Err(e),
        },
    decreases s.len() - i,
{
    reveal_strlit("${param.");
    let all = p + s;
    let at = p.len() + i;
    if i < s.len() {
        assert(all[at] == s[i]);
        assert(starts_at(all, at, "${param."@) == starts_at(s, i, "${param."@)) by {
            if i + 8 <= s.len() {
                assert(all.subrange(at, at + 8) =~= s.subrange(i, i + 8));
            }
        }
        if starts_at(s, i, "${param."@) {
            next_char_behind(p, s, i + 8, '}');
            next_char_bounds(s, i + 8, '}');
            let end = next_char(s, i + 8, '}');
            if end < s.len() {
                assert(all.subrange(at + 8, p.len() + end) =~= s.subrange(i + 8, end));
                if let Some(v) = lookup(env.args, s.subrange(i + 8, end)) {
                    assert(pre + out + v =~= pre + (out + v));
                    filled_behind(env, p, s, end + 1, pre, out + v);
                }
            }
        } else {
            assert((pre + out).push(s[i]) =~= pre + out.push(s[i]));
            filled_behind(env, p, s, i + 1, pre, out.push(s[i]));
        }
    }
}

proof fn filled_up_to(env: FillEnv, s: Seq<char>, i: int, n: int, out: Seq<char>)
    requires
        0 <= i <= n <= s.len(),
        forall|k: int| i <= k < n ==> !starts_at(s, k, "${param."@),
    ensures
        filled_from(env, s, i, out) == filled_from(env, s, n, out + s.subrange(i, n)),
    decreases n - i,
{
    if i < n {
        filled_up_to(env, s, i + 1, n, out.push(s[i]));
        assert(out.push(s[i]) + s.subrange(i + 1, n) =~= out + s.subrange(i, n));
    } else {
        assert(out + s.subrange(i, n) =~= out);
    }
}

/// A text is filled in piece by piece: one that refers to no parameter stays as it is; what
/// stands before the first placeholder stays, the placeholder gives the value of its parameter,
/// and what follows is filled in by itself. A parameter without a value, and a placeholder that
/// is not closed, are errors.
pub proof fn texts_are_filled_piece_by_piece(
    env: FillEnv,
    before: Seq<char>,
    name: Seq<char>,
    after: Seq<char>,
)
    requires
        !name.contains('}'),
        forall|k: int|
            0 <= k < before.len() ==> !starts_at(
                before + "${param."@ + name + "}"@ + after,
                k,
                "${param."@,
            ),
        forall|k: int|
            0 <= k < before.len() ==> !starts_at(before + "${param."@ + name, k, "${param."@),
    ensures
        plain(after) ==> filled_from(env, after, 0, Seq::empty()) == Ok::<
            Seq<char>,
            PipelineErrorView,
        >(after),
        filled_from(env, before + "${param."@ + name + "}"@ + after, 0, Seq::empty()) == match lookup(
            env.args,
            name,
        ) {
            None => Err(
                PipelineErrorView::UnknownComponentParamReference {
                    component_id: env.component,
                    param: name,
                },
            ),
            Some(v) => match filled_from(env, after, 0, Seq::empty()) {
                Ok(t) => Ok(before + v + t),
                Err(e) => Err(e),
            },
        },
        filled_from(env, before + "${param."@ + name, 0, Seq::empty()) matches Err(
            PipelineErrorView::TemplateError(_),
        ),
{
    reveal_strlit("${param.");
    reveal_strlit("}");
    let none: Seq<char> = Seq::empty();
    if plain(after) {
        filled_up_to(env, after, 0, after.len() as int, none);
        assert(none + after.subrange(0, after.len() as int) =~= after);
    }
    let s = before + "${param."@ + name + "}"@ + after;
    let n = before.len() as int;
    let end = n + 8 + name.len();
    filled_up_to(env, s, 0, n, none);
    assert(none + s.subrange(0, n) =~= before);
    assert(s.subrange(n, n + 8) =~= "${param."@);
    assert(s.subrange(n + 8, end) =~= name);
    next_char_bounds(s, n + 8, '}');
    assert(next_char(s, n + 8, '}') == end) by {
        let e = next_char(s, n + 8, '}');
        if e < end {
            assert(s[e] == name[e - n - 8]);
            assert(name.contains('}'));
        }
        assert(s[end] == '}');
    }
    let head = before + "${param."@ + name + "}"@;
    if let Some(v) = lookup(env.args, name) {
        filled_behind(env, head, after, 0, before + v, none);
        assert(head + after =~= s);
        assert(before + v + none =~= before + v);
    }
    let u = before + "${param."@ + name;
    filled_up_to(env, u, 0, n, none);
    assert(none + u.subrange(0, n) =~= before);
    assert(u.subrange(n, n + 8) =~= "${param."@);
    next_char_bounds(u, n + 8, '}');
    assert(next_char(u, n + 8, '}') == u.len()) by {
        let e = next_char(u, n + 8, '}');
        if e < u.len() {
            assert(u[e] == name[e - n - 8]);
            assert(name.contains('}'));
        }
    }
}

/// Whether a text is another with its parameters filled in.
pub open spec fn filled_to(env: FillEnv, s: Seq<char>, t: Seq<char>) -> bool {
    if plain(s) {
        t == s
    } else {
        filled_from(env, s, 0, Seq::empty()) == Ok::<Seq<char>, PipelineErrorView>(t)
    }
}

/// The texts of one expansion are counted: a text that refers to no parameter takes up nothing,
/// any other the bytes that it has once it is filled in, and what would go over the limit is
/// refused.
pub proof fn filled_texts_are_counted(env: FillEnv, s: Seq<char>, used: nat, t: Seq<char>)
    ensures
        fill_str(env, s, used) matches Ok((x, u)) ==> filled_to(env, s, x) && u == used + (if plain(
            s,
        ) {
            0
        } else {
            bytes_len(x)
        }),
        filled_to(env, s, t) && (plain(s) || used + bytes_len(t) <= env.max) ==> (fill_str(
            env,
            s,
            used,
        ) matches Ok((x, _)) && x == t),
        filled_to(env, s, t) && !plain(s) && used + bytes_len(t) > env.max ==> (fill_str(
            env,
            s,
            used,
        ) matches Err(PipelineErrorView::ExpandLimitsExceeded(_))),
{
}

/// Whether an optional text is another with its parameters filled in.
pub open spec fn opt_filled(env: FillEnv, a: Option<Seq<char>>, b: Option<Seq<char>>) -> bool {
    match (a, b) {
        (None, None) => true,
        (Some(s), Some(t)) => filled_to(env, s, t),
        _ => false,
    }
}

/// Whether texts are others with their parameters filled in, one by one.
pub open spec fn all_filled(env: FillEnv, a: Seq<Seq<char>>, b: Seq<Seq<char>>) -> bool {
    &&& a.len() == b.len()
    &&& forall|k: int| 0 <= k < a.len() ==> filled_to(env, #[trigger] a[k], b[k])
}

/// Whether optional texts are others with their parameters filled in.
pub open spec fn opt_all_filled(
    env: FillEnv,
    a: Option<Seq<Seq<char>>>,
    b: Option<Seq<Seq<char>>>,
) -> bool {
    match (a, b) {
        (None, None) => true,
        (Some(s), Some(t)) => all_filled(env, s, t),
        _ => false,
    }
}

/// Whether a parser is another with its parameters filled in.
pub open spec fn parser_filled(env: FillEnv, a: ExtractParserView, b: ExtractParserView) -> bool {
    match (a, b) {
        (
            ExtractParserView::JsonPath { json_path },
            ExtractParserView::JsonPath { json_path: j },
        ) => filled_to(env, json_path, j),
        (
            ExtractParserView::Regex { pattern, group },
            ExtractParserView::Regex { pattern: p, group: g },
        ) => filled_to(env, pattern, p) && group == g,
        _ => false,
    }
}

/// Whether a tool call is another with its parameters filled in: only the words and the
/// directory of a shell command are.
pub open spec fn call_filled(env: FillEnv, a: ToolCallView, b: ToolCallView) -> bool {
    &&& a.call_id == b.call_id
    &&& a.tool_name == b.tool_name
    &&& a.tool_kind == b.tool_kind
    &&& match (a.input, b.input) {
        (
            ToolInputView::LocalShell { command, workdir },
            ToolInputView::LocalShell { command: c, workdir: w },
        ) => all_filled(env, command, c) && opt_filled(env, workdir, w),
        (ToolInputView::LocalShell { .. }, _) => false,
        (x, y) => x == y,
    }
}

/// Whether the arguments of a use are others with their parameters filled in: names that refer
/// to no parameter keep their values, filled in.
pub open spec fn args_filled(env: FillEnv, a: Args, b: Args) -> bool {
    (forall|k: int| 0 <= k < a.len() ==> plain((#[trigger] a[k]).0)) ==> {
        &&& forall|n: Seq<char>| #[trigger] lookup(b, n) is Some <==> lookup(a, n) is Some
        &&& forall|n: Seq<char>| #[trigger]
            lookup(b, n) is Some ==> filled_to(env, lookup(a, n)->0, lookup(b, n)->0)
    }
}

/// Whether a part is another with its parameters filled in, text by text; what is no text, the
/// branch that new work starts from, the name of a command and what approvals are bound to and
/// recorded under stay as they are.
pub open spec fn part_filled(env: FillEnv, a: PartView, b: PartView) -> bool
    decreases a,
{
    match (a, b) {
        (PartView::RunTool { tool_call }, PartView::RunTool { tool_call: t }) => call_filled(
            env,
            tool_call,
            t,
        ),
        (
            PartView::RunCommand { cwd, argv, command_id, timeout_ms, child_process_policy },
            PartView::RunCommand {
                cwd: c,
                argv: v,
                command_id: i,
                timeout_ms: t,
                child_process_policy: p,
            },
        ) => opt_filled(env, cwd, c) && opt_all_filled(env, argv, v) && command_id == i
            && timeout_ms == t && child_process_policy == p,
        (
            PartView::RequireApproval { scope, mode, prompt, remediation, action_hash, output_key },
            PartView::RequireApproval {
                scope: s,
                mode: m,
                prompt: p,
                remediation: r,
                action_hash: h,
                output_key: k,
            },
        ) => scope == s && mode == m && filled_to(env, prompt, p) && all_filled(env, remediation, r)
            && action_hash == h && output_key == k,
        (
            PartView::ExtractValue { source, parser, output_key, normalize },
            PartView::ExtractValue { source: s, parser: p, output_key: k, normalize: n },
        ) => source == s && parser_filled(env, parser, p) && filled_to(env, output_key, k)
            && normalize == n,
        (
            PartView::AssertFact { key, equals, matches_regex },
            PartView::AssertFact { key: k, equals: e, matches_regex: m },
        ) => filled_to(env, key, k) && opt_filled(env, equals, e) && opt_filled(
            env,
            matches_regex,
            m,
        ),
        (
            PartView::EnsureWorktree {
                worktree_root,
                naming,
                base_branch,
                branch_name,
                require_approval,
            },
            PartView::EnsureWorktree {
                worktree_root: w,
                naming: n,
                base_branch: b,
                branch_name: m,
                require_approval: r,
            },
        ) => filled_to(env, worktree_root, w) && filled_to(env, naming, n) && base_branch == b
            && filled_to(env, branch_name, m) && require_approval == r,
        (
            PartView::EnsureBranch {
                base_branch,
                branch_name,
                protected_branches,
                require_approval,
            },
            PartView::EnsureBranch {
                base_branch: b,
                branch_name: m,
                protected_branches: p,
                require_approval: r,
            },
        ) => base_branch == b && filled_to(env, branch_name, m) && all_filled(
            env,
            protected_branches,
            p,
        ) && require_approval == r,
        (PartView::SetVar { key, value }, PartView::SetVar { key: k, value: v }) => filled_to(
            env,
            key,
            k,
        ) && filled_to(env, value, v),
        (PartView::Fail { message }, PartView::Fail { message: m }) => filled_to(env, message, m),
        (PartView::Defer { part }, PartView::Defer { part: p }) => part_filled(env, *part, *p),
        (PartView::UseComponent { id, args }, PartView::UseComponent { id: i, args: b }) => filled_to(
            env,
            id,
            i,
        ) && args_filled(env, args, b),
        _ => false,
    }
}

proof fn seq_is_filled(
    env: FillEnv,
    s: Seq<Seq<char>>,
    i: int,
    acc: Seq<Seq<char>>,
    used: nat,
)
    requires
        0 <= i <= s.len(),
        acc.len() == i,
        forall|k: int| 0 <= k < i ==> filled_to(env, #[trigger] s[k], acc[k]),
    ensures
        fill_seq(env, s, i, acc, used) matches Ok((t, _)) ==> all_filled(env, s, t),
    decreases s.len() - i,
{
    if i < s.len() {
        if let Ok((t, u)) = fill_str(env, s[i], used) {
            seq_is_filled(env, s, i + 1, acc.push(t), u);
        }
    }
}

proof fn entries_are_filled(env: FillEnv, s: Args, i: int, acc: Args, used: nat)
    requires
        sorted(s),
        sorted(acc),
        0 <= i <= s.len(),
        forall|k: int| 0 <= k < s.len() ==> plain((#[trigger] s[k]).0),
        forall|n: Seq<char>| #[trigger]
            lookup(acc, n) is Some <==> lookup(s, n) is Some && rank(s, n) < i,
        forall|n: Seq<char>| #[trigger]
            lookup(acc, n) is Some ==> filled_to(env, lookup(s, n)->0, lookup(acc, n)->0),
    ensures
        fill_entries(env, s, i, acc, used) matches Ok((b, _)) ==> args_filled(env, s, b),
    decreases s.len() - i,
{
    if i < s.len() {
        assert(plain(s[i].0));
        lookup_at(s, i);
        if let Ok((k, u)) = fill_str(env, s[i].0, used) {
            assert(k == s[i].0);
            if let Ok((v, u2)) = fill_str(env, s[i].1, u) {
                let next = put(acc, k, v);
                put_sorted(acc, k, v);
                assert forall|n: Seq<char>| #[trigger]
                    lookup(next, n) is Some <==> lookup(s, n) is Some && rank(s, n) < i + 1 by {
                    lookup_put(acc, k, v, n);
                    lookup_some(s, n);
                    assert(lookup(acc, n) is Some <==> lookup(s, n) is Some && rank(s, n) < i);
                }
                assert forall|n: Seq<char>| #[trigger]
                    lookup(next, n) is Some implies filled_to(
                    env,
                    lookup(s, n)->0,
                    lookup(next, n)->0,
                ) by {
                    lookup_put(acc, k, v, n);
                    assert(lookup(acc, n) is Some ==> filled_to(
                        env,
                        lookup(s, n)->0,
                        lookup(acc, n)->0,
                    ));
                }
                entries_are_filled(env, s, i + 1, next, u2);
            }
        }
    } else {
        assert forall|n: Seq<char>| #[trigger] lookup(acc, n) is Some <==> lookup(
            s,
            n,
        ) is Some by {
            lookup_some(s, n);
        }
    }
}

/// Whether the arguments of every use in a part are in order.
pub open spec fn args_in_order(part: PartView) -> bool
    decreases part,
{
    match part {
        PartView::UseComponent { args, .. } => sorted(args),
        PartView::Defer { part } => args_in_order(*part),
        _ => true,
    }
}

/// A part is filled in text by text, and nothing else about it changes.
pub proof fn parts_are_filled_text_by_text(env: FillEnv, part: PartView, used: nat)
    requires
        args_in_order(part),
    ensures
        fill_part(env, part, used) matches Ok((q, _)) ==> part_filled(env, part, q),
    decreases part,
{
    let none: Seq<Seq<char>> = Seq::empty();
    match part {
        PartView::RunTool { tool_call } => {
            if let ToolInputView::LocalShell { command, workdir } = tool_call.input {
                seq_is_filled(env, command, 0, none, used);
            }
        },
        PartView::RunCommand { cwd, argv, .. } => {
            if argv is Some {
                if let Ok((_, u)) = fill_opt(env, cwd, used) {
                    seq_is_filled(env, argv->0, 0, none, u);
                }
            }
        },
        PartView::RequireApproval { prompt, remediation, .. } => {
            if let Ok((_, u)) = fill_str(env, prompt, used) {
                seq_is_filled(env, remediation, 0, none, u);
            }
        },
        PartView::EnsureBranch { branch_name, protected_branches, .. } => {
            if let Ok((_, u)) = fill_str(env, branch_name, used) {
                seq_is_filled(env, protected_branches, 0, none, u);
            }
        },
        PartView::Defer { part } => {
            parts_are_filled_text_by_text(env, *part, used);
        },
        PartView::UseComponent { id, args } => {
            if let Ok((_, u)) = fill_str(env, id, used) {
                if forall|k: int| 0 <= k < args.len() ==> plain((#[trigger] args[k]).0) {
                    let empty: Args = Seq::empty();
                    assert forall|n: Seq<char>| #[trigger] lookup(empty, n) is Some <==> lookup(
                        args,
                        n,
                    ) is Some && rank(args, n) < 0 by {
                        lookup_some(args, n);
                        lookup_some(empty, n);
                    }
                    entries_are_filled(env, args, 0, empty, u);
                }
            }
        },
        _ => {},
    }
}

/// What is filled in from no values at all is a text that refers to no parameter, and stays as
/// it is.
pub proof fn without_values_texts_stay(env: FillEnv, s: Seq<char>, t: Seq<char>)
    requires
        env.args.len() == 0,
    ensures
        filled_to(env, s, t) ==> t == s,
{
    if !plain(s) {
        reveal_strlit("${param.");
        let j = choose|j: int| starts_at(s, j, "${param."@);
        nothing_to_fill_in(env, s, 0, Seq::empty(), j);
    }
}

proof fn nothing_to_fill_in(env: FillEnv, s: Seq<char>, i: int, out: Seq<char>, j: int)
    requires
        env.args.len() == 0,
        0 <= i <= j < s.len(),
        starts_at(s, j, "${param."@),
    ensures
        filled_from(env, s, i, out) is Err,
    decreases j - i,
{
    lookup_some(env.args, s.subrange(i + 8, next_char(s, i + 8, '}')));
    if !starts_at(s, i, "${param."@) {
        nothing_to_fill_in(env, s, i + 1, out.push(s[i]), j);
    }
}

/// Whether parts are those of a component, filled in with the values that a use of it has.
pub open spec fn component_filled(
    c: ComponentV2View,
    call: Args,
    env: FillEnv,
    parts: Seq<PartView>,
) -> bool {
    &&& well_used(c, call)
    &&& forall|name: Seq<char>| #[trigger] lookup(env.args, name) == value_for(c, call, name)
    &&& parts.len() == c.parts.len()
    &&& forall|k: int| 0 <= k < parts.len() ==> part_filled(env, c.parts[k], #[trigger] parts[k])
}

/// Whether the parts of a component, filled in with the values that a use of it has, are so.
pub open spec fn filled_so(
    c: ComponentV2View,
    call: Args,
    so: spec_fn(Seq<PartView>) -> bool,
) -> bool {
    exists|env: FillEnv, filled: Seq<PartView>| #[trigger]
        component_filled(c, call, env, filled) && so(filled)
}

/// Whether lists, one for each part, make up a list.
pub open spec fn made_up_of(
    parts: Seq<PartView>,
    pieces: Seq<Seq<PartView>>,
    all: Seq<PartView>,
) -> bool {
    pieces.len() == parts.len() && pieces.flatten() == all
}

/// Whether parts come to others once their components are put in, at most `depth` deep: each
/// part in its place, in order. `stack` names the components that are being put in.
pub open spec fn unfolds(
    components: Seq<(Seq<char>, ComponentV2View)>,
    depth: nat,
    stack: Seq<Seq<char>>,
    parts: Seq<PartView>,
    all: Seq<PartView>,
) -> bool
    decreases depth, 1int,
{
    exists|pieces: Seq<Seq<PartView>>| #[trigger]
        made_up_of(parts, pieces, all) && forall|k: int|
            0 <= k < parts.len() ==> part_unfolds(
                components,
                depth,
                stack,
                #[trigger] parts[k],
                pieces[k],
            )
}

/// Whether a part comes to a list: a use of a component to what the parts of the component come
/// to, filled in, where the component is not being put in already; any other part to itself.
pub open spec fn part_unfolds(
    components: Seq<(Seq<char>, ComponentV2View)>,
    depth: nat,
    stack: Seq<Seq<char>>,
    part: PartView,
    all: Seq<PartView>,
) -> bool
    decreases depth, 0int,
{
    match part {
        PartView::UseComponent { id, args } => {
            &&& depth > 0
            &&& !stack.contains(id)
            &&& lookup(components, id) is Some
            &&& filled_so(
                lookup(components, id)->0,
                args,
                |filled: Seq<PartView>|
                    depth > 0 && unfolds(
                        components,
                        (depth - 1) as nat,
                        stack.push(id),
                        filled,
                        all,
                    ),
            )
        },
        _ => all.len() == 1 && exists|env: FillEnv|
            env.args.len() == 0 && #[trigger] part_filled(env, part, all[0]),
    }
}

/// Whether everything in components is in order.
pub open spec fn components_in_order(components: Seq<(Seq<char>, ComponentV2View)>) -> bool {
    forall|k: int|
        0 <= k < components.len() ==> sorted((#[trigger] components[k]).1.params) && uses_in_order(
            components[k].1.parts,
        )
}

/// Whether the arguments of every use among parts are in order.
pub open spec fn uses_in_order(parts: Seq<PartView>) -> bool {
    forall|k: int| 0 <= k < parts.len() ==> args_in_order(#[trigger] parts[k])
}

proof fn filled_entries_are_sorted(env: FillEnv, s: Args, i: int, acc: Args, used: nat)
    requires
        sorted(acc),
    ensures
        fill_entries(env, s, i, acc, used) matches Ok((b, _)) ==> sorted(b),
    decreases s.len() - i,
{
    if 0 <= i < s.len() {
        if let Ok((k, u)) = fill_str(env, s[i].0, used) {
            if let Ok((v, u2)) = fill_str(env, s[i].1, u) {
                put_sorted(acc, k, v);
                filled_entries_are_sorted(env, s, i + 1, put(acc, k, v), u2);
            }
        }
    }
}

proof fn filled_part_is_in_order(env: FillEnv, part: PartView, used: nat)
    ensures
        fill_part(env, part, used) matches Ok((q, _)) ==> args_in_order(q),
    decreases part,
{
    match part {
        PartView::Defer { part } => {
            filled_part_is_in_order(env, *part, used);
        },
        PartView::UseComponent { id, args } => {
            if let Ok((_, u)) = fill_str(env, id, used) {
                filled_entries_are_sorted(env, args, 0, Seq::empty(), u);
            }
        },
        _ => {},
    }
}

proof fn all_parts_are_filled(
    env: FillEnv,
    s: Seq<PartView>,
    i: int,
    acc: Seq<PartView>,
    used: nat,
)
    requires
        0 <= i <= s.len(),
        acc.len() == i,
        uses_in_order(s),
        uses_in_order(acc),
        forall|k: int| 0 <= k < i ==> part_filled(env, s[k], #[trigger] acc[k]),
    ensures
        fill_parts(env, s, i, acc, used) matches Ok((ps, _)) ==> {
            &&& ps.len() == s.len()
            &&& uses_in_order(ps)
            &&& forall|k: int| 0 <= k < ps.len() ==> part_filled(env, s[k], #[trigger] ps[k])
        },
    decreases s.len() - i,
{
    if i < s.len() {
        assert(args_in_order(s[i]));
        parts_are_filled_text_by_text(env, s[i], used);
        filled_part_is_in_order(env, s[i], used);
        if let Ok((p, u)) = fill_part(env, s[i], used) {
            all_parts_are_filled(env, s, i + 1, acc.push(p), u);
        }
    }
}

proof fn pieces_unfold(
    components: Seq<(Seq<char>, ComponentV2View)>,
    depth: nat,
    stack: Seq<Seq<char>>,
    parts: Seq<PartView>,
    pieces: Seq<Seq<PartView>>,
    all: Seq<PartView>,
)
    requires
        pieces.len() == parts.len(),
        all == Seq::<PartView>::empty() + pieces.flatten(),
        forall|k: int|
            0 <= k < pieces.len() ==> part_unfolds(
                components,
                depth,
                stack,
                parts[0 + k],
                #[trigger] pieces[k],
            ),
    ensures
        unfolds(components, depth, stack, parts, all),
{
    assert(Seq::<PartView>::empty() + pieces.flatten() =~= pieces.flatten());
    assert(made_up_of(parts, pieces, all));
    assert forall|k: int| 0 <= k < parts.len() implies part_unfolds(
        components,
        depth,
        stack,
        #[trigger] parts[k],
        pieces[k],
    ) by {
        assert(parts[0 + k] == parts[k]);
    }
}

proof fn use_unfolds(
    components: Seq<(Seq<char>, ComponentV2View)>,
    depth: nat,
    stack: Seq<Seq<char>>,
    id: Seq<char>,
    args: Args,
    values: Args,
    max: nat,
    filled: Seq<PartView>,
    all: Seq<PartView>,
)
    requires
        depth > 0,
        !stack.contains(id),
        lookup(components, id) is Some,
        sorted(lookup(components, id)->0.params),
        sorted(args),
        component_args(id, lookup(components, id)->0, args) == Ok::<Args, PipelineErrorView>(
            values,
        ),
        filled.len() == lookup(components, id)->0.parts.len(),
        forall|k: int|
            0 <= k < filled.len() ==> part_filled(
                FillEnv { component: id, args: values, max },
                lookup(components, id)->0.parts[k],
                #[trigger] filled[k],
            ),
        unfolds(components, (depth - 1) as nat, stack.push(id), filled, all),
    ensures
        part_unfolds(components, depth, stack, PartView::UseComponent { id, args }, all),
{
    let c = lookup(components, id)->0;
    let fe = FillEnv { component: id, args: values, max };
    arguments_override_defaults(id, c, args, id);
    assert forall|name: Seq<char>| #[trigger] lookup(fe.args, name) == value_for(c, args, name) by {
        arguments_override_defaults(id, c, args, name);
    }
    assert(component_filled(c, args, fe, filled));
}

/// What there is where a use of a component is expanded.
proof fn expanded_use(
    env: ExpandEnv,
    id: Seq<char>,
    args: Args,
    stack: Seq<Seq<char>>,
    owner: Seq<char>,
    t: Totals,
) -> (r: (Args, Seq<PartView>, nat))
    requires
        stack.len() <= env.max_depth,
        expand_one(env, PartView::UseComponent { id, args }, stack, owner, t) is Ok,
    ensures
        !stack.contains(id),
        lookup(env.components, id) is Some,
        component_args(id, lookup(env.components, id)->0, args) == Ok::<Args, PipelineErrorView>(
            r.0,
        ),
        fill_parts(
            FillEnv { component: id, args: r.0, max: env.max_bytes },
            lookup(env.components, id)->0.parts,
            0,
            Seq::empty(),
            t.bytes,
        ) == Ok::<(Seq<PartView>, nat), PipelineErrorView>((r.1, r.2)),
        stack.len() + 1 <= env.max_depth,
        expand_one(env, PartView::UseComponent { id, args }, stack, owner, t) == expand_from(
            env,
            r.1,
            0,
            Seq::empty(),
            stack.push(id),
            id,
            Totals { parts: t.parts, bytes: r.2 },
        ),
{
    reveal(expand_one);
    let c = lookup(env.components, id)->0;
    let values = component_args(id, c, args)->Ok_0;
    let (filled, bytes) = fill_parts(
        FillEnv { component: id, args: values, max: env.max_bytes },
        c.parts,
        0,
        Seq::empty(),
        t.bytes,
    )->Ok_0;
    (values, filled, bytes)
}

proof fn expanded_other_is(
    env: ExpandEnv,
    part: PartView,
    stack: Seq<Seq<char>>,
    owner: Seq<char>,
    t: Totals,
)
    requires
        stack.len() <= env.max_depth,
        !(part is UseComponent),
    ensures
        expand_one(env, part, stack, owner, t) == match fill_part(
            FillEnv { component: owner, args: Seq::empty(), max: env.max_bytes },
            part,
            t.bytes,
        ) {
            Err(e) => Err(e),
            Ok((p, bytes)) => Ok((seq![p], Totals { parts: t.parts, bytes })),
        },
{
    reveal(expand_one);
}

proof fn other_unfolds(
    components: Seq<(Seq<char>, ComponentV2View)>,
    depth: nat,
    stack: Seq<Seq<char>>,
    env: FillEnv,
    part: PartView,
    q: PartView,
)
    requires
        !(part is UseComponent),
        env.args.len() == 0,
        part_filled(env, part, q),
    ensures
        part_unfolds(components, depth, stack, part, seq![q]),
{
    let all = seq![q];
    assert(all[0] == q);
    assert(part_filled(env, part, all[0]));
}

proof fn expanded_other(
    env: ExpandEnv,
    part: PartView,
    stack: Seq<Seq<char>>,
    owner: Seq<char>,
    t: Totals,
)
    requires
        stack.len() <= env.max_depth,
        args_in_order(part),
        !(part is UseComponent),
    ensures
        expand_one(env, part, stack, owner, t) matches Ok((ps, _)) ==> part_unfolds(
            env.components,
            (env.max_depth - stack.len()) as nat,
            stack,
            part,
            ps,
        ),
{
    let fe = FillEnv { component: owner, args: Seq::empty(), max: env.max_bytes };
    expanded_other_is(env, part, stack, owner, t);
    parts_are_filled_text_by_text(fe, part, t.bytes);
    let depth = (env.max_depth - stack.len()) as nat;
    let got = fill_part(fe, part, t.bytes);
    if got is Ok {
        let (p, _) = got->Ok_0;
        other_unfolds(env.components, depth, stack, fe, part, p);
    }
}

proof fn expanded_part_unfolds(
    env: ExpandEnv,
    part: PartView,
    stack: Seq<Seq<char>>,
    owner: Seq<char>,
    t: Totals,
)
    requires
        stack.len() <= env.max_depth,
        components_in_order(env.components),
        args_in_order(part),
    ensures
        expand_one(env, part, stack, owner, t) matches Ok((ps, _)) ==> part_unfolds(
            env.components,
            (env.max_depth - stack.len()) as nat,
            stack,
            part,
            ps,
        ),
    decreases env.max_depth + 1 - stack.len(), 0int, 0int,
{
    let depth = (env.max_depth - stack.len()) as nat;
    if let PartView::UseComponent { id, args } = part {
        if let Ok((ps, _)) = expand_one(env, part, stack, owner, t) {
            let (values, filled, bytes) = expanded_use(env, id, args, stack, owner, t);
            let c = lookup(env.components, id)->0;
            lookup_some(env.components, id);
            assert(env.components[rank(env.components, id)].1 == c);
            let fe = FillEnv { component: id, args: values, max: env.max_bytes };
            let none: Seq<PartView> = Seq::empty();
            all_parts_are_filled(fe, c.parts, 0, none, t.bytes);
            let t2 = Totals { parts: t.parts, bytes };
            let pieces = expanded_parts_unfold(env, filled, 0, none, stack.push(id), id, t2);
            let below = (env.max_depth - stack.push(id).len()) as nat;
            pieces_unfold(env.components, below, stack.push(id), filled, pieces, ps);
            use_unfolds(
                env.components,
                depth,
                stack,
                id,
                args,
                values,
                env.max_bytes,
                filled,
                ps,
            );
        }
    } else {
        expanded_other(env, part, stack, owner, t);
    }
}

proof fn expanded_parts_unfold(
    env: ExpandEnv,
    parts: Seq<PartView>,
    i: int,
    acc: Seq<PartView>,
    stack: Seq<Seq<char>>,
    owner: Seq<char>,
    t: Totals,
) -> (pieces: Seq<Seq<PartView>>)
    requires
        stack.len() <= env.max_depth,
        components_in_order(env.components),
        uses_in_order(parts),
        0 <= i <= parts.len(),
        expand_from(env, parts, i, acc, stack, owner, t) is Ok,
    ensures
        pieces.len() == parts.len() - i,
        ({
            let (ps, _) = expand_from(env, parts, i, acc, stack, owner, t)->Ok_0;
            ps == acc + pieces.flatten()
        }),
        forall|k: int|
            0 <= k < pieces.len() ==> part_unfolds(
                env.components,
                (env.max_depth - stack.len()) as nat,
                stack,
                parts[i + k],
                #[trigger] pieces[k],
            ),
    decreases env.max_depth + 1 - stack.len(), parts.len() - i, 1int,
{
    if i < parts.len() {
        expand_from_step(env, parts, i, acc, stack, owner, t);
        assert(args_in_order(parts[i]));
        expanded_part_unfolds(env, parts[i], stack, owner, t);
        let (ps, t2) = expand_one(env, parts[i], stack, owner, t)->Ok_0;
        let t3 = Totals { parts: t2.parts + 1, bytes: t2.bytes };
        let rest = expanded_parts_unfold(env, parts, i + 1, acc + ps, stack, owner, t3);
        let pieces = seq![ps] + rest;
        assert(pieces.first() == ps);
        assert(pieces.drop_first() =~= rest);
        assert(pieces.flatten() == ps + rest.flatten());
        assert(acc + ps + rest.flatten() =~= acc + (ps + rest.flatten()));
        assert forall|k: int| 0 <= k < pieces.len() implies part_unfolds(
            env.components,
            (env.max_depth - stack.len()) as nat,
            stack,
            parts[i + k],
            #[trigger] pieces[k],
        ) by {
            if k > 0 {
                assert(pieces[k] == rest[k - 1]);
            }
        }
        pieces
    } else {
        let none: Seq<Seq<PartView>> = Seq::empty();
        assert(none.flatten() =~= Seq::empty());
        assert(acc + none.flatten() =~= acc);
        none
    }
}

proof fn expanded_workflows_unfold(
    env: ExpandEnv,
    s: Seq<(Seq<char>, WorkflowView)>,
    i: int,
    acc: Seq<(Seq<char>, WorkflowView)>,
    t: Totals,
)
    requires
        components_in_order(env.components),
        forall|k: int| 0 <= k < s.len() ==> uses_in_order((#[trigger] s[k]).1.parts),
        0 <= i <= s.len(),
        acc.len() == i,
        forall|k: int|
            0 <= k < i ==> unfolds(
                env.components,
                env.max_depth,
                Seq::empty(),
                s[k].1.parts,
                (#[trigger] acc[k]).1.parts,
            ),
    ensures
        expand_workflows(env, s, i, acc, t) matches Ok((ws, _)) ==> ws.len() == s.len() && forall|
            k: int,
        |
            0 <= k < ws.len() ==> unfolds(
                env.components,
                env.max_depth,
                Seq::empty(),
                s[k].1.parts,
                (#[trigger] ws[k]).1.parts,
            ),
    decreases s.len() - i,
{
    if i < s.len() {
        let owner = "<pipeline>"@;
        let none: Seq<PartView> = Seq::empty();
        let no_stack: Seq<Seq<char>> = Seq::empty();
        let parts = s[i].1.parts;
        if let Ok((ps, t2)) = expand_from(env, parts, 0, none, no_stack, owner, t) {
            assert(uses_in_order(parts));
            let pieces = expanded_parts_unfold(env, parts, 0, none, no_stack, owner, t);
            pieces_unfold(env.components, env.max_depth, no_stack, parts, pieces, ps);
            let e = (s[i].0, WorkflowView { parts: ps, finally_workflow: s[i].1.finally_workflow });
            expanded_workflows_unfold(env, s, i + 1, acc.push(e), t2);
        }
    }
}

/// An expanded pipeline is the pipeline with its components put in: in each workflow, every use
/// of a component gives way to the parts of the component, filled in with what the use gives and
/// the defaults, and expanded in turn, in its place; every other part stays where it is, and as
/// it is.
pub proof fn expansion_puts_components_in(
    pipeline: PipelineView,
    components: Seq<(Seq<char>, ComponentV2View)>,
    limits: ExpandLimits,
)
    requires
        components_in_order(components),
        forall|k: int|
            0 <= k < pipeline.workflows.len() ==> uses_in_order(
                (#[trigger] pipeline.workflows[k]).1.parts,
            ),
    ensures
        expanded_pipeline(pipeline, components, limits) matches Ok(p) ==> p.workflows.len()
            == pipeline.workflows.len() && forall|k: int|
            0 <= k < p.workflows.len() ==> unfolds(
                components,
                limits.max_depth as nat,
                Seq::empty(),
                pipeline.workflows[k].1.parts,
                (#[trigger] p.workflows[k]).1.parts,
            ),
{
    expanded_workflows_unfold(
        expand_env(components, limits),
        pipeline.workflows,
        0,
        Seq::empty(),
        Totals { parts: 0, bytes: 0 },
    );
}

proof fn plain_parts_stay(
    env: ExpandEnv,
    parts: Seq<PartView>,
    i: int,
    stack: Seq<Seq<char>>,
    owner: Seq<char>,
    t: Totals,
)
    requires
        stack.len() <= env.max_depth,
        0 <= i <= parts.len(),
        forall|k: int|
            0 <= k < parts.len() ==> !((#[trigger] parts[k]) is UseComponent) && param_free(parts[k]),
        t.parts + parts.len() - i <= env.max_parts,
    ensures
        expand_from(env, parts, i, parts.subrange(0, i), stack, owner, t) == Ok::<
            (Seq<PartView>, Totals),
            PipelineErrorView,
        >((parts, Totals { parts: (t.parts + parts.len() - i) as nat, bytes: t.bytes })),
    decreases parts.len() - i,
{
    if i < parts.len() {
        expand_from_step(env, parts, i, parts.subrange(0, i), stack, owner, t);
        expanded_other_is(env, parts[i], stack, owner, t);
        let fe = FillEnv { component: owner, args: Seq::empty(), max: env.max_bytes };
        assert(fill_part(fe, parts[i], t.bytes) == Ok::<(PartView, nat), PipelineErrorView>(
            (parts[i], t.bytes),
        ));
        assert(parts.subrange(0, i) + seq![parts[i]] =~= parts.subrange(0, i + 1));
        plain_parts_stay(
            env,
            parts,
            i + 1,
            stack,
            owner,
            Totals { parts: t.parts + 1, bytes: t.bytes },
        );
    } else {
        assert(parts.subrange(0, i) =~= parts);
    }
}

/// A use of a component is expanded wherever nothing is in the way: the component is known and
/// not being put in already, the use is accepted, the parts of the component can be filled in
/// and are then plain, and the limits leave room for one more level and for the parts.
pub proof fn use_without_obstacles_is_expanded(
    env: ExpandEnv,
    id: Seq<char>,
    args: Args,
    values: Args,
    filled: Seq<PartView>,
    bytes: nat,
    stack: Seq<Seq<char>>,
    owner: Seq<char>,
    t: Totals,
)
    requires
        stack.len() < env.max_depth,
        !stack.contains(id),
        lookup(env.components, id) is Some,
        component_args(id, lookup(env.components, id)->0, args) == Ok::<Args, PipelineErrorView>(
            values,
        ),
        fill_parts(
            FillEnv { component: id, args: values, max: env.max_bytes },
            lookup(env.components, id)->0.parts,
            0,
            Seq::empty(),
            t.bytes,
        ) == Ok::<(Seq<PartView>, nat), PipelineErrorView>((filled, bytes)),
        forall|k: int|
            0 <= k < filled.len() ==> !((#[trigger] filled[k]) is UseComponent) && param_free(
                filled[k],
            ),
        t.parts + filled.len() <= env.max_parts,
    ensures
        expand_one(env, PartView::UseComponent { id, args }, stack, owner, t) == Ok::<
            (Seq<PartView>, Totals),
            PipelineErrorView,
        >((filled, Totals { parts: t.parts + filled.len(), bytes })),
{
    reveal(expand_one);
    assert(filled.subrange(0, 0) =~= Seq::empty());
    plain_parts_stay(
        env,
        filled,
        0,
        stack.push(id),
        id,
        Totals { parts: t.parts, bytes },
    );
}

/// What keeps a use of a component from being expanded is said: a component that is being put in
/// already, with the way that leads back to it; one that is not known; or too deep a nesting.
pub proof fn obstacles_are_named(
    env: ExpandEnv,
    id: Seq<char>,
    args: Args,
    stack: Seq<Seq<char>>,
    owner: Seq<char>,
    t: Totals,
)
    requires
        stack.len() <= env.max_depth,
    ensures
        ({
            let r = expand_one(env, PartView::UseComponent { id, args }, stack, owner, t);
            &&& stack.contains(id) ==> r == Err::<(Seq<PartView>, Totals), PipelineErrorView>(
                PipelineErrorView::ComponentCycle(stack + seq![id]),
            )
            &&& !stack.contains(id) && lookup(env.components, id) is None ==> r == Err::<
                (Seq<PartView>, Totals),
                PipelineErrorView,
            >(PipelineErrorView::UnknownComponent(id))
            &&& stack.len() == env.max_depth ==> r is Err
        }),
{
    reveal(expand_one);
    assert(stack.push(id) =~= stack + seq![id]);
}

} // verus!
