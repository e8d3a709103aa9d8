//! Expansion of components into the parts that they stand for.

use vstd::prelude::*;
use crate::pipelines::model::{
    ComponentV2, ComponentV2View, ExpandLimits, ExtractParser, ExtractParserView, ParamSpecV2View,
    Part, PartView, Pipeline, PipelineError, PipelineErrorView, PipelineView, Workflow,
    WorkflowView,
};
use crate::strmap::{
    lex_lt, lookup, put, put_last, put_sorted, rank, rank_bounds, sorted, StrMap,
};
use crate::text::{
    byte_len, bytes_len, cat2, chars_of, contains, decimal, decimal_string, find_char,
    list_contains, next_char, slice_string, starts_at, starts_at_pos,
    str_contains, Duplicate,
};
use crate::types::tool::{ToolCall, ToolCallView, ToolInput, ToolInputView};

verus! {

/// Values of parameters, by name.
pub type Args = Seq<(Seq<char>, Seq<char>)>;

/// What parameters are filled in from: the component they belong to, their
/// values, and the bound on the bytes that filled-in texts may take together.
#[verifier::ext_equal]
pub struct FillEnv {
    pub component: Seq<char>,
    pub args: Args,
    pub max: nat,
}

/// The outcome of filling in parameters: the result with the bytes used so far.
pub type Filled<T> = Result<(T, nat), PipelineErrorView>;

/// What follows position `i` with its parameters filled in, behind `out`: a
/// `${param.NAME}` gives the value of NAME, every other character stays as it is.
pub open spec fn filled_from(env: FillEnv, s: Seq<char>, i: int, out: Seq<char>) -> Result<
    Seq<char>,
    PipelineErrorView,
>
    decreases s.len() - i,
{
    if i < 0 || i >= s.len() {
        Ok(out)
    } else if starts_at(s, i, "${param."@) {
        let end = next_char(s, i + 8, '}');
        if end >= s.len() {
            Err(PipelineErrorView::TemplateError("unclosed ${param.*} placeholder"@))
        } else {
            let key = s.subrange(i + 8, end);
            match lookup(env.args, key) {
                None => Err(
                    PipelineErrorView::UnknownComponentParamReference {
                        component_id: env.component,
                        param: key,
                    },
                ),
                Some(v) => if end + 1 > i {
                    filled_from(env, s, end + 1, out + v)
                } else {
                    Ok(out)
                },
            }
        }
    } else {
        filled_from(env, s, i + 1, out.push(s[i]))
    }
}

/// A text with its parameters filled in. A text without any stays as it is and
/// uses up no bytes.
pub open spec fn fill_str(env: FillEnv, s: Seq<char>, used: nat) -> Filled<Seq<char>> {
    if !contains(s, "${param."@) {
        Ok((s, used))
    } else {
        match filled_from(env, s, 0, Seq::empty()) {
            Err(e) => Err(e),
            Ok(t) => if used + bytes_len(t) > env.max {
                Err(
                    PipelineErrorView::ExpandLimitsExceeded(
                        "max_total_string_bytes="@ + decimal(env.max),
                    ),
                )
            } else {
                Ok((t, used + bytes_len(t)))
            },
        }
    }
}

/// An optional text, filled in.
pub open spec fn fill_opt(env: FillEnv, o: Option<Seq<char>>, used: nat) -> Filled<
    Option<Seq<char>>,
> {
    match o {
        None => Ok((None, used)),
        Some(s) => match fill_str(env, s, used) {
            Err(e) => Err(e),
            Ok((t, u)) => Ok((Some(t), u)),
        },
    }
}

/// The texts from position `i` on, filled in one after the other, behind `acc`.
pub open spec fn fill_seq(
    env: FillEnv,
    s: Seq<Seq<char>>,
    i: int,
    acc: Seq<Seq<char>>,
    used: nat,
) -> Filled<Seq<Seq<char>>>
    decreases s.len() - i,
{
    if i < 0 || i >= s.len() {
        Ok((acc, used))
    } else {
        match fill_str(env, s[i], used) {
            Err(e) => Err(e),
            Ok((t, u)) => fill_seq(env, s, i + 1, acc.push(t), u),
        }
    }
}

/// An optional list of texts, filled in.
pub open spec fn fill_opt_seq(env: FillEnv, o: Option<Seq<Seq<char>>>, used: nat) -> Filled<
    Option<Seq<Seq<char>>>,
> {
    match o {
        None => Ok((None, used)),
        Some(s) => match fill_seq(env, s, 0, Seq::empty(), used) {
            Err(e) => Err(e),
            Ok((t, u)) => Ok((Some(t), u)),
        },
    }
}

/// The entries from position `i` on, each name and then its value filled in,
/// stored into `acc`.
pub open spec fn fill_entries(env: FillEnv, s: Args, i: int, acc: Args, used: nat) -> Filled<Args>
    decreases s.len() - i,
{
    if i < 0 || i >= s.len() {
        Ok((acc, used))
    } else {
        match fill_str(env, s[i].0, used) {
            Err(e) => Err(e),
            Ok((k, u)) => match fill_str(env, s[i].1, u) {
                Err(e) => Err(e),
                Ok((v, u2)) => fill_entries(env, s, i + 1, put(acc, k, v), u2),
            },
        }
    }
}

/// A tool call, filled in: the command and the directory of a shell call change,
/// nothing else does.
pub open spec fn fill_tool_call(env: FillEnv, c: ToolCallView, used: nat) -> Filled<ToolCallView> {
    match c.input {
        ToolInputView::LocalShell { command, workdir } => match fill_seq(
            env,
            command,
            0,
            Seq::empty(),
            used,
        ) {
            Err(e) => Err(e),
            Ok((command, u)) => match fill_opt(env, workdir, u) {
                Err(e) => Err(e),
                Ok((workdir, u2)) => Ok(
                    (
                        ToolCallView { input: ToolInputView::LocalShell { command, workdir }, ..c },
                        u2,
                    ),
                ),
            },
        },
        _ => Ok((c, used)),
    }
}

/// The parser of an extraction, filled in.
pub open spec fn fill_parser(env: FillEnv, p: ExtractParserView, used: nat) -> Filled<
    ExtractParserView,
> {
    match p {
        ExtractParserView::JsonPath { json_path } => match fill_str(env, json_path, used) {
            Err(e) => Err(e),
            Ok((json_path, u)) => Ok((ExtractParserView::JsonPath { json_path }, u)),
        },
        ExtractParserView::Regex { pattern, group } => match fill_str(env, pattern, used) {
            Err(e) => Err(e),
            Ok((pattern, u)) => Ok((ExtractParserView::Regex { pattern, group }, u)),
        },
    }
}

/// A part with its parameters filled in, text by text in the order of its fields.
pub open spec fn fill_part(env: FillEnv, part: PartView, used: nat) -> Filled<PartView>
    decreases part,
{
    match part {
        PartView::RunTool { tool_call } => match fill_tool_call(env, tool_call, used) {
            Err(e) => Err(e),
            Ok((tool_call, u)) => Ok((PartView::RunTool { tool_call }, u)),
        },
        PartView::RunCommand { cwd, argv, command_id, timeout_ms, child_process_policy } =>
        match fill_opt(env, cwd, used) {
            Err(e) => Err(e),
            Ok((cwd, u)) => match fill_opt_seq(env, argv, u) {
                Err(e) => Err(e),
                Ok((argv, u2)) => Ok(
                    (
                        PartView::RunCommand {
                            cwd,
                            argv,
                            command_id,
                            timeout_ms,
                            child_process_policy,
                        },
                        u2,
                    ),
                ),
            },
        },
        PartView::RequireApproval { scope, mode, prompt, remediation, action_hash, output_key } =>
        match fill_str(env, prompt, used) {
            Err(e) => Err(e),
            Ok((prompt, u)) => match fill_seq(env, remediation, 0, Seq::empty(), u) {
                Err(e) => Err(e),
                Ok((remediation, u2)) => Ok(
                    (
                        PartView::RequireApproval {
                            scope,
                            mode,
                            prompt,
                            remediation,
                            action_hash,
                            output_key,
                        },
                        u2,
                    ),
                ),
            },
        },
        PartView::ExtractValue { source, parser, output_key, normalize } => match fill_parser(
            env,
            parser,
            used,
        ) {
            Err(e) => Err(e),
            Ok((parser, u)) => match fill_str(env, output_key, u) {
                Err(e) => Err(e),
                Ok((output_key, u2)) => Ok(
                    (PartView::ExtractValue { source, parser, output_key, normalize }, u2),
                ),
            },
        },
        PartView::AssertFact { key, equals, matches_regex } => match fill_str(env, key, used) {
            Err(e) => Err(e),
            Ok((key, u)) => match fill_opt(env, equals, u) {
                Err(e) => Err(e),
                Ok((equals, u2)) => match fill_opt(env, matches_regex, u2) {
                    Err(e) => Err(e),
                    Ok((matches_regex, u3)) => Ok(
                        (PartView::AssertFact { key, equals, matches_regex }, u3),
                    ),
                },
            },
        },
        PartView::EnsureWorktree {
            worktree_root,
            naming,
            base_branch,
            branch_name,
            require_approval,
        } => match fill_str(env, worktree_root, used) {
            Err(e) => Err(e),
            Ok((worktree_root, u)) => match fill_str(env, naming, u) {
                Err(e) => Err(e),
                Ok((naming, u2)) => match fill_str(env, branch_name, u2) {
                    Err(e) => Err(e),
                    Ok((branch_name, u3)) => Ok(
                        (
                            PartView::EnsureWorktree {
                                worktree_root,
                                naming,
                                base_branch,
                                branch_name,
                                require_approval,
                            },
                            u3,
                        ),
                    ),
                },
            },
        },
        PartView::EnsureBranch {
            base_branch,
            branch_name,
            protected_branches,
            require_approval,
        } => match fill_str(env, branch_name, used) {
            Err(e) => Err(e),
            Ok((branch_name, u)) => match fill_seq(env, protected_branches, 0, Seq::empty(), u) {
                Err(e) => Err(e),
                Ok((protected_branches, u2)) => Ok(
                    (
                        PartView::EnsureBranch {
                            base_branch,
                            branch_name,
                            protected_branches,
                            require_approval,
                        },
                        u2,
                    ),
                ),
            },
        },
        PartView::SetVar { key, value } => match fill_str(env, key, used) {
            Err(e) => Err(e),
            Ok((key, u)) => match fill_str(env, value, u) {
                Err(e) => Err(e),
                Ok((value, u2)) => Ok((PartView::SetVar { key, value }, u2)),
            },
        },
        PartView::Fail { message } => match fill_str(env, message, used) {
            Err(e) => Err(e),
            Ok((message, u)) => Ok((PartView::Fail { message }, u)),
        },
        PartView::Defer { part } => match fill_part(env, *part, used) {
            Err(e) => Err(e),
            Ok((p, u)) => Ok((PartView::Defer { part: Box::new(p) }, u)),
        },
        PartView::UseComponent { id, args } => match fill_str(env, id, used) {
            Err(e) => Err(e),
            Ok((id, u)) => match fill_entries(env, args, 0, Seq::empty(), u) {
                Err(e) => Err(e),
                Ok((args, u2)) => Ok((PartView::UseComponent { id, args }, u2)),
            },
        },
    }
}

/// The parts from position `i` on, filled in one after the other, behind `acc`.
pub open spec fn fill_parts(
    env: FillEnv,
    s: Seq<PartView>,
    i: int,
    acc: Seq<PartView>,
    used: nat,
) -> Filled<Seq<PartView>>
    decreases s.len() - i,
{
    if i < 0 || i >= s.len() {
        Ok((acc, used))
    } else {
        match fill_part(env, s[i], used) {
            Err(e) => Err(e),
            Ok((p, u)) => fill_parts(env, s, i + 1, acc.push(p), u),
        }
    }
}

/// The error for an argument that is no literal text.
pub open spec fn invalid_arg(component_id: Seq<char>, param: Seq<char>) -> PipelineErrorView {
    PipelineErrorView::InvalidComponentArg {
        component_id,
        param,
        message: "component args must be literal strings (no ${...})"@,
    }
}

/// The defaults of the parameters from position `i` on, stored into `acc`.
pub open spec fn default_args(
    id: Seq<char>,
    params: Seq<(Seq<char>, ParamSpecV2View)>,
    i: int,
    acc: Args,
) -> Result<Args, PipelineErrorView>
    decreases params.len() - i,
{
    if i < 0 || i >= params.len() {
        Ok(acc)
    } else {
        match params[i].1.default {
            None => default_args(id, params, i + 1, acc),
            Some(d) => if contains(d, "${"@) {
                Err(invalid_arg(id, params[i].0))
            } else {
                default_args(id, params, i + 1, put(acc, params[i].0, d))
            },
        }
    }
}

/// The arguments from position `i` on, stored into `acc`.
pub open spec fn given_args(id: Seq<char>, call: Args, i: int, acc: Args) -> Result<
    Args,
    PipelineErrorView,
>
    decreases call.len() - i,
{
    if i < 0 || i >= call.len() {
        Ok(acc)
    } else if contains(call[i].1, "${"@) {
        Err(invalid_arg(id, call[i].0))
    } else {
        given_args(id, call, i + 1, put(acc, call[i].0, call[i].1))
    }
}

/// The first parameter from position `i` on that has no default and no argument.
pub open spec fn missing_param(
    params: Seq<(Seq<char>, ParamSpecV2View)>,
    i: int,
    args: Args,
) -> Option<Seq<char>>
    decreases params.len() - i,
{
    if i < 0 || i >= params.len() {
        None
    } else if params[i].1.default is None && lookup(args, params[i].0) is None {
        Some(params[i].0)
    } else {
        missing_param(params, i + 1, args)
    }
}

/// The arguments that a use of a component has: its defaults, overridden by what
/// the use gives. All are literal texts, and none is missing.
pub open spec fn component_args(id: Seq<char>, component: ComponentV2View, call: Args) -> Result<
    Args,
    PipelineErrorView,
> {
    match default_args(id, component.params, 0, Seq::empty()) {
        Err(e) => Err(e),
        Ok(defaults) => match given_args(id, call, 0, defaults) {
            Err(e) => Err(e),
            Ok(args) => match missing_param(component.params, 0, args) {
                Some(param) => Err(
                    PipelineErrorView::MissingComponentParam { component_id: id, param },
                ),
                None => Ok(args),
            },
        },
    }
}

/// What an expansion has used up: parts, and bytes of filled-in text.
#[verifier::ext_equal]
pub struct Totals {
    pub parts: nat,
    pub bytes: nat,
}

/// The components that an expansion draws on, and its limits.
#[verifier::ext_equal]
pub struct ExpandEnv {
    pub components: Seq<(Seq<char>, ComponentV2View)>,
    pub max_depth: nat,
    pub max_parts: nat,
    pub max_bytes: nat,
}

/// The outcome of an expansion: the result with what has been used up.
pub type Expanded<T> = Result<(T, Totals), PipelineErrorView>;

/// The error for too deep a nesting.
pub open spec fn too_deep(env: ExpandEnv) -> PipelineErrorView {
    PipelineErrorView::ExpandLimitsExceeded("max_depth="@ + decimal(env.max_depth))
}

/// The error for too many parts.
pub open spec fn too_many(env: ExpandEnv) -> PipelineErrorView {
    PipelineErrorView::ExpandLimitsExceeded("max_expanded_parts="@ + decimal(env.max_parts))
}

/// The expansion of one part. A use of a component gives the component's parts,
/// filled in and expanded in turn; `stack` names the components that are being
/// expanded, `owner` the one that the part belongs to.
#[verifier::opaque]
pub open spec fn expand_one(
    env: ExpandEnv,
    part: PartView,
    stack: Seq<Seq<char>>,
    owner: Seq<char>,
    t: Totals,
) -> Expanded<Seq<PartView>>
    decreases env.max_depth + 1 - stack.len(), 0int,
    when stack.len() <= env.max_depth
{
    match part {
        PartView::UseComponent { id, args } => if stack.contains(id) {
            Err(PipelineErrorView::ComponentCycle(stack.push(id)))
        } else {
            match lookup(env.components, id) {
                None => Err(PipelineErrorView::UnknownComponent(id)),
                Some(component) => match component_args(id, component, args) {
                    Err(e) => Err(e),
                    Ok(args) => match fill_parts(
                        FillEnv { component: id, args, max: env.max_bytes },
                        component.parts,
                        0,
                        Seq::empty(),
                        t.bytes,
                    ) {
                        Err(e) => Err(e),
                        Ok((filled, bytes)) => if stack.len() + 1 > env.max_depth {
                            Err(too_deep(env))
                        } else {
                            expand_from(
                                env,
                                filled,
                                0,
                                Seq::empty(),
                                stack.push(id),
                                id,
                                Totals { parts: t.parts, bytes },
                            )
                        },
                    },
                },
            }
        },
        part => match fill_part(
            FillEnv { component: owner, args: Seq::empty(), max: env.max_bytes },
            part,
            t.bytes,
        ) {
            Err(e) => Err(e),
            Ok((p, bytes)) => Ok((seq![p], Totals { parts: t.parts, bytes })),
        },
    }
}

/// The parts from position `i` on, expanded one after the other, behind `acc`.
pub open spec fn expand_from(
    env: ExpandEnv,
    parts: Seq<PartView>,
    i: int,
    acc: Seq<PartView>,
    stack: Seq<Seq<char>>,
    owner: Seq<char>,
    t: Totals,
) -> Expanded<Seq<PartView>>
    decreases env.max_depth + 1 - stack.len(), parts.len() - i,
    when stack.len() <= env.max_depth
{
    if i < 0 || i >= parts.len() {
        Ok((acc, t))
    } else {
        match expand_one(env, parts[i], stack, owner, t) {
            Err(e) => Err(e),
            Ok((ps, t2)) => if t2.parts + 1 > env.max_parts {
                Err(too_many(env))
            } else {
                expand_from(
                    env,
                    parts,
                    i + 1,
                    acc + ps,
                    stack,
                    owner,
                    Totals { parts: t2.parts + 1, bytes: t2.bytes },
                )
            },
        }
    }
}

/// One step of [`expand_from`].
pub proof fn expand_from_step(
    env: ExpandEnv,
    parts: Seq<PartView>,
    i: int,
    acc: Seq<PartView>,
    stack: Seq<Seq<char>>,
    owner: Seq<char>,
    t: Totals,
)
    requires
        stack.len() <= env.max_depth,
        0 <= i < parts.len(),
    ensures
        expand_from(env, parts, i, acc, stack, owner, t) == match expand_one(
            env,
            parts[i],
            stack,
            owner,
            t,
        ) {
            Err(e) => Err(e),
            Ok((ps, t2)) => if t2.parts + 1 > env.max_parts {
                Err(too_many(env))
            } else {
                expand_from(
                    env,
                    parts,
                    i + 1,
                    acc + ps,
                    stack,
                    owner,
                    Totals { parts: t2.parts + 1, bytes: t2.bytes },
                )
            },
        },
{
    reveal(expand_one);
}

/// The workflows from position `i` on, each with its parts expanded, behind
/// `acc`. The limits hold for all of them together.
pub open spec fn expand_workflows(
    env: ExpandEnv,
    s: Seq<(Seq<char>, WorkflowView)>,
    i: int,
    acc: Seq<(Seq<char>, WorkflowView)>,
    t: Totals,
) -> Expanded<Seq<(Seq<char>, WorkflowView)>>
    decreases s.len() - i,
{
    if i < 0 || i >= s.len() {
        Ok((acc, t))
    } else {
        match expand_from(env, s[i].1.parts, 0, Seq::empty(), Seq::empty(), "<pipeline>"@, t) {
            Err(e) => Err(e),
            Ok((parts, t2)) => expand_workflows(
                env,
                s,
                i + 1,
                acc.push(
                    (s[i].0, WorkflowView { parts, finally_workflow: s[i].1.finally_workflow }),
                ),
                t2,
            ),
        }
    }
}

/// The environment of an expansion.
pub open spec fn expand_env(
    components: Seq<(Seq<char>, ComponentV2View)>,
    limits: ExpandLimits,
) -> ExpandEnv {
    ExpandEnv {
        components,
        max_depth: limits.max_depth as nat,
        max_parts: limits.max_expanded_parts as nat,
        max_bytes: limits.max_total_string_bytes as nat,
    }
}

/// A pipeline with all its components expanded.
pub open spec fn expanded_pipeline(
    pipeline: PipelineView,
    components: Seq<(Seq<char>, ComponentV2View)>,
    limits: ExpandLimits,
) -> Result<PipelineView, PipelineErrorView> {
    match expand_workflows(
        expand_env(components, limits),
        pipeline.workflows,
        0,
        Seq::empty(),
        Totals { parts: 0, bytes: 0 },
    ) {
        Err(e) => Err(e),
        Ok((workflows, _)) => Ok(PipelineView { workflows, entry: pipeline.entry }),
    }
}

/// Whether an outcome is the expected one, with the expected use of bytes.
pub open spec fn fills<T: DeepView>(
    r: Result<T, PipelineError>,
    used: usize,
    max: usize,
    expected: Filled<T::V>,
) -> bool {
    match expected {
        Ok((v, u)) => r is Ok && r->Ok_0.deep_view() == v && used == u && u <= max,
        Err(e) => r is Err && r->Err_0@ == e,
    }
}

/// The filling environment that arguments make.
pub open spec fn fill_env(
    component_id: &str,
    args: &StrMap<String>,
    limits: &ExpandLimits,
) -> FillEnv {
    FillEnv {
        component: component_id@,
        args: args@,
        max: limits.max_total_string_bytes as nat,
    }
}

fn substitute_params_in_str(
    component_id: &str,
    input: &str,
    args: &StrMap<String>,
    total_string_bytes: &mut usize,
    limits: &ExpandLimits,
) -> (r: Result<String, PipelineError>)
    requires
        *old(total_string_bytes) <= limits.max_total_string_bytes,
    ensures
        fills(
            r,
            *final(total_string_bytes),
            limits.max_total_string_bytes,
            fill_str(
                fill_env(component_id, args, limits),
                input@,
                *old(total_string_bytes) as nat,
            ),
        ),
{
    let ghost env = fill_env(component_id, args, limits);
    if !str_contains(input, "${param.") {
        return Ok(input.to_owned());
    }
    proof {
        reveal_strlit("${param.");
    }
    let v = chars_of(input);
    let mut out = String::new();
    let mut i: usize = 0;
    assert(out@ =~= Seq::<char>::empty());
    while i < v.len()
        invariant
            i <= v@.len(),
            v@ == input@,
            env == fill_env(component_id, args, limits),
            "${param."@.len() == 8,
            filled_from(env, input@, 0, Seq::empty()) == filled_from(env, v@, i as int, out@),
            *total_string_bytes == *old(total_string_bytes),
            contains(input@, "${param."@),
        decreases v.len() - i,
    {
        if starts_at_pos(&v, i, "${param.") {
            let start: usize = i + 8;
            let end = find_char(&v, start, '}');
            if end >= v.len() {
                return Err(
                    PipelineError::TemplateError("unclosed ${param.*} placeholder".to_owned()),
                );
            }
            let key = slice_string(&v, start, end);
            match args.get(key.as_str()) {
                None => {
                    return Err(
                        PipelineError::UnknownComponentParamReference {
                            component_id: component_id.to_owned(),
                            param: key,
                        },
                    );
                },
                Some(value) => {
                    out.append(value.as_str());
                },
            }
            i = end + 1;
        } else {
            out.push(v[i]);
            i = i + 1;
        }
    }
    let added = byte_len(out.as_str());
    if added > limits.max_total_string_bytes - *total_string_bytes {
        let max = decimal_string(limits.max_total_string_bytes as u64);
        return Err(
            PipelineError::ExpandLimitsExceeded(cat2("max_total_string_bytes=", max.as_str())),
        );
    }
    *total_string_bytes = *total_string_bytes + added;
    Ok(out)
}

fn substitute_params_in_opt(
    component_id: &str,
    input: &Option<String>,
    args: &StrMap<String>,
    total_string_bytes: &mut usize,
    limits: &ExpandLimits,
) -> (r: Result<Option<String>, PipelineError>)
    requires
        *old(total_string_bytes) <= limits.max_total_string_bytes,
    ensures
        fills(
            r,
            *final(total_string_bytes),
            limits.max_total_string_bytes,
            fill_opt(
                fill_env(component_id, args, limits),
                input.deep_view(),
                *old(total_string_bytes) as nat,
            ),
        ),
{
    match input {
        None => Ok(None),
        Some(s) => {
            let t = substitute_params_in_str(
                component_id,
                s.as_str(),
                args,
                total_string_bytes,
                limits,
            )?;
            Ok(Some(t))
        },
    }
}

fn substitute_params_in_list(
    component_id: &str,
    input: &Vec<String>,
    args: &StrMap<String>,
    total_string_bytes: &mut usize,
    limits: &ExpandLimits,
) -> (r: Result<Vec<String>, PipelineError>)
    requires
        *old(total_string_bytes) <= limits.max_total_string_bytes,
    ensures
        fills(
            r,
            *final(total_string_bytes),
            limits.max_total_string_bytes,
            fill_seq(
                fill_env(component_id, args, limits),
                input.deep_view(),
                0,
                Seq::empty(),
                *old(total_string_bytes) as nat,
            ),
        ),
{
    let ghost env = fill_env(component_id, args, limits);
    let mut out: Vec<String> = Vec::new();
    let mut i: usize = 0;
    assert(out.deep_view() =~= Seq::empty());
    while i < input.len()
        invariant
            i <= input.len(),
            env == fill_env(component_id, args, limits),
            *total_string_bytes <= limits.max_total_string_bytes,
            fill_seq(
                env,
                input.deep_view(),
                0,
                Seq::empty(),
                *old(total_string_bytes) as nat,
            ) == fill_seq(
                env,
                input.deep_view(),
                i as int,
                out.deep_view(),
                *total_string_bytes as nat,
            ),
        decreases input.len() - i,
    {
        let ghost before = out.deep_view();
        let t = substitute_params_in_str(
            component_id,
            input[i].as_str(),
            args,
            total_string_bytes,
            limits,
        )?;
        out.push(t);
        i = i + 1;
        assert(out.deep_view() =~= before.push(t@));
    }
    Ok(out)
}

fn substitute_params_in_opt_list(
    component_id: &str,
    input: &Option<Vec<String>>,
    args: &StrMap<String>,
    total_string_bytes: &mut usize,
    limits: &ExpandLimits,
) -> (r: Result<Option<Vec<String>>, PipelineError>)
    requires
        *old(total_string_bytes) <= limits.max_total_string_bytes,
    ensures
        fills(
            r,
            *final(total_string_bytes),
            limits.max_total_string_bytes,
            fill_opt_seq(
                fill_env(component_id, args, limits),
                input.deep_view(),
                *old(total_string_bytes) as nat,
            ),
        ),
{
    match input {
        None => Ok(None),
        Some(v) => {
            let t = substitute_params_in_list(component_id, v, args, total_string_bytes, limits)?;
            Ok(Some(t))
        },
    }
}

fn substitute_params_in_entries(
    component_id: &str,
    input: &StrMap<String>,
    args: &StrMap<String>,
    total_string_bytes: &mut usize,
    limits: &ExpandLimits,
) -> (r: Result<StrMap<String>, PipelineError>)
    requires
        *old(total_string_bytes) <= limits.max_total_string_bytes,
    ensures
        fills(
            r,
            *final(total_string_bytes),
            limits.max_total_string_bytes,
            fill_entries(
                fill_env(component_id, args, limits),
                input.deep_view(),
                0,
                Seq::empty(),
                *old(total_string_bytes) as nat,
            ),
        ),
{
    let ghost env = fill_env(component_id, args, limits);
    let mut out: StrMap<String> = StrMap::new();
    let mut i: usize = 0;
    while i < input.len()
        invariant
            i <= input@.len(),
            env == fill_env(component_id, args, limits),
            *total_string_bytes <= limits.max_total_string_bytes,
            fill_entries(
                env,
                input.deep_view(),
                0,
                Seq::empty(),
                *old(total_string_bytes) as nat,
            ) == fill_entries(
                env,
                input.deep_view(),
                i as int,
                out.deep_view(),
                *total_string_bytes as nat,
            ),
        decreases input@.len() - i,
    {
        let k = substitute_params_in_str(
            component_id,
            input.key_at(i).as_str(),
            args,
            total_string_bytes,
            limits,
        )?;
        let v = substitute_params_in_str(
            component_id,
            input.value_at(i).as_str(),
            args,
            total_string_bytes,
            limits,
        )?;
        out.insert(k, v);
        i = i + 1;
    }
    Ok(out)
}

fn substitute_params_in_tool_call(
    component_id: &str,
    call: &ToolCall,
    args: &StrMap<String>,
    total_string_bytes: &mut usize,
    limits: &ExpandLimits,
) -> (r: Result<ToolCall, PipelineError>)
    requires
        *old(total_string_bytes) <= limits.max_total_string_bytes,
    ensures
        fills(
            r,
            *final(total_string_bytes),
            limits.max_total_string_bytes,
            fill_tool_call(
                fill_env(component_id, args, limits),
                call@,
                *old(total_string_bytes) as nat,
            ),
        ),
{
    match &call.input {
        ToolInput::LocalShell { command, workdir } => {
            let command = substitute_params_in_list(
                component_id,
                command,
                args,
                total_string_bytes,
                limits,
            )?;
            let workdir = substitute_params_in_opt(
                component_id,
                workdir,
                args,
                total_string_bytes,
                limits,
            )?;
            Ok(
                ToolCall {
                    call_id: call.call_id.clone(),
                    tool_name: call.tool_name.clone(),
                    tool_kind: call.tool_kind,
                    input: ToolInput::LocalShell { command, workdir },
                },
            )
        },
        _ => Ok(call.dup()),
    }
}

fn substitute_params_in_parser(
    component_id: &str,
    parser: &ExtractParser,
    args: &StrMap<String>,
    total_string_bytes: &mut usize,
    limits: &ExpandLimits,
) -> (r: Result<ExtractParser, PipelineError>)
    requires
        *old(total_string_bytes) <= limits.max_total_string_bytes,
    ensures
        fills(
            r,
            *final(total_string_bytes),
            limits.max_total_string_bytes,
            fill_parser(
                fill_env(component_id, args, limits),
                parser@,
                *old(total_string_bytes) as nat,
            ),
        ),
{
    match parser {
        ExtractParser::JsonPath { json_path } => {
            let json_path = substitute_params_in_str(
                component_id,
                json_path.as_str(),
                args,
                total_string_bytes,
                limits,
            )?;
            Ok(ExtractParser::JsonPath { json_path })
        },
        ExtractParser::Regex { pattern, group } => {
            let pattern = substitute_params_in_str(
                component_id,
                pattern.as_str(),
                args,
                total_string_bytes,
                limits,
            )?;
            Ok(ExtractParser::Regex { pattern, group: *group })
        },
    }
}

fn substitute_params_in_part(
    component_id: &str,
    part: &Part,
    args: &StrMap<String>,
    total_string_bytes: &mut usize,
    limits: &ExpandLimits,
) -> (r: Result<Part, PipelineError>)
    requires
        *old(total_string_bytes) <= limits.max_total_string_bytes,
    ensures
        fills(
            r,
            *final(total_string_bytes),
            limits.max_total_string_bytes,
            fill_part(
                fill_env(component_id, args, limits),
                part@,
                *old(total_string_bytes) as nat,
            ),
        ),
    decreases part,
{
    match part {
        Part::RunTool { tool_call } => {
            let tool_call = substitute_params_in_tool_call(
                component_id,
                tool_call,
                args,
                total_string_bytes,
                limits,
            )?;
            Ok(Part::RunTool { tool_call })
        },
        Part::RunCommand { cwd, argv, command_id, timeout_ms, child_process_policy } => {
            let cwd = substitute_params_in_opt(
                component_id,
                cwd,
                args,
                total_string_bytes,
                limits,
            )?;
            let argv = substitute_params_in_opt_list(
                component_id,
                argv,
                args,
                total_string_bytes,
                limits,
            )?;
            Ok(Part::RunCommand { cwd, argv, command_id: command_id.dup(), timeout_ms: *timeout_ms, child_process_policy: *child_process_policy })
        },
        Part::RequireApproval { scope, mode, prompt, remediation, action_hash, output_key } => {
            let prompt = substitute_params_in_str(
                component_id,
                prompt.as_str(),
                args,
                total_string_bytes,
                limits,
            )?;
            let remediation = substitute_params_in_list(
                component_id,
                remediation,
                args,
                total_string_bytes,
                limits,
            )?;
            Ok(Part::RequireApproval { scope: *scope, mode: *mode, prompt, remediation, action_hash: action_hash.dup(), output_key: output_key.dup() })
        },
        Part::ExtractValue { source, parser, output_key, normalize } => {
            let parser = substitute_params_in_parser(
                component_id,
                parser,
                args,
                total_string_bytes,
                limits,
            )?;
            let output_key = substitute_params_in_str(
                component_id,
                output_key.as_str(),
                args,
                total_string_bytes,
                limits,
            )?;
            Ok(Part::ExtractValue { source: *source, parser, output_key, normalize: normalize.dup() })
        },
        Part::AssertFact { key, equals, matches_regex } => {
            let key = substitute_params_in_str(
                component_id,
                key.as_str(),
                args,
                total_string_bytes,
                limits,
            )?;
            let equals = substitute_params_in_opt(
                component_id,
                equals,
                args,
                total_string_bytes,
                limits,
            )?;
            let matches_regex = substitute_params_in_opt(
                component_id,
                matches_regex,
                args,
                total_string_bytes,
                limits,
            )?;
            Ok(Part::AssertFact { key, equals, matches_regex })
        },
        Part::EnsureWorktree { worktree_root, naming, base_branch, branch_name, require_approval } => {
            let worktree_root = substitute_params_in_str(
                component_id,
                worktree_root.as_str(),
                args,
                total_string_bytes,
                limits,
            )?;
            let naming = substitute_params_in_str(
                component_id,
                naming.as_str(),
                args,
                total_string_bytes,
                limits,
            )?;
            let branch_name = substitute_params_in_str(
                component_id,
                branch_name.as_str(),
                args,
                total_string_bytes,
                limits,
            )?;
            Ok(Part::EnsureWorktree { worktree_root, naming, base_branch: base_branch.dup(), branch_name, require_approval: *require_approval })
        },
        Part::EnsureBranch { base_branch, branch_name, protected_branches, require_approval } => {
            let branch_name = substitute_params_in_str(
                component_id,
                branch_name.as_str(),
                args,
                total_string_bytes,
                limits,
            )?;
            let protected_branches = substitute_params_in_list(
                component_id,
                protected_branches,
                args,
                total_string_bytes,
                limits,
            )?;
            Ok(Part::EnsureBranch { base_branch: base_branch.dup(), branch_name, protected_branches, require_approval: *require_approval })
        },
        Part::SetVar { key, value } => {
            let key = substitute_params_in_str(
                component_id,
                key.as_str(),
                args,
                total_string_bytes,
                limits,
            )?;
            let value = substitute_params_in_str(
                component_id,
                value.as_str(),
                args,
                total_string_bytes,
                limits,
            )?;
            Ok(Part::SetVar { key, value })
        },
        Part::Fail { message } => {
            let message = substitute_params_in_str(
                component_id,
                message.as_str(),
                args,
                total_string_bytes,
                limits,
            )?;
            Ok(Part::Fail { message })
        },
        Part::UseComponent { id, args: call_args } => {
            let id = substitute_params_in_str(
                component_id,
                id.as_str(),
                args,
                total_string_bytes,
                limits,
            )?;
            let call_args = substitute_params_in_entries(
                component_id,
                call_args,
                args,
                total_string_bytes,
                limits,
            )?;
            Ok(Part::UseComponent { id, args: call_args })
        },
        Part::Defer { part } => {
            let part = substitute_params_in_part(
                component_id,
                part,
                args,
                total_string_bytes,
                limits,
            )?;
            Ok(Part::Defer { part: Box::new(part) })
        },
    }
}

fn substitute_params_in_parts(
    component_id: &str,
    input: &Vec<Part>,
    args: &StrMap<String>,
    total_string_bytes: &mut usize,
    limits: &ExpandLimits,
) -> (r: Result<Vec<Part>, PipelineError>)
    requires
        *old(total_string_bytes) <= limits.max_total_string_bytes,
    ensures
        fills(
            r,
            *final(total_string_bytes),
            limits.max_total_string_bytes,
            fill_parts(
                fill_env(component_id, args, limits),
                input.deep_view(),
                0,
                Seq::empty(),
                *old(total_string_bytes) as nat,
            ),
        ),
{
    let ghost env = fill_env(component_id, args, limits);
    let mut out: Vec<Part> = Vec::new();
    let mut i: usize = 0;
    assert(out.deep_view() =~= Seq::empty());
    while i < input.len()
        invariant
            i <= input.len(),
            env == fill_env(component_id, args, limits),
            *total_string_bytes <= limits.max_total_string_bytes,
            fill_parts(
                env,
                input.deep_view(),
                0,
                Seq::empty(),
                *old(total_string_bytes) as nat,
            ) == fill_parts(
                env,
                input.deep_view(),
                i as int,
                out.deep_view(),
                *total_string_bytes as nat,
            ),
        decreases input.len() - i,
    {
        let ghost before = out.deep_view();
        let t = substitute_params_in_part(
            component_id,
            &input[i],
            args,
            total_string_bytes,
            limits,
        )?;
        out.push(t);
        i = i + 1;
        assert(out.deep_view() =~= before.push(t@));
    }
    Ok(out)
}

fn validate_component_arg(component_id: &str, param: &str, value: &str) -> (r: Result<
    (),
    PipelineError,
>)
    ensures
        r is Ok <==> !contains(value@, "${"@),
        r is Err ==> r->Err_0@ == invalid_arg(component_id@, param@),
{
    if str_contains(value, "${") {
        return Err(
            PipelineError::InvalidComponentArg {
                component_id: component_id.to_owned(),
                param: param.to_owned(),
                message: "component args must be literal strings (no ${...})".to_owned(),
            },
        );
    }
    Ok(())
}

fn build_component_args(
    component_id: &str,
    component: &ComponentV2,
    call_args: &StrMap<String>,
) -> (r: Result<StrMap<String>, PipelineError>)
    ensures
        (match r {
            Ok(args) => Ok(args@),
            Err(e) => Err(e@),
        }) == component_args(component_id@, component@, call_args@),
{
    let mut args: StrMap<String> = StrMap::new();
    let ghost params = component.params.deep_view();
    let mut i: usize = 0;
    while i < component.params.len()
        invariant
            i <= params.len(),
            params == component.params.deep_view(),
            default_args(component_id@, params, 0, Seq::empty()) == default_args(
                component_id@,
                params,
                i as int,
                args@,
            ),
        decreases params.len() - i,
    {
        let param = component.params.key_at(i);
        if let Some(default) = &component.params.value_at(i).default {
            validate_component_arg(component_id, param.as_str(), default.as_str())?;
            args.insert(param.clone(), default.clone());
        }
        i = i + 1;
    }
    let ghost defaults = args@;
    let mut j: usize = 0;
    while j < call_args.len()
        invariant
            j <= call_args@.len(),
            given_args(component_id@, call_args@, 0, defaults) == given_args(
                component_id@,
                call_args@,
                j as int,
                args@,
            ),
            component_args(component_id@, component@, call_args@) == match given_args(
                component_id@,
                call_args@,
                0,
                defaults,
            ) {
                Err(e) => Err(e),
                Ok(args) => match missing_param(component@.params, 0, args) {
                    Some(param) => Err(
                        PipelineErrorView::MissingComponentParam {
                            component_id: component_id@,
                            param,
                        },
                    ),
                    None => Ok(args),
                },
            },
        decreases call_args@.len() - j,
    {
        let param = call_args.key_at(j);
        let value = call_args.value_at(j);
        validate_component_arg(component_id, param.as_str(), value.as_str())?;
        args.insert(param.clone(), value.clone());
        j = j + 1;
    }
    let mut k: usize = 0;
    while k < component.params.len()
        invariant
            k <= params.len(),
            params == component.params.deep_view(),
            missing_param(params, 0, args@) == missing_param(params, k as int, args@),
            component_args(component_id@, component@, call_args@) == match missing_param(
                params,
                0,
                args@,
            ) {
                Some(param) => Err(
                    PipelineErrorView::MissingComponentParam { component_id: component_id@, param },
                ),
                None => Ok(args@),
            },
        decreases params.len() - k,
    {
        let param = component.params.key_at(k);
        if component.params.value_at(k).default.is_none() && !args.contains_key(param.as_str()) {
            return Err(
                PipelineError::MissingComponentParam {
                    component_id: component_id.to_owned(),
                    param: param.clone(),
                },
            );
        }
        k = k + 1;
    }
    Ok(args)
}

/// Whether an outcome is the expected one, with the expected totals.
pub open spec fn expands<T: DeepView>(
    r: Result<T, PipelineError>,
    parts: usize,
    bytes: usize,
    env: ExpandEnv,
    expected: Expanded<T::V>,
) -> bool {
    match expected {
        Ok((v, t)) => {
            &&& r is Ok
            &&& r->Ok_0.deep_view() == v
            &&& parts == t.parts
            &&& bytes == t.bytes
            &&& t.parts <= env.max_parts
            &&& t.bytes <= env.max_bytes
        },
        Err(e) => r is Err && r->Err_0@ == e,
    }
}

fn expand_part(
    part: &Part,
    components: &StrMap<ComponentV2>,
    limits: &ExpandLimits,
    stack: &mut Vec<String>,
    context_component_id: &str,
    depth: usize,
    total_parts: &mut usize,
    total_string_bytes: &mut usize,
) -> (r: Result<Vec<Part>, PipelineError>)
    requires
        depth == old(stack)@.len(),
        depth <= limits.max_depth,
        *old(total_parts) <= limits.max_expanded_parts,
        *old(total_string_bytes) <= limits.max_total_string_bytes,
    ensures
        r is Ok ==> final(stack).deep_view() == old(stack).deep_view(),
        expands(
            r,
            *final(total_parts),
            *final(total_string_bytes),
            expand_env(components@, *limits),
            expand_one(
                expand_env(components@, *limits),
                part@,
                old(stack).deep_view(),
                context_component_id@,
                Totals {
                    parts: *old(total_parts) as nat,
                    bytes: *old(total_string_bytes) as nat,
                },
            ),
        ),
    decreases limits.max_depth + 1 - depth, 0int,
{
    let ghost names = stack.deep_view();
    assert(names.len() == depth);
    proof {
        reveal(expand_one);
    }
    match part {
        Part::UseComponent { id, args } => {
            if list_contains(stack, id.as_str()) {
                let mut cycle = stack.dup();
                cycle.push(id.clone());
                assert(cycle.deep_view() =~= names.push(id@));
                return Err(PipelineError::ComponentCycle(cycle));
            }
            let component = match components.get(id.as_str()) {
                None => {
                    return Err(PipelineError::UnknownComponent(id.clone()));
                },
                Some(c) => c,
            };
            let effective_args = build_component_args(id.as_str(), component, args)?;
            let substituted = substitute_params_in_parts(
                id.as_str(),
                &component.parts,
                &effective_args,
                total_string_bytes,
                limits,
            )?;
            stack.push(id.clone());
            assert(stack.deep_view() =~= names.push(id@));
            assert(stack.len() == depth + 1);
            let ps = expand_parts(
                &substituted,
                components,
                limits,
                stack,
                id.as_str(),
                depth + 1,
                total_parts,
                total_string_bytes,
            )?;
            assert(stack@.len() == stack.deep_view().len());
            let _ = stack.pop();
            assert(stack.deep_view() =~= names.push(id@).drop_last());
            assert(names.push(id@).drop_last() =~= names);
            Ok(ps)
        },
        other => {
            let none: StrMap<String> = StrMap::new();
            let p = substitute_params_in_part(
                context_component_id,
                other,
                &none,
                total_string_bytes,
                limits,
            )?;
            let mut ps: Vec<Part> = Vec::new();
            ps.push(p);
            assert(ps.deep_view() =~= seq![p@]);
            Ok(ps)
        },
    }
}

fn expand_parts(
    parts: &Vec<Part>,
    components: &StrMap<ComponentV2>,
    limits: &ExpandLimits,
    stack: &mut Vec<String>,
    context_component_id: &str,
    depth: usize,
    total_parts: &mut usize,
    total_string_bytes: &mut usize,
) -> (r: Result<Vec<Part>, PipelineError>)
    requires
        depth == old(stack)@.len(),
        depth <= limits.max_depth || depth == limits.max_depth + 1,
        *old(total_parts) <= limits.max_expanded_parts,
        *old(total_string_bytes) <= limits.max_total_string_bytes,
    ensures
        r is Ok ==> final(stack).deep_view() == old(stack).deep_view(),
        depth > limits.max_depth ==> r is Err && r->Err_0@ == too_deep(
            expand_env(components@, *limits),
        ),
        depth <= limits.max_depth ==> expands(
            r,
            *final(total_parts),
            *final(total_string_bytes),
            expand_env(components@, *limits),
            expand_from(
                expand_env(components@, *limits),
                parts.deep_view(),
                0,
                Seq::empty(),
                old(stack).deep_view(),
                context_component_id@,
                Totals {
                    parts: *old(total_parts) as nat,
                    bytes: *old(total_string_bytes) as nat,
                },
            ),
        ),
    decreases limits.max_depth + 1 - depth, 1int,
{
    if depth > limits.max_depth {
        let max = decimal_string(limits.max_depth as u64);
        return Err(PipelineError::ExpandLimitsExceeded(cat2("max_depth=", max.as_str())));
    }
    let ghost env = expand_env(components@, *limits);
    let ghost names = stack.deep_view();
    let ghost owner = context_component_id@;
    let ghost start = Totals {
        parts: *old(total_parts) as nat,
        bytes: *old(total_string_bytes) as nat,
    };
    let mut out: Vec<Part> = Vec::new();
    let mut i: usize = 0;
    assert(out.deep_view() =~= Seq::empty());
    while i < parts.len()
        invariant
            i <= parts.len(),
            depth <= limits.max_depth,
            stack@.len() == depth,
            stack.deep_view() == names,
            names == old(stack).deep_view(),
            names.len() == depth,
            start == (Totals {
                parts: *old(total_parts) as nat,
                bytes: *old(total_string_bytes) as nat,
            }),
            owner == context_component_id@,
            env == expand_env(components@, *limits),
            *total_parts <= limits.max_expanded_parts,
            *total_string_bytes <= limits.max_total_string_bytes,
            expand_from(env, parts.deep_view(), 0, Seq::empty(), names, owner, start)
                == expand_from(
                env,
                parts.deep_view(),
                i as int,
                out.deep_view(),
                names,
                owner,
                Totals { parts: *total_parts as nat, bytes: *total_string_bytes as nat },
            ),
        decreases parts.len() - i,
    {
        let ghost before = out.deep_view();
        let ghost t = Totals { parts: *total_parts as nat, bytes: *total_string_bytes as nat };
        assert(parts.deep_view()[i as int] == parts[i as int]@);
        proof {
            expand_from_step(env, parts.deep_view(), i as int, before, names, owner, t);
        }
        let mut ps = match expand_part(
            &parts[i],
            components,
            limits,
            stack,
            context_component_id,
            depth,
            total_parts,
            total_string_bytes,
        ) {
            Err(e) => {
                return Err(e);
            },
            Ok(ps) => ps,
        };
        let ghost produced = ps.deep_view();
        out.append(&mut ps);
        assert(out.deep_view() =~= before + produced);
        i = i + 1;
        if *total_parts >= limits.max_expanded_parts {
            let max = decimal_string(limits.max_expanded_parts as u64);
            return Err(
                PipelineError::ExpandLimitsExceeded(cat2("max_expanded_parts=", max.as_str())),
            );
        }
        *total_parts = *total_parts + 1;
    }
    Ok(out)
}

/// Expands every use of a component in a pipeline.
pub fn expand_pipeline(
    pipeline: &Pipeline,
    components: &StrMap<ComponentV2>,
    limits: ExpandLimits,
) -> (r: Result<Pipeline, PipelineError>)
    ensures
        (match r {
            Ok(p) => Ok(p@),
            Err(e) => Err(e@),
        }) == expanded_pipeline(pipeline@, components@, limits),
{
    let ghost env = expand_env(components@, limits);
    let ghost s = pipeline.workflows.deep_view();
    let mut total_parts: usize = 0;
    let mut total_string_bytes: usize = 0;
    let mut stack: Vec<String> = Vec::new();
    let mut workflows: StrMap<Workflow> = StrMap::new();
    pipeline.workflows.order();
    let mut i: usize = 0;
    assert(stack.deep_view() =~= Seq::empty());
    while i < pipeline.workflows.len()
        invariant
            i <= s.len(),
            s == pipeline.workflows.deep_view(),
            sorted(s),
            env == expand_env(components@, limits),
            stack.deep_view() == Seq::<Seq<char>>::empty(),
            total_parts <= limits.max_expanded_parts,
            total_string_bytes <= limits.max_total_string_bytes,
            workflows@.len() == i,
            forall|k: int| 0 <= k < i ==> (#[trigger] workflows@[k]).0 == s[k].0,
            expand_workflows(env, s, 0, Seq::empty(), Totals { parts: 0, bytes: 0 })
                == expand_workflows(
                env,
                s,
                i as int,
                workflows@,
                Totals { parts: total_parts as nat, bytes: total_string_bytes as nat },
            ),
        decreases s.len() - i,
    {
        let workflow = pipeline.workflows.value_at(i);
        assert(stack@.len() == stack.deep_view().len());
        let parts = expand_parts(
            &workflow.parts,
            components,
            &limits,
            &mut stack,
            "<pipeline>",
            0,
            &mut total_parts,
            &mut total_string_bytes,
        )?;
        let id = pipeline.workflows.key_at(i).clone();
        let expanded = Workflow { parts, finally_workflow: workflow.finally_workflow.dup() };
        proof {
            assert forall|k: int| 0 <= k < workflows@.len() implies lex_lt(
                #[trigger] workflows@[k].0,
                id@,
            ) by {
                assert(lex_lt(s[k].0, s[i as int].0));
            }
            put_last(workflows@, id@, expanded@);
        }
        workflows.insert(id, expanded);
        i = i + 1;
    }
    Ok(Pipeline { workflows, entry: pipeline.entry.clone() })
}

/// Whether none of the parts uses a component.
pub open spec fn component_free(parts: Seq<PartView>) -> bool {
    forall|i: int| 0 <= i < parts.len() ==> !(#[trigger] parts[i] is UseComponent)
}

proof fn expand_from_component_free(
    env: ExpandEnv,
    parts: Seq<PartView>,
    i: int,
    acc: Seq<PartView>,
    stack: Seq<Seq<char>>,
    owner: Seq<char>,
    t: Totals,
)
    requires
        stack.len() <= env.max_depth,
        0 <= i,
        component_free(acc),
    ensures
        expand_from(env, parts, i, acc, stack, owner, t) matches Ok((ps, t2)) ==> {
            &&& component_free(ps)
            &&& ps.len() - acc.len() <= t2.parts - t.parts
            &&& t.parts <= t2.parts
            &&& t.parts <= env.max_parts ==> t2.parts <= env.max_parts
        },
    decreases env.max_depth + 1 - stack.len(), parts.len() - i, 1int,
{
    if i < parts.len() {
        expand_from_step(env, parts, i, acc, stack, owner, t);
        expand_one_component_free(env, parts[i], stack, owner, t);
        if let Ok((ps, t2)) = expand_one(env, parts[i], stack, owner, t) {
            if t2.parts + 1 <= env.max_parts {
                let t3 = Totals { parts: t2.parts + 1, bytes: t2.bytes };
                expand_from_component_free(env, parts, i + 1, acc + ps, stack, owner, t3);
            }
        }
    }
}

proof fn expand_one_component_free(
    env: ExpandEnv,
    part: PartView,
    stack: Seq<Seq<char>>,
    owner: Seq<char>,
    t: Totals,
)
    requires
        stack.len() <= env.max_depth,
    ensures
        expand_one(env, part, stack, owner, t) matches Ok((ps, t2)) ==> {
            &&& component_free(ps)
            &&& ps.len() <= t2.parts - t.parts + 1
            &&& t.parts <= t2.parts
        },
    decreases env.max_depth + 1 - stack.len(), 0int, 0int,
{
    reveal(expand_one);
    if let PartView::UseComponent { id, args } = part {
        if !stack.contains(id) && lookup(env.components, id) is Some {
            let component = lookup(env.components, id)->0;
            if let Ok(args) = component_args(id, component, args) {
                let fe = FillEnv { component: id, args, max: env.max_bytes };
                if let Ok((filled, bytes)) = fill_parts(
                    fe,
                    component.parts,
                    0,
                    Seq::empty(),
                    t.bytes,
                ) {
                    if stack.len() + 1 <= env.max_depth {
                        expand_from_component_free(
                            env,
                            filled,
                            0,
                            Seq::empty(),
                            stack.push(id),
                            id,
                            Totals { parts: t.parts, bytes },
                        );
                    }
                }
            }
        }
    }
}

/// The parts of all workflows together.
pub open spec fn part_count(s: Seq<(Seq<char>, WorkflowView)>) -> nat
    decreases s.len(),
{
    if s.len() == 0 {
        0
    } else {
        part_count(s.drop_last()) + s.last().1.parts.len()
    }
}

proof fn expand_workflows_laws(
    env: ExpandEnv,
    s: Seq<(Seq<char>, WorkflowView)>,
    i: int,
    acc: Seq<(Seq<char>, WorkflowView)>,
    t: Totals,
)
    requires
        0 <= i <= s.len(),
        acc.len() == i,
        t.parts <= env.max_parts,
        part_count(acc) <= t.parts,
        forall|k: int|
            0 <= k < i ==> {
                &&& component_free((#[trigger] acc[k]).1.parts)
                &&& acc[k].0 == s[k].0
                &&& acc[k].1.finally_workflow == s[k].1.finally_workflow
            },
    ensures
        expand_workflows(env, s, i, acc, t) matches Ok((ws, t2)) ==> {
            &&& ws.len() == s.len()
            &&& part_count(ws) <= env.max_parts
            &&& forall|k: int|
                0 <= k < ws.len() ==> {
                    &&& component_free((#[trigger] ws[k]).1.parts)
                    &&& ws[k].0 == s[k].0
                    &&& ws[k].1.finally_workflow == s[k].1.finally_workflow
                }
        },
    decreases s.len() - i,
{
    if i < s.len() {
        let owner = "<pipeline>"@;
        expand_from_component_free(env, s[i].1.parts, 0, Seq::empty(), Seq::empty(), owner, t);
        if let Ok((parts, t2)) = expand_from(
            env,
            s[i].1.parts,
            0,
            Seq::empty(),
            Seq::empty(),
            owner,
            t,
        ) {
            let e = (s[i].0, WorkflowView { parts, finally_workflow: s[i].1.finally_workflow });
            assert(acc.push(e).drop_last() =~= acc);
            expand_workflows_laws(env, s, i + 1, acc.push(e), t2);
        }
    }
}

/// An expanded pipeline has the workflows of the pipeline it comes from, under the
/// same names, in the same order and with the same clean-up; no part of it uses a
/// component any more; and it has no more parts than the limit allows.
pub proof fn expansion_is_complete_and_bounded(
    pipeline: PipelineView,
    components: Seq<(Seq<char>, ComponentV2View)>,
    limits: ExpandLimits,
)
    ensures
        expanded_pipeline(pipeline, components, limits) matches Ok(p) ==> {
            &&& p.entry == pipeline.entry
            &&& p.workflows.len() == pipeline.workflows.len()
            &&& part_count(p.workflows) <= limits.max_expanded_parts
            &&& forall|k: int|
                0 <= k < p.workflows.len() ==> {
                    &&& component_free((#[trigger] p.workflows[k]).1.parts)
                    &&& p.workflows[k].0 == pipeline.workflows[k].0
                    &&& p.workflows[k].1.finally_workflow
                        == pipeline.workflows[k].1.finally_workflow
                }
        },
{
    expand_workflows_laws(
        expand_env(components, limits),
        pipeline.workflows,
        0,
        Seq::empty(),
        Totals { parts: 0, bytes: 0 },
    );
}

/// Whether no text of a part refers to a parameter. Texts that are never filled in
/// are left out of account.
pub open spec fn param_free(part: PartView) -> bool {
    forall|env: FillEnv, used: nat| #[trigger] fill_part(env, part, used) == Ok::<
        (PartView, nat),
        PipelineErrorView,
    >((part, used))
}

proof fn expand_plain_from(
    env: ExpandEnv,
    parts: Seq<PartView>,
    i: int,
    owner: Seq<char>,
    t: Totals,
)
    requires
        0 <= i <= parts.len(),
        component_free(parts),
        forall|k: int| 0 <= k < parts.len() ==> param_free(#[trigger] parts[k]),
        t.parts + parts.len() - i <= env.max_parts,
    ensures
        expand_from(env, parts, i, parts.subrange(0, i), Seq::empty(), owner, t) == Ok::<
            (Seq<PartView>, Totals),
            PipelineErrorView,
        >((parts, Totals { parts: (t.parts + parts.len() - i) as nat, bytes: t.bytes })),
    decreases parts.len() - i,
{
    if i < parts.len() {
        expand_from_step(env, parts, i, parts.subrange(0, i), Seq::empty(), owner, t);
        assert(!(parts[i] is UseComponent));
        assert(param_free(parts[i]));
        assert(expand_one(env, parts[i], Seq::empty(), owner, t) == Ok::<
            (Seq<PartView>, Totals),
            PipelineErrorView,
        >((seq![parts[i]], t))) by {
            reveal(expand_one);
            let fe = FillEnv { component: owner, args: Seq::empty(), max: env.max_bytes };
            assert(fill_part(fe, parts[i], t.bytes) == Ok::<(PartView, nat), PipelineErrorView>(
                (parts[i], t.bytes),
            ));
        }
        assert(parts.subrange(0, i) + seq![parts[i]] =~= parts.subrange(0, i + 1));
        expand_plain_from(
            env,
            parts,
            i + 1,
            owner,
            Totals { parts: t.parts + 1, bytes: t.bytes },
        );
    } else {
        assert(parts.subrange(0, i) =~= parts);
    }
}

proof fn expand_plain_workflows(
    env: ExpandEnv,
    s: Seq<(Seq<char>, WorkflowView)>,
    i: int,
    t: Totals,
)
    requires
        0 <= i <= s.len(),
        forall|k: int| 0 <= k < s.len() ==> component_free((#[trigger] s[k]).1.parts),
        forall|k: int, j: int|
            0 <= k < s.len() && 0 <= j < s[k].1.parts.len() ==> param_free(
                #[trigger] s[k].1.parts[j],
            ),
        t.parts == part_count(s.subrange(0, i)),
        part_count(s) <= env.max_parts,
    ensures
        expand_workflows(env, s, i, s.subrange(0, i), t) matches Ok((ws, _)) && ws == s,
    decreases s.len() - i,
{
    if i < s.len() {
        let owner = "<pipeline>"@;
        let parts = s[i].1.parts;
        let next = s.subrange(0, i + 1);
        assert(next.drop_last() =~= s.subrange(0, i));
        part_count_prefix(s, i + 1);
        assert(parts.subrange(0, 0) =~= Seq::empty());
        expand_plain_from(env, parts, 0, owner, t);
        let t2 = Totals { parts: t.parts + parts.len(), bytes: t.bytes };
        assert(s.subrange(0, i).push(
            (s[i].0, WorkflowView { parts, finally_workflow: s[i].1.finally_workflow }),
        ) =~= next);
        expand_plain_workflows(env, s, i + 1, t2);
    } else {
        assert(s.subrange(0, i) =~= s);
    }
}

proof fn part_count_prefix(s: Seq<(Seq<char>, WorkflowView)>, i: int)
    requires
        0 <= i <= s.len(),
    ensures
        part_count(s.subrange(0, i)) <= part_count(s),
    decreases s.len(),
{
    if i < s.len() {
        assert(s.subrange(0, i) =~= s.drop_last().subrange(0, i));
        part_count_prefix(s.drop_last(), i);
    } else {
        assert(s.subrange(0, i) =~= s);
    }
}

/// A pipeline that uses no components and no parameters, and has no more parts
/// than the limit allows, expands to itself.
pub proof fn plain_pipeline_expands_to_itself(
    pipeline: PipelineView,
    components: Seq<(Seq<char>, ComponentV2View)>,
    limits: ExpandLimits,
)
    requires
        forall|k: int|
            0 <= k < pipeline.workflows.len() ==> component_free(
                (#[trigger] pipeline.workflows[k]).1.parts,
            ),
        forall|k: int, j: int|
            0 <= k < pipeline.workflows.len() && 0 <= j < pipeline.workflows[k].1.parts.len()
                ==> param_free(#[trigger] pipeline.workflows[k].1.parts[j]),
        part_count(pipeline.workflows) <= limits.max_expanded_parts,
    ensures
        expanded_pipeline(pipeline, components, limits) == Ok::<PipelineView, PipelineErrorView>(
            pipeline,
        ),
{
    let s = pipeline.workflows;
    assert(s.subrange(0, 0) =~= Seq::empty());
    expand_plain_workflows(
        expand_env(components, limits),
        s,
        0,
        Totals { parts: 0, bytes: 0 },
    );
}

/// A part that uses a component which is already being expanded is refused, with
/// the chain of components that leads back to it.
pub proof fn component_cycle_is_refused(
    env: ExpandEnv,
    parts: Seq<PartView>,
    i: int,
    acc: Seq<PartView>,
    stack: Seq<Seq<char>>,
    owner: Seq<char>,
    t: Totals,
)
    requires
        stack.len() <= env.max_depth,
        0 <= i < parts.len(),
        parts[i] is UseComponent,
        stack.contains(parts[i]->UseComponent_id),
    ensures
        expand_from(env, parts, i, acc, stack, owner, t) == Err::<
            (Seq<PartView>, Totals),
            PipelineErrorView,
        >(PipelineErrorView::ComponentCycle(stack.push(parts[i]->UseComponent_id))),
{
    expand_from_step(env, parts, i, acc, stack, owner, t);
    reveal(expand_one);
}

/// Whether all values are literal texts.
pub open spec fn literal(args: Args) -> bool {
    forall|i: int| 0 <= i < args.len() ==> !contains(#[trigger] args[i].1, "${"@)
}

proof fn put_stays_literal(args: Args, k: Seq<char>, v: Seq<char>)
    requires
        literal(args),
        !contains(v, "${"@),
    ensures
        literal(put(args, k, v)),
{
    let p = rank(args, k);
    rank_bounds(args, k);
    let t = put(args, k, v);
    assert forall|i: int| 0 <= i < t.len() implies !contains(#[trigger] t[i].1, "${"@) by {
        if p < args.len() && args[p].0 == k {
            if i != p {
                assert(t[i] == args[i]);
            }
        } else if i < p {
            assert(t[i] == args[i]);
        } else if i > p {
            assert(t[i] == args[i - 1]);
        }
    }
}

proof fn defaults_stay_literal(
    id: Seq<char>,
    params: Seq<(Seq<char>, ParamSpecV2View)>,
    i: int,
    acc: Args,
)
    requires
        literal(acc),
    ensures
        default_args(id, params, i, acc) matches Ok(a) ==> literal(a),
    decreases params.len() - i,
{
    if 0 <= i < params.len() {
        match params[i].1.default {
            None => {
                defaults_stay_literal(id, params, i + 1, acc);
            },
            Some(d) => {
                if !contains(d, "${"@) {
                    put_stays_literal(acc, params[i].0, d);
                    defaults_stay_literal(id, params, i + 1, put(acc, params[i].0, d));
                }
            },
        }
    }
}

proof fn given_stay_literal(id: Seq<char>, call: Args, i: int, acc: Args)
    requires
        literal(acc),
    ensures
        given_args(id, call, i, acc) matches Ok(a) ==> literal(a),
    decreases call.len() - i,
{
    if 0 <= i < call.len() && !contains(call[i].1, "${"@) {
        put_stays_literal(acc, call[i].0, call[i].1);
        given_stay_literal(id, call, i + 1, put(acc, call[i].0, call[i].1));
    }
}

/// What a component is used with is literal: no argument that is accepted, and no default,
/// brings in a placeholder.
pub proof fn accepted_arguments_are_literal(id: Seq<char>, component: ComponentV2View, call: Args)
    ensures
        component_args(id, component, call) matches Ok(a) ==> literal(a),
{
    let none: Args = Seq::empty();
    defaults_stay_literal(id, component.params, 0, none);
    if let Ok(d) = default_args(id, component.params, 0, none) {
        given_stay_literal(id, call, 0, d);
    }
}

/// Whether a text refers to no parameter.
pub open spec fn plain(s: Seq<char>) -> bool {
    !contains(s, "${param."@)
}

/// Whether none of the texts refers to a parameter.
pub open spec fn all_plain(s: Seq<Seq<char>>) -> bool {
    forall|k: int| 0 <= k < s.len() ==> plain(#[trigger] s[k])
}

proof fn filled_without_args(env: FillEnv, s: Seq<char>, i: int, out: Seq<char>, j: int)
    requires
        env.args.len() == 0,
        0 <= i <= j < s.len(),
        starts_at(s, j, "${param."@),
    ensures
        filled_from(env, s, i, out) is Err,
    decreases j - i,
{
    if !starts_at(s, i, "${param."@) {
        filled_without_args(env, s, i + 1, out.push(s[i]), j);
    }
}

proof fn str_without_args(env: FillEnv, s: Seq<char>, used: nat)
    requires
        env.args.len() == 0,
        fill_str(env, s, used) is Ok,
    ensures
        plain(s),
        fill_str(env, s, used) == Ok::<(Seq<char>, nat), PipelineErrorView>((s, used)),
{
    if !plain(s) {
        reveal_strlit("${param.");
        let j = choose|j: int| 0 <= j <= s.len() && starts_at(s, j, "${param."@);
        filled_without_args(env, s, 0, Seq::empty(), j);
    }
}

proof fn seq_without_args(
    env: FillEnv,
    s: Seq<Seq<char>>,
    i: int,
    acc: Seq<Seq<char>>,
    used: nat,
)
    requires
        env.args.len() == 0,
        0 <= i <= s.len(),
        fill_seq(env, s, i, acc, used) is Ok,
    ensures
        all_plain(s.subrange(i, s.len() as int)),
        fill_seq(env, s, i, acc, used) == Ok::<(Seq<Seq<char>>, nat), PipelineErrorView>(
            (acc + s.subrange(i, s.len() as int), used),
        ),
    decreases s.len() - i,
{
    let below = s.subrange(i, s.len() as int);
    if i < s.len() {
        str_without_args(env, s[i], used);
        seq_without_args(env, s, i + 1, acc.push(s[i]), used);
        let next = s.subrange(i + 1, s.len() as int);
        assert(acc.push(s[i]) + next =~= acc + below);
        assert forall|k: int| 0 <= k < below.len() implies plain(#[trigger] below[k]) by {
            if k > 0 {
                assert(below[k] == next[k - 1]);
            }
        }
    } else {
        assert(acc + below =~= acc);
    }
}

proof fn all_without_args(env: FillEnv, s: Seq<Seq<char>>, used: nat)
    requires
        env.args.len() == 0,
        fill_seq(env, s, 0, Seq::empty(), used) is Ok,
    ensures
        all_plain(s),
        fill_seq(env, s, 0, Seq::empty(), used) == Ok::<(Seq<Seq<char>>, nat), PipelineErrorView>(
            (s, used),
        ),
{
    seq_without_args(env, s, 0, Seq::empty(), used);
    assert(s.subrange(0, s.len() as int) =~= s);
    assert(Seq::<Seq<char>>::empty() + s =~= s);
}

proof fn plain_seq_stays(env: FillEnv, s: Seq<Seq<char>>, i: int, used: nat)
    requires
        all_plain(s),
        0 <= i <= s.len(),
    ensures
        fill_seq(env, s, i, s.subrange(0, i), used) == Ok::<
            (Seq<Seq<char>>, nat),
            PipelineErrorView,
        >((s, used)),
    decreases s.len() - i,
{
    if i < s.len() {
        assert(plain(s[i]));
        assert(s.subrange(0, i).push(s[i]) =~= s.subrange(0, i + 1));
        plain_seq_stays(env, s, i + 1, used);
    } else {
        assert(s.subrange(0, i) =~= s);
    }
}

proof fn plain_list_stays(env: FillEnv, s: Seq<Seq<char>>, used: nat)
    requires
        all_plain(s),
    ensures
        fill_seq(env, s, 0, Seq::empty(), used) == Ok::<(Seq<Seq<char>>, nat), PipelineErrorView>(
            (s, used),
        ),
{
    assert(s.subrange(0, 0) =~= Seq::empty());
    plain_seq_stays(env, s, 0, used);
}

/// Whether no name and no value refers to a parameter.
pub open spec fn plain_entries(s: Args) -> bool {
    forall|k: int| 0 <= k < s.len() ==> plain((#[trigger] s[k]).0) && plain(s[k].1)
}

proof fn put_stays_plain(args: Args, k: Seq<char>, v: Seq<char>)
    requires
        plain_entries(args),
        plain(k),
        plain(v),
    ensures
        plain_entries(put(args, k, v)),
{
    let p = rank(args, k);
    rank_bounds(args, k);
    let t = put(args, k, v);
    assert forall|i: int| 0 <= i < t.len() implies plain((#[trigger] t[i]).0) && plain(
        t[i].1,
    ) by {
        if p < args.len() && args[p].0 == k {
            if i != p {
                assert(t[i] == args[i]);
            }
        } else if i < p {
            assert(t[i] == args[i]);
        } else if i > p {
            assert(t[i] == args[i - 1]);
        }
    }
}

proof fn entries_without_args(env: FillEnv, s: Args, i: int, acc: Args, used: nat)
    requires
        env.args.len() == 0,
        0 <= i,
        sorted(acc),
        plain_entries(acc),
    ensures
        fill_entries(env, s, i, acc, used) matches Ok((a, u)) ==> sorted(a) && plain_entries(a)
            && u == used,
    decreases s.len() - i,
{
    if i < s.len() {
        if let Ok((k, u)) = fill_str(env, s[i].0, used) {
            str_without_args(env, s[i].0, used);
            if let Ok((v, u2)) = fill_str(env, s[i].1, u) {
                str_without_args(env, s[i].1, u);
                put_sorted(acc, k, v);
                put_stays_plain(acc, k, v);
                entries_without_args(env, s, i + 1, put(acc, k, v), u2);
            }
        }
    }
}

proof fn plain_entries_stay(env: FillEnv, s: Args, i: int, used: nat)
    requires
        plain_entries(s),
        sorted(s),
        0 <= i <= s.len(),
    ensures
        fill_entries(env, s, i, s.subrange(0, i), used) == Ok::<(Args, nat), PipelineErrorView>(
            (s, used),
        ),
    decreases s.len() - i,
{
    let acc = s.subrange(0, i);
    if i < s.len() {
        assert(plain(s[i].0) && plain(s[i].1));
        assert forall|k: int| 0 <= k < acc.len() implies lex_lt(#[trigger] acc[k].0, s[i].0) by {
            assert(lex_lt(s[k].0, s[i].0));
        }
        put_last(acc, s[i].0, s[i].1);
        assert(acc.push((s[i].0, s[i].1)) =~= s.subrange(0, i + 1));
        plain_entries_stay(env, s, i + 1, used);
    } else {
        assert(acc =~= s);
    }
}

proof fn opt_without_args(env: FillEnv, o: Option<Seq<char>>, used: nat)
    requires
        env.args.len() == 0,
        fill_opt(env, o, used) is Ok,
    ensures
        o matches Some(s) ==> plain(s),
        fill_opt(env, o, used) == Ok::<(Option<Seq<char>>, nat), PipelineErrorView>((o, used)),
{
    if let Some(s) = o {
        str_without_args(env, s, used);
    }
}

proof fn opt_seq_without_args(env: FillEnv, o: Option<Seq<Seq<char>>>, used: nat)
    requires
        env.args.len() == 0,
        fill_opt_seq(env, o, used) is Ok,
    ensures
        o matches Some(s) ==> all_plain(s),
        fill_opt_seq(env, o, used) == Ok::<(Option<Seq<Seq<char>>>, nat), PipelineErrorView>(
            (o, used),
        ),
{
    if let Some(s) = o {
        all_without_args(env, s, used);
    }
}

proof fn tool_part_without_args(env: FillEnv, c: ToolCallView, used: nat)
    requires
        env.args.len() == 0,
    ensures
        fill_part(env, PartView::RunTool { tool_call: c }, used) matches Ok((p, u)) ==> param_free(p)
            && p is RunTool && u == used,
{
    let part = PartView::RunTool { tool_call: c };
    if let ToolInputView::LocalShell { command, workdir } = c.input {
        if fill_part(env, part, used) is Ok {
            all_without_args(env, command, used);
            opt_without_args(env, workdir, used);
            assert forall|e: FillEnv, n: nat| #[trigger] fill_part(e, part, n) == Ok::<
                (PartView, nat),
                PipelineErrorView,
            >((part, n)) by {
                plain_list_stays(e, command, n);
                assert(fill_tool_call(e, c, n) == Ok::<(ToolCallView, nat), PipelineErrorView>(
                    (c, n),
                ));
            }
        }
    } else {
        assert(param_free(part));
    }
}

proof fn command_part_without_args(env: FillEnv, part: PartView, used: nat)
    requires
        env.args.len() == 0,
        part is RunCommand,
    ensures
        fill_part(env, part, used) matches Ok((p, u)) ==> param_free(p) && p is RunCommand && u
            == used,
{
    if let PartView::RunCommand { cwd, argv, command_id, timeout_ms, child_process_policy } = part {
        if fill_part(env, part, used) is Ok {
            opt_without_args(env, cwd, used);
            opt_seq_without_args(env, argv, used);
            assert forall|e: FillEnv, n: nat| #[trigger] fill_part(e, part, n) == Ok::<
                (PartView, nat),
                PipelineErrorView,
            >((part, n)) by {
                if let Some(s) = argv {
                    plain_list_stays(e, s, n);
                }
            }
        }
    }
}

proof fn approval_part_without_args(env: FillEnv, part: PartView, used: nat)
    requires
        env.args.len() == 0,
        part is RequireApproval,
    ensures
        fill_part(env, part, used) matches Ok((p, u)) ==> param_free(p) && p is RequireApproval && u
            == used,
{
    if let PartView::RequireApproval { prompt, remediation, .. } = part {
        if fill_part(env, part, used) is Ok {
            str_without_args(env, prompt, used);
            all_without_args(env, remediation, used);
            assert forall|e: FillEnv, n: nat| #[trigger] fill_part(e, part, n) == Ok::<
                (PartView, nat),
                PipelineErrorView,
            >((part, n)) by {
                plain_list_stays(e, remediation, n);
            }
        }
    }
}

proof fn extract_part_without_args(env: FillEnv, part: PartView, used: nat)
    requires
        env.args.len() == 0,
        part is ExtractValue,
    ensures
        fill_part(env, part, used) matches Ok((p, u)) ==> param_free(p) && p is ExtractValue && u
            == used,
{
    if let PartView::ExtractValue { parser, output_key, .. } = part {
        if fill_part(env, part, used) is Ok {
            match parser {
                ExtractParserView::JsonPath { json_path } => {
                    str_without_args(env, json_path, used);
                },
                ExtractParserView::Regex { pattern, group } => {
                    str_without_args(env, pattern, used);
                },
            }
            str_without_args(env, output_key, used);
            assert forall|e: FillEnv, n: nat| #[trigger] fill_part(e, part, n) == Ok::<
                (PartView, nat),
                PipelineErrorView,
            >((part, n)) by {
                assert(fill_parser(e, parser, n) == Ok::<
                    (ExtractParserView, nat),
                    PipelineErrorView,
                >((parser, n)));
            }
        }
    }
}

proof fn worktree_part_without_args(env: FillEnv, part: PartView, used: nat)
    requires
        env.args.len() == 0,
        part is EnsureWorktree,
    ensures
        fill_part(env, part, used) matches Ok((p, u)) ==> param_free(p) && p is EnsureWorktree && u
            == used,
{
    if let PartView::EnsureWorktree { worktree_root, naming, branch_name, .. } = part {
        if fill_part(env, part, used) is Ok {
            str_without_args(env, worktree_root, used);
            str_without_args(env, naming, used);
            str_without_args(env, branch_name, used);
            assert(param_free(part));
        }
    }
}

proof fn branch_part_without_args(env: FillEnv, part: PartView, used: nat)
    requires
        env.args.len() == 0,
        part is EnsureBranch,
    ensures
        fill_part(env, part, used) matches Ok((p, u)) ==> param_free(p) && p is EnsureBranch && u
            == used,
{
    if let PartView::EnsureBranch { branch_name, protected_branches, .. } = part {
        if fill_part(env, part, used) is Ok {
            str_without_args(env, branch_name, used);
            all_without_args(env, protected_branches, used);
            assert forall|e: FillEnv, n: nat| #[trigger] fill_part(e, part, n) == Ok::<
                (PartView, nat),
                PipelineErrorView,
            >((part, n)) by {
                plain_list_stays(e, protected_branches, n);
            }
        }
    }
}

proof fn use_part_without_args(env: FillEnv, id: Seq<char>, args: Args, used: nat)
    requires
        env.args.len() == 0,
    ensures
        fill_part(env, PartView::UseComponent { id, args }, used) matches Ok((p, u)) ==> param_free(
            p,
        ) && u == used,
{
    let part = PartView::UseComponent { id, args };
    if let Ok((p, u)) = fill_part(env, part, used) {
        str_without_args(env, id, used);
        entries_without_args(env, args, 0, Seq::empty(), used);
        let a = p->UseComponent_args;
        assert forall|e: FillEnv, n: nat| #[trigger] fill_part(e, p, n) == Ok::<
            (PartView, nat),
            PipelineErrorView,
        >((p, n)) by {
            assert(a.subrange(0, 0) =~= Seq::empty());
            plain_entries_stay(e, a, 0, n);
        }
    }
}

/// What is filled in without arguments refers to no parameter.
proof fn part_without_args(env: FillEnv, part: PartView, used: nat)
    requires
        env.args.len() == 0,
    ensures
        fill_part(env, part, used) matches Ok((p, u)) ==> param_free(p) && u == used && (
        !(part is UseComponent) ==> !(p is UseComponent)),
    decreases part,
{
    match part {
        PartView::RunTool { tool_call } => {
            tool_part_without_args(env, tool_call, used);
        },
        PartView::RunCommand { .. } => {
            command_part_without_args(env, part, used);
        },
        PartView::RequireApproval { .. } => {
            approval_part_without_args(env, part, used);
        },
        PartView::ExtractValue { .. } => {
            extract_part_without_args(env, part, used);
        },
        PartView::AssertFact { key, equals, matches_regex } => {
            if fill_part(env, part, used) is Ok {
                str_without_args(env, key, used);
                opt_without_args(env, equals, used);
                opt_without_args(env, matches_regex, used);
                assert(param_free(part));
            }
        },
        PartView::EnsureWorktree { .. } => {
            worktree_part_without_args(env, part, used);
        },
        PartView::EnsureBranch { .. } => {
            branch_part_without_args(env, part, used);
        },
        PartView::SetVar { key, value } => {
            if fill_part(env, part, used) is Ok {
                str_without_args(env, key, used);
                str_without_args(env, value, used);
                assert(param_free(part));
            }
        },
        PartView::Fail { message } => {
            if fill_part(env, part, used) is Ok {
                str_without_args(env, message, used);
                assert(param_free(part));
            }
        },
        PartView::Defer { part: inner } => {
            part_without_args(env, *inner, used);
            if let Ok((q, u)) = fill_part(env, *inner, used) {
                let p = PartView::Defer { part: Box::new(q) };
                assert forall|e: FillEnv, n: nat| #[trigger] fill_part(e, p, n) == Ok::<
                    (PartView, nat),
                    PipelineErrorView,
                >((p, n)) by {
                    assert(fill_part(e, q, n) == Ok::<(PartView, nat), PipelineErrorView>((q, n)));
                }
            }
        },
        PartView::UseComponent { id, args } => {
            use_part_without_args(env, id, args, used);
        },
    }
}

/// Whether no part refers to a parameter.
pub open spec fn all_param_free(parts: Seq<PartView>) -> bool {
    forall|k: int| 0 <= k < parts.len() ==> param_free(#[trigger] parts[k])
}

proof fn expand_from_param_free(
    env: ExpandEnv,
    parts: Seq<PartView>,
    i: int,
    acc: Seq<PartView>,
    stack: Seq<Seq<char>>,
    owner: Seq<char>,
    t: Totals,
)
    requires
        stack.len() <= env.max_depth,
        0 <= i,
        all_param_free(acc),
    ensures
        expand_from(env, parts, i, acc, stack, owner, t) matches Ok((ps, _)) ==> all_param_free(ps),
    decreases env.max_depth + 1 - stack.len(), parts.len() - i, 1int,
{
    if i < parts.len() {
        expand_from_step(env, parts, i, acc, stack, owner, t);
        expand_one_param_free(env, parts[i], stack, owner, t);
        if let Ok((ps, t2)) = expand_one(env, parts[i], stack, owner, t) {
            if t2.parts + 1 <= env.max_parts {
                let t3 = Totals { parts: t2.parts + 1, bytes: t2.bytes };
                assert forall|k: int| 0 <= k < (acc + ps).len() implies param_free(
                    #[trigger] (acc + ps)[k],
                ) by {
                    if k < acc.len() {
                        assert((acc + ps)[k] == acc[k]);
                    } else {
                        assert((acc + ps)[k] == ps[k - acc.len()]);
                    }
                }
                expand_from_param_free(env, parts, i + 1, acc + ps, stack, owner, t3);
            }
        }
    }
}

proof fn expand_one_param_free(
    env: ExpandEnv,
    part: PartView,
    stack: Seq<Seq<char>>,
    owner: Seq<char>,
    t: Totals,
)
    requires
        stack.len() <= env.max_depth,
    ensures
        expand_one(env, part, stack, owner, t) matches Ok((ps, _)) ==> all_param_free(ps),
    decreases env.max_depth + 1 - stack.len(), 0int, 0int,
{
    reveal(expand_one);
    if let PartView::UseComponent { id, args } = part {
        if !stack.contains(id) && lookup(env.components, id) is Some {
            let component = lookup(env.components, id)->0;
            if let Ok(args) = component_args(id, component, args) {
                let fe = FillEnv { component: id, args, max: env.max_bytes };
                if let Ok((filled, bytes)) = fill_parts(
                    fe,
                    component.parts,
                    0,
                    Seq::empty(),
                    t.bytes,
                ) {
                    if stack.len() + 1 <= env.max_depth {
                        expand_from_param_free(
                            env,
                            filled,
                            0,
                            Seq::empty(),
                            stack.push(id),
                            id,
                            Totals { parts: t.parts, bytes },
                        );
                    }
                }
            }
        }
    } else {
        part_without_args(
            FillEnv { component: owner, args: Seq::empty(), max: env.max_bytes },
            part,
            t.bytes,
        );
    }
}

proof fn expand_workflows_param_free(
    env: ExpandEnv,
    s: Seq<(Seq<char>, WorkflowView)>,
    i: int,
    acc: Seq<(Seq<char>, WorkflowView)>,
    t: Totals,
)
    requires
        0 <= i,
        forall|k: int| 0 <= k < acc.len() ==> all_param_free((#[trigger] acc[k]).1.parts),
    ensures
        expand_workflows(env, s, i, acc, t) matches Ok((ws, _)) ==> forall|k: int|
            0 <= k < ws.len() ==> all_param_free((#[trigger] ws[k]).1.parts),
    decreases s.len() - i,
{
    if i < s.len() {
        let owner = "<pipeline>"@;
        let none: Seq<PartView> = Seq::empty();
        expand_from_param_free(env, s[i].1.parts, 0, none, Seq::empty(), owner, t);
        if let Ok((parts, t2)) = expand_from(
            env,
            s[i].1.parts,
            0,
            none,
            Seq::empty(),
            owner,
            t,
        ) {
            let e = (s[i].0, WorkflowView { parts, finally_workflow: s[i].1.finally_workflow });
            expand_workflows_param_free(env, s, i + 1, acc.push(e), t2);
        }
    }
}

/// An expanded pipeline expands to itself, whatever components there are.
pub proof fn expansion_is_idempotent(
    pipeline: PipelineView,
    components: Seq<(Seq<char>, ComponentV2View)>,
    limits: ExpandLimits,
)
    ensures
        expanded_pipeline(pipeline, components, limits) matches Ok(p) ==> forall|
            others: Seq<(Seq<char>, ComponentV2View)>,
        | #[trigger]
            expanded_pipeline(p, others, limits) == Ok::<PipelineView, PipelineErrorView>(p),
{
    if let Ok(p) = expanded_pipeline(pipeline, components, limits) {
        expansion_is_complete_and_bounded(pipeline, components, limits);
        expand_workflows_param_free(
            expand_env(components, limits),
            pipeline.workflows,
            0,
            Seq::empty(),
            Totals { parts: 0, bytes: 0 },
        );
        assert forall|k: int, j: int|
            0 <= k < p.workflows.len() && 0 <= j < p.workflows[k].1.parts.len() implies param_free(
            #[trigger] p.workflows[k].1.parts[j],
        ) by {
            assert(all_param_free(p.workflows[k].1.parts));
        }
        assert forall|others: Seq<(Seq<char>, ComponentV2View)>| #[trigger]
            expanded_pipeline(p, others, limits) == Ok::<PipelineView, PipelineErrorView>(p) by {
            plain_pipeline_expands_to_itself(p, others, limits);
        }
    }
}

proof fn text_stays(env: FillEnv, s: Seq<char>, i: int, out: Seq<char>, n: int)
    requires
        0 <= i <= n <= s.len(),
        forall|k: int| i <= k < n ==> !starts_at(s, k, "${param."@),
    ensures
        filled_from(env, s, i, out) == filled_from(env, s, n, out + s.subrange(i, n)),
    decreases n - i,
{
    if i < n {
        text_stays(env, s, i + 1, out.push(s[i]), n);
        assert(out.push(s[i]) + s.subrange(i + 1, n) =~= out + s.subrange(i, n));
    } else {
        assert(out + s.subrange(i, n) =~= out);
    }
}

/// Only placeholders are filled in: what stands before the first of them is copied as it
/// is, and what follows its closing brace is filled in behind its value.
pub proof fn only_placeholders_are_filled_in(
    env: FillEnv,
    before: Seq<char>,
    name: Seq<char>,
    after: Seq<char>,
)
    requires
        !name.contains('}'),
        lookup(env.args, name) is Some,
        forall|k: int|
            0 <= k < before.len() ==> !starts_at(
                before + "${param."@ + name + "}"@ + after,
                k,
                "${param."@,
            ),
    ensures
        ({
            let s = before + "${param."@ + name + "}"@ + after;
            filled_from(env, s, 0, Seq::empty()) == filled_from(
                env,
                s,
                s.len() - after.len(),
                before + lookup(env.args, name)->0,
            )
        }),
{
    reveal_strlit("${param.");
    reveal_strlit("}");
    let s = before + "${param."@ + name + "}"@ + after;
    let n = before.len() as int;
    let end = n + 8 + name.len();
    text_stays(env, s, 0, Seq::empty(), n);
    assert(Seq::<char>::empty() + s.subrange(0, n) =~= before);
    assert(s.subrange(n, n + 8) =~= "${param."@);
    assert(starts_at(s, n, "${param."@));
    assert(s.subrange(n + 8, end) =~= name);
    next_char_is(s, n + 8, end, '}');
}

proof fn next_char_is(s: Seq<char>, i: int, end: int, c: char)
    requires
        0 <= i <= end < s.len(),
        s[end] == c,
        forall|k: int| i <= k < end ==> s[k] != c,
    ensures
        next_char(s, i, c) == end,
    decreases end - i,
{
    if i < end {
        next_char_is(s, i + 1, end, c);
    }
}

} // verus!
