//! What holds of every error in words.

use vstd::prelude::*;
use crate::config::model::{config_error_text, PrConfigErrorView};
use crate::hooks::{hook_error_text, HookRunErrorView};
use crate::pipelines::model::{pipeline_error_text, PipelineErrorView};
use crate::profiles::model::{profiles_error_text, ProfilesErrorView};
use crate::repo_ops::{repo_error_text, RepoOpsErrorView};
use crate::text::{decimal, starts_at};
use crate::workflows::model::{workflow_error_text, WorkflowErrorView};

verus! {

/// Whether a text tells another: holds it.
#[verifier::opaque]
pub open spec fn tells(t: Seq<char>, p: Seq<char>) -> bool {
    exists|i: int| starts_at(t, i, p)
}

proof fn between(a: Seq<char>, p: Seq<char>, b: Seq<char>)
    ensures
        tells(a + p + b, p),
        tells(a + p, p),
{
    reveal(tells);
    let s = a + p + b;
    assert(s.subrange(a.len() as int, (a.len() + p.len()) as int) =~= p);
    assert(starts_at(s, a.len() as int, p));
    let t = a + p;
    assert(t.subrange(a.len() as int, (a.len() + p.len()) as int) =~= p);
    assert(starts_at(t, a.len() as int, p));
}

/// An error of settings names the file and what went wrong with it.
pub proof fn settings_errors_name_the_file(path: Seq<char>, message: Seq<char>)
    ensures
        tells(config_error_text(PrConfigErrorView::ReadFailed { path, message }), path),
        tells(config_error_text(PrConfigErrorView::ReadFailed { path, message }), message),
        tells(config_error_text(PrConfigErrorView::ParseFailed { path, message }), path),
        tells(config_error_text(PrConfigErrorView::ParseFailed { path, message }), message),
        tells(config_error_text(PrConfigErrorView::WriteFailed { path, message }), path),
        tells(config_error_text(PrConfigErrorView::WriteFailed { path, message }), message),
        tells(profiles_error_text(ProfilesErrorView::Io { path, message }), path),
        tells(profiles_error_text(ProfilesErrorView::Io { path, message }), message),
        tells(profiles_error_text(ProfilesErrorView::JsonParse { path, message }), path),
        tells(profiles_error_text(ProfilesErrorView::JsonParse { path, message }), message),
        tells(profiles_error_text(ProfilesErrorView::Validation(message)), message),
{
    two_told("failed to read "@, path, message);
    two_told("failed to parse toml "@, path, message);
    two_told("failed to write "@, path, message);
    two_told("io error for "@, path, message);
    two_told("json parse error for "@, path, message);
    between("validation error: "@, message, Seq::empty());
}

proof fn two_told(head: Seq<char>, path: Seq<char>, message: Seq<char>)
    ensures
        tells(head + path + ": "@ + message, path),
        tells(head + path + ": "@ + message, message),
{
    between(head, path, ": "@ + message);
    assert(head + path + ": "@ + message =~= head + path + (": "@ + message));
    between(head + path + ": "@, message, Seq::empty());
}

/// An error of a hook, of a repository or of a workflow tells what went wrong, and by how much.
pub proof fn errors_tell_what_went_wrong(m: Seq<char>, n: u64, k: u64)
    ensures
        tells(hook_error_text(HookRunErrorView::SpawnFailed(m)), m),
        tells(hook_error_text(HookRunErrorView::NonZeroExit(m)), m),
        tells(hook_error_text(HookRunErrorView::InvalidJson(m)), m),
        tells(hook_error_text(HookRunErrorView::TimedOut(n)), decimal(n as nat)),
        tells(repo_error_text(RepoOpsErrorView::NotAGitRepo(m)), m),
        tells(repo_error_text(RepoOpsErrorView::InvalidNaming(m)), m),
        tells(repo_error_text(RepoOpsErrorView::GitFailed(m)), m),
        tells(workflow_error_text(WorkflowErrorView::Validation(m)), m),
        tells(workflow_error_text(WorkflowErrorView::InvalidRunState(m)), m),
        tells(workflow_error_text(WorkflowErrorView::MissingStep(m)), m),
        tells(workflow_error_text(WorkflowErrorView::MissingFeedbackKey(m)), m),
        ({
            let t = workflow_error_text(
                WorkflowErrorView::ArtifactTooLarge { actual_bytes: n, max_bytes: k },
            );
            tells(t, decimal(n as nat) + " > "@ + decimal(k as nat))
        }),
        ({
            let t = workflow_error_text(
                WorkflowErrorView::FeedbackTooLarge { actual_bytes: n, max_bytes: k },
            );
            tells(t, decimal(n as nat) + " > "@ + decimal(k as nat))
        }),
{
    between("hook process spawn failed: "@, m, Seq::empty());
    between("hook exited non-zero: "@, m, Seq::empty());
    between("hook invalid json response: "@, m, Seq::empty());
    between("hook timed out after "@, decimal(n as nat), "ms"@);
    between("not a git repository: "@, m, Seq::empty());
    between("invalid naming path (must be relative, no ..): "@, m, Seq::empty());
    between("git command failed: "@, m, Seq::empty());
    between("validation error: "@, m, Seq::empty());
    between("invalid run state: "@, m, Seq::empty());
    between("missing step: "@, m, Seq::empty());
    between("missing feedback key: "@, m, Seq::empty());
    let sizes = decimal(n as nat) + " > "@ + decimal(k as nat);
    between("artifact too large: "@, sizes, Seq::empty());
    between("feedback too large: "@, sizes, Seq::empty());
    assert("artifact too large: "@ + sizes =~= "artifact too large: "@ + decimal(n as nat) + " > "@
        + decimal(k as nat));
    assert("feedback too large: "@ + sizes =~= "feedback too large: "@ + decimal(n as nat) + " > "@
        + decimal(k as nat));
}

/// An error of a pipeline tells what went wrong, and with what.
pub proof fn pipeline_errors_tell_what_went_wrong(
    m: Seq<char>,
    n: u32,
    component_id: Seq<char>,
    param: Seq<char>,
)
    ensures
        tells(pipeline_error_text(PipelineErrorView::UnknownWorkflow(m)), m),
        tells(pipeline_error_text(PipelineErrorView::MaxCyclesExceeded(n)), decimal(n as nat)),
        tells(pipeline_error_text(PipelineErrorView::ExtractFailed(m)), m),
        tells(pipeline_error_text(PipelineErrorView::AssertFailed(m)), m),
        tells(pipeline_error_text(PipelineErrorView::InvalidPart(m)), m),
        tells(pipeline_error_text(PipelineErrorView::TemplateError(m)), m),
        tells(pipeline_error_text(PipelineErrorView::UnknownCommandId(m)), m),
        tells(pipeline_error_text(PipelineErrorView::UnknownComponent(m)), m),
        tells(pipeline_error_text(PipelineErrorView::ExpandLimitsExceeded(m)), m),
        ({
            let t = pipeline_error_text(
                PipelineErrorView::MissingComponentParam { component_id, param },
            );
            tells(t, "component_id="@ + component_id + " param="@ + param)
        }),
        ({
            let t = pipeline_error_text(
                PipelineErrorView::UnknownComponentParamReference { component_id, param },
            );
            tells(t, "component_id="@ + component_id + " param="@ + param)
        }),
        ({
            let t = pipeline_error_text(
                PipelineErrorView::InvalidComponentArg { component_id, param, message: m },
            );
            tells(t, "component_id="@ + component_id + " param="@ + param + ": "@ + m)
        }),
{
    between("unknown workflow: "@, m, Seq::empty());
    between("pipeline exceeded max_cycles="@, decimal(n as nat), Seq::empty());
    between("extract failed: "@, m, Seq::empty());
    between("assert failed: "@, m, Seq::empty());
    between("invalid part: "@, m, Seq::empty());
    between("template error: "@, m, Seq::empty());
    between("unknown command_id: "@, m, Seq::empty());
    between("unknown component_id: "@, m, Seq::empty());
    between("component expansion limit exceeded: "@, m, Seq::empty());
    reveal_strlit("component_id=");
    reveal_strlit("missing component param: component_id=");
    reveal_strlit("missing component param: ");
    reveal_strlit("unknown component param reference: component_id=");
    reveal_strlit("unknown component param reference: ");
    reveal_strlit("invalid component arg: component_id=");
    reveal_strlit("invalid component arg: ");
    let names = "component_id="@ + component_id + " param="@ + param;
    let told = names + ": "@ + m;
    between("missing component param: "@, names, Seq::empty());
    between("unknown component param reference: "@, names, Seq::empty());
    between("invalid component arg: "@, told, Seq::empty());
    assert("missing component param: "@ + names =~= "missing component param: component_id="@
        + component_id + " param="@ + param);
    assert("unknown component param reference: "@ + names
        =~= "unknown component param reference: component_id="@ + component_id + " param="@ + param);
    assert("invalid component arg: "@ + told =~= "invalid component arg: component_id="@
        + component_id + " param="@ + param + ": "@ + m);
}

} // verus!
