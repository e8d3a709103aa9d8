//! What is put to agents and to the user, and what their answers mean.

use vstd::prelude::*;
use crate::cli::runs::{WorkflowActionControl, WorkflowActionControlView};
use crate::strmap::StrMap;
use crate::text::{
    blank, cat2, cat3, is_blank, lines, lines_of, lowercased, str_eq, to_lowercase, trim,
    trim_string,
};
use crate::workflows::model::{WorkflowActionResult, WorkflowActionResultView};

verus! {

/// The first `n` inputs, one to a line.
pub open spec fn input_lines(s: Seq<(Seq<char>, Seq<char>)>, n: int) -> Seq<char>
    decreases n,
{
    if n <= 0 || n > s.len() {
        Seq::empty()
    } else {
        input_lines(s, n - 1) + "- "@ + s[n - 1].0 + ": "@ + s[n - 1].1 + "\n"@
    }
}

pub open spec fn opening(initial: Option<Seq<char>>) -> Seq<char> {
    match initial {
        None => Seq::empty(),
        Some(p) => trim(p) + "\n\n"@,
    }
}

pub open spec fn inputs_section(s: Seq<(Seq<char>, Seq<char>)>) -> Seq<char> {
    if s.len() == 0 {
        Seq::empty()
    } else {
        "Inputs:\n"@ + input_lines(s, s.len() as int) + "\n"@
    }
}

pub open spec fn artifact_section(previous: Option<Seq<char>>) -> Seq<char> {
    match previous {
        None => Seq::empty(),
        Some(t) => "Current artifact content:\n"@ + trim(t) + "\n\n"@,
    }
}

pub open spec fn feedback_section(feedback: Option<Seq<char>>) -> Seq<char> {
    match feedback {
        None => Seq::empty(),
        Some(t) => "Revision feedback:\n"@ + trim(t) + "\n"@,
    }
}

/// What an agent is asked: what the user said, the inputs, the artifact so far and what
/// was found wanting in it, as far as there are any.
pub open spec fn request(
    step_id: Seq<char>,
    initial: Option<Seq<char>>,
    inputs: Seq<(Seq<char>, Seq<char>)>,
    previous: Option<Seq<char>>,
    feedback: Option<Seq<char>>,
) -> Seq<char> {
    let text = opening(initial) + inputs_section(inputs) + artifact_section(previous)
        + feedback_section(feedback);
    if is_blank(text) {
        "Generate artifact for step "@ + step_id + "."@
    } else {
        text
    }
}

fn inputs_text(inputs: &StrMap<String>) -> (r: String)
    ensures
        r@ == inputs_section(inputs@),
{
    if inputs.is_empty() {
        return String::new();
    }
    let mut out = String::new();
    let mut i: usize = 0;
    while i < inputs.len()
        invariant
            i <= inputs@.len(),
            out@ == input_lines(inputs@, i as int),
        decreases inputs@.len() - i,
    {
        let line = cat3("- ", inputs.key_at(i).as_str(), ": ");
        let line = cat3(line.as_str(), inputs.value_at(i).as_str(), "\n");
        let ghost before = out@;
        out = cat2(out.as_str(), line.as_str());
        i = i + 1;
        assert(out@ =~= input_lines(inputs@, i as int));
    }
    cat3("Inputs:\n", out.as_str(), "\n")
}

/// The request to an agent. `previous` is the artifact as it stands.
pub fn agent_request(
    step_id: &str,
    initial_prompt: &Option<String>,
    inputs: &StrMap<String>,
    previous: &Option<String>,
    feedback: &Option<String>,
) -> (r: String)
    ensures
        r@ == request(
            step_id@,
            initial_prompt.deep_view(),
            inputs@,
            previous.deep_view(),
            feedback.deep_view(),
        ),
{
    let a = match initial_prompt {
        None => String::new(),
        Some(p) => {
            let t = trim_string(p.as_str());
            cat2(t.as_str(), "\n\n")
        },
    };
    let b = inputs_text(inputs);
    let c = match previous {
        None => String::new(),
        Some(p) => {
            let t = trim_string(p.as_str());
            cat3("Current artifact content:\n", t.as_str(), "\n\n")
        },
    };
    let d = match feedback {
        None => String::new(),
        Some(p) => {
            let t = trim_string(p.as_str());
            cat3("Revision feedback:\n", t.as_str(), "\n")
        },
    };
    let text = cat3(a.as_str(), b.as_str(), c.as_str());
    let text = cat2(text.as_str(), d.as_str());
    if blank(text.as_str()) {
        cat3("Generate artifact for step ", step_id, ".")
    } else {
        text
    }
}

/// Whether an answer means yes. An empty one means what is the default.
pub open spec fn agrees(answer: Seq<char>, default_yes: bool) -> bool {
    let a = lowercased(trim(answer));
    if a.len() == 0 {
        default_yes
    } else {
        a == "y"@ || a == "yes"@
    }
}

pub fn means_yes(answer: &str, default_yes: bool) -> (r: bool)
    ensures
        r == agrees(answer@, default_yes),
{
    let t = trim_string(answer);
    let a = to_lowercase(t.as_str());
    if str_eq(a.as_str(), "") {
        proof {
            reveal_strlit("");
        }
        return default_yes;
    }
    proof {
        reveal_strlit("");
        if a@.len() == 0 {
            assert(a@ =~= ""@);
        }
    }
    str_eq(a.as_str(), "y") || str_eq(a.as_str(), "yes")
}

/// A question with a hint at its default.
pub fn question_text(question: &str, default_yes: bool) -> (r: String)
    ensures
        r@ == question@ + " ["@ + (if default_yes {
            "Y/n"@
        } else {
            "y/N"@
        }) + "]: "@,
{
    let hint = if default_yes {
        "Y/n"
    } else {
        "y/N"
    };
    let head = cat3(question, " [", hint);
    cat2(head.as_str(), "]: ")
}

/// Lines in pages: page `k` starts `k` pages into them and holds as many as fit.
pub open spec fn page(l: Seq<Seq<char>>, per_page: int, k: int) -> Seq<Seq<char>> {
    let from = k * per_page;
    let to = if from + per_page < l.len() {
        from + per_page
    } else {
        l.len() as int
    };
    l.subrange(from, to)
}

/// The pages of a text.
pub fn pages(text: &str, lines_per_page: usize) -> (r: Vec<Vec<String>>)
    requires
        lines_per_page > 0,
    ensures
        ({
            let l = lines(text@);
            let n = lines_per_page as int;
            &&& (r@.len() - 1) * n < l.len() <= r@.len() * n
            &&& forall|k: int|
                0 <= k < r@.len() ==> (#[trigger] r@[k]).deep_view() == page(l, n, k)
        }),
{
    let all = lines_of(text);
    let ghost l = lines(text@);
    let ghost n = lines_per_page as int;
    assert(all.deep_view().len() == all@.len());
    let mut out: Vec<Vec<String>> = Vec::new();
    let mut i: usize = 0;
    proof {
        assert(-1 * n < 0);
    }
    while i < all.len()
        invariant
            lines_per_page > 0,
            n == lines_per_page,
            l == all.deep_view(),
            l.len() == all@.len(),
            i <= all@.len(),
            i < all@.len() ==> i == out@.len() * n,
            i == all@.len() ==> l.len() <= out@.len() * n,
            (out@.len() - 1) * n < l.len(),
            forall|k: int|
                0 <= k < out@.len() ==> (#[trigger] out@[k]).deep_view() == page(l, n, k),
        decreases all.len() - i,
    {
        let end: usize = if lines_per_page < all.len() - i {
            i + lines_per_page
        } else {
            all.len()
        };
        let start: usize = i;
        let mut one: Vec<String> = Vec::new();
        let mut j: usize = i;
        while j < end
            invariant
                start <= j <= end <= all@.len(),
                l == all.deep_view(),
                l.len() == all@.len(),
                one@.len() == j - start,
                forall|k: int| 0 <= k < one@.len() ==> (#[trigger] one@[k])@ == l[start + k],
            decreases end - j,
        {
            assert(l[j as int] == all@[j as int]@);
            one.push(all[j].clone());
            j = j + 1;
        }
        proof {
            assert(one.deep_view() =~= page(l, n, out@.len() as int));
            assert((out@.len() + 1) * n == out@.len() * n + n) by (nonlinear_arith);
        }
        let ghost before = out@;
        out.push(one);
        assert forall|k: int| 0 <= k < out@.len() implies (#[trigger] out@[k]).deep_view() == page(
            l,
            n,
            k,
        ) by {
            if k < before.len() {
                assert(out@[k] == before[k]);
            }
        }
        i = end;
    }
    out
}

/// What the user says of an artifact.
pub enum ReviewAnswer {
    Approve,
    Cancel,
    Feedback(String),
}

pub open spec fn review_answered(a: ReviewAnswer) -> WorkflowActionControlView {
    match a {
        ReviewAnswer::Approve => WorkflowActionControlView::Result(
            WorkflowActionResultView::ReviewDecision { approved: true, feedback: None },
        ),
        ReviewAnswer::Cancel => WorkflowActionControlView::Cancelled,
        ReviewAnswer::Feedback(t) => WorkflowActionControlView::Result(
            WorkflowActionResultView::ReviewDecision { approved: false, feedback: Some(trim(t@)) },
        ),
    }
}

pub fn review_control(answer: ReviewAnswer) -> (r: WorkflowActionControl)
    ensures
        r@ == review_answered(answer),
{
    match answer {
        ReviewAnswer::Approve => WorkflowActionControl::Result(
            WorkflowActionResult::ReviewDecision { approved: true, feedback: None },
        ),
        ReviewAnswer::Cancel => WorkflowActionControl::Cancelled,
        ReviewAnswer::Feedback(t) => WorkflowActionControl::Result(
            WorkflowActionResult::ReviewDecision {
                approved: false,
                feedback: Some(trim_string(t.as_str())),
            },
        ),
    }
}

/// What the user says of a pipeline.
pub enum PipelineAnswer {
    Succeeded,
    Cancel,
    Failed(String),
}

pub open spec fn pipeline_answered(a: PipelineAnswer) -> WorkflowActionControlView {
    match a {
        PipelineAnswer::Succeeded => WorkflowActionControlView::Result(
            WorkflowActionResultView::PipelineOutput {
                success: true,
                summary: Some("approved by interactive workflow runner"@),
            },
        ),
        PipelineAnswer::Cancel => WorkflowActionControlView::Cancelled,
        PipelineAnswer::Failed(t) => WorkflowActionControlView::Result(
            WorkflowActionResultView::PipelineOutput {
                success: false,
                summary: if is_blank(t@) {
                    None
                } else {
                    Some(trim(t@))
                },
            },
        ),
    }
}

pub fn pipeline_control(answer: PipelineAnswer) -> (r: WorkflowActionControl)
    ensures
        r@ == pipeline_answered(answer),
{
    match answer {
        PipelineAnswer::Succeeded => WorkflowActionControl::Result(
            WorkflowActionResult::PipelineOutput {
                success: true,
                summary: Some("approved by interactive workflow runner".to_owned()),
            },
        ),
        PipelineAnswer::Cancel => WorkflowActionControl::Cancelled,
        PipelineAnswer::Failed(t) => {
            let summary = if blank(t.as_str()) {
                None
            } else {
                Some(trim_string(t.as_str()))
            };
            WorkflowActionControl::Result(
                WorkflowActionResult::PipelineOutput { success: false, summary },
            )
        },
    }
}

/// What comes of a step whose pipeline is not there.
pub fn pipeline_missing(pipeline_id: &str) -> (r: WorkflowActionControl)
    ensures
        r@ == WorkflowActionControlView::Result(
            WorkflowActionResultView::PipelineOutput {
                success: false,
                summary: Some("pipeline not found: "@ + pipeline_id@),
            },
        ),
{
    WorkflowActionControl::Result(
        WorkflowActionResult::PipelineOutput {
            success: false,
            summary: Some(cat2("pipeline not found: ", pipeline_id)),
        },
    )
}

/// What comes of the last step.
pub fn completion_control() -> (r: WorkflowActionControl)
    ensures
        r@ == WorkflowActionControlView::Result(
            WorkflowActionResultView::PipelineOutput {
                success: true,
                summary: Some("workflow complete"@),
            },
        ),
{
    WorkflowActionControl::Result(
        WorkflowActionResult::PipelineOutput {
            success: true,
            summary: Some("workflow complete".to_owned()),
        },
    )
}

/// Every line stands on one page, at its place: the pages, one after the other, are the
/// lines.
pub proof fn pages_hold_every_line(l: Seq<Seq<char>>, per_page: int, i: int)
    requires
        per_page > 0,
        0 <= i < l.len(),
    ensures
        0 <= i % per_page < page(l, per_page, i / per_page).len() <= per_page,
        page(l, per_page, i / per_page)[i % per_page] == l[i],
{
    let k = i / per_page;
    assert(i == k * per_page + i % per_page && 0 <= i % per_page < per_page && 0 <= k * per_page)
        by (nonlinear_arith)
        requires
            per_page > 0,
            0 <= i,
            k == i / per_page,
    ;
}

} // verus!
