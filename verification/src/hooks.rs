//! Hooks: what is run, and what its end means.

use vstd::prelude::*;
use crate::text::{cat2, cat3, decimal, decimal_string, Duplicate};

verus! {

/// A hook to run.
#[derive(Debug, PartialEq, Eq)]
pub struct HookSpec {
    pub argv: Vec<String>,
    pub timeout_ms: u64,
    pub headless_only: bool,
    pub is_repo_provided: bool,
}

/// What a [`HookSpec`] stands for.
#[verifier::ext_equal]
pub struct HookSpecView {
    pub argv: Seq<Seq<char>>,
    pub timeout_ms: u64,
    pub headless_only: bool,
    pub is_repo_provided: bool,
}

impl View for HookSpec {
    type V = HookSpecView;

    open spec fn view(&self) -> HookSpecView {
        HookSpecView {
            argv: self.argv.deep_view(),
            timeout_ms: self.timeout_ms,
            headless_only: self.headless_only,
            is_repo_provided: self.is_repo_provided,
        }
    }
}

impl DeepView for HookSpec {
    type V = HookSpecView;

    open spec fn deep_view(&self) -> HookSpecView {
        self@
    }
}

impl Duplicate for HookSpec {
    fn dup(&self) -> (r: Self) {
        HookSpec {
            argv: self.argv.dup(),
            timeout_ms: self.timeout_ms,
            headless_only: self.headless_only,
            is_repo_provided: self.is_repo_provided,
        }
    }
}

impl Clone for HookSpec {
    fn clone(&self) -> (r: Self)
        ensures
            r@ == self@,
    {
        self.dup()
    }
}

/// Why a hook gave no answer.
#[derive(Debug, PartialEq, Eq)]
pub enum HookRunError {
    EmptyArgv,
    SpawnFailed(String),
    TimedOut(u64),
    NonZeroExit(String),
    InvalidJson(String),
}

/// What a [`HookRunError`] stands for.
#[verifier::ext_equal]
pub enum HookRunErrorView {
    EmptyArgv,
    SpawnFailed(Seq<char>),
    TimedOut(u64),
    NonZeroExit(Seq<char>),
    InvalidJson(Seq<char>),
}

impl View for HookRunError {
    type V = HookRunErrorView;

    open spec fn view(&self) -> HookRunErrorView {
        match self {
            HookRunError::EmptyArgv => HookRunErrorView::EmptyArgv,
            HookRunError::SpawnFailed(a) => HookRunErrorView::SpawnFailed(a@),
            HookRunError::TimedOut(a) => HookRunErrorView::TimedOut(*a),
            HookRunError::NonZeroExit(a) => HookRunErrorView::NonZeroExit(a@),
            HookRunError::InvalidJson(a) => HookRunErrorView::InvalidJson(a@),
        }
    }
}

impl DeepView for HookRunError {
    type V = HookRunErrorView;

    open spec fn deep_view(&self) -> HookRunErrorView {
        self@
    }
}

impl Duplicate for HookRunError {
    fn dup(&self) -> (r: Self) {
        match self {
            HookRunError::EmptyArgv => HookRunError::EmptyArgv,
            HookRunError::SpawnFailed(a) => HookRunError::SpawnFailed(a.clone()),
            HookRunError::TimedOut(a) => HookRunError::TimedOut(*a),
            HookRunError::NonZeroExit(a) => HookRunError::NonZeroExit(a.clone()),
            HookRunError::InvalidJson(a) => HookRunError::InvalidJson(a.clone()),
        }
    }
}

impl Clone for HookRunError {
    fn clone(&self) -> (r: Self)
        ensures
            r@ == self@,
    {
        self.dup()
    }
}

/// The text of an error.
pub open spec fn hook_error_text(e: HookRunErrorView) -> Seq<char> {
    match e {
        HookRunErrorView::EmptyArgv => "hook argv is empty"@,
        HookRunErrorView::SpawnFailed(m) => "hook process spawn failed: "@ + m,
        HookRunErrorView::TimedOut(ms) => "hook timed out after "@ + decimal(ms as nat) + "ms"@,
        HookRunErrorView::NonZeroExit(m) => "hook exited non-zero: "@ + m,
        HookRunErrorView::InvalidJson(m) => "hook invalid json response: "@ + m,
    }
}

impl HookRunError {
    /// The error in words.
    pub fn message(&self) -> (r: String)
        ensures
            r@ == hook_error_text(self@),
    {
        match self {
            HookRunError::EmptyArgv => "hook argv is empty".to_owned(),
            HookRunError::SpawnFailed(m) => cat2("hook process spawn failed: ", m.as_str()),
            HookRunError::TimedOut(ms) => {
                let n = decimal_string(*ms);
                cat3("hook timed out after ", n.as_str(), "ms")
            },
            HookRunError::NonZeroExit(m) => cat2("hook exited non-zero: ", m.as_str()),
            HookRunError::InvalidJson(m) => cat2("hook invalid json response: ", m.as_str()),
        }
    }
}

/// The program of a hook, and its arguments.
pub fn hook_command(hook: &HookSpec) -> (r: Result<(String, Vec<String>), HookRunError>)
    ensures
        match r {
            Ok((p, a)) => seq![p@] + a.deep_view() == hook@.argv,
            Err(e) => hook@.argv.len() == 0 && e@ == HookRunErrorView::EmptyArgv,
        },
        r is Ok <==> hook@.argv.len() > 0,
{
    assert(hook.argv.deep_view().len() == hook.argv@.len());
    if hook.argv.len() == 0 {
        return Err(HookRunError::EmptyArgv);
    }
    let ghost all = hook@.argv;
    let mut args: Vec<String> = Vec::new();
    let mut i: usize = 1;
    while i < hook.argv.len()
        invariant
            1 <= i <= hook.argv.len(),
            all == hook.argv.deep_view(),
            args@.len() == i - 1,
            forall|k: int| 0 <= k < i - 1 ==> (#[trigger] args@[k])@ == all[k + 1],
        decreases hook.argv.len() - i,
    {
        assert(all[i as int] == hook.argv[i as int]@);
        args.push(hook.argv[i].clone());
        i = i + 1;
    }
    let program = hook.argv[0].clone();
    assert(seq![program@] + args.deep_view() =~= all);
    Ok((program, args))
}

/// What the end of a hook's process means.
pub fn check_hook_exit(success: bool, stderr: String) -> (r: Result<(), HookRunError>)
    ensures
        r is Ok <==> success,
        r is Err ==> r->Err_0@ == HookRunErrorView::NonZeroExit(stderr@),
{
    if success {
        Ok(())
    } else {
        Err(HookRunError::NonZeroExit(stderr))
    }
}

} // verus!
