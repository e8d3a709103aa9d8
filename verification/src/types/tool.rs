//! Tool calls, what is decided about them and what comes of them.

use vstd::prelude::*;
use crate::text::{Duplicate, Same};

verus! {

/// The points of a session at which hooks run.
#[derive(Debug, Clone, Copy, PartialEq, Eq, Structural)]
pub enum LifecycleEventKind {
    SessionStart,
    BeforeTask,
    BeforeTool,
    AfterTool,
    BeforeFinalize,
    SessionEnd,
}

impl View for LifecycleEventKind {
    type V = LifecycleEventKind;

    open spec fn view(&self) -> LifecycleEventKind {
        *self
    }
}

impl DeepView for LifecycleEventKind {
    type V = LifecycleEventKind;

    open spec fn deep_view(&self) -> LifecycleEventKind {
        *self
    }
}

impl Duplicate for LifecycleEventKind {
    fn dup(&self) -> (r: Self) {
        *self
    }
}

impl Same for LifecycleEventKind {
    fn same(&self, other: &Self) -> (b: bool) {
        *self == *other
    }
}

/// What kind of tool a call addresses.
#[derive(Debug, Clone, Copy, PartialEq, Eq, Structural)]
pub enum ToolKind {
    Function,
    Custom,
    LocalShell,
    Mcp,
}

impl View for ToolKind {
    type V = ToolKind;

    open spec fn view(&self) -> ToolKind {
        *self
    }
}

impl DeepView for ToolKind {
    type V = ToolKind;

    open spec fn deep_view(&self) -> ToolKind {
        *self
    }
}

impl Duplicate for ToolKind {
    fn dup(&self) -> (r: Self) {
        *self
    }
}

impl Same for ToolKind {
    fn same(&self, other: &Self) -> (b: bool) {
        *self == *other
    }
}

/// What a tool is called with.
#[derive(Debug, PartialEq, Eq)]
pub enum ToolInput {
    Function {
        arguments: String,
    },
    Custom {
        input: String,
    },
    LocalShell {
        command: Vec<String>,
        workdir: Option<String>,
    },
    Mcp {
        server: String,
        tool: String,
        arguments: String,
    },
}

/// What a [`ToolInput`] stands for.
#[verifier::ext_equal]
pub enum ToolInputView {
    Function {
        arguments: Seq<char>,
    },
    Custom {
        input: Seq<char>,
    },
    LocalShell {
        command: Seq<Seq<char>>,
        workdir: Option<Seq<char>>,
    },
    Mcp {
        server: Seq<char>,
        tool: Seq<char>,
        arguments: Seq<char>,
    },
}

impl View for ToolInput {
    type V = ToolInputView;

    open spec fn view(&self) -> ToolInputView {
        match self {
            ToolInput::Function { arguments } => ToolInputView::Function {
                arguments: arguments@,
            },
            ToolInput::Custom { input } => ToolInputView::Custom {
                input: input@,
            },
            ToolInput::LocalShell { command, workdir } => ToolInputView::LocalShell {
                command: command.deep_view(),
                workdir: workdir.deep_view(),
            },
            ToolInput::Mcp { server, tool, arguments } => ToolInputView::Mcp {
                server: server@,
                tool: tool@,
                arguments: arguments@,
            },
        }
    }
}

impl DeepView for ToolInput {
    type V = ToolInputView;

    open spec fn deep_view(&self) -> ToolInputView {
        self@
    }
}

impl Duplicate for ToolInput {
    fn dup(&self) -> (r: Self) {
        match self {
            ToolInput::Function { arguments } => ToolInput::Function {
                arguments: arguments.clone(),
            },
            ToolInput::Custom { input } => ToolInput::Custom {
                input: input.clone(),
            },
            ToolInput::LocalShell { command, workdir } => ToolInput::LocalShell {
                command: command.dup(),
                workdir: workdir.dup(),
            },
            ToolInput::Mcp { server, tool, arguments } => ToolInput::Mcp {
                server: server.clone(),
                tool: tool.clone(),
                arguments: arguments.clone(),
            },
        }
    }
}

impl Clone for ToolInput {
    fn clone(&self) -> (r: Self)
        ensures
            r@ == self@,
    {
        self.dup()
    }
}

impl Same for ToolInput {
    fn same(&self, other: &Self) -> (b: bool) {
        match (self, other) {
            (ToolInput::Function { arguments }, ToolInput::Function { arguments: arguments2 }) => arguments.same(arguments2),
            (ToolInput::Custom { input }, ToolInput::Custom { input: input2 }) => input.same(input2),
            (ToolInput::LocalShell { command, workdir }, ToolInput::LocalShell { command: command2, workdir: workdir2 }) => command.same(command2) && workdir.same(workdir2),
            (ToolInput::Mcp { server, tool, arguments }, ToolInput::Mcp { server: server2, tool: tool2, arguments: arguments2 }) => server.same(server2) && tool.same(tool2) && arguments.same(arguments2),
            _ => false,
        }
    }
}

/// One call of one tool.
#[derive(Debug, PartialEq, Eq)]
pub struct ToolCall {
    pub call_id: String,
    pub tool_name: String,
    pub tool_kind: ToolKind,
    pub input: ToolInput,
}

/// What a [`ToolCall`] stands for.
#[verifier::ext_equal]
pub struct ToolCallView {
    pub call_id: Seq<char>,
    pub tool_name: Seq<char>,
    pub tool_kind: ToolKind,
    pub input: ToolInputView,
}

impl View for ToolCall {
    type V = ToolCallView;

    open spec fn view(&self) -> ToolCallView {
        ToolCallView {
            call_id: self.call_id@,
            tool_name: self.tool_name@,
            tool_kind: self.tool_kind,
            input: self.input@,
        }
    }
}

impl DeepView for ToolCall {
    type V = ToolCallView;

    open spec fn deep_view(&self) -> ToolCallView {
        self@
    }
}

impl Duplicate for ToolCall {
    fn dup(&self) -> (r: Self) {
        ToolCall {
            call_id: self.call_id.clone(),
            tool_name: self.tool_name.clone(),
            tool_kind: self.tool_kind,
            input: self.input.dup(),
        }
    }
}

impl Clone for ToolCall {
    fn clone(&self) -> (r: Self)
        ensures
            r@ == self@,
    {
        self.dup()
    }
}

impl Same for ToolCall {
    fn same(&self, other: &Self) -> (b: bool) {
        self.call_id.same(&other.call_id)
            && self.tool_name.same(&other.tool_name)
            && self.tool_kind == other.tool_kind
            && self.input.same(&other.input)
    }
}

/// What is decided about a tool call.
#[derive(Debug, Clone, Copy, PartialEq, Eq, Structural)]
pub enum DecisionKind {
    Allow,
    Block,
    Modify,
}

impl View for DecisionKind {
    type V = DecisionKind;

    open spec fn view(&self) -> DecisionKind {
        *self
    }
}

impl DeepView for DecisionKind {
    type V = DecisionKind;

    open spec fn deep_view(&self) -> DecisionKind {
        *self
    }
}

impl Duplicate for DecisionKind {
    fn dup(&self) -> (r: Self) {
        *self
    }
}

impl Same for DecisionKind {
    fn same(&self, other: &Self) -> (b: bool) {
        *self == *other
    }
}

/// A decision about a tool call, with its reason.
#[derive(Debug, PartialEq, Eq)]
pub struct ToolCallDecision {
    pub kind: DecisionKind,
    pub reason_code: Option<String>,
    pub message: Option<String>,
    pub modified_call: Option<ToolCall>,
}

/// What a [`ToolCallDecision`] stands for.
#[verifier::ext_equal]
pub struct ToolCallDecisionView {
    pub kind: DecisionKind,
    pub reason_code: Option<Seq<char>>,
    pub message: Option<Seq<char>>,
    pub modified_call: Option<ToolCallView>,
}

impl View for ToolCallDecision {
    type V = ToolCallDecisionView;

    open spec fn view(&self) -> ToolCallDecisionView {
        ToolCallDecisionView {
            kind: self.kind,
            reason_code: self.reason_code.deep_view(),
            message: self.message.deep_view(),
            modified_call: self.modified_call.deep_view(),
        }
    }
}

impl DeepView for ToolCallDecision {
    type V = ToolCallDecisionView;

    open spec fn deep_view(&self) -> ToolCallDecisionView {
        self@
    }
}

impl Duplicate for ToolCallDecision {
    fn dup(&self) -> (r: Self) {
        ToolCallDecision {
            kind: self.kind,
            reason_code: self.reason_code.dup(),
            message: self.message.dup(),
            modified_call: self.modified_call.dup(),
        }
    }
}

impl Clone for ToolCallDecision {
    fn clone(&self) -> (r: Self)
        ensures
            r@ == self@,
    {
        self.dup()
    }
}

/// What came of a tool call.
#[derive(Debug, PartialEq, Eq)]
pub struct ToolOutcome {
    pub executed: bool,
    pub success: bool,
    pub duration_ms: u64,
    pub output_preview: String,
}

/// What a [`ToolOutcome`] stands for.
#[verifier::ext_equal]
pub struct ToolOutcomeView {
    pub executed: bool,
    pub success: bool,
    pub duration_ms: u64,
    pub output_preview: Seq<char>,
}

impl View for ToolOutcome {
    type V = ToolOutcomeView;

    open spec fn view(&self) -> ToolOutcomeView {
        ToolOutcomeView {
            executed: self.executed,
            success: self.success,
            duration_ms: self.duration_ms,
            output_preview: self.output_preview@,
        }
    }
}

impl DeepView for ToolOutcome {
    type V = ToolOutcomeView;

    open spec fn deep_view(&self) -> ToolOutcomeView {
        self@
    }
}

impl Duplicate for ToolOutcome {
    fn dup(&self) -> (r: Self) {
        ToolOutcome {
            executed: self.executed,
            success: self.success,
            duration_ms: self.duration_ms,
            output_preview: self.output_preview.clone(),
        }
    }
}

impl Clone for ToolOutcome {
    fn clone(&self) -> (r: Self)
        ensures
            r@ == self@,
    {
        self.dup()
    }
}

impl ToolCallDecision {
    /// The call may run as it is.
    pub fn allow() -> (d: Self)
        ensures
            d@ == (ToolCallDecisionView {
                kind: DecisionKind::Allow,
                reason_code: None,
                message: None,
                modified_call: None,
            }),
    {
        ToolCallDecision {
            kind: DecisionKind::Allow,
            reason_code: None,
            message: None,
            modified_call: None,
        }
    }

    /// The call may not run.
    pub fn block(reason_code: &str, message: &str) -> (d: Self)
        ensures
            d@ == (ToolCallDecisionView {
                kind: DecisionKind::Block,
                reason_code: Some(reason_code@),
                message: Some(message@),
                modified_call: None,
            }),
    {
        ToolCallDecision {
            kind: DecisionKind::Block,
            reason_code: Some(reason_code.to_owned()),
            message: Some(message.to_owned()),
            modified_call: None,
        }
    }

    /// Another call runs in place of this one.
    pub fn modify(modified_call: ToolCall) -> (d: Self)
        ensures
            d@ == (ToolCallDecisionView {
                kind: DecisionKind::Modify,
                reason_code: None,
                message: None,
                modified_call: Some(modified_call@),
            }),
    {
        ToolCallDecision {
            kind: DecisionKind::Modify,
            reason_code: None,
            message: None,
            modified_call: Some(modified_call),
        }
    }
}

} // verus!
