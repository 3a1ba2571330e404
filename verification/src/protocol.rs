//! The wire-level shapes the runtime consumes and produces, modelled as plain
//! data: response items coming in from the model, result items going back,
//! the shell-call parameter record, and the dispatch error taxonomy.

use vstd::prelude::*;

verus! {

/// Sandbox permission mode attached to a translated legacy shell call.
#[derive(Clone, Copy, Debug, PartialEq, Eq)]
pub enum SandboxPermissions {
    UseDefault,
}

/// Structured parameters of a shell tool call.
#[derive(Clone, Debug, PartialEq, Eq)]
pub struct ShellToolCallParams {
    pub command: Vec<String>,
    pub workdir: Option<String>,
    pub timeout_ms: Option<u64>,
    pub sandbox_permissions: Option<SandboxPermissions>,
    pub prefix_rule: Option<String>,
    pub justification: Option<String>,
}

/// The action carried by a legacy local-shell call item.
#[derive(Clone, Debug, PartialEq, Eq)]
pub struct LocalShellExecAction {
    pub command: Vec<String>,
    pub timeout_ms: Option<u64>,
    pub working_directory: Option<String>,
}

#[derive(Clone, Debug, PartialEq, Eq)]
pub enum LocalShellAction {
    Exec(LocalShellExecAction),
}

/// A model-issued response item, as far as the router reads it. Item kinds
/// that are not tool calls are collapsed into `Other`.
#[derive(Clone, Debug, PartialEq, Eq)]
pub enum ResponseItem {
    FunctionCall { name: String, arguments: String, call_id: String },
    CustomToolCall { name: String, input: String, call_id: String },
    LocalShellCall { id: Option<String>, call_id: Option<String>, action: LocalShellAction },
    Other,
}

/// Body of a function-call output item.
#[derive(Clone, Debug, PartialEq, Eq)]
pub enum FunctionCallOutputBody {
    Text(String),
}

#[derive(Clone, Debug, PartialEq, Eq)]
pub struct FunctionCallOutputPayload {
    pub body: FunctionCallOutputBody,
    pub success: Option<bool>,
}

/// A conversation-visible tool result, shaped after the payload that
/// produced it.
#[derive(Clone, Debug, PartialEq, Eq)]
pub enum ResponseInputItem {
    FunctionCallOutput { call_id: String, output: FunctionCallOutputPayload },
    CustomToolCallOutput { call_id: String, output: String },
}

/// Dispatch error taxonomy. Only `Fatal` may unwind past the router; every
/// other variant is folded into a conversation-visible failure item.
#[derive(Clone, Debug, PartialEq, Eq)]
pub enum FunctionCallError {
    RespondToModel(String),
    MissingLocalShellCallId,
    Fatal(String),
}

/// The display text of a dispatch error, as it is shown to the model.
pub open spec fn spec_error_message(e: FunctionCallError) -> Seq<char> {
    match e {
        FunctionCallError::RespondToModel(m) => m@,
        FunctionCallError::MissingLocalShellCallId => "LocalShellCall without call_id or id"@,
        FunctionCallError::Fatal(m) => m@,
    }
}

impl FunctionCallError {
    /// Renders the error as the text a conversation item carries.
    pub fn message(&self) -> (r: String)
        ensures
            r@ == spec_error_message(*self),
    {
        match self {
            FunctionCallError::RespondToModel(m) => m.clone(),
            FunctionCallError::MissingLocalShellCallId => String::from_str(
                "LocalShellCall without call_id or id",
            ),
            FunctionCallError::Fatal(m) => m.clone(),
        }
    }
}

/// One unit of user input handed to a task.
#[derive(Clone, Debug, PartialEq, Eq)]
pub enum UserInput {
    Text { text: String },
}

/// An error event destined for the session transcript: the rendered failure
/// plus the context line that names what was running.
#[derive(Clone, Debug, PartialEq, Eq)]
pub struct ErrorEvent {
    pub message: String,
    pub context: Option<String>,
}

/// A session-visible event, as far as this runtime emits any.
#[derive(Clone, Debug, PartialEq, Eq)]
pub enum EventMsg {
    Error(ErrorEvent),
}

} // verus!
