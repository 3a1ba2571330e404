//! The tool router: holds the configured tool specs, answers the
//! parallel-eligibility policy query (with shell-alias resolution),
//! normalizes incoming response items into [`ToolCall`]s, and folds a
//! registry outcome into either a propagated fatal error or a
//! conversation-visible failure item.

use vstd::prelude::*;

use crate::protocol::FunctionCallError;
use crate::protocol::FunctionCallOutputBody;
use crate::protocol::FunctionCallOutputPayload;
use crate::protocol::LocalShellAction;
use crate::protocol::ResponseInputItem;
use crate::protocol::ResponseItem;
use crate::protocol::SandboxPermissions;
use crate::protocol::ShellToolCallParams;
use crate::protocol::spec_error_message;

verus! {

/// The payload shapes a tool call can carry, one active variant per call.
#[derive(Clone, Debug, PartialEq, Eq)]
pub enum ToolPayload {
    Function { arguments: String },
    Mcp { server: String, tool: String, raw_arguments: String },
    Custom { input: String },
    LocalShell { params: ShellToolCallParams },
}

/// A normalized request to invoke one capability. `call_id` is the
/// correlation key and is preserved verbatim through success and failure.
#[derive(Clone, Debug, PartialEq, Eq)]
pub struct ToolCall {
    pub tool_name: String,
    pub call_id: String,
    pub payload: ToolPayload,
}

/// An externally-advertised tool specification; the router only reads its
/// name.
#[derive(Debug, PartialEq, Eq)]
pub struct ToolSpec {
    pub name: String,
}

impl Clone for ToolSpec {
    fn clone(&self) -> (r: Self)
        ensures
            r == *self,
    {
        ToolSpec { name: self.name.clone() }
    }
}

impl ToolSpec {
    pub fn name(&self) -> (r: &str)
        ensures
            r@ == self.name@,
    {
        self.name.as_str()
    }
}

/// One configured tool: its advertised spec plus the parallel-execution
/// flag, fixed when the router is built.
#[derive(Debug, PartialEq, Eq)]
pub struct ConfiguredToolSpec {
    pub spec: ToolSpec,
    pub supports_parallel_tool_calls: bool,
}

impl Clone for ConfiguredToolSpec {
    fn clone(&self) -> (r: Self)
        ensures
            r == *self,
    {
        ConfiguredToolSpec {
            spec: self.spec.clone(),
            supports_parallel_tool_calls: self.supports_parallel_tool_calls,
        }
    }
}

impl ConfiguredToolSpec {
    /// True when this entry alone makes `name` parallel-eligible.
    pub open spec fn grants_parallel(self, name: Seq<char>) -> bool {
        self.supports_parallel_tool_calls && self.spec.name@ == name
    }
}

/// Some configured entry named `name` carries the parallel flag.
pub open spec fn configured_parallel(specs: Seq<ConfiguredToolSpec>, name: Seq<char>) -> bool {
    exists|i: int| 0 <= i < specs.len() && (#[trigger] specs[i].grants_parallel(name))
}

/// Membership in the fixed shell alias set: one logical shell capability
/// exposed under several names.
pub open spec fn shell_alias(name: Seq<char>) -> bool {
    ||| name == "shell"@
    ||| name == "container.exec"@
    ||| name == "local_shell"@
    ||| name == "shell_command"@
    ||| name == "exec_command"@
}

/// Some spelling of the shell alias set is configured with parallel support.
pub open spec fn any_shell_alias_parallel(specs: Seq<ConfiguredToolSpec>) -> bool {
    ||| configured_parallel(specs, "shell"@)
    ||| configured_parallel(specs, "container.exec"@)
    ||| configured_parallel(specs, "local_shell"@)
    ||| configured_parallel(specs, "shell_command"@)
    ||| configured_parallel(specs, "exec_command"@)
}

/// The parallel-eligibility policy: a tool is eligible when it is configured
/// so itself, or when it is a shell alias and any alias spelling is.
pub open spec fn supports_parallel(specs: Seq<ConfiguredToolSpec>, name: Seq<char>) -> bool {
    ||| configured_parallel(specs, name)
    ||| (shell_alias(name) && any_shell_alias_parallel(specs))
}

/// The id under which a legacy local-shell call is correlated: the explicit
/// `call_id` when present, else the fallback `id`.
pub open spec fn resolved_local_shell_call_id(call_id: Option<String>, id: Option<String>) -> Option<
    String,
> {
    if call_id is Some {
        call_id
    } else {
        id
    }
}

/// The tool call a legacy local-shell item translates to: the fixed
/// `local_shell` tool name, the resolved id, and the shell parameters with
/// sandbox permissions defaulted and prefix rule and justification unset.
pub open spec fn local_shell_translation(
    c: ToolCall,
    cid: String,
    action: LocalShellAction,
) -> bool {
    &&& c.tool_name@ == "local_shell"@
    &&& c.call_id == cid
    &&& match action {
        LocalShellAction::Exec(exec) => c.payload == (ToolPayload::LocalShell {
            params: ShellToolCallParams {
                command: exec.command,
                workdir: exec.working_directory,
                timeout_ms: exec.timeout_ms,
                sandbox_permissions: Some(SandboxPermissions::UseDefault),
                prefix_rule: None,
                justification: None,
            },
        }),
    }
}

/// The failure item a recoverable dispatch error folds into: shaped after
/// the original payload, carrying the error text, correlated by `call_id`.
pub open spec fn failure_shaped(
    item: ResponseInputItem,
    call_id: Seq<char>,
    outputs_custom: bool,
    message: Seq<char>,
) -> bool {
    if outputs_custom {
        match item {
            ResponseInputItem::CustomToolCallOutput { call_id: c, output } => c@ == call_id
                && output@ == message,
            _ => false,
        }
    } else {
        match item {
            ResponseInputItem::FunctionCallOutput { call_id: c, output } => {
                &&& c@ == call_id
                &&& output.success == Some(false)
                &&& match output.body {
                    FunctionCallOutputBody::Text(t) => t@ == message,
                }
            },
            _ => false,
        }
    }
}

/// Law: the shell aliases expose one capability. If any alias spelling is
/// configured with parallel support, then every alias spelling is
/// parallel-eligible.
pub proof fn lemma_shell_alias_closure(
    specs: Seq<ConfiguredToolSpec>,
    configured: Seq<char>,
    queried: Seq<char>,
)
    requires
        shell_alias(configured),
        shell_alias(queried),
        configured_parallel(specs, configured),
    ensures
        supports_parallel(specs, queried),
{
}

/// Law: a name outside the shell alias set is parallel-eligible exactly
/// when that name itself is configured with parallel support.
pub proof fn lemma_non_alias_reflects_own_flag(specs: Seq<ConfiguredToolSpec>, name: Seq<char>)
    requires
        !shell_alias(name),
    ensures
        supports_parallel(specs, name) == configured_parallel(specs, name),
{
}

/// Law: no cross-influence between tools. For a name outside the shell
/// alias set, configuring one more tool under a different name leaves the
/// name's parallel eligibility unchanged.
pub proof fn lemma_non_alias_no_cross_influence(
    specs: Seq<ConfiguredToolSpec>,
    other: ConfiguredToolSpec,
    name: Seq<char>,
)
    requires
        !shell_alias(name),
        other.spec.name@ != name,
    ensures
        supports_parallel(specs.push(other), name) == supports_parallel(specs, name),
{
    let extended = specs.push(other);
    if configured_parallel(specs, name) {
        let i = choose|i: int| 0 <= i < specs.len() && (#[trigger] specs[i].grants_parallel(name));
        assert(extended[i] == specs[i]);
        assert(extended[i].grants_parallel(name));
    }
    if configured_parallel(extended, name) {
        let i = choose|i: int|
            0 <= i < extended.len() && (#[trigger] extended[i].grants_parallel(name));
        if i < specs.len() {
            assert(specs[i] == extended[i]);
            assert(specs[i].grants_parallel(name));
        } else {
            assert(extended[i] == other);
        }
    }
}

/// Exact equality of two string slices, stated over their views.
fn str_eq(a: &str, b: &str) -> (r: bool)
    ensures
        r == (a@ == b@),
{
    let a = String::from_str(a);
    let b = String::from_str(b);
    a == b
}

/// Whether `name` is one of the shell alias spellings.
fn is_shell_alias(name: &str) -> (r: bool)
    ensures
        r == shell_alias(name@),
{
    str_eq(name, "shell") || str_eq(name, "container.exec") || str_eq(name, "local_shell")
        || str_eq(name, "shell_command") || str_eq(name, "exec_command")
}

/// The router: an immutable snapshot of the configured tool specs. The
/// registry that executes calls is an external collaborator; the router
/// classifies its outcomes.
pub struct ToolRouter {
    specs: Vec<ConfiguredToolSpec>,
}

impl View for ToolRouter {
    type V = Seq<ConfiguredToolSpec>;

    closed spec fn view(&self) -> Seq<ConfiguredToolSpec> {
        self.specs@
    }
}

impl ToolRouter {
    /// Builds the router from the spec list the configuration snapshot
    /// produced; the list is never mutated afterwards.
    pub fn from_config(specs: Vec<ConfiguredToolSpec>) -> (r: ToolRouter)
        ensures
            r@ == specs@,
    {
        ToolRouter { specs }
    }

    /// The externally-advertised tool specifications, in construction order.
    pub fn specs(&self) -> (r: Vec<ToolSpec>)
        ensures
            r@.len() == self@.len(),
            forall|i: int| 0 <= i < r@.len() ==> r@[i] == self@[i].spec,
    {
        let mut out: Vec<ToolSpec> = Vec::new();
        let mut i: usize = 0;
        while i < self.specs.len()
            invariant
                i <= self.specs@.len(),
                out@.len() == i as int,
                forall|j: int| 0 <= j < i as int ==> out@[j] == self@[j].spec,
            decreases self.specs@.len() - i as int,
        {
            out.push(self.specs[i].spec.clone());
            i += 1;
        }
        out
    }

    /// The policy query: direct configuration first, then the alias-closure
    /// rule for the shell alias set.
    pub fn tool_supports_parallel(&self, tool_name: &str) -> (r: bool)
        ensures
            r == supports_parallel(self@, tool_name@),
    {
        if self.configured_tool_supports_parallel(tool_name) {
            return true;
        }
        if is_shell_alias(tool_name) {
            return self.configured_tool_supports_parallel("shell")
                || self.configured_tool_supports_parallel("container.exec")
                || self.configured_tool_supports_parallel("local_shell")
                || self.configured_tool_supports_parallel("shell_command")
                || self.configured_tool_supports_parallel("exec_command");
        }
        false
    }

    /// Whether `tool_name` itself is configured with parallel support.
    pub fn configured_tool_supports_parallel(&self, tool_name: &str) -> (r: bool)
        ensures
            r == configured_parallel(self@, tool_name@),
    {
        let mut i: usize = 0;
        while i < self.specs.len()
            invariant
                i <= self.specs@.len(),
                forall|j: int| 0 <= j < i as int ==> !(#[trigger] self@[j].grants_parallel(
                    tool_name@,
                )),
            decreases self.specs@.len() - i as int,
        {
            let entry = &self.specs[i];
            if entry.supports_parallel_tool_calls && str_eq(entry.spec.name(), tool_name) {
                assert(self@[i as int].grants_parallel(tool_name@));
                return true;
            }
            i += 1;
        }
        false
    }

    /// Normalizes a model-issued response item into a tool call. The caller
    /// supplies the session's MCP lookup answer for a function-call item's
    /// name (`None` for every other item kind). Item kinds that are not tool
    /// calls yield `Ok(None)`; a legacy local-shell item without any usable
    /// id is the one hard failure.
    pub fn build_tool_call(item: ResponseItem, mcp_tool: Option<(String, String)>) -> (r: Result<
        Option<ToolCall>,
        FunctionCallError,
    >)
        ensures
            match item {
                ResponseItem::FunctionCall { name, arguments, call_id } => match mcp_tool {
                    Some(st) => r == Ok::<Option<ToolCall>, FunctionCallError>(
                        Some(
                            ToolCall {
                                tool_name: name,
                                call_id,
                                payload: ToolPayload::Mcp {
                                    server: st.0,
                                    tool: st.1,
                                    raw_arguments: arguments,
                                },
                            },
                        ),
                    ),
                    None => r == Ok::<Option<ToolCall>, FunctionCallError>(
                        Some(
                            ToolCall {
                                tool_name: name,
                                call_id,
                                payload: ToolPayload::Function { arguments },
                            },
                        ),
                    ),
                },
                ResponseItem::CustomToolCall { name, input, call_id } => r == Ok::<
                    Option<ToolCall>,
                    FunctionCallError,
                >(Some(ToolCall { tool_name: name, call_id, payload: ToolPayload::Custom { input } })),
                ResponseItem::LocalShellCall { id, call_id, action } => match
                resolved_local_shell_call_id(call_id, id) {
                    Some(cid) => match r {
                        Ok(Some(c)) => local_shell_translation(c, cid, action),
                        _ => false,
                    },
                    None => r == Err::<Option<ToolCall>, FunctionCallError>(
                        FunctionCallError::MissingLocalShellCallId,
                    ),
                },
                ResponseItem::Other => r == Ok::<Option<ToolCall>, FunctionCallError>(None),
            },
    {
        match item {
            ResponseItem::FunctionCall { name, arguments, call_id } => {
                if let Some((server, tool)) = mcp_tool {
                    Ok(
                        Some(
                            ToolCall {
                                tool_name: name,
                                call_id,
                                payload: ToolPayload::Mcp { server, tool, raw_arguments: arguments },
                            },
                        ),
                    )
                } else {
                    Ok(
                        Some(
                            ToolCall {
                                tool_name: name,
                                call_id,
                                payload: ToolPayload::Function { arguments },
                            },
                        ),
                    )
                }
            },
            ResponseItem::CustomToolCall { name, input, call_id } => {
                Ok(Some(ToolCall { tool_name: name, call_id, payload: ToolPayload::Custom { input } }))
            },
            ResponseItem::LocalShellCall { id, call_id, action } => {
                let cid = match call_id {
                    Some(c) => c,
                    None => match id {
                        Some(i) => i,
                        None => {
                            return Err(FunctionCallError::MissingLocalShellCallId);
                        },
                    },
                };
                match action {
                    LocalShellAction::Exec(exec) => {
                        let params = ShellToolCallParams {
                            command: exec.command,
                            workdir: exec.working_directory,
                            timeout_ms: exec.timeout_ms,
                            sandbox_permissions: Some(SandboxPermissions::UseDefault),
                            prefix_rule: None,
                            justification: None,
                        };
                        Ok(
                            Some(
                                ToolCall {
                                    tool_name: String::from_str("local_shell"),
                                    call_id: cid,
                                    payload: ToolPayload::LocalShell { params },
                                },
                            ),
                        )
                    },
                }
            },
            ResponseItem::Other => Ok(None),
        }
    }

    /// The dispatch fold, the error-isolation contract: the caller has run
    /// the registry on this call's invocation and hands back the outcome. A
    /// success passes through unchanged; a `Fatal` error propagates
    /// unchanged; any other error becomes a failure item shaped after the
    /// call's payload, so the conversation continues.
    pub fn dispatch_tool_call(
        &self,
        call: ToolCall,
        registry_outcome: Result<ResponseInputItem, FunctionCallError>,
    ) -> (r: Result<ResponseInputItem, FunctionCallError>)
        ensures
            match registry_outcome {
                Ok(response) => r == Ok::<ResponseInputItem, FunctionCallError>(response),
                Err(FunctionCallError::Fatal(message)) => r == Err::<
                    ResponseInputItem,
                    FunctionCallError,
                >(FunctionCallError::Fatal(message)),
                Err(err) => match r {
                    Ok(item) => failure_shaped(
                        item,
                        call.call_id@,
                        call.payload is Custom,
                        spec_error_message(err),
                    ),
                    _ => false,
                },
            },
    {
        let ToolCall { tool_name: _, call_id, payload } = call;
        let payload_outputs_custom = matches!(payload, ToolPayload::Custom { .. });

        match registry_outcome {
            Ok(response) => Ok(response),
            Err(FunctionCallError::Fatal(message)) => Err(FunctionCallError::Fatal(message)),
            Err(err) => Ok(Self::failure_response(call_id, payload_outputs_custom, err)),
        }
    }

    /// Renders a recoverable error as a conversation item in the same
    /// channel the call came from.
    fn failure_response(
        call_id: String,
        payload_outputs_custom: bool,
        err: FunctionCallError,
    ) -> (r: ResponseInputItem)
        ensures
            failure_shaped(r, call_id@, payload_outputs_custom, spec_error_message(err)),
    {
        let message = err.message();
        if payload_outputs_custom {
            ResponseInputItem::CustomToolCallOutput { call_id, output: message }
        } else {
            ResponseInputItem::FunctionCallOutput {
                call_id,
                output: FunctionCallOutputPayload {
                    body: FunctionCallOutputBody::Text(message),
                    success: Some(false),
                },
            }
        }
    }
}

} // verus!
