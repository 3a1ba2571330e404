use tool_runtime::protocol::FunctionCallError;
use tool_runtime::protocol::FunctionCallOutputBody;
use tool_runtime::protocol::FunctionCallOutputPayload;
use tool_runtime::protocol::LocalShellAction;
use tool_runtime::protocol::LocalShellExecAction;
use tool_runtime::protocol::ResponseInputItem;
use tool_runtime::protocol::ResponseItem;
use tool_runtime::protocol::SandboxPermissions;
use tool_runtime::protocol::ShellToolCallParams;
use tool_runtime::router::ConfiguredToolSpec;
use tool_runtime::router::ToolCall;
use tool_runtime::router::ToolPayload;
use tool_runtime::router::ToolRouter;
use tool_runtime::router::ToolSpec;

fn configured(name: &str, parallel: bool) -> ConfiguredToolSpec {
    ConfiguredToolSpec {
        spec: ToolSpec { name: name.to_string() },
        supports_parallel_tool_calls: parallel,
    }
}

fn local_shell_item(
    id: Option<&str>,
    call_id: Option<&str>,
    command: &[&str],
) -> ResponseItem {
    ResponseItem::LocalShellCall {
        id: id.map(str::to_string),
        call_id: call_id.map(str::to_string),
        action: LocalShellAction::Exec(LocalShellExecAction {
            command: command.iter().map(|c| c.to_string()).collect(),
            timeout_ms: Some(1000),
            working_directory: Some("/tmp".to_string()),
        }),
    }
}

#[test]
fn shell_aliases_inherit_parallel_support() {
    let router = ToolRouter::from_config(vec![configured("shell", true)]);

    assert!(router.tool_supports_parallel("shell"));
    assert!(router.tool_supports_parallel("shell_command"));
    assert!(router.tool_supports_parallel("container.exec"));
    assert!(router.tool_supports_parallel("local_shell"));
}

#[test]
fn every_alias_spelling_grants_the_whole_set() {
    for granting in ["shell", "container.exec", "local_shell", "shell_command", "exec_command"] {
        let router = ToolRouter::from_config(vec![configured(granting, true)]);
        assert!(router.tool_supports_parallel("exec_command"));
        assert!(router.tool_supports_parallel("shell"));
    }
}

#[test]
fn aliases_without_any_parallel_grant_stay_serial() {
    let router = ToolRouter::from_config(vec![configured("shell", false)]);
    assert!(!router.tool_supports_parallel("shell"));
    assert!(!router.tool_supports_parallel("container.exec"));

    let empty = ToolRouter::from_config(Vec::new());
    assert!(!empty.tool_supports_parallel("local_shell"));
}

#[test]
fn non_alias_tool_reflects_its_own_flag() {
    let router = ToolRouter::from_config(vec![
        configured("web_search", true),
        configured("apply_patch", false),
    ]);
    assert!(router.tool_supports_parallel("web_search"));
    assert!(!router.tool_supports_parallel("apply_patch"));
    assert!(!router.tool_supports_parallel("unconfigured"));
}

#[test]
fn non_alias_tool_is_not_influenced_by_other_tools() {
    let router = ToolRouter::from_config(vec![
        configured("shell", true),
        configured("web_search", true),
        configured("apply_patch", false),
    ]);
    assert!(!router.tool_supports_parallel("apply_patch"));
}

#[test]
fn specs_come_back_in_construction_order() {
    let router = ToolRouter::from_config(vec![
        configured("shell", true),
        configured("web_search", false),
    ]);
    let specs = router.specs();
    assert_eq!(specs.len(), 2);
    assert_eq!(specs[0].name, "shell");
    assert_eq!(specs[1].name, "web_search");
}

#[test]
fn function_call_with_mcp_resolution_builds_mcp_payload() {
    let item = ResponseItem::FunctionCall {
        name: "docs__search".to_string(),
        arguments: "{\"q\":\"verus\"}".to_string(),
        call_id: "call-1".to_string(),
    };
    let resolved = Some(("docs".to_string(), "search".to_string()));
    let call = ToolRouter::build_tool_call(item, resolved).unwrap().unwrap();
    assert_eq!(call.tool_name, "docs__search");
    assert_eq!(call.call_id, "call-1");
    assert_eq!(
        call.payload,
        ToolPayload::Mcp {
            server: "docs".to_string(),
            tool: "search".to_string(),
            raw_arguments: "{\"q\":\"verus\"}".to_string(),
        }
    );
}

#[test]
fn function_call_without_mcp_resolution_builds_function_payload() {
    let item = ResponseItem::FunctionCall {
        name: "web_search".to_string(),
        arguments: "{\"q\":\"verus\"}".to_string(),
        call_id: "call-2".to_string(),
    };
    let call = ToolRouter::build_tool_call(item, None).unwrap().unwrap();
    assert_eq!(call.tool_name, "web_search");
    assert_eq!(call.call_id, "call-2");
    assert_eq!(
        call.payload,
        ToolPayload::Function { arguments: "{\"q\":\"verus\"}".to_string() }
    );
}

#[test]
fn custom_tool_call_builds_custom_payload() {
    let item = ResponseItem::CustomToolCall {
        name: "scribble".to_string(),
        input: "freeform text".to_string(),
        call_id: "call-3".to_string(),
    };
    let call = ToolRouter::build_tool_call(item, None).unwrap().unwrap();
    assert_eq!(call.tool_name, "scribble");
    assert_eq!(call.call_id, "call-3");
    assert_eq!(call.payload, ToolPayload::Custom { input: "freeform text".to_string() });
}

#[test]
fn local_shell_call_translates_exec_action() {
    let item = local_shell_item(None, Some("call-4"), &["echo", "hi"]);
    let call = ToolRouter::build_tool_call(item, None).unwrap().unwrap();
    assert_eq!(call.tool_name, "local_shell");
    assert_eq!(call.call_id, "call-4");
    assert_eq!(
        call.payload,
        ToolPayload::LocalShell {
            params: ShellToolCallParams {
                command: vec!["echo".to_string(), "hi".to_string()],
                workdir: Some("/tmp".to_string()),
                timeout_ms: Some(1000),
                sandbox_permissions: Some(SandboxPermissions::UseDefault),
                prefix_rule: None,
                justification: None,
            }
        }
    );
}

#[test]
fn local_shell_call_prefers_call_id_over_id() {
    let item = local_shell_item(Some("fallback"), Some("explicit"), &["ls"]);
    let call = ToolRouter::build_tool_call(item, None).unwrap().unwrap();
    assert_eq!(call.call_id, "explicit");
}

#[test]
fn local_shell_call_falls_back_to_id() {
    let item = local_shell_item(Some("fallback"), None, &["ls"]);
    let call = ToolRouter::build_tool_call(item, None).unwrap().unwrap();
    assert_eq!(call.call_id, "fallback");
}

#[test]
fn local_shell_call_without_any_id_fails() {
    let item = local_shell_item(None, None, &["ls"]);
    let result = ToolRouter::build_tool_call(item, None);
    assert_eq!(result, Err(FunctionCallError::MissingLocalShellCallId));
}

#[test]
fn non_tool_items_are_not_calls() {
    assert_eq!(ToolRouter::build_tool_call(ResponseItem::Other, None), Ok(None));
}

fn function_call(call_id: &str) -> ToolCall {
    ToolCall {
        tool_name: "web_search".to_string(),
        call_id: call_id.to_string(),
        payload: ToolPayload::Function { arguments: "{}".to_string() },
    }
}

fn custom_call(call_id: &str) -> ToolCall {
    ToolCall {
        tool_name: "scribble".to_string(),
        call_id: call_id.to_string(),
        payload: ToolPayload::Custom { input: "text".to_string() },
    }
}

#[test]
fn dispatch_passes_a_registry_success_through() {
    let router = ToolRouter::from_config(Vec::new());
    let response = ResponseInputItem::FunctionCallOutput {
        call_id: "call-5".to_string(),
        output: FunctionCallOutputPayload {
            body: FunctionCallOutputBody::Text("all good".to_string()),
            success: Some(true),
        },
    };
    let result = router.dispatch_tool_call(function_call("call-5"), Ok(response.clone()));
    assert_eq!(result, Ok(response));
}

#[test]
fn dispatch_propagates_a_fatal_error_unchanged() {
    let router = ToolRouter::from_config(Vec::new());
    let outcome = Err(FunctionCallError::Fatal("unknown tool".to_string()));
    let result = router.dispatch_tool_call(function_call("call-6"), outcome);
    assert_eq!(result, Err(FunctionCallError::Fatal("unknown tool".to_string())));
}

#[test]
fn dispatch_folds_a_recoverable_error_into_a_function_output() {
    let router = ToolRouter::from_config(Vec::new());
    let outcome = Err(FunctionCallError::RespondToModel("tool failed".to_string()));
    let result = router.dispatch_tool_call(function_call("call-7"), outcome);
    assert_eq!(
        result,
        Ok(ResponseInputItem::FunctionCallOutput {
            call_id: "call-7".to_string(),
            output: FunctionCallOutputPayload {
                body: FunctionCallOutputBody::Text("tool failed".to_string()),
                success: Some(false),
            },
        })
    );
}

#[test]
fn dispatch_folds_a_recoverable_error_into_a_custom_output() {
    let router = ToolRouter::from_config(Vec::new());
    let outcome = Err(FunctionCallError::RespondToModel("tool failed".to_string()));
    let result = router.dispatch_tool_call(custom_call("call-8"), outcome);
    assert_eq!(
        result,
        Ok(ResponseInputItem::CustomToolCallOutput {
            call_id: "call-8".to_string(),
            output: "tool failed".to_string(),
        })
    );
}

#[test]
fn dispatch_renders_a_missing_call_id_error_for_the_model() {
    let router = ToolRouter::from_config(Vec::new());
    let outcome = Err(FunctionCallError::MissingLocalShellCallId);
    let result = router.dispatch_tool_call(function_call("call-9"), outcome);
    assert_eq!(
        result,
        Ok(ResponseInputItem::FunctionCallOutput {
            call_id: "call-9".to_string(),
            output: FunctionCallOutputPayload {
                body: FunctionCallOutputBody::Text(
                    "LocalShellCall without call_id or id".to_string()
                ),
                success: Some(false),
            },
        })
    );
}
