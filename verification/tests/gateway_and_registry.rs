use rbx_studio_mcp::http_gateway::classify_submit;
use rbx_studio_mcp::http_gateway::luau_content_type;
use rbx_studio_mcp::http_gateway::poll_response;
use rbx_studio_mcp::http_gateway::submit_response;
use rbx_studio_mcp::http_gateway::PluginHttpResponse;
use rbx_studio_mcp::http_gateway::PollAwaitOutcome;
use rbx_studio_mcp::http_gateway::SubmitDecision;
use rbx_studio_mcp::registry::build_tool_registry;
use rbx_studio_mcp::registry::luau_tool_stem;
use rbx_studio_mcp::registry::DirEntryRecord;
use rbx_studio_mcp::registry::DiscoveredTool;
use rbx_studio_mcp::registry::ToolRegistry;
use rbx_studio_mcp::server::RBXStudioServer;
use rbx_studio_mcp::server::ToolCallPlan;
use rbx_studio_mcp::tool_args::ToolArgumentValues;
use rbx_studio_mcp::tool_args::ToolArguments;
use rbx_studio_mcp::tool_result::ContentItem;
use rbx_studio_mcp::tool_result::ToolResult;
use rbx_studio_mcp::LONG_POLL_DURATION_SECS;
use rbx_studio_mcp::STUDIO_PLUGIN_PORT;
use rbx_studio_mcp::TOOL_EXECUTION_TIMEOUT_SECS;

fn entry(is_file: bool, name: &str) -> DirEntryRecord {
    DirEntryRecord {
        is_file,
        file_name: name.to_string(),
        file_path: format!("./plugin/src/Tools/{}", name),
    }
}

fn text_result(text: &str) -> ToolResult {
    ToolResult {
        content: vec![ContentItem::Text { text: text.to_string() }],
        is_error: None,
    }
}

#[test]
fn configured_constants() {
    assert_eq!(STUDIO_PLUGIN_PORT, 44755);
    assert_eq!(LONG_POLL_DURATION_SECS, 25);
    assert_eq!(TOOL_EXECUTION_TIMEOUT_SECS, 30);
    assert!(LONG_POLL_DURATION_SECS <= TOOL_EXECUTION_TIMEOUT_SECS);
}

#[test]
fn status_codes() {
    assert_eq!(PluginHttpResponse::TaskBody { body: "x".to_string() }.status_code(), 200);
    assert_eq!(PluginHttpResponse::NoContent.status_code(), 204);
    assert_eq!(
        PluginHttpResponse::BadRequest { message: "m".to_string() }.status_code(),
        400
    );
    assert_eq!(PluginHttpResponse::BrokerGone.status_code(), 500);
    assert_eq!(luau_content_type(), "application/luau");
}

#[test]
fn submit_with_valid_header_and_body_is_forwarded() {
    let result = text_result("1");
    let decision = classify_submit("550e8400-e29b-41d4-a716-446655440000", Some(result.clone()));
    assert_eq!(
        decision,
        SubmitDecision::Forward {
            task_id: 0x550e8400e29b41d4a716446655440000,
            result,
        }
    );
}

#[test]
fn submit_with_bad_header_is_rejected() {
    let decision = classify_submit("not-a-uuid", Some(text_result("1")));
    match decision {
        SubmitDecision::Reject { response: PluginHttpResponse::BadRequest { message } } => {
            assert_eq!(message, "Invalid X-MCP-Task-ID header");
        }
        other => panic!("expected a 400 rejection, got {:?}", other),
    }
}

#[test]
fn submit_with_bad_body_is_rejected() {
    let decision = classify_submit("550e8400-e29b-41d4-a716-446655440000", None);
    match decision {
        SubmitDecision::Reject { response: PluginHttpResponse::BadRequest { message } } => {
            assert_eq!(message, "Invalid result JSON");
        }
        other => panic!("expected a 400 rejection, got {:?}", other),
    }
}

#[test]
fn submit_response_depends_on_broker_send() {
    assert_eq!(submit_response(true), PluginHttpResponse::NoContent);
    assert_eq!(submit_response(false), PluginHttpResponse::BrokerGone);
}

#[test]
fn poll_response_serves_task_or_no_content() {
    let task = ToolArguments {
        args: ToolArgumentValues::RunCommand { command: "print(1)".to_string() },
        id: Some(0x550e8400e29b41d4a716446655440000),
    };
    match poll_response(PollAwaitOutcome::Task { task: task.clone() }) {
        PluginHttpResponse::TaskBody { body } => assert_eq!(body, task.to_luau_string()),
        other => panic!("expected a task body, got {:?}", other),
    }
    assert_eq!(poll_response(PollAwaitOutcome::NoTask), PluginHttpResponse::NoContent);
    assert_eq!(poll_response(PollAwaitOutcome::ChannelClosed), PluginHttpResponse::NoContent);
    assert_eq!(poll_response(PollAwaitOutcome::TimedOut), PluginHttpResponse::NoContent);
}

#[test]
fn luau_stem_splits_like_a_path() {
    assert_eq!(luau_tool_stem("Foo.luau"), Some("Foo".to_string()));
    assert_eq!(luau_tool_stem("a.b.luau"), Some("a.b".to_string()));
    assert_eq!(luau_tool_stem("Foo.lua"), None);
    assert_eq!(luau_tool_stem("Foo.LUAU"), None);
    assert_eq!(luau_tool_stem("Foo"), None);
    // A leading dot starts no extension: this is a hidden file named
    // ".luau", not an empty stem with a luau extension.
    assert_eq!(luau_tool_stem(".luau"), None);
    assert_eq!(luau_tool_stem(""), None);
}

#[test]
fn registry_keeps_only_luau_files() {
    let reg = build_tool_registry(vec![
        entry(true, "CreatePart.luau"),
        entry(true, "notes.txt"),
        entry(false, "Nested.luau"),
        entry(true, "Weld.luau"),
        entry(true, ".luau"),
    ]);
    assert!(reg.contains_tool("CreatePart"));
    assert!(reg.contains_tool("Weld"));
    assert!(!reg.contains_tool("notes"));
    assert!(!reg.contains_tool("Nested"));
    assert!(!reg.contains_tool(""));
    let names = reg.tool_names();
    assert_eq!(names, vec!["CreatePart".to_string(), "Weld".to_string()]);
}

#[test]
fn empty_registry_has_no_tools() {
    let reg = ToolRegistry::new();
    assert!(!reg.contains_tool("Anything"));
    assert!(reg.tool_names().is_empty());
    let reg = build_tool_registry(Vec::new());
    assert!(reg.tool_names().is_empty());
}

#[test]
fn tool_result_error_text_marks_the_error() {
    let r = ToolResult::error_text("boom".to_string());
    assert_eq!(r.is_error, Some(true));
    assert_eq!(r.content, vec![ContentItem::Text { text: "boom".to_string() }]);
}

#[test]
fn s5_unknown_luau_tool() {
    let server = RBXStudioServer::new(ToolRegistry::new());
    let plan = server.execute_discovered_luau_tool("Nope".to_string(), "{}".to_string());
    match plan {
        ToolCallPlan::Immediate { result } => {
            assert_eq!(result.is_error, Some(true));
            assert_eq!(
                result.content,
                vec![ContentItem::Text { text: "Luau tool 'Nope' not found.".to_string() }]
            );
        }
        other => panic!("expected an immediate tool error, got {:?}", other),
    }
}

#[test]
fn known_luau_tool_is_dispatched() {
    let reg = build_tool_registry(vec![entry(true, "CreatePart.luau")]);
    let server = RBXStudioServer::new(reg);
    let plan = server.execute_discovered_luau_tool("CreatePart".to_string(), "{}".to_string());
    assert_eq!(
        plan,
        ToolCallPlan::Dispatch {
            values: ToolArgumentValues::ExecuteLuauByName {
                tool_name: "CreatePart".to_string(),
                arguments_luau: "{}".to_string(),
            }
        }
    );
    assert_eq!(server.discovered_tool_names(), vec!["CreatePart".to_string()]);
}

#[test]
fn instructions_name_every_discovered_tool() {
    let reg = build_tool_registry(vec![
        entry(true, "CreatePart.luau"),
        entry(true, "Weld.luau"),
    ]);
    let server = RBXStudioServer::new(reg);
    assert_eq!(
        server.discovered_tool_names(),
        vec!["CreatePart".to_string(), "Weld".to_string()]
    );
    let text = server.instructions();
    assert!(text.ends_with("the discovered Luau tools: CreatePart, Weld."));
    let empty = RBXStudioServer::new(ToolRegistry::new());
    assert!(empty.instructions().ends_with("the discovered Luau tools: ."));
}

#[test]
fn static_tools_always_dispatch() {
    assert_eq!(
        RBXStudioServer::run_command("print(1)".to_string()),
        ToolCallPlan::Dispatch {
            values: ToolArgumentValues::RunCommand { command: "print(1)".to_string() }
        }
    );
    assert_eq!(
        RBXStudioServer::insert_model("tree".to_string()),
        ToolCallPlan::Dispatch {
            values: ToolArgumentValues::InsertModel { query: "tree".to_string() }
        }
    );
}

#[test]
fn discovered_tool_is_a_plain_record() {
    let tool = DiscoveredTool { file_path: "./plugin/src/Tools/Weld.luau".to_string() };
    assert_eq!(tool.file_path, "./plugin/src/Tools/Weld.luau");
}
