use agent_skills_mcp::mcp::{CallArguments, CallParams, McpServer, Request, Response, RpcResult};
use agent_skills_mcp::model::{Mode, SkillData};
use serde_json::Value;

fn skill(name: &str, description: &str, content: &str, path: &str) -> SkillData {
    SkillData {
        name: name.to_string(),
        description: description.to_string(),
        content: content.to_string(),
        relative_path: path.to_string(),
    }
}

fn catalog() -> Vec<SkillData> {
    vec![
        skill("demo", "A demo skill", "Hello", "demo/SKILL.md"),
        skill("other", "Another one", "Other body", "other/SKILL.md"),
    ]
}

fn request(id: Option<Value>, method: &str, params: Option<CallParams>) -> Request {
    Request { id, method: method.to_string(), params }
}

fn get_skill(arg: Option<&str>) -> Option<CallParams> {
    Some(CallParams {
        name: Some("get_skill".to_string()),
        arguments: Some(CallArguments { name: arg.map(|s| s.to_string()) }),
    })
}

fn named_tool(name: &str) -> Option<CallParams> {
    Some(CallParams { name: Some(name.to_string()), arguments: None })
}

fn content_of(r: &Response) -> &str {
    assert!(r.error.is_none());
    match &r.result {
        Some(RpcResult::Content(t)) => t.as_str(),
        _ => panic!("expected a content result"),
    }
}

fn error_code(r: &Response) -> i32 {
    assert!(r.result.is_none());
    r.error.as_ref().expect("an error").code
}

fn tool_count(r: &Response) -> usize {
    match &r.result {
        Some(RpcResult::Tools(t)) => t.len(),
        _ => panic!("expected a tool list"),
    }
}

#[test]
fn single_tool_call_returns_skill_body() {
    let server = McpServer::new(Mode::SingleTool, catalog(), "/skills");
    let r = server.handle_tools_call(request(Some(Value::from(7)), "tools/call", get_skill(Some("other"))));
    assert_eq!(content_of(&r), "Other body");
    assert_eq!(r.id, Some(Value::from(7)));
    assert_eq!(r.jsonrpc, "2.0");
}

#[test]
fn single_tool_call_unknown_skill_is_error() {
    let server = McpServer::new(Mode::SingleTool, catalog(), "/skills");
    let r = server.handle_tools_call(request(Some(Value::from(1)), "tools/call", get_skill(Some("nope"))));
    assert_eq!(error_code(&r), -32602);
    assert_eq!(r.error.unwrap().message, "Tool not found");
}

#[test]
fn single_tool_call_without_argument_is_error() {
    let server = McpServer::new(Mode::SingleTool, catalog(), "/skills");
    let r = server.handle_tools_call(request(Some(Value::from(1)), "tools/call", get_skill(None)));
    assert_eq!(error_code(&r), -32602);
    let r = server.handle_tools_call(request(Some(Value::from(2)), "tools/call", None));
    assert_eq!(error_code(&r), -32602);
}

#[test]
fn prefixed_tool_call_returns_skill_body() {
    let server = McpServer::new(Mode::Tool, catalog(), "/skills");
    let r = server.handle_tools_call(request(Some(Value::from("a")), "tools/call", named_tool("get_skill_demo")));
    assert_eq!(content_of(&r), "Hello");
    let r = server.handle_tools_call(request(Some(Value::from("b")), "tools/call", named_tool("get_skill_nope")));
    assert_eq!(error_code(&r), -32602);
}

#[test]
fn get_skill_outside_single_tool_mode_is_error() {
    let server = McpServer::new(Mode::Tool, catalog(), "/skills");
    let r = server.handle_tools_call(request(Some(Value::from(1)), "tools/call", get_skill(Some("demo"))));
    assert_eq!(error_code(&r), -32602);
}

#[test]
fn duplicate_names_resolve_to_first() {
    let skills = vec![skill("dup", "", "first", "a/SKILL.md"), skill("dup", "", "second", "b/SKILL.md")];
    let server = McpServer::new(Mode::Tool, skills, "/skills");
    let r = server.handle_tools_call(request(None, "tools/call", named_tool("get_skill_dup")));
    assert_eq!(content_of(&r), "first");
    assert_eq!(server.find_skill("dup"), Some(0));
}

#[test]
fn unknown_method_is_error_with_echoed_id() {
    let server = McpServer::new(Mode::Tool, catalog(), "/skills");
    let r = server.handle_request(request(Some(Value::from(42)), "resources/list", None)).unwrap();
    assert_eq!(error_code(&r), -32601);
    assert_eq!(r.error.as_ref().unwrap().message, "Method not found");
    assert_eq!(r.id, Some(Value::from(42)));
    let r = server.handle_request(request(None, "bogus", None)).unwrap();
    assert_eq!(error_code(&r), -32601);
    assert_eq!(r.id, None);
}

#[test]
fn initialized_notification_gets_no_response() {
    for mode in [Mode::Tool, Mode::SystemPrompt, Mode::SingleTool] {
        let server = McpServer::new(mode, catalog(), "/skills");
        assert!(server.handle_request(request(None, "notifications/initialized", None)).is_none());
    }
}

#[test]
fn system_prompt_mode_lists_no_tools() {
    let server = McpServer::new(Mode::SystemPrompt, catalog(), "/skills");
    assert_eq!(tool_count(&server.handle_tools_list(Some(Value::from(1)))), 0);
    let empty = McpServer::new(Mode::SystemPrompt, Vec::new(), "/skills");
    assert_eq!(tool_count(&empty.handle_tools_list(Some(Value::from(1)))), 0);
}

#[test]
fn empty_catalog_still_serves() {
    let tool = McpServer::new(Mode::Tool, Vec::new(), "/skills");
    assert_eq!(tool_count(&tool.handle_request(request(Some(Value::from(1)), "tools/list", None)).unwrap()), 0);
    let single = McpServer::new(Mode::SingleTool, Vec::new(), "/skills");
    assert_eq!(tool_count(&single.handle_request(request(Some(Value::from(1)), "tools/list", None)).unwrap()), 1);
}

#[test]
fn tool_mode_lists_one_tool_per_skill() {
    let server = McpServer::new(Mode::Tool, catalog(), "/skills");
    let r = server.handle_tools_list(Some(Value::from(3)));
    let tools = match &r.result {
        Some(RpcResult::Tools(t)) => t,
        _ => panic!("expected a tool list"),
    };
    assert_eq!(tools.len(), 2);
    assert_eq!(tools[0].name, "get_skill_demo");
    assert_eq!(
        tools[0].description,
        "Returns the content of the skill file at: /skills/demo/SKILL.md\n\n## Skill Description\nA demo skill"
    );
    assert!(tools[0].argument.is_none());
    assert_eq!(tools[1].name, "get_skill_other");
}

#[test]
fn single_tool_mode_lists_get_skill() {
    let server = McpServer::new(Mode::SingleTool, catalog(), "/skills");
    let r = server.handle_tools_list(Some(Value::from(3)));
    let tools = match &r.result {
        Some(RpcResult::Tools(t)) => t,
        _ => panic!("expected a tool list"),
    };
    assert_eq!(tools.len(), 1);
    assert_eq!(tools[0].name, "get_skill");
    assert_eq!(tools[0].description, server.build_single_tool_description());
    let arg = tools[0].argument.as_ref().unwrap();
    assert_eq!(arg.name, "name");
    assert_eq!(arg.description, "The name of the skill to retrieve");
}

#[test]
fn single_tool_description_text() {
    let server = McpServer::new(Mode::SingleTool, catalog(), "/skills");
    assert_eq!(
        server.build_single_tool_description(),
        "Get the content of a skill by name.\n\nAvailable skills:\n\n\
         ## demo\n\n> Path: /skills/demo/SKILL.md\n\nA demo skill\n\n\
         ## other\n\n> Path: /skills/other/SKILL.md\n\nAnother one\n\n"
    );
}

#[test]
fn system_prompt_instructions_text() {
    let server = McpServer::new(Mode::SystemPrompt, vec![skill("demo", "A demo skill", "Hello", "demo/SKILL.md")], "/s");
    let expected = "\nThis MCP server is just a loader of skills. \nThe loading is completed.\n\n\
                    Here are the discovered skills and their brief description. \n\
                    Read the corresponding SKILL.md file to get familiar with their details:\n\n\
                    \n## demo\n\n> Path: /s/demo/SKILL.md\n\nA demo skill\n\n";
    assert_eq!(server.build_system_prompt_instructions(), expected);
    let r = server.handle_initialize(Some(Value::from(1)));
    match r.result {
        Some(RpcResult::Initialize(i)) => {
            assert_eq!(i.instructions, expected);
            assert_eq!(i.protocol_version, "2025-06-18");
            assert_eq!(i.server_name, "agent-skills-mcp");
            assert_eq!(i.server_version, "0.1.0");
        }
        _ => panic!("expected an initialize result"),
    }
}

#[test]
fn initialize_has_empty_instructions_outside_system_prompt() {
    for mode in [Mode::Tool, Mode::SingleTool] {
        let server = McpServer::new(mode, catalog(), "/skills");
        match server.handle_initialize(None).result {
            Some(RpcResult::Initialize(i)) => assert_eq!(i.instructions, ""),
            _ => panic!("expected an initialize result"),
        }
    }
}

#[test]
fn three_requests_give_three_responses() {
    let server = McpServer::new(Mode::SingleTool, vec![skill("demo", "", "Hello", "demo/SKILL.md")], "/skills");
    let lines = vec![
        request(Some(Value::from(1)), "initialize", None),
        request(Some(Value::from(2)), "tools/list", None),
        request(Some(Value::from(3)), "tools/call", get_skill(Some("demo"))),
    ];
    let out: Vec<Response> = lines.into_iter().filter_map(|r| server.handle_request(r)).collect();
    assert_eq!(out.len(), 3);
    assert_eq!(out[0].id, Some(Value::from(1)));
    assert_eq!(out[1].id, Some(Value::from(2)));
    assert_eq!(out[2].id, Some(Value::from(3)));
    assert_eq!(content_of(&out[2]), "Hello");
}
