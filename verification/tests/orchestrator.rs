use ai_agent::agent::{
    advisory_message, request_body, Agent, BackendReply, OutcomeKind, TurnDirective,
};
use ai_agent::args::ArgValue;
use ai_agent::flight_tools::{register_flight_tools, BuiltinTool};
use ai_agent::protocol::{AgentStatus, ConversationEntry, ToolCall};
use ai_agent::tools::{HelpTool, ToolRegistry};

fn obj(pairs: Vec<(&str, ArgValue)>) -> ArgValue {
    ArgValue::Obj(pairs.into_iter().map(|(k, v)| (k.to_string(), v)).collect())
}

fn s(text: &str) -> ArgValue {
    ArgValue::Str(text.to_string())
}

fn builtin_registry() -> ToolRegistry<BuiltinTool> {
    let mut registry = ToolRegistry::new();
    registry.register(BuiltinTool::Help(HelpTool::new(vec![
        "help".to_string(),
        "get_flight_number".to_string(),
        "get_ticket_price".to_string(),
    ])));
    register_flight_tools(&mut registry);
    registry
}

fn flight_call(id: &str) -> ToolCall {
    ToolCall {
        id: id.to_string(),
        name: "get_flight_number".to_string(),
        arguments: obj(vec![
            ("departure", s("北京")),
            ("destination", s("上海")),
            ("date", s("2024-01-20")),
        ]),
    }
}

fn tool_turn(id: &str) -> BackendReply {
    BackendReply::Completed { text: String::new(), tool_calls: Some(vec![flight_call(id)]) }
}

#[test]
fn test_agent_creation() {
    let agent = Agent::new(builtin_registry());

    let status = agent.get_status();
    assert_eq!(status, AgentStatus::Idle);
}

#[test]
fn test_agent_reset() {
    let mut agent = Agent::new(builtin_registry());

    agent.begin_exchange("hello");
    assert_eq!(agent.history().len(), 1);

    agent.reset();

    assert!(agent.history().is_empty());
    assert_eq!(agent.get_status(), AgentStatus::Idle);
}

#[test]
fn test_basic_conversation() {
    let mut agent = Agent::new(builtin_registry());

    let outcome = agent.run_exchange(
        "hello",
        vec![BackendReply::Completed { text: "hi there".to_string(), tool_calls: None }],
    );

    assert!(matches!(outcome.kind, OutcomeKind::Final { ref text } if text == "hi there"));
    assert_eq!(outcome.backend_calls, 1);
    assert_eq!(agent.get_status(), AgentStatus::Idle);
}

#[test]
fn test_tool_registration() {
    let registry = builtin_registry();
    let defs = registry.list_definitions();
    assert_eq!(defs.len(), 3);
    let agent = Agent::new(registry);
    println!("Agent status: {:?}", agent.get_status());
}

#[test]
fn turn_budget_is_exact() {
    let mut agent = Agent::with_max_turns(builtin_registry(), 3);

    // A backend that always requests a tool call.
    let replies = vec![
        tool_turn("c1"),
        tool_turn("c2"),
        tool_turn("c3"),
        tool_turn("c4"),
        tool_turn("c5"),
    ];
    let outcome = agent.run_exchange("book me a flight", replies);

    assert_eq!(outcome.backend_calls, 3);
    match outcome.kind {
        OutcomeKind::BudgetExhausted { advisory } => {
            assert_eq!(advisory, "\n🔄 已达到最大对话轮次，建议重新开始对话。");
            assert_eq!(advisory, advisory_message());
        },
        other => panic!("expected the advisory, got {:?}", other),
    }
}

#[test]
fn flight_scenario_two_turns() {
    let mut agent = Agent::new(builtin_registry());

    let replies = vec![
        tool_turn("call_1"),
        BackendReply::Completed {
            text: "您的航班号是 1234。".to_string(),
            tool_calls: None,
        },
    ];
    let outcome = agent.run_exchange("flight from 北京 to 上海 on 2024-01-20", replies);

    assert_eq!(outcome.backend_calls, 2);
    match outcome.kind {
        OutcomeKind::Final { text } => assert_eq!(text, "您的航班号是 1234。"),
        other => panic!("expected the final answer, got {:?}", other),
    }

    // The history holds: user, assistant with the call, the tool result,
    // and the final assistant entry.
    let history = agent.history();
    assert_eq!(history.len(), 4);
    match &history[2] {
        ConversationEntry::Tool(result) => {
            assert_eq!(result.tool_call_id, "call_1");
            assert!(result.content.contains("1234"));
        },
        other => panic!("expected a tool result entry, got {:?}", other),
    }
}

#[test]
fn lookup_failure_aborts_exchange() {
    let mut agent = Agent::new(builtin_registry());

    let absent = ToolCall {
        id: "call_9".to_string(),
        name: "get_flight_number".to_string(),
        arguments: obj(vec![
            ("departure", s("深圳")),
            ("destination", s("北京")),
            ("date", s("2024-01-20")),
        ]),
    };
    let replies = vec![BackendReply::Completed {
        text: String::new(),
        tool_calls: Some(vec![absent]),
    }];
    let outcome = agent.run_exchange("flight from 深圳 to 北京", replies);

    assert_eq!(outcome.backend_calls, 1);
    match outcome.kind {
        OutcomeKind::ToolFailed { failure } => {
            assert_eq!(failure.message(), "工具执行失败: 未找到从 深圳 到 北京 的航班");
        },
        other => panic!("expected an aborted exchange, got {:?}", other),
    }
    assert_eq!(agent.get_status(), AgentStatus::Error);
}

#[test]
fn backend_failure_aborts_exchange() {
    let mut agent = Agent::new(builtin_registry());
    let outcome = agent.run_exchange(
        "hello",
        vec![BackendReply::Failed { message: "connection reset".to_string() }],
    );
    assert_eq!(outcome.backend_calls, 1);
    assert!(matches!(outcome.kind, OutcomeKind::BackendFailed { .. }));
    assert_eq!(agent.get_status(), AgentStatus::Error);
}

#[test]
fn system_prompt_is_injected_but_not_persisted() {
    let mut agent = Agent::new(builtin_registry());
    agent.begin_exchange("hello");
    let directive = agent.begin_turn();
    let request = match directive {
        TurnDirective::Invoke(request) => request,
        TurnDirective::Stop { .. } => panic!("the first turn must invoke the backend"),
    };
    assert_eq!(request.messages.len(), 2);
    assert!(matches!(request.messages[0], ConversationEntry::System(_)));
    assert_eq!(request.tools.len(), 3);
    // The injected entry is recomputed per request, never stored.
    assert_eq!(agent.history().len(), 1);
}

#[test]
fn request_body_carries_history_and_tools() {
    let mut agent = Agent::new(builtin_registry());
    agent.begin_exchange("hello");
    let request = match agent.begin_turn() {
        TurnDirective::Invoke(request) => request,
        TurnDirective::Stop { .. } => panic!("the first turn must invoke the backend"),
    };
    let body = request_body(&request, "glm-4-tools", true);
    assert_eq!(body.get_str("model").map(|x| x.as_str()), Some("glm-4-tools"));
    assert_eq!(body.get("stream"), Some(&ArgValue::Bool(true)));
    assert_eq!(body.get_str("tool_choice").map(|x| x.as_str()), Some("auto"));
    match body.get("messages") {
        Some(ArgValue::Arr(messages)) => {
            assert_eq!(messages.len(), 2);
            assert_eq!(
                messages[0].get_str("role").map(|x| x.as_str()),
                Some("system")
            );
            assert_eq!(
                messages[1].get_str("content").map(|x| x.as_str()),
                Some("hello")
            );
        },
        other => panic!("expected the message array, got {:?}", other),
    }
    match body.get("tools") {
        Some(ArgValue::Arr(tools)) => assert_eq!(tools.len(), 3),
        other => panic!("expected the tool catalogue, got {:?}", other),
    }
}

#[test]
fn zero_budget_never_invokes() {
    let mut agent = Agent::with_max_turns(builtin_registry(), 0);
    let outcome = agent.run_exchange("hello", vec![tool_turn("c1")]);
    assert_eq!(outcome.backend_calls, 0);
    assert!(matches!(outcome.kind, OutcomeKind::BudgetExhausted { .. }));
}
