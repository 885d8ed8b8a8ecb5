use ai_agent::args::ArgValue;
use ai_agent::flight_tools::{BuiltinTool, GetFlightNumberTool, GetTicketPriceTool};
use ai_agent::tools::{HelpTool, ToolExecutor, ToolFailure, ToolRegistry};
use ai_agent::protocol::ToolCall;

fn obj(pairs: Vec<(&str, ArgValue)>) -> ArgValue {
    ArgValue::Obj(pairs.into_iter().map(|(k, v)| (k.to_string(), v)).collect())
}

fn s(text: &str) -> ArgValue {
    ArgValue::Str(text.to_string())
}

#[test]
fn test_get_flight_number() {
    let tool = GetFlightNumberTool::new();

    let args = obj(vec![
        ("departure", s("北京")),
        ("destination", s("上海")),
        ("date", s("2024-01-20")),
    ]);

    let result = tool.execute(&args).unwrap();
    assert!(result.contains("1234"));
}

#[test]
fn test_get_ticket_price() {
    let tool = GetTicketPriceTool;

    let args = obj(vec![("flight_number", s("1234")), ("date", s("2024-01-20"))]);

    let result = tool.execute(&args).unwrap();
    assert!(result.contains("1500"));
}

#[test]
fn flight_number_result_is_exact_json() {
    let tool = GetFlightNumberTool::new();
    let args = obj(vec![
        ("departure", s("北京")),
        ("destination", s("上海")),
        ("date", s("2024-01-20")),
    ]);
    let result = tool.execute(&args).unwrap();
    // serde_json's default map keeps keys sorted.
    assert_eq!(
        result,
        "{\"departure\":\"北京\",\"destination\":\"上海\",\"flight_number\":\"1234\"}"
    );
}

#[test]
fn ticket_price_result_is_exact_json() {
    let tool = GetTicketPriceTool;
    let args = obj(vec![("flight_number", s("1234")), ("date", s("2024-01-20"))]);
    let result = tool.execute(&args).unwrap();
    assert_eq!(
        result,
        "{\"currency\":\"CNY\",\"flight_number\":\"1234\",\"ticket_price\":1500}"
    );
}

#[test]
fn unknown_route_is_failure_text() {
    let tool = GetFlightNumberTool::new();
    let args = obj(vec![
        ("departure", s("深圳")),
        ("destination", s("北京")),
        ("date", s("2024-01-20")),
    ]);
    let err = tool.execute(&args).unwrap_err();
    assert_eq!(err, "未找到从 深圳 到 北京 的航班");
}

#[test]
fn missing_argument_is_failure_text() {
    let tool = GetFlightNumberTool::new();
    let args = obj(vec![("departure", s("北京"))]);
    let err = tool.execute(&args).unwrap_err();
    assert_eq!(err, "缺少 'destination' 参数");
}

#[test]
fn unknown_flight_number_gets_default_price() {
    let tool = GetTicketPriceTool;
    let args = obj(vec![("flight_number", s("9999")), ("date", s("2024-01-20"))]);
    let result = tool.execute(&args).unwrap();
    assert!(result.contains("800"));
}

#[test]
fn registry_overwrite_keeps_latest() {
    let mut registry: ToolRegistry<BuiltinTool> = ToolRegistry::new();
    registry.register(BuiltinTool::Help(HelpTool::new(vec!["shell".to_string()])));
    registry.register(BuiltinTool::Help(HelpTool::new(vec![
        "help".to_string(),
        "read_file".to_string(),
    ])));

    let defs = registry.list_definitions();
    assert_eq!(defs.len(), 1);
    assert_eq!(defs[0].name, "help");

    // The surviving registration is the most recent one.
    let call = ToolCall {
        id: "call_0".to_string(),
        name: "help".to_string(),
        arguments: obj(vec![]),
    };
    let result = registry.execute(&call).unwrap();
    assert!(result.content.contains("read_file"));
    assert!(!result.content.contains("shell"));
}

#[test]
fn unknown_tool_returns_not_found() {
    let mut registry: ToolRegistry<BuiltinTool> = ToolRegistry::new();
    ai_agent::flight_tools::register_flight_tools(&mut registry);
    let before = registry.list_definitions().len();

    let call = ToolCall {
        id: "call_1".to_string(),
        name: "no_such_tool".to_string(),
        arguments: obj(vec![]),
    };
    let err = registry.execute(&call).unwrap_err();
    match &err {
        ToolFailure::NotFound { name } => assert_eq!(name, "no_such_tool"),
        other => panic!("expected a not-found failure, got {:?}", other),
    }
    assert_eq!(err.message(), "工具 'no_such_tool' 未找到");
    // No observable side effect: the catalogue is unchanged.
    assert_eq!(registry.list_definitions().len(), before);
}

#[test]
fn string_encoded_arguments_are_decoded() {
    let mut registry: ToolRegistry<BuiltinTool> = ToolRegistry::new();
    ai_agent::flight_tools::register_flight_tools(&mut registry);

    let call = ToolCall {
        id: "call_2".to_string(),
        name: "get_ticket_price".to_string(),
        arguments: s("{\"flight_number\":\"3456\",\"date\":\"2024-01-20\"}"),
    };
    let result = registry.execute(&call).unwrap();
    assert_eq!(result.tool_call_id, "call_2");
    assert!(result.content.contains("1000"));
}

#[test]
fn undecodable_string_arguments_fail_parse() {
    let mut registry: ToolRegistry<BuiltinTool> = ToolRegistry::new();
    ai_agent::flight_tools::register_flight_tools(&mut registry);

    let call = ToolCall {
        id: "call_3".to_string(),
        name: "get_ticket_price".to_string(),
        arguments: s("{not json"),
    };
    let err = registry.execute(&call).unwrap_err();
    assert!(matches!(err, ToolFailure::ArgumentParse { .. }));
}

#[test]
fn help_tool_lists_known_tools() {
    let tool = HelpTool::new(vec![
        "shell".to_string(),
        "current_time".to_string(),
        "mystery".to_string(),
    ]);
    let text = tool.execute(&obj(vec![])).unwrap();
    assert_eq!(
        text,
        "📚 可用工具:\n  • shell: 执行 shell 命令\n  • current_time: 获取当前日期和时间\n  • mystery: 未知工具\n"
    );
}

#[test]
fn catalogue_carries_schemas() {
    let mut registry: ToolRegistry<BuiltinTool> = ToolRegistry::new();
    ai_agent::flight_tools::register_flight_tools(&mut registry);
    let defs = registry.list_definitions();
    assert_eq!(defs.len(), 2);
    assert_eq!(defs[0].name, "get_flight_number");
    let params = &defs[0].parameters;
    assert_eq!(
        params.get_str("type").map(|x| x.as_str()),
        Some("object")
    );
    assert!(params.get("properties").unwrap().get("departure").is_some());
}
