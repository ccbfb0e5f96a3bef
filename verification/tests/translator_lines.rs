use agent_bridge::json::Json;
use agent_bridge::protocol::Event;
use agent_bridge::session::SessionManager;
use agent_bridge::translator::StreamTranslator;

fn delta(text: &str) -> String {
    format!(
        "{{\"type\":\"stream_event\",\"event\":{{\"type\":\"content_block_delta\",\"delta\":{{\"type\":\"text_delta\",\"text\":\"{}\"}}}}}}",
        text
    )
}

const BLOCK_STOP: &str = "{\"type\":\"stream_event\",\"event\":{\"type\":\"content_block_stop\"}}";

fn run(lines: &[&str]) -> (Vec<Event>, StreamTranslator, SessionManager) {
    let mut translator = StreamTranslator::new();
    let mut session = SessionManager::new();
    let mut events = Vec::new();
    for line in lines {
        events.extend(translator.handle_stdout_line(&mut session, line));
    }
    (events, translator, session)
}

#[test]
fn text_increments_are_passed_on_and_put_together() {
    let he = delta("He");
    let llo = delta("llo");
    let (events, translator, _) = run(&[&he, &llo, BLOCK_STOP]);
    assert_eq!(
        events,
        vec![
            Event::TextChunk { text: "He".to_string() },
            Event::TextChunk { text: "llo".to_string() },
            Event::Text { text: "Hello".to_string() },
        ]
    );
    assert_eq!(translator.accumulated_text(), "");
}

#[test]
fn gathered_text_grows_until_the_block_stops() {
    let mut translator = StreamTranslator::new();
    let mut session = SessionManager::new();
    assert_eq!(translator.accumulated_text(), "");
    translator.handle_stdout_line(&mut session, &delta("He"));
    assert_eq!(translator.accumulated_text(), "He");
    translator.handle_stdout_line(&mut session, &delta("llo"));
    assert_eq!(translator.accumulated_text(), "Hello");
    translator.handle_stdout_line(&mut session, BLOCK_STOP);
    assert_eq!(translator.accumulated_text(), "");
}

#[test]
fn a_block_without_text_gives_no_text_event() {
    let (events, _, _) = run(&[BLOCK_STOP]);
    assert!(events.is_empty());
    let once = delta("x");
    let (events, _, _) = run(&[&once, BLOCK_STOP, BLOCK_STOP]);
    assert_eq!(
        events,
        vec![Event::TextChunk { text: "x".to_string() }, Event::Text { text: "x".to_string() }]
    );
}

#[test]
fn an_empty_increment_is_still_passed_on() {
    let empty = delta("");
    let (events, _, _) = run(&[&empty, BLOCK_STOP]);
    assert_eq!(events, vec![Event::TextChunk { text: String::new() }]);
}

#[test]
fn other_deltas_are_ignored() {
    let (events, translator, _) = run(&[
        "{\"type\":\"stream_event\",\"event\":{\"type\":\"content_block_delta\",\"delta\":{\"type\":\"input_json_delta\",\"text\":\"x\"}}}",
        "{\"type\":\"stream_event\",\"event\":{\"type\":\"content_block_delta\",\"delta\":{\"type\":\"text_delta\"}}}",
        "{\"type\":\"stream_event\",\"event\":{\"type\":\"content_block_delta\"}}",
        "{\"type\":\"stream_event\",\"event\":{\"type\":\"message_start\"}}",
        "{\"type\":\"stream_event\"}",
    ]);
    assert!(events.is_empty());
    assert_eq!(translator.accumulated_text(), "");
}

#[test]
fn result_line_gives_cost_then_done() {
    let (events, _, session) = run(&[
        "{\"type\":\"result\",\"usage\":{\"input_tokens\":100,\"cache_read_input_tokens\":50,\"output_tokens\":20},\"total_cost_usd\":0.01,\"duration_ms\":500}",
    ]);
    assert_eq!(
        events,
        vec![
            Event::Cost {
                total_usd: "0.01".to_string(),
                duration_ms: 500,
                input_tokens: 150,
                output_tokens: 20,
            },
            Event::Done,
        ]
    );
    match &events[0] {
        Event::Cost { total_usd, .. } => assert_eq!(total_usd.parse::<f64>().unwrap(), 0.01),
        _ => unreachable!(),
    }
    assert!(!session.get_state().active);
}

#[test]
fn result_line_without_figures_reports_zero() {
    let (events, _, _) = run(&["{\"type\":\"result\"}"]);
    assert_eq!(
        events,
        vec![
            Event::Cost {
                total_usd: "0.0".to_string(),
                duration_ms: 0,
                input_tokens: 0,
                output_tokens: 0,
            },
            Event::Done,
        ]
    );
    assert_eq!(
        events[0].to_json_line(),
        "{\"event\":\"cost\",\"total_usd\":0.0,\"duration_ms\":0,\"input_tokens\":0,\"output_tokens\":0}\n"
    );
}

#[test]
fn result_line_with_whole_cost_is_read_as_a_double() {
    let (events, _, _) = run(&["{\"type\":\"result\",\"total_cost_usd\":2,\"duration_ms\":-5}"]);
    assert_eq!(
        events[0],
        Event::Cost {
            total_usd: "2.0".to_string(),
            duration_ms: 0,
            input_tokens: 0,
            output_tokens: 0,
        }
    );
}

#[test]
fn token_sum_stops_at_the_largest_value() {
    let (events, _, _) = run(&[
        "{\"type\":\"result\",\"usage\":{\"input_tokens\":18446744073709551615,\"cache_read_input_tokens\":1}}",
    ]);
    match &events[0] {
        Event::Cost { input_tokens, .. } => assert_eq!(*input_tokens, u64::MAX),
        _ => unreachable!(),
    }
}

#[test]
fn result_line_with_error_reports_it_before_done() {
    let (events, _, _) = run(&["{\"type\":\"result\",\"is_error\":true,\"result\":\"boom\"}"]);
    assert_eq!(events.len(), 3);
    assert_eq!(events[1], Event::Error { message: "boom".to_string() });
    assert_eq!(events[2], Event::Done);
    let (events, _, _) = run(&["{\"type\":\"result\",\"is_error\":true}"]);
    assert_eq!(events[1], Event::Error { message: "Unknown error".to_string() });
    let (events, _, _) = run(&["{\"type\":\"result\",\"is_error\":false,\"result\":\"fine\"}"]);
    assert_eq!(events.len(), 2);
    assert_eq!(events.iter().filter(|e| e.is_done()).count(), 1);
}

#[test]
fn init_line_sets_the_session_and_reports_it() {
    let (events, _, session) = run(&[
        "{\"type\":\"system\",\"subtype\":\"init\",\"session_id\":\"abc\",\"model\":\"m1\",\"tools\":[\"Read\",7,\"Write\",null]}",
    ]);
    assert_eq!(
        events,
        vec![Event::Init {
            session_id: "abc".to_string(),
            model: "m1".to_string(),
            tools: vec!["Read".to_string(), "Write".to_string()],
        }]
    );
    let state = session.get_state();
    assert!(state.active);
    assert_eq!(state.session_id, Some("abc".to_string()));
    assert_eq!(state.model, Some("m1".to_string()));
}

#[test]
fn init_line_falls_back_on_defaults() {
    let (events, _, session) = run(&["{\"type\":\"system\",\"subtype\":\"init\"}"]);
    assert_eq!(
        events,
        vec![Event::Init {
            session_id: String::new(),
            model: "unknown".to_string(),
            tools: vec![],
        }]
    );
    assert_eq!(session.get_session_id(), Some(String::new()));
    let (events, _, _) =
        run(&["{\"type\":\"system\",\"subtype\":\"init\",\"tools\":\"Read\",\"model\":3}"]);
    assert_eq!(
        events,
        vec![Event::Init {
            session_id: String::new(),
            model: "unknown".to_string(),
            tools: vec![],
        }]
    );
}

#[test]
fn other_system_lines_change_nothing() {
    let (events, _, session) = run(&[
        "{\"type\":\"system\",\"subtype\":\"status\",\"session_id\":\"abc\"}",
        "{\"type\":\"system\"}",
        "{\"type\":\"system\",\"subtype\":7}",
    ]);
    assert!(events.is_empty());
    let state = session.get_state();
    assert!(!state.active);
    assert_eq!(state.session_id, None);
    assert_eq!(state.model, None);
}

#[test]
fn malformed_lines_are_dropped() {
    let (events, translator, session) =
        run(&["", "not json", "{\"type\":\"result\"", "[1,2", "{\"type\":\"resu"]);
    assert!(events.is_empty());
    assert_eq!(translator.accumulated_text(), "");
    assert!(!session.get_state().active);
    assert_eq!(session.get_session_id(), None);
}

#[test]
fn lines_of_unknown_type_are_ignored() {
    let (events, _, _) = run(&[
        "{\"type\":\"user\"}",
        "{\"type\":7}",
        "{}",
        "[]",
        "\"result\"",
        "{\"Type\":\"result\"}",
    ]);
    assert!(events.is_empty());
}

#[test]
fn assistant_line_gives_its_tool_calls() {
    let (events, _, _) = run(&[
        "{\"type\":\"assistant\",\"message\":{\"content\":[{\"type\":\"text\",\"text\":\"hi\"},{\"type\":\"tool_use\",\"name\":\"Edit\",\"id\":\"t1\",\"input\":{\"file_path\":\"/tmp/x\"}},{\"type\":\"tool_use\"}]}}",
    ]);
    assert_eq!(
        events,
        vec![
            Event::ToolUse {
                tool: "Edit".to_string(),
                id: "t1".to_string(),
                input: Json::Object(vec![(
                    "file_path".to_string(),
                    Json::String("/tmp/x".to_string())
                )]),
            },
            Event::ToolUse { tool: "unknown".to_string(), id: String::new(), input: Json::Null },
        ]
    );
}

#[test]
fn assistant_line_without_content_gives_nothing() {
    let (events, _, _) = run(&[
        "{\"type\":\"assistant\"}",
        "{\"type\":\"assistant\",\"message\":{}}",
        "{\"type\":\"assistant\",\"message\":{\"content\":\"text\"}}",
        "{\"type\":\"assistant\",\"message\":{\"content\":[]}}",
    ]);
    assert!(events.is_empty());
}

#[test]
fn tool_result_line_is_reported() {
    let (events, _, _) = run(&[
        "{\"type\":\"tool_result\",\"tool\":\"Edit\",\"tool_use_id\":\"t1\",\"content\":\"ok\"}",
    ]);
    assert_eq!(
        events,
        vec![Event::ToolResult {
            tool: "Edit".to_string(),
            id: "t1".to_string(),
            success: true,
            content: "ok".to_string(),
        }]
    );
}

#[test]
fn tool_result_falls_back_field_by_field() {
    let (events, _, _) = run(&[
        "{\"type\":\"tool_use_result\",\"name\":\"Bash\",\"is_error\":true,\"output\":{\"code\":1,\"out\":[\"a\"]}}",
    ]);
    assert_eq!(
        events,
        vec![Event::ToolResult {
            tool: "Bash".to_string(),
            id: String::new(),
            success: false,
            content: "{\"code\":1,\"out\":[\"a\"]}".to_string(),
        }]
    );
    let (events, _, _) = run(&["{\"type\":\"tool_result\"}"]);
    assert_eq!(
        events,
        vec![Event::ToolResult {
            tool: "unknown".to_string(),
            id: String::new(),
            success: true,
            content: String::new(),
        }]
    );
}

#[test]
fn tool_result_takes_the_first_field_that_is_there() {
    let (events, _, _) = run(&[
        "{\"type\":\"tool_result\",\"tool\":5,\"name\":\"Bash\",\"content\":null,\"output\":\"x\",\"is_error\":\"yes\"}",
    ]);
    assert_eq!(
        events,
        vec![Event::ToolResult {
            tool: "unknown".to_string(),
            id: String::new(),
            success: true,
            content: "null".to_string(),
        }]
    );
}

#[test]
fn translate_works_on_a_tree_built_by_hand() {
    let mut translator = StreamTranslator::new();
    let mut session = SessionManager::new();
    let line = Json::Object(vec![
        ("type".to_string(), Json::String("tool_result".to_string())),
        ("tool".to_string(), Json::String("Read".to_string())),
        ("content".to_string(), Json::Array(vec![Json::Bool(true)])),
    ]);
    assert_eq!(
        translator.translate(&mut session, &line),
        vec![Event::ToolResult {
            tool: "Read".to_string(),
            id: String::new(),
            success: true,
            content: "[true]".to_string(),
        }]
    );
}

#[test]
fn a_run_reports_in_line_order() {
    let he = delta("Hi");
    let (events, _, session) = run(&[
        "{\"type\":\"system\",\"subtype\":\"init\",\"session_id\":\"s\",\"model\":\"m\"}",
        &he,
        BLOCK_STOP,
        "{\"type\":\"result\",\"duration_ms\":3}",
    ]);
    assert_eq!(events.len(), 5);
    assert!(matches!(events[0], Event::Init { .. }));
    assert!(matches!(events[4], Event::Done));
    assert_eq!(events.iter().filter(|e| e.is_done()).count(), 1);
    let state = session.get_state();
    assert!(!state.active);
    assert_eq!(state.session_id, Some("s".to_string()));
    assert_eq!(state.model, Some("m".to_string()));
}

#[test]
fn stderr_lines_become_errors() {
    assert_eq!(
        StreamTranslator::handle_stderr_line("warning: x"),
        Some(Event::Error { message: "[stderr] warning: x".to_string() })
    );
    assert_eq!(
        StreamTranslator::handle_stderr_line(" "),
        Some(Event::Error { message: "[stderr]  ".to_string() })
    );
    assert_eq!(StreamTranslator::handle_stderr_line(""), None);
}

#[test]
fn end_of_output_marks_the_session_inactive() {
    let (_, translator, mut session) =
        run(&["{\"type\":\"system\",\"subtype\":\"init\",\"session_id\":\"s\"}"]);
    assert!(session.get_state().active);
    translator.handle_stdout_closed(&mut session);
    assert!(!session.get_state().active);
    assert_eq!(session.get_session_id(), Some("s".to_string()));
    translator.handle_stdout_closed(&mut session);
    assert!(!session.get_state().active);
}
