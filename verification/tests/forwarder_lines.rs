use agent_bridge::forwarder::{forward, forward_all};
use agent_bridge::protocol::Event;

#[test]
fn forward_gives_the_line_and_says_when_to_stop() {
    let step = forward(&Event::Text { text: "hi".to_string() });
    assert_eq!(step.line, "{\"event\":\"text\",\"text\":\"hi\"}\n");
    assert!(!step.done);
    let step = forward(&Event::Done);
    assert_eq!(step.line, "{\"event\":\"done\"}\n");
    assert!(step.done);
    let step = forward(&Event::Error { message: "x".to_string() });
    assert!(!step.done);
}

#[test]
fn forward_all_stops_after_done() {
    let events = vec![
        Event::TextChunk { text: "a".to_string() },
        Event::Done,
        Event::TextChunk { text: "b".to_string() },
        Event::Done,
    ];
    assert_eq!(
        forward_all(&events),
        vec![
            "{\"event\":\"text_chunk\",\"text\":\"a\"}\n".to_string(),
            "{\"event\":\"done\"}\n".to_string(),
        ]
    );
}

#[test]
fn forward_all_without_done_writes_everything() {
    let events = vec![
        Event::Error { message: "e".to_string() },
        Event::Status { active: true, session_id: None },
    ];
    assert_eq!(
        forward_all(&events),
        vec![
            "{\"event\":\"error\",\"message\":\"e\"}\n".to_string(),
            "{\"event\":\"status\",\"active\":true,\"session_id\":null}\n".to_string(),
        ]
    );
    assert!(forward_all(&vec![]).is_empty());
    assert_eq!(forward_all(&vec![Event::Done]), vec!["{\"event\":\"done\"}\n".to_string()]);
}
