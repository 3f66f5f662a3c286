//! The lines of a trace.

use attacode::domain::{AgentEvent, Now};
use attacode::reducer::{event_name, Reducer};
use attacode::trace::{json_str, Trace};

const NOW: Now = Now { steady_ms: 0, wall_ms: 0 };

#[test]
fn json_escaping_covers_what_a_transcript_can_contain() {
    assert_eq!(json_str("plain"), "\"plain\"");
    assert_eq!(json_str("say \"hi\""), "\"say \\\"hi\\\"\"");
    assert_eq!(json_str("a\nb"), "\"a\\nb\"");
    assert_eq!(json_str("c:\\tmp"), "\"c:\\\\tmp\"");
    assert_eq!(json_str("\u{1}"), "\"\\u0001\"");
    assert_eq!(json_str("中文"), "\"中文\"");
}

#[test]
fn every_control_character_reads_back() {
    for c in (0u32..0x20).filter_map(char::from_u32) {
        let text = format!("a{c}b\"\\");
        let line = json_str(&text);
        assert!(!line.contains('\n'));
        let back: String = serde_json::from_str(&line).unwrap();
        assert_eq!(back, text);
    }
    assert_eq!(json_str("\u{1f}"), "\"\\u001f\"");
}

#[test]
fn a_frame_is_one_line_of_json() {
    let mut session = Reducer::new("m".into(), "/tmp".into(), Vec::new());
    session.note("one\ntwo".into());
    session.begin_turn("t1".into(), "ask".into(), NOW);
    let mut trace = Trace::new();
    let line = trace.record("local", &session.render(NOW)).unwrap();
    assert_eq!(
        line,
        "{\"event\":\"local\",\"entries\":3,\"kinds\":{\"Note\":2,\"UserPrompt\":1},\
         \"header\":\"ask\",\"status\":\"Working…\",\"tasks\":0,\"sub_agents\":0,\"asks\":0,\
         \"selected_block\":null,\"model\":\"m\",\"tok_in\":0,\"tok_out\":0,\"turns\":0}"
    );
    let v: serde_json::Value = serde_json::from_str(&line).unwrap();
    assert_eq!(v["kinds"]["Note"], 2);
}

#[test]
fn a_frame_that_shows_the_same_is_not_written_twice() {
    let session = Reducer::new("m".into(), "/tmp".into(), Vec::new());
    let mut trace = Trace::new();
    let frame = session.render(NOW);
    assert!(trace.record("render", &frame).is_some());
    assert!(trace.record("render", &frame).is_none());
    assert!(trace.record("other", &frame).is_some());
    assert!(trace.record("render", &frame).is_some());
}

#[test]
fn a_key_is_one_line_of_json() {
    assert_eq!(
        Trace::new().record_key("Char('\"')", "Partial"),
        "{\"event\":\"key\",\"key\":\"Char('\\\"')\",\"outcome\":\"Partial\"}"
    );
}

#[test]
fn events_are_named_with_the_tool_and_the_inner_event() {
    let inner = AgentEvent::ToolUse {
        id: "t".into(),
        name: "Read".into(),
        input: serde_json::from_str("{}").unwrap(),
        turn_id: "x".into(),
    };
    let outer = AgentEvent::SubagentProgress { agent_label: "a".into(), event: Box::new(inner) };
    assert_eq!(event_name(&outer), "SubagentProgress(ToolUse:Read)");
    assert_eq!(event_name(&AgentEvent::TeamProgress), "TeamProgress");
}

#[test]
fn a_status_with_a_quote_in_it_is_json_all_the_same() {
    let mut session = Reducer::new("m".into(), "/tmp".into(), Vec::new());
    session.begin_turn("t1".into(), "ask".into(), NOW);
    session.apply_event(
        AgentEvent::ToolUse {
            id: "a".into(),
            name: "x\"y\\".into(),
            input: serde_json::from_str("{}").unwrap(),
            turn_id: "t1".into(),
        },
        NOW,
    );
    let line = Trace::new().record("local", &session.render(NOW)).unwrap();
    let v: serde_json::Value = serde_json::from_str(&line).unwrap();
    assert_eq!(v["status"], "Running x\"y\\…");
}
