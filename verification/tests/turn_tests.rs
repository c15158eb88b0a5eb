use ghosty_launch::pricing::{billed_tokens, pricing_tier, PriceTier, Usage};
use ghosty_launch::turn::{fold_turn, Block, BlockStart, Delta, StreamEvent, TurnFold};

fn start(id: &str) -> StreamEvent {
    StreamEvent::MessageStart { id: id.to_string(), role: "assistant".to_string() }
}

fn text_start(index: u32) -> StreamEvent {
    StreamEvent::BlockStart { index, block: BlockStart::Text { text: String::new() } }
}

fn text_delta(index: u32, t: &str) -> StreamEvent {
    StreamEvent::BlockDelta { index, delta: Delta::Text { text: t.to_string() } }
}

fn stop(index: u32) -> StreamEvent {
    StreamEvent::BlockStop { index }
}

fn message_delta(reason: &str, usage: Option<Usage>) -> StreamEvent {
    StreamEvent::MessageDelta { stop_reason: Some(reason.to_string()), stop_sequence: None, usage }
}

fn tool_start(index: u32, id: &str, name: &str) -> StreamEvent {
    StreamEvent::BlockStart { index, block: BlockStart::ToolUse { id: id.to_string(), name: name.to_string() } }
}

fn tool_delta(index: u32, j: &str) -> StreamEvent {
    StreamEvent::BlockDelta { index, delta: Delta::InputJson { partial_json: j.to_string() } }
}

#[test]
fn folds_simple_text_turn_into_one_text_block() {
    let events = vec![
        start("msg_1"),
        text_start(0),
        text_delta(0, "Hello there."),
        stop(0),
        message_delta("end_turn", None),
        StreamEvent::MessageStop,
    ];
    let response = fold_turn(events, "deepseek-v4-pro".to_string());
    assert_eq!(response.role, "assistant");
    assert_eq!(response.model, "deepseek-v4-pro");
    assert_eq!(response.stop_reason.as_deref(), Some("end_turn"));
    assert_eq!(response.content.len(), 1);
    assert!(matches!(&response.content[0], Block::Text { text } if text == "Hello there."));
}

#[test]
fn folds_reasoning_then_text_in_wire_order() {
    let events = vec![
        start("msg_reason"),
        StreamEvent::BlockStart { index: 0, block: BlockStart::Thinking { thinking: String::new() } },
        StreamEvent::BlockDelta { index: 0, delta: Delta::Thinking { thinking: "Let me reason.".to_string() } },
        stop(0),
        text_start(1),
        text_delta(1, "Final answer."),
        stop(1),
        message_delta("end_turn", None),
        StreamEvent::MessageStop,
    ];
    let response = fold_turn(events, "deepseek-v4-pro".to_string());
    assert_eq!(response.content.len(), 2);
    assert!(matches!(&response.content[0], Block::Thinking { thinking } if thinking == "Let me reason."));
    assert!(matches!(&response.content[1], Block::Text { text } if text == "Final answer."));
}

#[test]
fn folds_tool_call_turn_and_parses_json_args() {
    let events = vec![
        start("msg_tool"),
        tool_start(0, "call_42", "read_file"),
        tool_delta(0, r#"{"path":"src/main.rs"}"#),
        stop(0),
        message_delta("tool_use", None),
        StreamEvent::MessageStop,
    ];
    let response = fold_turn(events, "deepseek-v4-pro".to_string());
    assert_eq!(response.stop_reason.as_deref(), Some("tool_use"));
    assert_eq!(response.content.len(), 1);
    match &response.content[0] {
        Block::ToolUse { id, name, input, .. } => {
            assert_eq!(id, "call_42");
            assert_eq!(name, "read_file");
            assert_eq!(input["path"], "src/main.rs");
        }
        other => panic!("expected ToolUse, got {other:?}"),
    }
}

#[test]
fn captures_final_usage_from_message_delta() {
    let usage = Usage {
        input_tokens: 120,
        output_tokens: 40,
        prompt_cache_hit_tokens: Some(80),
        prompt_cache_miss_tokens: Some(40),
        reasoning_tokens: Some(15),
    };
    let events = vec![
        start("msg_usage"),
        text_start(0),
        text_delta(0, "ok"),
        stop(0),
        message_delta("end_turn", Some(usage)),
        StreamEvent::MessageStop,
    ];
    let response = fold_turn(events, "deepseek-v4-pro".to_string());
    assert_eq!(response.usage.input_tokens, 120);
    assert_eq!(response.usage.output_tokens, 40);
    assert_eq!(response.usage.prompt_cache_hit_tokens, Some(80));
    assert_eq!(response.usage.reasoning_tokens, Some(15));
}

#[test]
fn multi_fragment_tool_args_are_concatenated_before_parse() {
    let events = vec![
        start("msg_frag"),
        tool_start(0, "call_frag", "write_file"),
        tool_delta(0, r#"{"path":"a.rs","#),
        tool_delta(0, r#""contents":"x"}"#),
        stop(0),
        message_delta("tool_use", None),
        StreamEvent::MessageStop,
    ];
    let response = fold_turn(events, "deepseek-v4-pro".to_string());
    match &response.content[0] {
        Block::ToolUse { input, input_json, .. } => {
            assert_eq!(input_json, r#"{"path":"a.rs","contents":"x"}"#);
            assert_eq!(input["path"], "a.rs");
            assert_eq!(input["contents"], "x");
        }
        other => panic!("expected ToolUse, got {other:?}"),
    }
}

#[test]
fn open_blocks_are_closed_at_the_end_and_empty_text_vanishes() {
    let events = vec![
        start(""),
        text_start(3),
        text_delta(3, "partial"),
        text_start(1),
        tool_start(2, "c", "n"),
        StreamEvent::Ping,
    ];
    let response = fold_turn(events, "m".to_string());
    assert_eq!(response.id, "");
    assert_eq!(response.content.len(), 2);
    assert!(matches!(&response.content[0], Block::Text { text } if text == "partial"));
    match &response.content[1] {
        Block::ToolUse { input, .. } => assert!(input.as_object().unwrap().is_empty()),
        other => panic!("expected ToolUse, got {other:?}"),
    }
}

#[test]
fn invalid_tool_json_is_kept_as_a_string_and_events_after_stop_are_ignored() {
    let mut f = TurnFold::new();
    assert!(!f.push(tool_start(0, "c", "n")));
    f.push(tool_delta(0, "{oops"));
    f.push(StreamEvent::BlockDelta { index: 0, delta: Delta::Text { text: "ignored".to_string() } });
    f.push(stop(0));
    assert!(f.push(StreamEvent::MessageStop));
    let r = f.finish("m".to_string());
    match &r.content[0] {
        Block::ToolUse { input, input_json, .. } => {
            assert_eq!(input_json, "{oops");
            assert_eq!(input, &serde_json::Value::String("{oops".to_string()));
        }
        other => panic!("expected ToolUse, got {other:?}"),
    }
    let late = fold_turn(vec![StreamEvent::MessageStop, text_start(0), text_delta(0, "x"), stop(0)], "m".into());
    assert!(late.content.is_empty());
}

#[test]
fn pricing_tiers_and_billed_tokens() {
    assert_eq!(pricing_tier("DeepSeek-V4-Pro"), Some(PriceTier::V4Pro));
    assert_eq!(pricing_tier("deepseek-v4-flash"), Some(PriceTier::V4Flash));
    assert_eq!(pricing_tier("deepseek-ai/deepseek-v4-pro"), None);
    assert_eq!(pricing_tier("gpt-4"), None);
    let u = Usage {
        input_tokens: 120,
        output_tokens: 40,
        prompt_cache_hit_tokens: Some(80),
        prompt_cache_miss_tokens: None,
        reasoning_tokens: Some(15),
    };
    let b = billed_tokens(&u);
    assert_eq!((b.hit, b.miss, b.output), (80, 40, 55));
    let v = Usage { input_tokens: 100, output_tokens: 1, prompt_cache_hit_tokens: Some(10), prompt_cache_miss_tokens: Some(20), reasoning_tokens: None };
    let c = billed_tokens(&v);
    assert_eq!((c.hit, c.miss, c.output), (10, 90, 1));
}
