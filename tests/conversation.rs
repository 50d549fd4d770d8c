use ask::accumulator::ToolCallRequest;
use ask::conversation::{Content, ConversationState, Message, Role};
use ask::orchestrator::{add_tool_result, add_user_message, record_response, tool_result_text, NextStep};
use ask::decoder::StreamOutcome;
use ask::spill::{needs_spill, spill_if_large};
use ask::conversation::Part;
use ask::json::Json;

fn text_of(m: &Message) -> &str {
    match &m.content {
        Content::Text(t) => t.as_str(),
        Content::ToolResult { text, .. } => text.as_str(),
        _ => "",
    }
}

#[test]
fn large_output_spills_to_a_note() {
    let mut text = String::new();
    for _ in 0..4000 {
        text.push_str("abcdefghi\n");
    }
    assert_eq!(text.len(), 40000);
    assert!(needs_spill(&text));
    let path = "/tmp/ask_tool_read_file-17.txt";
    let note = spill_if_large(&text, path, true);
    assert!(note.contains("40000 bytes"));
    assert!(note.contains("4000 lines"));
    assert!(note.contains(path));
    let preview: String = text.chars().take(2000).collect();
    assert!(note.ends_with(&format!("\n{}", preview)));
    assert!(note.len() < 32768);
    assert_eq!(spill_if_large(&note, "/elsewhere", true), note);
}

#[test]
fn small_output_is_unchanged() {
    let text = "short output\nwith two lines";
    assert!(!needs_spill(text));
    assert_eq!(spill_if_large(text, "/tmp/x", true), text);
    assert_eq!(spill_if_large(text, "/tmp/x", false), text);
    let edge = "x".repeat(32768);
    assert_eq!(spill_if_large(&edge, "/tmp/x", true), edge);
}

#[test]
fn failed_save_falls_back_to_an_excerpt() {
    let text = "y".repeat(40000);
    let out = spill_if_large(&text, "/tmp/x", false);
    assert!(out.starts_with(&"y".repeat(32256)));
    assert!(!out.starts_with(&"y".repeat(32257)));
    assert!(out.contains("[Warning:"));
    assert!(out.len() <= 32768);
    assert_eq!(spill_if_large(&out, "/tmp/x", false), out);
}

fn state(msgs: Vec<Message>) -> ConversationState {
    ConversationState { model: "m".to_string(), messages: msgs }
}

fn text_msg(role: Role, t: &str) -> Message {
    Message { role, content: Content::Text(t.to_string()) }
}

#[test]
fn transcript_truncation_leaves_live_state_alone() {
    let big = "z".repeat(40000);
    let s = state(vec![
        text_msg(Role::System, &big),
        text_msg(Role::User, "hi"),
        text_msg(Role::Assistant, &big),
    ]);
    assert!(s.needs_transcript_truncation());
    let copy = s.transcript_copy(true);
    assert_eq!(text_of(&copy.messages[0]), big);
    assert_eq!(text_of(&copy.messages[1]), "hi");
    assert_eq!(text_of(&copy.messages[2]), format!("{} [truncated]", "z".repeat(32768)));
    assert_eq!(text_of(&s.messages[2]), big);
    let kept = s.transcript_copy(false);
    assert_eq!(text_of(&kept.messages[2]), big);
}

#[test]
fn small_latest_messages_need_no_truncation() {
    let s = state(vec![text_msg(Role::User, &"q".repeat(40000)), text_msg(Role::User, "a"), text_msg(Role::Assistant, "b")]);
    assert!(!s.needs_transcript_truncation());
    let kept = state(vec![text_msg(Role::User, "a"), text_msg(Role::Assistant, &"w".repeat(6000))]);
    assert!(!kept.needs_transcript_truncation());
    assert_eq!(text_of(&kept.transcript_copy(true).messages[1]), "w".repeat(6000));
    let one = state(vec![text_msg(Role::User, &"q".repeat(40000))]);
    assert!(!one.needs_transcript_truncation());
}

#[test]
fn truncation_keeps_whole_characters() {
    let t = format!("{}\u{e9}\u{e9}", "a".repeat(32767));
    let s = state(vec![text_msg(Role::User, "x"), text_msg(Role::Assistant, &t)]);
    let copy = s.transcript_copy(true);
    assert_eq!(text_of(&copy.messages[1]), format!("{} [truncated]", "a".repeat(32767)));
}

#[test]
fn text_response_finishes_the_turn() {
    let mut s = state(vec![]);
    add_user_message(&mut s, Content::Text("hello".to_string()));
    let out = StreamOutcome { role: "assistant".to_string(), text: "Hello".to_string(), tool_calls: vec![] };
    assert!(matches!(record_response(&mut s, out), NextStep::Finish));
    assert_eq!(s.messages.len(), 2);
    assert_eq!(s.messages[1].role, Role::Assistant);
    assert_eq!(text_of(&s.messages[1]), "Hello");
}

#[test]
fn tool_response_runs_calls_and_records_results() {
    let mut s = state(vec![]);
    let call = ToolCallRequest { id: "call_1".to_string(), name: "read_file".to_string(), arguments: "{}".to_string() };
    let out = StreamOutcome { role: "assistant".to_string(), text: String::new(), tool_calls: vec![call] };
    let calls = match record_response(&mut s, out) {
        NextStep::RunTools(c) => c,
        NextStep::Finish => panic!("expected tool calls"),
    };
    assert_eq!(calls.len(), 1);
    assert!(matches!(&s.messages[0].content, Content::ToolCalls(c) if c[0].id == "call_1"));
    let text = tool_result_text(Err("Unknown tool: nope".to_string()));
    assert_eq!(text, "Error: Unknown tool: nope");
    add_tool_result(&mut s, &calls[0], text);
    assert_eq!(s.messages[1].role, Role::Tool);
    assert!(matches!(&s.messages[1].content, Content::ToolResult { call_id, text } if call_id == "call_1" && text == "Error: Unknown tool: nope"));
    assert_eq!(tool_result_text(Ok("fine".to_string())), "fine");
}

#[test]
fn saved_conversation_reads_back_equal() {
    let s = ConversationState {
        model: "gpt-4o".to_string(),
        messages: vec![
            text_msg(Role::System, "sys"),
            Message {
                role: Role::User,
                content: Content::Parts(vec![Part::Text("look".to_string()), Part::Image { url: "data:image/png;base64,AA==".to_string(), detail: "high".to_string() }]),
            },
            Message {
                role: Role::Assistant,
                content: Content::ToolCalls(vec![ToolCallRequest { id: "c".to_string(), name: "read_file".to_string(), arguments: "{\"path\":\"a\"}".to_string() }]),
            },
            Message { role: Role::Tool, content: Content::ToolResult { call_id: "c".to_string(), text: "ok".to_string() } },
            text_msg(Role::Assistant, "done \u{1F600}"),
        ],
    };
    let text = s.to_json().to_pretty_text();
    let back = ConversationState::from_json(&Json::parse(&text).unwrap()).unwrap();
    assert_eq!(back.model, s.model);
    assert_eq!(back.messages.len(), s.messages.len());
    assert_eq!(back.to_json().to_pretty_text(), text);
    assert!(matches!(&back.messages[2].content, Content::ToolCalls(c) if c[0].arguments == "{\"path\":\"a\"}"));
    assert!(ConversationState::from_json(&Json::parse("{\"model\":\"m\"}").unwrap()).is_none());
}
