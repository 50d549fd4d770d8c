use ask::conversation::{Content, ConversationState, Message, Part, Role};
use ask::history::{history_text, transcript_label};
use ask::image::{add_image_to_pipeline, detect_clipboard_command};
use ask::recursive::{initial_prompt, next_agent_step, parse_agent_reply, rejection_message, wants_exit, AgentStep};
use ask::settings::Settings;

#[test]
fn agent_reply_fields_are_read() {
    let r = parse_agent_reply("signature: __recursive_command_ignore\r\ncomplete: FALSE\ncommand: ls -la: all\nexplanation: list files");
    assert_eq!(r.signature.as_deref(), Some("__recursive_command_ignore"));
    assert!(!r.complete);
    assert_eq!(r.command.as_deref(), Some("ls -la: all"));
    assert_eq!(r.explanation.as_deref(), Some("list files"));
    assert!(matches!(next_agent_step(&r), AgentStep::Propose(c) if c == "ls -la: all"));
    let done = parse_agent_reply("signature: __recursive_command_ignore\ncomplete: True\n");
    assert!(matches!(next_agent_step(&done), AgentStep::Complete));
    let none = parse_agent_reply("signature: __recursive_command_ignore\ncomplete: false\n");
    assert!(matches!(next_agent_step(&none), AgentStep::RequestNextStep));
    let ask = parse_agent_reply("signature: __recursive_prompt_user\nexplanation: which file?\n");
    assert!(matches!(next_agent_step(&ask), AgentStep::AskUser(q) if q == "which file?"));
    let bad = parse_agent_reply("signature: __recursive_prompt_user\n");
    assert!(matches!(next_agent_step(&bad), AgentStep::InvalidPrompt));
    assert!(matches!(next_agent_step(&parse_agent_reply("hello")), AgentStep::Unrecognized));
}

#[test]
fn agent_messages_and_exit() {
    assert!(wants_exit("  EXIT \n"));
    assert!(!wants_exit("exit now"));
    assert_eq!(initial_prompt("do {user_input}; again {user_input}", "x"), "do x; again x");
    assert_eq!(
        rejection_message("no", "task"),
        "User rejected the command.\nFeedback: no\nPlease suggest an alternative or ask for clarification. Original task: task"
    );
}

#[test]
fn history_renders_each_message() {
    let s = ConversationState {
        model: "m".to_string(),
        messages: vec![
            Message { role: Role::User, content: Content::Text("hi".to_string()) },
            Message {
                role: Role::User,
                content: Content::Parts(vec![Part::Text("see".to_string()), Part::Image { url: "u".repeat(100), detail: "low".to_string() }]),
            },
        ],
    };
    let h = history_text(&s, 3);
    assert!(h.starts_with("\n\n\u{2583}\u{2583}\u{2583}\u{258d}user \u{2590}\n\u{2580}\u{2580}\u{2580}\nhi"));
    assert!(h.contains(&format!("[Image URL (truncated): {}...]\n", "u".repeat(70))));
}

#[test]
fn transcript_labels() {
    let s = ConversationState {
        model: "m".to_string(),
        messages: vec![
            Message { role: Role::System, content: Content::Text("sys".to_string()) },
            Message { role: Role::User, content: Content::Text(format!("{}\nsecond", "q".repeat(80))) },
        ],
    };
    assert_eq!(transcript_label("t-1", Some(&s)), format!("t-1 => {}", "q".repeat(64)));
    assert_eq!(transcript_label("t-2", None), "t-2 => [Error reading transcript content]");
    let short = ConversationState { model: "m".to_string(), messages: vec![] };
    assert_eq!(transcript_label("t-3", Some(&short)), "t-3 => [Could not parse message content or not a string]");
}

#[test]
fn copying_conversations() {
    let startup = "be brief";
    let mut current = ConversationState { model: "m".to_string(), messages: vec![Message { role: Role::System, content: Content::Text(startup.to_string()) }] };
    let other = ConversationState {
        model: "m".to_string(),
        messages: vec![
            Message { role: Role::System, content: Content::Text("x".to_string()) },
            Message { role: Role::User, content: Content::Text(startup.to_string()) },
            Message { role: Role::User, content: Content::Text("q".to_string()) },
        ],
    };
    assert!(current.copy_from(other, startup).is_ok());
    assert_eq!(current.messages.len(), 2);
    let wrong = ConversationState { model: "n".to_string(), messages: vec![] };
    assert_eq!(current.copy_from(wrong, startup).unwrap_err(), "Cannot copy conversation: Model mismatch (current: m, selected: n).");
}

#[test]
fn settings_defaults_and_choices() {
    let s = Settings::defaults();
    assert_eq!(s.provider_settings().unwrap().model, "gpt-4o-mini");
    let mut g = Settings::defaults();
    g.provider = "gemini".to_string();
    assert_eq!(g.provider_settings().unwrap().host, "generativelanguage.googleapis.com");
    g.provider = "none".to_string();
    assert!(g.provider_settings().is_none());
    assert_eq!(detect_clipboard_command(&s, "  1 ? Xwayland"), "wl-paste");
    assert_eq!(detect_clipboard_command(&s, "  1 ? Xorg"), s.clipboard_command_xorg);
    assert_eq!(detect_clipboard_command(&s, "bash"), "UNSUPPORTED");
}

#[test]
fn clipboard_image_becomes_a_data_url() {
    let mut input = Content::Text("look".to_string());
    add_image_to_pipeline(&mut input, b"hi", &Settings::defaults());
    match input {
        Content::Parts(p) => {
            assert!(matches!(&p[0], Part::Text(t) if t == "look"));
            assert!(matches!(&p[1], Part::Image { url, detail } if url == "data:image/png;base64,aGk=" && detail == "high"));
        },
        _ => panic!("expected parts"),
    }
}
