use ask::accumulator::ToolCallRequest;
use ask::adapter::Provider;
use ask::conversation::{startup_role, Content, ConversationState, Message, Part, Role};
use ask::json::Json;
use ask::request::{build_request, data_url_parts, omits_sampling_fields, request_url, sends_user, RequestOptions};
use ask::settings::ProviderSettings;
use ask::tools::{create_default_registry, ToolDefinition};

fn member<'a>(j: &'a Json, key: &str) -> Option<&'a Json> {
    match j {
        Json::Object(m) => m.iter().find(|(k, _)| k == key).map(|(_, v)| v),
        _ => None,
    }
}

fn keys(j: &Json) -> Vec<String> {
    match j {
        Json::Object(m) => m.iter().map(|(k, _)| k.clone()).collect(),
        _ => vec![],
    }
}

fn text(j: Option<&Json>) -> Option<String> {
    match j {
        Some(Json::Str(s)) => Some(s.clone()),
        _ => None,
    }
}

fn provider(model: &str, host: &str) -> ProviderSettings {
    ProviderSettings { model: model.to_string(), host: host.to_string(), endpoint: "/v1/chat/completions".to_string(), api_key_variable: "K".to_string() }
}

fn options(user: Option<&str>) -> RequestOptions {
    RequestOptions { max_tokens: 2048, temperature: "0.6".to_string(), user: user.map(|u| u.to_string()) }
}

fn conversation() -> ConversationState {
    ConversationState {
        model: "m".to_string(),
        messages: vec![
            Message { role: Role::System, content: Content::Text("be brief".to_string()) },
            Message {
                role: Role::User,
                content: Content::Parts(vec![
                    Part::Text("what is this".to_string()),
                    Part::Image { url: "data:image/jpeg;base64,QUJD".to_string(), detail: "high".to_string() },
                ]),
            },
            Message {
                role: Role::Assistant,
                content: Content::ToolCalls(vec![ToolCallRequest { id: "c1".to_string(), name: "read_file".to_string(), arguments: "{\"path\":\"a\"}".to_string() }]),
            },
            Message { role: Role::Tool, content: Content::ToolResult { call_id: "c1".to_string(), text: "data".to_string() } },
        ],
    }
}

#[test]
fn openai_body_carries_sampling_user_and_tools() {
    let tools = create_default_registry().definitions();
    let body = build_request(&conversation(), &provider("gpt-4o", "api.openai.com"), &options(Some("me")), &tools);
    assert_eq!(keys(&body), vec!["messages", "model", "stream", "max_tokens", "temperature", "user", "tools"]);
    assert!(matches!(member(&body, "max_tokens"), Some(Json::Number(n)) if n == "2048"));
    assert!(matches!(member(&body, "stream"), Some(Json::Bool(true))));
    assert_eq!(text(member(&body, "user")), Some("me".to_string()));
    match member(&body, "tools") {
        Some(Json::Array(a)) => assert_eq!(a.len(), 7),
        _ => panic!("tools missing"),
    }
    let msgs = match member(&body, "messages") { Some(Json::Array(a)) => a, _ => panic!() };
    assert_eq!(text(member(&msgs[0], "role")), Some("system".to_string()));
    assert_eq!(keys(&msgs[2]), vec!["role", "content", "tool_calls"]);
    assert_eq!(text(member(&msgs[3], "tool_call_id")), Some("c1".to_string()));
    let parts = match member(&msgs[1], "content") { Some(Json::Array(a)) => a, _ => panic!() };
    assert_eq!(text(member(&parts[1], "type")), Some("image_url".to_string()));
}

#[test]
fn reasoning_models_at_openai_omit_sampling_fields() {
    let body = build_request(&conversation(), &provider("o3-mini", "api.openai.com"), &options(None), &vec![]);
    assert_eq!(keys(&body), vec!["messages", "model", "stream"]);
    assert!(omits_sampling_fields("gpt-5-mini", "api.openai.com"));
    assert!(!omits_sampling_fields("gpt-4o", "api.openai.com"));
    assert!(!omits_sampling_fields("o3-mini", "openrouter.ai"));
}

#[test]
fn gemini_body_remaps_roles_and_images() {
    let defs: Vec<ToolDefinition> = create_default_registry().definitions();
    let body = build_request(&conversation(), &provider("gemini-1.5-flash", "generativelanguage.googleapis.com"), &options(Some("me")), &defs);
    assert_eq!(keys(&body), vec!["contents", "generationConfig", "tools"]);
    let contents = match member(&body, "contents") { Some(Json::Array(a)) => a, _ => panic!() };
    assert_eq!(text(member(&contents[0], "role")), Some("user".to_string()));
    assert_eq!(text(member(&contents[2], "role")), Some("model".to_string()));
    let parts = match member(&contents[1], "parts") { Some(Json::Array(a)) => a, _ => panic!() };
    let inline = member(&parts[1], "inlineData").unwrap();
    assert_eq!(text(member(inline, "mimeType")), Some("image/jpeg".to_string()));
    assert_eq!(text(member(inline, "data")), Some("QUJD".to_string()));
    let call_parts = match member(&contents[2], "parts") { Some(Json::Array(a)) => a, _ => panic!() };
    let args = member(member(&call_parts[0], "functionCall").unwrap(), "args").unwrap();
    assert_eq!(text(member(args, "path")), Some("a".to_string()));
    let config = member(&body, "generationConfig").unwrap();
    assert!(matches!(member(config, "temperature"), Some(Json::Number(t)) if t == "0.6"));
}

#[test]
fn data_urls_split_into_mime_and_payload() {
    assert_eq!(data_url_parts("data:image/jpeg;base64,AAAA"), ("image/jpeg".to_string(), "AAAA".to_string()));
    assert_eq!(data_url_parts("nocolon;x,BBB"), ("image/png".to_string(), "BBB".to_string()));
    assert_eq!(data_url_parts("data:image/gif"), ("image/gif".to_string(), String::new()));
}

#[test]
fn urls_and_provider_rules() {
    let g = provider("gemini-1.5-flash", "generativelanguage.googleapis.com");
    assert_eq!(request_url(&g), "https://generativelanguage.googleapis.com/v1beta/models/gemini-1.5-flash:streamGenerateContent?alt=sse");
    assert_eq!(request_url(&provider("gpt-4o", "api.openai.com")), "https://api.openai.com/v1/chat/completions");
    assert_eq!(Provider::for_model("gemini-pro"), Provider::Gemini);
    assert_eq!(Provider::for_model("gpt-4o"), Provider::OpenAi);
    assert!(!sends_user("mistral"));
    assert!(sends_user("oai"));
    assert_eq!(startup_role("o1-preview"), Role::User);
    assert_eq!(startup_role("gpt-4o"), Role::System);
}

#[test]
fn json_text_round_trips_through_serde() {
    let v = Json::parse(" {\"a\": [1, true, null, \"x\"]} ").unwrap();
    assert_eq!(v.to_text(), "{\"a\":[1,true,null,\"x\"]}");
    assert!(Json::parse("{not json").is_none());
    assert!(matches!(Json::parse("18446744073709551615").map(|j| j.as_u64()), Some(Some(u64::MAX))));
    assert!(matches!(Json::parse("-3").map(|j| j.as_u64()), Some(None)));
}
