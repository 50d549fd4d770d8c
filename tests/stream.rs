use ask::accumulator::{ToolCallAccumulator, ToolCallFragment};
use ask::adapter::Provider;
use ask::decoder::{Framing, StreamDecoder, StreamOutcome};

fn decode(p: Provider, f: Framing, chunks: &[&[u8]]) -> StreamOutcome {
    let mut d = StreamDecoder::new(p, f);
    for c in chunks {
        d.feed(c);
    }
    d.finish()
}

const TOOL_STREAM: &str = "data: {\"choices\":[{\"delta\":{\"role\":\"assistant\",\"tool_calls\":[{\"index\":0,\"id\":\"call_1\",\"function\":{\"name\":\"read_file\",\"arguments\":\"{\\\"pa\"}}]}}]}\ndata: {\"choices\":[{\"delta\":{\"tool_calls\":[{\"index\":0,\"function\":{\"arguments\":\"th\\\":\\\"a.txt\\\"}\"}}]}}]}\ndata: [DONE]\n";

#[test]
fn tool_call_fragments_finalize_to_one_call() {
    let out = decode(Provider::OpenAi, Framing::DataLines, &[TOOL_STREAM.as_bytes()]);
    assert_eq!(out.tool_calls.len(), 1);
    assert_eq!(out.tool_calls[0].id, "call_1");
    assert_eq!(out.tool_calls[0].name, "read_file");
    assert_eq!(out.tool_calls[0].arguments, "{\"path\":\"a.txt\"}");
    assert_eq!(out.role, "assistant");
}

#[test]
fn text_only_stream_yields_hello() {
    let body = "data: {\"choices\":[{\"delta\":{\"content\":\"Hel\"}}]}\ndata: {\"choices\":[{\"delta\":{\"content\":\"lo\"}}]}\ndata: [DONE]\n";
    let out = decode(Provider::OpenAi, Framing::DataLines, &[body.as_bytes()]);
    assert_eq!(out.text, "Hello");
    assert_eq!(out.role, "assistant");
    assert!(out.tool_calls.is_empty());
}

#[test]
fn byte_by_byte_chunks_match_whole_body() {
    let whole = decode(Provider::OpenAi, Framing::DataLines, &[TOOL_STREAM.as_bytes()]);
    let bytes = TOOL_STREAM.as_bytes();
    let pieces: Vec<&[u8]> = bytes.chunks(1).collect();
    let split = decode(Provider::OpenAi, Framing::DataLines, &pieces);
    assert_eq!(split.tool_calls.len(), whole.tool_calls.len());
    assert_eq!(split.tool_calls[0].arguments, whole.tool_calls[0].arguments);
    assert_eq!(split.tool_calls[0].id, whole.tool_calls[0].id);
    let odd: Vec<&[u8]> = bytes.chunks(7).collect();
    let split7 = decode(Provider::OpenAi, Framing::DataLines, &odd);
    assert_eq!(split7.tool_calls[0].arguments, "{\"path\":\"a.txt\"}");
}

#[test]
fn multibyte_text_split_inside_a_character() {
    let body = "data: {\"choices\":[{\"delta\":{\"content\":\"h\u{e9}llo \u{1F600}\"}}]}\ndata: [DONE]\n";
    let bytes = body.as_bytes();
    let pieces: Vec<&[u8]> = bytes.chunks(3).collect();
    let out = decode(Provider::OpenAi, Framing::DataLines, &pieces);
    assert_eq!(out.text, "h\u{e9}llo \u{1F600}");
}

#[test]
fn malformed_units_are_skipped() {
    let body = "data: {not json\n: keep-alive\ndata: {\"choices\":[{\"delta\":{\"content\":\"ok\"}}]}\ndata: [DONE]\n";
    let out = decode(Provider::OpenAi, Framing::DataLines, &[body.as_bytes()]);
    assert_eq!(out.text, "ok");
}

#[test]
fn nothing_after_done_is_read() {
    let body = "data: {\"choices\":[{\"delta\":{\"content\":\"a\"}}]}\ndata: [DONE]\ndata: {\"choices\":[{\"delta\":{\"content\":\"b\"}}]}\n";
    let mut d = StreamDecoder::new(Provider::OpenAi, Framing::DataLines);
    d.feed(body.as_bytes());
    assert!(d.is_done());
    assert_eq!(d.finish().text, "a");
}

#[test]
fn closed_stream_without_sentinel_keeps_complete_lines() {
    let body = "data: {\"choices\":[{\"delta\":{\"content\":\"a\"}}]}\ndata: {\"choices\":[{\"delta\":{\"content\":\"b\"}}]}";
    let out = decode(Provider::OpenAi, Framing::DataLines, &[body.as_bytes()]);
    assert_eq!(out.text, "a");
}

#[test]
fn first_role_wins() {
    let body = "data: {\"choices\":[{\"delta\":{\"role\":\"assistant\",\"content\":\"x\"}}]}\ndata: {\"choices\":[{\"delta\":{\"role\":\"other\"}}]}\ndata: [DONE]\n";
    let out = decode(Provider::OpenAi, Framing::DataLines, &[body.as_bytes()]);
    assert_eq!(out.role, "assistant");
}

#[test]
fn calls_come_out_in_index_order() {
    let body = "data: {\"choices\":[{\"delta\":{\"tool_calls\":[{\"index\":1,\"id\":\"b\",\"function\":{\"name\":\"second\",\"arguments\":\"{}\"}}]}}]}\ndata: {\"choices\":[{\"delta\":{\"tool_calls\":[{\"index\":0,\"id\":\"a\",\"function\":{\"name\":\"first\",\"arguments\":\"{}\"}}]}}]}\ndata: [DONE]\n";
    let out = decode(Provider::OpenAi, Framing::DataLines, &[body.as_bytes()]);
    let names: Vec<&str> = out.tool_calls.iter().map(|c| c.name.as_str()).collect();
    assert_eq!(names, vec!["first", "second"]);
}

#[test]
fn gemini_events_give_model_text_and_calls() {
    let body = "data: {\"candidates\":[{\"content\":{\"parts\":[{\"text\":\"Hi \"},{\"text\":\"there\"}]}}]}\ndata: {\"candidates\":[{\"content\":{\"parts\":[{\"functionCall\":{\"name\":\"read_file\",\"args\":{\"path\":\"a\"}}}]}}]}\n";
    let out = decode(Provider::Gemini, Framing::DataLines, &[body.as_bytes()]);
    assert_eq!(out.role, "model");
    assert_eq!(out.text, "Hi there");
    assert_eq!(out.tool_calls.len(), 1);
    assert_eq!(out.tool_calls[0].name, "read_file");
    assert_eq!(out.tool_calls[0].id, "read_file");
    assert_eq!(out.tool_calls[0].arguments, "{\"path\":\"a\"}");
}

#[test]
fn brace_framing_waits_for_a_complete_object() {
    let body = "{\"candidates\":[{\"content\":{\"parts\":[{\"text\":\"a}\\n\"}]}}]}\n{\"candidates\":[{\"content\":{\"parts\":[{\"text\":\"b\"}]}}]}\n";
    let bytes = body.as_bytes();
    let pieces: Vec<&[u8]> = bytes.chunks(5).collect();
    let out = decode(Provider::Gemini, Framing::Braces, &pieces);
    assert_eq!(out.text, "a}\nb");
}

#[test]
fn argument_fragments_concatenate() {
    let mut split = ToolCallAccumulator::new();
    split.merge(ToolCallFragment { index: 0, id: Some("c".to_string()), name: Some("f".to_string()), arguments: Some("{\"a\":1".to_string()) });
    split.merge(ToolCallFragment { index: 0, id: None, name: None, arguments: Some("}".to_string()) });
    let mut whole = ToolCallAccumulator::new();
    whole.merge(ToolCallFragment { index: 0, id: Some("c".to_string()), name: Some("f".to_string()), arguments: Some("{\"a\":1}".to_string()) });
    let a = split.finalize();
    let b = whole.finalize();
    assert_eq!(a[0].arguments, "{\"a\":1}");
    assert_eq!(a[0].arguments, b[0].arguments);
    assert!(split.is_empty());
}

#[test]
fn empty_id_does_not_overwrite() {
    let mut acc = ToolCallAccumulator::new();
    acc.merge(ToolCallFragment { index: 3, id: Some("x".to_string()), name: Some("n".to_string()), arguments: None });
    acc.merge(ToolCallFragment { index: 3, id: Some(String::new()), name: Some("other".to_string()), arguments: Some("{}".to_string()) });
    let calls = acc.finalize();
    assert_eq!(calls.len(), 1);
    assert_eq!(calls[0].id, "x");
    assert_eq!(calls[0].name, "n");
    assert_eq!(calls[0].arguments, "{}");
}

#[test]
fn finalize_on_empty_buffer_gives_no_calls() {
    let mut acc = ToolCallAccumulator::new();
    assert!(acc.finalize().is_empty());
}

#[test]
fn invalid_utf8_is_replaced_not_fatal() {
    let mut body: Vec<u8> = b"data: {\"choices\":[{\"delta\":{\"content\":\"a".to_vec();
    body.push(0xff);
    body.extend_from_slice(b"b\"}}]}\ndata: [DONE]\n");
    let out = decode(Provider::OpenAi, Framing::DataLines, &[&body]);
    assert_eq!(out.text, "a\u{fffd}b");
}
