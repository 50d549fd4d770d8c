//! Request bodies in each provider's dialect, built from the conversation.
use vstd::prelude::*;
use crate::accumulator::{CallView, ToolCallRequest};
use crate::adapter::Provider;
use crate::conversation::{Content, ContentView, ConversationState, ConversationView, Message, MessageView, Part, PartView, Role};
use crate::json::{
    array, entry, item_views, member_views, object, parse_json, parsed_json, text_value, Json, JsonView,
};
use crate::settings::ProviderSettings;
use crate::text::{
    append_str, chars_of, contains, decimal, find_char, first_index, has_infix, push_decimal, slice_chars,
    string_of,
};
use crate::tools::{declaration_json, openai_tool_json, tool_views, ToolDefinition, ToolView};

verus! {

pub open spec fn role_name(r: Role) -> Seq<char> {
    match r {
        Role::System => "system"@,
        Role::User => "user"@,
        Role::Assistant => "assistant"@,
        Role::Tool => "tool"@,
    }
}

/// Gemini knows no system or assistant role: they become `user` and `model`.
pub open spec fn gemini_role(r: Role) -> Seq<char> {
    match r {
        Role::System => "user"@,
        Role::Assistant => "model"@,
        _ => role_name(r),
    }
}

/// The text before the first `c`, or all of it.
pub open spec fn before(s: Seq<char>, c: char) -> Seq<char> {
    match first_index(s, c) {
        Some(i) => s.subrange(0, i),
        None => s,
    }
}

/// The text after the first `c`, if there is one.
pub open spec fn after(s: Seq<char>, c: char) -> Option<Seq<char>> {
    match first_index(s, c) {
        Some(i) => Some(s.subrange(i + 1, s.len() as int)),
        None => None,
    }
}

/// The MIME type of a `data:<mime>;base64,<data>` URL; `image/png` when the header has
/// no `:`.
pub open spec fn mime_of(url: Seq<char>) -> Seq<char> {
    match after(before(url, ','), ':') {
        Some(rest) => before(rest, ';'),
        None => "image/png"@,
    }
}

/// The payload of a data URL: what follows the first `,`, else nothing.
pub open spec fn data_of(url: Seq<char>) -> Seq<char> {
    match after(url, ',') {
        Some(d) => d,
        None => Seq::empty(),
    }
}

pub open spec fn openai_part_json(p: PartView) -> JsonView {
    match p {
        PartView::Text(t) => JsonView::Object(seq![("type"@, JsonView::Str("text"@)), ("text"@, JsonView::Str(t))]),
        PartView::Image { url, detail } => JsonView::Object(seq![
            ("type"@, JsonView::Str("image_url"@)),
            ("image_url"@, JsonView::Object(seq![("url"@, JsonView::Str(url)), ("detail"@, JsonView::Str(detail))])),
        ]),
    }
}

pub open spec fn openai_call_json(c: CallView) -> JsonView {
    JsonView::Object(seq![
        ("id"@, JsonView::Str(c.id)),
        ("type"@, JsonView::Str("function"@)),
        ("function"@, JsonView::Object(seq![("name"@, JsonView::Str(c.name)), ("arguments"@, JsonView::Str(c.arguments))])),
    ])
}

/// A message in chat-completions form.
pub open spec fn openai_message_json(m: MessageView) -> JsonView {
    let role = ("role"@, JsonView::Str(role_name(m.role)));
    match m.content {
        ContentView::Text(t) => JsonView::Object(seq![role, ("content"@, JsonView::Str(t))]),
        ContentView::Parts(ps) => JsonView::Object(seq![role, ("content"@, JsonView::Array(ps.map_values(|p: PartView| openai_part_json(p))))]),
        ContentView::ToolCalls(cs) => JsonView::Object(seq![
            role,
            ("content"@, JsonView::Null),
            ("tool_calls"@, JsonView::Array(cs.map_values(|c: CallView| openai_call_json(c)))),
        ]),
        ContentView::ToolResult { call_id, text } => JsonView::Object(seq![
            role,
            ("tool_call_id"@, JsonView::Str(call_id)),
            ("content"@, JsonView::Str(text)),
        ]),
    }
}

pub open spec fn gemini_part_json(p: PartView) -> JsonView {
    match p {
        PartView::Text(t) => JsonView::Object(seq![("text"@, JsonView::Str(t))]),
        PartView::Image { url, .. } => JsonView::Object(seq![(
            "inlineData"@,
            JsonView::Object(seq![("mimeType"@, JsonView::Str(mime_of(url))), ("data"@, JsonView::Str(data_of(url)))]),
        )]),
    }
}

/// The arguments of a call as a JSON value; text that does not parse becomes `{}`.
pub open spec fn arguments_json(a: Seq<char>) -> JsonView {
    match parsed_json(a) {
        Some(v) => v@,
        None => JsonView::Object(Seq::empty()),
    }
}

pub open spec fn gemini_call_json(c: CallView) -> JsonView {
    JsonView::Object(seq![(
        "functionCall"@,
        JsonView::Object(seq![("name"@, JsonView::Str(c.name)), ("args"@, arguments_json(c.arguments))]),
    )])
}

/// A message in generateContent form; a tool result answers the call named by its id.
pub open spec fn gemini_message_json(m: MessageView) -> JsonView {
    let parts = match m.content {
        ContentView::Text(t) => seq![JsonView::Object(seq![("text"@, JsonView::Str(t))])],
        ContentView::Parts(ps) => ps.map_values(|p: PartView| gemini_part_json(p)),
        ContentView::ToolCalls(cs) => cs.map_values(|c: CallView| gemini_call_json(c)),
        ContentView::ToolResult { call_id, text } => seq![JsonView::Object(seq![(
            "functionResponse"@,
            JsonView::Object(seq![
                ("name"@, JsonView::Str(call_id)),
                ("response"@, JsonView::Object(seq![("content"@, JsonView::Str(text))])),
            ]),
        )])],
    };
    JsonView::Object(seq![("role"@, JsonView::Str(gemini_role(m.role))), ("parts"@, JsonView::Array(parts))])
}

/// The role's name as the chat-completions dialect writes it.
pub fn role_text(r: Role) -> (s: &'static str)
    ensures
        s@ == role_name(r),
{
    match r {
        Role::System => "system",
        Role::User => "user",
        Role::Assistant => "assistant",
        Role::Tool => "tool",
    }
}

fn gemini_role_text(r: Role) -> (s: &'static str)
    ensures
        s@ == gemini_role(r),
{
    match r {
        Role::System => "user",
        Role::Assistant => "model",
        _ => role_text(r),
    }
}

fn str_field(k: &str, v: &str) -> (r: (String, Json))
    ensures
        r.0@ == k@,
        r.1@ == JsonView::Str(v@),
{
    entry(k, text_value(v))
}

fn openai_part(p: &Part) -> (r: Json)
    ensures
        r@ == openai_part_json(p@),
{
    let mut m: Vec<(String, Json)> = Vec::new();
    match p {
        Part::Text(t) => {
            m.push(str_field("type", "text"));
            m.push(str_field("text", t.as_str()));
        },
        Part::Image { url, detail } => {
            let mut inner: Vec<(String, Json)> = Vec::new();
            inner.push(str_field("url", url.as_str()));
            inner.push(str_field("detail", detail.as_str()));
            assert(member_views(inner@) =~= seq![("url"@, JsonView::Str(url@)), ("detail"@, JsonView::Str(detail@))]);
            m.push(str_field("type", "image_url"));
            m.push(entry("image_url", object(inner)));
        },
    }
    assert(member_views(m@) =~= openai_part_json(p@)->Object_0);
    object(m)
}

fn openai_call(c: &ToolCallRequest) -> (r: Json)
    ensures
        r@ == openai_call_json(c@),
{
    let mut f: Vec<(String, Json)> = Vec::new();
    f.push(str_field("name", c.name.as_str()));
    f.push(str_field("arguments", c.arguments.as_str()));
    assert(member_views(f@) =~= seq![("name"@, JsonView::Str(c.name@)), ("arguments"@, JsonView::Str(c.arguments@))]);
    let mut m: Vec<(String, Json)> = Vec::new();
    m.push(str_field("id", c.id.as_str()));
    m.push(str_field("type", "function"));
    m.push(entry("function", object(f)));
    assert(member_views(m@) =~= openai_call_json(c@)->Object_0);
    object(m)
}

/// A message in chat-completions form.
pub fn openai_message(msg: &Message) -> (r: Json)
    ensures
        r@ == openai_message_json(msg@),
{
    let mut m: Vec<(String, Json)> = Vec::new();
    m.push(str_field("role", role_text(msg.role)));
    match &msg.content {
        Content::Text(t) => {
            m.push(str_field("content", t.as_str()));
        },
        Content::Parts(ps) => {
            let mut out: Vec<Json> = Vec::new();
            let mut i: usize = 0;
            while i < ps.len()
                invariant
                    i <= ps@.len(),
                    out@.len() == i,
                    forall|j: int| 0 <= j < i ==> (#[trigger] out@[j])@ == openai_part_json(ps@[j]@),
                decreases ps@.len() - i,
            {
                out.push(openai_part(&ps[i]));
                i = i + 1;
            }
            assert(item_views(out@) =~= msg@.content->Parts_0.map_values(|p: PartView| openai_part_json(p)));
            m.push(entry("content", array(out)));
        },
        Content::ToolCalls(cs) => {
            let mut out: Vec<Json> = Vec::new();
            let mut i: usize = 0;
            while i < cs.len()
                invariant
                    i <= cs@.len(),
                    out@.len() == i,
                    forall|j: int| 0 <= j < i ==> (#[trigger] out@[j])@ == openai_call_json(cs@[j]@),
                decreases cs@.len() - i,
            {
                out.push(openai_call(&cs[i]));
                i = i + 1;
            }
            assert(item_views(out@) =~= msg@.content->ToolCalls_0.map_values(|c: CallView| openai_call_json(c)));
            m.push(entry("content", Json::Null));
            m.push(entry("tool_calls", array(out)));
        },
        Content::ToolResult { call_id, text } => {
            m.push(str_field("tool_call_id", call_id.as_str()));
            m.push(str_field("content", text.as_str()));
        },
    }
    assert(member_views(m@) =~= openai_message_json(msg@)->Object_0);
    object(m)
}

/// The MIME type and the payload of a data URL.
pub fn data_url_parts(url: &str) -> (r: (String, String))
    ensures
        r.0@ == mime_of(url@),
        r.1@ == data_of(url@),
{
    let cs = chars_of(url);
    let n = cs.len();
    let (header, data) = match find_char(&cs, ',') {
        Some(i) => (slice_chars(&cs, 0, i), slice_chars(&cs, i + 1, n)),
        None => (slice_chars(&cs, 0, n), Vec::new()),
    };
    assert(cs@.subrange(0, cs@.len() as int) == cs@);
    assert(header@ == before(url@, ','));
    assert(data@ == data_of(url@));
    let mime = match find_char(&header, ':') {
        Some(i) => {
            let hn = header.len();
            let rest = slice_chars(&header, i + 1, hn);
            match find_char(&rest, ';') {
                Some(j) => string_of(&slice_chars(&rest, 0, j)),
                None => {
                    assert(rest@.subrange(0, rest@.len() as int) == rest@);
                    string_of(&rest)
                },
            }
        },
        None => "image/png".to_owned(),
    };
    (mime, string_of(&data))
}

fn gemini_part(p: &Part) -> (r: Json)
    ensures
        r@ == gemini_part_json(p@),
{
    let mut m: Vec<(String, Json)> = Vec::new();
    match p {
        Part::Text(t) => {
            m.push(str_field("text", t.as_str()));
        },
        Part::Image { url, detail: _ } => {
            let (mime, data) = data_url_parts(url.as_str());
            let mut inner: Vec<(String, Json)> = Vec::new();
            inner.push(str_field("mimeType", mime.as_str()));
            inner.push(str_field("data", data.as_str()));
            assert(member_views(inner@) =~= seq![
                ("mimeType"@, JsonView::Str(mime_of(url@))),
                ("data"@, JsonView::Str(data_of(url@))),
            ]);
            m.push(entry("inlineData", object(inner)));
        },
    }
    assert(member_views(m@) =~= gemini_part_json(p@)->Object_0);
    object(m)
}

/// The arguments of a call as a JSON value; text that does not parse becomes `{}`.
pub fn call_arguments(a: &str) -> (r: Json)
    ensures
        r@ == arguments_json(a@),
{
    match parse_json(a) {
        Some(v) => v,
        None => {
            let e: Vec<(String, Json)> = Vec::new();
            assert(member_views(e@) =~= Seq::empty());
            object(e)
        },
    }
}

fn gemini_call(c: &ToolCallRequest) -> (r: Json)
    ensures
        r@ == gemini_call_json(c@),
{
    let mut f: Vec<(String, Json)> = Vec::new();
    f.push(str_field("name", c.name.as_str()));
    f.push(entry("args", call_arguments(c.arguments.as_str())));
    assert(member_views(f@) =~= seq![("name"@, JsonView::Str(c.name@)), ("args"@, arguments_json(c.arguments@))]);
    let mut m: Vec<(String, Json)> = Vec::new();
    m.push(entry("functionCall", object(f)));
    assert(member_views(m@) =~= gemini_call_json(c@)->Object_0);
    object(m)
}

/// A message in generateContent form.
pub fn gemini_message(msg: &Message) -> (r: Json)
    ensures
        r@ == gemini_message_json(msg@),
{
    let ghost target = gemini_message_json(msg@)->Object_0[1].1->Array_0;
    let mut parts: Vec<Json> = Vec::new();
    match &msg.content {
        Content::Text(t) => {
            let mut m: Vec<(String, Json)> = Vec::new();
            m.push(str_field("text", t.as_str()));
            assert(member_views(m@) =~= seq![("text"@, JsonView::Str(t@))]);
            parts.push(object(m));
            assert(item_views(parts@) =~= target);
        },
        Content::Parts(ps) => {
            let mut i: usize = 0;
            while i < ps.len()
                invariant
                    i <= ps@.len(),
                    parts@.len() == i,
                    forall|j: int| 0 <= j < i ==> (#[trigger] parts@[j])@ == gemini_part_json(ps@[j]@),
                decreases ps@.len() - i,
            {
                parts.push(gemini_part(&ps[i]));
                i = i + 1;
            }
            assert(item_views(parts@) =~= target);
        },
        Content::ToolCalls(cs) => {
            let mut i: usize = 0;
            while i < cs.len()
                invariant
                    i <= cs@.len(),
                    parts@.len() == i,
                    forall|j: int| 0 <= j < i ==> (#[trigger] parts@[j])@ == gemini_call_json(cs@[j]@),
                decreases cs@.len() - i,
            {
                parts.push(gemini_call(&cs[i]));
                i = i + 1;
            }
            assert(item_views(parts@) =~= target);
        },
        Content::ToolResult { call_id, text } => {
            let mut resp: Vec<(String, Json)> = Vec::new();
            resp.push(str_field("content", text.as_str()));
            assert(member_views(resp@) =~= seq![("content"@, JsonView::Str(text@))]);
            let mut fr: Vec<(String, Json)> = Vec::new();
            fr.push(str_field("name", call_id.as_str()));
            fr.push(entry("response", object(resp)));
            assert(member_views(fr@) =~= seq![
                ("name"@, JsonView::Str(call_id@)),
                ("response"@, JsonView::Object(seq![("content"@, JsonView::Str(text@))])),
            ]);
            let mut m: Vec<(String, Json)> = Vec::new();
            m.push(entry("functionResponse", object(fr)));
            assert(member_views(m@) =~= target[0]->Object_0);
            parts.push(object(m));
            assert(item_views(parts@) =~= target);
        },
    }
    let mut m: Vec<(String, Json)> = Vec::new();
    m.push(str_field("role", gemini_role_text(msg.role)));
    m.push(entry("parts", array(parts)));
    assert(member_views(m@) =~= gemini_message_json(msg@)->Object_0);
    object(m)
}

/// Whether a regular expression finds a match in a text.
pub uninterp spec fn regex_matches(pattern: Seq<char>, text: Seq<char>) -> bool;

/// Relies on `regex::Regex::new` and `Regex::is_match`: whether the pattern matches
/// somewhere in the text, a function of the two alone; a pattern that does not compile
/// matches nothing.
#[verifier::external_body]
fn regex_is_match(pattern: &str, text: &str) -> (r: bool)
    ensures
        r == regex_matches(pattern@, text@),
{
    regex::Regex::new(pattern).map(|re| re.is_match(text)).unwrap_or(false)
}

/// Models that refuse `max_tokens` and `temperature`: a pattern over the model name and a
/// fragment of the host that serves them.
pub open spec fn sampling_exceptions() -> Seq<(Seq<char>, Seq<char>)> {
    seq![("o\\d-mini|gpt-5"@, "openai"@)]
}

/// Whether a model at a host is one of the exceptions.
pub open spec fn omits_sampling(model: Seq<char>, host: Seq<char>) -> bool {
    exists|i: int|
        0 <= i < sampling_exceptions().len() && regex_matches(#[trigger] sampling_exceptions()[i].0, model)
            && has_infix(host, sampling_exceptions()[i].1)
}

fn exception_table() -> (r: Vec<(&'static str, &'static str)>)
    ensures
        r@.len() == sampling_exceptions().len(),
        forall|i: int| 0 <= i < r@.len() ==> (#[trigger] r@[i]).0@ == sampling_exceptions()[i].0
            && r@[i].1@ == sampling_exceptions()[i].1,
{
    let mut r: Vec<(&'static str, &'static str)> = Vec::new();
    r.push(("o\\d-mini|gpt-5", "openai"));
    r
}

/// Whether the request must leave out `max_tokens` and `temperature`.
pub fn omits_sampling_fields(model: &str, host: &str) -> (r: bool)
    ensures
        r == omits_sampling(model@, host@),
{
    let table = exception_table();
    let mut i: usize = 0;
    while i < table.len()
        invariant
            i <= table@.len(),
            table@.len() == sampling_exceptions().len(),
            forall|k: int| 0 <= k < table@.len() ==> (#[trigger] table@[k]).0@ == sampling_exceptions()[k].0
                && table@[k].1@ == sampling_exceptions()[k].1,
            forall|k: int| 0 <= k < i ==> !(regex_matches(#[trigger] sampling_exceptions()[k].0, model@)
                && has_infix(host@, sampling_exceptions()[k].1)),
        decreases table@.len() - i,
    {
        let (pattern, fragment) = table[i];
        if regex_is_match(pattern, model) && contains(host, fragment) {
            return true;
        }
        i = i + 1;
    }
    false
}

/// The dialect a model speaks: Gemini models carry `gemini-` in their name.
pub open spec fn provider_for(model: Seq<char>) -> Provider {
    if has_infix(model, "gemini-"@) { Provider::Gemini } else { Provider::OpenAi }
}

impl Provider {
    pub fn for_model(model: &str) -> (r: Provider)
        ensures
            r == provider_for(model@),
    {
        if contains(model, "gemini-") { Provider::Gemini } else { Provider::OpenAi }
    }
}

/// Whether a provider accepts the `user` field; Mistral refuses it.
pub fn sends_user(provider_name: &str) -> (r: bool)
    ensures
        r == (provider_name@ != "mistral"@),
{
    !crate::text::text_eq(provider_name, "mistral")
}

/// The sampling settings and caller identity sent with a request.
pub struct RequestOptions {
    pub max_tokens: u32,
    /// The temperature as JSON number text.
    pub temperature: String,
    pub user: Option<String>,
}

/// The chat-completions body: messages, model, streaming on, then the sampling fields
/// unless the model is an exception, the user when given, and the tools when any.
pub open spec fn openai_body(s: ConversationView, ps: ProviderSettings, o: RequestOptions, tools: Seq<ToolView>) -> JsonView {
    let base = seq![
        ("messages"@, JsonView::Array(s.messages.map_values(|m: MessageView| openai_message_json(m)))),
        ("model"@, JsonView::Str(s.model)),
        ("stream"@, JsonView::Bool(true)),
    ];
    let sampling = if omits_sampling(ps.model@, ps.host@) {
        Seq::empty()
    } else {
        seq![
            ("max_tokens"@, JsonView::Number(decimal(o.max_tokens as nat))),
            ("temperature"@, JsonView::Number(o.temperature@)),
        ]
    };
    let user = match o.user {
        Some(u) => seq![("user"@, JsonView::Str(u@))],
        None => Seq::empty(),
    };
    let tools_entry = if tools.len() > 0 {
        seq![("tools"@, JsonView::Array(tools.map_values(|d: ToolView| openai_tool_json(d))))]
    } else {
        Seq::empty()
    };
    JsonView::Object(base + sampling + user + tools_entry)
}

/// The generateContent body: contents, generation settings, and the tools when any.
pub open spec fn gemini_body(s: ConversationView, o: RequestOptions, tools: Seq<ToolView>) -> JsonView {
    let base = seq![
        ("contents"@, JsonView::Array(s.messages.map_values(|m: MessageView| gemini_message_json(m)))),
        ("generationConfig"@, JsonView::Object(seq![
            ("maxOutputTokens"@, JsonView::Number(decimal(o.max_tokens as nat))),
            ("temperature"@, JsonView::Number(o.temperature@)),
        ])),
    ];
    let tools_entry = if tools.len() > 0 {
        seq![("tools"@, JsonView::Array(seq![JsonView::Object(seq![(
            "function_declarations"@,
            JsonView::Array(tools.map_values(|d: ToolView| declaration_json(d))),
        )])]))]
    } else {
        Seq::empty()
    };
    JsonView::Object(base + tools_entry)
}

pub open spec fn request_json(s: ConversationView, ps: ProviderSettings, o: RequestOptions, tools: Seq<ToolView>) -> JsonView {
    match provider_for(ps.model@) {
        Provider::OpenAi => openai_body(s, ps, o, tools),
        Provider::Gemini => gemini_body(s, o, tools),
    }
}

fn number_value(n: u32) -> (r: Json)
    ensures
        r@ == JsonView::Number(decimal(n as nat)),
{
    let mut cs: Vec<char> = Vec::new();
    push_decimal(&mut cs, n as u64);
    assert(cs@ =~= decimal(n as nat));
    Json::Number(string_of(&cs))
}

pub(crate) fn openai_messages(state: &ConversationState) -> (r: Json)
    ensures
        r@ == JsonView::Array(state@.messages.map_values(|m: MessageView| openai_message_json(m))),
{
    let mut out: Vec<Json> = Vec::new();
    let mut i: usize = 0;
    while i < state.messages.len()
        invariant
            i <= state.messages@.len(),
            out@.len() == i,
            forall|j: int| 0 <= j < i ==> (#[trigger] out@[j])@ == openai_message_json(state.messages@[j]@),
        decreases state.messages@.len() - i,
    {
        out.push(openai_message(&state.messages[i]));
        i = i + 1;
    }
    assert(item_views(out@) =~= state@.messages.map_values(|m: MessageView| openai_message_json(m)));
    array(out)
}

fn gemini_messages(state: &ConversationState) -> (r: Json)
    ensures
        r@ == JsonView::Array(state@.messages.map_values(|m: MessageView| gemini_message_json(m))),
{
    let mut out: Vec<Json> = Vec::new();
    let mut i: usize = 0;
    while i < state.messages.len()
        invariant
            i <= state.messages@.len(),
            out@.len() == i,
            forall|j: int| 0 <= j < i ==> (#[trigger] out@[j])@ == gemini_message_json(state.messages@[j]@),
        decreases state.messages@.len() - i,
    {
        out.push(gemini_message(&state.messages[i]));
        i = i + 1;
    }
    assert(item_views(out@) =~= state@.messages.map_values(|m: MessageView| gemini_message_json(m)));
    array(out)
}

fn openai_tools(tools: &Vec<ToolDefinition>) -> (r: Json)
    ensures
        r@ == JsonView::Array(tool_views(tools@).map_values(|d: ToolView| openai_tool_json(d))),
{
    let mut out: Vec<Json> = Vec::new();
    let mut i: usize = 0;
    while i < tools.len()
        invariant
            i <= tools@.len(),
            out@.len() == i,
            forall|j: int| 0 <= j < i ==> (#[trigger] out@[j])@ == openai_tool_json(tools@[j]@),
        decreases tools@.len() - i,
    {
        out.push(tools[i].openai_format());
        i = i + 1;
    }
    assert(item_views(out@) =~= tool_views(tools@).map_values(|d: ToolView| openai_tool_json(d)));
    array(out)
}

fn gemini_tools(tools: &Vec<ToolDefinition>) -> (r: Json)
    ensures
        r@ == JsonView::Array(tool_views(tools@).map_values(|d: ToolView| declaration_json(d))),
{
    let mut out: Vec<Json> = Vec::new();
    let mut i: usize = 0;
    while i < tools.len()
        invariant
            i <= tools@.len(),
            out@.len() == i,
            forall|j: int| 0 <= j < i ==> (#[trigger] out@[j])@ == declaration_json(tools@[j]@),
        decreases tools@.len() - i,
    {
        out.push(tools[i].declaration());
        i = i + 1;
    }
    assert(item_views(out@) =~= tool_views(tools@).map_values(|d: ToolView| declaration_json(d)));
    array(out)
}

/// The request body for the conversation in the dialect of the provider's model.
pub fn build_request(
    state: &ConversationState,
    ps: &ProviderSettings,
    options: &RequestOptions,
    tools: &Vec<ToolDefinition>,
) -> (r: Json)
    ensures
        r@ == request_json(state@, *ps, *options, tool_views(tools@)),
{
    let mut m: Vec<(String, Json)> = Vec::new();
    let ghost tv = tool_views(tools@);
    match Provider::for_model(ps.model.as_str()) {
        Provider::OpenAi => {
            m.push(entry("messages", openai_messages(state)));
            m.push(str_field("model", state.model.as_str()));
            m.push(entry("stream", Json::Bool(true)));
            let ghost n0 = m@.len();
            if !omits_sampling_fields(ps.model.as_str(), ps.host.as_str()) {
                m.push(entry("max_tokens", number_value(options.max_tokens)));
                m.push(entry("temperature", Json::Number(options.temperature.clone())));
            }
            match &options.user {
                Some(u) => m.push(str_field("user", u.as_str())),
                None => {},
            }
            if tools.len() > 0 {
                m.push(entry("tools", openai_tools(tools)));
            }
            assert(member_views(m@) =~= openai_body(state@, *ps, *options, tv)->Object_0);
        },
        Provider::Gemini => {
            let mut g: Vec<(String, Json)> = Vec::new();
            g.push(entry("maxOutputTokens", number_value(options.max_tokens)));
            g.push(entry("temperature", Json::Number(options.temperature.clone())));
            assert(member_views(g@) =~= seq![
                ("maxOutputTokens"@, JsonView::Number(decimal(options.max_tokens as nat))),
                ("temperature"@, JsonView::Number(options.temperature@)),
            ]);
            m.push(entry("contents", gemini_messages(state)));
            m.push(entry("generationConfig", object(g)));
            if tools.len() > 0 {
                let mut d: Vec<(String, Json)> = Vec::new();
                d.push(entry("function_declarations", gemini_tools(tools)));
                let decl = object(d);
                let mut one: Vec<Json> = Vec::new();
                one.push(decl);
                assert(item_views(one@) =~= seq![JsonView::Object(seq![(
                    "function_declarations"@,
                    JsonView::Array(tv.map_values(|d: ToolView| declaration_json(d))),
                )])]) by {
                    assert(member_views(d@) =~= seq![(
                        "function_declarations"@,
                        JsonView::Array(tv.map_values(|d: ToolView| declaration_json(d))),
                    )]);
                }
                m.push(entry("tools", array(one)));
            }
            assert(member_views(m@) =~= gemini_body(state@, *options, tv)->Object_0);
        },
    }
    object(m)
}

/// The URL a request goes to: the provider's endpoint, or for a Gemini model its
/// streaming generateContent path.
pub open spec fn request_url_text(ps: ProviderSettings) -> Seq<char> {
    "https://"@ + ps.host@ + match provider_for(ps.model@) {
        Provider::Gemini => "/v1beta/models/"@ + ps.model@ + ":streamGenerateContent?alt=sse"@,
        Provider::OpenAi => ps.endpoint@,
    }
}

pub fn request_url(ps: &ProviderSettings) -> (r: String)
    ensures
        r@ == request_url_text(*ps),
{
    let mut cs: Vec<char> = Vec::new();
    append_str(&mut cs, "https://");
    append_str(&mut cs, ps.host.as_str());
    match Provider::for_model(ps.model.as_str()) {
        Provider::Gemini => {
            append_str(&mut cs, "/v1beta/models/");
            append_str(&mut cs, ps.model.as_str());
            append_str(&mut cs, ":streamGenerateContent?alt=sse");
        },
        Provider::OpenAi => append_str(&mut cs, ps.endpoint.as_str()),
    }
    assert(cs@ =~= request_url_text(*ps));
    string_of(&cs)
}

} // verus!
