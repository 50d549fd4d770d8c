//! The saved form of a conversation: a JSON value written whole after each exchange,
//! and read back when a session resumes.
use vstd::prelude::*;
use crate::accumulator::{views_of, CallView, ToolCallRequest};
use crate::conversation::{
    message_views, part_views, Content, ContentView, ConversationState, ConversationView, Message, MessageView, Part,
    PartView, Role,
};
use crate::json::{
    entry, item_views, jfield, lemma_array_view, lemma_field_view, lookup, member_views, object, text_value, Json,
    JsonView,
};
use crate::request::{openai_call_json, openai_message_json, openai_messages, openai_part_json, role_name};
use crate::text::text_eq;

verus! {

/// The saved form: `{model, messages}`, each message as a chat-completions message.
pub open spec fn conversation_json(s: ConversationView) -> JsonView {
    JsonView::Object(seq![
        ("model"@, JsonView::Str(s.model)),
        ("messages"@, JsonView::Array(s.messages.map_values(|m: MessageView| openai_message_json(m)))),
    ])
}

pub open spec fn role_of(s: Seq<char>) -> Option<Role> {
    if s == "system"@ {
        Some(Role::System)
    } else if s == "user"@ {
        Some(Role::User)
    } else if s == "assistant"@ {
        Some(Role::Assistant)
    } else if s == "tool"@ {
        Some(Role::Tool)
    } else {
        None
    }
}

pub open spec fn str_of(v: Option<JsonView>) -> Option<Seq<char>> {
    match v {
        Some(JsonView::Str(s)) => Some(s),
        _ => None,
    }
}

pub open spec fn part_of(v: JsonView) -> Option<PartView> {
    match str_of(jfield(v, "type"@)) {
        Some(t) => if t == "text"@ {
            match str_of(jfield(v, "text"@)) {
                Some(x) => Some(PartView::Text(x)),
                None => None,
            }
        } else if t == "image_url"@ {
            match jfield(v, "image_url"@) {
                Some(iu) => match (str_of(jfield(iu, "url"@)), str_of(jfield(iu, "detail"@))) {
                    (Some(u), Some(d)) => Some(PartView::Image { url: u, detail: d }),
                    _ => None,
                },
                None => None,
            }
        } else {
            None
        },
        None => None,
    }
}

pub open spec fn parts_of(items: Seq<JsonView>) -> Option<Seq<PartView>>
    decreases items.len(),
{
    if items.len() == 0 {
        Some(Seq::empty())
    } else {
        match (parts_of(items.drop_last()), part_of(items.last())) {
            (Some(ps), Some(p)) => Some(ps.push(p)),
            _ => None,
        }
    }
}

pub open spec fn call_of(v: JsonView) -> Option<CallView> {
    match jfield(v, "function"@) {
        Some(f) => match (str_of(jfield(v, "id"@)), str_of(jfield(f, "name"@)), str_of(jfield(f, "arguments"@))) {
            (Some(id), Some(name), Some(arguments)) => Some(CallView { id, name, arguments }),
            _ => None,
        },
        None => None,
    }
}

pub open spec fn calls_of_json(items: Seq<JsonView>) -> Option<Seq<CallView>>
    decreases items.len(),
{
    if items.len() == 0 {
        Some(Seq::empty())
    } else {
        match (calls_of_json(items.drop_last()), call_of(items.last())) {
            (Some(cs), Some(c)) => Some(cs.push(c)),
            _ => None,
        }
    }
}

/// What a saved message holds: tool calls when it lists them, a tool result when it
/// names the call it answers, else its text or parts.
pub open spec fn content_of(v: JsonView) -> Option<ContentView> {
    match jfield(v, "tool_calls"@) {
        Some(JsonView::Array(cs)) => match calls_of_json(cs) {
            Some(c) => Some(ContentView::ToolCalls(c)),
            None => None,
        },
        _ => match str_of(jfield(v, "tool_call_id"@)) {
            Some(id) => match str_of(jfield(v, "content"@)) {
                Some(t) => Some(ContentView::ToolResult { call_id: id, text: t }),
                None => None,
            },
            None => match jfield(v, "content"@) {
                Some(JsonView::Str(t)) => Some(ContentView::Text(t)),
                Some(JsonView::Array(ps)) => match parts_of(ps) {
                    Some(p) => Some(ContentView::Parts(p)),
                    None => None,
                },
                _ => None,
            },
        },
    }
}

pub open spec fn message_of(v: JsonView) -> Option<MessageView> {
    match (str_of(jfield(v, "role"@)), content_of(v)) {
        (Some(r), Some(c)) => match role_of(r) {
            Some(role) => Some(MessageView { role, content: c }),
            None => None,
        },
        _ => None,
    }
}

pub open spec fn messages_of(items: Seq<JsonView>) -> Option<Seq<MessageView>>
    decreases items.len(),
{
    if items.len() == 0 {
        Some(Seq::empty())
    } else {
        match (messages_of(items.drop_last()), message_of(items.last())) {
            (Some(ms), Some(m)) => Some(ms.push(m)),
            _ => None,
        }
    }
}

/// The conversation a saved value holds, if it is one.
pub open spec fn conversation_of(v: JsonView) -> Option<ConversationView> {
    match (str_of(jfield(v, "model"@)), jfield(v, "messages"@)) {
        (Some(model), Some(JsonView::Array(ms))) => match messages_of(ms) {
            Some(m) => Some(ConversationView { model, messages: m }),
            None => None,
        },
        _ => None,
    }
}

proof fn lemma_keys_differ()
    ensures
        "role"@ != "content"@,
        "role"@ != "tool_calls"@,
        "role"@ != "tool_call_id"@,
        "content"@ != "tool_calls"@,
        "content"@ != "tool_call_id"@,
        "tool_call_id"@ != "tool_calls"@,
        "type"@ != "text"@,
        "type"@ != "image_url"@,
        "text"@ != "image_url"@,
        "url"@ != "detail"@,
        "id"@ != "type"@,
        "id"@ != "function"@,
        "type"@ != "function"@,
        "name"@ != "arguments"@,
        "model"@ != "messages"@,
        "system"@ != "user"@,
        "system"@ != "assistant"@,
        "system"@ != "tool"@,
        "user"@ != "assistant"@,
        "user"@ != "tool"@,
        "assistant"@ != "tool"@,
{
    reveal_strlit("role");
    reveal_strlit("content");
    reveal_strlit("tool_calls");
    reveal_strlit("tool_call_id");
    reveal_strlit("type");
    reveal_strlit("text");
    reveal_strlit("image_url");
    reveal_strlit("url");
    reveal_strlit("detail");
    reveal_strlit("id");
    reveal_strlit("function");
    reveal_strlit("name");
    reveal_strlit("arguments");
    reveal_strlit("model");
    reveal_strlit("messages");
    reveal_strlit("system");
    reveal_strlit("user");
    reveal_strlit("assistant");
    reveal_strlit("tool");
    assert("role"@[0] != "content"@[0]);
    assert("role"@.len() != "tool_calls"@.len());
    assert("role"@.len() != "tool_call_id"@.len());
    assert("content"@.len() != "tool_calls"@.len());
    assert("content"@.len() != "tool_call_id"@.len());
    assert("tool_call_id"@.len() != "tool_calls"@.len());
    assert("type"@[0] != "text"@[1]);
    assert("type"@.len() != "image_url"@.len());
    assert("text"@.len() != "image_url"@.len());
    assert("url"@.len() != "detail"@.len());
    assert("id"@.len() != "type"@.len());
    assert("id"@.len() != "function"@.len());
    assert("type"@.len() != "function"@.len());
    assert("name"@.len() != "arguments"@.len());
    assert("model"@.len() != "messages"@.len());
    assert("system"@.len() != "user"@.len());
    assert("system"@.len() != "assistant"@.len());
    assert("system"@.len() != "tool"@.len());
    assert("user"@.len() != "assistant"@.len());
    assert("user"@[0] != "tool"@[0]);
    assert("assistant"@.len() != "tool"@.len());
}

proof fn lemma_part_round_trip(p: PartView)
    ensures
        part_of(openai_part_json(p)) == Some(p),
{
    lemma_keys_differ();
    reveal_with_fuel(lookup, 3);
}

proof fn lemma_parts_round_trip(ps: Seq<PartView>)
    ensures
        parts_of(ps.map_values(|p: PartView| openai_part_json(p))) == Some(ps),
    decreases ps.len(),
{
    if ps.len() > 0 {
        let js = ps.map_values(|p: PartView| openai_part_json(p));
        lemma_parts_round_trip(ps.drop_last());
        assert(js.drop_last() =~= ps.drop_last().map_values(|p: PartView| openai_part_json(p)));
        lemma_part_round_trip(ps.last());
        assert(ps.drop_last().push(ps.last()) == ps);
    } else {
        assert(ps.map_values(|p: PartView| openai_part_json(p)) =~= Seq::<JsonView>::empty());
        assert(ps =~= Seq::<PartView>::empty());
    }
}

proof fn lemma_call_round_trip(c: CallView)
    ensures
        call_of(openai_call_json(c)) == Some(c),
{
    lemma_keys_differ();
    reveal_with_fuel(lookup, 4);
}

proof fn lemma_calls_round_trip(cs: Seq<CallView>)
    ensures
        calls_of_json(cs.map_values(|c: CallView| openai_call_json(c))) == Some(cs),
    decreases cs.len(),
{
    if cs.len() > 0 {
        let js = cs.map_values(|c: CallView| openai_call_json(c));
        lemma_calls_round_trip(cs.drop_last());
        assert(js.drop_last() =~= cs.drop_last().map_values(|c: CallView| openai_call_json(c)));
        lemma_call_round_trip(cs.last());
        assert(cs.drop_last().push(cs.last()) == cs);
    } else {
        assert(cs.map_values(|c: CallView| openai_call_json(c)) =~= Seq::<JsonView>::empty());
        assert(cs =~= Seq::<CallView>::empty());
    }
}

proof fn lemma_message_round_trip(m: MessageView)
    ensures
        message_of(openai_message_json(m)) == Some(m),
{
    lemma_keys_differ();
    reveal_with_fuel(lookup, 4);
    assert(role_of(role_name(m.role)) == Some(m.role));
    match m.content {
        ContentView::Parts(ps) => lemma_parts_round_trip(ps),
        ContentView::ToolCalls(cs) => lemma_calls_round_trip(cs),
        _ => {},
    }
}

proof fn lemma_messages_round_trip(ms: Seq<MessageView>)
    ensures
        messages_of(ms.map_values(|m: MessageView| openai_message_json(m))) == Some(ms),
    decreases ms.len(),
{
    if ms.len() > 0 {
        let js = ms.map_values(|m: MessageView| openai_message_json(m));
        lemma_messages_round_trip(ms.drop_last());
        assert(js.drop_last() =~= ms.drop_last().map_values(|m: MessageView| openai_message_json(m)));
        lemma_message_round_trip(ms.last());
        assert(ms.drop_last().push(ms.last()) == ms);
    } else {
        assert(ms.map_values(|m: MessageView| openai_message_json(m)) =~= Seq::<JsonView>::empty());
        assert(ms =~= Seq::<MessageView>::empty());
    }
}

/// Saving a conversation and reading the saved value back gives the same conversation:
/// the same model, and the same messages with equal roles and contents, in order.
pub proof fn lemma_transcript_round_trip(s: ConversationView)
    ensures
        conversation_of(conversation_json(s)) == Some(s),
{
    lemma_keys_differ();
    reveal_with_fuel(lookup, 3);
    lemma_messages_round_trip(s.messages);
}

proof fn lemma_parts_prefix_none(items: Seq<JsonView>, k: int)
    requires
        0 <= k <= items.len(),
        parts_of(items.subrange(0, k)) is None,
    ensures
        parts_of(items) is None,
    decreases items.len() - k,
{
    if k < items.len() {
        assert(items.subrange(0, k + 1).drop_last() == items.subrange(0, k));
        lemma_parts_prefix_none(items, k + 1);
    } else {
        assert(items.subrange(0, k) == items);
    }
}

proof fn lemma_calls_prefix_none(items: Seq<JsonView>, k: int)
    requires
        0 <= k <= items.len(),
        calls_of_json(items.subrange(0, k)) is None,
    ensures
        calls_of_json(items) is None,
    decreases items.len() - k,
{
    if k < items.len() {
        assert(items.subrange(0, k + 1).drop_last() == items.subrange(0, k));
        lemma_calls_prefix_none(items, k + 1);
    } else {
        assert(items.subrange(0, k) == items);
    }
}

proof fn lemma_messages_prefix_none(items: Seq<JsonView>, k: int)
    requires
        0 <= k <= items.len(),
        messages_of(items.subrange(0, k)) is None,
    ensures
        messages_of(items) is None,
    decreases items.len() - k,
{
    if k < items.len() {
        assert(items.subrange(0, k + 1).drop_last() == items.subrange(0, k));
        lemma_messages_prefix_none(items, k + 1);
    } else {
        assert(items.subrange(0, k) == items);
    }
}

/// The member `key` of a value, with what its view says of it.
fn member_of<'a>(j: &'a Json, key: &str) -> (r: Option<&'a Json>)
    ensures
        match r {
            Some(v) => jfield(j@, key@) == Some(v@),
            None => jfield(j@, key@) is None,
        },
{
    proof { lemma_field_view(*j, key@); }
    j.get(key)
}

fn text_of<'a>(j: &'a Json, key: &str) -> (r: Option<&'a str>)
    ensures
        match r {
            Some(s) => str_of(jfield(j@, key@)) == Some(s@),
            None => str_of(jfield(j@, key@)) is None,
        },
{
    match member_of(j, key) {
        Some(v) => v.as_str(),
        None => None,
    }
}

fn role_from(s: &str) -> (r: Option<Role>)
    ensures
        r == role_of(s@),
{
    if text_eq(s, "system") {
        Some(Role::System)
    } else if text_eq(s, "user") {
        Some(Role::User)
    } else if text_eq(s, "assistant") {
        Some(Role::Assistant)
    } else if text_eq(s, "tool") {
        Some(Role::Tool)
    } else {
        None
    }
}

fn part_from(j: &Json) -> (r: Option<Part>)
    ensures
        match r {
            Some(p) => part_of(j@) == Some(p@),
            None => part_of(j@) is None,
        },
{
    let t = match text_of(j, "type") {
        Some(t) => t,
        None => return None,
    };
    if text_eq(t, "text") {
        match text_of(j, "text") {
            Some(x) => Some(Part::Text(x.to_owned())),
            None => None,
        }
    } else if text_eq(t, "image_url") {
        match member_of(j, "image_url") {
            Some(iu) => match (text_of(iu, "url"), text_of(iu, "detail")) {
                (Some(u), Some(d)) => Some(Part::Image { url: u.to_owned(), detail: d.to_owned() }),
                _ => None,
            },
            None => None,
        }
    } else {
        None
    }
}

fn parts_from(a: &Vec<Json>) -> (r: Option<Vec<Part>>)
    ensures
        match r {
            Some(ps) => parts_of(item_views(a@)) == Some(part_views(ps@)),
            None => parts_of(item_views(a@)) is None,
        },
{
    let ghost items = item_views(a@);
    let mut out: Vec<Part> = Vec::new();
    let mut i: usize = 0;
    assert(items.subrange(0, 0) =~= Seq::<JsonView>::empty());
    assert(part_views(out@) =~= Seq::<PartView>::empty());
    while i < a.len()
        invariant
            i <= a@.len(),
            items == item_views(a@),
            parts_of(items.subrange(0, i as int)) == Some(part_views(out@)),
        decreases a@.len() - i,
    {
        assert(items.subrange(0, i + 1).drop_last() == items.subrange(0, i as int));
        assert(items.subrange(0, i + 1).last() == a@[i as int]@);
        match part_from(&a[i]) {
            Some(p) => {
                let ghost pre = out@;
                let ghost pv = p@;
                out.push(p);
                assert(part_views(out@) =~= part_views(pre).push(pv));
            },
            None => {
                proof { lemma_parts_prefix_none(items, i + 1); }
                return None;
            },
        }
        i = i + 1;
    }
    assert(items.subrange(0, a@.len() as int) == items);
    Some(out)
}

fn call_from(j: &Json) -> (r: Option<ToolCallRequest>)
    ensures
        match r {
            Some(c) => call_of(j@) == Some(c@),
            None => call_of(j@) is None,
        },
{
    match member_of(j, "function") {
        Some(f) => match (text_of(j, "id"), text_of(f, "name"), text_of(f, "arguments")) {
            (Some(id), Some(name), Some(arguments)) => Some(ToolCallRequest {
                id: id.to_owned(),
                name: name.to_owned(),
                arguments: arguments.to_owned(),
            }),
            _ => None,
        },
        None => None,
    }
}

fn calls_from(a: &Vec<Json>) -> (r: Option<Vec<ToolCallRequest>>)
    ensures
        match r {
            Some(cs) => calls_of_json(item_views(a@)) == Some(views_of(cs@)),
            None => calls_of_json(item_views(a@)) is None,
        },
{
    let ghost items = item_views(a@);
    let mut out: Vec<ToolCallRequest> = Vec::new();
    let mut i: usize = 0;
    assert(items.subrange(0, 0) =~= Seq::<JsonView>::empty());
    assert(views_of(out@) =~= Seq::<CallView>::empty());
    while i < a.len()
        invariant
            i <= a@.len(),
            items == item_views(a@),
            calls_of_json(items.subrange(0, i as int)) == Some(views_of(out@)),
        decreases a@.len() - i,
    {
        assert(items.subrange(0, i + 1).drop_last() == items.subrange(0, i as int));
        assert(items.subrange(0, i + 1).last() == a@[i as int]@);
        match call_from(&a[i]) {
            Some(c) => {
                let ghost pre = out@;
                let ghost cv = c@;
                out.push(c);
                assert(views_of(out@) =~= views_of(pre).push(cv));
            },
            None => {
                proof { lemma_calls_prefix_none(items, i + 1); }
                return None;
            },
        }
        i = i + 1;
    }
    assert(items.subrange(0, a@.len() as int) == items);
    Some(out)
}

fn content_from(j: &Json) -> (r: Option<Content>)
    ensures
        match r {
            Some(c) => content_of(j@) == Some(c@),
            None => content_of(j@) is None,
        },
{
    if let Some(Json::Array(cs)) = member_of(j, "tool_calls") {
        proof { lemma_array_view(*cs); }
        return match calls_from(cs) {
            Some(c) => Some(Content::ToolCalls(c)),
            None => None,
        };
    }
    match text_of(j, "tool_call_id") {
        Some(id) => match text_of(j, "content") {
            Some(t) => Some(Content::ToolResult { call_id: id.to_owned(), text: t.to_owned() }),
            None => None,
        },
        None => match member_of(j, "content") {
            Some(Json::Str(t)) => Some(Content::Text(t.clone())),
            Some(Json::Array(ps)) => {
                proof { lemma_array_view(*ps); }
                match parts_from(ps) {
                    Some(p) => Some(Content::Parts(p)),
                    None => None,
                }
            },
            _ => None,
        },
    }
}

fn message_from(j: &Json) -> (r: Option<Message>)
    ensures
        match r {
            Some(m) => message_of(j@) == Some(m@),
            None => message_of(j@) is None,
        },
{
    match (text_of(j, "role"), content_from(j)) {
        (Some(r), Some(content)) => match role_from(r) {
            Some(role) => Some(Message { role, content }),
            None => None,
        },
        _ => None,
    }
}

fn messages_from(a: &Vec<Json>) -> (r: Option<Vec<Message>>)
    ensures
        match r {
            Some(ms) => messages_of(item_views(a@)) == Some(message_views(ms@)),
            None => messages_of(item_views(a@)) is None,
        },
{
    let ghost items = item_views(a@);
    let mut out: Vec<Message> = Vec::new();
    let mut i: usize = 0;
    assert(items.subrange(0, 0) =~= Seq::<JsonView>::empty());
    assert(message_views(out@) =~= Seq::<MessageView>::empty());
    while i < a.len()
        invariant
            i <= a@.len(),
            items == item_views(a@),
            messages_of(items.subrange(0, i as int)) == Some(message_views(out@)),
        decreases a@.len() - i,
    {
        assert(items.subrange(0, i + 1).drop_last() == items.subrange(0, i as int));
        assert(items.subrange(0, i + 1).last() == a@[i as int]@);
        match message_from(&a[i]) {
            Some(m) => {
                let ghost pre = out@;
                let ghost mv = m@;
                out.push(m);
                assert(message_views(out@) =~= message_views(pre).push(mv));
            },
            None => {
                proof { lemma_messages_prefix_none(items, i + 1); }
                return None;
            },
        }
        i = i + 1;
    }
    assert(items.subrange(0, a@.len() as int) == items);
    Some(out)
}

impl ConversationState {
    /// The saved form of the conversation.
    pub fn to_json(&self) -> (r: Json)
        ensures
            r@ == conversation_json(self@),
    {
        let mut m: Vec<(String, Json)> = Vec::new();
        m.push(entry("model", text_value(self.model.as_str())));
        m.push(entry("messages", openai_messages(self)));
        assert(member_views(m@) =~= conversation_json(self@)->Object_0);
        object(m)
    }

    /// The conversation a saved value holds; `None` when the value is not one.
    pub fn from_json(j: &Json) -> (r: Option<ConversationState>)
        ensures
            match r {
                Some(s) => conversation_of(j@) == Some(s@),
                None => conversation_of(j@) is None,
            },
    {
        match (text_of(j, "model"), member_of(j, "messages")) {
            (Some(model), Some(Json::Array(ms))) => {
                proof { lemma_array_view(*ms); }
                match messages_from(ms) {
                    Some(messages) => Some(ConversationState { model: model.to_owned(), messages }),
                    None => None,
                }
            },
            _ => None,
        }
    }
}

} // verus!
