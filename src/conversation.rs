//! The conversation log: messages, their content, and the copy that is written to disk.
use vstd::prelude::*;
use crate::accumulator::{views_of, CallView, ToolCallRequest};
use crate::spill::SPILL_THRESHOLD;
use crate::text::{append_str, byte_len, byte_prefix, contains, exceeds, fit_prefix, has_infix, string_of, text_eq};

verus! {

#[derive(PartialEq, Eq, Structural, Clone, Copy, Debug)]
pub enum Role {
    System,
    User,
    Assistant,
    Tool,
}

/// One piece of a multi-part message.
pub enum Part {
    Text(String),
    /// An image given as a URL, usually `data:<mime>;base64,<data>`, with the detail level
    /// asked of the model.
    Image { url: String, detail: String },
}

pub ghost enum PartView {
    Text(Seq<char>),
    Image { url: Seq<char>, detail: Seq<char> },
}

impl View for Part {
    type V = PartView;

    open spec fn view(&self) -> PartView {
        match self {
            Part::Text(t) => PartView::Text(t@),
            Part::Image { url, detail } => PartView::Image { url: url@, detail: detail@ },
        }
    }
}

/// What a message carries: exactly one of these.
pub enum Content {
    Text(String),
    Parts(Vec<Part>),
    ToolCalls(Vec<ToolCallRequest>),
    ToolResult { call_id: String, text: String },
}

pub ghost enum ContentView {
    Text(Seq<char>),
    Parts(Seq<PartView>),
    ToolCalls(Seq<CallView>),
    ToolResult { call_id: Seq<char>, text: Seq<char> },
}

pub open spec fn part_views(v: Seq<Part>) -> Seq<PartView> {
    v.map_values(|p: Part| p@)
}

impl View for Content {
    type V = ContentView;

    open spec fn view(&self) -> ContentView {
        match self {
            Content::Text(t) => ContentView::Text(t@),
            Content::Parts(ps) => ContentView::Parts(part_views(ps@)),
            Content::ToolCalls(cs) => ContentView::ToolCalls(views_of(cs@)),
            Content::ToolResult { call_id, text } => ContentView::ToolResult { call_id: call_id@, text: text@ },
        }
    }
}

pub struct Message {
    pub role: Role,
    pub content: Content,
}

pub ghost struct MessageView {
    pub role: Role,
    pub content: ContentView,
}

impl View for Message {
    type V = MessageView;

    open spec fn view(&self) -> MessageView {
        MessageView { role: self.role, content: self.content@ }
    }
}

pub open spec fn message_views(v: Seq<Message>) -> Seq<MessageView> {
    v.map_values(|m: Message| m@)
}

/// The model in use and the ordered message log.
pub struct ConversationState {
    pub model: String,
    pub messages: Vec<Message>,
}

pub ghost struct ConversationView {
    pub model: Seq<char>,
    pub messages: Seq<MessageView>,
}

impl View for ConversationState {
    type V = ConversationView;

    open spec fn view(&self) -> ConversationView {
        ConversationView { model: self.model@, messages: message_views(self.messages@) }
    }
}

impl ToolCallRequest {
    pub fn duplicate(&self) -> (r: ToolCallRequest)
        ensures
            r@ == self@,
    {
        ToolCallRequest { id: self.id.clone(), name: self.name.clone(), arguments: self.arguments.clone() }
    }
}

impl Part {
    pub fn duplicate(&self) -> (r: Part)
        ensures
            r@ == self@,
    {
        match self {
            Part::Text(t) => Part::Text(t.clone()),
            Part::Image { url, detail } => Part::Image { url: url.clone(), detail: detail.clone() },
        }
    }
}

impl Content {
    pub fn duplicate(&self) -> (r: Content)
        ensures
            r@ == self@,
    {
        match self {
            Content::Text(t) => Content::Text(t.clone()),
            Content::Parts(ps) => {
                let mut out: Vec<Part> = Vec::new();
                let mut i: usize = 0;
                while i < ps.len()
                    invariant
                        i <= ps@.len(),
                        out@.len() == i,
                        part_views(out@) == part_views(ps@.subrange(0, i as int)),
                    decreases ps@.len() - i,
                {
                    let ghost o0 = out@;
                    let x = ps[i].duplicate();
                    out.push(x);
                    i = i + 1;
                    assert forall|j: int| 0 <= j < i implies #[trigger] part_views(out@)[j]
                        == part_views(ps@.subrange(0, i as int))[j] by {
                        if j < i - 1 {
                            assert(part_views(o0)[j] == part_views(ps@.subrange(0, i - 1))[j]);
                        }
                    }
                    assert(part_views(out@) =~= part_views(ps@.subrange(0, i as int)));
                }
                assert(ps@.subrange(0, ps@.len() as int) == ps@);
                Content::Parts(out)
            },
            Content::ToolCalls(cs) => {
                let mut out: Vec<ToolCallRequest> = Vec::new();
                let mut i: usize = 0;
                while i < cs.len()
                    invariant
                        i <= cs@.len(),
                        out@.len() == i,
                        views_of(out@) == views_of(cs@.subrange(0, i as int)),
                    decreases cs@.len() - i,
                {
                    let ghost o0 = out@;
                    let x = cs[i].duplicate();
                    out.push(x);
                    i = i + 1;
                    assert forall|j: int| 0 <= j < i implies #[trigger] views_of(out@)[j]
                        == views_of(cs@.subrange(0, i as int))[j] by {
                        if j < i - 1 {
                            assert(views_of(o0)[j] == views_of(cs@.subrange(0, i - 1))[j]);
                        }
                    }
                    assert(views_of(out@) =~= views_of(cs@.subrange(0, i as int)));
                }
                assert(cs@.subrange(0, cs@.len() as int) == cs@);
                Content::ToolCalls(out)
            },
            Content::ToolResult { call_id, text } => Content::ToolResult { call_id: call_id.clone(), text: text.clone() },
        }
    }
}

impl Message {
    pub fn duplicate(&self) -> (r: Message)
        ensures
            r@ == self@,
    {
        Message { role: self.role, content: self.content.duplicate() }
    }
}


/// A message whose text takes more than the size threshold.
pub open spec fn oversized(m: MessageView) -> bool {
    match m.content {
        ContentView::Text(t) => byte_len(t) > SPILL_THRESHOLD,
        ContentView::ToolResult { text, .. } => byte_len(text) > SPILL_THRESHOLD,
        _ => false,
    }
}

/// A text cut to the size threshold and marked.
pub open spec fn shortened(t: Seq<char>) -> Seq<char> {
    fit_prefix(t, SPILL_THRESHOLD as nat) + " [truncated]"@
}

/// A message as the transcript keeps it when truncation is chosen.
pub open spec fn truncated_message(m: MessageView) -> MessageView {
    if oversized(m) {
        match m.content {
            ContentView::Text(t) => MessageView { content: ContentView::Text(shortened(t)), ..m },
            ContentView::ToolResult { call_id, text } => MessageView {
                content: ContentView::ToolResult { call_id, text: shortened(text) },
                ..m
            },
            _ => m,
        }
    } else {
        m
    }
}

/// Whether one of the two latest messages is too large for the transcript.
pub open spec fn latest_oversized(s: ConversationView) -> bool {
    let n = s.messages.len();
    n >= 2 && (oversized(s.messages[n - 2]) || oversized(s.messages[n - 1]))
}

/// The conversation as written to disk: when `truncate` is chosen, the two latest
/// messages are cut to the size threshold; every other message is kept as it is.
pub open spec fn transcript_view(s: ConversationView, truncate: bool) -> ConversationView {
    let n = s.messages.len();
    ConversationView {
        model: s.model,
        messages: Seq::new(
            n,
            |i: int| if truncate && n >= 2 && i >= n - 2 { truncated_message(s.messages[i]) } else { s.messages[i] },
        ),
    }
}

fn shorten(t: &str) -> (r: String)
    ensures
        r@ == shortened(t@),
{
    let mut cs = byte_prefix(t, SPILL_THRESHOLD);
    append_str(&mut cs, " [truncated]");
    string_of(&cs)
}

impl Message {
    /// Whether the message's text takes more than the size threshold.
    pub fn is_oversized(&self) -> (r: bool)
        ensures
            r == oversized(self@),
    {
        match &self.content {
            Content::Text(t) => exceeds(t.as_str(), SPILL_THRESHOLD),
            Content::ToolResult { call_id: _, text } => exceeds(text.as_str(), SPILL_THRESHOLD),
            _ => false,
        }
    }

    fn truncated(&self) -> (r: Message)
        ensures
            r@ == truncated_message(self@),
    {
        if self.is_oversized() {
            match &self.content {
                Content::Text(t) => Message { role: self.role, content: Content::Text(shorten(t.as_str())) },
                Content::ToolResult { call_id, text } => Message {
                    role: self.role,
                    content: Content::ToolResult { call_id: call_id.clone(), text: shorten(text.as_str()) },
                },
                _ => self.duplicate(),
            }
        } else {
            self.duplicate()
        }
    }
}

impl ConversationState {
    /// Whether one of the two latest messages is too large for the transcript, so that
    /// the user is asked whether to truncate it there.
    pub fn needs_transcript_truncation(&self) -> (r: bool)
        ensures
            r == latest_oversized(self@),
    {
        let n = self.messages.len();
        n >= 2 && (self.messages[n - 2].is_oversized() || self.messages[n - 1].is_oversized())
    }

    /// The copy of the conversation to write to disk; the live conversation is only read.
    pub fn transcript_copy(&self, truncate: bool) -> (r: ConversationState)
        ensures
            r@ == transcript_view(self@, truncate),
    {
        let n = self.messages.len();
        let ghost target = transcript_view(self@, truncate);
        let mut out: Vec<Message> = Vec::new();
        let mut i: usize = 0;
        while i < n
            invariant
                n == self.messages@.len(),
                target == transcript_view(self@, truncate),
                i <= n,
                out@.len() == i,
                forall|j: int| 0 <= j < i ==> #[trigger] out@[j]@ == target.messages[j],
            decreases n - i,
        {
            let m = if truncate && n >= 2 && i >= n - 2 {
                self.messages[i].truncated()
            } else {
                self.messages[i].duplicate()
            };
            out.push(m);
            i = i + 1;
        }
        let r = ConversationState { model: self.model.clone(), messages: out };
        assert(r@.messages =~= target.messages);
        r
    }
}

/// Truncating the written transcript leaves every message but the two latest exactly as
/// the live conversation holds it, and keeps the model and the number of messages.
pub proof fn lemma_transcript_keeps_history(s: ConversationView, truncate: bool, i: int)
    requires
        0 <= i < s.messages.len() - 2,
    ensures
        transcript_view(s, truncate).messages[i] == s.messages[i],
        transcript_view(s, truncate).messages.len() == s.messages.len(),
        transcript_view(s, truncate).model == s.model,
{
}

/// The role the startup message takes: models that refuse a system message get it as
/// the user's.
pub open spec fn startup_role_of(model: Seq<char>) -> Role {
    if has_infix(model, "gemini-"@) || has_infix(model, "o1-"@) || has_infix(model, "o3-"@) {
        Role::User
    } else {
        Role::System
    }
}

pub fn startup_role(model: &str) -> (r: Role)
    ensures
        r == startup_role_of(model@),
{
    if contains(model, "gemini-") || contains(model, "o1-") || contains(model, "o3-") {
        Role::User
    } else {
        Role::System
    }
}

/// A message that opens a copied conversation and is dropped when the current one
/// already has its own opening: a system message, or the startup text itself.
pub open spec fn is_opening(m: MessageView, startup: Seq<char>) -> bool {
    m.role == Role::System || m.content == ContentView::Text(startup)
}

/// The messages of a copied conversation that join the current one: all of them into
/// an empty conversation, else all after its leading opening messages.
pub open spec fn copied_messages(ms: Seq<MessageView>, current_empty: bool, startup: Seq<char>) -> Seq<MessageView>
    decreases ms.len(),
{
    if ms.len() > 0 && !current_empty && is_opening(ms[0], startup) {
        copied_messages(ms.drop_first(), current_empty, startup)
    } else {
        ms
    }
}

pub open spec fn mismatch_text(current: Seq<char>, selected: Seq<char>) -> Seq<char> {
    "Cannot copy conversation: Model mismatch (current: "@ + current + ", selected: "@ + selected + ")."@
}

impl ConversationState {
    /// Appends the messages of another conversation of the same model; a conversation
    /// of another model is refused and nothing changes.
    pub fn copy_from(&mut self, other: ConversationState, startup: &str) -> (r: Result<(), String>)
        ensures
            old(self).model@ == other.model@ ==> r is Ok && final(self)@ == (ConversationView {
                model: old(self)@.model,
                messages: old(self)@.messages + copied_messages(other@.messages, old(self)@.messages.len() == 0, startup@),
            }),
            old(self).model@ != other.model@ ==> final(self)@ == old(self)@ && (r matches Err(e)
                && e@ == mismatch_text(old(self).model@, other.model@)),
    {
        if !text_eq(self.model.as_str(), other.model.as_str()) {
            let mut cs: Vec<char> = Vec::new();
            append_str(&mut cs, "Cannot copy conversation: Model mismatch (current: ");
            append_str(&mut cs, self.model.as_str());
            append_str(&mut cs, ", selected: ");
            append_str(&mut cs, other.model.as_str());
            append_str(&mut cs, ").");
            return Err(string_of(&cs));
        }
        let current_empty = self.messages.len() == 0;
        let ghost ov = other@.messages;
        let ConversationState { model: _, messages } = other;
        let mut i: usize = 0;
        assert(ov.subrange(0, ov.len() as int) == ov);
        while i < messages.len() && !current_empty && opening(&messages[i], startup)
            invariant
                i <= messages@.len(),
                ov == message_views(messages@),
                copied_messages(ov, current_empty, startup@)
                    == copied_messages(ov.subrange(i as int, ov.len() as int), current_empty, startup@),
            decreases messages@.len() - i,
        {
            let ghost rest = ov.subrange(i as int, ov.len() as int);
            assert(rest.drop_first() == ov.subrange(i + 1, ov.len() as int));
            i = i + 1;
        }
        let ghost kept = ov.subrange(i as int, ov.len() as int);
        assert(copied_messages(kept, current_empty, startup@) == kept);
        let ghost before = self@.messages;
        let mut j: usize = i;
        while j < messages.len()
            invariant
                i <= j <= messages@.len(),
                ov == message_views(messages@),
                self@.model == old(self)@.model,
                self@.messages == before + ov.subrange(i as int, j as int),
            decreases messages@.len() - j,
        {
            let m = messages[j].duplicate();
            let ghost pre = self.messages@;
            assert(ov[j as int] == m@);
            self.messages.push(m);
            assert(self.messages@ == pre.push(m));
            assert(message_views(pre.push(m)) =~= message_views(pre).push(m@));
            assert(ov.subrange(i as int, j + 1) == ov.subrange(i as int, j as int).push(m@));
            j = j + 1;
            assert(self@.messages =~= before + ov.subrange(i as int, j as int));
        }
        assert(ov.subrange(0, ov.len() as int) == ov);
        Ok(())
    }
}

fn opening(m: &Message, startup: &str) -> (r: bool)
    ensures
        r == is_opening(m@, startup@),
{
    match &m.content {
        Content::Text(t) => m.role == Role::System || text_eq(t.as_str(), startup),
        _ => m.role == Role::System,
    }
}

} // verus!
