//! Plain-text renderings of conversations: the history view and the one-line labels of
//! saved transcripts.
use vstd::prelude::*;
use crate::accumulator::{views_of, CallView};
use crate::conversation::{Content, ContentView, ConversationState, ConversationView, MessageView, Part, PartView};
use crate::recursive::{body_of, line_body};
use crate::request::{before, role_name, role_text};
use crate::text::{append_chars, append_str, chars_of, find_char, slice_chars, string_of};

verus! {

/// A horizontal rule of `n` copies of `c`.
pub open spec fn rule(c: char, n: nat) -> Seq<char> {
    Seq::new(n, |i: int| c)
}

/// At most the first `n` characters.
pub open spec fn head(s: Seq<char>, n: nat) -> Seq<char> {
    if s.len() <= n { s } else { s.subrange(0, n as int) }
}

pub open spec fn part_history(p: PartView) -> Seq<char> {
    match p {
        PartView::Text(t) => t + "\n"@,
        PartView::Image { url, .. } => "[Image content - not displayed in text history]\n"@
            + "[Image URL (truncated): "@ + head(url, 70) + "...]\n"@,
    }
}

pub open spec fn parts_history(ps: Seq<PartView>) -> Seq<char>
    decreases ps.len(),
{
    if ps.len() == 0 { Seq::empty() } else { parts_history(ps.drop_last()) + part_history(ps.last()) }
}

pub open spec fn call_history(c: CallView) -> Seq<char> {
    "[tool call "@ + c.id + "] "@ + c.name + " "@ + c.arguments + "\n"@
}

pub open spec fn calls_history(cs: Seq<CallView>) -> Seq<char>
    decreases cs.len(),
{
    if cs.len() == 0 { Seq::empty() } else { calls_history(cs.drop_last()) + call_history(cs.last()) }
}

pub open spec fn content_history(c: ContentView) -> Seq<char> {
    match c {
        ContentView::Text(t) => t,
        ContentView::Parts(ps) => parts_history(ps),
        ContentView::ToolCalls(cs) => calls_history(cs),
        ContentView::ToolResult { call_id, text } => "[tool result "@ + call_id + "]\n"@ + text,
    }
}

/// One message framed by rules `columns` wide and headed by its role.
pub open spec fn message_history(m: MessageView, columns: nat) -> Seq<char> {
    "\n\n"@ + rule('\u{2583}', columns) + "\u{258d}"@ + role_name(m.role) + " \u{2590}\n"@
        + rule('\u{2580}', columns) + "\n"@ + content_history(m.content)
}

pub open spec fn history_of(ms: Seq<MessageView>, columns: nat) -> Seq<char>
    decreases ms.len(),
{
    if ms.len() == 0 { Seq::empty() } else { history_of(ms.drop_last(), columns) + message_history(ms.last(), columns) }
}

fn push_rule(out: &mut Vec<char>, c: char, n: usize)
    ensures
        final(out)@ == old(out)@ + rule(c, n as nat),
{
    let mut i: usize = 0;
    while i < n
        invariant
            i <= n,
            out@ == old(out)@ + rule(c, i as nat),
        decreases n - i,
    {
        out.push(c);
        i = i + 1;
        assert(out@ =~= old(out)@ + rule(c, i as nat));
    }
}

fn push_head(out: &mut Vec<char>, s: &str, n: usize)
    ensures
        final(out)@ == old(out)@ + head(s@, n as nat),
{
    let cs = chars_of(s);
    let k = if cs.len() <= n { cs.len() } else { n };
    let h = slice_chars(&cs, 0, k);
    assert(cs@.subrange(0, cs@.len() as int) == cs@);
    append_chars(out, &h);
}

fn push_content(out: &mut Vec<char>, c: &Content)
    ensures
        final(out)@ == old(out)@ + content_history(c@),
{
    match c {
        Content::Text(t) => append_str(out, t.as_str()),
        Content::Parts(ps) => {
            let ghost pv = c@->Parts_0;
            let mut i: usize = 0;
            while i < ps.len()
                invariant
                    i <= ps@.len(),
                    pv == crate::conversation::part_views(ps@),
                    out@ == old(out)@ + parts_history(pv.subrange(0, i as int)),
                decreases ps@.len() - i,
            {
                let ghost o = out@;
                match &ps[i] {
                    Part::Text(t) => {
                        append_str(out, t.as_str());
                        append_str(out, "\n");
                    },
                    Part::Image { url, detail: _ } => {
                        append_str(out, "[Image content - not displayed in text history]\n");
                        append_str(out, "[Image URL (truncated): ");
                        push_head(out, url.as_str(), 70);
                        append_str(out, "...]\n");
                    },
                }
                assert(out@ =~= o + part_history(pv[i as int]));
                assert(pv.subrange(0, i + 1).drop_last() == pv.subrange(0, i as int));
                i = i + 1;
            }
            assert(pv.subrange(0, pv.len() as int) == pv);
        },
        Content::ToolCalls(cs) => {
            let ghost cv = c@->ToolCalls_0;
            let mut i: usize = 0;
            while i < cs.len()
                invariant
                    i <= cs@.len(),
                    cv == views_of(cs@),
                    out@ == old(out)@ + calls_history(cv.subrange(0, i as int)),
                decreases cs@.len() - i,
            {
                let ghost o = out@;
                append_str(out, "[tool call ");
                append_str(out, cs[i].id.as_str());
                append_str(out, "] ");
                append_str(out, cs[i].name.as_str());
                append_str(out, " ");
                append_str(out, cs[i].arguments.as_str());
                append_str(out, "\n");
                assert(out@ =~= o + call_history(cv[i as int]));
                assert(cv.subrange(0, i + 1).drop_last() == cv.subrange(0, i as int));
                i = i + 1;
            }
            assert(cv.subrange(0, cv.len() as int) == cv);
        },
        Content::ToolResult { call_id, text } => {
            let ghost o = out@;
            append_str(out, "[tool result ");
            append_str(out, call_id.as_str());
            append_str(out, "]\n");
            append_str(out, text.as_str());
            assert(out@ =~= o + content_history(c@));
        },
    }
}

/// The whole conversation as text, each message under a header `columns` wide.
pub fn history_text(state: &ConversationState, columns: usize) -> (r: String)
    ensures
        r@ == history_of(state@.messages, columns as nat),
{
    let mut out: Vec<char> = Vec::new();
    let ghost mv = state@.messages;
    let mut i: usize = 0;
    while i < state.messages.len()
        invariant
            i <= state.messages@.len(),
            mv == state@.messages,
            out@ == history_of(mv.subrange(0, i as int), columns as nat),
        decreases state.messages@.len() - i,
    {
        let ghost o = out@;
        let m = &state.messages[i];
        append_str(&mut out, "\n\n");
        push_rule(&mut out, '\u{2583}', columns);
        append_str(&mut out, "\u{258d}");
        append_str(&mut out, role_text(m.role));
        append_str(&mut out, " \u{2590}\n");
        push_rule(&mut out, '\u{2580}', columns);
        append_str(&mut out, "\n");
        push_content(&mut out, &m.content);
        assert(out@ =~= o + message_history(mv[i as int], columns as nat));
        assert(mv.subrange(0, i + 1).drop_last() == mv.subrange(0, i as int));
        i = i + 1;
    }
    assert(mv.subrange(0, mv.len() as int) == mv);
    string_of(&out)
}

/// The one-line summary of a saved conversation: the first line of its second message,
/// at most 64 characters; `None` stands for a file that could not be read as one.
pub open spec fn summary_of(state: Option<ConversationView>) -> Seq<char> {
    match state {
        None => "[Error reading transcript content]"@,
        Some(s) => {
            let t = if s.messages.len() > 1 && s.messages[1].content is Text {
                s.messages[1].content->Text_0
            } else {
                "[Could not parse message content or not a string]"@
            };
            let first = if t.len() == 0 { "[Empty first line]"@ } else { line_body(before(t, '\n')) };
            head(first, 64)
        },
    }
}

pub open spec fn option_view(state: Option<&ConversationState>) -> Option<ConversationView> {
    match state {
        Some(s) => Some(s@),
        None => None,
    }
}

/// `<file> => <summary>`, as a saved conversation is listed.
pub fn transcript_label(file_name: &str, state: Option<&ConversationState>) -> (r: String)
    ensures
        r@ == file_name@ + " => "@ + summary_of(option_view(state)),
{
    let mut out: Vec<char> = Vec::new();
    append_str(&mut out, file_name);
    append_str(&mut out, " => ");
    match state {
        None => append_str(&mut out, "[Error reading transcript content]"),
        Some(s) => {
            let t: &str = if s.messages.len() > 1 {
                match &s.messages[1].content {
                    Content::Text(t) => t.as_str(),
                    _ => "[Could not parse message content or not a string]",
                }
            } else {
                "[Could not parse message content or not a string]"
            };
            let cs = chars_of(t);
            if cs.len() == 0 {
                append_str(&mut out, "[Empty first line]");
                proof { reveal_strlit("[Empty first line]"); }
            } else {
                let line = match find_char(&cs, '\n') {
                    Some(k) => slice_chars(&cs, 0, k),
                    None => {
                        assert(cs@.subrange(0, cs@.len() as int) == cs@);
                        slice_chars(&cs, 0, cs.len())
                    },
                };
                let b = body_of(&line);
                let bt = string_of(&b);
                push_head(&mut out, bt.as_str(), 64);
            }
        },
    }
    string_of(&out)
}

} // verus!
