//! The agent loop's decisions: what a finished turn adds to the conversation, and
//! whether the loop runs tools and asks again or ends.
//!
//! The loop itself (sending, streaming, running tools, saving) is driven by the caller,
//! one step at a time, so that it never grows the stack however many rounds it takes.
use vstd::prelude::*;
use crate::accumulator::{views_of, CallView, ToolCallRequest};
use crate::conversation::{Content, ContentView, ConversationState, ConversationView, Message, MessageView, Role};
use crate::decoder::StreamOutcome;
use crate::text::{append_str, string_of};

verus! {

/// What the loop does after a model response has been recorded.
pub enum NextStep {
    /// Run these calls in order, record each result, save, and send a new request.
    RunTools(Vec<ToolCallRequest>),
    /// The model answered in text: save and end the turn.
    Finish,
}

/// The message a finished response adds: its tool calls when it asked for any, else its
/// text.
pub open spec fn reply_message(text: Seq<char>, calls: Seq<CallView>) -> MessageView {
    MessageView {
        role: Role::Assistant,
        content: if calls.len() > 0 { ContentView::ToolCalls(calls) } else { ContentView::Text(text) },
    }
}

/// The text a tool result is reported with: the output, or the error prefixed `Error: `.
pub open spec fn result_text(r: Result<Seq<char>, Seq<char>>) -> Seq<char> {
    match r {
        Ok(s) => s,
        Err(e) => "Error: "@ + e,
    }
}

pub open spec fn result_view(r: Result<String, String>) -> Result<Seq<char>, Seq<char>> {
    match r {
        Ok(s) => Ok(s@),
        Err(e) => Err(e@),
    }
}

/// Appends the user's input to the conversation.
pub fn add_user_message(state: &mut ConversationState, content: Content)
    ensures
        final(state)@ == (ConversationView {
            model: old(state)@.model,
            messages: old(state)@.messages.push(MessageView { role: Role::User, content: content@ }),
        }),
{
    let m = Message { role: Role::User, content };
    state.messages.push(m);
    assert(final(state)@.messages =~= old(state)@.messages.push(m@));
}

/// Records a finished response and decides the next step: a response with tool calls
/// is kept as a tool-call message and its calls are run, in order; a text response is
/// kept as the assistant's answer and ends the turn.
pub fn record_response(state: &mut ConversationState, outcome: StreamOutcome) -> (r: NextStep)
    ensures
        final(state)@ == (ConversationView {
            model: old(state)@.model,
            messages: old(state)@.messages.push(reply_message(outcome.text@, views_of(outcome.tool_calls@))),
        }),
        match r {
            NextStep::RunTools(calls) => outcome.tool_calls@.len() > 0 && views_of(calls@) == views_of(outcome.tool_calls@),
            NextStep::Finish => outcome.tool_calls@.len() == 0,
        },
{
    let StreamOutcome { role: _, text, tool_calls } = outcome;
    let ghost calls_view = views_of(tool_calls@);
    if tool_calls.len() > 0 {
        let mut copy: Vec<ToolCallRequest> = Vec::new();
        let mut i: usize = 0;
        while i < tool_calls.len()
            invariant
                i <= tool_calls@.len(),
                copy@.len() == i,
                forall|j: int| 0 <= j < i ==> (#[trigger] copy@[j])@ == tool_calls@[j]@,
            decreases tool_calls@.len() - i,
        {
            copy.push(tool_calls[i].duplicate());
            i = i + 1;
        }
        assert(views_of(copy@) =~= calls_view);
        let m = Message { role: Role::Assistant, content: Content::ToolCalls(tool_calls) };
        state.messages.push(m);
        assert(final(state)@.messages =~= old(state)@.messages.push(m@));
        NextStep::RunTools(copy)
    } else {
        let m = Message { role: Role::Assistant, content: Content::Text(text) };
        state.messages.push(m);
        assert(final(state)@.messages =~= old(state)@.messages.push(m@));
        NextStep::Finish
    }
}

/// The text a tool's result is reported with.
pub fn tool_result_text(result: Result<String, String>) -> (r: String)
    ensures
        r@ == result_text(result_view(result)),
{
    match result {
        Ok(s) => s,
        Err(e) => {
            let mut cs: Vec<char> = Vec::new();
            append_str(&mut cs, "Error: ");
            append_str(&mut cs, e.as_str());
            string_of(&cs)
        },
    }
}

/// Appends a tool's reported result, keyed by the id of the call it answers.
pub fn add_tool_result(state: &mut ConversationState, call: &ToolCallRequest, text: String)
    ensures
        final(state)@ == (ConversationView {
            model: old(state)@.model,
            messages: old(state)@.messages.push(MessageView {
                role: Role::Tool,
                content: ContentView::ToolResult { call_id: call.id@, text: text@ },
            }),
        }),
{
    let m = Message { role: Role::Tool, content: Content::ToolResult { call_id: call.id.clone(), text } };
    state.messages.push(m);
    assert(final(state)@.messages =~= old(state)@.messages.push(m@));
}

/// Undoes a turn that failed in transport: the conversation returns to its first `n`
/// messages, as it was before the turn began.
pub fn abandon_turn(state: &mut ConversationState, n: usize)
    requires
        n <= old(state).messages@.len(),
    ensures
        final(state)@ == (ConversationView { model: old(state)@.model, messages: old(state)@.messages.subrange(0, n as int) }),
{
    state.messages.truncate(n);
    assert(final(state)@.messages =~= old(state)@.messages.subrange(0, n as int));
}

} // verus!
