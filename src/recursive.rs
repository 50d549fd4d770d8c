//! The key-value protocol of the command-suggesting agent mode: reading the model's
//! reply and deciding what to do with it.
use vstd::prelude::*;
use crate::text::{append_str, chars_of, first_index, lower_of, lowercase, replace_all, replaced, string_of, text_eq, trim, trimmed};

verus! {

/// What a reply in the agent protocol says, line by line `key: value`.
pub struct AgentReply {
    pub signature: Option<String>,
    pub complete: bool,
    pub command: Option<String>,
    pub explanation: Option<String>,
}

pub ghost struct ReplyView {
    pub signature: Option<Seq<char>>,
    pub complete: bool,
    pub command: Option<Seq<char>>,
    pub explanation: Option<Seq<char>>,
}

pub open spec fn opt_text(o: Option<String>) -> Option<Seq<char>> {
    match o {
        Some(s) => Some(s@),
        None => None,
    }
}

impl View for AgentReply {
    type V = ReplyView;

    open spec fn view(&self) -> ReplyView {
        ReplyView {
            signature: opt_text(self.signature),
            complete: self.complete,
            command: opt_text(self.command),
            explanation: opt_text(self.explanation),
        }
    }
}

/// A reply after one more line: a line with a `:` sets the field its key names.
pub open spec fn read_line(r: ReplyView, line: Seq<char>) -> ReplyView {
    match first_index(line, ':') {
        Some(i) => {
            let key = trimmed(line.subrange(0, i));
            let value = trimmed(line.subrange(i + 1, line.len() as int));
            if key == "signature"@ {
                ReplyView { signature: Some(value), ..r }
            } else if key == "complete"@ {
                ReplyView { complete: lower_of(value) == "true"@, ..r }
            } else if key == "command"@ {
                ReplyView { command: Some(value), ..r }
            } else if key == "explanation"@ {
                ReplyView { explanation: Some(value), ..r }
            } else {
                r
            }
        },
        None => r,
    }
}

/// A line without its break and without a carriage return before the break.
pub open spec fn line_body(line: Seq<char>) -> Seq<char> {
    if line.len() > 0 && line.last() == '\r' { line.drop_last() } else { line }
}

pub ghost struct ReadState {
    pub line: Seq<char>,
    pub reply: ReplyView,
}

pub open spec fn read_char(s: ReadState, c: char) -> ReadState {
    if c == '\n' {
        ReadState { line: Seq::empty(), reply: read_line(s.reply, line_body(s.line)) }
    } else {
        ReadState { line: s.line.push(c), ..s }
    }
}

pub open spec fn read_chars(s: ReadState, t: Seq<char>) -> ReadState
    decreases t.len(),
{
    if t.len() == 0 { s } else { read_char(read_chars(s, t.drop_last()), t.last()) }
}

pub open spec fn empty_reply() -> ReplyView {
    ReplyView { signature: None, complete: false, command: None, explanation: None }
}

/// What a whole reply says: its lines read in order, a last line without a break too.
pub open spec fn reply_of(t: Seq<char>) -> ReplyView {
    let s = read_chars(ReadState { line: Seq::empty(), reply: empty_reply() }, t);
    if s.line.len() > 0 { read_line(s.reply, line_body(s.line)) } else { s.reply }
}

fn read_one_line(r: &mut AgentReply, line: &Vec<char>)
    ensures
        final(r)@ == read_line(old(r)@, line@),
{
    let cs = line;
    let mut i: usize = 0;
    while i < cs.len() && cs[i] != ':'
        invariant
            i <= cs@.len(),
            forall|k: int| 0 <= k < i ==> cs@[k] != ':',
        decreases cs@.len() - i,
    {
        i = i + 1;
    }
    proof { lemma_first_index_at(cs@, ':', i as int); }
    if i == cs.len() {
        return;
    }
    let key_s = string_of(&crate::text::slice_chars(cs, 0, i));
    let value_s = string_of(&crate::text::slice_chars(cs, i + 1, cs.len()));
    let key = trim(key_s.as_str());
    let value = trim(value_s.as_str());
    if text_eq(key, "signature") {
        r.signature = Some(value.to_owned());
    } else if text_eq(key, "complete") {
        r.complete = text_eq(lowercase(value).as_str(), "true");
    } else if text_eq(key, "command") {
        r.command = Some(value.to_owned());
    } else if text_eq(key, "explanation") {
        r.explanation = Some(value.to_owned());
    }
}

proof fn lemma_first_index_at(s: Seq<char>, c: char, i: int)
    requires
        0 <= i <= s.len(),
        forall|k: int| 0 <= k < i ==> s[k] != c,
        i < s.len() ==> s[i] == c,
    ensures
        i < s.len() ==> first_index(s, c) == Some(i),
        i == s.len() ==> first_index(s, c) is None,
    decreases i,
{
    if i > 0 {
        lemma_first_index_at(s.drop_first(), c, i - 1);
    } else if s.len() > 0 {
    }
}

pub(crate) fn body_of(line: &Vec<char>) -> (r: Vec<char>)
    ensures
        r@ == line_body(line@),
{
    let n = line.len();
    if n > 0 && line[n - 1] == '\r' {
        crate::text::slice_chars(line, 0, n - 1)
    } else {
        crate::text::slice_chars(line, 0, n)
    }
}

/// Reads the fields of a reply in the agent protocol; later lines override earlier ones.
pub fn parse_agent_reply(text: &str) -> (r: AgentReply)
    ensures
        r@ == reply_of(text@),
{
    let cs = chars_of(text);
    let mut r = AgentReply { signature: None, complete: false, command: None, explanation: None };
    let mut line: Vec<char> = Vec::new();
    let mut i: usize = 0;
    assert(cs@.subrange(0, 0) =~= Seq::<char>::empty());
    while i < cs.len()
        invariant
            cs@ == text@,
            i <= cs@.len(),
            (ReadState { line: line@, reply: r@ }) == read_chars(
                ReadState { line: Seq::empty(), reply: empty_reply() },
                cs@.subrange(0, i as int),
            ),
        decreases cs@.len() - i,
    {
        assert(cs@.subrange(0, i + 1).drop_last() == cs@.subrange(0, i as int));
        if cs[i] == '\n' {
            let b = body_of(&line);
            read_one_line(&mut r, &b);
            line = Vec::new();
        } else {
            line.push(cs[i]);
        }
        i = i + 1;
    }
    assert(cs@.subrange(0, cs@.len() as int) == cs@);
    if line.len() > 0 {
        let b = body_of(&line);
        read_one_line(&mut r, &b);
    }
    r
}

/// What the agent mode does with a reply.
pub enum AgentStep {
    /// The agent declares the task complete.
    Complete,
    /// The agent proposes this command; the user approves or rejects it.
    Propose(String),
    /// Neither a command nor completion: ask the agent for the next step.
    RequestNextStep,
    /// The agent asks the user this question.
    AskUser(String),
    /// A question reply without a question.
    InvalidPrompt,
    /// A reply without a recognised signature.
    Unrecognized,
}

pub ghost enum AgentStepView {
    Complete,
    Propose(Seq<char>),
    RequestNextStep,
    AskUser(Seq<char>),
    InvalidPrompt,
    Unrecognized,
}

impl View for AgentStep {
    type V = AgentStepView;

    open spec fn view(&self) -> AgentStepView {
        match self {
            AgentStep::Complete => AgentStepView::Complete,
            AgentStep::Propose(c) => AgentStepView::Propose(c@),
            AgentStep::RequestNextStep => AgentStepView::RequestNextStep,
            AgentStep::AskUser(q) => AgentStepView::AskUser(q@),
            AgentStep::InvalidPrompt => AgentStepView::InvalidPrompt,
            AgentStep::Unrecognized => AgentStepView::Unrecognized,
        }
    }
}

/// The step a reply calls for: a command reply completes, proposes its command, or asks
/// for the next step; a question reply asks the question held in `explanation`.
pub open spec fn agent_step(r: ReplyView) -> AgentStepView {
    if r.signature == Some("__recursive_command_ignore"@) {
        if r.complete {
            AgentStepView::Complete
        } else {
            match r.command {
                Some(c) => AgentStepView::Propose(c),
                None => AgentStepView::RequestNextStep,
            }
        }
    } else if r.signature == Some("__recursive_prompt_user"@) {
        match r.explanation {
            Some(q) => AgentStepView::AskUser(q),
            None => AgentStepView::InvalidPrompt,
        }
    } else {
        AgentStepView::Unrecognized
    }
}

pub fn next_agent_step(r: &AgentReply) -> (s: AgentStep)
    ensures
        s@ == agent_step(r@),
{
    let (is_command, is_prompt) = match &r.signature {
        Some(sig) => (text_eq(sig.as_str(), "__recursive_command_ignore"), text_eq(sig.as_str(), "__recursive_prompt_user")),
        None => (false, false),
    };
    if is_command {
        if r.complete {
            AgentStep::Complete
        } else {
            match &r.command {
                Some(c) => AgentStep::Propose(c.clone()),
                None => AgentStep::RequestNextStep,
            }
        }
    } else if is_prompt {
        match &r.explanation {
            Some(q) => AgentStep::AskUser(q.clone()),
            None => AgentStep::InvalidPrompt,
        }
    } else {
        AgentStep::Unrecognized
    }
}

/// Whether the user's answer asks to leave the agent mode.
pub fn wants_exit(answer: &str) -> (r: bool)
    ensures
        r == (lower_of(trimmed(answer@)) == "exit"@),
{
    text_eq(lowercase(trim(answer)).as_str(), "exit")
}

/// The opening prompt of the agent mode: the template with the user's task filled in.
pub fn initial_prompt(template: &str, task: &str) -> (r: String)
    ensures
        r@ == replaced(template@, "{user_input}"@, task@),
{
    replace_all(template, "{user_input}", task)
}

pub open spec fn command_output_message_text(stdout: Seq<char>, stderr: Seq<char>) -> Seq<char> {
    "Command executed. Output:\nstdout:\n"@ + stdout + "\nstderr:\n"@ + stderr
}

/// The message that reports the output of a command the user approved.
pub fn command_output_message(stdout: &str, stderr: &str) -> (r: String)
    ensures
        r@ == command_output_message_text(stdout@, stderr@),
{
    let mut cs: Vec<char> = Vec::new();
    append_str(&mut cs, "Command executed. Output:\nstdout:\n");
    append_str(&mut cs, stdout);
    append_str(&mut cs, "\nstderr:\n");
    append_str(&mut cs, stderr);
    assert(cs@ =~= command_output_message_text(stdout@, stderr@));
    string_of(&cs)
}

pub open spec fn command_failure_message_text(error: Seq<char>) -> Seq<char> {
    "Failed to execute command: "@ + error
}

/// The message that reports a command that could not be started.
pub fn command_failure_message(error: &str) -> (r: String)
    ensures
        r@ == command_failure_message_text(error@),
{
    let mut cs: Vec<char> = Vec::new();
    append_str(&mut cs, "Failed to execute command: ");
    append_str(&mut cs, error);
    assert(cs@ =~= command_failure_message_text(error@));
    string_of(&cs)
}

pub open spec fn rejection_message_text(feedback: Seq<char>, task: Seq<char>) -> Seq<char> {
    "User rejected the command.\nFeedback: "@ + feedback + "\nPlease suggest an alternative or ask for clarification. Original task: "@ + task
}

/// The message that reports a command the user rejected, with the user's feedback.
pub fn rejection_message(feedback: &str, task: &str) -> (r: String)
    ensures
        r@ == rejection_message_text(feedback@, task@),
{
    let mut cs: Vec<char> = Vec::new();
    append_str(&mut cs, "User rejected the command.\nFeedback: ");
    append_str(&mut cs, feedback);
    append_str(&mut cs, "\nPlease suggest an alternative or ask for clarification. Original task: ");
    append_str(&mut cs, task);
    assert(cs@ =~= rejection_message_text(feedback@, task@));
    string_of(&cs)
}

pub open spec fn next_step_message_text(task: Seq<char>) -> Seq<char> {
    "No command was provided, but the task is not yet complete. Please provide the next command or ask for clarification. Remember the original task: "@ + task + ". Ensure you provide a 'command' or set 'complete' to true."@
}

/// The message that reports a reply with neither a command nor completion.
pub fn next_step_message(task: &str) -> (r: String)
    ensures
        r@ == next_step_message_text(task@),
{
    let mut cs: Vec<char> = Vec::new();
    append_str(&mut cs, "No command was provided, but the task is not yet complete. Please provide the next command or ask for clarification. Remember the original task: ");
    append_str(&mut cs, task);
    append_str(&mut cs, ". Ensure you provide a 'command' or set 'complete' to true.");
    assert(cs@ =~= next_step_message_text(task@));
    string_of(&cs)
}

pub open spec fn user_answer_message_text(answer: Seq<char>, task: Seq<char>) -> Seq<char> {
    "User provided information: "@ + answer + ". Continue with the original task: "@ + task + "."@
}

/// The message that reports the user's answer to the agent's question.
pub fn user_answer_message(answer: &str, task: &str) -> (r: String)
    ensures
        r@ == user_answer_message_text(answer@, task@),
{
    let mut cs: Vec<char> = Vec::new();
    append_str(&mut cs, "User provided information: ");
    append_str(&mut cs, answer);
    append_str(&mut cs, ". Continue with the original task: ");
    append_str(&mut cs, task);
    append_str(&mut cs, ".");
    assert(cs@ =~= user_answer_message_text(answer@, task@));
    string_of(&cs)
}

pub open spec fn invalid_prompt_message_text(feedback: Seq<char>, task: Seq<char>) -> Seq<char> {
    "User feedback on invalid prompt structure: "@ + feedback + ". Please remember the original task: "@ + task + ". Adhere to the key-value output format with 'prompt' in the explanation field and 'signature' as __recursive_prompt_user."@
}

/// The message that reports a question reply that carried no question.
pub fn invalid_prompt_message(feedback: &str, task: &str) -> (r: String)
    ensures
        r@ == invalid_prompt_message_text(feedback@, task@),
{
    let mut cs: Vec<char> = Vec::new();
    append_str(&mut cs, "User feedback on invalid prompt structure: ");
    append_str(&mut cs, feedback);
    append_str(&mut cs, ". Please remember the original task: ");
    append_str(&mut cs, task);
    append_str(&mut cs, ". Adhere to the key-value output format with 'prompt' in the explanation field and 'signature' as __recursive_prompt_user.");
    assert(cs@ =~= invalid_prompt_message_text(feedback@, task@));
    string_of(&cs)
}

pub open spec fn invalid_structure_message_text(feedback: Seq<char>, task: Seq<char>) -> Seq<char> {
    "User feedback on invalid structure: "@ + feedback + ". Please remember the original task: "@ + task + ". Adhere to the key-value output format with 'command' or 'prompt' and a recognized 'signature'."@
}

/// The message that reports a reply without a recognised signature.
pub fn invalid_structure_message(feedback: &str, task: &str) -> (r: String)
    ensures
        r@ == invalid_structure_message_text(feedback@, task@),
{
    let mut cs: Vec<char> = Vec::new();
    append_str(&mut cs, "User feedback on invalid structure: ");
    append_str(&mut cs, feedback);
    append_str(&mut cs, ". Please remember the original task: ");
    append_str(&mut cs, task);
    append_str(&mut cs, ". Adhere to the key-value output format with 'command' or 'prompt' and a recognized 'signature'.");
    assert(cs@ =~= invalid_structure_message_text(feedback@, task@));
    string_of(&cs)
}

} // verus!
