//! Provider-specific shapes: how streamed events update a turn, and how requests are built.
use vstd::prelude::*;
use crate::accumulator::{merged, CallView, FragmentView, ToolCallAccumulator, ToolCallFragment};
use crate::json::{json_text, json_text_of, Json};
use vstd::string::StringExecFns;

verus! {

/// The two request/stream dialects.
#[derive(PartialEq, Eq, Structural, Clone, Copy, Debug)]
pub enum Provider {
    /// Chat-completions style: `choices[0].delta` events.
    OpenAi,
    /// generateContent style: `candidates[*].content.parts[*]` events.
    Gemini,
}

/// What one streamed turn has produced so far.
pub struct Turn {
    /// The text deltas, concatenated in arrival order.
    pub text: String,
    /// The role label, empty until an event names one.
    pub role: String,
    /// The tool calls being assembled.
    pub calls: ToolCallAccumulator,
}

pub ghost struct TurnView {
    pub text: Seq<char>,
    pub role: Seq<char>,
    pub calls: Seq<(u64, CallView)>,
}

impl View for Turn {
    type V = TurnView;

    open spec fn view(&self) -> TurnView {
        TurnView { text: self.text@, role: self.role@, calls: self.calls@ }
    }
}

impl Turn {
    pub open spec fn wf(&self) -> bool {
        self.calls.wf()
    }
}

/// The fragment that one element of an OpenAI `tool_calls` array carries; an element
/// without a usable `index` takes its position in the array.
pub open spec fn openai_fragment(tc: Json, pos: nat) -> FragmentView {
    let function = match tc.field("function"@) {
        Some(f) => f,
        None => Json::Null,
    };
    FragmentView {
        index: match tc.field("index"@) {
            Some(i) => match i.u64_value() {
                Some(k) => k,
                None => pos as u64,
            },
            None => pos as u64,
        },
        id: tc.field_str("id"@),
        name: function.field_str("name"@),
        arguments: function.field_str("arguments"@),
    }
}

/// The pending calls after the first `n` elements of a `tool_calls` array.
pub open spec fn openai_fragments(calls: Seq<(u64, CallView)>, items: Seq<Json>, n: nat) -> Seq<(u64, CallView)>
    decreases n,
{
    if n == 0 || n > items.len() {
        calls
    } else {
        merged(openai_fragments(calls, items, (n - 1) as nat), openai_fragment(items[n - 1], (n - 1) as nat))
    }
}

/// A turn after one OpenAI `delta` object: the first role named is kept, content is
/// appended, tool-call fragments are merged.
pub open spec fn openai_delta(t: TurnView, d: Json) -> TurnView {
    TurnView {
        role: if t.role.len() == 0 {
            match d.field_str("role"@) {
                Some(r) => r,
                None => t.role,
            }
        } else {
            t.role
        },
        text: match d.field_str("content"@) {
            Some(c) => t.text + c,
            None => t.text,
        },
        calls: match d.field("tool_calls"@) {
            Some(Json::Array(a)) => openai_fragments(t.calls, a@, a@.len()),
            _ => t.calls,
        },
    }
}

/// A turn after one OpenAI event; only the first choice is read.
pub open spec fn openai_event(t: TurnView, v: Json) -> TurnView {
    match v.field("choices"@) {
        Some(Json::Array(cs)) => if cs@.len() > 0 {
            match cs@[0].field("delta"@) {
                Some(d) => openai_delta(t, d),
                None => t,
            }
        } else {
            t
        },
        _ => t,
    }
}

/// A turn after one Gemini part: its text is appended; a `functionCall` becomes a
/// complete call at the next free index, keyed by the function's name.
pub open spec fn gemini_part(t: TurnView, p: Json) -> TurnView {
    let t1 = match p.field_str("text"@) {
        Some(s) => TurnView { text: t.text + s, ..t },
        None => t,
    };
    match p.field("functionCall"@) {
        Some(fc) => TurnView {
            calls: merged(t1.calls, FragmentView {
                index: t1.calls.len() as u64,
                id: fc.field_str("name"@),
                name: fc.field_str("name"@),
                arguments: Some(match fc.field("args"@) {
                    Some(a) => json_text_of(a@),
                    None => "{}"@,
                }),
            }),
            ..t1
        },
        None => t1,
    }
}

/// A turn after the first `n` parts.
pub open spec fn gemini_parts(t: TurnView, parts: Seq<Json>, n: nat) -> TurnView
    decreases n,
{
    if n == 0 || n > parts.len() {
        t
    } else {
        gemini_part(gemini_parts(t, parts, (n - 1) as nat), parts[n - 1])
    }
}

/// The parts of a Gemini candidate.
pub open spec fn candidate_parts(c: Json) -> Seq<Json> {
    match c.field("content"@) {
        Some(content) => match content.field("parts"@) {
            Some(Json::Array(ps)) => ps@,
            _ => Seq::empty(),
        },
        None => Seq::empty(),
    }
}

/// A turn after the first `n` candidates.
pub open spec fn gemini_candidates(t: TurnView, cs: Seq<Json>, n: nat) -> TurnView
    decreases n,
{
    if n == 0 || n > cs.len() {
        t
    } else {
        let prev = gemini_candidates(t, cs, (n - 1) as nat);
        let ps = candidate_parts(cs[n - 1]);
        gemini_parts(prev, ps, ps.len())
    }
}

/// A turn after one Gemini event; every candidate is read.
pub open spec fn gemini_event(t: TurnView, v: Json) -> TurnView {
    match v.field("candidates"@) {
        Some(Json::Array(cs)) => gemini_candidates(t, cs@, cs@.len()),
        _ => t,
    }
}

/// A turn after one decoded event of the given provider.
pub open spec fn apply_event(p: Provider, t: TurnView, v: Json) -> TurnView {
    match p {
        Provider::OpenAi => openai_event(t, v),
        Provider::Gemini => gemini_event(t, v),
    }
}

fn owned(s: Option<&str>) -> (r: Option<String>)
    ensures
        match s {
            Some(t) => r matches Some(u) && u@ == t@,
            None => r is None,
        },
{
    match s {
        Some(t) => Some(t.to_owned()),
        None => None,
    }
}

fn openai_fragment_of(tc: &Json, pos: usize) -> (r: ToolCallFragment)
    ensures
        r@ == openai_fragment(*tc, pos as nat),
{
    let index = match tc.get("index") {
        Some(i) => match i.as_u64() {
            Some(k) => k,
            None => pos as u64,
        },
        None => pos as u64,
    };
    let (name, arguments) = match tc.get("function") {
        Some(f) => (owned(f.get_str("name")), owned(f.get_str("arguments"))),
        None => {
            assert(Json::Null.field_str("name"@) is None);
            (None, None)
        },
    };
    ToolCallFragment { index, id: owned(tc.get_str("id")), name, arguments }
}

impl Turn {
    /// An empty turn; a Gemini turn speaks as `model` from the start.
    pub fn new(p: Provider) -> (r: Turn)
        ensures
            r.wf(),
            r@.text.len() == 0,
            r@.calls.len() == 0,
            p == Provider::OpenAi ==> r@.role.len() == 0,
            p == Provider::Gemini ==> r@.role == "model"@,
    {
        let role = match p {
            Provider::OpenAi => String::new(),
            Provider::Gemini => "model".to_owned(),
        };
        Turn { text: String::new(), role, calls: ToolCallAccumulator::new() }
    }

    fn apply_openai_delta(&mut self, d: &Json)
        requires
            old(self).wf(),
        ensures
            final(self).wf(),
            final(self)@ == openai_delta(old(self)@, *d),
    {
        if self.role.as_str().is_empty() {
            if let Some(r) = d.get_str("role") {
                self.role = r.to_owned();
            }
        }
        if let Some(c) = d.get_str("content") {
            self.text.append(c);
        }
        if let Some(Json::Array(a)) = d.get("tool_calls") {
            let ghost c0 = self.calls@;
            let ghost t0 = self@;
            let mut i: usize = 0;
            while i < a.len()
                invariant
                    self.calls.wf(),
                    self.text@ == t0.text,
                    self.role@ == t0.role,
                    i <= a@.len(),
                    self.calls@ == openai_fragments(c0, a@, i as nat),
                decreases a@.len() - i,
            {
                let f = openai_fragment_of(&a[i], i);
                self.calls.merge(f);
                i = i + 1;
            }
        }
    }

    fn apply_gemini_part(&mut self, p: &Json)
        requires
            old(self).wf(),
        ensures
            final(self).wf(),
            final(self)@ == gemini_part(old(self)@, *p),
    {
        if let Some(s) = p.get_str("text") {
            self.text.append(s);
        }
        if let Some(fc) = p.get("functionCall") {
            let arguments = match fc.get("args") {
                Some(a) => json_text(a),
                None => "{}".to_owned(),
            };
            let f = ToolCallFragment {
                index: self.calls.len() as u64,
                id: owned(fc.get_str("name")),
                name: owned(fc.get_str("name")),
                arguments: Some(arguments),
            };
            self.calls.merge(f);
        }
    }

    fn apply_gemini_event(&mut self, v: &Json)
        requires
            old(self).wf(),
        ensures
            final(self).wf(),
            final(self)@ == gemini_event(old(self)@, *v),
    {
        if let Some(Json::Array(cs)) = v.get("candidates") {
            let ghost t0 = self@;
            let mut i: usize = 0;
            while i < cs.len()
                invariant
                    self.wf(),
                    i <= cs@.len(),
                    self@ == gemini_candidates(t0, cs@, i as nat),
                decreases cs@.len() - i,
            {
                let ghost t1 = self@;
                let ghost ps = candidate_parts(cs@[i as int]);
                let parts: Option<&Vec<Json>> = match cs[i].get("content") {
                    Some(content) => match content.get("parts") {
                        Some(Json::Array(ps)) => Some(ps),
                        _ => None,
                    },
                    None => None,
                };
                if let Some(ps_exec) = parts {
                    assert(ps_exec@ == ps);
                    let mut j: usize = 0;
                    while j < ps_exec.len()
                        invariant
                            self.wf(),
                            j <= ps.len(),
                            ps_exec@ == ps,
                            self@ == gemini_parts(t1, ps, j as nat),
                        decreases ps.len() - j,
                    {
                        self.apply_gemini_part(&ps_exec[j]);
                        j = j + 1;
                    }
                } else {
                    assert(ps.len() == 0);
                }
                i = i + 1;
            }
        }
    }

    /// Folds one decoded event into the turn.
    pub fn apply_event(&mut self, p: Provider, v: &Json)
        requires
            old(self).wf(),
        ensures
            final(self).wf(),
            final(self)@ == apply_event(p, old(self)@, *v),
    {
        match p {
            Provider::OpenAi => {
                if let Some(Json::Array(cs)) = v.get("choices") {
                    if cs.len() > 0 {
                        if let Some(d) = cs[0].get("delta") {
                            self.apply_openai_delta(d);
                        }
                    }
                }
            },
            Provider::Gemini => self.apply_gemini_event(v),
        }
    }
}

} // verus!
