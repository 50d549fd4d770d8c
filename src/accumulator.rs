//! Reassembly of tool calls whose fields arrive in fragments over one streamed turn.
use vstd::prelude::*;
use vstd::string::StringExecFns;

verus! {

/// A finished request from the model to run a tool; `arguments` is JSON text.
pub struct ToolCallRequest {
    pub id: String,
    pub name: String,
    pub arguments: String,
}

/// What a tool call holds, as character sequences.
pub ghost struct CallView {
    pub id: Seq<char>,
    pub name: Seq<char>,
    pub arguments: Seq<char>,
}

impl View for ToolCallRequest {
    type V = CallView;

    open spec fn view(&self) -> CallView {
        CallView { id: self.id@, name: self.name@, arguments: self.arguments@ }
    }
}

/// One piece of a tool call as a stream delivers it: the call's stream index and
/// any of its fields.
pub struct ToolCallFragment {
    pub index: u64,
    pub id: Option<String>,
    pub name: Option<String>,
    pub arguments: Option<String>,
}

pub open spec fn opt_view(o: Option<String>) -> Option<Seq<char>> {
    match o {
        Some(s) => Some(s@),
        None => None,
    }
}

pub open spec fn empty_call() -> CallView {
    CallView { id: Seq::empty(), name: Seq::empty(), arguments: Seq::empty() }
}

/// A field that already holds text keeps it; an empty one takes the fragment's value.
pub open spec fn first_non_empty(current: Seq<char>, incoming: Option<Seq<char>>) -> Seq<char> {
    match incoming {
        Some(v) if current.len() == 0 => v,
        _ => current,
    }
}

/// What a fragment carries, as character sequences.
pub ghost struct FragmentView {
    pub index: u64,
    pub id: Option<Seq<char>>,
    pub name: Option<Seq<char>>,
    pub arguments: Option<Seq<char>>,
}

impl View for ToolCallFragment {
    type V = FragmentView;

    open spec fn view(&self) -> FragmentView {
        FragmentView {
            index: self.index,
            id: opt_view(self.id),
            name: opt_view(self.name),
            arguments: opt_view(self.arguments),
        }
    }
}

/// The call after one fragment: id and name by first non-empty value, arguments by
/// concatenation in arrival order.
pub open spec fn merge_call(c: CallView, f: FragmentView) -> CallView {
    CallView {
        id: first_non_empty(c.id, f.id),
        name: first_non_empty(c.name, f.name),
        arguments: match f.arguments {
            Some(a) => c.arguments + a,
            None => c.arguments,
        },
    }
}

/// Indices strictly ascending.
pub open spec fn ascending(s: Seq<(u64, CallView)>) -> bool {
    forall|i: int, j: int| 0 <= i < j < s.len() ==> s[i].0 < s[j].0
}

/// The pending calls after a fragment arrives: the entry of its index is updated, or a
/// fresh empty entry is placed at its rank and updated.
pub open spec fn merged(s: Seq<(u64, CallView)>, f: FragmentView) -> Seq<(u64, CallView)>
    decreases s.len(),
{
    if s.len() == 0 {
        seq![(f.index, merge_call(empty_call(), f))]
    } else if s[0].0 == f.index {
        seq![(f.index, merge_call(s[0].1, f))] + s.drop_first()
    } else if s[0].0 > f.index {
        seq![(f.index, merge_call(empty_call(), f))] + s
    } else {
        seq![s[0]] + merged(s.drop_first(), f)
    }
}

/// The views of a list of calls.
pub open spec fn views_of(v: Seq<ToolCallRequest>) -> Seq<CallView> {
    v.map_values(|c: ToolCallRequest| c@)
}

/// The calls of indexed entries, in the same order.
pub open spec fn calls_of(s: Seq<(u64, CallView)>) -> Seq<CallView> {
    s.map_values(|e: (u64, CallView)| e.1)
}

spec fn entry_views(v: Seq<(u64, ToolCallRequest)>) -> Seq<(u64, CallView)> {
    v.map_values(|e: (u64, ToolCallRequest)| (e.0, e.1@))
}

/// The calls being assembled in one streamed turn, keyed by stream index.
pub struct ToolCallAccumulator {
    entries: Vec<(u64, ToolCallRequest)>,
}

impl View for ToolCallAccumulator {
    type V = Seq<(u64, CallView)>;

    /// The pending calls with their stream indices, in the order they are kept.
    closed spec fn view(&self) -> Seq<(u64, CallView)> {
        entry_views(self.entries@)
    }
}

proof fn lemma_merged_split(s: Seq<(u64, CallView)>, i: int, f: FragmentView)
    requires
        0 <= i <= s.len(),
        forall|j: int| 0 <= j < i ==> s[j].0 < f.index,
    ensures
        merged(s, f) == s.subrange(0, i) + merged(s.subrange(i, s.len() as int), f),
    decreases i,
{
    if i > 0 {
        lemma_merged_split(s.drop_first(), i - 1, f);
        assert(s.drop_first().subrange(0, i - 1) == s.subrange(1, i));
        assert(s.drop_first().subrange(i - 1, s.len() - 1) == s.subrange(i, s.len() as int));
        assert(s.subrange(0, i) == seq![s[0]] + s.subrange(1, i));
    } else {
        assert(s.subrange(0, 0) + s.subrange(0, s.len() as int) == s);
    }
}

fn merge_request(c: ToolCallRequest, f: ToolCallFragment) -> (r: ToolCallRequest)
    ensures
        r@ == merge_call(c@, f@),
{
    let ToolCallRequest { id, name, arguments } = c;
    let id = match f.id {
        Some(v) if id.as_str().is_empty() => v,
        _ => id,
    };
    let name = match f.name {
        Some(v) if name.as_str().is_empty() => v,
        _ => name,
    };
    let mut arguments = arguments;
    if let Some(a) = f.arguments {
        arguments.append(a.as_str());
    }
    ToolCallRequest { id, name, arguments }
}

impl ToolCallAccumulator {
    pub open spec fn wf(&self) -> bool {
        ascending(self@)
    }

    pub fn new() -> (r: ToolCallAccumulator)
        ensures
            r.wf(),
            r@ == Seq::<(u64, CallView)>::empty(),
    {
        let r = ToolCallAccumulator { entries: Vec::new() };
        assert(r@ =~= Seq::<(u64, CallView)>::empty());
        r
    }

    pub fn len(&self) -> (r: usize)
        ensures
            r == self@.len(),
    {
        self.entries.len()
    }

    pub fn is_empty(&self) -> (r: bool)
        ensures
            r == (self@.len() == 0),
    {
        self.entries.len() == 0
    }

    /// Routes one fragment into the entry of its stream index, creating it on first sight.
    pub fn merge(&mut self, f: ToolCallFragment)
        requires
            old(self).wf(),
        ensures
            final(self).wf(),
            final(self)@ == merged(old(self)@, f@),
    {
        let ghost s = self@;
        let k = f.index;
        let mut i: usize = 0;
        while i < self.entries.len() && self.entries[i].0 < k
            invariant
                self@ == s,
                ascending(s),
                i <= s.len(),
                forall|j: int| 0 <= j < i ==> s[j].0 < k,
            decreases s.len() - i,
        {
            i = i + 1;
        }
        proof {
            lemma_merged_split(s, i as int, f@);
        }
        let ghost rest = s.subrange(i as int, s.len() as int);
        if i < self.entries.len() && self.entries[i].0 == k {
            let (_, c) = self.entries.remove(i);
            let nc = merge_request(c, f);
            self.entries.insert(i, (k, nc));
            assert(rest.drop_first() == s.subrange(i + 1, s.len() as int));
            assert(self@ =~= s.subrange(0, i as int) + (seq![(k, nc@)] + rest.drop_first()));
        } else {
            let empty = ToolCallRequest { id: String::new(), name: String::new(), arguments: String::new() };
            assert(empty@ == empty_call());
            let nc = merge_request(empty, f);
            self.entries.insert(i, (k, nc));
            assert(self@ =~= s.subrange(0, i as int) + (seq![(k, nc@)] + rest));
        }
    }

    /// Hands out the assembled calls in ascending index order and leaves the
    /// accumulator empty.
    pub fn finalize(&mut self) -> (r: Vec<ToolCallRequest>)
        requires
            old(self).wf(),
        ensures
            final(self).wf(),
            final(self)@.len() == 0,
            views_of(r@) == calls_of(old(self)@),
    {
        let mut out: Vec<ToolCallRequest> = Vec::new();
        let ghost s = self@;
        let mut taken: Vec<(u64, ToolCallRequest)> = Vec::new();
        std::mem::swap(&mut taken, &mut self.entries);
        let mut i: usize = 0;
        let n = taken.len();
        while taken.len() > 0
            invariant
                entry_views(taken@) == s.subrange(i as int, s.len() as int),
                i + taken@.len() == s.len(),
                n == s.len(),
                out@.len() == i,
                views_of(out@) == calls_of(s.subrange(0, i as int)),
            decreases taken@.len(),
        {
            let ghost t0 = taken@;
            assert(entry_views(t0)[0] == s[i as int]);
            let ghost o0 = out@;
            let (_, c) = taken.remove(0);
            assert(c == t0[0].1);
            out.push(c);
            assert(out@ == o0.push(c));
            i = i + 1;
            assert(s.subrange(0, i as int) == s.subrange(0, i - 1) + seq![s[i - 1]]);
            assert(taken@ == t0.drop_first());
            assert forall|j: int| 0 <= j < i implies #[trigger] views_of(out@)[j]
                == calls_of(s.subrange(0, i as int))[j] by {
                if j < i - 1 {
                    assert(views_of(o0)[j]
                        == calls_of(s.subrange(0, i - 1))[j]);
                }
            }
            assert(views_of(out@) =~= calls_of(s.subrange(0, i as int)));
            assert forall|j: int| 0 <= j < taken@.len() implies #[trigger] entry_views(taken@)[j]
                == s.subrange(i as int, s.len() as int)[j] by {
                assert(entry_views(t0)[j + 1]
                    == s.subrange(i - 1, s.len() as int)[j + 1]);
            }
            assert(entry_views(taken@) =~= s.subrange(i as int, s.len() as int));
        }
        assert(s.subrange(0, s.len() as int) == s);
        assert(self@ =~= Seq::<(u64, CallView)>::empty());
        out
    }
}

/// A fragment that carries only a piece of argument text.
pub open spec fn arguments_fragment(index: u64, a: Seq<char>) -> FragmentView {
    FragmentView { index, id: None, name: None, arguments: Some(a) }
}

/// Argument text split over two fragments of one index, received in order, leaves the
/// pending calls exactly as the same text received in one fragment.
pub proof fn lemma_argument_fragments_concatenate(
    s: Seq<(u64, CallView)>,
    index: u64,
    a: Seq<char>,
    b: Seq<char>,
)
    ensures
        merged(merged(s, arguments_fragment(index, a)), arguments_fragment(index, b))
            == merged(s, arguments_fragment(index, a + b)),
    decreases s.len(),
{
    let fa = arguments_fragment(index, a);
    let fb = arguments_fragment(index, b);
    let fab = arguments_fragment(index, a + b);
    if s.len() == 0 || s[0].0 >= index {
        let c = if s.len() > 0 && s[0].0 == index { s[0].1 } else { empty_call() };
        let rest = if s.len() > 0 && s[0].0 == index { s.drop_first() } else { s };
        assert(merged(s, fa) == seq![(index, merge_call(c, fa))] + rest);
        assert((seq![(index, merge_call(c, fa))] + rest).drop_first() == rest);
        assert(c.arguments + a + b == c.arguments + (a + b));
        assert(merge_call(merge_call(c, fa), fb) == merge_call(c, fab));
    } else {
        lemma_argument_fragments_concatenate(s.drop_first(), index, a, b);
        let m = merged(s.drop_first(), fa);
        assert((seq![s[0]] + m).drop_first() == m);
    }
}

} // verus!
