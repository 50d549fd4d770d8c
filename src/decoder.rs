//! Incremental decoding of a streamed response body into events, folded into a turn.
//!
//! The decoder is specified byte by byte: its state after any sequence of chunks is a
//! function of the bytes received, whatever the chunk boundaries were.
use vstd::prelude::*;
use crate::accumulator::{calls_of, views_of, ToolCallRequest};
use crate::adapter::{apply_event, Provider, Turn, TurnView};
use crate::json::{parse_json, parsed_json};
use crate::text::{decode_lossy, lossy_text, text_eq, trim, trimmed};

verus! {

/// How events are delimited in the body.
#[derive(PartialEq, Eq, Structural, Clone, Copy, Debug)]
pub enum Framing {
    /// Server-sent events: `data: <json>` lines, ended by `data: [DONE]`.
    DataLines,
    /// Bare JSON objects, each ending in `}` and a line break.
    Braces,
}

pub ghost struct DecoderView {
    /// Bytes of the unit not yet complete.
    pub pending: Seq<u8>,
    /// Whether the end-of-stream sentinel has been seen.
    pub done: bool,
    pub turn: TurnView,
}

/// The bytes `data: `.
pub open spec fn data_prefix() -> Seq<u8> {
    seq![100u8, 97u8, 116u8, 97u8, 58u8, 32u8]
}

/// The state after one complete line of a data-lines body (the line without its break).
/// Other lines are ignored; `[DONE]` ends the stream; a payload that is not JSON is
/// skipped.
pub open spec fn data_line(p: Provider, d: DecoderView, line: Seq<u8>) -> DecoderView {
    if line.len() >= 6 && line.subrange(0, 6) == data_prefix() {
        let payload = trimmed(lossy_text(line.subrange(6, line.len() as int)));
        if payload == "[DONE]"@ {
            DecoderView { done: true, ..d }
        } else if payload.len() == 0 {
            d
        } else {
            match parsed_json(payload) {
                Some(v) => DecoderView { turn: apply_event(p, d.turn, v), ..d },
                None => d,
            }
        }
    } else {
        d
    }
}

/// The state after one more byte.
pub open spec fn step(p: Provider, f: Framing, d: DecoderView, b: u8) -> DecoderView {
    if d.done {
        d
    } else {
        match f {
            Framing::DataLines => if b == 10u8 {
                data_line(p, DecoderView { pending: Seq::empty(), ..d }, d.pending)
            } else {
                DecoderView { pending: d.pending.push(b), ..d }
            },
            Framing::Braces => {
                let unit = d.pending.push(b);
                if b == 10u8 && d.pending.len() > 0 && d.pending.last() == 125u8 {
                    match parsed_json(lossy_text(unit)) {
                        Some(v) => DecoderView {
                            pending: Seq::empty(),
                            turn: apply_event(p, d.turn, v),
                            ..d
                        },
                        None => DecoderView { pending: unit, ..d },
                    }
                } else {
                    DecoderView { pending: unit, ..d }
                }
            },
        }
    }
}

/// The state after a run of bytes.
pub open spec fn feed_bytes(p: Provider, f: Framing, d: DecoderView, bytes: Seq<u8>) -> DecoderView
    decreases bytes.len(),
{
    if bytes.len() == 0 {
        d
    } else {
        step(p, f, feed_bytes(p, f, d, bytes.drop_last()), bytes.last())
    }
}

/// The state after a run of chunks, fed in order.
pub open spec fn feed_chunks(p: Provider, f: Framing, d: DecoderView, chunks: Seq<Seq<u8>>) -> DecoderView
    decreases chunks.len(),
{
    if chunks.len() == 0 {
        d
    } else {
        feed_chunks(p, f, feed_bytes(p, f, d, chunks[0]), chunks.drop_first())
    }
}

/// The state before any byte.
pub open spec fn initial(p: Provider) -> DecoderView {
    DecoderView {
        pending: Seq::empty(),
        done: false,
        turn: TurnView {
            text: Seq::empty(),
            role: if p == Provider::Gemini { "model"@ } else { Seq::empty() },
            calls: Seq::empty(),
        },
    }
}

/// The role a finished turn reports: the one captured, else `assistant`.
pub open spec fn final_role(t: TurnView) -> Seq<char> {
    if t.role.len() == 0 { "assistant"@ } else { t.role }
}

/// What a finished turn hands back.
pub struct StreamOutcome {
    pub role: String,
    pub text: String,
    /// The finalized tool calls in ascending stream index order.
    pub tool_calls: Vec<ToolCallRequest>,
}

/// Decodes one response body, chunk by chunk.
pub struct StreamDecoder {
    provider: Provider,
    framing: Framing,
    pending: Vec<u8>,
    done: bool,
    turn: Turn,
}

impl View for StreamDecoder {
    type V = DecoderView;

    closed spec fn view(&self) -> DecoderView {
        DecoderView { pending: self.pending@, done: self.done, turn: self.turn@ }
    }
}

impl StreamDecoder {
    pub closed spec fn wf(&self) -> bool {
        self.turn.wf()
    }

    pub closed spec fn provider(&self) -> Provider {
        self.provider
    }

    pub closed spec fn framing(&self) -> Framing {
        self.framing
    }

    pub fn new(p: Provider, f: Framing) -> (r: StreamDecoder)
        ensures
            r.wf(),
            r.provider() == p,
            r.framing() == f,
            r@ == initial(p),
    {
        let r = StreamDecoder { provider: p, framing: f, pending: Vec::new(), done: false, turn: Turn::new(p) };
        assert(r@.turn.text =~= Seq::<char>::empty());
        assert(r@.turn.calls =~= initial(p).turn.calls);
        assert(r@.pending =~= Seq::<u8>::empty());
        assert(r@.turn.role =~= initial(p).turn.role);
        r
    }

    fn on_line(&mut self, line: Vec<u8>)
        requires
            old(self).wf(),
        ensures
            final(self).wf(),
            final(self).provider == old(self).provider,
            final(self).framing == old(self).framing,
            final(self)@ == data_line(old(self).provider, old(self)@, line@),
    {
        let ghost l = line@;
        if line.len() >= 6 && line[0] == 100u8 && line[1] == 97u8 && line[2] == 116u8 && line[3] == 97u8
            && line[4] == 58u8 && line[5] == 32u8 {
            assert(l.subrange(0, 6) =~= data_prefix());
            let mut line = line;
            let rest = line.split_off(6);
            let text = decode_lossy(rest.as_slice());
            let payload = trim(text.as_str());
            if text_eq(payload, "[DONE]") {
                self.done = true;
            } else if !payload.is_empty() {
                if let Some(v) = parse_json(payload) {
                    self.turn.apply_event(self.provider, &v);
                }
            }
        } else {
            proof {
                if l.len() >= 6 && l.subrange(0, 6) == data_prefix() {
                    assert(l[0] == l.subrange(0, 6)[0]);
                    assert(l[1] == l.subrange(0, 6)[1]);
                    assert(l[2] == l.subrange(0, 6)[2]);
                    assert(l[3] == l.subrange(0, 6)[3]);
                    assert(l[4] == l.subrange(0, 6)[4]);
                    assert(l[5] == l.subrange(0, 6)[5]);
                }
            }
        }
    }

    fn on_byte(&mut self, b: u8)
        requires
            old(self).wf(),
        ensures
            final(self).wf(),
            final(self).provider == old(self).provider,
            final(self).framing == old(self).framing,
            final(self)@ == step(old(self).provider, old(self).framing, old(self)@, b),
    {
        if self.done {
            return;
        }
        match self.framing {
            Framing::DataLines => {
                if b == 10u8 {
                    let mut line: Vec<u8> = Vec::new();
                    std::mem::swap(&mut line, &mut self.pending);
                    assert(self.pending@ =~= Seq::<u8>::empty());
                    self.on_line(line);
                } else {
                    self.pending.push(b);
                }
            },
            Framing::Braces => {
                let n = self.pending.len();
                let closes = b == 10u8 && n > 0 && self.pending[n - 1] == 125u8;
                self.pending.push(b);
                if closes {
                    let text = decode_lossy(self.pending.as_slice());
                    if let Some(v) = parse_json(text.as_str()) {
                        self.turn.apply_event(self.provider, &v);
                        self.pending.clear();
                        assert(self.pending@ =~= Seq::<u8>::empty());
                    }
                }
            },
        }
    }

    /// Takes in the next chunk of the body; complete units are decoded and folded into
    /// the turn, the rest waits for more bytes.
    pub fn feed(&mut self, chunk: &[u8])
        requires
            old(self).wf(),
        ensures
            final(self).wf(),
            final(self).provider() == old(self).provider(),
            final(self).framing() == old(self).framing(),
            final(self)@ == feed_bytes(old(self).provider(), old(self).framing(), old(self)@, chunk@),
    {
        let ghost d0 = self@;
        let mut i: usize = 0;
        while i < chunk.len()
            invariant
                self.wf(),
                self.provider == old(self).provider,
                self.framing == old(self).framing,
                i <= chunk@.len(),
                self@ == feed_bytes(self.provider, self.framing, d0, chunk@.subrange(0, i as int)),
            decreases chunk@.len() - i,
        {
            assert(chunk@.subrange(0, i + 1).drop_last() == chunk@.subrange(0, i as int));
            self.on_byte(chunk[i]);
            i = i + 1;
        }
        assert(chunk@.subrange(0, chunk@.len() as int) == chunk@);
    }

    /// Whether the end-of-stream sentinel has arrived.
    pub fn is_done(&self) -> (r: bool)
        ensures
            r == self@.done,
    {
        self.done
    }

    /// The text received so far.
    pub fn text(&self) -> (r: &str)
        ensures
            r@ == self@.turn.text,
    {
        self.turn.text.as_str()
    }

    /// Ends the turn: the captured role (or `assistant`), the text, and the tool calls
    /// drained in ascending index order. Bytes of an incomplete unit are dropped.
    pub fn finish(self) -> (r: StreamOutcome)
        requires
            self.wf(),
        ensures
            r.role@ == final_role(self@.turn),
            r.text@ == self@.turn.text,
            views_of(r.tool_calls@) == calls_of(self@.turn.calls),
    {
        let StreamDecoder { provider: _, framing: _, pending: _, done: _, turn } = self;
        let Turn { text, role, calls } = turn;
        let mut calls = calls;
        let tool_calls = calls.finalize();
        let role = if role.as_str().is_empty() { "assistant".to_owned() } else { role };
        StreamOutcome { role, text, tool_calls }
    }
}

/// Feeding two runs of bytes one after the other is feeding their concatenation.
pub proof fn lemma_feed_bytes_append(p: Provider, f: Framing, d: DecoderView, a: Seq<u8>, b: Seq<u8>)
    ensures
        feed_bytes(p, f, d, a + b) == feed_bytes(p, f, feed_bytes(p, f, d, a), b),
    decreases b.len(),
{
    if b.len() == 0 {
        assert(a + b == a);
    } else {
        lemma_feed_bytes_append(p, f, d, a, b.drop_last());
        assert((a + b).drop_last() == a + b.drop_last());
        assert((a + b).last() == b.last());
    }
}

/// Chunk-boundary invariance: the decoder's state, and so the text, role and finalized
/// tool calls of the turn, after a body split into any chunks is the state after the
/// same bytes delivered as one chunk.
pub proof fn lemma_chunk_boundaries_invisible(p: Provider, f: Framing, d: DecoderView, chunks: Seq<Seq<u8>>)
    ensures
        feed_chunks(p, f, d, chunks) == feed_bytes(p, f, d, chunks.flatten()),
        calls_of(feed_chunks(p, f, d, chunks).turn.calls) == calls_of(feed_bytes(p, f, d, chunks.flatten()).turn.calls),
    decreases chunks.len(),
{
    if chunks.len() == 0 {
        assert(chunks.flatten() =~= Seq::<u8>::empty());
    } else {
        lemma_chunk_boundaries_invisible(p, f, feed_bytes(p, f, d, chunks[0]), chunks.drop_first());
        lemma_feed_bytes_append(p, f, d, chunks[0], chunks.drop_first().flatten());
        assert(chunks.flatten() == chunks[0] + chunks.drop_first().flatten());
    }
}

} // verus!
