//! Tool output too large for a message is moved to a file and replaced by a short note.
use vstd::prelude::*;
use crate::text::{
    append_chars, append_str, byte_len, byte_prefix, chars_of, count_lines, decimal, exceeds,
    fit_prefix, lemma_byte_len_bounds, lemma_byte_len_concat, lemma_decimal_len, lemma_fit_prefix_fits,
    lemma_line_count_bound, line_count, push_decimal, string_of,
};

verus! {

/// Bytes of output a message may hold as it is.
pub const SPILL_THRESHOLD: usize = 32768;

/// Bytes of a large output kept when it cannot be saved, leaving room for the warning.
pub const FALLBACK_ROOM: usize = 32256;

/// Characters of a spilled output shown in its note.
pub const PREVIEW_CHARS: usize = 2000;

/// The first characters of a text, at most `PREVIEW_CHARS` of them.
pub open spec fn preview(t: Seq<char>) -> Seq<char> {
    if t.len() <= PREVIEW_CHARS { t } else { t.subrange(0, PREVIEW_CHARS as int) }
}

/// The note that stands for a text saved to `path`.
pub open spec fn spill_note(t: Seq<char>, path: Seq<char>) -> Seq<char> {
    "[Output too large for the conversation: "@ + decimal(byte_len(t)) + " bytes, "@
        + decimal(line_count(t)) + " lines. The full text was saved to "@ + path
        + ". Read it in chunks with the read_file tool (offset and limit), or search it.]\nPreview of the first 2000 characters:\n"@
        + preview(t)
}

/// What stands for a large text that could not be saved.
pub open spec fn spill_fallback(t: Seq<char>) -> Seq<char> {
    fit_prefix(t, FALLBACK_ROOM as nat)
        + "\n[Warning: output truncated to 32256 bytes; saving the full text to a file failed.]"@
}

/// The message text for a tool's output: the output itself when small enough, else the
/// note pointing at the file it was saved to, or when saving failed a cut excerpt.
pub open spec fn spilled(t: Seq<char>, path: Seq<char>, saved: bool) -> Seq<char> {
    if byte_len(t) <= SPILL_THRESHOLD {
        t
    } else if saved {
        spill_note(t, path)
    } else {
        spill_fallback(t)
    }
}

/// Whether a text must be saved to a file rather than sent as it is.
pub fn needs_spill(text: &str) -> (r: bool)
    ensures
        r == (byte_len(text@) > SPILL_THRESHOLD),
{
    exceeds(text, SPILL_THRESHOLD)
}

/// The text to put in the message for `text`; `saved` tells whether the full text was
/// written to `path`.
pub fn spill_if_large(text: &str, path: &str, saved: bool) -> (r: String)
    requires
        byte_len(text@) <= usize::MAX,
    ensures
        r@ == spilled(text@, path@, saved),
{
    if !needs_spill(text) {
        return text.to_owned();
    }
    if !saved {
        let mut out = byte_prefix(text, FALLBACK_ROOM);
        append_str(&mut out, "\n[Warning: output truncated to 32256 bytes; saving the full text to a file failed.]");
        return string_of(&out);
    }
    let cs = chars_of(text);
    let mut out: Vec<char> = Vec::new();
    append_str(&mut out, "[Output too large for the conversation: ");
    push_decimal(&mut out, text.len() as u64);
    append_str(&mut out, " bytes, ");
    push_decimal(&mut out, count_lines(&cs) as u64);
    append_str(&mut out, " lines. The full text was saved to ");
    append_str(&mut out, path);
    append_str(&mut out, ". Read it in chunks with the read_file tool (offset and limit), or search it.]\nPreview of the first 2000 characters:\n");
    let n = if cs.len() <= PREVIEW_CHARS { cs.len() } else { PREVIEW_CHARS };
    let mut head: Vec<char> = Vec::new();
    let mut i: usize = 0;
    while i < n
        invariant
            n <= cs@.len(),
            i <= n,
            head@ == cs@.subrange(0, i as int),
        decreases n - i,
    {
        head.push(cs[i]);
        i = i + 1;
    }
    assert(cs@.subrange(0, cs@.len() as int) == cs@);
    append_chars(&mut out, &head);
    string_of(&out)
}

/// What replaces a large output always fits under the threshold, so running the rule
/// again on its own result changes nothing; text already small enough comes back as it is.
pub proof fn lemma_spill_idempotent(t: Seq<char>, path: Seq<char>, saved: bool, path2: Seq<char>, saved2: bool)
    requires
        byte_len(t) <= usize::MAX,
        byte_len(path) <= 16384,
    ensures
        byte_len(spilled(t, path, saved)) <= SPILL_THRESHOLD,
        spilled(spilled(t, path, saved), path2, saved2) == spilled(t, path, saved),
        byte_len(t) <= SPILL_THRESHOLD ==> spilled(t, path, saved) == t,
        byte_len(t) > SPILL_THRESHOLD ==> spilled(t, path, saved) != t,
{
    if byte_len(t) > SPILL_THRESHOLD {
        if saved {
            lemma_note_fits(t, path);
        } else {
            let w = "\n[Warning: output truncated to 32256 bytes; saving the full text to a file failed.]"@;
            reveal_strlit("\n[Warning: output truncated to 32256 bytes; saving the full text to a file failed.]");
            lemma_fit_prefix_fits(t, FALLBACK_ROOM as nat);
            lemma_byte_len_bounds(w);
            lemma_byte_len_concat(fit_prefix(t, FALLBACK_ROOM as nat), w);
        }
    }
}

proof fn lemma_note_fits(t: Seq<char>, path: Seq<char>)
    requires
        byte_len(t) <= usize::MAX,
        byte_len(path) <= 16384,
    ensures
        byte_len(spill_note(t, path)) <= 28000,
{
    let l1 = "[Output too large for the conversation: "@;
    let l2 = " bytes, "@;
    let l3 = " lines. The full text was saved to "@;
    let l4 = ". Read it in chunks with the read_file tool (offset and limit), or search it.]\nPreview of the first 2000 characters:\n"@;
    reveal_strlit("[Output too large for the conversation: ");
    reveal_strlit(" bytes, ");
    reveal_strlit(" lines. The full text was saved to ");
    reveal_strlit(". Read it in chunks with the read_file tool (offset and limit), or search it.]\nPreview of the first 2000 characters:\n");
    let d1 = decimal(byte_len(t));
    let d2 = decimal(line_count(t));
    let p = preview(t);
    lemma_byte_len_bounds(t);
    lemma_line_count_bound(t);
    lemma_decimal_len(byte_len(t));
    lemma_decimal_len(line_count(t));
    lemma_byte_len_bounds(l1);
    lemma_byte_len_bounds(l2);
    lemma_byte_len_bounds(l3);
    lemma_byte_len_bounds(l4);
    lemma_byte_len_bounds(d1);
    lemma_byte_len_bounds(d2);
    lemma_byte_len_bounds(p);
    let s1 = l1 + d1;
    let s2 = s1 + l2;
    let s3 = s2 + d2;
    let s4 = s3 + l3;
    let s5 = s4 + path;
    let s6 = s5 + l4;
    let s7 = s6 + p;
    lemma_byte_len_concat(l1, d1);
    lemma_byte_len_concat(s1, l2);
    lemma_byte_len_concat(s2, d2);
    lemma_byte_len_concat(s3, l3);
    lemma_byte_len_concat(s4, path);
    lemma_byte_len_concat(s5, l4);
    lemma_byte_len_concat(s6, p);
    assert(spill_note(t, path) == s7);
}

} // verus!
