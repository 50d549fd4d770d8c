//! What the file-reading tool shows of a file's text: numbered lines, a chunk of them,
//! or the lines around each match of a search.
use vstd::prelude::*;
use crate::json::Json;
use crate::text::{
    append_chars, append_str, chars_of, decimal, has_infix, line_texts, lines_of, push_decimal, split_lines,
    string_of, contains, lower_of, lowercase,
};
use crate::tools::ReadFileTool;

verus! {

/// A number right-aligned in four columns.
pub open spec fn padded(n: nat) -> Seq<char> {
    let d = decimal(n);
    if d.len() < 4 { Seq::new((4 - d.len()) as nat, |i: int| ' ') + d } else { d }
}

/// A line under its number: `  42: text`.
pub open spec fn numbered(n: nat, line: Seq<char>) -> Seq<char> {
    padded(n) + ": "@ + line + "\n"@
}

/// Lines `a` up to `b` (from 0), each numbered from 1.
pub open spec fn numbered_lines(ls: Seq<Seq<char>>, a: nat, b: nat) -> Seq<char>
    decreases b,
{
    if b <= a || b > ls.len() { Seq::empty() } else { numbered_lines(ls, a, (b - 1) as nat) + numbered(b, ls[b - 1]) }
}

/// Chunked reading: from line `offset` (counted from 1), at most `limit` lines.
pub open spec fn chunk_report(content: Seq<char>, offset: Option<u64>, limit: Option<u64>) -> Seq<char> {
    let ls = lines_of(content);
    let total = ls.len();
    let start: nat = match offset {
        Some(o) => if o >= 1 { (o - 1) as nat } else { 0 },
        None => 0,
    };
    if start >= total {
        "Offset "@ + decimal(start + 1) + " exceeds file length ("@ + decimal(total) + " lines)"@
    } else {
        let end: nat = match limit {
            Some(l) => if start + l < total { (start + l) as nat } else { total },
            None => total,
        };
        let header = if start > 0 || limit is Some {
            "Lines "@ + decimal(start + 1) + "-"@ + decimal(end) + " of "@ + decimal(total) + " total:\n\n"@
        } else {
            Seq::empty()
        };
        header + numbered_lines(ls, start, end)
    }
}

/// The line with its number, marked `>` when it is the matching one.
pub open spec fn marked(i: nat, m: nat, line: Seq<char>) -> Seq<char> {
    (if i == m { ">"@ } else { " "@ }) + " "@ + padded(i + 1) + ": "@ + line + "\n"@
}

pub open spec fn marked_lines(ls: Seq<Seq<char>>, m: nat, a: nat, b: nat) -> Seq<char>
    decreases b,
{
    if b <= a || b > ls.len() { Seq::empty() } else { marked_lines(ls, m, a, (b - 1) as nat) + marked((b - 1) as nat, m, ls[b - 1]) }
}

/// Where a search has got to: the first line not shown yet, and what it has written.
pub ghost struct SearchView {
    pub next: nat,
    pub any: bool,
    pub out: Seq<char>,
}

/// One match shown with `ctx` lines around it; lines already shown are not repeated,
/// and a gap since the last shown line is marked.
pub open spec fn show_match(ls: Seq<Seq<char>>, ctx: nat, st: SearchView, m: nat) -> SearchView {
    let start: nat = if m >= ctx { (m - ctx) as nat } else { 0 };
    let end: nat = if m + ctx + 1 < ls.len() { m + ctx + 1 } else { ls.len() };
    let sep = if st.any && start > st.next { "  ...\n"@ } else { Seq::empty() };
    let from: nat = if start > st.next { start } else { st.next };
    SearchView {
        next: if end > st.next { end } else { st.next },
        any: true,
        out: st.out + sep + marked_lines(ls, m, from, end),
    }
}

/// The indices of the first `n` lines that contain the term, ignoring case.
pub open spec fn matches_upto(ls: Seq<Seq<char>>, term: Seq<char>, n: nat) -> Seq<nat>
    decreases n,
{
    if n == 0 || n > ls.len() {
        Seq::empty()
    } else {
        matches_upto(ls, term, (n - 1) as nat) + if has_infix(lower_of(ls[n - 1]), lower_of(term)) {
            seq![(n - 1) as nat]
        } else {
            Seq::empty()
        }
    }
}

pub open spec fn show_matches(ls: Seq<Seq<char>>, ctx: nat, ms: Seq<nat>) -> SearchView
    decreases ms.len(),
{
    if ms.len() == 0 {
        SearchView { next: 0, any: false, out: Seq::empty() }
    } else {
        show_match(ls, ctx, show_matches(ls, ctx, ms.drop_last()), ms.last())
    }
}

/// Search mode: every line holding the term, with `ctx` lines of context.
pub open spec fn search_report(path: Seq<char>, content: Seq<char>, term: Seq<char>, ctx: nat) -> Seq<char> {
    let ls = lines_of(content);
    let ms = matches_upto(ls, term, ls.len());
    if ms.len() == 0 {
        "No matches found for '"@ + term + "' in "@ + path
    } else {
        "Found "@ + decimal(ms.len()) + " match(es) for '"@ + term + "' in "@ + path + ":\n\n"@
            + show_matches(ls, ctx, ms).out
    }
}

fn push_padded(out: &mut Vec<char>, n: u64)
    ensures
        final(out)@ == old(out)@ + padded(n as nat),
{
    let mut d: Vec<char> = Vec::new();
    push_decimal(&mut d, n);
    assert(d@ =~= decimal(n as nat));
    let mut k: usize = d.len();
    while k < 4
        invariant
            d@.len() <= k <= 4 || (k == d@.len() && k >= 4),
            out@ == old(out)@ + Seq::new((k - d@.len()) as nat, |i: int| ' '),
        decreases 4 - k,
    {
        out.push(' ');
        k = k + 1;
        assert(out@ =~= old(out)@ + Seq::new((k - d@.len()) as nat, |i: int| ' '));
    }
    append_chars(out, &d);
    assert(out@ =~= old(out)@ + padded(n as nat));
}

fn push_numbered(out: &mut Vec<char>, n: u64, line: &Vec<char>)
    ensures
        final(out)@ == old(out)@ + numbered(n as nat, line@),
{
    push_padded(out, n);
    append_str(out, ": ");
    append_chars(out, line);
    append_str(out, "\n");
    assert(out@ =~= old(out)@ + numbered(n as nat, line@));
}

fn push_marked(out: &mut Vec<char>, i: usize, m: usize, line: &Vec<char>)
    requires
        i < usize::MAX,
    ensures
        final(out)@ == old(out)@ + marked(i as nat, m as nat, line@),
{
    if i == m { append_str(out, ">"); } else { append_str(out, " "); }
    append_str(out, " ");
    push_padded(out, (i + 1) as u64);
    append_str(out, ": ");
    append_chars(out, line);
    append_str(out, "\n");
    assert(out@ =~= old(out)@ + marked(i as nat, m as nat, line@));
}

impl ReadFileTool {
    /// A chunk of the file's lines, numbered.
    pub fn chunk(content: &str, offset: Option<u64>, limit: Option<u64>) -> (r: String)
        ensures
            r@ == chunk_report(content@, offset, limit),
    {
        let cs = chars_of(content);
        let lines = split_lines(&cs);
        let ghost ls = line_texts(lines@);
        assert(ls.len() == lines@.len());
        let total = lines.len();
        let start: usize = match offset {
            Some(o) => if o >= 1 { if o - 1 < total as u64 { (o - 1) as usize } else { total } } else { 0 },
            None => 0,
        };
        let mut out: Vec<char> = Vec::new();
        if start >= total {
            append_str(&mut out, "Offset ");
            match offset {
                Some(o) => if o >= 1 { push_decimal(&mut out, o) } else { push_decimal(&mut out, 1) },
                None => push_decimal(&mut out, 1),
            }
            append_str(&mut out, " exceeds file length (");
            push_decimal(&mut out, total as u64);
            append_str(&mut out, " lines)");
            return string_of(&out);
        }
        let end: usize = match limit {
            Some(l) => if l < (total - start) as u64 { start + l as usize } else { total },
            None => total,
        };
        if start > 0 || limit.is_some() {
            append_str(&mut out, "Lines ");
            push_decimal(&mut out, (start + 1) as u64);
            append_str(&mut out, "-");
            push_decimal(&mut out, end as u64);
            append_str(&mut out, " of ");
            push_decimal(&mut out, total as u64);
            append_str(&mut out, " total:\n\n");
        }
        let ghost header = out@;
        let mut i: usize = start;
        while i < end
            invariant
                start <= i <= end,
                end <= total,
                total == lines@.len(),
                ls == line_texts(lines@),
                out@ == header + numbered_lines(ls, start as nat, i as nat),
            decreases end - i,
        {
            push_numbered(&mut out, (i + 1) as u64, &lines[i]);
            i = i + 1;
        }
        string_of(&out)
    }
}

pub open spec fn as_nats(v: Seq<usize>) -> Seq<nat> {
    v.map_values(|x: usize| x as nat)
}

fn show_one(body: &mut Vec<char>, lines: &Vec<Vec<char>>, ctx: u64, m: usize, next: usize, any: bool) -> (r: usize)
    requires
        m < lines@.len(),
    ensures
        ({
            let st = show_match(line_texts(lines@), ctx as nat, SearchView { next: next as nat, any, out: old(body)@ }, m as nat);
            &&& final(body)@ == st.out
            &&& r as nat == st.next
        }),
{
    let ghost ls = line_texts(lines@);
    let total = lines.len();
    let start: usize = if m as u64 >= ctx { (m as u64 - ctx) as usize } else { 0 };
    let rem = (total - m - 1) as u64;
    let end: usize = if ctx < rem { m + 1 + ctx as usize } else { total };
    if any && start > next {
        append_str(body, "  ...\n");
    }
    let ghost b0 = body@;
    let from = if start > next { start } else { next };
    let mut i: usize = from;
    while i < end
        invariant
            from <= i,
            i <= end || i == from,
            end <= total,
            total == lines@.len(),
            ls == line_texts(lines@),
            body@ == b0 + marked_lines(ls, m as nat, from as nat, i as nat),
        decreases end - i,
    {
        push_marked(body, i, m, &lines[i]);
        i = i + 1;
    }
    proof {
        if end <= from {
            assert(marked_lines(ls, m as nat, from as nat, from as nat) == Seq::<char>::empty());
            assert(marked_lines(ls, m as nat, from as nat, end as nat) == Seq::<char>::empty());
            assert(body@ =~= b0 + marked_lines(ls, m as nat, from as nat, end as nat));
        }
    }
    if end > next { end } else { next }
}

impl ReadFileTool {
    /// Every line holding `term` (ignoring case), with `ctx` lines around each.
    pub fn search(path: &str, content: &str, term: &str, ctx: u64) -> (r: String)
        ensures
            r@ == search_report(path@, content@, term@, ctx as nat),
    {
        let cs = chars_of(content);
        let lines = split_lines(&cs);
        let ghost ls = line_texts(lines@);
        assert(ls.len() == lines@.len());
        let low_term = lowercase(term);
        let mut ms: Vec<usize> = Vec::new();
        let mut i: usize = 0;
        while i < lines.len()
            invariant
                i <= lines@.len(),
                ls == line_texts(lines@),
                low_term@ == lower_of(term@),
                as_nats(ms@) == matches_upto(ls, term@, i as nat),
                forall|k: int| 0 <= k < ms@.len() ==> ms@[k] < i,
            decreases lines@.len() - i,
        {
            let line = string_of(&lines[i]);
            let low = lowercase(line.as_str());
            if contains(low.as_str(), low_term.as_str()) {
                ms.push(i);
            }
            assert(as_nats(ms@) =~= matches_upto(ls, term@, (i + 1) as nat));
            i = i + 1;
        }
        let mut out: Vec<char> = Vec::new();
        if ms.len() == 0 {
            append_str(&mut out, "No matches found for '");
            append_str(&mut out, term);
            append_str(&mut out, "' in ");
            append_str(&mut out, path);
            return string_of(&out);
        }
        let mut body: Vec<char> = Vec::new();
        let mut next: usize = 0;
        let mut any = false;
        let mut j: usize = 0;
        assert(as_nats(ms@).subrange(0, 0) =~= Seq::<nat>::empty());
        while j < ms.len()
            invariant
                j <= ms@.len(),
                ls == line_texts(lines@),
                as_nats(ms@) == matches_upto(ls, term@, lines@.len() as nat),
                forall|k: int| 0 <= k < ms@.len() ==> ms@[k] < lines@.len(),
                (SearchView { next: next as nat, any, out: body@ }) == show_matches(ls, ctx as nat, as_nats(ms@).subrange(0, j as int)),
            decreases ms@.len() - j,
        {
            assert(as_nats(ms@).subrange(0, j + 1).drop_last() == as_nats(ms@).subrange(0, j as int));
            next = show_one(&mut body, &lines, ctx, ms[j], next, any);
            any = true;
            j = j + 1;
        }
        assert(as_nats(ms@).subrange(0, ms@.len() as int) == as_nats(ms@));
        append_str(&mut out, "Found ");
        push_decimal(&mut out, ms.len() as u64);
        append_str(&mut out, " match(es) for '");
        append_str(&mut out, term);
        append_str(&mut out, "' in ");
        append_str(&mut out, path);
        append_str(&mut out, ":\n\n");
        append_chars(&mut out, &body);
        string_of(&out)
    }
}

/// Lines of context shown around a match when the arguments name none.
pub const DEFAULT_CONTEXT: u64 = 6;

/// What the tool shows for its arguments: a search when `search` is given, else a chunk.
pub open spec fn read_report(path: Seq<char>, content: Seq<char>, args: Json) -> Seq<char> {
    match args.field_str("search"@) {
        Some(term) => search_report(path, content, term, match args.field_u64("context_lines"@) {
            Some(c) => c as nat,
            None => DEFAULT_CONTEXT as nat,
        }),
        None => chunk_report(content, args.field_u64("offset"@), args.field_u64("limit"@)),
    }
}

impl ReadFileTool {
    /// The tool's answer for a file's text, given the call's arguments.
    pub fn show(path: &str, content: &str, args: &Json) -> (r: String)
        ensures
            r@ == read_report(path@, content@, *args),
    {
        match args.get_str("search") {
            Some(term) => {
                let ctx = match args.get_u64("context_lines") {
                    Some(c) => c,
                    None => DEFAULT_CONTEXT,
                };
                ReadFileTool::search(path, content, term, ctx)
            },
            None => ReadFileTool::chunk(content, args.get_u64("offset"), args.get_u64("limit")),
        }
    }
}

} // verus!
