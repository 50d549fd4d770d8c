//! What an edit of a file's text produces: the new text and the report, or the reason
//! the edit is refused.
use vstd::prelude::*;
use crate::json::Json;
use crate::tools::EditFileTool;
use crate::text::{
    append_chars, append_str, chars_of, contains, count_matches, decimal, has_infix, line_texts, lines_of,
    occurrences, push_decimal, replace_all, replace_first, replaced, replaced_first, split_lines, string_of,
    text_eq, trim, trimmed,
};

verus! {

/// A successful edit: the file's new text and the report for the model.
#[derive(Debug)]
pub struct Edited {
    pub content: String,
    pub message: String,
}

pub open spec fn quoted(path: Seq<char>) -> Seq<char> {
    "'"@ + path + "'"@
}

/// Search-and-replace: the first occurrence, or every one, of `old` becomes `new`.
pub open spec fn replacement_result(path: Seq<char>, content: Seq<char>, old: Seq<char>, new: Seq<char>, all: bool)
    -> Result<(Seq<char>, Seq<char>), Seq<char>>
{
    if old == new {
        Err("old_string and new_string are identical \u{2014} no change needed."@)
    } else if !has_infix(content, old) {
        if trimmed(old).len() > 0 && has_infix(content, trimmed(old)) {
            Err("Exact match not found for old_string, but a match was found ignoring leading/trailing whitespace. Make sure old_string matches the file content exactly, including indentation. Use read_file to see the exact content."@)
        } else {
            Err("old_string not found in "@ + quoted(path) + ". Use read_file to verify the exact content you want to replace."@)
        }
    } else if all {
        Ok((replaced(content, old, new),
            "Replaced all "@ + decimal(occurrences(content, old)) + " occurrence(s) of the specified text in "@ + quoted(path) + "."@))
    } else if occurrences(content, old) > 1 {
        Ok((replaced_first(content, old, new),
            "Replaced first occurrence of the specified text in "@ + quoted(path) + ". Note: "@
                + decimal(occurrences(content, old)) + " total occurrences exist; use replace_all=true to replace all."@))
    } else {
        Ok((replaced_first(content, old, new), "Replaced the specified text in "@ + quoted(path) + "."@))
    }
}

/// Each line followed by a break.
pub open spec fn with_breaks(ls: Seq<Seq<char>>) -> Seq<char>
    decreases ls.len(),
{
    if ls.len() == 0 { Seq::empty() } else { with_breaks(ls.drop_last()) + ls.last() + "\n"@ }
}

/// The inserted text, ending in a break unless empty.
pub open spec fn inserted(new: Seq<char>) -> Seq<char> {
    if new.len() == 0 { new } else if new.last() == '\n' { new } else { new + "\n"@ }
}

/// The lines after the range; the last keeps a break only if the file ended in one.
pub open spec fn tail_lines(ls: Seq<Seq<char>>, ends_with_break: bool) -> Seq<char> {
    if ls.len() == 0 || ends_with_break { with_breaks(ls) } else { with_breaks(ls.drop_last()) + ls.last() }
}

/// The change in line count as the report words it.
pub open spec fn difference(before: nat, after: nat) -> Seq<char> {
    if after > before {
        "+"@ + decimal((after - before) as nat) + " lines"@
    } else if after < before {
        "-"@ + decimal((before - after) as nat) + " lines"@
    } else {
        "same line count"@
    }
}

pub open spec fn edited_report(path: Seq<char>, before: Seq<char>, after: Seq<char>) -> Seq<char> {
    "Edited "@ + quoted(path) + ": "@ + decimal(lines_of(before).len()) + " lines -> "@
        + decimal(lines_of(after).len()) + " lines ("@ + difference(lines_of(before).len(), lines_of(after).len()) + ")."@
}

/// Line-range: lines `start` to `end` (from 1, inclusive) become `new`.
pub open spec fn range_result(path: Seq<char>, content: Seq<char>, new: Seq<char>, start: u64, end: u64)
    -> Result<(Seq<char>, Seq<char>), Seq<char>>
{
    let ls = lines_of(content);
    if start == 0 || end == 0 {
        Err("Line numbers are 1-indexed. Use start_line >= 1 and end_line >= 1."@)
    } else if start > ls.len() {
        Err("start_line "@ + decimal(start as nat) + " exceeds file length ("@ + decimal(ls.len()) + " lines)."@)
    } else if end > ls.len() {
        Err("end_line "@ + decimal(end as nat) + " exceeds file length ("@ + decimal(ls.len()) + " lines)."@)
    } else if start > end {
        Err("start_line ("@ + decimal(start as nat) + ") must be <= end_line ("@ + decimal(end as nat) + ")."@)
    } else {
        let result = with_breaks(ls.subrange(0, start - 1)) + inserted(new)
            + tail_lines(ls.subrange(end as int, ls.len() as int), content.len() > 0 && content.last() == '\n');
        Ok((result, edited_report(path, content, result)))
    }
}

pub open spec fn edited_view(r: Result<Edited, String>) -> Result<(Seq<char>, Seq<char>), Seq<char>> {
    match r {
        Ok(e) => Ok((e.content@, e.message@)),
        Err(m) => Err(m@),
    }
}

fn quote_into(out: &mut Vec<char>, path: &str)
    ensures
        final(out)@ == old(out)@ + quoted(path@),
{
    append_str(out, "'");
    append_str(out, path);
    append_str(out, "'");
}

/// Replaces text found in a file's content.
pub fn replace_in(path: &str, content: &str, old: &str, new: &str, all: bool) -> (r: Result<Edited, String>)
    ensures
        edited_view(r) == replacement_result(path@, content@, old@, new@, all),
{
    let mut m: Vec<char> = Vec::new();
    if text_eq(old, new) {
        append_str(&mut m, "old_string and new_string are identical \u{2014} no change needed.");
        return Err(string_of(&m));
    }
    if !contains(content, old) {
        let t = trim(old);
        if !t.is_empty() && contains(content, t) {
            append_str(&mut m, "Exact match not found for old_string, but a match was found ignoring leading/trailing whitespace. Make sure old_string matches the file content exactly, including indentation. Use read_file to see the exact content.");
        } else {
            append_str(&mut m, "old_string not found in ");
            quote_into(&mut m, path);
            append_str(&mut m, ". Use read_file to verify the exact content you want to replace.");
        }
        return Err(string_of(&m));
    }
    let count = count_matches(content, old);
    if all {
        let result = replace_all(content, old, new);
        append_str(&mut m, "Replaced all ");
        push_decimal(&mut m, count as u64);
        append_str(&mut m, " occurrence(s) of the specified text in ");
        quote_into(&mut m, path);
        append_str(&mut m, ".");
        return Ok(Edited { content: result, message: string_of(&m) });
    }
    let result = replace_first(content, old, new);
    if count > 1 {
        append_str(&mut m, "Replaced first occurrence of the specified text in ");
        quote_into(&mut m, path);
        append_str(&mut m, ". Note: ");
        push_decimal(&mut m, count as u64);
        append_str(&mut m, " total occurrences exist; use replace_all=true to replace all.");
    } else {
        append_str(&mut m, "Replaced the specified text in ");
        quote_into(&mut m, path);
        append_str(&mut m, ".");
    }
    Ok(Edited { content: result, message: string_of(&m) })
}

fn push_lines(out: &mut Vec<char>, ls: &Vec<Vec<char>>, a: usize, b: usize)
    requires
        a <= b <= ls@.len(),
    ensures
        final(out)@ == old(out)@ + with_breaks(line_texts(ls@).subrange(a as int, b as int)),
{
    let mut i: usize = a;
    while i < b
        invariant
            a <= i <= b,
            b <= ls@.len(),
            out@ == old(out)@ + with_breaks(line_texts(ls@).subrange(a as int, i as int)),
        decreases b - i,
    {
        let ghost o = out@;
        append_chars(out, &ls[i]);
        out.push('\n');
        assert(line_texts(ls@).subrange(a as int, i + 1).drop_last() == line_texts(ls@).subrange(a as int, i as int));
        assert(out@ =~= o + ls@[i as int]@ + "\n"@) by {
            reveal_strlit("\n");
        }
        i = i + 1;
    }
}

fn line_total_text(out: &mut Vec<char>, n: usize)
    ensures
        final(out)@ == old(out)@ + decimal(n as nat),
{
    push_decimal(out, n as u64);
}

/// Replaces a range of lines of a file's content.
pub fn replace_lines(path: &str, content: &str, new: &str, start: u64, end: u64) -> (r: Result<Edited, String>)
    ensures
        edited_view(r) == range_result(path@, content@, new@, start, end),
{
    let cs = chars_of(content);
    let ls = split_lines(&cs);
    let total = ls.len();
    let mut m: Vec<char> = Vec::new();
    if start == 0 || end == 0 {
        append_str(&mut m, "Line numbers are 1-indexed. Use start_line >= 1 and end_line >= 1.");
        return Err(string_of(&m));
    }
    if start > total as u64 {
        append_str(&mut m, "start_line ");
        push_decimal(&mut m, start as u64);
        append_str(&mut m, " exceeds file length (");
        line_total_text(&mut m, total);
        append_str(&mut m, " lines).");
        return Err(string_of(&m));
    }
    if end > total as u64 {
        append_str(&mut m, "end_line ");
        push_decimal(&mut m, end as u64);
        append_str(&mut m, " exceeds file length (");
        line_total_text(&mut m, total);
        append_str(&mut m, " lines).");
        return Err(string_of(&m));
    }
    if start > end {
        append_str(&mut m, "start_line (");
        push_decimal(&mut m, start as u64);
        append_str(&mut m, ") must be <= end_line (");
        push_decimal(&mut m, end as u64);
        append_str(&mut m, ").");
        return Err(string_of(&m));
    }
    let s = start as usize;
    let e = end as usize;
    let ends_with_break = cs.len() > 0 && cs[cs.len() - 1] == '\n';
    let out = rebuild(&ls, new, s, e, ends_with_break);
    let lines_after = split_lines(&out);
    assert(line_texts(lines_after@).len() == lines_after@.len());
    assert(line_texts(ls@).len() == ls@.len());
    assert(line_texts(ls@).subrange(0, s - 1) == line_texts(ls@).subrange(0, start - 1));
    let result = string_of(&out);
    let msg = report(path, total, lines_after.len());
    Ok(Edited { content: result, message: string_of(&msg) })
}

fn rebuild(ls: &Vec<Vec<char>>, new: &str, s: usize, e: usize, ends_with_break: bool) -> (r: Vec<char>)
    requires
        1 <= s <= e <= ls@.len(),
    ensures
        r@ == with_breaks(line_texts(ls@).subrange(0, s - 1)) + inserted(new@)
            + tail_lines(line_texts(ls@).subrange(e as int, ls@.len() as int), ends_with_break),
{
    let total = ls.len();
    let ghost lv = line_texts(ls@);
    let mut out: Vec<char> = Vec::new();
    push_lines(&mut out, ls, 0, s - 1);
    let nc = chars_of(new);
    let ghost o1 = out@;
    if nc.len() > 0 {
        append_chars(&mut out, &nc);
        if nc[nc.len() - 1] != '\n' {
            out.push('\n');
            assert(out@ =~= o1 + (new@ + "\n"@)) by {
                reveal_strlit("\n");
            }
        }
    }
    assert(out@ == o1 + inserted(new@));
    let ghost o2 = out@;
    if e < total && !ends_with_break {
        push_lines(&mut out, ls, e, total - 1);
        let ghost o3 = out@;
        append_chars(&mut out, &ls[total - 1]);
        assert(out@ == o3 + ls@[total - 1]@);
        assert(lv.subrange(e as int, total as int).drop_last() == lv.subrange(e as int, total - 1));
        assert(lv.subrange(e as int, total as int).last() == ls@[total - 1]@);
    } else {
        push_lines(&mut out, ls, e, total);
    }
    out
}

fn report(path: &str, before: usize, after: usize) -> (r: Vec<char>)
    ensures
        r@ == "Edited "@ + quoted(path@) + ": "@ + decimal(before as nat) + " lines -> "@ + decimal(after as nat)
            + " lines ("@ + difference(before as nat, after as nat) + ")."@,
{
    let mut msg: Vec<char> = Vec::new();
    append_str(&mut msg, "Edited ");
    quote_into(&mut msg, path);
    append_str(&mut msg, ": ");
    push_decimal(&mut msg, before as u64);
    append_str(&mut msg, " lines -> ");
    push_decimal(&mut msg, after as u64);
    append_str(&mut msg, " lines (");
    let ghost o = msg@;
    if after > before {
        append_str(&mut msg, "+");
        push_decimal(&mut msg, (after - before) as u64);
        append_str(&mut msg, " lines");
    } else if after < before {
        append_str(&mut msg, "-");
        push_decimal(&mut msg, (before - after) as u64);
        append_str(&mut msg, " lines");
    } else {
        append_str(&mut msg, "same line count");
    }
    assert(msg@ =~= o + difference(before as nat, after as nat));
    append_str(&mut msg, ").");
    msg
}

/// The edit a call asks for: search-and-replace when `old_string` is given, else the
/// line range `start_line`..`end_line`.
pub open spec fn edit_request(path: Seq<char>, content: Seq<char>, new: Seq<char>, args: Json)
    -> Result<(Seq<char>, Seq<char>), Seq<char>>
{
    match args.field_str("old_string"@) {
        Some(old) => replacement_result(path, content, old, new, args.field("replace_all"@) matches Some(b) && b.bool_value() == Some(true)),
        None => match (args.field_u64("start_line"@), args.field_u64("end_line"@)) {
            (Some(s), Some(e)) => range_result(path, content, new, s, e),
            _ => Err("Must provide either 'old_string' (search-and-replace mode) or both 'start_line' and 'end_line' (line-range mode)."@),
        },
    }
}

impl EditFileTool {
    /// Applies the call's edit to a file's text; `new` is its `new_string` argument.
    pub fn apply(path: &str, content: &str, new: &str, args: &Json) -> (r: Result<Edited, String>)
        ensures
            edited_view(r) == edit_request(path@, content@, new@, *args),
    {
        match args.get_str("old_string") {
            Some(old) => {
                let all = match args.get("replace_all") {
                    Some(b) => b.as_bool() == Some(true),
                    None => false,
                };
                replace_in(path, content, old, new, all)
            },
            None => match (args.get_u64("start_line"), args.get_u64("end_line")) {
                (Some(s), Some(e)) => replace_lines(path, content, new, s, e),
                _ => {
                    let mut m: Vec<char> = Vec::new();
                    append_str(&mut m, "Must provide either 'old_string' (search-and-replace mode) or both 'start_line' and 'end_line' (line-range mode).");
                    Err(string_of(&m))
                },
            },
        }
    }
}

} // verus!
