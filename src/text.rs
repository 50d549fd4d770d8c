//! Text helpers over `char` sequences, with the few std calls they need.
use vstd::prelude::*;
use vstd::utf8::{encode_scalar, encode_utf8};

verus! {

/// Relies on `str::chars` collected into a `Vec`: the characters of the text, in order.
#[verifier::external_body]
pub(crate) fn chars_of(s: &str) -> (r: Vec<char>)
    ensures
        r@ == s@,
{
    s.chars().collect()
}

/// Relies on `String: FromIterator<char>`: the string holding these characters, in order.
#[verifier::external_body]
pub(crate) fn string_of(v: &Vec<char>) -> (r: String)
    ensures
        r@ == v@,
{
    v.iter().collect()
}

/// Relies on `<str as PartialEq>::eq`: equality of the character sequences.
#[verifier::external_body]
pub(crate) fn text_eq(a: &str, b: &str) -> (r: bool)
    ensures
        r == (a@ == b@),
{
    a == b
}

/// Appends `src` to the end of `dst`.
pub fn append_chars(dst: &mut Vec<char>, src: &Vec<char>)
    ensures
        final(dst)@ == old(dst)@ + src@,
{
    let mut i: usize = 0;
    while i < src.len()
        invariant
            i <= src@.len(),
            dst@ == old(dst)@ + src@.subrange(0, i as int),
        decreases src@.len() - i,
    {
        dst.push(src[i]);
        i = i + 1;
        assert(src@.subrange(0, i as int) == src@.subrange(0, i - 1) + seq![src@[i - 1]]);
    }
    assert(src@.subrange(0, src@.len() as int) == src@);
}

/// Appends the characters of `s` to the end of `dst`.
pub fn append_str(dst: &mut Vec<char>, s: &str)
    ensures
        final(dst)@ == old(dst)@ + s@,
{
    let cs = chars_of(s);
    append_chars(dst, &cs);
}

} // verus!

verus! {


/// The text that lossy UTF-8 decoding makes of some bytes.
pub uninterp spec fn lossy_text(b: Seq<u8>) -> Seq<char>;

/// A text without its leading and trailing white space.
pub uninterp spec fn trimmed(s: Seq<char>) -> Seq<char>;

/// Relies on `String::from_utf8_lossy`: invalid sequences become U+FFFD, and the result
/// depends on the bytes alone.
#[verifier::external_body]
pub(crate) fn decode_lossy(b: &[u8]) -> (r: String)
    ensures
        r@ == lossy_text(b@),
{
    String::from_utf8_lossy(b).into_owned()
}

/// Relies on `str::trim`: the text without leading and trailing white space.
#[verifier::external_body]
pub(crate) fn trim(s: &str) -> (r: &str)
    ensures
        r@ == trimmed(s@),
{
    s.trim()
}

/// The length of a text in UTF-8 bytes.
pub open spec fn byte_len(s: Seq<char>) -> nat {
    encode_utf8(s).len()
}

/// The longest prefix of a text whose UTF-8 length is within `limit`.
pub open spec fn fit_prefix(s: Seq<char>, limit: nat) -> Seq<char>
    decreases s.len(),
{
    if byte_len(s) <= limit || s.len() == 0 {
        s
    } else {
        fit_prefix(s.drop_last(), limit)
    }
}

/// The decimal digits of a number.
pub open spec fn decimal(n: nat) -> Seq<char>
    decreases n,
{
    if n < 10 {
        seq![(n + '0' as nat) as char]
    } else {
        decimal(n / 10).push(((n % 10) + '0' as nat) as char)
    }
}

/// The number of `'\n'` characters in a text.
pub open spec fn newlines(s: Seq<char>) -> nat
    decreases s.len(),
{
    if s.len() == 0 {
        0
    } else {
        newlines(s.drop_last()) + if s.last() == '\n' { 1nat } else { 0nat }
    }
}

/// How many lines a text has: every line break ends one, and a last line without a
/// break counts too.
pub open spec fn line_count(s: Seq<char>) -> nat {
    if s.len() > 0 && s.last() != '\n' {
        newlines(s) + 1
    } else {
        newlines(s)
    }
}

proof fn lemma_newlines_bound(s: Seq<char>)
    ensures
        newlines(s) <= s.len(),
    decreases s.len(),
{
    if s.len() > 0 {
        lemma_newlines_bound(s.drop_last());
    }
}

proof fn lemma_encode_push(s: Seq<char>, c: char)
    ensures
        encode_utf8(s.push(c)) == encode_utf8(s) + encode_scalar(c as u32),
    decreases s.len(),
{
    if s.len() == 0 {
        assert(s.push(c).drop_first() =~= Seq::<char>::empty());
        assert(encode_utf8(Seq::<char>::empty()) == Seq::<u8>::empty());
        assert(encode_utf8(s.push(c)) =~= encode_scalar(c as u32));
        assert(encode_utf8(s) + encode_scalar(c as u32) =~= encode_scalar(c as u32));
    } else {
        lemma_encode_push(s.drop_first(), c);
        assert(s.push(c).drop_first() == s.drop_first().push(c));
        assert(encode_utf8(s.push(c)) =~= encode_utf8(s) + encode_scalar(c as u32));
    }
}

/// The UTF-8 length of a text grows by the width of each character added.
pub proof fn lemma_byte_len_push(s: Seq<char>, c: char)
    ensures
        byte_len(s.push(c)) == byte_len(s) + encode_scalar(c as u32).len(),
{
    lemma_encode_push(s, c);
}

/// The number of bytes UTF-8 uses for a character.
pub fn char_width(c: char) -> (r: usize)
    ensures
        r == encode_scalar(c as u32).len(),
        1 <= r <= 4,
{
    let v = c as u32;
    if v < 0x80 {
        1
    } else if v < 0x800 {
        2
    } else if v < 0x10000 {
        assert(!(0xD800 <= v <= 0xDFFF)) by {
            vstd::utf8::char_is_scalar(c);
        }
        3
    } else {
        4
    }
}

proof fn lemma_byte_len_monotone(s: Seq<char>, a: int, b: int)
    requires
        0 <= a <= b <= s.len(),
    ensures
        byte_len(s.subrange(0, a)) <= byte_len(s.subrange(0, b)),
    decreases b - a,
{
    if a < b {
        lemma_byte_len_monotone(s, a, b - 1);
        lemma_byte_len_push(s.subrange(0, b - 1), s[b - 1]);
        assert(s.subrange(0, b - 1).push(s[b - 1]) == s.subrange(0, b));
    }
}

/// The prefix of `k` characters is the longest that fits when it fits and one more
/// character would not.
proof fn lemma_fit_prefix_at(s: Seq<char>, limit: nat, k: int)
    requires
        0 <= k <= s.len(),
        byte_len(s.subrange(0, k)) <= limit,
        k < s.len() ==> byte_len(s.subrange(0, k + 1)) > limit,
    ensures
        fit_prefix(s, limit) == s.subrange(0, k),
    decreases s.len(),
{
    if k == s.len() {
        assert(s.subrange(0, k) == s);
    } else {
        lemma_byte_len_monotone(s, k + 1, s.len() as int);
        assert(s.subrange(0, s.len() as int) == s);
        let t = s.drop_last();
        assert(t.subrange(0, k) == s.subrange(0, k));
        if k + 1 <= t.len() {
            assert(t.subrange(0, k + 1) == s.subrange(0, k + 1));
        }
        lemma_fit_prefix_at(t, limit, k);
    }
}

/// How many leading characters fit in `limit` bytes of UTF-8.
fn fit_count(cs: &Vec<char>, limit: usize) -> (k: usize)
    ensures
        k <= cs@.len(),
        byte_len(cs@.subrange(0, k as int)) <= limit,
        k < cs@.len() ==> byte_len(cs@.subrange(0, k + 1)) > limit,
{
    let mut used: usize = 0;
    let mut k: usize = 0;
    let mut fits = true;
    assert(cs@.subrange(0, 0) =~= Seq::<char>::empty());
    while k < cs.len() && fits
        invariant
            k <= cs@.len(),
            used == byte_len(cs@.subrange(0, k as int)),
            used <= limit,
            !fits ==> k < cs@.len() && byte_len(cs@.subrange(0, k + 1)) > limit,
        decreases cs@.len() - k + if fits { 1int } else { 0int },
    {
        let w = char_width(cs[k]);
        proof {
            lemma_byte_len_push(cs@.subrange(0, k as int), cs@[k as int]);
            assert(cs@.subrange(0, k as int).push(cs@[k as int]) == cs@.subrange(0, k + 1));
        }
        if w <= limit - used {
            used = used + w;
            k = k + 1;
        } else {
            fits = false;
        }
    }
    k
}

/// The longest prefix of `s` that fits in `limit` bytes of UTF-8.
pub fn byte_prefix(s: &str, limit: usize) -> (r: Vec<char>)
    ensures
        r@ == fit_prefix(s@, limit as nat),
{
    let cs = chars_of(s);
    let k = fit_count(&cs, limit);
    let mut r: Vec<char> = Vec::new();
    let mut i: usize = 0;
    while i < k
        invariant
            k <= cs@.len(),
            i <= k,
            r@ == cs@.subrange(0, i as int),
        decreases k - i,
    {
        r.push(cs[i]);
        i = i + 1;
    }
    proof {
        lemma_fit_prefix_at(cs@, limit as nat, k as int);
    }
    r
}

/// Whether `s` takes more than `limit` bytes of UTF-8.
pub fn exceeds(s: &str, limit: usize) -> (r: bool)
    ensures
        r == (byte_len(s@) > limit),
{
    let cs = chars_of(s);
    let k = fit_count(&cs, limit);
    proof {
        assert(cs@.subrange(0, cs@.len() as int) == cs@);
        if k < cs@.len() {
            lemma_byte_len_monotone(cs@, k + 1, cs@.len() as int);
        }
    }
    k < cs.len()
}

/// Appends the decimal digits of `n`.
pub fn push_decimal(dst: &mut Vec<char>, n: u64)
    ensures
        final(dst)@ == old(dst)@ + decimal(n as nat),
    decreases n,
{
    if n < 10 {
        let c = char_of_digit(n);
        dst.push(c);
        assert(decimal(n as nat) == seq![c]);
    } else {
        push_decimal(dst, n / 10);
        let c = char_of_digit(n % 10);
        dst.push(c);
        assert(decimal(n as nat) == decimal((n / 10) as nat).push(c));
    }
}

fn char_of_digit(d: u64) -> (c: char)
    requires
        d < 10,
    ensures
        c == (d + '0' as nat) as char,
{
    if d == 0 { '0' } else if d == 1 { '1' } else if d == 2 { '2' } else if d == 3 { '3' }
    else if d == 4 { '4' } else if d == 5 { '5' } else if d == 6 { '6' } else if d == 7 { '7' }
    else if d == 8 { '8' } else { '9' }
}

/// Counts the lines of a text as `line_count` defines them.
pub fn count_lines(s: &Vec<char>) -> (r: usize)
    ensures
        r == line_count(s@),
{
    let mut n: usize = 0;
    let mut i: usize = 0;
    while i < s.len()
        invariant
            i <= s@.len(),
            n == newlines(s@.subrange(0, i as int)),
            n <= i,
        decreases s@.len() - i,
    {
        assert(s@.subrange(0, i + 1).drop_last() == s@.subrange(0, i as int));
        if s[i] == '\n' {
            n = n + 1;
        }
        i = i + 1;
    }
    assert(s@.subrange(0, s@.len() as int) == s@);
    if s.len() > 0 && s[s.len() - 1] != '\n' {
        proof {
            lemma_newlines_bound(s@.drop_last());
        }
        n + 1
    } else {
        n
    }
}

/// Whether `n` occurs in `h` starting at position `i`.
pub open spec fn occurs_at(h: Seq<char>, n: Seq<char>, i: int) -> bool {
    0 <= i && i + n.len() <= h.len() && h.subrange(i, i + n.len()) == n
}

/// Whether `n` occurs somewhere in `h`.
pub open spec fn has_infix(h: Seq<char>, n: Seq<char>) -> bool {
    exists|i: int| occurs_at(h, n, i)
}

/// The position of the first `c` in `s`.
pub open spec fn first_index(s: Seq<char>, c: char) -> Option<int>
    decreases s.len(),
{
    if s.len() == 0 {
        None
    } else if s[0] == c {
        Some(0)
    } else {
        match first_index(s.drop_first(), c) {
            Some(i) => Some(i + 1),
            None => None,
        }
    }
}

/// Whether `n` occurs in `h` at position `i`, compared character by character.
fn matches_at(h: &Vec<char>, n: &Vec<char>, i: usize) -> (r: bool)
    requires
        i + n@.len() <= h@.len(),
    ensures
        r == occurs_at(h@, n@, i as int),
{
    let mut j: usize = 0;
    let hl = h.len();
    while j < n.len()
        invariant
            hl == h@.len(),
            i + n@.len() <= h@.len(),
            j <= n@.len(),
            forall|k: int| 0 <= k < j ==> h@[i + k] == n@[k],
        decreases n@.len() - j,
    {
        if h[i + j] != n[j] {
            assert(h@.subrange(i as int, i + n@.len())[j as int] != n@[j as int]);
            return false;
        }
        j = j + 1;
    }
    assert(h@.subrange(i as int, i + n@.len()) =~= n@);
    true
}

/// Whether `needle` occurs in `hay`.
pub fn contains(hay: &str, needle: &str) -> (r: bool)
    ensures
        r == has_infix(hay@, needle@),
{
    let h = chars_of(hay);
    let n = chars_of(needle);
    if n.len() > h.len() {
        assert(forall|i: int| !occurs_at(h@, n@, i));
        return false;
    }
    if n.len() == 0 {
        assert(h@.subrange(0, 0) =~= n@);
        assert(occurs_at(h@, n@, 0));
        return true;
    }
    let mut i: usize = 0;
    let last = h.len() - n.len();
    while i <= last
        invariant
            last == h@.len() - n@.len(),
            n@.len() > 0,
            h@.len() <= usize::MAX,
            n@.len() <= h@.len(),
            h@ == hay@,
            n@ == needle@,
            i <= h@.len() - n@.len() + 1,
            forall|k: int| 0 <= k < i ==> !occurs_at(h@, n@, k),
        decreases last + 1 - i,
    {
        if matches_at(&h, &n, i) {
            return true;
        }
        i = i + 1;
    }
    assert(forall|k: int| !occurs_at(h@, n@, k));
    false
}

/// The position of the first `c` in `s`.
pub fn find_char(s: &Vec<char>, c: char) -> (r: Option<usize>)
    ensures
        match r {
            Some(i) => first_index(s@, c) == Some(i as int) && i < s@.len() && s@[i as int] == c,
            None => first_index(s@, c) is None,
        },
{
    let mut i: usize = 0;
    assert(s@.subrange(0, s@.len() as int) == s@);
    while i < s.len()
        invariant
            i <= s@.len(),
            first_index(s@, c) == match first_index(s@.subrange(i as int, s@.len() as int), c) {
                Some(k) => Some(k + i),
                None => None,
            },
        decreases s@.len() - i,
    {
        let ghost rest = s@.subrange(i as int, s@.len() as int);
        assert(rest.drop_first() == s@.subrange(i + 1, s@.len() as int));
        assert(rest[0] == s@[i as int]);
        if s[i] == c {
            return Some(i);
        }
        i = i + 1;
    }
    None
}

/// The characters of `s` from `a` up to `b`.
pub fn slice_chars(s: &Vec<char>, a: usize, b: usize) -> (r: Vec<char>)
    requires
        a <= b <= s@.len(),
    ensures
        r@ == s@.subrange(a as int, b as int),
{
    let mut r: Vec<char> = Vec::new();
    let mut i: usize = a;
    while i < b
        invariant
            a <= i <= b,
            b <= s@.len(),
            r@ == s@.subrange(a as int, i as int),
        decreases b - i,
    {
        r.push(s[i]);
        i = i + 1;
    }
    r
}

/// A line without the carriage return of a `\r\n` break.
pub open spec fn without_cr(line: Seq<char>) -> Seq<char> {
    if line.len() > 0 && line.last() == '\r' { line.drop_last() } else { line }
}

pub ghost struct SplitState {
    pub current: Seq<char>,
    pub lines: Seq<Seq<char>>,
}

pub open spec fn split_chars(t: Seq<char>) -> SplitState
    decreases t.len(),
{
    if t.len() == 0 {
        SplitState { current: Seq::empty(), lines: Seq::empty() }
    } else {
        let s = split_chars(t.drop_last());
        if t.last() == '\n' {
            SplitState { current: Seq::empty(), lines: s.lines.push(without_cr(s.current)) }
        } else {
            SplitState { current: s.current.push(t.last()), lines: s.lines }
        }
    }
}

/// The lines of a text as `str::lines` gives them: split at `\n` or `\r\n`; a last line
/// without a break counts when it is not empty.
pub open spec fn lines_of(t: Seq<char>) -> Seq<Seq<char>> {
    let s = split_chars(t);
    if s.current.len() > 0 { s.lines.push(s.current) } else { s.lines }
}

pub open spec fn line_texts(v: Seq<Vec<char>>) -> Seq<Seq<char>> {
    v.map_values(|l: Vec<char>| l@)
}

/// The lines of a text.
pub fn split_lines(t: &Vec<char>) -> (r: Vec<Vec<char>>)
    ensures
        line_texts(r@) == lines_of(t@),
{
    let mut lines: Vec<Vec<char>> = Vec::new();
    let mut current: Vec<char> = Vec::new();
    let mut i: usize = 0;
    assert(line_texts(lines@) =~= Seq::<Seq<char>>::empty());
    assert(current@ =~= Seq::<char>::empty());
    assert(t@.subrange(0, 0) =~= Seq::<char>::empty());
    while i < t.len()
        invariant
            i <= t@.len(),
            (SplitState { current: current@, lines: line_texts(lines@) }) == split_chars(t@.subrange(0, i as int)),
        decreases t@.len() - i,
    {
        assert(t@.subrange(0, i + 1).drop_last() == t@.subrange(0, i as int));
        if t[i] == '\n' {
            let n = current.len();
            let body = if n > 0 && current[n - 1] == '\r' { slice_chars(&current, 0, n - 1) } else {
                assert(current@.subrange(0, n as int) == current@);
                slice_chars(&current, 0, n)
            };
            let ghost b = body@;
            let ghost pre = lines@;
            lines.push(body);
            assert(line_texts(lines@) =~= line_texts(pre).push(b));
            current = Vec::new();
            assert(current@ =~= Seq::<char>::empty());
        } else {
            current.push(t[i]);
        }
        i = i + 1;
    }
    assert(t@.subrange(0, t@.len() as int) == t@);
    if current.len() > 0 {
        let ghost pre = lines@;
        let ghost c = current@;
        lines.push(current);
        assert(line_texts(lines@) =~= line_texts(pre).push(c));
    }
    lines
}

/// The text with every non-overlapping occurrence of `from`, left to right, replaced.
pub uninterp spec fn replaced(s: Seq<char>, from: Seq<char>, to: Seq<char>) -> Seq<char>;

/// The text with the first occurrence of `from` replaced.
pub uninterp spec fn replaced_first(s: Seq<char>, from: Seq<char>, to: Seq<char>) -> Seq<char>;

/// How many non-overlapping occurrences of `pat` the text holds.
pub uninterp spec fn occurrences(s: Seq<char>, pat: Seq<char>) -> nat;

/// Relies on `str::replace`: the result depends on the three texts alone.
#[verifier::external_body]
pub(crate) fn replace_all(s: &str, from: &str, to: &str) -> (r: String)
    ensures
        r@ == replaced(s@, from@, to@),
{
    s.replace(from, to)
}

/// Relies on `str::replacen` with a count of one.
#[verifier::external_body]
pub(crate) fn replace_first(s: &str, from: &str, to: &str) -> (r: String)
    ensures
        r@ == replaced_first(s@, from@, to@),
{
    s.replacen(from, to, 1)
}

/// Relies on `str::matches` counted.
#[verifier::external_body]
pub(crate) fn count_matches(s: &str, pat: &str) -> (r: usize)
    ensures
        r == occurrences(s@, pat@),
{
    s.matches(pat).count()
}

/// The UTF-8 length of a concatenation is the sum of the lengths.
pub proof fn lemma_byte_len_concat(a: Seq<char>, b: Seq<char>)
    ensures
        byte_len(a + b) == byte_len(a) + byte_len(b),
    decreases a.len(),
{
    if a.len() > 0 {
        lemma_byte_len_concat(a.drop_first(), b);
        assert((a + b).drop_first() == a.drop_first() + b);
        assert((a + b)[0] == a[0]);
    } else {
        assert(a + b == b);
    }
}

/// Every character takes one to four bytes.
pub proof fn lemma_byte_len_bounds(s: Seq<char>)
    ensures
        s.len() <= byte_len(s) <= 4 * s.len(),
    decreases s.len(),
{
    if s.len() > 0 {
        lemma_byte_len_bounds(s.drop_first());
        let c = s[0] as u32;
        assert(1 <= encode_scalar(c).len() <= 4);
    }
}

/// A longest fitting prefix fits.
pub proof fn lemma_fit_prefix_fits(s: Seq<char>, limit: nat)
    ensures
        byte_len(fit_prefix(s, limit)) <= limit,
    decreases s.len(),
{
    if !(byte_len(s) <= limit || s.len() == 0) {
        lemma_fit_prefix_fits(s.drop_last(), limit);
    } else if s.len() == 0 {
        assert(encode_utf8(s) == Seq::<u8>::empty());
    }
}

pub open spec fn ten_pow(k: nat) -> nat
    decreases k,
{
    if k == 0 { 1 } else { 10 * ten_pow((k - 1) as nat) }
}

proof fn lemma_decimal_len_below(n: nat, k: nat)
    requires
        k >= 1,
        n < ten_pow(k),
    ensures
        decimal(n).len() <= k,
    decreases k,
{
    if n >= 10 {
        assert(k >= 2) by {
            if k == 1 {
                assert(ten_pow(0) == 1);
            }
        }
        assert(n / 10 < ten_pow((k - 1) as nat)) by (nonlinear_arith)
            requires
                n < ten_pow(k),
                ten_pow(k) == 10 * ten_pow((k - 1) as nat);
        lemma_decimal_len_below(n / 10, (k - 1) as nat);
    }
}

/// A number within `u64` has at most twenty digits.
pub proof fn lemma_decimal_len(n: nat)
    requires
        n <= u64::MAX,
    ensures
        decimal(n).len() <= 20,
{
    reveal_with_fuel(ten_pow, 21);
    assert(ten_pow(20) == 100000000000000000000nat);
    lemma_decimal_len_below(n, 20);
}

/// A text has no more lines than characters.
pub proof fn lemma_line_count_bound(s: Seq<char>)
    ensures
        line_count(s) <= s.len(),
{
    lemma_newlines_bound(s);
    if s.len() > 0 && s.last() != '\n' {
        lemma_newlines_bound(s.drop_last());
        assert(newlines(s) == newlines(s.drop_last()));
    }
}

/// A text in lower case, as `str::to_lowercase` makes it.
pub uninterp spec fn lower_of(s: Seq<char>) -> Seq<char>;

/// Relies on `str::to_lowercase`: the result depends on the text alone.
#[verifier::external_body]
pub(crate) fn lowercase(s: &str) -> (r: String)
    ensures
        r@ == lower_of(s@),
{
    s.to_lowercase()
}

} // verus!
