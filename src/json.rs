//! The library's own JSON value, and the serde_json calls that read and write it.
use vstd::prelude::*;
use crate::text::{chars_of, text_eq};

verus! {

/// A JSON value. A number is kept as its JSON text; an object keeps its members in order.
pub enum Json {
    Null,
    Bool(bool),
    Number(String),
    Str(String),
    Array(Vec<Json>),
    Object(Vec<(String, Json)>),
}

/// A JSON value as mathematics sees it.
#[verifier::ext_equal]
pub ghost enum JsonView {
    Null,
    Bool(bool),
    Number(Seq<char>),
    Str(Seq<char>),
    Array(Seq<JsonView>),
    Object(Seq<(Seq<char>, JsonView)>),
}

impl View for Json {
    type V = JsonView;

    open spec fn view(&self) -> JsonView
        decreases self,
    {
        match self {
            Json::Null => JsonView::Null,
            Json::Bool(b) => JsonView::Bool(*b),
            Json::Number(t) => JsonView::Number(t@),
            Json::Str(s) => JsonView::Str(s@),
            Json::Array(a) => JsonView::Array(
                Seq::new(a@.len(), |i: int| if 0 <= i < a@.len() { a@[i].view() } else { JsonView::Null }),
            ),
            Json::Object(m) => JsonView::Object(
                Seq::new(
                    m@.len(),
                    |i: int| (m@[i].0@, if 0 <= i < m@.len() { m@[i].1.view() } else { JsonView::Null }),
                ),
            ),
        }
    }
}

/// The value of the first member named `key`, if any.
pub open spec fn member(entries: Seq<(String, Json)>, key: Seq<char>) -> Option<Json>
    decreases entries.len(),
{
    if entries.len() == 0 {
        None
    } else if entries[0].0@ == key {
        Some(entries[0].1)
    } else {
        member(entries.drop_first(), key)
    }
}

impl Json {
    /// The member `key` of an object; `None` for a missing member or a non-object.
    pub open spec fn field(self, key: Seq<char>) -> Option<Json> {
        match self {
            Json::Object(m) => member(m@, key),
            _ => None,
        }
    }

    pub open spec fn str_value(self) -> Option<Seq<char>> {
        match self {
            Json::Str(s) => Some(s@),
            _ => None,
        }
    }

    pub open spec fn items(self) -> Option<Seq<Json>> {
        match self {
            Json::Array(a) => Some(a@),
            _ => None,
        }
    }

    /// The text of member `key` when that member is a string.
    pub open spec fn field_str(self, key: Seq<char>) -> Option<Seq<char>> {
        match self.field(key) {
            Some(v) => v.str_value(),
            None => None,
        }
    }

    /// Looks up the member `key` of an object.
    pub fn get(&self, key: &str) -> (r: Option<&Json>)
        ensures
            match r {
                Some(v) => self.field(key@) == Some(*v),
                None => self.field(key@) is None,
            },
    {
        match self {
            Json::Object(m) => {
                let mut i: usize = 0;
                assert(m@.subrange(0, m@.len() as int) == m@);
                assert(self.field(key@) == member(m@, key@));
                while i < m.len()
                    invariant
                        i <= m@.len(),
                        self.field(key@) == member(m@, key@),
                        member(m@, key@) == member(m@.subrange(i as int, m@.len() as int), key@),
                    decreases m@.len() - i,
                {
                    let ghost rest = m@.subrange(i as int, m@.len() as int);
                    assert(rest.drop_first() == m@.subrange(i + 1, m@.len() as int));
                    assert(rest[0] == m@[i as int]);
                    if text_eq(m[i].0.as_str(), key) {
                        assert(member(rest, key@) == Some(m@[i as int].1));
                        return Some(&m[i].1);
                    }
                    i = i + 1;
                }
                None
            },
            _ => None,
        }
    }

    /// The text of member `key` when that member is a string.
    pub fn get_str(&self, key: &str) -> (r: Option<&str>)
        ensures
            match r {
                Some(s) => self.field_str(key@) == Some(s@),
                None => self.field_str(key@) is None,
            },
    {
        match self.get(key) {
            Some(v) => v.as_str(),
            None => None,
        }
    }

    pub open spec fn bool_value(self) -> Option<bool> {
        match self {
            Json::Bool(b) => Some(b),
            _ => None,
        }
    }

    pub fn as_bool(&self) -> (r: Option<bool>)
        ensures
            r == self.bool_value(),
    {
        match self {
            Json::Bool(b) => Some(*b),
            _ => None,
        }
    }

    /// The member `key` when it is a non-negative integer within `u64`.
    pub open spec fn field_u64(self, key: Seq<char>) -> Option<u64> {
        match self.field(key) {
            Some(v) => v.u64_value(),
            None => None,
        }
    }

    pub fn get_u64(&self, key: &str) -> (r: Option<u64>)
        ensures
            r == self.field_u64(key@),
    {
        match self.get(key) {
            Some(v) => v.as_u64(),
            None => None,
        }
    }

    /// The text of member `key`, or the error that names the missing argument.
    pub fn required_str(&self, key: &str) -> (r: Result<&str, String>)
        ensures
            match r {
                Ok(s) => self.field_str(key@) == Some(s@),
                Err(e) => self.field_str(key@) is None && e@ == "Missing '"@ + key@ + "' argument"@,
            },
    {
        match self.get_str(key) {
            Some(s) => Ok(s),
            None => {
                let mut cs: Vec<char> = Vec::new();
                crate::text::append_str(&mut cs, "Missing '");
                crate::text::append_str(&mut cs, key);
                crate::text::append_str(&mut cs, "' argument");
                Err(crate::text::string_of(&cs))
            },
        }
    }

    /// The text of a string value.
    pub fn as_str(&self) -> (r: Option<&str>)
        ensures
            match r {
                Some(s) => self.str_value() == Some(s@),
                None => self.str_value() is None,
            },
    {
        match self {
            Json::Str(s) => Some(s.as_str()),
            _ => None,
        }
    }

    /// The elements of an array value.
    pub fn as_array(&self) -> (r: Option<&Vec<Json>>)
        ensures
            match r {
                Some(a) => self.items() == Some(a@),
                None => self.items() is None,
            },
    {
        match self {
            Json::Array(a) => Some(a),
            _ => None,
        }
    }
}

/// The value of a run of decimal digits; `None` when the text is empty or holds a
/// character other than a digit.
pub open spec fn digits_value(s: Seq<char>) -> Option<nat>
    decreases s.len(),
{
    if s.len() == 0 {
        None
    } else if !('0' <= s.last() && s.last() <= '9') {
        None
    } else if s.len() == 1 {
        Some((s.last() as nat - '0' as nat) as nat)
    } else {
        match digits_value(s.drop_last()) {
            Some(v) => Some(v * 10 + (s.last() as nat - '0' as nat) as nat),
            None => None,
        }
    }
}

impl Json {
    /// A number that is a non-negative integer within `u64`.
    pub open spec fn u64_value(self) -> Option<u64> {
        match self {
            Json::Number(t) => match digits_value(t@) {
                Some(v) => if v <= u64::MAX { Some(v as u64) } else { None },
                None => None,
            },
            _ => None,
        }
    }

    /// Reads a number that is a non-negative integer within `u64`.
    pub fn as_u64(&self) -> (r: Option<u64>)
        ensures
            r == self.u64_value(),
    {
        match self {
            Json::Number(t) => {
                let cs = chars_of(t.as_str());
                if cs.len() == 0 {
                    return None;
                }
                let mut v: u64 = 0;
                let mut i: usize = 0;
                while i < cs.len()
                    invariant
                        0 < cs@.len(),
                        i <= cs@.len(),
                        cs@ == t@,
                        self.u64_value() == match digits_value(t@) {
                            Some(v) => if v <= u64::MAX { Some(v as u64) } else { None },
                            None => None,
                        },
                        i > 0 ==> digits_value(cs@.subrange(0, i as int)) == Some(v as nat),
                        i == 0 ==> v == 0,
                    decreases cs@.len() - i,
                {
                    let c = cs[i];
                    proof {
                        let p = cs@.subrange(0, i + 1);
                        assert(p.drop_last() == cs@.subrange(0, i as int));
                        assert(p.last() == c);
                    }
                    if !('0' <= c && c <= '9') {
                        proof { lemma_digits_prefix_none(cs@, i as int + 1); }
                        return None;
                    }
                    let d = (c as u32 - '0' as u32) as u64;
                    assert(d as nat == (c as nat - '0' as nat) as nat);
                    proof {
                        let p = cs@.subrange(0, i + 1);
                        if i == 0 {
                            assert(digits_value(p) == Some(d as nat));
                        } else {
                            assert(digits_value(p) == Some(v as nat * 10 + d as nat));
                        }
                    }
                    if v > (u64::MAX - d) / 10 {
                        assert(v as nat * 10 + d as nat > u64::MAX) by (nonlinear_arith)
                            requires v > (u64::MAX - d) / 10, d <= 9;
                        assert(i > 0) by {
                            if i == 0 { assert(v == 0); }
                        }
                        proof { lemma_digits_prefix_grows(cs@, i as int + 1); }
                        return None;
                    }
                    assert(v * 10 + d <= u64::MAX) by (nonlinear_arith)
                        requires v <= (u64::MAX - d) / 10, d <= 9;
                    v = v * 10 + d;
                    i = i + 1;
                }
                assert(cs@.subrange(0, cs@.len() as int) == cs@);
                Some(v)
            },
            _ => None,
        }
    }
}

/// A prefix with a non-digit leaves no value for the whole text.
proof fn lemma_digits_prefix_none(s: Seq<char>, k: int)
    requires
        0 < k <= s.len(),
        digits_value(s.subrange(0, k)) is None,
    ensures
        digits_value(s) is None,
    decreases s.len() - k,
{
    if k < s.len() {
        assert(s.subrange(0, k + 1).drop_last() == s.subrange(0, k));
        lemma_digits_prefix_none(s, k + 1);
    } else {
        assert(s.subrange(0, k) == s);
    }
}

/// A value never shrinks as digits are added.
proof fn lemma_digits_prefix_grows(s: Seq<char>, k: int)
    requires
        0 < k <= s.len(),
        digits_value(s.subrange(0, k)) matches Some(v) && v > u64::MAX,
    ensures
        digits_value(s) matches Some(w) ==> w > u64::MAX,
    decreases s.len() - k,
{
    if k < s.len() {
        assert(s.subrange(0, k + 1).drop_last() == s.subrange(0, k));
        if digits_value(s.subrange(0, k + 1)) is None {
            lemma_digits_prefix_none(s, k + 1);
        } else {
            lemma_digits_prefix_grows(s, k + 1);
        }
    } else {
        assert(s.subrange(0, k) == s);
    }
}

/// The views of an object's members.
pub open spec fn member_views(m: Seq<(String, Json)>) -> Seq<(Seq<char>, JsonView)> {
    Seq::new(m.len(), |i: int| (m[i].0@, m[i].1@))
}

/// The views of an array's elements.
pub open spec fn item_views(a: Seq<Json>) -> Seq<JsonView> {
    Seq::new(a.len(), |i: int| a[i]@)
}

/// A string value.
pub fn text_value(s: &str) -> (r: Json)
    ensures
        r@ == JsonView::Str(s@),
{
    Json::Str(s.to_owned())
}

/// An object with these members, in this order.
pub fn object(m: Vec<(String, Json)>) -> (r: Json)
    ensures
        r@ == JsonView::Object(member_views(m@)),
{
    let r = Json::Object(m);
    assert(r@ == JsonView::Object(member_views(m@))) by {
        assert(forall|i: int| 0 <= i < m@.len() ==> #[trigger] r@->Object_0[i] == member_views(m@)[i]);
        assert(r@->Object_0 =~= member_views(m@));
    }
    r
}

/// An array with these elements, in this order.
pub fn array(a: Vec<Json>) -> (r: Json)
    ensures
        r@ == JsonView::Array(item_views(a@)),
{
    let r = Json::Array(a);
    assert(r@ == JsonView::Array(item_views(a@))) by {
        if let JsonView::Array(v) = r@ {
            assert(v =~= item_views(a@));
        }
    }
    r
}

/// An object member.
pub fn entry(k: &str, v: Json) -> (r: (String, Json))
    ensures
        r.0@ == k@,
        r.1 == v,
{
    (k.to_owned(), v)
}

impl Json {
    /// Reads one JSON value from its text; `None` when the text is not one.
    pub fn parse(text: &str) -> (r: Option<Json>)
        ensures
            r == parsed_json(text@),
    {
        parse_json(text)
    }

    /// The compact JSON text of the value.
    pub fn to_text(&self) -> (r: String)
        ensures
            r@ == json_text_of(self@),
    {
        json_text(self)
    }

    /// The pretty-printed JSON text of the value.
    pub fn to_pretty_text(&self) -> (r: String)
        ensures
            r@ == pretty_json_of(self@),
    {
        pretty_json(self)
    }

    /// A copy of the value.
    pub fn duplicate(&self) -> (r: Json)
        ensures
            r@ == self@,
        decreases self,
    {
        match self {
            Json::Null => Json::Null,
            Json::Bool(b) => Json::Bool(*b),
            Json::Number(t) => Json::Number(t.clone()),
            Json::Str(s) => Json::Str(s.clone()),
            Json::Array(a) => {
                let mut out: Vec<Json> = Vec::new();
                let mut i: usize = 0;
                assert(decreases_to!(*self => *a));
                while i < a.len()
                    invariant
                        decreases_to!(*self => *a),
                        i <= a@.len(),
                        out@.len() == i,
                        forall|j: int| 0 <= j < i ==> (#[trigger] out@[j])@ == a@[j]@,
                    decreases a@.len() - i,
                {
                    proof {
                        vstd::std_specs::vec::axiom_vec_index_decreases(*a, i as int);
                    }
                    out.push(a[i].duplicate());
                    i = i + 1;
                }
                let r = array(out);
                assert(item_views(out@) =~= self@->Array_0);
                r
            },
            Json::Object(m) => {
                let mut out: Vec<(String, Json)> = Vec::new();
                let mut i: usize = 0;
                assert(decreases_to!(*self => *m));
                while i < m.len()
                    invariant
                        decreases_to!(*self => *m),
                        i <= m@.len(),
                        out@.len() == i,
                        forall|j: int| 0 <= j < i ==> (#[trigger] out@[j]).0@ == m@[j].0@ && out@[j].1@ == m@[j].1@,
                    decreases m@.len() - i,
                {
                    proof {
                        vstd::std_specs::vec::axiom_vec_index_decreases(*m, i as int);
                        assert(decreases_to!(m[i as int] => m[i as int].1));
                    }
                    let v = m[i].1.duplicate();
                    out.push((m[i].0.clone(), v));
                    i = i + 1;
                }
                let r = object(out);
                assert(member_views(out@) =~= self@->Object_0);
                r
            },
        }
    }
}

/// The first member named `key` among viewed members.
pub open spec fn lookup(ms: Seq<(Seq<char>, JsonView)>, key: Seq<char>) -> Option<JsonView>
    decreases ms.len(),
{
    if ms.len() == 0 {
        None
    } else if ms[0].0 == key {
        Some(ms[0].1)
    } else {
        lookup(ms.drop_first(), key)
    }
}

/// The member `key` of an object value.
pub open spec fn jfield(v: JsonView, key: Seq<char>) -> Option<JsonView> {
    match v {
        JsonView::Object(ms) => lookup(ms, key),
        _ => None,
    }
}

pub proof fn lemma_object_view(m: Vec<(String, Json)>)
    ensures
        Json::Object(m)@ == JsonView::Object(member_views(m@)),
{
    let j = Json::Object(m);
    assert(forall|i: int| 0 <= i < m@.len() ==> #[trigger] j@->Object_0[i] == member_views(m@)[i]);
    assert(j@->Object_0 =~= member_views(m@));
}

pub proof fn lemma_array_view(a: Vec<Json>)
    ensures
        Json::Array(a)@ == JsonView::Array(item_views(a@)),
{
    let j = Json::Array(a);
    assert(j@->Array_0 =~= item_views(a@));
}

proof fn lemma_member_lookup(m: Seq<(String, Json)>, key: Seq<char>)
    ensures
        match member(m, key) {
            Some(v) => lookup(member_views(m), key) == Some(v@),
            None => lookup(member_views(m), key) is None,
        },
    decreases m.len(),
{
    if m.len() > 0 {
        lemma_member_lookup(m.drop_first(), key);
        assert(member_views(m).drop_first() =~= member_views(m.drop_first()));
    }
}

/// A member found in a value is the member found in its view.
pub proof fn lemma_field_view(j: Json, key: Seq<char>)
    ensures
        match j.field(key) {
            Some(v) => jfield(j@, key) == Some(v@),
            None => jfield(j@, key) is None,
        },
{
    if let Json::Object(m) = j {
        lemma_object_view(m);
        lemma_member_lookup(m@, key);
    }
}

#[verifier::external_type_specification]
#[verifier::external_body]
pub struct ExValue(serde_json::Value);

/// What serde_json reads from a text: `None` when the text is not exactly one JSON value.
pub uninterp spec fn parsed_json(text: Seq<char>) -> Option<Json>;

/// The compact JSON text serde_json writes for a value.
pub uninterp spec fn json_text_of(v: JsonView) -> Seq<char>;

/// The pretty-printed JSON text serde_json writes for a value.
pub uninterp spec fn pretty_json_of(v: JsonView) -> Seq<char>;

/// Relies on `serde_json::from_str::<serde_json::Value>`: the result depends on the
/// text alone, and fails on text that is not one JSON value.
#[verifier::external_body]
pub(crate) fn parse_json(text: &str) -> (r: Option<Json>)
    ensures
        r == parsed_json(text@),
{
    serde_json::from_str::<serde_json::Value>(text).ok().map(|v| from_value(&v))
}

/// Relies on `serde_json::to_string` of a `serde_json::Value`, which cannot fail.
#[verifier::external_body]
pub(crate) fn json_text(v: &Json) -> (r: String)
    ensures
        r@ == json_text_of(v@),
{
    serde_json::to_string(&to_value(v)).unwrap_or_default()
}

/// Relies on `serde_json::to_string_pretty` of a `serde_json::Value`, which cannot fail.
#[verifier::external_body]
pub(crate) fn pretty_json(v: &Json) -> (r: String)
    ensures
        r@ == pretty_json_of(v@),
{
    serde_json::to_string_pretty(&to_value(v)).unwrap_or_default()
}

/// Moves a serde_json value into the library's form, one variant for one.
#[verifier::external_body]
fn from_value(v: &serde_json::Value) -> Json {
    match v {
        serde_json::Value::Null => Json::Null,
        serde_json::Value::Bool(b) => Json::Bool(*b),
        serde_json::Value::Number(n) => Json::Number(n.to_string()),
        serde_json::Value::String(s) => Json::Str(s.clone()),
        serde_json::Value::Array(a) => Json::Array(a.iter().map(from_value).collect()),
        serde_json::Value::Object(m) => Json::Object(m.iter().map(|(k, x)| (k.clone(), from_value(x))).collect()),
    }
}

/// Moves a value of the library's form into serde_json's, one variant for one.
#[verifier::external_body]
fn to_value(v: &Json) -> serde_json::Value {
    match v {
        Json::Null => serde_json::Value::Null,
        Json::Bool(b) => serde_json::Value::Bool(*b),
        Json::Number(t) => t.parse::<serde_json::Number>().map(serde_json::Value::Number).unwrap_or(serde_json::Value::Null),
        Json::Str(s) => serde_json::Value::String(s.clone()),
        Json::Array(a) => serde_json::Value::Array(a.iter().map(to_value).collect()),
        Json::Object(m) => serde_json::Value::Object(m.iter().map(|(k, x)| (k.clone(), to_value(x))).collect()),
    }
}

} // verus!
