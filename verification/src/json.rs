//! JSON documents as plain values.

use serde_json::Value;
use vstd::prelude::*;
use crate::text::{decimal, split, str_eq, Duplicate};

verus! {

/// A JSON value. A number that is no 64-bit integer is held by its text.
#[derive(Debug, PartialEq, Eq)]
pub enum Json {
    Null,
    Bool(bool),
    UInt(u64),
    Int(i64),
    Float(String),
    Str(String),
    Arr(Vec<Json>),
    Obj(Vec<(String, Json)>),
}

/// What a [`Json`] stands for.
#[verifier::ext_equal]
pub enum JsonView {
    Null,
    Bool(bool),
    UInt(u64),
    Int(i64),
    Float(Seq<char>),
    Str(Seq<char>),
    Arr(Seq<JsonView>),
    Obj(Seq<(Seq<char>, JsonView)>),
}

/// The meaning of a [`Json`].
pub open spec fn json_view(x: Json) -> JsonView
    decreases x,
{
    match x {
        Json::Null => JsonView::Null,
        Json::Bool(b) => JsonView::Bool(b),
        Json::UInt(n) => JsonView::UInt(n),
        Json::Int(n) => JsonView::Int(n),
        Json::Float(t) => JsonView::Float(t@),
        Json::Str(s) => JsonView::Str(s@),
        Json::Arr(v) => JsonView::Arr(
            Seq::new(
                v@.len(),
                |i: int|
                    if 0 <= i < v@.len() {
                        json_view(v[i])
                    } else {
                        JsonView::Null
                    },
            ),
        ),
        Json::Obj(v) => JsonView::Obj(
            Seq::new(
                v@.len(),
                |i: int|
                    if 0 <= i < v@.len() {
                        (v[i].0@, json_view(v[i].1))
                    } else {
                        (Seq::empty(), JsonView::Null)
                    },
            ),
        ),
    }
}

impl View for Json {
    type V = JsonView;

    open spec fn view(&self) -> JsonView {
        json_view(*self)
    }
}

impl DeepView for Json {
    type V = JsonView;

    open spec fn deep_view(&self) -> JsonView {
        self@
    }
}

impl Duplicate for Json {
    fn dup(&self) -> (r: Self)
        decreases self,
    {
        match self {
            Json::Null => Json::Null,
            Json::Bool(b) => Json::Bool(*b),
            Json::UInt(n) => Json::UInt(*n),
            Json::Int(n) => Json::Int(*n),
            Json::Float(t) => Json::Float(t.clone()),
            Json::Str(s) => Json::Str(s.clone()),
            Json::Arr(v) => {
                let mut out: Vec<Json> = Vec::new();
                let mut i: usize = 0;
                while i < v.len()
                    invariant
                        i <= v.len(),
                        out.len() == i,
                        decreases_to!(self => v),
                        forall|k: int| 0 <= k < i ==> json_view(#[trigger] out@[k]) == json_view(v@[k]),
                    decreases v.len() - i,
                {
                    out.push(v[i].dup());
                    i = i + 1;
                }
                let r = Json::Arr(out);
                assert(r@->Arr_0 =~= self@->Arr_0);
                r
            },
            Json::Obj(v) => {
                let mut out: Vec<(String, Json)> = Vec::new();
                let mut i: usize = 0;
                while i < v.len()
                    invariant
                        i <= v.len(),
                        out.len() == i,
                        decreases_to!(self => v),
                        forall|k: int|
                            0 <= k < i ==> (#[trigger] out@[k]).0@ == v@[k].0@ && json_view(
                                out@[k].1,
                            ) == json_view(v@[k].1),
                    decreases v.len() - i,
                {
                    assert(decreases_to!(v => v[i as int]));
                    out.push((v[i].0.clone(), v[i].1.dup()));
                    i = i + 1;
                }
                let r = Json::Obj(out);
                assert(r@->Obj_0 =~= self@->Obj_0);
                r
            },
        }
    }
}

impl Clone for Json {
    fn clone(&self) -> (r: Self)
        ensures
            r@ == self@,
    {
        self.dup()
    }
}

/// The value of the first entry under `k`, from position `i` on.
pub open spec fn field_from(s: Seq<(Seq<char>, JsonView)>, i: int, k: Seq<char>) -> Option<JsonView>
    decreases s.len() - i,
{
    if i < 0 || i >= s.len() {
        None
    } else if s[i].0 == k {
        Some(s[i].1)
    } else {
        field_from(s, i + 1, k)
    }
}

/// The value under `k`, where the document is an object that has one.
pub open spec fn field(j: JsonView, k: Seq<char>) -> Option<JsonView> {
    match j {
        JsonView::Obj(s) => field_from(s, 0, k),
        _ => None,
    }
}

/// The text of a string value.
pub open spec fn text_of(j: JsonView) -> Option<Seq<char>> {
    match j {
        JsonView::Str(s) => Some(s),
        _ => None,
    }
}

impl Json {
    /// The value under `k`, where this is an object that has one.
    pub fn get(&self, k: &str) -> (r: Option<&Json>)
        ensures
            r.deep_view() == field(self@, k@),
    {
        match self {
            Json::Obj(v) => {
                let mut i: usize = 0;
                while i < v.len()
                    invariant
                        i <= v.len(),
                        self@ == json_view(Json::Obj(*v)),
                        field(self@, k@) == field_from(self@->Obj_0, i as int, k@),
                    decreases v.len() - i,
                {
                    if str_eq(v[i].0.as_str(), k) {
                        return Some(&v[i].1);
                    }
                    i = i + 1;
                }
                None
            },
            _ => None,
        }
    }

    /// The text, where this is a string.
    pub fn as_str(&self) -> (r: Option<&str>)
        ensures
            r.deep_view() == text_of(self@),
    {
        match self {
            Json::Str(s) => Some(s.as_str()),
            _ => None,
        }
    }
}

/// A string value.
pub fn json_str(s: &str) -> (r: Json)
    ensures
        r@ == JsonView::Str(s@),
{
    Json::Str(s.to_owned())
}

/// The array of the given texts.
pub open spec fn str_array(s: Seq<Seq<char>>) -> JsonView {
    JsonView::Arr(s.map_values(|t: Seq<char>| JsonView::Str(t)))
}

pub fn json_strs(v: &Vec<String>) -> (r: Json)
    ensures
        r@ == str_array(v.deep_view()),
{
    let mut out: Vec<Json> = Vec::new();
    let mut i: usize = 0;
    while i < v.len()
        invariant
            i <= v.len(),
            out.len() == i,
            forall|k: int| 0 <= k < i ==> json_view(#[trigger] out@[k]) == JsonView::Str(v@[k]@),
        decreases v.len() - i,
    {
        out.push(Json::Str(v[i].clone()));
        i = i + 1;
    }
    let r = Json::Arr(out);
    assert(r@->Arr_0 =~= str_array(v.deep_view())->Arr_0);
    r
}

/// The value of an optional text: the text, or null.
pub open spec fn opt_str(o: Option<Seq<char>>) -> JsonView {
    match o {
        Some(s) => JsonView::Str(s),
        None => JsonView::Null,
    }
}

pub fn json_opt(o: &Option<String>) -> (r: Json)
    ensures
        r@ == opt_str(o.deep_view()),
{
    match o {
        Some(s) => Json::Str(s.clone()),
        None => Json::Null,
    }
}

/// The entries of an object.
pub open spec fn json_entries(v: Seq<(String, Json)>) -> Seq<(Seq<char>, JsonView)> {
    Seq::new(v.len(), |i: int| (v[i].0@, v[i].1@))
}

/// The object with the given entries.
pub fn json_object(v: Vec<(String, Json)>) -> (r: Json)
    ensures
        r@ == JsonView::Obj(json_entries(v@)),
{
    let r = Json::Obj(v);
    assert(r@->Obj_0 =~= json_entries(v@));
    r
}

/// What `serde_json::from_str` makes of a text: a document, or the text of its
/// error.
pub uninterp spec fn parsed(text: Seq<char>) -> Result<JsonView, Seq<char>>;

/// The bytes that `serde_json::to_vec` writes for a document.
pub uninterp spec fn compact_bytes(j: JsonView) -> Seq<u8>;

/// The text that `serde_json::Value::to_string` gives for a document.
pub uninterp spec fn compact_text(j: JsonView) -> Seq<char>;

/// A document as `serde_json::Value` holds it: each key of an object once, under its last
/// value and in the order that it keeps, and numbers in the form that it gives them.
pub uninterp spec fn held(j: JsonView) -> JsonView;

/// A token of a JSON pointer from position `i` on, with `~1` and `~0` read as the separator
/// and the tilde that they stand for.
pub open spec fn pointer_token(t: Seq<char>, i: int) -> Seq<char>
    decreases t.len() - i,
{
    if i < 0 || i >= t.len() {
        Seq::empty()
    } else if t[i] == '~' && i + 1 < t.len() && t[i + 1] == '1' {
        seq!['/'] + pointer_token(t, i + 2)
    } else if t[i] == '~' && i + 1 < t.len() && t[i + 1] == '0' {
        seq!['~'] + pointer_token(t, i + 2)
    } else {
        seq![t[i]] + pointer_token(t, i + 1)
    }
}

/// The value of the last of the first `n` entries that is under `k`.
pub open spec fn last_field(s: Seq<(Seq<char>, JsonView)>, n: int, k: Seq<char>) -> Option<JsonView>
    decreases n,
{
    if n <= 0 || n > s.len() {
        None
    } else if s[n - 1].0 == k {
        Some(s[n - 1].1)
    } else {
        last_field(s, n - 1, k)
    }
}

/// The element, from position `i` on, whose position is written as `t`.
pub open spec fn element(a: Seq<JsonView>, i: int, t: Seq<char>) -> Option<JsonView>
    decreases a.len() - i,
{
    if i < 0 || i >= a.len() {
        None
    } else if decimal(i as nat) == t {
        Some(a[i])
    } else {
        element(a, i + 1, t)
    }
}

/// Where the tokens of a JSON pointer, from position `i` on, lead: a token names a key of an
/// object or a position in an array.
pub open spec fn walked(j: JsonView, tokens: Seq<Seq<char>>, i: int) -> Option<JsonView>
    decreases tokens.len() - i,
{
    if i < 0 || i >= tokens.len() {
        Some(j)
    } else {
        let t = pointer_token(tokens[i], 0);
        let below = match j {
            JsonView::Obj(s) => last_field(s, s.len() as int, t),
            JsonView::Arr(a) => element(a, 0, t),
            _ => None,
        };
        match below {
            None => None,
            Some(v) => walked(v, tokens, i + 1),
        }
    }
}

/// Where a JSON pointer leads: the empty one to the document itself, one that does not start
/// with a separator nowhere.
pub open spec fn pointed(j: JsonView, pointer: Seq<char>) -> Option<JsonView> {
    if pointer.len() == 0 {
        Some(j)
    } else if pointer[0] != '/' {
        None
    } else {
        walked(j, split(pointer, '/'), 1)
    }
}

/// Whether a document is held as it is: it is null, a truth value, an unsigned number or a
/// text.
pub open spec fn held_as_is(j: JsonView) -> bool {
    j is Null || j is Bool || j is UInt || j is Str
}

/// What a JSON pointer finds in a document.
pub open spec fn found_at(j: JsonView, pointer: Seq<char>) -> Option<JsonView> {
    match pointed(j, pointer) {
        None => None,
        Some(v) => Some(
            if held_as_is(v) {
                v
            } else {
                held(v)
            },
        ),
    }
}

/// `serde_json::Value`, carried from one call of `serde_json` to the next.
#[verifier::external_type_specification]
#[verifier::external_body]
pub struct ExValue(serde_json::Value);

/// The library's form of a `serde_json::Value`, variant by variant.
#[verifier::external_body]
fn from_value(v: &Value) -> Json {
    match v {
        Value::Null => Json::Null,
        Value::Bool(b) => Json::Bool(*b),
        Value::Number(n) => match (n.as_u64(), n.as_i64()) {
            (Some(u), _) => Json::UInt(u),
            (None, Some(i)) => Json::Int(i),
            (None, None) => Json::Float(n.to_string()),
        },
        Value::String(s) => Json::Str(s.clone()),
        Value::Array(a) => Json::Arr(a.iter().map(from_value).collect()),
        Value::Object(o) => Json::Obj(
            o.iter().map(|(k, v)| (k.clone(), from_value(v))).collect(),
        ),
    }
}

/// The `Value` that a document stands for, variant by variant. Where
/// a key occurs more than once in an object, its last value stays.
#[verifier::external_body]
fn to_value(j: &Json) -> Value {
    match j {
        Json::Null => Value::Null,
        Json::Bool(b) => Value::from(*b),
        Json::UInt(n) => Value::from(*n),
        Json::Int(n) => Value::from(*n),
        Json::Float(t) => Value::from(
            t.parse().ok().and_then(serde_json::Number::from_f64),
        ),
        Json::Str(s) => Value::from(s.as_str()),
        Json::Arr(a) => a.iter().map(to_value).collect(),
        Json::Obj(o) => o.iter().map(|(k, v)| (k.clone(), to_value(v))).collect(),
    }
}

/// `serde_json::from_str` into a `Value`. Claims only that the outcome is a
/// function of the text.
#[verifier::external_body]
pub(crate) fn parse(text: &str) -> (r: Result<Json, String>)
    ensures
        (match r {
            Ok(j) => Ok(j@),
            Err(e) => Err(e@),
        }) == parsed(text@),
{
    match serde_json::from_str::<Value>(text) {
        Ok(v) => Ok(from_value(&v)),
        Err(e) => Err(e.to_string()),
    }
}

/// `serde_json::to_vec` of a `Value`. Claims only that the bytes are a function
/// of the document.
#[verifier::external_body]
pub(crate) fn to_bytes(j: &Json) -> (r: Vec<u8>)
    ensures
        r@ == compact_bytes(j@),
{
    serde_json::to_vec(&to_value(j)).unwrap_or_default()
}

/// `Value::to_string`, the compact text of a document. Claims only that the text
/// is a function of the document.
#[verifier::external_body]
pub(crate) fn to_text(j: &Json) -> (r: String)
    ensures
        r@ == compact_text(j@),
{
    to_value(j).to_string()
}

/// `Value::pointer`, the lookup of a JSON pointer. Claims that it finds what the tokens of
/// the pointer lead to, key by key and position by position, and that a null, a truth value,
/// an unsigned number or a text is found as it is; of anything else it claims only that the
/// form in which it is found is a function of it.
#[verifier::external_body]
pub(crate) fn at_pointer(j: &Json, pointer: &str) -> (r: Option<Json>)
    ensures
        r.deep_view() == match pointed(j@, pointer@) {
            None => None,
            Some(v) => Some(
                if held_as_is(v) {
                    v
                } else {
                    held(v)
                },
            ),
        },
{
    to_value(j).pointer(pointer).map(from_value)
}

} // verus!
