//! TOML values as plain values.

use toml::Value;
use toml_edit::{value, Array, Item};
use vstd::prelude::*;
use crate::strmap::{lookup, sorted, StrMap};
use crate::text::Duplicate;

verus! {

/// A TOML value. A float and a date are held by their text, as TOML writes them.
#[derive(Debug, PartialEq, Eq)]
pub enum TomlValue {
    String(String),
    Integer(i64),
    Float(String),
    Boolean(bool),
    Datetime(String),
    Array(Vec<TomlValue>),
    Table(StrMap<TomlValue>),
}

/// What a [`TomlValue`] stands for.
#[verifier::ext_equal]
pub enum TomlView {
    String(Seq<char>),
    Integer(i64),
    Float(Seq<char>),
    Boolean(bool),
    Datetime(Seq<char>),
    Array(Seq<TomlView>),
    Table(Seq<(Seq<char>, TomlView)>),
}

/// The entries of a table.
pub type TableView = Seq<(Seq<char>, TomlView)>;

/// The meaning of a [`TomlValue`].
pub open spec fn toml_view(x: TomlValue) -> TomlView
    decreases x,
{
    match x {
        TomlValue::String(s) => TomlView::String(s@),
        TomlValue::Integer(n) => TomlView::Integer(n),
        TomlValue::Float(t) => TomlView::Float(t@),
        TomlValue::Boolean(b) => TomlView::Boolean(b),
        TomlValue::Datetime(t) => TomlView::Datetime(t@),
        TomlValue::Array(v) => TomlView::Array(
            Seq::new(
                v@.len(),
                |i: int|
                    if 0 <= i < v@.len() {
                        toml_view(v[i])
                    } else {
                        TomlView::Boolean(false)
                    },
            ),
        ),
        TomlValue::Table(m) => {
            proof {
                m.values_are_smaller();
            }
            TomlView::Table(
                Seq::new(
                    m.raw().len(),
                    |i: int|
                        if 0 <= i < m.raw().len() {
                            (m.raw()[i].0, toml_view(m.raw()[i].1))
                        } else {
                            (Seq::empty(), TomlView::Boolean(false))
                        },
                ),
            )
        },
    }
}

impl View for TomlValue {
    type V = TomlView;

    open spec fn view(&self) -> TomlView {
        toml_view(*self)
    }
}

impl DeepView for TomlValue {
    type V = TomlView;

    open spec fn deep_view(&self) -> TomlView {
        toml_view(*self)
    }
}

/// A table stands for what its entries stand for.
pub proof fn table_view(m: StrMap<TomlValue>)
    ensures
        toml_view(TomlValue::Table(m)) == TomlView::Table(m@),
{
    m.raw_view();
    assert(toml_view(TomlValue::Table(m))->Table_0 =~= m@);
}

impl Duplicate for TomlValue {
    fn dup(&self) -> (r: Self)
        decreases self,
    {
        match self {
            TomlValue::String(s) => TomlValue::String(s.clone()),
            TomlValue::Integer(n) => TomlValue::Integer(*n),
            TomlValue::Float(t) => TomlValue::Float(t.clone()),
            TomlValue::Boolean(b) => TomlValue::Boolean(*b),
            TomlValue::Datetime(t) => TomlValue::Datetime(t.clone()),
            TomlValue::Array(v) => {
                let mut out: Vec<TomlValue> = Vec::new();
                let mut i: usize = 0;
                while i < v.len()
                    invariant
                        i <= v.len(),
                        out.len() == i,
                        decreases_to!(self => v),
                        forall|k: int|
                            0 <= k < i ==> toml_view(#[trigger] out@[k]) == toml_view(v@[k]),
                    decreases v.len() - i,
                {
                    out.push(v[i].dup());
                    i = i + 1;
                }
                let r = TomlValue::Array(out);
                assert(r@->Array_0 =~= self@->Array_0);
                r
            },
            TomlValue::Table(m) => {
                proof {
                    table_view(*m);
                    m.values_are_smaller();
                }
                m.order();
                let ghost all = m@;
                let mut out: StrMap<TomlValue> = StrMap::new();
                let mut i: usize = 0;
                assert(all.subrange(0, 0) =~= Seq::empty());
                while i < m.len()
                    invariant
                        i <= m@.len(),
                        all == m@,
                        sorted(all),
                        m@.len() == m.raw().len(),
                        decreases_to!(self => m),
                        forall|j: int|
                            0 <= j < m.raw().len() ==> decreases_to!(*m => (#[trigger] m.raw()[j]).1),
                        out@ == all.subrange(0, i as int),
                    decreases m@.len() - i,
                {
                    let k = m.key_at(i).clone();
                    let value = m.value_at(i);
                    assert(decreases_to!(*m => m.raw()[i as int].1));
                    let v = value.dup();
                    proof {
                        assert forall|j: int| 0 <= j < out@.len() implies crate::strmap::lex_lt(
                            #[trigger] out@[j].0,
                            k@,
                        ) by {
                            assert(crate::strmap::lex_lt(all[j].0, all[i as int].0));
                        }
                        crate::strmap::put_last(out@, k@, v.deep_view());
                    }
                    out.insert(k, v);
                    i = i + 1;
                    assert(out@ =~= all.subrange(0, i as int));
                }
                assert(all.subrange(0, i as int) =~= all);
                proof {
                    table_view(out);
                }
                TomlValue::Table(out)
            },
        }
    }
}

impl Clone for TomlValue {
    fn clone(&self) -> (r: Self)
        ensures
            r@ == self@,
    {
        self.dup()
    }
}

/// The value under a key, where there is a table that has one.
pub open spec fn toml_get(v: TomlView, key: Seq<char>) -> Option<TomlView> {
    match v {
        TomlView::Table(s) => lookup(s, key),
        _ => None,
    }
}

impl TomlValue {
    pub fn is_table(&self) -> (r: bool)
        ensures
            r == self@ is Table,
    {
        match self {
            TomlValue::Table(_) => true,
            _ => false,
        }
    }

    /// The value under a key, where this is a table that has one.
    pub fn get(&self, key: &str) -> (r: Option<&TomlValue>)
        ensures
            r.deep_view() == toml_get(self@, key@),
    {
        match self {
            TomlValue::Table(m) => {
                proof {
                    table_view(*m);
                }
                m.get(key)
            },
            _ => None,
        }
    }
}

/// A table without entries.
pub fn empty_table() -> (r: TomlValue)
    ensures
        r@ == TomlView::Table(Seq::empty()),
{
    let m: StrMap<TomlValue> = StrMap::new();
    proof {
        table_view(m);
    }
    TomlValue::Table(m)
}

/// What `toml::from_str` makes of a text: a value, or the text of its error.
pub uninterp spec fn parsed_toml(text: Seq<char>) -> Result<TomlView, Seq<char>>;

/// The document that `toml_edit` writes with the given entries.
pub uninterp spec fn written_toml(entries: Seq<(Seq<char>, TomlView)>) -> Seq<char>;

/// `toml::Value`, carried from one call of `toml` to the next.
#[verifier::external_type_specification]
#[verifier::external_body]
pub struct ExTomlValue(toml::Value);

/// `toml_edit::Item`, carried from one call of `toml_edit` to the next.
#[verifier::external_type_specification]
#[verifier::external_body]
pub struct ExItem(toml_edit::Item);

/// The library's form of a `toml::Value`, variant by variant.
#[verifier::external_body]
fn from_toml(v: Value) -> TomlValue {
    match v {
        Value::String(s) => TomlValue::String(s),
        Value::Integer(n) => TomlValue::Integer(n),
        Value::Float(x) => TomlValue::Float(Value::Float(x).to_string()),
        Value::Boolean(b) => TomlValue::Boolean(b),
        Value::Datetime(d) => TomlValue::Datetime(d.to_string()),
        Value::Array(a) => TomlValue::Array(a.into_iter().map(from_toml).collect()),
        Value::Table(t) => {
            let mut m = StrMap::new();
            t.into_iter().for_each(|(k, v)| m.insert(k, from_toml(v)));
            TomlValue::Table(m)
        },
    }
}

/// The `toml_edit::Item` that a value stands for, variant by variant; a float and a date
/// are read from their text. A text that is neither, which no parsed value holds, is written
/// as 0.
#[verifier::external_body]
fn to_item(v: &TomlValue) -> Item {
    match v {
        TomlValue::String(s) => value(s.as_str()),
        TomlValue::Integer(n) => value(*n),
        TomlValue::Float(t) | TomlValue::Datetime(t) => Item::Value(
            t.parse().unwrap_or(0.into()),
        ),
        TomlValue::Boolean(b) => value(*b),
        TomlValue::Array(a) => value(
            a.iter().map(|x| to_item(x).into_value().unwrap_or(0.into())).collect::<Array>(),
        ),
        TomlValue::Table(m) => Item::Table(
            (0..m.len()).map(|i| (m.key_at(i).as_str(), to_item(m.value_at(i)))).collect(),
        ),
    }
}

/// `toml::from_str` into a `toml::Value`. Claims only that the outcome is a function of
/// the text.
#[verifier::external_body]
pub(crate) fn parse_toml(text: &str) -> (r: Result<TomlValue, String>)
    ensures
        (match r {
            Ok(v) => Ok(v@),
            Err(e) => Err(e@),
        }) == parsed_toml(text@),
{
    match toml::from_str::<Value>(text) {
        Ok(v) => Ok(from_toml(v)),
        Err(e) => Err(e.to_string()),
    }
}

/// `toml_edit::DocumentMut::to_string` of a document with the given entries. Claims only
/// that the text is a function of the entries; what `toml::from_str` makes of the text is
/// left unsaid.
#[verifier::external_body]
pub(crate) fn write_toml(entries: &StrMap<TomlValue>) -> (r: String)
    ensures
        r@ == written_toml(entries@),
{
    let mut doc = toml_edit::DocumentMut::new();
    doc.as_table_mut().extend(
        (0..entries.len()).map(|i| (entries.key_at(i).as_str(), to_item(entries.value_at(i)))),
    );
    doc.to_string()
}

} // verus!
