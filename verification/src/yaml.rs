//! YAML documents as plain values.

use serde_yaml::Value;
use vstd::prelude::*;
use crate::text::str_eq;

verus! {

/// `serde_yaml::Number`, carried from one call of `serde_yaml` to the next.
#[verifier::external_type_specification]
#[verifier::external_body]
pub struct ExYamlNumber(serde_yaml::Number);

/// `serde_yaml::value::Tag`, carried from one call of `serde_yaml` to the next.
#[verifier::external_type_specification]
#[verifier::external_body]
pub struct ExYamlTag(serde_yaml::value::Tag);

/// `serde_yaml::Value`, carried from one call of `serde_yaml` to the next.
#[verifier::external_type_specification]
#[verifier::external_body]
pub struct ExYamlValue(serde_yaml::Value);

/// A YAML value.
#[derive(Debug)]
pub enum Yaml {
    Null,
    Bool(bool),
    Number(serde_yaml::Number),
    Str(String),
    Sequence(Vec<Yaml>),
    Mapping(Vec<(Yaml, Yaml)>),
    Tagged(serde_yaml::value::Tag, Box<Yaml>),
}

/// What a [`Yaml`] stands for.
#[verifier::ext_equal]
pub enum YamlView {
    Null,
    Bool(bool),
    Number(serde_yaml::Number),
    Str(Seq<char>),
    Sequence(Seq<YamlView>),
    Mapping(Seq<(YamlView, YamlView)>),
    Tagged(serde_yaml::value::Tag, Box<YamlView>),
}

/// The meaning of a [`Yaml`].
pub open spec fn yaml_view(x: Yaml) -> YamlView
    decreases x,
{
    match x {
        Yaml::Null => YamlView::Null,
        Yaml::Bool(b) => YamlView::Bool(b),
        Yaml::Number(n) => YamlView::Number(n),
        Yaml::Str(s) => YamlView::Str(s@),
        Yaml::Sequence(v) => YamlView::Sequence(
            Seq::new(
                v@.len(),
                |i: int|
                    if 0 <= i < v@.len() {
                        yaml_view(v[i])
                    } else {
                        YamlView::Null
                    },
            ),
        ),
        Yaml::Mapping(v) => YamlView::Mapping(
            Seq::new(
                v@.len(),
                |i: int|
                    if 0 <= i < v@.len() {
                        (yaml_view(v[i].0), yaml_view(v[i].1))
                    } else {
                        (YamlView::Null, YamlView::Null)
                    },
            ),
        ),
        Yaml::Tagged(t, v) => YamlView::Tagged(t, Box::new(yaml_view(*v))),
    }
}

impl View for Yaml {
    type V = YamlView;

    open spec fn view(&self) -> YamlView {
        yaml_view(*self)
    }
}

/// The values of a list.
pub open spec fn yaml_views(s: Seq<Yaml>) -> Seq<YamlView> {
    Seq::new(s.len(), |i: int| yaml_view(s[i]))
}

/// The entries of a mapping.
pub open spec fn yaml_pairs(s: Seq<(Yaml, Yaml)>) -> Seq<(YamlView, YamlView)> {
    Seq::new(s.len(), |i: int| (yaml_view(s[i].0), yaml_view(s[i].1)))
}

/// A list stands for what its values stand for.
pub proof fn sequence_view(v: Vec<Yaml>)
    ensures
        yaml_view(Yaml::Sequence(v)) == YamlView::Sequence(yaml_views(v@)),
{
    assert(yaml_view(Yaml::Sequence(v))->Sequence_0 =~= yaml_views(v@));
}

/// A mapping stands for what its entries stand for.
pub proof fn mapping_view(v: Vec<(Yaml, Yaml)>)
    ensures
        yaml_view(Yaml::Mapping(v)) == YamlView::Mapping(yaml_pairs(v@)),
{
    assert(yaml_view(Yaml::Mapping(v))->Mapping_0 =~= yaml_pairs(v@));
}

/// The text of a string value, tagged or not.
pub open spec fn yaml_text(v: YamlView) -> Option<Seq<char>>
    decreases v,
{
    match v {
        YamlView::Str(s) => Some(s),
        YamlView::Tagged(_, inner) => yaml_text(*inner),
        _ => None,
    }
}

/// Whether a value is, tagged or not, the given text.
pub fn is_text(v: &Yaml, s: &str) -> (r: bool)
    ensures
        r == (yaml_text(v@) == Some(s@)),
    decreases v,
{
    match v {
        Yaml::Str(t) => str_eq(t.as_str(), s),
        Yaml::Tagged(_, inner) => is_text(inner, s),
        _ => false,
    }
}

/// What `serde_yaml::from_str` makes of a text: a document, or the text of its error.
pub uninterp spec fn parsed_yaml(text: Seq<char>) -> Result<YamlView, Seq<char>>;

/// What `serde_yaml::to_string` writes for a document, or the text of its error.
pub uninterp spec fn written_yaml(v: YamlView) -> Result<Seq<char>, Seq<char>>;

/// The library's form of a `serde_yaml::Value`, variant by variant.
#[verifier::external_body]
fn from_yaml(v: Value) -> Yaml {
    match v {
        Value::Null => Yaml::Null,
        Value::Bool(b) => Yaml::Bool(b),
        Value::Number(n) => Yaml::Number(n),
        Value::String(s) => Yaml::Str(s),
        Value::Sequence(a) => Yaml::Sequence(a.into_iter().map(from_yaml).collect()),
        Value::Mapping(m) => Yaml::Mapping(
            m.into_iter().map(|(k, v)| (from_yaml(k), from_yaml(v))).collect(),
        ),
        Value::Tagged(t) => Yaml::Tagged(t.tag, Box::new(from_yaml(t.value))),
    }
}

/// The `Value` that a document stands for, variant by variant.
#[verifier::external_body]
fn to_yaml(v: Yaml) -> Value {
    match v {
        Yaml::Null => Value::Null,
        Yaml::Bool(b) => Value::Bool(b),
        Yaml::Number(n) => Value::Number(n),
        Yaml::Str(s) => Value::String(s),
        Yaml::Sequence(a) => Value::Sequence(a.into_iter().map(to_yaml).collect()),
        Yaml::Mapping(m) => Value::Mapping(
            m.into_iter().map(|(k, v)| (to_yaml(k), to_yaml(v))).collect(),
        ),
        Yaml::Tagged(tag, v) => Value::Tagged(
            Box::new(serde_yaml::value::TaggedValue { tag, value: to_yaml(*v) }),
        ),
    }
}

/// `serde_yaml::from_str` into a `serde_yaml::Value`. Claims only that the outcome is a
/// function of the text.
#[verifier::external_body]
pub(crate) fn parse_yaml(text: &str) -> (r: Result<Yaml, String>)
    ensures
        (match r {
            Ok(v) => Ok(v@),
            Err(e) => Err(e@),
        }) == parsed_yaml(text@),
{
    match serde_yaml::from_str::<Value>(text) {
        Ok(v) => Ok(from_yaml(v)),
        Err(e) => Err(e.to_string()),
    }
}

/// `serde_yaml::to_string` of a `Value`. Claims only that the outcome is a
/// function of the document; what `serde_yaml::from_str` makes of the text is left unsaid.
#[verifier::external_body]
pub(crate) fn write_yaml(v: Yaml) -> (r: Result<String, String>)
    ensures
        (match r {
            Ok(t) => Ok(t@),
            Err(e) => Err(e@),
        }) == written_yaml(v@),
{
    serde_yaml::to_string(&to_yaml(v)).map_err(|e| e.to_string())
}

} // verus!
