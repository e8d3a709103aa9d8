//! Settings as they are changed and written.

use vstd::prelude::*;
use crate::config::merge::{at, ordered, ordered_entry, width};
use crate::paths::{
    file_name, file_name_of, join_path, joined, stem, stem_of, with_file_name, with_name,
};
use crate::strmap::{lex_lt, lookup, lookup_put, put, put_last, sorted, StrMap};
use crate::text::{cat2, Duplicate};
use crate::tomlvalue::{table_view, write_toml, written_toml, TableView, TomlValue, TomlView};

verus! {

/// Whether an array can be written: it holds plain values only.
pub open spec fn plain_items(a: Seq<TomlView>) -> bool {
    forall|i: int|
        0 <= i < a.len() ==> {
            let x = #[trigger] a[i];
            x is String || x is Integer || x is Float || x is Boolean
        }
}

/// What keeps a value under `key` from being written.
pub open spec fn write_problem(key: Seq<char>, v: TomlView) -> Option<Seq<char>>
    decreases v, width(v) + 1,
{
    match v {
        TomlView::Array(a) => if plain_items(a) {
            None
        } else {
            Some("unsupported array item for key "@ + key)
        },
        TomlView::Table(s) => entries_write_problem(v, 0),
        _ => None,
    }
}

/// What keeps the entries of a table, from position `i` on, from being written.
pub open spec fn entries_write_problem(v: TomlView, i: int) -> Option<Seq<char>>
    decreases v, width(v) - i,
{
    match v {
        TomlView::Table(s) => if i < 0 || i >= s.len() {
            None
        } else {
            proof {
                assert(decreases_to!(s => s[i]));
            }
            match write_problem(s[i].0, s[i].1) {
                Some(p) => Some(p),
                None => entries_write_problem(v, i + 1),
            }
        },
        _ => None,
    }
}

/// Settings in which each date is a text: a date is written as one.
pub open spec fn dates_as_texts(v: TomlView) -> TomlView
    decreases v,
{
    match v {
        TomlView::Datetime(t) => TomlView::String(t),
        TomlView::Table(s) => TomlView::Table(
            Seq::new(
                s.len(),
                |i: int|
                    if 0 <= i < s.len() {
                        (s[i].0, dates_as_texts(s[i].1))
                    } else {
                        s[i]
                    },
            ),
        ),
        _ => v,
    }
}

fn with_dates_as_texts(value: &TomlValue) -> (r: TomlValue)
    ensures
        r@ == dates_as_texts(value@),
    decreases value,
{
    match value {
        TomlValue::Datetime(t) => TomlValue::String(t.clone()),
        TomlValue::Table(m) => {
            proof {
                table_view(*m);
                m.values_are_smaller();
                m.raw_view();
            }
            m.order();
            let ghost all = dates_as_texts(value@)->Table_0;
            let mut out: StrMap<TomlValue> = StrMap::new();
            let mut i: usize = 0;
            assert(all.subrange(0, 0) =~= Seq::empty());
            while i < m.len()
                invariant
                    i <= m@.len(),
                    value@ == TomlView::Table(m@),
                    dates_as_texts(value@) == TomlView::Table(all),
                    all.len() == m@.len(),
                    sorted(m@),
                    m@.len() == m.raw().len(),
                    decreases_to!(value => m),
                    forall|j: int|
                        0 <= j < m.raw().len() ==> decreases_to!(*m => (#[trigger] m.raw()[j]).1),
                    out@ == all.subrange(0, i as int),
                decreases m@.len() - i,
            {
                let k = m.key_at(i).clone();
                assert(decreases_to!(*m => m.raw()[i as int].1));
                let v = with_dates_as_texts(m.value_at(i));
                proof {
                    assert(all[i as int] == (m@[i as int].0, dates_as_texts(m@[i as int].1)));
                    assert forall|j: int| 0 <= j < out@.len() implies lex_lt(
                        #[trigger] out@[j].0,
                        k@,
                    ) by {
                        assert(all[j].0 == m@[j].0);
                        assert(lex_lt(m@[j].0, m@[i as int].0));
                    }
                    put_last(out@, k@, v.deep_view());
                }
                out.insert(k, v);
                i = i + 1;
                assert(out@ =~= all.subrange(0, i as int));
            }
            assert(all.subrange(0, i as int) =~= all);
            proof {
                table_view(out);
            }
            TomlValue::Table(out)
        },
        _ => value.dup(),
    }
}

/// The document of settings, or what keeps them from being written.
pub open spec fn stable_document(v: TomlView) -> Result<Seq<char>, Seq<char>> {
    match v {
        TomlView::Table(s) => match entries_write_problem(v, 0) {
            Some(p) => Err(p),
            None => Ok(written_toml(seq![("printrevolt"@, dates_as_texts(v))])),
        },
        _ => Err("printrevolt value must be a table"@),
    }
}

fn has_plain_items(a: &Vec<TomlValue>) -> (r: bool)
    ensures
        r == plain_items(TomlValue::Array(*a)@->Array_0),
{
    let ghost s = TomlValue::Array(*a)@->Array_0;
    let mut i: usize = 0;
    while i < a.len()
        invariant
            i <= a.len(),
            s == TomlValue::Array(*a)@->Array_0,
            forall|k: int|
                0 <= k < i ==> (#[trigger] s[k]) is String || s[k] is Integer || s[k] is Float
                    || s[k] is Boolean,
        decreases a.len() - i,
    {
        assert(s[i as int] == a[i as int]@);
        match &a[i] {
            TomlValue::String(_) | TomlValue::Integer(_) | TomlValue::Float(_)
            | TomlValue::Boolean(_) => {},
            _ => {
                return false;
            },
        }
        i = i + 1;
    }
    true
}

fn check_toml_value(key: &str, value: &TomlValue) -> (r: Result<(), String>)
    ensures
        (match r {
            Ok(_) => None,
            Err(e) => Some(e@),
        }) == write_problem(key@, value@),
    decreases value, 1int,
{
    match value {
        TomlValue::Array(a) => {
            if has_plain_items(a) {
                Ok(())
            } else {
                Err(cat2("unsupported array item for key ", key))
            }
        },
        TomlValue::Table(_) => check_toml_entries(value),
        _ => Ok(()),
    }
}

fn check_toml_entries(value: &TomlValue) -> (r: Result<(), String>)
    requires
        value is Table,
    ensures
        (match r {
            Ok(_) => None,
            Err(e) => Some(e@),
        }) == entries_write_problem(value@, 0),
    decreases value, 0int,
{
    if let TomlValue::Table(m) = value {
        proof {
            table_view(*m);
            m.values_are_smaller();
            m.raw_view();
        }
        let ghost v = value@;
        let mut i: usize = 0;
        while i < m.len()
            invariant
                i <= m@.len(),
                v == TomlView::Table(m@),
                v == value@,
                m@.len() == m.raw().len(),
                decreases_to!(value => m),
                forall|j: int|
                    0 <= j < m.raw().len() ==> decreases_to!(*m => (#[trigger] m.raw()[j]).1),
                entries_write_problem(v, 0) == entries_write_problem(v, i as int),
            decreases m@.len() - i,
        {
            let child = m.value_at(i);
            assert(decreases_to!(*m => m.raw()[i as int].1));
            check_toml_value(m.key_at(i).as_str(), child)?;
            i = i + 1;
        }
    }
    Ok(())
}

/// The document that settings are written as.
pub fn render_stable_toml_document(value: &TomlValue) -> (r: Result<String, String>)
    ensures
        (match r {
            Ok(t) => Ok(t@),
            Err(e) => Err(e@),
        }) == stable_document(value@),
{
    if !value.is_table() {
        return Err("printrevolt value must be a table".to_owned());
    }
    check_toml_entries(value)?;
    let plain = with_dates_as_texts(value);
    let mut document: StrMap<TomlValue> = StrMap::new();
    proof {
        put_last(document@, "printrevolt"@, plain.deep_view());
    }
    document.insert("printrevolt".to_owned(), plain);
    assert(document@ =~= seq![("printrevolt"@, dates_as_texts(value@))]);
    Ok(write_toml(&document))
}

/// The name of a settings file, the usual one where its path has none.
pub open spec fn settings_name(target: Seq<char>) -> Seq<char> {
    match file_name(target) {
        Some(name) => name,
        None => "printrevolt.toml"@,
    }
}

fn settings_name_of(target: &str) -> (r: String)
    ensures
        r@ == settings_name(target@),
{
    match file_name_of(target) {
        Some(name) => name,
        None => "printrevolt.toml".to_owned(),
    }
}

/// The file that is locked while settings are written.
pub fn lock_path_for(target: &str) -> (r: String)
    ensures
        r@ == with_name(target@, settings_name(target@) + ".lock"@),
{
    let name = settings_name_of(target);
    let lock_name = cat2(name.as_str(), ".lock");
    with_file_name(target, lock_name.as_str())
}

/// The file that settings are written to before it takes the place of the old one.
pub fn temporary_path_for(parent: &str, target: &str) -> (r: String)
    ensures
        r@ == joined(parent@, stem(settings_name(target@)) + ".toml.tmp"@),
{
    let name = settings_name_of(target);
    let first = stem_of(name.as_str());
    let leaf = cat2(first.as_str(), ".toml.tmp");
    join_path(parent, leaf.as_str())
}

/// A table in which a leaf is set below the keys of `path` from position `i` on: missing
/// tables are added, and anything else in the way is an error.
pub open spec fn set_at(s: TableView, path: Seq<Seq<char>>, i: int, leaf: TomlView) -> Result<
    TableView,
    Seq<char>,
>
    decreases path.len() - i,
{
    if i < 0 || i >= path.len() {
        Err("empty config key path"@)
    } else if i == path.len() - 1 {
        Ok(put(s, path[i], leaf))
    } else {
        match lookup(s, path[i]) {
            None => match set_at(Seq::empty(), path, i + 1, leaf) {
                Err(e) => Err(e),
                Ok(t) => Ok(put(s, path[i], TomlView::Table(t))),
            },
            Some(TomlView::Table(inner)) => match set_at(inner, path, i + 1, leaf) {
                Err(e) => Err(e),
                Ok(t) => Ok(put(s, path[i], TomlView::Table(t))),
            },
            Some(_) => Err("path segment is not a table: "@ + path[i]),
        }
    }
}

/// Settings in which a leaf is set.
pub open spec fn with_leaf(root: TomlView, path: Seq<Seq<char>>, leaf: TomlView) -> Result<
    TomlView,
    Seq<char>,
> {
    match root {
        TomlView::Table(s) => match set_at(s, path, 0, leaf) {
            Ok(t) => Ok(TomlView::Table(t)),
            Err(e) => Err(e),
        },
        _ => Err("printrevolt config root is not a table"@),
    }
}

fn set_in_table(
    table: &StrMap<TomlValue>,
    path: &Vec<String>,
    i: usize,
    leaf: &TomlValue,
) -> (r: Result<StrMap<TomlValue>, String>)
    requires
        i <= path@.len(),
    ensures
        (match r {
            Ok(t) => Ok(t@),
            Err(e) => Err(e@),
        }) == set_at(table@, path.deep_view(), i as int, leaf@),
    decreases path@.len() - i,
{
    if i >= path.len() {
        return Err("empty config key path".to_owned());
    }
    assert(path.deep_view()[i as int] == path[i as int]@);
    let mut out = table.dup();
    if i == path.len() - 1 {
        out.insert(path[i].clone(), leaf.dup());
        return Ok(out);
    }
    let inner = match table.get(path[i].as_str()) {
        None => {
            let fresh: StrMap<TomlValue> = StrMap::new();
            set_in_table(&fresh, path, i + 1, leaf)?
        },
        Some(TomlValue::Table(t)) => {
            proof {
                table_view(*t);
            }
            set_in_table(t, path, i + 1, leaf)?
        },
        Some(_) => {
            return Err(cat2("path segment is not a table: ", path[i].as_str()));
        },
    };
    proof {
        table_view(inner);
    }
    out.insert(path[i].clone(), TomlValue::Table(inner));
    Ok(out)
}

fn set_toml_leaf(root: &mut TomlValue, path: &Vec<String>, leaf: &TomlValue) -> (r: Result<
    (),
    String,
>)
    ensures
        match with_leaf(old(root)@, path.deep_view(), leaf@) {
            Ok(v) => r is Ok && final(root)@ == v,
            Err(e) => r is Err && r->Err_0@ == e && final(root)@ == old(root)@,
        },
{
    let table = match &*root {
        TomlValue::Table(t) => {
            proof {
                table_view(*t);
            }
            set_in_table(t, path, 0, leaf)?
        },
        _ => {
            return Err("printrevolt config root is not a table".to_owned());
        },
    };
    proof {
        table_view(table);
    }
    *root = TomlValue::Table(table);
    Ok(())
}

/// Sets a switch at a path of keys.
pub fn set_toml_bool(root: &mut TomlValue, path: &Vec<String>, value: bool) -> (r: Result<
    (),
    String,
>)
    ensures
        match with_leaf(old(root)@, path.deep_view(), TomlView::Boolean(value)) {
            Ok(v) => r is Ok && final(root)@ == v,
            Err(e) => r is Err && r->Err_0@ == e && final(root)@ == old(root)@,
        },
{
    set_toml_leaf(root, path, &TomlValue::Boolean(value))
}

/// Sets a text at a path of keys.
pub fn set_toml_string(root: &mut TomlValue, path: &Vec<String>, value: &str) -> (r: Result<
    (),
    String,
>)
    ensures
        match with_leaf(old(root)@, path.deep_view(), TomlView::String(value@)) {
            Ok(v) => r is Ok && final(root)@ == v,
            Err(e) => r is Err && r->Err_0@ == e && final(root)@ == old(root)@,
        },
{
    set_toml_leaf(root, path, &TomlValue::String(value.to_owned()))
}

proof fn set_at_is_read_back(s: TableView, path: Seq<Seq<char>>, i: int, leaf: TomlView)
    requires
        0 <= i,
        ordered(TomlView::Table(s)),
    ensures
        set_at(s, path, i, leaf) matches Ok(t) ==> at(
            TomlView::Table(t),
            path.subrange(i, path.len() as int),
        ) == Some(leaf),
    decreases path.len() - i,
{
    if i < path.len() {
        let below = path.subrange(i, path.len() as int);
        assert(below.drop_first() =~= path.subrange(i + 1, path.len() as int));
        assert(below[0] == path[i]);
        if i == path.len() - 1 {
            lookup_put(s, path[i], leaf, path[i]);
            reveal_with_fuel(at, 2);
        } else {
            let none: TableView = Seq::empty();
            let inner = match lookup(s, path[i]) {
                Some(TomlView::Table(inner)) => inner,
                _ => none,
            };
            ordered_entry(TomlView::Table(s), path[i]);
            assert(ordered(TomlView::Table(inner)));
            set_at_is_read_back(inner, path, i + 1, leaf);
            if let Ok(t) = set_at(inner, path, i + 1, leaf) {
                lookup_put(s, path[i], TomlView::Table(t), path[i]);
            }
        }
    }
}

/// What is set at a path is found there.
pub proof fn set_leaf_is_read_back(root: TomlView, path: Seq<Seq<char>>, leaf: TomlView)
    requires
        ordered(root),
    ensures
        with_leaf(root, path, leaf) matches Ok(v) ==> at(v, path) == Some(leaf),
{
    if let TomlView::Table(s) = root {
        set_at_is_read_back(s, path, 0, leaf);
        assert(path.subrange(0, path.len() as int) =~= path);
    }
}

} // verus!
