//! What holds of every change of settings, and of how they are written.

use vstd::prelude::*;
use crate::cli::settings::{settings_changed, settings_document, setting_leaf, SettingValue};
use crate::config::merge::{at, ordered, ordered_entry};
use crate::config::write::{
    dates_as_texts, entries_write_problem, set_at, set_leaf_is_read_back, stable_document, with_leaf,
    write_problem,
};
use crate::strmap::{lookup, lookup_put};
use crate::tomlvalue::{parsed_toml, written_toml, TableView, TomlView};

verus! {

/// Whether two paths of keys part: at some key they differ.
pub open spec fn part(p: Seq<Seq<char>>, q: Seq<Seq<char>>) -> bool {
    exists|k: int| 0 <= k < p.len() && k < q.len() && #[trigger] p[k] != q[k]
}

proof fn other_paths_stay(
    s: TableView,
    path: Seq<Seq<char>>,
    i: int,
    leaf: TomlView,
    q: Seq<Seq<char>>,
)
    requires
        0 <= i,
        ordered(TomlView::Table(s)),
        part(path.subrange(i, path.len() as int), q),
        i <= path.len(),
    ensures
        set_at(s, path, i, leaf) matches Ok(t) ==> at(TomlView::Table(t), q) == at(
            TomlView::Table(s),
            q,
        ),
    decreases path.len() - i,
{
    let p = path.subrange(i, path.len() as int);
    let k = choose|k: int| 0 <= k < p.len() && k < q.len() && #[trigger] p[k] != q[k];
    assert(p[0] == path[i]);
    let none: TableView = Seq::empty();
    let inner = match lookup(s, path[i]) {
        Some(TomlView::Table(inner)) => inner,
        _ => none,
    };
    if i == path.len() - 1 {
        assert(k == 0);
        lookup_put(s, path[i], leaf, q[0]);
    } else if q[0] != path[i] {
        if let Ok(t) = set_at(inner, path, i + 1, leaf) {
            lookup_put(s, path[i], TomlView::Table(t), q[0]);
        }
    } else {
        let deeper = path.subrange(i + 1, path.len() as int);
        let below = q.drop_first();
        assert(deeper[k - 1] == p[k] && below[k - 1] == q[k]);
        assert(part(deeper, below));
        ordered_entry(TomlView::Table(s), path[i]);
        assert(ordered(TomlView::Table(none)));
        other_paths_stay(inner, path, i + 1, leaf, below);
        if let Ok(t) = set_at(inner, path, i + 1, leaf) {
            lookup_put(s, path[i], TomlView::Table(t), q[0]);
            if lookup(s, path[i]) is None {
                nothing_in_nothing(below);
                assert(at(TomlView::Table(s), q) is None);
            }
        }
    }
}

proof fn nothing_in_nothing(q: Seq<Seq<char>>)
    requires
        q.len() > 0,
    ensures
        at(TomlView::Table(Seq::empty()), q) is None,
{
    let none: TableView = Seq::empty();
    crate::strmap::lookup_some(none, q[0]);
}

/// Setting one leaf leaves what stands at every path that parts from its own.
pub proof fn other_settings_stay(
    root: TomlView,
    path: Seq<Seq<char>>,
    leaf: TomlView,
    q: Seq<Seq<char>>,
)
    requires
        ordered(root),
        part(path, q),
    ensures
        with_leaf(root, path, leaf) matches Ok(v) ==> at(v, q) == at(root, q),
{
    if let TomlView::Table(s) = root {
        assert(path.subrange(0, path.len() as int) =~= path);
        other_paths_stay(s, path, 0, leaf, q);
    }
}

/// Whether something that is no table stands at the first `n` keys of a path.
pub open spec fn blocked(root: TomlView, path: Seq<Seq<char>>, n: int) -> bool {
    at(root, path.subrange(0, n)) matches Some(v) && !(v is Table)
}

proof fn set_where_free(s: TableView, path: Seq<Seq<char>>, i: int, leaf: TomlView)
    requires
        0 <= i < path.len(),
        ordered(TomlView::Table(s)),
    ensures
        set_at(s, path, i, leaf) is Ok <==> forall|n: int|
            0 < n < path.len() - i ==> !#[trigger] blocked(
                TomlView::Table(s),
                path.subrange(i, path.len() as int),
                n,
            ),
    decreases path.len() - i,
{
    let p = path.subrange(i, path.len() as int);
    let t = TomlView::Table(s);
    if i < path.len() - 1 {
        let none: TableView = Seq::empty();
        let deeper = path.subrange(i + 1, path.len() as int);
        let below = match lookup(s, path[i]) {
            Some(v) => v,
            None => TomlView::Table(none),
        };
        ordered_entry(t, path[i]);
        assert forall|n: int| 0 < n < path.len() - i implies (#[trigger] blocked(t, p, n) <==> (
        lookup(s, path[i]) is Some && blocked(below, deeper, n - 1))) by {
            let q = p.subrange(0, n);
            assert(q[0] == path[i]);
            assert(q.drop_first() =~= deeper.subrange(0, n - 1));
        }
        assert(deeper.subrange(0, 0) =~= Seq::empty());
        assert(blocked(below, deeper, 0) <==> !(below is Table));
        if let TomlView::Table(inner) = below {
            assert(ordered(TomlView::Table(none)));
            set_where_free(inner, path, i + 1, leaf);
            if lookup(s, path[i]) is None {
                assert forall|n: int| 0 < n < path.len() - (i + 1) implies !#[trigger] blocked(
                    below,
                    deeper,
                    n,
                ) by {
                    nothing_in_nothing(deeper.subrange(0, n));
                }
            } else {
                if exists|n: int| 0 < n < path.len() - i && #[trigger] blocked(t, p, n) {
                    let n = choose|n: int| 0 < n < path.len() - i && #[trigger] blocked(t, p, n);
                    assert(blocked(below, deeper, n - 1));
                    assert(n - 1 > 0);
                }
                if exists|n: int|
                    0 < n < path.len() - (i + 1) && #[trigger] blocked(below, deeper, n) {
                    let n = choose|n: int|
                        0 < n < path.len() - (i + 1) && #[trigger] blocked(below, deeper, n);
                    assert(blocked(t, p, n + 1));
                }
            }
        } else {
            assert(blocked(t, p, 1));
        }
    }
}

/// A leaf can be set at every path of at least one key on which nothing but tables stands in the
/// way.
pub proof fn leaf_is_set_where_nothing_is_in_the_way(
    root: TomlView,
    path: Seq<Seq<char>>,
    leaf: TomlView,
)
    requires
        ordered(root),
    ensures
        with_leaf(root, path, leaf) is Ok <==> root is Table && path.len() > 0 && forall|n: int|
            0 < n < path.len() ==> !#[trigger] blocked(root, path, n),
{
    if let TomlView::Table(s) = root {
        if path.len() > 0 {
            assert(path.subrange(0, path.len() as int) =~= path);
            set_where_free(s, path, 0, leaf);
        }
    }
}

/// Writing changes a date into the text of it and nothing else, wherever it stands.
pub proof fn only_dates_change(v: TomlView, path: Seq<Seq<char>>)
    requires
        ordered(v),
    ensures
        ({
            let before = at(v, path);
            let after = at(dates_as_texts(v), path);
            &&& before is None <==> after is None
            &&& before is Some && before->0 is Datetime ==> after == Some(
                TomlView::String(before->0->Datetime_0),
            )
            &&& before is Some && !(before->0 is Datetime) && !(before->0 is Table) ==> after
                == before
            &&& before is Some && before->0 is Table ==> after->0 is Table
        }),
    decreases path.len(),
{
    if path.len() > 0 {
        if let TomlView::Table(s) = v {
            let t = dates_as_texts(v)->Table_0;
            assert(t.len() == s.len());
            let f = |x: TomlView| dates_as_texts(x);
            assert(t =~= s.map_values(|e: (Seq<char>, TomlView)| (e.0, f(e.1)))) by {
                assert forall|i: int| 0 <= i < s.len() implies #[trigger] t[i] == (
                    s[i].0,
                    f(s[i].1),
                ) by {}
            }
            crate::strmap::lookup_mapped(s, t, f, path[0]);
            ordered_entry(v, path[0]);
            if lookup(s, path[0]) is Some {
                only_dates_change(lookup(s, path[0])->0, path.drop_first());
            }
        }
    }
}

/// Whether settings can be written: wherever an array stands in them, it holds plain values only.
pub open spec fn writable_settings(v: TomlView) -> bool
    decreases v,
{
    match v {
        TomlView::Array(a) => forall|i: int|
            0 <= i < a.len() ==> (#[trigger] a[i] is String || a[i] is Integer || a[i] is Float
                || a[i] is Boolean),
        TomlView::Table(s) => forall|i: int|
            0 <= i < s.len() ==> {
                proof {
                    assert(decreases_to!(s => s[i]));
                }
                writable_settings(#[trigger] s[i].1)
            },
        _ => true,
    }
}

proof fn problem_iff(key: Seq<char>, v: TomlView)
    ensures
        write_problem(key, v) is None <==> writable_settings(v),
    decreases v, crate::config::merge::width(v) + 1,
{
    if v is Table {
        entries_problem_iff(v, 0);
    }
}

proof fn entries_problem_iff(v: TomlView, i: int)
    requires
        v is Table,
        0 <= i,
    ensures
        entries_write_problem(v, i) is None <==> forall|k: int|
            i <= k < v->Table_0.len() ==> writable_settings(#[trigger] v->Table_0[k].1),
    decreases v, crate::config::merge::width(v) - i,
{
    let s = v->Table_0;
    if i < s.len() {
        assert(decreases_to!(s => s[i]));
        problem_iff(s[i].0, s[i].1);
        entries_problem_iff(v, i + 1);
    }
}

/// Settings are written exactly where they are a table without arrays of anything but plain
/// values; what is written is the table, under the name of the program.
pub proof fn plain_settings_are_written(v: TomlView)
    ensures
        stable_document(v) is Ok <==> v is Table && writable_settings(v),
        stable_document(v) is Ok ==> stable_document(v) == Ok::<Seq<char>, Seq<char>>(
            written_toml(seq![("printrevolt"@, dates_as_texts(v))]),
        ),
{
    if v is Table {
        entries_problem_iff(v, 0);
    }
}

/// What settings are changed: those of a file, none where there is no file.
pub open spec fn settings_before(raw: Option<Seq<char>>) -> Result<TomlView, Seq<char>> {
    match raw {
        None => Ok(TomlView::Table(Seq::empty())),
        Some(text) => parsed_toml(text),
    }
}

/// A setting that is changed has its value in the settings of the file, every other one keeps
/// its own, and the whole of them is what is written. A file that cannot be read is an error.
pub proof fn changed_setting_is_written(
    raw: Option<Seq<char>>,
    target: Seq<char>,
    path: Seq<Seq<char>>,
    value: SettingValue,
    q: Seq<Seq<char>>,
)
    requires
        settings_before(raw) matches Ok(v) ==> ordered(v),
    ensures
        ({
            let before = settings_before(raw);
            let r = settings_changed(raw, target, path, setting_leaf(value));
            &&& before is Err ==> r is Err
            &&& r is Ok ==> before is Ok
            &&& r is Ok ==> at(r->Ok_0, path) == Some(
                match value {
                    SettingValue::Flag(b) => TomlView::Boolean(b),
                    SettingValue::Text(t) => TomlView::String(t@),
                },
            )
            &&& r is Ok && part(path, q) ==> at(r->Ok_0, q) == at(before->Ok_0, q)
            &&& r is Err ==> settings_document(target, r) is Err
            &&& r is Ok ==> (settings_document(target, r) is Ok <==> writable_settings(r->Ok_0))
            &&& r is Ok && settings_document(target, r) is Ok ==> settings_document(target, r)
                == Ok::<Seq<char>, Seq<char>>(
                written_toml(seq![("printrevolt"@, dates_as_texts(r->Ok_0))]),
            )
            &&& raw is None && path.len() > 0 ==> r is Ok
        }),
{
    let none: TableView = Seq::empty();
    let leaf = setting_leaf(value);
    assert(ordered(TomlView::Table(none)));
    if let Ok(v) = settings_before(raw) {
        set_leaf_is_read_back(v, path, leaf);
        leaf_is_set_where_nothing_is_in_the_way(v, path, leaf);
        if part(path, q) {
            other_settings_stay(v, path, leaf, q);
        }
        if let Ok(w) = with_leaf(v, path, leaf) {
            plain_settings_are_written(w);
        }
    }
    if raw is None && path.len() > 0 {
        assert forall|n: int| 0 < n < path.len() implies !#[trigger] blocked(
            TomlView::Table(none),
            path,
            n,
        ) by {
            nothing_in_nothing(path.subrange(0, n));
        }
    }
}

} // verus!
