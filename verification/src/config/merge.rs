//! Merging of settings, and the record of where each comes from.

use vstd::prelude::*;
use crate::config::model::{ConfigSource, ConfigSourceView};
use crate::strmap::{
    lookup, lookup_at, lookup_put, lookup_some, put, put_sorted, rank, sorted, StrMap,
};
use crate::text::{cat3, chars_of, Duplicate};
use crate::tomlvalue::{table_view, toml_get, TableView, TomlValue, TomlView};

verus! {

/// The number of entries of a table.
pub open spec fn width(v: TomlView) -> int {
    match v {
        TomlView::Table(s) => s.len() as int,
        _ => 0,
    }
}

/// The path of an entry of a table.
pub open spec fn entry_path(prefix: Seq<char>, key: Seq<char>) -> Seq<char> {
    if prefix.len() == 0 {
        key
    } else {
        prefix + "."@ + key
    }
}

/// The leaves of a value, stored into `out` under their paths.
pub open spec fn flatten(prefix: Seq<char>, v: TomlView, out: TableView) -> TableView
    decreases v, width(v) + 1,
{
    match v {
        TomlView::Table(s) => flatten_from(prefix, v, 0, out),
        leaf => put(out, prefix, leaf),
    }
}

/// The leaves of the entries of a table from position `i` on, stored into `out`.
pub open spec fn flatten_from(prefix: Seq<char>, v: TomlView, i: int, out: TableView) -> TableView
    decreases v, width(v) - i,
{
    match v {
        TomlView::Table(s) => if i < 0 || i >= s.len() {
            out
        } else {
            proof {
                assert(decreases_to!(s => s[i]));
            }
            flatten_from(
                prefix,
                v,
                i + 1,
                flatten(entry_path(prefix, s[i].0), s[i].1, out),
            )
        },
        _ => out,
    }
}

/// The paths of a trace.
pub type Trace = Seq<(Seq<char>, ConfigSourceView)>;

/// The trace with every path of `s`, from position `i` on, ascribed to a source.
pub open spec fn ascribe(s: TableView, i: int, source: ConfigSourceView, trace: Trace) -> Trace
    decreases s.len() - i,
{
    if i < 0 || i >= s.len() {
        trace
    } else {
        ascribe(s, i + 1, source, put(trace, s[i].0, source))
    }
}

/// Two values merged: tables entry by entry, anything else gives way to what is laid
/// over it.
pub open spec fn merged(base: TomlView, over: TomlView) -> TomlView
    decreases over, width(over) + 1,
{
    match (base, over) {
        (TomlView::Table(b), TomlView::Table(o)) => TomlView::Table(merged_from(b, over, 0)),
        _ => over,
    }
}

/// A table with the entries of `over`, from position `i` on, laid over it.
pub open spec fn merged_from(b: TableView, over: TomlView, i: int) -> TableView
    decreases over, width(over) - i,
{
    match over {
        TomlView::Table(o) => if i < 0 || i >= o.len() {
            b
        } else {
            proof {
                assert(decreases_to!(o => o[i]));
            }
            let v = match lookup(b, o[i].0) {
                Some(existing) => merged(existing, o[i].1),
                None => o[i].1,
            };
            merged_from(put(b, o[i].0, v), over, i + 1)
        },
        _ => b,
    }
}

/// The trace after a value was laid over another: its leaves, each under its whole path,
/// are ascribed to its source.
pub open spec fn traced(over: TomlView, source: ConfigSourceView, trace: Trace) -> Trace {
    ascribe(flatten(Seq::empty(), over, Seq::empty()), 0, source, trace)
}

fn flatten_toml_value(prefix: &str, value: &TomlValue, out: &mut StrMap<TomlValue>)
    ensures
        final(out)@ == flatten(prefix@, value@, old(out)@),
    decreases value,
{
    match value {
        TomlValue::Table(table) => {
            proof {
                table_view(*table);
                table.values_are_smaller();
                table.raw_view();
            }
            let ghost v = value@;
            let mut i: usize = 0;
            while i < table.len()
                invariant
                    i <= table@.len(),
                    v == TomlView::Table(table@),
                    table@.len() == table.raw().len(),
                    decreases_to!(value => table),
                    forall|j: int|
                        0 <= j < table.raw().len() ==> decreases_to!(
                            *table => (#[trigger] table.raw()[j]).1
                        ),
                    flatten_from(prefix@, v, 0, old(out)@) == flatten_from(
                        prefix@,
                        v,
                        i as int,
                        out@,
                    ),
                decreases table@.len() - i,
            {
                let k = table.key_at(i);
                let child = table.value_at(i);
                assert(decreases_to!(*table => table.raw()[i as int].1));
                let next = if chars_of(prefix).len() == 0 {
                    k.clone()
                } else {
                    cat3(prefix, ".", k.as_str())
                };
                flatten_toml_value(next.as_str(), child, out);
                i = i + 1;
            }
        },
        leaf => {
            out.insert(prefix.to_owned(), leaf.dup());
        },
    }
}

/// The leaves of settings under their paths.
pub fn flatten_printrevolt(value: &TomlValue) -> (r: StrMap<TomlValue>)
    ensures
        r@ == flatten(Seq::empty(), value@, Seq::empty()),
{
    let mut out: StrMap<TomlValue> = StrMap::new();
    flatten_toml_value("", value, &mut out);
    proof {
        reveal_strlit("");
        assert(""@ =~= Seq::empty());
    }
    out
}

fn ascribe_all(s: &StrMap<TomlValue>, source: &ConfigSource, trace: &mut StrMap<ConfigSource>)
    ensures
        final(trace)@ == ascribe(s@, 0, source@, old(trace)@),
{
    let mut i: usize = 0;
    while i < s.len()
        invariant
            i <= s@.len(),
            ascribe(s@, 0, source@, old(trace)@) == ascribe(s@, i as int, source@, trace@),
        decreases s@.len() - i,
    {
        trace.insert(s.key_at(i).clone(), source.dup());
        i = i + 1;
    }
}

fn deep_merge(base: &TomlValue, overlay: &TomlValue) -> (r: TomlValue)
    ensures
        r@ == merged(base@, overlay@),
    decreases overlay,
{
    match (base, overlay) {
        (TomlValue::Table(b), TomlValue::Table(o)) => {
            proof {
                table_view(*b);
                table_view(*o);
                o.values_are_smaller();
                o.raw_view();
            }
            let ghost over = overlay@;
            let mut out = b.dup();
            let mut i: usize = 0;
            while i < o.len()
                invariant
                    i <= o@.len(),
                    over == TomlView::Table(o@),
                    o@.len() == o.raw().len(),
                    decreases_to!(overlay => o),
                    forall|j: int|
                        0 <= j < o.raw().len() ==> decreases_to!(*o => (#[trigger] o.raw()[j]).1),
                    merged_from(b@, over, 0) == merged_from(out@, over, i as int),
                decreases o@.len() - i,
            {
                let key = o.key_at(i);
                let value = o.value_at(i);
                assert(decreases_to!(*o => o.raw()[i as int].1));
                let v = match out.get(key.as_str()) {
                    Some(existing) => deep_merge(existing, value),
                    None => value.dup(),
                };
                out.insert(key.clone(), v);
                i = i + 1;
            }
            proof {
                table_view(out);
            }
            TomlValue::Table(out)
        },
        _ => overlay.dup(),
    }
}

/// Lays one value over another, and records where what it sets comes from.
pub fn deep_merge_with_trace(
    base: &TomlValue,
    overlay: &TomlValue,
    source: &ConfigSource,
    trace: &mut StrMap<ConfigSource>,
) -> (r: TomlValue)
    ensures
        r@ == merged(base@, overlay@),
        final(trace)@ == traced(overlay@, source@, old(trace)@),
{
    let leaves = flatten_printrevolt(overlay);
    ascribe_all(&leaves, source, trace);
    deep_merge(base, overlay)
}

/// Whether every table of a value has its entries in order.
pub open spec fn ordered(v: TomlView) -> bool
    decreases v,
{
    match v {
        TomlView::Table(s) => sorted(s) && forall|i: int|
            0 <= i < s.len() ==> {
                proof {
                    assert(decreases_to!(s => s[i]));
                }
                ordered(#[trigger] s[i].1)
            },
        _ => true,
    }
}

/// What stands at a path of keys.
pub open spec fn at(v: TomlView, path: Seq<Seq<char>>) -> Option<TomlView>
    decreases path.len(),
{
    if path.len() == 0 {
        Some(v)
    } else {
        match toml_get(v, path[0]) {
            None => None,
            Some(c) => at(c, path.drop_first()),
        }
    }
}

/// Whether a value says nothing about a path: it has tables on the way and then no
/// entry.
pub open spec fn silent(v: TomlView, path: Seq<Seq<char>>) -> bool
    decreases path.len(),
{
    match v {
        TomlView::Table(s) => if path.len() == 0 {
            false
        } else {
            match lookup(s, path[0]) {
                None => true,
                Some(c) => silent(c, path.drop_first()),
            }
        },
        _ => false,
    }
}

/// An entry of a merged table.
pub open spec fn merged_entry(existing: Option<TomlView>, over: TomlView) -> TomlView {
    match existing {
        Some(e) => merged(e, over),
        None => over,
    }
}

proof fn merged_from_lookup(b: TableView, over: TomlView, i: int, k: Seq<char>)
    requires
        over is Table,
        sorted(b),
        sorted(over->Table_0),
        0 <= i <= over->Table_0.len(),
    ensures
        sorted(merged_from(b, over, i)),
        lookup(merged_from(b, over, i), k) == (if lookup(over->Table_0, k) is Some && rank(
            over->Table_0,
            k,
        ) >= i {
            Some(merged_entry(lookup(b, k), lookup(over->Table_0, k)->0))
        } else {
            lookup(b, k)
        }),
    decreases over->Table_0.len() - i,
{
    let o = over->Table_0;
    lookup_some(o, k);
    if i < o.len() {
        let v = merged_entry(lookup(b, o[i].0), o[i].1);
        put_sorted(b, o[i].0, v);
        lookup_put(b, o[i].0, v, k);
        lookup_at(o, i);
        merged_from_lookup(put(b, o[i].0, v), over, i + 1, k);
    }
}

/// An entry of two merged tables: where both have it the merge of the two, else what the
/// one has.
pub proof fn merged_lookup(b: TableView, o: TableView, k: Seq<char>)
    requires
        sorted(b),
        sorted(o),
    ensures
        toml_get(merged(TomlView::Table(b), TomlView::Table(o)), k) == match lookup(o, k) {
            Some(v) => Some(merged_entry(lookup(b, k), v)),
            None => lookup(b, k),
        },
{
    merged_from_lookup(b, TomlView::Table(o), 0, k);
    lookup_some(o, k);
}

/// An entry of a value in order is in order.
pub proof fn ordered_entry(v: TomlView, k: Seq<char>)
    requires
        ordered(v),
    ensures
        toml_get(v, k) matches Some(c) ==> ordered(c),
{
    if let TomlView::Table(s) = v {
        lookup_some(s, k);
        if lookup(s, k) is Some {
            assert(ordered(s[rank(s, k)].1));
        }
    }
}

/// A setting of the upper layer takes effect, whatever the lower one holds.
pub proof fn upper_layer_wins(base: TomlView, over: TomlView, path: Seq<Seq<char>>)
    requires
        ordered(base),
        ordered(over),
        at(over, path) is Some,
        !(at(over, path)->0 is Table),
    ensures
        at(merged(base, over), path) == at(over, path),
    decreases path.len(),
{
    if path.len() > 0 {
        if let (TomlView::Table(b), TomlView::Table(o)) = (base, over) {
            merged_lookup(b, o, path[0]);
            ordered_entry(base, path[0]);
            ordered_entry(over, path[0]);
            if lookup(b, path[0]) is Some {
                upper_layer_wins(
                    lookup(b, path[0])->0,
                    lookup(o, path[0])->0,
                    path.drop_first(),
                );
            }
        }
    }
}

/// A setting that the upper layer says nothing about stays as it is.
pub proof fn lower_layer_stays(base: TomlView, over: TomlView, path: Seq<Seq<char>>)
    requires
        ordered(base),
        ordered(over),
        silent(over, path),
    ensures
        at(merged(base, over), path) == at(base, path),
    decreases path.len(),
{
    if let TomlView::Table(o) = over {
        ordered_entry(base, path[0]);
        ordered_entry(over, path[0]);
        if let TomlView::Table(b) = base {
            merged_lookup(b, o, path[0]);
            if lookup(o, path[0]) is Some && lookup(b, path[0]) is Some {
                lower_layer_stays(
                    lookup(b, path[0])->0,
                    lookup(o, path[0])->0,
                    path.drop_first(),
                );
            } else if lookup(o, path[0]) is Some {
                silent_is_nowhere(lookup(o, path[0])->0, path.drop_first());
            }
        } else {
            silent_is_nowhere(over, path);
        }
    }
}

proof fn silent_is_nowhere(v: TomlView, path: Seq<Seq<char>>)
    requires
        silent(v, path),
    ensures
        at(v, path) is None,
    decreases path.len(),
{
    if let TomlView::Table(s) = v {
        if let Some(c) = lookup(s, path[0]) {
            silent_is_nowhere(c, path.drop_first());
        }
    }
}

/// Whether a value has a leaf with the dotted path `k`, below `prefix`.
pub open spec fn has_leaf(prefix: Seq<char>, v: TomlView, k: Seq<char>) -> bool
    decreases v, width(v) + 1,
{
    match v {
        TomlView::Table(s) => has_leaf_from(prefix, v, 0, k),
        _ => k == prefix,
    }
}

/// Whether one of the entries of a table from position `i` on has such a leaf.
pub open spec fn has_leaf_from(prefix: Seq<char>, v: TomlView, i: int, k: Seq<char>) -> bool
    decreases v, width(v) - i,
{
    match v {
        TomlView::Table(s) => if i < 0 || i >= s.len() {
            false
        } else {
            proof {
                assert(decreases_to!(s => s[i]));
            }
            has_leaf(entry_path(prefix, s[i].0), s[i].1, k) || has_leaf_from(prefix, v, i + 1, k)
        },
        _ => false,
    }
}

proof fn leaf_at(prefix: Seq<char>, v: TomlView, i: int, j: int, k: Seq<char>)
    requires
        v is Table,
        0 <= i <= j < v->Table_0.len(),
        has_leaf(entry_path(prefix, v->Table_0[j].0), v->Table_0[j].1, k),
    ensures
        has_leaf_from(prefix, v, i, k),
    decreases j - i,
{
    if i < j {
        leaf_at(prefix, v, i + 1, j, k);
    }
}

proof fn leaf_where(prefix: Seq<char>, v: TomlView, i: int, k: Seq<char>) -> (j: int)
    requires
        v is Table,
        0 <= i,
        has_leaf_from(prefix, v, i, k),
    ensures
        i <= j < v->Table_0.len(),
        has_leaf(entry_path(prefix, v->Table_0[j].0), v->Table_0[j].1, k),
    decreases v->Table_0.len() - i,
{
    let s = v->Table_0;
    if has_leaf(entry_path(prefix, s[i].0), s[i].1, k) {
        i
    } else {
        leaf_where(prefix, v, i + 1, k)
    }
}

/// The paths of what is flattened are those of the leaves.
pub proof fn flatten_keys(prefix: Seq<char>, v: TomlView, out: TableView, k: Seq<char>)
    requires
        sorted(out),
    ensures
        sorted(flatten(prefix, v, out)),
        lookup(flatten(prefix, v, out), k) is Some <==> lookup(out, k) is Some || has_leaf(
            prefix,
            v,
            k,
        ),
    decreases v, width(v) + 1,
{
    match v {
        TomlView::Table(s) => {
            flatten_from_keys(prefix, v, 0, out, k);
        },
        leaf => {
            put_sorted(out, prefix, leaf);
            lookup_put(out, prefix, leaf, k);
        },
    }
}

proof fn flatten_from_keys(prefix: Seq<char>, v: TomlView, i: int, out: TableView, k: Seq<char>)
    requires
        sorted(out),
        v is Table,
        0 <= i <= width(v),
    ensures
        sorted(flatten_from(prefix, v, i, out)),
        lookup(flatten_from(prefix, v, i, out), k) is Some <==> lookup(out, k) is Some
            || has_leaf_from(prefix, v, i, k),
    decreases v, width(v) - i,
{
    let s = v->Table_0;
    if i < s.len() {
        assert(decreases_to!(s => s[i]));
        let next = flatten(entry_path(prefix, s[i].0), s[i].1, out);
        flatten_keys(entry_path(prefix, s[i].0), s[i].1, out, k);
        flatten_from_keys(prefix, v, i + 1, next, k);
    }
}

/// What is ascribed to a source, and what is not.
pub proof fn ascribed(s: TableView, i: int, source: ConfigSourceView, trace: Trace, k: Seq<char>)
    requires
        sorted(s),
        sorted(trace),
        0 <= i <= s.len(),
    ensures
        sorted(ascribe(s, i, source, trace)),
        lookup(trace, k) is Some ==> lookup(ascribe(s, i, source, trace), k) is Some,
        lookup(s, k) is Some && rank(s, k) >= i ==> lookup(ascribe(s, i, source, trace), k) == Some(
            source,
        ),
        !(lookup(s, k) is Some && rank(s, k) >= i) ==> lookup(ascribe(s, i, source, trace), k)
            == lookup(trace, k),
    decreases s.len() - i,
{
    lookup_some(s, k);
    if i < s.len() {
        put_sorted(trace, s[i].0, source);
        lookup_put(trace, s[i].0, source, k);
        lookup_at(s, i);
        ascribed(s, i + 1, source, put(trace, s[i].0, source), k);
    }
}

/// What is laid over is traced to its source, leaf by leaf, and nothing else is: every
/// other path keeps the source that it had, or has none.
pub proof fn only_the_overlay_is_ascribed(
    over: TomlView,
    source: ConfigSourceView,
    trace: Trace,
    k: Seq<char>,
)
    requires
        sorted(trace),
    ensures
        sorted(traced(over, source, trace)),
        lookup(traced(over, source, trace), k) == (if has_leaf(Seq::empty(), over, k) {
            Some(source)
        } else {
            lookup(trace, k)
        }),
{
    let none: TableView = Seq::empty();
    flatten_keys(Seq::empty(), over, none, k);
    let leaves = flatten(Seq::empty(), over, none);
    lookup_some(leaves, k);
    ascribed(leaves, 0, source, trace, k);
}

proof fn merged_leaves(prefix: Seq<char>, base: TomlView, over: TomlView, k: Seq<char>)
    requires
        ordered(base),
        ordered(over),
        has_leaf(prefix, merged(base, over), k),
    ensures
        has_leaf(prefix, base, k) || has_leaf(prefix, over, k),
    decreases over,
{
    if let (TomlView::Table(b), TomlView::Table(o)) = (base, over) {
        let m = merged(base, over)->Table_0;
        let i = leaf_where(prefix, merged(base, over), 0, k);
        let key = m[i].0;
        merged_from_lookup(b, over, 0, key);
        lookup_at(m, i);
        merged_lookup(b, o, key);
        lookup_some(o, key);
        lookup_some(b, key);
        let below = entry_path(prefix, key);
        if lookup(o, key) is Some {
            let p = rank(o, key);
            assert(decreases_to!(o => o[p]));
            if lookup(b, key) is Some {
                let q = rank(b, key);
                assert(ordered(b[q].1));
                assert(ordered(o[p].1));
                merged_leaves(below, b[q].1, o[p].1, k);
                if has_leaf(below, b[q].1, k) {
                    leaf_at(prefix, base, 0, q, k);
                } else {
                    leaf_at(prefix, over, 0, p, k);
                }
            } else {
                leaf_at(prefix, over, 0, p, k);
            }
        } else {
            leaf_at(prefix, base, 0, rank(b, key), k);
        }
    }
}

/// Every setting has a source: where each leaf of the lower layer is traced, each leaf of
/// the merge is traced too.
pub proof fn every_setting_is_traced(
    base: TomlView,
    over: TomlView,
    source: ConfigSourceView,
    trace: Trace,
)
    requires
        ordered(base),
        ordered(over),
        sorted(trace),
        forall|k: Seq<char>|
            #[trigger] has_leaf(Seq::empty(), base, k) ==> lookup(trace, k) is Some,
    ensures
        forall|k: Seq<char>|
            #[trigger] has_leaf(Seq::empty(), merged(base, over), k) ==> lookup(
                traced(over, source, trace),
                k,
            ) is Some,
{
    assert forall|k: Seq<char>|
        #[trigger] has_leaf(Seq::empty(), merged(base, over), k) implies lookup(
        traced(over, source, trace),
        k,
    ) is Some by {
        merged_leaves(Seq::empty(), base, over, k);
        only_the_overlay_is_ascribed(over, source, trace, k);
        assert(has_leaf(Seq::empty(), base, k) ==> lookup(trace, k) is Some);
    }
}

/// Merging keeps entries in order.
pub proof fn merged_is_ordered(base: TomlView, over: TomlView)
    requires
        ordered(base),
        ordered(over),
    ensures
        ordered(merged(base, over)),
    decreases over,
{
    if let (TomlView::Table(b), TomlView::Table(o)) = (base, over) {
        let m = merged(base, over)->Table_0;
        merged_from_lookup(b, over, 0, Seq::empty());
        assert forall|i: int| 0 <= i < m.len() implies ordered(#[trigger] m[i].1) by {
            let key = m[i].0;
            lookup_at(m, i);
            merged_lookup(b, o, key);
            ordered_entry(base, key);
            ordered_entry(over, key);
            lookup_some(o, key);
            if lookup(o, key) is Some && lookup(b, key) is Some {
                assert(decreases_to!(o => o[rank(o, key)]));
                merged_is_ordered(lookup(b, key)->0, lookup(o, key)->0);
            }
        }
    }
}

} // verus!
