//! The graph of what includes what: its validity, and the order in which it is
//! resolved.

use vstd::prelude::*;
use crate::strmap::{lex_lt, lookup, lookup_at, lookup_some, put_last, rank, sorted, StrMap};
use crate::text::{
    blank, cat2, cat3, cat5, is_blank, join, join_strings, list_contains, Duplicate,
};
use crate::types::profile::{
    GuidelineProfileV1, GuidelineProfileV1View, PolicyProfileV1, PolicyProfileV1View,
};

verus! {

/// What each name includes, in key order.
pub type Graph = Seq<(Seq<char>, Seq<Seq<char>>)>;

/// Something that includes others by name.
pub trait Includes: DeepView + Sized {
    /// The names that a value includes.
    spec fn included(v: Self::V) -> Seq<Seq<char>>;

    fn includes(&self) -> (r: &Vec<String>)
        ensures
            r.deep_view() == Self::included(self.deep_view()),
    ;
}

impl Includes for PolicyProfileV1 {
    open spec fn included(v: PolicyProfileV1View) -> Seq<Seq<char>> {
        v.includes
    }

    fn includes(&self) -> (r: &Vec<String>) {
        &self.includes
    }
}

impl Includes for GuidelineProfileV1 {
    open spec fn included(v: GuidelineProfileV1View) -> Seq<Seq<char>> {
        v.includes
    }

    fn includes(&self) -> (r: &Vec<String>) {
        &self.includes
    }
}

/// The graph of named values.
pub open spec fn graph_of<T: Includes>(s: Seq<(Seq<char>, T::V)>) -> Graph {
    s.map_values(|e: (Seq<char>, T::V)| (e.0, T::included(e.1)))
}

/// Whether every name that an ordered one includes comes before it; names that the
/// graph does not have are left out of account.
pub open spec fn dependencies_first(g: Graph, order: Seq<Seq<char>>) -> bool {
    &&& order.no_duplicates()
    &&& forall|i: int|
        #![trigger order[i]]
        0 <= i < order.len() ==> lookup(g, order[i]) is Some && forall|j: int|
            #![trigger lookup(g, order[i])->0[j]]
            0 <= j < lookup(g, order[i])->0.len() && lookup(g, lookup(g, order[i])->0[j]) is Some
                ==> order.subrange(0, i).contains(lookup(g, order[i])->0[j])
}

/// Whether an order has every name of the graph, each after what it includes.
pub open spec fn orders(g: Graph, order: Seq<Seq<char>>) -> bool {
    &&& dependencies_first(g, order)
    &&& forall|k: Seq<char>| #[trigger] lookup(g, k) is Some ==> order.contains(k)
}

/// Whether nothing includes itself, directly or through others.
pub open spec fn acyclic(g: Graph) -> bool {
    exists|order: Seq<Seq<char>>| orders(g, order)
}

/// Whether every included name is in the graph.
pub open spec fn closed_graph(g: Graph) -> bool {
    forall|i: int, j: int|
        0 <= i < g.len() && 0 <= j < g[i].1.len() ==> lookup(g, #[trigger] g[i].1[j]) is Some
}

/// Whether some name is blank.
pub open spec fn has_blank(g: Graph) -> bool {
    exists|i: int| 0 <= i < g.len() && is_blank(#[trigger] g[i].0)
}

/// The outcome of a visit: the names done so far, each after what it includes, or
/// what is wrong.
pub type Visited = Result<Seq<Seq<char>>, Seq<char>>;

/// Visits a name. `done` holds the names that need no further visit, `stack` those
/// whose includes are being visited.
pub open spec fn visit(
    kind: Seq<char>,
    g: Graph,
    id: Seq<char>,
    done: Seq<Seq<char>>,
    stack: Seq<Seq<char>>,
) -> Visited
    decreases g.len() + 1 - stack.len(), 0int,
    when stack.len() <= g.len()
{
    if done.contains(id) {
        Ok(done)
    } else if stack.contains(id) {
        Err(kind + " include cycle detected: "@ + join(stack.push(id), " -> "@))
    } else {
        match lookup(g, id) {
            None => Err(kind + " include references missing id: "@ + id),
            Some(incs) => match visit_all(kind, g, id, incs, 0, done, stack.push(id)) {
                Err(e) => Err(e),
                Ok(d) => Ok(d.push(id)),
            },
        }
    }
}

/// Visits the names that `id` includes, from position `i` on.
pub open spec fn visit_all(
    kind: Seq<char>,
    g: Graph,
    id: Seq<char>,
    incs: Seq<Seq<char>>,
    i: int,
    done: Seq<Seq<char>>,
    stack: Seq<Seq<char>>,
) -> Visited
    decreases g.len() + 1 - stack.len(), incs.len() - i,
    when stack.len() <= g.len() + 1
{
    if i < 0 || i >= incs.len() {
        Ok(done)
    } else if lookup(g, incs[i]) is None {
        Err(kind + " "@ + id + " includes missing "@ + incs[i])
    } else {
        match visit(kind, g, incs[i], done, stack) {
            Err(e) => Err(e),
            Ok(d) => visit_all(kind, g, id, incs, i + 1, d, stack),
        }
    }
}

/// Visits every name of the graph from position `i` on.
pub open spec fn visit_roots(kind: Seq<char>, g: Graph, i: int, done: Seq<Seq<char>>) -> Visited
    decreases g.len() - i,
{
    if i < 0 || i >= g.len() {
        Ok(done)
    } else {
        match visit(kind, g, g[i].0, done, Seq::empty()) {
            Err(e) => Err(e),
            Ok(d) => visit_roots(kind, g, i + 1, d),
        }
    }
}

/// What is wrong with a graph.
pub open spec fn graph_fault(kind: Seq<char>, g: Graph) -> Option<Seq<char>> {
    if has_blank(g) {
        Some(kind + " id cannot be empty"@)
    } else {
        match visit_roots(kind, g, 0, Seq::empty()) {
            Err(e) => Some(e),
            Ok(_) => None,
        }
    }
}

/// Different names of a graph are no more than its entries.
pub proof fn names_fit(g: Graph, s: Seq<Seq<char>>)
    requires
        s.no_duplicates(),
        forall|i: int| 0 <= i < s.len() ==> lookup(g, #[trigger] s[i]) is Some,
    ensures
        s.len() <= g.len(),
{
    let slots = Set::new(|p: int| 0 <= p < g.len());
    let names = s.to_set();
    s.unique_seq_to_set();
    let taken = names.map(|k: Seq<char>| rank(g, k));
    assert forall|p: int| taken.contains(p) implies slots.contains(p) by {
        let k = choose|k: Seq<char>| names.contains(k) && rank(g, k) == p;
        let i = choose|i: int| 0 <= i < s.len() && s[i] == k;
        assert(lookup(g, s[i]) is Some);
        lookup_some(g, k);
    }
    vstd::set_lib::lemma_int_range(0, g.len() as int);
    assert(slots =~= vstd::set_lib::set_int_range(0, g.len() as int));
    vstd::set_lib::lemma_map_size(names, taken, |k: Seq<char>| rank(g, k));
    vstd::set_lib::lemma_len_subset(taken, slots);
}

/// Whether a stack holds different names of the graph.
pub open spec fn stack_ok(g: Graph, stack: Seq<Seq<char>>) -> bool {
    &&& stack.no_duplicates()
    &&& forall|i: int| 0 <= i < stack.len() ==> lookup(g, #[trigger] stack[i]) is Some
}

proof fn stack_push_ok(g: Graph, stack: Seq<Seq<char>>, id: Seq<char>)
    requires
        stack_ok(g, stack),
        !stack.contains(id),
        lookup(g, id) is Some,
    ensures
        stack_ok(g, stack.push(id)),
        stack.len() + 1 <= g.len(),
{
    names_fit(g, stack.push(id));
}

/// The table of what each name includes.
pub fn include_table<T: Includes>(profiles: &StrMap<T>) -> (r: StrMap<Vec<String>>)
    ensures
        r@ == graph_of::<T>(profiles@),
        sorted(r@),
{
    profiles.order();
    let ghost g = graph_of::<T>(profiles@);
    let mut out: StrMap<Vec<String>> = StrMap::new();
    let mut i: usize = 0;
    assert(g.subrange(0, 0) =~= Seq::empty());
    while i < profiles.len()
        invariant
            i <= profiles@.len(),
            g == graph_of::<T>(profiles@),
            sorted(profiles@),
            out@ == g.subrange(0, i as int),
        decreases profiles@.len() - i,
    {
        let k = profiles.key_at(i).clone();
        let v = profiles.value_at(i).includes().dup();
        proof {
            assert forall|j: int| 0 <= j < out@.len() implies lex_lt(#[trigger] out@[j].0, k@) by {
                assert(lex_lt(profiles@[j].0, profiles@[i as int].0));
            }
            put_last(out@, k@, v.deep_view());
        }
        out.insert(k, v);
        i = i + 1;
        assert(out@ =~= g.subrange(0, i as int));
    }
    assert(g.subrange(0, i as int) =~= g);
    out.order();
    out
}

fn validate_profile_graph_dfs(
    kind: &str,
    id: &str,
    table: &StrMap<Vec<String>>,
    done: &mut Vec<String>,
    stack: &mut Vec<String>,
) -> (r: Result<(), String>)
    requires
        stack_ok(table@, old(stack).deep_view()),
    ensures
        match visit(kind@, table@, id@, old(done).deep_view(), old(stack).deep_view()) {
            Ok(d) => r is Ok && final(done).deep_view() == d && final(stack).deep_view() == old(
                stack,
            ).deep_view(),
            Err(e) => r is Err && r->Err_0@ == e,
        },
    decreases table@.len() + 1 - old(stack)@.len(),
{
    let ghost g = table@;
    let ghost names = stack.deep_view();
    proof {
        names_fit(g, names);
        assert(names.len() == stack@.len());
    }
    if list_contains(done, id) {
        return Ok(());
    }
    if list_contains(stack, id) {
        let mut path = stack.dup();
        path.push(id.to_owned());
        assert(path.deep_view() =~= names.push(id@));
        let path_text = join_strings(&path, " -> ");
        return Err(cat3(kind, " include cycle detected: ", path_text.as_str()));
    }
    let incs = match table.get(id) {
        None => {
            return Err(cat3(kind, " include references missing id: ", id));
        },
        Some(v) => v,
    };
    proof {
        stack_push_ok(g, names, id@);
    }
    stack.push(id.to_owned());
    let ghost inner = names.push(id@);
    assert(stack.deep_view() =~= inner);
    let ghost wanted = incs.deep_view();
    let ghost start = done.deep_view();
    let mut i: usize = 0;
    while i < incs.len()
        invariant
            i <= incs.len(),
            g == table@,
            wanted == incs.deep_view(),
            stack.deep_view() == inner,
            stack@.len() == inner.len(),
            inner.len() == old(stack)@.len() + 1,
            stack_ok(g, inner),
            inner.len() <= g.len(),
            visit_all(kind@, g, id@, wanted, 0, start, inner) == visit_all(
                kind@,
                g,
                id@,
                wanted,
                i as int,
                done.deep_view(),
                inner,
            ),
            visit(kind@, g, id@, old(done).deep_view(), old(stack).deep_view()) == (
            match visit_all(kind@, g, id@, wanted, 0, start, inner) {
                Err(e) => Err(e),
                Ok(d) => Ok(d.push(id@)),
            }),
        decreases incs.len() - i,
    {
        let child = &incs[i];
        assert(wanted[i as int] == child@);
        if !table.contains_key(child.as_str()) {
            return Err(cat5(kind, " ", id, " includes missing ", child.as_str()));
        }
        validate_profile_graph_dfs(kind, child.as_str(), table, done, stack)?;
        assert(stack@.len() == stack.deep_view().len());
        i = i + 1;
    }
    let _ = stack.pop();
    assert(stack.deep_view() =~= inner.drop_last());
    assert(inner.drop_last() =~= names);
    let ghost before = done.deep_view();
    done.push(id.to_owned());
    assert(done.deep_view() =~= before.push(id@));
    Ok(())
}

/// Whether the includes of profiles are in order: no name is blank, every included
/// profile is there, and none includes itself. Otherwise the first thing that is
/// wrong with them.
pub fn validate_profile_graph<T: Includes>(kind: &str, profiles: &StrMap<T>) -> (r: Result<
    (),
    String,
>)
    ensures
        (match r {
            Ok(_) => None,
            Err(e) => Some(e@),
        }) == graph_fault(kind@, graph_of::<T>(profiles@)),
        r is Ok ==> acyclic(graph_of::<T>(profiles@)),
{
    let table = include_table(profiles);
    let ghost g = table@;
    let mut k: usize = 0;
    while k < table.len()
        invariant
            k <= table@.len(),
            g == table@,
            forall|j: int| 0 <= j < k ==> !is_blank(#[trigger] g[j].0),
            g == graph_of::<T>(profiles@),
        decreases table@.len() - k,
    {
        if blank(table.key_at(k).as_str()) {
            assert(is_blank(g[k as int].0));
            return Err(cat2(kind, " id cannot be empty"));
        }
        k = k + 1;
    }
    let mut done: Vec<String> = Vec::new();
    let mut i: usize = 0;
    assert(done.deep_view() =~= Seq::empty());
    while i < table.len()
        invariant
            i <= table@.len(),
            g == table@,
            g == graph_of::<T>(profiles@),
            !has_blank(g),
            visit_roots(kind@, g, 0, Seq::empty()) == visit_roots(
                kind@,
                g,
                i as int,
                done.deep_view(),
            ),
        decreases table@.len() - i,
    {
        let mut stack: Vec<String> = Vec::new();
        assert(stack.deep_view() =~= Seq::empty());
        validate_profile_graph_dfs(
            kind,
            table.key_at(i).as_str(),
            &table,
            &mut done,
            &mut stack,
        )?;
        i = i + 1;
    }
    proof {
        fault_free_is_ordered(kind@, g);
    }
    Ok(())
}

proof fn visit_keeps_order(
    kind: Seq<char>,
    g: Graph,
    id: Seq<char>,
    done: Seq<Seq<char>>,
    stack: Seq<Seq<char>>,
)
    requires
        stack_ok(g, stack),
        dependencies_first(g, done),
    ensures
        visit(kind, g, id, done, stack) matches Ok(d) ==> {
            &&& dependencies_first(g, d)
            &&& d.contains(id)
            &&& done.len() <= d.len() && d.subrange(0, done.len() as int) == done
            &&& forall|x: Seq<char>| stack.contains(x) && !done.contains(x) ==> !d.contains(x)
        },
    decreases g.len() + 1 - stack.len(), 0int,
{
    names_fit(g, stack);
    if done.contains(id) {
        assert(done.subrange(0, done.len() as int) =~= done);
    } else if !stack.contains(id) && lookup(g, id) is Some {
        let incs = lookup(g, id)->0;
        stack_push_ok(g, stack, id);
        let inner = stack.push(id);
        visit_all_keeps_order(kind, g, id, incs, 0, done, inner);
        if let Ok(d) = visit_all(kind, g, id, incs, 0, done, inner) {
            let e = d.push(id);
            assert(inner[stack.len() as int] == id);
            assert(inner.contains(id));
            assert(!d.contains(id));
            assert(e.no_duplicates()) by {
                assert forall|a: int, b: int| 0 <= a < b < e.len() implies e[a] != e[b] by {
                    if b == d.len() {
                        assert(d.contains(d[a]));
                    }
                }
            }
            assert forall|i: int|
                #![trigger e[i]]
                0 <= i < e.len() implies lookup(g, e[i]) is Some && forall|j: int|
                #![trigger lookup(g, e[i])->0[j]]
                0 <= j < lookup(g, e[i])->0.len() && lookup(g, lookup(g, e[i])->0[j]) is Some
                    ==> e.subrange(0, i).contains(lookup(g, e[i])->0[j]) by {
                assert forall|j: int|
                    #![trigger lookup(g, e[i])->0[j]]
                    0 <= j < lookup(g, e[i])->0.len() && lookup(
                        g,
                        lookup(g, e[i])->0[j],
                    ) is Some implies e.subrange(0, i).contains(lookup(g, e[i])->0[j]) by {
                    if i < d.len() {
                        assert(e[i] == d[i]);
                        assert(e.subrange(0, i) =~= d.subrange(0, i));
                    } else {
                        assert(e.subrange(0, i) =~= d);
                        assert(d.contains(incs[j]));
                    }
                }
                if i < d.len() {
                    assert(e[i] == d[i]);
                }
            }
            assert(e[d.len() as int] == id);
            assert(e.subrange(0, done.len() as int) =~= d.subrange(0, done.len() as int));
            assert forall|x: Seq<char>| stack.contains(x) && !done.contains(x) implies !e.contains(
                x,
            ) by {
                let p = choose|p: int| 0 <= p < stack.len() && stack[p] == x;
                assert(inner[p] == x);
                assert(inner.contains(x));
                if e.contains(x) {
                    let q = choose|q: int| 0 <= q < e.len() && e[q] == x;
                    if q < d.len() {
                        assert(d.contains(d[q]));
                    }
                }
            }
        }
    }
}

proof fn visit_all_keeps_order(
    kind: Seq<char>,
    g: Graph,
    id: Seq<char>,
    incs: Seq<Seq<char>>,
    i: int,
    done: Seq<Seq<char>>,
    stack: Seq<Seq<char>>,
)
    requires
        0 <= i <= incs.len(),
        stack_ok(g, stack),
        dependencies_first(g, done),
        forall|j: int| 0 <= j < i ==> done.contains(#[trigger] incs[j]),
    ensures
        visit_all(kind, g, id, incs, i, done, stack) matches Ok(d) ==> {
            &&& dependencies_first(g, d)
            &&& done.len() <= d.len() && d.subrange(0, done.len() as int) == done
            &&& forall|j: int| 0 <= j < incs.len() ==> d.contains(#[trigger] incs[j])
            &&& forall|x: Seq<char>| stack.contains(x) && !done.contains(x) ==> !d.contains(x)
        },
    decreases g.len() + 1 - stack.len(), incs.len() - i,
{
    names_fit(g, stack);
    if i < incs.len() && lookup(g, incs[i]) is Some {
        visit_keeps_order(kind, g, incs[i], done, stack);
        if let Ok(d) = visit(kind, g, incs[i], done, stack) {
            assert forall|j: int| 0 <= j < i + 1 implies d.contains(#[trigger] incs[j]) by {
                if j < i {
                    let p = choose|p: int| 0 <= p < done.len() && done[p] == incs[j];
                    assert(d.subrange(0, done.len() as int)[p] == d[p]);
                }
            }
            visit_all_keeps_order(kind, g, id, incs, i + 1, d, stack);
            if let Ok(e) = visit_all(kind, g, id, incs, i + 1, d, stack) {
                assert(e.subrange(0, done.len() as int) =~= e.subrange(0, d.len() as int).subrange(
                    0,
                    done.len() as int,
                ));
            }
        }
    } else if i >= incs.len() {
        assert(done.subrange(0, done.len() as int) =~= done);
    }
}

proof fn roots_keep_order(kind: Seq<char>, g: Graph, i: int, done: Seq<Seq<char>>)
    requires
        0 <= i <= g.len(),
        dependencies_first(g, done),
        forall|j: int| 0 <= j < i ==> done.contains(#[trigger] g[j].0),
    ensures
        visit_roots(kind, g, i, done) matches Ok(d) ==> {
            &&& dependencies_first(g, d)
            &&& forall|j: int| 0 <= j < g.len() ==> d.contains(#[trigger] g[j].0)
        },
    decreases g.len() - i,
{
    if i < g.len() {
        visit_keeps_order(kind, g, g[i].0, done, Seq::empty());
        if let Ok(d) = visit(kind, g, g[i].0, done, Seq::empty()) {
            assert forall|j: int| 0 <= j < i + 1 implies d.contains(#[trigger] g[j].0) by {
                if j < i {
                    let p = choose|p: int| 0 <= p < done.len() && done[p] == g[j].0;
                    assert(d.subrange(0, done.len() as int)[p] == d[p]);
                }
            }
            roots_keep_order(kind, g, i + 1, d);
        }
    }
}

proof fn fault_free_is_ordered(kind: Seq<char>, g: Graph)
    requires
        visit_roots(kind, g, 0, Seq::empty()) is Ok,
    ensures
        acyclic(g),
{
    roots_keep_order(kind, g, 0, Seq::empty());
    let d = visit_roots(kind, g, 0, Seq::empty())->Ok_0;
    assert forall|k: Seq<char>| #[trigger] lookup(g, k) is Some implies d.contains(k) by {
        lookup_some(g, k);
        assert(g[rank(g, k)].0 == k);
    }
    assert(orders(g, d));
}

/// Where a name stands in an order.
pub open spec fn place(order: Seq<Seq<char>>, id: Seq<char>) -> int {
    order.index_of(id)
}

pub proof fn place_bounds(order: Seq<Seq<char>>, id: Seq<char>)
    requires
        order.contains(id),
    ensures
        0 <= place(order, id) < order.len(),
        order[place(order, id)] == id,
{
    let i = choose|i: int| 0 <= i < order.len() && order[i] == id;
    assert(order[i] == id);
}

/// What is included comes before what includes it.
pub proof fn include_comes_before(g: Graph, order: Seq<Seq<char>>, id: Seq<char>, j: int)
    requires
        orders(g, order),
        lookup(g, id) is Some,
        0 <= j < lookup(g, id)->0.len(),
        lookup(g, lookup(g, id)->0[j]) is Some,
    ensures
        order.contains(id),
        order.contains(lookup(g, id)->0[j]),
        place(order, lookup(g, id)->0[j]) < place(order, id),
{
    let child = lookup(g, id)->0[j];
    place_bounds(order, id);
    let i = place(order, id);
    assert(order[i] == id);
    assert(order.subrange(0, i).contains(child));
    let p = choose|p: int| 0 <= p < i && order.subrange(0, i)[p] == child;
    assert(order[p] == child);
    place_bounds(order, child);
    assert(place(order, child) == p);
}

proof fn ordered_visit_succeeds(
    kind: Seq<char>,
    g: Graph,
    order: Seq<Seq<char>>,
    id: Seq<char>,
    done: Seq<Seq<char>>,
    stack: Seq<Seq<char>>,
)
    requires
        orders(g, order),
        closed_graph(g),
        stack_ok(g, stack),
        lookup(g, id) is Some,
        forall|k: int| 0 <= k < stack.len() ==> place(order, id) < place(order, #[trigger] stack[k]),
    ensures
        visit(kind, g, id, done, stack) is Ok,
    decreases g.len() + 1 - stack.len(), 0int,
{
    names_fit(g, stack);
    if !done.contains(id) {
        if stack.contains(id) {
            let k = choose|k: int| 0 <= k < stack.len() && stack[k] == id;
            assert(place(order, id) < place(order, stack[k]));
        }
        let incs = lookup(g, id)->0;
        stack_push_ok(g, stack, id);
        ordered_visits_succeed(kind, g, order, id, 0, done, stack.push(id));
    }
}

proof fn ordered_visits_succeed(
    kind: Seq<char>,
    g: Graph,
    order: Seq<Seq<char>>,
    id: Seq<char>,
    i: int,
    done: Seq<Seq<char>>,
    stack: Seq<Seq<char>>,
)
    requires
        orders(g, order),
        closed_graph(g),
        stack_ok(g, stack),
        lookup(g, id) is Some,
        0 <= i,
        forall|k: int| 0 <= k < stack.len() ==> place(order, id) <= place(order, #[trigger] stack[k]),
    ensures
        visit_all(kind, g, id, lookup(g, id)->0, i, done, stack) is Ok,
    decreases g.len() + 1 - stack.len(), lookup(g, id)->0.len() - i,
{
    names_fit(g, stack);
    let incs = lookup(g, id)->0;
    if i < incs.len() {
        lookup_some(g, id);
        assert(g[rank(g, id)].1 == incs);
        assert(lookup(g, g[rank(g, id)].1[i]) is Some);
        include_comes_before(g, order, id, i);
        ordered_visit_succeeds(kind, g, order, incs[i], done, stack);
        if let Ok(d) = visit(kind, g, incs[i], done, stack) {
            ordered_visits_succeed(kind, g, order, id, i + 1, d, stack);
        }
    }
}

proof fn ordered_roots_succeed(
    kind: Seq<char>,
    g: Graph,
    order: Seq<Seq<char>>,
    i: int,
    done: Seq<Seq<char>>,
)
    requires
        sorted(g),
        orders(g, order),
        closed_graph(g),
        0 <= i,
    ensures
        visit_roots(kind, g, i, done) is Ok,
    decreases g.len() - i,
{
    if i < g.len() {
        lookup_at(g, i);
        ordered_visit_succeeds(kind, g, order, g[i].0, done, Seq::empty());
        if let Ok(d) = visit(kind, g, g[i].0, done, Seq::empty()) {
            ordered_roots_succeed(kind, g, order, i + 1, d);
        }
    }
}

proof fn visited_is_closed(
    kind: Seq<char>,
    g: Graph,
    id: Seq<char>,
    done: Seq<Seq<char>>,
    stack: Seq<Seq<char>>,
)
    requires
        stack_ok(g, stack),
        includes_known(g, done),
    ensures
        visit(kind, g, id, done, stack) matches Ok(d) ==> includes_known(g, d),
    decreases g.len() + 1 - stack.len(), 0int,
{
    names_fit(g, stack);
    if !done.contains(id) && !stack.contains(id) && lookup(g, id) is Some {
        let incs = lookup(g, id)->0;
        stack_push_ok(g, stack, id);
        visited_all_is_closed(kind, g, id, incs, 0, done, stack.push(id));
        if let Ok(d) = visit_all(kind, g, id, incs, 0, done, stack.push(id)) {
            let e = d.push(id);
            assert forall|a: int, j: int|
                0 <= a < e.len() && lookup(g, e[a]) is Some && 0 <= j < lookup(
                    g,
                    e[a],
                )->0.len() implies lookup(g, #[trigger] lookup(g, e[a])->0[j]) is Some by {
                if a < d.len() {
                    assert(e[a] == d[a]);
                }
            }
        }
    }
}

/// Whether everything that the given names include is in the graph.
pub open spec fn includes_known(g: Graph, names: Seq<Seq<char>>) -> bool {
    forall|a: int, j: int|
        0 <= a < names.len() && lookup(g, names[a]) is Some && 0 <= j < lookup(
            g,
            names[a],
        )->0.len() ==> lookup(g, #[trigger] lookup(g, names[a])->0[j]) is Some
}

proof fn visited_all_is_closed(
    kind: Seq<char>,
    g: Graph,
    id: Seq<char>,
    incs: Seq<Seq<char>>,
    i: int,
    done: Seq<Seq<char>>,
    stack: Seq<Seq<char>>,
)
    requires
        0 <= i,
        stack_ok(g, stack),
        includes_known(g, done),
        forall|j: int| 0 <= j < i && j < incs.len() ==> lookup(g, #[trigger] incs[j]) is Some,
    ensures
        visit_all(kind, g, id, incs, i, done, stack) matches Ok(d) ==> includes_known(g, d) && (
        forall|j: int| 0 <= j < incs.len() ==> lookup(g, #[trigger] incs[j]) is Some),
    decreases g.len() + 1 - stack.len(), incs.len() - i,
{
    names_fit(g, stack);
    if i < incs.len() && lookup(g, incs[i]) is Some {
        visited_is_closed(kind, g, incs[i], done, stack);
        if let Ok(d) = visit(kind, g, incs[i], done, stack) {
            visited_all_is_closed(kind, g, id, incs, i + 1, d, stack);
        }
    }
}

proof fn roots_are_closed(kind: Seq<char>, g: Graph, i: int, done: Seq<Seq<char>>)
    requires
        0 <= i,
        includes_known(g, done),
    ensures
        visit_roots(kind, g, i, done) matches Ok(d) ==> includes_known(g, d),
    decreases g.len() - i,
{
    if i < g.len() {
        visited_is_closed(kind, g, g[i].0, done, Seq::empty());
        if let Ok(d) = visit(kind, g, g[i].0, done, Seq::empty()) {
            roots_are_closed(kind, g, i + 1, d);
        }
    }
}

/// A graph is without fault exactly where no name is blank, every included name is
/// there, and nothing includes itself, directly or through others.
pub proof fn fault_free_means_well_founded(kind: Seq<char>, g: Graph)
    requires
        sorted(g),
    ensures
        graph_fault(kind, g) is None <==> !has_blank(g) && closed_graph(g) && acyclic(g),
{
    if graph_fault(kind, g) is None {
        fault_free_is_ordered(kind, g);
        roots_keep_order(kind, g, 0, Seq::empty());
        roots_are_closed(kind, g, 0, Seq::empty());
        let d = visit_roots(kind, g, 0, Seq::empty())->Ok_0;
        assert forall|i: int, j: int| 0 <= i < g.len() && 0 <= j < g[i].1.len() implies lookup(
            g,
            #[trigger] g[i].1[j],
        ) is Some by {
            lookup_at(g, i);
            assert(d.contains(g[i].0));
            let a = choose|a: int| 0 <= a < d.len() && d[a] == g[i].0;
            assert(lookup(g, lookup(g, d[a])->0[j]) is Some);
        }
    }
    if !has_blank(g) && closed_graph(g) && acyclic(g) {
        let order = choose|order: Seq<Seq<char>>| orders(g, order);
        ordered_roots_succeed(kind, g, order, 0, Seq::empty());
    }
}

} // verus!
