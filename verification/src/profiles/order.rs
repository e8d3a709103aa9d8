//! The order in which requested profiles, and what they include, are applied.

use vstd::prelude::*;
use crate::profiles::graph::{
    acyclic, closed_graph, dependencies_first, graph_of, include_comes_before, include_table,
    names_fit, orders, place, place_bounds, Graph, Includes,
};
use crate::strmap::{lookup, lookup_some, rank, StrMap};
use crate::text::list_contains;

verus! {

/// Names in the order in which they are applied, and names that are missing.
#[verifier::ext_equal]
pub struct Found {
    pub ordered: Seq<Seq<char>>,
    pub missing: Seq<Seq<char>>,
}

/// Adds a name, behind what it includes, to what was found; `depth` bounds how far
/// includes are followed.
pub open spec fn collect(g: Graph, depth: nat, id: Seq<char>, f: Found) -> Found
    decreases depth, 0int,
{
    match lookup(g, id) {
        None => Found { ordered: f.ordered, missing: f.missing.push(id) },
        Some(incs) => if f.ordered.contains(id) || depth == 0 {
            f
        } else {
            let inner = collect_all(g, (depth - 1) as nat, incs, 0, f);
            if inner.ordered.contains(id) {
                inner
            } else {
                Found { ordered: inner.ordered.push(id), missing: inner.missing }
            }
        },
    }
}

/// Adds the names from position `i` on.
pub open spec fn collect_all(g: Graph, depth: nat, ids: Seq<Seq<char>>, i: int, f: Found) -> Found
    decreases depth, ids.len() - i + 1,
{
    if i < 0 || i >= ids.len() {
        f
    } else {
        collect_all(g, depth, ids, i + 1, collect(g, depth, ids[i], f))
    }
}

/// What a request finds: every requested name behind what it includes, each once, and
/// the names that are missing.
pub open spec fn requested(g: Graph, ids: Seq<Seq<char>>) -> Found {
    collect_all(g, g.len(), ids, 0, Found { ordered: Seq::empty(), missing: Seq::empty() })
}

fn resolve_requested_ids_dfs(
    id: &str,
    table: &StrMap<Vec<String>>,
    ordered: &mut Vec<String>,
    missing: &mut Vec<String>,
    Ghost(order): Ghost<Seq<Seq<char>>>,
    Ghost(depth): Ghost<nat>,
)
    requires
        orders(table@, order),
        lookup(table@, id@) is Some ==> place(order, id@) < depth,
    ensures
        (Found { ordered: final(ordered).deep_view(), missing: final(missing).deep_view() })
            == collect(
            table@,
            depth,
            id@,
            Found { ordered: old(ordered).deep_view(), missing: old(missing).deep_view() },
        ),
    decreases depth,
{
    let ghost g = table@;
    let ghost f0 = Found { ordered: ordered.deep_view(), missing: missing.deep_view() };
    let incs = match table.get(id) {
        None => {
            missing.push(id.to_owned());
            assert(missing.deep_view() =~= f0.missing.push(id@));
            return;
        },
        Some(v) => v,
    };
    if list_contains(ordered, id) {
        return;
    }
    proof {
        place_bounds(order, id@);
    }
    let ghost wanted = incs.deep_view();
    let ghost next = (depth - 1) as nat;
    let mut i: usize = 0;
    while i < incs.len()
        invariant
            i <= incs.len(),
            g == table@,
            wanted == incs.deep_view(),
            lookup(g, id@) == Some(wanted),
            orders(g, order),
            place(order, id@) <= next,
            next < depth,
            collect_all(g, next, wanted, 0, f0) == collect_all(
                g,
                next,
                wanted,
                i as int,
                Found { ordered: ordered.deep_view(), missing: missing.deep_view() },
            ),
        decreases incs.len() - i,
    {
        let child = &incs[i];
        assert(wanted[i as int] == child@);
        proof {
            if lookup(g, child@) is Some {
                include_comes_before(g, order, id@, i as int);
            }
        }
        resolve_requested_ids_dfs(
            child.as_str(),
            table,
            ordered,
            missing,
            Ghost(order),
            Ghost(next),
        );
        i = i + 1;
    }
    if !list_contains(ordered, id) {
        let ghost before = ordered.deep_view();
        ordered.push(id.to_owned());
        assert(ordered.deep_view() =~= before.push(id@));
    }
}

/// The requested names in the order in which they are applied, and the missing ones.
pub fn resolve_requested_ids<T: Includes>(requested_ids: &Vec<String>, profiles: &StrMap<T>) -> (r:
    (Vec<String>, Vec<String>))
    requires
        acyclic(graph_of::<T>(profiles@)),
    ensures
        (Found { ordered: r.0.deep_view(), missing: r.1.deep_view() }) == requested(
            graph_of::<T>(profiles@),
            requested_ids.deep_view(),
        ),
{
    let table = include_table(profiles);
    let ghost g = table@;
    let ghost order = choose|order: Seq<Seq<char>>| orders(g, order);
    let ghost ids = requested_ids.deep_view();
    let ghost none = Found { ordered: Seq::empty(), missing: Seq::empty() };
    let mut ordered: Vec<String> = Vec::new();
    let mut missing: Vec<String> = Vec::new();
    let mut i: usize = 0;
    proof {
        names_fit(g, order);
        assert(ordered.deep_view() =~= Seq::empty());
        assert(missing.deep_view() =~= Seq::empty());
    }
    while i < requested_ids.len()
        invariant
            i <= requested_ids.len(),
            g == table@,
            ids == requested_ids.deep_view(),
            orders(g, order),
            order.len() <= g.len(),
            none == (Found { ordered: Seq::empty(), missing: Seq::empty() }),
            collect_all(g, g.len(), ids, 0, none) == collect_all(
                g,
                g.len(),
                ids,
                i as int,
                Found { ordered: ordered.deep_view(), missing: missing.deep_view() },
            ),
        decreases requested_ids.len() - i,
    {
        let id = &requested_ids[i];
        assert(ids[i as int] == id@);
        proof {
            if lookup(g, id@) is Some {
                place_bounds(order, id@);
            }
        }
        resolve_requested_ids_dfs(
            id.as_str(),
            &table,
            &mut ordered,
            &mut missing,
            Ghost(order),
            Ghost(g.len()),
        );
        i = i + 1;
    }
    (ordered, missing)
}

/// What is already found stays, and in its place.
pub open spec fn extends(f: Found, h: Found) -> bool {
    &&& f.ordered.len() <= h.ordered.len()
    &&& h.ordered.subrange(0, f.ordered.len() as int) == f.ordered
    &&& f.missing.len() <= h.missing.len()
    &&& h.missing.subrange(0, f.missing.len() as int) == f.missing
}

proof fn extends_trans(f: Found, h: Found, k: Found)
    requires
        extends(f, h),
        extends(h, k),
    ensures
        extends(f, k),
{
    assert(k.ordered.subrange(0, f.ordered.len() as int) =~= k.ordered.subrange(
        0,
        h.ordered.len() as int,
    ).subrange(0, f.ordered.len() as int));
    assert(k.missing.subrange(0, f.missing.len() as int) =~= k.missing.subrange(
        0,
        h.missing.len() as int,
    ).subrange(0, f.missing.len() as int));
}

proof fn extends_contains(f: Found, h: Found, x: Seq<char>)
    requires
        extends(f, h),
    ensures
        f.ordered.contains(x) ==> h.ordered.contains(x),
        f.missing.contains(x) ==> h.missing.contains(x),
{
    if f.ordered.contains(x) {
        let p = choose|p: int| 0 <= p < f.ordered.len() && f.ordered[p] == x;
        assert(h.ordered.subrange(0, f.ordered.len() as int)[p] == h.ordered[p]);
    }
    if f.missing.contains(x) {
        let p = choose|p: int| 0 <= p < f.missing.len() && f.missing[p] == x;
        assert(h.missing.subrange(0, f.missing.len() as int)[p] == h.missing[p]);
    }
}

/// Whether a name has been found or noted as missing.
pub open spec fn settled(g: Graph, f: Found, id: Seq<char>) -> bool {
    match lookup(g, id) {
        Some(_) => f.ordered.contains(id),
        None => f.missing.contains(id),
    }
}

/// Whether all that the found names include has been found or noted as missing.
pub open spec fn includes_settled(g: Graph, f: Found) -> bool {
    forall|i: int, j: int|
        0 <= i < f.ordered.len() && 0 <= j < lookup(g, f.ordered[i])->0.len() ==> settled(
            g,
            f,
            #[trigger] lookup(g, f.ordered[i])->0[j],
        )
}

proof fn settled_stays(g: Graph, f: Found, h: Found, x: Seq<char>)
    requires
        extends(f, h),
        settled(g, f, x),
    ensures
        settled(g, h, x),
{
    extends_contains(f, h, x);
}

proof fn collect_laws(g: Graph, order: Seq<Seq<char>>, depth: nat, id: Seq<char>, f: Found)
    requires
        orders(g, order),
        lookup(g, id) is Some ==> place(order, id) < depth,
        dependencies_first(g, f.ordered),
        includes_settled(g, f),
    ensures
        dependencies_first(g, collect(g, depth, id, f).ordered),
        includes_settled(g, collect(g, depth, id, f)),
        extends(f, collect(g, depth, id, f)),
        settled(g, collect(g, depth, id, f), id),
    decreases depth, 0int,
{
    assert(f.ordered.subrange(0, f.ordered.len() as int) =~= f.ordered);
    assert(f.missing.subrange(0, f.missing.len() as int) =~= f.missing);
    let r = collect(g, depth, id, f);
    match lookup(g, id) {
        None => {
            assert(r.missing[f.missing.len() as int] == id);
            assert(r.missing.subrange(0, f.missing.len() as int) =~= f.missing);
            assert forall|i: int, j: int|
                0 <= i < r.ordered.len() && 0 <= j < lookup(
                    g,
                    r.ordered[i],
                )->0.len() implies settled(g, r, #[trigger] lookup(g, r.ordered[i])->0[j]) by {
                settled_stays(g, f, r, lookup(g, f.ordered[i])->0[j]);
            }
        },
        Some(incs) => {
            place_bounds(order, id);
            if !f.ordered.contains(id) {
                let next = (depth - 1) as nat;
                collect_all_laws(g, order, next, id, incs, 0, f);
                let inner = collect_all(g, next, incs, 0, f);
                if !inner.ordered.contains(id) {
                    let d = inner.ordered;
                    let e = r.ordered;
                    assert(e == d.push(id));
                    assert(e[d.len() as int] == id);
                    assert(e.subrange(0, f.ordered.len() as int) =~= d.subrange(
                        0,
                        f.ordered.len() as int,
                    ));
                    assert(e.no_duplicates()) by {
                        assert forall|a: int, b: int| 0 <= a < b < e.len() implies e[a] != e[b] by {
                            if b == d.len() {
                                assert(d.contains(d[a]));
                            }
                        }
                    }
                    assert forall|i: int|
                        #![trigger e[i]]
                        0 <= i < e.len() implies lookup(g, e[i]) is Some && forall|j: int|
                        #![trigger lookup(g, e[i])->0[j]]
                        0 <= j < lookup(g, e[i])->0.len() && lookup(
                            g,
                            lookup(g, e[i])->0[j],
                        ) is Some ==> e.subrange(0, i).contains(lookup(g, e[i])->0[j]) by {
                        assert forall|j: int|
                            #![trigger lookup(g, e[i])->0[j]]
                            0 <= j < lookup(g, e[i])->0.len() && lookup(
                                g,
                                lookup(g, e[i])->0[j],
                            ) is Some implies e.subrange(0, i).contains(lookup(g, e[i])->0[j]) by {
                            if i < d.len() {
                                assert(e[i] == d[i]);
                                assert(e.subrange(0, i) =~= d.subrange(0, i));
                            } else {
                                assert(e.subrange(0, i) =~= d);
                                assert(settled(g, inner, incs[j]));
                            }
                        }
                        if i < d.len() {
                            assert(e[i] == d[i]);
                        }
                    }
                    assert(e.subrange(0, d.len() as int) =~= d);
                    assert(r.missing.subrange(0, inner.missing.len() as int) =~= inner.missing);
                    assert forall|i: int, j: int|
                        0 <= i < e.len() && 0 <= j < lookup(g, e[i])->0.len() implies settled(
                        g,
                        r,
                        #[trigger] lookup(g, e[i])->0[j],
                    ) by {
                        if i < d.len() {
                            assert(e[i] == d[i]);
                            assert(settled(g, inner, lookup(g, d[i])->0[j]));
                        } else {
                            assert(settled(g, inner, incs[j]));
                        }
                        settled_stays(g, inner, r, lookup(g, e[i])->0[j]);
                    }
                }
            }
        },
    }
}

proof fn collect_all_laws(
    g: Graph,
    order: Seq<Seq<char>>,
    depth: nat,
    id: Seq<char>,
    incs: Seq<Seq<char>>,
    i: int,
    f: Found,
)
    requires
        orders(g, order),
        lookup(g, id) == Some(incs),
        place(order, id) <= depth,
        0 <= i <= incs.len(),
        dependencies_first(g, f.ordered),
        includes_settled(g, f),
        forall|j: int| 0 <= j < i ==> settled(g, f, #[trigger] incs[j]),
    ensures
        dependencies_first(g, collect_all(g, depth, incs, i, f).ordered),
        includes_settled(g, collect_all(g, depth, incs, i, f)),
        extends(f, collect_all(g, depth, incs, i, f)),
        forall|j: int|
            0 <= j < incs.len() ==> settled(
                g,
                collect_all(g, depth, incs, i, f),
                #[trigger] incs[j],
            ),
    decreases depth, incs.len() - i + 1,
{
    assert(f.ordered.subrange(0, f.ordered.len() as int) =~= f.ordered);
    assert(f.missing.subrange(0, f.missing.len() as int) =~= f.missing);
    if i < incs.len() {
        if lookup(g, incs[i]) is Some {
            include_comes_before(g, order, id, i);
        }
        let h = collect(g, depth, incs[i], f);
        collect_laws(g, order, depth, incs[i], f);
        assert forall|j: int| 0 <= j < i + 1 implies settled(g, h, #[trigger] incs[j]) by {
            extends_contains(f, h, incs[j]);
        }
        collect_all_laws(g, order, depth, id, incs, i + 1, h);
        extends_trans(f, h, collect_all(g, depth, incs, i + 1, h));
    }
}

proof fn requests_laws(
    g: Graph,
    order: Seq<Seq<char>>,
    ids: Seq<Seq<char>>,
    i: int,
    f: Found,
)
    requires
        orders(g, order),
        order.len() <= g.len(),
        0 <= i <= ids.len(),
        dependencies_first(g, f.ordered),
        includes_settled(g, f),
        forall|j: int| 0 <= j < i ==> settled(g, f, #[trigger] ids[j]),
    ensures
        dependencies_first(g, collect_all(g, g.len(), ids, i, f).ordered),
        includes_settled(g, collect_all(g, g.len(), ids, i, f)),
        forall|j: int|
            0 <= j < ids.len() ==> settled(g, collect_all(g, g.len(), ids, i, f), #[trigger] ids[j]),
    decreases ids.len() - i,
{
    if i < ids.len() {
        if lookup(g, ids[i]) is Some {
            place_bounds(order, ids[i]);
        }
        let h = collect(g, g.len(), ids[i], f);
        collect_laws(g, order, g.len(), ids[i], f);
        assert forall|j: int| 0 <= j < i + 1 implies settled(g, h, #[trigger] ids[j]) by {
            extends_contains(f, h, ids[j]);
        }
        requests_laws(g, order, ids, i + 1, h);
    }
}

/// Every requested profile that exists is found, once, behind all that it includes;
/// every requested one that does not exist is reported.
pub proof fn requests_are_resolved_in_order(g: Graph, ids: Seq<Seq<char>>)
    requires
        acyclic(g),
    ensures
        dependencies_first(g, requested(g, ids).ordered),
        forall|j: int| 0 <= j < ids.len() ==> settled(g, requested(g, ids), #[trigger] ids[j]),
{
    let order = choose|order: Seq<Seq<char>>| orders(g, order);
    names_fit(g, order);
    requests_laws(g, order, ids, 0, Found { ordered: Seq::empty(), missing: Seq::empty() });
}

/// Whether one name includes another.
pub open spec fn includes_name(g: Graph, a: Seq<char>, b: Seq<char>) -> bool {
    lookup(g, a) matches Some(incs) && incs.contains(b)
}

/// Whether each name of a path includes the next.
pub open spec fn include_path(g: Graph, path: Seq<Seq<char>>) -> bool {
    forall|k: int, m: int|
        0 <= k && m == k + 1 && m < path.len() ==> includes_name(
            g,
            #[trigger] path[k],
            #[trigger] path[m],
        )
}

/// Whether a path of includes leads from one of some names to another.
pub open spec fn leads(g: Graph, ids: Seq<Seq<char>>, path: Seq<Seq<char>>, id: Seq<char>) -> bool {
    path.len() > 0 && ids.contains(path[0]) && path.last() == id && include_path(g, path)
}

/// Whether a name is one of some names, or is included by them, directly or through others.
pub open spec fn reached(g: Graph, ids: Seq<Seq<char>>, id: Seq<char>) -> bool {
    exists|path: Seq<Seq<char>>| leads(g, ids, path, id)
}

/// Whether only names that are reached have been found or noted as missing.
pub open spec fn only_reached(g: Graph, ids: Seq<Seq<char>>, f: Found) -> bool {
    &&& forall|i: int|
        0 <= i < f.ordered.len() ==> lookup(g, #[trigger] f.ordered[i]) is Some && reached(
            g,
            ids,
            f.ordered[i],
        )
    &&& forall|i: int|
        0 <= i < f.missing.len() ==> lookup(g, #[trigger] f.missing[i]) is None && reached(
            g,
            ids,
            f.missing[i],
        )
}

proof fn include_is_reached(g: Graph, ids: Seq<Seq<char>>, a: Seq<char>, b: Seq<char>)
    requires
        reached(g, ids, a),
        includes_name(g, a, b),
    ensures
        reached(g, ids, b),
{
    let p = choose|p: Seq<Seq<char>>| leads(g, ids, p, a);
    let q = p.push(b);
    assert forall|k: int, m: int| 0 <= k && m == k + 1 && m < q.len() implies includes_name(
        g,
        #[trigger] q[k],
        #[trigger] q[m],
    ) by {
        if m < p.len() {
            assert(includes_name(g, p[k], p[m]));
        }
    }
    assert(q[0] == p[0]);
    assert(leads(g, ids, q, b));
}

proof fn collect_reaches(g: Graph, ids: Seq<Seq<char>>, depth: nat, id: Seq<char>, f: Found)
    requires
        reached(g, ids, id),
        only_reached(g, ids, f),
    ensures
        only_reached(g, ids, collect(g, depth, id, f)),
    decreases depth, 0int,
{
    if let Some(incs) = lookup(g, id) {
        if !(f.ordered.contains(id) || depth == 0) {
            assert forall|j: int| 0 <= j < incs.len() implies reached(
                g,
                ids,
                #[trigger] incs[j],
            ) by {
                include_is_reached(g, ids, id, incs[j]);
            }
            collect_all_reaches(g, ids, (depth - 1) as nat, incs, 0, f);
        }
    }
}

proof fn collect_all_reaches(
    g: Graph,
    ids: Seq<Seq<char>>,
    depth: nat,
    incs: Seq<Seq<char>>,
    i: int,
    f: Found,
)
    requires
        forall|j: int| 0 <= j < incs.len() ==> reached(g, ids, #[trigger] incs[j]),
        only_reached(g, ids, f),
    ensures
        only_reached(g, ids, collect_all(g, depth, incs, i, f)),
    decreases depth, incs.len() - i + 1,
{
    if 0 <= i < incs.len() {
        collect_reaches(g, ids, depth, incs[i], f);
        collect_all_reaches(g, ids, depth, incs, i + 1, collect(g, depth, incs[i], f));
    }
}

proof fn path_is_settled(g: Graph, f: Found, path: Seq<Seq<char>>, k: int)
    requires
        include_path(g, path),
        includes_settled(g, f),
        0 <= k < path.len(),
        settled(g, f, path[0]),
    ensures
        settled(g, f, path[k]),
    decreases k,
{
    if k > 0 {
        path_is_settled(g, f, path, k - 1);
        let a = path[k - 1];
        let b = path[k];
        assert(includes_name(g, a, b));
        let i = choose|i: int| 0 <= i < f.ordered.len() && f.ordered[i] == a;
        let incs = lookup(g, a)->0;
        let j = choose|j: int| 0 <= j < incs.len() && incs[j] == b;
        assert(settled(g, f, lookup(g, f.ordered[i])->0[j]));
    }
}

/// What a request finds is what it reaches over includes, and nothing else: the profiles
/// among the names that are reached are applied, and the other names are missing.
pub proof fn request_finds_what_it_reaches(g: Graph, ids: Seq<Seq<char>>, id: Seq<char>)
    requires
        acyclic(g),
    ensures
        requested(g, ids).ordered.contains(id) <==> lookup(g, id) is Some && reached(g, ids, id),
        requested(g, ids).missing.contains(id) <==> lookup(g, id) is None && reached(g, ids, id),
{
    let none = Found { ordered: Seq::empty(), missing: Seq::empty() };
    let f = requested(g, ids);
    assert forall|j: int| 0 <= j < ids.len() implies reached(g, ids, #[trigger] ids[j]) by {
        let p = seq![ids[j]];
        assert(leads(g, ids, p, ids[j]));
    }
    collect_all_reaches(g, ids, g.len(), ids, 0, none);
    let order = choose|order: Seq<Seq<char>>| orders(g, order);
    names_fit(g, order);
    requests_laws(g, order, ids, 0, none);
    if reached(g, ids, id) {
        let p = choose|p: Seq<Seq<char>>| leads(g, ids, p, id);
        let j = choose|j: int| 0 <= j < ids.len() && ids[j] == p[0];
        assert(settled(g, f, ids[j]));
        path_is_settled(g, f, p, p.len() - 1);
    }
}

proof fn collect_misses(g: Graph, depth: nat, id: Seq<char>, f: Found)
    requires
        closed_graph(g),
        lookup(g, id) is Some,
    ensures
        collect(g, depth, id, f).missing == f.missing,
    decreases depth, 0int,
{
    let incs = lookup(g, id)->0;
    if !(f.ordered.contains(id) || depth == 0) {
        lookup_some(g, id);
        assert forall|j: int| 0 <= j < incs.len() implies lookup(g, #[trigger] incs[j]) is Some by {
            assert(g[rank(g, id)].1[j] == incs[j]);
        }
        collect_all_misses(g, (depth - 1) as nat, incs, 0, f);
    }
}

proof fn collect_all_misses(g: Graph, depth: nat, incs: Seq<Seq<char>>, i: int, f: Found)
    requires
        closed_graph(g),
        forall|j: int| 0 <= j < incs.len() ==> lookup(g, #[trigger] incs[j]) is Some,
    ensures
        collect_all(g, depth, incs, i, f).missing == f.missing,
    decreases depth, incs.len() - i + 1,
{
    if 0 <= i < incs.len() {
        collect_misses(g, depth, incs[i], f);
        collect_all_misses(g, depth, incs, i + 1, collect(g, depth, incs[i], f));
    }
}

/// The names that are not in the graph.
pub open spec fn unknown(g: Graph, ids: Seq<Seq<char>>) -> Seq<Seq<char>> {
    ids.filter(|id: Seq<char>| lookup(g, id) is None)
}

proof fn requests_miss(g: Graph, ids: Seq<Seq<char>>, i: int, f: Found)
    requires
        closed_graph(g),
        0 <= i <= ids.len(),
        f.missing == unknown(g, ids.subrange(0, i)),
    ensures
        collect_all(g, g.len(), ids, i, f).missing == unknown(g, ids),
    decreases ids.len() - i,
{
    if i < ids.len() {
        let h = collect(g, g.len(), ids[i], f);
        let next = ids.subrange(0, i + 1);
        assert(next.drop_last() =~= ids.subrange(0, i));
        assert(next.last() == ids[i]);
        reveal(Seq::filter);
        if lookup(g, ids[i]) is Some {
            collect_misses(g, g.len(), ids[i], f);
        }
        requests_miss(g, ids, i + 1, h);
    } else {
        assert(ids.subrange(0, i) =~= ids);
    }
}

/// Where every profile that is included exists, what a request misses is the requested names
/// that are not profiles, in their order.
pub proof fn only_requested_names_are_missing(g: Graph, ids: Seq<Seq<char>>)
    requires
        closed_graph(g),
    ensures
        requested(g, ids).missing == unknown(g, ids),
{
    let none: Seq<Seq<char>> = Seq::empty();
    assert(ids.subrange(0, 0) =~= none);
    reveal(Seq::filter);
    requests_miss(g, ids, 0, Found { ordered: none, missing: none });
}

} // verus!
