//! Paths as texts, with `/` between their components.

use vstd::prelude::*;
use crate::text::{
    cat2, cat3, chars_of, has_prefix, list_prefix, list_starts_with, rest, slice_string, split,
    split_between, split_on, starts_with, str_eq,
};

verus! {

/// A path extended by another: an absolute one takes its place, a relative one goes
/// below it.
pub open spec fn joined(base: Seq<char>, rel: Seq<char>) -> Seq<char> {
    if has_prefix(rel, "/"@) || base.len() == 0 {
        rel
    } else if base.last() == '/' {
        base + rel
    } else {
        base + "/"@ + rel
    }
}

pub fn join_path(base: &str, rel: &str) -> (r: String)
    ensures
        r@ == joined(base@, rel@),
{
    let v = chars_of(base);
    if starts_with(rel, "/") || v.len() == 0 {
        return rel.to_owned();
    }
    if v[v.len() - 1] == '/' {
        cat2(base, rel)
    } else {
        cat3(base, "/", rel)
    }
}

/// A path extended by two others.
pub open spec fn joined2(base: Seq<char>, a: Seq<char>, b: Seq<char>) -> Seq<char> {
    joined(joined(base, a), b)
}

pub fn join_path2(base: &str, a: &str, b: &str) -> (r: String)
    ensures
        r@ == joined2(base@, a@, b@),
{
    let p = join_path(base, a);
    join_path(p.as_str(), b)
}

/// A path extended by three others.
pub open spec fn joined3(base: Seq<char>, a: Seq<char>, b: Seq<char>, c: Seq<char>) -> Seq<char> {
    joined(joined2(base, a, b), c)
}

pub fn join_path3(base: &str, a: &str, b: &str, c: &str) -> (r: String)
    ensures
        r@ == joined3(base@, a@, b@, c@),
{
    let p = join_path2(base, a, b);
    join_path(p.as_str(), c)
}

/// A file of the home directory's own part.
pub open spec fn global_file(home: Seq<char>, name: Seq<char>) -> Seq<char> {
    joined2(home, "printrevolt"@, name)
}

/// A file of a project's own part.
pub open spec fn project_file(root: Seq<char>, name: Seq<char>) -> Seq<char> {
    joined3(root, ".codex"@, "printrevolt"@, name)
}

/// A path without what does not name anything at its end: separators, and the current
/// directory below another.
pub open spec fn bare(s: Seq<char>) -> Seq<char>
    decreases s.len(),
{
    if s.len() > 1 && s.last() == '/' {
        bare(s.drop_last())
    } else if s.len() > 1 && s.last() == '.' && s[s.len() - 2] == '/' {
        bare(s.drop_last())
    } else {
        s
    }
}

/// The position behind the last separator.
pub open spec fn name_start(s: Seq<char>) -> int
    decreases s.len(),
{
    if s.len() == 0 || s.last() == '/' {
        s.len() as int
    } else {
        name_start(s.drop_last())
    }
}

/// The last component of a path, where it is a name.
pub open spec fn file_name(s: Seq<char>) -> Option<Seq<char>> {
    let b = bare(s);
    let name = rest(b, name_start(b));
    if name.len() == 0 || name == "."@ || name == ".."@ {
        None
    } else {
        Some(name)
    }
}

/// A path with its last component, where it is a name, replaced; otherwise extended.
pub open spec fn with_name(s: Seq<char>, name: Seq<char>) -> Seq<char> {
    match file_name(s) {
        None => joined(s, name),
        Some(_) => {
            let b = bare(s);
            joined(bare(b.subrange(0, name_start(b))), name)
        },
    }
}

fn bare_len(v: &Vec<char>, to: usize) -> (r: usize)
    requires
        to <= v@.len(),
    ensures
        r <= to,
        v@.subrange(0, r as int) == bare(v@.subrange(0, to as int)),
{
    let ghost start = v@.subrange(0, to as int);
    let mut n: usize = to;
    while n > 1 && (v[n - 1] == '/' || (v[n - 1] == '.' && v[n - 2] == '/'))
        invariant
            n <= to <= v@.len(),
            bare(start) == bare(v@.subrange(0, n as int)),
        decreases n,
    {
        assert(v@.subrange(0, n as int).drop_last() =~= v@.subrange(0, n - 1));
        assert(v@.subrange(0, n as int).last() == v@[n - 1]);
        n = n - 1;
    }
    if n > 1 {
        assert(v@.subrange(0, n as int).last() == v@[n - 1]);
        assert(v@.subrange(0, n as int)[n - 2] == v@[n - 2]);
    }
    n
}

fn name_position(v: &Vec<char>, to: usize) -> (r: usize)
    requires
        to <= v@.len(),
    ensures
        r <= to,
        r == name_start(v@.subrange(0, to as int)),
{
    let ghost start = v@.subrange(0, to as int);
    let mut n: usize = to;
    while n > 0 && v[n - 1] != '/'
        invariant
            n <= to <= v@.len(),
            name_start(start) == name_start(v@.subrange(0, n as int)),
        decreases n,
    {
        assert(v@.subrange(0, n as int).drop_last() =~= v@.subrange(0, n - 1));
        assert(v@.subrange(0, n as int).last() == v@[n - 1]);
        n = n - 1;
    }
    if n > 0 {
        assert(v@.subrange(0, n as int).last() == v@[n - 1]);
    }
    n
}

/// The last component of a path, where it is a name.
pub fn file_name_of(s: &str) -> (r: Option<String>)
    ensures
        r.deep_view() == file_name(s@),
{
    let v = chars_of(s);
    let n = bare_len(&v, v.len());
    assert(v@.subrange(0, v@.len() as int) =~= v@);
    let p = name_position(&v, n);
    let name = slice_string(&v, p, n);
    assert(name@ =~= rest(bare(s@), name_start(bare(s@))));
    if p == n || str_eq(name.as_str(), ".") || str_eq(name.as_str(), "..") {
        None
    } else {
        Some(name)
    }
}

/// A path with its last component, where it is a name, replaced; otherwise extended.
pub fn with_file_name(s: &str, name: &str) -> (r: String)
    ensures
        r@ == with_name(s@, name@),
{
    if file_name_of(s).is_none() {
        return join_path(s, name);
    }
    let v = chars_of(s);
    let n = bare_len(&v, v.len());
    assert(v@.subrange(0, v@.len() as int) =~= v@);
    let p = name_position(&v, n);
    let q = bare_len(&v, p);
    assert(v@.subrange(0, n as int).subrange(0, p as int) =~= v@.subrange(0, p as int));
    let parent = slice_string(&v, 0, q);
    join_path(parent.as_str(), name)
}

/// The components of a path: whether it is absolute, and its names; the current directory
/// counts only where a path begins with it.
pub open spec fn components_from(pieces: Seq<Seq<char>>, i: int, acc: Seq<Seq<char>>) -> Seq<Seq<char>>
    decreases pieces.len() - i,
{
    if i < 0 || i >= pieces.len() {
        acc
    } else if pieces[i].len() == 0 || (pieces[i] == "."@ && i > 0) {
        components_from(pieces, i + 1, acc)
    } else {
        components_from(pieces, i + 1, acc.push(pieces[i]))
    }
}

/// The names of a path.
pub open spec fn components(s: Seq<char>) -> Seq<Seq<char>> {
    components_from(split(s, '/'), 0, Seq::empty())
}

/// Whether a path is absolute.
pub open spec fn is_absolute(s: Seq<char>) -> bool {
    has_prefix(s, "/"@)
}

/// Whether a path is `root` or lies below it.
pub open spec fn is_under(path: Seq<char>, root: Seq<char>) -> bool {
    is_absolute(path) == is_absolute(root) && list_prefix(components(path), components(root))
}

fn components_of(s: &str) -> (r: Vec<String>)
    ensures
        r.deep_view() == components(s@),
{
    let pieces = split_on(s, '/');
    let ghost all = split(s@, '/');
    let mut out: Vec<String> = Vec::new();
    let mut i: usize = 0;
    assert(out.deep_view() =~= Seq::empty());
    while i < pieces.len()
        invariant
            i <= pieces.len(),
            all == pieces.deep_view(),
            components_from(all, 0, Seq::empty()) == components_from(
                all,
                i as int,
                out.deep_view(),
            ),
        decreases pieces.len() - i,
    {
        let piece = pieces[i].as_str();
        assert(all[i as int] == piece@);
        let ghost before = out.deep_view();
        if !(chars_of(piece).len() == 0 || (str_eq(piece, ".") && i > 0)) {
            out.push(piece.to_owned());
            assert(out.deep_view() =~= before.push(piece@));
        }
        i = i + 1;
    }
    out
}

/// Whether a path is `root` or lies below it.
pub fn path_is_under(path: &str, root: &str) -> (r: bool)
    ensures
        r == is_under(path@, root@),
{
    let a = components_of(path);
    let b = components_of(root);
    starts_with(path, "/") == starts_with(root, "/") && list_starts_with(&a, &b)
}

/// The directory that a path lies in; the root and the empty path lie in none.
pub open spec fn parent(s: Seq<char>) -> Option<Seq<char>> {
    let b = bare(s);
    if b.len() == 0 || b == "/"@ {
        None
    } else {
        Some(bare(b.subrange(0, name_start(b))))
    }
}

proof fn bare_bounds(s: Seq<char>)
    ensures
        bare(s).len() <= s.len(),
        s.len() > 0 ==> bare(s).len() > 0,
        bare(s).len() > 1 ==> bare(s).last() != '/',
    decreases s.len(),
{
    if s.len() > 1 && (s.last() == '/' || (s.last() == '.' && s[s.len() - 2] == '/')) {
        bare_bounds(s.drop_last());
    }
}

proof fn name_start_bounds(s: Seq<char>)
    ensures
        0 <= name_start(s) <= s.len(),
        s.len() > 0 && s.last() != '/' ==> name_start(s) < s.len(),
    decreases s.len(),
{
    if s.len() > 0 && s.last() != '/' {
        name_start_bounds(s.drop_last());
    }
}

/// A path is longer than the directory that it lies in.
pub proof fn parent_is_shorter(s: Seq<char>)
    ensures
        parent(s) matches Some(p) ==> p.len() < s.len(),
{
    let b = bare(s);
    bare_bounds(s);
    name_start_bounds(b);
    reveal_strlit("/");
    if b.len() == 1 && b.last() == '/' {
        assert(b =~= "/"@);
    }
    if parent(s) is Some {
        bare_bounds(b.subrange(0, name_start(b)));
    }
}

pub fn parent_of(s: &str) -> (r: Option<String>)
    ensures
        r.deep_view() == parent(s@),
{
    let v = chars_of(s);
    let n = bare_len(&v, v.len());
    assert(v@.subrange(0, v@.len() as int) =~= v@);
    let ghost b = bare(s@);
    proof {
        reveal_strlit("/");
        if b.len() == 1 && b[0] == '/' {
            assert(b =~= "/"@);
        }
    }
    if n == 0 || (n == 1 && v[0] == '/') {
        return None;
    }
    let p = name_position(&v, n);
    let q = bare_len(&v, p);
    assert(v@.subrange(0, n as int).subrange(0, p as int) =~= v@.subrange(0, p as int));
    Some(slice_string(&v, 0, q))
}

/// A path and the directories that it lies in, the nearest first.
pub open spec fn ancestors(s: Seq<char>) -> Seq<Seq<char>>
    decreases s.len(),
    when true
    via parent_decreases
{
    match parent(s) {
        None => seq![s],
        Some(p) => seq![s] + ancestors(p),
    }
}

#[via_fn]
proof fn parent_decreases(s: Seq<char>) {
    parent_is_shorter(s);
}

/// The path and the directories that it lies in. A root of a project is looked for among
/// them.
pub fn ancestors_of(s: &str) -> (r: Vec<String>)
    ensures
        r.deep_view() == ancestors(s@),
{
    let mut out: Vec<String> = Vec::new();
    let mut cur = s.to_owned();
    assert(out.deep_view() + ancestors(cur@) =~= ancestors(s@));
    loop
        invariant_except_break
            out.deep_view() + ancestors(cur@) == ancestors(s@),
        ensures
            out.deep_view() == ancestors(s@),
        decreases cur@.len(),
    {
        let ghost before = out.deep_view();
        let ghost here = cur@;
        let up = parent_of(cur.as_str());
        out.push(cur);
        assert(out.deep_view() =~= before.push(here));
        match up {
            None => {
                assert(out.deep_view() =~= before + ancestors(here));
                break;
            },
            Some(p) => {
                proof {
                    parent_is_shorter(here);
                    assert(out.deep_view() + ancestors(p@) =~= before + ancestors(here));
                }
                cur = p;
            },
        }
    }
    out
}

/// The position of the last dot of a name, none where it has none but at its start.
pub open spec fn last_dot(s: Seq<char>) -> Option<int>
    decreases s.len(),
{
    if s.len() <= 1 {
        None
    } else if s.last() == '.' {
        Some(s.len() - 1)
    } else {
        last_dot(s.drop_last())
    }
}

/// A name without what follows its last dot.
pub open spec fn stem(name: Seq<char>) -> Seq<char> {
    match last_dot(name) {
        None => name,
        Some(p) => name.subrange(0, p),
    }
}

pub fn stem_of(name: &str) -> (r: String)
    ensures
        r@ == stem(name@),
{
    let v = chars_of(name);
    let ghost start = v@;
    let mut n: usize = v.len();
    assert(v@.subrange(0, n as int) =~= v@);
    while n > 1 && v[n - 1] != '.'
        invariant
            n <= v@.len(),
            start == v@,
            last_dot(start) == last_dot(v@.subrange(0, n as int)),
        decreases n,
    {
        assert(v@.subrange(0, n as int).last() == v@[n - 1]);
        assert(v@.subrange(0, n as int).drop_last() =~= v@.subrange(0, n - 1));
        n = n - 1;
    }
    if n > 1 {
        assert(v@.subrange(0, n as int).last() == v@[n - 1]);
        slice_string(&v, 0, n - 1)
    } else {
        name.to_owned()
    }
}

/// A path extended by the name of another, where that has one.
pub open spec fn with_name_of(base: Seq<char>, s: Seq<char>) -> Seq<char> {
    match file_name(s) {
        None => base,
        Some(name) => joined(base, name),
    }
}

/// A base extended by the names of the first `n` of some paths, the last first.
pub open spec fn reattached(base: Seq<char>, s: Seq<Seq<char>>, n: int) -> Seq<char>
    decreases n,
{
    if n <= 0 || n > s.len() {
        base
    } else {
        reattached(with_name_of(base, s[n - 1]), s, n - 1)
    }
}

/// The path that lies below another form of its `n`th ancestor as it lies below that.
pub fn reattach(base: &str, path: &str, n: usize) -> (r: String)
    ensures
        r@ == reattached(base@, ancestors(path@), n as int),
{
    let up = ancestors_of(path);
    let ghost s = ancestors(path@);
    assert(up.deep_view().len() == up@.len());
    if n > up.len() {
        return base.to_owned();
    }
    let mut out = base.to_owned();
    let mut i: usize = n;
    while i > 0
        invariant
            i <= n <= up@.len(),
            s == up.deep_view(),
            up@.len() == s.len(),
            reattached(base@, s, n as int) == reattached(out@, s, i as int),
        decreases i,
    {
        assert(s[i - 1] == up@[i - 1]@);
        if let Some(name) = file_name_of(up[i - 1].as_str()) {
            out = join_path(out.as_str(), name.as_str());
        }
        i = i - 1;
    }
    out
}

/// The names that are left once those of a path, from position `i` on, are followed one by
/// one behind `acc`: the parent directory takes the last name away, where there is one, and
/// the current directory leads nowhere.
pub open spec fn resolved_from(names: Seq<Seq<char>>, i: int, acc: Seq<Seq<char>>) -> Seq<Seq<char>>
    decreases names.len() - i,
{
    if i < 0 || i >= names.len() {
        acc
    } else if names[i] == "."@ {
        resolved_from(names, i + 1, acc)
    } else if names[i] == ".."@ {
        resolved_from(
            names,
            i + 1,
            if acc.len() > 0 {
                acc.drop_last()
            } else {
                acc
            },
        )
    } else {
        resolved_from(names, i + 1, acc.push(names[i]))
    }
}

/// The names of the place that a path leads to.
pub open spec fn resolved_names(s: Seq<char>) -> Seq<Seq<char>> {
    resolved_from(components(s), 0, Seq::empty())
}

/// Whether a path is written below another and does not lead back out of it: what it leads
/// to lies where the other leads to, or below.
pub open spec fn stays_below(path: Seq<char>, root: Seq<char>) -> bool {
    is_under(path, root) && list_prefix(resolved_names(path), resolved_names(root))
}

fn resolved_names_of(s: &str) -> (r: Vec<String>)
    ensures
        r.deep_view() == resolved_names(s@),
{
    let names = components_of(s);
    let ghost all = components(s@);
    assert(names.deep_view().len() == names@.len());
    let mut out: Vec<String> = Vec::new();
    let mut i: usize = 0;
    assert(out.deep_view() =~= Seq::empty());
    while i < names.len()
        invariant
            i <= names@.len(),
            names@.len() == all.len(),
            all == names.deep_view(),
            resolved_from(all, 0, Seq::empty()) == resolved_from(all, i as int, out.deep_view()),
        decreases names.len() - i,
    {
        let name = names[i].as_str();
        assert(all[i as int] == name@);
        let ghost before = out.deep_view();
        assert(before.len() == out@.len());
        if str_eq(name, ".") {
        } else if str_eq(name, "..") {
            if out.len() > 0 {
                let _ = out.pop();
                assert(out.deep_view() =~= before.drop_last());
            }
        } else {
            out.push(name.to_owned());
            assert(out.deep_view() =~= before.push(name@));
        }
        i = i + 1;
    }
    out
}

/// Whether a path is written below another and does not lead back out of it.
pub fn path_stays_below(path: &str, root: &str) -> (r: bool)
    ensures
        r == stays_below(path@, root@),
{
    let a = resolved_names_of(path);
    let b = resolved_names_of(root);
    path_is_under(path, root) && list_starts_with(&a, &b)
}

/// Whether a path is written below another and leads down from there at every name.
pub open spec fn goes_down_from(path: Seq<char>, root: Seq<char>) -> bool {
    &&& is_under(path, root)
    &&& forall|k: int|
        components(root).len() <= k < components(path).len() ==> #[trigger] components(path)[k]
            != ".."@
}

proof fn resolved_behind(c: Seq<Seq<char>>, r: Seq<Seq<char>>, i: int, acc: Seq<Seq<char>>)
    requires
        0 <= i <= r.len(),
        list_prefix(c, r),
    ensures
        resolved_from(c, i, acc) == resolved_from(c, r.len() as int, resolved_from(r, i, acc)),
    decreases r.len() - i,
{
    if i < r.len() {
        assert(c.subrange(0, r.len() as int)[i] == c[i]);
        if r[i] == "."@ {
            resolved_behind(c, r, i + 1, acc);
        } else if r[i] == ".."@ {
            let up = if acc.len() > 0 {
                acc.drop_last()
            } else {
                acc
            };
            resolved_behind(c, r, i + 1, up);
        } else {
            resolved_behind(c, r, i + 1, acc.push(r[i]));
        }
    }
}

proof fn resolved_extends(c: Seq<Seq<char>>, i: int, acc: Seq<Seq<char>>)
    requires
        0 <= i,
        forall|k: int| i <= k < c.len() ==> #[trigger] c[k] != ".."@,
    ensures
        list_prefix(resolved_from(c, i, acc), acc),
    decreases c.len() - i,
{
    if i < c.len() {
        if c[i] == "."@ {
            resolved_extends(c, i + 1, acc);
        } else {
            let next = acc.push(c[i]);
            resolved_extends(c, i + 1, next);
            let all = resolved_from(c, i, acc);
            assert forall|k: int| 0 <= k < acc.len() implies all[k] == acc[k] by {
                assert(all.subrange(0, next.len() as int)[k] == next[k]);
            }
            assert(all.subrange(0, acc.len() as int) =~= acc);
        }
    } else {
        assert(acc.subrange(0, acc.len() as int) =~= acc);
    }
}

/// A path that leads down at every name stays below where it starts.
pub proof fn down_stays_below(path: Seq<char>, root: Seq<char>)
    requires
        goes_down_from(path, root),
    ensures
        stays_below(path, root),
{
    let c = components(path);
    let r = components(root);
    let none: Seq<Seq<char>> = Seq::empty();
    resolved_behind(c, r, 0, none);
    resolved_extends(c, r.len() as int, resolved_from(r, 0, none));
}

proof fn components_extend(pieces: Seq<Seq<char>>, i: int, acc: Seq<Seq<char>>)
    ensures
        list_prefix(components_from(pieces, i, acc), acc),
        forall|k: int|
            acc.len() <= k < components_from(pieces, i, acc).len() ==> exists|j: int|
                i <= j < pieces.len() && #[trigger] components_from(pieces, i, acc)[k]
                    == pieces[j],
    decreases pieces.len() - i,
{
    let all = components_from(pieces, i, acc);
    if 0 <= i < pieces.len() {
        if pieces[i].len() == 0 || (pieces[i] == "."@ && i > 0) {
            components_extend(pieces, i + 1, acc);
        } else {
            let next = acc.push(pieces[i]);
            components_extend(pieces, i + 1, next);
            assert(all.subrange(0, acc.len() as int) =~= acc) by {
                assert(all.subrange(0, next.len() as int) == next);
                assert forall|k: int| 0 <= k < acc.len() implies all[k] == acc[k] by {
                    assert(all.subrange(0, next.len() as int)[k] == next[k]);
                }
            }
            assert forall|k: int| acc.len() <= k < all.len() implies exists|j: int|
                i <= j < pieces.len() && #[trigger] all[k] == pieces[j] by {
                if k == acc.len() {
                    assert(all.subrange(0, next.len() as int)[k] == next[k]);
                    assert(all[k] == pieces[i]);
                }
            }
        }
    } else {
        assert(acc.subrange(0, acc.len() as int) =~= acc);
    }
}

proof fn components_of_both(p: Seq<Seq<char>>, q: Seq<Seq<char>>, i: int, acc: Seq<Seq<char>>)
    requires
        0 <= i <= p.len(),
    ensures
        components_from(p + q, i, acc) == components_from(
            p + q,
            p.len() as int,
            components_from(p, i, acc),
        ),
    decreases p.len() - i,
{
    if i < p.len() {
        assert((p + q)[i] == p[i]);
        if p[i].len() == 0 || (p[i] == "."@ && i > 0) {
            components_of_both(p, q, i + 1, acc);
        } else {
            components_of_both(p, q, i + 1, acc.push(p[i]));
        }
    }
}

proof fn pieces_behind(p: Seq<Seq<char>>, q: Seq<Seq<char>>)
    requires
        forall|k: int| 0 <= k < q.len() ==> #[trigger] q[k] != ".."@,
    ensures
        ({
            let base = components_from(p, 0, Seq::empty());
            let all = components_from(p + q, 0, Seq::empty());
            &&& list_prefix(all, base)
            &&& forall|k: int| base.len() <= k < all.len() ==> #[trigger] all[k] != ".."@
        }),
{
    let none: Seq<Seq<char>> = Seq::empty();
    let base = components_from(p, 0, none);
    let all = components_from(p + q, 0, none);
    components_of_both(p, q, 0, none);
    components_extend(p + q, p.len() as int, base);
    assert forall|k: int| base.len() <= k < all.len() implies #[trigger] all[k] != ".."@ by {
        let j = choose|j: int| p.len() <= j < (p + q).len() && all[k] == (p + q)[j];
        assert((p + q)[j] == q[j - p.len()]);
    }
}

proof fn trailing_separator(r: Seq<char>)
    ensures
        components(r.push('/')) == components(r),
{
    let none: Seq<char> = Seq::empty();
    split_between(r, none, '/');
    assert(r.push('/') + none =~= r.push('/'));
    assert(split(none, '/') =~= seq![none]) by {
        assert(none.subrange(0, 0) =~= none);
    }
    let p = split(r, '/');
    components_of_both(p, seq![none], 0, Seq::empty());
    let both = p + seq![none];
    assert(both[p.len() as int].len() == 0);
    let base = components_from(p, 0, Seq::empty());
    assert(components_from(both, p.len() as int, base) == components_from(
        both,
        p.len() as int + 1,
        base,
    ));
}

/// A relative path none of whose pieces is the parent directory leads down from everything
/// that it is joined to, and so stays below it.
pub proof fn joined_stays_below(root: Seq<char>, rel: Seq<char>)
    requires
        !is_absolute(rel),
        forall|k: int| 0 <= k < split(rel, '/').len() ==> #[trigger] split(rel, '/')[k] != ".."@,
    ensures
        goes_down_from(joined(root, rel), root),
        stays_below(joined(root, rel), root),
{
    reveal_strlit("/");
    let q = split(rel, '/');
    let target = joined(root, rel);
    if root.len() == 0 {
        let p: Seq<Seq<char>> = Seq::empty();
        assert(p + q =~= q);
        pieces_behind(p, q);
        let none: Seq<char> = Seq::empty();
        assert(root =~= none);
        assert(split(none, '/') =~= seq![none]) by {
            assert(none.subrange(0, 0) =~= none);
        }
        assert(components(root) =~= Seq::empty()) by {
            reveal_with_fuel(components_from, 2);
        }
        assert(components(target).subrange(0, 0) =~= Seq::empty());
    } else {
        let r = if root.last() == '/' {
            root.drop_last()
        } else {
            root
        };
        assert(target =~= r.push('/') + rel);
        split_between(r, rel, '/');
        pieces_behind(split(r, '/'), q);
        if root.last() == '/' {
            assert(root =~= r.push('/'));
            trailing_separator(r);
        }
        assert(is_absolute(target) == is_absolute(root)) by {
            assert(target[0] == root[0]);
            if is_absolute(root) {
                assert(root.subrange(0, 1)[0] == '/');
                assert(target.subrange(0, 1) =~= "/"@);
            }
            if is_absolute(target) {
                assert(target.subrange(0, 1)[0] == '/');
                assert(root.subrange(0, 1) =~= "/"@);
            }
        }
    }
    down_stays_below(target, root);
}

} // verus!
