//! Profiles attached to a template, in the head of its file.

use vstd::prelude::*;
use crate::attach::refs::{ProfileKind, ProfileMode};
use crate::templates::{is_mark, is_mark_line, mark_from, slice_between};
use crate::text::{
    byte_len, byte_slice, bytes_len, cat2, cat3, cat4, lines, lines_bytes, lines_fit, lines_of,
    str_eq,
};
use crate::yaml::{
    is_text, mapping_view, parse_yaml, parsed_yaml, sequence_view, write_yaml, written_yaml,
    yaml_pairs, yaml_text, yaml_view, yaml_views, Yaml, YamlView,
};

verus! {

/// A change of the profiles that a template refers to.
#[derive(Debug, Clone, Copy, PartialEq, Eq, Structural)]
pub enum Change {
    Attach(ProfileMode),
    Detach,
}

/// The values from position `i` on that are not the given text, behind `acc`.
pub open spec fn without_text(s: Seq<YamlView>, i: int, acc: Seq<YamlView>, id: Seq<char>) -> Seq<
    YamlView,
>
    decreases s.len() - i,
{
    if i < 0 || i >= s.len() {
        acc
    } else if yaml_text(s[i]) == Some(id) {
        without_text(s, i + 1, acc, id)
    } else {
        without_text(s, i + 1, acc.push(s[i]), id)
    }
}

/// Whether one of the values is the given text.
pub open spec fn has_text(s: Seq<YamlView>, id: Seq<char>) -> bool {
    exists|i: int| 0 <= i < s.len() && yaml_text(#[trigger] s[i]) == Some(id)
}

/// A list of names after a change.
pub open spec fn changed_list(s: Seq<YamlView>, id: Seq<char>, change: Change) -> Seq<YamlView> {
    match change {
        Change::Detach => without_text(s, 0, Seq::empty(), id),
        Change::Attach(ProfileMode::Merge) => if has_text(s, id) {
            s
        } else {
            s.push(YamlView::Str(id))
        },
        Change::Attach(ProfileMode::Replace) => seq![YamlView::Str(id)],
    }
}

/// The first position from `i` on of the entry under a text, or the length.
pub open spec fn key_from(m: Seq<(YamlView, YamlView)>, i: int, key: Seq<char>) -> int
    decreases m.len() - i,
{
    if i < 0 || i >= m.len() {
        m.len() as int
    } else if m[i].0 == YamlView::Str(key) {
        i
    } else {
        key_from(m, i + 1, key)
    }
}

proof fn key_from_bounds(m: Seq<(YamlView, YamlView)>, i: int, key: Seq<char>)
    requires
        0 <= i <= m.len(),
    ensures
        i <= key_from(m, i, key) <= m.len(),
    decreases m.len() - i,
{
    if i < m.len() && m[i].0 != YamlView::Str(key) {
        key_from_bounds(m, i + 1, key);
    }
}

/// What stands under the last of the keys where nothing does: an empty list; under the
/// others: an empty mapping.
pub open spec fn fresh_value(keys: Seq<Seq<char>>, i: int) -> YamlView {
    if i + 1 < keys.len() {
        YamlView::Mapping(Seq::empty())
    } else {
        YamlView::Sequence(Seq::empty())
    }
}

/// A document in which the list below the keys from position `i` on is changed; missing
/// mappings, and the list, are added. The error is the number of keys after which
/// something of another kind stands in the way. Tags are looked through, and stay.
pub open spec fn edited(
    v: YamlView,
    keys: Seq<Seq<char>>,
    i: int,
    id: Seq<char>,
    change: Change,
) -> Result<YamlView, int>
    decreases keys.len() - i, v,
{
    match v {
        YamlView::Tagged(t, inner) => match edited(*inner, keys, i, id, change) {
            Err(e) => Err(e),
            Ok(x) => Ok(YamlView::Tagged(t, Box::new(x))),
        },
        YamlView::Mapping(m) => if i < 0 || i >= keys.len() {
            Err(i)
        } else {
            let p = key_from(m, 0, keys[i]);
            let old = if p < m.len() {
                m[p].1
            } else {
                fresh_value(keys, i)
            };
            match edited(old, keys, i + 1, id, change) {
                Err(e) => Err(e),
                Ok(x) => if p < m.len() {
                    Ok(YamlView::Mapping(m.update(p, (m[p].0, x))))
                } else {
                    Ok(YamlView::Mapping(m.push((YamlView::Str(keys[i]), x))))
                },
            }
        },
        YamlView::Sequence(s) => if i < keys.len() {
            Err(i)
        } else {
            Ok(YamlView::Sequence(changed_list(s, id, change)))
        },
        _ => Err(i),
    }
}

/// The name of the list of a kind.
pub open spec fn field_name(kind: ProfileKind) -> Seq<char> {
    match kind {
        ProfileKind::Policy => "policy_profiles"@,
        ProfileKind::Guideline => "guideline_profiles"@,
    }
}

/// The keys that lead to the list of a kind.
pub open spec fn field_keys(kind: ProfileKind) -> Seq<Seq<char>> {
    seq!["defaults"@, "profile_refs"@, field_name(kind)]
}

/// The error for something of another kind that stands in the way after `n` keys.
pub open spec fn kind_error(n: int, kind: ProfileKind) -> Seq<char> {
    if n == 0 {
        "template frontmatter root is not a map"@
    } else if n == 1 {
        "template defaults is not a map"@
    } else if n == 2 {
        "template defaults.profile_refs is not a map"@
    } else {
        "template defaults.profile_refs."@ + field_name(kind) + " is not a list"@
    }
}

/// The head of a template file after a change.
pub open spec fn changed_head(
    head: Seq<char>,
    path: Seq<char>,
    kind: ProfileKind,
    id: Seq<char>,
    change: Change,
) -> Result<Seq<char>, Seq<char>> {
    match parsed_yaml(head) {
        Err(e) => Err("invalid template frontmatter "@ + path + ": "@ + e),
        Ok(v) => match edited(v, field_keys(kind), 0, id, change) {
            Err(n) => Err(kind_error(n, kind)),
            Ok(x) => written_yaml(x),
        },
    }
}

/// The head and the body of a file, as bytes of it: the bytes before a line are taken to
/// be those of the lines before it and one for each line end. There is no outcome where
/// they do not lead to the bounds of characters.
pub open spec fn head_and_body(raw: Seq<char>, path: Seq<char>) -> Option<
    Result<(Seq<char>, Seq<char>), Seq<char>>,
> {
    let l = lines(raw);
    if l.len() == 0 {
        Some(Err("template is empty: "@ + path))
    } else if !is_mark(l[0]) {
        Some(Err("template missing YAML frontmatter start marker (---): "@ + path))
    } else {
        let start = bytes_len(l[0]) + 1;
        match byte_slice(raw, start as int, bytes_len(raw) as int) {
            None => None,
            Some(tail) => {
                let below = lines(tail);
                match mark_from(below, 0) {
                    None => Some(Err("template missing YAML frontmatter end marker: "@ + path)),
                    Some(j) => match byte_slice(
                        raw,
                        start as int,
                        start + lines_bytes(below, j) - 1,
                    ) {
                        None => None,
                        Some(head) => {
                            let body_start = start + lines_bytes(below, j + 1);
                            if body_start > bytes_len(raw) {
                                Some(Ok((head, Seq::empty())))
                            } else {
                                match byte_slice(raw, body_start as int, bytes_len(raw) as int) {
                                    None => None,
                                    Some(body) => Some(Ok((head, body))),
                                }
                            }
                        },
                    },
                }
            },
        }
    }
}

/// A template file after a change of the profiles that it refers to.
pub open spec fn changed_file(
    raw: Seq<char>,
    path: Seq<char>,
    kind: ProfileKind,
    id: Seq<char>,
    change: Change,
) -> Option<Result<Seq<char>, Seq<char>>> {
    match head_and_body(raw, path) {
        None => None,
        Some(Err(e)) => Some(Err(e)),
        Some(Ok((head, body))) => match changed_head(head, path, kind, id, change) {
            Err(e) => Some(Err(e)),
            Ok(t) => Some(Ok("---\n"@ + t + "---\n"@ + body)),
        },
    }
}

fn change_list(s: Vec<Yaml>, id: &str, change: Change) -> (r: Vec<Yaml>)
    ensures
        yaml_views(r@) == changed_list(yaml_views(s@), id@, change),
{
    let ghost all = yaml_views(s@);
    let mut list = s;
    match change {
        Change::Detach => {
            let mut out: Vec<Yaml> = Vec::new();
            let n: usize = list.len();
            let mut i: usize = 0;
            assert(yaml_views(out@) =~= Seq::empty());
            assert(all.subrange(0, all.len() as int) =~= all);
            while i < n
                invariant
                    i <= n,
                    n == all.len(),
                    yaml_views(list@) == all.subrange(i as int, n as int),
                    without_text(all, 0, Seq::empty(), id@) == without_text(
                        all,
                        i as int,
                        yaml_views(out@),
                        id@,
                    ),
                decreases n - i,
            {
                assert(yaml_views(list@).len() == list@.len());
                let ghost before = list@;
                let v = list.remove(0);
                proof {
                    assert(yaml_views(before)[0] == all[i as int]);
                    assert(v@ == all[i as int]);
                    assert(yaml_views(list@) =~= all.subrange(i + 1, n as int)) by {
                        assert forall|k: int| 0 <= k < list@.len() implies yaml_view(
                            #[trigger] list@[k],
                        ) == all[i + 1 + k] by {
                            assert(list@[k] == before[k + 1]);
                            assert(yaml_views(before)[k + 1] == all.subrange(
                                i as int,
                                n as int,
                            )[k + 1]);
                        }
                    }
                }
                if !is_text(&v, id) {
                    let ghost kept = out@;
                    out.push(v);
                    assert(yaml_views(out@) =~= yaml_views(kept).push(all[i as int]));
                }
                i = i + 1;
            }
            out
        },
        Change::Attach(ProfileMode::Merge) => {
            let mut i: usize = 0;
            while i < list.len()
                invariant
                    i <= list.len(),
                    yaml_views(list@) == all,
                    all == yaml_views(s@),
                    change == Change::Attach(ProfileMode::Merge),
                    forall|k: int| 0 <= k < i ==> yaml_text(#[trigger] all[k]) != Some(id@),
                decreases list.len() - i,
            {
                assert(all[i as int] == list[i as int]@);
                if is_text(&list[i], id) {
                    assert(yaml_text(all[i as int]) == Some(id@));
                    return list;
                }
                i = i + 1;
            }
            let ghost before = list@;
            list.push(Yaml::Str(id.to_owned()));
            assert(yaml_views(list@) =~= all.push(YamlView::Str(id@)));
            list
        },
        Change::Attach(ProfileMode::Replace) => {
            let out = vec![Yaml::Str(id.to_owned())];
            assert(yaml_views(out@) =~= seq![YamlView::Str(id@)]);
            out
        },
    }
}

fn find_key(m: &Vec<(Yaml, Yaml)>, key: &str) -> (r: usize)
    ensures
        r == key_from(yaml_pairs(m@), 0, key@),
        r <= m@.len(),
{
    let ghost all = yaml_pairs(m@);
    let mut i: usize = 0;
    while i < m.len()
        invariant
            i <= m.len(),
            all == yaml_pairs(m@),
            key_from(all, 0, key@) == key_from(all, i as int, key@),
        decreases m.len() - i,
    {
        assert(all[i as int].0 == m[i as int].0@);
        if let Yaml::Str(s) = &m[i].0 {
            if str_eq(s.as_str(), key) {
                return i;
            }
        }
        i = i + 1;
    }
    i
}

fn edit(v: Yaml, keys: &Vec<String>, i: usize, id: &str, change: Change) -> (r: Result<
    Yaml,
    usize,
>)
    requires
        i <= keys@.len(),
    ensures
        match edited(v@, keys.deep_view(), i as int, id@, change) {
            Ok(x) => r is Ok && r->Ok_0@ == x,
            Err(n) => r is Err && r->Err_0 == n,
        },
    decreases keys@.len() - i, v,
{
    match v {
        Yaml::Tagged(t, inner) => match edit(*inner, keys, i, id, change) {
            Err(e) => Err(e),
            Ok(x) => Ok(Yaml::Tagged(t, Box::new(x))),
        },
        Yaml::Mapping(m) => {
            proof {
                mapping_view(m);
            }
            if i >= keys.len() {
                return Err(i);
            }
            let ghost all = yaml_pairs(m@);
            let key = keys[i].as_str();
            assert(keys.deep_view()[i as int] == key@);
            let p = find_key(&m, key);
            let mut m = m;
            if p < m.len() {
                let (k, old) = m.remove(p);
                assert(all[p as int] == (k@, old@));
                let x = edit(old, keys, i + 1, id, change)?;
                m.insert(p, (k, x));
                proof {
                    assert(yaml_pairs(m@) =~= all.update(p as int, (all[p as int].0, x@)));
                    mapping_view(m);
                }
                Ok(Yaml::Mapping(m))
            } else {
                let fresh = if i + 1 < keys.len() {
                    let none: Vec<(Yaml, Yaml)> = Vec::new();
                    proof {
                        mapping_view(none);
                        assert(yaml_pairs(none@) =~= Seq::empty());
                    }
                    Yaml::Mapping(none)
                } else {
                    let none: Vec<Yaml> = Vec::new();
                    proof {
                        sequence_view(none);
                        assert(yaml_views(none@) =~= Seq::empty());
                    }
                    Yaml::Sequence(none)
                };
                assert(fresh@ == fresh_value(keys.deep_view(), i as int));
                let x = edit(fresh, keys, i + 1, id, change)?;
                m.push((Yaml::Str(key.to_owned()), x));
                proof {
                    assert(yaml_pairs(m@) =~= all.push((YamlView::Str(key@), x@)));
                    mapping_view(m);
                }
                Ok(Yaml::Mapping(m))
            }
        },
        Yaml::Sequence(s) => {
            proof {
                sequence_view(s);
            }
            if i < keys.len() {
                return Err(i);
            }
            let out = change_list(s, id, change);
            proof {
                sequence_view(out);
            }
            Ok(Yaml::Sequence(out))
        },
        _ => Err(i),
    }
}

fn keys_of(kind: ProfileKind) -> (r: Vec<String>)
    ensures
        r.deep_view() == field_keys(kind),
{
    let name = match kind {
        ProfileKind::Policy => "policy_profiles".to_owned(),
        ProfileKind::Guideline => "guideline_profiles".to_owned(),
    };
    let r = vec!["defaults".to_owned(), "profile_refs".to_owned(), name];
    assert(r.deep_view() =~= field_keys(kind));
    r
}

fn kind_message(n: usize, kind: ProfileKind) -> (r: String)
    ensures
        r@ == kind_error(n as int, kind),
{
    if n == 0 {
        "template frontmatter root is not a map".to_owned()
    } else if n == 1 {
        "template defaults is not a map".to_owned()
    } else if n == 2 {
        "template defaults.profile_refs is not a map".to_owned()
    } else {
        let name = match kind {
            ProfileKind::Policy => "policy_profiles",
            ProfileKind::Guideline => "guideline_profiles",
        };
        cat3("template defaults.profile_refs.", name, " is not a list")
    }
}

/// A document in which the list of a kind is changed.
pub fn edit_document(v: Yaml, kind: ProfileKind, id: &str, change: Change) -> (r: Result<
    Yaml,
    String,
>)
    ensures
        match edited(v@, field_keys(kind), 0, id@, change) {
            Ok(x) => r is Ok && r->Ok_0@ == x,
            Err(n) => r is Err && r->Err_0@ == kind_error(n, kind),
        },
{
    let keys = keys_of(kind);
    match edit(v, &keys, 0, id, change) {
        Ok(x) => Ok(x),
        Err(n) => Err(kind_message(n, kind)),
    }
}

fn change_head(head: &str, path: &str, kind: ProfileKind, id: &str, change: Change) -> (r: Result<
    String,
    String,
>)
    ensures
        (match r {
            Ok(t) => Ok(t@),
            Err(e) => Err(e@),
        }) == changed_head(head@, path@, kind, id@, change),
{
    let v = match parse_yaml(head) {
        Err(e) => {
            return Err(cat4("invalid template frontmatter ", path, ": ", e.as_str()));
        },
        Ok(v) => v,
    };
    let x = edit_document(v, kind, id, change)?;
    write_yaml(x)
}

fn first_mark(l: &Vec<String>, start: u128, Ghost(tail): Ghost<Seq<char>>) -> (r: Option<
    (u128, u128),
>)
    requires
        l.deep_view() == lines(tail),
        bytes_len(tail) <= usize::MAX,
        start <= usize::MAX as u128 + 1,
    ensures
        match mark_from(lines(tail), 0) {
            None => r is None,
            Some(j) => {
                &&& r matches Some((a, b))
                &&& a == start + lines_bytes(lines(tail), j)
                &&& b == start + lines_bytes(lines(tail), j + 1)
                &&& 0 <= j < lines(tail).len()
            },
        },
{
    let ghost all = lines(tail);
    let mut offset: u128 = start;
    let mut j: usize = 0;
    while j < l.len()
        invariant
            j <= l@.len(),
            all == lines(tail),
            all == l.deep_view(),
            bytes_len(tail) <= usize::MAX,
            start <= usize::MAX as u128 + 1,
            offset == start + lines_bytes(all, j as int),
            offset <= start + usize::MAX as u128 + 1,
            mark_from(all, 0) == mark_from(all, j as int),
        decreases l.len() - j,
    {
        assert(all[j as int] == l[j as int]@);
        let next: u128 = offset + byte_len(l[j].as_str()) as u128 + 1;
        proof {
            lines_fit(tail, j + 1);
        }
        if is_mark_line(l[j].as_str()) {
            return Some((offset, next));
        }
        offset = next;
        j = j + 1;
    }
    None
}

/// The head and the body of a template file, unless their bounds fall outside the text or
/// inside a character of it.
pub fn split_head(raw: &str, path: &str) -> (r: Option<Result<(String, String), String>>)
    ensures
        (match r {
            None => None,
            Some(Ok((h, b))) => Some(Ok((h@, b@))),
            Some(Err(e)) => Some(Err(e@)),
        }) == head_and_body(raw@, path@),
{
    let l = lines_of(raw);
    let n: u128 = byte_len(raw) as u128;
    if l.len() == 0 {
        assert(l.deep_view().len() == 0);
        return Some(Err(cat2("template is empty: ", path)));
    }
    assert(lines(raw@)[0] == l[0]@);
    if !is_mark_line(l[0].as_str()) {
        return Some(
            Err(cat2("template missing YAML frontmatter start marker (---): ", path)),
        );
    }
    let start: u128 = byte_len(l[0].as_str()) as u128 + 1;
    let tail = match slice_between(raw, start, n) {
        None => {
            return None;
        },
        Some(t) => t,
    };
    let below = lines_of(tail.as_str());
    let tail_len: usize = byte_len(tail.as_str());
    assert(bytes_len(tail@) == tail_len);
    match first_mark(&below, start, Ghost(tail@)) {
        None => Some(Err(cat2("template missing YAML frontmatter end marker: ", path))),
        Some((end, body_start)) => {
            let head = match slice_between(raw, start, end - 1) {
                None => {
                    return None;
                },
                Some(h) => h,
            };
            if body_start > n {
                let none = String::new();
                assert(none@ =~= Seq::empty());
                return Some(Ok((head, none)));
            }
            match slice_between(raw, body_start, n) {
                None => None,
                Some(body) => Some(Ok((head, body))),
            }
        },
    }
}

fn change_file(raw: &str, path: &str, kind: ProfileKind, id: &str, change: Change) -> (r: Option<
    Result<String, String>,
>)
    ensures
        (match r {
            None => None,
            Some(Ok(t)) => Some(Ok(t@)),
            Some(Err(e)) => Some(Err(e@)),
        }) == changed_file(raw@, path@, kind, id@, change),
{
    let (head, body) = match split_head(raw, path) {
        None => {
            return None;
        },
        Some(Err(e)) => {
            return Some(Err(e));
        },
        Some(Ok(x)) => x,
    };
    match change_head(head.as_str(), path, kind, id, change) {
        Err(e) => Some(Err(e)),
        Ok(t) => Some(Ok(cat4("---\n", t.as_str(), "---\n", body.as_str()))),
    }
}

/// A template file after a change of the profiles that it refers to.
pub fn mutate_template_frontmatter_profile_refs(
    raw: &str,
    path: &str,
    kind: ProfileKind,
    profile_id: &str,
    mode: ProfileMode,
    detach: bool,
) -> (r: Result<String, String>)
    requires
        head_and_body(raw@, path@) is Some,
    ensures
        (match r {
            Ok(t) => Some(Ok(t@)),
            Err(e) => Some(Err(e@)),
        }) == changed_file(
            raw@,
            path@,
            kind,
            profile_id@,
            if detach {
                Change::Detach
            } else {
                Change::Attach(mode)
            },
        ),
{
    let change = if detach {
        Change::Detach
    } else {
        Change::Attach(mode)
    };
    match change_file(raw, path, kind, profile_id, change) {
        Some(r) => r,
        None => Err(String::new()),
    }
}

} // verus!
