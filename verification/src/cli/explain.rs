//! The policy decisions that the audit log holds.

use vstd::prelude::*;
use crate::json::{field, parse, parsed, text_of, Json, JsonView};
use crate::paths::{join_path3, joined3};
use crate::text::{lines, lines_of, str_eq};

verus! {

/// The files of the audit log, the latest first.
pub fn audit_files(codex_home: &str) -> (r: Vec<String>)
    ensures
        ({
            let root = |name: Seq<char>| joined3(codex_home@, "printrevolt"@, "audit"@, name);
            r.deep_view() == seq![
                root("events.jsonl"@),
                root("events.jsonl.1"@),
                root("events.jsonl.2"@),
                root("events.jsonl.3"@),
            ]
        }),
{
    let mut out: Vec<String> = Vec::new();
    out.push(join_path3(codex_home, "printrevolt", "audit", "events.jsonl"));
    out.push(join_path3(codex_home, "printrevolt", "audit", "events.jsonl.1"));
    out.push(join_path3(codex_home, "printrevolt", "audit", "events.jsonl.2"));
    out.push(join_path3(codex_home, "printrevolt", "audit", "events.jsonl.3"));
    proof {
        let root = |name: Seq<char>| joined3(codex_home@, "printrevolt"@, "audit"@, name);
        assert(out.deep_view() =~= seq![
            root("events.jsonl"@),
            root("events.jsonl.1"@),
            root("events.jsonl.2"@),
            root("events.jsonl.3"@),
        ]);
    }
    out
}

/// The text under a key.
pub open spec fn text_under(v: JsonView, key: Seq<char>) -> Option<Seq<char>> {
    match field(v, key) {
        None => None,
        Some(f) => text_of(f),
    }
}

/// The decision that an entry is about.
pub open spec fn decision_of(v: JsonView) -> Option<JsonView> {
    match field(v, "payload"@) {
        None => None,
        Some(p) => field(p, "decision"@),
    }
}

/// A text of the decision that an entry is about.
pub open spec fn said(v: JsonView, key: Seq<char>) -> Option<Seq<char>> {
    match decision_of(v) {
        None => None,
        Some(d) => text_under(d, key),
    }
}

fn said_text<'a>(v: &'a Json, key: &str) -> (r: Option<&'a str>)
    ensures
        (match r {
            None => None,
            Some(t) => Some(t@),
        }) == said(v@, key@),
{
    match v.get("payload") {
        None => None,
        Some(p) => match p.get("decision") {
            None => None,
            Some(d) => match d.get(key) {
                None => None,
                Some(f) => f.as_str(),
            },
        },
    }
}

/// What a search of the log has come to: what was looked for, or the best so far.
pub struct Search {
    pub found: Option<Json>,
    pub allowed: Option<Json>,
}

/// What a [`Search`] stands for.
#[verifier::ext_equal]
pub struct SearchView {
    pub found: Option<JsonView>,
    pub allowed: Option<JsonView>,
}

impl View for Search {
    type V = SearchView;

    open spec fn view(&self) -> SearchView {
        SearchView { found: self.found.deep_view(), allowed: self.allowed.deep_view() }
    }
}

/// Whether an entry is about a policy decision.
pub open spec fn is_decision(v: JsonView) -> bool {
    text_under(v, "kind"@) == Some("policy_decision"@)
}

/// Whether an entry is about a decision that lets a call through.
pub open spec fn is_allowing(v: JsonView) -> bool {
    said(v, "kind"@) == Some("allow"@)
}

/// The search after one more entry.
pub open spec fn considered(s: SearchView, v: JsonView, prefer_non_allow: bool) -> SearchView {
    if s.found is Some || !is_decision(v) {
        s
    } else if !prefer_non_allow || !is_allowing(v) {
        SearchView { found: Some(v), ..s }
    } else if s.allowed is None {
        SearchView { allowed: Some(v), ..s }
    } else {
        s
    }
}

/// Takes one more entry into a search.
pub fn consider(search: &mut Search, entry: Json, prefer_non_allow: bool)
    ensures
        final(search)@ == considered(old(search)@, entry@, prefer_non_allow),
{
    if search.found.is_some() {
        return ;
    }
    let about = match entry.get("kind") {
        None => false,
        Some(k) => match k.as_str() {
            None => false,
            Some(t) => str_eq(t, "policy_decision"),
        },
    };
    if !about {
        return ;
    }
    let allowing = match said_text(&entry, "kind") {
        None => false,
        Some(t) => str_eq(t, "allow"),
    };
    if !prefer_non_allow || !allowing {
        search.found = Some(entry);
    } else if search.allowed.is_none() {
        search.allowed = Some(entry);
    }
}

/// The search after one more line; a line that is no document says nothing.
pub open spec fn line_considered(s: SearchView, line: Seq<char>, prefer_non_allow: bool) -> SearchView {
    match parsed(line) {
        Err(_) => s,
        Ok(v) => considered(s, v, prefer_non_allow),
    }
}

/// The search after the last lines of those before position `n`, at most `most` of them,
/// the last first.
pub open spec fn lines_considered(
    s: SearchView,
    l: Seq<Seq<char>>,
    n: int,
    most: nat,
    prefer_non_allow: bool,
) -> SearchView
    decreases n,
{
    if n <= 0 || n > l.len() || most == 0 {
        s
    } else {
        lines_considered(
            line_considered(s, l[n - 1], prefer_non_allow),
            l,
            n - 1,
            (most - 1) as nat,
            prefer_non_allow,
        )
    }
}

/// The search after the texts from position `i` on.
pub open spec fn texts_considered(
    s: SearchView,
    texts: Seq<Seq<char>>,
    i: int,
    prefer_non_allow: bool,
) -> SearchView
    decreases texts.len() - i,
{
    if i < 0 || i >= texts.len() {
        s
    } else {
        let l = lines(texts[i]);
        texts_considered(
            lines_considered(s, l, l.len() as int, 500, prefer_non_allow),
            texts,
            i + 1,
            prefer_non_allow,
        )
    }
}

/// The last policy decision among texts of the log, the latest text first. Where one
/// that stops a call is preferred, one that lets it through counts only where there is
/// no other.
pub open spec fn latest_decision(texts: Seq<Seq<char>>, prefer_non_allow: bool) -> Option<JsonView> {
    let none = SearchView { found: None, allowed: None };
    let s = texts_considered(none, texts, 0, prefer_non_allow);
    match s.found {
        Some(v) => Some(v),
        None => s.allowed,
    }
}

fn consider_lines(search: &mut Search, l: &Vec<String>, prefer_non_allow: bool)
    ensures
        final(search)@ == lines_considered(
            old(search)@,
            l.deep_view(),
            l@.len() as int,
            500,
            prefer_non_allow,
        ),
{
    let ghost all = l.deep_view();
    let ghost start = search@;
    let mut n: usize = l.len();
    let mut most: u32 = 500;
    assert(all.len() == l@.len());
    while n > 0 && most > 0
        invariant
            n <= l@.len(),
            all == l.deep_view(),
            all.len() == l@.len(),
            lines_considered(start, all, l@.len() as int, 500, prefer_non_allow)
                == lines_considered(search@, all, n as int, most as nat, prefer_non_allow),
        decreases n,
    {
        assert(all[n - 1] == l@[n - 1]@);
        if let Ok(v) = parse(l[n - 1].as_str()) {
            consider(search, v, prefer_non_allow);
        }
        n = n - 1;
        most = most - 1;
    }
}

/// Finds the last policy decision in texts of the log.
pub fn find_latest_policy_decision(texts: &Vec<String>, prefer_non_allow: bool) -> (r: Option<Json>)
    ensures
        r.deep_view() == latest_decision(texts.deep_view(), prefer_non_allow),
{
    let ghost all = texts.deep_view();
    let ghost none = SearchView { found: None, allowed: None };
    let mut search = Search { found: None, allowed: None };
    let mut i: usize = 0;
    while i < texts.len()
        invariant
            i <= texts@.len(),
            all == texts.deep_view(),
            texts_considered(none, all, 0, prefer_non_allow) == texts_considered(
                search@,
                all,
                i as int,
                prefer_non_allow,
            ),
        decreases texts.len() - i,
    {
        assert(all[i as int] == texts@[i as int]@);
        let l = lines_of(texts[i].as_str());
        assert(l.deep_view().len() == l@.len());
        consider_lines(&mut search, &l, prefer_non_allow);
        i = i + 1;
    }
    match search.found {
        Some(v) => Some(v),
        None => search.allowed,
    }
}

/// A decision in words.
pub struct Explanation {
    pub kind: String,
    pub reason_code: String,
    pub message: String,
}

pub open spec fn or_else(o: Option<Seq<char>>, other: Seq<char>) -> Seq<char> {
    match o {
        Some(s) => s,
        None => other,
    }
}

/// What an entry says of its decision.
pub fn explain_decision(entry: &Json) -> (r: Explanation)
    ensures
        r.kind@ == or_else(said(entry@, "kind"@), "unknown"@),
        r.reason_code@ == or_else(said(entry@, "reason_code"@), "<none>"@),
        r.message@ == or_else(said(entry@, "message"@), ""@),
{
    let kind = match said_text(entry, "kind") {
        Some(t) => t,
        None => "unknown",
    };
    let reason_code = match said_text(entry, "reason_code") {
        Some(t) => t,
        None => "<none>",
    };
    let message = match said_text(entry, "message") {
        Some(t) => t,
        None => "",
    };
    Explanation {
        kind: kind.to_owned(),
        reason_code: reason_code.to_owned(),
        message: message.to_owned(),
    }
}

/// What was found is kept.
pub proof fn found_is_kept(
    s: SearchView,
    l: Seq<Seq<char>>,
    n: int,
    most: nat,
    prefer_non_allow: bool,
)
    requires
        s.found is Some,
    ensures
        lines_considered(s, l, n, most, prefer_non_allow) == s,
    decreases n,
{
    if n > 0 && n <= l.len() && most > 0 {
        found_is_kept(
            line_considered(s, l[n - 1], prefer_non_allow),
            l,
            n - 1,
            (most - 1) as nat,
            prefer_non_allow,
        );
    }
}

proof fn lines_find_decisions(
    s: SearchView,
    l: Seq<Seq<char>>,
    n: int,
    most: nat,
    prefer_non_allow: bool,
)
    requires
        s.found matches Some(v) ==> is_decision(v) && (prefer_non_allow ==> !is_allowing(v)),
        s.allowed matches Some(v) ==> is_decision(v) && is_allowing(v) && prefer_non_allow,
    ensures
        ({
            let t = lines_considered(s, l, n, most, prefer_non_allow);
            &&& t.found matches Some(v) ==> is_decision(v) && (prefer_non_allow ==> !is_allowing(v))
            &&& t.allowed matches Some(v) ==> is_decision(v) && is_allowing(v) && prefer_non_allow
        }),
    decreases n,
{
    if n > 0 && n <= l.len() && most > 0 {
        lines_find_decisions(
            line_considered(s, l[n - 1], prefer_non_allow),
            l,
            n - 1,
            (most - 1) as nat,
            prefer_non_allow,
        );
    }
}

proof fn texts_find_decisions(s: SearchView, texts: Seq<Seq<char>>, i: int, prefer_non_allow: bool)
    requires
        s.found matches Some(v) ==> is_decision(v) && (prefer_non_allow ==> !is_allowing(v)),
        s.allowed matches Some(v) ==> is_decision(v) && is_allowing(v) && prefer_non_allow,
    ensures
        ({
            let t = texts_considered(s, texts, i, prefer_non_allow);
            &&& t.found matches Some(v) ==> is_decision(v) && (prefer_non_allow ==> !is_allowing(v))
            &&& t.allowed matches Some(v) ==> is_decision(v) && is_allowing(v) && prefer_non_allow
        }),
    decreases texts.len() - i,
{
    if 0 <= i < texts.len() {
        let l = lines(texts[i]);
        lines_find_decisions(s, l, l.len() as int, 500, prefer_non_allow);
        texts_find_decisions(
            lines_considered(s, l, l.len() as int, 500, prefer_non_allow),
            texts,
            i + 1,
            prefer_non_allow,
        );
    }
}

/// What is found in the log is a policy decision, and the last line of the latest text
/// is what is found where it is one that stops a call.
pub proof fn last_stop_is_explained(texts: Seq<Seq<char>>, prefer_non_allow: bool)
    ensures
        latest_decision(texts, prefer_non_allow) matches Some(v) ==> is_decision(v),
        texts.len() > 0 && lines(texts[0]).len() > 0 ==> (parsed(lines(texts[0]).last()) matches Ok(v)
            ==> is_decision(v) && !is_allowing(v) ==> latest_decision(texts, prefer_non_allow)
            == Some(v)),
{
    let none = SearchView { found: None, allowed: None };
    texts_find_decisions(none, texts, 0, prefer_non_allow);
    if texts.len() > 0 && lines(texts[0]).len() > 0 {
        let l = lines(texts[0]);
        let n = l.len() as int;
        if let Ok(v) = parsed(l.last()) {
            if is_decision(v) && !is_allowing(v) {
                let s = SearchView { found: Some(v), allowed: None };
                assert(line_considered(none, l[n - 1], prefer_non_allow) == s);
                found_is_kept(s, l, n - 1, 499, prefer_non_allow);
                assert(lines_considered(none, l, n, 500, prefer_non_allow) == s);
                texts_keep_found(s, texts, 1, prefer_non_allow);
            }
        }
    }
}

/// What was found is kept.
pub proof fn texts_keep_found(s: SearchView, texts: Seq<Seq<char>>, i: int, prefer_non_allow: bool)
    requires
        s.found is Some,
    ensures
        texts_considered(s, texts, i, prefer_non_allow) == s,
    decreases texts.len() - i,
{
    if 0 <= i < texts.len() {
        let l = lines(texts[i]);
        found_is_kept(s, l, l.len() as int, 500, prefer_non_allow);
        texts_keep_found(s, texts, i + 1, prefer_non_allow);
    }
}

} // verus!
