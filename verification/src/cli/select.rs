//! Templates as commands see and name them.

use vstd::prelude::*;
use crate::cli::scope::{no_root_message, no_root_text, LayerScope, Scope};
use crate::templates::{
    Template, TemplateDiscoveryResult, TemplateDiscoveryResultView, TemplateSource, TemplateView,
};
use crate::text::{
    cat2, chars_of, eq_ignore_ascii_case, outcome, same_ignoring_case, split, split_on, str_eq,
    string_of, Duplicate,
};

verus! {

/// Where the templates of a scope are looked for.
#[derive(Debug, Clone, Copy, PartialEq, Eq, Structural)]
pub struct TemplateSearch {
    /// In the repository too.
    pub repo: bool,
    /// Only those of the repository count.
    pub repo_only: bool,
}

/// Where the templates of a scope are looked for; nowhere where a project is asked for
/// and there is none.
pub open spec fn search_of(root: Option<Seq<char>>, scope: Scope) -> Option<TemplateSearch> {
    match scope {
        Scope::Global => Some(TemplateSearch { repo: false, repo_only: false }),
        Scope::Project => if root is None {
            None
        } else {
            Some(TemplateSearch { repo: true, repo_only: true })
        },
        Scope::Both => Some(TemplateSearch { repo: root is Some, repo_only: false }),
    }
}

pub fn template_search(project_root: &Option<String>, scope: Scope) -> (r: Option<TemplateSearch>)
    ensures
        r == search_of(project_root.deep_view(), scope),
{
    match scope {
        Scope::Global => Some(TemplateSearch { repo: false, repo_only: false }),
        Scope::Project => {
            if project_root.is_none() {
                None
            } else {
                Some(TemplateSearch { repo: true, repo_only: true })
            }
        },
        Scope::Both => Some(TemplateSearch { repo: project_root.is_some(), repo_only: false }),
    }
}

/// The templates of the repository.
pub open spec fn repo_templates(s: Seq<TemplateView>) -> Seq<TemplateView> {
    s.filter(|t: TemplateView| t.source == TemplateSource::Repo)
}

/// What a search that found `found` comes to.
pub open spec fn searched(search: Option<TemplateSearch>, found: TemplateDiscoveryResultView) -> TemplateDiscoveryResultView {
    match search {
        None => TemplateDiscoveryResultView {
            templates: Seq::empty(),
            warnings: seq![no_root_text()],
        },
        Some(s) => if s.repo_only {
            TemplateDiscoveryResultView { templates: repo_templates(found.templates), ..found }
        } else {
            found
        },
    }
}

fn keep_repo(found: &Vec<Template>) -> (r: Vec<Template>)
    ensures
        r.deep_view() == repo_templates(found.deep_view()),
{
    let ghost s = found.deep_view();
    let ghost keep = |t: TemplateView| t.source == TemplateSource::Repo;
    let mut out: Vec<Template> = Vec::new();
    let mut i: usize = 0;
    proof {
        reveal(Seq::filter);
        assert(s.subrange(0, 0) =~= Seq::empty());
        assert(out.deep_view() =~= Seq::empty());
    }
    while i < found.len()
        invariant
            i <= found@.len(),
            s == found.deep_view(),
            keep == (|t: TemplateView| t.source == TemplateSource::Repo),
            out.deep_view() == s.subrange(0, i as int).filter(keep),
        decreases found.len() - i,
    {
        let ghost before = out.deep_view();
        proof {
            reveal(Seq::filter);
            assert(s.subrange(0, i + 1).drop_last() =~= s.subrange(0, i as int));
            assert(s.subrange(0, i + 1).last() == s[i as int]);
            assert(s[i as int] == found@[i as int]@);
        }
        if found[i].source == TemplateSource::Repo {
            out.push(found[i].dup());
            assert(out.deep_view() =~= before.push(s[i as int]));
        }
        i = i + 1;
    }
    assert(s.subrange(0, i as int) =~= s);
    out
}

/// The templates of a scope, out of those that its search found.
pub fn templates_for_scope(
    search: Option<TemplateSearch>,
    found: TemplateDiscoveryResult,
) -> (r: TemplateDiscoveryResult)
    ensures
        r@ == searched(search, found@),
{
    match search {
        None => {
            let mut warnings: Vec<String> = Vec::new();
            warnings.push(no_root_message());
            let r = TemplateDiscoveryResult { templates: Vec::new(), warnings };
            assert(r@.templates =~= Seq::empty());
            assert(r@.warnings =~= seq![no_root_text()]);
            r
        },
        Some(s) => {
            if s.repo_only {
                let templates = keep_repo(&found.templates);
                TemplateDiscoveryResult { templates, warnings: found.warnings }
            } else {
                found
            }
        },
    }
}

/// A text without the `.md` at its end, however often it stands there.
pub open spec fn without_md(s: Seq<char>) -> Seq<char>
    decreases s.len(),
{
    let n = s.len();
    if n >= 3 && s[n - 3] == '.' && s[n - 2] == 'm' && s[n - 1] == 'd' {
        without_md(s.subrange(0, n - 3))
    } else {
        s
    }
}

fn strip_md(s: &str) -> (r: String)
    ensures
        r@ == without_md(s@),
{
    let mut v = chars_of(s);
    while v.len() >= 3 && v[v.len() - 3] == '.' && v[v.len() - 2] == 'm' && v[v.len() - 1] == 'd'
        invariant
            without_md(v@) == without_md(s@),
        decreases v.len(),
    {
        let ghost before = v@;
        v.pop();
        v.pop();
        v.pop();
        assert(v@ =~= before.subrange(0, before.len() - 3));
    }
    string_of(&v)
}

/// Whether a template can be meant by a text that is not its name: by the end of its
/// id, or by its title.
pub open spec fn meant_by(t: TemplateView, text: Seq<char>) -> bool {
    without_md(split(t.id, ':').last()) == text || same_ignoring_case(t.name, text)
}

/// The first template from position `i` on that has an id.
pub open spec fn with_id(s: Seq<TemplateView>, i: int, id: Seq<char>) -> Option<TemplateView>
    decreases s.len() - i,
{
    if i < 0 || i >= s.len() {
        None
    } else if s[i].id == id {
        Some(s[i])
    } else {
        with_id(s, i + 1, id)
    }
}

/// The first template from position `i` on that can be meant by a text.
pub open spec fn with_meaning(s: Seq<TemplateView>, i: int, text: Seq<char>) -> Option<TemplateView>
    decreases s.len() - i,
{
    if i < 0 || i >= s.len() {
        None
    } else if meant_by(s[i], text) {
        Some(s[i])
    } else {
        with_meaning(s, i + 1, text)
    }
}

/// The template that a text names.
pub open spec fn template_named(s: Seq<TemplateView>, text: Seq<char>) -> Option<TemplateView> {
    match with_id(s, 0, text) {
        Some(t) => Some(t),
        None => with_meaning(s, 0, text),
    }
}

fn is_meant(t: &Template, text: &str) -> (r: bool)
    ensures
        r == meant_by(t@, text@),
{
    let pieces = split_on(t.id.as_str(), ':');
    let ghost parts = split(t@.id, ':');
    assert(pieces.deep_view() == parts);
    assert(pieces.deep_view().len() == pieces@.len());
    proof {
        split_is_not_empty(t@.id, 0);
    }
    let last = pieces[pieces.len() - 1].clone();
    assert(parts.last() == last@);
    let tail = strip_md(last.as_str());
    str_eq(tail.as_str(), text) || eq_ignore_ascii_case(t.name.as_str(), text)
}

proof fn split_is_not_empty(s: Seq<char>, i: int)
    ensures
        crate::text::split_from(s, i, ':').len() > 0,
    decreases s.len() - i,
{
    reveal_with_fuel(crate::text::split_from, 1);
}

pub fn find_template_by_id<'a>(templates: &'a Vec<Template>, template_id: &str) -> (r: Option<
    &'a Template,
>)
    ensures
        (match r {
            None => None,
            Some(t) => Some(t@),
        }) == template_named(templates.deep_view(), template_id@),
{
    let ghost s = templates.deep_view();
    let mut i: usize = 0;
    while i < templates.len()
        invariant
            i <= templates@.len(),
            s == templates.deep_view(),
            with_id(s, 0, template_id@) == with_id(s, i as int, template_id@),
        decreases templates.len() - i,
    {
        let t = &templates[i];
        assert(s[i as int] == t@);
        if str_eq(t.id.as_str(), template_id) {
            return Some(t);
        }
        i = i + 1;
    }
    let mut j: usize = 0;
    while j < templates.len()
        invariant
            j <= templates@.len(),
            s == templates.deep_view(),
            with_meaning(s, 0, template_id@) == with_meaning(s, j as int, template_id@),
            with_id(s, 0, template_id@) is None,
        decreases templates.len() - j,
    {
        let t = &templates[j];
        assert(s[j as int] == t@);
        if is_meant(t, template_id) {
            return Some(t);
        }
        j = j + 1;
    }
    None
}

/// The file of the template that a text names.
pub open spec fn target_of(s: Seq<TemplateView>, text: Seq<char>) -> Result<Seq<char>, Seq<char>> {
    match template_named(s, text) {
        None => Err("template not found for subject: "@ + text),
        Some(t) => match t.path {
            None => Err("template does not have a writable path: "@ + text),
            Some(p) => Ok(p),
        },
    }
}

/// The file of the template that profiles are attached to.
pub fn resolve_template_attachment_target(templates: &Vec<Template>, template_id: &str) -> (r:
    Result<String, String>)
    ensures
        outcome(r) == target_of(templates.deep_view(), template_id@),
{
    match find_template_by_id(templates, template_id) {
        None => Err(cat2("template not found for subject: ", template_id)),
        Some(t) => match &t.path {
            None => Err(cat2("template does not have a writable path: ", template_id)),
            Some(p) => Ok(p.clone()),
        },
    }
}

/// The scope in which the templates of a layer are looked for.
pub fn layer_search(scope: LayerScope) -> (r: Scope)
    ensures
        r == (match scope {
            LayerScope::Global => Scope::Global,
            LayerScope::Project => Scope::Project,
        }),
{
    match scope {
        LayerScope::Global => Scope::Global,
        LayerScope::Project => Scope::Project,
    }
}

proof fn with_id_found(s: Seq<TemplateView>, i: int, k: int, id: Seq<char>)
    requires
        0 <= i <= k < s.len(),
        s[k].id == id,
    ensures
        with_id(s, i, id) matches Some(t) && t.id == id,
    decreases k - i,
{
    if s[i].id != id {
        with_id_found(s, i + 1, k, id);
    }
}

/// A template is found under its own id, whatever else that could mean.
pub proof fn exact_id_prevails(s: Seq<TemplateView>, k: int)
    requires
        0 <= k < s.len(),
    ensures
        template_named(s, s[k].id) matches Some(t) && t.id == s[k].id,
{
    with_id_found(s, 0, k, s[k].id);
}

} // verus!
