//! What holds of every template that is read.

use vstd::prelude::*;
use vstd::utf8::{
    encode_utf8, encode_utf8_decode_utf8, encode_utf8_first_scalar, encode_utf8_valid_utf8,
    is_ascii_chars, is_ascii_chars_encode_utf8, is_char_boundary, pop_first_scalar,
};
use crate::attach::frontmatter::{changed_file, changed_head, head_and_body, Change};
use crate::attach::refs::ProfileKind;
use crate::strmap::{lookup, lookup_put, put_sorted, sorted};
use crate::templates::{
    closed_section, contract_of, file_parts, heading_key, is_mark, mark_from, read_line, ref_of, read_lines, sections_of, sized_parts,
    template_from, tightened, FrontmatterView, PolicyDefaultsView, Reading,
    TemplateContractView, TemplateErrorView, TemplateSource, TemplateView,
};
use crate::text::{
    byte_slice, bytes_len, bytes_len_add, has_prefix, is_blank, lines, lines_bytes,
    lines_bytes_shift, lines_from, lowercased, next_char, next_char_behind, next_char_bounds,
    next_char_in, rest, split, split_from, trim, without_cr,
};
use crate::types::config::PolicyConfigView;

verus! {

/// What a template asks of the policy takes effect where it makes the policy stricter; all else
/// stays.
pub proof fn template_policy_takes_effect(base: PolicyConfigView, d: PolicyDefaultsView)
    ensures
        ({
            let r = tightened(base, d);
            &&& d.deny_dangerous_always == Some(true) ==> r.deny_dangerous_always
            &&& d.deny_dangerous_always != Some(true) ==> r.deny_dangerous_always
                == base.deny_dangerous_always
            &&& d.verify_required == Some(true) ==> r.verify.required
            &&& d.verify_required != Some(true) ==> r.verify.required == base.verify.required
            &&& d.verify_max_age_ms is Some ==> r.verify.max_age_ms <= d.verify_max_age_ms->0
            &&& r.verify.max_age_ms <= base.verify.max_age_ms
            &&& r.verify.max_age_ms == base.verify.max_age_ms || d.verify_max_age_ms == Some(
                r.verify.max_age_ms,
            )
            &&& r.enabled == base.enabled
            &&& r.verify.command_prefixes == base.verify.command_prefixes
        }),
{
}

/// Whether a line opens a section with one of two names.
pub open spec fn opens(line: Seq<char>, name: Seq<char>, other: Seq<char>) -> bool {
    &&& has_prefix(line, "## "@)
    &&& lowercased(trim(rest(line, "## "@.len() as int))) == name || lowercased(
        trim(rest(line, "## "@.len() as int)),
    ) == other
}

/// The lines from one position up to another, each with its end.
pub open spec fn text_between(l: Seq<Seq<char>>, a: int, b: int) -> Seq<char>
    decreases b - a,
{
    if b <= a {
        Seq::empty()
    } else {
        text_between(l, a, b - 1) + l[b - 1] + "\n"@
    }
}

proof fn reading_reaches(l: Seq<Seq<char>>, a: int, b: int, r: Reading) -> (t: Reading)
    requires
        0 <= a <= b <= l.len(),
        sorted(r.sections),
    ensures
        read_lines(l, a, r) == read_lines(l, b, t),
        sorted(t.sections),
    decreases b - a,
{
    if a < b {
        if r.current is Some {
            put_sorted(r.sections, r.current->0, trim(r.text));
        }
        reading_reaches(l, a + 1, b, read_line(r, l[a]))
    } else {
        r
    }
}

proof fn section_grows(l: Seq<Seq<char>>, a: int, b: int, c: int, r: Reading)
    requires
        0 <= a <= b <= c <= l.len(),
        r.current is Some,
        r.text == text_between(l, a, b),
        forall|k: int| b <= k < c ==> !has_prefix(#[trigger] l[k], "## "@),
    ensures
        read_lines(l, b, r) == read_lines(l, c, Reading { text: text_between(l, a, c), ..r }),
    decreases c - b,
{
    if b < c {
        let t = read_line(r, l[b]);
        assert(t.text == text_between(l, a, b + 1));
        section_grows(l, a, b + 1, c, t);
        assert((Reading { text: text_between(l, a, c), ..t }) == (Reading {
            text: text_between(l, a, c),
            ..r
        }));
    } else {
        assert((Reading { text: text_between(l, a, c), ..r }) == r);
    }
}

proof fn section_stays(l: Seq<Seq<char>>, a: int, r: Reading, key: Seq<char>)
    requires
        0 <= a <= l.len(),
        sorted(r.sections),
        r.current != Some(key),
        forall|k: int|
            a <= k < l.len() && has_prefix(#[trigger] l[k], "## "@) ==> heading_key(
                rest(l[k], "## "@.len() as int),
            ) != Some(key),
    ensures
        lookup(closed_section(read_lines(l, a, r)), key) == lookup(r.sections, key),
    decreases l.len() - a,
{
    if r.current is Some {
        put_sorted(r.sections, r.current->0, trim(r.text));
        lookup_put(r.sections, r.current->0, trim(r.text), key);
    }
    if a < l.len() {
        section_stays(l, a + 1, read_line(r, l[a]), key);
    }
}

proof fn section_is_read(body: Seq<char>, i: int, j: int, key: Seq<char>)
    requires
        ({
            let l = lines(body);
            &&& 0 <= i < j <= l.len()
            &&& has_prefix(l[i], "## "@)
            &&& heading_key(rest(l[i], "## "@.len() as int)) == Some(key)
            &&& forall|k: int| i < k < j ==> !has_prefix(#[trigger] l[k], "## "@)
            &&& j < l.len() ==> has_prefix(l[j], "## "@)
            &&& forall|k: int|
                j <= k < l.len() && has_prefix(#[trigger] l[k], "## "@) ==> heading_key(
                    rest(l[k], "## "@.len() as int),
                ) != Some(key)
        }),
    ensures
        lookup(sections_of(body), key) == Some(trim(text_between(lines(body), i + 1, j))),
{
    let l = lines(body);
    let start = Reading { sections: Seq::empty(), current: None, text: Seq::empty() };
    let r = reading_reaches(l, 0, i, start);
    if r.current is Some {
        put_sorted(r.sections, r.current->0, trim(r.text));
    }
    let opened = read_line(r, l[i]);
    assert(opened.text =~= text_between(l, i + 1, i + 1));
    section_grows(l, i + 1, i + 1, j, opened);
    let full = Reading { text: text_between(l, i + 1, j), ..opened };
    put_sorted(full.sections, key, trim(full.text));
    lookup_put(full.sections, key, trim(full.text), key);
    if j < l.len() {
        section_stays(l, j + 1, read_line(full, l[j]), key);
    }
}

proof fn section_is_missing(body: Seq<char>, key: Seq<char>)
    requires
        forall|k: int|
            0 <= k < lines(body).len() && has_prefix(#[trigger] lines(body)[k], "## "@)
                ==> heading_key(rest(lines(body)[k], "## "@.len() as int)) != Some(key),
    ensures
        lookup(sections_of(body), key) is None,
{
    let none: Seq<(Seq<char>, Seq<char>)> = Seq::empty();
    crate::strmap::lookup_some(none, key);
    section_stays(
        lines(body),
        0,
        Reading { sections: none, current: None, text: Seq::empty() },
        key,
    );
}

/// The sections of a template.
pub enum Section {
    RoleObjective,
    Procedure,
    Outputs,
    PolicyDefaults,
    ToolingScope,
}

/// The names under which the sections of a template are found.
pub open spec fn is_section(name: Seq<char>, other: Seq<char>, n: Section) -> bool {
    match n {
        Section::RoleObjective => name == "role + objective"@ && other == "role and objective"@,
        Section::Procedure => name == "procedure"@ && other == name,
        Section::Outputs => name == "outputs"@ && other == name,
        Section::PolicyDefaults => name == "policy defaults"@ && other == name,
        Section::ToolingScope => name == "tooling scope"@ && other == name,
    }
}

/// A section of a contract.
pub open spec fn section_in(c: TemplateContractView, n: Section) -> Seq<char> {
    match n {
        Section::RoleObjective => c.role_objective,
        Section::Procedure => c.procedure,
        Section::Outputs => c.outputs,
        Section::PolicyDefaults => c.policy_defaults,
        Section::ToolingScope => c.tooling_scope,
    }
}

spec fn key_of(n: Section) -> Seq<char> {
    match n {
        Section::RoleObjective => "role_objective"@,
        Section::Procedure => "procedure"@,
        Section::Outputs => "outputs"@,
        Section::PolicyDefaults => "policy_defaults"@,
        Section::ToolingScope => "tooling_scope"@,
    }
}

proof fn keys_differ()
    ensures
        forall|m: Section, n: Section| m != n ==> #[trigger] key_of(m) != #[trigger] key_of(n),
{
    reveal_strlit("role_objective");
    reveal_strlit("procedure");
    reveal_strlit("outputs");
    reveal_strlit("policy_defaults");
    reveal_strlit("tooling_scope");
    assert("role_objective"@.len() == 14);
    assert("procedure"@.len() == 9);
    assert("outputs"@.len() == 7);
    assert("policy_defaults"@.len() == 15);
    assert("tooling_scope"@.len() == 13);
}

proof fn names_differ()
    ensures
        "role + objective"@ != "procedure"@,
        "role + objective"@ != "outputs"@,
        "role + objective"@ != "policy defaults"@,
        "role + objective"@ != "tooling scope"@,
        "role and objective"@ != "procedure"@,
        "role and objective"@ != "outputs"@,
        "role and objective"@ != "policy defaults"@,
        "role and objective"@ != "tooling scope"@,
        "procedure"@ != "outputs"@,
        "procedure"@ != "policy defaults"@,
        "procedure"@ != "tooling scope"@,
        "outputs"@ != "policy defaults"@,
        "outputs"@ != "tooling scope"@,
        "policy defaults"@ != "tooling scope"@,
{
    reveal_strlit("role + objective");
    reveal_strlit("role and objective");
    reveal_strlit("procedure");
    reveal_strlit("outputs");
    reveal_strlit("policy defaults");
    reveal_strlit("tooling scope");
    assert("role + objective"@.len() == 16);
    assert("role and objective"@.len() == 18);
    assert("procedure"@.len() == 9);
    assert("outputs"@.len() == 7);
    assert("policy defaults"@.len() == 15);
    assert("tooling scope"@.len() == 13);
}

proof fn opening_has_the_key(line: Seq<char>, name: Seq<char>, other: Seq<char>, n: Section)
    requires
        is_section(name, other, n),
        has_prefix(line, "## "@),
    ensures
        opens(line, name, other) <==> heading_key(rest(line, "## "@.len() as int)) == Some(
            key_of(n),
        ),
{
    names_differ();
    keys_differ();
    assert(key_of(Section::RoleObjective) == "role_objective"@);
    assert(key_of(Section::Procedure) == "procedure"@);
    assert(key_of(Section::Outputs) == "outputs"@);
    assert(key_of(Section::PolicyDefaults) == "policy_defaults"@);
    assert(key_of(Section::ToolingScope) == "tooling_scope"@);
}

/// A section of an accepted template is what stands between its last heading and the next one, or
/// the end; a template without one of the headings is not accepted, nor one with a blank section.
pub proof fn sections_follow_their_headings(
    body: Seq<char>,
    i: int,
    j: int,
    name: Seq<char>,
    other: Seq<char>,
    n: Section,
)
    requires
        is_section(name, other, n),
    ensures
        ({
            let l = lines(body);
            let r = contract_of(sections_of(body));
            &&& (forall|k: int| 0 <= k < l.len() ==> !opens(#[trigger] l[k], name, other)) ==> r
                is Err
            &&& 0 <= i < j <= l.len() && opens(l[i], name, other) && (forall|k: int|
                i < k < j ==> !has_prefix(#[trigger] l[k], "## "@)) && (j < l.len() ==> has_prefix(
                l[j],
                "## "@,
            )) && (forall|k: int| j <= k < l.len() ==> !opens(#[trigger] l[k], name, other)) ==> {
                &&& r is Ok ==> section_in(r->Ok_0, n) == trim(text_between(l, i + 1, j))
                &&& is_blank(trim(text_between(l, i + 1, j))) ==> r is Err
            }
        }),
{
    let l = lines(body);
    let key = key_of(n);
    assert forall|k: int| 0 <= k < l.len() && has_prefix(#[trigger] l[k], "## "@) implies (opens(
        l[k],
        name,
        other,
    ) <==> heading_key(rest(l[k], "## "@.len() as int)) == Some(key)) by {
        opening_has_the_key(l[k], name, other, n);
    }
    if forall|k: int| 0 <= k < l.len() ==> !opens(#[trigger] l[k], name, other) {
        section_is_missing(body, key);
    }
    if 0 <= i < j <= l.len() && opens(l[i], name, other) && (forall|k: int|
        i < k < j ==> !has_prefix(#[trigger] l[k], "## "@)) && (j < l.len() ==> has_prefix(
        l[j],
        "## "@,
    )) && (forall|k: int| j <= k < l.len() ==> !opens(#[trigger] l[k], name, other)) {
        section_is_read(body, i, j, key);
    }
}

/// A template is made of what its file says: its title and description must be there, its id
/// tells its source and the path below it, with forward slashes, and the body is kept.
pub proof fn templates_say_what_their_file_says(
    fm: FrontmatterView,
    body: Seq<char>,
    path: Seq<char>,
    relative: Seq<char>,
    source: TemplateSource,
    prefix: Seq<char>,
)
    ensures
        ({
            let r = template_from(fm, body, path, relative, source, prefix);
            &&& r is Ok <==> fm.name is Some && fm.description is Some && contract_of(
                sections_of(body),
            ) is Ok
            &&& r is Ok ==> {
                let t = r->Ok_0;
                &&& fm.name == Some(t.name)
                &&& fm.description == Some(t.description)
                &&& t.tags == fm.tags
                &&& t.source == source
                &&& t.path == Some(path)
                &&& t.body_markdown == body
                &&& contract_of(sections_of(body))->Ok_0 == t.contract
                &&& fm.defaults is Some ==> t.defaults == fm.defaults->0
                &&& fm.defaults is None ==> t.defaults.policy.deny_dangerous_always is None
                    && t.defaults.policy.verify_required is None
                    && t.defaults.policy.verify_max_age_ms is None
                    && t.defaults.profile_refs.policy_profiles.len() == 0
                    && t.defaults.profile_refs.guideline_profiles.len() == 0
                &&& has_prefix(t.id, prefix + ":"@)
                &&& t.id.len() == prefix.len() + 1 + relative.len()
                &&& forall|k: int|
                    0 <= k < relative.len() ==> #[trigger] t.id[prefix.len() + 1 + k] == (
                    if relative[k] == '\\' {
                        '/'
                    } else {
                        relative[k]
                    })
            }
        }),
{
    reveal_strlit(":");
    let id = prefix + ":"@ + crate::templates::forward_slashes(relative);
    assert(id.subrange(0, (prefix.len() + 1) as int) =~= prefix + ":"@);
}

proof fn bytes_of_both(a: Seq<char>, b: Seq<char>)
    ensures
        encode_utf8(a + b) == encode_utf8(a) + encode_utf8(b),
    decreases a.len(),
{
    if a.len() == 0 {
        assert(a + b =~= b);
        assert(encode_utf8(a) + encode_utf8(b) =~= encode_utf8(b));
    } else {
        assert((a + b).drop_first() =~= a.drop_first() + b);
        assert((a + b)[0] == a[0]);
        bytes_of_both(a.drop_first(), b);
        assert(encode_utf8(a + b) =~= encode_utf8(a) + encode_utf8(b));
    }
}

proof fn boundary_between(a: Seq<char>, b: Seq<char>)
    ensures
        is_char_boundary(encode_utf8(a + b), bytes_len(a) as int),
    decreases a.len(),
{
    let s = a + b;
    encode_utf8_valid_utf8(s);
    if a.len() > 0 {
        assert(s.drop_first() =~= a.drop_first() + b);
        assert(s[0] == a[0]);
        encode_utf8_valid_utf8(s.drop_first());
        encode_utf8_first_scalar(s);
        assert(pop_first_scalar(encode_utf8(s)) =~= encode_utf8(s.drop_first()));
        bytes_of_both(a, b);
        boundary_between(a.drop_first(), b);
        bytes_len_add(a, b);
        bytes_len_add(a.drop_first(), b);
    }
}

/// What stands between two parts of a text is found by the bytes before and behind it.
proof fn slice_of_middle(a: Seq<char>, x: Seq<char>, b: Seq<char>)
    ensures
        byte_slice(a + x + b, bytes_len(a) as int, (bytes_len(a) + bytes_len(x)) as int) == Some(x),
{
    let s = a + x + b;
    assert(s =~= a + (x + b));
    boundary_between(a, x + b);
    boundary_between(a + x, b);
    bytes_of_both(a, x);
    bytes_of_both(a + x, b);
    let e = encode_utf8(s);
    assert(e.subrange(
        encode_utf8(a).len() as int,
        (encode_utf8(a).len() + encode_utf8(x).len()) as int,
    ) =~= encode_utf8(x));
    encode_utf8_decode_utf8(x);
}

proof fn lines_behind(a: Seq<char>, b: Seq<char>, j: int)
    requires
        0 <= j <= b.len(),
    ensures
        lines_from(a + b, a.len() + j) == lines_from(b, j),
    decreases b.len() - j,
{
    let s = a + b;
    if j < b.len() {
        next_char_behind(a, b, j, '\n');
        next_char_bounds(b, j, '\n');
        let n = next_char(b, j, '\n');
        if n < b.len() {
            assert(s.subrange(a.len() + j, a.len() + n) =~= b.subrange(j, n));
            lines_behind(a, b, n + 1);
        } else {
            assert(s.subrange(a.len() + j, s.len() as int) =~= b.subrange(j, b.len() as int));
        }
    }
}

proof fn lines_before(a: Seq<char>, b: Seq<char>, i: int)
    requires
        0 <= i <= a.len(),
        !a.contains('\r'),
    ensures
        lines_from(a.push('\n') + b, i) == split_from(a, i, '\n') + lines(b),
    decreases a.len() - i,
{
    let head = a.push('\n');
    let s = head + b;
    let tail = seq!['\n'] + b;
    assert(s =~= a + tail);
    next_char_bounds(a, i, '\n');
    next_char_in(a, tail, i, '\n');
    let n = next_char(a, i, '\n');
    if n < a.len() {
        let line = s.subrange(i, n);
        assert(line =~= a.subrange(i, n));
        assert(without_cr(line) == line) by {
            if line.len() > 0 && line.last() == '\r' {
                assert(a[n - 1] == '\r');
            }
        }
        lines_before(a, b, n + 1);
        assert(lines_from(s, i) =~= split_from(a, i, '\n') + lines(b));
    } else {
        next_char_behind(a, tail, 0, '\n');
        assert(tail[0] == '\n');
        assert(next_char(s, i, '\n') == a.len());
        let line = s.subrange(i, a.len() as int);
        assert(line =~= a.subrange(i, a.len() as int));
        assert(without_cr(line) == line) by {
            if line.len() > 0 && line.last() == '\r' {
                assert(a[a.len() - 1] == '\r');
            }
        }
        lines_behind(head, b, 0);
        assert(lines_from(s, i) =~= split_from(a, i, '\n') + lines(b));
    }
}

proof fn bytes_of_pieces(a: Seq<char>, i: int)
    requires
        0 <= i <= a.len(),
    ensures
        split_from(a, i, '\n').len() > 0,
        lines_bytes(split_from(a, i, '\n'), split_from(a, i, '\n').len() as int) == bytes_len(
            a.subrange(i, a.len() as int),
        ) + 1,
    decreases a.len() - i,
{
    next_char_bounds(a, i, '\n');
    let n = next_char(a, i, '\n');
    let pieces = split_from(a, i, '\n');
    if n < a.len() {
        bytes_of_pieces(a, n + 1);
        let first = a.subrange(i, n);
        let others = split_from(a, n + 1, '\n');
        lines_bytes_shift(first, others, others.len() as int);
        let feed = seq!['\n'];
        let below = a.subrange(n + 1, a.len() as int);
        assert(a.subrange(i, a.len() as int) =~= first + feed + below);
        bytes_len_add(first + feed, below);
        bytes_len_add(first, feed);
        assert(is_ascii_chars(feed));
        is_ascii_chars_encode_utf8(feed);
    } else {
        reveal_with_fuel(lines_bytes, 2);
    }
}

proof fn bytes_of_first(a: Seq<Seq<char>>, b: Seq<Seq<char>>, n: int)
    requires
        0 <= n <= a.len(),
    ensures
        lines_bytes(a + b, n) == lines_bytes(a, n),
    decreases n,
{
    if n > 0 {
        bytes_of_first(a, b, n - 1);
        assert((a + b)[n - 1] == a[n - 1]);
    }
}

proof fn first_mark_is_found(l: Seq<Seq<char>>, i: int, k: int)
    requires
        0 <= i <= k < l.len(),
        is_mark(l[k]),
        forall|j: int| i <= j < k ==> !is_mark(#[trigger] l[j]),
    ensures
        mark_from(l, i) == Some(k),
    decreases k - i,
{
    if i < k {
        first_mark_is_found(l, i + 1, k);
    }
}

/// A text with a head between two marks and a body behind them, each on lines of its own.
pub open spec fn marked(
    opening: Seq<char>,
    head: Seq<char>,
    closing: Seq<char>,
    body: Seq<char>,
) -> Seq<char> {
    opening.push('\n') + (head.push('\n') + (closing.push('\n') + body))
}

/// Whether a line is a mark: three hyphens, with or without space around them.
pub open spec fn three_hyphens(line: Seq<char>) -> bool {
    &&& !line.contains('\n')
    &&& !line.contains('\r')
    &&& trim(line) == seq!['-', '-', '-']
}

proof fn hyphens_are_a_mark(line: Seq<char>)
    ensures
        is_mark(line) <==> trim(line) == seq!['-', '-', '-'],
{
    reveal_strlit("---");
    assert("---"@ =~= seq!['-', '-', '-']);
}

proof fn line_of_its_own(a: Seq<char>, b: Seq<char>)
    requires
        !a.contains('\n'),
        !a.contains('\r'),
    ensures
        lines(a.push('\n') + b) == seq![a] + lines(b),
        bytes_len(a.push('\n')) == bytes_len(a) + 1,
{
    lines_before(a, b, 0);
    next_char_bounds(a, 0, '\n');
    assert(split_from(a, 0, '\n') =~= seq![a]) by {
        assert(a.subrange(0, a.len() as int) =~= a);
    }
    one_more_byte(a);
}

proof fn one_more_byte(a: Seq<char>)
    ensures
        bytes_len(a.push('\n')) == bytes_len(a) + 1,
{
    let feed = seq!['\n'];
    assert(a.push('\n') =~= a + feed);
    bytes_len_add(a, feed);
    assert(is_ascii_chars(feed));
    is_ascii_chars_encode_utf8(feed);
}

/// A file with a head between two marks is split into just the head and just the body; both ways
/// of splitting it agree.
pub proof fn head_and_body_are_told_apart(
    opening: Seq<char>,
    head: Seq<char>,
    closing: Seq<char>,
    body: Seq<char>,
    path: Seq<char>,
)
    requires
        three_hyphens(opening),
        three_hyphens(closing),
        !head.contains('\r'),
        forall|k: int|
            0 <= k < split(head, '\n').len() ==> trim(#[trigger] split(head, '\n')[k]) != seq![
                '-',
                '-',
                '-',
            ],
    ensures
        file_parts(marked(opening, head, closing, body)) == Some(
            Ok::<(Seq<char>, Seq<char>), TemplateErrorView>((head, body)),
        ),
        head_and_body(marked(opening, head, closing, body), path) == Some(
            Ok::<(Seq<char>, Seq<char>), Seq<char>>((head, body)),
        ),
{
    let raw = marked(opening, head, closing, body);
    let o = opening.push('\n');
    let h = head.push('\n');
    let c = closing.push('\n');
    let last = c + body;
    let tail = h + last;
    let pieces = split(head, '\n');
    let m = pieces.len() as int;
    line_of_its_own(opening, tail);
    line_of_its_own(closing, body);
    lines_before(head, last, 0);
    one_more_byte(head);
    let l = lines(raw);
    let below = lines(tail);
    let end = lines(last);
    assert(l == seq![opening] + below);
    assert(below == pieces + end);
    assert(end == seq![closing] + lines(body));
    assert forall|k: int| 0 <= k < m implies below[k] == pieces[k] && !is_mark(
        #[trigger] pieces[k],
    ) by {
        hyphens_are_a_mark(pieces[k]);
    }
    hyphens_are_a_mark(opening);
    hyphens_are_a_mark(closing);
    assert(below[m] == closing);
    first_mark_is_found(below, 0, m);
    assert(l[0] == opening && l[m + 1] == closing);
    assert forall|k: int| 1 <= k < m + 1 implies !is_mark(#[trigger] l[k]) by {
        assert(l[k] == below[k - 1]);
        assert(!is_mark(pieces[k - 1]));
    }
    first_mark_is_found(l, 1, m + 1);
    bytes_of_pieces(head, 0);
    assert(head.subrange(0, head.len() as int) =~= head);
    bytes_of_first(pieces, end, m);
    let with_closing = pieces.push(closing);
    assert(below =~= with_closing + lines(body));
    bytes_of_first(with_closing, lines(body), m + 1);
    assert(with_closing[m] == closing);
    assert(with_closing =~= pieces + seq![closing]);
    bytes_of_first(pieces, seq![closing], m);
    assert(lines_bytes(below, m) == bytes_len(head) + 1);
    assert(lines_bytes(below, m + 1) == bytes_len(head) + 1 + bytes_len(closing) + 1);
    lines_bytes_shift(opening, below, m);
    lines_bytes_shift(opening, below, m + 1);
    lines_bytes_shift(opening, below, 0);
    assert(lines_bytes(below, 0) == 0);
    let none: Seq<char> = Seq::empty();
    assert(raw =~= o + head + (seq!['\n'] + last));
    slice_of_middle(o, head, seq!['\n'] + last);
    assert(raw =~= (o + h + c) + body + none);
    slice_of_middle(o + h + c, body, none);
    assert(raw =~= o + tail + none);
    slice_of_middle(o, tail, none);
    bytes_len_add(o, tail);
    bytes_len_add(h, last);
    bytes_len_add(c, body);
    bytes_len_add(o + h, c);
    bytes_len_add(o, h);
}

/// A change of a template file keeps its body as it is, behind the changed head.
pub proof fn changed_file_keeps_its_body(
    opening: Seq<char>,
    head: Seq<char>,
    closing: Seq<char>,
    body: Seq<char>,
    path: Seq<char>,
    kind: ProfileKind,
    id: Seq<char>,
    change: Change,
)
    requires
        three_hyphens(opening),
        three_hyphens(closing),
        !head.contains('\r'),
        forall|k: int|
            0 <= k < split(head, '\n').len() ==> trim(#[trigger] split(head, '\n')[k]) != seq![
                '-',
                '-',
                '-',
            ],
    ensures
        ({
            let r = changed_file(marked(opening, head, closing, body), path, kind, id, change);
            &&& r is Some
            &&& r->0 is Ok <==> changed_head(head, path, kind, id, change) is Ok
            &&& r->0 is Ok ==> r->0->Ok_0 == "---\n"@ + changed_head(
                head,
                path,
                kind,
                id,
                change,
            )->Ok_0 + "---\n"@ + body
        }),
{
    head_and_body_are_told_apart(opening, head, closing, body, path);
}

/// A file that is too large is refused, whatever it holds; another is split.
pub proof fn large_files_are_refused(raw: Seq<char>, max_bytes: usize)
    ensures
        bytes_len(raw) > max_bytes ==> (sized_parts(raw, max_bytes) matches Some(Err(e)) && e
            is TooLarge),
        bytes_len(raw) <= max_bytes ==> sized_parts(raw, max_bytes) == file_parts(raw),
        lines(raw).len() == 0 || trim(lines(raw)[0]) != seq!['-', '-', '-'] ==> file_parts(raw)
            == Some(
            Err::<(Seq<char>, Seq<char>), TemplateErrorView>(TemplateErrorView::MissingFrontmatter),
        ),
{
    if lines(raw).len() > 0 {
        hyphens_are_a_mark(lines(raw)[0]);
    }
}

/// What is shown of a template is what the template says.
pub proof fn shown_templates_are_themselves(t: TemplateView)
    ensures
        ({
            let r = ref_of(t);
            r.id == t.id && r.name == t.name && r.source == t.source && r.description
                == t.description && r.tags == t.tags
        }),
{
}

} // verus!
