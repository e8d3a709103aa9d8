//! Templates with `${..}` placeholders.

use vstd::prelude::*;
use vstd::utf8::{char_u32_cast, is_ascii_chars, is_ascii_chars_encode_utf8};
use crate::strmap::{lookup, StrMap};
use crate::text::{
    byte_chars, byte_len, bytes_len, bytes_len_add, cat2, chars_of, find_char, has_prefix,
    next_char, next_char_behind, next_char_bounds, next_char_in, push_byte_chars, rest, slice_string, str_eq, strip_prefix, Duplicate,
};

verus! {

/// Why a template cannot be rendered.
#[derive(Debug, PartialEq, Eq)]
pub enum TemplateError {
    TemplateTooLarge,
    RenderedTooLarge,
    UnclosedPlaceholder,
    UnknownPlaceholder(String),
    MissingVar(String),
    MissingFact(String),
}

/// What a [`TemplateError`] stands for.
#[verifier::ext_equal]
pub enum TemplateErrorView {
    TemplateTooLarge,
    RenderedTooLarge,
    UnclosedPlaceholder,
    UnknownPlaceholder(Seq<char>),
    MissingVar(Seq<char>),
    MissingFact(Seq<char>),
}

impl View for TemplateError {
    type V = TemplateErrorView;

    open spec fn view(&self) -> TemplateErrorView {
        match self {
            TemplateError::TemplateTooLarge => TemplateErrorView::TemplateTooLarge,
            TemplateError::RenderedTooLarge => TemplateErrorView::RenderedTooLarge,
            TemplateError::UnclosedPlaceholder => TemplateErrorView::UnclosedPlaceholder,
            TemplateError::UnknownPlaceholder(a) => TemplateErrorView::UnknownPlaceholder(a@),
            TemplateError::MissingVar(a) => TemplateErrorView::MissingVar(a@),
            TemplateError::MissingFact(a) => TemplateErrorView::MissingFact(a@),
        }
    }
}

impl DeepView for TemplateError {
    type V = TemplateErrorView;

    open spec fn deep_view(&self) -> TemplateErrorView {
        self@
    }
}

impl Duplicate for TemplateError {
    fn dup(&self) -> (r: Self) {
        match self {
            TemplateError::TemplateTooLarge => TemplateError::TemplateTooLarge,
            TemplateError::RenderedTooLarge => TemplateError::RenderedTooLarge,
            TemplateError::UnclosedPlaceholder => TemplateError::UnclosedPlaceholder,
            TemplateError::UnknownPlaceholder(a) => TemplateError::UnknownPlaceholder(a.clone()),
            TemplateError::MissingVar(a) => TemplateError::MissingVar(a.clone()),
            TemplateError::MissingFact(a) => TemplateError::MissingFact(a.clone()),
        }
    }
}

impl Clone for TemplateError {
    fn clone(&self) -> (r: Self)
        ensures
            r@ == self@,
    {
        self.dup()
    }
}

/// The text of an error.
pub open spec fn template_error_text(e: TemplateErrorView) -> Seq<char> {
    match e {
        TemplateErrorView::TemplateTooLarge => "template too large"@,
        TemplateErrorView::RenderedTooLarge => "rendered output too large"@,
        TemplateErrorView::UnclosedPlaceholder => "unclosed placeholder"@,
        TemplateErrorView::UnknownPlaceholder(k) => "unknown placeholder: "@ + k,
        TemplateErrorView::MissingVar(k) => "missing var: "@ + k,
        TemplateErrorView::MissingFact(k) => "missing fact: "@ + k,
    }
}

impl TemplateError {
    /// The error in words.
    pub fn message(&self) -> (r: String)
        ensures
            r@ == template_error_text(self@),
    {
        match self {
            TemplateError::TemplateTooLarge => "template too large".to_owned(),
            TemplateError::RenderedTooLarge => "rendered output too large".to_owned(),
            TemplateError::UnclosedPlaceholder => "unclosed placeholder".to_owned(),
            TemplateError::UnknownPlaceholder(k) => cat2("unknown placeholder: ", k.as_str()),
            TemplateError::MissingVar(k) => cat2("missing var: ", k.as_str()),
            TemplateError::MissingFact(k) => cat2("missing fact: ", k.as_str()),
        }
    }
}

/// What placeholders are resolved from.
#[derive(Debug, Clone, Copy)]
pub struct TemplateContext<'a> {
    pub session_id: &'a str,
    pub task_id: Option<&'a str>,
    pub turn_id: Option<&'a str>,
    pub vars: &'a StrMap<String>,
    pub facts: &'a StrMap<String>,
}

/// What a [`TemplateContext`] stands for.
#[verifier::ext_equal]
pub struct TemplateContextView {
    pub session_id: Seq<char>,
    pub task_id: Option<Seq<char>>,
    pub turn_id: Option<Seq<char>>,
    pub vars: Seq<(Seq<char>, Seq<char>)>,
    pub facts: Seq<(Seq<char>, Seq<char>)>,
}

impl<'a> View for TemplateContext<'a> {
    type V = TemplateContextView;

    open spec fn view(&self) -> TemplateContextView {
        TemplateContextView {
            session_id: self.session_id@,
            task_id: self.task_id.deep_view(),
            turn_id: self.turn_id.deep_view(),
            vars: self.vars.deep_view(),
            facts: self.facts.deep_view(),
        }
    }
}

/// The largest template, in bytes.
pub const MAX_TEMPLATE_BYTES: usize = 32 * 1024;

/// The largest rendered text, in bytes.
pub const MAX_RENDERED_BYTES: usize = 64 * 1024;

/// What a placeholder stands for.
pub open spec fn placeholder_value(key: Seq<char>, ctx: TemplateContextView) -> Result<
    Seq<char>,
    TemplateErrorView,
> {
    if key == "session_id"@ {
        Ok(ctx.session_id)
    } else if key == "task_id"@ {
        match ctx.task_id {
            Some(v) => Ok(v),
            None => Err(TemplateErrorView::UnknownPlaceholder(key)),
        }
    } else if key == "turn_id"@ {
        match ctx.turn_id {
            Some(v) => Ok(v),
            None => Err(TemplateErrorView::UnknownPlaceholder(key)),
        }
    } else if has_prefix(key, "var."@) {
        match lookup(ctx.vars, rest(key, "var."@.len() as int)) {
            Some(v) => Ok(v),
            None => Err(TemplateErrorView::MissingVar(rest(key, "var."@.len() as int))),
        }
    } else if has_prefix(key, "fact."@) {
        match lookup(ctx.facts, rest(key, "fact."@.len() as int)) {
            Some(v) => Ok(v),
            None => Err(TemplateErrorView::MissingFact(rest(key, "fact."@.len() as int))),
        }
    } else {
        Err(TemplateErrorView::UnknownPlaceholder(key))
    }
}

/// Whether a placeholder opens at position `i`.
pub open spec fn opens_at(s: Seq<char>, i: int) -> bool {
    s[i] == '$' && i + 1 < s.len() && s[i + 1] == '{'
}

/// The rendering of what follows position `i`, behind what `out` holds already:
/// a placeholder gives its value, every other character its UTF-8 bytes, and the
/// text may at no point outgrow [`MAX_RENDERED_BYTES`].
pub open spec fn rendered_from(
    s: Seq<char>,
    i: int,
    ctx: TemplateContextView,
    out: Seq<char>,
) -> Result<Seq<char>, TemplateErrorView>
    decreases s.len() - i,
{
    if i < 0 || i >= s.len() {
        Ok(out)
    } else if opens_at(s, i) {
        let end = next_char(s, i + 2, '}');
        if end >= s.len() {
            Err(TemplateErrorView::UnclosedPlaceholder)
        } else {
            match placeholder_value(s.subrange(i + 2, end), ctx) {
                Err(e) => Err(e),
                Ok(v) => if bytes_len(out + v) > MAX_RENDERED_BYTES {
                    Err(TemplateErrorView::RenderedTooLarge)
                } else if end + 1 > i {
                    rendered_from(s, end + 1, ctx, out + v)
                } else {
                    Ok(out)
                },
            }
        }
    } else if bytes_len(out + byte_chars(s[i])) > MAX_RENDERED_BYTES {
        Err(TemplateErrorView::RenderedTooLarge)
    } else {
        rendered_from(s, i + 1, ctx, out + byte_chars(s[i]))
    }
}

/// The rendering of a template.
pub open spec fn rendered(s: Seq<char>, ctx: TemplateContextView) -> Result<
    Seq<char>,
    TemplateErrorView,
> {
    if bytes_len(s) > MAX_TEMPLATE_BYTES {
        Err(TemplateErrorView::TemplateTooLarge)
    } else {
        rendered_from(s, 0, ctx, Seq::empty())
    }
}

/// The meaning of the result of a rendering.
pub open spec fn render_result(r: Result<String, TemplateError>) -> Result<
    Seq<char>,
    TemplateErrorView,
> {
    match r {
        Ok(s) => Ok(s@),
        Err(e) => Err(e@),
    }
}

/// Renders a template: `${session_id}`, `${task_id}`, `${turn_id}`, `${var.NAME}`
/// and `${fact.NAME}` are replaced by their values.
pub fn render_template(input: &str, ctx: &TemplateContext<'_>) -> (r: Result<
    String,
    TemplateError,
>)
    ensures
        render_result(r) == rendered(input@, ctx@),
{
    if byte_len(input) > MAX_TEMPLATE_BYTES {
        return Err(TemplateError::TemplateTooLarge);
    }
    let v = chars_of(input);
    let mut out = String::new();
    let mut i: usize = 0;
    assert(out@ =~= Seq::<char>::empty());
    while i < v.len()
        invariant
            i <= v@.len(),
            v@ == input@,
            rendered(input@, ctx@) == rendered_from(v@, i as int, ctx@, out@),
        decreases v.len() - i,
    {
        if v[i] == '$' && v.len() - i > 1 && v[i + 1] == '{' {
            let start: usize = i + 2;
            let end = find_char(&v, start, '}');
            if end >= v.len() {
                return Err(TemplateError::UnclosedPlaceholder);
            }
            let key = slice_string(&v, start, end);
            match resolve_placeholder(key.as_str(), ctx) {
                Err(e) => {
                    return Err(e);
                },
                Ok(value) => {
                    out.append(value);
                },
            }
            i = end + 1;
        } else {
            push_byte_chars(&mut out, v[i]);
            i = i + 1;
        }
        if byte_len(out.as_str()) > MAX_RENDERED_BYTES {
            return Err(TemplateError::RenderedTooLarge);
        }
    }
    Ok(out)
}

/// The value of one placeholder.
fn resolve_placeholder<'a>(key: &str, ctx: &TemplateContext<'a>) -> (r: Result<
    &'a str,
    TemplateError,
>)
    ensures
        (match r {
            Ok(v) => Ok(v@),
            Err(e) => Err(e@),
        }) == placeholder_value(key@, ctx@),
{
    if str_eq(key, "session_id") {
        return Ok(ctx.session_id);
    }
    if str_eq(key, "task_id") {
        return match ctx.task_id {
            Some(v) => Ok(v),
            None => Err(TemplateError::UnknownPlaceholder(key.to_owned())),
        };
    }
    if str_eq(key, "turn_id") {
        return match ctx.turn_id {
            Some(v) => Ok(v),
            None => Err(TemplateError::UnknownPlaceholder(key.to_owned())),
        };
    }
    if let Some(name) = strip_prefix(key, "var.") {
        return match ctx.vars.get(name.as_str()) {
            Some(v) => Ok(v.as_str()),
            None => Err(TemplateError::MissingVar(name)),
        };
    }
    if let Some(name) = strip_prefix(key, "fact.") {
        return match ctx.facts.get(name.as_str()) {
            Some(v) => Ok(v.as_str()),
            None => Err(TemplateError::MissingFact(name)),
        };
    }
    Err(TemplateError::UnknownPlaceholder(key.to_owned()))
}

/// A rendered text never outgrows its bound.
pub proof fn rendered_is_bounded(s: Seq<char>, ctx: TemplateContextView)
    ensures
        rendered(s, ctx) matches Ok(t) ==> bytes_len(t) <= MAX_RENDERED_BYTES,
{
    if bytes_len(s) <= MAX_TEMPLATE_BYTES {
        rendered_from_is_bounded(s, 0, ctx, Seq::empty());
    }
}

proof fn rendered_from_is_bounded(s: Seq<char>, i: int, ctx: TemplateContextView, out: Seq<char>)
    requires
        bytes_len(out) <= MAX_RENDERED_BYTES,
    ensures
        rendered_from(s, i, ctx, out) matches Ok(t) ==> bytes_len(t) <= MAX_RENDERED_BYTES,
    decreases s.len() - i,
{
    if 0 <= i < s.len() {
        if opens_at(s, i) {
            let end = next_char(s, i + 2, '}');
            if end < s.len() {
                if let Ok(v) = placeholder_value(s.subrange(i + 2, end), ctx) {
                    if bytes_len(out + v) <= MAX_RENDERED_BYTES && end + 1 > i {
                        rendered_from_is_bounded(s, end + 1, ctx, out + v);
                    }
                }
            }
        } else if bytes_len(out + byte_chars(s[i])) <= MAX_RENDERED_BYTES {
            rendered_from_is_bounded(s, i + 1, ctx, out + byte_chars(s[i]));
        }
    }
}

/// A template without placeholders, all of whose characters are ASCII, renders to
/// itself.
pub proof fn plain_text_renders_to_itself(s: Seq<char>, ctx: TemplateContextView)
    requires
        is_ascii_chars(s),
        s.len() <= MAX_TEMPLATE_BYTES,
        forall|i: int| 0 <= i < s.len() ==> !#[trigger] opens_at(s, i),
    ensures
        rendered(s, ctx) == Ok::<Seq<char>, TemplateErrorView>(s),
{
    is_ascii_chars_encode_utf8(s);
    plain_from(s, 0, ctx);
    assert(s.subrange(0, 0) =~= Seq::<char>::empty());
}

proof fn plain_from(s: Seq<char>, i: int, ctx: TemplateContextView)
    requires
        0 <= i <= s.len(),
        is_ascii_chars(s),
        s.len() <= MAX_TEMPLATE_BYTES,
        forall|i: int| 0 <= i < s.len() ==> !#[trigger] opens_at(s, i),
    ensures
        rendered_from(s, i, ctx, s.subrange(0, i)) == Ok::<Seq<char>, TemplateErrorView>(s),
    decreases s.len() - i,
{
    if i == s.len() {
        assert(s.subrange(0, i) =~= s);
    } else {
        assert(!opens_at(s, i));
        let one = seq![s[i]];
        assert(is_ascii_chars(one));
        is_ascii_chars_encode_utf8(one);
        let c = s[i];
        assert(one[0] == c);
        assert((c as u8) as char == c) by {
            let u = c as u32;
            assert(u <= 0x7f);
            char_u32_cast(c, u);
        }
        assert(byte_chars(s[i]) =~= one);
        let next = s.subrange(0, i + 1);
        assert(s.subrange(0, i) + byte_chars(s[i]) =~= next);
        assert(is_ascii_chars(next));
        is_ascii_chars_encode_utf8(next);
        plain_from(s, i + 1, ctx);
    }
}

proof fn rendered_grows(s: Seq<char>, i: int, ctx: TemplateContextView, out: Seq<char>)
    ensures
        rendered_from(s, i, ctx, out) matches Ok(r) ==> bytes_len(out) <= bytes_len(r),
    decreases s.len() - i,
{
    if 0 <= i < s.len() {
        if opens_at(s, i) {
            let end = next_char(s, i + 2, '}');
            if end < s.len() {
                if let Ok(v) = placeholder_value(s.subrange(i + 2, end), ctx) {
                    bytes_len_add(out, v);
                    if bytes_len(out + v) <= MAX_RENDERED_BYTES && end + 1 > i {
                        rendered_grows(s, end + 1, ctx, out + v);
                    }
                }
            }
        } else {
            bytes_len_add(out, byte_chars(s[i]));
            if bytes_len(out + byte_chars(s[i])) <= MAX_RENDERED_BYTES {
                rendered_grows(s, i + 1, ctx, out + byte_chars(s[i]));
            }
        }
    }
}

/// Whether no placeholder opens across the seam of two texts.
pub open spec fn apart(a: Seq<char>, b: Seq<char>) -> bool {
    !(a.len() > 0 && a.last() == '$' && b.len() > 0 && b[0] == '{')
}

proof fn rendered_before(
    a: Seq<char>,
    b: Seq<char>,
    i: int,
    ctx: TemplateContextView,
    out: Seq<char>,
)
    requires
        0 <= i <= a.len(),
        apart(a, b),
    ensures
        rendered_from(a, i, ctx, out) matches Ok(r) ==> rendered_from(a + b, i, ctx, out)
            == rendered_from(a + b, a.len() as int, ctx, r),
    decreases a.len() - i,
{
    let s = a + b;
    if i < a.len() {
        assert(s[i] == a[i]);
        assert(opens_at(s, i) == opens_at(a, i)) by {
            if i + 1 < a.len() {
                assert(s[i + 1] == a[i + 1]);
            } else if b.len() > 0 {
                assert(s[i + 1] == b[0]);
            }
        }
        if opens_at(a, i) {
            let end = next_char(a, i + 2, '}');
            next_char_bounds(a, i + 2, '}');
            if end < a.len() {
                next_char_in(a, b, i + 2, '}');
                assert(s.subrange(i + 2, end) =~= a.subrange(i + 2, end));
                if let Ok(v) = placeholder_value(a.subrange(i + 2, end), ctx) {
                    if bytes_len(out + v) <= MAX_RENDERED_BYTES {
                        rendered_before(a, b, end + 1, ctx, out + v);
                    }
                }
            }
        } else if bytes_len(out + byte_chars(a[i])) <= MAX_RENDERED_BYTES {
            rendered_before(a, b, i + 1, ctx, out + byte_chars(a[i]));
        }
    }
}

proof fn rendered_behind(
    a: Seq<char>,
    b: Seq<char>,
    j: int,
    ctx: TemplateContextView,
    p: Seq<char>,
    out: Seq<char>,
)
    requires
        0 <= j <= b.len(),
        rendered_from(b, j, ctx, out) is Ok,
        bytes_len(p) + bytes_len(rendered_from(b, j, ctx, out)->Ok_0) <= MAX_RENDERED_BYTES,
    ensures
        rendered_from(a + b, a.len() + j, ctx, p + out) == Ok::<Seq<char>, TemplateErrorView>(
            p + rendered_from(b, j, ctx, out)->Ok_0,
        ),
    decreases b.len() - j,
{
    let s = a + b;
    let i = a.len() + j;
    if j < b.len() {
        assert(s[i] == b[j]);
        if j + 1 < b.len() {
            assert(s[i + 1] == b[j + 1]);
        }
        if opens_at(b, j) {
            let end = next_char(b, j + 2, '}');
            next_char_bounds(b, j + 2, '}');
            next_char_behind(a, b, j + 2, '}');
            assert(s.subrange(i + 2, a.len() + end) =~= b.subrange(j + 2, end));
            let v = placeholder_value(b.subrange(j + 2, end), ctx)->Ok_0;
            rendered_grows(b, end + 1, ctx, out + v);
            bytes_len_add(p, out + v);
            assert(p + out + v =~= p + (out + v));
            rendered_behind(a, b, end + 1, ctx, p, out + v);
        } else {
            let v = byte_chars(b[j]);
            rendered_grows(b, j + 1, ctx, out + v);
            bytes_len_add(p, out + v);
            assert(p + out + v =~= p + (out + v));
            rendered_behind(a, b, j + 1, ctx, p, out + v);
        }
    }
}

/// Two templates put together render to their renderings put together, where the sizes
/// allow it and no placeholder opens across the seam.
pub proof fn rendering_goes_piece_by_piece(
    a: Seq<char>,
    b: Seq<char>,
    ctx: TemplateContextView,
)
    requires
        rendered(a, ctx) is Ok,
        rendered(b, ctx) is Ok,
        bytes_len(a) + bytes_len(b) <= MAX_TEMPLATE_BYTES,
        bytes_len(rendered(a, ctx)->Ok_0) + bytes_len(rendered(b, ctx)->Ok_0)
            <= MAX_RENDERED_BYTES,
        apart(a, b),
    ensures
        rendered(a + b, ctx) == Ok::<Seq<char>, TemplateErrorView>(
            rendered(a, ctx)->Ok_0 + rendered(b, ctx)->Ok_0,
        ),
{
    let ra = rendered(a, ctx)->Ok_0;
    let none: Seq<char> = Seq::empty();
    bytes_len_add(a, b);
    rendered_before(a, b, 0, ctx, none);
    rendered_behind(a, b, 0, ctx, ra, none);
    assert(ra + none =~= ra);
}

} // verus!
