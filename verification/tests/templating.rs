use codex_pr::strmap::StrMap;
use codex_pr::types::templating::{render_template, TemplateContext, TemplateError};

fn map(entries: &[(&str, &str)]) -> StrMap<String> {
    let mut m = StrMap::new();
    for (k, v) in entries {
        m.insert(k.to_string(), v.to_string());
    }
    m
}

#[test]
fn substitutes_placeholders() {
    let vars = map(&[("BASE_BRANCH", "main")]);
    let facts = map(&[("status", "down")]);
    let ctx = TemplateContext {
        session_id: "s1",
        task_id: Some("t1"),
        turn_id: Some("turn1"),
        vars: &vars,
        facts: &facts,
    };
    let rendered = render_template(
        "sid=${session_id} base=${var.BASE_BRANCH} status=${fact.status}",
        &ctx,
    )
    .unwrap();
    assert_eq!(rendered, "sid=s1 base=main status=down");
}

#[test]
fn missing_var_is_error() {
    let vars = map(&[]);
    let facts = map(&[]);
    let ctx = TemplateContext {
        session_id: "s1",
        task_id: None,
        turn_id: None,
        vars: &vars,
        facts: &facts,
    };
    let err = render_template("x=${var.MISSING}", &ctx).unwrap_err();
    assert!(matches!(err, TemplateError::MissingVar(_)));
}

#[test]
fn template_errors() {
    let vars = map(&[("big", &"x".repeat(60 * 1024))]);
    let facts = map(&[]);
    let ctx = TemplateContext {
        session_id: "s1",
        task_id: None,
        turn_id: None,
        vars: &vars,
        facts: &facts,
    };
    assert_eq!(render_template("${", &ctx), Err(TemplateError::UnclosedPlaceholder));
    assert_eq!(
        render_template("${task_id}", &ctx),
        Err(TemplateError::UnknownPlaceholder("task_id".to_string()))
    );
    assert_eq!(
        render_template("${nope}", &ctx),
        Err(TemplateError::UnknownPlaceholder("nope".to_string()))
    );
    assert_eq!(
        render_template("${fact.f}", &ctx),
        Err(TemplateError::MissingFact("f".to_string()))
    );
    assert_eq!(
        render_template(&"a".repeat(32 * 1024 + 1), &ctx),
        Err(TemplateError::TemplateTooLarge)
    );
    assert_eq!(
        render_template("${var.big}${var.big}", &ctx),
        Err(TemplateError::RenderedTooLarge)
    );
    assert_eq!(render_template("$x $ {", &ctx), Ok("$x $ {".to_string()));
    assert_eq!(TemplateError::MissingVar("v".to_string()).message(), "missing var: v");
}

#[test]
fn other_characters_are_taken_byte_by_byte() {
    let none = map(&[]);
    let ctx = TemplateContext {
        session_id: "\u{e9}",
        task_id: None,
        turn_id: None,
        vars: &none,
        facts: &none,
    };
    assert_eq!(
        render_template("\u{e9}${session_id}", &ctx),
        Ok("\u{c3}\u{a9}\u{e9}".to_string())
    );
}

#[test]
fn pieces_are_rendered_one_by_one() {
    let vars = map(&[("a", "x"), ("b", "y z")]);
    let facts = map(&[("f", "$")]);
    let ctx = TemplateContext {
        session_id: "s1",
        task_id: None,
        turn_id: None,
        vars: &vars,
        facts: &facts,
    };
    let pieces = ["a=${var.a};", "", " {b} ${var.b}", "${fact.f}", "{plain}"];
    for first in pieces {
        for second in pieces {
            let whole = render_template(&format!("{first}{second}"), &ctx).unwrap();
            let one = render_template(first, &ctx).unwrap();
            let two = render_template(second, &ctx).unwrap();
            assert_eq!(whole, format!("{one}{two}"));
        }
    }
}
