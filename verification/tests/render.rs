use render_facade::error::template_error;
use render_facade::{render, render_v1, render_v2, Engine, RenderError};

#[test]
fn renders_hello_world_v1() {
    let r = render_v1("Hello, {{ name }}!", "{\"name\": \"World\"}");
    assert_eq!(r, Ok("Hello, World!".to_string()));
}

#[test]
fn renders_hello_world_v2() {
    let r = render_v2("Hello, {{ name }}!", "{\"name\": \"World\"}");
    assert_eq!(r, Ok("Hello, World!".to_string()));
}

#[test]
fn rejects_malformed_json_v1() {
    let r = render_v1("Hello", "{not json");
    let msg = r.unwrap_err();
    assert!(msg.starts_with("Invalid JSON context: "));
    // the parser's diagnostic follows the prefix
    assert!(msg.len() > "Invalid JSON context: ".len());
}

#[test]
fn rejects_malformed_json_v2() {
    let r = render_v2("Hello", "{not json");
    let msg = r.unwrap_err();
    assert!(msg.starts_with("Invalid JSON context: "));
    assert!(msg.len() > "Invalid JSON context: ".len());
}

#[test]
fn rejects_empty_document() {
    let msg = render_v1("Hello", "").unwrap_err();
    assert!(msg.starts_with("Invalid JSON context: "));
}

#[test]
fn rejects_scalar_number_root() {
    for r in [render_v1("Hello", "42"), render_v2("Hello", "42")] {
        let msg = r.unwrap_err();
        assert!(msg.starts_with("Invalid context: "));
    }
}

#[test]
fn rejects_scalar_string_root() {
    for r in [render_v1("Hello", "\"hello\""), render_v2("Hello", "\"hello\"")] {
        let msg = r.unwrap_err();
        assert!(msg.starts_with("Invalid context: "));
    }
}

#[test]
fn rejects_array_root() {
    for r in [render_v1("Hello", "[1,2,3]"), render_v2("Hello", "[1,2,3]")] {
        let msg = r.unwrap_err();
        assert!(msg.starts_with("Invalid context: "));
    }
}

#[test]
fn reports_undefined_variable_as_template_error() {
    for r in [
        render_v1("{{ missing }}", "{}"),
        render_v2("{{ missing }}", "{}"),
    ] {
        let msg = r.unwrap_err();
        assert!(msg.starts_with("Template error: "));
        // the engine's diagnostic is non-empty
        assert!(msg.len() > "Template error: ".len());
    }
}

#[test]
fn reports_bad_template_syntax_as_template_error() {
    let msg = render_v1("{{ unclosed", "{}").unwrap_err();
    assert!(msg.starts_with("Template error: "));
}

#[test]
fn shape_error_beats_template_error() {
    // the template is syntactically invalid, but the context's shape is
    // rejected first and the template is never parsed
    for r in [
        render_v1("{{ unclosed", "[1,2,3]"),
        render_v2("{{ unclosed", "42"),
    ] {
        let msg = r.unwrap_err();
        assert!(msg.starts_with("Invalid context: "));
    }
}

#[test]
fn encoding_error_beats_everything() {
    // both later stages would fail too; the parse error wins
    for r in [
        render_v1("{{ unclosed", "{not json"),
        render_v2("{{ unclosed", "{not json"),
    ] {
        let msg = r.unwrap_err();
        assert!(msg.starts_with("Invalid JSON context: "));
    }
}

#[test]
fn renders_without_autoescaping() {
    let r = render_v1("{{ v }}", "{\"v\": \"<b>\"}");
    assert_eq!(r, Ok("<b>".to_string()));
}

#[test]
fn matches_reference_rendering() {
    let template = "{{ greeting }}, {{ who }}";
    let context_json = "{\"greeting\": \"Hi\", \"who\": \"you\"}";

    let value: serde_json::Value = serde_json::from_str(context_json).unwrap();
    let context = tera::Context::from_serialize(&value).unwrap();
    let reference = tera::Tera::one_off(template, &context, false).unwrap();

    assert_eq!(render_v1(template, context_json), Ok(reference.clone()));
    assert_eq!(render_v2(template, context_json), Ok(reference));
}

#[test]
fn repeated_calls_are_identical() {
    let template = "Hello, {{ name }}!";
    let context_json = "{\"name\": \"World\"}";
    let first = render_v1(template, context_json);
    // unrelated calls in between, successful and failing, on both versions
    let _ = render_v2("{{ other }}", "{\"other\": 1}");
    let _ = render_v1("Hello", "{not json");
    let _ = render_v2("{{ missing }}", "{}");
    let second = render_v1(template, context_json);
    assert_eq!(first, second);

    let failing_first = render_v2("Hello", "[1,2,3]");
    let _ = render_v1(template, context_json);
    let failing_second = render_v2("Hello", "[1,2,3]");
    assert_eq!(failing_first, failing_second);
}

#[test]
fn both_versions_agree_on_shared_engine() {
    let template = "{% for x in xs %}{{ x }}{% endfor %}";
    let context_json = "{\"xs\": [1, 2, 3]}";
    assert_eq!(
        render_v1(template, context_json),
        render_v2(template, context_json)
    );
}

#[test]
fn selector_dispatches_both_versions() {
    let ok1 = render(Engine::V1, "{{ n }}", "{\"n\": 7}");
    let ok2 = render(Engine::V2, "{{ n }}", "{\"n\": 7}");
    assert_eq!(ok1, Ok("7".to_string()));
    assert_eq!(ok2, Ok("7".to_string()));

    let err = render(Engine::V2, "Hello", "[1]");
    assert!(matches!(err, Err(RenderError::InvalidContextShape(_))));
    let err = render(Engine::V1, "Hello", "{oops");
    assert!(matches!(err, Err(RenderError::InvalidContextEncoding(_))));
}

#[test]
fn messages_carry_their_prefix() {
    let e = RenderError::InvalidContextEncoding("bad byte".to_string());
    assert_eq!(e.message(), "Invalid JSON context: bad byte");
    let e = RenderError::InvalidContextShape("got a list".to_string());
    assert_eq!(e.message(), "Invalid context: got a list");
    let e = RenderError::TemplateError("missing variable".to_string());
    assert_eq!(e.message(), "Template error: missing variable");
}

#[test]
fn template_error_prefers_the_inner_cause() {
    let e = template_error("outer".to_string(), Some("inner".to_string()));
    assert_eq!(e, RenderError::TemplateError("inner".to_string()));
    let e = template_error("outer".to_string(), None);
    assert_eq!(e, RenderError::TemplateError("outer".to_string()));
}
