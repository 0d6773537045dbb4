//! The trusted boundary to the engines: JSON deserialization, native context
//! construction, and one-shot rendering.
//!
//! Each item here makes exactly one outside call and converts its result into
//! plain values; everything the facade decides from those values is verified
//! in `facade`.

use vstd::prelude::*;

verus! {

#[verifier::external_type_specification]
#[verifier::external_body]
pub struct ExJsonValue(serde_json::Value);

#[verifier::external_type_specification]
#[verifier::external_body]
pub struct ExRenderContext(tera::Context);

/// What parsing a context document yields: `None` on well-formed JSON text,
/// and the parser's diagnostic otherwise. The parser is a pure function of
/// the text, so its outcome is too.
pub uninterp spec fn json_parse_diagnostic(s: Seq<char>) -> Option<Seq<char>>;

/// The value a well-formed context document parses to. The parser is a pure
/// function of the text, so the value is too.
pub uninterp spec fn parsed_value_of(s: Seq<char>) -> serde_json::Value;

/// What building the native render context from a parsed value yields:
/// `None` when the value serializes to a mapping (for a JSON document, when
/// its root is an object), and the conversion diagnostic otherwise. The
/// construction is a pure function of the value, so its outcome is too.
pub uninterp spec fn shape_diagnostic(v: serde_json::Value) -> Option<Seq<char>>;

/// Relies on `serde_json::from_str::<serde_json::Value>`: it returns `Ok`
/// exactly on well-formed JSON text, its outcome depends on the text alone,
/// and the `Debug` rendering of its error is the parser diagnostic.
#[verifier::external_body]
pub(crate) fn parse_context_document(s: &str) -> (r: Result<serde_json::Value, String>)
    ensures
        r is Ok <==> json_parse_diagnostic(s@) is None,
        r matches Ok(v) ==> v == parsed_value_of(s@),
        r matches Err(d) ==> json_parse_diagnostic(s@) matches Some(m) && d@ == m,
{
    serde_json::from_str(s).map_err(|e| format!("{e:?}"))
}

/// Relies on `tera::Context::from_serialize`: it succeeds exactly when the
/// given value serializes to a mapping (for a JSON document, when its root is
/// an object) and otherwise reports what it got; its outcome depends on the
/// value alone, and the `Debug` rendering of its error is the conversion
/// diagnostic.
#[verifier::external_body]
pub(crate) fn build_render_context(v: &serde_json::Value) -> (r: Result<tera::Context, String>)
    ensures
        r is Ok <==> shape_diagnostic(*v) is None,
        r matches Err(d) ==> shape_diagnostic(*v) matches Some(m) && d@ == m,
{
    tera::Context::from_serialize(v).map_err(|e| format!("{e:?}"))
}

/// Relies on `tera::Tera::one_off`: it parses the template and renders it
/// once against the given context, without autoescaping, as the entry points
/// ask. On failure it relies on `std::error::Error::source` to expose the
/// inner cause, and converts the error to its own `Display` text paired with
/// the `Display` text of that cause, when one exists. The context is opaque
/// here, so nothing more is claimed; the facade states what it does with
/// either outcome.
#[verifier::external_body]
pub(crate) fn one_off_render(template: &str, context: &tera::Context) -> (r: Result<
    String,
    (String, Option<String>),
>)
{
    tera::Tera::one_off(template, context, false).map_err(|e| {
        let inner = std::error::Error::source(&e).map(|c| format!("{c}"));
        (format!("{e}"), inner)
    })
}

} // verus!
