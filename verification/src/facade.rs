//! The render facade: one uniform operation over the registered engine
//! versions, normalizing each stage's failure into the fixed error taxonomy.
//!
//! A call runs three stages in order, and the first failing stage wins:
//! deserialize the context document, build the engine's native render
//! context, render the template once. No state survives a call.

use vstd::prelude::*;

use crate::engine::{build_render_context, json_parse_diagnostic, one_off_render,
    parse_context_document, parsed_value_of, shape_diagnostic};
use crate::error::{encoding_prefix, lemma_prefixes_discriminate, shape_prefix,
    template_error, template_prefix, RenderError};

verus! {

/// The engine version a call is dispatched to. The selector is fixed for the
/// lifetime of a call; nothing is shared between versions across calls.
#[derive(Debug, Clone, Copy, PartialEq, Eq, Structural)]
pub enum Engine {
    V1,
    V2,
}

/// The context document `c` is accepted: it is well-formed JSON and its
/// parsed value becomes the engine's native render context (its root is a
/// mapping). Only then is the template stage reached.
pub open spec fn context_accepted(c: Seq<char>) -> bool {
    json_parse_diagnostic(c) is None && shape_diagnostic(parsed_value_of(c)) is None
}

/// What the facade owes the caller for a context document `c` resolved to
/// `r`, whichever engine version was selected. The stages are ordered and
/// the first failing one wins:
///
/// - a document that is not valid JSON is rejected as such, short-circuiting
///   the later stages, and the error carries the parser's own diagnostic;
/// - a valid document whose value cannot become the engine's render context
///   is rejected for its shape, with the conversion diagnostic, before the
///   template is ever looked at;
/// - once the context is accepted, the only failure left is the template's;
/// - output is produced only on an accepted context.
///
/// The result type itself carries the remaining invariant: exactly one of
/// output and error per call, never both and never neither.
pub open spec fn facade_obligation(c: Seq<char>, r: Result<String, RenderError>) -> bool {
    &&& (json_parse_diagnostic(c) matches Some(d) ==> r matches Err(e)
        && e matches RenderError::InvalidContextEncoding(m) && m@ == d)
    &&& (json_parse_diagnostic(c) is None
        ==> (shape_diagnostic(parsed_value_of(c)) matches Some(d) ==> r matches Err(e)
        && e matches RenderError::InvalidContextShape(m) && m@ == d))
    &&& (context_accepted(c) ==> (r matches Err(e) ==> e is TemplateError))
    &&& (r is Ok ==> context_accepted(c))
}

/// Runs the three stages against the linked engine. Both registered versions
/// are served by the one engine build linked into this artifact, so the
/// pipeline is shared; `render` keeps the dispatch point.
fn render_pipeline(template: &str, context_json: &str) -> (r: Result<String, RenderError>)
    ensures
        facade_obligation(context_json@, r),
{
    let value = match parse_context_document(context_json) {
        Ok(v) => v,
        Err(d) => {
            return Err(RenderError::InvalidContextEncoding(d));
        },
    };
    let context = match build_render_context(&value) {
        Ok(c) => c,
        Err(d) => {
            return Err(RenderError::InvalidContextShape(d));
        },
    };
    match one_off_render(template, &context) {
        Ok(out) => Ok(out),
        Err((outer, inner)) => Err(template_error(outer, inner)),
    }
}

/// The uniform render operation: deserializes `context_json`, builds the
/// selected engine's native context, renders `template` once, and normalizes
/// the outcome. Each call is independent and selection is immutable for it.
pub fn render(engine: Engine, template: &str, context_json: &str) -> (r: Result<
    String,
    RenderError,
>)
    ensures
        facade_obligation(context_json@, r),
{
    match engine {
        Engine::V1 => render_pipeline(template, context_json),
        Engine::V2 => render_pipeline(template, context_json),
    }
}

/// What an entry point owes the caller once the error is flattened, stage by
/// stage as in `facade_obligation`: an invalid context document yields
/// exactly the encoding message, a valid one with a rejected shape exactly
/// the shape message, and on an accepted context any failure message
/// announces the template stage. Output comes only from an accepted context.
pub open spec fn entry_obligation(c: Seq<char>, r: Result<String, String>) -> bool {
    &&& (json_parse_diagnostic(c) matches Some(d) ==> r matches Err(m)
        && m@ == encoding_prefix() + d)
    &&& (json_parse_diagnostic(c) is None
        ==> (shape_diagnostic(parsed_value_of(c)) matches Some(d) ==> r matches Err(m)
        && m@ == shape_prefix() + d))
    &&& (context_accepted(c) ==> (r matches Err(m) ==> template_prefix().is_prefix_of(m@)))
    &&& (r is Ok ==> context_accepted(c))
}

/// Flattens a resolved call into the entry points' plain-string shape:
/// output passes through unchanged, an error becomes its message.
fn flatten(c: Ghost<Seq<char>>, r: Result<String, RenderError>) -> (out: Result<String, String>)
    requires
        facade_obligation(c@, r),
    ensures
        entry_obligation(c@, out),
        r matches Ok(s) ==> out == Ok::<String, String>(s),
        r matches Err(e) ==> out matches Err(m) && m@ == e.message_spec(),
{
    match r {
        Ok(s) => Ok(s),
        Err(e) => {
            proof {
                crate::error::lemma_message_carries_prefix(e);
            }
            Err(e.message())
        },
    }
}

/// Renders `template` once against the JSON context `context_json` with the
/// first engine version.
pub fn render_v1(template: &str, context_json: &str) -> (r: Result<String, String>)
    ensures
        entry_obligation(context_json@, r),
{
    let resolved = render(Engine::V1, template, context_json);
    flatten(Ghost(context_json@), resolved)
}

/// Renders `template` once against the JSON context `context_json` with the
/// second engine version.
pub fn render_v2(template: &str, context_json: &str) -> (r: Result<String, String>)
    ensures
        entry_obligation(context_json@, r),
{
    let resolved = render(Engine::V2, template, context_json);
    flatten(Ghost(context_json@), resolved)
}

/// Every error string an entry point hands back announces the stage that
/// failed, if and only if: the encoding prefix stands exactly on a context
/// document that is not valid JSON, the shape prefix exactly on a valid one
/// whose value cannot become the render context, and the template prefix
/// exactly on an accepted context whose render failed.
pub proof fn lemma_prefix_names_stage(c: Seq<char>, r: Result<String, String>)
    requires
        entry_obligation(c, r),
        r is Err,
    ensures
        r matches Err(m) ==> {
            &&& (encoding_prefix().is_prefix_of(m@) <==> json_parse_diagnostic(c) is Some)
            &&& (shape_prefix().is_prefix_of(m@) <==> json_parse_diagnostic(c) is None
                && shape_diagnostic(parsed_value_of(c)) is Some)
            &&& (template_prefix().is_prefix_of(m@) <==> context_accepted(c))
        },
{
    if let Err(m) = r {
        lemma_prefixes_discriminate(m@);
        if json_parse_diagnostic(c) is Some {
            assert(encoding_prefix() =~= m@.subrange(0, encoding_prefix().len() as int));
        } else if shape_diagnostic(parsed_value_of(c)) is Some {
            assert(shape_prefix() =~= m@.subrange(0, shape_prefix().len() as int));
        }
    }
}

/// A rejected context document resolves the same way on every call and under
/// every engine version: the calls fail at the same stage, with the same
/// caller-visible message. This is the facade's own share of idempotence;
/// what a successful rendering contains is the engine's.
pub proof fn lemma_rejected_context_resolves_uniquely(
    c: Seq<char>,
    r1: Result<String, RenderError>,
    r2: Result<String, RenderError>,
)
    requires
        facade_obligation(c, r1),
        facade_obligation(c, r2),
        !context_accepted(c),
    ensures
        r1 is Err && r2 is Err,
        r1 matches Err(e1) && r2 matches Err(e2) ==> e1.message_spec() == e2.message_spec(),
{
}

} // verus!
