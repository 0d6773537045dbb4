//! The normalized failure taxonomy of the render facade.
//!
//! Every failure of a render call is one of three kinds, each surfaced to the
//! caller as a single string carrying a fixed prefix followed by the
//! underlying diagnostic.

use vstd::prelude::*;
use vstd::string::StringExecFns;

verus! {

/// One render failure, holding the diagnostic text reported by the stage
/// that failed. Exactly one error (or one output) is produced per call.
#[derive(Debug, Clone, PartialEq, Eq)]
pub enum RenderError {
    /// The context document was not syntactically valid JSON.
    InvalidContextEncoding(String),
    /// The context document parsed, but could not be turned into the
    /// engine's native render context (its root is not a mapping).
    InvalidContextShape(String),
    /// The template failed to parse, or failed during evaluation.
    TemplateError(String),
}

/// The prefix announcing a context document that is not valid JSON.
pub open spec fn encoding_prefix() -> Seq<char> {
    "Invalid JSON context: "@
}

/// The prefix announcing a context document whose root is not a mapping.
pub open spec fn shape_prefix() -> Seq<char> {
    "Invalid context: "@
}

/// The prefix announcing a template parse or evaluation failure.
pub open spec fn template_prefix() -> Seq<char> {
    "Template error: "@
}

impl RenderError {
    /// The diagnostic carried by this error, without its prefix.
    pub open spec fn diagnostic(self) -> Seq<char> {
        match self {
            RenderError::InvalidContextEncoding(d) => d@,
            RenderError::InvalidContextShape(d) => d@,
            RenderError::TemplateError(d) => d@,
        }
    }

    /// The prefix owed to this error's kind.
    pub open spec fn prefix(self) -> Seq<char> {
        match self {
            RenderError::InvalidContextEncoding(_) => encoding_prefix(),
            RenderError::InvalidContextShape(_) => shape_prefix(),
            RenderError::TemplateError(_) => template_prefix(),
        }
    }

    /// The full caller-visible message: the kind's prefix, then the diagnostic.
    pub open spec fn message_spec(self) -> Seq<char> {
        self.prefix() + self.diagnostic()
    }

    /// Flattens this error into its caller-visible message string.
    pub fn message(&self) -> (r: String)
        ensures
            r@ == self.message_spec(),
    {
        match self {
            RenderError::InvalidContextEncoding(d) => {
                let mut m = "Invalid JSON context: ".to_owned();
                m.append(d.as_str());
                m
            },
            RenderError::InvalidContextShape(d) => {
                let mut m = "Invalid context: ".to_owned();
                m.append(d.as_str());
                m
            },
            RenderError::TemplateError(d) => {
                let mut m = "Template error: ".to_owned();
                m.append(d.as_str());
                m
            },
        }
    }
}

/// The three taxonomy prefixes discriminate: no message starts with two of
/// them, so the prefix alone tells the caller which stage failed.
pub proof fn lemma_prefixes_discriminate(m: Seq<char>)
    ensures
        !(encoding_prefix().is_prefix_of(m) && shape_prefix().is_prefix_of(m)),
        !(encoding_prefix().is_prefix_of(m) && template_prefix().is_prefix_of(m)),
        !(shape_prefix().is_prefix_of(m) && template_prefix().is_prefix_of(m)),
{
    reveal_strlit("Invalid JSON context: ");
    reveal_strlit("Invalid context: ");
    reveal_strlit("Template error: ");
    // the first two diverge where one says JSON; the third starts differently
    if encoding_prefix().is_prefix_of(m) && shape_prefix().is_prefix_of(m) {
        assert(m[8] == m.subrange(0, encoding_prefix().len() as int)[8]);
        assert(m[8] == m.subrange(0, shape_prefix().len() as int)[8]);
        assert(encoding_prefix()[8] == 'J' && shape_prefix()[8] == 'c');
    }
    if encoding_prefix().is_prefix_of(m) && template_prefix().is_prefix_of(m) {
        assert(m[0] == m.subrange(0, encoding_prefix().len() as int)[0]);
        assert(m[0] == m.subrange(0, template_prefix().len() as int)[0]);
        assert(encoding_prefix()[0] == 'I' && template_prefix()[0] == 'T');
    }
    if shape_prefix().is_prefix_of(m) && template_prefix().is_prefix_of(m) {
        assert(m[0] == m.subrange(0, shape_prefix().len() as int)[0]);
        assert(m[0] == m.subrange(0, template_prefix().len() as int)[0]);
        assert(shape_prefix()[0] == 'I' && template_prefix()[0] == 'T');
    }
}

/// Builds the template-stage error from the engine's own message and the
/// message of its inner cause, when it reported one.
///
/// The innermost reported cause is preferred; the engine's outer message is
/// the fallback when no inner cause exists.
pub fn template_error(outer: String, inner: Option<String>) -> (r: RenderError)
    ensures
        inner matches Some(i) ==> r == RenderError::TemplateError(i),
        inner is None ==> r == RenderError::TemplateError(outer),
{
    match inner {
        Some(i) => RenderError::TemplateError(i),
        None => RenderError::TemplateError(outer),
    }
}

/// Every message of the facade carries the prefix of its error's kind, and
/// the diagnostic follows it unchanged.
pub proof fn lemma_message_carries_prefix(e: RenderError)
    ensures
        e.prefix().is_prefix_of(e.message_spec()),
        e.message_spec().subrange(e.prefix().len() as int, e.message_spec().len() as int)
            =~= e.diagnostic(),
{
    assert(e.prefix() =~= e.message_spec().subrange(0, e.prefix().len() as int));
}

} // verus!
