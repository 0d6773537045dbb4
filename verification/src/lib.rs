//! A dual-version template-rendering facade: two entry points that accept a
//! template and a JSON-encoded context, delegate to a template engine, and
//! normalize success and failure into one `Result` of plain strings, with a
//! fixed, prefixed error taxonomy.

pub mod engine;
pub mod error;
pub mod facade;

pub use error::RenderError;
pub use facade::Engine;
pub use facade::render;
pub use facade::render_v1;
pub use facade::render_v2;
