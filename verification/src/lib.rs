//! Helpers that attach OpenAPI documentation metadata to HTTP route handlers:
//! doc-comment extraction into (summary, description, tag, deprecated),
//! a tag-stamping router carrier, and response-adapter shims whose runtime
//! conversion and documentation inference are kept consistent.

pub mod extract;
pub mod operation;
pub mod params;
pub mod response;
pub mod router;
pub mod text;
