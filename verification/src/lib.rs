//! Command-line SigV4 request tool: assembles an HTTP request draft from
//! loosely structured CLI inputs, resolves the request body from an inline
//! literal, a file, or standard input, and renders a buffered HTTP response
//! for a terminal with optional header echoing and JSON-aware formatting.
//!
//! Signing and transport are outside collaborators: the pipeline here builds
//! the unsigned draft, decides how each stage's outcome advances the run,
//! and formats the buffered response.

pub mod body;
pub mod draft;
pub mod error;
pub mod headers;
pub mod options;
pub mod pipeline;
pub mod render;
