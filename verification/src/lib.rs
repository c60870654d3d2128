//! A filename template engine for a camera RAW to DNG importer.
//!
//! A format string made of literal text, two-character date/time directives
//! (`%Y`), and brace-delimited metadata expansions (`{camera.make}`) is
//! compiled once into an immutable sequence of render instructions, and each
//! image's metadata record is then rendered through that sequence into an
//! output filename stem.

pub mod datetime;
pub mod error;
pub mod metadata;
pub mod parse;
pub mod strutil;
