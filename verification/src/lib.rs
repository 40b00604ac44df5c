//! Sorting and renaming photo and video files after the date they were taken.
//!
//! The crate holds the name-format template engine, the built-in formatters,
//! the bracket grouper, the duplicate resolver and the per-file dispatch
//! decisions. Reading files and acting on them is left to the caller: the
//! library takes what the caller found, as plain values, and says what is to
//! be done.
//!
//! - [`template`] cuts a template into literal text and command blocks.
//! - [`analysis::name_formatters`] holds the formatters and the registry.
//! - [`render`] renders templates to names and to path components.
//! - [`analyzer`] and [`dispatch`] take a file from its name and metadata to
//!   a free target path.
//! - [`grouper`] groups bracketed exposures.
//! - [`action`] plans the file action.
//! - [`exifutils`] and [`analysis::bracketed`] read maker notes.

pub mod action;
pub mod analysis;
pub mod analyzer;
pub mod datetime;
pub mod dispatch;
pub mod exifutils;
pub mod grouper;
pub mod name;
pub mod pattern;
pub mod render;
pub mod template;
pub mod text;

pub use analyzer::{AnalysisType, Analyzer, AnalyzerSettings};
pub use grouper::BracketEXIFInformation;
