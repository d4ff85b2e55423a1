//! Extraction of structural and documentation metadata from class-based
//! source files: a line classifier, a documentation-block collector and tag
//! parser, class/method extractors, and the scanner driver that ties them
//! together into one `Class` record per file.

pub mod classify;
pub mod doc;
pub mod extract;
pub mod laws;
pub mod model;
pub mod patterns;
pub mod scan;
pub mod text;
