//! `project` is a library for generating a new project directory from a
//! template source: a local directory or a remote git repository. File
//! contents and path segments are substituted against a variable mapping,
//! and entries are selectively included, excluded or renamed, driven by a
//! descriptor file (`template.toml`) at the template root.
//!
//! The library is the pure core: source-string resolution, descriptor
//! loading, placeholder substitution, extension-based engine dispatch,
//! per-segment renaming, include/exclude filtering, and the materialization
//! walk that turns a template tree into a plan of directory and file
//! actions. All filesystem and network work is left to the caller, which
//! feeds the library plain values and applies the plan it returns.

pub mod config;
pub mod engine;
pub mod error;
pub mod guidon;
pub mod helpers;
pub mod info;
pub mod parser;
pub mod template;
pub mod text;
pub mod util;

pub use error::Error;
pub use error::ErrorKind;
pub use info::ProjectInfo;
pub use info::TemplateOptions;
pub use template::Template;
