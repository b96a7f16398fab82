//! Persistence rules of a desktop application's data cache.
//!
//! The application keeps one opaque text payload in a file named `data.json`
//! under the per-user cache directory of its identity. This crate holds the
//! rules of that store and proves them; it touches no file itself. A host
//! performs the file-system steps that the crate asks for and reports how
//! each one ended.

pub mod identity;
pub mod paths;
pub mod store;
pub mod model;
