//! Verified core of a declarative project-scaffolding pipeline.
//!
//! A configuration document lists an ordered set of file operations (copy,
//! search-and-replace, render a template) together with key/value context
//! layers. This crate holds the verified logic of that pipeline: merging the
//! context layers with fixed precedence, rendering placeholder expressions,
//! resolving command kinds (with a closest-match suggestion on a miss),
//! validating typed command parameters, and producing the ordered command
//! list. File and terminal I/O live outside the library and hand it plain
//! values.

pub mod commands;
pub mod context;
pub mod errors;
pub mod loader;
pub mod params;
pub mod registry;
pub mod render;
