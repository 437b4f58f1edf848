//! A static site generator's core: front-matter extraction, markdown
//! rendering with intra-site link rewriting, and page assembly against a
//! fixed template.
//!
//! The filesystem walk, static-asset copying and command-line handling live
//! in the surrounding application; this crate holds the document pipeline.

pub mod assemble;
pub mod front_matter;
pub mod links;
pub mod paths;
pub mod render;
pub mod strutil;
