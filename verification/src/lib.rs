//! Build-time placeholder engine for component-based web sources.
//!
//! The library computes everything that can be decided from plain values:
//! cache keys and the keyed placeholder store, the image placeholder
//! pipeline (decode, resize, recolor, re-encode, data-URL and SVG wrapping),
//! and the per-call decisions of the two-pass source transform. The thin
//! shell around it (parsing and rewriting the syntax tree, HTTP and file
//! loading, the persistent database, task scheduling) hands plain values in
//! and takes plain values back.

pub mod get_placeholder;
pub mod imaging;
pub mod log;
pub mod placeholder_image;
pub mod store;
pub mod text;
pub mod transform;
