//! Static homepage generator library.
//!
//! Builds a single-page site for a software project: it normalizes release
//! metadata fetched from a releases API, renders an HTML page for it through
//! a template set, and plans the flat copy of asset directory trees into the
//! output directory. All decisions are made here over plain values; the thin
//! binary around this crate only performs the I/O those decisions call for.

pub mod cli;
pub mod copier;
pub mod errors;
pub mod pipeline;
pub mod release;
pub mod render;
