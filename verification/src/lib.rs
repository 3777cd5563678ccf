//! A per-plugin-scoped, full-text, frecency-ranked search index for a
//! launcher-style application, together with the small client-side state
//! types that accompany it.
//!
//! Plugins contribute entrypoints (commands, views, generator-produced
//! items).  The index stores one document per (plugin, entrypoint) pair and
//! keeps a side metadata store perfectly synchronized with it; queries are
//! answered from an immutable snapshot, joined with the metadata, and ranked
//! by frecency alone.

pub mod laws;
pub mod main_view;
pub mod model;
pub mod search;
pub mod store;
pub mod theme;
pub mod text_index;
