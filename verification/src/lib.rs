//! A client library for a cloud orchestration service, centred on the
//! interactive console's hierarchical navigation tree: organizations own
//! workspaces, workspaces own compute environments, and every node is loaded
//! on demand, addressed by a path of sibling indices, and rendered as a
//! flattened list of visible rows.
//!
//! The tree model ([`tree`]), the navigation engine ([`nav`], [`flatten`])
//! and the session controller ([`session`]) are verified: path lookup,
//! grafting, expand/collapse, the four directional moves and the
//! fetch-then-graft protocol all carry contracts, and the laws the navigation
//! obeys — a stale path is never dereferenced, collapsing removes exactly a
//! subtree's visible rows, moving down and then up returns to the start, a
//! failed graft leaves the tree untouched — are proved alongside them.
//! Network I/O and drawing stay outside the library.
pub mod flatten;
pub mod models;
pub mod nav;
pub mod session;
pub mod tree;
pub mod utils;
