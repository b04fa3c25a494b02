//! Shared analysis context: the structures a future semantic pass reads, and
//! the read-only tree-walking view handed to external hook dispatchers.

use vstd::prelude::*;

use crate::nodes::SqliteStorageClass;

verus! {

/// A table known to the analysis, with its column storage classes.
pub struct Table {
    pub name: String,
    pub columns: Vec<SqliteStorageClass>,
}

/// Context holds the information necessary for the analysis of statements:
/// the known tables, savepoints and attached databases.
pub struct Context {
    pub tables: Vec<Table>,
    pub save_points: Vec<String>,
    pub databases: Vec<String>,
}

/// The read-only node view handed to an external hook dispatcher: the node's
/// kind name, its textual content where it has one, and its children.
#[derive(Debug)]
pub struct HookContext {
    pub kind: String,
    pub content: Option<String>,
    pub children: Vec<HookContext>,
}

} // verus!
