//! The syntax-tree node model: a closed set of variants, one per supported
//! statement or expression form, each anchored at the token that starts it in
//! the source. Nodes are produced once by the parser and only traversed
//! afterwards.

use vstd::prelude::*;

use crate::keyword::Keyword;
use crate::token::Token;

verus! {

/// Either `schema_name.table_name` or a bare `table_name`.
#[derive(Debug, Clone)]
pub enum SchemaTableContainer {
    SchemaAndTable { schema: String, table: String },
    Table(String),
}

/// A storage class a column definition may name.
#[derive(Debug, Clone, Copy, PartialEq, Eq, Structural)]
pub enum SqliteStorageClass {
    Null,
    Integer,
    Real,
    Text,
    Blob,
}

/// A column definition: a name and an optional storage class.
#[derive(Debug, Clone)]
pub struct ColumnDef {
    pub name: String,
    pub storage_class: Option<SqliteStorageClass>,
}

/// One syntax-tree node. `Explain` wraps exactly one child statement; every
/// variant carries the token anchoring it in the source.
#[derive(Debug)]
pub enum Node {
    /// An EXPLAIN or EXPLAIN QUERY PLAN wrapper around one statement.
    Explain { t: Token, child: Option<Box<Node>> },
    /// VACUUM, with its optional schema name and optional target filename.
    Vacuum { t: Token, schema_name: Option<Token>, filename: Option<Token> },
    Begin { t: Token },
    Commit { t: Token },
    Rollback { t: Token, save_point: Option<String> },
    Savepoint { t: Token, savepoint_name: String },
    Release { t: Token, savepoint_name: String },
    Detach { t: Token, schema_name: String },
    /// ANALYZE, with either a bare name or a `schema.name` pair.
    Analyze {
        t: Token,
        schema_index_or_table_name: Option<String>,
        schema_with_table_or_index_name: Option<String>,
    },
    /// DROP INDEX/TABLE/TRIGGER/VIEW; `kind` is the keyword that followed
    /// DROP, `argument` the possibly schema-qualified name.
    Drop { t: Token, if_exists: bool, kind: Keyword, argument: String },
    Reindex { t: Token, collation_or_schema: Option<String> },
    Attach { t: Token, schema_name: String },
    Alter {
        t: Token,
        target: SchemaTableContainer,
        rename_to: Option<String>,
        rename_column_target: Option<String>,
        new_column_name: Option<String>,
        add_column: Option<ColumnDef>,
        drop_column: Option<String>,
    },
    /// A literal value: string, number, blob, boolean, NULL or one of the
    /// CURRENT_* keywords.
    Literal { t: Token },
    /// An expression; only skeleton fields are populated so far.
    Expr {
        t: Token,
        literal: Option<Token>,
        schema: Option<String>,
        table: Option<String>,
        column: Option<String>,
    },
    /// A bind parameter.
    BindParameter { t: Token, name: Option<String> },
}

impl Node {
    /// The token anchoring the node in the source.
    pub fn token(&self) -> (r: &Token)
        ensures
            *r == self.spec_token(),
    {
        match self {
            Node::Explain { t, .. } => t,
            Node::Vacuum { t, .. } => t,
            Node::Begin { t } => t,
            Node::Commit { t } => t,
            Node::Rollback { t, .. } => t,
            Node::Savepoint { t, .. } => t,
            Node::Release { t, .. } => t,
            Node::Detach { t, .. } => t,
            Node::Analyze { t, .. } => t,
            Node::Drop { t, .. } => t,
            Node::Reindex { t, .. } => t,
            Node::Attach { t, .. } => t,
            Node::Alter { t, .. } => t,
            Node::Literal { t } => t,
            Node::Expr { t, .. } => t,
            Node::BindParameter { t, .. } => t,
        }
    }

    /// The token anchoring the node in the source.
    pub open spec fn spec_token(self) -> Token {
        match self {
            Node::Explain { t, .. } => t,
            Node::Vacuum { t, .. } => t,
            Node::Begin { t } => t,
            Node::Commit { t } => t,
            Node::Rollback { t, .. } => t,
            Node::Savepoint { t, .. } => t,
            Node::Release { t, .. } => t,
            Node::Detach { t, .. } => t,
            Node::Analyze { t, .. } => t,
            Node::Drop { t, .. } => t,
            Node::Reindex { t, .. } => t,
            Node::Attach { t, .. } => t,
            Node::Alter { t, .. } => t,
            Node::Literal { t } => t,
            Node::Expr { t, .. } => t,
            Node::BindParameter { t, .. } => t,
        }
    }

    /// The kind name of the node, for tree printing and for keying hooks.
    pub open spec fn spec_name(self) -> Seq<char> {
        match self {
            Node::Explain { .. } => "Explain"@,
            Node::Vacuum { .. } => "Vacuum"@,
            Node::Begin { .. } => "Begin"@,
            Node::Commit { .. } => "Commit"@,
            Node::Rollback { .. } => "Rollback"@,
            Node::Savepoint { .. } => "Savepoint"@,
            Node::Release { .. } => "Release"@,
            Node::Detach { .. } => "Detach"@,
            Node::Analyze { .. } => "Analyze"@,
            Node::Drop { .. } => "Drop"@,
            Node::Reindex { .. } => "Reindex"@,
            Node::Attach { .. } => "Attach"@,
            Node::Alter { .. } => "Alter"@,
            Node::Literal { .. } => "Literal"@,
            Node::Expr { .. } => "Expr"@,
            Node::BindParameter { .. } => "BindParameter"@,
        }
    }

    /// The kind name of the node, for tree printing and for keying hooks.
    pub fn name(&self) -> (r: &'static str)
        ensures
            r@ == self.spec_name(),
    {
        match self {
            Node::Explain { .. } => "Explain",
            Node::Vacuum { .. } => "Vacuum",
            Node::Begin { .. } => "Begin",
            Node::Commit { .. } => "Commit",
            Node::Rollback { .. } => "Rollback",
            Node::Savepoint { .. } => "Savepoint",
            Node::Release { .. } => "Release",
            Node::Detach { .. } => "Detach",
            Node::Analyze { .. } => "Analyze",
            Node::Drop { .. } => "Drop",
            Node::Reindex { .. } => "Reindex",
            Node::Attach { .. } => "Attach",
            Node::Alter { .. } => "Alter",
            Node::Literal { .. } => "Literal",
            Node::Expr { .. } => "Expr",
            Node::BindParameter { .. } => "BindParameter",
        }
    }
}

} // verus!
