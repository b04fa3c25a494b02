//! Static analyzer for a SQL dialect: a byte-level scanner that turns source
//! text into tokens, a recursive-descent parser that turns tokens into a
//! syntax tree while recovering from malformed statements, and a diagnostic
//! model with a source-anchored text renderer.

use vstd::prelude::*;

pub mod builder;
pub mod ctx;
pub mod error;
pub mod highlight;
pub mod keyword;
pub mod lev;
pub mod lexer;
pub mod lsp;
pub mod nodes;
pub mod numeric;
pub mod parser;
pub mod rules;
pub mod text;
pub mod token;
pub mod tracer;

verus! {

} // verus!
