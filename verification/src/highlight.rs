//! Syntax highlighting of source lines for the diagnostic renderer;
//! presently the identity highlighting, kept as the single seam where real
//! highlighting would go.

use vstd::prelude::*;

use crate::builder::Builder;
use crate::token::Token;

verus! {

/// Writes `line` into the builder, highlighted according to the tokens that
/// lie on it; the identity highlighting for now, so the text is unchanged.
pub fn highlight_string(builder: &mut Builder, token_on_line: &[Token], line: &str)
    ensures
        final(builder)@ == old(builder)@ + line@,
{
    let _ = token_on_line;
    builder.write_str(line);
}

} // verus!
