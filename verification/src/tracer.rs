//! A call tracer for the parser: builds indented call-trace lines; the host
//! environment decides where they go.

use vstd::prelude::*;

use crate::text::{push_repeated, push_str};
use crate::token::{spec_type_text, type_text, Type};

verus! {

/// Tracks the call depth of the parser's functions.
pub struct Tracer {
    pub indent: usize,
}

impl Tracer {
    /// A tracer at depth zero.
    pub fn new() -> (r: Tracer)
        ensures
            r.indent == 0,
    {
        Tracer { indent: 0 }
    }

    /// Deepens the indent and builds the trace line for one parser call: the
    /// indent, the function's name and the token it looked at.
    pub fn call(&mut self, name: &str, tok: Option<&Type>) -> (r: String)
        requires
            old(self).indent < usize::MAX,
        ensures
            final(self).indent == old(self).indent + 1,
            r@ == Seq::new(final(self).indent as nat, |i: int| ' ') + "-> Parser::"@ + name@
                + "("@ + (match tok {
                Some(t) => "Some("@ + spec_type_text(*t) + ")"@,
                None => "None"@,
            }) + ")"@,
    {
        self.indent = self.indent + 1;
        let mut r = String::new();
        push_repeated(&mut r, ' ', self.indent);
        push_str(&mut r, "-> Parser::");
        push_str(&mut r, name);
        push_str(&mut r, "(");
        match tok {
            Some(t) => {
                push_str(&mut r, "Some(");
                let tt = type_text(t);
                push_str(&mut r, tt.as_str());
                push_str(&mut r, ")");
            },
            None => {
                push_str(&mut r, "None");
            },
        }
        push_str(&mut r, ")");
        assert(r@ =~= Seq::new(self.indent as nat, |i: int| ' ') + "-> Parser::"@ + name@ + "("@
            + (match tok {
            Some(t) => "Some("@ + spec_type_text(*t) + ")"@,
            None => "None"@,
        }) + ")"@);
        r
    }
}

} // verus!
