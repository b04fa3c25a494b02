//! The closed rule taxonomy: one variant per defect class. Each rule maps to
//! a stable name (used as a filter key and protocol error code) and a fixed
//! description string.

use vstd::prelude::*;

verus! {

/// Classification of a diagnostic; a stable identifier for filtering and
/// documentation lookup.
#[derive(Debug, Clone, Copy, PartialEq, Eq, Structural)]
pub enum Rule {
    /// Source file is empty
    NoContent,
    /// Source file is not empty but holds no statements
    NoStatements,
    /// Source file contains constructs the analyzer does not yet understand
    Unimplemented,
    /// Source file contains an unknown keyword
    UnknownKeyword,
    /// Source file contains an invalid analyzer instruction
    BadSqleibnizInstruction,
    /// Source file contains an unterminated string
    UnterminatedString,
    /// The source file contains an unknown character
    UnknownCharacter,
    /// The source file contains an invalid numeric literal
    InvalidNumericLiteral,
    /// The source file contains an invalid blob literal
    InvalidBlob,
    /// The source file contains a structure with incorrect syntax
    Syntax,
    /// The source file is missing a semicolon
    Semicolon,
}

impl Rule {
    /// The stable name of the rule, as a sequence of characters.
    pub open spec fn spec_name(self) -> Seq<char> {
        match self {
            Rule::NoContent => "NoContent"@,
            Rule::NoStatements => "NoStatements"@,
            Rule::Unimplemented => "Unimplemented"@,
            Rule::UnknownKeyword => "UnknownKeyword"@,
            Rule::BadSqleibnizInstruction => "BadSqleibnizInstruction"@,
            Rule::UnterminatedString => "UnterminatedString"@,
            Rule::UnknownCharacter => "UnknownCharacter"@,
            Rule::InvalidNumericLiteral => "InvalidNumericLiteral"@,
            Rule::InvalidBlob => "InvalidBlob"@,
            Rule::Syntax => "Syntax"@,
            Rule::Semicolon => "Semicolon"@,
        }
    }

    /// The fixed human-readable description of the rule.
    pub open spec fn spec_description(self) -> Seq<char> {
        match self {
            Rule::NoContent => "Source file is empty"@,
            Rule::NoStatements => "Source file is not empty but holds no statements"@,
            Rule::Unimplemented => "Source file contains constructs sqleibniz does not yet understand"@,
            Rule::UnknownKeyword => "Source file contains an unknown keyword"@,
            Rule::BadSqleibnizInstruction => "The source file contains an invalid sqleibniz instruction"@,
            Rule::UnterminatedString => "Source file contains an unterminated string"@,
            Rule::UnknownCharacter => "The source file contains an unknown character"@,
            Rule::InvalidNumericLiteral => "The source file contains an invalid numeric literal"@,
            Rule::InvalidBlob => "The source file contains an invalid blob literal"@,
            Rule::Syntax => "The source file contains a structure with incorrect syntax"@,
            Rule::Semicolon => "The source file is missing a semicolon"@,
        }
    }

    /// The stable name of the rule, the key used for suppression and as the
    /// protocol error code.
    pub fn name(&self) -> (r: &'static str)
        ensures
            r@ == self.spec_name(),
    {
        match self {
            Rule::NoContent => "NoContent",
            Rule::NoStatements => "NoStatements",
            Rule::Unimplemented => "Unimplemented",
            Rule::UnknownKeyword => "UnknownKeyword",
            Rule::BadSqleibnizInstruction => "BadSqleibnizInstruction",
            Rule::UnterminatedString => "UnterminatedString",
            Rule::UnknownCharacter => "UnknownCharacter",
            Rule::InvalidNumericLiteral => "InvalidNumericLiteral",
            Rule::InvalidBlob => "InvalidBlob",
            Rule::Syntax => "Syntax",
            Rule::Semicolon => "Semicolon",
        }
    }

    /// The fixed description shown below a rendered diagnostic.
    pub fn description(&self) -> (r: &'static str)
        ensures
            r@ == self.spec_description(),
    {
        match self {
            Rule::NoContent => "Source file is empty",
            Rule::NoStatements => "Source file is not empty but holds no statements",
            Rule::Unimplemented => "Source file contains constructs sqleibniz does not yet understand",
            Rule::UnknownKeyword => "Source file contains an unknown keyword",
            Rule::BadSqleibnizInstruction => "The source file contains an invalid sqleibniz instruction",
            Rule::UnterminatedString => "Source file contains an unterminated string",
            Rule::UnknownCharacter => "The source file contains an unknown character",
            Rule::InvalidNumericLiteral => "The source file contains an invalid numeric literal",
            Rule::InvalidBlob => "The source file contains an invalid blob literal",
            Rule::Syntax => "The source file contains a structure with incorrect syntax",
            Rule::Semicolon => "The source file is missing a semicolon",
        }
    }

    /// Looks a rule up by its stable name: the exact inverse of
    /// [`Rule::name`]; an unknown name is no rule.
    pub fn from_name(s: &str) -> (r: Option<Rule>)
        ensures
            r matches Some(rule) ==> s@ == rule.spec_name(),
            r is None ==> forall|rule: Rule| s@ != #[trigger] rule.spec_name(),
    {
        let r = if crate::text::str_eq(s, "NoContent") {
            Some(Rule::NoContent)
        } else if crate::text::str_eq(s, "NoStatements") {
            Some(Rule::NoStatements)
        } else if crate::text::str_eq(s, "Unimplemented") {
            Some(Rule::Unimplemented)
        } else if crate::text::str_eq(s, "UnterminatedString") {
            Some(Rule::UnterminatedString)
        } else if crate::text::str_eq(s, "UnknownCharacter") {
            Some(Rule::UnknownCharacter)
        } else if crate::text::str_eq(s, "InvalidNumericLiteral") {
            Some(Rule::InvalidNumericLiteral)
        } else if crate::text::str_eq(s, "InvalidBlob") {
            Some(Rule::InvalidBlob)
        } else if crate::text::str_eq(s, "Syntax") {
            Some(Rule::Syntax)
        } else if crate::text::str_eq(s, "Semicolon") {
            Some(Rule::Semicolon)
        } else if crate::text::str_eq(s, "BadSqleibnizInstruction") {
            Some(Rule::BadSqleibnizInstruction)
        } else if crate::text::str_eq(s, "UnknownKeyword") {
            Some(Rule::UnknownKeyword)
        } else {
            None
        };
        proof {
            if r is None {
                assert forall|rule: Rule| s@ != #[trigger] rule.spec_name() by {
                    match rule {
                        Rule::NoContent => {},
                        Rule::NoStatements => {},
                        Rule::Unimplemented => {},
                        Rule::UnknownKeyword => {},
                        Rule::BadSqleibnizInstruction => {},
                        Rule::UnterminatedString => {},
                        Rule::UnknownCharacter => {},
                        Rule::InvalidNumericLiteral => {},
                        Rule::InvalidBlob => {},
                        Rule::Syntax => {},
                        Rule::Semicolon => {},
                    }
                }
            }
        }
        r
    }
}

} // verus!
