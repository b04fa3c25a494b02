//! The token model: the smallest lexical units the scanner produces, tagged
//! with their kind and source span.

use vstd::prelude::*;

use crate::keyword::Keyword;
use crate::text::{dec_string, push_char, push_str, spec_dec};

verus! {

/// The payload of a numeric literal token.
///
/// The scanner never holds the 64-bit float itself: a hexadecimal literal is
/// stored as the signed integer it denotes, a decimal literal as its digit
/// text (underscores already stripped). The float value of a decimal literal
/// is the 64-bit float reading of that text, taken by the consumer of the
/// token stream.
#[derive(Debug, Clone)]
pub enum NumericValue {
    /// The value of a hexadecimal literal.
    Int(i64),
    /// The text of a decimal literal, valid per the decimal-literal grammar.
    Real(String),
}

/// The kind of a token, with its payload where it has one.
#[derive(Debug, Clone)]
pub enum Type {
    Keyword(Keyword),
    Ident(String),
    Number(NumericValue),
    String(String),
    Blob(Vec<u8>),
    Boolean(bool),
    Asterisk,
    Semicolon,
    Comma,
    Percent,
    Equal,
    At,
    Colon,
    Dollar,
    Question,
    BraceLeft,
    BraceRight,
    BracketLeft,
    BracketRight,
    Dot,
    /// An inline directive instructing the analyzer to suppress the
    /// diagnostics of the following statement.
    InstructionExpect,
    Eof,
}

/// One token: its kind, its start and end column and its zero-based line,
/// all relative to the scanned buffer.
#[derive(Debug, Clone)]
pub struct Token {
    pub ttype: Type,
    pub start: usize,
    pub end: usize,
    pub line: usize,
}

/// Whether two token kinds match for the parser's purposes: the same
/// constructor, and for keywords and booleans the same payload. The parser
/// only ever tests a token against a payload-free pattern, so the payloads of
/// identifier, number, string and blob tokens play no part.
pub open spec fn spec_same_type(a: Type, b: Type) -> bool {
    match (a, b) {
        (Type::Keyword(x), Type::Keyword(y)) => x == y,
        (Type::Boolean(x), Type::Boolean(y)) => x == y,
        (Type::Ident(_), Type::Ident(_)) => true,
        (Type::Number(_), Type::Number(_)) => true,
        (Type::String(_), Type::String(_)) => true,
        (Type::Blob(_), Type::Blob(_)) => true,
        (Type::Asterisk, Type::Asterisk) => true,
        (Type::Semicolon, Type::Semicolon) => true,
        (Type::Comma, Type::Comma) => true,
        (Type::Percent, Type::Percent) => true,
        (Type::Equal, Type::Equal) => true,
        (Type::At, Type::At) => true,
        (Type::Colon, Type::Colon) => true,
        (Type::Dollar, Type::Dollar) => true,
        (Type::Question, Type::Question) => true,
        (Type::BraceLeft, Type::BraceLeft) => true,
        (Type::BraceRight, Type::BraceRight) => true,
        (Type::BracketLeft, Type::BracketLeft) => true,
        (Type::BracketRight, Type::BracketRight) => true,
        (Type::Dot, Type::Dot) => true,
        (Type::InstructionExpect, Type::InstructionExpect) => true,
        (Type::Eof, Type::Eof) => true,
        _ => false,
    }
}

/// Tests whether two token kinds match, see [`spec_same_type`].
pub fn type_matches(a: &Type, b: &Type) -> (r: bool)
    ensures
        r == spec_same_type(*a, *b),
{
    match (a, b) {
        (Type::Keyword(x), Type::Keyword(y)) => *x == *y,
        (Type::Boolean(x), Type::Boolean(y)) => *x == *y,
        (Type::Ident(_), Type::Ident(_)) => true,
        (Type::Number(_), Type::Number(_)) => true,
        (Type::String(_), Type::String(_)) => true,
        (Type::Blob(_), Type::Blob(_)) => true,
        (Type::Asterisk, Type::Asterisk) => true,
        (Type::Semicolon, Type::Semicolon) => true,
        (Type::Comma, Type::Comma) => true,
        (Type::Percent, Type::Percent) => true,
        (Type::Equal, Type::Equal) => true,
        (Type::At, Type::At) => true,
        (Type::Colon, Type::Colon) => true,
        (Type::Dollar, Type::Dollar) => true,
        (Type::Question, Type::Question) => true,
        (Type::BraceLeft, Type::BraceLeft) => true,
        (Type::BraceRight, Type::BraceRight) => true,
        (Type::BracketLeft, Type::BracketLeft) => true,
        (Type::BracketRight, Type::BracketRight) => true,
        (Type::Dot, Type::Dot) => true,
        (Type::InstructionExpect, Type::InstructionExpect) => true,
        (Type::Eof, Type::Eof) => true,
        _ => false,
    }
}

/// The decimal rendering of a signed integer.
pub open spec fn spec_int_text(i: i64) -> Seq<char> {
    if i < 0 {
        seq!['-'] + spec_dec((-(i as int)) as nat)
    } else {
        spec_dec(i as nat)
    }
}

/// Renders a signed integer in decimal.
pub fn int_text(i: i64) -> (r: String)
    ensures
        r@ == spec_int_text(i),
{
    if i < 0 {
        let mut r = String::new();
        push_char(&mut r, '-');
        let magnitude: u64 = if i == i64::MIN {
            9223372036854775808u64
        } else {
            (-i) as u64
        };
        let d = dec_string(magnitude);
        push_str(&mut r, d.as_str());
        assert(r@ =~= seq!['-'] + spec_dec((-(i as int)) as nat));
        r
    } else {
        dec_string(i as u64)
    }
}

/// The display text of a token kind, used in diagnostic messages.
pub open spec fn spec_type_text(t: Type) -> Seq<char> {
    match t {
        Type::Keyword(k) => "Keyword("@ + k.spec_name() + ")"@,
        Type::Ident(s) => "Ident(\""@ + s@ + "\")"@,
        Type::Number(NumericValue::Int(i)) => "Number("@ + spec_int_text(i) + ")"@,
        Type::Number(NumericValue::Real(s)) => "Number("@ + s@ + ")"@,
        Type::String(s) => "String(\""@ + s@ + "\")"@,
        Type::Blob(_) => "Blob"@,
        Type::Boolean(b) => if b {
            "Boolean(true)"@
        } else {
            "Boolean(false)"@
        },
        Type::Asterisk => "Asterisk"@,
        Type::Semicolon => "Semicolon"@,
        Type::Comma => "Comma"@,
        Type::Percent => "Percent"@,
        Type::Equal => "Equal"@,
        Type::At => "At"@,
        Type::Colon => "Colon"@,
        Type::Dollar => "Dollar"@,
        Type::Question => "Question"@,
        Type::BraceLeft => "BraceLeft"@,
        Type::BraceRight => "BraceRight"@,
        Type::BracketLeft => "BracketLeft"@,
        Type::BracketRight => "BracketRight"@,
        Type::Dot => "Dot"@,
        Type::InstructionExpect => "InstructionExpect"@,
        Type::Eof => "Eof"@,
    }
}

/// Renders the display text of a token kind for diagnostic messages.
pub fn type_text(t: &Type) -> (r: String)
    ensures
        r@ == spec_type_text(*t),
{
    let mut r = String::new();
    match t {
        Type::Keyword(k) => {
            push_str(&mut r, "Keyword(");
            push_str(&mut r, k.name());
            push_str(&mut r, ")");
        },
        Type::Ident(s) => {
            push_str(&mut r, "Ident(\"");
            push_str(&mut r, s.as_str());
            push_str(&mut r, "\")");
        },
        Type::Number(NumericValue::Int(i)) => {
            push_str(&mut r, "Number(");
            let it = int_text(*i);
            push_str(&mut r, it.as_str());
            push_str(&mut r, ")");
        },
        Type::Number(NumericValue::Real(s)) => {
            push_str(&mut r, "Number(");
            push_str(&mut r, s.as_str());
            push_str(&mut r, ")");
        },
        Type::String(s) => {
            push_str(&mut r, "String(\"");
            push_str(&mut r, s.as_str());
            push_str(&mut r, "\")");
        },
        Type::Blob(_) => {
            push_str(&mut r, "Blob");
        },
        Type::Boolean(b) => {
            if *b {
                push_str(&mut r, "Boolean(true)");
            } else {
                push_str(&mut r, "Boolean(false)");
            }
        },
        Type::Asterisk => {
            push_str(&mut r, "Asterisk");
        },
        Type::Semicolon => {
            push_str(&mut r, "Semicolon");
        },
        Type::Comma => {
            push_str(&mut r, "Comma");
        },
        Type::Percent => {
            push_str(&mut r, "Percent");
        },
        Type::Equal => {
            push_str(&mut r, "Equal");
        },
        Type::At => {
            push_str(&mut r, "At");
        },
        Type::Colon => {
            push_str(&mut r, "Colon");
        },
        Type::Dollar => {
            push_str(&mut r, "Dollar");
        },
        Type::Question => {
            push_str(&mut r, "Question");
        },
        Type::BraceLeft => {
            push_str(&mut r, "BraceLeft");
        },
        Type::BraceRight => {
            push_str(&mut r, "BraceRight");
        },
        Type::BracketLeft => {
            push_str(&mut r, "BracketLeft");
        },
        Type::BracketRight => {
            push_str(&mut r, "BracketRight");
        },
        Type::Dot => {
            push_str(&mut r, "Dot");
        },
        Type::InstructionExpect => {
            push_str(&mut r, "InstructionExpect");
        },
        Type::Eof => {
            push_str(&mut r, "Eof");
        },
    }
    assert(r@ =~= spec_type_text(*t));
    r
}


/// Whether two token kinds agree: the same constructor and, payload for
/// payload, the same contents.
pub open spec fn type_like(a: Type, b: Type) -> bool {
    match (a, b) {
        (Type::Keyword(x), Type::Keyword(y)) => x == y,
        (Type::Ident(x), Type::Ident(y)) => x@ == y@,
        (Type::Number(NumericValue::Int(x)), Type::Number(NumericValue::Int(y))) => x == y,
        (Type::Number(NumericValue::Real(x)), Type::Number(NumericValue::Real(y))) => x@ == y@,
        (Type::String(x), Type::String(y)) => x@ == y@,
        (Type::Blob(x), Type::Blob(y)) => x@ == y@,
        (Type::Boolean(x), Type::Boolean(y)) => x == y,
        (Type::Asterisk, Type::Asterisk) => true,
        (Type::Semicolon, Type::Semicolon) => true,
        (Type::Comma, Type::Comma) => true,
        (Type::Percent, Type::Percent) => true,
        (Type::Equal, Type::Equal) => true,
        (Type::At, Type::At) => true,
        (Type::Colon, Type::Colon) => true,
        (Type::Dollar, Type::Dollar) => true,
        (Type::Question, Type::Question) => true,
        (Type::BraceLeft, Type::BraceLeft) => true,
        (Type::BraceRight, Type::BraceRight) => true,
        (Type::BracketLeft, Type::BracketLeft) => true,
        (Type::BracketRight, Type::BracketRight) => true,
        (Type::Dot, Type::Dot) => true,
        (Type::InstructionExpect, Type::InstructionExpect) => true,
        (Type::Eof, Type::Eof) => true,
        _ => false,
    }
}

/// Whether two tokens agree: the same span, line and kind.
pub open spec fn token_like(a: Token, b: Token) -> bool {
    a.start == b.start && a.end == b.end && a.line == b.line && type_like(a.ttype, b.ttype)
}

/// Copies `v`.
pub fn vec_u8_copy(v: &Vec<u8>) -> (r: Vec<u8>)
    ensures
        r@ == v@,
{
    let mut r: Vec<u8> = Vec::new();
    let mut i: usize = 0;
    while i < v.len()
        invariant
            i <= v@.len(),
            r@ == v@.subrange(0, i as int),
        decreases v@.len() - i,
    {
        r.push(v[i]);
        i = i + 1;
        assert(v@.subrange(0, i as int) =~= v@.subrange(0, i - 1).push(v@[i - 1]));
    }
    assert(v@.subrange(0, v@.len() as int) =~= v@);
    r
}

/// An exact copy of a token kind.
pub fn type_clone(t: &Type) -> (r: Type)
    ensures
        type_like(r, *t),
{
    match t {
        Type::Keyword(k) => Type::Keyword(*k),
        Type::Ident(s) => Type::Ident(s.clone()),
        Type::Number(NumericValue::Int(i)) => Type::Number(NumericValue::Int(*i)),
        Type::Number(NumericValue::Real(s)) => Type::Number(NumericValue::Real(s.clone())),
        Type::String(s) => Type::String(s.clone()),
        Type::Blob(b) => Type::Blob(vec_u8_copy(b)),
        Type::Boolean(b) => Type::Boolean(*b),
        Type::Asterisk => Type::Asterisk,
        Type::Semicolon => Type::Semicolon,
        Type::Comma => Type::Comma,
        Type::Percent => Type::Percent,
        Type::Equal => Type::Equal,
        Type::At => Type::At,
        Type::Colon => Type::Colon,
        Type::Dollar => Type::Dollar,
        Type::Question => Type::Question,
        Type::BraceLeft => Type::BraceLeft,
        Type::BraceRight => Type::BraceRight,
        Type::BracketLeft => Type::BracketLeft,
        Type::BracketRight => Type::BracketRight,
        Type::Dot => Type::Dot,
        Type::InstructionExpect => Type::InstructionExpect,
        Type::Eof => Type::Eof,
    }
}

/// An exact copy of a token.
pub fn token_clone(t: &Token) -> (r: Token)
    ensures
        token_like(r, *t),
{
    Token { ttype: type_clone(&t.ttype), start: t.start, end: t.end, line: t.line }
}

} // verus!
