//! The lexical scanner: turns a byte buffer into an ordered token sequence
//! plus a list of diagnostics. It never fails on malformed input: every
//! defect becomes one diagnostic and scanning resumes after the offending
//! span.

use vstd::prelude::*;

use crate::error::{Error, ImprovedLine};
use crate::keyword::Keyword;
use crate::rules::Rule;
use crate::numeric::{spec_float_valid, spec_parse_hex, float_text_valid, parse_hex_i64};
use crate::text::{byte_char, bytes_text, bytes_to_string, hex_string, push_char, push_str, spec_hex, spec_upper, str_eq, upper_string};
use crate::token::{NumericValue, Token, Type};

verus! {

/// The cursor state after stepping over `src[i..j]`, starting at line `line`
/// and column `col`: a newline byte starts the next line at column zero, any
/// other byte widens the current line by one column.
pub open spec fn adv(src: Seq<u8>, i: int, j: int, line: nat, col: nat) -> (nat, nat)
    decreases j - i,
{
    if i >= j {
        (line, col)
    } else if src[i] == 10 {
        adv(src, i + 1, j, line + 1, 0)
    } else {
        adv(src, i + 1, j, line, (col + 1) as nat)
    }
}

/// Stepping over `src[i..j+1]` is stepping over `src[i..j]` and then over the
/// single byte `src[j]`.
pub proof fn lemma_adv_snoc(src: Seq<u8>, i: int, j: int, line: nat, col: nat)
    requires
        i <= j,
    ensures
        adv(src, i, j + 1, line, col) == (if src[j] == 10 {
            (adv(src, i, j, line, col).0 + 1 as nat, 0 as nat)
        } else {
            (adv(src, i, j, line, col).0, (adv(src, i, j, line, col).1 + 1) as nat)
        }),
    decreases j - i,
{
    if i < j {
        if src[i] == 10 {
            lemma_adv_snoc(src, i + 1, j, line + 1, 0);
        } else {
            lemma_adv_snoc(src, i + 1, j, line, (col + 1) as nat);
        }
    } else {
        if src[j] == 10 {
            assert(adv(src, j + 1, j + 1, line + 1, 0) == (line + 1 as nat, 0 as nat));
        } else {
            assert(adv(src, j + 1, j + 1, line, (col + 1) as nat) == (
                line,
                (col + 1) as nat,
            ));
        }
    }
}

/// The first position at or after `i` holding a quote or a newline, or the
/// end of the buffer.
pub open spec fn str_end(src: Seq<u8>, i: int) -> int
    decreases src.len() - i when 0 <= i <= src.len()
{
    if i >= src.len() {
        src.len() as int
    } else if src[i] == 39 || src[i] == 10 {
        i
    } else {
        str_end(src, i + 1)
    }
}

pub proof fn lemma_str_end_bounds(src: Seq<u8>, i: int)
    requires
        0 <= i <= src.len(),
    ensures
        i <= str_end(src, i) <= src.len(),
        forall|k: int| i <= k < str_end(src, i) ==> src[k] != 39 && src[k] != 10,
        str_end(src, i) < src.len() ==> src[str_end(src, i)] == 39 || src[str_end(src, i)]
            == 10,
    decreases src.len() - i,
{
    if i < src.len() && src[i] != 39 && src[i] != 10 {
        lemma_str_end_bounds(src, i + 1);
    }
}



/// Whether every byte of the buffer is scanner whitespace: tab, carriage
/// return, space or newline.
pub open spec fn ws_only(src: Seq<u8>) -> bool {
    forall|i: int| 0 <= i < src.len() ==> (src[i] == 9 || src[i] == 13 || src[i] == 32 || src[i]
        == 10)
}


/// A scanned token at the specification level: the payloads as character or
/// byte sequences.
pub enum ScanKind {
    Keyword(Keyword),
    Ident(Seq<char>),
    Int(i64),
    Real(Seq<char>),
    Str(Seq<char>),
    Blob(Seq<u8>),
    Boolean(bool),
    Asterisk,
    Semicolon,
    Comma,
    Percent,
    Equal,
    At,
    Colon,
    Dollar,
    Question,
    BraceLeft,
    BraceRight,
    BracketLeft,
    BracketRight,
    Dot,
    InstructionExpect,
    Eof,
}

/// A token as the scan specification describes it.
pub struct ScanToken {
    pub kind: ScanKind,
    pub start: nat,
    pub end: nat,
    pub line: nat,
}

/// A diagnostic as the scan specification describes it.
pub struct ScanErr {
    pub line: nat,
    pub rule: Rule,
    pub msg: Seq<char>,
    pub note: Seq<char>,
    pub start: nat,
    pub end: nat,
    pub has_doc: bool,
}

/// The state a scan run ends in: the cursor and everything emitted.
pub struct ScanState {
    pub pos: int,
    pub line: nat,
    pub col: nat,
    pub toks: Seq<ScanToken>,
    pub errs: Seq<ScanErr>,
}

/// What a token kind stands for at the specification level.
pub open spec fn model_kind(t: Type) -> ScanKind {
    match t {
        Type::Keyword(k) => ScanKind::Keyword(k),
        Type::Ident(s) => ScanKind::Ident(s@),
        Type::Number(NumericValue::Int(i)) => ScanKind::Int(i),
        Type::Number(NumericValue::Real(s)) => ScanKind::Real(s@),
        Type::String(s) => ScanKind::Str(s@),
        Type::Blob(b) => ScanKind::Blob(b@),
        Type::Boolean(b) => ScanKind::Boolean(b),
        Type::Asterisk => ScanKind::Asterisk,
        Type::Semicolon => ScanKind::Semicolon,
        Type::Comma => ScanKind::Comma,
        Type::Percent => ScanKind::Percent,
        Type::Equal => ScanKind::Equal,
        Type::At => ScanKind::At,
        Type::Colon => ScanKind::Colon,
        Type::Dollar => ScanKind::Dollar,
        Type::Question => ScanKind::Question,
        Type::BraceLeft => ScanKind::BraceLeft,
        Type::BraceRight => ScanKind::BraceRight,
        Type::BracketLeft => ScanKind::BracketLeft,
        Type::BracketRight => ScanKind::BracketRight,
        Type::Dot => ScanKind::Dot,
        Type::InstructionExpect => ScanKind::InstructionExpect,
        Type::Eof => ScanKind::Eof,
    }
}

/// What a token stands for at the specification level.
pub open spec fn model_token(t: Token) -> ScanToken {
    ScanToken {
        kind: model_kind(t.ttype),
        start: t.start as nat,
        end: t.end as nat,
        line: t.line as nat,
    }
}

/// What a diagnostic stands for at the specification level.
pub open spec fn model_err(e: Error) -> ScanErr {
    ScanErr {
        line: e.line as nat,
        rule: e.rule,
        msg: e.msg@,
        note: e.note@,
        start: e.start as nat,
        end: e.end as nat,
        has_doc: e.doc_url is Some,
    }
}

/// The models of a token sequence.
pub open spec fn token_models(r: Seq<Token>) -> Seq<ScanToken> {
    r.map_values(|t: Token| model_token(t))
}

/// The models of a diagnostic sequence.
pub open spec fn err_models(r: Seq<Error>) -> Seq<ScanErr> {
    r.map_values(|e: Error| model_err(e))
}

pub proof fn lemma_token_models_push(r: Seq<Token>, t: Token)
    ensures
        token_models(r.push(t)) == token_models(r).push(model_token(t)),
{
    assert(token_models(r.push(t)) =~= token_models(r).push(model_token(t)));
}

pub proof fn lemma_err_models_push(r: Seq<Error>, e: Error)
    ensures
        err_models(r.push(e)) == err_models(r).push(model_err(e)),
{
    assert(err_models(r.push(e)) =~= err_models(r).push(model_err(e)));
}

/// The first position at or after `i` holding a whitespace byte, or the end
/// of the buffer.
pub open spec fn ws_end(src: Seq<u8>, i: int) -> int
    decreases src.len() - i when 0 <= i <= src.len()
{
    if i >= src.len() {
        src.len() as int
    } else if is_ws_byte(src[i]) {
        i
    } else {
        ws_end(src, i + 1)
    }
}

pub proof fn lemma_ws_end_bounds(src: Seq<u8>, i: int)
    requires
        0 <= i <= src.len(),
    ensures
        i <= ws_end(src, i) <= src.len(),
        forall|k: int| i <= k < ws_end(src, i) ==> !is_ws_byte(src[k]),
        ws_end(src, i) < src.len() ==> is_ws_byte(src[ws_end(src, i)]),
    decreases src.len() - i,
{
    if i < src.len() && !is_ws_byte(src[i]) {
        lemma_ws_end_bounds(src, i + 1);
    }
}

/// What scanning a line comment from the opening dash does: the cursor walks
/// to the next newline or the end of the buffer; each `@` inside starts a
/// directive whose word runs to the next whitespace. The recognized directive
/// name emits the instruction token; any other word emits one bad-directive
/// diagnostic. A word stopped by the newline itself leaves the cursor past
/// it, so the comment walk runs on into the following line: a faithful
/// oddity of the directive grammar.
#[verifier::opaque]
pub open spec fn spec_comment(src: Seq<u8>, pos: int, line: nat, col: nat) -> ScanState
    decreases src.len() - pos when 0 <= pos <= src.len() via spec_comment_dec
{
    if pos >= src.len() {
        ScanState { pos, line, col, toks: Seq::empty(), errs: Seq::empty() }
    } else {
        let l1 = if src[pos] == 10 {
            line + 1
        } else {
            line
        };
        let c1 = if src[pos] == 10 {
            0 as nat
        } else {
            (col + 1) as nat
        };
        let p1 = pos + 1;
        if p1 >= src.len() || src[p1] == 10 {
            // either the loop exits at the end of the buffer, or it stops on
            // the newline
            ScanState { pos: p1, line: l1, col: c1, toks: Seq::empty(), errs: Seq::empty() }
        } else if src[p1] == 64 {
            // a directive marker: skip it and read the word up to whitespace
            let l2 = l1;
            let c2 = (c1 + 1) as nat;
            let p2 = p1 + 1;
            let e = ws_end(src, p2);
            let word = bytes_text(src.subrange(p2, e));
            let cw = (c2 + (e - p2)) as nat;
            let rest = spec_comment(src, e, l2, cw);
            if word == "sqleibniz::expect"@ {
                ScanState {
                    pos: rest.pos,
                    line: rest.line,
                    col: rest.col,
                    toks: seq![
                        ScanToken {
                            kind: ScanKind::InstructionExpect,
                            start: cw,
                            end: cw,
                            line: l2,
                        },
                    ] + rest.toks,
                    errs: rest.errs,
                }
            } else {
                ScanState {
                    pos: rest.pos,
                    line: rest.line,
                    col: rest.col,
                    toks: rest.toks,
                    errs: seq![
                        ScanErr {
                            line: l2,
                            rule: Rule::BadSqleibnizInstruction,
                            msg: "Unknown sqleibniz instruction"@,
                            note: word + " is not a valid sqleibniz instruction"@,
                            start: c2,
                            end: cw,
                            has_doc: false,
                        },
                    ] + rest.errs,
                }
            }
        } else {
            spec_comment(src, p1, l1, c1)
        }
    }
}

#[via_fn]
proof fn spec_comment_dec(src: Seq<u8>, pos: int, line: nat, col: nat) {
    if pos < src.len() && pos + 1 < src.len() && src[pos + 1] != 10 && src[pos + 1] == 64 {
        lemma_ws_end_bounds(src, pos + 2);
    }
}

/// A comment scan only moves the cursor forward, and never past the end.
pub proof fn lemma_spec_comment_pos(src: Seq<u8>, pos: int, line: nat, col: nat)
    requires
        0 <= pos <= src.len(),
    ensures
        spec_comment(src, pos, line, col).pos >= pos,
        pos < src.len() ==> spec_comment(src, pos, line, col).pos > pos,
        spec_comment(src, pos, line, col).pos <= src.len(),
    decreases src.len() - pos,
{
    reveal_with_fuel(spec_comment, 1);
    if pos < src.len() {
        let p1 = pos + 1;
        if p1 >= src.len() || src[p1] == 10 {
        } else if src[p1] == 64 {
            lemma_ws_end_bounds(src, p1 + 1);
            let e = ws_end(src, p1 + 1);
            let l1 = if src[pos] == 10 {
                line + 1
            } else {
                line
            };
            let c1 = if src[pos] == 10 {
                0 as nat
            } else {
                (col + 1) as nat
            };
            lemma_spec_comment_pos(src, e, l1, ((c1 + 1) + (e - (p1 + 1))) as nat);
        } else {
            let l1 = if src[pos] == 10 {
                line + 1
            } else {
                line
            };
            let c1 = if src[pos] == 10 {
                0 as nat
            } else {
                (col + 1) as nat
            };
            lemma_spec_comment_pos(src, p1, l1, c1);
        }
    }
}


/// One cursor step: past the byte under `pos`, with line/column bookkeeping;
/// a step at the end of the buffer does nothing.
pub open spec fn step(src: Seq<u8>, pos: int, line: nat, col: nat) -> (int, nat, nat) {
    if pos < src.len() {
        if src[pos] == 10 {
            (pos + 1, (line + 1) as nat, 0 as nat)
        } else {
            (pos + 1, line, (col + 1) as nat)
        }
    } else {
        (pos, line, col)
    }
}

/// Prepends emissions to a scan state.
pub open spec fn scan_emit(
    pre_toks: Seq<ScanToken>,
    pre_errs: Seq<ScanErr>,
    rest: ScanState,
) -> ScanState {
    ScanState {
        pos: rest.pos,
        line: rest.line,
        col: rest.col,
        toks: pre_toks + rest.toks,
        errs: pre_errs + rest.errs,
    }
}

/// The token kind of a single-character punctuation byte.
pub open spec fn punct_kind(b: u8) -> Option<ScanKind> {
    if b == 42 {
        Some(ScanKind::Asterisk)
    } else if b == 59 {
        Some(ScanKind::Semicolon)
    } else if b == 44 {
        Some(ScanKind::Comma)
    } else if b == 37 {
        Some(ScanKind::Percent)
    } else if b == 61 {
        Some(ScanKind::Equal)
    } else if b == 64 {
        Some(ScanKind::At)
    } else if b == 58 {
        Some(ScanKind::Colon)
    } else if b == 36 {
        Some(ScanKind::Dollar)
    } else if b == 63 {
        Some(ScanKind::Question)
    } else if b == 40 {
        Some(ScanKind::BraceLeft)
    } else if b == 41 {
        Some(ScanKind::BraceRight)
    } else if b == 91 {
        Some(ScanKind::BracketLeft)
    } else if b == 93 {
        Some(ScanKind::BracketRight)
    } else {
        None
    }
}

/// The whole scan, one branch per character class: what tokens and
/// diagnostics scanning the buffer from the given cursor produces, and where
/// the cursor ends. This is the scanner's functional specification; `run`
/// is proved against it.
#[verifier::opaque]
pub open spec fn spec_scan(src: Seq<u8>, pos: int, line: nat, col: nat) -> ScanState
    decreases src.len() - pos when 0 <= pos <= src.len() via spec_scan_dec
{
    if pos >= src.len() {
        ScanState { pos, line, col, toks: Seq::empty(), errs: Seq::empty() }
    } else {
        let b = src[pos];
        if b == 9 || b == 13 || b == 32 || b == 10 {
            // whitespace
            let (p2, l2, c2) = step(src, pos, line, col);
            spec_scan(src, p2, l2, c2)
        } else if b == 47 {
            // a possible block comment
            if pos + 1 < src.len() && src[pos + 1] == 42 {
                let e = blk_end(src, pos + 1);
                let lc = adv(src, pos, e, line, col);
                let (p2, l2, c2) = step(src, e, lc.0, lc.1);
                spec_scan(src, p2, l2, c2)
            } else {
                let (p2, l2, c2) = step(src, pos, line, col);
                spec_scan(src, p2, l2, c2)
            }
        } else if b == 45 {
            // a possible line comment or directive
            if pos + 1 < src.len() && src[pos + 1] == 45 {
                let cm = spec_comment(src, pos, line, col);
                let (p2, l2, c2) = step(src, cm.pos, cm.line, cm.col);
                scan_emit(cm.toks, cm.errs, spec_scan(src, p2, l2, c2))
            } else {
                let (p2, l2, c2) = step(src, pos, line, col);
                spec_scan(src, p2, l2, c2)
            }
        } else if b == 39 {
            // a string literal
            let e = str_end(src, pos + 1);
            let ce = (col + (e - pos)) as nat;
            let (p2, l2, c2) = step(src, e, line, ce);
            if e < src.len() && src[e] == 39 {
                scan_emit(
                    seq![
                        ScanToken {
                            kind: ScanKind::Str(bytes_text(src.subrange(pos + 1, e))),
                            start: col,
                            end: (ce + 1) as nat,
                            line,
                        },
                    ],
                    Seq::empty(),
                    spec_scan(src, p2, l2, c2),
                )
            } else {
                scan_emit(
                    Seq::empty(),
                    seq![
                        ScanErr {
                            line,
                            rule: Rule::UnterminatedString,
                            msg: "Unterminated String"@,
                            note: "Consider adding a \"'\" at the end of this string"@,
                            start: col,
                            end: (ce + 1) as nat,
                            has_doc: true,
                        },
                    ],
                    spec_scan(src, p2, l2, c2),
                )
            }
        } else if punct_kind(b) is Some {
            // single-character punctuation
            let (p2, l2, c2) = step(src, pos, line, col);
            scan_emit(
                seq![
                    ScanToken { kind: punct_kind(b)->Some_0, start: col, end: col, line },
                ],
                Seq::empty(),
                spec_scan(src, p2, l2, c2),
            )
        } else if (48 <= b && b <= 57) || b == 46 {
            // a number, or a lone dot marking structure access
            let dot = b == 46 && !(pos + 1 < src.len() && (src[pos + 1] == 101 || src[pos + 1]
                == 69 || src[pos + 1] == 95 || (48 <= src[pos + 1] && src[pos + 1] <= 57)));
            if dot {
                let (p2, l2, c2) = step(src, pos, line, col);
                scan_emit(
                    seq![ScanToken { kind: ScanKind::Dot, start: col, end: col, line }],
                    Seq::empty(),
                    spec_scan(src, p2, l2, c2),
                )
            } else {
                let hex = b == 48 && pos + 1 < src.len() && (src[pos + 1] == 120 || src[pos + 1]
                    == 88);
                let hstart = if hex {
                    pos + 2
                } else {
                    pos
                };
                let e = num_end(src, hstart);
                let text = strip_text(src.subrange(hstart, e));
                let c2 = (col + (e - pos)) as nat;
                let rest = spec_scan(src, e, line, c2);
                if hex {
                    match spec_parse_hex(text) {
                        Ok(v) => scan_emit(
                            seq![
                                ScanToken { kind: ScanKind::Int(v), start: col, end: c2, line },
                            ],
                            Seq::empty(),
                            rest,
                        ),
                        Err(k) => scan_emit(
                            Seq::empty(),
                            seq![
                                ScanErr {
                                    line,
                                    rule: Rule::InvalidNumericLiteral,
                                    msg: "Bad hexadecimal numeric literal: '0x"@ + text + "'"@,
                                    note: k.spec_message(),
                                    start: col,
                                    end: c2,
                                    has_doc: true,
                                },
                            ],
                            rest,
                        ),
                    }
                } else {
                    if spec_float_valid(text) {
                        scan_emit(
                            seq![
                                ScanToken {
                                    kind: ScanKind::Real(text),
                                    start: col,
                                    end: c2,
                                    line,
                                },
                            ],
                            Seq::empty(),
                            rest,
                        )
                    } else {
                        scan_emit(
                            Seq::empty(),
                            seq![
                                ScanErr {
                                    line,
                                    rule: Rule::InvalidNumericLiteral,
                                    msg: "Bad numeric literal: '"@ + text + "'"@,
                                    note: "invalid float literal"@,
                                    start: col,
                                    end: c2,
                                    has_doc: true,
                                },
                            ],
                            rest,
                        )
                    }
                }
            }
        } else if b == 88 || b == 120 {
            // a blob literal
            if !(pos + 1 < src.len() && src[pos + 1] == 39) {
                let (p2, l2, c2) = step(src, pos, line, col);
                scan_emit(
                    Seq::empty(),
                    seq![
                        ScanErr {
                            line,
                            rule: Rule::InvalidBlob,
                            msg: "Malformed blob"@,
                            note: "a Blob is hexadecimal data prefixed with X' and postfixed with '"@,
                            start: col,
                            end: col,
                            has_doc: true,
                        },
                    ],
                    spec_scan(src, p2, l2, c2),
                )
            } else {
                let e = str_end(src, pos + 2);
                let ce = (col + (e - pos)) as nat;
                let (p2, l2, c2) = step(src, e, line, ce);
                if e < src.len() && src[e] == 39 {
                    let bad = hexb_end(src, pos + 2, e);
                    if bad < e {
                        scan_emit(
                            Seq::empty(),
                            seq![
                                ScanErr {
                                    line,
                                    rule: Rule::InvalidBlob,
                                    msg: "Bad blob data"@,
                                    note: "a Blob is hexadecimal data, '"@ + seq![
                                        byte_char(src[bad]),
                                    ] + "' is not valid hex (a..=f, A..=F, 0..=9)"@,
                                    start: (col + 2 + (bad - (pos + 2))) as nat,
                                    end: (col + 2 + (bad - (pos + 2))) as nat,
                                    has_doc: true,
                                },
                            ],
                            spec_scan(src, p2, l2, c2),
                        )
                    } else {
                        scan_emit(
                            seq![
                                ScanToken {
                                    kind: ScanKind::Blob(src.subrange(pos + 2, e)),
                                    start: (col + 1) as nat,
                                    end: (col + 1 + (e - (pos + 1)) + 1) as nat,
                                    line,
                                },
                            ],
                            Seq::empty(),
                            spec_scan(src, p2, l2, c2),
                        )
                    }
                } else {
                    scan_emit(
                        Seq::empty(),
                        seq![
                            ScanErr {
                                line,
                                rule: Rule::UnterminatedString,
                                msg: "Unterminated String"@,
                                note: "Consider adding a \"'\" at the end of this string"@,
                                start: (col + 1) as nat,
                                end: (col + (e - pos) + 1) as nat,
                                has_doc: true,
                            },
                        ],
                        spec_scan(src, p2, l2, c2),
                    )
                }
            }
        } else if (97 <= b && b <= 122) || (65 <= b && b <= 90) || b == 95 {
            // an identifier or keyword
            let e = ident_end(src, pos);
            let text = bytes_text(src.subrange(pos, e));
            let kind = match Keyword::spec_from_str(text) {
                Some(k) => ScanKind::Keyword(k),
                None => if spec_upper(text) == "TRUE"@ {
                    ScanKind::Boolean(true)
                } else if spec_upper(text) == "FALSE"@ {
                    ScanKind::Boolean(false)
                } else {
                    ScanKind::Ident(text)
                },
            };
            scan_emit(
                seq![
                    ScanToken { kind, start: col, end: (col + (e - pos)) as nat, line },
                ],
                Seq::empty(),
                spec_scan(src, e, line, (col + (e - pos)) as nat),
            )
        } else {
            // an unknown character
            let (p2, l2, c2) = step(src, pos, line, col);
            scan_emit(
                Seq::empty(),
                seq![
                    ScanErr {
                        line,
                        rule: Rule::UnknownCharacter,
                        msg: "Unknown character '"@ + seq![byte_char(b)] + "'"@,
                        note: "character (ascii: "@ + spec_char_debug(byte_char(b))
                            + ", decimal: "@ + crate::text::spec_dec(b as nat) + ", hex: 0x"@
                            + spec_hex(b as nat) + ")"@,
                        start: col,
                        end: col,
                        has_doc: true,
                    },
                ],
                spec_scan(src, p2, l2, c2),
            )
        }
    }
}

#[via_fn]
proof fn spec_scan_dec(src: Seq<u8>, pos: int, line: nat, col: nat) {
    if 0 <= pos < src.len() {
        lemma_blk_end_bounds(src, pos + 1);
        lemma_spec_comment_pos(src, pos, line, col);
        lemma_str_end_bounds(src, pos + 1);
        lemma_num_end_bounds(src, pos);
        lemma_ident_end_bounds(src, pos);
        if pos + 2 <= src.len() {
            lemma_str_end_bounds(src, pos + 2);
            lemma_num_end_bounds(src, pos + 2);
        }
    }
}


/// A whitespace-only buffer scans to no tokens and no diagnostics.
pub proof fn lemma_scan_ws(src: Seq<u8>, pos: int, line: nat, col: nat)
    requires
        ws_only(src),
        0 <= pos <= src.len(),
    ensures
        spec_scan(src, pos, line, col).toks =~= Seq::<ScanToken>::empty(),
        spec_scan(src, pos, line, col).errs =~= Seq::<ScanErr>::empty(),
    decreases src.len() - pos,
{
    reveal_with_fuel(spec_scan, 1);
    if pos < src.len() {
        let (p2, l2, c2) = step(src, pos, line, col);
        lemma_scan_ws(src, p2, l2, c2);
    }
}

/// The shape of a scanner diagnostic: its anchor, rule, message, note and
/// span, and whether a documentation reference is attached.
pub open spec fn lex_err_is(
    e: Error,
    name: Seq<char>,
    line: nat,
    rule: Rule,
    msg: Seq<char>,
    note: Seq<char>,
    start: nat,
    end: nat,
    has_doc: bool,
) -> bool {
    &&& e.file@ == name
    &&& e.line == line
    &&& e.rule == rule
    &&& e.msg@ == msg
    &&& e.note@ == note
    &&& e.start == start
    &&& e.end == end
    &&& (has_doc == e.doc_url is Some)
}

/// The scanner: a cursor over the source bytes, collecting diagnostics as it
/// goes.
pub struct Lexer<'a> {
    pub pos: usize,
    pub line: usize,
    pub line_pos: usize,
    pub name: &'a str,
    pub source: &'a Vec<u8>,
    pub errors: Vec<Error>,
}

impl<'a> Lexer<'a> {
    /// The cursor is inside the buffer and the line/column bookkeeping cannot
    /// outrun it.
    pub open spec fn wf(self) -> bool {
        &&& self.pos <= self.source@.len()
        &&& self.line_pos <= self.pos
        &&& self.line <= self.pos
        &&& self.source@.len() < usize::MAX / 2 - 4
    }

    pub open spec fn spec_pos(self) -> int {
        self.pos as int
    }

    pub open spec fn spec_line(self) -> nat {
        self.line as nat
    }

    pub open spec fn spec_line_pos(self) -> nat {
        self.line_pos as nat
    }

    pub open spec fn src(self) -> Seq<u8> {
        self.source@
    }

    pub open spec fn spec_name(self) -> Seq<char> {
        self.name@
    }

    /// The scanner and the given state agree on everything but the cursor and
    /// the diagnostics.
    pub open spec fn same_buffer(self, other: Lexer<'a>) -> bool {
        self.source == other.source && self.name == other.name
    }

    /// A fresh scanner over `source`, named `name`, at the start of the
    /// buffer with no diagnostics.
    pub fn new(source: &'a Vec<u8>, name: &'a str) -> (r: Lexer<'a>)
        requires
            source@.len() < usize::MAX / 2 - 4,
        ensures
            r.wf(),
            r.spec_pos() == 0,
            r.spec_line() == 0,
            r.spec_line_pos() == 0,
            r.src() == source@,
            r.spec_name() == name@,
            r.errors@ == Seq::<Error>::empty(),
    {
        let r = Lexer { pos: 0, line: 0, line_pos: 0, name, source, errors: Vec::new() };
        assert(r.errors@ =~= Seq::<Error>::empty());
        r
    }

    /// Steps over the byte under the cursor, keeping the line and column
    /// bookkeeping; does nothing at the end of the buffer.
    fn advance(&mut self)
        requires
            old(self).wf(),
        ensures
            final(self).wf(),
            old(self).same_buffer(*final(self)),
            final(self).errors == old(self).errors,
            old(self).spec_pos() < old(self).src().len() ==> {
                &&& final(self).spec_pos() == old(self).spec_pos() + 1
                &&& (if old(self).src()[old(self).spec_pos()] == 10 {
                    &&& final(self).spec_line() == old(self).spec_line() + 1
                    &&& final(self).spec_line_pos() == 0
                } else {
                    &&& final(self).spec_line() == old(self).spec_line()
                    &&& final(self).spec_line_pos() == old(self).spec_line_pos() + 1
                })
            },
            old(self).spec_pos() == old(self).src().len() ==> *final(self) == *old(self),
    {
        if self.pos >= self.source.len() {
            return ;
        }
        if self.source[self.pos] == 10 {
            self.line = self.line + 1;
            self.line_pos = 0;
        } else {
            self.line_pos = self.line_pos + 1;
        }
        self.pos = self.pos + 1;
    }

    /// A diagnostic anchored at the current line, spanning from `start` to
    /// the current column.
    fn err(&self, msg: &str, note: &str, start: usize, rule: Rule) -> (r: Error)
        ensures
            r.file@ == self.spec_name(),
            r.line == self.line,
            r.rule == rule,
            r.note@ == note@,
            r.msg@ == msg@,
            r.start == start,
            r.end == self.line_pos,
            r.improved_line is None,
            r.doc_url is None,
    {
        Error {
            improved_line: None,
            file: self.name.to_owned(),
            line: self.line,
            rule,
            note: note.to_owned(),
            msg: msg.to_owned(),
            start,
            end: self.line_pos,
            doc_url: None,
        }
    }

    /// Whether the byte after the cursor stands for `c`.
    fn next_is(&self, c: char) -> (r: bool)
        requires
            self.wf(),
        ensures
            r == (self.spec_pos() + 1 < self.src().len() && self.src()[self.spec_pos() + 1]
                as char == c),
    {
        if self.pos < self.source.len() && self.pos + 1 < self.source.len() {
            self.source[self.pos + 1] as char == c
        } else {
            false
        }
    }

    /// Whether the byte under the cursor stands for `c`.
    fn is(&self, c: char) -> (r: bool)
        requires
            self.wf(),
        ensures
            r == (self.spec_pos() < self.src().len() && self.src()[self.spec_pos()] as char
                == c),
    {
        self.pos < self.source.len() && self.source[self.pos] as char == c
    }

    /// Whether the cursor is at the end of the buffer.
    fn is_eof(&self) -> (r: bool)
        requires
            self.wf(),
        ensures
            r == (self.spec_pos() == self.src().len()),
    {
        self.pos >= self.source.len()
    }

    /// The character the byte under the cursor stands for.
    fn cur(&self) -> (r: char)
        requires
            self.wf(),
            self.spec_pos() < self.src().len(),
        ensures
            r == self.src()[self.spec_pos()] as char,
    {
        self.source[self.pos] as char
    }

    /// A token of width zero at the cursor.
    fn single(&self, ttype: Type) -> (r: Token)
        ensures
            r == (Token {
                ttype,
                start: self.line_pos,
                end: self.line_pos,
                line: self.line,
            }),
    {
        Token { ttype, start: self.line_pos, end: self.line_pos, line: self.line }
    }

    /// Scans a string literal. The cursor stands on the opening quote; the
    /// scan runs to the first closing quote, newline or end of buffer. A
    /// closing quote yields the token (quotes stripped, cursor left on the
    /// closing quote); a newline or the end of the buffer yields the
    /// unterminated-string diagnostic with a suggested fix.
    fn string(&mut self) -> (r: Result<Token, Box<Error>>)
        requires
            old(self).wf(),
            old(self).spec_pos() < old(self).src().len(),
            old(self).src()[old(self).spec_pos()] == 39,
        ensures
            final(self).wf(),
            old(self).same_buffer(*final(self)),
            final(self).errors == old(self).errors,
            final(self).spec_pos() == str_end(old(self).src(), old(self).spec_pos() + 1),
            final(self).spec_line() == old(self).spec_line(),
            final(self).spec_line_pos() == old(self).spec_line_pos() + (final(self).spec_pos()
                - old(self).spec_pos()),
            ({
                let e = str_end(old(self).src(), old(self).spec_pos() + 1);
                (e < old(self).src().len() && old(self).src()[e] == 39) ==> {
                    &&& r matches Ok(t)
                    &&& t.ttype matches Type::String(s)
                    &&& s@ == bytes_text(old(self).src().subrange(old(self).spec_pos() + 1, e))
                    &&& t.start == old(self).spec_line_pos()
                    &&& t.end == old(self).spec_line_pos() + (e - old(self).spec_pos()) + 1
                    &&& t.line == old(self).spec_line()
                }
            }),
            ({
                let e = str_end(old(self).src(), old(self).spec_pos() + 1);
                (e == old(self).src().len() || old(self).src()[e] == 10) ==> {
                    &&& r matches Err(err)
                    &&& err.file@ == old(self).spec_name()
                    &&& err.rule == Rule::UnterminatedString
                    &&& err.msg@ == "Unterminated String"@
                    &&& err.note@ == "Consider adding a \"'\" at the end of this string"@
                    &&& err.line == old(self).spec_line()
                    &&& err.start == old(self).spec_line_pos()
                    &&& err.end == old(self).spec_line_pos() + (e - old(self).spec_pos()) + 1
                    &&& err.improved_line matches Some(il)
                    &&& il.snippet@ == "'"@
                    &&& il.start == err.end
                    &&& err.doc_url is Some
                }
            }),
            ({
                let e = str_end(old(self).src(), old(self).spec_pos() + 1);
                (r is Ok) == (e < old(self).src().len() && old(self).src()[e] == 39)
            }),
    {
        proof {
            lemma_str_end_bounds(old(self).src(), old(self).spec_pos() + 1);
        }
        let ghost e = str_end(old(self).src(), old(self).spec_pos() + 1);
        assert(self.pos < self.source.len());
        let start = self.pos;
        let line_start = self.line_pos;

        // find the first quote or newline after the opening quote
        let mut j = self.pos + 1;
        while j < self.source.len() && self.source[j] != 39 && self.source[j] != 10
            invariant
                old(self).spec_pos() + 1 <= j <= old(self).src().len(),
                self == old(self),
                str_end(old(self).src(), j as int) == e,
                forall|k: int| old(self).spec_pos() + 1 <= k < j ==> old(self).src()[k] != 39
                    && old(self).src()[k] != 10,
            decreases old(self).src().len() - j,
        {
            j = j + 1;
        }
        assert(j == e);

        // the bytes stepped over hold no newline, so the line is kept and the
        // column widens with the cursor
        proof {
            lemma_adv_mono_no_nl(
                old(self).src(),
                old(self).spec_pos(),
                e,
                old(self).spec_line(),
                old(self).spec_line_pos(),
            );
        }
        self.line_pos = self.line_pos + (j - self.pos);
        self.pos = j;
        assert(self.wf());

        if j < self.source.len() && self.source[j] == 39 {
            let text = bytes_to_string(self.source, start + 1, j);
            Ok(
                Token {
                    line: self.line,
                    ttype: Type::String(text),
                    end: line_start + (j - start) + 1,
                    start: line_start,
                },
            )
        } else {
            let mut err = self.err(
                "Unterminated String",
                "Consider adding a \"'\" at the end of this string",
                line_start,
                Rule::UnterminatedString,
            );
            assert(err.end <= self.pos);
            assert(self.pos <= self.source@.len());
            err.end = err.end + 1;
            err.doc_url = Some(
                "https://www.sqlite.org/lang_expr.html#literal_values_constants_",
            );
            err.improved_line = Some(ImprovedLine { snippet: "'", start: err.end });
            Err(Box::new(err))
        }
    }

    /// Scans a numeric literal. The cursor stands on a digit or on a dot that
    /// starts a number. An optional `0x`/`0X` prefix selects the hexadecimal
    /// path; a maximal run of numeric-capture bytes is taken, the underscore
    /// separators are dropped, and validity is decided on the captured text:
    /// the hexadecimal path parses a signed 64-bit integer, the decimal path
    /// checks the decimal-literal grammar. An invalid capture yields one
    /// diagnostic and no token.
    fn scan_number(&mut self, r: &mut Vec<Token>)
        requires
            old(self).wf(),
            old(self).spec_pos() < old(self).src().len(),
            is_num_byte(old(self).src()[old(self).spec_pos()]),
        ensures
            final(self).wf(),
            old(self).same_buffer(*final(self)),
            ({
                let src = old(self).src();
                let p = old(self).spec_pos();
                let hex = src[p] == 48 && p + 1 < src.len() && (src[p + 1] == 120 || src[p + 1]
                    == 88);
                let hstart = if hex {
                    p + 2
                } else {
                    p
                };
                let e = num_end(src, hstart);
                let text = strip_text(src.subrange(hstart, e));
                let col = old(self).spec_line_pos();
                let ln = old(self).spec_line();
                &&& final(self).spec_pos() == e
                &&& final(self).spec_line() == ln
                &&& final(self).spec_line_pos() == col + (e - p)
                &&& final(self).spec_pos() > p
                &&& (if hex {
                    match spec_parse_hex(text) {
                        Ok(v) => {
                            &&& final(self).errors == old(self).errors
                            &&& final(r)@ == old(r)@.push(
                                Token {
                                    ttype: Type::Number(NumericValue::Int(v)),
                                    start: col as usize,
                                    end: (col + (e - p)) as usize,
                                    line: ln as usize,
                                },
                            )
                        },
                        Err(k) => {
                            &&& final(r)@ == old(r)@
                            &&& final(self).errors@ == old(self).errors@.push(
                                final(self).errors@.last(),
                            )
                            &&& lex_err_is(
                                final(self).errors@.last(),
                                old(self).spec_name(),
                                ln,
                                Rule::InvalidNumericLiteral,
                                "Bad hexadecimal numeric literal: '0x"@ + text + "'"@,
                                k.spec_message(),
                                col,
                                (col + (e - p)) as nat,
                                true,
                            )
                        },
                    }
                } else {
                    if spec_float_valid(text) {
                        &&& final(self).errors == old(self).errors
                        &&& final(r)@.len() == old(r)@.len() + 1
                        &&& final(r)@.drop_last() == old(r)@
                        &&& ({
                            let t = final(r)@.last();
                            &&& t.ttype matches Type::Number(NumericValue::Real(s)) && s@
                                == text
                            &&& t.start == col
                            &&& t.end == col + (e - p)
                            &&& t.line == ln
                        })
                    } else {
                        &&& final(r)@ == old(r)@
                        &&& final(self).errors@ == old(self).errors@.push(
                            final(self).errors@.last(),
                        )
                        &&& lex_err_is(
                            final(self).errors@.last(),
                            old(self).spec_name(),
                            ln,
                            Rule::InvalidNumericLiteral,
                            "Bad numeric literal: '"@ + text + "'"@,
                            "invalid float literal"@,
                            col,
                            (col + (e - p)) as nat,
                            true,
                        )
                    }
                })
            }),
    {
        let ghost src = self.source@;
        let ghost p = self.pos as int;
        let line_start = self.line_pos;
        let startpos = self.pos;
        let hex = self.source[self.pos] == 48 && self.pos + 1 < self.source.len() && (
        self.source[self.pos + 1] == 120 || self.source[self.pos + 1] == 88);
        let hstart: usize = if hex {
            startpos + 2
        } else {
            startpos
        };
        proof {
            lemma_num_end_bounds(src, hstart as int);
        }
        let ghost e = num_end(src, hstart as int);
        let mut j = hstart;
        while j < self.source.len() && num_byte(self.source[j])
            invariant
                hstart <= j <= src.len(),
                self == old(self),
                src == self.source@,
                hstart as int == if (src[p] == 48 && p + 1 < src.len() && (src[p + 1] == 120
                    || src[p + 1] == 88)) {
                    p + 2
                } else {
                    p
                },
                p == self.pos as int,
                e == num_end(src, hstart as int),
                num_end(src, j as int) == e,
                forall|k: int| hstart <= k < j ==> is_num_byte(src[k]),
            decreases src.len() - j,
        {
            j = j + 1;
        }
        assert(j == e);
        let text = strip_underscores(self.source, hstart, j);
        proof {
            lemma_adv_mono_no_nl(
                src,
                p,
                j as int,
                old(self).spec_line(),
                old(self).spec_line_pos(),
            );
        }
        self.line_pos = self.line_pos + (j - self.pos);
        self.pos = j;
        assert(self.wf());
        if hex {
            match parse_hex_i64(text.as_str()) {
                Ok(number) => {
                    r.push(
                        Token {
                            line: self.line,
                            ttype: Type::Number(NumericValue::Int(number)),
                            start: line_start,
                            end: self.line_pos,
                        },
                    );
                },
                Err(k) => {
                    let mut msg = String::new();
                    push_str(&mut msg, "Bad hexadecimal numeric literal: '0x");
                    push_str(&mut msg, text.as_str());
                    push_str(&mut msg, "'");
                    let mut err = self.err(
                        msg.as_str(),
                        k.message(),
                        line_start,
                        Rule::InvalidNumericLiteral,
                    );
                    err.doc_url = Some("https://www.sqlite.org/syntax/numeric-literal.html");
                    self.errors.push(err);
                },
            }
        } else {
            if float_text_valid(text.as_str()) {
                r.push(
                    Token {
                        line: self.line,
                        ttype: Type::Number(NumericValue::Real(text)),
                        start: line_start,
                        end: self.line_pos,
                    },
                );
            } else {
                let mut msg = String::new();
                push_str(&mut msg, "Bad numeric literal: '");
                push_str(&mut msg, text.as_str());
                push_str(&mut msg, "'");
                let mut err = self.err(
                    msg.as_str(),
                    "invalid float literal",
                    line_start,
                    Rule::InvalidNumericLiteral,
                );
                err.doc_url = Some("https://www.sqlite.org/syntax/numeric-literal.html");
                self.errors.push(err);
            }
        }
    }

    /// Scans an identifier or keyword. The cursor stands on a letter or an
    /// underscore; the maximal identifier run is captured and looked up:
    /// a keyword-table hit yields a keyword token, a case-insensitive `true`
    /// or `false` yields a boolean token, anything else an identifier token.
    fn scan_ident(&mut self, r: &mut Vec<Token>)
        requires
            old(self).wf(),
            old(self).spec_pos() < old(self).src().len(),
            is_ident_byte(old(self).src()[old(self).spec_pos()]),
        ensures
            final(self).wf(),
            old(self).same_buffer(*final(self)),
            final(self).errors == old(self).errors,
            ({
                let src = old(self).src();
                let p = old(self).spec_pos();
                let e = ident_end(src, p);
                let text = bytes_text(src.subrange(p, e));
                let col = old(self).spec_line_pos();
                let ln = old(self).spec_line();
                &&& final(self).spec_pos() == e
                &&& final(self).spec_pos() > p
                &&& final(self).spec_line() == ln
                &&& final(self).spec_line_pos() == col + (e - p)
                &&& final(r)@.len() == old(r)@.len() + 1
                &&& final(r)@.drop_last() == old(r)@
                &&& ({
                    let t = final(r)@.last();
                    &&& t.start == col
                    &&& t.end == col + (e - p)
                    &&& t.line == ln
                    &&& (match Keyword::spec_from_str(text) {
                        Some(k) => t.ttype == Type::Keyword(k),
                        None => if spec_upper(text) == "TRUE"@ {
                            t.ttype == Type::Boolean(true)
                        } else if spec_upper(text) == "FALSE"@ {
                            t.ttype == Type::Boolean(false)
                        } else {
                            t.ttype matches Type::Ident(s) && s@ == text
                        },
                    })
                })
            }),
    {
        let ghost src = self.source@;
        let ghost p = self.pos as int;
        let line_start = self.line_pos;
        let startpos = self.pos;
        proof {
            lemma_ident_end_bounds(src, p);
        }
        let ghost e = ident_end(src, p);
        let mut j = startpos;
        while j < self.source.len() && ident_byte(self.source[j])
            invariant
                startpos <= j <= src.len(),
                self == old(self),
                src == self.source@,
                p == self.pos as int,
                startpos as int == p,
                e == ident_end(src, p),
                ident_end(src, j as int) == e,
                forall|k: int| p <= k < j ==> is_ident_byte(src[k]),
            decreases src.len() - j,
        {
            j = j + 1;
        }
        assert(j == e);
        let text = bytes_to_string(self.source, startpos, j);
        proof {
            lemma_adv_mono_no_nl(
                src,
                p,
                j as int,
                old(self).spec_line(),
                old(self).spec_line_pos(),
            );
        }
        self.line_pos = self.line_pos + (j - self.pos);
        self.pos = j;
        assert(self.wf());
        let t: Type = match Keyword::from_str(text.as_str()) {
            Some(keyword) => Type::Keyword(keyword),
            None => {
                let upper = upper_string(text.as_str());
                if str_eq(upper.as_str(), "TRUE") {
                    Type::Boolean(true)
                } else if str_eq(upper.as_str(), "FALSE") {
                    Type::Boolean(false)
                } else {
                    Type::Ident(text)
                }
            },
        };
        r.push(Token { line: self.line, ttype: t, start: line_start, end: self.line_pos });
    }

    /// Scans a blob literal or reports a malformed one. The cursor stands on
    /// `X` or `x`: without a following quote this is one malformed-blob
    /// diagnostic and the cursor does not move; with one, the string scanner
    /// takes the quoted payload, every payload byte must be a hexadecimal
    /// digit, and the first that is not yields a diagnostic pointing at it;
    /// scanning resumes after the offending literal either way. An
    /// unterminated payload yields the string scanner's own
    /// unterminated-string diagnostic.
    fn scan_blob(&mut self, r: &mut Vec<Token>)
        requires
            old(self).wf(),
            old(self).spec_pos() < old(self).src().len(),
            old(self).src()[old(self).spec_pos()] == 88 || old(self).src()[old(self).spec_pos()]
                == 120,
        ensures
            final(self).wf(),
            old(self).same_buffer(*final(self)),
            final(self).spec_line() == old(self).spec_line(),
            final(self).spec_pos() >= old(self).spec_pos(),
            old(self).errors@.is_prefix_of(final(self).errors@),
            ({
                let src = old(self).src();
                let p = old(self).spec_pos();
                let col = old(self).spec_line_pos();
                let ln = old(self).spec_line();
                if !(p + 1 < src.len() && src[p + 1] == 39) {
                    &&& final(r)@ == old(r)@
                    &&& final(self).spec_pos() == p
                    &&& final(self).spec_line_pos() == col
                    &&& final(self).errors@ == old(self).errors@.push(
                        final(self).errors@.last(),
                    )
                    &&& lex_err_is(
                        final(self).errors@.last(),
                        old(self).spec_name(),
                        ln,
                        Rule::InvalidBlob,
                        "Malformed blob"@,
                        "a Blob is hexadecimal data prefixed with X' and postfixed with '"@,
                        col,
                        col,
                        true,
                    )
                } else {
                    let e = str_end(src, p + 2);
                    let terminated = e < src.len() && src[e] == 39;
                    let bad = hexb_end(src, p + 2, e);
                    &&& final(self).spec_pos() == e
                    &&& final(self).spec_line_pos() == col + (e - p)
                    &&& (if !terminated {
                        // the string scanner's own diagnostic is kept
                        &&& final(r)@ == old(r)@
                        &&& final(self).errors@ == old(self).errors@.push(
                            final(self).errors@.last(),
                        )
                        &&& lex_err_is(
                            final(self).errors@.last(),
                            old(self).spec_name(),
                            ln,
                            Rule::UnterminatedString,
                            "Unterminated String"@,
                            "Consider adding a \"'\" at the end of this string"@,
                            (col + 1) as nat,
                            (col + (e - p) + 1) as nat,
                            true,
                        )
                    } else if bad < e {
                        &&& final(r)@ == old(r)@
                        &&& final(self).errors@ == old(self).errors@.push(
                            final(self).errors@.last(),
                        )
                        &&& lex_err_is(
                            final(self).errors@.last(),
                            old(self).spec_name(),
                            ln,
                            Rule::InvalidBlob,
                            "Bad blob data"@,
                            "a Blob is hexadecimal data, '"@ + seq![byte_char(src[bad])]
                                + "' is not valid hex (a..=f, A..=F, 0..=9)"@,
                            (col + 2 + (bad - (p + 2))) as nat,
                            (col + 2 + (bad - (p + 2))) as nat,
                            true,
                        )
                    } else {
                        &&& final(self).errors == old(self).errors
                        &&& final(r)@.len() == old(r)@.len() + 1
                        &&& final(r)@.drop_last() == old(r)@
                        &&& ({
                            let t = final(r)@.last();
                            &&& t.ttype matches Type::Blob(b) && b@ == src.subrange(p + 2, e)
                            &&& t.start == col + 1
                            &&& t.end == col + 1 + (e - (p + 1)) + 1
                            &&& t.line == ln
                        })
                    })
                }
            }),
    {
        let ghost src = self.source@;
        let ghost p = self.pos as int;
        let line_start = self.line_pos;
        if !(self.pos + 1 < self.source.len() && self.source[self.pos + 1] == 39) {
            let mut err = self.err(
                "Malformed blob",
                "a Blob is hexadecimal data prefixed with X' and postfixed with '",
                self.line_pos,
                Rule::InvalidBlob,
            );
            err.doc_url = Some("https://www.sqlite.org/lang_expr.html#literal_values_constants_");
            self.errors.push(err);
            return ;
        }
        // step over the X onto the opening quote
        self.advance();
        proof {
            lemma_adv_mono_no_nl(
                src,
                p,
                p + 1,
                old(self).spec_line(),
                old(self).spec_line_pos(),
            );
        }
        let qpos = self.pos;
        proof {
            lemma_str_end_bounds(src, p + 2);
            lemma_hexb_end_bounds(src, p + 2, str_end(src, p + 2));
        }
        match self.string() {
            Ok(str_tok) => {
                let ghost e = str_end(src, p + 2);
                // validate the payload: every byte must be a hexadecimal digit
                let mut k = qpos + 1;
                while k < self.pos && hex_byte(self.source[k])
                    invariant
                        qpos + 1 <= k <= self.pos,
                        qpos == p + 1,
                        self.pos == e,
                        src == self.source@,
                        self.wf(),
                        e <= src.len(),
                        hexb_end(src, p + 2, e) == hexb_end(src, k as int, e),
                        forall|m: int| p + 2 <= m < k ==> is_hex_byte(src[m]),
                    decreases e - k,
                {
                    k = k + 1;
                }
                assert(k == hexb_end(src, p + 2, e));
                if k < self.pos {
                    let ghost badp = hexb_end(src, p + 2, e);
                    let c = self.source[k] as char;
                    let mut note = String::new();
                    push_str(&mut note, "a Blob is hexadecimal data, '");
                    push_char(&mut note, c);
                    push_str(&mut note, "' is not valid hex (a..=f, A..=F, 0..=9)");
                    let idx = k - (qpos + 1);
                    let mut err = self.err(
                        "Bad blob data",
                        note.as_str(),
                        line_start + 2 + idx,
                        Rule::InvalidBlob,
                    );
                    err.end = line_start + 2 + idx;
                    err.doc_url = Some(
                        "https://www.sqlite.org/lang_expr.html#literal_values_constants_",
                    );
                    assert(note@ =~= "a Blob is hexadecimal data, '"@ + seq![byte_char(src[badp])]
                        + "' is not valid hex (a..=f, A..=F, 0..=9)"@);
                    self.errors.push(err);
                    return ;
                }
                let payload = bytes_slice_vec(self.source, qpos + 1, self.pos);
                r.push(
                    Token {
                        line: self.line,
                        ttype: Type::Blob(payload),
                        start: str_tok.start,
                        end: str_tok.end,
                    },
                );
                assert(r@.drop_last() =~= old(r)@);
            },
            Err(err) => {
                self.errors.push(*err);
            },
        }
    }

    /// Steps the cursor forward to `j`, keeping the line and column
    /// bookkeeping over every byte in between.
    fn advance_to(&mut self, j: usize)
        requires
            old(self).wf(),
            old(self).spec_pos() <= j <= old(self).src().len(),
        ensures
            final(self).wf(),
            old(self).same_buffer(*final(self)),
            final(self).errors == old(self).errors,
            final(self).spec_pos() == j,
            (final(self).spec_line(), final(self).spec_line_pos()) == adv(
                old(self).src(),
                old(self).spec_pos(),
                j as int,
                old(self).spec_line(),
                old(self).spec_line_pos(),
            ),
    {
        let ghost p0 = old(self).spec_pos();
        let ghost l0 = old(self).spec_line();
        let ghost c0 = old(self).spec_line_pos();
        let ghost src = old(self).src();
        while self.pos < j
            invariant
                self.wf(),
                old(self).same_buffer(*self),
                self.errors == old(self).errors,
                src == self.source@,
                p0 <= self.pos as int <= j as int,
                j <= src.len(),
                (self.spec_line(), self.spec_line_pos()) == adv(
                    src,
                    p0,
                    self.pos as int,
                    l0,
                    c0,
                ),
            decreases j - self.pos,
        {
            proof {
                lemma_adv_snoc(src, p0, self.pos as int, l0, c0);
            }
            self.advance();
        }
    }

    /// Skips a block comment: the cursor stands on the opening slash and is
    /// moved to the start of the first closing `*/` pair, or to the end of
    /// the buffer when the comment is never closed (no diagnostic: a known
    /// loose edge).
    fn skip_block_comment(&mut self)
        requires
            old(self).wf(),
            old(self).spec_pos() < old(self).src().len(),
        ensures
            final(self).wf(),
            old(self).same_buffer(*final(self)),
            final(self).errors == old(self).errors,
            final(self).spec_pos() == blk_end(old(self).src(), old(self).spec_pos() + 1),
            final(self).spec_pos() > old(self).spec_pos(),
            (final(self).spec_line(), final(self).spec_line_pos()) == adv(
                old(self).src(),
                old(self).spec_pos(),
                final(self).spec_pos(),
                old(self).spec_line(),
                old(self).spec_line_pos(),
            ),
    {
        let ghost src = self.source@;
        let ghost p = self.pos as int;
        proof {
            lemma_blk_end_bounds(src, p + 1);
        }
        let ghost e = blk_end(src, p + 1);
        let mut j = self.pos + 1;
        while !(j >= self.source.len() || (self.source[j] == 42 && j + 1 < self.source.len()
            && self.source[j + 1] == 47))
            invariant
                p + 1 <= j as int <= src.len(),
                self == old(self),
                src == self.source@,
                e == blk_end(src, p + 1),
                blk_end(src, j as int) == e,
            decreases src.len() - j,
        {
            j = j + 1;
        }
        assert(j == e);
        self.advance_to(j);
    }

    /// Scans a line comment, exactly per [`spec_comment`]: everything up to
    /// the next newline or the end of the buffer is skipped, except that each
    /// `@` inside it starts an inline directive: the word after it, up to the
    /// next whitespace, is read; the recognized directive name yields the
    /// instruction token, any other word one bad-directive diagnostic. A word
    /// stopped by the newline itself leaves the cursor past it, so the walk
    /// runs on into the following line: a faithful oddity of the directive
    /// grammar.
    fn scan_line_comment(&mut self, r: &mut Vec<Token>)
        requires
            old(self).wf(),
            old(self).spec_pos() < old(self).src().len(),
            old(self).src()[old(self).spec_pos()] != 10,
        ensures
            final(self).wf(),
            old(self).same_buffer(*final(self)),
            final(self).spec_pos() > old(self).spec_pos(),
            final(self).spec_pos() <= final(self).src().len(),
            final(self).spec_pos() == final(self).src().len() || final(self).src()[final(self).spec_pos()] == 10,
            old(self).errors@.is_prefix_of(final(self).errors@),
            old(r)@.is_prefix_of(final(r)@),
            ({
                let st = spec_comment(
                    old(self).src(),
                    old(self).spec_pos(),
                    old(self).spec_line(),
                    old(self).spec_line_pos(),
                );
                &&& final(self).spec_pos() == st.pos
                &&& final(self).spec_line() == st.line
                &&& final(self).spec_line_pos() == st.col
                &&& token_models(final(r)@) == token_models(old(r)@) + st.toks
                &&& err_models(final(self).errors@) == err_models(old(self).errors@) + st.errs
                &&& forall|i: int|
                    old(self).errors@.len() <= i < final(self).errors@.len() ==> final(self).errors@[i].file@ == old(self).spec_name()
            }),
    {
        let ghost p0 = old(self).spec_pos();
        let ghost src = old(self).src();
        let ghost e0 = old(self).errors@;
        let ghost r0 = old(r)@;
        let ghost st0 = spec_comment(src, p0, old(self).spec_line(), old(self).spec_line_pos());
        while !self.is_eof()
            invariant_except_break
                ({
                    let cst = spec_comment(
                        src,
                        self.pos as int,
                        self.spec_line(),
                        self.spec_line_pos(),
                    );
                    &&& st0.pos == cst.pos
                    &&& st0.line == cst.line
                    &&& st0.col == cst.col
                    &&& token_models(r0) + st0.toks == token_models(r@) + cst.toks
                    &&& err_models(e0) + st0.errs == err_models(self.errors@) + cst.errs
                }),
            invariant
                self.wf(),
                old(self).same_buffer(*self),
                src == self.source@,
                p0 <= self.pos as int,
                e0.is_prefix_of(self.errors@),
                r0.is_prefix_of(r@),
                forall|i: int|
                    e0.len() <= i < self.errors@.len() ==> self.errors@[i].file@ == old(self).spec_name(),
                self.pos as int == p0 ==> self.pos < self.source.len() && src[p0] != 10,
                self.pos as int >= src.len() ==> (st0.pos == self.pos as int && st0.line
                    == self.spec_line() && st0.col == self.spec_line_pos() && token_models(r0)
                    + st0.toks == token_models(r@) && err_models(e0) + st0.errs == err_models(
                    self.errors@,
                )),
            ensures
                self.wf(),
                old(self).same_buffer(*self),
                src == self.source@,
                e0.is_prefix_of(self.errors@),
                r0.is_prefix_of(r@),
                forall|i: int|
                    e0.len() <= i < self.errors@.len() ==> self.errors@[i].file@ == old(self).spec_name(),
                self.pos as int > p0,
                self.pos as int == self.source@.len() || self.source@[self.pos as int] == 10,
                st0.pos == self.pos as int,
                st0.line == self.spec_line(),
                st0.col == self.spec_line_pos(),
                token_models(r0) + st0.toks == token_models(r@),
                err_models(e0) + st0.errs == err_models(self.errors@),
            decreases self.source@.len() - self.pos,
        {
            let ghost ppos = self.pos as int;
            let ghost pline = self.spec_line();
            let ghost pcol = self.spec_line_pos();
            let ghost cst = spec_comment(src, ppos, pline, pcol);
            self.advance();
            if self.is('\n') {
                proof {
                    assert(cst == ScanState {
                        pos: self.pos as int,
                        line: self.spec_line(),
                        col: self.spec_line_pos(),
                        toks: Seq::<ScanToken>::empty(),
                        errs: Seq::<ScanErr>::empty(),
                    }) by {
                        reveal_with_fuel(spec_comment, 1);
                    }
                    assert(token_models(r0) + st0.toks =~= token_models(r@));
                    assert(err_models(e0) + st0.errs =~= err_models(self.errors@));
                }
                break ;
            } else if self.is('@') {
                let ghost es = self.errors@;
                let ghost rs = r@;
                // an inline directive: skip the marker and read the word
                self.advance();
                let wstart = self.pos;
                let iline_start = self.line_pos;
                let ghost l2 = self.spec_line();
                let ghost c2 = self.spec_line_pos();
                proof {
                    lemma_ws_end_bounds(src, wstart as int);
                }
                let ghost we = ws_end(src, wstart as int);
                while self.pos < self.source.len() && !ws_byte(self.source[self.pos])
                    invariant
                        self.wf(),
                        old(self).same_buffer(*self),
                        src == self.source@,
                        wstart <= self.pos,
                        p0 < self.pos as int,
                        self.errors@ == es,
                        r@ == rs,
                        we == ws_end(src, wstart as int),
                        ws_end(src, self.pos as int) == we,
                        forall|k: int| wstart <= k < self.pos ==> !is_ws_byte(src[k]),
                        self.spec_line() == l2,
                        self.spec_line_pos() == c2 + (self.pos - wstart),
                    decreases self.source@.len() - self.pos,
                {
                    assert(src[self.pos as int] != 10);
                    self.advance();
                }
                assert(self.pos as int == we);
                let word = bytes_to_string(self.source, wstart, self.pos);
                let ghost wordv = bytes_text(src.subrange(wstart as int, we));
                if str_eq(word.as_str(), "sqleibniz::expect") {
                    let t = self.single(Type::InstructionExpect);
                    proof {
                        lemma_token_models_push(r@, t);
                    }
                    r.push(t);
                } else {
                    let mut note = String::new();
                    push_str(&mut note, word.as_str());
                    push_str(&mut note, " is not a valid sqleibniz instruction");
                    let mut err = self.err(
                        "Unknown sqleibniz instruction",
                        note.as_str(),
                        iline_start,
                        Rule::BadSqleibnizInstruction,
                    );
                    err.end = self.line_pos;
                    proof {
                        lemma_err_models_push(self.errors@, err);
                    }
                    self.errors.push(err);
                }
                proof {
                    let cw = (c2 + (we - wstart)) as nat;
                    let rest = spec_comment(src, we, l2, cw);
                    assert(cst.pos == rest.pos && cst.line == rest.line && cst.col
                        == rest.col) by {
                        reveal_with_fuel(spec_comment, 1);
                    }
                    let maybe_tok = if wordv == "sqleibniz::expect"@ {
                        seq![
                            ScanToken {
                                kind: ScanKind::InstructionExpect,
                                start: cw,
                                end: cw,
                                line: l2,
                            },
                        ]
                    } else {
                        Seq::<ScanToken>::empty()
                    };
                    assert(cst.toks =~= maybe_tok + rest.toks) by {
                        reveal_with_fuel(spec_comment, 1);
                    }
                    assert(token_models(r@) =~= token_models(rs) + maybe_tok);
                    assert(token_models(r0) + st0.toks =~= token_models(r@) + rest.toks);
                    let maybe_err = if !(wordv == "sqleibniz::expect"@) {
                        seq![
                            ScanErr {
                                line: l2,
                                rule: Rule::BadSqleibnizInstruction,
                                msg: "Unknown sqleibniz instruction"@,
                                note: wordv + " is not a valid sqleibniz instruction"@,
                                start: c2,
                                end: cw,
                                has_doc: false,
                            },
                        ]
                    } else {
                        Seq::<ScanErr>::empty()
                    };
                    assert(cst.errs =~= maybe_err + rest.errs) by {
                        reveal_with_fuel(spec_comment, 1);
                    }
                    assert(err_models(self.errors@) =~= err_models(es) + maybe_err);
                    assert(err_models(e0) + st0.errs =~= err_models(self.errors@) + rest.errs);
                    if self.pos as int >= src.len() {
                        assert(rest == ScanState {
                            pos: self.pos as int,
                            line: self.spec_line(),
                            col: self.spec_line_pos(),
                            toks: Seq::<ScanToken>::empty(),
                            errs: Seq::<ScanErr>::empty(),
                        }) by {
                            reveal_with_fuel(spec_comment, 1);
                        }
                        assert(token_models(r0) + st0.toks =~= token_models(r@));
                        assert(err_models(e0) + st0.errs =~= err_models(self.errors@));
                    }
                }
            } else {
                proof {
                    assert(cst == spec_comment(
                        src,
                        self.pos as int,
                        self.spec_line(),
                        self.spec_line_pos(),
                    )) by {
                        reveal_with_fuel(spec_comment, 1);
                    }
                    if self.pos as int >= src.len() {
                        assert(cst == ScanState {
                            pos: self.pos as int,
                            line: self.spec_line(),
                            col: self.spec_line_pos(),
                            toks: Seq::<ScanToken>::empty(),
                            errs: Seq::<ScanErr>::empty(),
                        }) by {
                            reveal_with_fuel(spec_comment, 1);
                        }
                        assert(token_models(r0) + st0.toks =~= token_models(r@));
                        assert(err_models(e0) + st0.errs =~= err_models(self.errors@));
                    }
                }
            }
        }
    }

    /// Scans the whole buffer into a token sequence, accumulating one
    /// diagnostic per defect, exactly per [`spec_scan`]. An empty buffer
    /// yields exactly one no-content diagnostic and no tokens; a buffer that
    /// yields neither tokens nor diagnostics (whitespace, or only comments)
    /// yields exactly one no-statements diagnostic anchored at the top of the
    /// buffer; whenever no token comes back, at least one diagnostic does.
    #[verifier::rlimit(100)]
    #[verifier::spinoff_prover]
    pub fn run(&mut self) -> (r: Vec<Token>)
        requires
            old(self).wf(),
        ensures
            final(self).wf(),
            old(self).same_buffer(*final(self)),
            old(self).errors@.is_prefix_of(final(self).errors@),
            old(self).src().len() == 0 ==> {
                &&& r@.len() == 0
                &&& final(self).errors@ == old(self).errors@.push(final(self).errors@.last())
                &&& lex_err_is(
                    final(self).errors@.last(),
                    old(self).spec_name(),
                    old(self).spec_line(),
                    Rule::NoContent,
                    "No content found in source file"@,
                    "consider adding statements to '"@ + old(self).spec_name() + "'"@,
                    0,
                    old(self).spec_line_pos(),
                    false,
                )
            },
            old(self).src().len() > 0 ==> ({
                let st = spec_scan(
                    old(self).src(),
                    old(self).spec_pos(),
                    old(self).spec_line(),
                    old(self).spec_line_pos(),
                );
                &&& final(self).spec_pos() == st.pos
                &&& final(self).spec_line() == st.line
                &&& final(self).spec_line_pos() == st.col
                &&& token_models(r@) == st.toks
                &&& err_models(final(self).errors@) == err_models(old(self).errors@) + st.errs
                    + (if st.toks.len() == 0 && st.errs.len() == 0 && old(self).errors@.len()
                    == 0 {
                    seq![
                        ScanErr {
                            line: 0,
                            rule: Rule::NoStatements,
                            msg: "No statements found in source file"@,
                            note: "consider adding statements to '"@ + old(self).spec_name()
                                + "'"@,
                            start: 0,
                            end: 0,
                            has_doc: false,
                        },
                    ]
                } else {
                    Seq::<ScanErr>::empty()
                })
            }),
            (old(self).spec_pos() == 0 && old(self).errors@.len() == 0 && old(
                self,
            ).src().len() > 0 && ws_only(old(self).src())) ==> {
                &&& r@.len() == 0
                &&& final(self).errors@.len() == 1
                &&& lex_err_is(
                    final(self).errors@.last(),
                    old(self).spec_name(),
                    0,
                    Rule::NoStatements,
                    "No statements found in source file"@,
                    "consider adding statements to '"@ + old(self).spec_name() + "'"@,
                    0,
                    0,
                    false,
                )
            },
            (old(self).errors@.len() == 0 && r@.len() == 0) ==> final(self).errors@.len() >= 1,
    {
        let ghost src = old(self).src();
        let ghost e0 = old(self).errors@;
        let ghost st0 = spec_scan(
            src,
            old(self).spec_pos(),
            old(self).spec_line(),
            old(self).spec_line_pos(),
        );
        let mut r: Vec<Token> = Vec::new();
        if self.source.len() == 0 {
            let mut note = String::new();
            push_str(&mut note, "consider adding statements to '");
            push_str(&mut note, self.name);
            push_str(&mut note, "'");
            let err = self.err("No content found in source file", note.as_str(), 0, Rule::NoContent);
            self.errors.push(err);
            return r;
        }
        proof {
            assert(token_models(r@) =~= Seq::<ScanToken>::empty());
            assert(st0.toks =~= token_models(r@) + st0.toks);
            assert(err_models(e0) + st0.errs =~= err_models(self.errors@) + st0.errs);
        }
        while !self.is_eof()
            invariant
                self.wf(),
                old(self).same_buffer(*self),
                src == self.source@,
                src.len() > 0,
                e0.is_prefix_of(self.errors@),
                ({
                    let cst = spec_scan(
                        src,
                        self.pos as int,
                        self.spec_line(),
                        self.spec_line_pos(),
                    );
                    &&& st0.pos == cst.pos
                    &&& st0.line == cst.line
                    &&& st0.col == cst.col
                    &&& st0.toks == token_models(r@) + cst.toks
                    &&& err_models(e0) + st0.errs == err_models(self.errors@) + cst.errs
                }),
            decreases self.source@.len() - self.pos,
        {
            let ghost ppos = self.pos as int;
            let ghost pline = self.spec_line();
            let ghost pcol = self.spec_line_pos();
            let ghost cstpre = spec_scan(src, ppos, pline, pcol);
            let ghost rs = r@;
            let ghost es = self.errors@;
            let b = self.source[self.pos];
            if b == 9 || b == 13 || b == 32 || b == 10 {
                // whitespace
                self.advance();
                proof {
                    let rest = spec_scan(src, self.pos as int, self.spec_line(), self.spec_line_pos());
                    assert(cstpre.pos == rest.pos && cstpre.line == rest.line
                        && cstpre.col == rest.col) by {
                        reveal_with_fuel(spec_scan, 1);
                    }
                    assert(cstpre == rest) by {
                        reveal_with_fuel(spec_scan, 1);
                    }
                }
            } else if b == 47 {
                // a possible block comment
                if self.next_is('*') {
                    self.skip_block_comment();
                }
                self.advance();
                proof {
                    let rest = spec_scan(src, self.pos as int, self.spec_line(), self.spec_line_pos());
                    assert(cstpre.pos == rest.pos && cstpre.line == rest.line
                        && cstpre.col == rest.col) by {
                        reveal_with_fuel(spec_scan, 1);
                    }
                    assert(cstpre == rest) by {
                        reveal_with_fuel(spec_scan, 1);
                    }
                }
            } else if b == 45 {
                // a possible line comment or directive
                if self.next_is('-') {
                    self.scan_line_comment(&mut r);
                    self.advance();
                    proof {
                        let rest = spec_scan(src, self.pos as int, self.spec_line(), self.spec_line_pos());
                    assert(cstpre.pos == rest.pos && cstpre.line == rest.line
                        && cstpre.col == rest.col) by {
                        reveal_with_fuel(spec_scan, 1);
                    }
                        let cm = spec_comment(src, ppos, pline, pcol);
                        assert(cstpre.pos == rest.pos && cstpre.line == rest.line && cstpre.col
                            == rest.col) by {
                        reveal_with_fuel(spec_scan, 1);
                    }
                        assert(cstpre.toks =~= cm.toks + rest.toks) by {
                        reveal_with_fuel(spec_scan, 1);
                    }
                        assert(cstpre.errs =~= cm.errs + rest.errs) by {
                        reveal_with_fuel(spec_scan, 1);
                    }
                        assert(st0.toks =~= token_models(r@) + rest.toks);
                        assert(err_models(e0) + st0.errs =~= err_models(self.errors@)
                            + rest.errs);
                    }
                } else {
                    self.advance();
                    proof {
                        let rest = spec_scan(src, self.pos as int, self.spec_line(), self.spec_line_pos());
                    assert(cstpre.pos == rest.pos && cstpre.line == rest.line
                        && cstpre.col == rest.col) by {
                        reveal_with_fuel(spec_scan, 1);
                    }
                        assert(cstpre == rest) by {
                        reveal_with_fuel(spec_scan, 1);
                    }
                    }
                }
            } else if b == 39 {
                proof {
                    lemma_str_end_bounds(src, self.pos as int + 1);
                }
                match self.string() {
                    Ok(str_tok) => {
                        proof {
                            lemma_token_models_push(r@, str_tok);
                        }
                        r.push(str_tok);
                    },
                    Err(err) => {
                        proof {
                            lemma_err_models_push(self.errors@, *err);
                        }
                        self.errors.push(*err);
                    },
                }
                self.advance();
                proof {
                    let rest = spec_scan(src, self.pos as int, self.spec_line(), self.spec_line_pos());
                    assert(cstpre.pos == rest.pos && cstpre.line == rest.line
                        && cstpre.col == rest.col) by {
                        reveal_with_fuel(spec_scan, 1);
                    }
                    let e = str_end(src, ppos + 1);
                    if e < src.len() && src[e] == 39 {
                        assert(cstpre.toks =~= seq![
                            ScanToken {
                                kind: ScanKind::Str(bytes_text(src.subrange(ppos + 1, e))),
                                start: pcol,
                                end: (pcol + (e - ppos) + 1) as nat,
                                line: pline,
                            },
                        ] + rest.toks) by {
                        reveal_with_fuel(spec_scan, 1);
                    }
                        assert(cstpre.errs =~= rest.errs) by {
                        reveal_with_fuel(spec_scan, 1);
                    }
                    } else {
                        assert(cstpre.toks =~= rest.toks) by {
                        reveal_with_fuel(spec_scan, 1);
                    }
                        assert(cstpre.errs =~= seq![
                            ScanErr {
                                line: pline,
                                rule: Rule::UnterminatedString,
                                msg: "Unterminated String"@,
                                note: "Consider adding a \"'\" at the end of this string"@,
                                start: pcol,
                                end: (pcol + (e - ppos) + 1) as nat,
                                has_doc: true,
                            },
                        ] + rest.errs) by {
                        reveal_with_fuel(spec_scan, 1);
                    }
                    }
                    assert(st0.toks =~= token_models(r@) + rest.toks);
                    assert(err_models(e0) + st0.errs =~= err_models(self.errors@) + rest.errs);
                }
            } else if b == 42 || b == 59 || b == 44 || b == 37 || b == 61 || b == 64 || b == 58
                || b == 36 || b == 63 || b == 40 || b == 41 || b == 91 || b == 93 {
                let t = self.single(
                    if b == 42 {
                        Type::Asterisk
                    } else if b == 59 {
                        Type::Semicolon
                    } else if b == 44 {
                        Type::Comma
                    } else if b == 37 {
                        Type::Percent
                    } else if b == 61 {
                        Type::Equal
                    } else if b == 64 {
                        Type::At
                    } else if b == 58 {
                        Type::Colon
                    } else if b == 36 {
                        Type::Dollar
                    } else if b == 63 {
                        Type::Question
                    } else if b == 40 {
                        Type::BraceLeft
                    } else if b == 41 {
                        Type::BraceRight
                    } else if b == 91 {
                        Type::BracketLeft
                    } else {
                        Type::BracketRight
                    },
                );
                proof {
                    lemma_token_models_push(r@, t);
                }
                r.push(t);
                self.advance();
                proof {
                    let rest = spec_scan(src, self.pos as int, self.spec_line(), self.spec_line_pos());
                    assert(cstpre.pos == rest.pos && cstpre.line == rest.line
                        && cstpre.col == rest.col) by {
                        reveal_with_fuel(spec_scan, 1);
                    }
                    assert(cstpre.toks =~= seq![
                        ScanToken {
                            kind: punct_kind(b)->Some_0,
                            start: pcol,
                            end: pcol,
                            line: pline,
                        },
                    ] + rest.toks) by {
                        reveal_with_fuel(spec_scan, 1);
                    }
                    assert(cstpre.errs =~= rest.errs) by {
                        reveal_with_fuel(spec_scan, 1);
                    }
                    assert(st0.toks =~= token_models(r@) + rest.toks);
                    assert(err_models(e0) + st0.errs =~= err_models(self.errors@) + rest.errs);
                }
            } else if (48 <= b && b <= 57) || b == 46 {
                // a number, or a lone dot marking structure access
                let dot_token = b == 46 && !(self.pos + 1 < self.source.len() && {
                    let nb = self.source[self.pos + 1];
                    nb == 101 || nb == 69 || nb == 95 || (48 <= nb && nb <= 57)
                });
                if dot_token {
                    let t = self.single(Type::Dot);
                    proof {
                        lemma_token_models_push(r@, t);
                    }
                    r.push(t);
                    self.advance();
                    proof {
                        let rest = spec_scan(src, self.pos as int, self.spec_line(), self.spec_line_pos());
                    assert(cstpre.pos == rest.pos && cstpre.line == rest.line
                        && cstpre.col == rest.col) by {
                        reveal_with_fuel(spec_scan, 1);
                    }
                        assert(cstpre.toks =~= seq![
                            ScanToken { kind: ScanKind::Dot, start: pcol, end: pcol, line: pline },
                        ] + rest.toks) by {
                        reveal_with_fuel(spec_scan, 1);
                    }
                        assert(cstpre.errs =~= rest.errs) by {
                        reveal_with_fuel(spec_scan, 1);
                    }
                        assert(st0.toks =~= token_models(r@) + rest.toks);
                        assert(err_models(e0) + st0.errs =~= err_models(self.errors@)
                            + rest.errs);
                    }
                    continue ;
                }
                self.scan_number(&mut r);
                proof {
                    let rest = spec_scan(src, self.pos as int, self.spec_line(), self.spec_line_pos());
                    assert(cstpre.pos == rest.pos && cstpre.line == rest.line
                        && cstpre.col == rest.col) by {
                        reveal_with_fuel(spec_scan, 1);
                    }
                    let hex = src[ppos] == 48 && ppos + 1 < src.len() && (src[ppos + 1] == 120
                        || src[ppos + 1] == 88);
                    let hstart = if hex {
                        ppos + 2
                    } else {
                        ppos
                    };
                    let e = num_end(src, hstart);
                    let text = strip_text(src.subrange(hstart, e));
                    let c2 = (pcol + (e - ppos)) as nat;
                    if hex {
                        match spec_parse_hex(text) {
                            Ok(v) => {
                                assert(cstpre.toks =~= seq![
                                    ScanToken {
                                        kind: ScanKind::Int(v),
                                        start: pcol,
                                        end: c2,
                                        line: pline,
                                    },
                                ] + rest.toks) by {
                        reveal_with_fuel(spec_scan, 1);
                    }
                                assert(cstpre.errs =~= rest.errs) by {
                        reveal_with_fuel(spec_scan, 1);
                    }
                                assert(token_models(r@) =~= token_models(rs).push(
                                    model_token(r@.last()),
                                ));
                            },
                            Err(k) => {
                                assert(cstpre.toks =~= rest.toks) by {
                        reveal_with_fuel(spec_scan, 1);
                    }
                                assert(cstpre.errs =~= seq![
                                    ScanErr {
                                        line: pline,
                                        rule: Rule::InvalidNumericLiteral,
                                        msg: "Bad hexadecimal numeric literal: '0x"@ + text
                                            + "'"@,
                                        note: k.spec_message(),
                                        start: pcol,
                                        end: c2,
                                        has_doc: true,
                                    },
                                ] + rest.errs) by {
                        reveal_with_fuel(spec_scan, 1);
                    }
                                assert(err_models(self.errors@) =~= err_models(es).push(
                                    model_err(self.errors@.last()),
                                ));
                            },
                        }
                    } else {
                        if spec_float_valid(text) {
                            assert(cstpre.toks =~= seq![
                                ScanToken {
                                    kind: ScanKind::Real(text),
                                    start: pcol,
                                    end: c2,
                                    line: pline,
                                },
                            ] + rest.toks) by {
                        reveal_with_fuel(spec_scan, 1);
                    }
                            assert(cstpre.errs =~= rest.errs) by {
                        reveal_with_fuel(spec_scan, 1);
                    }
                            assert(token_models(r@) =~= token_models(rs).push(
                                model_token(r@.last()),
                            ));
                        } else {
                            assert(cstpre.toks =~= rest.toks) by {
                        reveal_with_fuel(spec_scan, 1);
                    }
                            assert(cstpre.errs =~= seq![
                                ScanErr {
                                    line: pline,
                                    rule: Rule::InvalidNumericLiteral,
                                    msg: "Bad numeric literal: '"@ + text + "'"@,
                                    note: "invalid float literal"@,
                                    start: pcol,
                                    end: c2,
                                    has_doc: true,
                                },
                            ] + rest.errs) by {
                        reveal_with_fuel(spec_scan, 1);
                    }
                            assert(err_models(self.errors@) =~= err_models(es).push(
                                model_err(self.errors@.last()),
                            ));
                        }
                    }
                    assert(st0.toks =~= token_models(r@) + rest.toks);
                    assert(err_models(e0) + st0.errs =~= err_models(self.errors@) + rest.errs);
                }
                continue ;
            } else if b == 88 || b == 120 {
                self.scan_blob(&mut r);
                self.advance();
                proof {
                    let rest = spec_scan(src, self.pos as int, self.spec_line(), self.spec_line_pos());
                    assert(cstpre.pos == rest.pos && cstpre.line == rest.line
                        && cstpre.col == rest.col) by {
                        reveal_with_fuel(spec_scan, 1);
                    }
                    if !(ppos + 1 < src.len() && src[ppos + 1] == 39) {
                        assert(cstpre.toks =~= rest.toks) by {
                        reveal_with_fuel(spec_scan, 1);
                    }
                        assert(cstpre.errs =~= seq![
                            ScanErr {
                                line: pline,
                                rule: Rule::InvalidBlob,
                                msg: "Malformed blob"@,
                                note: "a Blob is hexadecimal data prefixed with X' and postfixed with '"@,
                                start: pcol,
                                end: pcol,
                                has_doc: true,
                            },
                        ] + rest.errs) by {
                        reveal_with_fuel(spec_scan, 1);
                    }
                        assert(err_models(self.errors@) =~= err_models(es).push(
                            model_err(self.errors@.last()),
                        ));
                    } else {
                        let e = str_end(src, ppos + 2);
                        if e < src.len() && src[e] == 39 {
                            let bad = hexb_end(src, ppos + 2, e);
                            if bad < e {
                                assert(cstpre.toks =~= rest.toks) by {
                        reveal_with_fuel(spec_scan, 1);
                    }
                                assert(cstpre.errs =~= seq![
                                    ScanErr {
                                        line: pline,
                                        rule: Rule::InvalidBlob,
                                        msg: "Bad blob data"@,
                                        note: "a Blob is hexadecimal data, '"@ + seq![
                                            byte_char(src[bad]),
                                        ] + "' is not valid hex (a..=f, A..=F, 0..=9)"@,
                                        start: (pcol + 2 + (bad - (ppos + 2))) as nat,
                                        end: (pcol + 2 + (bad - (ppos + 2))) as nat,
                                        has_doc: true,
                                    },
                                ] + rest.errs) by {
                        reveal_with_fuel(spec_scan, 1);
                    }
                                assert(err_models(self.errors@) =~= err_models(es).push(
                                    model_err(self.errors@.last()),
                                ));
                            } else {
                                assert(cstpre.toks =~= seq![
                                    ScanToken {
                                        kind: ScanKind::Blob(src.subrange(ppos + 2, e)),
                                        start: (pcol + 1) as nat,
                                        end: (pcol + 1 + (e - (ppos + 1)) + 1) as nat,
                                        line: pline,
                                    },
                                ] + rest.toks) by {
                        reveal_with_fuel(spec_scan, 1);
                    }
                                assert(cstpre.errs =~= rest.errs) by {
                        reveal_with_fuel(spec_scan, 1);
                    }
                                assert(token_models(r@) =~= token_models(rs).push(
                                    model_token(r@.last()),
                                ));
                            }
                        } else {
                            assert(cstpre.toks =~= rest.toks) by {
                        reveal_with_fuel(spec_scan, 1);
                    }
                            assert(cstpre.errs =~= seq![
                                ScanErr {
                                    line: pline,
                                    rule: Rule::UnterminatedString,
                                    msg: "Unterminated String"@,
                                    note: "Consider adding a \"'\" at the end of this string"@,
                                    start: (pcol + 1) as nat,
                                    end: (pcol + (e - ppos) + 1) as nat,
                                    has_doc: true,
                                },
                            ] + rest.errs) by {
                        reveal_with_fuel(spec_scan, 1);
                    }
                            assert(err_models(self.errors@) =~= err_models(es).push(
                                model_err(self.errors@.last()),
                            ));
                        }
                    }
                    assert(st0.toks =~= token_models(r@) + rest.toks);
                    assert(err_models(e0) + st0.errs =~= err_models(self.errors@) + rest.errs);
                }
            } else if (97 <= b && b <= 122) || (65 <= b && b <= 90) || b == 95 {
                self.scan_ident(&mut r);
                proof {
                    let rest = spec_scan(src, self.pos as int, self.spec_line(), self.spec_line_pos());
                    assert(cstpre.pos == rest.pos && cstpre.line == rest.line
                        && cstpre.col == rest.col) by {
                        reveal_with_fuel(spec_scan, 1);
                    }
                    let e = ident_end(src, ppos);
                    let text = bytes_text(src.subrange(ppos, e));
                    let kind = match Keyword::spec_from_str(text) {
                        Some(k) => ScanKind::Keyword(k),
                        None => if spec_upper(text) == "TRUE"@ {
                            ScanKind::Boolean(true)
                        } else if spec_upper(text) == "FALSE"@ {
                            ScanKind::Boolean(false)
                        } else {
                            ScanKind::Ident(text)
                        },
                    };
                    assert(cstpre.toks =~= seq![
                        ScanToken { kind, start: pcol, end: (pcol + (e - ppos)) as nat, line: pline },
                    ] + rest.toks) by {
                        reveal_with_fuel(spec_scan, 1);
                    }
                    assert(cstpre.errs =~= rest.errs) by {
                        reveal_with_fuel(spec_scan, 1);
                    }
                    assert(token_models(r@) =~= token_models(rs).push(model_token(r@.last())));
                    assert(st0.toks =~= token_models(r@) + rest.toks);
                    assert(err_models(e0) + st0.errs =~= err_models(self.errors@) + rest.errs);
                }
                continue ;
            } else {
                // an unknown character
                let c = b as char;
                let mut msg = String::new();
                push_str(&mut msg, "Unknown character '");
                push_char(&mut msg, c);
                push_str(&mut msg, "'");
                let mut note = String::new();
                push_str(&mut note, "character (ascii: ");
                let dbg = char_debug(c);
                push_str(&mut note, dbg.as_str());
                push_str(&mut note, ", decimal: ");
                let dec = crate::text::dec_string(b as u64);
                push_str(&mut note, dec.as_str());
                push_str(&mut note, ", hex: 0x");
                let hx = hex_string(b as u64);
                push_str(&mut note, hx.as_str());
                push_str(&mut note, ")");
                let mut err = self.err(
                    msg.as_str(),
                    note.as_str(),
                    self.line_pos,
                    Rule::UnknownCharacter,
                );
                err.doc_url = Some("https://www.sqlite.org/syntax/expr.html");
                proof {
                    assert(msg@ =~= "Unknown character '"@ + seq![byte_char(b)] + "'"@);
                    assert(note@ =~= "character (ascii: "@ + spec_char_debug(byte_char(b))
                        + ", decimal: "@ + crate::text::spec_dec(b as nat) + ", hex: 0x"@
                        + spec_hex(b as nat) + ")"@);
                    lemma_err_models_push(self.errors@, err);
                }
                self.errors.push(err);
                self.advance();
                proof {
                    assert(err_models(self.errors@) =~= err_models(es) + seq![
                        model_err(self.errors@.last()),
                    ]);
                    let rest = spec_scan(src, self.pos as int, self.spec_line(), self.spec_line_pos());
                    assert(cstpre.pos == rest.pos && cstpre.line == rest.line
                        && cstpre.col == rest.col) by {
                        reveal_with_fuel(spec_scan, 1);
                    }
                    assert(cstpre.toks =~= rest.toks) by {
                        reveal_with_fuel(spec_scan, 1);
                    }
                    assert(cstpre.errs =~= seq![
                        ScanErr {
                            line: pline,
                            rule: Rule::UnknownCharacter,
                            msg: "Unknown character '"@ + seq![byte_char(b)] + "'"@,
                            note: "character (ascii: "@ + spec_char_debug(byte_char(b))
                                + ", decimal: "@ + crate::text::spec_dec(b as nat)
                                + ", hex: 0x"@ + spec_hex(b as nat) + ")"@,
                            start: pcol,
                            end: pcol,
                            has_doc: true,
                        },
                    ] + rest.errs) by {
                        reveal_with_fuel(spec_scan, 1);
                    }
                    assert(st0.toks =~= token_models(r@) + rest.toks);
                    assert(err_models(e0) + st0.errs =~= err_models(self.errors@) + rest.errs);
                }
            }
        }
        proof {
            reveal_with_fuel(spec_scan, 1);
            let cst = spec_scan(src, self.pos as int, self.spec_line(), self.spec_line_pos());
            assert(st0.toks =~= token_models(r@));
            assert(err_models(e0) + st0.errs =~= err_models(self.errors@));
        }
        if r.len() == 0 && self.errors.len() == 0 {
            let mut note = String::new();
            push_str(&mut note, "consider adding statements to '");
            push_str(&mut note, self.name);
            push_str(&mut note, "'");
            let mut msg = String::new();
            push_str(&mut msg, "No statements found in source file");
            // this defect is the absence of statements, anchored at the top
            // of the buffer; the renderer re-anchors it at the last line
            let err = Error {
                improved_line: None,
                file: self.name.to_owned(),
                line: 0,
                rule: Rule::NoStatements,
                note,
                msg,
                start: 0,
                end: 0,
                doc_url: None,
            };
            proof {
                lemma_err_models_push(self.errors@, err);
            }
            self.errors.push(err);
            proof {
                assert(st0.toks.len() == 0 && st0.errs.len() == 0 && e0.len() == 0);
                assert(err_models(self.errors@) =~= err_models(e0) + st0.errs + seq![
                    model_err(self.errors@.last()),
                ]);
            }
            return r;
        }
        proof {
            if old(self).spec_pos() == 0 && e0.len() == 0 && ws_only(src) {
                lemma_scan_ws(
                    src,
                    old(self).spec_pos(),
                    old(self).spec_line(),
                    old(self).spec_line_pos(),
                );
                assert(token_models(r@).len() == 0);
                assert(err_models(self.errors@).len() == 0);
                assert(false);
            }
            assert(err_models(self.errors@) =~= err_models(e0) + st0.errs
                + Seq::<ScanErr>::empty());
        }
        r
    }
}


/// Whether a byte is a hexadecimal digit.
pub open spec fn is_hex_byte(b: u8) -> bool {
    (48 <= b <= 57) || (97 <= b <= 102) || (65 <= b <= 70)
}

/// The first position in `[i, e)` holding no hexadecimal digit, or `e`.
pub open spec fn hexb_end(src: Seq<u8>, i: int, e: int) -> int
    decreases e - i when 0 <= i <= e <= src.len()
{
    if i >= e {
        e
    } else if is_hex_byte(src[i]) {
        hexb_end(src, i + 1, e)
    } else {
        i
    }
}

pub proof fn lemma_hexb_end_bounds(src: Seq<u8>, i: int, e: int)
    requires
        0 <= i <= e <= src.len(),
    ensures
        i <= hexb_end(src, i, e) <= e,
        forall|k: int| i <= k < hexb_end(src, i, e) ==> is_hex_byte(src[k]),
        hexb_end(src, i, e) < e ==> !is_hex_byte(src[hexb_end(src, i, e)]),
    decreases e - i,
{
    if i < e && is_hex_byte(src[i]) {
        lemma_hexb_end_bounds(src, i + 1, e);
    }
}

/// The position where a block comment scan entered at `i` stops: the first
/// position at or after `i` that starts a `*/` pair, or the end of the
/// buffer.
pub open spec fn blk_end(src: Seq<u8>, i: int) -> int
    decreases src.len() - i when 0 <= i <= src.len()
{
    if i >= src.len() {
        src.len() as int
    } else if src[i] == 42 && i + 1 < src.len() && src[i + 1] == 47 {
        i
    } else {
        blk_end(src, i + 1)
    }
}

pub proof fn lemma_blk_end_bounds(src: Seq<u8>, i: int)
    requires
        0 <= i <= src.len(),
    ensures
        i <= blk_end(src, i) <= src.len(),
    decreases src.len() - i,
{
    if i < src.len() && !(src[i] == 42 && i + 1 < src.len() && src[i + 1] == 47) {
        lemma_blk_end_bounds(src, i + 1);
    }
}

/// Whether a byte stands for a whitespace character: the ASCII whitespace
/// bytes and the two high whitespace bytes of the one-byte character range.
pub open spec fn is_ws_byte(b: u8) -> bool {
    b == 9 || b == 10 || b == 11 || b == 12 || b == 13 || b == 32 || b == 133 || b == 160
}

/// Tests [`is_hex_byte`].
pub fn hex_byte(b: u8) -> (r: bool)
    ensures
        r == is_hex_byte(b),
{
    (48 <= b && b <= 57) || (97 <= b && b <= 102) || (65 <= b && b <= 70)
}

/// Tests [`is_ws_byte`].
pub fn ws_byte(b: u8) -> (r: bool)
    ensures
        r == is_ws_byte(b),
{
    b == 9 || b == 10 || b == 11 || b == 12 || b == 13 || b == 32 || b == 133 || b == 160
}

/// Whether a byte may stand in a numeric literal capture: sign, separator,
/// dot, hexadecimal letters and digits. Validity is decided after capture.
pub open spec fn is_num_byte(b: u8) -> bool {
    b == 43 || b == 45 || b == 95 || b == 46 || (97 <= b <= 102) || (65 <= b <= 70) || (48 <= b
        <= 57)
}

/// The first position at or after `i` holding no numeric-capture byte, or the
/// end of the buffer.
pub open spec fn num_end(src: Seq<u8>, i: int) -> int
    decreases src.len() - i when 0 <= i <= src.len()
{
    if i >= src.len() {
        i
    } else if is_num_byte(src[i]) {
        num_end(src, i + 1)
    } else {
        i
    }
}

pub proof fn lemma_num_end_bounds(src: Seq<u8>, i: int)
    requires
        0 <= i <= src.len(),
    ensures
        i <= num_end(src, i) <= src.len(),
        forall|k: int| i <= k < num_end(src, i) ==> is_num_byte(src[k]),
        num_end(src, i) < src.len() ==> !is_num_byte(src[num_end(src, i)]),
    decreases src.len() - i,
{
    if i < src.len() && is_num_byte(src[i]) {
        lemma_num_end_bounds(src, i + 1);
    }
}

/// Whether a byte may stand in an identifier: letters, digits and the
/// underscore.
pub open spec fn is_ident_byte(b: u8) -> bool {
    (97 <= b <= 122) || (65 <= b <= 90) || b == 95 || (48 <= b <= 57)
}

/// The first position at or after `i` holding no identifier byte, or the end
/// of the buffer.
pub open spec fn ident_end(src: Seq<u8>, i: int) -> int
    decreases src.len() - i when 0 <= i <= src.len()
{
    if i >= src.len() {
        i
    } else if is_ident_byte(src[i]) {
        ident_end(src, i + 1)
    } else {
        i
    }
}

pub proof fn lemma_ident_end_bounds(src: Seq<u8>, i: int)
    requires
        0 <= i <= src.len(),
    ensures
        i <= ident_end(src, i) <= src.len(),
        forall|k: int| i <= k < ident_end(src, i) ==> is_ident_byte(src[k]),
        ident_end(src, i) < src.len() ==> !is_ident_byte(src[ident_end(src, i)]),
    decreases src.len() - i,
{
    if i < src.len() && is_ident_byte(src[i]) {
        lemma_ident_end_bounds(src, i + 1);
    }
}

/// Tests [`is_num_byte`].
pub fn num_byte(b: u8) -> (r: bool)
    ensures
        r == is_num_byte(b),
{
    b == 43 || b == 45 || b == 95 || b == 46 || (97 <= b && b <= 102) || (65 <= b && b <= 70)
        || (48 <= b && b <= 57)
}

/// Tests [`is_ident_byte`].
pub fn ident_byte(b: u8) -> (r: bool)
    ensures
        r == is_ident_byte(b),
{
    (97 <= b && b <= 122) || (65 <= b && b <= 90) || b == 95 || (48 <= b && b <= 57)
}

/// The text of a numeric capture: one character per byte, the underscore
/// separators dropped.
pub open spec fn strip_text(s: Seq<u8>) -> Seq<char>
    decreases s.len(),
{
    if s.len() == 0 {
        Seq::empty()
    } else if s.last() == 95 {
        strip_text(s.drop_last())
    } else {
        strip_text(s.drop_last()).push(byte_char(s.last()))
    }
}

/// Builds the text of `src[from..to]`, dropping underscore separators.
pub fn strip_underscores(src: &Vec<u8>, from: usize, to: usize) -> (r: String)
    requires
        from <= to <= src@.len(),
    ensures
        r@ == strip_text(src@.subrange(from as int, to as int)),
{
    let mut r = String::new();
    let mut i: usize = from;
    assert(src@.subrange(from as int, from as int) =~= Seq::<u8>::empty());
    while i < to
        invariant
            from <= i <= to <= src@.len(),
            r@ == strip_text(src@.subrange(from as int, i as int)),
        decreases to - i,
    {
        let b = src[i];
        if b != 95 {
            push_char(&mut r, b as char);
        }
        i = i + 1;
        assert(src@.subrange(from as int, i as int).drop_last() =~= src@.subrange(
            from as int,
            i - 1,
        ));
    }
    r
}

/// Copies `src[from..to]` out.
pub fn bytes_slice_vec(src: &Vec<u8>, from: usize, to: usize) -> (r: Vec<u8>)
    requires
        from <= to <= src@.len(),
    ensures
        r@ == src@.subrange(from as int, to as int),
{
    let mut r: Vec<u8> = Vec::new();
    let mut i: usize = from;
    assert(r@ =~= src@.subrange(from as int, from as int));
    while i < to
        invariant
            from <= i <= to <= src@.len(),
            r@ == src@.subrange(from as int, i as int),
        decreases to - i,
    {
        r.push(src[i]);
        i = i + 1;
        assert(src@.subrange(from as int, i as int) =~= src@.subrange(from as int, i - 1).push(
            src@[i - 1],
        ));
    }
    r
}

/// The debug rendering of the character a byte stands for, as diagnostic
/// notes show it: quoted, with the common escapes, printable characters
/// (including the printable high bytes) as themselves, and the remaining
/// control bytes in `\u{..}` form.
pub open spec fn spec_char_debug(c: char) -> Seq<char> {
    if c == '\0' {
        "'\\0'"@
    } else if c == '\t' {
        "'\\t'"@
    } else if c == '\n' {
        "'\\n'"@
    } else if c == '\r' {
        "'\\r'"@
    } else if c == '\'' {
        "'\\''"@
    } else if c == '\\' {
        "'\\\\'"@
    } else if (32 <= c as u32 <= 126) || (160 <= c as u32 <= 255 && c as u32 != 173) {
        seq!['\''].push(c).push('\'')
    } else {
        "'\\u{"@ + spec_hex(c as u32 as nat) + "}'"@
    }
}

/// Renders the debug form of the character a byte stands for.
pub fn char_debug(c: char) -> (r: String)
    requires
        c as u32 <= 255,
    ensures
        r@ == spec_char_debug(c),
{
    let mut r = String::new();
    if c == '\0' {
        push_str(&mut r, "'\\0'");
    } else if c == '\t' {
        push_str(&mut r, "'\\t'");
    } else if c == '\n' {
        push_str(&mut r, "'\\n'");
    } else if c == '\r' {
        push_str(&mut r, "'\\r'");
    } else if c == '\'' {
        push_str(&mut r, "'\\''");
    } else if c == '\\' {
        push_str(&mut r, "'\\\\'");
    } else if (32 <= c as u32 && c as u32 <= 126) || (160 <= c as u32 && c as u32 <= 255 && c
        as u32 != 173) {
        push_char(&mut r, '\'');
        push_char(&mut r, c);
        push_char(&mut r, '\'');
        assert(r@ =~= seq!['\''].push(c).push('\''));
    } else {
        push_str(&mut r, "'\\u{");
        let h = hex_string(c as u32 as u64);
        push_str(&mut r, h.as_str());
        push_str(&mut r, "}'");
        assert(r@ =~= "'\\u{"@ + spec_hex(c as u32 as nat) + "}'"@);
    }
    r
}

/// Stepping over newline-free bytes keeps the line and widens the column by
/// the distance.
pub proof fn lemma_adv_mono_no_nl(src: Seq<u8>, i: int, j: int, line: nat, col: nat)
    requires
        0 <= i <= j <= src.len(),
        forall|k: int| i <= k < j ==> src[k] != 10,
    ensures
        adv(src, i, j, line, col) == (line, (col + (j - i)) as nat),
    decreases j - i,
{
    if i < j {
        lemma_adv_mono_no_nl(src, i + 1, j, line, (col + 1) as nat);
    }
}

} // verus!
