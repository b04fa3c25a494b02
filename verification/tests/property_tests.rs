use sqleibniz::builder::Builder;
use sqleibniz::error::{filter_diagnostics, Error};
use sqleibniz::keyword::Keyword;
use sqleibniz::lev::distance;
use sqleibniz::lexer::Lexer;
use sqleibniz::lsp::{protocol_message, to_protocol_diagnostic, LspError};
use sqleibniz::nodes::Node;
use sqleibniz::numeric::{float_text_valid, parse_hex_i64, IntParseError};
use sqleibniz::parser::Parser;
use sqleibniz::rules::Rule;
use sqleibniz::token::{NumericValue, Token, Type};
use sqleibniz::tracer::Tracer;

fn lex(src: &str) -> (Vec<Token>, Vec<Error>) {
    let bytes = src.as_bytes().to_vec();
    let mut l = Lexer::new(&bytes, "property_tests");
    let toks = l.run();
    (toks, l.errors)
}

fn analyse(src: &str) -> (Vec<Option<Box<Node>>>, Vec<Error>) {
    let bytes = src.as_bytes().to_vec();
    let mut l = Lexer::new(&bytes, "property_tests");
    let toks = l.run();
    let mut errors = l.errors;
    let mut p = Parser::new(toks, "property_tests");
    let ast = p.parse();
    errors.append(&mut p.errors);
    (ast, errors)
}

fn make_error(rule: Rule, msg: &str) -> Error {
    Error {
        file: "property_tests".to_string(),
        line: 0,
        rule,
        note: "a note".to_string(),
        msg: msg.to_string(),
        start: 0,
        end: 1,
        improved_line: None,
        doc_url: None,
    }
}

#[test]
fn scan_of_recognized_tokens_yields_tokens_and_no_diagnostics() {
    let (toks, errs) = lex("BEGIN; COMMIT; 'str' 5 X'AB' name,*;");
    assert!(toks.len() > 0);
    assert_eq!(errs.len(), 0);
}

#[test]
fn scan_of_empty_input_yields_one_no_content_diagnostic() {
    let (toks, errs) = lex("");
    assert_eq!(toks.len(), 0);
    assert_eq!(errs.len(), 1);
    assert!(matches!(errs[0].rule, Rule::NoContent));
    assert_eq!(errs[0].msg, "No content found in source file");
}

#[test]
fn scan_of_whitespace_yields_one_no_statements_diagnostic() {
    let (toks, errs) = lex(" \t\r\n \n");
    assert_eq!(toks.len(), 0);
    assert_eq!(errs.len(), 1);
    assert!(matches!(errs[0].rule, Rule::NoStatements));
    assert_eq!(errs[0].msg, "No statements found in source file");
}

#[test]
fn unterminated_string_yields_exactly_one_diagnostic() {
    let (toks, errs) = lex("'text");
    assert_eq!(toks.len(), 0);
    assert_eq!(errs.len(), 1);
    assert!(matches!(errs[0].rule, Rule::UnterminatedString));
    assert!(matches!(&errs[0].improved_line, Some(il) if il.snippet == "'"));
}

#[test]
fn numeric_round_trip_float() {
    let (toks, errs) = lex("1_000.12_000e+3_5");
    assert_eq!(errs.len(), 0);
    assert_eq!(toks.len(), 1);
    match &toks[0].ttype {
        Type::Number(NumericValue::Real(s)) => {
            assert_eq!(s, "1000.12000e+35");
            assert_eq!(s.parse::<f64>().unwrap(), 1.00012e38);
        },
        other => panic!("wanted a decimal number token, got {:?}", other),
    }
}

#[test]
fn numeric_round_trip_hex() {
    let (toks, errs) = lex("0xABCDEF");
    assert_eq!(errs.len(), 0);
    assert!(matches!(toks[0].ttype, Type::Number(NumericValue::Int(11259375))));
}

#[test]
fn blob_round_trip() {
    let (toks, errs) = lex("X'1234'");
    assert_eq!(errs.len(), 0);
    assert!(matches!(&toks[0].ttype, Type::Blob(b) if *b == b"1234".to_vec()));
    let (toks2, errs2) = lex("X'12G4'");
    assert_eq!(toks2.len(), 0);
    assert_eq!(errs2.len(), 1);
    assert!(matches!(errs2[0].rule, Rule::InvalidBlob));
    assert_eq!(errs2[0].start, 4);
    assert_eq!(errs2[0].end, 4);
}

#[test]
fn parse_terminates_and_consumes_every_token_on_malformed_input() {
    // a persistently malformed token stream still terminates
    let (ast, errors) = analyse("%%%% ( ) [ ] = @ : $ ? , foo bar VACUUM VACUUM 'x' 5;;;");
    let _ = ast;
    assert!(errors.len() > 0);
}

#[test]
fn suppression_removes_exactly_the_disabled_rules() {
    let errors = vec![
        make_error(Rule::Syntax, "one"),
        make_error(Rule::Semicolon, "two"),
        make_error(Rule::Syntax, "three"),
        make_error(Rule::NoContent, "four"),
    ];
    let disabled = vec![Rule::Syntax];
    let kept = filter_diagnostics(errors, &disabled);
    assert_eq!(kept.len(), 2);
    assert!(matches!(kept[0].rule, Rule::Semicolon));
    assert_eq!(kept[0].msg, "two");
    assert!(matches!(kept[1].rule, Rule::NoContent));
    assert_eq!(kept[1].msg, "four");
}

#[test]
fn suppression_of_nothing_keeps_everything() {
    let errors = vec![make_error(Rule::Syntax, "one"), make_error(Rule::Semicolon, "two")];
    let kept = filter_diagnostics(errors, &Vec::new());
    assert_eq!(kept.len(), 2);
}

#[test]
fn vacuum_end_to_end() {
    let (ast, errors) = analyse("VACUUM schema_name INTO 'filename';");
    assert_eq!(errors.len(), 0);
    assert_eq!(ast.len(), 1);
    match ast[0].as_deref() {
        Some(Node::Vacuum { schema_name, filename, .. }) => {
            assert!(
                matches!(schema_name, Some(t) if matches!(&t.ttype, Type::Ident(s) if s == "schema_name"))
            );
            assert!(
                matches!(filename, Some(t) if matches!(&t.ttype, Type::String(s) if s == "filename"))
            );
        },
        other => panic!("wanted a VACUUM node, got {:?}", other),
    }
}

#[test]
fn vacuum_end_to_end_error_resilient() {
    let (ast, errors) = analyse("VACUUM 5 INTO 5;");
    assert_eq!(errors.len(), 2, "diagnostics: {:?}", errors);
    assert!(matches!(errors[0].rule, Rule::Syntax));
    assert!(matches!(errors[1].rule, Rule::Syntax));
    assert_eq!(ast.len(), 1);
    assert!(matches!(ast[0].as_deref(), Some(Node::Vacuum { .. })));
}

#[test]
fn begin_with_two_modifiers_yields_one_diagnostic() {
    let (ast, errors) = analyse("BEGIN DEFERRED IMMEDIATE;");
    assert_eq!(errors.len(), 1, "diagnostics: {:?}", errors);
    assert!(matches!(errors[0].rule, Rule::Syntax));
    assert_eq!(errors[0].note, "BEGIN does not allow multiple transaction behaviour modifiers");
    assert_eq!(ast.len(), 1);
    assert!(matches!(ast[0].as_deref(), Some(Node::Begin { .. })));
}

#[test]
fn consume_always_advances() {
    // a missing terminator is reported but never stalls the parser
    let (ast, errors) = analyse("BEGIN COMMIT ROLLBACK");
    let _ = ast;
    assert!(errors.len() > 0);
    assert!(errors.iter().any(|e| matches!(e.rule, Rule::Semicolon)));
}

#[test]
fn float_grammar_matches_the_float_parser() {
    let samples = [
        "0", "1", "12", "1.", ".5", "1.5", "1.5e3", "1.5E3", "1.5e+3", "1.5e-3", "12.e5", ".",
        ".e5", "e5", "1e", "1e+", "1e-", "1..2", "1.2.3", "+1", "-1.5", "+", "-", "1+2", "abc",
        "0x10", "1000.12000e+35", "",
    ];
    for s in samples {
        assert_eq!(
            float_text_valid(s),
            s.parse::<f64>().is_ok(),
            "the grammar and the float parser disagree on {:?}",
            s
        );
    }
}

#[test]
fn hex_parse_matches_from_str_radix() {
    let samples =
        ["", "+", "-", "AB", "ab", "-ff", "+10", "7FFFFFFFFFFFFFFF", "8000000000000000",
            "-8000000000000000", "-8000000000000001", "12G4", "1.5", "_", "fF00"];
    for s in samples {
        let got = parse_hex_i64(s);
        let want = i64::from_str_radix(s, 16);
        match (got, want) {
            (Ok(a), Ok(b)) => assert_eq!(a, b, "value mismatch on {:?}", s),
            (Err(e), Err(w)) => {
                assert_eq!(e.message(), w.to_string(), "error mismatch on {:?}", s)
            },
            (a, b) => panic!("outcome mismatch on {:?}: {:?} vs {:?}", s, a, b),
        }
    }
}

#[test]
fn levenshtein_distance_examples() {
    assert_eq!(distance("kitten", "sitting"), 3);
    assert_eq!(distance("", "abc"), 3);
    assert_eq!(distance("abc", ""), 3);
    assert_eq!(distance("same", "same"), 0);
    assert_eq!(distance("VACUM", "VACUUM"), 1);
}

#[test]
fn suggestions_for_misspelled_keyword() {
    let s = Keyword::suggestions("vacum");
    assert!(s.iter().any(|n| n == "VACUUM"), "suggestions: {:?}", s);
    assert!(s.len() <= 3);
}

#[test]
fn unknown_keyword_diagnostic_carries_suggestions() {
    let (_, errors) = analyse("vacum;");
    assert_eq!(errors.len(), 1);
    assert!(matches!(errors[0].rule, Rule::UnknownKeyword));
    assert!(errors[0].note.contains("VACUUM"), "note: {}", errors[0].note);
}

#[test]
fn rule_names_and_descriptions() {
    assert_eq!(Rule::NoContent.name(), "NoContent");
    assert_eq!(Rule::Semicolon.name(), "Semicolon");
    assert_eq!(Rule::Semicolon.description(), "The source file is missing a semicolon");
    assert_eq!(Rule::UnknownKeyword.description(), "Source file contains an unknown keyword");
}

#[test]
fn builder_accumulates() {
    let mut b = Builder::new();
    b.write_str("ab");
    b.write_char('c');
    b.write_byte(100);
    b.write_string("ef".to_string());
    assert_eq!(b.string(), "abcdef");
}

#[test]
fn builder_with_capacity_is_empty() {
    let b = Builder::with_capacity(64);
    assert_eq!(b.string(), "");
}

#[test]
fn renderer_header_and_anchor() {
    let content = b"BEGIN\nCOMMIT;\n".to_vec();
    let mut e = Error {
        file: "some.sql".to_string(),
        line: 0,
        rule: Rule::Semicolon,
        note: "terminate statements with ';'".to_string(),
        msg: "Missing semicolon".to_string(),
        start: 0,
        end: 5,
        improved_line: None,
        doc_url: Some("https://www.sqlite.org/syntax/sql-stmt.html"),
    };
    let mut b = Builder::new();
    e.print(&mut b, &content, Some("/resolved/some.sql"));
    let out = b.string();
    assert!(out.contains("error"));
    assert!(out.contains("[\u{1b}[31mSemicolon\u{1b}[0m]: Missing semicolon"));
    assert!(out.contains("/resolved/some.sql"));
    assert!(out.contains(":1:1"));
    assert!(out.contains("BEGIN"));
    assert!(out.contains("^^^^^ error occurs here."));
    assert!(out.contains("~ note: "));
    assert!(out.contains("terminate statements with ';'"));
    assert!(out.contains("The source file is missing a semicolon"));
    assert!(out.contains("https://www.sqlite.org/syntax/sql-stmt.html"));
}

#[test]
fn renderer_rewrites_no_statements_to_last_line() {
    let content = b"\n\n\n".to_vec();
    let mut e = Error {
        file: "empty.sql".to_string(),
        line: 0,
        rule: Rule::NoStatements,
        note: "consider adding statements to 'empty.sql'".to_string(),
        msg: "No statements found in source file".to_string(),
        start: 0,
        end: 0,
        improved_line: None,
        doc_url: None,
    };
    let mut b = Builder::new();
    e.print(&mut b, &content, None);
    // three newlines split into three (empty) lines; the anchor moves to the
    // last one
    assert_eq!(e.line, 2);
    assert_eq!(e.end, 0);
}

#[test]
fn renderer_stops_after_header_for_empty_buffer() {
    let content: Vec<u8> = Vec::new();
    let mut e = make_error(Rule::NoContent, "No content found in source file");
    let mut b = Builder::new();
    e.print(&mut b, &content, None);
    let out = b.string();
    assert!(out.contains("No content found in source file"));
    assert!(!out.contains(" -> "));
}

#[test]
fn protocol_diagnostic_fields() {
    let e = Error {
        file: "a.sql".to_string(),
        line: 3,
        rule: Rule::UnterminatedString,
        note: "the note".to_string(),
        msg: "the message".to_string(),
        start: 2,
        end: 7,
        improved_line: None,
        doc_url: None,
    };
    let d = to_protocol_diagnostic(&e);
    assert_eq!(d.range.start.line, 3);
    assert_eq!(d.range.start.character, 2);
    assert_eq!(d.range.end.line, 3);
    assert_eq!(d.range.end.character, 7);
    assert_eq!(d.severity, Some(lsp_types::DiagnosticSeverity::ERROR));
    assert_eq!(
        d.code,
        Some(lsp_types::NumberOrString::String("UnterminatedString".to_string()))
    );
    assert_eq!(d.source, Some("sqleibniz".to_string()));
    assert_eq!(d.message, "the message: the note");
}

#[test]
fn protocol_message_joins_msg_and_note() {
    let e = make_error(Rule::Syntax, "bad thing");
    assert_eq!(protocol_message(&e), "bad thing: a note");
}

#[test]
fn lsp_error_message() {
    let e = LspError::from("disconnected".to_string());
    assert_eq!(e.message(), "LspError: disconnected");
}

#[test]
fn tracer_builds_indented_lines() {
    let mut t = Tracer::new();
    let line = t.call("parse", None);
    assert_eq!(t.indent, 1);
    assert_eq!(line, " -> Parser::parse(None)");
    let line2 = t.call("sql_stmt", Some(&Type::Semicolon));
    assert_eq!(line2, "  -> Parser::sql_stmt(Some(Semicolon))");
}

#[test]
fn keyword_from_str() {
    assert!(matches!(Keyword::from_str("vacuum"), Some(Keyword::VACUUM)));
    assert!(matches!(Keyword::from_str("Select"), Some(Keyword::SELECT)));
    assert!(matches!(Keyword::from_str("WITHOUT"), Some(Keyword::WITHOUT)));
    assert!(Keyword::from_str("nope").is_none());
    assert!(Keyword::from_str("").is_none());
}

#[test]
fn int_parse_error_messages() {
    assert_eq!(IntParseError::Empty.message(), "cannot parse integer from empty string");
    assert_eq!(IntParseError::InvalidDigit.message(), "invalid digit found in string");
}

#[test]
fn bad_directive_diagnostic() {
    let (toks, errs) = lex("-- @sqleibniz::wrong oops\nBEGIN;");
    assert_eq!(errs.len(), 1);
    assert!(matches!(errs[0].rule, Rule::BadSqleibnizInstruction));
    assert!(errs[0].note.contains("is not a valid sqleibniz instruction"));
    assert_eq!(toks.len(), 2);
}

#[test]
fn unimplemented_statement_resynchronizes() {
    let (ast, errors) = analyse("SELECT 1; BEGIN;");
    assert_eq!(errors.len(), 1);
    assert!(matches!(errors[0].rule, Rule::Unimplemented));
    assert!(ast.iter().any(|n| matches!(n.as_deref(), Some(Node::Begin { .. }))));
}

#[test]
fn renderer_exact_output_small_file() {
    let content = b"BEGIN\n".to_vec();
    let mut e = Error {
        file: "f.sql".to_string(),
        line: 0,
        rule: Rule::Syntax,
        note: "n".to_string(),
        msg: "m".to_string(),
        start: 0,
        end: 0,
        improved_line: None,
        doc_url: None,
    };
    let mut b = Builder::new();
    e.print(&mut b, &content, None);
    let out = b.string();
    let red = |s: &str| format!("\u{1b}[31m{}\u{1b}[0m", s);
    let blue = |s: &str| format!("\u{1b}[94m{}\u{1b}[0m", s);
    let cyan = |s: &str| format!("\u{1b}[96m{}\u{1b}[0m", s);
    let yellow = |s: &str| format!("\u{1b}[93m{}\u{1b}[0m", s);
    let expected = format!(
        "{}[{}]: m\n{}{}{}\n{}BEGIN{}{}{}{}n\n{}{}: {}\n",
        red("error"),
        red("Syntax"),
        blue(" -> "),
        cyan("f.sql"),
        yellow(":1:1"),
        blue(" 01 | "),
        blue("\n    |"),
        red(" ^ error occurs here.\n"),
        blue("    |\n"),
        blue("    ~ note: "),
        blue("  * "),
        blue("Syntax"),
        "The source file contains a structure with incorrect syntax",
    );
    assert_eq!(out, expected);
}

#[test]
fn node_names() {
    let (ast, _) = {
        let bytes = b"BEGIN;".to_vec();
        let mut l = Lexer::new(&bytes, "t");
        let toks = l.run();
        let mut p = Parser::new(toks, "t");
        (p.parse(), p.errors)
    };
    assert_eq!(ast.len(), 1);
    assert_eq!(ast[0].as_deref().unwrap().name(), "Begin");
}

#[test]
fn highlight_is_identity_for_now() {
    let mut b = Builder::new();
    sqleibniz::highlight::highlight_string(&mut b, &[], "SELECT * FROM t;");
    assert_eq!(b.string(), "SELECT * FROM t;");
}

#[test]
fn keyword_table_is_complete() {
    let all = Keyword::all();
    assert_eq!(all.len(), 147);
    for k in &all {
        assert!(matches!(Keyword::from_str(k.name()), Some(x) if x == *k));
    }
}

#[test]
fn context_holds_analysis_state() {
    let ctx = sqleibniz::ctx::Context {
        tables: vec![sqleibniz::ctx::Table {
            name: "t".to_string(),
            columns: vec![sqleibniz::nodes::SqliteStorageClass::Integer],
        }],
        save_points: vec!["sp".to_string()],
        databases: vec![],
    };
    assert_eq!(ctx.tables.len(), 1);
    assert_eq!(ctx.tables[0].name, "t");
    let hc = sqleibniz::ctx::HookContext {
        kind: "Literal".to_string(),
        content: Some("5".to_string()),
        children: vec![],
    };
    assert_eq!(hc.kind, "Literal");
}
