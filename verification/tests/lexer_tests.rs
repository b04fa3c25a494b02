use sqleibniz::error::Error;
use sqleibniz::keyword::Keyword;
use sqleibniz::lexer::Lexer;
use sqleibniz::rules::Rule;
use sqleibniz::token::{NumericValue, Token, Type};

fn lex(src: &str) -> (Vec<Token>, Vec<Error>) {
    let bytes = src.as_bytes().to_vec();
    let mut l = Lexer::new(&bytes, "lexer_tests");
    let toks = l.run();
    (toks, l.errors)
}

fn number_value(t: &Type) -> f64 {
    match t {
        Type::Number(NumericValue::Int(i)) => *i as f64,
        Type::Number(NumericValue::Real(s)) => s.parse::<f64>().unwrap(),
        _ => panic!("not a number token"),
    }
}

#[test]
fn boolean_true() {
    let (toks, errs) = lex("true");
    assert_eq!(errs.len(), 0);
    assert_eq!(toks.len(), 1);
    assert!(matches!(toks[0].ttype, Type::Boolean(true)));
}

#[test]
fn boolean_true_upper() {
    let (toks, errs) = lex("TRUE");
    assert_eq!(errs.len(), 0);
    assert!(matches!(toks[0].ttype, Type::Boolean(true)));
}

#[test]
fn boolean_false() {
    let (toks, errs) = lex("false");
    assert_eq!(errs.len(), 0);
    assert!(matches!(toks[0].ttype, Type::Boolean(false)));
}

#[test]
fn boolean_false_upper() {
    let (toks, errs) = lex("FALSE");
    assert_eq!(errs.len(), 0);
    assert!(matches!(toks[0].ttype, Type::Boolean(false)));
}

#[test]
fn string_simple() {
    let (toks, errs) = lex("'text'");
    assert_eq!(errs.len(), 0);
    assert_eq!(toks.len(), 1);
    assert!(matches!(&toks[0].ttype, Type::String(s) if s == "text"));
}

#[test]
fn string_empty() {
    let (toks, errs) = lex("''");
    assert_eq!(errs.len(), 0);
    assert!(matches!(&toks[0].ttype, Type::String(s) if s.is_empty()));
}

#[test]
fn symbol_dot_before_ident() {
    // a dot with no digit following it is structure access, not a number
    let (toks, errs) = lex(".d");
    assert_eq!(errs.len(), 0);
    assert!(matches!(toks[0].ttype, Type::Dot));
}

#[test]
fn symbol_asterisk() {
    let (toks, errs) = lex("*");
    assert_eq!(errs.len(), 0);
    assert!(matches!(toks[0].ttype, Type::Asterisk));
}

#[test]
fn symbol_semicolon() {
    let (toks, errs) = lex(";");
    assert_eq!(errs.len(), 0);
    assert!(matches!(toks[0].ttype, Type::Semicolon));
}

#[test]
fn symbol_comma() {
    let (toks, errs) = lex(",");
    assert_eq!(errs.len(), 0);
    assert!(matches!(toks[0].ttype, Type::Comma));
}

#[test]
fn symbol_percent() {
    let (toks, errs) = lex("%");
    assert_eq!(errs.len(), 0);
    assert!(matches!(toks[0].ttype, Type::Percent));
}

#[test]
fn keyword_lookup_is_case_insensitive() {
    let (toks, errs) = lex("vacuum Vacuum VACUUM");
    assert_eq!(errs.len(), 0);
    assert_eq!(toks.len(), 3);
    for t in &toks {
        assert!(matches!(t.ttype, Type::Keyword(Keyword::VACUUM)));
    }
}

#[test]
fn ident_token() {
    let (toks, errs) = lex("some_name");
    assert_eq!(errs.len(), 0);
    assert!(matches!(&toks[0].ttype, Type::Ident(s) if s == "some_name"));
}

#[test]
fn number_zero() {
    let (toks, errs) = lex("0");
    assert_eq!(errs.len(), 0);
    assert_eq!(number_value(&toks[0].ttype), 0.0);
}

#[test]
fn number_zero_float() {
    let (toks, errs) = lex(".0");
    assert_eq!(errs.len(), 0);
    assert_eq!(number_value(&toks[0].ttype), 0.0);
}

#[test]
fn number_zero_hex() {
    let (toks, errs) = lex("0x0");
    assert_eq!(errs.len(), 0);
    assert_eq!(number_value(&toks[0].ttype), 0.0);
}

#[test]
fn number_zero_float_with_prefix_zero() {
    let (toks, errs) = lex("0.0");
    assert_eq!(errs.len(), 0);
    assert_eq!(number_value(&toks[0].ttype), 0.0);
}

#[test]
fn number_float_all_paths() {
    // the numeric round trip: separators stripped, exponent kept
    let (toks, errs) = lex("1_000.12_000e+3_5");
    assert_eq!(errs.len(), 0);
    assert_eq!(toks.len(), 1);
    assert_eq!(number_value(&toks[0].ttype), 1.00012e38);
}

#[test]
fn number_float_all_paths2() {
    let (toks, errs) = lex(".1_000e-1_2");
    assert_eq!(errs.len(), 0);
    assert_eq!(number_value(&toks[0].ttype), 1e-13);
}

#[test]
fn number_hex() {
    let (toks, errs) = lex("0xABCDEF");
    assert_eq!(errs.len(), 0);
    assert!(matches!(toks[0].ttype, Type::Number(NumericValue::Int(11259375))));
}

#[test]
fn number_hex_large_x() {
    let (toks, errs) = lex("0XABCDEF");
    assert_eq!(errs.len(), 0);
    assert_eq!(number_value(&toks[0].ttype), 11259375.0);
}

#[test]
fn blob_empty() {
    let (toks, errs) = lex("X''");
    assert_eq!(errs.len(), 0);
    assert!(matches!(&toks[0].ttype, Type::Blob(b) if b.is_empty()));
}

#[test]
fn blob_empty_small() {
    let (toks, errs) = lex("x''");
    assert_eq!(errs.len(), 0);
    assert!(matches!(&toks[0].ttype, Type::Blob(b) if b.is_empty()));
}

#[test]
fn blob_filled() {
    // the blob round trip: the payload is the raw text between the quotes
    let (toks, errs) = lex("X'12345'");
    assert_eq!(errs.len(), 0);
    assert!(matches!(&toks[0].ttype, Type::Blob(b) if *b == vec![49, 50, 51, 52, 53]));
}

#[test]
fn blob_filled_small() {
    let (toks, errs) = lex("x'1234567'");
    assert_eq!(errs.len(), 0);
    assert!(matches!(&toks[0].ttype, Type::Blob(b) if *b == vec![49, 50, 51, 52, 53, 54, 55]));
}

#[test]
fn blob_round_trip_ascii() {
    let (toks, errs) = lex("X'1234'");
    assert_eq!(errs.len(), 0);
    assert_eq!(toks.len(), 1);
    assert!(matches!(&toks[0].ttype, Type::Blob(b) if *b == b"1234".to_vec()));
}

#[test]
fn blob_invalid_hex_points_at_offender() {
    // zero blob tokens, one invalid-blob diagnostic pointing at the G
    let (toks, errs) = lex("X'12G4'");
    assert_eq!(toks.len(), 0);
    assert_eq!(errs.len(), 1);
    assert!(matches!(errs[0].rule, Rule::InvalidBlob));
    // the G stands at column 4: X, quote, 1, 2, then G
    assert_eq!(errs[0].start, 4);
}

#[test]
fn empty_input_no_content() {
    let (toks, errs) = lex("");
    assert_eq!(toks.len(), 0);
    assert_eq!(errs.len(), 1);
    assert!(matches!(errs[0].rule, Rule::NoContent));
}

#[test]
fn whitespace_only_no_statements() {
    let (toks, errs) = lex(" \t\n\r");
    assert_eq!(toks.len(), 0);
    assert_eq!(errs.len(), 1);
    assert!(matches!(errs[0].rule, Rule::NoStatements));
}

#[test]
fn backslash_unknown_character() {
    let (toks, errs) = lex("\\");
    assert_eq!(toks.len(), 0);
    assert_eq!(errs.len(), 1);
    assert!(matches!(errs[0].rule, Rule::UnknownCharacter));
}

#[test]
fn unterminated_string_eof() {
    let (toks, errs) = lex("'");
    assert_eq!(toks.len(), 0);
    assert_eq!(errs.len(), 1);
    assert!(matches!(errs[0].rule, Rule::UnterminatedString));
}

#[test]
fn unterminated_string_newline() {
    // exactly one unterminated-string diagnostic, no string token
    let (toks, errs) = lex("'text\n");
    assert_eq!(toks.len(), 0);
    assert_eq!(errs.len(), 1);
    assert!(matches!(errs[0].rule, Rule::UnterminatedString));
}

#[test]
fn unterminated_string_with_space() {
    let (toks, errs) = lex("'\n\t\r\n ");
    assert_eq!(toks.len(), 0);
    assert!(errs.len() >= 1);
    assert!(matches!(errs[0].rule, Rule::UnterminatedString));
}

#[test]
fn line_comment_yields_nothing() {
    let (toks, errs) = lex("-- comment");
    assert_eq!(toks.len(), 0);
    assert_eq!(errs.len(), 1);
    assert!(matches!(errs[0].rule, Rule::NoStatements));
}

#[test]
fn block_comment_single_line() {
    let (toks, errs) = lex("/**/");
    assert_eq!(toks.len(), 0);
    assert_eq!(errs.len(), 1);
    assert!(matches!(errs[0].rule, Rule::NoStatements));
}

#[test]
fn block_comment_multiline() {
    let (toks, errs) = lex("/*\n\n\n*/");
    assert_eq!(toks.len(), 0);
    assert_eq!(errs.len(), 1);
    assert!(matches!(errs[0].rule, Rule::NoStatements));
}

#[test]
fn block_comment_hides_content() {
    let (toks, errs) = lex("/* VACUUM; */ COMMIT;");
    assert_eq!(errs.len(), 0);
    assert_eq!(toks.len(), 2);
    assert!(matches!(toks[0].ttype, Type::Keyword(Keyword::COMMIT)));
}

#[test]
fn bad_hex_empty() {
    let (toks, errs) = lex("0x");
    assert_eq!(toks.len(), 0);
    assert_eq!(errs.len(), 1);
    assert!(matches!(errs[0].rule, Rule::InvalidNumericLiteral));
    assert_eq!(errs[0].note, "cannot parse integer from empty string");
}

#[test]
fn bad_hex_empty_large_x() {
    let (_, errs) = lex("0X");
    assert!(matches!(errs[0].rule, Rule::InvalidNumericLiteral));
}

#[test]
fn bad_float_with_e() {
    let (toks, errs) = lex(".e");
    assert_eq!(toks.len(), 0);
    assert_eq!(errs.len(), 1);
    assert!(matches!(errs[0].rule, Rule::InvalidNumericLiteral));
    assert_eq!(errs[0].note, "invalid float literal");
}

#[test]
fn bad_float_with_large_e() {
    let (_, errs) = lex(".E");
    assert!(matches!(errs[0].rule, Rule::InvalidNumericLiteral));
}

#[test]
fn bad_float_multiple_e() {
    let (_, errs) = lex(".eeee");
    assert!(matches!(errs[0].rule, Rule::InvalidNumericLiteral));
}

#[test]
fn bad_float_combination() {
    let (toks, errs) = lex("12.e+-15");
    assert_eq!(toks.len(), 0);
    assert!(matches!(errs[0].rule, Rule::InvalidNumericLiteral));
}

#[test]
fn lone_dot_is_structure_access() {
    let (toks, errs) = lex(".");
    assert_eq!(errs.len(), 0);
    assert_eq!(toks.len(), 1);
    assert!(matches!(toks[0].ttype, Type::Dot));
}

#[test]
fn blob_no_quotes() {
    let (toks, errs) = lex("X");
    assert_eq!(toks.len(), 0);
    assert_eq!(errs.len(), 1);
    assert!(matches!(errs[0].rule, Rule::InvalidBlob));
}

#[test]
fn blob_no_quotes_small() {
    let (_, errs) = lex("x");
    assert!(matches!(errs[0].rule, Rule::InvalidBlob));
}

#[test]
fn blob_unterminated() {
    // the string scanner's own unterminated-string diagnostic is kept
    let (toks, errs) = lex("X'");
    assert_eq!(toks.len(), 0);
    assert_eq!(errs.len(), 1);
    assert!(matches!(errs[0].rule, Rule::UnterminatedString));
}

#[test]
fn blob_unterminated_payload() {
    let (toks, errs) = lex("x'102812");
    assert_eq!(toks.len(), 0);
    assert!(matches!(errs[0].rule, Rule::UnterminatedString));
}

#[test]
fn blob_bad_hex_end() {
    let (toks, errs) = lex("X'1281928FFFY'");
    assert_eq!(toks.len(), 0);
    assert_eq!(errs.len(), 1);
    assert!(matches!(errs[0].rule, Rule::InvalidBlob));
}

#[test]
fn unknown_character_ampersand() {
    let (_, errs) = lex("&");
    assert_eq!(errs.len(), 1);
    assert!(matches!(errs[0].rule, Rule::UnknownCharacter));
    assert_eq!(errs[0].note, "character (ascii: '&', decimal: 38, hex: 0x26)");
}

#[test]
fn directive_expect_token() {
    let (toks, errs) = lex("-- @sqleibniz::expect reason\nVACUUM;");
    assert_eq!(errs.len(), 0);
    assert!(matches!(toks[0].ttype, Type::InstructionExpect));
}

#[test]
fn directive_unknown_instruction() {
    let (_, errs) = lex("-- @sqleibniz::nope reason\nVACUUM;");
    assert_eq!(errs.len(), 1);
    assert!(matches!(errs[0].rule, Rule::BadSqleibnizInstruction));
}

#[test]
fn token_positions() {
    let (toks, errs) = lex("BEGIN;\nCOMMIT;");
    assert_eq!(errs.len(), 0);
    assert_eq!(toks.len(), 4);
    assert_eq!(toks[0].line, 0);
    assert_eq!(toks[0].start, 0);
    assert_eq!(toks[0].end, 5);
    assert_eq!(toks[2].line, 1);
    assert_eq!(toks[2].start, 0);
}

#[test]
fn directive_unrecognized_plain_word() {
    // any word after the marker that is not the recognized directive name
    // yields one bad-directive diagnostic
    let (toks, errs) = lex("-- @wrong reason\nBEGIN;");
    assert_eq!(errs.len(), 1);
    assert!(matches!(errs[0].rule, Rule::BadSqleibnizInstruction));
    assert!(errs[0].note.contains("wrong is not a valid sqleibniz instruction"));
    assert_eq!(toks.len(), 2);
}

#[test]
fn directive_name_must_match_exactly() {
    let (toks, errs) = lex("-- @sqleibniz::x::expect reason\nBEGIN;");
    assert_eq!(errs.len(), 1);
    assert!(matches!(errs[0].rule, Rule::BadSqleibnizInstruction));
    assert_eq!(toks.len(), 2);
}

#[test]
fn unknown_character_nul() {
    let bytes = vec![0u8];
    let mut l = Lexer::new(&bytes, "lexer_tests");
    let toks = l.run();
    assert_eq!(toks.len(), 0);
    assert_eq!(l.errors.len(), 1);
    assert!(matches!(l.errors[0].rule, Rule::UnknownCharacter));
    assert_eq!(l.errors[0].note, "character (ascii: '\\0', decimal: 0, hex: 0x0)");
}

#[test]
fn unknown_character_printable_high_byte() {
    let bytes = vec![0xE9u8];
    let mut l = Lexer::new(&bytes, "lexer_tests");
    let toks = l.run();
    assert_eq!(toks.len(), 0);
    assert_eq!(l.errors.len(), 1);
    assert_eq!(l.errors[0].note, "character (ascii: 'é', decimal: 233, hex: 0xe9)");
}

#[test]
fn unknown_character_control_high_byte() {
    let bytes = vec![0x7Fu8];
    let mut l = Lexer::new(&bytes, "lexer_tests");
    let toks = l.run();
    assert_eq!(toks.len(), 0);
    assert_eq!(l.errors[0].note, "character (ascii: '\\u{7f}', decimal: 127, hex: 0x7f)");
}

#[test]
fn instruction_statement_alone_is_silent() {
    let (toks, errs) = lex("-- @sqleibniz::expect why\nVACUUM nope nope;");
    assert_eq!(errs.len(), 0);
    assert!(matches!(toks[0].ttype, Type::InstructionExpect));
    let mut p = sqleibniz::parser::Parser::new(toks, "lexer_tests");
    let ast = p.parse();
    assert_eq!(ast.len(), 0);
    assert_eq!(p.errors.len(), 0);
}
