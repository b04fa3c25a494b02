use sqleibniz::error::Error;
use sqleibniz::keyword::Keyword;
use sqleibniz::lexer::Lexer;
use sqleibniz::nodes::Node;
use sqleibniz::parser::Parser;
use sqleibniz::token::{Token, Type};

fn lex_ok(src: &str) -> Vec<Token> {
    let bytes = src.as_bytes().to_vec();
    let mut l = Lexer::new(&bytes, "parser_tests");
    let toks = l.run();
    assert_eq!(l.errors.len(), 0, "lexing produced diagnostics");
    toks
}

fn parse_src(src: &str) -> (Vec<Option<Box<Node>>>, Vec<Error>) {
    let toks = lex_ok(src);
    let mut p = Parser::new(toks, "parser_tests");
    let ast = p.parse();
    (ast, p.errors)
}

fn leading_keywords(ast: Vec<Option<Box<Node>>>) -> Vec<Keyword> {
    ast.into_iter()
        .map(|o| match o.unwrap().token().ttype {
            Type::Keyword(k) => k,
            ref other => panic!("statement anchored at {:?}", other),
        })
        .collect()
}


#[test]
fn explain() {
    let (ast, errors) = parse_src(r"EXPLAIN VACUUM;");
    assert_eq!(errors.len(), 0, "diagnostics: {:?}", errors);
    assert_eq!(leading_keywords(ast), vec![Keyword::EXPLAIN]);
}

#[test]
fn explain_query_plan() {
    let (ast, errors) = parse_src(r"EXPLAIN QUERY PLAN VACUUM;");
    assert_eq!(errors.len(), 0, "diagnostics: {:?}", errors);
    assert_eq!(leading_keywords(ast), vec![Keyword::EXPLAIN]);
}

#[test]
fn vacuum_first_path() {
    let (ast, errors) = parse_src(r"VACUUM;");
    assert_eq!(errors.len(), 0, "diagnostics: {:?}", errors);
    assert_eq!(leading_keywords(ast), vec![Keyword::VACUUM]);
}

#[test]
fn vacuum_second_path() {
    let (ast, errors) = parse_src(r"VACUUM schema_name;");
    assert_eq!(errors.len(), 0, "diagnostics: {:?}", errors);
    assert_eq!(leading_keywords(ast), vec![Keyword::VACUUM]);
}

#[test]
fn vacuum_third_path() {
    let (ast, errors) = parse_src(r"VACUUM INTO 'filename';");
    assert_eq!(errors.len(), 0, "diagnostics: {:?}", errors);
    assert_eq!(leading_keywords(ast), vec![Keyword::VACUUM]);
}

#[test]
fn vacuum_full_path() {
    let (ast, errors) = parse_src(r"VACUUM schema_name INTO 'filename';");
    assert_eq!(errors.len(), 0, "diagnostics: {:?}", errors);
    assert_eq!(leading_keywords(ast), vec![Keyword::VACUUM]);
}

#[test]
fn begin() {
    let (ast, errors) = parse_src(r"BEGIN;");
    assert_eq!(errors.len(), 0, "diagnostics: {:?}", errors);
    assert_eq!(leading_keywords(ast), vec![Keyword::BEGIN]);
}

#[test]
fn begin_transaction() {
    let (ast, errors) = parse_src(r"BEGIN TRANSACTION;");
    assert_eq!(errors.len(), 0, "diagnostics: {:?}", errors);
    assert_eq!(leading_keywords(ast), vec![Keyword::BEGIN]);
}

#[test]
fn begin_deferred() {
    let (ast, errors) = parse_src(r"BEGIN DEFERRED;");
    assert_eq!(errors.len(), 0, "diagnostics: {:?}", errors);
    assert_eq!(leading_keywords(ast), vec![Keyword::BEGIN]);
}

#[test]
fn begin_immediate() {
    let (ast, errors) = parse_src(r"BEGIN IMMEDIATE;");
    assert_eq!(errors.len(), 0, "diagnostics: {:?}", errors);
    assert_eq!(leading_keywords(ast), vec![Keyword::BEGIN]);
}

#[test]
fn begin_exclusive() {
    let (ast, errors) = parse_src(r"BEGIN EXCLUSIVE;");
    assert_eq!(errors.len(), 0, "diagnostics: {:?}", errors);
    assert_eq!(leading_keywords(ast), vec![Keyword::BEGIN]);
}

#[test]
fn begin_deferred_transaction() {
    let (ast, errors) = parse_src(r"BEGIN DEFERRED TRANSACTION;");
    assert_eq!(errors.len(), 0, "diagnostics: {:?}", errors);
    assert_eq!(leading_keywords(ast), vec![Keyword::BEGIN]);
}

#[test]
fn begin_immediate_transaction() {
    let (ast, errors) = parse_src(r"BEGIN IMMEDIATE TRANSACTION;");
    assert_eq!(errors.len(), 0, "diagnostics: {:?}", errors);
    assert_eq!(leading_keywords(ast), vec![Keyword::BEGIN]);
}

#[test]
fn begin_exclusive_transaction() {
    let (ast, errors) = parse_src(r"BEGIN EXCLUSIVE TRANSACTION;");
    assert_eq!(errors.len(), 0, "diagnostics: {:?}", errors);
    assert_eq!(leading_keywords(ast), vec![Keyword::BEGIN]);
}

#[test]
fn commit() {
    let (ast, errors) = parse_src(r"COMMIT;");
    assert_eq!(errors.len(), 0, "diagnostics: {:?}", errors);
    assert_eq!(leading_keywords(ast), vec![Keyword::COMMIT]);
}

#[test]
fn end_kw() {
    let (ast, errors) = parse_src(r"END;");
    assert_eq!(errors.len(), 0, "diagnostics: {:?}", errors);
    assert_eq!(leading_keywords(ast), vec![Keyword::END]);
}

#[test]
fn commit_transaction() {
    let (ast, errors) = parse_src(r"COMMIT TRANSACTION;");
    assert_eq!(errors.len(), 0, "diagnostics: {:?}", errors);
    assert_eq!(leading_keywords(ast), vec![Keyword::COMMIT]);
}

#[test]
fn end_transaction() {
    let (ast, errors) = parse_src(r"END TRANSACTION;");
    assert_eq!(errors.len(), 0, "diagnostics: {:?}", errors);
    assert_eq!(leading_keywords(ast), vec![Keyword::END]);
}

#[test]
fn rollback() {
    let (ast, errors) = parse_src(r"ROLLBACK;");
    assert_eq!(errors.len(), 0, "diagnostics: {:?}", errors);
    assert_eq!(leading_keywords(ast), vec![Keyword::ROLLBACK]);
}

#[test]
fn rollback_to_save_point() {
    let (ast, errors) = parse_src(r"ROLLBACK TO save_point;");
    assert_eq!(errors.len(), 0, "diagnostics: {:?}", errors);
    assert_eq!(leading_keywords(ast), vec![Keyword::ROLLBACK]);
}

#[test]
fn rollback_to_savepoint_save_point() {
    let (ast, errors) = parse_src(r"ROLLBACK TO SAVEPOINT save_point;");
    assert_eq!(errors.len(), 0, "diagnostics: {:?}", errors);
    assert_eq!(leading_keywords(ast), vec![Keyword::ROLLBACK]);
}

#[test]
fn rollback_transaction() {
    let (ast, errors) = parse_src(r"ROLLBACK TRANSACTION;");
    assert_eq!(errors.len(), 0, "diagnostics: {:?}", errors);
    assert_eq!(leading_keywords(ast), vec![Keyword::ROLLBACK]);
}

#[test]
fn rollback_transaction_to_save_point() {
    let (ast, errors) = parse_src(r"ROLLBACK TRANSACTION TO save_point;");
    assert_eq!(errors.len(), 0, "diagnostics: {:?}", errors);
    assert_eq!(leading_keywords(ast), vec![Keyword::ROLLBACK]);
}

#[test]
fn rollback_transaction_to_savepoint_save_point() {
    let (ast, errors) = parse_src(r"ROLLBACK TRANSACTION TO SAVEPOINT save_point;");
    assert_eq!(errors.len(), 0, "diagnostics: {:?}", errors);
    assert_eq!(leading_keywords(ast), vec![Keyword::ROLLBACK]);
}

#[test]
fn detach_schema_name() {
    let (ast, errors) = parse_src(r"DETACH schema_name;");
    assert_eq!(errors.len(), 0, "diagnostics: {:?}", errors);
    assert_eq!(leading_keywords(ast), vec![Keyword::DETACH]);
}

#[test]
fn detach_database_schema_name() {
    let (ast, errors) = parse_src(r"DETACH DATABASE schema_name;");
    assert_eq!(errors.len(), 0, "diagnostics: {:?}", errors);
    assert_eq!(leading_keywords(ast), vec![Keyword::DETACH]);
}

#[test]
fn analyze() {
    let (ast, errors) = parse_src(r"ANALYZE;");
    assert_eq!(errors.len(), 0, "diagnostics: {:?}", errors);
    assert_eq!(leading_keywords(ast), vec![Keyword::ANALYZE]);
}

#[test]
fn analyze_schema_name() {
    let (ast, errors) = parse_src(r"ANALYZE schema_name;");
    assert_eq!(errors.len(), 0, "diagnostics: {:?}", errors);
    assert_eq!(leading_keywords(ast), vec![Keyword::ANALYZE]);
}

#[test]
fn analyze_index_or_table_name() {
    let (ast, errors) = parse_src(r"ANALYZE index_or_table_name;");
    assert_eq!(errors.len(), 0, "diagnostics: {:?}", errors);
    assert_eq!(leading_keywords(ast), vec![Keyword::ANALYZE]);
}

#[test]
fn analyze_schema_name_with_subtable() {
    let (ast, errors) = parse_src(r"ANALYZE schema_name.index_or_table_name;");
    assert_eq!(errors.len(), 0, "diagnostics: {:?}", errors);
    assert_eq!(leading_keywords(ast), vec![Keyword::ANALYZE]);
}

#[test]
fn drop_index_index_name() {
    let (ast, errors) = parse_src(r"DROP INDEX index_name;");
    assert_eq!(errors.len(), 0, "diagnostics: {:?}", errors);
    assert_eq!(leading_keywords(ast), vec![Keyword::DROP]);
}

#[test]
fn drop_index_if_exists_schema_name_index_name() {
    let (ast, errors) = parse_src(r"DROP INDEX IF EXISTS schema_name.index_name;");
    assert_eq!(errors.len(), 0, "diagnostics: {:?}", errors);
    assert_eq!(leading_keywords(ast), vec![Keyword::DROP]);
}

#[test]
fn drop_table_table_name() {
    let (ast, errors) = parse_src(r"DROP TABLE table_name;");
    assert_eq!(errors.len(), 0, "diagnostics: {:?}", errors);
    assert_eq!(leading_keywords(ast), vec![Keyword::DROP]);
}

#[test]
fn drop_table_if_exists_schema_name_table_name() {
    let (ast, errors) = parse_src(r"DROP TABLE IF EXISTS schema_name.table_name;");
    assert_eq!(errors.len(), 0, "diagnostics: {:?}", errors);
    assert_eq!(leading_keywords(ast), vec![Keyword::DROP]);
}

#[test]
fn drop_trigger_trigger_name() {
    let (ast, errors) = parse_src(r"DROP TRIGGER trigger_name;");
    assert_eq!(errors.len(), 0, "diagnostics: {:?}", errors);
    assert_eq!(leading_keywords(ast), vec![Keyword::DROP]);
}

#[test]
fn drop_trigger_if_exists_schema_name_trigger_name() {
    let (ast, errors) = parse_src(r"DROP TRIGGER IF EXISTS schema_name.trigger_name;");
    assert_eq!(errors.len(), 0, "diagnostics: {:?}", errors);
    assert_eq!(leading_keywords(ast), vec![Keyword::DROP]);
}

#[test]
fn drop_view_view_name() {
    let (ast, errors) = parse_src(r"DROP VIEW view_name;");
    assert_eq!(errors.len(), 0, "diagnostics: {:?}", errors);
    assert_eq!(leading_keywords(ast), vec![Keyword::DROP]);
}

#[test]
fn drop_view_if_exists_schema_name_view_name() {
    let (ast, errors) = parse_src(r"DROP VIEW IF EXISTS schema_name.view_name;");
    assert_eq!(errors.len(), 0, "diagnostics: {:?}", errors);
    assert_eq!(leading_keywords(ast), vec![Keyword::DROP]);
}

#[test]
fn savepoint_savepoint_name() {
    let (ast, errors) = parse_src(r"SAVEPOINT savepoint_name;");
    assert_eq!(errors.len(), 0, "diagnostics: {:?}", errors);
    assert_eq!(leading_keywords(ast), vec![Keyword::SAVEPOINT]);
}

#[test]
fn reindex_bare() {
    let (ast, errors) = parse_src(r"REINDEX;");
    assert_eq!(errors.len(), 0, "diagnostics: {:?}", errors);
    assert_eq!(leading_keywords(ast), vec![Keyword::REINDEX]);
}

#[test]
fn reindex_name() {
    let (ast, errors) = parse_src(r"REINDEX some_collation;");
    assert_eq!(errors.len(), 0, "diagnostics: {:?}", errors);
    assert_eq!(leading_keywords(ast), vec![Keyword::REINDEX]);
}

#[test]
fn reindex_schema_qualified() {
    let (ast, errors) = parse_src(r"REINDEX schema_name.table_name;");
    assert_eq!(errors.len(), 0, "diagnostics: {:?}", errors);
    assert_eq!(leading_keywords(ast), vec![Keyword::REINDEX]);
}

#[test]
fn release_name() {
    let (ast, errors) = parse_src(r"RELEASE savepoint_name;");
    assert_eq!(errors.len(), 0, "diagnostics: {:?}", errors);
    assert_eq!(leading_keywords(ast), vec![Keyword::RELEASE]);
}

#[test]
fn release_savepoint_name() {
    let (ast, errors) = parse_src(r"RELEASE SAVEPOINT savepoint_name;");
    assert_eq!(errors.len(), 0, "diagnostics: {:?}", errors);
    assert_eq!(leading_keywords(ast), vec![Keyword::RELEASE]);
}

#[test]
fn eof_semi() {
    let (_, errors) = parse_src(r";");
    assert_ne!(errors.len(), 0);
}

#[test]
fn eof_hit_string() {
    let (_, errors) = parse_src(r"'str'");
    assert_ne!(errors.len(), 0);
}

#[test]
fn eof_hit_number() {
    let (_, errors) = parse_src(r"0x0");
    assert_ne!(errors.len(), 0);
}

#[test]
fn eof_hit_blob() {
    let (_, errors) = parse_src(r"x''");
    assert_ne!(errors.len(), 0);
}

#[test]
fn eof_hit_null() {
    let (_, errors) = parse_src(r"NULL");
    assert_ne!(errors.len(), 0);
}

#[test]
fn eof_hit_boolean() {
    let (_, errors) = parse_src(r"true");
    assert_ne!(errors.len(), 0);
}

#[test]
fn eof_hit_cur_time() {
    let (_, errors) = parse_src(r"CURRENT_TIME");
    assert_ne!(errors.len(), 0);
}

#[test]
fn eof_hit_cur_date() {
    let (_, errors) = parse_src(r"CURRENT_DATE");
    assert_ne!(errors.len(), 0);
}

#[test]
fn eof_hit_cur_timestamp() {
    let (_, errors) = parse_src(r"CURRENT_TIMESTAMP");
    assert_ne!(errors.len(), 0);
}

#[test]
fn explain_alone() {
    let (_, errors) = parse_src(r"EXPLAIN;");
    assert_ne!(errors.len(), 0);
}

#[test]
fn explain_query_plan_alone() {
    let (_, errors) = parse_src(r"EXPLAIN QUERY PLAN;");
    assert_ne!(errors.len(), 0);
}

#[test]
fn vacuum_no_semicolon() {
    let (_, errors) = parse_src(r"VACUUM");
    assert_ne!(errors.len(), 0);
}

#[test]
fn vacuum_invalid_schema() {
    let (_, errors) = parse_src(r"VACUUM 1;");
    assert_ne!(errors.len(), 0);
}

#[test]
fn vacuum_invalid_filename() {
    let (_, errors) = parse_src(r"VACUUM INTO 5;");
    assert_ne!(errors.len(), 0);
}

#[test]
fn vacuum_invalid_combined() {
    let (_, errors) = parse_src(r"VACUUM 5 INTO 5;");
    assert_ne!(errors.len(), 0);
}

#[test]
fn begin_no_semicolon() {
    let (_, errors) = parse_src(r"BEGIN");
    assert_ne!(errors.len(), 0);
}

#[test]
fn begin_transaction_no_semicolon() {
    let (_, errors) = parse_src(r"BEGIN TRANSACTION");
    assert_ne!(errors.len(), 0);
}

#[test]
fn begin_deferred_no_semicolon() {
    let (_, errors) = parse_src(r"BEGIN DEFERRED");
    assert_ne!(errors.len(), 0);
}

#[test]
fn begin_immediate_no_semicolon() {
    let (_, errors) = parse_src(r"BEGIN IMMEDIATE");
    assert_ne!(errors.len(), 0);
}

#[test]
fn begin_exclusive_no_semicolon() {
    let (_, errors) = parse_src(r"BEGIN EXCLUSIVE");
    assert_ne!(errors.len(), 0);
}

#[test]
fn begin_transaction_with_literal() {
    let (_, errors) = parse_src(r"BEGIN TRANSACTION 25;");
    assert_ne!(errors.len(), 0);
}

#[test]
fn begin_transaction_with_other_keyword() {
    let (_, errors) = parse_src(r"BEGIN TRANSACTION AS;");
    assert_ne!(errors.len(), 0);
}

#[test]
fn begin_too_many_modifiers() {
    let (_, errors) = parse_src(r"BEGIN DEFERRED IMMEDIATE EXCLUSIVE EXCLUSIVE;");
    assert_ne!(errors.len(), 0);
}

#[test]
fn commit_no_semicolon() {
    let (_, errors) = parse_src(r"COMMIT");
    assert_ne!(errors.len(), 0);
}

#[test]
fn end_no_semicolon() {
    let (_, errors) = parse_src(r"END");
    assert_ne!(errors.len(), 0);
}

#[test]
fn commit_transaction_no_semicolon() {
    let (_, errors) = parse_src(r"COMMIT TRANSACTION");
    assert_ne!(errors.len(), 0);
}

#[test]
fn end_transaction_no_semicolon() {
    let (_, errors) = parse_src(r"END TRANSACTION");
    assert_ne!(errors.len(), 0);
}

#[test]
fn commit_with_literal() {
    let (_, errors) = parse_src(r"COMMIT 25;");
    assert_ne!(errors.len(), 0);
}

#[test]
fn end_with_literal() {
    let (_, errors) = parse_src(r"END 12;");
    assert_ne!(errors.len(), 0);
}

#[test]
fn commit_transaction_with_literal() {
    let (_, errors) = parse_src(r"COMMIT TRANSACTION x'81938912';");
    assert_ne!(errors.len(), 0);
}

#[test]
fn end_transaction_with_literal() {
    let (_, errors) = parse_src(r"END TRANSACTION 'kadl';");
    assert_ne!(errors.len(), 0);
}

#[test]
fn rollback_no_semicolon() {
    let (_, errors) = parse_src(r"ROLLBACK");
    assert_ne!(errors.len(), 0);
}

#[test]
fn rollback_to_save_point_no_semicolon() {
    let (_, errors) = parse_src(r"ROLLBACK TO save_point");
    assert_ne!(errors.len(), 0);
}

#[test]
fn rollback_to_savepoint_save_point_no_semicolon() {
    let (_, errors) = parse_src(r"ROLLBACK TO SAVEPOINT save_point");
    assert_ne!(errors.len(), 0);
}

#[test]
fn rollback_transaction_no_semicolon() {
    let (_, errors) = parse_src(r"ROLLBACK TRANSACTION");
    assert_ne!(errors.len(), 0);
}

#[test]
fn rollback_transaction_to_save_point_no_semicolon() {
    let (_, errors) = parse_src(r"ROLLBACK TRANSACTION TO save_point");
    assert_ne!(errors.len(), 0);
}

#[test]
fn rollback_transaction_to_savepoint_no_semicolon() {
    let (_, errors) = parse_src(r"ROLLBACK TRANSACTION TO SAVEPOINT save_point");
    assert_ne!(errors.len(), 0);
}

#[test]
fn rollback_transaction_to_literal_save_point() {
    let (_, errors) = parse_src(r"ROLLBACK TRANSACTION TO SAVEPOINT 'hello';");
    assert_ne!(errors.len(), 0);
}

#[test]
fn detach_schema_name_no_semicolon() {
    let (_, errors) = parse_src(r"DETACH schema_name");
    assert_ne!(errors.len(), 0);
}

#[test]
fn detach_database_schema_name_no_semicolon() {
    let (_, errors) = parse_src(r"DETACH DATABASE schema_name");
    assert_ne!(errors.len(), 0);
}

#[test]
fn detach_schema_no_name() {
    let (_, errors) = parse_src(r"DETACH;");
    assert_ne!(errors.len(), 0);
}

#[test]
fn detach_database_no_schema_name() {
    let (_, errors) = parse_src(r"DETACH DATABASE;");
    assert_ne!(errors.len(), 0);
}

#[test]
fn detach_schema_literal_instead_of_name() {
    let (_, errors) = parse_src(r"DETACH 'this string should not be here';");
    assert_ne!(errors.len(), 0);
}

#[test]
fn drop_index_no_semicolon() {
    let (_, errors) = parse_src(r"DROP INDEX index_name");
    assert_ne!(errors.len(), 0);
}

#[test]
fn drop_index_if_exists_no_semicolon() {
    let (_, errors) = parse_src(r"DROP INDEX IF EXISTS schema_name.index_name");
    assert_ne!(errors.len(), 0);
}

#[test]
fn drop_table_no_semicolon() {
    let (_, errors) = parse_src(r"DROP TABLE table_name");
    assert_ne!(errors.len(), 0);
}

#[test]
fn drop_table_if_exists_no_semicolon() {
    let (_, errors) = parse_src(r"DROP TABLE IF EXISTS schema_name.table_name");
    assert_ne!(errors.len(), 0);
}

#[test]
fn drop_trigger_no_semicolon() {
    let (_, errors) = parse_src(r"DROP TRIGGER trigger_name");
    assert_ne!(errors.len(), 0);
}

#[test]
fn drop_trigger_if_exists_no_semicolon() {
    let (_, errors) = parse_src(r"DROP TRIGGER IF EXISTS schema_name.trigger_name");
    assert_ne!(errors.len(), 0);
}

#[test]
fn drop_view_no_semicolon() {
    let (_, errors) = parse_src(r"DROP VIEW view_name");
    assert_ne!(errors.len(), 0);
}

#[test]
fn drop_view_if_exists_no_semicolon() {
    let (_, errors) = parse_src(r"DROP VIEW IF EXISTS schema_name.view_name");
    assert_ne!(errors.len(), 0);
}

#[test]
fn drop_index_no_index_name() {
    let (_, errors) = parse_src(r"DROP INDEX;");
    assert_ne!(errors.len(), 0);
}

#[test]
fn drop_table_no_table_name() {
    let (_, errors) = parse_src(r"DROP TABLE;");
    assert_ne!(errors.len(), 0);
}

#[test]
fn drop_trigger_no_trigger_name() {
    let (_, errors) = parse_src(r"DROP TRIGGER;");
    assert_ne!(errors.len(), 0);
}

#[test]
fn drop_view_no_view_name() {
    let (_, errors) = parse_src(r"DROP VIEW;");
    assert_ne!(errors.len(), 0);
}

#[test]
fn savepoint_no_semicolon() {
    let (_, errors) = parse_src(r"SAVEPOINT savepoint_name");
    assert_ne!(errors.len(), 0);
}

#[test]
fn savepoint_no_savepoint_name() {
    let (_, errors) = parse_src(r"SAVEPOINT;");
    assert_ne!(errors.len(), 0);
}

#[test]
fn unknown_keyword() {
    let (_, errors) = parse_src(r"foobar;");
    assert_ne!(errors.len(), 0);
}

#[test]
fn unimplemented_keyword() {
    let (_, errors) = parse_src(r"SELECT 1;");
    assert_ne!(errors.len(), 0);
}

#[test]
fn instruction_expect_suppresses_next_statement() {
    let (ast, errors) = parse_src(
        "\n-- @sqleibniz::expect lets skip this error\nVACUUM 25;\nEXPLAIN VACUUM;\n        ",
    );
    assert_eq!(errors.len(), 0, "diagnostics: {:?}", errors);
    assert_eq!(leading_keywords(ast), vec![Keyword::EXPLAIN]);
}

#[test]
fn instruction_expect_with_semicolons_in_comment() {
    let (ast, errors) = parse_src(
        "\n-- @sqleibniz::expect lets skip this error;;;;;;;;\nVACUUM 25;\nEXPLAIN VACUUM;\n        ",
    );
    assert_eq!(errors.len(), 0, "diagnostics: {:?}", errors);
    assert_eq!(leading_keywords(ast), vec![Keyword::EXPLAIN]);
}

