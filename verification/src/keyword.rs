//! The fixed SQL keyword table: the closed set of keywords the scanner
//! recognizes, with a case-insensitive lookup.

use vstd::prelude::*;

use crate::lev::{distance, lev};
use crate::text::{spec_upper, str_eq, upper_string};

verus! {

/// The closed set of SQL keywords.
#[allow(non_camel_case_types)]
#[derive(Debug, Clone, Copy, PartialEq, Eq, Structural)]
pub enum Keyword {
    ABORT,
    ACTION,
    ADD,
    AFTER,
    ALL,
    ALTER,
    ALWAYS,
    ANALYZE,
    AND,
    AS,
    ASC,
    ATTACH,
    AUTOINCREMENT,
    BEFORE,
    BEGIN,
    BETWEEN,
    BY,
    CASCADE,
    CASE,
    CAST,
    CHECK,
    COLLATE,
    COLUMN,
    COMMIT,
    CONFLICT,
    CONSTRAINT,
    CREATE,
    CROSS,
    CURRENT,
    CURRENT_DATE,
    CURRENT_TIME,
    CURRENT_TIMESTAMP,
    DATABASE,
    DEFAULT,
    DEFERRABLE,
    DEFERRED,
    DELETE,
    DESC,
    DETACH,
    DISTINCT,
    DO,
    DROP,
    EACH,
    ELSE,
    END,
    ESCAPE,
    EXCEPT,
    EXCLUDE,
    EXCLUSIVE,
    EXISTS,
    EXPLAIN,
    FAIL,
    FILTER,
    FIRST,
    FOLLOWING,
    FOR,
    FOREIGN,
    FROM,
    FULL,
    GENERATED,
    GLOB,
    GROUP,
    GROUPS,
    HAVING,
    IF,
    IGNORE,
    IMMEDIATE,
    IN,
    INDEX,
    INDEXED,
    INITIALLY,
    INNER,
    INSERT,
    INSTEAD,
    INTERSECT,
    INTO,
    IS,
    ISNULL,
    JOIN,
    KEY,
    LAST,
    LEFT,
    LIKE,
    LIMIT,
    MATCH,
    MATERIALIZED,
    NATURAL,
    NO,
    NOT,
    NOTHING,
    NOTNULL,
    NULL,
    NULLS,
    OF,
    OFFSET,
    ON,
    OR,
    ORDER,
    OTHERS,
    OUTER,
    OVER,
    PARTITION,
    PLAN,
    PRAGMA,
    PRECEDING,
    PRIMARY,
    QUERY,
    RAISE,
    RANGE,
    RECURSIVE,
    REFERENCES,
    REGEXP,
    REINDEX,
    RELEASE,
    RENAME,
    REPLACE,
    RESTRICT,
    RETURNING,
    RIGHT,
    ROLLBACK,
    ROW,
    ROWS,
    SAVEPOINT,
    SELECT,
    SET,
    TABLE,
    TEMP,
    TEMPORARY,
    THEN,
    TIES,
    TO,
    TRANSACTION,
    TRIGGER,
    UNBOUNDED,
    UNION,
    UNIQUE,
    UPDATE,
    USING,
    VACUUM,
    VALUES,
    VIEW,
    VIRTUAL,
    WHEN,
    WHERE,
    WINDOW,
    WITH,
    WITHOUT,
}

impl Keyword {
    /// The keyword a character sequence names, compared ASCII
    /// case-insensitively against the keyword table, if any.
    pub open spec fn spec_from_str(s: Seq<char>) -> Option<Keyword> {
        Self::spec_lookup(spec_upper(s))
    }

    /// The keyword table: maps an upper-case character sequence to its
    /// keyword.
    pub open spec fn spec_lookup(u: Seq<char>) -> Option<Keyword> {
        if u == "ABORT"@ {
            Some(Keyword::ABORT)
        } else if u == "ACTION"@ {
            Some(Keyword::ACTION)
        } else if u == "ADD"@ {
            Some(Keyword::ADD)
        } else if u == "AFTER"@ {
            Some(Keyword::AFTER)
        } else if u == "ALL"@ {
            Some(Keyword::ALL)
        } else if u == "ALTER"@ {
            Some(Keyword::ALTER)
        } else if u == "ALWAYS"@ {
            Some(Keyword::ALWAYS)
        } else if u == "ANALYZE"@ {
            Some(Keyword::ANALYZE)
        } else if u == "AND"@ {
            Some(Keyword::AND)
        } else if u == "AS"@ {
            Some(Keyword::AS)
        } else if u == "ASC"@ {
            Some(Keyword::ASC)
        } else if u == "ATTACH"@ {
            Some(Keyword::ATTACH)
        } else if u == "AUTOINCREMENT"@ {
            Some(Keyword::AUTOINCREMENT)
        } else if u == "BEFORE"@ {
            Some(Keyword::BEFORE)
        } else if u == "BEGIN"@ {
            Some(Keyword::BEGIN)
        } else if u == "BETWEEN"@ {
            Some(Keyword::BETWEEN)
        } else if u == "BY"@ {
            Some(Keyword::BY)
        } else if u == "CASCADE"@ {
            Some(Keyword::CASCADE)
        } else if u == "CASE"@ {
            Some(Keyword::CASE)
        } else if u == "CAST"@ {
            Some(Keyword::CAST)
        } else if u == "CHECK"@ {
            Some(Keyword::CHECK)
        } else if u == "COLLATE"@ {
            Some(Keyword::COLLATE)
        } else if u == "COLUMN"@ {
            Some(Keyword::COLUMN)
        } else if u == "COMMIT"@ {
            Some(Keyword::COMMIT)
        } else if u == "CONFLICT"@ {
            Some(Keyword::CONFLICT)
        } else if u == "CONSTRAINT"@ {
            Some(Keyword::CONSTRAINT)
        } else if u == "CREATE"@ {
            Some(Keyword::CREATE)
        } else if u == "CROSS"@ {
            Some(Keyword::CROSS)
        } else if u == "CURRENT"@ {
            Some(Keyword::CURRENT)
        } else if u == "CURRENT_DATE"@ {
            Some(Keyword::CURRENT_DATE)
        } else if u == "CURRENT_TIME"@ {
            Some(Keyword::CURRENT_TIME)
        } else if u == "CURRENT_TIMESTAMP"@ {
            Some(Keyword::CURRENT_TIMESTAMP)
        } else if u == "DATABASE"@ {
            Some(Keyword::DATABASE)
        } else if u == "DEFAULT"@ {
            Some(Keyword::DEFAULT)
        } else if u == "DEFERRABLE"@ {
            Some(Keyword::DEFERRABLE)
        } else if u == "DEFERRED"@ {
            Some(Keyword::DEFERRED)
        } else if u == "DELETE"@ {
            Some(Keyword::DELETE)
        } else if u == "DESC"@ {
            Some(Keyword::DESC)
        } else if u == "DETACH"@ {
            Some(Keyword::DETACH)
        } else if u == "DISTINCT"@ {
            Some(Keyword::DISTINCT)
        } else if u == "DO"@ {
            Some(Keyword::DO)
        } else if u == "DROP"@ {
            Some(Keyword::DROP)
        } else if u == "EACH"@ {
            Some(Keyword::EACH)
        } else if u == "ELSE"@ {
            Some(Keyword::ELSE)
        } else if u == "END"@ {
            Some(Keyword::END)
        } else if u == "ESCAPE"@ {
            Some(Keyword::ESCAPE)
        } else if u == "EXCEPT"@ {
            Some(Keyword::EXCEPT)
        } else if u == "EXCLUDE"@ {
            Some(Keyword::EXCLUDE)
        } else if u == "EXCLUSIVE"@ {
            Some(Keyword::EXCLUSIVE)
        } else if u == "EXISTS"@ {
            Some(Keyword::EXISTS)
        } else if u == "EXPLAIN"@ {
            Some(Keyword::EXPLAIN)
        } else if u == "FAIL"@ {
            Some(Keyword::FAIL)
        } else if u == "FILTER"@ {
            Some(Keyword::FILTER)
        } else if u == "FIRST"@ {
            Some(Keyword::FIRST)
        } else if u == "FOLLOWING"@ {
            Some(Keyword::FOLLOWING)
        } else if u == "FOR"@ {
            Some(Keyword::FOR)
        } else if u == "FOREIGN"@ {
            Some(Keyword::FOREIGN)
        } else if u == "FROM"@ {
            Some(Keyword::FROM)
        } else if u == "FULL"@ {
            Some(Keyword::FULL)
        } else if u == "GENERATED"@ {
            Some(Keyword::GENERATED)
        } else if u == "GLOB"@ {
            Some(Keyword::GLOB)
        } else if u == "GROUP"@ {
            Some(Keyword::GROUP)
        } else if u == "GROUPS"@ {
            Some(Keyword::GROUPS)
        } else if u == "HAVING"@ {
            Some(Keyword::HAVING)
        } else if u == "IF"@ {
            Some(Keyword::IF)
        } else if u == "IGNORE"@ {
            Some(Keyword::IGNORE)
        } else if u == "IMMEDIATE"@ {
            Some(Keyword::IMMEDIATE)
        } else if u == "IN"@ {
            Some(Keyword::IN)
        } else if u == "INDEX"@ {
            Some(Keyword::INDEX)
        } else if u == "INDEXED"@ {
            Some(Keyword::INDEXED)
        } else if u == "INITIALLY"@ {
            Some(Keyword::INITIALLY)
        } else if u == "INNER"@ {
            Some(Keyword::INNER)
        } else if u == "INSERT"@ {
            Some(Keyword::INSERT)
        } else if u == "INSTEAD"@ {
            Some(Keyword::INSTEAD)
        } else if u == "INTERSECT"@ {
            Some(Keyword::INTERSECT)
        } else if u == "INTO"@ {
            Some(Keyword::INTO)
        } else if u == "IS"@ {
            Some(Keyword::IS)
        } else if u == "ISNULL"@ {
            Some(Keyword::ISNULL)
        } else if u == "JOIN"@ {
            Some(Keyword::JOIN)
        } else if u == "KEY"@ {
            Some(Keyword::KEY)
        } else if u == "LAST"@ {
            Some(Keyword::LAST)
        } else if u == "LEFT"@ {
            Some(Keyword::LEFT)
        } else if u == "LIKE"@ {
            Some(Keyword::LIKE)
        } else if u == "LIMIT"@ {
            Some(Keyword::LIMIT)
        } else if u == "MATCH"@ {
            Some(Keyword::MATCH)
        } else if u == "MATERIALIZED"@ {
            Some(Keyword::MATERIALIZED)
        } else if u == "NATURAL"@ {
            Some(Keyword::NATURAL)
        } else if u == "NO"@ {
            Some(Keyword::NO)
        } else if u == "NOT"@ {
            Some(Keyword::NOT)
        } else if u == "NOTHING"@ {
            Some(Keyword::NOTHING)
        } else if u == "NOTNULL"@ {
            Some(Keyword::NOTNULL)
        } else if u == "NULL"@ {
            Some(Keyword::NULL)
        } else if u == "NULLS"@ {
            Some(Keyword::NULLS)
        } else if u == "OF"@ {
            Some(Keyword::OF)
        } else if u == "OFFSET"@ {
            Some(Keyword::OFFSET)
        } else if u == "ON"@ {
            Some(Keyword::ON)
        } else if u == "OR"@ {
            Some(Keyword::OR)
        } else if u == "ORDER"@ {
            Some(Keyword::ORDER)
        } else if u == "OTHERS"@ {
            Some(Keyword::OTHERS)
        } else if u == "OUTER"@ {
            Some(Keyword::OUTER)
        } else if u == "OVER"@ {
            Some(Keyword::OVER)
        } else if u == "PARTITION"@ {
            Some(Keyword::PARTITION)
        } else if u == "PLAN"@ {
            Some(Keyword::PLAN)
        } else if u == "PRAGMA"@ {
            Some(Keyword::PRAGMA)
        } else if u == "PRECEDING"@ {
            Some(Keyword::PRECEDING)
        } else if u == "PRIMARY"@ {
            Some(Keyword::PRIMARY)
        } else if u == "QUERY"@ {
            Some(Keyword::QUERY)
        } else if u == "RAISE"@ {
            Some(Keyword::RAISE)
        } else if u == "RANGE"@ {
            Some(Keyword::RANGE)
        } else if u == "RECURSIVE"@ {
            Some(Keyword::RECURSIVE)
        } else if u == "REFERENCES"@ {
            Some(Keyword::REFERENCES)
        } else if u == "REGEXP"@ {
            Some(Keyword::REGEXP)
        } else if u == "REINDEX"@ {
            Some(Keyword::REINDEX)
        } else if u == "RELEASE"@ {
            Some(Keyword::RELEASE)
        } else if u == "RENAME"@ {
            Some(Keyword::RENAME)
        } else if u == "REPLACE"@ {
            Some(Keyword::REPLACE)
        } else if u == "RESTRICT"@ {
            Some(Keyword::RESTRICT)
        } else if u == "RETURNING"@ {
            Some(Keyword::RETURNING)
        } else if u == "RIGHT"@ {
            Some(Keyword::RIGHT)
        } else if u == "ROLLBACK"@ {
            Some(Keyword::ROLLBACK)
        } else if u == "ROW"@ {
            Some(Keyword::ROW)
        } else if u == "ROWS"@ {
            Some(Keyword::ROWS)
        } else if u == "SAVEPOINT"@ {
            Some(Keyword::SAVEPOINT)
        } else if u == "SELECT"@ {
            Some(Keyword::SELECT)
        } else if u == "SET"@ {
            Some(Keyword::SET)
        } else if u == "TABLE"@ {
            Some(Keyword::TABLE)
        } else if u == "TEMP"@ {
            Some(Keyword::TEMP)
        } else if u == "TEMPORARY"@ {
            Some(Keyword::TEMPORARY)
        } else if u == "THEN"@ {
            Some(Keyword::THEN)
        } else if u == "TIES"@ {
            Some(Keyword::TIES)
        } else if u == "TO"@ {
            Some(Keyword::TO)
        } else if u == "TRANSACTION"@ {
            Some(Keyword::TRANSACTION)
        } else if u == "TRIGGER"@ {
            Some(Keyword::TRIGGER)
        } else if u == "UNBOUNDED"@ {
            Some(Keyword::UNBOUNDED)
        } else if u == "UNION"@ {
            Some(Keyword::UNION)
        } else if u == "UNIQUE"@ {
            Some(Keyword::UNIQUE)
        } else if u == "UPDATE"@ {
            Some(Keyword::UPDATE)
        } else if u == "USING"@ {
            Some(Keyword::USING)
        } else if u == "VACUUM"@ {
            Some(Keyword::VACUUM)
        } else if u == "VALUES"@ {
            Some(Keyword::VALUES)
        } else if u == "VIEW"@ {
            Some(Keyword::VIEW)
        } else if u == "VIRTUAL"@ {
            Some(Keyword::VIRTUAL)
        } else if u == "WHEN"@ {
            Some(Keyword::WHEN)
        } else if u == "WHERE"@ {
            Some(Keyword::WHERE)
        } else if u == "WINDOW"@ {
            Some(Keyword::WINDOW)
        } else if u == "WITH"@ {
            Some(Keyword::WITH)
        } else if u == "WITHOUT"@ {
            Some(Keyword::WITHOUT)
        } else {
            None
        }
    }

    /// Looks `s` up in the keyword table, ASCII case-insensitively.
    pub fn from_str(s: &str) -> (r: Option<Keyword>)
        ensures
            r == Self::spec_from_str(s@),
    {
        let u = upper_string(s);
        let us = u.as_str();
        if str_eq(us, "ABORT") {
            Some(Keyword::ABORT)
        } else if str_eq(us, "ACTION") {
            Some(Keyword::ACTION)
        } else if str_eq(us, "ADD") {
            Some(Keyword::ADD)
        } else if str_eq(us, "AFTER") {
            Some(Keyword::AFTER)
        } else if str_eq(us, "ALL") {
            Some(Keyword::ALL)
        } else if str_eq(us, "ALTER") {
            Some(Keyword::ALTER)
        } else if str_eq(us, "ALWAYS") {
            Some(Keyword::ALWAYS)
        } else if str_eq(us, "ANALYZE") {
            Some(Keyword::ANALYZE)
        } else if str_eq(us, "AND") {
            Some(Keyword::AND)
        } else if str_eq(us, "AS") {
            Some(Keyword::AS)
        } else if str_eq(us, "ASC") {
            Some(Keyword::ASC)
        } else if str_eq(us, "ATTACH") {
            Some(Keyword::ATTACH)
        } else if str_eq(us, "AUTOINCREMENT") {
            Some(Keyword::AUTOINCREMENT)
        } else if str_eq(us, "BEFORE") {
            Some(Keyword::BEFORE)
        } else if str_eq(us, "BEGIN") {
            Some(Keyword::BEGIN)
        } else if str_eq(us, "BETWEEN") {
            Some(Keyword::BETWEEN)
        } else if str_eq(us, "BY") {
            Some(Keyword::BY)
        } else if str_eq(us, "CASCADE") {
            Some(Keyword::CASCADE)
        } else if str_eq(us, "CASE") {
            Some(Keyword::CASE)
        } else if str_eq(us, "CAST") {
            Some(Keyword::CAST)
        } else if str_eq(us, "CHECK") {
            Some(Keyword::CHECK)
        } else if str_eq(us, "COLLATE") {
            Some(Keyword::COLLATE)
        } else if str_eq(us, "COLUMN") {
            Some(Keyword::COLUMN)
        } else if str_eq(us, "COMMIT") {
            Some(Keyword::COMMIT)
        } else if str_eq(us, "CONFLICT") {
            Some(Keyword::CONFLICT)
        } else if str_eq(us, "CONSTRAINT") {
            Some(Keyword::CONSTRAINT)
        } else if str_eq(us, "CREATE") {
            Some(Keyword::CREATE)
        } else if str_eq(us, "CROSS") {
            Some(Keyword::CROSS)
        } else if str_eq(us, "CURRENT") {
            Some(Keyword::CURRENT)
        } else if str_eq(us, "CURRENT_DATE") {
            Some(Keyword::CURRENT_DATE)
        } else if str_eq(us, "CURRENT_TIME") {
            Some(Keyword::CURRENT_TIME)
        } else if str_eq(us, "CURRENT_TIMESTAMP") {
            Some(Keyword::CURRENT_TIMESTAMP)
        } else if str_eq(us, "DATABASE") {
            Some(Keyword::DATABASE)
        } else if str_eq(us, "DEFAULT") {
            Some(Keyword::DEFAULT)
        } else if str_eq(us, "DEFERRABLE") {
            Some(Keyword::DEFERRABLE)
        } else if str_eq(us, "DEFERRED") {
            Some(Keyword::DEFERRED)
        } else if str_eq(us, "DELETE") {
            Some(Keyword::DELETE)
        } else if str_eq(us, "DESC") {
            Some(Keyword::DESC)
        } else if str_eq(us, "DETACH") {
            Some(Keyword::DETACH)
        } else if str_eq(us, "DISTINCT") {
            Some(Keyword::DISTINCT)
        } else if str_eq(us, "DO") {
            Some(Keyword::DO)
        } else if str_eq(us, "DROP") {
            Some(Keyword::DROP)
        } else if str_eq(us, "EACH") {
            Some(Keyword::EACH)
        } else if str_eq(us, "ELSE") {
            Some(Keyword::ELSE)
        } else if str_eq(us, "END") {
            Some(Keyword::END)
        } else if str_eq(us, "ESCAPE") {
            Some(Keyword::ESCAPE)
        } else if str_eq(us, "EXCEPT") {
            Some(Keyword::EXCEPT)
        } else if str_eq(us, "EXCLUDE") {
            Some(Keyword::EXCLUDE)
        } else if str_eq(us, "EXCLUSIVE") {
            Some(Keyword::EXCLUSIVE)
        } else if str_eq(us, "EXISTS") {
            Some(Keyword::EXISTS)
        } else if str_eq(us, "EXPLAIN") {
            Some(Keyword::EXPLAIN)
        } else if str_eq(us, "FAIL") {
            Some(Keyword::FAIL)
        } else if str_eq(us, "FILTER") {
            Some(Keyword::FILTER)
        } else if str_eq(us, "FIRST") {
            Some(Keyword::FIRST)
        } else if str_eq(us, "FOLLOWING") {
            Some(Keyword::FOLLOWING)
        } else if str_eq(us, "FOR") {
            Some(Keyword::FOR)
        } else if str_eq(us, "FOREIGN") {
            Some(Keyword::FOREIGN)
        } else if str_eq(us, "FROM") {
            Some(Keyword::FROM)
        } else if str_eq(us, "FULL") {
            Some(Keyword::FULL)
        } else if str_eq(us, "GENERATED") {
            Some(Keyword::GENERATED)
        } else if str_eq(us, "GLOB") {
            Some(Keyword::GLOB)
        } else if str_eq(us, "GROUP") {
            Some(Keyword::GROUP)
        } else if str_eq(us, "GROUPS") {
            Some(Keyword::GROUPS)
        } else if str_eq(us, "HAVING") {
            Some(Keyword::HAVING)
        } else if str_eq(us, "IF") {
            Some(Keyword::IF)
        } else if str_eq(us, "IGNORE") {
            Some(Keyword::IGNORE)
        } else if str_eq(us, "IMMEDIATE") {
            Some(Keyword::IMMEDIATE)
        } else if str_eq(us, "IN") {
            Some(Keyword::IN)
        } else if str_eq(us, "INDEX") {
            Some(Keyword::INDEX)
        } else if str_eq(us, "INDEXED") {
            Some(Keyword::INDEXED)
        } else if str_eq(us, "INITIALLY") {
            Some(Keyword::INITIALLY)
        } else if str_eq(us, "INNER") {
            Some(Keyword::INNER)
        } else if str_eq(us, "INSERT") {
            Some(Keyword::INSERT)
        } else if str_eq(us, "INSTEAD") {
            Some(Keyword::INSTEAD)
        } else if str_eq(us, "INTERSECT") {
            Some(Keyword::INTERSECT)
        } else if str_eq(us, "INTO") {
            Some(Keyword::INTO)
        } else if str_eq(us, "IS") {
            Some(Keyword::IS)
        } else if str_eq(us, "ISNULL") {
            Some(Keyword::ISNULL)
        } else if str_eq(us, "JOIN") {
            Some(Keyword::JOIN)
        } else if str_eq(us, "KEY") {
            Some(Keyword::KEY)
        } else if str_eq(us, "LAST") {
            Some(Keyword::LAST)
        } else if str_eq(us, "LEFT") {
            Some(Keyword::LEFT)
        } else if str_eq(us, "LIKE") {
            Some(Keyword::LIKE)
        } else if str_eq(us, "LIMIT") {
            Some(Keyword::LIMIT)
        } else if str_eq(us, "MATCH") {
            Some(Keyword::MATCH)
        } else if str_eq(us, "MATERIALIZED") {
            Some(Keyword::MATERIALIZED)
        } else if str_eq(us, "NATURAL") {
            Some(Keyword::NATURAL)
        } else if str_eq(us, "NO") {
            Some(Keyword::NO)
        } else if str_eq(us, "NOT") {
            Some(Keyword::NOT)
        } else if str_eq(us, "NOTHING") {
            Some(Keyword::NOTHING)
        } else if str_eq(us, "NOTNULL") {
            Some(Keyword::NOTNULL)
        } else if str_eq(us, "NULL") {
            Some(Keyword::NULL)
        } else if str_eq(us, "NULLS") {
            Some(Keyword::NULLS)
        } else if str_eq(us, "OF") {
            Some(Keyword::OF)
        } else if str_eq(us, "OFFSET") {
            Some(Keyword::OFFSET)
        } else if str_eq(us, "ON") {
            Some(Keyword::ON)
        } else if str_eq(us, "OR") {
            Some(Keyword::OR)
        } else if str_eq(us, "ORDER") {
            Some(Keyword::ORDER)
        } else if str_eq(us, "OTHERS") {
            Some(Keyword::OTHERS)
        } else if str_eq(us, "OUTER") {
            Some(Keyword::OUTER)
        } else if str_eq(us, "OVER") {
            Some(Keyword::OVER)
        } else if str_eq(us, "PARTITION") {
            Some(Keyword::PARTITION)
        } else if str_eq(us, "PLAN") {
            Some(Keyword::PLAN)
        } else if str_eq(us, "PRAGMA") {
            Some(Keyword::PRAGMA)
        } else if str_eq(us, "PRECEDING") {
            Some(Keyword::PRECEDING)
        } else if str_eq(us, "PRIMARY") {
            Some(Keyword::PRIMARY)
        } else if str_eq(us, "QUERY") {
            Some(Keyword::QUERY)
        } else if str_eq(us, "RAISE") {
            Some(Keyword::RAISE)
        } else if str_eq(us, "RANGE") {
            Some(Keyword::RANGE)
        } else if str_eq(us, "RECURSIVE") {
            Some(Keyword::RECURSIVE)
        } else if str_eq(us, "REFERENCES") {
            Some(Keyword::REFERENCES)
        } else if str_eq(us, "REGEXP") {
            Some(Keyword::REGEXP)
        } else if str_eq(us, "REINDEX") {
            Some(Keyword::REINDEX)
        } else if str_eq(us, "RELEASE") {
            Some(Keyword::RELEASE)
        } else if str_eq(us, "RENAME") {
            Some(Keyword::RENAME)
        } else if str_eq(us, "REPLACE") {
            Some(Keyword::REPLACE)
        } else if str_eq(us, "RESTRICT") {
            Some(Keyword::RESTRICT)
        } else if str_eq(us, "RETURNING") {
            Some(Keyword::RETURNING)
        } else if str_eq(us, "RIGHT") {
            Some(Keyword::RIGHT)
        } else if str_eq(us, "ROLLBACK") {
            Some(Keyword::ROLLBACK)
        } else if str_eq(us, "ROW") {
            Some(Keyword::ROW)
        } else if str_eq(us, "ROWS") {
            Some(Keyword::ROWS)
        } else if str_eq(us, "SAVEPOINT") {
            Some(Keyword::SAVEPOINT)
        } else if str_eq(us, "SELECT") {
            Some(Keyword::SELECT)
        } else if str_eq(us, "SET") {
            Some(Keyword::SET)
        } else if str_eq(us, "TABLE") {
            Some(Keyword::TABLE)
        } else if str_eq(us, "TEMP") {
            Some(Keyword::TEMP)
        } else if str_eq(us, "TEMPORARY") {
            Some(Keyword::TEMPORARY)
        } else if str_eq(us, "THEN") {
            Some(Keyword::THEN)
        } else if str_eq(us, "TIES") {
            Some(Keyword::TIES)
        } else if str_eq(us, "TO") {
            Some(Keyword::TO)
        } else if str_eq(us, "TRANSACTION") {
            Some(Keyword::TRANSACTION)
        } else if str_eq(us, "TRIGGER") {
            Some(Keyword::TRIGGER)
        } else if str_eq(us, "UNBOUNDED") {
            Some(Keyword::UNBOUNDED)
        } else if str_eq(us, "UNION") {
            Some(Keyword::UNION)
        } else if str_eq(us, "UNIQUE") {
            Some(Keyword::UNIQUE)
        } else if str_eq(us, "UPDATE") {
            Some(Keyword::UPDATE)
        } else if str_eq(us, "USING") {
            Some(Keyword::USING)
        } else if str_eq(us, "VACUUM") {
            Some(Keyword::VACUUM)
        } else if str_eq(us, "VALUES") {
            Some(Keyword::VALUES)
        } else if str_eq(us, "VIEW") {
            Some(Keyword::VIEW)
        } else if str_eq(us, "VIRTUAL") {
            Some(Keyword::VIRTUAL)
        } else if str_eq(us, "WHEN") {
            Some(Keyword::WHEN)
        } else if str_eq(us, "WHERE") {
            Some(Keyword::WHERE)
        } else if str_eq(us, "WINDOW") {
            Some(Keyword::WINDOW)
        } else if str_eq(us, "WITH") {
            Some(Keyword::WITH)
        } else if str_eq(us, "WITHOUT") {
            Some(Keyword::WITHOUT)
        } else {
            None
        }
    }

    /// The canonical (upper-case) spelling of the keyword.
    pub open spec fn spec_name(self) -> Seq<char> {
        match self {
            Keyword::ABORT => "ABORT"@,
            Keyword::ACTION => "ACTION"@,
            Keyword::ADD => "ADD"@,
            Keyword::AFTER => "AFTER"@,
            Keyword::ALL => "ALL"@,
            Keyword::ALTER => "ALTER"@,
            Keyword::ALWAYS => "ALWAYS"@,
            Keyword::ANALYZE => "ANALYZE"@,
            Keyword::AND => "AND"@,
            Keyword::AS => "AS"@,
            Keyword::ASC => "ASC"@,
            Keyword::ATTACH => "ATTACH"@,
            Keyword::AUTOINCREMENT => "AUTOINCREMENT"@,
            Keyword::BEFORE => "BEFORE"@,
            Keyword::BEGIN => "BEGIN"@,
            Keyword::BETWEEN => "BETWEEN"@,
            Keyword::BY => "BY"@,
            Keyword::CASCADE => "CASCADE"@,
            Keyword::CASE => "CASE"@,
            Keyword::CAST => "CAST"@,
            Keyword::CHECK => "CHECK"@,
            Keyword::COLLATE => "COLLATE"@,
            Keyword::COLUMN => "COLUMN"@,
            Keyword::COMMIT => "COMMIT"@,
            Keyword::CONFLICT => "CONFLICT"@,
            Keyword::CONSTRAINT => "CONSTRAINT"@,
            Keyword::CREATE => "CREATE"@,
            Keyword::CROSS => "CROSS"@,
            Keyword::CURRENT => "CURRENT"@,
            Keyword::CURRENT_DATE => "CURRENT_DATE"@,
            Keyword::CURRENT_TIME => "CURRENT_TIME"@,
            Keyword::CURRENT_TIMESTAMP => "CURRENT_TIMESTAMP"@,
            Keyword::DATABASE => "DATABASE"@,
            Keyword::DEFAULT => "DEFAULT"@,
            Keyword::DEFERRABLE => "DEFERRABLE"@,
            Keyword::DEFERRED => "DEFERRED"@,
            Keyword::DELETE => "DELETE"@,
            Keyword::DESC => "DESC"@,
            Keyword::DETACH => "DETACH"@,
            Keyword::DISTINCT => "DISTINCT"@,
            Keyword::DO => "DO"@,
            Keyword::DROP => "DROP"@,
            Keyword::EACH => "EACH"@,
            Keyword::ELSE => "ELSE"@,
            Keyword::END => "END"@,
            Keyword::ESCAPE => "ESCAPE"@,
            Keyword::EXCEPT => "EXCEPT"@,
            Keyword::EXCLUDE => "EXCLUDE"@,
            Keyword::EXCLUSIVE => "EXCLUSIVE"@,
            Keyword::EXISTS => "EXISTS"@,
            Keyword::EXPLAIN => "EXPLAIN"@,
            Keyword::FAIL => "FAIL"@,
            Keyword::FILTER => "FILTER"@,
            Keyword::FIRST => "FIRST"@,
            Keyword::FOLLOWING => "FOLLOWING"@,
            Keyword::FOR => "FOR"@,
            Keyword::FOREIGN => "FOREIGN"@,
            Keyword::FROM => "FROM"@,
            Keyword::FULL => "FULL"@,
            Keyword::GENERATED => "GENERATED"@,
            Keyword::GLOB => "GLOB"@,
            Keyword::GROUP => "GROUP"@,
            Keyword::GROUPS => "GROUPS"@,
            Keyword::HAVING => "HAVING"@,
            Keyword::IF => "IF"@,
            Keyword::IGNORE => "IGNORE"@,
            Keyword::IMMEDIATE => "IMMEDIATE"@,
            Keyword::IN => "IN"@,
            Keyword::INDEX => "INDEX"@,
            Keyword::INDEXED => "INDEXED"@,
            Keyword::INITIALLY => "INITIALLY"@,
            Keyword::INNER => "INNER"@,
            Keyword::INSERT => "INSERT"@,
            Keyword::INSTEAD => "INSTEAD"@,
            Keyword::INTERSECT => "INTERSECT"@,
            Keyword::INTO => "INTO"@,
            Keyword::IS => "IS"@,
            Keyword::ISNULL => "ISNULL"@,
            Keyword::JOIN => "JOIN"@,
            Keyword::KEY => "KEY"@,
            Keyword::LAST => "LAST"@,
            Keyword::LEFT => "LEFT"@,
            Keyword::LIKE => "LIKE"@,
            Keyword::LIMIT => "LIMIT"@,
            Keyword::MATCH => "MATCH"@,
            Keyword::MATERIALIZED => "MATERIALIZED"@,
            Keyword::NATURAL => "NATURAL"@,
            Keyword::NO => "NO"@,
            Keyword::NOT => "NOT"@,
            Keyword::NOTHING => "NOTHING"@,
            Keyword::NOTNULL => "NOTNULL"@,
            Keyword::NULL => "NULL"@,
            Keyword::NULLS => "NULLS"@,
            Keyword::OF => "OF"@,
            Keyword::OFFSET => "OFFSET"@,
            Keyword::ON => "ON"@,
            Keyword::OR => "OR"@,
            Keyword::ORDER => "ORDER"@,
            Keyword::OTHERS => "OTHERS"@,
            Keyword::OUTER => "OUTER"@,
            Keyword::OVER => "OVER"@,
            Keyword::PARTITION => "PARTITION"@,
            Keyword::PLAN => "PLAN"@,
            Keyword::PRAGMA => "PRAGMA"@,
            Keyword::PRECEDING => "PRECEDING"@,
            Keyword::PRIMARY => "PRIMARY"@,
            Keyword::QUERY => "QUERY"@,
            Keyword::RAISE => "RAISE"@,
            Keyword::RANGE => "RANGE"@,
            Keyword::RECURSIVE => "RECURSIVE"@,
            Keyword::REFERENCES => "REFERENCES"@,
            Keyword::REGEXP => "REGEXP"@,
            Keyword::REINDEX => "REINDEX"@,
            Keyword::RELEASE => "RELEASE"@,
            Keyword::RENAME => "RENAME"@,
            Keyword::REPLACE => "REPLACE"@,
            Keyword::RESTRICT => "RESTRICT"@,
            Keyword::RETURNING => "RETURNING"@,
            Keyword::RIGHT => "RIGHT"@,
            Keyword::ROLLBACK => "ROLLBACK"@,
            Keyword::ROW => "ROW"@,
            Keyword::ROWS => "ROWS"@,
            Keyword::SAVEPOINT => "SAVEPOINT"@,
            Keyword::SELECT => "SELECT"@,
            Keyword::SET => "SET"@,
            Keyword::TABLE => "TABLE"@,
            Keyword::TEMP => "TEMP"@,
            Keyword::TEMPORARY => "TEMPORARY"@,
            Keyword::THEN => "THEN"@,
            Keyword::TIES => "TIES"@,
            Keyword::TO => "TO"@,
            Keyword::TRANSACTION => "TRANSACTION"@,
            Keyword::TRIGGER => "TRIGGER"@,
            Keyword::UNBOUNDED => "UNBOUNDED"@,
            Keyword::UNION => "UNION"@,
            Keyword::UNIQUE => "UNIQUE"@,
            Keyword::UPDATE => "UPDATE"@,
            Keyword::USING => "USING"@,
            Keyword::VACUUM => "VACUUM"@,
            Keyword::VALUES => "VALUES"@,
            Keyword::VIEW => "VIEW"@,
            Keyword::VIRTUAL => "VIRTUAL"@,
            Keyword::WHEN => "WHEN"@,
            Keyword::WHERE => "WHERE"@,
            Keyword::WINDOW => "WINDOW"@,
            Keyword::WITH => "WITH"@,
            Keyword::WITHOUT => "WITHOUT"@,
        }
    }

    /// The canonical (upper-case) spelling of the keyword.
    pub fn name(&self) -> (r: &'static str)
        ensures
            r@ == self.spec_name(),
    {
        match self {
            Keyword::ABORT => "ABORT",
            Keyword::ACTION => "ACTION",
            Keyword::ADD => "ADD",
            Keyword::AFTER => "AFTER",
            Keyword::ALL => "ALL",
            Keyword::ALTER => "ALTER",
            Keyword::ALWAYS => "ALWAYS",
            Keyword::ANALYZE => "ANALYZE",
            Keyword::AND => "AND",
            Keyword::AS => "AS",
            Keyword::ASC => "ASC",
            Keyword::ATTACH => "ATTACH",
            Keyword::AUTOINCREMENT => "AUTOINCREMENT",
            Keyword::BEFORE => "BEFORE",
            Keyword::BEGIN => "BEGIN",
            Keyword::BETWEEN => "BETWEEN",
            Keyword::BY => "BY",
            Keyword::CASCADE => "CASCADE",
            Keyword::CASE => "CASE",
            Keyword::CAST => "CAST",
            Keyword::CHECK => "CHECK",
            Keyword::COLLATE => "COLLATE",
            Keyword::COLUMN => "COLUMN",
            Keyword::COMMIT => "COMMIT",
            Keyword::CONFLICT => "CONFLICT",
            Keyword::CONSTRAINT => "CONSTRAINT",
            Keyword::CREATE => "CREATE",
            Keyword::CROSS => "CROSS",
            Keyword::CURRENT => "CURRENT",
            Keyword::CURRENT_DATE => "CURRENT_DATE",
            Keyword::CURRENT_TIME => "CURRENT_TIME",
            Keyword::CURRENT_TIMESTAMP => "CURRENT_TIMESTAMP",
            Keyword::DATABASE => "DATABASE",
            Keyword::DEFAULT => "DEFAULT",
            Keyword::DEFERRABLE => "DEFERRABLE",
            Keyword::DEFERRED => "DEFERRED",
            Keyword::DELETE => "DELETE",
            Keyword::DESC => "DESC",
            Keyword::DETACH => "DETACH",
            Keyword::DISTINCT => "DISTINCT",
            Keyword::DO => "DO",
            Keyword::DROP => "DROP",
            Keyword::EACH => "EACH",
            Keyword::ELSE => "ELSE",
            Keyword::END => "END",
            Keyword::ESCAPE => "ESCAPE",
            Keyword::EXCEPT => "EXCEPT",
            Keyword::EXCLUDE => "EXCLUDE",
            Keyword::EXCLUSIVE => "EXCLUSIVE",
            Keyword::EXISTS => "EXISTS",
            Keyword::EXPLAIN => "EXPLAIN",
            Keyword::FAIL => "FAIL",
            Keyword::FILTER => "FILTER",
            Keyword::FIRST => "FIRST",
            Keyword::FOLLOWING => "FOLLOWING",
            Keyword::FOR => "FOR",
            Keyword::FOREIGN => "FOREIGN",
            Keyword::FROM => "FROM",
            Keyword::FULL => "FULL",
            Keyword::GENERATED => "GENERATED",
            Keyword::GLOB => "GLOB",
            Keyword::GROUP => "GROUP",
            Keyword::GROUPS => "GROUPS",
            Keyword::HAVING => "HAVING",
            Keyword::IF => "IF",
            Keyword::IGNORE => "IGNORE",
            Keyword::IMMEDIATE => "IMMEDIATE",
            Keyword::IN => "IN",
            Keyword::INDEX => "INDEX",
            Keyword::INDEXED => "INDEXED",
            Keyword::INITIALLY => "INITIALLY",
            Keyword::INNER => "INNER",
            Keyword::INSERT => "INSERT",
            Keyword::INSTEAD => "INSTEAD",
            Keyword::INTERSECT => "INTERSECT",
            Keyword::INTO => "INTO",
            Keyword::IS => "IS",
            Keyword::ISNULL => "ISNULL",
            Keyword::JOIN => "JOIN",
            Keyword::KEY => "KEY",
            Keyword::LAST => "LAST",
            Keyword::LEFT => "LEFT",
            Keyword::LIKE => "LIKE",
            Keyword::LIMIT => "LIMIT",
            Keyword::MATCH => "MATCH",
            Keyword::MATERIALIZED => "MATERIALIZED",
            Keyword::NATURAL => "NATURAL",
            Keyword::NO => "NO",
            Keyword::NOT => "NOT",
            Keyword::NOTHING => "NOTHING",
            Keyword::NOTNULL => "NOTNULL",
            Keyword::NULL => "NULL",
            Keyword::NULLS => "NULLS",
            Keyword::OF => "OF",
            Keyword::OFFSET => "OFFSET",
            Keyword::ON => "ON",
            Keyword::OR => "OR",
            Keyword::ORDER => "ORDER",
            Keyword::OTHERS => "OTHERS",
            Keyword::OUTER => "OUTER",
            Keyword::OVER => "OVER",
            Keyword::PARTITION => "PARTITION",
            Keyword::PLAN => "PLAN",
            Keyword::PRAGMA => "PRAGMA",
            Keyword::PRECEDING => "PRECEDING",
            Keyword::PRIMARY => "PRIMARY",
            Keyword::QUERY => "QUERY",
            Keyword::RAISE => "RAISE",
            Keyword::RANGE => "RANGE",
            Keyword::RECURSIVE => "RECURSIVE",
            Keyword::REFERENCES => "REFERENCES",
            Keyword::REGEXP => "REGEXP",
            Keyword::REINDEX => "REINDEX",
            Keyword::RELEASE => "RELEASE",
            Keyword::RENAME => "RENAME",
            Keyword::REPLACE => "REPLACE",
            Keyword::RESTRICT => "RESTRICT",
            Keyword::RETURNING => "RETURNING",
            Keyword::RIGHT => "RIGHT",
            Keyword::ROLLBACK => "ROLLBACK",
            Keyword::ROW => "ROW",
            Keyword::ROWS => "ROWS",
            Keyword::SAVEPOINT => "SAVEPOINT",
            Keyword::SELECT => "SELECT",
            Keyword::SET => "SET",
            Keyword::TABLE => "TABLE",
            Keyword::TEMP => "TEMP",
            Keyword::TEMPORARY => "TEMPORARY",
            Keyword::THEN => "THEN",
            Keyword::TIES => "TIES",
            Keyword::TO => "TO",
            Keyword::TRANSACTION => "TRANSACTION",
            Keyword::TRIGGER => "TRIGGER",
            Keyword::UNBOUNDED => "UNBOUNDED",
            Keyword::UNION => "UNION",
            Keyword::UNIQUE => "UNIQUE",
            Keyword::UPDATE => "UPDATE",
            Keyword::USING => "USING",
            Keyword::VACUUM => "VACUUM",
            Keyword::VALUES => "VALUES",
            Keyword::VIEW => "VIEW",
            Keyword::VIRTUAL => "VIRTUAL",
            Keyword::WHEN => "WHEN",
            Keyword::WHERE => "WHERE",
            Keyword::WINDOW => "WINDOW",
            Keyword::WITH => "WITH",
            Keyword::WITHOUT => "WITHOUT",
        }
    }

    /// Every keyword, in table order: the same 147 variants the lookup
    /// table matches, each exactly once.
    pub fn all() -> (r: Vec<Keyword>)
        ensures
            r@ =~= Self::spec_all(),
            forall|k: Keyword| Self::spec_all().contains(k),
    {
        let mut r: Vec<Keyword> = Vec::new();
        push_keywords_a(&mut r);
        push_keywords_b(&mut r);
        push_keywords_c(&mut r);
        push_keywords_d(&mut r);
        push_keywords_e(&mut r);
        push_keywords_f(&mut r);
        push_keywords_g(&mut r);
        assert(r@ =~= Self::spec_all());
        proof {
            lemma_all_keywords_complete();
        }
        r
    }

    /// The keyword table as a sequence, in table order.
    pub open spec fn spec_all() -> Seq<Keyword> {
        seq![
            Keyword::ABORT,
            Keyword::ACTION,
            Keyword::ADD,
            Keyword::AFTER,
            Keyword::ALL,
            Keyword::ALTER,
            Keyword::ALWAYS,
            Keyword::ANALYZE,
            Keyword::AND,
            Keyword::AS,
            Keyword::ASC,
            Keyword::ATTACH,
            Keyword::AUTOINCREMENT,
            Keyword::BEFORE,
            Keyword::BEGIN,
            Keyword::BETWEEN,
            Keyword::BY,
            Keyword::CASCADE,
            Keyword::CASE,
            Keyword::CAST,
            Keyword::CHECK,
            Keyword::COLLATE,
            Keyword::COLUMN,
            Keyword::COMMIT,
            Keyword::CONFLICT,
            Keyword::CONSTRAINT,
            Keyword::CREATE,
            Keyword::CROSS,
            Keyword::CURRENT,
            Keyword::CURRENT_DATE,
            Keyword::CURRENT_TIME,
            Keyword::CURRENT_TIMESTAMP,
            Keyword::DATABASE,
            Keyword::DEFAULT,
            Keyword::DEFERRABLE,
            Keyword::DEFERRED,
            Keyword::DELETE,
            Keyword::DESC,
            Keyword::DETACH,
            Keyword::DISTINCT,
            Keyword::DO,
            Keyword::DROP,
            Keyword::EACH,
            Keyword::ELSE,
            Keyword::END,
            Keyword::ESCAPE,
            Keyword::EXCEPT,
            Keyword::EXCLUDE,
            Keyword::EXCLUSIVE,
            Keyword::EXISTS,
            Keyword::EXPLAIN,
            Keyword::FAIL,
            Keyword::FILTER,
            Keyword::FIRST,
            Keyword::FOLLOWING,
            Keyword::FOR,
            Keyword::FOREIGN,
            Keyword::FROM,
            Keyword::FULL,
            Keyword::GENERATED,
            Keyword::GLOB,
            Keyword::GROUP,
            Keyword::GROUPS,
            Keyword::HAVING,
            Keyword::IF,
            Keyword::IGNORE,
            Keyword::IMMEDIATE,
            Keyword::IN,
            Keyword::INDEX,
            Keyword::INDEXED,
            Keyword::INITIALLY,
            Keyword::INNER,
            Keyword::INSERT,
            Keyword::INSTEAD,
            Keyword::INTERSECT,
            Keyword::INTO,
            Keyword::IS,
            Keyword::ISNULL,
            Keyword::JOIN,
            Keyword::KEY,
            Keyword::LAST,
            Keyword::LEFT,
            Keyword::LIKE,
            Keyword::LIMIT,
            Keyword::MATCH,
            Keyword::MATERIALIZED,
            Keyword::NATURAL,
            Keyword::NO,
            Keyword::NOT,
            Keyword::NOTHING,
            Keyword::NOTNULL,
            Keyword::NULL,
            Keyword::NULLS,
            Keyword::OF,
            Keyword::OFFSET,
            Keyword::ON,
            Keyword::OR,
            Keyword::ORDER,
            Keyword::OTHERS,
            Keyword::OUTER,
            Keyword::OVER,
            Keyword::PARTITION,
            Keyword::PLAN,
            Keyword::PRAGMA,
            Keyword::PRECEDING,
            Keyword::PRIMARY,
            Keyword::QUERY,
            Keyword::RAISE,
            Keyword::RANGE,
            Keyword::RECURSIVE,
            Keyword::REFERENCES,
            Keyword::REGEXP,
            Keyword::REINDEX,
            Keyword::RELEASE,
            Keyword::RENAME,
            Keyword::REPLACE,
            Keyword::RESTRICT,
            Keyword::RETURNING,
            Keyword::RIGHT,
            Keyword::ROLLBACK,
            Keyword::ROW,
            Keyword::ROWS,
            Keyword::SAVEPOINT,
            Keyword::SELECT,
            Keyword::SET,
            Keyword::TABLE,
            Keyword::TEMP,
            Keyword::TEMPORARY,
            Keyword::THEN,
            Keyword::TIES,
            Keyword::TO,
            Keyword::TRANSACTION,
            Keyword::TRIGGER,
            Keyword::UNBOUNDED,
            Keyword::UNION,
            Keyword::UNIQUE,
            Keyword::UPDATE,
            Keyword::USING,
            Keyword::VACUUM,
            Keyword::VALUES,
            Keyword::VIEW,
            Keyword::VIRTUAL,
            Keyword::WHEN,
            Keyword::WHERE,
            Keyword::WINDOW,
            Keyword::WITH,
            Keyword::WITHOUT,
        ]
    }

    /// Suggestions for a word that matched no keyword: exactly the keywords
    /// whose Levenshtein distance to the ASCII-uppercased word is at most
    /// two, in keyword-table order, capped at three. The distance bound and
    /// the cap are this library's choice of a standard bounded edit-distance
    /// ranking.
    pub fn suggestions(name: &str) -> (r: Vec<String>)
        ensures
            r.deep_view() == spec_suggestions(spec_upper(name@)),
            r@.len() <= 3,
            forall|i: int| 0 <= i < r@.len() ==> is_suggestion(#[trigger] r@[i]@, spec_upper(name@)),
            r@.len() < 3 ==> forall|k: Keyword|
                lev(spec_upper(name@), #[trigger] k.spec_name()) <= 2 ==> exists|x: int|
                    0 <= x < r@.len() && r@[x]@ == k.spec_name(),
    {
        let upper = upper_string(name);
        let ulen = upper.as_str().unicode_len();
        if ulen >= usize::MAX - 17 {
            // a word this long is further than two edits from every keyword
            proof {
                assert forall|k: Keyword| lev(spec_upper(name@), #[trigger] k.spec_name())
                    > 2 by {
                    keyword_name_len_bound(k);
                    crate::lev::lemma_lev_len_diff(spec_upper(name@), k.spec_name());
                }
            }
            proof {
                lemma_sugg_upto_empty(spec_upper(name@), 147);
            }
            let e: Vec<String> = Vec::new();
            assert(e.deep_view() =~= spec_suggestions(spec_upper(name@)));
            return e;
        }
        let all = Self::all();
        let mut r: Vec<String> = Vec::new();
        let mut i: usize = 0;
        while i < all.len()
            invariant
                upper@ == spec_upper(name@),
                upper@.len() == name@.len(),
                upper@.len() < usize::MAX - 17,
                r@.len() <= 3,
                all@ =~= Self::spec_all(),
                i <= all@.len(),
                i <= 147,
                r.deep_view() == (if sugg_upto(spec_upper(name@), i as int).len() <= 3 {
                    sugg_upto(spec_upper(name@), i as int)
                } else {
                    sugg_upto(spec_upper(name@), i as int).take(3)
                }),
                forall|x: int|
                    0 <= x < r@.len() ==> is_suggestion(#[trigger] r@[x]@, spec_upper(name@)),
                r@.len() < 3 ==> forall|j: int|
                    0 <= j < i && lev(spec_upper(name@), all@[j].spec_name()) <= 2
                        ==> exists|x: int| 0 <= x < r@.len() && r@[x]@ == #[trigger] all@[
                    j].spec_name(),
            decreases all@.len() - i,
        {
            let ghost r_pre = r@;
            let kw = all[i];
            let nm = kw.name();
            if r.len() < 3 {
                proof {
                    assert(nm@.len() <= 17) by {
                        keyword_name_len_bound(kw);
                    }
                }
                let d = distance(upper.as_str(), nm);
                if d <= 2 {
                    let ghost dv_pre = r.deep_view();
                    r.push(nm.to_owned());
                    assert(is_suggestion(r@[r@.len() - 1]@, spec_upper(name@)));
                    assert(r@[r@.len() - 1]@ == all@[i as int].spec_name());
                    proof {
                        assert(r.deep_view() =~= dv_pre + seq![
                            Keyword::spec_all()[i as int].spec_name(),
                        ]);
                        assert(sugg_upto(spec_upper(name@), i + 1) =~= sugg_upto(
                            spec_upper(name@),
                            i as int,
                        ) + seq![Keyword::spec_all()[i as int].spec_name()]);
                    }
                    proof {
                        assert forall|j: int|
                            0 <= j < i + 1 && lev(spec_upper(name@), all@[j].spec_name())
                                <= 2 implies exists|x: int|
                                0 <= x < r@.len() && r@[x]@ == #[trigger] all@[
                            j].spec_name() by {
                            if j < i as int {
                                let x = choose|x: int|
                                    0 <= x < r_pre.len() && r_pre[x]@ == all@[j].spec_name();
                                assert(r@[x]@ == all@[j].spec_name());
                            } else {
                                assert(r@[r@.len() - 1]@ == all@[j].spec_name());
                            }
                        }
                    }
                } else {
                    proof {
                        assert(lev(spec_upper(name@), all@[i as int].spec_name()) > 2);
                        assert(sugg_upto(spec_upper(name@), i + 1) =~= sugg_upto(
                            spec_upper(name@),
                            i as int,
                        ));
                    }
                }
            } else {
                // three suggestions already stand; the capped list is stable
                proof {
                    assert(sugg_upto(spec_upper(name@), i as int).len() >= 3);
                    assert(sugg_upto(spec_upper(name@), i + 1).take(3) =~= sugg_upto(
                        spec_upper(name@),
                        i as int,
                    ).take(3));
                }
            }
            i = i + 1;
        }
        assert(r.deep_view() =~= spec_suggestions(spec_upper(name@)));
        proof {
            if r@.len() < 3 {
                assert forall|k: Keyword|
                    lev(spec_upper(name@), #[trigger] k.spec_name()) <= 2 implies exists|x: int|
                        0 <= x < r@.len() && r@[x]@ == k.spec_name() by {
                    lemma_keyword_in_table(k);
                    let j = choose|j: int|
                        0 <= j < Keyword::spec_all().len() && Keyword::spec_all()[j] == k;
                    assert(all@[j].spec_name() == k.spec_name());
                }
            }
        }
        r
    }
}



/// The suggestion spellings drawn from the first `i` keywords of the table:
/// those within edit distance two of `w`, in table order.
pub open spec fn sugg_upto(w: Seq<char>, i: int) -> Seq<Seq<char>>
    decreases i,
{
    if i <= 0 {
        Seq::empty()
    } else {
        sugg_upto(w, i - 1) + (if lev(w, Keyword::spec_all()[i - 1].spec_name()) <= 2 {
            seq![Keyword::spec_all()[i - 1].spec_name()]
        } else {
            Seq::empty()
        })
    }
}

/// The suggestion list for an upper-cased word: the keywords within edit
/// distance two, in table order, capped at three.
pub open spec fn spec_suggestions(w: Seq<char>) -> Seq<Seq<char>> {
    let s = sugg_upto(w, 147);
    if s.len() <= 3 {
        s
    } else {
        s.take(3)
    }
}

/// A word too far from every keyword suggests nothing.
proof fn lemma_sugg_upto_empty(w: Seq<char>, i: int)
    requires
        forall|k: Keyword| lev(w, #[trigger] k.spec_name()) > 2,
        0 <= i <= 147,
    ensures
        sugg_upto(w, i) =~= Seq::<Seq<char>>::empty(),
    decreases i,
{
    if i > 0 {
        lemma_sugg_upto_empty(w, i - 1);
        assert(lev(w, Keyword::spec_all()[i - 1].spec_name()) > 2);
    }
}

/// Whether `s` is a keyword spelling within edit distance two of `w`.
pub open spec fn is_suggestion(s: Seq<char>, w: Seq<char>) -> bool {
    exists|k: Keyword| s == #[trigger] k.spec_name() && lev(w, k.spec_name()) <= 2
}

/// Every keyword spelling is at most seventeen characters long.
pub proof fn keyword_name_len_bound(k: Keyword)
    ensures
        k.spec_name().len() <= 17,
{
    match k {
        Keyword::ABORT => {
            reveal_strlit("ABORT");
        },
        Keyword::ACTION => {
            reveal_strlit("ACTION");
        },
        Keyword::ADD => {
            reveal_strlit("ADD");
        },
        Keyword::AFTER => {
            reveal_strlit("AFTER");
        },
        Keyword::ALL => {
            reveal_strlit("ALL");
        },
        Keyword::ALTER => {
            reveal_strlit("ALTER");
        },
        Keyword::ALWAYS => {
            reveal_strlit("ALWAYS");
        },
        Keyword::ANALYZE => {
            reveal_strlit("ANALYZE");
        },
        Keyword::AND => {
            reveal_strlit("AND");
        },
        Keyword::AS => {
            reveal_strlit("AS");
        },
        Keyword::ASC => {
            reveal_strlit("ASC");
        },
        Keyword::ATTACH => {
            reveal_strlit("ATTACH");
        },
        Keyword::AUTOINCREMENT => {
            reveal_strlit("AUTOINCREMENT");
        },
        Keyword::BEFORE => {
            reveal_strlit("BEFORE");
        },
        Keyword::BEGIN => {
            reveal_strlit("BEGIN");
        },
        Keyword::BETWEEN => {
            reveal_strlit("BETWEEN");
        },
        Keyword::BY => {
            reveal_strlit("BY");
        },
        Keyword::CASCADE => {
            reveal_strlit("CASCADE");
        },
        Keyword::CASE => {
            reveal_strlit("CASE");
        },
        Keyword::CAST => {
            reveal_strlit("CAST");
        },
        Keyword::CHECK => {
            reveal_strlit("CHECK");
        },
        Keyword::COLLATE => {
            reveal_strlit("COLLATE");
        },
        Keyword::COLUMN => {
            reveal_strlit("COLUMN");
        },
        Keyword::COMMIT => {
            reveal_strlit("COMMIT");
        },
        Keyword::CONFLICT => {
            reveal_strlit("CONFLICT");
        },
        Keyword::CONSTRAINT => {
            reveal_strlit("CONSTRAINT");
        },
        Keyword::CREATE => {
            reveal_strlit("CREATE");
        },
        Keyword::CROSS => {
            reveal_strlit("CROSS");
        },
        Keyword::CURRENT => {
            reveal_strlit("CURRENT");
        },
        Keyword::CURRENT_DATE => {
            reveal_strlit("CURRENT_DATE");
        },
        Keyword::CURRENT_TIME => {
            reveal_strlit("CURRENT_TIME");
        },
        Keyword::CURRENT_TIMESTAMP => {
            reveal_strlit("CURRENT_TIMESTAMP");
        },
        Keyword::DATABASE => {
            reveal_strlit("DATABASE");
        },
        Keyword::DEFAULT => {
            reveal_strlit("DEFAULT");
        },
        Keyword::DEFERRABLE => {
            reveal_strlit("DEFERRABLE");
        },
        Keyword::DEFERRED => {
            reveal_strlit("DEFERRED");
        },
        Keyword::DELETE => {
            reveal_strlit("DELETE");
        },
        Keyword::DESC => {
            reveal_strlit("DESC");
        },
        Keyword::DETACH => {
            reveal_strlit("DETACH");
        },
        Keyword::DISTINCT => {
            reveal_strlit("DISTINCT");
        },
        Keyword::DO => {
            reveal_strlit("DO");
        },
        Keyword::DROP => {
            reveal_strlit("DROP");
        },
        Keyword::EACH => {
            reveal_strlit("EACH");
        },
        Keyword::ELSE => {
            reveal_strlit("ELSE");
        },
        Keyword::END => {
            reveal_strlit("END");
        },
        Keyword::ESCAPE => {
            reveal_strlit("ESCAPE");
        },
        Keyword::EXCEPT => {
            reveal_strlit("EXCEPT");
        },
        Keyword::EXCLUDE => {
            reveal_strlit("EXCLUDE");
        },
        Keyword::EXCLUSIVE => {
            reveal_strlit("EXCLUSIVE");
        },
        Keyword::EXISTS => {
            reveal_strlit("EXISTS");
        },
        Keyword::EXPLAIN => {
            reveal_strlit("EXPLAIN");
        },
        Keyword::FAIL => {
            reveal_strlit("FAIL");
        },
        Keyword::FILTER => {
            reveal_strlit("FILTER");
        },
        Keyword::FIRST => {
            reveal_strlit("FIRST");
        },
        Keyword::FOLLOWING => {
            reveal_strlit("FOLLOWING");
        },
        Keyword::FOR => {
            reveal_strlit("FOR");
        },
        Keyword::FOREIGN => {
            reveal_strlit("FOREIGN");
        },
        Keyword::FROM => {
            reveal_strlit("FROM");
        },
        Keyword::FULL => {
            reveal_strlit("FULL");
        },
        Keyword::GENERATED => {
            reveal_strlit("GENERATED");
        },
        Keyword::GLOB => {
            reveal_strlit("GLOB");
        },
        Keyword::GROUP => {
            reveal_strlit("GROUP");
        },
        Keyword::GROUPS => {
            reveal_strlit("GROUPS");
        },
        Keyword::HAVING => {
            reveal_strlit("HAVING");
        },
        Keyword::IF => {
            reveal_strlit("IF");
        },
        Keyword::IGNORE => {
            reveal_strlit("IGNORE");
        },
        Keyword::IMMEDIATE => {
            reveal_strlit("IMMEDIATE");
        },
        Keyword::IN => {
            reveal_strlit("IN");
        },
        Keyword::INDEX => {
            reveal_strlit("INDEX");
        },
        Keyword::INDEXED => {
            reveal_strlit("INDEXED");
        },
        Keyword::INITIALLY => {
            reveal_strlit("INITIALLY");
        },
        Keyword::INNER => {
            reveal_strlit("INNER");
        },
        Keyword::INSERT => {
            reveal_strlit("INSERT");
        },
        Keyword::INSTEAD => {
            reveal_strlit("INSTEAD");
        },
        Keyword::INTERSECT => {
            reveal_strlit("INTERSECT");
        },
        Keyword::INTO => {
            reveal_strlit("INTO");
        },
        Keyword::IS => {
            reveal_strlit("IS");
        },
        Keyword::ISNULL => {
            reveal_strlit("ISNULL");
        },
        Keyword::JOIN => {
            reveal_strlit("JOIN");
        },
        Keyword::KEY => {
            reveal_strlit("KEY");
        },
        Keyword::LAST => {
            reveal_strlit("LAST");
        },
        Keyword::LEFT => {
            reveal_strlit("LEFT");
        },
        Keyword::LIKE => {
            reveal_strlit("LIKE");
        },
        Keyword::LIMIT => {
            reveal_strlit("LIMIT");
        },
        Keyword::MATCH => {
            reveal_strlit("MATCH");
        },
        Keyword::MATERIALIZED => {
            reveal_strlit("MATERIALIZED");
        },
        Keyword::NATURAL => {
            reveal_strlit("NATURAL");
        },
        Keyword::NO => {
            reveal_strlit("NO");
        },
        Keyword::NOT => {
            reveal_strlit("NOT");
        },
        Keyword::NOTHING => {
            reveal_strlit("NOTHING");
        },
        Keyword::NOTNULL => {
            reveal_strlit("NOTNULL");
        },
        Keyword::NULL => {
            reveal_strlit("NULL");
        },
        Keyword::NULLS => {
            reveal_strlit("NULLS");
        },
        Keyword::OF => {
            reveal_strlit("OF");
        },
        Keyword::OFFSET => {
            reveal_strlit("OFFSET");
        },
        Keyword::ON => {
            reveal_strlit("ON");
        },
        Keyword::OR => {
            reveal_strlit("OR");
        },
        Keyword::ORDER => {
            reveal_strlit("ORDER");
        },
        Keyword::OTHERS => {
            reveal_strlit("OTHERS");
        },
        Keyword::OUTER => {
            reveal_strlit("OUTER");
        },
        Keyword::OVER => {
            reveal_strlit("OVER");
        },
        Keyword::PARTITION => {
            reveal_strlit("PARTITION");
        },
        Keyword::PLAN => {
            reveal_strlit("PLAN");
        },
        Keyword::PRAGMA => {
            reveal_strlit("PRAGMA");
        },
        Keyword::PRECEDING => {
            reveal_strlit("PRECEDING");
        },
        Keyword::PRIMARY => {
            reveal_strlit("PRIMARY");
        },
        Keyword::QUERY => {
            reveal_strlit("QUERY");
        },
        Keyword::RAISE => {
            reveal_strlit("RAISE");
        },
        Keyword::RANGE => {
            reveal_strlit("RANGE");
        },
        Keyword::RECURSIVE => {
            reveal_strlit("RECURSIVE");
        },
        Keyword::REFERENCES => {
            reveal_strlit("REFERENCES");
        },
        Keyword::REGEXP => {
            reveal_strlit("REGEXP");
        },
        Keyword::REINDEX => {
            reveal_strlit("REINDEX");
        },
        Keyword::RELEASE => {
            reveal_strlit("RELEASE");
        },
        Keyword::RENAME => {
            reveal_strlit("RENAME");
        },
        Keyword::REPLACE => {
            reveal_strlit("REPLACE");
        },
        Keyword::RESTRICT => {
            reveal_strlit("RESTRICT");
        },
        Keyword::RETURNING => {
            reveal_strlit("RETURNING");
        },
        Keyword::RIGHT => {
            reveal_strlit("RIGHT");
        },
        Keyword::ROLLBACK => {
            reveal_strlit("ROLLBACK");
        },
        Keyword::ROW => {
            reveal_strlit("ROW");
        },
        Keyword::ROWS => {
            reveal_strlit("ROWS");
        },
        Keyword::SAVEPOINT => {
            reveal_strlit("SAVEPOINT");
        },
        Keyword::SELECT => {
            reveal_strlit("SELECT");
        },
        Keyword::SET => {
            reveal_strlit("SET");
        },
        Keyword::TABLE => {
            reveal_strlit("TABLE");
        },
        Keyword::TEMP => {
            reveal_strlit("TEMP");
        },
        Keyword::TEMPORARY => {
            reveal_strlit("TEMPORARY");
        },
        Keyword::THEN => {
            reveal_strlit("THEN");
        },
        Keyword::TIES => {
            reveal_strlit("TIES");
        },
        Keyword::TO => {
            reveal_strlit("TO");
        },
        Keyword::TRANSACTION => {
            reveal_strlit("TRANSACTION");
        },
        Keyword::TRIGGER => {
            reveal_strlit("TRIGGER");
        },
        Keyword::UNBOUNDED => {
            reveal_strlit("UNBOUNDED");
        },
        Keyword::UNION => {
            reveal_strlit("UNION");
        },
        Keyword::UNIQUE => {
            reveal_strlit("UNIQUE");
        },
        Keyword::UPDATE => {
            reveal_strlit("UPDATE");
        },
        Keyword::USING => {
            reveal_strlit("USING");
        },
        Keyword::VACUUM => {
            reveal_strlit("VACUUM");
        },
        Keyword::VALUES => {
            reveal_strlit("VALUES");
        },
        Keyword::VIEW => {
            reveal_strlit("VIEW");
        },
        Keyword::VIRTUAL => {
            reveal_strlit("VIRTUAL");
        },
        Keyword::WHEN => {
            reveal_strlit("WHEN");
        },
        Keyword::WHERE => {
            reveal_strlit("WHERE");
        },
        Keyword::WINDOW => {
            reveal_strlit("WINDOW");
        },
        Keyword::WITH => {
            reveal_strlit("WITH");
        },
        Keyword::WITHOUT => {
            reveal_strlit("WITHOUT");
        },
    }
}


/// Appends one block of the keyword table.
fn push_keywords_a(r: &mut Vec<Keyword>)
    ensures
        final(r)@ == old(r)@ + seq![Keyword::ABORT, Keyword::ACTION, Keyword::ADD, Keyword::AFTER, Keyword::ALL, Keyword::ALTER, Keyword::ALWAYS, Keyword::ANALYZE, Keyword::AND, Keyword::AS, Keyword::ASC, Keyword::ATTACH, Keyword::AUTOINCREMENT, Keyword::BEFORE, Keyword::BEGIN, Keyword::BETWEEN, Keyword::BY, Keyword::CASCADE, Keyword::CASE, Keyword::CAST, Keyword::CHECK],
{
    r.push(Keyword::ABORT);
    r.push(Keyword::ACTION);
    r.push(Keyword::ADD);
    r.push(Keyword::AFTER);
    r.push(Keyword::ALL);
    r.push(Keyword::ALTER);
    r.push(Keyword::ALWAYS);
    r.push(Keyword::ANALYZE);
    r.push(Keyword::AND);
    r.push(Keyword::AS);
    r.push(Keyword::ASC);
    r.push(Keyword::ATTACH);
    r.push(Keyword::AUTOINCREMENT);
    r.push(Keyword::BEFORE);
    r.push(Keyword::BEGIN);
    r.push(Keyword::BETWEEN);
    r.push(Keyword::BY);
    r.push(Keyword::CASCADE);
    r.push(Keyword::CASE);
    r.push(Keyword::CAST);
    r.push(Keyword::CHECK);
    assert(r@ =~= old(r)@ + seq![Keyword::ABORT, Keyword::ACTION, Keyword::ADD, Keyword::AFTER, Keyword::ALL, Keyword::ALTER, Keyword::ALWAYS, Keyword::ANALYZE, Keyword::AND, Keyword::AS, Keyword::ASC, Keyword::ATTACH, Keyword::AUTOINCREMENT, Keyword::BEFORE, Keyword::BEGIN, Keyword::BETWEEN, Keyword::BY, Keyword::CASCADE, Keyword::CASE, Keyword::CAST, Keyword::CHECK]);
}

/// Appends one block of the keyword table.
fn push_keywords_b(r: &mut Vec<Keyword>)
    ensures
        final(r)@ == old(r)@ + seq![Keyword::COLLATE, Keyword::COLUMN, Keyword::COMMIT, Keyword::CONFLICT, Keyword::CONSTRAINT, Keyword::CREATE, Keyword::CROSS, Keyword::CURRENT, Keyword::CURRENT_DATE, Keyword::CURRENT_TIME, Keyword::CURRENT_TIMESTAMP, Keyword::DATABASE, Keyword::DEFAULT, Keyword::DEFERRABLE, Keyword::DEFERRED, Keyword::DELETE, Keyword::DESC, Keyword::DETACH, Keyword::DISTINCT, Keyword::DO, Keyword::DROP],
{
    r.push(Keyword::COLLATE);
    r.push(Keyword::COLUMN);
    r.push(Keyword::COMMIT);
    r.push(Keyword::CONFLICT);
    r.push(Keyword::CONSTRAINT);
    r.push(Keyword::CREATE);
    r.push(Keyword::CROSS);
    r.push(Keyword::CURRENT);
    r.push(Keyword::CURRENT_DATE);
    r.push(Keyword::CURRENT_TIME);
    r.push(Keyword::CURRENT_TIMESTAMP);
    r.push(Keyword::DATABASE);
    r.push(Keyword::DEFAULT);
    r.push(Keyword::DEFERRABLE);
    r.push(Keyword::DEFERRED);
    r.push(Keyword::DELETE);
    r.push(Keyword::DESC);
    r.push(Keyword::DETACH);
    r.push(Keyword::DISTINCT);
    r.push(Keyword::DO);
    r.push(Keyword::DROP);
    assert(r@ =~= old(r)@ + seq![Keyword::COLLATE, Keyword::COLUMN, Keyword::COMMIT, Keyword::CONFLICT, Keyword::CONSTRAINT, Keyword::CREATE, Keyword::CROSS, Keyword::CURRENT, Keyword::CURRENT_DATE, Keyword::CURRENT_TIME, Keyword::CURRENT_TIMESTAMP, Keyword::DATABASE, Keyword::DEFAULT, Keyword::DEFERRABLE, Keyword::DEFERRED, Keyword::DELETE, Keyword::DESC, Keyword::DETACH, Keyword::DISTINCT, Keyword::DO, Keyword::DROP]);
}

/// Appends one block of the keyword table.
fn push_keywords_c(r: &mut Vec<Keyword>)
    ensures
        final(r)@ == old(r)@ + seq![Keyword::EACH, Keyword::ELSE, Keyword::END, Keyword::ESCAPE, Keyword::EXCEPT, Keyword::EXCLUDE, Keyword::EXCLUSIVE, Keyword::EXISTS, Keyword::EXPLAIN, Keyword::FAIL, Keyword::FILTER, Keyword::FIRST, Keyword::FOLLOWING, Keyword::FOR, Keyword::FOREIGN, Keyword::FROM, Keyword::FULL, Keyword::GENERATED, Keyword::GLOB, Keyword::GROUP, Keyword::GROUPS],
{
    r.push(Keyword::EACH);
    r.push(Keyword::ELSE);
    r.push(Keyword::END);
    r.push(Keyword::ESCAPE);
    r.push(Keyword::EXCEPT);
    r.push(Keyword::EXCLUDE);
    r.push(Keyword::EXCLUSIVE);
    r.push(Keyword::EXISTS);
    r.push(Keyword::EXPLAIN);
    r.push(Keyword::FAIL);
    r.push(Keyword::FILTER);
    r.push(Keyword::FIRST);
    r.push(Keyword::FOLLOWING);
    r.push(Keyword::FOR);
    r.push(Keyword::FOREIGN);
    r.push(Keyword::FROM);
    r.push(Keyword::FULL);
    r.push(Keyword::GENERATED);
    r.push(Keyword::GLOB);
    r.push(Keyword::GROUP);
    r.push(Keyword::GROUPS);
    assert(r@ =~= old(r)@ + seq![Keyword::EACH, Keyword::ELSE, Keyword::END, Keyword::ESCAPE, Keyword::EXCEPT, Keyword::EXCLUDE, Keyword::EXCLUSIVE, Keyword::EXISTS, Keyword::EXPLAIN, Keyword::FAIL, Keyword::FILTER, Keyword::FIRST, Keyword::FOLLOWING, Keyword::FOR, Keyword::FOREIGN, Keyword::FROM, Keyword::FULL, Keyword::GENERATED, Keyword::GLOB, Keyword::GROUP, Keyword::GROUPS]);
}

/// Appends one block of the keyword table.
fn push_keywords_d(r: &mut Vec<Keyword>)
    ensures
        final(r)@ == old(r)@ + seq![Keyword::HAVING, Keyword::IF, Keyword::IGNORE, Keyword::IMMEDIATE, Keyword::IN, Keyword::INDEX, Keyword::INDEXED, Keyword::INITIALLY, Keyword::INNER, Keyword::INSERT, Keyword::INSTEAD, Keyword::INTERSECT, Keyword::INTO, Keyword::IS, Keyword::ISNULL, Keyword::JOIN, Keyword::KEY, Keyword::LAST, Keyword::LEFT, Keyword::LIKE, Keyword::LIMIT],
{
    r.push(Keyword::HAVING);
    r.push(Keyword::IF);
    r.push(Keyword::IGNORE);
    r.push(Keyword::IMMEDIATE);
    r.push(Keyword::IN);
    r.push(Keyword::INDEX);
    r.push(Keyword::INDEXED);
    r.push(Keyword::INITIALLY);
    r.push(Keyword::INNER);
    r.push(Keyword::INSERT);
    r.push(Keyword::INSTEAD);
    r.push(Keyword::INTERSECT);
    r.push(Keyword::INTO);
    r.push(Keyword::IS);
    r.push(Keyword::ISNULL);
    r.push(Keyword::JOIN);
    r.push(Keyword::KEY);
    r.push(Keyword::LAST);
    r.push(Keyword::LEFT);
    r.push(Keyword::LIKE);
    r.push(Keyword::LIMIT);
    assert(r@ =~= old(r)@ + seq![Keyword::HAVING, Keyword::IF, Keyword::IGNORE, Keyword::IMMEDIATE, Keyword::IN, Keyword::INDEX, Keyword::INDEXED, Keyword::INITIALLY, Keyword::INNER, Keyword::INSERT, Keyword::INSTEAD, Keyword::INTERSECT, Keyword::INTO, Keyword::IS, Keyword::ISNULL, Keyword::JOIN, Keyword::KEY, Keyword::LAST, Keyword::LEFT, Keyword::LIKE, Keyword::LIMIT]);
}

/// Appends one block of the keyword table.
fn push_keywords_e(r: &mut Vec<Keyword>)
    ensures
        final(r)@ == old(r)@ + seq![Keyword::MATCH, Keyword::MATERIALIZED, Keyword::NATURAL, Keyword::NO, Keyword::NOT, Keyword::NOTHING, Keyword::NOTNULL, Keyword::NULL, Keyword::NULLS, Keyword::OF, Keyword::OFFSET, Keyword::ON, Keyword::OR, Keyword::ORDER, Keyword::OTHERS, Keyword::OUTER, Keyword::OVER, Keyword::PARTITION, Keyword::PLAN, Keyword::PRAGMA, Keyword::PRECEDING],
{
    r.push(Keyword::MATCH);
    r.push(Keyword::MATERIALIZED);
    r.push(Keyword::NATURAL);
    r.push(Keyword::NO);
    r.push(Keyword::NOT);
    r.push(Keyword::NOTHING);
    r.push(Keyword::NOTNULL);
    r.push(Keyword::NULL);
    r.push(Keyword::NULLS);
    r.push(Keyword::OF);
    r.push(Keyword::OFFSET);
    r.push(Keyword::ON);
    r.push(Keyword::OR);
    r.push(Keyword::ORDER);
    r.push(Keyword::OTHERS);
    r.push(Keyword::OUTER);
    r.push(Keyword::OVER);
    r.push(Keyword::PARTITION);
    r.push(Keyword::PLAN);
    r.push(Keyword::PRAGMA);
    r.push(Keyword::PRECEDING);
    assert(r@ =~= old(r)@ + seq![Keyword::MATCH, Keyword::MATERIALIZED, Keyword::NATURAL, Keyword::NO, Keyword::NOT, Keyword::NOTHING, Keyword::NOTNULL, Keyword::NULL, Keyword::NULLS, Keyword::OF, Keyword::OFFSET, Keyword::ON, Keyword::OR, Keyword::ORDER, Keyword::OTHERS, Keyword::OUTER, Keyword::OVER, Keyword::PARTITION, Keyword::PLAN, Keyword::PRAGMA, Keyword::PRECEDING]);
}

/// Appends one block of the keyword table.
fn push_keywords_f(r: &mut Vec<Keyword>)
    ensures
        final(r)@ == old(r)@ + seq![Keyword::PRIMARY, Keyword::QUERY, Keyword::RAISE, Keyword::RANGE, Keyword::RECURSIVE, Keyword::REFERENCES, Keyword::REGEXP, Keyword::REINDEX, Keyword::RELEASE, Keyword::RENAME, Keyword::REPLACE, Keyword::RESTRICT, Keyword::RETURNING, Keyword::RIGHT, Keyword::ROLLBACK, Keyword::ROW, Keyword::ROWS, Keyword::SAVEPOINT, Keyword::SELECT, Keyword::SET, Keyword::TABLE],
{
    r.push(Keyword::PRIMARY);
    r.push(Keyword::QUERY);
    r.push(Keyword::RAISE);
    r.push(Keyword::RANGE);
    r.push(Keyword::RECURSIVE);
    r.push(Keyword::REFERENCES);
    r.push(Keyword::REGEXP);
    r.push(Keyword::REINDEX);
    r.push(Keyword::RELEASE);
    r.push(Keyword::RENAME);
    r.push(Keyword::REPLACE);
    r.push(Keyword::RESTRICT);
    r.push(Keyword::RETURNING);
    r.push(Keyword::RIGHT);
    r.push(Keyword::ROLLBACK);
    r.push(Keyword::ROW);
    r.push(Keyword::ROWS);
    r.push(Keyword::SAVEPOINT);
    r.push(Keyword::SELECT);
    r.push(Keyword::SET);
    r.push(Keyword::TABLE);
    assert(r@ =~= old(r)@ + seq![Keyword::PRIMARY, Keyword::QUERY, Keyword::RAISE, Keyword::RANGE, Keyword::RECURSIVE, Keyword::REFERENCES, Keyword::REGEXP, Keyword::REINDEX, Keyword::RELEASE, Keyword::RENAME, Keyword::REPLACE, Keyword::RESTRICT, Keyword::RETURNING, Keyword::RIGHT, Keyword::ROLLBACK, Keyword::ROW, Keyword::ROWS, Keyword::SAVEPOINT, Keyword::SELECT, Keyword::SET, Keyword::TABLE]);
}

/// Appends one block of the keyword table.
fn push_keywords_g(r: &mut Vec<Keyword>)
    ensures
        final(r)@ == old(r)@ + seq![Keyword::TEMP, Keyword::TEMPORARY, Keyword::THEN, Keyword::TIES, Keyword::TO, Keyword::TRANSACTION, Keyword::TRIGGER, Keyword::UNBOUNDED, Keyword::UNION, Keyword::UNIQUE, Keyword::UPDATE, Keyword::USING, Keyword::VACUUM, Keyword::VALUES, Keyword::VIEW, Keyword::VIRTUAL, Keyword::WHEN, Keyword::WHERE, Keyword::WINDOW, Keyword::WITH, Keyword::WITHOUT],
{
    r.push(Keyword::TEMP);
    r.push(Keyword::TEMPORARY);
    r.push(Keyword::THEN);
    r.push(Keyword::TIES);
    r.push(Keyword::TO);
    r.push(Keyword::TRANSACTION);
    r.push(Keyword::TRIGGER);
    r.push(Keyword::UNBOUNDED);
    r.push(Keyword::UNION);
    r.push(Keyword::UNIQUE);
    r.push(Keyword::UPDATE);
    r.push(Keyword::USING);
    r.push(Keyword::VACUUM);
    r.push(Keyword::VALUES);
    r.push(Keyword::VIEW);
    r.push(Keyword::VIRTUAL);
    r.push(Keyword::WHEN);
    r.push(Keyword::WHERE);
    r.push(Keyword::WINDOW);
    r.push(Keyword::WITH);
    r.push(Keyword::WITHOUT);
    assert(r@ =~= old(r)@ + seq![Keyword::TEMP, Keyword::TEMPORARY, Keyword::THEN, Keyword::TIES, Keyword::TO, Keyword::TRANSACTION, Keyword::TRIGGER, Keyword::UNBOUNDED, Keyword::UNION, Keyword::UNIQUE, Keyword::UPDATE, Keyword::USING, Keyword::VACUUM, Keyword::VALUES, Keyword::VIEW, Keyword::VIRTUAL, Keyword::WHEN, Keyword::WHERE, Keyword::WINDOW, Keyword::WITH, Keyword::WITHOUT]);
}

/// Every keyword stands in the table.
pub proof fn lemma_all_keywords_complete()
    ensures
        forall|k: Keyword| Keyword::spec_all().contains(#[trigger] keyword_self(k)),
{
    assert forall|k: Keyword| Keyword::spec_all().contains(#[trigger] keyword_self(k)) by {
        lemma_keyword_in_table(k);
    }
}

/// The identity on keywords, a handle for quantifier triggers.
pub open spec fn keyword_self(k: Keyword) -> Keyword {
    k
}

proof fn lemma_keyword_in_table(k: Keyword)
    ensures
        Keyword::spec_all().contains(k),
{
    match k {
        Keyword::ABORT => {
            assert(Keyword::spec_all()[0] == Keyword::ABORT);
        },
        Keyword::ACTION => {
            assert(Keyword::spec_all()[1] == Keyword::ACTION);
        },
        Keyword::ADD => {
            assert(Keyword::spec_all()[2] == Keyword::ADD);
        },
        Keyword::AFTER => {
            assert(Keyword::spec_all()[3] == Keyword::AFTER);
        },
        Keyword::ALL => {
            assert(Keyword::spec_all()[4] == Keyword::ALL);
        },
        Keyword::ALTER => {
            assert(Keyword::spec_all()[5] == Keyword::ALTER);
        },
        Keyword::ALWAYS => {
            assert(Keyword::spec_all()[6] == Keyword::ALWAYS);
        },
        Keyword::ANALYZE => {
            assert(Keyword::spec_all()[7] == Keyword::ANALYZE);
        },
        Keyword::AND => {
            assert(Keyword::spec_all()[8] == Keyword::AND);
        },
        Keyword::AS => {
            assert(Keyword::spec_all()[9] == Keyword::AS);
        },
        Keyword::ASC => {
            assert(Keyword::spec_all()[10] == Keyword::ASC);
        },
        Keyword::ATTACH => {
            assert(Keyword::spec_all()[11] == Keyword::ATTACH);
        },
        Keyword::AUTOINCREMENT => {
            assert(Keyword::spec_all()[12] == Keyword::AUTOINCREMENT);
        },
        Keyword::BEFORE => {
            assert(Keyword::spec_all()[13] == Keyword::BEFORE);
        },
        Keyword::BEGIN => {
            assert(Keyword::spec_all()[14] == Keyword::BEGIN);
        },
        Keyword::BETWEEN => {
            assert(Keyword::spec_all()[15] == Keyword::BETWEEN);
        },
        Keyword::BY => {
            assert(Keyword::spec_all()[16] == Keyword::BY);
        },
        Keyword::CASCADE => {
            assert(Keyword::spec_all()[17] == Keyword::CASCADE);
        },
        Keyword::CASE => {
            assert(Keyword::spec_all()[18] == Keyword::CASE);
        },
        Keyword::CAST => {
            assert(Keyword::spec_all()[19] == Keyword::CAST);
        },
        Keyword::CHECK => {
            assert(Keyword::spec_all()[20] == Keyword::CHECK);
        },
        Keyword::COLLATE => {
            assert(Keyword::spec_all()[21] == Keyword::COLLATE);
        },
        Keyword::COLUMN => {
            assert(Keyword::spec_all()[22] == Keyword::COLUMN);
        },
        Keyword::COMMIT => {
            assert(Keyword::spec_all()[23] == Keyword::COMMIT);
        },
        Keyword::CONFLICT => {
            assert(Keyword::spec_all()[24] == Keyword::CONFLICT);
        },
        Keyword::CONSTRAINT => {
            assert(Keyword::spec_all()[25] == Keyword::CONSTRAINT);
        },
        Keyword::CREATE => {
            assert(Keyword::spec_all()[26] == Keyword::CREATE);
        },
        Keyword::CROSS => {
            assert(Keyword::spec_all()[27] == Keyword::CROSS);
        },
        Keyword::CURRENT => {
            assert(Keyword::spec_all()[28] == Keyword::CURRENT);
        },
        Keyword::CURRENT_DATE => {
            assert(Keyword::spec_all()[29] == Keyword::CURRENT_DATE);
        },
        Keyword::CURRENT_TIME => {
            assert(Keyword::spec_all()[30] == Keyword::CURRENT_TIME);
        },
        Keyword::CURRENT_TIMESTAMP => {
            assert(Keyword::spec_all()[31] == Keyword::CURRENT_TIMESTAMP);
        },
        Keyword::DATABASE => {
            assert(Keyword::spec_all()[32] == Keyword::DATABASE);
        },
        Keyword::DEFAULT => {
            assert(Keyword::spec_all()[33] == Keyword::DEFAULT);
        },
        Keyword::DEFERRABLE => {
            assert(Keyword::spec_all()[34] == Keyword::DEFERRABLE);
        },
        Keyword::DEFERRED => {
            assert(Keyword::spec_all()[35] == Keyword::DEFERRED);
        },
        Keyword::DELETE => {
            assert(Keyword::spec_all()[36] == Keyword::DELETE);
        },
        Keyword::DESC => {
            assert(Keyword::spec_all()[37] == Keyword::DESC);
        },
        Keyword::DETACH => {
            assert(Keyword::spec_all()[38] == Keyword::DETACH);
        },
        Keyword::DISTINCT => {
            assert(Keyword::spec_all()[39] == Keyword::DISTINCT);
        },
        Keyword::DO => {
            assert(Keyword::spec_all()[40] == Keyword::DO);
        },
        Keyword::DROP => {
            assert(Keyword::spec_all()[41] == Keyword::DROP);
        },
        Keyword::EACH => {
            assert(Keyword::spec_all()[42] == Keyword::EACH);
        },
        Keyword::ELSE => {
            assert(Keyword::spec_all()[43] == Keyword::ELSE);
        },
        Keyword::END => {
            assert(Keyword::spec_all()[44] == Keyword::END);
        },
        Keyword::ESCAPE => {
            assert(Keyword::spec_all()[45] == Keyword::ESCAPE);
        },
        Keyword::EXCEPT => {
            assert(Keyword::spec_all()[46] == Keyword::EXCEPT);
        },
        Keyword::EXCLUDE => {
            assert(Keyword::spec_all()[47] == Keyword::EXCLUDE);
        },
        Keyword::EXCLUSIVE => {
            assert(Keyword::spec_all()[48] == Keyword::EXCLUSIVE);
        },
        Keyword::EXISTS => {
            assert(Keyword::spec_all()[49] == Keyword::EXISTS);
        },
        Keyword::EXPLAIN => {
            assert(Keyword::spec_all()[50] == Keyword::EXPLAIN);
        },
        Keyword::FAIL => {
            assert(Keyword::spec_all()[51] == Keyword::FAIL);
        },
        Keyword::FILTER => {
            assert(Keyword::spec_all()[52] == Keyword::FILTER);
        },
        Keyword::FIRST => {
            assert(Keyword::spec_all()[53] == Keyword::FIRST);
        },
        Keyword::FOLLOWING => {
            assert(Keyword::spec_all()[54] == Keyword::FOLLOWING);
        },
        Keyword::FOR => {
            assert(Keyword::spec_all()[55] == Keyword::FOR);
        },
        Keyword::FOREIGN => {
            assert(Keyword::spec_all()[56] == Keyword::FOREIGN);
        },
        Keyword::FROM => {
            assert(Keyword::spec_all()[57] == Keyword::FROM);
        },
        Keyword::FULL => {
            assert(Keyword::spec_all()[58] == Keyword::FULL);
        },
        Keyword::GENERATED => {
            assert(Keyword::spec_all()[59] == Keyword::GENERATED);
        },
        Keyword::GLOB => {
            assert(Keyword::spec_all()[60] == Keyword::GLOB);
        },
        Keyword::GROUP => {
            assert(Keyword::spec_all()[61] == Keyword::GROUP);
        },
        Keyword::GROUPS => {
            assert(Keyword::spec_all()[62] == Keyword::GROUPS);
        },
        Keyword::HAVING => {
            assert(Keyword::spec_all()[63] == Keyword::HAVING);
        },
        Keyword::IF => {
            assert(Keyword::spec_all()[64] == Keyword::IF);
        },
        Keyword::IGNORE => {
            assert(Keyword::spec_all()[65] == Keyword::IGNORE);
        },
        Keyword::IMMEDIATE => {
            assert(Keyword::spec_all()[66] == Keyword::IMMEDIATE);
        },
        Keyword::IN => {
            assert(Keyword::spec_all()[67] == Keyword::IN);
        },
        Keyword::INDEX => {
            assert(Keyword::spec_all()[68] == Keyword::INDEX);
        },
        Keyword::INDEXED => {
            assert(Keyword::spec_all()[69] == Keyword::INDEXED);
        },
        Keyword::INITIALLY => {
            assert(Keyword::spec_all()[70] == Keyword::INITIALLY);
        },
        Keyword::INNER => {
            assert(Keyword::spec_all()[71] == Keyword::INNER);
        },
        Keyword::INSERT => {
            assert(Keyword::spec_all()[72] == Keyword::INSERT);
        },
        Keyword::INSTEAD => {
            assert(Keyword::spec_all()[73] == Keyword::INSTEAD);
        },
        Keyword::INTERSECT => {
            assert(Keyword::spec_all()[74] == Keyword::INTERSECT);
        },
        Keyword::INTO => {
            assert(Keyword::spec_all()[75] == Keyword::INTO);
        },
        Keyword::IS => {
            assert(Keyword::spec_all()[76] == Keyword::IS);
        },
        Keyword::ISNULL => {
            assert(Keyword::spec_all()[77] == Keyword::ISNULL);
        },
        Keyword::JOIN => {
            assert(Keyword::spec_all()[78] == Keyword::JOIN);
        },
        Keyword::KEY => {
            assert(Keyword::spec_all()[79] == Keyword::KEY);
        },
        Keyword::LAST => {
            assert(Keyword::spec_all()[80] == Keyword::LAST);
        },
        Keyword::LEFT => {
            assert(Keyword::spec_all()[81] == Keyword::LEFT);
        },
        Keyword::LIKE => {
            assert(Keyword::spec_all()[82] == Keyword::LIKE);
        },
        Keyword::LIMIT => {
            assert(Keyword::spec_all()[83] == Keyword::LIMIT);
        },
        Keyword::MATCH => {
            assert(Keyword::spec_all()[84] == Keyword::MATCH);
        },
        Keyword::MATERIALIZED => {
            assert(Keyword::spec_all()[85] == Keyword::MATERIALIZED);
        },
        Keyword::NATURAL => {
            assert(Keyword::spec_all()[86] == Keyword::NATURAL);
        },
        Keyword::NO => {
            assert(Keyword::spec_all()[87] == Keyword::NO);
        },
        Keyword::NOT => {
            assert(Keyword::spec_all()[88] == Keyword::NOT);
        },
        Keyword::NOTHING => {
            assert(Keyword::spec_all()[89] == Keyword::NOTHING);
        },
        Keyword::NOTNULL => {
            assert(Keyword::spec_all()[90] == Keyword::NOTNULL);
        },
        Keyword::NULL => {
            assert(Keyword::spec_all()[91] == Keyword::NULL);
        },
        Keyword::NULLS => {
            assert(Keyword::spec_all()[92] == Keyword::NULLS);
        },
        Keyword::OF => {
            assert(Keyword::spec_all()[93] == Keyword::OF);
        },
        Keyword::OFFSET => {
            assert(Keyword::spec_all()[94] == Keyword::OFFSET);
        },
        Keyword::ON => {
            assert(Keyword::spec_all()[95] == Keyword::ON);
        },
        Keyword::OR => {
            assert(Keyword::spec_all()[96] == Keyword::OR);
        },
        Keyword::ORDER => {
            assert(Keyword::spec_all()[97] == Keyword::ORDER);
        },
        Keyword::OTHERS => {
            assert(Keyword::spec_all()[98] == Keyword::OTHERS);
        },
        Keyword::OUTER => {
            assert(Keyword::spec_all()[99] == Keyword::OUTER);
        },
        Keyword::OVER => {
            assert(Keyword::spec_all()[100] == Keyword::OVER);
        },
        Keyword::PARTITION => {
            assert(Keyword::spec_all()[101] == Keyword::PARTITION);
        },
        Keyword::PLAN => {
            assert(Keyword::spec_all()[102] == Keyword::PLAN);
        },
        Keyword::PRAGMA => {
            assert(Keyword::spec_all()[103] == Keyword::PRAGMA);
        },
        Keyword::PRECEDING => {
            assert(Keyword::spec_all()[104] == Keyword::PRECEDING);
        },
        Keyword::PRIMARY => {
            assert(Keyword::spec_all()[105] == Keyword::PRIMARY);
        },
        Keyword::QUERY => {
            assert(Keyword::spec_all()[106] == Keyword::QUERY);
        },
        Keyword::RAISE => {
            assert(Keyword::spec_all()[107] == Keyword::RAISE);
        },
        Keyword::RANGE => {
            assert(Keyword::spec_all()[108] == Keyword::RANGE);
        },
        Keyword::RECURSIVE => {
            assert(Keyword::spec_all()[109] == Keyword::RECURSIVE);
        },
        Keyword::REFERENCES => {
            assert(Keyword::spec_all()[110] == Keyword::REFERENCES);
        },
        Keyword::REGEXP => {
            assert(Keyword::spec_all()[111] == Keyword::REGEXP);
        },
        Keyword::REINDEX => {
            assert(Keyword::spec_all()[112] == Keyword::REINDEX);
        },
        Keyword::RELEASE => {
            assert(Keyword::spec_all()[113] == Keyword::RELEASE);
        },
        Keyword::RENAME => {
            assert(Keyword::spec_all()[114] == Keyword::RENAME);
        },
        Keyword::REPLACE => {
            assert(Keyword::spec_all()[115] == Keyword::REPLACE);
        },
        Keyword::RESTRICT => {
            assert(Keyword::spec_all()[116] == Keyword::RESTRICT);
        },
        Keyword::RETURNING => {
            assert(Keyword::spec_all()[117] == Keyword::RETURNING);
        },
        Keyword::RIGHT => {
            assert(Keyword::spec_all()[118] == Keyword::RIGHT);
        },
        Keyword::ROLLBACK => {
            assert(Keyword::spec_all()[119] == Keyword::ROLLBACK);
        },
        Keyword::ROW => {
            assert(Keyword::spec_all()[120] == Keyword::ROW);
        },
        Keyword::ROWS => {
            assert(Keyword::spec_all()[121] == Keyword::ROWS);
        },
        Keyword::SAVEPOINT => {
            assert(Keyword::spec_all()[122] == Keyword::SAVEPOINT);
        },
        Keyword::SELECT => {
            assert(Keyword::spec_all()[123] == Keyword::SELECT);
        },
        Keyword::SET => {
            assert(Keyword::spec_all()[124] == Keyword::SET);
        },
        Keyword::TABLE => {
            assert(Keyword::spec_all()[125] == Keyword::TABLE);
        },
        Keyword::TEMP => {
            assert(Keyword::spec_all()[126] == Keyword::TEMP);
        },
        Keyword::TEMPORARY => {
            assert(Keyword::spec_all()[127] == Keyword::TEMPORARY);
        },
        Keyword::THEN => {
            assert(Keyword::spec_all()[128] == Keyword::THEN);
        },
        Keyword::TIES => {
            assert(Keyword::spec_all()[129] == Keyword::TIES);
        },
        Keyword::TO => {
            assert(Keyword::spec_all()[130] == Keyword::TO);
        },
        Keyword::TRANSACTION => {
            assert(Keyword::spec_all()[131] == Keyword::TRANSACTION);
        },
        Keyword::TRIGGER => {
            assert(Keyword::spec_all()[132] == Keyword::TRIGGER);
        },
        Keyword::UNBOUNDED => {
            assert(Keyword::spec_all()[133] == Keyword::UNBOUNDED);
        },
        Keyword::UNION => {
            assert(Keyword::spec_all()[134] == Keyword::UNION);
        },
        Keyword::UNIQUE => {
            assert(Keyword::spec_all()[135] == Keyword::UNIQUE);
        },
        Keyword::UPDATE => {
            assert(Keyword::spec_all()[136] == Keyword::UPDATE);
        },
        Keyword::USING => {
            assert(Keyword::spec_all()[137] == Keyword::USING);
        },
        Keyword::VACUUM => {
            assert(Keyword::spec_all()[138] == Keyword::VACUUM);
        },
        Keyword::VALUES => {
            assert(Keyword::spec_all()[139] == Keyword::VALUES);
        },
        Keyword::VIEW => {
            assert(Keyword::spec_all()[140] == Keyword::VIEW);
        },
        Keyword::VIRTUAL => {
            assert(Keyword::spec_all()[141] == Keyword::VIRTUAL);
        },
        Keyword::WHEN => {
            assert(Keyword::spec_all()[142] == Keyword::WHEN);
        },
        Keyword::WHERE => {
            assert(Keyword::spec_all()[143] == Keyword::WHERE);
        },
        Keyword::WINDOW => {
            assert(Keyword::spec_all()[144] == Keyword::WINDOW);
        },
        Keyword::WITH => {
            assert(Keyword::spec_all()[145] == Keyword::WITH);
        },
        Keyword::WITHOUT => {
            assert(Keyword::spec_all()[146] == Keyword::WITHOUT);
        },
    }
}

} // verus!
