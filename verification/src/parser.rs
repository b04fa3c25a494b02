//! The recursive-descent parser: turns the scanner's token sequence into a
//! list of syntax-tree roots plus a list of diagnostics. It resynchronizes at
//! the next statement terminator on error and always makes forward progress,
//! so a parse of any finite token sequence terminates and consumes every
//! token.

use vstd::prelude::*;

use crate::error::{Error, ImprovedLine};
use crate::keyword::{spec_suggestions, Keyword};
use crate::lexer::lex_err_is;
use crate::nodes::Node;
use crate::rules::Rule;
use crate::text::{push_str, spec_join, spec_upper};
use crate::token::{spec_same_type, spec_type_text, token_clone, token_like, type_matches, type_text, Token, Type};

verus! {

broadcast use vstd::seq_lib::group_seq_properties;

/// The first position at or after `i` holding a statement terminator, or the
/// end of the token sequence.
pub open spec fn semi_end(toks: Seq<Token>, i: int) -> int
    decreases toks.len() - i when 0 <= i <= toks.len()
{
    if i >= toks.len() {
        toks.len() as int
    } else if toks[i].ttype is Semicolon {
        i
    } else {
        semi_end(toks, i + 1)
    }
}

pub proof fn lemma_semi_end_bounds(toks: Seq<Token>, i: int)
    requires
        0 <= i <= toks.len(),
    ensures
        i <= semi_end(toks, i) <= toks.len(),
        forall|k: int| i <= k < semi_end(toks, i) ==> !(toks[k].ttype is Semicolon),
        semi_end(toks, i) < toks.len() ==> toks[semi_end(toks, i)].ttype is Semicolon,
    decreases toks.len() - i,
{
    if i < toks.len() && !(toks[i].ttype is Semicolon) {
        lemma_semi_end_bounds(toks, i + 1);
    }
}



/// What every statement parser guarantees: the cursor moved forward, the
/// token sequence and file name are untouched, and the diagnostics only grew.
pub open spec fn stmt_post<'a>(pre: Parser<'a>, post: Parser<'a>) -> bool {
    &&& post.wf()
    &&& pre.same_input(post)
    &&& post.spec_pos() > pre.spec_pos()
    &&& pre.errors@.is_prefix_of(post.errors@)
}

pub proof fn lemma_prefix_trans(a: Seq<Error>, b: Seq<Error>, c: Seq<Error>)
    requires
        a.is_prefix_of(b),
        b.is_prefix_of(c),
    ensures
        a.is_prefix_of(c),
{
    assert(a =~= c.subrange(0, a.len() as int));
}

pub proof fn lemma_prefix_push(a: Seq<Error>, b: Seq<Error>, x: Error)
    requires
        a.is_prefix_of(b),
    ensures
        a.is_prefix_of(b.push(x)),
{
    assert(a =~= b.push(x).subrange(0, a.len() as int));
}

/// Whether a token kind is one of the transaction behaviour modifiers.
pub open spec fn is_txn_mod(t: Type) -> bool {
    t == Type::Keyword(Keyword::DEFERRED) || t == Type::Keyword(Keyword::IMMEDIATE) || t
        == Type::Keyword(Keyword::EXCLUSIVE)
}

/// Whether a token kind is a literal value.
pub open spec fn is_literal_tt(t: Type) -> bool {
    ||| t is String
    ||| t is Number
    ||| t is Blob
    ||| t is Boolean
    ||| t == Type::Keyword(Keyword::NULL)
    ||| t == Type::Keyword(Keyword::CURRENT_TIME)
    ||| t == Type::Keyword(Keyword::CURRENT_DATE)
    ||| t == Type::Keyword(Keyword::CURRENT_TIMESTAMP)
}

/// Whether a keyword opens a statement this parser understands.
pub open spec fn is_stmt_kw(k: Keyword) -> bool {
    ||| k == Keyword::REINDEX
    ||| k == Keyword::RELEASE
    ||| k == Keyword::SAVEPOINT
    ||| k == Keyword::DROP
    ||| k == Keyword::ANALYZE
    ||| k == Keyword::DETACH
    ||| k == Keyword::ROLLBACK
    ||| k == Keyword::COMMIT
    ||| k == Keyword::END
    ||| k == Keyword::BEGIN
    ||| k == Keyword::VACUUM
}

/// Whether a token kind is the statement terminator.
pub fn is_semi(t: &Type) -> (r: bool)
    ensures
        r == (*t is Semicolon),
{
    matches!(t, Type::Semicolon)
}

/// What [`Parser::vacuum_stmt`] guarantees of its result, over the token
/// sequence at the entry position.
pub open spec fn post_vacuum<'a>(pre: Parser<'a>, post: Parser<'a>, r: Option<Box<Node>>) -> bool {
        let toks = pre.toks();
        let p = pre.spec_pos();
        &&& ((p + 1 < toks.len() && toks[p + 1].ttype is Semicolon) ==> {
            &&& post.errors == pre.errors
            &&& post.spec_pos() == p + 1
            &&& r matches Some(n) && (*n matches Node::Vacuum {
                t,
                schema_name,
                filename,
            } && token_like(t, toks[p]) && schema_name is None && filename is None)
        })
        &&& ((p + 2 < toks.len() && toks[p + 1].ttype is Ident && toks[p + 2].ttype
            is Semicolon) ==> {
            &&& post.errors == pre.errors
            &&& post.spec_pos() == p + 2
            &&& r matches Some(n) && (*n matches Node::Vacuum {
                t,
                schema_name,
                filename,
            } && token_like(t, toks[p]) && (schema_name matches Some(st) && token_like(
                st,
                toks[p + 1],
            )) && filename is None)
        })
        &&& ((p + 3 < toks.len() && toks[p + 1].ttype == Type::Keyword(Keyword::INTO)
            && toks[p + 2].ttype is String && toks[p + 3].ttype is Semicolon) ==> {
            &&& post.errors == pre.errors
            &&& post.spec_pos() == p + 3
            &&& r matches Some(n) && (*n matches Node::Vacuum {
                t,
                schema_name,
                filename,
            } && token_like(t, toks[p]) && schema_name is None && (filename matches Some(
                ft,
            ) && token_like(ft, toks[p + 2])))
        })
        &&& ((p + 4 < toks.len() && toks[p + 1].ttype is Ident && toks[p + 2].ttype
            == Type::Keyword(Keyword::INTO) && toks[p + 3].ttype is String && toks[p
            + 4].ttype is Semicolon) ==> {
            &&& post.errors == pre.errors
            &&& post.spec_pos() == p + 4
            &&& r matches Some(n) && (*n matches Node::Vacuum {
                t,
                schema_name,
                filename,
            } && token_like(t, toks[p]) && (schema_name matches Some(st) && token_like(
                st,
                toks[p + 1],
            )) && (filename matches Some(ft) && token_like(ft, toks[p + 3])))
        })
        &&& ((p + 4 < toks.len() && toks[p + 1].ttype is Number && toks[p + 2].ttype
            == Type::Keyword(Keyword::INTO) && toks[p + 3].ttype is Number && toks[p
            + 4].ttype is Semicolon) ==> {
            &&& post.errors@.len() == pre.errors@.len() + 2
            &&& post.errors@[post.errors@.len() - 2].rule == Rule::Syntax
            &&& post.errors@[post.errors@.len() - 1].rule == Rule::Syntax
            &&& post.spec_pos() == p + 4
            &&& r matches Some(n) && (*n matches Node::Vacuum {
                t,
                schema_name,
                filename,
            } && token_like(t, toks[p]) && schema_name is None && filename is None)
        })
}

/// What [`Parser::begin_stmt`] guarantees of its result, over the token
/// sequence at the entry position.
pub open spec fn post_begin<'a>(pre: Parser<'a>, post: Parser<'a>, r: Option<Box<Node>>) -> bool {
        let toks = pre.toks();
        let p = pre.spec_pos();
        &&& ((p + 1 < toks.len() && toks[p + 1].ttype is Semicolon) ==> {
            &&& post.errors == pre.errors
            &&& post.spec_pos() == p + 1
            &&& r matches Some(n) && (*n matches Node::Begin { t } && token_like(
                t,
                toks[p],
            ))
        })
        &&& ((p + 2 < toks.len() && is_txn_mod(toks[p + 1].ttype) && toks[p + 2].ttype
            is Semicolon) ==> {
            &&& post.errors == pre.errors
            &&& post.spec_pos() == p + 2
            &&& r matches Some(n) && (*n matches Node::Begin { t } && token_like(
                t,
                toks[p],
            ))
        })
        &&& ((p + 2 < toks.len() && toks[p + 1].ttype == Type::Keyword(
            Keyword::TRANSACTION,
        ) && toks[p + 2].ttype is Semicolon) ==> {
            &&& post.errors == pre.errors
            &&& post.spec_pos() == p + 2
            &&& r matches Some(n) && (*n matches Node::Begin { t } && token_like(t, toks[p]))
        })
        &&& ((p + 3 < toks.len() && is_txn_mod(toks[p + 1].ttype) && toks[p + 2].ttype
            == Type::Keyword(Keyword::TRANSACTION) && toks[p + 3].ttype is Semicolon)
            ==> {
            &&& post.errors == pre.errors
            &&& post.spec_pos() == p + 3
            &&& r matches Some(n) && (*n matches Node::Begin { t } && token_like(t, toks[p]))
        })
        &&& ((p + 2 < toks.len() && is_txn_mod(toks[p + 1].ttype) && is_txn_mod(
            toks[p + 2].ttype,
        )) ==> {
            &&& post.errors@ == pre.errors@.push(
                post.errors@.last(),
            )
            &&& lex_err_is(
                post.errors@.last(),
                pre.spec_name(),
                toks[p + 2].line as nat,
                Rule::Syntax,
                "Unexpected Token"@,
                "BEGIN does not allow multiple transaction behaviour modifiers"@,
                toks[p + 2].start as nat,
                toks[p + 2].end as nat,
                true,
            )
            &&& post.spec_pos() == semi_end(toks, p + 2)
            &&& r matches Some(n) && (*n matches Node::Begin { t } && token_like(t, toks[p]))
        })
}

/// What [`Parser::commit_stmt`] guarantees of its result, over the token
/// sequence at the entry position.
pub open spec fn post_commit<'a>(pre: Parser<'a>, post: Parser<'a>, r: Option<Box<Node>>) -> bool {
        let toks = pre.toks();
        let p = pre.spec_pos();
        &&& ((p + 1 < toks.len() && toks[p + 1].ttype is Semicolon) ==> {
            &&& post.errors == pre.errors
            &&& post.spec_pos() == p + 1
            &&& r matches Some(n) && (*n matches Node::Commit { t } && token_like(
                t,
                toks[p],
            ))
        })
        &&& ((p + 2 < toks.len() && toks[p + 1].ttype == Type::Keyword(
            Keyword::TRANSACTION,
        ) && toks[p + 2].ttype is Semicolon) ==> {
            &&& post.errors == pre.errors
            &&& post.spec_pos() == p + 2
            &&& r matches Some(n) && (*n matches Node::Commit { t } && token_like(
                t,
                toks[p],
            ))
        })
}

/// What [`Parser::rollback_stmt`] guarantees of its result, over the token
/// sequence at the entry position.
pub open spec fn post_rollback<'a>(pre: Parser<'a>, post: Parser<'a>, r: Option<Box<Node>>) -> bool {
        let toks = pre.toks();
        let p = pre.spec_pos();
        &&& ((p + 1 < toks.len() && toks[p + 1].ttype is Semicolon) ==> {
            &&& post.errors == pre.errors
            &&& post.spec_pos() == p + 1
            &&& r matches Some(n) && (*n matches Node::Rollback { t, save_point }
                && token_like(t, toks[p]) && save_point is None)
        })
        &&& ((p + 2 < toks.len() && toks[p + 1].ttype == Type::Keyword(
            Keyword::TRANSACTION,
        ) && toks[p + 2].ttype is Semicolon) ==> {
            &&& post.errors == pre.errors
            &&& post.spec_pos() == p + 2
            &&& r matches Some(n) && (*n matches Node::Rollback { t, save_point } && token_like(t, toks[p]))
        })
        &&& ((p + 3 < toks.len() && toks[p + 1].ttype == Type::Keyword(Keyword::TO)
            && toks[p + 2].ttype is Ident && toks[p + 3].ttype is Semicolon) ==> {
            &&& post.errors == pre.errors
            &&& post.spec_pos() == p + 3
            &&& r matches Some(n) && (*n matches Node::Rollback { t, save_point }
                && token_like(t, toks[p]) && (save_point matches Some(sv) && (
            toks[p + 2].ttype matches Type::Ident(sp) && sv@ == sp@)))
        })
        &&& ((p + 4 < toks.len() && toks[p + 1].ttype == Type::Keyword(Keyword::TO)
            && toks[p + 2].ttype == Type::Keyword(Keyword::SAVEPOINT) && toks[p
            + 3].ttype is Ident && toks[p + 4].ttype is Semicolon) ==> {
            &&& post.errors == pre.errors
            &&& post.spec_pos() == p + 4
            &&& r matches Some(n) && (*n matches Node::Rollback { t, save_point }
                && token_like(t, toks[p]) && (save_point matches Some(sv) && (
            toks[p + 3].ttype matches Type::Ident(sp) && sv@ == sp@)))
        })
        &&& ((p + 4 < toks.len() && toks[p + 1].ttype == Type::Keyword(Keyword::TRANSACTION)
            && toks[p + 2].ttype == Type::Keyword(Keyword::TO) && toks[p + 3].ttype is Ident
            && toks[p + 4].ttype is Semicolon) ==> {
            &&& post.errors == pre.errors
            &&& post.spec_pos() == p + 4
            &&& r matches Some(n) && (*n matches Node::Rollback { t, save_point }
                && token_like(t, toks[p]) && (save_point matches Some(sv) && (toks[p
                + 3].ttype matches Type::Ident(sp) && sv@ == sp@)))
        })
        &&& ((p + 5 < toks.len() && toks[p + 1].ttype == Type::Keyword(Keyword::TRANSACTION)
            && toks[p + 2].ttype == Type::Keyword(Keyword::TO) && toks[p + 3].ttype
            == Type::Keyword(Keyword::SAVEPOINT) && toks[p + 4].ttype is Ident && toks[p
            + 5].ttype is Semicolon) ==> {
            &&& post.errors == pre.errors
            &&& post.spec_pos() == p + 5
            &&& r matches Some(n) && (*n matches Node::Rollback { t, save_point }
                && token_like(t, toks[p]) && (save_point matches Some(sv) && (toks[p
                + 4].ttype matches Type::Ident(sp) && sv@ == sp@)))
        })
}

/// What [`Parser::savepoint_stmt`] guarantees of its result, over the token
/// sequence at the entry position.
pub open spec fn post_savepoint<'a>(pre: Parser<'a>, post: Parser<'a>, r: Option<Box<Node>>) -> bool {
        let toks = pre.toks();
        let p = pre.spec_pos();
        (p + 2 < toks.len() && toks[p + 1].ttype is Ident && toks[p + 2].ttype
            is Semicolon) ==> {
            &&& post.errors == pre.errors
            &&& post.spec_pos() == p + 2
            &&& r matches Some(n) && (*n matches Node::Savepoint { t, savepoint_name }
                && token_like(t, toks[p]) && (toks[p + 1].ttype matches Type::Ident(sp)
                && savepoint_name@ == sp@))
        }
}

/// What [`Parser::release_stmt`] guarantees of its result, over the token
/// sequence at the entry position.
pub open spec fn post_release<'a>(pre: Parser<'a>, post: Parser<'a>, r: Option<Box<Node>>) -> bool {
        let toks = pre.toks();
        let p = pre.spec_pos();
        &&& ((p + 2 < toks.len() && toks[p + 1].ttype is Ident && toks[p + 2].ttype
            is Semicolon) ==> {
            &&& post.errors == pre.errors
            &&& post.spec_pos() == p + 2
            &&& r matches Some(n) && (*n matches Node::Release { t, savepoint_name }
                && token_like(t, toks[p]) && (toks[p + 1].ttype matches Type::Ident(sp)
                && savepoint_name@ == sp@))
        })
        &&& ((p + 3 < toks.len() && toks[p + 1].ttype == Type::Keyword(
            Keyword::SAVEPOINT,
        ) && toks[p + 2].ttype is Ident && toks[p + 3].ttype is Semicolon) ==> {
            &&& post.errors == pre.errors
            &&& post.spec_pos() == p + 3
            &&& r matches Some(n) && (*n matches Node::Release { t, savepoint_name }
                && token_like(t, toks[p]) && (toks[p + 2].ttype matches Type::Ident(sp)
                && savepoint_name@ == sp@))
        })
}

/// What [`Parser::detach_stmt`] guarantees of its result, over the token
/// sequence at the entry position.
pub open spec fn post_detach<'a>(pre: Parser<'a>, post: Parser<'a>, r: Option<Box<Node>>) -> bool {
        let toks = pre.toks();
        let p = pre.spec_pos();
        &&& ((p + 2 < toks.len() && toks[p + 1].ttype is Ident && toks[p + 2].ttype
            is Semicolon) ==> {
            &&& post.errors == pre.errors
            &&& post.spec_pos() == p + 2
            &&& r matches Some(n) && (*n matches Node::Detach { t, schema_name }
                && token_like(t, toks[p]) && (toks[p + 1].ttype matches Type::Ident(sp)
                && schema_name@ == sp@))
        })
        &&& ((p + 3 < toks.len() && toks[p + 1].ttype == Type::Keyword(
            Keyword::DATABASE,
        ) && toks[p + 2].ttype is Ident && toks[p + 3].ttype is Semicolon) ==> {
            &&& post.errors == pre.errors
            &&& post.spec_pos() == p + 3
            &&& r matches Some(n) && (*n matches Node::Detach { t, schema_name }
                && token_like(t, toks[p]) && (toks[p + 2].ttype matches Type::Ident(sp)
                && schema_name@ == sp@))
        })
}

/// What [`Parser::analyse_stmt`] guarantees of its result, over the token
/// sequence at the entry position.
pub open spec fn post_analyse<'a>(pre: Parser<'a>, post: Parser<'a>, r: Option<Box<Node>>) -> bool {
        let toks = pre.toks();
        let p = pre.spec_pos();
        &&& ((p + 1 < toks.len() && toks[p + 1].ttype is Semicolon) ==> {
            &&& post.errors == pre.errors
            &&& post.spec_pos() == p + 1
            &&& r matches Some(n) && (*n matches Node::Analyze {
                t,
                schema_index_or_table_name,
                schema_with_table_or_index_name,
            } && token_like(t, toks[p]) && schema_index_or_table_name is None
                && schema_with_table_or_index_name is None)
        })
        &&& ((p + 2 < toks.len() && toks[p + 1].ttype is Ident && toks[p + 2].ttype
            is Semicolon) ==> {
            &&& post.errors == pre.errors
            &&& post.spec_pos() == p + 2
            &&& r matches Some(n) && (*n matches Node::Analyze {
                t,
                schema_index_or_table_name,
                schema_with_table_or_index_name,
            } && token_like(t, toks[p]) && (schema_index_or_table_name matches Some(sn)
                && (toks[p + 1].ttype matches Type::Ident(sp) && sn@ == sp@))
                && schema_with_table_or_index_name is None)
        })
        &&& ((p + 4 < toks.len() && toks[p + 1].ttype is Ident && toks[p + 2].ttype
            is Dot && toks[p + 3].ttype is Ident && toks[p + 4].ttype is Semicolon)
            ==> {
            &&& post.errors == pre.errors
            &&& post.spec_pos() == p + 4
            &&& r matches Some(n) && (*n matches Node::Analyze {
                t,
                schema_index_or_table_name,
                schema_with_table_or_index_name,
            } && token_like(t, toks[p]) && schema_index_or_table_name is None && (
            schema_with_table_or_index_name matches Some(sn) && (toks[p + 1].ttype
                matches Type::Ident(a) && toks[p + 3].ttype matches Type::Ident(b)
                && sn@ == a@ + "."@ + b@)))
        })
}

/// What [`Parser::drop_stmt`] guarantees of its result, over the token
/// sequence at the entry position.
pub open spec fn post_drop<'a>(pre: Parser<'a>, post: Parser<'a>, r: Option<Box<Node>>) -> bool {
        let toks = pre.toks();
        let p = pre.spec_pos();
        &&& ((p + 3 < toks.len() && (toks[p + 1].ttype == Type::Keyword(Keyword::INDEX)
            || toks[p + 1].ttype == Type::Keyword(Keyword::TABLE) || toks[p + 1].ttype
            == Type::Keyword(Keyword::TRIGGER) || toks[p + 1].ttype == Type::Keyword(
            Keyword::VIEW,
        )) && toks[p + 2].ttype is Ident && toks[p + 3].ttype is Semicolon) ==> {
            &&& post.errors == pre.errors
            &&& post.spec_pos() == p + 3
            &&& r matches Some(n) && (*n matches Node::Drop {
                t,
                if_exists,
                kind,
                argument,
            } && token_like(t, toks[p]) && !if_exists && toks[p + 1].ttype
                == Type::Keyword(kind) && (toks[p + 2].ttype matches Type::Ident(a)
                && argument@ == a@))
        })
        &&& ((p + 5 < toks.len() && (toks[p + 1].ttype == Type::Keyword(Keyword::INDEX)
            || toks[p + 1].ttype == Type::Keyword(Keyword::TABLE) || toks[p + 1].ttype
            == Type::Keyword(Keyword::TRIGGER) || toks[p + 1].ttype == Type::Keyword(
            Keyword::VIEW,
        )) && toks[p + 2].ttype == Type::Keyword(Keyword::IF) && toks[p + 3].ttype
            == Type::Keyword(Keyword::EXISTS) && toks[p + 4].ttype is Ident && toks[p
            + 5].ttype is Semicolon) ==> {
            &&& post.errors == pre.errors
            &&& post.spec_pos() == p + 5
            &&& r matches Some(n) && (*n matches Node::Drop {
                t,
                if_exists,
                kind,
                argument,
            } && token_like(t, toks[p]) && if_exists && toks[p + 1].ttype
                == Type::Keyword(kind) && (toks[p + 4].ttype matches Type::Ident(a)
                && argument@ == a@))
        })
        &&& ((p + 5 < toks.len() && (toks[p + 1].ttype == Type::Keyword(Keyword::INDEX)
            || toks[p + 1].ttype == Type::Keyword(Keyword::TABLE) || toks[p + 1].ttype
            == Type::Keyword(Keyword::TRIGGER) || toks[p + 1].ttype == Type::Keyword(
            Keyword::VIEW,
        )) && toks[p + 2].ttype is Ident && toks[p + 3].ttype is Dot && toks[p + 4].ttype
            is Ident && toks[p + 5].ttype is Semicolon) ==> {
            &&& post.errors == pre.errors
            &&& post.spec_pos() == p + 5
            &&& r matches Some(n) && (*n matches Node::Drop {
                t,
                if_exists,
                kind,
                argument,
            } && token_like(t, toks[p]) && !if_exists && toks[p + 1].ttype
                == Type::Keyword(kind) && (toks[p + 2].ttype matches Type::Ident(a) && (toks[p
                + 4].ttype matches Type::Ident(b) && argument@ == a@ + "."@ + b@)))
        })
        &&& ((p + 7 < toks.len() && (toks[p + 1].ttype == Type::Keyword(Keyword::INDEX)
            || toks[p + 1].ttype == Type::Keyword(Keyword::TABLE) || toks[p + 1].ttype
            == Type::Keyword(Keyword::TRIGGER) || toks[p + 1].ttype == Type::Keyword(
            Keyword::VIEW,
        )) && toks[p + 2].ttype == Type::Keyword(Keyword::IF) && toks[p + 3].ttype
            == Type::Keyword(Keyword::EXISTS) && toks[p + 4].ttype is Ident && toks[p
            + 5].ttype is Dot && toks[p + 6].ttype is Ident && toks[p + 7].ttype
            is Semicolon) ==> {
            &&& post.errors == pre.errors
            &&& post.spec_pos() == p + 7
            &&& r matches Some(n) && (*n matches Node::Drop {
                t,
                if_exists,
                kind,
                argument,
            } && token_like(t, toks[p]) && if_exists && toks[p + 1].ttype
                == Type::Keyword(kind) && (toks[p + 4].ttype matches Type::Ident(a) && (toks[p
                + 6].ttype matches Type::Ident(b) && argument@ == a@ + "."@ + b@)))
        })
}

/// What [`Parser::reindex_stmt`] guarantees of its result, over the token
/// sequence at the entry position.
pub open spec fn post_reindex<'a>(pre: Parser<'a>, post: Parser<'a>, r: Option<Box<Node>>) -> bool {
        let toks = pre.toks();
        let p = pre.spec_pos();
        &&& ((p + 1 < toks.len() && toks[p + 1].ttype is Semicolon) ==> {
            &&& post.errors == pre.errors
            &&& post.spec_pos() == p + 1
            &&& r matches Some(n) && (*n matches Node::Reindex {
                t,
                collation_or_schema,
            } && token_like(t, toks[p]) && collation_or_schema is None)
        })
        &&& ((p + 2 < toks.len() && toks[p + 1].ttype is Ident && toks[p + 2].ttype
            is Semicolon) ==> {
            &&& post.errors == pre.errors
            &&& post.spec_pos() == p + 2
            &&& r matches Some(n) && (*n matches Node::Reindex {
                t,
                collation_or_schema,
            } && token_like(t, toks[p]) && (collation_or_schema matches Some(cs) && (
            toks[p + 1].ttype matches Type::Ident(a) && cs@ == a@)))
        })
        &&& ((p + 4 < toks.len() && toks[p + 1].ttype is Ident && toks[p + 2].ttype
            is Dot && toks[p + 3].ttype is Ident && toks[p + 4].ttype is Semicolon)
            ==> {
            &&& post.errors == pre.errors
            &&& post.spec_pos() == p + 4
            &&& r matches Some(n) && (*n matches Node::Reindex {
                t,
                collation_or_schema,
            } && token_like(t, toks[p]) && (collation_or_schema matches Some(cs) && (
            toks[p + 1].ttype matches Type::Ident(a) && toks[p + 3].ttype
                matches Type::Ident(b) && cs@ == a@ + "."@ + b@)))
        })
}

/// What [`Parser::sql_stmt`] guarantees: forward progress, diagnostics only
/// grow, exact classification of each rejected leading token, and for each
/// statement keyword the guarantee of its statement parser.
pub open spec fn post_sql_stmt<'a>(pre: Parser<'a>, post: Parser<'a>, r: Option<Box<Node>>) -> bool {
    &&& post.wf()
    &&& pre.same_input(post)
    &&& pre.errors@.is_prefix_of(post.errors@)
    &&& post.spec_pos() >= pre.spec_pos()
    &&& (pre.spec_pos() == pre.toks().len() ==> post == pre && r is None)
    &&& (pre.spec_pos() < pre.toks().len() ==> post.spec_pos() > pre.spec_pos())
    &&& ({
        let toks = pre.toks();
        let p = pre.spec_pos();
        p < toks.len() ==> {
            &&& (toks[p].ttype is Semicolon ==> {
                &&& post.spec_pos() == p + 1
                &&& r is None
                &&& post.errors@ == pre.errors@.push(
                    post.errors@.last(),
                )
                &&& lex_err_is(
                    post.errors@.last(),
                    pre.spec_name(),
                    toks[p].line as nat,
                    Rule::Syntax,
                    "Unexpected Token"@,
                    "Semicolon makes no sense at this point"@,
                    toks[p].start as nat,
                    toks[p].end as nat,
                    false,
                )
            })
            &&& (is_literal_tt(toks[p].ttype) ==> {
                &&& post.spec_pos() == p + 1
                &&& r is None
                &&& post.errors@ == pre.errors@.push(
                    post.errors@.last(),
                )
                &&& lex_err_is(
                    post.errors@.last(),
                    pre.spec_name(),
                    toks[p].line as nat,
                    Rule::Syntax,
                    "Unexpected Literal"@,
                    "Literal "@ + spec_type_text(toks[p].ttype)
                        + " disallowed at this point."@,
                    toks[p].start as nat,
                    toks[p].end as nat,
                    true,
                )
            })
            &&& (toks[p].ttype is Ident ==> {
                &&& post.spec_pos() == semi_end(toks, p)
                &&& r is None
                &&& post.errors@ == pre.errors@.push(
                    post.errors@.last(),
                )
                &&& (toks[p].ttype matches Type::Ident(nm) && lex_err_is(
                    post.errors@.last(),
                    pre.spec_name(),
                    toks[p].line as nat,
                    Rule::UnknownKeyword,
                    "Unknown Keyword"@,
                    "'"@ + nm@ + "' is not a know keyword, did you mean: 
	- "@ + spec_join(
                        spec_suggestions(spec_upper(nm@)),
                        "
	- "@,
                    ),
                    toks[p].start as nat,
                    toks[p].end as nat,
                    false,
                ))
            })
            &&& ((toks[p].ttype matches Type::Keyword(k) && !is_stmt_kw(k)
                && !is_literal_tt(toks[p].ttype)) ==> {
                &&& post.spec_pos() == semi_end(toks, p)
                &&& r is None
                &&& post.errors@ == pre.errors@.push(
                    post.errors@.last(),
                )
                &&& lex_err_is(
                    post.errors@.last(),
                    pre.spec_name(),
                    toks[p].line as nat,
                    Rule::Unimplemented,
                    "Unimplemented"@,
                    "sqleibniz can not yet analyse the token "@ + spec_type_text(
                        toks[p].ttype,
                    ) + ", skipping ahead to next statement"@,
                    toks[p].start as nat,
                    toks[p].end as nat,
                    false,
                )
            })
        }
    
    })
    &&& ({
        let toks = pre.toks();
        let p = pre.spec_pos();
        p < toks.len() ==> {
            &&& (toks[p].ttype == Type::Keyword(Keyword::REINDEX) ==> post_reindex(pre, post, r))
            &&& (toks[p].ttype == Type::Keyword(Keyword::RELEASE) ==> post_release(pre, post, r))
            &&& (toks[p].ttype == Type::Keyword(Keyword::SAVEPOINT) ==> post_savepoint(
                pre,
                post,
                r,
            ))
            &&& (toks[p].ttype == Type::Keyword(Keyword::DROP) ==> post_drop(pre, post, r))
            &&& (toks[p].ttype == Type::Keyword(Keyword::ANALYZE) ==> post_analyse(pre, post, r))
            &&& (toks[p].ttype == Type::Keyword(Keyword::DETACH) ==> post_detach(pre, post, r))
            &&& (toks[p].ttype == Type::Keyword(Keyword::ROLLBACK) ==> post_rollback(
                pre,
                post,
                r,
            ))
            &&& ((toks[p].ttype == Type::Keyword(Keyword::COMMIT) || toks[p].ttype
                == Type::Keyword(Keyword::END)) ==> post_commit(pre, post, r))
            &&& (toks[p].ttype == Type::Keyword(Keyword::BEGIN) ==> post_begin(pre, post, r))
            &&& (toks[p].ttype == Type::Keyword(Keyword::VACUUM) ==> post_vacuum(pre, post, r))
        }
    })
}

/// The canonical whole-input shapes the statement-list contract pins.
pub open spec fn shape_vacuum_ok(toks: Seq<Token>) -> bool {
    toks.len() == 5 && toks[0].ttype == Type::Keyword(Keyword::VACUUM) && toks[1].ttype
        is Ident && toks[2].ttype == Type::Keyword(Keyword::INTO) && toks[3].ttype is String
        && toks[4].ttype is Semicolon
}

pub open spec fn shape_vacuum_bad(toks: Seq<Token>) -> bool {
    toks.len() == 5 && toks[0].ttype == Type::Keyword(Keyword::VACUUM) && toks[1].ttype
        is Number && toks[2].ttype == Type::Keyword(Keyword::INTO) && toks[3].ttype is Number
        && toks[4].ttype is Semicolon
}

/// An instruction marker heading its own statement, terminator last.
pub open spec fn shape_instruction(toks: Seq<Token>) -> bool {
    toks.len() >= 2 && toks[0].ttype is InstructionExpect && semi_end(toks, 0) == toks.len() - 1
}

pub open spec fn shape_begin_two_mods(toks: Seq<Token>) -> bool {
    toks.len() == 4 && toks[0].ttype == Type::Keyword(Keyword::BEGIN) && is_txn_mod(
        toks[1].ttype,
    ) && is_txn_mod(toks[2].ttype) && toks[3].ttype is Semicolon
}

/// What the statement-list loop guarantees on three canonical whole-input
/// shapes, carried up from the statement parsers: a well-formed VACUUM
/// statement yields exactly its tree and no diagnostics; a VACUUM with two
/// bad literals yields exactly two diagnostics and still its (partial) tree;
/// a BEGIN with two transaction modifiers yields exactly one diagnostic and
/// its tree. Each fills exactly one slot of the result.
pub open spec fn list_scenarios<'a>(
    pre: Parser<'a>,
    post: Parser<'a>,
    r: Seq<Option<Box<Node>>>,
) -> bool {
    let toks = pre.toks();
    pre.spec_pos() == 0 ==> {
        &&& (shape_vacuum_ok(toks) ==> {
            &&& post.errors == pre.errors
            &&& r.len() == 1
            &&& r[0] matches Some(n) && (*n matches Node::Vacuum { t, schema_name, filename }
                && token_like(t, toks[0]) && (schema_name matches Some(st) && token_like(
                st,
                toks[1],
            )) && (filename matches Some(ft) && token_like(ft, toks[3])))
        })
        &&& (shape_vacuum_bad(toks) ==> {
            &&& post.errors@.len() == pre.errors@.len() + 2
            &&& r.len() == 1
            &&& r[0] matches Some(n) && (*n matches Node::Vacuum { t, schema_name, filename }
                && token_like(t, toks[0]) && schema_name is None && filename is None)
        })
        &&& (shape_begin_two_mods(toks) ==> {
            &&& post.errors@.len() == pre.errors@.len() + 1
            &&& post.errors@.last().note@
                == "BEGIN does not allow multiple transaction behaviour modifiers"@
            &&& r.len() == 1
            &&& r[0] matches Some(n) && (*n matches Node::Begin { t } && token_like(t, toks[0]))
        })
        &&& (shape_instruction(toks) ==> {
            // the instruction discards the statement's tokens without a
            // diagnostic and fills no slot
            &&& post.errors == pre.errors
            &&& r.len() == 0
        })
    }
}

/// The parser: a cursor over the token sequence, collecting diagnostics as it
/// goes.
#[verifier::ext_equal]
pub struct Parser<'a> {
    pub pos: usize,
    pub tokens: Vec<Token>,
    pub name: &'a str,
    pub errors: Vec<Error>,
}

impl<'a> Parser<'a> {
    /// The cursor is inside the token sequence.
    pub open spec fn wf(self) -> bool {
        self.pos <= self.tokens@.len()
    }

    pub open spec fn spec_pos(self) -> int {
        self.pos as int
    }

    pub open spec fn toks(self) -> Seq<Token> {
        self.tokens@
    }

    pub open spec fn spec_name(self) -> Seq<char> {
        self.name@
    }

    /// The parser and the given state agree on the token sequence and the
    /// file name.
    pub open spec fn same_input(self, other: Parser<'a>) -> bool {
        self.tokens == other.tokens && self.name == other.name
    }

    /// Whether the cursor stands on a token matching `t`.
    pub open spec fn at(self, t: Type) -> bool {
        self.spec_pos() < self.toks().len() && spec_same_type(
            self.toks()[self.spec_pos()].ttype,
            t,
        )
    }

    /// A fresh parser over `tokens`, named `name`, at the start of the
    /// sequence with no diagnostics.
    pub fn new(tokens: Vec<Token>, name: &'a str) -> (r: Parser<'a>)
        ensures
            r.wf(),
            r.spec_pos() == 0,
            r.toks() == tokens@,
            r.spec_name() == name@,
            r.errors@ == Seq::<Error>::empty(),
    {
        let r = Parser { pos: 0, name, tokens, errors: Vec::new() };
        assert(r.errors@ =~= Seq::<Error>::empty());
        r
    }

    /// The token under the cursor, if any.
    fn cur(&self) -> (r: Option<&Token>)
        requires
            self.wf(),
        ensures
            self.spec_pos() < self.toks().len() ==> (r matches Some(t) && *t
                == self.toks()[self.spec_pos()]),
            self.spec_pos() == self.toks().len() ==> r is None,
    {
        if self.pos < self.tokens.len() {
            Some(&self.tokens[self.pos])
        } else {
            None
        }
    }

    /// A diagnostic anchored at `start`'s line, spanning from `start`'s start
    /// column to the end of the token under the cursor (or to `start`'s start
    /// column at the end of input).
    fn err(&self, msg: &str, note: &str, start: &Token, rule: Rule) -> (r: Error)
        requires
            self.wf(),
        ensures
            lex_err_is(
                r,
                self.spec_name(),
                start.line as nat,
                rule,
                msg@,
                note@,
                start.start as nat,
                if self.spec_pos() < self.toks().len() {
                    self.toks()[self.spec_pos()].end as nat
                } else {
                    start.start as nat
                },
                false,
            ),
            r.improved_line is None,
    {
        let end = match self.cur() {
            None => start.start,
            Some(tok) => tok.end,
        };
        Error {
            improved_line: None,
            file: self.name.to_owned(),
            line: start.line,
            rule,
            note: note.to_owned(),
            msg: msg.to_owned(),
            start: start.start,
            end,
            doc_url: None,
        }
    }

    /// Whether the cursor is at the end of the token sequence.
    fn is_eof(&self) -> (r: bool)
        requires
            self.wf(),
        ensures
            r == (self.spec_pos() == self.toks().len()),
    {
        self.pos >= self.tokens.len()
    }

    /// Steps over the token under the cursor; does nothing at the end of the
    /// sequence.
    fn advance(&mut self)
        requires
            old(self).wf(),
        ensures
            final(self).wf(),
            old(self).same_input(*final(self)),
            final(self).errors == old(self).errors,
            old(self).spec_pos() < old(self).toks().len() ==> final(self).spec_pos() == old(
                self,
            ).spec_pos() + 1,
            old(self).spec_pos() == old(self).toks().len() ==> *final(self) == *old(self),
    {
        if self.pos < self.tokens.len() {
            self.pos = self.pos + 1;
        }
    }

    /// Whether the token under the cursor matches `t`.
    fn is(&self, t: Type) -> (r: bool)
        requires
            self.wf(),
        ensures
            r == self.at(t),
    {
        match self.cur() {
            None => false,
            Some(tok) => type_matches(&tok.ttype, &t),
        }
    }

    /// Whether the token after the cursor matches `t`.
    fn next_is(&self, t: Type) -> (r: bool)
        requires
            self.wf(),
        ensures
            r == (self.spec_pos() + 1 < self.toks().len() && spec_same_type(
                self.toks()[self.spec_pos() + 1].ttype,
                t,
            )),
    {
        if self.pos < self.tokens.len() && self.pos + 1 < self.tokens.len() {
            type_matches(&self.tokens[self.pos + 1].ttype, &t)
        } else {
            false
        }
    }

    /// Discards tokens up to the next statement terminator or the end of the
    /// sequence: the parser's resynchronization mechanism.
    fn skip_until_semicolon_or_eof(&mut self)
        requires
            old(self).wf(),
        ensures
            final(self).wf(),
            old(self).same_input(*final(self)),
            final(self).errors == old(self).errors,
            final(self).spec_pos() == semi_end(old(self).toks(), old(self).spec_pos()),
            final(self).spec_pos() >= old(self).spec_pos(),
            final(self).spec_pos() < final(self).toks().len() ==> final(self).toks()[final(self).spec_pos()].ttype is Semicolon,
    {
        proof {
            lemma_semi_end_bounds(old(self).toks(), old(self).spec_pos());
        }
        let ghost e = semi_end(old(self).toks(), old(self).spec_pos());
        while self.pos < self.tokens.len() && !is_semi(&self.tokens[self.pos].ttype)
            invariant
                self.wf(),
                old(self).same_input(*self),
                self.errors == old(self).errors,
                old(self).spec_pos() <= self.spec_pos() <= self.toks().len(),
                e == semi_end(old(self).toks(), old(self).spec_pos()),
                semi_end(self.toks(), self.spec_pos()) == e,
            decreases self.toks().len() - self.spec_pos(),
        {
            self.pos = self.pos + 1;
        }
        assert(self.spec_pos() == e);
    }

    /// Tests the token under the cursor against `t` and advances either way,
    /// so the parser never stalls on one bad token: a mismatch yields one
    /// diagnostic (a dedicated missing-terminator diagnostic with a suggested
    /// fix when `t` is the statement terminator), never a stop.
    fn consume(&mut self, t: Type)
        requires
            old(self).wf(),
            old(self).toks().len() > 0,
        ensures
            final(self).wf(),
            old(self).same_input(*final(self)),
            old(self).spec_pos() < old(self).toks().len() ==> final(self).spec_pos() == old(
                self,
            ).spec_pos() + 1,
            old(self).spec_pos() == old(self).toks().len() ==> final(self).spec_pos() == old(
                self,
            ).spec_pos(),
            old(self).at(t) ==> final(self).errors == old(self).errors,
            !old(self).at(t) ==> {
                let toks = old(self).toks();
                let p = old(self).spec_pos();
                let curtt = if p < toks.len() {
                    toks[p].ttype
                } else {
                    Type::Eof
                };
                let line = if p < toks.len() {
                    toks[p].line as nat
                } else {
                    toks[toks.len() - 1].line as nat
                };
                let cstart = if p < toks.len() {
                    toks[p].start as nat
                } else {
                    toks[toks.len() - 1].end as nat
                };
                let cend = if p < toks.len() {
                    toks[p].end as nat
                } else {
                    toks[toks.len() - 1].end as nat
                };
                let semi = t is Semicolon;
                &&& final(self).errors@ == old(self).errors@.push(final(self).errors@.last())
                &&& lex_err_is(
                    final(self).errors@.last(),
                    old(self).spec_name(),
                    line,
                    if semi {
                        Rule::Semicolon
                    } else {
                        Rule::Syntax
                    },
                    if semi {
                        "Missing semicolon"@
                    } else if p == toks.len() {
                        "Unexpected End of input"@
                    } else {
                        "Unexpected Token"@
                    },
                    "Wanted "@ + spec_type_text(t) + ", got "@ + spec_type_text(curtt) + (
                    if semi {
                        ", terminate statements with ';'"@
                    } else {
                        Seq::<char>::empty()
                    }),
                    cstart,
                    cend,
                    true,
                )
                &&& (if semi {
                    final(self).errors@.last().improved_line matches Some(il) && il.snippet@
                        == ";"@ && il.start == cend
                } else {
                    final(self).errors@.last().improved_line is None
                })
                &&& (final(self).errors@.last().doc_url matches Some(u) && u@
                    == "https://www.sqlite.org/syntax/sql-stmt.html"@)
            },
    {
        let matched = match self.cur() {
            None => false,
            Some(tok) => type_matches(&tok.ttype, &t),
        };
        if !matched {
            let semi = is_semi(&t);
            let (ctt_text, line, cstart, cend): (String, usize, usize, usize) = match self.cur() {
                None => {
                    let last = &self.tokens[self.tokens.len() - 1];
                    (type_text(&Type::Eof), last.line, last.end, last.end)
                },
                Some(c) => (type_text(&c.ttype), c.line, c.start, c.end),
            };
            let mut note = String::new();
            push_str(&mut note, "Wanted ");
            let wanted = type_text(&t);
            push_str(&mut note, wanted.as_str());
            push_str(&mut note, ", got ");
            push_str(&mut note, ctt_text.as_str());
            let msg: &str = if semi {
                "Missing semicolon"
            } else if self.pos >= self.tokens.len() {
                "Unexpected End of input"
            } else {
                "Unexpected Token"
            };
            if semi {
                push_str(&mut note, ", terminate statements with ';'");
            }
            let mut err = Error {
                improved_line: None,
                file: self.name.to_owned(),
                line,
                rule: if semi {
                    Rule::Semicolon
                } else {
                    Rule::Syntax
                },
                note,
                msg: msg.to_owned(),
                start: cstart,
                end: cend,
                doc_url: None,
            };
            if semi {
                err.improved_line = Some(ImprovedLine { snippet: ";", start: cend });
            }
            err.doc_url = Some("https://www.sqlite.org/syntax/sql-stmt.html");
            self.errors.push(err);
            proof {
                if !(t is Semicolon) {
                    assert("Wanted "@ + spec_type_text(t) + ", got "@ + spec_type_text(
                        if old(self).spec_pos() < old(self).toks().len() {
                            old(self).toks()[old(self).spec_pos()].ttype
                        } else {
                            Type::Eof
                        },
                    ) + Seq::<char>::empty() =~= "Wanted "@ + spec_type_text(t) + ", got "@
                        + spec_type_text(
                        if old(self).spec_pos() < old(self).toks().len() {
                            old(self).toks()[old(self).spec_pos()].ttype
                        } else {
                            Type::Eof
                        },
                    ));
                }
            }
        }
        // we advance either way to keep the parser error resistant
        self.advance();
    }

    /// Flags trailing tokens after a statement's required part: anything but
    /// the statement terminator (or the end of input) yields one diagnostic
    /// and a step forward.
    fn expect_end(&mut self, doc: &'static str) -> (r: Option<()>)
        requires
            old(self).wf(),
        ensures
            final(self).wf(),
            old(self).same_input(*final(self)),
            r is None,
            old(self).spec_pos() == old(self).toks().len() ==> *final(self) == *old(self),
            old(self).at(Type::Semicolon) ==> *final(self) == *old(self),
            (old(self).spec_pos() < old(self).toks().len() && !old(self).at(Type::Semicolon))
                ==> {
                let toks = old(self).toks();
                let p = old(self).spec_pos();
                &&& final(self).spec_pos() == p + 1
                &&& final(self).errors@ == old(self).errors@.push(final(self).errors@.last())
                &&& lex_err_is(
                    final(self).errors@.last(),
                    old(self).spec_name(),
                    toks[p].line as nat,
                    Rule::Syntax,
                    "Unexpected Statement Continuation"@,
                    "End of statement via Semicolon expected, got "@ + spec_type_text(
                        toks[p].ttype,
                    ),
                    toks[p].start as nat,
                    toks[p].end as nat,
                    doc@.len() > 0,
                )
                &&& (doc@.len() > 0 ==> (final(self).errors@.last().doc_url matches Some(u)
                    && u@ == doc@))
            },
    {
        if !self.is(Type::Semicolon) {
            let cur = match self.cur() {
                None => {
                    return None;
                },
                Some(c) => c,
            };
            let mut note = String::new();
            push_str(&mut note, "End of statement via Semicolon expected, got ");
            let ctt = type_text(&cur.ttype);
            push_str(&mut note, ctt.as_str());
            let line = cur.line;
            let cstart = cur.start;
            let cend = cur.end;
            let mut err = Error {
                improved_line: None,
                file: self.name.to_owned(),
                line,
                rule: Rule::Syntax,
                note,
                msg: {
                    let mut m = String::new();
                    push_str(&mut m, "Unexpected Statement Continuation");
                    m
                },
                start: cstart,
                end: cend,
                doc_url: None,
            };
            if doc.unicode_len() != 0 {
                err.doc_url = Some(doc);
            }
            self.errors.push(err);
            self.advance();
        }
        None
    }

    /// Takes the identifier under the cursor. Anything else yields one
    /// diagnostic and resynchronizes to the next statement terminator; the
    /// end of input yields nothing at all.
    fn consume_ident(&mut self, doc: &'static str, expected_ident_name: &'static str) -> (r:
        Option<String>)
        requires
            old(self).wf(),
        ensures
            final(self).wf(),
            old(self).same_input(*final(self)),
            old(self).spec_pos() == old(self).toks().len() ==> *final(self) == *old(self) && r
                is None,
            ({
                let toks = old(self).toks();
                let p = old(self).spec_pos();
                p < toks.len() ==> (match toks[p].ttype {
                    Type::Ident(ident) => {
                        &&& final(self).spec_pos() == p + 1
                        &&& final(self).errors == old(self).errors
                        &&& r matches Some(s) && s@ == ident@
                    },
                    _ => {
                        &&& r is None
                        &&& final(self).spec_pos() == semi_end(toks, p)
                        &&& final(self).spec_pos() >= p
                        &&& final(self).errors@ == old(self).errors@.push(
                            final(self).errors@.last(),
                        )
                        &&& lex_err_is(
                            final(self).errors@.last(),
                            old(self).spec_name(),
                            toks[p].line as nat,
                            Rule::Syntax,
                            "Unexpected Token"@,
                            "Expected Ident(<"@ + expected_ident_name@ + ">), got "@
                                + spec_type_text(toks[p].ttype),
                            toks[p].start as nat,
                            toks[p].end as nat,
                            true,
                        )
                        &&& (final(self).errors@.last().doc_url matches Some(u) && u@ == doc@)
                    },
                })
            }),
    {
        let cur = match self.cur() {
            None => {
                return None;
            },
            Some(c) => c,
        };
        if let Type::Ident(ident) = &cur.ttype {
            let i = ident.clone();
            self.advance();
            Some(i)
        } else {
            let mut note = String::new();
            push_str(&mut note, "Expected Ident(<");
            push_str(&mut note, expected_ident_name);
            push_str(&mut note, ">), got ");
            let ctt = type_text(&cur.ttype);
            push_str(&mut note, ctt.as_str());
            let line = cur.line;
            let cstart = cur.start;
            let cend = cur.end;
            let mut err = Error {
                improved_line: None,
                file: self.name.to_owned(),
                line,
                rule: Rule::Syntax,
                note,
                msg: {
                    let mut m = String::new();
                    push_str(&mut m, "Unexpected Token");
                    m
                },
                start: cstart,
                end: cend,
                doc_url: Some(doc),
            };
            self.errors.push(err);
            self.skip_until_semicolon_or_eof();
            None
        }
    }

    /// Parses a VACUUM statement: an optional schema name, an optional
    /// `INTO 'filename'` clause. A malformed clause yields a targeted
    /// diagnostic and the partially populated node is still returned.
    fn vacuum_stmt(&mut self) -> (r: Option<Box<Node>>)
        requires
            old(self).wf(),
            old(self).spec_pos() < old(self).toks().len(),
            old(self).toks()[old(self).spec_pos()].ttype == Type::Keyword(Keyword::VACUUM),
        ensures
            stmt_post(*old(self), *final(self)),
            post_vacuum(*old(self), *final(self), r),
    {
        let anchor = match self.cur() {
            Some(c) => token_clone(c),
            None => {
                proof {
                    assert(false);
                }
                return None;
            },
        };
        let mut schema_name: Option<Token> = None;
        let mut filename: Option<Token> = None;
        self.consume(Type::Keyword(Keyword::VACUUM));

        let bad = match self.cur() {
            None => {
                return None;
            },
            Some(c) => !(matches!(c.ttype, Type::Semicolon) || matches!(c.ttype, Type::Ident(_))
                || matches!(c.ttype, Type::Keyword(Keyword::INTO))),
        };
        if bad {
            let (curc, ctt) = match self.cur() {
                Some(c) => (token_clone(c), type_text(&c.ttype)),
                None => {
                    proof {
                        assert(false);
                    }
                    return None;
                },
            };
            let mut note = String::new();
            push_str(
                &mut note,
                "Wanted Keyword(INTO) with String(\"<filename>\") or Ident(\"<schema_name>\") for VACUUM stmt, got ",
            );
            push_str(&mut note, ctt.as_str());
            let mut err = self.err("Unexpected Token", note.as_str(), &curc, Rule::Syntax);
            err.doc_url = Some("https://www.sqlite.org/lang_vacuum.html");
            self.errors.push(err);
            self.advance();
        }
        // first path: a bare VACUUM
        match self.cur() {
            None => {
                return None;
            },
            Some(c) => {
                if matches!(c.ttype, Type::Semicolon) {
                    return Some(Box::new(Node::Vacuum { t: anchor, schema_name, filename }));
                }
            },
        }
        // optional schema name
        let take_schema = match self.cur() {
            None => {
                return None;
            },
            Some(c) => matches!(c.ttype, Type::Ident(_)),
        };
        if take_schema {
            match self.cur() {
                Some(c) => {
                    schema_name = Some(token_clone(c));
                },
                None => {
                    proof {
                        assert(false);
                    }
                    return None;
                },
            }
            self.advance();
        }
        // optional INTO clause
        let has_into = match self.cur() {
            None => {
                return None;
            },
            Some(c) => matches!(c.ttype, Type::Keyword(Keyword::INTO)),
        };
        if has_into {
            self.advance();
            let is_str = match self.cur() {
                None => {
                    return None;
                },
                Some(c) => matches!(c.ttype, Type::String(_)),
            };
            if is_str {
                match self.cur() {
                    Some(c) => {
                        filename = Some(token_clone(c));
                    },
                    None => {
                        proof {
                            assert(false);
                        }
                        return None;
                    },
                }
            } else {
                let (curc, ctt) = match self.cur() {
                    Some(c) => (token_clone(c), type_text(&c.ttype)),
                    None => {
                        proof {
                            assert(false);
                        }
                        return None;
                    },
                };
                let mut note = String::new();
                push_str(
                    &mut note,
                    "Wanted String(\"<filename>\") for VACUUM stmt with Keyword(INTO), got ",
                );
                push_str(&mut note, ctt.as_str());
                let mut err = self.err("Unexpected Token", note.as_str(), &curc, Rule::Syntax);
                err.doc_url = Some("https://www.sqlite.org/lang_vacuum.html");
                self.errors.push(err);
            }
            self.advance();
        }
        self.expect_end("https://www.sqlite.org/lang_vacuum.html");
        Some(Box::new(Node::Vacuum { t: anchor, schema_name, filename }))
    }

    /// Parses a BEGIN statement: an optional single transaction behaviour
    /// modifier, an optional TRANSACTION keyword. A second modifier yields
    /// one diagnostic and resynchronizes to the statement terminator.
    fn begin_stmt(&mut self) -> (r: Option<Box<Node>>)
        requires
            old(self).wf(),
            old(self).spec_pos() < old(self).toks().len(),
            old(self).toks()[old(self).spec_pos()].ttype == Type::Keyword(Keyword::BEGIN),
        ensures
            stmt_post(*old(self), *final(self)),
            post_begin(*old(self), *final(self), r),
    {
        let anchor = match self.cur() {
            Some(c) => token_clone(c),
            None => {
                proof {
                    assert(false);
                }
                return None;
            },
        };
        // skip BEGIN
        self.advance();

        // skip a single modifier
        match self.cur() {
            None => {
                return None;
            },
            Some(c) => {
                if matches!(c.ttype, Type::Semicolon) {
                    return Some(Box::new(Node::Begin { t: anchor }));
                }
                if matches!(
                    c.ttype,
                    Type::Keyword(Keyword::DEFERRED) | Type::Keyword(Keyword::IMMEDIATE)
                        | Type::Keyword(Keyword::EXCLUSIVE)
                ) {
                    self.advance();
                }
            },
        }

        match self.cur() {
            None => {
                return None;
            },
            Some(c) => {
                if matches!(c.ttype, Type::Semicolon) {
                    return Some(Box::new(Node::Begin { t: anchor }));
                }
                if matches!(c.ttype, Type::Keyword(Keyword::TRANSACTION)) {
                    self.advance();
                } else if matches!(
                    c.ttype,
                    Type::Keyword(Keyword::DEFERRED) | Type::Keyword(Keyword::IMMEDIATE)
                        | Type::Keyword(Keyword::EXCLUSIVE)
                ) {
                    let curc = token_clone(c);
                    let mut err = self.err(
                        "Unexpected Token",
                        "BEGIN does not allow multiple transaction behaviour modifiers",
                        &curc,
                        Rule::Syntax,
                    );
                    err.doc_url = Some("https://www.sqlite.org/lang_transaction.html");
                    self.errors.push(err);
                    self.skip_until_semicolon_or_eof();
                } else {
                    let (curc, ctt) = (token_clone(c), type_text(&c.ttype));
                    let mut note = String::new();
                    push_str(
                        &mut note,
                        "Wanted any of TRANSACTION, DEFERRED, IMMEDIATE or EXCLUSIVE before this point, got ",
                    );
                    push_str(&mut note, ctt.as_str());
                    let mut err = self.err("Unexpected Token", note.as_str(), &curc, Rule::Syntax);
                    err.doc_url = Some("https://www.sqlite.org/lang_transaction.html");
                    self.errors.push(err);
                }
            },
        }

        self.expect_end("https://www.sqlite.org/lang_transaction.html");
        Some(Box::new(Node::Begin { t: anchor }))
    }

    /// Parses a COMMIT (or END) statement with its optional TRANSACTION
    /// keyword.
    fn commit_stmt(&mut self) -> (r: Option<Box<Node>>)
        requires
            old(self).wf(),
            old(self).spec_pos() < old(self).toks().len(),
            old(self).toks()[old(self).spec_pos()].ttype == Type::Keyword(Keyword::COMMIT)
                || old(self).toks()[old(self).spec_pos()].ttype == Type::Keyword(Keyword::END),
        ensures
            stmt_post(*old(self), *final(self)),
            post_commit(*old(self), *final(self), r),
    {
        let anchor = match self.cur() {
            Some(c) => token_clone(c),
            None => {
                proof {
                    assert(false);
                }
                return None;
            },
        };
        // skip either COMMIT or END
        self.advance();

        match self.cur() {
            None => {
                return None;
            },
            Some(c) => {
                if matches!(c.ttype, Type::Semicolon) {
                } else if matches!(c.ttype, Type::Keyword(Keyword::TRANSACTION)) {
                    self.advance();
                } else {
                    let (curc, ctt) = (token_clone(c), type_text(&c.ttype));
                    let mut note = String::new();
                    push_str(&mut note, "Wanted Keyword(TRANSACTION) or Semicolon, got ");
                    push_str(&mut note, ctt.as_str());
                    let mut err = self.err("Unexpected Token", note.as_str(), &curc, Rule::Syntax);
                    err.doc_url = Some("https://www.sqlite.org/lang_transaction.html");
                    self.errors.push(err);
                    self.advance();
                }
            },
        }

        self.expect_end("https://www.sqlite.org/lang_transaction.html");
        Some(Box::new(Node::Commit { t: anchor }))
    }

    /// Parses a ROLLBACK statement: optional TRANSACTION, an optional
    /// `TO [SAVEPOINT] savepoint_name` clause.
    fn rollback_stmt(&mut self) -> (r: Option<Box<Node>>)
        requires
            old(self).wf(),
            old(self).spec_pos() < old(self).toks().len(),
            old(self).toks()[old(self).spec_pos()].ttype == Type::Keyword(Keyword::ROLLBACK),
        ensures
            stmt_post(*old(self), *final(self)),
            post_rollback(*old(self), *final(self), r),
    {
        let anchor = match self.cur() {
            Some(c) => token_clone(c),
            None => {
                proof {
                    assert(false);
                }
                return None;
            },
        };
        let mut save_point: Option<String> = None;
        self.advance();

        match self.cur() {
            None => {
                return None;
            },
            Some(c) => {
                if matches!(
                    c.ttype,
                    Type::Keyword(Keyword::TRANSACTION) | Type::Keyword(Keyword::TO)
                        | Type::Semicolon
                ) {
                } else {
                    let (curc, ctt) = (token_clone(c), type_text(&c.ttype));
                    let mut note = String::new();
                    push_str(
                        &mut note,
                        "ROLLBACK requires TRANSACTION, TO or to end at this point, got ",
                    );
                    push_str(&mut note, ctt.as_str());
                    let mut err = self.err("Unexpected Token", note.as_str(), &curc, Rule::Syntax);
                    err.doc_url = Some("https://www.sqlite.org/lang_transaction.html");
                    self.errors.push(err);
                }
            },
        }

        // optional TRANSACTION
        if self.is(Type::Keyword(Keyword::TRANSACTION)) {
            self.advance();
        }
        // optional TO
        if self.is(Type::Keyword(Keyword::TO)) {
            self.advance();

            // optional SAVEPOINT
            if self.is(Type::Keyword(Keyword::SAVEPOINT)) {
                self.advance();
            }
            match self.cur() {
                None => {
                    return None;
                },
                Some(c) => {
                    if matches!(
                        c.ttype,
                        Type::Keyword(Keyword::SAVEPOINT) | Type::Ident(_) | Type::Semicolon
                    ) {
                    } else {
                        let (curc, ctt) = (token_clone(c), type_text(&c.ttype));
                        let mut note = String::new();
                        push_str(
                            &mut note,
                            "ROLLBACK requires SAVEPOINT, Ident or to end at this point, got ",
                        );
                        push_str(&mut note, ctt.as_str());
                        let mut err = self.err(
                            "Unexpected Token",
                            note.as_str(),
                            &curc,
                            Rule::Syntax,
                        );
                        err.doc_url = Some("https://www.sqlite.org/lang_transaction.html");
                        self.errors.push(err);
                        self.advance();
                    }
                },
            }
            match self.cur() {
                None => {
                    return None;
                },
                Some(c) => {
                    if let Type::Ident(sp) = &c.ttype {
                        save_point = Some(sp.clone());
                    } else {
                        let (curc, ctt) = (token_clone(c), type_text(&c.ttype));
                        let mut note = String::new();
                        push_str(&mut note, "ROLLBACK wants Ident as <savepoint-name>, got ");
                        push_str(&mut note, ctt.as_str());
                        let mut err = self.err(
                            "Unexpected Token",
                            note.as_str(),
                            &curc,
                            Rule::Syntax,
                        );
                        err.doc_url = Some("https://www.sqlite.org/lang_transaction.html");
                        self.errors.push(err);
                    }
                },
            }
            self.advance();
        }
        self.expect_end("https://www.sqlite.org/lang_transaction.html");
        Some(Box::new(Node::Rollback { t: anchor, save_point }))
    }

    /// Parses a SAVEPOINT statement: the savepoint name.
    fn savepoint_stmt(&mut self) -> (r: Option<Box<Node>>)
        requires
            old(self).wf(),
            old(self).spec_pos() < old(self).toks().len(),
            old(self).toks()[old(self).spec_pos()].ttype == Type::Keyword(Keyword::SAVEPOINT),
        ensures
            stmt_post(*old(self), *final(self)),
            post_savepoint(*old(self), *final(self), r),
    {
        let anchor = match self.cur() {
            Some(c) => token_clone(c),
            None => {
                proof {
                    assert(false);
                }
                return None;
            },
        };
        self.advance();
        let savepoint_name = match self.consume_ident(
            "https://www.sqlite.org/syntax/savepoint-stmt.html",
            "savepoint_name",
        ) {
            Some(n) => n,
            None => {
                return None;
            },
        };
        self.expect_end("https://www.sqlite.org/lang_savepoint.html");
        Some(Box::new(Node::Savepoint { t: anchor, savepoint_name }))
    }

    /// Parses a RELEASE statement: an optional SAVEPOINT keyword, then the
    /// savepoint name.
    fn release_stmt(&mut self) -> (r: Option<Box<Node>>)
        requires
            old(self).wf(),
            old(self).spec_pos() < old(self).toks().len(),
            old(self).toks()[old(self).spec_pos()].ttype == Type::Keyword(Keyword::RELEASE),
        ensures
            stmt_post(*old(self), *final(self)),
            post_release(*old(self), *final(self), r),
    {
        let anchor = match self.cur() {
            Some(c) => token_clone(c),
            None => {
                proof {
                    assert(false);
                }
                return None;
            },
        };
        self.advance();

        if self.is(Type::Keyword(Keyword::SAVEPOINT)) {
            self.advance();
        }
        let savepoint_name = match self.consume_ident(
            "https://www.sqlite.org/syntax/release-stmt.html",
            "savepoint_name",
        ) {
            Some(n) => n,
            None => {
                return None;
            },
        };
        self.expect_end("https://www.sqlite.org/syntax/release-stmt.html");
        Some(Box::new(Node::Release { t: anchor, savepoint_name }))
    }

    /// Parses a DETACH statement: an optional DATABASE keyword, then the
    /// schema name.
    fn detach_stmt(&mut self) -> (r: Option<Box<Node>>)
        requires
            old(self).wf(),
            old(self).spec_pos() < old(self).toks().len(),
            old(self).toks()[old(self).spec_pos()].ttype == Type::Keyword(Keyword::DETACH),
        ensures
            stmt_post(*old(self), *final(self)),
            post_detach(*old(self), *final(self), r),
    {
        let anchor = match self.cur() {
            Some(c) => token_clone(c),
            None => {
                proof {
                    assert(false);
                }
                return None;
            },
        };
        self.advance();

        // skip the optional DATABASE keyword
        if self.is(Type::Keyword(Keyword::DATABASE)) {
            self.advance();
        }
        let r: Option<Box<Node>> = match self.cur() {
            None => {
                return None;
            },
            Some(c) => {
                if let Type::Ident(sp) = &c.ttype {
                    let schema_name = sp.clone();
                    self.advance();
                    Some(Box::new(Node::Detach { t: anchor, schema_name }))
                } else {
                    let (curc, ctt) = (token_clone(c), type_text(&c.ttype));
                    let mut note = String::new();
                    push_str(
                        &mut note,
                        "DETACH requires Ident(<schema_name>) at this point, got ",
                    );
                    push_str(&mut note, ctt.as_str());
                    let mut err = self.err("Unexpected Token", note.as_str(), &curc, Rule::Syntax);
                    err.doc_url = Some("https://www.sqlite.org/lang_detach.html");
                    self.errors.push(err);
                    None
                }
            },
        };
        self.expect_end("https://www.sqlite.org/lang_detach.html");
        r
    }

    /// Parses an ANALYZE statement: nothing, a bare name, or a
    /// `schema_name.table_or_index_name` pair.
    fn analyse_stmt(&mut self) -> (r: Option<Box<Node>>)
        requires
            old(self).wf(),
            old(self).spec_pos() < old(self).toks().len(),
            old(self).toks()[old(self).spec_pos()].ttype == Type::Keyword(Keyword::ANALYZE),
        ensures
            stmt_post(*old(self), *final(self)),
            post_analyse(*old(self), *final(self), r),
    {
        let anchor = match self.cur() {
            Some(c) => token_clone(c),
            None => {
                proof {
                    assert(false);
                }
                return None;
            },
        };
        let mut schema_index_or_table_name: Option<String> = None;
        let mut schema_with_table_or_index_name: Option<String> = None;
        self.advance();

        let next_dot = self.next_is(Type::Dot);
        match self.cur() {
            None => {
                return None;
            },
            Some(c) => {
                if let Type::Ident(ident) = &c.ttype {
                    if next_dot {
                        // ANALYZE schema_name.table_or_index_name
                        let mut schema_name = ident.clone();
                        // skip the name and the dot
                        self.advance();
                        self.advance();
                        match self.cur() {
                            None => {
                                return None;
                            },
                            Some(c2) => {
                                if let Type::Ident(ident2) = &c2.ttype {
                                    push_str(&mut schema_name, ".");
                                    push_str(&mut schema_name, ident2.as_str());
                                    schema_with_table_or_index_name = Some(schema_name);
                                    self.advance();
                                } else {
                                    let (curc, ctt) = (token_clone(c2), type_text(&c2.ttype));
                                    let mut note = String::new();
                                    push_str(
                                        &mut note,
                                        "ANALYZE requires Ident(<table_or_index_name>) after Dot and Ident(<schema_name>), got ",
                                    );
                                    push_str(&mut note, ctt.as_str());
                                    let mut err = self.err(
                                        "Unexpected Token",
                                        note.as_str(),
                                        &curc,
                                        Rule::Syntax,
                                    );
                                    err.doc_url = Some("https://www.sqlite.org/lang_analyze.html");
                                    self.advance();
                                    self.errors.push(err);
                                }
                            },
                        }
                    } else {
                        // ANALYZE schema_name, or ANALYZE index_or_table_name
                        schema_index_or_table_name = Some(ident.clone());
                        self.advance();
                    }
                }
            },
        }

        self.expect_end("https://www.sqlite.org/lang_analyze.html");
        Some(
            Box::new(
                Node::Analyze {
                    t: anchor,
                    schema_index_or_table_name,
                    schema_with_table_or_index_name,
                },
            ),
        )
    }

    /// Parses a DROP statement: DROP INDEX/TABLE/TRIGGER/VIEW, an optional
    /// `IF EXISTS`, then a possibly schema-qualified name.
    fn drop_stmt(&mut self) -> (r: Option<Box<Node>>)
        requires
            old(self).wf(),
            old(self).spec_pos() < old(self).toks().len(),
            old(self).toks()[old(self).spec_pos()].ttype == Type::Keyword(Keyword::DROP),
        ensures
            stmt_post(*old(self), *final(self)),
            post_drop(*old(self), *final(self), r),
    {
        let anchor = match self.cur() {
            Some(c) => token_clone(c),
            None => {
                proof {
                    assert(false);
                }
                return None;
            },
        };
        let mut if_exists = false;
        let mut kind = Keyword::NULL;
        let mut argument = String::new();
        self.advance();

        match self.cur() {
            None => {
                return None;
            },
            Some(c) => {
                if let Type::Keyword(k) = &c.ttype {
                    if matches!(
                        k,
                        Keyword::INDEX | Keyword::TABLE | Keyword::TRIGGER | Keyword::VIEW
                    ) {
                        kind = *k;
                    } else {
                        let (curc, ctt) = (token_clone(c), type_text(&c.ttype));
                        let mut note = String::new();
                        push_str(
                            &mut note,
                            "DROP requires either TRIGGER, TABLE, TRIGGER or VIEW at this point, got ",
                        );
                        push_str(&mut note, ctt.as_str());
                        let mut err = self.err(
                            "Unexpected Token",
                            note.as_str(),
                            &curc,
                            Rule::Syntax,
                        );
                        err.doc_url = Some("https://www.sqlite.org/lang.html");
                        self.errors.push(err);
                        self.advance();
                        return None;
                    }
                } else {
                    let (curc, ctt) = (token_clone(c), type_text(&c.ttype));
                    let mut note = String::new();
                    push_str(
                        &mut note,
                        "DROP requires either TRIGGER, TABLE, TRIGGER or VIEW at this point, got ",
                    );
                    push_str(&mut note, ctt.as_str());
                    let mut err = self.err("Unexpected Token", note.as_str(), &curc, Rule::Syntax);
                    err.doc_url = Some("https://www.sqlite.org/lang.html");
                    self.errors.push(err);
                    self.advance();
                    return None;
                }
            },
        }

        // skip INDEX, TABLE, TRIGGER or VIEW
        self.advance();

        if self.is(Type::Keyword(Keyword::IF)) {
            self.advance();
            self.consume(Type::Keyword(Keyword::EXISTS));
            if_exists = true;
        }

        let is_ident = match self.cur() {
            None => {
                return None;
            },
            Some(c) => matches!(c.ttype, Type::Ident(_)),
        };
        if is_ident {
            match self.cur() {
                None => {
                    proof {
                        assert(false);
                    }
                    return None;
                },
                Some(c) => {
                    if let Type::Ident(schema_name) = &c.ttype {
                        argument = schema_name.clone();
                    }
                },
            }
            if self.next_is(Type::Dot) {
                // skip the leading name and the dot
                self.advance();
                self.advance();
                match self.cur() {
                    None => {
                        return None;
                    },
                    Some(c) => {
                        if let Type::Ident(rest) = &c.ttype {
                            push_str(&mut argument, ".");
                            push_str(&mut argument, rest.as_str());
                        } else {
                            let (curc, ctt) = (token_clone(c), type_text(&c.ttype));
                            let mut note = String::new();
                            push_str(
                                &mut note,
                                "DROP requires Ident(<index_or_trigger_or_table_or_view>) after Dot and Ident(<schema_name>), got ",
                            );
                            push_str(&mut note, ctt.as_str());
                            let mut err = self.err(
                                "Unexpected Token",
                                note.as_str(),
                                &curc,
                                Rule::Syntax,
                            );
                            err.doc_url = Some(
                                "https://www.sqlite.org/lang_dropview.html https://www.sqlite.org/lang_droptrigger.html https://www.sqlite.org/lang_droptable.html https://www.sqlite.org/lang_dropindex.html",
                            );
                            self.advance();
                            self.errors.push(err);
                        }
                    },
                }
            }
            self.advance();
        } else {
            let (curc, ctt) = match self.cur() {
                Some(c) => (token_clone(c), type_text(&c.ttype)),
                None => {
                    proof {
                        assert(false);
                    }
                    return None;
                },
            };
            let mut note = String::new();
            push_str(
                &mut note,
                "DROP requires Ident(<index_or_trigger_or_table_or_view>) or Ident(<schema_name>).Ident(<index_or_trigger_or_table_or_view>), got ",
            );
            push_str(&mut note, ctt.as_str());
            let mut err = self.err("Unexpected Token", note.as_str(), &curc, Rule::Syntax);
            err.doc_url = Some(
                "https://www.sqlite.org/lang_dropview.html https://www.sqlite.org/lang_droptrigger.html https://www.sqlite.org/lang_droptable.html https://www.sqlite.org/lang_dropindex.html",
            );
            self.errors.push(err);
            return None;
        }

        Some(Box::new(Node::Drop { t: anchor, if_exists, kind, argument }))
    }

    /// Parses a REINDEX statement: nothing, a bare name, or a
    /// `schema_name.table_or_index_name` pair.
    fn reindex_stmt(&mut self) -> (r: Option<Box<Node>>)
        requires
            old(self).wf(),
            old(self).spec_pos() < old(self).toks().len(),
            old(self).toks()[old(self).spec_pos()].ttype == Type::Keyword(Keyword::REINDEX),
        ensures
            stmt_post(*old(self), *final(self)),
            post_reindex(*old(self), *final(self), r),
    {
        let anchor = match self.cur() {
            Some(c) => token_clone(c),
            None => {
                proof {
                    assert(false);
                }
                return None;
            },
        };
        self.advance();

        // REINDEX has a path with no further tokens
        if self.is(Type::Semicolon) {
            return Some(Box::new(Node::Reindex { t: anchor, collation_or_schema: None }));
        }
        // either a collation name, a schema name, a table name or an index
        // name; a dot introduces the schema-qualified pair
        let mut name = match self.consume_ident(
            "https://www.sqlite.org/syntax/reindex-stmt.html",
            "collation_or_schema_or_table_or_index",
        ) {
            Some(n) => n,
            None => {
                return None;
            },
        };
        if self.is(Type::Dot) {
            push_str(&mut name, ".");
            self.advance();
            let rest = match self.consume_ident(
                "https://www.sqlite.org/syntax/reindex-stmt.html",
                "table_or_index_name",
            ) {
                Some(n) => n,
                None => {
                    return None;
                },
            };
            push_str(&mut name, rest.as_str());
        }
        self.expect_end("https://www.sqlite.org/syntax/reindex-stmt.html");
        Some(Box::new(Node::Reindex { t: anchor, collation_or_schema: Some(name) }))
    }

    /// Parses an ATTACH statement skeleton: the expression clause is not yet
    /// understood, only `AS schema_name` is.
    #[allow(dead_code)]
    fn attach_stmt(&mut self) -> (r: Option<Box<Node>>)
        requires
            old(self).wf(),
            old(self).spec_pos() < old(self).toks().len(),
            old(self).toks().len() > 0,
        ensures
            stmt_post(*old(self), *final(self)),
    {
        let anchor = match self.cur() {
            Some(c) => token_clone(c),
            None => {
                proof {
                    assert(false);
                }
                return None;
            },
        };
        self.advance();

        if self.is(Type::Keyword(Keyword::DATABASE)) {
            self.advance();
        }
        self.consume(Type::Keyword(Keyword::AS));

        let schema_name = match self.consume_ident(
            "https://www.sqlite.org/lang_attach.html",
            "schema_name",
        ) {
            Some(n) => n,
            None => {
                return None;
            },
        };
        self.expect_end("https://www.sqlite.org/lang_attach.html");
        Some(Box::new(Node::Attach { t: anchor, schema_name }))
    }

    /// Parses a literal value into a node; anything else yields one
    /// diagnostic.
    #[allow(dead_code)]
    fn literal_value(&mut self) -> (r: Option<Box<Node>>)
        requires
            old(self).wf(),
        ensures
            final(self).wf(),
            old(self).same_input(*final(self)),
            old(self).errors@.is_prefix_of(final(self).errors@),
            old(self).spec_pos() == old(self).toks().len() ==> *final(self) == *old(self) && r
                is None,
            ({
                let toks = old(self).toks();
                let p = old(self).spec_pos();
                p < toks.len() ==> {
                    &&& final(self).spec_pos() == p + 1
                    &&& (if is_literal_tt(toks[p].ttype) {
                        &&& final(self).errors == old(self).errors
                        &&& r matches Some(n) && (*n matches Node::Literal { t } && token_like(
                            t,
                            toks[p],
                        ))
                    } else {
                        &&& r is None
                        &&& final(self).errors@ == old(self).errors@.push(
                            final(self).errors@.last(),
                        )
                        &&& final(self).errors@.last().rule == Rule::Syntax
                    })
                }
            }),
    {
        let cur = match self.cur() {
            None => {
                return None;
            },
            Some(c) => c,
        };
        if matches!(
            cur.ttype,
            Type::String(_) | Type::Number(_) | Type::Blob(_) | Type::Boolean(_) | Type::Keyword(
                Keyword::NULL,
            ) | Type::Keyword(Keyword::CURRENT_TIME) | Type::Keyword(Keyword::CURRENT_DATE)
                | Type::Keyword(Keyword::CURRENT_TIMESTAMP)
        ) {
            let t = token_clone(cur);
            self.advance();
            Some(Box::new(Node::Literal { t }))
        } else {
            let (curc, ctt) = (token_clone(cur), type_text(&cur.ttype));
            let mut note = String::new();
            push_str(
                &mut note,
                "Wanted a literal (any of number,string,blob,null,true,false,CURRENT_TIME,CURRENT_DATE,CURRENT_DATE), got ",
            );
            push_str(&mut note, ctt.as_str());
            let mut err = self.err("Unexpected Token", note.as_str(), &curc, Rule::Syntax);
            err.doc_url = Some("https://www.sqlite.org/syntax/literal-value.html");
            self.errors.push(err);
            self.advance();
            None
        }
    }

    /// Parses one statement by its leading keyword. A leading literal or a
    /// bare terminator is rejected with a targeted diagnostic; an identifier
    /// yields an unknown-keyword diagnostic with suggestions; a keyword no
    /// statement parser handles yields an unimplemented diagnostic; all of
    /// them resynchronize so the next statement can be analyzed.
    fn sql_stmt(&mut self) -> (r: Option<Box<Node>>)
        requires
            old(self).wf(),
            old(self).toks().len() > 0,
        ensures
            post_sql_stmt(*old(self), *final(self), r),
    {
        let (has_kw, kw) = match self.cur() {
            None => {
                return None;
            },
            Some(c) => match &c.ttype {
                Type::Keyword(k) => (true, *k),
                _ => (false, Keyword::NULL),
            },
        };
        if has_kw {
            match kw {
                Keyword::REINDEX => {
                    return self.reindex_stmt();
                },
                Keyword::RELEASE => {
                    return self.release_stmt();
                },
                Keyword::SAVEPOINT => {
                    return self.savepoint_stmt();
                },
                Keyword::DROP => {
                    return self.drop_stmt();
                },
                Keyword::ANALYZE => {
                    return self.analyse_stmt();
                },
                Keyword::DETACH => {
                    return self.detach_stmt();
                },
                Keyword::ROLLBACK => {
                    return self.rollback_stmt();
                },
                Keyword::COMMIT | Keyword::END => {
                    return self.commit_stmt();
                },
                Keyword::BEGIN => {
                    return self.begin_stmt();
                },
                Keyword::VACUUM => {
                    return self.vacuum_stmt();
                },
                _ => {},
            }
        }
        let cur = match self.cur() {
            None => {
                proof {
                    assert(false);
                }
                return None;
            },
            Some(c) => c,
        };
        // a statement must not start with a terminator
        if matches!(cur.ttype, Type::Semicolon) {
            let curc = token_clone(cur);
            let err = self.err(
                "Unexpected Token",
                "Semicolon makes no sense at this point",
                &curc,
                Rule::Syntax,
            );
            self.errors.push(err);
            self.advance();
            return None;
        }
        // literals are explicitly disallowed here, for clearer diagnostics
        if matches!(
            cur.ttype,
            Type::String(_) | Type::Number(_) | Type::Blob(_) | Type::Boolean(_) | Type::Keyword(
                Keyword::NULL,
            ) | Type::Keyword(Keyword::CURRENT_TIME) | Type::Keyword(Keyword::CURRENT_DATE)
                | Type::Keyword(Keyword::CURRENT_TIMESTAMP)
        ) {
            let (curc, ctt) = (token_clone(cur), type_text(&cur.ttype));
            let mut note = String::new();
            push_str(&mut note, "Literal ");
            push_str(&mut note, ctt.as_str());
            push_str(&mut note, " disallowed at this point.");
            let mut err = self.err("Unexpected Literal", note.as_str(), &curc, Rule::Syntax);
            err.doc_url = Some("https://www.sqlite.org/syntax/sql-stmt.html");
            self.errors.push(err);
            self.advance();
            return None;
        }
        // an identifier that resolved to no keyword: suggest similar keywords
        if let Type::Ident(name) = &cur.ttype {
            let curc = token_clone(cur);
            let mut note = String::new();
            push_str(&mut note, "'");
            push_str(&mut note, name.as_str());
            push_str(&mut note, "' is not a know keyword, did you mean: \n\t- ");
            let ghost prefix = note@;
            let sugg = Keyword::suggestions(name.as_str());
            let ghost dv = sugg.deep_view();
            let ghost sep = "\n\t- "@;
            let mut i: usize = 0;
            while i < sugg.len()
                invariant
                    self == old(self),
                    i <= sugg@.len(),
                    dv == sugg.deep_view(),
                    dv.len() == sugg@.len(),
                    sep == "\n\t- "@,
                    note@ == prefix + (if i == 0 {
                        Seq::<char>::empty()
                    } else {
                        spec_join(dv.take(i as int), sep)
                    }),
                decreases sugg@.len() - i,
            {
                if i > 0 {
                    push_str(&mut note, "\n\t- ");
                }
                push_str(&mut note, sugg[i].as_str());
                proof {
                    assert(dv[i as int] == sugg@[i as int]@);
                    assert(dv.take(i + 1).drop_last() =~= dv.take(i as int));
                    assert(dv.take(i + 1).last() == dv[i as int]);
                    assert(dv.take(i + 1).len() == i + 1);
                    if i == 0 {
                        assert(spec_join(dv.take(1), sep) == dv[0]);
                        assert(note@ =~= prefix + spec_join(dv.take(1), sep));
                    } else {
                        assert(spec_join(dv.take(i + 1), sep) == spec_join(
                            dv.take(i + 1).drop_last(),
                            sep,
                        ) + sep + dv.take(i + 1).last());
                        assert(spec_join(dv.take(i + 1).drop_last(), sep) == spec_join(
                            dv.take(i as int),
                            sep,
                        ));
                        assert(note@ =~= prefix + (spec_join(dv.take(i as int), sep) + sep
                            + dv[i as int]));
                        assert(spec_join(dv.take(i + 1), sep) == spec_join(dv.take(i as int), sep)
                            + sep + dv[i as int]);
                        assert(note@ =~= prefix + spec_join(dv.take(i + 1), sep));
                    }
                }
                i = i + 1;
            }
            proof {
                assert(dv.take(dv.len() as int) =~= dv);
                if dv.len() == 0 {
                    assert(spec_join(dv, sep) =~= Seq::<char>::empty());
                }
                assert(note@ =~= prefix + spec_join(dv, sep));
            }
            let err = self.err("Unknown Keyword", note.as_str(), &curc, Rule::UnknownKeyword);
            self.errors.push(err);
            self.skip_until_semicolon_or_eof();
            return None;
        }
        if matches!(cur.ttype, Type::Keyword(_)) {
            let (curc, ctt) = (token_clone(cur), type_text(&cur.ttype));
            let mut note = String::new();
            push_str(&mut note, "sqleibniz can not yet analyse the token ");
            push_str(&mut note, ctt.as_str());
            push_str(&mut note, ", skipping ahead to next statement");
            let err = self.err("Unimplemented", note.as_str(), &curc, Rule::Unimplemented);
            self.errors.push(err);
            self.skip_until_semicolon_or_eof();
            return None;
        }
        let (curc, ctt) = (token_clone(cur), type_text(&cur.ttype));
        let mut note = String::new();
        push_str(&mut note, "sqleibniz does not understand the token ");
        push_str(&mut note, ctt.as_str());
        push_str(&mut note, ", skipping ahead to next statement");
        let err = self.err("Unknown Token", note.as_str(), &curc, Rule::Unimplemented);
        self.errors.push(err);
        self.skip_until_semicolon_or_eof();
        None
    }

    /// Parses one statement, handling the EXPLAIN and EXPLAIN QUERY PLAN
    /// prefix by wrapping the inner statement.
    fn sql_stmt_prefix(&mut self) -> (r: Option<Box<Node>>)
        requires
            old(self).wf(),
            old(self).spec_pos() < old(self).toks().len(),
        ensures
            stmt_post(*old(self), *final(self)),
            ({
                let toks = old(self).toks();
                let p = old(self).spec_pos();
                &&& (toks[p].ttype != Type::Keyword(Keyword::EXPLAIN) ==> post_sql_stmt(
                    *old(self),
                    *final(self),
                    r,
                ))
                &&& (toks[p].ttype == Type::Keyword(Keyword::EXPLAIN) ==> (r matches Some(n)
                    && (*n matches Node::Explain { t, child } && token_like(t, toks[p]))))
                &&& ((toks[p].ttype == Type::Keyword(Keyword::EXPLAIN) && !(p + 1 < toks.len()
                    && toks[p + 1].ttype == Type::Keyword(Keyword::QUERY))) ==> (r matches Some(
                    n,
                ) && (*n matches Node::Explain { t, child } && post_sql_stmt(
                    Parser {
                        pos: (p + 1) as usize,
                        tokens: old(self).tokens,
                        name: old(self).name,
                        errors: old(self).errors,
                    },
                    *final(self),
                    child,
                ))))
                &&& ((toks[p].ttype == Type::Keyword(Keyword::EXPLAIN) && p + 2 < toks.len()
                    && toks[p + 1].ttype == Type::Keyword(Keyword::QUERY) && toks[p + 2].ttype
                    == Type::Keyword(Keyword::PLAN)) ==> (r matches Some(n) && (*n
                    matches Node::Explain { t, child } && post_sql_stmt(
                    Parser {
                        pos: (p + 3) as usize,
                        tokens: old(self).tokens,
                        name: old(self).name,
                        errors: old(self).errors,
                    },
                    *final(self),
                    child,
                ))))
            }),
    {
        let is_explain = match self.cur() {
            None => {
                proof {
                    assert(false);
                }
                return None;
            },
            Some(c) => matches!(c.ttype, Type::Keyword(Keyword::EXPLAIN)),
        };
        if !is_explain {
            return self.sql_stmt();
        }
        let anchor = match self.cur() {
            Some(c) => token_clone(c),
            None => {
                proof {
                    assert(false);
                }
                return None;
            },
        };
        // skip EXPLAIN
        self.advance();
        let ghost mid = Parser {
            pos: (old(self).spec_pos() + 1) as usize,
            tokens: old(self).tokens,
            name: old(self).name,
            errors: old(self).errors,
        };
        assert(*self =~= mid);

        // the EXPLAIN QUERY PLAN path
        if self.is(Type::Keyword(Keyword::QUERY)) {
            self.advance();
            self.consume(Type::Keyword(Keyword::PLAN));
            proof {
                let p = old(self).spec_pos();
                if p + 2 < old(self).toks().len() && old(self).toks()[p + 2].ttype
                    == Type::Keyword(Keyword::PLAN) {
                    let mid3 = Parser {
                        pos: (p + 3) as usize,
                        tokens: old(self).tokens,
                        name: old(self).name,
                        errors: old(self).errors,
                    };
                    assert(*self =~= mid3);
                }
            }
        }
        // otherwise EXPLAIN directly wraps a statement
        let child = self.sql_stmt();
        Some(Box::new(Node::Explain { t: anchor, child }))
    }

    /// Parses the whole token sequence as a statement list: one slot per
    /// top-level statement, holding its tree or nothing where it failed
    /// unrecoverably. An instruction marker discards the tokens of the
    /// following statement. Every token is consumed, by a tree or by an
    /// explicit skip, so the parse of any finite sequence terminates.
    #[verifier::rlimit(100)]
    #[verifier::spinoff_prover]
    fn sql_stmt_list(&mut self) -> (r: Vec<Option<Box<Node>>>)
        requires
            old(self).wf(),
        ensures
            final(self).wf(),
            old(self).same_input(*final(self)),
            old(self).errors@.is_prefix_of(final(self).errors@),
            final(self).spec_pos() == final(self).toks().len(),
            list_scenarios(*old(self), *final(self), r@),
    {
        let ghost toks0 = old(self).toks();
        let mut r: Vec<Option<Box<Node>>> = Vec::new();
        while !self.is_eof()
            invariant
                self.wf(),
                old(self).same_input(*self),
                old(self).errors@.is_prefix_of(self.errors@),
                toks0 == self.toks(),
                (old(self).spec_pos() == 0 && (shape_vacuum_ok(toks0) || shape_vacuum_bad(toks0)
                    || shape_begin_two_mods(toks0) || shape_instruction(toks0))) ==> ((*self
                    == *old(self) && r@.len() == 0) || (self.spec_pos() == self.toks().len()
                    && list_scenarios(*old(self), *self, r@))),
            decreases self.toks().len() - self.spec_pos(),
        {
            let ghost self_pre = *self;
            let ghost r_pre = r@;
            if self.is(Type::InstructionExpect) {
                proof {
                    lemma_semi_end_bounds(self.toks(), self.spec_pos() + 1);
                    lemma_semi_end_bounds(self.toks(), self.spec_pos());
                }
                // the instruction suppresses the next statement: discard its
                // tokens up to and including the terminator
                self.skip_until_semicolon_or_eof();
                self.consume(Type::Semicolon);
                proof {
                    if self_pre == *old(self) && r_pre.len() == 0 && old(self).spec_pos() == 0
                        && shape_instruction(toks0) {
                        assert(self.errors == old(self).errors);
                        assert(self.spec_pos() == toks0.len());
                        assert(list_scenarios(*old(self), *self, r@));
                    }
                }
                continue ;
            }
            let stmt = self.sql_stmt_prefix();
            r.push(stmt);
            self.consume(Type::Semicolon);
            proof {
                let fresh = self_pre == *old(self) && r_pre.len() == 0 && old(self).spec_pos()
                    == 0;
                if fresh && shape_vacuum_ok(toks0) {
                    assert(r@ =~= seq![stmt]);
                    assert(self.spec_pos() == 5);
                    assert(self.errors == old(self).errors);
                    assert(list_scenarios(*old(self), *self, r@));
                }
                if fresh && shape_vacuum_bad(toks0) {
                    assert(r@ =~= seq![stmt]);
                    assert(self.spec_pos() == 5);
                    assert(self.errors@.len() == old(self).errors@.len() + 2);
                    assert(list_scenarios(*old(self), *self, r@));
                }
                if fresh && shape_begin_two_mods(toks0) {
                    assert(semi_end(toks0, 3) == 3);
                    assert(semi_end(toks0, 2) == 3);
                    assert(r@ =~= seq![stmt]);
                    assert(self.spec_pos() == 4);
                    assert(self.errors@.len() == old(self).errors@.len() + 1);
                    assert(list_scenarios(*old(self), *self, r@));
                }
            }
        }
        r
    }

    /// Parses the token sequence into a list of optional syntax-tree roots
    /// and accumulates every diagnostic found; always terminates and consumes
    /// every token.
    pub fn parse(&mut self) -> (r: Vec<Option<Box<Node>>>)
        requires
            old(self).wf(),
        ensures
            final(self).wf(),
            old(self).same_input(*final(self)),
            old(self).errors@.is_prefix_of(final(self).errors@),
            final(self).spec_pos() == final(self).toks().len(),
            list_scenarios(*old(self), *final(self), r@),
    {
        self.sql_stmt_list()
    }

    /// Takes the token under the cursor when it matches any of `t`.
    #[allow(dead_code)]
    fn matches_any(&mut self, t: Vec<Type>) -> (r: Option<Token>)
        requires
            old(self).wf(),
        ensures
            final(self).wf(),
            old(self).same_input(*final(self)),
            final(self).errors == old(self).errors,
            r is None ==> *final(self) == *old(self),
            r matches Some(tok) ==> (old(self).spec_pos() < old(self).toks().len() && final(self).spec_pos() == old(self).spec_pos() + 1 && token_like(
                tok,
                old(self).toks()[old(self).spec_pos()],
            )),
            (old(self).spec_pos() < old(self).toks().len() && (exists|k: int|
                0 <= k < t@.len() && spec_same_type(
                    t@[k],
                    old(self).toks()[old(self).spec_pos()].ttype,
                ))) ==> r is Some,
            !(old(self).spec_pos() < old(self).toks().len() && (exists|k: int|
                0 <= k < t@.len() && spec_same_type(
                    t@[k],
                    old(self).toks()[old(self).spec_pos()].ttype,
                ))) ==> r is None,
    {
        let found = match self.cur() {
            None => {
                return None;
            },
            Some(c) => {
                let mut f = false;
                let mut i: usize = 0;
                while i < t.len()
                    invariant
                        self == old(self),
                        i <= t@.len(),
                        *c == old(self).toks()[old(self).spec_pos()],
                        f == exists|k: int|
                            0 <= k < i && #[trigger] spec_same_type(t@[k], c.ttype),
                    decreases t@.len() - i,
                {
                    if type_matches(&t[i], &c.ttype) {
                        f = true;
                    }
                    i = i + 1;
                }
                f
            },
        };
        if found {
            let tok = match self.cur() {
                Some(c) => token_clone(c),
                None => {
                    proof {
                        assert(false);
                    }
                    return None;
                },
            };
            self.advance();
            Some(tok)
        } else {
            None
        }
    }

    /// Tests the token under the cursor against any of `t`: a match advances,
    /// a mismatch yields one diagnostic and stays put.
    #[allow(dead_code)]
    fn matches_one(&mut self, t: Vec<Type>) -> (r: bool)
        requires
            old(self).wf(),
        ensures
            final(self).wf(),
            old(self).same_input(*final(self)),
            old(self).errors@.is_prefix_of(final(self).errors@),
            r ==> (old(self).spec_pos() < old(self).toks().len() && final(self).spec_pos()
                == old(self).spec_pos() + 1 && final(self).errors == old(self).errors),
            !r ==> final(self).spec_pos() == old(self).spec_pos(),
            (old(self).spec_pos() < old(self).toks().len() && (exists|k: int|
                0 <= k < t@.len() && spec_same_type(
                    t@[k],
                    old(self).toks()[old(self).spec_pos()].ttype,
                ))) ==> r,
            old(self).spec_pos() == old(self).toks().len() ==> *final(self) == *old(self)
                && !r,
            (old(self).spec_pos() < old(self).toks().len() && !(exists|k: int|
                0 <= k < t@.len() && spec_same_type(
                    t@[k],
                    old(self).toks()[old(self).spec_pos()].ttype,
                ))) ==> ({
                let toks = old(self).toks();
                let p = old(self).spec_pos();
                &&& !r
                &&& final(self).errors@ == old(self).errors@.push(final(self).errors@.last())
                &&& lex_err_is(
                    final(self).errors@.last(),
                    old(self).spec_name(),
                    toks[p].line as nat,
                    Rule::Syntax,
                    "Unexpected Token"@,
                    "Wanted any of ["@ + spec_join(
                        t@.map_values(|x: Type| spec_type_text(x)),
                        ", "@,
                    ) + "], got "@ + spec_type_text(toks[p].ttype),
                    toks[p].start as nat,
                    toks[p].end as nat,
                    false,
                )
            }),
    {
        let found = match self.cur() {
            None => {
                return false;
            },
            Some(c) => {
                let mut f = false;
                let mut i: usize = 0;
                while i < t.len()
                    invariant
                        self == old(self),
                        i <= t@.len(),
                        *c == old(self).toks()[old(self).spec_pos()],
                        f == exists|k: int|
                            0 <= k < i && #[trigger] spec_same_type(t@[k], c.ttype),
                    decreases t@.len() - i,
                {
                    if type_matches(&t[i], &c.ttype) {
                        f = true;
                    }
                    i = i + 1;
                }
                f
            },
        };
        if !found {
            let (curc, ctt) = match self.cur() {
                Some(c) => (token_clone(c), type_text(&c.ttype)),
                None => {
                    proof {
                        assert(false);
                    }
                    return false;
                },
            };
            let mut note = String::new();
            push_str(&mut note, "Wanted any of [");
            let ghost nprefix = note@;
            let ghost parts = t@.map_values(|x: Type| spec_type_text(x));
            let ghost nsep = ", "@;
            let mut i: usize = 0;
            while i < t.len()
                invariant
                    self == old(self),
                    i <= t@.len(),
                    parts == t@.map_values(|x: Type| spec_type_text(x)),
                    parts.len() == t@.len(),
                    nsep == ", "@,
                    note@ == nprefix + (if i == 0 {
                        Seq::<char>::empty()
                    } else {
                        spec_join(parts.take(i as int), nsep)
                    }),
                decreases t@.len() - i,
            {
                if i > 0 {
                    push_str(&mut note, ", ");
                }
                let tx = type_text(&t[i]);
                push_str(&mut note, tx.as_str());
                proof {
                    assert(parts[i as int] == spec_type_text(t@[i as int]));
                    assert(parts.take(i + 1).drop_last() =~= parts.take(i as int));
                    assert(parts.take(i + 1).last() == parts[i as int]);
                    assert(parts.take(i + 1).len() == i + 1);
                    if i == 0 {
                        assert(spec_join(parts.take(1), nsep) == parts[0]);
                        assert(note@ =~= nprefix + spec_join(parts.take(1), nsep));
                    } else {
                        assert(spec_join(parts.take(i + 1), nsep) == spec_join(
                            parts.take(i as int),
                            nsep,
                        ) + nsep + parts[i as int]);
                        assert(note@ =~= nprefix + spec_join(parts.take(i + 1), nsep));
                    }
                }
                i = i + 1;
            }
            proof {
                assert(parts.take(parts.len() as int) =~= parts);
                if parts.len() == 0 {
                    assert(spec_join(parts, nsep) =~= Seq::<char>::empty());
                }
                assert(note@ =~= nprefix + spec_join(parts, nsep));
            }
            push_str(&mut note, "], got ");
            push_str(&mut note, ctt.as_str());
            assert(note@ =~= "Wanted any of ["@ + spec_join(parts, nsep) + "], got "@
                + spec_type_text(old(self).toks()[old(self).spec_pos()].ttype));
            let err = self.err("Unexpected Token", note.as_str(), &curc, Rule::Syntax);
            self.errors.push(err);
            return false;
        }
        self.advance();
        true
    }
}

} // verus!
