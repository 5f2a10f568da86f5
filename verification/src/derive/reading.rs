//! Text read by the Rust parser, where it is fit to be handed over.
//!
//! Every piece of text that reaches the parser passes through one of the
//! functions here. Each measures the text first, and refuses what is too
//! deep or holds a literal of no known kind without handing it over.

use crate::derive::attributes::refused;
use crate::derive::depth::is_shallow;
use crate::derive::depth::shallow;
use crate::derive::error::DeriveError;
use crate::derive::error::DeriveErrorView;
use crate::derive::syntax::expr_shape;
use crate::derive::syntax::pieces_view;
use crate::derive::syntax::rust_expr_list;
use crate::derive::syntax::rust_expr_shape;
use crate::derive::syntax::rust_pieces;
use crate::derive::syntax::rust_string_literal;
use crate::derive::syntax::rust_type_list;
use crate::derive::syntax::split_exprs;
use crate::derive::syntax::split_types;
use crate::derive::syntax::string_literal;
use crate::derive::syntax::texts;
use crate::derive::syntax::top_level_pieces;
use crate::derive::tokens::find_unfit;
use crate::derive::tokens::unfit;
use crate::derive::syntax::ExprShape;
use crate::derive::syntax::ExprShapeView;
use crate::derive::syntax::Piece;
use crate::derive::syntax::PieceView;
use vstd::prelude::*;

verus! {

/// The refusal of text that was to be parsed: what keeps it from being
/// handed over where something does, else the parser's own.
pub open spec fn refusal(text: Seq<char>) -> DeriveErrorView {
    match unfit(text) {
        Some(e) => e,
        None => DeriveErrorView::Syntax(Seq::empty()),
    }
}

/// The refusal of text that was to be split into tokens: too deep where it
/// is not shallow, else that it is no sequence of tokens.
pub open spec fn token_refusal(text: Seq<char>) -> DeriveErrorView {
    if shallow(text) {
        DeriveErrorView::Lex
    } else {
        DeriveErrorView::TooDeep
    }
}

/// Whether `e` is the refusal of `text` that was to be parsed. The parser's
/// message is left open.
pub open spec fn refuses(e: DeriveErrorView, text: Seq<char>) -> bool {
    match unfit(text) {
        Some(x) => e == x,
        None => e is Syntax,
    }
}

/// The expressions in fit `text`, read as a list separated by commas.
pub open spec fn expr_list(text: Seq<char>) -> Option<Seq<Seq<char>>> {
    if unfit(text) is None {
        rust_expr_list(text)
    } else {
        None
    }
}

/// The types in fit `text`, read as a list separated by commas.
pub open spec fn type_list(text: Seq<char>) -> Option<Seq<Seq<char>>> {
    if unfit(text) is None {
        rust_type_list(text)
    } else {
        None
    }
}

/// The outline of fit `text`, read as one expression.
pub open spec fn outline(text: Seq<char>) -> Option<ExprShapeView> {
    if unfit(text) is None {
        rust_expr_shape(text)
    } else {
        None
    }
}

/// The token of fit `text`, read as one string literal.
pub open spec fn string_token(text: Seq<char>) -> Option<Seq<char>> {
    if unfit(text) is None {
        rust_string_literal(text)
    } else {
        None
    }
}

/// The token trees at the top level of shallow `text`.
pub open spec fn pieces_of(text: Seq<char>) -> Option<Seq<PieceView>> {
    if shallow(text) {
        rust_pieces(text)
    } else {
        None
    }
}

/// Reads a list of expressions separated by commas.
pub fn read_exprs(text: &str) -> (r: Result<Vec<String>, DeriveError>)
    ensures
        match r {
            Ok(parts) => expr_list(text@) == Some(texts(parts@)),
            Err(e) => expr_list(text@) is None && refuses(e@, text@),
        },
{
    match find_unfit(text) {
        Some(e) => {
            return Err(e);
        },
        None => {},
    }
    match split_exprs(text) {
        Ok(parts) => Ok(parts),
        Err(e) => Err(refused(&e)),
    }
}

/// Reads a list of types separated by commas.
pub fn read_types(text: &str) -> (r: Result<Vec<String>, DeriveError>)
    ensures
        match r {
            Ok(parts) => type_list(text@) == Some(texts(parts@)),
            Err(e) => type_list(text@) is None && refuses(e@, text@),
        },
{
    match find_unfit(text) {
        Some(e) => {
            return Err(e);
        },
        None => {},
    }
    match split_types(text) {
        Ok(parts) => Ok(parts),
        Err(e) => Err(refused(&e)),
    }
}

/// Reads the outline of one expression.
pub fn read_outline(text: &str) -> (r: Result<ExprShape, DeriveError>)
    ensures
        match r {
            Ok(shape) => outline(text@) == Some(shape@),
            Err(e) => outline(text@) is None && refuses(e@, text@),
        },
{
    match find_unfit(text) {
        Some(e) => {
            return Err(e);
        },
        None => {},
    }
    match expr_shape(text) {
        Ok(shape) => Ok(shape),
        Err(e) => Err(refused(&e)),
    }
}

/// Reads one string literal.
pub fn read_string(text: &str) -> (r: Result<String, DeriveError>)
    ensures
        match r {
            Ok(token) => string_token(text@) == Some(token@),
            Err(e) => string_token(text@) is None && refuses(e@, text@),
        },
{
    match find_unfit(text) {
        Some(e) => {
            return Err(e);
        },
        None => {},
    }
    match string_literal(text) {
        Ok(token) => Ok(token),
        Err(e) => Err(refused(&e)),
    }
}

/// Reads the token trees at the top level.
pub fn read_pieces(text: &str) -> (r: Result<Vec<Piece>, DeriveError>)
    ensures
        match r {
            Ok(pieces) => pieces_of(text@) == Some(pieces_view(pieces@)),
            Err(e) => pieces_of(text@) is None && e@ == token_refusal(text@),
        },
{
    if !is_shallow(text) {
        return Err(DeriveError::TooDeep);
    }
    match top_level_pieces(text) {
        Ok(pieces) => Ok(pieces),
        Err(_) => Err(DeriveError::Lex),
    }
}

} // verus!
