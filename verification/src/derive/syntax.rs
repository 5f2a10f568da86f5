//! Rust's own syntax, as far as directives lean on it.
//!
//! A directive's value is an arbitrary Rust expression, and the types a record
//! has access to are arbitrary Rust types. Where one of them ends is decided
//! by the Rust parser, not here: the functions of this module hand a piece of
//! text to it and bring back plain strings.
//!
//! Each of them first calls `proc_macro2::fallback::force`, so that the text
//! is split into tokens, and tokens are printed, by that crate's own code in
//! every process, inside the compiler too. What comes back is then decided by
//! the text alone.
//!
//! The function that splits text into tokens takes only text whose brackets
//! are shallow, since groups are printed bracket by bracket. Those that
//! parse take only text that is fit: its tokens make the parser descend no
//! deeper than the limit, and every literal among them is of a kind that the
//! parser knows.

use crate::derive::depth::shallow;
use crate::derive::tokens::unfit;
use proc_macro2::Delimiter;
use proc_macro2::TokenTree;
use quote::ToTokens;
use syn::parse::Parser;
use syn::parse_str;
use syn::Expr;
use vstd::prelude::*;

verus! {

/// `syn::Error`, the refusal of the Rust parser. Nothing is known of what is
/// inside.
#[verifier::external_type_specification]
#[verifier::external_body]
pub struct ExSynError(syn::Error);

/// `proc_macro2::LexError`, the refusal of text that is no sequence of
/// tokens. Nothing is known of what is inside.
#[verifier::external_type_specification]
#[verifier::external_body]
pub struct ExLexError(proc_macro2::LexError);

/// The outline of one expression: how it is put together at its top level.
/// Each part is the text of its tokens.
pub enum ExprShape {
    /// A path, such as a bare name.
    Path(String),
    /// `left = right`: the left side, then the right side.
    Assign(String, String),
    /// `func(args)`: the function, then the arguments.
    Call(String, Vec<String>),
    /// `expr: ty`: the value, then the type.
    Typed(String, String),
    /// Any other expression.
    Other(String),
}

/// The model of an [`ExprShape`].
pub enum ExprShapeView {
    Path(Seq<char>),
    Assign { left: Seq<char>, right: Seq<char> },
    Call { func: Seq<char>, args: Seq<Seq<char>> },
    Typed { expr: Seq<char>, ty: Seq<char> },
    Other(Seq<char>),
}

/// What a vector of strings holds, string by string.
pub open spec fn texts(v: Seq<String>) -> Seq<Seq<char>> {
    Seq::new(v.len(), |i: int| v[i]@)
}

impl View for ExprShape {
    type V = ExprShapeView;

    open spec fn view(&self) -> ExprShapeView {
        match self {
            ExprShape::Path(p) => ExprShapeView::Path(p@),
            ExprShape::Assign(left, right) => ExprShapeView::Assign { left: left@, right: right@ },
            ExprShape::Call(func, args) => ExprShapeView::Call { func: func@, args: texts(args@) },
            ExprShape::Typed(expr, ty) => ExprShapeView::Typed { expr: expr@, ty: ty@ },
            ExprShape::Other(o) => ExprShapeView::Other(o@),
        }
    }
}

/// The brackets around a group of tokens.
#[derive(Clone, Copy, PartialEq, Eq, Structural)]
pub enum Delim {
    /// `( .. )`
    Paren,
    /// `[ .. ]`
    Bracket,
    /// `{ .. }`
    Brace,
    /// None that is written.
    Unseen,
}

/// One token tree at the top level of a piece of text. A group keeps its
/// brackets, and what stands between them as text.
pub enum Piece {
    Ident(String),
    Punct(char),
    Literal(String),
    Group(Delim, String),
}

/// The model of a [`Piece`].
pub enum PieceView {
    Ident(Seq<char>),
    Punct(char),
    Literal(Seq<char>),
    Group(Delim, Seq<char>),
}

impl View for Piece {
    type V = PieceView;

    open spec fn view(&self) -> PieceView {
        match self {
            Piece::Ident(s) => PieceView::Ident(s@),
            Piece::Punct(c) => PieceView::Punct(*c),
            Piece::Literal(s) => PieceView::Literal(s@),
            Piece::Group(d, s) => PieceView::Group(*d, s@),
        }
    }
}

/// What a vector of pieces holds, piece by piece.
pub open spec fn pieces_view(v: Seq<Piece>) -> Seq<PieceView> {
    Seq::new(v.len(), |i: int| v[i]@)
}

/// The expressions that the Rust parser finds in `text`, read as a list
/// separated by commas with an optional comma at its end; `None` where the
/// text is no such list. Like the four names below, it speaks of the parser
/// at work on `proc_macro2`'s own tokens, which are the same in every process.
pub uninterp spec fn rust_expr_list(text: Seq<char>) -> Option<Seq<Seq<char>>>;

/// The types that the Rust parser finds in `text`, read as a list separated
/// by commas with an optional comma at its end; `None` where the text is no
/// such list.
pub uninterp spec fn rust_type_list(text: Seq<char>) -> Option<Seq<Seq<char>>>;

/// The outline of `text` read as one Rust expression; `None` where the text is
/// no expression.
pub uninterp spec fn rust_expr_shape(text: Seq<char>) -> Option<ExprShapeView>;

/// The token of `text` read as one string literal; `None` where the text is
/// anything else.
pub uninterp spec fn rust_string_literal(text: Seq<char>) -> Option<Seq<char>>;

/// The token trees at the top level of `text`; `None` where the text is no
/// sequence of Rust tokens.
pub uninterp spec fn rust_pieces(text: Seq<char>) -> Option<Seq<PieceView>>;

/// Calls `syn::punctuated::Punctuated::<syn::Expr, syn::token::Comma>::parse_terminated`
/// on the whole text, with `proc_macro2`'s own tokens forced. Claimed: it
/// succeeds exactly where `rust_expr_list` is `Some`, and then hands back
/// those expressions, each printed as its tokens. Asked of the text: that
/// it is fit, since the parser descends with every level of nesting and
/// gives up on a literal of a kind it does not know.
#[verifier::external_body]
pub(crate) fn split_exprs(text: &str) -> (r: Result<Vec<String>, syn::Error>)
    requires
        unfit(text@) is None,
    ensures
        r is Ok <==> rust_expr_list(text@) is Some,
        r is Ok ==> texts(r->Ok_0@) == rust_expr_list(text@)->0,
{
    proc_macro2::fallback::force();
    let list = syn::punctuated::Punctuated::<syn::Expr, syn::token::Comma>::parse_terminated
        .parse_str(text)?;
    Ok(list.iter().map(|e| e.to_token_stream().to_string()).collect())
}

/// Calls `syn::punctuated::Punctuated::<syn::Type, syn::token::Comma>::parse_terminated`
/// on the whole text, with `proc_macro2`'s own tokens forced. Claimed: it
/// succeeds exactly where `rust_type_list` is `Some`, and then hands back
/// those types, each printed as its tokens. Asked of the text: that it is
/// fit, as for expressions.
#[verifier::external_body]
pub(crate) fn split_types(text: &str) -> (r: Result<Vec<String>, syn::Error>)
    requires
        unfit(text@) is None,
    ensures
        r is Ok <==> rust_type_list(text@) is Some,
        r is Ok ==> texts(r->Ok_0@) == rust_type_list(text@)->0,
{
    proc_macro2::fallback::force();
    let list = syn::punctuated::Punctuated::<syn::Type, syn::token::Comma>::parse_terminated
        .parse_str(text)?;
    Ok(list.iter().map(|t| t.to_token_stream().to_string()).collect())
}

/// Calls `syn::parse_str::<syn::Expr>`, with `proc_macro2`'s own tokens
/// forced. Claimed: it succeeds exactly where
/// `rust_expr_shape` is `Some`, and then hands back that outline: a path, an
/// assignment, a call or a type ascription with its parts printed as their
/// tokens, or any other expression printed whole. Asked of the text: that
/// it is fit, as for a list of expressions.
#[verifier::external_body]
pub(crate) fn expr_shape(text: &str) -> (r: Result<ExprShape, syn::Error>)
    requires
        unfit(text@) is None,
    ensures
        r is Ok <==> rust_expr_shape(text@) is Some,
        r is Ok ==> r->Ok_0@ == rust_expr_shape(text@)->0,
{
    proc_macro2::fallback::force();
    Ok(match parse_str::<Expr>(text)? {
        Expr::Path(p) => ExprShape::Path(p.to_token_stream().to_string()),
        Expr::Assign(a) => ExprShape::Assign(a.left.to_token_stream().to_string(), a.right.to_token_stream().to_string()),
        Expr::Call(c) => ExprShape::Call(
            c.func.to_token_stream().to_string(),
            c.args.iter().map(|a| a.to_token_stream().to_string()).collect(),
        ),
        Expr::Type(t) => ExprShape::Typed(t.expr.to_token_stream().to_string(), t.ty.to_token_stream().to_string()),
        o => ExprShape::Other(o.to_token_stream().to_string()),
    })
}

/// Calls `syn::parse_str::<syn::LitStr>`, with `proc_macro2`'s own tokens
/// forced. Claimed: it succeeds exactly where `rust_string_literal` is `Some`,
/// and then hands back the literal printed as its token, quotes included.
/// Asked of the text: that it is fit, since the parser gives up on a literal
/// of a kind it does not know.
#[verifier::external_body]
pub(crate) fn string_literal(text: &str) -> (r: Result<String, syn::Error>)
    requires
        unfit(text@) is None,
    ensures
        r is Ok <==> rust_string_literal(text@) is Some,
        r is Ok ==> r->Ok_0@ == rust_string_literal(text@)->0,
{
    proc_macro2::fallback::force();
    Ok(parse_str::<syn::LitStr>(text)?.to_token_stream().to_string())
}

/// Calls `proc_macro2::TokenStream::from_str`, with `proc_macro2`'s own
/// tokens forced. Claimed: it succeeds exactly where `rust_pieces` is `Some`,
/// and then hands back the token trees in order: a name, a punctuation
/// character or a literal as printed, a group as its brackets and the printed
/// tokens between them. Asked of the text: that its brackets are shallow,
/// since a group is printed once for every bracket around it.
#[verifier::external_body]
pub(crate) fn top_level_pieces(text: &str) -> (r: Result<Vec<Piece>, proc_macro2::LexError>)
    requires
        shallow(text@),
    ensures
        r is Ok <==> rust_pieces(text@) is Some,
        r is Ok ==> pieces_view(r->Ok_0@) == rust_pieces(text@)->0,
{
    proc_macro2::fallback::force();
    let stream = <proc_macro2::TokenStream as std::str::FromStr>::from_str(text)?;
    Ok(stream.into_iter().map(|tree| match tree {
        TokenTree::Ident(i) => Piece::Ident(i.to_string()),
        TokenTree::Punct(p) => Piece::Punct(p.as_char()),
        TokenTree::Literal(l) => Piece::Literal(l.to_string()),
        TokenTree::Group(g) => Piece::Group(match g.delimiter() {
            Delimiter::Parenthesis => Delim::Paren,
            Delimiter::Bracket => Delim::Bracket,
            Delimiter::Brace => Delim::Brace,
            Delimiter::None => Delim::Unseen,
        }, g.stream().to_string()),
    }).collect())
}

/// Calls `to_string` on a `syn::Error`, which gives its first message.
/// Nothing is claimed of the text.
#[verifier::external_body]
pub(crate) fn syntax_message(error: &syn::Error) -> String {
    error.to_string()
}

} // verus!
