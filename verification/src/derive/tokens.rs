//! What is asked of tokens before they are handed to the Rust parser.
//!
//! The parser descends once for every group in brackets, for every operator
//! or keyword that stands in front of its operand, for every `=` and every
//! arrow, and for every `<` and closure that opens. It also reads every
//! literal, and gives up on one that it does not know. The tokens of a text
//! are therefore weighed first: how deep they make the parser descend, and
//! whether each literal among them is of a known kind. What is too deep, or
//! holds another literal, is refused without being handed over. Comments
//! weigh nothing and hide nothing: they are no tokens.
//!
//! The weight is a bound, not the parser's own count.
//!
//! - A comma or a semicolon ends what operators and keywords have opened
//!   since the last bracket.
//! - What `<` or a closure has opened lasts until the bracket around it
//!   ends, since commas may stand inside.
//! - Operators between operands open one level for each tightness of
//!   binding among them, and the second character of a comparison opens
//!   nothing.
//! - Tokens that follow an operand one after the other, as the terms of a
//!   sum do, weigh one level for every [`LINKS`] of them: the parser reads
//!   them in a loop, but puts them together one inside the other.
//! - A name behind an apostrophe is a lifetime or a label, and no operand.

use crate::derive::depth::shallow;
use crate::derive::depth::MAX_DEPTH;
use crate::derive::error::DeriveError;
use crate::derive::error::DeriveErrorView;
use crate::derive::reading::pieces_of;
use crate::derive::reading::read_pieces;
use crate::derive::reading::refusal;
use crate::derive::reading::token_refusal;
use crate::derive::syntax::pieces_view;
use crate::derive::syntax::rust_pieces;
use crate::derive::syntax::Piece;
use crate::derive::syntax::PieceView;
use crate::derive::text::owned;
use crate::derive::text::same_text;
use vstd::prelude::*;
use vstd::string::StrSliceExecFns;

verus! {

/// Before the first character of a literal.
pub const START: u8 = 0;

/// Inside a string or byte string.
pub const STR: u8 = 1;

/// Behind a backslash inside a string.
pub const STR_ESCAPE: u8 = 2;

/// Behind the apostrophe that opens a character.
pub const CHR: u8 = 3;

/// Behind a backslash inside a character.
pub const CHR_ESCAPE: u8 = 4;

/// Behind the content of a character.
pub const CHR_FULL: u8 = 5;

/// Behind the closing quote or apostrophe.
pub const DONE: u8 = 6;

/// Behind a leading `b`.
pub const BYTE: u8 = 7;

/// Inside a raw string.
pub const RAW: u8 = 8;

/// Behind a leading `0`.
pub const ZERO: u8 = 9;

/// Among the digits of a decimal number.
pub const DEC: u8 = 10;

/// Behind the decimal point.
pub const FRAC: u8 = 11;

/// Behind the `e` of an exponent.
pub const EXP_MARK: u8 = 12;

/// Behind the sign of an exponent.
pub const EXP_SIGN: u8 = 13;

/// Among the digits of an exponent.
pub const EXP: u8 = 14;

/// In the suffix of a number.
pub const SUFFIX: u8 = 15;

/// Behind `0x`.
pub const HEX_MARK: u8 = 16;

/// Among hexadecimal digits.
pub const HEX: u8 = 17;

/// Behind `0o`.
pub const OCT_MARK: u8 = 18;

/// Among octal digits.
pub const OCT: u8 = 19;

/// Behind `0b`.
pub const BIN_MARK: u8 = 20;

/// Among binary digits.
pub const BIN: u8 = 21;

/// No literal of a known kind.
pub const BAD: u8 = 22;

/// Behind the apostrophe that opens a byte.
pub const BYTE_CHR: u8 = 23;

/// Whether `c` may follow a backslash: `n`, `r`, `t`, `0`, a backslash, a
/// quote or an apostrophe.
pub open spec fn escapable(c: char) -> bool {
    c == 'n' || c == 'r' || c == 't' || c == '0' || c == '\\' || c == '"' || c == '\''
}

/// Where the reading of a literal stands after one more character.
///
/// A string or a byte string runs from quote to quote, a character or a
/// byte from apostrophe to apostrophe, each with no escapes but those of
/// [`escapable`] and without a carriage return; a byte is an ASCII
/// character. A raw string is taken as it is. A number is decimal, with an optional fraction, exponent and suffix,
/// or hexadecimal, octal or binary behind its mark, with an optional suffix.
pub open spec fn literal_step(s: u8, c: char) -> u8 {
    let code = c as u32;
    let digit = 48 <= code && code <= 57;
    let letter = (65 <= code && code <= 90) || (97 <= code && code <= 122);
    let hex = digit || (65 <= code && code <= 70) || (97 <= code && code <= 102);
    let octal = 48 <= code && code <= 55;
    let binary = code == 48 || code == 49;
    let e = c == 'e' || c == 'E';
    if s == START {
        if c == '"' {
            STR
        } else if c == '\'' {
            CHR
        } else if c == 'b' {
            BYTE
        } else if c == 'r' {
            RAW
        } else if c == '0' {
            ZERO
        } else if digit {
            DEC
        } else {
            BAD
        }
    } else if s == BYTE {
        if c == '"' {
            STR
        } else if c == '\'' {
            BYTE_CHR
        } else if c == 'r' {
            RAW
        } else {
            BAD
        }
    } else if s == BYTE_CHR {
        if c == '\\' {
            CHR_ESCAPE
        } else if c == '\'' || c == '\r' || code >= 128 {
            BAD
        } else {
            CHR_FULL
        }
    } else if s == RAW {
        RAW
    } else if s == STR {
        if c == '\\' {
            STR_ESCAPE
        } else if c == '"' {
            DONE
        } else if c == '\r' {
            BAD
        } else {
            STR
        }
    } else if s == STR_ESCAPE {
        if escapable(c) {
            STR
        } else {
            BAD
        }
    } else if s == CHR {
        if c == '\\' {
            CHR_ESCAPE
        } else if c == '\'' || c == '\r' {
            BAD
        } else {
            CHR_FULL
        }
    } else if s == CHR_ESCAPE {
        if escapable(c) {
            CHR_FULL
        } else {
            BAD
        }
    } else if s == CHR_FULL {
        if c == '\'' {
            DONE
        } else {
            BAD
        }
    } else if s == ZERO && c == 'x' {
        HEX_MARK
    } else if s == ZERO && c == 'o' {
        OCT_MARK
    } else if s == ZERO && c == 'b' {
        BIN_MARK
    } else if s == ZERO || s == DEC {
        if digit || c == '_' {
            DEC
        } else if c == '.' {
            FRAC
        } else if e {
            EXP_MARK
        } else if letter {
            SUFFIX
        } else {
            BAD
        }
    } else if s == FRAC {
        if digit || c == '_' {
            FRAC
        } else if e {
            EXP_MARK
        } else if letter {
            SUFFIX
        } else {
            BAD
        }
    } else if s == EXP_MARK {
        if c == '+' || c == '-' {
            EXP_SIGN
        } else if digit {
            EXP
        } else {
            BAD
        }
    } else if s == EXP_SIGN {
        if digit {
            EXP
        } else {
            BAD
        }
    } else if s == EXP {
        if digit || c == '_' {
            EXP
        } else if letter {
            SUFFIX
        } else {
            BAD
        }
    } else if s == SUFFIX {
        if digit || letter || c == '_' {
            SUFFIX
        } else {
            BAD
        }
    } else if s == HEX_MARK {
        if hex {
            HEX
        } else {
            BAD
        }
    } else if s == HEX {
        if hex || c == '_' {
            HEX
        } else if letter {
            SUFFIX
        } else {
            BAD
        }
    } else if s == OCT_MARK {
        if octal {
            OCT
        } else {
            BAD
        }
    } else if s == OCT {
        if octal || c == '_' {
            OCT
        } else if letter {
            SUFFIX
        } else {
            BAD
        }
    } else if s == BIN_MARK {
        if binary {
            BIN
        } else {
            BAD
        }
    } else if s == BIN {
        if binary || c == '_' {
            BIN
        } else if letter {
            SUFFIX
        } else {
            BAD
        }
    } else {
        BAD
    }
}

/// Where the reading of a literal stands after the first `n` characters.
pub open spec fn literal_read(text: Seq<char>, n: int) -> u8
    decreases n,
{
    if n <= 0 {
        START
    } else {
        literal_step(literal_read(text, n - 1), text[n - 1])
    }
}

/// Whether a literal may end where the reading stands.
pub open spec fn complete(s: u8) -> bool {
    s == DONE || s == RAW || s == ZERO || s == DEC || s == FRAC || s == EXP || s == SUFFIX || s
        == HEX || s == OCT || s == BIN
}

/// Whether `text` is a literal of a kind that the parser knows.
pub open spec fn known_literal(text: Seq<char>) -> bool {
    complete(literal_read(text, text.len() as int))
}

/// Takes the reading of a literal one character further.
fn literal_advance(s: u8, c: char) -> (r: u8)
    ensures
        r == literal_step(s, c),
{
    let code = c as u32;
    let digit = 48 <= code && code <= 57;
    let letter = (65 <= code && code <= 90) || (97 <= code && code <= 122);
    let hex = digit || (65 <= code && code <= 70) || (97 <= code && code <= 102);
    let octal = 48 <= code && code <= 55;
    let binary = code == 48 || code == 49;
    let e = c == 'e' || c == 'E';
    let escapable = c == 'n' || c == 'r' || c == 't' || c == '0' || c == '\\' || c == '"' || c
        == '\'';
    if s == START {
        if c == '"' {
            STR
        } else if c == '\'' {
            CHR
        } else if c == 'b' {
            BYTE
        } else if c == 'r' {
            RAW
        } else if c == '0' {
            ZERO
        } else if digit {
            DEC
        } else {
            BAD
        }
    } else if s == BYTE {
        if c == '"' {
            STR
        } else if c == '\'' {
            BYTE_CHR
        } else if c == 'r' {
            RAW
        } else {
            BAD
        }
    } else if s == BYTE_CHR {
        if c == '\\' {
            CHR_ESCAPE
        } else if c == '\'' || c == '\r' || code >= 128 {
            BAD
        } else {
            CHR_FULL
        }
    } else if s == RAW {
        RAW
    } else if s == STR {
        if c == '\\' {
            STR_ESCAPE
        } else if c == '"' {
            DONE
        } else if c == '\r' {
            BAD
        } else {
            STR
        }
    } else if s == STR_ESCAPE {
        if escapable {
            STR
        } else {
            BAD
        }
    } else if s == CHR {
        if c == '\\' {
            CHR_ESCAPE
        } else if c == '\'' || c == '\r' {
            BAD
        } else {
            CHR_FULL
        }
    } else if s == CHR_ESCAPE {
        if escapable {
            CHR_FULL
        } else {
            BAD
        }
    } else if s == CHR_FULL {
        if c == '\'' {
            DONE
        } else {
            BAD
        }
    } else if s == ZERO && c == 'x' {
        HEX_MARK
    } else if s == ZERO && c == 'o' {
        OCT_MARK
    } else if s == ZERO && c == 'b' {
        BIN_MARK
    } else if s == ZERO || s == DEC {
        if digit || c == '_' {
            DEC
        } else if c == '.' {
            FRAC
        } else if e {
            EXP_MARK
        } else if letter {
            SUFFIX
        } else {
            BAD
        }
    } else if s == FRAC {
        if digit || c == '_' {
            FRAC
        } else if e {
            EXP_MARK
        } else if letter {
            SUFFIX
        } else {
            BAD
        }
    } else if s == EXP_MARK {
        if c == '+' || c == '-' {
            EXP_SIGN
        } else if digit {
            EXP
        } else {
            BAD
        }
    } else if s == EXP_SIGN {
        if digit {
            EXP
        } else {
            BAD
        }
    } else if s == EXP {
        if digit || c == '_' {
            EXP
        } else if letter {
            SUFFIX
        } else {
            BAD
        }
    } else if s == SUFFIX {
        if digit || letter || c == '_' {
            SUFFIX
        } else {
            BAD
        }
    } else if s == HEX_MARK {
        if hex {
            HEX
        } else {
            BAD
        }
    } else if s == HEX {
        if hex || c == '_' {
            HEX
        } else if letter {
            SUFFIX
        } else {
            BAD
        }
    } else if s == OCT_MARK {
        if octal {
            OCT
        } else {
            BAD
        }
    } else if s == OCT {
        if octal || c == '_' {
            OCT
        } else if letter {
            SUFFIX
        } else {
            BAD
        }
    } else if s == BIN_MARK {
        if binary {
            BIN
        } else {
            BAD
        }
    } else if s == BIN {
        if binary || c == '_' {
            BIN
        } else if letter {
            SUFFIX
        } else {
            BAD
        }
    } else {
        BAD
    }
}

/// Whether `text` is a literal of a kind that the parser knows.
pub fn is_known_literal(text: &str) -> (b: bool)
    ensures
        b == known_literal(text@),
{
    let n = text.unicode_len();
    let mut s: u8 = START;
    let mut i: usize = 0;
    while i < n
        invariant
            i <= n,
            n == text@.len(),
            s == literal_read(text@, i as int),
        decreases n - i,
    {
        s = literal_advance(s, text.get_char(i));
        i = i + 1;
    }
    s == DONE || s == RAW || s == ZERO || s == DEC || s == FRAC || s == EXP || s == SUFFIX || s
        == HEX || s == OCT || s == BIN
}

/// Whether `name` is a word of the language that may stand in front of an
/// operand, a type or a pattern.
pub open spec fn keyword(name: Seq<char>) -> bool {
    name == "return"@ || name == "break"@ || name == "continue"@ || name == "box"@ || name
        == "yield"@ || name == "if"@ || name == "else"@ || name == "while"@ || name == "match"@
        || name == "for"@ || name == "in"@ || name == "loop"@ || name == "unsafe"@ || name
        == "async"@ || name == "await"@ || name == "try"@ || name == "let"@ || name == "move"@
        || name == "static"@ || name == "const"@ || name == "fn"@ || name == "dyn"@ || name
        == "impl"@ || name == "mut"@ || name == "ref"@ || name == "as"@ || name == "where"@
        || name == "extern"@
}

/// Whether `name` is such a word.
pub fn is_keyword(name: &str) -> (b: bool)
    ensures
        b == keyword(name@),
{
    same_text(name, "return") || same_text(name, "break") || same_text(name, "continue")
        || same_text(name, "box") || same_text(name, "yield") || same_text(name, "if")
        || same_text(name, "else") || same_text(name, "while") || same_text(name, "match")
        || same_text(name, "for") || same_text(name, "in") || same_text(name, "loop")
        || same_text(name, "unsafe") || same_text(name, "async") || same_text(name, "await")
        || same_text(name, "try") || same_text(name, "let") || same_text(name, "move")
        || same_text(name, "static") || same_text(name, "const") || same_text(name, "fn")
        || same_text(name, "dyn") || same_text(name, "impl") || same_text(name, "mut")
        || same_text(name, "ref") || same_text(name, "as") || same_text(name, "where")
        || same_text(name, "extern")
}

/// How many tokens may follow an operand one after the other before they
/// weigh as much as a level. What the parser reads in a loop, such as a sum
/// of many terms, it puts together one inside the other, and what it has
/// put together is printed from the outside in.
pub const LINKS: usize = 32;

/// What stands in front of the next token.
pub struct Weight {
    /// The levels that last until the group ends.
    pub bound: int,
    /// The levels that the next comma or semicolon ends.
    pub loose: int,
    /// Whether the token before is no operand, so that an operator here
    /// stands in front of its operand.
    pub lead: bool,
    /// Whether the token before is `=`, `!`, `<` or `>`, so that `=` here is
    /// the second character of a comparison.
    pub compared: bool,
    /// Whether `|` has stood between two operands since the last comma.
    pub or: bool,
    /// Whether `^` has.
    pub xor: bool,
    /// Whether `&` has.
    pub and: bool,
    /// Whether `>` has.
    pub shift: bool,
    /// Whether `+` or `-` has.
    pub sum: bool,
    /// Whether `*`, `/` or `%` has.
    pub product: bool,
    /// Whether `!` has, as in `!=`.
    pub differ: bool,
    /// Whether `>` has followed another operator, as in `>>`.
    pub shifted: bool,
    /// How many tokens have followed an operand since the last comma, or
    /// since they last weighed as much as a level.
    pub links: int,
    /// Whether the token before is `-`, so that `>` here makes an arrow.
    pub arrow: bool,
    /// Whether the token before is an apostrophe, so that a name here is a
    /// lifetime or a label, and no operand.
    pub tick: bool,
}

/// The weight at the start of a group.
pub open spec fn no_weight() -> Weight {
    Weight {
        bound: 0,
        loose: 0,
        lead: true,
        compared: false,
        or: false,
        xor: false,
        and: false,
        shift: false,
        sum: false,
        product: false,
        differ: false,
        shifted: false,
        links: 0,
        arrow: false,
        tick: false,
    }
}

/// The weight with the next token taken down, where it follows an operand:
/// every [`LINKS`] such tokens open a level.
#[verifier::opaque]
pub open spec fn linked(w: Weight) -> Weight {
    if w.lead {
        w
    } else if w.links + 1 >= LINKS {
        Weight { loose: w.loose + 1, links: 0, ..w }
    } else {
        Weight { links: w.links + 1, ..w }
    }
}

/// Whether `c` is an operator that can stand in front of its operand.
pub open spec fn prefix(c: char) -> bool {
    c == '-' || c == '!' || c == '*' || c == '&' || c == '.'
}

/// Whether `c` is an operator between two operands that binds tighter than
/// some other, so that the parser descends where it follows that other.
pub open spec fn binary(c: char) -> bool {
    c == '|' || c == '^' || c == '&' || c == '>' || c == '+' || c == '-' || c == '*' || c == '/'
        || c == '%' || c == '!'
}

/// Whether the operator `c` has stood between two operands since the last
/// comma, or another that binds as tightly.
pub open spec fn met(w: Weight, c: char) -> bool {
    if c == '|' {
        w.or
    } else if c == '^' {
        w.xor
    } else if c == '&' {
        w.and
    } else if c == '>' {
        w.shift
    } else if c == '+' || c == '-' {
        w.sum
    } else if c == '!' {
        w.differ
    } else {
        w.product
    }
}

/// The weight with the operator `c` taken down as met.
pub open spec fn meeting(w: Weight, c: char) -> Weight {
    if c == '|' {
        Weight { or: true, ..w }
    } else if c == '^' {
        Weight { xor: true, ..w }
    } else if c == '&' {
        Weight { and: true, ..w }
    } else if c == '>' {
        Weight { shift: true, ..w }
    } else if c == '+' || c == '-' {
        Weight { sum: true, ..w }
    } else if c == '!' {
        Weight { differ: true, ..w }
    } else {
        Weight { product: true, ..w }
    }
}

/// The weight with no operator met.
pub open spec fn forgetting(w: Weight) -> Weight {
    Weight {
        or: false,
        xor: false,
        and: false,
        shift: false,
        sum: false,
        product: false,
        differ: false,
        shifted: false,
        links: 0,
        ..w
    }
}

/// The weight behind the punctuation `c`.
///
/// A comma or a semicolon ends what is loose. `<` and a `|` in front of an
/// operand open a level that is bound. `=` opens one, unless it is the
/// second character of a comparison; so do `@` and an operator in front of
/// its operand. An operator between two operands opens one where no
/// operator that binds as tightly has stood since the last comma: however
/// many follow one another, the parser descends once for each tightness.
/// The same holds of a `>` behind another operator, but the `>` of an arrow
/// opens a level wherever it stands.
#[verifier::opaque]
pub open spec fn punct_weight(w: Weight, c: char) -> Weight {
    Weight { arrow: c == '-', tick: c == '\'', ..punct_rule(w, c) }
}

/// The weight behind a comma or a semicolon.
#[verifier::opaque]
pub open spec fn divided(w: Weight) -> Weight {
    forgetting(Weight { loose: 0, lead: true, compared: false, ..w })
}

/// The weight behind `<`, or behind `|` in front of an operand.
#[verifier::opaque]
pub open spec fn bounded(w: Weight, c: char) -> Weight {
    forgetting(
        Weight { bound: w.bound + w.loose + 1, loose: 0, lead: true, compared: c == '<', ..w },
    )
}

/// The weight behind `=`.
#[verifier::opaque]
pub open spec fn assigned(w: Weight) -> Weight {
    Weight { loose: if w.compared { w.loose } else { w.loose + 1 }, lead: true, compared: true, ..w }
}

/// The weight behind an operator that opens a level wherever it stands.
#[verifier::opaque]
pub open spec fn opened(w: Weight, c: char) -> Weight {
    Weight { loose: w.loose + 1, lead: true, compared: c == '!' || c == '>', ..w }
}

/// The weight behind an operator between two operands that is met for the
/// first time.
#[verifier::opaque]
pub open spec fn climbed(w: Weight, c: char) -> Weight {
    meeting(Weight { loose: w.loose + 1, lead: true, compared: c == '>' || c == '!', ..w }, c)
}

/// The weight behind the first `>` that follows another operator.
#[verifier::opaque]
pub open spec fn shifting(w: Weight) -> Weight {
    Weight { loose: w.loose + 1, lead: true, compared: true, shifted: true, ..w }
}

/// The weight behind punctuation that opens nothing.
#[verifier::opaque]
pub open spec fn passed(w: Weight, c: char) -> Weight {
    Weight { lead: true, compared: c == '!' || c == '>', ..w }
}

/// The weight behind the punctuation `c`, but for whether an arrow may
/// follow.
pub open spec fn punct_rule(w: Weight, c: char) -> Weight {
    if c == ',' || c == ';' {
        divided(w)
    } else if c == '<' || (c == '|' && w.lead) {
        bounded(w, c)
    } else if c == '=' {
        assigned(w)
    } else if c == '@' || (prefix(c) && w.lead) || (c == '>' && w.arrow) {
        opened(w, c)
    } else if binary(c) && !w.lead && !met(w, c) {
        climbed(w, c)
    } else if c == '>' && w.lead && !w.shifted {
        shifting(w)
    } else {
        passed(w, c)
    }
}

/// The weight behind a name.
#[verifier::opaque]
pub open spec fn name_weight(w: Weight, name: Seq<char>) -> Weight {
    if w.tick {
        Weight { lead: true, compared: false, arrow: false, tick: false, ..w }
    } else if keyword(name) {
        Weight { loose: w.loose + 1, lead: true, compared: false, arrow: false, ..w }
    } else {
        Weight { lead: false, compared: false, arrow: false, ..w }
    }
}

/// The weight behind an operand.
#[verifier::opaque]
pub open spec fn operand_weight(w: Weight) -> Weight {
    Weight { lead: false, compared: false, arrow: false, tick: false, ..w }
}

/// What is wrong with the tokens from `i` on, which stand `used` levels deep
/// with the weight `w` in front of them: that they are too deep, that a
/// literal among them is of no known kind, or nothing. A group is weighed
/// by the tokens that its text splits into, one level deeper than where it
/// stands.
pub open spec fn weighed(pieces: Seq<PieceView>, i: int, used: int, w: Weight) -> Option<
    DeriveErrorView,
>
    decreases MAX_DEPTH - used, pieces.len() - i,
{
    if used < 0 || w.bound < 0 || w.loose < 0 || used + w.bound + w.loose > MAX_DEPTH {
        Some(DeriveErrorView::TooDeep)
    } else if i < 0 || i >= pieces.len() {
        None
    } else if linked(w).bound < 0 || linked(w).loose < 0 || used + linked(w).bound + linked(
        w,
    ).loose > MAX_DEPTH {
        Some(DeriveErrorView::TooDeep)
    } else {
        let w = linked(w);
        match pieces[i] {
            PieceView::Ident(name) => weighed(pieces, i + 1, used, name_weight(w, name)),
            PieceView::Punct(c) => weighed(pieces, i + 1, used, punct_weight(w, c)),
            PieceView::Literal(text) => if known_literal(text) {
                weighed(pieces, i + 1, used, operand_weight(w))
            } else {
                Some(DeriveErrorView::UnknownLiteral(text))
            },
            PieceView::Group(_, inner) => if used + w.bound + w.loose + 1 > MAX_DEPTH {
                Some(DeriveErrorView::TooDeep)
            } else {
                match pieces_of(inner) {
                    None => Some(token_refusal(inner)),
                    Some(inside) => match weighed(
                        inside,
                        0,
                        used + w.bound + w.loose + 1,
                        no_weight(),
                    ) {
                        Some(e) => Some(e),
                        None => weighed(pieces, i + 1, used, operand_weight(w)),
                    },
                }
            },
        }
    }
}

/// What keeps `text` from being handed to the parser: brackets that nest
/// too deep, tokens that weigh too much, or a literal of no known kind.
/// Text that does not split into tokens is handed over, and refused there.
pub open spec fn unfit(text: Seq<char>) -> Option<DeriveErrorView> {
    if !shallow(text) {
        Some(DeriveErrorView::TooDeep)
    } else {
        match rust_pieces(text) {
            None => None,
            Some(pieces) => weighed(pieces, 0, 0, no_weight()),
        }
    }
}

/// Tokens are refused as too deep, for a literal, or as no tokens, and for
/// nothing else.
pub proof fn lemma_weighed_kinds(pieces: Seq<PieceView>, i: int, used: int, w: Weight)
    ensures
        match weighed(pieces, i, used, w) {
            None => true,
            Some(e) => e is TooDeep || e is UnknownLiteral || e is Lex,
        },
    decreases MAX_DEPTH - used, pieces.len() - i,
{
    if used < 0 || w.bound < 0 || w.loose < 0 || used + w.bound + w.loose > MAX_DEPTH {
    } else if i < 0 || i >= pieces.len() {
    } else if linked(w).bound < 0 || linked(w).loose < 0 || used + linked(w).bound + linked(
        w,
    ).loose > MAX_DEPTH {
    } else {
        let w = linked(w);
        match pieces[i] {
            PieceView::Ident(name) => {
                lemma_weighed_kinds(pieces, i + 1, used, name_weight(w, name));
            },
            PieceView::Punct(c) => {
                lemma_weighed_kinds(pieces, i + 1, used, punct_weight(w, c));
            },
            PieceView::Literal(text) => {
                lemma_weighed_kinds(pieces, i + 1, used, operand_weight(w));
            },
            PieceView::Group(_, inner) => {
                if used + w.bound + w.loose + 1 <= MAX_DEPTH {
                    if pieces_of(inner) is Some {
                        lemma_weighed_kinds(
                            pieces_of(inner)->0,
                            0,
                            used + w.bound + w.loose + 1,
                            no_weight(),
                        );
                        lemma_weighed_kinds(pieces, i + 1, used, operand_weight(w));
                    }
                }
            },
        }
    }
}

/// Text that was to be parsed is never refused as an unsupported attribute.
pub proof fn lemma_never_unsupported(text: Seq<char>)
    ensures
        !(refusal(text) is UnsupportedAttribute),
{
    if shallow(text) && rust_pieces(text) is Some {
        lemma_weighed_kinds(rust_pieces(text)->0, 0, 0, no_weight());
    }
}

/// The model of an optional refusal.
pub open spec fn optional_error(e: Option<DeriveError>) -> Option<DeriveErrorView> {
    match e {
        Some(e) => Some(e@),
        None => None,
    }
}

/// What stands in front of the next token, as it is kept while weighing.
#[derive(Clone, Copy)]
pub struct Tally {
    pub bound: usize,
    pub loose: usize,
    pub lead: bool,
    pub compared: bool,
    pub or: bool,
    pub xor: bool,
    pub and: bool,
    pub shift: bool,
    pub sum: bool,
    pub product: bool,
    pub differ: bool,
    pub shifted: bool,
    pub links: usize,
    pub arrow: bool,
    pub tick: bool,
}

impl View for Tally {
    type V = Weight;

    open spec fn view(&self) -> Weight {
        Weight {
            bound: self.bound as int,
            loose: self.loose as int,
            lead: self.lead,
            compared: self.compared,
            or: self.or,
            xor: self.xor,
            and: self.and,
            shift: self.shift,
            sum: self.sum,
            product: self.product,
            differ: self.differ,
            shifted: self.shifted,
            links: self.links as int,
            arrow: self.arrow,
            tick: self.tick,
        }
    }
}

impl Tally {
    /// The tally at the start of a group.
    pub fn new() -> (t: Tally)
        ensures
            t@ == no_weight(),
    {
        Tally {
            bound: 0,
            loose: 0,
            lead: true,
            compared: false,
            or: false,
            xor: false,
            and: false,
            shift: false,
            sum: false,
            product: false,
            differ: false,
            shifted: false,
            links: 0,
            arrow: false,
            tick: false,
        }
    }

    /// The tally with the next token taken down, where it follows an
    /// operand.
    fn link(self) -> (t: Tally)
        requires
            self.loose <= MAX_DEPTH,
            self.links < LINKS,
        ensures
            t@ == linked(self@),
            t.links < LINKS,
            t.bound == self.bound,
            self.loose <= t.loose <= self.loose + 1,
    {
        proof {
            reveal(linked);
        }
        if self.lead {
            self
        } else if self.links + 1 >= LINKS {
            Tally { loose: self.loose + 1, links: 0, ..self }
        } else {
            Tally { links: self.links + 1, ..self }
        }
    }

    /// The tally behind a name.
    fn name(self, name: &str) -> (t: Tally)
        requires
            self.bound + self.loose <= MAX_DEPTH,
        ensures
            t@ == name_weight(self@, name@),
            t.bound == self.bound,
            self.loose <= t.loose <= self.loose + 1,
            t.links == self.links,
    {
        proof {
            reveal(name_weight);
        }
        if self.tick {
            Tally { lead: true, compared: false, arrow: false, tick: false, ..self }
        } else if is_keyword(name) {
            Tally { loose: self.loose + 1, lead: true, compared: false, arrow: false, ..self }
        } else {
            Tally { lead: false, compared: false, arrow: false, ..self }
        }
    }

    /// The tally behind an operand.
    fn operand(self) -> (t: Tally)
        ensures
            t@ == operand_weight(self@),
            t.bound == self.bound,
            t.loose == self.loose,
            t.links == self.links,
    {
        proof {
            reveal(operand_weight);
        }
        Tally { lead: false, compared: false, arrow: false, tick: false, ..self }
    }

    /// Whether the operator `c` has been met.
    fn has_met(self, c: char) -> (b: bool)
        ensures
            b == met(self@, c),
    {
        if c == '|' {
            self.or
        } else if c == '^' {
            self.xor
        } else if c == '&' {
            self.and
        } else if c == '>' {
            self.shift
        } else if c == '+' || c == '-' {
            self.sum
        } else if c == '!' {
            self.differ
        } else {
            self.product
        }
    }

    /// The tally with the operator `c` taken down as met.
    fn meet(self, c: char) -> (t: Tally)
        ensures
            t@ == meeting(self@, c),
            t.bound == self.bound,
            t.loose == self.loose,
            t.links == self.links,
    {
        if c == '|' {
            Tally { or: true, ..self }
        } else if c == '^' {
            Tally { xor: true, ..self }
        } else if c == '&' {
            Tally { and: true, ..self }
        } else if c == '>' {
            Tally { shift: true, ..self }
        } else if c == '+' || c == '-' {
            Tally { sum: true, ..self }
        } else if c == '!' {
            Tally { differ: true, ..self }
        } else {
            Tally { product: true, ..self }
        }
    }

    /// The tally with no operator met.
    fn forget(self) -> (t: Tally)
        ensures
            t@ == forgetting(self@),
            t.bound == self.bound,
            t.loose == self.loose,
            t.links == 0,
    {
        Tally {
            or: false,
            xor: false,
            and: false,
            shift: false,
            sum: false,
            product: false,
            differ: false,
            shifted: false,
            links: 0,
            ..self
        }
    }

    /// The tally behind a comma or a semicolon.
    fn divide(self) -> (t: Tally)
        ensures
            t@ == divided(self@),
            t.bound == self.bound,
            t.loose == 0,
            t.links == 0,
    {
        proof {
            reveal(divided);
        }
        (Tally { loose: 0, lead: true, compared: false, ..self }).forget()
    }

    /// The tally behind `<`, or behind `|` in front of an operand.
    fn bind(self, c: char) -> (t: Tally)
        requires
            self.bound + self.loose <= MAX_DEPTH,
        ensures
            t@ == bounded(self@, c),
            t.bound == self.bound + self.loose + 1,
            t.loose == 0,
            t.links == 0,
    {
        proof {
            reveal(bounded);
        }
        (Tally {
            bound: self.bound + self.loose + 1,
            loose: 0,
            lead: true,
            compared: c == '<',
            ..self
        }).forget()
    }

    /// The tally behind `=`.
    fn assign(self) -> (t: Tally)
        requires
            self.bound + self.loose <= MAX_DEPTH,
        ensures
            t@ == assigned(self@),
            t.bound == self.bound,
            self.loose <= t.loose <= self.loose + 1,
            t.links == self.links,
    {
        proof {
            reveal(assigned);
        }
        if self.compared {
            Tally { lead: true, compared: true, ..self }
        } else {
            Tally { loose: self.loose + 1, lead: true, compared: true, ..self }
        }
    }

    /// The tally behind an operator that opens a level wherever it stands.
    fn open(self, c: char) -> (t: Tally)
        requires
            self.bound + self.loose <= MAX_DEPTH,
        ensures
            t@ == opened(self@, c),
            t.bound == self.bound,
            t.loose == self.loose + 1,
            t.links == self.links,
    {
        proof {
            reveal(opened);
        }
        Tally { loose: self.loose + 1, lead: true, compared: c == '!' || c == '>', ..self }
    }

    /// The tally behind an operator between two operands that is met for
    /// the first time.
    fn climb(self, c: char) -> (t: Tally)
        requires
            self.bound + self.loose <= MAX_DEPTH,
        ensures
            t@ == climbed(self@, c),
            t.bound == self.bound,
            t.loose == self.loose + 1,
            t.links == self.links,
    {
        proof {
            reveal(climbed);
        }
        (Tally { loose: self.loose + 1, lead: true, compared: c == '>' || c == '!', ..self }).meet(
            c,
        )
    }

    /// The tally behind the first `>` that follows another operator.
    fn shift(self) -> (t: Tally)
        requires
            self.bound + self.loose <= MAX_DEPTH,
        ensures
            t@ == shifting(self@),
            t.bound == self.bound,
            t.loose == self.loose + 1,
            t.links == self.links,
    {
        proof {
            reveal(shifting);
        }
        Tally { loose: self.loose + 1, lead: true, compared: true, shifted: true, ..self }
    }

    /// The tally behind punctuation that opens nothing.
    fn pass(self, c: char) -> (t: Tally)
        ensures
            t@ == passed(self@, c),
            t.bound == self.bound,
            t.loose == self.loose,
            t.links == self.links,
    {
        proof {
            reveal(passed);
        }
        Tally { lead: true, compared: c == '!' || c == '>', ..self }
    }

    /// The tally behind the punctuation `c`, but for whether an arrow may
    /// follow.
    fn rule(self, c: char) -> (t: Tally)
        requires
            self.bound + self.loose <= MAX_DEPTH,
            self.links < LINKS,
        ensures
            t@ == punct_rule(self@, c),
            t.bound + t.loose <= self.bound + self.loose + 1,
            t.links < LINKS,
    {
        let binary = c == '|' || c == '^' || c == '&' || c == '>' || c == '+' || c == '-' || c
            == '*' || c == '/' || c == '%' || c == '!';
        let prefix = c == '-' || c == '!' || c == '*' || c == '&' || c == '.';
        if c == ',' || c == ';' {
            self.divide()
        } else if c == '<' || (c == '|' && self.lead) {
            self.bind(c)
        } else if c == '=' {
            self.assign()
        } else if c == '@' || (prefix && self.lead) || (c == '>' && self.arrow) {
            self.open(c)
        } else if binary && !self.lead && !self.has_met(c) {
            self.climb(c)
        } else if c == '>' && self.lead && !self.shifted {
            self.shift()
        } else {
            self.pass(c)
        }
    }

    /// The tally behind the punctuation `c`.
    fn punct(self, c: char) -> (t: Tally)
        requires
            self.bound + self.loose <= MAX_DEPTH,
            self.links < LINKS,
        ensures
            t@ == punct_weight(self@, c),
            t.bound + t.loose <= self.bound + self.loose + 1,
            t.links < LINKS,
    {
        proof {
            reveal(punct_weight);
        }
        let t = self.rule(c);
        Tally { arrow: c == '-', tick: c == '\'', ..t }
    }
}

/// Weighs the tokens of a group that stands `used` levels deep.
pub fn weigh(pieces: &Vec<Piece>, used: usize) -> (r: Option<DeriveError>)
    requires
        used <= MAX_DEPTH,
    ensures
        optional_error(r) == weighed(pieces_view(pieces@), 0, used as int, no_weight()),
    decreases MAX_DEPTH - used,
{
    let ghost all = pieces_view(pieces@);
    let n = pieces.len();
    let mut i: usize = 0;
    let mut t = Tally::new();
    while i < n
        invariant
            i <= n,
            n == pieces@.len(),
            all == pieces_view(pieces@),
            used + t.bound + t.loose <= MAX_DEPTH,
            t.links < LINKS,
            weighed(all, 0, used as int, no_weight()) == weighed(all, i as int, used as int, t@),
        decreases n - i,
    {
        assert(all[i as int] == pieces@[i as int]@);
        t = t.link();
        if used + t.bound + t.loose > MAX_DEPTH {
            return Some(DeriveError::TooDeep);
        }
        match &pieces[i] {
            Piece::Ident(name) => {
                t = t.name(name.as_str());
            },
            Piece::Punct(p) => {
                t = t.punct(*p);
            },
            Piece::Literal(text) => {
                if !is_known_literal(text.as_str()) {
                    return Some(DeriveError::UnknownLiteral(owned(text.as_str())));
                }
                t = t.operand();
            },
            Piece::Group(_, inner) => {
                if used + t.bound + t.loose >= MAX_DEPTH {
                    return Some(DeriveError::TooDeep);
                }
                match read_pieces(inner.as_str()) {
                    Err(e) => {
                        return Some(e);
                    },
                    Ok(inside) => {
                        match weigh(&inside, used + t.bound + t.loose + 1) {
                            Some(e) => {
                                return Some(e);
                            },
                            None => {},
                        }
                    },
                }
                t = t.operand();
            },
        }
        if used + t.bound + t.loose > MAX_DEPTH {
            proof {
                reveal_with_fuel(weighed, 2);
            }
            return Some(DeriveError::TooDeep);
        }
        i = i + 1;
    }
    None
}

/// Finds what keeps `text` from being handed to the parser.
pub fn find_unfit(text: &str) -> (r: Option<DeriveError>)
    ensures
        optional_error(r) == unfit(text@),
{
    match read_pieces(text) {
        Err(e) => match e {
            DeriveError::TooDeep => Some(DeriveError::TooDeep),
            _ => None,
        },
        Ok(pieces) => weigh(&pieces, 0),
    }
}

} // verus!
