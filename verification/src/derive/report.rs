//! How a refusal is told: as a message, and as source that fails to compile
//! with that message.

use crate::derive::element::fill1;
use crate::derive::error::DeriveError;
use crate::derive::error::DeriveErrorView;
use crate::derive::template::filled;
use crate::derive::template::push_char;
use crate::derive::text::owned;
use vstd::prelude::*;
use vstd::string::StrSliceExecFns;
use vstd::string::StringExecFns;

verus! {

/// The source that fails to compile with the message `$a`.
pub const COMPILE_ERROR: &'static str = "::core::compile_error! { \"$a\" }";

impl DeriveErrorView {
    /// The message of a refusal.
    pub open spec fn message_text(self) -> Seq<char> {
        match self {
            DeriveErrorView::Lex => "lex error"@,
            DeriveErrorView::TooDeep => "nested too deeply"@,
            DeriveErrorView::UnknownLiteral(text) => "literal not supported: "@ + text,
            DeriveErrorView::Syntax(message) => message,
            DeriveErrorView::MissingArguments =>
                "expected attribute arguments in parentheses: #[boulder(...)]"@,
            DeriveErrorView::Malformed(text) => "malformed boulder attribute: "@ + text,
            DeriveErrorView::UnsupportedAttribute(name) => "unsupported boulder attribute: "@
                + name,
            DeriveErrorView::OutsidePersianRug(name) => "Cannot use "@ + name
                + " outside of a persian-rug enabled derive."@,
            DeriveErrorView::MissingType(value) =>
                "a type must be provided to use this value in GeneratableWithPersianRug (syntax: `value: type`): "@
                + value,
            DeriveErrorView::NestedCustomisation(name) =>
                "cannot customise nested persian-rug generators from within a persian-rug generator: "@
                + name,
            DeriveErrorView::NoContext => "no context found"@,
            DeriveErrorView::UnsupportedConstraint(name) =>
                "unsupported persian-rug constraint: "@ + name,
        }
    }
}

/// A character as it stands inside a string literal: a quote and a backslash
/// behind a backslash, a line break as `\n`, any other as it is.
pub open spec fn escaped_char(c: char) -> Seq<char> {
    if c == '"' {
        seq!['\\', '"']
    } else if c == '\\' {
        seq!['\\', '\\']
    } else if c == '\n' {
        seq!['\\', 'n']
    } else {
        seq![c]
    }
}

/// The first `n` characters of a text as they stand inside a string literal.
pub open spec fn escaped_text(text: Seq<char>, n: int) -> Seq<char>
    decreases n,
{
    if n <= 0 {
        Seq::empty()
    } else {
        escaped_text(text, n - 1) + escaped_char(text[n - 1])
    }
}

/// The source that fails to compile with the message of a refusal.
pub open spec fn reported(e: DeriveErrorView) -> Seq<char> {
    filled(COMPILE_ERROR@, seq![escaped_text(e.message_text(), e.message_text().len() as int)])
}

/// What a derivation hands out: the source where it succeeded, else the
/// source that fails to compile with the refusal's message. A refusal of the
/// Rust parser carries that parser's own message.
pub open spec fn handed_out(out: Seq<char>, derivation: Result<Seq<char>, DeriveErrorView>) -> bool {
    match derivation {
        Ok(source) => out == source,
        Err(DeriveErrorView::Syntax(_)) => exists|message: Seq<char>|
            out == #[trigger] reported(DeriveErrorView::Syntax(message)),
        Err(e) => out == reported(e),
    }
}

impl DeriveError {
    /// The message of the refusal.
    pub fn message(&self) -> (out: String)
        ensures
            out@ == self@.message_text(),
    {
        match self {
            DeriveError::Lex => owned("lex error"),
            DeriveError::TooDeep => owned("nested too deeply"),
            DeriveError::UnknownLiteral(text) => {
                let mut out = String::from_str("literal not supported: ");
                out.append(text.as_str());
                out
            },
            DeriveError::Syntax(message) => owned(message.as_str()),
            DeriveError::MissingArguments => owned(
                "expected attribute arguments in parentheses: #[boulder(...)]",
            ),
            DeriveError::Malformed(text) => {
                let mut out = String::from_str("malformed boulder attribute: ");
                out.append(text.as_str());
                out
            },
            DeriveError::UnsupportedAttribute(name) => {
                let mut out = String::from_str("unsupported boulder attribute: ");
                out.append(name.as_str());
                out
            },
            DeriveError::OutsidePersianRug(name) => {
                let mut out = String::from_str("Cannot use ");
                out.append(name.as_str());
                out.append(" outside of a persian-rug enabled derive.");
                out
            },
            DeriveError::MissingType(value) => {
                let mut out = String::from_str(
                    "a type must be provided to use this value in GeneratableWithPersianRug (syntax: `value: type`): ",
                );
                out.append(value.as_str());
                out
            },
            DeriveError::NestedCustomisation(name) => {
                let mut out = String::from_str(
                    "cannot customise nested persian-rug generators from within a persian-rug generator: ",
                );
                out.append(name.as_str());
                out
            },
            DeriveError::NoContext => owned("no context found"),
            DeriveError::UnsupportedConstraint(name) => {
                let mut out = String::from_str("unsupported persian-rug constraint: ");
                out.append(name.as_str());
                out
            },
        }
    }

    /// The source that fails to compile with the refusal's message.
    pub fn to_compile_error(&self) -> (out: String)
        ensures
            out@ == reported(self@),
    {
        let message = self.message();
        let text = escape(message.as_str());
        fill1(COMPILE_ERROR, text.as_str())
    }
}

/// A text as it stands inside a string literal.
pub fn escape(text: &str) -> (out: String)
    ensures
        out@ == escaped_text(text@, text@.len() as int),
{
    let mut out = String::new();
    let n = text.unicode_len();
    let mut i: usize = 0;
    while i < n
        invariant
            i <= n,
            n == text@.len(),
            out@ == escaped_text(text@, i as int),
        decreases n - i,
    {
        let c = text.get_char(i);
        let ghost before = out@;
        if c == '"' {
            push_char(&mut out, '\\');
            push_char(&mut out, '"');
            assert(out@ =~= before + seq!['\\', '"']);
        } else if c == '\\' {
            push_char(&mut out, '\\');
            push_char(&mut out, '\\');
            assert(out@ =~= before + seq!['\\', '\\']);
        } else if c == '\n' {
            push_char(&mut out, '\\');
            push_char(&mut out, 'n');
            assert(out@ =~= before + seq!['\\', 'n']);
        } else {
            push_char(&mut out, c);
            assert(out@ =~= before + seq![c]);
        }
        i = i + 1;
    }
    out
}

/// What is handed out for what a derivation came to.
pub open spec fn emitted(r: Result<String, DeriveError>) -> Seq<char> {
    match r {
        Ok(source) => source@,
        Err(e) => reported(e@),
    }
}

/// Hands out what a derivation came to.
pub fn hand_out(r: Result<String, DeriveError>) -> (out: String)
    ensures
        out@ == emitted(r),
{
    match r {
        Ok(source) => source,
        Err(e) => e.to_compile_error(),
    }
}

} // verus!
