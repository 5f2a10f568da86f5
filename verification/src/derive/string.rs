//! The source of a generator of formatted strings: a pattern, and one
//! generator for each of its holes.

use crate::derive::attributes::outcome_is;
use crate::derive::reading::expr_list;
use crate::derive::reading::read_exprs;
use crate::derive::reading::read_string;
use crate::derive::reading::refusal;
use crate::derive::reading::string_token;
use crate::derive::builder::source_outcome;
use crate::derive::element::fill1;
use crate::derive::error::DeriveError;
use crate::derive::error::DeriveErrorView;
use crate::derive::syntax::texts;
use crate::derive::template::fill;
use crate::derive::template::filled;
use crate::derive::template::push_char;
use crate::derive::text::owned;
use vstd::prelude::*;
use vstd::string::StringExecFns;

verus! {

/// The type parameter of the generator numbered `$a`.
pub const PATTERN_PARAMETER: &'static str = "T$a, ";

/// What the generator numbered `$a` has to be: a generator of something that
/// can be displayed.
pub const PATTERN_BOUND: &'static str =
    "T$a: ::boulder::Generator, <T$a as ::boulder::Generator>::Output: ::std::fmt::Display, ";

/// The next value of the generator numbered `$a`, as an argument.
pub const PATTERN_ANSWER: &'static str = ", self.$a.generate()";

/// The generator `$a`, as an argument.
pub const PATTERN_ARGUMENT: &'static str = "$a, ";

/// The generator of formatted strings. `$a` is the generators' type
/// parameters, `$b` what they have to be, `$c` the pattern, `$d` the
/// generators' next values, `$e` the generators.
pub const PATTERN_SOURCE: &'static str = "{
#[derive(Clone)]
struct Pattern<$a>($a) where $b;

impl<$a> ::boulder::Generator for Pattern<$a> where $b {
type Output = String;
fn generate(&mut self) -> String {
format!($c $d)
}
}

impl<BoulderContextParam, $a> ::boulder::GeneratorWithPersianRug<BoulderContextParam> for Pattern<$a> where $b {
type Output = String;
fn generate(&mut self, context: BoulderContextParam) -> (Self::Output, BoulderContextParam) {
(format!($c $d), context)
}
}

Pattern($e)
}";

/// A pattern and the generators for its holes, as expressions.
pub struct StringPatternCall {
    pub pattern: String,
    pub args: Vec<String>,
}

impl View for StringPatternCall {
    type V = (Seq<char>, Seq<Seq<char>>);

    open spec fn view(&self) -> (Seq<char>, Seq<Seq<char>>) {
        (self.pattern@, texts(self.args@))
    }
}

/// The digit of a number below ten.
pub open spec fn digit(d: nat) -> char {
    if d == 0 {
        '0'
    } else if d == 1 {
        '1'
    } else if d == 2 {
        '2'
    } else if d == 3 {
        '3'
    } else if d == 4 {
        '4'
    } else if d == 5 {
        '5'
    } else if d == 6 {
        '6'
    } else if d == 7 {
        '7'
    } else if d == 8 {
        '8'
    } else {
        '9'
    }
}

/// A number written in decimal.
pub open spec fn decimal_text(n: nat) -> Seq<char>
    decreases n,
{
    if n < 10 {
        seq![digit(n)]
    } else {
        decimal_text(n / 10) + seq![digit(n % 10)]
    }
}

/// The call written in `text`: a string literal, and behind it, separated by
/// commas, the generators.
pub open spec fn pattern_call_in(text: Seq<char>) -> Result<
    (Seq<char>, Seq<Seq<char>>),
    DeriveErrorView,
> {
    match expr_list(text) {
        None => Err(refusal(text)),
        Some(parts) => if parts.len() == 0 {
            Err(DeriveErrorView::Malformed(Seq::empty()))
        } else {
            match string_token(parts[0]) {
                None => Err(refusal(parts[0])),
                Some(pattern) => Ok((pattern, parts.skip(1))),
            }
        },
    }
}

/// The type parameters of the first `n` generators.
pub open spec fn pattern_parameters_text(n: int) -> Seq<char>
    decreases n,
{
    if n <= 0 {
        Seq::empty()
    } else {
        pattern_parameters_text(n - 1) + filled(
            PATTERN_PARAMETER@,
            seq![decimal_text((n - 1) as nat)],
        )
    }
}

/// What the first `n` generators have to be.
pub open spec fn pattern_bounds_text(n: int) -> Seq<char>
    decreases n,
{
    if n <= 0 {
        Seq::empty()
    } else {
        pattern_bounds_text(n - 1) + filled(PATTERN_BOUND@, seq![decimal_text((n - 1) as nat)])
    }
}

/// The next values of the first `n` generators, in their order.
pub open spec fn pattern_answers_text(n: int) -> Seq<char>
    decreases n,
{
    if n <= 0 {
        Seq::empty()
    } else {
        pattern_answers_text(n - 1) + filled(PATTERN_ANSWER@, seq![decimal_text((n - 1) as nat)])
    }
}

/// The first `n` generators, as arguments.
pub open spec fn pattern_arguments_text(args: Seq<Seq<char>>, n: int) -> Seq<char>
    decreases n,
{
    if n <= 0 {
        Seq::empty()
    } else {
        pattern_arguments_text(args, n - 1) + filled(PATTERN_ARGUMENT@, seq![args[n - 1]])
    }
}

/// The source of the generator of formatted strings.
pub open spec fn pattern_source(pattern: Seq<char>, args: Seq<Seq<char>>) -> Seq<char> {
    let n = args.len() as int;
    filled(
        PATTERN_SOURCE@,
        seq![
            pattern_parameters_text(n),
            pattern_bounds_text(n),
            pattern,
            pattern_answers_text(n),
            pattern_arguments_text(args, n),
        ],
    )
}

/// What writing the generator for `text` comes to.
pub open spec fn pattern_expansion(text: Seq<char>) -> Result<Seq<char>, DeriveErrorView> {
    match pattern_call_in(text) {
        Err(e) => Err(e),
        Ok(call) => Ok(pattern_source(call.0, call.1)),
    }
}

/// Writes a number in decimal.
pub fn decimal(n: usize) -> (out: String)
    ensures
        out@ == decimal_text(n as nat),
    decreases n,
{
    let d = n % 10;
    let c = if d == 0 {
        '0'
    } else if d == 1 {
        '1'
    } else if d == 2 {
        '2'
    } else if d == 3 {
        '3'
    } else if d == 4 {
        '4'
    } else if d == 5 {
        '5'
    } else if d == 6 {
        '6'
    } else if d == 7 {
        '7'
    } else if d == 8 {
        '8'
    } else {
        '9'
    };
    if n < 10 {
        let mut out = String::new();
        push_char(&mut out, c);
        assert(out@ =~= seq![c]);
        out
    } else {
        let mut out = decimal(n / 10);
        push_char(&mut out, c);
        out
    }
}

impl StringPatternCall {
    /// Reads a pattern and the generators for its holes.
    pub fn parse(text: &str) -> (r: Result<StringPatternCall, DeriveError>)
        ensures
            outcome_is(
                match r {
                    Ok(call) => Ok(call@),
                    Err(e) => Err(e@),
                },
                pattern_call_in(text@),
            ),
    {
        match read_exprs(text) {
            Err(e) => Err(e),
            Ok(parts) => {
                let mut parts = parts;
                if parts.len() == 0 {
                    return Err(DeriveError::Malformed(String::new()));
                }
                let ghost all = texts(parts@);
                let first = parts.remove(0);
                assert(texts(parts@) =~= all.skip(1));
                match read_string(first.as_str()) {
                    Err(e) => Err(e),
                    Ok(pattern) => Ok(StringPatternCall { pattern, args: parts }),
                }
            },
        }
    }
}

/// Writes the source of the generator of formatted strings.
pub fn pattern_macro(call: &StringPatternCall) -> (out: String)
    ensures
        out@ == pattern_source(call@.0, call@.1),
{
    let mut parameters = String::new();
    let mut bounds = String::new();
    let mut answers = String::new();
    let mut arguments = String::new();
    let n = call.args.len();
    let mut i: usize = 0;
    while i < n
        invariant
            i <= n,
            n == call.args@.len(),
            parameters@ == pattern_parameters_text(i as int),
            bounds@ == pattern_bounds_text(i as int),
            answers@ == pattern_answers_text(i as int),
            arguments@ == pattern_arguments_text(texts(call.args@), i as int),
        decreases n - i,
    {
        let number = decimal(i);
        parameters.append(fill1(PATTERN_PARAMETER, number.as_str()).as_str());
        bounds.append(fill1(PATTERN_BOUND, number.as_str()).as_str());
        answers.append(fill1(PATTERN_ANSWER, number.as_str()).as_str());
        arguments.append(fill1(PATTERN_ARGUMENT, call.args[i].as_str()).as_str());
        i = i + 1;
    }
    let mut args: Vec<String> = Vec::new();
    args.push(parameters);
    args.push(bounds);
    args.push(owned(call.pattern.as_str()));
    args.push(answers);
    args.push(arguments);
    assert(texts(args@) =~= seq![
        pattern_parameters_text(n as int),
        pattern_bounds_text(n as int),
        call.pattern@,
        pattern_answers_text(n as int),
        pattern_arguments_text(texts(call.args@), n as int),
    ]);
    fill(PATTERN_SOURCE, &args)
}

/// Reads the pattern and the generators in `text` and writes the source of
/// the generator of formatted strings.
pub fn expand_pattern(text: &str) -> (r: Result<String, DeriveError>)
    ensures
        outcome_is(source_outcome(r), pattern_expansion(text@)),
{
    match StringPatternCall::parse(text) {
        Err(e) => Err(e),
        Ok(call) => Ok(pattern_macro(&call)),
    }
}

} // verus!
