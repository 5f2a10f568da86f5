//! The directives that can stand on a field, and how one is read.

use crate::derive::error::DeriveError;
use crate::derive::error::DeriveErrorView;
use crate::derive::reading::outline;
use crate::derive::reading::pieces_of;
use crate::derive::reading::read_outline;
use crate::derive::reading::read_pieces;
use crate::derive::reading::refusal;
use crate::derive::tokens::lemma_never_unsupported;
use crate::derive::syntax::pieces_view;
use crate::derive::syntax::texts;
use crate::derive::syntax::syntax_message;
use crate::derive::syntax::ExprShape;
use crate::derive::syntax::ExprShapeView;
use crate::derive::syntax::Piece;
use crate::derive::syntax::PieceView;
use crate::derive::table::insert_value;
use crate::derive::table::lemma_table_of_sorted;
use crate::derive::table::table_sorted;
use crate::derive::table::table_of;
use crate::derive::table::values_view;
use crate::derive::table::AttributeValue;
use crate::derive::text::owned;
use crate::derive::text::same_text;
use vstd::prelude::*;

verus! {

/// The names that a directive can have.
#[derive(Clone, Copy, PartialEq, Eq, Structural)]
pub enum Directive {
    Buildable,
    BuildableWithPersianRug,
    Default,
    DefaultWithPersianRug,
    Sequence,
    SequenceWithPersianRug,
    Generatable,
    GeneratableWithPersianRug,
    Generator,
    GeneratorWithPersianRug,
    SequenceGenerator,
    SequenceGeneratorWithPersianRug,
    Unknown,
}

impl Directive {
    /// Whether the directive may carry a table of named values in
    /// parentheses, and nothing else.
    pub open spec fn nests(self) -> bool {
        self == Directive::Buildable || self == Directive::BuildableWithPersianRug || self
            == Directive::Generatable || self == Directive::GeneratableWithPersianRug
    }

    /// Whether the directive's value is evaluated against the context, and
    /// may therefore be followed by its type.
    pub open spec fn contextual_value(self) -> bool {
        self == Directive::DefaultWithPersianRug || self == Directive::SequenceWithPersianRug
            || self == Directive::GeneratorWithPersianRug || self
            == Directive::SequenceGeneratorWithPersianRug
    }

    /// Whether the directive may carry a table.
    pub fn is_nesting(self) -> (r: bool)
        ensures
            r == self.nests(),
    {
        self == Directive::Buildable || self == Directive::BuildableWithPersianRug || self
            == Directive::Generatable || self == Directive::GeneratableWithPersianRug
    }

    /// Whether the directive's value may be followed by its type.
    pub fn is_contextual_value(self) -> (r: bool)
        ensures
            r == self.contextual_value(),
    {
        self == Directive::DefaultWithPersianRug || self == Directive::SequenceWithPersianRug
            || self == Directive::GeneratorWithPersianRug || self
            == Directive::SequenceGeneratorWithPersianRug
    }
}

/// The directive that a name stands for.
pub open spec fn directive_named(name: Seq<char>) -> Directive {
    if name == "buildable"@ {
        Directive::Buildable
    } else if name == "buildable_with_persian_rug"@ {
        Directive::BuildableWithPersianRug
    } else if name == "default"@ {
        Directive::Default
    } else if name == "default_with_persian_rug"@ {
        Directive::DefaultWithPersianRug
    } else if name == "sequence"@ {
        Directive::Sequence
    } else if name == "sequence_with_persian_rug"@ {
        Directive::SequenceWithPersianRug
    } else if name == "generatable"@ {
        Directive::Generatable
    } else if name == "generatable_with_persian_rug"@ {
        Directive::GeneratableWithPersianRug
    } else if name == "generator"@ {
        Directive::Generator
    } else if name == "generator_with_persian_rug"@ {
        Directive::GeneratorWithPersianRug
    } else if name == "sequence_generator"@ {
        Directive::SequenceGenerator
    } else if name == "sequence_generator_with_persian_rug"@ {
        Directive::SequenceGeneratorWithPersianRug
    } else {
        Directive::Unknown
    }
}

/// Finds the directive that a name stands for.
pub fn directive_of(name: &str) -> (d: Directive)
    ensures
        d == directive_named(name@),
{
    if same_text(name, "buildable") {
        Directive::Buildable
    } else if same_text(name, "buildable_with_persian_rug") {
        Directive::BuildableWithPersianRug
    } else if same_text(name, "default") {
        Directive::Default
    } else if same_text(name, "default_with_persian_rug") {
        Directive::DefaultWithPersianRug
    } else if same_text(name, "sequence") {
        Directive::Sequence
    } else if same_text(name, "sequence_with_persian_rug") {
        Directive::SequenceWithPersianRug
    } else if same_text(name, "generatable") {
        Directive::Generatable
    } else if same_text(name, "generatable_with_persian_rug") {
        Directive::GeneratableWithPersianRug
    } else if same_text(name, "generator") {
        Directive::Generator
    } else if same_text(name, "generator_with_persian_rug") {
        Directive::GeneratorWithPersianRug
    } else if same_text(name, "sequence_generator") {
        Directive::SequenceGenerator
    } else if same_text(name, "sequence_generator_with_persian_rug") {
        Directive::SequenceGeneratorWithPersianRug
    } else {
        Directive::Unknown
    }
}

/// One directive as written on a field.
pub enum AttributeItem {
    Buildable { initializers: Vec<AttributeValue> },
    Default { expr: String },
    Sequence { expr: String },
    Generatable { initializers: Vec<AttributeValue> },
    Generator { expr: String },
    SequenceGenerator { expr: String },
    BuildableWithPersianRug { initializers: Vec<AttributeValue> },
    DefaultWithPersianRug { expr: String, ty: Option<String> },
    SequenceWithPersianRug { expr: String, ty: Option<String> },
    GeneratableWithPersianRug { initializers: Vec<AttributeValue> },
    GeneratorWithPersianRug { expr: String, ty: Option<String> },
    SequenceGeneratorWithPersianRug { expr: String, ty: Option<String> },
}

/// The model of a directive: its name, and what it carries. A directive with
/// a table has no expression, and one with an expression has an empty table.
pub struct AttributeItemView {
    pub directive: Directive,
    pub initializers: Seq<(Seq<char>, Seq<char>)>,
    pub expr: Seq<char>,
    pub ty: Option<Seq<char>>,
}

/// The model of an optional piece of text.
pub open spec fn optional_text(t: Option<String>) -> Option<Seq<char>> {
    match t {
        Some(s) => Some(s@),
        None => None,
    }
}

impl View for AttributeItem {
    type V = AttributeItemView;

    open spec fn view(&self) -> AttributeItemView {
        match self {
            AttributeItem::Buildable { initializers } => nested_item(
                Directive::Buildable,
                values_view(initializers@),
            ),
            AttributeItem::Default { expr } => valued_item(Directive::Default, expr@, None),
            AttributeItem::Sequence { expr } => valued_item(Directive::Sequence, expr@, None),
            AttributeItem::Generatable { initializers } => nested_item(
                Directive::Generatable,
                values_view(initializers@),
            ),
            AttributeItem::Generator { expr } => valued_item(Directive::Generator, expr@, None),
            AttributeItem::SequenceGenerator { expr } => valued_item(
                Directive::SequenceGenerator,
                expr@,
                None,
            ),
            AttributeItem::BuildableWithPersianRug { initializers } => nested_item(
                Directive::BuildableWithPersianRug,
                values_view(initializers@),
            ),
            AttributeItem::DefaultWithPersianRug { expr, ty } => valued_item(
                Directive::DefaultWithPersianRug,
                expr@,
                optional_text(*ty),
            ),
            AttributeItem::SequenceWithPersianRug { expr, ty } => valued_item(
                Directive::SequenceWithPersianRug,
                expr@,
                optional_text(*ty),
            ),
            AttributeItem::GeneratableWithPersianRug { initializers } => nested_item(
                Directive::GeneratableWithPersianRug,
                values_view(initializers@),
            ),
            AttributeItem::GeneratorWithPersianRug { expr, ty } => valued_item(
                Directive::GeneratorWithPersianRug,
                expr@,
                optional_text(*ty),
            ),
            AttributeItem::SequenceGeneratorWithPersianRug { expr, ty } => valued_item(
                Directive::SequenceGeneratorWithPersianRug,
                expr@,
                optional_text(*ty),
            ),
        }
    }
}

/// The model of a directive that carries a table.
pub open spec fn nested_item(
    directive: Directive,
    initializers: Seq<(Seq<char>, Seq<char>)>,
) -> AttributeItemView {
    AttributeItemView { directive, initializers, expr: Seq::empty(), ty: None }
}

/// The model of a directive that carries an expression.
pub open spec fn valued_item(
    directive: Directive,
    expr: Seq<char>,
    ty: Option<Seq<char>>,
) -> AttributeItemView {
    AttributeItemView { directive, initializers: Seq::empty(), expr, ty }
}

/// Whether an outcome is the expected one. An error of the Rust parser is
/// expected whatever its message says.
pub open spec fn outcome_is<T>(
    got: Result<T, DeriveErrorView>,
    expected: Result<T, DeriveErrorView>,
) -> bool {
    match (got, expected) {
        (Ok(a), Ok(b)) => a == b,
        (Err(DeriveErrorView::Syntax(_)), Err(DeriveErrorView::Syntax(_))) => true,
        (Err(a), Err(b)) => a == b,
        _ => false,
    }
}

/// The name among `pieces`, where they are one name and nothing else.
pub open spec fn lone_name(pieces: Option<Seq<PieceView>>) -> Option<Seq<char>> {
    match pieces {
        Some(pieces) => if pieces.len() == 1 {
            match pieces[0] {
                PieceView::Ident(name) => Some(name),
                _ => None,
            }
        } else {
            None
        },
        None => None,
    }
}

/// The named value that a shape stands for: `name = value`, with one name
/// and nothing else on the left. `text` is what the shape was read from,
/// `left` the token trees of its left side.
pub open spec fn named_value_from(
    text: Seq<char>,
    shape: ExprShapeView,
    left: Option<Seq<PieceView>>,
) -> Result<(Seq<char>, Seq<char>), DeriveErrorView> {
    match shape {
        ExprShapeView::Assign { left: _, right } => match lone_name(left) {
            Some(name) => Ok((name, right)),
            None => Err(DeriveErrorView::Malformed(text)),
        },
        _ => Err(DeriveErrorView::Malformed(text)),
    }
}

/// The named value that `text` is read as.
pub open spec fn named_value(text: Seq<char>) -> Result<(Seq<char>, Seq<char>), DeriveErrorView> {
    match outline(text) {
        None => Err(refusal(text)),
        Some(shape) => named_value_from(
            text,
            shape,
            match shape {
                ExprShapeView::Assign { left, right } => pieces_of(left),
                _ => None,
            },
        ),
    }
}

/// The named values that the first `n` of `args` are read as, or the first
/// refusal among them.
pub open spec fn named_values(args: Seq<Seq<char>>, n: int) -> Result<
    Seq<(Seq<char>, Seq<char>)>,
    DeriveErrorView,
>
    decreases n,
{
    if n <= 0 {
        Ok(Seq::empty())
    } else {
        match named_values(args, n - 1) {
            Err(e) => Err(e),
            Ok(before) => match named_value(args[n - 1]) {
                Err(e) => Err(e),
                Ok(entry) => Ok(before.push(entry)),
            },
        }
    }
}

/// A value and the type written behind it, where there is one. `shape` is the
/// outline of the value's text.
pub open spec fn value_and_type(text: Seq<char>, shape: Option<ExprShapeView>) -> (
    Seq<char>,
    Option<Seq<char>>,
) {
    match shape {
        Some(ExprShapeView::Typed { expr, ty }) => (expr, Some(ty)),
        _ => (text, None),
    }
}

/// The directive that a shape stands for.
///
/// A bare name is a nesting directive with an empty table. A name followed by
/// parentheses is a nesting directive with the table written there: `values`
/// are the named values read from its arguments, in order. A name, `=` and an
/// expression is a directive with that value; for a contextual directive a
/// type may follow the value after a colon, and `right` is the outline of
/// what stands behind the `=`. Any other form of a known name is malformed,
/// with the name, and so is an outline whose name is none of the library's,
/// with the whole text: an outline is never refused as unsupported, which is
/// for the first token to decide.
pub open spec fn directive_from(
    text: Seq<char>,
    shape: ExprShapeView,
    values: Result<Seq<(Seq<char>, Seq<char>)>, DeriveErrorView>,
    right: Option<ExprShapeView>,
) -> Result<AttributeItemView, DeriveErrorView> {
    match shape {
        ExprShapeView::Path(name) => {
            let d = directive_named(name);
            if d.nests() {
                Ok(nested_item(d, Seq::empty()))
            } else if d == Directive::Unknown {
                Err(DeriveErrorView::Malformed(text))
            } else {
                Err(DeriveErrorView::Malformed(name))
            }
        },
        ExprShapeView::Call { func, args } => {
            let d = directive_named(func);
            if d.nests() {
                match values {
                    Err(e) => Err(e),
                    Ok(entries) => Ok(nested_item(d, table_of(entries, entries.len() as int))),
                }
            } else if d == Directive::Unknown {
                Err(DeriveErrorView::Malformed(text))
            } else {
                Err(DeriveErrorView::Malformed(func))
            }
        },
        ExprShapeView::Assign { left, right: value } => {
            let d = directive_named(left);
            if d.contextual_value() {
                Ok(valued_item(d, value_and_type(value, right).0, value_and_type(value, right).1))
            } else if d.nests() {
                Err(DeriveErrorView::Malformed(left))
            } else if d == Directive::Unknown {
                Err(DeriveErrorView::Malformed(text))
            } else {
                Ok(valued_item(d, value, None))
            }
        },
        _ => Err(DeriveErrorView::Malformed(text)),
    }
}

/// The name that `pieces` begin with, where they begin with a name.
pub open spec fn first_name(pieces: Option<Seq<PieceView>>) -> Option<Seq<char>> {
    match pieces {
        Some(pieces) => if pieces.len() > 0 {
            match pieces[0] {
                PieceView::Ident(name) => Some(name),
                _ => None,
            }
        } else {
            None
        },
        None => None,
    }
}

/// The name that `text` begins with, where it begins with a name that is
/// none of the library's directives.
pub open spec fn unknown_start(text: Seq<char>) -> Option<Seq<char>> {
    match first_name(pieces_of(text)) {
        Some(name) => if directive_named(name) == Directive::Unknown {
            Some(name)
        } else {
            None
        },
        None => None,
    }
}

/// The directive that `text` is read as.
///
/// The first token decides whether the directive is known: text that begins
/// with a name that is none of the library's is refused as unsupported, with
/// that name, whatever follows it. Any other text is read as one expression,
/// and stands for what [`directive_from`] says of its outline.
pub open spec fn directive_in(text: Seq<char>) -> Result<AttributeItemView, DeriveErrorView> {
    if unknown_start(text) is Some {
        Err(DeriveErrorView::UnsupportedAttribute(unknown_start(text)->0))
    } else {
        match outline(text) {
            None => Err(refusal(text)),
            Some(shape) => directive_from(
                text,
                shape,
                match shape {
                    ExprShapeView::Call { func, args } => named_values(args, args.len() as int),
                    _ => Ok(Seq::empty()),
                },
                match shape {
                    ExprShapeView::Assign { left, right } => outline(right),
                    _ => None,
                },
            ),
        }
    }
}

/// No named value is refused as unsupported.
pub proof fn lemma_values_never_unsupported(args: Seq<Seq<char>>, n: int)
    ensures
        !(named_values(args, n) is Err && named_values(args, n)->Err_0 is UnsupportedAttribute),
    decreases n,
{
    if n > 0 {
        lemma_values_never_unsupported(args, n - 1);
        lemma_never_unsupported(args[n - 1]);
        if outline(args[n - 1]) is Some {
            let shape = outline(args[n - 1])->0;
            match shape {
                ExprShapeView::Assign { left, right } => {},
                _ => {},
            }
        }
    }
}

/// A directive is refused as unsupported where its first token is a name
/// that is none of the library's, with that name, and nowhere else.
pub proof fn lemma_unsupported_by_first_name_only(text: Seq<char>)
    ensures
        unknown_start(text) is Some ==> directive_in(text) == Err::<AttributeItemView, _>(
            DeriveErrorView::UnsupportedAttribute(unknown_start(text)->0),
        ),
        unknown_start(text) is None ==> !(directive_in(text) is Err && directive_in(
            text,
        )->Err_0 is UnsupportedAttribute),
{
    if unknown_start(text) is None {
        lemma_never_unsupported(text);
        if outline(text) is Some {
            match outline(text)->0 {
                ExprShapeView::Call { func, args } => {
                    lemma_values_never_unsupported(args, args.len() as int);
                },
                _ => {},
            }
        }
    }
}

/// The model of an outcome.
pub open spec fn outcome<T: View>(r: Result<T, DeriveError>) -> Result<T::V, DeriveErrorView> {
    match r {
        Ok(v) => Ok(v@),
        Err(e) => Err(e@),
    }
}

/// The model of an outcome that is a vector of named values.
pub open spec fn values_outcome(r: Result<Vec<AttributeValue>, DeriveError>) -> Result<
    Seq<(Seq<char>, Seq<char>)>,
    DeriveErrorView,
> {
    match r {
        Ok(v) => Ok(values_view(v@)),
        Err(e) => Err(e@),
    }
}

/// The model of an optional shape.
pub open spec fn optional_shape(s: Option<ExprShape>) -> Option<ExprShapeView> {
    match s {
        Some(s) => Some(s@),
        None => None,
    }
}

/// The model of optional pieces.
pub open spec fn optional_pieces(p: Option<Vec<Piece>>) -> Option<Seq<PieceView>> {
    match p {
        Some(p) => Some(pieces_view(p@)),
        None => None,
    }
}

/// The error that carries the Rust parser's message.
pub fn refused(error: &syn::Error) -> (e: DeriveError)
    ensures
        e is Syntax,
{
    DeriveError::Syntax(syntax_message(error))
}

impl AttributeValue {
    /// The named value that a shape stands for. `text` is what the shape was
    /// read from, `left` the token trees of its left side.
    pub fn from_shape(text: &str, shape: ExprShape, left: Option<Vec<Piece>>) -> (r: Result<
        AttributeValue,
        DeriveError,
    >)
        ensures
            outcome(r) == named_value_from(text@, shape@, optional_pieces(left)),
    {
        match shape {
            ExprShape::Assign(_, right) => {
                match left {
                    Some(mut pieces) => {
                        if pieces.len() == 1 {
                            let piece = pieces.remove(0);
                            match piece {
                                Piece::Ident(name) => Ok(AttributeValue { name, value: right }),
                                _ => Err(DeriveError::Malformed(owned(text))),
                            }
                        } else {
                            Err(DeriveError::Malformed(owned(text)))
                        }
                    },
                    None => Err(DeriveError::Malformed(owned(text))),
                }
            },
            _ => Err(DeriveError::Malformed(owned(text))),
        }
    }

    /// Reads `name = value`.
    pub fn parse(text: &str) -> (r: Result<AttributeValue, DeriveError>)
        ensures
            outcome_is(outcome(r), named_value(text@)),
    {
        match read_outline(text) {
            Err(e) => Err(e),
            Ok(shape) => {
                let left = match &shape {
                    ExprShape::Assign(left, right) => match read_pieces(left.as_str()) {
                        Ok(p) => Some(p),
                        Err(_) => None,
                    },
                    _ => None,
                };
                AttributeValue::from_shape(text, shape, left)
            },
        }
    }
}

/// Finds the name that `text` begins with, where it begins with a name that
/// is none of the library's directives.
pub fn find_unknown_start(text: &str) -> (r: Option<String>)
    ensures
        optional_text(r) == unknown_start(text@),
{
    match read_pieces(text) {
        Ok(pieces) => {
            if pieces.len() > 0 {
                match &pieces[0] {
                    Piece::Ident(name) => {
                        if directive_of(name.as_str()) == Directive::Unknown {
                            Some(owned(name.as_str()))
                        } else {
                            None
                        }
                    },
                    _ => None,
                }
            } else {
                None
            }
        },
        Err(_) => None,
    }
}

/// Reads the arguments of a nesting directive as named values, and stops at
/// the first that is refused.
pub fn parse_values(args: &Vec<String>) -> (r: Result<Vec<AttributeValue>, DeriveError>)
    ensures
        outcome_is(values_outcome(r), named_values(texts(args@), args@.len() as int)),
{
    let mut out: Vec<AttributeValue> = Vec::new();
    let n = args.len();
    let mut i: usize = 0;
    assert(values_view(out@) =~= Seq::empty());
    while i < n
        invariant
            i <= n,
            n == args@.len(),
            named_values(texts(args@), i as int) == Ok::<_, DeriveErrorView>(values_view(out@)),
        decreases n - i,
    {
        match AttributeValue::parse(args[i].as_str()) {
            Err(e) => {
                proof {
                    lemma_values_refused(texts(args@), i as int + 1, n as int);
                }
                return Err(e);
            },
            Ok(v) => {
                let ghost before = values_view(out@);
                out.push(v);
                assert(values_view(out@) =~= before.push(v@));
            },
        }
        i = i + 1;
    }
    Ok(out)
}

/// A refusal among the first `k` arguments is the refusal of any longer run.
pub proof fn lemma_values_refused(args: Seq<Seq<char>>, k: int, n: int)
    requires
        0 <= k <= n,
        named_values(args, k) is Err,
    ensures
        named_values(args, n) == named_values(args, k),
    decreases n - k,
{
    if k < n {
        lemma_values_refused(args, k, n - 1);
    }
}

/// Binds the entries one after the other into a table in the order of names.
pub fn table_from(entries: Vec<AttributeValue>) -> (table: Vec<AttributeValue>)
    ensures
        values_view(table@) == table_of(values_view(entries@), entries@.len() as int),
        table_sorted(values_view(table@)),
{
    proof {
        lemma_table_of_sorted(values_view(entries@), entries@.len() as int);
    }
    let ghost all = values_view(entries@);
    let mut entries = entries;
    let mut table: Vec<AttributeValue> = Vec::new();
    let n = entries.len();
    let mut i: usize = 0;
    assert(values_view(table@) =~= Seq::empty());
    while i < n
        invariant
            i <= n,
            n == all.len(),
            entries@.len() == n - i,
            forall|j: int| 0 <= j < n - i ==> (#[trigger] entries@[j])@ == all[i + j],
            values_view(table@) == table_of(all, i as int),
        decreases n - i,
    {
        let entry = entries.remove(0);
        insert_value(&mut table, entry.name, entry.value);
        i = i + 1;
    }
    table
}

impl AttributeItem {
    /// The nesting directive `d` with its table.
    pub fn nested(d: Directive, initializers: Vec<AttributeValue>) -> (item: AttributeItem)
        requires
            d.nests(),
        ensures
            item@ == nested_item(d, values_view(initializers@)),
    {
        match d {
            Directive::Buildable => AttributeItem::Buildable { initializers },
            Directive::BuildableWithPersianRug => AttributeItem::BuildableWithPersianRug {
                initializers,
            },
            Directive::Generatable => AttributeItem::Generatable { initializers },
            _ => AttributeItem::GeneratableWithPersianRug { initializers },
        }
    }

    /// The directive `d` with its value and, for a contextual directive, the
    /// type written behind it.
    pub fn valued(d: Directive, expr: String, ty: Option<String>) -> (item: AttributeItem)
        requires
            !d.nests(),
            d != Directive::Unknown,
            !d.contextual_value() ==> ty is None,
        ensures
            item@ == valued_item(d, expr@, optional_text(ty)),
    {
        match d {
            Directive::Default => AttributeItem::Default { expr },
            Directive::Sequence => AttributeItem::Sequence { expr },
            Directive::Generator => AttributeItem::Generator { expr },
            Directive::SequenceGenerator => AttributeItem::SequenceGenerator { expr },
            Directive::DefaultWithPersianRug => AttributeItem::DefaultWithPersianRug { expr, ty },
            Directive::SequenceWithPersianRug => AttributeItem::SequenceWithPersianRug {
                expr,
                ty,
            },
            Directive::GeneratorWithPersianRug => AttributeItem::GeneratorWithPersianRug {
                expr,
                ty,
            },
            _ => AttributeItem::SequenceGeneratorWithPersianRug { expr, ty },
        }
    }

    /// The directive that a shape stands for. `text` is what the shape was
    /// read from; `values` are the named values read from the arguments of a
    /// call, or the first refusal among them; `right` is the outline of what
    /// stands behind a `=`.
    pub fn from_shape(
        text: &str,
        shape: ExprShape,
        values: Result<Vec<AttributeValue>, DeriveError>,
        right: Option<ExprShape>,
    ) -> (r: Result<AttributeItem, DeriveError>)
        ensures
            outcome(r) == directive_from(
                text@,
                shape@,
                values_outcome(values),
                optional_shape(right),
            ),
    {
        match shape {
            ExprShape::Path(name) => {
                let d = directive_of(name.as_str());
                if d.is_nesting() {
                    let item = AttributeItem::nested(d, Vec::new());
                    assert(values_view(Seq::<AttributeValue>::empty()) =~= Seq::empty());
                    Ok(item)
                } else if d == Directive::Unknown {
                    Err(DeriveError::Malformed(owned(text)))
                } else {
                    Err(DeriveError::Malformed(name))
                }
            },
            ExprShape::Call(func, args) => {
                let d = directive_of(func.as_str());
                if d.is_nesting() {
                    match values {
                        Err(e) => Err(e),
                        Ok(entries) => Ok(AttributeItem::nested(d, table_from(entries))),
                    }
                } else if d == Directive::Unknown {
                    Err(DeriveError::Malformed(owned(text)))
                } else {
                    Err(DeriveError::Malformed(func))
                }
            },
            ExprShape::Assign(left, value) => {
                let d = directive_of(left.as_str());
                if d.is_contextual_value() {
                    match right {
                        Some(ExprShape::Typed(expr, ty)) => Ok(
                            AttributeItem::valued(d, expr, Some(ty)),
                        ),
                        _ => Ok(AttributeItem::valued(d, value, None)),
                    }
                } else if d.is_nesting() {
                    Err(DeriveError::Malformed(left))
                } else if d == Directive::Unknown {
                    Err(DeriveError::Malformed(owned(text)))
                } else {
                    Ok(AttributeItem::valued(d, value, None))
                }
            },
            _ => Err(DeriveError::Malformed(owned(text))),
        }
    }

    /// Reads one directive.
    pub fn parse(text: &str) -> (r: Result<AttributeItem, DeriveError>)
        ensures
            outcome_is(outcome(r), directive_in(text@)),
    {
        match find_unknown_start(text) {
            Some(name) => {
                return Err(DeriveError::UnsupportedAttribute(name));
            },
            None => {},
        }
        match read_outline(text) {
            Err(e) => Err(e),
            Ok(shape) => {
                let values = match &shape {
                    ExprShape::Call(func, args) => parse_values(args),
                    _ => Ok(Vec::new()),
                };
                let right = match &shape {
                    ExprShape::Assign(left, right) => match read_outline(right.as_str()) {
                        Ok(s) => Some(s),
                        Err(_) => None,
                    },
                    _ => None,
                };
                proof {
                    assert(values_view(Seq::<AttributeValue>::empty()) =~= Seq::empty());
                    lemma_outcome_through(text@, shape@, values_outcome(values), match shape@ {
                        ExprShapeView::Call { func, args } => named_values(args, args.len() as int),
                        _ => Ok(Seq::empty()),
                    }, optional_shape(right));
                }
                AttributeItem::from_shape(text, shape, values, right)
            },
        }
    }
}

/// Expected named values give the expected directive.
pub proof fn lemma_outcome_through(
    text: Seq<char>,
    shape: ExprShapeView,
    got: Result<Seq<(Seq<char>, Seq<char>)>, DeriveErrorView>,
    expected: Result<Seq<(Seq<char>, Seq<char>)>, DeriveErrorView>,
    right: Option<ExprShapeView>,
)
    requires
        outcome_is(got, expected),
    ensures
        outcome_is(
            directive_from(text, shape, got, right),
            directive_from(text, shape, expected, right),
        ),
{
}

} // verus!
