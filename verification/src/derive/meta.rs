//! What the directives of one annotation come to: for the builder and for the
//! generator, how an element is made and how many there are.
//!
//! Each of the four slots (the builder's element, the builder's count, the
//! generator's element, the generator's count) is filled by the first
//! directive that speaks of it; a later directive for a filled slot is passed
//! over.

use crate::derive::attributes::outcome;
use crate::derive::attributes::outcome_is;
use crate::derive::attributes::optional_text;
use crate::derive::attributes::directive_in;
use crate::derive::attributes::find_unknown_start;
use crate::derive::attributes::unknown_start;
use crate::derive::reading::expr_list;
use crate::derive::reading::read_exprs;
use crate::derive::reading::refusal;
use crate::derive::attributes::AttributeItem;
use crate::derive::attributes::AttributeItemView;
use crate::derive::attributes::Directive;
use crate::derive::error::DeriveError;
use crate::derive::error::DeriveErrorView;
use crate::derive::syntax::texts;
use crate::derive::table::values_view;
use crate::derive::table::AttributeValue;
use crate::derive::text::owned;
use vstd::prelude::*;

verus! {

/// How the builder makes an element.
pub enum BuildType {
    /// By the element type's own builder, with these fields set.
    Buildable(Vec<AttributeValue>),
    /// From an expression; `ty` is the type written behind a contextual one.
    Value { expr: String, ty: Option<String> },
    /// By the type's structural default.
    Default,
}

/// The model of a [`BuildType`].
pub enum BuildTypeView {
    Buildable(Seq<(Seq<char>, Seq<char>)>),
    Value { expr: Seq<char>, ty: Option<Seq<char>> },
    Default,
}

impl View for BuildType {
    type V = BuildTypeView;

    open spec fn view(&self) -> BuildTypeView {
        match self {
            BuildType::Buildable(table) => BuildTypeView::Buildable(values_view(table@)),
            BuildType::Value { expr, ty } => BuildTypeView::Value {
                expr: expr@,
                ty: optional_text(*ty),
            },
            BuildType::Default => BuildTypeView::Default,
        }
    }
}

/// How the generator makes an element.
pub enum GeneratorType {
    /// By a generator written as an expression; `ty` is the type written
    /// behind a contextual one.
    Generator { expr: String, ty: Option<String> },
    /// By the element type's own generator, with these fields' rules set.
    Generatable(Vec<AttributeValue>),
    /// As the builder does.
    Default,
}

/// The model of a [`GeneratorType`].
pub enum GeneratorTypeView {
    Generator { expr: Seq<char>, ty: Option<Seq<char>> },
    Generatable(Seq<(Seq<char>, Seq<char>)>),
    Default,
}

impl View for GeneratorType {
    type V = GeneratorTypeView;

    open spec fn view(&self) -> GeneratorTypeView {
        match self {
            GeneratorType::Generator { expr, ty } => GeneratorTypeView::Generator {
                expr: expr@,
                ty: optional_text(*ty),
            },
            GeneratorType::Generatable(table) => GeneratorTypeView::Generatable(
                values_view(table@),
            ),
            GeneratorType::Default => GeneratorTypeView::Default,
        }
    }
}

/// A count: the expression and, for a contextual one, the type written behind
/// it.
pub struct Count {
    pub expr: String,
    pub ty: Option<String>,
}

impl View for Count {
    type V = (Seq<char>, Option<Seq<char>>);

    open spec fn view(&self) -> (Seq<char>, Option<Seq<char>>) {
        (self.expr@, optional_text(self.ty))
    }
}

/// The model of an optional count.
pub open spec fn optional_count(c: Option<Count>) -> Option<(Seq<char>, Option<Seq<char>>)> {
    match c {
        Some(c) => Some(c@),
        None => None,
    }
}

/// The builder's side of an annotation.
pub struct BuilderData {
    pub element: BuildType,
    pub sequence: Option<Count>,
    pub needs_context: bool,
    pub sequence_needs_context: bool,
}

/// The model of a [`BuilderData`].
pub struct BuilderDataView {
    pub element: BuildTypeView,
    pub sequence: Option<(Seq<char>, Option<Seq<char>>)>,
    pub needs_context: bool,
    pub sequence_needs_context: bool,
}

impl View for BuilderData {
    type V = BuilderDataView;

    open spec fn view(&self) -> BuilderDataView {
        BuilderDataView {
            element: self.element@,
            sequence: optional_count(self.sequence),
            needs_context: self.needs_context,
            sequence_needs_context: self.sequence_needs_context,
        }
    }
}

/// The generator's side of an annotation.
pub struct GeneratorData {
    pub element: GeneratorType,
    pub sequence: Option<Count>,
    pub needs_context: bool,
    pub sequence_needs_context: bool,
}

/// The model of a [`GeneratorData`].
pub struct GeneratorDataView {
    pub element: GeneratorTypeView,
    pub sequence: Option<(Seq<char>, Option<Seq<char>>)>,
    pub needs_context: bool,
    pub sequence_needs_context: bool,
}

impl View for GeneratorData {
    type V = GeneratorDataView;

    open spec fn view(&self) -> GeneratorDataView {
        GeneratorDataView {
            element: self.element@,
            sequence: optional_count(self.sequence),
            needs_context: self.needs_context,
            sequence_needs_context: self.sequence_needs_context,
        }
    }
}

/// The model of an annotation: both sides.
pub struct MetaView {
    pub builder: BuilderDataView,
    pub generator: GeneratorDataView,
}

/// The annotation that says nothing.
pub open spec fn empty_meta() -> MetaView {
    MetaView {
        builder: BuilderDataView {
            element: BuildTypeView::Default,
            sequence: None,
            needs_context: false,
            sequence_needs_context: false,
        },
        generator: GeneratorDataView {
            element: GeneratorTypeView::Default,
            sequence: None,
            needs_context: false,
            sequence_needs_context: false,
        },
    }
}

impl Directive {
    /// Whether the directive is evaluated against the context.
    pub open spec fn with_context(self) -> bool {
        self == Directive::BuildableWithPersianRug || self == Directive::GeneratableWithPersianRug
            || self.contextual_value()
    }

    /// The name under which the directive is written.
    pub open spec fn spelling(self) -> Seq<char> {
        match self {
            Directive::Buildable => "buildable"@,
            Directive::BuildableWithPersianRug => "buildable_with_persian_rug"@,
            Directive::Default => "default"@,
            Directive::DefaultWithPersianRug => "default_with_persian_rug"@,
            Directive::Sequence => "sequence"@,
            Directive::SequenceWithPersianRug => "sequence_with_persian_rug"@,
            Directive::Generatable => "generatable"@,
            Directive::GeneratableWithPersianRug => "generatable_with_persian_rug"@,
            Directive::Generator => "generator"@,
            Directive::GeneratorWithPersianRug => "generator_with_persian_rug"@,
            Directive::SequenceGenerator => "sequence_generator"@,
            Directive::SequenceGeneratorWithPersianRug => "sequence_generator_with_persian_rug"@,
            Directive::Unknown => Seq::empty(),
        }
    }

    /// The name under which the directive is written.
    pub fn name(self) -> (s: String)
        ensures
            s@ == self.spelling(),
    {
        match self {
            Directive::Buildable => owned("buildable"),
            Directive::BuildableWithPersianRug => owned("buildable_with_persian_rug"),
            Directive::Default => owned("default"),
            Directive::DefaultWithPersianRug => owned("default_with_persian_rug"),
            Directive::Sequence => owned("sequence"),
            Directive::SequenceWithPersianRug => owned("sequence_with_persian_rug"),
            Directive::Generatable => owned("generatable"),
            Directive::GeneratableWithPersianRug => owned("generatable_with_persian_rug"),
            Directive::Generator => owned("generator"),
            Directive::GeneratorWithPersianRug => owned("generator_with_persian_rug"),
            Directive::SequenceGenerator => owned("sequence_generator"),
            Directive::SequenceGeneratorWithPersianRug => owned(
                "sequence_generator_with_persian_rug",
            ),
            Directive::Unknown => String::new(),
        }
    }
}

/// The annotation after one more directive: the directive fills its slot
/// where the slot is still empty, and changes nothing where it is filled.
pub open spec fn absorb(meta: MetaView, item: AttributeItemView) -> MetaView {
    let b = meta.builder;
    let g = meta.generator;
    let ctx = item.directive.with_context();
    match item.directive {
        Directive::Buildable | Directive::BuildableWithPersianRug => if b.element
            is Default {
            MetaView {
                builder: BuilderDataView {
                    element: BuildTypeView::Buildable(item.initializers),
                    needs_context: ctx,
                    ..b
                },
                generator: g,
            }
        } else {
            meta
        },
        Directive::Default | Directive::DefaultWithPersianRug => if b.element is Default {
            MetaView {
                builder: BuilderDataView {
                    element: BuildTypeView::Value { expr: item.expr, ty: item.ty },
                    needs_context: ctx,
                    ..b
                },
                generator: g,
            }
        } else {
            meta
        },
        Directive::Sequence | Directive::SequenceWithPersianRug => if b.sequence is None {
            MetaView {
                builder: BuilderDataView {
                    sequence: Some((item.expr, item.ty)),
                    sequence_needs_context: ctx,
                    ..b
                },
                generator: g,
            }
        } else {
            meta
        },
        Directive::Generatable | Directive::GeneratableWithPersianRug => if g.element
            is Default {
            MetaView {
                builder: b,
                generator: GeneratorDataView {
                    element: GeneratorTypeView::Generatable(item.initializers),
                    needs_context: ctx,
                    ..g
                },
            }
        } else {
            meta
        },
        Directive::Generator | Directive::GeneratorWithPersianRug => if g.element is Default {
            MetaView {
                builder: b,
                generator: GeneratorDataView {
                    element: GeneratorTypeView::Generator { expr: item.expr, ty: item.ty },
                    needs_context: ctx,
                    ..g
                },
            }
        } else {
            meta
        },
        Directive::SequenceGenerator | Directive::SequenceGeneratorWithPersianRug => if g.sequence
            is None {
            MetaView {
                builder: b,
                generator: GeneratorDataView {
                    sequence: Some((item.expr, item.ty)),
                    sequence_needs_context: ctx,
                    ..g
                },
            }
        } else {
            meta
        },
        Directive::Unknown => meta,
    }
}

/// The annotation that the first `n` of `items` come to.
pub open spec fn absorb_all(items: Seq<AttributeItemView>, n: int) -> MetaView
    decreases n,
{
    if n <= 0 {
        empty_meta()
    } else {
        absorb(absorb_all(items, n - 1), items[n - 1])
    }
}

/// The first contextual directive among the first `n` of `items`.
pub open spec fn first_contextual(items: Seq<AttributeItemView>, n: int) -> Option<Directive>
    decreases n,
{
    if n <= 0 {
        None
    } else {
        match first_contextual(items, n - 1) {
            Some(d) => Some(d),
            None => if items[n - 1].directive.with_context() {
                Some(items[n - 1].directive)
            } else {
                None
            },
        }
    }
}

/// What a vector of directives holds, one by one.
pub open spec fn items_view(v: Seq<AttributeItem>) -> Seq<AttributeItemView> {
    Seq::new(v.len(), |i: int| v[i]@)
}

/// The annotation that `items` come to where no context is at hand: a
/// contextual directive is refused, the first of them by name.
pub open spec fn plain_meta(items: Seq<AttributeItemView>) -> Result<MetaView, DeriveErrorView> {
    match first_contextual(items, items.len() as int) {
        Some(d) => Err(DeriveErrorView::OutsidePersianRug(d.spelling())),
        None => Ok(absorb_all(items, items.len() as int)),
    }
}

/// The directives that the first `n` of `parts` are read as, or the first
/// refusal among them.
pub open spec fn directives_in(parts: Seq<Seq<char>>, n: int) -> Result<
    Seq<AttributeItemView>,
    DeriveErrorView,
>
    decreases n,
{
    if n <= 0 {
        Ok(Seq::empty())
    } else {
        match directives_in(parts, n - 1) {
            Err(e) => Err(e),
            Ok(before) => match directive_in(parts[n - 1]) {
                Err(e) => Err(e),
                Ok(item) => Ok(before.push(item)),
            },
        }
    }
}

/// The directives written in an annotation's arguments, which are a list
/// separated by commas. Arguments that begin with a name that is none of the
/// library's are refused as unsupported, with that name, whatever follows.
pub open spec fn annotation_in(text: Seq<char>) -> Result<Seq<AttributeItemView>, DeriveErrorView> {
    if unknown_start(text) is Some {
        Err(DeriveErrorView::UnsupportedAttribute(unknown_start(text)->0))
    } else {
        match expr_list(text) {
            None => Err(refusal(text)),
            Some(parts) => directives_in(parts, parts.len() as int),
        }
    }
}

/// The annotation that `text` comes to where no context is at hand.
pub open spec fn meta_in(text: Seq<char>) -> Result<MetaView, DeriveErrorView> {
    match annotation_in(text) {
        Err(e) => Err(e),
        Ok(items) => plain_meta(items),
    }
}

/// The annotation that `text` comes to where a context is at hand.
pub open spec fn contextual_meta_in(text: Seq<char>) -> Result<MetaView, DeriveErrorView> {
    match annotation_in(text) {
        Err(e) => Err(e),
        Ok(items) => Ok(absorb_all(items, items.len() as int)),
    }
}

/// Both sides of an annotation read where no context is at hand.
pub struct BuilderMeta {
    pub builder: BuilderData,
    pub generator: GeneratorData,
}

impl View for BuilderMeta {
    type V = MetaView;

    open spec fn view(&self) -> MetaView {
        MetaView { builder: self.builder@, generator: self.generator@ }
    }
}

/// Both sides of an annotation read where a context is at hand.
pub struct BuilderMetaWithPersianRug {
    pub builder: BuilderData,
    pub generator: GeneratorData,
}

impl View for BuilderMetaWithPersianRug {
    type V = MetaView;

    open spec fn view(&self) -> MetaView {
        MetaView { builder: self.builder@, generator: self.generator@ }
    }
}

/// Lets one more directive fill its slot, where the slot is still empty.
pub fn absorb_item(builder: &mut BuilderData, generator: &mut GeneratorData, item: AttributeItem)
    ensures
        (MetaView { builder: final(builder)@, generator: final(generator)@ }) == absorb(
            MetaView { builder: old(builder)@, generator: old(generator)@ },
            item@,
        ),
{
    let builder_free = match &builder.element {
        BuildType::Default => true,
        _ => false,
    };
    let generator_free = match &generator.element {
        GeneratorType::Default => true,
        _ => false,
    };
    match item {
        AttributeItem::Buildable { initializers } => {
            if builder_free {
                builder.element = BuildType::Buildable(initializers);
                builder.needs_context = false;
            }
        },
        AttributeItem::BuildableWithPersianRug { initializers } => {
            if builder_free {
                builder.element = BuildType::Buildable(initializers);
                builder.needs_context = true;
            }
        },
        AttributeItem::Default { expr } => {
            if builder_free {
                builder.element = BuildType::Value { expr, ty: None };
                builder.needs_context = false;
            }
        },
        AttributeItem::DefaultWithPersianRug { expr, ty } => {
            if builder_free {
                builder.element = BuildType::Value { expr, ty };
                builder.needs_context = true;
            }
        },
        AttributeItem::Sequence { expr } => {
            if builder.sequence.is_none() {
                builder.sequence = Some(Count { expr, ty: None });
                builder.sequence_needs_context = false;
            }
        },
        AttributeItem::SequenceWithPersianRug { expr, ty } => {
            if builder.sequence.is_none() {
                builder.sequence = Some(Count { expr, ty });
                builder.sequence_needs_context = true;
            }
        },
        AttributeItem::Generatable { initializers } => {
            if generator_free {
                generator.element = GeneratorType::Generatable(initializers);
                generator.needs_context = false;
            }
        },
        AttributeItem::GeneratableWithPersianRug { initializers } => {
            if generator_free {
                generator.element = GeneratorType::Generatable(initializers);
                generator.needs_context = true;
            }
        },
        AttributeItem::Generator { expr } => {
            if generator_free {
                generator.element = GeneratorType::Generator { expr, ty: None };
                generator.needs_context = false;
            }
        },
        AttributeItem::GeneratorWithPersianRug { expr, ty } => {
            if generator_free {
                generator.element = GeneratorType::Generator { expr, ty };
                generator.needs_context = true;
            }
        },
        AttributeItem::SequenceGenerator { expr } => {
            if generator.sequence.is_none() {
                generator.sequence = Some(Count { expr, ty: None });
                generator.sequence_needs_context = false;
            }
        },
        AttributeItem::SequenceGeneratorWithPersianRug { expr, ty } => {
            if generator.sequence.is_none() {
                generator.sequence = Some(Count { expr, ty });
                generator.sequence_needs_context = true;
            }
        },
    }
}

/// The builder's side that says nothing.
pub fn empty_builder_data() -> (b: BuilderData)
    ensures
        b@ == empty_meta().builder,
{
    BuilderData {
        element: BuildType::Default,
        sequence: None,
        needs_context: false,
        sequence_needs_context: false,
    }
}

/// The generator's side that says nothing.
pub fn empty_generator_data() -> (g: GeneratorData)
    ensures
        g@ == empty_meta().generator,
{
    GeneratorData {
        element: GeneratorType::Default,
        sequence: None,
        needs_context: false,
        sequence_needs_context: false,
    }
}

/// The name of a directive.
pub fn directive_kind(item: &AttributeItem) -> (d: Directive)
    ensures
        d == item@.directive,
{
    match item {
        AttributeItem::Buildable { .. } => Directive::Buildable,
        AttributeItem::Default { .. } => Directive::Default,
        AttributeItem::Sequence { .. } => Directive::Sequence,
        AttributeItem::Generatable { .. } => Directive::Generatable,
        AttributeItem::Generator { .. } => Directive::Generator,
        AttributeItem::SequenceGenerator { .. } => Directive::SequenceGenerator,
        AttributeItem::BuildableWithPersianRug { .. } => Directive::BuildableWithPersianRug,
        AttributeItem::DefaultWithPersianRug { .. } => Directive::DefaultWithPersianRug,
        AttributeItem::SequenceWithPersianRug { .. } => Directive::SequenceWithPersianRug,
        AttributeItem::GeneratableWithPersianRug { .. } => Directive::GeneratableWithPersianRug,
        AttributeItem::GeneratorWithPersianRug { .. } => Directive::GeneratorWithPersianRug,
        AttributeItem::SequenceGeneratorWithPersianRug { .. } =>
            Directive::SequenceGeneratorWithPersianRug,
    }
}

impl Directive {
    /// Whether the directive is evaluated against the context.
    pub fn is_with_context(self) -> (r: bool)
        ensures
            r == self.with_context(),
    {
        self == Directive::BuildableWithPersianRug || self == Directive::GeneratableWithPersianRug
            || self.is_contextual_value()
    }
}

/// Reads the directives of an annotation's arguments, and stops at the first
/// that is refused.
pub fn parse_annotation(text: &str) -> (r: Result<Vec<AttributeItem>, DeriveError>)
    ensures
        outcome_is(
            match r {
                Ok(v) => Ok(items_view(v@)),
                Err(e) => Err(e@),
            },
            annotation_in(text@),
        ),
{
    match find_unknown_start(text) {
        Some(name) => {
            return Err(DeriveError::UnsupportedAttribute(name));
        },
        None => {},
    }
    match read_exprs(text) {
        Err(e) => Err(e),
        Ok(parts) => {
            let mut out: Vec<AttributeItem> = Vec::new();
            let n = parts.len();
            let mut i: usize = 0;
            assert(items_view(out@) =~= Seq::empty());
            while i < n
                invariant
                    i <= n,
                    n == parts@.len(),
                    unknown_start(text@) is None,
                    expr_list(text@) == Some(texts(parts@)),
                    directives_in(texts(parts@), i as int) == Ok::<_, DeriveErrorView>(
                        items_view(out@),
                    ),
                decreases n - i,
            {
                match AttributeItem::parse(parts[i].as_str()) {
                    Err(e) => {
                        proof {
                            lemma_directives_refused(texts(parts@), i as int + 1, n as int);
                        }
                        return Err(e);
                    },
                    Ok(item) => {
                        let ghost before = items_view(out@);
                        out.push(item);
                        assert(items_view(out@) =~= before.push(item@));
                    },
                }
                i = i + 1;
            }
            Ok(out)
        },
    }
}

/// A refusal among the first `k` parts is the refusal of any longer run.
pub proof fn lemma_directives_refused(parts: Seq<Seq<char>>, k: int, n: int)
    requires
        0 <= k <= n,
        directives_in(parts, k) is Err,
    ensures
        directives_in(parts, n) == directives_in(parts, k),
    decreases n - k,
{
    if k < n {
        lemma_directives_refused(parts, k, n - 1);
    }
}

/// A contextual directive among the first `k` items is the first of any
/// longer run.
pub proof fn lemma_first_contextual_stays(items: Seq<AttributeItemView>, k: int, n: int)
    requires
        0 <= k <= n,
        first_contextual(items, k) is Some,
    ensures
        first_contextual(items, n) == first_contextual(items, k),
    decreases n - k,
{
    if k < n {
        lemma_first_contextual_stays(items, k, n - 1);
    }
}

impl BuilderMetaWithPersianRug {
    /// The annotation that the directives come to.
    pub fn from_items(items: Vec<AttributeItem>) -> (meta: Self)
        ensures
            meta@ == absorb_all(items_view(items@), items@.len() as int),
    {
        let ghost all = items_view(items@);
        let mut items = items;
        let mut builder = empty_builder_data();
        let mut generator = empty_generator_data();
        let n = items.len();
        let mut i: usize = 0;
        while i < n
            invariant
                i <= n,
                n == all.len(),
                items@.len() == n - i,
                forall|j: int| 0 <= j < n - i ==> (#[trigger] items@[j])@ == all[i + j],
                (MetaView { builder: builder@, generator: generator@ }) == absorb_all(all, i as int),
            decreases n - i,
        {
            let item = items.remove(0);
            absorb_item(&mut builder, &mut generator, item);
            i = i + 1;
        }
        BuilderMetaWithPersianRug { builder, generator }
    }

    /// Reads an annotation's arguments.
    pub fn parse(text: &str) -> (r: Result<Self, DeriveError>)
        ensures
            outcome_is(outcome(r), contextual_meta_in(text@)),
    {
        match parse_annotation(text) {
            Err(e) => Err(e),
            Ok(items) => Ok(BuilderMetaWithPersianRug::from_items(items)),
        }
    }
}

impl BuilderMeta {
    /// The annotation that the directives come to, or the refusal of the
    /// first contextual directive among them.
    pub fn from_items(items: Vec<AttributeItem>) -> (r: Result<Self, DeriveError>)
        ensures
            outcome(r) == plain_meta(items_view(items@)),
    {
        let ghost all = items_view(items@);
        let n = items.len();
        let mut i: usize = 0;
        while i < n
            invariant
                i <= n,
                n == items@.len(),
                all == items_view(items@),
                first_contextual(all, i as int) is None,
            decreases n - i,
        {
            let d = directive_kind(&items[i]);
            if d.is_with_context() {
                proof {
                    lemma_first_contextual_stays(all, i as int + 1, n as int);
                }
                return Err(DeriveError::OutsidePersianRug(d.name()));
            }
            i = i + 1;
        }
        let meta = BuilderMetaWithPersianRug::from_items(items);
        Ok(BuilderMeta { builder: meta.builder, generator: meta.generator })
    }

    /// Reads an annotation's arguments.
    pub fn parse(text: &str) -> (r: Result<Self, DeriveError>)
        ensures
            outcome_is(outcome(r), meta_in(text@)),
    {
        match parse_annotation(text) {
            Err(e) => Err(e),
            Ok(items) => BuilderMeta::from_items(items),
        }
    }
}

/// How a directive says the builder makes an element, where it says so.
pub open spec fn builder_element_said(item: AttributeItemView) -> Option<BuildTypeView> {
    match item.directive {
        Directive::Buildable | Directive::BuildableWithPersianRug => Some(
            BuildTypeView::Buildable(item.initializers),
        ),
        Directive::Default | Directive::DefaultWithPersianRug => Some(
            BuildTypeView::Value { expr: item.expr, ty: item.ty },
        ),
        _ => None,
    }
}

/// How a directive says the generator makes an element, where it says so.
pub open spec fn generator_element_said(item: AttributeItemView) -> Option<GeneratorTypeView> {
    match item.directive {
        Directive::Generatable | Directive::GeneratableWithPersianRug => Some(
            GeneratorTypeView::Generatable(item.initializers),
        ),
        Directive::Generator | Directive::GeneratorWithPersianRug => Some(
            GeneratorTypeView::Generator { expr: item.expr, ty: item.ty },
        ),
        _ => None,
    }
}

/// The builder's element is as the first directive that speaks of it says,
/// whatever directives follow: of several ways to make an element, one is
/// in force, and it is the first written.
pub proof fn lemma_first_builder_element_wins(items: Seq<AttributeItemView>, k: int, n: int)
    requires
        0 <= k < n <= items.len(),
        builder_element_said(items[k]) is Some,
        forall|j: int| 0 <= j < k ==> builder_element_said(#[trigger] items[j]) is None,
    ensures
        absorb_all(items, n).builder.element == builder_element_said(items[k])->0,
        absorb_all(items, n).builder.needs_context == items[k].directive.with_context(),
    decreases n,
{
    if n - 1 > k {
        lemma_first_builder_element_wins(items, k, n - 1);
    } else {
        lemma_no_builder_element_said(items, k);
    }
}

/// Where no directive speaks of the builder's element, it is made by the
/// structural default.
pub proof fn lemma_no_builder_element_said(items: Seq<AttributeItemView>, n: int)
    requires
        0 <= n <= items.len(),
        forall|j: int| 0 <= j < n ==> builder_element_said(#[trigger] items[j]) is None,
    ensures
        absorb_all(items, n).builder.element is Default,
    decreases n,
{
    if n > 0 {
        lemma_no_builder_element_said(items, n - 1);
    }
}

/// The generator's element is as the first directive that speaks of it
/// says, whatever directives follow.
pub proof fn lemma_first_generator_element_wins(items: Seq<AttributeItemView>, k: int, n: int)
    requires
        0 <= k < n <= items.len(),
        generator_element_said(items[k]) is Some,
        forall|j: int| 0 <= j < k ==> generator_element_said(#[trigger] items[j]) is None,
    ensures
        absorb_all(items, n).generator.element == generator_element_said(items[k])->0,
        absorb_all(items, n).generator.needs_context == items[k].directive.with_context(),
    decreases n,
{
    if n - 1 > k {
        lemma_first_generator_element_wins(items, k, n - 1);
    } else {
        lemma_no_generator_element_said(items, k);
    }
}

/// Where no directive speaks of the generator's element, the generator does
/// as the builder does.
pub proof fn lemma_no_generator_element_said(items: Seq<AttributeItemView>, n: int)
    requires
        0 <= n <= items.len(),
        forall|j: int| 0 <= j < n ==> generator_element_said(#[trigger] items[j]) is None,
    ensures
        absorb_all(items, n).generator.element is Default,
    decreases n,
{
    if n > 0 {
        lemma_no_generator_element_said(items, n - 1);
    }
}

} // verus!
