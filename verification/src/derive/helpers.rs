//! The record-level directive of the context-aware derivations:
//! `persian_rug(context = C, access(T, U))`.
//!
//! It names the context that the record is built against, and the types of
//! records in that context that the record's fields reach.

use crate::derive::attributes::outcome_is;
use crate::derive::reading::pieces_of;
use crate::derive::reading::read_pieces;
use crate::derive::reading::read_types;
use crate::derive::reading::refusal;
use crate::derive::reading::token_refusal;
use crate::derive::reading::type_list;
use crate::derive::element::fill1;
use crate::derive::error::DeriveError;
use crate::derive::error::DeriveErrorView;
use crate::derive::input::Attribute;
use crate::derive::syntax::pieces_view;
use crate::derive::syntax::texts;
use crate::derive::syntax::Delim;
use crate::derive::template::filled;
use crate::derive::syntax::Piece;
use crate::derive::syntax::PieceView;
use crate::derive::text::owned;
use crate::derive::text::same_text;
use vstd::prelude::*;
use vstd::string::StringExecFns;

verus! {

/// One constraint of the record-level directive.
pub enum ConstraintItem {
    /// `context = C`: the record is built against the context `C`.
    Context { value: String },
    /// `access(T, U)`: the record's fields reach records of these types.
    Access { items: Vec<String> },
}

/// The model of a [`ConstraintItem`].
pub enum ConstraintView {
    Context(Seq<char>),
    Access(Seq<Seq<char>>),
}

impl View for ConstraintItem {
    type V = ConstraintView;

    open spec fn view(&self) -> ConstraintView {
        match self {
            ConstraintItem::Context { value } => ConstraintView::Context(value@),
            ConstraintItem::Access { items } => ConstraintView::Access(texts(items@)),
        }
    }
}

/// What a vector of constraints holds, one by one.
pub open spec fn constraints_view(v: Seq<ConstraintItem>) -> Seq<ConstraintView> {
    Seq::new(v.len(), |i: int| v[i]@)
}

/// One record-level directive.
pub enum BoulderTypeAttr {
    /// `persian_rug(...)` with its constraints.
    PersianRugConstraints { constraints: Vec<ConstraintItem> },
}

impl View for BoulderTypeAttr {
    type V = Seq<ConstraintView>;

    open spec fn view(&self) -> Seq<ConstraintView> {
        match self {
            BoulderTypeAttr::PersianRugConstraints { constraints } => constraints_view(
                constraints@,
            ),
        }
    }
}

/// The name of the piece at `i`, where it is a name.
pub open spec fn name_at(pieces: Seq<PieceView>, i: int) -> Option<Seq<char>> {
    if 0 <= i < pieces.len() {
        match pieces[i] {
            PieceView::Ident(name) => Some(name),
            _ => None,
        }
    } else {
        None
    }
}

/// What stands inside the group at `i`, where the piece is a group in
/// parentheses.
pub open spec fn group_at(pieces: Seq<PieceView>, i: int) -> Option<Seq<char>> {
    if 0 <= i < pieces.len() {
        match pieces[i] {
            PieceView::Group(Delim::Paren, inner) => Some(inner),
            _ => None,
        }
    } else {
        None
    }
}

/// Whether the piece at `i` is the punctuation `c`.
pub open spec fn punct_at(pieces: Seq<PieceView>, i: int, c: char) -> bool {
    0 <= i < pieces.len() && pieces[i] == PieceView::Punct(c)
}

/// The constraint that starts at `i`, and the position behind it.
///
/// `context`, `=` and a name say the context. `access` and a group say the
/// types reached, which the group holds as a list separated by commas. A
/// known name in any other form is malformed; any other name is an
/// unsupported constraint.
pub open spec fn constraint_at(pieces: Seq<PieceView>, i: int) -> Result<
    (ConstraintView, int),
    DeriveErrorView,
> {
    match name_at(pieces, i) {
        None => Err(DeriveErrorView::Malformed(Seq::empty())),
        Some(name) => if name == "context"@ {
            if punct_at(pieces, i + 1, '=') {
                match name_at(pieces, i + 2) {
                    Some(value) => Ok((ConstraintView::Context(value), i + 3)),
                    None => Err(DeriveErrorView::Malformed(name)),
                }
            } else {
                Err(DeriveErrorView::Malformed(name))
            }
        } else if name == "access"@ {
            match group_at(pieces, i + 1) {
                Some(inner) => match type_list(inner) {
                    Some(types) => Ok((ConstraintView::Access(types), i + 2)),
                    None => Err(refusal(inner)),
                },
                None => Err(DeriveErrorView::Malformed(name)),
            }
        } else {
            Err(DeriveErrorView::UnsupportedConstraint(name))
        },
    }
}

/// The constraints from `i` on, which are separated by commas; a comma may
/// stand behind the last.
pub open spec fn constraints_from(pieces: Seq<PieceView>, i: int) -> Result<
    Seq<ConstraintView>,
    DeriveErrorView,
>
    decreases pieces.len() - i,
{
    if i < 0 || i >= pieces.len() {
        Ok(Seq::empty())
    } else {
        match constraint_at(pieces, i) {
            Err(e) => Err(e),
            Ok((item, next)) => if next <= i {
                Err(DeriveErrorView::Malformed(Seq::empty()))
            } else if next >= pieces.len() {
                Ok(seq![item])
            } else if punct_at(pieces, next, ',') {
                match constraints_from(pieces, next + 1) {
                    Err(e) => Err(e),
                    Ok(rest) => Ok(seq![item] + rest),
                }
            } else {
                Err(DeriveErrorView::Malformed(Seq::empty()))
            },
        }
    }
}

/// The constraints written in `text`.
pub open spec fn constraints_in(text: Seq<char>) -> Result<Seq<ConstraintView>, DeriveErrorView> {
    match pieces_of(text) {
        None => Err(token_refusal(text)),
        Some(pieces) => constraints_from(pieces, 0),
    }
}

/// The record-level directive that starts at `i`, and the position behind it:
/// `persian_rug` and a group that holds its constraints. Any other name is
/// an unsupported attribute.
pub open spec fn type_attr_at(pieces: Seq<PieceView>, i: int) -> Result<
    (Seq<ConstraintView>, int),
    DeriveErrorView,
> {
    match name_at(pieces, i) {
        None => Err(DeriveErrorView::Malformed(Seq::empty())),
        Some(name) => if name == "persian_rug"@ {
            match group_at(pieces, i + 1) {
                Some(inner) => match constraints_in(inner) {
                    Ok(constraints) => Ok((constraints, i + 2)),
                    Err(e) => Err(e),
                },
                None => Err(DeriveErrorView::Malformed(name)),
            }
        } else {
            Err(DeriveErrorView::UnsupportedAttribute(name))
        },
    }
}

/// The constraints of the record-level directives from `i` on, which are
/// separated by commas; a comma may stand behind the last.
pub open spec fn type_attrs_from(pieces: Seq<PieceView>, i: int) -> Result<
    Seq<ConstraintView>,
    DeriveErrorView,
>
    decreases pieces.len() - i,
{
    if i < 0 || i >= pieces.len() {
        Ok(Seq::empty())
    } else {
        match type_attr_at(pieces, i) {
            Err(e) => Err(e),
            Ok((items, next)) => if next <= i {
                Err(DeriveErrorView::Malformed(Seq::empty()))
            } else if next >= pieces.len() {
                Ok(items)
            } else if punct_at(pieces, next, ',') {
                match type_attrs_from(pieces, next + 1) {
                    Err(e) => Err(e),
                    Ok(rest) => Ok(items + rest),
                }
            } else {
                Err(DeriveErrorView::Malformed(Seq::empty()))
            },
        }
    }
}

/// The constraints of the record-level directives written in `text`.
pub open spec fn type_attrs_in(text: Seq<char>) -> Result<Seq<ConstraintView>, DeriveErrorView> {
    match pieces_of(text) {
        None => Err(token_refusal(text)),
        Some(pieces) => type_attrs_from(pieces, 0),
    }
}

/// The constraints of the first `n` attributes of a record, or the first
/// refusal among them. An attribute that is not this library's is passed
/// over.
pub open spec fn attrs_constraints(attrs: Seq<Attribute>, n: int) -> Result<
    Seq<ConstraintView>,
    DeriveErrorView,
>
    decreases n,
{
    if n <= 0 {
        Ok(Seq::empty())
    } else {
        match attrs_constraints(attrs, n - 1) {
            Err(e) => Err(e),
            Ok(before) => if !attrs[n - 1].is_boulder() {
                Ok(before)
            } else {
                match attrs[n - 1].args {
                    None => Err(DeriveErrorView::MissingArguments),
                    Some(text) => match type_attrs_in(text@) {
                        Err(e) => Err(e),
                        Ok(items) => Ok(before + items),
                    },
                }
            },
        }
    }
}

/// The context that the first `n` constraints name: the last that is named.
pub open spec fn named_context(constraints: Seq<ConstraintView>, n: int) -> Option<Seq<char>>
    decreases n,
{
    if n <= 0 {
        None
    } else {
        match constraints[n - 1] {
            ConstraintView::Context(value) => Some(value),
            _ => named_context(constraints, n - 1),
        }
    }
}

/// The types that the first `n` constraints reach, in the order written.
pub open spec fn reached_types(constraints: Seq<ConstraintView>, n: int) -> Seq<Seq<char>>
    decreases n,
{
    if n <= 0 {
        Seq::empty()
    } else {
        match constraints[n - 1] {
            ConstraintView::Access(types) => reached_types(constraints, n - 1) + types,
            _ => reached_types(constraints, n - 1),
        }
    }
}

/// The context of a record and the types it reaches; a record that names no
/// context is refused.
pub open spec fn record_constraints(attrs: Seq<Attribute>) -> Result<
    (Seq<char>, Seq<Seq<char>>),
    DeriveErrorView,
> {
    match attrs_constraints(attrs, attrs.len() as int) {
        Err(e) => Err(e),
        Ok(constraints) => match named_context(constraints, constraints.len() as int) {
            None => Err(DeriveErrorView::NoContext),
            Some(context) => Ok((context, reached_types(constraints, constraints.len() as int))),
        },
    }
}

/// The model of an outcome that is a constraint and a position.
pub open spec fn constraint_outcome(r: Result<(ConstraintItem, usize), DeriveError>) -> Result<
    (ConstraintView, int),
    DeriveErrorView,
> {
    match r {
        Ok((item, next)) => Ok((item@, next as int)),
        Err(e) => Err(e@),
    }
}

/// The model of an outcome that is a vector of constraints.
pub open spec fn constraints_outcome(r: Result<Vec<ConstraintItem>, DeriveError>) -> Result<
    Seq<ConstraintView>,
    DeriveErrorView,
> {
    match r {
        Ok(items) => Ok(constraints_view(items@)),
        Err(e) => Err(e@),
    }
}

/// An outcome with `before` in front of what it holds.
pub open spec fn preceded(
    before: Seq<ConstraintView>,
    r: Result<Seq<ConstraintView>, DeriveErrorView>,
) -> Result<Seq<ConstraintView>, DeriveErrorView> {
    match r {
        Ok(rest) => Ok(before + rest),
        Err(e) => Err(e),
    }
}

/// The name of the piece at `i`, where it is a name.
pub fn piece_name(pieces: &Vec<Piece>, i: usize) -> (r: Option<String>)
    ensures
        match r {
            Some(s) => name_at(pieces_view(pieces@), i as int) == Some(s@),
            None => name_at(pieces_view(pieces@), i as int) is None,
        },
{
    if i < pieces.len() {
        match &pieces[i] {
            Piece::Ident(name) => Some(owned(name.as_str())),
            _ => None,
        }
    } else {
        None
    }
}

/// What stands inside the group at `i`, where the piece is a group in
/// parentheses.
pub fn piece_group(pieces: &Vec<Piece>, i: usize) -> (r: Option<String>)
    ensures
        match r {
            Some(s) => group_at(pieces_view(pieces@), i as int) == Some(s@),
            None => group_at(pieces_view(pieces@), i as int) is None,
        },
{
    if i < pieces.len() {
        match &pieces[i] {
            Piece::Group(Delim::Paren, inner) => Some(owned(inner.as_str())),
            _ => None,
        }
    } else {
        None
    }
}

/// Whether the piece at `i` is the punctuation `c`.
pub fn piece_is(pieces: &Vec<Piece>, i: usize, c: char) -> (r: bool)
    ensures
        r == punct_at(pieces_view(pieces@), i as int, c),
{
    if i < pieces.len() {
        match &pieces[i] {
            Piece::Punct(p) => *p == c,
            _ => false,
        }
    } else {
        false
    }
}

impl ConstraintItem {
    /// Reads the constraint that starts at `i`, and says where it ends.
    pub fn parse(pieces: &Vec<Piece>, i: usize) -> (r: Result<(ConstraintItem, usize), DeriveError>)
        ensures
            outcome_is(constraint_outcome(r), constraint_at(pieces_view(pieces@), i as int)),
            r is Ok ==> r->Ok_0.1 > i,
    {
        match piece_name(pieces, i) {
            None => Err(DeriveError::Malformed(String::new())),
            Some(name) => {
                let n = pieces.len();
                assert(i < n);
                if same_text(name.as_str(), "context") {
                    if piece_is(pieces, i + 1, '=') {
                        assert(i + 1 < n);
                        match piece_name(pieces, i + 2) {
                            Some(value) => Ok((ConstraintItem::Context { value }, i + 3)),
                            None => Err(DeriveError::Malformed(name)),
                        }
                    } else {
                        Err(DeriveError::Malformed(name))
                    }
                } else if same_text(name.as_str(), "access") {
                    match piece_group(pieces, i + 1) {
                        Some(inner) => match read_types(inner.as_str()) {
                            Ok(items) => Ok((ConstraintItem::Access { items }, i + 2)),
                            Err(e) => Err(e),
                        },
                        None => Err(DeriveError::Malformed(name)),
                    }
                } else {
                    Err(DeriveError::UnsupportedConstraint(name))
                }
            },
        }
    }
}

/// Reads the constraints written in `text`.
pub fn parse_constraints(text: &str) -> (r: Result<Vec<ConstraintItem>, DeriveError>)
    ensures
        outcome_is(constraints_outcome(r), constraints_in(text@)),
{
    match read_pieces(text) {
        Err(e) => Err(e),
        Ok(pieces) => {
            let ghost all = pieces_view(pieces@);
            let n = pieces.len();
            let mut out: Vec<ConstraintItem> = Vec::new();
            let mut i: usize = 0;
            assert(constraints_view(out@) =~= Seq::empty());
            assert(Seq::<ConstraintView>::empty() + Seq::<ConstraintView>::empty() =~= Seq::empty());
            while i < n
                invariant
                    n == pieces@.len(),
                    all == pieces_view(pieces@),
                    pieces_of(text@) == Some(all),
                    outcome_is(
                        preceded(constraints_view(out@), constraints_from(all, i as int)),
                        constraints_from(all, 0),
                    ),
                    constraints_from(all, 0) is Ok ==> preceded(
                        constraints_view(out@),
                        constraints_from(all, i as int),
                    ) == constraints_from(all, 0),
                decreases n - i,
            {
                match ConstraintItem::parse(&pieces, i) {
                    Err(e) => {
                        return Err(e);
                    },
                    Ok((item, next)) => {
                        let ghost before = constraints_view(out@);
                        out.push(item);
                        assert(constraints_view(out@) =~= before + seq![item@]);
                        if next >= n {
                            assert(before + seq![item@] + Seq::<ConstraintView>::empty() =~= before
                                + seq![item@]);
                            return Ok(out);
                        } else if piece_is(&pieces, next, ',') {
                            assert forall|rest: Seq<ConstraintView>|
                                before + (seq![item@] + rest) == #[trigger] (before + seq![
                                    item@,
                                ] + rest) by {
                                assert(before + (seq![item@] + rest) =~= before + seq![item@]
                                    + rest);
                            }
                            i = next + 1;
                        } else {
                            return Err(DeriveError::Malformed(String::new()));
                        }
                    },
                }
            }
            assert(constraints_view(out@) + Seq::<ConstraintView>::empty() =~= constraints_view(
                out@,
            ));
            Ok(out)
        },
    }
}

/// The model of an outcome that is a record-level directive and a position.
pub open spec fn type_attr_outcome(r: Result<(BoulderTypeAttr, usize), DeriveError>) -> Result<
    (Seq<ConstraintView>, int),
    DeriveErrorView,
> {
    match r {
        Ok((attr, next)) => Ok((attr@, next as int)),
        Err(e) => Err(e@),
    }
}

impl BoulderTypeAttr {
    /// Reads the record-level directive that starts at `i`, and says where it
    /// ends.
    pub fn parse(pieces: &Vec<Piece>, i: usize) -> (r: Result<(BoulderTypeAttr, usize), DeriveError>)
        ensures
            outcome_is(type_attr_outcome(r), type_attr_at(pieces_view(pieces@), i as int)),
            r is Ok ==> r->Ok_0.1 > i,
    {
        match piece_name(pieces, i) {
            None => Err(DeriveError::Malformed(String::new())),
            Some(name) => {
                let n = pieces.len();
                assert(i < n);
                if same_text(name.as_str(), "persian_rug") {
                    match piece_group(pieces, i + 1) {
                        Some(inner) => match parse_constraints(inner.as_str()) {
                            Ok(constraints) => Ok(
                                (BoulderTypeAttr::PersianRugConstraints { constraints }, i + 2),
                            ),
                            Err(e) => Err(e),
                        },
                        None => Err(DeriveError::Malformed(name)),
                    }
                } else {
                    Err(DeriveError::UnsupportedAttribute(name))
                }
            },
        }
    }
}

/// Moves the constraints of `from` behind those of `to`.
pub fn append_constraints(to: &mut Vec<ConstraintItem>, from: Vec<ConstraintItem>)
    ensures
        constraints_view(final(to)@) == constraints_view(old(to)@) + constraints_view(from@),
{
    let ghost start = constraints_view(to@);
    let ghost added = constraints_view(from@);
    let mut from = from;
    let n = from.len();
    let mut i: usize = 0;
    assert(start + added.take(0) =~= start);
    while i < n
        invariant
            i <= n,
            n == added.len(),
            from@.len() == n - i,
            forall|j: int| 0 <= j < n - i ==> (#[trigger] from@[j])@ == added[i + j],
            constraints_view(to@) == start + added.take(i as int),
        decreases n - i,
    {
        let item = from.remove(0);
        let ghost before = constraints_view(to@);
        to.push(item);
        assert(constraints_view(to@) =~= before.push(item@));
        assert(start + added.take(i as int + 1) =~= (start + added.take(i as int)).push(
            added[i as int],
        ));
        i = i + 1;
    }
    assert(added.take(n as int) =~= added);
}

/// Reads the constraints of the record-level directives written in `text`.
pub fn parse_type_attrs(text: &str) -> (r: Result<Vec<ConstraintItem>, DeriveError>)
    ensures
        outcome_is(constraints_outcome(r), type_attrs_in(text@)),
{
    match read_pieces(text) {
        Err(e) => Err(e),
        Ok(pieces) => {
            let ghost all = pieces_view(pieces@);
            let n = pieces.len();
            let mut out: Vec<ConstraintItem> = Vec::new();
            let mut i: usize = 0;
            assert(constraints_view(out@) =~= Seq::empty());
            assert(Seq::<ConstraintView>::empty() + Seq::<ConstraintView>::empty() =~= Seq::empty());
            assert forall|rest: Seq<ConstraintView>|
                #[trigger] (Seq::<ConstraintView>::empty() + rest) == rest by {
                assert(Seq::<ConstraintView>::empty() + rest =~= rest);
            }
            while i < n
                invariant
                    n == pieces@.len(),
                    all == pieces_view(pieces@),
                    pieces_of(text@) == Some(all),
                    outcome_is(
                        preceded(constraints_view(out@), type_attrs_from(all, i as int)),
                        type_attrs_from(all, 0),
                    ),
                    type_attrs_from(all, 0) is Ok ==> preceded(
                        constraints_view(out@),
                        type_attrs_from(all, i as int),
                    ) == type_attrs_from(all, 0),
                decreases n - i,
            {
                match BoulderTypeAttr::parse(&pieces, i) {
                    Err(e) => {
                        return Err(e);
                    },
                    Ok((attr, next)) => {
                        let ghost before = constraints_view(out@);
                        let ghost items = attr@;
                        match attr {
                            BoulderTypeAttr::PersianRugConstraints { constraints } => {
                                append_constraints(&mut out, constraints);
                            },
                        }
                        if next >= n {
                            return Ok(out);
                        } else if piece_is(&pieces, next, ',') {
                            assert forall|rest: Seq<ConstraintView>|
                                before + (items + rest) == #[trigger] (before + items + rest) by {
                                assert(before + (items + rest) =~= before + items + rest);
                            }
                            i = next + 1;
                        } else {
                            return Err(DeriveError::Malformed(String::new()));
                        }
                    },
                }
            }
            assert(constraints_view(out@) + Seq::<ConstraintView>::empty() =~= constraints_view(
                out@,
            ));
            Ok(out)
        },
    }
}

/// The context that the constraints name: the last that is named.
pub fn context_of(constraints: &Vec<ConstraintItem>) -> (r: Option<String>)
    ensures
        match r {
            Some(s) => named_context(
                constraints_view(constraints@),
                constraints@.len() as int,
            ) == Some(s@),
            None => named_context(constraints_view(constraints@), constraints@.len() as int)
                is None,
        },
{
    let ghost all = constraints_view(constraints@);
    let mut i = constraints.len();
    while i > 0
        invariant
            i <= constraints@.len(),
            all == constraints_view(constraints@),
            named_context(all, all.len() as int) == named_context(all, i as int),
        decreases i,
    {
        match &constraints[i - 1] {
            ConstraintItem::Context { value } => {
                return Some(owned(value.as_str()));
            },
            _ => {},
        }
        i = i - 1;
    }
    None
}

/// The types that the constraints reach, in the order written.
pub fn types_of(constraints: &Vec<ConstraintItem>) -> (r: Vec<String>)
    ensures
        texts(r@) == reached_types(constraints_view(constraints@), constraints@.len() as int),
{
    let ghost all = constraints_view(constraints@);
    let mut out: Vec<String> = Vec::new();
    let n = constraints.len();
    let mut i: usize = 0;
    assert(texts(out@) =~= Seq::empty());
    while i < n
        invariant
            i <= n,
            n == constraints@.len(),
            all == constraints_view(constraints@),
            texts(out@) == reached_types(all, i as int),
        decreases n - i,
    {
        match &constraints[i] {
            ConstraintItem::Access { items } => {
                let ghost start = texts(out@);
                let m = items.len();
                let mut j: usize = 0;
                assert(start + texts(items@).take(0) =~= start);
                while j < m
                    invariant
                        j <= m,
                        m == items@.len(),
                        texts(out@) == start + texts(items@).take(j as int),
                    decreases m - j,
                {
                    let ghost before = texts(out@);
                    out.push(owned(items[j].as_str()));
                    assert(texts(out@) =~= before.push(items@[j as int]@));
                    assert(start + texts(items@).take(j as int + 1) =~= (start + texts(
                        items@,
                    ).take(j as int)).push(items@[j as int]@));
                    j = j + 1;
                }
                assert(texts(items@).take(m as int) =~= texts(items@));
            },
            _ => {},
        }
        i = i + 1;
    }
    out
}

/// A refusal among the first `k` attributes is the refusal of any longer run.
pub proof fn lemma_attrs_refused(attrs: Seq<Attribute>, k: int, n: int)
    requires
        0 <= k <= n,
        attrs_constraints(attrs, k) is Err,
    ensures
        attrs_constraints(attrs, n) == attrs_constraints(attrs, k),
    decreases n - k,
{
    if k < n {
        lemma_attrs_refused(attrs, k, n - 1);
    }
}

/// The model of an outcome that is a context and the types reached.
pub open spec fn reach_outcome(r: Result<(String, Vec<String>), DeriveError>) -> Result<
    (Seq<char>, Seq<Seq<char>>),
    DeriveErrorView,
> {
    match r {
        Ok((context, types)) => Ok((context@, texts(types@))),
        Err(e) => Err(e@),
    }
}

/// Finds the context that a record is built against and the types it
/// reaches, from the record's own attributes.
pub fn get_persian_rug_constraints(attrs: &Vec<Attribute>) -> (r: Result<
    (String, Vec<String>),
    DeriveError,
>)
    ensures
        outcome_is(reach_outcome(r), record_constraints(attrs@)),
{
    let mut all: Vec<ConstraintItem> = Vec::new();
    let n = attrs.len();
    let mut i: usize = 0;
    assert(constraints_view(all@) =~= Seq::empty());
    while i < n
        invariant
            i <= n,
            n == attrs@.len(),
            attrs_constraints(attrs@, i as int) == Ok::<_, DeriveErrorView>(
                constraints_view(all@),
            ),
        decreases n - i,
    {
        if attrs[i].names_boulder() {
            match &attrs[i].args {
                None => {
                    proof {
                        lemma_attrs_refused(attrs@, i as int + 1, n as int);
                    }
                    return Err(DeriveError::MissingArguments);
                },
                Some(text) => match parse_type_attrs(text.as_str()) {
                    Err(e) => {
                        proof {
                            lemma_attrs_refused(attrs@, i as int + 1, n as int);
                        }
                        return Err(e);
                    },
                    Ok(items) => {
                        append_constraints(&mut all, items);
                    },
                },
            }
        }
        i = i + 1;
    }
    match context_of(&all) {
        None => Err(DeriveError::NoContext),
        Some(context) => Ok((context, types_of(&all))),
    }
}

/// The constraint that names the context `$a`.
pub const CONTEXT_CONSTRAINT: &'static str = "context = $a";

/// The constraint that names the types `$a` that are reached.
pub const ACCESS_CONSTRAINT: &'static str = "access($a)";

/// The first `n` types, a comma behind each.
pub open spec fn type_list_text(types: Seq<Seq<char>>, n: int) -> Seq<char>
    decreases n,
{
    if n <= 0 {
        Seq::empty()
    } else {
        type_list_text(types, n - 1) + types[n - 1] + ", "@
    }
}

/// A constraint as it is written.
pub open spec fn constraint_text(constraint: ConstraintView) -> Seq<char> {
    match constraint {
        ConstraintView::Context(value) => filled(CONTEXT_CONSTRAINT@, seq![value]),
        ConstraintView::Access(types) => filled(
            ACCESS_CONSTRAINT@,
            seq![type_list_text(types, types.len() as int)],
        ),
    }
}

impl ConstraintItem {
    /// Writes the constraint.
    pub fn to_tokens(&self) -> (out: String)
        ensures
            out@ == constraint_text(self@),
    {
        match self {
            ConstraintItem::Context { value } => fill1(CONTEXT_CONSTRAINT, value.as_str()),
            ConstraintItem::Access { items } => {
                let mut list = String::new();
                let n = items.len();
                let mut i: usize = 0;
                while i < n
                    invariant
                        i <= n,
                        n == items@.len(),
                        list@ == type_list_text(texts(items@), i as int),
                    decreases n - i,
                {
                    list.append(items[i].as_str());
                    list.append(", ");
                    i = i + 1;
                }
                fill1(ACCESS_CONSTRAINT, list.as_str())
            },
        }
    }
}

} // verus!
