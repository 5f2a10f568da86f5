//! The description of a record that a derivation starts from.

use crate::derive::text::same_text;
use vstd::prelude::*;
use vstd::string::StringExecFns;

verus! {

/// One attribute: `#[path(args)]`. `args` is the text between the
/// parentheses, and `None` where the attribute has none.
pub struct Attribute {
    pub path: String,
    pub args: Option<String>,
}

/// One named field with its attributes. `ty` is the text of its type.
pub struct Field {
    pub attrs: Vec<Attribute>,
    pub ident: String,
    pub ty: String,
}

/// The kinds of generic parameter.
#[derive(Clone, Copy, PartialEq, Eq, Structural)]
pub enum ParamKind {
    Type,
    Lifetime,
    Const,
}

/// One generic parameter. `name` is its identifier, or its lifetime with the
/// apostrophe; `decl` is the parameter as the record declares it; `impl_decl`
/// is the parameter as an `impl` declares it, that is without its default.
pub struct GenericParam {
    pub kind: ParamKind,
    pub name: String,
    pub decl: String,
    pub impl_decl: String,
}

/// The generic parameters of a record and the predicates of its `where`
/// clause, which are `None` where it has no such clause.
pub struct Generics {
    pub params: Vec<GenericParam>,
    pub predicates: Option<String>,
}

/// A record: its attributes, its visibility as text, its name, its generics
/// and its named fields. `fields` is `None` for anything but a struct with
/// named fields.
pub struct DeriveInput {
    pub attrs: Vec<Attribute>,
    pub vis: String,
    pub ident: String,
    pub generics: Generics,
    pub fields: Option<Vec<Field>>,
}

/// The parameters as the record declares them, a comma in front of each.
pub open spec fn declared_params(params: Seq<GenericParam>, n: int) -> Seq<char>
    decreases n,
{
    if n <= 0 {
        Seq::empty()
    } else {
        declared_params(params, n - 1) + ", "@ + params[n - 1].decl@
    }
}

/// The parameter as an argument: its name, behind `const` for a constant.
pub open spec fn param_argument(p: GenericParam) -> Seq<char> {
    if p.kind == ParamKind::Const {
        "const "@ + p.name@
    } else {
        p.name@
    }
}

/// The parameters as arguments, a comma in front of each.
pub open spec fn param_arguments(params: Seq<GenericParam>, n: int) -> Seq<char>
    decreases n,
{
    if n <= 0 {
        Seq::empty()
    } else {
        param_arguments(params, n - 1) + ", "@ + param_argument(params[n - 1])
    }
}

/// The parameters as an `impl` declares them, a comma behind each.
pub open spec fn impl_params(params: Seq<GenericParam>, n: int) -> Seq<char>
    decreases n,
{
    if n <= 0 {
        Seq::empty()
    } else {
        impl_params(params, n - 1) + params[n - 1].impl_decl@ + ", "@
    }
}

/// The parameters' names, a comma behind each.
pub open spec fn param_names(params: Seq<GenericParam>, n: int) -> Seq<char>
    decreases n,
{
    if n <= 0 {
        Seq::empty()
    } else {
        param_names(params, n - 1) + params[n - 1].name@ + ", "@
    }
}

impl Generics {
    /// The parameters as declared, a comma in front of each.
    pub open spec fn bare_generics_text(self) -> Seq<char> {
        declared_params(self.params@, self.params@.len() as int)
    }

    /// The parameters as arguments, a comma in front of each.
    pub open spec fn bare_ty_generics_text(self) -> Seq<char> {
        param_arguments(self.params@, self.params@.len() as int)
    }

    /// The generics of an `impl` for the record: the parameters in angle
    /// brackets, or nothing where there are none.
    pub open spec fn impl_generics_text(self) -> Seq<char> {
        if self.params@.len() == 0 {
            Seq::empty()
        } else {
            "<"@ + impl_params(self.params@, self.params@.len() as int) + ">"@
        }
    }

    /// The arguments of the record's type: the names in angle brackets, or
    /// nothing where there are none.
    pub open spec fn ty_generics_text(self) -> Seq<char> {
        if self.params@.len() == 0 {
            Seq::empty()
        } else {
            "<"@ + param_names(self.params@, self.params@.len() as int) + ">"@
        }
    }

    /// The `where` clause, or nothing where there is none.
    pub open spec fn where_clause_text(self) -> Seq<char> {
        match self.predicates {
            Some(p) => "where "@ + p@,
            None => Seq::empty(),
        }
    }

    /// The predicates of the `where` clause, or nothing where there is none.
    pub open spec fn bare_where_text(self) -> Seq<char> {
        match self.predicates {
            Some(p) => p@,
            None => Seq::empty(),
        }
    }

    /// The parameters as declared, a comma in front of each.
    pub fn bare_generics(&self) -> (out: String)
        ensures
            out@ == self.bare_generics_text(),
    {
        let mut out = String::new();
        let n = self.params.len();
        let mut i: usize = 0;
        while i < n
            invariant
                i <= n,
                n == self.params@.len(),
                out@ == declared_params(self.params@, i as int),
            decreases n - i,
        {
            out.append(", ");
            out.append(self.params[i].decl.as_str());
            i = i + 1;
        }
        out
    }

    /// The parameters as arguments, a comma in front of each.
    pub fn bare_ty_generics(&self) -> (out: String)
        ensures
            out@ == self.bare_ty_generics_text(),
    {
        let mut out = String::new();
        let n = self.params.len();
        let mut i: usize = 0;
        while i < n
            invariant
                i <= n,
                n == self.params@.len(),
                out@ == param_arguments(self.params@, i as int),
            decreases n - i,
        {
            let ghost before = out@;
            out.append(", ");
            if self.params[i].kind == ParamKind::Const {
                out.append("const ");
                out.append(self.params[i].name.as_str());
                assert(out@ =~= before + ", "@ + ("const "@ + self.params@[i as int].name@));
            } else {
                out.append(self.params[i].name.as_str());
            }
            i = i + 1;
        }
        out
    }

    /// The generics of an `impl` for the record.
    pub fn impl_generics(&self) -> (out: String)
        ensures
            out@ == self.impl_generics_text(),
    {
        let n = self.params.len();
        if n == 0 {
            return String::new();
        }
        let mut list = String::new();
        let mut i: usize = 0;
        while i < n
            invariant
                i <= n,
                n == self.params@.len(),
                list@ == impl_params(self.params@, i as int),
            decreases n - i,
        {
            list.append(self.params[i].impl_decl.as_str());
            list.append(", ");
            i = i + 1;
        }
        let mut out = String::from_str("<");
        out.append(list.as_str());
        out.append(">");
        out
    }

    /// The arguments of the record's type.
    pub fn ty_generics(&self) -> (out: String)
        ensures
            out@ == self.ty_generics_text(),
    {
        let n = self.params.len();
        if n == 0 {
            return String::new();
        }
        let mut list = String::new();
        let mut i: usize = 0;
        while i < n
            invariant
                i <= n,
                n == self.params@.len(),
                list@ == param_names(self.params@, i as int),
            decreases n - i,
        {
            list.append(self.params[i].name.as_str());
            list.append(", ");
            i = i + 1;
        }
        let mut out = String::from_str("<");
        out.append(list.as_str());
        out.append(">");
        out
    }

    /// The `where` clause, or nothing where there is none.
    pub fn where_clause(&self) -> (out: String)
        ensures
            out@ == self.where_clause_text(),
    {
        match &self.predicates {
            Some(p) => {
                let mut out = String::from_str("where ");
                out.append(p.as_str());
                out
            },
            None => String::new(),
        }
    }

    /// The predicates of the `where` clause, or nothing where there is none.
    pub fn bare_where(&self) -> (out: String)
        ensures
            out@ == self.bare_where_text(),
    {
        match &self.predicates {
            Some(p) => String::from_str(p.as_str()),
            None => String::new(),
        }
    }
}

impl Attribute {
    /// Whether the attribute is one of this library's.
    pub open spec fn is_boulder(self) -> bool {
        self.path@ == "boulder"@
    }

    /// Whether the attribute is one of this library's.
    pub fn names_boulder(&self) -> (r: bool)
        ensures
            r == self.is_boulder(),
    {
        same_text(self.path.as_str(), "boulder")
    }
}

} // verus!
