//! Expression tree that the rewrite pass works on: a closed union with one
//! variant per node shape the pass inspects, plus an opaque variant for every
//! other host node, which the pass passes through unchanged.

use vstd::prelude::*;

verus! {

/// Mathematical value of an expression: the same shape as `Expr`, with
/// strings abstracted to character sequences. All contracts of the pass are
/// stated over these values.
#[verifier::ext_equal]
pub enum ExprV {
    Ident(Seq<char>),
    Member(Box<ExprV>, Seq<char>),
    Call { callee: Box<ExprV>, args: Seq<ExprV> },
    StrLit(Seq<char>),
    Tpl(TemplateV),
    TaggedTpl { tag: Box<ExprV>, tpl: TemplateV },
    Object(Seq<PropV>),
    Other(u64),
}

/// Mathematical value of a template: raw text chunks interleaved with hole
/// expressions. A well-formed template has one more chunk than holes.
#[verifier::ext_equal]
pub struct TemplateV {
    pub chunks: Seq<Seq<char>>,
    pub holes: Seq<ExprV>,
}

/// Mathematical value of one property of an object literal.
#[verifier::ext_equal]
pub enum PropV {
    KeyValue(Seq<char>, ExprV),
    Shorthand(Seq<char>),
    Other(u64),
}

/// Expression node. `Other` carries an opaque token standing for any host
/// node shape the pass does not inspect; such nodes round-trip unchanged.
#[derive(Debug, PartialEq, Eq)]
pub enum Expr {
    Ident(String),
    Member(Box<Expr>, String),
    Call { callee: Box<Expr>, args: Vec<Expr> },
    StrLit(String),
    Tpl(Template),
    TaggedTpl { tag: Box<Expr>, tpl: Template },
    Object(Vec<Prop>),
    Other(u64),
}

/// Template literal: ordered raw text chunks and the hole expressions
/// between them.
#[derive(Debug, PartialEq, Eq)]
pub struct Template {
    pub chunks: Vec<String>,
    pub holes: Vec<Expr>,
}

/// One property of an object literal: a key-value pair with an identifier
/// key, a shorthand binding, or an opaque property (spread, computed key).
#[derive(Debug, PartialEq, Eq)]
pub enum Prop {
    KeyValue(String, Expr),
    Shorthand(String),
    Other(u64),
}

pub open spec fn strings_view(s: Seq<String>) -> Seq<Seq<char>> {
    Seq::new(s.len(), |i: int| s[i]@)
}

pub open spec fn expr_view(e: Expr) -> ExprV
    decreases e,
{
    match e {
        Expr::Ident(name) => ExprV::Ident(name@),
        Expr::Member(obj, prop) => ExprV::Member(Box::new(expr_view(*obj)), prop@),
        Expr::Call { callee, args } => ExprV::Call {
            callee: Box::new(expr_view(*callee)),
            args: exprs_view(args),
        },
        Expr::StrLit(s) => ExprV::StrLit(s@),
        Expr::Tpl(t) => ExprV::Tpl(template_view(t)),
        Expr::TaggedTpl { tag, tpl } => ExprV::TaggedTpl {
            tag: Box::new(expr_view(*tag)),
            tpl: template_view(tpl),
        },
        Expr::Object(props) => ExprV::Object(props_view(props)),
        Expr::Other(k) => ExprV::Other(k),
    }
}

pub open spec fn exprs_view(v: Vec<Expr>) -> Seq<ExprV>
    decreases v,
{
    Seq::new(
        v@.len(),
        |i: int|
            if 0 <= i < v@.len() {
                expr_view(v[i])
            } else {
                arbitrary()
            },
    )
}

pub open spec fn template_view(t: Template) -> TemplateV
    decreases t,
{
    TemplateV { chunks: strings_view(t.chunks@), holes: exprs_view(t.holes) }
}

pub open spec fn prop_view(p: Prop) -> PropV
    decreases p,
{
    match p {
        Prop::KeyValue(k, e) => PropV::KeyValue(k@, expr_view(e)),
        Prop::Shorthand(k) => PropV::Shorthand(k@),
        Prop::Other(k) => PropV::Other(k),
    }
}

pub open spec fn props_view(v: Vec<Prop>) -> Seq<PropV>
    decreases v,
{
    Seq::new(
        v@.len(),
        |i: int|
            if 0 <= i < v@.len() {
                prop_view(v[i])
            } else {
                arbitrary()
            },
    )
}

impl View for Expr {
    type V = ExprV;

    open spec fn view(&self) -> ExprV {
        expr_view(*self)
    }
}

impl View for Template {
    type V = TemplateV;

    open spec fn view(&self) -> TemplateV {
        template_view(*self)
    }
}

impl View for Prop {
    type V = PropV;

    open spec fn view(&self) -> PropV {
        prop_view(*self)
    }
}

impl Expr {
    /// Deep copy; expression values are immutable and are cloned when they
    /// are moved into a newly built argument list.
    pub fn deep_clone(&self) -> (r: Expr)
        ensures
            r@ == self@,
        decreases *self,
    {
        match self {
            Expr::Ident(name) => Expr::Ident(name.clone()),
            Expr::Member(obj, prop) => Expr::Member(Box::new(obj.deep_clone()), prop.clone()),
            Expr::Call { callee, args } => {
                let r = Expr::Call {
                    callee: Box::new(callee.deep_clone()),
                    args: clone_exprs(args),
                };
                assert(r@ == self@);
                r
            },
            Expr::StrLit(s) => Expr::StrLit(s.clone()),
            Expr::Tpl(t) => Expr::Tpl(t.deep_clone()),
            Expr::TaggedTpl { tag, tpl } => {
                let r = Expr::TaggedTpl { tag: Box::new(tag.deep_clone()), tpl: tpl.deep_clone() };
                assert(r@ == self@);
                r
            },
            Expr::Object(props) => Expr::Object(clone_props(props)),
            Expr::Other(k) => Expr::Other(*k),
        }
    }
}

impl Template {
    pub fn deep_clone(&self) -> (r: Template)
        ensures
            r@ == self@,
        decreases *self,
    {
        let mut chunks: Vec<String> = Vec::new();
        let mut j: usize = 0;
        while j < self.chunks.len()
            invariant
                j <= self.chunks.len(),
                chunks@.len() == j as int,
                forall|k: int| 0 <= k < j ==> chunks@[k]@ == self.chunks@[k]@,
            decreases self.chunks.len() - j,
        {
            chunks.push(self.chunks[j].clone());
            j = j + 1;
        }
        let holes = clone_exprs(&self.holes);
        let r = Template { chunks, holes };
        assert(strings_view(r.chunks@) =~= strings_view(self.chunks@));
        assert(r@ == self@);
        r
    }
}

impl Prop {
    pub fn deep_clone(&self) -> (r: Prop)
        ensures
            r@ == self@,
        decreases *self,
    {
        match self {
            Prop::KeyValue(k, e) => Prop::KeyValue(k.clone(), e.deep_clone()),
            Prop::Shorthand(k) => Prop::Shorthand(k.clone()),
            Prop::Other(k) => Prop::Other(*k),
        }
    }
}

pub fn clone_exprs(v: &Vec<Expr>) -> (r: Vec<Expr>)
    ensures
        exprs_view(r) == exprs_view(*v),
    decreases *v,
{
    let mut r: Vec<Expr> = Vec::new();
    let mut j: usize = 0;
    while j < v.len()
        invariant
            j <= v.len(),
            r@.len() == j as int,
            forall|k: int| 0 <= k < j ==> expr_view(r@[k]) == expr_view(v@[k]),
        decreases v.len() - j,
    {
        r.push(v[j].deep_clone());
        j = j + 1;
    }
    assert(exprs_view(r) =~= exprs_view(*v));
    r
}

pub fn clone_props(v: &Vec<Prop>) -> (r: Vec<Prop>)
    ensures
        props_view(r) == props_view(*v),
    decreases *v,
{
    let mut r: Vec<Prop> = Vec::new();
    let mut j: usize = 0;
    while j < v.len()
        invariant
            j <= v.len(),
            r@.len() == j as int,
            forall|k: int| 0 <= k < j ==> prop_view(r@[k]) == prop_view(v@[k]),
        decreases v.len() - j,
    {
        r.push(v[j].deep_clone());
        j = j + 1;
    }
    assert(props_view(r) =~= props_view(*v));
    r
}

} // verus!
