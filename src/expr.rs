use vstd::prelude::*;

use crate::text_range::TextRange;

verus! {

/// How an expression is used where it stands: read, written to, or deleted.
#[derive(Clone, Copy, Debug, PartialEq, Eq, Structural)]
pub enum ExprContext {
    Load,
    Store,
    Del,
}

/// The variant of an expression, without its contents.
#[derive(Clone, Copy, Debug, PartialEq, Eq, Structural)]
pub enum ExprKind {
    Name,
    Attribute,
    Subscript,
    Starred,
    List,
    Tuple,
    Call,
    Dict,
    SetDisplay,
    BinOp,
    UnaryOp,
    BoolOp,
    Compare,
    IfExp,
    Lambda,
    NamedExpr,
    Yield,
    YieldFrom,
    Await,
    Slice,
    FString,
    FormattedValue,
    SetComp,
    ListComp,
    DictComp,
    GeneratorExp,
    Literal,
    Invalid,
}

/// A variable reference, such as `a`.
#[derive(Debug)]
pub struct ExprName {
    pub range: TextRange,
    pub id: String,
    pub ctx: ExprContext,
}

/// An attribute access, such as `a.b`.
#[derive(Debug)]
pub struct ExprAttribute {
    pub range: TextRange,
    pub value: Box<Expr>,
    pub attr: String,
    pub ctx: ExprContext,
}

/// A subscript, such as `a[0]`.
#[derive(Debug)]
pub struct ExprSubscript {
    pub range: TextRange,
    pub value: Box<Expr>,
    pub slice: Box<Expr>,
    pub ctx: ExprContext,
}

/// A starred expression, such as `*a`.
#[derive(Debug)]
pub struct ExprStarred {
    pub range: TextRange,
    pub value: Box<Expr>,
    pub ctx: ExprContext,
}

/// A list display, such as `[a, b]`.
#[derive(Debug)]
pub struct ExprList {
    pub range: TextRange,
    pub elts: Vec<Expr>,
    pub ctx: ExprContext,
}

/// A tuple, such as `(a, b)`.
#[derive(Debug)]
pub struct ExprTuple {
    pub range: TextRange,
    pub elts: Vec<Expr>,
    pub ctx: ExprContext,
}

/// An expression node. The six variants that may denote a storage location
/// carry a role; every variant carries its span in the source text.
#[derive(Debug)]
pub enum Expr {
    Name(ExprName),
    Attribute(ExprAttribute),
    Subscript(ExprSubscript),
    Starred(ExprStarred),
    List(ExprList),
    Tuple(ExprTuple),
    Call(TextRange),
    Dict(TextRange),
    SetDisplay(TextRange),
    BinOp(TextRange),
    UnaryOp(TextRange),
    BoolOp(TextRange),
    Compare(TextRange),
    IfExp(TextRange),
    Lambda(TextRange),
    NamedExpr(TextRange),
    Yield(TextRange),
    YieldFrom(TextRange),
    Await(TextRange),
    Slice(TextRange),
    FString(TextRange),
    FormattedValue(TextRange),
    SetComp(TextRange),
    ListComp(TextRange),
    DictComp(TextRange),
    GeneratorExp(TextRange),
    Literal(TextRange),
    Invalid(TextRange),
}

/// What an expression is, as a mathematical value: its variant, its span, its
/// role (`None` for variants that have none), its identifier (the name of a
/// `Name`, the attribute of an `Attribute`, empty otherwise) and its
/// sub-expressions in source order (the value of an `Attribute` or a `Starred`,
/// the value and slice of a `Subscript`, the elements of a `List` or a `Tuple`).
pub struct ExprView {
    pub kind: ExprKind,
    pub range: TextRange,
    pub ctx: Option<ExprContext>,
    pub ident: Seq<char>,
    pub children: Seq<ExprView>,
}

/// The views of a sequence of expressions, in order.
pub open spec fn views_of(s: Seq<Expr>) -> Seq<ExprView>
    decreases s, 0nat,
{
    Seq::new(s.len(), |i: int| if 0 <= i < s.len() { view_of(s[i]) } else { arbitrary() })
}

impl View for Expr {
    type V = ExprView;

    open spec fn view(&self) -> ExprView {
        view_of(*self)
    }
}

/// The view of `e`; see [`ExprView`].
pub open spec fn view_of(e: Expr) -> ExprView
    decreases e, 1nat,
{
        match e {
            Expr::Name(n) => ExprView {
                kind: ExprKind::Name,
                range: n.range,
                ctx: Some(n.ctx),
                ident: n.id@,
                children: Seq::empty(),
            },
            Expr::Attribute(a) => ExprView {
                kind: ExprKind::Attribute,
                range: a.range,
                ctx: Some(a.ctx),
                ident: a.attr@,
                children: seq![view_of(*a.value)],
            },
            Expr::Subscript(s) => ExprView {
                kind: ExprKind::Subscript,
                range: s.range,
                ctx: Some(s.ctx),
                ident: Seq::empty(),
                children: seq![view_of(*s.value), view_of(*s.slice)],
            },
            Expr::Starred(s) => ExprView {
                kind: ExprKind::Starred,
                range: s.range,
                ctx: Some(s.ctx),
                ident: Seq::empty(),
                children: seq![view_of(*s.value)],
            },
            Expr::List(l) => ExprView {
                kind: ExprKind::List,
                range: l.range,
                ctx: Some(l.ctx),
                ident: Seq::empty(),
                children: views_of(l.elts@),
            },
            Expr::Tuple(t) => ExprView {
                kind: ExprKind::Tuple,
                range: t.range,
                ctx: Some(t.ctx),
                ident: Seq::empty(),
                children: views_of(t.elts@),
            },
            Expr::Call(r) => leaf_view(ExprKind::Call, r),
            Expr::Dict(r) => leaf_view(ExprKind::Dict, r),
            Expr::SetDisplay(r) => leaf_view(ExprKind::SetDisplay, r),
            Expr::BinOp(r) => leaf_view(ExprKind::BinOp, r),
            Expr::UnaryOp(r) => leaf_view(ExprKind::UnaryOp, r),
            Expr::BoolOp(r) => leaf_view(ExprKind::BoolOp, r),
            Expr::Compare(r) => leaf_view(ExprKind::Compare, r),
            Expr::IfExp(r) => leaf_view(ExprKind::IfExp, r),
            Expr::Lambda(r) => leaf_view(ExprKind::Lambda, r),
            Expr::NamedExpr(r) => leaf_view(ExprKind::NamedExpr, r),
            Expr::Yield(r) => leaf_view(ExprKind::Yield, r),
            Expr::YieldFrom(r) => leaf_view(ExprKind::YieldFrom, r),
            Expr::Await(r) => leaf_view(ExprKind::Await, r),
            Expr::Slice(r) => leaf_view(ExprKind::Slice, r),
            Expr::FString(r) => leaf_view(ExprKind::FString, r),
            Expr::FormattedValue(r) => leaf_view(ExprKind::FormattedValue, r),
            Expr::SetComp(r) => leaf_view(ExprKind::SetComp, r),
            Expr::ListComp(r) => leaf_view(ExprKind::ListComp, r),
            Expr::DictComp(r) => leaf_view(ExprKind::DictComp, r),
            Expr::GeneratorExp(r) => leaf_view(ExprKind::GeneratorExp, r),
            Expr::Literal(r) => leaf_view(ExprKind::Literal, r),
            Expr::Invalid(r) => leaf_view(ExprKind::Invalid, r),
        }
}

/// The view of a variant that has no role and whose contents are not modelled.
pub open spec fn leaf_view(kind: ExprKind, range: TextRange) -> ExprView {
    ExprView { kind, range, ctx: None, ident: Seq::empty(), children: Seq::empty() }
}

/// Whether expressions of this variant may denote a storage location, and so
/// carry a role.
pub open spec fn has_role(kind: ExprKind) -> bool {
    match kind {
        ExprKind::Name | ExprKind::Attribute | ExprKind::Subscript | ExprKind::Starred
        | ExprKind::List | ExprKind::Tuple => true,
        _ => false,
    }
}

impl Expr {
    /// The span of this expression in the source text.
    pub fn range(&self) -> (r: TextRange)
        ensures
            r == self@.range,
    {
        match self {
            Expr::Name(node) => node.range,
            Expr::Attribute(node) => node.range,
            Expr::Subscript(node) => node.range,
            Expr::Starred(node) => node.range,
            Expr::List(node) => node.range,
            Expr::Tuple(node) => node.range,
            Expr::Call(r) | Expr::Dict(r) | Expr::SetDisplay(r) | Expr::BinOp(r) | Expr::UnaryOp(r)
            | Expr::BoolOp(r) | Expr::Compare(r) | Expr::IfExp(r) | Expr::Lambda(r) | Expr::NamedExpr(
                r,
            ) | Expr::Yield(r) | Expr::YieldFrom(r) | Expr::Await(r) | Expr::Slice(r) | Expr::FString(
                r,
            ) | Expr::FormattedValue(r) | Expr::SetComp(r) | Expr::ListComp(r) | Expr::DictComp(r)
            | Expr::GeneratorExp(r) | Expr::Literal(r) | Expr::Invalid(r) => *r,
        }
    }

    /// The role of this expression, or `None` for a variant that has none.
    pub fn ctx(&self) -> (r: Option<ExprContext>)
        ensures
            r == self@.ctx,
    {
        match self {
            Expr::Name(node) => Some(node.ctx),
            Expr::Attribute(node) => Some(node.ctx),
            Expr::Subscript(node) => Some(node.ctx),
            Expr::Starred(node) => Some(node.ctx),
            Expr::List(node) => Some(node.ctx),
            Expr::Tuple(node) => Some(node.ctx),
            _ => None,
        }
    }
}

/// Sets the span of `expr`, whatever its variant; nothing else changes.
pub fn set_expr_range(expr: &mut Expr, range: TextRange)
    ensures
        final(expr)@ == (ExprView { range, ..old(expr)@ }),
{
    match expr {
        Expr::Name(node) => node.range = range,
        Expr::Attribute(node) => node.range = range,
        Expr::Subscript(node) => node.range = range,
        Expr::Starred(node) => node.range = range,
        Expr::List(node) => node.range = range,
        Expr::Tuple(node) => node.range = range,
        Expr::Call(r) => *r = range,
        Expr::Dict(r) => *r = range,
        Expr::SetDisplay(r) => *r = range,
        Expr::BinOp(r) => *r = range,
        Expr::UnaryOp(r) => *r = range,
        Expr::BoolOp(r) => *r = range,
        Expr::Compare(r) => *r = range,
        Expr::IfExp(r) => *r = range,
        Expr::Lambda(r) => *r = range,
        Expr::NamedExpr(r) => *r = range,
        Expr::Yield(r) => *r = range,
        Expr::YieldFrom(r) => *r = range,
        Expr::Await(r) => *r = range,
        Expr::Slice(r) => *r = range,
        Expr::FString(r) => *r = range,
        Expr::FormattedValue(r) => *r = range,
        Expr::SetComp(r) => *r = range,
        Expr::ListComp(r) => *r = range,
        Expr::DictComp(r) => *r = range,
        Expr::GeneratorExp(r) => *r = range,
        Expr::Literal(r) => *r = range,
        Expr::Invalid(r) => *r = range,
    }
}

} // verus!
