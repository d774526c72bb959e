use vstd::prelude::*;

use crate::expr::{view_of, views_of, Expr, ExprContext, ExprKind, ExprView, has_role};

verus! {

/// The expression `v` with role `ctx` given to it and, through starred
/// expressions, lists and tuples, to every target nested in it. Variants
/// without a role are left as they are.
pub open spec fn with_role(v: ExprView, ctx: ExprContext) -> ExprView
    decreases v,
{
    match v.kind {
        ExprKind::Name | ExprKind::Attribute | ExprKind::Subscript => ExprView {
            ctx: Some(ctx),
            ..v
        },
        ExprKind::Starred | ExprKind::List | ExprKind::Tuple => ExprView {
            ctx: Some(ctx),
            children: Seq::new(
                v.children.len(),
                |i: int|
                    if 0 <= i < v.children.len() {
                        with_role(v.children[i], ctx)
                    } else {
                        arbitrary()
                    },
            ),
            ..v
        },
        _ => v,
    }
}

/// Gives role `ctx` to each expression of `elts` and to the targets nested in it.
fn set_elts_ctx(elts: &mut Vec<Expr>, ctx: ExprContext)
    ensures
        final(elts)@.len() == old(elts)@.len(),
        forall|j: int|
            0 <= j < old(elts)@.len() ==> #[trigger] views_of(final(elts)@)[j] == with_role(
                views_of(old(elts)@)[j],
                ctx,
            ),
    decreases *old(elts), 0nat,
{
    let ghost before = elts@;
    let ghost whole = *elts;
    let n = elts.len();
    let mut i: usize = 0;
    while i < n
        invariant
            elts@.len() == n,
            n == before.len(),
            whole@ == before,
            whole == *old(elts),
            0 <= i <= n,
            forall|j: int|
                0 <= j < i ==> #[trigger] views_of(elts@)[j] == with_role(views_of(before)[j], ctx),
            forall|j: int| i <= j < n ==> #[trigger] elts@[j] == before[j],
        decreases n - i,
    {
        proof {
            vstd::std_specs::vec::axiom_vec_index_decreases(whole, i as int);
        }
        let ghost prev = elts@;
        let elt = &mut elts[i];
        assert(decreases_to!(whole => *elt));
        set_expr_ctx(elt, ctx);
        assert forall|j: int| 0 <= j <= i implies #[trigger] views_of(elts@)[j] == with_role(
            views_of(before)[j],
            ctx,
        ) by {
            if j < i {
                assert(views_of(prev)[j] == view_of(prev[j]));
            }
        }
        i = i + 1;
    }
}

/// Sets the role of a name, an attribute, a subscript, a starred expression, a
/// list or a tuple; for the last three, also that of every target nested in
/// them. Other expressions are left as they are.
pub fn set_expr_ctx(expr: &mut Expr, ctx: ExprContext)
    ensures
        final(expr)@ == with_role(old(expr)@, ctx),
    decreases *old(expr), 1nat,
{
    let ghost before = *expr;
    match expr {
        Expr::Name(ident) => {
            ident.ctx = ctx;
        },
        Expr::Attribute(attrib) => {
            attrib.ctx = ctx;
        },
        Expr::Subscript(subscript) => {
            subscript.ctx = ctx;
        },
        Expr::Starred(starred) => {
            starred.ctx = ctx;
            set_expr_ctx(&mut starred.value, ctx);
            assert(expr@.children =~= with_role(before@, ctx).children);
        },
        Expr::List(list) => {
            list.ctx = ctx;
            set_elts_ctx(&mut list.elts, ctx);
            assert(expr@.children =~= with_role(before@, ctx).children);
        },
        Expr::Tuple(tuple) => {
            tuple.ctx = ctx;
            set_elts_ctx(&mut tuple.elts, ctx);
            assert(expr@.children =~= with_role(before@, ctx).children);
        },
        _ => {},
    }
}

/// Whether `v` holds role `ctx`, and so does each target nested in it through
/// starred expressions, lists and tuples.
pub open spec fn role_reaches(v: ExprView, ctx: ExprContext) -> bool
    decreases v,
{
    has_role(v.kind) ==> {
        &&& v.ctx == Some(ctx)
        &&& match v.kind {
            ExprKind::Starred | ExprKind::List | ExprKind::Tuple => forall|i: int|
                0 <= i < v.children.len() ==> role_reaches(#[trigger] v.children[i], ctx),
            _ => true,
        }
    }
}

/// Setting the role of an expression twice, to the same role, leaves it as
/// setting it once does.
pub proof fn lemma_set_expr_ctx_idempotent(v: ExprView, ctx: ExprContext)
    ensures
        with_role(with_role(v, ctx), ctx) == with_role(v, ctx),
    decreases v,
{
    let w = with_role(v, ctx);
    match v.kind {
        ExprKind::Starred | ExprKind::List | ExprKind::Tuple => {
            assert forall|i: int| 0 <= i < w.children.len() implies with_role(
                #[trigger] w.children[i],
                ctx,
            ) == w.children[i] by {
                lemma_set_expr_ctx_idempotent(v.children[i], ctx);
            }
            assert(with_role(w, ctx).children =~= w.children);
        },
        _ => {},
    }
}

/// Once an expression has been given a role, that role is held by the
/// expression itself, if it can hold one, and by every target nested in it
/// through starred expressions, lists and tuples, at any depth.
pub proof fn lemma_set_expr_ctx_reaches_nested_targets(v: ExprView, ctx: ExprContext)
    ensures
        role_reaches(with_role(v, ctx), ctx),
    decreases v,
{
    let w = with_role(v, ctx);
    match v.kind {
        ExprKind::Starred | ExprKind::List | ExprKind::Tuple => {
            assert forall|i: int| 0 <= i < w.children.len() implies role_reaches(
                #[trigger] w.children[i],
                ctx,
            ) by {
                lemma_set_expr_ctx_reaches_nested_targets(v.children[i], ctx);
            }
        },
        _ => {},
    }
}

} // verus!
