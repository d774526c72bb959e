use vstd::prelude::*;

use crate::expr::{views_of, Expr, ExprContext, ExprKind, ExprView};
use crate::role::with_role;

verus! {

/// Whether expressions of this variant denote one single storage location.
pub open spec fn is_single_location(kind: ExprKind) -> bool {
    match kind {
        ExprKind::Name | ExprKind::Attribute | ExprKind::Subscript => true,
        _ => false,
    }
}

/// Whether `v` may stand on the left of an assignment: a name, an attribute or
/// a subscript; a starred valid target; a list or tuple of valid targets.
pub open spec fn is_target(v: ExprView) -> bool
    decreases v,
{
    match v.kind {
        ExprKind::Name | ExprKind::Attribute | ExprKind::Subscript => true,
        ExprKind::Starred => v.children.len() == 1 && is_target(v.children[0]),
        ExprKind::List | ExprKind::Tuple => forall|i: int|
            0 <= i < v.children.len() ==> is_target(#[trigger] v.children[i]),
        _ => false,
    }
}

/// Whether every expression of `elts` is a valid assignment target.
fn elts_are_targets(elts: &Vec<Expr>) -> (r: bool)
    ensures
        r == (forall|j: int| 0 <= j < elts@.len() ==> is_target(#[trigger] views_of(elts@)[j])),
    decreases *elts, 0nat,
{
    let n = elts.len();
    let mut i: usize = 0;
    while i < n
        invariant
            n == elts@.len(),
            0 <= i <= n,
            forall|j: int| 0 <= j < i ==> is_target(#[trigger] views_of(elts@)[j]),
        decreases n - i,
    {
        proof {
            vstd::std_specs::vec::axiom_vec_index_decreases(*elts, i as int);
        }
        if !is_valid_assignment_target(&elts[i]) {
            assert(!is_target(views_of(elts@)[i as int]));
            return false;
        }
        i = i + 1;
    }
    true
}

/// Whether `expr` may stand on the left of an assignment: a name, an attribute,
/// a subscript, a starred valid target, or a list or tuple whose elements are
/// all valid targets.
pub fn is_valid_assignment_target(expr: &Expr) -> (r: bool)
    ensures
        r == is_target(expr@),
    decreases *expr, 1nat,
{
    match expr {
        Expr::Starred(s) => is_valid_assignment_target(&s.value),
        Expr::List(l) => {
            assert(expr@.children == views_of(l.elts@));
            elts_are_targets(&l.elts)
        },
        Expr::Tuple(t) => {
            assert(expr@.children == views_of(t.elts@));
            elts_are_targets(&t.elts)
        },
        Expr::Name(_) | Expr::Attribute(_) | Expr::Subscript(_) => true,
        _ => false,
    }
}

/// Whether `expr` may stand on the left of an augmented assignment such as
/// `+=`: a single location (a name, an attribute or a subscript), never a
/// starred expression, a list or a tuple.
pub fn is_valid_aug_assignment_target(expr: &Expr) -> (r: bool)
    ensures
        r == is_single_location(expr@.kind),
{
    matches!(expr, Expr::Name(_) | Expr::Attribute(_) | Expr::Subscript(_))
}

/// Setting the role of an expression does not change whether it is a valid
/// assignment target.
pub proof fn lemma_set_expr_ctx_keeps_validity(v: ExprView, ctx: ExprContext)
    ensures
        is_target(with_role(v, ctx)) == is_target(v),
    decreases v,
{
    let w = with_role(v, ctx);
    match v.kind {
        ExprKind::Starred => {
            if v.children.len() == 1 {
                lemma_set_expr_ctx_keeps_validity(v.children[0], ctx);
            }
        },
        ExprKind::List | ExprKind::Tuple => {
            assert forall|i: int|
                #![trigger w.children[i]]
                #![trigger v.children[i]]
                0 <= i < v.children.len() implies is_target(w.children[i]) == is_target(
                    v.children[i],
                ) by {
                lemma_set_expr_ctx_keeps_validity(v.children[i], ctx);
            }
        },
        _ => {},
    }
}

} // verus!
