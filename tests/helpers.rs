use parser_helpers::expr::{
    set_expr_range, Expr, ExprAttribute, ExprContext, ExprList, ExprName, ExprStarred,
    ExprSubscript, ExprTuple,
};
use parser_helpers::role::set_expr_ctx;
use parser_helpers::target::{is_valid_assignment_target, is_valid_aug_assignment_target};
use parser_helpers::text_range::{remove_str_quotes, TextRange};

fn r(start: u32, end: u32) -> TextRange {
    TextRange::new(start, end)
}

fn name(id: &str, start: u32) -> Expr {
    Expr::Name(ExprName {
        range: r(start, start + id.len() as u32),
        id: id.to_string(),
        ctx: ExprContext::Load,
    })
}

fn starred(value: Expr, start: u32, end: u32) -> Expr {
    Expr::Starred(ExprStarred { range: r(start, end), value: Box::new(value), ctx: ExprContext::Load })
}

fn list(elts: Vec<Expr>, start: u32, end: u32) -> Expr {
    Expr::List(ExprList { range: r(start, end), elts, ctx: ExprContext::Load })
}

fn tuple(elts: Vec<Expr>, start: u32, end: u32) -> Expr {
    Expr::Tuple(ExprTuple { range: r(start, end), elts, ctx: ExprContext::Load })
}

fn attribute() -> Expr {
    // a.b
    Expr::Attribute(ExprAttribute {
        range: r(0, 3),
        value: Box::new(name("a", 0)),
        attr: "b".to_string(),
        ctx: ExprContext::Load,
    })
}

fn subscript() -> Expr {
    // a[0]
    Expr::Subscript(ExprSubscript {
        range: r(0, 4),
        value: Box::new(name("a", 0)),
        slice: Box::new(Expr::Literal(r(2, 3))),
        ctx: ExprContext::Load,
    })
}

/// `(a, [b, *c])`, with `c` replaced by a call when `call` is set.
fn nested_target(call: bool) -> Expr {
    let inner = if call { Expr::Call(r(9, 12)) } else { name("c", 9) };
    tuple(vec![name("a", 1), list(vec![name("b", 5), starred(inner, 8, 10)], 4, 11)], 0, 12)
}

fn elts(e: &Expr) -> &Vec<Expr> {
    match e {
        Expr::List(l) => &l.elts,
        Expr::Tuple(t) => &t.elts,
        _ => panic!("not a list or tuple"),
    }
}

#[test]
fn remove_quotes_single() {
    // "abc" at 10..15
    let s = remove_str_quotes(r(10, 15), 0, false);
    assert_eq!(s, r(11, 14));
    assert_eq!(s.len(), 3);
}

#[test]
fn remove_quotes_triple_with_prefix() {
    // rb"""abc""" at 4..15
    let s = remove_str_quotes(r(4, 15), 2, true);
    assert_eq!(s, r(9, 12));
    assert_eq!(s.len(), 15 - 4 - 2 - 2 * 3);
}

#[test]
fn remove_quotes_empty_literal() {
    // '' and f"""""" leave empty spans
    assert_eq!(remove_str_quotes(r(0, 2), 0, false), r(1, 1));
    assert_eq!(remove_str_quotes(r(3, 10), 1, true), r(7, 7));
}

#[test]
fn set_ctx_propagates_through_nested_list() {
    // (a, [b, c]) as a store target
    let mut e = tuple(vec![name("a", 1), list(vec![name("b", 5), name("c", 8)], 4, 10)], 0, 11);
    set_expr_ctx(&mut e, ExprContext::Store);
    assert_eq!(e.ctx(), Some(ExprContext::Store));
    let outer = elts(&e);
    assert_eq!(outer[0].ctx(), Some(ExprContext::Store));
    assert_eq!(outer[1].ctx(), Some(ExprContext::Store));
    let inner = elts(&outer[1]);
    assert_eq!(inner[0].ctx(), Some(ExprContext::Store));
    assert_eq!(inner[1].ctx(), Some(ExprContext::Store));
}

#[test]
fn set_ctx_four_role_nodes_store() {
    // a tuple holding a list of two names: all four get Store
    let mut e = tuple(vec![list(vec![name("x", 2), name("y", 5)], 1, 7)], 0, 9);
    set_expr_ctx(&mut e, ExprContext::Store);
    let l = &elts(&e)[0];
    let roles = [e.ctx(), l.ctx(), elts(l)[0].ctx(), elts(l)[1].ctx()];
    assert!(roles.iter().all(|c| *c == Some(ExprContext::Store)));
}

#[test]
fn set_ctx_starred_reaches_value() {
    let mut e = starred(name("a", 1), 0, 2);
    set_expr_ctx(&mut e, ExprContext::Del);
    assert_eq!(e.ctx(), Some(ExprContext::Del));
    match &e {
        Expr::Starred(s) => assert_eq!(s.value.ctx(), Some(ExprContext::Del)),
        _ => panic!("variant changed"),
    }
}

#[test]
fn set_ctx_leaves_attribute_value_and_other_variants() {
    let mut a = attribute();
    set_expr_ctx(&mut a, ExprContext::Store);
    assert_eq!(a.ctx(), Some(ExprContext::Store));
    match &a {
        Expr::Attribute(node) => {
            assert_eq!(node.value.ctx(), Some(ExprContext::Load));
            assert_eq!(node.attr, "b");
        }
        _ => panic!("variant changed"),
    }
    let mut call = Expr::Call(r(0, 3));
    set_expr_ctx(&mut call, ExprContext::Store);
    assert_eq!(call.ctx(), None);
    assert_eq!(call.range(), r(0, 3));
    // a call inside a list is left as it is, the list is not
    let mut l = list(vec![Expr::Call(r(1, 4)), name("b", 6)], 0, 8);
    set_expr_ctx(&mut l, ExprContext::Store);
    assert_eq!(elts(&l)[0].ctx(), None);
    assert_eq!(elts(&l)[1].ctx(), Some(ExprContext::Store));
}

#[test]
fn set_ctx_twice_same_as_once() {
    let mut once = nested_target(false);
    let mut twice = nested_target(false);
    set_expr_ctx(&mut once, ExprContext::Store);
    set_expr_ctx(&mut twice, ExprContext::Store);
    set_expr_ctx(&mut twice, ExprContext::Store);
    assert_eq!(format!("{:?}", once), format!("{:?}", twice));
}

#[test]
fn set_ctx_keeps_names_and_spans() {
    let mut e = nested_target(false);
    let before = format!("{:?}", e).replace("Load", "Store");
    set_expr_ctx(&mut e, ExprContext::Store);
    assert_eq!(format!("{:?}", e), before);
}

#[test]
fn nested_target_valid() {
    assert!(is_valid_assignment_target(&nested_target(false)));
}

#[test]
fn nested_target_with_call_invalid() {
    assert!(!is_valid_assignment_target(&nested_target(true)));
}

#[test]
fn simple_targets() {
    assert!(is_valid_assignment_target(&name("a", 0)));
    assert!(is_valid_assignment_target(&attribute()));
    assert!(is_valid_assignment_target(&subscript()));
    assert!(is_valid_assignment_target(&tuple(vec![], 0, 2)));
    assert!(is_valid_assignment_target(&list(vec![], 0, 2)));
    assert!(!is_valid_assignment_target(&Expr::Literal(r(0, 1))));
    assert!(!is_valid_assignment_target(&Expr::Call(r(0, 3))));
    assert!(!is_valid_assignment_target(&starred(Expr::Literal(r(1, 2)), 0, 2)));
    assert!(is_valid_assignment_target(&starred(name("a", 1), 0, 2)));
}

#[test]
fn aug_targets() {
    assert!(is_valid_aug_assignment_target(&attribute()));
    assert!(is_valid_aug_assignment_target(&subscript()));
    assert!(is_valid_aug_assignment_target(&name("a", 0)));
    assert!(!is_valid_aug_assignment_target(&tuple(vec![name("a", 1), name("b", 4)], 0, 6)));
    assert!(!is_valid_aug_assignment_target(&list(vec![name("a", 1), name("b", 4)], 0, 6)));
    assert!(!is_valid_aug_assignment_target(&starred(name("a", 1), 0, 2)));
    assert!(!is_valid_aug_assignment_target(&Expr::Literal(r(0, 1))));
}

#[test]
fn set_range_every_variant() {
    let mut all = vec![
        name("a", 0),
        attribute(),
        subscript(),
        starred(name("a", 1), 0, 2),
        list(vec![name("a", 1)], 0, 3),
        tuple(vec![name("a", 1)], 0, 3),
        Expr::Call(r(0, 1)),
        Expr::Dict(r(0, 1)),
        Expr::SetDisplay(r(0, 1)),
        Expr::BinOp(r(0, 1)),
        Expr::UnaryOp(r(0, 1)),
        Expr::BoolOp(r(0, 1)),
        Expr::Compare(r(0, 1)),
        Expr::IfExp(r(0, 1)),
        Expr::Lambda(r(0, 1)),
        Expr::NamedExpr(r(0, 1)),
        Expr::Yield(r(0, 1)),
        Expr::YieldFrom(r(0, 1)),
        Expr::Await(r(0, 1)),
        Expr::Slice(r(0, 1)),
        Expr::FString(r(0, 1)),
        Expr::FormattedValue(r(0, 1)),
        Expr::SetComp(r(0, 1)),
        Expr::ListComp(r(0, 1)),
        Expr::DictComp(r(0, 1)),
        Expr::GeneratorExp(r(0, 1)),
        Expr::Literal(r(0, 1)),
        Expr::Invalid(r(0, 1)),
    ];
    for e in all.iter_mut() {
        let ctx = e.ctx();
        set_expr_range(e, r(20, 42));
        assert_eq!(e.range(), r(20, 42));
        assert_eq!(e.ctx(), ctx);
    }
}

#[test]
fn set_range_keeps_children() {
    let mut e = nested_target(false);
    set_expr_range(&mut e, r(5, 17));
    assert_eq!(e.range(), r(5, 17));
    let inner = elts(&e);
    assert_eq!(inner[0].range(), r(1, 2));
    assert_eq!(inner[1].range(), r(4, 11));
}
