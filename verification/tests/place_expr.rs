//! The mutability / place-expression checker.

use mun_hir::body::{
    BindingAnnotation, Body, Expr, ExprId, Literal, Pat, Resolver,
};
use mun_hir::ids::PatId;
use mun_hir::item_scope::{builtin_scope, ItemScope};
use mun_hir::mut_bind::InferenceResultBuilder;
use mun_hir::name::Name;

fn name(text: &str) -> Name {
    Name::new(String::from(text))
}

fn resolver_with(bindings: Vec<(&str, usize)>) -> Resolver {
    let mut resolver = Resolver::new(ItemScope::new(), builtin_scope());
    for (n, pat) in bindings {
        resolver.add_local_binding(name(n), PatId(pat));
    }
    resolver
}

/// The body of `fn f(mut x: i32) { x = 1; }`: one mutable binding and the
/// assignment target `x`.
fn body_with_binding(mode: BindingAnnotation) -> Body {
    Body {
        exprs: vec![Expr::Path(name("x"))],
        pats: vec![Pat::Bind { mode, name: name("x") }],
    }
}

#[test]
fn mutable_binding_is_a_mutable_place() {
    let body = body_with_binding(BindingAnnotation::Mutable);
    let resolver = resolver_with(vec![("x", 0)]);
    let mut builder = InferenceResultBuilder::new(body);
    assert!(builder.check_mut_bind(&resolver, ExprId(0)));
}

#[test]
fn non_mutable_binding_is_not_a_mutable_place() {
    let body = body_with_binding(BindingAnnotation::Unannotated);
    let resolver = resolver_with(vec![("x", 0)]);
    let mut builder = InferenceResultBuilder::new(body);
    assert!(!builder.check_mut_bind(&resolver, ExprId(0)));
}

#[test]
fn unresolved_path_is_not_a_mutable_place() {
    let body = body_with_binding(BindingAnnotation::Mutable);
    let resolver = resolver_with(vec![]);
    let mut builder = InferenceResultBuilder::new(body);
    assert!(!builder.check_mut_bind(&resolver, ExprId(0)));
}

/// `x.f.g`: two nested field projections over the binding `x`.
fn body_with_projections(mode: BindingAnnotation) -> Body {
    Body {
        exprs: vec![
            Expr::Path(name("x")),
            Expr::Field { expr: ExprId(0), name: name("f") },
            Expr::Field { expr: ExprId(1), name: name("g") },
        ],
        pats: vec![Pat::Bind { mode, name: name("x") }],
    }
}

#[test]
fn field_projection_is_mutable_iff_its_base_is() {
    let resolver = resolver_with(vec![("x", 0)]);
    let mut mutable = InferenceResultBuilder::new(body_with_projections(
        BindingAnnotation::Mutable,
    ));
    assert!(mutable.check_mut_bind(&resolver, ExprId(2)));
    let mut immutable = InferenceResultBuilder::new(body_with_projections(
        BindingAnnotation::Unannotated,
    ));
    assert!(!immutable.check_mut_bind(&resolver, ExprId(2)));
}

#[test]
fn literals_and_calls_are_never_places() {
    let body = Body {
        exprs: vec![
            Expr::Path(name("x")),
            Expr::Literal(Literal::Int(1)),
            Expr::Call { callee: ExprId(0), args: vec![ExprId(1)] },
            Expr::Field { expr: ExprId(2), name: name("f") },
            Expr::Missing,
        ],
        pats: vec![Pat::Bind { mode: BindingAnnotation::Mutable, name: name("x") }],
    };
    let resolver = resolver_with(vec![("x", 0)]);
    let mut builder = InferenceResultBuilder::new(body);
    assert!(!builder.check_mut_bind(&resolver, ExprId(1)));
    assert!(!builder.check_mut_bind(&resolver, ExprId(2)));
    // A projection whose base is a call is not a place either.
    assert!(!builder.check_mut_bind(&resolver, ExprId(3)));
    assert!(!builder.check_mut_bind(&resolver, ExprId(4)));
}

#[test]
fn inner_binding_shadows_outer_one() {
    let body = Body {
        exprs: vec![Expr::Path(name("x"))],
        pats: vec![
            Pat::Bind { mode: BindingAnnotation::Mutable, name: name("x") },
            Pat::Bind { mode: BindingAnnotation::Unannotated, name: name("x") },
        ],
    };
    // The later (innermost) binding of `x` is the non-mutable one.
    let resolver = resolver_with(vec![("x", 0), ("x", 1)]);
    let mut builder = InferenceResultBuilder::new(body);
    assert!(!builder.check_mut_bind(&resolver, ExprId(0)));
}

#[test]
fn check_mut_path_consults_the_resolver_directly() {
    let body = body_with_binding(BindingAnnotation::Mutable);
    let resolver = resolver_with(vec![("x", 0)]);
    let mut builder = InferenceResultBuilder::new(body);
    assert!(builder.check_mut_path(&resolver, &name("x")));
    assert!(!builder.check_mut_path(&resolver, &name("y")));
}
