//! The mutability / place-expression check.
//!
//! Given a resolver context and a lowered expression body, decides
//! whether an expression denotes an assignable, mutable memory location:
//! a field projection is a mutable place exactly when its base is
//! (mutability flows from receiver to projection); a bare path is a
//! mutable place exactly when it resolves, through value-namespace path
//! resolution, to a local binding declared explicitly mutable; every
//! other expression form is never a place. The check has no side
//! effects.

use vstd::prelude::*;

use crate::body::{BindingAnnotation, Body, Expr, ExprId, Pat, Resolver, ValueNs};
use crate::name::{Name, NameModel};

verus! {

/// Whether a path denotes a mutable place: it must resolve to a local
/// binding whose declared binding mode is explicitly mutable.
pub open spec fn s_is_mutable_path(body: Body, resolver: Resolver, path: NameModel) -> bool {
    match resolver.spec_resolve_value(path) {
        Some(pair) => match pair.0 {
            ValueNs::LocalBinding(pat) => pat.0 < body.pats@.len()
                && (body.pats@[pat.0 as int] matches Pat::Bind {
                mode: BindingAnnotation::Mutable,
                ..
            }),
            ValueNs::ItemValue(_) => false,
        },
        None => false,
    }
}

/// Whether an expression denotes a mutable place. Recursive structural
/// delegation: a field projection inherits from its base; a path asks
/// the resolver; everything else is never a place.
pub open spec fn s_is_mutable_place(body: Body, resolver: Resolver, expr: int) -> bool
    decreases expr,
{
    if 0 <= expr < body.exprs@.len() {
        match body.exprs@[expr] {
            Expr::Path(p) => s_is_mutable_path(body, resolver, p@),
            Expr::Field { expr: base, .. } => if base.0 < expr {
                s_is_mutable_place(body, resolver, base.0 as int)
            } else {
                false
            },
            _ => false,
        }
    } else {
        false
    }
}

/// Builds the inference result for one body; the place-expression check
/// lives here because assignment and mutable-borrow validation query it
/// during inference.
pub struct InferenceResultBuilder {
    pub body: Body,
}

impl InferenceResultBuilder {
    pub fn new(body: Body) -> (r: InferenceResultBuilder)
        ensures
            r.body == body,
    {
        InferenceResultBuilder { body }
    }

    /// Checks if the specified expression is a place expression that is
    /// mutable. A place expression represents a memory location.
    pub fn check_mut_bind(&mut self, resolver: &Resolver, expr: ExprId) -> (r: bool)
        requires
            old(self).body.wf(),
            resolver.wf_for(old(self).body),
            expr.0 < old(self).body.exprs@.len(),
        ensures
            *final(self) == *old(self),
            r == s_is_mutable_place(old(self).body, *resolver, expr.0 as int),
        decreases expr.0,
    {
        let next: ExprId;
        match &self.body.exprs[expr.0] {
            Expr::Path(p) => {
                let path = p.clone();
                return self.check_mut_path(resolver, &path);
            },
            Expr::Field { expr: base, .. } => {
                next = *base;
            },
            _ => {
                return false;
            },
        }
        self.check_mut_bind(resolver, next)
    }

    /// Checks if the specified path references a mutable variable.
    pub fn check_mut_path(&mut self, resolver: &Resolver, path: &Name) -> (r: bool)
        requires
            resolver.wf_for(old(self).body),
        ensures
            *final(self) == *old(self),
            r == s_is_mutable_path(old(self).body, *resolver, path@),
    {
        if let Some((ValueNs::LocalBinding(pat), _)) = resolver.resolve_path_as_value_fully(path) {
            proof {
                resolver.lemma_local_resolution_in_bounds(self.body, path@);
            }
            match &self.body.pats[pat.0] {
                Pat::Bind { mode: BindingAnnotation::Mutable, .. } => true,
                _ => false,
            }
        } else {
            false
        }
    }
}

impl Resolver {
    /// A value resolution that names a local binding points into the
    /// body's pattern arena, because it can only come from the locals
    /// the resolver knows.
    pub proof fn lemma_local_resolution_in_bounds(self, body: Body, name: NameModel)
        requires
            self.wf_for(body),
        ensures
            (match self.spec_resolve_value(name) {
                Some(pair) => match pair.0 {
                    ValueNs::LocalBinding(pat) => pat.0 < body.pats@.len(),
                    ValueNs::ItemValue(_) => true,
                },
                None => true,
            }),
    {
        self.lemma_local_lookup_in_bounds(body, self.spec_locals(), name);
    }

    proof fn lemma_local_lookup_in_bounds(
        self,
        body: Body,
        locals: Seq<(NameModel, crate::ids::PatId)>,
        name: NameModel,
    )
        requires
            forall|k: int|
                0 <= k < locals.len() ==> (#[trigger] locals[k]).1.0 < body.pats@.len(),
        ensures
            (match crate::body::s_local_lookup(locals, name) {
                Some(pat) => pat.0 < body.pats@.len(),
                None => true,
            }),
        decreases locals.len(),
    {
        if locals.len() > 0 && !(locals.last().0 == name) {
            self.lemma_local_lookup_in_bounds(body, locals.drop_last(), name);
        }
    }
}

/// A bare path is a mutable place exactly when it resolves to a local
/// binding that was bound with an explicit mutable binding mode.
pub proof fn lemma_path_place_iff_mutable_binding(
    body: Body,
    resolver: Resolver,
    expr: int,
    p: Name,
)
    requires
        0 <= expr < body.exprs@.len(),
        body.exprs@[expr] == Expr::Path(p),
    ensures
        s_is_mutable_place(body, resolver, expr) == (match resolver.spec_resolve_value(p@) {
            Some(pair) => match pair.0 {
                ValueNs::LocalBinding(pat) => pat.0 < body.pats@.len() && (
                body.pats@[pat.0 as int] matches Pat::Bind { mode: BindingAnnotation::Mutable, .. }),
                ValueNs::ItemValue(_) => false,
            },
            None => false,
        }),
{
}

/// A field projection is a mutable place exactly when its base is: the
/// projection adds nothing and takes nothing away, however deeply
/// projections nest.
pub proof fn lemma_field_place_iff_base(
    body: Body,
    resolver: Resolver,
    expr: int,
    base: ExprId,
    name: Name,
)
    requires
        body.wf(),
        0 <= expr < body.exprs@.len(),
        body.exprs@[expr] == (Expr::Field { expr: base, name }),
    ensures
        s_is_mutable_place(body, resolver, expr) == s_is_mutable_place(
            body,
            resolver,
            base.0 as int,
        ),
{
}

/// A literal or a call expression is never a mutable place, regardless
/// of where it stands.
pub proof fn lemma_literal_call_never_place(body: Body, resolver: Resolver, expr: int)
    requires
        0 <= expr < body.exprs@.len(),
        body.exprs@[expr] is Literal || body.exprs@[expr] is Call || body.exprs@[expr] is Missing,
    ensures
        !s_is_mutable_place(body, resolver, expr),
{
}

} // verus!
