//! Lowered function bodies and the resolver they are checked against.
//!
//! A body is an arena of expressions and an arena of binding patterns;
//! sub-expressions are identities allocated before the expression that
//! contains them. A `Resolver` is a scope chain: the local bindings in
//! scope (innermost last), the module's item scope, and the built-in
//! scope as the outermost fallback.

use vstd::prelude::*;

use crate::ids::{AstId, ItemDefinitionId, PatId};
use crate::item_scope::{s_perns_lookup, ItemScope, PerNs};
use crate::name::{Name, NameModel};
use crate::visibility::Visibility;

verus! {

/// A literal expression value.
#[derive(PartialEq, Eq, Debug)]
pub enum Literal {
    Bool(bool),
    Int(u64),
}

/// Identity of an expression within its body.
#[derive(Clone, Copy, PartialEq, Eq, Structural, Hash, Debug)]
pub struct ExprId(pub usize);

/// How a pattern binds its name.
#[derive(Clone, Copy, PartialEq, Eq, Structural, Hash, Debug)]
pub enum BindingAnnotation {
    /// Bound without an explicit mutability marker.
    Unannotated,
    /// Bound explicitly mutable.
    Mutable,
}

/// A binding pattern.
#[derive(PartialEq, Eq, Debug)]
pub enum Pat {
    /// The placeholder pattern; binds nothing.
    Wild,
    /// A named binding with its binding mode.
    Bind { mode: BindingAnnotation, name: Name },
}

/// A lowered expression form. The closed set of forms the
/// place-expression check dispatches over.
#[derive(PartialEq, Eq, Debug)]
pub enum Expr {
    /// A missing (unparseable) expression.
    Missing,
    /// A reference to a name.
    Path(Name),
    /// A field projection, e.g. `base.f`.
    Field { expr: ExprId, name: Name },
    /// A literal.
    Literal(Literal),
    /// A call, e.g. `callee(args)`.
    Call { callee: ExprId, args: Vec<ExprId> },
}

/// A lowered function body: expression and pattern arenas.
#[derive(PartialEq, Eq, Debug)]
pub struct Body {
    pub exprs: Vec<Expr>,
    pub pats: Vec<Pat>,
}

impl Body {
    /// Sub-expression identities precede the expression that holds
    /// them: the invariant the body-lowering order guarantees, and what
    /// makes recursion over a body finite.
    pub open spec fn wf(self) -> bool {
        forall|i: int|
            0 <= i < self.exprs@.len() ==> (match #[trigger] self.exprs@[i] {
                Expr::Field { expr, .. } => expr.0 < i,
                Expr::Call { callee, args } => callee.0 < i && forall|j: int|
                    0 <= j < args@.len() ==> (#[trigger] args@[j]).0 < i,
                _ => true,
            })
    }
}

/// Maps each expression and each pattern of one body back to the stable
/// identifier of the syntax node it was lowered from, kept outside the
/// body so semantic data stays independent of a live syntax tree.
#[derive(PartialEq, Eq, Debug)]
pub struct BodySourceMap {
    pub expr_ast: Vec<AstId>,
    pub pat_ast: Vec<AstId>,
}

impl BodySourceMap {
    /// The syntax node an expression was lowered from, if the map knows
    /// it.
    pub fn expr_syntax(&self, expr: ExprId) -> (r: Option<AstId>)
        ensures
            r == (if expr.0 < self.expr_ast@.len() {
                Some(self.expr_ast@[expr.0 as int])
            } else {
                None::<AstId>
            }),
    {
        if expr.0 < self.expr_ast.len() {
            Some(self.expr_ast[expr.0])
        } else {
            None
        }
    }

    /// The syntax node a pattern was lowered from, if the map knows it.
    pub fn pat_syntax(&self, pat: PatId) -> (r: Option<AstId>)
        ensures
            r == (if pat.0 < self.pat_ast@.len() {
                Some(self.pat_ast@[pat.0 as int])
            } else {
                None::<AstId>
            }),
    {
        if pat.0 < self.pat_ast.len() {
            Some(self.pat_ast[pat.0])
        } else {
            None
        }
    }
}

/// What a name resolved, through the value namespace.
#[derive(Clone, Copy, PartialEq, Eq, Structural, Hash, Debug)]
pub enum ValueNs {
    /// A local binding: a pattern of the enclosing body.
    LocalBinding(PatId),
    /// A value-namespace item of the module or built-in scope.
    ItemValue(ItemDefinitionId),
}

/// The innermost binding for a name among the locals in scope, if any:
/// a later binding shadows an earlier one.
pub open spec fn s_local_lookup(locals: Seq<(NameModel, PatId)>, name: NameModel) -> Option<PatId>
    decreases locals.len(),
{
    if locals.len() == 0 {
        None
    } else if locals.last().0 == name {
        Some(locals.last().1)
    } else {
        s_local_lookup(locals.drop_last(), name)
    }
}

/// A name-resolution context: local bindings (innermost last), the
/// module's scope, and the built-in scope as outermost fallback.
pub struct Resolver {
    local_bindings: Vec<(Name, PatId)>,
    module_scope: ItemScope,
    builtin: Vec<(Name, PerNs<(ItemDefinitionId, Visibility)>)>,
}

impl Resolver {
    /// The local bindings in scope, innermost last.
    pub closed spec fn spec_locals(self) -> Seq<(NameModel, PatId)> {
        self.local_bindings@.map_values(|p: (Name, PatId)| (p.0@, p.1))
    }

    /// The value namespace of the module scope.
    pub closed spec fn spec_scope_values(self) -> Map<NameModel, (ItemDefinitionId, Visibility)> {
        self.module_scope.spec_values()
    }

    /// The built-in scope contents.
    pub closed spec fn spec_builtin(self) -> Seq<
        (NameModel, PerNs<(ItemDefinitionId, Visibility)>),
    > {
        self.builtin@.map_values(
            |p: (Name, PerNs<(ItemDefinitionId, Visibility)>)| (p.0@, p.1),
        )
    }

    /// Every local binding the resolver knows points into the body's
    /// pattern arena.
    pub open spec fn wf_for(self, body: Body) -> bool {
        forall|k: int|
            0 <= k < self.spec_locals().len() ==> (#[trigger] self.spec_locals()[k]).1.0
                < body.pats@.len()
    }

    /// What resolving a path as a value yields: the innermost local
    /// binding for the name if there is one; otherwise the module
    /// scope's value-namespace entry; otherwise the built-in scope's
    /// (which populates no values, so this last step yields nothing).
    pub open spec fn spec_resolve_value(self, name: NameModel) -> Option<(ValueNs, Visibility)> {
        match s_local_lookup(self.spec_locals(), name) {
            Some(pat) => Some((ValueNs::LocalBinding(pat), Visibility::Public)),
            None => if self.spec_scope_values().contains_key(name) {
                Some(
                    (
                        ValueNs::ItemValue(self.spec_scope_values()[name].0),
                        self.spec_scope_values()[name].1,
                    ),
                )
            } else {
                match s_perns_lookup(self.spec_builtin(), name).values {
                    Some(pair) => Some((ValueNs::ItemValue(pair.0), pair.1)),
                    None => None,
                }
            },
        }
    }

    /// A resolver over the given module scope and built-in scope, with
    /// no local bindings yet.
    pub fn new(
        module_scope: ItemScope,
        builtin: Vec<(Name, PerNs<(ItemDefinitionId, Visibility)>)>,
    ) -> (r: Resolver)
        ensures
            r.spec_locals() =~= Seq::<(NameModel, PatId)>::empty(),
            r.spec_scope_values() == module_scope.spec_values(),
            r.spec_builtin() == builtin@.map_values(
                |p: (Name, PerNs<(ItemDefinitionId, Visibility)>)| (p.0@, p.1),
            ),
    {
        Resolver { local_bindings: Vec::new(), module_scope, builtin }
    }

    /// Brings a local binding into scope, shadowing earlier bindings of
    /// the same name.
    pub fn add_local_binding(&mut self, name: Name, pat: PatId)
        ensures
            final(self).spec_locals() =~= old(self).spec_locals().push((name@, pat)),
            final(self).spec_scope_values() == old(self).spec_scope_values(),
            final(self).spec_builtin() == old(self).spec_builtin(),
    {
        self.local_bindings.push((name, pat));
    }

    /// Resolves a path through the value namespace, innermost scope
    /// first.
    pub fn resolve_path_as_value_fully(&self, path: &Name) -> (r: Option<(ValueNs, Visibility)>)
        ensures
            r == self.spec_resolve_value(path@),
    {
        let ghost locals = self.spec_locals();
        proof {
            assert(locals.take(self.local_bindings@.len() as int) =~= locals);
        }
        let mut i = self.local_bindings.len();
        while i > 0
            invariant
                i <= self.local_bindings@.len(),
                locals == self.spec_locals(),
                s_local_lookup(locals, path@) == s_local_lookup(
                    locals.take(i as int),
                    path@,
                ),
            decreases i,
        {
            i = i - 1;
            proof {
                assert(locals.take((i + 1) as int).drop_last() =~= locals.take(i as int));
                assert(locals.take((i + 1) as int).last() == locals[i as int]);
            }
            if self.local_bindings[i].0 == *path {
                return Some((
                    ValueNs::LocalBinding(self.local_bindings[i].1),
                    Visibility::Public,
                ));
            }
        }
        proof {
            assert(locals.take(0) =~= Seq::<(NameModel, PatId)>::empty());
        }
        let scope_entry = self.module_scope.get(path);
        match scope_entry.values {
            Some((id, vis)) => Some((ValueNs::ItemValue(id), vis)),
            None => {
                match crate::item_scope::perns_list_get(&self.builtin, path).values {
                    Some((id, vis)) => Some((ValueNs::ItemValue(id), vis)),
                    None => None,
                }
            },
        }
    }
}

} // verus!
