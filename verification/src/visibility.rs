//! Syntactic visibility markers and their resolved, comparable form.
//!
//! `RawVisibility` is what a declaration carries; resolving it against the
//! declaring module yields a `Visibility` that supports the
//! `is_visible_from` predicate used by name resolution and diagnostics.

use vstd::prelude::*;

use crate::ids::ModuleId;
use crate::syntax::VisibilityMarker;

verus! {

/// The unresolved, syntactic form of a visibility: either the declaration
/// carries an explicit public marker, or it is private to the module that
/// declares it.
#[derive(Clone, Copy, PartialEq, Eq, Structural, Hash, Debug)]
pub enum RawVisibility {
    /// Visible only within the declaring module (and its descendants).
    This,
    /// Visible everywhere.
    Public,
}

impl RawVisibility {
    /// What a syntactic visibility marker means: a marker makes the item
    /// public, its absence keeps it module-private.
    pub open spec fn spec_from_ast(marker: Option<VisibilityMarker>) -> RawVisibility {
        match marker {
            Some(_) => RawVisibility::Public,
            None => RawVisibility::This,
        }
    }

    /// Reads the visibility marker of a declaration.
    pub fn from_ast(marker: &Option<VisibilityMarker>) -> (r: RawVisibility)
        ensures
            r == RawVisibility::spec_from_ast(*marker),
    {
        match marker {
            Some(_) => RawVisibility::Public,
            None => RawVisibility::This,
        }
    }

    /// Anchors a raw visibility at the module that declares the item. A
    /// pure function of the raw form and the resolver's module context.
    pub fn resolve(&self, module: ModuleId) -> (r: Visibility)
        ensures
            r == self.spec_resolve(module),
    {
        match self {
            RawVisibility::This => Visibility::Module(module),
            RawVisibility::Public => Visibility::Public,
        }
    }

    /// Resolution is anchoring: module-private becomes "visible from the
    /// declaring module", public stays public.
    pub open spec fn spec_resolve(self, module: ModuleId) -> Visibility {
        match self {
            RawVisibility::This => Visibility::Module(module),
            RawVisibility::Public => Visibility::Public,
        }
    }
}

/// Resolved, comparable visibility of an item.
#[derive(Clone, Copy, PartialEq, Eq, Structural, Hash, Debug)]
pub enum Visibility {
    /// Visible from the given module and every one of its descendants.
    Module(ModuleId),
    /// Visible from everywhere.
    Public,
}

/// The module hierarchy a resolver works against: for every module, its
/// parent, if it has one. A parent always has a smaller identity than its
/// children, which makes every ancestor chain finite.
pub struct ModuleTree {
    pub parents: Vec<Option<ModuleId>>,
}

impl ModuleTree {
    /// Every module's parent exists and comes strictly before it.
    pub open spec fn wf(self) -> bool {
        forall|i: int|
            0 <= i < self.parents@.len() ==> match #[trigger] self.parents@[i] {
                Some(p) => 0 <= p.0 < i,
                None => true,
            }
    }

    pub open spec fn spec_contains(self, module: ModuleId) -> bool {
        module.0 < self.parents@.len()
    }

    /// Whether `module` is `ancestor` itself or one of its descendants:
    /// `ancestor` lies on the parent chain starting at `module`.
    pub open spec fn spec_is_self_or_descendant(self, module: ModuleId, ancestor: ModuleId) -> bool
        decreases module.0 via Self::is_self_or_descendant_decreases
    {
        module == ancestor || (module.0 < self.parents@.len() && match self.parents@[module.0 as int] {
            Some(p) => if p.0 < module.0 {
                self.spec_is_self_or_descendant(p, ancestor)
            } else {
                false
            },
            None => false,
        })
    }

    #[via_fn]
    proof fn is_self_or_descendant_decreases(self, module: ModuleId, ancestor: ModuleId) {
    }

    /// Walks the parent chain of `module`, looking for `ancestor`.
    pub fn is_self_or_descendant(&self, module: ModuleId, ancestor: ModuleId) -> (r: bool)
        requires
            self.wf(),
            self.spec_contains(module),
        ensures
            r == self.spec_is_self_or_descendant(module, ancestor),
    {
        let mut current = module;
        loop
            invariant
                self.wf(),
                self.spec_contains(current),
                self.spec_is_self_or_descendant(module, ancestor) == self.spec_is_self_or_descendant(
                    current,
                    ancestor,
                ),
            decreases current.0,
        {
            if current.0 == ancestor.0 {
                return true;
            }
            match self.parents[current.0] {
                Some(p) => {
                    current = p;
                },
                None => {
                    return false;
                },
            }
        }
    }
}

impl Visibility {
    /// Behavioural contract of resolved visibility: public visibility is
    /// always visible; module-scoped visibility is visible exactly from the
    /// declaring module and its descendants.
    pub open spec fn spec_is_visible_from(self, tree: ModuleTree, from: ModuleId) -> bool {
        match self {
            Visibility::Public => true,
            Visibility::Module(declaring) => tree.spec_is_self_or_descendant(from, declaring),
        }
    }

    /// Decides whether an item with this visibility can be seen from
    /// `from`, against the given module hierarchy.
    pub fn is_visible_from(&self, tree: &ModuleTree, from: ModuleId) -> (r: bool)
        requires
            tree.wf(),
            tree.spec_contains(from),
        ensures
            r == self.spec_is_visible_from(*tree, from),
    {
        match self {
            Visibility::Public => true,
            Visibility::Module(declaring) => tree.is_self_or_descendant(from, *declaring),
        }
    }
}

} // verus!
