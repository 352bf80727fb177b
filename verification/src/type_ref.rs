//! Structurally lowered type expressions.
//!
//! A `TypeRef` is the lowered form of a type as written in source, or one
//! of the sentinels: `Empty` for an omitted type (for example a missing
//! return type) and `Error` for a malformed one. `TypeRefMap` gives local
//! identities to lowered type refs so type data can be queried without the
//! syntax tree; `TypeRefSourceMap` separately links those identities back
//! to source nodes.

use vstd::prelude::*;

use crate::arena::Arena;
use crate::ids::AstId;
use crate::name::{Name, NameModel};
use crate::syntax::{TypeRefKindNode, TypeRefNode};

verus! {

/// Mathematical form of a lowered type reference.
pub enum TypeRefModel {
    Path(NameModel),
    Never,
    Empty,
    Error,
}

/// A structurally lowered type expression, or a sentinel.
#[derive(PartialEq, Eq, Debug)]
pub enum TypeRef {
    /// An identifier path, e.g. `i32` or `Foo`.
    Path(Name),
    /// The never type.
    Never,
    /// No type was written at all.
    Empty,
    /// A type was written but is unusable.
    Error,
}

impl View for TypeRef {
    type V = TypeRefModel;

    open spec fn view(&self) -> TypeRefModel {
        match self {
            TypeRef::Path(n) => TypeRefModel::Path(n@),
            TypeRef::Never => TypeRefModel::Never,
            TypeRef::Empty => TypeRefModel::Empty,
            TypeRef::Error => TypeRefModel::Error,
        }
    }
}

/// What lowering a written type yields: a path with a readable name stays
/// a path; a path whose name is missing degrades to the `Error` sentinel.
pub open spec fn s_type_ref(node: TypeRefNode) -> TypeRefModel {
    match node.kind {
        TypeRefKindNode::Path(Some(n)) => TypeRefModel::Path(n@),
        TypeRefKindNode::Path(None) => TypeRefModel::Error,
        TypeRefKindNode::Never => TypeRefModel::Never,
    }
}

/// Lowering an optional written type: absence degrades to `Error`.
pub open spec fn s_type_ref_opt(node: Option<TypeRefNode>) -> TypeRefModel {
    match node {
        Some(t) => s_type_ref(t),
        None => TypeRefModel::Error,
    }
}

impl TypeRef {
    /// Lowers a written type to its structural form.
    pub fn from_ast(node: &TypeRefNode) -> (r: TypeRef)
        ensures
            r@ == s_type_ref(*node),
    {
        match &node.kind {
            TypeRefKindNode::Path(Some(n)) => TypeRef::Path(n.clone()),
            TypeRefKindNode::Path(None) => TypeRef::Error,
            TypeRefKindNode::Never => TypeRef::Never,
        }
    }

    /// Lowers an optional written type.
    pub fn from_ast_opt(node: &Option<TypeRefNode>) -> (r: TypeRef)
        ensures
            r@ == s_type_ref_opt(*node),
    {
        match node {
            Some(t) => TypeRef::from_ast(t),
            None => TypeRef::Error,
        }
    }
}

impl Clone for TypeRef {
    /// A cloned type ref is the same type ref.
    fn clone(&self) -> (res: Self)
        ensures
            res == *self,
    {
        match self {
            TypeRef::Path(n) => TypeRef::Path(n.clone()),
            TypeRef::Never => TypeRef::Never,
            TypeRef::Empty => TypeRef::Empty,
            TypeRef::Error => TypeRef::Error,
        }
    }
}

/// Identity of a lowered type reference, local to one `TypeRefMap`.
#[derive(Clone, Copy, PartialEq, Eq, Structural, Hash, Debug)]
pub struct LocalTypeRefId(pub usize);

/// Associates local type-ref identities with their structural form.
pub struct TypeRefMap {
    pub type_refs: Arena<TypeRef>,
}

impl TypeRefMap {
    /// The structural forms the map holds, in identity order.
    pub open spec fn spec_models(self) -> Seq<TypeRefModel> {
        self.type_refs@.map_values(|t: TypeRef| t@)
    }

    pub open spec fn spec_len(self) -> nat {
        self.type_refs@.len()
    }

    pub open spec fn spec_contains(self, id: LocalTypeRefId) -> bool {
        id.0 < self.type_refs@.len()
    }

    /// The structural form an identity denotes.
    pub fn get(&self, id: LocalTypeRefId) -> (r: &TypeRef)
        requires
            self.spec_contains(id),
        ensures
            *r == self.type_refs@[id.0 as int],
            r@ == self.spec_models()[id.0 as int],
    {
        self.type_refs.get(id.0)
    }
}

/// Associates local type-ref identities with their originating syntax
/// nodes, kept apart from `TypeRefMap` so type data can be queried without
/// loading the syntax tree. A sentinel lowered from nothing has no source.
pub struct TypeRefSourceMap {
    pub sources: Vec<Option<AstId>>,
}

impl TypeRefSourceMap {
    pub open spec fn spec_contains(self, id: LocalTypeRefId) -> bool {
        id.0 < self.sources@.len()
    }

    /// The syntax node identity a lowered type ref came from, if any.
    pub fn type_ref_ast(&self, id: LocalTypeRefId) -> (r: Option<AstId>)
        requires
            self.spec_contains(id),
        ensures
            r == self.sources@[id.0 as int],
    {
        self.sources[id.0]
    }
}

/// Lowers written types one by one, recording both structural form and
/// source correlation, and finally splits into the two maps.
pub struct TypeRefBuilder {
    type_refs: Arena<TypeRef>,
    sources: Vec<Option<AstId>>,
}

impl TypeRefBuilder {
    /// The builder keeps one source entry per lowered type ref.
    pub closed spec fn wf(self) -> bool {
        self.type_refs@.len() == self.sources@.len()
    }

    /// The structural forms lowered so far, in identity order.
    pub closed spec fn spec_types(self) -> Seq<TypeRefModel> {
        self.type_refs@.map_values(|t: TypeRef| t@)
    }

    pub closed spec fn spec_sources(self) -> Seq<Option<AstId>> {
        self.sources@
    }

    pub fn new() -> (b: TypeRefBuilder)
        ensures
            b.wf(),
            b.spec_types() =~= Seq::<TypeRefModel>::empty(),
            b.spec_sources() =~= Seq::<Option<AstId>>::empty(),
    {
        TypeRefBuilder { type_refs: Arena::new(), sources: Vec::new() }
    }

    /// Lowers one written type, giving it the next identity and recording
    /// its source node.
    pub fn alloc_from_node(&mut self, node: &TypeRefNode) -> (id: LocalTypeRefId)
        requires
            old(self).wf(),
        ensures
            final(self).wf(),
            id.0 == old(self).spec_types().len(),
            final(self).spec_types() =~= old(self).spec_types().push(s_type_ref(*node)),
            final(self).spec_sources() =~= old(self).spec_sources().push(Some(node.ast_id)),
    {
        let r = TypeRef::from_ast(node);
        let idx = self.type_refs.allocate(r);
        self.sources.push(Some(node.ast_id));
        LocalTypeRefId(idx)
    }

    /// Lowers an optional written type: absence is recorded as the `Error`
    /// sentinel with no source node.
    pub fn alloc_from_node_opt(&mut self, node: Option<&TypeRefNode>) -> (id: LocalTypeRefId)
        requires
            old(self).wf(),
        ensures
            final(self).wf(),
            id.0 == old(self).spec_types().len(),
            final(self).spec_types() =~= old(self).spec_types().push(
                match node {
                    Some(n) => s_type_ref(*n),
                    None => TypeRefModel::Error,
                },
            ),
            final(self).spec_sources() =~= old(self).spec_sources().push(
                match node {
                    Some(n) => Some(n.ast_id),
                    None => None,
                },
            ),
    {
        match node {
            Some(n) => self.alloc_from_node(n),
            None => {
                let idx = self.type_refs.allocate(TypeRef::Error);
                self.sources.push(None);
                LocalTypeRefId(idx)
            },
        }
    }

    /// Splits the builder into the structural map and the source map.
    pub fn finish(self) -> (r: (TypeRefMap, TypeRefSourceMap))
        requires
            self.wf(),
        ensures
            r.0.spec_models() =~= self.spec_types(),
            r.1.sources@ =~= self.spec_sources(),
    {
        let TypeRefBuilder { type_refs, sources } = self;
        (TypeRefMap { type_refs }, TypeRefSourceMap { sources })
    }
}

} // verus!
