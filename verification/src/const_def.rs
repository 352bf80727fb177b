//! Constant definitions: their lowered data, the lowering of their
//! target type against the scope chain, and their diagnostics.

use vstd::prelude::*;

use crate::code_model::Module;
use crate::db::{ConstLoc, DefDatabase};
use crate::ids::{AstId, ConstDefId, FileId, ItemDefinitionId};
use crate::item_scope::{builtin_scope, perns_list_get, s_builtin_scope, s_perns_lookup, ItemScope};
use crate::item_tree::ConstModel;
use crate::name::{Name, NameModel};
use crate::syntax::{s_find_const, ConstDefNode};
use crate::type_ref::{
    s_type_ref, LocalTypeRefId, TypeRef, TypeRefBuilder, TypeRefMap, TypeRefModel,
    TypeRefSourceMap,
};
use crate::visibility::{RawVisibility, Visibility};

verus! {

/// A constant definition.
#[derive(Clone, Copy, PartialEq, Eq, Structural, Hash, Debug)]
pub struct ConstDef {
    pub id: ConstDefId,
}

/// What resolving a name in the type namespace yields: the module
/// scope's entry if it has one, else the built-in scope's.
pub open spec fn s_resolve_type(
    scope: ItemScope,
    builtin: Seq<(NameModel, crate::item_scope::PerNs<(ItemDefinitionId, Visibility)>)>,
    name: NameModel,
) -> Option<(ItemDefinitionId, Visibility)> {
    if scope.spec_types().contains_key(name) {
        Some(scope.spec_types()[name])
    } else {
        s_perns_lookup(builtin, name).types
    }
}

/// A diagnostic from lowering type references to types.
#[derive(Clone, Copy, PartialEq, Eq, Structural, Hash, Debug)]
pub enum LowerDiagnostic {
    /// The type reference did not resolve to any type.
    UnresolvedType { id: LocalTypeRefId },
}

/// The result of lowering a constant's target type: the resolved type,
/// if any, and the diagnostics the lowering produced.
#[derive(PartialEq, Eq, Debug)]
pub struct LowerBatchResult {
    pub ty: Option<ItemDefinitionId>,
    pub diagnostics: Vec<LowerDiagnostic>,
}

/// A diagnostic attached to a file, with the source node it concerns
/// where one exists.
#[derive(Clone, Copy, PartialEq, Eq, Structural, Hash, Debug)]
pub enum Diagnostic {
    /// The target type of a constant does not exist.
    UnresolvedType { file: FileId, id: LocalTypeRefId, ast: Option<AstId> },
}

/// Collects diagnostics; stages only append, never throw.
pub struct DiagnosticSink {
    diagnostics: Vec<Diagnostic>,
}

impl DiagnosticSink {
    /// What has been collected so far, in emission order.
    pub closed spec fn spec_diagnostics(self) -> Seq<Diagnostic> {
        self.diagnostics@
    }

    pub fn new() -> (sink: DiagnosticSink)
        ensures
            sink.spec_diagnostics() =~= Seq::<Diagnostic>::empty(),
    {
        DiagnosticSink { diagnostics: Vec::new() }
    }

    /// Appends one diagnostic.
    pub fn push(&mut self, d: Diagnostic)
        ensures
            final(self).spec_diagnostics() =~= old(self).spec_diagnostics().push(d),
    {
        self.diagnostics.push(d)
    }

    /// The collected diagnostics.
    pub fn diagnostics(&self) -> (r: &Vec<Diagnostic>)
        ensures
            r@ == self.spec_diagnostics(),
    {
        &self.diagnostics
    }
}

/// The lowered data of one constant: its name, its visibility in raw
/// form, and its target type reference with both maps.
pub struct ConstDefData {
    pub name: Name,
    pub visibility: RawVisibility,
    pub type_ref_id: LocalTypeRefId,
    pub type_ref_map: TypeRefMap,
    pub type_ref_source_map: TypeRefSourceMap,
}

impl From<ConstDefId> for ConstDef {
    fn from(id: ConstDefId) -> (r: Self) {
        ConstDef { id }
    }
}

impl vstd::std_specs::convert::FromSpecImpl<ConstDefId> for ConstDef {
    open spec fn obeys_from_spec() -> bool {
        true
    }

    open spec fn from_spec(id: ConstDefId) -> Self {
        ConstDef { id }
    }
}

impl ConstDef {
    /// Whether the handle points into the database, its record into the
    /// file's tree, its record's node into the file, and its module
    /// into the scope table.
    pub open spec fn wf(self, db: DefDatabase) -> bool {
        &&& self.id.0 < db.const_locs@.len()
        &&& self.spec_loc(db).file.0 < db.files@.len()
        &&& self.spec_loc(db).value.0 < db.spec_file_tree(
            self.spec_loc(db).file,
        ).data.constants.len()
        &&& s_find_const(
            db.files@[self.spec_loc(db).file.0 as int].items@,
            self.spec_record(db).ast_id,
        ) is Some
        &&& self.spec_loc(db).module.0 < db.module_scopes@.len()
    }

    /// Where the constant definition lives.
    pub open spec fn spec_loc(self, db: DefDatabase) -> ConstLoc {
        db.const_locs@[self.id.0 as int]
    }

    /// The constant's record in its file's item tree.
    pub open spec fn spec_record(self, db: DefDatabase) -> ConstModel {
        db.spec_file_tree(self.spec_loc(db).file).data.constants[self.spec_loc(db).value.0 as int]
    }

    /// The constant's syntax node.
    pub open spec fn spec_node(self, db: DefDatabase) -> ConstDefNode {
        s_find_const(
            db.files@[self.spec_loc(db).file.0 as int].items@,
            self.spec_record(db).ast_id,
        )->Some_0
    }

    /// The lowered form of the constant's target type.
    pub open spec fn spec_lowered_type(self, db: DefDatabase) -> TypeRefModel {
        match self.spec_node(db).type_ref {
            Some(t) => s_type_ref(t),
            None => TypeRefModel::Error,
        }
    }

    /// What the constant's target type resolves to in the type
    /// namespace of its module's scope chain: nothing unless it is a
    /// path that the module scope or the built-in scope knows.
    pub open spec fn spec_resolved_type(self, db: DefDatabase) -> Option<ItemDefinitionId> {
        match self.spec_lowered_type(db) {
            TypeRefModel::Path(n) => match s_resolve_type(
                db.module_scopes@[self.spec_loc(db).module.0 as int],
                s_builtin_scope(),
                n,
            ) {
                Some(pair) => Some(pair.0),
                None => None,
            },
            _ => None,
        }
    }

    /// The module the constant is defined in.
    pub fn module(self, db: &DefDatabase) -> (m: Module)
        requires
            self.id.0 < db.const_locs@.len(),
        ensures
            m.id == self.spec_loc(*db).module,
    {
        Module { id: db.const_locs[self.id.0].module }
    }

    /// The file the constant is defined in.
    pub fn file_id(self, db: &DefDatabase) -> (f: FileId)
        requires
            self.id.0 < db.const_locs@.len(),
        ensures
            f == self.spec_loc(*db).file,
    {
        db.const_locs[self.id.0].file
    }

    /// The constant's resolved visibility: its raw visibility anchored
    /// at its declaring module.
    pub fn visibility(self, db: &DefDatabase) -> (v: Visibility)
        requires
            self.wf(*db),
        ensures
            v == db.spec_file_tree(self.spec_loc(*db).file).data.visibilities[
                self.spec_record(*db).visibility.0 as int
            ].spec_resolve(self.spec_loc(*db).module),
    {
        let module = self.module(db);
        self.data(db).visibility.resolve(module.id)
    }

    /// The constant's lowered data.
    pub fn data(self, db: &DefDatabase) -> (d: ConstDefData)
        requires
            self.wf(*db),
        ensures
            d.name@ == self.spec_record(*db).name,
            d.visibility == db.spec_file_tree(self.spec_loc(*db).file).data.visibilities[
                self.spec_record(*db).visibility.0 as int
            ],
            d.type_ref_id == LocalTypeRefId(0),
            d.spec_types() =~= seq![self.spec_lowered_type(*db)],
            d.spec_sources() =~= seq![
                (match self.spec_node(*db).type_ref {
                    Some(t) => Some(t.ast_id),
                    None => None,
                }),
            ],
    {
        ConstDefData::type_alias_data_query(db, self.id)
    }

    /// The constant's declared name.
    pub fn name(self, db: &DefDatabase) -> (n: Name)
        requires
            self.wf(*db),
        ensures
            n@ == self.spec_record(*db).name,
    {
        self.data(db).name
    }

    /// The identity of the constant's target type reference.
    pub fn type_ref(self, db: &DefDatabase) -> (id: LocalTypeRefId)
        requires
            self.wf(*db),
        ensures
            id == LocalTypeRefId(0),
    {
        self.data(db).type_ref_id
    }

    /// Lowers the constant's target type against the scope chain: the
    /// resolved type where the written path names one, and one
    /// `UnresolvedType` diagnostic where a written path names nothing.
    /// A missing or malformed written type yields no type and no
    /// diagnostic here: that gap is already recorded as a syntax error.
    pub fn lower(self, db: &DefDatabase) -> (r: LowerBatchResult)
        requires
            self.wf(*db),
        ensures
            r.ty == self.spec_resolved_type(*db),
            r.diagnostics@ =~= (match self.spec_lowered_type(*db) {
                TypeRefModel::Path(n) => if s_resolve_type(
                    db.module_scopes@[self.spec_loc(*db).module.0 as int],
                    s_builtin_scope(),
                    n,
                ) is Some {
                    Seq::<LowerDiagnostic>::empty()
                } else {
                    seq![LowerDiagnostic::UnresolvedType { id: LocalTypeRefId(0) }]
                },
                _ => Seq::<LowerDiagnostic>::empty(),
            }),
    {
        let loc = db.const_locs[self.id.0];
        let data = self.data(db);
        let mut diagnostics: Vec<LowerDiagnostic> = Vec::new();
        let ty = match data.type_ref_map().get(data.type_ref_id) {
            TypeRef::Path(name) => {
                let scope_entry = db.module_scopes[loc.module.0].get(name);
                let resolved = match scope_entry.types {
                    Some((id, _)) => Some(id),
                    None => {
                        let builtin = builtin_scope();
                        match perns_list_get(&builtin, name).types {
                            Some((id, _)) => Some(id),
                            None => None,
                        }
                    },
                };
                if resolved.is_none() {
                    diagnostics.push(
                        LowerDiagnostic::UnresolvedType { id: data.type_ref_id },
                    );
                }
                resolved
            },
            _ => None,
        };
        LowerBatchResult { ty, diagnostics }
    }

    /// Collects the constant's diagnostics into the sink: one entry per
    /// unresolved target type, carrying the file and the source node of
    /// the written type. This is the validation that the target type of
    /// a constant exists.
    pub fn diagnostics(self, db: &DefDatabase, sink: &mut DiagnosticSink)
        requires
            self.wf(*db),
        ensures
            final(sink).spec_diagnostics() =~= old(sink).spec_diagnostics() + (
            match self.spec_lowered_type(*db) {
                TypeRefModel::Path(n) => if s_resolve_type(
                    db.module_scopes@[self.spec_loc(*db).module.0 as int],
                    s_builtin_scope(),
                    n,
                ) is Some {
                    Seq::<Diagnostic>::empty()
                } else {
                    seq![
                        Diagnostic::UnresolvedType {
                            file: self.spec_loc(*db).file,
                            id: LocalTypeRefId(0),
                            ast: (match self.spec_node(*db).type_ref {
                                Some(t) => Some(t.ast_id),
                                None => None,
                            }),
                        },
                    ]
                },
                _ => Seq::<Diagnostic>::empty(),
            }),
    {
        let lower = self.lower(db);
        let data = self.data(db);
        let file = self.file_id(db);
        if lower.diagnostics.len() > 0 {
            let ast = data.type_ref_source_map().type_ref_ast(data.type_ref_id);
            sink.push(Diagnostic::UnresolvedType { file, id: data.type_ref_id, ast });
        } else {
            proof {
                assert(final(sink).spec_diagnostics() =~= old(sink).spec_diagnostics()
                    + Seq::<Diagnostic>::empty());
            }
        }
    }
}

impl ConstDefData {
    /// The structural forms of the constant's type references.
    pub open spec fn spec_types(self) -> Seq<TypeRefModel> {
        self.type_ref_map.spec_models()
    }

    /// The source entries of the constant's type references.
    pub open spec fn spec_sources(self) -> Seq<Option<AstId>> {
        self.type_ref_source_map.sources@
    }

    /// Re-derives a constant's lowered data from its file's item tree
    /// and syntax tree: the record's name and visibility, plus its
    /// target type lowered through a fresh `TypeRefBuilder`.
    pub fn type_alias_data_query(db: &DefDatabase, id: ConstDefId) -> (d: ConstDefData)
        requires
            (ConstDef { id }).wf(*db),
        ensures
            d.name@ == (ConstDef { id }).spec_record(*db).name,
            d.visibility == db.spec_file_tree((ConstDef { id }).spec_loc(*db).file).data.visibilities[
                (ConstDef { id }).spec_record(*db).visibility.0 as int
            ],
            d.type_ref_id == LocalTypeRefId(0),
            d.spec_types() =~= seq![(ConstDef { id }).spec_lowered_type(*db)],
            d.spec_sources() =~= seq![
                (match (ConstDef { id }).spec_node(*db).type_ref {
                    Some(t) => Some(t.ast_id),
                    None => None,
                }),
            ],
    {
        let loc = db.const_locs[id.0];
        let tree = db.item_tree(loc.file);
        let record = tree.constant(loc.value);
        let src = match db.files[loc.file.0].find_const(record.ast_id) {
            Some(node) => node,
            None => vstd::pervasive::unreached(),
        };
        let mut type_ref_builder = TypeRefBuilder::new();
        let type_ref_opt = &src.type_ref;
        let type_ref_id = match type_ref_opt {
            Some(node) => type_ref_builder.alloc_from_node(node),
            None => type_ref_builder.alloc_from_node_opt(None),
        };
        let (type_ref_map, type_ref_source_map) = type_ref_builder.finish();
        let name = record.name.clone();
        let visibility = *tree.visibility(record.visibility);
        ConstDefData { name, visibility, type_ref_id, type_ref_map, type_ref_source_map }
    }

    /// The source map of the constant's type references.
    pub fn type_ref_source_map(&self) -> (r: &TypeRefSourceMap)
        ensures
            r.sources@ == self.spec_sources(),
    {
        &self.type_ref_source_map
    }

    /// The structural map of the constant's type references.
    pub fn type_ref_map(&self) -> (r: &TypeRefMap)
        ensures
            r.spec_models() == self.spec_types(),
    {
        &self.type_ref_map
    }
}

} // verus!
