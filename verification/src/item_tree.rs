//! The item tree: a flat, arena-indexed table of one file's top-level
//! declarations, plus tree-level diagnostics.
//!
//! Built once per file by a single lowering pass, immutable afterwards.
//! Every record and every field has a dense identity into one of the
//! arenas in `ItemTreeData`; cross-references (a struct's field range, an
//! item's visibility) are identities, never owning references.

use vstd::prelude::*;

use crate::arena::{Arena, IdRange};
use crate::ids::{
    AstId, FileId, LocalConstId, LocalFunctionId, LocalStructId, LocalTypeAliasId, RawVisibilityId,
};
use crate::name::{Name, NameModel};
use crate::type_ref::{TypeRef, TypeRefModel};
use crate::visibility::RawVisibility;

verus! {

/// A lowered function declaration.
#[derive(PartialEq, Eq, Debug)]
pub struct Function {
    pub name: Name,
    pub visibility: RawVisibilityId,
    pub is_extern: bool,
    pub params: Vec<TypeRef>,
    pub ret_type: TypeRef,
    pub ast_id: AstId,
}

/// The shape a struct was declared with.
#[derive(Clone, Copy, PartialEq, Eq, Structural, Debug)]
pub enum StructDefKind {
    Record,
    Tuple,
    Unit,
}

/// The fields of a struct: a contiguous identity range in the shared
/// field arena for record and tuple structs, nothing for unit structs.
#[derive(Clone, Copy, PartialEq, Eq, Structural, Debug)]
pub enum Fields {
    Record(IdRange),
    Tuple(IdRange),
    Unit,
}

impl Fields {
    /// The identity range of the fields, if there are any.
    pub open spec fn spec_range(self) -> Option<IdRange> {
        match self {
            Fields::Record(r) => Some(r),
            Fields::Tuple(r) => Some(r),
            Fields::Unit => None,
        }
    }
}

/// A lowered struct declaration.
#[derive(PartialEq, Eq, Debug)]
pub struct Struct {
    pub name: Name,
    pub visibility: RawVisibilityId,
    pub fields: Fields,
    pub ast_id: AstId,
    pub kind: StructDefKind,
}

/// A lowered type-alias declaration.
#[derive(PartialEq, Eq, Debug)]
pub struct TypeAlias {
    pub name: Name,
    pub visibility: RawVisibilityId,
    pub type_ref: Option<TypeRef>,
    pub ast_id: AstId,
}

/// A lowered constant declaration.
#[derive(PartialEq, Eq, Debug)]
pub struct Const {
    pub name: Name,
    pub visibility: RawVisibilityId,
    pub type_ref: Option<TypeRef>,
    pub ast_id: AstId,
}

/// One field of a struct: its (declared or synthesized) name and its
/// lowered type.
#[derive(PartialEq, Eq, Debug)]
pub struct Field {
    pub name: Name,
    pub type_ref: TypeRef,
}

/// A reference to one top-level item, tagged by kind.
#[derive(Clone, Copy, PartialEq, Eq, Structural, Hash, Debug)]
pub enum ModItem {
    Function(LocalFunctionId),
    Struct(LocalStructId),
    TypeAlias(LocalTypeAliasId),
    Const(LocalConstId),
}

/// A tree-level diagnostic.
#[derive(PartialEq, Eq, Debug)]
pub enum ItemTreeDiagnostic {
    /// Two top-level items declare the same name; `first` is the earliest
    /// declaration of the name, `second` the later, flagged one.
    DuplicateDefinition { name: Name, first: ModItem, second: ModItem },
}

/// One arena per item kind, plus the shared field and visibility arenas.
#[derive(PartialEq, Eq, Debug)]
pub struct ItemTreeData {
    pub functions: Arena<Function>,
    pub structs: Arena<Struct>,
    pub type_aliases: Arena<TypeAlias>,
    pub constants: Arena<Const>,
    pub fields: Arena<Field>,
    pub visibilities: Arena<RawVisibility>,
}

/// One file's item tree.
#[derive(PartialEq, Eq, Debug)]
pub struct ItemTree {
    pub file_id: FileId,
    pub top_level: Vec<ModItem>,
    pub data: ItemTreeData,
    pub diagnostics: Vec<ItemTreeDiagnostic>,
}

// ------------------------------------------------------------------
// Mathematical models. Contracts about trees are stated over these.
// ------------------------------------------------------------------

/// Mathematical form of a lowered function.
#[verifier::ext_equal]
pub struct FunctionModel {
    pub name: NameModel,
    pub visibility: RawVisibilityId,
    pub is_extern: bool,
    pub params: Seq<TypeRefModel>,
    pub ret_type: TypeRefModel,
    pub ast_id: AstId,
}

/// Mathematical form of a lowered struct.
#[verifier::ext_equal]
pub struct StructModel {
    pub name: NameModel,
    pub visibility: RawVisibilityId,
    pub fields: Fields,
    pub ast_id: AstId,
    pub kind: StructDefKind,
}

/// Mathematical form of a lowered type alias.
#[verifier::ext_equal]
pub struct TypeAliasModel {
    pub name: NameModel,
    pub visibility: RawVisibilityId,
    pub type_ref: Option<TypeRefModel>,
    pub ast_id: AstId,
}

/// Mathematical form of a lowered constant.
#[verifier::ext_equal]
pub struct ConstModel {
    pub name: NameModel,
    pub visibility: RawVisibilityId,
    pub type_ref: Option<TypeRefModel>,
    pub ast_id: AstId,
}

/// Mathematical form of a field.
#[verifier::ext_equal]
pub struct FieldModel {
    pub name: NameModel,
    pub type_ref: TypeRefModel,
}

/// Mathematical form of a tree-level diagnostic.
#[verifier::ext_equal]
pub enum ItemTreeDiagnosticModel {
    DuplicateDefinition { name: NameModel, first: ModItem, second: ModItem },
}

/// Mathematical form of the arenas.
#[verifier::ext_equal]
pub struct ItemTreeDataModel {
    pub functions: Seq<FunctionModel>,
    pub structs: Seq<StructModel>,
    pub type_aliases: Seq<TypeAliasModel>,
    pub constants: Seq<ConstModel>,
    pub fields: Seq<FieldModel>,
    pub visibilities: Seq<RawVisibility>,
}

/// Mathematical form of a whole item tree.
#[verifier::ext_equal]
pub struct ItemTreeModel {
    pub file_id: FileId,
    pub top_level: Seq<ModItem>,
    pub data: ItemTreeDataModel,
    pub diagnostics: Seq<ItemTreeDiagnosticModel>,
}

impl View for Function {
    type V = FunctionModel;

    open spec fn view(&self) -> FunctionModel {
        FunctionModel {
            name: self.name@,
            visibility: self.visibility,
            is_extern: self.is_extern,
            params: self.params@.map_values(|t: TypeRef| t@),
            ret_type: self.ret_type@,
            ast_id: self.ast_id,
        }
    }
}

impl View for Struct {
    type V = StructModel;

    open spec fn view(&self) -> StructModel {
        StructModel {
            name: self.name@,
            visibility: self.visibility,
            fields: self.fields,
            ast_id: self.ast_id,
            kind: self.kind,
        }
    }
}

impl View for TypeAlias {
    type V = TypeAliasModel;

    open spec fn view(&self) -> TypeAliasModel {
        TypeAliasModel {
            name: self.name@,
            visibility: self.visibility,
            type_ref: match &self.type_ref {
                Some(t) => Some(t@),
                None => None,
            },
            ast_id: self.ast_id,
        }
    }
}

impl View for Const {
    type V = ConstModel;

    open spec fn view(&self) -> ConstModel {
        ConstModel {
            name: self.name@,
            visibility: self.visibility,
            type_ref: match &self.type_ref {
                Some(t) => Some(t@),
                None => None,
            },
            ast_id: self.ast_id,
        }
    }
}

impl View for Field {
    type V = FieldModel;

    open spec fn view(&self) -> FieldModel {
        FieldModel { name: self.name@, type_ref: self.type_ref@ }
    }
}

impl View for ItemTreeDiagnostic {
    type V = ItemTreeDiagnosticModel;

    open spec fn view(&self) -> ItemTreeDiagnosticModel {
        match self {
            ItemTreeDiagnostic::DuplicateDefinition { name, first, second } => {
                ItemTreeDiagnosticModel::DuplicateDefinition {
                    name: name@,
                    first: *first,
                    second: *second,
                }
            },
        }
    }
}

impl View for ItemTreeData {
    type V = ItemTreeDataModel;

    open spec fn view(&self) -> ItemTreeDataModel {
        ItemTreeDataModel {
            functions: self.functions@.map_values(|x: Function| x@),
            structs: self.structs@.map_values(|x: Struct| x@),
            type_aliases: self.type_aliases@.map_values(|x: TypeAlias| x@),
            constants: self.constants@.map_values(|x: Const| x@),
            fields: self.fields@.map_values(|x: Field| x@),
            visibilities: self.visibilities@,
        }
    }
}

impl View for ItemTree {
    type V = ItemTreeModel;

    open spec fn view(&self) -> ItemTreeModel {
        ItemTreeModel {
            file_id: self.file_id,
            top_level: self.top_level@,
            data: self.data@,
            diagnostics: self.diagnostics@.map_values(|d: ItemTreeDiagnostic| d@),
        }
    }
}

impl ItemTreeDataModel {
    /// The model of empty arenas.
    pub open spec fn empty() -> ItemTreeDataModel {
        ItemTreeDataModel {
            functions: Seq::empty(),
            structs: Seq::empty(),
            type_aliases: Seq::empty(),
            constants: Seq::empty(),
            fields: Seq::empty(),
            visibilities: Seq::empty(),
        }
    }

    /// Whether an item reference points into the arenas.
    pub open spec fn item_in_bounds(self, item: ModItem) -> bool {
        match item {
            ModItem::Function(id) => id.0 < self.functions.len(),
            ModItem::Struct(id) => id.0 < self.structs.len(),
            ModItem::TypeAlias(id) => id.0 < self.type_aliases.len(),
            ModItem::Const(id) => id.0 < self.constants.len(),
        }
    }

    /// The declared name of a referenced item.
    pub open spec fn item_name(self, item: ModItem) -> NameModel
        recommends
            self.item_in_bounds(item),
    {
        match item {
            ModItem::Function(id) => self.functions[id.0 as int].name,
            ModItem::Struct(id) => self.structs[id.0 as int].name,
            ModItem::TypeAlias(id) => self.type_aliases[id.0 as int].name,
            ModItem::Const(id) => self.constants[id.0 as int].name,
        }
    }
}

/// Whether the field ranges of two structs share no identity.
pub open spec fn ranges_disjoint(a: Fields, b: Fields) -> bool {
    match (a.spec_range(), b.spec_range()) {
        (Some(r1), Some(r2)) => r1.disjoint(r2),
        _ => true,
    }
}

impl ItemTreeDataModel {
    /// Every identity stored in a record points into these arenas: each
    /// item's visibility exists, each struct's field range lies inside
    /// the field arena with ordered bounds, and no two structs' ranges
    /// overlap.
    pub open spec fn wf(self) -> bool {
        &&& forall|i: int|
            0 <= i < self.functions.len() ==> (#[trigger] self.functions[i].visibility).0
                < self.visibilities.len()
        &&& forall|i: int|
            0 <= i < self.structs.len() ==> (#[trigger] self.structs[i].visibility).0
                < self.visibilities.len()
        &&& forall|i: int|
            0 <= i < self.type_aliases.len() ==> (#[trigger] self.type_aliases[i].visibility).0
                < self.visibilities.len()
        &&& forall|i: int|
            0 <= i < self.constants.len() ==> (#[trigger] self.constants[i].visibility).0
                < self.visibilities.len()
        &&& forall|i: int|
            0 <= i < self.structs.len() ==> (match (#[trigger] self.structs[i].fields).spec_range() {
                Some(r) => r.start <= r.end <= self.fields.len(),
                None => true,
            })
        &&& forall|i: int, j: int|
            0 <= i < j < self.structs.len() ==> ranges_disjoint(
                (#[trigger] self.structs[i]).fields,
                (#[trigger] self.structs[j]).fields,
            )
    }
}

impl ItemTreeModel {
    /// The whole tree is well formed: the arenas are, and every top-level
    /// reference points into them.
    pub open spec fn wf(self) -> bool {
        &&& self.data.wf()
        &&& forall|i: int|
            0 <= i < self.top_level.len() ==> self.data.item_in_bounds(#[trigger] self.top_level[i])
    }
}

impl ItemTreeData {
    /// Empty arenas: the starting point of a lowering pass.
    pub fn empty() -> (d: ItemTreeData)
        ensures
            d@ =~= ItemTreeDataModel::empty(),
    {
        ItemTreeData {
            functions: Arena::new(),
            structs: Arena::new(),
            type_aliases: Arena::new(),
            constants: Arena::new(),
            fields: Arena::new(),
            visibilities: Arena::new(),
        }
    }
}

impl Default for ItemTreeData {
    fn default() -> (d: Self)
        ensures
            d@ =~= ItemTreeDataModel::empty(),
    {
        ItemTreeData::empty()
    }
}

impl ItemTree {
    /// Every identity stored anywhere in the tree points into the tree's
    /// own arenas, and every struct's field range lies inside the field
    /// arena with ordered bounds.
    pub open spec fn wf(self) -> bool {
        self@.wf()
    }

    /// The function record an identity denotes.
    pub fn function(&self, id: LocalFunctionId) -> (f: &Function)
        requires
            id.0 < self@.data.functions.len(),
        ensures
            f@ == self@.data.functions[id.0 as int],
    {
        self.data.functions.get(id.0)
    }

    /// The struct record an identity denotes.
    pub fn strukt(&self, id: LocalStructId) -> (s: &Struct)
        requires
            id.0 < self@.data.structs.len(),
        ensures
            s@ == self@.data.structs[id.0 as int],
    {
        self.data.structs.get(id.0)
    }

    /// The type-alias record an identity denotes.
    pub fn type_alias(&self, id: LocalTypeAliasId) -> (t: &TypeAlias)
        requires
            id.0 < self@.data.type_aliases.len(),
        ensures
            t@ == self@.data.type_aliases[id.0 as int],
    {
        self.data.type_aliases.get(id.0)
    }

    /// The constant record an identity denotes.
    pub fn constant(&self, id: LocalConstId) -> (c: &Const)
        requires
            id.0 < self@.data.constants.len(),
        ensures
            c@ == self@.data.constants[id.0 as int],
    {
        self.data.constants.get(id.0)
    }

    /// The field record an identity denotes.
    pub fn field(&self, idx: usize) -> (f: &Field)
        requires
            idx < self@.data.fields.len(),
        ensures
            f@ == self@.data.fields[idx as int],
    {
        self.data.fields.get(idx)
    }

    /// The lowered visibility an identity denotes.
    pub fn visibility(&self, id: RawVisibilityId) -> (v: &RawVisibility)
        requires
            id.0 < self@.data.visibilities.len(),
        ensures
            *v == self@.data.visibilities[id.0 as int],
    {
        self.data.visibilities.get(id.0)
    }
}

} // verus!
