//! The lowering pass from a syntax tree to an `ItemTree`.
//!
//! A single top-to-bottom pass over the file's module-level items. Each
//! item node is dispatched by syntactic kind; an item without a declared
//! name is silently dropped (malformed declarations are a parser-level
//! concern). After all items are lowered, one scan over the top-level
//! list flags every later occurrence of an already-declared name with a
//! `DuplicateDefinition` diagnostic; the first declaration stays the
//! canonical one and nothing is removed from the tree.
//!
//! The entire pass is specified by the `s_*` functions below: the tree an
//! exec run produces is, in its mathematical form, exactly
//! `s_item_tree` of the input. The pass never fails: malformed input
//! degrades to sentinels or dropped items, and the tree returned is
//! always well formed.

use vstd::prelude::*;

use crate::arena::IdRange;
use crate::ids::{FileId, LocalConstId, LocalFunctionId, LocalStructId, LocalTypeAliasId,
    RawVisibilityId};
use crate::item_tree::{ranges_disjoint, Const, ConstModel, Field, FieldModel, Fields, Function,
    FunctionModel, ItemTree, ItemTreeData, ItemTreeDataModel, ItemTreeDiagnostic,
    ItemTreeDiagnosticModel, ItemTreeModel, ModItem, Struct, StructDefKind, StructModel,
    TypeAlias, TypeAliasModel};
use crate::name::{Name, NameModel};
use crate::syntax::{ConstDefNode, FunctionDefNode, ModuleItemNode, ParamNode,
    RecordFieldDefNode, SourceFile, StructDefNode, StructKindNode, TupleFieldDefNode,
    TypeAliasDefNode, TypeRefNode, VisibilityMarker};
use crate::type_ref::{s_type_ref, s_type_ref_opt, TypeRef, TypeRefModel};
use crate::visibility::RawVisibility;

verus! {

/// Mathematical form of a lowering context in progress.
#[verifier::ext_equal]
pub struct ContextModel {
    pub file: FileId,
    pub data: ItemTreeDataModel,
    pub diagnostics: Seq<ItemTreeDiagnosticModel>,
}

/// The lowering context: the file being lowered, the arenas filled so
/// far, and the diagnostics collected so far.
pub struct Context {
    file: FileId,
    data: ItemTreeData,
    diagnostics: Vec<ItemTreeDiagnostic>,
}

impl View for Context {
    type V = ContextModel;

    closed spec fn view(&self) -> ContextModel {
        ContextModel {
            file: self.file,
            data: self.data@,
            diagnostics: self.diagnostics@.map_values(|d: ItemTreeDiagnostic| d@),
        }
    }
}

/// What lowering an omitted or written return type yields: absence means
/// the `Empty` sentinel.
pub open spec fn s_ret_type(node: Option<TypeRefNode>) -> TypeRefModel {
    match node {
        Some(t) => s_type_ref(t),
        None => TypeRefModel::Empty,
    }
}

/// The lowered parameter types of a function, one per parameter, in
/// declaration order.
pub open spec fn s_params(params: Seq<ParamNode>) -> Seq<TypeRefModel>
    decreases params.len(),
{
    if params.len() == 0 {
        Seq::empty()
    } else {
        s_params(params.drop_last()).push(s_type_ref_opt(params.last().ascribed_type))
    }
}

/// The fields lowered from a record field list: one per field that has a
/// name, in declaration order; nameless fields are dropped.
pub open spec fn s_record_fields(fs: Seq<RecordFieldDefNode>) -> Seq<FieldModel>
    decreases fs.len(),
{
    if fs.len() == 0 {
        Seq::empty()
    } else {
        let rest = s_record_fields(fs.drop_last());
        match fs.last().name {
            Some(n) => rest.push(
                FieldModel { name: n@, type_ref: s_type_ref_opt(fs.last().ascribed_type) },
            ),
            None => rest,
        }
    }
}

/// The fields lowered from a tuple field list: one per field, named by
/// its position.
pub open spec fn s_tuple_fields(fs: Seq<TupleFieldDefNode>) -> Seq<FieldModel>
    decreases fs.len(),
{
    if fs.len() == 0 {
        Seq::empty()
    } else {
        s_tuple_fields(fs.drop_last()).push(
            FieldModel {
                name: NameModel::TupleField(fs.len() - 1),
                type_ref: s_type_ref_opt(fs.last().type_ref),
            },
        )
    }
}

/// Lowering one function node: nameless nodes are dropped; otherwise one
/// visibility and one function record are allocated.
pub open spec fn s_lower_function(cx: ContextModel, node: FunctionDefNode) -> (
    ContextModel,
    Option<ModItem>,
) {
    match node.name {
        None => (cx, None),
        Some(name) => {
            let vis_id = RawVisibilityId(cx.data.visibilities.len() as usize);
            let f = FunctionModel {
                name: name@,
                visibility: vis_id,
                is_extern: node.is_extern,
                params: s_params(node.params@),
                ret_type: s_ret_type(node.ret_type),
                ast_id: node.ast_id,
            };
            let id = LocalFunctionId(cx.data.functions.len() as usize);
            let data = ItemTreeDataModel {
                functions: cx.data.functions.push(f),
                structs: cx.data.structs,
                type_aliases: cx.data.type_aliases,
                constants: cx.data.constants,
                fields: cx.data.fields,
                visibilities: cx.data.visibilities.push(
                    RawVisibility::spec_from_ast(node.visibility),
                ),
            };
            (
                ContextModel { file: cx.file, data, diagnostics: cx.diagnostics },
                Some(ModItem::Function(id)),
            )
        },
    }
}

/// The fields a struct node contributes to the shared field arena.
pub open spec fn s_struct_new_fields(kind: StructKindNode) -> Seq<FieldModel> {
    match kind {
        StructKindNode::Record(fs) => s_record_fields(fs@),
        StructKindNode::Tuple(fs) => s_tuple_fields(fs@),
        StructKindNode::Unit => Seq::empty(),
    }
}

/// The `Fields` tag of a struct node, given the captured range.
pub open spec fn s_fields_tag(kind: StructKindNode, range: IdRange) -> Fields {
    match kind {
        StructKindNode::Record(_) => Fields::Record(range),
        StructKindNode::Tuple(_) => Fields::Tuple(range),
        StructKindNode::Unit => Fields::Unit,
    }
}

/// The declared shape of a struct node.
pub open spec fn s_struct_kind(kind: StructKindNode) -> StructDefKind {
    match kind {
        StructKindNode::Record(_) => StructDefKind::Record,
        StructKindNode::Tuple(_) => StructDefKind::Tuple,
        StructKindNode::Unit => StructDefKind::Unit,
    }
}

/// Lowering one struct node: its fields go to the shared field arena as
/// one contiguous range, captured by the arena length before and after.
pub open spec fn s_lower_struct(cx: ContextModel, node: StructDefNode) -> (
    ContextModel,
    Option<ModItem>,
) {
    match node.name {
        None => (cx, None),
        Some(name) => {
            let vis_id = RawVisibilityId(cx.data.visibilities.len() as usize);
            let new_fields = s_struct_new_fields(node.kind);
            let range = IdRange {
                start: cx.data.fields.len() as usize,
                end: (cx.data.fields.len() + new_fields.len()) as usize,
            };
            let s = StructModel {
                name: name@,
                visibility: vis_id,
                fields: s_fields_tag(node.kind, range),
                ast_id: node.ast_id,
                kind: s_struct_kind(node.kind),
            };
            let id = LocalStructId(cx.data.structs.len() as usize);
            let data = ItemTreeDataModel {
                functions: cx.data.functions,
                structs: cx.data.structs.push(s),
                type_aliases: cx.data.type_aliases,
                constants: cx.data.constants,
                fields: cx.data.fields + new_fields,
                visibilities: cx.data.visibilities.push(
                    RawVisibility::spec_from_ast(node.visibility),
                ),
            };
            (
                ContextModel { file: cx.file, data, diagnostics: cx.diagnostics },
                Some(ModItem::Struct(id)),
            )
        },
    }
}

/// Lowering one type-alias node.
pub open spec fn s_lower_type_alias(cx: ContextModel, node: TypeAliasDefNode) -> (
    ContextModel,
    Option<ModItem>,
) {
    match node.name {
        None => (cx, None),
        Some(name) => {
            let vis_id = RawVisibilityId(cx.data.visibilities.len() as usize);
            let t = TypeAliasModel {
                name: name@,
                visibility: vis_id,
                type_ref: match node.type_ref {
                    Some(tr) => Some(s_type_ref(tr)),
                    None => None,
                },
                ast_id: node.ast_id,
            };
            let id = LocalTypeAliasId(cx.data.type_aliases.len() as usize);
            let data = ItemTreeDataModel {
                functions: cx.data.functions,
                structs: cx.data.structs,
                type_aliases: cx.data.type_aliases.push(t),
                constants: cx.data.constants,
                fields: cx.data.fields,
                visibilities: cx.data.visibilities.push(
                    RawVisibility::spec_from_ast(node.visibility),
                ),
            };
            (
                ContextModel { file: cx.file, data, diagnostics: cx.diagnostics },
                Some(ModItem::TypeAlias(id)),
            )
        },
    }
}

/// Lowering one constant node.
pub open spec fn s_lower_const(cx: ContextModel, node: ConstDefNode) -> (
    ContextModel,
    Option<ModItem>,
) {
    match node.name {
        None => (cx, None),
        Some(name) => {
            let vis_id = RawVisibilityId(cx.data.visibilities.len() as usize);
            let c = ConstModel {
                name: name@,
                visibility: vis_id,
                type_ref: match node.type_ref {
                    Some(tr) => Some(s_type_ref(tr)),
                    None => None,
                },
                ast_id: node.ast_id,
            };
            let id = LocalConstId(cx.data.constants.len() as usize);
            let data = ItemTreeDataModel {
                functions: cx.data.functions,
                structs: cx.data.structs,
                type_aliases: cx.data.type_aliases,
                constants: cx.data.constants.push(c),
                fields: cx.data.fields,
                visibilities: cx.data.visibilities.push(
                    RawVisibility::spec_from_ast(node.visibility),
                ),
            };
            (
                ContextModel { file: cx.file, data, diagnostics: cx.diagnostics },
                Some(ModItem::Const(id)),
            )
        },
    }
}

/// Lowering one item node, dispatched by syntactic kind.
pub open spec fn s_lower_item(cx: ContextModel, item: ModuleItemNode) -> (
    ContextModel,
    Option<ModItem>,
) {
    match item {
        ModuleItemNode::Function(n) => s_lower_function(cx, n),
        ModuleItemNode::Struct(n) => s_lower_struct(cx, n),
        ModuleItemNode::TypeAlias(n) => s_lower_type_alias(cx, n),
        ModuleItemNode::Const(n) => s_lower_const(cx, n),
    }
}

/// Lowering a sequence of item nodes, left to right; dropped items leave
/// no reference in the top-level list.
pub open spec fn s_lower_items(cx: ContextModel, items: Seq<ModuleItemNode>) -> (
    ContextModel,
    Seq<ModItem>,
)
    decreases items.len(),
{
    if items.len() == 0 {
        (cx, Seq::empty())
    } else {
        let (cx1, first) = s_lower_item(cx, items[0]);
        let (cx2, rest) = s_lower_items(cx1, items.drop_first());
        match first {
            Some(it) => (cx2, seq![it] + rest),
            None => (cx2, rest),
        }
    }
}

impl Context {
    /// Constructs a new lowering context for the specified file.
    pub fn new(file: FileId) -> (cx: Context)
        ensures
            cx@ == (ContextModel {
                file,
                data: ItemTreeDataModel::empty(),
                diagnostics: Seq::<ItemTreeDiagnosticModel>::empty(),
            }),
    {
        let cx = Context { file, data: ItemTreeData::empty(), diagnostics: Vec::new() };
        proof {
            assert(cx@ =~= ContextModel {
                file,
                data: ItemTreeDataModel::empty(),
                diagnostics: Seq::<ItemTreeDiagnosticModel>::empty(),
            });
        }
        cx
    }

    /// Lowers a written type.
    fn lower_type_ref(&self, node: &TypeRefNode) -> (r: TypeRef)
        ensures
            r@ == s_type_ref(*node),
    {
        TypeRef::from_ast(node)
    }

    /// Lowers an optional written type, degrading absence to `Error`.
    fn lower_type_ref_opt(&self, node: &Option<TypeRefNode>) -> (r: TypeRef)
        ensures
            r@ == s_type_ref_opt(*node),
    {
        TypeRef::from_ast_opt(node)
    }

    /// Lowers a visibility marker into the visibility arena.
    fn lower_visibility(&mut self, marker: &Option<VisibilityMarker>) -> (id: RawVisibilityId)
        ensures
            id.0 == old(self)@.data.visibilities.len(),
            final(self)@ == (ContextModel {
                file: old(self)@.file,
                data: ItemTreeDataModel {
                    visibilities: old(self)@.data.visibilities.push(
                        RawVisibility::spec_from_ast(*marker),
                    ),
                    ..old(self)@.data
                },
                diagnostics: old(self)@.diagnostics,
            }),
    {
        let vis = RawVisibility::from_ast(marker);
        let idx = self.data.visibilities.allocate(vis);
        proof {
            assert(self@.data =~= ItemTreeDataModel {
                visibilities: old(self)@.data.visibilities.push(
                    RawVisibility::spec_from_ast(*marker),
                ),
                ..old(self)@.data
            });
            assert(self@ =~= ContextModel {
                file: old(self)@.file,
                data: self@.data,
                diagnostics: old(self)@.diagnostics,
            });
        }
        RawVisibilityId(idx)
    }

    /// Returns the identity the next allocated field will get.
    fn next_field_idx(&self) -> (idx: usize)
        ensures
            idx == self@.data.fields.len(),
    {
        self.data.fields.len()
    }

    /// Lowers a function; a nameless one is dropped.
    fn lower_function(&mut self, func: &FunctionDefNode) -> (r: Option<LocalFunctionId>)
        ensures
            final(self)@ == s_lower_function(old(self)@, *func).0,
            (match r {
                Some(id) => Some(ModItem::Function(id)),
                None => None::<ModItem>,
            }) == s_lower_function(old(self)@, *func).1,
    {
        let name = match &func.name {
            Some(n) => n.clone(),
            None => {
                return None;
            },
        };
        let visibility = self.lower_visibility(&func.visibility);

        let ghost cx_mid = self@;

        // Lower all the params
        let mut params: Vec<TypeRef> = Vec::new();
        let n = func.params.len();
        for i in 0..n
            invariant
                n == func.params.len(),
                self@ == cx_mid,
                params@.map_values(|t: TypeRef| t@) =~= s_params(func.params@.take(i as int)),
        {
            let type_ref = self.lower_type_ref_opt(&func.params[i].ascribed_type);
            params.push(type_ref);
            proof {
                assert(func.params@.take(i + 1 as int).drop_last() =~= func.params@.take(i as int));
                assert(params@.map_values(|t: TypeRef| t@) =~= s_params(
                    func.params@.take(i as int),
                ).push(s_type_ref_opt(func.params@[i as int].ascribed_type)));
            }
        }
        proof {
            assert(func.params@.take(n as int) =~= func.params@);
        }

        // Lower the return type
        let ret_type = match &func.ret_type {
            Some(t) => self.lower_type_ref(t),
            None => TypeRef::Empty,
        };

        let is_extern = func.is_extern;
        let ast_id = func.ast_id;
        let res = Function { name, visibility, is_extern, params, ret_type, ast_id };
        let idx = self.data.functions.allocate(res);
        proof {
            assert(self@.data =~= s_lower_function(old(self)@, *func).0.data);
            assert(self@ =~= s_lower_function(old(self)@, *func).0);
        }
        Some(LocalFunctionId(idx))
    }

    /// Lowers a struct; a nameless one is dropped.
    fn lower_struct(&mut self, strukt: &StructDefNode) -> (r: Option<LocalStructId>)
        ensures
            final(self)@ == s_lower_struct(old(self)@, *strukt).0,
            (match r {
                Some(id) => Some(ModItem::Struct(id)),
                None => None::<ModItem>,
            }) == s_lower_struct(old(self)@, *strukt).1,
    {
        let name = match &strukt.name {
            Some(n) => n.clone(),
            None => {
                return None;
            },
        };
        let visibility = self.lower_visibility(&strukt.visibility);
        let fields = self.lower_fields(&strukt.kind);
        let ast_id = strukt.ast_id;
        let kind = match &strukt.kind {
            StructKindNode::Record(_) => StructDefKind::Record,
            StructKindNode::Tuple(_) => StructDefKind::Tuple,
            StructKindNode::Unit => StructDefKind::Unit,
        };
        let res = Struct { name, visibility, fields, ast_id, kind };
        let idx = self.data.structs.allocate(res);
        proof {
            assert(self@.data =~= s_lower_struct(old(self)@, *strukt).0.data);
            assert(self@ =~= s_lower_struct(old(self)@, *strukt).0);
        }
        Some(LocalStructId(idx))
    }

    /// Lowers the field list of a struct into the shared field arena,
    /// capturing the contiguous range the fields occupy.
    fn lower_fields(&mut self, struct_kind: &StructKindNode) -> (fields: Fields)
        ensures
            final(self)@ == (ContextModel {
                file: old(self)@.file,
                data: ItemTreeDataModel {
                    fields: old(self)@.data.fields + s_struct_new_fields(*struct_kind),
                    ..old(self)@.data
                },
                diagnostics: old(self)@.diagnostics,
            }),
            fields == s_fields_tag(
                *struct_kind,
                IdRange {
                    start: old(self)@.data.fields.len() as usize,
                    end: (old(self)@.data.fields.len() + s_struct_new_fields(
                        *struct_kind,
                    ).len()) as usize,
                },
            ),
    {
        let r = match struct_kind {
            StructKindNode::Record(it) => {
                let range = self.lower_record_fields(it);
                Fields::Record(range)
            },
            StructKindNode::Tuple(it) => {
                let range = self.lower_tuple_fields(it);
                Fields::Tuple(range)
            },
            StructKindNode::Unit => Fields::Unit,
        };
        proof {
            assert(self@.data.fields =~= old(self)@.data.fields + s_struct_new_fields(
                *struct_kind,
            ));
            assert(self@ =~= ContextModel {
                file: old(self)@.file,
                data: ItemTreeDataModel {
                    fields: old(self)@.data.fields + s_struct_new_fields(*struct_kind),
                    ..old(self)@.data
                },
                diagnostics: old(self)@.diagnostics,
            });
        }
        r
    }

    /// Lowers record fields (e.g. `{ a: i32, b: i32 }`); fields without a
    /// name are dropped.
    fn lower_record_fields(&mut self, fields: &Vec<RecordFieldDefNode>) -> (range: IdRange)
        ensures
            final(self)@ == (ContextModel {
                file: old(self)@.file,
                data: ItemTreeDataModel {
                    fields: old(self)@.data.fields + s_record_fields(fields@),
                    ..old(self)@.data
                },
                diagnostics: old(self)@.diagnostics,
            }),
            range == (IdRange {
                start: old(self)@.data.fields.len() as usize,
                end: (old(self)@.data.fields.len() + s_record_fields(fields@).len()) as usize,
            }),
    {
        let start = self.next_field_idx();
        let n = fields.len();
        for i in 0..n
            invariant
                n == fields.len(),
                self@.file == old(self)@.file,
                self@.diagnostics == old(self)@.diagnostics,
                self@.data =~= (ItemTreeDataModel {
                    fields: old(self)@.data.fields + s_record_fields(fields@.take(i as int)),
                    ..old(self)@.data
                }),
        {
            let field_opt = self.lower_record_field(&fields[i]);
            let ghost prev_fields = self@.data.fields;
            match field_opt {
                Some(data) => {
                    let ghost dm = data@;
                    let _idx = self.data.fields.allocate(data);
                    proof {
                        assert(self@.data.fields =~= prev_fields.push(dm));
                    }
                },
                None => {},
            }
            proof {
                assert(fields@.take(i + 1 as int).drop_last() =~= fields@.take(i as int));
                assert(fields@.take(i + 1 as int).last() == fields@[i as int]);
                assert(s_record_fields(fields@.take(i + 1 as int)) == (match fields@[i as int].name {
                    Some(n) => s_record_fields(fields@.take(i as int)).push(
                        FieldModel {
                            name: n@,
                            type_ref: s_type_ref_opt(fields@[i as int].ascribed_type),
                        },
                    ),
                    None => s_record_fields(fields@.take(i as int)),
                }));
                assert(self@.data =~= ItemTreeDataModel {
                    fields: old(self)@.data.fields + s_record_fields(fields@.take(i + 1 as int)),
                    ..old(self)@.data
                });
            }
        }
        let end = self.next_field_idx();
        proof {
            assert(fields@.take(n as int) =~= fields@);
            assert(self@ =~= ContextModel {
                file: old(self)@.file,
                data: ItemTreeDataModel {
                    fields: old(self)@.data.fields + s_record_fields(fields@),
                    ..old(self)@.data
                },
                diagnostics: old(self)@.diagnostics,
            });
        }
        IdRange::new(start, end)
    }

    /// Lowers one record field (e.g. `a: i32`).
    fn lower_record_field(&mut self, field: &RecordFieldDefNode) -> (r: Option<Field>)
        ensures
            *final(self) == *old(self),
            (match field.name {
                Some(n) => (match r {
                    Some(f) => f@ == (FieldModel {
                        name: n@,
                        type_ref: s_type_ref_opt(field.ascribed_type),
                    }),
                    None => false,
                }),
                None => r is None,
            }),
    {
        let name = match &field.name {
            Some(n) => n.clone(),
            None => {
                return None;
            },
        };
        let type_ref = self.lower_type_ref_opt(&field.ascribed_type);
        let res = Field { name, type_ref };
        Some(res)
    }

    /// Lowers tuple fields (e.g. `(i32, u8)`), synthesizing positional
    /// names.
    fn lower_tuple_fields(&mut self, fields: &Vec<TupleFieldDefNode>) -> (range: IdRange)
        ensures
            final(self)@ == (ContextModel {
                file: old(self)@.file,
                data: ItemTreeDataModel {
                    fields: old(self)@.data.fields + s_tuple_fields(fields@),
                    ..old(self)@.data
                },
                diagnostics: old(self)@.diagnostics,
            }),
            range == (IdRange {
                start: old(self)@.data.fields.len() as usize,
                end: (old(self)@.data.fields.len() + s_tuple_fields(fields@).len()) as usize,
            }),
    {
        let start = self.next_field_idx();
        let n = fields.len();
        for i in 0..n
            invariant
                n == fields.len(),
                self@.file == old(self)@.file,
                self@.diagnostics == old(self)@.diagnostics,
                self@.data =~= (ItemTreeDataModel {
                    fields: old(self)@.data.fields + s_tuple_fields(fields@.take(i as int)),
                    ..old(self)@.data
                }),
        {
            let data = self.lower_tuple_field(i, &fields[i]);
            let ghost prev_fields = self@.data.fields;
            let ghost dm = data@;
            let _idx = self.data.fields.allocate(data);
            proof {
                assert(self@.data.fields =~= prev_fields.push(dm));
                assert(fields@.take(i + 1 as int).drop_last() =~= fields@.take(i as int));
                assert(fields@.take(i + 1 as int).last() == fields@[i as int]);
                assert(fields@.take(i + 1 as int).len() == i + 1);
                assert(s_tuple_fields(fields@.take(i + 1 as int)) == s_tuple_fields(
                    fields@.take(i as int),
                ).push(
                    FieldModel {
                        name: NameModel::TupleField(i as int),
                        type_ref: s_type_ref_opt(fields@[i as int].type_ref),
                    },
                ));
                assert(self@.data =~= ItemTreeDataModel {
                    fields: old(self)@.data.fields + s_tuple_fields(fields@.take(i + 1 as int)),
                    ..old(self)@.data
                });
            }
        }
        let end = self.next_field_idx();
        proof {
            assert(fields@.take(n as int) =~= fields@);
            assert(self@ =~= ContextModel {
                file: old(self)@.file,
                data: ItemTreeDataModel {
                    fields: old(self)@.data.fields + s_tuple_fields(fields@),
                    ..old(self)@.data
                },
                diagnostics: old(self)@.diagnostics,
            });
        }
        IdRange::new(start, end)
    }

    /// Lowers one tuple field (e.g. the `i32` in `(i32, u8)`), naming it
    /// by its position.
    fn lower_tuple_field(&mut self, idx: usize, field: &TupleFieldDefNode) -> (r: Field)
        ensures
            *final(self) == *old(self),
            r@ == (FieldModel {
                name: NameModel::TupleField(idx as int),
                type_ref: s_type_ref_opt(field.type_ref),
            }),
    {
        let name = Name::new_tuple_field(idx);
        let type_ref = self.lower_type_ref_opt(&field.type_ref);
        Field { name, type_ref }
    }

    /// Lowers a type alias (e.g. `type Foo = Bar`); a nameless one is
    /// dropped.
    fn lower_type_alias(&mut self, type_alias: &TypeAliasDefNode) -> (r: Option<LocalTypeAliasId>)
        ensures
            final(self)@ == s_lower_type_alias(old(self)@, *type_alias).0,
            (match r {
                Some(id) => Some(ModItem::TypeAlias(id)),
                None => None::<ModItem>,
            }) == s_lower_type_alias(old(self)@, *type_alias).1,
    {
        let name = match &type_alias.name {
            Some(n) => n.clone(),
            None => {
                return None;
            },
        };
        let visibility = self.lower_visibility(&type_alias.visibility);
        let type_ref = match &type_alias.type_ref {
            Some(ty) => Some(self.lower_type_ref(ty)),
            None => None,
        };
        let ast_id = type_alias.ast_id;
        let res = TypeAlias { name, visibility, type_ref, ast_id };
        let idx = self.data.type_aliases.allocate(res);
        proof {
            assert(self@.data =~= s_lower_type_alias(old(self)@, *type_alias).0.data);
            assert(self@ =~= s_lower_type_alias(old(self)@, *type_alias).0);
        }
        Some(LocalTypeAliasId(idx))
    }

    /// Lowers a constant (e.g. `const FOO: i32 = 3`); a nameless one is
    /// dropped.
    fn lower_const_def(&mut self, const_def: &ConstDefNode) -> (r: Option<LocalConstId>)
        ensures
            final(self)@ == s_lower_const(old(self)@, *const_def).0,
            (match r {
                Some(id) => Some(ModItem::Const(id)),
                None => None::<ModItem>,
            }) == s_lower_const(old(self)@, *const_def).1,
    {
        let name = match &const_def.name {
            Some(n) => n.clone(),
            None => {
                return None;
            },
        };
        let visibility = self.lower_visibility(&const_def.visibility);
        let type_ref = match &const_def.type_ref {
            Some(ty) => Some(self.lower_type_ref(ty)),
            None => None,
        };
        let ast_id = const_def.ast_id;
        let res = Const { name, visibility, type_ref, ast_id };
        let idx = self.data.constants.allocate(res);
        proof {
            assert(self@.data =~= s_lower_const(old(self)@, *const_def).0.data);
            assert(self@ =~= s_lower_const(old(self)@, *const_def).0);
        }
        Some(LocalConstId(idx))
    }

    /// Lowers a single module item, dispatching on its syntactic kind.
    fn lower_mod_item(&mut self, item: &ModuleItemNode) -> (r: Option<ModItem>)
        ensures
            final(self)@ == s_lower_item(old(self)@, *item).0,
            r == s_lower_item(old(self)@, *item).1,
    {
        match item {
            ModuleItemNode::Function(ast) => match self.lower_function(ast) {
                Some(id) => Some(ModItem::Function(id)),
                None => None,
            },
            ModuleItemNode::Struct(ast) => match self.lower_struct(ast) {
                Some(id) => Some(ModItem::Struct(id)),
                None => None,
            },
            ModuleItemNode::TypeAlias(ast) => match self.lower_type_alias(ast) {
                Some(id) => Some(ModItem::TypeAlias(id)),
                None => None,
            },
            ModuleItemNode::Const(ast) => match self.lower_const_def(ast) {
                Some(id) => Some(ModItem::Const(id)),
                None => None,
            },
        }
    }
}


/// Looks a name up among the first occurrences recorded so far: the
/// earliest recorded entry with that name, if any.
pub open spec fn s_seen_lookup(seen: Seq<(NameModel, ModItem)>, name: NameModel) -> Option<ModItem>
    decreases seen.len(),
{
    if seen.len() == 0 {
        None
    } else if seen[0].0 == name {
        Some(seen[0].1)
    } else {
        s_seen_lookup(seen.drop_first(), name)
    }
}

/// The duplicate-name scan over the top-level entries, left to right:
/// an entry whose name was already recorded yields one diagnostic whose
/// `first` is the recorded (earliest) declaration; an entry with a fresh
/// name records it and yields nothing.
pub open spec fn s_dup_scan(
    entries: Seq<(NameModel, ModItem)>,
    seen: Seq<(NameModel, ModItem)>,
) -> Seq<ItemTreeDiagnosticModel>
    decreases entries.len(),
{
    if entries.len() == 0 {
        Seq::empty()
    } else {
        let e = entries[0];
        match s_seen_lookup(seen, e.0) {
            Some(first) => seq![
                ItemTreeDiagnosticModel::DuplicateDefinition { name: e.0, first, second: e.1 },
            ] + s_dup_scan(entries.drop_first(), seen),
            None => s_dup_scan(entries.drop_first(), seen.push(e)),
        }
    }
}

/// The entries the duplicate scan runs over: each top-level item paired
/// with its declared name.
pub open spec fn s_scan_entries(data: ItemTreeDataModel, top: Seq<ModItem>) -> Seq<
    (NameModel, ModItem),
> {
    top.map_values(|it: ModItem| (data.item_name(it), it))
}

/// The complete item tree lowered from a sequence of item nodes: the
/// lowering fold, then the duplicate-name scan over the result.
pub open spec fn s_item_tree(cx: ContextModel, items: Seq<ModuleItemNode>) -> ItemTreeModel {
    let (cx2, top) = s_lower_items(cx, items);
    ItemTreeModel {
        file_id: cx2.file,
        top_level: top,
        data: cx2.data,
        diagnostics: cx2.diagnostics + s_dup_scan(s_scan_entries(cx2.data, top), Seq::empty()),
    }
}

/// Whether every arena of `a` is a prefix of the corresponding arena of
/// `b`: lowering only ever appends.
pub open spec fn data_grows(a: ItemTreeDataModel, b: ItemTreeDataModel) -> bool {
    &&& a.functions.is_prefix_of(b.functions)
    &&& a.structs.is_prefix_of(b.structs)
    &&& a.type_aliases.is_prefix_of(b.type_aliases)
    &&& a.constants.is_prefix_of(b.constants)
    &&& a.fields.is_prefix_of(b.fields)
    &&& a.visibilities.is_prefix_of(b.visibilities)
}

/// Whether the arenas are small enough that every identity fits the
/// machine's word: true of every state an actual lowering run reaches.
pub open spec fn data_fits(d: ItemTreeDataModel) -> bool {
    &&& d.functions.len() <= usize::MAX
    &&& d.structs.len() <= usize::MAX
    &&& d.type_aliases.len() <= usize::MAX
    &&& d.constants.len() <= usize::MAX
    &&& d.fields.len() <= usize::MAX
    &&& d.visibilities.len() <= usize::MAX
}

proof fn lemma_prefix_refl<T>(s: Seq<T>)
    ensures
        s.is_prefix_of(s),
{
    assert(s =~= s.subrange(0, s.len() as int));
}

proof fn lemma_prefix_push<T>(s: Seq<T>, x: T)
    ensures
        s.is_prefix_of(s.push(x)),
{
    assert(s =~= s.push(x).subrange(0, s.len() as int));
}

proof fn lemma_prefix_concat<T>(s: Seq<T>, t: Seq<T>)
    ensures
        s.is_prefix_of(s + t),
{
    assert(s =~= (s + t).subrange(0, s.len() as int));
}

proof fn lemma_prefix_trans<T>(a: Seq<T>, b: Seq<T>, c: Seq<T>)
    requires
        a.is_prefix_of(b),
        b.is_prefix_of(c),
    ensures
        a.is_prefix_of(c),
{
    assert(a =~= c.subrange(0, a.len() as int));
}

proof fn lemma_data_grows_refl(a: ItemTreeDataModel)
    ensures
        data_grows(a, a),
{
    lemma_prefix_refl(a.functions);
    lemma_prefix_refl(a.structs);
    lemma_prefix_refl(a.type_aliases);
    lemma_prefix_refl(a.constants);
    lemma_prefix_refl(a.fields);
    lemma_prefix_refl(a.visibilities);
}

proof fn lemma_data_grows_trans(a: ItemTreeDataModel, b: ItemTreeDataModel, c: ItemTreeDataModel)
    requires
        data_grows(a, b),
        data_grows(b, c),
    ensures
        data_grows(a, c),
{
    lemma_prefix_trans(a.functions, b.functions, c.functions);
    lemma_prefix_trans(a.structs, b.structs, c.structs);
    lemma_prefix_trans(a.type_aliases, b.type_aliases, c.type_aliases);
    lemma_prefix_trans(a.constants, b.constants, c.constants);
    lemma_prefix_trans(a.fields, b.fields, c.fields);
    lemma_prefix_trans(a.visibilities, b.visibilities, c.visibilities);
}

/// Lowering one item only appends to the arenas, keeps the file and the
/// diagnostics, preserves arena well-formedness, and any item reference
/// it returns points at the record it just allocated.
pub proof fn lemma_lower_item_effect(cx: ContextModel, item: ModuleItemNode)
    requires
        data_fits(s_lower_item(cx, item).0.data),
    ensures
        ({
            let (cx1, r) = s_lower_item(cx, item);
            &&& cx1.file == cx.file
            &&& cx1.diagnostics == cx.diagnostics
            &&& data_grows(cx.data, cx1.data)
            &&& (cx.data.wf() ==> cx1.data.wf())
            &&& (match r {
                Some(it) => cx1.data.item_in_bounds(it),
                None => true,
            })
        }),
{
    let (cx1, r) = s_lower_item(cx, item);
    match item {
        ModuleItemNode::Function(n) => {
            match n.name {
                None => lemma_data_grows_refl(cx.data),
                Some(_) => {
                    lemma_prefix_push(cx.data.functions, cx1.data.functions.last());
                    lemma_prefix_refl(cx.data.structs);
                    lemma_prefix_refl(cx.data.type_aliases);
                    lemma_prefix_refl(cx.data.constants);
                    lemma_prefix_refl(cx.data.fields);
                    lemma_prefix_push(cx.data.visibilities, cx1.data.visibilities.last());
                },
            }
        },
        ModuleItemNode::Struct(n) => {
            match n.name {
                None => lemma_data_grows_refl(cx.data),
                Some(_) => {
                    lemma_prefix_refl(cx.data.functions);
                    lemma_prefix_push(cx.data.structs, cx1.data.structs.last());
                    lemma_prefix_refl(cx.data.type_aliases);
                    lemma_prefix_refl(cx.data.constants);
                    lemma_prefix_concat(cx.data.fields, s_struct_new_fields(n.kind));
                    lemma_prefix_push(cx.data.visibilities, cx1.data.visibilities.last());
                },
            }
        },
        ModuleItemNode::TypeAlias(n) => {
            match n.name {
                None => lemma_data_grows_refl(cx.data),
                Some(_) => {
                    lemma_prefix_refl(cx.data.functions);
                    lemma_prefix_refl(cx.data.structs);
                    lemma_prefix_push(cx.data.type_aliases, cx1.data.type_aliases.last());
                    lemma_prefix_refl(cx.data.constants);
                    lemma_prefix_refl(cx.data.fields);
                    lemma_prefix_push(cx.data.visibilities, cx1.data.visibilities.last());
                },
            }
        },
        ModuleItemNode::Const(n) => {
            match n.name {
                None => lemma_data_grows_refl(cx.data),
                Some(_) => {
                    lemma_prefix_refl(cx.data.functions);
                    lemma_prefix_refl(cx.data.structs);
                    lemma_prefix_refl(cx.data.type_aliases);
                    lemma_prefix_push(cx.data.constants, cx1.data.constants.last());
                    lemma_prefix_refl(cx.data.fields);
                    lemma_prefix_push(cx.data.visibilities, cx1.data.visibilities.last());
                },
            }
        },
    }
}

/// Lowering a sequence of items only appends, keeps the file and the
/// diagnostics, preserves arena well-formedness, and every top-level
/// reference it returns points into the final arenas.
pub proof fn lemma_lower_items_effect(cx: ContextModel, items: Seq<ModuleItemNode>)
    requires
        data_fits(s_lower_items(cx, items).0.data),
    ensures
        ({
            let (cx2, top) = s_lower_items(cx, items);
            &&& cx2.file == cx.file
            &&& cx2.diagnostics == cx.diagnostics
            &&& data_grows(cx.data, cx2.data)
            &&& (cx.data.wf() ==> cx2.data.wf())
            &&& forall|j: int|
                0 <= j < top.len() ==> cx2.data.item_in_bounds(#[trigger] top[j])
        }),
    decreases items.len(),
{
    if items.len() == 0 {
        lemma_data_grows_refl(cx.data);
    } else {
        let (cx1, first) = s_lower_item(cx, items[0]);
        let (cx2, rest) = s_lower_items(cx1, items.drop_first());
        lemma_lower_items_effect(cx1, items.drop_first());
        assert(data_fits(cx1.data));
        lemma_lower_item_effect(cx, items[0]);
        lemma_data_grows_trans(cx.data, cx1.data, cx2.data);
        match first {
            Some(it) => {
                assert(cx1.data.item_in_bounds(it));
                assert(cx2.data.item_in_bounds(it));
                let top = s_lower_items(cx, items).1;
                assert(top =~= seq![it] + rest);
                assert(forall|j: int|
                    0 <= j < top.len() ==> cx2.data.item_in_bounds(#[trigger] top[j]));
            },
            None => {},
        }
    }
}

/// Looks a name up in the seen list, front to back.
fn find_seen(seen: &Vec<(Name, ModItem)>, name: &Name) -> (r: Option<ModItem>)
    ensures
        r == s_seen_lookup(seen@.map_values(|p: (Name, ModItem)| (p.0@, p.1)), name@),
{
    let ghost sm = seen@.map_values(|p: (Name, ModItem)| (p.0@, p.1));
    proof {
        assert(sm.skip(0) =~= sm);
    }
    let n = seen.len();
    for i in 0..n
        invariant
            n == seen.len(),
            sm == seen@.map_values(|p: (Name, ModItem)| (p.0@, p.1)),
            s_seen_lookup(sm, name@) == s_seen_lookup(sm.skip(i as int), name@),
    {
        proof {
            assert(sm.skip(i as int)[0] == sm[i as int]);
            assert(sm.skip(i as int).drop_first() =~= sm.skip((i + 1) as int));
        }
        if seen[i].0 == *name {
            return Some(seen[i].1);
        }
    }
    proof {
        assert(sm.skip(n as int) =~= Seq::<(NameModel, ModItem)>::empty());
    }
    None
}

impl Context {
    /// Lowers all items of the file's syntax tree, then scans the
    /// top-level list once for duplicate names, and returns the finished
    /// item tree. The pass never fails; the tree it returns is exactly
    /// `s_item_tree` of the input.
    pub fn lower_module_items(self, item_owner: &SourceFile) -> (tree: ItemTree)
        ensures
            tree@ == s_item_tree(self@, item_owner.items@),
    {
        let ghost cx0 = self@;
        let mut this = self;
        let mut top_level: Vec<ModItem> = Vec::new();
        proof {
            assert(item_owner.items@.skip(0) =~= item_owner.items@);
            assert(Seq::<ModItem>::empty() + s_lower_items(cx0, item_owner.items@).1
                =~= s_lower_items(cx0, item_owner.items@).1);
        }
        let n = item_owner.items.len();
        for i in 0..n
            invariant
                n == item_owner.items.len(),
                s_lower_items(cx0, item_owner.items@).0 == s_lower_items(
                    this@,
                    item_owner.items@.skip(i as int),
                ).0,
                s_lower_items(cx0, item_owner.items@).1 =~= top_level@ + s_lower_items(
                    this@,
                    item_owner.items@.skip(i as int),
                ).1,
        {
            proof {
                assert(item_owner.items@.skip(i as int)[0] == item_owner.items@[i as int]);
                assert(item_owner.items@.skip(i as int).drop_first() =~= item_owner.items@.skip(
                    (i + 1) as int,
                ));
            }
            let ghost prev_top = top_level@;
            let r = this.lower_mod_item(&item_owner.items[i]);
            match r {
                Some(it) => {
                    top_level.push(it);
                    proof {
                        let rest = s_lower_items(this@, item_owner.items@.skip((i + 1) as int)).1;
                        assert(prev_top + (seq![it] + rest) =~= top_level@ + rest);
                    }
                },
                None => {},
            }
        }
        proof {
            assert(item_owner.items@.skip(n as int) =~= Seq::<ModuleItemNode>::empty());
        }
        let ghost cx2 = this@;
        proof {
            assert(cx2 == s_lower_items(cx0, item_owner.items@).0);
            assert(top_level@ =~= s_lower_items(cx0, item_owner.items@).1);
            this.data.functions.lemma_len_bounded();
            this.data.structs.lemma_len_bounded();
            this.data.type_aliases.lemma_len_bounded();
            this.data.constants.lemma_len_bounded();
            this.data.fields.lemma_len_bounded();
            this.data.visibilities.lemma_len_bounded();
            assert(data_fits(cx2.data));
            lemma_lower_items_effect(cx0, item_owner.items@);
        }

        // Check duplicates
        let ghost entries = s_scan_entries(cx2.data, top_level@);
        let mut seen: Vec<(Name, ModItem)> = Vec::new();
        proof {
            assert(entries.skip(0) =~= entries);
            assert(seen@.map_values(|p: (Name, ModItem)| (p.0@, p.1)) =~= Seq::<(
                NameModel,
                ModItem,
            )>::empty());
            assert(this@.diagnostics.take(cx2.diagnostics.len() as int) =~= cx2.diagnostics);
            assert(this@.diagnostics.skip(cx2.diagnostics.len() as int) =~= Seq::<
                ItemTreeDiagnosticModel,
            >::empty());
            assert(Seq::<ItemTreeDiagnosticModel>::empty() + s_dup_scan(entries, Seq::empty())
                =~= s_dup_scan(entries, Seq::empty()));
        }
        let m = top_level.len();
        for i in 0..m
            invariant
                m == top_level.len(),
                top_level@ =~= s_lower_items(cx0, item_owner.items@).1,
                this@.file == cx2.file,
                this@.data == cx2.data,
                entries == s_scan_entries(cx2.data, top_level@),
                forall|j: int|
                    0 <= j < top_level@.len() ==> cx2.data.item_in_bounds(
                        #[trigger] top_level@[j],
                    ),
                this@.diagnostics.len() >= cx2.diagnostics.len(),
                this@.diagnostics.take(cx2.diagnostics.len() as int) =~= cx2.diagnostics,
                s_dup_scan(entries, Seq::empty()) =~= this@.diagnostics.skip(
                    cx2.diagnostics.len() as int,
                ) + s_dup_scan(
                    entries.skip(i as int),
                    seen@.map_values(|p: (Name, ModItem)| (p.0@, p.1)),
                ),
        {
            let ghost seen_m = seen@.map_values(|p: (Name, ModItem)| (p.0@, p.1));
            let item = top_level[i];
            let name: Name = match item {
                ModItem::Function(id) => this.data.functions.get(id.0).name.clone(),
                ModItem::Struct(id) => this.data.structs.get(id.0).name.clone(),
                ModItem::TypeAlias(id) => this.data.type_aliases.get(id.0).name.clone(),
                ModItem::Const(id) => this.data.constants.get(id.0).name.clone(),
            };
            proof {
                assert(entries[i as int] == (cx2.data.item_name(item), item));
                assert(name@ == entries[i as int].0);
                assert(entries.skip(i as int)[0] == entries[i as int]);
                assert(entries.skip(i as int).drop_first() =~= entries.skip((i + 1) as int));
            }
            let ghost prev_diags = this@.diagnostics;
            match find_seen(&seen, &name) {
                Some(first_item) => {
                    let diag = ItemTreeDiagnostic::DuplicateDefinition {
                        name,
                        first: first_item,
                        second: item,
                    };
                    let ghost dm = diag@;
                    this.diagnostics.push(diag);
                    proof {
                        assert(this@.diagnostics =~= prev_diags.push(dm));
                        assert(this@.diagnostics.take(cx2.diagnostics.len() as int)
                            =~= cx2.diagnostics);
                        assert(this@.diagnostics.skip(cx2.diagnostics.len() as int)
                            =~= prev_diags.skip(cx2.diagnostics.len() as int).push(dm));
                        assert(s_dup_scan(entries.skip(i as int), seen_m) =~= seq![dm]
                            + s_dup_scan(entries.skip((i + 1) as int), seen_m));
                        assert(prev_diags.skip(cx2.diagnostics.len() as int) + (seq![dm]
                            + s_dup_scan(entries.skip((i + 1) as int), seen_m))
                            =~= this@.diagnostics.skip(cx2.diagnostics.len() as int)
                            + s_dup_scan(entries.skip((i + 1) as int), seen_m));
                    }
                },
                None => {
                    seen.push((name, item));
                    proof {
                        assert(seen@.map_values(|p: (Name, ModItem)| (p.0@, p.1)) =~= seen_m.push(
                            entries[i as int],
                        ));
                    }
                },
            }
        }
        proof {
            assert(entries.skip(m as int) =~= Seq::<(NameModel, ModItem)>::empty());
            assert(this@.diagnostics.skip(cx2.diagnostics.len() as int) =~= s_dup_scan(
                entries,
                Seq::empty(),
            ));
            assert(this@.diagnostics =~= cx2.diagnostics + s_dup_scan(entries, Seq::empty()));
        }

        let Context { file, data, diagnostics } = this;
        let tree = ItemTree { file_id: file, top_level, data, diagnostics };
        proof {
            assert(tree@ =~= s_item_tree(cx0, item_owner.items@));
        }
        tree
    }
}



/// The items among the entries that carry the given name, in
/// declaration order.
pub open spec fn s_occurrences(entries: Seq<(NameModel, ModItem)>, name: NameModel) -> Seq<ModItem>
    decreases entries.len(),
{
    if entries.len() == 0 {
        Seq::empty()
    } else {
        (if entries[0].0 == name {
            seq![entries[0].1]
        } else {
            Seq::empty()
        }) + s_occurrences(entries.drop_first(), name)
    }
}

/// The duplicate diagnostics among `diags` that flag the given name, in
/// emission order.
pub open spec fn s_diags_for(diags: Seq<ItemTreeDiagnosticModel>, name: NameModel) -> Seq<
    ItemTreeDiagnosticModel,
>
    decreases diags.len(),
{
    if diags.len() == 0 {
        Seq::empty()
    } else {
        (match diags[0] {
            ItemTreeDiagnosticModel::DuplicateDefinition { name: n, .. } => if n == name {
                seq![diags[0]]
            } else {
                Seq::empty()
            },
        }) + s_diags_for(diags.drop_first(), name)
    }
}

/// Appending an entry to the seen list changes a front-first lookup only
/// for a name the list did not hold yet.
proof fn lemma_seen_lookup_push(
    seen: Seq<(NameModel, ModItem)>,
    e: (NameModel, ModItem),
    name: NameModel,
)
    ensures
        s_seen_lookup(seen.push(e), name) == (match s_seen_lookup(seen, name) {
            Some(x) => Some(x),
            None => if e.0 == name {
                Some(e.1)
            } else {
                None::<ModItem>
            },
        }),
    decreases seen.len(),
{
    if seen.len() == 0 {
        assert(seen.push(e)[0] == e);
        assert(seen.push(e).drop_first() =~= Seq::<(NameModel, ModItem)>::empty());
        assert(s_seen_lookup(Seq::<(NameModel, ModItem)>::empty(), name) is None);
    } else {
        assert(seen.push(e)[0] == seen[0]);
        assert(seen.push(e).drop_first() =~= seen.drop_first().push(e));
        lemma_seen_lookup_push(seen.drop_first(), e, name);
    }
}

/// Distribution of the per-name filter over concatenation with a
/// one-diagnostic prefix.
proof fn lemma_diags_for_cons(
    d: ItemTreeDiagnosticModel,
    rest: Seq<ItemTreeDiagnosticModel>,
    name: NameModel,
)
    ensures
        s_diags_for(seq![d] + rest, name) == (match d {
            ItemTreeDiagnosticModel::DuplicateDefinition { name: n, .. } => if n == name {
                seq![d] + s_diags_for(rest, name)
            } else {
                s_diags_for(rest, name)
            },
        }),
{
    assert((seq![d] + rest)[0] == d);
    assert((seq![d] + rest).drop_first() =~= rest);
    match d {
        ItemTreeDiagnosticModel::DuplicateDefinition { name: n, .. } => {
            if n == name {
            } else {
                assert(Seq::<ItemTreeDiagnosticModel>::empty() + s_diags_for(rest, name)
                    =~= s_diags_for(rest, name));
            }
        },
    }
}

/// What the duplicate scan emits for one name: if the name is already in
/// the seen list with first declaration `f`, one diagnostic per
/// occurrence, each `{name, f, occurrence}`; if it is fresh, one
/// diagnostic per occurrence after the first, each carrying the first
/// occurrence as `first` and the later one as `second`.
proof fn lemma_dup_scan_for_name(
    entries: Seq<(NameModel, ModItem)>,
    seen: Seq<(NameModel, ModItem)>,
    name: NameModel,
)
    ensures
        ({
            let occ = s_occurrences(entries, name);
            let dd = s_diags_for(s_dup_scan(entries, seen), name);
            match s_seen_lookup(seen, name) {
                Some(f) => dd =~= Seq::new(
                    occ.len(),
                    |k: int|
                        ItemTreeDiagnosticModel::DuplicateDefinition {
                            name,
                            first: f,
                            second: occ[k],
                        },
                ),
                None => if occ.len() == 0 {
                    dd =~= Seq::empty()
                } else {
                    dd =~= Seq::new(
                        (occ.len() - 1) as nat,
                        |k: int|
                            ItemTreeDiagnosticModel::DuplicateDefinition {
                                name,
                                first: occ[0],
                                second: occ[k + 1],
                            },
                    )
                },
            }
        }),
    decreases entries.len(),
{
    let occ = s_occurrences(entries, name);
    let dd = s_diags_for(s_dup_scan(entries, seen), name);
    if entries.len() == 0 {
    } else {
        let e = entries[0];
        let rest = entries.drop_first();
        let occ_rest = s_occurrences(rest, name);
        if e.0 == name {
            assert(occ =~= seq![e.1] + occ_rest);
        } else {
            assert(occ =~= occ_rest);
        }
        match s_seen_lookup(seen, e.0) {
            Some(first) => {
                let d = ItemTreeDiagnosticModel::DuplicateDefinition {
                    name: e.0,
                    first,
                    second: e.1,
                };
                lemma_diags_for_cons(d, s_dup_scan(rest, seen), name);
                lemma_dup_scan_for_name(rest, seen, name);
            },
            None => {
                lemma_seen_lookup_push(seen, e, name);
                lemma_dup_scan_for_name(rest, seen.push(e), name);
            },
        }
    }
}

/// Lowering items never touches the diagnostics or the file identity;
/// only the duplicate scan afterwards emits diagnostics.
proof fn lemma_lower_items_keeps_diagnostics(cx: ContextModel, items: Seq<ModuleItemNode>)
    ensures
        s_lower_items(cx, items).0.diagnostics == cx.diagnostics,
        s_lower_items(cx, items).0.file == cx.file,
    decreases items.len(),
{
    if items.len() > 0 {
        let (cx1, _) = s_lower_item(cx, items[0]);
        lemma_lower_items_keeps_diagnostics(cx1, items.drop_first());
    }
}

/// For a file with N top-level items sharing one name, the built tree
/// holds exactly N - 1 `DuplicateDefinition` diagnostics for that name;
/// each carries the first-declared item as its canonical `first` and one
/// later occurrence, in declaration order, as its `second`. No
/// diagnostic exists for a name declared at most once.
pub proof fn lemma_duplicate_definitions(
    cx: ContextModel,
    items: Seq<ModuleItemNode>,
    name: NameModel,
)
    requires
        cx.diagnostics =~= Seq::<ItemTreeDiagnosticModel>::empty(),
    ensures
        ({
            let t = s_item_tree(cx, items);
            let occ = s_occurrences(s_scan_entries(t.data, t.top_level), name);
            let dd = s_diags_for(t.diagnostics, name);
            &&& occ.len() >= 1 ==> dd =~= Seq::new(
                (occ.len() - 1) as nat,
                |k: int|
                    ItemTreeDiagnosticModel::DuplicateDefinition {
                        name,
                        first: occ[0],
                        second: occ[k + 1],
                    },
            )
            &&& occ.len() <= 1 ==> dd =~= Seq::<ItemTreeDiagnosticModel>::empty()
        }),
{
    let t = s_item_tree(cx, items);
    let (cx2, top) = s_lower_items(cx, items);
    let entries = s_scan_entries(cx2.data, top);
    lemma_lower_items_keeps_diagnostics(cx, items);
    assert(t.diagnostics =~= s_dup_scan(entries, Seq::empty()));
    lemma_dup_scan_for_name(entries, Seq::empty(), name);
}

/// Idempotence of the builder: the item tree lowered from unchanged
/// syntax input is structurally determined by that input, so two builds
/// of the same input yield equal trees (field ranges, namespaces and
/// diagnostics included).
pub proof fn lemma_item_tree_deterministic(
    cx: ContextModel,
    items: Seq<ModuleItemNode>,
    t1: ItemTreeModel,
    t2: ItemTreeModel,
)
    requires
        t1 == s_item_tree(cx, items),
        t2 == s_item_tree(cx, items),
    ensures
        t1 == t2,
{
}

/// How many record fields a record field list lowers to: every named
/// field and nothing else; a fully named list of K fields lowers to
/// exactly K.
pub proof fn lemma_record_fields_count(fs: Seq<RecordFieldDefNode>)
    ensures
        s_record_fields(fs).len() <= fs.len(),
        (forall|i: int| 0 <= i < fs.len() ==> (#[trigger] fs[i]).name is Some)
            ==> s_record_fields(fs).len() == fs.len(),
    decreases fs.len(),
{
    if fs.len() > 0 {
        lemma_record_fields_count(fs.drop_last());
        assert(fs.last() == fs[fs.len() - 1]);
        assert(forall|i: int| 0 <= i < fs.drop_last().len() ==> #[trigger] fs.drop_last()[i]
            == fs[i]);
    }
}

/// A tuple field list of K fields lowers to exactly K fields.
pub proof fn lemma_tuple_fields_count(fs: Seq<TupleFieldDefNode>)
    ensures
        s_tuple_fields(fs).len() == fs.len(),
    decreases fs.len(),
{
    if fs.len() > 0 {
        lemma_tuple_fields_count(fs.drop_last());
    }
}

/// The field range of a lowered struct: its length is the number of
/// fields the struct contributes (all of them for a tuple struct, the
/// named ones for a record struct — K for a struct with K named record
/// fields), its start is the field-arena length before the struct, and
/// its end the length after.
pub proof fn lemma_struct_field_range(cx: ContextModel, node: StructDefNode)
    requires
        data_fits(s_lower_struct(cx, node).0.data),
        node.name is Some,
    ensures
        ({
            let (cx1, r) = s_lower_struct(cx, node);
            let s = cx1.data.structs.last();
            &&& r == Some(ModItem::Struct(LocalStructId(cx.data.structs.len() as usize)))
            &&& cx1.data.structs.len() == cx.data.structs.len() + 1
            &&& (match node.kind {
                StructKindNode::Record(fs) => s.fields matches Fields::Record(rg)
                    && rg.start == cx.data.fields.len() && rg.end == rg.start + s_record_fields(
                    fs@,
                ).len() && s_record_fields(fs@).len() <= fs@.len(),
                StructKindNode::Tuple(fs) => s.fields matches Fields::Tuple(rg) && rg.start
                    == cx.data.fields.len() && rg.end == rg.start + fs@.len(),
                StructKindNode::Unit => s.fields is Unit,
            })
        }),
{
    let (cx1, r) = s_lower_struct(cx, node);
    match node.kind {
        StructKindNode::Record(fs) => {
            lemma_record_fields_count(fs@);
        },
        StructKindNode::Tuple(fs) => {
            lemma_tuple_fields_count(fs@);
        },
        StructKindNode::Unit => {},
    }
}

/// In a well-formed tree the field ranges of two different structs are
/// disjoint, whichever was lowered first.
pub proof fn lemma_sibling_field_ranges_disjoint(t: ItemTreeModel, i: int, j: int)
    requires
        t.wf(),
        0 <= i < t.data.structs.len(),
        0 <= j < t.data.structs.len(),
        i != j,
    ensures
        ranges_disjoint(t.data.structs[i].fields, t.data.structs[j].fields),
{
}

/// A tree built from a well-formed starting context is well formed:
/// every reference points into its arenas, ranges are bounded, and
/// sibling field ranges are disjoint.
pub proof fn lemma_item_tree_wf(cx: ContextModel, items: Seq<ModuleItemNode>)
    requires
        data_fits(s_lower_items(cx, items).0.data),
        cx.data.wf(),
    ensures
        s_item_tree(cx, items).wf(),
{
    lemma_lower_items_effect(cx, items);
}


} // verus!
