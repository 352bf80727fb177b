//! Item-tree builder behaviour: duplicate detection, idempotence, field
//! ranges, and degradation on malformed input.

use mun_hir::ids::{AstId, FileId};
use mun_hir::item_tree::{Fields, ItemTree, ItemTreeDiagnostic, ModItem, StructDefKind};
use mun_hir::lower::Context;
use mun_hir::name::Name;
use mun_hir::syntax::{
    ConstDefNode, FunctionDefNode, ModuleItemNode, ParamNode, RecordFieldDefNode, SourceFile,
    StructDefNode, StructKindNode, TupleFieldDefNode, TypeAliasDefNode, TypeRefKindNode,
    TypeRefNode, VisibilityMarker,
};
use mun_hir::type_ref::TypeRef;
use mun_hir::visibility::RawVisibility;

fn name(text: &str) -> Name {
    Name::new(String::from(text))
}

fn path_type(ast_id: usize, text: &str) -> TypeRefNode {
    TypeRefNode { ast_id: AstId(ast_id), kind: TypeRefKindNode::Path(Some(name(text))) }
}

fn record_struct(ast_id: usize, struct_name: &str, fields: Vec<(&str, &str)>) -> ModuleItemNode {
    let mut nodes = Vec::new();
    for (i, (field_name, ty)) in fields.iter().enumerate() {
        nodes.push(RecordFieldDefNode {
            name: Some(name(field_name)),
            ascribed_type: Some(path_type(100 + 10 * ast_id + i, ty)),
        });
    }
    ModuleItemNode::Struct(StructDefNode {
        ast_id: AstId(ast_id),
        name: Some(name(struct_name)),
        visibility: None,
        kind: StructKindNode::Record(nodes),
    })
}

fn build(items: Vec<ModuleItemNode>) -> ItemTree {
    Context::new(FileId(0)).lower_module_items(&SourceFile { items })
}

#[test]
fn empty_file_builds_empty_tree() {
    let tree = build(vec![]);
    assert_eq!(tree.file_id, FileId(0));
    assert_eq!(tree.top_level.len(), 0);
    assert_eq!(tree.diagnostics.len(), 0);
}

#[test]
fn duplicate_struct_emits_one_diagnostic_first_wins() {
    // `struct Foo { a: i32 }` declared twice at module scope.
    let tree = build(vec![
        record_struct(1, "Foo", vec![("a", "i32")]),
        record_struct(2, "Foo", vec![("a", "i32")]),
    ]);
    // Both struct entries remain in the tree.
    assert_eq!(tree.top_level.len(), 2);
    assert_eq!(tree.data.structs.len(), 2);
    // Exactly one diagnostic, referencing both items, first-declared first.
    assert_eq!(tree.diagnostics.len(), 1);
    let ItemTreeDiagnostic::DuplicateDefinition { name: n, first, second } = &tree.diagnostics[0];
    assert_eq!(*n, name("Foo"));
    assert_eq!(*first, tree.top_level[0]);
    assert_eq!(*second, tree.top_level[1]);
}

#[test]
fn n_same_name_items_emit_n_minus_one_diagnostics() {
    let tree = build(vec![
        record_struct(1, "Foo", vec![]),
        record_struct(2, "Foo", vec![]),
        record_struct(3, "Foo", vec![]),
        record_struct(4, "Foo", vec![]),
    ]);
    assert_eq!(tree.diagnostics.len(), 3);
    for d in &tree.diagnostics {
        let ItemTreeDiagnostic::DuplicateDefinition { first, .. } = d;
        // Every diagnostic reports the first declaration as canonical.
        assert_eq!(*first, tree.top_level[0]);
    }
}

#[test]
fn distinct_names_emit_no_diagnostics() {
    let tree = build(vec![
        record_struct(1, "Foo", vec![("a", "i32")]),
        record_struct(2, "Bar", vec![("a", "i32")]),
    ]);
    assert_eq!(tree.diagnostics.len(), 0);
}

#[test]
fn duplicate_across_item_kinds_is_detected() {
    let tree = build(vec![
        record_struct(1, "thing", vec![]),
        ModuleItemNode::Function(FunctionDefNode {
            ast_id: AstId(2),
            name: Some(name("thing")),
            visibility: None,
            is_extern: false,
            params: vec![],
            ret_type: None,
        }),
    ]);
    assert_eq!(tree.diagnostics.len(), 1);
}

#[test]
fn building_twice_yields_structurally_equal_trees() {
    let items = || {
        vec![
            record_struct(1, "Foo", vec![("a", "i32"), ("b", "bool")]),
            ModuleItemNode::Function(FunctionDefNode {
                ast_id: AstId(2),
                name: Some(name("f")),
                visibility: Some(VisibilityMarker::Pub),
                is_extern: false,
                params: vec![ParamNode { ascribed_type: Some(path_type(50, "i32")) }],
                ret_type: Some(path_type(51, "bool")),
            }),
            record_struct(3, "Foo", vec![("a", "i32")]),
        ]
    };
    let t1 = build(items());
    let t2 = build(items());
    assert_eq!(t1, t2);
}

#[test]
fn record_struct_field_range_has_length_k() {
    // A struct with three record fields: range length 3.
    let tree = build(vec![record_struct(1, "S", vec![("a", "i32"), ("b", "i32"), ("c", "bool")])]);
    let s = tree.data.structs.get(0);
    assert_eq!(s.kind, StructDefKind::Record);
    match s.fields {
        Fields::Record(r) => {
            assert_eq!(r.len(), 3);
            assert_eq!(r.start, 0);
            assert_eq!(r.end, 3);
        }
        _ => panic!("expected record fields"),
    }
}

#[test]
fn sibling_struct_field_ranges_are_disjoint() {
    let tree = build(vec![
        record_struct(1, "A", vec![("a", "i32"), ("b", "i32")]),
        record_struct(2, "B", vec![("c", "i32")]),
        record_struct(3, "C", vec![("d", "i32"), ("e", "i32")]),
    ]);
    let ranges: Vec<(usize, usize)> = (0..3)
        .map(|i| match tree.data.structs.get(i).fields {
            Fields::Record(r) => (r.start, r.end),
            _ => panic!("expected record fields"),
        })
        .collect();
    assert_eq!(ranges, vec![(0, 2), (2, 3), (3, 5)]);
    for i in 0..3 {
        for j in 0..3 {
            if i != j {
                let (s1, e1) = ranges[i];
                let (s2, e2) = ranges[j];
                assert!(e1 <= s2 || e2 <= s1);
            }
        }
    }
}

#[test]
fn tuple_struct_fields_get_positional_names() {
    // `struct Pair(i32, i32)`.
    let tree = build(vec![ModuleItemNode::Struct(StructDefNode {
        ast_id: AstId(1),
        name: Some(name("Pair")),
        visibility: None,
        kind: StructKindNode::Tuple(vec![
            TupleFieldDefNode { type_ref: Some(path_type(10, "i32")) },
            TupleFieldDefNode { type_ref: Some(path_type(11, "i32")) },
        ]),
    })]);
    let s = tree.data.structs.get(0);
    assert_eq!(s.kind, StructDefKind::Tuple);
    match s.fields {
        Fields::Tuple(r) => {
            assert_eq!(r.len(), 2);
            assert_eq!(tree.data.fields.get(r.start).name, Name::new_tuple_field(0));
            assert_eq!(tree.data.fields.get(r.start + 1).name, Name::new_tuple_field(1));
        }
        _ => panic!("expected tuple fields"),
    }
}

#[test]
fn nameless_item_is_dropped_silently() {
    let tree = build(vec![
        ModuleItemNode::Struct(StructDefNode {
            ast_id: AstId(1),
            name: None,
            visibility: None,
            kind: StructKindNode::Unit,
        }),
        record_struct(2, "Kept", vec![]),
    ]);
    assert_eq!(tree.top_level.len(), 1);
    assert_eq!(tree.data.structs.len(), 1);
    assert_eq!(tree.diagnostics.len(), 0);
}

#[test]
fn nameless_record_field_is_dropped() {
    let tree = build(vec![ModuleItemNode::Struct(StructDefNode {
        ast_id: AstId(1),
        name: Some(name("S")),
        visibility: None,
        kind: StructKindNode::Record(vec![
            RecordFieldDefNode { name: Some(name("a")), ascribed_type: Some(path_type(10, "i32")) },
            RecordFieldDefNode { name: None, ascribed_type: Some(path_type(11, "i32")) },
            RecordFieldDefNode { name: Some(name("b")), ascribed_type: None },
        ]),
    })]);
    match tree.data.structs.get(0).fields {
        Fields::Record(r) => assert_eq!(r.len(), 2),
        _ => panic!("expected record fields"),
    }
    // A field without a written type degrades to the Error sentinel.
    assert_eq!(tree.data.fields.get(1).name, name("b"));
    assert_eq!(tree.data.fields.get(1).type_ref, TypeRef::Error);
}

#[test]
fn function_lowering_keeps_params_and_return_type() {
    let tree = build(vec![ModuleItemNode::Function(FunctionDefNode {
        ast_id: AstId(7),
        name: Some(name("f")),
        visibility: None,
        is_extern: true,
        params: vec![
            ParamNode { ascribed_type: Some(path_type(20, "i32")) },
            ParamNode { ascribed_type: None },
        ],
        ret_type: None,
    })]);
    assert_eq!(tree.top_level, vec![ModItem::Function(mun_hir::ids::LocalFunctionId(0))]);
    let f = tree.data.functions.get(0);
    assert!(f.is_extern);
    assert_eq!(f.params.len(), 2);
    assert_eq!(f.params[0], TypeRef::Path(name("i32")));
    assert_eq!(f.params[1], TypeRef::Error);
    // No written return type: the Empty sentinel, not an error.
    assert_eq!(f.ret_type, TypeRef::Empty);
    assert_eq!(f.ast_id, AstId(7));
}

#[test]
fn type_alias_and_const_lowering() {
    let tree = build(vec![
        ModuleItemNode::TypeAlias(TypeAliasDefNode {
            ast_id: AstId(1),
            name: Some(name("Alias")),
            visibility: Some(VisibilityMarker::Pub),
            type_ref: Some(path_type(10, "i32")),
        }),
        ModuleItemNode::Const(ConstDefNode {
            ast_id: AstId(2),
            name: Some(name("K")),
            visibility: None,
            type_ref: None,
        }),
    ]);
    assert_eq!(tree.data.type_aliases.len(), 1);
    assert_eq!(tree.data.constants.len(), 1);
    assert_eq!(tree.data.type_aliases.get(0).type_ref, Some(TypeRef::Path(name("i32"))));
    assert_eq!(tree.data.constants.get(0).type_ref, None);
    let alias = tree.data.type_aliases.get(0);
    assert_eq!(*tree.data.visibilities.get(alias.visibility.0), RawVisibility::Public);
    let konst = tree.data.constants.get(0);
    assert_eq!(*tree.data.visibilities.get(konst.visibility.0), RawVisibility::This);
}
