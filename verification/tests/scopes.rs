//! Namespace classification, scope tables, the built-in scope, and
//! visibility resolution.

use mun_hir::ids::{
    FunctionId, ItemDefinitionId, ModuleId, PrimitiveType, StructId, TypeAliasId,
};
use mun_hir::item_scope::{builtin_scope, perns_list_get, ItemScope, PerNs};
use mun_hir::name::Name;
use mun_hir::visibility::{ModuleTree, RawVisibility, Visibility};
use mun_hir::ids::{AstId, FileId};
use mun_hir::item_tree::ModItem;
use mun_hir::lower::Context;
use mun_hir::syntax::{
    ModuleItemNode, RecordFieldDefNode, SourceFile, StructDefNode, StructKindNode,
    TypeRefKindNode, TypeRefNode,
};

fn name(text: &str) -> Name {
    Name::new(String::from(text))
}

#[test]
fn struct_without_constructor_populates_types_only() {
    let def = ItemDefinitionId::StructId(StructId(3));
    let per_ns = PerNs::from_definition(def, Visibility::Public, false);
    assert_eq!(per_ns.types, Some((def, Visibility::Public)));
    assert_eq!(per_ns.values, None);
}

#[test]
fn struct_with_constructor_populates_both_with_same_identity() {
    let def = ItemDefinitionId::StructId(StructId(3));
    let per_ns = PerNs::from_definition(def, Visibility::Public, true);
    assert_eq!(per_ns.types, Some((def, Visibility::Public)));
    assert_eq!(per_ns.values, Some((def, Visibility::Public)));
}

#[test]
fn function_populates_values_only() {
    let def = ItemDefinitionId::FunctionId(FunctionId(0));
    let per_ns = PerNs::from_definition(def, Visibility::Public, false);
    assert_eq!(per_ns.types, None);
    assert_eq!(per_ns.values, Some((def, Visibility::Public)));
}

#[test]
fn type_alias_and_primitive_populate_types_only() {
    for def in [
        ItemDefinitionId::TypeAliasId(TypeAliasId(1)),
        ItemDefinitionId::PrimitiveType(PrimitiveType::I32),
        ItemDefinitionId::ModuleId(ModuleId(0)),
    ] {
        let per_ns = PerNs::from_definition(def, Visibility::Public, false);
        assert_eq!(per_ns.types, Some((def, Visibility::Public)));
        assert_eq!(per_ns.values, None);
    }
}

#[test]
fn scope_lookup_finds_added_resolution() {
    let mut scope = ItemScope::new();
    let def = ItemDefinitionId::StructId(StructId(0));
    scope.add_definition(def);
    scope.add_resolution(name("Foo"), PerNs::from_definition(def, Visibility::Public, false));
    let hit = scope.get(&name("Foo"));
    assert_eq!(hit.types, Some((def, Visibility::Public)));
    assert_eq!(hit.values, None);
    let miss = scope.get(&name("Bar"));
    assert_eq!(miss.types, None);
    assert_eq!(miss.values, None);
    assert_eq!(scope.declarations().as_slice(), &[def]);
}

#[test]
fn later_resolution_overwrites_earlier_one() {
    // Deliberate last-wins policy for one (name, namespace) pair.
    let mut scope = ItemScope::new();
    let first = ItemDefinitionId::StructId(StructId(0));
    let second = ItemDefinitionId::StructId(StructId(1));
    scope.add_resolution(name("Foo"), PerNs::from_definition(first, Visibility::Public, false));
    scope.add_resolution(name("Foo"), PerNs::from_definition(second, Visibility::Public, false));
    assert_eq!(scope.get(&name("Foo")).types, Some((second, Visibility::Public)));
}

#[test]
fn resolution_in_one_namespace_keeps_the_other() {
    let mut scope = ItemScope::new();
    let s = ItemDefinitionId::StructId(StructId(0));
    let f = ItemDefinitionId::FunctionId(FunctionId(0));
    scope.add_resolution(name("thing"), PerNs::from_definition(s, Visibility::Public, false));
    scope.add_resolution(name("thing"), PerNs::from_definition(f, Visibility::Public, false));
    // The function landed in the value namespace; the struct's type entry stays.
    let hit = scope.get(&name("thing"));
    assert_eq!(hit.types, Some((s, Visibility::Public)));
    assert_eq!(hit.values, Some((f, Visibility::Public)));
}

#[test]
fn builtin_scope_maps_every_primitive_name() {
    let scope = builtin_scope();
    assert_eq!(scope.len(), 15);
    let bool_entry = perns_list_get(&scope, &name("bool"));
    assert_eq!(
        bool_entry.types,
        Some((ItemDefinitionId::PrimitiveType(PrimitiveType::Bool), Visibility::Public)),
    );
    assert_eq!(bool_entry.values, None);
    let f64_entry = perns_list_get(&scope, &name("f64"));
    assert_eq!(
        f64_entry.types,
        Some((ItemDefinitionId::PrimitiveType(PrimitiveType::Float64), Visibility::Public)),
    );
    let miss = perns_list_get(&scope, &name("String"));
    assert_eq!(miss.types, None);
    assert_eq!(miss.values, None);
}

#[test]
fn public_visibility_is_visible_from_everywhere() {
    let tree = ModuleTree { parents: vec![None, Some(ModuleId(0)), Some(ModuleId(1))] };
    for m in 0..3 {
        assert!(Visibility::Public.is_visible_from(&tree, ModuleId(m)));
    }
}

#[test]
fn module_visibility_covers_module_and_descendants_only() {
    // 0 is the root; 1 is a child of 0; 2 is a child of 1.
    let tree = ModuleTree { parents: vec![None, Some(ModuleId(0)), Some(ModuleId(1))] };
    let vis = Visibility::Module(ModuleId(1));
    assert!(vis.is_visible_from(&tree, ModuleId(1)));
    assert!(vis.is_visible_from(&tree, ModuleId(2)));
    assert!(!vis.is_visible_from(&tree, ModuleId(0)));
}

#[test]
fn raw_visibility_resolution_anchors_at_declaring_module() {
    assert_eq!(RawVisibility::from_ast(&None), RawVisibility::This);
    assert_eq!(
        RawVisibility::This.resolve(ModuleId(4)),
        Visibility::Module(ModuleId(4)),
    );
    assert_eq!(RawVisibility::Public.resolve(ModuleId(4)), Visibility::Public);
}

#[test]
fn duplicate_scope_lookup_returns_first_declaration() {
    // The consuming scope builder's first-wins policy over a tree with a
    // duplicate: only the first declaration of a name is registered.
    let mk = |ast: usize| {
        ModuleItemNode::Struct(StructDefNode {
            ast_id: AstId(ast),
            name: Some(name("Foo")),
            visibility: None,
            kind: StructKindNode::Record(vec![RecordFieldDefNode {
                name: Some(name("a")),
                ascribed_type: Some(TypeRefNode {
                    ast_id: AstId(10 * ast),
                    kind: TypeRefKindNode::Path(Some(name("i32"))),
                }),
            }]),
        })
    };
    let tree = Context::new(FileId(0)).lower_module_items(&SourceFile { items: vec![mk(1), mk(2)] });
    assert_eq!(tree.data.structs.len(), 2);
    assert_eq!(tree.diagnostics.len(), 1);

    let mut scope = ItemScope::new();
    for (i, item) in tree.top_level.iter().enumerate() {
        let ModItem::Struct(local) = item else { panic!("expected a struct") };
        let n = tree.data.structs.get(local.0).name.clone();
        let def = ItemDefinitionId::StructId(StructId(local.0));
        scope.add_definition(def);
        if scope.get(&n).types.is_none() {
            scope.add_resolution(n, PerNs::from_definition(def, Visibility::Public, false));
        } else {
            assert_eq!(i, 1);
        }
    }
    // Lookup is consistent with first-declared-wins.
    assert_eq!(
        scope.get(&name("Foo")).types,
        Some((ItemDefinitionId::StructId(StructId(0)), Visibility::Public)),
    );
}
