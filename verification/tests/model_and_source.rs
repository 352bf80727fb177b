//! The code model over a database: struct data, field lookup, source
//! correlation, and constant diagnostics.

use mun_hir::body::{Body, BodySourceMap};
use mun_hir::code_model::{DefWithBody, DefWithStruct, Function, Struct, StructField};
use mun_hir::const_def::{ConstDef, Diagnostic, DiagnosticSink, LowerDiagnostic};
use mun_hir::db::{ConstLoc, DefDatabase, FunctionLoc, StructLoc};
use mun_hir::ids::{
    AstId, ConstDefId, FileId, FunctionId, ItemDefinitionId, LocalConstId, LocalFunctionId,
    LocalStructFieldId, LocalStructId, ModuleId, PrimitiveType, StructId,
};
use mun_hir::item_scope::{ItemScope, PerNs};
use mun_hir::item_tree::StructDefKind;
use mun_hir::name::Name;
use mun_hir::source::HasSource;
use mun_hir::syntax::{
    ConstDefNode, FunctionDefNode, ModuleItemNode, RecordFieldDefNode, SourceFile, StructDefNode,
    StructKindNode, TypeRefKindNode, TypeRefNode,
};
use mun_hir::type_ref::{LocalTypeRefId, TypeRef};
use mun_hir::visibility::{ModuleTree, Visibility};

fn name(text: &str) -> Name {
    Name::new(String::from(text))
}

fn path_type(ast_id: usize, text: &str) -> TypeRefNode {
    TypeRefNode { ast_id: AstId(ast_id), kind: TypeRefKindNode::Path(Some(name(text))) }
}

/// One file: `struct Point { x: i64, y: i64 }`, `fn origin() { .. }` and
/// `const LIMIT: Distance = ..`.
fn test_db(scope: ItemScope) -> DefDatabase {
    let file = SourceFile {
        items: vec![
            ModuleItemNode::Struct(StructDefNode {
                ast_id: AstId(1),
                name: Some(name("Point")),
                visibility: None,
                kind: StructKindNode::Record(vec![
                    RecordFieldDefNode {
                        name: Some(name("x")),
                        ascribed_type: Some(path_type(10, "i64")),
                    },
                    RecordFieldDefNode {
                        name: Some(name("y")),
                        ascribed_type: Some(path_type(11, "i64")),
                    },
                ]),
            }),
            ModuleItemNode::Function(FunctionDefNode {
                ast_id: AstId(2),
                name: Some(name("origin")),
                visibility: None,
                is_extern: false,
                params: vec![],
                ret_type: Some(path_type(20, "Point")),
            }),
            ModuleItemNode::Const(ConstDefNode {
                ast_id: AstId(3),
                name: Some(name("LIMIT")),
                visibility: None,
                type_ref: Some(path_type(30, "Distance")),
            }),
        ],
    };
    DefDatabase {
        files: vec![file],
        module_tree: ModuleTree { parents: vec![None] },
        module_scopes: vec![scope],
        function_locs: vec![FunctionLoc {
            module: ModuleId(0),
            file: FileId(0),
            value: LocalFunctionId(0),
        }],
        struct_locs: vec![StructLoc {
            module: ModuleId(0),
            file: FileId(0),
            value: LocalStructId(0),
        }],
        type_alias_locs: vec![],
        const_locs: vec![ConstLoc {
            module: ModuleId(0),
            file: FileId(0),
            value: LocalConstId(0),
        }],
        bodies: vec![Body { exprs: vec![], pats: vec![] }],
        body_source_maps: vec![BodySourceMap { expr_ast: vec![AstId(40)], pat_ast: vec![] }],
    }
}

#[test]
fn struct_data_reflects_the_item_tree() {
    let db = test_db(ItemScope::new());
    let s = Struct { id: StructId(0) };
    let data = s.data(&db);
    assert_eq!(data.name, name("Point"));
    assert_eq!(data.kind, StructDefKind::Record);
    assert_eq!(data.fields.len(), 2);
    assert_eq!(data.fields[0].name, name("x"));
    assert_eq!(data.fields[1].name, name("y"));
    assert_eq!(data.fields[0].type_ref, TypeRef::Path(name("i64")));
}

#[test]
fn def_with_struct_dispatches_to_its_struct() {
    let db = test_db(ItemScope::new());
    let s = Struct { id: StructId(0) };
    let d = DefWithStruct::Struct(s);
    assert_eq!(d.module(&db).id, ModuleId(0));
    assert_eq!(d.data(&db).name, name("Point"));
    let fields = d.fields(&db);
    assert_eq!(fields.len(), 2);
    assert_eq!(fields[0], StructField { parent: s, id: LocalStructFieldId(0) });
    let hit = d.field(&db, &name("y"));
    assert_eq!(hit, Some(StructField { parent: s, id: LocalStructFieldId(1) }));
    assert_eq!(d.field(&db, &name("z")), None);
}

#[test]
fn def_with_body_dispatches_to_its_function() {
    let db = test_db(ItemScope::new());
    let f = Function { id: FunctionId(0) };
    let d = DefWithBody::Function(f);
    assert_eq!(d.module(&db).id, ModuleId(0));
    let map = d.body_source_map(&db);
    assert_eq!(map.expr_syntax(mun_hir::body::ExprId(0)), Some(AstId(40)));
    assert_eq!(map.expr_syntax(mun_hir::body::ExprId(9)), None);
}

#[test]
fn function_source_is_rederived_from_the_file() {
    let db = test_db(ItemScope::new());
    let f = Function { id: FunctionId(0) };
    let src = f.source(&db);
    assert_eq!(src.file_id, FileId(0));
    assert_eq!(src.value.ast_id, AstId(2));
    assert_eq!(src.value.name, Some(name("origin")));
}

#[test]
fn struct_field_source_zips_against_the_syntax_field_list() {
    let db = test_db(ItemScope::new());
    let s = Struct { id: StructId(0) };
    let src = s.source(&db);
    assert_eq!(src.value.ast_id, AstId(1));
    let field = StructField { parent: s, id: LocalStructFieldId(1) };
    let field_src = field.source(&db);
    assert_eq!(field_src.file_id, FileId(0));
    assert_eq!(field_src.value.name, Some(name("y")));
}

#[test]
fn const_data_and_accessors() {
    let db = test_db(ItemScope::new());
    let c = ConstDef { id: ConstDefId(0) };
    assert_eq!(c.module(&db).id, ModuleId(0));
    assert_eq!(c.file_id(&db), FileId(0));
    assert_eq!(c.name(&db), name("LIMIT"));
    assert_eq!(c.type_ref(&db), LocalTypeRefId(0));
    let data = c.data(&db);
    assert_eq!(data.type_ref_map().get(LocalTypeRefId(0)), &TypeRef::Path(name("Distance")));
    assert_eq!(data.type_ref_source_map().type_ref_ast(LocalTypeRefId(0)), Some(AstId(30)));
}

#[test]
fn unresolved_const_target_type_is_reported() {
    // No `Distance` anywhere: the validator reports that the target type
    // of the constant does not exist, with its source range.
    let db = test_db(ItemScope::new());
    let c = ConstDef { id: ConstDefId(0) };
    let lower = c.lower(&db);
    assert_eq!(lower.ty, None);
    assert_eq!(
        lower.diagnostics,
        vec![LowerDiagnostic::UnresolvedType { id: LocalTypeRefId(0) }],
    );
    let mut sink = DiagnosticSink::new();
    c.diagnostics(&db, &mut sink);
    assert_eq!(
        sink.diagnostics().as_slice(),
        &[Diagnostic::UnresolvedType {
            file: FileId(0),
            id: LocalTypeRefId(0),
            ast: Some(AstId(30)),
        }],
    );
}

#[test]
fn resolved_const_target_type_yields_no_diagnostic() {
    let mut scope = ItemScope::new();
    let def = ItemDefinitionId::StructId(StructId(7));
    scope.add_resolution(name("Distance"), PerNs::from_definition(def, Visibility::Public, false));
    let db = test_db(scope);
    let c = ConstDef { id: ConstDefId(0) };
    let lower = c.lower(&db);
    assert_eq!(lower.ty, Some(def));
    assert_eq!(lower.diagnostics.len(), 0);
    let mut sink = DiagnosticSink::new();
    c.diagnostics(&db, &mut sink);
    assert_eq!(sink.diagnostics().len(), 0);
}

#[test]
fn const_target_type_falls_back_to_the_builtin_scope() {
    // `const LIMIT: i32` with an empty module scope resolves through the
    // built-in scope.
    let mut db = test_db(ItemScope::new());
    db.files[0].items[2] = ModuleItemNode::Const(ConstDefNode {
        ast_id: AstId(3),
        name: Some(name("LIMIT")),
        visibility: None,
        type_ref: Some(path_type(30, "i32")),
    });
    let c = ConstDef { id: ConstDefId(0) };
    let lower = c.lower(&db);
    assert_eq!(lower.ty, Some(ItemDefinitionId::PrimitiveType(PrimitiveType::I32)));
    assert_eq!(lower.diagnostics.len(), 0);
}

#[test]
fn const_handle_conversion_and_visibility() {
    let db = test_db(ItemScope::new());
    let c: ConstDef = ConstDefId(0).into();
    assert_eq!(c, ConstDef { id: ConstDefId(0) });
    // The constant carries no public marker: private to its module.
    assert_eq!(c.visibility(&db), Visibility::Module(ModuleId(0)));
}

#[test]
fn body_source_map_knows_no_pattern_it_was_not_given() {
    let map = BodySourceMap { expr_ast: vec![AstId(1)], pat_ast: vec![AstId(2)] };
    assert_eq!(map.pat_syntax(mun_hir::ids::PatId(0)), Some(AstId(2)));
    assert_eq!(map.pat_syntax(mun_hir::ids::PatId(1)), None);
}

#[test]
fn item_tree_query_is_a_pure_function_of_the_file() {
    let db = test_db(ItemScope::new());
    let t1 = db.item_tree(FileId(0));
    let t2 = db.item_tree(FileId(0));
    assert_eq!(t1, t2);
}
