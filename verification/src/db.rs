//! The database: the inputs a query evaluation runs against.
//!
//! Every derived fact of the core is a pure, deterministic function of
//! this value, keyed by stable identities, so a surrounding engine can
//! memoize each query on (query identity, input revision) and evaluate
//! independent queries in parallel. The database holds the syntax trees
//! (the inputs), the interned item locations that give definitions their
//! stable identities, the module hierarchy and per-module scopes, and
//! the lowered bodies.

use vstd::prelude::*;

use crate::body::{Body, BodySourceMap};
use crate::ids::{FileId, LocalConstId, LocalFunctionId, LocalStructId, LocalTypeAliasId, ModuleId};
use crate::item_scope::ItemScope;
use crate::item_tree::{ItemTree, ItemTreeDataModel, ItemTreeModel};
use crate::lower::{s_item_tree, Context, ContextModel};
use crate::syntax::SourceFile;
use crate::visibility::ModuleTree;

verus! {

/// Where a function definition lives: its module, its file, and its
/// record in that file's item tree.
#[derive(Clone, Copy, PartialEq, Eq, Structural, Hash, Debug)]
pub struct FunctionLoc {
    pub module: ModuleId,
    pub file: FileId,
    pub value: LocalFunctionId,
}

/// Where a struct definition lives.
#[derive(Clone, Copy, PartialEq, Eq, Structural, Hash, Debug)]
pub struct StructLoc {
    pub module: ModuleId,
    pub file: FileId,
    pub value: LocalStructId,
}

/// Where a type-alias definition lives.
#[derive(Clone, Copy, PartialEq, Eq, Structural, Hash, Debug)]
pub struct TypeAliasLoc {
    pub module: ModuleId,
    pub file: FileId,
    pub value: LocalTypeAliasId,
}

/// Where a constant definition lives.
#[derive(Clone, Copy, PartialEq, Eq, Structural, Hash, Debug)]
pub struct ConstLoc {
    pub module: ModuleId,
    pub file: FileId,
    pub value: LocalConstId,
}

/// The inputs of query evaluation. Indexing: a `FileId` indexes
/// `files`, a `ModuleId` indexes `module_scopes` and the module tree,
/// and each interned definition identity indexes its location table.
pub struct DefDatabase {
    /// Each file's syntax tree.
    pub files: Vec<SourceFile>,
    /// The module hierarchy.
    pub module_tree: ModuleTree,
    /// Each module's item scope.
    pub module_scopes: Vec<ItemScope>,
    /// Location of each interned function.
    pub function_locs: Vec<FunctionLoc>,
    /// Location of each interned struct.
    pub struct_locs: Vec<StructLoc>,
    /// Location of each interned type alias.
    pub type_alias_locs: Vec<TypeAliasLoc>,
    /// Location of each interned constant.
    pub const_locs: Vec<ConstLoc>,
    /// Each function's lowered body, indexed like `function_locs`.
    pub bodies: Vec<Body>,
    /// Each function body's source map, indexed like `function_locs`.
    pub body_source_maps: Vec<BodySourceMap>,
}

impl DefDatabase {
    /// The item tree that lowering the given file yields.
    pub open spec fn spec_file_tree(self, file: FileId) -> ItemTreeModel {
        s_item_tree(
            ContextModel {
                file,
                data: ItemTreeDataModel::empty(),
                diagnostics: Seq::empty(),
            },
            self.files@[file.0 as int].items@,
        )
    }

    /// Lowers one file's syntax tree to its item tree. A pure function
    /// of the file's syntax: re-invocation on an unchanged file yields
    /// the same tree, which is what lets the surrounding engine cache
    /// it.
    pub fn item_tree(&self, file: FileId) -> (tree: ItemTree)
        requires
            file.0 < self.files@.len(),
        ensures
            tree@ == self.spec_file_tree(file),
            tree.wf(),
    {
        let cx = Context::new(file);
        let tree = cx.lower_module_items(&self.files[file.0]);
        proof {
            tree.data.functions.lemma_len_bounded();
            tree.data.structs.lemma_len_bounded();
            tree.data.type_aliases.lemma_len_bounded();
            tree.data.constants.lemma_len_bounded();
            tree.data.fields.lemma_len_bounded();
            tree.data.visibilities.lemma_len_bounded();
            crate::lower::lemma_item_tree_wf(
                ContextModel {
                    file,
                    data: ItemTreeDataModel::empty(),
                    diagnostics: Seq::empty(),
                },
                self.files@[file.0 as int].items@,
            );
        }
        tree
    }
}

} // verus!
