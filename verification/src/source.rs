//! On-demand source correlation.
//!
//! A semantic entity stores only its identity; mapping it back to the
//! syntax node it came from re-walks the file's item tree and syntax
//! tree deterministically. The node is never cached inside the entity,
//! which keeps semantic data independent of a live syntax tree.

use vstd::prelude::*;

use crate::code_model::{Function, Struct, StructField, TypeAlias};
use crate::db::DefDatabase;
use crate::ids::{FileId, InFile};
use crate::syntax::{
    s_find_function, s_find_struct, s_find_type_alias, FunctionDefNode, RecordFieldDefNode,
    StructDefNode, StructKindNode, TypeAliasDefNode,
};
use vstd::pervasive::unreached;

verus! {

/// Maps a semantic entity back to its originating syntax node. The
/// entity keeps only identity; `source` re-derives the node on demand
/// from the database.
pub trait HasSource {
    type Ast;

    /// When the entity's identity maps back to source: its location
    /// tables and item tree entries exist, and the node its record
    /// refers to is present in the file. Lowering guarantees all of
    /// this for every entity it creates; a violation is an internal
    /// consistency bug, not user input.
    spec fn src_wf(&self, db: &DefDatabase) -> bool;

    /// The file the entity originates from.
    spec fn spec_file(&self, db: &DefDatabase) -> FileId;

    /// The node the entity originates from.
    spec fn spec_source(&self, db: &DefDatabase) -> Self::Ast;

    /// Re-derives the originating syntax node.
    fn source<'a>(&self, db: &'a DefDatabase) -> (r: InFile<&'a Self::Ast>)
        requires
            self.src_wf(db),
        ensures
            r.file_id == self.spec_file(db),
            *r.value == self.spec_source(db),
    ;
}

impl HasSource for Function {
    type Ast = FunctionDefNode;

    open spec fn src_wf(&self, db: &DefDatabase) -> bool {
        &&& self.id.0 < db.function_locs@.len()
        &&& self.spec_loc(*db).file.0 < db.files@.len()
        &&& self.spec_loc(*db).value.0 < db.spec_file_tree(
            self.spec_loc(*db).file,
        ).data.functions.len()
        &&& s_find_function(
            db.files@[self.spec_loc(*db).file.0 as int].items@,
            db.spec_file_tree(self.spec_loc(*db).file).data.functions[self.spec_loc(
                *db,
            ).value.0 as int].ast_id,
        ) is Some
    }

    open spec fn spec_file(&self, db: &DefDatabase) -> FileId {
        self.spec_loc(*db).file
    }

    open spec fn spec_source(&self, db: &DefDatabase) -> FunctionDefNode {
        s_find_function(
            db.files@[self.spec_loc(*db).file.0 as int].items@,
            db.spec_file_tree(self.spec_loc(*db).file).data.functions[self.spec_loc(
                *db,
            ).value.0 as int].ast_id,
        )->Some_0
    }

    fn source<'a>(&self, db: &'a DefDatabase) -> (r: InFile<&'a FunctionDefNode>) {
        let loc = db.function_locs[self.id.0];
        let tree = db.item_tree(loc.file);
        let ast_id = tree.function(loc.value).ast_id;
        match db.files[loc.file.0].find_function(ast_id) {
            Some(node) => InFile::new(loc.file, node),
            None => unreached(),
        }
    }
}

impl HasSource for Struct {
    type Ast = StructDefNode;

    open spec fn src_wf(&self, db: &DefDatabase) -> bool {
        &&& self.wf(*db)
        &&& s_find_struct(
            db.files@[self.spec_loc(*db).file.0 as int].items@,
            self.spec_record(*db).ast_id,
        ) is Some
    }

    open spec fn spec_file(&self, db: &DefDatabase) -> FileId {
        self.spec_loc(*db).file
    }

    open spec fn spec_source(&self, db: &DefDatabase) -> StructDefNode {
        s_find_struct(
            db.files@[self.spec_loc(*db).file.0 as int].items@,
            self.spec_record(*db).ast_id,
        )->Some_0
    }

    fn source<'a>(&self, db: &'a DefDatabase) -> (r: InFile<&'a StructDefNode>) {
        let loc = db.struct_locs[self.id.0];
        let tree = db.item_tree(loc.file);
        let ast_id = tree.strukt(loc.value).ast_id;
        match db.files[loc.file.0].find_struct(ast_id) {
            Some(node) => InFile::new(loc.file, node),
            None => unreached(),
        }
    }
}

impl HasSource for TypeAlias {
    type Ast = TypeAliasDefNode;

    open spec fn src_wf(&self, db: &DefDatabase) -> bool {
        &&& self.id.0 < db.type_alias_locs@.len()
        &&& self.spec_loc(*db).file.0 < db.files@.len()
        &&& self.spec_loc(*db).value.0 < db.spec_file_tree(
            self.spec_loc(*db).file,
        ).data.type_aliases.len()
        &&& s_find_type_alias(
            db.files@[self.spec_loc(*db).file.0 as int].items@,
            db.spec_file_tree(self.spec_loc(*db).file).data.type_aliases[self.spec_loc(
                *db,
            ).value.0 as int].ast_id,
        ) is Some
    }

    open spec fn spec_file(&self, db: &DefDatabase) -> FileId {
        self.spec_loc(*db).file
    }

    open spec fn spec_source(&self, db: &DefDatabase) -> TypeAliasDefNode {
        s_find_type_alias(
            db.files@[self.spec_loc(*db).file.0 as int].items@,
            db.spec_file_tree(self.spec_loc(*db).file).data.type_aliases[self.spec_loc(
                *db,
            ).value.0 as int].ast_id,
        )->Some_0
    }

    fn source<'a>(&self, db: &'a DefDatabase) -> (r: InFile<&'a TypeAliasDefNode>) {
        let loc = db.type_alias_locs[self.id.0];
        let tree = db.item_tree(loc.file);
        let ast_id = tree.type_alias(loc.value).ast_id;
        match db.files[loc.file.0].find_type_alias(ast_id) {
            Some(node) => InFile::new(loc.file, node),
            None => unreached(),
        }
    }
}

impl HasSource for StructField {
    type Ast = RecordFieldDefNode;

    /// A field maps back to source when its parent does, the parent's
    /// node is a record struct, and the field's position exists in the
    /// syntax field list: the invariant that lowering order and source
    /// order agree. A database where they disagree is an internal
    /// consistency bug of the core, which this precondition excludes.
    open spec fn src_wf(&self, db: &DefDatabase) -> bool {
        &&& self.parent.src_wf(db)
        &&& self.parent.spec_source(db).kind is Record
        &&& self.id.0 < (self.parent.spec_source(db).kind)->Record_0@.len()
    }

    open spec fn spec_file(&self, db: &DefDatabase) -> FileId {
        self.parent.spec_loc(*db).file
    }

    open spec fn spec_source(&self, db: &DefDatabase) -> RecordFieldDefNode {
        (self.parent.spec_source(db).kind)->Record_0@[self.id.0 as int]
    }

    fn source<'a>(&self, db: &'a DefDatabase) -> (r: InFile<&'a RecordFieldDefNode>) {
        let src = self.parent.source(db);
        let file_id = src.file_id;
        match &src.value.kind {
            StructKindNode::Record(fields) => InFile::new(file_id, &fields[self.id.0]),
            _ => unreached(),
        }
    }
}

} // verus!
