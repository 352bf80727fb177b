//! Stable identities for files, modules and lowered items.
//!
//! Every cross-reference between semantic entities is a typed dense index,
//! not an owning reference: identities are trivially copyable and comparable,
//! and are valid relative to the arena or table that produced them.

use vstd::prelude::*;

verus! {

/// Identity of one source file.
#[derive(Clone, Copy, PartialEq, Eq, Structural, Hash, Debug)]
pub struct FileId(pub usize);

/// Identity of one module.
#[derive(Clone, Copy, PartialEq, Eq, Structural, Hash, Debug)]
pub struct ModuleId(pub usize);

/// Stable, reproducible identity of a syntax node within its file, used to
/// re-derive the node on demand instead of storing it.
#[derive(Clone, Copy, PartialEq, Eq, Structural, Hash, Debug)]
pub struct AstId(pub usize);

/// Identity of a function record within one file's item tree.
#[derive(Clone, Copy, PartialEq, Eq, Structural, Hash, Debug)]
pub struct LocalFunctionId(pub usize);

/// Identity of a struct record within one file's item tree.
#[derive(Clone, Copy, PartialEq, Eq, Structural, Hash, Debug)]
pub struct LocalStructId(pub usize);

/// Identity of a type-alias record within one file's item tree.
#[derive(Clone, Copy, PartialEq, Eq, Structural, Hash, Debug)]
pub struct LocalTypeAliasId(pub usize);

/// Identity of a constant record within one file's item tree.
#[derive(Clone, Copy, PartialEq, Eq, Structural, Hash, Debug)]
pub struct LocalConstId(pub usize);

/// Identity of a lowered visibility within one file's item tree.
#[derive(Clone, Copy, PartialEq, Eq, Structural, Hash, Debug)]
pub struct RawVisibilityId(pub usize);

/// Identity of a field of a struct, relative to that struct's field range.
#[derive(Clone, Copy, PartialEq, Eq, Structural, Hash, Debug)]
pub struct LocalStructFieldId(pub usize);

/// Identity of a binding pattern within one function body.
#[derive(Clone, Copy, PartialEq, Eq, Structural, Hash, Debug)]
pub struct PatId(pub usize);

/// Interned identity of a function definition, an index into the
/// database's function location table.
#[derive(Clone, Copy, PartialEq, Eq, Structural, Hash, Debug)]
pub struct FunctionId(pub usize);

/// Interned identity of a struct definition.
#[derive(Clone, Copy, PartialEq, Eq, Structural, Hash, Debug)]
pub struct StructId(pub usize);

/// Interned identity of a type-alias definition.
#[derive(Clone, Copy, PartialEq, Eq, Structural, Hash, Debug)]
pub struct TypeAliasId(pub usize);

/// Interned identity of a constant definition.
#[derive(Clone, Copy, PartialEq, Eq, Structural, Hash, Debug)]
pub struct ConstDefId(pub usize);

/// Identity of any item a name can resolve to, across every namespace.
#[derive(Clone, Copy, PartialEq, Eq, Structural, Hash, Debug)]
pub enum ItemDefinitionId {
    FunctionId(FunctionId),
    StructId(StructId),
    TypeAliasId(TypeAliasId),
    ConstDefId(ConstDefId),
    PrimitiveType(PrimitiveType),
    ModuleId(ModuleId),
}

/// A built-in primitive type of the language. Carries no value of the
/// primitive itself; it is an identity that the built-in scope hands out.
#[derive(Clone, Copy, PartialEq, Eq, Structural, Hash, Debug)]
pub enum PrimitiveType {
    Bool,
    I8,
    I16,
    I32,
    I64,
    I128,
    ISize,
    U8,
    U16,
    U32,
    U64,
    U128,
    USize,
    Float32,
    Float64,
}

/// A value paired with the file it originates from: the result of an
/// on-demand source-correlation query, never stored inside long-lived
/// semantic entities.
#[derive(Clone, Copy, PartialEq, Eq, Debug)]
pub struct InFile<T> {
    pub file_id: FileId,
    pub value: T,
}

impl<T> InFile<T> {
    pub fn new(file_id: FileId, value: T) -> (r: InFile<T>)
        ensures
            r.file_id == file_id,
            r.value == value,
    {
        InFile { file_id, value }
    }
}

} // verus!
