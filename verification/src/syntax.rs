//! The syntax-tree contract this core consumes.
//!
//! The syntax layer is an external collaborator: all the core relies on is
//! that every item-kind node exposes its declared name, visibility marker,
//! parameter / field / type-ascription children, and a stable per-node
//! identifier, and that declaration order is preserved. These types state
//! exactly that interface as plain data.

use vstd::prelude::*;

use crate::ids::AstId;
use crate::name::Name;

verus! {

/// An explicit visibility marker on a declaration (the public keyword).
#[derive(Clone, Copy, PartialEq, Eq, Structural, Debug)]
pub enum VisibilityMarker {
    Pub,
}

/// The form of a type expression as written in source: an identifier path
/// (whose name may be missing in malformed source) or the never type.
#[derive(PartialEq, Eq, Debug)]
pub enum TypeRefKindNode {
    Path(Option<Name>),
    Never,
}

/// A type expression node, with its stable identity for source correlation.
#[derive(PartialEq, Eq, Debug)]
pub struct TypeRefNode {
    pub ast_id: AstId,
    pub kind: TypeRefKindNode,
}

/// One value parameter of a function, with its optional type ascription.
#[derive(PartialEq, Eq, Debug)]
pub struct ParamNode {
    pub ascribed_type: Option<TypeRefNode>,
}

/// A function definition node.
#[derive(PartialEq, Eq, Debug)]
pub struct FunctionDefNode {
    pub ast_id: AstId,
    pub name: Option<Name>,
    pub visibility: Option<VisibilityMarker>,
    pub is_extern: bool,
    pub params: Vec<ParamNode>,
    pub ret_type: Option<TypeRefNode>,
}

/// One named field of a record struct, e.g. `a: i32`.
#[derive(PartialEq, Eq, Debug)]
pub struct RecordFieldDefNode {
    pub name: Option<Name>,
    pub ascribed_type: Option<TypeRefNode>,
}

/// One positional field of a tuple struct, e.g. the `i32` in `(i32, u8)`.
#[derive(PartialEq, Eq, Debug)]
pub struct TupleFieldDefNode {
    pub type_ref: Option<TypeRefNode>,
}

/// The shape of a struct definition's field list.
#[derive(PartialEq, Eq, Debug)]
pub enum StructKindNode {
    Record(Vec<RecordFieldDefNode>),
    Tuple(Vec<TupleFieldDefNode>),
    Unit,
}

/// A struct definition node.
#[derive(PartialEq, Eq, Debug)]
pub struct StructDefNode {
    pub ast_id: AstId,
    pub name: Option<Name>,
    pub visibility: Option<VisibilityMarker>,
    pub kind: StructKindNode,
}

/// A type-alias definition node, e.g. `type Foo = Bar`.
#[derive(PartialEq, Eq, Debug)]
pub struct TypeAliasDefNode {
    pub ast_id: AstId,
    pub name: Option<Name>,
    pub visibility: Option<VisibilityMarker>,
    pub type_ref: Option<TypeRefNode>,
}

/// A constant definition node.
#[derive(PartialEq, Eq, Debug)]
pub struct ConstDefNode {
    pub ast_id: AstId,
    pub name: Option<Name>,
    pub visibility: Option<VisibilityMarker>,
    pub type_ref: Option<TypeRefNode>,
}

/// One top-level item node, dispatched on by syntactic kind.
#[derive(PartialEq, Eq, Debug)]
pub enum ModuleItemNode {
    Function(FunctionDefNode),
    Struct(StructDefNode),
    TypeAlias(TypeAliasDefNode),
    Const(ConstDefNode),
}

/// One file's syntax tree: its top-level items in declaration order.
#[derive(PartialEq, Eq, Debug)]
pub struct SourceFile {
    pub items: Vec<ModuleItemNode>,
}

impl ModuleItemNode {
    /// The stable identifier of the item node.
    pub open spec fn spec_ast_id(self) -> AstId {
        match self {
            ModuleItemNode::Function(n) => n.ast_id,
            ModuleItemNode::Struct(n) => n.ast_id,
            ModuleItemNode::TypeAlias(n) => n.ast_id,
            ModuleItemNode::Const(n) => n.ast_id,
        }
    }
}


/// The function node with the given stable identifier, if the file has
/// one: the earliest match.
pub open spec fn s_find_function(items: Seq<ModuleItemNode>, ast_id: AstId) -> Option<
    FunctionDefNode,
>
    decreases items.len(),
{
    if items.len() == 0 {
        None
    } else {
        match items[0] {
            ModuleItemNode::Function(n) => if n.ast_id == ast_id {
                Some(n)
            } else {
                s_find_function(items.drop_first(), ast_id)
            },
            _ => s_find_function(items.drop_first(), ast_id),
        }
    }
}

/// The struct node with the given stable identifier, if the file has one.
pub open spec fn s_find_struct(items: Seq<ModuleItemNode>, ast_id: AstId) -> Option<StructDefNode>
    decreases items.len(),
{
    if items.len() == 0 {
        None
    } else {
        match items[0] {
            ModuleItemNode::Struct(n) => if n.ast_id == ast_id {
                Some(n)
            } else {
                s_find_struct(items.drop_first(), ast_id)
            },
            _ => s_find_struct(items.drop_first(), ast_id),
        }
    }
}

/// The type-alias node with the given stable identifier, if the file has
/// one.
pub open spec fn s_find_type_alias(items: Seq<ModuleItemNode>, ast_id: AstId) -> Option<
    TypeAliasDefNode,
>
    decreases items.len(),
{
    if items.len() == 0 {
        None
    } else {
        match items[0] {
            ModuleItemNode::TypeAlias(n) => if n.ast_id == ast_id {
                Some(n)
            } else {
                s_find_type_alias(items.drop_first(), ast_id)
            },
            _ => s_find_type_alias(items.drop_first(), ast_id),
        }
    }
}

/// The constant node with the given stable identifier, if the file has
/// one.
pub open spec fn s_find_const(items: Seq<ModuleItemNode>, ast_id: AstId) -> Option<ConstDefNode>
    decreases items.len(),
{
    if items.len() == 0 {
        None
    } else {
        match items[0] {
            ModuleItemNode::Const(n) => if n.ast_id == ast_id {
                Some(n)
            } else {
                s_find_const(items.drop_first(), ast_id)
            },
            _ => s_find_const(items.drop_first(), ast_id),
        }
    }
}

impl SourceFile {
    /// Re-derives the function node a stable identifier denotes, by
    /// walking the tree.
    pub fn find_function(&self, ast_id: AstId) -> (r: Option<&FunctionDefNode>)
        ensures
            (match r {
                Some(n) => s_find_function(self.items@, ast_id) == Some(*n),
                None => s_find_function(self.items@, ast_id) is None,
            }),
    {
        let ghost items = self.items@;
        proof {
            assert(items.skip(0) =~= items);
        }
        let n = self.items.len();
        for i in 0..n
            invariant
                n == self.items@.len(),
                items == self.items@,
                s_find_function(items, ast_id) == s_find_function(items.skip(i as int), ast_id),
        {
            proof {
                assert(items.skip(i as int)[0] == items[i as int]);
                assert(items.skip(i as int).drop_first() =~= items.skip((i + 1) as int));
            }
            match &self.items[i] {
                ModuleItemNode::Function(node) => {
                    if node.ast_id.0 == ast_id.0 {
                        return Some(node);
                    }
                },
                _ => {},
            }
        }
        proof {
            assert(items.skip(n as int) =~= Seq::<ModuleItemNode>::empty());
        }
        None
    }

    /// Re-derives the struct node a stable identifier denotes.
    pub fn find_struct(&self, ast_id: AstId) -> (r: Option<&StructDefNode>)
        ensures
            (match r {
                Some(n) => s_find_struct(self.items@, ast_id) == Some(*n),
                None => s_find_struct(self.items@, ast_id) is None,
            }),
    {
        let ghost items = self.items@;
        proof {
            assert(items.skip(0) =~= items);
        }
        let n = self.items.len();
        for i in 0..n
            invariant
                n == self.items@.len(),
                items == self.items@,
                s_find_struct(items, ast_id) == s_find_struct(items.skip(i as int), ast_id),
        {
            proof {
                assert(items.skip(i as int)[0] == items[i as int]);
                assert(items.skip(i as int).drop_first() =~= items.skip((i + 1) as int));
            }
            match &self.items[i] {
                ModuleItemNode::Struct(node) => {
                    if node.ast_id.0 == ast_id.0 {
                        return Some(node);
                    }
                },
                _ => {},
            }
        }
        proof {
            assert(items.skip(n as int) =~= Seq::<ModuleItemNode>::empty());
        }
        None
    }

    /// Re-derives the type-alias node a stable identifier denotes.
    pub fn find_type_alias(&self, ast_id: AstId) -> (r: Option<&TypeAliasDefNode>)
        ensures
            (match r {
                Some(n) => s_find_type_alias(self.items@, ast_id) == Some(*n),
                None => s_find_type_alias(self.items@, ast_id) is None,
            }),
    {
        let ghost items = self.items@;
        proof {
            assert(items.skip(0) =~= items);
        }
        let n = self.items.len();
        for i in 0..n
            invariant
                n == self.items@.len(),
                items == self.items@,
                s_find_type_alias(items, ast_id) == s_find_type_alias(
                    items.skip(i as int),
                    ast_id,
                ),
        {
            proof {
                assert(items.skip(i as int)[0] == items[i as int]);
                assert(items.skip(i as int).drop_first() =~= items.skip((i + 1) as int));
            }
            match &self.items[i] {
                ModuleItemNode::TypeAlias(node) => {
                    if node.ast_id.0 == ast_id.0 {
                        return Some(node);
                    }
                },
                _ => {},
            }
        }
        proof {
            assert(items.skip(n as int) =~= Seq::<ModuleItemNode>::empty());
        }
        None
    }

    /// Re-derives the constant node a stable identifier denotes.
    pub fn find_const(&self, ast_id: AstId) -> (r: Option<&ConstDefNode>)
        ensures
            (match r {
                Some(n) => s_find_const(self.items@, ast_id) == Some(*n),
                None => s_find_const(self.items@, ast_id) is None,
            }),
    {
        let ghost items = self.items@;
        proof {
            assert(items.skip(0) =~= items);
        }
        let n = self.items.len();
        for i in 0..n
            invariant
                n == self.items@.len(),
                items == self.items@,
                s_find_const(items, ast_id) == s_find_const(items.skip(i as int), ast_id),
        {
            proof {
                assert(items.skip(i as int)[0] == items[i as int]);
                assert(items.skip(i as int).drop_first() =~= items.skip((i + 1) as int));
            }
            match &self.items[i] {
                ModuleItemNode::Const(node) => {
                    if node.ast_id.0 == ast_id.0 {
                        return Some(node);
                    }
                },
                _ => {},
            }
        }
        proof {
            assert(items.skip(n as int) =~= Seq::<ModuleItemNode>::empty());
        }
        None
    }
}


} // verus!
