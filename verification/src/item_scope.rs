//! The dual-namespace scope model.
//!
//! One name can denote a type-namespace entity and a value-namespace
//! entity at the same time; `PerNs` records both possibilities. An
//! `ItemScope` answers name lookups per namespace and keeps the ordered
//! list of items declared directly in the scope. The built-in scope maps
//! every primitive type name to a public type-namespace resolution; it is
//! constructed once by `builtin_scope` and shared (its process-wide,
//! lazily initialized cell lives with the host, outside this core).

use vstd::prelude::*;
use vstd::string::StringExecFns;

use crate::ids::{ItemDefinitionId, PrimitiveType};
use crate::name::{Name, NameModel};
use crate::visibility::Visibility;

verus! {

/// A per-namespace resolution: what a name means in the type namespace
/// and in the value namespace. Either slot, both, or neither may be
/// populated.
#[derive(Clone, Copy, PartialEq, Eq, Debug)]
pub struct PerNs<T> {
    pub types: Option<T>,
    pub values: Option<T>,
}

impl<T> PerNs<T> {
    /// A resolution in neither namespace.
    pub fn none() -> (r: PerNs<T>)
        ensures
            r.types is None,
            r.values is None,
    {
        PerNs { types: None, values: None }
    }

    /// A resolution in the value namespace only.
    pub fn values(v: T) -> (r: PerNs<T>)
        ensures
            r.types is None,
            r.values == Some(v),
    {
        PerNs { types: None, values: Some(v) }
    }

    /// A resolution in the type namespace only.
    pub fn types(t: T) -> (r: PerNs<T>)
        ensures
            r.types == Some(t),
            r.values is None,
    {
        PerNs { types: Some(t), values: None }
    }

    /// A resolution in both namespaces.
    pub fn both(t: T, v: T) -> (r: PerNs<T>)
        ensures
            r.types == Some(t),
            r.values == Some(v),
    {
        PerNs { types: Some(t), values: Some(v) }
    }
}

/// The fixed per-item-kind namespace classification: functions live in
/// the value namespace; structs live in the type namespace, and also in
/// the value namespace exactly when they have a constructor; type
/// aliases, constants, primitive types and modules live in the type
/// namespace.
pub open spec fn s_from_definition(
    def: ItemDefinitionId,
    vis: Visibility,
    has_constructor: bool,
) -> PerNs<(ItemDefinitionId, Visibility)> {
    match def {
        ItemDefinitionId::FunctionId(_) => PerNs { types: None, values: Some((def, vis)) },
        ItemDefinitionId::StructId(_) => if has_constructor {
            PerNs { types: Some((def, vis)), values: Some((def, vis)) }
        } else {
            PerNs { types: Some((def, vis)), values: None }
        },
        ItemDefinitionId::TypeAliasId(_) => PerNs { types: Some((def, vis)), values: None },
        ItemDefinitionId::ConstDefId(_) => PerNs { types: Some((def, vis)), values: None },
        ItemDefinitionId::PrimitiveType(_) => PerNs { types: Some((def, vis)), values: None },
        ItemDefinitionId::ModuleId(_) => PerNs { types: Some((def, vis)), values: None },
    }
}

impl PerNs<(ItemDefinitionId, Visibility)> {
    /// Classifies a definition into its namespaces, following the fixed
    /// table: see `s_from_definition`.
    pub fn from_definition(def: ItemDefinitionId, vis: Visibility, has_constructor: bool) -> (r:
        PerNs<(ItemDefinitionId, Visibility)>)
        ensures
            r == s_from_definition(def, vis, has_constructor),
    {
        match def {
            ItemDefinitionId::FunctionId(_) => PerNs::values((def, vis)),
            ItemDefinitionId::StructId(_) => {
                if has_constructor {
                    PerNs::both((def, vis), (def, vis))
                } else {
                    PerNs::types((def, vis))
                }
            },
            ItemDefinitionId::TypeAliasId(_) => PerNs::types((def, vis)),
            ItemDefinitionId::ConstDefId(_) => PerNs::types((def, vis)),
            ItemDefinitionId::PrimitiveType(_) => PerNs::types((def, vis)),
            ItemDefinitionId::ModuleId(_) => PerNs::types((def, vis)),
        }
    }
}

/// A struct never reaches the value namespace without a constructor, and
/// with one it populates both namespaces with the same identity; no item
/// kind but functions and constructed structs ever populates the value
/// namespace.
pub proof fn lemma_struct_namespaces(def: ItemDefinitionId, vis: Visibility, has_constructor: bool)
    ensures
        def is StructId && !has_constructor ==> s_from_definition(def, vis, has_constructor)
            == (PerNs::<(ItemDefinitionId, Visibility)> {
            types: Some((def, vis)),
            values: None,
        }),
        def is StructId && has_constructor ==> s_from_definition(def, vis, has_constructor) == (
        PerNs::<(ItemDefinitionId, Visibility)> {
            types: Some((def, vis)),
            values: Some((def, vis)),
        }),
        !(def is StructId) && !(def is FunctionId) ==> s_from_definition(
            def,
            vis,
            has_constructor,
        ).values is None,
{
}

/// The name table of one namespace, as the sequence of resolutions added
/// to it, oldest first. Its meaning as a map is `s_table`: a later
/// resolution for the same name overwrites an earlier one.
type TableEntries = Seq<(Name, ItemDefinitionId, Visibility)>;

/// The map a namespace table denotes: last writer for a name wins.
pub open spec fn s_table(entries: TableEntries) -> Map<NameModel, (ItemDefinitionId, Visibility)>
    decreases entries.len(),
{
    if entries.len() == 0 {
        Map::empty()
    } else {
        s_table(entries.drop_last()).insert(
            entries.last().0@,
            (entries.last().1, entries.last().2),
        )
    }
}

/// A name maps to exactly the latest entry for it.
proof fn lemma_table_last_match(entries: TableEntries, k: int)
    requires
        0 <= k < entries.len(),
        forall|j: int| k < j < entries.len() ==> (#[trigger] entries[j]).0@ != entries[k].0@,
    ensures
        s_table(entries).contains_key(entries[k].0@),
        s_table(entries)[entries[k].0@] == (entries[k].1, entries[k].2),
    decreases entries.len(),
{
    if k == entries.len() - 1 {
    } else {
        lemma_table_last_match(entries.drop_last(), k);
    }
}

/// A name with no entry is absent from the map.
proof fn lemma_table_no_match(entries: TableEntries, name: NameModel)
    requires
        forall|j: int| 0 <= j < entries.len() ==> (#[trigger] entries[j]).0@ != name,
    ensures
        !s_table(entries).contains_key(name),
    decreases entries.len(),
{
    if entries.len() > 0 {
        lemma_table_no_match(entries.drop_last(), name);
    }
}

/// Finds the latest resolution for a name in one namespace table.
fn table_get(entries: &Vec<(Name, ItemDefinitionId, Visibility)>, name: &Name) -> (r: Option<
    (ItemDefinitionId, Visibility),
>)
    ensures
        r == (if s_table(entries@).contains_key(name@) {
            Some(s_table(entries@)[name@])
        } else {
            None::<(ItemDefinitionId, Visibility)>
        }),
{
    let mut i = entries.len();
    while i > 0
        invariant
            i <= entries@.len(),
            forall|j: int| i <= j < entries@.len() ==> (#[trigger] entries@[j]).0@ != name@,
        decreases i,
    {
        i = i - 1;
        if entries[i].0 == *name {
            proof {
                lemma_table_last_match(entries@, i as int);
            }
            return Some((entries[i].1, entries[i].2));
        }
    }
    proof {
        lemma_table_no_match(entries@, name@);
    }
    None
}

/// Holds all items that are visible from an item as well as by which
/// name and under which visibility they are accessible.
pub struct ItemScope {
    /// All types visible in this scope.
    types: Vec<(Name, ItemDefinitionId, Visibility)>,
    /// All values visible in this scope.
    values: Vec<(Name, ItemDefinitionId, Visibility)>,
    /// All items that are defined in this scope.
    defs: Vec<ItemDefinitionId>,
}

impl ItemScope {
    /// The type-namespace table as a map.
    pub closed spec fn spec_types(self) -> Map<NameModel, (ItemDefinitionId, Visibility)> {
        s_table(self.types@)
    }

    /// The value-namespace table as a map.
    pub closed spec fn spec_values(self) -> Map<NameModel, (ItemDefinitionId, Visibility)> {
        s_table(self.values@)
    }

    /// The items declared directly in this scope, in declaration order.
    pub closed spec fn spec_defs(self) -> Seq<ItemDefinitionId> {
        self.defs@
    }

    /// An empty scope.
    pub fn new() -> (scope: ItemScope)
        ensures
            scope.spec_types() =~= Map::<NameModel, (ItemDefinitionId, Visibility)>::empty(),
            scope.spec_values() =~= Map::<NameModel, (ItemDefinitionId, Visibility)>::empty(),
            scope.spec_defs() =~= Seq::<ItemDefinitionId>::empty(),
    {
        ItemScope { types: Vec::new(), values: Vec::new(), defs: Vec::new() }
    }

    /// The items defined in this scope, in declaration order. This order
    /// is the only order the scope exposes; name lookup goes through
    /// `get`.
    pub fn declarations(&self) -> (defs: &Vec<ItemDefinitionId>)
        ensures
            defs@ == self.spec_defs(),
    {
        &self.defs
    }

    /// Adds an item definition to the list of definitions.
    pub fn add_definition(&mut self, def: ItemDefinitionId)
        ensures
            final(self).spec_defs() =~= old(self).spec_defs().push(def),
            final(self).spec_types() == old(self).spec_types(),
            final(self).spec_values() == old(self).spec_values(),
    {
        self.defs.push(def)
    }

    /// Adds a named item resolution into the scope. For each populated
    /// namespace slot the new resolution overwrites any earlier one for
    /// the same name: the last writer wins.
    pub fn add_resolution(&mut self, name: Name, def: PerNs<(ItemDefinitionId, Visibility)>)
        ensures
            final(self).spec_types() == (match def.types {
                Some(t) => old(self).spec_types().insert(name@, t),
                None => old(self).spec_types(),
            }),
            final(self).spec_values() == (match def.values {
                Some(v) => old(self).spec_values().insert(name@, v),
                None => old(self).spec_values(),
            }),
            final(self).spec_defs() == old(self).spec_defs(),
    {
        if let Some((t, t_vis)) = def.types {
            self.types.push((name.clone(), t, t_vis));
            proof {
                assert(self.types@.drop_last() =~= old(self).types@);
            }
        }
        if let Some((v, v_vis)) = def.values {
            self.values.push((name, v, v_vis));
            proof {
                assert(self.values@.drop_last() =~= old(self).values@);
            }
        }
    }

    /// Gets a name from the current module scope: its resolution in each
    /// namespace, either of which may be empty.
    pub fn get(&self, name: &Name) -> (r: PerNs<(ItemDefinitionId, Visibility)>)
        ensures
            r.types == (if self.spec_types().contains_key(name@) {
                Some(self.spec_types()[name@])
            } else {
                None::<(ItemDefinitionId, Visibility)>
            }),
            r.values == (if self.spec_values().contains_key(name@) {
                Some(self.spec_values()[name@])
            } else {
                None::<(ItemDefinitionId, Visibility)>
            }),
    {
        PerNs { types: table_get(&self.types, name), values: table_get(&self.values, name) }
    }
}

/// The entries of the built-in scope: every primitive type name, mapped
/// to that primitive as a public type-namespace resolution, and nothing
/// else.
pub open spec fn s_builtin_entry(text: Seq<char>, p: PrimitiveType) -> (
    NameModel,
    PerNs<(ItemDefinitionId, Visibility)>,
) {
    (
        NameModel::Text(text),
        PerNs {
            types: Some((ItemDefinitionId::PrimitiveType(p), Visibility::Public)),
            values: None,
        },
    )
}

/// The contents of the built-in scope, in a fixed order.
pub open spec fn s_builtin_scope() -> Seq<(NameModel, PerNs<(ItemDefinitionId, Visibility)>)> {
    seq![
        s_builtin_entry("bool"@, PrimitiveType::Bool),
        s_builtin_entry("i8"@, PrimitiveType::I8),
        s_builtin_entry("i16"@, PrimitiveType::I16),
        s_builtin_entry("i32"@, PrimitiveType::I32),
        s_builtin_entry("i64"@, PrimitiveType::I64),
        s_builtin_entry("i128"@, PrimitiveType::I128),
        s_builtin_entry("isize"@, PrimitiveType::ISize),
        s_builtin_entry("u8"@, PrimitiveType::U8),
        s_builtin_entry("u16"@, PrimitiveType::U16),
        s_builtin_entry("u32"@, PrimitiveType::U32),
        s_builtin_entry("u64"@, PrimitiveType::U64),
        s_builtin_entry("u128"@, PrimitiveType::U128),
        s_builtin_entry("usize"@, PrimitiveType::USize),
        s_builtin_entry("f32"@, PrimitiveType::Float32),
        s_builtin_entry("f64"@, PrimitiveType::Float64),
    ]
}

/// Constructs the built-in scope: every primitive type name resolves, in
/// the type namespace only, to its primitive with public visibility.
/// This is the pure construction; making it process-wide, lazily
/// initialized, compute-once state is the host's concern.
pub fn builtin_scope() -> (scope: Vec<(Name, PerNs<(ItemDefinitionId, Visibility)>)>)
    ensures
        scope@.map_values(|p: (Name, PerNs<(ItemDefinitionId, Visibility)>)| (p.0@, p.1))
            =~= s_builtin_scope(),
{
    let mut scope: Vec<(Name, PerNs<(ItemDefinitionId, Visibility)>)> = Vec::new();
    scope.push((
        Name::new(String::from_str("bool")),
        PerNs::types((ItemDefinitionId::PrimitiveType(PrimitiveType::Bool), Visibility::Public)),
    ));
    scope.push((
        Name::new(String::from_str("i8")),
        PerNs::types((ItemDefinitionId::PrimitiveType(PrimitiveType::I8), Visibility::Public)),
    ));
    scope.push((
        Name::new(String::from_str("i16")),
        PerNs::types((ItemDefinitionId::PrimitiveType(PrimitiveType::I16), Visibility::Public)),
    ));
    scope.push((
        Name::new(String::from_str("i32")),
        PerNs::types((ItemDefinitionId::PrimitiveType(PrimitiveType::I32), Visibility::Public)),
    ));
    scope.push((
        Name::new(String::from_str("i64")),
        PerNs::types((ItemDefinitionId::PrimitiveType(PrimitiveType::I64), Visibility::Public)),
    ));
    scope.push((
        Name::new(String::from_str("i128")),
        PerNs::types((ItemDefinitionId::PrimitiveType(PrimitiveType::I128), Visibility::Public)),
    ));
    scope.push((
        Name::new(String::from_str("isize")),
        PerNs::types((ItemDefinitionId::PrimitiveType(PrimitiveType::ISize), Visibility::Public)),
    ));
    scope.push((
        Name::new(String::from_str("u8")),
        PerNs::types((ItemDefinitionId::PrimitiveType(PrimitiveType::U8), Visibility::Public)),
    ));
    scope.push((
        Name::new(String::from_str("u16")),
        PerNs::types((ItemDefinitionId::PrimitiveType(PrimitiveType::U16), Visibility::Public)),
    ));
    scope.push((
        Name::new(String::from_str("u32")),
        PerNs::types((ItemDefinitionId::PrimitiveType(PrimitiveType::U32), Visibility::Public)),
    ));
    scope.push((
        Name::new(String::from_str("u64")),
        PerNs::types((ItemDefinitionId::PrimitiveType(PrimitiveType::U64), Visibility::Public)),
    ));
    scope.push((
        Name::new(String::from_str("u128")),
        PerNs::types((ItemDefinitionId::PrimitiveType(PrimitiveType::U128), Visibility::Public)),
    ));
    scope.push((
        Name::new(String::from_str("usize")),
        PerNs::types((ItemDefinitionId::PrimitiveType(PrimitiveType::USize), Visibility::Public)),
    ));
    scope.push((
        Name::new(String::from_str("f32")),
        PerNs::types((
            ItemDefinitionId::PrimitiveType(PrimitiveType::Float32),
            Visibility::Public,
        )),
    ));
    scope.push((
        Name::new(String::from_str("f64")),
        PerNs::types((
            ItemDefinitionId::PrimitiveType(PrimitiveType::Float64),
            Visibility::Public,
        )),
    ));
    scope
}

/// What a name means in the built-in scope (or in any list of per-name
/// resolutions with distinct names): the resolution of the first entry
/// carrying the name, or the empty resolution.
pub open spec fn s_perns_lookup(
    entries: Seq<(NameModel, PerNs<(ItemDefinitionId, Visibility)>)>,
    name: NameModel,
) -> PerNs<(ItemDefinitionId, Visibility)>
    decreases entries.len(),
{
    if entries.len() == 0 {
        PerNs { types: None, values: None }
    } else if entries[0].0 == name {
        entries[0].1
    } else {
        s_perns_lookup(entries.drop_first(), name)
    }
}

/// Looks a name up in a per-name resolution list, front to back.
pub fn perns_list_get(
    entries: &Vec<(Name, PerNs<(ItemDefinitionId, Visibility)>)>,
    name: &Name,
) -> (r: PerNs<(ItemDefinitionId, Visibility)>)
    ensures
        r == s_perns_lookup(
            entries@.map_values(
                |p: (Name, PerNs<(ItemDefinitionId, Visibility)>)| (p.0@, p.1),
            ),
            name@,
        ),
{
    let ghost em = entries@.map_values(
        |p: (Name, PerNs<(ItemDefinitionId, Visibility)>)| (p.0@, p.1),
    );
    proof {
        assert(em.skip(0) =~= em);
    }
    let n = entries.len();
    for i in 0..n
        invariant
            n == entries.len(),
            em == entries@.map_values(
                |p: (Name, PerNs<(ItemDefinitionId, Visibility)>)| (p.0@, p.1),
            ),
            s_perns_lookup(em, name@) == s_perns_lookup(em.skip(i as int), name@),
    {
        proof {
            assert(em.skip(i as int)[0] == em[i as int]);
            assert(em.skip(i as int).drop_first() =~= em.skip((i + 1) as int));
        }
        if entries[i].0 == *name {
            return entries[i].1;
        }
    }
    proof {
        assert(em.skip(n as int) =~= Seq::<
            (NameModel, PerNs<(ItemDefinitionId, Visibility)>),
        >::empty());
    }
    PerNs::none()
}

} // verus!
