//! The code model: handles over interned definition identities.
//!
//! A handle owns nothing but an identity; everything it answers is
//! re-derived from the database through identity-keyed queries.

use vstd::prelude::*;

use crate::body::BodySourceMap;
use crate::db::{DefDatabase, FunctionLoc, StructLoc, TypeAliasLoc};
use crate::ids::{FileId, FunctionId, LocalStructFieldId, ModuleId, StructId, TypeAliasId};
use crate::item_tree::{FieldModel, StructDefKind, StructModel};
use crate::name::{Name, NameModel};
use crate::type_ref::TypeRef;

verus! {

/// A module of the program.
#[derive(Clone, Copy, PartialEq, Eq, Structural, Hash, Debug)]
pub struct Module {
    pub id: ModuleId,
}

/// A function definition.
#[derive(Clone, Copy, PartialEq, Eq, Structural, Hash, Debug)]
pub struct Function {
    pub id: FunctionId,
}

/// A struct definition.
#[derive(Clone, Copy, PartialEq, Eq, Structural, Hash, Debug)]
pub struct Struct {
    pub id: StructId,
}

/// A type-alias definition.
#[derive(Clone, Copy, PartialEq, Eq, Structural, Hash, Debug)]
pub struct TypeAlias {
    pub id: TypeAliasId,
}

/// One field of a struct definition: the struct handle plus the field's
/// position in the struct's lowered field list.
#[derive(Clone, Copy, PartialEq, Eq, Structural, Hash, Debug)]
pub struct StructField {
    pub parent: Struct,
    pub id: LocalStructFieldId,
}

/// The data of one field: its (declared or synthesized) name and its
/// lowered type.
#[derive(PartialEq, Eq, Debug)]
pub struct StructFieldData {
    pub name: Name,
    pub type_ref: TypeRef,
}

impl View for StructFieldData {
    type V = FieldModel;

    open spec fn view(&self) -> FieldModel {
        FieldModel { name: self.name@, type_ref: self.type_ref@ }
    }
}

/// The lowered data of one struct: its name, its fields in lowering
/// order, and its declared shape.
#[derive(PartialEq, Eq, Debug)]
pub struct StructData {
    pub name: Name,
    pub fields: Vec<StructFieldData>,
    pub kind: StructDefKind,
}

impl Function {
    /// Whether the handle points into the database.
    pub open spec fn wf(self, db: DefDatabase) -> bool {
        self.id.0 < db.function_locs@.len()
    }

    /// Where the function definition lives.
    pub open spec fn spec_loc(self, db: DefDatabase) -> FunctionLoc {
        db.function_locs@[self.id.0 as int]
    }

    /// The module the function is defined in.
    pub fn module(self, db: &DefDatabase) -> (m: Module)
        requires
            self.wf(*db),
        ensures
            m.id == self.spec_loc(*db).module,
    {
        Module { id: db.function_locs[self.id.0].module }
    }

    /// The source map of the function's lowered body.
    pub fn body_source_map<'a>(self, db: &'a DefDatabase) -> (r: &'a BodySourceMap)
        requires
            self.id.0 < db.body_source_maps@.len(),
        ensures
            *r == db.body_source_maps@[self.id.0 as int],
    {
        &db.body_source_maps[self.id.0]
    }
}

impl TypeAlias {
    /// Whether the handle points into the database.
    pub open spec fn wf(self, db: DefDatabase) -> bool {
        self.id.0 < db.type_alias_locs@.len()
    }

    /// Where the type-alias definition lives.
    pub open spec fn spec_loc(self, db: DefDatabase) -> TypeAliasLoc {
        db.type_alias_locs@[self.id.0 as int]
    }

    /// The module the type alias is defined in.
    pub fn module(self, db: &DefDatabase) -> (m: Module)
        requires
            self.wf(*db),
        ensures
            m.id == self.spec_loc(*db).module,
    {
        Module { id: db.type_alias_locs[self.id.0].module }
    }
}

/// The first field of the list carrying the given name, if any.
pub open spec fn s_field_with_name(fields: Seq<FieldModel>, name: NameModel) -> Option<int>
    decreases fields.len(),
{
    if fields.len() == 0 {
        None
    } else if fields[0].name == name {
        Some(0)
    } else {
        match s_field_with_name(fields.drop_first(), name) {
            Some(k) => Some(k + 1),
            None => None,
        }
    }
}

impl Struct {
    /// Whether the handle points into the database and its record into
    /// the file's item tree.
    pub open spec fn wf(self, db: DefDatabase) -> bool {
        &&& self.id.0 < db.struct_locs@.len()
        &&& self.spec_loc(db).file.0 < db.files@.len()
        &&& self.spec_loc(db).value.0 < db.spec_file_tree(
            self.spec_loc(db).file,
        ).data.structs.len()
    }

    /// Where the struct definition lives.
    pub open spec fn spec_loc(self, db: DefDatabase) -> StructLoc {
        db.struct_locs@[self.id.0 as int]
    }

    /// The struct's record in its file's item tree.
    pub open spec fn spec_record(self, db: DefDatabase) -> StructModel {
        db.spec_file_tree(self.spec_loc(db).file).data.structs[self.spec_loc(db).value.0 as int]
    }

    /// The struct's lowered fields, in lowering order: the slice of the
    /// file's field arena its range denotes.
    pub open spec fn spec_fields(self, db: DefDatabase) -> Seq<FieldModel> {
        let tree = db.spec_file_tree(self.spec_loc(db).file);
        match self.spec_record(db).fields.spec_range() {
            Some(r) => tree.data.fields.subrange(r.start as int, r.end as int),
            None => Seq::empty(),
        }
    }

    /// The module the struct is defined in.
    pub fn module(self, db: &DefDatabase) -> (m: Module)
        requires
            self.id.0 < db.struct_locs@.len(),
        ensures
            m.id == self.spec_loc(*db).module,
    {
        Module { id: db.struct_locs[self.id.0].module }
    }

    /// The struct's lowered data: name, fields and shape, re-derived
    /// from the file's item tree.
    pub fn data(self, db: &DefDatabase) -> (d: StructData)
        requires
            self.wf(*db),
        ensures
            d.name@ == self.spec_record(*db).name,
            d.kind == self.spec_record(*db).kind,
            d.fields@.map_values(|f: StructFieldData| f@) =~= self.spec_fields(*db),
    {
        let loc = db.struct_locs[self.id.0];
        let tree = db.item_tree(loc.file);
        let record = tree.strukt(loc.value);
        let name = record.name.clone();
        let kind = record.kind;
        let mut fields: Vec<StructFieldData> = Vec::new();
        let (start, end) = match &record.fields {
            crate::item_tree::Fields::Record(r) => (r.start, r.end),
            crate::item_tree::Fields::Tuple(r) => (r.start, r.end),
            crate::item_tree::Fields::Unit => (0, 0),
        };
        let ghost all_fields = tree@.data.fields;
        proof {
            assert(tree@.data.structs[loc.value.0 as int].fields.spec_range() matches Some(r)
                ==> r.start <= r.end <= all_fields.len());
        }
        for k in start..end
            invariant
                start <= k <= end,
                end <= all_fields.len(),
                all_fields == tree@.data.fields,
                fields@.map_values(|f: StructFieldData| f@) =~= all_fields.subrange(
                    start as int,
                    k as int,
                ),
        {
            let f = tree.field(k);
            let fd = StructFieldData { name: f.name.clone(), type_ref: f.type_ref.clone() };
            let ghost prev = fields@.map_values(|f: StructFieldData| f@);
            let ghost fdm = fd@;
            fields.push(fd);
            proof {
                assert(fdm == all_fields[k as int]);
                assert(fields@.map_values(|f: StructFieldData| f@) =~= prev.push(fdm));
                assert(fields@.map_values(|f: StructFieldData| f@) =~= all_fields.subrange(
                    start as int,
                    (k + 1) as int,
                ));
            }
        }
        StructData { name, fields, kind }
    }

    /// The struct's fields as handles, in lowering order.
    pub fn fields(self, db: &DefDatabase) -> (r: Vec<StructField>)
        requires
            self.wf(*db),
        ensures
            r@.len() == self.spec_fields(*db).len(),
            forall|k: int|
                0 <= k < r@.len() ==> r@[k] == (StructField {
                    parent: self,
                    id: LocalStructFieldId(k as usize),
                }),
    {
        let data = self.data(db);
        let n = data.fields.len();
        let mut out: Vec<StructField> = Vec::new();
        for k in 0..n
            invariant
                n == self.spec_fields(*db).len(),
                out@.len() == k,
                forall|j: int|
                    0 <= j < out@.len() ==> out@[j] == (StructField {
                        parent: self,
                        id: LocalStructFieldId(j as usize),
                    }),
        {
            out.push(StructField { parent: self, id: LocalStructFieldId(k) });
        }
        out
    }

    /// The struct's field with the given name, if it has one: the
    /// earliest in lowering order.
    pub fn field(self, db: &DefDatabase, name: &Name) -> (r: Option<StructField>)
        requires
            self.wf(*db),
        ensures
            r == (match s_field_with_name(self.spec_fields(*db), name@) {
                Some(k) => Some(StructField { parent: self, id: LocalStructFieldId(k as usize) }),
                None => None::<StructField>,
            }),
    {
        let data = self.data(db);
        let ghost fm = self.spec_fields(*db);
        proof {
            assert(fm.skip(0) =~= fm);
        }
        let n = data.fields.len();
        for k in 0..n
            invariant
                n == data.fields@.len(),
                fm == self.spec_fields(*db),
                data.fields@.map_values(|f: StructFieldData| f@) =~= fm,
                s_field_with_name(fm, name@) == (match s_field_with_name(
                    fm.skip(k as int),
                    name@,
                ) {
                    Some(j) => Some(j + k),
                    None => None::<int>,
                }),
        {
            proof {
                assert(fm.skip(k as int)[0] == fm[k as int]);
                assert(fm.skip(k as int).drop_first() =~= fm.skip((k + 1) as int));
            }
            if data.fields[k].name == *name {
                return Some(StructField { parent: self, id: LocalStructFieldId(k) });
            }
        }
        proof {
            assert(fm.skip(n as int) =~= Seq::<FieldModel>::empty());
        }
        None
    }
}

/// The definitions that have a body.
#[derive(Clone, Copy, PartialEq, Eq, Structural, Hash, Debug)]
pub enum DefWithBody {
    Function(Function),
}

impl DefWithBody {
    /// The module the definition lives in.
    pub fn module(self, db: &DefDatabase) -> (m: Module)
        requires
            (match self {
                DefWithBody::Function(f) => f.wf(*db),
            }),
        ensures
            (match self {
                DefWithBody::Function(f) => m.id == f.spec_loc(*db).module,
            }),
    {
        match self {
            DefWithBody::Function(f) => f.module(db),
        }
    }

    /// The source map of the definition's lowered body.
    pub fn body_source_map<'a>(self, db: &'a DefDatabase) -> (r: &'a BodySourceMap)
        requires
            (match self {
                DefWithBody::Function(f) => f.id.0 < db.body_source_maps@.len(),
            }),
        ensures
            (match self {
                DefWithBody::Function(f) => *r == db.body_source_maps@[f.id.0 as int],
            }),
    {
        match self {
            DefWithBody::Function(f) => f.body_source_map(db),
        }
    }
}

/// Definitions that have a struct.
#[derive(Clone, Copy, PartialEq, Eq, Structural, Hash, Debug)]
pub enum DefWithStruct {
    Struct(Struct),
}

impl DefWithStruct {
    /// The module the definition lives in.
    pub fn module(self, db: &DefDatabase) -> (m: Module)
        requires
            (match self {
                DefWithStruct::Struct(s) => s.id.0 < db.struct_locs@.len(),
            }),
        ensures
            (match self {
                DefWithStruct::Struct(s) => m.id == s.spec_loc(*db).module,
            }),
    {
        match self {
            DefWithStruct::Struct(s) => s.module(db),
        }
    }

    /// The fields of the definition's struct.
    pub fn fields(self, db: &DefDatabase) -> (r: Vec<StructField>)
        requires
            (match self {
                DefWithStruct::Struct(s) => s.wf(*db),
            }),
        ensures
            (match self {
                DefWithStruct::Struct(s) => r@.len() == s.spec_fields(*db).len() && forall|k: int|
                    0 <= k < r@.len() ==> r@[k] == (StructField {
                        parent: s,
                        id: LocalStructFieldId(k as usize),
                    }),
            }),
    {
        match self {
            DefWithStruct::Struct(s) => s.fields(db),
        }
    }

    /// The field with the given name, if the struct has one.
    pub fn field(self, db: &DefDatabase, name: &Name) -> (r: Option<StructField>)
        requires
            (match self {
                DefWithStruct::Struct(s) => s.wf(*db),
            }),
        ensures
            (match self {
                DefWithStruct::Struct(s) => r == (match s_field_with_name(
                    s.spec_fields(*db),
                    name@,
                ) {
                    Some(k) => Some(StructField {
                        parent: s,
                        id: LocalStructFieldId(k as usize),
                    }),
                    None => None::<StructField>,
                }),
            }),
    {
        match self {
            DefWithStruct::Struct(s) => s.field(db, name),
        }
    }

    /// The lowered data of the definition's struct.
    pub fn data(self, db: &DefDatabase) -> (d: StructData)
        requires
            (match self {
                DefWithStruct::Struct(s) => s.wf(*db),
            }),
        ensures
            (match self {
                DefWithStruct::Struct(s) => d.name@ == s.spec_record(*db).name && d.kind
                    == s.spec_record(*db).kind && d.fields@.map_values(|f: StructFieldData| f@)
                    =~= s.spec_fields(*db),
            }),
    {
        match self {
            DefWithStruct::Struct(s) => s.data(db),
        }
    }
}

} // verus!
