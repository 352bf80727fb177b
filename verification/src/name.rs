//! Declared and synthesized names.
//!
//! A name is either the identifier text a declaration carries, or the
//! synthesized positional name of a tuple-struct field (the field's index).

use vstd::prelude::*;

verus! {

/// Mathematical form of a name, used by every contract that compares names.
pub enum NameModel {
    Text(Seq<char>),
    TupleField(int),
}

/// A declared identifier or a synthesized tuple-field name.
#[derive(Eq, Hash, Debug)]
pub enum Name {
    Text(String),
    TupleField(usize),
}

impl View for Name {
    type V = NameModel;

    open spec fn view(&self) -> NameModel {
        match self {
            Name::Text(s) => NameModel::Text(s@),
            Name::TupleField(i) => NameModel::TupleField(*i as int),
        }
    }
}

impl Name {
    /// Wraps identifier text as a name.
    pub fn new(text: String) -> (r: Name)
        ensures
            r@ == NameModel::Text(text@),
    {
        Name::Text(text)
    }

    /// The synthesized positional name of the tuple field at `idx`.
    pub fn new_tuple_field(idx: usize) -> (r: Name)
        ensures
            r@ == NameModel::TupleField(idx as int),
    {
        Name::TupleField(idx)
    }
}

impl Clone for Name {
    /// A cloned name is the same name.
    fn clone(&self) -> (res: Self)
        ensures
            res == *self,
    {
        match self {
            Name::Text(s) => Name::Text(s.clone()),
            Name::TupleField(i) => Name::TupleField(*i),
        }
    }
}

impl PartialEq for Name {
    /// Two names are equal exactly when their mathematical forms are.
    fn eq(&self, other: &Name) -> (r: bool) {
        match (self, other) {
            (Name::Text(a), Name::Text(b)) => *a == *b,
            (Name::TupleField(a), Name::TupleField(b)) => *a == *b,
            _ => false,
        }
    }
}

impl vstd::std_specs::cmp::PartialEqSpecImpl for Name {
    open spec fn obeys_eq_spec() -> bool {
        true
    }

    open spec fn eq_spec(&self, other: &Name) -> bool {
        self@ == other@
    }
}

} // verus!
