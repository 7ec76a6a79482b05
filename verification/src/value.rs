//! JSON-like values that cross the UI/native boundary: the raw arguments of
//! an invocation and the payload of a successful result. Every command of
//! this application takes and returns either a single primitive or one flat
//! object of named primitive fields, so that is the shape modelled here.

use vstd::prelude::*;

verus! {

/// A primitive boundary value: what one field of a command's arguments or
/// result payload may hold.
#[derive(PartialEq, Eq, Debug, Clone)]
pub enum Prim {
    Null,
    Bool(bool),
    Int(i64),
    UInt(u64),
    Str(String),
}

/// The mathematical model of a primitive value: both machine integer forms
/// are one unbounded number, as they are on the wire.
pub enum PrimModel {
    Null,
    Bool(bool),
    Num(int),
    Str(Seq<char>),
}

impl View for Prim {
    type V = PrimModel;

    open spec fn view(&self) -> PrimModel {
        match self {
            Prim::Null => PrimModel::Null,
            Prim::Bool(b) => PrimModel::Bool(*b),
            Prim::Int(n) => PrimModel::Num(*n as int),
            Prim::UInt(n) => PrimModel::Num(*n as int),
            Prim::Str(s) => PrimModel::Str(s@),
        }
    }
}

/// A JSON-like boundary value: a single primitive, or a flat object of
/// named primitive fields in their written order.
#[derive(PartialEq, Eq, Debug, Clone)]
pub enum Value {
    Prim(Prim),
    Obj(Vec<(String, Prim)>),
}

/// The mathematical model of a boundary value.
pub enum ValueModel {
    Prim(PrimModel),
    Obj(Seq<(Seq<char>, PrimModel)>),
}

/// The model of an object's field list.
pub open spec fn fields_model(fields: Seq<(String, Prim)>) -> Seq<(Seq<char>, PrimModel)> {
    Seq::new(fields.len(), |i: int| (fields[i].0@, fields[i].1@))
}

impl View for Value {
    type V = ValueModel;

    open spec fn view(&self) -> ValueModel {
        match self {
            Value::Prim(p) => ValueModel::Prim(p@),
            Value::Obj(fields) => ValueModel::Obj(fields_model(fields@)),
        }
    }
}

/// The first field with the given name, if any; later duplicates are
/// shadowed by the first occurrence.
pub open spec fn field_model(fields: Seq<(Seq<char>, PrimModel)>, name: Seq<char>) -> Option<
    PrimModel,
>
    decreases fields.len(),
{
    if fields.len() == 0 {
        None
    } else if fields[0].0 == name {
        Some(fields[0].1)
    } else {
        field_model(fields.drop_first(), name)
    }
}

/// String equality over the views of two string slices.
pub fn str_eq(a: &str, b: &str) -> (r: bool)
    ensures
        r == (a@ == b@),
{
    let owned_a = a.to_owned();
    let owned_b = b.to_owned();
    owned_a == owned_b
}

/// Look up the first field with the given name in an object's field list.
pub fn get_field<'a>(fields: &'a Vec<(String, Prim)>, name: &str) -> (r: Option<&'a Prim>)
    ensures
        match r {
            Some(p) => field_model(fields_model(fields@), name@) == Some(p@),
            None => field_model(fields_model(fields@), name@) is None,
        },
{
    let ghost all = fields_model(fields@);
    proof {
        assert(all.skip(0) =~= all);
    }
    let mut i: usize = 0;
    while i < fields.len()
        invariant
            0 <= i <= fields.len(),
            all == fields_model(fields@),
            field_model(all, name@) == field_model(all.skip(i as int), name@),
        decreases fields.len() - i,
    {
        proof {
            assert(all.skip(i as int)[0] == all[i as int]);
            assert(all.skip(i as int).drop_first() =~= all.skip(i as int + 1));
        }
        if str_eq(fields[i].0.as_str(), name) {
            return Some(&fields[i].1);
        }
        i += 1;
    }
    proof {
        assert(all.skip(fields.len() as int).len() == 0);
    }
    None
}

} // verus!
