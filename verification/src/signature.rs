//! Signatures: the argument types that a function accepts.

use crate::datatype::{DataType, SpecDataType};
use vstd::prelude::*;

verus! {

/// The argument types that a function accepts.
#[derive(Debug, PartialEq)]
pub enum Signature {
    /// Any number of arguments, all of one type, which is one of the listed types.
    Variadic(Vec<DataType>),
    /// Any number of arguments, all of the type of the first one.
    VariadicEqual,
    /// The given number of arguments, all of one type, which is one of the listed types.
    Uniform(usize, Vec<DataType>),
    /// Exactly the listed argument types.
    Exact(Vec<DataType>),
    /// The given number of arguments, of any types.
    Any(usize),
}

/// The model of a `Signature`.
pub enum SpecSignature {
    Variadic(Seq<SpecDataType>),
    VariadicEqual,
    Uniform(usize, Seq<SpecDataType>),
    Exact(Seq<SpecDataType>),
    Any(usize),
}

/// The model of a sequence of data types.
pub open spec fn spec_types(v: Seq<DataType>) -> Seq<SpecDataType> {
    v.map_values(|t: DataType| t@)
}

impl View for Signature {
    type V = SpecSignature;

    open spec fn view(&self) -> SpecSignature {
        match *self {
            Signature::Variadic(v) => SpecSignature::Variadic(spec_types(v@)),
            Signature::VariadicEqual => SpecSignature::VariadicEqual,
            Signature::Uniform(n, v) => SpecSignature::Uniform(n, spec_types(v@)),
            Signature::Exact(v) => SpecSignature::Exact(spec_types(v@)),
            Signature::Any(n) => SpecSignature::Any(n),
        }
    }
}

/// A copy of a slice of data types.
pub fn clone_types(v: &[DataType]) -> (r: Vec<DataType>)
    ensures
        spec_types(r@) == spec_types(v@),
{
    let mut r: Vec<DataType> = Vec::new();
    let mut i: usize = 0;
    while i < v.len()
        invariant
            0 <= i <= v.len(),
            r@.len() == i,
            forall|j: int| 0 <= j < i ==> (#[trigger] r@[j])@ == v@[j]@,
        decreases v.len() - i,
    {
        r.push(v[i].clone());
        i = i + 1;
    }
    assert(spec_types(r@) =~= spec_types(v@));
    r
}

/// Whether two slices of data types hold the same types in the same order.
pub fn types_eq(a: &[DataType], b: &[DataType]) -> (r: bool)
    ensures
        r == (spec_types(a@) == spec_types(b@)),
{
    if a.len() != b.len() {
        assert(spec_types(a@).len() != spec_types(b@).len());
        return false;
    }
    let mut i: usize = 0;
    while i < a.len()
        invariant
            0 <= i <= a.len(),
            a.len() == b.len(),
            forall|j: int| 0 <= j < i ==> a@[j]@ == b@[j]@,
        decreases a.len() - i,
    {
        if !(a[i] == b[i]) {
            assert(spec_types(a@)[i as int] != spec_types(b@)[i as int]);
            return false;
        }
        i = i + 1;
    }
    assert(spec_types(a@) =~= spec_types(b@));
    true
}

impl Clone for Signature {
    fn clone(&self) -> (r: Self)
        ensures
            r@ == self@,
    {
        match self {
            Signature::Variadic(v) => Signature::Variadic(clone_types(v.as_slice())),
            Signature::VariadicEqual => Signature::VariadicEqual,
            Signature::Uniform(n, v) => Signature::Uniform(*n, clone_types(v.as_slice())),
            Signature::Exact(v) => Signature::Exact(clone_types(v.as_slice())),
            Signature::Any(n) => Signature::Any(*n),
        }
    }
}

} // verus!
