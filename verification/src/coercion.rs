//! Coercion of argument types to the types that a signature accepts.
//!
//! An argument type can be coerced to another type when every value of it can
//! be represented in the other type: a narrower integer to a wider one, any
//! integer or `Float32` to a float, and anything to `Utf8`.

use crate::datatype::{DataType, SpecDataType};
use crate::error::{FunctionError, SpecFunctionError};
use crate::signature::{clone_types, spec_types, types_eq, Signature, SpecSignature};
use vstd::prelude::*;

verus! {

/// Whether a value of type `type_from` can be coerced to `type_into`.
pub open spec fn spec_can_coerce_from(type_into: SpecDataType, type_from: SpecDataType) -> bool {
    match type_into {
        SpecDataType::Int8 => type_from is Int8,
        SpecDataType::Int16 => type_from is Int8 || type_from is Int16 || type_from is UInt8,
        SpecDataType::Int32 => type_from is Int8 || type_from is Int16 || type_from is Int32
            || type_from is UInt8 || type_from is UInt16,
        SpecDataType::Int64 => type_from is Int8 || type_from is Int16 || type_from is Int32
            || type_from is Int64 || type_from is UInt8 || type_from is UInt16
            || type_from is UInt32,
        SpecDataType::UInt8 => type_from is UInt8,
        SpecDataType::UInt16 => type_from is UInt8 || type_from is UInt16,
        SpecDataType::UInt32 => type_from is UInt8 || type_from is UInt16 || type_from is UInt32,
        SpecDataType::UInt64 => type_from is UInt8 || type_from is UInt16 || type_from is UInt32
            || type_from is UInt64,
        SpecDataType::Float32 => type_from is Int8 || type_from is Int16 || type_from is Int32
            || type_from is Int64 || type_from is UInt8 || type_from is UInt16
            || type_from is UInt32 || type_from is UInt64 || type_from is Float32,
        SpecDataType::Float64 => type_from is Int8 || type_from is Int16 || type_from is Int32
            || type_from is Int64 || type_from is UInt8 || type_from is UInt16
            || type_from is UInt32 || type_from is UInt64 || type_from is Float32
            || type_from is Float64,
        SpecDataType::Utf8 => true,
        _ => false,
    }
}

/// Whether a value of type `type_from` can be coerced to `type_into`.
pub fn can_coerce_from(type_into: &DataType, type_from: &DataType) -> (r: bool)
    ensures
        r == spec_can_coerce_from(type_into@, type_from@),
{
    match type_into {
        DataType::Int8 => matches!(type_from, DataType::Int8),
        DataType::Int16 => matches!(type_from, DataType::Int8 | DataType::Int16 | DataType::UInt8),
        DataType::Int32 => matches!(
            type_from,
            DataType::Int8 | DataType::Int16 | DataType::Int32 | DataType::UInt8 | DataType::UInt16
        ),
        DataType::Int64 => matches!(
            type_from,
            DataType::Int8 | DataType::Int16 | DataType::Int32 | DataType::Int64 | DataType::UInt8
                | DataType::UInt16 | DataType::UInt32
        ),
        DataType::UInt8 => matches!(type_from, DataType::UInt8),
        DataType::UInt16 => matches!(type_from, DataType::UInt8 | DataType::UInt16),
        DataType::UInt32 => matches!(
            type_from,
            DataType::UInt8 | DataType::UInt16 | DataType::UInt32
        ),
        DataType::UInt64 => matches!(
            type_from,
            DataType::UInt8 | DataType::UInt16 | DataType::UInt32 | DataType::UInt64
        ),
        DataType::Float32 => matches!(
            type_from,
            DataType::Int8 | DataType::Int16 | DataType::Int32 | DataType::Int64 | DataType::UInt8
                | DataType::UInt16 | DataType::UInt32 | DataType::UInt64 | DataType::Float32
        ),
        DataType::Float64 => matches!(
            type_from,
            DataType::Int8 | DataType::Int16 | DataType::Int32 | DataType::Int64 | DataType::UInt8
                | DataType::UInt16 | DataType::UInt32 | DataType::UInt64 | DataType::Float32
                | DataType::Float64
        ),
        DataType::Utf8 => true,
        _ => false,
    }
}

/// `n` copies of the type `t`.
pub open spec fn spec_repeat(t: SpecDataType, n: nat) -> Seq<SpecDataType> {
    Seq::new(n, |_i: int| t)
}

/// The model of a list of lists of data types.
pub open spec fn spec_type_lists(v: Seq<Vec<DataType>>) -> Seq<Seq<SpecDataType>> {
    v.map_values(|l: Vec<DataType>| spec_types(l@))
}

/// The lists of argument types that `signature` accepts for arguments of the
/// types `current`, in the order in which coercion tries them.
pub open spec fn spec_valid_types(signature: SpecSignature, current: Seq<SpecDataType>) -> Result<
    Seq<Seq<SpecDataType>>,
    SpecFunctionError,
> {
    match signature {
        SpecSignature::Variadic(vs) => Ok(vs.map_values(|t: SpecDataType| spec_repeat(t, current.len()))),
        SpecSignature::Uniform(n, vs) => Ok(vs.map_values(|t: SpecDataType| spec_repeat(t, n as nat))),
        SpecSignature::VariadicEqual => Ok(seq![spec_repeat(current[0], current.len())]),
        SpecSignature::Exact(vs) => Ok(seq![vs]),
        SpecSignature::Any(n) => if current.len() != n {
            Err(SpecFunctionError::ArgumentCount(n, current.len() as usize))
        } else {
            Ok(seq![current])
        },
    }
}

/// Whether arguments of the types `current` can be coerced, one by one, to
/// the types `valid`.
pub open spec fn spec_coercible(valid: Seq<SpecDataType>, current: Seq<SpecDataType>) -> bool {
    &&& valid.len() == current.len()
    &&& forall|i: int|
        0 <= i < valid.len() ==> current[i] == valid[i] || spec_can_coerce_from(
            #[trigger] valid[i],
            current[i],
        )
}

/// The first list of `valids` to which `current` can be coerced.
pub open spec fn spec_first_coercible(
    valids: Seq<Seq<SpecDataType>>,
    current: Seq<SpecDataType>,
) -> Option<Seq<SpecDataType>>
    decreases valids.len(),
{
    if valids.len() == 0 {
        None
    } else if spec_coercible(valids[0], current) {
        Some(valids[0])
    } else {
        spec_first_coercible(valids.drop_first(), current)
    }
}

/// The types to which arguments of the types `current` are coerced to match
/// `signature`: none for no argument; the argument types themselves where the
/// signature accepts them; else the first accepted list that they can be
/// coerced to.
pub open spec fn spec_data_types(current: Seq<SpecDataType>, signature: SpecSignature) -> Result<
    Seq<SpecDataType>,
    SpecFunctionError,
> {
    if current.len() == 0 {
        Ok(Seq::empty())
    } else {
        match spec_valid_types(signature, current) {
            Err(e) => Err(e),
            Ok(valids) => if valids.contains(current) {
                Ok(current)
            } else {
                match spec_first_coercible(valids, current) {
                    Some(types) => Ok(types),
                    None => Err(SpecFunctionError::Coercion(current, signature)),
                }
            },
        }
    }
}

/// The model of a result that holds a list of data types.
pub open spec fn spec_types_result(r: Result<Vec<DataType>, FunctionError>) -> Result<
    Seq<SpecDataType>,
    SpecFunctionError,
> {
    match r {
        Ok(v) => Ok(spec_types(v@)),
        Err(e) => Err(e@),
    }
}

fn repeat_type(t: &DataType, n: usize) -> (r: Vec<DataType>)
    ensures
        spec_types(r@) == spec_repeat(t@, n as nat),
{
    let mut r: Vec<DataType> = Vec::new();
    let mut i: usize = 0;
    while i < n
        invariant
            0 <= i <= n,
            r@.len() == i,
            forall|j: int| 0 <= j < i ==> (#[trigger] r@[j])@ == t@,
        decreases n - i,
    {
        r.push(t.clone());
        i = i + 1;
    }
    assert(spec_types(r@) =~= spec_repeat(t@, n as nat));
    r
}

fn repeat_each(vs: &Vec<DataType>, n: usize) -> (r: Vec<Vec<DataType>>)
    ensures
        spec_type_lists(r@) == spec_types(vs@).map_values(|t: SpecDataType| spec_repeat(t, n as nat)),
{
    let mut r: Vec<Vec<DataType>> = Vec::new();
    let mut i: usize = 0;
    while i < vs.len()
        invariant
            0 <= i <= vs.len(),
            r@.len() == i,
            forall|j: int|
                0 <= j < i ==> spec_types((#[trigger] r@[j])@) == spec_repeat(vs@[j]@, n as nat),
        decreases vs.len() - i,
    {
        r.push(repeat_type(&vs[i], n));
        i = i + 1;
    }
    assert(spec_type_lists(r@) =~= spec_types(vs@).map_values(
        |t: SpecDataType| spec_repeat(t, n as nat),
    ));
    r
}

/// The lists of argument types that `signature` accepts for arguments of the
/// types `current`, in the order in which coercion tries them.
pub fn valid_types(signature: &Signature, current: &[DataType]) -> (r: Result<
    Vec<Vec<DataType>>,
    FunctionError,
>)
    ensures
        match r {
            Ok(v) => spec_valid_types(signature@, spec_types(current@)) == Ok::<
                Seq<Seq<SpecDataType>>,
                SpecFunctionError,
            >(spec_type_lists(v@)),
            Err(e) => spec_valid_types(signature@, spec_types(current@)) == Err::<
                Seq<Seq<SpecDataType>>,
                SpecFunctionError,
            >(e@),
        },
{
    let ghost cur = spec_types(current@);
    match signature {
        Signature::Variadic(vs) => Ok(repeat_each(vs, current.len())),
        Signature::Uniform(n, vs) => Ok(repeat_each(vs, *n)),
        Signature::VariadicEqual => {
            let mut r: Vec<Vec<DataType>> = Vec::new();
            if current.len() == 0 {
                r.push(Vec::new());
                assert(spec_types(r@[0]@) =~= spec_repeat(cur[0], 0));
            } else {
                r.push(repeat_type(&current[0], current.len()));
            }
            assert(spec_type_lists(r@) =~= seq![spec_repeat(cur[0], cur.len())]);
            Ok(r)
        },
        Signature::Exact(vs) => {
            let mut r: Vec<Vec<DataType>> = Vec::new();
            r.push(clone_types(vs.as_slice()));
            assert(spec_type_lists(r@) =~= seq![spec_types(vs@)]);
            Ok(r)
        },
        Signature::Any(n) => {
            if current.len() != *n {
                Err(FunctionError::ArgumentCount { expected: *n, received: current.len() })
            } else {
                let mut r: Vec<Vec<DataType>> = Vec::new();
                r.push(clone_types(current));
                assert(spec_type_lists(r@) =~= seq![cur]);
                Ok(r)
            }
        },
    }
}

/// The types `valid`, if arguments of the types `current` can be coerced to
/// them one by one.
pub fn maybe_data_types(valid: &[DataType], current: &[DataType]) -> (r: Option<Vec<DataType>>)
    ensures
        r is Some <==> spec_coercible(spec_types(valid@), spec_types(current@)),
        r matches Some(v) ==> spec_types(v@) == spec_types(valid@),
{
    let ghost vs = spec_types(valid@);
    let ghost cs = spec_types(current@);
    if valid.len() != current.len() {
        return None;
    }
    let mut new_types: Vec<DataType> = Vec::new();
    let mut i: usize = 0;
    while i < valid.len()
        invariant
            0 <= i <= valid.len(),
            valid.len() == current.len(),
            vs == spec_types(valid@),
            cs == spec_types(current@),
            new_types@.len() == i,
            forall|j: int| 0 <= j < i ==> (#[trigger] new_types@[j])@ == valid@[j]@,
            forall|j: int| 0 <= j < i ==> cs[j] == vs[j] || spec_can_coerce_from(#[trigger] vs[j], cs[j]),
        decreases valid.len() - i,
    {
        if current[i] == valid[i] {
            new_types.push(current[i].clone());
        } else if can_coerce_from(&valid[i], &current[i]) {
            new_types.push(valid[i].clone());
        } else {
            assert(!(cs[i as int] == vs[i as int] || spec_can_coerce_from(vs[i as int], cs[i as int])));
            return None;
        }
        i = i + 1;
    }
    assert(spec_types(new_types@) =~= vs);
    Some(new_types)
}

proof fn lemma_first_coercible_skip(valids: Seq<Seq<SpecDataType>>, current: Seq<SpecDataType>, i: int)
    requires
        0 <= i < valids.len(),
        !spec_coercible(valids[i], current),
    ensures
        spec_first_coercible(valids.subrange(i, valids.len() as int), current)
            == spec_first_coercible(valids.subrange(i + 1, valids.len() as int), current),
{
    assert(valids.subrange(i, valids.len() as int).drop_first() =~= valids.subrange(
        i + 1,
        valids.len() as int,
    ));
}

/// The types to which arguments of the types `current` are coerced to match
/// `signature`, or why they cannot be.
pub fn data_types(current: &[DataType], signature: &Signature) -> (r: Result<
    Vec<DataType>,
    FunctionError,
>)
    ensures
        spec_types_result(r) == spec_data_types(spec_types(current@), signature@),
{
    let ghost cur = spec_types(current@);
    if current.len() == 0 {
        let r: Vec<DataType> = Vec::new();
        assert(spec_types(r@) =~= Seq::<SpecDataType>::empty());
        return Ok(r);
    }
    let valid = match valid_types(signature, current) {
        Ok(v) => v,
        Err(e) => {
            return Err(e);
        },
    };
    let ghost valids = spec_type_lists(valid@);
    let mut i: usize = 0;
    while i < valid.len()
        invariant
            0 <= i <= valid.len(),
            valids == spec_type_lists(valid@),
            cur == spec_types(current@),
            cur.len() > 0,
            spec_valid_types(signature@, cur) == Ok::<Seq<Seq<SpecDataType>>, SpecFunctionError>(valids),
            forall|j: int| 0 <= j < i ==> valids[j] != cur,
        decreases valid.len() - i,
    {
        if types_eq(valid[i].as_slice(), current) {
            assert(valids[i as int] == cur);
            assert(valids.contains(cur));
            return Ok(clone_types(current));
        }
        i = i + 1;
    }
    assert(!valids.contains(cur));
    let mut i: usize = 0;
    assert(valids.subrange(0, valids.len() as int) =~= valids);
    while i < valid.len()
        invariant
            0 <= i <= valid.len(),
            valids == spec_type_lists(valid@),
            cur == spec_types(current@),
            cur.len() > 0,
            spec_valid_types(signature@, cur) == Ok::<Seq<Seq<SpecDataType>>, SpecFunctionError>(valids),
            !valids.contains(cur),
            spec_first_coercible(valids, cur) == spec_first_coercible(
                valids.subrange(i as int, valids.len() as int),
                cur,
            ),
        decreases valid.len() - i,
    {
        match maybe_data_types(valid[i].as_slice(), current) {
            Some(types) => {
                return Ok(types);
            },
            None => {
                proof {
                    lemma_first_coercible_skip(valids, cur, i as int);
                }
            },
        }
        i = i + 1;
    }
    Err(FunctionError::Coercion { arg_types: clone_types(current), signature: signature.clone() })
}

proof fn lemma_first_coercible(valids: Seq<Seq<SpecDataType>>, current: Seq<SpecDataType>)
    ensures
        spec_first_coercible(valids, current) matches Some(t) ==> spec_coercible(t, current)
            && valids.contains(t),
    decreases valids.len(),
{
    if valids.len() > 0 && !spec_coercible(valids[0], current) {
        lemma_first_coercible(valids.drop_first(), current);
        if let Some(t) = spec_first_coercible(valids.drop_first(), current) {
            let k = choose|k: int| 0 <= k < valids.drop_first().len() && valids.drop_first()[k] == t;
            assert(valids[k + 1] == t);
        }
    }
    if valids.len() > 0 && spec_coercible(valids[0], current) {
        assert(valids[0] == valids[0]);
    }
}

/// Coerced types, for at least one argument, are one of the lists that the
/// signature accepts.
pub proof fn lemma_data_types_accepted(current: Seq<SpecDataType>, signature: SpecSignature)
    requires
        current.len() > 0,
        spec_data_types(current, signature) is Ok,
    ensures
        spec_valid_types(signature, current) matches Ok(valids) && valids.contains(
            spec_data_types(current, signature)->Ok_0,
        ),
{
    if let Ok(valids) = spec_valid_types(signature, current) {
        lemma_first_coercible(valids, current);
    }
}

/// Argument types that the signature accepts as they are are kept unchanged.
pub proof fn lemma_accepted_types_unchanged(current: Seq<SpecDataType>, signature: SpecSignature)
    requires
        spec_valid_types(signature, current) matches Ok(valids) && valids.contains(current),
    ensures
        spec_data_types(current, signature) == Ok::<Seq<SpecDataType>, SpecFunctionError>(current),
{
    if current.len() == 0 {
        assert(current =~= Seq::<SpecDataType>::empty());
    }
}

/// Coercion keeps the number of arguments: each argument gets one type.
pub proof fn lemma_data_types_length(current: Seq<SpecDataType>, signature: SpecSignature)
    requires
        spec_data_types(current, signature) is Ok,
    ensures
        spec_data_types(current, signature)->Ok_0.len() == current.len(),
{
    if current.len() > 0 {
        if let Ok(valids) = spec_valid_types(signature, current) {
            lemma_first_coercible(valids, current);
        }
    }
}

/// Each argument is coerced either to its own type or to a type that it can
/// be coerced to.
pub proof fn lemma_data_types_reachable(current: Seq<SpecDataType>, signature: SpecSignature, i: int)
    requires
        spec_data_types(current, signature) is Ok,
        0 <= i < current.len(),
    ensures
        ({
            let coerced = spec_data_types(current, signature)->Ok_0;
            coerced[i] == current[i] || spec_can_coerce_from(coerced[i], current[i])
        }),
{
    if let Ok(valids) = spec_valid_types(signature, current) {
        lemma_first_coercible(valids, current);
        if !valids.contains(current) {
            let t = spec_first_coercible(valids, current)->Some_0;
            assert(spec_coercible(t, current));
            assert(t[i] == current[i] || spec_can_coerce_from(t[i], current[i]));
        }
    }
}

/// Coercion is idempotent: types that coercion produced are coerced to
/// themselves.
pub proof fn lemma_data_types_idempotent(current: Seq<SpecDataType>, signature: SpecSignature)
    requires
        spec_data_types(current, signature) is Ok,
    ensures
        spec_data_types(spec_data_types(current, signature)->Ok_0, signature) == spec_data_types(
            current,
            signature,
        ),
{
    let coerced = spec_data_types(current, signature)->Ok_0;
    lemma_data_types_length(current, signature);
    if current.len() > 0 {
        lemma_data_types_accepted(current, signature);
        let valids = spec_valid_types(signature, current)->Ok_0;
        let k = choose|k: int| 0 <= k < valids.len() && valids[k] == coerced;
        match signature {
            SpecSignature::Variadic(vs) => {
                assert(spec_valid_types(signature, coerced)->Ok_0 =~= valids);
            },
            SpecSignature::Uniform(n, vs) => {
                assert(spec_valid_types(signature, coerced)->Ok_0 =~= valids);
            },
            SpecSignature::VariadicEqual => {
                assert(coerced[0] == current[0]);
                assert(spec_repeat(coerced[0], coerced.len()) =~= spec_repeat(current[0], current.len()));
                assert(spec_valid_types(signature, coerced)->Ok_0 =~= valids);
            },
            SpecSignature::Exact(vs) => {
                assert(spec_valid_types(signature, coerced)->Ok_0 =~= valids);
            },
            SpecSignature::Any(n) => {
                assert(spec_valid_types(signature, coerced)->Ok_0 =~= valids);
            },
        }
        let vc = spec_valid_types(signature, coerced)->Ok_0;
        assert(vc[k] == coerced);
        assert(vc.contains(coerced));
    }
}

} // verus!
