//! What the functions are for, stated over their inputs and results: which
//! names call a function, which coercions lose no value, and what each family
//! of functions accepts and returns.

use crate::builtin::BuiltinScalarFunction;
use crate::coercion::{
    lemma_data_types_length, spec_can_coerce_from, spec_coercible, spec_data_types,
    spec_first_coercible, spec_repeat, spec_valid_types,
};
use crate::datatype::{SpecDataType, SpecField, TimeUnit};
use crate::error::SpecFunctionError;
use crate::functions::lemma_float_functions_return_float64;
use crate::signature::SpecSignature;
use vstd::prelude::*;

verus! {

/// The least and the greatest value of an integer type; `None` for the other
/// types.
pub open spec fn spec_integer_range(t: SpecDataType) -> Option<(int, int)> {
    match t {
        SpecDataType::Int8 => Some((-0x80, 0x7f)),
        SpecDataType::Int16 => Some((-0x8000, 0x7fff)),
        SpecDataType::Int32 => Some((-0x8000_0000, 0x7fff_ffff)),
        SpecDataType::Int64 => Some((-0x8000_0000_0000_0000, 0x7fff_ffff_ffff_ffff)),
        SpecDataType::UInt8 => Some((0, 0xff)),
        SpecDataType::UInt16 => Some((0, 0xffff)),
        SpecDataType::UInt32 => Some((0, 0xffff_ffff)),
        SpecDataType::UInt64 => Some((0, 0xffff_ffff_ffff_ffff)),
        _ => None,
    }
}

/// Whether every value of the integer type `narrow` is a value of the integer
/// type `wide`.
pub open spec fn spec_integer_widens(wide: SpecDataType, narrow: SpecDataType) -> bool {
    &&& spec_integer_range(wide) matches Some((wide_min, wide_max))
    &&& spec_integer_range(narrow) matches Some((narrow_min, narrow_max))
    &&& wide_min <= narrow_min
    &&& narrow_max <= wide_max
}

/// Whether `t` is a numeric type: an integer type or a float of 32 or 64 bits.
pub open spec fn spec_is_numeric(t: SpecDataType) -> bool {
    spec_integer_range(t) is Some || t == SpecDataType::Float32 || t == SpecDataType::Float64
}

/// Between integer types, coercion is exactly the widening that loses no
/// value: an integer can be coerced to another integer type exactly when
/// every value of its type is a value of the other.
pub proof fn lemma_integer_coercion_is_widening(type_into: SpecDataType, type_from: SpecDataType)
    requires
        spec_integer_range(type_into) is Some,
        spec_integer_range(type_from) is Some,
    ensures
        spec_can_coerce_from(type_into, type_from) <==> spec_integer_widens(type_into, type_from),
{
}

/// Coercion to a float or a string: every integer and `Float32` can be
/// coerced to `Float64`, and `Float64` to itself; every integer and
/// `Float32`, but not `Float64`, to `Float32`; everything to `Utf8`. Nothing
/// else can be coerced to an integer, and nothing at all to a type that is
/// neither numeric nor `Utf8`.
pub proof fn lemma_coercion_to_floats_and_strings(type_into: SpecDataType, type_from: SpecDataType)
    ensures
        spec_can_coerce_from(SpecDataType::Float64, type_from) <==> spec_is_numeric(type_from),
        spec_can_coerce_from(SpecDataType::Float32, type_from) <==> (spec_integer_range(type_from) is Some
            || type_from == SpecDataType::Float32),
        spec_can_coerce_from(SpecDataType::Utf8, type_from),
        spec_integer_range(type_into) is Some && spec_integer_range(type_from) is None
            ==> !spec_can_coerce_from(type_into, type_from),
        !spec_is_numeric(type_into) && type_into != SpecDataType::Utf8 ==> !spec_can_coerce_from(
            type_into,
            type_from,
        ),
{
}

/// The mathematical functions of one float.
pub open spec fn spec_is_math_function(fun: BuiltinScalarFunction) -> bool {
    ||| fun == BuiltinScalarFunction::Sqrt
    ||| fun == BuiltinScalarFunction::Sin
    ||| fun == BuiltinScalarFunction::Cos
    ||| fun == BuiltinScalarFunction::Tan
    ||| fun == BuiltinScalarFunction::Asin
    ||| fun == BuiltinScalarFunction::Acos
    ||| fun == BuiltinScalarFunction::Atan
    ||| fun == BuiltinScalarFunction::Exp
    ||| fun == BuiltinScalarFunction::Log
    ||| fun == BuiltinScalarFunction::Log2
    ||| fun == BuiltinScalarFunction::Log10
    ||| fun == BuiltinScalarFunction::Floor
    ||| fun == BuiltinScalarFunction::Ceil
    ||| fun == BuiltinScalarFunction::Round
    ||| fun == BuiltinScalarFunction::Trunc
    ||| fun == BuiltinScalarFunction::Abs
    ||| fun == BuiltinScalarFunction::Signum
}

/// A mathematical function takes exactly one argument, of a float type,
/// preferably of 64 bits: its signature is one argument of `Float64` or
/// `Float32`; any numeric argument is coerced to `Float64`, but a `Float32`
/// is kept; the function returns `Float64`; a non-numeric argument, or any
/// number of arguments but one, is refused.
pub proof fn lemma_math_functions(fun: BuiltinScalarFunction)
    requires
        spec_is_math_function(fun),
    ensures
        fun.spec_signature() == SpecSignature::Uniform(
            1,
            seq![SpecDataType::Float64, SpecDataType::Float32],
        ),
        forall|t: SpecDataType|
            spec_is_numeric(t) ==> #[trigger] fun.spec_return_type(seq![t]) == Ok::<
                SpecDataType,
                SpecFunctionError,
            >(SpecDataType::Float64),
        forall|t: SpecDataType|
            spec_is_numeric(t) ==> #[trigger] spec_data_types(seq![t], fun.spec_signature()) == Ok::<
                Seq<SpecDataType>,
                SpecFunctionError,
            >(if t == SpecDataType::Float32 { seq![SpecDataType::Float32] } else { seq![SpecDataType::Float64] }),
        forall|t: SpecDataType|
            !spec_is_numeric(t) ==> #[trigger] fun.spec_return_type(seq![t]) is Err,
        forall|ts: Seq<SpecDataType>|
            ts.len() != 1 ==> #[trigger] fun.spec_return_type(ts) is Err,
{
    let sig = fun.spec_signature();
    assert(sig == SpecSignature::Uniform(1, seq![SpecDataType::Float64, SpecDataType::Float32]));
    assert forall|t: SpecDataType| spec_is_numeric(t) implies #[trigger] fun.spec_return_type(seq![t])
        == Ok::<SpecDataType, SpecFunctionError>(SpecDataType::Float64) by {
        lemma_float_functions_return_float64(fun, t);
    }
    assert forall|t: SpecDataType| spec_is_numeric(t) implies #[trigger] spec_data_types(seq![t], sig)
        == Ok::<Seq<SpecDataType>, SpecFunctionError>(
        if t == SpecDataType::Float32 { seq![SpecDataType::Float32] } else { seq![SpecDataType::Float64] },
    ) by {
        crate::functions::lemma_float_functions_prefer_float64(fun, t);
    }
    assert forall|t: SpecDataType| !spec_is_numeric(t) implies #[trigger] fun.spec_return_type(
        seq![t],
    ) is Err by {
        let valids = spec_valid_types(sig, seq![t])->Ok_0;
        assert(valids[0] =~= seq![SpecDataType::Float64]);
        assert(valids[1] =~= seq![SpecDataType::Float32]);
        assert(!valids.contains(seq![t])) by {
            if valids.contains(seq![t]) {
                let k = choose|k: int| 0 <= k < valids.len() && valids[k] == seq![t];
                assert(valids[k][0] == t);
            }
        }
        lemma_coercion_to_floats_and_strings(t, t);
        assert(valids[0][0] == SpecDataType::Float64);
        assert(valids[1][0] == SpecDataType::Float32);
        assert(!spec_coercible(valids[0], seq![t]));
        assert(!spec_coercible(valids[1], seq![t]));
        assert(valids.drop_first().drop_first() =~= Seq::<Seq<SpecDataType>>::empty());
        reveal_with_fuel(spec_first_coercible, 3);
    }
    assert forall|ts: Seq<SpecDataType>| ts.len() != 1 implies #[trigger] fun.spec_return_type(ts) is Err by {
        if ts.len() > 0 {
            if spec_data_types(ts, sig) is Ok {
                lemma_data_types_length(ts, sig);
                crate::coercion::lemma_data_types_accepted(ts, sig);
                let valids = spec_valid_types(sig, ts)->Ok_0;
                let coerced = spec_data_types(ts, sig)->Ok_0;
                let k = choose|k: int| 0 <= k < valids.len() && valids[k] == coerced;
                assert(valids[k].len() == 1);
            }
        }
    }
}

/// `concat` takes any number of arguments, at least one, of any types: each
/// is coerced to `Utf8`, and the result is `Utf8` whatever the argument types
/// were. Without arguments it is refused.
pub proof fn lemma_concat(ts: Seq<SpecDataType>)
    ensures
        BuiltinScalarFunction::Concat.spec_signature() == SpecSignature::Variadic(
            seq![SpecDataType::Utf8],
        ),
        ts.len() > 0 ==> BuiltinScalarFunction::Concat.spec_return_type(ts) == Ok::<
            SpecDataType,
            SpecFunctionError,
        >(SpecDataType::Utf8),
        ts.len() > 0 ==> spec_data_types(ts, BuiltinScalarFunction::Concat.spec_signature()) == Ok::<
            Seq<SpecDataType>,
            SpecFunctionError,
        >(spec_repeat(SpecDataType::Utf8, ts.len())),
        ts.len() == 0 ==> BuiltinScalarFunction::Concat.spec_return_type(ts) is Err,
{
    let sig = BuiltinScalarFunction::Concat.spec_signature();
    if ts.len() > 0 {
        let valids = spec_valid_types(sig, ts)->Ok_0;
        let utf8s = spec_repeat(SpecDataType::Utf8, ts.len());
        assert(valids =~= seq![utf8s]);
        assert forall|i: int| 0 <= i < ts.len() implies ts[i] == utf8s[i] || spec_can_coerce_from(
            #[trigger] utf8s[i],
            ts[i],
        ) by {
            lemma_coercion_to_floats_and_strings(SpecDataType::Utf8, ts[i]);
        }
        assert(spec_coercible(valids[0], ts));
        if valids.contains(ts) {
            assert(ts =~= utf8s);
        }
        reveal_with_fuel(spec_first_coercible, 2);
    }
}

/// `to_timestamp` takes one argument of any type, coerced to `Utf8`, and
/// returns a timestamp in nanoseconds without time zone; any other number of
/// arguments is refused.
pub proof fn lemma_to_timestamp(ts: Seq<SpecDataType>)
    ensures
        ts.len() == 1 ==> BuiltinScalarFunction::ToTimestamp.spec_return_type(ts) == Ok::<
            SpecDataType,
            SpecFunctionError,
        >(SpecDataType::Timestamp(TimeUnit::Nanosecond, None)),
        ts.len() == 1 ==> spec_data_types(ts, BuiltinScalarFunction::ToTimestamp.spec_signature())
            == Ok::<Seq<SpecDataType>, SpecFunctionError>(seq![SpecDataType::Utf8]),
        ts.len() != 1 ==> BuiltinScalarFunction::ToTimestamp.spec_return_type(ts) is Err,
{
    let sig = BuiltinScalarFunction::ToTimestamp.spec_signature();
    assert(sig == SpecSignature::Uniform(1, seq![SpecDataType::Utf8]));
    let valids = spec_valid_types(sig, ts)->Ok_0;
    assert(valids[0] =~= seq![SpecDataType::Utf8]);
    assert(valids =~= seq![seq![SpecDataType::Utf8]]);
    if ts.len() == 1 {
        lemma_coercion_to_floats_and_strings(SpecDataType::Utf8, ts[0]);
        assert(spec_coercible(valids[0], ts));
        if valids.contains(ts) {
            assert(ts =~= seq![SpecDataType::Utf8]);
        }
        reveal_with_fuel(spec_first_coercible, 2);
    } else if ts.len() > 1 {
        assert(!spec_coercible(valids[0], ts));
        assert(!valids.contains(ts));
        reveal_with_fuel(spec_first_coercible, 2);
    }
}

/// `date_trunc` takes a part, of any type coerced to `Utf8`, and a timestamp
/// in nanoseconds without time zone, and returns a timestamp in nanoseconds
/// without time zone; a second argument of another type, or any other number
/// of arguments, is refused.
pub proof fn lemma_date_trunc(ts: Seq<SpecDataType>)
    ensures
        ts.len() == 2 && ts[1] == SpecDataType::Timestamp(TimeUnit::Nanosecond, None)
            ==> BuiltinScalarFunction::DateTrunc.spec_return_type(ts) == Ok::<
            SpecDataType,
            SpecFunctionError,
        >(SpecDataType::Timestamp(TimeUnit::Nanosecond, None)),
        ts.len() == 2 && ts[1] != SpecDataType::Timestamp(TimeUnit::Nanosecond, None)
            ==> BuiltinScalarFunction::DateTrunc.spec_return_type(ts) is Err,
        ts.len() != 2 ==> BuiltinScalarFunction::DateTrunc.spec_return_type(ts) is Err,
{
    let sig = BuiltinScalarFunction::DateTrunc.spec_signature();
    let nanos = SpecDataType::Timestamp(TimeUnit::Nanosecond, None);
    let exact = seq![SpecDataType::Utf8, nanos];
    assert(sig == SpecSignature::Exact(exact));
    let valids = spec_valid_types(sig, ts)->Ok_0;
    assert(valids =~= seq![exact]);
    if ts.len() == 2 {
        lemma_coercion_to_floats_and_strings(SpecDataType::Utf8, ts[0]);
        lemma_coercion_to_floats_and_strings(nanos, ts[1]);
        assert(exact[0] == SpecDataType::Utf8);
        assert(exact[1] == nanos);
        if ts[1] == nanos {
            assert(spec_coercible(valids[0], ts));
        } else {
            assert(!spec_coercible(valids[0], ts));
            assert(!valids.contains(ts));
        }
        reveal_with_fuel(spec_first_coercible, 2);
    } else if ts.len() > 0 {
        assert(!spec_coercible(valids[0], ts));
        assert(!valids.contains(ts));
        reveal_with_fuel(spec_first_coercible, 2);
    }
}

/// The names that call a function: one each, but three for `Length` and two
/// for `Trunc`.
pub open spec fn spec_call_names(fun: BuiltinScalarFunction) -> Set<Seq<char>> {
    match fun {
        BuiltinScalarFunction::Length => set!["length"@, "char_length"@, "character_length"@],
        BuiltinScalarFunction::Trunc => set!["trunc"@, "truc"@],
        BuiltinScalarFunction::ToTimestamp => set!["to_timestamp"@],
        BuiltinScalarFunction::DateTrunc => set!["date_trunc"@],
        BuiltinScalarFunction::Abs => set!["abs"@],
        BuiltinScalarFunction::Acos => set!["acos"@],
        BuiltinScalarFunction::Array => set!["array"@],
        BuiltinScalarFunction::Asin => set!["asin"@],
        BuiltinScalarFunction::Atan => set!["atan"@],
        BuiltinScalarFunction::Ceil => set!["ceil"@],
        BuiltinScalarFunction::Concat => set!["concat"@],
        BuiltinScalarFunction::Cos => set!["cos"@],
        BuiltinScalarFunction::Exp => set!["exp"@],
        BuiltinScalarFunction::Floor => set!["floor"@],
        BuiltinScalarFunction::Log => set!["log"@],
        BuiltinScalarFunction::Log10 => set!["log10"@],
        BuiltinScalarFunction::Log2 => set!["log2"@],
        BuiltinScalarFunction::Lower => set!["lower"@],
        BuiltinScalarFunction::Ltrim => set!["ltrim"@],
        BuiltinScalarFunction::MD5 => set!["md5"@],
        BuiltinScalarFunction::NullIf => set!["nullif"@],
        BuiltinScalarFunction::Round => set!["round"@],
        BuiltinScalarFunction::Rtrim => set!["rtrim"@],
        BuiltinScalarFunction::SHA224 => set!["sha224"@],
        BuiltinScalarFunction::SHA256 => set!["sha256"@],
        BuiltinScalarFunction::SHA384 => set!["sha384"@],
        BuiltinScalarFunction::SHA512 => set!["sha512"@],
        BuiltinScalarFunction::Signum => set!["signum"@],
        BuiltinScalarFunction::Sin => set!["sin"@],
        BuiltinScalarFunction::Sqrt => set!["sqrt"@],
        BuiltinScalarFunction::Tan => set!["tan"@],
        BuiltinScalarFunction::Trim => set!["trim"@],
        BuiltinScalarFunction::Upper => set!["upper"@],
    }
}

/// A name calls a function exactly when it is one of that function's names:
/// parsing gives `fun` for each name of `fun` and for no other name.
pub proof fn lemma_parse_names(name: Seq<char>, fun: BuiltinScalarFunction)
    ensures
        BuiltinScalarFunction::spec_parse(name) == Some(fun) <==> spec_call_names(fun).contains(name),
{
    crate::builtin::lemma_fingerprints();
    if spec_call_names(fun).contains(name) {
        assert(BuiltinScalarFunction::spec_parse(name) == Some(fun));
    }
}

/// Every name that is no function's name is refused, and every name that
/// parses is a name of the function that it gives.
pub proof fn lemma_only_listed_names_parse(name: Seq<char>)
    ensures
        BuiltinScalarFunction::spec_parse(name) is None <==> forall|fun: BuiltinScalarFunction|
            !#[trigger] spec_call_names(fun).contains(name),
        forall|fun: BuiltinScalarFunction|
            #[trigger] BuiltinScalarFunction::spec_parse(name) == Some(fun) ==> spec_call_names(
                fun,
            ).contains(name),
{
    assert forall|fun: BuiltinScalarFunction|
        #[trigger] BuiltinScalarFunction::spec_parse(name) == Some(fun) <==> spec_call_names(
            fun,
        ).contains(name) by {
        lemma_parse_names(name, fun);
    }
    if let Some(g) = BuiltinScalarFunction::spec_parse(name) {
        lemma_parse_names(name, g);
    }
}

/// Whether a value of type `from` can be passed where `into` is expected: it
/// is of that type, or can be coerced to it.
pub open spec fn spec_covers(into: SpecDataType, from: SpecDataType) -> bool {
    from == into || spec_can_coerce_from(into, from)
}

/// Coercion picks the first list that the arguments can be coerced to.
proof fn lemma_first_coercible_at(valids: Seq<Seq<SpecDataType>>, current: Seq<SpecDataType>, k: int)
    requires
        0 <= k < valids.len(),
        spec_coercible(valids[k], current),
        forall|j: int| 0 <= j < k ==> !spec_coercible(#[trigger] valids[j], current),
    ensures
        spec_first_coercible(valids, current) == Some(valids[k]),
    decreases k,
{
    if k > 0 {
        assert(!spec_coercible(valids[0], current));
        let rest = valids.drop_first();
        assert forall|j: int| 0 <= j < k - 1 implies !spec_coercible(#[trigger] rest[j], current) by {
            assert(rest[j] == valids[j + 1]);
        }
        lemma_first_coercible_at(rest, current, k - 1);
    }
}

/// For two arguments and a signature that gives each type of `vs` to both,
/// the list of index `j` is the type `vs[j]` twice, and the arguments can be
/// coerced to it exactly when each can be passed as `vs[j]`.
proof fn lemma_pair_lists(sig: SpecSignature, vs: Seq<SpecDataType>, cur: Seq<SpecDataType>)
    requires
        sig == SpecSignature::Uniform(2, vs) || sig == SpecSignature::Variadic(vs),
        cur.len() == 2,
    ensures
        spec_valid_types(sig, cur) is Ok,
        spec_valid_types(sig, cur)->Ok_0.len() == vs.len(),
        forall|j: int|
            0 <= j < vs.len() ==> #[trigger] spec_valid_types(sig, cur)->Ok_0[j] == seq![vs[j], vs[j]],
        forall|j: int|
            0 <= j < vs.len() ==> (spec_coercible(#[trigger] spec_valid_types(sig, cur)->Ok_0[j], cur)
                <==> spec_covers(vs[j], cur[0]) && spec_covers(vs[j], cur[1])),
{
    let valids = spec_valid_types(sig, cur)->Ok_0;
    assert forall|j: int| 0 <= j < vs.len() implies #[trigger] valids[j] == seq![vs[j], vs[j]] by {
        assert(valids[j] =~= seq![vs[j], vs[j]]);
    }
}

/// Whether `r` is the type that two integer arguments of the types `a` and
/// `b` are given together: the narrowest integer type that holds every value
/// of both, where there is one, and `Float32` where there is none (where one
/// is `UInt64` and the other signed).
pub open spec fn spec_common_type(a: SpecDataType, b: SpecDataType, r: SpecDataType) -> bool {
    &&& (exists|w: SpecDataType| spec_integer_widens(w, a) && spec_integer_widens(w, b)) ==> {
        &&& spec_integer_widens(r, a)
        &&& spec_integer_widens(r, b)
        &&& forall|w: SpecDataType|
            spec_integer_widens(w, a) && spec_integer_widens(w, b) ==> spec_integer_widens(w, r)
    }
    &&& !(exists|w: SpecDataType| spec_integer_widens(w, a) && spec_integer_widens(w, b))
        ==> r == SpecDataType::Float32
}

/// Two integer arguments, under a signature that tries the types of `nullif`
/// one after the other for both, are coerced to their common type.
proof fn lemma_integer_pair(sig: SpecSignature, vs: Seq<SpecDataType>, a: SpecDataType, b: SpecDataType)
    requires
        sig == SpecSignature::Uniform(2, vs) || sig == SpecSignature::Variadic(vs),
        vs.len() >= 11,
        vs.subrange(0, 11) == crate::functions::spec_supported_nullif_types(),
        spec_integer_range(a) is Some,
        spec_integer_range(b) is Some,
    ensures
        spec_data_types(seq![a, b], sig) is Ok,
        ({
            let c = spec_data_types(seq![a, b], sig)->Ok_0;
            c.len() == 2 && c[1] == c[0] && spec_common_type(a, b, c[0])
        }),
{
    assert(vs[0] == vs.subrange(0, 11)[0]);
    assert(vs[1] == vs.subrange(0, 11)[1]);
    assert(vs[2] == vs.subrange(0, 11)[2]);
    assert(vs[3] == vs.subrange(0, 11)[3]);
    assert(vs[4] == vs.subrange(0, 11)[4]);
    assert(vs[5] == vs.subrange(0, 11)[5]);
    assert(vs[6] == vs.subrange(0, 11)[6]);
    assert(vs[7] == vs.subrange(0, 11)[7]);
    assert(vs[8] == vs.subrange(0, 11)[8]);
    assert(vs[9] == vs.subrange(0, 11)[9]);
    assert(vs[10] == vs.subrange(0, 11)[10]);
    let cur = seq![a, b];
    lemma_pair_lists(sig, vs, cur);
    let valids = spec_valid_types(sig, cur)->Ok_0;
    assert(vs[0] == SpecDataType::Boolean && vs[1] == SpecDataType::UInt8 && vs[2] == SpecDataType::UInt16
        && vs[3] == SpecDataType::UInt32 && vs[4] == SpecDataType::UInt64 && vs[5] == SpecDataType::Int8
        && vs[6] == SpecDataType::Int16 && vs[7] == SpecDataType::Int32 && vs[8] == SpecDataType::Int64
        && vs[9] == SpecDataType::Float32 && vs[10] == SpecDataType::Float64);
    assert forall|j: int| 0 <= j < vs.len() && spec_integer_range(vs[j]) is Some implies (spec_covers(
        #[trigger] vs[j],
        a,
    ) <==> spec_integer_widens(vs[j], a)) && (spec_covers(vs[j], b) <==> spec_integer_widens(vs[j], b)) by {
        lemma_integer_coercion_is_widening(vs[j], a);
        lemma_integer_coercion_is_widening(vs[j], b);
    }
    lemma_coercion_to_floats_and_strings(SpecDataType::Boolean, a);
    lemma_coercion_to_floats_and_strings(SpecDataType::Boolean, b);
    lemma_coercion_to_floats_and_strings(SpecDataType::Float32, a);
    lemma_coercion_to_floats_and_strings(SpecDataType::Float32, b);
    let k: int = if spec_covers(vs[1], a) && spec_covers(vs[1], b) {
        1
    } else if spec_covers(vs[2], a) && spec_covers(vs[2], b) {
        2
    } else if spec_covers(vs[3], a) && spec_covers(vs[3], b) {
        3
    } else if spec_covers(vs[4], a) && spec_covers(vs[4], b) {
        4
    } else if spec_covers(vs[5], a) && spec_covers(vs[5], b) {
        5
    } else if spec_covers(vs[6], a) && spec_covers(vs[6], b) {
        6
    } else if spec_covers(vs[7], a) && spec_covers(vs[7], b) {
        7
    } else if spec_covers(vs[8], a) && spec_covers(vs[8], b) {
        8
    } else {
        9
    };
    assert(spec_coercible(valids[k], cur));
    assert forall|j: int| 0 <= j < k implies !spec_coercible(#[trigger] valids[j], cur) by {
        assert(0 <= j < vs.len());
    }
    lemma_first_coercible_at(valids, cur, k);
    if valids.contains(cur) {
        let m = choose|m: int| 0 <= m < valids.len() && valids[m] == cur;
        assert(cur[0] == vs[m] && cur[1] == vs[m]);
        assert(spec_data_types(cur, sig) == Ok::<Seq<SpecDataType>, SpecFunctionError>(cur));
        assert(cur =~= seq![a, a]);
    } else {
        assert(spec_data_types(cur, sig) == Ok::<Seq<SpecDataType>, SpecFunctionError>(valids[k]));
    }
}

/// Two integer arguments of `nullif` are both coerced to their common type,
/// which `nullif` returns: the narrowest integer type that holds every value
/// of both, or `Float32` where there is none.
pub proof fn lemma_nullif_integers(a: SpecDataType, b: SpecDataType)
    requires
        spec_integer_range(a) is Some,
        spec_integer_range(b) is Some,
    ensures
        BuiltinScalarFunction::NullIf.spec_return_type(seq![a, b]) is Ok,
        spec_common_type(a, b, BuiltinScalarFunction::NullIf.spec_return_type(seq![a, b])->Ok_0),
        ({
            let r = BuiltinScalarFunction::NullIf.spec_return_type(seq![a, b])->Ok_0;
            spec_data_types(seq![a, b], BuiltinScalarFunction::NullIf.spec_signature()) == Ok::<
                Seq<SpecDataType>,
                SpecFunctionError,
            >(seq![r, r])
        }),
{
    let sig = BuiltinScalarFunction::NullIf.spec_signature();
    let vs = crate::functions::spec_supported_nullif_types();
    assert(vs.subrange(0, 11) =~= vs);
    lemma_integer_pair(sig, vs, a, b);
    let c = spec_data_types(seq![a, b], sig)->Ok_0;
    assert(c =~= seq![c[0], c[0]]);
}

/// Two integer columns of an array are both coerced to their common type:
/// the narrowest integer type that holds every value of both, or `Float32`
/// where there is none; the array of the coerced columns is a list of two
/// items of that type.
pub proof fn lemma_array_integers(a: SpecDataType, b: SpecDataType)
    requires
        spec_integer_range(a) is Some,
        spec_integer_range(b) is Some,
    ensures
        spec_data_types(seq![a, b], BuiltinScalarFunction::Array.spec_signature()) is Ok,
        ({
            let c = spec_data_types(seq![a, b], BuiltinScalarFunction::Array.spec_signature())->Ok_0;
            &&& c == seq![c[0], c[0]]
            &&& spec_common_type(a, b, c[0])
            &&& BuiltinScalarFunction::Array.spec_return_type(c) == Ok::<SpecDataType, SpecFunctionError>(
                SpecDataType::FixedSizeList(
                    Box::new(
                        SpecField {
                            name: "item"@,
                            data_type: c[0],
                            nullable: true,
                            dict_id: 0,
                            dict_is_ordered: false,
                            metadata: None,
                        },
                    ),
                    2,
                ),
            )
        }),
{
    let sig = BuiltinScalarFunction::Array.spec_signature();
    let vs = crate::functions::spec_supported_array_types();
    assert(vs.subrange(0, 11) =~= crate::functions::spec_supported_nullif_types());
    lemma_integer_pair(sig, vs, a, b);
    let c = spec_data_types(seq![a, b], sig)->Ok_0;
    assert(c =~= seq![c[0], c[0]]);
    crate::coercion::lemma_data_types_idempotent(seq![a, b], sig);
}

/// The functions of one string: those that change its text (case, spaces,
/// digest in hexadecimal), its length, and its binary digests.
pub open spec fn spec_is_string_function(fun: BuiltinScalarFunction) -> bool {
    ||| fun == BuiltinScalarFunction::Lower
    ||| fun == BuiltinScalarFunction::Upper
    ||| fun == BuiltinScalarFunction::Trim
    ||| fun == BuiltinScalarFunction::Ltrim
    ||| fun == BuiltinScalarFunction::Rtrim
    ||| fun == BuiltinScalarFunction::MD5
    ||| fun == BuiltinScalarFunction::Length
    ||| fun == BuiltinScalarFunction::SHA224
    ||| fun == BuiltinScalarFunction::SHA256
    ||| fun == BuiltinScalarFunction::SHA384
    ||| fun == BuiltinScalarFunction::SHA512
}

/// A function of one string takes exactly one argument, `Utf8` or
/// `LargeUtf8`: a function that gives text gives it in the argument's type,
/// `length` gives an `Int32` for `Utf8` and an `Int64` for `LargeUtf8`, and a
/// binary digest gives `Binary` for both; an argument of any other type, or
/// any number of arguments but one, is refused.
pub proof fn lemma_string_functions(fun: BuiltinScalarFunction)
    requires
        spec_is_string_function(fun),
    ensures
        fun.spec_signature() == SpecSignature::Uniform(
            1,
            seq![SpecDataType::Utf8, SpecDataType::LargeUtf8],
        ),
        fun == BuiltinScalarFunction::Lower || fun == BuiltinScalarFunction::Upper || fun
            == BuiltinScalarFunction::Trim || fun == BuiltinScalarFunction::Ltrim || fun
            == BuiltinScalarFunction::Rtrim || fun == BuiltinScalarFunction::MD5 ==> {
            &&& fun.spec_return_type(seq![SpecDataType::Utf8]) == Ok::<SpecDataType, SpecFunctionError>(
                SpecDataType::Utf8,
            )
            &&& fun.spec_return_type(seq![SpecDataType::LargeUtf8]) == Ok::<
                SpecDataType,
                SpecFunctionError,
            >(SpecDataType::LargeUtf8)
        },
        fun == BuiltinScalarFunction::Length ==> {
            &&& fun.spec_return_type(seq![SpecDataType::Utf8]) == Ok::<SpecDataType, SpecFunctionError>(
                SpecDataType::Int32,
            )
            &&& fun.spec_return_type(seq![SpecDataType::LargeUtf8]) == Ok::<
                SpecDataType,
                SpecFunctionError,
            >(SpecDataType::Int64)
        },
        fun == BuiltinScalarFunction::SHA224 || fun == BuiltinScalarFunction::SHA256 || fun
            == BuiltinScalarFunction::SHA384 || fun == BuiltinScalarFunction::SHA512 ==> {
            &&& fun.spec_return_type(seq![SpecDataType::Utf8]) == Ok::<SpecDataType, SpecFunctionError>(
                SpecDataType::Binary,
            )
            &&& fun.spec_return_type(seq![SpecDataType::LargeUtf8]) == Ok::<
                SpecDataType,
                SpecFunctionError,
            >(SpecDataType::Binary)
        },
        forall|t: SpecDataType|
            t != SpecDataType::Utf8 && t != SpecDataType::LargeUtf8 ==> #[trigger] fun.spec_return_type(
                seq![t],
            ) is Err,
        forall|ts: Seq<SpecDataType>| ts.len() != 1 ==> #[trigger] fun.spec_return_type(ts) is Err,
{
    let sig = fun.spec_signature();
    assert(sig == SpecSignature::Uniform(1, seq![SpecDataType::Utf8, SpecDataType::LargeUtf8]));
    assert forall|t: SpecDataType|
        t == SpecDataType::Utf8 || t == SpecDataType::LargeUtf8 implies #[trigger] spec_data_types(
        seq![t],
        sig,
    ) == Ok::<Seq<SpecDataType>, SpecFunctionError>(seq![t]) by {
        let valids = spec_valid_types(sig, seq![t])->Ok_0;
        assert(valids[0] =~= seq![SpecDataType::Utf8]);
        assert(valids[1] =~= seq![SpecDataType::LargeUtf8]);
        if t == SpecDataType::Utf8 {
            assert(valids.contains(seq![t]));
        } else {
            assert(valids.contains(seq![t]));
        }
    }
    assert(spec_data_types(seq![SpecDataType::Utf8], sig) == Ok::<Seq<SpecDataType>, SpecFunctionError>(
        seq![SpecDataType::Utf8],
    ));
    assert(spec_data_types(seq![SpecDataType::LargeUtf8], sig) == Ok::<
        Seq<SpecDataType>,
        SpecFunctionError,
    >(seq![SpecDataType::LargeUtf8]));
    assert forall|ts: Seq<SpecDataType>| ts.len() != 1 implies #[trigger] fun.spec_return_type(ts) is Err by {
        if ts.len() > 0 {
            if spec_data_types(ts, sig) is Ok {
                lemma_data_types_length(ts, sig);
                crate::coercion::lemma_data_types_accepted(ts, sig);
                let valids = spec_valid_types(sig, ts)->Ok_0;
                let coerced = spec_data_types(ts, sig)->Ok_0;
                let k = choose|k: int| 0 <= k < valids.len() && valids[k] == coerced;
                assert(valids[k].len() == 1);
            }
        }
    }
}

/// Columns of one type, numeric, `Boolean` or a string type, make an array
/// of that type as they are, with as many items as there are columns.
pub proof fn lemma_array_of_one_type(ts: Seq<SpecDataType>, t: SpecDataType)
    requires
        0 < ts.len() <= 0x7fff_ffff,
        forall|i: int| 0 <= i < ts.len() ==> ts[i] == t,
        spec_is_numeric(t) || t == SpecDataType::Boolean || t == SpecDataType::Utf8 || t
            == SpecDataType::LargeUtf8,
    ensures
        spec_data_types(ts, BuiltinScalarFunction::Array.spec_signature()) == Ok::<
            Seq<SpecDataType>,
            SpecFunctionError,
        >(ts),
        BuiltinScalarFunction::Array.spec_return_type(ts) == Ok::<SpecDataType, SpecFunctionError>(
            SpecDataType::FixedSizeList(
                Box::new(
                    SpecField {
                        name: "item"@,
                        data_type: t,
                        nullable: true,
                        dict_id: 0,
                        dict_is_ordered: false,
                        metadata: None,
                    },
                ),
                ts.len() as i32,
            ),
        ),
{
    let sig = BuiltinScalarFunction::Array.spec_signature();
    let vs = crate::functions::spec_supported_array_types();
    let valids = spec_valid_types(sig, ts)->Ok_0;
    assert(vs =~= seq![
        SpecDataType::Boolean,
        SpecDataType::UInt8,
        SpecDataType::UInt16,
        SpecDataType::UInt32,
        SpecDataType::UInt64,
        SpecDataType::Int8,
        SpecDataType::Int16,
        SpecDataType::Int32,
        SpecDataType::Int64,
        SpecDataType::Float32,
        SpecDataType::Float64,
        SpecDataType::Utf8,
        SpecDataType::LargeUtf8,
    ]);
    assert(vs.contains(t));
    let k = choose|k: int| 0 <= k < vs.len() && vs[k] == t;
    assert(valids[k] =~= ts);
    assert(valids.contains(ts));
    crate::coercion::lemma_accepted_types_unchanged(ts, sig);
}

/// `nullif` of two arguments of one type, numeric or `Boolean`, returns that
/// type and keeps the arguments as they are; any number of arguments but two
/// is refused.
pub proof fn lemma_nullif_one_type(t: SpecDataType, ts: Seq<SpecDataType>)
    requires
        spec_is_numeric(t) || t == SpecDataType::Boolean,
    ensures
        BuiltinScalarFunction::NullIf.spec_return_type(seq![t, t]) == Ok::<SpecDataType, SpecFunctionError>(
            t,
        ),
        spec_data_types(seq![t, t], BuiltinScalarFunction::NullIf.spec_signature()) == Ok::<
            Seq<SpecDataType>,
            SpecFunctionError,
        >(seq![t, t]),
        ts.len() != 2 ==> BuiltinScalarFunction::NullIf.spec_return_type(ts) is Err,
{
    let sig = BuiltinScalarFunction::NullIf.spec_signature();
    let vs = crate::functions::spec_supported_nullif_types();
    let cur = seq![t, t];
    lemma_pair_lists(sig, vs, cur);
    let valids = spec_valid_types(sig, cur)->Ok_0;
    assert(vs =~= seq![
        SpecDataType::Boolean,
        SpecDataType::UInt8,
        SpecDataType::UInt16,
        SpecDataType::UInt32,
        SpecDataType::UInt64,
        SpecDataType::Int8,
        SpecDataType::Int16,
        SpecDataType::Int32,
        SpecDataType::Int64,
        SpecDataType::Float32,
        SpecDataType::Float64,
    ]);
    assert(vs.contains(t));
    let k = choose|k: int| 0 <= k < vs.len() && vs[k] == t;
    assert(valids[k] == cur);
    assert(valids.contains(cur));
    crate::coercion::lemma_accepted_types_unchanged(cur, sig);
    if ts.len() > 0 && ts.len() != 2 {
        if spec_data_types(ts, sig) is Ok {
            lemma_data_types_length(ts, sig);
            crate::coercion::lemma_data_types_accepted(ts, sig);
            let vts = spec_valid_types(sig, ts)->Ok_0;
            let coerced = spec_data_types(ts, sig)->Ok_0;
            let m = choose|m: int| 0 <= m < vts.len() && vts[m] == coerced;
            assert(vts[m].len() == 2);
        }
    }
}

} // verus!
