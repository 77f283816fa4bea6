//! What each built-in function accepts and what it returns: its signature,
//! and its return type for given argument types.

use crate::builtin::BuiltinScalarFunction;
use crate::coercion::{
    data_types, lemma_data_types_accepted, lemma_data_types_idempotent, lemma_data_types_length,
    spec_can_coerce_from, spec_coercible, spec_data_types, spec_repeat, spec_valid_types,
};
use crate::datatype::{DataType, Field, SpecDataType, SpecField, TimeUnit};
use crate::error::{spec_result, FunctionError, SpecFunctionError};
use crate::signature::{spec_types, Signature, SpecSignature};
use vstd::prelude::*;

verus! {

/// What a function of one string returns: `for_large` on a `LargeUtf8`,
/// `for_utf8` on a `Utf8`; `word` names it in the error on any other type.
pub struct StringResult {
    pub for_large: SpecDataType,
    pub for_utf8: SpecDataType,
    pub word: Seq<char>,
}

impl BuiltinScalarFunction {
    /// The functions of one string argument, with what they return.
    pub open spec fn spec_string_result(self) -> Option<StringResult> {
        match self {
            Self::Length => Some(
                StringResult {
                    for_large: SpecDataType::Int64,
                    for_utf8: SpecDataType::Int32,
                    word: "length"@,
                },
            ),
            Self::Lower => Some(
                StringResult {
                    for_large: SpecDataType::LargeUtf8,
                    for_utf8: SpecDataType::Utf8,
                    word: "upper"@,
                },
            ),
            Self::Upper => Some(
                StringResult {
                    for_large: SpecDataType::LargeUtf8,
                    for_utf8: SpecDataType::Utf8,
                    word: "upper"@,
                },
            ),
            Self::Trim => Some(
                StringResult {
                    for_large: SpecDataType::LargeUtf8,
                    for_utf8: SpecDataType::Utf8,
                    word: "trim"@,
                },
            ),
            Self::Ltrim => Some(
                StringResult {
                    for_large: SpecDataType::LargeUtf8,
                    for_utf8: SpecDataType::Utf8,
                    word: "ltrim"@,
                },
            ),
            Self::Rtrim => Some(
                StringResult {
                    for_large: SpecDataType::LargeUtf8,
                    for_utf8: SpecDataType::Utf8,
                    word: "rtrim"@,
                },
            ),
            Self::MD5 => Some(
                StringResult {
                    for_large: SpecDataType::LargeUtf8,
                    for_utf8: SpecDataType::Utf8,
                    word: "md5"@,
                },
            ),
            Self::SHA224 => Some(
                StringResult {
                    for_large: SpecDataType::Binary,
                    for_utf8: SpecDataType::Binary,
                    word: "sha224"@,
                },
            ),
            Self::SHA256 => Some(
                StringResult {
                    for_large: SpecDataType::Binary,
                    for_utf8: SpecDataType::Binary,
                    word: "sha256"@,
                },
            ),
            Self::SHA384 => Some(
                StringResult {
                    for_large: SpecDataType::Binary,
                    for_utf8: SpecDataType::Binary,
                    word: "sha384"@,
                },
            ),
            Self::SHA512 => Some(
                StringResult {
                    for_large: SpecDataType::Binary,
                    for_utf8: SpecDataType::Binary,
                    word: "sha512"@,
                },
            ),
            _ => None,
        }
    }

    /// The signature of the function.
    pub open spec fn spec_signature(self) -> SpecSignature {
        if self.spec_string_result() is Some {
            SpecSignature::Uniform(1, spec_string_types())
        } else {
            match self {
                Self::Concat => SpecSignature::Variadic(seq![SpecDataType::Utf8]),
                Self::ToTimestamp => SpecSignature::Uniform(1, seq![SpecDataType::Utf8]),
                Self::DateTrunc => SpecSignature::Exact(seq![SpecDataType::Utf8, spec_nanoseconds()]),
                Self::Array => SpecSignature::Variadic(spec_supported_array_types()),
                Self::NullIf => SpecSignature::Uniform(2, spec_supported_nullif_types()),
                // the mathematical functions: a float, preferably of 64 bits
                _ => SpecSignature::Uniform(1, seq![SpecDataType::Float64, SpecDataType::Float32]),
            }
        }
    }

    /// The type that the function returns for arguments of the types
    /// `arg_types`, or why it has none: the argument types must be coercible
    /// to the signature, there must be at least one argument, and a function
    /// of one string must be given a string type.
    pub open spec fn spec_return_type(self, arg_types: Seq<SpecDataType>) -> Result<
        SpecDataType,
        SpecFunctionError,
    > {
        match spec_data_types(arg_types, self.spec_signature()) {
            Err(e) => Err(e),
            Ok(coerced) => if arg_types.len() == 0 {
                Err(SpecFunctionError::Plan(spec_no_argument_message(self)))
            } else if let Some(result) = self.spec_string_result() {
                match arg_types[0] {
                    SpecDataType::LargeUtf8 => Ok(result.for_large),
                    SpecDataType::Utf8 => Ok(result.for_utf8),
                    _ => Err(SpecFunctionError::Internal(spec_not_a_string_message(result.word))),
                }
            } else {
                match self {
                    Self::Concat => Ok(SpecDataType::Utf8),
                    Self::ToTimestamp | Self::DateTrunc => Ok(spec_nanoseconds()),
                    Self::Array => Ok(
                        SpecDataType::FixedSizeList(
                            Box::new(spec_item_field(arg_types[0])),
                            arg_types.len() as i32,
                        ),
                    ),
                    // both arguments are coerced to one type, which is returned
                    Self::NullIf => Ok(coerced[0]),
                    _ => Ok(SpecDataType::Float64),
                }
            },
        }
    }
}

/// A timestamp in nanoseconds, without time zone.
pub open spec fn spec_nanoseconds() -> SpecDataType {
    SpecDataType::Timestamp(TimeUnit::Nanosecond, None)
}

/// The message of the error for a call without arguments.
pub open spec fn spec_no_argument_message(fun: BuiltinScalarFunction) -> Seq<char> {
    "Function '"@ + fun.spec_name() + "' requires at least one argument"@
}

/// The message of the error for a function of one string, named by `word`,
/// given another type.
pub open spec fn spec_not_a_string_message(word: Seq<char>) -> Seq<char> {
    "The "@ + word + " function can only accept strings."@
}

/// The field of the items of a fixed-size list of values of type `t`.
pub open spec fn spec_item_field(t: SpecDataType) -> SpecField {
    SpecField {
        name: "item"@,
        data_type: t,
        nullable: true,
        dict_id: 0,
        dict_is_ordered: false,
        metadata: None,
    }
}

/// The two string types.
pub open spec fn spec_string_types() -> Seq<SpecDataType> {
    seq![SpecDataType::Utf8, SpecDataType::LargeUtf8]
}

/// The types that `array` accepts, from the least to the most informative:
/// the order in which coercion tries them.
pub open spec fn spec_supported_array_types() -> Seq<SpecDataType> {
    spec_supported_nullif_types() + seq![SpecDataType::Utf8, SpecDataType::LargeUtf8]
}

/// The types that `nullif` accepts, from the least to the most informative:
/// the order in which coercion tries them.
pub open spec fn spec_supported_nullif_types() -> Seq<SpecDataType> {
    seq![
        SpecDataType::Boolean,
        SpecDataType::UInt8,
        SpecDataType::UInt16,
        SpecDataType::UInt32,
        SpecDataType::UInt64,
        SpecDataType::Int8,
        SpecDataType::Int16,
        SpecDataType::Int32,
        SpecDataType::Int64,
        SpecDataType::Float32,
        SpecDataType::Float64,
    ]
}

/// The types that `nullif` accepts, in the order in which coercion tries them.
pub fn supported_nullif_types() -> (v: Vec<DataType>)
    ensures
        spec_types(v@) == spec_supported_nullif_types(),
{
    let v = vec![
        DataType::Boolean,
        DataType::UInt8,
        DataType::UInt16,
        DataType::UInt32,
        DataType::UInt64,
        DataType::Int8,
        DataType::Int16,
        DataType::Int32,
        DataType::Int64,
        DataType::Float32,
        DataType::Float64,
    ];
    assert(spec_types(v@) =~= spec_supported_nullif_types());
    v
}

/// The types that `array` accepts, in the order in which coercion tries them.
pub fn supported_array_types() -> (v: Vec<DataType>)
    ensures
        spec_types(v@) == spec_supported_array_types(),
{
    let mut v = supported_nullif_types();
    v.push(DataType::Utf8);
    v.push(DataType::LargeUtf8);
    assert(spec_types(v@) =~= spec_supported_array_types());
    v
}

fn types_of(a: DataType, b: DataType) -> (v: Vec<DataType>)
    ensures
        spec_types(v@) == seq![a@, b@],
{
    let v = vec![a, b];
    assert(spec_types(v@) =~= seq![a@, b@]);
    v
}

fn type_of(a: DataType) -> (v: Vec<DataType>)
    ensures
        spec_types(v@) == seq![a@],
{
    let v = vec![a];
    assert(spec_types(v@) =~= seq![a@]);
    v
}

impl BuiltinScalarFunction {
    /// The types that a function of one string returns for a `LargeUtf8`
    /// and for a `Utf8`, and the word that names it in the error for any
    /// other type.
    fn string_result(&self) -> (r: Option<(DataType, DataType, &'static str)>)
        ensures
            match self.spec_string_result() {
                Some(s) => r matches Some(t) && t.0@ == s.for_large && t.1@ == s.for_utf8 && t.2@
                    == s.word,
                None => r is None,
            },
    {
        match self {
            Self::Length => Some((DataType::Int64, DataType::Int32, "length")),
            Self::Lower | Self::Upper => Some((DataType::LargeUtf8, DataType::Utf8, "upper")),
            Self::Trim => Some((DataType::LargeUtf8, DataType::Utf8, "trim")),
            Self::Ltrim => Some((DataType::LargeUtf8, DataType::Utf8, "ltrim")),
            Self::Rtrim => Some((DataType::LargeUtf8, DataType::Utf8, "rtrim")),
            Self::MD5 => Some((DataType::LargeUtf8, DataType::Utf8, "md5")),
            Self::SHA224 => Some((DataType::Binary, DataType::Binary, "sha224")),
            Self::SHA256 => Some((DataType::Binary, DataType::Binary, "sha256")),
            Self::SHA384 => Some((DataType::Binary, DataType::Binary, "sha384")),
            Self::SHA512 => Some((DataType::Binary, DataType::Binary, "sha512")),
            _ => None,
        }
    }
}

/// The signature of the function `fun`: the argument types it accepts.
pub fn signature(fun: &BuiltinScalarFunction) -> (s: Signature)
    ensures
        s@ == fun.spec_signature(),
{
    if fun.string_result().is_some() {
        return Signature::Uniform(1, types_of(DataType::Utf8, DataType::LargeUtf8));
    }
    match fun {
        BuiltinScalarFunction::Concat => Signature::Variadic(type_of(DataType::Utf8)),
        BuiltinScalarFunction::ToTimestamp => Signature::Uniform(1, type_of(DataType::Utf8)),
        BuiltinScalarFunction::DateTrunc => Signature::Exact(
            types_of(DataType::Utf8, DataType::Timestamp(TimeUnit::Nanosecond, None)),
        ),
        BuiltinScalarFunction::Array => Signature::Variadic(supported_array_types()),
        BuiltinScalarFunction::NullIf => Signature::Uniform(2, supported_nullif_types()),
        _ => Signature::Uniform(1, types_of(DataType::Float64, DataType::Float32)),
    }
}

/// The data type that the function `fun` returns for arguments of the types
/// `arg_types`, or why it has none.
pub fn return_type(fun: &BuiltinScalarFunction, arg_types: &[DataType]) -> (r: Result<
    DataType,
    FunctionError,
>)
    ensures
        spec_result(r) == fun.spec_return_type(spec_types(arg_types@)),
{
    let ghost args = spec_types(arg_types@);
    // the argument types must fit the signature, after coercion
    let coerced = match data_types(arg_types, &signature(fun)) {
        Ok(types) => types,
        Err(e) => {
            return Err(e);
        },
    };
    proof {
        lemma_data_types_length(args, fun.spec_signature());
    }
    if arg_types.len() == 0 {
        // without an argument, a call cannot know how many rows it has
        let mut message = String::from_str("Function '");
        message.append(fun.name());
        message.append("' requires at least one argument");
        return Err(FunctionError::Plan(message));
    }
    if let Some((for_large, for_utf8, word)) = fun.string_result() {
        return match &arg_types[0] {
            DataType::LargeUtf8 => Ok(for_large),
            DataType::Utf8 => Ok(for_utf8),
            _ => {
                let mut message = String::from_str("The ");
                message.append(word);
                message.append(" function can only accept strings.");
                Err(FunctionError::Internal(message))
            },
        };
    }
    match fun {
        BuiltinScalarFunction::Concat => Ok(DataType::Utf8),
        BuiltinScalarFunction::ToTimestamp | BuiltinScalarFunction::DateTrunc => Ok(
            DataType::Timestamp(TimeUnit::Nanosecond, None),
        ),
        BuiltinScalarFunction::Array => {
            let item = Field::new("item", arg_types[0].clone(), true);
            Ok(DataType::FixedSizeList(Box::new(item), arg_types.len() as i32))
        },
        BuiltinScalarFunction::NullIf => Ok(coerced[0].clone()),
        _ => Ok(DataType::Float64),
    }
}

/// No function can be planned without arguments: for no argument, every
/// function answers with a planning error.
pub proof fn lemma_no_argument_rejected(fun: BuiltinScalarFunction)
    ensures
        fun.spec_return_type(Seq::empty()) == Err::<SpecDataType, SpecFunctionError>(
            SpecFunctionError::Plan(spec_no_argument_message(fun)),
        ),
{
}

/// Every function has a return type for the types that its arguments are
/// coerced to: once at least one argument has been coerced to the signature,
/// no error remains, the internal errors of the functions of one string among
/// them.
pub proof fn lemma_coerced_arguments_have_return_type(
    fun: BuiltinScalarFunction,
    arg_types: Seq<SpecDataType>,
)
    requires
        arg_types.len() > 0,
        spec_data_types(arg_types, fun.spec_signature()) is Ok,
    ensures
        fun.spec_return_type(spec_data_types(arg_types, fun.spec_signature())->Ok_0) is Ok,
{
    let sig = fun.spec_signature();
    let coerced = spec_data_types(arg_types, sig)->Ok_0;
    lemma_data_types_length(arg_types, sig);
    lemma_data_types_idempotent(arg_types, sig);
    lemma_data_types_accepted(arg_types, sig);
    let valids = spec_valid_types(sig, arg_types)->Ok_0;
    let k = choose|k: int| 0 <= k < valids.len() && valids[k] == coerced;
    if let SpecSignature::Uniform(n, vs) = sig {
        assert(valids[k] == spec_repeat(vs[k], n as nat));
        assert(coerced[0] == vs[k]);
    }
}

/// A function of one float coerces a numeric argument to `Float64`, the type
/// of the best approximation, but keeps a `Float32` argument as it is.
pub proof fn lemma_float_functions_prefer_float64(fun: BuiltinScalarFunction, t: SpecDataType)
    requires
        fun.spec_signature() == SpecSignature::Uniform(
            1,
            seq![SpecDataType::Float64, SpecDataType::Float32],
        ),
        spec_can_coerce_from(SpecDataType::Float64, t),
    ensures
        spec_data_types(seq![t], fun.spec_signature()) == Ok::<Seq<SpecDataType>, SpecFunctionError>(
            if t == SpecDataType::Float32 {
                seq![SpecDataType::Float32]
            } else {
                seq![SpecDataType::Float64]
            },
        ),
{
    let sig = fun.spec_signature();
    let valids = spec_valid_types(sig, seq![t])->Ok_0;
    assert(valids[0] =~= seq![SpecDataType::Float64]);
    assert(valids[1] =~= seq![SpecDataType::Float32]);
    if t == SpecDataType::Float32 {
        assert(valids.contains(seq![t]));
    } else if t == SpecDataType::Float64 {
        assert(valids.contains(seq![t]));
    } else {
        assert(!valids.contains(seq![t])) by {
            if valids.contains(seq![t]) {
                let k = choose|k: int| 0 <= k < valids.len() && valids[k] == seq![t];
                assert(valids[k][0] == t);
            }
        }
        assert(spec_coercible(valids[0], seq![t]));
    }
}

/// A function of one float returns a `Float64` for any numeric argument.
pub proof fn lemma_float_functions_return_float64(fun: BuiltinScalarFunction, t: SpecDataType)
    requires
        fun.spec_signature() == SpecSignature::Uniform(
            1,
            seq![SpecDataType::Float64, SpecDataType::Float32],
        ),
        spec_can_coerce_from(SpecDataType::Float64, t),
    ensures
        fun.spec_return_type(seq![t]) == Ok::<SpecDataType, SpecFunctionError>(SpecDataType::Float64),
{
    lemma_float_functions_prefer_float64(fun, t);
    assert(fun.spec_string_result() is None) by {
        if fun.spec_string_result() is Some {
            assert(spec_string_types()[0] == SpecDataType::Utf8);
        }
    }
}

} // verus!
