use scalar_functions::builtin::BuiltinScalarFunction;
use scalar_functions::builtin::BuiltinScalarFunction as F;
use scalar_functions::coercion::data_types;
use scalar_functions::datatype::{DataType, Field, TimeUnit};
use scalar_functions::error::FunctionError;
use scalar_functions::functions::{
    return_type, signature, supported_array_types, supported_nullif_types,
};
use scalar_functions::signature::Signature;

fn nanos() -> DataType {
    DataType::Timestamp(TimeUnit::Nanosecond, None)
}

fn internal(message: &str) -> Result<DataType, FunctionError> {
    Err(FunctionError::Internal(message.to_string()))
}

#[test]
fn signatures_of_the_functions() {
    let strings = Signature::Uniform(1, vec![DataType::Utf8, DataType::LargeUtf8]);
    for fun in [
        BuiltinScalarFunction::Upper,
        BuiltinScalarFunction::Lower,
        BuiltinScalarFunction::Length,
        BuiltinScalarFunction::Trim,
        BuiltinScalarFunction::Ltrim,
        BuiltinScalarFunction::Rtrim,
        BuiltinScalarFunction::MD5,
        BuiltinScalarFunction::SHA224,
        BuiltinScalarFunction::SHA256,
        BuiltinScalarFunction::SHA384,
        BuiltinScalarFunction::SHA512,
    ] {
        assert_eq!(signature(&fun), strings);
    }
    assert_eq!(
        signature(&BuiltinScalarFunction::Concat),
        Signature::Variadic(vec![DataType::Utf8])
    );
    assert_eq!(
        signature(&BuiltinScalarFunction::ToTimestamp),
        Signature::Uniform(1, vec![DataType::Utf8])
    );
    assert_eq!(
        signature(&BuiltinScalarFunction::DateTrunc),
        Signature::Exact(vec![DataType::Utf8, nanos()])
    );
    assert_eq!(
        signature(&BuiltinScalarFunction::Array),
        Signature::Variadic(supported_array_types())
    );
    assert_eq!(
        signature(&BuiltinScalarFunction::NullIf),
        Signature::Uniform(2, supported_nullif_types())
    );
    for fun in [BuiltinScalarFunction::Sqrt, BuiltinScalarFunction::Exp, BuiltinScalarFunction::Trunc] {
        assert_eq!(
            signature(&fun),
            Signature::Uniform(1, vec![DataType::Float64, DataType::Float32])
        );
    }
}

#[test]
fn supported_types_lists() {
    let nullif = supported_nullif_types();
    assert_eq!(nullif.len(), 11);
    assert_eq!(nullif[0], DataType::Boolean);
    assert_eq!(nullif[10], DataType::Float64);
    let array = supported_array_types();
    assert_eq!(array.len(), 13);
    assert_eq!(&array[..11], &nullif[..]);
    assert_eq!(array[11], DataType::Utf8);
    assert_eq!(array[12], DataType::LargeUtf8);
}

#[test]
fn string_functions_return_types() {
    assert_eq!(return_type(&F::Length, &[DataType::Utf8]), Ok(DataType::Int32));
    assert_eq!(return_type(&F::Length, &[DataType::LargeUtf8]), Ok(DataType::Int64));
    for fun in [F::Lower, F::Upper, F::Trim, F::Ltrim, F::Rtrim, F::MD5] {
        assert_eq!(return_type(&fun, &[DataType::Utf8]), Ok(DataType::Utf8));
        assert_eq!(return_type(&fun, &[DataType::LargeUtf8]), Ok(DataType::LargeUtf8));
    }
    for fun in [F::SHA224, F::SHA256, F::SHA384, F::SHA512] {
        assert_eq!(return_type(&fun, &[DataType::Utf8]), Ok(DataType::Binary));
        assert_eq!(return_type(&fun, &[DataType::LargeUtf8]), Ok(DataType::Binary));
    }
}

#[test]
fn string_functions_reject_other_types_internally() {
    // any type coerces to Utf8, but the return type looks at the given type
    assert_eq!(
        return_type(&F::Length, &[DataType::Int32]),
        internal("The length function can only accept strings.")
    );
    assert_eq!(
        return_type(&F::Lower, &[DataType::Float64]),
        internal("The upper function can only accept strings.")
    );
    assert_eq!(
        return_type(&F::Upper, &[DataType::Boolean]),
        internal("The upper function can only accept strings.")
    );
    assert_eq!(
        return_type(&F::Trim, &[DataType::Int8]),
        internal("The trim function can only accept strings.")
    );
    assert_eq!(
        return_type(&F::Ltrim, &[DataType::Int8]),
        internal("The ltrim function can only accept strings.")
    );
    assert_eq!(
        return_type(&F::Rtrim, &[DataType::Int8]),
        internal("The rtrim function can only accept strings.")
    );
    assert_eq!(
        return_type(&F::MD5, &[DataType::UInt64]),
        internal("The md5 function can only accept strings.")
    );
    assert_eq!(
        return_type(&F::SHA224, &[DataType::Binary]),
        internal("The sha224 function can only accept strings.")
    );
    assert_eq!(
        return_type(&F::SHA256, &[DataType::Binary]),
        internal("The sha256 function can only accept strings.")
    );
    assert_eq!(
        return_type(&F::SHA384, &[DataType::Binary]),
        internal("The sha384 function can only accept strings.")
    );
    assert_eq!(
        return_type(&F::SHA512, &[DataType::Binary]),
        internal("The sha512 function can only accept strings.")
    );
}

#[test]
fn string_functions_take_one_argument() {
    let result = return_type(&BuiltinScalarFunction::Upper, &[DataType::Utf8, DataType::Utf8]);
    assert_eq!(
        result,
        Err(FunctionError::Coercion {
            arg_types: vec![DataType::Utf8, DataType::Utf8],
            signature: Signature::Uniform(1, vec![DataType::Utf8, DataType::LargeUtf8]),
        })
    );
}

#[test]
fn other_return_types() {
    assert_eq!(
        return_type(&F::Concat, &[DataType::Utf8, DataType::Int32, DataType::Float64]),
        Ok(DataType::Utf8)
    );
    assert_eq!(return_type(&F::ToTimestamp, &[DataType::Utf8]), Ok(nanos()));
    assert_eq!(return_type(&F::DateTrunc, &[DataType::Utf8, nanos()]), Ok(nanos()));
    assert_eq!(
        return_type(&F::Array, &[DataType::Int32, DataType::Int32, DataType::Int32]),
        Ok(DataType::FixedSizeList(Box::new(Field::new("item", DataType::Int32, true)), 3))
    );
    // the item type is the type of the first argument as given
    assert_eq!(
        return_type(&F::Array, &[DataType::UInt32, DataType::UInt64]),
        Ok(DataType::FixedSizeList(Box::new(Field::new("item", DataType::UInt32, true)), 2))
    );
    for fun in [F::Sqrt, F::Sin, F::Log10, F::Abs, F::Signum, F::Round] {
        assert_eq!(return_type(&fun, &[DataType::Int64]), Ok(DataType::Float64));
        assert_eq!(return_type(&fun, &[DataType::Float32]), Ok(DataType::Float64));
    }
}

#[test]
fn nullif_returns_the_coerced_type() {
    let f = BuiltinScalarFunction::NullIf;
    assert_eq!(return_type(&f, &[DataType::Int8, DataType::Int8]), Ok(DataType::Int8));
    assert_eq!(return_type(&f, &[DataType::UInt8, DataType::Int32]), Ok(DataType::Int32));
    assert_eq!(return_type(&f, &[DataType::Int32, DataType::UInt16]), Ok(DataType::Int32));
    assert_eq!(return_type(&f, &[DataType::Float32, DataType::Int64]), Ok(DataType::Float32));
    assert!(matches!(
        return_type(&f, &[DataType::Utf8, DataType::Utf8]),
        Err(FunctionError::Coercion { .. })
    ));
    assert!(return_type(&f, &[DataType::Int8]).is_err());
}

#[test]
fn no_argument_is_a_planning_error_for_every_function() {
    assert_eq!(
        return_type(&F::Concat, &[]),
        Err(FunctionError::Plan("Function 'concat' requires at least one argument".to_string()))
    );
    assert_eq!(
        return_type(&F::ToTimestamp, &[]),
        Err(FunctionError::Plan(
            "Function 'totimestamp' requires at least one argument".to_string()
        ))
    );
    for fun in [F::Sqrt, F::Array, F::NullIf, F::DateTrunc, F::Length, F::SHA256] {
        assert_eq!(
            return_type(&fun, &[]),
            Err(FunctionError::Plan(format!(
                "Function '{}' requires at least one argument",
                fun.to_string()
            )))
        );
    }
}

#[test]
fn coerced_arguments_have_a_return_type() {
    let cases: Vec<(F, Vec<DataType>)> = vec![
        (F::Length, vec![DataType::Int32]),
        (F::Upper, vec![DataType::Float64]),
        (F::SHA256, vec![DataType::Boolean]),
        (F::Exp, vec![DataType::UInt8]),
        (F::Array, vec![DataType::Int8, DataType::UInt64]),
        (F::NullIf, vec![DataType::UInt8, DataType::Int16]),
        (F::Concat, vec![DataType::Int64, DataType::Boolean]),
    ];
    for (fun, types) in cases {
        let coerced = data_types(&types, &signature(&fun)).unwrap();
        assert!(return_type(&fun, &coerced).is_ok(), "{:?} {:?}", fun, types);
    }
    // but the internal error comes where the given types are not coerced
    assert!(return_type(&F::Length, &[DataType::Int32]).is_err());
}
