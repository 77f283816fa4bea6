use scalar_functions::coercion::{can_coerce_from, data_types, maybe_data_types, valid_types};
use scalar_functions::datatype::DataType::{
    Binary, Boolean, Float16, Float32, Float64, Int16, Int32, Int64, Int8, LargeUtf8, Timestamp,
    UInt16, UInt32, UInt64, UInt8, Utf8,
};
use scalar_functions::datatype::TimeUnit;
use scalar_functions::error::FunctionError;
use scalar_functions::signature::Signature;

#[test]
fn coercion_rules() {
    assert!(can_coerce_from(&Int64, &UInt32));
    assert!(!can_coerce_from(&Int64, &UInt64));
    assert!(can_coerce_from(&Int16, &UInt8));
    assert!(!can_coerce_from(&Int8, &UInt8));
    assert!(can_coerce_from(&UInt64, &UInt8));
    assert!(!can_coerce_from(&UInt8, &Int8));
    assert!(can_coerce_from(&Float32, &Int64));
    assert!(!can_coerce_from(&Float32, &Float64));
    assert!(can_coerce_from(&Float64, &Float32));
    assert!(can_coerce_from(&Utf8, &Boolean));
    assert!(can_coerce_from(&Utf8, &Timestamp(TimeUnit::Second, Some("UTC".to_string()))));
    assert!(!can_coerce_from(&LargeUtf8, &Utf8));
    assert!(!can_coerce_from(&Boolean, &Boolean));
    assert!(!can_coerce_from(&Float16, &Int8));
}

#[test]
fn valid_types_of_each_signature() {
    let current = [Int8, Int16];
    assert_eq!(
        valid_types(&Signature::Variadic(vec![Int32, Utf8]), &current),
        Ok(vec![vec![Int32, Int32], vec![Utf8, Utf8]])
    );
    assert_eq!(
        valid_types(&Signature::Uniform(3, vec![Float64]), &current),
        Ok(vec![vec![Float64, Float64, Float64]])
    );
    assert_eq!(
        valid_types(&Signature::VariadicEqual, &current),
        Ok(vec![vec![Int8, Int8]])
    );
    assert_eq!(
        valid_types(&Signature::Exact(vec![Utf8]), &current),
        Ok(vec![vec![Utf8]])
    );
    assert_eq!(valid_types(&Signature::Any(2), &current), Ok(vec![vec![Int8, Int16]]));
    assert_eq!(
        valid_types(&Signature::Any(1), &current),
        Err(FunctionError::ArgumentCount { expected: 1, received: 2 })
    );
}

#[test]
fn maybe_data_types_cases() {
    assert_eq!(maybe_data_types(&[Int64, Utf8], &[Int8, Utf8]), Some(vec![Int64, Utf8]));
    assert_eq!(maybe_data_types(&[Int64, Utf8], &[Int8]), None);
    assert_eq!(maybe_data_types(&[Int8], &[Int64]), None);
    assert_eq!(maybe_data_types(&[Boolean], &[Boolean]), Some(vec![Boolean]));
    assert_eq!(maybe_data_types(&[], &[]), Some(vec![]));
}

#[test]
fn data_types_cases() {
    // no argument: nothing to coerce
    assert_eq!(data_types(&[], &Signature::Uniform(1, vec![Utf8])), Ok(vec![]));
    assert_eq!(data_types(&[], &Signature::Any(3)), Ok(vec![]));
    // accepted as given
    assert_eq!(
        data_types(&[Float32], &Signature::Uniform(1, vec![Float64, Float32])),
        Ok(vec![Float32])
    );
    // coerced to the first that fits
    assert_eq!(
        data_types(&[Int32], &Signature::Uniform(1, vec![Float64, Float32])),
        Ok(vec![Float64])
    );
    assert_eq!(
        data_types(&[UInt8, Int16], &Signature::Uniform(2, vec![Int8, Int16, Int32])),
        Ok(vec![Int16, Int16])
    );
    // variadic equal: all to the type of the first
    assert_eq!(
        data_types(&[Int64, Int8, UInt32], &Signature::VariadicEqual),
        Ok(vec![Int64, Int64, Int64])
    );
    assert_eq!(
        data_types(&[Int8, Int64], &Signature::VariadicEqual),
        Err(FunctionError::Coercion {
            arg_types: vec![Int8, Int64],
            signature: Signature::VariadicEqual,
        })
    );
    // exact
    let exact = Signature::Exact(vec![Utf8, Timestamp(TimeUnit::Nanosecond, None)]);
    assert_eq!(
        data_types(&[Int8, Timestamp(TimeUnit::Nanosecond, None)], &exact),
        Ok(vec![Utf8, Timestamp(TimeUnit::Nanosecond, None)])
    );
    assert!(data_types(&[Utf8, Timestamp(TimeUnit::Second, None)], &exact).is_err());
    assert!(data_types(&[Utf8], &exact).is_err());
    // any: the count must match, and types are kept
    assert_eq!(
        data_types(&[Binary, Boolean], &Signature::Any(2)),
        Ok(vec![Binary, Boolean])
    );
    assert_eq!(
        data_types(&[Binary, Boolean], &Signature::Any(3)),
        Err(FunctionError::ArgumentCount { expected: 3, received: 2 })
    );
}

#[test]
fn coercion_is_idempotent_and_keeps_the_count() {
    let signatures = vec![
        Signature::Variadic(vec![Int32, Int64, Utf8]),
        Signature::Uniform(2, vec![UInt16, Float64]),
        Signature::VariadicEqual,
        Signature::Exact(vec![Int64, Utf8]),
        Signature::Any(2),
    ];
    let inputs = vec![vec![UInt8, Int16], vec![Int8, Int8], vec![Float32, UInt8]];
    for signature in &signatures {
        for input in &inputs {
            if let Ok(coerced) = data_types(input, signature) {
                assert_eq!(coerced.len(), input.len());
                for (c, i) in coerced.iter().zip(input.iter()) {
                    assert!(c == i || can_coerce_from(c, i));
                }
                assert_eq!(data_types(&coerced, signature), Ok(coerced.clone()));
            }
        }
    }
}

#[test]
fn valid_types_without_arguments() {
    assert_eq!(valid_types(&Signature::VariadicEqual, &[]), Ok(vec![vec![]]));
    assert_eq!(valid_types(&Signature::Variadic(vec![Utf8]), &[]), Ok(vec![vec![]]));
    assert_eq!(
        valid_types(&Signature::Any(1), &[]),
        Err(FunctionError::ArgumentCount { expected: 1, received: 0 })
    );
}
