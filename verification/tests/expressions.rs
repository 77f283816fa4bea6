use scalar_functions::builtin::BuiltinScalarFunction;
use scalar_functions::datatype::{DataType, DateUnit, Field, IntervalUnit, TimeUnit};
use scalar_functions::error::FunctionError;
use scalar_functions::expr::{
    batch_length, create_physical_expr, large_utf8_length, utf8_length, ScalarFunctionExpr,
};

#[test]
fn new_expression_keeps_its_parts() {
    let e = ScalarFunctionExpr::new("f", 7u8, vec!["a", "b"], &DataType::Int16);
    assert_eq!(e.name(), "f");
    assert_eq!(*e.fun(), 7u8);
    assert_eq!(e.args(), &["a", "b"][..]);
    assert_eq!(e.return_type(), &DataType::Int16);
    assert_eq!(e.data_type(), DataType::Int16);
    assert!(e.nullable());
}

fn tag_cast(e: String, t: &DataType) -> Result<String, FunctionError> {
    Ok(format!("{}::{:?}", e, t))
}

#[test]
fn created_expression_is_named_and_typed_after_its_function() {
    let e = create_physical_expr(
        &BuiltinScalarFunction::ToTimestamp,
        "kernel",
        vec!["s".to_string()],
        &[DataType::Utf8],
        tag_cast,
    )
    .unwrap();
    assert_eq!(e.name(), "totimestamp");
    assert_eq!(*e.fun(), "kernel");
    assert_eq!(e.args(), &["s::Utf8".to_string()][..]);
    assert_eq!(e.data_type(), DataType::Timestamp(TimeUnit::Nanosecond, None));
}

#[test]
fn created_expression_casts_its_arguments_to_the_coerced_types() {
    // array over a UInt32 and a UInt64 column: both become UInt64
    let e = create_physical_expr(
        &BuiltinScalarFunction::Array,
        (),
        vec!["a".to_string(), "b".to_string()],
        &[DataType::UInt32, DataType::UInt64],
        tag_cast,
    )
    .unwrap();
    assert_eq!(e.args(), &["a::UInt64".to_string(), "b::UInt64".to_string()][..]);
    assert_eq!(
        e.data_type(),
        DataType::FixedSizeList(Box::new(Field::new("item", DataType::UInt64, true)), 2)
    );
    // length over an Int32 column: the argument is cast to Utf8
    let e = create_physical_expr(
        &BuiltinScalarFunction::Length,
        (),
        vec!["n".to_string()],
        &[DataType::Int32],
        tag_cast,
    )
    .unwrap();
    assert_eq!(e.args(), &["n::Utf8".to_string()][..]);
    assert_eq!(e.data_type(), DataType::Int32);
    // a mathematical function over an Int32: cast to Float64
    let e = create_physical_expr(
        &BuiltinScalarFunction::Sqrt,
        (),
        vec!["x".to_string()],
        &[DataType::Int32],
        tag_cast,
    )
    .unwrap();
    assert_eq!(e.args(), &["x::Float64".to_string()][..]);
    assert_eq!(e.data_type(), DataType::Float64);
}

#[test]
fn creating_an_expression_fails_with_the_first_error() {
    // no argument: the return type's error
    let r = create_physical_expr(&BuiltinScalarFunction::Concat, (), Vec::<String>::new(), &[], tag_cast);
    assert!(matches!(r, Err(FunctionError::Plan(m)) if m == "Function 'concat' requires at least one argument"));
    // types that cannot be coerced: the coercion error, before any cast
    let r = create_physical_expr(
        &BuiltinScalarFunction::NullIf,
        (),
        vec!["a".to_string()],
        &[DataType::Int8],
        |_e: String, _t: &DataType| -> Result<String, FunctionError> { panic!("no cast expected") },
    );
    assert!(matches!(r, Err(FunctionError::Coercion { .. })));
    // a failing cast: its error
    let r = create_physical_expr(
        &BuiltinScalarFunction::Sqrt,
        (),
        vec!["x".to_string()],
        &[DataType::Int64],
        |_e: String, _t: &DataType| -> Result<String, FunctionError> {
            Err(FunctionError::Plan("cannot cast".to_string()))
        },
    );
    assert_eq!(r.err(), Some(FunctionError::Plan("cannot cast".to_string())));
}

#[test]
fn expression_text() {
    let e = ScalarFunctionExpr::new("concat", (), vec![(), ()], &DataType::Utf8);
    assert_eq!(e.display(&["a".to_string(), "'x'".to_string()]), "concat(a, 'x')");
    assert_eq!(e.display(&["a".to_string()]), "concat(a)");
    assert_eq!(e.display(&[]), "concat()");
    assert_eq!(
        e.display(&["a".to_string(), "b".to_string(), "c".to_string()]),
        "concat(a, b, c)"
    );
}

#[test]
fn batch_length_is_the_length_of_the_last_array() {
    assert_eq!(batch_length(&[]), None);
    assert_eq!(batch_length(&[None, None]), None);
    assert_eq!(batch_length(&[Some(3), None]), Some(3));
    assert_eq!(batch_length(&[Some(3), None, Some(5), None]), Some(5));
    assert_eq!(batch_length(&[None, Some(0)]), Some(0));
}

#[test]
fn length_of_string_scalars_in_bytes() {
    assert_eq!(utf8_length(&Some("hello".to_string())), Some(5));
    assert_eq!(utf8_length(&Some("héllo".to_string())), Some(6));
    assert_eq!(utf8_length(&Some(String::new())), Some(0));
    assert_eq!(utf8_length(&None), None);
    assert_eq!(large_utf8_length(&Some("日本".to_string())), Some(6i64));
    assert_eq!(large_utf8_length(&None), None);
}

#[test]
fn data_type_equality_looks_at_every_part() {
    let utc = DataType::Timestamp(TimeUnit::Second, Some("UTC".to_string()));
    assert_eq!(utc, DataType::Timestamp(TimeUnit::Second, Some("UTC".to_string())));
    assert_ne!(utc, DataType::Timestamp(TimeUnit::Second, Some("Europe/Paris".to_string())));
    assert_ne!(utc, DataType::Timestamp(TimeUnit::Second, None));
    assert_ne!(utc, DataType::Timestamp(TimeUnit::Millisecond, Some("UTC".to_string())));
    assert_ne!(DataType::Date32(DateUnit::Day), DataType::Date32(DateUnit::Millisecond));
    assert_ne!(DataType::Interval(IntervalUnit::YearMonth), DataType::Interval(IntervalUnit::DayTime));
    assert_ne!(DataType::Int32, DataType::UInt32);
    assert_ne!(DataType::Decimal(10, 2), DataType::Decimal(10, 3));

    let item = Field::new("item", DataType::Int32, true);
    let list = DataType::FixedSizeList(Box::new(item.clone()), 2);
    assert_eq!(list, DataType::FixedSizeList(Box::new(Field::new("item", DataType::Int32, true)), 2));
    assert_ne!(list, DataType::FixedSizeList(Box::new(Field::new("item", DataType::Int32, false)), 2));
    assert_ne!(list, DataType::FixedSizeList(Box::new(Field::new("x", DataType::Int32, true)), 2));
    assert_ne!(list, DataType::FixedSizeList(Box::new(item.clone()), 3));
    assert_ne!(list, DataType::List(Box::new(item.clone())));

    let mut tagged = item.clone();
    tagged.metadata = Some(vec![("k".to_string(), "v".to_string())]);
    assert_ne!(item, tagged);
    let mut tagged2 = item.clone();
    tagged2.metadata = Some(vec![("k".to_string(), "w".to_string())]);
    assert_ne!(tagged, tagged2);
    assert_eq!(tagged, tagged.clone());

    let s1 = DataType::Struct(vec![item.clone(), Field::new("b", DataType::Utf8, false)]);
    let s2 = DataType::Struct(vec![item.clone(), Field::new("b", DataType::Utf8, false)]);
    let s3 = DataType::Struct(vec![item.clone()]);
    assert_eq!(s1, s2);
    assert_ne!(s1, s3);
    assert_ne!(s1, DataType::Union(vec![item.clone(), Field::new("b", DataType::Utf8, false)]));

    let d = DataType::Dictionary(Box::new(DataType::Int8), Box::new(DataType::Utf8));
    assert_eq!(d, d.clone());
    assert_ne!(d, DataType::Dictionary(Box::new(DataType::Int16), Box::new(DataType::Utf8)));
}

#[test]
fn clone_keeps_nested_types() {
    let mut f = Field::new("inner", DataType::LargeList(Box::new(Field::new("x", DataType::Float16, true))), false);
    f.dict_id = 4;
    f.dict_is_ordered = true;
    f.metadata = Some(vec![("a".to_string(), "1".to_string()), ("b".to_string(), "2".to_string())]);
    let t = DataType::Struct(vec![f]);
    let c = t.clone();
    assert_eq!(c, t);
    assert_eq!(format!("{:?}", c), format!("{:?}", t));
}

#[test]
fn new_field_has_no_dictionary_and_no_metadata() {
    let f = Field::new("n", DataType::Boolean, true);
    assert_eq!(f.name, "n");
    assert_eq!(f.data_type, DataType::Boolean);
    assert!(f.nullable);
    assert_eq!(f.dict_id, 0);
    assert!(!f.dict_is_ordered);
    assert_eq!(f.metadata, None);
}

#[test]
fn evaluation_applies_the_function_to_the_argument_values() {
    let sum = |values: &[i64]| -> Result<i64, String> { Ok(values.iter().sum()) };
    let e = ScalarFunctionExpr::new("sum", sum, vec![1, 2, 3], &DataType::Int64);
    let r = e.evaluate(|a: &i32| -> Result<i64, String> { Ok(*a as i64 * 10) });
    assert_eq!(r, Ok(60));
    // the first failing argument decides
    let r = e.evaluate(|a: &i32| -> Result<i64, String> {
        if *a >= 2 { Err(format!("bad {}", a)) } else { Ok(0) }
    });
    assert_eq!(r, Err("bad 2".to_string()));
    // the function's own error
    let fail = |_values: &[i64]| -> Result<i64, String> { Err("kernel".to_string()) };
    let e = ScalarFunctionExpr::new("f", fail, vec![1], &DataType::Int64);
    assert_eq!(e.evaluate(|a: &i32| -> Result<i64, String> { Ok(*a as i64) }), Err("kernel".to_string()));
}

#[test]
fn result_is_scalar_exactly_when_every_argument_is() {
    assert!(batch_length(&[None, None, None]).is_none());
    assert!(batch_length(&[None, Some(4), None]).is_some());
    assert!(batch_length(&[Some(0)]).is_some());
}

fn with_metadata(pairs: &[(&str, &str)]) -> Field {
    let mut f = Field::new("f", DataType::Utf8, true);
    f.metadata = Some(pairs.iter().map(|(k, v)| (k.to_string(), v.to_string())).collect());
    f
}

#[test]
fn field_metadata_is_compared_as_a_map() {
    // the order of the pairs does not matter
    assert_eq!(with_metadata(&[("a", "1"), ("b", "2")]), with_metadata(&[("b", "2"), ("a", "1")]));
    // a key given twice keeps its last value
    assert_eq!(with_metadata(&[("a", "1"), ("a", "2")]), with_metadata(&[("a", "2")]));
    assert_ne!(with_metadata(&[("a", "2"), ("a", "1")]), with_metadata(&[("a", "2")]));
    // keys and values must all agree
    assert_ne!(with_metadata(&[("a", "1")]), with_metadata(&[("a", "1"), ("b", "2")]));
    assert_ne!(with_metadata(&[("a", "1"), ("b", "2")]), with_metadata(&[("a", "1")]));
    assert_ne!(with_metadata(&[("a", "1")]), with_metadata(&[("a", "3")]));
    // no metadata differs from empty metadata
    assert_ne!(with_metadata(&[]), Field::new("f", DataType::Utf8, true));
    assert_eq!(with_metadata(&[]), with_metadata(&[]));
}

#[test]
fn the_first_failing_cast_decides() {
    // both casts fail: the first argument's error is returned
    let r = create_physical_expr(
        &BuiltinScalarFunction::Array,
        (),
        vec!["a".to_string(), "b".to_string()],
        &[DataType::UInt32, DataType::UInt64],
        |e: String, _t: &DataType| -> Result<String, FunctionError> {
            Err(FunctionError::Plan(format!("cannot cast {}", e)))
        },
    );
    assert_eq!(r.err(), Some(FunctionError::Plan("cannot cast a".to_string())));
    // a cast error comes before the return type's error
    let r = create_physical_expr(
        &BuiltinScalarFunction::Length,
        (),
        vec!["n".to_string()],
        &[DataType::Int32],
        |e: String, _t: &DataType| -> Result<String, FunctionError> {
            Err(FunctionError::Plan(format!("cannot cast {}", e)))
        },
    );
    assert_eq!(r.err(), Some(FunctionError::Plan("cannot cast n".to_string())));
}
