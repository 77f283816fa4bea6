use scalar_functions::builtin::BuiltinScalarFunction;
use scalar_functions::error::FunctionError;

const ALL: [BuiltinScalarFunction; 33] = [
    BuiltinScalarFunction::Sqrt,
    BuiltinScalarFunction::Sin,
    BuiltinScalarFunction::Cos,
    BuiltinScalarFunction::Tan,
    BuiltinScalarFunction::Asin,
    BuiltinScalarFunction::Acos,
    BuiltinScalarFunction::Atan,
    BuiltinScalarFunction::Exp,
    BuiltinScalarFunction::Log,
    BuiltinScalarFunction::Log2,
    BuiltinScalarFunction::Log10,
    BuiltinScalarFunction::Floor,
    BuiltinScalarFunction::Ceil,
    BuiltinScalarFunction::Round,
    BuiltinScalarFunction::Trunc,
    BuiltinScalarFunction::Abs,
    BuiltinScalarFunction::Signum,
    BuiltinScalarFunction::Length,
    BuiltinScalarFunction::Concat,
    BuiltinScalarFunction::Lower,
    BuiltinScalarFunction::Upper,
    BuiltinScalarFunction::Trim,
    BuiltinScalarFunction::Ltrim,
    BuiltinScalarFunction::Rtrim,
    BuiltinScalarFunction::ToTimestamp,
    BuiltinScalarFunction::Array,
    BuiltinScalarFunction::NullIf,
    BuiltinScalarFunction::DateTrunc,
    BuiltinScalarFunction::MD5,
    BuiltinScalarFunction::SHA224,
    BuiltinScalarFunction::SHA256,
    BuiltinScalarFunction::SHA384,
    BuiltinScalarFunction::SHA512,
];

#[test]
fn parses_each_name() {
    let cases = [
        ("sqrt", BuiltinScalarFunction::Sqrt),
        ("sin", BuiltinScalarFunction::Sin),
        ("cos", BuiltinScalarFunction::Cos),
        ("tan", BuiltinScalarFunction::Tan),
        ("asin", BuiltinScalarFunction::Asin),
        ("acos", BuiltinScalarFunction::Acos),
        ("atan", BuiltinScalarFunction::Atan),
        ("exp", BuiltinScalarFunction::Exp),
        ("log", BuiltinScalarFunction::Log),
        ("log2", BuiltinScalarFunction::Log2),
        ("log10", BuiltinScalarFunction::Log10),
        ("floor", BuiltinScalarFunction::Floor),
        ("ceil", BuiltinScalarFunction::Ceil),
        ("round", BuiltinScalarFunction::Round),
        ("truc", BuiltinScalarFunction::Trunc),
        ("trunc", BuiltinScalarFunction::Trunc),
        ("abs", BuiltinScalarFunction::Abs),
        ("signum", BuiltinScalarFunction::Signum),
        ("length", BuiltinScalarFunction::Length),
        ("char_length", BuiltinScalarFunction::Length),
        ("character_length", BuiltinScalarFunction::Length),
        ("concat", BuiltinScalarFunction::Concat),
        ("lower", BuiltinScalarFunction::Lower),
        ("trim", BuiltinScalarFunction::Trim),
        ("ltrim", BuiltinScalarFunction::Ltrim),
        ("rtrim", BuiltinScalarFunction::Rtrim),
        ("upper", BuiltinScalarFunction::Upper),
        ("to_timestamp", BuiltinScalarFunction::ToTimestamp),
        ("date_trunc", BuiltinScalarFunction::DateTrunc),
        ("array", BuiltinScalarFunction::Array),
        ("nullif", BuiltinScalarFunction::NullIf),
        ("md5", BuiltinScalarFunction::MD5),
        ("sha224", BuiltinScalarFunction::SHA224),
        ("sha256", BuiltinScalarFunction::SHA256),
        ("sha384", BuiltinScalarFunction::SHA384),
        ("sha512", BuiltinScalarFunction::SHA512),
    ];
    for (name, fun) in cases {
        assert_eq!(BuiltinScalarFunction::from_str(name), Ok(fun), "{}", name);
    }
}

#[test]
fn unknown_name_is_a_planning_error() {
    assert_eq!(
        BuiltinScalarFunction::from_str("cosh"),
        Err(FunctionError::Plan("There is no built-in function named cosh".to_string()))
    );
    // names are case sensitive
    assert_eq!(
        BuiltinScalarFunction::from_str("SQRT"),
        Err(FunctionError::Plan("There is no built-in function named SQRT".to_string()))
    );
    assert_eq!(
        BuiltinScalarFunction::from_str(""),
        Err(FunctionError::Plan("There is no built-in function named ".to_string()))
    );
}

#[test]
fn displayed_names_are_lower_case_variant_names() {
    assert_eq!(BuiltinScalarFunction::Sqrt.to_string(), "sqrt");
    assert_eq!(BuiltinScalarFunction::Log10.to_string(), "log10");
    assert_eq!(BuiltinScalarFunction::ToTimestamp.to_string(), "totimestamp");
    assert_eq!(BuiltinScalarFunction::NullIf.to_string(), "nullif");
    assert_eq!(BuiltinScalarFunction::DateTrunc.to_string(), "datetrunc");
    assert_eq!(BuiltinScalarFunction::MD5.to_string(), "md5");
    assert_eq!(BuiltinScalarFunction::SHA512.to_string(), "sha512");
    for fun in ALL {
        assert_eq!(fun.to_string(), format!("{:?}", fun).to_lowercase());
        assert_eq!(fun.name(), fun.to_string());
    }
}

#[test]
fn display_name_round_trip() {
    for fun in ALL {
        let parsed = BuiltinScalarFunction::from_str(&fun.to_string());
        match fun {
            BuiltinScalarFunction::ToTimestamp | BuiltinScalarFunction::DateTrunc => {
                assert!(parsed.is_err(), "{:?}", fun)
            }
            _ => assert_eq!(parsed, Ok(fun)),
        }
    }
}

#[test]
fn trunc_is_parsed_from_trunc_and_truc() {
    assert_eq!(BuiltinScalarFunction::from_str("trunc"), Ok(BuiltinScalarFunction::Trunc));
    assert_eq!(BuiltinScalarFunction::from_str("truc"), Ok(BuiltinScalarFunction::Trunc));
    assert!(BuiltinScalarFunction::from_str("totimestamp").is_err());
    assert!(BuiltinScalarFunction::from_str("datetrunc").is_err());
}

