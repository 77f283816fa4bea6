use scalar_functions::builtin::BuiltinScalarFunction as F;
use scalar_functions::kernel::{length_of_scalar, Kernel, KernelKind, LengthScalar, StringScalar};

fn k(kind: KernelKind, name: &'static str) -> Kernel {
    Kernel { kind, name }
}

#[test]
fn each_function_has_its_kernel() {
    let math = [
        (F::Sqrt, "sqrt"),
        (F::Sin, "sin"),
        (F::Cos, "cos"),
        (F::Tan, "tan"),
        (F::Asin, "asin"),
        (F::Acos, "acos"),
        (F::Atan, "atan"),
        (F::Exp, "exp"),
        (F::Log, "ln"),
        (F::Log2, "log2"),
        (F::Log10, "log10"),
        (F::Floor, "floor"),
        (F::Ceil, "ceil"),
        (F::Round, "round"),
        (F::Trunc, "trunc"),
        (F::Abs, "abs"),
        (F::Signum, "signum"),
    ];
    for (fun, name) in math {
        assert_eq!(fun.kernel(), k(KernelKind::Math, name));
    }
    let strings = [
        (F::Concat, "concatenate"),
        (F::Lower, "lower"),
        (F::Upper, "upper"),
        (F::Trim, "trim"),
        (F::Ltrim, "ltrim"),
        (F::Rtrim, "rtrim"),
    ];
    for (fun, name) in strings {
        assert_eq!(fun.kernel(), k(KernelKind::String, name));
    }
    for (fun, name) in [
        (F::MD5, "md5"),
        (F::SHA224, "sha224"),
        (F::SHA256, "sha256"),
        (F::SHA384, "sha384"),
        (F::SHA512, "sha512"),
    ] {
        assert_eq!(fun.kernel(), k(KernelKind::Digest, name));
    }
    assert_eq!(F::Length.kernel(), k(KernelKind::Length, "length"));
    assert_eq!(F::NullIf.kernel(), k(KernelKind::NullIf, "nullif_func"));
    assert_eq!(F::Array.kernel(), k(KernelKind::Array, "array"));
    assert_eq!(F::ToTimestamp.kernel(), k(KernelKind::Datetime, "to_timestamp"));
    assert_eq!(F::DateTrunc.kernel(), k(KernelKind::Datetime, "date_trunc"));
}

#[test]
fn length_of_string_scalars() {
    assert_eq!(
        length_of_scalar(&StringScalar::Utf8(Some("héllo".to_string()))),
        LengthScalar::Int32(Some(6))
    );
    assert_eq!(length_of_scalar(&StringScalar::Utf8(None)), LengthScalar::Int32(None));
    assert_eq!(
        length_of_scalar(&StringScalar::LargeUtf8(Some("abc".to_string()))),
        LengthScalar::Int64(Some(3))
    );
    assert_eq!(length_of_scalar(&StringScalar::LargeUtf8(None)), LengthScalar::Int64(None));
    assert_eq!(
        length_of_scalar(&StringScalar::Utf8(Some(String::new()))),
        LengthScalar::Int32(Some(0))
    );
}
