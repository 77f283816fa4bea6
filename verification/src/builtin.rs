//! The built-in scalar functions, and the names by which they are called and
//! displayed.

use crate::error::{FunctionError, SpecFunctionError};
use vstd::prelude::*;

verus! {

/// Whether two string slices hold the same characters.
fn str_eq(a: &str, b: &str) -> (r: bool)
    ensures
        r == (a@ == b@),
{
    a.to_owned() == b.to_owned()
}

/// A scalar function that the engine provides: each one maps the values of a
/// row's arguments to one value.
#[derive(Debug, Clone, Copy, PartialEq, Eq, Structural)]
pub enum BuiltinScalarFunction {
    /// Absolute value.
    Abs,
    /// Arc cosine.
    Acos,
    /// An array built from the arguments, one item per column.
    Array,
    /// Arc sine.
    Asin,
    /// Arc tangent.
    Atan,
    /// Smallest integer not less than the value.
    Ceil,
    /// Concatenation of strings.
    Concat,
    /// Cosine.
    Cos,
    /// A timestamp truncated to a unit of time.
    DateTrunc,
    /// Exponential, base e.
    Exp,
    /// Largest integer not greater than the value.
    Floor,
    /// Number of bytes of a string.
    Length,
    /// Natural logarithm (ln).
    Log,
    /// Logarithm to base 10.
    Log10,
    /// Logarithm to base 2.
    Log2,
    /// Lower case of a string.
    Lower,
    /// A string without its leading spaces.
    Ltrim,
    /// MD5 digest of a string, in hexadecimal.
    MD5,
    /// Null where both arguments are equal, else the first argument (SQL `NULLIF`).
    NullIf,
    /// Nearest integer.
    Round,
    /// A string without its trailing spaces.
    Rtrim,
    /// SHA-224 digest of a string.
    SHA224,
    /// SHA-256 digest of a string.
    SHA256,
    /// SHA-384 digest of a string.
    SHA384,
    /// SHA-512 digest of a string.
    SHA512,
    /// Sign of the value.
    Signum,
    /// Sine.
    Sin,
    /// Square root.
    Sqrt,
    /// Tangent.
    Tan,
    /// A string read as a timestamp.
    ToTimestamp,
    /// A string without its leading and trailing spaces.
    Trim,
    /// Integer part.
    Trunc,
    /// Upper case of a string.
    Upper,
}

impl BuiltinScalarFunction {
    /// The displayed name of the function: its variant's name in lower case.
    pub open spec fn spec_name(self) -> Seq<char> {
        match self {
            Self::Abs => "abs"@,
            Self::Acos => "acos"@,
            Self::Array => "array"@,
            Self::Asin => "asin"@,
            Self::Atan => "atan"@,
            Self::Ceil => "ceil"@,
            Self::Concat => "concat"@,
            Self::Cos => "cos"@,
            Self::DateTrunc => "datetrunc"@,
            Self::Exp => "exp"@,
            Self::Floor => "floor"@,
            Self::Length => "length"@,
            Self::Log => "log"@,
            Self::Log10 => "log10"@,
            Self::Log2 => "log2"@,
            Self::Lower => "lower"@,
            Self::Ltrim => "ltrim"@,
            Self::MD5 => "md5"@,
            Self::NullIf => "nullif"@,
            Self::Round => "round"@,
            Self::Rtrim => "rtrim"@,
            Self::SHA224 => "sha224"@,
            Self::SHA256 => "sha256"@,
            Self::SHA384 => "sha384"@,
            Self::SHA512 => "sha512"@,
            Self::Signum => "signum"@,
            Self::Sin => "sin"@,
            Self::Sqrt => "sqrt"@,
            Self::Tan => "tan"@,
            Self::ToTimestamp => "totimestamp"@,
            Self::Trim => "trim"@,
            Self::Trunc => "trunc"@,
            Self::Upper => "upper"@,
        }
    }

    /// The function that `name` calls, if any. Three names call `Length`:
    /// "length", "char_length" and "character_length"; two call `Trunc`:
    /// "trunc" and "truc"; `ToTimestamp` is called "to_timestamp" and
    /// `DateTrunc` "date_trunc".
    pub open spec fn spec_parse(name: Seq<char>) -> Option<Self> {
        if name == "abs"@ {
            Some(Self::Abs)
        } else if name == "acos"@ {
            Some(Self::Acos)
        } else if name == "array"@ {
            Some(Self::Array)
        } else if name == "asin"@ {
            Some(Self::Asin)
        } else if name == "atan"@ {
            Some(Self::Atan)
        } else if name == "ceil"@ {
            Some(Self::Ceil)
        } else if name == "char_length"@ {
            Some(Self::Length)
        } else if name == "character_length"@ {
            Some(Self::Length)
        } else if name == "concat"@ {
            Some(Self::Concat)
        } else if name == "cos"@ {
            Some(Self::Cos)
        } else if name == "date_trunc"@ {
            Some(Self::DateTrunc)
        } else if name == "exp"@ {
            Some(Self::Exp)
        } else if name == "floor"@ {
            Some(Self::Floor)
        } else if name == "length"@ {
            Some(Self::Length)
        } else if name == "log"@ {
            Some(Self::Log)
        } else if name == "log10"@ {
            Some(Self::Log10)
        } else if name == "log2"@ {
            Some(Self::Log2)
        } else if name == "lower"@ {
            Some(Self::Lower)
        } else if name == "ltrim"@ {
            Some(Self::Ltrim)
        } else if name == "md5"@ {
            Some(Self::MD5)
        } else if name == "nullif"@ {
            Some(Self::NullIf)
        } else if name == "round"@ {
            Some(Self::Round)
        } else if name == "rtrim"@ {
            Some(Self::Rtrim)
        } else if name == "sha224"@ {
            Some(Self::SHA224)
        } else if name == "sha256"@ {
            Some(Self::SHA256)
        } else if name == "sha384"@ {
            Some(Self::SHA384)
        } else if name == "sha512"@ {
            Some(Self::SHA512)
        } else if name == "signum"@ {
            Some(Self::Signum)
        } else if name == "sin"@ {
            Some(Self::Sin)
        } else if name == "sqrt"@ {
            Some(Self::Sqrt)
        } else if name == "tan"@ {
            Some(Self::Tan)
        } else if name == "to_timestamp"@ {
            Some(Self::ToTimestamp)
        } else if name == "trim"@ {
            Some(Self::Trim)
        } else if name == "truc"@ {
            Some(Self::Trunc)
        } else if name == "trunc"@ {
            Some(Self::Trunc)
        } else if name == "upper"@ {
            Some(Self::Upper)
        } else {
            None
        }
    }

    /// The displayed name of the function.
    pub fn name(&self) -> (s: &'static str)
        ensures
            s@ == self.spec_name(),
    {
        match self {
            Self::Abs => "abs",
            Self::Acos => "acos",
            Self::Array => "array",
            Self::Asin => "asin",
            Self::Atan => "atan",
            Self::Ceil => "ceil",
            Self::Concat => "concat",
            Self::Cos => "cos",
            Self::DateTrunc => "datetrunc",
            Self::Exp => "exp",
            Self::Floor => "floor",
            Self::Length => "length",
            Self::Log => "log",
            Self::Log10 => "log10",
            Self::Log2 => "log2",
            Self::Lower => "lower",
            Self::Ltrim => "ltrim",
            Self::MD5 => "md5",
            Self::NullIf => "nullif",
            Self::Round => "round",
            Self::Rtrim => "rtrim",
            Self::SHA224 => "sha224",
            Self::SHA256 => "sha256",
            Self::SHA384 => "sha384",
            Self::SHA512 => "sha512",
            Self::Signum => "signum",
            Self::Sin => "sin",
            Self::Sqrt => "sqrt",
            Self::Tan => "tan",
            Self::ToTimestamp => "totimestamp",
            Self::Trim => "trim",
            Self::Trunc => "trunc",
            Self::Upper => "upper",
        }
    }

    /// The displayed name of the function, as an owned string.
    pub fn to_string(&self) -> (s: String)
        ensures
            s@ == self.spec_name(),
    {
        String::from_str(self.name())
    }

    /// The function that `name` calls, or a planning error that names it.
    pub fn from_str(name: &str) -> (r: Result<Self, FunctionError>)
        ensures
            match r {
                Ok(f) => Self::spec_parse(name@) == Some(f),
                Err(e) => Self::spec_parse(name@) is None && e@ == SpecFunctionError::Plan(
                    "There is no built-in function named "@ + name@,
                ),
            },
    {
        if str_eq(name, "abs") {
            Ok(Self::Abs)
        } else if str_eq(name, "acos") {
            Ok(Self::Acos)
        } else if str_eq(name, "array") {
            Ok(Self::Array)
        } else if str_eq(name, "asin") {
            Ok(Self::Asin)
        } else if str_eq(name, "atan") {
            Ok(Self::Atan)
        } else if str_eq(name, "ceil") {
            Ok(Self::Ceil)
        } else if str_eq(name, "char_length") {
            Ok(Self::Length)
        } else if str_eq(name, "character_length") {
            Ok(Self::Length)
        } else if str_eq(name, "concat") {
            Ok(Self::Concat)
        } else if str_eq(name, "cos") {
            Ok(Self::Cos)
        } else if str_eq(name, "date_trunc") {
            Ok(Self::DateTrunc)
        } else if str_eq(name, "exp") {
            Ok(Self::Exp)
        } else if str_eq(name, "floor") {
            Ok(Self::Floor)
        } else if str_eq(name, "length") {
            Ok(Self::Length)
        } else if str_eq(name, "log") {
            Ok(Self::Log)
        } else if str_eq(name, "log10") {
            Ok(Self::Log10)
        } else if str_eq(name, "log2") {
            Ok(Self::Log2)
        } else if str_eq(name, "lower") {
            Ok(Self::Lower)
        } else if str_eq(name, "ltrim") {
            Ok(Self::Ltrim)
        } else if str_eq(name, "md5") {
            Ok(Self::MD5)
        } else if str_eq(name, "nullif") {
            Ok(Self::NullIf)
        } else if str_eq(name, "round") {
            Ok(Self::Round)
        } else if str_eq(name, "rtrim") {
            Ok(Self::Rtrim)
        } else if str_eq(name, "sha224") {
            Ok(Self::SHA224)
        } else if str_eq(name, "sha256") {
            Ok(Self::SHA256)
        } else if str_eq(name, "sha384") {
            Ok(Self::SHA384)
        } else if str_eq(name, "sha512") {
            Ok(Self::SHA512)
        } else if str_eq(name, "signum") {
            Ok(Self::Signum)
        } else if str_eq(name, "sin") {
            Ok(Self::Sin)
        } else if str_eq(name, "sqrt") {
            Ok(Self::Sqrt)
        } else if str_eq(name, "tan") {
            Ok(Self::Tan)
        } else if str_eq(name, "to_timestamp") {
            Ok(Self::ToTimestamp)
        } else if str_eq(name, "trim") {
            Ok(Self::Trim)
        } else if str_eq(name, "truc") {
            Ok(Self::Trunc)
        } else if str_eq(name, "trunc") {
            Ok(Self::Trunc)
        } else if str_eq(name, "upper") {
            Ok(Self::Upper)
        } else {
            let mut message = String::from_str("There is no built-in function named ");
            message.append(name);
            Err(FunctionError::Plan(message))
        }
    }
}

/// A summary of a name that tells apart all the names of the functions: its
/// length and its first, last but one and last characters.
pub open spec fn spec_fingerprint(name: Seq<char>) -> (nat, char, char, char) {
    (name.len(), name[0], name[name.len() - 2], name[name.len() - 1])
}

/// The fingerprints of the names, and of the displayed names, of the functions.
pub(crate) proof fn lemma_fingerprints()
    ensures
        spec_fingerprint("abs"@) == (3nat, 'a', 'b', 's'),
        spec_fingerprint("acos"@) == (4nat, 'a', 'o', 's'),
        spec_fingerprint("array"@) == (5nat, 'a', 'a', 'y'),
        spec_fingerprint("asin"@) == (4nat, 'a', 'i', 'n'),
        spec_fingerprint("atan"@) == (4nat, 'a', 'a', 'n'),
        spec_fingerprint("ceil"@) == (4nat, 'c', 'i', 'l'),
        spec_fingerprint("char_length"@) == (11nat, 'c', 't', 'h'),
        spec_fingerprint("character_length"@) == (16nat, 'c', 't', 'h'),
        spec_fingerprint("concat"@) == (6nat, 'c', 'a', 't'),
        spec_fingerprint("cos"@) == (3nat, 'c', 'o', 's'),
        spec_fingerprint("date_trunc"@) == (10nat, 'd', 'n', 'c'),
        spec_fingerprint("datetrunc"@) == (9nat, 'd', 'n', 'c'),
        spec_fingerprint("exp"@) == (3nat, 'e', 'x', 'p'),
        spec_fingerprint("floor"@) == (5nat, 'f', 'o', 'r'),
        spec_fingerprint("length"@) == (6nat, 'l', 't', 'h'),
        spec_fingerprint("log"@) == (3nat, 'l', 'o', 'g'),
        spec_fingerprint("log10"@) == (5nat, 'l', '1', '0'),
        spec_fingerprint("log2"@) == (4nat, 'l', 'g', '2'),
        spec_fingerprint("lower"@) == (5nat, 'l', 'e', 'r'),
        spec_fingerprint("ltrim"@) == (5nat, 'l', 'i', 'm'),
        spec_fingerprint("md5"@) == (3nat, 'm', 'd', '5'),
        spec_fingerprint("nullif"@) == (6nat, 'n', 'i', 'f'),
        spec_fingerprint("round"@) == (5nat, 'r', 'n', 'd'),
        spec_fingerprint("rtrim"@) == (5nat, 'r', 'i', 'm'),
        spec_fingerprint("sha224"@) == (6nat, 's', '2', '4'),
        spec_fingerprint("sha256"@) == (6nat, 's', '5', '6'),
        spec_fingerprint("sha384"@) == (6nat, 's', '8', '4'),
        spec_fingerprint("sha512"@) == (6nat, 's', '1', '2'),
        spec_fingerprint("signum"@) == (6nat, 's', 'u', 'm'),
        spec_fingerprint("sin"@) == (3nat, 's', 'i', 'n'),
        spec_fingerprint("sqrt"@) == (4nat, 's', 'r', 't'),
        spec_fingerprint("tan"@) == (3nat, 't', 'a', 'n'),
        spec_fingerprint("to_timestamp"@) == (12nat, 't', 'm', 'p'),
        spec_fingerprint("totimestamp"@) == (11nat, 't', 'm', 'p'),
        spec_fingerprint("trim"@) == (4nat, 't', 'i', 'm'),
        spec_fingerprint("truc"@) == (4nat, 't', 'u', 'c'),
        spec_fingerprint("trunc"@) == (5nat, 't', 'n', 'c'),
        spec_fingerprint("upper"@) == (5nat, 'u', 'e', 'r'),
{
    reveal_strlit("abs");
    reveal_strlit("acos");
    reveal_strlit("array");
    reveal_strlit("asin");
    reveal_strlit("atan");
    reveal_strlit("ceil");
    reveal_strlit("char_length");
    reveal_strlit("character_length");
    reveal_strlit("concat");
    reveal_strlit("cos");
    reveal_strlit("date_trunc");
    reveal_strlit("datetrunc");
    reveal_strlit("exp");
    reveal_strlit("floor");
    reveal_strlit("length");
    reveal_strlit("log");
    reveal_strlit("log10");
    reveal_strlit("log2");
    reveal_strlit("lower");
    reveal_strlit("ltrim");
    reveal_strlit("md5");
    reveal_strlit("nullif");
    reveal_strlit("round");
    reveal_strlit("rtrim");
    reveal_strlit("sha224");
    reveal_strlit("sha256");
    reveal_strlit("sha384");
    reveal_strlit("sha512");
    reveal_strlit("signum");
    reveal_strlit("sin");
    reveal_strlit("sqrt");
    reveal_strlit("tan");
    reveal_strlit("to_timestamp");
    reveal_strlit("totimestamp");
    reveal_strlit("trim");
    reveal_strlit("truc");
    reveal_strlit("trunc");
    reveal_strlit("upper");
}

impl BuiltinScalarFunction {
    /// Parsing the displayed name of a function gives that function back, for
    /// every function but `ToTimestamp` and `DateTrunc`, whose displayed names
    /// ("totimestamp", "datetrunc") differ from the names that call them
    /// ("to_timestamp", "date_trunc").
    pub proof fn lemma_name_round_trip(self)
        requires
            self != Self::ToTimestamp,
            self != Self::DateTrunc,
        ensures
            Self::spec_parse(self.spec_name()) == Some(self),
    {
        lemma_fingerprints();
    }

    /// The displayed names of `ToTimestamp` and `DateTrunc` call no function.
    pub proof fn lemma_names_not_parsed()
        ensures
            Self::spec_parse(Self::ToTimestamp.spec_name()) is None,
            Self::spec_parse(Self::DateTrunc.spec_name()) is None,
    {
        lemma_fingerprints();
    }
}

} // verus!
