//! Which kernel evaluates each built-in function, and the scalar case of
//! `length`, which needs no kernel of arrays.

use crate::builtin::BuiltinScalarFunction;
use crate::expr::{large_utf8_length, spec_large_utf8_length, spec_utf8_length, utf8_length};
use vstd::prelude::*;

verus! {

/// The family of the kernel that evaluates a function.
#[derive(Debug, Clone, Copy, PartialEq, Eq, Structural)]
pub enum KernelKind {
    /// A mathematical function of floats.
    Math,
    /// A function of strings that gives strings.
    String,
    /// The number of bytes of strings.
    Length,
    /// Nulls where two arguments are equal.
    NullIf,
    /// A digest of strings.
    Digest,
    /// An array made of the arguments.
    Array,
    /// A function of dates and times.
    Datetime,
}

/// The kernel that evaluates a function: its family and its name within it.
#[derive(Debug, Clone, Copy, PartialEq, Eq)]
pub struct Kernel {
    pub kind: KernelKind,
    pub name: &'static str,
}

impl BuiltinScalarFunction {
    /// The family of the kernel that evaluates the function.
    pub open spec fn spec_kernel_kind(self) -> KernelKind {
        match self {
            Self::Length => KernelKind::Length,
            Self::NullIf => KernelKind::NullIf,
            Self::Array => KernelKind::Array,
            Self::ToTimestamp | Self::DateTrunc => KernelKind::Datetime,
            Self::MD5 | Self::SHA224 | Self::SHA256 | Self::SHA384 | Self::SHA512 => KernelKind::Digest,
            Self::Concat | Self::Lower | Self::Upper | Self::Trim | Self::Ltrim | Self::Rtrim => {
                KernelKind::String
            },
            _ => KernelKind::Math,
        }
    }

    /// The name of the kernel that evaluates the function: its displayed name,
    /// but "ln" for `Log`, "concatenate" for `Concat`, "nullif_func" for
    /// `NullIf`, "to_timestamp" for `ToTimestamp` and "date_trunc" for
    /// `DateTrunc`.
    pub open spec fn spec_kernel_name(self) -> Seq<char> {
        match self {
            Self::Log => "ln"@,
            Self::Concat => "concatenate"@,
            Self::NullIf => "nullif_func"@,
            Self::ToTimestamp => "to_timestamp"@,
            Self::DateTrunc => "date_trunc"@,
            _ => self.spec_name(),
        }
    }

    /// The kernel that evaluates the function.
    pub fn kernel(&self) -> (k: Kernel)
        ensures
            k.kind == self.spec_kernel_kind(),
            k.name@ == self.spec_kernel_name(),
    {
        let kind = match self {
            Self::Length => KernelKind::Length,
            Self::NullIf => KernelKind::NullIf,
            Self::Array => KernelKind::Array,
            Self::ToTimestamp | Self::DateTrunc => KernelKind::Datetime,
            Self::MD5 | Self::SHA224 | Self::SHA256 | Self::SHA384 | Self::SHA512 => KernelKind::Digest,
            Self::Concat | Self::Lower | Self::Upper | Self::Trim | Self::Ltrim | Self::Rtrim => {
                KernelKind::String
            },
            _ => KernelKind::Math,
        };
        let name = match self {
            Self::Log => "ln",
            Self::Concat => "concatenate",
            Self::NullIf => "nullif_func",
            Self::ToTimestamp => "to_timestamp",
            Self::DateTrunc => "date_trunc",
            _ => self.name(),
        };
        Kernel { kind, name }
    }
}

/// A scalar that `length` accepts: a string, or null, of either string type.
#[derive(Debug, Clone, PartialEq, Eq)]
pub enum StringScalar {
    Utf8(Option<String>),
    LargeUtf8(Option<String>),
}

/// A scalar that `length` gives: the number of bytes, or null.
#[derive(Debug, Clone, Copy, PartialEq, Eq)]
pub enum LengthScalar {
    Int32(Option<i32>),
    Int64(Option<i64>),
}

/// `length` of a scalar: the number of bytes of a `Utf8` string as an
/// `Int32`, of a `LargeUtf8` string as an `Int64`; null for null.
pub fn length_of_scalar(value: &StringScalar) -> (r: LengthScalar)
    ensures
        r == match *value {
            StringScalar::Utf8(v) => LengthScalar::Int32(spec_utf8_length(v)),
            StringScalar::LargeUtf8(v) => LengthScalar::Int64(spec_large_utf8_length(v)),
        },
{
    match value {
        StringScalar::Utf8(v) => LengthScalar::Int32(utf8_length(v)),
        StringScalar::LargeUtf8(v) => LengthScalar::Int64(large_utf8_length(v)),
    }
}

} // verus!
