//! The errors of planning a scalar function.

use crate::datatype::{DataType, SpecDataType};
use crate::signature::{spec_types, Signature, SpecSignature};
use vstd::prelude::*;

verus! {

/// Why a function cannot be planned on the given arguments.
#[derive(Debug, PartialEq)]
pub enum FunctionError {
    /// A planning error, with its message.
    Plan(String),
    /// An error that the checks of the argument types should have prevented,
    /// with its message.
    Internal(String),
    /// A planning error: the argument types cannot be coerced to the signature.
    Coercion { arg_types: Vec<DataType>, signature: Signature },
    /// A planning error: the signature asks for `expected` arguments and
    /// `received` were given.
    ArgumentCount { expected: usize, received: usize },
}

/// The model of a `FunctionError`.
pub enum SpecFunctionError {
    Plan(Seq<char>),
    Internal(Seq<char>),
    Coercion(Seq<SpecDataType>, SpecSignature),
    ArgumentCount(usize, usize),
}

impl View for FunctionError {
    type V = SpecFunctionError;

    open spec fn view(&self) -> SpecFunctionError {
        match *self {
            FunctionError::Plan(m) => SpecFunctionError::Plan(m@),
            FunctionError::Internal(m) => SpecFunctionError::Internal(m@),
            FunctionError::Coercion { arg_types, signature } => SpecFunctionError::Coercion(
                spec_types(arg_types@),
                signature@,
            ),
            FunctionError::ArgumentCount { expected, received } => SpecFunctionError::ArgumentCount(
                expected,
                received,
            ),
        }
    }
}

/// The model of a result that holds a value of a type with a view.
pub open spec fn spec_result<T: View>(r: Result<T, FunctionError>) -> Result<T::V, SpecFunctionError> {
    match r {
        Ok(v) => Ok(v@),
        Err(e) => Err(e@),
    }
}

} // verus!
