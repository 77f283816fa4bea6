//! Built-in scalar functions of a query engine: their names, their signatures,
//! the coercion of argument types to those signatures, and the type each
//! function returns.

pub mod datatype;
pub mod error;
pub mod signature;
pub mod builtin;
pub mod coercion;
pub mod functions;
pub mod expr;
pub mod kernel;
pub mod laws;

