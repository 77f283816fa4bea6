# scalar_functions

The built-in scalar functions of a query engine, verified with Verus:

- `src/datatype.rs`: the logical data types of columns (`DataType`, `Field`),
  with a mathematical model, structural equality and copies proved against it.
- `src/signature.rs`: the argument types that a function accepts (`Signature`).
- `src/error.rs`: why a call cannot be planned (`FunctionError`).
- `src/builtin.rs`: the functions (`BuiltinScalarFunction`), the names that
  call them and the names under which they are displayed.
- `src/coercion.rs`: coercion of argument types to a signature, with its laws
  (it keeps the number of arguments, only reaches types that each argument can
  be coerced to, and is idempotent).
- `src/functions.rs`: the signature of each function and the type it returns,
  with the law that coerced arguments always have a return type.
- `src/expr.rs`: the physical expression of a call, created by coercing the
  argument types to the signature and casting each argument to its coerced
  type; its evaluation; and the parts of evaluation on arrays that decide on
  plain values.
- `src/kernel.rs`: which kernel evaluates each function, and `length` of a
  string scalar.

`app/` converts data types to and from those of the `arrow` crate, renders
error messages and the debugging text of an expression, and holds what runs
on arrays.
