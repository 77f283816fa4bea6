//! The physical expression of a call of a scalar function, and the parts of
//! evaluating one that decide on plain values.

use crate::datatype::{DataType, SpecDataType};
use crate::error::{FunctionError, SpecFunctionError};
use crate::builtin::BuiltinScalarFunction;
use crate::coercion::{data_types, lemma_data_types_length, spec_data_types};
use crate::functions::{return_type, signature};
use crate::signature::spec_types;
use vstd::prelude::*;
use vstd::utf8::encode_utf8;

verus! {

/// Physical expression of a scalar function: the implementation `fun` that
/// evaluates it, its name, its argument expressions and the type it returns.
pub struct ScalarFunctionExpr<F, E> {
    fun: F,
    name: String,
    args: Vec<E>,
    return_type: DataType,
}

impl<F, E> ScalarFunctionExpr<F, E> {
    /// The implementation of the function.
    pub closed spec fn spec_fun(&self) -> F {
        self.fun
    }

    /// The name of the expression.
    pub closed spec fn spec_name(&self) -> Seq<char> {
        self.name@
    }

    /// The argument expressions.
    pub closed spec fn spec_args(&self) -> Seq<E> {
        self.args@
    }

    /// The type that the expression returns.
    pub closed spec fn spec_return_type(&self) -> SpecDataType {
        self.return_type@
    }

    /// Create a new Scalar function
    pub fn new(name: &str, fun: F, args: Vec<E>, return_type: &DataType) -> (r: Self)
        ensures
            r.spec_name() == name@,
            r.spec_fun() == fun,
            r.spec_args() == args@,
            r.spec_return_type() == return_type@,
    {
        ScalarFunctionExpr { fun, name: name.to_owned(), args, return_type: return_type.clone() }
    }

    /// Get the scalar function implementation
    pub fn fun(&self) -> (r: &F)
        ensures
            *r == self.spec_fun(),
    {
        &self.fun
    }

    /// The name for this expression
    pub fn name(&self) -> (r: &str)
        ensures
            r@ == self.spec_name(),
    {
        self.name.as_str()
    }

    /// Input arguments
    pub fn args(&self) -> (r: &[E])
        ensures
            r@ == self.spec_args(),
    {
        self.args.as_slice()
    }

    /// Data type produced by this expression
    pub fn return_type(&self) -> (r: &DataType)
        ensures
            r@ == self.spec_return_type(),
    {
        &self.return_type
    }

    /// The type of the values of this expression, whatever the input: the
    /// return type of the function.
    pub fn data_type(&self) -> (r: DataType)
        ensures
            r@ == self.spec_return_type(),
    {
        self.return_type.clone()
    }

    /// Whether the values of this expression can be null: always.
    pub fn nullable(&self) -> (r: bool)
        ensures
            r,
    {
        true
    }

    /// Evaluates the call: each argument with `evaluate_arg`, in order, then
    /// the function on their values. The error of the first argument whose
    /// evaluation fails is the result, and no later argument is evaluated;
    /// without one, the result is what the function gives.
    pub fn evaluate<V, R, X, G>(&self, evaluate_arg: G) -> (r: Result<R, X>) where
        G: Fn(&E) -> Result<V, X>,
        F: Fn(&[V]) -> Result<R, X>,

        requires
            forall|e: E| evaluate_arg.requires((&e,)),
            forall|values: &[V]| self.spec_fun().requires((values,)),
        ensures
            (exists|values: &[V]|
                {
                    &&& values@.len() == self.spec_args().len()
                    &&& forall|i: int|
                        0 <= i < values@.len() ==> evaluate_arg.ensures(
                            (&self.spec_args()[i],),
                            Ok::<V, X>(#[trigger] values@[i]),
                        )
                    &&& self.spec_fun().ensures((values,), r)
                }) || (exists|k: int, x: X|
                {
                    &&& 0 <= k < self.spec_args().len()
                    &&& #[trigger] evaluate_arg.ensures((&self.spec_args()[k],), Err::<V, X>(x))
                    &&& r == Err::<R, X>(x)
                    &&& forall|j: int|
                        0 <= j < k ==> #[trigger] spec_evaluation_succeeds(
                            evaluate_arg,
                            self.spec_args()[j],
                        )
                }),
    {
        let mut inputs: Vec<V> = Vec::new();
        let mut i: usize = 0;
        while i < self.args.len()
            invariant
                0 <= i <= self.args@.len(),
                inputs@.len() == i,
                forall|e: E| evaluate_arg.requires((&e,)),
                forall|j: int|
                    0 <= j < i ==> evaluate_arg.ensures(
                        (&self.args@[j],),
                        Ok::<V, X>(#[trigger] inputs@[j]),
                    ),
                forall|j: int|
                    0 <= j < i ==> #[trigger] spec_evaluation_succeeds(
                        evaluate_arg,
                        self.spec_args()[j],
                    ),
            decreases self.args@.len() - i,
        {
            match evaluate_arg(&self.args[i]) {
                Ok(v) => {
                    inputs.push(v);
                    assert(inputs@[i as int] == v);
                    assert(self.spec_args()[i as int] == self.args@[i as int]);
                    assert(evaluate_arg.ensures((&self.spec_args()[i as int],), Ok::<V, X>(v)));
                    assert(spec_evaluation_succeeds(evaluate_arg, self.spec_args()[i as int]));
                },
                Err(x) => {
                    assert(self.spec_args()[i as int] == self.args@[i as int]);
                    assert(evaluate_arg.ensures((&self.spec_args()[i as int],), Err::<V, X>(x)));
                    return Err(x);
                },
            }
            i = i + 1;
        }
        let values = inputs.as_slice();
        assert(self.spec_fun().requires((values,)));
        let r = (self.fun)(values);
        assert(values@.len() == self.spec_args().len());
        r
    }

    /// The text of this expression, given the texts of its arguments: its
    /// name, then the texts of the arguments, separated by ", ", in
    /// parentheses.
    pub fn display(&self, arg_texts: &[String]) -> (r: String)
        ensures
            r@ == self.spec_name() + "("@ + spec_join(arg_texts@.map_values(|s: String| s@)) + ")"@,
    {
        let mut r = self.name.clone();
        r.append("(");
        r.append(join(arg_texts).as_str());
        r.append(")");
        r
    }
}

/// Whether `evaluate_arg` can give a value for the argument `arg`.
pub open spec fn spec_evaluation_succeeds<E, V, X, G: Fn(&E) -> Result<V, X>>(
    evaluate_arg: G,
    arg: E,
) -> bool {
    exists|v: V| #[trigger] evaluate_arg.ensures((&arg,), Ok::<V, X>(v))
}

/// The texts `parts`, separated by ", ".
pub open spec fn spec_join(parts: Seq<Seq<char>>) -> Seq<char>
    decreases parts.len(),
{
    if parts.len() == 0 {
        Seq::empty()
    } else if parts.len() == 1 {
        parts[0]
    } else {
        spec_join(parts.drop_last()) + ", "@ + parts.last()
    }
}

fn join(parts: &[String]) -> (r: String)
    ensures
        r@ == spec_join(parts@.map_values(|s: String| s@)),
{
    let ghost views = parts@.map_values(|s: String| s@);
    let mut r = String::new();
    let mut i: usize = 0;
    while i < parts.len()
        invariant
            0 <= i <= parts.len(),
            views == parts@.map_values(|s: String| s@),
            r@ == spec_join(views.take(i as int)),
        decreases parts.len() - i,
    {
        assert(views.take(i + 1).drop_last() =~= views.take(i as int));
        if i > 0 {
            r.append(", ");
        } else {
            assert(spec_join(views.take(0)) =~= Seq::<char>::empty());
            assert(Seq::<char>::empty() + views[0] =~= views[0]);
        }
        r.append(parts[i].as_str());
        i = i + 1;
    }
    assert(views.take(parts.len() as int) =~= views);
    r
}

/// Whether `cast` can turn the argument `arg` into an expression of a type
/// whose model is `t`.
pub open spec fn spec_cast_succeeds<E, C: Fn(E, &DataType) -> Result<E, FunctionError>>(
    cast: C,
    arg: E,
    t: SpecDataType,
) -> bool {
    exists|u: DataType, out: E|
        u@ == t && #[trigger] cast.ensures((arg, &u), Ok::<E, FunctionError>(out))
}

/// Create a physical (function) expression of `fun`, evaluated by
/// `implementation`, on the argument expressions `args`, whose types are
/// `arg_types`. The argument types are coerced to the signature of `fun`
/// (see `data_types`), each argument is cast with `cast` to its coerced type,
/// and the expression returns the type that `fun` returns for the coerced
/// types. This errors when the types cannot be coerced, when a cast fails, or
/// when the coerced types have no return type.
pub fn create_physical_expr<F, E, C>(
    fun: &BuiltinScalarFunction,
    implementation: F,
    args: Vec<E>,
    arg_types: &[DataType],
    cast: C,
) -> (r: Result<ScalarFunctionExpr<F, E>, FunctionError>) where
    C: Fn(E, &DataType) -> Result<E, FunctionError>,

    requires
        args@.len() == arg_types@.len(),
        forall|e: E, t: DataType| cast.requires((e, &t)),
    ensures
        match r {
            Ok(e) => {
                &&& spec_data_types(spec_types(arg_types@), fun.spec_signature()) matches Ok(ts)
                &&& fun.spec_return_type(ts) == Ok::<SpecDataType, SpecFunctionError>(
                    e.spec_return_type(),
                )
                &&& e.spec_args().len() == args@.len()
                &&& forall|i: int|
                    0 <= i < args@.len() ==> exists|t: DataType|
                        t@ == ts[i] && cast.ensures(
                            (args@[i], &t),
                            Ok::<E, FunctionError>(#[trigger] e.spec_args()[i]),
                        )
                &&& e.spec_name() == fun.spec_name()
                &&& e.spec_fun() == implementation
            },
            Err(err) => match spec_data_types(spec_types(arg_types@), fun.spec_signature()) {
                Err(coercion_error) => err@ == coercion_error,
                Ok(ts) => {
                    // the error of the first argument whose cast fails
                    ||| exists|k: int, t: DataType|
                        {
                            &&& 0 <= k < args@.len()
                            &&& t@ == ts[k]
                            &&& #[trigger] cast.ensures((args@[k], &t), Err::<E, FunctionError>(err))
                            &&& forall|j: int|
                                0 <= j < k ==> #[trigger] spec_cast_succeeds(cast, args@[j], ts[j])
                        }
                    // else, every cast succeeded, the error of the return type
                    ||| {
                        &&& forall|j: int|
                            0 <= j < args@.len() ==> #[trigger] spec_cast_succeeds(
                                cast,
                                args@[j],
                                ts[j],
                            )
                        &&& fun.spec_return_type(ts) == Err::<SpecDataType, SpecFunctionError>(
                            err@,
                        )
                    }
                },
            },
        },
{
    let ghost original = args@;
    let ghost sig = fun.spec_signature();
    let coerced = match data_types(arg_types, &signature(fun)) {
        Ok(types) => types,
        Err(e) => {
            return Err(e);
        },
    };
    let ghost ts = spec_types(coerced@);
    proof {
        lemma_data_types_length(spec_types(arg_types@), sig);
    }
    // cast each argument to its coerced type, in order
    let mut rest = args;
    let mut cast_args: Vec<E> = Vec::new();
    let mut i: usize = 0;
    while i < coerced.len()
        invariant
            0 <= i <= coerced.len(),
            coerced@.len() == original.len(),
            ts == spec_types(coerced@),
            original == args@,
            spec_data_types(spec_types(arg_types@), fun.spec_signature()) == Ok::<
                Seq<SpecDataType>,
                SpecFunctionError,
            >(ts),
            rest@ == original.subrange(i as int, original.len() as int),
            cast_args@.len() == i,
            forall|e: E, t: DataType| cast.requires((e, &t)),
            forall|j: int|
                0 <= j < i ==> exists|t: DataType|
                    t@ == ts[j] && cast.ensures(
                        (original[j], &t),
                        Ok::<E, FunctionError>(#[trigger] cast_args@[j]),
                    ),
            forall|j: int| 0 <= j < i ==> #[trigger] spec_cast_succeeds(cast, original[j], ts[j]),
        decreases coerced.len() - i,
    {
        let arg = rest.remove(0);
        assert(arg == original[i as int]);
        let target = &coerced[i];
        assert(target@ == ts[i as int]);
        match cast(arg, target) {
            Ok(c) => {
                cast_args.push(c);
                assert(cast_args@[i as int] == c);
                proof {
                    let t: DataType = *target;
                    assert(cast.ensures((original[i as int], &t), Ok::<E, FunctionError>(c)));
                    assert(spec_cast_succeeds(cast, original[i as int], ts[i as int]));
                }
            },
            Err(e) => {
                proof {
                    let t: DataType = *target;
                    assert(cast.ensures((original[i as int], &t), Err::<E, FunctionError>(e)));
                }
                return Err(e);
            },
        }
        i = i + 1;
    }
    let rt = match return_type(fun, coerced.as_slice()) {
        Ok(t) => t,
        Err(e) => {
            return Err(e);
        },
    };
    Ok(ScalarFunctionExpr::new(fun.name(), implementation, cast_args, &rt))
}

/// The number of rows of a call whose arguments are arrays of the given
/// lengths or scalars (`None`): the length of the last array, or `None` when
/// every argument is a scalar.
pub open spec fn spec_batch_length(array_lengths: Seq<Option<usize>>) -> Option<usize>
    decreases array_lengths.len(),
{
    if array_lengths.len() == 0 {
        None
    } else if array_lengths.last() is Some {
        array_lengths.last()
    } else {
        spec_batch_length(array_lengths.drop_last())
    }
}

/// The number of rows of a call whose arguments are arrays of the given
/// lengths or scalars (`None`): a function of arrays is given each scalar as
/// an array of that many rows (of one row when there is no array), and its
/// result is turned back to a scalar exactly when this is `None`.
pub fn batch_length(array_lengths: &[Option<usize>]) -> (r: Option<usize>)
    ensures
        r == spec_batch_length(array_lengths@),
{
    let mut len: Option<usize> = None;
    let mut i: usize = 0;
    while i < array_lengths.len()
        invariant
            0 <= i <= array_lengths.len(),
            len == spec_batch_length(array_lengths@.take(i as int)),
        decreases array_lengths.len() - i,
    {
        assert(array_lengths@.take(i + 1).drop_last() =~= array_lengths@.take(i as int));
        match array_lengths[i] {
            Some(n) => {
                len = Some(n);
            },
            None => {},
        }
        i = i + 1;
    }
    assert(array_lengths@.take(array_lengths.len() as int) =~= array_lengths@);
    len
}

/// The result of a call is turned back into a scalar exactly when every
/// argument is a scalar: the number of rows is `None` exactly then.
pub proof fn lemma_batch_length_none_iff_all_scalars(array_lengths: Seq<Option<usize>>)
    ensures
        spec_batch_length(array_lengths) is None <==> forall|i: int|
            0 <= i < array_lengths.len() ==> (#[trigger] array_lengths[i]) is None,
    decreases array_lengths.len(),
{
    if array_lengths.len() > 0 {
        let rest = array_lengths.drop_last();
        lemma_batch_length_none_iff_all_scalars(rest);
        if array_lengths.last() is None {
            assert forall|i: int| 0 <= i < array_lengths.len() && (forall|j: int|
                0 <= j < rest.len() ==> (#[trigger] rest[j]) is None) implies (
            #[trigger] array_lengths[i]) is None by {
                if i < rest.len() {
                    assert(rest[i] == array_lengths[i]);
                }
            }
        }
    }
}

/// The length, in bytes, of a `Utf8` string or null, as an `Int32`.
pub open spec fn spec_utf8_length(value: Option<String>) -> Option<i32> {
    match value {
        Some(s) => Some((encode_utf8(s@).len() as usize) as i32),
        None => None,
    }
}

/// The length, in bytes, of a `LargeUtf8` string or null, as an `Int64`.
pub open spec fn spec_large_utf8_length(value: Option<String>) -> Option<i64> {
    match value {
        Some(s) => Some((encode_utf8(s@).len() as usize) as i64),
        None => None,
    }
}

/// The length, in bytes, of a `Utf8` scalar, as the `Int32` scalar that
/// `length` returns: null for null.
pub fn utf8_length(value: &Option<String>) -> (r: Option<i32>)
    ensures
        r == spec_utf8_length(*value),
{
    match value {
        Some(s) => Some(#[verifier::truncate] (s.as_str().len() as i32)),
        None => None,
    }
}

/// The length, in bytes, of a `LargeUtf8` scalar, as the `Int64` scalar that
/// `length` returns: null for null.
pub fn large_utf8_length(value: &Option<String>) -> (r: Option<i64>)
    ensures
        r == spec_large_utf8_length(*value),
{
    match value {
        Some(s) => Some(#[verifier::truncate] (s.as_str().len() as i64)),
        None => None,
    }
}

} // verus!
