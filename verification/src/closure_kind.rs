//! The foreign side of a handle: the closure that the runtime calls, tagged by
//! the number of arguments it is called with.

use js_sys::Function;
use vstd::prelude::*;
use wasm_bindgen::closure::Closure;
use wasm_bindgen::JsValue;

verus! {

/// `wasm_bindgen::closure::Closure`, a Rust closure made callable from
/// JavaScript. Verus sees nothing inside it.
#[verifier::external_type_specification]
#[verifier::external_body]
#[verifier::reject_recursive_types(T)]
pub struct ExClosure<T: ?Sized>(wasm_bindgen::closure::Closure<T>);

/// `js_sys::Function`, a reference to a JavaScript function. Verus sees nothing
/// inside it.
#[verifier::external_type_specification]
#[verifier::external_body]
pub struct ExFunction(js_sys::Function);

/// Trusted: takes the JavaScript value of a `wasm_bindgen::closure::Closure`
/// (`AsRef<JsValue>`), makes a new reference to it (`JsValue::from(&JsValue)`)
/// and views that reference as a `js_sys::Function` (`Function::from(JsValue)`,
/// an unchecked cast). Nothing is claimed of the result. The call is only
/// defined on wasm targets.
#[verifier::external_body]
pub(crate) fn closure_function<T: ?Sized>(closure: &Closure<T>) -> (function: Function) {
    let value: JsValue = closure.as_ref().into();
    value.into()
}

/// That `function` is what the conversion gives for `closure`: a plain
/// JavaScript function that refers to this closure and to no other.
pub closed spec fn converts<T: ?Sized>(closure: &Closure<T>, function: Function) -> bool {
    call_ensures(closure_function::<T>, (closure,), function)
}

/// The closure as a plain JavaScript function.
pub(crate) fn function_of<T: ?Sized>(closure: &Closure<T>) -> (function: Function)
    ensures
        converts(closure, function),
{
    closure_function(closure)
}

/// A foreign callable, tagged by the number of arguments the runtime calls it
/// with.
pub enum ClosureKind<H0, H1, H2, H3, H4, H5, H6> {
    Arg0(H0),
    Arg1(H1),
    Arg2(H2),
    Arg3(H3),
    Arg4(H4),
    Arg5(H5),
    Arg6(H6),
}

impl<H0, H1, H2, H3, H4, H5, H6> ClosureKind<H0, H1, H2, H3, H4, H5, H6> {
    /// The number of arguments the callable advertises.
    pub open spec fn spec_arity(&self) -> nat {
        match self {
            ClosureKind::Arg0(_) => 0,
            ClosureKind::Arg1(_) => 1,
            ClosureKind::Arg2(_) => 2,
            ClosureKind::Arg3(_) => 3,
            ClosureKind::Arg4(_) => 4,
            ClosureKind::Arg5(_) => 5,
            ClosureKind::Arg6(_) => 6,
        }
    }

    /// The name of the variant, as `name` gives it.
    pub open spec fn spec_name(&self) -> Seq<char> {
        match self {
            ClosureKind::Arg0(_) => "ClosureKind::Arg0"@,
            ClosureKind::Arg1(_) => "ClosureKind::Arg1"@,
            ClosureKind::Arg2(_) => "ClosureKind::Arg2"@,
            ClosureKind::Arg3(_) => "ClosureKind::Arg3"@,
            ClosureKind::Arg4(_) => "ClosureKind::Arg4"@,
            ClosureKind::Arg5(_) => "ClosureKind::Arg5"@,
            ClosureKind::Arg6(_) => "ClosureKind::Arg6"@,
        }
    }

    /// The name of the variant, for a log or a debugger. The callable itself
    /// cannot be shown and is left out.
    pub fn name(&self) -> (name: &'static str)
        ensures
            name@ == self.spec_name(),
    {
        match self {
            ClosureKind::Arg0(_) => "ClosureKind::Arg0",
            ClosureKind::Arg1(_) => "ClosureKind::Arg1",
            ClosureKind::Arg2(_) => "ClosureKind::Arg2",
            ClosureKind::Arg3(_) => "ClosureKind::Arg3",
            ClosureKind::Arg4(_) => "ClosureKind::Arg4",
            ClosureKind::Arg5(_) => "ClosureKind::Arg5",
            ClosureKind::Arg6(_) => "ClosureKind::Arg6",
        }
    }

    /// The number of arguments the callable advertises.
    pub fn arity(&self) -> (n: usize)
        ensures
            n == self.spec_arity(),
            n <= 6,
    {
        match self {
            ClosureKind::Arg0(_) => 0,
            ClosureKind::Arg1(_) => 1,
            ClosureKind::Arg2(_) => 2,
            ClosureKind::Arg3(_) => 3,
            ClosureKind::Arg4(_) => 4,
            ClosureKind::Arg5(_) => 5,
            ClosureKind::Arg6(_) => 6,
        }
    }
}

impl<
    T0: ?Sized,
    T1: ?Sized,
    T2: ?Sized,
    T3: ?Sized,
    T4: ?Sized,
    T5: ?Sized,
    T6: ?Sized,
> ClosureKind<
    Closure<T0>,
    Closure<T1>,
    Closure<T2>,
    Closure<T3>,
    Closure<T4>,
    Closure<T5>,
    Closure<T6>,
> {
    /// That `function` is what the conversion gives for the closure that this
    /// variant holds.
    pub open spec fn converts_to(&self, function: Function) -> bool {
        match self {
            ClosureKind::Arg0(closure) => converts(closure, function),
            ClosureKind::Arg1(closure) => converts(closure, function),
            ClosureKind::Arg2(closure) => converts(closure, function),
            ClosureKind::Arg3(closure) => converts(closure, function),
            ClosureKind::Arg4(closure) => converts(closure, function),
            ClosureKind::Arg5(closure) => converts(closure, function),
            ClosureKind::Arg6(closure) => converts(closure, function),
        }
    }

    /// The callable as a plain JavaScript function, whatever its arity: the
    /// conversion of the closure that this variant holds.
    pub fn to_function(&self) -> (function: Function)
        ensures
            self.converts_to(function),
    {
        match self {
            ClosureKind::Arg0(closure) => function_of(closure),
            ClosureKind::Arg1(closure) => function_of(closure),
            ClosureKind::Arg2(closure) => function_of(closure),
            ClosureKind::Arg3(closure) => function_of(closure),
            ClosureKind::Arg4(closure) => function_of(closure),
            ClosureKind::Arg5(closure) => function_of(closure),
            ClosureKind::Arg6(closure) => function_of(closure),
        }
    }
}

} // verus!
