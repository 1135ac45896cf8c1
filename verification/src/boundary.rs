//! The values that cross the boundary with the foreign runtime, and the three
//! conventions by which a handle's arguments become an outcome.

use vstd::prelude::*;
use wasm_bindgen::JsValue;

verus! {

/// A value exchanged with the foreign runtime.
///
/// A bridge only moves such values. The one thing it ever asks of a value is
/// whether it is one of the runtime's two "nothing here" sentinels.
pub trait Boundary: Sized {
    /// Whether the value is the runtime's null sentinel.
    spec fn spec_is_null(&self) -> bool;

    /// Whether the value is the runtime's undefined sentinel.
    spec fn spec_is_undefined(&self) -> bool;

    /// Tests for the null sentinel.
    fn is_null(&self) -> (b: bool)
        ensures
            b == self.spec_is_null(),
    ;

    /// Tests for the undefined sentinel.
    fn is_undefined(&self) -> (b: bool)
        ensures
            b == self.spec_is_undefined(),
    ;
}

/// `wasm_bindgen::JsValue`, a reference to a value that lives on the JavaScript
/// side. Verus sees nothing inside it.
#[verifier::external_type_specification]
#[verifier::external_body]
pub struct ExJsValue(wasm_bindgen::JsValue);

/// Whether the JavaScript value behind `v` is `null`.
pub uninterp spec fn js_null(v: JsValue) -> bool;

/// Whether the JavaScript value behind `v` is `undefined`.
pub uninterp spec fn js_undefined(v: JsValue) -> bool;

/// Trusted: calls `wasm_bindgen::JsValue::is_null`, which asks the JavaScript
/// side whether the referenced value is `null`. The answer is a property of
/// that value and stays the same for as long as the reference lives. The call
/// is only defined on wasm targets; anywhere else wasm-bindgen aborts it.
#[verifier::external_body]
fn js_is_null(v: &JsValue) -> (b: bool)
    ensures
        b == js_null(*v),
{
    v.is_null()
}

/// Trusted: calls `wasm_bindgen::JsValue::is_undefined`, which asks the
/// JavaScript side whether the referenced value is `undefined`. The answer is
/// a property of that value and stays the same for as long as the reference
/// lives. The call is only defined on wasm targets; anywhere else wasm-bindgen
/// aborts it.
#[verifier::external_body]
fn js_is_undefined(v: &JsValue) -> (b: bool)
    ensures
        b == js_undefined(*v),
{
    v.is_undefined()
}

impl Boundary for JsValue {
    open spec fn spec_is_null(&self) -> bool {
        js_null(*self)
    }

    open spec fn spec_is_undefined(&self) -> bool {
        js_undefined(*self)
    }

    fn is_null(&self) -> (b: bool) {
        js_is_null(self)
    }

    fn is_undefined(&self) -> (b: bool) {
        js_is_undefined(self)
    }
}

/// A first argument that reports no error: one of the two sentinels, and
/// nothing else. A defined value counts as an error even when it is falsy.
pub open spec fn reports_no_error<V: Boundary>(err: V) -> bool {
    err.spec_is_null() || err.spec_is_undefined()
}

/// The outcome of an `(err, data)` pair under the node convention.
pub open spec fn node_outcome<V: Boundary>(err: V, data: V) -> Result<V, V> {
    if reports_no_error(err) {
        Ok(data)
    } else {
        Err(err)
    }
}

/// The single value a handle was called with, as a success.
pub fn identity<V>(data: V) -> (out: Result<V, V>)
    ensures
        out == Ok::<V, V>(data),
{
    Ok(data)
}

/// The single value a handle was called with, as a failure.
pub fn reject<V>(err: V) -> (out: Result<V, V>)
    ensures
        out == Err::<V, V>(err),
{
    Err(err)
}

/// Decides an `(err, data)` pair once it is known whether `err` is a sentinel.
pub fn node_result<V>(no_error: bool, err: V, data: V) -> (out: Result<V, V>)
    ensures
        out == (if no_error {
            Ok::<V, V>(data)
        } else {
            Err::<V, V>(err)
        }),
{
    if no_error {
        Ok(data)
    } else {
        Err(err)
    }
}

/// The node convention: `Ok(data)` when `err` is the null or the undefined
/// sentinel, `Err(err)` for every other `err`.
pub fn node_style<V: Boundary>(err: V, data: V) -> (out: Result<V, V>)
    ensures
        out == node_outcome(err, data),
{
    let no_error = err.is_null() || err.is_undefined();
    node_result(no_error, err, data)
}

} // verus!
