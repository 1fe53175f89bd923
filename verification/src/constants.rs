//! The numbers of the runtime's interface that the procedures test replies against.

use vstd::prelude::*;

verus! {

/// Whether a status says that a call succeeded.
pub open spec fn status_is_ok(status: i32) -> bool {
    status == 0
}

/// Whether a value type is that of a function.
pub open spec fn type_is_function(ty: i32) -> bool {
    ty == 7
}

/// Reads `napi_sys::Status::napi_ok`, the status of a call that succeeded. That it is zero is
/// taken from the constant's definition.
#[verifier::external_body]
fn napi_ok() -> (status: i32)
    ensures
        status == 0,
{
    napi_sys::Status::napi_ok
}

/// Reads `napi_sys::ValueType::napi_function`, the value type of a function. That it is seven is
/// taken from the constant's definition.
#[verifier::external_body]
fn napi_function() -> (ty: i32)
    ensures
        ty == 7,
{
    napi_sys::ValueType::napi_function
}

/// Whether `status` says that a call succeeded.
pub fn is_ok(status: i32) -> (ok: bool)
    ensures
        ok == status_is_ok(status),
        ok == (status == 0),
{
    status == napi_ok()
}

/// Whether `ty` is the value type of a function.
pub fn is_function(ty: i32) -> (function: bool)
    ensures
        function == type_is_function(ty),
        function == (ty == 7),
{
    ty == napi_function()
}

} // verus!
