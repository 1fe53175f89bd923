use test_napi::constants::{is_function, is_ok};
use test_napi::{Arguments, AsyncWork, Reference, Value};

#[test]
fn only_the_runtimes_ok_is_ok() {
    assert!(is_ok(napi_sys::Status::napi_ok));
    assert!(is_ok(0));
    assert!(!is_ok(napi_sys::Status::napi_invalid_arg));
    assert!(!is_ok(napi_sys::Status::napi_cancelled));
    assert!(!is_ok(-1));
}

#[test]
fn only_the_runtimes_function_is_a_function() {
    assert!(is_function(napi_sys::ValueType::napi_function));
    assert!(is_function(7));
    assert!(!is_function(napi_sys::ValueType::napi_undefined));
    assert!(!is_function(napi_sys::ValueType::napi_object));
    assert!(!is_function(napi_sys::ValueType::napi_external));
    assert!(!is_function(-1));
}

#[test]
fn null_is_address_zero() {
    assert_eq!(Value::null(), Value { addr: 0 });
    assert_eq!(Reference::null(), Reference { addr: 0 });
    assert_eq!(AsyncWork::null(), AsyncWork { addr: 0 });
    assert_eq!(Arguments::null(), Arguments { addr: 0 });
    assert!(Reference { addr: 0 }.is_null());
    assert!(!Reference { addr: 1 }.is_null());
}
