//! Marshaling edge: exact-type acceptance, coercion rejection with the
//! thrown message, and result handling.

use jsg::Error;
use jsg::ExceptionType;
use jsg::Lock;
use jsg::NonCoercible;
use jsg::handle_result;
use jsg::host::FunctionCallbackInfo;
use jsg::host::IsolatePtr;
use jsg::Type;
use jsg::host::Value;

fn test_lock() -> Lock {
    Lock::from_isolate_ptr(IsolatePtr { addr: 1 })
}

#[test]
fn non_coercible_accepts_exact_string() {
    let mut lock = test_lock();
    let got: Option<NonCoercible<String>> =
        NonCoercible::unwrap(&mut lock, Value::Str("hi".to_owned()));
    let inner = got.expect("an exact string is accepted");
    assert_eq!(inner.as_ref(), "hi");
    assert!(lock.pending.is_none());
}

#[test]
fn non_coercible_rejects_null_for_string() {
    let mut lock = test_lock();
    let got: Option<NonCoercible<String>> = NonCoercible::unwrap(&mut lock, Value::Null);
    assert!(got.is_none());
    assert_eq!(
        lock.pending.as_deref(),
        Some("Expected a string value but got object")
    );
}

#[test]
fn non_coercible_rejects_number_for_boolean() {
    let mut lock = test_lock();
    let got: Option<NonCoercible<bool>> = NonCoercible::unwrap(&mut lock, Value::Number);
    assert!(got.is_none());
    assert_eq!(
        lock.pending.as_deref(),
        Some("Expected a boolean value but got number")
    );
}

#[test]
fn non_coercible_accepts_exact_boolean() {
    let mut lock = test_lock();
    let got: Option<NonCoercible<bool>> = NonCoercible::unwrap(&mut lock, Value::Boolean(true));
    assert!(*got.expect("an exact boolean is accepted").as_ref());
}

#[test]
fn type_of_reports_host_type_names() {
    assert_eq!(Value::Undefined.type_of(), "undefined");
    assert_eq!(Value::Null.type_of(), "object");
    assert_eq!(Value::Boolean(false).type_of(), "boolean");
    assert_eq!(Value::Number.type_of(), "number");
    assert_eq!(Value::Str(String::new()).type_of(), "string");
    assert_eq!(Value::Object.type_of(), "object");
}

#[test]
fn handle_result_sets_return_value_on_success() {
    let mut lock = test_lock();
    let mut args = FunctionCallbackInfo { isolate: lock.isolate(), return_value: None };
    handle_result::<String>(&mut lock, &mut args, Ok("fine".to_owned()));
    match args.return_value {
        Some(Value::Str(s)) => assert_eq!(s, "fine"),
        _ => panic!("success must wrap the value"),
    }
    assert!(lock.pending.is_none());
}

#[test]
fn handle_result_throws_on_error() {
    let mut lock = test_lock();
    let mut args = FunctionCallbackInfo { isolate: lock.isolate(), return_value: None };
    handle_result::<String>(
        &mut lock,
        &mut args,
        Err(Error::new(ExceptionType::TypeError, "bad input".to_owned())),
    );
    assert!(args.return_value.is_none());
    assert_eq!(lock.pending.as_deref(), Some("bad input"));
}

#[test]
fn default_error_is_the_unknown_error() {
    let e = Error::default();
    assert_eq!(e.name, ExceptionType::Error);
    assert_eq!(e.message, "An unknown error occurred");
}

#[test]
fn lock_carries_its_isolate() {
    let args = FunctionCallbackInfo { isolate: IsolatePtr { addr: 42 }, return_value: None };
    let lock = Lock::from_args(&args);
    assert_eq!(lock.isolate(), IsolatePtr { addr: 42 });
}

#[test]
fn wrap_then_unwrap_returns_the_value() {
    let mut lock = test_lock();
    let v = <String as Type>::wrap("round".to_owned(), &mut lock);
    assert!(<String as Type>::is_exact(&v));
    assert_eq!(<String as Type>::unwrap(lock.isolate(), v), "round");
    let b = <bool as Type>::wrap(true, &mut lock);
    assert!(<bool as Type>::is_exact(&b));
    assert!(<bool as Type>::unwrap(lock.isolate(), b));
}
