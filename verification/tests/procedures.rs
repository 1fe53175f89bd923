use test_napi::{
    complete, execute, init, test_async_work, Arguments, AsyncWork, Baton, CallbackInfo, Complete,
    Entry, Env, Fault, PropertyDescriptor, Reference, Reply, Request, Step, TestAsyncWork, Value,
};

const ENV: Env = Env { addr: 0x1000 };
const INFO: CallbackInfo = CallbackInfo { addr: 0x2000 };
const CALLBACK: Value = Value { addr: 0x3000 };
const NAME: Value = Value { addr: 0x3100 };
const GLOBAL: Value = Value { addr: 0x3200 };
const FUNCTION: Value = Value { addr: 0x3300 };
const RESULT: Value = Value { addr: 0x3400 };
const REFERENCE: Reference = Reference { addr: 0x4000 };
const WORK: AsyncWork = AsyncWork { addr: 0x5000 };

/// How a procedure ended.
#[derive(Debug, PartialEq)]
enum End<R> {
    Suspended,
    Returned(R),
    Aborted(Fault),
}

fn run_call(replies: &[Reply]) -> (Vec<Request>, End<Value>) {
    let mut requests: Vec<Request> = Vec::new();
    let mut step: Step<TestAsyncWork, Value> = test_async_work(ENV, INFO);
    for reply in replies {
        match step {
            Step::Call(suspended, request) => {
                requests.push(request);
                step = suspended.resume(*reply);
            }
            _ => panic!("ended before reply {:?}", reply),
        }
    }
    match step {
        Step::Call(_, request) => {
            requests.push(request);
            (requests, End::Suspended)
        }
        Step::Return(value) => (requests, End::Returned(value)),
        Step::Abort(fault) => (requests, End::Aborted(fault)),
    }
}

fn run_completion(status: i32, baton: Baton, replies: &[Reply]) -> (Vec<Request>, End<()>) {
    let mut requests: Vec<Request> = Vec::new();
    let mut step: Step<Complete, ()> = complete(ENV, status, baton);
    for reply in replies {
        match step {
            Step::Call(suspended, request) => {
                requests.push(request);
                step = suspended.resume(*reply);
            }
            _ => panic!("ended before reply {:?}", reply),
        }
    }
    match step {
        Step::Call(_, request) => {
            requests.push(request);
            (requests, End::Suspended)
        }
        Step::Return(()) => (requests, End::Returned(())),
        Step::Abort(fault) => (requests, End::Aborted(fault)),
    }
}

fn call_replies() -> Vec<Reply> {
    vec![
        Reply::CallbackInfo { status: 0, argc: 1, arg: CALLBACK },
        Reply::ValueType { status: 0, ty: napi_sys::ValueType::napi_function },
        Reply::Value { status: 0, value: NAME },
        Reply::Reference { status: 0, reference: REFERENCE },
        Reply::Work { status: 0, work: WORK },
        Reply::Status { status: 0 },
    ]
}

fn completion_replies() -> Vec<Reply> {
    vec![
        Reply::Value { status: 0, value: GLOBAL },
        Reply::Value { status: 0, value: FUNCTION },
        Reply::Value { status: 0, value: RESULT },
        Reply::Status { status: 0 },
        Reply::Status { status: 0 },
    ]
}

fn call_requests() -> Vec<Request> {
    vec![
        Request::GetCallbackInfo { env: ENV, info: INFO, argc: 1 },
        Request::TypeOf { env: ENV, value: CALLBACK, result: -1 },
        Request::CreateStringUtf8 {
            env: ENV,
            text: "test_async_resource\0",
            length: usize::MAX,
            result: Value { addr: 0 },
        },
        Request::CreateReference {
            env: ENV,
            value: CALLBACK,
            initial_refcount: 1,
            result: Reference { addr: 0 },
        },
        Request::CreateAsyncWork {
            env: ENV,
            async_resource: Value { addr: 0 },
            async_resource_name: NAME,
            execute: Entry::Execute,
            complete: Entry::Complete,
            data: Baton { called: false, func: REFERENCE, task: AsyncWork { addr: 0 } },
            result: AsyncWork { addr: 0 },
        },
        Request::QueueAsyncWork { env: ENV, work: WORK },
    ]
}

fn completion_requests(baton: Baton) -> Vec<Request> {
    vec![
        Request::GetGlobal { env: ENV, result: Value { addr: 0 } },
        Request::GetReferenceValue {
            env: ENV,
            reference: baton.func,
            result: Value { addr: 0 },
        },
        Request::CallFunction {
            env: ENV,
            recv: GLOBAL,
            func: FUNCTION,
            argc: 0,
            argv: Arguments { addr: 0 },
            result: Value { addr: 0 },
        },
        Request::DeleteReference { env: ENV, reference: baton.func },
        Request::DeleteAsyncWork { env: ENV, work: baton.task },
    ]
}

fn with_status(reply: Reply, status: i32) -> Reply {
    match reply {
        Reply::CallbackInfo { argc, arg, .. } => Reply::CallbackInfo { status, argc, arg },
        Reply::ValueType { ty, .. } => Reply::ValueType { status, ty },
        Reply::Value { value, .. } => Reply::Value { status, value },
        Reply::Reference { reference, .. } => Reply::Reference { status, reference },
        Reply::Work { work, .. } => Reply::Work { status, work },
        Reply::Status { .. } => Reply::Status { status },
    }
}

fn executed() -> Baton {
    Baton { called: true, func: REFERENCE, task: AsyncWork { addr: 0x6000 } }
}

#[test]
fn call_goes_through() {
    let (requests, end) = run_call(&call_replies());
    assert_eq!(requests, call_requests());
    assert_eq!(end, End::Returned(Value { addr: 0 }));
}

#[test]
fn call_makes_one_request_at_a_time() {
    for n in 0..6 {
        let (requests, end) = run_call(&call_replies()[..n]);
        assert_eq!(requests[..], call_requests()[..n + 1]);
        assert_eq!(end, End::Suspended);
    }
}

#[test]
fn call_stops_where_the_runtime_fails() {
    for n in 0..6 {
        let mut replies = call_replies();
        replies.truncate(n + 1);
        replies[n] = with_status(replies[n], napi_sys::Status::napi_generic_failure);
        let (requests, end) = run_call(&replies);
        assert_eq!(requests[..], call_requests()[..n + 1]);
        assert_eq!(end, End::Aborted(Fault::CallFailed { status: 9 }));
    }
}

#[test]
fn call_wants_exactly_one_argument() {
    for argc in [0, 2, usize::MAX] {
        let (requests, end) = run_call(&[Reply::CallbackInfo { status: 0, argc, arg: CALLBACK }]);
        assert_eq!(requests.len(), 1);
        assert_eq!(end, End::Aborted(Fault::ArgumentCount { argc }));
    }
}

#[test]
fn call_looks_at_the_status_before_the_argument_count() {
    let (_, end) = run_call(&[Reply::CallbackInfo { status: 1, argc: 0, arg: CALLBACK }]);
    assert_eq!(end, End::Aborted(Fault::CallFailed { status: 1 }));
}

#[test]
fn call_wants_a_function() {
    for ty in [-1, 0, 6, 8] {
        let replies = [call_replies()[0], Reply::ValueType { status: 0, ty }];
        let (requests, end) = run_call(&replies);
        assert_eq!(requests.len(), 2);
        assert_eq!(end, End::Aborted(Fault::NotAFunction { ty }));
    }
}

#[test]
fn call_refuses_a_reply_to_another_request() {
    let mismatched = [
        Reply::Status { status: 0 },
        Reply::Value { status: 0, value: NAME },
        Reply::ValueType { status: 0, ty: 7 },
        Reply::Work { status: 0, work: WORK },
        Reply::Reference { status: 0, reference: REFERENCE },
        Reply::CallbackInfo { status: 0, argc: 1, arg: CALLBACK },
    ];
    for n in 0..6 {
        let mut replies = call_replies();
        replies.truncate(n);
        replies.push(mismatched[n]);
        let (_, end) = run_call(&replies);
        assert_eq!(end, End::Aborted(Fault::UnexpectedReply));
    }
}

#[test]
fn completion_goes_through() {
    let (requests, end) = run_completion(0, executed(), &completion_replies());
    assert_eq!(requests, completion_requests(executed()));
    assert_eq!(end, End::Returned(()));
}

#[test]
fn completion_makes_one_request_at_a_time() {
    for n in 0..5 {
        let (requests, end) = run_completion(0, executed(), &completion_replies()[..n]);
        assert_eq!(requests[..], completion_requests(executed())[..n + 1]);
        assert_eq!(end, End::Suspended);
    }
}

#[test]
fn completion_stops_where_the_runtime_fails() {
    for n in 0..5 {
        let mut replies = completion_replies();
        replies.truncate(n + 1);
        replies[n] = with_status(replies[n], napi_sys::Status::napi_pending_exception);
        let (requests, end) = run_completion(0, executed(), &replies);
        assert_eq!(requests[..], completion_requests(executed())[..n + 1]);
        assert_eq!(end, End::Aborted(Fault::CallFailed { status: 10 }));
    }
}

#[test]
fn completion_refuses_a_reply_to_another_request() {
    for n in 0..5 {
        let mut replies = completion_replies();
        replies.truncate(n);
        replies.push(Reply::Work { status: 0, work: WORK });
        let (_, end) = run_completion(0, executed(), &replies);
        assert_eq!(end, End::Aborted(Fault::UnexpectedReply));
    }
}

#[test]
fn completion_refuses_work_that_failed() {
    let status = napi_sys::Status::napi_cancelled;
    let fresh = Baton { called: false, func: Reference { addr: 0 }, task: WORK };
    let (requests, end) = run_completion(status, fresh, &[]);
    assert!(requests.is_empty());
    assert_eq!(end, End::Aborted(Fault::WorkFailed { status: 11 }));
}

#[test]
fn completion_refuses_work_that_was_not_executed() {
    let fresh = Baton { called: false, func: Reference { addr: 0 }, task: WORK };
    let (requests, end) = run_completion(0, fresh, &[]);
    assert!(requests.is_empty());
    assert_eq!(end, End::Aborted(Fault::NotCalled));
}

#[test]
fn completion_refuses_a_null_function() {
    let baton = Baton { called: true, func: Reference { addr: 0 }, task: WORK };
    let (requests, end) = run_completion(0, baton, &[]);
    assert!(requests.is_empty());
    assert_eq!(end, End::Aborted(Fault::NullFunction));
}

#[test]
fn reference_is_returned_and_null_work_deleted() {
    let (requests, _) = run_call(&call_replies());
    let mut carried: Option<Baton> = None;
    for request in &requests {
        if let Request::CreateAsyncWork { data, .. } = request {
            carried = Some(*data);
        }
    }
    let mut baton = carried.unwrap();
    assert_eq!(execute(&mut baton), Ok(()));
    let (requests, end) = run_completion(0, baton, &completion_replies());
    assert_eq!(requests[3], Request::DeleteReference { env: ENV, reference: REFERENCE });
    assert_eq!(requests[4], Request::DeleteAsyncWork { env: ENV, work: AsyncWork { addr: 0 } });
    assert_eq!(end, End::Returned(()));
}

#[test]
fn a_null_reference_is_caught_by_execute() {
    let mut replies = call_replies();
    replies[3] = Reply::Reference { status: 0, reference: Reference { addr: 0 } };
    let (requests, end) = run_call(&replies);
    assert_eq!(end, End::Returned(Value { addr: 0 }));
    match requests[4] {
        Request::CreateAsyncWork { mut data, .. } => {
            assert_eq!(execute(&mut data), Err(Fault::NullFunction));
        }
        _ => unreachable!(),
    }
}

#[test]
fn init_defines_the_method_and_ignores_the_status() {
    let exports = Value { addr: 0x7000 };
    for status in [0, 1, 9, -1] {
        match init(ENV, exports) {
            Step::Call(suspended, request) => {
                assert_eq!(
                    request,
                    Request::DefineProperties {
                        env: ENV,
                        object: exports,
                        properties: vec![PropertyDescriptor {
                            utf8name: "test_async_work\0",
                            method: Entry::TestAsyncWork,
                        }],
                    }
                );
                assert!(matches!(suspended.resume(Reply::Status { status }), Step::Return(())));
            }
            _ => unreachable!(),
        }
    }
}

#[test]
fn names_are_closed_by_their_one_nul() {
    let names = [test_napi::test_async_work::RESOURCE_NAME, test_napi::init::METHOD_NAME];
    for name in names {
        assert_eq!(name.find('\0'), Some(name.len() - 1));
    }
}
