//! What passes between the procedures and the runtime.

use vstd::prelude::*;

use crate::baton::Baton;
use crate::handle::{Arguments, AsyncWork, CallbackInfo, Env, Reference, Value};

verus! {

/// A function of this module that the runtime may call.
#[derive(Clone, Copy, Debug, PartialEq, Eq, Structural)]
pub enum Entry {
    /// Called from script: [`test_async_work`](crate::test_async_work::test_async_work).
    TestAsyncWork,
    /// Called on a worker: [`execute`](crate::baton::execute).
    Execute,
    /// Called once the worker is done: [`complete`](crate::complete::complete).
    Complete,
}

/// A property that is a method.
#[derive(Clone, Copy, Debug, PartialEq, Eq)]
pub struct PropertyDescriptor {
    /// The property's name, closed by a NUL.
    pub utf8name: &'static str,
    /// What a call of the property runs.
    pub method: Entry,
}

/// A call into the runtime, with everything that is handed to it.
///
/// A call that gives something back writes it to a cell. `result`, like `argc` of
/// `GetCallbackInfo`, is what that cell holds before the call.
#[derive(Debug, PartialEq, Eq)]
pub enum Request {
    /// Fetch the arguments of a call from script, into a list with room for `argc` of them.
    GetCallbackInfo { env: Env, info: CallbackInfo, argc: usize },
    /// Ask for the type of `value`.
    TypeOf { env: Env, value: Value, result: i32 },
    /// Make a script string of `text`. The largest `length` says that a NUL closes it.
    CreateStringUtf8 { env: Env, text: &'static str, length: usize, result: Value },
    /// Make a reference to `value` with a count of `initial_refcount`.
    CreateReference { env: Env, value: Value, initial_refcount: u32, result: Reference },
    /// Make a unit of asynchronous work that carries `data`.
    CreateAsyncWork {
        env: Env,
        async_resource: Value,
        async_resource_name: Value,
        execute: Entry,
        complete: Entry,
        data: Baton,
        result: AsyncWork,
    },
    /// Queue `work`.
    QueueAsyncWork { env: Env, work: AsyncWork },
    /// Fetch the global object.
    GetGlobal { env: Env, result: Value },
    /// Fetch the value that `reference` refers to.
    GetReferenceValue { env: Env, reference: Reference, result: Value },
    /// Call `func` on `recv` with the `argc` arguments at `argv`.
    CallFunction {
        env: Env,
        recv: Value,
        func: Value,
        argc: usize,
        argv: Arguments,
        result: Value,
    },
    /// Delete `reference`.
    DeleteReference { env: Env, reference: Reference },
    /// Delete `work`.
    DeleteAsyncWork { env: Env, work: AsyncWork },
    /// Define `properties` on `object`.
    DefineProperties { env: Env, object: Value, properties: Vec<PropertyDescriptor> },
}

/// What the runtime answers: the status of the call, and what its cells hold after it.
#[derive(Clone, Copy, Debug, PartialEq, Eq, Structural)]
pub enum Reply {
    /// The number of arguments that script passed, and the first of them.
    CallbackInfo { status: i32, argc: usize, arg: Value },
    /// The type of a value.
    ValueType { status: i32, ty: i32 },
    /// A value.
    Value { status: i32, value: Value },
    /// A reference.
    Reference { status: i32, reference: Reference },
    /// A unit of asynchronous work.
    Work { status: i32, work: AsyncWork },
    /// Nothing but the status.
    Status { status: i32 },
}

/// The check that a procedure found broken.
#[derive(Clone, Copy, Debug, PartialEq, Eq, Structural)]
pub enum Fault {
    /// A call into the runtime ended in another status than success.
    CallFailed { status: i32 },
    /// Script passed another number of arguments than one.
    ArgumentCount { argc: usize },
    /// The argument is no function.
    NotAFunction { ty: i32 },
    /// Work is executed a second time.
    AlreadyCalled,
    /// The baton holds no function to call.
    NullFunction,
    /// The work ended in another status than success.
    WorkFailed { status: i32 },
    /// Work is completed that was not executed.
    NotCalled,
    /// The reply answers another request than the one that was made.
    UnexpectedReply,
}

/// Where a procedure stands.
pub enum Step<M, R> {
    /// Suspended: make the request, and hand the reply to `M`'s `resume`.
    Call(M, Request),
    /// Done, with a result.
    Return(R),
    /// Stopped for good by a broken check.
    Abort(Fault),
}

impl Request {
    /// The environment that the call is made in.
    pub open spec fn env(self) -> Env {
        match self {
            Request::GetCallbackInfo { env, .. } => env,
            Request::TypeOf { env, .. } => env,
            Request::CreateStringUtf8 { env, .. } => env,
            Request::CreateReference { env, .. } => env,
            Request::CreateAsyncWork { env, .. } => env,
            Request::QueueAsyncWork { env, .. } => env,
            Request::GetGlobal { env, .. } => env,
            Request::GetReferenceValue { env, .. } => env,
            Request::CallFunction { env, .. } => env,
            Request::DeleteReference { env, .. } => env,
            Request::DeleteAsyncWork { env, .. } => env,
            Request::DefineProperties { env, .. } => env,
        }
    }

    /// Whether `reply` is of the kind that answers this request.
    pub open spec fn answered_by(self, reply: Reply) -> bool {
        match self {
            Request::GetCallbackInfo { .. } => reply is CallbackInfo,
            Request::TypeOf { .. } => reply is ValueType,
            Request::CreateStringUtf8 { .. } => reply is Value,
            Request::CreateReference { .. } => reply is Reference,
            Request::CreateAsyncWork { .. } => reply is Work,
            Request::QueueAsyncWork { .. } => reply is Status,
            Request::GetGlobal { .. } => reply is Value,
            Request::GetReferenceValue { .. } => reply is Value,
            Request::CallFunction { .. } => reply is Value,
            Request::DeleteReference { .. } => reply is Status,
            Request::DeleteAsyncWork { .. } => reply is Status,
            Request::DefineProperties { .. } => reply is Status,
        }
    }
}

impl Reply {
    /// The status of the call.
    pub open spec fn status(self) -> i32 {
        match self {
            Reply::CallbackInfo { status, .. } => status,
            Reply::ValueType { status, .. } => status,
            Reply::Value { status, .. } => status,
            Reply::Reference { status, .. } => status,
            Reply::Work { status, .. } => status,
            Reply::Status { status } => status,
        }
    }
}

} // verus!
