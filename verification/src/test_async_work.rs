//! The function that script calls with a callback: it queues asynchronous work that, once
//! executed, has the callback called.

use vstd::prelude::*;

use crate::baton::Baton;
use crate::constants::{is_function, is_ok, status_is_ok, type_is_function};
use crate::handle::{AsyncWork, CallbackInfo, Env, Reference, Value};
use crate::protocol::{Entry, Fault, Reply, Request, Step};

verus! {

/// The name under which the runtime lists the work, closed by a NUL.
pub const RESOURCE_NAME: &'static str = "test_async_resource\0";

/// A call from script.
#[derive(Clone, Copy, Debug, PartialEq, Eq, Structural)]
pub struct Invocation {
    pub env: Env,
    pub info: CallbackInfo,
}

/// Whether `reply` is of the kind that the request at `index`, counted from zero, is answered by.
pub open spec fn answers(index: int, reply: Reply) -> bool {
    ||| index == 0 && reply is CallbackInfo
    ||| index == 1 && reply is ValueType
    ||| index == 2 && reply is Value
    ||| index == 3 && reply is Reference
    ||| index == 4 && reply is Work
    ||| index == 5 && reply is Status
}

/// The check that the reply to the request at `index` breaks.
///
/// Every call has to succeed. Script has to pass exactly one argument, and that argument has to
/// be a function.
pub open spec fn reply_fault(index: int, reply: Reply) -> Option<Fault> {
    if !answers(index, reply) {
        Some(Fault::UnexpectedReply)
    } else if !status_is_ok(reply.status()) {
        Some(Fault::CallFailed { status: reply.status() })
    } else {
        match reply {
            Reply::CallbackInfo { argc, .. } if argc != 1 => Some(Fault::ArgumentCount { argc }),
            Reply::ValueType { ty, .. } if !type_is_function(ty) => Some(Fault::NotAFunction { ty }),
            _ => None,
        }
    }
}

/// Whether no reply breaks a check.
pub open spec fn accepted(replies: Seq<Reply>) -> bool {
    forall|i: int| 0 <= i < replies.len() ==> reply_fault(i, #[trigger] replies[i]) is None
}

/// The baton that goes with the work: not called yet, holding the reference to the callback.
///
/// It is made before the work is, so the work that it names is the null one.
pub open spec fn new_baton(func: Reference) -> Baton {
    Baton { called: false, func, task: AsyncWork::null() }
}

/// The request that follows after `replies`.
pub open spec fn request(invocation: Invocation, replies: Seq<Reply>) -> Request
    recommends
        accepted(replies),
        replies.len() < 6,
{
    let env = invocation.env;
    if replies.len() == 0 {
        Request::GetCallbackInfo { env, info: invocation.info, argc: 1 }
    } else if replies.len() == 1 {
        Request::TypeOf { env, value: replies[0]->arg, result: -1i32 }
    } else if replies.len() == 2 {
        Request::CreateStringUtf8 {
            env,
            text: RESOURCE_NAME,
            length: usize::MAX,
            result: Value::null(),
        }
    } else if replies.len() == 3 {
        Request::CreateReference {
            env,
            value: replies[0]->arg,
            initial_refcount: 1,
            result: Reference::null(),
        }
    } else if replies.len() == 4 {
        Request::CreateAsyncWork {
            env,
            async_resource: Value::null(),
            async_resource_name: replies[2]->value,
            execute: Entry::Execute,
            complete: Entry::Complete,
            data: new_baton(replies[3]->reference),
            result: AsyncWork::null(),
        }
    } else {
        Request::QueueAsyncWork { env, work: replies[4]->work }
    }
}

/// What has been kept of the replies.
enum Stage {
    CallbackInfo,
    ValueType { callback: Value },
    ResourceName { callback: Value },
    Reference { resource_name: Value },
    Work,
    Queue,
}

/// The procedure, suspended until its pending request is answered.
pub struct TestAsyncWork {
    env: Env,
    stage: Stage,
    invocation: Ghost<Invocation>,
    replies: Ghost<Seq<Reply>>,
}

impl TestAsyncWork {
    /// The call that the procedure serves.
    pub closed spec fn invocation(self) -> Invocation {
        self.invocation@
    }

    /// The replies so far, first to last.
    pub closed spec fn replies(self) -> Seq<Reply> {
        self.replies@
    }

    #[verifier::type_invariant]
    spec fn well_formed(self) -> bool {
        let replies = self.replies@;
        &&& self.env == self.invocation@.env
        &&& accepted(replies)
        &&& match self.stage {
            Stage::CallbackInfo => replies.len() == 0,
            Stage::ValueType { callback } => replies.len() == 1 && callback == replies[0]->arg,
            Stage::ResourceName { callback } => replies.len() == 2 && callback == replies[0]->arg,
            Stage::Reference { resource_name } => {
                replies.len() == 3 && resource_name == replies[2]->value
            },
            Stage::Work => replies.len() == 4,
            Stage::Queue => replies.len() == 5,
        }
    }

    /// Hands over the reply to the pending request.
    pub fn resume(self, reply: Reply) -> (step: Step<TestAsyncWork, Value>)
        ensures
            step_after(step, self.invocation(), self.replies().push(reply)),
    {
        proof {
            use_type_invariant(&self);
        }
        let env = self.env;
        let invocation = self.invocation;
        let replies: Ghost<Seq<Reply>> = Ghost(self.replies@.push(reply));
        match (self.stage, reply) {
            (Stage::CallbackInfo, Reply::CallbackInfo { status, argc, arg }) => {
                if !is_ok(status) {
                    return Step::Abort(Fault::CallFailed { status });
                }
                if argc != 1 {
                    return Step::Abort(Fault::ArgumentCount { argc });
                }
                let stage = Stage::ValueType { callback: arg };
                Step::Call(
                    TestAsyncWork { env, stage, invocation, replies },
                    Request::TypeOf { env, value: arg, result: -1 },
                )
            },
            (Stage::ValueType { callback }, Reply::ValueType { status, ty }) => {
                if !is_ok(status) {
                    return Step::Abort(Fault::CallFailed { status });
                }
                if !is_function(ty) {
                    return Step::Abort(Fault::NotAFunction { ty });
                }
                let stage = Stage::ResourceName { callback };
                Step::Call(
                    TestAsyncWork { env, stage, invocation, replies },
                    Request::CreateStringUtf8 {
                        env,
                        text: RESOURCE_NAME,
                        length: usize::MAX,
                        result: Value::null(),
                    },
                )
            },
            (Stage::ResourceName { callback }, Reply::Value { status, value }) => {
                if !is_ok(status) {
                    return Step::Abort(Fault::CallFailed { status });
                }
                let stage = Stage::Reference { resource_name: value };
                Step::Call(
                    TestAsyncWork { env, stage, invocation, replies },
                    Request::CreateReference {
                        env,
                        value: callback,
                        initial_refcount: 1,
                        result: Reference::null(),
                    },
                )
            },
            (Stage::Reference { resource_name }, Reply::Reference { status, reference }) => {
                if !is_ok(status) {
                    return Step::Abort(Fault::CallFailed { status });
                }
                let baton = Baton { called: false, func: reference, task: AsyncWork::null() };
                let stage = Stage::Work;
                Step::Call(
                    TestAsyncWork { env, stage, invocation, replies },
                    Request::CreateAsyncWork {
                        env,
                        async_resource: Value::null(),
                        async_resource_name: resource_name,
                        execute: Entry::Execute,
                        complete: Entry::Complete,
                        data: baton,
                        result: AsyncWork::null(),
                    },
                )
            },
            (Stage::Work, Reply::Work { status, work }) => {
                if !is_ok(status) {
                    return Step::Abort(Fault::CallFailed { status });
                }
                let stage = Stage::Queue;
                Step::Call(
                    TestAsyncWork { env, stage, invocation, replies },
                    Request::QueueAsyncWork { env, work },
                )
            },
            (Stage::Queue, Reply::Status { status }) => {
                if !is_ok(status) {
                    return Step::Abort(Fault::CallFailed { status });
                }
                Step::Return(Value::null())
            },
            _ => Step::Abort(Fault::UnexpectedReply),
        }
    }
}

/// What `step` is once `replies` have come in: stopped by the check that the last reply breaks,
/// done after the sixth reply, and otherwise suspended on the request that follows.
pub open spec fn step_after(
    step: Step<TestAsyncWork, Value>,
    invocation: Invocation,
    replies: Seq<Reply>,
) -> bool {
    match step {
        Step::Abort(broken) => {
            &&& replies.len() > 0
            &&& reply_fault(replies.len() - 1, replies.last()) == Some(broken)
        },
        Step::Return(value) => {
            &&& accepted(replies)
            &&& replies.len() == 6
            &&& value == Value::null()
        },
        Step::Call(suspended, pending) => {
            &&& accepted(replies)
            &&& replies.len() < 6
            &&& suspended.invocation() == invocation
            &&& suspended.replies() == replies
            &&& pending == request(invocation, replies)
        },
    }
}

/// Serves a call from script: script has to pass one function, for which work is queued. The
/// result for script is null.
pub fn test_async_work(env: Env, info: CallbackInfo) -> (step: Step<TestAsyncWork, Value>)
    ensures
        step_after(step, (Invocation { env, info }), Seq::empty()),
{
    let invocation: Ghost<Invocation> = Ghost(Invocation { env, info });
    let replies: Ghost<Seq<Reply>> = Ghost(Seq::empty());
    Step::Call(
        TestAsyncWork { env, stage: Stage::CallbackInfo, invocation, replies },
        Request::GetCallbackInfo { env, info, argc: 1 },
    )
}

} // verus!
