//! The end of a unit of asynchronous work: the callback is called, and what the work held is
//! given back.

use vstd::prelude::*;

use crate::baton::Baton;
use crate::constants::{is_ok, status_is_ok};
use crate::handle::{Arguments, Env, Value};
use crate::protocol::{Fault, Reply, Request, Step};

verus! {

/// The end of a unit of asynchronous work.
#[derive(Clone, Copy, Debug, PartialEq, Eq, Structural)]
pub struct Completion {
    pub env: Env,
    pub baton: Baton,
}

/// The check that is broken before any request: the work has to have ended well, to have been
/// executed, and to have a function to call.
pub open spec fn opening_fault(status: i32, baton: Baton) -> Option<Fault> {
    if !status_is_ok(status) {
        Some(Fault::WorkFailed { status })
    } else if !baton.called {
        Some(Fault::NotCalled)
    } else if baton.func.is_null() {
        Some(Fault::NullFunction)
    } else {
        None
    }
}

/// Whether `reply` is of the kind that the request at `index`, counted from zero, is answered by.
pub open spec fn answers(index: int, reply: Reply) -> bool {
    ||| 0 <= index < 3 && reply is Value
    ||| 3 <= index < 5 && reply is Status
}

/// The check that the reply to the request at `index` breaks: every call has to succeed.
pub open spec fn reply_fault(index: int, reply: Reply) -> Option<Fault> {
    if !answers(index, reply) {
        Some(Fault::UnexpectedReply)
    } else if !status_is_ok(reply.status()) {
        Some(Fault::CallFailed { status: reply.status() })
    } else {
        None
    }
}

/// Whether no reply breaks a check.
pub open spec fn accepted(replies: Seq<Reply>) -> bool {
    forall|i: int| 0 <= i < replies.len() ==> reply_fault(i, #[trigger] replies[i]) is None
}

/// The request that follows after `replies`.
pub open spec fn request(completion: Completion, replies: Seq<Reply>) -> Request
    recommends
        accepted(replies),
        replies.len() < 5,
{
    let env = completion.env;
    if replies.len() == 0 {
        Request::GetGlobal { env, result: Value::null() }
    } else if replies.len() == 1 {
        Request::GetReferenceValue {
            env,
            reference: completion.baton.func,
            result: Value::null(),
        }
    } else if replies.len() == 2 {
        Request::CallFunction {
            env,
            recv: replies[0]->value,
            func: replies[1]->value,
            argc: 0,
            argv: Arguments::null(),
            result: Value::null(),
        }
    } else if replies.len() == 3 {
        Request::DeleteReference { env, reference: completion.baton.func }
    } else {
        Request::DeleteAsyncWork { env, work: completion.baton.task }
    }
}

/// What has been kept of the replies.
enum Stage {
    Global,
    Callback { global: Value },
    Call,
    Reference,
    Work,
}

/// The procedure, suspended until its pending request is answered.
pub struct Complete {
    env: Env,
    baton: Baton,
    stage: Stage,
    replies: Ghost<Seq<Reply>>,
}

impl Complete {
    /// The work that the procedure ends.
    pub closed spec fn completion(self) -> Completion {
        Completion { env: self.env, baton: self.baton }
    }

    /// The replies so far, first to last.
    pub closed spec fn replies(self) -> Seq<Reply> {
        self.replies@
    }

    #[verifier::type_invariant]
    spec fn well_formed(self) -> bool {
        let replies = self.replies@;
        &&& accepted(replies)
        &&& match self.stage {
            Stage::Global => replies.len() == 0,
            Stage::Callback { global } => replies.len() == 1 && global == replies[0]->value,
            Stage::Call => replies.len() == 2,
            Stage::Reference => replies.len() == 3,
            Stage::Work => replies.len() == 4,
        }
    }

    /// Hands over the reply to the pending request.
    pub fn resume(self, reply: Reply) -> (step: Step<Complete, ()>)
        ensures
            step_after(step, self.completion(), self.replies().push(reply)),
    {
        proof {
            use_type_invariant(&self);
        }
        let env = self.env;
        let baton = self.baton;
        let replies: Ghost<Seq<Reply>> = Ghost(self.replies@.push(reply));
        match (self.stage, reply) {
            (Stage::Global, Reply::Value { status, value }) => {
                if !is_ok(status) {
                    return Step::Abort(Fault::CallFailed { status });
                }
                let stage = Stage::Callback { global: value };
                Step::Call(
                    Complete { env, baton, stage, replies },
                    Request::GetReferenceValue {
                        env,
                        reference: baton.func,
                        result: Value::null(),
                    },
                )
            },
            (Stage::Callback { global }, Reply::Value { status, value }) => {
                if !is_ok(status) {
                    return Step::Abort(Fault::CallFailed { status });
                }
                Step::Call(
                    Complete { env, baton, stage: Stage::Call, replies },
                    Request::CallFunction {
                        env,
                        recv: global,
                        func: value,
                        argc: 0,
                        argv: Arguments::null(),
                        result: Value::null(),
                    },
                )
            },
            (Stage::Call, Reply::Value { status, .. }) => {
                if !is_ok(status) {
                    return Step::Abort(Fault::CallFailed { status });
                }
                Step::Call(
                    Complete { env, baton, stage: Stage::Reference, replies },
                    Request::DeleteReference { env, reference: baton.func },
                )
            },
            (Stage::Reference, Reply::Status { status }) => {
                if !is_ok(status) {
                    return Step::Abort(Fault::CallFailed { status });
                }
                Step::Call(
                    Complete { env, baton, stage: Stage::Work, replies },
                    Request::DeleteAsyncWork { env, work: baton.task },
                )
            },
            (Stage::Work, Reply::Status { status }) => {
                if !is_ok(status) {
                    return Step::Abort(Fault::CallFailed { status });
                }
                Step::Return(())
            },
            _ => Step::Abort(Fault::UnexpectedReply),
        }
    }
}

/// What `step` is once `replies` have come in: stopped by the check that the last reply breaks,
/// done after the fifth reply, and otherwise suspended on the request that follows.
pub open spec fn step_after(
    step: Step<Complete, ()>,
    completion: Completion,
    replies: Seq<Reply>,
) -> bool {
    match step {
        Step::Abort(broken) => {
            &&& replies.len() > 0
            &&& reply_fault(replies.len() - 1, replies.last()) == Some(broken)
        },
        Step::Return(_) => accepted(replies) && replies.len() == 5,
        Step::Call(suspended, pending) => {
            &&& accepted(replies)
            &&& replies.len() < 5
            &&& suspended.completion() == completion
            &&& suspended.replies() == replies
            &&& pending == request(completion, replies)
        },
    }
}

/// Ends the work that carries `baton` and that the runtime reports to have ended in `status`.
pub fn complete(env: Env, status: i32, baton: Baton) -> (step: Step<Complete, ()>)
    ensures
        match opening_fault(status, baton) {
            Some(fault) => step == Step::<Complete, ()>::Abort(fault),
            None => step_after(step, (Completion { env, baton }), Seq::empty()),
        },
        step is Call <==> status == 0 && baton.called && baton.func.addr != 0,
        status != 0 ==> step == Step::<Complete, ()>::Abort(Fault::WorkFailed { status }),
{
    if !is_ok(status) {
        return Step::Abort(Fault::WorkFailed { status });
    }
    if !baton.called {
        return Step::Abort(Fault::NotCalled);
    }
    if baton.func.is_null() {
        return Step::Abort(Fault::NullFunction);
    }
    let replies: Ghost<Seq<Reply>> = Ghost(Seq::empty());
    Step::Call(
        Complete { env, baton, stage: Stage::Global, replies },
        Request::GetGlobal { env, result: Value::null() },
    )
}

} // verus!
