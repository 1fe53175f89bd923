//! What holds of the procedures as a whole.

use vstd::prelude::*;

use crate::baton::Baton;
use crate::complete;
use crate::complete::{opening_fault, Complete, Completion};
use crate::handle::{Arguments, AsyncWork, Env, Reference, Value};
use crate::init::METHOD_NAME;
use crate::protocol::{Entry, Fault, Reply, Request, Step};
use crate::test_async_work;
use crate::test_async_work::{Invocation, TestAsyncWork, RESOURCE_NAME};

verus! {

/// The requests of a call from script that `replies` answer, first to last.
pub open spec fn call_requests(invocation: Invocation, replies: Seq<Reply>) -> Seq<Request> {
    Seq::new(replies.len(), |i: int| test_async_work::request(invocation, replies.take(i)))
}

/// The requests of a completion that `replies` answer, first to last.
pub open spec fn completion_requests(completion: Completion, replies: Seq<Reply>) -> Seq<Request> {
    Seq::new(replies.len(), |i: int| complete::request(completion, replies.take(i)))
}

/// Whether `text` is closed by its one NUL.
pub open spec fn nul_closed(text: Seq<char>) -> bool {
    &&& text.len() > 0
    &&& forall|i: int| 0 <= i < text.len() ==> (#[trigger] text[i] == '\0' <==> i == text.len() - 1)
}

/// A call from script that goes through fetches its argument, asks for the argument's type, names
/// the work, takes one reference to the argument, makes work that carries a fresh baton with that
/// reference, and queues that work: these six requests, in this order.
pub proof fn law_call_requests(invocation: Invocation, replies: Seq<Reply>)
    requires
        test_async_work::accepted(replies),
        replies.len() == 6,
    ensures
        call_requests(invocation, replies) == seq![
            Request::GetCallbackInfo { env: invocation.env, info: invocation.info, argc: 1 },
            Request::TypeOf { env: invocation.env, value: replies[0]->arg, result: -1i32 },
            Request::CreateStringUtf8 {
                env: invocation.env,
                text: "test_async_resource\0",
                length: usize::MAX,
                result: Value { addr: 0 },
            },
            Request::CreateReference {
                env: invocation.env,
                value: replies[0]->arg,
                initial_refcount: 1,
                result: Reference { addr: 0 },
            },
            Request::CreateAsyncWork {
                env: invocation.env,
                async_resource: Value { addr: 0 },
                async_resource_name: replies[2]->value,
                execute: Entry::Execute,
                complete: Entry::Complete,
                data: Baton {
                    called: false,
                    func: replies[3]->reference,
                    task: AsyncWork { addr: 0 },
                },
                result: AsyncWork { addr: 0 },
            },
            Request::QueueAsyncWork { env: invocation.env, work: replies[4]->work },
        ],
{
}

/// A completion that goes through fetches the global object and the callback, calls the callback
/// on the global object without arguments, and then deletes the reference and the work that the
/// baton names: these five requests, in this order.
pub proof fn law_completion_requests(completion: Completion, replies: Seq<Reply>)
    requires
        complete::accepted(replies),
        replies.len() == 5,
    ensures
        completion_requests(completion, replies) == seq![
            Request::GetGlobal { env: completion.env, result: Value { addr: 0 } },
            Request::GetReferenceValue {
                env: completion.env,
                reference: completion.baton.func,
                result: Value { addr: 0 },
            },
            Request::CallFunction {
                env: completion.env,
                recv: replies[0]->value,
                func: replies[1]->value,
                argc: 0,
                argv: Arguments { addr: 0 },
                result: Value { addr: 0 },
            },
            Request::DeleteReference { env: completion.env, reference: completion.baton.func },
            Request::DeleteAsyncWork { env: completion.env, work: completion.baton.task },
        ],
{
}

/// A reference is taken, and work made and queued, only for script that passed exactly one
/// argument which is a function.
pub proof fn law_work_needs_one_function(invocation: Invocation, replies: Seq<Reply>)
    requires
        test_async_work::accepted(replies),
        replies.len() < 6,
        ({
            let pending = test_async_work::request(invocation, replies);
            ||| pending is CreateReference
            ||| pending is CreateAsyncWork
            ||| pending is QueueAsyncWork
        }),
    ensures
        replies[0]->argc == 1,
        replies[1]->ty == 7,
{
    assert(test_async_work::reply_fault(0, replies[0]) is None);
    assert(test_async_work::reply_fault(1, replies[1]) is None);
}

/// A call that the runtime fails stops a call from script at once, with the status that the
/// runtime gave.
pub proof fn law_failed_request_stops_call(
    step: Step<TestAsyncWork, Value>,
    invocation: Invocation,
    replies: Seq<Reply>,
    reply: Reply,
)
    requires
        replies.len() < 6,
        test_async_work::request(invocation, replies).answered_by(reply),
        reply.status() != 0,
        test_async_work::step_after(step, invocation, replies.push(reply)),
    ensures
        step == Step::<TestAsyncWork, Value>::Abort(Fault::CallFailed { status: reply.status() }),
{
    let index = replies.len() as int;
    assert(replies.push(reply)[index] == reply);
}

/// A call that the runtime fails stops a completion at once, with the status that the runtime
/// gave.
pub proof fn law_failed_request_stops_completion(
    step: Step<Complete, ()>,
    completion: Completion,
    replies: Seq<Reply>,
    reply: Reply,
)
    requires
        replies.len() < 5,
        complete::request(completion, replies).answered_by(reply),
        reply.status() != 0,
        complete::step_after(step, completion, replies.push(reply)),
    ensures
        step == Step::<Complete, ()>::Abort(Fault::CallFailed { status: reply.status() }),
{
    let index = replies.len() as int;
    assert(replies.push(reply)[index] == reply);
}

/// A call from script returns only after every call into the runtime has succeeded, and then
/// returns null.
pub proof fn law_call_returns_on_success(
    step: Step<TestAsyncWork, Value>,
    invocation: Invocation,
    replies: Seq<Reply>,
)
    requires
        test_async_work::step_after(step, invocation, replies),
        step is Return,
    ensures
        replies.len() == 6,
        forall|i: int| 0 <= i < replies.len() ==> (#[trigger] replies[i]).status() == 0,
        step == Step::<TestAsyncWork, Value>::Return(Value { addr: 0 }),
{
    assert forall|i: int| 0 <= i < replies.len() implies (#[trigger] replies[i]).status() == 0 by {
        assert(test_async_work::reply_fault(i, replies[i]) is None);
    }
}

/// A completion returns only after every call into the runtime has succeeded.
pub proof fn law_completion_returns_on_success(
    step: Step<Complete, ()>,
    completion: Completion,
    replies: Seq<Reply>,
)
    requires
        complete::step_after(step, completion, replies),
        step is Return,
    ensures
        replies.len() == 5,
        forall|i: int| 0 <= i < replies.len() ==> (#[trigger] replies[i]).status() == 0,
{
    assert forall|i: int| 0 <= i < replies.len() implies (#[trigger] replies[i]).status() == 0 by {
        assert(complete::reply_fault(i, replies[i]) is None);
    }
}

/// A reply is unexpected exactly where it is not of the kind that answers the pending request.
pub proof fn law_unexpected_reply(
    invocation: Invocation,
    completion: Completion,
    replies: Seq<Reply>,
    reply: Reply,
)
    ensures
        replies.len() < 6 ==> (test_async_work::reply_fault(replies.len() as int, reply) == Some(
            Fault::UnexpectedReply,
        ) <==> !test_async_work::request(invocation, replies).answered_by(reply)),
        replies.len() < 5 ==> (complete::reply_fault(replies.len() as int, reply) == Some(
            Fault::UnexpectedReply,
        ) <==> !complete::request(completion, replies).answered_by(reply)),
{
}

/// Every request is made in the environment that the procedure was entered in.
pub proof fn law_one_environment(
    invocation: Invocation,
    completion: Completion,
    replies: Seq<Reply>,
)
    ensures
        test_async_work::request(invocation, replies).env() == invocation.env,
        complete::request(completion, replies).env() == completion.env,
{
}

/// Work is executed once: what `execute` has accepted, it refuses from then on. Work is completed
/// only after it was executed, and executed work that ended well always passes the checks that
/// open its completion.
pub proof fn law_execute_once_then_complete(baton: Baton, status: i32)
    requires
        baton.execute_fault() is None,
        status == 0,
    ensures
        baton.executed().execute_fault() == Some(Fault::AlreadyCalled),
        opening_fault(status, baton) == Some(Fault::NotCalled),
        opening_fault(status, baton.executed()) is None,
{
}

/// The one reference that a call from script takes is given back: the baton that the work carries
/// names it, `execute` leaves it in place, and the completion of the executed work fetches the
/// callback through it and deletes it, once, after the callback was called.
pub proof fn law_reference_is_returned(
    invocation: Invocation,
    call: Seq<Reply>,
    env: Env,
    completion: Seq<Reply>,
)
    requires
        test_async_work::accepted(call),
        call.len() == 6,
        complete::accepted(completion),
        completion.len() == 5,
    ensures
        ({
            let reference = call[3]->reference;
            let baton = call_requests(invocation, call)[4]->data;
            let taken = call_requests(invocation, call);
            let made = completion_requests(
                Completion { env, baton: baton.executed() },
                completion,
            );
            &&& forall|i: int|
                0 <= i < taken.len() ==> (#[trigger] taken[i] is CreateReference <==> i == 3)
            &&& baton.execute_fault() is None <==> reference.addr != 0
            &&& made[1] == (Request::GetReferenceValue { env, reference, result: Value { addr: 0 } })
            &&& made[2] is CallFunction && made[2]->func == completion[1]->value
            &&& made[3] == (Request::DeleteReference { env, reference })
            &&& forall|i: int|
                0 <= i < made.len() ==> (#[trigger] made[i] is CallFunction <==> i == 2)
            &&& forall|i: int|
                0 <= i < made.len() ==> (#[trigger] made[i] is DeleteReference <==> i == 3)
        }),
{
    let baton = call_requests(invocation, call)[4]->data;
    law_call_requests(invocation, call);
    law_completion_requests(Completion { env, baton: baton.executed() }, completion);
}

/// The work that a completion deletes is the null one, whatever work the runtime made: the baton
/// is filled in before the work exists, and nothing fills it in later. The work that is queued is
/// the one that the runtime made.
pub proof fn law_deleted_work_is_null(
    invocation: Invocation,
    call: Seq<Reply>,
    env: Env,
    completion: Seq<Reply>,
)
    requires
        test_async_work::accepted(call),
        call.len() == 6,
        complete::accepted(completion),
        completion.len() == 5,
    ensures
        ({
            let baton = call_requests(invocation, call)[4]->data;
            let made = completion_requests(
                Completion { env, baton: baton.executed() },
                completion,
            );
            &&& call_requests(invocation, call)[5] == (Request::QueueAsyncWork {
                env: invocation.env,
                work: call[4]->work,
            })
            &&& made[4] == (Request::DeleteAsyncWork { env, work: AsyncWork { addr: 0 } })
            &&& forall|i: int|
                0 <= i < made.len() ==> (#[trigger] made[i] is DeleteAsyncWork <==> i == 4)
        }),
{
    let baton = call_requests(invocation, call)[4]->data;
    law_call_requests(invocation, call);
    law_completion_requests(Completion { env, baton: baton.executed() }, completion);
}

/// Both names are handed to the runtime without a length, so a NUL closes each, and there is no
/// other NUL in it.
pub proof fn law_names_are_nul_closed()
    ensures
        nul_closed(RESOURCE_NAME@),
        nul_closed(METHOD_NAME@),
{
    reveal_strlit("test_async_resource\0");
    reveal_strlit("test_async_work\0");
}

} // verus!
