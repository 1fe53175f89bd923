//! What a caller sees of the procedures: results against arguments, and whole runs.
//!
//! A law here speaks of what the executable functions may return for given arguments, and says it
//! with plain numbers and handles: a call succeeds with status `0`, a function has type `7`, and
//! null is address `0`.

use vstd::prelude::*;

use crate::baton::{execute, Baton};
use crate::complete::{complete, Complete, Completion};
use crate::constants::{is_function, is_ok};
use crate::handle::{Arguments, AsyncWork, CallbackInfo, Env, Reference, Value};
use crate::init::{init, Init};
use crate::protocol::{Entry, Fault, PropertyDescriptor, Reply, Request, Step};
use crate::test_async_work::{test_async_work, Invocation, TestAsyncWork};

verus! {

/// Whether `after` may come of handing `reply` to the procedure that `before` holds suspended.
pub open spec fn call_resumed(
    before: Step<TestAsyncWork, Value>,
    reply: Reply,
    after: Step<TestAsyncWork, Value>,
) -> bool {
    before matches Step::Call(suspended, _) && call_ensures(
        TestAsyncWork::resume,
        (suspended, reply),
        after,
    )
}

/// Whether `steps` are those of a call from script that is handed `replies`, one by one.
pub open spec fn call_run(
    env: Env,
    info: CallbackInfo,
    replies: Seq<Reply>,
    steps: Seq<Step<TestAsyncWork, Value>>,
) -> bool {
    &&& steps.len() == replies.len() + 1
    &&& call_ensures(test_async_work, (env, info), steps[0])
    &&& forall|i: int|
        0 <= i < replies.len() ==> call_resumed(steps[i], #[trigger] replies[i], steps[i + 1])
}

/// The status in the reply to the request at `index` of a call from script, where the reply is of
/// the kind that this request asks for.
pub open spec fn call_status(index: int, reply: Reply) -> Option<i32> {
    match reply {
        Reply::CallbackInfo { status, .. } if index == 0 => Some(status),
        Reply::ValueType { status, .. } if index == 1 => Some(status),
        Reply::Value { status, .. } if index == 2 => Some(status),
        Reply::Reference { status, .. } if index == 3 => Some(status),
        Reply::Work { status, .. } if index == 4 => Some(status),
        Reply::Status { status } if index == 5 => Some(status),
        _ => None,
    }
}

/// The replies to a call from script that passes one function and whose requests all succeed.
pub open spec fn good_call_replies(
    arg: Value,
    name: Value,
    reference: Reference,
    work: AsyncWork,
) -> Seq<Reply> {
    seq![
        Reply::CallbackInfo { status: 0, argc: 1, arg },
        Reply::ValueType { status: 0, ty: 7 },
        Reply::Value { status: 0, value: name },
        Reply::Reference { status: 0, reference },
        Reply::Work { status: 0, work },
        Reply::Status { status: 0 },
    ]
}

/// Whether `after` may come of handing `reply` to the procedure that `before` holds suspended.
pub open spec fn completion_resumed(
    before: Step<Complete, ()>,
    reply: Reply,
    after: Step<Complete, ()>,
) -> bool {
    before matches Step::Call(suspended, _) && call_ensures(
        Complete::resume,
        (suspended, reply),
        after,
    )
}

/// Whether `steps` are those of a completion that is handed `replies`, one by one.
pub open spec fn completion_run(
    env: Env,
    status: i32,
    baton: Baton,
    replies: Seq<Reply>,
    steps: Seq<Step<Complete, ()>>,
) -> bool {
    &&& steps.len() == replies.len() + 1
    &&& call_ensures(complete, (env, status, baton), steps[0])
    &&& forall|i: int|
        0 <= i < replies.len() ==> completion_resumed(
            steps[i],
            #[trigger] replies[i],
            steps[i + 1],
        )
}

/// The status in the reply to the request at `index` of a completion, where the reply is of the
/// kind that this request asks for.
pub open spec fn completion_status(index: int, reply: Reply) -> Option<i32> {
    match reply {
        Reply::Value { status, .. } if index == 0 || index == 1 || index == 2 => Some(status),
        Reply::Status { status } if index == 3 || index == 4 => Some(status),
        _ => None,
    }
}

/// The replies to a completion whose requests all succeed.
pub open spec fn good_completion_replies(
    global: Value,
    function: Value,
    result: Value,
) -> Seq<Reply> {
    seq![
        Reply::Value { status: 0, value: global },
        Reply::Value { status: 0, value: function },
        Reply::Value { status: 0, value: result },
        Reply::Status { status: 0 },
        Reply::Status { status: 0 },
    ]
}

/// Status zero, and no other, is success.
pub proof fn law_only_zero_is_ok(status: i32, ok: bool)
    requires
        call_ensures(is_ok, (status,), ok),
    ensures
        ok <==> status == 0,
{
}

/// Type seven, and no other, is that of a function.
pub proof fn law_only_seven_is_function(ty: i32, function: bool)
    requires
        call_ensures(is_function, (ty,), function),
    ensures
        function <==> ty == 7,
{
}

/// Address zero, and no other, is null.
pub proof fn law_only_address_zero_is_null(reference: Reference, null: bool)
    requires
        call_ensures(Reference::is_null, (reference,), null),
    ensures
        null <==> reference.addr == 0,
{
}

/// Every null handle is at address zero.
pub proof fn law_null_handles(
    value: Value,
    reference: Reference,
    work: AsyncWork,
    arguments: Arguments,
)
    requires
        call_ensures(Value::null, (), value),
        call_ensures(Reference::null, (), reference),
        call_ensures(AsyncWork::null, (), work),
        call_ensures(Arguments::null, (), arguments),
    ensures
        value.addr == 0,
        reference.addr == 0,
        work.addr == 0,
        arguments.addr == 0,
{
}

/// `execute` accepts every baton that was not called and whose function is at another address
/// than zero, marks it called and keeps the rest. It refuses all others, saying which check was
/// broken, and leaves them as they were.
pub proof fn law_execute(before: Baton, outcome: Result<(), Fault>, after: Baton)
    requires
        exists|baton: &mut Baton|
            #![trigger call_ensures(execute, (baton,), outcome)]
            *baton == before && *final(baton) == after && call_ensures(
                execute,
                (baton,),
                outcome,
            ),
    ensures
        outcome is Ok <==> !before.called && before.func.addr != 0,
        outcome == Err::<(), Fault>(Fault::AlreadyCalled) <==> before.called,
        outcome == Err::<(), Fault>(Fault::NullFunction) <==> !before.called && before.func.addr
            == 0,
        after.called <==> before.called || outcome is Ok,
        after.func == before.func,
        after.task == before.task,
{
}

/// A second `execute` on the baton that a first one left is always refused.
pub proof fn law_second_execute_is_refused(
    before: Baton,
    first: Result<(), Fault>,
    between: Baton,
    second: Result<(), Fault>,
    after: Baton,
)
    requires
        exists|baton: &mut Baton|
            #![trigger call_ensures(execute, (baton,), first)]
            *baton == before && *final(baton) == between && call_ensures(
                execute,
                (baton,),
                first,
            ),
        exists|baton: &mut Baton|
            #![trigger call_ensures(execute, (baton,), second)]
            *baton == between && *final(baton) == after && call_ensures(
                execute,
                (baton,),
                second,
            ),
    ensures
        second is Err,
        first is Ok ==> second == Err::<(), Fault>(Fault::AlreadyCalled),
        after == between,
{
}

/// Every step of a call from script is the one that its replies so far lead to.
proof fn lemma_call_run(
    env: Env,
    info: CallbackInfo,
    replies: Seq<Reply>,
    steps: Seq<Step<TestAsyncWork, Value>>,
)
    requires
        call_run(env, info, replies, steps),
    ensures
        crate::test_async_work::step_after(steps.last(), (Invocation { env, info }), replies),
    decreases replies.len(),
{
    if replies.len() > 0 {
        let n = replies.len() - 1;
        let earlier = replies.drop_last();
        assert forall|i: int| 0 <= i < earlier.len() implies call_resumed(
            steps.drop_last()[i],
            #[trigger] earlier[i],
            steps.drop_last()[i + 1],
        ) by {
            assert(call_resumed(steps[i], replies[i], steps[i + 1]));
        }
        lemma_call_run(env, info, earlier, steps.drop_last());
        assert(call_resumed(steps[n], replies[n], steps[n + 1]));
        assert(earlier.push(replies[n]) == replies);
    } else {
        assert(replies == Seq::<Reply>::empty());
    }
}

/// A call from script that passes one function, and whose requests all succeed, goes through,
/// whatever handles the runtime gives: it fetches the argument, asks for its type, names the
/// work, takes one reference to the argument, makes work that carries a fresh baton with that
/// reference, queues that work, and returns null.
pub proof fn law_good_call_goes_through(
    env: Env,
    info: CallbackInfo,
    arg: Value,
    name: Value,
    reference: Reference,
    work: AsyncWork,
    n: int,
    steps: Seq<Step<TestAsyncWork, Value>>,
)
    requires
        0 <= n <= 6,
        call_run(env, info, good_call_replies(arg, name, reference, work).take(n), steps),
    ensures
        n < 6 ==> steps.last() is Call,
        n == 0 ==> steps.last()->Call_1 == (Request::GetCallbackInfo { env, info, argc: 1 }),
        n == 1 ==> steps.last()->Call_1 == (Request::TypeOf { env, value: arg, result: -1i32 }),
        n == 2 ==> steps.last()->Call_1 == (Request::CreateStringUtf8 {
            env,
            text: "test_async_resource\0",
            length: usize::MAX,
            result: Value { addr: 0 },
        }),
        n == 3 ==> steps.last()->Call_1 == (Request::CreateReference {
            env,
            value: arg,
            initial_refcount: 1,
            result: Reference { addr: 0 },
        }),
        n == 4 ==> steps.last()->Call_1 == (Request::CreateAsyncWork {
            env,
            async_resource: Value { addr: 0 },
            async_resource_name: name,
            execute: Entry::Execute,
            complete: Entry::Complete,
            data: Baton { called: false, func: reference, task: AsyncWork { addr: 0 } },
            result: AsyncWork { addr: 0 },
        }),
        n == 5 ==> steps.last()->Call_1 == (Request::QueueAsyncWork { env, work }),
        n == 6 ==> steps.last() == Step::<TestAsyncWork, Value>::Return(Value { addr: 0 }),
{
    lemma_call_run(env, info, good_call_replies(arg, name, reference, work).take(n), steps);
}

/// A request of a call from script that fails stops the call at once, with the status that the
/// runtime gave, whichever request and whichever status other than zero it is.
pub proof fn law_call_stops_at_failed_status(
    env: Env,
    info: CallbackInfo,
    replies: Seq<Reply>,
    reply: Reply,
    status: i32,
    steps: Seq<Step<TestAsyncWork, Value>>,
)
    requires
        call_run(env, info, replies.push(reply), steps),
        call_status(replies.len() as int, reply) == Some(status),
        status != 0,
    ensures
        steps.last() == Step::<TestAsyncWork, Value>::Abort(Fault::CallFailed { status }),
{
    lemma_call_run(env, info, replies.push(reply), steps);
    assert(replies.push(reply)[replies.len() as int] == reply);
}

/// A call from script stops where another number of arguments than one was passed.
pub proof fn law_call_stops_without_one_argument(
    env: Env,
    info: CallbackInfo,
    argc: usize,
    arg: Value,
    steps: Seq<Step<TestAsyncWork, Value>>,
)
    requires
        call_run(env, info, seq![Reply::CallbackInfo { status: 0, argc, arg }], steps),
        argc != 1,
    ensures
        steps.last() == Step::<TestAsyncWork, Value>::Abort(Fault::ArgumentCount { argc }),
{
    lemma_call_run(env, info, seq![Reply::CallbackInfo { status: 0, argc, arg }], steps);
}

/// A call from script stops where the type of its argument is another than seven.
pub proof fn law_call_stops_without_function(
    env: Env,
    info: CallbackInfo,
    first: Reply,
    ty: i32,
    steps: Seq<Step<TestAsyncWork, Value>>,
)
    requires
        call_run(env, info, seq![first, Reply::ValueType { status: 0, ty }], steps),
        ty != 7,
    ensures
        steps.last() == Step::<TestAsyncWork, Value>::Abort(Fault::NotAFunction { ty }),
{
    let replies = seq![first, Reply::ValueType { status: 0, ty }];
    lemma_call_run(env, info, replies, steps);
    assert(replies[1] == Reply::ValueType { status: 0, ty });
}

/// A call from script stops at a reply of another kind than its request asks for.
pub proof fn law_call_stops_at_other_reply(
    env: Env,
    info: CallbackInfo,
    replies: Seq<Reply>,
    reply: Reply,
    steps: Seq<Step<TestAsyncWork, Value>>,
)
    requires
        call_run(env, info, replies.push(reply), steps),
        call_status(replies.len() as int, reply) is None,
    ensures
        steps.last() == Step::<TestAsyncWork, Value>::Abort(Fault::UnexpectedReply),
{
    lemma_call_run(env, info, replies.push(reply), steps);
    assert(replies.push(reply)[replies.len() as int] == reply);
}

/// A call from script makes a further request, or returns, only while every reply is of the kind
/// that its request asks for and has status zero, script passed one argument, and that argument
/// is of type seven. It returns after six replies, and returns null.
pub proof fn law_call_goes_on_only_on_success(
    env: Env,
    info: CallbackInfo,
    replies: Seq<Reply>,
    steps: Seq<Step<TestAsyncWork, Value>>,
)
    requires
        call_run(env, info, replies, steps),
        steps.last() !is Abort,
    ensures
        forall|i: int|
            0 <= i < replies.len() ==> call_status(i, #[trigger] replies[i]) == Some(0i32),
        replies.len() > 0 ==> replies[0]->argc == 1,
        replies.len() > 1 ==> replies[1]->ty == 7,
        steps.last() is Return <==> replies.len() == 6,
        steps.last() is Return ==> steps.last() == Step::<TestAsyncWork, Value>::Return(
            Value { addr: 0 },
        ),
{
    lemma_call_run(env, info, replies, steps);
    assert forall|i: int| 0 <= i < replies.len() implies call_status(i, #[trigger] replies[i])
        == Some(0i32) by {
        assert(crate::test_async_work::reply_fault(i, replies[i]) is None);
    }
    if replies.len() > 0 {
        assert(crate::test_async_work::reply_fault(0, replies[0]) is None);
    }
    if replies.len() > 1 {
        assert(crate::test_async_work::reply_fault(1, replies[1]) is None);
    }
}

/// A completion makes its first request exactly where the work ended in status zero, was
/// executed, and has a function at another address than zero. Work that ended in any other status
/// is refused with that status, whatever its baton holds; then work that was not executed, then
/// work without a function.
pub proof fn law_completion_opens(env: Env, status: i32, baton: Baton, step: Step<Complete, ()>)
    requires
        call_ensures(complete, (env, status, baton), step),
    ensures
        step is Call <==> status == 0 && baton.called && baton.func.addr != 0,
        status != 0 ==> step == Step::<Complete, ()>::Abort(Fault::WorkFailed { status }),
        status == 0 && !baton.called ==> step == Step::<Complete, ()>::Abort(Fault::NotCalled),
        status == 0 && baton.called && baton.func.addr == 0 ==> step == Step::<
            Complete,
            (),
        >::Abort(Fault::NullFunction),
        step matches Step::Call(_, pending) ==> pending == (Request::GetGlobal {
            env,
            result: Value { addr: 0 },
        }),
{
}

/// Every step of a completion is the one that its replies so far lead to.
proof fn lemma_completion_run(
    env: Env,
    status: i32,
    baton: Baton,
    replies: Seq<Reply>,
    steps: Seq<Step<Complete, ()>>,
)
    requires
        completion_run(env, status, baton, replies, steps),
        crate::complete::opening_fault(status, baton) is None,
    ensures
        crate::complete::step_after(steps.last(), (Completion { env, baton }), replies),
    decreases replies.len(),
{
    if replies.len() > 0 {
        let n = replies.len() - 1;
        let earlier = replies.drop_last();
        assert forall|i: int| 0 <= i < earlier.len() implies completion_resumed(
            steps.drop_last()[i],
            #[trigger] earlier[i],
            steps.drop_last()[i + 1],
        ) by {
            assert(completion_resumed(steps[i], replies[i], steps[i + 1]));
        }
        lemma_completion_run(env, status, baton, earlier, steps.drop_last());
        assert(completion_resumed(steps[n], replies[n], steps[n + 1]));
        assert(earlier.push(replies[n]) == replies);
    } else {
        assert(replies == Seq::<Reply>::empty());
    }
}

/// A completion that has been handed a reply passed the checks that open it.
proof fn lemma_completion_opened(
    env: Env,
    status: i32,
    baton: Baton,
    replies: Seq<Reply>,
    steps: Seq<Step<Complete, ()>>,
)
    requires
        completion_run(env, status, baton, replies, steps),
        replies.len() > 0 || steps.last() !is Abort,
    ensures
        crate::complete::opening_fault(status, baton) is None,
{
    if replies.len() > 0 {
        assert(completion_resumed(steps[0], replies[0], steps[1]));
    }
}

/// The completion of executed work that ended well and has a function goes through where its
/// requests all succeed, whatever handles the runtime gives: it fetches the global object and the
/// function, calls the function on the global object without arguments, deletes the reference and
/// the work that the baton names, and returns.
pub proof fn law_good_completion_goes_through(
    env: Env,
    func: Reference,
    task: AsyncWork,
    global: Value,
    function: Value,
    result: Value,
    n: int,
    steps: Seq<Step<Complete, ()>>,
)
    requires
        0 <= n <= 5,
        func.addr != 0,
        completion_run(
            env,
            0,
            (Baton { called: true, func, task }),
            good_completion_replies(global, function, result).take(n),
            steps,
        ),
    ensures
        n < 5 ==> steps.last() is Call,
        n == 0 ==> steps.last()->Call_1 == (Request::GetGlobal {
            env,
            result: Value { addr: 0 },
        }),
        n == 1 ==> steps.last()->Call_1 == (Request::GetReferenceValue {
            env,
            reference: func,
            result: Value { addr: 0 },
        }),
        n == 2 ==> steps.last()->Call_1 == (Request::CallFunction {
            env,
            recv: global,
            func: function,
            argc: 0,
            argv: Arguments { addr: 0 },
            result: Value { addr: 0 },
        }),
        n == 3 ==> steps.last()->Call_1 == (Request::DeleteReference { env, reference: func }),
        n == 4 ==> steps.last()->Call_1 == (Request::DeleteAsyncWork { env, work: task }),
        n == 5 ==> steps.last() is Return,
{
    let baton = Baton { called: true, func, task };
    let replies = good_completion_replies(global, function, result).take(n);
    lemma_completion_run(env, 0, baton, replies, steps);
}

/// A request of a completion that fails stops the completion at once, with the status that the
/// runtime gave, whichever request and whichever status other than zero it is.
pub proof fn law_completion_stops_at_failed_status(
    env: Env,
    ended: i32,
    baton: Baton,
    replies: Seq<Reply>,
    reply: Reply,
    status: i32,
    steps: Seq<Step<Complete, ()>>,
)
    requires
        completion_run(env, ended, baton, replies.push(reply), steps),
        completion_status(replies.len() as int, reply) == Some(status),
        status != 0,
    ensures
        steps.last() == Step::<Complete, ()>::Abort(Fault::CallFailed { status }),
{
    lemma_completion_opened(env, ended, baton, replies.push(reply), steps);
    lemma_completion_run(env, ended, baton, replies.push(reply), steps);
    assert(replies.push(reply)[replies.len() as int] == reply);
}

/// A completion stops at a reply of another kind than its request asks for.
pub proof fn law_completion_stops_at_other_reply(
    env: Env,
    ended: i32,
    baton: Baton,
    replies: Seq<Reply>,
    reply: Reply,
    steps: Seq<Step<Complete, ()>>,
)
    requires
        completion_run(env, ended, baton, replies.push(reply), steps),
        completion_status(replies.len() as int, reply) is None,
    ensures
        steps.last() == Step::<Complete, ()>::Abort(Fault::UnexpectedReply),
{
    lemma_completion_opened(env, ended, baton, replies.push(reply), steps);
    lemma_completion_run(env, ended, baton, replies.push(reply), steps);
    assert(replies.push(reply)[replies.len() as int] == reply);
}

/// A completion makes a request, or returns, only for work that ended in status zero, was
/// executed and has a function, and only while every reply is of the kind that its request asks
/// for and has status zero. It returns after five replies.
pub proof fn law_completion_goes_on_only_on_success(
    env: Env,
    status: i32,
    baton: Baton,
    replies: Seq<Reply>,
    steps: Seq<Step<Complete, ()>>,
)
    requires
        completion_run(env, status, baton, replies, steps),
        steps.last() !is Abort,
    ensures
        status == 0,
        baton.called,
        baton.func.addr != 0,
        forall|i: int|
            0 <= i < replies.len() ==> completion_status(i, #[trigger] replies[i]) == Some(0i32),
        steps.last() is Return <==> replies.len() == 5,
{
    lemma_completion_opened(env, status, baton, replies, steps);
    lemma_completion_run(env, status, baton, replies, steps);
    assert forall|i: int| 0 <= i < replies.len() implies completion_status(
        i,
        #[trigger] replies[i],
    ) == Some(0i32) by {
        assert(crate::complete::reply_fault(i, replies[i]) is None);
    }
}

/// From script's call to the end of the work: the baton that a good call hands to the runtime is
/// executed wherever the reference is at another address than zero, and the completion of what
/// `execute` left then calls the function and deletes that same reference. The work it deletes is
/// the null one, whatever work the runtime made.
pub proof fn law_queued_work_is_completed(
    env: Env,
    info: CallbackInfo,
    arg: Value,
    name: Value,
    reference: Reference,
    work: AsyncWork,
    call: Seq<Step<TestAsyncWork, Value>>,
    outcome: Result<(), Fault>,
    left: Baton,
    global: Value,
    function: Value,
    result: Value,
    n: int,
    completion: Seq<Step<Complete, ()>>,
)
    requires
        reference.addr != 0,
        call_run(env, info, good_call_replies(arg, name, reference, work).take(4), call),
        exists|baton: &mut Baton|
            #![trigger call_ensures(execute, (baton,), outcome)]
            *baton == call.last()->Call_1->data && *final(baton) == left && call_ensures(
                execute,
                (baton,),
                outcome,
            ),
        0 <= n <= 5,
        completion_run(
            env,
            0,
            left,
            good_completion_replies(global, function, result).take(n),
            completion,
        ),
    ensures
        outcome is Ok,
        n < 5 ==> completion.last() is Call,
        n == 2 ==> completion.last()->Call_1 == (Request::CallFunction {
            env,
            recv: global,
            func: function,
            argc: 0,
            argv: Arguments { addr: 0 },
            result: Value { addr: 0 },
        }),
        n == 3 ==> completion.last()->Call_1 == (Request::DeleteReference { env, reference }),
        n == 4 ==> completion.last()->Call_1 == (Request::DeleteAsyncWork {
            env,
            work: AsyncWork { addr: 0 },
        }),
        n == 5 ==> completion.last() is Return,
{
    law_good_call_goes_through(env, info, arg, name, reference, work, 4, call);
    let task = AsyncWork { addr: 0 };
    law_execute((Baton { called: false, func: reference, task }), outcome, left);
    assert(left == Baton { called: true, func: reference, task });
    law_good_completion_goes_through(
        env,
        reference,
        task,
        global,
        function,
        result,
        n,
        completion,
    );
}

/// Registration defines one property on the exports, a method of the name `test_async_work` that
/// runs the call from script, and is done whatever the runtime replies.
pub proof fn law_registration(
    env: Env,
    exports: Value,
    registering: Init,
    reply: Reply,
    step: Step<Init, ()>,
    end: Step<Init, ()>,
)
    requires
        call_ensures(init, (env, exports), step),
        call_ensures(Init::resume, (registering, reply), end),
    ensures
        step is Call,
        step->Call_1 is DefineProperties,
        step->Call_1->DefineProperties_env == env,
        step->Call_1->object == exports,
        step->Call_1->properties@ == seq![
            PropertyDescriptor { utf8name: "test_async_work\0", method: Entry::TestAsyncWork },
        ],
        end == Step::<Init, ()>::Return(()),
{
}

} // verus!
