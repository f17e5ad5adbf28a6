//! The boundary as the host sees it: instances behind handles, and every
//! operation on an instance as one call.
//!
//! A call resolves the handle, which adds to the count of the instance,
//! performs the operation, and releases the handle again. The counts are
//! therefore the same after every call as before it, whatever the call
//! returns; only `vm_new` and `vm_free` change them.
use vstd::prelude::*;
use vstd::utf8::valid_utf8;
use crate::answers::{async_answer, new_answer, notification_answer, vm_new_return};
use crate::bridge::{
    completion_call, completion_refusal, is_async_answer, is_awakeable_answer, is_call_answer,
    is_empty_answer, is_input_answer, is_progress_answer, is_ready_answer,
    is_response_head_answer, is_take_output_answer, notified_error, send_call, sleep_call,
    vm_do_progress, vm_get_response_head, vm_is_completed, vm_is_ready_to_execute, vm_notify_error,
    vm_notify_input, vm_notify_input_closed, vm_propose_run_completion, vm_sys_attach_invocation,
    vm_sys_awakeable, vm_sys_call, vm_sys_cancel_invocation, vm_sys_complete_awakeable, vm_sys_end,
    vm_sys_input, vm_sys_promise_complete, vm_sys_promise_get, vm_sys_promise_peek, vm_sys_run,
    vm_sys_send, vm_sys_sleep, vm_sys_state_clear, vm_sys_state_clear_all, vm_sys_state_get,
    vm_sys_state_get_keys, vm_sys_state_set, vm_take_notification, vm_take_output, vm_write_output,
};
use crate::calls::EngineCall;
use crate::common::{FailureModel, HeaderModel};
use crate::domain::{
    awakeable_outcome, call_arguments, output_outcome, promise_outcome, DefiniteValueModel,
    HaltModel, NotificationValueModel,
};
use crate::engine::{accepted, WasmVM};
use crate::fault::Fault;
use crate::headers::WasmHeaders;
use crate::message::{decode, decoded, encode, encoded, Message};
use crate::registry::{free_refusal, freed, live, released, resolve_refusal, resolved, Registry};
use crate::requests::{
    VmDoProgressParameters, VmDoProgressParametersModel, VmNewParameters,
    VmProposeRunCompletionParameters, VmSysAttachInvocationParameters,
    VmSysAttachInvocationParametersModel, VmSysCallParameters, VmSysCallParametersModel,
    VmSysCancelInvocationParameters, VmSysCancelInvocationParametersModel,
    VmSysCompleteAwakeableParameters, VmSysCompleteAwakeableParametersModel,
    VmSysPromiseCompleteParameters, VmSysPromiseCompleteParametersModel, VmSysPromiseGetParameters,
    VmSysPromiseGetParametersModel, VmSysPromisePeekParameters, VmSysPromisePeekParametersModel,
    VmSysRunParameters, VmSysSendParameters, VmSysSendParametersModel, VmSysSleepParameters,
    VmSysSleepParametersModel, VmSysStateClearParameters, VmSysStateClearParametersModel,
    VmSysStateGetParameters, VmSysStateGetParametersModel, VmSysStateSetParameters,
    VmSysStateSetParametersModel, VmSysWriteOutputParameters, VmSysWriteOutputParametersModel,
};
use crate::responses::{SimpleSysAsyncResultReturn, VmNewReturn, VmTakeNotificationReturn};

verus! {

/// The operations on an instance. Two of them carry the notification that
/// they are about; the others take their request, where they have one, as
/// bytes.
#[derive(Clone, Copy, Debug, PartialEq, Eq, Structural)]
pub enum Operation {
    /// The head of the response that the engine wants sent.
    GetResponseHead,
    /// Bytes of the input stream have come; the request is the bytes.
    NotifyInput,
    /// The input stream has ended.
    NotifyInputClosed,
    /// An error arose outside the engine; the request is its text.
    NotifyError,
    /// The bytes that the engine wants sent.
    TakeOutput,
    /// Whether handler code may start.
    IsReadyToExecute,
    /// Whether the notification has a value.
    IsCompleted(u32),
    /// Advance by one step.
    DoProgress,
    /// The value of the notification.
    TakeNotification(u32),
    /// The input of the invocation.
    SysInput,
    /// Read one state entry.
    SysStateGet,
    /// Read the keys of the state entries.
    SysStateGetKeys,
    /// Write one state entry.
    SysStateSet,
    /// Remove one state entry.
    SysStateClear,
    /// Remove every state entry.
    SysStateClearAll,
    /// Sleep until a point in time.
    SysSleep,
    /// Make a new awakeable.
    SysAwakeable,
    /// Complete an awakeable.
    SysCompleteAwakeable,
    /// Call a handler and wait for its result.
    SysCall,
    /// Call a handler without waiting for its result.
    SysSend,
    /// Ask another invocation to cancel.
    SysCancelInvocation,
    /// Wait for the result of another invocation.
    SysAttachInvocation,
    /// Wait for a promise.
    SysPromiseGet,
    /// Look at a promise without waiting.
    SysPromisePeek,
    /// Complete a promise.
    SysPromiseComplete,
    /// Open a run block.
    SysRun,
    /// Report how a run block ended.
    ProposeRunCompletion,
    /// Write the output of the invocation.
    SysWriteOutput,
    /// End the invocation.
    SysEnd,
}

/// What a call returns to the host: nothing, a number, or a buffer of bytes
/// that the host must read and give back.
#[derive(Clone, Debug, PartialEq, Eq)]
pub enum Reply {
    /// The operation returns nothing.
    Nothing,
    /// A number: a truth value as zero or one.
    Scalar(u64),
    /// The written form of an answer.
    Buffer(Vec<u8>),
}

/// What a [`Reply`] holds.
pub enum ReplyModel {
    Nothing,
    Scalar(u64),
    Buffer(Seq<u8>),
}

impl View for Reply {
    type V = ReplyModel;

    open spec fn view(&self) -> ReplyModel {
        match self {
            Reply::Nothing => ReplyModel::Nothing,
            Reply::Scalar(n) => ReplyModel::Scalar(*n),
            Reply::Buffer(b) => ReplyModel::Buffer(b@),
        }
    }
}

/// The outcome of a call by its view.
pub open spec fn reply_view(r: Result<Reply, Fault>) -> Result<ReplyModel, Fault> {
    match r {
        Ok(reply) => Ok(reply@),
        Err(fault) => Err(fault),
    }
}

/// The call returned a buffer of the given shape.
pub open spec fn gave(r: Result<ReplyModel, Fault>, shape: spec_fn(Seq<u8>) -> bool) -> bool {
    match r {
        Ok(ReplyModel::Buffer(b)) => shape(b),
        _ => false,
    }
}

/// The operation made one call into the engine and returned a buffer of
/// the given shape.
pub open spec fn did(
    before: WasmVM,
    after: WasmVM,
    r: Result<ReplyModel, Fault>,
    call: EngineCall,
    shape: spec_fn(Seq<u8>) -> bool,
) -> bool {
    gave(r, shape) && after.after(before, call)
}

/// The operation refused a request that cannot be read as the message `M`
/// and left the instance untouched; for every other request it made the
/// call that the request stands for and returned a buffer of the given
/// shape.
pub open spec fn asked<M: Message>(
    before: WasmVM,
    after: WasmVM,
    input: Seq<u8>,
    r: Result<ReplyModel, Fault>,
    call: spec_fn(M::V) -> EngineCall,
    shape: spec_fn(Seq<u8>) -> bool,
) -> bool {
    match decoded::<M>(input) {
        None => r == Err::<ReplyModel, Fault>(Fault::MalformedInput) && after.untouched(before),
        Some(p) => did(before, after, r, call(p), shape),
    }
}

/// The same for a request that carries an outcome: it is refused also
/// where the outcome is missing or no definite value.
pub open spec fn settled<M: Message>(
    before: WasmVM,
    after: WasmVM,
    input: Seq<u8>,
    r: Result<ReplyModel, Fault>,
    outcome: spec_fn(M::V) -> Result<DefiniteValueModel, Fault>,
    call: spec_fn(M::V, DefiniteValueModel) -> EngineCall,
    shape: spec_fn(Seq<u8>) -> bool,
) -> bool {
    match decoded::<M>(input) {
        None => r == Err::<ReplyModel, Fault>(Fault::MalformedInput) && after.untouched(before),
        Some(p) => match outcome(p) {
            Err(fault) => r == Err::<ReplyModel, Fault>(fault) && after.untouched(before),
            Ok(value) => did(before, after, r, call(p, value), shape),
        },
    }
}

/// What holds of each operation: of its outcome `r`, and of the instance
/// `after` it as against `before`, given the bytes of the request.
pub open spec fn expected(
    op: Operation,
    before: WasmVM,
    after: WasmVM,
    input: Seq<u8>,
    r: Result<ReplyModel, Fault>,
) -> bool {
    let empty = |b: Seq<u8>| is_empty_answer(b);
    let later = |b: Seq<u8>| is_async_answer(b);
    match op {
        Operation::GetResponseHead => {
            &&& gave(r, |b: Seq<u8>| is_response_head_answer(b))
            &&& after == before
        },
        Operation::NotifyInput => {
            &&& r == Ok::<ReplyModel, Fault>(ReplyModel::Nothing)
            &&& after.fed(before, input)
        },
        Operation::NotifyInputClosed => {
            &&& r == Ok::<ReplyModel, Fault>(ReplyModel::Nothing)
            &&& after.after(before, EngineCall::NotifyInputClosed)
        },
        Operation::NotifyError => if valid_utf8(input) {
            &&& r == Ok::<ReplyModel, Fault>(ReplyModel::Nothing)
            &&& after.after(before, notified_error(input))
        } else {
            &&& r == Err::<ReplyModel, Fault>(Fault::InvalidText)
            &&& after.untouched(before)
        },
        Operation::TakeOutput => did(
            before,
            after,
            r,
            EngineCall::TakeOutput,
            |b: Seq<u8>| is_take_output_answer(b),
        ),
        Operation::IsReadyToExecute => did(
            before,
            after,
            r,
            EngineCall::IsReadyToExecute,
            |b: Seq<u8>| is_ready_answer(b),
        ),
        Operation::IsCompleted(handle) => {
            &&& r == Ok::<ReplyModel, Fault>(ReplyModel::Scalar(0)) || r == Ok::<ReplyModel, Fault>(
                ReplyModel::Scalar(1),
            )
            &&& after.after(before, EngineCall::IsCompleted(handle))
        },
        Operation::DoProgress => asked::<VmDoProgressParameters>(
            before,
            after,
            input,
            r,
            |p: VmDoProgressParametersModel| EngineCall::DoProgress(p.handles),
            |b: Seq<u8>| is_progress_answer(b),
        ),
        Operation::TakeNotification(handle) => {
            &&& after.calls() == before.calls().push(EngineCall::TakeNotification(handle))
            &&& after.origin() == before.origin()
            &&& after.same_stream(before)
            &&& exists|o: Result<Option<NotificationValueModel>, HaltModel>|
                {
                    &&& r == Ok::<ReplyModel, Fault>(
                        ReplyModel::Buffer(
                            encoded::<VmTakeNotificationReturn>(#[trigger] notification_answer(o)),
                        ),
                    )
                    &&& after.open_runs() == match o {
                        Ok(Some(_)) => before.open_runs().remove(handle),
                        _ => before.open_runs(),
                    }
                }
        },
        Operation::SysInput => did(
            before,
            after,
            r,
            EngineCall::SysInput,
            |b: Seq<u8>| is_input_answer(b),
        ),
        Operation::SysStateGet => asked::<VmSysStateGetParameters>(
            before,
            after,
            input,
            r,
            |p: VmSysStateGetParametersModel| EngineCall::SysStateGet(p.key),
            later,
        ),
        Operation::SysStateGetKeys => did(before, after, r, EngineCall::SysStateGetKeys, later),
        Operation::SysStateSet => asked::<VmSysStateSetParameters>(
            before,
            after,
            input,
            r,
            |p: VmSysStateSetParametersModel|
                EngineCall::SysStateSet { key: p.key, value: p.value },
            empty,
        ),
        Operation::SysStateClear => asked::<VmSysStateClearParameters>(
            before,
            after,
            input,
            r,
            |p: VmSysStateClearParametersModel| EngineCall::SysStateClear(p.key),
            empty,
        ),
        Operation::SysStateClearAll => did(before, after, r, EngineCall::SysStateClearAll, empty),
        Operation::SysSleep => asked::<VmSysSleepParameters>(
            before,
            after,
            input,
            r,
            |p: VmSysSleepParametersModel| sleep_call(p),
            later,
        ),
        Operation::SysAwakeable => did(
            before,
            after,
            r,
            EngineCall::SysAwakeable,
            |b: Seq<u8>| is_awakeable_answer(b),
        ),
        Operation::SysCompleteAwakeable => settled::<VmSysCompleteAwakeableParameters>(
            before,
            after,
            input,
            r,
            |p: VmSysCompleteAwakeableParametersModel| awakeable_outcome(p.result),
            |p: VmSysCompleteAwakeableParametersModel, outcome: DefiniteValueModel|
                EngineCall::SysCompleteAwakeable { id: p.id, outcome },
            empty,
        ),
        Operation::SysCall => asked::<VmSysCallParameters>(
            before,
            after,
            input,
            r,
            |p: VmSysCallParametersModel|
                EngineCall::SysCall { target: call_arguments(p).0, input: call_arguments(p).1 },
            |b: Seq<u8>| is_call_answer(b),
        ),
        Operation::SysSend => asked::<VmSysSendParameters>(
            before,
            after,
            input,
            r,
            |p: VmSysSendParametersModel| send_call(p),
            later,
        ),
        Operation::SysCancelInvocation => asked::<VmSysCancelInvocationParameters>(
            before,
            after,
            input,
            r,
            |p: VmSysCancelInvocationParametersModel|
                EngineCall::SysCancelInvocation(p.invocation_id),
            empty,
        ),
        Operation::SysAttachInvocation => asked::<VmSysAttachInvocationParameters>(
            before,
            after,
            input,
            r,
            |p: VmSysAttachInvocationParametersModel|
                EngineCall::SysAttachInvocation(p.invocation_id),
            later,
        ),
        Operation::SysPromiseGet => asked::<VmSysPromiseGetParameters>(
            before,
            after,
            input,
            r,
            |p: VmSysPromiseGetParametersModel| EngineCall::SysGetPromise(p.key),
            later,
        ),
        Operation::SysPromisePeek => asked::<VmSysPromisePeekParameters>(
            before,
            after,
            input,
            r,
            |p: VmSysPromisePeekParametersModel| EngineCall::SysPeekPromise(p.key),
            later,
        ),
        Operation::SysPromiseComplete => settled::<VmSysPromiseCompleteParameters>(
            before,
            after,
            input,
            r,
            |p: VmSysPromiseCompleteParametersModel| promise_outcome(p.result),
            |p: VmSysPromiseCompleteParametersModel, outcome: DefiniteValueModel|
                EngineCall::SysCompletePromise { key: p.id, outcome },
            later,
        ),
        Operation::SysRun => match decoded::<VmSysRunParameters>(input) {
            None => r == Err::<ReplyModel, Fault>(Fault::MalformedInput) && after.untouched(before),
            Some(p) => {
                &&& after.calls() == before.calls().push(EngineCall::SysRun(p.name))
                &&& after.origin() == before.origin()
                &&& after.same_stream(before)
                &&& exists|o: Result<u32, FailureModel>|
                    {
                        &&& r == Ok::<ReplyModel, Fault>(
                            ReplyModel::Buffer(
                                encoded::<SimpleSysAsyncResultReturn>(#[trigger] async_answer(o)),
                            ),
                        )
                        &&& after.open_runs() == match o {
                            Ok(handle) => before.open_runs().insert(handle),
                            Err(_) => before.open_runs(),
                        }
                    }
            },
        },
        Operation::ProposeRunCompletion => match decoded::<VmProposeRunCompletionParameters>(
            input,
        ) {
            None => r == Err::<ReplyModel, Fault>(Fault::MalformedInput) && after.untouched(before),
            Some(p) => match completion_refusal(before, p) {
                Some(fault) => r == Err::<ReplyModel, Fault>(fault) && after.untouched(before),
                None => did(before, after, r, completion_call(p), empty),
            },
        },
        Operation::SysWriteOutput => settled::<VmSysWriteOutputParameters>(
            before,
            after,
            input,
            r,
            |p: VmSysWriteOutputParametersModel| output_outcome(p.result),
            |p: VmSysWriteOutputParametersModel, outcome: DefiniteValueModel|
                EngineCall::SysWriteOutput(outcome),
            empty,
        ),
        Operation::SysEnd => did(before, after, r, EngineCall::SysEnd, empty),
    }
}

/// Asking whether a notification has a value never fails, however often
/// it is asked; each time it is one question to the engine, of that
/// notification, and it opens and closes no run block.
pub proof fn lemma_polling_never_fails(
    handle: u32,
    before: WasmVM,
    after: WasmVM,
    input: Seq<u8>,
    r: Result<ReplyModel, Fault>,
)
    requires
        expected(Operation::IsCompleted(handle), before, after, input, r),
    ensures
        r is Ok,
        after.calls() == before.calls().push(EngineCall::IsCompleted(handle)),
        after.open_runs() == before.open_runs(),
{
}

/// Taking the value of a notification never fails here, and each time it
/// is one call into the engine: no value is kept on this side to hand out
/// again.
pub proof fn lemma_take_is_one_call(
    handle: u32,
    before: WasmVM,
    after: WasmVM,
    input: Seq<u8>,
    r: Result<ReplyModel, Fault>,
)
    requires
        expected(Operation::TakeNotification(handle), before, after, input, r),
    ensures
        r is Ok,
        after.calls() == before.calls().push(EngineCall::TakeNotification(handle)),
        after.open_runs().subset_of(before.open_runs()),
{
}

/// A buffer as a reply.
fn buffer(r: Result<Vec<u8>, Fault>) -> (reply: Result<Reply, Fault>)
    ensures
        match r {
            Ok(b) => reply_view(reply) == Ok::<ReplyModel, Fault>(ReplyModel::Buffer(b@)),
            Err(fault) => reply_view(reply) == Err::<ReplyModel, Fault>(fault),
        },
{
    match r {
        Ok(b) => Ok(Reply::Buffer(b)),
        Err(fault) => Err(fault),
    }
}

/// Performs one operation on an instance.
pub fn invoke(vm: &mut WasmVM, op: Operation, input: Vec<u8>) -> (r: Result<Reply, Fault>)
    ensures
        expected(op, *old(vm), *final(vm), input@, reply_view(r)),
{
    match op {
        Operation::GetResponseHead => Ok(Reply::Buffer(vm_get_response_head(vm))),
        Operation::NotifyInput => {
            vm_notify_input(vm, input);
            Ok(Reply::Nothing)
        },
        Operation::NotifyInputClosed => {
            vm_notify_input_closed(vm);
            Ok(Reply::Nothing)
        },
        Operation::NotifyError => match vm_notify_error(vm, input) {
            Ok(_) => Ok(Reply::Nothing),
            Err(fault) => Err(fault),
        },
        Operation::TakeOutput => Ok(Reply::Buffer(vm_take_output(vm))),
        Operation::IsReadyToExecute => Ok(Reply::Buffer(vm_is_ready_to_execute(vm))),
        Operation::IsCompleted(handle) => Ok(Reply::Scalar(vm_is_completed(vm, handle))),
        Operation::DoProgress => buffer(vm_do_progress(vm, input.as_slice())),
        Operation::TakeNotification(handle) => Ok(Reply::Buffer(vm_take_notification(vm, handle))),
        Operation::SysInput => Ok(Reply::Buffer(vm_sys_input(vm))),
        Operation::SysStateGet => buffer(vm_sys_state_get(vm, input.as_slice())),
        Operation::SysStateGetKeys => Ok(Reply::Buffer(vm_sys_state_get_keys(vm))),
        Operation::SysStateSet => buffer(vm_sys_state_set(vm, input.as_slice())),
        Operation::SysStateClear => buffer(vm_sys_state_clear(vm, input.as_slice())),
        Operation::SysStateClearAll => Ok(Reply::Buffer(vm_sys_state_clear_all(vm))),
        Operation::SysSleep => buffer(vm_sys_sleep(vm, input.as_slice())),
        Operation::SysAwakeable => Ok(Reply::Buffer(vm_sys_awakeable(vm))),
        Operation::SysCompleteAwakeable => buffer(
            vm_sys_complete_awakeable(vm, input.as_slice()),
        ),
        Operation::SysCall => buffer(vm_sys_call(vm, input.as_slice())),
        Operation::SysSend => buffer(vm_sys_send(vm, input.as_slice())),
        Operation::SysCancelInvocation => buffer(vm_sys_cancel_invocation(vm, input.as_slice())),
        Operation::SysAttachInvocation => buffer(vm_sys_attach_invocation(vm, input.as_slice())),
        Operation::SysPromiseGet => buffer(vm_sys_promise_get(vm, input.as_slice())),
        Operation::SysPromisePeek => buffer(vm_sys_promise_peek(vm, input.as_slice())),
        Operation::SysPromiseComplete => buffer(vm_sys_promise_complete(vm, input.as_slice())),
        Operation::SysRun => buffer(vm_sys_run(vm, input.as_slice())),
        Operation::ProposeRunCompletion => buffer(
            vm_propose_run_completion(vm, input.as_slice()),
        ),
        Operation::SysWriteOutput => buffer(vm_write_output(vm, input.as_slice())),
        Operation::SysEnd => Ok(Reply::Buffer(vm_sys_end(vm))),
    }
}

/// Performs one operation on the instance behind a handle. The handle is
/// resolved for the time of the call and released when it returns: the
/// counts are afterwards as they were, and no other instance is touched.
pub fn call(registry: &mut Registry<WasmVM>, handle: u32, op: Operation, input: Vec<u8>) -> (r:
    Result<Reply, Fault>)
    requires
        old(registry).wf(),
    ensures
        final(registry).wf(),
        final(registry).counts() == old(registry).counts(),
        forall|h: u32|
            h != handle
                && old(registry).counts().dom().contains(h) ==>
                    final(registry).instance(h) == old(registry).instance(h),
        match resolve_refusal(old(registry).counts(), handle) {
            Some(fault) => r == Err::<Reply, Fault>(fault)
                && (
                    old(registry).counts().dom().contains(handle) ==>
                        final(registry).instance(handle) == old(registry).instance(handle)
                ),
            None => expected(
                op,
                old(registry).instance(handle),
                final(registry).instance(handle),
                input@,
                reply_view(r),
            ),
        },
{
    proof {
        registry.lemma_held();
    }
    match registry.resolve(handle) {
        Err(fault) => Err(fault),
        Ok(_) => {
            let ghost held = registry.counts();
            let vm = registry.instance_mut(handle);
            let r = invoke(vm, op, input);
            proof {
                assert(released(held, handle) =~= old(registry).counts());
            }
            match registry.release(handle) {
                Ok(_) => r,
                Err(fault) => Err(fault),
            }
        },
    }
}

/// The table after an instance was constructed from the given headers and
/// put behind `handle`: the handle is fresh, the instance is held once, by
/// the host, and nothing has happened in it yet.
pub open spec fn constructed(
    before: Registry<WasmVM>,
    after: Registry<WasmVM>,
    headers: Seq<HeaderModel>,
    handle: u32,
) -> bool {
    &&& handle != 0
    &&& !before.counts().dom().contains(handle)
    &&& after.counts() == before.counts().insert(handle, 1)
    &&& after.instance(handle).origin() == headers
    &&& after.instance(handle).open_runs() == Set::<u32>::empty()
    &&& after.instance(handle).calls() == Seq::<EngineCall>::empty()
    &&& !after.instance(handle).started()
    &&& !after.instance(handle).shut()
    &&& after.instance(handle).pending() == Seq::<u8>::empty()
}

/// The answer carries the handle of an instance that was constructed from
/// the given headers.
pub open spec fn answered_with_instance(
    before: Registry<WasmVM>,
    after: Registry<WasmVM>,
    headers: Seq<HeaderModel>,
    answer: Seq<u8>,
) -> bool {
    exists|handle: u32|
        {
            &&& answer == encoded::<VmNewReturn>(
                #[trigger] new_answer(Ok::<u32, FailureModel>(handle)),
            )
            &&& constructed(before, after, headers, handle)
        }
}

/// The answer carries a failure that the engine reported.
pub open spec fn answered_with_failure(answer: Seq<u8>) -> bool {
    exists|f: FailureModel|
        answer == encoded::<VmNewReturn>(#[trigger] new_answer(Err::<u32, FailureModel>(f)))
}

/// Constructs an instance from the headers that the request carries and
/// answers with its handle; where the engine does not accept the headers,
/// it answers with the failure that the engine reported, and the table
/// stays as it is. A request that cannot be read is refused, and so is one
/// for which no handle is left.
pub fn vm_new(registry: &mut Registry<WasmVM>, input: &[u8]) -> (r: Result<Vec<u8>, Fault>)
    requires
        old(registry).wf(),
    ensures
        final(registry).wf(),
        forall|h: u32|
            old(registry).counts().dom().contains(h) ==>
                final(registry).instance(h) == old(registry).instance(h),
        match decoded::<VmNewParameters>(input@) {
            None => r == Err::<Vec<u8>, Fault>(Fault::MalformedInput)
                && final(registry).counts() == old(registry).counts(),
            Some(p) => if accepted(p.headers) {
                match r {
                    Ok(answer) => answered_with_instance(
                        *old(registry),
                        *final(registry),
                        p.headers,
                        answer@,
                    ),
                    Err(fault) => fault == Fault::Exhausted && old(registry).full()
                        && final(registry).counts() == old(registry).counts(),
                }
            } else {
                &&& r is Ok && answered_with_failure(r.unwrap()@)
                &&& final(registry).counts() == old(registry).counts()
            },
        },
{
    match decode::<VmNewParameters>(input) {
        None => Err(Fault::MalformedInput),
        Some(p) => match WasmVM::new(&WasmHeaders(p.headers)) {
            Ok(vm) => match registry.insert(vm) {
                Ok(handle) => {
                    let answer = encode(&vm_new_return(Ok(handle)));
                    proof {
                        assert(answer@ == encoded::<VmNewReturn>(
                            new_answer(Ok::<u32, FailureModel>(handle)),
                        ));
                    }
                    Ok(answer)
                },
                Err(fault) => Err(fault),
            },
            Err(failure) => {
                let answer = encode(&vm_new_return(Err(failure)));
                proof {
                    assert(answer@ == encoded::<VmNewReturn>(
                        new_answer(Err::<u32, FailureModel>(failure@)),
                    ));
                }
                Ok(answer)
            },
        },
    }
}

/// Frees the instance behind a handle. This succeeds only where the host
/// alone holds the instance; a handle that is null, not live, or still held
/// by a call is refused, and the table stays as it is, the instance behind
/// that handle included.
pub fn vm_free(registry: &mut Registry<WasmVM>, handle: u32) -> (r: Result<(), Fault>)
    requires
        old(registry).wf(),
    ensures
        final(registry).wf(),
        forall|h: u32|
            h != handle
                && old(registry).counts().dom().contains(h) ==>
                    final(registry).instance(h) == old(registry).instance(h),
        match free_refusal(old(registry).counts(), handle) {
            Some(fault) => r == Err::<(), Fault>(fault)
                && final(registry).counts() == old(registry).counts()
                && (old(registry).counts().dom().contains(handle) ==>
                    final(registry).instance(handle) == old(registry).instance(handle)),
            None => r is Ok && final(registry).counts() == freed(
                old(registry).counts(),
                handle,
            ),
        },
{
    match registry.free(handle) {
        Ok(_) => Ok(()),
        Err(fault) => Err(fault),
    }
}

} // verus!
