//! One function for each operation of the boundary: read the request, make
//! the one call into the engine that it stands for, classify what came
//! back, and write the answer.
//!
//! A request that cannot be read is a fault: there is no safe way to report
//! it in an answer that the same host would have to read. What the engine
//! reports travels in the answer. Which answer comes depends on the state of
//! the engine, of which nothing is known here; so each function says which
//! requests are refused and with what fault, and that every other request
//! gets the written form of one of the answers that its operation has.
use vstd::prelude::*;
use vstd::utf8::{decode_utf8, valid_utf8};
use crate::answers::{
    async_answer, awakeable_answer, call_answer, do_progress_return, empty_answer, failed_view,
    generic_empty_return, input_answer, is_ready_to_execute_return, notification_answer,
    progress_answer, ready_answer, response_head_answer, response_head_return,
    simple_sys_async_result_return, sys_awakeable_return, sys_call_return, sys_input_return,
    take_notification_return, take_output_answer, take_output_return, taken_view,
};
use crate::calls::EngineCall;
use crate::common::{Failure, FailureModel, HeaderModel};
use crate::domain::{
    awakeable_outcome, awakeable_value, call_arguments, call_target, output_outcome, output_value,
    policy_handed, policy_of, present_time, promise_outcome, promise_value, retry_policy, run_exit,
    run_exit_result, send_arguments, send_target, sleep_now, HaltModel, NotificationValueModel,
    Progress,
};
use crate::engine::{protocol_content_type, WasmVM};
use crate::fault::Fault;
use crate::message::{decode, decoded, encode, encoded};
use crate::pieces::{flag_digit, string_from_utf8};
use crate::requests::{
    VmDoProgressParameters, VmProposeRunCompletionParameters,
    VmProposeRunCompletionParametersModel, VmSysAttachInvocationParameters, VmSysCallParameters,
    VmSysCancelInvocationParameters, VmSysCompleteAwakeableParameters,
    VmSysPromiseCompleteParameters, VmSysPromiseGetParameters, VmSysPromisePeekParameters,
    VmSysRunParameters, VmSysSendParameters, VmSysSendParametersModel, VmSysSleepParameters,
    VmSysSleepParametersModel, VmSysStateClearParameters, VmSysStateGetParameters,
    VmSysStateSetParameters, VmSysWriteOutputParameters,
};
use crate::responses::{
    GenericEmptyReturn, InputReturnModel, SimpleSysAsyncResultReturn, VmDoProgressReturn,
    VmGetResponseHeadReturn, VmGetResponseHeadReturnModel, VmIsReadyToExecuteReturn,
    VmSysAwakeableReturn, VmSysCallReturn, VmSysInputReturn, VmTakeNotificationReturn,
    VmTakeOutputReturn,
};

verus! {

/// The code that an error notified from outside the engine is given.
pub const NOTIFIED_ERROR_CODE: u16 = 500;

/// The bytes are the answer of an operation that returns nothing: done, or
/// a failure.
pub open spec fn is_empty_answer(bytes: Seq<u8>) -> bool {
    exists|o: Result<(), FailureModel>|
        bytes == encoded::<GenericEmptyReturn>(#[trigger] empty_answer(o))
}

/// The bytes are the answer of an operation that completes later: a
/// notification handle, or a failure.
pub open spec fn is_async_answer(bytes: Seq<u8>) -> bool {
    exists|o: Result<u32, FailureModel>|
        bytes == encoded::<SimpleSysAsyncResultReturn>(#[trigger] async_answer(o))
}

/// The head of every response: status 200 and one header, the content type
/// of the protocol.
pub open spec fn head_answer() -> VmGetResponseHeadReturnModel {
    response_head_answer(
        200,
        seq![(HeaderModel { key: "content-type"@, value: protocol_content_type() })],
    )
}

/// The bytes are the written form of the head of a response.
pub open spec fn is_response_head_answer(bytes: Seq<u8>) -> bool {
    bytes == encoded::<VmGetResponseHeadReturn>(head_answer())
}

/// The bytes are the answer to a request for output: bytes, or the end.
pub open spec fn is_take_output_answer(bytes: Seq<u8>) -> bool {
    exists|o: Option<Seq<u8>>|
        bytes == encoded::<VmTakeOutputReturn>(#[trigger] take_output_answer(o))
}

/// The bytes are the answer to the question whether handler code may
/// start: yes or no, or a failure.
pub open spec fn is_ready_answer(bytes: Seq<u8>) -> bool {
    exists|o: Result<bool, FailureModel>|
        bytes == encoded::<VmIsReadyToExecuteReturn>(#[trigger] ready_answer(o))
}

/// The bytes are the answer to a request to advance: one of its seven arms.
pub open spec fn is_progress_answer(bytes: Seq<u8>) -> bool {
    exists|o: Result<Progress, HaltModel>|
        bytes == encoded::<VmDoProgressReturn>(#[trigger] progress_answer(o))
}

/// The bytes are the answer to a request for a notification's value: not
/// ready, a value, suspended, or a failure.
pub open spec fn is_notification_answer(bytes: Seq<u8>) -> bool {
    exists|o: Result<Option<NotificationValueModel>, HaltModel>|
        bytes == encoded::<VmTakeNotificationReturn>(#[trigger] notification_answer(o))
}

/// The bytes are the answer to a request for the input: the input, or a
/// failure.
pub open spec fn is_input_answer(bytes: Seq<u8>) -> bool {
    exists|o: Result<InputReturnModel, FailureModel>|
        bytes == encoded::<VmSysInputReturn>(#[trigger] input_answer(o))
}

/// The bytes are the answer to a request for an awakeable: its identifier
/// and handle, or a failure.
pub open spec fn is_awakeable_answer(bytes: Seq<u8>) -> bool {
    exists|o: Result<(Seq<char>, u32), FailureModel>|
        bytes == encoded::<VmSysAwakeableReturn>(#[trigger] awakeable_answer(o))
}

/// The bytes are the answer to a call: its two handles, or a failure.
pub open spec fn is_call_answer(bytes: Seq<u8>) -> bool {
    exists|o: Result<(u32, u32), FailureModel>|
        bytes == encoded::<VmSysCallReturn>(#[trigger] call_answer(o))
}

/// The call that tells the engine of an error that arose outside it.
pub open spec fn notified_error(text: Seq<u8>) -> EngineCall {
    EngineCall::NotifyError { code: NOTIFIED_ERROR_CODE, message: decode_utf8(text) }
}

/// The call that a sleep request stands for.
pub open spec fn sleep_call(p: VmSysSleepParametersModel) -> EngineCall {
    EngineCall::SysSleep {
        name: p.name,
        wake_up_millis: p.wake_up_time_since_unix_epoch_millis,
        now_millis: sleep_now(
            p.wake_up_time_since_unix_epoch_millis,
            p.now_since_unix_epoch_millis,
        ),
    }
}

/// The call that a send request stands for.
pub open spec fn send_call(p: VmSysSendParametersModel) -> EngineCall {
    EngineCall::SysSend {
        target: send_arguments(p).0,
        input: send_arguments(p).1,
        execution_time_millis: send_arguments(p).2,
    }
}

/// The call that a report on a run block stands for, where it is not
/// refused: the policy goes to the engine as [`policy_handed`] says.
pub open spec fn completion_call(p: VmProposeRunCompletionParametersModel) -> EngineCall {
    EngineCall::ProposeRunCompletion {
        handle: p.handle,
        result: run_exit(p.result, p.attempt_duration_millis).unwrap(),
        policy: policy_handed(
            run_exit(p.result, p.attempt_duration_millis).unwrap(),
            policy_of(p.retry_policy),
        ).unwrap(),
    }
}

/// A request was refused with the given fault.
pub open spec fn refused(r: Result<Vec<u8>, Fault>, fault: Fault) -> bool {
    r == Err::<Vec<u8>, Fault>(fault)
}

/// Writes the answer of an operation that returns nothing.
pub fn answer_empty(outcome: Result<(), Failure>) -> (r: Vec<u8>)
    ensures
        r@ == encoded::<GenericEmptyReturn>(empty_answer(failed_view(outcome))),
        is_empty_answer(r@),
{
    encode(&generic_empty_return(outcome))
}

/// Writes the answer of an operation that completes later.
pub fn answer_async(outcome: Result<u32, Failure>) -> (r: Vec<u8>)
    ensures
        r@ == encoded::<SimpleSysAsyncResultReturn>(async_answer(failed_view(outcome))),
        is_async_answer(r@),
{
    encode(&simple_sys_async_result_return(outcome))
}

/// Answers with the head of the response that the engine wants sent:
/// status 200 and the content type of the protocol.
pub fn vm_get_response_head(vm: &WasmVM) -> (r: Vec<u8>)
    ensures
        r@ == encoded::<VmGetResponseHeadReturn>(head_answer()),
{
    let (status_code, headers) = vm.get_response_head();
    let answer = response_head_return(status_code, headers);
    proof {
        assert(answer@.headers =~= seq![
            (HeaderModel { key: "content-type"@, value: protocol_content_type() }),
        ]);
        assert(answer@ == head_answer());
    }
    encode(&answer)
}

/// Takes bytes of the input stream: the whole frames that pass the sifting
/// go to the engine, the rest waits for more.
pub fn vm_notify_input(vm: &mut WasmVM, input: Vec<u8>)
    ensures
        final(vm).fed(*old(vm), input@),
{
    vm.notify_input(input)
}

/// Tells the engine that the input stream has ended.
pub fn vm_notify_input_closed(vm: &mut WasmVM)
    ensures
        final(vm).after(*old(vm), EngineCall::NotifyInputClosed),
{
    vm.notify_input_closed()
}

/// Tells the engine of an error that arose outside it. The input is the
/// text of the error; it is refused where it is not valid UTF-8.
pub fn vm_notify_error(vm: &mut WasmVM, input: Vec<u8>) -> (r: Result<(), Fault>)
    ensures
        if valid_utf8(input@) {
            &&& r == Ok::<(), Fault>(())
            &&& final(vm).after(*old(vm), notified_error(input@))
        } else {
            &&& r == Err::<(), Fault>(Fault::InvalidText)
            &&& final(vm).untouched(*old(vm))
        },
{
    match string_from_utf8(input) {
        Some(message) => {
            vm.notify_error(NOTIFIED_ERROR_CODE, message);
            Ok(())
        },
        None => Err(Fault::InvalidText),
    }
}

/// Answers with the bytes that the engine wants sent, or with the end.
pub fn vm_take_output(vm: &mut WasmVM) -> (r: Vec<u8>)
    ensures
        final(vm).after(*old(vm), EngineCall::TakeOutput),
        is_take_output_answer(r@),
{
    encode(&take_output_return(vm.take_output()))
}

/// Asks the engine whether handler code may start, and answers with what
/// it said.
pub fn vm_is_ready_to_execute(vm: &mut WasmVM) -> (r: Vec<u8>)
    ensures
        final(vm).after(*old(vm), EngineCall::IsReadyToExecute),
        is_ready_answer(r@),
{
    encode(&is_ready_to_execute_return(vm.is_ready_to_execute()))
}

/// Asks the engine whether the notification behind `handle` has a value,
/// and returns what it said as a number: one for yes, zero for no. This
/// never fails, and it opens and closes no run block.
pub fn vm_is_completed(vm: &mut WasmVM, handle: u32) -> (r: u64)
    ensures
        final(vm).after(*old(vm), EngineCall::IsCompleted(handle)),
        r == 0 || r == 1,
{
    flag_digit(vm.is_completed(handle))
}

/// Advances the engine by one step on behalf of the notifications that the
/// request names.
pub fn vm_do_progress(vm: &mut WasmVM, input: &[u8]) -> (r: Result<Vec<u8>, Fault>)
    ensures
        match decoded::<VmDoProgressParameters>(input@) {
            None => refused(r, Fault::MalformedInput) && final(vm).untouched(*old(vm)),
            Some(p) => {
                &&& r is Ok && is_progress_answer(r.unwrap()@)
                &&& final(vm).after(*old(vm), EngineCall::DoProgress(p.handles))
            },
        },
{
    match decode::<VmDoProgressParameters>(input) {
        None => Err(Fault::MalformedInput),
        Some(p) => Ok(encode(&do_progress_return(vm.do_progress(p.handles)))),
    }
}

/// Answers with the value of a notification, if it has one. A value is
/// handed out once: a run block whose value was taken is open no more.
pub fn vm_take_notification(vm: &mut WasmVM, handle: u32) -> (r: Vec<u8>)
    ensures
        final(vm).calls() == old(vm).calls().push(EngineCall::TakeNotification(handle)),
        final(vm).origin() == old(vm).origin(),
        final(vm).same_stream(*old(vm)),
        exists|o: Result<Option<NotificationValueModel>, HaltModel>|
            {
                &&& r@ == encoded::<VmTakeNotificationReturn>(#[trigger] notification_answer(o))
                &&& final(vm).open_runs() == match o {
                    Ok(Some(_)) => old(vm).open_runs().remove(handle),
                    _ => old(vm).open_runs(),
                }
            },
{
    let outcome = vm.take_notification(handle);
    let ghost o = taken_view(outcome);
    let bytes = encode(&take_notification_return(outcome));
    proof {
        assert(bytes@ == encoded::<VmTakeNotificationReturn>(notification_answer(o)));
    }
    bytes
}

/// Answers with the input of the invocation.
pub fn vm_sys_input(vm: &mut WasmVM) -> (r: Vec<u8>)
    ensures
        final(vm).after(*old(vm), EngineCall::SysInput),
        is_input_answer(r@),
{
    encode(&sys_input_return(vm.sys_input()))
}

/// Starts reading one state entry.
pub fn vm_sys_state_get(vm: &mut WasmVM, input: &[u8]) -> (r: Result<Vec<u8>, Fault>)
    ensures
        match decoded::<VmSysStateGetParameters>(input@) {
            None => refused(r, Fault::MalformedInput) && final(vm).untouched(*old(vm)),
            Some(p) => {
                &&& r is Ok && is_async_answer(r.unwrap()@)
                &&& final(vm).after(*old(vm), EngineCall::SysStateGet(p.key))
            },
        },
{
    match decode::<VmSysStateGetParameters>(input) {
        None => Err(Fault::MalformedInput),
        Some(p) => Ok(answer_async(vm.sys_state_get(p.key))),
    }
}

/// Starts reading the keys of the state entries.
pub fn vm_sys_state_get_keys(vm: &mut WasmVM) -> (r: Vec<u8>)
    ensures
        final(vm).after(*old(vm), EngineCall::SysStateGetKeys),
        is_async_answer(r@),
{
    answer_async(vm.sys_state_get_keys())
}

/// Writes one state entry.
pub fn vm_sys_state_set(vm: &mut WasmVM, input: &[u8]) -> (r: Result<Vec<u8>, Fault>)
    ensures
        match decoded::<VmSysStateSetParameters>(input@) {
            None => refused(r, Fault::MalformedInput) && final(vm).untouched(*old(vm)),
            Some(p) => {
                &&& r is Ok && is_empty_answer(r.unwrap()@)
                &&& final(vm).after(
                    *old(vm),
                    EngineCall::SysStateSet { key: p.key, value: p.value },
                )
            },
        },
{
    match decode::<VmSysStateSetParameters>(input) {
        None => Err(Fault::MalformedInput),
        Some(p) => Ok(answer_empty(vm.sys_state_set(p.key, p.value))),
    }
}

/// Removes one state entry.
pub fn vm_sys_state_clear(vm: &mut WasmVM, input: &[u8]) -> (r: Result<Vec<u8>, Fault>)
    ensures
        match decoded::<VmSysStateClearParameters>(input@) {
            None => refused(r, Fault::MalformedInput) && final(vm).untouched(*old(vm)),
            Some(p) => {
                &&& r is Ok && is_empty_answer(r.unwrap()@)
                &&& final(vm).after(*old(vm), EngineCall::SysStateClear(p.key))
            },
        },
{
    match decode::<VmSysStateClearParameters>(input) {
        None => Err(Fault::MalformedInput),
        Some(p) => Ok(answer_empty(vm.sys_state_clear(p.key))),
    }
}

/// Removes every state entry.
pub fn vm_sys_state_clear_all(vm: &mut WasmVM) -> (r: Vec<u8>)
    ensures
        final(vm).after(*old(vm), EngineCall::SysStateClearAll),
        is_empty_answer(r@),
{
    answer_empty(vm.sys_state_clear_all())
}

/// Starts a sleep until the time that the request names.
pub fn vm_sys_sleep(vm: &mut WasmVM, input: &[u8]) -> (r: Result<Vec<u8>, Fault>)
    ensures
        match decoded::<VmSysSleepParameters>(input@) {
            None => refused(r, Fault::MalformedInput) && final(vm).untouched(*old(vm)),
            Some(p) => {
                &&& r is Ok && is_async_answer(r.unwrap()@)
                &&& final(vm).after(*old(vm), sleep_call(p))
            },
        },
{
    match decode::<VmSysSleepParameters>(input) {
        None => Err(Fault::MalformedInput),
        Some(p) => {
            let wake_up = p.wake_up_time_since_unix_epoch_millis;
            let now = present_time(wake_up, p.now_since_unix_epoch_millis);
            Ok(answer_async(vm.sys_sleep(p.name, wake_up, now)))
        },
    }
}

/// Makes a new awakeable.
pub fn vm_sys_awakeable(vm: &mut WasmVM) -> (r: Vec<u8>)
    ensures
        final(vm).after(*old(vm), EngineCall::SysAwakeable),
        is_awakeable_answer(r@),
{
    encode(&sys_awakeable_return(vm.sys_awakeable()))
}

/// Completes an awakeable with the outcome that the request carries.
pub fn vm_sys_complete_awakeable(vm: &mut WasmVM, input: &[u8]) -> (r: Result<Vec<u8>, Fault>)
    ensures
        match decoded::<VmSysCompleteAwakeableParameters>(input@) {
            None => refused(r, Fault::MalformedInput) && final(vm).untouched(*old(vm)),
            Some(p) => match awakeable_outcome(p.result) {
                Err(fault) => refused(r, fault) && final(vm).untouched(*old(vm)),
                Ok(value) => {
                    &&& r is Ok && is_empty_answer(r.unwrap()@)
                    &&& final(vm).after(
                        *old(vm),
                        EngineCall::SysCompleteAwakeable { id: p.id, outcome: value },
                    )
                },
            },
        },
{
    match decode::<VmSysCompleteAwakeableParameters>(input) {
        None => Err(Fault::MalformedInput),
        Some(p) => match awakeable_value(p.result) {
            Err(fault) => Err(fault),
            Ok(value) => Ok(answer_empty(vm.sys_complete_awakeable(p.id, value))),
        },
    }
}

/// Starts a call to the target that the request names.
pub fn vm_sys_call(vm: &mut WasmVM, input: &[u8]) -> (r: Result<Vec<u8>, Fault>)
    ensures
        match decoded::<VmSysCallParameters>(input@) {
            None => refused(r, Fault::MalformedInput) && final(vm).untouched(*old(vm)),
            Some(p) => {
                &&& r is Ok && is_call_answer(r.unwrap()@)
                &&& final(vm).after(
                    *old(vm),
                    EngineCall::SysCall { target: call_arguments(p).0, input: call_arguments(p).1 },
                )
            },
        },
{
    match decode::<VmSysCallParameters>(input) {
        None => Err(Fault::MalformedInput),
        Some(p) => {
            let (target, payload) = call_target(p);
            Ok(encode(&sys_call_return(vm.sys_call(target, payload))))
        },
    }
}

/// Starts a call that nobody waits for, at once or at the time that the
/// request names.
pub fn vm_sys_send(vm: &mut WasmVM, input: &[u8]) -> (r: Result<Vec<u8>, Fault>)
    ensures
        match decoded::<VmSysSendParameters>(input@) {
            None => refused(r, Fault::MalformedInput) && final(vm).untouched(*old(vm)),
            Some(p) => {
                &&& r is Ok && is_async_answer(r.unwrap()@)
                &&& final(vm).after(*old(vm), send_call(p))
            },
        },
{
    match decode::<VmSysSendParameters>(input) {
        None => Err(Fault::MalformedInput),
        Some(p) => {
            let (target, payload, at) = send_target(p);
            Ok(answer_async(vm.sys_send(target, payload, at)))
        },
    }
}

/// Asks another invocation to cancel.
pub fn vm_sys_cancel_invocation(vm: &mut WasmVM, input: &[u8]) -> (r: Result<Vec<u8>, Fault>)
    ensures
        match decoded::<VmSysCancelInvocationParameters>(input@) {
            None => refused(r, Fault::MalformedInput) && final(vm).untouched(*old(vm)),
            Some(p) => {
                &&& r is Ok && is_empty_answer(r.unwrap()@)
                &&& final(vm).after(*old(vm), EngineCall::SysCancelInvocation(p.invocation_id))
            },
        },
{
    match decode::<VmSysCancelInvocationParameters>(input) {
        None => Err(Fault::MalformedInput),
        Some(p) => Ok(answer_empty(vm.sys_cancel_invocation(p.invocation_id))),
    }
}

/// Starts waiting for the result of another invocation.
pub fn vm_sys_attach_invocation(vm: &mut WasmVM, input: &[u8]) -> (r: Result<Vec<u8>, Fault>)
    ensures
        match decoded::<VmSysAttachInvocationParameters>(input@) {
            None => refused(r, Fault::MalformedInput) && final(vm).untouched(*old(vm)),
            Some(p) => {
                &&& r is Ok && is_async_answer(r.unwrap()@)
                &&& final(vm).after(*old(vm), EngineCall::SysAttachInvocation(p.invocation_id))
            },
        },
{
    match decode::<VmSysAttachInvocationParameters>(input) {
        None => Err(Fault::MalformedInput),
        Some(p) => Ok(answer_async(vm.sys_attach_invocation(p.invocation_id))),
    }
}

/// Starts waiting for a promise.
pub fn vm_sys_promise_get(vm: &mut WasmVM, input: &[u8]) -> (r: Result<Vec<u8>, Fault>)
    ensures
        match decoded::<VmSysPromiseGetParameters>(input@) {
            None => refused(r, Fault::MalformedInput) && final(vm).untouched(*old(vm)),
            Some(p) => {
                &&& r is Ok && is_async_answer(r.unwrap()@)
                &&& final(vm).after(*old(vm), EngineCall::SysGetPromise(p.key))
            },
        },
{
    match decode::<VmSysPromiseGetParameters>(input) {
        None => Err(Fault::MalformedInput),
        Some(p) => Ok(answer_async(vm.sys_get_promise(p.key))),
    }
}

/// Starts looking at a promise without waiting for it.
pub fn vm_sys_promise_peek(vm: &mut WasmVM, input: &[u8]) -> (r: Result<Vec<u8>, Fault>)
    ensures
        match decoded::<VmSysPromisePeekParameters>(input@) {
            None => refused(r, Fault::MalformedInput) && final(vm).untouched(*old(vm)),
            Some(p) => {
                &&& r is Ok && is_async_answer(r.unwrap()@)
                &&& final(vm).after(*old(vm), EngineCall::SysPeekPromise(p.key))
            },
        },
{
    match decode::<VmSysPromisePeekParameters>(input) {
        None => Err(Fault::MalformedInput),
        Some(p) => Ok(answer_async(vm.sys_peek_promise(p.key))),
    }
}

/// Starts completing a promise with the outcome that the request carries.
pub fn vm_sys_promise_complete(vm: &mut WasmVM, input: &[u8]) -> (r: Result<Vec<u8>, Fault>)
    ensures
        match decoded::<VmSysPromiseCompleteParameters>(input@) {
            None => refused(r, Fault::MalformedInput) && final(vm).untouched(*old(vm)),
            Some(p) => match promise_outcome(p.result) {
                Err(fault) => refused(r, fault) && final(vm).untouched(*old(vm)),
                Ok(value) => {
                    &&& r is Ok && is_async_answer(r.unwrap()@)
                    &&& final(vm).after(
                        *old(vm),
                        EngineCall::SysCompletePromise { key: p.id, outcome: value },
                    )
                },
            },
        },
{
    match decode::<VmSysPromiseCompleteParameters>(input) {
        None => Err(Fault::MalformedInput),
        Some(p) => match promise_value(p.result) {
            Err(fault) => Err(fault),
            Ok(value) => Ok(answer_async(vm.sys_complete_promise(p.id, value))),
        },
    }
}

/// Opens a run block. Where the answer carries a handle, the run block is
/// open from now on.
pub fn vm_sys_run(vm: &mut WasmVM, input: &[u8]) -> (r: Result<Vec<u8>, Fault>)
    ensures
        match decoded::<VmSysRunParameters>(input@) {
            None => refused(r, Fault::MalformedInput) && final(vm).untouched(*old(vm)),
            Some(p) => {
                &&& r is Ok
                &&& final(vm).calls() == old(vm).calls().push(EngineCall::SysRun(p.name))
                &&& final(vm).origin() == old(vm).origin()
                &&& final(vm).same_stream(*old(vm))
                &&& exists|o: Result<u32, FailureModel>|
                    {
                        &&& r.unwrap()@ == encoded::<SimpleSysAsyncResultReturn>(
                            #[trigger] async_answer(o),
                        )
                        &&& final(vm).open_runs() == match o {
                            Ok(handle) => old(vm).open_runs().insert(handle),
                            Err(_) => old(vm).open_runs(),
                        }
                    }
            },
        },
{
    match decode::<VmSysRunParameters>(input) {
        None => Err(Fault::MalformedInput),
        Some(p) => {
            let outcome = vm.sys_run(p.name);
            let ghost o = failed_view(outcome);
            let bytes = answer_async(outcome);
            proof {
                assert(bytes@ == encoded::<SimpleSysAsyncResultReturn>(async_answer(o)));
            }
            Ok(bytes)
        },
    }
}

/// Why a report on a run block is refused, if it is: it must carry an
/// outcome, a failure for good must have a code of 16 bits, the run block
/// must be open, and where it ended in a failure that may be tried again,
/// the factor of the retry policy must be a finite number that is not
/// negative.
pub open spec fn completion_refusal(
    vm: WasmVM,
    p: VmProposeRunCompletionParametersModel,
) -> Option<Fault> {
    match run_exit(p.result, p.attempt_duration_millis) {
        Err(fault) => Some(fault),
        Ok(result) => vm.run_refusal(p.handle, result, policy_of(p.retry_policy)),
    }
}

/// Reports how a run block ended, with the retry policy that applies where
/// it failed and may be tried again. Whether it is tried again is for the
/// engine to decide.
pub fn vm_propose_run_completion(vm: &mut WasmVM, input: &[u8]) -> (r: Result<Vec<u8>, Fault>)
    ensures
        match decoded::<VmProposeRunCompletionParameters>(input@) {
            None => refused(r, Fault::MalformedInput) && final(vm).untouched(*old(vm)),
            Some(p) => match completion_refusal(*old(vm), p) {
                Some(fault) => refused(r, fault) && final(vm).untouched(*old(vm)),
                None => {
                    &&& r is Ok && is_empty_answer(r.unwrap()@)
                    &&& final(vm).after(*old(vm), completion_call(p))
                },
            },
        },
{
    match decode::<VmProposeRunCompletionParameters>(input) {
        None => Err(Fault::MalformedInput),
        Some(p) => {
            let policy = retry_policy(&p.retry_policy);
            match run_exit_result(p.result, p.attempt_duration_millis) {
                Err(fault) => Err(fault),
                Ok(result) => match vm.propose_run_completion(p.handle, result, policy) {
                    Err(fault) => Err(fault),
                    Ok(outcome) => Ok(answer_empty(outcome)),
                },
            }
        },
    }
}

/// Writes the output of the invocation.
pub fn vm_write_output(vm: &mut WasmVM, input: &[u8]) -> (r: Result<Vec<u8>, Fault>)
    ensures
        match decoded::<VmSysWriteOutputParameters>(input@) {
            None => refused(r, Fault::MalformedInput) && final(vm).untouched(*old(vm)),
            Some(p) => match output_outcome(p.result) {
                Err(fault) => refused(r, fault) && final(vm).untouched(*old(vm)),
                Ok(value) => {
                    &&& r is Ok && is_empty_answer(r.unwrap()@)
                    &&& final(vm).after(*old(vm), EngineCall::SysWriteOutput(value))
                },
            },
        },
{
    match decode::<VmSysWriteOutputParameters>(input) {
        None => Err(Fault::MalformedInput),
        Some(p) => match output_value(p.result) {
            Err(fault) => Err(fault),
            Ok(value) => Ok(answer_empty(vm.sys_write_output(value))),
        },
    }
}

/// Ends the invocation.
pub fn vm_sys_end(vm: &mut WasmVM) -> (r: Vec<u8>)
    ensures
        final(vm).after(*old(vm), EngineCall::SysEnd),
        is_empty_answer(r@),
{
    answer_empty(vm.sys_end())
}

} // verus!
