//! From what the engine returned to the message that the host reads.
//!
//! Every function here takes an outcome as a plain value and says exactly
//! which message answers it. Failures that the engine reports travel in the
//! failure arm of the answer; not ready and suspended are arms of their own
//! and never a failure.
use vstd::prelude::*;
use crate::common::{Failure, FailureModel, Header, HeaderModel};
use crate::domain::{
    failure_of_terminal, terminal_failure_message, Halt, HaltModel, NotificationValue,
    NotificationValueModel, Progress,
};
use crate::pieces::{option_view, views};
use crate::responses::{
    AsyncResult, AsyncResultModel, Awakeable, AwakeableModel, AwakeableResult,
    AwakeableResultModel, CallHandles, CallHandlesModel, DoProgressResult, DoProgressResultModel,
    EmptyResult, EmptyResultModel, GenericEmptyReturn, GenericEmptyReturnModel, InputReturn,
    InputReturnModel, ReadyResult, ReadyResultModel, SimpleSysAsyncResultReturn,
    SimpleSysAsyncResultReturnModel, StateKeys, StateKeysModel, SysCallResult, SysCallResultModel,
    SysInputResult, SysInputResultModel, TakeNotificationResult, TakeNotificationResultModel,
    TakeOutputResult, TakeOutputResultModel, TakenValue, TakenValueModel, ValueKind,
    ValueKindModel, VmDoProgressReturn, VmDoProgressReturnModel, VmGetResponseHeadReturn,
    VmGetResponseHeadReturnModel, VmIsReadyToExecuteReturn, VmIsReadyToExecuteReturnModel,
    VmNewResult, VmNewResultModel, VmNewReturn, VmNewReturnModel, VmSysAwakeableReturn,
    VmSysAwakeableReturnModel, VmSysCallReturn, VmSysCallReturnModel, VmSysInputReturn,
    VmSysInputReturnModel, VmTakeNotificationReturn, VmTakeNotificationReturnModel,
    VmTakeOutputReturn, VmTakeOutputReturnModel,
};

verus! {

/// An outcome with the view of its failure.
pub open spec fn failed_view<T>(outcome: Result<T, Failure>) -> Result<T, FailureModel> {
    match outcome {
        Ok(x) => Ok(x),
        Err(f) => Err(f@),
    }
}

/// The answer to the construction of an instance: its handle, or the
/// failure.
pub open spec fn new_answer(outcome: Result<u32, FailureModel>) -> VmNewReturnModel {
    VmNewReturnModel {
        result: Some(
            match outcome {
                Ok(handle) => VmNewResultModel::Pointer(handle),
                Err(f) => VmNewResultModel::Failure(f),
            },
        ),
    }
}

/// The answer to the construction of an instance.
pub fn vm_new_return(outcome: Result<u32, Failure>) -> (r: VmNewReturn)
    ensures
        r@ == new_answer(failed_view(outcome)),
{
    VmNewReturn {
        result: Some(
            match outcome {
                Ok(handle) => VmNewResult::Pointer(handle),
                Err(f) => VmNewResult::Failure(f),
            },
        ),
    }
}

/// The head of the response: the status code and the headers, as the engine
/// gave them.
pub open spec fn response_head_answer(
    status_code: u16,
    headers: Seq<HeaderModel>,
) -> VmGetResponseHeadReturnModel {
    VmGetResponseHeadReturnModel { status_code: status_code as u32, headers }
}

/// The head of the response.
pub fn response_head_return(status_code: u16, headers: Vec<Header>) -> (r: VmGetResponseHeadReturn)
    ensures
        r@ == response_head_answer(status_code, views(headers@)),
{
    VmGetResponseHeadReturn { status_code: status_code as u32, headers }
}

/// The answer to a request for output: the bytes, or the end where there
/// are none and none will come.
pub open spec fn take_output_answer(output: Option<Seq<u8>>) -> VmTakeOutputReturnModel {
    VmTakeOutputReturnModel {
        result: Some(
            match output {
                Some(b) => TakeOutputResultModel::Bytes(b),
                None => TakeOutputResultModel::Eof,
            },
        ),
    }
}

/// The answer to a request for output.
pub fn take_output_return(output: Option<Vec<u8>>) -> (r: VmTakeOutputReturn)
    ensures
        r@ == take_output_answer(option_view(output)),
{
    VmTakeOutputReturn {
        result: Some(
            match output {
                Some(b) => TakeOutputResult::Bytes(b),
                None => TakeOutputResult::Eof,
            },
        ),
    }
}

/// The answer to the question whether handler code may start.
pub open spec fn ready_answer(
    outcome: Result<bool,
    FailureModel>,
) -> VmIsReadyToExecuteReturnModel {
    VmIsReadyToExecuteReturnModel {
        result: Some(
            match outcome {
                Ok(ready) => ReadyResultModel::Ready(ready),
                Err(f) => ReadyResultModel::Failure(f),
            },
        ),
    }
}

/// The answer to the question whether handler code may start.
pub fn is_ready_to_execute_return(outcome: Result<bool, Failure>) -> (r: VmIsReadyToExecuteReturn)
    ensures
        r@ == ready_answer(failed_view(outcome)),
{
    VmIsReadyToExecuteReturn {
        result: Some(
            match outcome {
                Ok(ready) => ReadyResult::Ready(ready),
                Err(f) => ReadyResult::Failure(f),
            },
        ),
    }
}

/// An outcome with the view of what stopped the engine.
pub open spec fn halted_view<T>(outcome: Result<T, Halt>) -> Result<T, HaltModel> {
    match outcome {
        Ok(x) => Ok(x),
        Err(h) => Err(h@),
    }
}

/// The arm that answers one step of the engine. Each of the seven outcomes
/// has its own.
pub open spec fn progress_arm(outcome: Result<Progress, HaltModel>) -> DoProgressResultModel {
    match outcome {
        Ok(Progress::AnyCompleted) => DoProgressResultModel::AnyCompleted,
        Ok(Progress::ReadFromInput) => DoProgressResultModel::ReadFromInput,
        Ok(Progress::CancelSignalReceived) => DoProgressResultModel::CancelSignalReceived,
        Ok(Progress::WaitingPendingRun) => DoProgressResultModel::WaitingPendingRun,
        Ok(Progress::ExecuteRun(handle)) => DoProgressResultModel::ExecuteRun(handle),
        Err(HaltModel::Suspended) => DoProgressResultModel::Suspended,
        Err(HaltModel::Failed(f)) => DoProgressResultModel::Failure(f),
    }
}

/// The answer to a step is a failure exactly where the engine failed:
/// suspension, a cancel signal and a pending run are arms of their own.
pub proof fn lemma_progress_failure_only_on_failure(outcome: Result<Progress, HaltModel>)
    ensures
        progress_arm(outcome) is Failure <==> (outcome is Err && outcome->Err_0 is Failed),
        outcome == Err::<Progress, HaltModel>(HaltModel::Suspended) ==> progress_arm(outcome)
            == DoProgressResultModel::Suspended,
{
}

/// The answer to a request to advance.
pub open spec fn progress_answer(outcome: Result<Progress, HaltModel>) -> VmDoProgressReturnModel {
    VmDoProgressReturnModel { result: Some(progress_arm(outcome)) }
}

/// The answer to a request to advance.
pub fn do_progress_return(outcome: Result<Progress, Halt>) -> (r: VmDoProgressReturn)
    ensures
        r@ == progress_answer(halted_view(outcome)),
{
    VmDoProgressReturn {
        result: Some(
            match outcome {
                Ok(Progress::AnyCompleted) => DoProgressResult::AnyCompleted,
                Ok(Progress::ReadFromInput) => DoProgressResult::ReadFromInput,
                Ok(Progress::CancelSignalReceived) => DoProgressResult::CancelSignalReceived,
                Ok(Progress::WaitingPendingRun) => DoProgressResult::WaitingPendingRun,
                Ok(Progress::ExecuteRun(handle)) => DoProgressResult::ExecuteRun(handle),
                Err(Halt::Suspended) => DoProgressResult::Suspended,
                Err(Halt::Failed(f)) => DoProgressResult::Failure(f),
            },
        ),
    }
}

/// The message that a value is reported as.
pub open spec fn value_answer(v: NotificationValueModel) -> TakenValueModel {
    TakenValueModel {
        value: Some(
            match v {
                NotificationValueModel::Void => ValueKindModel::Void,
                NotificationValueModel::Success(b) => ValueKindModel::Success(b),
                NotificationValueModel::Failure(t) => ValueKindModel::Failure(
                    failure_of_terminal(t),
                ),
                NotificationValueModel::StateKeys(keys) => ValueKindModel::StateKeys(
                    StateKeysModel { keys },
                ),
                NotificationValueModel::InvocationId(id) => ValueKindModel::InvocationId(id),
            },
        ),
    }
}

/// The message that a value is reported as.
pub fn value_message(v: NotificationValue) -> (r: TakenValue)
    ensures
        r@ == value_answer(v@),
{
    TakenValue {
        value: Some(
            match v {
                NotificationValue::Void => ValueKind::Void,
                NotificationValue::Success(b) => ValueKind::Success(b),
                NotificationValue::Failure(t) => ValueKind::Failure(terminal_failure_message(t)),
                NotificationValue::StateKeys(keys) => ValueKind::StateKeys(StateKeys { keys }),
                NotificationValue::InvocationId(id) => ValueKind::InvocationId(id),
            },
        ),
    }
}

/// The outcome of asking for a notification's value, by its views.
pub open spec fn taken_view(outcome: Result<Option<NotificationValue>, Halt>) -> Result<
    Option<NotificationValueModel>,
    HaltModel,
> {
    match outcome {
        Ok(v) => Ok(option_view(v)),
        Err(h) => Err(h@),
    }
}

/// The answer to a request for the value of a notification: not ready
/// where there is none yet, the value where there is one.
pub open spec fn notification_answer(
    outcome: Result<Option<NotificationValueModel>,
    HaltModel>,
) -> VmTakeNotificationReturnModel {
    VmTakeNotificationReturnModel {
        result: Some(
            match outcome {
                Ok(None) => TakeNotificationResultModel::NotReady,
                Ok(Some(v)) => TakeNotificationResultModel::Value(value_answer(v)),
                Err(HaltModel::Suspended) => TakeNotificationResultModel::Suspended,
                Err(HaltModel::Failed(f)) => TakeNotificationResultModel::Failure(f),
            },
        ),
    }
}

/// The answer to a request for a value is a failure exactly where the
/// engine failed: not ready and suspended are arms of their own.
pub proof fn lemma_notification_failure_only_on_failure(
    outcome: Result<Option<NotificationValueModel>, HaltModel>,
)
    ensures
        notification_answer(outcome).result->Some_0 is Failure <==> (outcome is Err
            && outcome->Err_0 is Failed),
        outcome == Ok::<Option<NotificationValueModel>, HaltModel>(None) ==> notification_answer(
            outcome,
        ).result == Some(TakeNotificationResultModel::NotReady),
{
}

/// The answer to a request for the value of a notification.
pub fn take_notification_return(outcome: Result<Option<NotificationValue>, Halt>) -> (r:
    VmTakeNotificationReturn)
    ensures
        r@ == notification_answer(taken_view(outcome)),
{
    VmTakeNotificationReturn {
        result: Some(
            match outcome {
                Ok(None) => TakeNotificationResult::NotReady,
                Ok(Some(v)) => TakeNotificationResult::Value(value_message(v)),
                Err(Halt::Suspended) => TakeNotificationResult::Suspended,
                Err(Halt::Failed(f)) => TakeNotificationResult::Failure(f),
            },
        ),
    }
}

/// The outcome of asking for the input, by its views.
pub open spec fn input_view(outcome: Result<InputReturn, Failure>) -> Result<
    InputReturnModel,
    FailureModel,
> {
    match outcome {
        Ok(i) => Ok(i@),
        Err(f) => Err(f@),
    }
}

/// The answer to a request for the invocation's input.
pub open spec fn input_answer(
    outcome: Result<InputReturnModel,
    FailureModel>,
) -> VmSysInputReturnModel {
    VmSysInputReturnModel {
        result: Some(
            match outcome {
                Ok(i) => SysInputResultModel::Input(i),
                Err(f) => SysInputResultModel::Failure(f),
            },
        ),
    }
}

/// The answer to a request for the invocation's input.
pub fn sys_input_return(outcome: Result<InputReturn, Failure>) -> (r: VmSysInputReturn)
    ensures
        r@ == input_answer(input_view(outcome)),
{
    VmSysInputReturn {
        result: Some(
            match outcome {
                Ok(i) => SysInputResult::Input(i),
                Err(f) => SysInputResult::Failure(f),
            },
        ),
    }
}

/// The answer of an operation that completes later: the notification to
/// poll, or the failure.
pub open spec fn async_answer(
    outcome: Result<u32,
    FailureModel>,
) -> SimpleSysAsyncResultReturnModel {
    SimpleSysAsyncResultReturnModel {
        result: Some(
            match outcome {
                Ok(handle) => AsyncResultModel::Handle(handle),
                Err(f) => AsyncResultModel::Failure(f),
            },
        ),
    }
}

/// The answer of an operation that completes later.
pub fn simple_sys_async_result_return(outcome: Result<u32, Failure>) -> (r:
    SimpleSysAsyncResultReturn)
    ensures
        r@ == async_answer(failed_view(outcome)),
{
    SimpleSysAsyncResultReturn {
        result: Some(
            match outcome {
                Ok(handle) => AsyncResult::Handle(handle),
                Err(f) => AsyncResult::Failure(f),
            },
        ),
    }
}

/// The answer of an operation that returns nothing: done, or the failure.
pub open spec fn empty_answer(outcome: Result<(), FailureModel>) -> GenericEmptyReturnModel {
    GenericEmptyReturnModel {
        result: Some(
            match outcome {
                Ok(_) => EmptyResultModel::Done,
                Err(f) => EmptyResultModel::Failure(f),
            },
        ),
    }
}

/// The answer of an operation that returns nothing.
pub fn generic_empty_return(outcome: Result<(), Failure>) -> (r: GenericEmptyReturn)
    ensures
        r@ == empty_answer(failed_view(outcome)),
{
    GenericEmptyReturn {
        result: Some(
            match outcome {
                Ok(_) => EmptyResult::Done,
                Err(f) => EmptyResult::Failure(f),
            },
        ),
    }
}

/// The outcome of asking for an awakeable, by its views.
pub open spec fn created_view(outcome: Result<(String, u32), Failure>) -> Result<
    (Seq<char>, u32),
    FailureModel,
> {
    match outcome {
        Ok((id, handle)) => Ok((id@, handle)),
        Err(f) => Err(f@),
    }
}

/// The answer to a request for a new awakeable: its identifier and the
/// notification to poll, or the failure.
pub open spec fn awakeable_answer(
    outcome: Result<(Seq<char>, u32),
    FailureModel>,
) -> VmSysAwakeableReturnModel {
    VmSysAwakeableReturnModel {
        result: Some(
            match outcome {
                Ok((id, handle)) => AwakeableResultModel::Created(AwakeableModel { id, handle }),
                Err(f) => AwakeableResultModel::Failure(f),
            },
        ),
    }
}

/// The answer to a request for a new awakeable.
pub fn sys_awakeable_return(outcome: Result<(String, u32), Failure>) -> (r: VmSysAwakeableReturn)
    ensures
        r@ == awakeable_answer(created_view(outcome)),
{
    VmSysAwakeableReturn {
        result: Some(
            match outcome {
                Ok((id, handle)) => AwakeableResult::Created(Awakeable { id, handle }),
                Err(f) => AwakeableResult::Failure(f),
            },
        ),
    }
}

/// The answer to a call: the notification of the called invocation's
/// identifier and that of its result, or the failure.
pub open spec fn call_answer(outcome: Result<(u32, u32), FailureModel>) -> VmSysCallReturnModel {
    VmSysCallReturnModel {
        result: Some(
            match outcome {
                Ok((invocation_id_handle, result_handle)) => SysCallResultModel::Handles(
                    CallHandlesModel { invocation_id_handle, result_handle },
                ),
                Err(f) => SysCallResultModel::Failure(f),
            },
        ),
    }
}

/// The answer to a call.
pub fn sys_call_return(outcome: Result<(u32, u32), Failure>) -> (r: VmSysCallReturn)
    ensures
        r@ == call_answer(failed_view(outcome)),
{
    VmSysCallReturn {
        result: Some(
            match outcome {
                Ok((invocation_id_handle, result_handle)) => SysCallResult::Handles(
                    CallHandles { invocation_id_handle, result_handle },
                ),
                Err(f) => SysCallResult::Failure(f),
            },
        ),
    }
}

} // verus!
