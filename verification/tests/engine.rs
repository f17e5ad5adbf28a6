//! The whole path with the engine behind it: request bytes in, one call
//! into the engine, answer bytes out.
use shared_core::boundary::{call, invoke, vm_free, vm_new, Operation, Reply};
use shared_core::common::{Failure, Header};
use shared_core::engine::WasmVM;
use shared_core::fault::Fault;
use shared_core::headers::WasmHeaders;
use shared_core::message::{decode, encode, Message};
use shared_core::registry::Registry;
use shared_core::requests::{
    AwakeableCompletion, OutputResult, PromiseCompletion, RetryPolicyParameters, RunCompletion,
    VmDoProgressParameters, VmNewParameters, VmProposeRunCompletionParameters,
    VmSysAttachInvocationParameters, VmSysCallParameters, VmSysCancelInvocationParameters,
    VmSysCompleteAwakeableParameters, VmSysPromiseCompleteParameters, VmSysPromiseGetParameters,
    VmSysPromisePeekParameters, VmSysRunParameters, VmSysSendParameters, VmSysSleepParameters,
    VmSysStateClearParameters, VmSysStateGetParameters, VmSysStateSetParameters,
    VmSysWriteOutputParameters,
};
use shared_core::responses::{
    AsyncResult, AwakeableResult, DoProgressResult, EmptyResult, GenericEmptyReturn, InputReturn,
    ReadyResult, SimpleSysAsyncResultReturn, SysCallResult, SysInputResult,
    TakeNotificationResult, TakeOutputResult, TakenValue, ValueKind, VmDoProgressReturn,
    VmGetResponseHeadReturn, VmIsReadyToExecuteReturn, VmNewResult, VmNewReturn,
    VmSysAwakeableReturn, VmSysCallReturn, VmSysInputReturn, VmTakeNotificationReturn,
    VmTakeOutputReturn,
};
use shared_core::wire::{emit, RawField, RawValue};
use std::fmt::Debug;

const V5: &str = "application/vnd.restate.invocation.v5";

/// One frame of the protocol that the engine reads: the type in the high 16
/// bits of a 64-bit header, the length in the low 32, then the payload.
fn frame(ty: u16, payload: Vec<u8>) -> Vec<u8> {
    let header: u64 = ((ty as u64) << 48) | payload.len() as u64;
    let mut out = header.to_be_bytes().to_vec();
    out.extend(payload);
    out
}

fn text(number: u32, value: &str) -> RawField {
    RawField { number, value: RawValue::Bytes(value.as_bytes().to_vec()) }
}

fn number(number: u32, value: u64) -> RawField {
    RawField { number, value: RawValue::Varint(value) }
}

fn start_frame(known_entries: u64, retry_count: u64) -> Vec<u8> {
    let mut fields = vec![
        RawField { number: 1, value: RawValue::Bytes(vec![1, 2, 3]) },
        text(2, "inv_1"),
        number(3, known_entries),
        text(6, "my-key"),
    ];
    if retry_count != 0 {
        fields.push(number(7, retry_count));
        fields.push(number(8, 10));
    }
    frame(0x0000, emit(&fields))
}

fn input_frame(content: &[u8]) -> Vec<u8> {
    let value = emit(&vec![RawField { number: 1, value: RawValue::Bytes(content.to_vec()) }]);
    frame(0x0400, emit(&vec![RawField { number: 14, value: RawValue::Bytes(value) }]))
}

fn run_command_frame(completion_id: u64, name: &str) -> Vec<u8> {
    frame(0x0411, emit(&vec![number(11, completion_id), text(12, name)]))
}

fn run_completion_frame(completion_id: u64, content: &[u8]) -> Vec<u8> {
    let value = emit(&vec![RawField { number: 1, value: RawValue::Bytes(content.to_vec()) }]);
    frame(
        0x8011,
        emit(
            &vec![number(1, completion_id), RawField { number: 5, value: RawValue::Bytes(value) }],
        ),
    )
}

fn content_type(value: &str) -> Vec<Header> {
    vec![Header { key: "content-type".to_string(), value: value.to_string() }]
}

fn new_vm(registry: &mut Registry<WasmVM>, headers: Vec<Header>) -> VmNewReturn {
    let answer = vm_new(registry, &encode(&VmNewParameters { headers })).unwrap();
    decode::<VmNewReturn>(&answer).unwrap()
}

fn new_handle(registry: &mut Registry<WasmVM>) -> u32 {
    match new_vm(registry, content_type(V5)).result {
        Some(VmNewResult::Pointer(handle)) => handle,
        other => panic!("expected a handle, got {other:?}"),
    }
}

/// Performs an operation and reads the buffer that it answers with.
fn ask<M: Message + Debug>(
    registry: &mut Registry<WasmVM>,
    handle: u32,
    op: Operation,
    input: Vec<u8>,
) -> M {
    match call(registry, handle, op, input) {
        Ok(Reply::Buffer(bytes)) => decode::<M>(&bytes).unwrap(),
        other => panic!("expected a buffer, got {other:?}"),
    }
}

fn ready(registry: &mut Registry<WasmVM>, handle: u32) -> Option<ReadyResult> {
    ask::<VmIsReadyToExecuteReturn>(registry, handle, Operation::IsReadyToExecute, vec![]).result
}

fn progress(registry: &mut Registry<WasmVM>, handle: u32, handles: Vec<u32>) -> DoProgressResult {
    let request = encode(&VmDoProgressParameters { handles });
    ask::<VmDoProgressReturn>(registry, handle, Operation::DoProgress, request).result.unwrap()
}

fn take(registry: &mut Registry<WasmVM>, handle: u32, notification: u32) -> TakeNotificationResult {
    ask::<VmTakeNotificationReturn>(
        registry,
        handle,
        Operation::TakeNotification(notification),
        vec![],
    )
        .result
        .unwrap()
}

fn output(registry: &mut Registry<WasmVM>, handle: u32) -> TakeOutputResult {
    ask::<VmTakeOutputReturn>(registry, handle, Operation::TakeOutput, vec![]).result.unwrap()
}

fn later(registry: &mut Registry<WasmVM>, handle: u32, op: Operation, input: Vec<u8>) -> u32 {
    match ask::<SimpleSysAsyncResultReturn>(registry, handle, op, input).result {
        Some(AsyncResult::Handle(h)) => h,
        other => panic!("expected a handle, got {other:?}"),
    }
}

fn done(registry: &mut Registry<WasmVM>, handle: u32, op: Operation, input: Vec<u8>) {
    let answer = ask::<GenericEmptyReturn>(registry, handle, op, input);
    assert_eq!(answer.result, Some(EmptyResult::Done));
}

/// An instance that has read its start message and its input, and whose
/// handler code has asked for the input.
fn started(registry: &mut Registry<WasmVM>, close: bool) -> u32 {
    let handle = new_handle(registry);
    let mut bytes = start_frame(1, 0);
    bytes.extend(input_frame(b"hello"));
    assert_eq!(call(registry, handle, Operation::NotifyInput, bytes), Ok(Reply::Nothing));
    if close {
        assert_eq!(
            call(registry, handle, Operation::NotifyInputClosed, vec![]),
            Ok(Reply::Nothing),
        );
    }
    ask::<VmSysInputReturn>(registry, handle, Operation::SysInput, vec![]);
    handle
}

fn run_parameters(name: &str) -> Vec<u8> {
    encode(&VmSysRunParameters { name: name.to_string() })
}

#[test]
fn vm_new_gives_a_handle_held_once() {
    let mut registry: Registry<WasmVM> = Registry::new();
    let handle = new_handle(&mut registry);
    assert_ne!(handle, 0);
    assert_eq!(registry.strong_count(handle), Some(1));
    let other = new_handle(&mut registry);
    assert_ne!(other, handle);
}

#[test]
fn vm_new_reports_what_the_engine_refuses() {
    let mut registry: Registry<WasmVM> = Registry::new();
    let refused = [
        content_type("application/json"),
        vec![],
        content_type("application/vnd.restate.invocation.v1"),
        content_type("application/vnd.restate.invocation.v5 "),
        content_type("Application/vnd.restate.invocation.v5"),
    ];
    for headers in refused {
        match new_vm(&mut registry, headers).result {
            Some(VmNewResult::Failure(f)) => {
                assert_eq!(f.code, 415);
                assert!(!f.message.is_empty());
            },
            other => panic!("expected a failure, got {other:?}"),
        }
    }
    assert_eq!(registry.strong_count(1), None);
}

#[test]
fn vm_new_finds_the_content_type_whatever_its_case_and_takes_the_first() {
    let mut registry: Registry<WasmVM> = Registry::new();
    let headers = vec![
        Header { key: "accept".to_string(), value: "*/*".to_string() },
        Header { key: "Content-Type".to_string(), value: V5.to_string() },
        Header { key: "content-type".to_string(), value: "application/json".to_string() },
    ];
    assert!(matches!(new_vm(&mut registry, headers).result, Some(VmNewResult::Pointer(_))));
}

#[test]
fn vm_new_goes_by_the_first_content_type_alone() {
    let mut registry: Registry<WasmVM> = Registry::new();
    let headers = vec![
        Header { key: "CONTENT-TYPE".to_string(), value: "application/json".to_string() },
        Header { key: "content-type".to_string(), value: V5.to_string() },
    ];
    assert!(matches!(new_vm(&mut registry, headers).result, Some(VmNewResult::Failure(_))));
    let headers = vec![
        Header { key: "content-type ".to_string(), value: V5.to_string() },
        Header { key: "content_type".to_string(), value: V5.to_string() },
    ];
    assert!(matches!(new_vm(&mut registry, headers).result, Some(VmNewResult::Failure(_))));
}

#[test]
fn vm_new_refuses_bytes_that_are_no_request() {
    let mut registry: Registry<WasmVM> = Registry::new();
    assert_eq!(vm_new(&mut registry, &[0xFF]), Err(Fault::MalformedInput));
    assert_eq!(vm_new(&mut registry, &[0x0A, 0x01, 0xFF]), Err(Fault::MalformedInput));
    assert_eq!(registry.strong_count(1), None);
}

#[test]
fn the_engine_is_ready_once_it_has_its_input() {
    let mut registry: Registry<WasmVM> = Registry::new();
    let handle = new_handle(&mut registry);
    assert_eq!(ready(&mut registry, handle), Some(ReadyResult::Ready(false)));
    let mut bytes = start_frame(1, 0);
    bytes.extend(input_frame(b"hello"));
    assert_eq!(call(&mut registry, handle, Operation::NotifyInput, bytes), Ok(Reply::Nothing));
    assert_eq!(
        call(&mut registry, handle, Operation::NotifyInputClosed, vec![]),
        Ok(Reply::Nothing),
    );
    assert_eq!(ready(&mut registry, handle), Some(ReadyResult::Ready(true)));
}

#[test]
fn the_engine_is_not_ready_on_half_a_frame() {
    let mut registry: Registry<WasmVM> = Registry::new();
    let handle = new_handle(&mut registry);
    let mut bytes = start_frame(1, 0);
    bytes.extend(input_frame(b"hello"));
    let rest = bytes.split_off(bytes.len() - 3);
    call(&mut registry, handle, Operation::NotifyInput, bytes).unwrap();
    assert_eq!(ready(&mut registry, handle), Some(ReadyResult::Ready(false)));
    call(&mut registry, handle, Operation::NotifyInput, rest).unwrap();
    assert_eq!(ready(&mut registry, handle), Some(ReadyResult::Ready(true)));
}

#[test]
fn do_progress_on_an_input_closed_vm_with_nothing_pending() {
    let mut registry: Registry<WasmVM> = Registry::new();
    // with its input read and closed, nothing can come any more: suspended
    let handle = started(&mut registry, true);
    assert_eq!(progress(&mut registry, handle, vec![]), DoProgressResult::Suspended);
    // with the input still open, the engine asks for more of it
    let open = started(&mut registry, false);
    assert_eq!(progress(&mut registry, open, vec![]), DoProgressResult::ReadFromInput);
}

#[test]
fn do_progress_before_any_input_is_a_failure_of_the_engine() {
    let mut registry: Registry<WasmVM> = Registry::new();
    let handle = new_handle(&mut registry);
    match progress(&mut registry, handle, vec![]) {
        DoProgressResult::Failure(f) => assert_eq!(f.code, 571),
        other => panic!("expected a failure, got {other:?}"),
    }
    let closed = new_handle(&mut registry);
    call(&mut registry, closed, Operation::NotifyInputClosed, vec![]).unwrap();
    match progress(&mut registry, closed, vec![]) {
        DoProgressResult::Failure(f) => assert_eq!(f.code, 571),
        other => panic!("expected a failure, got {other:?}"),
    }
}

#[test]
fn do_progress_hands_out_a_run_and_then_waits_for_it() {
    let mut registry: Registry<WasmVM> = Registry::new();
    let handle = started(&mut registry, true);
    let run = later(&mut registry, handle, Operation::SysRun, run_parameters("r"));
    assert_eq!(progress(&mut registry, handle, vec![run]), DoProgressResult::ExecuteRun(run));
    assert_eq!(progress(&mut registry, handle, vec![run]), DoProgressResult::WaitingPendingRun);
}

/// Reports a failure that may be tried again, on the attempt after
/// `retry_count` others, under the given policy.
fn propose_under(
    retry_count: u64,
    policy: RetryPolicyParameters,
) -> (Option<EmptyResult>, TakeOutputResult) {
    let mut registry: Registry<WasmVM> = Registry::new();
    let handle = new_handle(&mut registry);
    let mut bytes = start_frame(2, retry_count);
    bytes.extend(input_frame(b"hello"));
    bytes.extend(run_command_frame(1, "r"));
    call(&mut registry, handle, Operation::NotifyInput, bytes).unwrap();
    ask::<VmSysInputReturn>(&mut registry, handle, Operation::SysInput, vec![]);
    let run = later(&mut registry, handle, Operation::SysRun, run_parameters("r"));
    assert_eq!(progress(&mut registry, handle, vec![run]), DoProgressResult::ExecuteRun(run));
    let report = encode(&VmProposeRunCompletionParameters {
        handle: run,
        result: Some(RunCompletion::RetryableFailure(Failure {
            code: 503,
            message: "later".to_string(),
        })),
        attempt_duration_millis: 5,
        retry_policy: Some(policy),
    });
    let answer =
        ask::<GenericEmptyReturn>(&mut registry, handle, Operation::ProposeRunCompletion, report);
    (answer.result, output(&mut registry, handle))
}

fn propose_on_attempt(retry_count: u64) -> (Option<EmptyResult>, TakeOutputResult) {
    propose_under(
        retry_count,
        RetryPolicyParameters {
            initial_interval_millis: 10,
            factor: 2.0f32.to_bits(),
            max_interval_millis: None,
            max_attempts: Some(3),
            max_duration_millis: None,
        },
    )
}

fn growing(initial_interval_millis: u64, factor: f32) -> RetryPolicyParameters {
    RetryPolicyParameters {
        initial_interval_millis,
        factor: factor.to_bits(),
        max_interval_millis: None,
        max_attempts: None,
        max_duration_millis: None,
    }
}

#[test]
fn a_policy_without_a_limit_retries_up_to_the_cap_and_ends_there() {
    // factor two, a tenth of a second: the cap is 65 attempts
    for retry_count in [0u64, 10, 40, 63] {
        let (answer, _) = propose_under(retry_count, growing(100, 2.0));
        assert!(matches!(answer, Some(EmptyResult::Failure(_))), "after {retry_count}");
    }
    // the interval of the 69th attempt would be more than a duration holds
    for retry_count in [64u64, 68, 70, 1000, u32::MAX as u64 - 1] {
        let (answer, out) = propose_under(retry_count, growing(100, 2.0));
        assert_eq!(answer, Some(EmptyResult::Done), "after {retry_count}");
        assert!(matches!(out, TakeOutputResult::Bytes(b) if b[..2] == [0x00, 0x05]));
    }
}

#[test]
fn the_largest_factor_is_tried_once_more_and_no_further() {
    // the first attempt: the interval is the initial one, whatever the factor
    let (answer, out) = propose_under(0, growing(1, f32::MAX));
    assert!(matches!(answer, Some(EmptyResult::Failure(_))));
    assert!(matches!(out, TakeOutputResult::Bytes(b) if b[b.len() - 2..] == [0x40, 0x01]));
    // the second would multiply by the factor
    let (answer, _) = propose_under(1, growing(1, f32::MAX));
    assert_eq!(answer, Some(EmptyResult::Done));
    let (answer, _) = propose_under(1, growing(u64::MAX, f32::MAX));
    assert_eq!(answer, Some(EmptyResult::Done));
}

#[test]
fn a_factor_of_one_or_less_is_never_capped_in_practice() {
    for factor in [1.0f32, 0.5, 0.0, f32::MIN_POSITIVE] {
        for retry_count in [0u64, 1, 100, 100_000] {
            let (answer, _) = propose_under(retry_count, growing(u64::MAX, factor));
            assert!(
                matches!(answer, Some(EmptyResult::Failure(_))),
                "{factor} after {retry_count}",
            );
        }
    }
}

#[test]
fn a_limit_below_the_cap_stays_as_it_is() {
    let policy = RetryPolicyParameters { max_attempts: Some(12), ..growing(100, 2.0) };
    let (answer, out) = propose_under(10, policy.clone());
    assert!(matches!(answer, Some(EmptyResult::Failure(_))));
    // the eleventh attempt waits a tenth of a second, ten times doubled
    match out {
        TakeOutputResult::Bytes(bytes) => {
            assert_eq!(&bytes[bytes.len() - 4..], &[0x40, 0x80, 0xA0, 0x06]);
        },
        other => panic!("expected bytes, got {other:?}"),
    }
    let (answer, _) = propose_under(11, policy);
    assert_eq!(answer, Some(EmptyResult::Done));
}

#[test]
fn propose_run_completion_on_the_third_attempt_ends_the_retries() {
    // two attempts went before: this is the third, and three is the most
    let (answer, out) = propose_on_attempt(2);
    assert_eq!(answer, Some(EmptyResult::Done));
    // what leaves is the completion of the run with the failure for good:
    // its completion id, and in field 15 code 503 and the message
    let mut payload = vec![0x08, 0x01, 0x7A, 0x0A];
    payload.extend(encode(&Failure { code: 503, message: "later".to_string() }));
    assert_eq!(out, TakeOutputResult::Bytes(frame(0x0005, payload)));
}

#[test]
fn propose_run_completion_before_the_last_attempt_asks_for_another() {
    for (retry_count, delay) in [(0u64, 10u8), (1, 20)] {
        let (answer, out) = propose_on_attempt(retry_count);
        match answer {
            Some(EmptyResult::Failure(f)) => assert_eq!(f.code, 503),
            other => panic!("expected the failure to come back, got {other:?}"),
        }
        // what leaves is an error frame; its last field is the delay before
        // the next attempt: the initial interval, then twice that
        match out {
            TakeOutputResult::Bytes(bytes) => {
                assert_eq!(&bytes[..2], &[0x00, 0x02]);
                assert_eq!(&bytes[bytes.len() - 2..], &[0x40, delay]);
            },
            other => panic!("expected bytes, got {other:?}"),
        }
    }
}

#[test]
fn a_notification_is_not_completed_until_its_value_came_and_then_it_is() {
    let mut registry: Registry<WasmVM> = Registry::new();
    let handle = started(&mut registry, false);
    let run = later(&mut registry, handle, Operation::SysRun, run_parameters("r"));
    for _ in 0..3 {
        assert_eq!(
            call(&mut registry, handle, Operation::IsCompleted(run), vec![]),
            Ok(Reply::Scalar(0)),
        );
    }
    assert_eq!(take(&mut registry, handle, run), TakeNotificationResult::NotReady);

    call(&mut registry, handle, Operation::NotifyInput, run_completion_frame(1, b"done")).unwrap();
    assert_eq!(progress(&mut registry, handle, vec![run]), DoProgressResult::AnyCompleted);
    for _ in 0..3 {
        assert_eq!(
            call(&mut registry, handle, Operation::IsCompleted(run), vec![]),
            Ok(Reply::Scalar(1)),
        );
    }
    // the value is handed out once
    assert_eq!(
        take(&mut registry, handle, run),
        TakeNotificationResult::Value(
            TakenValue { value: Some(ValueKind::Success(b"done".to_vec())) },
        )
    );
    assert_eq!(take(&mut registry, handle, run), TakeNotificationResult::NotReady);
}

#[test]
fn a_call_leaves_the_counts_as_they_were() {
    let mut registry: Registry<WasmVM> = Registry::new();
    let handle = started(&mut registry, false);
    for _ in 0..5 {
        later(&mut registry, handle, Operation::SysStateGetKeys, vec![]);
        assert_eq!(registry.strong_count(handle), Some(1));
    }
    // also where the request is refused
    assert_eq!(
        call(&mut registry, handle, Operation::SysStateGet, vec![0xFF]),
        Err(Fault::MalformedInput),
    );
    assert_eq!(registry.strong_count(handle), Some(1));
}

#[test]
fn a_call_on_a_handle_that_is_not_live_is_refused() {
    let mut registry: Registry<WasmVM> = Registry::new();
    assert_eq!(call(&mut registry, 0, Operation::SysEnd, vec![]), Err(Fault::NullPointer));
    assert_eq!(call(&mut registry, 1, Operation::SysEnd, vec![]), Err(Fault::UnknownHandle));
    let handle = new_handle(&mut registry);
    assert_eq!(vm_free(&mut registry, handle), Ok(()));
    assert_eq!(call(&mut registry, handle, Operation::SysEnd, vec![]), Err(Fault::UnknownHandle));
}

#[test]
fn vm_free_succeeds_once() {
    let mut registry: Registry<WasmVM> = Registry::new();
    let handle = new_handle(&mut registry);
    assert_eq!(vm_free(&mut registry, 0), Err(Fault::NullPointer));
    assert_eq!(vm_free(&mut registry, handle + 1), Err(Fault::UnknownHandle));
    assert_eq!(vm_free(&mut registry, handle), Ok(()));
    assert_eq!(vm_free(&mut registry, handle), Err(Fault::UnknownHandle));
}

#[test]
fn vm_free_while_a_call_holds_the_instance_is_refused() {
    let mut registry: Registry<WasmVM> = Registry::new();
    let handle = new_handle(&mut registry);
    registry.resolve(handle).unwrap();
    assert_eq!(vm_free(&mut registry, handle), Err(Fault::StillBorrowed));
    registry.release(handle).unwrap();
    assert_eq!(vm_free(&mut registry, handle), Ok(()));
}

#[test]
fn every_request_that_cannot_be_read_is_refused() {
    let mut registry: Registry<WasmVM> = Registry::new();
    let handle = started(&mut registry, false);
    let ops = [
        Operation::DoProgress,
        Operation::SysStateGet,
        Operation::SysStateSet,
        Operation::SysStateClear,
        Operation::SysSleep,
        Operation::SysCompleteAwakeable,
        Operation::SysCall,
        Operation::SysSend,
        Operation::SysCancelInvocation,
        Operation::SysAttachInvocation,
        Operation::SysPromiseGet,
        Operation::SysPromisePeek,
        Operation::SysPromiseComplete,
        Operation::SysRun,
        Operation::ProposeRunCompletion,
        Operation::SysWriteOutput,
    ];
    for op in ops {
        assert_eq!(
            call(&mut registry, handle, op, vec![0x0F, 0x00]),
            Err(Fault::MalformedInput),
            "{op:?}",
        );
    }
}

#[test]
fn a_request_without_its_outcome_is_refused() {
    let mut registry: Registry<WasmVM> = Registry::new();
    let handle = started(&mut registry, false);
    let awakeable = encode(&VmSysCompleteAwakeableParameters { id: "a".to_string(), result: None });
    assert_eq!(
        call(&mut registry, handle, Operation::SysCompleteAwakeable, awakeable),
        Err(Fault::MissingResult),
    );
    let promise = encode(&VmSysPromiseCompleteParameters { id: "p".to_string(), result: None });
    assert_eq!(
        call(&mut registry, handle, Operation::SysPromiseComplete, promise),
        Err(Fault::MissingResult),
    );
    assert_eq!(
        call(&mut registry, handle, Operation::SysWriteOutput, vec![]),
        Err(Fault::MissingResult),
    );
    let run = later(&mut registry, handle, Operation::SysRun, run_parameters("r"));
    let report = encode(&VmProposeRunCompletionParameters {
        handle: run,
        ..VmProposeRunCompletionParameters::fresh()
    });
    assert_eq!(
        call(&mut registry, handle, Operation::ProposeRunCompletion, report),
        Err(Fault::MissingResult),
    );
}

#[test]
fn a_failure_for_good_needs_a_code_of_16_bits() {
    let mut registry: Registry<WasmVM> = Registry::new();
    let handle = started(&mut registry, false);
    let big = || Failure { code: 65_536, message: "big".to_string() };
    let awakeable = encode(&VmSysCompleteAwakeableParameters {
        id: "a".to_string(),
        result: Some(AwakeableCompletion::Failure(big())),
    });
    assert_eq!(
        call(&mut registry, handle, Operation::SysCompleteAwakeable, awakeable),
        Err(Fault::CodeOutOfRange),
    );
    let promise = encode(&VmSysPromiseCompleteParameters {
        id: "p".to_string(),
        result: Some(PromiseCompletion::Failure(big())),
    });
    assert_eq!(
        call(&mut registry, handle, Operation::SysPromiseComplete, promise),
        Err(Fault::CodeOutOfRange),
    );
    let out = encode(&VmSysWriteOutputParameters { result: Some(OutputResult::Failure(big())) });
    assert_eq!(
        call(&mut registry, handle, Operation::SysWriteOutput, out),
        Err(Fault::CodeOutOfRange),
    );
    let run = later(&mut registry, handle, Operation::SysRun, run_parameters("r"));
    let report = encode(&VmProposeRunCompletionParameters {
        handle: run,
        result: Some(RunCompletion::TerminalFailure(big())),
        ..VmProposeRunCompletionParameters::fresh()
    });
    assert_eq!(
        call(&mut registry, handle, Operation::ProposeRunCompletion, report),
        Err(Fault::CodeOutOfRange),
    );
}

fn report(run: u32, factor: u32) -> Vec<u8> {
    encode(&VmProposeRunCompletionParameters {
        handle: run,
        result: Some(RunCompletion::Success(vec![1])),
        attempt_duration_millis: 0,
        retry_policy: Some(RetryPolicyParameters { factor, ..RetryPolicyParameters::fresh() }),
    })
}

#[test]
fn a_report_on_a_run_that_is_not_open_is_refused() {
    let mut registry: Registry<WasmVM> = Registry::new();
    let handle = started(&mut registry, false);
    assert_eq!(
        call(&mut registry, handle, Operation::ProposeRunCompletion, report(17, 0)),
        Err(Fault::UnknownRun)
    );
    // a handle of something else than a run is no better
    let sleep = later(&mut registry, handle, Operation::SysStateGetKeys, vec![]);
    assert_eq!(
        call(&mut registry, handle, Operation::ProposeRunCompletion, report(sleep, 0)),
        Err(Fault::UnknownRun)
    );
    let run = later(&mut registry, handle, Operation::SysRun, run_parameters("r"));
    done(&mut registry, handle, Operation::ProposeRunCompletion, report(run, 0));
}

#[test]
fn a_report_leaves_the_run_open() {
    let mut registry: Registry<WasmVM> = Registry::new();
    let handle = started(&mut registry, false);
    let first = later(&mut registry, handle, Operation::SysRun, run_parameters("a"));
    let second = later(&mut registry, handle, Operation::SysRun, run_parameters("b"));
    assert_ne!(first, second);
    done(&mut registry, handle, Operation::ProposeRunCompletion, report(first, 0));
    // the engine takes a second report on the same run, and one on the other
    done(&mut registry, handle, Operation::ProposeRunCompletion, report(first, 0));
    done(&mut registry, handle, Operation::ProposeRunCompletion, report(second, 0));
}

#[test]
fn a_run_whose_value_was_taken_is_open_no_more() {
    let mut registry: Registry<WasmVM> = Registry::new();
    let handle = started(&mut registry, false);
    let run = later(&mut registry, handle, Operation::SysRun, run_parameters("r"));
    call(&mut registry, handle, Operation::NotifyInput, run_completion_frame(1, b"v")).unwrap();
    assert_eq!(progress(&mut registry, handle, vec![run]), DoProgressResult::AnyCompleted);
    assert!(matches!(take(&mut registry, handle, run), TakeNotificationResult::Value(_)));
    assert_eq!(
        call(&mut registry, handle, Operation::ProposeRunCompletion, report(run, 0)),
        Err(Fault::UnknownRun)
    );
}

fn failing_report(run: u32, factor: u32) -> Vec<u8> {
    encode(&VmProposeRunCompletionParameters {
        handle: run,
        result: Some(RunCompletion::RetryableFailure(Failure {
            code: 503,
            message: "later".to_string(),
        })),
        attempt_duration_millis: 0,
        retry_policy: Some(RetryPolicyParameters { factor, ..RetryPolicyParameters::fresh() }),
    })
}

#[test]
fn a_retry_factor_must_be_finite_and_not_negative() {
    let mut registry: Registry<WasmVM> = Registry::new();
    let handle = started(&mut registry, false);
    let run = later(&mut registry, handle, Operation::SysRun, run_parameters("r"));
    for bad in [f32::INFINITY, f32::NEG_INFINITY, f32::NAN, -1.0f32, -0.0f32] {
        assert_eq!(
            call(
                &mut registry,
                handle,
                Operation::ProposeRunCompletion,
                failing_report(run, bad.to_bits()),
            ),
            Err(Fault::UnsoundPolicy),
            "{bad}"
        );
    }
    done(&mut registry, handle, Operation::ProposeRunCompletion, report(run, f32::MAX.to_bits()));
}

#[test]
fn the_retry_factor_is_not_looked_at_where_nothing_is_tried_again() {
    let mut registry: Registry<WasmVM> = Registry::new();
    let handle = started(&mut registry, false);
    let run = later(&mut registry, handle, Operation::SysRun, run_parameters("r"));
    for odd in [f32::INFINITY, f32::NEG_INFINITY, f32::NAN, -1.0f32, -0.0f32] {
        done(&mut registry, handle, Operation::ProposeRunCompletion, report(run, odd.to_bits()));
        let for_good = encode(&VmProposeRunCompletionParameters {
            handle: run,
            result: Some(RunCompletion::TerminalFailure(Failure {
                code: 409,
                message: "no".to_string(),
            })),
            attempt_duration_millis: 0,
            retry_policy: Some(RetryPolicyParameters {
                factor: odd.to_bits(),
                ..RetryPolicyParameters::fresh()
            }),
        });
        done(&mut registry, handle, Operation::ProposeRunCompletion, for_good);
    }
}

fn engine_text(code: u16, message: &str) -> String {
    format!("State machine error [{code}]: {message}. Stacktrace: ")
}

fn input_failure(registry: &mut Registry<WasmVM>, handle: u32) -> Failure {
    match ask::<VmSysInputReturn>(registry, handle, Operation::SysInput, vec![]).result {
        Some(SysInputResult::Failure(f)) => f,
        other => panic!("expected a failure, got {other:?}"),
    }
}

#[test]
fn a_second_start_frame_ends_the_stream_and_the_run_stays_known() {
    let mut registry: Registry<WasmVM> = Registry::new();
    let handle = started(&mut registry, false);
    let run = later(&mut registry, handle, Operation::SysRun, run_parameters("r"));
    let mut more = start_frame(1, 0);
    more.extend(input_frame(b"again"));
    assert_eq!(call(&mut registry, handle, Operation::NotifyInput, more), Ok(Reply::Nothing));
    // the engine never saw the frame: it was told of an error in its place
    let answer = ask::<GenericEmptyReturn>(
        &mut registry,
        handle,
        Operation::ProposeRunCompletion,
        report(run, 0),
    );
    assert_eq!(
        answer.result,
        Some(EmptyResult::Failure(Failure {
            code: 571,
            message: engine_text(571, "a second start frame"),
        }))
    );
    // and nothing that comes after reaches it
    call(&mut registry, handle, Operation::NotifyInput, input_frame(b"more")).unwrap();
    assert_eq!(input_failure(&mut registry, handle).code, 571);
}

#[test]
fn a_second_start_frame_is_found_in_whatever_pieces_it_comes() {
    let mut registry: Registry<WasmVM> = Registry::new();
    let handle = started(&mut registry, false);
    let run = later(&mut registry, handle, Operation::SysRun, run_parameters("r"));
    let second = start_frame(1, 0);
    for piece in second.chunks(3) {
        call(&mut registry, handle, Operation::NotifyInput, piece.to_vec()).unwrap();
    }
    let answer = ask::<GenericEmptyReturn>(
        &mut registry,
        handle,
        Operation::ProposeRunCompletion,
        failing_report(run, 2.0f32.to_bits()),
    );
    assert!(matches!(answer.result, Some(EmptyResult::Failure(f)) if f.code == 571));
}

#[test]
fn a_start_frame_with_the_largest_count_of_attempts_is_refused() {
    for count in [u32::MAX as u64, u32::MAX as u64 + (1 << 32)] {
        let mut registry: Registry<WasmVM> = Registry::new();
        let handle = new_handle(&mut registry);
        let mut bytes = start_frame(1, count);
        bytes.extend(input_frame(b"hello"));
        call(&mut registry, handle, Operation::NotifyInput, bytes).unwrap();
        assert_eq!(
            input_failure(&mut registry, handle),
            Failure {
                code: 571,
                message: engine_text(571, "a start frame with a count of attempts out of range"),
            }
        );
    }
}

#[test]
fn a_start_frame_that_cannot_be_read_is_refused() {
    let mut registry: Registry<WasmVM> = Registry::new();
    let handle = new_handle(&mut registry);
    call(&mut registry, handle, Operation::NotifyInput, frame(0x0000, vec![0xFF])).unwrap();
    assert_eq!(
        input_failure(&mut registry, handle),
        Failure { code: 571, message: engine_text(571, "a start frame that cannot be read") }
    );
}

#[test]
fn a_frame_of_an_unknown_kind_ends_the_stream_before_the_engine_reads_into_it() {
    let mut registry: Registry<WasmVM> = Registry::new();
    let handle = started(&mut registry, false);
    let run = later(&mut registry, handle, Operation::SysRun, run_parameters("r"));
    // a start frame, wrapped as the payload of a frame of no known kind
    let odd = frame(0x0004, start_frame(1, 0));
    call(&mut registry, handle, Operation::NotifyInput, odd).unwrap();
    call(&mut registry, handle, Operation::NotifyInput, input_frame(b"x")).unwrap();
    let answer = ask::<GenericEmptyReturn>(
        &mut registry,
        handle,
        Operation::ProposeRunCompletion,
        report(run, 0),
    );
    assert_eq!(
        answer.result,
        Some(EmptyResult::Failure(Failure {
            code: 571,
            message: engine_text(571, "a frame of a kind that is not known"),
        }))
    );
}

#[test]
fn the_count_below_the_largest_passes_and_the_engine_counts_on_from_it() {
    let (answer, _) = propose_under(
        u32::MAX as u64 - 1,
        RetryPolicyParameters {
            initial_interval_millis: 10,
            factor: 1.0f32.to_bits(),
            max_interval_millis: None,
            max_attempts: None,
            max_duration_millis: None,
        },
    );
    // the engine asks for another attempt: it answers with the failure as it was reported
    assert_eq!(
        answer,
        Some(EmptyResult::Failure(Failure { code: 503, message: engine_text(503, "later") }))
    );
}

#[test]
fn what_the_engine_refuses_comes_back_with_its_code_and_its_text() {
    let mut registry: Registry<WasmVM> = Registry::new();
    match new_vm(&mut registry, vec![]).result {
        Some(VmNewResult::Failure(f)) => {
            assert_eq!(f.code, 415);
            assert!(f.message.starts_with("State machine error [415]: "), "{}", f.message);
        },
        other => panic!("expected a failure, got {other:?}"),
    }
    let handle = new_handle(&mut registry);
    let told = b"it broke".to_vec();
    call(&mut registry, handle, Operation::NotifyError, told).unwrap();
    let failure = input_failure(&mut registry, handle);
    assert_eq!(failure.message, engine_text(failure.code as u16, "it broke"));
    match progress(&mut registry, handle, vec![]) {
        DoProgressResult::Failure(f) => assert_eq!(f, failure),
        other => panic!("expected a failure, got {other:?}"),
    }
    match take(&mut registry, handle, 17) {
        TakeNotificationResult::Failure(f) => assert_eq!(f, failure),
        other => panic!("expected a failure, got {other:?}"),
    }
}

fn call_handles(registry: &mut Registry<WasmVM>, handle: u32) -> (u32, u32) {
    let request = encode(&VmSysCallParameters {
        service: "Greeter".to_string(),
        handler: "greet".to_string(),
        key: None,
        idempotency_key: None,
        headers: vec![],
        input: b"{}".to_vec(),
    });
    match ask::<VmSysCallReturn>(registry, handle, Operation::SysCall, request).result {
        Some(SysCallResult::Handles(h)) => (h.invocation_id_handle, h.result_handle),
        other => panic!("expected handles, got {other:?}"),
    }
}

fn void() -> RawField {
    RawField { number: 4, value: RawValue::Bytes(vec![]) }
}

#[test]
fn the_identifier_of_a_call_may_complete_with_anything() {
    let mut registry: Registry<WasmVM> = Registry::new();
    let handle = started(&mut registry, false);
    let (id, _) = call_handles(&mut registry, handle);
    // the notification of the identifier, completed without an identifier
    let odd = frame(0x800E, emit(&vec![number(1, 1), void()]));
    call(&mut registry, handle, Operation::NotifyInput, odd).unwrap();
    assert_eq!(progress(&mut registry, handle, vec![id]), DoProgressResult::AnyCompleted);
    match take(&mut registry, handle, id) {
        TakeNotificationResult::Value(v) => assert_eq!(v.value, Some(ValueKind::Void)),
        other => panic!("expected a value, got {other:?}"),
    }
}

#[test]
fn a_cancel_signal_is_noticed_and_nothing_is_cancelled_for_the_caller() {
    let mut registry: Registry<WasmVM> = Registry::new();
    let handle = started(&mut registry, false);
    let (_, result) = call_handles(&mut registry, handle);
    while output(&mut registry, handle) != TakeOutputResult::Bytes(vec![]) {}
    let signal = frame(0xFBFF, emit(&vec![number(2, 1), void()]));
    call(&mut registry, handle, Operation::NotifyInput, signal).unwrap();
    assert_eq!(
        progress(&mut registry, handle, vec![result]),
        DoProgressResult::CancelSignalReceived
    );
    // the engine wrote no command of its own to cancel the call
    assert_eq!(output(&mut registry, handle), TakeOutputResult::Bytes(vec![]));
}

#[test]
fn notify_error_needs_valid_text() {
    let mut registry: Registry<WasmVM> = Registry::new();
    let handle = started(&mut registry, false);
    assert_eq!(
        call(&mut registry, handle, Operation::NotifyError, vec![0xC3, 0x28]),
        Err(Fault::InvalidText),
    );
    // the engine was not told: it still works
    later(&mut registry, handle, Operation::SysStateGetKeys, vec![]);
    assert_eq!(
        call(&mut registry, handle, Operation::NotifyError, b"broken".to_vec()),
        Ok(Reply::Nothing),
    );
    // from now on the engine reports the error, with the code it was given
    match ask::<SimpleSysAsyncResultReturn>(
        &mut registry,
        handle,
        Operation::SysStateGetKeys,
        vec![],
    ).result {
        Some(AsyncResult::Failure(f)) => {
            assert_eq!(f.code, 500);
            assert!(f.message.contains("broken"));
        },
        other => panic!("expected a failure, got {other:?}"),
    }
}

#[test]
fn get_response_head_is_always_the_same_bytes() {
    let mut registry: Registry<WasmVM> = Registry::new();
    let handle = started(&mut registry, true);
    let expected = encode(&VmGetResponseHeadReturn { status_code: 200, headers: content_type(V5) });
    for _ in 0..2 {
        assert_eq!(
            call(&mut registry, handle, Operation::GetResponseHead, vec![]),
            Ok(Reply::Buffer(expected.clone())),
        );
    }
}

#[test]
fn get_response_head_gives_status_and_content_type() {
    let mut registry: Registry<WasmVM> = Registry::new();
    let handle = new_handle(&mut registry);
    let head = ask::<VmGetResponseHeadReturn>(
        &mut registry,
        handle,
        Operation::GetResponseHead,
        vec![],
    );
    assert_eq!(head.status_code, 200);
    assert_eq!(head.headers, content_type(V5));
}

#[test]
fn sys_input_gives_what_the_frames_carried() {
    let mut registry: Registry<WasmVM> = Registry::new();
    let handle = new_handle(&mut registry);
    let mut bytes = start_frame(1, 0);
    bytes.extend(input_frame(b"hello"));
    call(&mut registry, handle, Operation::NotifyInput, bytes).unwrap();
    let input = ask::<VmSysInputReturn>(&mut registry, handle, Operation::SysInput, vec![]);
    assert_eq!(
        input.result,
        Some(SysInputResult::Input(InputReturn {
            invocation_id: "inv_1".to_string(),
            key: "my-key".to_string(),
            headers: vec![],
            input: b"hello".to_vec(),
        }))
    );
}

#[test]
fn every_operation_that_completes_later_gives_a_fresh_handle() {
    let mut registry: Registry<WasmVM> = Registry::new();
    let handle = started(&mut registry, false);
    let key = |k: &str| k.to_string();
    let mut handles = vec![
        later(
            &mut registry,
            handle,
            Operation::SysStateGet,
            encode(&VmSysStateGetParameters { key: key("k") }),
        ),
        later(&mut registry, handle, Operation::SysStateGetKeys, vec![]),
        later(
            &mut registry,
            handle,
            Operation::SysPromiseGet,
            encode(&VmSysPromiseGetParameters { key: key("p") }),
        ),
        later(
            &mut registry,
            handle,
            Operation::SysPromisePeek,
            encode(&VmSysPromisePeekParameters { key: key("p") }),
        ),
        later(
            &mut registry,
            handle,
            Operation::SysPromiseComplete,
            encode(&VmSysPromiseCompleteParameters {
                id: key("p"),
                result: Some(PromiseCompletion::Success(vec![1])),
            }),
        ),
        later(&mut registry, handle, Operation::SysRun, run_parameters("r")),
        later(
            &mut registry,
            handle,
            Operation::SysAttachInvocation,
            encode(&VmSysAttachInvocationParameters { invocation_id: key("inv_2") }),
        ),
        later(
            &mut registry,
            handle,
            Operation::SysSend,
            encode(&VmSysSendParameters {
                service: key("Greeter"),
                handler: key("greet"),
                execution_time_since_unix_epoch_millis: Some(1_700_000_000_000),
                ..VmSysSendParameters::fresh()
            }),
        ),
    ];
    assert!(handles.iter().all(|h| *h >= 17));
    handles.sort();
    handles.dedup();
    assert_eq!(handles.len(), 8);
}

#[test]
fn sleep_works_whether_now_is_before_or_after_the_time_to_wake() {
    let mut registry: Registry<WasmVM> = Registry::new();
    let handle = started(&mut registry, false);
    for (wake_up, now) in [(10u64, 5u64), (5, 10), (0, 0), (u64::MAX, 0), (0, u64::MAX)] {
        let request = encode(&VmSysSleepParameters {
            wake_up_time_since_unix_epoch_millis: wake_up,
            now_since_unix_epoch_millis: now,
            name: "nap".to_string(),
        });
        assert!(later(&mut registry, handle, Operation::SysSleep, request) >= 17);
    }
}

#[test]
fn operations_that_return_nothing_answer_done() {
    let mut registry: Registry<WasmVM> = Registry::new();
    let handle = started(&mut registry, false);
    let set = encode(&VmSysStateSetParameters { key: "k".to_string(), value: vec![1] });
    done(&mut registry, handle, Operation::SysStateSet, set);
    let clear = encode(&VmSysStateClearParameters { key: "k".to_string() });
    done(&mut registry, handle, Operation::SysStateClear, clear);
    done(&mut registry, handle, Operation::SysStateClearAll, vec![]);
    let cancel = encode(&VmSysCancelInvocationParameters { invocation_id: "inv_2".to_string() });
    done(&mut registry, handle, Operation::SysCancelInvocation, cancel);
    let complete = encode(&VmSysCompleteAwakeableParameters {
        id: "sign_1abc".to_string(),
        result: Some(
            AwakeableCompletion::Failure(Failure { code: 65_535, message: "m".to_string() }),
        ),
    });
    done(&mut registry, handle, Operation::SysCompleteAwakeable, complete);
    let out = encode(
        &VmSysWriteOutputParameters { result: Some(OutputResult::Success(vec![4, 2])) },
    );
    done(&mut registry, handle, Operation::SysWriteOutput, out);
    done(&mut registry, handle, Operation::SysEnd, vec![]);
}

#[test]
fn take_output_gives_bytes_and_after_the_end_the_end() {
    let mut registry: Registry<WasmVM> = Registry::new();
    let handle = started(&mut registry, false);
    // nothing to send yet, but more may come
    assert_eq!(output(&mut registry, handle), TakeOutputResult::Bytes(vec![]));
    let set = encode(&VmSysStateSetParameters { key: "k".to_string(), value: vec![1] });
    done(&mut registry, handle, Operation::SysStateSet, set);
    // the state entry, as a frame of type 0x0403
    let payload = vec![0x0A, 0x01, b'k', 0x1A, 0x03, 0x0A, 0x01, 0x01];
    assert_eq!(output(&mut registry, handle), TakeOutputResult::Bytes(frame(0x0403, payload)));
    done(&mut registry, handle, Operation::SysEnd, vec![]);
    assert_eq!(output(&mut registry, handle), TakeOutputResult::Bytes(frame(0x0003, vec![])));
    assert_eq!(output(&mut registry, handle), TakeOutputResult::Eof);
}

#[test]
fn sys_awakeable_gives_an_identifier_and_a_handle() {
    let mut registry: Registry<WasmVM> = Registry::new();
    let handle = started(&mut registry, false);
    match ask::<VmSysAwakeableReturn>(
        &mut registry,
        handle,
        Operation::SysAwakeable,
        vec![],
    ).result {
        Some(AwakeableResult::Created(a)) => {
            assert!(a.id.starts_with("sign_1"));
            assert!(a.handle >= 17);
        },
        other => panic!("expected an awakeable, got {other:?}"),
    }
}

#[test]
fn sys_call_gives_two_handles() {
    let mut registry: Registry<WasmVM> = Registry::new();
    let handle = started(&mut registry, false);
    let request = encode(&VmSysCallParameters {
        service: "Greeter".to_string(),
        handler: "greet".to_string(),
        key: Some("bob".to_string()),
        idempotency_key: Some("once".to_string()),
        headers: vec![Header { key: "h".to_string(), value: "v".to_string() }],
        input: b"{}".to_vec(),
    });
    match ask::<VmSysCallReturn>(&mut registry, handle, Operation::SysCall, request).result {
        Some(SysCallResult::Handles(h)) => {
            assert!(h.invocation_id_handle >= 17);
            assert_ne!(h.invocation_id_handle, h.result_handle);
        },
        other => panic!("expected handles, got {other:?}"),
    }
    // the call went out with the target as it was asked for
    match output(&mut registry, handle) {
        TakeOutputResult::Bytes(bytes) => {
            assert_eq!(&bytes[..2], &[0x04, 0x0D]);
            let payload = String::from_utf8_lossy(&bytes[8..]).to_string();
            for part in ["Greeter", "greet", "bob", "once", "{}"] {
                assert!(payload.contains(part), "{part}");
            }
        },
        other => panic!("expected bytes, got {other:?}"),
    }
}

#[test]
fn an_empty_idempotency_key_is_a_failure_of_the_engine() {
    let mut registry: Registry<WasmVM> = Registry::new();
    let handle = started(&mut registry, false);
    let request = encode(&VmSysCallParameters {
        service: "Greeter".to_string(),
        handler: "greet".to_string(),
        idempotency_key: Some(String::new()),
        ..VmSysCallParameters::fresh()
    });
    assert!(matches!(
        ask::<VmSysCallReturn>(&mut registry, handle, Operation::SysCall, request).result,
        Some(SysCallResult::Failure(_))
    ));
}

#[test]
fn invoke_works_on_an_instance_without_a_table() {
    let mut vm = WasmVM::new(&WasmHeaders(content_type(V5))).unwrap();
    assert_eq!(invoke(&mut vm, Operation::IsCompleted(17), vec![]), Ok(Reply::Scalar(0)));
    match invoke(&mut vm, Operation::IsReadyToExecute, vec![]) {
        Ok(Reply::Buffer(bytes)) => assert_eq!(bytes, vec![0x08, 0x00]),
        other => panic!("expected a buffer, got {other:?}"),
    }
    assert!(WasmVM::new(&WasmHeaders(vec![])).is_err());
}
