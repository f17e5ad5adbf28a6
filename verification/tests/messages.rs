//! Every message type: written and read back, and held against bytes
//! computed by hand or by prost.
use shared_core::common::{Empty, Failure, Header};
use shared_core::message::{decode, decode_onto, encode, Message};
use shared_core::requests::{
    AwakeableCompletion, OutputResult, PromiseCompletion, RetryPolicyParameters, RunCompletion,
    VmDoProgressParameters, VmNewParameters, VmProposeRunCompletionParameters,
    VmSysAttachInvocationParameters, VmSysCallParameters, VmSysCancelInvocationParameters,
    VmSysCompleteAwakeableParameters, VmSysPromiseCompleteParameters, VmSysPromiseGetParameters,
    VmSysPromisePeekParameters, VmSysRunParameters, VmSysSendParameters, VmSysSleepParameters,
    VmSysStateClearParameters, VmSysStateGetParameters, VmSysStateSetParameters,
    VmSysWriteOutputParameters,
};
use shared_core::responses::{
    AsyncResult, Awakeable, AwakeableResult, CallHandles, DoProgressResult, EmptyResult,
    GenericEmptyReturn, InputReturn, ReadyResult, SimpleSysAsyncResultReturn, StateKeys,
    SysCallResult, SysInputResult, TakeNotificationResult, TakeOutputResult, TakenValue,
    ValueKind, VmDoProgressReturn, VmGetResponseHeadReturn, VmIsReadyToExecuteReturn,
    VmNewResult, VmNewReturn, VmSysAwakeableReturn, VmSysCallReturn, VmSysInputReturn,
    VmTakeNotificationReturn, VmTakeOutputReturn,
};
use std::fmt::Debug;

fn header(key: &str, value: &str) -> Header {
    Header { key: key.to_string(), value: value.to_string() }
}

fn failure(code: u32, message: &str) -> Failure {
    Failure { code, message: message.to_string() }
}

/// Writes a value, reads the bytes back, and expects the value again.
fn round_trip<M: Message + PartialEq + Debug>(m: M) -> Vec<u8> {
    let bytes = encode(&m);
    assert_eq!(decode::<M>(&bytes), Some(m));
    bytes
}

/// The fresh value of a type is written as no bytes, and no bytes read as it.
fn blank_is_empty<M: Message + PartialEq + Debug>() {
    assert_eq!(encode(&M::fresh()), Vec::<u8>::new());
    assert_eq!(decode::<M>(&[]), Some(M::fresh()));
}

fn nested(number: u32, payload: &[u8]) -> Vec<u8> {
    let mut out = Vec::new();
    prost::encoding::encode_key(number, prost::encoding::WireType::LengthDelimited, &mut out);
    prost::encoding::encode_varint(payload.len() as u64, &mut out);
    out.extend_from_slice(payload);
    out
}

#[test]
fn empty_message() {
    assert_eq!(encode(&Empty {}), Vec::<u8>::new());
    assert_eq!(decode::<Empty>(&[]), Some(Empty {}));
    // any well-formed field is stepped over
    assert_eq!(decode::<Empty>(&[0x08, 0x01]), Some(Empty {}));
    // bytes that are no run of fields are refused
    assert_eq!(decode::<Empty>(&[0xFF]), None);
}

#[test]
fn header_exact_bytes() {
    let bytes = round_trip(header("a", "bc"));
    assert_eq!(bytes, vec![0x0A, 0x01, b'a', 0x12, 0x02, b'b', b'c']);
}

#[test]
fn header_agrees_with_prost() {
    let key = "content-type".to_string();
    let value = "application/json; charset=utf-8 \u{00e9}\u{4e16}\u{1F600}".to_string();
    let mut theirs = Vec::new();
    prost::encoding::string::encode(1, &key, &mut theirs);
    prost::encoding::string::encode(2, &value, &mut theirs);
    assert_eq!(encode(&Header { key, value }), theirs);
}

#[test]
fn header_leaves_out_empty_texts() {
    assert_eq!(encode(&header("", "")), Vec::<u8>::new());
    assert_eq!(encode(&header("", "v")), vec![0x12, 0x01, b'v']);
    assert_eq!(round_trip(header("k", "")), vec![0x0A, 0x01, b'k']);
    blank_is_empty::<Header>();
}

#[test]
fn failure_exact_bytes() {
    let bytes = round_trip(failure(500, "boom"));
    assert_eq!(bytes, vec![0x08, 0xF4, 0x03, 0x12, 0x04, b'b', b'o', b'o', b'm']);
    let mut theirs = Vec::new();
    prost::encoding::uint32::encode(1, &500u32, &mut theirs);
    prost::encoding::string::encode(2, &"boom".to_string(), &mut theirs);
    assert_eq!(bytes, theirs);
}

#[test]
fn failure_round_trip_at_the_edges() {
    round_trip(failure(0, ""));
    round_trip(failure(u32::MAX, "x"));
    round_trip(failure(1, ""));
    blank_is_empty::<Failure>();
}

#[test]
fn text_must_be_valid_utf8() {
    assert_eq!(decode::<Header>(&[0x0A, 0x02, 0xC3, 0x28]), None);
    assert_eq!(decode::<Header>(&[0x0A, 0x01, 0xFF]), None);
    // an earlier field is checked even where a later one replaces it
    assert_eq!(decode::<Header>(&[0x0A, 0x01, 0xFF, 0x0A, 0x01, b'a']), None);
    assert_eq!(decode::<Header>(&[0x0A, 0x02, 0xC3, 0xA9]), Some(header("\u{00e9}", "")));
}

#[test]
fn a_known_field_of_the_wrong_kind_is_refused() {
    // key of a header as a number
    assert_eq!(decode::<Header>(&[0x08, 0x01]), None);
    // code of a failure as bytes
    assert_eq!(decode::<Failure>(&[0x0A, 0x01, 0x01]), None);
    // code of a failure as four bytes
    assert_eq!(decode::<Failure>(&[0x0D, 0x01, 0x00, 0x00, 0x00]), None);
}

#[test]
fn unknown_fields_are_ignored() {
    let mut bytes = vec![0x0A, 0x01, b'k'];
    bytes.extend_from_slice(&[0x18, 0x2A]); // field 3, a number
    bytes.extend_from_slice(&[0x22, 0x02, 0xFF, 0xFE]); // field 4, bytes that are no text
    bytes.extend_from_slice(&[0x2D, 1, 2, 3, 4]); // field 5, four bytes
    bytes.extend_from_slice(&[0x31, 1, 2, 3, 4, 5, 6, 7, 8]); // field 6, eight bytes
    bytes.extend_from_slice(&[0x12, 0x01, b'v']);
    assert_eq!(decode::<Header>(&bytes), Some(header("k", "v")));
}

#[test]
fn the_last_of_a_repeated_plain_field_wins() {
    let bytes = [0x0A, 0x01, b'a', 0x0A, 0x01, b'b'];
    assert_eq!(decode::<Header>(&bytes), Some(header("b", "")));
    assert_eq!(decode::<Failure>(&[0x08, 0x01, 0x08, 0x02]), Some(failure(2, "")));
}

#[test]
fn numbers_of_32_bits_keep_the_low_bits() {
    // 2^32 + 5
    assert_eq!(decode::<Failure>(&[0x08, 0x85, 0x80, 0x80, 0x80, 0x10]), Some(failure(5, "")));
    assert_eq!(
        decode::<Failure>(&[0x08, 0xFF, 0xFF, 0xFF, 0xFF, 0xFF, 0xFF, 0xFF, 0xFF, 0xFF, 0x01]),
        Some(failure(u32::MAX, ""))
    );
}

#[test]
fn decode_onto_keeps_what_no_field_replaces() {
    let base = header("k", "old");
    assert_eq!(decode_onto(base, &[0x12, 0x03, b'n', b'e', b'w']), Some(header("k", "new")));
    assert_eq!(decode_onto(header("k", "v"), &[]), Some(header("k", "v")));
    assert_eq!(decode_onto(header("k", "v"), &[0x08]), None);
}

#[test]
fn vm_new_parameters_round_trip() {
    let bytes = round_trip(VmNewParameters {
        headers: vec![header("content-type", "application/json"), header("x", ""), header("", "")],
    });
    let mut expected = nested(1, &encode(&header("content-type", "application/json")));
    expected.extend(nested(1, &encode(&header("x", ""))));
    expected.extend(nested(1, &[]));
    assert_eq!(bytes, expected);
    blank_is_empty::<VmNewParameters>();
}

#[test]
fn vm_new_parameters_refuses_a_malformed_header() {
    assert_eq!(decode::<VmNewParameters>(&[0x0A, 0x02, 0x0A, 0x05]), None);
    assert_eq!(decode::<VmNewParameters>(&[0x08, 0x01]), None);
}

#[test]
fn vm_do_progress_parameters_are_packed() {
    let bytes = round_trip(VmDoProgressParameters { handles: vec![1, 2, 300, u32::MAX] });
    let mut theirs = Vec::new();
    prost::encoding::uint32::encode_packed(1, &[1, 2, 300, u32::MAX], &mut theirs);
    assert_eq!(bytes, theirs);
    assert_eq!(&bytes[..4], &[0x0A, 0x09, 0x01, 0x02]);
    blank_is_empty::<VmDoProgressParameters>();
}

#[test]
fn vm_do_progress_parameters_accept_numbers_one_by_one() {
    let one_by_one = [0x08, 0x07, 0x08, 0x09];
    assert_eq!(
        decode::<VmDoProgressParameters>(&one_by_one),
        Some(VmDoProgressParameters { handles: vec![7, 9] })
    );
    let mixed = [0x0A, 0x02, 0x01, 0x02, 0x08, 0x03, 0x0A, 0x00, 0x0A, 0x01, 0x04];
    assert_eq!(
        decode::<VmDoProgressParameters>(&mixed),
        Some(VmDoProgressParameters { handles: vec![1, 2, 3, 4] })
    );
}

#[test]
fn vm_do_progress_parameters_refuse_a_number_cut_short() {
    assert_eq!(decode::<VmDoProgressParameters>(&[0x0A, 0x02, 0x01, 0x80]), None);
    assert_eq!(decode::<VmDoProgressParameters>(&[0x0D, 1, 0, 0, 0]), None);
}

#[test]
fn key_requests_round_trip() {
    assert_eq!(
        round_trip(VmSysStateGetParameters { key: "k".to_string() }),
        vec![0x0A, 0x01, b'k']
    );
    round_trip(VmSysStateClearParameters { key: "some key".to_string() });
    round_trip(VmSysPromiseGetParameters { key: "p".to_string() });
    round_trip(VmSysPromisePeekParameters { key: "p".to_string() });
    round_trip(VmSysRunParameters { name: "my-run".to_string() });
    round_trip(VmSysCancelInvocationParameters { invocation_id: "inv_1".to_string() });
    round_trip(VmSysAttachInvocationParameters { invocation_id: "inv_1".to_string() });
    blank_is_empty::<VmSysStateGetParameters>();
    blank_is_empty::<VmSysStateClearParameters>();
    blank_is_empty::<VmSysPromiseGetParameters>();
    blank_is_empty::<VmSysPromisePeekParameters>();
    blank_is_empty::<VmSysRunParameters>();
    blank_is_empty::<VmSysCancelInvocationParameters>();
    blank_is_empty::<VmSysAttachInvocationParameters>();
}

#[test]
fn vm_sys_state_set_parameters_round_trip() {
    let bytes = round_trip(VmSysStateSetParameters {
        key: "k".to_string(),
        value: vec![0, 255, 1],
    });
    assert_eq!(bytes, vec![0x0A, 0x01, b'k', 0x12, 0x03, 0, 255, 1]);
    round_trip(VmSysStateSetParameters { key: String::new(), value: vec![1] });
    round_trip(VmSysStateSetParameters { key: "k".to_string(), value: vec![] });
    blank_is_empty::<VmSysStateSetParameters>();
}

#[test]
fn vm_sys_sleep_parameters_round_trip() {
    let bytes = round_trip(VmSysSleepParameters {
        wake_up_time_since_unix_epoch_millis: 1_700_000_000_000,
        now_since_unix_epoch_millis: 1,
        name: "nap".to_string(),
    });
    let mut theirs = Vec::new();
    prost::encoding::uint64::encode(1, &1_700_000_000_000u64, &mut theirs);
    prost::encoding::uint64::encode(2, &1u64, &mut theirs);
    prost::encoding::string::encode(3, &"nap".to_string(), &mut theirs);
    assert_eq!(bytes, theirs);
    round_trip(VmSysSleepParameters {
        wake_up_time_since_unix_epoch_millis: u64::MAX,
        now_since_unix_epoch_millis: 0,
        name: String::new(),
    });
    blank_is_empty::<VmSysSleepParameters>();
}

#[test]
fn vm_sys_complete_awakeable_parameters_round_trip() {
    let success = round_trip(VmSysCompleteAwakeableParameters {
        id: "awk".to_string(),
        result: Some(AwakeableCompletion::Success(vec![1, 2])),
    });
    assert_eq!(success, vec![0x0A, 0x03, b'a', b'w', b'k', 0x12, 0x02, 1, 2]);
    let failed = round_trip(VmSysCompleteAwakeableParameters {
        id: String::new(),
        result: Some(AwakeableCompletion::Failure(failure(409, "no"))),
    });
    assert_eq!(failed, nested(3, &encode(&failure(409, "no"))));
    // an arm is written even where it holds the default
    let empty_success = round_trip(VmSysCompleteAwakeableParameters {
        id: String::new(),
        result: Some(AwakeableCompletion::Success(vec![])),
    });
    assert_eq!(empty_success, vec![0x12, 0x00]);
    round_trip(VmSysCompleteAwakeableParameters {
        id: "x".to_string(),
        result: Some(AwakeableCompletion::Failure(failure(0, ""))),
    });
    round_trip(VmSysCompleteAwakeableParameters { id: "x".to_string(), result: None });
    blank_is_empty::<VmSysCompleteAwakeableParameters>();
}

#[test]
fn vm_sys_promise_complete_parameters_round_trip() {
    round_trip(VmSysPromiseCompleteParameters {
        id: "p".to_string(),
        result: Some(PromiseCompletion::Success(vec![9])),
    });
    round_trip(VmSysPromiseCompleteParameters {
        id: "p".to_string(),
        result: Some(PromiseCompletion::Failure(failure(1, "m"))),
    });
    blank_is_empty::<VmSysPromiseCompleteParameters>();
}

fn call_parameters() -> VmSysCallParameters {
    VmSysCallParameters {
        service: "Greeter".to_string(),
        handler: "greet".to_string(),
        key: Some("bob".to_string()),
        idempotency_key: None,
        headers: vec![header("a", "1"), header("a", "2")],
        input: b"{}".to_vec(),
    }
}

#[test]
fn vm_sys_call_parameters_round_trip() {
    let bytes = round_trip(call_parameters());
    let mut theirs = Vec::new();
    prost::encoding::string::encode(1, &"Greeter".to_string(), &mut theirs);
    prost::encoding::string::encode(2, &"greet".to_string(), &mut theirs);
    prost::encoding::string::encode(3, &"bob".to_string(), &mut theirs);
    theirs.extend(nested(5, &encode(&header("a", "1"))));
    theirs.extend(nested(5, &encode(&header("a", "2"))));
    prost::encoding::bytes::encode(6, &b"{}".to_vec(), &mut theirs);
    assert_eq!(bytes, theirs);
    blank_is_empty::<VmSysCallParameters>();
}

#[test]
fn an_optional_text_that_is_empty_differs_from_none() {
    let with_empty = VmSysCallParameters {
        key: Some(String::new()),
        idempotency_key: Some(String::new()),
        ..VmSysCallParameters::fresh()
    };
    let bytes = round_trip(with_empty);
    assert_eq!(bytes, vec![0x1A, 0x00, 0x22, 0x00]);
}

#[test]
fn vm_sys_send_parameters_round_trip() {
    let c = call_parameters();
    round_trip(VmSysSendParameters {
        service: c.service.clone(),
        handler: c.handler.clone(),
        key: None,
        idempotency_key: Some("idem".to_string()),
        headers: c.headers.clone(),
        input: vec![],
        execution_time_since_unix_epoch_millis: Some(0),
    });
    let bytes = round_trip(VmSysSendParameters {
        execution_time_since_unix_epoch_millis: Some(5),
        ..VmSysSendParameters::fresh()
    });
    assert_eq!(bytes, vec![0x38, 0x05]);
    let zero = round_trip(VmSysSendParameters {
        execution_time_since_unix_epoch_millis: Some(0),
        ..VmSysSendParameters::fresh()
    });
    assert_eq!(zero, vec![0x38, 0x00]);
    blank_is_empty::<VmSysSendParameters>();
}

fn two() -> u32 {
    2.0f32.to_bits()
}

#[test]
fn retry_policy_parameters_round_trip() {
    let policy = RetryPolicyParameters {
        initial_interval_millis: 100,
        factor: two(),
        max_interval_millis: Some(5_000),
        max_attempts: Some(3),
        max_duration_millis: None,
    };
    let bytes = round_trip(policy);
    let mut theirs = Vec::new();
    prost::encoding::uint64::encode(1, &100u64, &mut theirs);
    prost::encoding::float::encode(2, &2.0f32, &mut theirs);
    prost::encoding::uint64::encode(3, &5_000u64, &mut theirs);
    prost::encoding::uint32::encode(4, &3u32, &mut theirs);
    assert_eq!(bytes, theirs);
    assert_eq!(&bytes[2..7], &[0x15, 0x00, 0x00, 0x00, 0x40]);
    blank_is_empty::<RetryPolicyParameters>();
}

#[test]
fn retry_policy_factor_keeps_every_bit_pattern() {
    for bits in [0u32, 1, 0x3F80_0000, 0x7F80_0000, 0x7FC0_0000, 0x8000_0000, u32::MAX] {
        round_trip(RetryPolicyParameters { factor: bits, ..RetryPolicyParameters::fresh() });
    }
    round_trip(RetryPolicyParameters {
        max_attempts: Some(0),
        max_interval_millis: Some(0),
        max_duration_millis: Some(u64::MAX),
        ..RetryPolicyParameters::fresh()
    });
}

fn completion(result: Option<RunCompletion>) -> VmProposeRunCompletionParameters {
    VmProposeRunCompletionParameters {
        handle: 17,
        result,
        attempt_duration_millis: 250,
        retry_policy: Some(RetryPolicyParameters {
            initial_interval_millis: 10,
            factor: two(),
            max_interval_millis: None,
            max_attempts: Some(3),
            max_duration_millis: Some(60_000),
        }),
    }
}

#[test]
fn vm_propose_run_completion_parameters_round_trip() {
    round_trip(completion(Some(RunCompletion::Success(vec![1, 2, 3]))));
    round_trip(completion(Some(RunCompletion::TerminalFailure(failure(500, "t")))));
    round_trip(completion(Some(RunCompletion::RetryableFailure(failure(503, "r")))));
    round_trip(completion(None));
    let bare = round_trip(VmProposeRunCompletionParameters {
        handle: 1,
        result: Some(RunCompletion::Success(vec![])),
        attempt_duration_millis: 0,
        retry_policy: None,
    });
    assert_eq!(bare, vec![0x08, 0x01, 0x12, 0x00]);
    // a policy of defaults is present, and differs from no policy
    let default_policy = round_trip(VmProposeRunCompletionParameters {
        retry_policy: Some(RetryPolicyParameters::fresh()),
        ..VmProposeRunCompletionParameters::fresh()
    });
    assert_eq!(default_policy, vec![0x32, 0x00]);
    blank_is_empty::<VmProposeRunCompletionParameters>();
}

#[test]
fn the_arms_of_a_run_completion_have_their_own_numbers() {
    let f = encode(&failure(7, "x"));
    assert_eq!(
        encode(&VmProposeRunCompletionParameters {
            result: Some(RunCompletion::TerminalFailure(failure(7, "x"))),
            ..VmProposeRunCompletionParameters::fresh()
        }),
        nested(3, &f)
    );
    assert_eq!(
        encode(&VmProposeRunCompletionParameters {
            result: Some(RunCompletion::RetryableFailure(failure(7, "x"))),
            ..VmProposeRunCompletionParameters::fresh()
        }),
        nested(4, &f)
    );
}

#[test]
fn vm_sys_write_output_parameters_round_trip() {
    assert_eq!(
        round_trip(VmSysWriteOutputParameters { result: Some(OutputResult::Success(vec![7])) }),
        vec![0x0A, 0x01, 0x07]
    );
    round_trip(VmSysWriteOutputParameters {
        result: Some(OutputResult::Failure(failure(400, "bad"))),
    });
    blank_is_empty::<VmSysWriteOutputParameters>();
}

#[test]
fn vm_new_return_round_trip() {
    assert_eq!(
        round_trip(VmNewReturn { result: Some(VmNewResult::Pointer(1)) }),
        vec![0x08, 0x01]
    );
    // the arm is written even for the number zero
    assert_eq!(
        round_trip(VmNewReturn { result: Some(VmNewResult::Pointer(0)) }),
        vec![0x08, 0x00]
    );
    round_trip(VmNewReturn { result: Some(VmNewResult::Pointer(u32::MAX)) });
    let failed = round_trip(VmNewReturn { result: Some(VmNewResult::Failure(failure(415, "no"))) });
    assert_eq!(failed, nested(2, &encode(&failure(415, "no"))));
    blank_is_empty::<VmNewReturn>();
}

#[test]
fn of_two_arms_the_later_one_stays() {
    let mut bytes = nested(2, &encode(&failure(1, "a")));
    bytes.extend_from_slice(&[0x08, 0x09]);
    assert_eq!(
        decode::<VmNewReturn>(&bytes),
        Some(VmNewReturn { result: Some(VmNewResult::Pointer(9)) }),
    );
    let mut bytes = vec![0x08, 0x09];
    bytes.extend(nested(2, &encode(&failure(1, "a"))));
    assert_eq!(
        decode::<VmNewReturn>(&bytes),
        Some(VmNewReturn { result: Some(VmNewResult::Failure(failure(1, "a"))) })
    );
}

#[test]
fn a_nested_message_that_comes_twice_is_merged() {
    let mut bytes = nested(2, &encode(&failure(1, "")));
    bytes.extend(nested(2, &encode(&failure(0, "later"))));
    assert_eq!(
        decode::<VmNewReturn>(&bytes),
        Some(VmNewReturn { result: Some(VmNewResult::Failure(failure(1, "later"))) })
    );
    // but not across another arm
    let mut bytes = nested(2, &encode(&failure(1, "")));
    bytes.extend_from_slice(&[0x08, 0x09]);
    bytes.extend(nested(2, &encode(&failure(0, "later"))));
    assert_eq!(
        decode::<VmNewReturn>(&bytes),
        Some(VmNewReturn { result: Some(VmNewResult::Failure(failure(0, "later"))) })
    );
}

#[test]
fn vm_get_response_head_return_round_trip() {
    round_trip(VmGetResponseHeadReturn {
        status_code: 200,
        headers: vec![header("content-type", "application/vnd.restate.invocation.v5")],
    });
    blank_is_empty::<VmGetResponseHeadReturn>();
}

#[test]
fn vm_take_output_return_round_trip() {
    assert_eq!(
        round_trip(VmTakeOutputReturn { result: Some(TakeOutputResult::Bytes(vec![1, 2])) }),
        vec![0x0A, 0x02, 1, 2]
    );
    assert_eq!(
        round_trip(VmTakeOutputReturn { result: Some(TakeOutputResult::Bytes(vec![])) }),
        vec![0x0A, 0x00]
    );
    assert_eq!(
        round_trip(VmTakeOutputReturn { result: Some(TakeOutputResult::Eof) }),
        vec![0x12, 0x00]
    );
    blank_is_empty::<VmTakeOutputReturn>();
}

#[test]
fn an_arm_without_content_must_still_be_well_formed() {
    assert_eq!(
        decode::<VmTakeOutputReturn>(&[0x12, 0x02, 0x08, 0x01]),
        Some(VmTakeOutputReturn { result: Some(TakeOutputResult::Eof) })
    );
    assert_eq!(decode::<VmTakeOutputReturn>(&[0x12, 0x01, 0xFF]), None);
    assert_eq!(decode::<VmTakeOutputReturn>(&[0x10, 0x00]), None);
}

#[test]
fn vm_is_ready_to_execute_return_round_trip() {
    assert_eq!(
        round_trip(VmIsReadyToExecuteReturn { result: Some(ReadyResult::Ready(true)) }),
        vec![0x08, 0x01]
    );
    assert_eq!(
        round_trip(VmIsReadyToExecuteReturn { result: Some(ReadyResult::Ready(false)) }),
        vec![0x08, 0x00]
    );
    round_trip(VmIsReadyToExecuteReturn { result: Some(ReadyResult::Failure(failure(500, ""))) });
    blank_is_empty::<VmIsReadyToExecuteReturn>();
}

#[test]
fn any_number_but_zero_reads_as_true() {
    assert_eq!(
        decode::<VmIsReadyToExecuteReturn>(&[0x08, 0x02]),
        Some(VmIsReadyToExecuteReturn { result: Some(ReadyResult::Ready(true)) })
    );
    assert_eq!(
        decode::<VmIsReadyToExecuteReturn>(&[0x08, 0x80, 0x00]),
        Some(VmIsReadyToExecuteReturn { result: Some(ReadyResult::Ready(false)) })
    );
}

#[test]
fn vm_do_progress_return_has_seven_arms() {
    let arm = |r: DoProgressResult| round_trip(VmDoProgressReturn { result: Some(r) });
    assert_eq!(arm(DoProgressResult::AnyCompleted), vec![0x0A, 0x00]);
    assert_eq!(arm(DoProgressResult::ReadFromInput), vec![0x12, 0x00]);
    assert_eq!(arm(DoProgressResult::CancelSignalReceived), vec![0x1A, 0x00]);
    assert_eq!(arm(DoProgressResult::WaitingPendingRun), vec![0x22, 0x00]);
    assert_eq!(arm(DoProgressResult::ExecuteRun(5)), vec![0x28, 0x05]);
    assert_eq!(arm(DoProgressResult::Suspended), vec![0x32, 0x00]);
    assert_eq!(
        arm(DoProgressResult::Failure(failure(1, "f"))),
        nested(7, &encode(&failure(1, "f")))
    );
    blank_is_empty::<VmDoProgressReturn>();
}

#[test]
fn suspended_is_not_written_as_a_failure() {
    let suspended = encode(&VmDoProgressReturn { result: Some(DoProgressResult::Suspended) });
    let failed = encode(&VmDoProgressReturn {
        result: Some(DoProgressResult::Failure(Failure::fresh())),
    });
    assert_ne!(suspended, failed);
    assert_eq!(
        decode::<VmDoProgressReturn>(&suspended),
        Some(VmDoProgressReturn { result: Some(DoProgressResult::Suspended) })
    );
}

#[test]
fn state_keys_round_trip() {
    let bytes = round_trip(
        StateKeys { keys: vec!["a".to_string(), String::new(), "b".to_string()] },
    );
    assert_eq!(bytes, vec![0x0A, 0x01, b'a', 0x0A, 0x00, 0x0A, 0x01, b'b']);
    blank_is_empty::<StateKeys>();
    assert_eq!(decode::<StateKeys>(&[0x0A, 0x01, 0xFF]), None);
}

#[test]
fn taken_value_round_trip() {
    let value = |v: ValueKind| round_trip(TakenValue { value: Some(v) });
    assert_eq!(value(ValueKind::Void), vec![0x0A, 0x00]);
    assert_eq!(value(ValueKind::Success(vec![1])), vec![0x12, 0x01, 0x01]);
    value(ValueKind::Success(vec![]));
    value(ValueKind::Failure(failure(404, "gone")));
    value(ValueKind::StateKeys(StateKeys { keys: vec!["k1".to_string(), "k2".to_string()] }));
    value(ValueKind::StateKeys(StateKeys { keys: vec![] }));
    assert_eq!(
        value(ValueKind::InvocationId("inv".to_string())),
        vec![0x2A, 0x03, b'i', b'n', b'v'],
    );
    value(ValueKind::InvocationId(String::new()));
    blank_is_empty::<TakenValue>();
}

#[test]
fn vm_take_notification_return_round_trip() {
    let arm = |r: TakeNotificationResult| round_trip(VmTakeNotificationReturn { result: Some(r) });
    assert_eq!(arm(TakeNotificationResult::NotReady), vec![0x0A, 0x00]);
    assert_eq!(arm(TakeNotificationResult::Suspended), vec![0x1A, 0x00]);
    arm(TakeNotificationResult::Value(TakenValue { value: Some(ValueKind::Void) }));
    arm(TakeNotificationResult::Value(TakenValue {
        value: Some(ValueKind::StateKeys(StateKeys { keys: vec!["x".to_string()] })),
    }));
    arm(TakeNotificationResult::Value(TakenValue { value: None }));
    arm(TakeNotificationResult::Failure(failure(500, "f")));
    blank_is_empty::<VmTakeNotificationReturn>();
}

#[test]
fn vm_sys_input_return_round_trip() {
    let input = InputReturn {
        invocation_id: "inv_1".to_string(),
        key: "k".to_string(),
        headers: vec![header("h", "v")],
        input: vec![1, 2, 3],
    };
    round_trip(input.clone());
    round_trip(VmSysInputReturn { result: Some(SysInputResult::Input(input)) });
    round_trip(VmSysInputReturn { result: Some(SysInputResult::Input(InputReturn::fresh())) });
    round_trip(VmSysInputReturn { result: Some(SysInputResult::Failure(failure(1, "x"))) });
    blank_is_empty::<InputReturn>();
    blank_is_empty::<VmSysInputReturn>();
}

#[test]
fn simple_sys_async_result_return_round_trip() {
    assert_eq!(
        round_trip(SimpleSysAsyncResultReturn { result: Some(AsyncResult::Handle(2)) }),
        vec![0x08, 0x02]
    );
    round_trip(SimpleSysAsyncResultReturn { result: Some(AsyncResult::Failure(failure(2, "y"))) });
    blank_is_empty::<SimpleSysAsyncResultReturn>();
}

#[test]
fn generic_empty_return_round_trip() {
    assert_eq!(
        round_trip(GenericEmptyReturn { result: Some(EmptyResult::Done) }),
        vec![0x0A, 0x00],
    );
    round_trip(GenericEmptyReturn { result: Some(EmptyResult::Failure(failure(3, "z"))) });
    blank_is_empty::<GenericEmptyReturn>();
}

#[test]
fn vm_sys_awakeable_return_round_trip() {
    round_trip(Awakeable { id: "sign_1abc".to_string(), handle: 4 });
    round_trip(VmSysAwakeableReturn {
        result: Some(
            AwakeableResult::Created(Awakeable { id: "sign_1abc".to_string(), handle: 4 }),
        ),
    });
    round_trip(VmSysAwakeableReturn { result: Some(AwakeableResult::Failure(failure(4, ""))) });
    blank_is_empty::<Awakeable>();
    blank_is_empty::<VmSysAwakeableReturn>();
}

#[test]
fn vm_sys_call_return_round_trip() {
    assert_eq!(
        round_trip(CallHandles { invocation_id_handle: 2, result_handle: 3 }),
        vec![0x08, 0x02, 0x10, 0x03]
    );
    round_trip(VmSysCallReturn {
        result: Some(
            SysCallResult::Handles(CallHandles { invocation_id_handle: 2, result_handle: 3 }),
        ),
    });
    round_trip(VmSysCallReturn { result: Some(SysCallResult::Failure(failure(5, "w"))) });
    blank_is_empty::<CallHandles>();
    blank_is_empty::<VmSysCallReturn>();
}

#[test]
fn a_message_of_an_older_schema_reads_with_defaults() {
    // a sleep request written before the name was added
    assert_eq!(
        decode::<VmSysSleepParameters>(&[0x08, 0x0A, 0x10, 0x05]),
        Some(VmSysSleepParameters {
            wake_up_time_since_unix_epoch_millis: 10,
            now_since_unix_epoch_millis: 5,
            name: String::new(),
        })
    );
}

#[test]
fn to_fields_and_absorb_agree() {
    let h = header("k", "v");
    let fields = h.to_fields();
    assert_eq!(fields.len(), 2);
    let mut back = Header::fresh();
    for f in &fields {
        back = back.absorb(f).unwrap();
    }
    assert_eq!(back, h);
}
