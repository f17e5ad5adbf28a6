//! The boundary whole, as a host drives it: allocate, fill, call, read,
//! deallocate.
use shared_core::boundary::Operation;
use shared_core::common::Header;
use shared_core::fault::Fault;
use shared_core::memory::unpack;
use shared_core::message::{decode, encode, Message};
use shared_core::requests::{VmNewParameters, VmSysStateGetParameters, VmSysStateSetParameters};
use shared_core::responses::{
    AsyncResult, EmptyResult, GenericEmptyReturn, ReadyResult, SimpleSysAsyncResultReturn,
    VmIsReadyToExecuteReturn, VmNewResult, VmNewReturn,
};
use shared_core::sandbox::{reads_buffer, Sandbox};
use shared_core::wire::{emit, RawField, RawValue};
use std::fmt::Debug;

const V5: &str = "application/vnd.restate.invocation.v5";

/// The host puts a request into a buffer of the sandbox.
fn send(sandbox: &mut Sandbox, bytes: &[u8]) -> (u32, u32) {
    let len = bytes.len() as u32;
    let address = sandbox.allocate(len).unwrap();
    sandbox.write(address, bytes).unwrap();
    (address, len)
}

/// The host reads an answer and gives its buffer back.
fn receive<M: Message + Debug>(sandbox: &mut Sandbox, packed: u64) -> M {
    let (address, len) = unpack(packed);
    assert_ne!(address, 0);
    let bytes = sandbox.read(address, len).unwrap();
    assert_eq!(sandbox.deallocate(address, len), Ok(()));
    decode::<M>(&bytes).unwrap()
}

fn new_vm(sandbox: &mut Sandbox, content_type: &str) -> VmNewReturn {
    let request = encode(&VmNewParameters {
        headers: vec![Header { key: "content-type".to_string(), value: content_type.to_string() }],
    });
    let (address, len) = send(sandbox, &request);
    let packed = sandbox.vm_new(address, len).unwrap();
    // the request was absorbed: what is at its address now, if anything, is
    // another buffer
    assert_ne!(sandbox.read(address, len), Ok(request));
    receive(sandbox, packed)
}

fn new_handle(sandbox: &mut Sandbox) -> u32 {
    match new_vm(sandbox, V5).result {
        Some(VmNewResult::Pointer(handle)) => handle,
        other => panic!("expected a handle, got {other:?}"),
    }
}

fn frame(ty: u16, payload: Vec<u8>) -> Vec<u8> {
    let header: u64 = ((ty as u64) << 48) | payload.len() as u64;
    let mut out = header.to_be_bytes().to_vec();
    out.extend(payload);
    out
}

fn start_and_input() -> Vec<u8> {
    let mut bytes = frame(
        0x0000,
        emit(&vec![
            RawField { number: 1, value: RawValue::Bytes(vec![1]) },
            RawField { number: 2, value: RawValue::Bytes(b"inv_1".to_vec()) },
            RawField { number: 3, value: RawValue::Varint(1) },
        ]),
    );
    let value = emit(&vec![RawField { number: 1, value: RawValue::Bytes(b"in".to_vec()) }]);
    bytes.extend(
        frame(0x0400, emit(&vec![RawField { number: 14, value: RawValue::Bytes(value) }])),
    );
    bytes
}

fn started(sandbox: &mut Sandbox) -> u32 {
    let handle = new_handle(sandbox);
    let (address, len) = send(sandbox, &start_and_input());
    assert_eq!(sandbox.call(handle, Operation::NotifyInput, address, len), Ok(0));
    let packed = sandbox.call(handle, Operation::SysInput, 0, 0).unwrap();
    let (a, l) = unpack(packed);
    sandbox.deallocate(a, l).unwrap();
    handle
}

#[test]
fn a_whole_exchange() {
    let mut sandbox = Sandbox::new();
    let handle = new_handle(&mut sandbox);
    let packed = sandbox.call(handle, Operation::IsReadyToExecute, 0, 0).unwrap();
    let ready: VmIsReadyToExecuteReturn = receive(&mut sandbox, packed);
    assert_eq!(ready.result, Some(ReadyResult::Ready(false)));

    let (address, len) = send(&mut sandbox, &start_and_input());
    assert_eq!(sandbox.call(handle, Operation::NotifyInput, address, len), Ok(0));
    assert_eq!(sandbox.call(handle, Operation::NotifyInputClosed, 0, 0), Ok(0));
    let packed = sandbox.call(handle, Operation::IsReadyToExecute, 0, 0).unwrap();
    let ready: VmIsReadyToExecuteReturn = receive(&mut sandbox, packed);
    assert_eq!(ready.result, Some(ReadyResult::Ready(true)));

    assert_eq!(sandbox.vm_free(handle), Ok(()));
    assert_eq!(sandbox.vm_free(handle), Err(Fault::UnknownHandle));
}

#[test]
fn vm_new_reports_a_refusal_of_the_engine_in_its_answer() {
    let mut sandbox = Sandbox::new();
    assert!(matches!(
        new_vm(&mut sandbox, "application/json").result,
        Some(VmNewResult::Failure(_))
    ));
}

#[test]
fn vm_new_needs_a_live_buffer() {
    let mut sandbox = Sandbox::new();
    assert_eq!(sandbox.vm_new(0, 0), Err(Fault::NullPointer));
    assert_eq!(sandbox.vm_new(1, 0), Err(Fault::UnknownRegion));
    let address = sandbox.allocate(2).unwrap();
    assert_eq!(sandbox.vm_new(address, 3), Err(Fault::SizeMismatch));
    // two zero bytes are no request: refused, and the buffer is gone
    assert_eq!(sandbox.vm_new(address, 2), Err(Fault::MalformedInput));
    assert_eq!(sandbox.deallocate(address, 2), Err(Fault::UnknownRegion));
}

#[test]
fn a_request_is_absorbed_and_an_answer_is_the_hosts_to_give_back() {
    let mut sandbox = Sandbox::new();
    let handle = started(&mut sandbox);
    let request = encode(&VmSysStateSetParameters { key: "k".to_string(), value: vec![1] });
    let (address, len) = send(&mut sandbox, &request);
    let packed = sandbox.call(handle, Operation::SysStateSet, address, len).unwrap();
    assert_ne!(sandbox.read(address, len), Ok(request));
    let (a, l) = unpack(packed);
    assert_eq!(sandbox.read(a, l), Ok(vec![0x0A, 0x00]));
    let answer: GenericEmptyReturn = receive(&mut sandbox, packed);
    assert_eq!(answer.result, Some(EmptyResult::Done));
    // given back once
    assert_eq!(sandbox.deallocate(a, l), Err(Fault::UnknownRegion));
}

#[test]
fn the_handle_is_looked_at_before_the_buffer() {
    let mut sandbox = Sandbox::new();
    let (address, len) = send(&mut sandbox, &[0x0A, 0x01, b'k']);
    assert_eq!(sandbox.call(0, Operation::SysStateGet, address, len), Err(Fault::NullPointer));
    assert_eq!(sandbox.call(7, Operation::SysStateGet, address, len), Err(Fault::UnknownHandle));
    // nothing was absorbed
    assert_eq!(sandbox.read(address, len), Ok(vec![0x0A, 0x01, b'k']));
    let handle = started(&mut sandbox);
    assert_eq!(sandbox.call(handle, Operation::SysStateGet, 0, 0), Err(Fault::NullPointer));
    assert_eq!(sandbox.call(handle, Operation::SysStateGet, 999, 3), Err(Fault::UnknownRegion));
    assert_eq!(
        sandbox.call(handle, Operation::SysStateGet, address, len + 1),
        Err(Fault::SizeMismatch),
    );
    let packed = sandbox.call(handle, Operation::SysStateGet, address, len).unwrap();
    let answer: SimpleSysAsyncResultReturn = receive(&mut sandbox, packed);
    assert!(matches!(answer.result, Some(AsyncResult::Handle(_))));
}

#[test]
fn a_request_that_cannot_be_read_is_absorbed_all_the_same() {
    let mut sandbox = Sandbox::new();
    let handle = started(&mut sandbox);
    let (address, len) = send(&mut sandbox, &[0xFF]);
    assert_eq!(
        sandbox.call(handle, Operation::SysStateGet, address, len),
        Err(Fault::MalformedInput),
    );
    assert_eq!(sandbox.read(address, len), Err(Fault::UnknownRegion));
}

#[test]
fn operations_without_a_request_look_at_no_buffer() {
    let mut sandbox = Sandbox::new();
    let handle = started(&mut sandbox);
    let (address, len) = send(&mut sandbox, &[1, 2, 3]);
    let packed = sandbox.call(handle, Operation::SysStateGetKeys, address, len).unwrap();
    let _: SimpleSysAsyncResultReturn = receive(&mut sandbox, packed);
    assert_eq!(sandbox.call(handle, Operation::IsCompleted(99), address, len), Ok(0));
    assert_eq!(sandbox.read(address, len), Ok(vec![1, 2, 3]));
}

#[test]
fn reads_buffer_tells_the_operations_apart() {
    let with = [
        Operation::NotifyInput,
        Operation::NotifyError,
        Operation::DoProgress,
        Operation::SysStateGet,
        Operation::SysStateSet,
        Operation::SysStateClear,
        Operation::SysSleep,
        Operation::SysCompleteAwakeable,
        Operation::SysCall,
        Operation::SysSend,
        Operation::SysCancelInvocation,
        Operation::SysAttachInvocation,
        Operation::SysPromiseGet,
        Operation::SysPromisePeek,
        Operation::SysPromiseComplete,
        Operation::SysRun,
        Operation::ProposeRunCompletion,
        Operation::SysWriteOutput,
    ];
    let without = [
        Operation::GetResponseHead,
        Operation::NotifyInputClosed,
        Operation::TakeOutput,
        Operation::IsReadyToExecute,
        Operation::IsCompleted(1),
        Operation::TakeNotification(1),
        Operation::SysInput,
        Operation::SysStateGetKeys,
        Operation::SysStateClearAll,
        Operation::SysAwakeable,
        Operation::SysEnd,
    ];
    assert!(with.iter().all(|op| reads_buffer(*op)));
    assert!(without.iter().all(|op| !reads_buffer(*op)));
}

#[test]
fn buffers_of_the_host_are_its_own_business() {
    let mut sandbox = Sandbox::new();
    let address = sandbox.allocate(4).unwrap();
    assert_eq!(sandbox.read(address, 4), Ok(vec![0; 4]));
    assert_eq!(sandbox.write(address, &[1, 2, 3, 4]), Ok(()));
    assert_eq!(sandbox.write(address, &[1]), Err(Fault::SizeMismatch));
    assert_eq!(sandbox.deallocate(address, 3), Err(Fault::SizeMismatch));
    assert_eq!(sandbox.deallocate(address, 4), Ok(()));
    assert_eq!(sandbox.deallocate(address, 4), Err(Fault::UnknownRegion));
    let request = encode(&VmSysStateGetParameters { key: "k".to_string() });
    assert_eq!(request, vec![0x0A, 0x01, b'k']);
}
