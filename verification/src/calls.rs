//! The calls into the engine, and what is kept beside it.
//!
//! The engine is `CoreVM` of the crate `restate_sdk_shared_core`. Each of its
//! methods that this library uses is called in one function here, whose
//! contract is taken on trust: it says which call was made, so that the
//! record of calls grows in the calls themselves and nowhere else, and it
//! leaves out the arguments on which the engine would end the process.
//! Nothing is said of what the engine answers.
//!
//! The records that the engine's own bookkeeping is guarded by are kept
//! here too, behind [`Engine`]: what opens and closes a run block and what
//! hands the engine its frames are the functions of this module, and no
//! other code can write the records.
use vstd::prelude::*;
use prost::encoding::{float, WireType};
use restate_sdk_shared_core::{
    CoreVM, DoProgressResponse, ImplicitCancellationOption, SuspendedOrVMError, TakeOutputResult,
    VMOptions, VM,
};
use std::time::Duration;
use crate::common::Header;
use crate::domain::{
    policy_is_safe, CallTarget, CallTargetModel, DefiniteValue, DefiniteValueModel,
    NotificationValue, Progress, RetryRule, RunOutcome, RunOutcomeModel, TerminalFailure,
};
use crate::engine::{accepted, protocol_content_type};
use crate::frames::{admitted, sift};
use crate::headers::WasmHeaders;
use crate::responses::InputReturn;

verus! {

/// The engine's `CoreVM`: the state machine itself. Nothing inside it is
/// visible here.
#[verifier::external_type_specification]
#[verifier::external_body]
pub struct ExCoreVM(CoreVM);

/// The engine's `Value`: what a notification completes with. It is taken
/// apart by [`plain_value`].
#[verifier::external_type_specification]
#[verifier::external_body]
pub struct ExValue(restate_sdk_shared_core::Value);

/// The engine's `NonEmptyValue`: a definite outcome. It is made by
/// [`engine_value`].
#[verifier::external_type_specification]
#[verifier::external_body]
pub struct ExNonEmptyValue(restate_sdk_shared_core::NonEmptyValue);

/// The engine's `Target`: where a call goes. It is made by
/// [`engine_target`].
#[verifier::external_type_specification]
#[verifier::external_body]
pub struct ExTarget(restate_sdk_shared_core::Target);

/// The engine's `RunExitResult`: how a run block ended. It is made by
/// [`engine_exit`].
#[verifier::external_type_specification]
#[verifier::external_body]
pub struct ExRunExitResult(restate_sdk_shared_core::RunExitResult);

/// The engine's `RetryPolicy`. It is made by [`engine_policy`].
#[verifier::external_type_specification]
#[verifier::external_body]
pub struct ExRetryPolicy(restate_sdk_shared_core::RetryPolicy);

/// What an error of the engine says: the code that its `code` gives, and the
/// text that its `Display` writes.
#[derive(Debug)]
pub(crate) struct Told {
    pub(crate) code: u16,
    pub(crate) text: String,
}

/// Why the engine stopped.
#[derive(Debug)]
pub(crate) enum Stopped {
    Suspended,
    Failed(Told),
}

/// One call into the engine, with what was handed to it. Each variant is
/// named after the method of the engine that it stands for.
pub enum EngineCall {
    NotifyInput(Seq<u8>),
    NotifyInputClosed,
    NotifyError { code: u16, message: Seq<char> },
    TakeOutput,
    IsReadyToExecute,
    IsCompleted(u32),
    DoProgress(Seq<u32>),
    TakeNotification(u32),
    SysInput,
    SysStateGet(Seq<char>),
    SysStateGetKeys,
    SysStateSet { key: Seq<char>, value: Seq<u8> },
    SysStateClear(Seq<char>),
    SysStateClearAll,
    SysSleep { name: Seq<char>, wake_up_millis: u64, now_millis: Option<u64> },
    SysAwakeable,
    SysCompleteAwakeable { id: Seq<char>, outcome: DefiniteValueModel },
    SysCall { target: CallTargetModel, input: Seq<u8> },
    SysSend { target: CallTargetModel, input: Seq<u8>, execution_time_millis: Option<u64> },
    SysCancelInvocation(Seq<char>),
    SysAttachInvocation(Seq<char>),
    SysGetPromise(Seq<char>),
    SysPeekPromise(Seq<char>),
    SysCompletePromise { key: Seq<char>, outcome: DefiniteValueModel },
    SysRun(Seq<char>),
    ProposeRunCompletion { handle: u32, result: RunOutcomeModel, policy: RetryRule },
    SysWriteOutput(DefiniteValueModel),
    SysEnd,
}

/// An item is in a sequence with one more item exactly where it was there
/// before or is the new one.
proof fn lemma_push_contains(s: Seq<u32>, h: u32, x: u32)
    ensures
        s.push(h).contains(x) <==> s.contains(x) || x == h,
{
    let t = s.push(h);
    if t.contains(x) {
        let j = choose|j: int| 0 <= j < t.len() && t[j] == x;
        if j < s.len() {
            assert(s[j] == x);
        }
    }
    if s.contains(x) {
        let j = choose|j: int| 0 <= j < s.len() && s[j] == x;
        assert(t[j] == x);
    }
    if x == h {
        assert(t[s.len() as int] == h);
    }
}

/// The engine, with what is kept beside it: the record of its open run
/// blocks, whether a start frame has been handed to it, and the record of
/// the calls that were made into it. All of it is out of reach from outside
/// this module, so the records are what the functions here make of them.
pub(crate) struct Engine {
    vm: CoreVM,
    runs: Vec<u32>,
    started: bool,
    calls: Ghost<Seq<EngineCall>>,
}

impl Engine {
    /// The handles on the record of open run blocks: those that the engine
    /// gave out for run blocks and whose value has not been taken.
    pub(crate) closed spec fn open(self) -> Set<u32> {
        Set::new(|h: u32| self.runs@.contains(h))
    }

    /// Whether a frame that starts an invocation has been handed to the
    /// engine.
    pub(crate) closed spec fn started(self) -> bool {
        self.started
    }

    /// The calls that were made into the engine, in order.
    pub(crate) closed spec fn calls(self) -> Seq<EngineCall> {
        self.calls@
    }

    /// This is the engine `before` after one more call, and nothing else
    /// about it has changed.
    pub(crate) open spec fn took(self, before: Engine, call: EngineCall) -> bool {
        &&& self.calls() == before.calls().push(call)
        &&& self.open() == before.open()
        &&& self.started() == before.started()
    }

    /// An engine that has just been constructed: no call was made into it,
    /// no run block is open, and it has no start frame.
    pub(crate) fn fresh(vm: CoreVM) -> (r: Engine)
        ensures
            r.calls() == Seq::<EngineCall>::empty(),
            r.open() == Set::<u32>::empty(),
            !r.started(),
    {
        let r = Engine { vm, runs: Vec::new(), started: false, calls: Ghost(Seq::empty()) };
        proof {
            assert(r.open() =~= Set::<u32>::empty());
        }
        r
    }

    /// Whether a run block is open.
    pub(crate) fn is_open_run(&self, handle: u32) -> (r: bool)
        ensures
            r == self.open().contains(handle),
    {
        let mut i: usize = 0;
        while i < self.runs.len()
            invariant
                i <= self.runs.len(),
                forall|j: int| 0 <= j < i ==> self.runs@[j] != handle,
            decreases self.runs.len() - i,
        {
            if self.runs[i] == handle {
                return true;
            }
            i += 1;
        }
        false
    }

    /// Takes a handle off the record of open run blocks.
    fn close_run(&mut self, handle: u32)
        ensures
            final(self).open() == old(self).open().remove(handle),
            final(self).calls() == old(self).calls(),
            final(self).started() == old(self).started(),
    {
        let mut kept: Vec<u32> = Vec::new();
        let mut i: usize = 0;
        while i < self.runs.len()
            invariant
                i <= self.runs.len(),
                *self == *old(self),
                forall|x: u32|
                    kept@.contains(x) <==> self.runs@.take(i as int).contains(x) && x != handle,
            decreases self.runs.len() - i,
        {
            let h = self.runs[i];
            let ghost before = kept@;
            let ghost seen = self.runs@.take(i as int);
            if h != handle {
                kept.push(h);
            }
            proof {
                assert(self.runs@.take(i + 1) =~= seen.push(h));
                assert forall|x: u32|
                    kept@.contains(x) <==> self.runs@.take(i + 1).contains(x) && x != handle by {
                    lemma_push_contains(seen, h, x);
                    lemma_push_contains(before, h, x);
                }
            }
            i += 1;
        }
        proof {
            assert(self.runs@.take(self.runs.len() as int) =~= self.runs@);
        }
        self.runs = kept;
        proof {
            assert(self.open() =~= old(self).open().remove(handle));
        }
    }

    /// Whether a frame that starts an invocation has been handed to the
    /// engine.
    pub(crate) fn has_started(&self) -> (r: bool)
        ensures
            r == self.started(),
    {
        self.started
    }

    /// Hands the engine whole frames that all pass the sifting, and notes
    /// whether a start frame has been handed to it by now: `started` is
    /// what the sifting says of that.
    pub(crate) fn feed(&mut self, frames: Vec<u8>, started: bool)
        requires
            admitted(old(self).started(), frames@),
            started == sift(old(self).started(), frames@).started,
        ensures
            final(self).calls() == old(self).calls().push(EngineCall::NotifyInput(frames@)),
            final(self).open() == old(self).open(),
            final(self).started() == started,
    {
        core_notify_input(self, frames);
        self.started = started;
    }

    /// Opens a run block. Where the engine gives a handle for it, the run
    /// block is open from now on.
    pub(crate) fn run(&mut self, name: String) -> (r: Result<u32, Told>)
        ensures
            final(self).calls() == old(self).calls().push(EngineCall::SysRun(name@)),
            final(self).started() == old(self).started(),
            final(self).open() == match r {
                Ok(handle) => old(self).open().insert(handle),
                Err(_) => old(self).open(),
            },
    {
        let r = core_sys_run(self, name);
        match &r {
            Ok(handle) => {
                let ghost before = self.runs@;
                self.runs.push(*handle);
                proof {
                    assert forall|x: u32|
                        self.open().contains(x) <==> old(self).open().insert(*handle).contains(
                            x,
                        ) by {
                        lemma_push_contains(before, *handle, x);
                    }
                    assert(self.open() =~= old(self).open().insert(*handle));
                }
            },
            Err(_) => {},
        }
        r
    }

    /// Asks for the value of a notification. A run block whose value is
    /// taken is open no more.
    pub(crate) fn take(&mut self, handle: u32) -> (r: Result<
        Option<restate_sdk_shared_core::Value>,
        Stopped,
    >)
        ensures
            final(self).calls() == old(self).calls().push(EngineCall::TakeNotification(handle)),
            final(self).started() == old(self).started(),
            final(self).open() == if r is Ok && r->Ok_0 is Some {
                old(self).open().remove(handle)
            } else {
                old(self).open()
            },
    {
        let r = core_take_notification(self, handle);
        let value_came = match &r {
            Ok(Some(_)) => true,
            _ => false,
        };
        if value_came {
            self.close_run(handle);
        }
        r
    }
}

/// `CoreVM::new`: constructs an engine from the request headers, which it
/// reads through the crate's own `HeaderMap` for a vector of pairs. The
/// options say that a cancel signal is noticed, and that the engine cancels
/// neither the calls nor the one-way calls of the invocation on its own.
///
/// The engine looks up `content-type` in the headers, takes the first
/// header whose key is that ignoring the case of ASCII letters, reads its
/// value as a version of the protocol, and goes on only where the version is
/// between the least and the greatest that it supports; both are the fifth.
/// On every other input it returns an error, of which nothing is claimed.
#[verifier::external_body]
pub(crate) fn core_new(headers: &WasmHeaders) -> (r: Result<CoreVM, Told>)
    ensures
        r is Ok <==> accepted(headers@),
{
    let pairs: Vec<(String, String)> =
        headers.0.iter().map(|h| (h.key.clone(), h.value.clone())).collect();
    let implicit_cancellation = ImplicitCancellationOption::Enabled {
        cancel_children_calls: false,
        cancel_children_one_way_calls: false,
    };
    CoreVM::new(pairs, VMOptions { implicit_cancellation })
        .map_err(|e| Told { code: e.code(), text: e.to_string() })
}

/// `VM::get_response_head`: the status code and the headers of the
/// response. The status is always 200, and there is one header, whose key
/// is `content-type` and whose value is the content type of the version
/// that the engine was constructed for: that is the fifth, since
/// `CoreVM::new` lets no other through.
#[verifier::external_body]
pub(crate) fn core_get_response_head(engine: &Engine) -> (r: (u16, Vec<Header>))
    ensures
        r.0 == 200,
        r.1@.len() == 1,
        r.1@[0]@.key == "content-type"@,
        r.1@[0]@.value == protocol_content_type(),
{
    let head = VM::get_response_head(&engine.vm);
    let plain = |h: restate_sdk_shared_core::Header| {
        Header { key: h.key.into_owned(), value: h.value.into_owned() }
    };
    (head.status_code, head.headers.into_iter().map(plain).collect())
}

/// `VM::notify_input`: hands bytes of the input stream to the engine.
///
/// The engine cuts the stream into frames and takes each frame as it
/// becomes whole. A start frame makes it forget the handles that it gave
/// out, whatever state it is in, and it later adds one to the count of
/// attempts of that frame without a check. Of a frame whose kind it does not
/// know it takes the header alone off the stream. So the bytes must be whole
/// frames that all pass the sifting: then the engine cuts the stream where
/// the sifting did, holds no part of a frame between two calls, and sees one
/// start frame at most, with a count below the largest.
#[verifier::external_body]
fn core_notify_input(engine: &mut Engine, frames: Vec<u8>)
    requires
        admitted(old(engine).started, frames@),
    ensures
        final(engine).took(*old(engine), EngineCall::NotifyInput(frames@)),
{
    VM::notify_input(&mut engine.vm, bytes::Bytes::from(frames))
}

/// `VM::notify_input_closed`: tells the engine that the input stream ended.
#[verifier::external_body]
pub(crate) fn core_notify_input_closed(engine: &mut Engine)
    ensures
        final(engine).took(*old(engine), EngineCall::NotifyInputClosed),
{
    VM::notify_input_closed(&mut engine.vm)
}

/// `VM::notify_error`: tells the engine of an error with the given code and
/// message, built by `Error::new`, and no delay for the next retry.
#[verifier::external_body]
pub(crate) fn core_notify_error(engine: &mut Engine, code: u16, message: String)
    ensures
        final(engine).took(*old(engine), EngineCall::NotifyError { code, message: message@ }),
{
    VM::notify_error(&mut engine.vm, restate_sdk_shared_core::Error::new(code, message), None)
}

/// `VM::take_output`: the bytes that the engine wants sent, or nothing
/// where it has reached the end of its output. Nothing is claimed of which.
#[verifier::external_body]
pub(crate) fn core_take_output(engine: &mut Engine) -> (r: Option<Vec<u8>>)
    ensures
        final(engine).took(*old(engine), EngineCall::TakeOutput),
{
    match VM::take_output(&mut engine.vm) {
        TakeOutputResult::Buffer(b) => Some(b.to_vec()),
        TakeOutputResult::EOF => None,
    }
}

/// `VM::is_ready_to_execute`. Nothing is claimed of the outcome.
#[verifier::external_body]
pub(crate) fn core_is_ready_to_execute(engine: &mut Engine) -> (r: Result<bool, Told>)
    ensures
        final(engine).took(*old(engine), EngineCall::IsReadyToExecute),
{
    VM::is_ready_to_execute(&engine.vm).map_err(|e| Told { code: e.code(), text: e.to_string() })
}

/// `VM::is_completed`. Nothing is claimed of the outcome.
#[verifier::external_body]
pub(crate) fn core_is_completed(engine: &mut Engine, handle: u32) -> (r: bool)
    ensures
        final(engine).took(*old(engine), EngineCall::IsCompleted(handle)),
{
    VM::is_completed(&engine.vm, handle.into())
}

/// `VM::do_progress`, with each variant of its result told apart. Nothing
/// is claimed of which one comes.
///
/// On a cancel signal the engine goes through the calls that it has listed
/// to cancel them, and asserts of each that it completes with an
/// identifier. It lists a call only where its options tell it to cancel
/// calls on its own, and [`core_new`] tells it not to: the list stays empty.
#[verifier::external_body]
pub(crate) fn core_do_progress(
    engine: &mut Engine,
    handles: Vec<u32>,
) -> (r: Result<Progress, Stopped>)
    ensures
        final(engine).took(*old(engine), EngineCall::DoProgress(handles@)),
{
    let told = |e: restate_sdk_shared_core::Error| Told { code: e.code(), text: e.to_string() };
    match VM::do_progress(&mut engine.vm, handles.into_iter().map(Into::into).collect()) {
        Ok(DoProgressResponse::AnyCompleted) => Ok(Progress::AnyCompleted),
        Ok(DoProgressResponse::ReadFromInput) => Ok(Progress::ReadFromInput),
        Ok(DoProgressResponse::ExecuteRun(h)) => Ok(Progress::ExecuteRun(h.into())),
        Ok(DoProgressResponse::WaitingPendingRun) => Ok(Progress::WaitingPendingRun),
        Ok(DoProgressResponse::CancelSignalReceived) => Ok(Progress::CancelSignalReceived),
        Err(SuspendedOrVMError::Suspended(_)) => Err(Stopped::Suspended),
        Err(SuspendedOrVMError::VM(e)) => Err(Stopped::Failed(told(e))),
    }
}

/// `VM::take_notification`. Nothing is claimed of the outcome.
///
/// The engine looks the handle up in the list of calls that it is to cancel
/// on its own, and asserts that a listed one completes with an identifier.
/// The list stays empty, see [`core_do_progress`].
#[verifier::external_body]
fn core_take_notification(engine: &mut Engine, handle: u32) -> (r: Result<
    Option<restate_sdk_shared_core::Value>,
    Stopped,
>)
    ensures
        final(engine).took(*old(engine), EngineCall::TakeNotification(handle)),
{
    let told = |e: restate_sdk_shared_core::Error| Told { code: e.code(), text: e.to_string() };
    match VM::take_notification(&mut engine.vm, handle.into()) {
        Ok(v) => Ok(v),
        Err(SuspendedOrVMError::Suspended(_)) => Err(Stopped::Suspended),
        Err(SuspendedOrVMError::VM(e)) => Err(Stopped::Failed(told(e))),
    }
}

/// The engine's `Value`, variant by variant, with its fields moved into
/// this library's own.
#[verifier::external_body]
pub(crate) fn plain_value(v: restate_sdk_shared_core::Value) -> (r: NotificationValue) {
    match v {
        restate_sdk_shared_core::Value::Void => NotificationValue::Void,
        restate_sdk_shared_core::Value::Success(b) => NotificationValue::Success(b.to_vec()),
        restate_sdk_shared_core::Value::Failure(f) => NotificationValue::Failure(
            TerminalFailure { code: f.code, message: f.message },
        ),
        restate_sdk_shared_core::Value::StateKeys(keys) => NotificationValue::StateKeys(keys),
        restate_sdk_shared_core::Value::InvocationId(id) => NotificationValue::InvocationId(id),
    }
}

/// `VM::sys_input`, with the fields of the input moved into the message
/// that carries them. Nothing is claimed of the outcome.
#[verifier::external_body]
pub(crate) fn core_sys_input(engine: &mut Engine) -> (r: Result<InputReturn, Told>)
    ensures
        final(engine).took(*old(engine), EngineCall::SysInput),
{
    let plain = |h: restate_sdk_shared_core::Header| {
        Header { key: h.key.into_owned(), value: h.value.into_owned() }
    };
    let moved = |i: restate_sdk_shared_core::Input| InputReturn {
        invocation_id: i.invocation_id,
        key: i.key,
        headers: i.headers.into_iter().map(plain).collect(),
        input: i.input.to_vec(),
    };
    VM::sys_input(&mut engine.vm)
        .map(moved)
        .map_err(|e| Told { code: e.code(), text: e.to_string() })
}

/// `VM::sys_state_get`. Nothing is claimed of the outcome.
#[verifier::external_body]
pub(crate) fn core_sys_state_get(engine: &mut Engine, key: String) -> (r: Result<u32, Told>)
    ensures
        final(engine).took(*old(engine), EngineCall::SysStateGet(key@)),
{
    VM::sys_state_get(&mut engine.vm, key)
        .map(Into::into)
        .map_err(|e| Told { code: e.code(), text: e.to_string() })
}

/// `VM::sys_state_get_keys`. Nothing is claimed of the outcome.
#[verifier::external_body]
pub(crate) fn core_sys_state_get_keys(engine: &mut Engine) -> (r: Result<u32, Told>)
    ensures
        final(engine).took(*old(engine), EngineCall::SysStateGetKeys),
{
    VM::sys_state_get_keys(&mut engine.vm)
        .map(Into::into)
        .map_err(|e| Told { code: e.code(), text: e.to_string() })
}

/// `VM::sys_state_set`. Nothing is claimed of the outcome.
#[verifier::external_body]
pub(crate) fn core_sys_state_set(
    engine: &mut Engine,
    key: String,
    value: Vec<u8>,
) -> (r: Result<(), Told>)
    ensures
        final(engine).took(*old(engine), EngineCall::SysStateSet { key: key@, value: value@ }),
{
    VM::sys_state_set(&mut engine.vm, key, value.into())
        .map_err(|e| Told { code: e.code(), text: e.to_string() })
}

/// `VM::sys_state_clear`. Nothing is claimed of the outcome.
#[verifier::external_body]
pub(crate) fn core_sys_state_clear(engine: &mut Engine, key: String) -> (r: Result<(), Told>)
    ensures
        final(engine).took(*old(engine), EngineCall::SysStateClear(key@)),
{
    VM::sys_state_clear(&mut engine.vm, key)
        .map_err(|e| Told { code: e.code(), text: e.to_string() })
}

/// `VM::sys_state_clear_all`. Nothing is claimed of the outcome.
#[verifier::external_body]
pub(crate) fn core_sys_state_clear_all(engine: &mut Engine) -> (r: Result<(), Told>)
    ensures
        final(engine).took(*old(engine), EngineCall::SysStateClearAll),
{
    VM::sys_state_clear_all(&mut engine.vm)
        .map_err(|e| Told { code: e.code(), text: e.to_string() })
}

/// `VM::sys_sleep`, the times made by `Duration::from_millis`. For a
/// diagnostic line the engine subtracts the present time from the time to
/// wake up, which fails where the first is the later: that is left out.
/// Nothing is claimed of the outcome.
#[verifier::external_body]
pub(crate) fn core_sys_sleep(
    engine: &mut Engine,
    name: String,
    wake_up_millis: u64,
    now_millis: Option<u64>,
) -> (r: Result<u32, Told>)
    requires
        now_millis is Some ==> now_millis.unwrap() <= wake_up_millis,
    ensures
        final(engine).took(
            *old(engine),
            EngineCall::SysSleep { name: name@, wake_up_millis, now_millis },
        ),
{
    let wake_up = Duration::from_millis(wake_up_millis);
    VM::sys_sleep(&mut engine.vm, name, wake_up, now_millis.map(Duration::from_millis))
        .map(Into::into)
        .map_err(|e| Told { code: e.code(), text: e.to_string() })
}

/// `VM::sys_awakeable`: the identifier and the notification handle of a
/// new awakeable. Nothing is claimed of the outcome.
#[verifier::external_body]
pub(crate) fn core_sys_awakeable(engine: &mut Engine) -> (r: Result<(String, u32), Told>)
    ensures
        final(engine).took(*old(engine), EngineCall::SysAwakeable),
{
    VM::sys_awakeable(&mut engine.vm)
        .map(|(id, handle)| (id, handle.into()))
        .map_err(|e| Told { code: e.code(), text: e.to_string() })
}

/// A definite outcome as the engine's `NonEmptyValue`, variant by variant.
/// The calls that hand the engine a definite outcome make it by this.
#[verifier::external_body]
fn engine_value(v: DefiniteValue) -> (r: restate_sdk_shared_core::NonEmptyValue) {
    match v {
        DefiniteValue::Success(b) => restate_sdk_shared_core::NonEmptyValue::Success(b.into()),
        DefiniteValue::Failure(t) => restate_sdk_shared_core::NonEmptyValue::Failure(
            restate_sdk_shared_core::TerminalFailure { code: t.code, message: t.message },
        ),
    }
}

/// `VM::sys_complete_awakeable`, the outcome as [`engine_value`] makes it.
/// Nothing is claimed of the outcome of the call.
#[verifier::external_body]
pub(crate) fn core_sys_complete_awakeable(
    engine: &mut Engine,
    id: String,
    value: DefiniteValue,
) -> (r: Result<(), Told>)
    ensures
        final(engine).took(
            *old(engine),
            EngineCall::SysCompleteAwakeable { id: id@, outcome: value@ },
        ),
{
    VM::sys_complete_awakeable(&mut engine.vm, id, engine_value(value))
        .map_err(|e| Told { code: e.code(), text: e.to_string() })
}

/// A target as the engine's `Target`, field by field. The calls that hand
/// the engine a target make it by this.
#[verifier::external_body]
fn engine_target(t: CallTarget) -> (r: restate_sdk_shared_core::Target) {
    let plain = |h: Header| {
        restate_sdk_shared_core::Header { key: h.key.into(), value: h.value.into() }
    };
    restate_sdk_shared_core::Target {
        service: t.service,
        handler: t.handler,
        key: t.key,
        idempotency_key: t.idempotency_key,
        headers: t.headers.into_iter().map(plain).collect(),
    }
}

/// `VM::sys_call`, the target as [`engine_target`] makes it: the
/// notification handle of the called invocation's identifier, and that of
/// its result. Nothing is claimed of the outcome.
#[verifier::external_body]
pub(crate) fn core_sys_call(
    engine: &mut Engine,
    target: CallTarget,
    input: Vec<u8>,
) -> (r: Result<(u32, u32), Told>)
    ensures
        final(engine).took(*old(engine), EngineCall::SysCall { target: target@, input: input@ }),
{
    VM::sys_call(&mut engine.vm, engine_target(target), input.into())
        .map(|h| (h.invocation_id_notification_handle.into(), h.call_notification_handle.into()))
        .map_err(|e| Told { code: e.code(), text: e.to_string() })
}

/// `VM::sys_send`, the target as [`engine_target`] makes it and the time
/// made by `Duration::from_millis`: the notification handle of the called
/// invocation's identifier. Nothing is claimed of the outcome.
#[verifier::external_body]
pub(crate) fn core_sys_send(
    engine: &mut Engine,
    target: CallTarget,
    input: Vec<u8>,
    execution_time_millis: Option<u64>,
) -> (r: Result<u32, Told>)
    ensures
        final(engine).took(
            *old(engine),
            EngineCall::SysSend { target: target@, input: input@, execution_time_millis },
        ),
{
    let at = execution_time_millis.map(Duration::from_millis);
    VM::sys_send(&mut engine.vm, engine_target(target), input.into(), at)
        .map(|h| h.invocation_id_notification_handle.into())
        .map_err(|e| Told { code: e.code(), text: e.to_string() })
}

/// `VM::sys_cancel_invocation`. Nothing is claimed of the outcome.
#[verifier::external_body]
pub(crate) fn core_sys_cancel_invocation(
    engine: &mut Engine,
    invocation_id: String,
) -> (r: Result<(), Told>)
    ensures
        final(engine).took(*old(engine), EngineCall::SysCancelInvocation(invocation_id@)),
{
    VM::sys_cancel_invocation(&mut engine.vm, invocation_id)
        .map_err(|e| Told { code: e.code(), text: e.to_string() })
}

/// `VM::sys_attach_invocation`, the target being the invocation with the
/// given identifier. Nothing is claimed of the outcome.
#[verifier::external_body]
pub(crate) fn core_sys_attach_invocation(
    engine: &mut Engine,
    invocation_id: String,
) -> (r: Result<u32, Told>)
    ensures
        final(engine).took(*old(engine), EngineCall::SysAttachInvocation(invocation_id@)),
{
    let target = restate_sdk_shared_core::AttachInvocationTarget::InvocationId(invocation_id);
    VM::sys_attach_invocation(&mut engine.vm, target)
        .map(Into::into)
        .map_err(|e| Told { code: e.code(), text: e.to_string() })
}

/// `VM::sys_get_promise`. Nothing is claimed of the outcome.
#[verifier::external_body]
pub(crate) fn core_sys_get_promise(engine: &mut Engine, key: String) -> (r: Result<u32, Told>)
    ensures
        final(engine).took(*old(engine), EngineCall::SysGetPromise(key@)),
{
    VM::sys_get_promise(&mut engine.vm, key)
        .map(Into::into)
        .map_err(|e| Told { code: e.code(), text: e.to_string() })
}

/// `VM::sys_peek_promise`. Nothing is claimed of the outcome.
#[verifier::external_body]
pub(crate) fn core_sys_peek_promise(engine: &mut Engine, key: String) -> (r: Result<u32, Told>)
    ensures
        final(engine).took(*old(engine), EngineCall::SysPeekPromise(key@)),
{
    VM::sys_peek_promise(&mut engine.vm, key)
        .map(Into::into)
        .map_err(|e| Told { code: e.code(), text: e.to_string() })
}

/// `VM::sys_complete_promise`, the outcome as [`engine_value`] makes it.
/// Nothing is claimed of the outcome of the call.
#[verifier::external_body]
pub(crate) fn core_sys_complete_promise(
    engine: &mut Engine,
    key: String,
    value: DefiniteValue,
) -> (r: Result<u32, Told>)
    ensures
        final(engine).took(
            *old(engine),
            EngineCall::SysCompletePromise { key: key@, outcome: value@ },
        ),
{
    VM::sys_complete_promise(&mut engine.vm, key, engine_value(value))
        .map(Into::into)
        .map_err(|e| Told { code: e.code(), text: e.to_string() })
}

/// `VM::sys_run`. Nothing is claimed of the outcome. The call reaches the
/// engine alone: where it gives a handle, [`Engine::run`] puts it on the
/// record of open run blocks.
#[verifier::external_body]
fn core_sys_run(engine: &mut Engine, name: String) -> (r: Result<u32, Told>)
    ensures
        final(engine).took(*old(engine), EngineCall::SysRun(name@)),
{
    VM::sys_run(&mut engine.vm, name)
        .map(Into::into)
        .map_err(|e| Told { code: e.code(), text: e.to_string() })
}

/// How a run block ended as the engine's `RunExitResult`, variant by
/// variant; the duration made by `Duration::from_millis`, the error of a
/// failure that may be tried again by `Error::new`.
#[verifier::external_body]
fn engine_exit(result: RunOutcome) -> (r: restate_sdk_shared_core::RunExitResult) {
    match result {
        RunOutcome::Success(b) => restate_sdk_shared_core::RunExitResult::Success(b.into()),
        RunOutcome::TerminalFailure(t) => restate_sdk_shared_core::RunExitResult::TerminalFailure(
            restate_sdk_shared_core::TerminalFailure { code: t.code, message: t.message },
        ),
        RunOutcome::RetryableFailure { attempt_duration_millis, code, message } => {
            restate_sdk_shared_core::RunExitResult::RetryableFailure {
                attempt_duration: Duration::from_millis(attempt_duration_millis),
                error: restate_sdk_shared_core::Error::new(code, message),
            }
        },
    }
}

/// A policy as the engine's `RetryPolicy`, variant by variant and field by
/// field; the durations made by `Duration::from_millis`. The factor arrives
/// as the four bytes of its written form, and `float::merge` of prost reads
/// them into the number that the engine takes.
#[verifier::external_body]
fn engine_policy(policy: RetryRule) -> (r: restate_sdk_shared_core::RetryPolicy) {
    match policy {
        RetryRule::Never => restate_sdk_shared_core::RetryPolicy::None,
        RetryRule::Exponential {
            initial_interval_millis: first, factor_bits, max_interval_millis: longest,
            max_attempts, max_duration_millis: total,
        } => {
            let (mut factor, mut raw) = (Default::default(), &factor_bits.to_le_bytes()[..]);
            let _ = float::merge(WireType::ThirtyTwoBit, &mut factor, &mut raw, Default::default());
            restate_sdk_shared_core::RetryPolicy::Exponential {
                initial_interval: Duration::from_millis(first), factor, max_attempts,
                max_interval: longest.map(Duration::from_millis),
                max_duration: total.map(Duration::from_millis),
            }
        },
    }
}

/// `VM::sys_write_output`, the outcome as [`engine_value`] makes it.
/// Nothing is claimed of the outcome of the call.
#[verifier::external_body]
pub(crate) fn core_sys_write_output(
    engine: &mut Engine,
    value: DefiniteValue,
) -> (r: Result<(), Told>)
    ensures
        final(engine).took(*old(engine), EngineCall::SysWriteOutput(value@)),
{
    VM::sys_write_output(&mut engine.vm, engine_value(value))
        .map_err(|e| Told { code: e.code(), text: e.to_string() })
}

/// `VM::sys_end`. Nothing is claimed of the outcome.
#[verifier::external_body]
pub(crate) fn core_sys_end(engine: &mut Engine) -> (r: Result<(), Told>)
    ensures
        final(engine).took(*old(engine), EngineCall::SysEnd),
{
    VM::sys_end(&mut engine.vm).map_err(|e| Told { code: e.code(), text: e.to_string() })
}

/// `VM::propose_run_completion`, how the run block ended as [`engine_exit`]
/// makes it and the policy as [`engine_policy`] makes it. Nothing is claimed
/// of the outcome.
///
/// The engine looks the handle up among those it gave out and expects to
/// find a run block there, so the handle must be on the record of open run
/// blocks; the engine gave it out since its one start frame, see
/// [`core_notify_input`].
///
/// When a run block fails and may be tried again, the engine adds one to
/// the count of attempts, which is below the largest there is, and
/// multiplies the initial interval by the factor to the power of the count
/// less one (`Duration::mul_f32` and `powi`), before it looks at the longest
/// interval. That fails where the product is negative, not a number, or at
/// least two to the 64th seconds. It does so only for a count below the most
/// attempts of the policy. So the policy must be safe: the factor finite and
/// not negative, and the most attempts so few that the product stays below
/// two to the 61st seconds at every count below them. How few,
/// [`crate::domain::safe_attempts`] says.
#[verifier::external_body]
pub(crate) fn core_propose_run_completion(
    engine: &mut Engine,
    handle: u32,
    result: RunOutcome,
    policy: RetryRule,
) -> (r: Result<(), Told>)
    requires
        old(engine).open().contains(handle),
        policy_is_safe(policy),
    ensures
        final(engine).took(
            *old(engine),
            EngineCall::ProposeRunCompletion { handle, result: result@, policy },
        ),
{
    let (exit, rule) = (engine_exit(result), engine_policy(policy));
    VM::propose_run_completion(&mut engine.vm, handle.into(), exit, rule)
        .map_err(|e| Told { code: e.code(), text: e.to_string() })
}

} // verus!
