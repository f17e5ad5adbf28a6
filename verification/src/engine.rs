//! The invocation engine, as this boundary sees it.
//!
//! Nothing of the engine's state machine is known here. What an operation
//! returns depends on that state, so the calls into it promise nothing about
//! their results; [`WasmVM`] turns each result into plain values and leaves
//! it to others to say what answers each value.
//!
//! Three things are kept beside the engine, because it ends the process
//! where it finds its own bookkeeping broken:
//!
//! - the handles of the run blocks that it has opened and whose value has
//!   not been taken: the completion of a run must name one of them;
//! - whether a frame that starts an invocation has been handed to it: the
//!   input stream is sifted, see [`crate::frames`], so that it gets whole
//!   frames of kinds that it knows only, one start frame at most, and none
//!   whose count of attempts is the largest there is;
//! - that it was constructed not to cancel the calls of an invocation on its
//!   own, so that it keeps no list of them of which it would assert that
//!   each completes with an identifier.
//!
//! For the contracts, an instance also carries the record of every call that
//! was made into its engine and with what: so a function that stands for one
//! call can say which call it made. The record is kept where the calls are
//! made, in [`crate::calls`].
use vstd::prelude::*;
use crate::calls::{
    core_do_progress, core_get_response_head, core_is_completed, core_is_ready_to_execute,
    core_new, core_notify_error, core_notify_input_closed, core_propose_run_completion,
    core_sys_attach_invocation, core_sys_awakeable, core_sys_call, core_sys_cancel_invocation,
    core_sys_complete_awakeable, core_sys_complete_promise, core_sys_end, core_sys_get_promise,
    core_sys_input, core_sys_peek_promise, core_sys_send, core_sys_sleep, core_sys_state_clear,
    core_sys_state_clear_all, core_sys_state_get, core_sys_state_get_keys, core_sys_state_set,
    core_sys_write_output, core_take_output, plain_value, Engine, EngineCall, Stopped, Told,
};
use crate::common::{Failure, FailureModel, Header, HeaderModel};
use crate::domain::{
    failure_from, hand_policy, policy_handed, CallTarget, DefiniteValue, Halt, HaltModel,
    NotificationValue, Progress, RetryRule, RunOutcome, RunOutcomeModel,
};
use crate::fault::Fault;
use crate::frames::{lemma_sift_again, sift, sift_bytes};
use crate::headers::{first_match, WasmHeaders};
use crate::responses::InputReturn;
use crate::wire::put_bytes;

verus! {

/// The content type of the one version of the protocol that the engine
/// speaks.
pub open spec fn protocol_content_type() -> Seq<char> {
    "application/vnd.restate.invocation.v5"@
}

/// Whether the engine lets itself be constructed from these headers: the
/// first header whose key is `content-type`, ignoring the case of ASCII
/// letters, must have the content type of the protocol as its value, to the
/// letter.
pub open spec fn accepted(headers: Seq<HeaderModel>) -> bool {
    exists|i: int|
        first_match(headers, "content-type"@, i) && (#[trigger] headers[i]).value
            == protocol_content_type()
}

/// What an error of the engine is reported as.
closed spec fn failure_model(told: Told) -> FailureModel {
    FailureModel { code: told.code as u32, message: told.text@ }
}

/// The failure message for an engine error: its code and its text.
fn failure_of(told: Told) -> (r: Failure)
    ensures
        r@ == failure_model(told),
{
    failure_from(told.code, told.text)
}

/// An outcome with the engine's error made a failure message.
fn reported<T>(outcome: Result<T, Told>) -> (r: Result<T, Failure>)
    ensures
        match outcome {
            Ok(x) => r == Ok::<T, Failure>(x),
            Err(told) => r is Err && r->Err_0@ == failure_model(told),
        },
{
    match outcome {
        Ok(x) => Ok(x),
        Err(told) => Err(failure_of(told)),
    }
}

/// An outcome with what stopped the engine made plain. A suspended engine
/// stays suspended and a failed one failed, with the code and the text of
/// its error: the one is never made the other.
fn halted<T>(outcome: Result<T, Stopped>) -> (r: Result<T, Halt>)
    ensures
        match outcome {
            Ok(x) => r == Ok::<T, Halt>(x),
            Err(Stopped::Suspended) => r is Err && r->Err_0@ == HaltModel::Suspended,
            Err(Stopped::Failed(told)) => r is Err && r->Err_0@ == HaltModel::Failed(
                failure_model(told),
            ),
        },
{
    match outcome {
        Ok(x) => Ok(x),
        Err(Stopped::Suspended) => Err(Halt::Suspended),
        Err(Stopped::Failed(told)) => Err(Halt::Failed(failure_of(told))),
    }
}

/// What asking for the value of a notification came to, made plain: a
/// value where the engine gave one, nothing where it gave none, suspended
/// where it was suspended, and failed where it failed, with the code and the
/// text of its error.
fn taken(outcome: Result<Option<restate_sdk_shared_core::Value>, Stopped>) -> (r: Result<
    Option<NotificationValue>,
    Halt,
>)
    ensures
        match outcome {
            Ok(Some(_)) => r is Ok && r->Ok_0 is Some,
            Ok(None) => r is Ok && r->Ok_0 is None,
            Err(Stopped::Suspended) => r is Err && r->Err_0@ == HaltModel::Suspended,
            Err(Stopped::Failed(told)) => r is Err && r->Err_0@ == HaltModel::Failed(
                failure_model(told),
            ),
        },
{
    match halted(outcome) {
        Ok(Some(v)) => Ok(Some(plain_value(v))),
        Ok(None) => Ok(None),
        Err(halt) => Err(halt),
    }
}

/// The code of the error that the engine is told of where the input stream
/// ends at a frame that does not pass.
pub const REFUSED_FRAME_CODE: u16 = 571;

/// One engine instance.
///
/// Beside the engine it holds the bytes of the input stream that do not yet
/// make a whole frame, and whether the stream has ended at a frame that did
/// not pass; and, for the contracts alone, the headers that it was
/// constructed from.
pub struct WasmVM {
    engine: Engine,
    pending: Vec<u8>,
    shut: bool,
    origin: Ghost<Seq<HeaderModel>>,
}

impl WasmVM {
    /// The handles of the run blocks that the engine has opened and whose
    /// value has not been taken.
    pub closed spec fn open_runs(self) -> Set<u32> {
        self.engine.open()
    }

    /// The headers that the instance was constructed from.
    pub closed spec fn origin(self) -> Seq<HeaderModel> {
        self.origin@
    }

    /// The calls that were made into the engine since it was constructed,
    /// in order. Reading the head of the response is not among them: it
    /// is settled when the engine is constructed.
    pub closed spec fn calls(self) -> Seq<EngineCall> {
        self.engine.calls()
    }

    /// Whether a frame that starts an invocation has been handed to the
    /// engine.
    pub closed spec fn started(self) -> bool {
        self.engine.started()
    }

    /// The bytes of the input stream that have come and do not yet make a
    /// whole frame.
    pub closed spec fn pending(self) -> Seq<u8> {
        self.pending@
    }

    /// Whether the input stream has ended at a frame that did not pass.
    /// Nothing that comes after is handed to the engine.
    pub closed spec fn shut(self) -> bool {
        self.shut
    }

    /// Nothing of the input stream has changed since `before`.
    pub open spec fn same_stream(self, before: WasmVM) -> bool {
        &&& self.started() == before.started()
        &&& self.pending() == before.pending()
        &&& self.shut() == before.shut()
    }

    /// This is the instance `before` after one more call, which opened or
    /// closed no run block and took nothing of the input stream.
    pub open spec fn after(self, before: WasmVM, call: EngineCall) -> bool {
        &&& self.calls() == before.calls().push(call)
        &&& self.open_runs() == before.open_runs()
        &&& self.origin() == before.origin()
        &&& self.same_stream(before)
    }

    /// This is the instance `before` after `buffer` has come on the input
    /// stream. Once the stream is shut nothing happens. Otherwise the bytes
    /// that were pending and the new ones are sifted together: the whole
    /// frames that pass are handed to the engine in one call, and the rest
    /// is pending from now on; but where a frame is refused, the engine is
    /// told of an error after that call, the rest is dropped, and the
    /// stream is shut.
    pub open spec fn fed(self, before: WasmVM, buffer: Seq<u8>) -> bool {
        if before.shut() {
            self.untouched(before)
        } else {
            let all = before.pending() + buffer;
            let sifted = sift(before.started(), all);
            let handed = before.calls().push(
                EngineCall::NotifyInput(all.take(sifted.whole as int)),
            );
            &&& self.open_runs() == before.open_runs()
            &&& self.origin() == before.origin()
            &&& self.started() == sifted.started
            &&& match sifted.refusal {
                Some(why) => {
                    &&& self.shut()
                    &&& self.pending() == Seq::<u8>::empty()
                    &&& self.calls() == handed.push(
                        EngineCall::NotifyError {
                            code: REFUSED_FRAME_CODE,
                            message: why.spec_text(),
                        },
                    )
                },
                None => {
                    &&& !self.shut()
                    &&& self.pending() == all.skip(sifted.whole as int)
                    &&& self.calls() == handed
                },
            }
        }
    }

    /// No call was made into the instance since `before`.
    pub open spec fn untouched(self, before: WasmVM) -> bool {
        &&& self.calls() == before.calls()
        &&& self.open_runs() == before.open_runs()
        &&& self.origin() == before.origin()
        &&& self.same_stream(before)
    }

    /// Constructs an engine instance from the headers of the request that
    /// started the invocation, where the engine accepts them. No run block
    /// is open in the new instance, no call was made into it, and nothing
    /// of the input stream has come.
    ///
    /// The engine is constructed to notice a cancel signal and to cancel
    /// nothing on its own: by default it would cancel, on such a signal, the
    /// calls that the invocation has made, and for that keep a list of them
    /// of which it asserts what no caller can check. Handler code that gets
    /// [`Progress::CancelSignalReceived`] cancels the calls that it wants
    /// cancelled itself.
    pub fn new(headers: &WasmHeaders) -> (r: Result<WasmVM, Failure>)
        ensures
            r is Ok <==> accepted(headers@),
            match r {
                Ok(vm) => {
                    &&& vm.origin() == headers@
                    &&& vm.calls() == Seq::<EngineCall>::empty()
                    &&& vm.open_runs() == Set::<u32>::empty()
                    &&& !vm.started()
                    &&& !vm.shut()
                    &&& vm.pending() == Seq::<u8>::empty()
                },
                Err(_) => true,
            },
    {
        match core_new(headers) {
            Ok(vm) => {
                Ok(
                    WasmVM {
                        engine: Engine::fresh(vm),
                        pending: Vec::new(),
                        shut: false,
                        origin: Ghost(headers@),
                    },
                )
            },
            Err(told) => Err(failure_of(told)),
        }
    }

    /// The status code and the headers of the response: 200, and the
    /// content type of the protocol.
    pub(crate) fn get_response_head(&self) -> (r: (u16, Vec<Header>))
        ensures
            r.0 == 200,
            r.1@.len() == 1,
            r.1@[0]@.key == "content-type"@,
            r.1@[0]@.value == protocol_content_type(),
    {
        core_get_response_head(&self.engine)
    }

    /// Asks the engine whether handler code may start. The answer is the
    /// engine's; the question is put on the record of calls.
    pub(crate) fn is_ready_to_execute(&mut self) -> (r: Result<bool, Failure>)
        ensures
            final(self).after(*old(self), EngineCall::IsReadyToExecute),
    {
        reported(core_is_ready_to_execute(&mut self.engine))
    }

    /// Asks the engine whether the notification behind `handle` has a
    /// value. The answer is the engine's; the question, with the handle that
    /// it was asked of, is put on the record of calls.
    pub(crate) fn is_completed(&mut self, handle: u32) -> (r: bool)
        ensures
            final(self).after(*old(self), EngineCall::IsCompleted(handle)),
    {
        core_is_completed(&mut self.engine, handle)
    }

    /// Takes bytes of the input stream: sifts them, hands the engine the
    /// whole frames that pass, and keeps the rest for the next time. Where
    /// a frame is refused the engine is told of an error, and the stream is
    /// shut.
    pub fn notify_input(&mut self, buffer: Vec<u8>)
        ensures
            final(self).fed(*old(self), buffer@),
    {
        if self.shut {
            return ;
        }
        let ghost all = self.pending@ + buffer@;
        let mut frames: Vec<u8> = Vec::new();
        put_bytes(&mut frames, self.pending.as_slice());
        put_bytes(&mut frames, buffer.as_slice());
        assert(frames@ =~= all);
        let (whole, started, refusal) = sift_bytes(self.engine.has_started(), frames.as_slice());
        proof {
            lemma_sift_again(self.engine.started(), all);
        }
        let rest = frames.split_off(whole);
        assert(frames@ =~= all.take(whole as int));
        assert(rest@ =~= all.skip(whole as int));
        self.engine.feed(frames, started);
        match refusal {
            Some(why) => {
                self.pending = Vec::new();
                self.shut = true;
                core_notify_error(&mut self.engine, REFUSED_FRAME_CODE, why.text().to_owned());
            },
            None => {
                self.pending = rest;
            },
        }
    }

    /// Tells the engine that the input stream has ended.
    pub fn notify_input_closed(&mut self)
        ensures
            final(self).after(*old(self), EngineCall::NotifyInputClosed),
    {
        core_notify_input_closed(&mut self.engine)
    }

    /// Tells the engine of an error with the given code and message.
    pub fn notify_error(&mut self, code: u16, message: String)
        ensures
            final(self).after(*old(self), EngineCall::NotifyError { code, message: message@ }),
    {
        core_notify_error(&mut self.engine, code, message)
    }

    /// The bytes that the engine wants sent; nothing at the end of output.
    pub fn take_output(&mut self) -> (r: Option<Vec<u8>>)
        ensures
            final(self).after(*old(self), EngineCall::TakeOutput),
    {
        core_take_output(&mut self.engine)
    }

    /// Advances the engine by one step.
    pub fn do_progress(&mut self, handles: Vec<u32>) -> (r: Result<Progress, Halt>)
        ensures
            final(self).after(*old(self), EngineCall::DoProgress(handles@)),
    {
        halted(core_do_progress(&mut self.engine, handles))
    }

    /// The input of the invocation.
    pub fn sys_input(&mut self) -> (r: Result<InputReturn, Failure>)
        ensures
            final(self).after(*old(self), EngineCall::SysInput),
    {
        reported(core_sys_input(&mut self.engine))
    }

    /// Starts reading one state entry.
    pub fn sys_state_get(&mut self, key: String) -> (r: Result<u32, Failure>)
        ensures
            final(self).after(*old(self), EngineCall::SysStateGet(key@)),
    {
        reported(core_sys_state_get(&mut self.engine, key))
    }

    /// Starts reading the keys of the state entries.
    pub fn sys_state_get_keys(&mut self) -> (r: Result<u32, Failure>)
        ensures
            final(self).after(*old(self), EngineCall::SysStateGetKeys),
    {
        reported(core_sys_state_get_keys(&mut self.engine))
    }

    /// Writes one state entry.
    pub fn sys_state_set(&mut self, key: String, value: Vec<u8>) -> (r: Result<(), Failure>)
        ensures
            final(self).after(*old(self), EngineCall::SysStateSet { key: key@, value: value@ }),
    {
        reported(core_sys_state_set(&mut self.engine, key, value))
    }

    /// Removes one state entry.
    pub fn sys_state_clear(&mut self, key: String) -> (r: Result<(), Failure>)
        ensures
            final(self).after(*old(self), EngineCall::SysStateClear(key@)),
    {
        reported(core_sys_state_clear(&mut self.engine, key))
    }

    /// Removes every state entry.
    pub fn sys_state_clear_all(&mut self) -> (r: Result<(), Failure>)
        ensures
            final(self).after(*old(self), EngineCall::SysStateClearAll),
    {
        reported(core_sys_state_clear_all(&mut self.engine))
    }

    /// Makes a new awakeable.
    pub fn sys_awakeable(&mut self) -> (r: Result<(String, u32), Failure>)
        ensures
            final(self).after(*old(self), EngineCall::SysAwakeable),
    {
        reported(core_sys_awakeable(&mut self.engine))
    }

    /// Completes an awakeable.
    pub fn sys_complete_awakeable(
        &mut self,
        id: String,
        value: DefiniteValue,
    ) -> (r: Result<(), Failure>)
        ensures
            final(self).after(
                *old(self),
                EngineCall::SysCompleteAwakeable { id: id@, outcome: value@ },
            ),
    {
        reported(core_sys_complete_awakeable(&mut self.engine, id, value))
    }

    /// Starts a call.
    pub fn sys_call(
        &mut self,
        target: CallTarget,
        input: Vec<u8>,
    ) -> (r: Result<(u32, u32), Failure>)
        ensures
            final(self).after(*old(self), EngineCall::SysCall { target: target@, input: input@ }),
    {
        reported(core_sys_call(&mut self.engine, target, input))
    }

    /// Starts a call that nobody waits for.
    pub fn sys_send(
        &mut self,
        target: CallTarget,
        input: Vec<u8>,
        execution_time_millis: Option<u64>,
    ) -> (r: Result<u32, Failure>)
        ensures
            final(self).after(
                *old(self),
                EngineCall::SysSend { target: target@, input: input@, execution_time_millis },
            ),
    {
        reported(
            core_sys_send(&mut self.engine, target, input, execution_time_millis),
        )
    }

    /// Asks another invocation to cancel.
    pub fn sys_cancel_invocation(&mut self, invocation_id: String) -> (r: Result<(), Failure>)
        ensures
            final(self).after(*old(self), EngineCall::SysCancelInvocation(invocation_id@)),
    {
        reported(core_sys_cancel_invocation(&mut self.engine, invocation_id))
    }

    /// Starts waiting for the result of another invocation.
    pub fn sys_attach_invocation(&mut self, invocation_id: String) -> (r: Result<u32, Failure>)
        ensures
            final(self).after(*old(self), EngineCall::SysAttachInvocation(invocation_id@)),
    {
        reported(core_sys_attach_invocation(&mut self.engine, invocation_id))
    }

    /// Starts waiting for a promise.
    pub fn sys_get_promise(&mut self, key: String) -> (r: Result<u32, Failure>)
        ensures
            final(self).after(*old(self), EngineCall::SysGetPromise(key@)),
    {
        reported(core_sys_get_promise(&mut self.engine, key))
    }

    /// Starts looking at a promise.
    pub fn sys_peek_promise(&mut self, key: String) -> (r: Result<u32, Failure>)
        ensures
            final(self).after(*old(self), EngineCall::SysPeekPromise(key@)),
    {
        reported(core_sys_peek_promise(&mut self.engine, key))
    }

    /// Starts completing a promise.
    pub fn sys_complete_promise(
        &mut self,
        key: String,
        value: DefiniteValue,
    ) -> (r: Result<u32, Failure>)
        ensures
            final(self).after(
                *old(self),
                EngineCall::SysCompletePromise { key: key@, outcome: value@ },
            ),
    {
        reported(core_sys_complete_promise(&mut self.engine, key, value))
    }

    /// Writes the output of the invocation.
    pub fn sys_write_output(&mut self, value: DefiniteValue) -> (r: Result<(), Failure>)
        ensures
            final(self).after(*old(self), EngineCall::SysWriteOutput(value@)),
    {
        reported(core_sys_write_output(&mut self.engine, value))
    }

    /// Ends the invocation.
    pub fn sys_end(&mut self) -> (r: Result<(), Failure>)
        ensures
            final(self).after(*old(self), EngineCall::SysEnd),
    {
        reported(core_sys_end(&mut self.engine))
    }

    /// Starts a sleep until the given time. The present time is for a
    /// diagnostic line of the engine and must not be later than the time to
    /// wake up.
    pub fn sys_sleep(&mut self, name: String, wake_up_millis: u64, now_millis: Option<u64>) -> (r:
        Result<u32, Failure>)
        requires
            now_millis is Some ==> now_millis.unwrap() <= wake_up_millis,
        ensures
            final(self).after(
                *old(self),
                EngineCall::SysSleep { name: name@, wake_up_millis, now_millis },
            ),
    {
        reported(core_sys_sleep(&mut self.engine, name, wake_up_millis, now_millis))
    }

    /// Takes the value of a notification, if it has one. A run block whose
    /// value is taken is open no more.
    pub fn take_notification(&mut self, handle: u32) -> (r: Result<Option<NotificationValue>, Halt>)
        ensures
            final(self).calls() == old(self).calls().push(EngineCall::TakeNotification(handle)),
            final(self).origin() == old(self).origin(),
            final(self).same_stream(*old(self)),
            final(self).open_runs() == if r is Ok && r.unwrap() is Some {
                old(self).open_runs().remove(handle)
            } else {
                old(self).open_runs()
            },
    {
        taken(self.engine.take(handle))
    }

    /// Opens a run block. Where the engine gives a handle for it, the run
    /// block is open from now on.
    pub fn sys_run(&mut self, name: String) -> (r: Result<u32, Failure>)
        ensures
            final(self).calls() == old(self).calls().push(EngineCall::SysRun(name@)),
            final(self).origin() == old(self).origin(),
            final(self).same_stream(*old(self)),
            final(self).open_runs() == match r {
                Ok(handle) => old(self).open_runs().insert(handle),
                Err(_) => old(self).open_runs(),
            },
    {
        reported(self.engine.run(name))
    }

    /// Whether a run block is open.
    pub fn is_open_run(&self, handle: u32) -> (r: bool)
        ensures
            r == self.open_runs().contains(handle),
    {
        self.engine.is_open_run(handle)
    }

    /// Why a report on a run block is refused before it reaches the engine,
    /// if it is: the run block must be open, and where it ended in a failure
    /// that may be tried again, the policy must be sound.
    pub open spec fn run_refusal(
        self,
        handle: u32,
        result: RunOutcomeModel,
        policy: RetryRule,
    ) -> Option<Fault> {
        if !self.open_runs().contains(handle) {
            Some(Fault::UnknownRun)
        } else if policy_handed(result, policy) is None {
            Some(Fault::UnsoundPolicy)
        } else {
            None
        }
    }

    /// Reports how a run block ended. The outer result says whether the
    /// report reached the engine; the inner one is the engine's. The engine
    /// reads the policy only where the run block ended in a failure that may
    /// be tried again: it gets the policy then, with its most attempts
    /// capped, and the policy of no retry otherwise, see [`policy_handed`].
    pub fn propose_run_completion(
        &mut self,
        handle: u32,
        result: RunOutcome,
        policy: RetryRule,
    ) -> (r: Result<Result<(), Failure>, Fault>)
        ensures
            match old(self).run_refusal(handle, result@, policy) {
                Some(fault) => r == Err::<Result<(), Failure>, Fault>(fault)
                    && final(self).untouched(*old(self)),
                None => r is Ok && final(self).after(
                    *old(self),
                    EngineCall::ProposeRunCompletion {
                        handle,
                        result: result@,
                        policy: policy_handed(result@, policy).unwrap(),
                    },
                ),
            },
    {
        if !self.is_open_run(handle) {
            return Err(Fault::UnknownRun);
        }
        match hand_policy(&result, policy) {
            None => Err(Fault::UnsoundPolicy),
            Some(handed) => Ok(
                reported(core_propose_run_completion(&mut self.engine, handle, result, handed)),
            ),
        }
    }
}

} // verus!
