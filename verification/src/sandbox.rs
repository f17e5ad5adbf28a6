//! The boundary whole: buffers, instances and operations behind the few
//! plain numbers that cross.
//!
//! This is the boundary for a host that has no window into the memory of the
//! sandbox: requests and answers live in the table of buffers, and every
//! call names its request by address and length and gets its answer as one
//! packed number. A call first resolves the handle, then absorbs the
//! request, performs the operation, and puts the answer into a fresh buffer
//! that from then on belongs to the host.
use vstd::prelude::*;
use crate::boundary::{
    answered_with_failure, answered_with_instance, call, expected, reply_view, vm_free, vm_new,
    Operation, Reply, ReplyModel,
};
use crate::common::HeaderModel;
use crate::engine::{accepted, WasmVM};
use crate::fault::Fault;
use crate::memory::{
    is_free, no_address_left, packed, refusal, with_buffer, without_buffer, zeros, Memory,
};
use crate::message::decoded;
use crate::registry::{free_refusal, freed, resolve_refusal, Registry};
use crate::requests::VmNewParameters;

verus! {

/// Whether an operation reads a request from a buffer of the host.
pub open spec fn takes_input(op: Operation) -> bool {
    match op {
        Operation::GetResponseHead => false,
        Operation::NotifyInputClosed => false,
        Operation::TakeOutput => false,
        Operation::IsReadyToExecute => false,
        Operation::IsCompleted(_) => false,
        Operation::TakeNotification(_) => false,
        Operation::SysInput => false,
        Operation::SysStateGetKeys => false,
        Operation::SysStateClearAll => false,
        Operation::SysAwakeable => false,
        Operation::SysEnd => false,
        _ => true,
    }
}

/// Whether an operation reads a request from a buffer of the host.
pub fn reads_buffer(op: Operation) -> (r: bool)
    ensures
        r == takes_input(op),
{
    match op {
        Operation::GetResponseHead => false,
        Operation::NotifyInputClosed => false,
        Operation::TakeOutput => false,
        Operation::IsReadyToExecute => false,
        Operation::IsCompleted(_) => false,
        Operation::TakeNotification(_) => false,
        Operation::SysInput => false,
        Operation::SysStateGetKeys => false,
        Operation::SysStateClearAll => false,
        Operation::SysAwakeable => false,
        Operation::SysEnd => false,
        _ => true,
    }
}

/// Why the request of an operation cannot be absorbed, if it cannot.
pub open spec fn input_refusal(
    op: Operation,
    table: Map<u32, Seq<u8>>,
    address: u32,
    len: u32,
) -> Option<Fault> {
    if takes_input(op) {
        refusal(table, address, len as nat)
    } else {
        None
    }
}

/// The bytes of the request of an operation.
pub open spec fn input_of(op: Operation, table: Map<u32, Seq<u8>>, address: u32) -> Seq<u8> {
    if takes_input(op) {
        table[address]
    } else {
        Seq::empty()
    }
}

/// The table of buffers after the request of an operation was absorbed.
pub open spec fn after_input(op: Operation, table: Map<u32, Seq<u8>>, address: u32) -> Map<
    u32,
    Seq<u8>,
> {
    if takes_input(op) {
        without_buffer(table, address)
    } else {
        table
    }
}

/// An answer in bytes reached the host: it is in a fresh buffer of the
/// table, and the number names that buffer. It did not reach the host
/// exactly where it is longer than 32 bits can count, which is the fault
/// `TooLarge`, or else where no address of the table was left, which is the
/// fault `Exhausted`; the table is then as it was.
pub open spec fn handed_over(
    before: Map<u32, Seq<u8>>,
    after: Map<u32, Seq<u8>>,
    bytes: Seq<u8>,
    r: Result<u64, Fault>,
) -> bool {
    match r {
        Ok(value) => bytes.len() <= u32::MAX && exists|address: u32|
            {
                &&& is_free(before, address)
                &&& value == #[trigger] packed(address, bytes.len() as u32)
                &&& after == with_buffer(before, address, bytes)
            },
        Err(fault) => after == before && if bytes.len() > u32::MAX {
            fault == Fault::TooLarge
        } else {
            fault == Fault::Exhausted && no_address_left(before)
        },
    }
}

/// How the outcome of an operation reaches the host: a fault as it is,
/// nothing as zero, a number as itself, bytes in a fresh buffer.
pub open spec fn delivered(
    before: Map<u32, Seq<u8>>,
    after: Map<u32, Seq<u8>>,
    reply: Result<ReplyModel, Fault>,
    r: Result<u64, Fault>,
) -> bool {
    match reply {
        Err(fault) => r == Err::<u64, Fault>(fault) && after == before,
        Ok(ReplyModel::Nothing) => r == Ok::<u64, Fault>(0) && after == before,
        Ok(ReplyModel::Scalar(n)) => r == Ok::<u64, Fault>(n) && after == before,
        Ok(ReplyModel::Buffer(bytes)) => handed_over(before, after, bytes, r),
    }
}

/// The table of buffers and the table of instances of one sandbox.
pub struct Sandbox {
    memory: Memory,
    registry: Registry<WasmVM>,
}

/// The answer to the construction of an instance says what was done: where
/// the engine accepts the headers, it carries the handle of the instance
/// that was constructed from them; where not, it carries the failure, and
/// the table of instances is as it was.
pub open spec fn made(
    before: Sandbox,
    after: Sandbox,
    headers: Seq<HeaderModel>,
    answer: Seq<u8>,
) -> bool {
    if accepted(headers) {
        answered_with_instance(before.instances(), after.instances(), headers, answer)
    } else {
        answered_with_failure(answer) && after.counts() == before.counts()
    }
}

impl Sandbox {
    /// Both tables are well formed. `new` makes such a sandbox and every
    /// operation keeps it so.
    pub closed spec fn wf(self) -> bool {
        self.memory.wf() && self.registry.wf()
    }

    /// The live buffers, by address.
    pub closed spec fn buffers(self) -> Map<u32, Seq<u8>> {
        self.memory@
    }

    /// The table of instances.
    pub closed spec fn instances(self) -> Registry<WasmVM> {
        self.registry
    }

    /// The live instances, by handle, each with the count of who holds it.
    pub open spec fn counts(self) -> Map<u32, nat> {
        self.instances().counts()
    }

    /// The instance behind a live handle.
    pub open spec fn instance(self, handle: u32) -> WasmVM {
        self.instances().instance(handle)
    }

    /// A sandbox without buffers and without instances.
    pub fn new() -> (s: Sandbox)
        ensures
            s.wf(),
            s.buffers() == Map::<u32, Seq<u8>>::empty(),
            s.counts() == Map::<u32, nat>::empty(),
    {
        Sandbox { memory: Memory::new(), registry: Registry::new() }
    }

    /// Reserves a buffer of `size` zero bytes for the host and returns its
    /// address. This fails only where no address is left. See
    /// [`Memory::allocate`].
    pub fn allocate(&mut self, size: u32) -> (r: Result<u32, Fault>)
        requires
            old(self).wf(),
        ensures
            final(self).wf(),
            final(self).instances() == old(self).instances(),
            match r {
                Ok(address) => is_free(old(self).buffers(), address) && final(self).buffers()
                    == with_buffer(old(self).buffers(), address, zeros(size as nat)),
                Err(fault) => fault == Fault::Exhausted
                    && no_address_left(old(self).buffers())
                    && final(self).buffers() == old(self).buffers(),
            },
    {
        self.memory.allocate(size)
    }

    /// Takes a buffer back from the host. See [`Memory::deallocate`].
    pub fn deallocate(&mut self, address: u32, size: u32) -> (r: Result<(), Fault>)
        requires
            old(self).wf(),
        ensures
            final(self).wf(),
            final(self).instances() == old(self).instances(),
            match refusal(old(self).buffers(), address, size as nat) {
                Some(fault) => r == Err::<(), Fault>(fault)
                    && final(self).buffers() == old(self).buffers(),
                None => r is Ok && final(self).buffers() == without_buffer(
                    old(self).buffers(),
                    address,
                ),
            },
    {
        self.memory.deallocate(address, size)
    }

    /// Fills a buffer of the host. See [`Memory::write`].
    pub fn write(&mut self, address: u32, data: &[u8]) -> (r: Result<(), Fault>)
        requires
            old(self).wf(),
        ensures
            final(self).wf(),
            final(self).instances() == old(self).instances(),
            match refusal(old(self).buffers(), address, data@.len()) {
                Some(fault) => r == Err::<(), Fault>(fault)
                    && final(self).buffers() == old(self).buffers(),
                None => r is Ok && final(self).buffers() == with_buffer(
                    old(self).buffers(),
                    address,
                    data@,
                ),
            },
    {
        self.memory.write(address, data)
    }

    /// A copy of a buffer. See [`Memory::read`].
    pub fn read(&self, address: u32, len: u32) -> (r: Result<Vec<u8>, Fault>)
        requires
            self.wf(),
        ensures
            match r {
                Ok(bytes) => refusal(self.buffers(), address, len as nat) is None && bytes@
                    == self.buffers()[address],
                Err(fault) => refusal(self.buffers(), address, len as nat) == Some(fault),
            },
    {
        self.memory.read(address, len)
    }

    /// Puts an answer into a fresh buffer for the host.
    fn hand_over(&mut self, bytes: Vec<u8>) -> (r: Result<u64, Fault>)
        requires
            old(self).wf(),
        ensures
            final(self).wf(),
            final(self).registry == old(self).registry,
            handed_over(old(self).buffers(), final(self).buffers(), bytes@, r),
    {
        self.memory.produce(bytes)
    }

    /// Constructs an instance from the request in the buffer at `address`,
    /// which is absorbed, and hands the answer over in a fresh buffer. See
    /// [`vm_new`].
    ///
    /// A request that can be read is refused in two cases only. With
    /// `Exhausted`, where the engine accepts the headers and no handle is
    /// left: no instance is then constructed. With `TooLarge`, where the
    /// answer is longer than 32 bits can count. An address for the answer
    /// is never wanting: that of the request has just become free.
    pub fn vm_new(&mut self, address: u32, len: u32) -> (r: Result<u64, Fault>)
        requires
            old(self).wf(),
        ensures
            final(self).wf(),
            forall|h: u32|
                old(self).counts().dom().contains(h) ==>
                    final(self).instance(h) == old(self).instance(h),
            match refusal(old(self).buffers(), address, len as nat) {
                Some(fault) => r == Err::<u64, Fault>(fault)
                    && final(self).buffers() == old(self).buffers()
                    && final(self).counts() == old(self).counts(),
                None => {
                    let absorbed = without_buffer(old(self).buffers(), address);
                    match decoded::<VmNewParameters>(old(self).buffers()[address]) {
                        None => r == Err::<u64, Fault>(Fault::MalformedInput)
                            && final(self).buffers() == absorbed
                            && final(self).counts() == old(self).counts(),
                        Some(p) => match r {
                            Ok(_) => exists|answer: Seq<u8>|
                                {
                                    &&& #[trigger] handed_over(
                                        absorbed,
                                        final(self).buffers(),
                                        answer,
                                        r,
                                    )
                                    &&& made(*old(self), *final(self), p.headers, answer)
                                },
                            Err(fault) => final(self).buffers() == absorbed && if fault
                                == Fault::Exhausted {
                                &&& accepted(p.headers)
                                &&& old(self).instances().full()
                                &&& final(self).counts() == old(self).counts()
                            } else {
                                &&& fault == Fault::TooLarge
                                &&& exists|answer: Seq<u8>|
                                    answer.len() > u32::MAX && #[trigger] made(
                                        *old(self),
                                        *final(self),
                                        p.headers,
                                        answer,
                                    )
                            },
                        },
                    }
                },
            },
    {
        match self.memory.absorb(address, len) {
            Err(fault) => Err(fault),
            Ok(input) => match vm_new(&mut self.registry, input.as_slice()) {
                Err(fault) => Err(fault),
                Ok(answer) => {
                    let ghost bytes = answer@;
                    let ghost absorbed = self.memory@;
                    let r = self.hand_over(answer);
                    proof {
                        // the address of the request is free again
                        assert(!absorbed.dom().contains(address));
                        assert(handed_over(absorbed, self.buffers(), bytes, r));
                        let p = decoded::<VmNewParameters>(old(self).buffers()[address]).unwrap();
                        assert(made(*old(self), *self, p.headers, bytes));
                    }
                    r
                },
            },
        }
    }

    /// Frees the instance behind a handle. See [`vm_free`].
    pub fn vm_free(&mut self, handle: u32) -> (r: Result<(), Fault>)
        requires
            old(self).wf(),
        ensures
            final(self).wf(),
            final(self).buffers() == old(self).buffers(),
            forall|h: u32|
                h != handle && old(self).counts().dom().contains(h) ==>
                    final(self).instance(h) == old(self).instance(h),
            match free_refusal(old(self).counts(), handle) {
                Some(fault) => r == Err::<(), Fault>(fault)
                    && final(self).counts() == old(self).counts()
                    && (old(self).counts().dom().contains(handle) ==>
                        final(self).instance(handle) == old(self).instance(handle)),
                None => r is Ok && final(self).counts() == freed(
                    old(self).counts(),
                    handle,
                ),
            },
    {
        vm_free(&mut self.registry, handle)
    }

    /// Performs one operation on the instance behind a handle. The request,
    /// for an operation that has one, is the buffer of `len` bytes at
    /// `address`; for any other operation the two are not looked at.
    ///
    /// A handle that cannot be resolved is refused before anything is
    /// touched, and so is a request that names no buffer of that length.
    /// Else the request is absorbed, the operation performed, and its
    /// outcome delivered. The counts are afterwards as they were.
    pub fn call(&mut self, handle: u32, op: Operation, address: u32, len: u32) -> (r: Result<
        u64,
        Fault,
    >)
        requires
            old(self).wf(),
        ensures
            final(self).wf(),
            final(self).counts() == old(self).counts(),
            forall|h: u32|
                h != handle && old(self).counts().dom().contains(h) ==> final(self).instance(h)
                    == old(self).instance(h),
            match resolve_refusal(old(self).counts(), handle) {
                Some(fault) => r == Err::<u64, Fault>(fault)
                    && final(self).buffers() == old(self).buffers()
                    && final(self).instances() == old(self).instances(),
                None => match input_refusal(op, old(self).buffers(), address, len) {
                    Some(fault) => r == Err::<u64, Fault>(fault)
                        && final(self).buffers() == old(self).buffers()
                        && final(self).instances() == old(self).instances(),
                    None => exists|reply: Result<ReplyModel, Fault>|
                        {
                            &&& #[trigger] expected(
                                op,
                                old(self).instance(handle),
                                final(self).instance(handle),
                                input_of(op, old(self).buffers(), address),
                                reply,
                            )
                            &&& delivered(
                                after_input(op, old(self).buffers(), address),
                                final(self).buffers(),
                                reply,
                                r,
                            )
                        },
                },
            },
    {
        match self.registry.strong_count(handle) {
            None => {
                return Err(
                    if handle == 0 {
                        Fault::NullPointer
                    } else {
                        Fault::UnknownHandle
                    },
                );
            },
            Some(n) => {
                if n == 0xFFFF_FFFF {
                    return Err(Fault::Exhausted);
                }
            },
        }
        let input = if reads_buffer(op) {
            match self.memory.absorb(address, len) {
                Ok(bytes) => bytes,
                Err(fault) => {
                    return Err(fault);
                },
            }
        } else {
            Vec::new()
        };
        let ghost absorbed = self.memory@;
        let reply = call(&mut self.registry, handle, op, input);
        let ghost outcome = reply_view(reply);
        let r = match reply {
            Err(fault) => Err(fault),
            Ok(Reply::Nothing) => Ok(0),
            Ok(Reply::Scalar(n)) => Ok(n),
            Ok(Reply::Buffer(bytes)) => self.hand_over(bytes),
        };
        proof {
            assert(expected(
                op,
                old(self).instance(handle),
                self.instance(handle),
                input_of(op, old(self).buffers(), address),
                outcome,
            ));
            assert(delivered(absorbed, self.buffers(), outcome, r));
        }
        r
    }
}

} // verus!
