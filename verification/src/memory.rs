//! Buffers that cross the boundary.
//!
//! Host and engine share no allocator, so every buffer that crosses has one
//! owner at a time and changes hands by rule. The host asks for a buffer
//! with `allocate`, fills it, and passes its address and length to a call;
//! the call absorbs the buffer, which is then gone. A call that answers with
//! bytes produces a fresh buffer and returns its address and length packed
//! into one number; the host reads it and hands it back with `deallocate`.
//!
//! The buffers live in a table keyed by address. Address zero is never
//! given out: it is the null pointer. An address that was given back may be
//! given out again, and a stale copy of it then names whatever buffer lives
//! there now: to tell the two apart is beyond this table, as it is beyond
//! any allocator.
use vstd::prelude::*;
use vstd::slice::slice_to_vec;
use crate::fault::Fault;

verus! {

/// An address and a length as one number: the address in the high 32 bits,
/// the length in the low 32.
pub open spec fn packed(address: u32, len: u32) -> u64 {
    (address as u64 * 0x1_0000_0000 + len as u64) as u64
}

/// Packs an address and a length into one number.
pub fn pack(address: u32, len: u32) -> (r: u64)
    ensures
        r == packed(address, len),
{
    let r = ((address as u64) << 32) | (len as u64);
    proof {
        let a = address as u64;
        let l = len as u64;
        assert(((a << 32) | l) == a * 0x1_0000_0000 + l) by (bit_vector)
            requires
                a <= 0xFFFF_FFFF,
                l <= 0xFFFF_FFFF,
        ;
    }
    r
}

/// Takes a packed number apart: the address and the length.
pub fn unpack(value: u64) -> (r: (u32, u32))
    ensures
        packed(r.0, r.1) == value,
{
    let address = (value >> 32) as u32;
    let len = (value & 0xFFFF_FFFF) as u32;
    proof {
        assert((value >> 32) <= 0xFFFF_FFFF && (value & 0xFFFF_FFFF) <= 0xFFFF_FFFF && (value
            >> 32) * 0x1_0000_0000 + (value & 0xFFFF_FFFF) == value) by (bit_vector);
    }
    (address, len)
}

/// Two packed numbers are equal only where address and length both are.
pub proof fn lemma_packed_injective(a1: u32, l1: u32, a2: u32, l2: u32)
    requires
        packed(a1, l1) == packed(a2, l2),
    ensures
        a1 == a2,
        l1 == l2,
{
}

/// Checks an address that must not be null.
pub fn assert_not_null(address: u32) -> (r: Result<(), Fault>)
    ensures
        address != 0 ==> r == Ok::<(), Fault>(()),
        address == 0 ==> r == Err::<(), Fault>(Fault::NullPointer),
{
    if address == 0 {
        Err(Fault::NullPointer)
    } else {
        Ok(())
    }
}

/// A buffer of `size` zero bytes.
pub open spec fn zeros(size: nat) -> Seq<u8> {
    Seq::new(size, |i: int| 0u8)
}

/// The table after a buffer was put at `address`.
pub open spec fn with_buffer(table: Map<u32, Seq<u8>>, address: u32, bytes: Seq<u8>) -> Map<
    u32,
    Seq<u8>,
> {
    table.insert(address, bytes)
}

/// Whether the table holds a buffer of `size` bytes at `address`.
pub open spec fn holds(table: Map<u32, Seq<u8>>, address: u32, size: nat) -> bool {
    table.dom().contains(address) && table[address].len() == size
}

/// The table after the buffer at `address` left it.
pub open spec fn without_buffer(table: Map<u32, Seq<u8>>, address: u32) -> Map<u32, Seq<u8>> {
    table.remove(address)
}

/// Whether `address` may be given out: it is not null and names no buffer.
pub open spec fn is_free(table: Map<u32, Seq<u8>>, address: u32) -> bool {
    address != 0 && !table.dom().contains(address)
}

/// Every address but the null pointer names a buffer: none is left to give
/// out.
pub open spec fn no_address_left(table: Map<u32, Seq<u8>>) -> bool {
    forall|a: u32| a != 0 ==> table.dom().contains(a)
}

/// Why the table refuses to give up a buffer of `size` bytes at `address`,
/// if it does.
pub open spec fn refusal(table: Map<u32, Seq<u8>>, address: u32, size: nat) -> Option<Fault> {
    if address == 0 {
        Some(Fault::NullPointer)
    } else if !table.dom().contains(address) {
        Some(Fault::UnknownRegion)
    } else if table[address].len() != size {
        Some(Fault::SizeMismatch)
    } else {
        None
    }
}

/// A buffer that was allocated can be deallocated at the same address and
/// size, and the table is then as it was before.
pub proof fn lemma_allocate_then_deallocate(table: Map<u32, Seq<u8>>, address: u32, size: nat)
    requires
        is_free(table, address),
    ensures
        refusal(with_buffer(table, address, zeros(size)), address, size) is None,
        without_buffer(with_buffer(table, address, zeros(size)), address) == table,
{
    assert(table.insert(address, zeros(size)).remove(address) =~= table);
}

/// An address that names no buffer is refused, whatever the size, and so is
/// a live buffer once it was given up: deallocating twice fails.
pub proof fn lemma_deallocate_unknown(table: Map<u32, Seq<u8>>, address: u32, size: nat)
    ensures
        !table.dom().contains(address) ==> refusal(table, address, size) is Some,
        refusal(without_buffer(table, address), address, size) is Some,
{
}

/// A buffer that a response was put in can be deallocated with the address
/// and the length that the packed number carries.
pub proof fn lemma_produce_then_deallocate(
    table: Map<u32, Seq<u8>>,
    address: u32,
    bytes: Seq<u8>,
)
    requires
        is_free(table, address),
    ensures
        refusal(with_buffer(table, address, bytes), address, bytes.len()) is None,
        without_buffer(with_buffer(table, address, bytes), address) == table,
{
    assert(table.insert(address, bytes).remove(address) =~= table);
}

/// Giving up one buffer leaves every other buffer as it was.
pub proof fn lemma_other_buffers_stay(table: Map<u32, Seq<u8>>, address: u32, other: u32)
    requires
        other != address,
    ensures
        without_buffer(table, address).dom().contains(other) == table.dom().contains(other),
        table.dom().contains(other) ==> without_buffer(table, address)[other] == table[other],
{
}

/// The table of live buffers.
pub struct Memory {
    slots: Vec<Option<Vec<u8>>>,
}

impl View for Memory {
    type V = Map<u32, Seq<u8>>;

    closed spec fn view(&self) -> Map<u32, Seq<u8>> {
        Map::new(
            |a: u32| 1 <= a <= self.slots@.len() && self.slots@[a - 1] is Some,
            |a: u32| self.slots@[a - 1].unwrap()@,
        )
    }
}

impl Memory {
    /// The table is well formed: it has no more slots than there are
    /// addresses, and no buffer in it is longer than 32 bits can count.
    /// `new` makes such a table and every operation keeps it so.
    pub closed spec fn wf(self) -> bool {
        &&& self.slots@.len() <= u32::MAX
        &&& forall|i: int|
            0 <= i < self.slots@.len() && self.slots@[i] is Some ==> (
            #[trigger] self.slots@[i]).unwrap()@.len() <= u32::MAX
    }

    /// Every address is in use.
    pub open spec fn full(self) -> bool {
        no_address_left(self@)
    }

    /// A table without buffers.
    pub fn new() -> (m: Memory)
        ensures
            m.wf(),
            m@ == Map::<u32, Seq<u8>>::empty(),
    {
        let m = Memory { slots: Vec::new() };
        proof {
            assert(m@ =~= Map::<u32, Seq<u8>>::empty());
        }
        m
    }

    /// The lowest address that names no buffer, if there is one.
    fn free_address(&self) -> (r: Option<u32>)
        requires
            self.wf(),
        ensures
            match r {
                Some(a) => is_free(self@, a) && a <= self.slots@.len() + 1,
                None => self.full(),
            },
    {
        let mut i: usize = 0;
        while i < self.slots.len()
            invariant
                i <= self.slots@.len() <= u32::MAX,
                forall|j: int| 0 <= j < i ==> self.slots@[j] is Some,
            decreases self.slots.len() - i,
        {
            if self.slots[i].is_none() {
                return Some((i + 1) as u32);
            }
            i += 1;
        }
        if self.slots.len() < 0xFFFF_FFFF {
            Some((self.slots.len() + 1) as u32)
        } else {
            None
        }
    }

    /// Puts a buffer at a free address.
    fn place(&mut self, address: u32, bytes: Vec<u8>)
        requires
            old(self).wf(),
            is_free(old(self)@, address),
            address <= old(self).slots@.len() + 1,
            bytes@.len() <= u32::MAX,
        ensures
            final(self)@ == with_buffer(old(self)@, address, bytes@),
            final(self).wf(),
    {
        let index = (address - 1) as usize;
        if index < self.slots.len() {
            self.slots[index] = Some(bytes);
        } else {
            self.slots.push(Some(bytes));
        }
        proof {
            assert(self@ =~= with_buffer(old(self)@, address, bytes@));
        }
    }

    /// Reserves a buffer of `size` zero bytes and returns its address. The
    /// buffer belongs to the caller, who fills it and passes it to a call,
    /// or hands it back with `deallocate`.
    pub fn allocate(&mut self, size: u32) -> (r: Result<u32, Fault>)
        requires
            old(self).wf(),
        ensures
            match r {
                Ok(address) => is_free(old(self)@, address) && final(self)@ == with_buffer(
                    old(self)@,
                    address,
                    zeros(size as nat),
                ),
                Err(fault) => fault == Fault::Exhausted
                    && old(self).full()
                    && final(self)@ == old(self)@,
            },
            final(self).wf(),
    {
        match self.free_address() {
            Some(address) => {
                let mut bytes: Vec<u8> = Vec::new();
                let mut n: u32 = 0;
                while n < size
                    invariant
                        n <= size,
                        bytes@ == zeros(n as nat),
                    decreases size - n,
                {
                    bytes.push(0u8);
                    n += 1;
                    proof {
                        assert(bytes@ =~= zeros(n as nat));
                    }
                }
                self.place(address, bytes);
                Ok(address)
            },
            None => Err(Fault::Exhausted),
        }
    }

    /// Takes the buffer of `size` bytes at `address` out of the table.
    fn take(&mut self, address: u32, size: u32) -> (r: Result<Vec<u8>, Fault>)
        requires
            old(self).wf(),
        ensures
            match r {
                Ok(bytes) => refusal(old(self)@, address, size as nat) is None
                    && bytes@ == old(self)@[address]
                    && final(self)@ == without_buffer(old(self)@, address),
                Err(fault) => refusal(old(self)@, address, size as nat) == Some(fault)
                    && final(self)@ == old(self)@,
            },
            final(self).wf(),
    {
        if address == 0 {
            return Err(Fault::NullPointer);
        }
        let index = (address - 1) as usize;
        if index >= self.slots.len() {
            return Err(Fault::UnknownRegion);
        }
        match &self.slots[index] {
            None => {
                return Err(Fault::UnknownRegion);
            },
            Some(b) => {
                if b.len() != size as usize {
                    return Err(Fault::SizeMismatch);
                }
            },
        }
        let taken = self.slots[index].take();
        proof {
            assert(self@ =~= without_buffer(old(self)@, address));
        }
        Ok(taken.unwrap())
    }

    /// Reclaims the buffer of `size` bytes at `address`. The buffer must be
    /// live and of that size; after this it is gone, and a second call with
    /// the same address is refused.
    pub fn deallocate(&mut self, address: u32, size: u32) -> (r: Result<(), Fault>)
        requires
            old(self).wf(),
        ensures
            match r {
                Ok(_) => refusal(old(self)@, address, size as nat) is None && final(self)@
                    == without_buffer(old(self)@, address),
                Err(fault) => refusal(old(self)@, address, size as nat) == Some(fault)
                    && final(self)@ == old(self)@,
            },
            final(self).wf(),
    {
        match self.take(address, size) {
            Ok(_) => Ok(()),
            Err(fault) => Err(fault),
        }
    }

    /// Takes over the buffer that the host filled: the very bytes, not a
    /// copy. The buffer leaves the table; the host must not use or
    /// deallocate it afterwards.
    pub fn absorb(&mut self, address: u32, len: u32) -> (r: Result<Vec<u8>, Fault>)
        requires
            old(self).wf(),
        ensures
            match r {
                Ok(bytes) => refusal(old(self)@, address, len as nat) is None
                    && bytes@ == old(self)@[address]
                    && final(self)@ == without_buffer(old(self)@, address),
                Err(fault) => refusal(old(self)@, address, len as nat) == Some(fault)
                    && final(self)@ == old(self)@,
            },
            final(self).wf(),
    {
        self.take(address, len)
    }

    /// Puts the bytes of a response into a fresh buffer and returns its
    /// address and length as one packed number. The buffer belongs to the
    /// host, who hands it back with `deallocate`.
    pub fn produce(&mut self, bytes: Vec<u8>) -> (r: Result<u64, Fault>)
        requires
            old(self).wf(),
        ensures
            match r {
                Ok(value) => exists|address: u32|
                    {
                        &&& is_free(old(self)@, address)
                        &&& value == #[trigger] packed(address, bytes@.len() as u32)
                        &&& final(self)@ == with_buffer(old(self)@, address, bytes@)
                    },
                Err(fault) => final(self)@ == old(self)@ && if bytes@.len() > u32::MAX {
                    fault == Fault::TooLarge
                } else {
                    fault == Fault::Exhausted && old(self).full()
                },
            },
            r is Ok ==> bytes@.len() <= u32::MAX,
            final(self).wf(),
    {
        if bytes.len() > 0xFFFF_FFFF {
            return Err(Fault::TooLarge);
        }
        let len = bytes.len() as u32;
        match self.free_address() {
            Some(address) => {
                self.place(address, bytes);
                Ok(pack(address, len))
            },
            None => Err(Fault::Exhausted),
        }
    }

    /// Fills the buffer at `address` with `data`, which must be as long as
    /// the buffer. This is the host writing into memory that it allocated.
    pub fn write(&mut self, address: u32, data: &[u8]) -> (r: Result<(), Fault>)
        requires
            old(self).wf(),
        ensures
            match r {
                Ok(_) => refusal(old(self)@, address, data@.len()) is None && final(self)@
                    == with_buffer(old(self)@, address, data@),
                Err(fault) => refusal(old(self)@, address, data@.len()) == Some(fault)
                    && final(self)@ == old(self)@,
            },
            final(self).wf(),
    {
        if address == 0 {
            return Err(Fault::NullPointer);
        }
        let index = (address - 1) as usize;
        if index >= self.slots.len() {
            return Err(Fault::UnknownRegion);
        }
        match &self.slots[index] {
            None => {
                return Err(Fault::UnknownRegion);
            },
            Some(b) => {
                if b.len() != data.len() {
                    return Err(Fault::SizeMismatch);
                }
            },
        }
        self.slots[index] = Some(slice_to_vec(data));
        proof {
            assert(self@ =~= with_buffer(old(self)@, address, data@));
        }
        Ok(())
    }

    /// A copy of the buffer of `len` bytes at `address`. This is the host
    /// reading a response before it hands the buffer back.
    pub fn read(&self, address: u32, len: u32) -> (r: Result<Vec<u8>, Fault>)
        requires
            self.wf(),
        ensures
            match r {
                Ok(bytes) => refusal(self@, address, len as nat) is None && bytes@
                    == self@[address],
                Err(fault) => refusal(self@, address, len as nat) == Some(fault),
            },
    {
        if address == 0 {
            return Err(Fault::NullPointer);
        }
        let index = (address - 1) as usize;
        if index >= self.slots.len() {
            return Err(Fault::UnknownRegion);
        }
        match &self.slots[index] {
            None => Err(Fault::UnknownRegion),
            Some(b) => {
                if b.len() != len as usize {
                    Err(Fault::SizeMismatch)
                } else {
                    Ok(slice_to_vec(b.as_slice()))
                }
            },
        }
    }
}

} // verus!
