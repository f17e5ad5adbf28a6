//! Instances behind opaque handles.
//!
//! The host holds an instance across many calls without seeing inside it:
//! all it has is a handle, a number that is never zero. Every instance
//! carries a count of who holds it. It starts at one, for the host. A call
//! that resolves the handle adds one for as long as it runs and gives it
//! back when it returns. Freeing succeeds only at a count of exactly one:
//! to free an instance that a call still holds is a fault, not a leak.
use vstd::prelude::*;
use crate::fault::Fault;

verus! {

/// Whether `handle` names a live instance.
pub open spec fn live(counts: Map<u32, nat>, handle: u32) -> bool {
    handle != 0 && counts.dom().contains(handle)
}

/// Why a handle cannot be resolved, if it cannot.
pub open spec fn resolve_refusal(counts: Map<u32, nat>, handle: u32) -> Option<Fault> {
    if handle == 0 {
        Some(Fault::NullPointer)
    } else if !counts.dom().contains(handle) {
        Some(Fault::UnknownHandle)
    } else if counts[handle] >= u32::MAX {
        Some(Fault::Exhausted)
    } else {
        None
    }
}

/// The counts after `handle` was resolved once more.
pub open spec fn resolved(counts: Map<u32, nat>, handle: u32) -> Map<u32, nat> {
    counts.insert(handle, counts[handle] + 1)
}

/// Why a handle cannot be released, if it cannot.
pub open spec fn release_refusal(counts: Map<u32, nat>, handle: u32) -> Option<Fault> {
    if handle == 0 {
        Some(Fault::NullPointer)
    } else if !counts.dom().contains(handle) {
        Some(Fault::UnknownHandle)
    } else if counts[handle] <= 1 {
        Some(Fault::NotBorrowed)
    } else {
        None
    }
}

/// The counts after `handle` was released once.
pub open spec fn released(counts: Map<u32, nat>, handle: u32) -> Map<u32, nat> {
    counts.insert(handle, (counts[handle] - 1) as nat)
}

/// Why an instance cannot be freed, if it cannot.
pub open spec fn free_refusal(counts: Map<u32, nat>, handle: u32) -> Option<Fault> {
    if handle == 0 {
        Some(Fault::NullPointer)
    } else if !counts.dom().contains(handle) {
        Some(Fault::UnknownHandle)
    } else if counts[handle] != 1 {
        Some(Fault::StillBorrowed)
    } else {
        None
    }
}

/// The counts after the instance behind `handle` was freed.
pub open spec fn freed(counts: Map<u32, nat>, handle: u32) -> Map<u32, nat> {
    counts.remove(handle)
}

/// Every live instance is held at least once.
pub open spec fn held(counts: Map<u32, nat>) -> bool {
    forall|h: u32| counts.dom().contains(h) ==> #[trigger] counts[h] >= 1
}

/// An instance that was resolved and not released cannot be freed.
pub proof fn lemma_free_while_borrowed(counts: Map<u32, nat>, handle: u32)
    requires
        held(counts),
        live(counts, handle),
    ensures
        free_refusal(resolved(counts, handle), handle) == Some(Fault::StillBorrowed),
{
}

/// After a resolve and its release the counts are as before; an instance
/// that only the host holds can then be freed, and only once: a second
/// free of the same handle is refused.
pub proof fn lemma_free_after_balanced(counts: Map<u32, nat>, handle: u32)
    requires
        live(counts, handle),
        counts[handle] == 1,
    ensures
        release_refusal(resolved(counts, handle), handle) is None,
        released(resolved(counts, handle), handle) == counts,
        free_refusal(counts, handle) is None,
        free_refusal(freed(counts, handle), handle) == Some(Fault::UnknownHandle),
{
    assert(released(resolved(counts, handle), handle) =~= counts);
}

/// Resolving and releasing keep every instance held, and one handle's
/// count never touches another's.
pub proof fn lemma_counts_stay_held(counts: Map<u32, nat>, handle: u32, other: u32)
    requires
        held(counts),
        live(counts, handle),
        other != handle,
    ensures
        held(resolved(counts, handle)),
        release_refusal(counts, handle) is None ==> held(released(counts, handle)),
        held(freed(counts, handle)),
        resolved(counts, handle).dom().contains(other) == counts.dom().contains(other),
        counts.dom().contains(other) ==> resolved(counts, handle)[other] == counts[other],
        counts.dom().contains(other) ==> released(counts, handle)[other] == counts[other],
{
}

/// One instance and the count of who holds it.
struct Slot<T> {
    instance: T,
    strong: u32,
}

/// The table of live instances.
pub struct Registry<T> {
    slots: Vec<Option<Slot<T>>>,
}

impl<T> Registry<T> {
    /// The table is well formed: it has no more slots than there are
    /// handles, and every live instance is held at least once. `new` makes
    /// such a table and every operation keeps it so.
    pub closed spec fn wf(self) -> bool {
        &&& self.slots@.len() <= u32::MAX
        &&& forall|i: int|
            0 <= i < self.slots@.len() && self.slots@[i] is Some ==> (
            #[trigger] self.slots@[i]).unwrap().strong >= 1
    }

    /// The live handles, each with the count of who holds it.
    pub closed spec fn counts(self) -> Map<u32, nat> {
        Map::new(
            |h: u32| 1 <= h <= self.slots@.len() && self.slots@[h - 1] is Some,
            |h: u32| self.slots@[h - 1].unwrap().strong as nat,
        )
    }

    /// The instance behind a live handle.
    pub closed spec fn instance(self, handle: u32) -> T {
        self.slots@[handle - 1].unwrap().instance
    }

    /// Every handle is in use.
    pub open spec fn full(self) -> bool {
        forall|h: u32| h != 0 ==> self.counts().dom().contains(h)
    }

    /// In a well-formed table every live instance is held at least once.
    pub proof fn lemma_held(self)
        requires
            self.wf(),
        ensures
            held(self.counts()),
    {
    }

    /// A table without instances.
    pub fn new() -> (r: Registry<T>)
        ensures
            r.wf(),
            r.counts() == Map::<u32, nat>::empty(),
    {
        let r = Registry { slots: Vec::new() };
        proof {
            assert(r.counts() =~= Map::<u32, nat>::empty());
        }
        r
    }

    /// The lowest handle that names no instance, if there is one.
    fn free_handle(&self) -> (r: Option<u32>)
        requires
            self.wf(),
        ensures
            match r {
                Some(h) => h != 0 && !self.counts().dom().contains(h) && h <= self.slots@.len()
                    + 1,
                None => self.full(),
            },
    {
        let mut i: usize = 0;
        while i < self.slots.len()
            invariant
                i <= self.slots@.len() <= u32::MAX,
                forall|j: int| 0 <= j < i ==> self.slots@[j] is Some,
            decreases self.slots.len() - i,
        {
            if self.slots[i].is_none() {
                return Some((i + 1) as u32);
            }
            i += 1;
        }
        if self.slots.len() < 0xFFFF_FFFF {
            Some((self.slots.len() + 1) as u32)
        } else {
            None
        }
    }

    /// Puts an instance into the table and returns its handle. The count of
    /// the new instance is one: the host holds it.
    pub fn insert(&mut self, instance: T) -> (r: Result<u32, Fault>)
        requires
            old(self).wf(),
        ensures
            final(self).wf(),
            forall|h: u32|
                old(self).counts().dom().contains(h) ==>
                    final(self).instance(h) == old(self).instance(h),
            match r {
                Ok(handle) => {
                    &&& handle != 0
                    &&& !old(self).counts().dom().contains(handle)
                    &&& final(self).counts() == old(self).counts().insert(handle, 1)
                    &&& final(self).instance(handle) == instance
                },
                Err(fault) => fault == Fault::Exhausted && old(self).full() && final(self).counts()
                    == old(self).counts(),
            },
    {
        match self.free_handle() {
            Some(handle) => {
                let slot = Slot { instance, strong: 1 };
                let index = (handle - 1) as usize;
                if index < self.slots.len() {
                    self.slots[index] = Some(slot);
                } else {
                    self.slots.push(Some(slot));
                }
                proof {
                    assert(self.counts() =~= old(self).counts().insert(handle, 1));
                }
                Ok(handle)
            },
            None => Err(Fault::Exhausted),
        }
    }

    /// The count of who holds the instance behind `handle`, if it is live.
    pub fn strong_count(&self, handle: u32) -> (r: Option<u32>)
        requires
            self.wf(),
        ensures
            match r {
                Some(n) => live(self.counts(), handle) && self.counts()[handle] == n,
                None => !live(self.counts(), handle),
            },
    {
        if handle == 0 || (handle - 1) as usize >= self.slots.len() {
            return None;
        }
        match &self.slots[(handle - 1) as usize] {
            Some(slot) => Some(slot.strong),
            None => None,
        }
    }

    /// Takes hold of the instance behind `handle` for the time of a call.
    pub fn resolve(&mut self, handle: u32) -> (r: Result<(), Fault>)
        requires
            old(self).wf(),
        ensures
            final(self).wf(),
            forall|h: u32|
                old(self).counts().dom().contains(h) ==>
                    final(self).instance(h) == old(self).instance(h),
            match r {
                Ok(_) => resolve_refusal(old(self).counts(), handle) is None && final(self).counts()
                    == resolved(old(self).counts(), handle),
                Err(fault) => resolve_refusal(old(self).counts(), handle) == Some(fault)
                    && final(self).counts() == old(self).counts(),
            },
    {
        match self.strong_count(handle) {
            None => {
                if handle == 0 {
                    Err(Fault::NullPointer)
                } else {
                    Err(Fault::UnknownHandle)
                }
            },
            Some(n) => {
                if n == 0xFFFF_FFFF {
                    return Err(Fault::Exhausted);
                }
                let index = (handle - 1) as usize;
                match &mut self.slots[index] {
                    Some(slot) => {
                        slot.strong = n + 1;
                    },
                    None => {},
                }
                proof {
                    assert(self.counts() =~= resolved(old(self).counts(), handle));
                }
                Ok(())
            },
        }
    }

    /// Gives back the hold that `resolve` took.
    pub fn release(&mut self, handle: u32) -> (r: Result<(), Fault>)
        requires
            old(self).wf(),
        ensures
            final(self).wf(),
            forall|h: u32|
                old(self).counts().dom().contains(h) ==>
                    final(self).instance(h) == old(self).instance(h),
            match r {
                Ok(_) => release_refusal(old(self).counts(), handle) is None && final(self).counts()
                    == released(old(self).counts(), handle),
                Err(fault) => release_refusal(old(self).counts(), handle) == Some(fault)
                    && final(self).counts() == old(self).counts(),
            },
    {
        match self.strong_count(handle) {
            None => {
                if handle == 0 {
                    Err(Fault::NullPointer)
                } else {
                    Err(Fault::UnknownHandle)
                }
            },
            Some(n) => {
                if n <= 1 {
                    return Err(Fault::NotBorrowed);
                }
                let index = (handle - 1) as usize;
                match &mut self.slots[index] {
                    Some(slot) => {
                        slot.strong = n - 1;
                    },
                    None => {},
                }
                proof {
                    assert(self.counts() =~= released(old(self).counts(), handle));
                }
                Ok(())
            },
        }
    }

    /// The instance behind a live handle, to use and to change. The counts
    /// stay as they are, and so does every other instance.
    pub fn instance_mut(&mut self, handle: u32) -> (r: &mut T)
        requires
            old(self).wf(),
            live(old(self).counts(), handle),
        ensures
            *r == old(self).instance(handle),
            final(self).wf(),
            final(self).counts() == old(self).counts(),
            final(self).instance(handle) == *final(r),
            forall|h: u32|
                h != handle && old(self).counts().dom().contains(h) ==> final(self).instance(h)
                    == old(self).instance(h),
    {
        let index = (handle - 1) as usize;
        match &mut self.slots[index] {
            Some(slot) => &mut slot.instance,
            None => unreached(),
        }
    }

    /// Frees the instance behind `handle` and hands it out. This succeeds
    /// only where the host alone holds the instance.
    pub fn free(&mut self, handle: u32) -> (r: Result<T, Fault>)
        requires
            old(self).wf(),
        ensures
            final(self).wf(),
            forall|h: u32|
                h != handle && old(self).counts().dom().contains(h) ==> final(self).instance(h)
                    == old(self).instance(h),
            match r {
                Ok(instance) => free_refusal(old(self).counts(), handle) is None && instance
                    == old(self).instance(handle) && final(self).counts() == freed(
                    old(self).counts(),
                    handle,
                ),
                Err(fault) => free_refusal(old(self).counts(), handle) == Some(fault)
                    && final(self).counts() == old(self).counts()
                    && (old(self).counts().dom().contains(handle)
                    ==> final(self).instance(handle) == old(self).instance(handle)),
            },
    {
        match self.strong_count(handle) {
            None => {
                if handle == 0 {
                    Err(Fault::NullPointer)
                } else {
                    Err(Fault::UnknownHandle)
                }
            },
            Some(n) => {
                if n != 1 {
                    return Err(Fault::StillBorrowed);
                }
                let index = (handle - 1) as usize;
                let taken = self.slots[index].take();
                proof {
                    assert(self.counts() =~= freed(old(self).counts(), handle));
                }
                Ok(taken.unwrap().instance)
            },
        }
    }
}

} // verus!
