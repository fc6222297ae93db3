//! The process table: which process occupies which slot, and the operations
//! by which the mechanism reaches a process through its slot.

use vstd::prelude::*;
use crate::error::{ErrorCode, ProcessError};
use crate::process::{Process, ProcessId, ProcessView, SharedBuffer, Task};

verus! {

/// The slots of the system, each empty or occupied by one live process.
#[derive(Clone, Debug, PartialEq, Eq)]
pub struct ProcessTable {
    /// The slots, by index.
    pub slots: Vec<Option<Process>>,
}

impl View for ProcessTable {
    type V = Seq<Option<ProcessView>>;

    open spec fn view(&self) -> Seq<Option<ProcessView>> {
        Seq::new(
            self.slots@.len(),
            |i: int|
                match self.slots@[i] {
                    Some(p) => Some(p@),
                    None => None,
                },
        )
    }
}

/// Whether slot `i` holds a live process.
pub open spec fn live_at(t: Seq<Option<ProcessView>>, i: int) -> bool {
    0 <= i < t.len() && t[i] is Some
}

/// Whether `id` still names the occupant of its slot.
pub open spec fn resolves(t: Seq<Option<ProcessView>>, id: ProcessId) -> bool {
    live_at(t, id.index as int) && t[id.index as int]->0.identifier == id.identifier
}

/// The slot index of `id`, while it resolves.
pub open spec fn index_of(t: Seq<Option<ProcessView>>, id: ProcessId) -> Option<usize> {
    if resolves(t, id) {
        Some(id.index)
    } else {
        None
    }
}

/// The handle of the process that occupies slot `i` now.
pub open spec fn id_at(t: Seq<Option<ProcessView>>, i: int) -> Option<ProcessId> {
    if live_at(t, i) {
        Some(ProcessId { index: i as usize, identifier: t[i]->0.identifier })
    } else {
        None
    }
}

/// Whether slot `i` holds a live process whose name is exactly `name`.
pub open spec fn named_at(t: Seq<Option<ProcessView>>, name: Seq<u8>, i: int) -> bool {
    live_at(t, i) && t[i]->0.name == name
}

/// Whether slot `i` is the first whose process is named `name`.
pub open spec fn first_named(t: Seq<Option<ProcessView>>, name: Seq<u8>, i: int) -> bool {
    named_at(t, name, i) && forall|j: int| 0 <= j < i ==> !named_at(t, name, j)
}

/// The first slot, in index order, whose process is named `name`.
pub open spec fn discover(t: Seq<Option<ProcessView>>, name: Seq<u8>) -> Option<usize> {
    if exists|i: int| first_named(t, name, i) {
        Some((choose|i: int| first_named(t, name, i)) as usize)
    } else {
        None
    }
}

/// The table with the process at `slot`, if one is live there, replaced by
/// `f` of it.
pub open spec fn with_process(
    t: Seq<Option<ProcessView>>,
    slot: int,
    f: spec_fn(ProcessView) -> ProcessView,
) -> Seq<Option<ProcessView>> {
    if live_at(t, slot) {
        t.update(slot, Some(f(t[slot]->0)))
    } else {
        t
    }
}

/// Why the grant record of `id` cannot be entered, if it cannot.
pub open spec fn entry_refusal(t: Seq<Option<ProcessView>>, id: ProcessId) -> Option<ProcessError> {
    if !resolves(t, id) {
        Some(ProcessError::NoSuchApp)
    } else {
        t[id.index as int]->0.entry_refusal()
    }
}

/// The table after an attempt to enter the grant record of `id`.
pub open spec fn enter(t: Seq<Option<ProcessView>>, id: ProcessId) -> Seq<Option<ProcessView>> {
    if resolves(t, id) {
        with_process(t, id.index as int, |p: ProcessView| p.enter())
    } else {
        t
    }
}

/// The read-write buffer that the process at `slot` allows at `index`.
pub open spec fn shared_buffer(t: Seq<Option<ProcessView>>, slot: int, index: int, limit: int) -> Option<
    SharedBuffer,
> {
    if live_at(t, slot) {
        t[slot]->0.shared_at(index, limit)
    } else {
        None
    }
}

/// The table after the grant record of the process at `slot` was left.
pub open spec fn leave(t: Seq<Option<ProcessView>>, slot: int) -> Seq<Option<ProcessView>> {
    with_process(t, slot, |p: ProcessView| p.leave())
}

/// Two slices hold the same bytes.
pub fn bytes_equal(a: &[u8], b: &[u8]) -> (r: bool)
    ensures
        r == (a@ == b@),
{
    if a.len() != b.len() {
        return false;
    }
    let mut i: usize = 0;
    while i < a.len()
        invariant
            a@.len() == b@.len(),
            i <= a@.len(),
            forall|j: int| 0 <= j < i ==> a@[j] == b@[j],
        decreases a@.len() - i,
    {
        if a[i] != b[i] {
            return false;
        }
        i += 1;
    }
    assert(a@ =~= b@);
    true
}

impl ProcessTable {
    /// The table fits the wire format: every slot index fits in 32 bits.
    pub open spec fn wf(&self) -> bool {
        self@.len() <= u32::MAX
    }

    /// A table of `slots` empty slots.
    pub fn new(slots: usize) -> (t: ProcessTable)
        ensures
            t@ == Seq::new(slots as nat, |i: int| None::<ProcessView>),
            slots <= u32::MAX ==> t.wf(),
    {
        let mut v: Vec<Option<Process>> = Vec::new();
        let mut i: usize = 0;
        while i < slots
            invariant
                i <= slots,
                v@.len() == i,
                forall|j: int| 0 <= j < i ==> v@[j] is None,
            decreases slots - i,
        {
            v.push(None);
            i += 1;
        }
        let t = ProcessTable { slots: v };
        assert(t@ =~= Seq::new(slots as nat, |i: int| None::<ProcessView>));
        t
    }

    /// Starts `process` in `slot` and returns its handle. `None`, and the
    /// table as it was, where the slot does not exist or is occupied.
    pub fn start(&mut self, slot: usize, process: Process) -> (r: Option<ProcessId>)
        ensures
            r is Some <==> (slot < old(self)@.len() && old(self)@[slot as int] is None),
            r is Some ==> r == Some(ProcessId { index: slot, identifier: process.identifier })
                && final(self)@ == old(self)@.update(slot as int, Some(process@)),
            r is None ==> final(self)@ == old(self)@,
    {
        if slot < self.slots.len() && self.slots[slot].is_none() {
            let id = ProcessId { index: slot, identifier: process.identifier };
            self.slots[slot] = Some(process);
            assert(self@ =~= old(self)@.update(slot as int, Some(process@)));
            Some(id)
        } else {
            assert(self@ =~= old(self)@);
            None
        }
    }

    /// Ends the process in `slot`, if one is live there: the slot is empty
    /// afterwards, and every handle to its occupant stops resolving.
    pub fn terminate(&mut self, slot: usize)
        ensures
            final(self)@ == (if slot < old(self)@.len() {
                old(self)@.update(slot as int, None)
            } else {
                old(self)@
            }),
    {
        if slot < self.slots.len() {
            self.slots[slot] = None;
        }
        assert(self@ =~= (if slot < old(self)@.len() {
            old(self)@.update(slot as int, None)
        } else {
            old(self)@
        }));
    }

    /// The slot index of `id`, or `None` once the process it was issued for
    /// has left its slot.
    pub fn index_of(&self, id: ProcessId) -> (r: Option<usize>)
        ensures
            r == index_of(self@, id),
    {
        if id.index < self.slots.len() {
            match &self.slots[id.index] {
                Some(p) => if p.identifier == id.identifier {
                    Some(id.index)
                } else {
                    None
                },
                None => None,
            }
        } else {
            None
        }
    }

    /// The handle of the process that occupies `slot` now.
    pub fn processid_at(&self, slot: usize) -> (r: Option<ProcessId>)
        ensures
            r == id_at(self@, slot as int),
    {
        if slot < self.slots.len() {
            match &self.slots[slot] {
                Some(p) => Some(ProcessId { index: slot, identifier: p.identifier }),
                None => None,
            }
        } else {
            None
        }
    }

    /// Scans the live processes in slot order for one whose name is exactly
    /// `name`; the first match wins.
    pub fn find_by_name(&self, name: &[u8]) -> (r: Option<usize>)
        ensures
            r == discover(self@, name@),
            r matches Some(i) ==> first_named(self@, name@, i as int),
            r is None ==> forall|j: int| !named_at(self@, name@, j),
    {
        let mut i: usize = 0;
        while i < self.slots.len()
            invariant
                i <= self.slots@.len(),
                forall|j: int| 0 <= j < i ==> !named_at(self@, name@, j),
            decreases self.slots@.len() - i,
        {
            let hit = match &self.slots[i] {
                Some(p) => bytes_equal(p.name.as_slice(), name),
                None => false,
            };
            if hit {
                proof {
                    assert(first_named(self@, name@, i as int));
                    lemma_first_named_unique(self@, name@, i as int);
                }
                return Some(i);
            }
            i += 1;
        }
        None
    }

    /// Why the grant record of `id` cannot be entered, if it cannot. Nothing
    /// is entered or allocated by asking.
    pub fn check_entry(&self, id: ProcessId) -> (r: Option<ProcessError>)
        ensures
            r == entry_refusal(self@, id),
    {
        if id.index >= self.slots.len() {
            return Some(ProcessError::NoSuchApp);
        }
        match &self.slots[id.index] {
            Some(p) => if p.identifier != id.identifier {
                Some(ProcessError::NoSuchApp)
            } else {
                p.check_entry()
            },
            None => Some(ProcessError::NoSuchApp),
        }
    }

    /// Offers `task` to the queue of the process at `slot`. `None` where no
    /// process is live there; a refused task leaves the table as it was.
    pub fn enqueue_task(&mut self, slot: usize, task: Task) -> (r: Option<Result<(), ErrorCode>>)
        ensures
            final(self)@ == with_process(old(self)@, slot as int, |p: ProcessView| p.enqueue(task)),
            final(self)@.len() == old(self)@.len(),
            live_at(old(self)@, slot as int) <==> r is Some,
            r matches Some(outcome) ==> match old(self)@[slot as int]->0.refusal(task) {
                Some(e) => outcome == Err::<(), ErrorCode>(e),
                None => outcome is Ok,
            },
    {
        let r = if slot < self.slots.len() {
            match &mut self.slots[slot] {
                Some(p) => Some(p.enqueue_task(task)),
                None => None,
            }
        } else {
            None
        };
        assert(self@ =~= with_process(old(self)@, slot as int, |p: ProcessView| p.enqueue(task)));
        r
    }

    /// The read-write buffer that the process at `slot` allows at `index`,
    /// where indices below `limit` exist.
    pub fn shared_buffer(&self, slot: usize, index: usize, limit: usize) -> (r: Option<SharedBuffer>)
        ensures
            r == shared_buffer(self@, slot as int, index as int, limit as int),
    {
        if slot < self.slots.len() {
            match &self.slots[slot] {
                Some(p) => p.get_readwrite_buffer(index, limit),
                None => None,
            }
        } else {
            None
        }
    }

    /// Enters the grant record of `id` and returns its slot. A refused entry
    /// leaves the table as it was.
    pub fn enter_grant(&mut self, id: ProcessId) -> (r: Result<usize, ProcessError>)
        ensures
            final(self)@ == enter(old(self)@, id),
            final(self)@.len() == old(self)@.len(),
            match entry_refusal(old(self)@, id) {
                Some(e) => r == Err::<usize, ProcessError>(e),
                None => r == Ok::<usize, ProcessError>(id.index),
            },
    {
        if id.index >= self.slots.len() {
            return Err(ProcessError::NoSuchApp);
        }
        let r = match &mut self.slots[id.index] {
            Some(p) => {
                if p.identifier != id.identifier {
                    Err(ProcessError::NoSuchApp)
                } else {
                    match p.enter_grant() {
                        Ok(()) => Ok(id.index),
                        Err(e) => Err(e),
                    }
                }
            },
            None => Err(ProcessError::NoSuchApp),
        };
        assert(self@ =~= enter(old(self)@, id));
        r
    }

    /// Leaves the grant record of the process at `slot`, if one is live
    /// there.
    pub fn leave_grant(&mut self, slot: usize)
        ensures
            final(self)@ == leave(old(self)@, slot as int),
            final(self)@.len() == old(self)@.len(),
    {
        if slot < self.slots.len() {
            match &mut self.slots[slot] {
                Some(p) => {
                    p.leave_grant();
                },
                None => {},
            }
        }
        assert(self@ =~= leave(old(self)@, slot as int));
    }
}

/// At most one slot is the first of a given name.
pub proof fn lemma_first_named_unique(t: Seq<Option<ProcessView>>, name: Seq<u8>, i: int)
    requires
        first_named(t, name, i),
    ensures
        0 <= i < t.len(),
        discover(t, name) == Some(i as usize),
        forall|k: int| first_named(t, name, k) ==> k == i,
{
    assert forall|k: int| first_named(t, name, k) implies k == i by {
        if k < i {
            assert(!named_at(t, name, k));
        } else if i < k {
            assert(!named_at(t, name, i));
        }
    }
}

} // verus!
