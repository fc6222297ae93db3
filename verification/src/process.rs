//! One process as the mechanism sees it: its identity, its name, its task
//! queue, its grant record and its memory-protection regions.

use vstd::prelude::*;
use crate::error::{ErrorCode, ProcessError};
use crate::ipc::IPCUpcallType;

verus! {

/// A generational handle to a process: the slot it occupies and the
/// identifier of the occupant it was issued for.
#[derive(Copy, Clone, Debug, PartialEq, Eq, Structural)]
pub struct ProcessId {
    /// Slot in the process table.
    pub index: usize,
    /// Identifier of the occupant the handle was issued for.
    pub identifier: usize,
}

/// A unit of deferred work on a process's task queue.
#[derive(Copy, Clone, Debug, PartialEq, Eq, Structural)]
pub enum Task {
    /// Invoke the upcall bound at `upcall` with three arguments.
    FunctionCall { upcall: usize, arg0: usize, arg1: usize, arg2: usize },
    /// Deliver a notification from the given initiator.
    IPC(ProcessId, IPCUpcallType),
}

/// A read-write buffer that a process shares for one notification.
#[derive(Copy, Clone, Debug, PartialEq, Eq, Structural)]
pub struct SharedBuffer {
    /// Address of the first byte.
    pub addr: usize,
    /// Length in bytes.
    pub len: usize,
}

/// A memory-protection region granting read and write access.
#[derive(Copy, Clone, Debug, PartialEq, Eq, Structural)]
pub struct MpuRegion {
    /// Address of the first byte.
    pub start: usize,
    /// Length in bytes.
    pub len: usize,
}

/// The grant record of one process: the upcalls it has subscribed and the
/// buffers it has allowed.
#[derive(Clone, Debug, PartialEq, Eq)]
pub struct Grant {
    /// Whether the record is entered right now.
    pub entered: bool,
    /// For each upcall slot, whether an upcall is subscribed there.
    pub subscribed: Vec<bool>,
    /// The read-only buffer holding the name to search for.
    pub search: Option<Vec<u8>>,
    /// For each index, the read-write buffer allowed there.
    pub shared: Vec<Option<SharedBuffer>>,
}

/// Mathematical model of a [`Grant`].
pub struct GrantView {
    pub entered: bool,
    pub subscribed: Seq<bool>,
    pub search: Option<Seq<u8>>,
    pub shared: Seq<Option<SharedBuffer>>,
}

impl View for Grant {
    type V = GrantView;

    open spec fn view(&self) -> GrantView {
        GrantView {
            entered: self.entered,
            subscribed: self.subscribed@,
            search: match self.search {
                Some(bytes) => Some(bytes@),
                None => None,
            },
            shared: self.shared@,
        }
    }
}

impl GrantView {
    /// A freshly allocated record: nothing subscribed, nothing allowed.
    pub open spec fn fresh() -> GrantView {
        GrantView { entered: false, subscribed: Seq::empty(), search: None, shared: Seq::empty() }
    }

    /// The read-write buffer allowed at `index`, where indices below `limit`
    /// exist.
    pub open spec fn shared_at(self, index: int, limit: int) -> Option<SharedBuffer> {
        if 0 <= index < limit && index < self.shared.len() {
            self.shared[index]
        } else {
            None
        }
    }

    /// Whether an upcall is subscribed at `slot`, where slots below `limit`
    /// exist.
    pub open spec fn subscribed_at(self, slot: int, limit: int) -> bool {
        0 <= slot < limit && slot < self.subscribed.len() && self.subscribed[slot]
    }
}

impl Grant {
    /// A freshly allocated record: nothing subscribed, nothing allowed, not
    /// entered.
    pub fn new() -> (g: Grant)
        ensures
            g@ == GrantView::fresh(),
    {
        Grant { entered: false, subscribed: Vec::new(), search: None, shared: Vec::new() }
    }
}

/// One live process.
#[derive(Clone, Debug, PartialEq, Eq)]
pub struct Process {
    /// Identifier of this occupant of its slot.
    pub identifier: usize,
    /// The application's static name.
    pub name: Vec<u8>,
    /// Queue of deferred work, oldest first.
    pub tasks: Vec<Task>,
    /// Number of tasks the queue can hold.
    pub task_capacity: usize,
    /// Whether the process has switched its service upcall off.
    pub service_off: bool,
    /// Whether the process has switched its client upcalls off.
    pub client_off: bool,
    /// Number of grant records that can still be allocated for it.
    pub free_grants: usize,
    /// The grant record, once allocated.
    pub grant: Option<Grant>,
    /// Installed memory-protection regions.
    pub regions: Vec<MpuRegion>,
}

/// Mathematical model of a [`Process`].
pub struct ProcessView {
    pub identifier: usize,
    pub name: Seq<u8>,
    pub tasks: Seq<Task>,
    pub task_capacity: usize,
    pub service_off: bool,
    pub client_off: bool,
    pub free_grants: usize,
    pub grant: Option<GrantView>,
    pub regions: Seq<MpuRegion>,
}

impl View for Process {
    type V = ProcessView;

    open spec fn view(&self) -> ProcessView {
        ProcessView {
            identifier: self.identifier,
            name: self.name@,
            tasks: self.tasks@,
            task_capacity: self.task_capacity,
            service_off: self.service_off,
            client_off: self.client_off,
            free_grants: self.free_grants,
            grant: match self.grant {
                Some(g) => Some(g@),
                None => None,
            },
            regions: self.regions@,
        }
    }
}

impl ProcessView {
    /// Why the queue refuses `task`, if it does: a notification of a type
    /// that the process has switched off is refused as `Off`; otherwise a
    /// full queue refuses as `NoMem`.
    pub open spec fn refusal(self, task: Task) -> Option<ErrorCode> {
        if task matches Task::IPC(_, cb_type) && (match cb_type {
            IPCUpcallType::Service => self.service_off,
            IPCUpcallType::Client => self.client_off,
        }) {
            Some(ErrorCode::Off)
        } else if self.tasks.len() >= self.task_capacity {
            Some(ErrorCode::NoMem)
        } else {
            None
        }
    }

    /// The process after `task` was offered to its queue.
    pub open spec fn enqueue(self, task: Task) -> ProcessView {
        if self.refusal(task) is None {
            ProcessView { tasks: self.tasks.push(task), ..self }
        } else {
            self
        }
    }

    /// The process after the oldest task was taken off its queue.
    pub open spec fn dequeue(self) -> ProcessView {
        if self.tasks.len() > 0 {
            ProcessView { tasks: self.tasks.drop_first(), ..self }
        } else {
            self
        }
    }

    /// The read-write buffer this process allows at `index`.
    pub open spec fn shared_at(self, index: int, limit: int) -> Option<SharedBuffer> {
        match self.grant {
            Some(g) => g.shared_at(index, limit),
            None => None,
        }
    }

    /// Why the upcall at `slot` cannot be scheduled, if it cannot.
    pub open spec fn upcall_refusal(self, slot: int, limit: int) -> Option<ErrorCode> {
        if !(0 <= slot < limit) {
            Some(ErrorCode::Inval)
        } else if !(self.grant matches Some(g) && g.subscribed_at(slot, limit)) {
            Some(ErrorCode::Off)
        } else if self.tasks.len() >= self.task_capacity {
            Some(ErrorCode::NoMem)
        } else {
            None
        }
    }

    /// The process after an upcall at `slot` was offered to it.
    pub open spec fn schedule(self, slot: usize, limit: int, arg0: usize, arg1: usize, arg2: usize) -> ProcessView {
        if self.upcall_refusal(slot as int, limit) is None {
            ProcessView {
                tasks: self.tasks.push(Task::FunctionCall { upcall: slot, arg0, arg1, arg2 }),
                ..self
            }
        } else {
            self
        }
    }

    /// Why the grant record cannot be entered, if it cannot: a record that
    /// is entered already is in use; a record that does not exist yet needs
    /// memory to be allocated.
    pub open spec fn entry_refusal(self) -> Option<ProcessError> {
        match self.grant {
            Some(g) => if g.entered {
                Some(ProcessError::AlreadyInUse)
            } else {
                None
            },
            None => if self.free_grants == 0 {
                Some(ProcessError::OutOfMemory)
            } else {
                None
            },
        }
    }

    /// The process after an attempt to enter its grant record: the record is
    /// allocated on first entry.
    pub open spec fn enter(self) -> ProcessView {
        if self.entry_refusal() is Some {
            self
        } else {
            let held = self.allocated();
            ProcessView { grant: Some(GrantView { entered: true, ..held.grant->0 }), ..held }
        }
    }

    /// The process with its grant record allocated: a record that exists is
    /// kept as it is; a new one is empty and uses up one of the records that
    /// the process may still allocate.
    pub open spec fn allocated(self) -> ProcessView {
        match self.grant {
            Some(_) => self,
            None => ProcessView {
                free_grants: (self.free_grants - 1) as usize,
                grant: Some(GrantView::fresh()),
                ..self
            },
        }
    }

    /// The process after its grant record was left.
    pub open spec fn leave(self) -> ProcessView {
        match self.grant {
            Some(g) => ProcessView { grant: Some(GrantView { entered: false, ..g }), ..self },
            None => self,
        }
    }

    /// The name that the process has allowed for discovery, if any.
    pub open spec fn search(self) -> Option<Seq<u8>> {
        match self.grant {
            Some(g) => g.search,
            None => None,
        }
    }

    /// Whether the grant record is entered right now.
    pub open spec fn entered(self) -> bool {
        self.grant matches Some(g) && g.entered
    }

    /// Whether a region over exactly `len` bytes from `start` is installed.
    pub open spec fn covers(self, start: usize, len: usize) -> bool {
        self.regions.contains(MpuRegion { start, len })
    }

    /// The process after a region over `len` bytes from `start` was
    /// installed: installing a region twice leaves one.
    pub open spec fn map_region(self, start: usize, len: usize) -> ProcessView {
        if self.covers(start, len) {
            self
        } else {
            ProcessView { regions: self.regions.push(MpuRegion { start, len }), ..self }
        }
    }
}

impl Process {
    /// A process with the given identifier and name, an empty task queue of
    /// the given capacity, no grant record and no regions.
    pub fn new(identifier: usize, name: Vec<u8>, task_capacity: usize, free_grants: usize) -> (p: Process)
        ensures
            p@ == (ProcessView {
                identifier,
                name: name@,
                tasks: Seq::empty(),
                task_capacity,
                service_off: false,
                client_off: false,
                free_grants,
                grant: None,
                regions: Seq::empty(),
            }),
    {
        Process {
            identifier,
            name,
            tasks: Vec::new(),
            task_capacity,
            service_off: false,
            client_off: false,
            free_grants,
            grant: None,
            regions: Vec::new(),
        }
    }

    /// Offers `task` to the queue. A refused task leaves the process as it
    /// was.
    pub fn enqueue_task(&mut self, task: Task) -> (r: Result<(), ErrorCode>)
        ensures
            final(self)@ == old(self)@.enqueue(task),
            match old(self)@.refusal(task) {
                Some(e) => r == Err::<(), ErrorCode>(e),
                None => r is Ok,
            },
    {
        let off = match task {
            Task::IPC(_, IPCUpcallType::Service) => self.service_off,
            Task::IPC(_, IPCUpcallType::Client) => self.client_off,
            Task::FunctionCall { .. } => false,
        };
        if off {
            Err(ErrorCode::Off)
        } else if self.tasks.len() >= self.task_capacity {
            Err(ErrorCode::NoMem)
        } else {
            self.tasks.push(task);
            Ok(())
        }
    }

    /// Takes the oldest task off the queue, if there is one.
    pub fn dequeue_task(&mut self) -> (r: Option<Task>)
        ensures
            final(self)@ == old(self)@.dequeue(),
            r == (if old(self)@.tasks.len() > 0 {
                Some(old(self)@.tasks.first())
            } else {
                None
            }),
    {
        if self.tasks.len() > 0 {
            let task = self.tasks.remove(0);
            assert(self.tasks@ =~= old(self).tasks@.drop_first());
            Some(task)
        } else {
            None
        }
    }

    /// The read-write buffer allowed at `index`, where indices below `limit`
    /// exist.
    pub fn get_readwrite_buffer(&self, index: usize, limit: usize) -> (r: Option<SharedBuffer>)
        ensures
            r == self@.shared_at(index as int, limit as int),
    {
        match &self.grant {
            Some(g) => {
                if index < limit && index < g.shared.len() {
                    g.shared[index]
                } else {
                    None
                }
            },
            None => None,
        }
    }

    /// Queues the upcall at `slot` with three arguments, where slots below
    /// `limit` exist. An upcall that is refused leaves the process as it was.
    pub fn schedule_upcall(&mut self, slot: usize, limit: usize, arg0: usize, arg1: usize, arg2: usize) -> (r: Result<(), ErrorCode>)
        ensures
            final(self)@ == old(self)@.schedule(slot, limit as int, arg0, arg1, arg2),
            match old(self)@.upcall_refusal(slot as int, limit as int) {
                Some(e) => r == Err::<(), ErrorCode>(e),
                None => r is Ok,
            },
    {
        if slot >= limit {
            return Err(ErrorCode::Inval);
        }
        let bound = match &self.grant {
            Some(g) => slot < g.subscribed.len() && g.subscribed[slot],
            None => false,
        };
        if !bound {
            Err(ErrorCode::Off)
        } else if self.tasks.len() >= self.task_capacity {
            Err(ErrorCode::NoMem)
        } else {
            self.tasks.push(Task::FunctionCall { upcall: slot, arg0, arg1, arg2 });
            Ok(())
        }
    }

    /// Why the grant record cannot be entered, if it cannot. Nothing is
    /// entered or allocated by asking.
    pub fn check_entry(&self) -> (r: Option<ProcessError>)
        ensures
            r == self@.entry_refusal(),
    {
        match &self.grant {
            Some(g) => if g.entered {
                Some(ProcessError::AlreadyInUse)
            } else {
                None
            },
            None => if self.free_grants == 0 {
                Some(ProcessError::OutOfMemory)
            } else {
                None
            },
        }
    }

    /// Enters the grant record, allocating it on first entry. A refused
    /// entry leaves the process as it was.
    pub fn enter_grant(&mut self) -> (r: Result<(), ProcessError>)
        ensures
            final(self)@ == old(self)@.enter(),
            match old(self)@.entry_refusal() {
                Some(e) => r == Err::<(), ProcessError>(e),
                None => r is Ok,
            },
    {
        match &mut self.grant {
            Some(g) => {
                if g.entered {
                    Err(ProcessError::AlreadyInUse)
                } else {
                    g.entered = true;
                    Ok(())
                }
            },
            None => {
                if self.free_grants == 0 {
                    Err(ProcessError::OutOfMemory)
                } else {
                    let mut g = Grant::new();
                    g.entered = true;
                    self.free_grants -= 1;
                    self.grant = Some(g);
                    Ok(())
                }
            },
        }
    }

    /// Leaves the grant record.
    pub fn leave_grant(&mut self)
        ensures
            final(self)@ == old(self)@.leave(),
    {
        match &mut self.grant {
            Some(g) => {
                g.entered = false;
            },
            None => {},
        }
    }

    /// Whether a region over exactly `len` bytes from `start` is installed.
    pub fn has_region(&self, start: usize, len: usize) -> (r: bool)
        ensures
            r == self@.covers(start, len),
    {
        let mut i: usize = 0;
        while i < self.regions.len()
            invariant
                i <= self.regions.len(),
                forall|j: int| 0 <= j < i ==> self.regions@[j] != (MpuRegion { start, len }),
            decreases self.regions.len() - i,
        {
            let region = self.regions[i];
            if region.start == start && region.len == len {
                return true;
            }
            i += 1;
        }
        false
    }

    /// Installs a region granting access to `len` bytes from `start`.
    pub fn add_mpu_region(&mut self, start: usize, len: usize)
        ensures
            final(self)@ == old(self)@.map_region(start, len),
            final(self)@.covers(start, len),
    {
        if !self.has_region(start, len) {
            self.regions.push(MpuRegion { start, len });
            assert(self.regions@.last() == (MpuRegion { start, len }));
        }
    }
}

} // verus!
