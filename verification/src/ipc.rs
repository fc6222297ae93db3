//! The syscall driver: discovery, notification and deferred dispatch.

use vstd::prelude::*;
use crate::error::{CommandReturn, ErrorCode, ProcessError};
use crate::process::{Process, ProcessId, ProcessView, SharedBuffer, Task};
use crate::table::{
    discover,
    entry_refusal,
    live_at,
    resolves,
    with_process,
    ProcessTable,
};

verus! {

/// Number under which the driver is reached.
pub const DRIVER_NUM: usize = 0x10000;

/// Index of the read-only buffer that holds the name to search for.
pub const SEARCH_ALLOW_NUM: usize = 0;

/// Upcall slot by which a process registers as a service and is notified by
/// its clients.
pub const SERVICE_UPCALL_NUM: usize = 0;

/// First of the client upcall slots: the upcall for the client in process
/// slot `i` is bound at `CLIENT_UPCALL_NUM_BASE + i`.
pub const CLIENT_UPCALL_NUM_BASE: usize = 1;

/// Which upcall a notification is meant for.
#[derive(Copy, Clone, Debug, PartialEq, Eq, Structural)]
pub enum IPCUpcallType {
    /// The service upcall of the notified process.
    Service,
    /// The client upcall that the notified process holds for the notifier.
    Client,
}

/// A capability to allocate grant memory. Only trusted setup code holds one.
#[derive(Debug)]
pub struct MemoryAllocationCapability {}

/// The mechanism itself. `NUM_PROCS` is the number of read-write buffer
/// indices of a grant record, one per process slot; `NUM_UPCALLS` is its
/// number of upcall slots, one more than `NUM_PROCS`.
#[derive(Debug)]
pub struct IPC<const NUM_PROCS: usize, const NUM_UPCALLS: usize> {
    driver_num: usize,
}

/// The upcall slot that a notification from the process in slot `from` is
/// delivered to.
pub open spec fn upcall_slot(cb_type: IPCUpcallType, from: usize) -> int {
    match cb_type {
        IPCUpcallType::Service => SERVICE_UPCALL_NUM as int,
        IPCUpcallType::Client => from + CLIENT_UPCALL_NUM_BASE,
    }
}

/// What discovery returns to `appid`. A caller whose grant record cannot be
/// entered gets `NoMem`; one that has allowed no name gets `Inval`; a name
/// that no live process bears gets `NoDevice`; otherwise the first slot of
/// that name.
pub open spec fn discovery_return(t: Seq<Option<ProcessView>>, appid: ProcessId) -> CommandReturn {
    if entry_refusal(t, appid) is Some {
        CommandReturn::Failure(ErrorCode::NoMem)
    } else {
        match t[appid.index as int]->0.search() {
            None => CommandReturn::Failure(ErrorCode::Inval),
            Some(name) => match discover(t, name) {
                Some(i) => CommandReturn::SuccessU32(i as u32),
                None => CommandReturn::Failure(ErrorCode::NoDevice),
            },
        }
    }
}

/// What a notify of `target_id` returns. No live process in that slot is
/// `Inval`; a target that has switched the upcall off counts as success; any
/// other refusal of the queue is handed on.
pub open spec fn notify_return(
    t: Seq<Option<ProcessView>>,
    target_id: usize,
    appid: ProcessId,
    cb_type: IPCUpcallType,
) -> CommandReturn {
    if !live_at(t, target_id as int) {
        CommandReturn::Failure(ErrorCode::Inval)
    } else {
        match t[target_id as int]->0.refusal(Task::IPC(appid, cb_type)) {
            None => CommandReturn::Success,
            Some(ErrorCode::Off) => CommandReturn::Success,
            Some(e) => CommandReturn::Failure(e),
        }
    }
}

/// The table after a notify of `target_id`: the task is on the target's
/// queue if the queue took it, and nothing else has changed.
pub open spec fn notify_effect(
    t: Seq<Option<ProcessView>>,
    target_id: usize,
    appid: ProcessId,
    cb_type: IPCUpcallType,
) -> Seq<Option<ProcessView>> {
    with_process(t, target_id as int, |p: ProcessView| p.enqueue(Task::IPC(appid, cb_type)))
}

/// What a command returns.
pub open spec fn command_return(
    t: Seq<Option<ProcessView>>,
    command_number: usize,
    target_id: usize,
    appid: ProcessId,
) -> CommandReturn {
    if command_number == 0 {
        CommandReturn::Success
    } else if command_number == 1 {
        discovery_return(t, appid)
    } else if command_number == 2 {
        notify_return(t, target_id, appid, IPCUpcallType::Service)
    } else if command_number == 3 {
        notify_return(t, target_id, appid, IPCUpcallType::Client)
    } else {
        CommandReturn::Failure(ErrorCode::NoSupport)
    }
}

/// The table after a command: only the two notifies change it.
pub open spec fn command_effect(
    t: Seq<Option<ProcessView>>,
    command_number: usize,
    target_id: usize,
    appid: ProcessId,
) -> Seq<Option<ProcessView>> {
    if command_number == 2 {
        notify_effect(t, target_id, appid, IPCUpcallType::Service)
    } else if command_number == 3 {
        notify_effect(t, target_id, appid, IPCUpcallType::Client)
    } else {
        t
    }
}

/// The notified process after delivery: with a shared buffer, a region over
/// it is installed and the upcall carries its length and address; without
/// one, the upcall carries zeros. An upcall that the process cannot take is
/// dropped.
pub open spec fn deliver(
    p: ProcessView,
    buffer: Option<SharedBuffer>,
    slot: usize,
    limit: int,
    from: usize,
) -> ProcessView {
    match buffer {
        Some(b) => p.map_region(b.addr, b.len).schedule(slot, limit, from, b.len, b.addr),
        None => p.schedule(slot, limit, from, 0, 0),
    }
}

/// What a deferred dispatch returns. A notification whose initiator or
/// target has left its slot is dropped without an error. Otherwise the
/// target's grant record is entered first and the initiator's inside it, and
/// the first refusal is the error; a process that notified itself would
/// enter its own record twice, so its record is in use.
pub open spec fn dispatch_return(
    t: Seq<Option<ProcessView>>,
    schedule_on: ProcessId,
    called_from: ProcessId,
) -> Result<(), ProcessError> {
    if !resolves(t, called_from) || !resolves(t, schedule_on) {
        Ok(())
    } else if entry_refusal(t, schedule_on) is Some {
        Err(entry_refusal(t, schedule_on)->0)
    } else if called_from.index == schedule_on.index {
        Err(ProcessError::AlreadyInUse)
    } else if entry_refusal(t, called_from) is Some {
        Err(entry_refusal(t, called_from)->0)
    } else {
        Ok(())
    }
}

/// The table after a deferred dispatch. A dropped notification and a refused
/// entry of the target leave it as it was. A refused entry of the initiator
/// leaves the target's record allocated and nothing else changed. Otherwise
/// both records are allocated, and the target has received the delivery,
/// with the buffer that the initiator allows at the target's slot. No record
/// stays entered.
pub open spec fn dispatch_effect(
    t: Seq<Option<ProcessView>>,
    schedule_on: ProcessId,
    called_from: ProcessId,
    cb_type: IPCUpcallType,
    num_procs: int,
    num_upcalls: int,
) -> Seq<Option<ProcessView>> {
    if !resolves(t, called_from) || !resolves(t, schedule_on) || entry_refusal(t, schedule_on) is Some {
        t
    } else {
        let to = schedule_on.index as int;
        let from = called_from.index as int;
        let target = t[to]->0.allocated();
        if dispatch_return(t, schedule_on, called_from) is Err {
            t.update(to, Some(target))
        } else {
            let initiator = t[from]->0;
            let buffer = initiator.shared_at(to, num_procs);
            let slot = upcall_slot(cb_type, called_from.index) as usize;
            t.update(to, Some(deliver(target, buffer, slot, num_upcalls, called_from.index))).update(
                from,
                Some(initiator.allocated()),
            )
        }
    }
}

/// The table after the grant record of `id` was allocated, if it can be.
pub open spec fn allocate_effect(t: Seq<Option<ProcessView>>, id: ProcessId) -> Seq<Option<ProcessView>> {
    if entry_refusal(t, id) is Some {
        t
    } else {
        t.update(id.index as int, Some(t[id.index as int]->0.allocated()))
    }
}

/// Delivers a notification from the process in slot `from` to `target`.
pub fn deliver_to(target: &mut Process, buffer: Option<SharedBuffer>, slot: usize, limit: usize, from: usize)
    ensures
        final(target)@ == deliver(old(target)@, buffer, slot, limit as int, from),
{
    match buffer {
        Some(b) => {
            target.add_mpu_region(b.addr, b.len);
            let _ = target.schedule_upcall(slot, limit, from, b.len, b.addr);
        },
        None => {
            let _ = target.schedule_upcall(slot, limit, from, 0, 0);
        },
    }
}

impl<const NUM_PROCS: usize, const NUM_UPCALLS: usize> IPC<NUM_PROCS, NUM_UPCALLS> {
    /// The number under which this driver is reached.
    pub closed spec fn spec_driver_num(&self) -> usize {
        self.driver_num
    }

    /// A driver reached under `driver_num`. Its grant records are allocated
    /// lazily, so the caller must hold the capability to allocate them.
    pub fn new(driver_num: usize, capability: &MemoryAllocationCapability) -> (ipc: Self)
        ensures
            ipc.spec_driver_num() == driver_num,
    {
        let _ = capability;
        Self { driver_num }
    }

    /// The number under which this driver is reached.
    #[verifier::when_used_as_spec(spec_driver_num)]
    pub fn driver_num(&self) -> (n: usize)
        ensures
            n == self.spec_driver_num(),
    {
        self.driver_num
    }

    /// Discovery: the slot of the first live process, in slot order, whose
    /// name is exactly the name that `appid` has allowed. Reads only.
    pub fn discover(&self, table: &ProcessTable, appid: ProcessId) -> (ret: CommandReturn)
        requires
            table.wf(),
        ensures
            ret == discovery_return(table@, appid),
    {
        if table.check_entry(appid).is_some() {
            return CommandReturn::Failure(ErrorCode::NoMem);
        }
        let bound: Option<&Vec<u8>> = match &table.slots[appid.index] {
            Some(p) => match &p.grant {
                Some(g) => g.search.as_ref(),
                None => None,
            },
            None => None,
        };
        match bound {
            None => CommandReturn::Failure(ErrorCode::Inval),
            Some(name) => match table.find_by_name(name.as_slice()) {
                Some(i) => CommandReturn::SuccessU32(i as u32),
                None => CommandReturn::Failure(ErrorCode::NoDevice),
            },
        }
    }

    /// Notify: queues a notification from `appid` on the process that is
    /// live in slot `target_id`. The upcall itself runs later.
    pub fn notify(&self, table: &mut ProcessTable, target_id: usize, appid: ProcessId, cb_type: IPCUpcallType) -> (ret:
        CommandReturn)
        ensures
            ret == notify_return(old(table)@, target_id, appid, cb_type),
            final(table)@ == notify_effect(old(table)@, target_id, appid, cb_type),
            final(table)@.len() == old(table)@.len(),
    {
        match table.enqueue_task(target_id, Task::IPC(appid, cb_type)) {
            None => CommandReturn::Failure(ErrorCode::Inval),
            Some(Ok(())) => CommandReturn::Success,
            Some(Err(e)) => match e {
                ErrorCode::Off => CommandReturn::Success,
                _ => CommandReturn::Failure(e),
            },
        }
    }

    /// Runs one command of the calling process `appid`: 0 probes for the
    /// driver, 1 discovers a service by name, 2 notifies a service, 3
    /// notifies a client; any other number is not supported.
    pub fn command(
        &self,
        table: &mut ProcessTable,
        command_number: usize,
        target_id: usize,
        _unused: usize,
        appid: ProcessId,
    ) -> (ret: CommandReturn)
        requires
            old(table).wf(),
        ensures
            ret == command_return(old(table)@, command_number, target_id, appid),
            final(table)@ == command_effect(old(table)@, command_number, target_id, appid),
            final(table).wf(),
    {
        match command_number {
            0 => CommandReturn::Success,
            1 => self.discover(table, appid),
            2 => self.notify(table, target_id, appid, IPCUpcallType::Service),
            3 => self.notify(table, target_id, appid, IPCUpcallType::Client),
            _ => CommandReturn::Failure(ErrorCode::NoSupport),
        }
    }

    /// Delivers a queued notification from `called_from` to `schedule_on`:
    /// picks the upcall slot, maps the buffer that the initiator shares with
    /// the target, if any, and queues the upcall. Every grant record entered
    /// on the way is released again.
    pub fn schedule_upcall(
        &self,
        table: &mut ProcessTable,
        schedule_on: ProcessId,
        called_from: ProcessId,
        cb_type: IPCUpcallType,
    ) -> (r: Result<(), ProcessError>)
        ensures
            r == dispatch_return(old(table)@, schedule_on, called_from),
            final(table)@ == dispatch_effect(
                old(table)@,
                schedule_on,
                called_from,
                cb_type,
                NUM_PROCS as int,
                NUM_UPCALLS as int,
            ),
            final(table)@.len() == old(table)@.len(),
    {
        let from = match table.index_of(called_from) {
            Some(i) => i,
            None => {
                return Ok(());
            },
        };
        let to = match table.index_of(schedule_on) {
            Some(i) => i,
            None => {
                return Ok(());
            },
        };
        assert(from < table.slots.len());
        let to_schedule: usize = match cb_type {
            IPCUpcallType::Service => SERVICE_UPCALL_NUM,
            IPCUpcallType::Client => from + CLIENT_UPCALL_NUM_BASE,
        };
        match table.enter_grant(schedule_on) {
            Ok(_) => {},
            Err(e) => {
                return Err(e);
            },
        }
        match table.enter_grant(called_from) {
            Ok(_) => {},
            Err(e) => {
                table.leave_grant(to);
                assert(table@ =~= old(table)@.update(to as int, Some(old(table)@[to as int]->0.allocated())));
                return Err(e);
            },
        }
        let buffer = table.shared_buffer(from, to, NUM_PROCS);
        let ghost both = table@;
        match &mut table.slots[to] {
            Some(target) => {
                deliver_to(target, buffer, to_schedule, NUM_UPCALLS, from);
            },
            None => {},
        }
        assert(table@ =~= with_process(
            both,
            to as int,
            |p: ProcessView| deliver(p, buffer, to_schedule, NUM_UPCALLS as int, from),
        ));
        table.leave_grant(from);
        table.leave_grant(to);
        assert(table@ =~= dispatch_effect(
            old(table)@,
            schedule_on,
            called_from,
            cb_type,
            NUM_PROCS as int,
            NUM_UPCALLS as int,
        ));
        Ok(())
    }

    /// Allocates the grant record of `processid` if it does not exist yet.
    pub fn allocate_grant(&self, table: &mut ProcessTable, processid: ProcessId) -> (r: Result<(), ProcessError>)
        ensures
            final(table)@ == allocate_effect(old(table)@, processid),
            final(table)@.len() == old(table)@.len(),
            match entry_refusal(old(table)@, processid) {
                Some(e) => r == Err::<(), ProcessError>(e),
                None => r is Ok,
            },
    {
        match table.enter_grant(processid) {
            Ok(slot) => {
                table.leave_grant(slot);
                assert(table@ =~= allocate_effect(old(table)@, processid));
                Ok(())
            },
            Err(e) => Err(e),
        }
    }
}

} // verus!
