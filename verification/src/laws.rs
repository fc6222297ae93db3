//! What holds of the mechanism as a whole, proved from the contracts of its
//! operations.

use vstd::prelude::*;
use crate::error::{CommandReturn, ErrorCode, ProcessError};
use crate::ipc::{
    allocate_effect,
    command_effect,
    command_return,
    dispatch_effect,
    dispatch_return,
    notify_effect,
    notify_return,
    upcall_slot,
    IPCUpcallType,
};
use crate::process::{GrantView, MpuRegion, ProcessId, ProcessView, Task};
use crate::table::{
    discover,
    enter,
    entry_refusal,
    first_named,
    lemma_first_named_unique,
    live_at,
    named_at,
    resolves,
};

verus! {

/// Among the slots up to `i` that bear `name`, the first one.
proof fn first_named_up_to(t: Seq<Option<ProcessView>>, name: Seq<u8>, i: int) -> (j: int)
    requires
        named_at(t, name, i),
    ensures
        0 <= j <= i,
        first_named(t, name, j),
    decreases i,
{
    if exists|k: int| 0 <= k < i && named_at(t, name, k) {
        let k = choose|k: int| 0 <= k < i && named_at(t, name, k);
        first_named_up_to(t, name, k)
    } else {
        i
    }
}

/// Searching for the name of a live process finds a process of exactly that
/// name, in its own slot or in an earlier one; it finds the process itself
/// where no earlier slot bears the same name.
pub proof fn discover_finds_registered_name(t: Seq<Option<ProcessView>>, i: int)
    requires
        live_at(t, i),
        t.len() <= usize::MAX,
    ensures
        discover(t, t[i]->0.name) matches Some(j) && j <= i && named_at(t, t[i]->0.name, j as int),
        (forall|k: int| 0 <= k < i ==> !named_at(t, t[i]->0.name, k)) ==> discover(t, t[i]->0.name) == Some(
            i as usize,
        ),
{
    let name = t[i]->0.name;
    let j = first_named_up_to(t, name, i);
    lemma_first_named_unique(t, name, j);
    if forall|k: int| 0 <= k < i ==> !named_at(t, name, k) {
        assert(j == i);
    }
}

/// Searching for a name fails exactly when no live process bears it.
pub proof fn discover_fails_on_unknown_name(t: Seq<Option<ProcessView>>, name: Seq<u8>)
    ensures
        discover(t, name) is None <==> forall|j: int| !named_at(t, name, j),
{
    if exists|j: int| named_at(t, name, j) {
        let j = choose|j: int| named_at(t, name, j);
        first_named_up_to(t, name, j);
    }
    if discover(t, name) is Some {
        let i = choose|i: int| first_named(t, name, i);
        assert(named_at(t, name, i));
    }
}

/// A caller whose grant record can be entered and who has allowed `name` is
/// told the first slot whose process bears exactly that name, and is told
/// that there is no such device where no live process bears it.
pub proof fn discovery_command_answers(t: Seq<Option<ProcessView>>, appid: ProcessId, name: Seq<u8>, target_id: usize)
    requires
        t.len() <= u32::MAX,
        entry_refusal(t, appid) is None,
        t[appid.index as int]->0.search() == Some(name),
    ensures
        (forall|j: int| !named_at(t, name, j)) ==> command_return(t, 1, target_id, appid) == CommandReturn::Failure(
            ErrorCode::NoDevice,
        ),
        forall|i: int| #[trigger]
            first_named(t, name, i) ==> command_return(t, 1, target_id, appid) == CommandReturn::SuccessU32(
                i as u32,
            ) && 0 <= i <= u32::MAX,
{
    discover_fails_on_unknown_name(t, name);
    assert forall|i: int| #[trigger] first_named(t, name, i) implies command_return(t, 1, target_id, appid)
        == CommandReturn::SuccessU32(i as u32) && 0 <= i <= u32::MAX by {
        lemma_first_named_unique(t, name, i);
    }
}

/// Discovery and the probe read only: the table after them is the table
/// before them, so asking again gives the same answer.
pub proof fn discovery_reads_only(t: Seq<Option<ProcessView>>, target_id: usize, appid: ProcessId)
    ensures
        command_effect(t, 0, target_id, appid) == t,
        command_effect(t, 1, target_id, appid) == t,
        command_return(command_effect(t, 1, target_id, appid), 1, target_id, appid) == command_return(
            t,
            1,
            target_id,
            appid,
        ),
{
}

/// A notify of a live target succeeds unless the target's task queue is
/// full while the upcall is switched on, and then fails with `NoMem`. What
/// the target has subscribed, allowed or allocated plays no part.
pub proof fn notify_of_live_target(
    t: Seq<Option<ProcessView>>,
    target_id: usize,
    appid: ProcessId,
    cb_type: IPCUpcallType,
    other: Option<GrantView>,
)
    requires
        live_at(t, target_id as int),
    ensures
        ({
            let p = t[target_id as int]->0;
            let off = match cb_type {
                IPCUpcallType::Service => p.service_off,
                IPCUpcallType::Client => p.client_off,
            };
            &&& (off || p.tasks.len() < p.task_capacity) ==> notify_return(t, target_id, appid, cb_type)
                == CommandReturn::Success
            &&& (!off && p.tasks.len() >= p.task_capacity) ==> notify_return(t, target_id, appid, cb_type)
                == CommandReturn::Failure(ErrorCode::NoMem)
            &&& notify_return(
                t.update(target_id as int, Some(ProcessView { grant: other, ..p })),
                target_id,
                appid,
                cb_type,
            ) == notify_return(t, target_id, appid, cb_type)
        }),
{
}

/// A notify that succeeds on a target whose upcall is switched on appends
/// exactly one task, naming the caller, to the target's queue, and touches
/// no other process; one that does not find the queue open changes nothing.
pub proof fn notify_queues_one_task(
    t: Seq<Option<ProcessView>>,
    target_id: usize,
    appid: ProcessId,
    cb_type: IPCUpcallType,
)
    requires
        live_at(t, target_id as int),
    ensures
        ({
            let p = t[target_id as int]->0;
            let after = notify_effect(t, target_id, appid, cb_type);
            let task = Task::IPC(appid, cb_type);
            &&& after.len() == t.len()
            &&& forall|i: int| 0 <= i < t.len() && i != target_id ==> after[i] == t[i]
            &&& p.refusal(task) is None ==> after[target_id as int] == Some(
                ProcessView { tasks: p.tasks.push(task), ..p },
            )
            &&& p.refusal(task) is Some ==> after == t
        }),
{
    let p = t[target_id as int]->0;
    if p.refusal(Task::IPC(appid, cb_type)) is Some {
        assert(notify_effect(t, target_id, appid, cb_type) =~= t);
    }
}

/// Tasks leave a queue in the order in which they entered it: a task that
/// the queue takes stands behind all that were waiting, and is the next to
/// leave only where none was.
pub proof fn queue_is_first_in_first_out(p: ProcessView, task: Task)
    requires
        p.refusal(task) is None,
    ensures
        p.enqueue(task).tasks == p.tasks.push(task),
        p.tasks.len() > 0 ==> p.enqueue(task).tasks.first() == p.tasks.first() && p.enqueue(task).dequeue().tasks
            == p.dequeue().tasks.push(task),
        p.tasks.len() == 0 ==> p.enqueue(task).tasks.first() == task && p.enqueue(task).dequeue() == p,
{
    if p.tasks.len() > 0 {
        assert(p.enqueue(task).dequeue().tasks =~= p.dequeue().tasks.push(task));
    } else {
        assert(p.enqueue(task).dequeue().tasks =~= p.tasks);
    }
}

/// A notify of a slot in which no process is live is an invalid argument and
/// changes nothing.
pub proof fn notify_of_dead_slot(t: Seq<Option<ProcessView>>, target_id: usize, appid: ProcessId, cb_type: IPCUpcallType)
    requires
        !live_at(t, target_id as int),
    ensures
        notify_return(t, target_id, appid, cb_type) == CommandReturn::Failure(ErrorCode::Inval),
        notify_effect(t, target_id, appid, cb_type) == t,
        command_return(t, 2, target_id, appid) == CommandReturn::Failure(ErrorCode::Inval),
        command_return(t, 3, target_id, appid) == CommandReturn::Failure(ErrorCode::Inval),
{
}

/// A dispatch between two different live processes whose grant records can
/// be entered succeeds. The target then holds its record and the delivery:
/// with a buffer that the initiator allows at the target's slot, a region
/// over that buffer and an upcall that carries the initiator's slot, the
/// buffer's length and its address; without one, an upcall that carries the
/// initiator's slot and two zeros. An upcall that the target cannot take
/// leaves its queue as it was. The initiator holds its record. No other slot
/// has changed.
pub proof fn dispatch_delivers(
    t: Seq<Option<ProcessView>>,
    schedule_on: ProcessId,
    called_from: ProcessId,
    cb_type: IPCUpcallType,
    num_procs: int,
    num_upcalls: int,
)
    requires
        resolves(t, schedule_on),
        resolves(t, called_from),
        schedule_on.index != called_from.index,
        entry_refusal(t, schedule_on) is None,
        entry_refusal(t, called_from) is None,
        t.len() <= usize::MAX,
    ensures
        dispatch_return(t, schedule_on, called_from) == Ok::<(), ProcessError>(()),
        ({
            let after = dispatch_effect(t, schedule_on, called_from, cb_type, num_procs, num_upcalls);
            let target = t[schedule_on.index as int]->0;
            let initiator = t[called_from.index as int]->0;
            let buffer = initiator.shared_at(schedule_on.index as int, num_procs);
            let slot = upcall_slot(cb_type, called_from.index);
            let upcall = match buffer {
                Some(b) => Task::FunctionCall {
                    upcall: slot as usize,
                    arg0: called_from.index,
                    arg1: b.len,
                    arg2: b.addr,
                },
                None => Task::FunctionCall { upcall: slot as usize, arg0: called_from.index, arg1: 0, arg2: 0 },
            };
            let notified = after[schedule_on.index as int]->0;
            &&& after.len() == t.len()
            &&& forall|i: int|
                0 <= i < t.len() && i != schedule_on.index && i != called_from.index ==> after[i] == t[i]
            &&& after[called_from.index as int] == Some(initiator.allocated())
            &&& after[schedule_on.index as int] is Some
            &&& notified.grant == target.allocated().grant
            &&& notified.tasks == (if target.allocated().upcall_refusal(slot, num_upcalls) is None {
                target.tasks.push(upcall)
            } else {
                target.tasks
            })
            &&& match buffer {
                Some(b) => notified.covers(b.addr, b.len) && notified.regions == target.map_region(
                    b.addr,
                    b.len,
                ).regions,
                None => notified.regions == target.regions,
            }
        }),
{
    let target = t[schedule_on.index as int]->0;
    let initiator = t[called_from.index as int]->0;
    if let Some(b) = initiator.shared_at(schedule_on.index as int, num_procs) {
        let mapped = target.allocated().map_region(b.addr, b.len);
        if !target.covers(b.addr, b.len) {
            assert(mapped.regions.last() == (MpuRegion { start: b.addr, len: b.len }));
        }
        assert(mapped.covers(b.addr, b.len));
    }
}

/// A notification whose initiator or whose target has left its slot is
/// dropped: nothing is entered, allocated, mapped or queued, and no error is
/// raised.
pub proof fn dispatch_drops_stale(
    t: Seq<Option<ProcessView>>,
    schedule_on: ProcessId,
    called_from: ProcessId,
    cb_type: IPCUpcallType,
    num_procs: int,
    num_upcalls: int,
)
    requires
        !resolves(t, called_from) || !resolves(t, schedule_on),
    ensures
        dispatch_return(t, schedule_on, called_from) == Ok::<(), ProcessError>(()),
        dispatch_effect(t, schedule_on, called_from, cb_type, num_procs, num_upcalls) == t,
{
}

/// Entering a grant record that is entered already fails at once with
/// `AlreadyInUse` and changes nothing, while the record of a process in
/// another slot can be entered as if nothing were held.
pub proof fn second_entry_fails_fast(t: Seq<Option<ProcessView>>, id: ProcessId, other: ProcessId)
    requires
        entry_refusal(t, id) is None,
    ensures
        entry_refusal(enter(t, id), id) == Some(ProcessError::AlreadyInUse),
        enter(enter(t, id), id) == enter(t, id),
        other.index != id.index ==> entry_refusal(enter(t, id), other) == entry_refusal(t, other),
{
}

/// A process that notifies itself would enter its own record twice: the
/// dispatch fails with `AlreadyInUse`, queues nothing, and leaves the record
/// allocated and released.
pub proof fn dispatch_to_self_fails_fast(
    t: Seq<Option<ProcessView>>,
    id: ProcessId,
    cb_type: IPCUpcallType,
    num_procs: int,
    num_upcalls: int,
)
    requires
        entry_refusal(t, id) is None,
    ensures
        dispatch_return(t, id, id) == Err::<(), ProcessError>(ProcessError::AlreadyInUse),
        dispatch_effect(t, id, id, cb_type, num_procs, num_upcalls) == allocate_effect(t, id),
        allocate_effect(t, id)[id.index as int]->0.tasks == t[id.index as int]->0.tasks,
        !allocate_effect(t, id)[id.index as int]->0.entered(),
{
}

/// Whatever a dispatch does, it holds no grant record when it returns: a
/// record that is entered afterwards was entered before.
pub proof fn dispatch_releases(
    t: Seq<Option<ProcessView>>,
    schedule_on: ProcessId,
    called_from: ProcessId,
    cb_type: IPCUpcallType,
    num_procs: int,
    num_upcalls: int,
    i: int,
)
    requires
        live_at(dispatch_effect(t, schedule_on, called_from, cb_type, num_procs, num_upcalls), i),
        dispatch_effect(t, schedule_on, called_from, cb_type, num_procs, num_upcalls)[i]->0.entered(),
    ensures
        live_at(t, i),
        t[i]->0.entered(),
{
}

} // verus!
