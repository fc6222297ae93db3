use kernel_ipc::error::{CommandReturn, ErrorCode, ProcessError};
use kernel_ipc::ipc::{deliver_to, IPCUpcallType};
use kernel_ipc::process::{Grant, MpuRegion, Process, ProcessId, SharedBuffer, Task};
use kernel_ipc::table::ProcessTable;

fn plain(identifier: usize, free_grants: usize) -> Process {
    Process::new(identifier, b"app".to_vec(), 2, free_grants)
}

#[test]
fn a_new_process_is_empty() {
    let p = Process::new(3, b"app".to_vec(), 5, 1);
    assert_eq!(p.identifier, 3);
    assert_eq!(p.name, b"app".to_vec());
    assert_eq!(p.tasks, vec![]);
    assert_eq!(p.task_capacity, 5);
    assert!(!p.service_off && !p.client_off);
    assert_eq!(p.free_grants, 1);
    assert_eq!(p.grant, None);
    assert_eq!(p.regions, vec![]);
}

#[test]
fn a_new_table_has_only_empty_slots() {
    let table = ProcessTable::new(3);
    assert_eq!(table.slots, vec![None, None, None]);
    assert_eq!(ProcessTable::new(0).slots, vec![]);
}

#[test]
fn start_takes_only_an_empty_slot() {
    let mut table = ProcessTable::new(2);
    assert_eq!(table.start(1, plain(4, 0)), Some(ProcessId { index: 1, identifier: 4 }));
    let before = table.clone();
    assert_eq!(table.start(1, plain(5, 0)), None);
    assert_eq!(table.start(2, plain(5, 0)), None);
    assert_eq!(table, before);
    assert_eq!(table.slots[1], Some(plain(4, 0)));
}

#[test]
fn handles_resolve_only_for_their_occupant() {
    let mut table = ProcessTable::new(3);
    let id = table.start(1, plain(4, 0)).unwrap();
    assert_eq!(table.index_of(id), Some(1));
    assert_eq!(table.processid_at(1), Some(id));
    assert_eq!(table.processid_at(0), None);
    assert_eq!(table.processid_at(3), None);
    assert_eq!(table.index_of(ProcessId { index: 1, identifier: 5 }), None);
    assert_eq!(table.index_of(ProcessId { index: 0, identifier: 4 }), None);
    assert_eq!(table.index_of(ProcessId { index: 3, identifier: 4 }), None);
    table.terminate(1);
    assert_eq!(table.index_of(id), None);
    assert_eq!(table.processid_at(1), None);
    table.terminate(9);
    assert_eq!(table, ProcessTable::new(3));
}

#[test]
fn a_record_cannot_be_entered_twice() {
    let mut table = ProcessTable::new(3);
    let a = table.start(0, plain(1, 1)).unwrap();
    let b = table.start(2, plain(2, 1)).unwrap();
    assert_eq!(table.check_entry(a), None);
    assert_eq!(table.enter_grant(a), Ok(0));
    let held = table.clone();
    assert_eq!(table.check_entry(a), Some(ProcessError::AlreadyInUse));
    assert_eq!(table.enter_grant(a), Err(ProcessError::AlreadyInUse));
    assert_eq!(table, held);
    // another process's record is free to enter meanwhile
    assert_eq!(table.enter_grant(b), Ok(2));
    assert_eq!(table.enter_grant(b), Err(ProcessError::AlreadyInUse));
    table.leave_grant(0);
    assert_eq!(table.enter_grant(a), Ok(0));
    table.leave_grant(0);
    table.leave_grant(2);
    table.leave_grant(1);
    table.leave_grant(7);
    assert_eq!(table.slots[0].as_ref().unwrap().free_grants, 0);
    assert!(!table.slots[0].as_ref().unwrap().grant.as_ref().unwrap().entered);
    assert!(!table.slots[2].as_ref().unwrap().grant.as_ref().unwrap().entered);
}

#[test]
fn entry_errors() {
    let mut table = ProcessTable::new(2);
    let a = table.start(0, plain(1, 0)).unwrap();
    let before = table.clone();
    assert_eq!(table.check_entry(a), Some(ProcessError::OutOfMemory));
    assert_eq!(table.enter_grant(a), Err(ProcessError::OutOfMemory));
    assert_eq!(table.enter_grant(ProcessId { index: 1, identifier: 1 }), Err(ProcessError::NoSuchApp));
    assert_eq!(table.enter_grant(ProcessId { index: 0, identifier: 2 }), Err(ProcessError::NoSuchApp));
    assert_eq!(table.enter_grant(ProcessId { index: 2, identifier: 1 }), Err(ProcessError::NoSuchApp));
    assert_eq!(table.check_entry(ProcessId { index: 2, identifier: 1 }), Some(ProcessError::NoSuchApp));
    assert_eq!(table, before);
}

#[test]
fn process_entry_allocates_on_first_entry() {
    let mut p = plain(1, 2);
    assert_eq!(p.check_entry(), None);
    assert_eq!(p.enter_grant(), Ok(()));
    assert_eq!(p.free_grants, 1);
    assert_eq!(p.grant, Some(Grant { entered: true, subscribed: vec![], search: None, shared: vec![] }));
    assert_eq!(p.check_entry(), Some(ProcessError::AlreadyInUse));
    assert_eq!(p.enter_grant(), Err(ProcessError::AlreadyInUse));
    p.leave_grant();
    assert_eq!(p.enter_grant(), Ok(()));
    assert_eq!(p.free_grants, 1);
    let mut none = plain(1, 0);
    none.leave_grant();
    assert_eq!(none, plain(1, 0));
    assert_eq!(none.enter_grant(), Err(ProcessError::OutOfMemory));
    assert_eq!(none, plain(1, 0));
}

#[test]
fn the_task_queue_refuses_when_off_or_full() {
    let from = ProcessId { index: 0, identifier: 1 };
    let mut p = plain(2, 0);
    p.client_off = true;
    assert_eq!(p.enqueue_task(Task::IPC(from, IPCUpcallType::Client)), Err(ErrorCode::Off));
    assert_eq!(p.tasks, vec![]);
    assert_eq!(p.enqueue_task(Task::IPC(from, IPCUpcallType::Service)), Ok(()));
    let call = Task::FunctionCall { upcall: 1, arg0: 2, arg1: 3, arg2: 4 };
    assert_eq!(p.enqueue_task(call), Ok(()));
    assert_eq!(p.enqueue_task(call), Err(ErrorCode::NoMem));
    assert_eq!(p.enqueue_task(Task::IPC(from, IPCUpcallType::Service)), Err(ErrorCode::NoMem));
    assert_eq!(p.tasks, vec![Task::IPC(from, IPCUpcallType::Service), call]);
}

#[test]
fn the_table_queues_on_live_slots_only() {
    let from = ProcessId { index: 0, identifier: 1 };
    let task = Task::IPC(from, IPCUpcallType::Service);
    let mut table = ProcessTable::new(2);
    table.start(1, Process::new(4, b"x".to_vec(), 1, 0)).unwrap();
    assert_eq!(table.enqueue_task(0, task), None);
    assert_eq!(table.enqueue_task(2, task), None);
    assert_eq!(table.enqueue_task(1, task), Some(Ok(())));
    assert_eq!(table.enqueue_task(1, task), Some(Err(ErrorCode::NoMem)));
    assert_eq!(table.slots[1].as_ref().unwrap().tasks, vec![task]);
}

#[test]
fn shared_buffers_are_read_within_the_limit() {
    let buffer = SharedBuffer { addr: 64, len: 8 };
    let mut p = plain(1, 0);
    assert_eq!(p.get_readwrite_buffer(0, 4), None);
    p.grant = Some(Grant { entered: false, subscribed: vec![], search: None, shared: vec![None, Some(buffer)] });
    assert_eq!(p.get_readwrite_buffer(1, 4), Some(buffer));
    assert_eq!(p.get_readwrite_buffer(1, 2), Some(buffer));
    assert_eq!(p.get_readwrite_buffer(1, 1), None);
    assert_eq!(p.get_readwrite_buffer(0, 4), None);
    assert_eq!(p.get_readwrite_buffer(2, 4), None);
    let mut table = ProcessTable::new(2);
    table.start(1, p).unwrap();
    assert_eq!(table.shared_buffer(1, 1, 4), Some(buffer));
    assert_eq!(table.shared_buffer(0, 1, 4), None);
    assert_eq!(table.shared_buffer(2, 1, 4), None);
    assert_eq!(table.shared_buffer(1, 1, 1), None);
}

#[test]
fn upcalls_need_a_subscription_and_room() {
    let mut p = plain(1, 0);
    assert_eq!(p.schedule_upcall(0, 3, 1, 2, 3), Err(ErrorCode::Off));
    p.grant = Some(Grant { entered: false, subscribed: vec![false, true, true, true], search: None, shared: vec![] });
    assert_eq!(p.schedule_upcall(0, 3, 1, 2, 3), Err(ErrorCode::Off));
    assert_eq!(p.schedule_upcall(3, 3, 1, 2, 3), Err(ErrorCode::Inval));
    assert_eq!(p.schedule_upcall(4, 5, 1, 2, 3), Err(ErrorCode::Off));
    assert_eq!(p.tasks, vec![]);
    assert_eq!(p.schedule_upcall(1, 3, 1, 2, 3), Ok(()));
    assert_eq!(p.schedule_upcall(2, 3, 4, 5, 6), Ok(()));
    assert_eq!(p.schedule_upcall(2, 3, 7, 8, 9), Err(ErrorCode::NoMem));
    assert_eq!(
        p.tasks,
        vec![
            Task::FunctionCall { upcall: 1, arg0: 1, arg1: 2, arg2: 3 },
            Task::FunctionCall { upcall: 2, arg0: 4, arg1: 5, arg2: 6 },
        ]
    );
}

#[test]
fn regions_are_installed_once() {
    let mut p = plain(1, 0);
    assert!(!p.has_region(16, 4));
    p.add_mpu_region(16, 4);
    p.add_mpu_region(32, 4);
    p.add_mpu_region(16, 4);
    p.add_mpu_region(16, 8);
    assert_eq!(
        p.regions,
        vec![MpuRegion { start: 16, len: 4 }, MpuRegion { start: 32, len: 4 }, MpuRegion { start: 16, len: 8 }]
    );
    assert!(p.has_region(16, 4) && p.has_region(32, 4) && p.has_region(16, 8));
    assert!(!p.has_region(32, 8));
}

#[test]
fn delivery_maps_the_buffer_and_queues_the_upcall() {
    let mut p = plain(1, 0);
    p.grant = Some(Grant { entered: true, subscribed: vec![true, true], search: None, shared: vec![] });
    deliver_to(&mut p, Some(SharedBuffer { addr: 4096, len: 16 }), 1, 2, 0);
    deliver_to(&mut p, None, 0, 2, 7);
    deliver_to(&mut p, None, 0, 2, 7);
    assert_eq!(
        p.tasks,
        vec![
            Task::FunctionCall { upcall: 1, arg0: 0, arg1: 16, arg2: 4096 },
            Task::FunctionCall { upcall: 0, arg0: 7, arg1: 0, arg2: 0 },
        ]
    );
    assert_eq!(p.regions, vec![MpuRegion { start: 4096, len: 16 }]);
}

#[test]
fn command_return_tells_success_from_failure() {
    assert!(CommandReturn::Success.is_success());
    assert!(CommandReturn::SuccessU32(0).is_success());
    assert!(!CommandReturn::Failure(ErrorCode::Fail).is_success());
}

#[test]
fn tasks_leave_the_queue_oldest_first() {
    let from = ProcessId { index: 0, identifier: 1 };
    let first = Task::IPC(from, IPCUpcallType::Service);
    let second = Task::FunctionCall { upcall: 0, arg0: 1, arg1: 2, arg2: 3 };
    let mut p = plain(2, 0);
    assert_eq!(p.dequeue_task(), None);
    assert_eq!(p, plain(2, 0));
    assert_eq!(p.enqueue_task(first), Ok(()));
    assert_eq!(p.enqueue_task(second), Ok(()));
    assert_eq!(p.dequeue_task(), Some(first));
    assert_eq!(p.tasks, vec![second]);
    assert_eq!(p.enqueue_task(first), Ok(()));
    assert_eq!(p.dequeue_task(), Some(second));
    assert_eq!(p.dequeue_task(), Some(first));
    assert_eq!(p.dequeue_task(), None);
}

#[test]
fn a_new_record_is_empty() {
    assert_eq!(Grant::new(), Grant { entered: false, subscribed: vec![], search: None, shared: vec![] });
}
