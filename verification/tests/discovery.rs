use kernel_ipc::error::{CommandReturn, ErrorCode};
use kernel_ipc::ipc::{MemoryAllocationCapability, DRIVER_NUM, IPC};
use kernel_ipc::process::{Grant, Process, ProcessId};
use kernel_ipc::table::{bytes_equal, ProcessTable};

fn ipc4() -> IPC<4, 5> {
    IPC::new(DRIVER_NUM, &MemoryAllocationCapability {})
}

fn searching(identifier: usize, name: &[u8], search: Option<&[u8]>) -> Process {
    let mut p = Process::new(identifier, name.to_vec(), 2, 0);
    p.grant = Some(Grant {
        entered: false,
        subscribed: vec![],
        search: search.map(|s| s.to_vec()),
        shared: vec![],
    });
    p
}

fn table_of(names: &[Option<&[u8]>]) -> ProcessTable {
    let mut table = ProcessTable::new(names.len());
    for (i, name) in names.iter().enumerate() {
        if let Some(name) = name {
            assert!(table.start(i, Process::new(100 + i, name.to_vec(), 2, 1)).is_some());
        }
    }
    table
}

#[test]
fn bytes_equal_is_exact() {
    assert!(bytes_equal(b"", b""));
    assert!(bytes_equal(b"alpha", b"alpha"));
    assert!(!bytes_equal(b"alpha", b"alph"));
    assert!(!bytes_equal(b"alph", b"alpha"));
    assert!(!bytes_equal(b"alpha", b"alphb"));
    assert!(!bytes_equal(b"Alpha", b"alpha"));
    assert!(!bytes_equal(b"", b"a"));
}

#[test]
fn find_by_name_takes_the_first_exact_match() {
    let table = table_of(&[None, Some(b"led"), Some(b"leds"), None, Some(b"led"), Some(b"")]);
    assert_eq!(table.find_by_name(b"led"), Some(1));
    assert_eq!(table.find_by_name(b"leds"), Some(2));
    assert_eq!(table.find_by_name(b""), Some(5));
    assert_eq!(table.find_by_name(b"le"), None);
    assert_eq!(table.find_by_name(b"ledss"), None);
    assert_eq!(table.find_by_name(b"ed"), None);
    assert_eq!(ProcessTable::new(0).find_by_name(b"led"), None);
    assert_eq!(ProcessTable::new(3).find_by_name(b""), None);
}

#[test]
fn every_registered_name_is_found_in_its_slot() {
    let names: [&[u8]; 4] = [b"one", b"two", b"three", b"four"];
    let table = table_of(&[Some(names[0]), Some(names[1]), Some(names[2]), Some(names[3])]);
    for (i, name) in names.iter().enumerate() {
        assert_eq!(table.find_by_name(name), Some(i));
    }
}

#[test]
fn discovery_returns_the_slot_of_the_name() {
    let ipc = ipc4();
    let mut table = table_of(&[Some(b"sensor"), None, Some(b"radio")]);
    table.slots[1] = Some(searching(9, b"client", Some(b"radio")));
    let caller = ProcessId { index: 1, identifier: 9 };
    assert_eq!(ipc.discover(&table, caller), CommandReturn::SuccessU32(2));
    assert_eq!(ipc.command(&mut table, 1, 77, 0, caller), CommandReturn::SuccessU32(2));
    // a process can find itself
    table.slots[1].as_mut().unwrap().grant.as_mut().unwrap().search = Some(b"client".to_vec());
    assert_eq!(ipc.command(&mut table, 1, 0, 0, caller), CommandReturn::SuccessU32(1));
    table.slots[1].as_mut().unwrap().grant.as_mut().unwrap().search = Some(b"sensor".to_vec());
    assert_eq!(ipc.command(&mut table, 1, 0, 0, caller), CommandReturn::SuccessU32(0));
}

#[test]
fn discovery_of_an_unknown_name_is_no_such_device() {
    let ipc = ipc4();
    let mut table = table_of(&[Some(b"sensor"), None, Some(b"radio")]);
    let caller = ProcessId { index: 1, identifier: 9 };
    for fragment in [&b"radi"[..], b"radios", b"adio", b"", b"Radio"] {
        table.slots[1] = Some(searching(9, b"client", Some(fragment)));
        assert_eq!(ipc.command(&mut table, 1, 0, 0, caller), CommandReturn::Failure(ErrorCode::NoDevice));
    }
    // a terminated service is no longer found
    table.slots[1] = Some(searching(9, b"client", Some(b"radio")));
    assert_eq!(ipc.command(&mut table, 1, 0, 0, caller), CommandReturn::SuccessU32(2));
    table.terminate(2);
    assert_eq!(ipc.command(&mut table, 1, 0, 0, caller), CommandReturn::Failure(ErrorCode::NoDevice));
}

#[test]
fn discovery_without_a_name_buffer_is_invalid() {
    let ipc = ipc4();
    let mut table = table_of(&[Some(b"sensor"), None, Some(b"radio")]);
    table.slots[1] = Some(searching(9, b"client", None));
    let caller = ProcessId { index: 1, identifier: 9 };
    assert_eq!(ipc.command(&mut table, 1, 0, 0, caller), CommandReturn::Failure(ErrorCode::Inval));
    // no grant record yet, but memory for one: still nothing allowed
    let fresh = ProcessId { index: 0, identifier: 100 };
    let before = table.clone();
    assert_eq!(ipc.command(&mut table, 1, 0, 0, fresh), CommandReturn::Failure(ErrorCode::Inval));
    assert_eq!(table, before);
    assert_eq!(table.slots[0].as_ref().unwrap().grant, None);
}

#[test]
fn discovery_by_a_caller_whose_record_cannot_be_entered_is_out_of_memory() {
    let ipc = ipc4();
    let mut table = table_of(&[Some(b"sensor"), None, Some(b"radio")]);
    // no live caller
    assert_eq!(
        ipc.command(&mut table, 1, 0, 0, ProcessId { index: 1, identifier: 9 }),
        CommandReturn::Failure(ErrorCode::NoMem)
    );
    // a stale handle
    assert_eq!(
        ipc.command(&mut table, 1, 0, 0, ProcessId { index: 0, identifier: 99 }),
        CommandReturn::Failure(ErrorCode::NoMem)
    );
    // no memory for the record
    table.slots[0].as_mut().unwrap().free_grants = 0;
    assert_eq!(
        ipc.command(&mut table, 1, 0, 0, ProcessId { index: 0, identifier: 100 }),
        CommandReturn::Failure(ErrorCode::NoMem)
    );
    // the record is held further up the call chain
    table.slots[1] = Some(searching(9, b"client", Some(b"radio")));
    let caller = ProcessId { index: 1, identifier: 9 };
    assert_eq!(table.enter_grant(caller), Ok(1));
    assert_eq!(ipc.command(&mut table, 1, 0, 0, caller), CommandReturn::Failure(ErrorCode::NoMem));
    table.leave_grant(1);
    assert_eq!(ipc.command(&mut table, 1, 0, 0, caller), CommandReturn::SuccessU32(2));
}

#[test]
fn discovery_changes_nothing_and_can_be_repeated() {
    let ipc = ipc4();
    let mut table = table_of(&[Some(b"sensor"), None, Some(b"radio"), Some(b"radio")]);
    table.slots[1] = Some(searching(9, b"client", Some(b"radio")));
    let caller = ProcessId { index: 1, identifier: 9 };
    let before = table.clone();
    for _ in 0..3 {
        assert_eq!(ipc.command(&mut table, 1, 0, 0, caller), CommandReturn::SuccessU32(2));
        assert_eq!(table, before);
    }
}
