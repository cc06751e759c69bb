use sparklink::errno::Errno;
use sparklink::sle_mgmt::{
    CmdPendingEntry, CmdPendingQueue, CmdRequestQueue, CMD_QUEUE_DEPTH, CMD_REQ_QUEUE_DEPTH,
    CMD_STATUS_PENDING, CMD_TIMEOUT_STATUS,
};

#[test]
fn new_command_waits() {
    let e = CmdPendingEntry::new(0x0408, 7, 100, 50);
    assert!(e.is_pending());
    assert!(!e.is_resolved());
    assert_eq!(e.result_status(), None);
    assert_eq!(e.status, CMD_STATUS_PENDING);
    assert_eq!(e.deadline, 150);
    assert!(!e.is_expired(149));
    assert!(e.is_expired(150));
}

#[test]
fn deadline_wraps_with_the_clock() {
    let e = CmdPendingEntry::new(1, 1, u64::MAX, 3);
    assert_eq!(e.deadline, 2);
}

#[test]
fn answer_settles_a_command() {
    let mut e = CmdPendingEntry::new(0x0408, 1, 0, 10);
    e.resolve(0x12, &[1, 2, 3]);
    assert!(!e.is_pending());
    assert!(e.is_resolved());
    assert_eq!(e.status, 0x8000_0012);
    assert_eq!(e.result_status(), Some(0x12));
    assert_eq!(e.data_len, 3);
    assert_eq!(&e.data[..4], &[1, 2, 3, 0]);
}

#[test]
fn long_answer_is_cut() {
    let mut e = CmdPendingEntry::new(1, 1, 0, 10);
    e.resolve(0, &[9; 80]);
    assert_eq!(e.data_len, 64);
    assert_eq!(e.data, [9; 64]);
}

#[test]
fn command_given_up_has_no_status() {
    let mut e = CmdPendingEntry::new(1, 1, 0, 10);
    e.timeout();
    assert_eq!(e.status, CMD_TIMEOUT_STATUS);
    assert!(e.is_resolved());
    assert_eq!(e.result_status(), None);
}

#[test]
fn queue_numbers_commands_from_one() {
    let mut q = CmdPendingQueue::new();
    assert_eq!(q.submit(0x0401, 0, 100), Ok(1));
    assert_eq!(q.submit_with_timeout(0x0402, 0, 5), Ok(2));
    assert_eq!(q.pending(), 2);
    assert_eq!(q.find_by_seq(2).map(|e| (e.opcode, e.deadline)), Some((0x0402, 5)));
    assert!(q.find_by_seq(3).is_none());
}

#[test]
fn full_queue_is_busy() {
    let mut q = CmdPendingQueue::new();
    for i in 0..CMD_QUEUE_DEPTH {
        assert_eq!(q.submit(i as u16, 0, 1), Ok(i as u32 + 1));
    }
    assert_eq!(q.submit(99, 0, 1), Err(Errno::EBUSY));
    assert_eq!(q.total_submitted(), 16);
    assert!(q.resolve(3, 0, &[]));
    assert_eq!(q.pending(), 15);
    assert!(q.submit(99, 0, 1).is_ok());
}

#[test]
fn oldest_command_of_an_opcode_is_answered() {
    let mut q = CmdPendingQueue::new();
    let a = q.submit(5, 0, 1).unwrap();
    let b = q.submit(5, 0, 1).unwrap();
    assert!(q.resolve(5, 1, &[0xAA]));
    assert_eq!(q.find_by_seq(a).unwrap().result_status(), Some(1));
    assert!(q.find_by_seq(b).unwrap().is_pending());
    assert!(q.resolve(5, 2, &[]));
    assert_eq!(q.find_by_seq(b).unwrap().result_status(), Some(2));
    assert!(!q.resolve(5, 3, &[]));
    assert_eq!(q.total_resolved(), 2);
}

#[test]
fn oldest_command_is_answered_after_the_ring_wrapped() {
    let mut q = CmdPendingQueue::new();
    for _ in 0..15 {
        q.submit(1, 0, 1).unwrap();
        assert!(q.resolve(1, 0, &[]));
    }
    let old = q.submit(7, 0, 1).unwrap();
    let new = q.submit(7, 0, 1).unwrap();
    assert!(q.resolve(7, 4, &[]));
    assert_eq!(q.find_by_seq(old).unwrap().result_status(), Some(4));
    assert!(q.find_by_seq(new).unwrap().is_pending());
}

#[test]
fn overdue_commands_are_given_up() {
    let mut q = CmdPendingQueue::new();
    let a = q.submit(1, 0, 10).unwrap();
    let b = q.submit(2, 0, 20).unwrap();
    assert_eq!(q.expire_stale(9), 0);
    assert_eq!(q.expire_stale(10), 1);
    assert_eq!(q.find_by_seq(a).unwrap().status, CMD_TIMEOUT_STATUS);
    assert!(q.find_by_seq(b).unwrap().is_pending());
    assert_eq!(q.pending(), 1);
    assert_eq!(q.total_timeouts(), 1);
    assert_eq!(q.total_resolved(), 1);
    assert_eq!(q.expire_stale(10), 0);
}

#[test]
fn clearing_keeps_the_commands_that_wait() {
    let mut q = CmdPendingQueue::new();
    let a = q.submit(1, 0, 10).unwrap();
    let b = q.submit(2, 0, 10).unwrap();
    assert!(q.resolve(1, 0, &[]));
    q.gc();
    assert!(q.find_by_seq(a).is_none());
    assert!(q.find_by_seq(b).unwrap().is_pending());
    assert_eq!(q.pending(), 1);
}

#[test]
fn count_is_that_of_the_commands_that_wait() {
    let mut q = CmdPendingQueue::new();
    q.submit(0xAAAA, 0, 1000).unwrap();
    for _ in 0..15 {
        q.submit(1, 0, 1).unwrap();
        assert!(q.resolve(1, 0, &[]));
    }
    assert_eq!(q.pending(), 1);
    // The next one takes the slot of the first, which is still waiting.
    q.submit(2, 0, 1).unwrap();
    assert_eq!(q.pending(), 1);
    assert!(!q.resolve(0xAAAA, 0, &[]));
    assert!(q.resolve(2, 0, &[]));
    assert_eq!(q.pending(), 0);
}

#[test]
fn requests_come_out_in_order() {
    let mut q = CmdRequestQueue::new();
    assert!(q.is_empty());
    assert!(q.pop().is_none());
    assert_eq!(q.push(0x0405, &[1, 2]), Ok(()));
    assert_eq!(q.push(0x0406, &[]), Ok(()));
    assert_eq!(q.len(), 2);
    let a = q.pop().unwrap();
    assert_eq!((a.opcode, a.param_len), (0x0405, 2));
    assert_eq!(&a.params[..3], &[1, 2, 0]);
    assert_eq!(q.pop().unwrap().opcode, 0x0406);
    assert!(q.is_empty());
}

#[test]
fn request_parameters_are_cut() {
    let mut q = CmdRequestQueue::new();
    q.push(1, &[5; 300]).unwrap();
    let r = q.pop().unwrap();
    assert_eq!(r.param_len, 240);
    assert_eq!(r.params, [5; 240]);
}

#[test]
fn full_request_queue_is_busy() {
    let mut q = CmdRequestQueue::new();
    for i in 0..CMD_REQ_QUEUE_DEPTH {
        assert_eq!(q.push(i as u16, &[]), Ok(()));
    }
    assert_eq!(q.push(1, &[]), Err(Errno::EBUSY));
    for round in 0..100u16 {
        assert!(q.pop().is_some());
        assert_eq!(q.push(1000 + round, &[]), Ok(()));
    }
    assert_eq!(q.pop().unwrap().opcode, 1036);
}
