use cdc::event::{Cmd, CmdBatch, ObserveLevel};
use cdc::memory::{MemoryQuota, MemoryQuotaExceeded};
use cdc::scheduler::{ScheduleError, Scheduler};

#[test]
fn try_alloc_fits_exactly_then_fails() {
    let mut q = MemoryQuota::new(10);
    assert_eq!(q.try_alloc(4), Ok(4));
    assert_eq!(q.try_alloc(6), Ok(10));
    assert_eq!(q.try_alloc(1), Err(MemoryQuotaExceeded));
    assert_eq!(q.in_use(), 10);
    assert_eq!(q.try_alloc(0), Ok(10));
}

#[test]
fn forced_alloc_passes_capacity_and_saturates() {
    let mut q = MemoryQuota::new(10);
    assert_eq!(q.alloc_force(25), 25);
    assert_eq!(q.try_alloc(0), Err(MemoryQuotaExceeded));
    assert_eq!(q.alloc_force(usize::MAX), usize::MAX);
    assert_eq!(q.in_use(), usize::MAX);
}

#[test]
fn free_never_goes_below_zero() {
    let mut q = MemoryQuota::new(10);
    q.alloc_force(7);
    q.free(3);
    assert_eq!(q.in_use(), 4);
    q.free(100);
    assert_eq!(q.in_use(), 0);
    q.set_capacity(3);
    assert_eq!(q.capacity(), 3);
}

#[test]
fn scheduler_is_fifo_and_refuses_when_stopped() {
    let mut s: Scheduler<u32> = Scheduler::new();
    assert!(s.schedule(1).is_ok());
    assert!(s.schedule(2).is_ok());
    s.stop();
    match s.schedule(3) {
        Err(ScheduleError::Stopped(t)) => assert_eq!(t, 3),
        Ok(()) => panic!("a stopped scheduler took a task"),
    }
    assert_eq!(s.try_recv(), Some(1));
    assert_eq!(s.try_recv(), Some(2));
    assert_eq!(s.try_recv(), None);
}

#[test]
fn batch_size_counts_payload_bytes() {
    let mut cb = CmdBatch::new(ObserveLevel::All, 3);
    assert!(cb.is_empty());
    assert_eq!(cb.size(), 0);
    cb.push(Cmd::new(1, 1, vec![0; 12]));
    cb.push(Cmd::new(2, 1, vec![]));
    cb.push(Cmd::new(3, 2, vec![1, 2, 3]));
    assert_eq!(cb.len(), 3);
    assert_eq!(cb.size(), 15);
    let copy = cb.clone();
    assert_eq!(copy.size(), 15);
    assert_eq!(copy.cmds[2].data, vec![1, 2, 3]);
}
