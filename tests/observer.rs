use cdc::event::{
    new_peer, Cmd, CmdBatch, ObserveIdGenerator, ObserveLevel, ObserverContext, Region,
    RegionChangeEvent, RegionChangeReason, RoleChange, StateRole, TxnExtra, INVALID_ID,
};
use cdc::memory::MemoryQuota;
use cdc::observer::{CdcObserver, Deregister, DeregisterReason, KvEngine, Task};
use cdc::scheduler::Scheduler;

struct TestEngine {
    seqno: u64,
}

impl KvEngine for TestEngine {
    type Snapshot = u64;

    fn snapshot(&self) -> u64 {
        self.seqno
    }
}

fn observer_with_capacity(capacity: usize) -> CdcObserver<u64> {
    CdcObserver::new(Scheduler::new(), MemoryQuota::new(capacity))
}

fn batch(level: ObserveLevel, region_id: u64, payloads: &[&[u8]]) -> CmdBatch {
    let mut cb = CmdBatch::new(level, region_id);
    for (i, p) in payloads.iter().enumerate() {
        cb.push(Cmd::new(i as u64 + 1, 1, p.to_vec()));
    }
    cb
}

fn test_region() -> Region {
    Region::new(1, vec![new_peer(2, 2), new_peer(3, 3)])
}

#[test]
fn test_register_and_deregister() {
    let mut observer = observer_with_capacity(usize::MAX);
    let engine = TestEngine { seqno: 7 };

    let mut cb = CmdBatch::new(ObserveLevel::All, 0);
    cb.push(Cmd::new(0, 0, vec![]));
    let size = cb.size();
    let level = cb.level;
    observer.on_flush_applied_cmd_batch(level, &mut vec![cb], &engine);
    assert_eq!(observer.memory_quota.in_use(), size);
    match observer.sched.try_recv().unwrap() {
        Task::MultiBatch { multi, .. } => {
            assert_eq!(multi.len(), 1);
            assert_eq!(multi[0].len(), 1);
        }
        _ => panic!("unexpected task"),
    };

    // Stop observing cmd: only the resolved-ts observer is left.
    let mut cb = CmdBatch::new(ObserveLevel::LeaderOnly, 0);
    cb.push(Cmd::new(0, 0, vec![]));
    let level = cb.level;
    observer.on_flush_applied_cmd_batch(level, &mut vec![cb], &engine);
    assert!(observer.sched.try_recv().is_none());

    // Does not send unsubscribed region events.
    let mut region = test_region();
    let ctx = ObserverContext::new(region.clone());
    observer.on_role_change(&ctx, &RoleChange::new(StateRole::Follower));
    assert!(observer.sched.try_recv().is_none());

    let mut ids = ObserveIdGenerator::new();
    let oid = ids.next_id();
    observer.subscribe_region(1, oid);

    // NotLeader error should contain the new leader.
    observer.on_role_change(
        &ctx,
        &RoleChange {
            state: StateRole::Follower,
            leader_id: 2,
            prev_lead_transferee: INVALID_ID,
            vote: INVALID_ID,
            initialized: true,
            peer_id: INVALID_ID,
        },
    );
    match observer.sched.try_recv().unwrap() {
        Task::Deregister(Deregister { region_id, observe_id, err }) => {
            assert_eq!(region_id, 1);
            assert_eq!(observe_id, oid);
            assert_eq!(
                err,
                DeregisterReason::NotLeader { region_id, leader: Some(new_peer(2, 2)) }
            );
        }
        _ => panic!("unexpected task"),
    };

    // NotLeader error should include the leader transferee.
    observer.on_role_change(
        &ctx,
        &RoleChange {
            state: StateRole::Follower,
            leader_id: INVALID_ID,
            prev_lead_transferee: 3,
            vote: 3,
            initialized: true,
            peer_id: INVALID_ID,
        },
    );
    match observer.sched.try_recv().unwrap() {
        Task::Deregister(Deregister { region_id, observe_id, err }) => {
            assert_eq!(region_id, 1);
            assert_eq!(observe_id, oid);
            assert_eq!(
                err,
                DeregisterReason::NotLeader { region_id, leader: Some(new_peer(3, 3)) }
            );
        }
        _ => panic!("unexpected task"),
    };

    // No event if it changes to leader.
    observer.on_role_change(&ctx, &RoleChange::new(StateRole::Leader));
    assert!(observer.sched.try_recv().is_none());

    // Unsubscribing fails if the observe id is different.
    assert_eq!(observer.unsubscribe_region(1, ids.next_id()), None);

    // No event if it is unsubscribed.
    let oid_ = observer.unsubscribe_region(1, oid).unwrap();
    assert_eq!(oid_, oid);
    observer.on_role_change(&ctx, &RoleChange::new(StateRole::Follower));
    assert!(observer.sched.try_recv().is_none());

    // No event if it is unsubscribed.
    region.id = 999;
    let ctx = ObserverContext::new(region);
    observer.on_role_change(&ctx, &RoleChange::new(StateRole::Follower));
    assert!(observer.sched.try_recv().is_none());
}

#[test]
fn test_txn_extra_dropped_since_exceed_memory_quota() {
    let mut observer = observer_with_capacity(10);
    let engine = TestEngine { seqno: 1 };

    let mut cb = CmdBatch::new(ObserveLevel::All, 0);
    cb.push(Cmd::new(0, 0, vec![]));
    let level = cb.level;
    observer.on_flush_applied_cmd_batch(level, &mut vec![cb], &engine);

    observer.schedule_txn_extra(TxnExtra {
        old_values: Vec::new(),
        one_pc: false,
        allowed_in_flashback: false,
    });

    match observer.sched.try_recv().unwrap() {
        Task::MultiBatch { multi, .. } => {
            assert_eq!(multi.len(), 1);
            assert_eq!(multi[0].len(), 1);
        }
        _ => panic!("unexpected task"),
    };
    assert!(observer.sched.try_recv().is_none());
}

#[test]
fn flush_below_all_level_enqueues_nothing() {
    let mut observer = observer_with_capacity(usize::MAX);
    let engine = TestEngine { seqno: 1 };
    let mut batches = vec![
        batch(ObserveLevel::LeaderOnly, 1, &[b"abc"]),
        batch(ObserveLevel::Off, 2, &[b"de"]),
    ];
    observer.on_flush_applied_cmd_batch(ObserveLevel::LeaderOnly, &mut batches, &engine);
    assert_eq!(observer.sched.len(), 0);
    assert_eq!(observer.memory_quota.in_use(), 0);
    assert_eq!(batches.len(), 2);

    observer.on_flush_applied_cmd_batch(ObserveLevel::All, &mut batches, &engine);
    assert_eq!(observer.sched.len(), 0);
    assert_eq!(observer.memory_quota.in_use(), 0);
}

#[test]
fn flush_of_empty_batches_enqueues_nothing() {
    let mut observer = observer_with_capacity(usize::MAX);
    let engine = TestEngine { seqno: 1 };
    let mut batches = vec![batch(ObserveLevel::All, 1, &[]), batch(ObserveLevel::All, 2, &[])];
    observer.on_flush_applied_cmd_batch(ObserveLevel::All, &mut batches, &engine);
    assert_eq!(observer.sched.len(), 0);
    assert_eq!(observer.memory_quota.in_use(), 0);
}

#[test]
fn flush_charges_exact_bytes_and_keeps_order() {
    let mut observer = observer_with_capacity(usize::MAX);
    observer.memory_quota.alloc_force(5);
    let engine = TestEngine { seqno: 42 };
    let mut batches = vec![
        batch(ObserveLevel::All, 1, &[b"abc", b"de"]),
        batch(ObserveLevel::LeaderOnly, 2, &[b"ignored"]),
        batch(ObserveLevel::All, 3, &[]),
        batch(ObserveLevel::All, 4, &[b"fghij"]),
        batch(ObserveLevel::All, 5, &[b"k"]),
    ];
    observer.on_flush_applied_cmd_batch(ObserveLevel::All, &mut batches, &engine);
    assert_eq!(observer.memory_quota.in_use(), 5 + 5 + 5 + 1);
    assert_eq!(observer.sched.len(), 1);
    match observer.sched.try_recv().unwrap() {
        Task::MultiBatch { multi, old_value_snapshot } => {
            assert_eq!(old_value_snapshot, 42);
            let regions: Vec<u64> = multi.iter().map(|b| b.region_id).collect();
            assert_eq!(regions, vec![1, 4, 5]);
            assert_eq!(multi[0].cmds[1].data, b"de".to_vec());
            assert_eq!(multi[0].cmds[1].index, 2);
        }
        _ => panic!("unexpected task"),
    }
    // The caller's batches are left as they were.
    assert_eq!(batches.len(), 5);
    assert_eq!(batches[1].region_id, 2);
}

#[test]
fn successive_flushes_are_delivered_in_order() {
    let mut observer = observer_with_capacity(usize::MAX);
    let engine = TestEngine { seqno: 1 };
    let mut first = vec![batch(ObserveLevel::All, 10, &[b"a"])];
    let mut second = vec![batch(ObserveLevel::All, 20, &[b"b"])];
    observer.on_flush_applied_cmd_batch(ObserveLevel::All, &mut first, &engine);
    observer.on_flush_applied_cmd_batch(ObserveLevel::All, &mut second, &engine);
    for expected in [10, 20] {
        match observer.sched.try_recv().unwrap() {
            Task::MultiBatch { multi, .. } => assert_eq!(multi[0].region_id, expected),
            _ => panic!("unexpected task"),
        }
    }
}

#[test]
fn flush_on_stopped_scheduler_still_charges_quota() {
    let mut observer = observer_with_capacity(usize::MAX);
    observer.sched.stop();
    let engine = TestEngine { seqno: 1 };
    let mut batches = vec![batch(ObserveLevel::All, 1, &[b"abcd"])];
    observer.on_flush_applied_cmd_batch(ObserveLevel::All, &mut batches, &engine);
    assert_eq!(observer.memory_quota.in_use(), 4);
    assert_eq!(observer.sched.len(), 0);
}

#[test]
fn role_change_with_explicit_leader_names_it() {
    let mut observer = observer_with_capacity(usize::MAX);
    let mut ids = ObserveIdGenerator::new();
    let oid = ids.next_id();
    observer.subscribe_region(1, oid);
    let ctx = ObserverContext::new(test_region());
    let mut rc = RoleChange::new(StateRole::Candidate);
    rc.leader_id = 2;
    rc.prev_lead_transferee = 3;
    rc.vote = 3;
    observer.on_role_change(&ctx, &rc);
    match observer.sched.try_recv().unwrap() {
        Task::Deregister(d) => assert_eq!(
            d,
            Deregister {
                region_id: 1,
                observe_id: oid,
                err: DeregisterReason::NotLeader { region_id: 1, leader: Some(new_peer(2, 2)) },
            }
        ),
        _ => panic!("unexpected task"),
    }
}

#[test]
fn role_change_with_unknown_leader_omits_it() {
    let mut observer = observer_with_capacity(usize::MAX);
    let mut ids = ObserveIdGenerator::new();
    let oid = ids.next_id();
    observer.subscribe_region(1, oid);
    let ctx = ObserverContext::new(test_region());

    // The explicit leader is not among the peers.
    let mut rc = RoleChange::new(StateRole::Follower);
    rc.leader_id = 9;
    observer.on_role_change(&ctx, &rc);
    // The transferee and the vote differ.
    let mut rc = RoleChange::new(StateRole::PreCandidate);
    rc.prev_lead_transferee = 2;
    rc.vote = 3;
    observer.on_role_change(&ctx, &rc);
    for _ in 0..2 {
        match observer.sched.try_recv().unwrap() {
            Task::Deregister(d) => {
                assert_eq!(d.observe_id, oid);
                assert_eq!(d.err, DeregisterReason::NotLeader { region_id: 1, leader: None });
            }
            _ => panic!("unexpected task"),
        }
    }
    assert!(observer.sched.try_recv().is_none());
}

#[test]
fn role_change_to_leader_or_unsubscribed_enqueues_nothing() {
    let mut observer = observer_with_capacity(usize::MAX);
    let ctx = ObserverContext::new(test_region());
    let mut rc = RoleChange::new(StateRole::Follower);
    rc.leader_id = 2;
    observer.on_role_change(&ctx, &rc);
    assert_eq!(observer.sched.len(), 0);

    let mut ids = ObserveIdGenerator::new();
    observer.subscribe_region(1, ids.next_id());
    let mut rc = RoleChange::new(StateRole::Leader);
    rc.leader_id = 2;
    observer.on_role_change(&ctx, &rc);
    assert_eq!(observer.sched.len(), 0);
    // The registry is left alone.
    assert!(observer.is_subscribed(1).is_some());
}

#[test]
fn region_end_signals_region_not_found() {
    let events = [
        RegionChangeEvent::Destroy,
        RegionChangeEvent::Update(RegionChangeReason::Split),
        RegionChangeEvent::Update(RegionChangeReason::CommitMerge),
    ];
    for event in events {
        let mut observer = observer_with_capacity(usize::MAX);
        let ctx = ObserverContext::new(test_region());
        observer.on_region_changed(&ctx, event, StateRole::Follower);
        assert_eq!(observer.sched.len(), 0);

        let mut ids = ObserveIdGenerator::new();
        let oid = ids.next_id();
        observer.subscribe_region(1, oid);
        observer.on_region_changed(&ctx, event, StateRole::Leader);
        assert_eq!(observer.sched.len(), 1);
        match observer.sched.try_recv().unwrap() {
            Task::Deregister(d) => assert_eq!(
                d,
                Deregister {
                    region_id: 1,
                    observe_id: oid,
                    err: DeregisterReason::RegionNotFound { region_id: 1 },
                }
            ),
            _ => panic!("unexpected task"),
        }
        assert_eq!(observer.is_subscribed(1), Some(oid));
    }
}

#[test]
fn other_region_changes_enqueue_nothing() {
    let mut observer = observer_with_capacity(usize::MAX);
    let mut ids = ObserveIdGenerator::new();
    observer.subscribe_region(1, ids.next_id());
    let ctx = ObserverContext::new(test_region());
    let events = [
        RegionChangeEvent::Create,
        RegionChangeEvent::UpdateBuckets(3),
        RegionChangeEvent::Update(RegionChangeReason::ChangePeer),
        RegionChangeEvent::Update(RegionChangeReason::PrepareMerge),
        RegionChangeEvent::Update(RegionChangeReason::RollbackMerge),
    ];
    for event in events {
        observer.on_region_changed(&ctx, event, StateRole::Leader);
    }
    assert_eq!(observer.sched.len(), 0);
}

#[test]
fn full_quota_drops_hints_but_delivers_batches() {
    let mut observer = observer_with_capacity(8);
    observer.memory_quota.alloc_force(8);
    observer.schedule_txn_extra(TxnExtra {
        old_values: vec![(b"k".to_vec(), b"v".to_vec())],
        one_pc: true,
        allowed_in_flashback: false,
    });
    assert_eq!(observer.sched.len(), 0);
    assert_eq!(observer.memory_quota.in_use(), 8);

    let engine = TestEngine { seqno: 3 };
    let mut batches = vec![batch(ObserveLevel::All, 1, &[b"xyz"])];
    observer.on_flush_applied_cmd_batch(ObserveLevel::All, &mut batches, &engine);
    assert_eq!(observer.memory_quota.in_use(), 11);
    match observer.sched.try_recv().unwrap() {
        Task::MultiBatch { multi, .. } => assert_eq!(multi.len(), 1),
        _ => panic!("unexpected task"),
    }
}

#[test]
fn hints_within_quota_are_queued_and_charged() {
    let extra = TxnExtra {
        old_values: vec![(b"key".to_vec(), b"value".to_vec())],
        one_pc: false,
        allowed_in_flashback: false,
    };
    let size = extra.size();
    assert_eq!(size, std::mem::size_of::<TxnExtra>() + 8);
    let mut observer = observer_with_capacity(size);
    observer.schedule_txn_extra(extra);
    assert_eq!(observer.memory_quota.in_use(), size);
    match observer.sched.try_recv().unwrap() {
        Task::TxnExtra(e) => assert_eq!(e.old_values[0].1, b"value".to_vec()),
        _ => panic!("unexpected task"),
    }
}

#[test]
fn applied_current_term_does_nothing() {
    let mut observer = observer_with_capacity(usize::MAX);
    observer.on_applied_current_term(StateRole::Leader, &test_region());
    assert_eq!(observer.sched.len(), 0);
    assert_eq!(observer.memory_quota.in_use(), 0);
}

#[test]
fn role_change_with_voted_transferee_names_it() {
    let mut observer = observer_with_capacity(usize::MAX);
    let mut ids = ObserveIdGenerator::new();
    let oid = ids.next_id();
    observer.subscribe_region(1, oid);
    let ctx = ObserverContext::new(test_region());
    let mut rc = RoleChange::new(StateRole::Follower);
    rc.prev_lead_transferee = 3;
    rc.vote = 3;
    observer.on_role_change(&ctx, &rc);
    match observer.sched.try_recv().unwrap() {
        Task::Deregister(d) => assert_eq!(
            d,
            Deregister {
                region_id: 1,
                observe_id: oid,
                err: DeregisterReason::NotLeader { region_id: 1, leader: Some(new_peer(3, 3)) },
            }
        ),
        _ => panic!("unexpected task"),
    }
    assert!(observer.sched.try_recv().is_none());
}
