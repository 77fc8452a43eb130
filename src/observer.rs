use vstd::prelude::*;

use crate::event::{
    clamp, cmds_bytes, CmdBatch, CmdBatchView, ObserveId, ObserveLevel, ObserverContext, Peer,
    RegionChangeEvent, RegionChangeReason, RoleChange, StateRole, TxnExtra, INVALID_ID,
};
use crate::memory::{forced_usage, try_alloc_fits, MemoryQuota};
use crate::registry::{lookup_in, ObserveRegistry};
use crate::scheduler::Scheduler;

verus! {

/// A storage engine that can hand out a consistent point-in-time view of its
/// current state.
pub trait KvEngine {
    type Snapshot;

    fn snapshot(&self) -> Self::Snapshot;
}

/// Why the downstreams of a region must be torn down.
#[derive(Clone, Copy, Debug, PartialEq, Eq)]
pub enum DeregisterReason {
    /// The local replica is no longer the leader; the new leader, when known.
    NotLeader { region_id: u64, leader: Option<Peer> },
    /// The region was destroyed, split or merged away.
    RegionNotFound { region_id: u64 },
}

/// A request to stop capturing one subscription generation of a region.
#[derive(Clone, Copy, Debug, PartialEq, Eq)]
pub struct Deregister {
    pub region_id: u64,
    /// The generation registered when the condition was detected.
    pub observe_id: ObserveId,
    pub err: DeregisterReason,
}

/// Work handed from the hooks to the consumer, in the order it was produced.
#[derive(Debug)]
pub enum Task<S> {
    /// Applied command batches, with the snapshot that their old values are
    /// to be read from.
    MultiBatch { multi: Vec<CmdBatch>, old_value_snapshot: S },
    Deregister(Deregister),
    /// Old-value hints of a transaction.
    TxnExtra(TxnExtra),
}

/// Whether a batch is delivered: observed at the highest level, and holding
/// commands.
pub open spec fn keeps_batch(b: CmdBatchView) -> bool {
    b.level == ObserveLevel::All && b.cmds.len() > 0
}

/// The batches that a flush delivers, in the order they came.
pub open spec fn surviving(bs: Seq<CmdBatchView>) -> Seq<CmdBatchView>
    decreases bs.len(),
{
    if bs.len() == 0 {
        Seq::empty()
    } else if keeps_batch(bs.last()) {
        surviving(bs.drop_last()).push(bs.last())
    } else {
        surviving(bs.drop_last())
    }
}

/// The bytes of a sequence of batches, each counted as its size reports it.
pub open spec fn batches_bytes(bs: Seq<CmdBatchView>) -> nat
    decreases bs.len(),
{
    if bs.len() == 0 {
        0
    } else {
        batches_bytes(bs.drop_last()) + clamp(cmds_bytes(bs.last().cmds))
    }
}

pub open spec fn batch_views(bs: Seq<CmdBatch>) -> Seq<CmdBatchView> {
    bs.map_values(|b: CmdBatch| b@)
}

/// Whether `t` delivers exactly the batches `kept`, in that order.
pub open spec fn delivers<S>(t: Task<S>, kept: Seq<CmdBatchView>) -> bool {
    match t {
        Task::MultiBatch { multi, .. } => batch_views(multi@) == kept,
        _ => false,
    }
}

/// The leader that a role change points at: the explicit one, else the
/// previous transferee when the replica voted for it.
pub open spec fn presumed_leader(rc: RoleChange) -> Option<u64> {
    if rc.leader_id != INVALID_ID {
        Some(rc.leader_id)
    } else if rc.prev_lead_transferee == rc.vote {
        Some(rc.prev_lead_transferee)
    } else {
        None
    }
}

/// The first peer in `peers` with identifier `id`.
pub open spec fn find_peer(peers: Seq<Peer>, id: u64) -> Option<Peer>
    decreases peers.len(),
{
    if peers.len() == 0 {
        None
    } else if peers[0].id == id {
        Some(peers[0])
    } else {
        find_peer(peers.drop_first(), id)
    }
}

pub open spec fn leader_peer(peers: Seq<Peer>, leader: Option<u64>) -> Option<Peer> {
    match leader {
        Some(id) => find_peer(peers, id),
        None => None,
    }
}

/// The signal a role change raises: only when the replica is no longer
/// leader of a subscribed region.
pub open spec fn role_change_signal(
    regions: Map<u64, ObserveId>,
    region_id: u64,
    peers: Seq<Peer>,
    rc: RoleChange,
) -> Option<Deregister> {
    if rc.state != StateRole::Leader && lookup_in(regions, region_id) is Some {
        Some(
            Deregister {
                region_id,
                observe_id: lookup_in(regions, region_id)->Some_0,
                err: DeregisterReason::NotLeader {
                    region_id,
                    leader: leader_peer(peers, presumed_leader(rc)),
                },
            },
        )
    } else {
        None
    }
}

/// Whether a region change ends the region as it was subscribed.
pub open spec fn ends_region(event: RegionChangeEvent) -> bool {
    match event {
        RegionChangeEvent::Destroy => true,
        RegionChangeEvent::Update(reason) => reason == RegionChangeReason::Split || reason
            == RegionChangeReason::CommitMerge,
        _ => false,
    }
}

/// The signal a region change raises: only when a subscribed region is
/// destroyed, split or merged.
pub open spec fn region_change_signal(
    regions: Map<u64, ObserveId>,
    region_id: u64,
    event: RegionChangeEvent,
) -> Option<Deregister> {
    if ends_region(event) && lookup_in(regions, region_id) is Some {
        Some(
            Deregister {
                region_id,
                observe_id: lookup_in(regions, region_id)->Some_0,
                err: DeregisterReason::RegionNotFound { region_id },
            },
        )
    } else {
        None
    }
}

/// The queue after an attempt to enqueue `t`: a stopped queue refuses it.
pub open spec fn enqueued<S>(old_q: Scheduler<Task<S>>, new_q: Scheduler<Task<S>>, t: Task<S>) -> bool {
    &&& new_q.is_stopped() == old_q.is_stopped()
    &&& if old_q.is_stopped() {
        new_q.pending() == old_q.pending()
    } else {
        new_q.pending() == old_q.pending().push(t)
    }
}

/// What an applied-command flush does to the observer.
pub open spec fn flush_outcome<S>(
    o: CdcObserver<S>,
    n: CdcObserver<S>,
    max_level: ObserveLevel,
    bs: Seq<CmdBatchView>,
) -> bool {
    let kept = surviving(bs);
    if max_level != ObserveLevel::All || kept.len() == 0 {
        n == o
    } else {
        &&& n.observe_regions == o.observe_regions
        &&& n.memory_quota.spec_capacity() == o.memory_quota.spec_capacity()
        &&& n.memory_quota.spec_in_use() == forced_usage(
            o.memory_quota.spec_in_use(),
            clamp(batches_bytes(kept)),
        )
        &&& enqueued(o.sched, n.sched, n.sched.pending().last())
        &&& !o.sched.is_stopped() ==> delivers(n.sched.pending().last(), kept)
    }
}

/// What a deregister signal (or its absence) does to the observer.
pub open spec fn signal_outcome<S>(
    o: CdcObserver<S>,
    n: CdcObserver<S>,
    signal: Option<Deregister>,
) -> bool {
    match signal {
        None => n == o,
        Some(d) => {
            &&& n.observe_regions == o.observe_regions
            &&& n.memory_quota == o.memory_quota
            &&& enqueued(o.sched, n.sched, Task::Deregister(d))
        },
    }
}

/// What handing over old-value hints does to the observer: they are queued
/// only if their size fits in the quota, and dropped otherwise.
pub open spec fn txn_extra_outcome<S>(o: CdcObserver<S>, n: CdcObserver<S>, extra: TxnExtra) -> bool {
    let size = clamp(extra.spec_size());
    if try_alloc_fits(o.memory_quota.spec_in_use(), o.memory_quota.spec_capacity(), size) {
        &&& n.observe_regions == o.observe_regions
        &&& n.memory_quota.spec_capacity() == o.memory_quota.spec_capacity()
        &&& n.memory_quota.spec_in_use() == o.memory_quota.spec_in_use() + size
        &&& enqueued(o.sched, n.sched, Task::TxnExtra(extra))
    } else {
        n == o
    }
}

/// Observes applied commands, leadership changes and region changes of the
/// subscribed regions, and turns them into tasks on a FIFO queue.
///
/// Tasks leave in the order the hooks produced them.
pub struct CdcObserver<S> {
    pub sched: Scheduler<Task<S>>,
    pub memory_quota: MemoryQuota,
    pub observe_regions: ObserveRegistry,
}

impl<S> CdcObserver<S> {
    pub fn new(sched: Scheduler<Task<S>>, memory_quota: MemoryQuota) -> (r: CdcObserver<S>)
        ensures
            r.sched == sched,
            r.memory_quota == memory_quota,
            r.observe_regions@ == Map::<u64, ObserveId>::empty(),
    {
        CdcObserver { sched, memory_quota, observe_regions: ObserveRegistry::new() }
    }

    /// Starts capturing `region_id` under generation `observe_id`; returns
    /// the generation it replaces.
    pub fn subscribe_region(&mut self, region_id: u64, observe_id: ObserveId) -> (r: Option<
        ObserveId,
    >)
        ensures
            final(self).observe_regions@ == old(self).observe_regions@.insert(
                region_id,
                observe_id,
            ),
            r == lookup_in(old(self).observe_regions@, region_id),
            final(self).sched == old(self).sched,
            final(self).memory_quota == old(self).memory_quota,
    {
        self.observe_regions.subscribe(region_id, observe_id)
    }

    /// Stops capturing `region_id`, but only if `observe_id` is the
    /// generation registered for it; returns that generation on success.
    pub fn unsubscribe_region(&mut self, region_id: u64, observe_id: ObserveId) -> (r: Option<
        ObserveId,
    >)
        ensures
            final(self).observe_regions@ == crate::registry::after_unsubscribe(
                old(self).observe_regions@,
                region_id,
                observe_id,
            ),
            r == crate::registry::unsubscribe_result(
                old(self).observe_regions@,
                region_id,
                observe_id,
            ),
            final(self).sched == old(self).sched,
            final(self).memory_quota == old(self).memory_quota,
    {
        self.observe_regions.unsubscribe(region_id, observe_id)
    }

    /// The generation under which `region_id` is captured, if it is.
    pub fn is_subscribed(&self, region_id: u64) -> (r: Option<ObserveId>)
        ensures
            r == lookup_in(self.observe_regions@, region_id),
    {
        self.observe_regions.lookup(region_id)
    }

    /// Hands applied command batches to the consumer.
    ///
    /// Only batches at the highest level that hold commands go; when any
    /// do, their bytes are charged to the quota without fail and one task
    /// carries them, in order, with a snapshot for their old values.
    pub fn on_flush_applied_cmd_batch<E: KvEngine<Snapshot = S>>(
        &mut self,
        max_level: ObserveLevel,
        cmd_batches: &mut Vec<CmdBatch>,
        engine: &E,
    )
        requires
            old(cmd_batches)@.len() > 0,
        ensures
            final(cmd_batches)@ == old(cmd_batches)@,
            flush_outcome(*old(self), *final(self), max_level, batch_views(old(cmd_batches)@)),
    {
        if max_level != ObserveLevel::All {
            return;
        }
        let ghost views = batch_views(cmd_batches@);
        let mut kept: Vec<CmdBatch> = Vec::new();
        let mut size: usize = 0;
        let mut i: usize = 0;
        while i < cmd_batches.len()
            invariant
                *cmd_batches == *old(cmd_batches),
                views == batch_views(cmd_batches@),
                i <= cmd_batches@.len(),
                batch_views(kept@) == surviving(views.subrange(0, i as int)),
                size == clamp(batches_bytes(surviving(views.subrange(0, i as int)))),
            decreases cmd_batches@.len() - i,
        {
            proof {
                let s = views.subrange(0, i as int + 1);
                assert(s.drop_last() =~= views.subrange(0, i as int));
                assert(s.last() == cmd_batches@[i as int]@);
            }
            let batch = &cmd_batches[i];
            if batch.level == ObserveLevel::All && !batch.is_empty() {
                let copy = batch.clone();
                size = size.saturating_add(copy.size());
                let ghost before = kept@;
                kept.push(copy);
                proof {
                    assert(batch_views(kept@) =~= batch_views(before).push(copy@));
                    let prev = surviving(views.subrange(0, i as int));
                    assert(prev.push(copy@).drop_last() =~= prev);
                }
            }
            i = i + 1;
        }
        proof {
            assert(views.subrange(0, i as int) =~= views);
        }
        if kept.len() == 0 {
            return;
        }
        // Taken before anything is charged or queued, so that the old values
        // this flush needs cannot be collected away.
        let snapshot = engine.snapshot();
        self.memory_quota.alloc_force(size);
        let _ = self.sched.schedule(Task::MultiBatch { multi: kept, old_value_snapshot: snapshot });
    }

    /// Nothing to do when a replica applies an entry of its current term.
    pub fn on_applied_current_term(&mut self, _role: StateRole, _region: &crate::event::Region)
        ensures
            *final(self) == *old(self),
    {
    }

    /// Reacts to a leadership transition: when the replica stops being the
    /// leader of a subscribed region, asks for the region's capture to stop,
    /// naming the new leader when it can be found among the region's peers.
    pub fn on_role_change(&mut self, ctx: &ObserverContext, role_change: &RoleChange)
        ensures
            signal_outcome(
                *old(self),
                *final(self),
                role_change_signal(
                    old(self).observe_regions@,
                    ctx.region.id,
                    ctx.region.peers@,
                    *role_change,
                ),
            ),
    {
        if role_change.state == StateRole::Leader {
            return;
        }
        let region_id = ctx.region().get_id();
        let observe_id = match self.is_subscribed(region_id) {
            Some(id) => id,
            None => return,
        };
        let leader_id = if role_change.leader_id != INVALID_ID {
            Some(role_change.leader_id)
        } else if role_change.prev_lead_transferee == role_change.vote {
            Some(role_change.prev_lead_transferee)
        } else {
            None
        };
        let leader = match leader_id {
            Some(id) => find_region_peer(&ctx.region.peers, id),
            None => None,
        };
        let deregister = Deregister {
            region_id,
            observe_id,
            err: DeregisterReason::NotLeader { region_id, leader },
        };
        let _ = self.sched.schedule(Task::Deregister(deregister));
    }

    /// Reacts to a region change: when a subscribed region is destroyed,
    /// split or merged, asks for its capture to stop.
    pub fn on_region_changed(
        &mut self,
        ctx: &ObserverContext,
        event: RegionChangeEvent,
        _role: StateRole,
    )
        ensures
            signal_outcome(
                *old(self),
                *final(self),
                region_change_signal(old(self).observe_regions@, ctx.region.id, event),
            ),
    {
        let ends = match event {
            RegionChangeEvent::Destroy => true,
            RegionChangeEvent::Update(reason) => match reason {
                RegionChangeReason::Split | RegionChangeReason::CommitMerge => true,
                _ => false,
            },
            _ => false,
        };
        if !ends {
            return;
        }
        let region_id = ctx.region().get_id();
        if let Some(observe_id) = self.is_subscribed(region_id) {
            let deregister = Deregister {
                region_id,
                observe_id,
                err: DeregisterReason::RegionNotFound { region_id },
            };
            let _ = self.sched.schedule(Task::Deregister(deregister));
        }
    }

    /// Hands a transaction's old-value hints to the consumer if the quota
    /// has room for them; they are dropped otherwise, since the consumer can
    /// always read old values back from storage.
    pub fn schedule_txn_extra(&mut self, txn_extra: TxnExtra)
        ensures
            txn_extra_outcome(*old(self), *final(self), txn_extra),
    {
        let size = txn_extra.size();
        match self.memory_quota.try_alloc(size) {
            Ok(_) => {
                let _ = self.sched.schedule(Task::TxnExtra(txn_extra));
            },
            Err(_) => {},
        }
    }
}

/// The first of `peers` whose identifier is `id`.
pub fn find_region_peer(peers: &Vec<Peer>, id: u64) -> (r: Option<Peer>)
    ensures
        r == find_peer(peers@, id),
{
    let mut i: usize = 0;
    proof {
        assert(peers@.subrange(0, peers@.len() as int) =~= peers@);
    }
    while i < peers.len()
        invariant
            i <= peers@.len(),
            find_peer(peers@, id) == find_peer(peers@.subrange(i as int, peers@.len() as int), id),
        decreases peers@.len() - i,
    {
        let ghost rest = peers@.subrange(i as int, peers@.len() as int);
        if peers[i].id == id {
            return Some(peers[i]);
        }
        proof {
            assert(rest.drop_first() =~= peers@.subrange(i as int + 1, peers@.len() as int));
        }
        i = i + 1;
    }
    None
}

/// No batch survives a flush in which none is at the highest level with
/// commands.
pub proof fn lemma_no_batch_kept(bs: Seq<CmdBatchView>)
    requires
        forall|i: int| 0 <= i < bs.len() ==> !keeps_batch(#[trigger] bs[i]),
    ensures
        surviving(bs).len() == 0,
    decreases bs.len(),
{
    if bs.len() > 0 {
        let rest = bs.drop_last();
        assert forall|i: int| 0 <= i < rest.len() implies !keeps_batch(#[trigger] rest[i]) by {
            assert(rest[i] == bs[i]);
        }
        lemma_no_batch_kept(rest);
        assert(!keeps_batch(bs[bs.len() - 1]));
    }
}

/// A flush whose maximum level is below the highest, or whose batches are
/// each below it or empty, queues nothing and charges nothing.
pub proof fn lemma_flush_without_survivors_changes_nothing<S>(
    o: CdcObserver<S>,
    n: CdcObserver<S>,
    max_level: ObserveLevel,
    bs: Seq<CmdBatchView>,
)
    requires
        flush_outcome(o, n, max_level, bs),
        max_level != ObserveLevel::All || forall|i: int|
            0 <= i < bs.len() ==> !keeps_batch(#[trigger] bs[i]),
    ensures
        n == o,
{
    if max_level == ObserveLevel::All {
        lemma_no_batch_kept(bs);
    }
}

/// A flush with surviving batches charges exactly their bytes to the quota
/// (while the counter does not saturate) and queues exactly one task that
/// carries exactly those batches, in the order they came.
pub proof fn lemma_flush_charges_and_delivers_survivors<S>(
    o: CdcObserver<S>,
    n: CdcObserver<S>,
    bs: Seq<CmdBatchView>,
)
    requires
        flush_outcome(o, n, ObserveLevel::All, bs),
        surviving(bs).len() > 0,
        !o.sched.is_stopped(),
        o.memory_quota.spec_in_use() + batches_bytes(surviving(bs)) <= usize::MAX,
    ensures
        n.memory_quota.spec_in_use() == o.memory_quota.spec_in_use() + batches_bytes(
            surviving(bs),
        ),
        n.sched.pending().len() == o.sched.pending().len() + 1,
        n.sched.pending().drop_last() == o.sched.pending(),
        delivers(n.sched.pending().last(), surviving(bs)),
        n.observe_regions == o.observe_regions,
{
    assert(n.sched.pending().drop_last() =~= o.sched.pending());
}

/// A role change to leader, or any role change of a region that is not
/// subscribed, queues nothing.
pub proof fn lemma_role_change_without_signal<S>(
    o: CdcObserver<S>,
    n: CdcObserver<S>,
    region_id: u64,
    peers: Seq<Peer>,
    rc: RoleChange,
)
    requires
        signal_outcome(o, n, role_change_signal(o.observe_regions@, region_id, peers, rc)),
        rc.state == StateRole::Leader || lookup_in(o.observe_regions@, region_id) is None,
    ensures
        n == o,
{
}

/// Destroying, splitting or merging a subscribed region queues one
/// region-not-found signal for the registered generation; the same event
/// for a region that is not subscribed queues nothing.
pub proof fn lemma_region_end_signals_once<S>(
    o: CdcObserver<S>,
    n: CdcObserver<S>,
    region_id: u64,
    event: RegionChangeEvent,
)
    requires
        signal_outcome(o, n, region_change_signal(o.observe_regions@, region_id, event)),
        event == RegionChangeEvent::Destroy || event == RegionChangeEvent::Update(
            RegionChangeReason::Split,
        ) || event == RegionChangeEvent::Update(RegionChangeReason::CommitMerge),
    ensures
        lookup_in(o.observe_regions@, region_id) is None ==> n == o,
        (lookup_in(o.observe_regions@, region_id) is Some && !o.sched.is_stopped()) ==> {
            &&& n.sched.pending() == o.sched.pending().push(
                Task::Deregister(
                    Deregister {
                        region_id,
                        observe_id: o.observe_regions@[region_id],
                        err: DeregisterReason::RegionNotFound { region_id },
                    },
                ),
            )
            &&& n.observe_regions == o.observe_regions
            &&& n.memory_quota == o.memory_quota
        },
{
}

/// With the quota fully used, old-value hints are dropped and leave the
/// observer as it was, while a following flush with surviving batches is
/// still charged and still queued.
pub proof fn lemma_full_quota_drops_hints_but_not_batches<S>(
    o: CdcObserver<S>,
    after_hints: CdcObserver<S>,
    after_flush: CdcObserver<S>,
    extra: TxnExtra,
    bs: Seq<CmdBatchView>,
)
    requires
        o.memory_quota.spec_in_use() == o.memory_quota.spec_capacity(),
        extra.spec_size() > 0,
        txn_extra_outcome(o, after_hints, extra),
        flush_outcome(after_hints, after_flush, ObserveLevel::All, bs),
        surviving(bs).len() > 0,
        !o.sched.is_stopped(),
    ensures
        after_hints == o,
        after_flush.sched.pending().len() == o.sched.pending().len() + 1,
        delivers(after_flush.sched.pending().last(), surviving(bs)),
        after_flush.memory_quota.spec_in_use() == forced_usage(
            o.memory_quota.spec_in_use(),
            clamp(batches_bytes(surviving(bs))),
        ),
{
}

} // verus!
