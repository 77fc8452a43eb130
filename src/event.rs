use vstd::prelude::*;

verus! {

/// The peer or store identifier that stands for "none".
pub const INVALID_ID: u64 = 0;

/// The token of one subscription generation of a region.
///
/// Two tokens are the same generation exactly when they are equal.
#[derive(Clone, Copy, Debug, PartialEq, Eq, Structural)]
pub struct ObserveId {
    id: u64,
}

impl ObserveId {
    pub closed spec fn raw(&self) -> u64 {
        self.id
    }
}

/// Mints observation tokens, each one distinct from all that the same
/// generator minted before.
pub struct ObserveIdGenerator {
    next: u64,
}

impl ObserveIdGenerator {
    /// The raw value of the next token to be minted; every token minted so
    /// far has a smaller one.
    pub closed spec fn next_raw(&self) -> u64 {
        self.next
    }

    pub fn new() -> (r: ObserveIdGenerator)
        ensures
            r.next_raw() == 1,
    {
        ObserveIdGenerator { next: 1 }
    }

    pub fn next_id(&mut self) -> (r: ObserveId)
        requires
            old(self).next_raw() < u64::MAX,
        ensures
            r.raw() == old(self).next_raw(),
            final(self).next_raw() == old(self).next_raw() + 1,
    {
        let id = ObserveId { id: self.next };
        self.next = self.next + 1;
        id
    }
}

/// One replica of a region, placed on a store.
#[derive(Clone, Copy, Debug, PartialEq, Eq, Structural)]
pub struct Peer {
    pub id: u64,
    pub store_id: u64,
}

/// The peer `peer_id` on store `store_id`.
pub fn new_peer(store_id: u64, peer_id: u64) -> (r: Peer)
    ensures
        r == (Peer { id: peer_id, store_id }),
{
    Peer { id: peer_id, store_id }
}

/// A contiguous key range replicated as one group, with its current peers.
#[derive(Clone, Debug)]
pub struct Region {
    pub id: u64,
    pub peers: Vec<Peer>,
}

impl Region {
    pub fn new(id: u64, peers: Vec<Peer>) -> (r: Region)
        ensures
            r.id == id,
            r.peers@ == peers@,
    {
        Region { id, peers }
    }

    pub fn get_id(&self) -> (r: u64)
        ensures
            r == self.id,
    {
        self.id
    }
}

/// The role of the local replica in its region's consensus group.
#[derive(Clone, Copy, Debug, PartialEq, Eq, Structural)]
pub enum StateRole {
    Follower,
    Candidate,
    Leader,
    PreCandidate,
}

/// A leadership transition reported for a region.
#[derive(Clone, Copy, Debug, PartialEq, Eq, Structural)]
pub struct RoleChange {
    pub state: StateRole,
    /// The new leader, or `INVALID_ID` when it is not known.
    pub leader_id: u64,
    pub prev_lead_transferee: u64,
    pub vote: u64,
    pub initialized: bool,
    pub peer_id: u64,
}

impl RoleChange {
    /// A transition to `state` that names no leader, transferee, vote or peer.
    pub fn new(state: StateRole) -> (r: RoleChange)
        ensures
            r == (RoleChange {
                state,
                leader_id: INVALID_ID,
                prev_lead_transferee: INVALID_ID,
                vote: INVALID_ID,
                initialized: true,
                peer_id: INVALID_ID,
            }),
    {
        RoleChange {
            state,
            leader_id: INVALID_ID,
            prev_lead_transferee: INVALID_ID,
            vote: INVALID_ID,
            initialized: true,
            peer_id: INVALID_ID,
        }
    }
}

/// Why a region's metadata was updated.
#[derive(Clone, Copy, Debug, PartialEq, Eq, Structural)]
pub enum RegionChangeReason {
    ChangePeer,
    ChangePeerV2,
    Split,
    PrepareMerge,
    CommitMerge,
    RollbackMerge,
    SwitchWitness,
    Flashback,
}

/// A change in a region's life.
#[derive(Clone, Copy, Debug, PartialEq, Eq, Structural)]
pub enum RegionChangeEvent {
    Create,
    Update(RegionChangeReason),
    Destroy,
    UpdateBuckets(usize),
}

/// The fidelity of the commands that an observer of a region asked for,
/// from lowest to highest.
#[derive(Clone, Copy, Debug, PartialEq, Eq, Structural)]
pub enum ObserveLevel {
    /// Nothing is observed.
    Off,
    LeaderOnly,
    All,
}

/// The region and situation that a hook is invoked for.
#[derive(Debug)]
pub struct ObserverContext {
    pub region: Region,
    pub bypass: bool,
}

impl ObserverContext {
    pub fn new(region: Region) -> (r: ObserverContext)
        ensures
            r.region.id == region.id,
            r.region.peers@ == region.peers@,
            !r.bypass,
    {
        ObserverContext { region, bypass: false }
    }

    pub fn region(&self) -> (r: &Region)
        ensures
            r == &self.region,
    {
        &self.region
    }
}

/// `n`, held at `usize::MAX`.
pub open spec fn clamp(n: nat) -> nat {
    if n > usize::MAX {
        usize::MAX as nat
    } else {
        n
    }
}

/// An applied write command: its raft index and term and its payload.
#[derive(Debug)]
pub struct Cmd {
    pub index: u64,
    pub term: u64,
    pub data: Vec<u8>,
}

pub struct CmdView {
    pub index: u64,
    pub term: u64,
    pub data: Seq<u8>,
}

impl View for Cmd {
    type V = CmdView;

    open spec fn view(&self) -> CmdView {
        CmdView { index: self.index, term: self.term, data: self.data@ }
    }
}

impl Clone for Cmd {
    fn clone(&self) -> (r: Cmd)
        ensures
            r@ == self@,
    {
        let data = self.data.clone();
        proof {
            assert(data@ =~= self.data@);
        }
        Cmd { index: self.index, term: self.term, data }
    }
}

impl Cmd {
    pub fn new(index: u64, term: u64, data: Vec<u8>) -> (r: Cmd)
        ensures
            r@ == (CmdView { index, term, data: data@ }),
    {
        Cmd { index, term, data }
    }
}

/// The bytes that a sequence of commands holds.
pub open spec fn cmds_bytes(cmds: Seq<CmdView>) -> nat
    decreases cmds.len(),
{
    if cmds.len() == 0 {
        0
    } else {
        cmds_bytes(cmds.drop_last()) + cmds.last().data.len()
    }
}

/// The applied commands of one region at one observation level, in order.
#[derive(Debug)]
pub struct CmdBatch {
    pub level: ObserveLevel,
    pub region_id: u64,
    pub cmds: Vec<Cmd>,
}

pub struct CmdBatchView {
    pub level: ObserveLevel,
    pub region_id: u64,
    pub cmds: Seq<CmdView>,
}

pub open spec fn cmd_views(cmds: Seq<Cmd>) -> Seq<CmdView> {
    cmds.map_values(|c: Cmd| c@)
}

impl View for CmdBatch {
    type V = CmdBatchView;

    open spec fn view(&self) -> CmdBatchView {
        CmdBatchView { level: self.level, region_id: self.region_id, cmds: cmd_views(self.cmds@) }
    }
}

impl Clone for CmdBatch {
    fn clone(&self) -> (r: CmdBatch)
        ensures
            r@ == self@,
    {
        let mut cmds: Vec<Cmd> = Vec::new();
        let mut i: usize = 0;
        while i < self.cmds.len()
            invariant
                i <= self.cmds@.len(),
                cmds@.len() == i,
                forall|j: int| 0 <= j < i ==> #[trigger] cmds@[j]@ == self.cmds@[j]@,
            decreases self.cmds@.len() - i,
        {
            let c = self.cmds[i].clone();
            cmds.push(c);
            i = i + 1;
        }
        proof {
            assert(cmd_views(cmds@) =~= cmd_views(self.cmds@));
        }
        CmdBatch { level: self.level, region_id: self.region_id, cmds }
    }
}

impl CmdBatch {
    pub fn new(level: ObserveLevel, region_id: u64) -> (r: CmdBatch)
        ensures
            r@ == (CmdBatchView { level, region_id, cmds: Seq::empty() }),
    {
        let r = CmdBatch { level, region_id, cmds: Vec::new() };
        proof {
            assert(r@.cmds =~= Seq::<CmdView>::empty());
        }
        r
    }

    pub fn push(&mut self, cmd: Cmd)
        ensures
            final(self)@ == (CmdBatchView { cmds: old(self)@.cmds.push(cmd@), ..old(self)@ }),
    {
        self.cmds.push(cmd);
        proof {
            assert(self@.cmds =~= old(self)@.cmds.push(cmd@));
        }
    }

    pub fn len(&self) -> (r: usize)
        ensures
            r == self@.cmds.len(),
    {
        self.cmds.len()
    }

    pub fn is_empty(&self) -> (r: bool)
        ensures
            r == (self@.cmds.len() == 0),
    {
        self.cmds.len() == 0
    }

    /// The bytes that the batch's commands hold, held at `usize::MAX`.
    pub fn size(&self) -> (r: usize)
        ensures
            r == clamp(cmds_bytes(self@.cmds)),
    {
        let mut total: usize = 0;
        let mut i: usize = 0;
        while i < self.cmds.len()
            invariant
                i <= self.cmds@.len(),
                total == clamp(cmds_bytes(self@.cmds.subrange(0, i as int))),
            decreases self.cmds@.len() - i,
        {
            proof {
                let s = self@.cmds.subrange(0, i as int + 1);
                assert(s.drop_last() =~= self@.cmds.subrange(0, i as int));
            }
            total = total.saturating_add(self.cmds[i].data.len());
            i = i + 1;
        }
        proof {
            assert(self@.cmds.subrange(0, i as int) =~= self@.cmds);
        }
        total
    }
}

/// The bytes that old-value hints hold: each key and each value.
pub open spec fn hints_bytes(hints: Seq<(Seq<u8>, Seq<u8>)>) -> nat
    decreases hints.len(),
{
    if hints.len() == 0 {
        0
    } else {
        hints_bytes(hints.drop_last()) + hints.last().0.len() + hints.last().1.len()
    }
}

pub open spec fn hint_views(hints: Seq<(Vec<u8>, Vec<u8>)>) -> Seq<(Seq<u8>, Seq<u8>)> {
    hints.map_values(|h: (Vec<u8>, Vec<u8>)| (h.0@, h.1@))
}

/// Old values gathered while a transaction was prepared: hints that spare the
/// consumer reading them back from storage.
#[derive(Debug)]
pub struct TxnExtra {
    /// Pairs of an encoded key and the value it held before the write.
    pub old_values: Vec<(Vec<u8>, Vec<u8>)>,
    pub one_pc: bool,
    pub allowed_in_flashback: bool,
}

impl TxnExtra {
    /// The memory that the hints take: the record itself and the bytes of
    /// its keys and values.
    pub open spec fn spec_size(&self) -> nat {
        vstd::layout::size_of::<TxnExtra>() + hints_bytes(hint_views(self.old_values@))
    }

    pub fn is_empty(&self) -> (r: bool)
        ensures
            r == (self.old_values@.len() == 0),
    {
        self.old_values.len() == 0
    }

    /// `spec_size`, held at `usize::MAX`.
    pub fn size(&self) -> (r: usize)
        ensures
            r == clamp(self.spec_size()),
    {
        let mut total: usize = core::mem::size_of::<TxnExtra>();
        let mut i: usize = 0;
        let ghost hv = hint_views(self.old_values@);
        while i < self.old_values.len()
            invariant
                i <= self.old_values@.len(),
                hv == hint_views(self.old_values@),
                total == clamp(
                    vstd::layout::size_of::<TxnExtra>() + hints_bytes(hv.subrange(0, i as int)),
                ),
            decreases self.old_values@.len() - i,
        {
            proof {
                let s = hv.subrange(0, i as int + 1);
                assert(s.drop_last() =~= hv.subrange(0, i as int));
            }
            total = total.saturating_add(self.old_values[i].0.len());
            total = total.saturating_add(self.old_values[i].1.len());
            i = i + 1;
        }
        proof {
            assert(hv.subrange(0, i as int) =~= hv);
        }
        total
    }
}

} // verus!
