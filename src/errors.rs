//! Classification of the region errors that a response header reports.

use vstd::prelude::*;

verus! {

/// The kind of a region error, as used in metric tags.
#[derive(Clone, Copy, Debug, PartialEq, Eq, Structural)]
pub enum ErrorHeaderKind {
    NotLeader,
    RegionNotFound,
    KeyNotInRegion,
    EpochNotMatch,
    ServerIsBusy,
    StaleCommand,
    StoreNotMatch,
    RaftEntryTooLarge,
    ReadIndexNotReady,
    ProposalInMergeMode,
    DataNotReady,
    RegionNotInitialized,
    DiskFull,
    RecoveryInProgress,
    FlashbackInProgress,
    BucketsVersionNotMatch,
    Other,
}

/// The metric tag of each kind.
pub open spec fn kind_tag(k: ErrorHeaderKind) -> Seq<char> {
    match k {
        ErrorHeaderKind::NotLeader => "not_leader"@,
        ErrorHeaderKind::RegionNotFound => "region_not_found"@,
        ErrorHeaderKind::KeyNotInRegion => "key_not_in_region"@,
        ErrorHeaderKind::EpochNotMatch => "epoch_not_match"@,
        ErrorHeaderKind::ServerIsBusy => "server_is_busy"@,
        ErrorHeaderKind::StaleCommand => "stale_command"@,
        ErrorHeaderKind::StoreNotMatch => "store_not_match"@,
        ErrorHeaderKind::RaftEntryTooLarge => "raft_entry_too_large"@,
        ErrorHeaderKind::ReadIndexNotReady => "read_index_not_ready"@,
        ErrorHeaderKind::ProposalInMergeMode => "proposal_in_merge_mode"@,
        ErrorHeaderKind::DataNotReady => "data_not_ready"@,
        ErrorHeaderKind::RegionNotInitialized => "region_not_initialized"@,
        ErrorHeaderKind::DiskFull => "disk_full"@,
        ErrorHeaderKind::RecoveryInProgress => "recovery_in_progress"@,
        ErrorHeaderKind::FlashbackInProgress => "flashback_in_progress"@,
        ErrorHeaderKind::BucketsVersionNotMatch => "buckets_version_not_match"@,
        ErrorHeaderKind::Other => "other"@,
    }
}

impl ErrorHeaderKind {
    /// The metric tag of this kind.
    pub fn get_str(&self) -> (r: &'static str)
        ensures
            r@ == kind_tag(*self),
    {
        match *self {
            ErrorHeaderKind::NotLeader => "not_leader",
            ErrorHeaderKind::RegionNotFound => "region_not_found",
            ErrorHeaderKind::KeyNotInRegion => "key_not_in_region",
            ErrorHeaderKind::EpochNotMatch => "epoch_not_match",
            ErrorHeaderKind::ServerIsBusy => "server_is_busy",
            ErrorHeaderKind::StaleCommand => "stale_command",
            ErrorHeaderKind::StoreNotMatch => "store_not_match",
            ErrorHeaderKind::RaftEntryTooLarge => "raft_entry_too_large",
            ErrorHeaderKind::ReadIndexNotReady => "read_index_not_ready",
            ErrorHeaderKind::ProposalInMergeMode => "proposal_in_merge_mode",
            ErrorHeaderKind::DataNotReady => "data_not_ready",
            ErrorHeaderKind::RegionNotInitialized => "region_not_initialized",
            ErrorHeaderKind::DiskFull => "disk_full",
            ErrorHeaderKind::RecoveryInProgress => "recovery_in_progress",
            ErrorHeaderKind::FlashbackInProgress => "flashback_in_progress",
            ErrorHeaderKind::BucketsVersionNotMatch => "buckets_version_not_match",
            ErrorHeaderKind::Other => "other",
        }
    }
}

/// Which region errors a response header carries.
#[derive(Clone, Copy, Debug, Default, PartialEq, Eq)]
pub struct ErrorHeader {
    pub not_leader: bool,
    pub region_not_found: bool,
    pub key_not_in_region: bool,
    pub epoch_not_match: bool,
    pub server_is_busy: bool,
    pub stale_command: bool,
    pub store_not_match: bool,
    pub raft_entry_too_large: bool,
    pub read_index_not_ready: bool,
    pub proposal_in_merging_mode: bool,
    pub data_is_not_ready: bool,
    pub region_not_initialized: bool,
    pub disk_full: bool,
    pub recovery_in_progress: bool,
    pub flashback_in_progress: bool,
    pub bucket_version_not_match: bool,
}

/// The kind of the first error the header carries, in the order of the
/// fields; `Other` when it carries none of them.
pub open spec fn header_kind(h: ErrorHeader) -> ErrorHeaderKind {
    if h.not_leader {
        ErrorHeaderKind::NotLeader
    } else if h.region_not_found {
        ErrorHeaderKind::RegionNotFound
    } else if h.key_not_in_region {
        ErrorHeaderKind::KeyNotInRegion
    } else if h.epoch_not_match {
        ErrorHeaderKind::EpochNotMatch
    } else if h.server_is_busy {
        ErrorHeaderKind::ServerIsBusy
    } else if h.stale_command {
        ErrorHeaderKind::StaleCommand
    } else if h.store_not_match {
        ErrorHeaderKind::StoreNotMatch
    } else if h.raft_entry_too_large {
        ErrorHeaderKind::RaftEntryTooLarge
    } else if h.read_index_not_ready {
        ErrorHeaderKind::ReadIndexNotReady
    } else if h.proposal_in_merging_mode {
        ErrorHeaderKind::ProposalInMergeMode
    } else if h.data_is_not_ready {
        ErrorHeaderKind::DataNotReady
    } else if h.region_not_initialized {
        ErrorHeaderKind::RegionNotInitialized
    } else if h.disk_full {
        ErrorHeaderKind::DiskFull
    } else if h.recovery_in_progress {
        ErrorHeaderKind::RecoveryInProgress
    } else if h.flashback_in_progress {
        ErrorHeaderKind::FlashbackInProgress
    } else if h.bucket_version_not_match {
        ErrorHeaderKind::BucketsVersionNotMatch
    } else {
        ErrorHeaderKind::Other
    }
}

/// The kind of the error in `header`; `Other` if it matches none.
pub fn get_error_kind_from_header(header: &ErrorHeader) -> (r: ErrorHeaderKind)
    ensures
        r == header_kind(*header),
{
    if header.not_leader {
        ErrorHeaderKind::NotLeader
    } else if header.region_not_found {
        ErrorHeaderKind::RegionNotFound
    } else if header.key_not_in_region {
        ErrorHeaderKind::KeyNotInRegion
    } else if header.epoch_not_match {
        ErrorHeaderKind::EpochNotMatch
    } else if header.server_is_busy {
        ErrorHeaderKind::ServerIsBusy
    } else if header.stale_command {
        ErrorHeaderKind::StaleCommand
    } else if header.store_not_match {
        ErrorHeaderKind::StoreNotMatch
    } else if header.raft_entry_too_large {
        ErrorHeaderKind::RaftEntryTooLarge
    } else if header.read_index_not_ready {
        ErrorHeaderKind::ReadIndexNotReady
    } else if header.proposal_in_merging_mode {
        ErrorHeaderKind::ProposalInMergeMode
    } else if header.data_is_not_ready {
        ErrorHeaderKind::DataNotReady
    } else if header.region_not_initialized {
        ErrorHeaderKind::RegionNotInitialized
    } else if header.disk_full {
        ErrorHeaderKind::DiskFull
    } else if header.recovery_in_progress {
        ErrorHeaderKind::RecoveryInProgress
    } else if header.flashback_in_progress {
        ErrorHeaderKind::FlashbackInProgress
    } else if header.bucket_version_not_match {
        ErrorHeaderKind::BucketsVersionNotMatch
    } else {
        ErrorHeaderKind::Other
    }
}

/// The metric tag of the error in `header`; "other" if it matches none.
pub fn get_tag_from_header(header: &ErrorHeader) -> (r: &'static str)
    ensures
        r@ == kind_tag(header_kind(*header)),
{
    get_error_kind_from_header(header).get_str()
}

} // verus!
