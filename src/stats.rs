use vstd::prelude::*;

verus! {

pub const CF_DEFAULT: &'static str = "default";
pub const CF_LOCK: &'static str = "lock";
pub const CF_WRITE: &'static str = "write";

pub const STAT_PROCESSED_KEYS: &'static str = "processed_keys";
pub const STAT_GET: &'static str = "get";
pub const STAT_NEXT: &'static str = "next";
pub const STAT_PREV: &'static str = "prev";
pub const STAT_SEEK: &'static str = "seek";
pub const STAT_SEEK_FOR_PREV: &'static str = "seek_for_prev";
pub const STAT_OVER_SEEK_BOUND: &'static str = "over_seek_bound";
pub const STAT_NEXT_TOMBSTONE: &'static str = "next_tombstone";
pub const STAT_PREV_TOMBSTONE: &'static str = "prev_tombstone";
pub const STAT_SEEK_TOMBSTONE: &'static str = "seek_tombstone";
pub const STAT_SEEK_FOR_PREV_TOMBSTONE: &'static str = "seek_for_prev_tombstone";
/// Statistics of raw value tombstone by RawKV TTL expired or logical deleted.
pub const STAT_RAW_VALUE_TOMBSTONE: &'static str = "raw_value_tombstone";

/// `a + b`, held at `usize::MAX`.
pub open spec fn sat_add(a: usize, b: usize) -> usize {
    if a + b > usize::MAX {
        usize::MAX
    } else {
        (a + b) as usize
    }
}

/// The kind of iterator operation a collector accounts for.
#[derive(Clone, Copy, Debug, PartialEq, Eq, Structural)]
pub enum StatsKind {
    Next,
    Prev,
    Seek,
    SeekForPrev,
}

/// Keys and bytes read, for flow control.
#[derive(Default, Debug, Copy, Clone, PartialEq, Eq)]
pub struct FlowStatistics {
    pub read_keys: usize,
    pub read_bytes: usize,
}

impl FlowStatistics {
    pub fn add(&mut self, other: &FlowStatistics)
        ensures
            final(self).read_keys == sat_add(old(self).read_keys, other.read_keys),
            final(self).read_bytes == sat_add(old(self).read_bytes, other.read_bytes),
    {
        self.read_bytes = self.read_bytes.saturating_add(other.read_bytes);
        self.read_keys = self.read_keys.saturating_add(other.read_keys);
    }
}

/// The operations taken in one column family when fetching data.
#[derive(Default, Clone, Debug)]
pub struct CfStatistics {
    /// How many keys are visible to the user.
    pub processed_keys: usize,
    pub get: usize,
    pub next: usize,
    pub prev: usize,
    pub seek: usize,
    pub seek_for_prev: usize,
    pub over_seek_bound: usize,
    pub flow_stats: FlowStatistics,
    pub next_tombstone: usize,
    pub prev_tombstone: usize,
    pub seek_tombstone: usize,
    pub seek_for_prev_tombstone: usize,
    pub raw_value_tombstone: usize,
}

/// The metric label of each counter of `CfStatistics`.
#[allow(non_camel_case_types)]
#[derive(Clone, Copy, Debug, PartialEq, Eq, Structural)]
pub enum GcKeysDetail {
    processed_keys,
    get,
    next,
    prev,
    seek,
    seek_for_prev,
    over_seek_bound,
    next_tombstone,
    prev_tombstone,
    seek_tombstone,
    seek_for_prev_tombstone,
    raw_value_tombstone,
}

/// The metric label of each column family.
#[allow(non_camel_case_types)]
#[derive(Clone, Copy, Debug, PartialEq, Eq, Structural)]
pub enum GcKeysCF {
    default,
    lock,
    write,
}

/// Scanned versions: those seen by the user and all that were stepped over.
#[derive(Default, Clone, Copy, Debug, PartialEq, Eq)]
pub struct ScanInfo {
    pub processed: i64,
    pub total: i64,
}

/// Scanned versions per column family.
#[derive(Default, Clone, Copy, Debug, PartialEq, Eq)]
pub struct ScanDetail {
    pub write: ScanInfo,
    pub lock: ScanInfo,
    pub data: ScanInfo,
}

/// Versions scanned in the write column family and the bytes they held.
#[derive(Default, Clone, Copy, Debug, PartialEq, Eq)]
pub struct ScanDetailV2 {
    pub processed_versions: u64,
    pub total_versions: u64,
    pub processed_versions_size: u64,
}

impl CfStatistics {
    pub open spec fn details_spec(&self) -> Seq<(&'static str, usize)> {
        seq![
            (STAT_PROCESSED_KEYS, self.processed_keys),
            (STAT_GET, self.get),
            (STAT_NEXT, self.next),
            (STAT_PREV, self.prev),
            (STAT_SEEK, self.seek),
            (STAT_SEEK_FOR_PREV, self.seek_for_prev),
            (STAT_OVER_SEEK_BOUND, self.over_seek_bound),
            (STAT_NEXT_TOMBSTONE, self.next_tombstone),
            (STAT_PREV_TOMBSTONE, self.prev_tombstone),
            (STAT_SEEK_TOMBSTONE, self.seek_tombstone),
            (STAT_SEEK_FOR_PREV_TOMBSTONE, self.seek_for_prev_tombstone),
            (STAT_RAW_VALUE_TOMBSTONE, self.raw_value_tombstone),
        ]
    }

    pub open spec fn details_enum_spec(&self) -> Seq<(GcKeysDetail, usize)> {
        seq![
            (GcKeysDetail::processed_keys, self.processed_keys),
            (GcKeysDetail::get, self.get),
            (GcKeysDetail::next, self.next),
            (GcKeysDetail::prev, self.prev),
            (GcKeysDetail::seek, self.seek),
            (GcKeysDetail::seek_for_prev, self.seek_for_prev),
            (GcKeysDetail::over_seek_bound, self.over_seek_bound),
            (GcKeysDetail::next_tombstone, self.next_tombstone),
            (GcKeysDetail::prev_tombstone, self.prev_tombstone),
            (GcKeysDetail::seek_tombstone, self.seek_tombstone),
            (GcKeysDetail::seek_for_prev_tombstone, self.seek_for_prev_tombstone),
            (GcKeysDetail::raw_value_tombstone, self.raw_value_tombstone),
        ]
    }

    pub open spec fn scan_info_spec(&self) -> ScanInfo {
        ScanInfo {
            processed: self.processed_keys as i64,
            total: self.spec_total_op_count() as usize as i64,
        }
    }

    pub open spec fn spec_total_op_count(&self) -> int {
        self.get + self.next + self.prev + self.seek + self.seek_for_prev
    }

    /// The number of point and iterator operations.
    pub fn total_op_count(&self) -> (r: usize)
        requires
            self.spec_total_op_count() <= usize::MAX,
        ensures
            r == self.spec_total_op_count(),
    {
        self.get + self.next + self.prev + self.seek + self.seek_for_prev
    }

    pub fn details(&self) -> (r: [(&'static str, usize); 12])
        ensures
            r@ == self.details_spec(),
    {
        let r = [
            (STAT_PROCESSED_KEYS, self.processed_keys),
            (STAT_GET, self.get),
            (STAT_NEXT, self.next),
            (STAT_PREV, self.prev),
            (STAT_SEEK, self.seek),
            (STAT_SEEK_FOR_PREV, self.seek_for_prev),
            (STAT_OVER_SEEK_BOUND, self.over_seek_bound),
            (STAT_NEXT_TOMBSTONE, self.next_tombstone),
            (STAT_PREV_TOMBSTONE, self.prev_tombstone),
            (STAT_SEEK_TOMBSTONE, self.seek_tombstone),
            (STAT_SEEK_FOR_PREV_TOMBSTONE, self.seek_for_prev_tombstone),
            (STAT_RAW_VALUE_TOMBSTONE, self.raw_value_tombstone),
        ];
        proof {
            assert(r@ =~= self.details_spec());
        }
        r
    }
}

impl CfStatistics {
    pub fn details_enum(&self) -> (r: [(GcKeysDetail, usize); 12])
        ensures
            r@ == self.details_enum_spec(),
    {
        let r = [
            (GcKeysDetail::processed_keys, self.processed_keys),
            (GcKeysDetail::get, self.get),
            (GcKeysDetail::next, self.next),
            (GcKeysDetail::prev, self.prev),
            (GcKeysDetail::seek, self.seek),
            (GcKeysDetail::seek_for_prev, self.seek_for_prev),
            (GcKeysDetail::over_seek_bound, self.over_seek_bound),
            (GcKeysDetail::next_tombstone, self.next_tombstone),
            (GcKeysDetail::prev_tombstone, self.prev_tombstone),
            (GcKeysDetail::seek_tombstone, self.seek_tombstone),
            (GcKeysDetail::seek_for_prev_tombstone, self.seek_for_prev_tombstone),
            (GcKeysDetail::raw_value_tombstone, self.raw_value_tombstone),
        ];
        proof {
            assert(r@ =~= self.details_enum_spec());
        }
        r
    }

    /// Adds `other` counter by counter, each sum held at `usize::MAX`.
    pub fn add(&mut self, other: &CfStatistics)
        ensures
            final(self).processed_keys == sat_add(old(self).processed_keys, other.processed_keys),
            final(self).get == sat_add(old(self).get, other.get),
            final(self).next == sat_add(old(self).next, other.next),
            final(self).prev == sat_add(old(self).prev, other.prev),
            final(self).seek == sat_add(old(self).seek, other.seek),
            final(self).seek_for_prev == sat_add(old(self).seek_for_prev, other.seek_for_prev),
            final(self).over_seek_bound == sat_add(
                old(self).over_seek_bound,
                other.over_seek_bound,
            ),
            final(self).flow_stats.read_keys == sat_add(
                old(self).flow_stats.read_keys,
                other.flow_stats.read_keys,
            ),
            final(self).flow_stats.read_bytes == sat_add(
                old(self).flow_stats.read_bytes,
                other.flow_stats.read_bytes,
            ),
            final(self).next_tombstone == sat_add(old(self).next_tombstone, other.next_tombstone),
            final(self).prev_tombstone == sat_add(old(self).prev_tombstone, other.prev_tombstone),
            final(self).seek_tombstone == sat_add(old(self).seek_tombstone, other.seek_tombstone),
            final(self).seek_for_prev_tombstone == sat_add(
                old(self).seek_for_prev_tombstone,
                other.seek_for_prev_tombstone,
            ),
            final(self).raw_value_tombstone == sat_add(
                old(self).raw_value_tombstone,
                other.raw_value_tombstone,
            ),
    {
        self.processed_keys = self.processed_keys.saturating_add(other.processed_keys);
        self.get = self.get.saturating_add(other.get);
        self.next = self.next.saturating_add(other.next);
        self.prev = self.prev.saturating_add(other.prev);
        self.seek = self.seek.saturating_add(other.seek);
        self.seek_for_prev = self.seek_for_prev.saturating_add(other.seek_for_prev);
        self.over_seek_bound = self.over_seek_bound.saturating_add(other.over_seek_bound);
        self.flow_stats.add(&other.flow_stats);
        self.next_tombstone = self.next_tombstone.saturating_add(other.next_tombstone);
        self.prev_tombstone = self.prev_tombstone.saturating_add(other.prev_tombstone);
        self.seek_tombstone = self.seek_tombstone.saturating_add(other.seek_tombstone);
        self.seek_for_prev_tombstone = self.seek_for_prev_tombstone.saturating_add(
            other.seek_for_prev_tombstone,
        );
        self.raw_value_tombstone = self.raw_value_tombstone.saturating_add(
            other.raw_value_tombstone,
        );
    }

    /// The processed keys and the operation count, as scan figures.
    pub fn scan_info(&self) -> (r: ScanInfo)
        requires
            self.spec_total_op_count() <= usize::MAX,
        ensures
            r == self.scan_info_spec(),
    {
        ScanInfo { processed: self.processed_keys as i64, total: self.total_op_count() as i64 }
    }
}

/// Counters of an iterator operation captured when it starts; finishing the
/// operation charges the difference to a column family's statistics.
pub struct StatsCollector {
    kind: StatsKind,
    internal_tombstone: usize,
    raw_value_tombstone: usize,
}

impl StatsCollector {
    pub closed spec fn spec_kind(&self) -> StatsKind {
        self.kind
    }

    pub closed spec fn start_internal_tombstone(&self) -> usize {
        self.internal_tombstone
    }

    pub closed spec fn start_raw_value_tombstone(&self) -> usize {
        self.raw_value_tombstone
    }

    /// Starts accounting for an operation of `kind`, given the engine's
    /// count of skipped internal deletions and the count of raw value
    /// tombstones so far.
    pub fn new(kind: StatsKind, internal_tombstone: usize, raw_value_tombstone: usize) -> (r:
        StatsCollector)
        ensures
            r.spec_kind() == kind,
            r.start_internal_tombstone() == internal_tombstone,
            r.start_raw_value_tombstone() == raw_value_tombstone,
    {
        StatsCollector { kind, internal_tombstone, raw_value_tombstone }
    }

    /// The kind and the two counts captured at the start.
    pub fn start(&self) -> (r: (StatsKind, usize, usize))
        ensures
            r == (self.spec_kind(), self.start_internal_tombstone(), self.start_raw_value_tombstone()),
    {
        (self.kind, self.internal_tombstone, self.raw_value_tombstone)
    }

    /// Ends the operation with the two counts as they stand now: counts one
    /// operation of the collector's kind, and the tombstones met meanwhile.
    pub fn finish(
        self,
        stats: &mut CfStatistics,
        internal_tombstone: usize,
        raw_value_tombstone: usize,
    )
        requires
            internal_tombstone >= self.start_internal_tombstone(),
            raw_value_tombstone >= self.start_raw_value_tombstone(),
            old(stats).raw_value_tombstone + (raw_value_tombstone
                - self.start_raw_value_tombstone()) <= usize::MAX,
            match self.spec_kind() {
                StatsKind::Next => old(stats).next < usize::MAX && old(stats).next_tombstone + (
                internal_tombstone - self.start_internal_tombstone()) <= usize::MAX,
                StatsKind::Prev => old(stats).prev < usize::MAX && old(stats).prev_tombstone + (
                internal_tombstone - self.start_internal_tombstone()) <= usize::MAX,
                StatsKind::Seek => old(stats).seek < usize::MAX && old(stats).seek_tombstone + (
                internal_tombstone - self.start_internal_tombstone()) <= usize::MAX,
                StatsKind::SeekForPrev => old(stats).seek_for_prev < usize::MAX && old(
                    stats,
                ).seek_for_prev_tombstone + (internal_tombstone - self.start_internal_tombstone())
                    <= usize::MAX,
            },
        ensures
            ({
                let skipped = internal_tombstone - self.start_internal_tombstone();
                let raw = raw_value_tombstone - self.start_raw_value_tombstone();
                let o = *old(stats);
                let base = CfStatistics { raw_value_tombstone: (o.raw_value_tombstone + raw) as usize, ..o };
                *final(stats) == match self.spec_kind() {
                    StatsKind::Next => CfStatistics {
                        next: (o.next + 1) as usize,
                        next_tombstone: (o.next_tombstone + skipped) as usize,
                        ..base
                    },
                    StatsKind::Prev => CfStatistics {
                        prev: (o.prev + 1) as usize,
                        prev_tombstone: (o.prev_tombstone + skipped) as usize,
                        ..base
                    },
                    StatsKind::Seek => CfStatistics {
                        seek: (o.seek + 1) as usize,
                        seek_tombstone: (o.seek_tombstone + skipped) as usize,
                        ..base
                    },
                    StatsKind::SeekForPrev => CfStatistics {
                        seek_for_prev: (o.seek_for_prev + 1) as usize,
                        seek_for_prev_tombstone: (o.seek_for_prev_tombstone + skipped) as usize,
                        ..base
                    },
                }
            }),
    {
        stats.raw_value_tombstone += raw_value_tombstone - self.raw_value_tombstone;
        let internal = internal_tombstone - self.internal_tombstone;
        match self.kind {
            StatsKind::Next => {
                stats.next += 1;
                stats.next_tombstone += internal;
            },
            StatsKind::Prev => {
                stats.prev += 1;
                stats.prev_tombstone += internal;
            },
            StatsKind::Seek => {
                stats.seek += 1;
                stats.seek_tombstone += internal;
            },
            StatsKind::SeekForPrev => {
                stats.seek_for_prev += 1;
                stats.seek_for_prev_tombstone += internal;
            },
        }
    }
}

/// Whether `cf` names the default column family; the empty name does too.
pub open spec fn names_data_cf(cf: Seq<char>) -> bool {
    cf.len() == 0 || cf == CF_DEFAULT@
}

/// Whether `cf` names one of the three column families.
pub open spec fn is_cf_name(cf: Seq<char>) -> bool {
    names_data_cf(cf) || cf == CF_LOCK@ || cf == CF_WRITE@
}

/// Whether two strings hold the same characters.
fn same_str(a: &str, b: &str) -> (r: bool)
    ensures
        r == (a@ == b@),
{
    let x = a.as_bytes();
    let y = b.as_bytes();
    proof {
        vstd::utf8::encode_utf8_decode_utf8(a@);
        vstd::utf8::encode_utf8_decode_utf8(b@);
        assert(x@ == vstd::utf8::encode_utf8(a@));
        assert(y@ == vstd::utf8::encode_utf8(b@));
    }
    if x.len() != y.len() {
        return false;
    }
    let mut i: usize = 0;
    while i < x.len()
        invariant
            x@ == vstd::utf8::encode_utf8(a@),
            y@ == vstd::utf8::encode_utf8(b@),
            x@.len() == y@.len(),
            i <= x@.len(),
            forall|j: int| 0 <= j < i ==> x@[j] == y@[j],
        decreases x@.len() - i,
    {
        if x[i] != y[i] {
            proof {
                assert(x@[i as int] != y@[i as int]);
                assert(x@ != y@);
            }
            return false;
        }
        i = i + 1;
    }
    proof {
        assert(x@ =~= y@);
    }
    true
}

/// What the last choice of a load method saw.
#[derive(Default, Debug)]
pub struct LoadDataHintStatistics {
    /// The write column family's `over_seek_bound` at the last choice.
    pub last_write_over_seek_bound: usize,
}

/// How to load data from the default column family.
#[derive(Default, PartialEq, Debug, Clone)]
pub enum LoadDataHint {
    /// Step with `next` a few times before seeking.
    #[default]
    NearSeek,
    /// Seek directly.
    Seek,
}

/// The operations taken in each column family when fetching data.
#[derive(Default, Debug)]
pub struct Statistics {
    pub lock: CfStatistics,
    pub write: CfStatistics,
    pub data: CfStatistics,
    /// The bytes of the user key-value pairs processed.
    pub processed_size: usize,
    pub load_data_hint: LoadDataHintStatistics,
}

impl Statistics {
    /// The write column family's `over_seek_bound` when a load method was
    /// last chosen.
    pub open spec fn last_write_over_seek_bound(&self) -> usize {
        self.load_data_hint.last_write_over_seek_bound
    }

    /// Chooses how to load from the default column family: seek directly
    /// when the write column family went over a seek bound since the last
    /// choice, since the next valid key may then be far away.
    pub fn load_data_hint(&mut self) -> (r: LoadDataHint)
        ensures
            r == (if old(self).write.over_seek_bound != old(self).last_write_over_seek_bound() {
                LoadDataHint::Seek
            } else {
                LoadDataHint::NearSeek
            }),
            final(self).last_write_over_seek_bound() == old(self).write.over_seek_bound,
            final(self).lock == old(self).lock,
            final(self).write == old(self).write,
            final(self).data == old(self).data,
            final(self).processed_size == old(self).processed_size,
    {
        let hint = if self.write.over_seek_bound != self.load_data_hint.last_write_over_seek_bound {
            LoadDataHint::Seek
        } else {
            LoadDataHint::NearSeek
        };
        self.load_data_hint.last_write_over_seek_bound = self.write.over_seek_bound;
        hint
    }

    pub fn details(&self) -> (r: [(&'static str, [(&'static str, usize); 12]); 3])
        ensures
            r@.len() == 3,
            r@[0].0 == CF_DEFAULT && r@[0].1@ == self.data.details_spec(),
            r@[1].0 == CF_LOCK && r@[1].1@ == self.lock.details_spec(),
            r@[2].0 == CF_WRITE && r@[2].1@ == self.write.details_spec(),
    {
        [(CF_DEFAULT, self.data.details()), (CF_LOCK, self.lock.details()), (CF_WRITE, self.write.details())]
    }

    pub fn details_enum(&self) -> (r: [(GcKeysCF, [(GcKeysDetail, usize); 12]); 3])
        ensures
            r@.len() == 3,
            r@[0].0 == GcKeysCF::default && r@[0].1@ == self.data.details_enum_spec(),
            r@[1].0 == GcKeysCF::lock && r@[1].1@ == self.lock.details_enum_spec(),
            r@[2].0 == GcKeysCF::write && r@[2].1@ == self.write.details_enum_spec(),
    {
        [
            (GcKeysCF::default, self.data.details_enum()),
            (GcKeysCF::lock, self.lock.details_enum()),
            (GcKeysCF::write, self.write.details_enum()),
        ]
    }

    /// Adds `other` column family by column family.
    pub fn add(&mut self, other: &Statistics)
        requires
            old(self).processed_size + other.processed_size <= usize::MAX,
        ensures
            cf_added(old(self).lock, other.lock, final(self).lock),
            cf_added(old(self).write, other.write, final(self).write),
            cf_added(old(self).data, other.data, final(self).data),
            final(self).processed_size == old(self).processed_size + other.processed_size,
            final(self).last_write_over_seek_bound() == old(self).last_write_over_seek_bound(),
    {
        self.lock.add(&other.lock);
        self.write.add(&other.write);
        self.data.add(&other.data);
        self.processed_size = self.processed_size + other.processed_size;
    }

    pub fn scan_detail(&self) -> (r: ScanDetail)
        requires
            self.data.spec_total_op_count() <= usize::MAX,
            self.lock.spec_total_op_count() <= usize::MAX,
            self.write.spec_total_op_count() <= usize::MAX,
        ensures
            r.data == self.data.scan_info_spec(),
            r.lock == self.lock.scan_info_spec(),
            r.write == self.write.scan_info_spec(),
    {
        ScanDetail {
            write: self.write.scan_info(),
            lock: self.lock.scan_info(),
            data: self.data.scan_info(),
        }
    }

    /// The statistics of column family `cf`, for update.
    pub fn mut_cf_statistics(&mut self, cf: &str) -> (r: &mut CfStatistics)
        requires
            is_cf_name(cf@),
        ensures
            names_data_cf(cf@) ==> {
                &&& *r == old(self).data
                &&& final(self).data == *final(r)
                &&& final(self).lock == old(self).lock
                &&& final(self).write == old(self).write
            },
            cf@ == CF_LOCK@ ==> {
                &&& *r == old(self).lock
                &&& final(self).lock == *final(r)
                &&& final(self).data == old(self).data
                &&& final(self).write == old(self).write
            },
            cf@ == CF_WRITE@ ==> {
                &&& *r == old(self).write
                &&& final(self).write == *final(r)
                &&& final(self).data == old(self).data
                &&& final(self).lock == old(self).lock
            },
            final(self).processed_size == old(self).processed_size,
            final(self).last_write_over_seek_bound() == old(self).last_write_over_seek_bound(),
    {
        proof {
            reveal_strlit("default");
            reveal_strlit("lock");
            reveal_strlit("write");
        }
        if cf.is_empty() || same_str(cf, CF_DEFAULT) {
            &mut self.data
        } else if same_str(cf, CF_LOCK) {
            &mut self.lock
        } else {
            &mut self.write
        }
    }

    /// The statistics of column family `cf`.
    pub fn cf_statistics(&self, cf: &str) -> (r: &CfStatistics)
        requires
            is_cf_name(cf@),
        ensures
            names_data_cf(cf@) ==> *r == self.data,
            cf@ == CF_LOCK@ ==> *r == self.lock,
            cf@ == CF_WRITE@ ==> *r == self.write,
    {
        proof {
            reveal_strlit("default");
            reveal_strlit("lock");
            reveal_strlit("write");
        }
        if cf.is_empty() || same_str(cf, CF_DEFAULT) {
            &self.data
        } else if same_str(cf, CF_LOCK) {
            &self.lock
        } else {
            &self.write
        }
    }

    /// Fills in the write column family's scanned versions and the bytes
    /// processed.
    pub fn write_scan_detail(&self, detail_v2: &mut ScanDetailV2)
        requires
            self.write.spec_total_op_count() <= usize::MAX,
        ensures
            final(detail_v2).processed_versions == self.write.processed_keys as u64,
            final(detail_v2).total_versions == self.write.spec_total_op_count() as usize as u64,
            final(detail_v2).processed_versions_size == self.processed_size as u64,
    {
        detail_v2.processed_versions = self.write.processed_keys as u64;
        detail_v2.total_versions = self.write.total_op_count() as u64;
        detail_v2.processed_versions_size = self.processed_size as u64;
    }
}

/// Whether `n` is `o` with `other` added counter by counter, saturating.
pub open spec fn cf_added(o: CfStatistics, other: CfStatistics, n: CfStatistics) -> bool {
    &&& n.processed_keys == sat_add(o.processed_keys, other.processed_keys)
    &&& n.get == sat_add(o.get, other.get)
    &&& n.next == sat_add(o.next, other.next)
    &&& n.prev == sat_add(o.prev, other.prev)
    &&& n.seek == sat_add(o.seek, other.seek)
    &&& n.seek_for_prev == sat_add(o.seek_for_prev, other.seek_for_prev)
    &&& n.over_seek_bound == sat_add(o.over_seek_bound, other.over_seek_bound)
    &&& n.flow_stats.read_keys == sat_add(o.flow_stats.read_keys, other.flow_stats.read_keys)
    &&& n.flow_stats.read_bytes == sat_add(o.flow_stats.read_bytes, other.flow_stats.read_bytes)
    &&& n.next_tombstone == sat_add(o.next_tombstone, other.next_tombstone)
    &&& n.prev_tombstone == sat_add(o.prev_tombstone, other.prev_tombstone)
    &&& n.seek_tombstone == sat_add(o.seek_tombstone, other.seek_tombstone)
    &&& n.seek_for_prev_tombstone == sat_add(
        o.seek_for_prev_tombstone,
        other.seek_for_prev_tombstone,
    )
    &&& n.raw_value_tombstone == sat_add(o.raw_value_tombstone, other.raw_value_tombstone)
}

/// Statistics summed over several requests, with their number.
#[derive(Default, Debug)]
pub struct StatisticsSummary {
    pub stat: Statistics,
    pub count: u64,
}

impl StatisticsSummary {
    pub fn add_statistics(&mut self, v: &Statistics)
        requires
            old(self).stat.processed_size + v.processed_size <= usize::MAX,
            old(self).count < u64::MAX,
        ensures
            cf_added(old(self).stat.lock, v.lock, final(self).stat.lock),
            cf_added(old(self).stat.write, v.write, final(self).stat.write),
            cf_added(old(self).stat.data, v.data, final(self).stat.data),
            final(self).stat.processed_size == old(self).stat.processed_size + v.processed_size,
            final(self).count == old(self).count + 1,
    {
        self.stat.add(v);
        self.count = self.count + 1;
    }
}

/// Latency of the stages of a read, in nanoseconds: waiting to be
/// scheduled, waiting for a snapshot, both together, and processing.
#[derive(Debug, Default, Copy, Clone)]
pub struct StageLatencyStats {
    pub schedule_wait_time_ns: u64,
    pub snapshot_wait_time_ns: u64,
    pub wait_wall_time_ns: u64,
    pub process_wall_time_ns: u64,
}

} // verus!
