//! Manual compaction of a storage engine's column families.

use std::collections::BTreeMap;
use vstd::prelude::*;

verus! {

/// How a manual compaction runs.
#[derive(Clone, Copy, Debug, PartialEq, Eq, Structural)]
pub struct ManualCompactionOptions {
    pub exclusive_manual: bool,
    pub max_subcompactions: u32,
    pub bottommost_level_force: bool,
}

impl ManualCompactionOptions {
    pub fn new(
        exclusive_manual: bool,
        max_subcompactions: u32,
        bottommost_level_force: bool,
    ) -> (r: ManualCompactionOptions)
        ensures
            r == (ManualCompactionOptions {
                exclusive_manual,
                max_subcompactions,
                bottommost_level_force,
            }),
    {
        ManualCompactionOptions { exclusive_manual, max_subcompactions, bottommost_level_force }
    }
}

/// An engine that names its column families.
pub trait CfNamesExt {
    fn cf_names(&self) -> Vec<&str>;
}

/// Compaction of an engine's key ranges, per column family or over all of
/// them.
pub trait CompactExt: CfNamesExt {
    type CompactedEvent: CompactedEvent;

    type Error;

    /// Whether any column family has automatic compactions disabled.
    fn auto_compactions_is_disabled(&self) -> Result<bool, Self::Error>;

    /// Compacts the range in every column family, in the order the engine
    /// names them; stops at the first failure.
    fn compact_range(
        &self,
        start_key: Option<&[u8]>,
        end_key: Option<&[u8]>,
        compaction_option: ManualCompactionOptions,
    ) -> Result<(), Self::Error> {
        let cfs = self.cf_names();
        let mut i: usize = 0;
        while i < cfs.len()
            decreases cfs@.len() - i,
        {
            match self.compact_range_cf(cfs[i], start_key, end_key, compaction_option) {
                Ok(()) => {},
                Err(e) => {
                    return Err(e);
                },
            }
            i = i + 1;
        }
        Ok(())
    }

    /// Compacts the range of one column family.
    fn compact_range_cf(
        &self,
        cf: &str,
        start_key: Option<&[u8]>,
        end_key: Option<&[u8]>,
        compaction_option: ManualCompactionOptions,
    ) -> Result<(), Self::Error>;

    /// Compacts the files in the range, down to `output_level` (the
    /// bottommost level when none), in every column family; stops at the
    /// first failure.
    fn compact_files_in_range(
        &self,
        start: Option<&[u8]>,
        end: Option<&[u8]>,
        output_level: Option<i32>,
    ) -> Result<(), Self::Error> {
        let cfs = self.cf_names();
        let mut i: usize = 0;
        while i < cfs.len()
            decreases cfs@.len() - i,
        {
            match self.compact_files_in_range_cf(cfs[i], start, end, output_level) {
                Ok(()) => {},
                Err(e) => {
                    return Err(e);
                },
            }
            i = i + 1;
        }
        Ok(())
    }

    /// Compacts the files in the range of one column family.
    fn compact_files_in_range_cf(
        &self,
        cf: &str,
        start: Option<&[u8]>,
        end: Option<&[u8]>,
        output_level: Option<i32>,
    ) -> Result<(), Self::Error>;

    fn compact_files_cf(
        &self,
        cf: &str,
        files: Vec<String>,
        output_level: Option<i32>,
        max_subcompactions: u32,
        exclude_l0: bool,
    ) -> Result<(), Self::Error>;

    /// Checks that all data lies in `[start, end)`.
    fn check_in_range(&self, start: Option<&[u8]>, end: Option<&[u8]>) -> Result<(), Self::Error>;
}

/// What a finished compaction reports.
pub trait CompactedEvent: Send {
    fn total_bytes_declined(&self) -> u64;

    fn is_size_declining_trivial(&self, split_check_diff: u64) -> bool;

    fn output_level_label(&self) -> String;

    /// Takes the event by value so that an engine can move keys out of it.
    fn calc_ranges_declined_bytes(
        self,
        ranges: &BTreeMap<Vec<u8>, u64>,
        bytes_threshold: u64,
    ) -> Vec<(u64, u64)>;

    fn cf(&self) -> &str;
}

} // verus!
