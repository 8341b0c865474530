//! The storage view: its two tabs and the data it shows.

use crate::talosctl::{DiskInfo, VolumeStatus};
use vstd::prelude::*;

verus! {

/// View mode for the storage view.
#[derive(Debug, Clone, Copy, PartialEq, Eq, Structural)]
pub enum StorageViewMode {
    Disks,
    Volumes,
}

impl Default for StorageViewMode {
    fn default() -> (mode: Self)
        ensures
            mode == StorageViewMode::Disks,
    {
        StorageViewMode::Disks
    }
}

impl StorageViewMode {
    /// The other tab.
    pub open spec fn spec_next(self) -> StorageViewMode {
        match self {
            StorageViewMode::Disks => StorageViewMode::Volumes,
            StorageViewMode::Volumes => StorageViewMode::Disks,
        }
    }

    /// The label of the tab.
    pub open spec fn spec_label(self) -> Seq<char> {
        match self {
            StorageViewMode::Disks => "Disks"@,
            StorageViewMode::Volumes => "Volumes"@,
        }
    }

    /// The other tab.
    pub fn next(&self) -> (mode: Self)
        ensures
            mode == self.spec_next(),
    {
        match self {
            StorageViewMode::Disks => StorageViewMode::Volumes,
            StorageViewMode::Volumes => StorageViewMode::Disks,
        }
    }

    /// The label of the tab.
    pub fn label(&self) -> (label: &'static str)
        ensures
            label@ == self.spec_label(),
    {
        match self {
            StorageViewMode::Disks => "Disks",
            StorageViewMode::Volumes => "Volumes",
        }
    }
}

/// Switching tabs twice comes back to the tab one started from.
pub proof fn storage_tabs_alternate(mode: StorageViewMode)
    ensures
        mode.spec_next() != mode,
        mode.spec_next().spec_next() == mode,
{
}

/// Loaded storage data.
#[derive(Debug, Clone)]
pub struct StorageData {
    /// Node hostname.
    pub hostname: String,
    /// Node address.
    pub address: String,
    /// Physical disks.
    pub disks: Vec<DiskInfo>,
    /// Volume status.
    pub volumes: Vec<VolumeStatus>,
}

impl Default for StorageData {
    fn default() -> (data: Self)
        ensures
            data.hostname@.len() == 0,
            data.address@.len() == 0,
            data.disks@.len() == 0,
            data.volumes@.len() == 0,
    {
        StorageData {
            hostname: String::new(),
            address: String::new(),
            disks: Vec::new(),
            volumes: Vec::new(),
        }
    }
}

impl StorageData {
    /// The number of rows of a tab.
    pub fn row_count(&self, mode: StorageViewMode) -> (rows: usize)
        ensures
            rows == match mode {
                StorageViewMode::Disks => self.disks@.len(),
                StorageViewMode::Volumes => self.volumes@.len(),
            },
    {
        match mode {
            StorageViewMode::Disks => self.disks.len(),
            StorageViewMode::Volumes => self.volumes.len(),
        }
    }
}

} // verus!
