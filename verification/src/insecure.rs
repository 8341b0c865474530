//! The view of a node in maintenance mode, reached without TLS client
//! certificates: its two tabs, the data it shows, and the address that
//! `talosctl` is given.

use crate::slicing::split_on;
use crate::talosctl::{DiskInfo, InsecureVersionInfo, VolumeStatus};
use crate::text::to_chars;
use vstd::prelude::*;
use vstd::string::*;

verus! {

/// View mode for the insecure view.
#[derive(Debug, Clone, Copy, PartialEq, Eq, Structural)]
pub enum InsecureViewMode {
    Disks,
    Volumes,
}

impl Default for InsecureViewMode {
    fn default() -> (mode: Self)
        ensures
            mode == InsecureViewMode::Disks,
    {
        InsecureViewMode::Disks
    }
}

impl InsecureViewMode {
    /// The other tab.
    pub open spec fn spec_next(self) -> InsecureViewMode {
        match self {
            InsecureViewMode::Disks => InsecureViewMode::Volumes,
            InsecureViewMode::Volumes => InsecureViewMode::Disks,
        }
    }

    /// The label of the tab.
    pub open spec fn spec_label(self) -> Seq<char> {
        match self {
            InsecureViewMode::Disks => "Disks"@,
            InsecureViewMode::Volumes => "Volumes"@,
        }
    }

    /// The other tab.
    pub fn next(&self) -> (mode: Self)
        ensures
            mode == self.spec_next(),
    {
        match self {
            InsecureViewMode::Disks => InsecureViewMode::Volumes,
            InsecureViewMode::Volumes => InsecureViewMode::Disks,
        }
    }

    /// The label of the tab.
    pub fn label(&self) -> (label: &'static str)
        ensures
            label@ == self.spec_label(),
    {
        match self {
            InsecureViewMode::Disks => "Disks",
            InsecureViewMode::Volumes => "Volumes",
        }
    }
}

/// Switching tabs twice comes back to the tab one started from.
pub proof fn insecure_tabs_alternate(mode: InsecureViewMode)
    ensures
        mode.spec_next() != mode,
        mode.spec_next().spec_next() == mode,
{
}

/// Data loaded in insecure mode.
#[derive(Debug, Clone)]
pub struct InsecureData {
    /// Endpoint address.
    pub endpoint: String,
    /// Version info, if available.
    pub version: Option<InsecureVersionInfo>,
    /// Physical disks.
    pub disks: Vec<DiskInfo>,
    /// Volume status.
    pub volumes: Vec<VolumeStatus>,
    /// Whether connected.
    pub connected: bool,
}

impl Default for InsecureData {
    fn default() -> (data: Self)
        ensures
            data.endpoint@.len() == 0,
            data.version is None,
            data.disks@.len() == 0,
            data.volumes@.len() == 0,
            !data.connected,
    {
        InsecureData {
            endpoint: String::new(),
            version: None,
            disks: Vec::new(),
            volumes: Vec::new(),
            connected: false,
        }
    }
}

/// The number of colons in `s`.
pub open spec fn colon_count(s: Seq<char>) -> nat
    decreases s.len(),
{
    if s.len() == 0 {
        0
    } else if s.last() == ':' {
        colon_count(s.drop_last()) + 1
    } else {
        colon_count(s.drop_last())
    }
}

/// The address that `talosctl` is given for `endpoint`: an endpoint with
/// exactly one colon is a host with a port, and the host is given; any
/// other endpoint (a bare host, an IPv6 address) is given as it is.
pub open spec fn talosctl_endpoint(endpoint: Seq<char>) -> Seq<char> {
    if colon_count(endpoint) == 1 {
        split_on(endpoint, seq![':'])[0]
    } else {
        endpoint
    }
}

/// Strips a port from an endpoint for `talosctl`.
pub fn endpoint_for_talosctl(endpoint: &str) -> (address: String)
    ensures
        address@ == talosctl_endpoint(endpoint@),
{
    let chars = to_chars(endpoint);
    let mut colons: usize = 0;
    let mut i: usize = 0;
    assert(chars@.take(0) =~= Seq::empty());
    while i < chars.len()
        invariant
            i <= chars.len(),
            colons <= i,
            colons == colon_count(chars@.take(i as int)),
        decreases chars.len() - i,
    {
        proof {
            let prefix = chars@.take(i + 1);
            assert(prefix.drop_last() =~= chars@.take(i as int));
            assert(prefix.last() == chars@[i as int]);
        }
        if chars[i] == ':' {
            colons += 1;
        }
        i += 1;
    }
    assert(chars@.take(chars.len() as int) =~= chars@);
    if colons == 1 {
        proof {
            reveal_strlit(":");
            assert(":"@ =~= seq![':']);
        }
        crate::slicing::first_piece(endpoint, ":")
    } else {
        endpoint.to_string()
    }
}

} // verus!
