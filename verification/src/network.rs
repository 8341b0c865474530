//! The network view: how its device list is sorted.

use crate::ranking::{is_ranking, ranking};
use crate::slicing::{split_on, split_text, split_words, trim_text, trimmed, words};
use crate::text::{decimal_value, parse_decimal};
use vstd::prelude::*;
use vstd::string::*;

verus! {

/// Sort order for the device list.
#[derive(Debug, Clone, Copy, PartialEq, Eq, Structural)]
pub enum SortBy {
    /// By traffic, busiest device first.
    Traffic,
    /// By errors and drops, worst device first.
    Errors,
}

impl Default for SortBy {
    fn default() -> (order: Self)
        ensures
            order == SortBy::Traffic,
    {
        SortBy::Traffic
    }
}

impl SortBy {
    /// The label shown for the sort order.
    pub open spec fn spec_label(self) -> Seq<char> {
        match self {
            SortBy::Traffic => "TRAFFIC"@,
            SortBy::Errors => "ERRORS"@,
        }
    }

    /// The label shown for the sort order.
    pub fn label(&self) -> (label: &'static str)
        ensures
            label@ == self.spec_label(),
    {
        match self {
            SortBy::Traffic => "TRAFFIC",
            SortBy::Errors => "ERRORS",
        }
    }
}


/// What the device list knows of one network device.
#[derive(Debug, Clone)]
pub struct DeviceLoad {
    /// Interface name.
    pub name: String,
    /// Bytes received and sent since the device came up.
    pub traffic: u64,
    /// Bytes received and sent per second, zero where no rate is known.
    pub rate: u64,
    /// Receive and transmit errors.
    pub errors: u64,
    /// Dropped packets.
    pub dropped: u64,
}

/// The key by which a device is ranked: by traffic, its rate and then
/// its traffic; by errors, its errors and drops together.
pub open spec fn device_key(device: DeviceLoad, sort_by: SortBy) -> (u128, u128) {
    match sort_by {
        SortBy::Traffic => (device.rate as u128, device.traffic as u128),
        SortBy::Errors => ((device.errors + device.dropped) as u128, 0),
    }
}

/// The keys of the devices, in listed order.
pub open spec fn device_keys(devices: Seq<DeviceLoad>, sort_by: SortBy) -> Seq<(u128, u128)> {
    Seq::new(devices.len(), |i: int| device_key(devices[i], sort_by))
}

/// The order in which the devices are shown, as indices into `devices`:
/// the busiest or the worst device first, devices that rank alike in
/// listed order.
pub fn sort_devices(devices: &Vec<DeviceLoad>, sort_by: SortBy) -> (order: Vec<usize>)
    ensures
        is_ranking(device_keys(devices@, sort_by), order@),
{
    let mut keys: Vec<(u128, u128)> = Vec::new();
    let mut i: usize = 0;
    while i < devices.len()
        invariant
            i <= devices.len(),
            keys@ =~= device_keys(devices@.take(i as int), sort_by),
        decreases devices.len() - i,
    {
        let device = &devices[i];
        let key = match sort_by {
            SortBy::Traffic => (device.rate as u128, device.traffic as u128),
            SortBy::Errors => (device.errors as u128 + device.dropped as u128, 0u128),
        };
        keys.push(key);
        i += 1;
    }
    assert(devices@.take(devices.len() as int) =~= devices@);
    ranking(&keys)
}


/// The counters of one network device, as the kernel's device table
/// (`/proc/net/dev`) lists them.
#[derive(Debug, Clone)]
pub struct DeviceCounters {
    pub name: String,
    pub rx_bytes: u64,
    pub rx_errors: u64,
    pub rx_dropped: u64,
    pub tx_bytes: u64,
    pub tx_errors: u64,
    pub tx_dropped: u64,
}

/// What a `DeviceCounters` holds, every text taken as its characters.
pub struct DeviceCountersView {
    pub name: Seq<char>,
    pub rx_bytes: u64,
    pub rx_errors: u64,
    pub rx_dropped: u64,
    pub tx_bytes: u64,
    pub tx_errors: u64,
    pub tx_dropped: u64,
}

impl View for DeviceCounters {
    type V = DeviceCountersView;

    open spec fn view(&self) -> DeviceCountersView {
        DeviceCountersView {
            name: self.name@,
            rx_bytes: self.rx_bytes,
            rx_errors: self.rx_errors,
            rx_dropped: self.rx_dropped,
            tx_bytes: self.tx_bytes,
            tx_errors: self.tx_errors,
            tx_dropped: self.tx_dropped,
        }
    }
}

impl DeepView for DeviceCounters {
    type V = DeviceCountersView;

    open spec fn deep_view(&self) -> DeviceCountersView {
        self@
    }
}

/// The number that field `index` of a line writes; none where the line
/// has no such field or the field is no number.
pub open spec fn field_value(fields: Seq<Seq<char>>, index: int) -> Option<u64> {
    if 0 <= index < fields.len() {
        decimal_value(fields[index])
    } else {
        None
    }
}

/// The device that a line of the device table describes: the name
/// before the first colon, then the counters, of which the first is the
/// bytes received, the third and fourth the receive errors and drops,
/// the ninth the bytes sent, the eleventh and twelfth the transmit
/// errors and drops. A line without a colon, such as a heading, or
/// without these counters describes none.
pub open spec fn device_of_line(line: Seq<char>) -> Option<DeviceCountersView> {
    let parts = split_on(line, ":"@);
    if parts.len() < 2 {
        None
    } else {
        let fields = words(parts[1]);
        match (
            field_value(fields, 0),
            field_value(fields, 2),
            field_value(fields, 3),
            field_value(fields, 8),
            field_value(fields, 10),
            field_value(fields, 11),
        ) {
            (
                Some(rx_bytes),
                Some(rx_errors),
                Some(rx_dropped),
                Some(tx_bytes),
                Some(tx_errors),
                Some(tx_dropped),
            ) => Some(
                DeviceCountersView {
                    name: trimmed(parts[0]),
                    rx_bytes,
                    rx_errors,
                    rx_dropped,
                    tx_bytes,
                    tx_errors,
                    tx_dropped,
                },
            ),
            _ => None,
        }
    }
}

/// The devices that the lines describe, in order.
pub open spec fn devices_of_lines(lines: Seq<Seq<char>>) -> Seq<DeviceCountersView>
    decreases lines.len(),
{
    if lines.len() == 0 {
        Seq::empty()
    } else {
        match device_of_line(lines.last()) {
            Some(device) => devices_of_lines(lines.drop_last()).push(device),
            None => devices_of_lines(lines.drop_last()),
        }
    }
}

fn read_field(fields: &Vec<String>, index: usize) -> (value: Option<u64>)
    ensures
        value == field_value(fields.deep_view(), index as int),
{
    if index < fields.len() {
        assert(fields.deep_view()[index as int] == fields[index as int]@);
        parse_decimal(fields[index].as_str())
    } else {
        None
    }
}

/// Reads one line of the device table.
pub fn parse_device_line(line: &str) -> (device: Option<DeviceCounters>)
    ensures
        device.is_some() == device_of_line(line@).is_some(),
        device matches Some(d) ==> device_of_line(line@) == Some(d@),
{
    proof {
        reveal_strlit(":");
    }
    let parts = split_text(line, ":");
    assert(parts.deep_view().len() == parts.len());
    if parts.len() < 2 {
        return None;
    }
    assert(parts.deep_view()[0] == parts[0]@ && parts.deep_view()[1] == parts[1]@);
    let fields = split_words(parts[1].as_str());
    match (
        read_field(&fields, 0),
        read_field(&fields, 2),
        read_field(&fields, 3),
        read_field(&fields, 8),
        read_field(&fields, 10),
        read_field(&fields, 11),
    ) {
        (
            Some(rx_bytes),
            Some(rx_errors),
            Some(rx_dropped),
            Some(tx_bytes),
            Some(tx_errors),
            Some(tx_dropped),
        ) => Some(
            DeviceCounters {
                name: trim_text(parts[0].as_str()),
                rx_bytes,
                rx_errors,
                rx_dropped,
                tx_bytes,
                tx_errors,
                tx_dropped,
            },
        ),
        _ => None,
    }
}

/// Reads the device table: one device for each line that describes one.
pub fn parse_device_table(table: &str) -> (devices: Vec<DeviceCounters>)
    ensures
        devices.deep_view() == devices_of_lines(split_on(table@, "\n"@)),
{
    proof {
        reveal_strlit("\n");
    }
    let lines = split_text(table, "\n");
    let mut devices: Vec<DeviceCounters> = Vec::new();
    let mut i: usize = 0;
    assert(lines.deep_view().take(0) =~= Seq::empty());
    while i < lines.len()
        invariant
            i <= lines.len(),
            devices.deep_view() == devices_of_lines(lines.deep_view().take(i as int)),
        decreases lines.len() - i,
    {
        let ghost before = devices.deep_view();
        proof {
            let prefix = lines.deep_view().take(i + 1);
            assert(prefix.drop_last() =~= lines.deep_view().take(i as int));
            assert(prefix.last() == lines[i as int]@);
        }
        match parse_device_line(lines[i].as_str()) {
            Some(device) => {
                devices.push(device);
                assert(devices.deep_view() =~= before.push(device@));
            },
            None => {},
        }
        i += 1;
    }
    assert(lines.deep_view().take(lines.len() as int) =~= lines.deep_view());
    devices
}

/// The sum of two counters, held at the highest value.
pub open spec fn counter_sum(a: u64, b: u64) -> u64 {
    if a + b > u64::MAX {
        u64::MAX
    } else {
        (a + b) as u64
    }
}

fn add_counters(a: u64, b: u64) -> (sum: u64)
    ensures
        sum == counter_sum(a, b),
{
    if a > u64::MAX - b {
        u64::MAX
    } else {
        a + b
    }
}

/// What the device list shows of a device with these counters and this
/// rate: bytes, errors and drops of both directions together.
pub fn device_load(counters: &DeviceCounters, rate: u64) -> (load: DeviceLoad)
    ensures
        load.name@ == counters.name@,
        load.rate == rate,
        load.traffic == counter_sum(counters.rx_bytes, counters.tx_bytes),
        load.errors == counter_sum(counters.rx_errors, counters.tx_errors),
        load.dropped == counter_sum(counters.rx_dropped, counters.tx_dropped),
{
    DeviceLoad {
        name: counters.name.clone(),
        traffic: add_counters(counters.rx_bytes, counters.tx_bytes),
        rate,
        errors: add_counters(counters.rx_errors, counters.tx_errors),
        dropped: add_counters(counters.rx_dropped, counters.tx_dropped),
    }
}

} // verus!
