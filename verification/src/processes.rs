//! The process view: how its list is sorted and filtered, and its input
//! mode.

use crate::ranking::{is_ranking, ranking};
use crate::text::{contains, lowercase_of, text_contains, to_lowercase};
use vstd::prelude::*;
use vstd::string::*;

verus! {

/// Sort order for the process list.
#[derive(Debug, Clone, Copy, PartialEq, Eq, Structural)]
pub enum SortBy {
    Cpu,
    Mem,
}

impl Default for SortBy {
    fn default() -> (order: Self)
        ensures
            order == SortBy::Cpu,
    {
        SortBy::Cpu
    }
}

impl SortBy {
    /// The label shown for the sort order.
    pub open spec fn spec_label(self) -> Seq<char> {
        match self {
            SortBy::Cpu => "CPU"@,
            SortBy::Mem => "MEM"@,
        }
    }

    /// The label shown for the sort order.
    pub fn label(&self) -> (label: &'static str)
        ensures
            label@ == self.spec_label(),
    {
        match self {
            SortBy::Cpu => "CPU",
            SortBy::Mem => "MEM",
        }
    }
}

/// Input mode of the process view.
#[derive(Debug, Clone, Copy, PartialEq, Eq, Structural)]
pub enum Mode {
    Normal,
    /// The filter line is being edited.
    Filtering,
}

impl Default for Mode {
    fn default() -> (mode: Self)
        ensures
            mode == Mode::Normal,
    {
        Mode::Normal
    }
}


/// The state of a process.
#[derive(Debug, Clone, Copy, PartialEq, Eq, Structural)]
pub enum ProcessState {
    Running,
    Sleeping,
    DiskSleep,
    Zombie,
    Stopped,
    Other,
}

/// State counts for the summary bar.
#[derive(Debug, Clone, Copy, PartialEq, Eq, Structural)]
pub struct StateCounts {
    pub running: usize,
    pub sleeping: usize,
    pub disk_wait: usize,
    pub zombie: usize,
}

/// The number of processes among `states` that are in `state`.
pub open spec fn count_in_state(states: Seq<ProcessState>, state: ProcessState) -> nat
    decreases states.len(),
{
    if states.len() == 0 {
        0
    } else if states.last() == state {
        count_in_state(states.drop_last(), state) + 1
    } else {
        count_in_state(states.drop_last(), state)
    }
}

/// Counts the processes that run, sleep, wait for the disk or are
/// zombies.
pub fn count_states(states: &Vec<ProcessState>) -> (counts: StateCounts)
    ensures
        counts.running == count_in_state(states@, ProcessState::Running),
        counts.sleeping == count_in_state(states@, ProcessState::Sleeping),
        counts.disk_wait == count_in_state(states@, ProcessState::DiskSleep),
        counts.zombie == count_in_state(states@, ProcessState::Zombie),
{
    let mut counts = StateCounts { running: 0, sleeping: 0, disk_wait: 0, zombie: 0 };
    let mut i: usize = 0;
    assert(states@.take(0) =~= Seq::empty());
    while i < states.len()
        invariant
            i <= states.len(),
            counts.running <= i && counts.sleeping <= i && counts.disk_wait <= i && counts.zombie
                <= i,
            counts.running == count_in_state(states@.take(i as int), ProcessState::Running),
            counts.sleeping == count_in_state(states@.take(i as int), ProcessState::Sleeping),
            counts.disk_wait == count_in_state(states@.take(i as int), ProcessState::DiskSleep),
            counts.zombie == count_in_state(states@.take(i as int), ProcessState::Zombie),
        decreases states.len() - i,
    {
        proof {
            let prefix = states@.take(i + 1);
            assert(prefix.drop_last() =~= states@.take(i as int));
            assert(prefix.last() == states@[i as int]);
        }
        match states[i] {
            ProcessState::Running => {
                counts.running = counts.running + 1;
            },
            ProcessState::Sleeping => {
                counts.sleeping = counts.sleeping + 1;
            },
            ProcessState::DiskSleep => {
                counts.disk_wait = counts.disk_wait + 1;
            },
            ProcessState::Zombie => {
                counts.zombie = counts.zombie + 1;
            },
            _ => {},
        }
        i += 1;
    }
    assert(states@.take(states.len() as int) =~= states@);
    counts
}

/// The texts of a process that the filter looks at.
#[derive(Debug, Clone)]
pub struct ProcessText {
    pub command: String,
    pub args: String,
    pub executable: String,
}

/// What a `ProcessText` holds, every text taken as its characters.
pub struct ProcessTextView {
    pub command: Seq<char>,
    pub args: Seq<char>,
    pub executable: Seq<char>,
}

impl View for ProcessText {
    type V = ProcessTextView;

    open spec fn view(&self) -> ProcessTextView {
        ProcessTextView {
            command: self.command@,
            args: self.args@,
            executable: self.executable@,
        }
    }
}

impl DeepView for ProcessText {
    type V = ProcessTextView;

    open spec fn deep_view(&self) -> ProcessTextView {
        self@
    }
}

/// Whether a process passes the filter: its command, its arguments or
/// its executable holds the filter, letter case aside.
pub open spec fn passes_filter(process: ProcessTextView, filter: Seq<char>) -> bool {
    contains(lowercase_of(process.command), lowercase_of(filter)) || contains(
        lowercase_of(process.args),
        lowercase_of(filter),
    ) || contains(lowercase_of(process.executable), lowercase_of(filter))
}

/// The indices of the processes that pass the filter, in listed order;
/// all indices without a filter.
pub open spec fn filtered_indices(processes: Seq<ProcessTextView>, filter: Option<Seq<char>>) -> Seq<
    usize,
>
    decreases processes.len(),
{
    if processes.len() == 0 {
        Seq::empty()
    } else {
        let shown = match filter {
            Some(f) => passes_filter(processes.last(), f),
            None => true,
        };
        if shown {
            filtered_indices(processes.drop_last(), filter).push((processes.len() - 1) as usize)
        } else {
            filtered_indices(processes.drop_last(), filter)
        }
    }
}

/// Applies the filter to the processes.
pub fn apply_filter(processes: &Vec<ProcessText>, filter: Option<&str>) -> (shown: Vec<usize>)
    ensures
        shown@ == filtered_indices(
            processes.deep_view(),
            match filter {
                Some(f) => Some(f@),
                None => None,
            },
        ),
{
    let ghost wanted: Option<Seq<char>> = match filter {
        Some(f) => Some(f@),
        None => None,
    };
    let lowered = match filter {
        Some(f) => Some(to_lowercase(f)),
        None => None,
    };
    let mut shown: Vec<usize> = Vec::new();
    let mut i: usize = 0;
    assert(processes.deep_view().take(0) =~= Seq::empty());
    while i < processes.len()
        invariant
            i <= processes.len(),
            wanted == match filter {
                Some(f) => Some(f@),
                None => None,
            },
            match lowered {
                Some(l) => filter is Some && l@ == lowercase_of(filter->0@),
                None => filter is None,
            },
            shown@ == filtered_indices(processes.deep_view().take(i as int), wanted),
        decreases processes.len() - i,
    {
        proof {
            let prefix = processes.deep_view().take(i + 1);
            assert(prefix.drop_last() =~= processes.deep_view().take(i as int));
            assert(prefix.last() == processes[i as int]@);
        }
        let process = &processes[i];
        let passes = match &lowered {
            Some(needle) => {
                let needle = needle.as_str();
                text_contains(to_lowercase(process.command.as_str()).as_str(), needle)
                    || text_contains(to_lowercase(process.args.as_str()).as_str(), needle)
                    || text_contains(to_lowercase(process.executable.as_str()).as_str(), needle)
            },
            None => true,
        };
        if passes {
            shown.push(i);
        }
        i += 1;
    }
    assert(processes.deep_view().take(processes.len() as int) =~= processes.deep_view());
    shown
}

/// The keys by which processes are ranked by memory.
pub open spec fn memory_keys(resident_memory: Seq<u64>) -> Seq<(u128, u128)> {
    Seq::new(resident_memory.len(), |i: int| (resident_memory[i] as u128, 0u128))
}

/// The order in which the processes are shown when sorted by memory, as
/// indices into the list: the largest first, equals in listed order.
pub fn sort_by_memory(resident_memory: &Vec<u64>) -> (order: Vec<usize>)
    ensures
        is_ranking(memory_keys(resident_memory@), order@),
{
    let mut keys: Vec<(u128, u128)> = Vec::new();
    let mut i: usize = 0;
    while i < resident_memory.len()
        invariant
            i <= resident_memory.len(),
            keys@ =~= memory_keys(resident_memory@.take(i as int)),
        decreases resident_memory.len() - i,
    {
        keys.push((resident_memory[i] as u128, 0u128));
        i += 1;
    }
    assert(resident_memory@.take(resident_memory.len() as int) =~= resident_memory@);
    ranking(&keys)
}

} // verus!
