//! Bookkeeping of the system metrics that are in use, so that only those are
//! refreshed.

use vstd::prelude::*;

verus! {

/// A category of system metrics.
#[derive(Clone, Copy, Debug, PartialEq, Eq, Hash, Structural)]
pub enum MetricCategory {
    Cpu,
    Ram,
    Network,
    Disks,
    Processes,
    Temperatures,
}

/// How many users each category of metrics has.
#[derive(Clone, Copy, Debug)]
pub struct RequirementTracker {
    pub cpu: usize,
    pub ram: usize,
    pub network: usize,
    pub disks: usize,
    pub processes: usize,
    pub temperatures: usize,
}

/// Which categories to refresh.
#[derive(Clone, Copy, Debug, PartialEq, Eq, Structural)]
pub struct RefreshFilter {
    pub cpu: bool,
    pub ram: bool,
    pub network: bool,
    pub disks: bool,
    pub process_info: bool,
    pub components_temperature: bool,
}

/// The token of one use of a category. It is handed back to the tracker when
/// the use ends.
#[derive(Debug)]
pub struct RefreshHandle {
    pub category: MetricCategory,
}

/// System information that does not change while the system runs.
#[derive(Clone, Debug)]
pub struct StaticInfo {
    /// Name of the operating system.
    pub name: String,
    /// Kernel version.
    pub kernel: String,
    /// Version of the operating system.
    pub os_ver: String,
    /// Long version of the operating system.
    pub long_os_ver: String,
    /// Identifier of the distribution, such as "arch".
    pub distribution_id: String,
    /// Host name.
    pub host: String,
    /// Total memory in bytes.
    pub total_mem: u64,
    /// Number of physical processor cores.
    pub cpu_count: usize,
}

impl RequirementTracker {
    /// The number of users of `category`.
    pub open spec fn count(self, category: MetricCategory) -> usize {
        match category {
            MetricCategory::Cpu => self.cpu,
            MetricCategory::Ram => self.ram,
            MetricCategory::Network => self.network,
            MetricCategory::Disks => self.disks,
            MetricCategory::Processes => self.processes,
            MetricCategory::Temperatures => self.temperatures,
        }
    }

    /// The filter of the categories that have a user.
    pub open spec fn filter(self) -> RefreshFilter {
        RefreshFilter {
            cpu: self.cpu > 0,
            ram: self.ram > 0,
            network: self.network > 0,
            disks: self.disks > 0,
            process_info: self.processes > 0,
            components_temperature: self.temperatures > 0,
        }
    }

    /// The tracker with the number of users of `category` set to `users`.
    pub open spec fn with_count(self, category: MetricCategory, users: usize) -> Self {
        match category {
            MetricCategory::Cpu => RequirementTracker { cpu: users, ..self },
            MetricCategory::Ram => RequirementTracker { ram: users, ..self },
            MetricCategory::Network => RequirementTracker { network: users, ..self },
            MetricCategory::Disks => RequirementTracker { disks: users, ..self },
            MetricCategory::Processes => RequirementTracker { processes: users, ..self },
            MetricCategory::Temperatures => RequirementTracker { temperatures: users, ..self },
        }
    }

    /// A tracker without users.
    pub fn new() -> (tracker: Self)
        ensures
            forall|category: MetricCategory| tracker.count(category) == 0,
    {
        RequirementTracker { cpu: 0, ram: 0, network: 0, disks: 0, processes: 0, temperatures: 0 }
    }

    /// The categories to refresh: those that have a user.
    pub fn to_filter(&self) -> (filter: RefreshFilter)
        ensures
            filter == self.filter(),
    {
        RefreshFilter {
            cpu: self.cpu > 0,
            ram: self.ram > 0,
            network: self.network > 0,
            disks: self.disks > 0,
            process_info: self.processes > 0,
            components_temperature: self.temperatures > 0,
        }
    }

    /// Counts one more user of `category`.
    pub fn acquire(&mut self, category: MetricCategory) -> (handle: RefreshHandle)
        requires
            old(self).count(category) < usize::MAX,
        ensures
            handle.category == category,
            *final(self) == old(self).with_count(
                category,
                (old(self).count(category) + 1) as usize,
            ),
    {
        match category {
            MetricCategory::Cpu => {
                self.cpu += 1;
            },
            MetricCategory::Ram => {
                self.ram += 1;
            },
            MetricCategory::Network => {
                self.network += 1;
            },
            MetricCategory::Disks => {
                self.disks += 1;
            },
            MetricCategory::Processes => {
                self.processes += 1;
            },
            MetricCategory::Temperatures => {
                self.temperatures += 1;
            },
        }
        RefreshHandle { category }
    }

    /// Takes a handle back: its category has one user less, but never fewer
    /// than none.
    pub fn release(&mut self, handle: RefreshHandle)
        ensures
            *final(self) == old(self).with_count(
                handle.category,
                if old(self).count(handle.category) == 0 {
                    0
                } else {
                    (old(self).count(handle.category) - 1) as usize
                },
            ),
    {
        match handle.category {
            MetricCategory::Cpu => {
                self.cpu = self.cpu.saturating_sub(1);
            },
            MetricCategory::Ram => {
                self.ram = self.ram.saturating_sub(1);
            },
            MetricCategory::Network => {
                self.network = self.network.saturating_sub(1);
            },
            MetricCategory::Disks => {
                self.disks = self.disks.saturating_sub(1);
            },
            MetricCategory::Processes => {
                self.processes = self.processes.saturating_sub(1);
            },
            MetricCategory::Temperatures => {
                self.temperatures = self.temperatures.saturating_sub(1);
            },
        }
    }
}

impl Default for RequirementTracker {
    fn default() -> (tracker: Self)
        ensures
            forall|category: MetricCategory| tracker.count(category) == 0,
    {
        RequirementTracker::new()
    }
}

impl RefreshFilter {
    /// The filter that refreshes every category.
    pub fn new() -> (filter: Self)
        ensures
            filter.cpu && filter.ram && filter.network && filter.disks && filter.process_info
                && filter.components_temperature,
    {
        RefreshFilter {
            cpu: true,
            ram: true,
            network: true,
            disks: true,
            process_info: true,
            components_temperature: true,
        }
    }

    /// Whether the filter refreshes no category.
    pub fn nothing_was_refreshed(&self) -> (nothing: bool)
        ensures
            nothing == (!self.cpu && !self.ram && !self.network && !self.disks
                && !self.process_info && !self.components_temperature),
    {
        !self.cpu && !self.ram && !self.network && !self.disks && !self.process_info
            && !self.components_temperature
    }
}

impl Default for RefreshFilter {
    fn default() -> (filter: Self)
        ensures
            !filter.cpu && !filter.ram && !filter.network && !filter.disks
                && !filter.process_info && !filter.components_temperature,
    {
        RefreshFilter {
            cpu: false,
            ram: false,
            network: false,
            disks: false,
            process_info: false,
            components_temperature: false,
        }
    }
}

/// Counts one more user of the processor metrics.
pub fn require_cpu(tracker: &mut RequirementTracker) -> (handle: RefreshHandle)
    requires
        old(tracker).cpu < usize::MAX,
    ensures
        handle.category == MetricCategory::Cpu,
        *final(tracker) == (RequirementTracker {
            cpu: (old(tracker).cpu + 1) as usize,
            ..*old(tracker)
        }),
{
    tracker.acquire(MetricCategory::Cpu)
}

/// Counts one more user of the memory metrics.
pub fn require_ram(tracker: &mut RequirementTracker) -> (handle: RefreshHandle)
    requires
        old(tracker).ram < usize::MAX,
    ensures
        handle.category == MetricCategory::Ram,
        *final(tracker) == (RequirementTracker {
            ram: (old(tracker).ram + 1) as usize,
            ..*old(tracker)
        }),
{
    tracker.acquire(MetricCategory::Ram)
}

/// Counts one more user of the network metrics.
pub fn require_network(tracker: &mut RequirementTracker) -> (handle: RefreshHandle)
    requires
        old(tracker).network < usize::MAX,
    ensures
        handle.category == MetricCategory::Network,
        *final(tracker) == (RequirementTracker {
            network: (old(tracker).network + 1) as usize,
            ..*old(tracker)
        }),
{
    tracker.acquire(MetricCategory::Network)
}

/// Counts one more user of the disk metrics.
pub fn require_disks(tracker: &mut RequirementTracker) -> (handle: RefreshHandle)
    requires
        old(tracker).disks < usize::MAX,
    ensures
        handle.category == MetricCategory::Disks,
        *final(tracker) == (RequirementTracker {
            disks: (old(tracker).disks + 1) as usize,
            ..*old(tracker)
        }),
{
    tracker.acquire(MetricCategory::Disks)
}

/// Counts one more user of the process metrics.
pub fn require_processes(tracker: &mut RequirementTracker) -> (handle: RefreshHandle)
    requires
        old(tracker).processes < usize::MAX,
    ensures
        handle.category == MetricCategory::Processes,
        *final(tracker) == (RequirementTracker {
            processes: (old(tracker).processes + 1) as usize,
            ..*old(tracker)
        }),
{
    tracker.acquire(MetricCategory::Processes)
}

/// Counts one more user of the temperature metrics.
pub fn require_temperatures(tracker: &mut RequirementTracker) -> (handle: RefreshHandle)
    requires
        old(tracker).temperatures < usize::MAX,
    ensures
        handle.category == MetricCategory::Temperatures,
        *final(tracker) == (RequirementTracker {
            temperatures: (old(tracker).temperatures + 1) as usize,
            ..*old(tracker)
        }),
{
    tracker.acquire(MetricCategory::Temperatures)
}

} // verus!
