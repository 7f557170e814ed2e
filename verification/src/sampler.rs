//! Assembly of the per-tick resource-usage snapshot from the system-wide
//! counters and, when a tracked process resolved, its own counters. The
//! surrounding service reads the OS metrics once per tick and hands the
//! readings in as plain values; CPU shares arrive in hundredths of a
//! percent.

use vstd::prelude::*;

verus! {

/// One reading of the system-wide counters.
pub struct SystemReading {
    /// Usage of each CPU core, in hundredths of a percent.
    pub cpu_per_core: Vec<u32>,
    /// Used system RAM, in bytes.
    pub ram_used: u64,
    /// Available system RAM, in bytes.
    pub ram_free: u64,
}

/// One reading of the tracked process's counters.
pub struct ProcessReading {
    /// CPU usage, in hundredths of a percent.
    pub cpu: u32,
    /// Resident memory, in bytes.
    pub ram: u64,
    /// Bytes read from disk since the last refresh.
    pub disk_read: u64,
    /// Bytes written to disk since the last refresh.
    pub disk_written: u64,
}

/// One usage snapshot, produced once per sampling tick and broadcast to the
/// stats channel. The server fields are absent whenever no tracked pid
/// resolved to a live process at the tick — that is not an error.
pub struct UsageSnapshot {
    /// Usage of each CPU core, in hundredths of a percent.
    pub system_cpu_usage: Vec<u32>,
    /// The server process's CPU usage, in hundredths of a percent.
    pub server_cpu_usage: Option<u32>,
    /// The server process's resident memory, in bytes.
    pub server_ram_usage: Option<u64>,
    /// The server process's disk traffic, read and written together, in
    /// bytes.
    pub server_disk_usage: Option<u64>,
    /// Used system RAM, in bytes.
    pub system_ram_used: u64,
    /// Available system RAM, in bytes.
    pub system_ram_free: u64,
}

/// Read and written bytes taken together, held at the largest representable
/// value rather than wrapping were the sum ever to exceed it.
pub open spec fn spec_disk_total(read: u64, written: u64) -> u64 {
    if read + written > u64::MAX {
        u64::MAX
    } else {
        (read + written) as u64
    }
}

/// Builds the snapshot of one tick: the system counters always, the server
/// fields exactly when a process reading exists, with its disk traffic
/// summed.
pub fn build_snapshot(sys: SystemReading, process: Option<ProcessReading>) -> (r: UsageSnapshot)
    ensures
        r.system_cpu_usage@ == sys.cpu_per_core@,
        r.system_ram_used == sys.ram_used,
        r.system_ram_free == sys.ram_free,
        process is None ==> r.server_cpu_usage is None && r.server_ram_usage is None
            && r.server_disk_usage is None,
        process matches Some(p) ==> r.server_cpu_usage == Some(p.cpu) && r.server_ram_usage
            == Some(p.ram) && r.server_disk_usage == Some(
            spec_disk_total(p.disk_read, p.disk_written),
        ),
{
    let (cpu, ram, disk) = match process {
        Some(p) => {
            let total = if p.disk_read <= u64::MAX - p.disk_written {
                p.disk_read + p.disk_written
            } else {
                u64::MAX
            };
            (Some(p.cpu), Some(p.ram), Some(total))
        },
        None => (None, None, None),
    };
    UsageSnapshot {
        system_cpu_usage: sys.cpu_per_core,
        server_cpu_usage: cpu,
        server_ram_usage: ram,
        server_disk_usage: disk,
        system_ram_used: sys.ram_used,
        system_ram_free: sys.ram_free,
    }
}

} // verus!
