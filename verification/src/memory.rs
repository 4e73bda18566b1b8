use vstd::prelude::*;

verus! {

/// One memory sample: total, used and available bytes, as the source
/// reports them. Available may exceed total minus used on hosts that
/// count reclaimable caches as available, so no relation is enforced.
#[derive(Clone, Copy, PartialEq, Eq, Structural, Debug)]
pub struct MemoryInfo {
    pub total: u64,
    pub used: u64,
    pub available: u64,
}

/// Reads the three memory counters from the metric source. Pass-through:
/// the values are whatever the host reports at this instant.
pub fn get_memory_info(system: &sysinfo::System) -> MemoryInfo {
    let total = system.total_memory();
    let used = system.used_memory();
    let available = system.available_memory();
    MemoryInfo { total, used, available }
}

} // verus!
