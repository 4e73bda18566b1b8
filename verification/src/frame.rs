use vstd::prelude::*;
use crate::cpu::{CpuInfo, cpu_wf};
use crate::memory::MemoryInfo;
use crate::disk::DiskInfo;
use crate::network::NetworkInfo;
use crate::process::{ProcessInfo, sorted_desc, get_top_processes};
use crate::usage::usage_le;

verus! {

/// One complete, immutable snapshot of all monitored metrics for a single
/// refresh cycle.
pub struct Frame {
    pub cpu: CpuInfo,
    pub memory: MemoryInfo,
    pub disks: Vec<DiskInfo>,
    pub networks: Vec<NetworkInfo>,
    pub processes: Vec<ProcessInfo>,
}

pub open spec fn frame_wf(f: Frame) -> bool {
    &&& cpu_wf(f.cpu)
    &&& sorted_desc(f.processes@)
}

/// Packages one sampling pass into a frame, ranking the process list down
/// to the `limit` highest-CPU entries.
pub fn build_frame(
    cpu: CpuInfo,
    memory: MemoryInfo,
    disks: Vec<DiskInfo>,
    networks: Vec<NetworkInfo>,
    processes: Vec<ProcessInfo>,
    limit: usize,
) -> (r: Frame)
    requires
        cpu_wf(cpu),
    ensures
        r.cpu == cpu,
        r.memory == memory,
        r.disks == disks,
        r.networks == networks,
        r.processes@.len() == vstd::math::min(processes@.len() as int, limit as int),
        sorted_desc(r.processes@),
        forall|x: ProcessInfo|
            (#[trigger] processes@.to_multiset().count(x)) > r.processes@.to_multiset().count(x)
                ==> forall|i: int|
                0 <= i < r.processes@.len() ==> usage_le(
                    x.cpu_usage,
                    #[trigger] r.processes@[i].cpu_usage,
                ),
        frame_wf(r),
{
    let top = get_top_processes(processes, limit);
    Frame { cpu, memory, disks, networks, processes: top }
}

} // verus!
