use vstd::prelude::*;

verus! {

/// One mounted volume, with its used figure derived from total minus
/// available.
#[derive(Debug)]
pub struct DiskInfo {
    pub name: String,
    pub mount_point: String,
    pub total: u64,
    pub available: u64,
    pub used: u64,
}

/// The derived used figure is consistent: total minus available when that
/// does not underflow, zero otherwise, and never more than the total.
pub open spec fn disk_wf(d: DiskInfo) -> bool {
    &&& d.used as int == if d.available <= d.total {
        d.total - d.available
    } else {
        0int
    }
    &&& d.used <= d.total
}

/// Raw per-volume figures as the source hands them out, before any
/// derived computation.
#[derive(Debug)]
pub struct DiskSpace {
    pub name: String,
    pub mount_point: String,
    pub total: u64,
    pub available: u64,
}

/// Relies on sysinfo::Disks::new_with_refreshed_list: enumerates the
/// currently mounted volumes fresh, each with its name, mount point and
/// total/available bytes. The list is whatever the host reports at this
/// instant.
#[verifier::external_body]
fn refreshed_disk_spaces() -> (r: Vec<DiskSpace>) {
    let disks = sysinfo::Disks::new_with_refreshed_list();
    disks
        .iter()
        .map(
            |d| DiskSpace {
                name: d.name().to_string_lossy().to_string(),
                mount_point: d.mount_point().to_string_lossy().to_string(),
                total: d.total_space(),
                available: d.available_space(),
            },
        )
        .collect()
}

/// Builds one snapshot per reported volume, computing used space as total
/// minus available; a reported available figure above the total clamps to
/// zero used rather than underflowing.
pub fn disks_from_spaces(spaces: Vec<DiskSpace>) -> (r: Vec<DiskInfo>)
    ensures
        r@.len() == spaces@.len(),
        forall|i: int|
            0 <= i < r@.len() ==> {
                &&& (#[trigger] r@[i]).name@ == spaces@[i].name@
                &&& r@[i].mount_point@ == spaces@[i].mount_point@
                &&& r@[i].total == spaces@[i].total
                &&& r@[i].available == spaces@[i].available
                &&& disk_wf(r@[i])
            },
{
    let mut r: Vec<DiskInfo> = Vec::new();
    let mut idx: usize = 0;
    while idx < spaces.len()
        invariant
            idx <= spaces@.len(),
            r@.len() == idx,
            forall|i: int|
                0 <= i < idx ==> {
                    &&& (#[trigger] r@[i]).name@ == spaces@[i].name@
                    &&& r@[i].mount_point@ == spaces@[i].mount_point@
                    &&& r@[i].total == spaces@[i].total
                    &&& r@[i].available == spaces@[i].available
                    &&& disk_wf(r@[i])
                },
        decreases spaces@.len() - idx,
    {
        let s = &spaces[idx];
        let used: u64 = if s.available <= s.total {
            s.total - s.available
        } else {
            0
        };
        r.push(
            DiskInfo {
                name: s.name.clone(),
                mount_point: s.mount_point.clone(),
                total: s.total,
                available: s.available,
                used,
            },
        );
        idx = idx + 1;
    }
    r
}

/// Enumerates the mounted volumes fresh and derives each one's used
/// space. Every returned snapshot is well-formed, whatever the host
/// reported.
pub fn get_disk_info() -> (r: Vec<DiskInfo>)
    ensures
        forall|i: int| 0 <= i < r@.len() ==> disk_wf(#[trigger] r@[i]),
{
    disks_from_spaces(refreshed_disk_spaces())
}

} // verus!
