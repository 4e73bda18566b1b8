use system_monitor::disk::get_disk_info;
use system_monitor::memory::get_memory_info;
use system_monitor::network::get_network_info;
use sysinfo::System;

#[test]
fn live_memory_sample_is_sane() {
    let mut system = System::new_all();
    system.refresh_all();
    let m = get_memory_info(&system);
    assert!(m.total > 0);
    assert!(m.used <= m.total);
}

#[test]
fn live_disks_are_well_formed() {
    let disks = get_disk_info();
    for d in &disks {
        assert!(d.used <= d.total);
        if d.available <= d.total {
            assert_eq!(d.used, d.total - d.available);
        } else {
            assert_eq!(d.used, 0);
        }
    }
}

#[test]
fn live_network_enumerates() {
    // counters are whatever the host reports; the call must simply work
    let nets = get_network_info();
    for n in &nets {
        assert!(!n.interface.is_empty());
    }
}
