use system_monitor::usage_percent;
use system_monitor::control::{control_step, LoopAction, PollOutcome};
use system_monitor::cpu::{parse_millidegrees, CpuInfo};
use system_monitor::disk::{disks_from_spaces, DiskSpace};
use system_monitor::frame::{build_frame, Frame};
use system_monitor::layout::compute_layout;
use system_monitor::memory::MemoryInfo;
use system_monitor::network::NetworkInfo;
use system_monitor::process::{get_top_processes, ProcessInfo};
use system_monitor::render::{
    build_panels, core_line, cpu_total_label, create_bar, gib2, mib2, process_line,
    temperature_text, temperature_tier, truncate_string, used_total_label, Panel, TempTier,
};
use system_monitor::settings::Settings;
use system_monitor::textfmt::{dec_fixed1, dec_fixed2, dec_u64, pad_left, pad_right};
use system_monitor::usage::{cpu_usage_le, usage_label, usage_whole_percent, CpuUsage};

fn proc(pid: u32, name: &str, usage: CpuUsage, memory: u64) -> ProcessInfo {
    ProcessInfo {
        pid,
        name: name.to_string(),
        cpu_usage: usage,
        memory,
    }
}

fn usage_of(p: &ProcessInfo) -> CpuUsage {
    p.cpu_usage
}

fn le(a: CpuUsage, b: CpuUsage) -> bool {
    cpu_usage_le(&a, &b)
}

#[test]
fn settings_defaults() {
    let s = Settings::new();
    assert_eq!(s.update_interval_ms, 1000);
    assert!(s.show_network);
    assert!(s.show_disk);
    let d = Settings::default();
    assert_eq!(d.update_interval_ms, 1000);
    assert!(d.show_network && d.show_disk);
}

#[test]
fn zero_total_disk_percent_is_zero() {
    assert_eq!(usage_percent(0, 0), 0);
    assert_eq!(usage_percent(5, 0), 0);
    let disks = disks_from_spaces(vec![DiskSpace {
        name: "ram0".to_string(),
        mount_point: "/mnt/ram".to_string(),
        total: 0,
        available: 0,
    }]);
    assert_eq!(disks.len(), 1);
    assert_eq!(disks[0].used, 0);
    assert_eq!(usage_percent(disks[0].used, disks[0].total), 0);
}

#[test]
fn usage_percent_values() {
    assert_eq!(usage_percent(50, 200), 25);
    assert_eq!(usage_percent(200, 200), 100);
    assert_eq!(usage_percent(201, 200), 100);
    assert_eq!(usage_percent(1, 3), 33);
}

#[test]
fn disk_used_clamps_when_available_exceeds_total() {
    let disks = disks_from_spaces(vec![DiskSpace {
        name: "odd".to_string(),
        mount_point: "/odd".to_string(),
        total: 100,
        available: 150,
    }]);
    assert_eq!(disks[0].used, 0);
    let disks = disks_from_spaces(vec![DiskSpace {
        name: "root".to_string(),
        mount_point: "/".to_string(),
        total: 1000,
        available: 400,
    }]);
    assert_eq!(disks[0].used, 600);
}

#[test]
fn top_processes_ranks_and_truncates() {
    let input = vec![
        proc(1, "a", CpuUsage::Tenths(50), 10),
        proc(2, "b", CpuUsage::NotANumber, 10),
        proc(3, "c", CpuUsage::Tenths(900), 10),
        proc(4, "d", CpuUsage::Tenths(200), 10),
        proc(5, "e", CpuUsage::Tenths(700), 10),
    ];
    let kept: Vec<u32> = get_top_processes(input, 3).iter().map(|p| p.pid).collect();
    assert_eq!(kept, vec![3, 5, 4]);
}

#[test]
fn top_processes_exact_count_and_boundary() {
    let input = vec![
        proc(1, "a", CpuUsage::Tenths(10), 0),
        proc(2, "b", CpuUsage::Tenths(30), 0),
        proc(3, "c", CpuUsage::Tenths(20), 0),
        proc(4, "d", CpuUsage::NotANumber, 0),
        proc(5, "e", CpuUsage::Tenths(40), 0),
    ];
    let excluded_max = CpuUsage::Tenths(20);
    let top = get_top_processes(input, 2);
    assert_eq!(top.len(), 2);
    for p in &top {
        // every kept entry outranks every excluded one
        assert!(le(excluded_max, usage_of(p)));
        assert!(le(CpuUsage::NotANumber, usage_of(p)));
    }
    for w in top.windows(2) {
        assert!(le(usage_of(&w[1]), usage_of(&w[0])));
    }
}

#[test]
fn top_processes_all_nan_does_not_panic() {
    let input = vec![
        proc(1, "a", CpuUsage::NotANumber, 0),
        proc(2, "b", CpuUsage::NotANumber, 0),
    ];
    let top = get_top_processes(input, 10);
    assert_eq!(top.len(), 2);
}

#[test]
fn comparator_treats_nan_as_minimal() {
    assert!(le(CpuUsage::NotANumber, CpuUsage::Tenths(0)));
    assert!(le(CpuUsage::NotANumber, CpuUsage::NotANumber));
    assert!(!le(CpuUsage::Tenths(0), CpuUsage::NotANumber));
    assert!(le(CpuUsage::Tenths(5), CpuUsage::Tenths(7)));
    assert!(!le(CpuUsage::Tenths(7), CpuUsage::Tenths(5)));
}

#[test]
fn layout_heights_fit_for_many_shapes() {
    let settings = Settings::new();
    for &cores in &[1usize, 2, 64, 128] {
        for &disks in &[0usize, 1, 32] {
            for &nets in &[0usize, 1, 16] {
                for &h in &[0u16, 5, 24, 50, 200] {
                    let regions = compute_layout(80, h, cores, disks, nets, &settings);
                    let sum: u64 = regions.iter().map(|r| r.height as u64).sum();
                    assert!(sum <= h as u64);
                }
            }
        }
    }
}

#[test]
fn layout_six_regions_with_network_off() {
    let settings = Settings {
        update_interval_ms: 1000,
        show_network: false,
        show_disk: true,
    };
    let regions = compute_layout(80, 50, 4, 2, 0, &settings);
    assert_eq!(regions.len(), 6);
    let heights: Vec<u16> = regions.iter().map(|r| r.height).collect();
    assert_eq!(heights, vec![3, 3, 6, 3, 8, 27]);
    let ys: Vec<u16> = regions.iter().map(|r| r.y).collect();
    assert_eq!(ys, vec![0, 3, 6, 12, 15, 23]);
    for r in &regions {
        assert_eq!(r.x, 0);
        assert_eq!(r.width, 80);
    }
}

#[test]
fn layout_process_panel_collapses_when_short() {
    let settings = Settings::new();
    let regions = compute_layout(80, 12, 4, 1, 1, &settings);
    let sum: u32 = regions.iter().map(|r| r.height as u32).sum();
    assert!(sum <= 12);
    assert_eq!(regions.last().unwrap().height, 0);
}

fn filled_cells(bar: &str) -> usize {
    bar.chars().filter(|c| *c == '\u{2588}').count()
}

#[test]
fn bar_monotonic_and_clamped() {
    let mut last = 0usize;
    for p in 0..=200u16 {
        let f = filled_cells(&create_bar(p, 20));
        assert!(f >= last);
        last = f;
        if p >= 100 {
            assert_eq!(f, 20);
        }
    }
}

#[test]
fn bar_exact_shape() {
    assert_eq!(create_bar(50, 4), "[\u{2588}\u{2588}\u{2591}\u{2591}]");
    assert_eq!(create_bar(0, 3), "[\u{2591}\u{2591}\u{2591}]");
    let full = create_bar(100, 20);
    assert_eq!(full.chars().count(), 22);
    assert_eq!(filled_cells(&full), 20);
}

#[test]
fn temperature_tiers() {
    assert_eq!(temperature_tier(75000), TempTier::Hot);
    assert_eq!(temperature_tier(65000), TempTier::Warm);
    assert_eq!(temperature_tier(50000), TempTier::Normal);
    assert_eq!(temperature_tier(70000), TempTier::Warm);
    assert_eq!(temperature_tier(60000), TempTier::Normal);
}

#[test]
fn temperature_rendering() {
    assert_eq!(temperature_text(&None), "N/A");
    assert_eq!(temperature_text(&Some(75000)), "75.0");
    assert_eq!(temperature_text(&Some(65040)), "65.0");
    assert_eq!(temperature_text(&Some(65050)), "65.1");
    assert_eq!(temperature_text(&Some(-5000)), "-5.0");
}

#[test]
fn sensor_parse_accepts_plain_readings() {
    assert_eq!(parse_millidegrees("75000"), Some(75000));
    assert_eq!(parse_millidegrees(" 42000\n"), Some(42000));
    assert_eq!(parse_millidegrees("\t0\r\n"), Some(0));
    assert_eq!(parse_millidegrees("-5000"), Some(-5000));
}

#[test]
fn sensor_parse_rejects_malformed_readings() {
    assert_eq!(parse_millidegrees(""), None);
    assert_eq!(parse_millidegrees("   "), None);
    assert_eq!(parse_millidegrees("abc"), None);
    assert_eq!(parse_millidegrees("12.5"), None);
    assert_eq!(parse_millidegrees("-"), None);
    assert_eq!(parse_millidegrees("- 5"), None);
    assert_eq!(parse_millidegrees("5 5"), None);
    assert_eq!(parse_millidegrees("99999999999999999999999"), None);
}

#[test]
fn decimal_formatting() {
    assert_eq!(dec_u64(0), "0");
    assert_eq!(dec_u64(7), "7");
    assert_eq!(dec_u64(1234), "1234");
    assert_eq!(dec_fixed1(425), "42.5");
    assert_eq!(dec_fixed1(7), "0.7");
    assert_eq!(dec_fixed2(1250), "12.50");
    assert_eq!(dec_fixed2(5), "0.05");
    assert_eq!(pad_left("42", 5), "   42");
    assert_eq!(pad_right("42", 5), "42   ");
    assert_eq!(pad_left("123456", 5), "123456");
}

#[test]
fn byte_scaling() {
    assert_eq!(gib2(0), "0.00");
    assert_eq!(gib2(1073741824), "1.00");
    assert_eq!(gib2(536870912), "0.50");
    assert_eq!(gib2(1610612736), "1.50");
    assert_eq!(mib2(1572864), "1.50");
    assert_eq!(mib2(1048576), "1.00");
}

#[test]
fn labels_exact() {
    assert_eq!(cpu_total_label(&CpuUsage::Tenths(425), 8), "42.5% (8 cores)");
    assert_eq!(cpu_total_label(&CpuUsage::NotANumber, 4), "NaN% (4 cores)");
    assert_eq!(
        used_total_label(536870912, 1073741824),
        "0.50 GB / 1.00 GB (50%)"
    );
    assert_eq!(usage_label(&CpuUsage::Tenths(1000)), "100.0");
    assert_eq!(usage_whole_percent(&CpuUsage::Tenths(425)), 42);
    assert_eq!(usage_whole_percent(&CpuUsage::NotANumber), 0);
    assert_eq!(usage_whole_percent(&CpuUsage::Tenths(u32::MAX)), 0xffff);
}

#[test]
fn core_line_exact() {
    let line = core_line(0, &CpuUsage::Tenths(1000));
    let bar: String = std::iter::repeat('\u{2588}').take(20).collect();
    assert_eq!(line, format!("Core 0: 100.0% [{}]", bar));
}

#[test]
fn truncate_string_behaviour() {
    assert_eq!(truncate_string("hello", 20), "hello");
    assert_eq!(
        truncate_string("abcdefghijklmnopqrstuvwxy", 20),
        "abcdefghijklmnopq..."
    );
    assert_eq!(truncate_string("abcd", 3), "...");
    assert_eq!(truncate_string("abc", 3), "abc");
}

#[test]
fn process_line_exact() {
    let line = process_line(42, "init", &CpuUsage::Tenths(15), 2048 * 1024);
    assert_eq!(line, "42       init                 CPU:   1.5%  MEM:     2048 KB");
    let long = process_line(7, "a-very-long-process-name", &CpuUsage::NotANumber, 0);
    assert_eq!(long, "7        a-very-long-proce... CPU:   NaN%  MEM:        0 KB");
}

fn sample_frame(show: (usize, usize)) -> Frame {
    let (disks, nets) = show;
    let mut disk_spaces = Vec::new();
    for i in 0..disks {
        disk_spaces.push(DiskSpace {
            name: format!("disk{}", i),
            mount_point: format!("/mnt/{}", i),
            total: 1000,
            available: 250,
        });
    }
    let mut networks = Vec::new();
    for i in 0..nets {
        networks.push(NetworkInfo {
            interface: format!("eth{}", i),
            received: 1048576,
            transmitted: 524288,
        });
    }
    let cpu = CpuInfo::new(
        CpuUsage::Tenths(300),
        vec![
            CpuUsage::Tenths(100),
            CpuUsage::Tenths(200),
            CpuUsage::Tenths(300),
            CpuUsage::Tenths(400),
        ],
        Some(55000),
    );
    build_frame(
        cpu,
        MemoryInfo {
            total: 1073741824,
            used: 536870912,
            available: 536870912,
        },
        disks_from_spaces(disk_spaces),
        networks,
        vec![
            proc(1, "idle", CpuUsage::Tenths(1), 1024),
            proc(2, "busy", CpuUsage::Tenths(990), 2048),
        ],
        10,
    )
}

#[test]
fn frame_ranks_processes() {
    let f = sample_frame((1, 1));
    assert_eq!(f.processes.len(), 2);
    assert_eq!(f.processes[0].pid, 2);
    assert_eq!(f.cpu.core_count, 4);
}

#[test]
fn panels_follow_panel_order_and_toggles() {
    let f = sample_frame((2, 1));
    let all = Settings::new();
    let panels = build_panels(&f, &all);
    assert_eq!(panels.len(), 7);
    assert!(matches!(panels[0], Panel::CpuTotal { percent: 30, .. }));
    match &panels[1] {
        Panel::Temperature { tier, label } => {
            assert_eq!(*tier, Some(TempTier::Normal));
            assert_eq!(label, "55.0");
        }
        _ => panic!("expected a temperature panel"),
    }
    match &panels[2] {
        Panel::CpuCores { lines } => assert_eq!(lines.len(), 4),
        _ => panic!("expected the core list"),
    }
    match &panels[4] {
        Panel::Disks { lines } => {
            assert_eq!(lines.len(), 6);
            assert_eq!(lines[0], "disk0 (/mnt/0)");
            assert_eq!(lines[1], "   0.00 GB / 0.00 GB (75%)");
            assert_eq!(lines[2], "");
        }
        _ => panic!("expected the disk panel"),
    }
    match &panels[5] {
        Panel::Network { lines } => {
            assert_eq!(lines.len(), 2);
            assert_eq!(lines[0], "eth0");
            assert_eq!(lines[1], "   RX 1.00 MB  TX 0.50 MB");
        }
        _ => panic!("expected the network panel"),
    }
    match &panels[6] {
        Panel::Processes { lines } => assert_eq!(lines.len(), 2),
        _ => panic!("expected the process panel"),
    }

    let none = Settings {
        update_interval_ms: 1000,
        show_network: false,
        show_disk: false,
    };
    let panels = build_panels(&f, &none);
    assert_eq!(panels.len(), 5);
    assert!(matches!(panels[4], Panel::Processes { .. }));
}

#[test]
fn quit_key_stops_the_loop() {
    assert_eq!(control_step(PollOutcome::Key('q')), LoopAction::Quit);
    assert_eq!(control_step(PollOutcome::Key('x')), LoopAction::Continue);
    assert_eq!(control_step(PollOutcome::Timeout), LoopAction::Continue);
    assert_eq!(control_step(PollOutcome::OtherEvent), LoopAction::Continue);
}

#[test]
fn quit_mid_poll_means_no_further_cycle() {
    // one simulated run: events arrive per cycle; the loop must stop on the
    // cycle that sees the quit key and sample exactly that many times
    let events = vec![
        PollOutcome::Timeout,
        PollOutcome::OtherEvent,
        PollOutcome::Key('q'),
        PollOutcome::Timeout,
    ];
    let mut samples = 0usize;
    for e in events {
        samples += 1; // refresh happens before the poll
        if control_step(e) == LoopAction::Quit {
            break;
        }
    }
    assert_eq!(samples, 3);
}
