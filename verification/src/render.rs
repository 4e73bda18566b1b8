use vstd::prelude::*;
use vstd::math::min;
use vstd::arithmetic::mul::lemma_mul_inequality;
use vstd::arithmetic::div_mod::{lemma_div_is_ordered, lemma_div_multiples_vanish,
    lemma_fundamental_div_mod};
use vstd::string::StrSliceExecFns;
use vstd::string::StringExecFns;
use crate::percent_of;
use crate::usage_percent;
use crate::textfmt::{dec_spec, dec_u64, dec_fixed1, dec_fixed2, fixed1_spec, fixed2_spec,
    pad_left, pad_left_seq, pad_right, pad_right_seq, rep_seq, rep_str};
use crate::usage::{usage_text, usage_label, whole_percent, usage_whole_percent, CpuUsage};
use crate::cpu::CpuInfo;
use crate::memory::MemoryInfo;
use crate::disk::DiskInfo;
use crate::network::NetworkInfo;
use crate::process::ProcessInfo;
use crate::frame::{Frame, frame_wf};
use crate::settings::Settings;

verus! {

/// How many of `width` bar cells a gauge at `percent` fills: proportional,
/// truncated, and clamped to the bar's width.
pub open spec fn bar_filled(percent: int, width: int) -> int {
    min(percent * width / 100, width)
}

/// A usage bar: brackets around `width` cells, the filled prefix in full
/// blocks, the rest in light shade.
pub open spec fn bar_seq(percent: int, width: int) -> Seq<char> {
    "["@ + rep_seq("█"@, bar_filled(percent, width) as nat) + rep_seq(
        "░"@,
        (width - bar_filled(percent, width)) as nat,
    ) + "]"@
}

/// A fuller gauge never shows fewer filled cells.
pub proof fn lemma_bar_monotonic(p1: int, p2: int, w: int)
    requires
        0 <= p1 <= p2,
        0 <= w,
    ensures
        bar_filled(p1, w) <= bar_filled(p2, w),
{
    lemma_mul_inequality(p1, p2, w);
    lemma_div_is_ordered(p1 * w, p2 * w, 100);
}

/// At or beyond one hundred percent the bar is exactly full.
pub proof fn lemma_bar_clamped(p: int, w: int)
    requires
        100 <= p,
        0 <= w,
    ensures
        bar_filled(p, w) == w,
{
    lemma_mul_inequality(100, p, w);
    lemma_div_is_ordered(100 * w, p * w, 100);
    lemma_div_multiples_vanish(w, 100);
}

/// Draws the fixed-width block-character usage bar.
pub fn create_bar(percent: u16, width: usize) -> (r: String)
    requires
        width <= 0x10000,
    ensures
        r@ == bar_seq(percent as int, width as int),
{
    proof {
        lemma_mul_inequality(percent as int, 65535, width as int);
        lemma_mul_inequality(width as int, 65536, 65535);
    }
    let prod: usize = (percent as usize) * width;
    let f0: usize = prod / 100;
    let filled: usize = if f0 > width {
        width
    } else {
        f0
    };
    let mut r = "[".to_owned();
    let fpart = rep_str("█", filled);
    r.append(fpart.as_str());
    let epart = rep_str("░", width - filled);
    r.append(epart.as_str());
    r.append("]");
    r
}

/// Truncates a display string to `max_len` characters, marking the cut
/// with a three-dot ellipsis inside the limit.
pub open spec fn trunc_spec(s: Seq<char>, max_len: int) -> Seq<char> {
    if s.len() > max_len {
        s.subrange(0, max_len - 3) + "..."@
    } else {
        s
    }
}

pub fn truncate_string(s: &str, max_len: usize) -> (r: String)
    requires
        3 <= max_len,
    ensures
        r@ == trunc_spec(s@, max_len as int),
{
    let n = s.unicode_len();
    if n > max_len {
        let head = s.substring_char(0, max_len - 3);
        let mut r = head.to_owned();
        r.append("...");
        r
    } else {
        s.to_owned()
    }
}

/// The three temperature display tiers.
#[derive(Clone, Copy, PartialEq, Eq, Structural, Debug)]
pub enum TempTier {
    Hot,
    Warm,
    Normal,
}

/// Hot above 70 degrees Celsius, warm above 60, normal otherwise.
pub open spec fn tier_of(millideg: int) -> TempTier {
    if millideg > 70000 {
        TempTier::Hot
    } else if millideg > 60000 {
        TempTier::Warm
    } else {
        TempTier::Normal
    }
}

pub fn temperature_tier(millideg: i64) -> (r: TempTier)
    ensures
        r == tier_of(millideg as int),
{
    if millideg > 70000 {
        TempTier::Hot
    } else if millideg > 60000 {
        TempTier::Warm
    } else {
        TempTier::Normal
    }
}

/// A millidegree reading in degrees with one decimal place, rounded half
/// up on the magnitude.
pub open spec fn temp_value_text(m: int) -> Seq<char> {
    if m < 0 {
        "-"@ + fixed1_spec((((-m) + 50) / 100) as nat)
    } else {
        fixed1_spec(((m + 50) / 100) as nat)
    }
}

/// An absent reading renders as the not-available marker.
pub open spec fn temp_text(t: Option<i64>) -> Seq<char> {
    match t {
        Option::None => "N/A"@,
        Option::Some(m) => temp_value_text(m as int),
    }
}

pub fn temperature_text(temperature: &Option<i64>) -> (r: String)
    requires
        temperature is Some ==> temperature->0 > i64::MIN,
    ensures
        r@ == temp_text(*temperature),
{
    match temperature {
        Option::None => "N/A".to_owned(),
        Option::Some(m) => {
            if *m < 0 {
                let mag = (-(*m)) as u64;
                let mut s = "-".to_owned();
                let v = dec_fixed1((mag + 50) / 100);
                s.append(v.as_str());
                s
            } else {
                let mag = *m as u64;
                dec_fixed1((mag + 50) / 100)
            }
        },
    }
}

/// A byte count in hundredths of `unit`, rounded half up, so it can be
/// shown with two decimal places.
fn scaled_hundredths(bytes: u64, unit: u64) -> (r: u64)
    requires
        100 <= unit,
    ensures
        r as int == (bytes as int * 100 + unit as int / 2) / unit as int,
{
    let half: u64 = unit / 2;
    let num: u128 = bytes as u128 * 100 + half as u128;
    let q: u128 = num / (unit as u128);
    proof {
        let bb = bytes as int;
        let uu = unit as int;
        let nn = num as int;
        let m = 0x1_0000_0000_0000_0000int;
        lemma_mul_inequality(bb, m - 1, 100);
        lemma_mul_inequality(100, uu, m - 1);
        assert((m - 1) * uu + uu / 2 < m * uu) by (nonlinear_arith)
            requires 100 <= uu;
        assert(nn < m * uu);
        if nn / uu >= m {
            lemma_mul_inequality(m, nn / uu, uu);
            lemma_fundamental_div_mod(nn, uu);
            assert(false);
        }
    }
    q as u64
}

/// A byte count in hundredths of a gibibyte.
pub open spec fn gib_hundredths(bytes: int) -> int {
    (bytes * 100 + 536870912) / 1073741824
}

pub open spec fn gib2_text(bytes: int) -> Seq<char> {
    fixed2_spec(gib_hundredths(bytes) as nat)
}

pub fn gib2(bytes: u64) -> (r: String)
    ensures
        r@ == gib2_text(bytes as int),
{
    dec_fixed2(scaled_hundredths(bytes, 1073741824))
}

/// A byte count in hundredths of a mebibyte.
pub open spec fn mib_hundredths(bytes: int) -> int {
    (bytes * 100 + 524288) / 1048576
}

pub open spec fn mib2_text(bytes: int) -> Seq<char> {
    fixed2_spec(mib_hundredths(bytes) as nat)
}

pub fn mib2(bytes: u64) -> (r: String)
    ensures
        r@ == mib2_text(bytes as int),
{
    dec_fixed2(scaled_hundredths(bytes, 1048576))
}

/// The aggregate-CPU gauge label: usage to one decimal and the core count.
pub open spec fn cpu_total_label_spec(u: CpuUsage, cores: nat) -> Seq<char> {
    usage_text(u) + "% ("@ + dec_spec(cores) + " cores)"@
}

pub fn cpu_total_label(usage: &CpuUsage, core_count: usize) -> (r: String)
    ensures
        r@ == cpu_total_label_spec(*usage, core_count as nat),
{
    let mut s = usage_label(usage);
    s.append("% (");
    let c = dec_u64(core_count as u64);
    s.append(c.as_str());
    s.append(" cores)");
    s
}

/// A used/total pair in gibibytes with two decimals and its percentage.
pub open spec fn used_total_label_spec(used: int, total: int) -> Seq<char> {
    gib2_text(used) + " GB / "@ + gib2_text(total) + " GB ("@ + dec_spec(
        percent_of(used, total) as nat,
    ) + "%)"@
}

pub fn used_total_label(used: u64, total: u64) -> (r: String)
    ensures
        r@ == used_total_label_spec(used as int, total as int),
{
    let mut s = gib2(used);
    s.append(" GB / ");
    let t = gib2(total);
    s.append(t.as_str());
    s.append(" GB (");
    let p = usage_percent(used, total);
    let pd = dec_u64(p as u64);
    s.append(pd.as_str());
    s.append("%)");
    s
}

/// One per-core list line: index, usage to one decimal right-aligned in
/// five cells, and the twenty-cell usage bar.
pub open spec fn core_line_spec(idx: nat, u: CpuUsage) -> Seq<char> {
    "Core "@ + dec_spec(idx) + ": "@ + pad_left_seq(usage_text(u), 5) + "% "@ + bar_seq(
        whole_percent(u) as int,
        20,
    )
}

pub fn core_line(idx: usize, u: &CpuUsage) -> (r: String)
    ensures
        r@ == core_line_spec(idx as nat, *u),
{
    let mut s = "Core ".to_owned();
    let d = dec_u64(idx as u64);
    s.append(d.as_str());
    s.append(": ");
    let ul = usage_label(u);
    let padded = pad_left(ul.as_str(), 5);
    s.append(padded.as_str());
    s.append("% ");
    let bar = create_bar(usage_whole_percent(u), 20);
    s.append(bar.as_str());
    s
}

/// A volume's header line: name and mount point.
pub open spec fn disk_header_spec(name: Seq<char>, mount: Seq<char>) -> Seq<char> {
    name + " ("@ + mount + ")"@
}

pub fn disk_header(name: &str, mount: &str) -> (r: String)
    ensures
        r@ == disk_header_spec(name@, mount@),
{
    let mut s = name.to_owned();
    s.append(" (");
    s.append(mount);
    s.append(")");
    s
}

/// An interface's traffic line: received and transmitted in mebibytes.
pub open spec fn net_usage_line_spec(rx: int, tx: int) -> Seq<char> {
    "   RX "@ + mib2_text(rx) + " MB  TX "@ + mib2_text(tx) + " MB"@
}

pub fn net_usage_line(rx: u64, tx: u64) -> (r: String)
    ensures
        r@ == net_usage_line_spec(rx as int, tx as int),
{
    let mut s = "   RX ".to_owned();
    let r0 = mib2(rx);
    s.append(r0.as_str());
    s.append(" MB  TX ");
    let t0 = mib2(tx);
    s.append(t0.as_str());
    s.append(" MB");
    s
}

/// One process list line: pid, name truncated to twenty characters,
/// usage to one decimal, and resident memory in kibibytes.
pub open spec fn process_line_spec(pid: nat, name: Seq<char>, u: CpuUsage, mem: int) -> Seq<
    char,
> {
    pad_right_seq(dec_spec(pid), 8) + " "@ + pad_right_seq(trunc_spec(name, 20), 20) + " CPU: "@
        + pad_left_seq(usage_text(u), 5) + "%  MEM: "@ + pad_left_seq(
        dec_spec((mem / 1024) as nat),
        8,
    ) + " KB"@
}

pub fn process_line(pid: u32, name: &str, u: &CpuUsage, mem: u64) -> (r: String)
    ensures
        r@ == process_line_spec(pid as nat, name@, *u, mem as int),
{
    let pd = dec_u64(pid as u64);
    let mut s = pad_right(pd.as_str(), 8);
    s.append(" ");
    let tn = truncate_string(name, 20);
    let tp = pad_right(tn.as_str(), 20);
    s.append(tp.as_str());
    s.append(" CPU: ");
    let ul = usage_label(u);
    let up = pad_left(ul.as_str(), 5);
    s.append(up.as_str());
    s.append("%  MEM: ");
    let md = dec_u64(mem / 1024);
    let mp = pad_left(md.as_str(), 8);
    s.append(mp.as_str());
    s.append(" KB");
    s
}

/// One dashboard panel's drawable content, in the tagged form the single
/// drawing dispatch consumes: gauges carry a percent and a label, list
/// panels carry their finished lines.
pub enum Panel {
    CpuTotal { percent: u16, label: String },
    Temperature { tier: Option<TempTier>, label: String },
    CpuCores { lines: Vec<String> },
    Memory { percent: u16, label: String },
    Disks { lines: Vec<String> },
    Network { lines: Vec<String> },
    Processes { lines: Vec<String> },
}

pub open spec fn cpu_total_panel_ok(p: Panel, c: CpuInfo) -> bool {
    p matches Panel::CpuTotal { percent, label } && percent == whole_percent(c.usage) && label@
        == cpu_total_label_spec(c.usage, c.core_count as nat)
}

pub open spec fn temp_panel_ok(p: Panel, c: CpuInfo) -> bool {
    p matches Panel::Temperature { tier, label } && label@ == temp_text(c.temperature) && (match c
        .temperature {
        Option::None => tier is None,
        Option::Some(m) => tier == Option::Some(tier_of(m as int)),
    })
}

pub open spec fn cores_panel_ok(p: Panel, c: CpuInfo) -> bool {
    p matches Panel::CpuCores { lines } && lines@.len() == c.core_usages@.len() && forall|i: int|
        0 <= i < lines@.len() ==> (#[trigger] lines@[i])@ == core_line_spec(
            i as nat,
            c.core_usages@[i],
        )
}

pub open spec fn memory_panel_ok(p: Panel, m: MemoryInfo) -> bool {
    p matches Panel::Memory { percent, label } && percent as int == percent_of(
        m.used as int,
        m.total as int,
    ) && label@ == used_total_label_spec(m.used as int, m.total as int)
}

/// The disk panel's line at index `j`: volumes take three lines each, a
/// header, an indented usage line, and a blank spacer.
pub open spec fn disk_line_spec(ds: Seq<DiskInfo>, j: int) -> Seq<char> {
    if j % 3 == 0 {
        disk_header_spec(ds[j / 3].name@, ds[j / 3].mount_point@)
    } else if j % 3 == 1 {
        "   "@ + used_total_label_spec(ds[j / 3].used as int, ds[j / 3].total as int)
    } else {
        Seq::empty()
    }
}

pub open spec fn disks_panel_ok(p: Panel, ds: Seq<DiskInfo>) -> bool {
    p matches Panel::Disks { lines } && lines@.len() == 3 * ds.len() && forall|j: int|
        0 <= j < lines@.len() ==> (#[trigger] lines@[j])@ == disk_line_spec(ds, j)
}

/// The network panel's line at index `j`: interfaces take two lines each,
/// a header and an indented traffic line.
pub open spec fn net_line_spec(ns: Seq<NetworkInfo>, j: int) -> Seq<char> {
    if j % 2 == 0 {
        ns[j / 2].interface@
    } else {
        net_usage_line_spec(ns[j / 2].received as int, ns[j / 2].transmitted as int)
    }
}

pub open spec fn network_panel_ok(p: Panel, ns: Seq<NetworkInfo>) -> bool {
    p matches Panel::Network { lines } && lines@.len() == 2 * ns.len() && forall|j: int|
        0 <= j < lines@.len() ==> (#[trigger] lines@[j])@ == net_line_spec(ns, j)
}

pub open spec fn processes_panel_ok(p: Panel, ps: Seq<ProcessInfo>) -> bool {
    p matches Panel::Processes { lines } && lines@.len() == ps.len() && forall|i: int|
        0 <= i < lines@.len() ==> (#[trigger] lines@[i])@ == process_line_spec(
            ps[i].pid as nat,
            ps[i].name@,
            ps[i].cpu_usage,
            ps[i].memory as int,
        )
}

/// Builds every panel's content for one frame, in the fixed panel order
/// the layout uses; the disk and network panels are omitted entirely when
/// switched off.
pub fn build_panels(frame: &Frame, settings: &Settings) -> (r: Vec<Panel>)
    requires
        frame_wf(*frame),
    ensures
        r@.len() == 5 + (if settings.show_disk {
            1int
        } else {
            0int
        }) + (if settings.show_network {
            1int
        } else {
            0int
        }),
        cpu_total_panel_ok(r@[0], frame.cpu),
        temp_panel_ok(r@[1], frame.cpu),
        cores_panel_ok(r@[2], frame.cpu),
        memory_panel_ok(r@[3], frame.memory),
        settings.show_disk ==> disks_panel_ok(r@[4], frame.disks@),
        settings.show_network ==> network_panel_ok(
            r@[if settings.show_disk {
                5int
            } else {
                4int
            }],
            frame.networks@,
        ),
        processes_panel_ok(r@[r@.len() - 1], frame.processes@),
{
    let mut r: Vec<Panel> = Vec::new();
    r.push(
        Panel::CpuTotal {
            percent: usage_whole_percent(&frame.cpu.usage),
            label: cpu_total_label(&frame.cpu.usage, frame.cpu.core_count),
        },
    );
    let tier = match &frame.cpu.temperature {
        Option::None => Option::None,
        Option::Some(m) => Option::Some(temperature_tier(*m)),
    };
    r.push(Panel::Temperature { tier, label: temperature_text(&frame.cpu.temperature) });
    let mut core_lines: Vec<String> = Vec::new();
    let mut i: usize = 0;
    while i < frame.cpu.core_usages.len()
        invariant
            i <= frame.cpu.core_usages@.len(),
            core_lines@.len() == i,
            forall|k: int|
                0 <= k < i ==> (#[trigger] core_lines@[k])@ == core_line_spec(
                    k as nat,
                    frame.cpu.core_usages@[k],
                ),
        decreases frame.cpu.core_usages@.len() - i,
    {
        core_lines.push(core_line(i, &frame.cpu.core_usages[i]));
        i = i + 1;
    }
    r.push(Panel::CpuCores { lines: core_lines });
    r.push(
        Panel::Memory {
            percent: usage_percent(frame.memory.used, frame.memory.total),
            label: used_total_label(frame.memory.used, frame.memory.total),
        },
    );
    if settings.show_disk {
        let mut disk_lines: Vec<String> = Vec::new();
        let mut d: usize = 0;
        while d < frame.disks.len()
            invariant
                d <= frame.disks@.len(),
                disk_lines@.len() == 3 * d,
                forall|j: int|
                    0 <= j < 3 * d ==> (#[trigger] disk_lines@[j])@ == disk_line_spec(
                        frame.disks@,
                        j,
                    ),
            decreases frame.disks@.len() - d,
        {
            let dk = &frame.disks[d];
            disk_lines.push(disk_header(dk.name.as_str(), dk.mount_point.as_str()));
            let mut usage_line = "   ".to_owned();
            let ul = used_total_label(dk.used, dk.total);
            usage_line.append(ul.as_str());
            disk_lines.push(usage_line);
            disk_lines.push(String::new());
            proof {
                let j0 = 3 * d as int;
                assert(j0 % 3 == 0 && j0 / 3 == d as int) by (nonlinear_arith)
                    requires j0 == 3 * d as int, d as int >= 0;
                assert((j0 + 1) % 3 == 1 && (j0 + 1) / 3 == d as int) by (nonlinear_arith)
                    requires j0 == 3 * d as int, d as int >= 0;
                assert((j0 + 2) % 3 == 2 && (j0 + 2) / 3 == d as int) by (nonlinear_arith)
                    requires j0 == 3 * d as int, d as int >= 0;
            }
            d = d + 1;
        }
        r.push(Panel::Disks { lines: disk_lines });
    }
    if settings.show_network {
        let mut net_lines: Vec<String> = Vec::new();
        let mut n: usize = 0;
        while n < frame.networks.len()
            invariant
                n <= frame.networks@.len(),
                net_lines@.len() == 2 * n,
                forall|j: int|
                    0 <= j < 2 * n ==> (#[trigger] net_lines@[j])@ == net_line_spec(
                        frame.networks@,
                        j,
                    ),
            decreases frame.networks@.len() - n,
        {
            let nw = &frame.networks[n];
            net_lines.push(nw.interface.clone());
            net_lines.push(net_usage_line(nw.received, nw.transmitted));
            proof {
                let j0 = 2 * n as int;
                assert(j0 % 2 == 0 && j0 / 2 == n as int) by (nonlinear_arith)
                    requires j0 == 2 * n as int, n as int >= 0;
                assert((j0 + 1) % 2 == 1 && (j0 + 1) / 2 == n as int) by (nonlinear_arith)
                    requires j0 == 2 * n as int, n as int >= 0;
            }
            n = n + 1;
        }
        r.push(Panel::Network { lines: net_lines });
    }
    let mut proc_lines: Vec<String> = Vec::new();
    let mut p: usize = 0;
    while p < frame.processes.len()
        invariant
            p <= frame.processes@.len(),
            proc_lines@.len() == p,
            forall|k: int|
                0 <= k < p ==> (#[trigger] proc_lines@[k])@ == process_line_spec(
                    frame.processes@[k].pid as nat,
                    frame.processes@[k].name@,
                    frame.processes@[k].cpu_usage,
                    frame.processes@[k].memory as int,
                ),
        decreases frame.processes@.len() - p,
    {
        let pr = &frame.processes[p];
        proc_lines.push(process_line(pr.pid, pr.name.as_str(), &pr.cpu_usage, pr.memory));
        p = p + 1;
    }
    r.push(Panel::Processes { lines: proc_lines });
    r
}

} // verus!
