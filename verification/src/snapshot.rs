use vstd::prelude::*;
use crate::counters::{CpuCounter, NetCounter, NetSpeed, after_cycles, lemma_counter_holds_single_cycle};
use crate::netfs::{DiskSample, IfaceSample, fs_allowed, is_allowed_fs, net_rx_total,
    net_tx_total, aggregate_net, sum_by, lemma_sum_by_take_le};
use crate::kb_to_kib;

verus! {

/// An immutable point-in-time bundle of host metrics. Load averages and
/// CPU utilisation are carried as plain integers: load in hundredths,
/// CPU in whole percent.
pub struct Snapshot {
    pub name: String,
    pub version: String,
    pub vnstat: bool,
    pub uptime: u64,
    pub load_1: u64,
    pub load_5: u64,
    pub load_15: u64,
    pub memory_total: u64,
    pub memory_used: u64,
    pub swap_total: u64,
    pub swap_used: u64,
    pub hdd_total: u64,
    pub hdd_used: u64,
    pub network_in: u64,
    pub network_out: u64,
    pub last_network_in: u64,
    pub last_network_out: u64,
    pub network_rx: u64,
    pub network_tx: u64,
    pub cpu: u64,
}

/// The total-space measure of one disk: its byte count, or zero for a
/// disk whose filesystem type is not recognized as real.
pub open spec fn disk_total_f() -> spec_fn(DiskSample) -> int {
    |d: DiskSample| if fs_allowed(d.fs@) { d.total as int } else { 0 }
}

/// The available-space measure of one disk.
pub open spec fn disk_avail_f() -> spec_fn(DiskSample) -> int {
    |d: DiskSample| if fs_allowed(d.fs@) { d.avail as int } else { 0 }
}

/// Total bytes of all recognized real disks.
pub open spec fn disk_total_sum(s: Seq<DiskSample>) -> int {
    sum_by(s, disk_total_f())
}

/// Available bytes of all recognized real disks.
pub open spec fn disk_avail_sum(s: Seq<DiskSample>) -> int {
    sum_by(s, disk_avail_f())
}

/// The one-shot facts read from the OS for a single snapshot. Memory and
/// swap are in base-1000 kilobytes as the OS reports them; disks are in
/// bytes.
pub struct OneShotFacts {
    pub uptime: u64,
    pub load_1: u64,
    pub load_5: u64,
    pub load_15: u64,
    pub memory_total_kb: u64,
    pub memory_used_kb: u64,
    pub swap_total_kb: u64,
    pub swap_free_kb: u64,
    pub disks: Vec<DiskSample>,
}

impl OneShotFacts {
    /// What any honest OS read satisfies: free swap within total swap,
    /// per-disk available space within total space, and a machine limit
    /// on the summed disk bytes.
    pub open spec fn wf(&self) -> bool {
        &&& self.swap_free_kb <= self.swap_total_kb
        &&& forall|k: int| 0 <= k < self.disks@.len() ==> self.disks@[k].avail <= self.disks@[k].total
        &&& disk_total_sum(self.disks@) <= u64::MAX
    }
}

/// Where a snapshot's cumulative network totals come from: the external
/// traffic-accounting collaborator, or a live rescan of the interfaces.
/// The two sources are mutually exclusive by construction.
pub enum TrafficSource {
    Accounted { total_in: u64, total_out: u64, prior_in: u64, prior_out: u64 },
    Live { ifaces: Vec<IfaceSample> },
}

impl TrafficSource {
    /// Accounting totals never lie below the prior period's totals, and a
    /// live scan's sums fit the counter width.
    pub open spec fn wf(&self) -> bool {
        match *self {
            TrafficSource::Accounted { total_in, total_out, prior_in, prior_out } => {
                prior_in <= total_in && prior_out <= total_out
            }
            TrafficSource::Live { ifaces } => {
                net_rx_total(ifaces@) <= u64::MAX && net_tx_total(ifaces@) <= u64::MAX
            }
        }
    }
}

/// Assemble an immutable snapshot: convert the one-shot facts, filter the
/// disks to recognized real filesystems, choose the configured traffic
/// source, and merge in the latest fully published sampler values.
pub fn sample(
    name: &String,
    version: &String,
    facts: &OneShotFacts,
    traffic: &TrafficSource,
    cpu: &CpuCounter,
    net: &NetCounter,
) -> (s: Snapshot)
    requires
        facts.wf(),
        traffic.wf(),
    ensures
        s.name@ == name@,
        s.version@ == version@,
        s.vnstat == (traffic matches TrafficSource::Accounted { .. }),
        s.uptime == facts.uptime,
        s.load_1 == facts.load_1,
        s.load_5 == facts.load_5,
        s.load_15 == facts.load_15,
        s.memory_total == facts.memory_total_kb as int * 1000 / 1024,
        s.memory_used == facts.memory_used_kb as int * 1000 / 1024,
        s.swap_total == facts.swap_total_kb as int * 1000 / 1024,
        s.swap_used == facts.swap_total_kb as int * 1000 / 1024 - facts.swap_free_kb as int * 1000
            / 1024,
        s.hdd_total == disk_total_sum(facts.disks@) / 1024 / 1024,
        s.hdd_used == (disk_total_sum(facts.disks@) - disk_avail_sum(facts.disks@)) / 1024 / 1024,
        match *traffic {
            TrafficSource::Accounted { total_in, total_out, prior_in, prior_out } => {
                &&& s.network_in == total_in
                &&& s.network_out == total_out
                &&& s.last_network_in == total_in - prior_in
                &&& s.last_network_out == total_out - prior_out
            }
            TrafficSource::Live { ifaces } => {
                &&& s.network_in == net_rx_total(ifaces@)
                &&& s.network_out == net_tx_total(ifaces@)
                &&& s.last_network_in == 0
                &&& s.last_network_out == 0
            }
        },
        s.cpu == cpu.value,
        s.network_rx == net.value.net_rx,
        s.network_tx == net.value.net_tx,
{
    let memory_total = kb_to_kib(facts.memory_total_kb);
    let memory_used = kb_to_kib(facts.memory_used_kb);
    let swap_total = kb_to_kib(facts.swap_total_kb);
    let swap_free = kb_to_kib(facts.swap_free_kb);
    proof {
        assert(facts.swap_free_kb as int * 1000 / 1024 <= facts.swap_total_kb as int * 1000 / 1024)
            by (nonlinear_arith)
            requires facts.swap_free_kb <= facts.swap_total_kb;
    }
    let swap_used = swap_total - swap_free;

    let (hdd_total_bytes, hdd_avail_bytes) = sum_disks(&facts.disks);
    let hdd_total = hdd_total_bytes / 1024 / 1024;
    let hdd_used = (hdd_total_bytes - hdd_avail_bytes) / 1024 / 1024;

    let (network_in, network_out, last_network_in, last_network_out, vnstat) = match traffic {
        TrafficSource::Accounted { total_in, total_out, prior_in, prior_out } => {
            (*total_in, *total_out, *total_in - *prior_in, *total_out - *prior_out, true)
        }
        TrafficSource::Live { ifaces } => {
            let (rx, tx) = aggregate_net(ifaces);
            (rx, tx, 0u64, 0u64, false)
        }
    };

    let speed = net.read();
    Snapshot {
        name: name.clone(),
        version: version.clone(),
        vnstat,
        uptime: facts.uptime,
        load_1: facts.load_1,
        load_5: facts.load_5,
        load_15: facts.load_15,
        memory_total,
        memory_used,
        swap_total,
        swap_used,
        hdd_total,
        hdd_used,
        network_in,
        network_out,
        last_network_in,
        last_network_out,
        network_rx: speed.net_rx,
        network_tx: speed.net_tx,
        cpu: cpu.read(),
    }
}

/// A snapshot taken between refresh cycles reflects, for the throughput
/// pair, entirely one cycle's published value (or the initial value) —
/// never the received bytes of one cycle with the transmitted bytes of
/// another. It follows from the counter being replaced only whole.
pub proof fn lemma_snapshot_counter_unmixed(
    init: NetSpeed,
    readings: Seq<Option<NetSpeed>>,
    s: Snapshot,
)
    requires
        s.network_rx == after_cycles(init, readings).net_rx,
        s.network_tx == after_cycles(init, readings).net_tx,
    ensures
        (s.network_rx == init.net_rx && s.network_tx == init.net_tx) || exists|i: int|
            0 <= i < readings.len() && readings[i] == Some(
                NetSpeed { net_rx: s.network_rx, net_tx: s.network_tx },
            ),
{
    lemma_counter_holds_single_cycle(init, readings);
    let v = after_cycles(init, readings);
    assert(v == (NetSpeed { net_rx: v.net_rx, net_tx: v.net_tx }));
}

/// Sum total and available bytes over the disks whose filesystem type is
/// recognized as real.
fn sum_disks(disks: &Vec<DiskSample>) -> (r: (u64, u64))
    requires
        disk_total_sum(disks@) <= u64::MAX,
        forall|k: int| 0 <= k < disks@.len() ==> disks@[k].avail <= disks@[k].total,
    ensures
        r.0 == disk_total_sum(disks@),
        r.1 == disk_avail_sum(disks@),
        r.1 <= r.0,
{
    let mut total: u64 = 0;
    let mut avail: u64 = 0;
    let mut i: usize = 0;
    while i < disks.len()
        invariant
            i <= disks@.len(),
            disk_total_sum(disks@) <= u64::MAX,
            forall|k: int| 0 <= k < disks@.len() ==> disks@[k].avail <= disks@[k].total,
            total == sum_by(disks@.take(i as int), disk_total_f()),
            avail == sum_by(disks@.take(i as int), disk_avail_f()),
            avail <= total,
        decreases disks@.len() - i,
    {
        proof {
            assert(disks@.take(i + 1).drop_last() =~= disks@.take(i as int));
            assert(disks@.take(i + 1).last() == disks@[i as int]);
            lemma_sum_by_take_le(disks@, disk_total_f(), i + 1);
        }
        let entry = &disks[i];
        if is_allowed_fs(entry.fs.as_str()) {
            total = total + entry.total;
            avail = avail + entry.avail;
        }
        i += 1;
    }
    proof {
        assert(disks@.take(disks@.len() as int) =~= disks@);
    }
    (total, avail)
}

} // verus!

verus! {

/// The host's static identity, as the OS reports it: release names,
/// kernel, and CPU model facts.
pub struct OsIdentity {
    pub os_name: String,
    pub os_arch: String,
    pub os_family: String,
    pub os_release: String,
    pub kernel_version: String,
    pub cpu_num: u32,
    pub cpu_brand: String,
    pub cpu_vender_id: String,
    pub host_name: String,
}

/// The one-shot host description sent once at startup: who this host is
/// and what it runs on.
pub struct SysInfo {
    pub name: String,
    pub version: String,
    pub os_name: String,
    pub os_arch: String,
    pub os_family: String,
    pub os_release: String,
    pub kernel_version: String,
    pub cpu_num: u32,
    pub cpu_brand: String,
    pub cpu_vender_id: String,
    pub host_name: String,
}

/// Assemble the host description from the configured identity and the
/// facts the OS reports.
pub fn collect_sys_info(name: &String, version: &String, os: &OsIdentity) -> (r: SysInfo)
    ensures
        r.name@ == name@,
        r.version@ == version@,
        r.os_name@ == os.os_name@,
        r.os_arch@ == os.os_arch@,
        r.os_family@ == os.os_family@,
        r.os_release@ == os.os_release@,
        r.kernel_version@ == os.kernel_version@,
        r.cpu_num == os.cpu_num,
        r.cpu_brand@ == os.cpu_brand@,
        r.cpu_vender_id@ == os.cpu_vender_id@,
        r.host_name@ == os.host_name@,
{
    SysInfo {
        name: name.clone(),
        version: version.clone(),
        os_name: os.os_name.clone(),
        os_arch: os.os_arch.clone(),
        os_family: os.os_family.clone(),
        os_release: os.os_release.clone(),
        kernel_version: os.kernel_version.clone(),
        cpu_num: os.cpu_num,
        cpu_brand: os.cpu_brand.clone(),
        cpu_vender_id: os.cpu_vender_id.clone(),
        host_name: os.host_name.clone(),
    }
}

} // verus!
