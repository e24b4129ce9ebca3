use hostmon::counters::{CpuCounter, NetCounter, NetSpeed};
use hostmon::kb_to_kib;
use hostmon::netfs::{aggregate_net, is_allowed_fs, is_ignored_iface, net_sample_cycle,
    DiskSample, IfaceSample};
use hostmon::snapshot::{collect_sys_info, sample, OneShotFacts, OsIdentity, TrafficSource};
use hostmon::strutil::{str_contains, str_contains_ci};

fn iface(name: &str, rx: u64, tx: u64) -> IfaceSample {
    IfaceSample { name: String::from(name), rx, tx }
}

fn disk(fs: &str, total: u64, avail: u64) -> DiskSample {
    DiskSample { fs: String::from(fs), total, avail }
}

fn facts() -> OneShotFacts {
    OneShotFacts {
        uptime: 3600,
        load_1: 150,
        load_5: 100,
        load_15: 50,
        memory_total_kb: 1_000_000,
        memory_used_kb: 500_000,
        swap_total_kb: 2048,
        swap_free_kb: 1024,
        disks: vec![
            disk("tmpfs", 8 * 1024 * 1024 * 1024, 8 * 1024 * 1024 * 1024),
            disk("ext4", 10 * 1024 * 1024 * 1024, 4 * 1024 * 1024 * 1024),
        ],
    }
}

#[test]
fn counter_publishes_whole_value() {
    let mut c = NetCounter::new();
    assert_eq!(c.read().net_rx, 0);
    assert_eq!(c.read().net_tx, 0);
    c.cycle(Some(NetSpeed { net_rx: 5, net_tx: 7 }));
    let v = c.read();
    assert_eq!((v.net_rx, v.net_tx), (5, 7));
    c.cycle(Some(NetSpeed { net_rx: 9, net_tx: 11 }));
    let v = c.read();
    // Both fields come from the same cycle, never one of each.
    assert_eq!((v.net_rx, v.net_tx), (9, 11));
}

#[test]
fn counter_keeps_stale_value_on_failed_cycle() {
    let mut c = NetCounter::new();
    c.cycle(Some(NetSpeed { net_rx: 5, net_tx: 7 }));
    c.cycle(None);
    let v = c.read();
    assert_eq!((v.net_rx, v.net_tx), (5, 7));

    let mut cpu = CpuCounter::new();
    cpu.cycle(Some(42));
    cpu.cycle(None);
    assert_eq!(cpu.read(), 42);
    cpu.cycle(Some(17));
    assert_eq!(cpu.read(), 17);
}

#[test]
fn net_cycle_aggregates_scan() {
    let mut c = NetCounter::new();
    net_sample_cycle(&mut c, Some(vec![iface("eth0", 100, 200), iface("docker0", 5, 5)]));
    let v = c.read();
    assert_eq!((v.net_rx, v.net_tx), (100, 200));
    net_sample_cycle(&mut c, None);
    let v = c.read();
    assert_eq!((v.net_rx, v.net_tx), (100, 200));
}

#[test]
fn memory_unit_conversion() {
    // The exact 1000/1024 factor: 1000 base-1000 KB are 976 KiB.
    assert_eq!(kb_to_kib(1000), 976);
    assert_eq!(kb_to_kib(0), 0);
    assert_eq!(kb_to_kib(1024), 1000);
    assert_eq!(kb_to_kib(1_000_000), 976_562);
    let f = facts();
    let s = sample(
        &String::from("web1"),
        &String::from("1.0.0"),
        &f,
        &TrafficSource::Live { ifaces: vec![] },
        &CpuCounter::new(),
        &NetCounter::new(),
    );
    assert_eq!(s.memory_total, 976_562);
    assert_eq!(s.memory_used, 488_281);
    assert_eq!(s.swap_total, 2000);
    assert_eq!(s.swap_used, 1000);
}

#[test]
fn interface_filtering() {
    let scan = vec![
        iface("docker0", 100, 200),
        iface("veth1234", 10, 20),
        iface("eth0", 1000, 2000),
    ];
    // Virtual interfaces contribute zero bytes; eth0 contributes fully.
    assert_eq!(aggregate_net(&scan), (1000, 2000));
    assert!(is_ignored_iface("docker0"));
    assert!(is_ignored_iface("veth1234"));
    assert!(is_ignored_iface("lo"));
    assert!(is_ignored_iface("kube-bridge"));
    assert!(!is_ignored_iface("eth0"));
    assert!(!is_ignored_iface("enp3s0"));
}

#[test]
fn filesystem_filtering() {
    assert!(is_allowed_fs("ext4"));
    assert!(is_allowed_fs("EXT4"));
    assert!(is_allowed_fs("fuse.rclone"));
    assert!(!is_allowed_fs("tmpfs"));
    assert!(!is_allowed_fs("proc"));
    let f = facts();
    let s = sample(
        &String::from("web1"),
        &String::from("1.0.0"),
        &f,
        &TrafficSource::Live { ifaces: vec![] },
        &CpuCounter::new(),
        &NetCounter::new(),
    );
    // Only the ext4 disk counts: 10 GiB total, 6 GiB used, in MiB.
    assert_eq!(s.hdd_total, 10 * 1024);
    assert_eq!(s.hdd_used, 6 * 1024);
}

#[test]
fn accounted_traffic_totals_and_delta() {
    let f = facts();
    let s = sample(
        &String::from("web1"),
        &String::from("1.0.0"),
        &f,
        &TrafficSource::Accounted {
            total_in: 5000,
            total_out: 7000,
            prior_in: 1200,
            prior_out: 1500,
        },
        &CpuCounter::new(),
        &NetCounter::new(),
    );
    assert!(s.vnstat);
    assert_eq!(s.network_in, 5000);
    assert_eq!(s.network_out, 7000);
    assert_eq!(s.last_network_in, 3800);
    assert_eq!(s.last_network_out, 5500);
}

#[test]
fn live_traffic_rescan() {
    let f = facts();
    let s = sample(
        &String::from("web1"),
        &String::from("1.0.0"),
        &f,
        &TrafficSource::Live {
            ifaces: vec![iface("eth0", 111, 222), iface("vmbr0", 9, 9)],
        },
        &CpuCounter::new(),
        &NetCounter::new(),
    );
    assert!(!s.vnstat);
    assert_eq!(s.network_in, 111);
    assert_eq!(s.network_out, 222);
    assert_eq!(s.last_network_in, 0);
    assert_eq!(s.last_network_out, 0);
}

#[test]
fn snapshot_merges_latest_counters() {
    let f = facts();
    let mut cpu = CpuCounter::new();
    cpu.cycle(Some(37));
    let mut net = NetCounter::new();
    net.cycle(Some(NetSpeed { net_rx: 123, net_tx: 456 }));
    let s = sample(
        &String::from("web1"),
        &String::from("0.2.1"),
        &f,
        &TrafficSource::Live { ifaces: vec![] },
        &cpu,
        &net,
    );
    assert_eq!(s.name, "web1");
    assert_eq!(s.version, "0.2.1");
    assert_eq!(s.cpu, 37);
    assert_eq!(s.network_rx, 123);
    assert_eq!(s.network_tx, 456);
    assert_eq!(s.uptime, 3600);
    assert_eq!((s.load_1, s.load_5, s.load_15), (150, 100, 50));
}

#[test]
fn substring_search() {
    assert!(str_contains("docker0", "docker"));
    assert!(str_contains("br-1a2b", "br-"));
    assert!(!str_contains("eth0", "docker"));
    assert!(!str_contains("e", "eth"));
    assert!(str_contains("abc", ""));
    assert!(str_contains_ci("FUSEBLK", "fuseblk"));
    assert!(str_contains_ci("NTFS3", "ntfs"));
    assert!(!str_contains_ci("overlay", "ext4"));
}

#[test]
fn sys_info_assembly() {
    let os = OsIdentity {
        os_name: String::from("linux"),
        os_arch: String::from("x86_64"),
        os_family: String::from("unix"),
        os_release: String::from("Debian 12"),
        kernel_version: String::from("6.1.0"),
        cpu_num: 8,
        cpu_brand: String::from("Example CPU"),
        cpu_vender_id: String::from("GenuineExample"),
        host_name: String::from("web1"),
    };
    let info = collect_sys_info(&String::from("web1"), &String::from("0.1.0"), &os);
    assert_eq!(info.name, "web1");
    assert_eq!(info.version, "0.1.0");
    assert_eq!(info.cpu_num, 8);
    assert_eq!(info.kernel_version, "6.1.0");
    assert_eq!(info.os_family, "unix");
}
