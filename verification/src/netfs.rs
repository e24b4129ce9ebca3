use vstd::prelude::*;
use crate::strutil::{contains_sub, ci_contains_sub, str_contains, str_contains_ci};
use crate::counters::{NetSpeed, NetCounter};

verus! {

/// One interface's cumulative byte counters, as read from the OS.
pub struct IfaceSample {
    pub name: String,
    pub rx: u64,
    pub tx: u64,
}

/// One mounted disk's filesystem name and space counters, in bytes.
pub struct DiskSample {
    pub fs: String,
    pub total: u64,
    pub avail: u64,
}

/// Loopback and container/bridge/tunnel virtual interfaces carry traffic
/// that is not the host's own; any name containing one of these fragments
/// is left out of every aggregate.
pub open spec fn iface_ignored(name: Seq<char>) -> bool {
    ||| contains_sub(name, "lo"@)
    ||| contains_sub(name, "docker"@)
    ||| contains_sub(name, "vnet"@)
    ||| contains_sub(name, "veth"@)
    ||| contains_sub(name, "vmbr"@)
    ||| contains_sub(name, "kube"@)
    ||| contains_sub(name, "br-"@)
}

/// Whether an interface is on the ignore list of virtual interfaces.
pub fn is_ignored_iface(name: &str) -> (r: bool)
    ensures
        r == iface_ignored(name@),
{
    str_contains(name, "lo") || str_contains(name, "docker") || str_contains(name, "vnet")
        || str_contains(name, "veth") || str_contains(name, "vmbr") || str_contains(name, "kube")
        || str_contains(name, "br-")
}

/// Recognized real filesystem types; a disk whose reported type contains
/// none of these (pseudo filesystems such as tmpfs) is excluded from the
/// disk totals. The comparison ignores ASCII case.
pub open spec fn fs_allowed(fs: Seq<char>) -> bool {
    ||| ci_contains_sub(fs, "apfs"@)
    ||| ci_contains_sub(fs, "ext4"@)
    ||| ci_contains_sub(fs, "ext3"@)
    ||| ci_contains_sub(fs, "ext2"@)
    ||| ci_contains_sub(fs, "f2fs"@)
    ||| ci_contains_sub(fs, "reiserfs"@)
    ||| ci_contains_sub(fs, "jfs"@)
    ||| ci_contains_sub(fs, "btrfs"@)
    ||| ci_contains_sub(fs, "fuseblk"@)
    ||| ci_contains_sub(fs, "zfs"@)
    ||| ci_contains_sub(fs, "simfs"@)
    ||| ci_contains_sub(fs, "ntfs"@)
    ||| ci_contains_sub(fs, "fat32"@)
    ||| ci_contains_sub(fs, "exfat"@)
    ||| ci_contains_sub(fs, "xfs"@)
    ||| ci_contains_sub(fs, "fuse.rclone"@)
}

/// Whether a disk's filesystem type is on the allow-list of real
/// filesystems.
pub fn is_allowed_fs(fs: &str) -> (r: bool)
    ensures
        r == fs_allowed(fs@),
{
    str_contains_ci(fs, "apfs") || str_contains_ci(fs, "ext4") || str_contains_ci(fs, "ext3")
        || str_contains_ci(fs, "ext2") || str_contains_ci(fs, "f2fs")
        || str_contains_ci(fs, "reiserfs") || str_contains_ci(fs, "jfs")
        || str_contains_ci(fs, "btrfs") || str_contains_ci(fs, "fuseblk")
        || str_contains_ci(fs, "zfs") || str_contains_ci(fs, "simfs")
        || str_contains_ci(fs, "ntfs") || str_contains_ci(fs, "fat32")
        || str_contains_ci(fs, "exfat") || str_contains_ci(fs, "xfs")
        || str_contains_ci(fs, "fuse.rclone")
}

/// Sum of a measure over a sequence.
pub open spec fn sum_by<T>(s: Seq<T>, f: spec_fn(T) -> int) -> int
    decreases s.len(),
{
    if s.len() == 0 {
        0
    } else {
        sum_by(s.drop_last(), f) + f(s.last())
    }
}

/// A prefix sum of a non-negative measure never exceeds the whole sum.
pub proof fn lemma_sum_by_take_le<T>(s: Seq<T>, f: spec_fn(T) -> int, i: int)
    requires
        0 <= i <= s.len(),
        forall|k: int| 0 <= k < s.len() ==> f(s[k]) >= 0,
    ensures
        sum_by(s.take(i), f) <= sum_by(s, f),
    decreases s.len(),
{
    if i == s.len() {
        assert(s.take(i) =~= s);
    } else {
        lemma_sum_by_take_le(s.drop_last(), f, i);
        assert(s.drop_last().take(i) =~= s.take(i));
    }
}

/// The received-bytes measure of one interface: its counter, or zero for
/// an ignored interface.
pub open spec fn rx_f() -> spec_fn(IfaceSample) -> int {
    |t: IfaceSample| if iface_ignored(t.name@) { 0 } else { t.rx as int }
}

/// The transmitted-bytes measure of one interface.
pub open spec fn tx_f() -> spec_fn(IfaceSample) -> int {
    |t: IfaceSample| if iface_ignored(t.name@) { 0 } else { t.tx as int }
}

/// Total bytes received over all non-ignored interfaces.
pub open spec fn net_rx_total(s: Seq<IfaceSample>) -> int {
    sum_by(s, rx_f())
}

/// Total bytes transmitted over all non-ignored interfaces.
pub open spec fn net_tx_total(s: Seq<IfaceSample>) -> int {
    sum_by(s, tx_f())
}

/// Aggregate the byte counters of a whole interface scan, leaving out
/// every interface on the ignore list.
pub fn aggregate_net(ifaces: &Vec<IfaceSample>) -> (r: (u64, u64))
    requires
        net_rx_total(ifaces@) <= u64::MAX,
        net_tx_total(ifaces@) <= u64::MAX,
    ensures
        r.0 == net_rx_total(ifaces@),
        r.1 == net_tx_total(ifaces@),
{
    let mut rx: u64 = 0;
    let mut tx: u64 = 0;
    let mut i: usize = 0;
    while i < ifaces.len()
        invariant
            i <= ifaces@.len(),
            net_rx_total(ifaces@) <= u64::MAX,
            net_tx_total(ifaces@) <= u64::MAX,
            rx == sum_by(ifaces@.take(i as int), rx_f()),
            tx == sum_by(ifaces@.take(i as int), tx_f()),
        decreases ifaces@.len() - i,
    {
        proof {
            assert(ifaces@.take(i + 1).drop_last() =~= ifaces@.take(i as int));
            assert(ifaces@.take(i + 1).last() == ifaces@[i as int]);
            lemma_sum_by_take_le(ifaces@, rx_f(), i + 1);
            lemma_sum_by_take_le(ifaces@, tx_f(), i + 1);
        }
        let entry = &ifaces[i];
        if !is_ignored_iface(entry.name.as_str()) {
            rx = rx + entry.rx;
            tx = tx + entry.tx;
        }
        i += 1;
    }
    proof {
        assert(ifaces@.take(ifaces@.len() as int) =~= ifaces@);
    }
    (rx, tx)
}

/// One network sampler refresh cycle: aggregate a fresh interface scan
/// and publish the pair whole, or keep the previous published pair when
/// this cycle's scan failed.
pub fn net_sample_cycle(counter: &mut NetCounter, scan: Option<Vec<IfaceSample>>)
    requires
        scan matches Some(s) ==> net_rx_total(s@) <= u64::MAX && net_tx_total(s@) <= u64::MAX,
    ensures
        match scan {
            Some(s) => final(counter).value == (NetSpeed {
                net_rx: net_rx_total(s@) as u64,
                net_tx: net_tx_total(s@) as u64,
            }),
            None => final(counter).value == old(counter).value,
        },
{
    match scan {
        Some(s) => {
            let (rx, tx) = aggregate_net(&s);
            counter.cycle(Some(NetSpeed { net_rx: rx, net_tx: tx }));
        }
        None => {
            counter.cycle(None);
        }
    }
}

} // verus!
