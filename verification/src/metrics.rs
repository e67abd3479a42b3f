//! The metrics derived from two consecutive samples.

use vstd::prelude::*;
use crate::delta::Delta;
use crate::sample::{BlkioEntry, BlkioOp, Interface, RawSample};
use crate::totals::weighted_sum;

verus! {

/// The ingredients of the CPU percentage, all exact. The percentage itself is
/// `cpu_delta / sys_delta * cpu_count * 100`, formed in floating point by
/// whoever displays it; with a `sys_delta` of zero it is not a finite number.
#[derive(Clone, Copy, Debug, PartialEq, Eq)]
pub struct CpuShare {
    /// CPU time the container used between the two samples.
    pub cpu_delta: Delta,
    /// CPU time the host used between the two samples.
    pub sys_delta: Delta,
    /// The number of CPUs in the current sample.
    pub cpu_count: usize,
}

/// What one pair of consecutive samples yields.
#[derive(Clone, Copy, Debug, PartialEq, Eq)]
pub struct DerivedMetrics {
    pub cpu: CpuShare,
    /// Memory in use without the inactive page cache, in bytes. One MiB is
    /// `BYTES_PER_MIB` of them.
    pub mem_bytes: u64,
    pub rx_bytes: Delta,
    pub tx_bytes: Delta,
    pub read_bytes: Delta,
    pub write_bytes: Delta,
}

/// The number of bytes in one MiB.
pub const BYTES_PER_MIB: u64 = 1048576;

/// What an interface adds to the received total.
pub open spec fn rx_weight() -> spec_fn(Interface) -> nat {
    |i: Interface| i.rx_bytes as nat
}

/// What an interface adds to the sent total.
pub open spec fn tx_weight() -> spec_fn(Interface) -> nat {
    |i: Interface| i.tx_bytes as nat
}

/// What a block I/O counter adds to the read total: its value if it counts
/// reads, nothing otherwise.
pub open spec fn read_weight() -> spec_fn(BlkioEntry) -> nat {
    |e: BlkioEntry| if e.op is Read { e.value as nat } else { 0 }
}

/// What a block I/O counter adds to the write total.
pub open spec fn write_weight() -> spec_fn(BlkioEntry) -> nat {
    |e: BlkioEntry| if e.op is Write { e.value as nat } else { 0 }
}

/// Bytes received over all interfaces.
pub open spec fn rx_total(networks: Seq<Interface>) -> nat {
    weighted_sum(networks, rx_weight())
}

/// Bytes sent over all interfaces.
pub open spec fn tx_total(networks: Seq<Interface>) -> nat {
    weighted_sum(networks, tx_weight())
}

/// Bytes read over all devices.
pub open spec fn read_total(entries: Seq<BlkioEntry>) -> nat {
    weighted_sum(entries, read_weight())
}

/// Bytes written over all devices.
pub open spec fn write_total(entries: Seq<BlkioEntry>) -> nat {
    weighted_sum(entries, write_weight())
}

/// The CPU figures of a pair of samples.
pub open spec fn cpu_share_of(cur: RawSample, prev: RawSample) -> CpuShare {
    CpuShare {
        cpu_delta: Delta::of(cur.cpu_total_usage - prev.cpu_total_usage),
        sys_delta: Delta::of(cur.cpu_system_usage - prev.cpu_system_usage),
        cpu_count: cur.cpu_count,
    }
}

/// Memory in use without the inactive page cache. Where the cache figure is
/// not below the usage, the usage stands as it is.
pub open spec fn mem_bytes_of(cur: RawSample) -> u64 {
    if cur.mem_inactive_file < cur.mem_usage {
        (cur.mem_usage - cur.mem_inactive_file) as u64
    } else {
        cur.mem_usage
    }
}

/// Received and sent bytes between two lists of interfaces.
pub open spec fn net_delta_of(cur: Seq<Interface>, prev: Seq<Interface>) -> (Delta, Delta) {
    (Delta::of(rx_total(cur) - rx_total(prev)), Delta::of(tx_total(cur) - tx_total(prev)))
}

/// Read and written bytes between two lists of block I/O counters.
pub open spec fn disk_delta_of(cur: Seq<BlkioEntry>, prev: Seq<BlkioEntry>) -> (Delta, Delta) {
    (Delta::of(read_total(cur) - read_total(prev)), Delta::of(write_total(cur) - write_total(prev)))
}

/// Everything that the pair `(cur, prev)` yields.
pub open spec fn metrics_of(cur: RawSample, prev: RawSample) -> DerivedMetrics {
    DerivedMetrics {
        cpu: cpu_share_of(cur, prev),
        mem_bytes: mem_bytes_of(cur),
        rx_bytes: net_delta_of(cur.networks@, prev.networks@).0,
        tx_bytes: net_delta_of(cur.networks@, prev.networks@).1,
        read_bytes: disk_delta_of(cur.blkio_entries@, prev.blkio_entries@).0,
        write_bytes: disk_delta_of(cur.blkio_entries@, prev.blkio_entries@).1,
    }
}

/// The CPU time that the container and the host used between `prev_stat`
/// and `stat`, with the CPU count of `stat`.
pub fn calc_cpu(stat: &RawSample, prev_stat: &RawSample) -> (share: CpuShare)
    ensures
        share == cpu_share_of(*stat, *prev_stat),
        share.cpu_delta@ == stat.cpu_total_usage - prev_stat.cpu_total_usage,
        share.sys_delta@ == stat.cpu_system_usage - prev_stat.cpu_system_usage,
{
    CpuShare {
        cpu_delta: Delta::between(stat.cpu_total_usage as u128, prev_stat.cpu_total_usage as u128),
        sys_delta: Delta::between(
            stat.cpu_system_usage as u128,
            prev_stat.cpu_system_usage as u128,
        ),
        cpu_count: stat.cpu_count,
    }
}

/// Memory in use without the inactive page cache, in bytes.
pub fn calc_mem(stat: &RawSample) -> (bytes: u64)
    ensures
        bytes == mem_bytes_of(*stat),
        bytes <= stat.mem_usage,
{
    let v = stat.mem_inactive_file;
    let mu = stat.mem_usage;
    if v < mu {
        mu - v
    } else {
        mu
    }
}

/// Bytes received and sent over all interfaces of one sample.
pub fn calc_cumulative_net(stat: &RawSample) -> (totals: (u128, u128))
    ensures
        totals.0 == rx_total(stat.networks@),
        totals.1 == tx_total(stat.networks@),
{
    let mut total_rx: u128 = 0;
    let mut total_tx: u128 = 0;
    let n = stat.networks.len();
    let mut i: usize = 0;
    while i < n
        invariant
            n == stat.networks@.len(),
            i <= n,
            total_rx == rx_total(stat.networks@.take(i as int)),
            total_tx == tx_total(stat.networks@.take(i as int)),
            total_rx <= i * u64::MAX,
            total_tx <= i * u64::MAX,
        decreases n - i,
    {
        let net = &stat.networks[i];
        proof {
            let upto = stat.networks@.take(i + 1);
            assert(upto.drop_last() =~= stat.networks@.take(i as int));
            assert(upto.last() == *net);
        }
        total_rx = total_rx + net.rx_bytes as u128;
        total_tx = total_tx + net.tx_bytes as u128;
        i = i + 1;
    }
    proof {
        assert(stat.networks@.take(n as int) =~= stat.networks@);
    }
    (total_rx, total_tx)
}

/// Bytes received and sent between `prev_stat` and `stat`.
pub fn calc_net(stat: &RawSample, prev_stat: &RawSample) -> (deltas: (Delta, Delta))
    ensures
        deltas == net_delta_of(stat.networks@, prev_stat.networks@),
        deltas.0@ == rx_total(stat.networks@) - rx_total(prev_stat.networks@),
        deltas.1@ == tx_total(stat.networks@) - tx_total(prev_stat.networks@),
{
    let (curr_rx, curr_tx) = calc_cumulative_net(stat);
    let (prev_rx, prev_tx) = calc_cumulative_net(prev_stat);
    (Delta::between(curr_rx, prev_rx), Delta::between(curr_tx, prev_tx))
}

/// Bytes read and written over all block I/O counters of one sample.
/// Counters of the same operation add up; counters of other operations are
/// passed over.
pub fn calc_cumulative_disk(stat: &RawSample) -> (totals: (u128, u128))
    ensures
        totals.0 == read_total(stat.blkio_entries@),
        totals.1 == write_total(stat.blkio_entries@),
{
    let mut read_bytes: u128 = 0;
    let mut write_bytes: u128 = 0;
    let n = stat.blkio_entries.len();
    let mut i: usize = 0;
    while i < n
        invariant
            n == stat.blkio_entries@.len(),
            i <= n,
            read_bytes == read_total(stat.blkio_entries@.take(i as int)),
            write_bytes == write_total(stat.blkio_entries@.take(i as int)),
            read_bytes <= i * u64::MAX,
            write_bytes <= i * u64::MAX,
        decreases n - i,
    {
        let iostat = &stat.blkio_entries[i];
        proof {
            let upto = stat.blkio_entries@.take(i + 1);
            assert(upto.drop_last() =~= stat.blkio_entries@.take(i as int));
            assert(upto.last() == *iostat);
        }
        match iostat.op {
            BlkioOp::Read => {
                read_bytes = read_bytes + iostat.value as u128;
            },
            BlkioOp::Write => {
                write_bytes = write_bytes + iostat.value as u128;
            },
            BlkioOp::Other => {},
        }
        i = i + 1;
    }
    proof {
        assert(stat.blkio_entries@.take(n as int) =~= stat.blkio_entries@);
    }
    (read_bytes, write_bytes)
}

/// Bytes read and written between `prev_stat` and `stat`.
pub fn calc_disk(stat: &RawSample, prev_stat: &RawSample) -> (deltas: (Delta, Delta))
    ensures
        deltas == disk_delta_of(stat.blkio_entries@, prev_stat.blkio_entries@),
        deltas.0@ == read_total(stat.blkio_entries@) - read_total(prev_stat.blkio_entries@),
        deltas.1@ == write_total(stat.blkio_entries@) - write_total(prev_stat.blkio_entries@),
{
    let (curr_read_bytes, curr_write_bytes) = calc_cumulative_disk(stat);
    let (prev_read_bytes, prev_write_bytes) = calc_cumulative_disk(prev_stat);
    (
        Delta::between(curr_read_bytes, prev_read_bytes),
        Delta::between(curr_write_bytes, prev_write_bytes),
    )
}

/// The metrics of the pair `(stat, prev_stat)`. Defined for every pair of
/// samples: a counter that went backwards shows as a negative difference.
pub fn handle_stat(stat: &RawSample, prev_stat: &RawSample) -> (metrics: DerivedMetrics)
    ensures
        metrics == metrics_of(*stat, *prev_stat),
        metrics.cpu.cpu_delta@ == stat.cpu_total_usage - prev_stat.cpu_total_usage,
        metrics.cpu.sys_delta@ == stat.cpu_system_usage - prev_stat.cpu_system_usage,
        metrics.rx_bytes@ == rx_total(stat.networks@) - rx_total(prev_stat.networks@),
        metrics.tx_bytes@ == tx_total(stat.networks@) - tx_total(prev_stat.networks@),
        metrics.read_bytes@ == read_total(stat.blkio_entries@) - read_total(
            prev_stat.blkio_entries@,
        ),
        metrics.write_bytes@ == write_total(stat.blkio_entries@) - write_total(
            prev_stat.blkio_entries@,
        ),
{
    let cpu = calc_cpu(stat, prev_stat);
    let mem = calc_mem(stat);
    let (rx, tx) = calc_net(stat, prev_stat);
    let (r, w) = calc_disk(stat, prev_stat);
    DerivedMetrics {
        cpu,
        mem_bytes: mem,
        rx_bytes: rx,
        tx_bytes: tx,
        read_bytes: r,
        write_bytes: w,
    }
}

} // verus!
