//! What holds of the derived metrics for every pair of samples.

use vstd::prelude::*;
use crate::delta::Delta;
use crate::metrics::{
    disk_delta_of, mem_bytes_of, metrics_of, net_delta_of, read_total, read_weight, rx_total,
    rx_weight, tx_total, tx_weight, write_total, write_weight,
};
use crate::sample::{BlkioEntry, Interface, RawSample};
use crate::totals::{lemma_sum_bound, lemma_sum_concat, lemma_sum_permutation, lemma_sum_remove};

verus! {

/// Each difference in the metrics of a pair has the value that the totals
/// give: current total minus previous total, as an integer, whatever its
/// sign and however many entries the samples hold.
pub proof fn lemma_metrics_values(cur: RawSample, prev: RawSample)
    ensures
        metrics_of(cur, prev).cpu.cpu_delta@ == cur.cpu_total_usage - prev.cpu_total_usage,
        metrics_of(cur, prev).cpu.sys_delta@ == cur.cpu_system_usage - prev.cpu_system_usage,
        metrics_of(cur, prev).rx_bytes@ == rx_total(cur.networks@) - rx_total(prev.networks@),
        metrics_of(cur, prev).tx_bytes@ == tx_total(cur.networks@) - tx_total(prev.networks@),
        metrics_of(cur, prev).read_bytes@ == read_total(cur.blkio_entries@) - read_total(
            prev.blkio_entries@,
        ),
        metrics_of(cur, prev).write_bytes@ == write_total(cur.blkio_entries@) - write_total(
            prev.blkio_entries@,
        ),
        metrics_of(cur, prev).rx_bytes.wf(),
        metrics_of(cur, prev).tx_bytes.wf(),
        metrics_of(cur, prev).read_bytes.wf(),
        metrics_of(cur, prev).write_bytes.wf(),
{
    let bound = u64::MAX as nat;
    assert(cur.networks.len() == cur.networks@.len());
    assert(prev.networks.len() == prev.networks@.len());
    assert(cur.blkio_entries.len() == cur.blkio_entries@.len());
    assert(prev.blkio_entries.len() == prev.blkio_entries@.len());
    lemma_sum_bound(cur.networks@, rx_weight(), bound);
    lemma_sum_bound(prev.networks@, rx_weight(), bound);
    lemma_sum_bound(cur.networks@, tx_weight(), bound);
    lemma_sum_bound(prev.networks@, tx_weight(), bound);
    lemma_sum_bound(cur.blkio_entries@, read_weight(), bound);
    lemma_sum_bound(prev.blkio_entries@, read_weight(), bound);
    lemma_sum_bound(cur.blkio_entries@, write_weight(), bound);
    lemma_sum_bound(prev.blkio_entries@, write_weight(), bound);
    Delta::lemma_of_view(rx_total(cur.networks@) - rx_total(prev.networks@));
    Delta::lemma_of_view(tx_total(cur.networks@) - tx_total(prev.networks@));
    Delta::lemma_of_view(read_total(cur.blkio_entries@) - read_total(prev.blkio_entries@));
    Delta::lemma_of_view(write_total(cur.blkio_entries@) - write_total(prev.blkio_entries@));
}

/// Two samples with the same counters give zero for every difference: no
/// bytes received, sent, read or written, and zero CPU time over zero host
/// time, which is why the CPU percentage of such a pair is not a number.
pub proof fn lemma_identical_counters(cur: RawSample, prev: RawSample)
    requires
        cur.cpu_total_usage == prev.cpu_total_usage,
        cur.cpu_system_usage == prev.cpu_system_usage,
        cur.networks@ == prev.networks@,
        cur.blkio_entries@ == prev.blkio_entries@,
    ensures
        metrics_of(cur, prev).rx_bytes@ == 0,
        metrics_of(cur, prev).tx_bytes@ == 0,
        metrics_of(cur, prev).read_bytes@ == 0,
        metrics_of(cur, prev).write_bytes@ == 0,
        metrics_of(cur, prev).cpu.cpu_delta@ == 0,
        metrics_of(cur, prev).cpu.sys_delta@ == 0,
{
}

/// Where the inactive page cache is below the memory in use, or both are
/// zero, the memory figure is the usage less the cache. (With a cache equal
/// to a usage above zero the figure is the usage itself.)
pub proof fn lemma_mem_without_cache(cur: RawSample)
    requires
        cur.mem_inactive_file <= cur.mem_usage,
        cur.mem_inactive_file == cur.mem_usage ==> cur.mem_usage == 0,
    ensures
        mem_bytes_of(cur) == cur.mem_usage - cur.mem_inactive_file,
        mem_bytes_of(cur) >= 0,
{
}

/// The block I/O totals do not depend on the order of the counters, and so
/// neither do the differences, on whichever side the reordered list stands.
pub proof fn lemma_disk_order_independent(
    a: Seq<BlkioEntry>,
    b: Seq<BlkioEntry>,
    other: Seq<BlkioEntry>,
)
    requires
        a.to_multiset() == b.to_multiset(),
    ensures
        read_total(a) == read_total(b),
        write_total(a) == write_total(b),
        disk_delta_of(a, other) == disk_delta_of(b, other),
        disk_delta_of(other, a) == disk_delta_of(other, b),
{
    lemma_sum_permutation(a, b, read_weight());
    lemma_sum_permutation(a, b, write_weight());
}

/// The network totals do not depend on the order of the interfaces.
pub proof fn lemma_net_order_independent(
    a: Seq<Interface>,
    b: Seq<Interface>,
    other: Seq<Interface>,
)
    requires
        a.to_multiset() == b.to_multiset(),
    ensures
        rx_total(a) == rx_total(b),
        tx_total(a) == tx_total(b),
        net_delta_of(a, other) == net_delta_of(b, other),
        net_delta_of(other, a) == net_delta_of(other, b),
{
    lemma_sum_permutation(a, b, rx_weight());
    lemma_sum_permutation(a, b, tx_weight());
}

/// Interfaces that only one of the two samples has count on that side alone:
/// those that only the current sample has add their counters in full to the
/// differences, those that only the previous sample has take theirs away, and
/// nothing is asked of the side that lacks them.
pub proof fn lemma_net_one_sided(
    shared_cur: Seq<Interface>,
    only_cur: Seq<Interface>,
    shared_prev: Seq<Interface>,
    only_prev: Seq<Interface>,
)
    ensures
        rx_total(shared_cur + only_cur) - rx_total(shared_prev + only_prev) == (rx_total(
            shared_cur,
        ) - rx_total(shared_prev)) + rx_total(only_cur) - rx_total(only_prev),
        tx_total(shared_cur + only_cur) - tx_total(shared_prev + only_prev) == (tx_total(
            shared_cur,
        ) - tx_total(shared_prev)) + tx_total(only_cur) - tx_total(only_prev),
{
    lemma_sum_concat(shared_cur, only_cur, rx_weight());
    lemma_sum_concat(shared_cur, only_cur, tx_weight());
    lemma_sum_concat(shared_prev, only_prev, rx_weight());
    lemma_sum_concat(shared_prev, only_prev, tx_weight());
}

/// One interface that the previous sample lacks raises the differences by
/// exactly its counters, wherever in the current sample it is listed.
pub proof fn lemma_net_new_interface(cur: Seq<Interface>, prev: Seq<Interface>, i: int)
    requires
        0 <= i < cur.len(),
    ensures
        rx_total(cur) - rx_total(prev) == (rx_total(cur.remove(i)) - rx_total(prev))
            + cur[i].rx_bytes,
        tx_total(cur) - tx_total(prev) == (tx_total(cur.remove(i)) - tx_total(prev))
            + cur[i].tx_bytes,
{
    lemma_sum_remove(cur, i, rx_weight());
    lemma_sum_remove(cur, i, tx_weight());
}

} // verus!
