//! Raw samples: what the container runtime reports at one instant.

use vstd::prelude::*;

verus! {

/// The cumulative byte counters of one network interface.
#[derive(Clone, Debug, PartialEq, Eq)]
pub struct Interface {
    /// The interface's name, such as `eth0`.
    pub name: String,
    /// Bytes received since the container started.
    pub rx_bytes: u64,
    /// Bytes sent since the container started.
    pub tx_bytes: u64,
}

/// The kind of operation that a block I/O counter counts.
#[derive(Clone, Copy, Debug, PartialEq, Eq)]
pub enum BlkioOp {
    Read,
    Write,
    /// Any other operation; such counters take no part in the throughput.
    Other,
}

/// One cumulative block I/O counter. A sample may hold several for the same
/// operation, one per device.
#[derive(Clone, Copy, Debug, PartialEq, Eq)]
pub struct BlkioEntry {
    pub op: BlkioOp,
    /// Bytes moved by this operation since the container started.
    pub value: u64,
}

/// A snapshot of a container's resource counters. Its interfaces are keyed
/// by name: a sample is well formed when no name occurs twice (`wf`).
#[derive(Clone, Debug, PartialEq, Eq)]
pub struct RawSample {
    /// CPU time the container has used, in nanoseconds.
    pub cpu_total_usage: u64,
    /// CPU time the whole host has used, in nanoseconds.
    pub cpu_system_usage: u64,
    /// The number of CPUs the container could see when sampled.
    pub cpu_count: usize,
    /// Memory in use, in bytes.
    pub mem_usage: u64,
    /// File-backed memory that is inactive, in bytes.
    pub mem_inactive_file: u64,
    /// One entry per network interface.
    pub networks: Vec<Interface>,
    /// The block I/O counters, in the order reported.
    pub blkio_entries: Vec<BlkioEntry>,
}

/// No two interfaces bear the same name.
pub open spec fn distinct_names(networks: Seq<Interface>) -> bool {
    forall|i: int, j: int|
        0 <= i < j < networks.len() ==> (#[trigger] networks[i]).name@ != (
        #[trigger] networks[j]).name@
}

/// Whether an interface of that name is listed.
pub open spec fn has_name(networks: Seq<Interface>, name: Seq<char>) -> bool {
    exists|i: int| 0 <= i < networks.len() && (#[trigger] networks[i]).name@ == name
}

/// Whether place `i` holds the first interface of that name.
pub open spec fn is_first_named(networks: Seq<Interface>, name: Seq<char>, i: int) -> bool {
    &&& 0 <= i < networks.len()
    &&& networks[i].name@ == name
    &&& forall|j: int| 0 <= j < i ==> (#[trigger] networks[j]).name@ != name
}

/// The list with `entry` put in: in the place of the first interface of its
/// name, or at the end where the name is new.
pub open spec fn with_interface(networks: Seq<Interface>, entry: Interface) -> Seq<Interface> {
    if has_name(networks, entry.name@) {
        networks.update(choose|i: int| is_first_named(networks, entry.name@, i), entry)
    } else {
        networks.push(entry)
    }
}

impl RawSample {
    /// Whether the interfaces are keyed by name. The metrics are defined
    /// either way; every entry listed is counted.
    pub open spec fn wf(&self) -> bool {
        distinct_names(self.networks@)
    }

    /// A sample with the given CPU and memory figures, no interface and no
    /// block I/O counter.
    pub fn new(
        cpu_total_usage: u64,
        cpu_system_usage: u64,
        cpu_count: usize,
        mem_usage: u64,
        mem_inactive_file: u64,
    ) -> (sample: RawSample)
        ensures
            sample.cpu_total_usage == cpu_total_usage,
            sample.cpu_system_usage == cpu_system_usage,
            sample.cpu_count == cpu_count,
            sample.mem_usage == mem_usage,
            sample.mem_inactive_file == mem_inactive_file,
            sample.networks@ == Seq::<Interface>::empty(),
            sample.blkio_entries@ == Seq::<BlkioEntry>::empty(),
            sample.wf(),
    {
        RawSample {
            cpu_total_usage,
            cpu_system_usage,
            cpu_count,
            mem_usage,
            mem_inactive_file,
            networks: Vec::new(),
            blkio_entries: Vec::new(),
        }
    }

    /// Records the counters of one interface, in place of those recorded
    /// under the same name if there are any. A well-formed sample stays well
    /// formed.
    pub fn set_interface(&mut self, entry: Interface)
        ensures
            final(self).networks@ == with_interface(old(self).networks@, entry),
            old(self).wf() ==> final(self).wf(),
            final(self).cpu_total_usage == old(self).cpu_total_usage,
            final(self).cpu_system_usage == old(self).cpu_system_usage,
            final(self).cpu_count == old(self).cpu_count,
            final(self).mem_usage == old(self).mem_usage,
            final(self).mem_inactive_file == old(self).mem_inactive_file,
            final(self).blkio_entries == old(self).blkio_entries,
    {
        let n = self.networks.len();
        let mut i: usize = 0;
        while i < n
            invariant
                *self == *old(self),
                n == self.networks@.len(),
                i <= n,
                forall|j: int| 0 <= j < i ==> (#[trigger] self.networks@[j]).name@ != entry.name@,
            decreases n - i,
        {
            if self.networks[i].name == entry.name {
                proof {
                    assert(is_first_named(self.networks@, entry.name@, i as int));
                    let k = choose|k: int| is_first_named(self.networks@, entry.name@, k);
                    assert(k == i);
                }
                self.networks.set(i, entry);
                return ;
            }
            i = i + 1;
        }
        self.networks.push(entry);
    }
}

impl BlkioOp {
    /// The operation that a runtime's tag stands for: `Read` and `Write` are
    /// spelled exactly so, and every other tag is `Other`.
    pub open spec fn of_tag(tag: Seq<char>) -> BlkioOp {
        if tag == "Read"@ {
            BlkioOp::Read
        } else if tag == "Write"@ {
            BlkioOp::Write
        } else {
            BlkioOp::Other
        }
    }

    /// Classifies the tag that the runtime attaches to a block I/O counter.
    pub fn from_tag(tag: &str) -> (op: BlkioOp)
        ensures
            op == BlkioOp::of_tag(tag@),
    {
        let owned = tag.to_owned();
        if owned == "Read".to_owned() {
            BlkioOp::Read
        } else if owned == "Write".to_owned() {
            BlkioOp::Write
        } else {
            BlkioOp::Other
        }
    }
}

impl BlkioEntry {
    /// A counter of `value` bytes for the operation that `tag` names.
    pub fn from_tag(tag: &str, value: u64) -> (entry: BlkioEntry)
        ensures
            entry.op == BlkioOp::of_tag(tag@),
            entry.value == value,
    {
        BlkioEntry { op: BlkioOp::from_tag(tag), value }
    }
}

} // verus!
