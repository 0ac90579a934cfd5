//! Machine measurements: disks, processes and network totals. Reading them
//! from the system, and the shares in percent, are left to the caller.

use vstd::prelude::*;

verus! {

/// The space of one mounted disk, in bytes.
#[derive(Debug, Clone)]
pub struct DiskUsage {
    pub mount_point: String,
    pub used_bytes: u64,
    pub total_bytes: u64,
}

impl DiskUsage {
    /// A disk of `total` bytes of which `available` are free: the rest is
    /// used.
    pub fn from_space(mount_point: String, total: u64, available: u64) -> (d: Self)
        requires
            available <= total,
        ensures
            d.mount_point@ == mount_point@,
            d.total_bytes == total,
            d.used_bytes == total - available,
    {
        DiskUsage { mount_point, used_bytes: total - available, total_bytes: total }
    }
}

#[derive(Debug, Clone, Copy, PartialEq, Eq, Structural)]
pub enum ProcessStatus {
    Running,
    Sleeping,
    Stopped,
    Zombie,
}

/// The sum of the received (first) and sent (second) byte counts.
pub open spec fn spec_totals(counts: Seq<(u64, u64)>) -> (int, int)
    decreases counts.len(),
{
    if counts.len() == 0 {
        (0, 0)
    } else {
        let rest = spec_totals(counts.drop_last());
        (rest.0 + counts.last().0, rest.1 + counts.last().1)
    }
}

proof fn lemma_totals_grow(counts: Seq<(u64, u64)>, i: int)
    requires
        0 <= i <= counts.len(),
    ensures
        spec_totals(counts.take(i)).0 <= spec_totals(counts).0,
        spec_totals(counts.take(i)).1 <= spec_totals(counts).1,
    decreases counts.len() - i,
{
    if i < counts.len() {
        lemma_totals_grow(counts, i + 1);
        assert(counts.take(i + 1).drop_last() =~= counts.take(i));
    } else {
        assert(counts.take(i) =~= counts);
    }
}

/// The bytes received and sent over all network interfaces, from each
/// interface's totals. The sums must fit in 64 bits.
pub fn network_totals(counts: &[(u64, u64)]) -> (r: (u64, u64))
    requires
        spec_totals(counts@).0 <= u64::MAX,
        spec_totals(counts@).1 <= u64::MAX,
    ensures
        r.0 == spec_totals(counts@).0,
        r.1 == spec_totals(counts@).1,
{
    let mut rx: u64 = 0;
    let mut tx: u64 = 0;
    let mut i: usize = 0;
    while i < counts.len()
        invariant
            i <= counts@.len(),
            spec_totals(counts@).0 <= u64::MAX,
            spec_totals(counts@).1 <= u64::MAX,
            rx == spec_totals(counts@.take(i as int)).0,
            tx == spec_totals(counts@.take(i as int)).1,
        decreases counts@.len() - i,
    {
        proof {
            lemma_totals_grow(counts@, i + 1);
            assert(counts@.take(i + 1).drop_last() =~= counts@.take(i as int));
        }
        rx = rx + counts[i].0;
        tx = tx + counts[i].1;
        i = i + 1;
    }
    assert(counts@.take(counts@.len() as int) =~= counts@);
    (rx, tx)
}

} // verus!
