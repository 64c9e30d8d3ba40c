use vstd::prelude::*;

verus! {

/// One reading of the machine's resources.
///
/// `cpu_usage_bits` holds the IEEE-754 bit pattern (`f32::to_bits`) of the
/// global CPU usage in percent; memory and disk figures are in bytes, the
/// uptime in seconds.
#[derive(Clone, Copy, Debug)]
pub struct SystemSnapshot {
    pub cpu_usage_bits: u32,
    pub memory_used: u64,
    pub memory_total: u64,
    pub disk_used: u64,
    pub disk_total: u64,
    pub uptime: u64,
}

/// The space of one disk: its total and its available bytes.
#[derive(Clone, Copy, Debug)]
pub struct DiskSpace {
    pub total_space: u64,
    pub available_space: u64,
}

/// The bytes in use on the disks of `d`: on each disk, its total less its
/// available space, or nothing when more is available than the total.
pub open spec fn used_space(d: Seq<DiskSpace>) -> int
    decreases d.len(),
{
    if d.len() == 0 {
        0
    } else {
        used_space(d.drop_last()) + d.last().total_space.saturating_sub(d.last().available_space)
    }
}

/// The total bytes of the disks of `d`.
pub open spec fn total_space(d: Seq<DiskSpace>) -> int
    decreases d.len(),
{
    if d.len() == 0 {
        0
    } else {
        total_space(d.drop_last()) + d.last().total_space
    }
}

proof fn lemma_used_within_total(d: Seq<DiskSpace>)
    ensures
        0 <= used_space(d) <= total_space(d),
        0 <= total_space(d),
    decreases d.len(),
{
    if d.len() > 0 {
        lemma_used_within_total(d.drop_last());
    }
}

proof fn lemma_total_prefix(d: Seq<DiskSpace>, i: int)
    requires
        0 <= i <= d.len(),
    ensures
        total_space(d.take(i)) <= total_space(d),
    decreases d.len() - i,
{
    if i < d.len() {
        lemma_total_prefix(d, i + 1);
        assert(d.take(i + 1).drop_last() =~= d.take(i));
    } else {
        assert(d.take(i) =~= d);
    }
}

/// The used and the total bytes over all disks.
pub fn disk_usage(disks: &[DiskSpace]) -> (r: (u64, u64))
    requires
        total_space(disks@) <= u64::MAX,
    ensures
        r.0 == used_space(disks@),
        r.1 == total_space(disks@),
{
    let mut used: u64 = 0;
    let mut total: u64 = 0;
    let mut i: usize = 0;
    while i < disks.len()
        invariant
            i <= disks@.len(),
            total_space(disks@) <= u64::MAX,
            used == used_space(disks@.take(i as int)),
            total == total_space(disks@.take(i as int)),
        decreases disks@.len() - i,
    {
        proof {
            let next = disks@.take(i + 1);
            assert(next.drop_last() =~= disks@.take(i as int));
            lemma_total_prefix(disks@, i + 1);
            lemma_used_within_total(next);
        }
        let disk = disks[i];
        let used_space = disk.total_space.saturating_sub(disk.available_space);
        used = used + used_space;
        total = total + disk.total_space;
        i = i + 1;
    }
    proof {
        assert(disks@.take(disks@.len() as int) =~= disks@);
    }
    (used, total)
}

} // verus!
