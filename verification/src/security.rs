use vstd::prelude::*;

verus! {

/// The security posture of the machine, from its running processes.
#[derive(Clone, Debug)]
pub struct SecuritySnapshot {
    pub security_score: u8,
    pub processes: usize,
    pub high_cpu_processes: usize,
    pub high_memory_processes: usize,
    pub status: String,
}

/// Memory use, in bytes, from which a process counts as memory-heavy.
pub open spec fn high_memory_threshold() -> u64 {
    524288000
}

/// The points that `count` heavy processes take off the score, at `weight`
/// points each and at most `cap`, the count read as an `i32` as the score
/// arithmetic does.
pub open spec fn penalty(count: usize, weight: int, cap: int) -> int {
    let p = (count as i32) as int * weight;
    if p < cap { p } else { cap }
}

/// The security score before clamping.
pub open spec fn raw_score(high_cpu: usize, high_memory: usize) -> int {
    100 - penalty(high_cpu, 5, 30) - penalty(high_memory, 3, 20)
}

/// Whether the score arithmetic stays within `i32`.
pub open spec fn score_in_range(high_cpu: usize, high_memory: usize) -> bool {
    let c = (high_cpu as i32) as int * 5;
    let m = (high_memory as i32) as int * 3;
    &&& i32::MIN <= c <= i32::MAX
    &&& i32::MIN <= m <= i32::MAX
    &&& i32::MIN <= 100 - penalty(high_cpu, 5, 30) <= i32::MAX
    &&& i32::MIN <= raw_score(high_cpu, high_memory) <= i32::MAX
}

/// The score brought into [0, 100].
pub open spec fn security_score_spec(high_cpu: usize, high_memory: usize) -> int {
    let s = raw_score(high_cpu, high_memory);
    if s < 0 { 0 } else if s > 100 { 100 } else { s }
}

/// The posture label of a score.
pub open spec fn posture(score: int) -> Seq<char> {
    if score >= 80 {
        "SECURE"@
    } else if score >= 60 {
        "ELEVATED"@
    } else {
        "AT RISK"@
    }
}

/// Whether a process with this memory use, in bytes, is memory-heavy.
pub fn is_memory_heavy(memory: u64) -> (r: bool)
    ensures
        r == (memory >= high_memory_threshold()),
{
    memory >= 500 * 1024 * 1024
}

/// The number of memory-heavy processes among `memory`, the memory use of
/// each process.
pub open spec fn heavy_count(memory: Seq<u64>) -> nat
    decreases memory.len(),
{
    if memory.len() == 0 {
        0
    } else {
        heavy_count(memory.drop_last()) + if memory.last() >= high_memory_threshold() {
            1nat
        } else {
            0nat
        }
    }
}

proof fn lemma_heavy_bound(memory: Seq<u64>)
    ensures
        heavy_count(memory) <= memory.len(),
    decreases memory.len(),
{
    if memory.len() > 0 {
        lemma_heavy_bound(memory.drop_last());
    }
}

/// Counts the memory-heavy processes.
pub fn count_memory_heavy(memory: &[u64]) -> (r: usize)
    ensures
        r == heavy_count(memory@),
{
    let mut count: usize = 0;
    let mut i: usize = 0;
    while i < memory.len()
        invariant
            i <= memory@.len(),
            count == heavy_count(memory@.take(i as int)),
        decreases memory@.len() - i,
    {
        proof {
            assert(memory@.take(i + 1).drop_last() =~= memory@.take(i as int));
            lemma_heavy_bound(memory@.take(i as int));
        }
        if is_memory_heavy(memory[i]) {
            count += 1;
        }
        i = i + 1;
    }
    proof {
        assert(memory@.take(memory@.len() as int) =~= memory@);
    }
    count
}

/// Scores the posture of `processes` running processes of which
/// `high_cpu_processes` use at least 80% CPU and `high_memory_processes` at
/// least 500 MiB: 5 points off per CPU-heavy process (at most 30), 3 per
/// memory-heavy one (at most 20).
pub fn assess(processes: usize, high_cpu_processes: usize, high_memory_processes: usize) -> (r: SecuritySnapshot)
    requires
        score_in_range(high_cpu_processes, high_memory_processes),
    ensures
        r.security_score == security_score_spec(high_cpu_processes, high_memory_processes),
        r.status@ == posture(r.security_score as int),
        r.processes == processes,
        r.high_cpu_processes == high_cpu_processes,
        r.high_memory_processes == high_memory_processes,
        high_cpu_processes <= i32::MAX / 5 && high_memory_processes <= i32::MAX / 3
            ==> r.security_score == 100 - (if 5 * high_cpu_processes < 30 {
            5 * high_cpu_processes
        } else {
            30
        }) - (if 3 * high_memory_processes < 20 {
            3 * high_memory_processes
        } else {
            20
        }),
        high_cpu_processes == 0 && high_memory_processes <= i32::MAX / 3 ==> r.security_score >= 80
            && r.status@ == "SECURE"@,
{
    let mut score: i32 = 100;
    let cpu_penalty = high_cpu_processes as i32 * 5;
    score -= if cpu_penalty < 30 { cpu_penalty } else { 30 };
    let memory_penalty = high_memory_processes as i32 * 3;
    score -= if memory_penalty < 20 { memory_penalty } else { 20 };
    let clamped = if score < 0 { 0 } else if score > 100 { 100 } else { score };
    proof {
        if high_cpu_processes <= i32::MAX / 5 && high_memory_processes <= i32::MAX / 3 {
            lemma_penalties_capped_separately(high_cpu_processes, high_memory_processes);
        }
    }
    let security_score = clamped as u8;
    let status = if security_score >= 80 {
        "SECURE"
    } else if security_score >= 60 {
        "ELEVATED"
    } else {
        "AT RISK"
    };
    SecuritySnapshot {
        security_score,
        processes,
        high_cpu_processes,
        high_memory_processes,
        status: status.to_owned(),
    }
}

/// With counts that fit an `i32`, the score never drops below 50: the two
/// penalties are capped at 30 and 20 points.
pub proof fn lemma_score_floor(high_cpu: usize, high_memory: usize)
    requires
        high_cpu <= i32::MAX / 5,
        high_memory <= i32::MAX / 3,
    ensures
        50 <= security_score_spec(high_cpu, high_memory) <= 100,
        score_in_range(high_cpu, high_memory),
{
    assert((high_cpu as i32) as int == high_cpu as int);
    assert((high_memory as i32) as int == high_memory as int);
}

/// Each penalty is capped on its own: with counts that fit an `i32`, the
/// score is 100 less at most 30 points (5 per CPU-heavy process) and less at
/// most 20 points (3 per memory-heavy process). So memory-heavy processes
/// alone never take more than 20 points, and with no CPU-heavy process the
/// posture is SECURE.
pub proof fn lemma_penalties_capped_separately(high_cpu: usize, high_memory: usize)
    requires
        high_cpu <= i32::MAX / 5,
        high_memory <= i32::MAX / 3,
    ensures
        security_score_spec(high_cpu, high_memory) == 100 - (if 5 * high_cpu < 30 {
            5 * high_cpu
        } else {
            30
        }) - (if 3 * high_memory < 20 {
            3 * high_memory
        } else {
            20
        }),
        high_cpu == 0 ==> security_score_spec(high_cpu, high_memory) >= 80,
        high_cpu == 0 ==> posture(security_score_spec(high_cpu, high_memory)) == "SECURE"@,
        high_memory == 0 ==> security_score_spec(high_cpu, high_memory) >= 70,
        security_score_spec(high_cpu, high_memory) >= 50,
{
    assert((high_cpu as i32) as int == high_cpu as int);
    assert((high_memory as i32) as int == high_memory as int);
}

/// The posture bands: SECURE from 80 points, ELEVATED from 60 to 79, AT
/// RISK below 60.
pub proof fn lemma_posture_bands(score: int)
    ensures
        posture(score) == "SECURE"@ <==> score >= 80,
        posture(score) == "ELEVATED"@ <==> 60 <= score < 80,
        posture(score) == "AT RISK"@ <==> score < 60,
{
    reveal_strlit("SECURE");
    reveal_strlit("ELEVATED");
    reveal_strlit("AT RISK");
    assert("SECURE"@[0] != "ELEVATED"@[0] && "SECURE"@[0] != "AT RISK"@[0] && "ELEVATED"@[0] != "AT RISK"@[0]);
}

} // verus!
