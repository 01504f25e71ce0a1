//! The CPU time counters and system counters of `/proc/stat`.
use vstd::prelude::*;
use crate::statistics::{
    KeyView, ProcessorError, Statistic, Statistics, apply_samples, samples_view,
    add_samples_to_statistics, sample_map, single_statistic_u64, holds,
    lemma_apply_samples_read_back,
};

verus! {

/// The time counters of one CPU line of `/proc/stat` (in clock ticks); the later
/// counters are absent on old kernels.
#[derive(Clone, Debug, Default, PartialEq, Eq)]
pub struct CpuTimes {
    /// `cpu` for the total over all CPUs, `cpuN` for CPU N.
    pub name: String,
    pub user: u64,
    pub nice: u64,
    pub system: u64,
    pub idle: u64,
    pub iowait: Option<u64>,
    pub irq: Option<u64>,
    pub softirq: Option<u64>,
    pub steal: Option<u64>,
    pub guest: Option<u64>,
    pub guest_nice: Option<u64>,
}

/// One reading of `/proc/stat`.
#[derive(Clone, Debug, Default, PartialEq, Eq)]
pub struct StatSample {
    pub cpu_total: CpuTimes,
    pub cpu_individual: Vec<CpuTimes>,
    /// The interrupt counts; the first one is the total.
    pub interrupts: Vec<u64>,
    pub context_switches: u64,
    pub processes: u64,
    pub processes_running: u64,
    pub processes_blocked: u64,
    /// The softirq counts; the first one is the total.
    pub softirq: Vec<u64>,
}

/// The subcategory a CPU line is recorded under: `all` for the total line `cpu`,
/// the line's own name otherwise.
pub open spec fn cpu_subcategory(name: Seq<char>) -> Seq<char> {
    if name == "cpu"@ {
        "all"@
    } else {
        name
    }
}

/// The named counters of a CPU line; an absent counter counts as 0.
pub open spec fn cpu_samples(cpu: CpuTimes) -> Seq<(Seq<char>, u64)> {
    seq![
        ("user"@, cpu.user),
        ("nice"@, cpu.nice),
        ("system"@, cpu.system),
        ("idle"@, cpu.idle),
        ("iowait"@, cpu.iowait.unwrap_or(0)),
        ("irq"@, cpu.irq.unwrap_or(0)),
        ("softirq"@, cpu.softirq.unwrap_or(0)),
        ("steal"@, cpu.steal.unwrap_or(0)),
        ("guest"@, cpu.guest.unwrap_or(0)),
        ("guest_nice"@, cpu.guest_nice.unwrap_or(0)),
    ]
}

/// The table after the counters of a CPU line.
pub open spec fn cpu_map(m: Map<KeyView, Statistic>, cpu: CpuTimes, timestamp: i64) -> Map<KeyView, Statistic> {
    apply_samples(m, "stat"@, cpu_subcategory(cpu.name@), timestamp, cpu_samples(cpu))
}

/// The table after the counters of each CPU line, in order.
pub open spec fn cpus_map(m: Map<KeyView, Statistic>, cpus: Seq<CpuTimes>, timestamp: i64) -> Map<KeyView, Statistic>
    decreases cpus.len(),
{
    if cpus.len() == 0 {
        m
    } else {
        cpu_map(cpus_map(m, cpus.drop_last(), timestamp), cpus.last(), timestamp)
    }
}

/// The system-wide counters of a reading.
pub open spec fn system_samples(stat: StatSample) -> Seq<(Seq<char>, u64)> {
    seq![
        ("context_switches"@, stat.context_switches),
        ("processes"@, stat.processes),
        ("processes_running"@, stat.processes_running),
        ("processes_blocked"@, stat.processes_blocked),
    ]
}

/// The table after a reading of `/proc/stat`: the total CPU line, each CPU line, the
/// system-wide counters, and the totals of interrupts and softirqs.
pub open spec fn stat_map(m: Map<KeyView, Statistic>, stat: StatSample, timestamp: i64) -> Map<KeyView, Statistic> {
    let m1 = cpu_map(m, stat.cpu_total, timestamp);
    let m2 = cpus_map(m1, stat.cpu_individual@, timestamp);
    let m3 = apply_samples(m2, "stat"@, ""@, timestamp, system_samples(stat));
    let m4 = sample_map(m3, ("stat"@, ""@, "interrupts_total"@), timestamp, stat.interrupts@[0]);
    sample_map(m4, ("stat"@, ""@, "softirq_total"@), timestamp, stat.softirq@[0])
}

fn cpu_samples_exec(cpu: &CpuTimes) -> (r: Vec<(String, u64)>)
    ensures
        samples_view(r@) == cpu_samples(*cpu),
{
    let mut r: Vec<(String, u64)> = Vec::new();
    r.push(("user".to_owned(), cpu.user));
    r.push(("nice".to_owned(), cpu.nice));
    r.push(("system".to_owned(), cpu.system));
    r.push(("idle".to_owned(), cpu.idle));
    r.push(("iowait".to_owned(), cpu.iowait.unwrap_or(0)));
    r.push(("irq".to_owned(), cpu.irq.unwrap_or(0)));
    r.push(("softirq".to_owned(), cpu.softirq.unwrap_or(0)));
    r.push(("steal".to_owned(), cpu.steal.unwrap_or(0)));
    r.push(("guest".to_owned(), cpu.guest.unwrap_or(0)));
    r.push(("guest_nice".to_owned(), cpu.guest_nice.unwrap_or(0)));
    assert(samples_view(r@) =~= cpu_samples(*cpu));
    r
}

/// After a CPU line of `/proc/stat` is recorded, each of its counters is held under ("stat", its
/// subcategory, the counter's name) with the reading's value and time.
pub open spec fn cpu_recorded(m: Map<KeyView, Statistic>, cpu: CpuTimes, timestamp: i64) -> bool {
    let sub = cpu_subcategory(cpu.name@);
    &&& holds(m, ("stat"@, sub, "user"@), cpu.user, timestamp)
    &&& holds(m, ("stat"@, sub, "nice"@), cpu.nice, timestamp)
    &&& holds(m, ("stat"@, sub, "system"@), cpu.system, timestamp)
    &&& holds(m, ("stat"@, sub, "idle"@), cpu.idle, timestamp)
    &&& holds(m, ("stat"@, sub, "iowait"@), cpu.iowait.unwrap_or(0), timestamp)
    &&& holds(m, ("stat"@, sub, "irq"@), cpu.irq.unwrap_or(0), timestamp)
    &&& holds(m, ("stat"@, sub, "softirq"@), cpu.softirq.unwrap_or(0), timestamp)
    &&& holds(m, ("stat"@, sub, "steal"@), cpu.steal.unwrap_or(0), timestamp)
    &&& holds(m, ("stat"@, sub, "guest"@), cpu.guest.unwrap_or(0), timestamp)
    &&& holds(m, ("stat"@, sub, "guest_nice"@), cpu.guest_nice.unwrap_or(0), timestamp)
}

/// Recording a CPU line of `/proc/stat` stores every counter under its own name, with the reading's value
/// and time.
pub proof fn law_cpu_read_back(m: Map<KeyView, Statistic>, cpu: CpuTimes, timestamp: i64)
    ensures
        cpu_recorded(cpu_map(m, cpu, timestamp), cpu, timestamp),
{
    reveal_strlit("guest");
    assert("guest"@.len() == 5);
    reveal_strlit("guest_nice");
    assert("guest_nice"@.len() == 10);
    reveal_strlit("idle");
    assert("idle"@.len() == 4);
    reveal_strlit("iowait");
    assert("iowait"@.len() == 6);
    reveal_strlit("irq");
    assert("irq"@.len() == 3);
    reveal_strlit("nice");
    assert("nice"@.len() == 4);
    reveal_strlit("softirq");
    assert("softirq"@.len() == 7);
    reveal_strlit("steal");
    assert("steal"@.len() == 5);
    reveal_strlit("system");
    assert("system"@.len() == 6);
    reveal_strlit("user");
    assert("user"@.len() == 4);
    assert("guest"@[0] == 'g');
    assert("steal"@[0] == 's');
    assert("idle"@[0] == 'i');
    assert("nice"@[0] == 'n');
    assert("user"@[0] == 'u');
    assert("iowait"@[0] == 'i');
    assert("system"@[0] == 's');
    let s = cpu_samples(cpu);
    lemma_apply_samples_read_back(m, "stat"@, cpu_subcategory(cpu.name@), timestamp, s, 0);
    lemma_apply_samples_read_back(m, "stat"@, cpu_subcategory(cpu.name@), timestamp, s, 1);
    lemma_apply_samples_read_back(m, "stat"@, cpu_subcategory(cpu.name@), timestamp, s, 2);
    lemma_apply_samples_read_back(m, "stat"@, cpu_subcategory(cpu.name@), timestamp, s, 3);
    lemma_apply_samples_read_back(m, "stat"@, cpu_subcategory(cpu.name@), timestamp, s, 4);
    lemma_apply_samples_read_back(m, "stat"@, cpu_subcategory(cpu.name@), timestamp, s, 5);
    lemma_apply_samples_read_back(m, "stat"@, cpu_subcategory(cpu.name@), timestamp, s, 6);
    lemma_apply_samples_read_back(m, "stat"@, cpu_subcategory(cpu.name@), timestamp, s, 7);
    lemma_apply_samples_read_back(m, "stat"@, cpu_subcategory(cpu.name@), timestamp, s, 8);
    lemma_apply_samples_read_back(m, "stat"@, cpu_subcategory(cpu.name@), timestamp, s, 9);
}

/// Records the time counters of one CPU line under `stat` and the CPU's subcategory.
pub fn process_cpu_statistics(cpu_data: &CpuTimes, timestamp: i64, statistics: &mut Statistics) -> (r:
    Result<(), ProcessorError>)
    requires
        old(statistics).wf(),
    ensures
        r is Ok,
        final(statistics).wf(),
        final(statistics)@ == cpu_map(old(statistics)@, *cpu_data, timestamp),
        cpu_recorded(final(statistics)@, *cpu_data, timestamp),
{
    proof {
        law_cpu_read_back(old(statistics)@, *cpu_data, timestamp);
    }
    let total_name = "cpu".to_owned();
    let samples = cpu_samples_exec(cpu_data);
    if cpu_data.name == total_name {
        add_samples_to_statistics("stat", "all", timestamp, &samples, statistics);
    } else {
        add_samples_to_statistics("stat", cpu_data.name.as_str(), timestamp, &samples, statistics);
    }
    Ok(())
}

/// Records a reading of `/proc/stat`, taken at `timestamp`.
pub fn process_stat_data(stat: &StatSample, timestamp: i64, statistics: &mut Statistics) -> (r: Result<
    (),
    ProcessorError,
>)
    requires
        old(statistics).wf(),
        stat.interrupts@.len() > 0,
        stat.softirq@.len() > 0,
    ensures
        r is Ok,
        final(statistics).wf(),
        final(statistics)@ == stat_map(old(statistics)@, *stat, timestamp),
{
    let _ = process_cpu_statistics(&stat.cpu_total, timestamp, statistics);
    let ghost m1 = statistics@;
    let n = stat.cpu_individual.len();
    let mut i: usize = 0;
    while i < n
        invariant
            n == stat.cpu_individual@.len(),
            i <= n,
            statistics.wf(),
            statistics@ == cpus_map(m1, stat.cpu_individual@.take(i as int), timestamp),
        decreases n - i,
    {
        let _ = process_cpu_statistics(&stat.cpu_individual[i], timestamp, statistics);
        proof {
            assert(stat.cpu_individual@.take(i + 1).drop_last() =~= stat.cpu_individual@.take(i as int));
        }
        i = i + 1;
    }
    proof {
        assert(stat.cpu_individual@.take(n as int) =~= stat.cpu_individual@);
    }
    let mut system: Vec<(String, u64)> = Vec::new();
    system.push(("context_switches".to_owned(), stat.context_switches));
    system.push(("processes".to_owned(), stat.processes));
    system.push(("processes_running".to_owned(), stat.processes_running));
    system.push(("processes_blocked".to_owned(), stat.processes_blocked));
    assert(samples_view(system@) =~= system_samples(*stat));
    add_samples_to_statistics("stat", "", timestamp, &system, statistics);
    single_statistic_u64("stat", "", "interrupts_total", timestamp, stat.interrupts[0], statistics);
    single_statistic_u64("stat", "", "softirq_total", timestamp, stat.softirq[0], statistics);
    Ok(())
}

} // verus!
