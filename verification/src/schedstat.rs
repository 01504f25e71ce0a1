//! The scheduler counters of `/proc/schedstat`: per CPU, and summed over all CPUs.
use vstd::prelude::*;
use crate::statistics::{
    KeyView, ProcessorError, Statistic, Statistics, apply_samples, samples_view,
    add_samples_to_statistics,
};
use crate::text::{decimal, push_decimal};

verus! {

/// One reading of `/proc/schedstat`: per CPU a row whose field 0 is the CPU number,
/// field 7 the time spent running, field 8 the time spent waiting (both in
/// nanoseconds) and field 9 the number of timeslices run.
#[derive(Clone, Debug, Default, PartialEq, Eq)]
pub struct ProcSchedStat {
    pub cpu: Vec<Vec<u64>>,
}

/// The rows as sequences.
pub open spec fn rows_view(rows: Seq<Vec<u64>>) -> Seq<Seq<u64>> {
    rows.map_values(|r: Vec<u64>| r@)
}

/// Every row holds the fields that are read.
pub open spec fn rows_complete(rows: Seq<Seq<u64>>) -> bool {
    forall|i: int| 0 <= i < rows.len() ==> (#[trigger] rows[i]).len() >= 10
}

/// The sum of field `c` over the rows.
pub open spec fn column_sum(rows: Seq<Seq<u64>>, c: int) -> nat
    decreases rows.len(),
{
    if rows.len() == 0 {
        0
    } else {
        column_sum(rows.drop_last(), c) + rows.last()[c] as nat
    }
}

/// The counters of one CPU row.
pub open spec fn cpu_row_samples(row: Seq<u64>) -> Seq<(Seq<char>, u64)> {
    seq![("time_running"@, row[7]), ("time_waiting"@, row[8]), ("timeslices"@, row[9])]
}

/// The table after the counters of each CPU row, each under `cpuN`.
pub open spec fn rows_map(m: Map<KeyView, Statistic>, rows: Seq<Seq<u64>>, timestamp: i64) -> Map<KeyView, Statistic>
    decreases rows.len(),
{
    if rows.len() == 0 {
        m
    } else {
        apply_samples(
            rows_map(m, rows.drop_last(), timestamp),
            "schedstat"@,
            "cpu"@ + decimal(rows.last()[0] as nat),
            timestamp,
            cpu_row_samples(rows.last()),
        )
    }
}

/// The table after a reading of `/proc/schedstat`: each CPU row, then the sums over
/// all rows under `all`.
pub open spec fn schedstat_map(m: Map<KeyView, Statistic>, rows: Seq<Seq<u64>>, timestamp: i64) -> Map<KeyView, Statistic> {
    apply_samples(
        rows_map(m, rows, timestamp),
        "schedstat"@,
        "all"@,
        timestamp,
        seq![
            ("time_running"@, column_sum(rows, 7) as u64),
            ("time_waiting"@, column_sum(rows, 8) as u64),
            ("timeslices"@, column_sum(rows, 9) as u64),
        ],
    )
}

/// Records a reading of `/proc/schedstat`, taken at `timestamp`.
///
/// The sums over all CPUs must fit in 64 bits.
pub fn process_schedstat_data(schedstat: &ProcSchedStat, timestamp: i64, statistics: &mut Statistics) -> (r:
    Result<(), ProcessorError>)
    requires
        old(statistics).wf(),
        rows_complete(rows_view(schedstat.cpu@)),
        column_sum(rows_view(schedstat.cpu@), 7) <= u64::MAX,
        column_sum(rows_view(schedstat.cpu@), 8) <= u64::MAX,
        column_sum(rows_view(schedstat.cpu@), 9) <= u64::MAX,
    ensures
        r is Ok,
        final(statistics).wf(),
        final(statistics)@ == schedstat_map(old(statistics)@, rows_view(schedstat.cpu@), timestamp),
{
    let ghost rows = rows_view(schedstat.cpu@);
    let ghost start = statistics@;
    let mut total_running: u64 = 0;
    let mut total_waiting: u64 = 0;
    let mut total_timeslices: u64 = 0;
    let n = schedstat.cpu.len();
    let mut i: usize = 0;
    while i < n
        invariant
            n == rows.len(),
            rows == rows_view(schedstat.cpu@),
            rows_complete(rows),
            i <= n,
            statistics.wf(),
            statistics@ == rows_map(start, rows.take(i as int), timestamp),
            total_running == column_sum(rows.take(i as int), 7),
            total_waiting == column_sum(rows.take(i as int), 8),
            total_timeslices == column_sum(rows.take(i as int), 9),
            column_sum(rows, 7) <= u64::MAX,
            column_sum(rows, 8) <= u64::MAX,
            column_sum(rows, 9) <= u64::MAX,
        decreases n - i,
    {
        let row = &schedstat.cpu[i];
        proof {
            assert(rows[i as int] == row@);
            assert(rows[i as int].len() >= 10);
            assert(rows.take(i + 1).drop_last() =~= rows.take(i as int));
            lemma_column_sum_prefix(rows, i as int + 1, 7);
            lemma_column_sum_prefix(rows, i as int + 1, 8);
            lemma_column_sum_prefix(rows, i as int + 1, 9);
        }
        let mut name = "cpu".to_owned();
        push_decimal(row[0], &mut name);
        let mut samples: Vec<(String, u64)> = Vec::new();
        samples.push(("time_running".to_owned(), row[7]));
        samples.push(("time_waiting".to_owned(), row[8]));
        samples.push(("timeslices".to_owned(), row[9]));
        assert(samples_view(samples@) =~= cpu_row_samples(row@));
        add_samples_to_statistics("schedstat", name.as_str(), timestamp, &samples, statistics);
        total_running = total_running + row[7];
        total_waiting = total_waiting + row[8];
        total_timeslices = total_timeslices + row[9];
        i = i + 1;
    }
    proof {
        assert(rows.take(n as int) =~= rows);
    }
    let mut totals: Vec<(String, u64)> = Vec::new();
    totals.push(("time_running".to_owned(), total_running));
    totals.push(("time_waiting".to_owned(), total_waiting));
    totals.push(("timeslices".to_owned(), total_timeslices));
    assert(samples_view(totals@) =~= seq![
        ("time_running"@, column_sum(rows, 7) as u64),
        ("time_waiting"@, column_sum(rows, 8) as u64),
        ("timeslices"@, column_sum(rows, 9) as u64),
    ]);
    add_samples_to_statistics("schedstat", "all", timestamp, &totals, statistics);
    Ok(())
}

/// The sum over a prefix is at most the sum over all rows.
proof fn lemma_column_sum_prefix(rows: Seq<Seq<u64>>, k: int, c: int)
    requires
        0 <= k <= rows.len(),
    ensures
        column_sum(rows.take(k), c) <= column_sum(rows, c),
    decreases rows.len(),
{
    if k < rows.len() {
        assert(rows.drop_last().take(k) =~= rows.take(k));
        lemma_column_sum_prefix(rows.drop_last(), k, c);
    } else {
        assert(rows.take(k) =~= rows);
    }
}

} // verus!
