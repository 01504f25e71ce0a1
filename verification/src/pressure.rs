//! The pressure stall figures of `/proc/pressure`.
use vstd::prelude::*;
use crate::statistics::{ProcessorError, Statistics, apply_samples, samples_view, add_samples_to_statistics};
#[allow(unused_imports)]
use crate::statistics::{KeyView, Statistic, keeps_category, lemma_apply_samples_keeps};

verus! {

/// One reading of `/proc/pressure/{cpu,io,memory}`.
#[derive(Clone, Copy, Debug, Default, PartialEq, Eq)]
pub struct PsiSample {
    /// Stall average over 10 seconds, in hundredths (the two-decimal figure times 100).
    pub cpu_some_avg10: u64,
    /// Stall average over 60 seconds, in hundredths (the two-decimal figure times 100).
    pub cpu_some_avg60: u64,
    /// Stall average over 300 seconds, in hundredths (the two-decimal figure times 100).
    pub cpu_some_avg300: u64,
    /// Total stall time in microseconds.
    pub cpu_some_total: u64,
    /// Stall average over 10 seconds, in hundredths (the two-decimal figure times 100).
    pub cpu_full_avg10: Option<u64>,
    /// Stall average over 60 seconds, in hundredths (the two-decimal figure times 100).
    pub cpu_full_avg60: Option<u64>,
    /// Stall average over 300 seconds, in hundredths (the two-decimal figure times 100).
    pub cpu_full_avg300: Option<u64>,
    /// Total stall time in microseconds.
    pub cpu_full_total: Option<u64>,
    /// Stall average over 10 seconds, in hundredths (the two-decimal figure times 100).
    pub io_some_avg10: u64,
    /// Stall average over 60 seconds, in hundredths (the two-decimal figure times 100).
    pub io_some_avg60: u64,
    /// Stall average over 300 seconds, in hundredths (the two-decimal figure times 100).
    pub io_some_avg300: u64,
    /// Total stall time in microseconds.
    pub io_some_total: u64,
    /// Stall average over 10 seconds, in hundredths (the two-decimal figure times 100).
    pub io_full_avg10: u64,
    /// Stall average over 60 seconds, in hundredths (the two-decimal figure times 100).
    pub io_full_avg60: u64,
    /// Stall average over 300 seconds, in hundredths (the two-decimal figure times 100).
    pub io_full_avg300: u64,
    /// Total stall time in microseconds.
    pub io_full_total: u64,
    /// Stall average over 10 seconds, in hundredths (the two-decimal figure times 100).
    pub memory_some_avg10: u64,
    /// Stall average over 60 seconds, in hundredths (the two-decimal figure times 100).
    pub memory_some_avg60: u64,
    /// Stall average over 300 seconds, in hundredths (the two-decimal figure times 100).
    pub memory_some_avg300: u64,
    /// Total stall time in microseconds.
    pub memory_some_total: u64,
    /// Stall average over 10 seconds, in hundredths (the two-decimal figure times 100).
    pub memory_full_avg10: u64,
    /// Stall average over 60 seconds, in hundredths (the two-decimal figure times 100).
    pub memory_full_avg60: u64,
    /// Stall average over 300 seconds, in hundredths (the two-decimal figure times 100).
    pub memory_full_avg300: u64,
    /// Total stall time in microseconds.
    pub memory_full_total: u64,
}

/// The named counters of a `PsiSample`, in the order in which they are recorded;
/// an absent counter counts as 0.
pub open spec fn pressure_samples(psi: PsiSample) -> Seq<(Seq<char>, u64)> {
    seq![
        ("cpu_some_avg10"@, psi.cpu_some_avg10),
        ("cpu_some_avg60"@, psi.cpu_some_avg60),
        ("cpu_some_avg300"@, psi.cpu_some_avg300),
        ("cpu_some_total"@, psi.cpu_some_total),
        ("cpu_full_avg10"@, psi.cpu_full_avg10.unwrap_or(0)),
        ("cpu_full_avg60"@, psi.cpu_full_avg60.unwrap_or(0)),
        ("cpu_full_avg300"@, psi.cpu_full_avg300.unwrap_or(0)),
        ("cpu_full_total"@, psi.cpu_full_total.unwrap_or(0)),
        ("io_some_avg10"@, psi.io_some_avg10),
        ("io_some_avg60"@, psi.io_some_avg60),
        ("io_some_avg300"@, psi.io_some_avg300),
        ("io_some_total"@, psi.io_some_total),
        ("io_full_avg10"@, psi.io_full_avg10),
        ("io_full_avg60"@, psi.io_full_avg60),
        ("io_full_avg300"@, psi.io_full_avg300),
        ("io_full_total"@, psi.io_full_total),
        ("memory_some_avg10"@, psi.memory_some_avg10),
        ("memory_some_avg60"@, psi.memory_some_avg60),
        ("memory_some_avg300"@, psi.memory_some_avg300),
        ("memory_some_total"@, psi.memory_some_total),
        ("memory_full_avg10"@, psi.memory_full_avg10),
        ("memory_full_avg60"@, psi.memory_full_avg60),
        ("memory_full_avg300"@, psi.memory_full_avg300),
        ("memory_full_total"@, psi.memory_full_total),
    ]
}

fn pressure_samples_exec(psi: &PsiSample) -> (r: Vec<(String, u64)>)
    ensures
        samples_view(r@) == pressure_samples(*psi),
{
    let mut r: Vec<(String, u64)> = Vec::new();
    r.push(("cpu_some_avg10".to_owned(), psi.cpu_some_avg10));
    r.push(("cpu_some_avg60".to_owned(), psi.cpu_some_avg60));
    r.push(("cpu_some_avg300".to_owned(), psi.cpu_some_avg300));
    r.push(("cpu_some_total".to_owned(), psi.cpu_some_total));
    r.push(("cpu_full_avg10".to_owned(), psi.cpu_full_avg10.unwrap_or(0)));
    r.push(("cpu_full_avg60".to_owned(), psi.cpu_full_avg60.unwrap_or(0)));
    r.push(("cpu_full_avg300".to_owned(), psi.cpu_full_avg300.unwrap_or(0)));
    r.push(("cpu_full_total".to_owned(), psi.cpu_full_total.unwrap_or(0)));
    r.push(("io_some_avg10".to_owned(), psi.io_some_avg10));
    r.push(("io_some_avg60".to_owned(), psi.io_some_avg60));
    r.push(("io_some_avg300".to_owned(), psi.io_some_avg300));
    r.push(("io_some_total".to_owned(), psi.io_some_total));
    r.push(("io_full_avg10".to_owned(), psi.io_full_avg10));
    r.push(("io_full_avg60".to_owned(), psi.io_full_avg60));
    r.push(("io_full_avg300".to_owned(), psi.io_full_avg300));
    r.push(("io_full_total".to_owned(), psi.io_full_total));
    r.push(("memory_some_avg10".to_owned(), psi.memory_some_avg10));
    r.push(("memory_some_avg60".to_owned(), psi.memory_some_avg60));
    r.push(("memory_some_avg300".to_owned(), psi.memory_some_avg300));
    r.push(("memory_some_total".to_owned(), psi.memory_some_total));
    r.push(("memory_full_avg10".to_owned(), psi.memory_full_avg10));
    r.push(("memory_full_avg60".to_owned(), psi.memory_full_avg60));
    r.push(("memory_full_avg300".to_owned(), psi.memory_full_avg300));
    r.push(("memory_full_total".to_owned(), psi.memory_full_total));
    assert(samples_view(r@) =~= pressure_samples(*psi));
    r
}

/// One reading of `/proc/pressure`; absent where the kernel keeps no pressure figures.
#[derive(Clone, Copy, Debug, Default, PartialEq, Eq)]
pub struct ProcPressure {
    pub psi: Option<PsiSample>,
}

/// The table after a reading of `/proc/pressure`: unchanged when it holds no figures.
pub open spec fn pressure_map(m: Map<KeyView, Statistic>, pressure: ProcPressure, timestamp: i64) -> Map<KeyView, Statistic> {
    match pressure.psi {
        None => m,
        Some(psi) => apply_samples(m, "pressure"@, ""@, timestamp, pressure_samples(psi)),
    }
}

/// Recording pressure keeps every key of another category.
pub proof fn lemma_pressure_map_keeps(m: Map<KeyView, Statistic>, pressure: ProcPressure, timestamp: i64, category: Seq<char>)
    requires
        category != "pressure"@,
    ensures
        keeps_category(m, pressure_map(m, pressure, timestamp), category),
{
    match pressure.psi {
        None => {},
        Some(psi) => {
            lemma_apply_samples_keeps(m, "pressure"@, ""@, timestamp, pressure_samples(psi), category);
        },
    }
}

/// Records the pressure figures under the `pressure` category, taken at `timestamp`;
/// records nothing where the reading holds none.
pub fn process_pressure_data(pressure: &ProcPressure, timestamp: i64, statistics: &mut Statistics) -> (r: Result<(), ProcessorError>)
    requires
        old(statistics).wf(),
    ensures
        r is Ok,
        final(statistics).wf(),
        final(statistics)@ == pressure_map(old(statistics)@, *pressure, timestamp),
{
    match &pressure.psi {
        None => Ok(()),
        Some(psi) => {
            let samples = pressure_samples_exec(psi);
            add_samples_to_statistics("pressure", "", timestamp, &samples, statistics);
            Ok(())
        },
    }
}

} // verus!
