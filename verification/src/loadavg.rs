//! The load averages and task counts of `/proc/loadavg`.
use vstd::prelude::*;
use crate::statistics::{
    ProcessorError, Statistics, apply_samples, samples_view, add_samples_to_statistics, holds,
    lemma_apply_samples_read_back, KeyView, Statistic, keeps_category,
};

verus! {

/// One reading of `/proc/loadavg`.
#[derive(Clone, Copy, Debug, Default, PartialEq, Eq)]
pub struct LoadavgSample {
    /// Load average over 1 minute, in hundredths (the two-decimal figure times 100).
    pub load_1: u64,
    /// Load average over 5 minutes, in hundredths (the two-decimal figure times 100).
    pub load_5: u64,
    /// Load average over 15 minutes, in hundredths (the two-decimal figure times 100).
    pub load_15: u64,
    pub current_runnable: u64,
    pub total: u64,
    pub last_pid: u64,
}

/// The named counters of a `LoadavgSample`, in the order in which they are recorded;
/// an absent counter counts as 0.
pub open spec fn loadavg_samples(loadavg: LoadavgSample) -> Seq<(Seq<char>, u64)> {
    seq![
        ("load_1"@, loadavg.load_1),
        ("load_5"@, loadavg.load_5),
        ("load_15"@, loadavg.load_15),
        ("current_runnable"@, loadavg.current_runnable),
        ("total"@, loadavg.total),
        ("last_pid"@, loadavg.last_pid),
    ]
}

fn loadavg_samples_exec(loadavg: &LoadavgSample) -> (r: Vec<(String, u64)>)
    ensures
        samples_view(r@) == loadavg_samples(*loadavg),
{
    let mut r: Vec<(String, u64)> = Vec::new();
    r.push(("load_1".to_owned(), loadavg.load_1));
    r.push(("load_5".to_owned(), loadavg.load_5));
    r.push(("load_15".to_owned(), loadavg.load_15));
    r.push(("current_runnable".to_owned(), loadavg.current_runnable));
    r.push(("total".to_owned(), loadavg.total));
    r.push(("last_pid".to_owned(), loadavg.last_pid));
    assert(samples_view(r@) =~= loadavg_samples(*loadavg));
    r
}

/// After a reading of `/proc/loadavg` is recorded, each of its counters is held under
/// ("loadavg", "", its name) with the reading's value and time.
pub open spec fn loadavg_recorded(m: Map<KeyView, Statistic>, loadavg: LoadavgSample, timestamp: i64) -> bool {
    &&& holds(m, ("loadavg"@, ""@, "load_1"@), loadavg.load_1, timestamp)
    &&& holds(m, ("loadavg"@, ""@, "load_5"@), loadavg.load_5, timestamp)
    &&& holds(m, ("loadavg"@, ""@, "load_15"@), loadavg.load_15, timestamp)
    &&& holds(m, ("loadavg"@, ""@, "current_runnable"@), loadavg.current_runnable, timestamp)
    &&& holds(m, ("loadavg"@, ""@, "total"@), loadavg.total, timestamp)
    &&& holds(m, ("loadavg"@, ""@, "last_pid"@), loadavg.last_pid, timestamp)
}

/// Recording a reading of `/proc/loadavg` stores every counter under its own name, with the
/// reading's value and time.
pub proof fn law_loadavg_read_back(m: Map<KeyView, Statistic>, loadavg: LoadavgSample, timestamp: i64)
    ensures
        loadavg_recorded(apply_samples(m, "loadavg"@, ""@, timestamp, loadavg_samples(loadavg)), loadavg, timestamp),
{
    reveal_strlit("current_runnable");
    assert("current_runnable"@.len() == 16);
    reveal_strlit("last_pid");
    assert("last_pid"@.len() == 8);
    reveal_strlit("load_1");
    assert("load_1"@.len() == 6);
    reveal_strlit("load_15");
    assert("load_15"@.len() == 7);
    reveal_strlit("load_5");
    assert("load_5"@.len() == 6);
    reveal_strlit("total");
    assert("total"@.len() == 5);
    assert("load_1"@[5] == '1');
    assert("load_5"@[5] == '5');
    let s = loadavg_samples(loadavg);
    lemma_apply_samples_read_back(m, "loadavg"@, ""@, timestamp, s, 0);
    lemma_apply_samples_read_back(m, "loadavg"@, ""@, timestamp, s, 1);
    lemma_apply_samples_read_back(m, "loadavg"@, ""@, timestamp, s, 2);
    lemma_apply_samples_read_back(m, "loadavg"@, ""@, timestamp, s, 3);
    lemma_apply_samples_read_back(m, "loadavg"@, ""@, timestamp, s, 4);
    lemma_apply_samples_read_back(m, "loadavg"@, ""@, timestamp, s, 5);
}

/// A recorded loadavg reading stays recorded while its category is kept.
pub proof fn lemma_loadavg_recorded_kept(m1: Map<KeyView, Statistic>, m2: Map<KeyView, Statistic>, loadavg: LoadavgSample, timestamp: i64)
    requires
        keeps_category(m1, m2, "loadavg"@),
        loadavg_recorded(m1, loadavg, timestamp),
    ensures
        loadavg_recorded(m2, loadavg, timestamp),
{
}

/// Records the counters of `loadavg` under the `loadavg` category, taken at `timestamp`.
pub fn process_loadavg_data(loadavg: &LoadavgSample, timestamp: i64, statistics: &mut Statistics) -> (r: Result<(), ProcessorError>)
    requires
        old(statistics).wf(),
    ensures
        r is Ok,
        final(statistics).wf(),
        final(statistics)@ == apply_samples(old(statistics)@, "loadavg"@, ""@, timestamp, loadavg_samples(*loadavg)),
        loadavg_recorded(final(statistics)@, *loadavg, timestamp),
{
    proof {
        law_loadavg_read_back(old(statistics)@, *loadavg, timestamp);
    }
    let samples = loadavg_samples_exec(loadavg);
    add_samples_to_statistics("loadavg", "", timestamp, &samples, statistics);
    Ok(())
}

} // verus!
