//! The XFS counters of `/proc/fs/xfs/stat`; all absent where no XFS is in use.
use vstd::prelude::*;
use crate::statistics::{
    ProcessorError, Statistics, apply_samples, samples_view, add_samples_to_statistics, holds,
    lemma_apply_samples_read_back, KeyView, Statistic, keeps_category,
};

verus! {

/// One reading of `/proc/fs/xfs/stat`.
#[derive(Clone, Copy, Debug, Default, PartialEq, Eq)]
pub struct XfsSample {
    pub xs_write_calls: Option<u64>,
    pub xs_read_calls: Option<u64>,
    pub xs_write_bytes: Option<u64>,
    pub xs_read_bytes: Option<u64>,
}

/// The named counters of a `XfsSample`, in the order in which they are recorded;
/// an absent counter counts as 0.
pub open spec fn xfs_samples(xfs: XfsSample) -> Seq<(Seq<char>, u64)> {
    seq![
        ("xs_write_calls"@, xfs.xs_write_calls.unwrap_or(0)),
        ("xs_read_calls"@, xfs.xs_read_calls.unwrap_or(0)),
        ("xs_write_bytes"@, xfs.xs_write_bytes.unwrap_or(0)),
        ("xs_read_bytes"@, xfs.xs_read_bytes.unwrap_or(0)),
    ]
}

fn xfs_samples_exec(xfs: &XfsSample) -> (r: Vec<(String, u64)>)
    ensures
        samples_view(r@) == xfs_samples(*xfs),
{
    let mut r: Vec<(String, u64)> = Vec::new();
    r.push(("xs_write_calls".to_owned(), xfs.xs_write_calls.unwrap_or(0)));
    r.push(("xs_read_calls".to_owned(), xfs.xs_read_calls.unwrap_or(0)));
    r.push(("xs_write_bytes".to_owned(), xfs.xs_write_bytes.unwrap_or(0)));
    r.push(("xs_read_bytes".to_owned(), xfs.xs_read_bytes.unwrap_or(0)));
    assert(samples_view(r@) =~= xfs_samples(*xfs));
    r
}

/// After a reading of `/proc/fs/xfs/stat` is recorded, each of its counters is held under
/// ("xfs", "", its name) with the reading's value and time.
pub open spec fn xfs_recorded(m: Map<KeyView, Statistic>, xfs: XfsSample, timestamp: i64) -> bool {
    &&& holds(m, ("xfs"@, ""@, "xs_write_calls"@), xfs.xs_write_calls.unwrap_or(0), timestamp)
    &&& holds(m, ("xfs"@, ""@, "xs_read_calls"@), xfs.xs_read_calls.unwrap_or(0), timestamp)
    &&& holds(m, ("xfs"@, ""@, "xs_write_bytes"@), xfs.xs_write_bytes.unwrap_or(0), timestamp)
    &&& holds(m, ("xfs"@, ""@, "xs_read_bytes"@), xfs.xs_read_bytes.unwrap_or(0), timestamp)
}

/// Recording a reading of `/proc/fs/xfs/stat` stores every counter under its own name, with the
/// reading's value and time.
pub proof fn law_xfs_read_back(m: Map<KeyView, Statistic>, xfs: XfsSample, timestamp: i64)
    ensures
        xfs_recorded(apply_samples(m, "xfs"@, ""@, timestamp, xfs_samples(xfs)), xfs, timestamp),
{
    reveal_strlit("xs_read_bytes");
    assert("xs_read_bytes"@.len() == 13);
    reveal_strlit("xs_read_calls");
    assert("xs_read_calls"@.len() == 13);
    reveal_strlit("xs_write_bytes");
    assert("xs_write_bytes"@.len() == 14);
    reveal_strlit("xs_write_calls");
    assert("xs_write_calls"@.len() == 14);
    assert("xs_read_bytes"@[8] == 'b');
    assert("xs_read_calls"@[8] == 'c');
    assert("xs_write_bytes"@[9] == 'b');
    assert("xs_write_calls"@[9] == 'c');
    let s = xfs_samples(xfs);
    lemma_apply_samples_read_back(m, "xfs"@, ""@, timestamp, s, 0);
    lemma_apply_samples_read_back(m, "xfs"@, ""@, timestamp, s, 1);
    lemma_apply_samples_read_back(m, "xfs"@, ""@, timestamp, s, 2);
    lemma_apply_samples_read_back(m, "xfs"@, ""@, timestamp, s, 3);
}

/// A recorded xfs reading stays recorded while its category is kept.
pub proof fn lemma_xfs_recorded_kept(m1: Map<KeyView, Statistic>, m2: Map<KeyView, Statistic>, xfs: XfsSample, timestamp: i64)
    requires
        keeps_category(m1, m2, "xfs"@),
        xfs_recorded(m1, xfs, timestamp),
    ensures
        xfs_recorded(m2, xfs, timestamp),
{
}

/// Records the counters of `xfs` under the `xfs` category, taken at `timestamp`.
pub fn process_xfs_data(xfs: &XfsSample, timestamp: i64, statistics: &mut Statistics) -> (r: Result<(), ProcessorError>)
    requires
        old(statistics).wf(),
    ensures
        r is Ok,
        final(statistics).wf(),
        final(statistics)@ == apply_samples(old(statistics)@, "xfs"@, ""@, timestamp, xfs_samples(*xfs)),
        xfs_recorded(final(statistics)@, *xfs, timestamp),
{
    proof {
        law_xfs_read_back(old(statistics)@, *xfs, timestamp);
    }
    let samples = xfs_samples_exec(xfs);
    add_samples_to_statistics("xfs", "", timestamp, &samples, statistics);
    Ok(())
}

} // verus!
