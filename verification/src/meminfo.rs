//! The counters of `/proc/meminfo` (in kilobytes, or pages for the huge page counts).
use vstd::prelude::*;
use crate::statistics::{
    ProcessorError, Statistics, apply_samples, samples_view, add_samples_to_statistics, holds,
    lemma_apply_samples_read_back, KeyView, Statistic, keeps_category,
};

verus! {

/// One reading of `/proc/meminfo`.
#[derive(Clone, Copy, Debug, Default, PartialEq, Eq)]
pub struct MemInfoSample {
    pub memtotal: u64,
    pub memfree: u64,
    pub memavailable: u64,
    pub buffers: u64,
    pub cached: u64,
    pub swapcached: u64,
    pub active: u64,
    pub inactive: u64,
    pub active_anon: u64,
    pub inactive_anon: u64,
    pub active_file: u64,
    pub inactive_file: u64,
    pub unevictable: u64,
    pub mlocked: u64,
    pub swaptotal: u64,
    pub swapfree: u64,
    pub zswap: u64,
    pub zswapped: u64,
    pub dirty: u64,
    pub writeback: u64,
    pub anonpages: u64,
    pub mapped: u64,
    pub shmem: u64,
    pub kreclaimable: u64,
    pub slab: u64,
    pub sreclaimable: u64,
    pub sunreclaim: u64,
    pub kernelstack: u64,
    pub shadowcallstack: u64,
    pub pagetables: u64,
    pub secpagetables: u64,
    pub nfs_unstable: u64,
    pub bounce: u64,
    pub writebacktmp: u64,
    pub commitlimit: u64,
    pub committed_as: u64,
    pub vmalloctotal: u64,
    pub vmallocused: u64,
    pub vmallocchunk: u64,
    pub percpu: u64,
    pub hardwarecorrupted: u64,
    pub anonhugepages: u64,
    pub shmemhugepages: u64,
    pub shmempmdmapped: u64,
    pub filehugepages: u64,
    pub filepmdmapped: u64,
    pub cmatotal: u64,
    pub cmafree: u64,
    pub hugepages_total: u64,
    pub hugepages_free: u64,
    pub hugepages_rsvd: u64,
    pub hugepages_surp: u64,
    pub hugepagesize: u64,
    pub hugetlb: u64,
}

/// The named counters of a `MemInfoSample`, in the order in which they are recorded;
/// an absent counter counts as 0.
pub open spec fn meminfo_samples(meminfo: MemInfoSample) -> Seq<(Seq<char>, u64)> {
    seq![
        ("memtotal"@, meminfo.memtotal),
        ("memfree"@, meminfo.memfree),
        ("memavailable"@, meminfo.memavailable),
        ("buffers"@, meminfo.buffers),
        ("cached"@, meminfo.cached),
        ("swapcached"@, meminfo.swapcached),
        ("active"@, meminfo.active),
        ("inactive"@, meminfo.inactive),
        ("active_anon"@, meminfo.active_anon),
        ("inactive_anon"@, meminfo.inactive_anon),
        ("active_file"@, meminfo.active_file),
        ("inactive_file"@, meminfo.inactive_file),
        ("unevictable"@, meminfo.unevictable),
        ("mlocked"@, meminfo.mlocked),
        ("swaptotal"@, meminfo.swaptotal),
        ("swapfree"@, meminfo.swapfree),
        ("zswap"@, meminfo.zswap),
        ("zswapped"@, meminfo.zswapped),
        ("dirty"@, meminfo.dirty),
        ("writeback"@, meminfo.writeback),
        ("anonpages"@, meminfo.anonpages),
        ("mapped"@, meminfo.mapped),
        ("shmem"@, meminfo.shmem),
        ("kreclaimable"@, meminfo.kreclaimable),
        ("slab"@, meminfo.slab),
        ("sreclaimable"@, meminfo.sreclaimable),
        ("sunreclaim"@, meminfo.sunreclaim),
        ("kernelstack"@, meminfo.kernelstack),
        ("shadowcallstack"@, meminfo.shadowcallstack),
        ("pagetables"@, meminfo.pagetables),
        ("secpagetables"@, meminfo.secpagetables),
        ("nfs_unstable"@, meminfo.nfs_unstable),
        ("bounce"@, meminfo.bounce),
        ("writebacktmp"@, meminfo.writebacktmp),
        ("commitlimit"@, meminfo.commitlimit),
        ("committed_as"@, meminfo.committed_as),
        ("vmalloctotal"@, meminfo.vmalloctotal),
        ("vmallocused"@, meminfo.vmallocused),
        ("vmallocchunk"@, meminfo.vmallocchunk),
        ("percpu"@, meminfo.percpu),
        ("hardwarecorrupted"@, meminfo.hardwarecorrupted),
        ("anonhugepages"@, meminfo.anonhugepages),
        ("shmemhugepages"@, meminfo.shmemhugepages),
        ("shmempmdmapped"@, meminfo.shmempmdmapped),
        ("filehugepages"@, meminfo.filehugepages),
        ("filepmdmapped"@, meminfo.filepmdmapped),
        ("cmatotal"@, meminfo.cmatotal),
        ("cmafree"@, meminfo.cmafree),
        ("hugepages_total"@, meminfo.hugepages_total),
        ("hugepages_free"@, meminfo.hugepages_free),
        ("hugepages_rsvd"@, meminfo.hugepages_rsvd),
        ("hugepages_surp"@, meminfo.hugepages_surp),
        ("hugepagesize"@, meminfo.hugepagesize),
        ("hugetlb"@, meminfo.hugetlb),
    ]
}

fn meminfo_samples_exec(meminfo: &MemInfoSample) -> (r: Vec<(String, u64)>)
    ensures
        samples_view(r@) == meminfo_samples(*meminfo),
{
    let mut r: Vec<(String, u64)> = Vec::new();
    r.push(("memtotal".to_owned(), meminfo.memtotal));
    r.push(("memfree".to_owned(), meminfo.memfree));
    r.push(("memavailable".to_owned(), meminfo.memavailable));
    r.push(("buffers".to_owned(), meminfo.buffers));
    r.push(("cached".to_owned(), meminfo.cached));
    r.push(("swapcached".to_owned(), meminfo.swapcached));
    r.push(("active".to_owned(), meminfo.active));
    r.push(("inactive".to_owned(), meminfo.inactive));
    r.push(("active_anon".to_owned(), meminfo.active_anon));
    r.push(("inactive_anon".to_owned(), meminfo.inactive_anon));
    r.push(("active_file".to_owned(), meminfo.active_file));
    r.push(("inactive_file".to_owned(), meminfo.inactive_file));
    r.push(("unevictable".to_owned(), meminfo.unevictable));
    r.push(("mlocked".to_owned(), meminfo.mlocked));
    r.push(("swaptotal".to_owned(), meminfo.swaptotal));
    r.push(("swapfree".to_owned(), meminfo.swapfree));
    r.push(("zswap".to_owned(), meminfo.zswap));
    r.push(("zswapped".to_owned(), meminfo.zswapped));
    r.push(("dirty".to_owned(), meminfo.dirty));
    r.push(("writeback".to_owned(), meminfo.writeback));
    r.push(("anonpages".to_owned(), meminfo.anonpages));
    r.push(("mapped".to_owned(), meminfo.mapped));
    r.push(("shmem".to_owned(), meminfo.shmem));
    r.push(("kreclaimable".to_owned(), meminfo.kreclaimable));
    r.push(("slab".to_owned(), meminfo.slab));
    r.push(("sreclaimable".to_owned(), meminfo.sreclaimable));
    r.push(("sunreclaim".to_owned(), meminfo.sunreclaim));
    r.push(("kernelstack".to_owned(), meminfo.kernelstack));
    r.push(("shadowcallstack".to_owned(), meminfo.shadowcallstack));
    r.push(("pagetables".to_owned(), meminfo.pagetables));
    r.push(("secpagetables".to_owned(), meminfo.secpagetables));
    r.push(("nfs_unstable".to_owned(), meminfo.nfs_unstable));
    r.push(("bounce".to_owned(), meminfo.bounce));
    r.push(("writebacktmp".to_owned(), meminfo.writebacktmp));
    r.push(("commitlimit".to_owned(), meminfo.commitlimit));
    r.push(("committed_as".to_owned(), meminfo.committed_as));
    r.push(("vmalloctotal".to_owned(), meminfo.vmalloctotal));
    r.push(("vmallocused".to_owned(), meminfo.vmallocused));
    r.push(("vmallocchunk".to_owned(), meminfo.vmallocchunk));
    r.push(("percpu".to_owned(), meminfo.percpu));
    r.push(("hardwarecorrupted".to_owned(), meminfo.hardwarecorrupted));
    r.push(("anonhugepages".to_owned(), meminfo.anonhugepages));
    r.push(("shmemhugepages".to_owned(), meminfo.shmemhugepages));
    r.push(("shmempmdmapped".to_owned(), meminfo.shmempmdmapped));
    r.push(("filehugepages".to_owned(), meminfo.filehugepages));
    r.push(("filepmdmapped".to_owned(), meminfo.filepmdmapped));
    r.push(("cmatotal".to_owned(), meminfo.cmatotal));
    r.push(("cmafree".to_owned(), meminfo.cmafree));
    r.push(("hugepages_total".to_owned(), meminfo.hugepages_total));
    r.push(("hugepages_free".to_owned(), meminfo.hugepages_free));
    r.push(("hugepages_rsvd".to_owned(), meminfo.hugepages_rsvd));
    r.push(("hugepages_surp".to_owned(), meminfo.hugepages_surp));
    r.push(("hugepagesize".to_owned(), meminfo.hugepagesize));
    r.push(("hugetlb".to_owned(), meminfo.hugetlb));
    assert(samples_view(r@) =~= meminfo_samples(*meminfo));
    r
}

/// After a reading of `/proc/meminfo` is recorded, each of its counters is held under
/// ("meminfo", "", its name) with the reading's value and time.
pub open spec fn meminfo_recorded(m: Map<KeyView, Statistic>, meminfo: MemInfoSample, timestamp: i64) -> bool {
    &&& holds(m, ("meminfo"@, ""@, "memtotal"@), meminfo.memtotal, timestamp)
    &&& holds(m, ("meminfo"@, ""@, "memfree"@), meminfo.memfree, timestamp)
    &&& holds(m, ("meminfo"@, ""@, "memavailable"@), meminfo.memavailable, timestamp)
    &&& holds(m, ("meminfo"@, ""@, "buffers"@), meminfo.buffers, timestamp)
    &&& holds(m, ("meminfo"@, ""@, "cached"@), meminfo.cached, timestamp)
    &&& holds(m, ("meminfo"@, ""@, "swapcached"@), meminfo.swapcached, timestamp)
    &&& holds(m, ("meminfo"@, ""@, "active"@), meminfo.active, timestamp)
    &&& holds(m, ("meminfo"@, ""@, "inactive"@), meminfo.inactive, timestamp)
    &&& holds(m, ("meminfo"@, ""@, "active_anon"@), meminfo.active_anon, timestamp)
    &&& holds(m, ("meminfo"@, ""@, "inactive_anon"@), meminfo.inactive_anon, timestamp)
    &&& holds(m, ("meminfo"@, ""@, "active_file"@), meminfo.active_file, timestamp)
    &&& holds(m, ("meminfo"@, ""@, "inactive_file"@), meminfo.inactive_file, timestamp)
    &&& holds(m, ("meminfo"@, ""@, "unevictable"@), meminfo.unevictable, timestamp)
    &&& holds(m, ("meminfo"@, ""@, "mlocked"@), meminfo.mlocked, timestamp)
    &&& holds(m, ("meminfo"@, ""@, "swaptotal"@), meminfo.swaptotal, timestamp)
    &&& holds(m, ("meminfo"@, ""@, "swapfree"@), meminfo.swapfree, timestamp)
    &&& holds(m, ("meminfo"@, ""@, "zswap"@), meminfo.zswap, timestamp)
    &&& holds(m, ("meminfo"@, ""@, "zswapped"@), meminfo.zswapped, timestamp)
    &&& holds(m, ("meminfo"@, ""@, "dirty"@), meminfo.dirty, timestamp)
    &&& holds(m, ("meminfo"@, ""@, "writeback"@), meminfo.writeback, timestamp)
    &&& holds(m, ("meminfo"@, ""@, "anonpages"@), meminfo.anonpages, timestamp)
    &&& holds(m, ("meminfo"@, ""@, "mapped"@), meminfo.mapped, timestamp)
    &&& holds(m, ("meminfo"@, ""@, "shmem"@), meminfo.shmem, timestamp)
    &&& holds(m, ("meminfo"@, ""@, "kreclaimable"@), meminfo.kreclaimable, timestamp)
    &&& holds(m, ("meminfo"@, ""@, "slab"@), meminfo.slab, timestamp)
    &&& holds(m, ("meminfo"@, ""@, "sreclaimable"@), meminfo.sreclaimable, timestamp)
    &&& holds(m, ("meminfo"@, ""@, "sunreclaim"@), meminfo.sunreclaim, timestamp)
    &&& holds(m, ("meminfo"@, ""@, "kernelstack"@), meminfo.kernelstack, timestamp)
    &&& holds(m, ("meminfo"@, ""@, "shadowcallstack"@), meminfo.shadowcallstack, timestamp)
    &&& holds(m, ("meminfo"@, ""@, "pagetables"@), meminfo.pagetables, timestamp)
    &&& holds(m, ("meminfo"@, ""@, "secpagetables"@), meminfo.secpagetables, timestamp)
    &&& holds(m, ("meminfo"@, ""@, "nfs_unstable"@), meminfo.nfs_unstable, timestamp)
    &&& holds(m, ("meminfo"@, ""@, "bounce"@), meminfo.bounce, timestamp)
    &&& holds(m, ("meminfo"@, ""@, "writebacktmp"@), meminfo.writebacktmp, timestamp)
    &&& holds(m, ("meminfo"@, ""@, "commitlimit"@), meminfo.commitlimit, timestamp)
    &&& holds(m, ("meminfo"@, ""@, "committed_as"@), meminfo.committed_as, timestamp)
    &&& holds(m, ("meminfo"@, ""@, "vmalloctotal"@), meminfo.vmalloctotal, timestamp)
    &&& holds(m, ("meminfo"@, ""@, "vmallocused"@), meminfo.vmallocused, timestamp)
    &&& holds(m, ("meminfo"@, ""@, "vmallocchunk"@), meminfo.vmallocchunk, timestamp)
    &&& holds(m, ("meminfo"@, ""@, "percpu"@), meminfo.percpu, timestamp)
    &&& holds(m, ("meminfo"@, ""@, "hardwarecorrupted"@), meminfo.hardwarecorrupted, timestamp)
    &&& holds(m, ("meminfo"@, ""@, "anonhugepages"@), meminfo.anonhugepages, timestamp)
    &&& holds(m, ("meminfo"@, ""@, "shmemhugepages"@), meminfo.shmemhugepages, timestamp)
    &&& holds(m, ("meminfo"@, ""@, "shmempmdmapped"@), meminfo.shmempmdmapped, timestamp)
    &&& holds(m, ("meminfo"@, ""@, "filehugepages"@), meminfo.filehugepages, timestamp)
    &&& holds(m, ("meminfo"@, ""@, "filepmdmapped"@), meminfo.filepmdmapped, timestamp)
    &&& holds(m, ("meminfo"@, ""@, "cmatotal"@), meminfo.cmatotal, timestamp)
    &&& holds(m, ("meminfo"@, ""@, "cmafree"@), meminfo.cmafree, timestamp)
    &&& holds(m, ("meminfo"@, ""@, "hugepages_total"@), meminfo.hugepages_total, timestamp)
    &&& holds(m, ("meminfo"@, ""@, "hugepages_free"@), meminfo.hugepages_free, timestamp)
    &&& holds(m, ("meminfo"@, ""@, "hugepages_rsvd"@), meminfo.hugepages_rsvd, timestamp)
    &&& holds(m, ("meminfo"@, ""@, "hugepages_surp"@), meminfo.hugepages_surp, timestamp)
    &&& holds(m, ("meminfo"@, ""@, "hugepagesize"@), meminfo.hugepagesize, timestamp)
    &&& holds(m, ("meminfo"@, ""@, "hugetlb"@), meminfo.hugetlb, timestamp)
}

/// Recording a reading of `/proc/meminfo` stores every counter under its own name, with the
/// reading's value and time.
pub proof fn law_meminfo_read_back(m: Map<KeyView, Statistic>, meminfo: MemInfoSample, timestamp: i64)
    ensures
        meminfo_recorded(apply_samples(m, "meminfo"@, ""@, timestamp, meminfo_samples(meminfo)), meminfo, timestamp),
{
    reveal_strlit("active");
    assert("active"@.len() == 6);
    reveal_strlit("active_anon");
    assert("active_anon"@.len() == 11);
    reveal_strlit("active_file");
    assert("active_file"@.len() == 11);
    reveal_strlit("anonhugepages");
    assert("anonhugepages"@.len() == 13);
    reveal_strlit("anonpages");
    assert("anonpages"@.len() == 9);
    reveal_strlit("bounce");
    assert("bounce"@.len() == 6);
    reveal_strlit("buffers");
    assert("buffers"@.len() == 7);
    reveal_strlit("cached");
    assert("cached"@.len() == 6);
    reveal_strlit("cmafree");
    assert("cmafree"@.len() == 7);
    reveal_strlit("cmatotal");
    assert("cmatotal"@.len() == 8);
    reveal_strlit("commitlimit");
    assert("commitlimit"@.len() == 11);
    reveal_strlit("committed_as");
    assert("committed_as"@.len() == 12);
    reveal_strlit("dirty");
    assert("dirty"@.len() == 5);
    reveal_strlit("filehugepages");
    assert("filehugepages"@.len() == 13);
    reveal_strlit("filepmdmapped");
    assert("filepmdmapped"@.len() == 13);
    reveal_strlit("hardwarecorrupted");
    assert("hardwarecorrupted"@.len() == 17);
    reveal_strlit("hugepages_free");
    assert("hugepages_free"@.len() == 14);
    reveal_strlit("hugepages_rsvd");
    assert("hugepages_rsvd"@.len() == 14);
    reveal_strlit("hugepages_surp");
    assert("hugepages_surp"@.len() == 14);
    reveal_strlit("hugepages_total");
    assert("hugepages_total"@.len() == 15);
    reveal_strlit("hugepagesize");
    assert("hugepagesize"@.len() == 12);
    reveal_strlit("hugetlb");
    assert("hugetlb"@.len() == 7);
    reveal_strlit("inactive");
    assert("inactive"@.len() == 8);
    reveal_strlit("inactive_anon");
    assert("inactive_anon"@.len() == 13);
    reveal_strlit("inactive_file");
    assert("inactive_file"@.len() == 13);
    reveal_strlit("kernelstack");
    assert("kernelstack"@.len() == 11);
    reveal_strlit("kreclaimable");
    assert("kreclaimable"@.len() == 12);
    reveal_strlit("mapped");
    assert("mapped"@.len() == 6);
    reveal_strlit("memavailable");
    assert("memavailable"@.len() == 12);
    reveal_strlit("memfree");
    assert("memfree"@.len() == 7);
    reveal_strlit("memtotal");
    assert("memtotal"@.len() == 8);
    reveal_strlit("mlocked");
    assert("mlocked"@.len() == 7);
    reveal_strlit("nfs_unstable");
    assert("nfs_unstable"@.len() == 12);
    reveal_strlit("pagetables");
    assert("pagetables"@.len() == 10);
    reveal_strlit("percpu");
    assert("percpu"@.len() == 6);
    reveal_strlit("secpagetables");
    assert("secpagetables"@.len() == 13);
    reveal_strlit("shadowcallstack");
    assert("shadowcallstack"@.len() == 15);
    reveal_strlit("shmem");
    assert("shmem"@.len() == 5);
    reveal_strlit("shmemhugepages");
    assert("shmemhugepages"@.len() == 14);
    reveal_strlit("shmempmdmapped");
    assert("shmempmdmapped"@.len() == 14);
    reveal_strlit("slab");
    assert("slab"@.len() == 4);
    reveal_strlit("sreclaimable");
    assert("sreclaimable"@.len() == 12);
    reveal_strlit("sunreclaim");
    assert("sunreclaim"@.len() == 10);
    reveal_strlit("swapcached");
    assert("swapcached"@.len() == 10);
    reveal_strlit("swapfree");
    assert("swapfree"@.len() == 8);
    reveal_strlit("swaptotal");
    assert("swaptotal"@.len() == 9);
    reveal_strlit("unevictable");
    assert("unevictable"@.len() == 11);
    reveal_strlit("vmallocchunk");
    assert("vmallocchunk"@.len() == 12);
    reveal_strlit("vmalloctotal");
    assert("vmalloctotal"@.len() == 12);
    reveal_strlit("vmallocused");
    assert("vmallocused"@.len() == 11);
    reveal_strlit("writeback");
    assert("writeback"@.len() == 9);
    reveal_strlit("writebacktmp");
    assert("writebacktmp"@.len() == 12);
    reveal_strlit("zswap");
    assert("zswap"@.len() == 5);
    reveal_strlit("zswapped");
    assert("zswapped"@.len() == 8);
    assert("active"@[0] == 'a');
    assert("bounce"@[0] == 'b');
    assert("cached"@[0] == 'c');
    assert("mapped"@[0] == 'm');
    assert("percpu"@[0] == 'p');
    assert("active_anon"@[0] == 'a');
    assert("active_anon"@[7] == 'a');
    assert("active_file"@[0] == 'a');
    assert("active_file"@[7] == 'f');
    assert("commitlimit"@[0] == 'c');
    assert("kernelstack"@[0] == 'k');
    assert("unevictable"@[0] == 'u');
    assert("vmallocused"@[0] == 'v');
    assert("anonhugepages"@[0] == 'a');
    assert("filehugepages"@[0] == 'f');
    assert("filehugepages"@[4] == 'h');
    assert("filepmdmapped"@[0] == 'f');
    assert("filepmdmapped"@[4] == 'p');
    assert("inactive_anon"@[0] == 'i');
    assert("inactive_anon"@[9] == 'a');
    assert("inactive_file"@[0] == 'i');
    assert("inactive_file"@[9] == 'f');
    assert("secpagetables"@[0] == 's');
    assert("anonpages"@[0] == 'a');
    assert("swaptotal"@[0] == 's');
    assert("writeback"@[0] == 'w');
    assert("buffers"@[0] == 'b');
    assert("cmafree"@[0] == 'c');
    assert("hugetlb"@[0] == 'h');
    assert("memfree"@[0] == 'm');
    assert("memfree"@[1] == 'e');
    assert("mlocked"@[0] == 'm');
    assert("mlocked"@[1] == 'l');
    assert("cmatotal"@[0] == 'c');
    assert("inactive"@[0] == 'i');
    assert("memtotal"@[0] == 'm');
    assert("swapfree"@[0] == 's');
    assert("zswapped"@[0] == 'z');
    assert("committed_as"@[0] == 'c');
    assert("hugepagesize"@[0] == 'h');
    assert("kreclaimable"@[0] == 'k');
    assert("memavailable"@[0] == 'm');
    assert("nfs_unstable"@[0] == 'n');
    assert("sreclaimable"@[0] == 's');
    assert("vmallocchunk"@[0] == 'v');
    assert("vmallocchunk"@[7] == 'c');
    assert("vmalloctotal"@[0] == 'v');
    assert("vmalloctotal"@[7] == 't');
    assert("writebacktmp"@[0] == 'w');
    assert("dirty"@[0] == 'd');
    assert("shmem"@[0] == 's');
    assert("zswap"@[0] == 'z');
    assert("hugepages_free"@[0] == 'h');
    assert("hugepages_free"@[10] == 'f');
    assert("hugepages_rsvd"@[0] == 'h');
    assert("hugepages_rsvd"@[10] == 'r');
    assert("hugepages_surp"@[0] == 'h');
    assert("hugepages_surp"@[10] == 's');
    assert("shmemhugepages"@[0] == 's');
    assert("shmemhugepages"@[5] == 'h');
    assert("shmempmdmapped"@[0] == 's');
    assert("shmempmdmapped"@[5] == 'p');
    assert("hugepages_total"@[0] == 'h');
    assert("shadowcallstack"@[0] == 's');
    assert("pagetables"@[0] == 'p');
    assert("sunreclaim"@[0] == 's');
    assert("sunreclaim"@[1] == 'u');
    assert("swapcached"@[0] == 's');
    assert("swapcached"@[1] == 'w');
    let s = meminfo_samples(meminfo);
    lemma_apply_samples_read_back(m, "meminfo"@, ""@, timestamp, s, 0);
    lemma_apply_samples_read_back(m, "meminfo"@, ""@, timestamp, s, 1);
    lemma_apply_samples_read_back(m, "meminfo"@, ""@, timestamp, s, 2);
    lemma_apply_samples_read_back(m, "meminfo"@, ""@, timestamp, s, 3);
    lemma_apply_samples_read_back(m, "meminfo"@, ""@, timestamp, s, 4);
    lemma_apply_samples_read_back(m, "meminfo"@, ""@, timestamp, s, 5);
    lemma_apply_samples_read_back(m, "meminfo"@, ""@, timestamp, s, 6);
    lemma_apply_samples_read_back(m, "meminfo"@, ""@, timestamp, s, 7);
    lemma_apply_samples_read_back(m, "meminfo"@, ""@, timestamp, s, 8);
    lemma_apply_samples_read_back(m, "meminfo"@, ""@, timestamp, s, 9);
    lemma_apply_samples_read_back(m, "meminfo"@, ""@, timestamp, s, 10);
    lemma_apply_samples_read_back(m, "meminfo"@, ""@, timestamp, s, 11);
    lemma_apply_samples_read_back(m, "meminfo"@, ""@, timestamp, s, 12);
    lemma_apply_samples_read_back(m, "meminfo"@, ""@, timestamp, s, 13);
    lemma_apply_samples_read_back(m, "meminfo"@, ""@, timestamp, s, 14);
    lemma_apply_samples_read_back(m, "meminfo"@, ""@, timestamp, s, 15);
    lemma_apply_samples_read_back(m, "meminfo"@, ""@, timestamp, s, 16);
    lemma_apply_samples_read_back(m, "meminfo"@, ""@, timestamp, s, 17);
    lemma_apply_samples_read_back(m, "meminfo"@, ""@, timestamp, s, 18);
    lemma_apply_samples_read_back(m, "meminfo"@, ""@, timestamp, s, 19);
    lemma_apply_samples_read_back(m, "meminfo"@, ""@, timestamp, s, 20);
    lemma_apply_samples_read_back(m, "meminfo"@, ""@, timestamp, s, 21);
    lemma_apply_samples_read_back(m, "meminfo"@, ""@, timestamp, s, 22);
    lemma_apply_samples_read_back(m, "meminfo"@, ""@, timestamp, s, 23);
    lemma_apply_samples_read_back(m, "meminfo"@, ""@, timestamp, s, 24);
    lemma_apply_samples_read_back(m, "meminfo"@, ""@, timestamp, s, 25);
    lemma_apply_samples_read_back(m, "meminfo"@, ""@, timestamp, s, 26);
    lemma_apply_samples_read_back(m, "meminfo"@, ""@, timestamp, s, 27);
    lemma_apply_samples_read_back(m, "meminfo"@, ""@, timestamp, s, 28);
    lemma_apply_samples_read_back(m, "meminfo"@, ""@, timestamp, s, 29);
    lemma_apply_samples_read_back(m, "meminfo"@, ""@, timestamp, s, 30);
    lemma_apply_samples_read_back(m, "meminfo"@, ""@, timestamp, s, 31);
    lemma_apply_samples_read_back(m, "meminfo"@, ""@, timestamp, s, 32);
    lemma_apply_samples_read_back(m, "meminfo"@, ""@, timestamp, s, 33);
    lemma_apply_samples_read_back(m, "meminfo"@, ""@, timestamp, s, 34);
    lemma_apply_samples_read_back(m, "meminfo"@, ""@, timestamp, s, 35);
    lemma_apply_samples_read_back(m, "meminfo"@, ""@, timestamp, s, 36);
    lemma_apply_samples_read_back(m, "meminfo"@, ""@, timestamp, s, 37);
    lemma_apply_samples_read_back(m, "meminfo"@, ""@, timestamp, s, 38);
    lemma_apply_samples_read_back(m, "meminfo"@, ""@, timestamp, s, 39);
    lemma_apply_samples_read_back(m, "meminfo"@, ""@, timestamp, s, 40);
    lemma_apply_samples_read_back(m, "meminfo"@, ""@, timestamp, s, 41);
    lemma_apply_samples_read_back(m, "meminfo"@, ""@, timestamp, s, 42);
    lemma_apply_samples_read_back(m, "meminfo"@, ""@, timestamp, s, 43);
    lemma_apply_samples_read_back(m, "meminfo"@, ""@, timestamp, s, 44);
    lemma_apply_samples_read_back(m, "meminfo"@, ""@, timestamp, s, 45);
    lemma_apply_samples_read_back(m, "meminfo"@, ""@, timestamp, s, 46);
    lemma_apply_samples_read_back(m, "meminfo"@, ""@, timestamp, s, 47);
    lemma_apply_samples_read_back(m, "meminfo"@, ""@, timestamp, s, 48);
    lemma_apply_samples_read_back(m, "meminfo"@, ""@, timestamp, s, 49);
    lemma_apply_samples_read_back(m, "meminfo"@, ""@, timestamp, s, 50);
    lemma_apply_samples_read_back(m, "meminfo"@, ""@, timestamp, s, 51);
    lemma_apply_samples_read_back(m, "meminfo"@, ""@, timestamp, s, 52);
    lemma_apply_samples_read_back(m, "meminfo"@, ""@, timestamp, s, 53);
}

/// A recorded meminfo reading stays recorded while its category is kept.
pub proof fn lemma_meminfo_recorded_kept(m1: Map<KeyView, Statistic>, m2: Map<KeyView, Statistic>, meminfo: MemInfoSample, timestamp: i64)
    requires
        keeps_category(m1, m2, "meminfo"@),
        meminfo_recorded(m1, meminfo, timestamp),
    ensures
        meminfo_recorded(m2, meminfo, timestamp),
{
}

/// Records the counters of `meminfo` under the `meminfo` category, taken at `timestamp`.
pub fn process_meminfo_data(meminfo: &MemInfoSample, timestamp: i64, statistics: &mut Statistics) -> (r: Result<(), ProcessorError>)
    requires
        old(statistics).wf(),
    ensures
        r is Ok,
        final(statistics).wf(),
        final(statistics)@ == apply_samples(old(statistics)@, "meminfo"@, ""@, timestamp, meminfo_samples(*meminfo)),
        meminfo_recorded(final(statistics)@, *meminfo, timestamp),
{
    proof {
        law_meminfo_read_back(old(statistics)@, *meminfo, timestamp);
    }
    let samples = meminfo_samples_exec(meminfo);
    add_samples_to_statistics("meminfo", "", timestamp, &samples, statistics);
    Ok(())
}

} // verus!
