//! The counters of `/proc/vmstat` that are recorded.
use vstd::prelude::*;
use crate::statistics::{
    ProcessorError, Statistics, apply_samples, samples_view, add_samples_to_statistics, holds,
    lemma_apply_samples_read_back, KeyView, Statistic,
    keeps_category,
};

verus! {

/// One reading of `/proc/vmstat`; the later counters are absent on older kernels.
#[derive(Clone, Copy, Debug, Default, PartialEq, Eq)]
pub struct VmStatSample {
    pub nr_free_pages: u64,
    pub nr_zone_inactive_anon: u64,
    pub nr_zone_active_anon: u64,
    pub nr_zone_inactive_file: u64,
    pub nr_zone_active_file: u64,
    pub nr_zone_unevictable: u64,
    pub nr_zone_write_pending: u64,
    pub nr_mlock: u64,
    pub nr_bounce: u64,
    pub nr_zspages: u64,
    pub nr_free_cma: u64,
    pub numa_hit: u64,
    pub numa_miss: u64,
    pub numa_foreign: u64,
    pub numa_interleave: u64,
    pub numa_local: u64,
    pub numa_other: u64,
    pub nr_inactive_anon: u64,
    pub nr_active_anon: u64,
    pub nr_active_file: u64,
    pub nr_inactive_file: u64,
    pub nr_unevictable: u64,
    pub nr_slab_reclaimable: u64,
    pub nr_slab_unreclaimable: u64,
    pub nr_isolated_anon: u64,
    pub nr_isolated_file: u64,
    pub workingset_nodereclaim: u64,
    pub nr_anon_pages: u64,
    pub nr_mapped: u64,
    pub nr_file_pages: u64,
    pub nr_dirty: u64,
    pub nr_writeback: u64,
    pub nr_writeback_temp: u64,
    pub nr_shmem: u64,
    pub nr_shmem_hugepages: u64,
    pub nr_shmem_pmdmapped: u64,
    pub nr_anon_transparent_hugepages: u64,
    pub nr_vmscan_write: u64,
    pub nr_vmscan_immediate_reclaim: u64,
    pub nr_dirtied: u64,
    pub nr_written: u64,
    pub nr_kernel_stack: u64,
    pub nr_page_table_pages: u64,
    pub nr_dirty_threshold: u64,
    pub nr_dirty_background_threshold: u64,
    pub pgpgin: u64,
    pub pgpgout: u64,
    pub pswpin: u64,
    pub pswpout: u64,
    pub pgalloc_dma: u64,
    pub pgalloc_dma32: u64,
    pub pgalloc_normal: u64,
    pub pgalloc_movable: u64,
    pub allocstall_dma: u64,
    pub allocstall_dma32: u64,
    pub allocstall_normal: u64,
    pub allocstall_movable: u64,
    pub pgskip_dma: u64,
    pub pgskip_dma32: u64,
    pub pgskip_normal: u64,
    pub pgskip_movable: u64,
    pub pgfree: u64,
    pub pgactivate: u64,
    pub pgdeactivate: u64,
    pub pglazyfree: u64,
    pub pglazyfreed: u64,
    pub pgrefill: u64,
    pub pgfault: u64,
    pub pgmajfault: u64,
    pub pgsteal_kswapd: u64,
    pub pgsteal_direct: u64,
    pub pgscan_kswapd: u64,
    pub pgscan_direct: u64,
    pub pgscan_direct_throttle: u64,
    pub zone_reclaim_failed: u64,
    pub pginodesteal: u64,
    pub kswapd_inodesteal: u64,
    pub kswapd_low_wmark_hit_quickly: u64,
    pub kswapd_high_wmark_hit_quickly: u64,
    pub pageoutrun: u64,
    pub pgrotated: u64,
    pub drop_pagecache: u64,
    pub drop_slab: u64,
    pub oom_kill: u64,
    pub numa_pte_updates: u64,
    pub numa_huge_pte_updates: u64,
    pub numa_hint_faults: u64,
    pub numa_hint_faults_local: u64,
    pub numa_pages_migrated: u64,
    pub pgmigrate_success: u64,
    pub pgmigrate_fail: u64,
    pub compact_migrate_scanned: u64,
    pub compact_free_scanned: u64,
    pub compact_isolated: u64,
    pub compact_stall: u64,
    pub compact_fail: u64,
    pub compact_success: u64,
    pub compact_daemon_wake: u64,
    pub compact_daemon_migrate_scanned: u64,
    pub compact_daemon_free_scanned: u64,
    pub htlb_buddy_alloc_success: u64,
    pub htlb_buddy_alloc_fail: u64,
    pub unevictable_pgs_culled: u64,
    pub unevictable_pgs_scanned: u64,
    pub unevictable_pgs_rescued: u64,
    pub unevictable_pgs_mlocked: u64,
    pub unevictable_pgs_munlocked: u64,
    pub unevictable_pgs_cleared: u64,
    pub unevictable_pgs_stranded: u64,
    pub thp_fault_alloc: u64,
    pub thp_fault_fallback: u64,
    pub thp_collapse_alloc: u64,
    pub thp_collapse_alloc_failed: u64,
    pub thp_file_alloc: u64,
    pub thp_file_mapped: u64,
    pub thp_split_page: u64,
    pub thp_split_page_failed: u64,
    pub thp_deferred_split_page: u64,
    pub thp_split_pmd: u64,
    pub thp_zero_page_alloc: u64,
    pub thp_zero_page_alloc_failed: u64,
    pub thp_swpout: u64,
    pub thp_swpout_fallback: u64,
    pub balloon_inflate: u64,
    pub balloon_deflate: u64,
    pub balloon_migrate: u64,
    pub swap_ra: u64,
    pub swap_ra_hit: u64,
    pub nr_unstable: u64,
    pub workingset_nodes: Option<u64>,
    pub workingset_restore_anon: Option<u64>,
    pub workingset_refault_file: Option<u64>,
    pub workingset_activate_anon: Option<u64>,
    pub workingset_activate_file: Option<u64>,
    pub workingset_restore_file: Option<u64>,
    pub nr_file_hugepages: Option<u64>,
    pub nr_file_pmdmapped: Option<u64>,
    pub nr_throttled_written: Option<u64>,
    pub nr_kernel_misc_reclaimable: Option<u64>,
    pub nr_foll_pin_acquired: Option<u64>,
    pub nr_foll_pin_released: Option<u64>,
    pub nr_shadow_call_stack: Option<u64>,
    pub nr_sec_page_table_pages: Option<u64>,
    pub nr_swapcached: Option<u64>,
    pub pgpromote_success: Option<u64>,
    pub pgpromote_candidate: Option<u64>,
    pub pgalloc_device: Option<u64>,
    pub pgskip_device: Option<u64>,
    pub pgreuse: Option<u64>,
    pub pgsteal_khugepaged: Option<u64>,
    pub pgdemote_kswapd: Option<u64>,
    pub pgdemote_direct: Option<u64>,
    pub pgdemote_khugepaged: Option<u64>,
    pub pgscan_khugepaged: Option<u64>,
    pub pgscan_anon: Option<u64>,
    pub pgscan_file: Option<u64>,
    pub pgsteal_anon: Option<u64>,
    pub pgsteal_file: Option<u64>,
    pub slabs_scanned: Option<u64>,
    pub thp_migration_success: Option<u64>,
    pub thp_migration_fail: Option<u64>,
    pub thp_migration_split: Option<u64>,
    pub cma_alloc_success: Option<u64>,
    pub cma_alloc_fail: Option<u64>,
    pub thp_fault_fallback_charge: Option<u64>,
    pub thp_file_fallback: Option<u64>,
    pub thp_file_fallback_charge: Option<u64>,
    pub thp_scan_exceed_none_pte: Option<u64>,
    pub thp_scan_exceed_swap_pte: Option<u64>,
    pub thp_scan_exceed_share_pte: Option<u64>,
    pub ksm_swpin_copy: Option<u64>,
    pub cow_ksm: Option<u64>,
    pub zswpin: Option<u64>,
    pub zswpout: Option<u64>,
}

/// The named counters of a `VmStatSample`, in the order in which they are recorded;
/// an absent counter counts as 0. `workingset_restore_anon` is recorded twice.
pub open spec fn vmstat_samples(vmstat: VmStatSample) -> Seq<(Seq<char>, u64)> {
    seq![
        ("nr_free_pages"@, vmstat.nr_free_pages),
        ("nr_zone_inactive_anon"@, vmstat.nr_zone_inactive_anon),
        ("nr_zone_active_anon"@, vmstat.nr_zone_active_anon),
        ("nr_zone_inactive_file"@, vmstat.nr_zone_inactive_file),
        ("nr_zone_active_file"@, vmstat.nr_zone_active_file),
        ("nr_zone_unevictable"@, vmstat.nr_zone_unevictable),
        ("nr_zone_write_pending"@, vmstat.nr_zone_write_pending),
        ("nr_mlock"@, vmstat.nr_mlock),
        ("nr_bounce"@, vmstat.nr_bounce),
        ("nr_zspages"@, vmstat.nr_zspages),
        ("nr_free_cma"@, vmstat.nr_free_cma),
        ("numa_hit"@, vmstat.numa_hit),
        ("numa_miss"@, vmstat.numa_miss),
        ("numa_foreign"@, vmstat.numa_foreign),
        ("numa_interleave"@, vmstat.numa_interleave),
        ("numa_local"@, vmstat.numa_local),
        ("numa_other"@, vmstat.numa_other),
        ("nr_inactive_anon"@, vmstat.nr_inactive_anon),
        ("nr_active_anon"@, vmstat.nr_active_anon),
        ("nr_active_file"@, vmstat.nr_active_file),
        ("nr_inactive_file"@, vmstat.nr_inactive_file),
        ("nr_unevictable"@, vmstat.nr_unevictable),
        ("nr_slab_reclaimable"@, vmstat.nr_slab_reclaimable),
        ("nr_slab_unreclaimable"@, vmstat.nr_slab_unreclaimable),
        ("nr_isolated_anon"@, vmstat.nr_isolated_anon),
        ("nr_isolated_file"@, vmstat.nr_isolated_file),
        ("workingset_nodereclaim"@, vmstat.workingset_nodereclaim),
        ("nr_anon_pages"@, vmstat.nr_anon_pages),
        ("nr_mapped"@, vmstat.nr_mapped),
        ("nr_file_pages"@, vmstat.nr_file_pages),
        ("nr_dirty"@, vmstat.nr_dirty),
        ("nr_writeback"@, vmstat.nr_writeback),
        ("nr_writeback_temp"@, vmstat.nr_writeback_temp),
        ("nr_shmem"@, vmstat.nr_shmem),
        ("nr_shmem_hugepages"@, vmstat.nr_shmem_hugepages),
        ("nr_shmem_pmdmapped"@, vmstat.nr_shmem_pmdmapped),
        ("nr_anon_transparent_hugepages"@, vmstat.nr_anon_transparent_hugepages),
        ("nr_vmscan_write"@, vmstat.nr_vmscan_write),
        ("nr_vmscan_immediate_reclaim"@, vmstat.nr_vmscan_immediate_reclaim),
        ("nr_dirtied"@, vmstat.nr_dirtied),
        ("nr_written"@, vmstat.nr_written),
        ("nr_kernel_stack"@, vmstat.nr_kernel_stack),
        ("nr_page_table_pages"@, vmstat.nr_page_table_pages),
        ("nr_dirty_threshold"@, vmstat.nr_dirty_threshold),
        ("nr_dirty_background_threshold"@, vmstat.nr_dirty_background_threshold),
        ("pgpgin"@, vmstat.pgpgin),
        ("pgpgout"@, vmstat.pgpgout),
        ("pswpin"@, vmstat.pswpin),
        ("pswpout"@, vmstat.pswpout),
        ("pgalloc_dma"@, vmstat.pgalloc_dma),
        ("pgalloc_dma32"@, vmstat.pgalloc_dma32),
        ("pgalloc_normal"@, vmstat.pgalloc_normal),
        ("pgalloc_movable"@, vmstat.pgalloc_movable),
        ("allocstall_dma"@, vmstat.allocstall_dma),
        ("allocstall_dma32"@, vmstat.allocstall_dma32),
        ("allocstall_normal"@, vmstat.allocstall_normal),
        ("allocstall_movable"@, vmstat.allocstall_movable),
        ("pgskip_dma"@, vmstat.pgskip_dma),
        ("pgskip_dma32"@, vmstat.pgskip_dma32),
        ("pgskip_normal"@, vmstat.pgskip_normal),
        ("pgskip_movable"@, vmstat.pgskip_movable),
        ("pgfree"@, vmstat.pgfree),
        ("pgactivate"@, vmstat.pgactivate),
        ("pgdeactivate"@, vmstat.pgdeactivate),
        ("pglazyfree"@, vmstat.pglazyfree),
        ("pglazyfreed"@, vmstat.pglazyfreed),
        ("pgrefill"@, vmstat.pgrefill),
        ("pgfault"@, vmstat.pgfault),
        ("pgmajfault"@, vmstat.pgmajfault),
        ("pgsteal_kswapd"@, vmstat.pgsteal_kswapd),
        ("pgsteal_direct"@, vmstat.pgsteal_direct),
        ("pgscan_kswapd"@, vmstat.pgscan_kswapd),
        ("pgscan_direct"@, vmstat.pgscan_direct),
        ("pgscan_direct_throttle"@, vmstat.pgscan_direct_throttle),
        ("zone_reclaim_failed"@, vmstat.zone_reclaim_failed),
        ("pginodesteal"@, vmstat.pginodesteal),
        ("kswapd_inodesteal"@, vmstat.kswapd_inodesteal),
        ("kswapd_low_wmark_hit_quickly"@, vmstat.kswapd_low_wmark_hit_quickly),
        ("kswapd_high_wmark_hit_quickly"@, vmstat.kswapd_high_wmark_hit_quickly),
        ("pageoutrun"@, vmstat.pageoutrun),
        ("pgrotated"@, vmstat.pgrotated),
        ("drop_pagecache"@, vmstat.drop_pagecache),
        ("drop_slab"@, vmstat.drop_slab),
        ("oom_kill"@, vmstat.oom_kill),
        ("numa_pte_updates"@, vmstat.numa_pte_updates),
        ("numa_huge_pte_updates"@, vmstat.numa_huge_pte_updates),
        ("numa_hint_faults"@, vmstat.numa_hint_faults),
        ("numa_hint_faults_local"@, vmstat.numa_hint_faults_local),
        ("numa_pages_migrated"@, vmstat.numa_pages_migrated),
        ("pgmigrate_success"@, vmstat.pgmigrate_success),
        ("pgmigrate_fail"@, vmstat.pgmigrate_fail),
        ("compact_migrate_scanned"@, vmstat.compact_migrate_scanned),
        ("compact_free_scanned"@, vmstat.compact_free_scanned),
        ("compact_isolated"@, vmstat.compact_isolated),
        ("compact_stall"@, vmstat.compact_stall),
        ("compact_fail"@, vmstat.compact_fail),
        ("compact_success"@, vmstat.compact_success),
        ("compact_daemon_wake"@, vmstat.compact_daemon_wake),
        ("compact_daemon_migrate_scanned"@, vmstat.compact_daemon_migrate_scanned),
        ("compact_daemon_free_scanned"@, vmstat.compact_daemon_free_scanned),
        ("htlb_buddy_alloc_success"@, vmstat.htlb_buddy_alloc_success),
        ("htlb_buddy_alloc_fail"@, vmstat.htlb_buddy_alloc_fail),
        ("unevictable_pgs_culled"@, vmstat.unevictable_pgs_culled),
        ("unevictable_pgs_scanned"@, vmstat.unevictable_pgs_scanned),
        ("unevictable_pgs_rescued"@, vmstat.unevictable_pgs_rescued),
        ("unevictable_pgs_mlocked"@, vmstat.unevictable_pgs_mlocked),
        ("unevictable_pgs_munlocked"@, vmstat.unevictable_pgs_munlocked),
        ("unevictable_pgs_cleared"@, vmstat.unevictable_pgs_cleared),
        ("unevictable_pgs_stranded"@, vmstat.unevictable_pgs_stranded),
        ("thp_fault_alloc"@, vmstat.thp_fault_alloc),
        ("thp_fault_fallback"@, vmstat.thp_fault_fallback),
        ("thp_collapse_alloc"@, vmstat.thp_collapse_alloc),
        ("thp_collapse_alloc_failed"@, vmstat.thp_collapse_alloc_failed),
        ("thp_file_alloc"@, vmstat.thp_file_alloc),
        ("thp_file_mapped"@, vmstat.thp_file_mapped),
        ("thp_split_page"@, vmstat.thp_split_page),
        ("thp_split_page_failed"@, vmstat.thp_split_page_failed),
        ("thp_deferred_split_page"@, vmstat.thp_deferred_split_page),
        ("thp_split_pmd"@, vmstat.thp_split_pmd),
        ("thp_zero_page_alloc"@, vmstat.thp_zero_page_alloc),
        ("thp_zero_page_alloc_failed"@, vmstat.thp_zero_page_alloc_failed),
        ("thp_swpout"@, vmstat.thp_swpout),
        ("thp_swpout_fallback"@, vmstat.thp_swpout_fallback),
        ("balloon_inflate"@, vmstat.balloon_inflate),
        ("balloon_deflate"@, vmstat.balloon_deflate),
        ("balloon_migrate"@, vmstat.balloon_migrate),
        ("swap_ra"@, vmstat.swap_ra),
        ("swap_ra_hit"@, vmstat.swap_ra_hit),
        ("nr_unstable"@, vmstat.nr_unstable),
        ("workingset_nodes"@, vmstat.workingset_nodes.unwrap_or(0)),
        ("workingset_restore_anon"@, vmstat.workingset_restore_anon.unwrap_or(0)),
        ("workingset_refault_file"@, vmstat.workingset_refault_file.unwrap_or(0)),
        ("workingset_activate_anon"@, vmstat.workingset_activate_anon.unwrap_or(0)),
        ("workingset_activate_file"@, vmstat.workingset_activate_file.unwrap_or(0)),
        ("workingset_restore_anon"@, vmstat.workingset_restore_anon.unwrap_or(0)),
        ("workingset_restore_file"@, vmstat.workingset_restore_file.unwrap_or(0)),
        ("nr_file_hugepages"@, vmstat.nr_file_hugepages.unwrap_or(0)),
        ("nr_file_pmdmapped"@, vmstat.nr_file_pmdmapped.unwrap_or(0)),
        ("nr_throttled_written"@, vmstat.nr_throttled_written.unwrap_or(0)),
        ("nr_kernel_misc_reclaimable"@, vmstat.nr_kernel_misc_reclaimable.unwrap_or(0)),
        ("nr_foll_pin_acquired"@, vmstat.nr_foll_pin_acquired.unwrap_or(0)),
        ("nr_foll_pin_released"@, vmstat.nr_foll_pin_released.unwrap_or(0)),
        ("nr_shadow_call_stack"@, vmstat.nr_shadow_call_stack.unwrap_or(0)),
        ("nr_sec_page_table_pages"@, vmstat.nr_sec_page_table_pages.unwrap_or(0)),
        ("nr_swapcached"@, vmstat.nr_swapcached.unwrap_or(0)),
        ("pgpromote_success"@, vmstat.pgpromote_success.unwrap_or(0)),
        ("pgpromote_candidate"@, vmstat.pgpromote_candidate.unwrap_or(0)),
        ("pgalloc_device"@, vmstat.pgalloc_device.unwrap_or(0)),
        ("pgskip_device"@, vmstat.pgskip_device.unwrap_or(0)),
        ("pgreuse"@, vmstat.pgreuse.unwrap_or(0)),
        ("pgsteal_khugepaged"@, vmstat.pgsteal_khugepaged.unwrap_or(0)),
        ("pgdemote_kswapd"@, vmstat.pgdemote_kswapd.unwrap_or(0)),
        ("pgdemote_direct"@, vmstat.pgdemote_direct.unwrap_or(0)),
        ("pgdemote_khugepaged"@, vmstat.pgdemote_khugepaged.unwrap_or(0)),
        ("pgscan_khugepaged"@, vmstat.pgscan_khugepaged.unwrap_or(0)),
        ("pgscan_anon"@, vmstat.pgscan_anon.unwrap_or(0)),
        ("pgscan_file"@, vmstat.pgscan_file.unwrap_or(0)),
        ("pgsteal_anon"@, vmstat.pgsteal_anon.unwrap_or(0)),
        ("pgsteal_file"@, vmstat.pgsteal_file.unwrap_or(0)),
        ("slabs_scanned"@, vmstat.slabs_scanned.unwrap_or(0)),
        ("thp_migration_success"@, vmstat.thp_migration_success.unwrap_or(0)),
        ("thp_migration_fail"@, vmstat.thp_migration_fail.unwrap_or(0)),
        ("thp_migration_split"@, vmstat.thp_migration_split.unwrap_or(0)),
        ("cma_alloc_success"@, vmstat.cma_alloc_success.unwrap_or(0)),
        ("cma_alloc_fail"@, vmstat.cma_alloc_fail.unwrap_or(0)),
        ("thp_fault_fallback_charge"@, vmstat.thp_fault_fallback_charge.unwrap_or(0)),
        ("thp_file_fallback"@, vmstat.thp_file_fallback.unwrap_or(0)),
        ("thp_file_fallback_charge"@, vmstat.thp_file_fallback_charge.unwrap_or(0)),
        ("thp_scan_exceed_none_pte"@, vmstat.thp_scan_exceed_none_pte.unwrap_or(0)),
        ("thp_scan_exceed_swap_pte"@, vmstat.thp_scan_exceed_swap_pte.unwrap_or(0)),
        ("thp_scan_exceed_share_pte"@, vmstat.thp_scan_exceed_share_pte.unwrap_or(0)),
        ("ksm_swpin_copy"@, vmstat.ksm_swpin_copy.unwrap_or(0)),
        ("cow_ksm"@, vmstat.cow_ksm.unwrap_or(0)),
        ("zswpin"@, vmstat.zswpin.unwrap_or(0)),
        ("zswpout"@, vmstat.zswpout.unwrap_or(0)),
    ]
}

proof fn lemma_take_split(s: Seq<(Seq<char>, u64)>, a: int, b: int)
    requires
        0 <= a <= b <= s.len(),
    ensures
        s.take(b) == s.take(a) + s.subrange(a, b),
{
    assert(s.take(b) =~= s.take(a) + s.subrange(a, b));
}

proof fn lemma_vmstat_part0_in_order(vmstat: VmStatSample)
    ensures
        vmstat_samples(vmstat).subrange(0, 10) == vmstat_samples_part0(vmstat),
{
    assert(vmstat_samples(vmstat).subrange(0, 10) =~= vmstat_samples_part0(vmstat));
}

proof fn lemma_vmstat_part1_in_order(vmstat: VmStatSample)
    ensures
        vmstat_samples(vmstat).subrange(10, 20) == vmstat_samples_part1(vmstat),
{
    assert(vmstat_samples(vmstat).subrange(10, 20) =~= vmstat_samples_part1(vmstat));
}

proof fn lemma_vmstat_part2_in_order(vmstat: VmStatSample)
    ensures
        vmstat_samples(vmstat).subrange(20, 30) == vmstat_samples_part2(vmstat),
{
    assert(vmstat_samples(vmstat).subrange(20, 30) =~= vmstat_samples_part2(vmstat));
}

proof fn lemma_vmstat_part3_in_order(vmstat: VmStatSample)
    ensures
        vmstat_samples(vmstat).subrange(30, 40) == vmstat_samples_part3(vmstat),
{
    assert(vmstat_samples(vmstat).subrange(30, 40) =~= vmstat_samples_part3(vmstat));
}

proof fn lemma_vmstat_part4_in_order(vmstat: VmStatSample)
    ensures
        vmstat_samples(vmstat).subrange(40, 50) == vmstat_samples_part4(vmstat),
{
    assert(vmstat_samples(vmstat).subrange(40, 50) =~= vmstat_samples_part4(vmstat));
}

proof fn lemma_vmstat_part5_in_order(vmstat: VmStatSample)
    ensures
        vmstat_samples(vmstat).subrange(50, 60) == vmstat_samples_part5(vmstat),
{
    assert(vmstat_samples(vmstat).subrange(50, 60) =~= vmstat_samples_part5(vmstat));
}

proof fn lemma_vmstat_part6_in_order(vmstat: VmStatSample)
    ensures
        vmstat_samples(vmstat).subrange(60, 70) == vmstat_samples_part6(vmstat),
{
    assert(vmstat_samples(vmstat).subrange(60, 70) =~= vmstat_samples_part6(vmstat));
}

proof fn lemma_vmstat_part7_in_order(vmstat: VmStatSample)
    ensures
        vmstat_samples(vmstat).subrange(70, 80) == vmstat_samples_part7(vmstat),
{
    assert(vmstat_samples(vmstat).subrange(70, 80) =~= vmstat_samples_part7(vmstat));
}

proof fn lemma_vmstat_part8_in_order(vmstat: VmStatSample)
    ensures
        vmstat_samples(vmstat).subrange(80, 90) == vmstat_samples_part8(vmstat),
{
    assert(vmstat_samples(vmstat).subrange(80, 90) =~= vmstat_samples_part8(vmstat));
}

proof fn lemma_vmstat_part9_in_order(vmstat: VmStatSample)
    ensures
        vmstat_samples(vmstat).subrange(90, 100) == vmstat_samples_part9(vmstat),
{
    assert(vmstat_samples(vmstat).subrange(90, 100) =~= vmstat_samples_part9(vmstat));
}

#[verifier::rlimit(100)]
proof fn lemma_vmstat_part10_in_order(vmstat: VmStatSample)
    ensures
        vmstat_samples(vmstat).subrange(100, 110) == vmstat_samples_part10(vmstat),
{
    assert(vmstat_samples(vmstat).subrange(100, 110) =~= vmstat_samples_part10(vmstat));
}

#[verifier::rlimit(100)]
proof fn lemma_vmstat_part11_in_order(vmstat: VmStatSample)
    ensures
        vmstat_samples(vmstat).subrange(110, 120) == vmstat_samples_part11(vmstat),
{
    assert(vmstat_samples(vmstat).subrange(110, 120) =~= vmstat_samples_part11(vmstat));
}

#[verifier::rlimit(100)]
proof fn lemma_vmstat_part12_in_order(vmstat: VmStatSample)
    ensures
        vmstat_samples(vmstat).subrange(120, 130) == vmstat_samples_part12(vmstat),
{
    assert(vmstat_samples(vmstat).subrange(120, 130) =~= vmstat_samples_part12(vmstat));
}

#[verifier::rlimit(100)]
proof fn lemma_vmstat_part13_in_order(vmstat: VmStatSample)
    ensures
        vmstat_samples(vmstat).subrange(130, 140) == vmstat_samples_part13(vmstat),
{
    let s = vmstat_samples(vmstat);
    let q = vmstat_samples_part13(vmstat);
    assert(s[130] == q[0]);
    assert(s[131] == q[1]);
    assert(s[132] == q[2]);
    assert(s[133] == q[3]);
    assert(s[134] == q[4]);
    assert(s[135] == q[5]);
    assert(s[136] == q[6]);
    assert(s[137] == q[7]);
    assert(s[138] == q[8]);
    assert(s[139] == q[9]);
    assert(s.subrange(130, 140) =~= q);
}

proof fn lemma_vmstat_part14_first_half(vmstat: VmStatSample)
    ensures
        vmstat_samples(vmstat)[140] == vmstat_samples_part14(vmstat)[0],
        vmstat_samples(vmstat)[141] == vmstat_samples_part14(vmstat)[1],
        vmstat_samples(vmstat)[142] == vmstat_samples_part14(vmstat)[2],
        vmstat_samples(vmstat)[143] == vmstat_samples_part14(vmstat)[3],
        vmstat_samples(vmstat)[144] == vmstat_samples_part14(vmstat)[4],
{
}

proof fn lemma_vmstat_part14_second_half(vmstat: VmStatSample)
    ensures
        vmstat_samples(vmstat)[145] == vmstat_samples_part14(vmstat)[5],
        vmstat_samples(vmstat)[146] == vmstat_samples_part14(vmstat)[6],
        vmstat_samples(vmstat)[147] == vmstat_samples_part14(vmstat)[7],
        vmstat_samples(vmstat)[148] == vmstat_samples_part14(vmstat)[8],
        vmstat_samples(vmstat)[149] == vmstat_samples_part14(vmstat)[9],
{
}

proof fn lemma_vmstat_part14_in_order(vmstat: VmStatSample)
    ensures
        vmstat_samples(vmstat).subrange(140, 150) == vmstat_samples_part14(vmstat),
{
    lemma_vmstat_part14_first_half(vmstat);
    lemma_vmstat_part14_second_half(vmstat);
    let s = vmstat_samples(vmstat);
    let q = vmstat_samples_part14(vmstat);
    assert(s.len() == 175);
    assert(q.len() == 10);
    assert forall|k: int| 0 <= k < 10 implies #[trigger] s.subrange(140, 150)[k] == q[k] by {
        assert(s.subrange(140, 150)[k] == s[140 + k]);
    }
    assert(s.subrange(140, 150) =~= q);
}

#[verifier::rlimit(100)]
proof fn lemma_vmstat_part15_in_order(vmstat: VmStatSample)
    ensures
        vmstat_samples(vmstat).subrange(150, 160) == vmstat_samples_part15(vmstat),
{
    let s = vmstat_samples(vmstat);
    let q = vmstat_samples_part15(vmstat);
    assert(s[150] == q[0]);
    assert(s[151] == q[1]);
    assert(s[152] == q[2]);
    assert(s[153] == q[3]);
    assert(s[154] == q[4]);
    assert(s[155] == q[5]);
    assert(s[156] == q[6]);
    assert(s[157] == q[7]);
    assert(s[158] == q[8]);
    assert(s[159] == q[9]);
    assert(s.subrange(150, 160) =~= q);
}

#[verifier::rlimit(100)]
proof fn lemma_vmstat_part16_in_order(vmstat: VmStatSample)
    ensures
        vmstat_samples(vmstat).subrange(160, 170) == vmstat_samples_part16(vmstat),
{
    assert(vmstat_samples(vmstat).subrange(160, 170) =~= vmstat_samples_part16(vmstat));
}

#[verifier::rlimit(100)]
proof fn lemma_vmstat_part17_in_order(vmstat: VmStatSample)
    ensures
        vmstat_samples(vmstat).subrange(170, 175) == vmstat_samples_part17(vmstat),
{
    assert(vmstat_samples(vmstat).subrange(170, 175) =~= vmstat_samples_part17(vmstat));
}

/// The counters in the groups in which they are gathered.
proof fn lemma_vmstat_samples_parts(vmstat: VmStatSample)
    ensures
        vmstat_samples(vmstat) == vmstat_samples_part0(vmstat) + vmstat_samples_part1(vmstat) + vmstat_samples_part2(vmstat) + vmstat_samples_part3(vmstat) + vmstat_samples_part4(vmstat) + vmstat_samples_part5(vmstat) + vmstat_samples_part6(vmstat) + vmstat_samples_part7(vmstat) + vmstat_samples_part8(vmstat) + vmstat_samples_part9(vmstat) + vmstat_samples_part10(vmstat) + vmstat_samples_part11(vmstat) + vmstat_samples_part12(vmstat) + vmstat_samples_part13(vmstat) + vmstat_samples_part14(vmstat) + vmstat_samples_part15(vmstat) + vmstat_samples_part16(vmstat) + vmstat_samples_part17(vmstat),
{
    let s = vmstat_samples(vmstat);
    lemma_vmstat_part0_in_order(vmstat);
    lemma_vmstat_part1_in_order(vmstat);
    lemma_vmstat_part2_in_order(vmstat);
    lemma_vmstat_part3_in_order(vmstat);
    lemma_vmstat_part4_in_order(vmstat);
    lemma_vmstat_part5_in_order(vmstat);
    lemma_vmstat_part6_in_order(vmstat);
    lemma_vmstat_part7_in_order(vmstat);
    lemma_vmstat_part8_in_order(vmstat);
    lemma_vmstat_part9_in_order(vmstat);
    lemma_vmstat_part10_in_order(vmstat);
    lemma_vmstat_part11_in_order(vmstat);
    lemma_vmstat_part12_in_order(vmstat);
    lemma_vmstat_part13_in_order(vmstat);
    lemma_vmstat_part14_in_order(vmstat);
    lemma_vmstat_part15_in_order(vmstat);
    lemma_vmstat_part16_in_order(vmstat);
    lemma_vmstat_part17_in_order(vmstat);
    assert(s.take(10) =~= s.subrange(0, 10));
    lemma_take_split(s, 10, 20);
    lemma_take_split(s, 20, 30);
    lemma_take_split(s, 30, 40);
    lemma_take_split(s, 40, 50);
    lemma_take_split(s, 50, 60);
    lemma_take_split(s, 60, 70);
    lemma_take_split(s, 70, 80);
    lemma_take_split(s, 80, 90);
    lemma_take_split(s, 90, 100);
    lemma_take_split(s, 100, 110);
    lemma_take_split(s, 110, 120);
    lemma_take_split(s, 120, 130);
    lemma_take_split(s, 130, 140);
    lemma_take_split(s, 140, 150);
    lemma_take_split(s, 150, 160);
    lemma_take_split(s, 160, 170);
    lemma_take_split(s, 170, 175);
    assert(s.take(175) =~= s);
}

/// Counters 1 to 10 of `vmstat_samples`.
pub open spec fn vmstat_samples_part0(vmstat: VmStatSample) -> Seq<(Seq<char>, u64)> {
    seq![
        ("nr_free_pages"@, vmstat.nr_free_pages),
        ("nr_zone_inactive_anon"@, vmstat.nr_zone_inactive_anon),
        ("nr_zone_active_anon"@, vmstat.nr_zone_active_anon),
        ("nr_zone_inactive_file"@, vmstat.nr_zone_inactive_file),
        ("nr_zone_active_file"@, vmstat.nr_zone_active_file),
        ("nr_zone_unevictable"@, vmstat.nr_zone_unevictable),
        ("nr_zone_write_pending"@, vmstat.nr_zone_write_pending),
        ("nr_mlock"@, vmstat.nr_mlock),
        ("nr_bounce"@, vmstat.nr_bounce),
        ("nr_zspages"@, vmstat.nr_zspages),
    ]
}

/// Counters 11 to 20 of `vmstat_samples`.
pub open spec fn vmstat_samples_part1(vmstat: VmStatSample) -> Seq<(Seq<char>, u64)> {
    seq![
        ("nr_free_cma"@, vmstat.nr_free_cma),
        ("numa_hit"@, vmstat.numa_hit),
        ("numa_miss"@, vmstat.numa_miss),
        ("numa_foreign"@, vmstat.numa_foreign),
        ("numa_interleave"@, vmstat.numa_interleave),
        ("numa_local"@, vmstat.numa_local),
        ("numa_other"@, vmstat.numa_other),
        ("nr_inactive_anon"@, vmstat.nr_inactive_anon),
        ("nr_active_anon"@, vmstat.nr_active_anon),
        ("nr_active_file"@, vmstat.nr_active_file),
    ]
}

/// Counters 21 to 30 of `vmstat_samples`.
pub open spec fn vmstat_samples_part2(vmstat: VmStatSample) -> Seq<(Seq<char>, u64)> {
    seq![
        ("nr_inactive_file"@, vmstat.nr_inactive_file),
        ("nr_unevictable"@, vmstat.nr_unevictable),
        ("nr_slab_reclaimable"@, vmstat.nr_slab_reclaimable),
        ("nr_slab_unreclaimable"@, vmstat.nr_slab_unreclaimable),
        ("nr_isolated_anon"@, vmstat.nr_isolated_anon),
        ("nr_isolated_file"@, vmstat.nr_isolated_file),
        ("workingset_nodereclaim"@, vmstat.workingset_nodereclaim),
        ("nr_anon_pages"@, vmstat.nr_anon_pages),
        ("nr_mapped"@, vmstat.nr_mapped),
        ("nr_file_pages"@, vmstat.nr_file_pages),
    ]
}

/// Counters 31 to 40 of `vmstat_samples`.
pub open spec fn vmstat_samples_part3(vmstat: VmStatSample) -> Seq<(Seq<char>, u64)> {
    seq![
        ("nr_dirty"@, vmstat.nr_dirty),
        ("nr_writeback"@, vmstat.nr_writeback),
        ("nr_writeback_temp"@, vmstat.nr_writeback_temp),
        ("nr_shmem"@, vmstat.nr_shmem),
        ("nr_shmem_hugepages"@, vmstat.nr_shmem_hugepages),
        ("nr_shmem_pmdmapped"@, vmstat.nr_shmem_pmdmapped),
        ("nr_anon_transparent_hugepages"@, vmstat.nr_anon_transparent_hugepages),
        ("nr_vmscan_write"@, vmstat.nr_vmscan_write),
        ("nr_vmscan_immediate_reclaim"@, vmstat.nr_vmscan_immediate_reclaim),
        ("nr_dirtied"@, vmstat.nr_dirtied),
    ]
}

/// Counters 41 to 50 of `vmstat_samples`.
pub open spec fn vmstat_samples_part4(vmstat: VmStatSample) -> Seq<(Seq<char>, u64)> {
    seq![
        ("nr_written"@, vmstat.nr_written),
        ("nr_kernel_stack"@, vmstat.nr_kernel_stack),
        ("nr_page_table_pages"@, vmstat.nr_page_table_pages),
        ("nr_dirty_threshold"@, vmstat.nr_dirty_threshold),
        ("nr_dirty_background_threshold"@, vmstat.nr_dirty_background_threshold),
        ("pgpgin"@, vmstat.pgpgin),
        ("pgpgout"@, vmstat.pgpgout),
        ("pswpin"@, vmstat.pswpin),
        ("pswpout"@, vmstat.pswpout),
        ("pgalloc_dma"@, vmstat.pgalloc_dma),
    ]
}

/// Counters 51 to 60 of `vmstat_samples`.
pub open spec fn vmstat_samples_part5(vmstat: VmStatSample) -> Seq<(Seq<char>, u64)> {
    seq![
        ("pgalloc_dma32"@, vmstat.pgalloc_dma32),
        ("pgalloc_normal"@, vmstat.pgalloc_normal),
        ("pgalloc_movable"@, vmstat.pgalloc_movable),
        ("allocstall_dma"@, vmstat.allocstall_dma),
        ("allocstall_dma32"@, vmstat.allocstall_dma32),
        ("allocstall_normal"@, vmstat.allocstall_normal),
        ("allocstall_movable"@, vmstat.allocstall_movable),
        ("pgskip_dma"@, vmstat.pgskip_dma),
        ("pgskip_dma32"@, vmstat.pgskip_dma32),
        ("pgskip_normal"@, vmstat.pgskip_normal),
    ]
}

/// Counters 61 to 70 of `vmstat_samples`.
pub open spec fn vmstat_samples_part6(vmstat: VmStatSample) -> Seq<(Seq<char>, u64)> {
    seq![
        ("pgskip_movable"@, vmstat.pgskip_movable),
        ("pgfree"@, vmstat.pgfree),
        ("pgactivate"@, vmstat.pgactivate),
        ("pgdeactivate"@, vmstat.pgdeactivate),
        ("pglazyfree"@, vmstat.pglazyfree),
        ("pglazyfreed"@, vmstat.pglazyfreed),
        ("pgrefill"@, vmstat.pgrefill),
        ("pgfault"@, vmstat.pgfault),
        ("pgmajfault"@, vmstat.pgmajfault),
        ("pgsteal_kswapd"@, vmstat.pgsteal_kswapd),
    ]
}

/// Counters 71 to 80 of `vmstat_samples`.
pub open spec fn vmstat_samples_part7(vmstat: VmStatSample) -> Seq<(Seq<char>, u64)> {
    seq![
        ("pgsteal_direct"@, vmstat.pgsteal_direct),
        ("pgscan_kswapd"@, vmstat.pgscan_kswapd),
        ("pgscan_direct"@, vmstat.pgscan_direct),
        ("pgscan_direct_throttle"@, vmstat.pgscan_direct_throttle),
        ("zone_reclaim_failed"@, vmstat.zone_reclaim_failed),
        ("pginodesteal"@, vmstat.pginodesteal),
        ("kswapd_inodesteal"@, vmstat.kswapd_inodesteal),
        ("kswapd_low_wmark_hit_quickly"@, vmstat.kswapd_low_wmark_hit_quickly),
        ("kswapd_high_wmark_hit_quickly"@, vmstat.kswapd_high_wmark_hit_quickly),
        ("pageoutrun"@, vmstat.pageoutrun),
    ]
}

/// Counters 81 to 90 of `vmstat_samples`.
pub open spec fn vmstat_samples_part8(vmstat: VmStatSample) -> Seq<(Seq<char>, u64)> {
    seq![
        ("pgrotated"@, vmstat.pgrotated),
        ("drop_pagecache"@, vmstat.drop_pagecache),
        ("drop_slab"@, vmstat.drop_slab),
        ("oom_kill"@, vmstat.oom_kill),
        ("numa_pte_updates"@, vmstat.numa_pte_updates),
        ("numa_huge_pte_updates"@, vmstat.numa_huge_pte_updates),
        ("numa_hint_faults"@, vmstat.numa_hint_faults),
        ("numa_hint_faults_local"@, vmstat.numa_hint_faults_local),
        ("numa_pages_migrated"@, vmstat.numa_pages_migrated),
        ("pgmigrate_success"@, vmstat.pgmigrate_success),
    ]
}

/// Counters 91 to 100 of `vmstat_samples`.
pub open spec fn vmstat_samples_part9(vmstat: VmStatSample) -> Seq<(Seq<char>, u64)> {
    seq![
        ("pgmigrate_fail"@, vmstat.pgmigrate_fail),
        ("compact_migrate_scanned"@, vmstat.compact_migrate_scanned),
        ("compact_free_scanned"@, vmstat.compact_free_scanned),
        ("compact_isolated"@, vmstat.compact_isolated),
        ("compact_stall"@, vmstat.compact_stall),
        ("compact_fail"@, vmstat.compact_fail),
        ("compact_success"@, vmstat.compact_success),
        ("compact_daemon_wake"@, vmstat.compact_daemon_wake),
        ("compact_daemon_migrate_scanned"@, vmstat.compact_daemon_migrate_scanned),
        ("compact_daemon_free_scanned"@, vmstat.compact_daemon_free_scanned),
    ]
}

/// Counters 101 to 110 of `vmstat_samples`.
pub open spec fn vmstat_samples_part10(vmstat: VmStatSample) -> Seq<(Seq<char>, u64)> {
    seq![
        ("htlb_buddy_alloc_success"@, vmstat.htlb_buddy_alloc_success),
        ("htlb_buddy_alloc_fail"@, vmstat.htlb_buddy_alloc_fail),
        ("unevictable_pgs_culled"@, vmstat.unevictable_pgs_culled),
        ("unevictable_pgs_scanned"@, vmstat.unevictable_pgs_scanned),
        ("unevictable_pgs_rescued"@, vmstat.unevictable_pgs_rescued),
        ("unevictable_pgs_mlocked"@, vmstat.unevictable_pgs_mlocked),
        ("unevictable_pgs_munlocked"@, vmstat.unevictable_pgs_munlocked),
        ("unevictable_pgs_cleared"@, vmstat.unevictable_pgs_cleared),
        ("unevictable_pgs_stranded"@, vmstat.unevictable_pgs_stranded),
        ("thp_fault_alloc"@, vmstat.thp_fault_alloc),
    ]
}

/// Counters 111 to 120 of `vmstat_samples`.
pub open spec fn vmstat_samples_part11(vmstat: VmStatSample) -> Seq<(Seq<char>, u64)> {
    seq![
        ("thp_fault_fallback"@, vmstat.thp_fault_fallback),
        ("thp_collapse_alloc"@, vmstat.thp_collapse_alloc),
        ("thp_collapse_alloc_failed"@, vmstat.thp_collapse_alloc_failed),
        ("thp_file_alloc"@, vmstat.thp_file_alloc),
        ("thp_file_mapped"@, vmstat.thp_file_mapped),
        ("thp_split_page"@, vmstat.thp_split_page),
        ("thp_split_page_failed"@, vmstat.thp_split_page_failed),
        ("thp_deferred_split_page"@, vmstat.thp_deferred_split_page),
        ("thp_split_pmd"@, vmstat.thp_split_pmd),
        ("thp_zero_page_alloc"@, vmstat.thp_zero_page_alloc),
    ]
}

/// Counters 121 to 130 of `vmstat_samples`.
pub open spec fn vmstat_samples_part12(vmstat: VmStatSample) -> Seq<(Seq<char>, u64)> {
    seq![
        ("thp_zero_page_alloc_failed"@, vmstat.thp_zero_page_alloc_failed),
        ("thp_swpout"@, vmstat.thp_swpout),
        ("thp_swpout_fallback"@, vmstat.thp_swpout_fallback),
        ("balloon_inflate"@, vmstat.balloon_inflate),
        ("balloon_deflate"@, vmstat.balloon_deflate),
        ("balloon_migrate"@, vmstat.balloon_migrate),
        ("swap_ra"@, vmstat.swap_ra),
        ("swap_ra_hit"@, vmstat.swap_ra_hit),
        ("nr_unstable"@, vmstat.nr_unstable),
        ("workingset_nodes"@, vmstat.workingset_nodes.unwrap_or(0)),
    ]
}

/// Counters 131 to 140 of `vmstat_samples`.
pub open spec fn vmstat_samples_part13(vmstat: VmStatSample) -> Seq<(Seq<char>, u64)> {
    seq![
        ("workingset_restore_anon"@, vmstat.workingset_restore_anon.unwrap_or(0)),
        ("workingset_refault_file"@, vmstat.workingset_refault_file.unwrap_or(0)),
        ("workingset_activate_anon"@, vmstat.workingset_activate_anon.unwrap_or(0)),
        ("workingset_activate_file"@, vmstat.workingset_activate_file.unwrap_or(0)),
        ("workingset_restore_anon"@, vmstat.workingset_restore_anon.unwrap_or(0)),
        ("workingset_restore_file"@, vmstat.workingset_restore_file.unwrap_or(0)),
        ("nr_file_hugepages"@, vmstat.nr_file_hugepages.unwrap_or(0)),
        ("nr_file_pmdmapped"@, vmstat.nr_file_pmdmapped.unwrap_or(0)),
        ("nr_throttled_written"@, vmstat.nr_throttled_written.unwrap_or(0)),
        ("nr_kernel_misc_reclaimable"@, vmstat.nr_kernel_misc_reclaimable.unwrap_or(0)),
    ]
}

/// Counters 141 to 150 of `vmstat_samples`.
pub open spec fn vmstat_samples_part14(vmstat: VmStatSample) -> Seq<(Seq<char>, u64)> {
    seq![
        ("nr_foll_pin_acquired"@, vmstat.nr_foll_pin_acquired.unwrap_or(0)),
        ("nr_foll_pin_released"@, vmstat.nr_foll_pin_released.unwrap_or(0)),
        ("nr_shadow_call_stack"@, vmstat.nr_shadow_call_stack.unwrap_or(0)),
        ("nr_sec_page_table_pages"@, vmstat.nr_sec_page_table_pages.unwrap_or(0)),
        ("nr_swapcached"@, vmstat.nr_swapcached.unwrap_or(0)),
        ("pgpromote_success"@, vmstat.pgpromote_success.unwrap_or(0)),
        ("pgpromote_candidate"@, vmstat.pgpromote_candidate.unwrap_or(0)),
        ("pgalloc_device"@, vmstat.pgalloc_device.unwrap_or(0)),
        ("pgskip_device"@, vmstat.pgskip_device.unwrap_or(0)),
        ("pgreuse"@, vmstat.pgreuse.unwrap_or(0)),
    ]
}

/// Counters 151 to 160 of `vmstat_samples`.
pub open spec fn vmstat_samples_part15(vmstat: VmStatSample) -> Seq<(Seq<char>, u64)> {
    seq![
        ("pgsteal_khugepaged"@, vmstat.pgsteal_khugepaged.unwrap_or(0)),
        ("pgdemote_kswapd"@, vmstat.pgdemote_kswapd.unwrap_or(0)),
        ("pgdemote_direct"@, vmstat.pgdemote_direct.unwrap_or(0)),
        ("pgdemote_khugepaged"@, vmstat.pgdemote_khugepaged.unwrap_or(0)),
        ("pgscan_khugepaged"@, vmstat.pgscan_khugepaged.unwrap_or(0)),
        ("pgscan_anon"@, vmstat.pgscan_anon.unwrap_or(0)),
        ("pgscan_file"@, vmstat.pgscan_file.unwrap_or(0)),
        ("pgsteal_anon"@, vmstat.pgsteal_anon.unwrap_or(0)),
        ("pgsteal_file"@, vmstat.pgsteal_file.unwrap_or(0)),
        ("slabs_scanned"@, vmstat.slabs_scanned.unwrap_or(0)),
    ]
}

/// Counters 161 to 170 of `vmstat_samples`.
pub open spec fn vmstat_samples_part16(vmstat: VmStatSample) -> Seq<(Seq<char>, u64)> {
    seq![
        ("thp_migration_success"@, vmstat.thp_migration_success.unwrap_or(0)),
        ("thp_migration_fail"@, vmstat.thp_migration_fail.unwrap_or(0)),
        ("thp_migration_split"@, vmstat.thp_migration_split.unwrap_or(0)),
        ("cma_alloc_success"@, vmstat.cma_alloc_success.unwrap_or(0)),
        ("cma_alloc_fail"@, vmstat.cma_alloc_fail.unwrap_or(0)),
        ("thp_fault_fallback_charge"@, vmstat.thp_fault_fallback_charge.unwrap_or(0)),
        ("thp_file_fallback"@, vmstat.thp_file_fallback.unwrap_or(0)),
        ("thp_file_fallback_charge"@, vmstat.thp_file_fallback_charge.unwrap_or(0)),
        ("thp_scan_exceed_none_pte"@, vmstat.thp_scan_exceed_none_pte.unwrap_or(0)),
        ("thp_scan_exceed_swap_pte"@, vmstat.thp_scan_exceed_swap_pte.unwrap_or(0)),
    ]
}

/// Counters 171 to 175 of `vmstat_samples`.
pub open spec fn vmstat_samples_part17(vmstat: VmStatSample) -> Seq<(Seq<char>, u64)> {
    seq![
        ("thp_scan_exceed_share_pte"@, vmstat.thp_scan_exceed_share_pte.unwrap_or(0)),
        ("ksm_swpin_copy"@, vmstat.ksm_swpin_copy.unwrap_or(0)),
        ("cow_ksm"@, vmstat.cow_ksm.unwrap_or(0)),
        ("zswpin"@, vmstat.zswpin.unwrap_or(0)),
        ("zswpout"@, vmstat.zswpout.unwrap_or(0)),
    ]
}

fn vmstat_samples_part0_exec(vmstat: &VmStatSample) -> (r: Vec<(String, u64)>)
    ensures
        samples_view(r@) == vmstat_samples_part0(*vmstat),
{
    let mut r: Vec<(String, u64)> = Vec::new();
    r.push(("nr_free_pages".to_owned(), vmstat.nr_free_pages));
    r.push(("nr_zone_inactive_anon".to_owned(), vmstat.nr_zone_inactive_anon));
    r.push(("nr_zone_active_anon".to_owned(), vmstat.nr_zone_active_anon));
    r.push(("nr_zone_inactive_file".to_owned(), vmstat.nr_zone_inactive_file));
    r.push(("nr_zone_active_file".to_owned(), vmstat.nr_zone_active_file));
    r.push(("nr_zone_unevictable".to_owned(), vmstat.nr_zone_unevictable));
    r.push(("nr_zone_write_pending".to_owned(), vmstat.nr_zone_write_pending));
    r.push(("nr_mlock".to_owned(), vmstat.nr_mlock));
    r.push(("nr_bounce".to_owned(), vmstat.nr_bounce));
    r.push(("nr_zspages".to_owned(), vmstat.nr_zspages));
    assert(samples_view(r@) =~= vmstat_samples_part0(*vmstat));
    r
}

fn vmstat_samples_part1_exec(vmstat: &VmStatSample) -> (r: Vec<(String, u64)>)
    ensures
        samples_view(r@) == vmstat_samples_part1(*vmstat),
{
    let mut r: Vec<(String, u64)> = Vec::new();
    r.push(("nr_free_cma".to_owned(), vmstat.nr_free_cma));
    r.push(("numa_hit".to_owned(), vmstat.numa_hit));
    r.push(("numa_miss".to_owned(), vmstat.numa_miss));
    r.push(("numa_foreign".to_owned(), vmstat.numa_foreign));
    r.push(("numa_interleave".to_owned(), vmstat.numa_interleave));
    r.push(("numa_local".to_owned(), vmstat.numa_local));
    r.push(("numa_other".to_owned(), vmstat.numa_other));
    r.push(("nr_inactive_anon".to_owned(), vmstat.nr_inactive_anon));
    r.push(("nr_active_anon".to_owned(), vmstat.nr_active_anon));
    r.push(("nr_active_file".to_owned(), vmstat.nr_active_file));
    assert(samples_view(r@) =~= vmstat_samples_part1(*vmstat));
    r
}

fn vmstat_samples_part2_exec(vmstat: &VmStatSample) -> (r: Vec<(String, u64)>)
    ensures
        samples_view(r@) == vmstat_samples_part2(*vmstat),
{
    let mut r: Vec<(String, u64)> = Vec::new();
    r.push(("nr_inactive_file".to_owned(), vmstat.nr_inactive_file));
    r.push(("nr_unevictable".to_owned(), vmstat.nr_unevictable));
    r.push(("nr_slab_reclaimable".to_owned(), vmstat.nr_slab_reclaimable));
    r.push(("nr_slab_unreclaimable".to_owned(), vmstat.nr_slab_unreclaimable));
    r.push(("nr_isolated_anon".to_owned(), vmstat.nr_isolated_anon));
    r.push(("nr_isolated_file".to_owned(), vmstat.nr_isolated_file));
    r.push(("workingset_nodereclaim".to_owned(), vmstat.workingset_nodereclaim));
    r.push(("nr_anon_pages".to_owned(), vmstat.nr_anon_pages));
    r.push(("nr_mapped".to_owned(), vmstat.nr_mapped));
    r.push(("nr_file_pages".to_owned(), vmstat.nr_file_pages));
    assert(samples_view(r@) =~= vmstat_samples_part2(*vmstat));
    r
}

fn vmstat_samples_part3_exec(vmstat: &VmStatSample) -> (r: Vec<(String, u64)>)
    ensures
        samples_view(r@) == vmstat_samples_part3(*vmstat),
{
    let mut r: Vec<(String, u64)> = Vec::new();
    r.push(("nr_dirty".to_owned(), vmstat.nr_dirty));
    r.push(("nr_writeback".to_owned(), vmstat.nr_writeback));
    r.push(("nr_writeback_temp".to_owned(), vmstat.nr_writeback_temp));
    r.push(("nr_shmem".to_owned(), vmstat.nr_shmem));
    r.push(("nr_shmem_hugepages".to_owned(), vmstat.nr_shmem_hugepages));
    r.push(("nr_shmem_pmdmapped".to_owned(), vmstat.nr_shmem_pmdmapped));
    r.push(("nr_anon_transparent_hugepages".to_owned(), vmstat.nr_anon_transparent_hugepages));
    r.push(("nr_vmscan_write".to_owned(), vmstat.nr_vmscan_write));
    r.push(("nr_vmscan_immediate_reclaim".to_owned(), vmstat.nr_vmscan_immediate_reclaim));
    r.push(("nr_dirtied".to_owned(), vmstat.nr_dirtied));
    assert(samples_view(r@) =~= vmstat_samples_part3(*vmstat));
    r
}

fn vmstat_samples_part4_exec(vmstat: &VmStatSample) -> (r: Vec<(String, u64)>)
    ensures
        samples_view(r@) == vmstat_samples_part4(*vmstat),
{
    let mut r: Vec<(String, u64)> = Vec::new();
    r.push(("nr_written".to_owned(), vmstat.nr_written));
    r.push(("nr_kernel_stack".to_owned(), vmstat.nr_kernel_stack));
    r.push(("nr_page_table_pages".to_owned(), vmstat.nr_page_table_pages));
    r.push(("nr_dirty_threshold".to_owned(), vmstat.nr_dirty_threshold));
    r.push(("nr_dirty_background_threshold".to_owned(), vmstat.nr_dirty_background_threshold));
    r.push(("pgpgin".to_owned(), vmstat.pgpgin));
    r.push(("pgpgout".to_owned(), vmstat.pgpgout));
    r.push(("pswpin".to_owned(), vmstat.pswpin));
    r.push(("pswpout".to_owned(), vmstat.pswpout));
    r.push(("pgalloc_dma".to_owned(), vmstat.pgalloc_dma));
    assert(samples_view(r@) =~= vmstat_samples_part4(*vmstat));
    r
}

fn vmstat_samples_part5_exec(vmstat: &VmStatSample) -> (r: Vec<(String, u64)>)
    ensures
        samples_view(r@) == vmstat_samples_part5(*vmstat),
{
    let mut r: Vec<(String, u64)> = Vec::new();
    r.push(("pgalloc_dma32".to_owned(), vmstat.pgalloc_dma32));
    r.push(("pgalloc_normal".to_owned(), vmstat.pgalloc_normal));
    r.push(("pgalloc_movable".to_owned(), vmstat.pgalloc_movable));
    r.push(("allocstall_dma".to_owned(), vmstat.allocstall_dma));
    r.push(("allocstall_dma32".to_owned(), vmstat.allocstall_dma32));
    r.push(("allocstall_normal".to_owned(), vmstat.allocstall_normal));
    r.push(("allocstall_movable".to_owned(), vmstat.allocstall_movable));
    r.push(("pgskip_dma".to_owned(), vmstat.pgskip_dma));
    r.push(("pgskip_dma32".to_owned(), vmstat.pgskip_dma32));
    r.push(("pgskip_normal".to_owned(), vmstat.pgskip_normal));
    assert(samples_view(r@) =~= vmstat_samples_part5(*vmstat));
    r
}

fn vmstat_samples_part6_exec(vmstat: &VmStatSample) -> (r: Vec<(String, u64)>)
    ensures
        samples_view(r@) == vmstat_samples_part6(*vmstat),
{
    let mut r: Vec<(String, u64)> = Vec::new();
    r.push(("pgskip_movable".to_owned(), vmstat.pgskip_movable));
    r.push(("pgfree".to_owned(), vmstat.pgfree));
    r.push(("pgactivate".to_owned(), vmstat.pgactivate));
    r.push(("pgdeactivate".to_owned(), vmstat.pgdeactivate));
    r.push(("pglazyfree".to_owned(), vmstat.pglazyfree));
    r.push(("pglazyfreed".to_owned(), vmstat.pglazyfreed));
    r.push(("pgrefill".to_owned(), vmstat.pgrefill));
    r.push(("pgfault".to_owned(), vmstat.pgfault));
    r.push(("pgmajfault".to_owned(), vmstat.pgmajfault));
    r.push(("pgsteal_kswapd".to_owned(), vmstat.pgsteal_kswapd));
    assert(samples_view(r@) =~= vmstat_samples_part6(*vmstat));
    r
}

fn vmstat_samples_part7_exec(vmstat: &VmStatSample) -> (r: Vec<(String, u64)>)
    ensures
        samples_view(r@) == vmstat_samples_part7(*vmstat),
{
    let mut r: Vec<(String, u64)> = Vec::new();
    r.push(("pgsteal_direct".to_owned(), vmstat.pgsteal_direct));
    r.push(("pgscan_kswapd".to_owned(), vmstat.pgscan_kswapd));
    r.push(("pgscan_direct".to_owned(), vmstat.pgscan_direct));
    r.push(("pgscan_direct_throttle".to_owned(), vmstat.pgscan_direct_throttle));
    r.push(("zone_reclaim_failed".to_owned(), vmstat.zone_reclaim_failed));
    r.push(("pginodesteal".to_owned(), vmstat.pginodesteal));
    r.push(("kswapd_inodesteal".to_owned(), vmstat.kswapd_inodesteal));
    r.push(("kswapd_low_wmark_hit_quickly".to_owned(), vmstat.kswapd_low_wmark_hit_quickly));
    r.push(("kswapd_high_wmark_hit_quickly".to_owned(), vmstat.kswapd_high_wmark_hit_quickly));
    r.push(("pageoutrun".to_owned(), vmstat.pageoutrun));
    assert(samples_view(r@) =~= vmstat_samples_part7(*vmstat));
    r
}

fn vmstat_samples_part8_exec(vmstat: &VmStatSample) -> (r: Vec<(String, u64)>)
    ensures
        samples_view(r@) == vmstat_samples_part8(*vmstat),
{
    let mut r: Vec<(String, u64)> = Vec::new();
    r.push(("pgrotated".to_owned(), vmstat.pgrotated));
    r.push(("drop_pagecache".to_owned(), vmstat.drop_pagecache));
    r.push(("drop_slab".to_owned(), vmstat.drop_slab));
    r.push(("oom_kill".to_owned(), vmstat.oom_kill));
    r.push(("numa_pte_updates".to_owned(), vmstat.numa_pte_updates));
    r.push(("numa_huge_pte_updates".to_owned(), vmstat.numa_huge_pte_updates));
    r.push(("numa_hint_faults".to_owned(), vmstat.numa_hint_faults));
    r.push(("numa_hint_faults_local".to_owned(), vmstat.numa_hint_faults_local));
    r.push(("numa_pages_migrated".to_owned(), vmstat.numa_pages_migrated));
    r.push(("pgmigrate_success".to_owned(), vmstat.pgmigrate_success));
    assert(samples_view(r@) =~= vmstat_samples_part8(*vmstat));
    r
}

fn vmstat_samples_part9_exec(vmstat: &VmStatSample) -> (r: Vec<(String, u64)>)
    ensures
        samples_view(r@) == vmstat_samples_part9(*vmstat),
{
    let mut r: Vec<(String, u64)> = Vec::new();
    r.push(("pgmigrate_fail".to_owned(), vmstat.pgmigrate_fail));
    r.push(("compact_migrate_scanned".to_owned(), vmstat.compact_migrate_scanned));
    r.push(("compact_free_scanned".to_owned(), vmstat.compact_free_scanned));
    r.push(("compact_isolated".to_owned(), vmstat.compact_isolated));
    r.push(("compact_stall".to_owned(), vmstat.compact_stall));
    r.push(("compact_fail".to_owned(), vmstat.compact_fail));
    r.push(("compact_success".to_owned(), vmstat.compact_success));
    r.push(("compact_daemon_wake".to_owned(), vmstat.compact_daemon_wake));
    r.push(("compact_daemon_migrate_scanned".to_owned(), vmstat.compact_daemon_migrate_scanned));
    r.push(("compact_daemon_free_scanned".to_owned(), vmstat.compact_daemon_free_scanned));
    assert(samples_view(r@) =~= vmstat_samples_part9(*vmstat));
    r
}

fn vmstat_samples_part10_exec(vmstat: &VmStatSample) -> (r: Vec<(String, u64)>)
    ensures
        samples_view(r@) == vmstat_samples_part10(*vmstat),
{
    let mut r: Vec<(String, u64)> = Vec::new();
    r.push(("htlb_buddy_alloc_success".to_owned(), vmstat.htlb_buddy_alloc_success));
    r.push(("htlb_buddy_alloc_fail".to_owned(), vmstat.htlb_buddy_alloc_fail));
    r.push(("unevictable_pgs_culled".to_owned(), vmstat.unevictable_pgs_culled));
    r.push(("unevictable_pgs_scanned".to_owned(), vmstat.unevictable_pgs_scanned));
    r.push(("unevictable_pgs_rescued".to_owned(), vmstat.unevictable_pgs_rescued));
    r.push(("unevictable_pgs_mlocked".to_owned(), vmstat.unevictable_pgs_mlocked));
    r.push(("unevictable_pgs_munlocked".to_owned(), vmstat.unevictable_pgs_munlocked));
    r.push(("unevictable_pgs_cleared".to_owned(), vmstat.unevictable_pgs_cleared));
    r.push(("unevictable_pgs_stranded".to_owned(), vmstat.unevictable_pgs_stranded));
    r.push(("thp_fault_alloc".to_owned(), vmstat.thp_fault_alloc));
    assert(samples_view(r@) =~= vmstat_samples_part10(*vmstat));
    r
}

fn vmstat_samples_part11_exec(vmstat: &VmStatSample) -> (r: Vec<(String, u64)>)
    ensures
        samples_view(r@) == vmstat_samples_part11(*vmstat),
{
    let mut r: Vec<(String, u64)> = Vec::new();
    r.push(("thp_fault_fallback".to_owned(), vmstat.thp_fault_fallback));
    r.push(("thp_collapse_alloc".to_owned(), vmstat.thp_collapse_alloc));
    r.push(("thp_collapse_alloc_failed".to_owned(), vmstat.thp_collapse_alloc_failed));
    r.push(("thp_file_alloc".to_owned(), vmstat.thp_file_alloc));
    r.push(("thp_file_mapped".to_owned(), vmstat.thp_file_mapped));
    r.push(("thp_split_page".to_owned(), vmstat.thp_split_page));
    r.push(("thp_split_page_failed".to_owned(), vmstat.thp_split_page_failed));
    r.push(("thp_deferred_split_page".to_owned(), vmstat.thp_deferred_split_page));
    r.push(("thp_split_pmd".to_owned(), vmstat.thp_split_pmd));
    r.push(("thp_zero_page_alloc".to_owned(), vmstat.thp_zero_page_alloc));
    assert(samples_view(r@) =~= vmstat_samples_part11(*vmstat));
    r
}

fn vmstat_samples_part12_exec(vmstat: &VmStatSample) -> (r: Vec<(String, u64)>)
    ensures
        samples_view(r@) == vmstat_samples_part12(*vmstat),
{
    let mut r: Vec<(String, u64)> = Vec::new();
    r.push(("thp_zero_page_alloc_failed".to_owned(), vmstat.thp_zero_page_alloc_failed));
    r.push(("thp_swpout".to_owned(), vmstat.thp_swpout));
    r.push(("thp_swpout_fallback".to_owned(), vmstat.thp_swpout_fallback));
    r.push(("balloon_inflate".to_owned(), vmstat.balloon_inflate));
    r.push(("balloon_deflate".to_owned(), vmstat.balloon_deflate));
    r.push(("balloon_migrate".to_owned(), vmstat.balloon_migrate));
    r.push(("swap_ra".to_owned(), vmstat.swap_ra));
    r.push(("swap_ra_hit".to_owned(), vmstat.swap_ra_hit));
    r.push(("nr_unstable".to_owned(), vmstat.nr_unstable));
    r.push(("workingset_nodes".to_owned(), vmstat.workingset_nodes.unwrap_or(0)));
    assert(samples_view(r@) =~= vmstat_samples_part12(*vmstat));
    r
}

fn vmstat_samples_part13_exec(vmstat: &VmStatSample) -> (r: Vec<(String, u64)>)
    ensures
        samples_view(r@) == vmstat_samples_part13(*vmstat),
{
    let mut r: Vec<(String, u64)> = Vec::new();
    r.push(("workingset_restore_anon".to_owned(), vmstat.workingset_restore_anon.unwrap_or(0)));
    r.push(("workingset_refault_file".to_owned(), vmstat.workingset_refault_file.unwrap_or(0)));
    r.push(("workingset_activate_anon".to_owned(), vmstat.workingset_activate_anon.unwrap_or(0)));
    r.push(("workingset_activate_file".to_owned(), vmstat.workingset_activate_file.unwrap_or(0)));
    r.push(("workingset_restore_anon".to_owned(), vmstat.workingset_restore_anon.unwrap_or(0)));
    r.push(("workingset_restore_file".to_owned(), vmstat.workingset_restore_file.unwrap_or(0)));
    r.push(("nr_file_hugepages".to_owned(), vmstat.nr_file_hugepages.unwrap_or(0)));
    r.push(("nr_file_pmdmapped".to_owned(), vmstat.nr_file_pmdmapped.unwrap_or(0)));
    r.push(("nr_throttled_written".to_owned(), vmstat.nr_throttled_written.unwrap_or(0)));
    r.push(("nr_kernel_misc_reclaimable".to_owned(), vmstat.nr_kernel_misc_reclaimable.unwrap_or(0)));
    assert(samples_view(r@) =~= vmstat_samples_part13(*vmstat));
    r
}

fn vmstat_samples_part14_exec(vmstat: &VmStatSample) -> (r: Vec<(String, u64)>)
    ensures
        samples_view(r@) == vmstat_samples_part14(*vmstat),
{
    let mut r: Vec<(String, u64)> = Vec::new();
    r.push(("nr_foll_pin_acquired".to_owned(), vmstat.nr_foll_pin_acquired.unwrap_or(0)));
    r.push(("nr_foll_pin_released".to_owned(), vmstat.nr_foll_pin_released.unwrap_or(0)));
    r.push(("nr_shadow_call_stack".to_owned(), vmstat.nr_shadow_call_stack.unwrap_or(0)));
    r.push(("nr_sec_page_table_pages".to_owned(), vmstat.nr_sec_page_table_pages.unwrap_or(0)));
    r.push(("nr_swapcached".to_owned(), vmstat.nr_swapcached.unwrap_or(0)));
    r.push(("pgpromote_success".to_owned(), vmstat.pgpromote_success.unwrap_or(0)));
    r.push(("pgpromote_candidate".to_owned(), vmstat.pgpromote_candidate.unwrap_or(0)));
    r.push(("pgalloc_device".to_owned(), vmstat.pgalloc_device.unwrap_or(0)));
    r.push(("pgskip_device".to_owned(), vmstat.pgskip_device.unwrap_or(0)));
    r.push(("pgreuse".to_owned(), vmstat.pgreuse.unwrap_or(0)));
    assert(samples_view(r@) =~= vmstat_samples_part14(*vmstat));
    r
}

fn vmstat_samples_part15_exec(vmstat: &VmStatSample) -> (r: Vec<(String, u64)>)
    ensures
        samples_view(r@) == vmstat_samples_part15(*vmstat),
{
    let mut r: Vec<(String, u64)> = Vec::new();
    r.push(("pgsteal_khugepaged".to_owned(), vmstat.pgsteal_khugepaged.unwrap_or(0)));
    r.push(("pgdemote_kswapd".to_owned(), vmstat.pgdemote_kswapd.unwrap_or(0)));
    r.push(("pgdemote_direct".to_owned(), vmstat.pgdemote_direct.unwrap_or(0)));
    r.push(("pgdemote_khugepaged".to_owned(), vmstat.pgdemote_khugepaged.unwrap_or(0)));
    r.push(("pgscan_khugepaged".to_owned(), vmstat.pgscan_khugepaged.unwrap_or(0)));
    r.push(("pgscan_anon".to_owned(), vmstat.pgscan_anon.unwrap_or(0)));
    r.push(("pgscan_file".to_owned(), vmstat.pgscan_file.unwrap_or(0)));
    r.push(("pgsteal_anon".to_owned(), vmstat.pgsteal_anon.unwrap_or(0)));
    r.push(("pgsteal_file".to_owned(), vmstat.pgsteal_file.unwrap_or(0)));
    r.push(("slabs_scanned".to_owned(), vmstat.slabs_scanned.unwrap_or(0)));
    assert(samples_view(r@) =~= vmstat_samples_part15(*vmstat));
    r
}

fn vmstat_samples_part16_exec(vmstat: &VmStatSample) -> (r: Vec<(String, u64)>)
    ensures
        samples_view(r@) == vmstat_samples_part16(*vmstat),
{
    let mut r: Vec<(String, u64)> = Vec::new();
    r.push(("thp_migration_success".to_owned(), vmstat.thp_migration_success.unwrap_or(0)));
    r.push(("thp_migration_fail".to_owned(), vmstat.thp_migration_fail.unwrap_or(0)));
    r.push(("thp_migration_split".to_owned(), vmstat.thp_migration_split.unwrap_or(0)));
    r.push(("cma_alloc_success".to_owned(), vmstat.cma_alloc_success.unwrap_or(0)));
    r.push(("cma_alloc_fail".to_owned(), vmstat.cma_alloc_fail.unwrap_or(0)));
    r.push(("thp_fault_fallback_charge".to_owned(), vmstat.thp_fault_fallback_charge.unwrap_or(0)));
    r.push(("thp_file_fallback".to_owned(), vmstat.thp_file_fallback.unwrap_or(0)));
    r.push(("thp_file_fallback_charge".to_owned(), vmstat.thp_file_fallback_charge.unwrap_or(0)));
    r.push(("thp_scan_exceed_none_pte".to_owned(), vmstat.thp_scan_exceed_none_pte.unwrap_or(0)));
    r.push(("thp_scan_exceed_swap_pte".to_owned(), vmstat.thp_scan_exceed_swap_pte.unwrap_or(0)));
    assert(samples_view(r@) =~= vmstat_samples_part16(*vmstat));
    r
}

fn vmstat_samples_part17_exec(vmstat: &VmStatSample) -> (r: Vec<(String, u64)>)
    ensures
        samples_view(r@) == vmstat_samples_part17(*vmstat),
{
    let mut r: Vec<(String, u64)> = Vec::new();
    r.push(("thp_scan_exceed_share_pte".to_owned(), vmstat.thp_scan_exceed_share_pte.unwrap_or(0)));
    r.push(("ksm_swpin_copy".to_owned(), vmstat.ksm_swpin_copy.unwrap_or(0)));
    r.push(("cow_ksm".to_owned(), vmstat.cow_ksm.unwrap_or(0)));
    r.push(("zswpin".to_owned(), vmstat.zswpin.unwrap_or(0)));
    r.push(("zswpout".to_owned(), vmstat.zswpout.unwrap_or(0)));
    assert(samples_view(r@) =~= vmstat_samples_part17(*vmstat));
    r
}

/// Appends `more` to `r`, keeping track of the named samples.
fn append_samples(r: &mut Vec<(String, u64)>, more: Vec<(String, u64)>)
    ensures
        samples_view(final(r)@) == samples_view(old(r)@) + samples_view(more@),
{
    let mut more = more;
    let ghost before = r@;
    let ghost added = more@;
    r.append(&mut more);
    assert(samples_view(r@) =~= samples_view(before) + samples_view(added));
}

fn vmstat_samples_exec(vmstat: &VmStatSample) -> (r: Vec<(String, u64)>)
    ensures
        samples_view(r@) == vmstat_samples(*vmstat),
{
    proof {
        lemma_vmstat_samples_parts(*vmstat);
    }
    let mut r = vmstat_samples_part0_exec(vmstat);
    append_samples(&mut r, vmstat_samples_part1_exec(vmstat));
    append_samples(&mut r, vmstat_samples_part2_exec(vmstat));
    append_samples(&mut r, vmstat_samples_part3_exec(vmstat));
    append_samples(&mut r, vmstat_samples_part4_exec(vmstat));
    append_samples(&mut r, vmstat_samples_part5_exec(vmstat));
    append_samples(&mut r, vmstat_samples_part6_exec(vmstat));
    append_samples(&mut r, vmstat_samples_part7_exec(vmstat));
    append_samples(&mut r, vmstat_samples_part8_exec(vmstat));
    append_samples(&mut r, vmstat_samples_part9_exec(vmstat));
    append_samples(&mut r, vmstat_samples_part10_exec(vmstat));
    append_samples(&mut r, vmstat_samples_part11_exec(vmstat));
    append_samples(&mut r, vmstat_samples_part12_exec(vmstat));
    append_samples(&mut r, vmstat_samples_part13_exec(vmstat));
    append_samples(&mut r, vmstat_samples_part14_exec(vmstat));
    append_samples(&mut r, vmstat_samples_part15_exec(vmstat));
    append_samples(&mut r, vmstat_samples_part16_exec(vmstat));
    append_samples(&mut r, vmstat_samples_part17_exec(vmstat));
    r
}

/// After a reading of `/proc/vmstat` is recorded, each of its counters is held under
/// ("vmstat", "", its name) with the reading's value and time.
pub open spec fn vmstat_recorded(m: Map<KeyView, Statistic>, vmstat: VmStatSample, timestamp: i64) -> bool {
    &&& holds(m, ("vmstat"@, ""@, "nr_free_pages"@), vmstat.nr_free_pages, timestamp)
    &&& holds(m, ("vmstat"@, ""@, "nr_zone_inactive_anon"@), vmstat.nr_zone_inactive_anon, timestamp)
    &&& holds(m, ("vmstat"@, ""@, "nr_zone_active_anon"@), vmstat.nr_zone_active_anon, timestamp)
    &&& holds(m, ("vmstat"@, ""@, "nr_zone_inactive_file"@), vmstat.nr_zone_inactive_file, timestamp)
    &&& holds(m, ("vmstat"@, ""@, "nr_zone_active_file"@), vmstat.nr_zone_active_file, timestamp)
    &&& holds(m, ("vmstat"@, ""@, "nr_zone_unevictable"@), vmstat.nr_zone_unevictable, timestamp)
    &&& holds(m, ("vmstat"@, ""@, "nr_zone_write_pending"@), vmstat.nr_zone_write_pending, timestamp)
    &&& holds(m, ("vmstat"@, ""@, "nr_mlock"@), vmstat.nr_mlock, timestamp)
    &&& holds(m, ("vmstat"@, ""@, "nr_bounce"@), vmstat.nr_bounce, timestamp)
    &&& holds(m, ("vmstat"@, ""@, "nr_zspages"@), vmstat.nr_zspages, timestamp)
    &&& holds(m, ("vmstat"@, ""@, "nr_free_cma"@), vmstat.nr_free_cma, timestamp)
    &&& holds(m, ("vmstat"@, ""@, "numa_hit"@), vmstat.numa_hit, timestamp)
    &&& holds(m, ("vmstat"@, ""@, "numa_miss"@), vmstat.numa_miss, timestamp)
    &&& holds(m, ("vmstat"@, ""@, "numa_foreign"@), vmstat.numa_foreign, timestamp)
    &&& holds(m, ("vmstat"@, ""@, "numa_interleave"@), vmstat.numa_interleave, timestamp)
    &&& holds(m, ("vmstat"@, ""@, "numa_local"@), vmstat.numa_local, timestamp)
    &&& holds(m, ("vmstat"@, ""@, "numa_other"@), vmstat.numa_other, timestamp)
    &&& holds(m, ("vmstat"@, ""@, "nr_inactive_anon"@), vmstat.nr_inactive_anon, timestamp)
    &&& holds(m, ("vmstat"@, ""@, "nr_active_anon"@), vmstat.nr_active_anon, timestamp)
    &&& holds(m, ("vmstat"@, ""@, "nr_active_file"@), vmstat.nr_active_file, timestamp)
    &&& holds(m, ("vmstat"@, ""@, "nr_inactive_file"@), vmstat.nr_inactive_file, timestamp)
    &&& holds(m, ("vmstat"@, ""@, "nr_unevictable"@), vmstat.nr_unevictable, timestamp)
    &&& holds(m, ("vmstat"@, ""@, "nr_slab_reclaimable"@), vmstat.nr_slab_reclaimable, timestamp)
    &&& holds(m, ("vmstat"@, ""@, "nr_slab_unreclaimable"@), vmstat.nr_slab_unreclaimable, timestamp)
    &&& holds(m, ("vmstat"@, ""@, "nr_isolated_anon"@), vmstat.nr_isolated_anon, timestamp)
    &&& holds(m, ("vmstat"@, ""@, "nr_isolated_file"@), vmstat.nr_isolated_file, timestamp)
    &&& holds(m, ("vmstat"@, ""@, "workingset_nodereclaim"@), vmstat.workingset_nodereclaim, timestamp)
    &&& holds(m, ("vmstat"@, ""@, "nr_anon_pages"@), vmstat.nr_anon_pages, timestamp)
    &&& holds(m, ("vmstat"@, ""@, "nr_mapped"@), vmstat.nr_mapped, timestamp)
    &&& holds(m, ("vmstat"@, ""@, "nr_file_pages"@), vmstat.nr_file_pages, timestamp)
    &&& holds(m, ("vmstat"@, ""@, "nr_dirty"@), vmstat.nr_dirty, timestamp)
    &&& holds(m, ("vmstat"@, ""@, "nr_writeback"@), vmstat.nr_writeback, timestamp)
    &&& holds(m, ("vmstat"@, ""@, "nr_writeback_temp"@), vmstat.nr_writeback_temp, timestamp)
    &&& holds(m, ("vmstat"@, ""@, "nr_shmem"@), vmstat.nr_shmem, timestamp)
    &&& holds(m, ("vmstat"@, ""@, "nr_shmem_hugepages"@), vmstat.nr_shmem_hugepages, timestamp)
    &&& holds(m, ("vmstat"@, ""@, "nr_shmem_pmdmapped"@), vmstat.nr_shmem_pmdmapped, timestamp)
    &&& holds(m, ("vmstat"@, ""@, "nr_anon_transparent_hugepages"@), vmstat.nr_anon_transparent_hugepages, timestamp)
    &&& holds(m, ("vmstat"@, ""@, "nr_vmscan_write"@), vmstat.nr_vmscan_write, timestamp)
    &&& holds(m, ("vmstat"@, ""@, "nr_vmscan_immediate_reclaim"@), vmstat.nr_vmscan_immediate_reclaim, timestamp)
    &&& holds(m, ("vmstat"@, ""@, "nr_dirtied"@), vmstat.nr_dirtied, timestamp)
    &&& holds(m, ("vmstat"@, ""@, "nr_written"@), vmstat.nr_written, timestamp)
    &&& holds(m, ("vmstat"@, ""@, "nr_kernel_stack"@), vmstat.nr_kernel_stack, timestamp)
    &&& holds(m, ("vmstat"@, ""@, "nr_page_table_pages"@), vmstat.nr_page_table_pages, timestamp)
    &&& holds(m, ("vmstat"@, ""@, "nr_dirty_threshold"@), vmstat.nr_dirty_threshold, timestamp)
    &&& holds(m, ("vmstat"@, ""@, "nr_dirty_background_threshold"@), vmstat.nr_dirty_background_threshold, timestamp)
    &&& holds(m, ("vmstat"@, ""@, "pgpgin"@), vmstat.pgpgin, timestamp)
    &&& holds(m, ("vmstat"@, ""@, "pgpgout"@), vmstat.pgpgout, timestamp)
    &&& holds(m, ("vmstat"@, ""@, "pswpin"@), vmstat.pswpin, timestamp)
    &&& holds(m, ("vmstat"@, ""@, "pswpout"@), vmstat.pswpout, timestamp)
    &&& holds(m, ("vmstat"@, ""@, "pgalloc_dma"@), vmstat.pgalloc_dma, timestamp)
    &&& holds(m, ("vmstat"@, ""@, "pgalloc_dma32"@), vmstat.pgalloc_dma32, timestamp)
    &&& holds(m, ("vmstat"@, ""@, "pgalloc_normal"@), vmstat.pgalloc_normal, timestamp)
    &&& holds(m, ("vmstat"@, ""@, "pgalloc_movable"@), vmstat.pgalloc_movable, timestamp)
    &&& holds(m, ("vmstat"@, ""@, "allocstall_dma"@), vmstat.allocstall_dma, timestamp)
    &&& holds(m, ("vmstat"@, ""@, "allocstall_dma32"@), vmstat.allocstall_dma32, timestamp)
    &&& holds(m, ("vmstat"@, ""@, "allocstall_normal"@), vmstat.allocstall_normal, timestamp)
    &&& holds(m, ("vmstat"@, ""@, "allocstall_movable"@), vmstat.allocstall_movable, timestamp)
    &&& holds(m, ("vmstat"@, ""@, "pgskip_dma"@), vmstat.pgskip_dma, timestamp)
    &&& holds(m, ("vmstat"@, ""@, "pgskip_dma32"@), vmstat.pgskip_dma32, timestamp)
    &&& holds(m, ("vmstat"@, ""@, "pgskip_normal"@), vmstat.pgskip_normal, timestamp)
    &&& holds(m, ("vmstat"@, ""@, "pgskip_movable"@), vmstat.pgskip_movable, timestamp)
    &&& holds(m, ("vmstat"@, ""@, "pgfree"@), vmstat.pgfree, timestamp)
    &&& holds(m, ("vmstat"@, ""@, "pgactivate"@), vmstat.pgactivate, timestamp)
    &&& holds(m, ("vmstat"@, ""@, "pgdeactivate"@), vmstat.pgdeactivate, timestamp)
    &&& holds(m, ("vmstat"@, ""@, "pglazyfree"@), vmstat.pglazyfree, timestamp)
    &&& holds(m, ("vmstat"@, ""@, "pglazyfreed"@), vmstat.pglazyfreed, timestamp)
    &&& holds(m, ("vmstat"@, ""@, "pgrefill"@), vmstat.pgrefill, timestamp)
    &&& holds(m, ("vmstat"@, ""@, "pgfault"@), vmstat.pgfault, timestamp)
    &&& holds(m, ("vmstat"@, ""@, "pgmajfault"@), vmstat.pgmajfault, timestamp)
    &&& holds(m, ("vmstat"@, ""@, "pgsteal_kswapd"@), vmstat.pgsteal_kswapd, timestamp)
    &&& holds(m, ("vmstat"@, ""@, "pgsteal_direct"@), vmstat.pgsteal_direct, timestamp)
    &&& holds(m, ("vmstat"@, ""@, "pgscan_kswapd"@), vmstat.pgscan_kswapd, timestamp)
    &&& holds(m, ("vmstat"@, ""@, "pgscan_direct"@), vmstat.pgscan_direct, timestamp)
    &&& holds(m, ("vmstat"@, ""@, "pgscan_direct_throttle"@), vmstat.pgscan_direct_throttle, timestamp)
    &&& holds(m, ("vmstat"@, ""@, "zone_reclaim_failed"@), vmstat.zone_reclaim_failed, timestamp)
    &&& holds(m, ("vmstat"@, ""@, "pginodesteal"@), vmstat.pginodesteal, timestamp)
    &&& holds(m, ("vmstat"@, ""@, "kswapd_inodesteal"@), vmstat.kswapd_inodesteal, timestamp)
    &&& holds(m, ("vmstat"@, ""@, "kswapd_low_wmark_hit_quickly"@), vmstat.kswapd_low_wmark_hit_quickly, timestamp)
    &&& holds(m, ("vmstat"@, ""@, "kswapd_high_wmark_hit_quickly"@), vmstat.kswapd_high_wmark_hit_quickly, timestamp)
    &&& holds(m, ("vmstat"@, ""@, "pageoutrun"@), vmstat.pageoutrun, timestamp)
    &&& holds(m, ("vmstat"@, ""@, "pgrotated"@), vmstat.pgrotated, timestamp)
    &&& holds(m, ("vmstat"@, ""@, "drop_pagecache"@), vmstat.drop_pagecache, timestamp)
    &&& holds(m, ("vmstat"@, ""@, "drop_slab"@), vmstat.drop_slab, timestamp)
    &&& holds(m, ("vmstat"@, ""@, "oom_kill"@), vmstat.oom_kill, timestamp)
    &&& holds(m, ("vmstat"@, ""@, "numa_pte_updates"@), vmstat.numa_pte_updates, timestamp)
    &&& holds(m, ("vmstat"@, ""@, "numa_huge_pte_updates"@), vmstat.numa_huge_pte_updates, timestamp)
    &&& holds(m, ("vmstat"@, ""@, "numa_hint_faults"@), vmstat.numa_hint_faults, timestamp)
    &&& holds(m, ("vmstat"@, ""@, "numa_hint_faults_local"@), vmstat.numa_hint_faults_local, timestamp)
    &&& holds(m, ("vmstat"@, ""@, "numa_pages_migrated"@), vmstat.numa_pages_migrated, timestamp)
    &&& holds(m, ("vmstat"@, ""@, "pgmigrate_success"@), vmstat.pgmigrate_success, timestamp)
    &&& holds(m, ("vmstat"@, ""@, "pgmigrate_fail"@), vmstat.pgmigrate_fail, timestamp)
    &&& holds(m, ("vmstat"@, ""@, "compact_migrate_scanned"@), vmstat.compact_migrate_scanned, timestamp)
    &&& holds(m, ("vmstat"@, ""@, "compact_free_scanned"@), vmstat.compact_free_scanned, timestamp)
    &&& holds(m, ("vmstat"@, ""@, "compact_isolated"@), vmstat.compact_isolated, timestamp)
    &&& holds(m, ("vmstat"@, ""@, "compact_stall"@), vmstat.compact_stall, timestamp)
    &&& holds(m, ("vmstat"@, ""@, "compact_fail"@), vmstat.compact_fail, timestamp)
    &&& holds(m, ("vmstat"@, ""@, "compact_success"@), vmstat.compact_success, timestamp)
    &&& holds(m, ("vmstat"@, ""@, "compact_daemon_wake"@), vmstat.compact_daemon_wake, timestamp)
    &&& holds(m, ("vmstat"@, ""@, "compact_daemon_migrate_scanned"@), vmstat.compact_daemon_migrate_scanned, timestamp)
    &&& holds(m, ("vmstat"@, ""@, "compact_daemon_free_scanned"@), vmstat.compact_daemon_free_scanned, timestamp)
    &&& holds(m, ("vmstat"@, ""@, "htlb_buddy_alloc_success"@), vmstat.htlb_buddy_alloc_success, timestamp)
    &&& holds(m, ("vmstat"@, ""@, "htlb_buddy_alloc_fail"@), vmstat.htlb_buddy_alloc_fail, timestamp)
    &&& holds(m, ("vmstat"@, ""@, "unevictable_pgs_culled"@), vmstat.unevictable_pgs_culled, timestamp)
    &&& holds(m, ("vmstat"@, ""@, "unevictable_pgs_scanned"@), vmstat.unevictable_pgs_scanned, timestamp)
    &&& holds(m, ("vmstat"@, ""@, "unevictable_pgs_rescued"@), vmstat.unevictable_pgs_rescued, timestamp)
    &&& holds(m, ("vmstat"@, ""@, "unevictable_pgs_mlocked"@), vmstat.unevictable_pgs_mlocked, timestamp)
    &&& holds(m, ("vmstat"@, ""@, "unevictable_pgs_munlocked"@), vmstat.unevictable_pgs_munlocked, timestamp)
    &&& holds(m, ("vmstat"@, ""@, "unevictable_pgs_cleared"@), vmstat.unevictable_pgs_cleared, timestamp)
    &&& holds(m, ("vmstat"@, ""@, "unevictable_pgs_stranded"@), vmstat.unevictable_pgs_stranded, timestamp)
    &&& holds(m, ("vmstat"@, ""@, "thp_fault_alloc"@), vmstat.thp_fault_alloc, timestamp)
    &&& holds(m, ("vmstat"@, ""@, "thp_fault_fallback"@), vmstat.thp_fault_fallback, timestamp)
    &&& holds(m, ("vmstat"@, ""@, "thp_collapse_alloc"@), vmstat.thp_collapse_alloc, timestamp)
    &&& holds(m, ("vmstat"@, ""@, "thp_collapse_alloc_failed"@), vmstat.thp_collapse_alloc_failed, timestamp)
    &&& holds(m, ("vmstat"@, ""@, "thp_file_alloc"@), vmstat.thp_file_alloc, timestamp)
    &&& holds(m, ("vmstat"@, ""@, "thp_file_mapped"@), vmstat.thp_file_mapped, timestamp)
    &&& holds(m, ("vmstat"@, ""@, "thp_split_page"@), vmstat.thp_split_page, timestamp)
    &&& holds(m, ("vmstat"@, ""@, "thp_split_page_failed"@), vmstat.thp_split_page_failed, timestamp)
    &&& holds(m, ("vmstat"@, ""@, "thp_deferred_split_page"@), vmstat.thp_deferred_split_page, timestamp)
    &&& holds(m, ("vmstat"@, ""@, "thp_split_pmd"@), vmstat.thp_split_pmd, timestamp)
    &&& holds(m, ("vmstat"@, ""@, "thp_zero_page_alloc"@), vmstat.thp_zero_page_alloc, timestamp)
    &&& holds(m, ("vmstat"@, ""@, "thp_zero_page_alloc_failed"@), vmstat.thp_zero_page_alloc_failed, timestamp)
    &&& holds(m, ("vmstat"@, ""@, "thp_swpout"@), vmstat.thp_swpout, timestamp)
    &&& holds(m, ("vmstat"@, ""@, "thp_swpout_fallback"@), vmstat.thp_swpout_fallback, timestamp)
    &&& holds(m, ("vmstat"@, ""@, "balloon_inflate"@), vmstat.balloon_inflate, timestamp)
    &&& holds(m, ("vmstat"@, ""@, "balloon_deflate"@), vmstat.balloon_deflate, timestamp)
    &&& holds(m, ("vmstat"@, ""@, "balloon_migrate"@), vmstat.balloon_migrate, timestamp)
    &&& holds(m, ("vmstat"@, ""@, "swap_ra"@), vmstat.swap_ra, timestamp)
    &&& holds(m, ("vmstat"@, ""@, "swap_ra_hit"@), vmstat.swap_ra_hit, timestamp)
    &&& holds(m, ("vmstat"@, ""@, "nr_unstable"@), vmstat.nr_unstable, timestamp)
    &&& holds(m, ("vmstat"@, ""@, "workingset_nodes"@), vmstat.workingset_nodes.unwrap_or(0), timestamp)
    &&& holds(m, ("vmstat"@, ""@, "workingset_refault_file"@), vmstat.workingset_refault_file.unwrap_or(0), timestamp)
    &&& holds(m, ("vmstat"@, ""@, "workingset_activate_anon"@), vmstat.workingset_activate_anon.unwrap_or(0), timestamp)
    &&& holds(m, ("vmstat"@, ""@, "workingset_activate_file"@), vmstat.workingset_activate_file.unwrap_or(0), timestamp)
    &&& holds(m, ("vmstat"@, ""@, "workingset_restore_anon"@), vmstat.workingset_restore_anon.unwrap_or(0), timestamp)
    &&& holds(m, ("vmstat"@, ""@, "workingset_restore_file"@), vmstat.workingset_restore_file.unwrap_or(0), timestamp)
    &&& holds(m, ("vmstat"@, ""@, "nr_file_hugepages"@), vmstat.nr_file_hugepages.unwrap_or(0), timestamp)
    &&& holds(m, ("vmstat"@, ""@, "nr_file_pmdmapped"@), vmstat.nr_file_pmdmapped.unwrap_or(0), timestamp)
    &&& holds(m, ("vmstat"@, ""@, "nr_throttled_written"@), vmstat.nr_throttled_written.unwrap_or(0), timestamp)
    &&& holds(m, ("vmstat"@, ""@, "nr_kernel_misc_reclaimable"@), vmstat.nr_kernel_misc_reclaimable.unwrap_or(0), timestamp)
    &&& holds(m, ("vmstat"@, ""@, "nr_foll_pin_acquired"@), vmstat.nr_foll_pin_acquired.unwrap_or(0), timestamp)
    &&& holds(m, ("vmstat"@, ""@, "nr_foll_pin_released"@), vmstat.nr_foll_pin_released.unwrap_or(0), timestamp)
    &&& holds(m, ("vmstat"@, ""@, "nr_shadow_call_stack"@), vmstat.nr_shadow_call_stack.unwrap_or(0), timestamp)
    &&& holds(m, ("vmstat"@, ""@, "nr_sec_page_table_pages"@), vmstat.nr_sec_page_table_pages.unwrap_or(0), timestamp)
    &&& holds(m, ("vmstat"@, ""@, "nr_swapcached"@), vmstat.nr_swapcached.unwrap_or(0), timestamp)
    &&& holds(m, ("vmstat"@, ""@, "pgpromote_success"@), vmstat.pgpromote_success.unwrap_or(0), timestamp)
    &&& holds(m, ("vmstat"@, ""@, "pgpromote_candidate"@), vmstat.pgpromote_candidate.unwrap_or(0), timestamp)
    &&& holds(m, ("vmstat"@, ""@, "pgalloc_device"@), vmstat.pgalloc_device.unwrap_or(0), timestamp)
    &&& holds(m, ("vmstat"@, ""@, "pgskip_device"@), vmstat.pgskip_device.unwrap_or(0), timestamp)
    &&& holds(m, ("vmstat"@, ""@, "pgreuse"@), vmstat.pgreuse.unwrap_or(0), timestamp)
    &&& holds(m, ("vmstat"@, ""@, "pgsteal_khugepaged"@), vmstat.pgsteal_khugepaged.unwrap_or(0), timestamp)
    &&& holds(m, ("vmstat"@, ""@, "pgdemote_kswapd"@), vmstat.pgdemote_kswapd.unwrap_or(0), timestamp)
    &&& holds(m, ("vmstat"@, ""@, "pgdemote_direct"@), vmstat.pgdemote_direct.unwrap_or(0), timestamp)
    &&& holds(m, ("vmstat"@, ""@, "pgdemote_khugepaged"@), vmstat.pgdemote_khugepaged.unwrap_or(0), timestamp)
    &&& holds(m, ("vmstat"@, ""@, "pgscan_khugepaged"@), vmstat.pgscan_khugepaged.unwrap_or(0), timestamp)
    &&& holds(m, ("vmstat"@, ""@, "pgscan_anon"@), vmstat.pgscan_anon.unwrap_or(0), timestamp)
    &&& holds(m, ("vmstat"@, ""@, "pgscan_file"@), vmstat.pgscan_file.unwrap_or(0), timestamp)
    &&& holds(m, ("vmstat"@, ""@, "pgsteal_anon"@), vmstat.pgsteal_anon.unwrap_or(0), timestamp)
    &&& holds(m, ("vmstat"@, ""@, "pgsteal_file"@), vmstat.pgsteal_file.unwrap_or(0), timestamp)
    &&& holds(m, ("vmstat"@, ""@, "slabs_scanned"@), vmstat.slabs_scanned.unwrap_or(0), timestamp)
    &&& holds(m, ("vmstat"@, ""@, "thp_migration_success"@), vmstat.thp_migration_success.unwrap_or(0), timestamp)
    &&& holds(m, ("vmstat"@, ""@, "thp_migration_fail"@), vmstat.thp_migration_fail.unwrap_or(0), timestamp)
    &&& holds(m, ("vmstat"@, ""@, "thp_migration_split"@), vmstat.thp_migration_split.unwrap_or(0), timestamp)
    &&& holds(m, ("vmstat"@, ""@, "cma_alloc_success"@), vmstat.cma_alloc_success.unwrap_or(0), timestamp)
    &&& holds(m, ("vmstat"@, ""@, "cma_alloc_fail"@), vmstat.cma_alloc_fail.unwrap_or(0), timestamp)
    &&& holds(m, ("vmstat"@, ""@, "thp_fault_fallback_charge"@), vmstat.thp_fault_fallback_charge.unwrap_or(0), timestamp)
    &&& holds(m, ("vmstat"@, ""@, "thp_file_fallback"@), vmstat.thp_file_fallback.unwrap_or(0), timestamp)
    &&& holds(m, ("vmstat"@, ""@, "thp_file_fallback_charge"@), vmstat.thp_file_fallback_charge.unwrap_or(0), timestamp)
    &&& holds(m, ("vmstat"@, ""@, "thp_scan_exceed_none_pte"@), vmstat.thp_scan_exceed_none_pte.unwrap_or(0), timestamp)
    &&& holds(m, ("vmstat"@, ""@, "thp_scan_exceed_swap_pte"@), vmstat.thp_scan_exceed_swap_pte.unwrap_or(0), timestamp)
    &&& holds(m, ("vmstat"@, ""@, "thp_scan_exceed_share_pte"@), vmstat.thp_scan_exceed_share_pte.unwrap_or(0), timestamp)
    &&& holds(m, ("vmstat"@, ""@, "ksm_swpin_copy"@), vmstat.ksm_swpin_copy.unwrap_or(0), timestamp)
    &&& holds(m, ("vmstat"@, ""@, "cow_ksm"@), vmstat.cow_ksm.unwrap_or(0), timestamp)
    &&& holds(m, ("vmstat"@, ""@, "zswpin"@), vmstat.zswpin.unwrap_or(0), timestamp)
    &&& holds(m, ("vmstat"@, ""@, "zswpout"@), vmstat.zswpout.unwrap_or(0), timestamp)
}

/// Enough of the spelling of the vmstat counter names to tell any two of them apart.
proof fn lemma_vmstat_names()
    ensures
        "allocstall_dma"@.len() == 14,
        "allocstall_dma32"@.len() == 16,
        "allocstall_movable"@.len() == 18,
        "allocstall_normal"@.len() == 17,
        "balloon_deflate"@.len() == 15,
        "balloon_inflate"@.len() == 15,
        "balloon_migrate"@.len() == 15,
        "cma_alloc_fail"@.len() == 14,
        "cma_alloc_success"@.len() == 17,
        "compact_daemon_free_scanned"@.len() == 27,
        "compact_daemon_migrate_scanned"@.len() == 30,
        "compact_daemon_wake"@.len() == 19,
        "compact_fail"@.len() == 12,
        "compact_free_scanned"@.len() == 20,
        "compact_isolated"@.len() == 16,
        "compact_migrate_scanned"@.len() == 23,
        "compact_stall"@.len() == 13,
        "compact_success"@.len() == 15,
        "cow_ksm"@.len() == 7,
        "drop_pagecache"@.len() == 14,
        "drop_slab"@.len() == 9,
        "htlb_buddy_alloc_fail"@.len() == 21,
        "htlb_buddy_alloc_success"@.len() == 24,
        "ksm_swpin_copy"@.len() == 14,
        "kswapd_high_wmark_hit_quickly"@.len() == 29,
        "kswapd_inodesteal"@.len() == 17,
        "kswapd_low_wmark_hit_quickly"@.len() == 28,
        "nr_active_anon"@.len() == 14,
        "nr_active_file"@.len() == 14,
        "nr_anon_pages"@.len() == 13,
        "nr_anon_transparent_hugepages"@.len() == 29,
        "nr_bounce"@.len() == 9,
        "nr_dirtied"@.len() == 10,
        "nr_dirty"@.len() == 8,
        "nr_dirty_background_threshold"@.len() == 29,
        "nr_dirty_threshold"@.len() == 18,
        "nr_file_hugepages"@.len() == 17,
        "nr_file_pages"@.len() == 13,
        "nr_file_pmdmapped"@.len() == 17,
        "nr_foll_pin_acquired"@.len() == 20,
        "nr_foll_pin_released"@.len() == 20,
        "nr_free_cma"@.len() == 11,
        "nr_free_pages"@.len() == 13,
        "nr_inactive_anon"@.len() == 16,
        "nr_inactive_file"@.len() == 16,
        "nr_isolated_anon"@.len() == 16,
        "nr_isolated_file"@.len() == 16,
        "nr_kernel_misc_reclaimable"@.len() == 26,
        "nr_kernel_stack"@.len() == 15,
        "nr_mapped"@.len() == 9,
        "nr_mlock"@.len() == 8,
        "nr_page_table_pages"@.len() == 19,
        "nr_sec_page_table_pages"@.len() == 23,
        "nr_shadow_call_stack"@.len() == 20,
        "nr_shmem"@.len() == 8,
        "nr_shmem_hugepages"@.len() == 18,
        "nr_shmem_pmdmapped"@.len() == 18,
        "nr_slab_reclaimable"@.len() == 19,
        "nr_slab_unreclaimable"@.len() == 21,
        "nr_swapcached"@.len() == 13,
        "nr_throttled_written"@.len() == 20,
        "nr_unevictable"@.len() == 14,
        "nr_unstable"@.len() == 11,
        "nr_vmscan_immediate_reclaim"@.len() == 27,
        "nr_vmscan_write"@.len() == 15,
        "nr_writeback"@.len() == 12,
        "nr_writeback_temp"@.len() == 17,
        "nr_written"@.len() == 10,
        "nr_zone_active_anon"@.len() == 19,
        "nr_zone_active_file"@.len() == 19,
        "nr_zone_inactive_anon"@.len() == 21,
        "nr_zone_inactive_file"@.len() == 21,
        "nr_zone_unevictable"@.len() == 19,
        "nr_zone_write_pending"@.len() == 21,
        "nr_zspages"@.len() == 10,
        "numa_foreign"@.len() == 12,
        "numa_hint_faults"@.len() == 16,
        "numa_hint_faults_local"@.len() == 22,
        "numa_hit"@.len() == 8,
        "numa_huge_pte_updates"@.len() == 21,
        "numa_interleave"@.len() == 15,
        "numa_local"@.len() == 10,
        "numa_miss"@.len() == 9,
        "numa_other"@.len() == 10,
        "numa_pages_migrated"@.len() == 19,
        "numa_pte_updates"@.len() == 16,
        "oom_kill"@.len() == 8,
        "pageoutrun"@.len() == 10,
        "pgactivate"@.len() == 10,
        "pgalloc_device"@.len() == 14,
        "pgalloc_dma"@.len() == 11,
        "pgalloc_dma32"@.len() == 13,
        "pgalloc_movable"@.len() == 15,
        "pgalloc_normal"@.len() == 14,
        "pgdeactivate"@.len() == 12,
        "pgdemote_direct"@.len() == 15,
        "pgdemote_khugepaged"@.len() == 19,
        "pgdemote_kswapd"@.len() == 15,
        "pgfault"@.len() == 7,
        "pgfree"@.len() == 6,
        "pginodesteal"@.len() == 12,
        "pglazyfree"@.len() == 10,
        "pglazyfreed"@.len() == 11,
        "pgmajfault"@.len() == 10,
        "pgmigrate_fail"@.len() == 14,
        "pgmigrate_success"@.len() == 17,
        "pgpgin"@.len() == 6,
        "pgpgout"@.len() == 7,
        "pgpromote_candidate"@.len() == 19,
        "pgpromote_success"@.len() == 17,
        "pgrefill"@.len() == 8,
        "pgreuse"@.len() == 7,
        "pgrotated"@.len() == 9,
        "pgscan_anon"@.len() == 11,
        "pgscan_direct"@.len() == 13,
        "pgscan_direct_throttle"@.len() == 22,
        "pgscan_file"@.len() == 11,
        "pgscan_khugepaged"@.len() == 17,
        "pgscan_kswapd"@.len() == 13,
        "pgskip_device"@.len() == 13,
        "pgskip_dma"@.len() == 10,
        "pgskip_dma32"@.len() == 12,
        "pgskip_movable"@.len() == 14,
        "pgskip_normal"@.len() == 13,
        "pgsteal_anon"@.len() == 12,
        "pgsteal_direct"@.len() == 14,
        "pgsteal_file"@.len() == 12,
        "pgsteal_khugepaged"@.len() == 18,
        "pgsteal_kswapd"@.len() == 14,
        "pswpin"@.len() == 6,
        "pswpout"@.len() == 7,
        "slabs_scanned"@.len() == 13,
        "swap_ra"@.len() == 7,
        "swap_ra_hit"@.len() == 11,
        "thp_collapse_alloc"@.len() == 18,
        "thp_collapse_alloc_failed"@.len() == 25,
        "thp_deferred_split_page"@.len() == 23,
        "thp_fault_alloc"@.len() == 15,
        "thp_fault_fallback"@.len() == 18,
        "thp_fault_fallback_charge"@.len() == 25,
        "thp_file_alloc"@.len() == 14,
        "thp_file_fallback"@.len() == 17,
        "thp_file_fallback_charge"@.len() == 24,
        "thp_file_mapped"@.len() == 15,
        "thp_migration_fail"@.len() == 18,
        "thp_migration_split"@.len() == 19,
        "thp_migration_success"@.len() == 21,
        "thp_scan_exceed_none_pte"@.len() == 24,
        "thp_scan_exceed_share_pte"@.len() == 25,
        "thp_scan_exceed_swap_pte"@.len() == 24,
        "thp_split_page"@.len() == 14,
        "thp_split_page_failed"@.len() == 21,
        "thp_split_pmd"@.len() == 13,
        "thp_swpout"@.len() == 10,
        "thp_swpout_fallback"@.len() == 19,
        "thp_zero_page_alloc"@.len() == 19,
        "thp_zero_page_alloc_failed"@.len() == 26,
        "unevictable_pgs_cleared"@.len() == 23,
        "unevictable_pgs_culled"@.len() == 22,
        "unevictable_pgs_mlocked"@.len() == 23,
        "unevictable_pgs_munlocked"@.len() == 25,
        "unevictable_pgs_rescued"@.len() == 23,
        "unevictable_pgs_scanned"@.len() == 23,
        "unevictable_pgs_stranded"@.len() == 24,
        "workingset_activate_anon"@.len() == 24,
        "workingset_activate_file"@.len() == 24,
        "workingset_nodereclaim"@.len() == 22,
        "workingset_nodes"@.len() == 16,
        "workingset_refault_file"@.len() == 23,
        "workingset_restore_anon"@.len() == 23,
        "workingset_restore_file"@.len() == 23,
        "zone_reclaim_failed"@.len() == 19,
        "zswpin"@.len() == 6,
        "zswpout"@.len() == 7,
        "allocstall_dma"@[0] == 'a',
        "allocstall_dma32"@[0] == 'a',
        "allocstall_movable"@[0] == 'a',
        "allocstall_normal"@[0] == 'a',
        "balloon_deflate"@[0] == 'b',
        "balloon_deflate"@[8] == 'd',
        "balloon_inflate"@[0] == 'b',
        "balloon_inflate"@[8] == 'i',
        "balloon_migrate"@[0] == 'b',
        "balloon_migrate"@[8] == 'm',
        "cma_alloc_fail"@[0] == 'c',
        "cma_alloc_success"@[0] == 'c',
        "compact_daemon_free_scanned"@[0] == 'c',
        "compact_daemon_wake"@[0] == 'c',
        "compact_fail"@[0] == 'c',
        "compact_free_scanned"@[0] == 'c',
        "compact_isolated"@[0] == 'c',
        "compact_migrate_scanned"@[0] == 'c',
        "compact_stall"@[0] == 'c',
        "compact_success"@[0] == 'c',
        "cow_ksm"@[0] == 'c',
        "drop_pagecache"@[0] == 'd',
        "drop_slab"@[0] == 'd',
        "htlb_buddy_alloc_fail"@[0] == 'h',
        "htlb_buddy_alloc_success"@[0] == 'h',
        "ksm_swpin_copy"@[0] == 'k',
        "kswapd_high_wmark_hit_quickly"@[0] == 'k',
        "kswapd_inodesteal"@[0] == 'k',
        "nr_active_anon"@[0] == 'n',
        "nr_active_anon"@[3] == 'a',
        "nr_active_anon"@[10] == 'a',
        "nr_active_file"@[0] == 'n',
        "nr_active_file"@[3] == 'a',
        "nr_active_file"@[10] == 'f',
        "nr_anon_pages"@[0] == 'n',
        "nr_anon_pages"@[3] == 'a',
        "nr_anon_transparent_hugepages"@[0] == 'n',
        "nr_anon_transparent_hugepages"@[3] == 'a',
        "nr_bounce"@[0] == 'n',
        "nr_bounce"@[1] == 'r',
        "nr_bounce"@[3] == 'b',
        "nr_dirtied"@[0] == 'n',
        "nr_dirtied"@[1] == 'r',
        "nr_dirtied"@[3] == 'd',
        "nr_dirty"@[0] == 'n',
        "nr_dirty"@[1] == 'r',
        "nr_dirty"@[3] == 'd',
        "nr_dirty_background_threshold"@[0] == 'n',
        "nr_dirty_background_threshold"@[3] == 'd',
        "nr_dirty_threshold"@[0] == 'n',
        "nr_dirty_threshold"@[3] == 'd',
        "nr_file_hugepages"@[0] == 'n',
        "nr_file_hugepages"@[3] == 'f',
        "nr_file_hugepages"@[8] == 'h',
        "nr_file_pages"@[0] == 'n',
        "nr_file_pages"@[3] == 'f',
        "nr_file_pages"@[4] == 'i',
        "nr_file_pmdmapped"@[0] == 'n',
        "nr_file_pmdmapped"@[3] == 'f',
        "nr_file_pmdmapped"@[8] == 'p',
        "nr_foll_pin_acquired"@[0] == 'n',
        "nr_foll_pin_acquired"@[3] == 'f',
        "nr_foll_pin_acquired"@[12] == 'a',
        "nr_foll_pin_released"@[0] == 'n',
        "nr_foll_pin_released"@[3] == 'f',
        "nr_foll_pin_released"@[12] == 'r',
        "nr_free_cma"@[0] == 'n',
        "nr_free_cma"@[3] == 'f',
        "nr_free_pages"@[0] == 'n',
        "nr_free_pages"@[3] == 'f',
        "nr_free_pages"@[4] == 'r',
        "nr_inactive_anon"@[0] == 'n',
        "nr_inactive_anon"@[1] == 'r',
        "nr_inactive_anon"@[4] == 'n',
        "nr_inactive_anon"@[12] == 'a',
        "nr_inactive_file"@[0] == 'n',
        "nr_inactive_file"@[1] == 'r',
        "nr_inactive_file"@[4] == 'n',
        "nr_inactive_file"@[12] == 'f',
        "nr_isolated_anon"@[0] == 'n',
        "nr_isolated_anon"@[1] == 'r',
        "nr_isolated_anon"@[4] == 's',
        "nr_isolated_anon"@[12] == 'a',
        "nr_isolated_file"@[0] == 'n',
        "nr_isolated_file"@[1] == 'r',
        "nr_isolated_file"@[4] == 's',
        "nr_isolated_file"@[12] == 'f',
        "nr_kernel_misc_reclaimable"@[0] == 'n',
        "nr_kernel_stack"@[0] == 'n',
        "nr_kernel_stack"@[1] == 'r',
        "nr_kernel_stack"@[3] == 'k',
        "nr_mapped"@[0] == 'n',
        "nr_mapped"@[1] == 'r',
        "nr_mapped"@[3] == 'm',
        "nr_mlock"@[0] == 'n',
        "nr_mlock"@[1] == 'r',
        "nr_mlock"@[3] == 'm',
        "nr_page_table_pages"@[0] == 'n',
        "nr_page_table_pages"@[1] == 'r',
        "nr_page_table_pages"@[3] == 'p',
        "nr_sec_page_table_pages"@[0] == 'n',
        "nr_shadow_call_stack"@[0] == 'n',
        "nr_shadow_call_stack"@[3] == 's',
        "nr_shmem"@[0] == 'n',
        "nr_shmem"@[1] == 'r',
        "nr_shmem"@[3] == 's',
        "nr_shmem_hugepages"@[0] == 'n',
        "nr_shmem_hugepages"@[3] == 's',
        "nr_shmem_hugepages"@[9] == 'h',
        "nr_shmem_pmdmapped"@[0] == 'n',
        "nr_shmem_pmdmapped"@[3] == 's',
        "nr_shmem_pmdmapped"@[9] == 'p',
        "nr_slab_reclaimable"@[0] == 'n',
        "nr_slab_reclaimable"@[1] == 'r',
        "nr_slab_reclaimable"@[3] == 's',
        "nr_slab_unreclaimable"@[0] == 'n',
        "nr_slab_unreclaimable"@[1] == 'r',
        "nr_slab_unreclaimable"@[3] == 's',
        "nr_swapcached"@[0] == 'n',
        "nr_swapcached"@[3] == 's',
        "nr_throttled_written"@[0] == 'n',
        "nr_throttled_written"@[3] == 't',
        "nr_unevictable"@[0] == 'n',
        "nr_unevictable"@[3] == 'u',
        "nr_unstable"@[0] == 'n',
        "nr_unstable"@[3] == 'u',
        "nr_vmscan_immediate_reclaim"@[0] == 'n',
        "nr_vmscan_write"@[0] == 'n',
        "nr_vmscan_write"@[1] == 'r',
        "nr_vmscan_write"@[3] == 'v',
        "nr_writeback"@[0] == 'n',
        "nr_writeback"@[1] == 'r',
        "nr_writeback_temp"@[0] == 'n',
        "nr_writeback_temp"@[3] == 'w',
        "nr_written"@[0] == 'n',
        "nr_written"@[1] == 'r',
        "nr_written"@[3] == 'w',
        "nr_zone_active_anon"@[0] == 'n',
        "nr_zone_active_anon"@[1] == 'r',
        "nr_zone_active_anon"@[3] == 'z',
        "nr_zone_active_anon"@[8] == 'a',
        "nr_zone_active_anon"@[15] == 'a',
        "nr_zone_active_file"@[0] == 'n',
        "nr_zone_active_file"@[1] == 'r',
        "nr_zone_active_file"@[3] == 'z',
        "nr_zone_active_file"@[8] == 'a',
        "nr_zone_active_file"@[15] == 'f',
        "nr_zone_inactive_anon"@[0] == 'n',
        "nr_zone_inactive_anon"@[1] == 'r',
        "nr_zone_inactive_anon"@[3] == 'z',
        "nr_zone_inactive_anon"@[8] == 'i',
        "nr_zone_inactive_anon"@[17] == 'a',
        "nr_zone_inactive_file"@[0] == 'n',
        "nr_zone_inactive_file"@[1] == 'r',
        "nr_zone_inactive_file"@[3] == 'z',
        "nr_zone_inactive_file"@[8] == 'i',
        "nr_zone_inactive_file"@[17] == 'f',
        "nr_zone_unevictable"@[0] == 'n',
        "nr_zone_unevictable"@[1] == 'r',
        "nr_zone_unevictable"@[3] == 'z',
        "nr_zone_unevictable"@[8] == 'u',
        "nr_zone_write_pending"@[0] == 'n',
        "nr_zone_write_pending"@[1] == 'r',
        "nr_zone_write_pending"@[3] == 'z',
        "nr_zone_write_pending"@[8] == 'w',
        "nr_zspages"@[0] == 'n',
        "nr_zspages"@[1] == 'r',
        "nr_zspages"@[3] == 'z',
        "numa_foreign"@[0] == 'n',
        "numa_foreign"@[1] == 'u',
        "numa_hint_faults"@[0] == 'n',
        "numa_hint_faults"@[1] == 'u',
        "numa_hint_faults"@[5] == 'h',
        "numa_hint_faults_local"@[0] == 'n',
        "numa_hit"@[0] == 'n',
        "numa_hit"@[1] == 'u',
        "numa_huge_pte_updates"@[0] == 'n',
        "numa_huge_pte_updates"@[1] == 'u',
        "numa_interleave"@[0] == 'n',
        "numa_interleave"@[1] == 'u',
        "numa_local"@[0] == 'n',
        "numa_local"@[1] == 'u',
        "numa_local"@[5] == 'l',
        "numa_miss"@[0] == 'n',
        "numa_miss"@[1] == 'u',
        "numa_other"@[0] == 'n',
        "numa_other"@[1] == 'u',
        "numa_other"@[5] == 'o',
        "numa_pages_migrated"@[0] == 'n',
        "numa_pages_migrated"@[1] == 'u',
        "numa_pte_updates"@[0] == 'n',
        "numa_pte_updates"@[1] == 'u',
        "numa_pte_updates"@[5] == 'p',
        "oom_kill"@[0] == 'o',
        "pageoutrun"@[0] == 'p',
        "pageoutrun"@[1] == 'a',
        "pgactivate"@[0] == 'p',
        "pgactivate"@[1] == 'g',
        "pgactivate"@[2] == 'a',
        "pgalloc_device"@[0] == 'p',
        "pgalloc_device"@[2] == 'a',
        "pgalloc_device"@[8] == 'd',
        "pgalloc_dma"@[0] == 'p',
        "pgalloc_dma"@[2] == 'a',
        "pgalloc_dma32"@[0] == 'p',
        "pgalloc_dma32"@[2] == 'a',
        "pgalloc_movable"@[0] == 'p',
        "pgalloc_movable"@[2] == 'a',
        "pgalloc_normal"@[0] == 'p',
        "pgalloc_normal"@[2] == 'a',
        "pgalloc_normal"@[8] == 'n',
        "pgdeactivate"@[0] == 'p',
        "pgdeactivate"@[2] == 'd',
        "pgdemote_direct"@[0] == 'p',
        "pgdemote_direct"@[2] == 'd',
        "pgdemote_direct"@[9] == 'd',
        "pgdemote_khugepaged"@[0] == 'p',
        "pgdemote_khugepaged"@[2] == 'd',
        "pgdemote_kswapd"@[0] == 'p',
        "pgdemote_kswapd"@[2] == 'd',
        "pgdemote_kswapd"@[9] == 'k',
        "pgfault"@[0] == 'p',
        "pgfault"@[1] == 'g',
        "pgfault"@[2] == 'f',
        "pgfree"@[0] == 'p',
        "pgfree"@[1] == 'g',
        "pgfree"@[2] == 'f',
        "pginodesteal"@[0] == 'p',
        "pginodesteal"@[2] == 'i',
        "pglazyfree"@[0] == 'p',
        "pglazyfree"@[1] == 'g',
        "pglazyfree"@[2] == 'l',
        "pglazyfreed"@[0] == 'p',
        "pglazyfreed"@[2] == 'l',
        "pgmajfault"@[0] == 'p',
        "pgmajfault"@[1] == 'g',
        "pgmajfault"@[2] == 'm',
        "pgmigrate_fail"@[0] == 'p',
        "pgmigrate_fail"@[2] == 'm',
        "pgmigrate_success"@[0] == 'p',
        "pgmigrate_success"@[2] == 'm',
        "pgpgin"@[0] == 'p',
        "pgpgin"@[1] == 'g',
        "pgpgin"@[2] == 'p',
        "pgpgout"@[0] == 'p',
        "pgpgout"@[1] == 'g',
        "pgpgout"@[2] == 'p',
        "pgpromote_candidate"@[0] == 'p',
        "pgpromote_candidate"@[2] == 'p',
        "pgpromote_success"@[0] == 'p',
        "pgpromote_success"@[2] == 'p',
        "pgrefill"@[0] == 'p',
        "pgreuse"@[0] == 'p',
        "pgreuse"@[1] == 'g',
        "pgreuse"@[2] == 'r',
        "pgrotated"@[0] == 'p',
        "pgscan_anon"@[0] == 'p',
        "pgscan_anon"@[2] == 's',
        "pgscan_anon"@[7] == 'a',
        "pgscan_direct"@[0] == 'p',
        "pgscan_direct"@[2] == 's',
        "pgscan_direct"@[3] == 'c',
        "pgscan_direct"@[7] == 'd',
        "pgscan_direct_throttle"@[0] == 'p',
        "pgscan_file"@[0] == 'p',
        "pgscan_file"@[2] == 's',
        "pgscan_file"@[7] == 'f',
        "pgscan_khugepaged"@[0] == 'p',
        "pgscan_khugepaged"@[2] == 's',
        "pgscan_kswapd"@[0] == 'p',
        "pgscan_kswapd"@[2] == 's',
        "pgscan_kswapd"@[3] == 'c',
        "pgscan_kswapd"@[7] == 'k',
        "pgskip_device"@[0] == 'p',
        "pgskip_device"@[2] == 's',
        "pgskip_device"@[3] == 'k',
        "pgskip_device"@[7] == 'd',
        "pgskip_dma"@[0] == 'p',
        "pgskip_dma"@[1] == 'g',
        "pgskip_dma"@[2] == 's',
        "pgskip_dma32"@[0] == 'p',
        "pgskip_dma32"@[2] == 's',
        "pgskip_dma32"@[3] == 'k',
        "pgskip_movable"@[0] == 'p',
        "pgskip_movable"@[2] == 's',
        "pgskip_movable"@[3] == 'k',
        "pgskip_normal"@[0] == 'p',
        "pgskip_normal"@[2] == 's',
        "pgskip_normal"@[3] == 'k',
        "pgskip_normal"@[7] == 'n',
        "pgsteal_anon"@[0] == 'p',
        "pgsteal_anon"@[2] == 's',
        "pgsteal_anon"@[3] == 't',
        "pgsteal_anon"@[8] == 'a',
        "pgsteal_direct"@[0] == 'p',
        "pgsteal_direct"@[2] == 's',
        "pgsteal_direct"@[3] == 't',
        "pgsteal_direct"@[8] == 'd',
        "pgsteal_file"@[0] == 'p',
        "pgsteal_file"@[2] == 's',
        "pgsteal_file"@[3] == 't',
        "pgsteal_file"@[8] == 'f',
        "pgsteal_khugepaged"@[0] == 'p',
        "pgsteal_kswapd"@[0] == 'p',
        "pgsteal_kswapd"@[2] == 's',
        "pgsteal_kswapd"@[3] == 't',
        "pgsteal_kswapd"@[8] == 'k',
        "pswpin"@[0] == 'p',
        "pswpin"@[1] == 's',
        "pswpout"@[0] == 'p',
        "pswpout"@[1] == 's',
        "slabs_scanned"@[0] == 's',
        "swap_ra"@[0] == 's',
        "swap_ra_hit"@[0] == 's',
        "thp_collapse_alloc"@[0] == 't',
        "thp_collapse_alloc"@[4] == 'c',
        "thp_collapse_alloc_failed"@[0] == 't',
        "thp_collapse_alloc_failed"@[4] == 'c',
        "thp_deferred_split_page"@[0] == 't',
        "thp_fault_alloc"@[0] == 't',
        "thp_fault_alloc"@[5] == 'a',
        "thp_fault_fallback"@[0] == 't',
        "thp_fault_fallback"@[4] == 'f',
        "thp_fault_fallback_charge"@[0] == 't',
        "thp_fault_fallback_charge"@[4] == 'f',
        "thp_file_alloc"@[0] == 't',
        "thp_file_alloc"@[4] == 'f',
        "thp_file_fallback"@[0] == 't',
        "thp_file_fallback_charge"@[0] == 't',
        "thp_file_fallback_charge"@[4] == 'f',
        "thp_file_mapped"@[0] == 't',
        "thp_file_mapped"@[5] == 'i',
        "thp_migration_fail"@[0] == 't',
        "thp_migration_fail"@[4] == 'm',
        "thp_migration_split"@[0] == 't',
        "thp_migration_split"@[4] == 'm',
        "thp_migration_success"@[0] == 't',
        "thp_migration_success"@[4] == 'm',
        "thp_scan_exceed_none_pte"@[0] == 't',
        "thp_scan_exceed_none_pte"@[4] == 's',
        "thp_scan_exceed_none_pte"@[16] == 'n',
        "thp_scan_exceed_share_pte"@[0] == 't',
        "thp_scan_exceed_share_pte"@[4] == 's',
        "thp_scan_exceed_swap_pte"@[0] == 't',
        "thp_scan_exceed_swap_pte"@[4] == 's',
        "thp_scan_exceed_swap_pte"@[16] == 's',
        "thp_split_page"@[0] == 't',
        "thp_split_page"@[4] == 's',
        "thp_split_page_failed"@[0] == 't',
        "thp_split_page_failed"@[4] == 's',
        "thp_split_pmd"@[0] == 't',
        "thp_swpout"@[0] == 't',
        "thp_swpout_fallback"@[0] == 't',
        "thp_swpout_fallback"@[4] == 's',
        "thp_zero_page_alloc"@[0] == 't',
        "thp_zero_page_alloc"@[4] == 'z',
        "thp_zero_page_alloc_failed"@[0] == 't',
        "unevictable_pgs_cleared"@[0] == 'u',
        "unevictable_pgs_cleared"@[16] == 'c',
        "unevictable_pgs_culled"@[0] == 'u',
        "unevictable_pgs_mlocked"@[0] == 'u',
        "unevictable_pgs_mlocked"@[16] == 'm',
        "unevictable_pgs_munlocked"@[0] == 'u',
        "unevictable_pgs_rescued"@[0] == 'u',
        "unevictable_pgs_rescued"@[16] == 'r',
        "unevictable_pgs_scanned"@[0] == 'u',
        "unevictable_pgs_scanned"@[16] == 's',
        "unevictable_pgs_stranded"@[0] == 'u',
        "workingset_activate_anon"@[0] == 'w',
        "workingset_activate_anon"@[20] == 'a',
        "workingset_activate_file"@[0] == 'w',
        "workingset_activate_file"@[20] == 'f',
        "workingset_nodereclaim"@[0] == 'w',
        "workingset_nodes"@[0] == 'w',
        "workingset_refault_file"@[0] == 'w',
        "workingset_refault_file"@[13] == 'f',
        "workingset_restore_anon"@[0] == 'w',
        "workingset_restore_anon"@[13] == 's',
        "workingset_restore_anon"@[19] == 'a',
        "workingset_restore_file"@[0] == 'w',
        "workingset_restore_file"@[13] == 's',
        "workingset_restore_file"@[19] == 'f',
        "zone_reclaim_failed"@[0] == 'z',
        "zswpin"@[0] == 'z',
        "zswpout"@[0] == 'z',
{
    reveal_strlit("allocstall_dma");
    reveal_strlit("allocstall_dma32");
    reveal_strlit("allocstall_movable");
    reveal_strlit("allocstall_normal");
    reveal_strlit("balloon_deflate");
    reveal_strlit("balloon_inflate");
    reveal_strlit("balloon_migrate");
    reveal_strlit("cma_alloc_fail");
    reveal_strlit("cma_alloc_success");
    reveal_strlit("compact_daemon_free_scanned");
    reveal_strlit("compact_daemon_migrate_scanned");
    reveal_strlit("compact_daemon_wake");
    reveal_strlit("compact_fail");
    reveal_strlit("compact_free_scanned");
    reveal_strlit("compact_isolated");
    reveal_strlit("compact_migrate_scanned");
    reveal_strlit("compact_stall");
    reveal_strlit("compact_success");
    reveal_strlit("cow_ksm");
    reveal_strlit("drop_pagecache");
    reveal_strlit("drop_slab");
    reveal_strlit("htlb_buddy_alloc_fail");
    reveal_strlit("htlb_buddy_alloc_success");
    reveal_strlit("ksm_swpin_copy");
    reveal_strlit("kswapd_high_wmark_hit_quickly");
    reveal_strlit("kswapd_inodesteal");
    reveal_strlit("kswapd_low_wmark_hit_quickly");
    reveal_strlit("nr_active_anon");
    reveal_strlit("nr_active_file");
    reveal_strlit("nr_anon_pages");
    reveal_strlit("nr_anon_transparent_hugepages");
    reveal_strlit("nr_bounce");
    reveal_strlit("nr_dirtied");
    reveal_strlit("nr_dirty");
    reveal_strlit("nr_dirty_background_threshold");
    reveal_strlit("nr_dirty_threshold");
    reveal_strlit("nr_file_hugepages");
    reveal_strlit("nr_file_pages");
    reveal_strlit("nr_file_pmdmapped");
    reveal_strlit("nr_foll_pin_acquired");
    reveal_strlit("nr_foll_pin_released");
    reveal_strlit("nr_free_cma");
    reveal_strlit("nr_free_pages");
    reveal_strlit("nr_inactive_anon");
    reveal_strlit("nr_inactive_file");
    reveal_strlit("nr_isolated_anon");
    reveal_strlit("nr_isolated_file");
    reveal_strlit("nr_kernel_misc_reclaimable");
    reveal_strlit("nr_kernel_stack");
    reveal_strlit("nr_mapped");
    reveal_strlit("nr_mlock");
    reveal_strlit("nr_page_table_pages");
    reveal_strlit("nr_sec_page_table_pages");
    reveal_strlit("nr_shadow_call_stack");
    reveal_strlit("nr_shmem");
    reveal_strlit("nr_shmem_hugepages");
    reveal_strlit("nr_shmem_pmdmapped");
    reveal_strlit("nr_slab_reclaimable");
    reveal_strlit("nr_slab_unreclaimable");
    reveal_strlit("nr_swapcached");
    reveal_strlit("nr_throttled_written");
    reveal_strlit("nr_unevictable");
    reveal_strlit("nr_unstable");
    reveal_strlit("nr_vmscan_immediate_reclaim");
    reveal_strlit("nr_vmscan_write");
    reveal_strlit("nr_writeback");
    reveal_strlit("nr_writeback_temp");
    reveal_strlit("nr_written");
    reveal_strlit("nr_zone_active_anon");
    reveal_strlit("nr_zone_active_file");
    reveal_strlit("nr_zone_inactive_anon");
    reveal_strlit("nr_zone_inactive_file");
    reveal_strlit("nr_zone_unevictable");
    reveal_strlit("nr_zone_write_pending");
    reveal_strlit("nr_zspages");
    reveal_strlit("numa_foreign");
    reveal_strlit("numa_hint_faults");
    reveal_strlit("numa_hint_faults_local");
    reveal_strlit("numa_hit");
    reveal_strlit("numa_huge_pte_updates");
    reveal_strlit("numa_interleave");
    reveal_strlit("numa_local");
    reveal_strlit("numa_miss");
    reveal_strlit("numa_other");
    reveal_strlit("numa_pages_migrated");
    reveal_strlit("numa_pte_updates");
    reveal_strlit("oom_kill");
    reveal_strlit("pageoutrun");
    reveal_strlit("pgactivate");
    reveal_strlit("pgalloc_device");
    reveal_strlit("pgalloc_dma");
    reveal_strlit("pgalloc_dma32");
    reveal_strlit("pgalloc_movable");
    reveal_strlit("pgalloc_normal");
    reveal_strlit("pgdeactivate");
    reveal_strlit("pgdemote_direct");
    reveal_strlit("pgdemote_khugepaged");
    reveal_strlit("pgdemote_kswapd");
    reveal_strlit("pgfault");
    reveal_strlit("pgfree");
    reveal_strlit("pginodesteal");
    reveal_strlit("pglazyfree");
    reveal_strlit("pglazyfreed");
    reveal_strlit("pgmajfault");
    reveal_strlit("pgmigrate_fail");
    reveal_strlit("pgmigrate_success");
    reveal_strlit("pgpgin");
    reveal_strlit("pgpgout");
    reveal_strlit("pgpromote_candidate");
    reveal_strlit("pgpromote_success");
    reveal_strlit("pgrefill");
    reveal_strlit("pgreuse");
    reveal_strlit("pgrotated");
    reveal_strlit("pgscan_anon");
    reveal_strlit("pgscan_direct");
    reveal_strlit("pgscan_direct_throttle");
    reveal_strlit("pgscan_file");
    reveal_strlit("pgscan_khugepaged");
    reveal_strlit("pgscan_kswapd");
    reveal_strlit("pgskip_device");
    reveal_strlit("pgskip_dma");
    reveal_strlit("pgskip_dma32");
    reveal_strlit("pgskip_movable");
    reveal_strlit("pgskip_normal");
    reveal_strlit("pgsteal_anon");
    reveal_strlit("pgsteal_direct");
    reveal_strlit("pgsteal_file");
    reveal_strlit("pgsteal_khugepaged");
    reveal_strlit("pgsteal_kswapd");
    reveal_strlit("pswpin");
    reveal_strlit("pswpout");
    reveal_strlit("slabs_scanned");
    reveal_strlit("swap_ra");
    reveal_strlit("swap_ra_hit");
    reveal_strlit("thp_collapse_alloc");
    reveal_strlit("thp_collapse_alloc_failed");
    reveal_strlit("thp_deferred_split_page");
    reveal_strlit("thp_fault_alloc");
    reveal_strlit("thp_fault_fallback");
    reveal_strlit("thp_fault_fallback_charge");
    reveal_strlit("thp_file_alloc");
    reveal_strlit("thp_file_fallback");
    reveal_strlit("thp_file_fallback_charge");
    reveal_strlit("thp_file_mapped");
    reveal_strlit("thp_migration_fail");
    reveal_strlit("thp_migration_split");
    reveal_strlit("thp_migration_success");
    reveal_strlit("thp_scan_exceed_none_pte");
    reveal_strlit("thp_scan_exceed_share_pte");
    reveal_strlit("thp_scan_exceed_swap_pte");
    reveal_strlit("thp_split_page");
    reveal_strlit("thp_split_page_failed");
    reveal_strlit("thp_split_pmd");
    reveal_strlit("thp_swpout");
    reveal_strlit("thp_swpout_fallback");
    reveal_strlit("thp_zero_page_alloc");
    reveal_strlit("thp_zero_page_alloc_failed");
    reveal_strlit("unevictable_pgs_cleared");
    reveal_strlit("unevictable_pgs_culled");
    reveal_strlit("unevictable_pgs_mlocked");
    reveal_strlit("unevictable_pgs_munlocked");
    reveal_strlit("unevictable_pgs_rescued");
    reveal_strlit("unevictable_pgs_scanned");
    reveal_strlit("unevictable_pgs_stranded");
    reveal_strlit("workingset_activate_anon");
    reveal_strlit("workingset_activate_file");
    reveal_strlit("workingset_nodereclaim");
    reveal_strlit("workingset_nodes");
    reveal_strlit("workingset_refault_file");
    reveal_strlit("workingset_restore_anon");
    reveal_strlit("workingset_restore_file");
    reveal_strlit("zone_reclaim_failed");
    reveal_strlit("zswpin");
    reveal_strlit("zswpout");
}

#[verifier::rlimit(50)]
proof fn lemma_vmstat_part0_read_back(m: Map<KeyView, Statistic>, vmstat: VmStatSample, timestamp: i64)
    ensures
        holds(apply_samples(m, "vmstat"@, ""@, timestamp, vmstat_samples(vmstat)), ("vmstat"@, ""@, "nr_free_pages"@), vmstat.nr_free_pages, timestamp),
        holds(apply_samples(m, "vmstat"@, ""@, timestamp, vmstat_samples(vmstat)), ("vmstat"@, ""@, "nr_zone_inactive_anon"@), vmstat.nr_zone_inactive_anon, timestamp),
        holds(apply_samples(m, "vmstat"@, ""@, timestamp, vmstat_samples(vmstat)), ("vmstat"@, ""@, "nr_zone_active_anon"@), vmstat.nr_zone_active_anon, timestamp),
        holds(apply_samples(m, "vmstat"@, ""@, timestamp, vmstat_samples(vmstat)), ("vmstat"@, ""@, "nr_zone_inactive_file"@), vmstat.nr_zone_inactive_file, timestamp),
        holds(apply_samples(m, "vmstat"@, ""@, timestamp, vmstat_samples(vmstat)), ("vmstat"@, ""@, "nr_zone_active_file"@), vmstat.nr_zone_active_file, timestamp),
        holds(apply_samples(m, "vmstat"@, ""@, timestamp, vmstat_samples(vmstat)), ("vmstat"@, ""@, "nr_zone_unevictable"@), vmstat.nr_zone_unevictable, timestamp),
        holds(apply_samples(m, "vmstat"@, ""@, timestamp, vmstat_samples(vmstat)), ("vmstat"@, ""@, "nr_zone_write_pending"@), vmstat.nr_zone_write_pending, timestamp),
        holds(apply_samples(m, "vmstat"@, ""@, timestamp, vmstat_samples(vmstat)), ("vmstat"@, ""@, "nr_mlock"@), vmstat.nr_mlock, timestamp),
        holds(apply_samples(m, "vmstat"@, ""@, timestamp, vmstat_samples(vmstat)), ("vmstat"@, ""@, "nr_bounce"@), vmstat.nr_bounce, timestamp),
        holds(apply_samples(m, "vmstat"@, ""@, timestamp, vmstat_samples(vmstat)), ("vmstat"@, ""@, "nr_zspages"@), vmstat.nr_zspages, timestamp),
{
    lemma_vmstat_names();
    let s = vmstat_samples(vmstat);
    lemma_apply_samples_read_back(m, "vmstat"@, ""@, timestamp, s, 0);
    lemma_apply_samples_read_back(m, "vmstat"@, ""@, timestamp, s, 1);
    lemma_apply_samples_read_back(m, "vmstat"@, ""@, timestamp, s, 2);
    lemma_apply_samples_read_back(m, "vmstat"@, ""@, timestamp, s, 3);
    lemma_apply_samples_read_back(m, "vmstat"@, ""@, timestamp, s, 4);
    lemma_apply_samples_read_back(m, "vmstat"@, ""@, timestamp, s, 5);
    lemma_apply_samples_read_back(m, "vmstat"@, ""@, timestamp, s, 6);
    lemma_apply_samples_read_back(m, "vmstat"@, ""@, timestamp, s, 7);
    lemma_apply_samples_read_back(m, "vmstat"@, ""@, timestamp, s, 8);
    lemma_apply_samples_read_back(m, "vmstat"@, ""@, timestamp, s, 9);
}

#[verifier::rlimit(50)]
proof fn lemma_vmstat_part1_read_back(m: Map<KeyView, Statistic>, vmstat: VmStatSample, timestamp: i64)
    ensures
        holds(apply_samples(m, "vmstat"@, ""@, timestamp, vmstat_samples(vmstat)), ("vmstat"@, ""@, "nr_free_cma"@), vmstat.nr_free_cma, timestamp),
        holds(apply_samples(m, "vmstat"@, ""@, timestamp, vmstat_samples(vmstat)), ("vmstat"@, ""@, "numa_hit"@), vmstat.numa_hit, timestamp),
        holds(apply_samples(m, "vmstat"@, ""@, timestamp, vmstat_samples(vmstat)), ("vmstat"@, ""@, "numa_miss"@), vmstat.numa_miss, timestamp),
        holds(apply_samples(m, "vmstat"@, ""@, timestamp, vmstat_samples(vmstat)), ("vmstat"@, ""@, "numa_foreign"@), vmstat.numa_foreign, timestamp),
        holds(apply_samples(m, "vmstat"@, ""@, timestamp, vmstat_samples(vmstat)), ("vmstat"@, ""@, "numa_interleave"@), vmstat.numa_interleave, timestamp),
        holds(apply_samples(m, "vmstat"@, ""@, timestamp, vmstat_samples(vmstat)), ("vmstat"@, ""@, "numa_local"@), vmstat.numa_local, timestamp),
        holds(apply_samples(m, "vmstat"@, ""@, timestamp, vmstat_samples(vmstat)), ("vmstat"@, ""@, "numa_other"@), vmstat.numa_other, timestamp),
        holds(apply_samples(m, "vmstat"@, ""@, timestamp, vmstat_samples(vmstat)), ("vmstat"@, ""@, "nr_inactive_anon"@), vmstat.nr_inactive_anon, timestamp),
        holds(apply_samples(m, "vmstat"@, ""@, timestamp, vmstat_samples(vmstat)), ("vmstat"@, ""@, "nr_active_anon"@), vmstat.nr_active_anon, timestamp),
        holds(apply_samples(m, "vmstat"@, ""@, timestamp, vmstat_samples(vmstat)), ("vmstat"@, ""@, "nr_active_file"@), vmstat.nr_active_file, timestamp),
{
    lemma_vmstat_names();
    let s = vmstat_samples(vmstat);
    lemma_apply_samples_read_back(m, "vmstat"@, ""@, timestamp, s, 10);
    lemma_apply_samples_read_back(m, "vmstat"@, ""@, timestamp, s, 11);
    lemma_apply_samples_read_back(m, "vmstat"@, ""@, timestamp, s, 12);
    lemma_apply_samples_read_back(m, "vmstat"@, ""@, timestamp, s, 13);
    lemma_apply_samples_read_back(m, "vmstat"@, ""@, timestamp, s, 14);
    lemma_apply_samples_read_back(m, "vmstat"@, ""@, timestamp, s, 15);
    lemma_apply_samples_read_back(m, "vmstat"@, ""@, timestamp, s, 16);
    lemma_apply_samples_read_back(m, "vmstat"@, ""@, timestamp, s, 17);
    lemma_apply_samples_read_back(m, "vmstat"@, ""@, timestamp, s, 18);
    lemma_apply_samples_read_back(m, "vmstat"@, ""@, timestamp, s, 19);
}

#[verifier::rlimit(50)]
proof fn lemma_vmstat_part2_read_back(m: Map<KeyView, Statistic>, vmstat: VmStatSample, timestamp: i64)
    ensures
        holds(apply_samples(m, "vmstat"@, ""@, timestamp, vmstat_samples(vmstat)), ("vmstat"@, ""@, "nr_inactive_file"@), vmstat.nr_inactive_file, timestamp),
        holds(apply_samples(m, "vmstat"@, ""@, timestamp, vmstat_samples(vmstat)), ("vmstat"@, ""@, "nr_unevictable"@), vmstat.nr_unevictable, timestamp),
        holds(apply_samples(m, "vmstat"@, ""@, timestamp, vmstat_samples(vmstat)), ("vmstat"@, ""@, "nr_slab_reclaimable"@), vmstat.nr_slab_reclaimable, timestamp),
        holds(apply_samples(m, "vmstat"@, ""@, timestamp, vmstat_samples(vmstat)), ("vmstat"@, ""@, "nr_slab_unreclaimable"@), vmstat.nr_slab_unreclaimable, timestamp),
        holds(apply_samples(m, "vmstat"@, ""@, timestamp, vmstat_samples(vmstat)), ("vmstat"@, ""@, "nr_isolated_anon"@), vmstat.nr_isolated_anon, timestamp),
        holds(apply_samples(m, "vmstat"@, ""@, timestamp, vmstat_samples(vmstat)), ("vmstat"@, ""@, "nr_isolated_file"@), vmstat.nr_isolated_file, timestamp),
        holds(apply_samples(m, "vmstat"@, ""@, timestamp, vmstat_samples(vmstat)), ("vmstat"@, ""@, "workingset_nodereclaim"@), vmstat.workingset_nodereclaim, timestamp),
        holds(apply_samples(m, "vmstat"@, ""@, timestamp, vmstat_samples(vmstat)), ("vmstat"@, ""@, "nr_anon_pages"@), vmstat.nr_anon_pages, timestamp),
        holds(apply_samples(m, "vmstat"@, ""@, timestamp, vmstat_samples(vmstat)), ("vmstat"@, ""@, "nr_mapped"@), vmstat.nr_mapped, timestamp),
        holds(apply_samples(m, "vmstat"@, ""@, timestamp, vmstat_samples(vmstat)), ("vmstat"@, ""@, "nr_file_pages"@), vmstat.nr_file_pages, timestamp),
{
    lemma_vmstat_names();
    let s = vmstat_samples(vmstat);
    lemma_apply_samples_read_back(m, "vmstat"@, ""@, timestamp, s, 20);
    lemma_apply_samples_read_back(m, "vmstat"@, ""@, timestamp, s, 21);
    lemma_apply_samples_read_back(m, "vmstat"@, ""@, timestamp, s, 22);
    lemma_apply_samples_read_back(m, "vmstat"@, ""@, timestamp, s, 23);
    lemma_apply_samples_read_back(m, "vmstat"@, ""@, timestamp, s, 24);
    lemma_apply_samples_read_back(m, "vmstat"@, ""@, timestamp, s, 25);
    lemma_apply_samples_read_back(m, "vmstat"@, ""@, timestamp, s, 26);
    lemma_apply_samples_read_back(m, "vmstat"@, ""@, timestamp, s, 27);
    lemma_apply_samples_read_back(m, "vmstat"@, ""@, timestamp, s, 28);
    lemma_apply_samples_read_back(m, "vmstat"@, ""@, timestamp, s, 29);
}

#[verifier::rlimit(50)]
proof fn lemma_vmstat_part3_read_back(m: Map<KeyView, Statistic>, vmstat: VmStatSample, timestamp: i64)
    ensures
        holds(apply_samples(m, "vmstat"@, ""@, timestamp, vmstat_samples(vmstat)), ("vmstat"@, ""@, "nr_dirty"@), vmstat.nr_dirty, timestamp),
        holds(apply_samples(m, "vmstat"@, ""@, timestamp, vmstat_samples(vmstat)), ("vmstat"@, ""@, "nr_writeback"@), vmstat.nr_writeback, timestamp),
        holds(apply_samples(m, "vmstat"@, ""@, timestamp, vmstat_samples(vmstat)), ("vmstat"@, ""@, "nr_writeback_temp"@), vmstat.nr_writeback_temp, timestamp),
        holds(apply_samples(m, "vmstat"@, ""@, timestamp, vmstat_samples(vmstat)), ("vmstat"@, ""@, "nr_shmem"@), vmstat.nr_shmem, timestamp),
        holds(apply_samples(m, "vmstat"@, ""@, timestamp, vmstat_samples(vmstat)), ("vmstat"@, ""@, "nr_shmem_hugepages"@), vmstat.nr_shmem_hugepages, timestamp),
        holds(apply_samples(m, "vmstat"@, ""@, timestamp, vmstat_samples(vmstat)), ("vmstat"@, ""@, "nr_shmem_pmdmapped"@), vmstat.nr_shmem_pmdmapped, timestamp),
        holds(apply_samples(m, "vmstat"@, ""@, timestamp, vmstat_samples(vmstat)), ("vmstat"@, ""@, "nr_anon_transparent_hugepages"@), vmstat.nr_anon_transparent_hugepages, timestamp),
        holds(apply_samples(m, "vmstat"@, ""@, timestamp, vmstat_samples(vmstat)), ("vmstat"@, ""@, "nr_vmscan_write"@), vmstat.nr_vmscan_write, timestamp),
        holds(apply_samples(m, "vmstat"@, ""@, timestamp, vmstat_samples(vmstat)), ("vmstat"@, ""@, "nr_vmscan_immediate_reclaim"@), vmstat.nr_vmscan_immediate_reclaim, timestamp),
        holds(apply_samples(m, "vmstat"@, ""@, timestamp, vmstat_samples(vmstat)), ("vmstat"@, ""@, "nr_dirtied"@), vmstat.nr_dirtied, timestamp),
{
    lemma_vmstat_names();
    let s = vmstat_samples(vmstat);
    lemma_apply_samples_read_back(m, "vmstat"@, ""@, timestamp, s, 30);
    lemma_apply_samples_read_back(m, "vmstat"@, ""@, timestamp, s, 31);
    lemma_apply_samples_read_back(m, "vmstat"@, ""@, timestamp, s, 32);
    lemma_apply_samples_read_back(m, "vmstat"@, ""@, timestamp, s, 33);
    lemma_apply_samples_read_back(m, "vmstat"@, ""@, timestamp, s, 34);
    lemma_apply_samples_read_back(m, "vmstat"@, ""@, timestamp, s, 35);
    lemma_apply_samples_read_back(m, "vmstat"@, ""@, timestamp, s, 36);
    lemma_apply_samples_read_back(m, "vmstat"@, ""@, timestamp, s, 37);
    lemma_apply_samples_read_back(m, "vmstat"@, ""@, timestamp, s, 38);
    lemma_apply_samples_read_back(m, "vmstat"@, ""@, timestamp, s, 39);
}

#[verifier::rlimit(50)]
proof fn lemma_vmstat_part4_read_back(m: Map<KeyView, Statistic>, vmstat: VmStatSample, timestamp: i64)
    ensures
        holds(apply_samples(m, "vmstat"@, ""@, timestamp, vmstat_samples(vmstat)), ("vmstat"@, ""@, "nr_written"@), vmstat.nr_written, timestamp),
        holds(apply_samples(m, "vmstat"@, ""@, timestamp, vmstat_samples(vmstat)), ("vmstat"@, ""@, "nr_kernel_stack"@), vmstat.nr_kernel_stack, timestamp),
        holds(apply_samples(m, "vmstat"@, ""@, timestamp, vmstat_samples(vmstat)), ("vmstat"@, ""@, "nr_page_table_pages"@), vmstat.nr_page_table_pages, timestamp),
        holds(apply_samples(m, "vmstat"@, ""@, timestamp, vmstat_samples(vmstat)), ("vmstat"@, ""@, "nr_dirty_threshold"@), vmstat.nr_dirty_threshold, timestamp),
        holds(apply_samples(m, "vmstat"@, ""@, timestamp, vmstat_samples(vmstat)), ("vmstat"@, ""@, "nr_dirty_background_threshold"@), vmstat.nr_dirty_background_threshold, timestamp),
        holds(apply_samples(m, "vmstat"@, ""@, timestamp, vmstat_samples(vmstat)), ("vmstat"@, ""@, "pgpgin"@), vmstat.pgpgin, timestamp),
        holds(apply_samples(m, "vmstat"@, ""@, timestamp, vmstat_samples(vmstat)), ("vmstat"@, ""@, "pgpgout"@), vmstat.pgpgout, timestamp),
        holds(apply_samples(m, "vmstat"@, ""@, timestamp, vmstat_samples(vmstat)), ("vmstat"@, ""@, "pswpin"@), vmstat.pswpin, timestamp),
        holds(apply_samples(m, "vmstat"@, ""@, timestamp, vmstat_samples(vmstat)), ("vmstat"@, ""@, "pswpout"@), vmstat.pswpout, timestamp),
        holds(apply_samples(m, "vmstat"@, ""@, timestamp, vmstat_samples(vmstat)), ("vmstat"@, ""@, "pgalloc_dma"@), vmstat.pgalloc_dma, timestamp),
{
    lemma_vmstat_names();
    let s = vmstat_samples(vmstat);
    lemma_apply_samples_read_back(m, "vmstat"@, ""@, timestamp, s, 40);
    lemma_apply_samples_read_back(m, "vmstat"@, ""@, timestamp, s, 41);
    lemma_apply_samples_read_back(m, "vmstat"@, ""@, timestamp, s, 42);
    lemma_apply_samples_read_back(m, "vmstat"@, ""@, timestamp, s, 43);
    lemma_apply_samples_read_back(m, "vmstat"@, ""@, timestamp, s, 44);
    lemma_apply_samples_read_back(m, "vmstat"@, ""@, timestamp, s, 45);
    lemma_apply_samples_read_back(m, "vmstat"@, ""@, timestamp, s, 46);
    lemma_apply_samples_read_back(m, "vmstat"@, ""@, timestamp, s, 47);
    lemma_apply_samples_read_back(m, "vmstat"@, ""@, timestamp, s, 48);
    lemma_apply_samples_read_back(m, "vmstat"@, ""@, timestamp, s, 49);
}

#[verifier::rlimit(50)]
proof fn lemma_vmstat_part5_read_back(m: Map<KeyView, Statistic>, vmstat: VmStatSample, timestamp: i64)
    ensures
        holds(apply_samples(m, "vmstat"@, ""@, timestamp, vmstat_samples(vmstat)), ("vmstat"@, ""@, "pgalloc_dma32"@), vmstat.pgalloc_dma32, timestamp),
        holds(apply_samples(m, "vmstat"@, ""@, timestamp, vmstat_samples(vmstat)), ("vmstat"@, ""@, "pgalloc_normal"@), vmstat.pgalloc_normal, timestamp),
        holds(apply_samples(m, "vmstat"@, ""@, timestamp, vmstat_samples(vmstat)), ("vmstat"@, ""@, "pgalloc_movable"@), vmstat.pgalloc_movable, timestamp),
        holds(apply_samples(m, "vmstat"@, ""@, timestamp, vmstat_samples(vmstat)), ("vmstat"@, ""@, "allocstall_dma"@), vmstat.allocstall_dma, timestamp),
        holds(apply_samples(m, "vmstat"@, ""@, timestamp, vmstat_samples(vmstat)), ("vmstat"@, ""@, "allocstall_dma32"@), vmstat.allocstall_dma32, timestamp),
        holds(apply_samples(m, "vmstat"@, ""@, timestamp, vmstat_samples(vmstat)), ("vmstat"@, ""@, "allocstall_normal"@), vmstat.allocstall_normal, timestamp),
        holds(apply_samples(m, "vmstat"@, ""@, timestamp, vmstat_samples(vmstat)), ("vmstat"@, ""@, "allocstall_movable"@), vmstat.allocstall_movable, timestamp),
        holds(apply_samples(m, "vmstat"@, ""@, timestamp, vmstat_samples(vmstat)), ("vmstat"@, ""@, "pgskip_dma"@), vmstat.pgskip_dma, timestamp),
        holds(apply_samples(m, "vmstat"@, ""@, timestamp, vmstat_samples(vmstat)), ("vmstat"@, ""@, "pgskip_dma32"@), vmstat.pgskip_dma32, timestamp),
        holds(apply_samples(m, "vmstat"@, ""@, timestamp, vmstat_samples(vmstat)), ("vmstat"@, ""@, "pgskip_normal"@), vmstat.pgskip_normal, timestamp),
{
    lemma_vmstat_names();
    let s = vmstat_samples(vmstat);
    lemma_apply_samples_read_back(m, "vmstat"@, ""@, timestamp, s, 50);
    lemma_apply_samples_read_back(m, "vmstat"@, ""@, timestamp, s, 51);
    lemma_apply_samples_read_back(m, "vmstat"@, ""@, timestamp, s, 52);
    lemma_apply_samples_read_back(m, "vmstat"@, ""@, timestamp, s, 53);
    lemma_apply_samples_read_back(m, "vmstat"@, ""@, timestamp, s, 54);
    lemma_apply_samples_read_back(m, "vmstat"@, ""@, timestamp, s, 55);
    lemma_apply_samples_read_back(m, "vmstat"@, ""@, timestamp, s, 56);
    lemma_apply_samples_read_back(m, "vmstat"@, ""@, timestamp, s, 57);
    lemma_apply_samples_read_back(m, "vmstat"@, ""@, timestamp, s, 58);
    lemma_apply_samples_read_back(m, "vmstat"@, ""@, timestamp, s, 59);
}

#[verifier::rlimit(50)]
proof fn lemma_vmstat_part6_read_back(m: Map<KeyView, Statistic>, vmstat: VmStatSample, timestamp: i64)
    ensures
        holds(apply_samples(m, "vmstat"@, ""@, timestamp, vmstat_samples(vmstat)), ("vmstat"@, ""@, "pgskip_movable"@), vmstat.pgskip_movable, timestamp),
        holds(apply_samples(m, "vmstat"@, ""@, timestamp, vmstat_samples(vmstat)), ("vmstat"@, ""@, "pgfree"@), vmstat.pgfree, timestamp),
        holds(apply_samples(m, "vmstat"@, ""@, timestamp, vmstat_samples(vmstat)), ("vmstat"@, ""@, "pgactivate"@), vmstat.pgactivate, timestamp),
        holds(apply_samples(m, "vmstat"@, ""@, timestamp, vmstat_samples(vmstat)), ("vmstat"@, ""@, "pgdeactivate"@), vmstat.pgdeactivate, timestamp),
        holds(apply_samples(m, "vmstat"@, ""@, timestamp, vmstat_samples(vmstat)), ("vmstat"@, ""@, "pglazyfree"@), vmstat.pglazyfree, timestamp),
        holds(apply_samples(m, "vmstat"@, ""@, timestamp, vmstat_samples(vmstat)), ("vmstat"@, ""@, "pglazyfreed"@), vmstat.pglazyfreed, timestamp),
        holds(apply_samples(m, "vmstat"@, ""@, timestamp, vmstat_samples(vmstat)), ("vmstat"@, ""@, "pgrefill"@), vmstat.pgrefill, timestamp),
        holds(apply_samples(m, "vmstat"@, ""@, timestamp, vmstat_samples(vmstat)), ("vmstat"@, ""@, "pgfault"@), vmstat.pgfault, timestamp),
        holds(apply_samples(m, "vmstat"@, ""@, timestamp, vmstat_samples(vmstat)), ("vmstat"@, ""@, "pgmajfault"@), vmstat.pgmajfault, timestamp),
        holds(apply_samples(m, "vmstat"@, ""@, timestamp, vmstat_samples(vmstat)), ("vmstat"@, ""@, "pgsteal_kswapd"@), vmstat.pgsteal_kswapd, timestamp),
{
    lemma_vmstat_names();
    let s = vmstat_samples(vmstat);
    lemma_apply_samples_read_back(m, "vmstat"@, ""@, timestamp, s, 60);
    lemma_apply_samples_read_back(m, "vmstat"@, ""@, timestamp, s, 61);
    lemma_apply_samples_read_back(m, "vmstat"@, ""@, timestamp, s, 62);
    lemma_apply_samples_read_back(m, "vmstat"@, ""@, timestamp, s, 63);
    lemma_apply_samples_read_back(m, "vmstat"@, ""@, timestamp, s, 64);
    lemma_apply_samples_read_back(m, "vmstat"@, ""@, timestamp, s, 65);
    lemma_apply_samples_read_back(m, "vmstat"@, ""@, timestamp, s, 66);
    lemma_apply_samples_read_back(m, "vmstat"@, ""@, timestamp, s, 67);
    lemma_apply_samples_read_back(m, "vmstat"@, ""@, timestamp, s, 68);
    lemma_apply_samples_read_back(m, "vmstat"@, ""@, timestamp, s, 69);
}

#[verifier::rlimit(50)]
proof fn lemma_vmstat_part7_read_back(m: Map<KeyView, Statistic>, vmstat: VmStatSample, timestamp: i64)
    ensures
        holds(apply_samples(m, "vmstat"@, ""@, timestamp, vmstat_samples(vmstat)), ("vmstat"@, ""@, "pgsteal_direct"@), vmstat.pgsteal_direct, timestamp),
        holds(apply_samples(m, "vmstat"@, ""@, timestamp, vmstat_samples(vmstat)), ("vmstat"@, ""@, "pgscan_kswapd"@), vmstat.pgscan_kswapd, timestamp),
        holds(apply_samples(m, "vmstat"@, ""@, timestamp, vmstat_samples(vmstat)), ("vmstat"@, ""@, "pgscan_direct"@), vmstat.pgscan_direct, timestamp),
        holds(apply_samples(m, "vmstat"@, ""@, timestamp, vmstat_samples(vmstat)), ("vmstat"@, ""@, "pgscan_direct_throttle"@), vmstat.pgscan_direct_throttle, timestamp),
        holds(apply_samples(m, "vmstat"@, ""@, timestamp, vmstat_samples(vmstat)), ("vmstat"@, ""@, "zone_reclaim_failed"@), vmstat.zone_reclaim_failed, timestamp),
        holds(apply_samples(m, "vmstat"@, ""@, timestamp, vmstat_samples(vmstat)), ("vmstat"@, ""@, "pginodesteal"@), vmstat.pginodesteal, timestamp),
        holds(apply_samples(m, "vmstat"@, ""@, timestamp, vmstat_samples(vmstat)), ("vmstat"@, ""@, "kswapd_inodesteal"@), vmstat.kswapd_inodesteal, timestamp),
        holds(apply_samples(m, "vmstat"@, ""@, timestamp, vmstat_samples(vmstat)), ("vmstat"@, ""@, "kswapd_low_wmark_hit_quickly"@), vmstat.kswapd_low_wmark_hit_quickly, timestamp),
        holds(apply_samples(m, "vmstat"@, ""@, timestamp, vmstat_samples(vmstat)), ("vmstat"@, ""@, "kswapd_high_wmark_hit_quickly"@), vmstat.kswapd_high_wmark_hit_quickly, timestamp),
        holds(apply_samples(m, "vmstat"@, ""@, timestamp, vmstat_samples(vmstat)), ("vmstat"@, ""@, "pageoutrun"@), vmstat.pageoutrun, timestamp),
{
    lemma_vmstat_names();
    let s = vmstat_samples(vmstat);
    lemma_apply_samples_read_back(m, "vmstat"@, ""@, timestamp, s, 70);
    lemma_apply_samples_read_back(m, "vmstat"@, ""@, timestamp, s, 71);
    lemma_apply_samples_read_back(m, "vmstat"@, ""@, timestamp, s, 72);
    lemma_apply_samples_read_back(m, "vmstat"@, ""@, timestamp, s, 73);
    lemma_apply_samples_read_back(m, "vmstat"@, ""@, timestamp, s, 74);
    lemma_apply_samples_read_back(m, "vmstat"@, ""@, timestamp, s, 75);
    lemma_apply_samples_read_back(m, "vmstat"@, ""@, timestamp, s, 76);
    lemma_apply_samples_read_back(m, "vmstat"@, ""@, timestamp, s, 77);
    lemma_apply_samples_read_back(m, "vmstat"@, ""@, timestamp, s, 78);
    lemma_apply_samples_read_back(m, "vmstat"@, ""@, timestamp, s, 79);
}

#[verifier::rlimit(50)]
proof fn lemma_vmstat_part8_read_back(m: Map<KeyView, Statistic>, vmstat: VmStatSample, timestamp: i64)
    ensures
        holds(apply_samples(m, "vmstat"@, ""@, timestamp, vmstat_samples(vmstat)), ("vmstat"@, ""@, "pgrotated"@), vmstat.pgrotated, timestamp),
        holds(apply_samples(m, "vmstat"@, ""@, timestamp, vmstat_samples(vmstat)), ("vmstat"@, ""@, "drop_pagecache"@), vmstat.drop_pagecache, timestamp),
        holds(apply_samples(m, "vmstat"@, ""@, timestamp, vmstat_samples(vmstat)), ("vmstat"@, ""@, "drop_slab"@), vmstat.drop_slab, timestamp),
        holds(apply_samples(m, "vmstat"@, ""@, timestamp, vmstat_samples(vmstat)), ("vmstat"@, ""@, "oom_kill"@), vmstat.oom_kill, timestamp),
        holds(apply_samples(m, "vmstat"@, ""@, timestamp, vmstat_samples(vmstat)), ("vmstat"@, ""@, "numa_pte_updates"@), vmstat.numa_pte_updates, timestamp),
        holds(apply_samples(m, "vmstat"@, ""@, timestamp, vmstat_samples(vmstat)), ("vmstat"@, ""@, "numa_huge_pte_updates"@), vmstat.numa_huge_pte_updates, timestamp),
        holds(apply_samples(m, "vmstat"@, ""@, timestamp, vmstat_samples(vmstat)), ("vmstat"@, ""@, "numa_hint_faults"@), vmstat.numa_hint_faults, timestamp),
        holds(apply_samples(m, "vmstat"@, ""@, timestamp, vmstat_samples(vmstat)), ("vmstat"@, ""@, "numa_hint_faults_local"@), vmstat.numa_hint_faults_local, timestamp),
        holds(apply_samples(m, "vmstat"@, ""@, timestamp, vmstat_samples(vmstat)), ("vmstat"@, ""@, "numa_pages_migrated"@), vmstat.numa_pages_migrated, timestamp),
        holds(apply_samples(m, "vmstat"@, ""@, timestamp, vmstat_samples(vmstat)), ("vmstat"@, ""@, "pgmigrate_success"@), vmstat.pgmigrate_success, timestamp),
{
    lemma_vmstat_names();
    let s = vmstat_samples(vmstat);
    lemma_apply_samples_read_back(m, "vmstat"@, ""@, timestamp, s, 80);
    lemma_apply_samples_read_back(m, "vmstat"@, ""@, timestamp, s, 81);
    lemma_apply_samples_read_back(m, "vmstat"@, ""@, timestamp, s, 82);
    lemma_apply_samples_read_back(m, "vmstat"@, ""@, timestamp, s, 83);
    lemma_apply_samples_read_back(m, "vmstat"@, ""@, timestamp, s, 84);
    lemma_apply_samples_read_back(m, "vmstat"@, ""@, timestamp, s, 85);
    lemma_apply_samples_read_back(m, "vmstat"@, ""@, timestamp, s, 86);
    lemma_apply_samples_read_back(m, "vmstat"@, ""@, timestamp, s, 87);
    lemma_apply_samples_read_back(m, "vmstat"@, ""@, timestamp, s, 88);
    lemma_apply_samples_read_back(m, "vmstat"@, ""@, timestamp, s, 89);
}

#[verifier::rlimit(50)]
proof fn lemma_vmstat_part9_read_back(m: Map<KeyView, Statistic>, vmstat: VmStatSample, timestamp: i64)
    ensures
        holds(apply_samples(m, "vmstat"@, ""@, timestamp, vmstat_samples(vmstat)), ("vmstat"@, ""@, "pgmigrate_fail"@), vmstat.pgmigrate_fail, timestamp),
        holds(apply_samples(m, "vmstat"@, ""@, timestamp, vmstat_samples(vmstat)), ("vmstat"@, ""@, "compact_migrate_scanned"@), vmstat.compact_migrate_scanned, timestamp),
        holds(apply_samples(m, "vmstat"@, ""@, timestamp, vmstat_samples(vmstat)), ("vmstat"@, ""@, "compact_free_scanned"@), vmstat.compact_free_scanned, timestamp),
        holds(apply_samples(m, "vmstat"@, ""@, timestamp, vmstat_samples(vmstat)), ("vmstat"@, ""@, "compact_isolated"@), vmstat.compact_isolated, timestamp),
        holds(apply_samples(m, "vmstat"@, ""@, timestamp, vmstat_samples(vmstat)), ("vmstat"@, ""@, "compact_stall"@), vmstat.compact_stall, timestamp),
        holds(apply_samples(m, "vmstat"@, ""@, timestamp, vmstat_samples(vmstat)), ("vmstat"@, ""@, "compact_fail"@), vmstat.compact_fail, timestamp),
        holds(apply_samples(m, "vmstat"@, ""@, timestamp, vmstat_samples(vmstat)), ("vmstat"@, ""@, "compact_success"@), vmstat.compact_success, timestamp),
        holds(apply_samples(m, "vmstat"@, ""@, timestamp, vmstat_samples(vmstat)), ("vmstat"@, ""@, "compact_daemon_wake"@), vmstat.compact_daemon_wake, timestamp),
        holds(apply_samples(m, "vmstat"@, ""@, timestamp, vmstat_samples(vmstat)), ("vmstat"@, ""@, "compact_daemon_migrate_scanned"@), vmstat.compact_daemon_migrate_scanned, timestamp),
        holds(apply_samples(m, "vmstat"@, ""@, timestamp, vmstat_samples(vmstat)), ("vmstat"@, ""@, "compact_daemon_free_scanned"@), vmstat.compact_daemon_free_scanned, timestamp),
{
    lemma_vmstat_names();
    let s = vmstat_samples(vmstat);
    lemma_apply_samples_read_back(m, "vmstat"@, ""@, timestamp, s, 90);
    lemma_apply_samples_read_back(m, "vmstat"@, ""@, timestamp, s, 91);
    lemma_apply_samples_read_back(m, "vmstat"@, ""@, timestamp, s, 92);
    lemma_apply_samples_read_back(m, "vmstat"@, ""@, timestamp, s, 93);
    lemma_apply_samples_read_back(m, "vmstat"@, ""@, timestamp, s, 94);
    lemma_apply_samples_read_back(m, "vmstat"@, ""@, timestamp, s, 95);
    lemma_apply_samples_read_back(m, "vmstat"@, ""@, timestamp, s, 96);
    lemma_apply_samples_read_back(m, "vmstat"@, ""@, timestamp, s, 97);
    lemma_apply_samples_read_back(m, "vmstat"@, ""@, timestamp, s, 98);
    lemma_apply_samples_read_back(m, "vmstat"@, ""@, timestamp, s, 99);
}

#[verifier::rlimit(50)]
proof fn lemma_vmstat_part10_read_back(m: Map<KeyView, Statistic>, vmstat: VmStatSample, timestamp: i64)
    ensures
        holds(apply_samples(m, "vmstat"@, ""@, timestamp, vmstat_samples(vmstat)), ("vmstat"@, ""@, "htlb_buddy_alloc_success"@), vmstat.htlb_buddy_alloc_success, timestamp),
        holds(apply_samples(m, "vmstat"@, ""@, timestamp, vmstat_samples(vmstat)), ("vmstat"@, ""@, "htlb_buddy_alloc_fail"@), vmstat.htlb_buddy_alloc_fail, timestamp),
        holds(apply_samples(m, "vmstat"@, ""@, timestamp, vmstat_samples(vmstat)), ("vmstat"@, ""@, "unevictable_pgs_culled"@), vmstat.unevictable_pgs_culled, timestamp),
        holds(apply_samples(m, "vmstat"@, ""@, timestamp, vmstat_samples(vmstat)), ("vmstat"@, ""@, "unevictable_pgs_scanned"@), vmstat.unevictable_pgs_scanned, timestamp),
        holds(apply_samples(m, "vmstat"@, ""@, timestamp, vmstat_samples(vmstat)), ("vmstat"@, ""@, "unevictable_pgs_rescued"@), vmstat.unevictable_pgs_rescued, timestamp),
        holds(apply_samples(m, "vmstat"@, ""@, timestamp, vmstat_samples(vmstat)), ("vmstat"@, ""@, "unevictable_pgs_mlocked"@), vmstat.unevictable_pgs_mlocked, timestamp),
        holds(apply_samples(m, "vmstat"@, ""@, timestamp, vmstat_samples(vmstat)), ("vmstat"@, ""@, "unevictable_pgs_munlocked"@), vmstat.unevictable_pgs_munlocked, timestamp),
        holds(apply_samples(m, "vmstat"@, ""@, timestamp, vmstat_samples(vmstat)), ("vmstat"@, ""@, "unevictable_pgs_cleared"@), vmstat.unevictable_pgs_cleared, timestamp),
        holds(apply_samples(m, "vmstat"@, ""@, timestamp, vmstat_samples(vmstat)), ("vmstat"@, ""@, "unevictable_pgs_stranded"@), vmstat.unevictable_pgs_stranded, timestamp),
        holds(apply_samples(m, "vmstat"@, ""@, timestamp, vmstat_samples(vmstat)), ("vmstat"@, ""@, "thp_fault_alloc"@), vmstat.thp_fault_alloc, timestamp),
{
    lemma_vmstat_names();
    let s = vmstat_samples(vmstat);
    lemma_apply_samples_read_back(m, "vmstat"@, ""@, timestamp, s, 100);
    lemma_apply_samples_read_back(m, "vmstat"@, ""@, timestamp, s, 101);
    lemma_apply_samples_read_back(m, "vmstat"@, ""@, timestamp, s, 102);
    lemma_apply_samples_read_back(m, "vmstat"@, ""@, timestamp, s, 103);
    lemma_apply_samples_read_back(m, "vmstat"@, ""@, timestamp, s, 104);
    lemma_apply_samples_read_back(m, "vmstat"@, ""@, timestamp, s, 105);
    lemma_apply_samples_read_back(m, "vmstat"@, ""@, timestamp, s, 106);
    lemma_apply_samples_read_back(m, "vmstat"@, ""@, timestamp, s, 107);
    lemma_apply_samples_read_back(m, "vmstat"@, ""@, timestamp, s, 108);
    lemma_apply_samples_read_back(m, "vmstat"@, ""@, timestamp, s, 109);
}

#[verifier::rlimit(50)]
proof fn lemma_vmstat_part11_read_back(m: Map<KeyView, Statistic>, vmstat: VmStatSample, timestamp: i64)
    ensures
        holds(apply_samples(m, "vmstat"@, ""@, timestamp, vmstat_samples(vmstat)), ("vmstat"@, ""@, "thp_fault_fallback"@), vmstat.thp_fault_fallback, timestamp),
        holds(apply_samples(m, "vmstat"@, ""@, timestamp, vmstat_samples(vmstat)), ("vmstat"@, ""@, "thp_collapse_alloc"@), vmstat.thp_collapse_alloc, timestamp),
        holds(apply_samples(m, "vmstat"@, ""@, timestamp, vmstat_samples(vmstat)), ("vmstat"@, ""@, "thp_collapse_alloc_failed"@), vmstat.thp_collapse_alloc_failed, timestamp),
        holds(apply_samples(m, "vmstat"@, ""@, timestamp, vmstat_samples(vmstat)), ("vmstat"@, ""@, "thp_file_alloc"@), vmstat.thp_file_alloc, timestamp),
        holds(apply_samples(m, "vmstat"@, ""@, timestamp, vmstat_samples(vmstat)), ("vmstat"@, ""@, "thp_file_mapped"@), vmstat.thp_file_mapped, timestamp),
        holds(apply_samples(m, "vmstat"@, ""@, timestamp, vmstat_samples(vmstat)), ("vmstat"@, ""@, "thp_split_page"@), vmstat.thp_split_page, timestamp),
        holds(apply_samples(m, "vmstat"@, ""@, timestamp, vmstat_samples(vmstat)), ("vmstat"@, ""@, "thp_split_page_failed"@), vmstat.thp_split_page_failed, timestamp),
        holds(apply_samples(m, "vmstat"@, ""@, timestamp, vmstat_samples(vmstat)), ("vmstat"@, ""@, "thp_deferred_split_page"@), vmstat.thp_deferred_split_page, timestamp),
        holds(apply_samples(m, "vmstat"@, ""@, timestamp, vmstat_samples(vmstat)), ("vmstat"@, ""@, "thp_split_pmd"@), vmstat.thp_split_pmd, timestamp),
        holds(apply_samples(m, "vmstat"@, ""@, timestamp, vmstat_samples(vmstat)), ("vmstat"@, ""@, "thp_zero_page_alloc"@), vmstat.thp_zero_page_alloc, timestamp),
{
    lemma_vmstat_names();
    let s = vmstat_samples(vmstat);
    lemma_apply_samples_read_back(m, "vmstat"@, ""@, timestamp, s, 110);
    lemma_apply_samples_read_back(m, "vmstat"@, ""@, timestamp, s, 111);
    lemma_apply_samples_read_back(m, "vmstat"@, ""@, timestamp, s, 112);
    lemma_apply_samples_read_back(m, "vmstat"@, ""@, timestamp, s, 113);
    lemma_apply_samples_read_back(m, "vmstat"@, ""@, timestamp, s, 114);
    lemma_apply_samples_read_back(m, "vmstat"@, ""@, timestamp, s, 115);
    lemma_apply_samples_read_back(m, "vmstat"@, ""@, timestamp, s, 116);
    lemma_apply_samples_read_back(m, "vmstat"@, ""@, timestamp, s, 117);
    lemma_apply_samples_read_back(m, "vmstat"@, ""@, timestamp, s, 118);
    lemma_apply_samples_read_back(m, "vmstat"@, ""@, timestamp, s, 119);
}

#[verifier::rlimit(50)]
proof fn lemma_vmstat_part12_read_back(m: Map<KeyView, Statistic>, vmstat: VmStatSample, timestamp: i64)
    ensures
        holds(apply_samples(m, "vmstat"@, ""@, timestamp, vmstat_samples(vmstat)), ("vmstat"@, ""@, "thp_zero_page_alloc_failed"@), vmstat.thp_zero_page_alloc_failed, timestamp),
        holds(apply_samples(m, "vmstat"@, ""@, timestamp, vmstat_samples(vmstat)), ("vmstat"@, ""@, "thp_swpout"@), vmstat.thp_swpout, timestamp),
        holds(apply_samples(m, "vmstat"@, ""@, timestamp, vmstat_samples(vmstat)), ("vmstat"@, ""@, "thp_swpout_fallback"@), vmstat.thp_swpout_fallback, timestamp),
        holds(apply_samples(m, "vmstat"@, ""@, timestamp, vmstat_samples(vmstat)), ("vmstat"@, ""@, "balloon_inflate"@), vmstat.balloon_inflate, timestamp),
        holds(apply_samples(m, "vmstat"@, ""@, timestamp, vmstat_samples(vmstat)), ("vmstat"@, ""@, "balloon_deflate"@), vmstat.balloon_deflate, timestamp),
        holds(apply_samples(m, "vmstat"@, ""@, timestamp, vmstat_samples(vmstat)), ("vmstat"@, ""@, "balloon_migrate"@), vmstat.balloon_migrate, timestamp),
        holds(apply_samples(m, "vmstat"@, ""@, timestamp, vmstat_samples(vmstat)), ("vmstat"@, ""@, "swap_ra"@), vmstat.swap_ra, timestamp),
        holds(apply_samples(m, "vmstat"@, ""@, timestamp, vmstat_samples(vmstat)), ("vmstat"@, ""@, "swap_ra_hit"@), vmstat.swap_ra_hit, timestamp),
        holds(apply_samples(m, "vmstat"@, ""@, timestamp, vmstat_samples(vmstat)), ("vmstat"@, ""@, "nr_unstable"@), vmstat.nr_unstable, timestamp),
        holds(apply_samples(m, "vmstat"@, ""@, timestamp, vmstat_samples(vmstat)), ("vmstat"@, ""@, "workingset_nodes"@), vmstat.workingset_nodes.unwrap_or(0), timestamp),
{
    lemma_vmstat_names();
    let s = vmstat_samples(vmstat);
    lemma_apply_samples_read_back(m, "vmstat"@, ""@, timestamp, s, 120);
    lemma_apply_samples_read_back(m, "vmstat"@, ""@, timestamp, s, 121);
    lemma_apply_samples_read_back(m, "vmstat"@, ""@, timestamp, s, 122);
    lemma_apply_samples_read_back(m, "vmstat"@, ""@, timestamp, s, 123);
    lemma_apply_samples_read_back(m, "vmstat"@, ""@, timestamp, s, 124);
    lemma_apply_samples_read_back(m, "vmstat"@, ""@, timestamp, s, 125);
    lemma_apply_samples_read_back(m, "vmstat"@, ""@, timestamp, s, 126);
    lemma_apply_samples_read_back(m, "vmstat"@, ""@, timestamp, s, 127);
    lemma_apply_samples_read_back(m, "vmstat"@, ""@, timestamp, s, 128);
    lemma_apply_samples_read_back(m, "vmstat"@, ""@, timestamp, s, 129);
}

#[verifier::rlimit(50)]
proof fn lemma_vmstat_part13_read_back(m: Map<KeyView, Statistic>, vmstat: VmStatSample, timestamp: i64)
    ensures
        holds(apply_samples(m, "vmstat"@, ""@, timestamp, vmstat_samples(vmstat)), ("vmstat"@, ""@, "workingset_refault_file"@), vmstat.workingset_refault_file.unwrap_or(0), timestamp),
        holds(apply_samples(m, "vmstat"@, ""@, timestamp, vmstat_samples(vmstat)), ("vmstat"@, ""@, "workingset_activate_anon"@), vmstat.workingset_activate_anon.unwrap_or(0), timestamp),
        holds(apply_samples(m, "vmstat"@, ""@, timestamp, vmstat_samples(vmstat)), ("vmstat"@, ""@, "workingset_activate_file"@), vmstat.workingset_activate_file.unwrap_or(0), timestamp),
        holds(apply_samples(m, "vmstat"@, ""@, timestamp, vmstat_samples(vmstat)), ("vmstat"@, ""@, "workingset_restore_anon"@), vmstat.workingset_restore_anon.unwrap_or(0), timestamp),
        holds(apply_samples(m, "vmstat"@, ""@, timestamp, vmstat_samples(vmstat)), ("vmstat"@, ""@, "workingset_restore_file"@), vmstat.workingset_restore_file.unwrap_or(0), timestamp),
        holds(apply_samples(m, "vmstat"@, ""@, timestamp, vmstat_samples(vmstat)), ("vmstat"@, ""@, "nr_file_hugepages"@), vmstat.nr_file_hugepages.unwrap_or(0), timestamp),
        holds(apply_samples(m, "vmstat"@, ""@, timestamp, vmstat_samples(vmstat)), ("vmstat"@, ""@, "nr_file_pmdmapped"@), vmstat.nr_file_pmdmapped.unwrap_or(0), timestamp),
        holds(apply_samples(m, "vmstat"@, ""@, timestamp, vmstat_samples(vmstat)), ("vmstat"@, ""@, "nr_throttled_written"@), vmstat.nr_throttled_written.unwrap_or(0), timestamp),
        holds(apply_samples(m, "vmstat"@, ""@, timestamp, vmstat_samples(vmstat)), ("vmstat"@, ""@, "nr_kernel_misc_reclaimable"@), vmstat.nr_kernel_misc_reclaimable.unwrap_or(0), timestamp),
{
    lemma_vmstat_names();
    let s = vmstat_samples(vmstat);
    lemma_apply_samples_read_back(m, "vmstat"@, ""@, timestamp, s, 131);
    lemma_apply_samples_read_back(m, "vmstat"@, ""@, timestamp, s, 132);
    lemma_apply_samples_read_back(m, "vmstat"@, ""@, timestamp, s, 133);
    lemma_apply_samples_read_back(m, "vmstat"@, ""@, timestamp, s, 134);
    lemma_apply_samples_read_back(m, "vmstat"@, ""@, timestamp, s, 135);
    lemma_apply_samples_read_back(m, "vmstat"@, ""@, timestamp, s, 136);
    lemma_apply_samples_read_back(m, "vmstat"@, ""@, timestamp, s, 137);
    lemma_apply_samples_read_back(m, "vmstat"@, ""@, timestamp, s, 138);
    lemma_apply_samples_read_back(m, "vmstat"@, ""@, timestamp, s, 139);
}

#[verifier::rlimit(50)]
proof fn lemma_vmstat_part14_read_back(m: Map<KeyView, Statistic>, vmstat: VmStatSample, timestamp: i64)
    ensures
        holds(apply_samples(m, "vmstat"@, ""@, timestamp, vmstat_samples(vmstat)), ("vmstat"@, ""@, "nr_foll_pin_acquired"@), vmstat.nr_foll_pin_acquired.unwrap_or(0), timestamp),
        holds(apply_samples(m, "vmstat"@, ""@, timestamp, vmstat_samples(vmstat)), ("vmstat"@, ""@, "nr_foll_pin_released"@), vmstat.nr_foll_pin_released.unwrap_or(0), timestamp),
        holds(apply_samples(m, "vmstat"@, ""@, timestamp, vmstat_samples(vmstat)), ("vmstat"@, ""@, "nr_shadow_call_stack"@), vmstat.nr_shadow_call_stack.unwrap_or(0), timestamp),
        holds(apply_samples(m, "vmstat"@, ""@, timestamp, vmstat_samples(vmstat)), ("vmstat"@, ""@, "nr_sec_page_table_pages"@), vmstat.nr_sec_page_table_pages.unwrap_or(0), timestamp),
        holds(apply_samples(m, "vmstat"@, ""@, timestamp, vmstat_samples(vmstat)), ("vmstat"@, ""@, "nr_swapcached"@), vmstat.nr_swapcached.unwrap_or(0), timestamp),
        holds(apply_samples(m, "vmstat"@, ""@, timestamp, vmstat_samples(vmstat)), ("vmstat"@, ""@, "pgpromote_success"@), vmstat.pgpromote_success.unwrap_or(0), timestamp),
        holds(apply_samples(m, "vmstat"@, ""@, timestamp, vmstat_samples(vmstat)), ("vmstat"@, ""@, "pgpromote_candidate"@), vmstat.pgpromote_candidate.unwrap_or(0), timestamp),
        holds(apply_samples(m, "vmstat"@, ""@, timestamp, vmstat_samples(vmstat)), ("vmstat"@, ""@, "pgalloc_device"@), vmstat.pgalloc_device.unwrap_or(0), timestamp),
        holds(apply_samples(m, "vmstat"@, ""@, timestamp, vmstat_samples(vmstat)), ("vmstat"@, ""@, "pgskip_device"@), vmstat.pgskip_device.unwrap_or(0), timestamp),
        holds(apply_samples(m, "vmstat"@, ""@, timestamp, vmstat_samples(vmstat)), ("vmstat"@, ""@, "pgreuse"@), vmstat.pgreuse.unwrap_or(0), timestamp),
{
    lemma_vmstat_names();
    let s = vmstat_samples(vmstat);
    lemma_apply_samples_read_back(m, "vmstat"@, ""@, timestamp, s, 140);
    lemma_apply_samples_read_back(m, "vmstat"@, ""@, timestamp, s, 141);
    lemma_apply_samples_read_back(m, "vmstat"@, ""@, timestamp, s, 142);
    lemma_apply_samples_read_back(m, "vmstat"@, ""@, timestamp, s, 143);
    lemma_apply_samples_read_back(m, "vmstat"@, ""@, timestamp, s, 144);
    lemma_apply_samples_read_back(m, "vmstat"@, ""@, timestamp, s, 145);
    lemma_apply_samples_read_back(m, "vmstat"@, ""@, timestamp, s, 146);
    lemma_apply_samples_read_back(m, "vmstat"@, ""@, timestamp, s, 147);
    lemma_apply_samples_read_back(m, "vmstat"@, ""@, timestamp, s, 148);
    lemma_apply_samples_read_back(m, "vmstat"@, ""@, timestamp, s, 149);
}

#[verifier::rlimit(50)]
proof fn lemma_vmstat_part15_read_back(m: Map<KeyView, Statistic>, vmstat: VmStatSample, timestamp: i64)
    ensures
        holds(apply_samples(m, "vmstat"@, ""@, timestamp, vmstat_samples(vmstat)), ("vmstat"@, ""@, "pgsteal_khugepaged"@), vmstat.pgsteal_khugepaged.unwrap_or(0), timestamp),
        holds(apply_samples(m, "vmstat"@, ""@, timestamp, vmstat_samples(vmstat)), ("vmstat"@, ""@, "pgdemote_kswapd"@), vmstat.pgdemote_kswapd.unwrap_or(0), timestamp),
        holds(apply_samples(m, "vmstat"@, ""@, timestamp, vmstat_samples(vmstat)), ("vmstat"@, ""@, "pgdemote_direct"@), vmstat.pgdemote_direct.unwrap_or(0), timestamp),
        holds(apply_samples(m, "vmstat"@, ""@, timestamp, vmstat_samples(vmstat)), ("vmstat"@, ""@, "pgdemote_khugepaged"@), vmstat.pgdemote_khugepaged.unwrap_or(0), timestamp),
        holds(apply_samples(m, "vmstat"@, ""@, timestamp, vmstat_samples(vmstat)), ("vmstat"@, ""@, "pgscan_khugepaged"@), vmstat.pgscan_khugepaged.unwrap_or(0), timestamp),
        holds(apply_samples(m, "vmstat"@, ""@, timestamp, vmstat_samples(vmstat)), ("vmstat"@, ""@, "pgscan_anon"@), vmstat.pgscan_anon.unwrap_or(0), timestamp),
        holds(apply_samples(m, "vmstat"@, ""@, timestamp, vmstat_samples(vmstat)), ("vmstat"@, ""@, "pgscan_file"@), vmstat.pgscan_file.unwrap_or(0), timestamp),
        holds(apply_samples(m, "vmstat"@, ""@, timestamp, vmstat_samples(vmstat)), ("vmstat"@, ""@, "pgsteal_anon"@), vmstat.pgsteal_anon.unwrap_or(0), timestamp),
        holds(apply_samples(m, "vmstat"@, ""@, timestamp, vmstat_samples(vmstat)), ("vmstat"@, ""@, "pgsteal_file"@), vmstat.pgsteal_file.unwrap_or(0), timestamp),
        holds(apply_samples(m, "vmstat"@, ""@, timestamp, vmstat_samples(vmstat)), ("vmstat"@, ""@, "slabs_scanned"@), vmstat.slabs_scanned.unwrap_or(0), timestamp),
{
    lemma_vmstat_names();
    let s = vmstat_samples(vmstat);
    lemma_apply_samples_read_back(m, "vmstat"@, ""@, timestamp, s, 150);
    lemma_apply_samples_read_back(m, "vmstat"@, ""@, timestamp, s, 151);
    lemma_apply_samples_read_back(m, "vmstat"@, ""@, timestamp, s, 152);
    lemma_apply_samples_read_back(m, "vmstat"@, ""@, timestamp, s, 153);
    lemma_apply_samples_read_back(m, "vmstat"@, ""@, timestamp, s, 154);
    lemma_apply_samples_read_back(m, "vmstat"@, ""@, timestamp, s, 155);
    lemma_apply_samples_read_back(m, "vmstat"@, ""@, timestamp, s, 156);
    lemma_apply_samples_read_back(m, "vmstat"@, ""@, timestamp, s, 157);
    lemma_apply_samples_read_back(m, "vmstat"@, ""@, timestamp, s, 158);
    lemma_apply_samples_read_back(m, "vmstat"@, ""@, timestamp, s, 159);
}

#[verifier::rlimit(50)]
proof fn lemma_vmstat_part16_read_back(m: Map<KeyView, Statistic>, vmstat: VmStatSample, timestamp: i64)
    ensures
        holds(apply_samples(m, "vmstat"@, ""@, timestamp, vmstat_samples(vmstat)), ("vmstat"@, ""@, "thp_migration_success"@), vmstat.thp_migration_success.unwrap_or(0), timestamp),
        holds(apply_samples(m, "vmstat"@, ""@, timestamp, vmstat_samples(vmstat)), ("vmstat"@, ""@, "thp_migration_fail"@), vmstat.thp_migration_fail.unwrap_or(0), timestamp),
        holds(apply_samples(m, "vmstat"@, ""@, timestamp, vmstat_samples(vmstat)), ("vmstat"@, ""@, "thp_migration_split"@), vmstat.thp_migration_split.unwrap_or(0), timestamp),
        holds(apply_samples(m, "vmstat"@, ""@, timestamp, vmstat_samples(vmstat)), ("vmstat"@, ""@, "cma_alloc_success"@), vmstat.cma_alloc_success.unwrap_or(0), timestamp),
        holds(apply_samples(m, "vmstat"@, ""@, timestamp, vmstat_samples(vmstat)), ("vmstat"@, ""@, "cma_alloc_fail"@), vmstat.cma_alloc_fail.unwrap_or(0), timestamp),
        holds(apply_samples(m, "vmstat"@, ""@, timestamp, vmstat_samples(vmstat)), ("vmstat"@, ""@, "thp_fault_fallback_charge"@), vmstat.thp_fault_fallback_charge.unwrap_or(0), timestamp),
        holds(apply_samples(m, "vmstat"@, ""@, timestamp, vmstat_samples(vmstat)), ("vmstat"@, ""@, "thp_file_fallback"@), vmstat.thp_file_fallback.unwrap_or(0), timestamp),
        holds(apply_samples(m, "vmstat"@, ""@, timestamp, vmstat_samples(vmstat)), ("vmstat"@, ""@, "thp_file_fallback_charge"@), vmstat.thp_file_fallback_charge.unwrap_or(0), timestamp),
        holds(apply_samples(m, "vmstat"@, ""@, timestamp, vmstat_samples(vmstat)), ("vmstat"@, ""@, "thp_scan_exceed_none_pte"@), vmstat.thp_scan_exceed_none_pte.unwrap_or(0), timestamp),
        holds(apply_samples(m, "vmstat"@, ""@, timestamp, vmstat_samples(vmstat)), ("vmstat"@, ""@, "thp_scan_exceed_swap_pte"@), vmstat.thp_scan_exceed_swap_pte.unwrap_or(0), timestamp),
{
    lemma_vmstat_names();
    let s = vmstat_samples(vmstat);
    lemma_apply_samples_read_back(m, "vmstat"@, ""@, timestamp, s, 160);
    lemma_apply_samples_read_back(m, "vmstat"@, ""@, timestamp, s, 161);
    lemma_apply_samples_read_back(m, "vmstat"@, ""@, timestamp, s, 162);
    lemma_apply_samples_read_back(m, "vmstat"@, ""@, timestamp, s, 163);
    lemma_apply_samples_read_back(m, "vmstat"@, ""@, timestamp, s, 164);
    lemma_apply_samples_read_back(m, "vmstat"@, ""@, timestamp, s, 165);
    lemma_apply_samples_read_back(m, "vmstat"@, ""@, timestamp, s, 166);
    lemma_apply_samples_read_back(m, "vmstat"@, ""@, timestamp, s, 167);
    lemma_apply_samples_read_back(m, "vmstat"@, ""@, timestamp, s, 168);
    lemma_apply_samples_read_back(m, "vmstat"@, ""@, timestamp, s, 169);
}

#[verifier::rlimit(50)]
proof fn lemma_vmstat_part17_read_back(m: Map<KeyView, Statistic>, vmstat: VmStatSample, timestamp: i64)
    ensures
        holds(apply_samples(m, "vmstat"@, ""@, timestamp, vmstat_samples(vmstat)), ("vmstat"@, ""@, "thp_scan_exceed_share_pte"@), vmstat.thp_scan_exceed_share_pte.unwrap_or(0), timestamp),
        holds(apply_samples(m, "vmstat"@, ""@, timestamp, vmstat_samples(vmstat)), ("vmstat"@, ""@, "ksm_swpin_copy"@), vmstat.ksm_swpin_copy.unwrap_or(0), timestamp),
        holds(apply_samples(m, "vmstat"@, ""@, timestamp, vmstat_samples(vmstat)), ("vmstat"@, ""@, "cow_ksm"@), vmstat.cow_ksm.unwrap_or(0), timestamp),
        holds(apply_samples(m, "vmstat"@, ""@, timestamp, vmstat_samples(vmstat)), ("vmstat"@, ""@, "zswpin"@), vmstat.zswpin.unwrap_or(0), timestamp),
        holds(apply_samples(m, "vmstat"@, ""@, timestamp, vmstat_samples(vmstat)), ("vmstat"@, ""@, "zswpout"@), vmstat.zswpout.unwrap_or(0), timestamp),
{
    lemma_vmstat_names();
    let s = vmstat_samples(vmstat);
    lemma_apply_samples_read_back(m, "vmstat"@, ""@, timestamp, s, 170);
    lemma_apply_samples_read_back(m, "vmstat"@, ""@, timestamp, s, 171);
    lemma_apply_samples_read_back(m, "vmstat"@, ""@, timestamp, s, 172);
    lemma_apply_samples_read_back(m, "vmstat"@, ""@, timestamp, s, 173);
    lemma_apply_samples_read_back(m, "vmstat"@, ""@, timestamp, s, 174);
}

/// Recording a reading of `/proc/vmstat` stores every counter under its own name, with the
/// reading's value and time.
pub proof fn law_vmstat_read_back(m: Map<KeyView, Statistic>, vmstat: VmStatSample, timestamp: i64)
    ensures
        vmstat_recorded(apply_samples(m, "vmstat"@, ""@, timestamp, vmstat_samples(vmstat)), vmstat, timestamp),
{
    lemma_vmstat_part0_read_back(m, vmstat, timestamp);
    lemma_vmstat_part1_read_back(m, vmstat, timestamp);
    lemma_vmstat_part2_read_back(m, vmstat, timestamp);
    lemma_vmstat_part3_read_back(m, vmstat, timestamp);
    lemma_vmstat_part4_read_back(m, vmstat, timestamp);
    lemma_vmstat_part5_read_back(m, vmstat, timestamp);
    lemma_vmstat_part6_read_back(m, vmstat, timestamp);
    lemma_vmstat_part7_read_back(m, vmstat, timestamp);
    lemma_vmstat_part8_read_back(m, vmstat, timestamp);
    lemma_vmstat_part9_read_back(m, vmstat, timestamp);
    lemma_vmstat_part10_read_back(m, vmstat, timestamp);
    lemma_vmstat_part11_read_back(m, vmstat, timestamp);
    lemma_vmstat_part12_read_back(m, vmstat, timestamp);
    lemma_vmstat_part13_read_back(m, vmstat, timestamp);
    lemma_vmstat_part14_read_back(m, vmstat, timestamp);
    lemma_vmstat_part15_read_back(m, vmstat, timestamp);
    lemma_vmstat_part16_read_back(m, vmstat, timestamp);
    lemma_vmstat_part17_read_back(m, vmstat, timestamp);
}

/// A recorded vmstat reading stays recorded while its category is kept.
#[verifier::rlimit(50)]
pub proof fn lemma_vmstat_recorded_kept(m1: Map<KeyView, Statistic>, m2: Map<KeyView, Statistic>, vmstat: VmStatSample, timestamp: i64)
    requires
        keeps_category(m1, m2, "vmstat"@),
        vmstat_recorded(m1, vmstat, timestamp),
    ensures
        vmstat_recorded(m2, vmstat, timestamp),
{
}

/// Records the counters of `vmstat` under the `vmstat` category, taken at `timestamp`.
pub fn process_vmstat_data(vmstat: &VmStatSample, timestamp: i64, statistics: &mut Statistics) -> (r: Result<(), ProcessorError>)
    requires
        old(statistics).wf(),
    ensures
        r is Ok,
        final(statistics).wf(),
        final(statistics)@ == apply_samples(old(statistics)@, "vmstat"@, ""@, timestamp, vmstat_samples(*vmstat)),
        vmstat_recorded(final(statistics)@, *vmstat, timestamp),
{
    proof {
        law_vmstat_read_back(old(statistics)@, *vmstat, timestamp);
    }
    let samples = vmstat_samples_exec(vmstat);
    add_samples_to_statistics("vmstat", "", timestamp, &samples, statistics);
    Ok(())
}

} // verus!
