//! The counters of the block devices under `/sys/block`.
use vstd::prelude::*;
use crate::statistics::{ProcessorError, Statistics, apply_samples, samples_view, add_samples_to_statistics};
#[allow(unused_imports)]
use crate::statistics::{
    KeyView, Statistic, holds, lemma_apply_samples_read_back, lemma_apply_samples_frame_all,
    keeps_category, lemma_apply_samples_keeps, lemma_keeps_category_trans,
};

verus! {

/// One reading of the statistics and queue settings of one block device.
#[derive(Clone, Debug, Default, PartialEq, Eq)]
pub struct BlockDevice {
    pub device_name: String,
    pub stat_reads_completed_success: u64,
    pub stat_reads_merged: u64,
    pub stat_reads_sectors: u64,
    pub stat_reads_time_spent_ms: u64,
    pub stat_writes_completed_success: u64,
    pub stat_writes_merged: u64,
    pub stat_writes_sectors: u64,
    pub stat_writes_time_spent_ms: u64,
    pub stat_ios_in_progress: u64,
    pub stat_ios_time_spent_ms: u64,
    pub stat_ios_weighted_time_spent_ms: u64,
    pub inflight_reads: u64,
    pub inflight_writes: u64,
    pub queue_max_hw_sectors_kb: u64,
    pub queue_max_sectors_kb: u64,
    pub queue_nr_requests: u64,
    pub dev_block_major: u64,
    pub dev_block_minor: u64,
    pub removable: u64,
    pub ro: u64,
    pub queue_rotational: u64,
    pub queue_dax: u64,
    pub queue_hw_sector_size: u64,
    pub queue_logical_block_size: u64,
    pub queue_nomerges: u64,
    pub queue_physical_block_size: u64,
    pub queue_read_ahead_kb: u64,
    pub queue_discard_max_bytes: u64,
    pub queue_discard_max_hw_bytes: u64,
    pub stat_discards_completed_success: Option<u64>,
    pub stat_discards_merged: Option<u64>,
    pub stat_discards_sectors: Option<u64>,
    pub stat_discards_time_spent_ms: Option<u64>,
    pub stat_flush_requests_completed_success: Option<u64>,
    pub stat_flush_requests_time_spent_ms: Option<u64>,
}

/// One reading of all block devices.
#[derive(Clone, Debug, Default)]
pub struct SysBlock {
    pub block_devices: Vec<BlockDevice>,
}

/// The named counters of a `BlockDevice`, in the order in which they are recorded;
/// an absent counter counts as 0.
pub open spec fn blockdevice_samples(disk: BlockDevice) -> Seq<(Seq<char>, u64)> {
    seq![
        ("stat_reads_completed_success"@, disk.stat_reads_completed_success),
        ("stat_reads_merged"@, disk.stat_reads_merged),
        ("stat_reads_sectors"@, disk.stat_reads_sectors),
        ("stat_reads_time_spent_ms"@, disk.stat_reads_time_spent_ms),
        ("stat_writes_completed_success"@, disk.stat_writes_completed_success),
        ("stat_writes_merged"@, disk.stat_writes_merged),
        ("stat_writes_sectors"@, disk.stat_writes_sectors),
        ("stat_writes_time_spent_ms"@, disk.stat_writes_time_spent_ms),
        ("stat_ios_in_progress"@, disk.stat_ios_in_progress),
        ("stat_ios_time_spent_ms"@, disk.stat_ios_time_spent_ms),
        ("stat_ios_weighted_time_spent_ms"@, disk.stat_ios_weighted_time_spent_ms),
        ("inflight_reads"@, disk.inflight_reads),
        ("inflight_writes"@, disk.inflight_writes),
        ("queue_max_hw_sectors_kb"@, disk.queue_max_hw_sectors_kb),
        ("queue_max_sectors_kb"@, disk.queue_max_sectors_kb),
        ("queue_nr_requests"@, disk.queue_nr_requests),
        ("dev_block_major"@, disk.dev_block_major),
        ("dev_block_minor"@, disk.dev_block_minor),
        ("removable"@, disk.removable),
        ("ro"@, disk.ro),
        ("queue_rotational"@, disk.queue_rotational),
        ("queue_dax"@, disk.queue_dax),
        ("queue_hw_sector_size"@, disk.queue_hw_sector_size),
        ("queue_logical_block_size"@, disk.queue_logical_block_size),
        ("queue_nomerges"@, disk.queue_nomerges),
        ("queue_physical_block_size"@, disk.queue_physical_block_size),
        ("queue_read_ahead_kb"@, disk.queue_read_ahead_kb),
        ("queue_discard_max_bytes"@, disk.queue_discard_max_bytes),
        ("queue_discard_max_hw_bytes"@, disk.queue_discard_max_hw_bytes),
        ("stat_discards_completed_success"@, disk.stat_discards_completed_success.unwrap_or(0)),
        ("stat_discards_merged"@, disk.stat_discards_merged.unwrap_or(0)),
        ("stat_discards_sectors"@, disk.stat_discards_sectors.unwrap_or(0)),
        ("stat_discards_time_spent_ms"@, disk.stat_discards_time_spent_ms.unwrap_or(0)),
        ("stat_flush_requests_completed_success"@, disk.stat_flush_requests_completed_success.unwrap_or(0)),
        ("stat_flush_requests_time_spent_ms"@, disk.stat_flush_requests_time_spent_ms.unwrap_or(0)),
    ]
}

fn blockdevice_samples_exec(disk: &BlockDevice) -> (r: Vec<(String, u64)>)
    ensures
        samples_view(r@) == blockdevice_samples(*disk),
{
    let mut r: Vec<(String, u64)> = Vec::new();
    r.push(("stat_reads_completed_success".to_owned(), disk.stat_reads_completed_success));
    r.push(("stat_reads_merged".to_owned(), disk.stat_reads_merged));
    r.push(("stat_reads_sectors".to_owned(), disk.stat_reads_sectors));
    r.push(("stat_reads_time_spent_ms".to_owned(), disk.stat_reads_time_spent_ms));
    r.push(("stat_writes_completed_success".to_owned(), disk.stat_writes_completed_success));
    r.push(("stat_writes_merged".to_owned(), disk.stat_writes_merged));
    r.push(("stat_writes_sectors".to_owned(), disk.stat_writes_sectors));
    r.push(("stat_writes_time_spent_ms".to_owned(), disk.stat_writes_time_spent_ms));
    r.push(("stat_ios_in_progress".to_owned(), disk.stat_ios_in_progress));
    r.push(("stat_ios_time_spent_ms".to_owned(), disk.stat_ios_time_spent_ms));
    r.push(("stat_ios_weighted_time_spent_ms".to_owned(), disk.stat_ios_weighted_time_spent_ms));
    r.push(("inflight_reads".to_owned(), disk.inflight_reads));
    r.push(("inflight_writes".to_owned(), disk.inflight_writes));
    r.push(("queue_max_hw_sectors_kb".to_owned(), disk.queue_max_hw_sectors_kb));
    r.push(("queue_max_sectors_kb".to_owned(), disk.queue_max_sectors_kb));
    r.push(("queue_nr_requests".to_owned(), disk.queue_nr_requests));
    r.push(("dev_block_major".to_owned(), disk.dev_block_major));
    r.push(("dev_block_minor".to_owned(), disk.dev_block_minor));
    r.push(("removable".to_owned(), disk.removable));
    r.push(("ro".to_owned(), disk.ro));
    r.push(("queue_rotational".to_owned(), disk.queue_rotational));
    r.push(("queue_dax".to_owned(), disk.queue_dax));
    r.push(("queue_hw_sector_size".to_owned(), disk.queue_hw_sector_size));
    r.push(("queue_logical_block_size".to_owned(), disk.queue_logical_block_size));
    r.push(("queue_nomerges".to_owned(), disk.queue_nomerges));
    r.push(("queue_physical_block_size".to_owned(), disk.queue_physical_block_size));
    r.push(("queue_read_ahead_kb".to_owned(), disk.queue_read_ahead_kb));
    r.push(("queue_discard_max_bytes".to_owned(), disk.queue_discard_max_bytes));
    r.push(("queue_discard_max_hw_bytes".to_owned(), disk.queue_discard_max_hw_bytes));
    r.push(("stat_discards_completed_success".to_owned(), disk.stat_discards_completed_success.unwrap_or(0)));
    r.push(("stat_discards_merged".to_owned(), disk.stat_discards_merged.unwrap_or(0)));
    r.push(("stat_discards_sectors".to_owned(), disk.stat_discards_sectors.unwrap_or(0)));
    r.push(("stat_discards_time_spent_ms".to_owned(), disk.stat_discards_time_spent_ms.unwrap_or(0)));
    r.push(("stat_flush_requests_completed_success".to_owned(), disk.stat_flush_requests_completed_success.unwrap_or(0)));
    r.push(("stat_flush_requests_time_spent_ms".to_owned(), disk.stat_flush_requests_time_spent_ms.unwrap_or(0)));
    assert(samples_view(r@) =~= blockdevice_samples(*disk));
    r
}

/// After a block device is recorded, each of its counters is held under ("blockdevice", its
/// subcategory, the counter's name) with the reading's value and time.
pub open spec fn disk_recorded(m: Map<KeyView, Statistic>, disk: BlockDevice, timestamp: i64) -> bool {
    let sub = disk.device_name@;
    &&& holds(m, ("blockdevice"@, sub, "stat_reads_completed_success"@), disk.stat_reads_completed_success, timestamp)
    &&& holds(m, ("blockdevice"@, sub, "stat_reads_merged"@), disk.stat_reads_merged, timestamp)
    &&& holds(m, ("blockdevice"@, sub, "stat_reads_sectors"@), disk.stat_reads_sectors, timestamp)
    &&& holds(m, ("blockdevice"@, sub, "stat_reads_time_spent_ms"@), disk.stat_reads_time_spent_ms, timestamp)
    &&& holds(m, ("blockdevice"@, sub, "stat_writes_completed_success"@), disk.stat_writes_completed_success, timestamp)
    &&& holds(m, ("blockdevice"@, sub, "stat_writes_merged"@), disk.stat_writes_merged, timestamp)
    &&& holds(m, ("blockdevice"@, sub, "stat_writes_sectors"@), disk.stat_writes_sectors, timestamp)
    &&& holds(m, ("blockdevice"@, sub, "stat_writes_time_spent_ms"@), disk.stat_writes_time_spent_ms, timestamp)
    &&& holds(m, ("blockdevice"@, sub, "stat_ios_in_progress"@), disk.stat_ios_in_progress, timestamp)
    &&& holds(m, ("blockdevice"@, sub, "stat_ios_time_spent_ms"@), disk.stat_ios_time_spent_ms, timestamp)
    &&& holds(m, ("blockdevice"@, sub, "stat_ios_weighted_time_spent_ms"@), disk.stat_ios_weighted_time_spent_ms, timestamp)
    &&& holds(m, ("blockdevice"@, sub, "inflight_reads"@), disk.inflight_reads, timestamp)
    &&& holds(m, ("blockdevice"@, sub, "inflight_writes"@), disk.inflight_writes, timestamp)
    &&& holds(m, ("blockdevice"@, sub, "queue_max_hw_sectors_kb"@), disk.queue_max_hw_sectors_kb, timestamp)
    &&& holds(m, ("blockdevice"@, sub, "queue_max_sectors_kb"@), disk.queue_max_sectors_kb, timestamp)
    &&& holds(m, ("blockdevice"@, sub, "queue_nr_requests"@), disk.queue_nr_requests, timestamp)
    &&& holds(m, ("blockdevice"@, sub, "dev_block_major"@), disk.dev_block_major, timestamp)
    &&& holds(m, ("blockdevice"@, sub, "dev_block_minor"@), disk.dev_block_minor, timestamp)
    &&& holds(m, ("blockdevice"@, sub, "removable"@), disk.removable, timestamp)
    &&& holds(m, ("blockdevice"@, sub, "ro"@), disk.ro, timestamp)
    &&& holds(m, ("blockdevice"@, sub, "queue_rotational"@), disk.queue_rotational, timestamp)
    &&& holds(m, ("blockdevice"@, sub, "queue_dax"@), disk.queue_dax, timestamp)
    &&& holds(m, ("blockdevice"@, sub, "queue_hw_sector_size"@), disk.queue_hw_sector_size, timestamp)
    &&& holds(m, ("blockdevice"@, sub, "queue_logical_block_size"@), disk.queue_logical_block_size, timestamp)
    &&& holds(m, ("blockdevice"@, sub, "queue_nomerges"@), disk.queue_nomerges, timestamp)
    &&& holds(m, ("blockdevice"@, sub, "queue_physical_block_size"@), disk.queue_physical_block_size, timestamp)
    &&& holds(m, ("blockdevice"@, sub, "queue_read_ahead_kb"@), disk.queue_read_ahead_kb, timestamp)
    &&& holds(m, ("blockdevice"@, sub, "queue_discard_max_bytes"@), disk.queue_discard_max_bytes, timestamp)
    &&& holds(m, ("blockdevice"@, sub, "queue_discard_max_hw_bytes"@), disk.queue_discard_max_hw_bytes, timestamp)
    &&& holds(m, ("blockdevice"@, sub, "stat_discards_completed_success"@), disk.stat_discards_completed_success.unwrap_or(0), timestamp)
    &&& holds(m, ("blockdevice"@, sub, "stat_discards_merged"@), disk.stat_discards_merged.unwrap_or(0), timestamp)
    &&& holds(m, ("blockdevice"@, sub, "stat_discards_sectors"@), disk.stat_discards_sectors.unwrap_or(0), timestamp)
    &&& holds(m, ("blockdevice"@, sub, "stat_discards_time_spent_ms"@), disk.stat_discards_time_spent_ms.unwrap_or(0), timestamp)
    &&& holds(m, ("blockdevice"@, sub, "stat_flush_requests_completed_success"@), disk.stat_flush_requests_completed_success.unwrap_or(0), timestamp)
    &&& holds(m, ("blockdevice"@, sub, "stat_flush_requests_time_spent_ms"@), disk.stat_flush_requests_time_spent_ms.unwrap_or(0), timestamp)
}

/// Recording a block device stores every counter under its own name, with the reading's value
/// and time.
pub proof fn law_disk_read_back(m: Map<KeyView, Statistic>, disk: BlockDevice, timestamp: i64)
    ensures
        disk_recorded(apply_samples(m, "blockdevice"@, disk.device_name@, timestamp, blockdevice_samples(disk)), disk, timestamp),
{
    reveal_strlit("dev_block_major");
    assert("dev_block_major"@.len() == 15);
    reveal_strlit("dev_block_minor");
    assert("dev_block_minor"@.len() == 15);
    reveal_strlit("inflight_reads");
    assert("inflight_reads"@.len() == 14);
    reveal_strlit("inflight_writes");
    assert("inflight_writes"@.len() == 15);
    reveal_strlit("queue_dax");
    assert("queue_dax"@.len() == 9);
    reveal_strlit("queue_discard_max_bytes");
    assert("queue_discard_max_bytes"@.len() == 23);
    reveal_strlit("queue_discard_max_hw_bytes");
    assert("queue_discard_max_hw_bytes"@.len() == 26);
    reveal_strlit("queue_hw_sector_size");
    assert("queue_hw_sector_size"@.len() == 20);
    reveal_strlit("queue_logical_block_size");
    assert("queue_logical_block_size"@.len() == 24);
    reveal_strlit("queue_max_hw_sectors_kb");
    assert("queue_max_hw_sectors_kb"@.len() == 23);
    reveal_strlit("queue_max_sectors_kb");
    assert("queue_max_sectors_kb"@.len() == 20);
    reveal_strlit("queue_nomerges");
    assert("queue_nomerges"@.len() == 14);
    reveal_strlit("queue_nr_requests");
    assert("queue_nr_requests"@.len() == 17);
    reveal_strlit("queue_physical_block_size");
    assert("queue_physical_block_size"@.len() == 25);
    reveal_strlit("queue_read_ahead_kb");
    assert("queue_read_ahead_kb"@.len() == 19);
    reveal_strlit("queue_rotational");
    assert("queue_rotational"@.len() == 16);
    reveal_strlit("removable");
    assert("removable"@.len() == 9);
    reveal_strlit("ro");
    assert("ro"@.len() == 2);
    reveal_strlit("stat_discards_completed_success");
    assert("stat_discards_completed_success"@.len() == 31);
    reveal_strlit("stat_discards_merged");
    assert("stat_discards_merged"@.len() == 20);
    reveal_strlit("stat_discards_sectors");
    assert("stat_discards_sectors"@.len() == 21);
    reveal_strlit("stat_discards_time_spent_ms");
    assert("stat_discards_time_spent_ms"@.len() == 27);
    reveal_strlit("stat_flush_requests_completed_success");
    assert("stat_flush_requests_completed_success"@.len() == 37);
    reveal_strlit("stat_flush_requests_time_spent_ms");
    assert("stat_flush_requests_time_spent_ms"@.len() == 33);
    reveal_strlit("stat_ios_in_progress");
    assert("stat_ios_in_progress"@.len() == 20);
    reveal_strlit("stat_ios_time_spent_ms");
    assert("stat_ios_time_spent_ms"@.len() == 22);
    reveal_strlit("stat_ios_weighted_time_spent_ms");
    assert("stat_ios_weighted_time_spent_ms"@.len() == 31);
    reveal_strlit("stat_reads_completed_success");
    assert("stat_reads_completed_success"@.len() == 28);
    reveal_strlit("stat_reads_merged");
    assert("stat_reads_merged"@.len() == 17);
    reveal_strlit("stat_reads_sectors");
    assert("stat_reads_sectors"@.len() == 18);
    reveal_strlit("stat_reads_time_spent_ms");
    assert("stat_reads_time_spent_ms"@.len() == 24);
    reveal_strlit("stat_writes_completed_success");
    assert("stat_writes_completed_success"@.len() == 29);
    reveal_strlit("stat_writes_merged");
    assert("stat_writes_merged"@.len() == 18);
    reveal_strlit("stat_writes_sectors");
    assert("stat_writes_sectors"@.len() == 19);
    reveal_strlit("stat_writes_time_spent_ms");
    assert("stat_writes_time_spent_ms"@.len() == 25);
    assert("dev_block_major"@[0] == 'd');
    assert("dev_block_major"@[11] == 'a');
    assert("dev_block_minor"@[0] == 'd');
    assert("dev_block_minor"@[11] == 'i');
    assert("inflight_writes"@[0] == 'i');
    assert("inflight_reads"@[0] == 'i');
    assert("queue_nomerges"@[0] == 'q');
    assert("queue_dax"@[0] == 'q');
    assert("removable"@[0] == 'r');
    assert("queue_discard_max_bytes"@[6] == 'd');
    assert("queue_max_hw_sectors_kb"@[6] == 'm');
    assert("queue_hw_sector_size"@[0] == 'q');
    assert("queue_hw_sector_size"@[6] == 'h');
    assert("queue_max_sectors_kb"@[0] == 'q');
    assert("queue_max_sectors_kb"@[6] == 'm');
    assert("stat_discards_merged"@[0] == 's');
    assert("stat_discards_merged"@[5] == 'd');
    assert("stat_ios_in_progress"@[0] == 's');
    assert("stat_ios_in_progress"@[5] == 'i');
    assert("queue_logical_block_size"@[0] == 'q');
    assert("stat_reads_time_spent_ms"@[0] == 's');
    assert("queue_nr_requests"@[0] == 'q');
    assert("stat_reads_merged"@[0] == 's');
    assert("queue_physical_block_size"@[0] == 'q');
    assert("stat_writes_time_spent_ms"@[0] == 's');
    assert("queue_read_ahead_kb"@[0] == 'q');
    assert("stat_writes_sectors"@[0] == 's');
    assert("stat_discards_completed_success"@[5] == 'd');
    assert("stat_ios_weighted_time_spent_ms"@[5] == 'i');
    assert("stat_reads_sectors"@[5] == 'r');
    assert("stat_writes_merged"@[5] == 'w');
    let s = blockdevice_samples(disk);
    lemma_apply_samples_read_back(m, "blockdevice"@, disk.device_name@, timestamp, s, 0);
    lemma_apply_samples_read_back(m, "blockdevice"@, disk.device_name@, timestamp, s, 1);
    lemma_apply_samples_read_back(m, "blockdevice"@, disk.device_name@, timestamp, s, 2);
    lemma_apply_samples_read_back(m, "blockdevice"@, disk.device_name@, timestamp, s, 3);
    lemma_apply_samples_read_back(m, "blockdevice"@, disk.device_name@, timestamp, s, 4);
    lemma_apply_samples_read_back(m, "blockdevice"@, disk.device_name@, timestamp, s, 5);
    lemma_apply_samples_read_back(m, "blockdevice"@, disk.device_name@, timestamp, s, 6);
    lemma_apply_samples_read_back(m, "blockdevice"@, disk.device_name@, timestamp, s, 7);
    lemma_apply_samples_read_back(m, "blockdevice"@, disk.device_name@, timestamp, s, 8);
    lemma_apply_samples_read_back(m, "blockdevice"@, disk.device_name@, timestamp, s, 9);
    lemma_apply_samples_read_back(m, "blockdevice"@, disk.device_name@, timestamp, s, 10);
    lemma_apply_samples_read_back(m, "blockdevice"@, disk.device_name@, timestamp, s, 11);
    lemma_apply_samples_read_back(m, "blockdevice"@, disk.device_name@, timestamp, s, 12);
    lemma_apply_samples_read_back(m, "blockdevice"@, disk.device_name@, timestamp, s, 13);
    lemma_apply_samples_read_back(m, "blockdevice"@, disk.device_name@, timestamp, s, 14);
    lemma_apply_samples_read_back(m, "blockdevice"@, disk.device_name@, timestamp, s, 15);
    lemma_apply_samples_read_back(m, "blockdevice"@, disk.device_name@, timestamp, s, 16);
    lemma_apply_samples_read_back(m, "blockdevice"@, disk.device_name@, timestamp, s, 17);
    lemma_apply_samples_read_back(m, "blockdevice"@, disk.device_name@, timestamp, s, 18);
    lemma_apply_samples_read_back(m, "blockdevice"@, disk.device_name@, timestamp, s, 19);
    lemma_apply_samples_read_back(m, "blockdevice"@, disk.device_name@, timestamp, s, 20);
    lemma_apply_samples_read_back(m, "blockdevice"@, disk.device_name@, timestamp, s, 21);
    lemma_apply_samples_read_back(m, "blockdevice"@, disk.device_name@, timestamp, s, 22);
    lemma_apply_samples_read_back(m, "blockdevice"@, disk.device_name@, timestamp, s, 23);
    lemma_apply_samples_read_back(m, "blockdevice"@, disk.device_name@, timestamp, s, 24);
    lemma_apply_samples_read_back(m, "blockdevice"@, disk.device_name@, timestamp, s, 25);
    lemma_apply_samples_read_back(m, "blockdevice"@, disk.device_name@, timestamp, s, 26);
    lemma_apply_samples_read_back(m, "blockdevice"@, disk.device_name@, timestamp, s, 27);
    lemma_apply_samples_read_back(m, "blockdevice"@, disk.device_name@, timestamp, s, 28);
    lemma_apply_samples_read_back(m, "blockdevice"@, disk.device_name@, timestamp, s, 29);
    lemma_apply_samples_read_back(m, "blockdevice"@, disk.device_name@, timestamp, s, 30);
    lemma_apply_samples_read_back(m, "blockdevice"@, disk.device_name@, timestamp, s, 31);
    lemma_apply_samples_read_back(m, "blockdevice"@, disk.device_name@, timestamp, s, 32);
    lemma_apply_samples_read_back(m, "blockdevice"@, disk.device_name@, timestamp, s, 33);
    lemma_apply_samples_read_back(m, "blockdevice"@, disk.device_name@, timestamp, s, 34);
}

/// The table after the counters of each device, in order, each under its own name.
pub open spec fn apply_disks(m: Map<KeyView, Statistic>, devices: Seq<BlockDevice>, timestamp: i64) -> Map<KeyView, Statistic>
    decreases devices.len(),
{
    if devices.len() == 0 {
        m
    } else {
        apply_samples(
            apply_disks(m, devices.drop_last(), timestamp),
            "blockdevice"@,
            devices.last().device_name@,
            timestamp,
            blockdevice_samples(devices.last()),
        )
    }
}

/// Recording devices keeps every key of another category.
pub proof fn lemma_apply_disks_keeps(m: Map<KeyView, Statistic>, devices: Seq<BlockDevice>, timestamp: i64, category: Seq<char>)
    requires
        category != "blockdevice"@,
    ensures
        keeps_category(m, apply_disks(m, devices, timestamp), category),
    decreases devices.len(),
{
    if devices.len() == 0 {
    } else {
        let prev = apply_disks(m, devices.drop_last(), timestamp);
        lemma_apply_disks_keeps(m, devices.drop_last(), timestamp, category);
        lemma_apply_samples_keeps(prev, "blockdevice"@, devices.last().device_name@, timestamp, blockdevice_samples(devices.last()), category);
        lemma_keeps_category_trans(m, prev, apply_disks(m, devices, timestamp), category);
    }
}

/// After a list of readings is recorded, each device that no later device of the same name
/// follows holds its own counters.
pub proof fn law_disks_read_back(m: Map<KeyView, Statistic>, devices: Seq<BlockDevice>, timestamp: i64, i: int)
    requires
        0 <= i < devices.len(),
        forall|j: int| i < j < devices.len() ==> #[trigger] devices[j].device_name@ != devices[i].device_name@,
    ensures
        disk_recorded(apply_disks(m, devices, timestamp), devices[i], timestamp),
    decreases devices.len(),
{
    let prev = apply_disks(m, devices.drop_last(), timestamp);
    if i == devices.len() - 1 {
        law_disk_read_back(prev, devices[i], timestamp);
    } else {
        assert forall|j: int| i < j < devices.drop_last().len() implies #[trigger] devices.drop_last()[j].device_name@
            != devices.drop_last()[i].device_name@ by {
            assert(devices.drop_last()[j] == devices[j]);
        }
        law_disks_read_back(m, devices.drop_last(), timestamp, i);
        assert(devices.drop_last()[i] == devices[i]);
        assert(devices[devices.len() - 1].device_name@ != devices[i].device_name@);
        lemma_apply_samples_frame_all(prev, "blockdevice"@, devices.last().device_name@, timestamp, blockdevice_samples(devices.last()));
    }
}

/// Records the counters of every device under the `blockdevice` category and the device's
/// name, taken at `timestamp`.
pub fn process_blockdevice_data(data: &SysBlock, timestamp: i64, statistics: &mut Statistics) -> (r: Result<(), ProcessorError>)
    requires
        old(statistics).wf(),
    ensures
        r is Ok,
        final(statistics).wf(),
        final(statistics)@ == apply_disks(old(statistics)@, data.block_devices@, timestamp),
        forall|i: int|
            0 <= i < data.block_devices@.len() && (forall|j: int|
                i < j < data.block_devices@.len() ==> #[trigger] data.block_devices@[j].device_name@ != data.block_devices@[i].device_name@)
                ==> disk_recorded(final(statistics)@, #[trigger] data.block_devices@[i], timestamp),
{
    let n = data.block_devices.len();
    let ghost start = statistics@;
    let mut i: usize = 0;
    while i < n
        invariant
            n == data.block_devices@.len(),
            i <= n,
            statistics.wf(),
            statistics@ == apply_disks(start, data.block_devices@.take(i as int), timestamp),
        decreases n - i,
    {
        let disk = &data.block_devices[i];
        let samples = blockdevice_samples_exec(disk);
        add_samples_to_statistics("blockdevice", disk.device_name.as_str(), timestamp, &samples, statistics);
        proof {
            assert(data.block_devices@.take(i + 1).drop_last() =~= data.block_devices@.take(i as int));
        }
        i = i + 1;
    }
    proof {
        assert(data.block_devices@.take(n as int) =~= data.block_devices@);
    }
    proof {
        assert forall|i: int|
            0 <= i < data.block_devices@.len() && (forall|j: int|
                i < j < data.block_devices@.len() ==> #[trigger] data.block_devices@[j].device_name@ != data.block_devices@[i].device_name@)
                implies disk_recorded(statistics@, #[trigger] data.block_devices@[i], timestamp) by {
            law_disks_read_back(start, data.block_devices@, timestamp, i);
        }
    }
    Ok(())
}

} // verus!
