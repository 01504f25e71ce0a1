//! One reading of all sources, recorded into the statistics table in one go, and the
//! histories of the records derived from it.
use vstd::prelude::*;
use crate::statistics::{
    KeyView, ProcessorError, Statistic, Statistics, apply_samples, lemma_apply_samples_keeps,
    lemma_keeps_category_trans,
};
use crate::stat::{StatSample, process_stat_data, stat_map};
use crate::schedstat::{
    ProcSchedStat, process_schedstat_data, schedstat_map, rows_view, rows_complete, column_sum,
};
use crate::meminfo::{
    MemInfoSample, process_meminfo_data, meminfo_samples, meminfo_recorded, lemma_meminfo_recorded_kept,
};
use crate::blockdevice::{SysBlock, process_blockdevice_data, apply_disks, lemma_apply_disks_keeps};
use crate::net_dev::{ProcNetDev, process_net_dev_data, apply_interfaces, lemma_apply_interfaces_keeps};
use crate::loadavg::{
    LoadavgSample, process_loadavg_data, loadavg_samples, loadavg_recorded, lemma_loadavg_recorded_kept,
};
use crate::pressure::{ProcPressure, process_pressure_data, pressure_map, lemma_pressure_map_keeps};
use crate::vmstat::{
    VmStatSample, process_vmstat_data, vmstat_samples, vmstat_recorded, lemma_vmstat_recorded_kept,
};
use crate::xfs::{XfsSample, process_xfs_data, xfs_samples, xfs_recorded};
use crate::history::{History, pushed};

verus! {

/// One reading of all sources, taken at `timestamp` (nanoseconds since the epoch).
#[derive(Clone, Debug, Default)]
pub struct ProcData {
    pub timestamp: i64,
    pub stat: StatSample,
    pub schedstat: ProcSchedStat,
    pub meminfo: MemInfoSample,
    pub blockdevices: SysBlock,
    pub net_dev: ProcNetDev,
    pub loadavg: LoadavgSample,
    pub pressure: ProcPressure,
    pub vmstat: VmStatSample,
    pub xfs: XfsSample,
}

/// What a reading must hold to be recorded: the interrupt and softirq totals, the
/// scheduler fields of every CPU, and scheduler sums that fit in 64 bits.
pub open spec fn proc_data_complete(d: ProcData) -> bool {
    &&& d.stat.interrupts@.len() > 0
    &&& d.stat.softirq@.len() > 0
    &&& rows_complete(rows_view(d.schedstat.cpu@))
    &&& column_sum(rows_view(d.schedstat.cpu@), 7) <= u64::MAX
    &&& column_sum(rows_view(d.schedstat.cpu@), 8) <= u64::MAX
    &&& column_sum(rows_view(d.schedstat.cpu@), 9) <= u64::MAX
}

/// The table after a whole reading, source by source in a fixed order.
pub open spec fn proc_data_map(m: Map<KeyView, Statistic>, d: ProcData) -> Map<KeyView, Statistic> {
    let ts = d.timestamp;
    let m1 = stat_map(m, d.stat, ts);
    let m2 = schedstat_map(m1, rows_view(d.schedstat.cpu@), ts);
    let m3 = apply_samples(m2, "meminfo"@, ""@, ts, meminfo_samples(d.meminfo));
    let m4 = apply_disks(m3, d.blockdevices.block_devices@, ts);
    let m5 = apply_interfaces(m4, d.net_dev.interface@, ts);
    let m6 = apply_samples(m5, "loadavg"@, ""@, ts, loadavg_samples(d.loadavg));
    let m7 = pressure_map(m6, d.pressure, ts);
    let m8 = apply_samples(m7, "vmstat"@, ""@, ts, vmstat_samples(d.vmstat));
    apply_samples(m8, "xfs"@, ""@, ts, xfs_samples(d.xfs))
}

/// Enough of the spelling of the category names to tell them apart.
proof fn lemma_category_names()
    ensures
        "stat"@.len() == 4,
        "schedstat"@.len() == 9,
        "meminfo"@.len() == 7,
        "blockdevice"@.len() == 11,
        "net_dev"@.len() == 7,
        "loadavg"@.len() == 7,
        "pressure"@.len() == 8,
        "vmstat"@.len() == 6,
        "xfs"@.len() == 3,
        "meminfo"@[0] == 'm',
        "net_dev"@[0] == 'n',
        "loadavg"@[0] == 'l',
{
    reveal_strlit("stat");
    reveal_strlit("schedstat");
    reveal_strlit("meminfo");
    reveal_strlit("blockdevice");
    reveal_strlit("net_dev");
    reveal_strlit("loadavg");
    reveal_strlit("pressure");
    reveal_strlit("vmstat");
    reveal_strlit("xfs");
}

/// Records a whole reading into the table.
pub fn process_data(proc_data: ProcData, statistics: &mut Statistics) -> (r: Result<(), ProcessorError>)
    requires
        old(statistics).wf(),
        proc_data_complete(proc_data),
    ensures
        r is Ok,
        final(statistics).wf(),
        final(statistics)@ == proc_data_map(old(statistics)@, proc_data),
        meminfo_recorded(final(statistics)@, proc_data.meminfo, proc_data.timestamp),
        loadavg_recorded(final(statistics)@, proc_data.loadavg, proc_data.timestamp),
        vmstat_recorded(final(statistics)@, proc_data.vmstat, proc_data.timestamp),
        xfs_recorded(final(statistics)@, proc_data.xfs, proc_data.timestamp),
{
    let ts = proc_data.timestamp;
    let _ = process_stat_data(&proc_data.stat, ts, statistics);
    let _ = process_schedstat_data(&proc_data.schedstat, ts, statistics);
    let _ = process_meminfo_data(&proc_data.meminfo, ts, statistics);
    let ghost s3 = statistics@;
    let _ = process_blockdevice_data(&proc_data.blockdevices, ts, statistics);
    let ghost s4 = statistics@;
    let _ = process_net_dev_data(&proc_data.net_dev, ts, statistics);
    let ghost s5 = statistics@;
    let _ = process_loadavg_data(&proc_data.loadavg, ts, statistics);
    let ghost s6 = statistics@;
    let _ = process_pressure_data(&proc_data.pressure, ts, statistics);
    let ghost s7 = statistics@;
    let _ = process_vmstat_data(&proc_data.vmstat, ts, statistics);
    let ghost s8 = statistics@;
    let _ = process_xfs_data(&proc_data.xfs, ts, statistics);
    proof {
        lemma_category_names();
        let s9 = statistics@;
        // vmstat: only xfs follows
        lemma_apply_samples_keeps(s8, "xfs"@, ""@, ts, xfs_samples(proc_data.xfs), "vmstat"@);
        lemma_vmstat_recorded_kept(s8, s9, proc_data.vmstat, ts);
        // loadavg: pressure, vmstat and xfs follow
        lemma_pressure_map_keeps(s6, proc_data.pressure, ts, "loadavg"@);
        lemma_apply_samples_keeps(s7, "vmstat"@, ""@, ts, vmstat_samples(proc_data.vmstat), "loadavg"@);
        lemma_apply_samples_keeps(s8, "xfs"@, ""@, ts, xfs_samples(proc_data.xfs), "loadavg"@);
        lemma_keeps_category_trans(s6, s7, s8, "loadavg"@);
        lemma_keeps_category_trans(s6, s8, s9, "loadavg"@);
        lemma_loadavg_recorded_kept(s6, s9, proc_data.loadavg, ts);
        // meminfo: block devices, interfaces, loadavg, pressure, vmstat and xfs follow
        lemma_apply_disks_keeps(s3, proc_data.blockdevices.block_devices@, ts, "meminfo"@);
        lemma_apply_interfaces_keeps(s4, proc_data.net_dev.interface@, ts, "meminfo"@);
        lemma_apply_samples_keeps(s5, "loadavg"@, ""@, ts, loadavg_samples(proc_data.loadavg), "meminfo"@);
        lemma_pressure_map_keeps(s6, proc_data.pressure, ts, "meminfo"@);
        lemma_apply_samples_keeps(s7, "vmstat"@, ""@, ts, vmstat_samples(proc_data.vmstat), "meminfo"@);
        lemma_apply_samples_keeps(s8, "xfs"@, ""@, ts, xfs_samples(proc_data.xfs), "meminfo"@);
        lemma_keeps_category_trans(s3, s4, s5, "meminfo"@);
        lemma_keeps_category_trans(s3, s5, s6, "meminfo"@);
        lemma_keeps_category_trans(s3, s6, s7, "meminfo"@);
        lemma_keeps_category_trans(s3, s7, s8, "meminfo"@);
        lemma_keeps_category_trans(s3, s8, s9, "meminfo"@);
        lemma_meminfo_recorded_kept(s3, s9, proc_data.meminfo, ts);
    }
    Ok(())
}

/// The histories of the records derived from the statistics, one per source, each
/// holding at most the same number of records.
pub struct Data<Cpu, Mem, Blk, Net, Load, Psi, Vm, Xfs> {
    pub cpu: History<Cpu>,
    pub memory: History<Mem>,
    pub blockdevices: History<Blk>,
    pub networkdevices: History<Net>,
    pub loadavg: History<Load>,
    pub pressure: History<Psi>,
    pub vmstat: History<Vm>,
    pub xfs: History<Xfs>,
}

impl<Cpu, Mem, Blk, Net, Load, Psi, Vm, Xfs> Data<Cpu, Mem, Blk, Net, Load, Psi, Vm, Xfs> {
    /// Every history is well formed and keeps at most `limit` records.
    pub open spec fn wf_with(&self, limit: nat) -> bool {
        &&& self.cpu.wf() && self.cpu.limit() == limit
        &&& self.memory.wf() && self.memory.limit() == limit
        &&& self.blockdevices.wf() && self.blockdevices.limit() == limit
        &&& self.networkdevices.wf() && self.networkdevices.limit() == limit
        &&& self.loadavg.wf() && self.loadavg.limit() == limit
        &&& self.pressure.wf() && self.pressure.limit() == limit
        &&& self.vmstat.wf() && self.vmstat.limit() == limit
        &&& self.xfs.wf() && self.xfs.limit() == limit
    }

    /// Empty histories that keep at most `history` records each.
    pub fn new(history: usize) -> (r: Self)
        ensures
            r.wf_with(history as nat),
            r.cpu.contents().len() == 0,
            r.memory.contents().len() == 0,
            r.blockdevices.contents().len() == 0,
            r.networkdevices.contents().len() == 0,
            r.loadavg.contents().len() == 0,
            r.pressure.contents().len() == 0,
            r.vmstat.contents().len() == 0,
            r.xfs.contents().len() == 0,
    {
        Data {
            cpu: History::new(history),
            memory: History::new(history),
            blockdevices: History::new(history),
            networkdevices: History::new(history),
            loadavg: History::new(history),
            pressure: History::new(history),
            vmstat: History::new(history),
            xfs: History::new(history),
        }
    }

    /// Appends a record to the cpu history; when it is full, the oldest record goes.
    pub fn push_cpu(&mut self, timestamp: i64, record: Cpu)
        requires
            old(self).cpu.wf(),
            old(self).cpu.limit() > 0,
        ensures
            final(self).cpu.wf(),
            final(self).cpu.limit() == old(self).cpu.limit(),
            final(self).cpu.contents() == pushed(old(self).cpu.contents(), old(self).cpu.limit(), (timestamp, record)),
            final(self).memory == old(self).memory,
            final(self).blockdevices == old(self).blockdevices,
            final(self).networkdevices == old(self).networkdevices,
            final(self).loadavg == old(self).loadavg,
            final(self).pressure == old(self).pressure,
            final(self).vmstat == old(self).vmstat,
            final(self).xfs == old(self).xfs,
    {
        self.cpu.push(timestamp, record);
    }

    /// Appends a record to the memory history; when it is full, the oldest record goes.
    pub fn push_memory(&mut self, timestamp: i64, record: Mem)
        requires
            old(self).memory.wf(),
            old(self).memory.limit() > 0,
        ensures
            final(self).memory.wf(),
            final(self).memory.limit() == old(self).memory.limit(),
            final(self).memory.contents() == pushed(old(self).memory.contents(), old(self).memory.limit(), (timestamp, record)),
            final(self).cpu == old(self).cpu,
            final(self).blockdevices == old(self).blockdevices,
            final(self).networkdevices == old(self).networkdevices,
            final(self).loadavg == old(self).loadavg,
            final(self).pressure == old(self).pressure,
            final(self).vmstat == old(self).vmstat,
            final(self).xfs == old(self).xfs,
    {
        self.memory.push(timestamp, record);
    }

    /// Appends a record to the blockdevices history; when it is full, the oldest record goes.
    pub fn push_blockdevices(&mut self, timestamp: i64, record: Blk)
        requires
            old(self).blockdevices.wf(),
            old(self).blockdevices.limit() > 0,
        ensures
            final(self).blockdevices.wf(),
            final(self).blockdevices.limit() == old(self).blockdevices.limit(),
            final(self).blockdevices.contents() == pushed(old(self).blockdevices.contents(), old(self).blockdevices.limit(), (timestamp, record)),
            final(self).cpu == old(self).cpu,
            final(self).memory == old(self).memory,
            final(self).networkdevices == old(self).networkdevices,
            final(self).loadavg == old(self).loadavg,
            final(self).pressure == old(self).pressure,
            final(self).vmstat == old(self).vmstat,
            final(self).xfs == old(self).xfs,
    {
        self.blockdevices.push(timestamp, record);
    }

    /// Appends a record to the networkdevices history; when it is full, the oldest record goes.
    pub fn push_networkdevices(&mut self, timestamp: i64, record: Net)
        requires
            old(self).networkdevices.wf(),
            old(self).networkdevices.limit() > 0,
        ensures
            final(self).networkdevices.wf(),
            final(self).networkdevices.limit() == old(self).networkdevices.limit(),
            final(self).networkdevices.contents() == pushed(old(self).networkdevices.contents(), old(self).networkdevices.limit(), (timestamp, record)),
            final(self).cpu == old(self).cpu,
            final(self).memory == old(self).memory,
            final(self).blockdevices == old(self).blockdevices,
            final(self).loadavg == old(self).loadavg,
            final(self).pressure == old(self).pressure,
            final(self).vmstat == old(self).vmstat,
            final(self).xfs == old(self).xfs,
    {
        self.networkdevices.push(timestamp, record);
    }

    /// Appends a record to the loadavg history; when it is full, the oldest record goes.
    pub fn push_loadavg(&mut self, timestamp: i64, record: Load)
        requires
            old(self).loadavg.wf(),
            old(self).loadavg.limit() > 0,
        ensures
            final(self).loadavg.wf(),
            final(self).loadavg.limit() == old(self).loadavg.limit(),
            final(self).loadavg.contents() == pushed(old(self).loadavg.contents(), old(self).loadavg.limit(), (timestamp, record)),
            final(self).cpu == old(self).cpu,
            final(self).memory == old(self).memory,
            final(self).blockdevices == old(self).blockdevices,
            final(self).networkdevices == old(self).networkdevices,
            final(self).pressure == old(self).pressure,
            final(self).vmstat == old(self).vmstat,
            final(self).xfs == old(self).xfs,
    {
        self.loadavg.push(timestamp, record);
    }

    /// Appends a record to the pressure history; when it is full, the oldest record goes.
    pub fn push_pressure(&mut self, timestamp: i64, record: Psi)
        requires
            old(self).pressure.wf(),
            old(self).pressure.limit() > 0,
        ensures
            final(self).pressure.wf(),
            final(self).pressure.limit() == old(self).pressure.limit(),
            final(self).pressure.contents() == pushed(old(self).pressure.contents(), old(self).pressure.limit(), (timestamp, record)),
            final(self).cpu == old(self).cpu,
            final(self).memory == old(self).memory,
            final(self).blockdevices == old(self).blockdevices,
            final(self).networkdevices == old(self).networkdevices,
            final(self).loadavg == old(self).loadavg,
            final(self).vmstat == old(self).vmstat,
            final(self).xfs == old(self).xfs,
    {
        self.pressure.push(timestamp, record);
    }

    /// Appends a record to the vmstat history; when it is full, the oldest record goes.
    pub fn push_vmstat(&mut self, timestamp: i64, record: Vm)
        requires
            old(self).vmstat.wf(),
            old(self).vmstat.limit() > 0,
        ensures
            final(self).vmstat.wf(),
            final(self).vmstat.limit() == old(self).vmstat.limit(),
            final(self).vmstat.contents() == pushed(old(self).vmstat.contents(), old(self).vmstat.limit(), (timestamp, record)),
            final(self).cpu == old(self).cpu,
            final(self).memory == old(self).memory,
            final(self).blockdevices == old(self).blockdevices,
            final(self).networkdevices == old(self).networkdevices,
            final(self).loadavg == old(self).loadavg,
            final(self).pressure == old(self).pressure,
            final(self).xfs == old(self).xfs,
    {
        self.vmstat.push(timestamp, record);
    }

    /// Appends a record to the xfs history; when it is full, the oldest record goes.
    pub fn push_xfs(&mut self, timestamp: i64, record: Xfs)
        requires
            old(self).xfs.wf(),
            old(self).xfs.limit() > 0,
        ensures
            final(self).xfs.wf(),
            final(self).xfs.limit() == old(self).xfs.limit(),
            final(self).xfs.contents() == pushed(old(self).xfs.contents(), old(self).xfs.limit(), (timestamp, record)),
            final(self).cpu == old(self).cpu,
            final(self).memory == old(self).memory,
            final(self).blockdevices == old(self).blockdevices,
            final(self).networkdevices == old(self).networkdevices,
            final(self).loadavg == old(self).loadavg,
            final(self).pressure == old(self).pressure,
            final(self).vmstat == old(self).vmstat,
    {
        self.xfs.push(timestamp, record);
    }
}

} // verus!
