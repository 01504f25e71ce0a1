use procstat::blockdevice::{process_blockdevice_data, BlockDevice, SysBlock};
use procstat::figures::{device_major_minor, memory_used};
use procstat::loadavg::{process_loadavg_data, LoadavgSample};
use procstat::meminfo::{process_meminfo_data, MemInfoSample};
use procstat::net_dev::{process_net_dev_data, InterfaceStats, ProcNetDev};
use procstat::pressure::{process_pressure_data, ProcPressure, PsiSample};
use procstat::processor::{process_data, Data, ProcData};
use procstat::schedstat::{process_schedstat_data, ProcSchedStat};
use procstat::stat::{process_cpu_statistics, process_stat_data, CpuTimes, StatSample};
use procstat::statistics::Statistics;
use procstat::vmstat::{process_vmstat_data, VmStatSample};
use procstat::xfs::{process_xfs_data, XfsSample};

fn cpu(name: &str, user: u64, nice: u64, system: u64, idle: u64, iowait: u64, softirq: u64) -> CpuTimes {
    CpuTimes {
        name: name.to_string(),
        user,
        nice,
        system,
        idle,
        iowait: Some(iowait),
        irq: Some(0),
        softirq: Some(softirq),
        steal: Some(0),
        guest: Some(0),
        guest_nice: Some(0),
    }
}

fn sample_stat() -> StatSample {
    StatSample {
        cpu_total: cpu("cpu", 331400, 1170, 479040, 445855520, 15240, 3860),
        cpu_individual: vec![
            cpu("cpu0", 53340, 430, 83740, 74272640, 2900, 3680),
            cpu("cpu1", 58090, 370, 81090, 74311330, 2210, 10),
            cpu("cpu2", 53540, 0, 79770, 74316290, 2830, 30),
            cpu("cpu3", 56090, 0, 78810, 74313730, 2780, 30),
            cpu("cpu4", 55520, 0, 77680, 74322780, 2380, 40),
            cpu("cpu5", 54800, 370, 77930, 74318720, 2120, 40),
        ],
        interrupts: vec![15506823, 0, 415285, 4858998, 0, 0, 0, 2, 0, 0, 0, 9394136],
        context_switches: 25606100,
        processes: 307077,
        processes_running: 1,
        processes_blocked: 0,
        softirq: vec![5828301, 29, 1309452, 3, 362338, 11, 0, 311, 1998829, 0, 2157328],
    }
}

fn sample_schedstat() -> ProcSchedStat {
    ProcSchedStat {
        cpu: vec![
            vec![0, 0, 0, 0, 0, 0, 0, 217794498927, 8771639928, 2509871],
            vec![1, 0, 0, 0, 0, 0, 0, 206982770373, 7026635877, 2113821],
            vec![2, 0, 0, 0, 0, 0, 0, 202767854725, 6922696498, 2133076],
            vec![3, 0, 0, 0, 0, 0, 0, 203424540826, 6963648533, 2168592],
            vec![4, 0, 0, 0, 0, 0, 0, 199197308929, 6651544983, 2100715],
            vec![5, 0, 0, 0, 0, 0, 0, 202369695269, 6838385853, 2143574],
        ],
    }
}

#[test]
fn process_schedstat_data_output() {
    let mut statistics = Statistics::new();
    assert!(process_schedstat_data(&sample_schedstat(), 1_702_480_824_291_337_737, &mut statistics).is_ok());
    assert_eq!(statistics.len(), 7 * 3);
    assert_eq!(statistics.get("schedstat", "cpu0", "time_running").unwrap().last_value, 217794498927);
    assert_eq!(statistics.get("schedstat", "cpu5", "time_waiting").unwrap().last_value, 6838385853);
    assert_eq!(statistics.get("schedstat", "cpu3", "timeslices").unwrap().last_value, 2168592);
    assert_eq!(
        statistics.get("schedstat", "all", "time_running").unwrap().last_value,
        217794498927 + 206982770373 + 202767854725 + 203424540826 + 199197308929 + 202369695269
    );
    assert_eq!(
        statistics.get("schedstat", "all", "time_waiting").unwrap().last_value,
        8771639928 + 7026635877 + 6922696498 + 6963648533 + 6651544983 + 6838385853
    );
    assert_eq!(
        statistics.get("schedstat", "all", "timeslices").unwrap().last_value,
        2509871 + 2113821 + 2133076 + 2168592 + 2100715 + 2143574
    );
    assert!(!statistics.get("schedstat", "all", "timeslices").unwrap().updated_value);
}

#[test]
fn schedstat_cpu_numbers_become_names() {
    let mut statistics = Statistics::new();
    let s = ProcSchedStat { cpu: vec![vec![12, 0, 0, 0, 0, 0, 0, 1, 2, 3]] };
    process_schedstat_data(&s, 0, &mut statistics).unwrap();
    assert_eq!(statistics.get("schedstat", "cpu12", "timeslices").unwrap().last_value, 3);
    assert_eq!(statistics.get("schedstat", "all", "time_waiting").unwrap().last_value, 2);
}

#[test]
fn stat_total_line_is_recorded_as_all() {
    let mut statistics = Statistics::new();
    process_stat_data(&sample_stat(), 0, &mut statistics).unwrap();
    assert_eq!(statistics.get("stat", "all", "user").unwrap().last_value, 331400);
    assert!(statistics.get("stat", "cpu", "user").is_none());
    assert_eq!(statistics.get("stat", "cpu4", "system").unwrap().last_value, 77680);
    assert_eq!(statistics.get("stat", "cpu1", "softirq").unwrap().last_value, 10);
    assert_eq!(statistics.get("stat", "", "context_switches").unwrap().last_value, 25606100);
    assert_eq!(statistics.get("stat", "", "interrupts_total").unwrap().last_value, 15506823);
    assert_eq!(statistics.get("stat", "", "softirq_total").unwrap().last_value, 5828301);
    assert_eq!(statistics.len(), 7 * 10 + 4 + 2);
}

#[test]
fn stat_absent_counters_are_zero() {
    let mut statistics = Statistics::new();
    let c = CpuTimes { name: "cpu3".to_string(), user: 5, ..Default::default() };
    process_cpu_statistics(&c, 0, &mut statistics).unwrap();
    assert_eq!(statistics.get("stat", "cpu3", "guest_nice").unwrap().last_value, 0);
    assert_eq!(statistics.get("stat", "cpu3", "user").unwrap().last_value, 5);
}

#[test]
fn stat_second_reading_gives_changes() {
    let mut statistics = Statistics::new();
    let mut s = sample_stat();
    process_stat_data(&s, 0, &mut statistics).unwrap();
    s.cpu_total.user += 250;
    s.processes += 3;
    process_stat_data(&s, 2_000_000_000, &mut statistics).unwrap();
    let user = statistics.get("stat", "all", "user").unwrap();
    assert!(user.updated_value);
    assert_eq!(user.delta_value, 250);
    assert_eq!(user.elapsed_ms, 2000);
    assert_eq!(statistics.get("stat", "", "processes").unwrap().delta_value, 3);
    assert_eq!(statistics.get("stat", "cpu0", "user").unwrap().delta_value, 0);
}

#[test]
fn pressure_absent_records_nothing() {
    let mut statistics = Statistics::new();
    process_pressure_data(&ProcPressure { psi: None }, 0, &mut statistics).unwrap();
    assert_eq!(statistics.len(), 0);
    let psi = PsiSample { cpu_some_avg10: 152, cpu_full_total: None, io_full_total: 77, ..Default::default() };
    process_pressure_data(&ProcPressure { psi: Some(psi) }, 0, &mut statistics).unwrap();
    assert_eq!(statistics.len(), 24);
    assert_eq!(statistics.get("pressure", "", "cpu_some_avg10").unwrap().last_value, 152);
    assert_eq!(statistics.get("pressure", "", "cpu_full_total").unwrap().last_value, 0);
    assert_eq!(statistics.get("pressure", "", "io_full_total").unwrap().last_value, 77);
}

#[test]
fn flat_sources() {
    let mut statistics = Statistics::new();
    let m = MemInfoSample { memtotal: 3997876, memfree: 2372092, hugetlb: 5, ..Default::default() };
    process_meminfo_data(&m, 0, &mut statistics).unwrap();
    assert_eq!(statistics.len(), 54);
    assert_eq!(statistics.get("meminfo", "", "memtotal").unwrap().last_value, 3997876);
    assert_eq!(statistics.get("meminfo", "", "hugetlb").unwrap().last_value, 5);
    let v = VmStatSample { pgpgin: 17, ..Default::default() };
    process_vmstat_data(&v, 0, &mut statistics).unwrap();
    assert_eq!(statistics.get("vmstat", "", "pgpgin").unwrap().last_value, 17);
    let x = XfsSample { xs_read_calls: Some(9), ..Default::default() };
    process_xfs_data(&x, 0, &mut statistics).unwrap();
    assert_eq!(statistics.get("xfs", "", "xs_read_calls").unwrap().last_value, 9);
    assert_eq!(statistics.get("xfs", "", "xs_write_calls").unwrap().last_value, 0);
    let l = LoadavgSample { load_1: 52, current_runnable: 2, ..Default::default() };
    process_loadavg_data(&l, 0, &mut statistics).unwrap();
    assert_eq!(statistics.get("loadavg", "", "load_1").unwrap().last_value, 52);
    assert_eq!(statistics.get("loadavg", "", "current_runnable").unwrap().last_value, 2);
}

#[test]
fn devices_are_recorded_under_their_names() {
    let mut statistics = Statistics::new();
    let disks = SysBlock {
        block_devices: vec![
            BlockDevice { device_name: "sda".to_string(), stat_reads_completed_success: 9718, dev_block_major: 253, stat_discards_completed_success: Some(7141), ..Default::default() },
            BlockDevice { device_name: "sdb".to_string(), stat_reads_completed_success: 1, ..Default::default() },
        ],
    };
    process_blockdevice_data(&disks, 0, &mut statistics).unwrap();
    assert_eq!(statistics.len(), 2 * 35);
    assert_eq!(statistics.get("blockdevice", "sda", "stat_reads_completed_success").unwrap().last_value, 9718);
    assert_eq!(statistics.get("blockdevice", "sda", "stat_discards_completed_success").unwrap().last_value, 7141);
    assert_eq!(statistics.get("blockdevice", "sdb", "stat_flush_requests_time_spent_ms").unwrap().last_value, 0);
    let nics = ProcNetDev {
        interface: vec![InterfaceStats { name: "eth0".to_string(), receive_bytes: 13351708, transmit_packets: 2477, ..Default::default() }],
    };
    process_net_dev_data(&nics, 0, &mut statistics).unwrap();
    assert_eq!(statistics.get("net_dev", "eth0", "receive_bytes").unwrap().last_value, 13351708);
    assert_eq!(statistics.get("net_dev", "eth0", "transmit_packets").unwrap().last_value, 2477);
}

#[test]
fn whole_reading() {
    let mut statistics = Statistics::new();
    let d = ProcData { timestamp: 1, stat: sample_stat(), schedstat: sample_schedstat(), ..Default::default() };
    process_data(d.clone(), &mut statistics).unwrap();
    assert_eq!(statistics.get("stat", "all", "idle").unwrap().last_value, 445855520);
    assert_eq!(statistics.get("schedstat", "cpu2", "timeslices").unwrap().last_value, 2133076);
    assert!(statistics.get("meminfo", "", "memtotal").is_some());
    assert!(statistics.get("pressure", "", "cpu_some_avg10").is_none());
    let n = statistics.len();
    process_data(ProcData { timestamp: 1_000_000_001, ..d }, &mut statistics).unwrap();
    assert_eq!(statistics.len(), n);
    let idle = statistics.get("stat", "all", "idle").unwrap();
    assert!(idle.updated_value);
    assert_eq!(idle.elapsed_ms, 1000);
}

#[test]
fn sar_memory_used() {
    assert_eq!(memory_used(3997876, 2372092, 42532, 1337228, 102188), 3997876 - (2372092 + 42532 + 1337228 + 102188));
    assert_eq!(memory_used(100, 60, 30, 20, 10), 0);
    assert_eq!(memory_used(u64::MAX, u64::MAX, u64::MAX, 1, 1), 0);
    assert_eq!(memory_used(100, 0, 0, 0, 0), 100);
}

#[test]
fn major_minor() {
    assert_eq!(device_major_minor(253, 0), "253:0");
    assert_eq!(device_major_minor(8, 16), "8:16");
}

#[test]
fn data_histories() {
    let mut data: Data<u8, u8, u8, u8, u8, u8, u8, u8> = Data::new(2);
    data.push_cpu(1, 1);
    data.push_cpu(2, 2);
    data.push_cpu(3, 3);
    data.push_vmstat(3, 9);
    assert_eq!(data.cpu.len(), 2);
    assert_eq!(*data.cpu.get(0), 2);
    assert_eq!(data.vmstat.len(), 1);
    assert_eq!(data.memory.len(), 0);
}

#[test]
fn every_vmstat_counter_is_recorded() {
    let mut statistics = Statistics::new();
    let v = VmStatSample {
        pgpgout: 3,
        pswpin: 4,
        pswpout: 5,
        pgfault: 6,
        pgmajfault: 7,
        oom_kill: 1,
        swap_ra_hit: 8,
        slabs_scanned: Some(11),
        zswpout: Some(12),
        ..Default::default()
    };
    process_vmstat_data(&v, 0, &mut statistics).unwrap();
    // 129 counters always there and 45 that may be absent
    assert_eq!(statistics.len(), 174);
    assert_eq!(statistics.get("vmstat", "", "pswpout").unwrap().last_value, 5);
    assert_eq!(statistics.get("vmstat", "", "pgmajfault").unwrap().last_value, 7);
    assert_eq!(statistics.get("vmstat", "", "swap_ra_hit").unwrap().last_value, 8);
    assert_eq!(statistics.get("vmstat", "", "slabs_scanned").unwrap().last_value, 11);
    assert_eq!(statistics.get("vmstat", "", "pgscan_anon").unwrap().last_value, 0);
    // the restore counter is recorded twice in one reading: the second sample sees the first
    let r = statistics.get("vmstat", "", "workingset_restore_anon").unwrap();
    assert!(r.updated_value);
    assert_eq!(r.delta_value, 0);
}
