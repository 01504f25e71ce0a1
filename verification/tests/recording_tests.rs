use procstat::devices::device_list;
use procstat::recording::{
    blockdevices_due, counted_interface, counted_interfaces, interfaces_due, physical_disks, record_time,
    record_time_if_present,
};
use procstat::statistics::{single_statistic_u64, ProcessorError, Statistics};

const SECOND: i64 = 1_000_000_000;

fn names(v: &[&str]) -> Vec<String> {
    v.iter().map(|s| s.to_string()).collect()
}

#[test]
fn record_time_of_missing_gate_is_an_error() {
    let s = Statistics::new();
    match record_time(&s, "stat", "all", "user") {
        Err(ProcessorError::UnableToFindKeyInHashMap { hashmap, key1, key2, key3 }) => {
            assert_eq!(hashmap, "statistics");
            assert_eq!(key1, "stat");
            assert_eq!(key2, "all");
            assert_eq!(key3, "user");
        }
        other => panic!("unexpected {:?}", other),
    }
}

#[test]
fn record_due_only_after_second_reading() {
    let mut s = Statistics::new();
    single_statistic_u64("meminfo", "", "memtotal", SECOND, 100, &mut s);
    assert!(matches!(record_time(&s, "meminfo", "", "memtotal"), Ok(None)));
    single_statistic_u64("meminfo", "", "memtotal", 2 * SECOND, 100, &mut s);
    assert!(matches!(record_time(&s, "meminfo", "", "memtotal"), Ok(Some(t)) if t == 2 * SECOND));
}

#[test]
fn absent_optional_gate_means_no_record() {
    let mut s = Statistics::new();
    assert_eq!(record_time_if_present(&s, "pressure", "", "cpu_some_avg10"), None);
    single_statistic_u64("pressure", "", "cpu_some_avg10", SECOND, 1, &mut s);
    assert_eq!(record_time_if_present(&s, "pressure", "", "cpu_some_avg10"), None);
    single_statistic_u64("pressure", "", "cpu_some_avg10", 3 * SECOND, 1, &mut s);
    assert_eq!(record_time_if_present(&s, "pressure", "", "cpu_some_avg10"), Some(3 * SECOND));
}

#[test]
fn loop_and_optical_devices_are_not_disks() {
    let r = physical_disks(&names(&["dm-0", "loop0", "loop12", "nvme0n1", "sda", "sr0"]));
    assert_eq!(r, names(&["dm-0", "nvme0n1", "sda"]));
    assert!(physical_disks(&Vec::new()).is_empty());
}

#[test]
fn loopback_interfaces_are_not_counted() {
    assert!(!counted_interface("lo"));
    assert!(counted_interface("eth0"));
    let r = counted_interfaces(&names(&["eth0", "lo", "wlan0"]));
    assert_eq!(r, names(&["eth0", "wlan0"]));
}

#[test]
fn blockdevice_records_follow_the_first_disk() {
    let mut s = Statistics::new();
    for d in ["loop0", "sda"] {
        single_statistic_u64("blockdevice", d, "stat_reads_completed_success", SECOND, 5, &mut s);
    }
    let disks = device_list(&s, "blockdevice");
    assert_eq!(disks, names(&["loop0", "sda"]));
    assert_eq!(blockdevices_due(&s, &disks), None);
    for d in ["loop0", "sda"] {
        single_statistic_u64("blockdevice", d, "stat_reads_completed_success", 2 * SECOND, 9, &mut s);
    }
    assert_eq!(blockdevices_due(&s, &disks), Some((2 * SECOND, names(&["sda"]))));
    // a first disk without the reads counter gives no records
    assert_eq!(blockdevices_due(&s, &names(&["vdb"])), None);
}

#[test]
fn a_system_without_disks_gets_no_blockdevice_records() {
    let mut s = Statistics::new();
    single_statistic_u64("stat", "all", "user", SECOND, 5, &mut s);
    single_statistic_u64("stat", "all", "user", 2 * SECOND, 9, &mut s);
    let disks = device_list(&s, "blockdevice");
    assert!(disks.is_empty());
    assert_eq!(blockdevices_due(&s, &disks), None);
}

#[test]
fn interface_records_follow_the_first_interface() {
    let mut s = Statistics::new();
    for d in ["eth0", "lo"] {
        single_statistic_u64("net_dev", d, "receive_bytes", SECOND, 5, &mut s);
    }
    let nics = device_list(&s, "net_dev");
    assert_eq!(interfaces_due(&s, &nics), None);
    for d in ["eth0", "lo"] {
        single_statistic_u64("net_dev", d, "receive_bytes", 2 * SECOND, 7, &mut s);
    }
    assert_eq!(interfaces_due(&s, &nics), Some((2 * SECOND, names(&["eth0"]))));
}
