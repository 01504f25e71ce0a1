use procstat::devices::{cpu_list, device_list, physical_disk};
use procstat::statistics::{single_statistic_u64, Statistics};
use procstat::text::{insert_sorted, push_decimal, starts_with, str_lt};

#[test]
fn prefixes() {
    assert!(starts_with("cpu12", "cpu"));
    assert!(starts_with("cpu", "cpu"));
    assert!(starts_with("abc", ""));
    assert!(!starts_with("cp", "cpu"));
    assert!(!starts_with("all", "cpu"));
    assert!(starts_with("äbc", "ä"));
}

#[test]
fn decimal_numbers() {
    for n in [0u64, 7, 10, 99, 100, 12345, u64::MAX] {
        let mut s = String::from("cpu");
        push_decimal(n, &mut s);
        assert_eq!(s, format!("cpu{}", n));
    }
}

#[test]
fn lexicographic_order_matches_string_order() {
    let words = ["", "a", "ab", "b", "cpu1", "cpu10", "cpu2", "all", "é", "z"];
    for a in words {
        for b in words {
            assert_eq!(str_lt(a, b), a < b, "{} {}", a, b);
        }
    }
}

#[test]
fn sorted_insertion_drops_duplicates() {
    let mut v: Vec<String> = Vec::new();
    for w in ["cpu2", "all", "cpu10", "cpu2", "cpu1", "all"] {
        insert_sorted(&mut v, w.to_string());
    }
    assert_eq!(v, vec!["all", "cpu1", "cpu10", "cpu2"]);
}

#[test]
fn cpu_list_is_sorted_and_unique() {
    let mut s = Statistics::new();
    for cpu in ["cpu1", "cpu0", "all", "cpu10", "cpu2"] {
        single_statistic_u64("stat", cpu, "user", 0, 1, &mut s);
        single_statistic_u64("stat", cpu, "nice", 0, 1, &mut s);
        single_statistic_u64("schedstat", cpu, "time_running", 0, 1, &mut s);
    }
    single_statistic_u64("stat", "", "processes", 0, 1, &mut s);
    single_statistic_u64("blockdevice", "cpu_like_disk", "ro", 0, 1, &mut s);
    assert_eq!(cpu_list(&s), vec!["all", "cpu0", "cpu1", "cpu10", "cpu2"]);
}

#[test]
fn device_lists() {
    let mut s = Statistics::new();
    for disk in ["sdb", "loop0", "sda", "sr0", "nvme0n1"] {
        single_statistic_u64("blockdevice", disk, "ro", 0, 0, &mut s);
        single_statistic_u64("blockdevice", disk, "removable", 0, 0, &mut s);
    }
    single_statistic_u64("net_dev", "eth0", "receive_bytes", 0, 0, &mut s);
    let disks = device_list(&s, "blockdevice");
    assert_eq!(disks, vec!["loop0", "nvme0n1", "sda", "sdb", "sr0"]);
    let physical: Vec<&String> = disks.iter().filter(|d| physical_disk(d)).collect();
    assert_eq!(physical, vec!["nvme0n1", "sda", "sdb"]);
    assert_eq!(device_list(&s, "net_dev"), vec!["eth0"]);
    assert!(device_list(&s, "xfs").is_empty());
}
