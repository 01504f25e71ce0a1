use procstat::statistics::{
    add_samples_to_statistics, lookup_statistic, lookup_statistics, single_statistic_option_u64,
    single_statistic_u64, ProcessorError, Statistic, Statistics,
};

const SECOND: i64 = 1_000_000_000;

#[test]
fn first_sample_is_not_updated() {
    let mut s = Statistics::new();
    single_statistic_u64("stat", "all", "user", 5 * SECOND, 100, &mut s);
    let r = s.get("stat", "all", "user").unwrap();
    assert_eq!(
        r,
        Statistic { last_timestamp: 5 * SECOND, last_value: 100, delta_value: 0, elapsed_ms: 0, updated_value: false }
    );
    assert_eq!(s.len(), 1);
}

#[test]
fn second_sample_records_change_and_time() {
    let mut s = Statistics::new();
    single_statistic_u64("stat", "all", "user", 5 * SECOND, 100, &mut s);
    single_statistic_u64("stat", "all", "user", 6 * SECOND + 500_000_000, 350, &mut s);
    let r = s.get("stat", "all", "user").unwrap();
    assert!(r.updated_value);
    assert_eq!(r.last_value, 350);
    assert_eq!(r.delta_value, 250);
    assert_eq!(r.elapsed_ms, 1500);
    assert_eq!(s.len(), 1);
}

#[test]
fn counter_going_back_gives_negative_change() {
    let mut s = Statistics::new();
    single_statistic_u64("net_dev", "eth0", "receive_bytes", 0, 1000, &mut s);
    single_statistic_u64("net_dev", "eth0", "receive_bytes", SECOND, 10, &mut s);
    assert_eq!(s.get("net_dev", "eth0", "receive_bytes").unwrap().delta_value, -990);
}

#[test]
fn elapsed_time_truncates_toward_zero() {
    let mut s = Statistics::new();
    single_statistic_u64("a", "", "x", 10_999_999, 1, &mut s);
    single_statistic_u64("a", "", "x", 9_000_000, 1, &mut s);
    // -1.999999 ms truncates to -1 ms
    assert_eq!(s.get("a", "", "x").unwrap().elapsed_ms, -1);
    single_statistic_u64("a", "", "x", 11_999_999, 1, &mut s);
    assert_eq!(s.get("a", "", "x").unwrap().elapsed_ms, 2);
}

#[test]
fn extreme_values_do_not_overflow() {
    let mut s = Statistics::new();
    single_statistic_u64("a", "", "x", i64::MIN, 0, &mut s);
    single_statistic_u64("a", "", "x", i64::MAX, u64::MAX, &mut s);
    let r = s.get("a", "", "x").unwrap();
    assert_eq!(r.delta_value, u64::MAX as i128);
    assert_eq!(r.elapsed_ms, 18_446_744_073_709);
}

#[test]
fn absent_counter_counts_as_zero() {
    let mut s = Statistics::new();
    single_statistic_option_u64("stat", "all", "steal", 0, None, &mut s);
    assert_eq!(s.get("stat", "all", "steal").unwrap().last_value, 0);
    single_statistic_option_u64("stat", "all", "steal", SECOND, Some(42), &mut s);
    assert_eq!(s.get("stat", "all", "steal").unwrap().delta_value, 42);
}

#[test]
fn keys_are_independent() {
    let mut s = Statistics::new();
    single_statistic_u64("stat", "all", "user", 0, 1, &mut s);
    single_statistic_u64("stat", "cpu0", "user", 0, 2, &mut s);
    single_statistic_u64("stat", "all", "nice", 0, 3, &mut s);
    single_statistic_u64("stat", "all", "user", SECOND, 11, &mut s);
    assert_eq!(s.len(), 3);
    assert_eq!(s.get("stat", "cpu0", "user").unwrap().last_value, 2);
    assert!(!s.get("stat", "cpu0", "user").unwrap().updated_value);
    assert_eq!(s.get("stat", "all", "nice").unwrap().last_value, 3);
    assert_eq!(s.get("stat", "all", "user").unwrap().delta_value, 10);
    assert!(s.get("stat", "cpu1", "user").is_none());
}

#[test]
fn lookup_of_missing_key_names_it() {
    let s = Statistics::new();
    match lookup_statistic(&s, "stat", "all", "user") {
        Err(ProcessorError::UnableToFindKeyInHashMap { hashmap, key1, key2, key3 }) => {
            assert_eq!(hashmap, "statistics");
            assert_eq!(key1, "stat");
            assert_eq!(key2, "all");
            assert_eq!(key3, "user");
        }
        Ok(_) => panic!("the key is not there"),
    }
}

#[test]
fn lookup_of_present_key_gives_record() {
    let mut s = Statistics::new();
    single_statistic_u64("meminfo", "", "memtotal", 7, 4096, &mut s);
    let r = lookup_statistic(&s, "meminfo", "", "memtotal").unwrap();
    assert_eq!(r.last_value, 4096);
    assert_eq!(r.last_timestamp, 7);
}

#[test]
fn lookup_of_several_keys_stops_at_first_missing() {
    let mut s = Statistics::new();
    single_statistic_u64("meminfo", "", "memtotal", 0, 10, &mut s);
    single_statistic_u64("meminfo", "", "memfree", 0, 4, &mut s);
    let names = vec!["memtotal".to_string(), "memfree".to_string()];
    let v = lookup_statistics(&s, "meminfo", "", &names).unwrap();
    assert_eq!(v.iter().map(|r| r.last_value).collect::<Vec<_>>(), vec![10, 4]);
    let names = vec!["memtotal".to_string(), "buffers".to_string(), "cached".to_string()];
    match lookup_statistics(&s, "meminfo", "", &names) {
        Err(ProcessorError::UnableToFindKeyInHashMap { key3, .. }) => assert_eq!(key3, "buffers"),
        Ok(_) => panic!("buffers is missing"),
    }
}

#[test]
fn samples_are_recorded_in_order() {
    let mut s = Statistics::new();
    let samples = vec![("a".to_string(), 1u64), ("b".to_string(), 2), ("a".to_string(), 5)];
    add_samples_to_statistics("c", "d", 0, &samples, &mut s);
    assert_eq!(s.len(), 2);
    let a = s.get("c", "d", "a").unwrap();
    assert_eq!(a.last_value, 5);
    assert_eq!(a.delta_value, 4);
    assert!(a.updated_value);
    assert_eq!(s.get("c", "d", "b").unwrap().last_value, 2);
}
