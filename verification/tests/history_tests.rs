use procstat::archive::{
    archive_window_start, archiver_step, duration_trunc, split_filenames, RoundingError,
};
use procstat::history::History;

const MINUTE: i64 = 60_000_000_000;

#[test]
fn history_keeps_newest_records() {
    let mut h: History<u32> = History::new(3);
    for i in 0..5u32 {
        h.push(i as i64, i * 10);
        assert!(h.len() <= 3);
    }
    assert_eq!(h.len(), 3);
    assert_eq!((0..3).map(|i| *h.get(i)).collect::<Vec<_>>(), vec![20, 30, 40]);
    assert_eq!(h.timestamp_at(0), 2);
    assert_eq!(h.capacity(), 3);
}

#[test]
fn history_of_one() {
    let mut h: History<&str> = History::new(1);
    h.push(1, "a");
    h.push(2, "b");
    assert_eq!(h.len(), 1);
    assert_eq!(*h.get(0), "b");
}

#[test]
fn window_is_open_below_closed_above() {
    let mut h: History<u32> = History::new(10);
    for t in 0..8i64 {
        h.push(t * MINUTE, t as u32);
    }
    let w: Vec<u32> = h.window(2 * MINUTE, 5 * MINUTE).into_iter().copied().collect();
    assert_eq!(w, vec![3, 4, 5]);
    assert!(h.window(7 * MINUTE, 100 * MINUTE).is_empty());
}

#[test]
fn truncation_rounds_down_in_local_time() {
    // 12:22:33 truncated to 10 minutes is 12:20:00
    let t = (12 * 60 + 22) * MINUTE + 33_000_000_000;
    assert_eq!(duration_trunc(t as i128, 0, 10 * MINUTE as i128), Ok((12 * 60 + 20) * MINUTE));
    // with the local clock one hour and five minutes ahead of UTC
    let offset = 65 * MINUTE;
    assert_eq!(duration_trunc(t as i128, offset, 10 * MINUTE as i128), Ok((12 * 60 + 15) * MINUTE));
    // before the epoch it still rounds down
    assert_eq!(duration_trunc(-1, 0, 10), Ok(-10));
    assert_eq!(duration_trunc(-10, 0, 10), Ok(-10));
}

#[test]
fn truncation_errors() {
    assert_eq!(duration_trunc(5, 0, 0), Err(RoundingError::DurationExceedsLimit));
    assert_eq!(duration_trunc(5, 0, -3), Err(RoundingError::DurationExceedsLimit));
    assert_eq!(duration_trunc(i64::MAX as i128, 1, 10), Err(RoundingError::TimestampExceedsLimit));
    assert_eq!(duration_trunc(i64::MIN as i128, 0, 10), Err(RoundingError::TimestampExceedsLimit));
}

#[test]
fn archive_windows() {
    let high = (12 * 60 + 30) * MINUTE;
    assert_eq!(archive_window_start(high, 0, 10, true), Ok((12 * 60 + 20) * MINUTE));
    let high_off = (12 * 60 + 27) * MINUTE;
    assert_eq!(archive_window_start(high_off, 0, 10, true), Ok((12 * 60 + 10) * MINUTE));
    assert_eq!(archive_window_start(high_off, 0, 10, false), Ok((12 * 60 + 20) * MINUTE));
    assert_eq!(archive_window_start(high, 0, 0, true), Err(RoundingError::DurationExceedsLimit));
    assert_eq!(archive_window_start(high, 0, 1_000_000_000, false), Err(RoundingError::DurationExceedsLimit));
}

#[test]
fn archiver_ticks() {
    assert_eq!(archiver_step(100, 90, 10), (true, 100));
    assert_eq!(archiver_step(90, 90, 10), (false, 90));
    assert_eq!(archiver_step(10, 90, 10), (false, 90));
}

#[test]
fn filename_lists() {
    assert_eq!(split_filenames("a.json,b.json"), vec!["a.json", "b.json"]);
    assert_eq!(split_filenames(""), vec![""]);
    assert_eq!(split_filenames("a,,b,"), vec!["a", "", "b", ""]);
    for s in ["x", "x,y,z", ",", "procstat_2024-01-01T10-00.json"] {
        assert_eq!(split_filenames(s), s.split(',').collect::<Vec<_>>());
    }
}
