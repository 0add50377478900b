use weather_station::history::History;
use weather_station::snapshot::Snapshot;

fn snap(timestamp: i64, hour: u8) -> Snapshot {
    Snapshot::assemble(timestamp, hour, None, None, None, None)
}

const HOUR_MS: i64 = 3_600_000;
const MIN_MS: i64 = 60_000;
const THREE_DAYS_MS: i64 = 259_200_000;

#[test]
fn same_hour_replaces_last_entry() {
    // History = [{ts=10:00}]; appending at 10:45 the same day keeps length 1
    // and the newer sample wins the bucket.
    let t1000: i64 = 10 * HOUR_MS;
    let t1045: i64 = 10 * HOUR_MS + 45 * MIN_MS;
    let mut h = History::new();
    h.append(snap(t1000, 10), t1000);
    assert_eq!(h.len(), 1);
    h.append(snap(t1045, 10), t1045);
    assert_eq!(h.len(), 1);
    let kept = h.get_cloned(0).unwrap();
    assert_eq!(kept.timestamp, t1045);
}

#[test]
fn new_hour_appends() {
    let t1045: i64 = 10 * HOUR_MS + 45 * MIN_MS;
    let t1102: i64 = 11 * HOUR_MS + 2 * MIN_MS;
    let mut h = History::new();
    h.append(snap(t1045, 10), t1045);
    h.append(snap(t1102, 11), t1102);
    assert_eq!(h.len(), 2);
    assert_eq!(h.get_cloned(0).unwrap().timestamp, t1045);
    assert_eq!(h.get_cloned(1).unwrap().timestamp, t1102);
}

#[test]
fn append_past_retention_prunes_oldest() {
    let t1045: i64 = 10 * HOUR_MS + 45 * MIN_MS;
    let t1102: i64 = 11 * HOUR_MS + 2 * MIN_MS;
    let mut h = History::new();
    h.append(snap(t1045, 10), t1045);
    h.append(snap(t1102, 11), t1102);
    assert_eq!(h.len(), 2);
    // One minute past the oldest entry's retention horizon: the oldest entry
    // falls out, the younger one and the new one stay.
    let t_late: i64 = t1045 + THREE_DAYS_MS + MIN_MS;
    h.append(snap(t_late, 10), t_late);
    assert_eq!(h.len(), 2);
    assert_eq!(h.get_cloned(0).unwrap().timestamp, t1102);
    assert_eq!(h.get_cloned(1).unwrap().timestamp, t_late);
}

#[test]
fn every_retained_entry_is_recent() {
    let base: i64 = 1_000_000_000_000;
    let mut h = History::new();
    let mut hour: u8 = 0;
    let mut ts = base;
    for _ in 0..10 {
        h.append(snap(ts, hour), ts);
        hour = (hour + 1) % 24;
        ts += 11 * HOUR_MS;
    }
    let now = ts - 11 * HOUR_MS;
    for i in 0..h.len() {
        let e = h.get_cloned(i).unwrap();
        assert!(e.timestamp > now - THREE_DAYS_MS);
    }
}

#[test]
fn twenty_four_hours_apart_still_collides() {
    // The bucket compares hour-of-day only, not the full date: a sample
    // exactly one day after a same-hour latest entry replaces it.
    let t_day1: i64 = 14 * HOUR_MS;
    let t_day2: i64 = t_day1 + 24 * HOUR_MS;
    let mut h = History::new();
    h.append(snap(t_day1, 14), t_day1);
    h.append(snap(t_day2, 14), t_day2);
    assert_eq!(h.len(), 1);
    assert_eq!(h.get_cloned(0).unwrap().timestamp, t_day2);
}
