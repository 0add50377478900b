use weather_station::gate::RefreshGate;
use weather_station::service::WeatherService;
use weather_station::snapshot::{Snapshot, SourceResult};

const THREE_MIN_MS: i64 = 180_000;

#[test]
fn gate_opens_exactly_at_the_interval() {
    let mut g = RefreshGate::new();
    // The last-refresh cell starts at the epoch, so a first request claims at once.
    let t0: i64 = 1_600_000_000_000;
    assert!(g.should_refresh(t0));
    assert!(g.check_and_claim(t0));
    // Immediately after a claim no refresh falls due until the full interval
    // has elapsed, and opens exactly then.
    assert!(!g.should_refresh(t0));
    assert!(!g.should_refresh(t0 + THREE_MIN_MS - 1));
    assert!(g.should_refresh(t0 + THREE_MIN_MS));
    assert!(!g.check_and_claim(t0 + THREE_MIN_MS - 1));
    assert!(g.check_and_claim(t0 + THREE_MIN_MS));
}

#[test]
fn read_on_empty_history_is_a_soft_miss() {
    let svc = WeatherService::new();
    let r = svc.read_page(None);
    assert_eq!(r.current, 0);
    assert_eq!(r.length, 0);
    assert!(r.data.is_none());
}

#[test]
fn read_defaults_to_latest() {
    let mut svc = WeatherService::new();
    let t1: i64 = 1_600_000_000_000;
    assert!(svc.check_and_claim(t1));
    svc.refresh_with(t1, Some("a".to_string()), None, None, None);
    let t2 = t1 + 2 * 3_600_000;
    assert!(svc.check_and_claim(t2));
    svc.refresh_with(t2, Some("b".to_string()), None, None, None);
    let r = svc.read_page(None);
    assert_eq!(r.length, 2);
    assert_eq!(r.current, 1);
    assert_eq!(r.data.unwrap().timestamp, t2);
}

#[test]
fn out_of_range_index_reports_but_never_errs() {
    let mut svc = WeatherService::new();
    let t1: i64 = 1_600_000_000_000;
    assert!(svc.check_and_claim(t1));
    svc.refresh_with(t1, None, None, None, None);
    let r = svc.read_page(Some(7));
    assert_eq!(r.current, 7);
    assert_eq!(r.length, 1);
    assert!(r.data.is_none());
    let ok = svc.read_page(Some(0));
    assert!(ok.data.is_some());
}

#[test]
fn all_adapters_failed_still_yields_complete_snapshot() {
    let s = Snapshot::assemble(42, 7, None, None, None, None);
    assert_eq!(s.timestamp, 42);
    assert_eq!(s.hour, 7);
    assert!(matches!(s.aws, SourceResult::Absent));
    assert!(matches!(s.forecast, SourceResult::Absent));
    assert!(matches!(s.forest_fire, SourceResult::Absent));
    assert!(matches!(s.particulates, SourceResult::Absent));
}

#[test]
fn adapter_payloads_are_kept_by_role() {
    let s = Snapshot::assemble(
        42,
        7,
        Some("aws".to_string()),
        None,
        Some("fire".to_string()),
        Some("pm".to_string()),
    );
    assert!(matches!(s.aws, SourceResult::Present(p) if p == "aws"));
    assert!(matches!(s.forecast, SourceResult::Absent));
    assert!(matches!(s.forest_fire, SourceResult::Present(p) if p == "fire"));
    assert!(matches!(s.particulates, SourceResult::Present(p) if p == "pm"));
}

#[test]
fn service_replaces_within_the_same_hour() {
    // Two refreshes within one local hour: the second supersedes the first.
    // Claims go through the refresh gate, three minutes apart.
    let mut svc = WeatherService::new();
    let t1: i64 = 1_600_000_000_000;
    let t2 = t1 + THREE_MIN_MS;
    assert!(svc.check_and_claim(t1));
    svc.refresh_with(t1, None, None, None, None);
    assert!(svc.check_and_claim(t2));
    svc.refresh_with(t2, None, None, None, None);
    let r = svc.read_page(None);
    assert_eq!(r.length, 1);
    assert_eq!(r.data.unwrap().timestamp, t2);
}

#[test]
fn largest_index_is_still_a_soft_miss() {
    let svc = WeatherService::new();
    let r = svc.read_page(Some(usize::MAX));
    assert_eq!(r.current, usize::MAX);
    assert_eq!(r.length, 0);
    assert!(r.data.is_none());
}

#[test]
fn gate_near_the_end_of_time_stays_shut() {
    let mut g = RefreshGate::new();
    assert!(g.check_and_claim(i64::MAX - 1));
    assert!(!g.should_refresh(i64::MAX));
    assert!(!g.check_and_claim(i64::MAX));
}
