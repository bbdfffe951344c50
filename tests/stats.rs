use cargo_cacher::stats::{count_or_zero, sum_or_zero, Database, Statistics, StoreError};

fn count(conn: &rusqlite::Connection, table: &str) -> i64 {
    conn.query_row(&format!("SELECT count(*) FROM {}", table), [], |row| row.get(0)).unwrap()
}

#[test]
fn snapshot_misses_are_downloads_minus_hits() {
    let s = Statistics::from_counts(10, 4, 2048);
    assert_eq!((s.downloads, s.hits, s.misses, s.bandwidth_saved), (10, 4, 6, 2048));
    let t = Statistics::from_counts(i32::MIN, i32::MAX, 0);
    assert_eq!(t.misses, i32::MIN as i64 - i32::MAX as i64);
}

#[test]
fn snapshot_as_json() {
    let s = Statistics::from_counts(10, 4, 2048);
    assert_eq!(s.as_json(), "{\"bandwidth_saved\":2048,\"downloads\":10,\"hits\":4,\"misses\":6}");
    let z = Statistics { downloads: 0, hits: 0, misses: -3, bandwidth_saved: i64::MIN };
    assert_eq!(
        z.as_json(),
        "{\"bandwidth_saved\":-9223372036854775808,\"downloads\":0,\"hits\":0,\"misses\":-3}"
    );
}

#[test]
fn same_version_twice_gives_one_package_one_version_two_events() {
    let uri = "file:same_version_twice?mode=memory&cache=shared";
    let mut db = Database::new(Some(uri.to_string())).unwrap();
    let probe = rusqlite::Connection::open(uri).unwrap();
    assert_eq!(db.add_request("demo-pkg", "1.0.0", false, 100), Ok(()));
    assert_eq!(db.add_request("demo-pkg", "1.0.0", true, 100), Ok(()));
    assert_eq!(count(&probe, "crates"), 1);
    assert_eq!(count(&probe, "crate_versions"), 1);
    assert_eq!(count(&probe, "downloads"), 2);
    let distinct: i64 = probe
        .query_row("SELECT count(DISTINCT version_id) FROM downloads", [], |row| row.get(0))
        .unwrap();
    assert_eq!(distinct, 1);
}

#[test]
fn other_versions_and_packages_get_their_own_rows() {
    let uri = "file:other_versions?mode=memory&cache=shared";
    let mut db = Database::new(Some(uri.to_string())).unwrap();
    let probe = rusqlite::Connection::open(uri).unwrap();
    db.add_request("a", "1.0.0", false, 1).unwrap();
    db.add_request("a", "2.0.0", false, 1).unwrap();
    db.add_request("b", "1.0.0", true, 1).unwrap();
    assert_eq!(count(&probe, "crates"), 2);
    assert_eq!(count(&probe, "crate_versions"), 3);
    assert_eq!(count(&probe, "downloads"), 3);
}

#[test]
fn stats_over_recorded_events() {
    let uri = "file:stats_over_events?mode=memory&cache=shared";
    let mut db = Database::new(Some(uri.to_string())).unwrap();
    db.add_request("a", "1.0.0", false, 500).unwrap();
    db.add_request("a", "1.0.0", true, 500).unwrap();
    db.add_request("b", "0.1.0", true, 20).unwrap();
    let s = db.stats();
    assert_eq!(s.downloads, 3);
    assert_eq!(s.hits, 2);
    assert_eq!(s.misses, 1);
    assert_eq!(s.bandwidth_saved, 520);
    assert_eq!(db.downloads("24 hours"), 3);
    assert_eq!(db.hits("24 hours"), 2);
    assert_eq!(db.bandwidth_saved("24 hours"), 520);
}

#[test]
fn empty_store_reports_zeros() {
    let db = Database::new(Some("file:empty_store?mode=memory&cache=shared".to_string())).unwrap();
    let s = db.stats();
    assert_eq!((s.downloads, s.hits, s.misses, s.bandwidth_saved), (0, 0, 0, 0));
}

#[test]
fn default_store_opens() {
    assert!(Database::new(None).is_ok());
}

#[test]
fn unopenable_store_is_an_error() {
    let r = Database::new(Some("/nonexistent-dir/sub/stats.sqlite".to_string()));
    assert_eq!(r.err(), Some(StoreError::Persistence));
}

#[test]
fn query_results_or_zero() {
    assert_eq!(count_or_zero(&Ok(42)), 42);
    assert_eq!(count_or_zero(&Ok(i64::from(i32::MAX) + 1)), 0);
    assert_eq!(count_or_zero(&Ok(-5)), -5);
    assert_eq!(count_or_zero(&Err(rusqlite::Error::QueryReturnedNoRows)), 0);
    assert_eq!(sum_or_zero(&Ok(1 << 40)), 1 << 40);
    assert_eq!(sum_or_zero(&Err(rusqlite::Error::QueryReturnedNoRows)), 0);
}
