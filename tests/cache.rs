use cargo_cacher::cache::{
    archive_dir, archive_path, archive_url, reply_status, stats_event, ArchiveCache, CacheAction,
    FetchError, PackageRef, Served,
};

fn cache() -> ArchiveCache {
    ArchiveCache {
        root: "/srv/cache".to_string(),
        upstream: "https://static.crates.io/crates/".to_string(),
    }
}

fn demo() -> PackageRef {
    PackageRef { name: "demo-pkg".to_string(), version: "1.0.0".to_string() }
}

#[test]
fn archive_locations() {
    assert_eq!(archive_dir("/srv/cache", "demo-pkg"), "/srv/cache/crates/demo-pkg");
    assert_eq!(archive_path("/srv/cache", "demo-pkg", "1.0.0"), "/srv/cache/crates/demo-pkg/1.0.0");
    assert_eq!(
        archive_url("https://static.crates.io/crates/", "demo-pkg", "1.0.0"),
        "https://static.crates.io/crates/demo-pkg/demo-pkg-1.0.0.crate"
    );
}

#[test]
fn scenario_first_request_downloads() {
    let c = cache();
    let p = demo();
    match c.lookup(&p, None) {
        CacheAction::Download(job) => {
            assert_eq!(job.dir, "/srv/cache/crates/demo-pkg");
            assert_eq!(job.path, "/srv/cache/crates/demo-pkg/1.0.0");
            assert_eq!(job.url, "https://static.crates.io/crates/demo-pkg/demo-pkg-1.0.0.crate");
        }
        CacheAction::Serve(_) => panic!("an absent archive is not served"),
    }
    let done = c.finish_download(&p, true, Some(5120));
    assert_eq!(reply_status(&done), 200);
    let served = done.unwrap();
    assert_eq!(served.path, "/srv/cache/crates/demo-pkg/1.0.0");
    assert!(!served.hit);
    assert_eq!(served.size, 5120);
    let event = stats_event(&p, &served);
    assert_eq!(event.name, "demo-pkg");
    assert_eq!(event.version, "1.0.0");
    assert!(!event.hit);
    assert_eq!(event.size, 5120);
}

#[test]
fn scenario_repeat_request_is_a_hit() {
    let c = cache();
    let p = demo();
    match c.lookup(&p, Some(5120)) {
        CacheAction::Serve(served) => {
            assert_eq!(served.path, "/srv/cache/crates/demo-pkg/1.0.0");
            assert!(served.hit);
            assert_eq!(served.size, 5120);
            assert_eq!(reply_status(&Ok(Served { path: served.path.clone(), hit: true, size: 5120 })), 200);
            let event = stats_event(&p, &served);
            assert!(event.hit);
            assert_eq!(event.size, 5120);
        }
        CacheAction::Download(_) => panic!("a cached archive is not downloaded again"),
    }
}

#[test]
fn second_request_after_fetch_hits_with_same_size() {
    let c = cache();
    let p = demo();
    let first = c.finish_download(&p, true, Some(77)).unwrap();
    match c.lookup(&p, Some(77)) {
        CacheAction::Serve(second) => {
            assert!(second.hit);
            assert_eq!(second.size, first.size);
            assert_eq!(second.path, first.path);
        }
        CacheAction::Download(_) => panic!("no second download"),
    }
}

#[test]
fn unreadable_length_counts_as_zero() {
    let served = cache().finish_download(&demo(), true, None).unwrap();
    assert_eq!(served.size, 0);
}

#[test]
fn failed_download_is_unavailable() {
    let done = cache().finish_download(&demo(), false, Some(10));
    assert_eq!(done.as_ref().err(), Some(&FetchError::Transport));
    assert_eq!(reply_status(&done), 503);
    assert_eq!(FetchError::Transport.message(), "Couldn't fetch from upstream");
}

#[test]
fn prefetch_skips_cached_archives() {
    let c = cache();
    assert!(c.prefetch_job(&demo(), true).is_none());
    let job = c.prefetch_job(&demo(), false).unwrap();
    assert_eq!(job.path, "/srv/cache/crates/demo-pkg/1.0.0");
}

#[test]
fn huge_sizes_saturate_in_events() {
    let served = Served { path: "/x".to_string(), hit: true, size: u64::MAX };
    assert_eq!(stats_event(&demo(), &served).size, i64::MAX);
}
