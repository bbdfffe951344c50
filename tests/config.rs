use cargo_cacher::config::{log_level_of, number_or, parse_unsigned, Config, ConfigArgs, LogLevel};

fn no_args() -> ConfigArgs {
    ConfigArgs {
        debug: 0,
        git: None,
        index: None,
        upstream: None,
        port: None,
        extern_url: None,
        refresh: None,
        prefetch: None,
        threads: None,
        all: false,
    }
}

#[test]
fn defaults_under_home() {
    let c = Config::init(&no_args(), &Some("/home/u".to_string())).unwrap();
    assert_eq!(c.index_path, "/home/u/.crates");
    assert_eq!(c.crate_path, "/home/u/.crates/crates");
    assert_eq!(c.git_index_path, "/home/u/.crates/index");
    assert_eq!(c.upstream, "https://static.crates.io/crates/");
    assert_eq!(c.index, "https://github.com/rust-lang/crates.io-index.git");
    assert_eq!(c.port, 8080);
    assert_eq!(c.extern_url, "http://localhost:8080");
    assert_eq!(c.refresh_rate, 600);
    assert_eq!(c.threads, 16);
    assert_eq!(c.log_level, LogLevel::Warn);
    assert!(!c.all);
    assert_eq!(c.prefetch_path, None);
}

#[test]
fn given_options_win() {
    let mut a = no_args();
    a.debug = 2;
    a.git = Some("file:///up/index".to_string());
    a.index = Some("/data".to_string());
    a.upstream = Some("http://up/".to_string());
    a.port = Some("9090".to_string());
    a.refresh = Some("30".to_string());
    a.prefetch = Some("Cargo.lock".to_string());
    a.threads = Some("4".to_string());
    a.all = true;
    let c = Config::init(&a, &None).unwrap();
    assert_eq!(c.index_path, "/data");
    assert_eq!(c.crate_path, "/data/crates");
    assert_eq!(c.git_index_path, "/data/index");
    assert_eq!(c.index, "file:///up/index");
    assert_eq!(c.upstream, "http://up/");
    assert_eq!(c.port, 9090);
    assert_eq!(c.extern_url, "http://localhost:9090");
    assert_eq!(c.refresh_rate, 30);
    assert_eq!(c.threads, 4);
    assert_eq!(c.log_level, LogLevel::Debug);
    assert!(c.all);
    assert_eq!(c.prefetch_path, Some("Cargo.lock".to_string()));
    a.extern_url = Some("https://mirror.example".to_string());
    assert_eq!(Config::init(&a, &None).unwrap().extern_url, "https://mirror.example");
}

#[test]
fn unreadable_numbers_take_defaults() {
    let mut a = no_args();
    a.port = Some("70000".to_string());
    a.refresh = Some("soon".to_string());
    a.threads = Some("-1".to_string());
    let c = Config::init(&a, &Some("/h".to_string())).unwrap();
    assert_eq!(c.port, 8080);
    assert_eq!(c.extern_url, "http://localhost:8080");
    assert_eq!(c.refresh_rate, 600);
    assert_eq!(c.threads, 16);
    a.port = Some("0".to_string());
    assert_eq!(Config::init(&a, &Some("/h".to_string())).unwrap().extern_url, "http://localhost:0");
}

#[test]
fn no_root_without_home() {
    assert!(Config::init(&no_args(), &None).is_none());
}

#[test]
fn log_levels() {
    assert_eq!(log_level_of(0), LogLevel::Warn);
    assert_eq!(log_level_of(1), LogLevel::Info);
    assert_eq!(log_level_of(2), LogLevel::Debug);
    assert_eq!(log_level_of(3), LogLevel::Trace);
    assert_eq!(log_level_of(40), LogLevel::Trace);
}

#[test]
fn unsigned_numbers() {
    assert_eq!(parse_unsigned("8080", 65535), Some(8080));
    assert_eq!(parse_unsigned("+81", 65535), Some(81));
    assert_eq!(parse_unsigned("65535", 65535), Some(65535));
    assert_eq!(parse_unsigned("65536", 65535), None);
    assert_eq!(parse_unsigned("", 65535), None);
    assert_eq!(parse_unsigned("+", 65535), None);
    assert_eq!(parse_unsigned("1 2", 65535), None);
    assert_eq!(parse_unsigned("18446744073709551615", u64::MAX), Some(u64::MAX));
    assert_eq!(parse_unsigned("18446744073709551616", u64::MAX), None);
    assert_eq!(parse_unsigned("007", 9), Some(7));
    assert_eq!(number_or(&None, 10, 3), 3);
    assert_eq!(number_or(&Some("11".to_string()), 10, 3), 3);
}
