use tizen::dlog::{
    level_enabled, level_filter_to_priority, level_letter, level_to_priority, log_id_t,
    log_priority, resolve, sanitise_to_cstring, DlogLogger, Level, LevelFilter, LogId,
    TagStrategy,
};

#[test]
fn maps_each_level() {
    assert_eq!(level_to_priority(Level::Error), log_priority::DLOG_ERROR);
    assert_eq!(level_to_priority(Level::Warn), log_priority::DLOG_WARN);
    assert_eq!(level_to_priority(Level::Info), log_priority::DLOG_INFO);
    assert_eq!(level_to_priority(Level::Debug), log_priority::DLOG_DEBUG);
    assert_eq!(level_to_priority(Level::Trace), log_priority::DLOG_VERBOSE);
}

#[test]
fn target_then_default_uses_target_when_flat() {
    assert_eq!(
        resolve(TagStrategy::TargetThenDefault, "Network", "App"),
        "Network"
    );
}

#[test]
fn target_then_default_falls_back_when_module_path() {
    assert_eq!(
        resolve(TagStrategy::TargetThenDefault, "myapp::network", "App"),
        "App"
    );
}

#[test]
fn target_then_default_falls_back_when_empty() {
    assert_eq!(resolve(TagStrategy::TargetThenDefault, "", "App"), "App");
}

#[test]
fn always_default_ignores_target() {
    assert_eq!(resolve(TagStrategy::AlwaysDefault, "Network", "App"), "App");
}

#[test]
fn always_target_uses_target_even_when_module_path() {
    assert_eq!(
        resolve(TagStrategy::AlwaysTarget, "myapp::network", "App"),
        "myapp::network"
    );
}

#[test]
fn target_with_single_colon_is_kept() {
    assert_eq!(resolve(TagStrategy::TargetThenDefault, "a:b", "App"), "a:b");
    assert_eq!(resolve(TagStrategy::TargetThenDefault, "a:b::", "App"), "App");
}

#[test]
fn sanitise_replaces_interior_nul() {
    let c = sanitise_to_cstring("hello\0world");
    assert_eq!(c.as_bytes(), b"hello world");
}

#[test]
fn sanitise_passes_through_clean_str() {
    let c = sanitise_to_cstring("hello world");
    assert_eq!(c.as_bytes(), b"hello world");
}

#[test]
fn sanitise_handles_empty() {
    let c = sanitise_to_cstring("");
    assert_eq!(c.as_bytes(), b"");
}

#[test]
fn sanitise_keeps_multibyte_characters() {
    let c = sanitise_to_cstring("\0h\u{e9}\0");
    assert_eq!(c, " h\u{e9} ");
}

#[test]
fn builder_defaults() {
    let logger = DlogLogger::builder().build();
    assert_eq!(logger.level(), LevelFilter::Info);
    assert_eq!(logger.log_id(), LogId::LOG_ID_MAIN);
    assert_eq!(logger.tag_strategy(), TagStrategy::TargetThenDefault);
    assert_eq!(logger.default_tag().as_bytes(), b"RUST");
}

#[test]
fn builder_customisation() {
    let logger = DlogLogger::builder()
        .default_tag("MyApp")
        .level(LevelFilter::Debug)
        .log_id(LogId::LOG_ID_APPS)
        .tag_strategy(TagStrategy::AlwaysDefault)
        .build();
    assert_eq!(logger.level(), LevelFilter::Debug);
    assert_eq!(logger.log_id(), LogId::LOG_ID_APPS);
    assert_eq!(logger.tag_strategy(), TagStrategy::AlwaysDefault);
    assert_eq!(logger.default_tag().as_bytes(), b"MyApp");
}

#[test]
fn build_sanitises_default_tag() {
    let logger = DlogLogger::builder().default_tag("My\0App").build();
    assert_eq!(logger.default_tag(), "My App");
}

#[test]
fn raw_values_match_dlog_header() {
    assert_eq!(log_priority::DLOG_UNKNOWN.as_raw(), 0);
    assert_eq!(log_priority::DLOG_VERBOSE.as_raw(), 2);
    assert_eq!(log_priority::DLOG_SILENT.as_raw(), 8);
    assert_eq!(log_id_t::LOG_ID_INVALID.as_raw(), -1);
    assert_eq!(log_id_t::LOG_ID_MAIN.as_raw(), 0);
    assert_eq!(log_id_t::LOG_ID_APPS.as_raw(), 3);
    assert_eq!(log_id_t::LOG_ID_SYSLOG.as_raw(), 5);
}

#[test]
fn filter_keeps_levels_up_to_its_own() {
    assert!(level_enabled(Level::Error, LevelFilter::Error));
    assert!(!level_enabled(Level::Warn, LevelFilter::Error));
    assert!(level_enabled(Level::Info, LevelFilter::Info));
    assert!(!level_enabled(Level::Debug, LevelFilter::Info));
    assert!(level_enabled(Level::Trace, LevelFilter::Trace));
    assert!(!level_enabled(Level::Error, LevelFilter::Off));
    assert_eq!(level_filter_to_priority(LevelFilter::Off), log_priority::DLOG_SILENT);
    assert_eq!(level_filter_to_priority(LevelFilter::Trace), log_priority::DLOG_VERBOSE);
}

#[test]
fn letters_per_level() {
    assert_eq!(level_letter(Level::Error), 'E');
    assert_eq!(level_letter(Level::Warn), 'W');
    assert_eq!(level_letter(Level::Info), 'I');
    assert_eq!(level_letter(Level::Debug), 'D');
    assert_eq!(level_letter(Level::Trace), 'V');
}

#[test]
fn route_drops_filtered_records() {
    let logger = DlogLogger::builder().default_tag("App").build();
    assert!(logger.route(Level::Debug, "Network").is_none());
    assert!(!logger.enabled(Level::Debug));
    assert!(logger.enabled(Level::Warn));
}

#[test]
fn route_picks_tag_priority_and_letter() {
    let logger = DlogLogger::builder().default_tag("App").build();
    let r = logger.route(Level::Warn, "Network").unwrap();
    assert_eq!(r.tag, "Network");
    assert_eq!(r.priority, log_priority::DLOG_WARN);
    assert_eq!(r.letter, 'W');
    let r = logger.route(Level::Error, "myapp::net").unwrap();
    assert_eq!(r.tag, "App");
    assert_eq!(r.priority, log_priority::DLOG_ERROR);
    assert_eq!(r.letter, 'E');
}

#[test]
fn sanitising_twice_is_sanitising_once() {
    let once = sanitise_to_cstring("a\0b\0\0c");
    assert_eq!(once, "a b  c");
    assert_eq!(sanitise_to_cstring(&once), once);
}
