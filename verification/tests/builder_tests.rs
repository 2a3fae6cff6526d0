use async_logging::facade::NopLogger;
use async_logging::level::{Level, LevelFilter};
use async_logging::metadata::{LogInfo, LogInfoBuilder};
use async_logging::record::{LogRecordBuilder, StaticStr};
use async_logging::utilities::{get_max_level_inner, is_ok, STATIC_MAX_LEVEL};

#[test]
fn metadata_builder_defaults() {
    let info = LogInfo::builder().build();
    assert_eq!(info.level(), Level::Prod);
    assert_eq!(info.source(), "");
}

#[test]
fn metadata_builder_stages() {
    let info = LogInfo::builder().level(Level::Trace).source("Main").build();
    assert_eq!(info.level(), Level::Trace);
    assert_eq!(info.source(), "Main");
    let defaulted = LogInfoBuilder::default().build();
    assert_eq!(defaulted, LogInfo::builder().build());
}

#[test]
fn record_builder_defaults() {
    let record = LogRecordBuilder::new().build();
    assert_eq!(record.metadata.level, Level::Prod);
    assert_eq!(record.metadata.source, "");
    assert_eq!(record.args, "");
    assert!(record.module_name.is_none());
    assert!(record.file.is_none());
    assert!(record.line.is_none());
}

#[test]
fn record_builder_stages() {
    let info = LogInfo::builder().level(Level::Debug).source("svc").build();
    let record = LogRecordBuilder::new()
        .args("hello".to_string())
        .metadata(info)
        .module_name_static(Some("app::svc"))
        .file_static(Some("svc.rs"))
        .line(Some(17))
        .build();
    assert_eq!(record.metadata.level, Level::Debug);
    assert_eq!(record.metadata.source, "svc");
    assert_eq!(record.args, "hello");
    assert_eq!(record.module_name.unwrap().get(), "app::svc");
    assert_eq!(record.file.unwrap().get(), "svc.rs");
    assert_eq!(record.line, Some(17));
}

#[test]
fn record_builder_level_and_source_override_metadata() {
    let record = LogRecordBuilder::new()
        .level(Level::Trace)
        .source("direct")
        .build();
    assert_eq!(record.metadata.level, Level::Trace);
    assert_eq!(record.metadata.source, "direct");
}

#[test]
fn static_str_both_ways() {
    let borrowed_text = String::from("borrowed");
    let s1: StaticStr = StaticStr::Static("fixed");
    let s2: StaticStr = StaticStr::Borrowed(&borrowed_text);
    assert_eq!(s1.get(), "fixed");
    assert_eq!(s2.get(), "borrowed");
}

#[test]
fn nop_logger_enables_nothing() {
    let nop = NopLogger;
    let info = LogInfo::builder().level(Level::Trace).source("x").build();
    assert!(!nop.enabled(&info));
    nop.log(&LogRecordBuilder::new().build());
    nop.flush();
}

#[test]
fn is_ok_maps_absence_to_the_error() {
    assert_eq!(is_ok::<u32, &str>(Some(3), "gone"), Ok(3));
    assert_eq!(is_ok::<u32, &str>(None, "gone"), Err("gone"));
}

#[test]
fn static_ceiling_is_trace() {
    assert_eq!(STATIC_MAX_LEVEL, LevelFilter::Trace);
    assert_eq!(get_max_level_inner(), LevelFilter::Trace);
}
