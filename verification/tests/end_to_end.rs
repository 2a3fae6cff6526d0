use async_logging::dispatcher::AsyncLogger;
use async_logging::facade::{flush, log, log_enabled};
use async_logging::level::{Level, LevelFilter};
use async_logging::registry::{set_logger, set_max_level, InitState, Registry};
use async_logging::sink::{log_file_path, render_file_line};
use std::collections::HashSet;

#[test]
fn nothing_is_enabled_before_initialization() {
    let reg: Registry<AsyncLogger> = Registry::new();
    assert!(!log_enabled(&reg, Level::Prod, "anywhere"));
}

#[test]
fn log_before_initialization_is_a_no_op() {
    let mut reg: Registry<AsyncLogger> = Registry::new();
    log(
        &mut reg,
        "dropped".to_string(),
        Level::Prod,
        &("src", "module", "file.rs"),
        1,
        None,
    );
    assert!(flush(&mut reg).is_empty());
}

#[test]
fn hundred_records_from_five_producers() {
    // One dispatcher, exactly-once initialization, five producers of twenty
    // records each; after draining, exactly one hundred lines, each in the
    // fixed format with its source and message recoverable.
    let mut reg: Registry<AsyncLogger> = Registry::new();
    assert!(set_logger(&mut reg, AsyncLogger::new()).is_ok());
    assert!(set_logger(&mut reg, AsyncLogger::new()).is_err());
    assert_eq!(reg.state, InitState::Initialized);
    set_max_level(&mut reg, LevelFilter::Trace);

    for producer in 0..5u32 {
        for k in 0..20u32 {
            let source = format!("client-{}", producer);
            log(
                &mut reg,
                format!("message-{}-{}", producer, k),
                Level::Prod,
                &(source.as_str(), "app", "app.rs"),
                k,
                None,
            );
        }
    }

    let drained = flush(&mut reg);
    assert_eq!(drained.len(), 100);
    assert!(flush(&mut reg).is_empty());

    let date = "2024-06-01";
    let mut lines = Vec::new();
    let mut paths = HashSet::new();
    for (worker, entry) in drained.iter().enumerate() {
        assert_eq!(entry.level, Level::Prod);
        paths.insert(log_file_path(date, entry.level));
        lines.push(render_file_line(
            entry.level,
            &entry.source,
            &entry.args,
            "2024-06-01 12:00:00",
            (worker % 2) as u64,
        ));
    }
    // All Prod entries of one date land in the same file.
    assert_eq!(paths.len(), 1);
    assert!(paths.contains("2024-06-01_Prod.log"));

    assert_eq!(lines.len(), 100);
    let mut seen = HashSet::new();
    for line in &lines {
        let inner = line.strip_prefix('[').unwrap().strip_suffix(']').unwrap();
        let fields: Vec<&str> = inner.split("] - [").collect();
        assert_eq!(fields.len(), 5);
        assert_eq!(fields[0], "Prod");
        let source = fields[1].trim_end();
        let message = fields[2].trim_end();
        assert!(source.starts_with("client-"));
        assert!(message.starts_with("message-"));
        seen.insert(message.to_string());
    }
    // The hundred messages are distinct: none lost, none duplicated.
    assert_eq!(seen.len(), 100);
}

#[test]
fn filter_gates_the_facade() {
    let mut reg: Registry<AsyncLogger> = Registry::new();
    let _ = set_logger(&mut reg, AsyncLogger::new());
    set_max_level(&mut reg, LevelFilter::Debug);
    assert!(log_enabled(&reg, Level::Prod, "s"));
    assert!(log_enabled(&reg, Level::Debug, "s"));
    assert!(!log_enabled(&reg, Level::Trace, "s"));
    log(
        &mut reg,
        "trace is out".to_string(),
        Level::Trace,
        &("s", "m", "f.rs"),
        1,
        None,
    );
    log(
        &mut reg,
        "debug is in".to_string(),
        Level::Debug,
        &("s", "m", "f.rs"),
        2,
        None,
    );
    let drained = flush(&mut reg);
    assert_eq!(drained.len(), 1);
    assert_eq!(drained[0].args, "debug is in");
}

#[test]
fn filter_changes_take_effect_for_later_calls() {
    let mut reg: Registry<AsyncLogger> = Registry::new();
    let _ = set_logger(&mut reg, AsyncLogger::new());
    set_max_level(&mut reg, LevelFilter::Off);
    log(&mut reg, "a".to_string(), Level::Prod, &("s", "m", "f.rs"), 1, None);
    set_max_level(&mut reg, LevelFilter::Prod);
    log(&mut reg, "b".to_string(), Level::Prod, &("s", "m", "f.rs"), 2, None);
    let drained = flush(&mut reg);
    assert_eq!(drained.len(), 1);
    assert_eq!(drained[0].args, "b");
}
