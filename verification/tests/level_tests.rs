use async_logging::errors::ParseLevelError;
use async_logging::level::{Level, LevelFilter, LogLevel};

#[test]
fn level_as_str_canonical() {
    assert_eq!(Level::Prod.as_str(), "Prod");
    assert_eq!(Level::Debug.as_str(), "Debug");
    assert_eq!(Level::Trace.as_str(), "Trace");
}

#[test]
fn filter_as_str_canonical() {
    assert_eq!(LevelFilter::Off.as_str(), "None");
    assert_eq!(LevelFilter::Prod.as_str(), "Prod");
    assert_eq!(LevelFilter::Debug.as_str(), "Debug");
    assert_eq!(LevelFilter::Trace.as_str(), "Trace");
}

#[test]
fn level_round_trip_all_variants() {
    for level in Level::iter() {
        assert_eq!(Level::from_str(level.as_str()), Ok(level));
    }
}

#[test]
fn filter_round_trip_all_variants() {
    for filter in LevelFilter::iter() {
        assert_eq!(LevelFilter::from_str(filter.as_str()), Ok(filter));
    }
}

#[test]
fn parse_is_case_insensitive() {
    assert_eq!(Level::from_str("trace"), Level::from_str("TRACE"));
    assert_eq!(Level::from_str("TRACE"), Level::from_str("Trace"));
    assert_eq!(Level::from_str("trace"), Ok(Level::Trace));
    assert_eq!(Level::from_str("pROd"), Ok(Level::Prod));
    assert_eq!(Level::from_str("dEbUg"), Ok(Level::Debug));
    assert_eq!(LevelFilter::from_str("nOnE"), Ok(LevelFilter::Off));
    assert_eq!(LevelFilter::from_str("TRACE"), Ok(LevelFilter::Trace));
}

#[test]
fn parse_rejects_zero_rank_name_for_level() {
    assert_eq!(Level::from_str("None"), Err(ParseLevelError(())));
    assert_eq!(Level::from_str("none"), Err(ParseLevelError(())));
}

#[test]
fn parse_rejects_unknown_names() {
    assert_eq!(Level::from_str("warn"), Err(ParseLevelError(())));
    assert_eq!(Level::from_str(""), Err(ParseLevelError(())));
    assert_eq!(Level::from_str("Prod "), Err(ParseLevelError(())));
    assert_eq!(LevelFilter::from_str("everything"), Err(ParseLevelError(())));
}

#[test]
fn parse_error_message() {
    let e = ParseLevelError::new();
    assert_eq!(
        e.message(),
        "ERROR::PARSING STRING ERROR::DOESN'T MATCH ANY LOG LEVEL"
    );
}

#[test]
fn level_from_usize_table() {
    assert_eq!(Level::from_usize(0), None);
    assert_eq!(Level::from_usize(1), Some(Level::Prod));
    assert_eq!(Level::from_usize(2), Some(Level::Debug));
    assert_eq!(Level::from_usize(3), Some(Level::Trace));
    assert_eq!(Level::from_usize(4), None);
}

#[test]
fn filter_from_usize_table() {
    assert_eq!(LevelFilter::from_usize(0), Some(LevelFilter::Off));
    assert_eq!(LevelFilter::from_usize(1), Some(LevelFilter::Prod));
    assert_eq!(LevelFilter::from_usize(2), Some(LevelFilter::Debug));
    assert_eq!(LevelFilter::from_usize(3), Some(LevelFilter::Trace));
    assert_eq!(LevelFilter::from_usize(4), None);
}

#[test]
fn level_max_is_trace() {
    assert_eq!(Level::max(), Level::Trace);
    assert_eq!(LevelFilter::max(), LevelFilter::Trace);
}

#[test]
fn level_iter_ascending() {
    assert_eq!(Level::iter(), vec![Level::Prod, Level::Debug, Level::Trace]);
    assert_eq!(
        LevelFilter::iter(),
        vec![
            LevelFilter::Off,
            LevelFilter::Prod,
            LevelFilter::Debug,
            LevelFilter::Trace
        ]
    );
}

#[test]
fn to_level_filter_same_rank() {
    assert_eq!(Level::Prod.to_level_filter(), LevelFilter::Prod);
    assert_eq!(Level::Debug.to_level_filter(), LevelFilter::Debug);
    assert_eq!(Level::Trace.to_level_filter(), LevelFilter::Trace);
}

#[test]
fn filter_to_level_same_rank() {
    assert_eq!(LevelFilter::Off.to_level(), None);
    assert_eq!(LevelFilter::Prod.to_level(), Some(Level::Prod));
    assert_eq!(LevelFilter::Debug.to_level(), Some(Level::Debug));
    assert_eq!(LevelFilter::Trace.to_level(), Some(Level::Trace));
}

#[test]
fn boundary_severity_degrades_none_to_prod() {
    assert_eq!(LogLevel::NoneLevel.to_level(), Level::Prod);
    assert_eq!(LogLevel::Prod.to_level(), Level::Prod);
    assert_eq!(LogLevel::Debug.to_level(), Level::Debug);
    assert_eq!(LogLevel::Trace.to_level(), Level::Trace);
}
