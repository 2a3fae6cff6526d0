//! The process-wide logging entry points: every call resolves the active
//! dispatcher through the registry, gates the event against the current
//! filter, and hands accepted events to the dispatcher's queue. While the
//! registry is uninitialized the entry points behave as the no-op logger:
//! nothing is enabled and nothing is queued.

use vstd::prelude::*;

use crate::dispatcher::{entry_matches, AsyncLogger, LogData};
use crate::level::{level_enabled_under, Level};
use crate::metadata::LogInfo;
use crate::record::LogRecordBuilder;
use crate::registry::{registry_well_formed, InitState, Registry};

verus! {

/// The entries queued behind a registry's dispatcher; none while no
/// dispatcher is installed.
pub open spec fn registry_entries(r: Registry<AsyncLogger>) -> Seq<LogData> {
    match r.slot {
        Some(d) => d.entries(),
        None => Seq::<LogData>::empty(),
    }
}

/// The logger in force before any dispatcher is installed: it enables
/// nothing, queues nothing, and has nothing to process.
pub struct NopLogger;

impl NopLogger {
    /// No event is ever enabled.
    pub fn enabled(&self, metadata: &LogInfo) -> (r: bool)
        ensures
            !r,
    {
        let _ = metadata;
        false
    }

    /// Discards the record with no observable effect.
    pub fn log(&self, record: &crate::record::LogRecord) {
        let _ = record;
    }

    /// There is never anything to process.
    pub fn flush(&self) {
    }
}

/// Whether an event at `level` from `source` would be processed right now:
/// only once a dispatcher is installed, and only under the current filter.
pub fn log_enabled(reg: &Registry<AsyncLogger>, level: Level, source: &str) -> (r: bool)
    requires
        registry_well_formed(*reg),
    ensures
        r == (reg.state is Initialized && level_enabled_under(level, reg.filter)),
{
    let metadata = LogInfo::builder().level(level).source(source).build();
    match reg.current() {
        Some(d) => d.enabled(&metadata, crate::registry::max_level(reg)),
        None => false,
    }
}

/// The process-wide logging entry point: assembles the record from the
/// message, severity, source and call-site metadata, and queues it on the
/// active dispatcher if the current filter enables it. With no dispatcher
/// installed, or a filter that rejects the severity, nothing observable
/// happens. Structured key-value payloads are unsupported in this build and
/// are excluded up front; callers that hold one must fail loudly themselves
/// before reaching this point.
pub fn log(
    reg: &mut Registry<AsyncLogger>,
    args: String,
    level: Level,
    source_info: &(&str, &'static str, &'static str),
    line: u32,
    kvs: Option<&[(&str, &str)]>,
)
    requires
        registry_well_formed(*old(reg)),
        kvs is None,
    ensures
        registry_well_formed(*final(reg)),
        final(reg).state == old(reg).state,
        final(reg).filter == old(reg).filter,
        (old(reg).state is Initialized && level_enabled_under(level, old(reg).filter)) ==> {
            &&& registry_entries(*final(reg)).len() == registry_entries(*old(reg)).len() + 1
            &&& registry_entries(*final(reg)).drop_last() == registry_entries(*old(reg))
            &&& entry_matches(
                registry_entries(*final(reg)).last(),
                level,
                source_info.0@,
                args@,
            )
        },
        !(old(reg).state is Initialized && level_enabled_under(level, old(reg).filter))
            ==> *final(reg) == *old(reg),
{
    let filter = crate::registry::max_level(reg);
    match active_dispatcher_mut(reg) {
        Some(d) => {
            let record = LogRecordBuilder::new()
                .args(args)
                .level(level)
                .source(source_info.0)
                .module_name_static(Some(source_info.1))
                .file_static(Some(source_info.2))
                .line(Some(line))
                .build();
            d.log(&record, filter);
        },
        None => {},
    }
}

/// The active dispatcher, mutably: none while the registry is
/// uninitialized.
fn active_dispatcher_mut(reg: &mut Registry<AsyncLogger>) -> (r: Option<&mut AsyncLogger>)
    requires
        registry_well_formed(*old(reg)),
    ensures
        registry_well_formed(*final(reg)),
        final(reg).state == old(reg).state,
        final(reg).filter == old(reg).filter,
        old(reg).state is Initialized <==> r is Some,
        r matches Some(d) ==> old(reg).slot == Some(*d) && final(reg).slot == Some(*final(d)),
        r is None ==> *final(reg) == *old(reg),
{
    match reg.state {
        InitState::Initialized => reg.slot.as_mut(),
        _ => None,
    }
}

/// Empties the active dispatcher's queue and hands every entry back, oldest
/// first: once the caller has persisted them, every record queued before
/// the call has been processed. With no dispatcher installed there is
/// nothing to process.
pub fn flush(reg: &mut Registry<AsyncLogger>) -> (drained: Vec<LogData>)
    requires
        registry_well_formed(*old(reg)),
    ensures
        registry_well_formed(*final(reg)),
        final(reg).state == old(reg).state,
        final(reg).filter == old(reg).filter,
        drained@ == registry_entries(*old(reg)),
        registry_entries(*final(reg)) == Seq::<LogData>::empty(),
{
    match active_dispatcher_mut(reg) {
        Some(d) => d.flush(),
        None => Vec::new(),
    }
}

} // verus!
