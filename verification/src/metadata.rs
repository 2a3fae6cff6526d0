//! The filtering-relevant subset of a log event: severity and source tag,
//! built through a staged builder with defaults.

use vstd::prelude::*;

use crate::level::Level;

verus! {

/// Whether an event would be processed, independent of its payload.
#[derive(Clone, Copy, PartialEq, Eq, Debug)]
pub struct LogInfo<'x> {
    /// Severity of the event.
    pub level: Level,
    /// Tag naming where the event comes from.
    pub source: &'x str,
}

impl<'x> LogInfo<'x> {
    /// Starts a builder with the default severity and an empty source.
    pub fn builder() -> (r: LogInfoBuilder<'x>)
        ensures
            r.metadata.level == Level::Prod,
            r.metadata.source@ == Seq::<char>::empty(),
    {
        LogInfoBuilder::new()
    }

    /// Severity of the event.
    pub fn level(&self) -> (r: Level)
        ensures
            r == self.level,
    {
        self.level
    }

    /// Source tag of the event.
    pub fn source(&self) -> (r: &'x str)
        ensures
            r == self.source,
    {
        self.source
    }
}

/// Staged builder for `LogInfo`; defaults are severity `Prod` and an empty
/// source.
#[derive(PartialEq, Eq, Debug)]
pub struct LogInfoBuilder<'x> {
    /// The value under construction.
    pub metadata: LogInfo<'x>,
}

impl<'x> LogInfoBuilder<'x> {
    /// A builder holding the defaults.
    pub fn new() -> (r: LogInfoBuilder<'x>)
        ensures
            r.metadata.level == Level::Prod,
            r.metadata.source@ == Seq::<char>::empty(),
    {
        proof {
            reveal_strlit("");
        }
        LogInfoBuilder { metadata: LogInfo { level: Level::Prod, source: "" } }
    }

    /// Sets the severity.
    pub fn level(self, arg: Level) -> (r: LogInfoBuilder<'x>)
        ensures
            r.metadata.level == arg,
            r.metadata.source == self.metadata.source,
    {
        LogInfoBuilder { metadata: LogInfo { level: arg, source: self.metadata.source } }
    }

    /// Sets the source tag.
    pub fn source(self, source: &'x str) -> (r: LogInfoBuilder<'x>)
        ensures
            r.metadata.level == self.metadata.level,
            r.metadata.source == source,
    {
        LogInfoBuilder { metadata: LogInfo { level: self.metadata.level, source } }
    }

    /// Finishes the builder.
    pub fn build(self) -> (r: LogInfo<'x>)
        ensures
            r == self.metadata,
    {
        self.metadata
    }
}

/// The default builder holds the default metadata.
impl<'x> Default for LogInfoBuilder<'x> {
    fn default() -> (r: Self)
        ensures
            r.metadata.level == Level::Prod,
            r.metadata.source@ == Seq::<char>::empty(),
    {
        LogInfoBuilder::new()
    }
}

} // verus!
