//! One logging event: severity and source, an owned message, and optional
//! call-site metadata, assembled through a staged builder.

use vstd::prelude::*;

use crate::level::Level;
use crate::metadata::LogInfo;

verus! {

/// A string that is either borrowed for the record's lifetime or static.
#[derive(Clone, Copy, PartialEq, Eq, Debug)]
pub enum StaticStr<'x> {
    /// A string living for the whole process.
    Static(&'static str),
    /// A string borrowed from the call site.
    Borrowed(&'x str),
}

/// The characters a `StaticStr` holds, whichever way it holds them.
pub open spec fn static_str_chars(s: StaticStr) -> Seq<char> {
    match s {
        StaticStr::Static(t) => t@,
        StaticStr::Borrowed(t) => t@,
    }
}

impl<'x> StaticStr<'x> {
    /// The string held, whichever way it is held.
    pub fn get(&self) -> (r: &'x str)
        ensures
            r@ == static_str_chars(*self),
    {
        match *self {
            StaticStr::Static(s) => s,
            StaticStr::Borrowed(s) => s,
        }
    }
}

/// One logging event. It owns its message; the metadata is a value copy; it
/// carries no identity beyond its contents.
#[derive(Debug)]
pub struct LogRecord<'x> {
    /// Severity and source, the filtering-relevant subset.
    pub metadata: LogInfo<'x>,
    /// The message payload.
    pub args: String,
    /// Module path of the call site, if captured.
    pub module_name: Option<StaticStr<'x>>,
    /// File of the call site, if captured.
    pub file: Option<StaticStr<'x>>,
    /// Line of the call site, if captured.
    pub line: Option<u32>,
}

/// Staged builder for `LogRecord`; defaults are an empty message, default
/// metadata and no call-site information.
#[derive(Debug)]
pub struct LogRecordBuilder<'x> {
    /// The record under construction.
    pub record: LogRecord<'x>,
}

impl<'x> LogRecordBuilder<'x> {
    /// A builder holding the defaults.
    pub fn new() -> (r: LogRecordBuilder<'x>)
        ensures
            r.record.metadata.level == Level::Prod,
            r.record.metadata.source@ == Seq::<char>::empty(),
            r.record.args@ == Seq::<char>::empty(),
            r.record.module_name is None,
            r.record.file is None,
            r.record.line is None,
    {
        proof {
            reveal_strlit("");
        }
        LogRecordBuilder {
            record: LogRecord {
                args: String::new(),
                metadata: LogInfo { level: Level::Prod, source: "" },
                module_name: None,
                file: None,
                line: None,
            },
        }
    }

    /// Sets the message.
    pub fn args(self, args: String) -> (r: LogRecordBuilder<'x>)
        ensures
            r.record == (LogRecord { args, ..self.record }),
    {
        LogRecordBuilder { record: LogRecord { args, ..self.record } }
    }

    /// Sets the metadata wholesale.
    pub fn metadata(self, metadata: LogInfo<'x>) -> (r: LogRecordBuilder<'x>)
        ensures
            r.record == (LogRecord { metadata, ..self.record }),
    {
        LogRecordBuilder { record: LogRecord { metadata, ..self.record } }
    }

    /// Sets the severity.
    pub fn level(self, level: Level) -> (r: LogRecordBuilder<'x>)
        ensures
            r.record.metadata.level == level,
            r.record.metadata.source == self.record.metadata.source,
            r.record.args == self.record.args,
            r.record.module_name == self.record.module_name,
            r.record.file == self.record.file,
            r.record.line == self.record.line,
    {
        let metadata = LogInfo { level, source: self.record.metadata.source };
        LogRecordBuilder { record: LogRecord { metadata, ..self.record } }
    }

    /// Sets the source tag.
    pub fn source(self, source: &'x str) -> (r: LogRecordBuilder<'x>)
        ensures
            r.record.metadata.level == self.record.metadata.level,
            r.record.metadata.source == source,
            r.record.args == self.record.args,
            r.record.module_name == self.record.module_name,
            r.record.file == self.record.file,
            r.record.line == self.record.line,
    {
        let metadata = LogInfo { level: self.record.metadata.level, source };
        LogRecordBuilder { record: LogRecord { metadata, ..self.record } }
    }

    /// Sets the module path from a borrowed string.
    pub fn module_name(self, path: Option<&'x str>) -> (r: LogRecordBuilder<'x>)
        ensures
            r.record == (LogRecord {
                module_name: (match path {
                    Some(p) => Some(StaticStr::Borrowed(p)),
                    None => None,
                }),
                ..self.record
            }),
    {
        let module_name = match path {
            Some(p) => Some(StaticStr::Borrowed(p)),
            None => None,
        };
        LogRecordBuilder { record: LogRecord { module_name, ..self.record } }
    }

    /// Sets the module path from a static string.
    pub fn module_name_static(self, path: Option<&'static str>) -> (r: LogRecordBuilder<'x>)
        ensures
            r.record == (LogRecord {
                module_name: (match path {
                    Some(p) => Some(StaticStr::Static(p)),
                    None => None,
                }),
                ..self.record
            }),
    {
        let module_name = match path {
            Some(p) => Some(StaticStr::Static(p)),
            None => None,
        };
        LogRecordBuilder { record: LogRecord { module_name, ..self.record } }
    }

    /// Sets the file from a borrowed string.
    pub fn file(self, file: Option<&'x str>) -> (r: LogRecordBuilder<'x>)
        ensures
            r.record == (LogRecord {
                file: (match file {
                    Some(p) => Some(StaticStr::Borrowed(p)),
                    None => None,
                }),
                ..self.record
            }),
    {
        let file = match file {
            Some(p) => Some(StaticStr::Borrowed(p)),
            None => None,
        };
        LogRecordBuilder { record: LogRecord { file, ..self.record } }
    }

    /// Sets the file from a static string.
    pub fn file_static(self, file: Option<&'static str>) -> (r: LogRecordBuilder<'x>)
        ensures
            r.record == (LogRecord {
                file: (match file {
                    Some(p) => Some(StaticStr::Static(p)),
                    None => None,
                }),
                ..self.record
            }),
    {
        let file = match file {
            Some(p) => Some(StaticStr::Static(p)),
            None => None,
        };
        LogRecordBuilder { record: LogRecord { file, ..self.record } }
    }

    /// Sets the call-site line.
    pub fn line(self, line: Option<u32>) -> (r: LogRecordBuilder<'x>)
        ensures
            r.record == (LogRecord { line, ..self.record }),
    {
        LogRecordBuilder { record: LogRecord { line, ..self.record } }
    }

    /// Finishes the builder.
    pub fn build(self) -> (r: LogRecord<'x>)
        ensures
            r == self.record,
    {
        self.record
    }
}

/// The default builder holds the default record.
impl<'x> Default for LogRecordBuilder<'x> {
    fn default() -> (r: Self)
        ensures
            r.record.metadata.level == Level::Prod,
            r.record.metadata.source@ == Seq::<char>::empty(),
            r.record.args@ == Seq::<char>::empty(),
            r.record.module_name is None,
            r.record.file is None,
            r.record.line is None,
    {
        LogRecordBuilder::new()
    }
}

} // verus!
