//! The asynchronous dispatcher: accepts records, gates them against a
//! severity filter, and queues a lightweight copy of each accepted one on a
//! shared lock-free queue for background workers to drain. Entries are
//! consumed at most once each; there is no ordering guarantee across
//! producers beyond first-in first-out of the queue itself.

use vstd::prelude::*;

use crate::level::{level_enabled_under, Level, LevelFilter};
use crate::metadata::LogInfo;
use crate::record::LogRecord;

verus! {

/// The fields of a record that persistence needs: severity, source, message.
#[derive(Clone, Debug, PartialEq)]
pub struct LogData {
    /// The message payload.
    pub args: String,
    /// Severity of the event.
    pub level: Level,
    /// Tag naming where the event comes from.
    pub source: String,
}

/// The queue entry carries exactly the given severity, source and message.
pub open spec fn entry_matches(d: LogData, level: Level, source: Seq<char>, args: Seq<char>) -> bool {
    &&& d.level == level
    &&& d.source@ == source
    &&& d.args@ == args
}

/// Declares the outside queue type to the verifier; its values are opaque
/// here and are reasoned about only through `queue_entries`.
#[verifier::external_type_specification]
#[verifier::external_body]
#[verifier::reject_recursive_types(T)]
pub struct ExSegQueue<T>(crossbeam_queue::SegQueue<T>);

/// The entries a queue holds, oldest first.
pub uninterp spec fn queue_entries(q: crossbeam_queue::SegQueue<LogData>) -> Seq<LogData>;

/// Relies on crossbeam_queue::SegQueue::new: a fresh queue holds nothing.
#[verifier::external_body]
fn new_entry_queue() -> (q: crossbeam_queue::SegQueue<LogData>)
    ensures
        queue_entries(q) == Seq::<LogData>::empty(),
{
    crossbeam_queue::SegQueue::new()
}

/// Relies on crossbeam_queue::SegQueue::push: the value joins the tail of
/// the queue.
#[verifier::external_body]
fn push_entry(q: &mut crossbeam_queue::SegQueue<LogData>, d: LogData)
    ensures
        queue_entries(*final(q)) == queue_entries(*old(q)).push(d),
{
    q.push(d);
}

/// Relies on crossbeam_queue::SegQueue::pop: the head of the queue leaves
/// first; an empty queue yields nothing and stays empty.
#[verifier::external_body]
fn pop_entry(q: &mut crossbeam_queue::SegQueue<LogData>) -> (r: Option<LogData>)
    ensures
        queue_entries(*old(q)).len() == 0 ==> r is None && queue_entries(*final(q))
            == queue_entries(*old(q)),
        queue_entries(*old(q)).len() > 0 ==> r == Some(queue_entries(*old(q))[0])
            && queue_entries(*final(q)) == queue_entries(*old(q)).drop_first(),
{
    q.pop()
}

/// The producer/consumer engine: one shared unbounded queue of accepted
/// entries. Producers push through `log`; workers drain through `take_next`.
pub struct AsyncLogger {
    /// Accepted entries awaiting a worker, oldest first.
    pub queue: crossbeam_queue::SegQueue<LogData>,
}

impl AsyncLogger {
    /// The entries queued and not yet taken by any worker, oldest first.
    pub open spec fn entries(&self) -> Seq<LogData> {
        queue_entries(self.queue)
    }

    /// A dispatcher with an empty queue.
    pub fn new() -> (r: AsyncLogger)
        ensures
            r.entries() == Seq::<LogData>::empty(),
    {
        AsyncLogger { queue: new_entry_queue() }
    }

    /// Whether an event with this metadata passes the filter: exactly the
    /// rank comparison of the severity model.
    pub fn enabled(&self, metadata: &LogInfo, filter: LevelFilter) -> (r: bool)
        ensures
            r == level_enabled_under(metadata.level, filter),
    {
        let level_rank: usize = match metadata.level {
            Level::Prod => 1,
            Level::Debug => 2,
            Level::Trace => 3,
        };
        let filter_rank: usize = match filter {
            LevelFilter::Off => 0,
            LevelFilter::Prod => 1,
            LevelFilter::Debug => 2,
            LevelFilter::Trace => 3,
        };
        level_rank <= filter_rank
    }

    /// Gates one record against the filter. An enabled record's severity,
    /// source and message join the tail of the queue as one new entry; a
    /// disabled record leaves no trace at all.
    pub fn log(&mut self, record: &LogRecord, filter: LevelFilter)
        ensures
            level_enabled_under(record.metadata.level, filter) ==> {
                &&& final(self).entries().len() == old(self).entries().len() + 1
                &&& final(self).entries().drop_last() == old(self).entries()
                &&& entry_matches(
                    final(self).entries().last(),
                    record.metadata.level,
                    record.metadata.source@,
                    record.args@,
                )
            },
            !level_enabled_under(record.metadata.level, filter) ==> *final(self) == *old(self),
    {
        if self.enabled(&record.metadata, filter) {
            let data = LogData {
                args: record.args.clone(),
                level: record.metadata.level,
                source: record.metadata.source.to_owned(),
            };
            push_entry(&mut self.queue, data);
            proof {
                assert(final(self).entries().drop_last() =~= old(self).entries());
            }
        }
    }

    /// One worker takes the oldest entry, to render and persist it; exactly
    /// one worker ever receives any given entry.
    pub fn take_next(&mut self) -> (r: Option<LogData>)
        ensures
            old(self).entries().len() == 0 ==> r is None
                && final(self).entries() == old(self).entries(),
            old(self).entries().len() > 0 ==> r == Some(old(self).entries()[0])
                && final(self).entries() == old(self).entries().drop_first(),
    {
        pop_entry(&mut self.queue)
    }

    /// Empties the queue and hands every entry back, oldest first, so the
    /// caller can persist them all: once they are, every record queued
    /// before the call has been processed.
    pub fn flush(&mut self) -> (drained: Vec<LogData>)
        ensures
            drained@ == old(self).entries(),
            final(self).entries() == Seq::<LogData>::empty(),
    {
        let mut drained: Vec<LogData> = Vec::new();
        let mut done = false;
        while !done
            invariant
                drained@ + self.entries() == old(self).entries(),
                done ==> self.entries().len() == 0,
            decreases self.entries().len() + (if done {
                0int
            } else {
                1int
            }),
        {
            match pop_entry(&mut self.queue) {
                Some(d) => {
                    drained.push(d);
                    proof {
                        assert(drained@ + self.entries() =~= old(self).entries());
                    }
                },
                None => {
                    done = true;
                },
            }
        }
        proof {
            assert(drained@ =~= old(self).entries());
        }
        drained
    }
}

} // verus!
