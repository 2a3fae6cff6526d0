//! The process-wide registration state machine: a three-valued initialization
//! guard, an install-once logger slot, and the maximum-severity filter
//! register. The registry is an explicit object; code that shares one
//! instance across threads serializes access to it and thereby realizes the
//! atomic transitions modeled here.

use vstd::prelude::*;

use crate::errors::SetLoggerError;
use crate::level::{Level, LevelFilter};

verus! {

/// The initialization guard's three values.
#[derive(Clone, Copy, PartialEq, Eq, Debug, Structural)]
pub enum InitState {
    Uninitialized,
    Initializing,
    Initialized,
}

/// The registry: initialization guard, logger slot, filter register.
///
/// The slot is written at most once along the guarded path; the filter may be
/// rewritten at any time.
pub struct Registry<L> {
    /// Where in the install-once protocol this registry stands.
    pub state: InitState,
    /// The active logger, installed by the winning registration.
    pub slot: Option<L>,
    /// The maximum severity currently allowed through.
    pub filter: LevelFilter,
}

/// The slot is full exactly when initialization has completed.
pub open spec fn registry_well_formed<L>(r: Registry<L>) -> bool {
    &&& (r.state is Initialized <==> r.slot is Some)
}

/// What one registration attempt leaves behind: the first attempt installs
/// its logger and completes initialization; every later attempt changes
/// nothing.
pub open spec fn after_register<L>(r: Registry<L>, logger: L) -> Registry<L> {
    if r.state is Uninitialized {
        Registry { state: InitState::Initialized, slot: Some(logger), filter: r.filter }
    } else {
        r
    }
}

impl<L> Registry<L> {
    /// A fresh registry: uninitialized, empty slot, logging off.
    pub fn new() -> (r: Registry<L>)
        ensures
            r.state == InitState::Uninitialized,
            r.slot is None,
            r.filter == LevelFilter::Off,
            registry_well_formed(r),
    {
        Registry { state: InitState::Uninitialized, slot: None, filter: LevelFilter::Off }
    }

    /// The active logger: none while uninitialized, the installed one after.
    pub fn current(&self) -> (r: Option<&L>)
        requires
            registry_well_formed(*self),
        ensures
            r is Some <==> self.state is Initialized,
            r matches Some(l) ==> self.slot == Some(*l),
    {
        match self.state {
            InitState::Initialized => self.slot.as_ref(),
            _ => None,
        }
    }

}

/// Install-once registration. The first call installs `logger` and moves
/// the guard to `Initialized`; any call that finds the guard already taken —
/// whether mid-initialization or completed — reports `SetLoggerError` and
/// leaves the registry as it was.
pub fn set_logger<L>(reg: &mut Registry<L>, logger: L) -> (r: Result<(), SetLoggerError>)
    requires
        registry_well_formed(*old(reg)),
    ensures
        *final(reg) == after_register(*old(reg), logger),
        r is Ok <==> old(reg).state is Uninitialized,
        registry_well_formed(*final(reg)),
{
    match reg.state {
        InitState::Uninitialized => {
            reg.slot = Some(logger);
            reg.state = InitState::Initialized;
            Ok(())
        },
        _ => Err(SetLoggerError::new()),
    }
}

/// Registration without the guard's compare-and-exchange protection. The
/// caller is responsible for making sure no other registration runs
/// concurrently; calling it while another registration is mid-flight is
/// outside this contract, so the mid-initialization state is excluded.
pub fn set_logger_racy<L>(reg: &mut Registry<L>, logger: L) -> (r: Result<(), SetLoggerError>)
    requires
        registry_well_formed(*old(reg)),
        old(reg).state != InitState::Initializing,
    ensures
        *final(reg) == after_register(*old(reg), logger),
        r is Ok <==> old(reg).state is Uninitialized,
        registry_well_formed(*final(reg)),
{
    match reg.state {
        InitState::Uninitialized => {
            reg.slot = Some(logger);
            reg.state = InitState::Initialized;
            Ok(())
        },
        _ => Err(SetLoggerError::new()),
    }
}

/// Install-once registration of a boxed logger, unboxed into the slot.
pub fn set_boxed_logger<L>(reg: &mut Registry<L>, logger: Box<L>) -> (r: Result<
    (),
    SetLoggerError,
>)
    requires
        registry_well_formed(*old(reg)),
    ensures
        *final(reg) == after_register(*old(reg), *logger),
        r is Ok <==> old(reg).state is Uninitialized,
        registry_well_formed(*final(reg)),
{
    set_logger(reg, *logger)
}

/// Reads the filter register.
pub fn max_level<L>(reg: &Registry<L>) -> (r: LevelFilter)
    ensures
        r == reg.filter,
{
    reg.filter
}

/// Writes the filter register; effective for later gate checks only.
pub fn set_max_level<L>(reg: &mut Registry<L>, level: LevelFilter)
    ensures
        final(reg).filter == level,
        final(reg).state == old(reg).state,
        final(reg).slot == old(reg).slot,
{
    reg.filter = level;
}

/// The filter-register store without atomic protection; against a registry
/// accessed from one thread it acts exactly as `set_max_level`.
pub fn set_max_level_racy<L>(reg: &mut Registry<L>, level: LevelFilter)
    ensures
        final(reg).filter == level,
        final(reg).state == old(reg).state,
        final(reg).slot == old(reg).slot,
{
    reg.filter = level;
}

/// Sets the filter register from a level: that level becomes the highest
/// severity allowed through.
pub fn set_max_log_level<L>(reg: &mut Registry<L>, level: Level)
    ensures
        crate::level::filter_rank(final(reg).filter) == crate::level::level_rank(level),
        final(reg).state == old(reg).state,
        final(reg).slot == old(reg).slot,
{
    let f = level.to_level_filter();
    reg.filter = f;
}

/// Folds a sequence of registration attempts over a registry.
pub open spec fn apply_registrations<L>(r: Registry<L>, ls: Seq<L>) -> Registry<L>
    decreases ls.len(),
{
    if ls.len() == 0 {
        r
    } else {
        apply_registrations(after_register(r, ls[0]), ls.drop_first())
    }
}

/// How many of a sequence of registration attempts succeed.
pub open spec fn count_successes<L>(r: Registry<L>, ls: Seq<L>) -> nat
    decreases ls.len(),
{
    if ls.len() == 0 {
        0
    } else {
        (if r.state is Uninitialized {
            1nat
        } else {
            0nat
        }) + count_successes(after_register(r, ls[0]), ls.drop_first())
    }
}

/// Once initialization is over, further attempts change nothing and none
/// succeeds.
proof fn lemma_registrations_after_init<L>(r: Registry<L>, ls: Seq<L>)
    requires
        !(r.state is Uninitialized),
    ensures
        apply_registrations(r, ls) == r,
        count_successes(r, ls) == 0,
    decreases ls.len(),
{
    if ls.len() > 0 {
        assert(after_register(r, ls[0]) == r);
        lemma_registrations_after_init(r, ls.drop_first());
    }
}

/// Exactly-once registration: of any sequence of attempts against a fresh
/// registry, precisely the first succeeds, and the registry ends initialized
/// with the winner's logger in the slot and the filter untouched.
pub proof fn lemma_register_exactly_once<L>(r: Registry<L>, ls: Seq<L>)
    requires
        r.state is Uninitialized,
        ls.len() > 0,
    ensures
        count_successes(r, ls) == 1,
        apply_registrations(r, ls).state is Initialized,
        apply_registrations(r, ls).slot == Some(ls[0]),
        apply_registrations(r, ls).filter == r.filter,
{
    let r1 = after_register(r, ls[0]);
    lemma_registrations_after_init(r1, ls.drop_first());
}

} // verus!
