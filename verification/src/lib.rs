//! Rerouting of logging messages at runtime.
//!
//! The `log` facade accepts only a single destination for the whole lifetime
//! of a program. [`Reroute`] works around that: it is installed once as the
//! destination and forwards every call to whichever sink is current, and the
//! current sink can be swapped any number of times through a single atomic
//! replace (no lock is taken on any path). Until a first swap, and again
//! after [`Reroute::clear`], every message is discarded.

use std::sync::Arc;

use log::{Log, Metadata, Record};
use vstd::prelude::*;

mod ext;

pub use ext::BoxedLogger;

verus! {

/// A logger that doesn't log.
///
/// Reports itself as never enabled and discards every record; the proxy's
/// default target behaves exactly like it.
pub struct Dummy;

impl Dummy {
    /// Never enabled, whatever the criteria.
    pub fn enabled(&self, _metadata: &Metadata) -> (r: bool)
        ensures
            r == false,
    {
        false
    }

    /// Discards the record.
    pub fn log(&self, _record: &Record) {
    }

    /// Nothing is buffered, so nothing is flushed.
    pub fn flush(&self) {
    }
}

/// Returned by [`init`] when the `log` facade already has a destination.
///
/// The condition is recoverable: the destination installed earlier stays in
/// place, untouched.
#[derive(Debug, PartialEq, Eq, Structural)]
pub struct AlreadyInitializedError;

/// A forwarding target of the proxy: either the discard-everything default
/// or a boxed logger supplied by the caller.
pub enum Sink {
    /// Discards everything; behaves like [`Dummy`].
    Null,
    /// Forwards to the wrapped logger.
    Logger(BoxedLogger),
}

impl Sink {
    /// Forwards the enabled-check; the null sink is never enabled.
    pub fn enabled(&self, metadata: &Metadata) -> (r: bool)
        ensures
            self is Null ==> r == false,
    {
        match self {
            Sink::Null => false,
            Sink::Logger(logger) => ext::logger_enabled(logger, metadata),
        }
    }

    /// Forwards the record; the null sink discards it.
    pub fn log(&self, record: &Record) {
        match self {
            Sink::Null => (),
            Sink::Logger(logger) => ext::logger_log(logger, record),
        }
    }

    /// Forwards the flush; the null sink has nothing to flush.
    pub fn flush(&self) {
        match self {
            Sink::Null => (),
            Sink::Logger(logger) => ext::logger_flush(logger),
        }
    }
}

/// A logging proxy.
///
/// Forwards `enabled`, `log` and `flush` to the currently configured target
/// sink. Replacing the target is one atomic swap of a shared handle, so a
/// forwarding call racing with a replacement observes either the old or the
/// new sink in full, never a torn mixture, and neither side ever blocks the
/// other beyond that single atomic step.
pub struct Reroute {
    slot: ext::Slot,
    flushed_log: Ghost<Seq<Sink>>,
}

impl Reroute {
    /// The sink all forwarding currently goes to.
    pub closed spec fn target(&self) -> Sink {
        ext::slot_sink(self.slot)
    }

    /// The sinks this proxy has replaced so far, oldest first. Each entry
    /// was flushed exactly once, at the moment it was replaced.
    pub closed spec fn flushed(&self) -> Seq<Sink> {
        self.flushed_log@
    }

    /// Creates a new [`Reroute`] logger.
    ///
    /// No destination is set yet, therefore all log messages are thrown
    /// away, exactly as [`Dummy`] would.
    pub fn new() -> (r: Self)
        ensures
            r.target() is Null,
            r.flushed() == Seq::<Sink>::empty(),
    {
        Self::default()
    }

    /// Sets a new slave sink, handing over an already shared handle.
    ///
    /// This variant accepts the inner representation and can be combined
    /// with a previous [`get`][Reroute::get]. The old target is flushed,
    /// exactly once, before this call returns.
    pub fn reroute_arc(&mut self, log: Arc<Sink>)
        ensures
            final(self).target() == log,
            final(self).flushed() == old(self).flushed().push(old(self).target()),
    {
        let ghost outgoing = self.target();
        let prev = ext::slot_swap(&mut self.slot, log);
        self.flushed_log = Ghost(self.flushed_log@.push(outgoing));
        prev.flush();
    }

    /// Sets a new slave logger that is already boxed.
    ///
    /// The old target is flushed before this call returns. In general,
    /// loggers should flush themselves on drop, but that may take time;
    /// this way the cost of flushing is (mostly) paid here.
    pub fn reroute_boxed(&mut self, log: BoxedLogger)
        ensures
            final(self).target() == Sink::Logger(log),
            final(self).flushed() == old(self).flushed().push(old(self).target()),
    {
        self.reroute_arc(Arc::new(Sink::Logger(log)));
    }

    /// Sets a new slave logger.
    ///
    /// See [`reroute_boxed`][Reroute::reroute_boxed] for the flushing of
    /// the replaced target.
    pub fn reroute<L: Log + 'static>(&mut self, log: L)
        ensures
            final(self).target() is Logger,
            final(self).flushed() == old(self).flushed().push(old(self).target()),
    {
        self.reroute_boxed(BoxedLogger::new(log));
    }

    /// Stubs out the logger.
    ///
    /// Sets the target back to the discard-everything default, flushing the
    /// replaced one; all further log calls are thrown away until the next
    /// reroute.
    pub fn clear(&mut self)
        ensures
            final(self).target() is Null,
            final(self).flushed() == old(self).flushed().push(old(self).target()),
    {
        self.reroute_arc(Arc::new(Sink::Null));
    }

    /// Gives access to the current target sink.
    ///
    /// The returned handle is a snapshot, not a live view: it stays usable
    /// even after a later reroute replaces the proxy's target, and the sink
    /// it names may already have been replaced by the time the caller uses
    /// it.
    pub fn get(&self) -> (r: Arc<Sink>)
        ensures
            r == self.target(),
    {
        ext::slot_load(&self.slot)
    }

    /// Forwards the enabled-check to the current target, which is loaded
    /// once, atomically. While no sink is configured the answer is `false`.
    pub fn enabled(&self, metadata: &Metadata) -> (r: bool)
        ensures
            self.target() is Null ==> r == false,
    {
        let cur = ext::slot_load(&self.slot);
        cur.enabled(metadata)
    }

    /// Forwards the record to the current target, which is loaded once,
    /// atomically. While no sink is configured the record is thrown away.
    pub fn log(&self, record: &Record) {
        let cur = ext::slot_load(&self.slot);
        cur.log(record);
    }

    /// Forwards a flush to the current target, which is loaded once,
    /// atomically. While no sink is configured this does nothing.
    pub fn flush(&self) {
        let cur = ext::slot_load(&self.slot);
        cur.flush();
    }
}

impl Default for Reroute {
    /// Creates a reroute with the discard-everything default target.
    fn default() -> (r: Self)
        ensures
            r.target() is Null,
            r.flushed() == Seq::<Sink>::empty(),
    {
        Reroute { slot: ext::slot_new(Arc::new(Sink::Null)), flushed_log: Ghost(Seq::empty()) }
    }
}

/// Clearing is idempotent: there is only one cleared target state, so a
/// proxy cleared twice in a row observes the same target as one cleared
/// once, and its enabled-check answers `false` either way.
pub proof fn lemma_clear_idempotent(once: Reroute, twice: Reroute)
    requires
        once.target() is Null,
        twice.target() is Null,
    ensures
        once.target() == twice.target(),
{
}

impl From<Dummy> for Sink {
    /// A [`Dummy`] converts to the discard-everything target.
    fn from(_dummy: Dummy) -> (r: Sink) {
        Sink::Null
    }
}

impl vstd::std_specs::convert::FromSpecImpl<Dummy> for Sink {
    open spec fn obeys_from_spec() -> bool {
        true
    }

    open spec fn from_spec(_dummy: Dummy) -> Sink {
        Sink::Null
    }
}

/// Installs the given logger into the `log` facade as its sole destination.
///
/// The facade accepts one destination for the lifetime of the process, so
/// at most one call can succeed; every later one returns
/// [`AlreadyInitializedError`] and leaves the installed destination as it
/// was. Whether this call is the accepted one is decided by the facade's
/// process-wide state, which no contract here can see.
pub fn init<L: Log>(logger: &'static L) -> Result<(), AlreadyInitializedError> {
    match ext::set_logger(logger) {
        Ok(()) => Ok(()),
        Err(_) => Err(AlreadyInitializedError),
    }
}

/// Changes the slave of the given [`Reroute`] instance.
///
/// If you have a boxed logger, use [`reroute_boxed`](fn.reroute_boxed.html).
pub fn reroute<L: Log + 'static>(proxy: &mut Reroute, log: L)
    ensures
        final(proxy).target() is Logger,
        final(proxy).flushed() == old(proxy).flushed().push(old(proxy).target()),
{
    proxy.reroute(log);
}

/// Changes the slave of the given [`Reroute`] instance to an already boxed
/// logger.
pub fn reroute_boxed(proxy: &mut Reroute, log: BoxedLogger)
    ensures
        final(proxy).target() == Sink::Logger(log),
        final(proxy).flushed() == old(proxy).flushed().push(old(proxy).target()),
{
    proxy.reroute_boxed(log);
}

} // verus!
