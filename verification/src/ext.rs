//! The trusted boundary around the outside crates.
//!
//! Everything the library takes on faith stands in this module: the opaque
//! carrier for a boxed logger, the lock-free slot built on `arc_swap`, and
//! the declarations that let `log`'s record and metadata types appear in
//! verified signatures. Each item's doc comment names the outside function
//! it relies on.

use std::sync::Arc;

use arc_swap::ArcSwap;
use vstd::prelude::*;

use crate::Sink;

verus! {

/// Makes `log::Metadata` (the criteria of an enabled-check) usable in
/// verified signatures. The value is opaque: the library only passes it on.
#[verifier::external_type_specification]
#[verifier::external_body]
pub struct ExMetadata<'a>(log::Metadata<'a>);

/// Makes `log::Record` (one log message) usable in verified signatures.
/// The value is opaque: the library only passes it on.
#[verifier::external_type_specification]
#[verifier::external_body]
pub struct ExRecord<'a>(log::Record<'a>);

/// Makes `log::SetLoggerError` (the facade's refusal of a second
/// destination) usable as a wrapper's error. The value is opaque.
#[verifier::external_type_specification]
#[verifier::external_body]
pub struct ExSetLoggerError(log::SetLoggerError);

/// Relies on `log::set_logger`: installs the given logger as the facade's
/// sole destination for the rest of the process. The facade accepts one
/// destination ever; where one was installed before, it returns its error
/// and leaves the installed destination unchanged.
#[verifier::external_body]
pub(crate) fn set_logger<L: log::Log>(logger: &'static L) -> Result<(), log::SetLoggerError> {
    log::set_logger(logger)
}

/// An opaque carrier for a boxed `log::Log` trait object.
///
/// Verus cannot hold a `dyn` object of an outside trait in a verified field
/// or signature, so the box is hidden behind this struct and reached only
/// through the wrappers below.
#[verifier::external_body]
pub struct BoxedLogger {
    inner: Box<dyn log::Log>,
}

impl BoxedLogger {
    /// Boxes a concrete logger as a trait object. The body only converts:
    /// it moves the logger into a fresh `Box` and nothing else.
    #[verifier::external_body]
    pub fn new<L: log::Log + 'static>(logger: L) -> BoxedLogger {
        BoxedLogger { inner: Box::new(logger) }
    }
}

/// Relies on `log::Log::enabled` of the wrapped logger. An arbitrary logger
/// may answer anything, so nothing is promised of the result.
#[verifier::external_body]
pub(crate) fn logger_enabled(logger: &BoxedLogger, metadata: &log::Metadata) -> bool {
    logger.inner.enabled(metadata)
}

/// Relies on `log::Log::log` of the wrapped logger: hands the record over.
#[verifier::external_body]
pub(crate) fn logger_log(logger: &BoxedLogger, record: &log::Record) {
    logger.inner.log(record)
}

/// Relies on `log::Log::flush` of the wrapped logger: asks it to flush.
#[verifier::external_body]
pub(crate) fn logger_flush(logger: &BoxedLogger) {
    logger.inner.flush()
}

/// The swappable slot holding the proxy's current target.
///
/// It wraps `arc_swap::ArcSwap`, whose declaration Verus refuses (its
/// generics are bound by `arc_swap`'s own traits), so the cell is hidden
/// here and reached only through the wrappers below.
#[verifier::external_body]
pub struct Slot {
    cell: ArcSwap<Sink>,
}

/// The sink a slot currently stores.
pub uninterp spec fn slot_sink(s: Slot) -> Sink;

/// Relies on `arc_swap::ArcSwapAny::new`: the freshly built cell stores
/// exactly the value it was given.
#[verifier::external_body]
pub(crate) fn slot_new(initial: Arc<Sink>) -> (s: Slot)
    ensures
        slot_sink(s) == initial,
{
    Slot { cell: ArcSwap::new(initial) }
}

/// Relies on `arc_swap::ArcSwapAny::swap`: atomically exchanges the stored
/// value for `new` and hands back the one stored before, in full.
#[verifier::external_body]
pub(crate) fn slot_swap(s: &mut Slot, new: Arc<Sink>) -> (prev: Arc<Sink>)
    ensures
        prev == slot_sink(*old(s)),
        slot_sink(*final(s)) == new,
{
    s.cell.swap(new)
}

/// Relies on `arc_swap::ArcSwapAny::load_full`: returns a fresh shared
/// handle to the single value the slot stores at the moment of the call.
#[verifier::external_body]
pub(crate) fn slot_load(s: &Slot) -> (cur: Arc<Sink>)
    ensures
        cur == slot_sink(*s),
{
    s.cell.load_full()
}

} // verus!
