use vstd::prelude::*;

verus! {

/// Runtime-level failures.
///
/// Insertion of a duplicate tag under the panic policy is reported as the
/// distinguished fatal `DuplicateTagFatal` value instead of aborting, so the
/// embedding host decides the failure response. A poisoned registry lock
/// surfaces as `MutexPoisonError`; the remaining variants describe failures
/// of the host-side GPU and event-loop acquisition.
#[derive(Debug)]
pub enum Error {
    EntityExistsAlready,
    NoAdapters,
    RequestDeviceError,
    NoMatch,
    SurfaceError(String),
    EventLoopError(String),
    MutexPoisonError(String),
    DuplicateTagFatal(String),
}

/// Failures of the keyed entity registry.
#[derive(Debug)]
pub enum EntityError {
    /// An entity with this identifier already exists.
    DuplicateIdentity(u128),
    /// No entity with this identifier exists.
    NotFound(u128),
    /// A renderer entity is already registered in the singleton slot.
    SlotOccupied,
}

} // verus!
