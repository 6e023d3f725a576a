//! The process-wide parameter store shared between the interaction thread
//! and the worker.

use vstd::prelude::*;

use crate::preview::Params;

verus! {

#[verifier::external_type_specification]
#[verifier::external_body]
#[verifier::reject_recursive_types(T)]
pub struct ExRwLock<T: ?Sized>(std::sync::RwLock<T>);

/// The reader/writer-shared parameter record. The interaction thread writes
/// single fields; the worker reads snapshot copies. The lock is held only
/// for the duration of a copy or a field assignment, never across a
/// quantize or an encode, so a reader is never stalled by long work.
///
/// Every value ever stored is a valid `Params`: the constructor and each
/// setter require their ranges, so a snapshot is valid whichever write it
/// observed.
pub struct ParamStore {
    lock: std::sync::RwLock<Params>,
}

impl ParamStore {
    /// Relies on std::sync::RwLock::new.
    #[verifier::external_body]
    pub fn new(initial: Params) -> (r: ParamStore)
        requires
            initial.valid(),
    {
        ParamStore { lock: std::sync::RwLock::new(initial) }
    }

    /// A snapshot copy of the parameters.
    ///
    /// Relies on std::sync::RwLock::read; a poisoned lock still hands out
    /// its value. Which write the snapshot observes is up to the scheduler,
    /// but every write stores a valid record, so the snapshot is valid.
    #[verifier::external_body]
    pub fn read(&self) -> (r: Params)
        ensures
            r.valid(),
    {
        match self.lock.read() {
            Ok(guard) => *guard,
            Err(poisoned) => *poisoned.into_inner(),
        }
    }

    /// Atomically sets the effort field.
    ///
    /// Relies on std::sync::RwLock::write; a poisoned lock is still
    /// written.
    #[verifier::external_body]
    pub fn set_effort(&self, effort: u8)
        requires
            1 <= effort <= 10,
    {
        let mut guard = match self.lock.write() {
            Ok(guard) => guard,
            Err(poisoned) => poisoned.into_inner(),
        };
        guard.effort = effort;
    }

    /// Atomically sets the preservation field.
    ///
    /// Relies on std::sync::RwLock::write; a poisoned lock is still
    /// written.
    #[verifier::external_body]
    pub fn set_preservation(&self, preservation: u8)
        requires
            preservation <= 100,
    {
        let mut guard = match self.lock.write() {
            Ok(guard) => guard,
            Err(poisoned) => poisoned.into_inner(),
        };
        guard.preservation = preservation;
    }

    /// Atomically sets the dithering field.
    ///
    /// Relies on std::sync::RwLock::write; a poisoned lock is still
    /// written.
    #[verifier::external_body]
    pub fn set_dithering(&self, dithering: u8)
        requires
            dithering <= 10,
    {
        let mut guard = match self.lock.write() {
            Ok(guard) => guard,
            Err(poisoned) => poisoned.into_inner(),
        };
        guard.dithering = dithering;
    }
}

} // verus!
