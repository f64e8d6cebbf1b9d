//! The process-wide platform registry: holds at most one platform
//! implementation, set once at startup and read for the rest of the process
//! life.
//!
//! The registry itself is a value; an embedder keeps the single instance in
//! its process-global slot and runs every access on the one owning thread.
//! A second registration attempt is a programming-contract violation on the
//! embedder's part and is reported, never applied: the first registration is
//! left untouched, and there is no way to tear it down.

use vstd::prelude::*;

verus! {

/// Why a registration was refused.
#[derive(Clone, Copy, PartialEq, Eq, Structural, Debug)]
pub enum SetPlatformError {
    /// A platform was already registered; the registry keeps it.
    AlreadySet,
}

/// The registry: an empty or filled write-once slot.
pub struct PlatformRegistry<P> {
    pub slot: Option<P>,
}

impl<P> PlatformRegistry<P> {
    /// A fresh registry with nothing registered.
    pub fn new() -> (r: Self)
        ensures
            r.slot is None,
    {
        PlatformRegistry { slot: None }
    }

    /// Registers a platform.  Succeeds exactly on the first attempt; any
    /// later attempt fails and leaves the first registration unchanged.
    pub fn register(&mut self, platform: P) -> (res: Result<(), SetPlatformError>)
        ensures
            old(self).slot is None ==> res == Ok::<(), SetPlatformError>(()) && final(self).slot
                == Some(platform),
            old(self).slot is Some ==> res == Err::<(), SetPlatformError>(
                SetPlatformError::AlreadySet,
            ) && final(self).slot == old(self).slot,
    {
        if self.slot.is_some() {
            Err(SetPlatformError::AlreadySet)
        } else {
            self.slot = Some(platform);
            Ok(())
        }
    }

    /// Whether a platform has been registered.
    pub fn is_registered(&self) -> (r: bool)
        ensures
            r == (self.slot is Some),
    {
        self.slot.is_some()
    }

    /// The registered platform, if any.
    pub fn platform(&self) -> (p: Option<&P>)
        ensures
            p matches Some(q) ==> self.slot matches Some(r) && q == r,
            p is None ==> self.slot is None,
    {
        self.slot.as_ref()
    }
}

} // verus!
