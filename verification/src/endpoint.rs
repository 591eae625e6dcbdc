//! The lazily-resolved application identity: unknown at construction,
//! fetched once through a REST self-lookup by the driver, then read by every
//! interaction-handling path to build the interaction-response endpoint.

use vstd::prelude::*;

verus! {

/// The bot's own application identity, as the self-lookup returns it.
#[derive(Clone, Copy, Debug, PartialEq, Eq, Structural)]
pub struct ApplicationIdentity {
    /// Application id used to address interaction responses.
    pub id: u64,
}

/// Holder of the application identity: starts empty, set at most once, and
/// once set it never changes or reverts.
#[derive(Clone, Copy, Debug)]
pub struct ApplicationEndpoint {
    /// The resolved identity, or `None` while resolution is pending.
    pub value: Option<ApplicationIdentity>,
}

impl ApplicationEndpoint {
    /// An unresolved holder.
    pub fn new() -> (e: ApplicationEndpoint)
        ensures
            e.value is None,
    {
        ApplicationEndpoint { value: None }
    }

    /// Non-blocking read used by command handlers: `None` means resolution
    /// has not completed, and the caller must report "not ready" rather
    /// than block.
    pub fn current(&self) -> (r: Option<ApplicationIdentity>)
        ensures
            r == self.value,
    {
        self.value
    }

    /// Stores the identity the driver's self-lookup returned and hands back
    /// the value that is now current. The first resolver wins: a later call
    /// observes the already-resolved value and never overwrites it.
    pub fn resolve(&mut self, fetched: ApplicationIdentity) -> (r: ApplicationIdentity)
        ensures
            final(self).value is Some,
            r == final(self).value->0,
            old(self).value is Some ==> final(self).value == old(self).value,
            old(self).value is None ==> final(self).value == Some(fetched),
    {
        match self.value {
            Some(existing) => existing,
            None => {
                self.value = Some(fetched);
                fetched
            },
        }
    }
}

} // verus!
