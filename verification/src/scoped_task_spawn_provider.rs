//! The scope guard: installs a capability into a proxy's slot for a bounded
//! dynamic scope and clears the slot — unconditionally — when the scope is
//! released.

use vstd::prelude::*;

use crate::i2c_proxy::I2cHandlerCallable;
use crate::i2c_proxy::I2cHandlerProxy;

verus! {

/// Implemented by whatever holds the shared resource: it hands out the
/// capability proxy buried inside, so a scope guard can reach the slot
/// without knowing the holder's layout.
pub trait ExposedI2cProxy<C: I2cHandlerCallable>: Sized {
    /// The current state of the contained proxy's capability slot.
    spec fn proxy_slot(&self) -> Option<C>;

    /// Hand out the contained proxy. Whatever the borrower leaves in the
    /// proxy's slot is what `proxy_slot` reports afterwards.
    fn expose(&mut self) -> (proxy: &mut I2cHandlerProxy<C>)
        ensures
            (*proxy)@ == old(self).proxy_slot(),
            final(self).proxy_slot() == (*final(proxy))@,
    ;
}

/// The scope guard. Constructing one installs a capability into the
/// holder's proxy slot; releasing it clears the slot back to empty. The
/// guard itself carries no run-time state — it exists to mark, in the
/// program text, the dynamic extent for which the capability is installed.
///
/// Two hazards are deliberately left as documented behaviour rather than
/// prevented, mirroring the slot's last-write-wins state machine:
///
/// * Exactly one guard should be live per proxy. Constructing guard B while
///   guard A is live overwrites A's capability, and releasing B empties the
///   slot even though A has not been released.
/// * `release` must be handed the same resource holder the guard was
///   constructed with; nothing ties the two together.
///
/// A guard that is merely dropped performs no clearing — only `release`
/// does — so an unconsumed guard is flagged.
#[must_use]
pub struct ScopedTaskSpawnProvider<C: I2cHandlerCallable> {
    installed: Ghost<C>,
}

impl<C: I2cHandlerCallable> ScopedTaskSpawnProvider<C> {
    /// Open a scope: install `spawn` into the holder's proxy slot. Whatever
    /// the slot held before is discarded — last write wins.
    pub fn new<T: ExposedI2cProxy<C>>(spawn: C, driver_with_proxy: &mut T) -> (scope: Self)
        ensures
            final(driver_with_proxy).proxy_slot() == Some(spawn),
            scope.capability() == spawn,
    {
        let ghost installed = spawn;
        let proxy = driver_with_proxy.expose();
        proxy.set_spawn(Some(spawn));
        ScopedTaskSpawnProvider { installed: Ghost(installed) }
    }

    /// The capability this guard installed when it was constructed.
    pub closed spec fn capability(&self) -> C {
        self.installed@
    }

    /// Close the scope: clear the holder's proxy slot back to empty. This
    /// holds on every exit path of a guarded block and does not depend on
    /// what the slot currently holds — even a capability installed by a
    /// younger guard is cleared.
    pub fn release<T: ExposedI2cProxy<C>>(self, driver_with_proxy: &mut T)
        ensures
            final(driver_with_proxy).proxy_slot() is None,
    {
        let proxy = driver_with_proxy.expose();
        proxy.set_spawn(None);
    }
}

} // verus!
