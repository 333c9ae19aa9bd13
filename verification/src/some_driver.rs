//! An illustrative resource consumer: a driver written purely against the
//! bus-like interface, with no awareness of capabilities or scope guards.

use vstd::prelude::*;

use crate::i2c_proxy::I2cBus;
use crate::i2c_proxy::I2cCommand;
use crate::i2c_proxy::I2cCommandView;
use crate::i2c_proxy::I2cHandlerCallable;
use crate::i2c_proxy::I2cHandlerProxy;
use crate::i2c_proxy::I2cResponse;
use crate::scoped_task_spawn_provider::ExposedI2cProxy;

verus! {

/// The address `do_stuff` reads from.
pub const DO_STUFF_ADDRESS: u8 = 0xff;

/// How many bytes `do_stuff` asks for.
pub const DO_STUFF_LEN: usize = 100;

/// The one command `do_stuff` issues: a read of [`DO_STUFF_LEN`] zeroed
/// bytes at [`DO_STUFF_ADDRESS`].
pub open spec fn do_stuff_command() -> I2cCommandView {
    I2cCommandView::Read(DO_STUFF_ADDRESS, Seq::new(DO_STUFF_LEN as nat, |i: int| 0u8))
}

/// A generic driver that owns a bus and issues transactions on demand. It
/// keeps no state beyond the bus itself.
pub struct SomeDriver<I2C: I2cBus> {
    i2c: I2C,
}

impl<I2C: I2cBus> SomeDriver<I2C> {
    /// The bus this driver owns.
    pub closed spec fn bus(&self) -> I2C {
        self.i2c
    }

    /// A driver over the given bus.
    pub fn new(i2c: I2C) -> (r: Self)
        ensures
            r.bus() == i2c,
    {
        SomeDriver { i2c }
    }

    /// One representative transaction: read [`DO_STUFF_LEN`] bytes from
    /// device [`DO_STUFF_ADDRESS`] and hand them to the caller. Exactly one
    /// bus call is made — a read of [`DO_STUFF_LEN`] zeroed bytes at
    /// [`DO_STUFF_ADDRESS`] appears at the end of the bus's routing log,
    /// whether or not routing succeeded. If routing fails, the caller
    /// receives the exact command that failed.
    pub fn do_stuff(&mut self) -> (r: Result<Vec<u8>, I2cCommand>)
        requires
            old(self).bus().ready(),
        ensures
            final(self).bus().ready(),
            final(self).bus().routed() == old(self).bus().routed().push(do_stuff_command()),
            r matches Ok(data) ==> data@.len() == DO_STUFF_LEN,
            r matches Ok(data) ==> exists|response: I2cResponse|
                (#[trigger] old(self).bus().may_accept(do_stuff_command(), response)) && (
                response matches I2cResponse::Data(produced) && data@ == produced@),
            r matches Err(failed) ==> failed@ == do_stuff_command() && old(self).bus().may_refuse(
                do_stuff_command(),
            ),
    {
        let mut buffer_to_be_filled: Vec<u8> = Vec::new();
        let mut i: usize = 0;
        while i < DO_STUFF_LEN
            invariant
                i <= DO_STUFF_LEN,
                buffer_to_be_filled@ =~= Seq::new(i as nat, |j: int| 0u8),
            decreases DO_STUFF_LEN - i,
        {
            buffer_to_be_filled.push(0);
            i += 1;
        }
        match self.i2c.read(DO_STUFF_ADDRESS, &mut buffer_to_be_filled) {
            Ok(()) => Ok(buffer_to_be_filled),
            Err(command) => Err(command),
        }
    }
}

impl<C: I2cHandlerCallable> ExposedI2cProxy<C> for SomeDriver<I2cHandlerProxy<C>> {
    open spec fn proxy_slot(&self) -> Option<C> {
        self.bus()@
    }

    fn expose(&mut self) -> (proxy: &mut I2cHandlerProxy<C>) {
        &mut self.i2c
    }
}

} // verus!
