//! An in-memory capability: the high-priority bus handler together with the
//! scheduler's dispatch queue, collapsed into one synchronous object.
//!
//! Because the handler runs at a priority at least as high as every task
//! that can route a command to it, a successful dispatch has completed by
//! the time the routing call returns. That lets one in-process object stand
//! in for the whole scheduler round trip: either the dispatch queue is full
//! and the command comes straight back, or the handler runs and its response
//! is returned on the spot.

use vstd::prelude::*;

use crate::i2c_proxy::I2cCommand;
use crate::i2c_proxy::I2cCommandView;
use crate::i2c_proxy::I2cHandlerCallable;
use crate::i2c_proxy::I2cResponse;

verus! {

/// A capability whose handler answers every read with a fixed byte, and
/// whose dispatch queue is either always free or always full. Its routing
/// outcome is pinned exactly: it refuses if and only if the queue is full,
/// and otherwise answers a write with `Written` and a read or write-read
/// with the caller's buffer length of the fill byte.
pub struct InMemoryHandler {
    fill: u8,
    accept: bool,
    history: Ghost<Seq<I2cCommandView>>,
}

/// A fresh buffer of `len` copies of `value`.
fn filled_bytes(len: usize, value: u8) -> (r: Vec<u8>)
    ensures
        r@ == Seq::new(len as nat, |i: int| value),
{
    let mut out: Vec<u8> = Vec::new();
    let mut i: usize = 0;
    while i < len
        invariant
            i <= len,
            out@ =~= Seq::new(i as nat, |j: int| value),
        decreases len - i,
    {
        out.push(value);
        i += 1;
    }
    out
}

impl InMemoryHandler {
    /// The byte the handler writes into every buffer it fills.
    pub closed spec fn fill(&self) -> u8 {
        self.fill
    }

    /// Whether the dispatch queue has room.
    pub closed spec fn accepts(&self) -> bool {
        self.accept
    }

    /// A handler that fills buffers with `fill`; `accept` says whether the
    /// dispatch queue has room. Its delivery log starts out empty.
    pub fn new(fill: u8, accept: bool) -> (r: Self)
        ensures
            r.fill() == fill,
            r.accepts() == accept,
            r.delivered() == Seq::<I2cCommandView>::empty(),
    {
        InMemoryHandler { fill, accept, history: Ghost(Seq::empty()) }
    }

    /// Run the handler once. With a full queue the command comes straight
    /// back; otherwise a write completes as written, and a read or
    /// write-read yields the caller's buffer length of the fill byte.
    pub fn handle(&self, command: I2cCommand) -> (r: Result<I2cResponse, I2cCommand>)
        ensures
            !self.accepts() ==> (r matches Err(echoed) && echoed == command),
            self.accepts() ==> (r matches Ok(response) && self.may_accept(command@, response)),
    {
        if !self.accept {
            return Err(command);
        }
        match command {
            I2cCommand::Write(_address, _payload) => Ok(I2cResponse::Written),
            I2cCommand::Read(_address, buffer) => Ok(
                I2cResponse::Data(filled_bytes(buffer.len(), self.fill)),
            ),
            I2cCommand::WriteRead(_address, _payload, buffer) => Ok(
                I2cResponse::Data(filled_bytes(buffer.len(), self.fill)),
            ),
        }
    }
}

impl I2cHandlerCallable for InMemoryHandler {
    closed spec fn delivered(&self) -> Seq<I2cCommandView> {
        self.history@
    }

    /// Routing fails exactly when the dispatch queue is full.
    open spec fn may_refuse(&self, command: I2cCommandView) -> bool {
        !self.accepts()
    }

    /// Routing succeeds exactly when the queue has room, and then the
    /// response is pinned: `Written` for a write, the buffer's length of
    /// the fill byte for a read or write-read.
    open spec fn may_accept(&self, command: I2cCommandView, response: I2cResponse) -> bool {
        self.accepts() && match command {
            I2cCommandView::Write(_, _) => response is Written,
            I2cCommandView::Read(_, buffer) => response matches I2cResponse::Data(data)
                && data@ == Seq::new(buffer.len(), |i: int| self.fill()),
            I2cCommandView::WriteRead(_, _, buffer) => response matches I2cResponse::Data(data)
                && data@ == Seq::new(buffer.len(), |i: int| self.fill()),
        }
    }

    fn call_i2c(&mut self, command: I2cCommand) -> (r: Result<I2cResponse, I2cCommand>) {
        let ghost command_view = command@;
        let r = self.handle(command);
        self.history = Ghost(self.history@.push(command_view));
        r
    }
}

} // verus!
