//! The capability proxy: a stand-in bus that converts each call into an
//! [`I2cCommand`] and forwards it through the capability installed in its
//! single slot.

use vstd::prelude::*;

verus! {

/// One bus operation, described as plain data.
///
/// A command owns its byte buffers outright: the payload of a write travels
/// into the routed call, and the bytes produced by a read travel back in the
/// handler's [`I2cResponse`]. Nothing is borrowed across the routing
/// boundary, so a handler cannot retain a caller's buffer past its own
/// completion.
#[derive(Clone, Debug)]
pub enum I2cCommand {
    /// Write the payload bytes to the device at the address.
    Write(u8, Vec<u8>),
    /// Read as many bytes as the buffer holds from the device at the address.
    Read(u8, Vec<u8>),
    /// Write the payload, then read as many bytes as the buffer holds.
    WriteRead(u8, Vec<u8>, Vec<u8>),
}

/// A command's content: the operation, the address, and the buffer bytes.
/// Two commands with the same view are the same request, wherever their
/// buffers happen to live.
pub enum I2cCommandView {
    Write(u8, Seq<u8>),
    Read(u8, Seq<u8>),
    WriteRead(u8, Seq<u8>, Seq<u8>),
}

impl View for I2cCommand {
    type V = I2cCommandView;

    open spec fn view(&self) -> I2cCommandView {
        match self {
            I2cCommand::Write(address, payload) => I2cCommandView::Write(*address, payload@),
            I2cCommand::Read(address, buffer) => I2cCommandView::Read(*address, buffer@),
            I2cCommand::WriteRead(address, payload, buffer) => I2cCommandView::WriteRead(
                *address,
                payload@,
                buffer@,
            ),
        }
    }
}

/// What a routed command hands back on success.
#[derive(Clone, Debug)]
pub enum I2cResponse {
    /// A pure write completed; there are no bytes to return.
    Written,
    /// The bytes produced by a read or write-read.
    Data(Vec<u8>),
}

/// The response shape owed for a command: a write completes with
/// [`I2cResponse::Written`], while a read or write-read completes with
/// exactly as many bytes as the caller's buffer holds.
pub open spec fn response_matches(command: I2cCommandView, response: I2cResponse) -> bool {
    match command {
        I2cCommandView::Write(_, _) => response is Written,
        I2cCommandView::Read(_, buffer) => response matches I2cResponse::Data(data)
            && data@.len() == buffer.len(),
        I2cCommandView::WriteRead(_, _, buffer) => response matches I2cResponse::Data(data)
            && data@.len() == buffer.len(),
    }
}

/// Content equality on commands: same operation, same address, same bytes.
/// Where a buffer lives does not matter, only what it holds.
pub open spec fn command_content_eq(a: I2cCommand, b: I2cCommand) -> bool {
    a@ == b@
}

/// Byte-for-byte comparison of two buffers.
pub fn bytes_eq(a: &Vec<u8>, b: &Vec<u8>) -> (r: bool)
    ensures
        r == (a@ == b@),
{
    if a.len() != b.len() {
        assert(a@ != b@) by {
            assert(a@.len() != b@.len());
        }
        return false;
    }
    let mut i: usize = 0;
    while i < a.len()
        invariant
            i <= a@.len(),
            a@.len() == b@.len(),
            forall|j: int| 0 <= j < i ==> a@[j] == b@[j],
        decreases a@.len() - i,
    {
        if a[i] != b[i] {
            return false;
        }
        i += 1;
    }
    proof {
        assert(a@ =~= b@);
    }
    true
}

/// A fresh buffer holding the same bytes as the given one.
pub(crate) fn copy_bytes(src: &Vec<u8>) -> (r: Vec<u8>)
    ensures
        r@ == src@,
{
    let mut out: Vec<u8> = Vec::new();
    let mut i: usize = 0;
    while i < src.len()
        invariant
            i <= src@.len(),
            out@ == src@.subrange(0, i as int),
        decreases src@.len() - i,
    {
        out.push(src[i]);
        i += 1;
    }
    proof {
        assert(out@ =~= src@);
    }
    out
}

impl PartialEq for I2cCommand {
    /// Commands compare by content: operation, address and buffer bytes.
    fn eq(&self, other: &Self) -> (r: bool) {
        match (self, other) {
            (I2cCommand::Write(addr_a, payload_a), I2cCommand::Write(addr_b, payload_b)) =>
                *addr_a == *addr_b && bytes_eq(payload_a, payload_b),
            (I2cCommand::Read(addr_a, buf_a), I2cCommand::Read(addr_b, buf_b)) =>
                *addr_a == *addr_b && bytes_eq(buf_a, buf_b),
            (
                I2cCommand::WriteRead(addr_a, payload_a, buf_a),
                I2cCommand::WriteRead(addr_b, payload_b, buf_b),
            ) =>
                *addr_a == *addr_b && bytes_eq(payload_a, payload_b) && bytes_eq(buf_a, buf_b),
            _ => false,
        }
    }
}

impl vstd::std_specs::cmp::PartialEqSpecImpl for I2cCommand {
    open spec fn obeys_eq_spec() -> bool {
        true
    }

    open spec fn eq_spec(&self, other: &Self) -> bool {
        command_content_eq(*self, *other)
    }
}

/// A capability: the routing handle the scheduler hands to a task for the
/// duration of one invocation. Routing either succeeds with the response the
/// handler owes for the command, or fails and hands the very command back —
/// it never silently drops one.
///
/// `delivered` is a specification-level log of every command routed through
/// the capability, in routing order; it exists only for reasoning and has no
/// run-time cost. `may_refuse` and `may_accept` delimit which outcomes a
/// routing call can have, so a caller knows that what came back is a real
/// routing result and not an invention of the forwarding layer.
///
/// Implementations outside this crate (the scheduler's spawn handles) are
/// not verified; whoever writes one must uphold this contract by hand.
pub trait I2cHandlerCallable: Sized {
    /// Every command this capability has routed, in routing order.
    spec fn delivered(&self) -> Seq<I2cCommandView>;

    /// Whether routing this command is allowed to fail (a full dispatch
    /// queue, say). A refusal always echoes the command back.
    spec fn may_refuse(&self, command: I2cCommandView) -> bool;

    /// Whether routing this command is allowed to succeed with this
    /// response.
    spec fn may_accept(&self, command: I2cCommandView, response: I2cResponse) -> bool;

    /// Route one command to the bus handler. Exactly this command is
    /// appended to the delivery log, whether routing succeeded or failed.
    fn call_i2c(&mut self, command: I2cCommand) -> (r: Result<I2cResponse, I2cCommand>)
        ensures
            final(self).delivered() == old(self).delivered().push(command@),
            r matches Err(echoed) ==> echoed == command && old(self).may_refuse(command@),
            r matches Ok(response) ==> old(self).may_accept(command@, response)
                && response_matches(command@, response),
    ;
}

/// The bus-like interface a resource consumer is written against: three
/// operations, each of which either completes or returns the exact command
/// that failed to route. `ready` says whether the bus may be used at all;
/// calling an operation on a bus that is not ready is a scope-discipline bug
/// and is ruled out, not reported.
///
/// `routed` is the specification-level log of every command this bus has
/// forwarded: each operation appends exactly one command, built from its
/// arguments, so commands go out once each, with no retry, and in issue
/// order. `may_refuse` and `may_accept` delimit the outcomes, so the value
/// an operation returns is pinned to a real routing result: an operation
/// fails only if the bus may refuse its command, and succeeds only with a
/// response the bus may give — whose data, for a read, is exactly what ends
/// up in the caller's buffer.
pub trait I2cBus: Sized {
    /// Whether the bus may currently be used.
    spec fn ready(&self) -> bool;

    /// Every command this bus has forwarded, in issue order.
    spec fn routed(&self) -> Seq<I2cCommandView>;

    /// Whether forwarding this command is allowed to fail.
    spec fn may_refuse(&self, command: I2cCommandView) -> bool;

    /// Whether forwarding this command is allowed to succeed with this
    /// response.
    spec fn may_accept(&self, command: I2cCommandView, response: I2cResponse) -> bool;

    /// Write `bytes` to the device at `address`.
    fn write(&mut self, address: u8, bytes: &Vec<u8>) -> (r: Result<(), I2cCommand>)
        requires
            old(self).ready(),
        ensures
            final(self).ready(),
            final(self).routed() == old(self).routed().push(
                I2cCommandView::Write(address, bytes@),
            ),
            r is Ok ==> exists|response: I2cResponse|
                old(self).may_accept(I2cCommandView::Write(address, bytes@), response),
            r matches Err(failed) ==> failed@ == I2cCommandView::Write(address, bytes@)
                && old(self).may_refuse(I2cCommandView::Write(address, bytes@)),
    ;

    /// Fill `buffer` from the device at `address`; its length tells the
    /// device how many bytes to produce.
    fn read(&mut self, address: u8, buffer: &mut Vec<u8>) -> (r: Result<(), I2cCommand>)
        requires
            old(self).ready(),
        ensures
            final(self).ready(),
            final(self).routed() == old(self).routed().push(
                I2cCommandView::Read(address, old(buffer)@),
            ),
            r is Ok ==> final(buffer)@.len() == old(buffer)@.len(),
            r is Ok ==> exists|response: I2cResponse|
                old(self).may_accept(I2cCommandView::Read(address, old(buffer)@), response) && (
                response matches I2cResponse::Data(data) && final(buffer)@ == data@),
            r matches Err(failed) ==> failed@ == I2cCommandView::Read(address, old(buffer)@)
                && old(self).may_refuse(I2cCommandView::Read(address, old(buffer)@))
                && final(buffer)@ == old(buffer)@,
    ;

    /// Write `bytes`, then fill `buffer`, at `address`.
    fn write_read(&mut self, address: u8, bytes: &Vec<u8>, buffer: &mut Vec<u8>) -> (r: Result<
        (),
        I2cCommand,
    >)
        requires
            old(self).ready(),
        ensures
            final(self).ready(),
            final(self).routed() == old(self).routed().push(
                I2cCommandView::WriteRead(address, bytes@, old(buffer)@),
            ),
            r is Ok ==> final(buffer)@.len() == old(buffer)@.len(),
            r is Ok ==> exists|response: I2cResponse|
                old(self).may_accept(
                    I2cCommandView::WriteRead(address, bytes@, old(buffer)@),
                    response,
                ) && (response matches I2cResponse::Data(data) && final(buffer)@ == data@),
            r matches Err(failed) ==> failed@ == I2cCommandView::WriteRead(
                address,
                bytes@,
                old(buffer)@,
            ) && old(self).may_refuse(I2cCommandView::WriteRead(address, bytes@, old(buffer)@))
                && final(buffer)@ == old(buffer)@,
    ;
}

/// The capability proxy. It owns the single capability slot, buffers no
/// state of its own, and forwards each bus call — converted into an
/// [`I2cCommand`] — through whatever capability is installed. Its view is
/// the slot: `None` while no capability is installed.
pub struct I2cHandlerProxy<C: I2cHandlerCallable> {
    spawn: Option<C>,
}

impl<C: I2cHandlerCallable> View for I2cHandlerProxy<C> {
    type V = Option<C>;

    closed spec fn view(&self) -> Option<C> {
        self.spawn
    }
}

impl<C: I2cHandlerCallable> I2cHandlerProxy<C> {
    /// The installed capability; meaningful only while the slot is full.
    pub open spec fn capability(&self) -> C {
        self@->Some_0
    }

    /// A proxy whose slot starts out empty.
    pub fn new() -> (r: Self)
        ensures
            r@ is None,
    {
        I2cHandlerProxy { spawn: None }
    }

    /// Put a capability into the slot, or clear it. The previous content is
    /// discarded either way: last write wins.
    pub fn set_spawn(&mut self, spawn: Option<C>)
        ensures
            final(self)@ == spawn,
    {
        self.spawn = spawn;
    }

    /// Whether a capability is currently installed. A caller must see `true`
    /// here before it may use the bus operations.
    pub fn is_installed(&self) -> (r: bool)
        ensures
            r == (self@ is Some),
    {
        self.spawn.is_some()
    }
}

impl<C: I2cHandlerCallable> I2cBus for I2cHandlerProxy<C> {
    /// The proxy is ready exactly while a capability is installed.
    open spec fn ready(&self) -> bool {
        self@ is Some
    }

    /// The proxy buffers nothing: what it has routed is exactly what the
    /// installed capability has had delivered.
    open spec fn routed(&self) -> Seq<I2cCommandView> {
        match self@ {
            Some(capability) => capability.delivered(),
            None => Seq::empty(),
        }
    }

    /// The proxy adds no failure modes of its own: it refuses exactly when
    /// the installed capability may refuse.
    open spec fn may_refuse(&self, command: I2cCommandView) -> bool {
        self.capability().may_refuse(command)
    }

    /// The proxy invents no responses: it succeeds exactly with what the
    /// installed capability may accept.
    open spec fn may_accept(&self, command: I2cCommandView, response: I2cResponse) -> bool {
        self.capability().may_accept(command, response)
    }

    /// Forward one write: deliver exactly one `Write` command, built from
    /// the arguments, to the installed capability, and return that routing
    /// call's result unchanged.
    fn write(&mut self, address: u8, bytes: &Vec<u8>) -> (r: Result<(), I2cCommand>) {
        match &mut self.spawn {
            Some(capability) => {
                let command = I2cCommand::Write(address, copy_bytes(bytes));
                let ghost command_view = command@;
                match capability.call_i2c(command) {
                    Ok(response) => {
                        proof {
                            assert(old(self).may_accept(command_view, response));
                        }
                        Ok(())
                    },
                    Err(echoed) => Err(echoed),
                }
            },
            None => unreached(),
        }
    }

    /// Forward one read: deliver exactly one `Read` command carrying the
    /// buffer's bytes to the installed capability. On success the caller's
    /// buffer holds exactly the data the capability's handler produced; on
    /// refusal the command comes back and the buffer is untouched.
    fn read(&mut self, address: u8, buffer: &mut Vec<u8>) -> (r: Result<(), I2cCommand>) {
        match &mut self.spawn {
            Some(capability) => {
                let command = I2cCommand::Read(address, copy_bytes(buffer));
                let ghost command_view = command@;
                match capability.call_i2c(command) {
                    Ok(response) => {
                        proof {
                            assert(old(self).may_accept(command_view, response));
                        }
                        match response {
                            I2cResponse::Data(data) => {
                                *buffer = data;
                                Ok(())
                            },
                            I2cResponse::Written => unreached(),
                        }
                    },
                    Err(echoed) => Err(echoed),
                }
            },
            None => unreached(),
        }
    }

    /// Forward one write-read: deliver exactly one `WriteRead` command to
    /// the installed capability. On success the caller's buffer holds
    /// exactly the handler's data; on refusal the command comes back and
    /// the buffer is untouched.
    fn write_read(&mut self, address: u8, bytes: &Vec<u8>, buffer: &mut Vec<u8>) -> (r: Result<
        (),
        I2cCommand,
    >) {
        match &mut self.spawn {
            Some(capability) => {
                let command = I2cCommand::WriteRead(address, copy_bytes(bytes), copy_bytes(buffer));
                let ghost command_view = command@;
                match capability.call_i2c(command) {
                    Ok(response) => {
                        proof {
                            assert(old(self).may_accept(command_view, response));
                        }
                        match response {
                            I2cResponse::Data(data) => {
                                *buffer = data;
                                Ok(())
                            },
                            I2cResponse::Written => unreached(),
                        }
                    },
                    Err(echoed) => Err(echoed),
                }
            },
            None => unreached(),
        }
    }
}

} // verus!
