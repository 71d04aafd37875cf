//! Capabilities: named units of host functionality.
//!
//! A capability pairs a permission mode with a processing function and the
//! state that function threads across calls. The processor is pure: from a
//! state and a request payload it computes a successor state and a response
//! payload, or rejects the request and leaves the state uncommitted.

use vstd::prelude::*;

verus! {

/// The permission mode of a capability, fixed at registration.
#[derive(Clone, Copy, Debug, PartialEq, Eq, Structural)]
pub enum Mode {
    /// The capability may only be opened without write intent.
    ReadOnly,
    /// The capability may only be opened without read intent.
    WriteOnly,
    /// The capability may be opened with any combination of intents.
    ReadWrite,
}

/// Whether a capability of mode `mode` grants an open with the given
/// read/write intents. Permission is evaluated once, at open time.
pub open spec fn mode_allows(mode: Mode, want_read: bool, want_write: bool) -> bool {
    match mode {
        Mode::ReadOnly => !want_write,
        Mode::WriteOnly => !want_read,
        Mode::ReadWrite => true,
    }
}

/// A processor: the pure state-transition function bound to a capability.
///
/// `process` is specified by three spec functions: on which state/request
/// pairs it succeeds, the successor state, and the response payload. A
/// rejected request commits nothing.
pub trait ReadWrite: Sized {
    /// The state the processor threads across calls.
    type State: View;

    /// Whether the processor accepts the request in the given state.
    spec fn accepts(&self, state: <Self::State as View>::V, input: Seq<u8>) -> bool;

    /// The successor state of an accepted request.
    spec fn next_state(&self, state: <Self::State as View>::V, input: Seq<u8>) -> <Self::State as View>::V;

    /// The response payload of an accepted request.
    spec fn response(&self, state: <Self::State as View>::V, input: Seq<u8>) -> Seq<u8>;

    /// Run the processor on one request.
    fn process(&self, state: &Self::State, input: &Vec<u8>) -> (r: Result<(Self::State, Vec<u8>), ()>)
        ensures
            r is Ok <==> self.accepts(state@, input@),
            r matches Ok(p) ==> p.0@ == self.next_state(state@, input@)
                && p.1@ == self.response(state@, input@),
    ;
}

/// A capability: a permission mode plus a processor and the state it
/// threads across calls. The name under which it is reachable lives in the
/// capability table.
pub struct Handler<P: ReadWrite> {
    pub mode: Mode,
    pub state: P::State,
    pub processor: P,
}

impl<P: ReadWrite> Handler<P> {
    /// Build a capability with an explicit permission mode.
    pub fn new(mode: Mode, state: P::State, processor: P) -> (h: Handler<P>)
        ensures
            h.mode == mode,
            h.state == state,
            h.processor == processor,
    {
        Handler { mode, state, processor }
    }

    /// Build a read-write capability around a seed state and the processor
    /// that steps it: the common case for host functions whose state
    /// persists across opens.
    pub fn new_shared_state(state: P::State, processor: P) -> (h: Handler<P>)
        ensures
            h.mode == Mode::ReadWrite,
            h.state == state,
            h.processor == processor,
    {
        Handler { mode: Mode::ReadWrite, state, processor }
    }

    /// Whether this capability grants an open with the given read/write
    /// intents: a `ReadOnly` capability cannot be opened for writing, a
    /// `WriteOnly` one not for reading, and `ReadWrite` grants any
    /// combination.
    pub fn is_valid(&self, read: bool, write: bool) -> (r: bool)
        ensures
            r == mode_allows(self.mode, read, write),
    {
        match self.mode {
            Mode::ReadOnly => !write,
            Mode::WriteOnly => !read,
            Mode::ReadWrite => true,
        }
    }
}

} // verus!
