//! Plugins: bundles of capabilities registered as one namespace.
//!
//! A plugin contributes a name — the engine mounts the plugin's namespace
//! under it — and a sealed capability table holding the plugin's API.

use vstd::prelude::*;

use crate::handler::{Handler, Mode, ReadWrite};
use crate::map::HandlerMap;
use crate::processors::Accumulator;

verus! {

/// A bundle of capabilities exposed to guests as one named namespace.
pub trait Plugin {
    /// The processor type of this plugin's capabilities.
    type Proc: ReadWrite;

    /// The name under which the engine mounts this plugin's namespace.
    fn name() -> (s: String);

    /// This plugin's API: its capability table, already sealed, with no
    /// duplicate names.
    fn api() -> (m: HandlerMap<Self::Proc>)
        ensures
            m.wf(),
            m.sealed,
    ;
}

/// A counter plugin: one read-write capability, `incr`, that accumulates
/// the decimal values written to it and responds with the running total.
#[derive(Clone, Copy, Debug, Default, PartialEq, Eq, Structural)]
pub struct Counter {}

impl Plugin for Counter {
    type Proc = Accumulator;

    fn name() -> (s: String)
        ensures
            s@ == "counter"@,
    {
        "counter".to_owned()
    }

    fn api() -> (m: HandlerMap<Accumulator>)
        ensures
            m.entries@.len() == 1,
            m.entries@[0].0@ == "incr"@,
            m.entries@[0].1.mode == Mode::ReadWrite,
            m.entries@[0].1.state == 0u64,
            m.entries@[0].1.processor == (Accumulator {}),
    {
        let mut m: HandlerMap<Accumulator> = HandlerMap::new();
        let r = m.register("incr".to_owned(), Handler::new_shared_state(0u64, Accumulator));
        proof {
            assert(r is Ok);
        }
        m.seal();
        m
    }
}

} // verus!
