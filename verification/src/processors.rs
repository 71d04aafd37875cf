//! Built-in processors.
//!
//! Two capabilities ship with the bridge: an echo, whose response is its
//! request unchanged, and an accumulator, which parses each request as an
//! unsigned decimal number, adds it to its running total, and responds
//! with the new total.

use vstd::prelude::*;

use crate::decimal::{format_u64, parse_u64, spec_digits, spec_parse_u64};
use crate::handler::{Handler, Mode, ReadWrite};

verus! {

/// The identity processor: accepts every request, keeps its state, and
/// responds with the request unchanged.
#[derive(Clone, Copy, Debug, PartialEq, Eq, Structural)]
pub struct Echo;

impl ReadWrite for Echo {
    type State = Vec<u8>;

    open spec fn accepts(&self, state: Seq<u8>, input: Seq<u8>) -> bool {
        true
    }

    open spec fn next_state(&self, state: Seq<u8>, input: Seq<u8>) -> Seq<u8> {
        state
    }

    open spec fn response(&self, state: Seq<u8>, input: Seq<u8>) -> Seq<u8> {
        input
    }

    fn process(&self, state: &Vec<u8>, input: &Vec<u8>) -> (r: Result<(Vec<u8>, Vec<u8>), ()>) {
        let mut kept: Vec<u8> = Vec::new();
        let mut back: Vec<u8> = Vec::new();
        let mut i: usize = 0;
        while i < state.len()
            invariant
                i <= state@.len(),
                kept@ == state@.take(i as int),
            decreases state@.len() - i,
        {
            kept.push(state[i]);
            i += 1;
            proof {
                assert(kept@ =~= state@.take(i as int));
            }
        }
        let mut j: usize = 0;
        while j < input.len()
            invariant
                j <= input@.len(),
                back@ == input@.take(j as int),
            decreases input@.len() - j,
        {
            back.push(input[j]);
            j += 1;
            proof {
                assert(back@ =~= input@.take(j as int));
            }
        }
        proof {
            assert(kept@ =~= state@);
            assert(back@ =~= input@);
        }
        Ok((kept, back))
    }
}

/// The accumulator processor: state is a running total. A request is an
/// unsigned decimal number; it is added to the total, and the response is
/// the new total, rendered in decimal. A request that is not a number, or
/// would overflow the total, is rejected and commits nothing.
#[derive(Clone, Copy, Debug, PartialEq, Eq, Structural)]
pub struct Accumulator;

impl ReadWrite for Accumulator {
    type State = u64;

    open spec fn accepts(&self, state: u64, input: Seq<u8>) -> bool {
        match spec_parse_u64(input) {
            Some(v) => state + v <= u64::MAX,
            None => false,
        }
    }

    open spec fn next_state(&self, state: u64, input: Seq<u8>) -> u64 {
        match spec_parse_u64(input) {
            Some(v) => if state + v <= u64::MAX {
                (state + v) as u64
            } else {
                state
            },
            None => state,
        }
    }

    open spec fn response(&self, state: u64, input: Seq<u8>) -> Seq<u8> {
        spec_digits(self.next_state(state, input) as nat)
    }

    fn process(&self, state: &u64, input: &Vec<u8>) -> (r: Result<(u64, Vec<u8>), ()>) {
        match parse_u64(input) {
            None => Err(()),
            Some(v) => {
                if v > u64::MAX - *state {
                    Err(())
                } else {
                    let s2 = *state + v;
                    Ok((s2, format_u64(s2)))
                }
            }
        }
    }
}

impl Handler<Echo> {
    /// A placeholder capability: read-write, an echo processor, and an
    /// empty seed state. Whatever is written comes straight back on the
    /// next read.
    pub fn new_nonsense() -> (h: Handler<Echo>)
        ensures
            h.mode == Mode::ReadWrite,
            h.state@ == Seq::<u8>::empty(),
            h.processor == (Echo {}),
    {
        Handler { mode: Mode::ReadWrite, state: Vec::new(), processor: Echo }
    }
}

} // verus!
