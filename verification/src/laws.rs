//! Laws of the bridge that relate several operations.
//!
//! The per-function contracts pin each operation down; the proofs here
//! state what follows for whole workloads: serialized writes against an
//! accumulator lose no update in any serialization order, and an
//! operation that preserves the table's skeleton preserves every lookup.

use vstd::prelude::*;

use vstd::seq_lib::commutative_foldl;
use vstd::seq_lib::group_to_multiset_ensures;
use vstd::seq_lib::lemma_fold_left_permutation;

use crate::decimal::spec_parse_u64;
use crate::handler::ReadWrite;
use crate::map::HandlerMap;
use crate::processors::Accumulator;

verus! {

/// The value one request payload adds to an accumulator; zero for a
/// payload that does not parse.
pub open spec fn parsed_value(input: Seq<u8>) -> int {
    match spec_parse_u64(input) {
        Some(v) => v as int,
        None => 0,
    }
}

/// The sum of the values carried by a sequence of request payloads.
pub open spec fn total_written(inputs: Seq<Seq<u8>>) -> int {
    inputs.fold_left(0int, |acc: int, inp: Seq<u8>| acc + parsed_value(inp))
}

/// The accumulator state after a serialized sequence of write requests,
/// stepping the accumulator's transition once per request, in order.
pub open spec fn accumulator_run(s0: u64, inputs: Seq<Seq<u8>>) -> u64
    decreases inputs.len(),
{
    if inputs.len() == 0 {
        s0
    } else {
        accumulator_run((Accumulator {}).next_state(s0, inputs[0]), inputs.drop_first())
    }
}

/// Whether every request of a serialized sequence is accepted when the
/// requests are processed in order from state `s0`.
pub open spec fn accumulator_accepts_all(s0: u64, inputs: Seq<Seq<u8>>) -> bool
    decreases inputs.len(),
{
    if inputs.len() == 0 {
        true
    } else {
        (Accumulator {}).accepts(s0, inputs[0]) && accumulator_accepts_all(
            (Accumulator {}).next_state(s0, inputs[0]),
            inputs.drop_first(),
        )
    }
}

/// Appending one request adds its value to the total.
proof fn lemma_total_written_push(inputs: Seq<Seq<u8>>, inp: Seq<u8>)
    ensures
        total_written(inputs.push(inp)) == total_written(inputs) + parsed_value(inp),
{
    assert(inputs.push(inp).drop_last() =~= inputs);
}

/// The total splits off its first request.
proof fn lemma_total_written_first(inputs: Seq<Seq<u8>>)
    requires
        inputs.len() > 0,
    ensures
        total_written(inputs) == parsed_value(inputs[0]) + total_written(inputs.drop_first()),
    decreases inputs.len(),
{
    if inputs.len() == 1 {
        assert(inputs.drop_last() =~= Seq::<Seq<u8>>::empty());
        assert(inputs.drop_first() =~= Seq::<Seq<u8>>::empty());
    } else {
        let shorter = inputs.drop_last();
        lemma_total_written_first(shorter);
        assert(inputs =~= shorter.push(inputs.last()));
        lemma_total_written_push(shorter, inputs.last());
        assert(shorter.drop_first().push(inputs.last()) =~= inputs.drop_first());
        lemma_total_written_push(shorter.drop_first(), inputs.last());
    }
}

/// No request subtracts: the total of any request sequence is
/// non-negative.
proof fn lemma_total_written_nonneg(inputs: Seq<Seq<u8>>)
    ensures
        total_written(inputs) >= 0,
    decreases inputs.len(),
{
    if inputs.len() > 0 {
        lemma_total_written_first(inputs);
        lemma_total_written_nonneg(inputs.drop_first());
    }
}

/// A serialized run from `s0` whose requests all parse and whose grand
/// total fits accepts every request and ends at `s0` plus the total.
proof fn lemma_accumulator_run_total(s0: u64, inputs: Seq<Seq<u8>>)
    requires
        forall|i: int| 0 <= i < inputs.len() ==> (#[trigger] spec_parse_u64(inputs[i])) is Some,
        s0 + total_written(inputs) <= u64::MAX,
    ensures
        accumulator_accepts_all(s0, inputs),
        accumulator_run(s0, inputs) == s0 + total_written(inputs),
    decreases inputs.len(),
{
    if inputs.len() > 0 {
        lemma_total_written_first(inputs);
        lemma_total_written_nonneg(inputs.drop_first());
        let v = parsed_value(inputs[0]);
        assert(spec_parse_u64(inputs[0]) is Some);
        assert(s0 + v <= u64::MAX);
        let s1 = (Accumulator {}).next_state(s0, inputs[0]);
        assert(s1 == s0 + v);
        assert(forall|i: int|
            0 <= i < inputs.drop_first().len() ==> (#[trigger] spec_parse_u64(
                inputs.drop_first()[i],
            )) is Some) by {
            assert(forall|i: int|
                0 <= i < inputs.drop_first().len() ==> inputs.drop_first()[i] == inputs[i + 1]);
        }
        lemma_accumulator_run_total(s1, inputs.drop_first());
    }
}

/// No lost updates: a batch of write requests against one accumulator
/// capability, each carrying a decimal value whose grand total fits the
/// counter, is wholly accepted in whatever order the per-capability guard
/// serializes it, and every serialization ends at the starting state plus
/// the sum of all written values — so two serializations of the same batch
/// end in the same state.
pub proof fn lemma_accumulator_no_lost_updates(
    s0: u64,
    inputs1: Seq<Seq<u8>>,
    inputs2: Seq<Seq<u8>>,
)
    requires
        forall|i: int| 0 <= i < inputs1.len() ==> (#[trigger] spec_parse_u64(inputs1[i])) is Some,
        s0 + total_written(inputs1) <= u64::MAX,
        inputs1.to_multiset() == inputs2.to_multiset(),
    ensures
        accumulator_accepts_all(s0, inputs1),
        accumulator_accepts_all(s0, inputs2),
        accumulator_run(s0, inputs1) == s0 + total_written(inputs1),
        accumulator_run(s0, inputs2) == accumulator_run(s0, inputs1),
{
    broadcast use group_to_multiset_ensures;

    let f = |acc: int, inp: Seq<u8>| acc + parsed_value(inp);
    assert(commutative_foldl(f)) by {
        assert(forall|x: Seq<u8>, y: Seq<u8>, v: int| #[trigger] f(f(v, x), y) == f(f(v, y), x));
    }
    lemma_fold_left_permutation(inputs1, inputs2, f, 0int);
    assert(total_written(inputs2) == total_written(inputs1));
    assert(forall|i: int|
        0 <= i < inputs2.len() ==> (#[trigger] spec_parse_u64(inputs2[i])) is Some) by {
        assert(forall|i: int| 0 <= i < inputs2.len() ==> inputs1.contains(#[trigger] inputs2[i]))
            by {
            assert(forall|i: int|
                0 <= i < inputs2.len() ==> inputs2.to_multiset().count(#[trigger] inputs2[i]) > 0);
        }
    }
    lemma_accumulator_run_total(s0, inputs1);
    lemma_accumulator_run_total(s0, inputs2);
}

/// Round-trip idempotence: opening, writing, reading and closing handles
/// never mutates the table itself. Each such operation's contract says the
/// table's skeleton is preserved; this law says that preserving the
/// skeleton preserves every lookup — the same names resolve, to the same
/// mode and the same processor.
pub proof fn lemma_skeleton_preserves_lookup<P: ReadWrite>(
    before: HandlerMap<P>,
    after: HandlerMap<P>,
    name: Seq<char>,
)
    requires
        before.wf(),
        before.skeleton() == after.skeleton(),
    ensures
        after.wf(),
        after.has_name(name) == before.has_name(name),
        before.has_name(name) ==> after.handler_at(name).mode == before.handler_at(name).mode
            && after.handler_at(name).processor == before.handler_at(name).processor,
{
    assert(before.skeleton().len() == before.entries@.len());
    assert(after.skeleton().len() == after.entries@.len());
    assert forall|i: int|
        0 <= i < after.entries@.len() implies (#[trigger] after.entries@[i].0@)
            == before.entries@[i].0@ && after.entries@[i].1.mode == before.entries@[i].1.mode
            && after.entries@[i].1.processor == before.entries@[i].1.processor by {
        assert(after.skeleton()[i] == (
            after.entries@[i].0@,
            after.entries@[i].1.mode,
            after.entries@[i].1.processor,
        ));
        assert(before.skeleton()[i] == (
            before.entries@[i].0@,
            before.entries@[i].1.mode,
            before.entries@[i].1.processor,
        ));
        assert(after.skeleton()[i] == before.skeleton()[i]);
    }
    if before.has_name(name) {
        let i = before.index_of(name);
        assert(0 <= i < before.entries@.len() && before.entries@[i].0@ == name);
        assert(after.entries@[i].0@ == name);
        assert(after.has_name(name));
        let j = after.index_of(name);
        assert(0 <= j < after.entries@.len() && after.entries@[j].0@ == name);
        assert(before.entries@[j].0@ == name);
        assert(j == i);
    }
    if after.has_name(name) {
        let j = after.index_of(name);
        assert(before.entries@[j].0@ == name);
        assert(before.has_name(name));
    }
}

} // verus!
