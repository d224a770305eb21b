//! The state-transition requests carried by the channel, and the arithmetic
//! they induce on the counter.

use vstd::prelude::*;

verus! {

/// A request to transition the counter: each UI click produces exactly one.
#[derive(Clone, Copy, PartialEq, Eq, Structural, Debug)]
pub enum Msg {
    Increment,
    Decrement,
}

/// The amount a single message moves the counter by.
pub open spec fn delta(m: Msg) -> int {
    match m {
        Msg::Increment => 1,
        Msg::Decrement => -1,
    }
}

/// The total movement of the counter after draining `s` in order.
pub open spec fn sum_deltas(s: Seq<Msg>) -> int
    decreases s.len(),
{
    if s.len() == 0 {
        0
    } else {
        sum_deltas(s.drop_last()) + delta(s.last())
    }
}

/// How many of the messages in `s` are `Increment`.
pub open spec fn num_increments(s: Seq<Msg>) -> nat
    decreases s.len(),
{
    if s.len() == 0 {
        0
    } else {
        num_increments(s.drop_last()) + if s.last() is Increment {
            1nat
        } else {
            0nat
        }
    }
}

/// How many of the messages in `s` are `Decrement`.
pub open spec fn num_decrements(s: Seq<Msg>) -> nat
    decreases s.len(),
{
    if s.len() == 0 {
        0
    } else {
        num_decrements(s.drop_last()) + if s.last() is Decrement {
            1nat
        } else {
            0nat
        }
    }
}

/// Appending one message moves the total by that message's delta.
pub proof fn lemma_sum_deltas_push(s: Seq<Msg>, m: Msg)
    ensures
        sum_deltas(s.push(m)) == sum_deltas(s) + delta(m),
{
    assert(s.push(m).drop_last() =~= s);
    assert(s.push(m).last() == m);
}

/// A drained sequence of `n` messages moves the counter by at most `n` in
/// either direction.
pub proof fn lemma_sum_deltas_bound(s: Seq<Msg>)
    ensures
        -(s.len() as int) <= sum_deltas(s) <= s.len() as int,
    decreases s.len(),
{
    if s.len() > 0 {
        lemma_sum_deltas_bound(s.drop_last());
    }
}

/// The counter's final value depends only on how many increments and how many
/// decrements were delivered, not on their order: the total movement is one
/// per `Increment` minus one per `Decrement`.
pub proof fn lemma_sum_deltas_counts(s: Seq<Msg>)
    ensures
        sum_deltas(s) == num_increments(s) - num_decrements(s),
    decreases s.len(),
{
    if s.len() > 0 {
        lemma_sum_deltas_counts(s.drop_last());
    }
}

/// Draining no messages leaves the counter exactly where it started.
pub proof fn lemma_no_messages(s: Seq<Msg>)
    requires
        s.len() == 0,
    ensures
        sum_deltas(s) == 0,
{
}

/// An `Increment` followed immediately by a `Decrement` returns the running
/// total to its prior value, whatever messages were delivered before the pair.
pub proof fn lemma_round_trip(s: Seq<Msg>)
    ensures
        sum_deltas(s.push(Msg::Increment).push(Msg::Decrement)) == sum_deltas(s),
{
    lemma_sum_deltas_push(s, Msg::Increment);
    lemma_sum_deltas_push(s.push(Msg::Increment), Msg::Decrement);
}

} // verus!
