//! The reducer: sole owner and sole mutator of the counter. It drains the
//! channel in FIFO order, applies each message, and renders the display text
//! after every transition. Also the event wiring: the decision a click handler
//! makes, namely send and silently drop on a full queue.

use vstd::prelude::*;

use crate::channel::Channel;
use crate::msg::Msg;
use crate::msg::delta;
use crate::msg::lemma_sum_deltas_bound;
use crate::msg::lemma_sum_deltas_counts;
use crate::msg::lemma_sum_deltas_push;
use crate::msg::num_decrements;
use crate::msg::num_increments;
use crate::msg::sum_deltas;
use crate::render::render_count;
use crate::render::render_of;

verus! {

/// The counter, owned exclusively by the reducer. States are all integers the
/// machine type holds; the initial state is 0.
pub struct State {
    pub count: i32,
}

impl State {
    /// The initial state: a counter at 0.
    pub fn new() -> (s: State)
        ensures
            s.count == 0,
    {
        State { count: 0 }
    }

    /// One transition: `Increment` moves the counter to `n + 1`, `Decrement`
    /// to `n - 1`.
    pub fn update(&mut self, msg: Msg)
        requires
            msg is Increment ==> old(self).count < i32::MAX,
            msg is Decrement ==> old(self).count > i32::MIN,
        ensures
            final(self).count == old(self).count + delta(msg),
    {
        match msg {
            Msg::Increment => {
                self.count = self.count + 1;
            },
            Msg::Decrement => {
                self.count = self.count - 1;
            },
        }
    }

    /// The display text for the current counter value.
    pub fn render(&self) -> (t: String)
        ensures
            t@ == render_of(self.count as int),
    {
        render_count(self.count)
    }

    /// One full reducer iteration: apply the message, then render the new
    /// counter value.
    pub fn step(&mut self, msg: Msg) -> (text: String)
        requires
            msg is Increment ==> old(self).count < i32::MAX,
            msg is Decrement ==> old(self).count > i32::MIN,
        ensures
            final(self).count == old(self).count + delta(msg),
            text@ == render_of(final(self).count as int),
    {
        self.update(msg);
        self.render()
    }

    /// Drains every buffered message in FIFO order, applying each and
    /// rendering after each transition. Returns the rendered texts in order,
    /// one per message: the counter ends at its start value plus one per
    /// `Increment` minus one per `Decrement`, and the i-th render shows the
    /// counter after the first `i + 1` messages.
    pub fn drain(&mut self, ch: &mut Channel) -> (renders: Vec<String>)
        requires
            old(self).count + old(ch)@.len() <= i32::MAX,
            old(self).count - old(ch)@.len() >= i32::MIN,
        ensures
            final(ch)@.len() == 0,
            final(ch).spec_capacity() == old(ch).spec_capacity(),
            final(self).count == old(self).count + sum_deltas(old(ch)@),
            final(self).count == old(self).count + num_increments(old(ch)@) - num_decrements(
                old(ch)@,
            ),
            renders@.len() == old(ch)@.len(),
            forall|i: int|
                0 <= i < renders@.len() ==> renders@[i]@ == render_of(
                    old(self).count + sum_deltas(old(ch)@.take(i + 1)),
                ),
    {
        let ghost msgs = ch@;
        let ghost c0 = self.count as int;
        let ghost cap = ch.spec_capacity();
        let mut renders: Vec<String> = Vec::new();
        while ch.len() > 0
            invariant
                ch.spec_capacity() == cap,
                renders@.len() <= msgs.len(),
                ch@ =~= msgs.skip(renders@.len() as int),
                self.count as int == c0 + sum_deltas(msgs.take(renders@.len() as int)),
                c0 + msgs.len() <= i32::MAX,
                c0 - msgs.len() >= i32::MIN,
                forall|i: int|
                    0 <= i < renders@.len() ==> renders@[i]@ == render_of(
                        c0 + sum_deltas(msgs.take(i + 1)),
                    ),
            decreases ch@.len(),
        {
            let ghost k = renders@.len() as int;
            let received = ch.try_recv();
            if let Some(m) = received {
                proof {
                    assert(m == msgs[k]);
                    assert(msgs.take(k + 1) =~= msgs.take(k).push(m));
                    lemma_sum_deltas_push(msgs.take(k), m);
                    lemma_sum_deltas_bound(msgs.take(k + 1));
                    assert(ch@ =~= msgs.skip(k + 1));
                }
                let text = self.step(m);
                renders.push(text);
            }
        }
        proof {
            assert(msgs.take(msgs.len() as int) =~= msgs);
            lemma_sum_deltas_counts(msgs);
        }
        renders
    }
}

/// The decision a click handler makes: attempt one non-blocking send of the
/// button's message and report whether it was accepted. A full queue drops
/// the message; it never blocks and never reaches the user.
pub fn on_click(ch: &mut Channel, msg: Msg) -> (sent: bool)
    ensures
        final(ch).spec_capacity() == old(ch).spec_capacity(),
        sent <==> old(ch)@.len() < old(ch).spec_capacity(),
        sent ==> final(ch)@ == old(ch)@.push(msg),
        !sent ==> final(ch)@ == old(ch)@,
{
    match ch.try_send(msg) {
        Ok(_) => true,
        Err(_) => false,
    }
}

} // verus!
