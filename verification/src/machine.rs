//! The shape shared by every state machine of this crate, and what holds of
//! all of them.

use vstd::prelude::*;
use vstd::multiset::Multiset;
use crate::handle::{acquired_by, released_by};
use crate::syscall::{Reply, SysCall};

verus! {

/// A state machine that talks to the operating system through requests and
/// answers. While a request is pending the embedding program performs it and
/// feeds the answer to [`Machine::advance`]; a machine without a pending
/// request has finished.
pub trait Machine: Sized {
    /// The request the machine waits on, or `None` once it has finished.
    spec fn spec_pending(&self) -> Option<SysCall>;

    /// The state that follows when `reply` answers the pending request.
    spec fn spec_advance(self, reply: Reply) -> Self;

    /// An invariant of the machine: it holds of every state a machine is
    /// started in, and every step keeps it.
    spec fn well_formed(&self) -> bool;

    /// An upper bound on the answers the machine still consumes before it
    /// has finished.
    spec fn steps_left(&self) -> nat;

    /// The handles the machine owns in this state, each as often as it owns
    /// it.
    spec fn held(&self) -> Multiset<usize>;

    /// A finished machine ignores every answer.
    proof fn finished_is_final(self, reply: Reply)
        requires
            self.well_formed(),
            self.spec_pending() is None,
        ensures
            self.spec_advance(reply) == self,
    ;

    /// A step leads from a well-formed state to a well-formed state.
    proof fn advance_keeps_well_formed(self, reply: Reply)
        requires
            self.well_formed(),
        ensures
            self.spec_advance(reply).well_formed(),
    ;

    /// A step accounts for every handle: what the machine owns afterwards,
    /// together with what its request released, is what it owned before
    /// together with what the answer brought.
    proof fn advance_keeps_ledger(self, reply: Reply)
        requires
            self.well_formed(),
        ensures
            self.spec_advance(reply).held().add(released_by(self.spec_pending()))
                == self.held().add(acquired_by(self.spec_pending(), reply)),
    ;

    /// Each answer brings a machine that waits on a request closer to its
    /// end.
    proof fn advance_uses_a_step(self, reply: Reply)
        requires
            self.well_formed(),
            self.spec_pending() is Some,
        ensures
            self.spec_advance(reply).steps_left() < self.steps_left(),
    ;

    /// The request the machine waits on, or `None` once it has finished.
    fn pending(&self) -> (call: Option<SysCall>)
        ensures
            call == self.spec_pending(),
    ;

    /// Consumes the answer to the pending request.
    fn advance(self, reply: Reply) -> (next: Self)
        ensures
            next == self.spec_advance(reply),
    ;
}

/// The state a machine is in after it has consumed `replies` in order.
pub open spec fn after<M: Machine>(m: M, replies: Seq<Reply>) -> M
    decreases replies.len(),
{
    if replies.len() == 0 {
        m
    } else {
        after(m, replies.drop_last()).spec_advance(replies.last())
    }
}

/// The request that was pending when the `k`-th of `replies` arrived.
pub open spec fn call_at<M: Machine>(m: M, replies: Seq<Reply>, k: int) -> Option<SysCall> {
    after(m, replies.take(k)).spec_pending()
}

/// The requests a machine has issued while it consumed `replies`: one for each
/// answer that arrived while a request was pending, in order.
pub open spec fn calls<M: Machine>(m: M, replies: Seq<Reply>) -> Seq<SysCall>
    decreases replies.len(),
{
    if replies.len() == 0 {
        Seq::empty()
    } else {
        let before = calls(m, replies.drop_last());
        match after(m, replies.drop_last()).spec_pending() {
            Some(call) => before.push(call),
            None => before,
        }
    }
}

/// The handles that the answers `replies` brought to the machine.
pub open spec fn acquired<M: Machine>(m: M, replies: Seq<Reply>) -> Multiset<usize>
    decreases replies.len(),
{
    if replies.len() == 0 {
        Multiset::empty()
    } else {
        acquired(m, replies.drop_last()).add(
            acquired_by(after(m, replies.drop_last()).spec_pending(), replies.last()),
        )
    }
}

/// The handles that the machine's requests released while it consumed
/// `replies`.
pub open spec fn released<M: Machine>(m: M, replies: Seq<Reply>) -> Multiset<usize>
    decreases replies.len(),
{
    if replies.len() == 0 {
        Multiset::empty()
    } else {
        released(m, replies.drop_last()).add(
            released_by(after(m, replies.drop_last()).spec_pending()),
        )
    }
}

/// Consuming `first` and then `second` is consuming their concatenation.
pub proof fn after_concat<M: Machine>(m: M, first: Seq<Reply>, second: Seq<Reply>)
    ensures
        after(m, first + second) == after(after(m, first), second),
    decreases second.len(),
{
    if second.len() == 0 {
        assert(first + second =~= first);
    } else {
        after_concat(m, first, second.drop_last());
        assert((first + second).drop_last() =~= first + second.drop_last());
        assert((first + second).last() == second.last());
    }
}

/// The state after `k + 1` answers follows from the state after `k`.
pub proof fn after_take_step<M: Machine>(m: M, replies: Seq<Reply>, k: int)
    requires
        0 <= k < replies.len(),
    ensures
        after(m, replies.take(k + 1)) == after(m, replies.take(k)).spec_advance(replies[k]),
{
    assert(replies.take(k + 1).drop_last() =~= replies.take(k));
    assert(replies.take(k + 1).last() == replies[k]);
}

/// Once a machine has finished, no further answer changes it.
pub proof fn finished_stays_finished<M: Machine>(m: M, replies: Seq<Reply>)
    requires
        m.well_formed(),
        m.spec_pending() is None,
    ensures
        after(m, replies) == m,
    decreases replies.len(),
{
    if replies.len() > 0 {
        finished_stays_finished(m, replies.drop_last());
        m.finished_is_final(replies.last());
    }
}

/// A machine that has finished after `i` answers is in the same state after
/// any `j >= i` of them.
pub proof fn finished_prefix_decides<M: Machine>(m: M, replies: Seq<Reply>, i: int, j: int)
    requires
        m.well_formed(),
        0 <= i <= j <= replies.len(),
        call_at(m, replies, i) is None,
    ensures
        after(m, replies.take(j)) == after(m, replies.take(i)),
{
    let head = replies.take(i);
    let tail = replies.subrange(i, j);
    assert(replies.take(j) =~= head + tail);
    after_concat(m, head, tail);
    stays_well_formed(m, head);
    finished_stays_finished(after(m, head), tail);
}

/// A machine that starts well-formed is well-formed after any answers.
pub proof fn stays_well_formed<M: Machine>(m: M, replies: Seq<Reply>)
    requires
        m.well_formed(),
    ensures
        after(m, replies).well_formed(),
    decreases replies.len(),
{
    if replies.len() > 0 {
        stays_well_formed(m, replies.drop_last());
        after(m, replies.drop_last()).advance_keeps_well_formed(replies.last());
    }
}

/// No handle is lost and none is released twice: after any answers, the
/// handles the machine still owns together with those it released are the
/// handles it started with together with those it acquired.
pub proof fn ledger_balanced<M: Machine>(m: M, replies: Seq<Reply>)
    requires
        m.well_formed(),
    ensures
        after(m, replies).held().add(released(m, replies)) == m.held().add(
            acquired(m, replies),
        ),
    decreases replies.len(),
{
    if replies.len() == 0 {
        assert(m.held().add(Multiset::empty()) =~= m.held());
    } else {
        let head = replies.drop_last();
        let before = after(m, head);
        ledger_balanced(m, head);
        stays_well_formed(m, head);
        before.advance_keeps_ledger(replies.last());
        let rel = released_by(before.spec_pending());
        let acq = acquired_by(before.spec_pending(), replies.last());
        assert(after(m, replies).held().add(released(m, head).add(rel)) =~= after(
            m,
            replies,
        ).held().add(rel).add(released(m, head)));
        assert(before.held().add(acq).add(released(m, head)) =~= before.held().add(
            released(m, head),
        ).add(acq));
        assert(m.held().add(acquired(m, head)).add(acq) =~= m.held().add(
            acquired(m, head).add(acq),
        ));
    }
}

/// The steps that are left after any answers.
proof fn steps_after<M: Machine>(m: M, replies: Seq<Reply>)
    requires
        m.well_formed(),
    ensures
        after(m, replies).spec_pending() is None || after(m, replies).steps_left() + replies.len()
            <= m.steps_left(),
    decreases replies.len(),
{
    if replies.len() > 0 {
        let head = replies.drop_last();
        steps_after(m, head);
        stays_well_formed(m, head);
        if after(m, head).spec_pending() is Some {
            after(m, head).advance_uses_a_step(replies.last());
        } else {
            after(m, head).finished_is_final(replies.last());
        }
    }
}

/// No machine runs on without end: whatever the answers are, a machine has
/// finished once it has consumed as many of them as it had steps left at the
/// start.
pub proof fn finishes_within_its_steps<M: Machine>(m: M, replies: Seq<Reply>)
    requires
        m.well_formed(),
        replies.len() >= m.steps_left(),
    ensures
        after(m, replies).spec_pending() is None,
{
    steps_after(m, replies);
    stays_well_formed(m, replies);
    if after(m, replies).spec_pending() is Some {
        after(m, replies).advance_uses_a_step(Reply::Done);
    }
}

/// A machine that started with nothing and ends with nothing has released
/// exactly what it acquired: every handle its answers brought was given back
/// by one of its requests, once for each time it was brought.
pub proof fn nothing_held_means_all_released<M: Machine>(m: M, replies: Seq<Reply>)
    requires
        m.well_formed(),
        m.held() == Multiset::<usize>::empty(),
        after(m, replies).held() == Multiset::<usize>::empty(),
    ensures
        released(m, replies) == acquired(m, replies),
{
    ledger_balanced(m, replies);
    assert(Multiset::<usize>::empty().add(released(m, replies)) =~= released(m, replies));
    assert(Multiset::<usize>::empty().add(acquired(m, replies)) =~= acquired(m, replies));
}

/// Feeds recorded answers to a machine, one after the other, and returns the
/// state it ends in together with the requests it issued on the way. Answers
/// that arrive after the machine has finished change nothing.
pub fn replay<M: Machine>(m: M, replies: &Vec<Reply>) -> (end: (M, Vec<SysCall>))
    ensures
        end.0 == after(m, replies@),
        end.1@ == calls(m, replies@),
{
    let mut current = m;
    let mut issued: Vec<SysCall> = Vec::new();
    let mut i: usize = 0;
    while i < replies.len()
        invariant
            i <= replies.len(),
            current == after(m, replies@.take(i as int)),
            issued@ == calls(m, replies@.take(i as int)),
        decreases replies.len() - i,
    {
        proof {
            assert(replies@.take(i + 1).drop_last() =~= replies@.take(i as int));
            assert(replies@.take(i + 1).last() == replies@[i as int]);
        }
        match current.pending() {
            Some(call) => {
                issued.push(call);
            },
            None => {},
        }
        current = current.advance(replies[i]);
        i += 1;
    }
    proof {
        assert(replies@.take(replies@.len() as int) =~= replies@);
    }
    (current, issued)
}

} // verus!
