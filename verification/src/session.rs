//! The turn-stream discipline shared by every backend.
//!
//! A `receive_response` reader yields messages until the first result
//! message, result included, then stops; it never yields a second result in
//! the same call. [`ResponseCursor`] is that rule as a state machine, and
//! the lemmas at the end state it once and for all over whole message
//! sequences.

use vstd::prelude::*;

use crate::types::{Message, MessageV};

verus! {

/// Whether a message is a result message.
pub open spec fn is_result_v(m: MessageV) -> bool {
    m is Result
}

/// The prefix of a message sequence a response reader delivers: everything
/// up to and including the first result message, or everything when no
/// result occurs.
pub open spec fn response_prefix_v(s: Seq<MessageV>) -> Seq<MessageV>
    decreases s.len(),
{
    if s.len() == 0 {
        Seq::empty()
    } else if is_result_v(s[0]) {
        seq![s[0]]
    } else {
        seq![s[0]] + response_prefix_v(s.drop_first())
    }
}

/// One `receive_response` call, as a state machine: each incoming message
/// is either delivered or not, and after delivering a result the cursor is
/// done and delivers nothing more.
pub struct ResponseCursor {
    done: bool,
}

impl ResponseCursor {
    /// Whether this cursor has delivered its result message.
    pub closed spec fn is_done(&self) -> bool {
        self.done
    }

    /// A cursor at the start of a turn.
    pub fn new() -> (r: Self)
        ensures
            !r.is_done(),
    {
        ResponseCursor { done: false }
    }

    /// Whether the turn's messages are over.
    pub fn finished(&self) -> (r: bool)
        ensures
            r == self.is_done(),
    {
        self.done
    }

    /// Feed one incoming message: `true` exactly when the message is to be
    /// delivered to the caller. A result message is delivered and ends the
    /// stream; after that nothing is delivered.
    pub fn step(&mut self, m: &Message) -> (deliver: bool)
        ensures
            deliver == !old(self).is_done(),
            final(self).is_done() == (old(self).is_done() || is_result_v(m.dv())),
    {
        if self.done {
            false
        } else {
            if let Message::Result(_) = m {
                self.done = true;
            }
            true
        }
    }
}

/// Deliver one turn's worth of a message sequence: the prefix up to and
/// including its first result message.
pub fn response_prefix(msgs: &Vec<Message>) -> (r: Vec<Message>)
    ensures
        r@.map_values(|m: Message| m.dv()) == response_prefix_v(
            msgs@.map_values(|m: Message| m.dv()),
        ),
{
    let ghost sv = msgs@.map_values(|m: Message| m.dv());
    let mut out: Vec<Message> = Vec::new();
    let mut cursor = ResponseCursor::new();
    proof {
        assert(sv.skip(0) =~= sv);
        assert(out@.map_values(|m: Message| m.dv()) =~= Seq::<MessageV>::empty());
    }
    let n = msgs.len();
    let mut i: usize = 0;
    #[verifier::loop_isolation(false)]
    while i < n
        invariant
            i <= n,
            !cursor.is_done() ==> out@.map_values(|m: Message| m.dv()) + response_prefix_v(
                sv.skip(i as int),
            ) == response_prefix_v(sv),
            cursor.is_done() ==> out@.map_values(|m: Message| m.dv()) == response_prefix_v(sv),
        decreases n - i,
    {
        let ghost was_done = cursor.is_done();
        let deliver = cursor.step(&msgs[i]);
        if deliver {
            let ghost old_out = out@;
            out.push(msgs[i].clone());
            proof {
                assert(out@.map_values(|m: Message| m.dv()) =~= old_out.map_values(
                    |m: Message| m.dv(),
                ).push(sv[i as int]));
            }
        }
        proof {
            lemma_response_prefix_step(sv, i as int);
            if !was_done {
                if is_result_v(sv[i as int]) {
                    assert(out@.map_values(|m: Message| m.dv()) =~= response_prefix_v(sv));
                } else {
                    assert(out@.map_values(|m: Message| m.dv()) + response_prefix_v(
                        sv.skip(i + 1),
                    ) =~= response_prefix_v(sv));
                }
            }
        }
        i += 1;
    }
    proof {
        if !cursor.is_done() {
            assert(sv.skip(n as int) =~= Seq::<MessageV>::empty());
            assert(out@.map_values(|m: Message| m.dv()) + Seq::<MessageV>::empty() =~= out@
                .map_values(|m: Message| m.dv()));
        }
    }
    out
}

/// Unfolding the delivered prefix one message at a time.
proof fn lemma_response_prefix_step(s: Seq<MessageV>, i: int)
    requires
        0 <= i < s.len(),
    ensures
        response_prefix_v(s.skip(i)) == (if is_result_v(s[i]) {
            seq![s[i]]
        } else {
            seq![s[i]] + response_prefix_v(s.skip(i + 1))
        }),
{
    assert(s.skip(i)[0] == s[i]);
    assert(s.skip(i).drop_first() =~= s.skip(i + 1));
}

/// How many result messages a sequence holds.
pub open spec fn count_results_v(s: Seq<MessageV>) -> int
    decreases s.len(),
{
    if s.len() == 0 {
        0
    } else {
        (if is_result_v(s[0]) {
            1int
        } else {
            0int
        }) + count_results_v(s.drop_first())
    }
}

/// A response reader always terminates on the first result message and
/// never yields a second one in the same call: what it delivers is a prefix
/// of the turn's messages, it holds at most one result message, and if it
/// holds one, that result is its last message.
pub proof fn lemma_response_terminates_at_first_result(s: Seq<MessageV>)
    ensures
        response_prefix_v(s).is_prefix_of(s),
        count_results_v(response_prefix_v(s)) <= 1,
        count_results_v(response_prefix_v(s)) == 1 ==> is_result_v(response_prefix_v(s).last())
            && response_prefix_v(s).len() >= 1,
        count_results_v(s) >= 1 ==> count_results_v(response_prefix_v(s)) == 1,
    decreases s.len(),
{
    if s.len() == 0 {
        assert(response_prefix_v(s) =~= Seq::<MessageV>::empty());
        assert(response_prefix_v(s).is_prefix_of(s));
    } else if is_result_v(s[0]) {
        let p = response_prefix_v(s);
        assert(p == seq![s[0]]);
        assert(p.drop_first() =~= Seq::<MessageV>::empty());
        assert(count_results_v(p.drop_first()) == 0);
        assert(p[0] == s[0]);
        assert(count_results_v(p) == 1);
        assert(p =~= s.take(1));
        assert(p.is_prefix_of(s));
    } else {
        lemma_response_terminates_at_first_result(s.drop_first());
        let p = response_prefix_v(s);
        let q = response_prefix_v(s.drop_first());
        assert(p == seq![s[0]] + q);
        assert(p.drop_first() =~= q);
        assert(count_results_v(p) == count_results_v(q));
        assert(q.is_prefix_of(s.drop_first()));
        assert(p =~= s.take(p.len() as int));
        assert(p.is_prefix_of(s));
        if count_results_v(p) == 1 {
            assert(q.len() >= 1);
            assert(p.last() == q.last());
        }
        assert(count_results_v(s) == count_results_v(s.drop_first()));
    }
}

} // verus!
