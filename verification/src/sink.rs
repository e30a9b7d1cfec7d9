//! The event sink: a registry of subscribers keyed by event name.
//!
//! Publication is fan-out by name and nothing more: it computes which
//! subscribers an event reaches, in subscription order, and is defined for
//! every event name — an event nobody subscribed to reaches the empty list
//! and is thereby discarded, never an error.

use vstd::prelude::*;

use crate::text::str_eq;

verus! {

/// One subscription: a caller-facing token and the event name it listens to.
pub struct Subscription {
    pub token: u64,
    pub name: String,
}

/// The tokens of the subscriptions whose name matches, in subscription
/// order.
pub open spec fn tokens_for(subs: Seq<Subscription>, name: Seq<char>) -> Seq<u64>
    decreases subs.len(),
{
    if subs.len() == 0 {
        Seq::empty()
    } else {
        (if subs[0].name@ == name {
            seq![subs[0].token]
        } else {
            Seq::empty()
        }) + tokens_for(subs.drop_first(), name)
    }
}

pub proof fn lemma_tokens_for_append(s1: Seq<Subscription>, s2: Seq<Subscription>, name: Seq<char>)
    ensures
        tokens_for(s1 + s2, name) == tokens_for(s1, name) + tokens_for(s2, name),
    decreases s1.len(),
{
    if s1.len() == 0 {
        assert(s1 + s2 =~= s2);
        assert(tokens_for(s1, name) + tokens_for(s2, name) =~= tokens_for(s2, name));
    } else {
        assert((s1 + s2)[0] == s1[0]);
        assert((s1 + s2).drop_first() =~= s1.drop_first() + s2);
        lemma_tokens_for_append(s1.drop_first(), s2, name);
        let head = if s1[0].name@ == name {
            seq![s1[0].token]
        } else {
            Seq::<u64>::empty()
        };
        assert(head + (tokens_for(s1.drop_first(), name) + tokens_for(s2, name)) =~= (head
            + tokens_for(s1.drop_first(), name)) + tokens_for(s2, name));
    }
}

/// The process-wide publish point downstream listeners subscribe to.
pub struct EventSink {
    subs: Vec<Subscription>,
    next_token: u64,
}

impl EventSink {
    /// The current subscriptions, in the order they were made.
    pub closed spec fn subscriptions(self) -> Seq<Subscription> {
        self.subs@
    }

    /// The next subscription token to be issued.
    pub closed spec fn token_counter(self) -> u64 {
        self.next_token
    }

    pub fn new() -> (s: EventSink)
        ensures
            s.subscriptions() == Seq::<Subscription>::empty(),
            s.token_counter() == 1,
    {
        EventSink { subs: Vec::new(), next_token: 1 }
    }

    /// The token the next subscription would receive; the surrounding code
    /// guards against the counter ever reaching its ceiling.
    pub fn peek_next_token(&self) -> (r: u64)
        ensures
            r == self.token_counter(),
    {
        self.next_token
    }

    /// Registers a listener for one event name and returns its token.
    pub fn subscribe(&mut self, name: String) -> (token: u64)
        requires
            old(self).token_counter() < u64::MAX,
        ensures
            token == old(self).token_counter(),
            final(self).token_counter() == old(self).token_counter() + 1,
            final(self).subscriptions() == old(self).subscriptions().push(
                Subscription { token, name },
            ),
    {
        let token = self.next_token;
        self.next_token = token + 1;
        self.subs.push(Subscription { token, name });
        token
    }

    /// The tokens an event published under `name` is delivered to: exactly
    /// the subscribers of that name, in subscription order. Total for every
    /// name — with no subscriber the delivery list is empty and the event
    /// is simply discarded.
    pub fn publish(&self, name: &str) -> (r: Vec<u64>)
        ensures
            r@ == tokens_for(self.subscriptions(), name@),
    {
        let mut r: Vec<u64> = Vec::new();
        let n = self.subs.len();
        let mut i: usize = 0;
        while i < n
            invariant
                n == self.subs@.len(),
                i <= n,
                r@ == tokens_for(self.subs@.subrange(0, i as int), name@),
            decreases n - i,
        {
            let sub = &self.subs[i];
            proof {
                let prefix = self.subs@.subrange(0, i as int);
                let one = seq![self.subs@[i as int]];
                lemma_tokens_for_append(prefix, one, name@);
                assert(self.subs@.subrange(0, i as int + 1) =~= prefix + one);
                assert(one.drop_first() =~= Seq::<Subscription>::empty());
                assert(tokens_for(one.drop_first(), name@) == Seq::<u64>::empty());
            }
            if str_eq(sub.name.as_str(), name) {
                r.push(sub.token);
                proof {
                    let one = seq![self.subs@[i as int]];
                    assert(tokens_for(one, name@) =~= seq![self.subs@[i as int].token]);
                    assert(r@ =~= tokens_for(self.subs@.subrange(0, i as int + 1), name@));
                }
            } else {
                proof {
                    let one = seq![self.subs@[i as int]];
                    assert(tokens_for(one, name@) =~= Seq::<u64>::empty());
                    assert(r@ =~= tokens_for(self.subs@.subrange(0, i as int + 1), name@));
                }
            }
            i = i + 1;
        }
        proof {
            assert(self.subs@.subrange(0, n as int) =~= self.subs@);
        }
        r
    }
}

} // verus!
