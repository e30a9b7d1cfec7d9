//! The request correlator: one single-use completion handle per outstanding
//! request id, stored until a matching response resolves it or the caller's
//! timeout cancels it.
//!
//! The completion handles are tokio oneshot senders; the map operations and
//! their find-and-remove semantics are verified against the map's view.

use vstd::prelude::*;

use std::collections::HashMap;

use tokio::sync::oneshot::{Receiver, Sender};

use crate::wire::Outcome;

verus! {

broadcast use vstd::std_specs::hash::group_hash_axioms;

/// The sending half of a tokio oneshot channel: the completion handle a
/// response or timeout consumes exactly once.
#[verifier::external_type_specification]
#[verifier::external_body]
#[verifier::reject_recursive_types(T)]
pub struct ExSender<T>(Sender<T>);

/// The receiving half, awaited by the caller of one request.
#[verifier::external_type_specification]
#[verifier::external_body]
#[verifier::reject_recursive_types(T)]
pub struct ExReceiver<T>(Receiver<T>);

/// The error a receiver yields when its sender was dropped unfulfilled.
#[verifier::external_type_specification]
#[verifier::external_body]
pub struct ExRecvError(tokio::sync::oneshot::error::RecvError);

/// Relies on `tokio::sync::oneshot::channel`: a fresh single-use channel
/// pair. Nothing is claimed of it here; the tests exercise the link
/// between the two halves.
pub assume_specification<T>[ tokio::sync::oneshot::channel::<T> ]() -> (r: (Sender<T>, Receiver<
    T,
>));

/// Relies on `tokio::sync::oneshot::Sender::send`: consumes the sender and
/// hands the value to the receiving half, or returns it when the receiver is
/// already gone.
pub assume_specification<T>[ Sender::<T>::send ](s: Sender<T>, t: T) -> (r: Result<(), T>);

/// The pending-request map of one session.
pub struct Correlator {
    handles: HashMap<u64, Sender<Outcome>>,
}

impl View for Correlator {
    type V = Map<u64, Sender<Outcome>>;

    /// The map from outstanding request id to its completion handle.
    closed spec fn view(&self) -> Map<u64, Sender<Outcome>> {
        self.handles@
    }
}

impl Correlator {
    pub fn new() -> (c: Correlator)
        ensures
            c@ == Map::<u64, Sender<Outcome>>::empty(),
    {
        Correlator { handles: HashMap::new() }
    }

    /// Stores the completion handle for a request that is about to be
    /// written. An id already present would mean a second handle for one
    /// request; session-unique id generation rules that out.
    pub fn register(&mut self, id: u64, tx: Sender<Outcome>)
        requires
            !old(self)@.contains_key(id),
        ensures
            final(self)@ == old(self)@.insert(id, tx),
    {
        self.handles.insert(id, tx);
    }

    /// Find-and-remove: the handle registered under `id`, if it is still
    /// outstanding. A late or unknown id finds nothing and changes nothing.
    pub fn resolve(&mut self, id: u64) -> (r: Option<Sender<Outcome>>)
        ensures
            old(self)@.contains_key(id) ==> r == Some(old(self)@[id]) && final(self)@ == old(
                self,
            )@.remove(id),
            !old(self)@.contains_key(id) ==> r is None && final(self)@ == old(self)@,
    {
        let r = self.handles.remove(&id);
        proof {
            if !old(self)@.contains_key(id) {
                assert(old(self)@.remove(id) =~= old(self)@);
            }
        }
        r
    }

    /// Removes and discards the handle for `id` without fulfilling it; the
    /// timeout cleanup path. Reports whether an entry was still there.
    pub fn cancel(&mut self, id: u64) -> (was_pending: bool)
        ensures
            was_pending == old(self)@.contains_key(id),
            final(self)@ == old(self)@.remove(id),
    {
        let removed = self.handles.remove(&id);
        removed.is_some()
    }

    /// Discards every outstanding handle; dropping the senders closes their
    /// channels, so each abandoned caller observes that rather than hanging.
    pub fn clear(&mut self)
        ensures
            final(self)@ == Map::<u64, Sender<Outcome>>::empty(),
    {
        self.handles.clear();
        proof {
            assert(self@ =~= Map::<u64, Sender<Outcome>>::empty());
        }
    }
}

/// Law: resolution is keyed strictly by id. Taking the handle registered
/// under one id out of the map leaves the entry of every other id in place,
/// with its own handle — so no outcome can reach a call other than the one
/// whose id the response carries.
pub proof fn lemma_no_cross_delivery(m: Map<u64, Sender<Outcome>>, i: u64, j: u64)
    requires
        m.contains_key(i),
        m.contains_key(j),
        i != j,
    ensures
        m.remove(i).contains_key(j),
        m.remove(i)[j] == m[j],
{
}

} // verus!
