//! One session of the supervised worker: the id counter, the pending-call
//! map, and the routing of every line the worker sends back.
//!
//! The surrounding tasks own the process and its streams; they hand this
//! state machine plain values (the method and parameter text of a call, one
//! raw output line at a time) and perform what it decides (write a line,
//! deliver an event, nothing).

use vstd::prelude::*;

use tokio::sync::oneshot::Receiver;
use tokio::sync::oneshot::Sender;

use crate::CallError;
use crate::correlator::Correlator;
use crate::encode::encode_request;
use crate::encode::has_no_newline;
use crate::encode::request_line;
use crate::jsonval::json_wf;
use crate::wire::Incoming;
use crate::wire::Outcome;
use crate::wire::decode_line;
use crate::wire::members_of;
use crate::wire::text_or_null;

verus! {

/// What one call has set up before its line is written: the issued id, the
/// framed request line, and the receiving half of the completion handle.
pub struct PreparedCall {
    pub id: u64,
    pub line: String,
    pub rx: Receiver<Outcome>,
}

/// What routing one classified message decides, with everything the
/// surrounding task needs to carry it out.
pub enum RouteAction {
    /// An event: hand `data` to the sink's subscribers of `name`.
    Deliver { name: String, data: String },
    /// A response for a pending id: fulfil this handle with this outcome.
    Fulfil { id: u64, to: Sender<Outcome>, outcome: Outcome },
    /// A response for an id no longer pending: drop it.
    DiscardStale { id: u64 },
    /// Not well-formed JSON: log and drop it.
    DiscardMalformed,
    /// Well-formed JSON of no routable shape: drop it.
    DiscardUnrouted,
}

/// What handling one output line did, for the reader task to act on and log.
pub enum Report {
    /// An event: deliver `data` to the subscribers of `name`.
    Published { name: String, data: String },
    /// A response fulfilled the pending call with this id; `delivered` is
    /// false when that caller had already gone away.
    Fulfilled { id: u64, delivered: bool },
    /// The line was not well-formed JSON: log it and carry on.
    DroppedMalformed,
    /// A response for an id with no pending entry — already resolved or
    /// timed out; expected for late responses, silently dropped.
    DroppedStale { id: u64 },
    /// Well-formed JSON of no routable shape.
    DroppedUnrouted,
}

/// How the await race of one call ended: the completion handle was
/// fulfilled, was dropped unfulfilled, or the timer fired first.
pub enum RaceOutcome {
    Resolved(Outcome),
    Closed,
    TimedOut,
}

/// The bookkeeping of one worker session.
pub struct Session {
    started: bool,
    next_id: u64,
    pending: Correlator,
}

impl Session {
    /// Whether a live session exists: the worker was spawned and its input
    /// stream is open.
    pub closed spec fn is_started(self) -> bool {
        self.started
    }

    /// The next request id to be issued.
    pub closed spec fn id_counter(self) -> u64 {
        self.next_id
    }

    /// The outstanding request ids, each with its completion handle.
    pub closed spec fn pending_map(self) -> Map<u64, Sender<Outcome>> {
        self.pending@
    }

    /// Ids are issued from 1 upward, and every outstanding id has already
    /// been issued — so a fresh id can never collide with one in flight,
    /// and no id is reused within a session.
    pub open spec fn inv(self) -> bool {
        &&& 1 <= self.id_counter()
        &&& forall|id: u64| self.pending_map().contains_key(id) ==> id < self.id_counter()
    }

    /// A fresh session: not started, ids from 1, nothing pending.
    pub fn new() -> (s: Session)
        ensures
            s.inv(),
            !s.is_started(),
            s.id_counter() == 1,
            s.pending_map() == Map::<u64, Sender<Outcome>>::empty(),
    {
        Session { started: false, next_id: 1, pending: Correlator::new() }
    }

    /// The supervisor spawned the worker and both stream readers: calls may
    /// be issued from now on.
    pub fn on_started(&mut self)
        requires
            old(self).inv(),
        ensures
            final(self).inv(),
            final(self).is_started(),
            final(self).id_counter() == old(self).id_counter(),
            final(self).pending_map() == old(self).pending_map(),
    {
        self.started = true;
        proof {
            assert(self.pending_map() == old(self).pending_map());
            assert forall|id: u64| self.pending_map().contains_key(id) implies id
                < self.id_counter() by {
                assert(old(self).pending_map().contains_key(id));
            }
        }
    }

    /// The worker exited or the session was torn down: no further calls,
    /// and every outstanding handle is discarded. Dropping the senders
    /// closes their channels, so abandoned callers observe that instead of
    /// hanging. The counter is kept, so ids stay unique across the run.
    pub fn on_exit(&mut self)
        requires
            old(self).inv(),
        ensures
            final(self).inv(),
            !final(self).is_started(),
            final(self).pending_map() == Map::<u64, Sender<Outcome>>::empty(),
            final(self).id_counter() == old(self).id_counter(),
    {
        self.started = false;
        self.pending.clear();
    }

    /// Whether a live session exists right now; `start` uses this to spawn
    /// at most one worker.
    pub fn live(&self) -> (r: bool)
        ensures
            r == self.is_started(),
    {
        self.started
    }

    /// The id the next call would be issued; the surrounding tasks guard
    /// against the counter ever reaching its ceiling.
    pub fn peek_next_id(&self) -> (r: u64)
        ensures
            r == self.id_counter(),
    {
        self.next_id
    }

    /// Sets up one call: issues the next id, frames the request line, and
    /// registers a fresh completion handle under the id.
    ///
    /// Without a live session this fails with `NotStarted` at once, changing
    /// nothing and framing no line. Otherwise the issued id is the counter's
    /// value — fresh by the invariant — the counter moves past it, and the
    /// returned line is exactly the encoding of this id, method and
    /// parameter text.
    pub fn prepare_call(&mut self, method: &str, params: &str) -> (r: Result<
        PreparedCall,
        CallError,
    >)
        requires
            old(self).inv(),
            old(self).id_counter() < u64::MAX,
            has_no_newline(params@),
        ensures
            final(self).inv(),
            final(self).is_started() == old(self).is_started(),
            !old(self).is_started() ==> (r matches Err(CallError::NotStarted)
                && final(self).id_counter() == old(self).id_counter()
                && final(self).pending_map() == old(self).pending_map()),
            old(self).is_started() ==> (r matches Ok(pc)
                && pc.id == old(self).id_counter()
                && !old(self).pending_map().contains_key(pc.id)
                && pc.line@ == request_line(pc.id as nat, method@, params@)
                && final(self).id_counter() == old(self).id_counter() + 1
                && final(self).pending_map().contains_key(pc.id)
                && final(self).pending_map().remove(pc.id) == old(self).pending_map()),
    {
        if !self.started {
            return Err(CallError::NotStarted);
        }
        let id = self.next_id;
        self.next_id = id + 1;
        let line = encode_request(id, method, params);
        let (tx, rx) = tokio::sync::oneshot::channel::<Outcome>();
        proof {
            assert(!old(self).pending_map().contains_key(id));
        }
        self.pending.register(id, tx);
        proof {
            assert(self.pending@.remove(id) =~= old(self).pending_map());
            assert forall|k: u64| self.pending_map().contains_key(k) implies k
                < self.id_counter() by {
                if k != id {
                    assert(old(self).pending_map().contains_key(k));
                }
            }
        }
        Ok(PreparedCall { id, line, rx })
    }

    /// The timeout path of one call: removes and discards the pending entry,
    /// so that a stray response arriving later finds nothing to resolve.
    pub fn cancel_call(&mut self, id: u64) -> (was_pending: bool)
        requires
            old(self).inv(),
        ensures
            final(self).inv(),
            final(self).is_started() == old(self).is_started(),
            final(self).id_counter() == old(self).id_counter(),
            was_pending == old(self).pending_map().contains_key(id),
            final(self).pending_map() == old(self).pending_map().remove(id),
    {
        let was_pending = self.pending.cancel(id);
        proof {
            assert forall|k: u64| self.pending_map().contains_key(k) implies k
                < self.id_counter() by {
                assert(old(self).pending_map().contains_key(k));
            }
        }
        was_pending
    }

    /// Settles one call from the end of its await race: a fulfilled handle
    /// yields the result text or the worker's error message, an abandoned
    /// handle `ChannelClosed`, and an elapsed timer `Timeout` — in which
    /// case, and only then, the call's pending entry is removed, so a stray
    /// late response finds nothing to resolve.
    pub fn settle_call(&mut self, id: u64, ended: RaceOutcome) -> (r: Result<String, CallError>)
        requires
            old(self).inv(),
        ensures
            final(self).inv(),
            final(self).is_started() == old(self).is_started(),
            final(self).id_counter() == old(self).id_counter(),
            match ended {
                RaceOutcome::Resolved(Outcome::Success(text)) => (r matches Ok(t) && t@ == text@)
                    && final(self).pending_map() == old(self).pending_map(),
                RaceOutcome::Resolved(Outcome::Failure(msg)) => (r matches Err(
                    CallError::RemoteError(m),
                ) && m@ == msg@) && final(self).pending_map() == old(self).pending_map(),
                RaceOutcome::Closed => r matches Err(CallError::ChannelClosed)
                    && final(self).pending_map() == old(self).pending_map(),
                RaceOutcome::TimedOut => r matches Err(CallError::Timeout)
                    && final(self).pending_map() == old(self).pending_map().remove(id),
            },
    {
        match ended {
            RaceOutcome::Resolved(Outcome::Success(text)) => Ok(text),
            RaceOutcome::Resolved(Outcome::Failure(msg)) => Err(CallError::RemoteError(msg)),
            RaceOutcome::Closed => Err(CallError::ChannelClosed),
            RaceOutcome::TimedOut => {
                self.cancel_call(id);
                Err(CallError::Timeout)
            },
        }
    }

    /// Handles one raw line of the worker's primary output stream.
    ///
    /// A line that is not well-formed JSON — and only such a line — is
    /// reported malformed and dropped; nothing else is touched, so the next
    /// line is handled exactly as it would have been. For every well-formed
    /// line the report follows the line's named members: an event is
    /// published with its name and data and leaves every pending call in
    /// place; a response resolves the pending entry of its own id and no
    /// other — the handle it fulfils is the one registered under that id
    /// (see `route`) — and an id no longer pending resolves nothing.
    pub fn handle_line(&mut self, line: &str) -> (r: Report)
        requires
            old(self).inv(),
        ensures
            final(self).inv(),
            final(self).is_started() == old(self).is_started(),
            final(self).id_counter() == old(self).id_counter(),
            r is DroppedMalformed <==> !json_wf(line@),
            json_wf(line@) ==> match members_of(line@).event {
                Some(name) => (r matches Report::Published { name: n, data: d }
                    && n@ == name && d@ == text_or_null(members_of(line@).data)),
                None => match members_of(line@).id {
                    Some(i) => if old(self).pending_map().contains_key(i) {
                        r matches Report::Fulfilled { id: rid, delivered } && rid == i
                    } else {
                        r matches Report::DroppedStale { id: rid } && rid == i
                    },
                    None => r is DroppedUnrouted,
                },
            },
            match r {
                Report::Fulfilled { id, delivered } => old(self).pending_map().contains_key(id)
                    && final(self).pending_map() == old(self).pending_map().remove(id),
                Report::DroppedStale { id } => !old(self).pending_map().contains_key(id)
                    && final(self).pending_map() == old(self).pending_map(),
                _ => final(self).pending_map() == old(self).pending_map(),
            },
    {
        let msg = decode_line(line);
        match self.route(msg) {
            RouteAction::Deliver { name, data } => Report::Published { name, data },
            RouteAction::Fulfil { id, to, outcome } => {
                let delivered = to.send(outcome).is_ok();
                Report::Fulfilled { id, delivered }
            },
            RouteAction::DiscardStale { id } => Report::DroppedStale { id },
            RouteAction::DiscardMalformed => Report::DroppedMalformed,
            RouteAction::DiscardUnrouted => Report::DroppedUnrouted,
        }
    }

    /// Routes one classified message. The contract pins the decision for
    /// every message: an event is delivered as it stands and leaves every
    /// pending call in place; a response for a pending id takes exactly the
    /// handle registered under that id — and no other — out of the map, to
    /// be fulfilled with the response's own outcome; everything else is
    /// discarded with nothing changed.
    pub fn route(&mut self, msg: Incoming) -> (a: RouteAction)
        requires
            old(self).inv(),
        ensures
            final(self).inv(),
            final(self).is_started() == old(self).is_started(),
            final(self).id_counter() == old(self).id_counter(),
            match msg {
                Incoming::Event { name, data } => (a matches RouteAction::Deliver { name: n, data: d }
                    && n@ == name@ && d@ == data@
                    && final(self).pending_map() == old(self).pending_map()),
                Incoming::Reply { id, outcome } => if old(self).pending_map().contains_key(id) {
                    a matches RouteAction::Fulfil { id: rid, to, outcome: oc }
                        && rid == id
                        && to == old(self).pending_map()[id]
                        && oc == outcome
                        && final(self).pending_map() == old(self).pending_map().remove(id)
                } else {
                    a matches RouteAction::DiscardStale { id: rid }
                        && rid == id
                        && final(self).pending_map() == old(self).pending_map()
                },
                Incoming::Malformed => a is DiscardMalformed
                    && final(self).pending_map() == old(self).pending_map(),
                Incoming::Unrouted => a is DiscardUnrouted
                    && final(self).pending_map() == old(self).pending_map(),
            },
    {
        match msg {
            Incoming::Malformed => RouteAction::DiscardMalformed,
            Incoming::Unrouted => RouteAction::DiscardUnrouted,
            Incoming::Event { name, data } => RouteAction::Deliver { name, data },
            Incoming::Reply { id, outcome } => {
                let resolved = self.pending.resolve(id);
                proof {
                    assert forall|k: u64| self.pending_map().contains_key(k) implies k
                        < self.id_counter() by {
                        assert(old(self).pending_map().contains_key(k));
                    }
                }
                match resolved {
                    Some(to) => RouteAction::Fulfil { id, to, outcome },
                    None => RouteAction::DiscardStale { id },
                }
            },
        }
    }
}

/// One allocation step of the id counter, as `prepare_call` performs it on a
/// live session: the issued id is the counter's value, and the counter moves
/// past it.
pub open spec fn issues_id(pre: Session, post: Session, id: u64) -> bool {
    id == pre.id_counter() && post.id_counter() == pre.id_counter() + 1
}

/// Law: ids never collide within a session. Every operation between two
/// calls leaves the counter equal or larger, so of two allocations the
/// earlier — the one whose post-state counter is no larger than the later
/// one's pre-state counter — issues a strictly smaller id.
pub proof fn lemma_ids_distinct(a0: Session, a1: Session, b0: Session, b1: Session, i: u64, j: u64)
    requires
        issues_id(a0, a1, i),
        issues_id(b0, b1, j),
        a1.id_counter() <= b0.id_counter(),
    ensures
        i < j,
{
}

} // verus!
