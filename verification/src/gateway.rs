use vstd::prelude::*;
use crate::error::{
    JanusError, JANUS_ERROR_GATEWAY_CONNECTION_CLOSED, JANUS_ERROR_GATEWAY_INTERNAL_ERROR,
    JANUS_ERROR_GATEWAY_TIMED_OUT,
};
use crate::json::str_eq;
use crate::response::JanusResponse;

verus! {

/// The pending-request table entries, keys abstracted to character sequences.
pub open spec fn txn_entries(entries: Seq<(String, bool)>) -> Seq<(Seq<char>, bool)> {
    entries.map_values(|p: (String, bool)| (p.0@, p.1))
}

/// The asynchronous flag filed under the first occurrence of a transaction.
pub open spec fn txn_lookup(entries: Seq<(Seq<char>, bool)>, t: Seq<char>) -> Option<bool>
    decreases entries.len(),
{
    if entries.len() == 0 {
        None
    } else if entries[0].0 == t {
        Some(entries[0].1)
    } else {
        txn_lookup(entries.drop_first(), t)
    }
}

/// How the reader task must treat one frame from the upstream socket.
#[derive(Debug, Clone, Copy, PartialEq, Eq, Structural)]
pub enum FrameDisposition {
    /// A pending request waits under this transaction: hand it the response.
    Deliver,
    /// The pending request is asynchronous and this is only its `ack`: keep
    /// waiting, deliver nothing.
    KeepPending,
    /// Nothing waits under this transaction: relay it to the session's event
    /// sink.
    Unsolicited,
}

/// How an awaited send attempt ended, as observed by the sender task.
#[derive(Debug, PartialEq)]
pub enum SendOutcome {
    /// The reader routed a response to the reply slot.
    Delivered(JanusResponse),
    /// The reply slot was dropped without an answer (the link died).
    SlotClosed,
    /// No answer arrived within the send timeout.
    TimedOut,
    /// The egress queue rejected the frame (the connection is gone).
    QueueClosed,
}

/// The request/response correlator of one upstream gateway connection: the
/// table of pending transactions. The socket itself and the timers live with
/// the caller; every decision about the table is made here.
pub struct JanusGateway {
    requests: Vec<(String, bool)>,
}

impl JanusGateway {
    /// The pending transactions, in insertion order.
    pub closed spec fn pending(&self) -> Seq<(Seq<char>, bool)> {
        txn_entries(self.requests@)
    }

    /// No transaction is filed twice.
    pub closed spec fn wf(&self) -> bool {
        forall|i: int, j: int|
            0 <= i < j < self.pending().len() ==> self.pending()[i].0 != self.pending()[j].0
    }

    pub fn new() -> (r: JanusGateway)
        ensures
            r.wf(),
            r.pending() == Seq::<(Seq<char>, bool)>::empty(),
    {
        let r = JanusGateway { requests: Vec::new() };
        proof {
            assert(r.pending() =~= Seq::<(Seq<char>, bool)>::empty());
        }
        r
    }

    /// The index of the entry for `t`, if one is pending.
    fn find(&self, t: &str) -> (r: Option<usize>)
        ensures
            match r {
                Some(i) => i < self.pending().len() && self.pending()[i as int].0 == t@ && forall|
                    j: int,
                |
                    0 <= j < i ==> self.pending()[j].0 != t@,
                None => txn_lookup(self.pending(), t@) is None,
            },
            r is Some ==> txn_lookup(self.pending(), t@) == Some(
                self.pending()[r.unwrap() as int].1,
            ),
    {
        proof {
            assert(self.pending().skip(0) =~= self.pending());
        }
        let mut i: usize = 0;
        while i < self.requests.len()
            invariant
                0 <= i <= self.requests@.len(),
                forall|j: int| 0 <= j < i ==> self.pending()[j].0 != t@,
                txn_lookup(self.pending(), t@) == txn_lookup(self.pending().skip(i as int), t@),
            decreases self.requests.len() - i,
        {
            if str_eq(self.requests[i].0.as_str(), t) {
                proof {
                    assert(self.pending().skip(i as int)[0] == self.pending()[i as int]);
                }
                return Some(i);
            }
            proof {
                assert(self.pending().skip(i as int).drop_first() =~= self.pending().skip(i + 1));
            }
            i = i + 1;
        }
        proof {
            assert(self.pending().skip(self.requests@.len() as int) =~= Seq::<
                (Seq<char>, bool),
            >::empty());
        }
        None
    }

    /// Whether a transaction is currently pending.
    pub fn is_pending(&self, t: &str) -> (r: bool)
        ensures
            r == (txn_lookup(self.pending(), t@) is Some),
    {
        self.find(t).is_some()
    }

    /// Files a fresh pending request under its transaction before the frame
    /// goes out. The transaction must not already be pending.
    pub fn begin_send(&mut self, transaction: String, asynchronous: bool)
        requires
            old(self).wf(),
            txn_lookup(old(self).pending(), transaction@) is None,
        ensures
            final(self).wf(),
            final(self).pending() == old(self).pending().push((transaction@, asynchronous)),
    {
        let ghost before = self.pending();
        proof {
            lemma_txn_none_no_key(before, transaction@);
        }
        self.requests.push((transaction, asynchronous));
        proof {
            assert(self.pending() =~= before.push((transaction@, asynchronous)));
        }
    }

    /// Routes one frame read from the upstream socket: an `ack` for an
    /// asynchronous request is swallowed and the entry stays; any other
    /// response for a pending transaction removes the entry and is delivered;
    /// everything else is an unsolicited event. An entry is never delivered
    /// to an asynchronous requester as an `ack`.
    pub fn on_frame(&mut self, response: &JanusResponse) -> (r: FrameDisposition)
        requires
            old(self).wf(),
        ensures
            final(self).wf(),
            txn_lookup(old(self).pending(), response.transaction@) is None ==> r
                == FrameDisposition::Unsolicited && final(self).pending() == old(self).pending(),
            (txn_lookup(old(self).pending(), response.transaction@) == Some(true)
                && response.janus@ == "ack"@) ==> r == FrameDisposition::KeepPending
                && final(self).pending() == old(self).pending(),
            (txn_lookup(old(self).pending(), response.transaction@) matches Some(a) && !(a
                && response.janus@ == "ack"@)) ==> r == FrameDisposition::Deliver && txn_lookup(
                final(self).pending(),
                response.transaction@,
            ) is None && forall|t: Seq<char>|
                t != response.transaction@ ==> #[trigger] txn_lookup(final(self).pending(), t)
                    == txn_lookup(old(self).pending(), t),
    {
        let idx = self.find(self.requests_key(response));
        match idx {
            None => FrameDisposition::Unsolicited,
            Some(i) => {
                let asynchronous = self.requests[i].1;
                if asynchronous && str_eq(response.janus.as_str(), "ack") {
                    FrameDisposition::KeepPending
                } else {
                    let ghost before = self.pending();
                    self.requests.remove(i);
                    proof {
                        assert(self.pending() =~= before.remove(i as int));
                        before.remove_ensures(i as int);
                        lemma_txn_remove(before, i as int, response.transaction@);
                    }
                    FrameDisposition::Deliver
                }
            },
        }
    }

    /// Settles a send attempt: whatever happened, the transaction is no
    /// longer pending afterwards, and every failure maps to its gateway
    /// error code.
    pub fn finish_send(&mut self, transaction: &String, outcome: SendOutcome) -> (r: Result<
        JanusResponse,
        JanusError,
    >)
        requires
            old(self).wf(),
        ensures
            final(self).wf(),
            txn_lookup(final(self).pending(), transaction@) is None,
            forall|t: Seq<char>|
                t != transaction@ ==> #[trigger] txn_lookup(final(self).pending(), t) == txn_lookup(
                    old(self).pending(),
                    t,
                ),
            match outcome {
                SendOutcome::Delivered(resp) => r == Ok::<JanusResponse, JanusError>(resp),
                SendOutcome::SlotClosed => r matches Err(e) && e.code
                    == JANUS_ERROR_GATEWAY_INTERNAL_ERROR,
                SendOutcome::TimedOut => r matches Err(e) && e.code
                    == JANUS_ERROR_GATEWAY_TIMED_OUT && e.reason@
                    == "Request to janus-gateway backend timed out"@,
                SendOutcome::QueueClosed => r matches Err(e) && e.code
                    == JANUS_ERROR_GATEWAY_CONNECTION_CLOSED,
            },
    {
        let idx = self.find(transaction.as_str());
        if let Some(i) = idx {
            let ghost before = self.pending();
            self.requests.remove(i);
            proof {
                assert(self.pending() =~= before.remove(i as int));
                before.remove_ensures(i as int);
                lemma_txn_remove(before, i as int, transaction@);
            }
        }
        match outcome {
            SendOutcome::Delivered(resp) => Ok(resp),
            SendOutcome::SlotClosed => Err(
                JanusError::new(
                    JANUS_ERROR_GATEWAY_INTERNAL_ERROR,
                    String::from_str("janus-gateway send() oneshot channel is closed"),
                ),
            ),
            SendOutcome::TimedOut => Err(
                JanusError::new(
                    JANUS_ERROR_GATEWAY_TIMED_OUT,
                    String::from_str("Request to janus-gateway backend timed out"),
                ),
            ),
            SendOutcome::QueueClosed => Err(
                JanusError::new(
                    JANUS_ERROR_GATEWAY_CONNECTION_CLOSED,
                    String::from_str("connection to janus-gateway closed"),
                ),
            ),
        }
    }

    /// Empties the table when the link dies; every outstanding sender then
    /// observes a closed reply slot.
    pub fn clear(&mut self)
        ensures
            final(self).wf(),
            final(self).pending() == Seq::<(Seq<char>, bool)>::empty(),
    {
        self.requests.clear();
        proof {
            assert(self.pending() =~= Seq::<(Seq<char>, bool)>::empty());
        }
    }

    fn requests_key<'a>(&self, response: &'a JanusResponse) -> (r: &'a str)
        ensures
            r@ == response.transaction@,
    {
        response.transaction.as_str()
    }
}

/// Removing the first entry for `t` from a duplicate-free table makes `t`
/// absent and leaves every other transaction as it was.
proof fn lemma_txn_remove(entries: Seq<(Seq<char>, bool)>, i: int, t: Seq<char>)
    requires
        0 <= i < entries.len(),
        entries[i].0 == t,
        forall|a: int, b: int| 0 <= a < b < entries.len() ==> entries[a].0 != entries[b].0,
    ensures
        txn_lookup(entries.remove(i), t) is None,
        forall|u: Seq<char>|
            u != t ==> #[trigger] txn_lookup(entries.remove(i), u) == txn_lookup(entries, u),
        forall|a: int, b: int|
            0 <= a < b < entries.remove(i).len() ==> entries.remove(i)[a].0 != entries.remove(
                i,
            )[b].0,
    decreases entries.len(),
{
    entries.remove_ensures(i);
    assert forall|a: int, b: int|
        0 <= a < b < entries.remove(i).len() implies entries.remove(i)[a].0 != entries.remove(
        i,
    )[b].0 by {
        let a2 = if a < i {
            a
        } else {
            a + 1
        };
        let b2 = if b < i {
            b
        } else {
            b + 1
        };
        assert(entries.remove(i)[a] == entries[a2]);
        assert(entries.remove(i)[b] == entries[b2]);
    }
    assert forall|j: int| 0 <= j < entries.remove(i).len() implies entries.remove(i)[j].0 != t by {
        let j2 = if j < i {
            j
        } else {
            j + 1
        };
        assert(entries.remove(i)[j] == entries[j2]);
    }
    lemma_txn_absent(entries.remove(i), t);
    assert forall|u: Seq<char>|
        u != t implies #[trigger] txn_lookup(entries.remove(i), u) == txn_lookup(entries, u) by {
        lemma_txn_lookup_remove_other(entries, i, u);
    }
}

/// A transaction that is not found is carried by no entry.
proof fn lemma_txn_none_no_key(entries: Seq<(Seq<char>, bool)>, t: Seq<char>)
    requires
        txn_lookup(entries, t) is None,
    ensures
        forall|j: int| 0 <= j < entries.len() ==> entries[j].0 != t,
    decreases entries.len(),
{
    if entries.len() > 0 {
        lemma_txn_none_no_key(entries.drop_first(), t);
        assert forall|j: int| 0 <= j < entries.len() implies entries[j].0 != t by {
            if j > 0 {
                assert(entries.drop_first()[j - 1] == entries[j]);
            }
        }
    }
}

/// A transaction carried by no entry is not found.
proof fn lemma_txn_absent(entries: Seq<(Seq<char>, bool)>, t: Seq<char>)
    requires
        forall|j: int| 0 <= j < entries.len() ==> entries[j].0 != t,
    ensures
        txn_lookup(entries, t) is None,
    decreases entries.len(),
{
    if entries.len() > 0 {
        lemma_txn_absent(entries.drop_first(), t);
    }
}

/// Removing some entry leaves the lookup of a different transaction alone.
proof fn lemma_txn_lookup_remove_other(entries: Seq<(Seq<char>, bool)>, i: int, u: Seq<char>)
    requires
        0 <= i < entries.len(),
        entries[i].0 != u,
    ensures
        txn_lookup(entries.remove(i), u) == txn_lookup(entries, u),
    decreases entries.len(),
{
    if i == 0 {
        assert(entries.remove(0) =~= entries.drop_first());
    } else {
        assert(entries.remove(i)[0] == entries[0]);
        assert(entries.remove(i).len() > 0);
        if entries[0].0 == u {
        } else {
            assert(entries.remove(i).drop_first() =~= entries.drop_first().remove(i - 1));
            lemma_txn_lookup_remove_other(entries.drop_first(), i - 1, u);
        }
    }
}

} // verus!
