use vstd::prelude::*;

use std::collections::HashMap;

use futures_channel::mpsc::UnboundedSender;
use futures_channel::oneshot;

verus! {

broadcast use vstd::std_specs::hash::group_hash_axioms;

/// The abstract state of a correlation table.
pub struct TableState {
    /// Identifiers of the calls that are in flight.
    pub pending: Set<usize>,
    /// The identifier that the next call will get.
    pub next_id: nat,
    /// Identifiers pushed onto the outbound channel, in order.
    pub sent: Seq<usize>,
    /// Identifiers whose entry was removed by a delivered response, in order.
    pub delivered: Seq<usize>,
    /// Identifiers whose entry was removed by a cancellation, in order.
    pub withdrawn: Seq<usize>,
    /// Identifiers pushed onto the cancellation channel, in order.
    pub notices: Seq<usize>,
}

impl TableState {
    /// The state of a table that has issued nothing yet.
    pub open spec fn initial() -> TableState {
        TableState {
            pending: Set::empty(),
            next_id: 0,
            sent: Seq::empty(),
            delivered: Seq::empty(),
            withdrawn: Seq::empty(),
            notices: Seq::empty(),
        }
    }

    /// Every identifier below `next_id` was issued, once, in increasing order;
    /// each issued call is in flight, delivered or withdrawn, and only one of these.
    pub open spec fn wf(self) -> bool {
        &&& self.next_id <= usize::MAX
        &&& self.sent.len() == self.next_id
        &&& forall|i: int| 0 <= i < self.sent.len() ==> #[trigger] self.sent[i] == i
        &&& forall|id: usize| #[trigger] self.pending.contains(id) ==> id < self.next_id
        &&& self.delivered.no_duplicates()
        &&& self.withdrawn.no_duplicates()
        &&& forall|id: usize| #[trigger]
            self.delivered.contains(id) ==> id < self.next_id && !self.pending.contains(id)
                && !self.withdrawn.contains(id)
        &&& forall|id: usize| #[trigger]
            self.withdrawn.contains(id) ==> id < self.next_id && !self.pending.contains(id)
        &&& forall|id: usize|
            id < self.next_id ==> #[trigger] self.pending.contains(id) || self.delivered.contains(
                id,
            ) || self.withdrawn.contains(id)
    }

    /// Issuing a call: the next identifier becomes pending and goes out.
    pub open spec fn issue_next(self) -> TableState {
        TableState {
            pending: self.pending.insert(self.next_id as usize),
            next_id: self.next_id + 1,
            sent: self.sent.push(self.next_id as usize),
            ..self
        }
    }

    /// A response arrives for `id`: a pending entry is removed and delivered to;
    /// anything else is discarded without effect.
    pub open spec fn deliver_next(self, id: usize) -> TableState {
        if self.pending.contains(id) {
            TableState {
                pending: self.pending.remove(id),
                delivered: self.delivered.push(id),
                ..self
            }
        } else {
            self
        }
    }

    /// A call is abandoned: its entry goes if still there, and one notice goes out.
    pub open spec fn cancel_next(self, id: usize) -> TableState {
        if self.pending.contains(id) {
            TableState {
                pending: self.pending.remove(id),
                withdrawn: self.withdrawn.push(id),
                notices: self.notices.push(id),
                ..self
            }
        } else {
            TableState { notices: self.notices.push(id), ..self }
        }
    }
}

/// Appending a new element keeps a sequence free of duplicates, and the result
/// holds exactly the old elements and the new one.
proof fn lemma_push_keeps_distinct(s: Seq<usize>, x: usize)
    requires
        s.no_duplicates(),
        !s.contains(x),
    ensures
        s.push(x).no_duplicates(),
        forall|y: usize| #[trigger] s.push(x).contains(y) <==> s.contains(y) || y == x,
{
    let t = s.push(x);
    assert forall|y: usize| #[trigger] t.contains(y) <==> s.contains(y) || y == x by {
        if t.contains(y) {
            let i = choose|i: int| 0 <= i < t.len() && t[i] == y;
            if i < s.len() {
                assert(s[i] == y);
            }
        }
        if s.contains(y) {
            let i = choose|i: int| 0 <= i < s.len() && s[i] == y;
            assert(t[i] == y);
        }
        if y == x {
            assert(t[s.len() as int] == y);
        }
    }
    assert forall|i: int, j: int| 0 <= i < t.len() && 0 <= j < t.len() && i != j implies t[i]
        != t[j] by {
        if i < s.len() && j < s.len() {
            assert(t[i] == s[i] && t[j] == s[j]);
        } else if i < s.len() {
            assert(s.contains(t[i]));
        } else if j < s.len() {
            assert(s.contains(t[j]));
        }
    }
}

/// Issuing never hands out an identifier that is in flight or was ever sent
/// before, and keeps the table consistent.
pub proof fn issue_keeps_ids_unique(s: TableState)
    requires
        s.wf(),
        s.next_id < usize::MAX,
    ensures
        !s.pending.contains(s.next_id as usize),
        !s.sent.contains(s.next_id as usize),
        s.sent.no_duplicates(),
        s.issue_next().wf(),
        s.issue_next().sent.no_duplicates(),
        s.issue_next().pending == s.pending.insert(s.next_id as usize),
{
    let t = s.issue_next();
    assert forall|i: int, j: int| 0 <= i < s.sent.len() && 0 <= j < s.sent.len() && i != j implies s.sent[i]
        != s.sent[j] by {
        assert(s.sent[i] == i && s.sent[j] == j);
    }
    if s.sent.contains(s.next_id as usize) {
        let i = choose|i: int| 0 <= i < s.sent.len() && s.sent[i] == s.next_id as usize;
        assert(s.sent[i] == i);
    }
    assert forall|i: int| 0 <= i < t.sent.len() implies #[trigger] t.sent[i] == i by {
        if i < s.sent.len() {
            assert(s.sent[i] == i);
            assert(t.sent[i] == s.sent[i]);
        }
    }
    assert forall|id: usize| id < t.next_id implies #[trigger] t.pending.contains(id)
        || t.delivered.contains(id) || t.withdrawn.contains(id) by {
        if id < s.next_id {
            assert(s.pending.contains(id) || s.delivered.contains(id) || s.withdrawn.contains(id));
        }
    }
}

/// A delivery keeps the table consistent.
pub proof fn deliver_keeps_consistent(s: TableState, id: usize)
    requires
        s.wf(),
    ensures
        s.deliver_next(id).wf(),
{
    if s.pending.contains(id) {
        lemma_push_keeps_distinct(s.delivered, id);
        let t = s.deliver_next(id);
        assert forall|x: usize| x < t.next_id implies #[trigger] t.pending.contains(x)
            || t.delivered.contains(x) || t.withdrawn.contains(x) by {
            assert(s.pending.contains(x) || s.delivered.contains(x) || s.withdrawn.contains(x));
        }
    }
}

/// A cancellation keeps the table consistent.
pub proof fn cancel_keeps_consistent(s: TableState, id: usize)
    requires
        s.wf(),
    ensures
        s.cancel_next(id).wf(),
{
    if s.pending.contains(id) {
        lemma_push_keeps_distinct(s.withdrawn, id);
        let t = s.cancel_next(id);
        assert forall|x: usize| x < t.next_id implies #[trigger] t.pending.contains(x)
            || t.delivered.contains(x) || t.withdrawn.contains(x) by {
            assert(s.pending.contains(x) || s.delivered.contains(x) || s.withdrawn.contains(x));
        }
    }
}

/// A response for an identifier whose entry is gone, because it was delivered
/// to or cancelled before, changes nothing; so a second delivery is inert.
pub proof fn late_delivery_is_inert(s: TableState, id: usize)
    requires
        s.wf(),
        !s.pending.contains(id),
    ensures
        s.deliver_next(id) == s,
        s.deliver_next(id).deliver_next(id) == s,
        s.cancel_next(id).deliver_next(id) == s.cancel_next(id),
{
}

/// Delivering twice to the same call has the effect of delivering once.
pub proof fn second_delivery_is_inert(s: TableState, id: usize)
    requires
        s.wf(),
    ensures
        s.deliver_next(id).deliver_next(id) == s.deliver_next(id),
{
}

/// Abandoning a call pushes exactly one notice, for its identifier, and leaves
/// no entry for it; an issued call ends up withdrawn only if no response had come.
pub proof fn cancel_sends_one_notice(s: TableState, id: usize)
    requires
        s.wf(),
    ensures
        s.cancel_next(id).notices == s.notices.push(id),
        !s.cancel_next(id).pending.contains(id),
        s.cancel_next(id).delivered == s.delivered,
        id < s.next_id ==> (s.cancel_next(id).withdrawn.contains(id) <==> !s.delivered.contains(
            id,
        )),
{
    cancel_keeps_consistent(s, id);
    let t = s.cancel_next(id);
    if s.pending.contains(id) {
        assert(t.withdrawn[t.withdrawn.len() - 1] == id);
    } else if id < s.next_id {
        assert(s.delivered.contains(id) || s.withdrawn.contains(id));
    }
}

/// Of every issued call that is no longer in flight, exactly one thing became:
/// its response was delivered, or it was cancelled before any response came.
pub proof fn outcomes_exclusive(s: TableState, id: usize)
    requires
        s.wf(),
        id < s.next_id,
        !s.pending.contains(id),
    ensures
        s.delivered.contains(id) != s.withdrawn.contains(id),
{
}

/// A cancelled call leaves the table fit for the calls that follow: the next
/// call is issued under a fresh identifier and its response is delivered.
pub proof fn cancel_does_not_block_later_calls(s: TableState, id: usize)
    requires
        s.wf(),
        s.next_id < usize::MAX,
    ensures
        ({
            let t = s.cancel_next(id).issue_next();
            let n = s.next_id as usize;
            &&& t.wf()
            &&& t.pending.contains(n)
            &&& t.deliver_next(n).delivered == t.delivered.push(n)
            &&& !t.deliver_next(n).pending.contains(n)
        }),
{
    cancel_keeps_consistent(s, id);
    issue_keeps_ids_unique(s.cancel_next(id));
}

/// The client's correlation table: for each call in flight, the channel that its
/// response goes into, with the two outbound channels that the transport drains.
#[verifier::reject_recursive_types(Req)]
#[verifier::reject_recursive_types(Resp)]
pub struct CallTable<Req, Resp> {
    callbacks: HashMap<usize, oneshot::Sender<Resp>>,
    next_id: usize,
    requests: UnboundedSender<(usize, Req)>,
    aborts: UnboundedSender<usize>,
    sent: Ghost<Seq<usize>>,
    delivered: Ghost<Seq<usize>>,
    withdrawn: Ghost<Seq<usize>>,
    notices: Ghost<Seq<usize>>,
}

impl<Req, Resp> View for CallTable<Req, Resp> {
    type V = TableState;

    closed spec fn view(&self) -> TableState {
        TableState {
            pending: self.callbacks@.dom(),
            next_id: self.next_id as nat,
            sent: self.sent@,
            delivered: self.delivered@,
            withdrawn: self.withdrawn@,
            notices: self.notices@,
        }
    }
}

impl<Req, Resp> CallTable<Req, Resp> {
    /// The response channel recorded under each identifier in flight.
    pub closed spec fn senders(&self) -> Map<usize, oneshot::Sender<Resp>> {
        self.callbacks@
    }

    /// The table is consistent, and an identifier is in flight exactly when a
    /// response channel is recorded under it.
    pub open spec fn wf(&self) -> bool {
        &&& self@.wf()
        &&& self@.pending == self.senders().dom()
    }

    /// An empty table that pushes requests and cancellation notices onto the
    /// given channels.
    pub fn new(requests: UnboundedSender<(usize, Req)>, aborts: UnboundedSender<usize>) -> (r: Self)
        ensures
            r.wf(),
            r@ == TableState::initial(),
            r.senders() == Map::<usize, oneshot::Sender<Resp>>::empty(),
    {
        CallTable {
            callbacks: HashMap::new(),
            next_id: 0,
            requests,
            aborts,
            sent: Ghost(Seq::empty()),
            delivered: Ghost(Seq::empty()),
            withdrawn: Ghost(Seq::empty()),
            notices: Ghost(Seq::empty()),
        }
    }

    /// Whether a call with this identifier is in flight.
    pub fn is_pending(&self, id: usize) -> (r: bool)
        ensures
            r == self@.pending.contains(id),
    {
        self.callbacks.contains_key(&id)
    }
    /// Issues a call: allocates the next identifier, records a fresh response
    /// channel under it, pushes the identifier and the request onto the outbound
    /// channel, and returns the identifier with the receiving end. `None`, with
    /// the table untouched, once every identifier has been used.
    pub fn issue(&mut self, request: Req) -> (r: Option<(usize, oneshot::Receiver<Resp>)>)
        requires
            old(self).wf(),
        ensures
            final(self).wf(),
            old(self)@.next_id < usize::MAX ==> r is Some && final(self)@ == old(self)@.issue_next()
                && r->Some_0.0 == old(self)@.next_id,
            r matches Some((id, _)) ==> final(self).senders().contains_key(id)
                && final(self).senders().remove(id) == old(self).senders(),
            old(self)@.next_id >= usize::MAX ==> r is None && final(self)@ == old(self)@
                && final(self).senders() == old(self).senders(),
    {
        if self.next_id == usize::MAX {
            return None;
        }
        let id = self.next_id;
        let (tx, rx) = oneshot::channel();
        self.callbacks.insert(id, tx);
        assert(self.callbacks@.dom() =~= old(self).callbacks@.dom().insert(id));
        self.next_id = id + 1;
        self.sent = Ghost(self.sent@.push(id));
        let _ = self.requests.unbounded_send((id, request));
        proof {
            issue_keeps_ids_unique(old(self)@);
        }
        Some((id, rx))
    }

    /// Hands a response to the call it answers. The entry is removed and the
    /// response sent into its channel when the call is in flight (`true`);
    /// otherwise the response is dropped and nothing changes (`false`).
    pub fn deliver(&mut self, id: usize, response: Resp) -> (r: bool)
        requires
            old(self).wf(),
        ensures
            final(self).wf(),
            r == old(self)@.pending.contains(id),
            final(self)@ == old(self)@.deliver_next(id),
            final(self).senders() == old(self).senders().remove(id),
    {
        let removed = self.callbacks.remove(&id);
        assert(self.callbacks@.dom() =~= old(self).callbacks@.dom().remove(id));
        proof {
            deliver_keeps_consistent(old(self)@, id);
        }
        match removed {
            Some(tx) => {
                self.delivered = Ghost(self.delivered@.push(id));
                let _ = tx.send(response);
                true
            },
            None => {
                assert(self@.pending =~= old(self)@.pending);
                false
            },
        }
    }

    /// Abandons a call: removes its entry if it is still there and pushes its
    /// identifier onto the cancellation channel.
    pub fn cancel(&mut self, id: usize)
        requires
            old(self).wf(),
        ensures
            final(self).wf(),
            final(self)@ == old(self)@.cancel_next(id),
            final(self).senders() == old(self).senders().remove(id),
    {
        let removed = self.callbacks.remove(&id);
        assert(self.callbacks@.dom() =~= old(self).callbacks@.dom().remove(id));
        if removed.is_none() {
            assert(self.callbacks@.dom() =~= old(self).callbacks@.dom());
        }
        if removed.is_some() {
            self.withdrawn = Ghost(self.withdrawn@.push(id));
        }
        self.notices = Ghost(self.notices@.push(id));
        let _ = self.aborts.unbounded_send(id);
        proof {
            cancel_keeps_consistent(old(self)@, id);
        }
    }
}

} // verus!
