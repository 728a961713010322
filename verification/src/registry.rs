//! The subscribers that are currently connected, and the pass that drops the
//! dead ones after a broadcast.

use crate::structs::{WsClient, WsKind};
use vstd::prelude::*;

verus! {

/// What the look at a subscriber's inbound side found, without waiting.
#[derive(Clone, Copy, PartialEq, Eq, Debug, Structural)]
pub enum Inbound {
    /// Nothing was waiting, or the stream had nothing more to give.
    Quiet,
    /// A frame other than a close frame.
    Frame,
    /// A close frame: the peer is leaving.
    Close,
    /// The receive failed.
    Failed,
}

/// How the write of a payload to a subscriber ended.
#[derive(Clone, Copy, PartialEq, Eq, Debug, Structural)]
pub enum Delivery {
    Sent,
    Failed,
}

/// What one subscriber's socket reported during one broadcast cycle. The
/// delivery is absent where no write was attempted.
#[derive(Clone, Copy, PartialEq, Eq, Debug, Structural)]
pub struct SocketReport {
    pub inbound: Inbound,
    pub delivery: Option<Delivery>,
}

impl SocketReport {
    /// The socket neither closed nor failed: not on the inbound side, not on
    /// the write.
    pub open spec fn alive(self) -> bool {
        &&& self.inbound != Inbound::Close
        &&& self.inbound != Inbound::Failed
        &&& self.delivery != Some(Delivery::Failed)
    }

    /// Whether the socket neither closed nor failed during the cycle.
    pub fn is_alive(&self) -> (alive: bool)
        ensures
            alive == self.alive(),
    {
        let inbound_ok = match self.inbound {
            Inbound::Close => false,
            Inbound::Failed => false,
            _ => true,
        };
        let delivery_ok = match self.delivery {
            Some(Delivery::Failed) => false,
            _ => true,
        };
        inbound_ok && delivery_ok
    }
}

/// The subscriber at position `i` stays: its report says it is alive, or there
/// is no report for it, so nothing was seen to go wrong.
pub open spec fn stays(reports: Seq<SocketReport>, i: int) -> bool {
    0 <= i < reports.len() ==> reports[i].alive()
}

/// The positions from `i` up to `n` whose subscribers stay, in rising order.
pub open spec fn kept_positions(n: int, reports: Seq<SocketReport>, i: int) -> Seq<int>
    decreases n - i,
{
    if i >= n {
        Seq::empty()
    } else if stays(reports, i) {
        seq![i] + kept_positions(n, reports, i + 1)
    } else {
        kept_positions(n, reports, i + 1)
    }
}

/// The subscribers from position `i` on that stay, in their old order.
pub open spec fn kept_from<T>(subscribers: Seq<T>, reports: Seq<SocketReport>, i: int) -> Seq<T>
    decreases subscribers.len() - i,
{
    if i >= subscribers.len() {
        Seq::empty()
    } else if stays(reports, i) {
        seq![subscribers[i]] + kept_from(subscribers, reports, i + 1)
    } else {
        kept_from(subscribers, reports, i + 1)
    }
}

/// The subscribers that stay after a cycle with the given reports.
pub open spec fn kept<T>(subscribers: Seq<T>, reports: Seq<SocketReport>) -> Seq<T> {
    kept_from(subscribers, reports, 0)
}

/// The live subscribers, in the order in which they registered.
pub struct Registry<C> {
    pub clients: Vec<WsClient<C>>,
}

impl<C> View for Registry<C> {
    type V = Seq<WsClient<C>>;

    open spec fn view(&self) -> Seq<WsClient<C>> {
        self.clients@
    }
}

impl<C> Registry<C> {
    /// A registry without subscribers.
    pub fn new() -> (registry: Self)
        ensures
            registry@ == Seq::<WsClient<C>>::empty(),
    {
        Registry { clients: Vec::new() }
    }

    /// The number of subscribers.
    pub fn len(&self) -> (n: usize)
        ensures
            n == self@.len(),
    {
        self.clients.len()
    }

    /// Adds a subscriber behind those already there.
    pub fn register(&mut self, client: WsClient<C>)
        ensures
            final(self)@ == old(self)@.push(client),
    {
        self.clients.push(client);
    }

    /// The feed of the subscriber at position `i`, if there is one.
    pub fn kind_at(&self, i: usize) -> (kind: Option<WsKind>)
        ensures
            kind == if i < self@.len() {
                Some(self@[i as int].kind)
            } else {
                None
            },
    {
        if i < self.clients.len() {
            Some(self.clients[i].kind)
        } else {
            None
        }
    }

    /// Drops every subscriber whose socket closed or failed during the cycle
    /// and keeps all the others, in their old order. `reports[i]` is what the
    /// subscriber at position `i` reported.
    pub fn prune(&mut self, reports: &Vec<SocketReport>)
        ensures
            final(self)@ == kept(old(self)@, reports@),
    {
        // The subscribers are taken off the end one by one, so those that stay
        // pile up back to front; a second pass puts them back in order.
        let mut staying: Vec<WsClient<C>> = Vec::new();
        let mut i: usize = self.clients.len();
        assert(self.clients@.take(i as int) == self.clients@);
        while i > 0
            invariant
                i <= old(self)@.len(),
                self.clients@ == old(self)@.take(i as int),
                staying@.reverse() == kept_from(old(self)@, reports@, i as int),
            decreases i,
        {
            i -= 1;
            let ghost before = staying@;
            let last = self.clients.pop();
            assert(self.clients@ == old(self)@.take(i as int));
            let dead = i < reports.len() && !reports[i].is_alive();
            match last {
                Some(client) => {
                    if !dead {
                        staying.push(client);
                        assert(staying@.reverse() =~= seq![client] + before.reverse());
                    }
                },
                None => {},
            }
        }
        assert(self.clients@ == Seq::<WsClient<C>>::empty());
        let ghost all = kept_from(old(self)@, reports@, 0);
        while staying.len() > 0
            invariant
                self.clients@ + staying@.reverse() == all,
            decreases staying.len(),
        {
            let ghost pile = staying@;
            let ghost placed = self.clients@;
            let next = staying.pop();
            match next {
                Some(client) => {
                    self.clients.push(client);
                    assert(placed.push(client) + staying@.reverse() =~= placed + pile.reverse());
                },
                None => {},
            }
        }
        assert(self.clients@ + staying@.reverse() =~= self.clients@);
    }
}

/// Pruning keeps exactly the subscribers whose sockets stayed alive. What is
/// left after the pass is, position by position, the subscriber that stood at
/// a kept position; every kept position is one whose socket neither closed nor
/// failed; every such position is kept; and the kept positions rise strictly,
/// so nobody is kept twice and the old order stands.
pub proof fn law_prune_keeps_exactly_the_alive<T>(subscribers: Seq<T>, reports: Seq<SocketReport>)
    ensures
        ({
            let after = kept(subscribers, reports);
            let at = kept_positions(subscribers.len() as int, reports, 0);
            &&& after.len() == at.len()
            &&& forall|k: int|
                0 <= k < after.len() ==> 0 <= #[trigger] at[k] < subscribers.len() && stays(
                    reports,
                    at[k],
                ) && after[k] == subscribers[at[k]]
            &&& forall|p: int|
                0 <= p < subscribers.len() && stays(reports, p) ==> at.contains(p)
            &&& forall|k: int, l: int| 0 <= k < l < at.len() ==> at[k] < at[l]
        }),
{
    lemma_kept_by_position(subscribers, reports, 0);
    lemma_kept_positions(subscribers.len() as int, reports, 0);
}

/// A subscriber whose socket neither closed nor failed is still there after
/// the pass.
pub proof fn law_alive_subscriber_stays<T>(subscribers: Seq<T>, reports: Seq<SocketReport>, i: int)
    requires
        0 <= i < subscribers.len(),
        stays(reports, i),
    ensures
        kept(subscribers, reports).contains(subscribers[i]),
{
    law_prune_keeps_exactly_the_alive(subscribers, reports);
    let at = kept_positions(subscribers.len() as int, reports, 0);
    assert(at.contains(i));
    let k = choose|k: int| 0 <= k < at.len() && at[k] == i;
    assert(kept(subscribers, reports)[k] == subscribers[i]);
}

/// Every subscriber that is kept stood at a kept position, and it is the
/// subscriber that stood there.
proof fn lemma_kept_by_position<T>(subscribers: Seq<T>, reports: Seq<SocketReport>, i: int)
    requires
        0 <= i,
    ensures
        kept_from(subscribers, reports, i).len() == kept_positions(
            subscribers.len() as int,
            reports,
            i,
        ).len(),
        forall|k: int|
            0 <= k < kept_from(subscribers, reports, i).len() ==> #[trigger] kept_from(
                subscribers,
                reports,
                i,
            )[k] == subscribers[kept_positions(subscribers.len() as int, reports, i)[k]],
    decreases subscribers.len() - i,
{
    if i < subscribers.len() {
        lemma_kept_by_position(subscribers, reports, i + 1);
    }
}

/// The kept positions are exactly the positions that stay: each lies in
/// range and stays, each position that stays is among them, and they rise
/// strictly, so none occurs twice.
proof fn lemma_kept_positions(n: int, reports: Seq<SocketReport>, i: int)
    requires
        0 <= i,
    ensures
        forall|k: int|
            0 <= k < kept_positions(n, reports, i).len() ==> {
                let p = #[trigger] kept_positions(n, reports, i)[k];
                i <= p < n && stays(reports, p)
            },
        forall|p: int|
            i <= p < n && stays(reports, p) ==> kept_positions(n, reports, i).contains(p),
        forall|k: int, l: int|
            0 <= k < l < kept_positions(n, reports, i).len() ==> kept_positions(n, reports, i)[k]
                < kept_positions(n, reports, i)[l],
    decreases n - i,
{
    if i < n {
        lemma_kept_positions(n, reports, i + 1);
        let rest = kept_positions(n, reports, i + 1);
        let all = kept_positions(n, reports, i);
        if stays(reports, i) {
            assert(all[0] == i);
            assert forall|p: int| i <= p < n && stays(reports, p) implies all.contains(p) by {
                if p == i {
                    assert(all[0] == p);
                } else {
                    let k = choose|k: int| 0 <= k < rest.len() && rest[k] == p;
                    assert(all[k + 1] == p);
                }
            }
        }
    }
}

} // verus!
