use vstd::prelude::*;

use crate::text::{debug_quoted, debug_quoted_of};

verus! {

/// The greeting frame enqueued to a client when it subscribes.
pub const CONNECTED_FRAME: &'static str = "data: Connected\n\n";

/// The heartbeat frame enqueued to every client at each liveness sweep.
pub const PING_FRAME: &'static str = "data: Ping\n\n";

/// Seconds between two liveness sweeps.
pub const PING_INTERVAL_SECONDS: u64 = 10;

/// The frame that carries a creation notification received on the pub/sub
/// channel.
pub open spec fn planet_created_frame(payload: Seq<char>) -> Seq<char> {
    "data: Planet created: "@ + debug_quoted_of(payload) + "\n\n"@
}

/// The frame to deliver for a creation notification `payload`.
pub fn new_planet_frame(payload: &str) -> (r: String)
    ensures
        r@ == planet_created_frame(payload@),
{
    let mut frame = String::from_str("data: Planet created: ");
    let quoted = debug_quoted(payload);
    frame.append(quoted.as_str());
    frame.append("\n\n");
    frame
}

/// The clients of `clients` whose entry in `delivered` is true, in order.
pub open spec fn kept_clients(clients: Seq<u64>, delivered: Seq<bool>) -> Seq<u64>
    decreases clients.len(),
{
    if clients.len() == 0 || delivered.len() == 0 {
        Seq::empty()
    } else {
        let rest = kept_clients(clients.drop_last(), delivered.drop_last());
        if delivered.last() {
            rest.push(clients.last())
        } else {
            rest
        }
    }
}

/// Ids in strictly increasing order, each below `bound`.
pub open spec fn ordered_below(s: Seq<u64>, bound: u64) -> bool {
    &&& forall|i: int, j: int| 0 <= i < j < s.len() ==> s[i] < s[j]
    &&& forall|i: int| 0 <= i < s.len() ==> s[i] < bound
}

proof fn lemma_kept_clients(clients: Seq<u64>, delivered: Seq<bool>, x: u64)
    requires
        clients.len() == delivered.len(),
    ensures
        kept_clients(clients, delivered).contains(x) <==> exists|i: int|
            0 <= i < clients.len() && clients[i] == x && #[trigger] delivered[i],
    decreases clients.len(),
{
    if clients.len() > 0 {
        let c0 = clients.drop_last();
        let d0 = delivered.drop_last();
        let last = clients.len() - 1;
        lemma_kept_clients(c0, d0, x);
        let rest = kept_clients(c0, d0);
        if kept_clients(clients, delivered).contains(x) {
            if delivered.last() && x == clients.last() {
                assert(clients[last] == x && delivered[last]);
            } else {
                assert(rest.contains(x)) by {
                    if delivered.last() {
                        let k = choose|k: int|
                            0 <= k < rest.push(clients.last()).len() && rest.push(
                                clients.last(),
                            )[k] == x;
                        assert(rest[k] == x);
                    }
                }
                let i = choose|i: int| 0 <= i < c0.len() && c0[i] == x && #[trigger] d0[i];
                assert(clients[i] == x && delivered[i]);
            }
        }
        if exists|i: int| 0 <= i < clients.len() && clients[i] == x && #[trigger] delivered[i] {
            let i = choose|i: int| 0 <= i < clients.len() && clients[i] == x && #[trigger] delivered[i];
            if i == last {
                assert(kept_clients(clients, delivered).last() == x);
            } else {
                assert(c0[i] == x && d0[i]);
                let k = choose|k: int| 0 <= k < rest.len() && rest[k] == x;
                if delivered.last() {
                    assert(rest.push(clients.last())[k] == x);
                }
            }
        }
    }
}

/// A registered client is among the recipients of a message exactly once.
/// After a sweep in which its heartbeat could not be enqueued it is no longer
/// registered, so it receives nothing published afterwards; after a sweep in
/// which the heartbeat was enqueued it stays.
pub proof fn lemma_broadcast_delivery(b: Broadcaster, id: u64, delivered: Seq<bool>)
    requires
        b.wf(),
        b.clients().contains(id),
        delivered.len() == b.clients().len(),
    ensures
        forall|i: int, j: int|
            0 <= i < b.clients().len() && 0 <= j < b.clients().len() && b.clients()[i] == id
                && b.clients()[j] == id ==> i == j,
        (forall|i: int| 0 <= i < b.clients().len() && b.clients()[i] == id ==> !delivered[i])
            ==> !kept_clients(b.clients(), delivered).contains(id),
        (forall|i: int| 0 <= i < b.clients().len() && b.clients()[i] == id ==> delivered[i])
            ==> kept_clients(b.clients(), delivered).contains(id),
{
    lemma_kept_clients(b.clients(), delivered, id);
    let i = choose|i: int| 0 <= i < b.clients().len() && b.clients()[i] == id;
    if forall|i: int| 0 <= i < b.clients().len() && b.clients()[i] == id ==> delivered[i] {
        assert(delivered[i]);
    }
    assert forall|i: int, j: int|
        0 <= i < b.clients().len() && 0 <= j < b.clients().len() && b.clients()[i] == id
            && b.clients()[j] == id implies i == j by {
        if i < j {
            assert(b.clients()[i] < b.clients()[j]);
        } else if j < i {
            assert(b.clients()[j] < b.clients()[i]);
        }
    }
}

/// The registry of live streaming clients. Each client is known by the id
/// that registration gave it; the caller keeps the delivery channel of each
/// id, enqueues to the ids that `send` lists, and reports the outcome of each
/// heartbeat to `remove_stale_clients`.
#[derive(Debug)]
pub struct Broadcaster {
    clients: Vec<u64>,
    next_id: u64,
}

impl Broadcaster {
    /// The registered clients, in order of registration.
    pub closed spec fn clients(&self) -> Seq<u64> {
        self.clients@
    }

    /// Registered clients are distinct, in order of registration, and ids are
    /// never handed out twice.
    pub closed spec fn wf(&self) -> bool {
        ordered_below(self.clients@, self.next_id)
    }

    /// Whether `id` could be handed out by a later registration.
    pub closed spec fn is_fresh(&self, id: u64) -> bool {
        id >= self.next_id
    }

    /// How many more clients can be registered.
    pub closed spec fn ids_left(&self) -> nat {
        (u64::MAX - self.next_id) as nat
    }

    /// An empty registry.
    pub fn new() -> (r: Self)
        ensures
            r.wf(),
            r.clients() == Seq::<u64>::empty(),
            r.ids_left() == u64::MAX as nat,
    {
        Broadcaster { clients: Vec::new(), next_id: 0 }
    }

    /// Registers a new client and returns its id, which no client had
    /// before; `None` once ids are exhausted.
    pub fn new_client(&mut self) -> (r: Option<u64>)
        requires
            old(self).wf(),
        ensures
            final(self).wf(),
            r is Some <==> old(self).ids_left() > 0,
            match r {
                Some(id) => {
                    &&& final(self).ids_left() == old(self).ids_left() - 1
                    &&& old(self).is_fresh(id)
                    &&& !old(self).clients().contains(id)
                    &&& final(self).clients() == old(self).clients().push(id)
                    &&& forall|x: u64| #[trigger] final(self).is_fresh(x) ==> old(self).is_fresh(x)
                },
                None => final(self).clients() == old(self).clients() && final(self).ids_left()
                    == old(self).ids_left(),
            },
    {
        if self.next_id == u64::MAX {
            return None;
        }
        let id = self.next_id;
        self.clients.push(id);
        self.next_id = id + 1;
        Some(id)
    }

    /// The clients that a message goes to: every registered client, once
    /// each, in order of registration.
    pub fn send(&self) -> (r: Vec<u64>)
        ensures
            r@ == self.clients(),
    {
        self.clients.clone()
    }

    /// The liveness sweep: `delivered[i]` tells whether the heartbeat could be
    /// enqueued to the `i`-th client of `send`. The clients for which it
    /// could not are removed; the others stay, in order.
    pub fn remove_stale_clients(&mut self, delivered: &Vec<bool>)
        requires
            old(self).wf(),
            delivered@.len() == old(self).clients().len(),
        ensures
            final(self).wf(),
            final(self).clients() == kept_clients(old(self).clients(), delivered@),
            forall|x: u64| #[trigger] final(self).is_fresh(x) == old(self).is_fresh(x),
            final(self).ids_left() == old(self).ids_left(),
    {
        let mut ok_clients: Vec<u64> = Vec::new();
        let n = self.clients.len();
        let mut i: usize = 0;
        while i < n
            invariant
                0 <= i <= n,
                n == self.clients@.len(),
                n == delivered@.len(),
                ordered_below(self.clients@, self.next_id),
                ok_clients@ == kept_clients(
                    self.clients@.subrange(0, i as int),
                    delivered@.subrange(0, i as int),
                ),
                ordered_below(ok_clients@, self.next_id),
                i < n ==> forall|k: int|
                    0 <= k < ok_clients@.len() ==> ok_clients@[k] < self.clients@[i as int],
            decreases n - i,
        {
            let ghost c0 = self.clients@.subrange(0, i as int);
            let ghost d0 = delivered@.subrange(0, i as int);
            assert(self.clients@.subrange(0, i + 1).drop_last() =~= c0);
            assert(delivered@.subrange(0, i + 1).drop_last() =~= d0);
            if delivered[i] {
                let c = self.clients[i];
                ok_clients.push(c);
            }
            i = i + 1;
        }
        assert(self.clients@.subrange(0, n as int) =~= self.clients@);
        assert(delivered@.subrange(0, n as int) =~= delivered@);
        self.clients = ok_clients;
    }
}

} // verus!
