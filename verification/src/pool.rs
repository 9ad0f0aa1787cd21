//! The set of all shard clients, keyed by stable shard identifier.
//!
//! Membership is dynamic: shards may be added and removed between requests.
//! A fan-out works on a snapshot of the identifiers taken at its start, which
//! is a plain copy: later membership changes never disturb it, and removing a
//! shard does not cancel the in-flight call that was dispatched to it.

use vstd::prelude::*;
use crate::shard::ShardAction;
use crate::shard::ShardClient;
use crate::shard::ShardEvent;
use crate::shard::shard_step;

verus! {

/// The pool of shard clients: one per registered shard, identifiers unique,
/// iteration order irrelevant.
pub struct ShardPool {
    clients: Vec<ShardClient>,
}

impl ShardPool {
    /// The clients, in registration order.
    pub closed spec fn spec_clients(self) -> Seq<ShardClient> {
        self.clients@
    }

    /// The registered shard identifiers, in registration order.
    pub open spec fn ids(self) -> Seq<u64> {
        self.spec_clients().map_values(|c: ShardClient| c.spec_identity().shard_id)
    }

    /// The registered shard identifiers as a set.
    pub open spec fn id_set(self) -> Set<u64> {
        self.ids().to_set()
    }

    /// Identifiers are unique and every client's bookkeeping is consistent.
    pub open spec fn wf(self) -> bool {
        &&& forall|i: int, j: int|
            0 <= i < j < self.ids().len() ==> self.ids()[i] != self.ids()[j]
        &&& forall|i: int| 0 <= i < self.spec_clients().len() ==> (#[trigger] self.spec_clients()[i]).wf()
    }

    /// The position of a registered identifier.
    pub open spec fn spec_index_of(self, id: u64) -> int {
        choose|i: int| 0 <= i < self.ids().len() && self.ids()[i] == id
    }

    /// An empty pool.
    pub fn new() -> (r: ShardPool)
        ensures
            r.wf(),
            r.ids() == Seq::<u64>::empty(),
    {
        let r = ShardPool { clients: Vec::new() };
        proof {
            assert(r.ids() =~= Seq::<u64>::empty());
        }
        r
    }

    /// How many shards are registered.
    pub fn len(&self) -> (r: usize)
        ensures
            r == self.ids().len(),
    {
        self.clients.len()
    }

    /// Looks up the position of a shard identifier, scanning the membership.
    fn find(&self, id: u64) -> (r: Option<usize>)
        ensures
            match r {
                Some(i) => 0 <= i < self.ids().len() && self.ids()[i as int] == id,
                None => !self.ids().contains(id),
            },
    {
        let n = self.clients.len();
        let mut i: usize = 0;
        while i < n
            invariant
                n == self.ids().len(),
                0 <= i <= n,
                forall|k: int| 0 <= k < i ==> self.ids()[k] != id,
            decreases n - i,
        {
            if self.clients[i].shard_id() == id {
                return Some(i);
            }
            i = i + 1;
        }
        None
    }

    /// Whether a shard with this identifier is currently registered.
    pub fn contains(&self, id: u64) -> (r: bool)
        ensures
            r == self.ids().contains(id),
    {
        match self.find(id) {
            Some(_) => true,
            None => false,
        }
    }

    /// Registers a shard. Returns false, changing nothing, when the
    /// identifier is already taken.
    pub fn add(&mut self, client: ShardClient) -> (r: bool)
        requires
            old(self).wf(),
            client.wf(),
        ensures
            final(self).wf(),
            r == !old(self).ids().contains(client.spec_identity().shard_id),
            r ==> final(self).spec_clients() == old(self).spec_clients().push(client),
            r ==> final(self).ids() =~= old(self).ids().push(client.spec_identity().shard_id),
            !r ==> final(self).spec_clients() == old(self).spec_clients(),
    {
        let id = client.shard_id();
        match self.find(id) {
            Some(_) => false,
            None => {
                self.clients.push(client);
                proof {
                    assert(self.ids() =~= old(self).ids().push(client.spec_identity().shard_id));
                }
                true
            },
        }
    }

    /// Unregisters a shard. Returns false, changing nothing, when no such
    /// shard is registered. In-flight queries already dispatched to the shard
    /// are not cancelled: the caller keeps driving its client if it holds one,
    /// and only future snapshots stop naming the shard.
    pub fn remove(&mut self, id: u64) -> (r: bool)
        requires
            old(self).wf(),
        ensures
            final(self).wf(),
            r == old(self).ids().contains(id),
            !final(self).ids().contains(id),
            r ==> final(self).spec_clients() == old(self).spec_clients().remove(
                old(self).spec_index_of(id),
            ),
            !r ==> final(self).spec_clients() == old(self).spec_clients(),
    {
        match self.find(id) {
            Some(i) => {
                let _removed = self.clients.remove(i);
                proof {
                    let oldids = old(self).ids();
                    let j = old(self).spec_index_of(id);
                    assert(0 <= j < oldids.len() && oldids[j] == id);
                    assert(j == i);
                    assert(self.ids() =~= oldids.remove(i as int));
                    assert forall|k: int| 0 <= k < self.ids().len() implies self.ids()[k] != id by {
                        if k < i {
                            assert(self.ids()[k] == oldids[k]);
                        } else {
                            assert(self.ids()[k] == oldids[k + 1]);
                        }
                    }
                }
                true
            },
            None => false,
        }
    }

    /// Copies the current membership: the stable basis for one fan-out. The
    /// copy is unaffected by later `add` or `remove` calls.
    pub fn snapshot(&self) -> (r: Vec<u64>)
        ensures
            r@ == self.ids(),
    {
        let n = self.clients.len();
        let mut out: Vec<u64> = Vec::new();
        let mut i: usize = 0;
        while i < n
            invariant
                n == self.ids().len(),
                0 <= i <= n,
                out@ =~= self.ids().take(i as int),
            decreases n - i,
        {
            out.push(self.clients[i].shard_id());
            proof {
                assert(out@ =~= self.ids().take(i + 1));
            }
            i = i + 1;
        }
        proof {
            assert(self.ids().take(n as int) =~= self.ids());
        }
        out
    }

    /// A borrowed view of one registered client, for reading its outcome or
    /// session state.
    pub fn client(&self, id: u64) -> (r: Option<&ShardClient>)
        requires
            self.wf(),
        ensures
            match r {
                Some(c) => self.ids().contains(id) && *c == self.spec_clients()[self.spec_index_of(
                    id,
                )],
                None => !self.ids().contains(id),
            },
    {
        match self.find(id) {
            Some(i) => {
                proof {
                    assert(self.ids()[i as int] == id);
                    assert(self.ids().contains(id));
                }
                let c = &self.clients[i];
                proof {
                    let j = self.spec_index_of(id);
                    assert(0 <= j < self.ids().len() && self.ids()[j] == id);
                    assert(j == i);
                }
                Some(c)
            },
            None => None,
        }
    }

    /// Feeds one event into the client of one registered shard, leaving every
    /// other client untouched. Returns the action that client owes next, or
    /// `None`, changing nothing, when the shard is not registered.
    pub fn step_client(&mut self, id: u64, event: ShardEvent, now: u64) -> (r: Option<ShardAction>)
        requires
            old(self).wf(),
        ensures
            final(self).wf(),
            final(self).ids() == old(self).ids(),
            match r {
                None => !old(self).ids().contains(id) && final(self).spec_clients() == old(
                    self,
                ).spec_clients(),
                Some(action) => {
                    let i = old(self).spec_index_of(id);
                    &&& old(self).ids().contains(id)
                    &&& final(self).spec_clients().len() == old(self).spec_clients().len()
                    &&& forall|j: int|
                        0 <= j < old(self).spec_clients().len() && j != i
                            ==> final(self).spec_clients()[j] == old(self).spec_clients()[j]
                    &&& (final(self).spec_clients()[i]@, action) == shard_step(
                        old(self).spec_clients()[i]@,
                        event@,
                        old(self).spec_clients()[i].policy(),
                        now,
                    )
                    &&& final(self).spec_clients()[i].policy() == old(self).spec_clients()[i].policy()
                    &&& final(self).spec_clients()[i].spec_identity() == old(
                        self,
                    ).spec_clients()[i].spec_identity()
                },
            },
    {
        match self.find(id) {
            Some(i) => {
                proof {
                    assert(self.ids()[i as int] == id);
                    assert(self.ids().contains(id));
                    let j = old(self).spec_index_of(id);
                    assert(0 <= j < old(self).ids().len() && old(self).ids()[j] == id);
                    assert(j == i);
                }
                let mut c = self.clients.remove(i);
                let action = c.step(event, now);
                self.clients.insert(i, c);
                proof {
                    assert(self.spec_clients() =~= old(self).spec_clients().update(i as int, c));
                    assert(self.ids() =~= old(self).ids());
                }
                Some(action)
            },
            None => None,
        }
    }
}

} // verus!
