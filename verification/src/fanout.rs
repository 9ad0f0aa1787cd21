//! The ephemeral, per-request record of one fan-out: which shards the request
//! was dispatched to (the membership snapshot at fan-out start) and the one
//! outcome each of them produced.
//!
//! Before the merge is attempted, every shard of the snapshot has exactly one
//! outcome: a ciphertext response, a timeout, a transport failure, or an
//! attestation failure. The successful responses are extracted in a canonical
//! order, so that the merge input — and with it the merged reply — does not
//! depend on the order in which shards happened to answer.

use vstd::prelude::*;
use crate::shard::ShardError;

verus! {

/// The one outcome a shard produced for one fan-out.
#[derive(Debug)]
pub enum ShardOutcome {
    /// The shard answered with this response ciphertext.
    Response { ciphertext: Vec<u8> },
    /// The shard produced nothing within its budget.
    TimedOut,
    /// Transport to the shard kept failing until retries were exhausted.
    Unreachable,
    /// The shard's attestation report failed verification.
    Untrusted,
    /// The shard's response failed decrypt/verify after delivery.
    Tampered,
}

/// The abstract value of a shard outcome.
pub enum OutcomeModel {
    Response { ciphertext: Seq<u8> },
    TimedOut,
    Unreachable,
    Untrusted,
    Tampered,
}

impl View for ShardOutcome {
    type V = OutcomeModel;

    open spec fn view(&self) -> OutcomeModel {
        match self {
            ShardOutcome::Response { ciphertext } => OutcomeModel::Response {
                ciphertext: ciphertext@,
            },
            ShardOutcome::TimedOut => OutcomeModel::TimedOut,
            ShardOutcome::Unreachable => OutcomeModel::Unreachable,
            ShardOutcome::Untrusted => OutcomeModel::Untrusted,
            ShardOutcome::Tampered => OutcomeModel::Tampered,
        }
    }
}

/// The outcome that a settled shard-client result is recorded as.
pub open spec fn spec_outcome_of(r: Result<Seq<u8>, ShardError>) -> OutcomeModel {
    match r {
        Ok(ciphertext) => OutcomeModel::Response { ciphertext },
        Err(ShardError::Timeout) => OutcomeModel::TimedOut,
        Err(ShardError::Transport) => OutcomeModel::Unreachable,
        Err(ShardError::Untrusted) => OutcomeModel::Untrusted,
        Err(ShardError::Tampered) => OutcomeModel::Tampered,
    }
}

impl ShardOutcome {
    /// Records a settled shard-client result as an outcome.
    pub fn of_result(r: &Result<Vec<u8>, ShardError>) -> (o: ShardOutcome)
        ensures
            match r {
                Ok(ct) => o@ == spec_outcome_of(Ok::<Seq<u8>, ShardError>(ct@)),
                Err(e) => o@ == spec_outcome_of(Err::<Seq<u8>, ShardError>(*e)),
            },
    {
        match r {
            Ok(ct) => ShardOutcome::Response { ciphertext: ct.clone() },
            Err(ShardError::Timeout) => ShardOutcome::TimedOut,
            Err(ShardError::Transport) => ShardOutcome::Unreachable,
            Err(ShardError::Untrusted) => ShardOutcome::Untrusted,
            Err(ShardError::Tampered) => ShardOutcome::Tampered,
        }
    }

    /// An owned copy of this outcome.
    pub fn duplicate(&self) -> (r: ShardOutcome)
        ensures
            r@ == self@,
    {
        match self {
            ShardOutcome::Response { ciphertext } => ShardOutcome::Response {
                ciphertext: ciphertext.clone(),
            },
            ShardOutcome::TimedOut => ShardOutcome::TimedOut,
            ShardOutcome::Unreachable => ShardOutcome::Unreachable,
            ShardOutcome::Untrusted => ShardOutcome::Untrusted,
            ShardOutcome::Tampered => ShardOutcome::Tampered,
        }
    }
}

/// The outcomes recorded so far, as a map from shard identifier to outcome.
pub open spec fn pairs_map(s: Seq<(u64, ShardOutcome)>) -> Map<u64, OutcomeModel>
    decreases s.len(),
{
    if s.len() == 0 {
        Map::empty()
    } else {
        pairs_map(s.drop_last()).insert(s.last().0, s.last().1@)
    }
}

/// No shard identifier occurs twice.
pub open spec fn unique_ids<T>(s: Seq<(u64, T)>) -> bool {
    forall|i: int, j: int| 0 <= i < j < s.len() ==> s[i].0 != s[j].0
}

/// Whether one of the first `k` recorded pairs carries this identifier.
pub open spec fn id_recorded_before(s: Seq<(u64, ShardOutcome)>, k: int, id: u64) -> bool {
    exists|j: int| 0 <= j < k && s[j].0 == id
}

/// Whether an extracted entry carries this identifier.
pub open spec fn id_in_list(v: Seq<(u64, Vec<u8>)>, id: u64) -> bool {
    exists|i: int| 0 <= i < v.len() && v[i].0 == id
}

/// What `pairs_map` holds when identifiers are unique: its domain is exactly
/// the recorded identifiers, each mapped to its recorded outcome.
pub proof fn lemma_pairs_map_char(s: Seq<(u64, ShardOutcome)>)
    requires
        unique_ids(s),
    ensures
        forall|id: u64| #[trigger]
            pairs_map(s).dom().contains(id) <==> exists|i: int| 0 <= i < s.len() && s[i].0 == id,
        forall|i: int|
            0 <= i < s.len() ==> pairs_map(s).dom().contains(#[trigger] s[i].0) && pairs_map(
                s,
            )[s[i].0] == s[i].1@,
    decreases s.len(),
{
    if s.len() > 0 {
        let head = s.drop_last();
        lemma_pairs_map_char(head);
        assert forall|i: int| 0 <= i < s.len() implies pairs_map(s).dom().contains(
            #[trigger] s[i].0,
        ) && pairs_map(s)[s[i].0] == s[i].1@ by {
            if i < s.len() - 1 {
                assert(head[i] == s[i]);
                assert(s[i].0 != s.last().0);
            }
        }
        assert forall|id: u64| #[trigger]
            pairs_map(s).dom().contains(id) implies exists|i: int|
            0 <= i < s.len() && s[i].0 == id by {
            if id != s.last().0 {
                assert(pairs_map(head).dom().contains(id));
                let i = choose|i: int| 0 <= i < head.len() && head[i].0 == id;
                assert(head[i] == s[i]);
                assert(s[i].0 == id);
            } else {
                assert(s[s.len() - 1].0 == id);
            }
        }
    }
}

/// A canonical merge input for the successful outcomes of `m` with
/// identifiers above `lo`: strictly ascending by shard identifier, holding
/// exactly the shards that answered with a response, each with its response.
pub open spec fn merge_input_above(
    s: Seq<(u64, Seq<u8>)>,
    m: Map<u64, OutcomeModel>,
    lo: int,
) -> bool {
    &&& forall|i: int, j: int| 0 <= i < j < s.len() ==> s[i].0 < s[j].0
    &&& forall|i: int| 0 <= i < s.len() ==> lo < #[trigger] s[i].0
    &&& forall|i: int|
        0 <= i < s.len() ==> m.dom().contains(#[trigger] s[i].0) && m[s[i].0]
            == (OutcomeModel::Response { ciphertext: s[i].1 })
    &&& forall|id: u64|
        #[trigger] m.dom().contains(id) && m[id] is Response && id > lo ==> exists|i: int|
            0 <= i < s.len() && s[i].0 == id
}

/// The canonical merge input for all successful outcomes of `m`.
pub open spec fn is_merge_input_for(s: Seq<(u64, Seq<u8>)>, m: Map<u64, OutcomeModel>) -> bool {
    merge_input_above(s, m, -1)
}

/// There is only one canonical merge input for a given outcome map: however
/// the outcomes arrived, the sequence handed to the merge is the same.
pub proof fn lemma_merge_input_unique(
    m: Map<u64, OutcomeModel>,
    a: Seq<(u64, Seq<u8>)>,
    b: Seq<(u64, Seq<u8>)>,
)
    requires
        is_merge_input_for(a, m),
        is_merge_input_for(b, m),
    ensures
        a == b,
{
    lemma_merge_input_above_unique(m, a, b, -1);
}

proof fn lemma_merge_input_above_unique(
    m: Map<u64, OutcomeModel>,
    a: Seq<(u64, Seq<u8>)>,
    b: Seq<(u64, Seq<u8>)>,
    lo: int,
)
    requires
        merge_input_above(a, m, lo),
        merge_input_above(b, m, lo),
    ensures
        a == b,
    decreases a.len(),
{
    if a.len() == 0 {
        if b.len() > 0 {
            assert(m.dom().contains(b[0].0) && m[b[0].0] is Response && b[0].0 > lo);
            let i = choose|i: int| 0 <= i < a.len() && a[i].0 == b[0].0;
            assert(false);
        }
        assert(a =~~= b);
    } else {
        assert(m.dom().contains(a[0].0) && m[a[0].0] is Response && a[0].0 > lo);
        let bi = choose|i: int| 0 <= i < b.len() && b[i].0 == a[0].0;
        assert(b.len() > 0);
        assert(m.dom().contains(b[0].0) && m[b[0].0] is Response && b[0].0 > lo);
        let ai = choose|i: int| 0 <= i < a.len() && a[i].0 == b[0].0;
        // The heads are both the least admissible identifier, so they agree.
        assert(b[0].0 <= b[bi].0);
        assert(a[0].0 <= a[ai].0);
        assert(a[0].0 == b[0].0);
        assert(a[0].1 == b[0].1);
        let x = a[0].0;
        let ta = a.drop_first();
        let tb = b.drop_first();
        assert forall|id: u64|
            #[trigger] m.dom().contains(id) && m[id] is Response && id > x as int implies exists|
            i: int,
        |
            0 <= i < ta.len() && ta[i].0 == id by {
            let i = choose|i: int| 0 <= i < a.len() && a[i].0 == id;
            assert(i != 0);
            assert(ta[i - 1].0 == id);
        }
        assert forall|id: u64|
            #[trigger] m.dom().contains(id) && m[id] is Response && id > x as int implies exists|
            i: int,
        |
            0 <= i < tb.len() && tb[i].0 == id by {
            let i = choose|i: int| 0 <= i < b.len() && b[i].0 == id;
            assert(i != 0);
            assert(tb[i - 1].0 == id);
        }
        assert(merge_input_above(ta, m, x as int));
        assert(merge_input_above(tb, m, x as int));
        lemma_merge_input_above_unique(m, ta, tb, x as int);
        assert(a =~~= b);
    }
}

/// The merge-input view of an extracted success list: each entry reduced to
/// identifier and ciphertext bytes.
pub open spec fn success_view(v: Seq<(u64, Vec<u8>)>) -> Seq<(u64, Seq<u8>)> {
    v.map_values(|p: (u64, Vec<u8>)| (p.0, p.1@))
}

/// Whether any shard of `m` answered with a response.
pub open spec fn has_success(m: Map<u64, OutcomeModel>) -> bool {
    exists|id: u64| #[trigger] m.dom().contains(id) && m[id] is Response
}

/// Recording two different shards' outcomes commutes: the recorded map — and
/// with it everything derived from it — does not depend on which response
/// arrived first.
pub proof fn lemma_record_order_commutes(
    m: Map<u64, OutcomeModel>,
    id1: u64,
    o1: OutcomeModel,
    id2: u64,
    o2: OutcomeModel,
)
    requires
        id1 != id2,
    ensures
        m.insert(id1, o1).insert(id2, o2) == m.insert(id2, o2).insert(id1, o1),
{
    assert(m.insert(id1, o1).insert(id2, o2) =~= m.insert(id2, o2).insert(id1, o1));
}

/// The per-request fan-out record: the membership snapshot the request was
/// dispatched against, and the outcomes recorded so far.
pub struct FanOut {
    snapshot: Vec<u64>,
    recorded: Vec<(u64, ShardOutcome)>,
}

impl FanOut {
    /// The shard identifiers the request was dispatched to.
    pub closed spec fn spec_snapshot(self) -> Seq<u64> {
        self.snapshot@
    }

    /// The snapshot as a set.
    pub open spec fn snap_set(self) -> Set<u64> {
        self.spec_snapshot().to_set()
    }

    /// The recorded (identifier, outcome) pairs, in arrival order.
    pub closed spec fn spec_recorded(self) -> Seq<(u64, ShardOutcome)> {
        self.recorded@
    }

    /// The outcomes recorded so far, keyed by shard identifier.
    pub open spec fn outcome_map(self) -> Map<u64, OutcomeModel> {
        pairs_map(self.spec_recorded())
    }

    /// Snapshot identifiers are unique, each outcome is recorded at most
    /// once, and only for shards of the snapshot.
    pub open spec fn wf(self) -> bool {
        &&& forall|i: int, j: int|
            0 <= i < j < self.spec_snapshot().len() ==> self.spec_snapshot()[i]
                != self.spec_snapshot()[j]
        &&& unique_ids(self.spec_recorded())
        &&& forall|i: int|
            0 <= i < self.spec_recorded().len() ==> self.spec_snapshot().contains(
                #[trigger] self.spec_recorded()[i].0,
            )
    }

    /// Every shard of the snapshot has an outcome: the merge may be attempted.
    pub open spec fn spec_complete(self) -> bool {
        forall|i: int|
            0 <= i < self.spec_snapshot().len() ==> self.outcome_map().dom().contains(
                #[trigger] self.spec_snapshot()[i],
            )
    }

    /// A fresh fan-out over a membership snapshot, with nothing recorded.
    pub fn new(snapshot: Vec<u64>) -> (r: FanOut)
        requires
            forall|i: int, j: int| 0 <= i < j < snapshot@.len() ==> snapshot@[i] != snapshot@[j],
        ensures
            r.wf(),
            r.spec_snapshot() == snapshot@,
            r.outcome_map() == Map::<u64, OutcomeModel>::empty(),
    {
        FanOut { snapshot, recorded: Vec::new() }
    }

    /// The snapshot, for dispatching.
    pub fn snapshot_ids(&self) -> (r: &Vec<u64>)
        ensures
            r@ == self.spec_snapshot(),
    {
        &self.snapshot
    }

    /// Whether this shard already has a recorded outcome.
    pub fn has_outcome(&self, id: u64) -> (r: bool)
        requires
            self.wf(),
        ensures
            r == self.outcome_map().dom().contains(id),
    {
        let n = self.recorded.len();
        let mut i: usize = 0;
        while i < n
            invariant
                self.wf(),
                n == self.spec_recorded().len(),
                0 <= i <= n,
                forall|k: int| 0 <= k < i ==> self.spec_recorded()[k].0 != id,
            decreases n - i,
        {
            if self.recorded[i].0 == id {
                proof {
                    lemma_pairs_map_char(self.spec_recorded());
                    assert(self.spec_recorded()[i as int].0 == id);
                }
                return true;
            }
            i = i + 1;
        }
        proof {
            lemma_pairs_map_char(self.spec_recorded());
            if self.outcome_map().dom().contains(id) {
                let j = choose|j: int|
                    0 <= j < self.spec_recorded().len() && self.spec_recorded()[j].0 == id;
                assert(false);
            }
        }
        false
    }

    /// The outcome recorded for this shard, if any.
    pub fn outcome_at(&self, id: u64) -> (r: Option<&ShardOutcome>)
        requires
            self.wf(),
        ensures
            match r {
                Some(o) => self.outcome_map().dom().contains(id) && o@ == self.outcome_map()[id],
                None => !self.outcome_map().dom().contains(id),
            },
    {
        let n = self.recorded.len();
        let mut i: usize = 0;
        while i < n
            invariant
                self.wf(),
                n == self.spec_recorded().len(),
                0 <= i <= n,
                forall|k: int| 0 <= k < i ==> self.spec_recorded()[k].0 != id,
            decreases n - i,
        {
            if self.recorded[i].0 == id {
                proof {
                    lemma_pairs_map_char(self.spec_recorded());
                    assert(self.spec_recorded()[i as int].0 == id);
                }
                return Some(&self.recorded[i].1);
            }
            i = i + 1;
        }
        proof {
            lemma_pairs_map_char(self.spec_recorded());
            if self.outcome_map().dom().contains(id) {
                let j = choose|j: int|
                    0 <= j < self.spec_recorded().len() && self.spec_recorded()[j].0 == id;
                assert(false);
            }
        }
        None
    }

    /// Whether this shard is in the snapshot.
    pub fn in_snapshot(&self, id: u64) -> (r: bool)
        ensures
            r == self.spec_snapshot().contains(id),
    {
        let n = self.snapshot.len();
        let mut i: usize = 0;
        while i < n
            invariant
                n == self.spec_snapshot().len(),
                0 <= i <= n,
                forall|k: int| 0 <= k < i ==> self.spec_snapshot()[k] != id,
            decreases n - i,
        {
            if self.snapshot[i] == id {
                return true;
            }
            i = i + 1;
        }
        false
    }

    /// Records the one outcome for a shard of the snapshot. Returns false,
    /// changing nothing, when the shard is not in the snapshot or already has
    /// an outcome.
    pub fn record(&mut self, id: u64, outcome: ShardOutcome) -> (r: bool)
        requires
            old(self).wf(),
        ensures
            final(self).wf(),
            final(self).spec_snapshot() == old(self).spec_snapshot(),
            r == (old(self).spec_snapshot().contains(id) && !old(self).outcome_map().dom().contains(
                id,
            )),
            r ==> final(self).outcome_map() == old(self).outcome_map().insert(id, outcome@),
            !r ==> final(self).outcome_map() == old(self).outcome_map(),
    {
        if self.in_snapshot(id) && !self.has_outcome(id) {
            proof {
                lemma_pairs_map_char(old(self).spec_recorded());
            }
            self.recorded.push((id, outcome));
            proof {
                assert(self.spec_recorded().drop_last() =~= old(self).spec_recorded());
                assert(self.spec_recorded().last() == (id, outcome));
                assert forall|i: int, j: int|
                    0 <= i < j < self.spec_recorded().len() implies self.spec_recorded()[i].0
                    != self.spec_recorded()[j].0 by {
                    if j < self.spec_recorded().len() - 1 {
                        assert(old(self).spec_recorded()[i] == self.spec_recorded()[i]);
                    } else {
                        assert(self.spec_recorded()[i] == old(self).spec_recorded()[i]);
                        assert(!old(self).outcome_map().dom().contains(id));
                    }
                }
            }
            true
        } else {
            false
        }
    }

    /// Whether every shard of the snapshot has an outcome.
    pub fn is_complete(&self) -> (r: bool)
        requires
            self.wf(),
        ensures
            r == self.spec_complete(),
    {
        let n = self.snapshot.len();
        let mut i: usize = 0;
        while i < n
            invariant
                self.wf(),
                n == self.spec_snapshot().len(),
                0 <= i <= n,
                forall|k: int|
                    0 <= k < i ==> self.outcome_map().dom().contains(
                        #[trigger] self.spec_snapshot()[k],
                    ),
            decreases n - i,
        {
            if !self.has_outcome(self.snapshot[i]) {
                return false;
            }
            i = i + 1;
        }
        true
    }

    /// The deadline has passed: every shard still without an outcome is
    /// recorded as timed out, and excluded from the merge input. Outcomes
    /// already recorded are untouched, and the fan-out is complete afterwards.
    pub fn apply_deadline(&mut self)
        requires
            old(self).wf(),
        ensures
            final(self).wf(),
            final(self).spec_snapshot() == old(self).spec_snapshot(),
            final(self).spec_complete(),
            forall|id: u64| #[trigger]
                old(self).outcome_map().dom().contains(id) ==> final(self).outcome_map().dom().contains(id) && final(self).outcome_map()[id] == old(self).outcome_map()[id],
            forall|id: u64| #[trigger]
                final(self).outcome_map().dom().contains(id) ==> old(self).outcome_map().dom().contains(id) || (old(self).spec_snapshot().contains(id)
                    && final(self).outcome_map()[id] == OutcomeModel::TimedOut),
    {
        let n = self.snapshot.len();
        let mut i: usize = 0;
        while i < n
            invariant
                self.wf(),
                self.spec_snapshot() == old(self).spec_snapshot(),
                n == self.spec_snapshot().len(),
                0 <= i <= n,
                forall|k: int|
                    0 <= k < i ==> self.outcome_map().dom().contains(
                        #[trigger] self.spec_snapshot()[k],
                    ),
                forall|id: u64| #[trigger]
                    old(self).outcome_map().dom().contains(id)
                        ==> self.outcome_map().dom().contains(id) && self.outcome_map()[id] == old(self).outcome_map()[id],
                forall|id: u64| #[trigger]
                    self.outcome_map().dom().contains(id) ==> old(self).outcome_map().dom().contains(id) || (old(self).spec_snapshot().contains(id)
                        && self.outcome_map()[id] == OutcomeModel::TimedOut),
            decreases n - i,
        {
            let id = self.snapshot[i];
            let _recorded = self.record(id, ShardOutcome::TimedOut);
            i = i + 1;
        }
    }

    /// Extracts the canonical merge input: the successful responses, strictly
    /// ascending by shard identifier. By [`lemma_merge_input_unique`] the
    /// result is the same whatever order the outcomes arrived in.
    pub fn successes(&self) -> (r: Vec<(u64, Vec<u8>)>)
        requires
            self.wf(),
        ensures
            is_merge_input_for(success_view(r@), self.outcome_map()),
    {
        let n = self.recorded.len();
        let mut out: Vec<(u64, Vec<u8>)> = Vec::new();
        let mut k: usize = 0;
        while k < n
            invariant
                self.wf(),
                n == self.spec_recorded().len(),
                0 <= k <= n,
                forall|i: int, j: int|
                    0 <= i < j < out@.len() ==> #[trigger] out@[i].0 < #[trigger] out@[j].0,
                forall|i: int|
                    0 <= i < out@.len() ==> self.outcome_map().dom().contains(#[trigger] out@[i].0)
                        && self.outcome_map()[out@[i].0] == (OutcomeModel::Response {
                        ciphertext: out@[i].1@,
                    }),
                forall|i: int|
                    0 <= i < out@.len() ==> id_recorded_before(
                        self.spec_recorded(),
                        k as int,
                        #[trigger] out@[i].0,
                    ),
                forall|j: int|
                    0 <= j < k && (#[trigger] self.spec_recorded()[j].1@) is Response
                        ==> id_in_list(out@, self.spec_recorded()[j].0),
            decreases n - k,
        {
            let pair = &self.recorded[k];
            let is_resp = match &pair.1 {
                ShardOutcome::Response { .. } => true,
                _ => false,
            };
            if is_resp {
                let ct = match &pair.1 {
                    ShardOutcome::Response { ciphertext } => ciphertext.clone(),
                    _ => Vec::new(),
                };
                let id = pair.0;
                proof {
                    lemma_pairs_map_char(self.spec_recorded());
                    assert(self.outcome_map()[id] == (OutcomeModel::Response {
                        ciphertext: ct@,
                    }));
                    assert forall|i: int| 0 <= i < out@.len() implies (#[trigger] out@[i].0)
                        != id by {
                        if out@[i].0 == id {
                            assert(id_recorded_before(self.spec_recorded(), k as int, out@[i].0));
                            let j = choose|j: int|
                                0 <= j < k && self.spec_recorded()[j].0 == out@[i].0;
                            assert(self.spec_recorded()[j].0 == self.spec_recorded()[k as int].0);
                            assert(false);
                        }
                    }
                }
                let ghost prev = out@;
                insert_sorted(&mut out, id, ct);
                proof {
                    lemma_successes_step(self.spec_recorded(), prev, out@, k as int, id, ct@);
                }
            } else {
                proof {
                    assert forall|j: int|
                        0 <= j < k + 1 && (#[trigger] self.spec_recorded()[j].1@)
                            is Response implies id_in_list(out@, self.spec_recorded()[j].0) by {
                        assert(j < k);
                    }
                }
            }
            k = k + 1;
        }
        proof {
            lemma_pairs_map_char(self.spec_recorded());
            assert forall|id: u64|
                #[trigger] self.outcome_map().dom().contains(id) && self.outcome_map()[id]
                    is Response && id > -1 implies exists|i: int|
                0 <= i < success_view(out@).len() && success_view(out@)[i].0 == id by {
                let j = choose|j: int|
                    0 <= j < self.spec_recorded().len() && self.spec_recorded()[j].0 == id;
                assert(self.spec_recorded()[j].1@ is Response);
                assert(id_in_list(out@, id));
                let i = choose|i: int| 0 <= i < out@.len() && out@[i].0 == id;
                assert(success_view(out@)[i].0 == id);
            }
        }
        out
    }
}

/// One accumulation step of the success extraction: inserting the response of
/// the shard at position `k` keeps the accumulated list describing exactly
/// the responses among the first `k + 1` recorded outcomes.
proof fn lemma_successes_step(
    rec: Seq<(u64, ShardOutcome)>,
    prev: Seq<(u64, Vec<u8>)>,
    cur: Seq<(u64, Vec<u8>)>,
    k: int,
    id: u64,
    ctv: Seq<u8>,
)
    requires
        unique_ids(rec),
        0 <= k < rec.len(),
        rec[k].0 == id,
        rec[k].1@ == (OutcomeModel::Response { ciphertext: ctv }),
        forall|i: int|
            0 <= i < prev.len() ==> pairs_map(rec).dom().contains(#[trigger] prev[i].0)
                && pairs_map(rec)[prev[i].0] == (OutcomeModel::Response {
                ciphertext: prev[i].1@,
            }),
        forall|i: int|
            0 <= i < prev.len() ==> id_recorded_before(rec, k, #[trigger] prev[i].0),
        forall|j: int|
            0 <= j < k && (#[trigger] rec[j].1@) is Response ==> id_in_list(prev, rec[j].0),
        forall|i: int|
            0 <= i < cur.len() ==> ((#[trigger] cur[i]).0 == id && cur[i].1@ == ctv || exists|
                j: int,
            | 0 <= j < prev.len() && cur[i] == prev[j]),
        exists|i: int| 0 <= i < cur.len() && (#[trigger] cur[i]).0 == id && cur[i].1@ == ctv,
        forall|j: int|
            0 <= j < prev.len() ==> exists|i: int|
                0 <= i < cur.len() && cur[i] == (#[trigger] prev[j]),
    ensures
        forall|i: int|
            0 <= i < cur.len() ==> pairs_map(rec).dom().contains(#[trigger] cur[i].0) && pairs_map(
                rec,
            )[cur[i].0] == (OutcomeModel::Response { ciphertext: cur[i].1@ }),
        forall|i: int|
            0 <= i < cur.len() ==> id_recorded_before(rec, k + 1, #[trigger] cur[i].0),
        forall|j: int|
            0 <= j < k + 1 && (#[trigger] rec[j].1@) is Response ==> id_in_list(cur, rec[j].0),
{
    lemma_pairs_map_char(rec);
    assert forall|i: int| 0 <= i < cur.len() implies pairs_map(rec).dom().contains(
        #[trigger] cur[i].0,
    ) && pairs_map(rec)[cur[i].0] == (OutcomeModel::Response { ciphertext: cur[i].1@ }) by {
        if cur[i].0 == id && cur[i].1@ == ctv {
            assert(pairs_map(rec)[rec[k].0] == rec[k].1@);
        } else {
            let j = choose|j: int| 0 <= j < prev.len() && cur[i] == prev[j];
        }
    }
    assert forall|i: int| 0 <= i < cur.len() implies id_recorded_before(
        rec,
        k + 1,
        #[trigger] cur[i].0,
    ) by {
        if cur[i].0 == id && cur[i].1@ == ctv {
            assert(rec[k].0 == cur[i].0);
        } else {
            let j = choose|j: int| 0 <= j < prev.len() && cur[i] == prev[j];
            assert(id_recorded_before(rec, k, prev[j].0));
            let jj = choose|jj: int| 0 <= jj < k && rec[jj].0 == prev[j].0;
            assert(rec[jj].0 == cur[i].0);
        }
    }
    assert forall|j: int|
        0 <= j < k + 1 && (#[trigger] rec[j].1@) is Response implies id_in_list(
        cur,
        rec[j].0,
    ) by {
        if j < k {
            assert(id_in_list(prev, rec[j].0));
            let i = choose|i: int| 0 <= i < prev.len() && prev[i].0 == rec[j].0;
            let ii = choose|ii: int| 0 <= ii < cur.len() && cur[ii] == prev[i];
            assert(cur[ii].0 == rec[j].0);
        } else {
            let ii = choose|ii: int| 0 <= ii < cur.len() && cur[ii].0 == id && cur[ii].1@ == ctv;
            assert(cur[ii].0 == rec[j].0);
        }
    }
}

/// Inserts an absent identifier into a strictly ascending list, keeping it
/// strictly ascending and otherwise untouched.
fn insert_sorted(out: &mut Vec<(u64, Vec<u8>)>, id: u64, ct: Vec<u8>)
    requires
        forall|i: int, j: int|
            0 <= i < j < old(out)@.len() ==> #[trigger] old(out)@[i].0 < #[trigger] old(out)@[j].0,
        forall|i: int| 0 <= i < old(out)@.len() ==> #[trigger] old(out)@[i].0 != id,
    ensures
        final(out)@.len() == old(out)@.len() + 1,
        forall|i: int, j: int|
            0 <= i < j < final(out)@.len() ==> #[trigger] final(out)@[i].0 < #[trigger] final(out)@[j].0,
        exists|pos: int|
            0 <= pos <= old(out)@.len() && final(out)@ == old(out)@.insert(pos, (id, ct)),
        forall|i: int|
            0 <= i < final(out)@.len() ==> ((#[trigger] final(out)@[i]) == (id, ct) || exists|
                j: int,
            | 0 <= j < old(out)@.len() && final(out)@[i] == old(out)@[j]),
        exists|i: int| 0 <= i < final(out)@.len() && (#[trigger] final(out)@[i]) == (id, ct),
        forall|j: int|
            0 <= j < old(out)@.len() ==> exists|i: int|
                0 <= i < final(out)@.len() && final(out)@[i] == (#[trigger] old(out)@[j]),
{
    let n = out.len();
    let mut pos: usize = 0;
    while pos < n && out[pos].0 < id
        invariant
            n == out@.len(),
            0 <= pos <= n,
            forall|k: int| 0 <= k < pos ==> #[trigger] out@[k].0 < id,
            forall|i: int, j: int|
                0 <= i < j < out@.len() ==> #[trigger] out@[i].0 < #[trigger] out@[j].0,
            forall|i: int| 0 <= i < out@.len() ==> #[trigger] out@[i].0 != id,
            out@ == old(out)@,
        decreases n - pos,
    {
        pos = pos + 1;
    }
    proof {
        assert forall|k: int| pos <= k < out@.len() implies #[trigger] out@[k].0 > id by {
            assert(out@[pos as int].0 <= out@[k].0);
            assert(out@[pos as int].0 != id);
        }
    }
    out.insert(pos, (id, ct));
    proof {
        let o = old(out)@;
        let f = out@;
        assert(f == o.insert(pos as int, (id, ct)));
        assert forall|i: int, j: int| 0 <= i < j < f.len() implies #[trigger] f[i].0
            < #[trigger] f[j].0 by {
            if i < pos && j == pos {
                assert(f[i] == o[i]);
            } else if i == pos && j > pos {
                assert(f[j] == o[j - 1]);
            } else if i < pos && j > pos {
                assert(f[i] == o[i] && f[j] == o[j - 1]);
            } else if j < pos {
                assert(f[i] == o[i] && f[j] == o[j]);
            } else if i > pos {
                assert(f[i] == o[i - 1] && f[j] == o[j - 1]);
            }
        }
        assert forall|j: int| 0 <= j < o.len() implies exists|i: int|
            0 <= i < f.len() && f[i] == (#[trigger] o[j]) by {
            if j < pos {
                assert(f[j] == o[j]);
            } else {
                assert(f[j + 1] == o[j]);
            }
        }
        assert(f[pos as int] == (id, ct));
    }
}

} // verus!
