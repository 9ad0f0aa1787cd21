//! Per-request orchestration: validate the client's ciphertext query, take a
//! membership snapshot, fan the query out, collect outcomes against the
//! request deadline, and decide what reaches the trusted merger and what
//! reaches the client.
//!
//! The enclave merge itself is an outside capability: the surrounding process
//! hands it the canonical merge input extracted here and feeds its verdict
//! back into [`RouterService::finish`]. The router never inspects query or
//! response plaintext — it branches only on presence, absence, and size.

use vstd::prelude::*;
use crate::fanout::FanOut;
use crate::fanout::OutcomeModel;
use crate::fanout::has_success;
use crate::fanout::is_merge_input_for;
use crate::fanout::lemma_merge_input_unique;
use crate::fanout::success_view;
use crate::pool::ShardPool;

verus! {

/// A request-level failure: the only errors that cross the client boundary.
/// Shard-level failures are absorbed into the fan-out record instead.
#[derive(Clone, Copy, PartialEq, Eq, Structural, Debug)]
pub enum RouterError {
    /// The request was malformed; no shard was contacted.
    InvalidRequest,
    /// No shard produced a usable response: the request fails whole, since a
    /// fabricated empty answer would itself leak information.
    AllShardsUnavailable,
    /// The trusted merger rejected the combined input; unmerged shard data is
    /// never returned in its place.
    MergeFailure,
}

/// An opaque ciphertext query, as submitted by a client.
pub struct QueryRequest {
    /// The encrypted query; the router never reads into it.
    pub ciphertext: Vec<u8>,
}

/// An opaque ciphertext reply, as produced by the trusted merger.
pub struct QueryResponse {
    /// The encrypted reply, forwarded to the client unchanged.
    pub ciphertext: Vec<u8>,
}

/// What the trusted merge capability answered for one merge input.
pub enum MergeVerdict {
    /// The merger produced this client-facing ciphertext.
    Merged { ciphertext: Vec<u8> },
    /// The merger rejected the combined input.
    Rejected,
}

/// Per-router limits, supplied by configuration.
#[derive(Clone, Copy, PartialEq, Eq, Structural, Debug)]
pub struct RouterConfig {
    /// Largest accepted query ciphertext, in bytes.
    pub max_request_bytes: usize,
    /// Budget for one shard RPC attempt, in milliseconds.
    pub per_shard_timeout_ms: u64,
    /// Overall per-request deadline, in milliseconds; never extended by
    /// shard-level retries.
    pub request_deadline_ms: u64,
}

/// A well-shaped request: non-empty ciphertext within the size bound.
pub open spec fn spec_request_valid(request: Seq<u8>, config: RouterConfig) -> bool {
    0 < request.len() <= config.max_request_bytes
}

/// The request-level verdict owed once the fan-out is complete and, if any
/// shard succeeded, the merger has answered: the merged ciphertext when the
/// merger produced one, and the precise error otherwise.
pub open spec fn spec_route_result(
    valid: bool,
    m: Map<u64, OutcomeModel>,
    verdict_merged: Option<Seq<u8>>,
) -> Result<Seq<u8>, RouterError> {
    if !valid {
        Err(RouterError::InvalidRequest)
    } else if !has_success(m) {
        Err(RouterError::AllShardsUnavailable)
    } else {
        match verdict_merged {
            Some(ciphertext) => Ok(ciphertext),
            None => Err(RouterError::MergeFailure),
        }
    }
}

/// Whether the health report lists this shard.
pub open spec fn listed_in_health(v: Seq<(u64, crate::fanout::ShardOutcome)>, id: u64) -> bool {
    exists|i: int| 0 <= i < v.len() && v[i].0 == id
}

/// The router: the shard pool it fans out over, and its limits.
pub struct RouterService {
    /// The pool of registered shards.
    pub pool: ShardPool,
    /// The router's limits.
    pub config: RouterConfig,
}

impl RouterService {
    /// A router over a pool, with the given limits.
    pub fn new(pool: ShardPool, config: RouterConfig) -> (r: RouterService)
        requires
            pool.wf(),
        ensures
            r.pool == pool,
            r.config == config,
            r.pool.wf(),
    {
        RouterService { pool, config }
    }

    /// Checks the request shape: non-empty ciphertext within the size bound.
    /// Malformed requests fail with `InvalidRequest` before any shard is
    /// contacted.
    pub fn validate_request(&self, request: &QueryRequest) -> (r: Result<(), RouterError>)
        ensures
            r is Ok <==> spec_request_valid(request.ciphertext@, self.config),
            r is Err ==> r == Err::<(), RouterError>(RouterError::InvalidRequest),
    {
        if request.ciphertext.len() == 0 || request.ciphertext.len() > self.config.max_request_bytes {
            Err(RouterError::InvalidRequest)
        } else {
            Ok(())
        }
    }

    /// Starts one request: validates it, then takes the membership snapshot
    /// the whole fan-out will work against. Returns `InvalidRequest`, without
    /// having touched the pool, when the request is malformed.
    pub fn begin(&self, request: &QueryRequest) -> (r: Result<FanOut, RouterError>)
        requires
            self.pool.wf(),
        ensures
            r is Ok <==> spec_request_valid(request.ciphertext@, self.config),
            r matches Ok(f) ==> (f.wf() && f.spec_snapshot() == self.pool.ids()
                && f.outcome_map() == Map::<u64, OutcomeModel>::empty()),
            r is Err ==> (r matches Err(e) && e == RouterError::InvalidRequest),
    {
        match self.validate_request(request) {
            Ok(()) => {
                let snapshot = self.pool.snapshot();
                Ok(FanOut::new(snapshot))
            },
            Err(e) => Err(e),
        }
    }

    /// Decides, once the fan-out is complete, what the merger is given: the
    /// canonical merge input when at least one shard produced a usable
    /// response, and `AllShardsUnavailable` when none did.
    pub fn merge_input(&self, fanout: &FanOut) -> (r: Result<Vec<(u64, Vec<u8>)>, RouterError>)
        requires
            fanout.wf(),
            fanout.spec_complete(),
        ensures
            r is Ok <==> has_success(fanout.outcome_map()),
            r matches Ok(v) ==> (is_merge_input_for(success_view(v@), fanout.outcome_map())
                && v@.len() > 0),
            r is Err ==> (r matches Err(e) && e == RouterError::AllShardsUnavailable),
    {
        let v = fanout.successes();
        if v.len() == 0 {
            proof {
                if has_success(fanout.outcome_map()) {
                    let id = choose|id: u64|
                        #[trigger] fanout.outcome_map().dom().contains(id) && fanout.outcome_map()[id]
                            is Response;
                    assert(exists|i: int|
                        0 <= i < success_view(v@).len() && success_view(v@)[i].0 == id);
                    assert(false);
                }
            }
            Err(RouterError::AllShardsUnavailable)
        } else {
            proof {
                assert(success_view(v@).len() > 0);
                assert(fanout.outcome_map().dom().contains(success_view(v@)[0].0));
                assert(fanout.outcome_map()[success_view(v@)[0].0] is Response);
            }
            Ok(v)
        }
    }

    /// Forwards the merger's verdict to the client: its ciphertext output
    /// unchanged on success, `MergeFailure` when it rejected the input —
    /// never a fallback to unmerged shard data.
    pub fn finish(&self, verdict: MergeVerdict) -> (r: Result<QueryResponse, RouterError>)
        ensures
            match verdict {
                MergeVerdict::Merged { ciphertext } => (r matches Ok(resp) && resp.ciphertext@
                    == ciphertext@),
                MergeVerdict::Rejected => (r matches Err(e) && e == RouterError::MergeFailure),
            },
    {
        match verdict {
            MergeVerdict::Merged { ciphertext } => Ok(QueryResponse { ciphertext }),
            MergeVerdict::Rejected => Err(RouterError::MergeFailure),
        }
    }

    /// The complete request decision: given the validated request, the
    /// completed fan-out, and — where any shard succeeded — the merger's
    /// verdict on the extracted merge input, this is what the client is owed.
    /// The result is exactly [`spec_route_result`].
    pub fn conclude(&self, request: &QueryRequest, fanout: &FanOut, verdict: MergeVerdict) -> (r:
        Result<QueryResponse, RouterError>)
        requires
            fanout.wf(),
            fanout.spec_complete(),
        ensures
            ({
                let owed = spec_route_result(
                    spec_request_valid(request.ciphertext@, self.config),
                    fanout.outcome_map(),
                    match verdict {
                        MergeVerdict::Merged { ciphertext } => Some(ciphertext@),
                        MergeVerdict::Rejected => None,
                    },
                );
                match (r, owed) {
                    (Ok(resp), Ok(ct)) => resp.ciphertext@ == ct,
                    (Err(e), Err(owed_e)) => e == owed_e,
                    _ => false,
                }
            }),
    {
        match self.validate_request(request) {
            Ok(()) => {},
            Err(e) => { return Err(e) },
        }
        match self.merge_input(fanout) {
            Ok(_responses) => self.finish(verdict),
            Err(e) => Err(e),
        }
    }

    /// Out-of-band shard-health metadata: exactly the shards of the snapshot
    /// that failed or timed out, with their outcomes, for the observability
    /// channel. Never part of the client response.
    pub fn shard_health(&self, fanout: &FanOut) -> (r: Vec<(u64, crate::fanout::ShardOutcome)>)
        requires
            fanout.wf(),
        ensures
            health_entries_ok(r@, fanout.outcome_map()),
            forall|i: int|
                0 <= i < fanout.spec_snapshot().len() && fanout.outcome_map().dom().contains(
                    #[trigger] fanout.spec_snapshot()[i],
                ) && !(fanout.outcome_map()[fanout.spec_snapshot()[i]] is Response)
                    ==> listed_in_health(r@, fanout.spec_snapshot()[i]),
    {
        let ids = fanout.snapshot_ids().clone();
        let n = ids.len();
        let mut out: Vec<(u64, crate::fanout::ShardOutcome)> = Vec::new();
        let mut i: usize = 0;
        while i < n
            invariant
                fanout.wf(),
                ids@ == fanout.spec_snapshot(),
                n == ids@.len(),
                0 <= i <= n,
                health_entries_ok(out@, fanout.outcome_map()),
                forall|k: int|
                    0 <= k < i && fanout.outcome_map().dom().contains(
                        #[trigger] fanout.spec_snapshot()[k],
                    ) && !(fanout.outcome_map()[fanout.spec_snapshot()[k]] is Response)
                        ==> listed_in_health(out@, fanout.spec_snapshot()[k]),
            decreases n - i,
        {
            let ghost prev = out@;
            note_health(&mut out, fanout, ids[i]);
            proof {
                assert forall|k: int|
                    0 <= k < i + 1 && fanout.outcome_map().dom().contains(
                        #[trigger] fanout.spec_snapshot()[k],
                    ) && !(fanout.outcome_map()[fanout.spec_snapshot()[k]]
                        is Response) implies listed_in_health(out@, fanout.spec_snapshot()[k]) by {
                    if k < i {
                        assert(listed_in_health(prev, fanout.spec_snapshot()[k]));
                        let q = choose|q: int|
                            0 <= q < prev.len() && prev[q].0 == fanout.spec_snapshot()[k];
                        assert(out@[q].0 == fanout.spec_snapshot()[k]);
                    }
                }
            }
            i = i + 1;
        }
        out
    }
}

/// Every reported health entry is a recorded non-success outcome of this map.
pub open spec fn health_entries_ok(
    v: Seq<(u64, crate::fanout::ShardOutcome)>,
    m: Map<u64, OutcomeModel>,
) -> bool {
    forall|q: int|
        0 <= q < v.len() ==> m.dom().contains(#[trigger] v[q].0) && m[v[q].0] == v[q].1@ && !(
        v[q].1@ is Response)
}

/// Appends the shard's outcome to the health report when it is a recorded
/// failure or timeout; leaves the report untouched otherwise. Entries already
/// present stay in place.
fn note_health(out: &mut Vec<(u64, crate::fanout::ShardOutcome)>, fanout: &FanOut, id: u64)
    requires
        fanout.wf(),
        health_entries_ok(old(out)@, fanout.outcome_map()),
    ensures
        health_entries_ok(final(out)@, fanout.outcome_map()),
        final(out)@.len() >= old(out)@.len(),
        forall|q: int| 0 <= q < old(out)@.len() ==> final(out)@[q] == old(out)@[q],
        fanout.outcome_map().dom().contains(id) && !(fanout.outcome_map()[id] is Response)
            ==> listed_in_health(final(out)@, id),
    {
    match fanout.outcome_at(id) {
        Some(outcome) => {
            let is_resp = match outcome {
                crate::fanout::ShardOutcome::Response { .. } => true,
                _ => false,
            };
            if !is_resp {
                let copy = outcome.duplicate();
                out.push((id, copy));
                proof {
                    assert(out@[out@.len() - 1].0 == id);
                }
            }
        },
        None => {},
    }
}

/// Replaying an identical request against an unchanged shard membership and
/// unchanged per-shard outcomes yields a merge-equivalent result: the same
/// merge input reaches the merger, and a merger that answers as before gives
/// the client the same reply.
pub proof fn lemma_replay_equivalent(
    m1: Map<u64, OutcomeModel>,
    m2: Map<u64, OutcomeModel>,
    a: Seq<(u64, Seq<u8>)>,
    b: Seq<(u64, Seq<u8>)>,
    valid: bool,
    verdict_merged: Option<Seq<u8>>,
)
    requires
        m1 == m2,
        is_merge_input_for(a, m1),
        is_merge_input_for(b, m2),
    ensures
        a == b,
        spec_route_result(valid, m1, verdict_merged) == spec_route_result(
            valid,
            m2,
            verdict_merged,
        ),
{
    lemma_merge_input_unique(m1, a, b);
}

/// If at least one shard returned a usable ciphertext response before the
/// deadline and the merger accepts, the request succeeds with the merger's
/// ciphertext; if every shard timed out or failed, the request fails with
/// `AllShardsUnavailable` whatever the merger would have said — never with a
/// reply derived from empty data.
pub proof fn lemma_success_owed(
    m: Map<u64, OutcomeModel>,
    valid: bool,
    verdict_merged: Option<Seq<u8>>,
)
    requires
        valid,
    ensures
        has_success(m) && verdict_merged is Some ==> spec_route_result(valid, m, verdict_merged)
            == Ok::<Seq<u8>, RouterError>(verdict_merged->0),
        !has_success(m) ==> spec_route_result(valid, m, verdict_merged) == Err::<
            Seq<u8>,
            RouterError,
        >(RouterError::AllShardsUnavailable),
{
}

} // verus!
