use attested_router::fanout::FanOut;
use attested_router::fanout::ShardOutcome;
use attested_router::pool::ShardPool;
use attested_router::retry::RetryPolicy;
use attested_router::router::MergeVerdict;
use attested_router::router::QueryRequest;
use attested_router::router::RouterConfig;
use attested_router::router::RouterError;
use attested_router::router::RouterService;
use attested_router::session::AttestationVerdict;
use attested_router::session::SessionState;
use attested_router::shard::ShardClient;
use attested_router::shard::ShardEvent;
use attested_router::shard::ShardIdentity;

fn client(id: u64) -> ShardClient {
    ShardClient::new(
        ShardIdentity {
            shard_id: id,
            endpoint: format!("shard{}.example:3225", id),
            attestation_material: vec![id as u8; 4],
        },
        RetryPolicy { max_attempts: 3, base_delay_ms: 10, max_delay_ms: 100 },
    )
}

fn router_with_shards(ids: &[u64]) -> RouterService {
    let mut pool = ShardPool::new();
    for &id in ids {
        pool.add(client(id));
    }
    RouterService::new(
        pool,
        RouterConfig { max_request_bytes: 1024, per_shard_timeout_ms: 50, request_deadline_ms: 500 },
    )
}

#[test]
fn malformed_request_fails_fast() {
    let router = router_with_shards(&[1, 2, 3]);
    let empty = QueryRequest { ciphertext: vec![] };
    assert_eq!(router.begin(&empty).err(), Some(RouterError::InvalidRequest));
    let oversized = QueryRequest { ciphertext: vec![0u8; 1025] };
    assert_eq!(router.begin(&oversized).err(), Some(RouterError::InvalidRequest));
    assert!(router.begin(&QueryRequest { ciphertext: vec![0u8; 1024] }).is_ok());
}

#[test]
fn two_successes_one_timeout_succeeds() {
    // Pool of 3 shards: 2 respond within budget, 1 times out. The request
    // succeeds, the merge input has exactly 2 entries, and the shard-health
    // metadata records 1 timeout.
    let router = router_with_shards(&[1, 2, 3]);
    let request = QueryRequest { ciphertext: vec![0xAA; 64] };
    let mut fanout = router.begin(&request).unwrap();
    assert!(fanout.record(2, ShardOutcome::Response { ciphertext: vec![2, 2] }));
    assert!(fanout.record(1, ShardOutcome::Response { ciphertext: vec![1, 1] }));
    fanout.apply_deadline();
    assert!(fanout.is_complete());

    let merge_input = router.merge_input(&fanout).unwrap();
    assert_eq!(merge_input, vec![(1, vec![1, 1]), (2, vec![2, 2])]);

    let health = router.shard_health(&fanout);
    assert_eq!(health.len(), 1);
    assert_eq!(health[0].0, 3);
    assert!(matches!(health[0].1, ShardOutcome::TimedOut));

    let response = router.finish(MergeVerdict::Merged { ciphertext: vec![0xBB; 8] }).unwrap();
    assert_eq!(response.ciphertext, vec![0xBB; 8]);
}

#[test]
fn all_attestation_failures_fail_whole_request() {
    // All 3 shards fail attestation: the request fails with
    // AllShardsUnavailable and every session ends revoked, unusable without
    // re-attestation.
    let mut pool = ShardPool::new();
    for id in [1u64, 2, 3] {
        pool.add(client(id));
    }
    for id in [1u64, 2, 3] {
        pool.step_client(id, ShardEvent::Start, 0);
        pool.step_client(
            id,
            ShardEvent::HandshakeVerdict { verdict: AttestationVerdict::Reject, expires_at: 100 },
            0,
        );
    }
    let router = RouterService::new(
        pool,
        RouterConfig { max_request_bytes: 1024, per_shard_timeout_ms: 50, request_deadline_ms: 500 },
    );
    let request = QueryRequest { ciphertext: vec![1, 2, 3] };
    let mut fanout = router.begin(&request).unwrap();
    for id in [1u64, 2, 3] {
        let c = router.pool.client(id).unwrap();
        assert_eq!(c.session_state(), SessionState::Revoked);
        let outcome = ShardOutcome::of_result(c.outcome().as_ref().unwrap());
        assert!(fanout.record(id, outcome));
    }
    assert!(fanout.is_complete());
    assert_eq!(router.merge_input(&fanout).err(), Some(RouterError::AllShardsUnavailable));
}

#[test]
fn all_timeouts_fail_whole_request() {
    // If every shard times out, the router returns AllShardsUnavailable and
    // never a response derived from empty data.
    let router = router_with_shards(&[1, 2]);
    let request = QueryRequest { ciphertext: vec![9] };
    let mut fanout = router.begin(&request).unwrap();
    fanout.apply_deadline();
    assert_eq!(router.merge_input(&fanout).err(), Some(RouterError::AllShardsUnavailable));
}

#[test]
fn one_success_is_enough() {
    // If at least one shard returns a decryptable response before the
    // deadline, the request returns Ok.
    let router = router_with_shards(&[1, 2, 3]);
    let request = QueryRequest { ciphertext: vec![5; 16] };
    let mut fanout = router.begin(&request).unwrap();
    fanout.record(3, ShardOutcome::Response { ciphertext: vec![3, 3, 3] });
    fanout.record(1, ShardOutcome::Unreachable);
    fanout.apply_deadline();
    let merge_input = router.merge_input(&fanout).unwrap();
    assert_eq!(merge_input, vec![(3, vec![3, 3, 3])]);
    let response = router.finish(MergeVerdict::Merged { ciphertext: vec![7] });
    assert_eq!(response.unwrap().ciphertext, vec![7]);
}

#[test]
fn merge_rejection_fails_request() {
    let router = router_with_shards(&[1]);
    assert_eq!(
        router.finish(MergeVerdict::Rejected).err(),
        Some(RouterError::MergeFailure)
    );
}

#[test]
fn merge_input_independent_of_arrival_order() {
    // The same per-shard outcomes, recorded in two different arrival orders,
    // hand the merger exactly the same input.
    let snapshot = vec![5u64, 9, 2, 7];
    let mut first = FanOut::new(snapshot.clone());
    first.record(9, ShardOutcome::Response { ciphertext: vec![9, 9] });
    first.record(2, ShardOutcome::Response { ciphertext: vec![2] });
    first.record(5, ShardOutcome::TimedOut);
    first.record(7, ShardOutcome::Response { ciphertext: vec![7] });

    let mut second = FanOut::new(snapshot);
    second.record(7, ShardOutcome::Response { ciphertext: vec![7] });
    second.record(5, ShardOutcome::TimedOut);
    second.record(2, ShardOutcome::Response { ciphertext: vec![2] });
    second.record(9, ShardOutcome::Response { ciphertext: vec![9, 9] });

    assert_eq!(first.successes(), second.successes());
    assert_eq!(first.successes(), vec![(2, vec![2]), (7, vec![7]), (9, vec![9, 9])]);
}

#[test]
fn replay_is_merge_equivalent() {
    // Replaying the identical request against an unchanged shard set with
    // unchanged outcomes yields the same merge input and the same reply.
    let router = router_with_shards(&[1, 2, 3]);
    let request = QueryRequest { ciphertext: vec![0x42; 32] };

    let mut run = || {
        let mut fanout = router.begin(&request).unwrap();
        fanout.record(2, ShardOutcome::Response { ciphertext: vec![2, 0, 2] });
        fanout.record(3, ShardOutcome::Unreachable);
        fanout.apply_deadline();
        router.merge_input(&fanout).unwrap()
    };
    let first = run();
    let second = run();
    assert_eq!(first, second);

    let reply1 = router.finish(MergeVerdict::Merged { ciphertext: vec![1, 2] }).unwrap();
    let reply2 = router.finish(MergeVerdict::Merged { ciphertext: vec![1, 2] }).unwrap();
    assert_eq!(reply1.ciphertext, reply2.ciphertext);
}

#[test]
fn conclude_follows_the_decision_rule() {
    let router = router_with_shards(&[1, 2]);
    let request = QueryRequest { ciphertext: vec![4; 8] };
    let mut fanout = router.begin(&request).unwrap();
    fanout.record(1, ShardOutcome::Response { ciphertext: vec![1] });
    fanout.apply_deadline();
    let ok = router.conclude(&request, &fanout, MergeVerdict::Merged { ciphertext: vec![0xAB] });
    assert_eq!(ok.unwrap().ciphertext, vec![0xAB]);
    let rejected = router.conclude(&request, &fanout, MergeVerdict::Rejected);
    assert_eq!(rejected.err(), Some(RouterError::MergeFailure));

    // With no usable shard response the merger verdict is irrelevant: the
    // request fails whole.
    let mut empty_run = router.begin(&request).unwrap();
    empty_run.apply_deadline();
    let failed = router.conclude(&request, &empty_run, MergeVerdict::Merged { ciphertext: vec![1] });
    assert_eq!(failed.err(), Some(RouterError::AllShardsUnavailable));

    // A malformed request fails before anything else is looked at.
    let bad = QueryRequest { ciphertext: vec![] };
    let invalid = router.conclude(&bad, &fanout, MergeVerdict::Rejected);
    assert_eq!(invalid.err(), Some(RouterError::InvalidRequest));
}
