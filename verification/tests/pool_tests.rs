use attested_router::fanout::FanOut;
use attested_router::fanout::ShardOutcome;
use attested_router::pool::ShardPool;
use attested_router::retry::RetryPolicy;
use attested_router::shard::ShardClient;
use attested_router::shard::ShardIdentity;

fn client(id: u64) -> ShardClient {
    ShardClient::new(
        ShardIdentity {
            shard_id: id,
            endpoint: format!("shard{}.example:3225", id),
            attestation_material: vec![0u8; 4],
        },
        RetryPolicy { max_attempts: 3, base_delay_ms: 10, max_delay_ms: 100 },
    )
}

#[test]
fn membership_add_remove() {
    let mut pool = ShardPool::new();
    assert_eq!(pool.len(), 0);
    assert!(pool.add(client(1)));
    assert!(pool.add(client(2)));
    assert!(!pool.add(client(1)));
    assert_eq!(pool.len(), 2);
    assert!(pool.contains(1));
    assert!(pool.remove(1));
    assert!(!pool.contains(1));
    assert!(!pool.remove(1));
    assert_eq!(pool.len(), 1);
}

#[test]
fn snapshot_is_stable_copy() {
    let mut pool = ShardPool::new();
    pool.add(client(1));
    pool.add(client(2));
    pool.add(client(3));
    let snapshot = pool.snapshot();
    assert_eq!(snapshot, vec![1, 2, 3]);
    pool.remove(2);
    // The copy taken earlier is unaffected; a fresh snapshot reflects the
    // removal.
    assert_eq!(snapshot, vec![1, 2, 3]);
    assert_eq!(pool.snapshot(), vec![1, 3]);
}

#[test]
fn removal_mid_flight_does_not_cancel_the_fanout() {
    // A fan-out takes its snapshot, then the shard is removed from the pool:
    // the in-flight call still settles and its outcome is still recorded;
    // only later snapshots stop naming the shard.
    let mut pool = ShardPool::new();
    pool.add(client(1));
    pool.add(client(2));
    let mut fanout = FanOut::new(pool.snapshot());
    pool.remove(2);
    assert!(fanout.record(2, ShardOutcome::Response { ciphertext: vec![5] }));
    assert!(fanout.record(1, ShardOutcome::TimedOut));
    assert!(fanout.is_complete());
    assert!(!pool.contains(2));
    assert_eq!(pool.snapshot(), vec![1]);
}

#[test]
fn outcome_recorded_once_per_shard() {
    let mut fanout = FanOut::new(vec![1, 2]);
    assert!(fanout.record(1, ShardOutcome::TimedOut));
    assert!(!fanout.record(1, ShardOutcome::Unreachable));
    assert!(!fanout.record(9, ShardOutcome::TimedOut));
    assert!(!fanout.is_complete());
    assert!(fanout.record(2, ShardOutcome::Tampered));
    assert!(fanout.is_complete());
}
