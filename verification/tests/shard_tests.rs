use attested_router::retry::RetryPolicy;
use attested_router::session::AttestationVerdict;
use attested_router::session::SessionState;
use attested_router::shard::ShardAction;
use attested_router::shard::ShardClient;
use attested_router::shard::ShardError;
use attested_router::shard::ShardEvent;
use attested_router::shard::ShardIdentity;

fn test_identity(id: u64) -> ShardIdentity {
    ShardIdentity {
        shard_id: id,
        endpoint: format!("shard{}.example:3225", id),
        attestation_material: vec![id as u8; 4],
    }
}

fn test_policy() -> RetryPolicy {
    RetryPolicy { max_attempts: 2, base_delay_ms: 50, max_delay_ms: 400 }
}

fn accept(expires_at: u64) -> ShardEvent {
    ShardEvent::HandshakeVerdict {
        verdict: AttestationVerdict::Accept { key: vec![9u8; 32] },
        expires_at,
    }
}

#[test]
fn query_success_path() {
    let mut c = ShardClient::new(test_identity(1), test_policy());
    assert_eq!(c.step(ShardEvent::Start, 0), ShardAction::StartHandshake);
    assert_eq!(c.step(accept(1000), 0), ShardAction::SendRpc);
    let action = c.step(ShardEvent::RpcDelivered { ciphertext: vec![1, 2, 3] }, 1);
    assert_eq!(action, ShardAction::Settled);
    assert_eq!(c.outcome(), &Some(Ok(vec![1, 2, 3])));
}

#[test]
fn transport_failure_is_retried_then_terminal() {
    let mut c = ShardClient::new(test_identity(2), test_policy());
    assert_eq!(c.step(ShardEvent::Start, 0), ShardAction::StartHandshake);
    assert_eq!(c.step(accept(1000), 0), ShardAction::SendRpc);
    // First failure: the budget (2 attempts) allows one more, after a delay.
    assert_eq!(c.step(ShardEvent::RpcTransportFailed, 1), ShardAction::Wait { delay_ms: 100 });
    assert_eq!(c.step(ShardEvent::WaitElapsed, 101), ShardAction::SendRpc);
    // Second failure exhausts the budget: terminal transport error.
    assert_eq!(c.step(ShardEvent::RpcTransportFailed, 102), ShardAction::Settled);
    assert_eq!(c.outcome(), &Some(Err(ShardError::Transport)));
}

#[test]
fn timeout_exhausts_to_timeout_error() {
    let mut c = ShardClient::new(test_identity(3), test_policy());
    c.step(ShardEvent::Start, 0);
    c.step(accept(1000), 0);
    assert_eq!(c.step(ShardEvent::RpcTimedOut, 1), ShardAction::Wait { delay_ms: 100 });
    assert_eq!(c.step(ShardEvent::WaitElapsed, 101), ShardAction::SendRpc);
    assert_eq!(c.step(ShardEvent::RpcTimedOut, 300), ShardAction::Settled);
    assert_eq!(c.outcome(), &Some(Err(ShardError::Timeout)));
}

#[test]
fn attestation_rejection_is_terminal_and_not_retried() {
    let mut c = ShardClient::new(test_identity(4), test_policy());
    assert_eq!(c.step(ShardEvent::Start, 0), ShardAction::StartHandshake);
    let action = c.step(
        ShardEvent::HandshakeVerdict { verdict: AttestationVerdict::Reject, expires_at: 1000 },
        0,
    );
    // Terminal at once: no Wait, no further SendRpc, session revoked.
    assert_eq!(action, ShardAction::Settled);
    assert_eq!(c.outcome(), &Some(Err(ShardError::Untrusted)));
    assert_eq!(c.session_state(), SessionState::Revoked);
}

#[test]
fn tampered_response_expires_session() {
    let mut c = ShardClient::new(test_identity(5), test_policy());
    c.step(ShardEvent::Start, 0);
    c.step(accept(1000), 0);
    c.step(ShardEvent::RpcDelivered { ciphertext: vec![8, 8] }, 1);
    // The enclave later fails to verify the delivered response.
    assert_eq!(c.step(ShardEvent::ResponseRejected, 2), ShardAction::Settled);
    assert_eq!(c.outcome(), &Some(Err(ShardError::Tampered)));
    assert_eq!(c.session_state(), SessionState::Expired);
}

#[test]
fn expired_session_reattests_before_sending() {
    let mut c = ShardClient::new(test_identity(6), test_policy());
    c.step(ShardEvent::Start, 0);
    c.step(accept(10), 0);
    c.step(ShardEvent::RpcDelivered { ciphertext: vec![1] }, 1);
    // A fresh query after the validity window elapsed must re-attest.
    let mut c2 = ShardClient::new(test_identity(7), test_policy());
    c2.step(ShardEvent::Start, 0);
    c2.step(accept(10), 0);
    assert_eq!(c2.step(ShardEvent::RpcTransportFailed, 5), ShardAction::Wait { delay_ms: 100 });
    // By the time the backoff elapses the session has expired: re-attest.
    assert_eq!(c2.step(ShardEvent::WaitElapsed, 50), ShardAction::StartHandshake);
    assert_eq!(c2.session_state(), SessionState::Attesting);
}

#[test]
fn events_out_of_phase_are_ignored() {
    let mut c = ShardClient::new(test_identity(8), test_policy());
    assert_eq!(c.step(ShardEvent::RpcDelivered { ciphertext: vec![1] }, 0), ShardAction::Ignored);
    assert_eq!(c.step(ShardEvent::WaitElapsed, 0), ShardAction::Ignored);
    assert_eq!(c.step(ShardEvent::ResponseRejected, 0), ShardAction::Ignored);
}
