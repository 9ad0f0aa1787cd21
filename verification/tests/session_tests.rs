use attested_router::session::AttestationSession;
use attested_router::session::AttestationVerdict;
use attested_router::session::SessionState;

#[test]
fn fresh_session_is_unattested() {
    let s = AttestationSession::new();
    assert_eq!(s.state(), SessionState::Unattested);
    assert!(!s.usable(0));
}

#[test]
fn handshake_accept_makes_usable() {
    let mut s = AttestationSession::new();
    assert!(s.begin_handshake());
    assert_eq!(s.state(), SessionState::Attesting);
    let accepted = s.complete_handshake(AttestationVerdict::Accept { key: vec![7u8; 32] }, 1000);
    assert!(accepted);
    assert_eq!(s.state(), SessionState::Attested);
    assert_eq!(s.key().len(), 32);
    assert!(s.usable(999));
    assert!(!s.usable(1000));
}

#[test]
fn concurrent_callers_trigger_one_handshake() {
    // Two callers ask for the same uninitialized session: only the first
    // starts a handshake round trip; the second finds one in flight.
    let mut s = AttestationSession::new();
    let first = s.begin_handshake();
    let second = s.begin_handshake();
    assert!(first);
    assert!(!second);
    assert_eq!(s.state(), SessionState::Attesting);
}

#[test]
fn rejected_session_needs_fresh_handshake() {
    // A session that fails attestation verification is revoked and cannot be
    // used again until a fresh handshake has been accepted.
    let mut s = AttestationSession::new();
    assert!(s.begin_handshake());
    let accepted = s.complete_handshake(AttestationVerdict::Reject, 1000);
    assert!(!accepted);
    assert_eq!(s.state(), SessionState::Revoked);
    assert!(!s.usable(0));
    // Recovery requires a fresh Attesting transition.
    assert!(s.begin_handshake());
    assert_eq!(s.state(), SessionState::Attesting);
    assert!(s.complete_handshake(AttestationVerdict::Accept { key: vec![1u8; 16] }, 50));
    assert!(s.usable(10));
}

#[test]
fn sequence_counter_advances() {
    let mut s = AttestationSession::new();
    s.begin_handshake();
    s.complete_handshake(AttestationVerdict::Accept { key: vec![0u8; 16] }, 1000);
    assert_eq!(s.advance_seq(), Some(0));
    assert_eq!(s.advance_seq(), Some(1));
    assert_eq!(s.advance_seq(), Some(2));
    assert_eq!(s.state(), SessionState::Attested);
}

#[test]
fn security_failure_expires_session() {
    let mut s = AttestationSession::new();
    s.begin_handshake();
    s.complete_handshake(AttestationVerdict::Accept { key: vec![0u8; 16] }, 1000);
    s.record_security_failure();
    assert_eq!(s.state(), SessionState::Expired);
    assert!(!s.usable(0));
}

#[test]
fn window_elapse_expires_session() {
    let mut s = AttestationSession::new();
    s.begin_handshake();
    s.complete_handshake(AttestationVerdict::Accept { key: vec![0u8; 16] }, 100);
    s.expire_if_elapsed(99);
    assert_eq!(s.state(), SessionState::Attested);
    s.expire_if_elapsed(100);
    assert_eq!(s.state(), SessionState::Expired);
}
