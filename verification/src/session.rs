//! Lifecycle of one mutually attested, encrypted channel to a single remote
//! party: session key material, a validity window, and a monotonically
//! increasing sequence counter used to detect replay.
//!
//! The cryptographic proof checking itself is an outside capability: the
//! surrounding process submits the remote party's attestation report to the
//! verifier and feeds the verdict back in through [`AttestationSession::complete_handshake`].

use vstd::prelude::*;

verus! {

/// The lifecycle states of an attested channel.
#[derive(Clone, Copy, PartialEq, Eq, Structural, Debug)]
pub enum SessionState {
    /// No handshake has been attempted yet.
    Unattested,
    /// A handshake is in flight; concurrent callers must wait on it rather
    /// than start a second one.
    Attesting,
    /// The remote party's report was accepted; a session key and validity
    /// window are live.
    Attested,
    /// The validity window elapsed, the counter would have overflowed, or a
    /// decrypt/verify step failed; the session must be renegotiated.
    Expired,
    /// The remote party's report was rejected; the session must not be used
    /// again without a fresh handshake.
    Revoked,
}

/// What the outside attestation verifier answered for a submitted report.
pub enum AttestationVerdict {
    /// The report was accepted and this session key material was derived.
    Accept { key: Vec<u8> },
    /// The report failed verification.
    Reject,
}

/// The abstract value of a session: everything its contracts speak about.
pub struct SessionModel {
    /// Lifecycle state.
    pub state: SessionState,
    /// Derived session key material; meaningful only when attested.
    pub key: Seq<u8>,
    /// Replay-detection counter: the next value to use.
    pub seq: u64,
    /// End of the validity window, in the caller's clock units.
    pub expires_at: u64,
}

/// One step of the session lifecycle, as an abstract event.
pub enum SessionEvent {
    /// A caller asked for a usable session while none was live.
    HandshakeRequested,
    /// The verifier accepted the remote report.
    HandshakeAccepted { key: Seq<u8>, expires_at: u64 },
    /// The verifier rejected the remote report.
    HandshakeRejected,
    /// A decrypt or verify operation using this session failed.
    SecurityFailure,
    /// The validity window was found to have elapsed at this instant.
    WindowElapsed { now: u64 },
    /// The replay counter was consumed by one RPC.
    CounterAdvanced,
}

/// The session lifecycle as a transition function over abstract values.
///
/// Every executable operation on [`AttestationSession`] promises to change the
/// session exactly as one step of this function does.
pub open spec fn session_step(m: SessionModel, e: SessionEvent) -> SessionModel {
    match e {
        SessionEvent::HandshakeRequested => {
            if m.state is Unattested || m.state is Expired || m.state is Revoked {
                SessionModel { state: SessionState::Attesting, ..m }
            } else {
                m
            }
        },
        SessionEvent::HandshakeAccepted { key, expires_at } => {
            if m.state is Attesting {
                SessionModel { state: SessionState::Attested, key, seq: 0, expires_at }
            } else {
                m
            }
        },
        SessionEvent::HandshakeRejected => {
            if m.state is Attesting {
                SessionModel { state: SessionState::Revoked, ..m }
            } else {
                m
            }
        },
        SessionEvent::SecurityFailure => {
            if m.state is Attested {
                SessionModel { state: SessionState::Expired, ..m }
            } else {
                m
            }
        },
        SessionEvent::WindowElapsed { now } => {
            if m.state is Attested && now >= m.expires_at {
                SessionModel { state: SessionState::Expired, ..m }
            } else {
                m
            }
        },
        SessionEvent::CounterAdvanced => {
            if m.state is Attested {
                if m.seq == u64::MAX {
                    SessionModel { state: SessionState::Expired, ..m }
                } else {
                    SessionModel { seq: (m.seq + 1) as u64, ..m }
                }
            } else {
                m
            }
        },
    }
}

/// Whether a session may be used to send an RPC at this instant.
pub open spec fn spec_usable(m: SessionModel, now: u64) -> bool {
    m.state is Attested && now < m.expires_at && m.seq < u64::MAX
}

/// One mutually attested channel. Exclusively owned by one shard client (or by
/// the router for its client-facing side); never shared across shards.
pub struct AttestationSession {
    state: SessionState,
    key: Vec<u8>,
    seq: u64,
    expires_at: u64,
}

impl View for AttestationSession {
    type V = SessionModel;

    closed spec fn view(&self) -> SessionModel {
        SessionModel { state: self.state, key: self.key@, seq: self.seq, expires_at: self.expires_at }
    }
}

impl AttestationSession {
    /// A fresh, never-attested session.
    pub fn new() -> (s: AttestationSession)
        ensures
            s@.state is Unattested,
            s@.seq == 0,
            s@.key == Seq::<u8>::empty(),
    {
        AttestationSession { state: SessionState::Unattested, key: Vec::new(), seq: 0, expires_at: 0 }
    }

    /// The current lifecycle state.
    pub fn state(&self) -> (r: SessionState)
        ensures
            r == self@.state,
    {
        self.state
    }

    /// The session key material; meaningful only while attested.
    pub fn key(&self) -> (r: &Vec<u8>)
        ensures
            r@ == self@.key,
    {
        &self.key
    }

    /// Whether an RPC may be sent over this session at this instant.
    pub fn usable(&self, now: u64) -> (r: bool)
        ensures
            r == spec_usable(self@, now),
    {
        self.state == SessionState::Attested && now < self.expires_at && self.seq < u64::MAX
    }

    /// Asks for a handshake. Returns true when a new handshake round trip must
    /// be started; returns false when one is already in flight (the caller
    /// must wait on it) or the session is already attested.
    pub fn begin_handshake(&mut self) -> (started: bool)
        ensures
            final(self)@ == session_step(old(self)@, SessionEvent::HandshakeRequested),
            started == (old(self)@.state is Unattested || old(self)@.state is Expired || old(
                self,
            )@.state is Revoked),
            started ==> final(self)@.state is Attesting,
    {
        match self.state {
            SessionState::Unattested | SessionState::Expired | SessionState::Revoked => {
                self.state = SessionState::Attesting;
                true
            },
            _ => false,
        }
    }

    /// Records the verifier's verdict for the in-flight handshake. On accept
    /// the session becomes attested with the derived key, a reset replay
    /// counter, and a validity window ending at `expires_at`; on reject it is
    /// revoked and must not be used without a fresh handshake.
    pub fn complete_handshake(&mut self, verdict: AttestationVerdict, expires_at: u64) -> (accepted:
        bool)
        requires
            old(self)@.state is Attesting,
        ensures
            final(self)@ == session_step(
                old(self)@,
                match verdict {
                    AttestationVerdict::Accept { key } => SessionEvent::HandshakeAccepted {
                        key: key@,
                        expires_at,
                    },
                    AttestationVerdict::Reject => SessionEvent::HandshakeRejected,
                },
            ),
            accepted == (verdict is Accept),
            accepted ==> final(self)@.state is Attested && final(self)@.seq == 0,
            !accepted ==> final(self)@.state is Revoked,
    {
        match verdict {
            AttestationVerdict::Accept { key } => {
                self.state = SessionState::Attested;
                self.key = key;
                self.seq = 0;
                self.expires_at = expires_at;
                true
            },
            AttestationVerdict::Reject => {
                self.state = SessionState::Revoked;
                false
            },
        }
    }

    /// Notes a failed decrypt or verify on this channel: a security event, not
    /// a transient fault. An attested session is forced to expire.
    pub fn record_security_failure(&mut self)
        ensures
            final(self)@ == session_step(old(self)@, SessionEvent::SecurityFailure),
            !(final(self)@.state is Attested),
    {
        if self.state == SessionState::Attested {
            self.state = SessionState::Expired;
        }
    }

    /// Expires the session if its validity window has elapsed at `now`.
    pub fn expire_if_elapsed(&mut self, now: u64)
        ensures
            final(self)@ == session_step(old(self)@, SessionEvent::WindowElapsed { now }),
    {
        if self.state == SessionState::Attested && now >= self.expires_at {
            self.state = SessionState::Expired;
        }
    }

    /// Consumes one replay-counter value for an RPC. Returns the value to use,
    /// or `None` when the counter would overflow, in which case the session
    /// expires and must be renegotiated.
    pub fn advance_seq(&mut self) -> (r: Option<u64>)
        requires
            old(self)@.state is Attested,
        ensures
            final(self)@ == session_step(old(self)@, SessionEvent::CounterAdvanced),
            r is Some <==> old(self)@.seq < u64::MAX,
            r matches Some(n) ==> n == old(self)@.seq && final(self)@.seq == n + 1,
            r is None ==> final(self)@.state is Expired,
    {
        if self.seq == u64::MAX {
            self.state = SessionState::Expired;
            None
        } else {
            let n = self.seq;
            self.seq = n + 1;
            Some(n)
        }
    }
}

/// A session that is not live cannot become usable in one step except by the
/// verifier accepting an in-flight handshake: there is no path back to
/// `Attested` that skips verification.
pub proof fn lemma_no_reuse_without_verification(m: SessionModel, e: SessionEvent)
    requires
        !(m.state is Attested),
    ensures
        session_step(m, e).state is Attested ==> (m.state is Attesting
            && e is HandshakeAccepted),
{
}

/// Running a session through a sequence of lifecycle events.
pub open spec fn session_run(m: SessionModel, es: Seq<SessionEvent>) -> SessionModel
    decreases es.len(),
{
    if es.len() == 0 {
        m
    } else {
        session_step(session_run(m, es.drop_last()), es.last())
    }
}

/// A revoked or expired session that later becomes attested must have gone
/// through a fresh handshake: some step asked for one, and a later step was
/// the verifier accepting it.
pub proof fn lemma_fresh_attestation_required(m: SessionModel, es: Seq<SessionEvent>)
    requires
        m.state is Expired || m.state is Revoked,
        session_run(m, es).state is Attested,
    ensures
        exists|i: int, j: int|
            0 <= i <= j < es.len() && es[i] is HandshakeRequested && es[j] is HandshakeAccepted,
    decreases es.len(),
{
    let n = es.len() as int;
    let prefix = es.take(n - 1);
    let last = es[n - 1];
    assert(session_run(m, es) == session_step(session_run(m, prefix), last));
    let before = session_run(m, prefix);
    if before.state is Attested {
        lemma_fresh_attestation_required(m, prefix);
        let (i, j) = choose|i: int, j: int|
            0 <= i <= j < prefix.len() && prefix[i] is HandshakeRequested
                && prefix[j] is HandshakeAccepted;
        assert(es[i] is HandshakeRequested && es[j] is HandshakeAccepted);
    } else {
        lemma_no_reuse_without_verification(before, last);
        assert(before.state is Attesting);
        lemma_attesting_needs_request(m, prefix);
        let i = choose|i: int| 0 <= i < prefix.len() && prefix[i] is HandshakeRequested;
        assert(es[i] is HandshakeRequested && es[n - 1] is HandshakeAccepted);
    }
}

/// A session that starts expired or revoked can only be mid-handshake because
/// some step asked for a handshake.
pub proof fn lemma_attesting_needs_request(m: SessionModel, es: Seq<SessionEvent>)
    requires
        m.state is Expired || m.state is Revoked,
        session_run(m, es).state is Attesting,
    ensures
        exists|i: int| 0 <= i < es.len() && es[i] is HandshakeRequested,
    decreases es.len(),
{
    let n = es.len() as int;
    let prefix = es.take(n - 1);
    let last = es[n - 1];
    assert(session_run(m, es) == session_step(session_run(m, prefix), last));
    let before = session_run(m, prefix);
    if before.state is Attesting {
        lemma_attesting_needs_request(m, prefix);
        let i = choose|i: int| 0 <= i < prefix.len() && prefix[i] is HandshakeRequested;
        assert(es[i] is HandshakeRequested);
    } else {
        assert(last is HandshakeRequested);
        assert(es[n - 1] is HandshakeRequested);
    }
}

/// Asking twice for the same uninitialized session starts exactly one
/// handshake: the second request finds one already in flight and changes
/// nothing.
pub proof fn lemma_handshake_deduplicated(m: SessionModel)
    requires
        !(m.state is Attested),
    ensures
        session_step(m, SessionEvent::HandshakeRequested).state is Attesting,
        session_step(session_step(m, SessionEvent::HandshakeRequested), SessionEvent::HandshakeRequested)
            == session_step(m, SessionEvent::HandshakeRequested),
{
}

} // verus!
