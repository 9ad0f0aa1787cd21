//! One backend shard endpoint: its identity, its attested session, and the
//! retry schedule for the request in flight.
//!
//! The client is a state machine from events to actions: the surrounding
//! process performs each action (start a handshake, send the RPC, wait out a
//! backoff delay) and feeds the result back in as the next event. Every
//! transition is promised, exactly, to be one step of [`shard_step`].

use vstd::prelude::*;
use crate::retry::RetryPolicy;
use crate::retry::RetryState;
use crate::retry::policy_wf;
use crate::retry::spec_backoff_delay;
use crate::session::AttestationSession;
use crate::session::AttestationVerdict;
use crate::session::SessionEvent;
use crate::session::SessionModel;
use crate::session::SessionState;
use crate::session::session_step;
use crate::session::spec_usable;

verus! {

/// Why one shard failed to contribute a response to this request.
#[derive(Clone, Copy, PartialEq, Eq, Structural, Debug)]
pub enum ShardError {
    /// The shard's attestation report failed verification: terminal, never
    /// retried, surfaced as a security-relevant event.
    Untrusted,
    /// A response arrived but failed decrypt/verify afterwards; the channel
    /// may be compromised and the session is forced to expire.
    Tampered,
    /// Transport kept failing until the retry budget was exhausted.
    Transport,
    /// The shard did not answer within its budget, after exhausting retries.
    Timeout,
}

/// Immutable description of one backend shard, fixed at pool configuration
/// time and replaced — never mutated — on reconfiguration.
pub struct ShardIdentity {
    /// Stable identifier, unique within a pool.
    pub shard_id: u64,
    /// Endpoint address the surrounding process connects to.
    pub endpoint: String,
    /// Advertised public attestation material for this shard.
    pub attestation_material: Vec<u8>,
}

/// Where the client stands in driving one query to its shard.
#[derive(Clone, Copy, PartialEq, Eq, Structural, Debug)]
pub enum ShardPhase {
    /// No query in flight.
    Idle,
    /// Waiting for the attestation verifier's verdict.
    AwaitingHandshake,
    /// Waiting for the shard's RPC response.
    AwaitingRpc,
    /// Waiting out a backoff delay before the next attempt.
    Backoff,
    /// An outcome is recorded; nothing further will be sent.
    Settled,
}

/// What the surrounding process must do next for this shard.
#[derive(PartialEq, Eq, Debug)]
pub enum ShardAction {
    /// Submit the shard's attestation report to the verifier.
    StartHandshake,
    /// A handshake is already in flight; wait for its verdict.
    AwaitHandshake,
    /// Send the query ciphertext over the attested channel.
    SendRpc,
    /// Wait this many milliseconds, then report `WaitElapsed`.
    Wait { delay_ms: u64 },
    /// The outcome is settled; collect it.
    Settled,
    /// The event did not apply to the current phase; nothing changed.
    Ignored,
}

/// An observation the surrounding process feeds back into the client.
pub enum ShardEvent {
    /// A caller starts a query on an idle client.
    Start,
    /// The attestation verifier answered for the in-flight handshake.
    HandshakeVerdict { verdict: AttestationVerdict, expires_at: u64 },
    /// The shard answered with this response ciphertext.
    RpcDelivered { ciphertext: Vec<u8> },
    /// The transport failed before a response arrived.
    RpcTransportFailed,
    /// The per-shard response budget elapsed with no response.
    RpcTimedOut,
    /// The enclave later failed to decrypt or verify the delivered response.
    ResponseRejected,
    /// The backoff delay has been waited out.
    WaitElapsed,
}

/// The abstract value of a shard event.
pub enum ShardEventModel {
    Start,
    HandshakeAccepted { key: Seq<u8>, expires_at: u64 },
    HandshakeRejected { expires_at: u64 },
    RpcDelivered { ciphertext: Seq<u8> },
    RpcTransportFailed,
    RpcTimedOut,
    ResponseRejected,
    WaitElapsed,
}

impl View for ShardEvent {
    type V = ShardEventModel;

    open spec fn view(&self) -> ShardEventModel {
        match self {
            ShardEvent::Start => ShardEventModel::Start,
            ShardEvent::HandshakeVerdict { verdict, expires_at } => match verdict {
                AttestationVerdict::Accept { key } => ShardEventModel::HandshakeAccepted {
                    key: key@,
                    expires_at: *expires_at,
                },
                AttestationVerdict::Reject => ShardEventModel::HandshakeRejected {
                    expires_at: *expires_at,
                },
            },
            ShardEvent::RpcDelivered { ciphertext } => ShardEventModel::RpcDelivered {
                ciphertext: ciphertext@,
            },
            ShardEvent::RpcTransportFailed => ShardEventModel::RpcTransportFailed,
            ShardEvent::RpcTimedOut => ShardEventModel::RpcTimedOut,
            ShardEvent::ResponseRejected => ShardEventModel::ResponseRejected,
            ShardEvent::WaitElapsed => ShardEventModel::WaitElapsed,
        }
    }
}

/// The abstract value of a shard client: everything its contracts speak about.
pub struct ShardModel {
    /// The attested session to this shard.
    pub session: SessionModel,
    /// Failed attempts recorded for the request in flight.
    pub failures: u32,
    /// The delay owed before the next re-attempt, in milliseconds.
    pub next_delay_ms: u64,
    /// Where the client stands.
    pub phase: ShardPhase,
    /// The settled outcome, once there is one.
    pub outcome: Option<Result<Seq<u8>, ShardError>>,
}

/// Readies the session and decides how to proceed with an attempt: send at
/// once over a usable session, wait on a handshake already in flight, or
/// start a fresh one.
pub open spec fn spec_dispatch(m: ShardModel, now: u64) -> (ShardModel, ShardAction) {
    let s1 = session_step(m.session, SessionEvent::WindowElapsed { now });
    if spec_usable(s1, now) {
        (
            ShardModel {
                session: session_step(s1, SessionEvent::CounterAdvanced),
                phase: ShardPhase::AwaitingRpc,
                ..m
            },
            ShardAction::SendRpc,
        )
    } else if s1.state is Attesting {
        (ShardModel { session: s1, phase: ShardPhase::AwaitingHandshake, ..m }, ShardAction::AwaitHandshake)
    } else {
        let s2 = if s1.state is Attested {
            session_step(s1, SessionEvent::CounterAdvanced)
        } else {
            s1
        };
        (
            ShardModel {
                session: session_step(s2, SessionEvent::HandshakeRequested),
                phase: ShardPhase::AwaitingHandshake,
                ..m
            },
            ShardAction::StartHandshake,
        )
    }
}

/// Books one failed attempt: back off and try again while the budget allows,
/// otherwise settle on the terminal error.
pub open spec fn spec_book_failure(m: ShardModel, p: RetryPolicy, terminal: ShardError) -> (
    ShardModel,
    ShardAction,
) {
    let f1 = (m.failures + 1) as u32;
    let d1 = spec_backoff_delay(p, f1 as nat) as u64;
    if m.failures + 1 < p.max_attempts {
        (
            ShardModel { failures: f1, next_delay_ms: d1, phase: ShardPhase::Backoff, ..m },
            ShardAction::Wait { delay_ms: d1 },
        )
    } else {
        (
            ShardModel {
                failures: f1,
                next_delay_ms: d1,
                phase: ShardPhase::Settled,
                outcome: Some(Err(terminal)),
                ..m
            },
            ShardAction::Settled,
        )
    }
}

/// The shard client as a transition function over abstract values: given the
/// current state, an observed event, the retry policy, and the caller's
/// clock, it yields the next state and the action owed.
pub open spec fn shard_step(m: ShardModel, e: ShardEventModel, p: RetryPolicy, now: u64) -> (
    ShardModel,
    ShardAction,
) {
    match e {
        ShardEventModel::Start => {
            if m.phase is Idle {
                spec_dispatch(m, now)
            } else {
                (m, ShardAction::Ignored)
            }
        },
        ShardEventModel::HandshakeAccepted { key, expires_at } => {
            if m.phase is AwaitingHandshake && m.session.state is Attesting {
                let s1 = session_step(
                    m.session,
                    SessionEvent::HandshakeAccepted { key, expires_at },
                );
                spec_dispatch(ShardModel { session: s1, ..m }, now)
            } else {
                (m, ShardAction::Ignored)
            }
        },
        ShardEventModel::HandshakeRejected { expires_at } => {
            if m.phase is AwaitingHandshake && m.session.state is Attesting {
                (
                    ShardModel {
                        session: session_step(m.session, SessionEvent::HandshakeRejected),
                        phase: ShardPhase::Settled,
                        outcome: Some(Err(ShardError::Untrusted)),
                        ..m
                    },
                    ShardAction::Settled,
                )
            } else {
                (m, ShardAction::Ignored)
            }
        },
        ShardEventModel::RpcDelivered { ciphertext } => {
            if m.phase is AwaitingRpc {
                (
                    ShardModel {
                        phase: ShardPhase::Settled,
                        outcome: Some(Ok(ciphertext)),
                        ..m
                    },
                    ShardAction::Settled,
                )
            } else {
                (m, ShardAction::Ignored)
            }
        },
        ShardEventModel::RpcTransportFailed => {
            if m.phase is AwaitingRpc {
                spec_book_failure(m, p, ShardError::Transport)
            } else {
                (m, ShardAction::Ignored)
            }
        },
        ShardEventModel::RpcTimedOut => {
            if m.phase is AwaitingRpc {
                spec_book_failure(m, p, ShardError::Timeout)
            } else {
                (m, ShardAction::Ignored)
            }
        },
        ShardEventModel::ResponseRejected => {
            if m.phase is AwaitingRpc || (m.phase is Settled && m.outcome matches Some(Ok(_))) {
                (
                    ShardModel {
                        session: session_step(m.session, SessionEvent::SecurityFailure),
                        phase: ShardPhase::Settled,
                        outcome: Some(Err(ShardError::Tampered)),
                        ..m
                    },
                    ShardAction::Settled,
                )
            } else {
                (m, ShardAction::Ignored)
            }
        },
        ShardEventModel::WaitElapsed => {
            if m.phase is Backoff {
                spec_dispatch(m, now)
            } else {
                (m, ShardAction::Ignored)
            }
        },
    }
}

/// One backend shard: identity, attested session, retry schedule, and the
/// state of the query in flight.
pub struct ShardClient {
    identity: ShardIdentity,
    session: AttestationSession,
    retry: RetryState,
    policy: RetryPolicy,
    phase: ShardPhase,
    outcome: Option<Result<Vec<u8>, ShardError>>,
}

impl View for ShardClient {
    type V = ShardModel;

    closed spec fn view(&self) -> ShardModel {
        ShardModel {
            session: self.session@,
            failures: self.retry.spec_failures(),
            next_delay_ms: self.retry.spec_next_delay(),
            phase: self.phase,
            outcome: match self.outcome {
                Some(Ok(ct)) => Some(Ok(ct@)),
                Some(Err(e)) => Some(Err(e)),
                None => None,
            },
        }
    }
}

impl ShardClient {
    /// The client's bookkeeping is consistent: the retry state follows its
    /// policy's schedule, an outcome exists exactly when settled, and the
    /// attempt budget is not yet spent while a query is still being driven.
    pub open spec fn wf(self) -> bool {
        &&& self.retry_state().wf(self.policy())
        &&& self.policy().max_attempts < u32::MAX
        &&& (self@.outcome is Some <==> self@.phase is Settled)
        &&& !(self@.phase is Settled) ==> self@.failures < self.policy().max_attempts
    }

    /// The retry schedule state.
    pub closed spec fn retry_state(self) -> RetryState {
        self.retry
    }

    /// The configured retry policy.
    pub closed spec fn policy(self) -> RetryPolicy {
        self.policy
    }

    /// The shard's identity.
    pub closed spec fn spec_identity(self) -> ShardIdentity {
        self.identity
    }

    /// A fresh client for one shard, with no query in flight and an
    /// unattested session.
    pub fn new(identity: ShardIdentity, policy: RetryPolicy) -> (r: ShardClient)
        requires
            policy_wf(policy),
            policy.max_attempts < u32::MAX,
        ensures
            r.wf(),
            r.policy() == policy,
            r.spec_identity() == identity,
            r@.phase is Idle,
            r@.outcome is None,
            r@.session.state is Unattested,
            r@.failures == 0,
    {
        ShardClient {
            identity,
            session: AttestationSession::new(),
            retry: RetryState::new(&policy),
            policy,
            phase: ShardPhase::Idle,
            outcome: None,
        }
    }

    /// The stable shard identifier.
    pub fn shard_id(&self) -> (r: u64)
        ensures
            r == self.spec_identity().shard_id,
    {
        self.identity.shard_id
    }

    /// The shard's immutable identity.
    pub fn identity(&self) -> (r: &ShardIdentity)
        ensures
            *r == self.spec_identity(),
    {
        &self.identity
    }

    /// The lifecycle state of the attested session to this shard.
    pub fn session_state(&self) -> (r: SessionState)
        ensures
            r == self@.session.state,
    {
        self.session.state()
    }

    /// The settled outcome, if the query has settled.
    pub fn outcome(&self) -> (r: &Option<Result<Vec<u8>, ShardError>>)
        ensures
            match r {
                Some(Ok(ct)) => self@.outcome == Some(Ok::<Seq<u8>, ShardError>(ct@)),
                Some(Err(e)) => self@.outcome == Some(Err::<Seq<u8>, ShardError>(*e)),
                None => self@.outcome is None,
            },
    {
        &self.outcome
    }

    /// Readies the session and decides how this attempt proceeds.
    fn dispatch(&mut self, now: u64) -> (action: ShardAction)
        requires
            old(self).wf(),
            !(old(self)@.phase is Settled),
        ensures
            final(self).wf(),
            final(self).policy() == old(self).policy(),
            final(self).spec_identity() == old(self).spec_identity(),
            (final(self)@, action) == spec_dispatch(old(self)@, now),
    {
        self.session.expire_if_elapsed(now);
        if self.session.usable(now) {
            let _advanced = self.session.advance_seq();
            self.phase = ShardPhase::AwaitingRpc;
            ShardAction::SendRpc
        } else if self.session.state() == SessionState::Attesting {
            self.phase = ShardPhase::AwaitingHandshake;
            ShardAction::AwaitHandshake
        } else {
            if self.session.state() == SessionState::Attested {
                let _advanced = self.session.advance_seq();
            }
            let _started = self.session.begin_handshake();
            self.phase = ShardPhase::AwaitingHandshake;
            ShardAction::StartHandshake
        }
    }

    /// Books one failed attempt against the retry schedule.
    fn book_failure(&mut self, terminal: ShardError) -> (action: ShardAction)
        requires
            old(self).wf(),
            !(old(self)@.phase is Settled),
        ensures
            final(self).wf(),
            final(self).policy() == old(self).policy(),
            final(self).spec_identity() == old(self).spec_identity(),
            (final(self)@, action) == spec_book_failure(old(self)@, old(self).policy(), terminal),
    {
        let policy = self.policy;
        let retry = self.retry.record_failure(&policy);
        if retry {
            self.phase = ShardPhase::Backoff;
            ShardAction::Wait { delay_ms: self.retry.next_delay_ms() }
        } else {
            self.phase = ShardPhase::Settled;
            self.outcome = Some(Err(terminal));
            ShardAction::Settled
        }
    }

    /// Feeds one observed event into the client and returns the action the
    /// surrounding process owes next. The change is exactly one step of
    /// [`shard_step`].
    pub fn step(&mut self, event: ShardEvent, now: u64) -> (action: ShardAction)
        requires
            old(self).wf(),
        ensures
            final(self).wf(),
            final(self).policy() == old(self).policy(),
            final(self).spec_identity() == old(self).spec_identity(),
            (final(self)@, action) == shard_step(old(self)@, event@, old(self).policy(), now),
    {
        match event {
            ShardEvent::Start => {
                if self.phase == ShardPhase::Idle {
                    self.dispatch(now)
                } else {
                    ShardAction::Ignored
                }
            },
            ShardEvent::HandshakeVerdict { verdict, expires_at } => {
                if self.phase == ShardPhase::AwaitingHandshake && self.session.state()
                    == SessionState::Attesting {
                    let accepted = self.session.complete_handshake(verdict, expires_at);
                    if accepted {
                        self.dispatch(now)
                    } else {
                        self.phase = ShardPhase::Settled;
                        self.outcome = Some(Err(ShardError::Untrusted));
                        ShardAction::Settled
                    }
                } else {
                    ShardAction::Ignored
                }
            },
            ShardEvent::RpcDelivered { ciphertext } => {
                if self.phase == ShardPhase::AwaitingRpc {
                    self.phase = ShardPhase::Settled;
                    self.outcome = Some(Ok(ciphertext));
                    ShardAction::Settled
                } else {
                    ShardAction::Ignored
                }
            },
            ShardEvent::RpcTransportFailed => {
                if self.phase == ShardPhase::AwaitingRpc {
                    self.book_failure(ShardError::Transport)
                } else {
                    ShardAction::Ignored
                }
            },
            ShardEvent::RpcTimedOut => {
                if self.phase == ShardPhase::AwaitingRpc {
                    self.book_failure(ShardError::Timeout)
                } else {
                    ShardAction::Ignored
                }
            },
            ShardEvent::ResponseRejected => {
                let delivered_ok = match &self.outcome {
                    Some(Ok(_)) => true,
                    _ => false,
                };
                if self.phase == ShardPhase::AwaitingRpc || (self.phase == ShardPhase::Settled
                    && delivered_ok) {
                    self.session.record_security_failure();
                    self.phase = ShardPhase::Settled;
                    self.outcome = Some(Err(ShardError::Tampered));
                    ShardAction::Settled
                } else {
                    ShardAction::Ignored
                }
            },
            ShardEvent::WaitElapsed => {
                if self.phase == ShardPhase::Backoff {
                    self.dispatch(now)
                } else {
                    ShardAction::Ignored
                }
            },
        }
    }
}

/// A rejected handshake settles the shard on `Untrusted` at once: the retry
/// schedule is never consulted, and the session is revoked.
pub proof fn lemma_rejection_is_terminal(m: ShardModel, p: RetryPolicy, now: u64, expires_at: u64)
    requires
        m.phase is AwaitingHandshake,
        m.session.state is Attesting,
    ensures
        ({
            let (m2, a) = shard_step(
                m,
                ShardEventModel::HandshakeRejected { expires_at },
                p,
                now,
            );
            &&& m2.outcome == Some(Err::<Seq<u8>, ShardError>(ShardError::Untrusted))
            &&& m2.session.state is Revoked
            &&& m2.failures == m.failures
            &&& a == ShardAction::Settled
        }),
{
}

} // verus!
