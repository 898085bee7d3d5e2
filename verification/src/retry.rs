//! Ack correlator / retry engine: one generic bounded-retry state machine
//! serves connect, register, subscribe, publish-with-ack and ping. The
//! caller (a driver loop) performs the sends and the timed waits; the
//! machine here owns every decision: whether a received message settles the
//! exchange, whether a timeout means resending the same bytes, and when to
//! give up.
//!
//! One exchange's life: the packet is sent once when the exchange starts
//! (attempt 1). Each received message is correlated: a match ends the
//! exchange at once, anything else keeps the same timed window. Each
//! timeout either orders a resend of the identical bytes (attempt + 1) or,
//! once the attempt count has reached its bound, fails the exchange with an
//! ack-timeout error. Transport faults abort immediately: retry covers
//! timeouts only.

use vstd::prelude::*;

use crate::errors::MqttSnClientError;
use crate::messages::{AckCode, ProtocolMessage};

verus! {

/// Per-attempt timeout, in time units, that the runner of an exchange must
/// apply to each wait.
pub const T_RETRY: u8 = 10;

/// Number of send attempts before an exchange fails.
pub const N_RETRY: u8 = 10;

/// Which request an exchange is waiting to correlate. Only a publish needs
/// its message id remembered: its acknowledgment is matched by id, while
/// the other operations accept their first well-coded reply.
#[derive(Debug, Clone, Copy, PartialEq, Eq, Structural)]
pub enum PendingOp {
    Connect,
    Register,
    Subscribe,
    Publish { msg_id: u16 },
    Ping,
    Disconnect,
}

/// Verdict of correlating one received message against an expectation:
/// no match (keep waiting), success, or success carrying a value (the
/// topic id a register was granted).
#[derive(Debug, Clone, Copy, PartialEq, Eq, Structural)]
pub enum AckResult {
    Success,
    TopicId(u16),
    NoMatch,
}

/// What a received message means for a pending operation.
///
/// - connect wants an accepting ConnAck;
/// - register wants an accepting RegAck and yields its topic id;
/// - subscribe wants an accepting SubAck;
/// - a publish with ack wants an accepting PubAck whose message id equals
///   the one sent;
/// - ping wants any PingResp;
/// - disconnect takes any disconnect reply.
///
/// Everything else, a rejecting code included, is no match: the wait
/// simply continues until a match or the retry bound.
pub open spec fn ack_of(op: PendingOp, msg: ProtocolMessage) -> AckResult {
    match op {
        PendingOp::Connect => match msg {
            ProtocolMessage::ConnAck { code } => if code == AckCode::Accepted {
                AckResult::Success
            } else {
                AckResult::NoMatch
            },
            _ => AckResult::NoMatch,
        },
        PendingOp::Register => match msg {
            ProtocolMessage::RegAck { topic_id, msg_id, code } => if code == AckCode::Accepted {
                AckResult::TopicId(topic_id)
            } else {
                AckResult::NoMatch
            },
            _ => AckResult::NoMatch,
        },
        PendingOp::Subscribe => match msg {
            ProtocolMessage::SubAck { topic_id, msg_id, code } => if code == AckCode::Accepted {
                AckResult::Success
            } else {
                AckResult::NoMatch
            },
            _ => AckResult::NoMatch,
        },
        PendingOp::Publish { msg_id: expected } => match msg {
            ProtocolMessage::PubAck { topic_id, msg_id, code } => if msg_id == expected && code
                == AckCode::Accepted {
                AckResult::Success
            } else {
                AckResult::NoMatch
            },
            _ => AckResult::NoMatch,
        },
        PendingOp::Ping => match msg {
            ProtocolMessage::PingResp => AckResult::Success,
            _ => AckResult::NoMatch,
        },
        PendingOp::Disconnect => match msg {
            ProtocolMessage::Disconnect { duration } => AckResult::Success,
            _ => AckResult::NoMatch,
        },
    }
}

/// Correlates one received message against the pending operation.
pub fn check_ack(op: &PendingOp, msg: &ProtocolMessage) -> (r: AckResult)
    ensures
        r == ack_of(*op, *msg),
{
    match op {
        PendingOp::Connect => match msg {
            ProtocolMessage::ConnAck { code: AckCode::Accepted } => AckResult::Success,
            _ => AckResult::NoMatch,
        },
        PendingOp::Register => match msg {
            ProtocolMessage::RegAck { topic_id, msg_id: _, code: AckCode::Accepted } => {
                AckResult::TopicId(*topic_id)
            },
            _ => AckResult::NoMatch,
        },
        PendingOp::Subscribe => match msg {
            ProtocolMessage::SubAck { topic_id: _, msg_id: _, code: AckCode::Accepted } => {
                AckResult::Success
            },
            _ => AckResult::NoMatch,
        },
        PendingOp::Publish { msg_id: expected } => match msg {
            ProtocolMessage::PubAck { topic_id: _, msg_id, code: AckCode::Accepted } => {
                if *msg_id == *expected {
                    AckResult::Success
                } else {
                    AckResult::NoMatch
                }
            },
            _ => AckResult::NoMatch,
        },
        PendingOp::Ping => match msg {
            ProtocolMessage::PingResp => AckResult::Success,
            _ => AckResult::NoMatch,
        },
        PendingOp::Disconnect => match msg {
            ProtocolMessage::Disconnect { .. } => AckResult::Success,
            _ => AckResult::NoMatch,
        },
    }
}

/// What a timed-out or aborted exchange should do next.
#[derive(Debug, Clone, PartialEq, Eq)]
pub enum RetryAction {
    Resend,
    Failed(MqttSnClientError),
}

/// One in-flight request: the operation being correlated, the encoded
/// datagram (resent verbatim on every retry, so the message id and content
/// stay fixed across attempts), and how many sends have happened.
#[derive(Debug, Clone)]
pub struct Exchange {
    pub op: PendingOp,
    pub packet: Vec<u8>,
    pub attempt: u8,
}

impl Exchange {
    /// Opens an exchange. The caller sends `packet` once right away: the
    /// attempt count starts at one.
    pub fn new(op: PendingOp, packet: Vec<u8>) -> (r: Exchange)
        ensures
            r.op == op,
            r.packet == packet,
            r.attempt == 1,
    {
        Exchange { op, packet, attempt: 1 }
    }

    /// The timeout transition: below the retry bound the same bytes go out
    /// again; at the bound the exchange fails with the ack-timeout error.
    pub open spec fn timeout_spec(self) -> (Exchange, RetryAction) {
        if self.attempt < N_RETRY {
            (
                Exchange { op: self.op, packet: self.packet, attempt: (self.attempt + 1) as u8 },
                RetryAction::Resend,
            )
        } else {
            (self, RetryAction::Failed(MqttSnClientError::AckError))
        }
    }

    /// Acts on one per-attempt timeout, as `timeout_spec` says.
    pub fn on_timeout(&mut self) -> (r: RetryAction)
        ensures
            *final(self) == old(self).timeout_spec().0,
            r == old(self).timeout_spec().1,
    {
        if self.attempt < N_RETRY {
            self.attempt = self.attempt + 1;
            RetryAction::Resend
        } else {
            RetryAction::Failed(MqttSnClientError::AckError)
        }
    }

    /// A transport fault aborts the exchange at once with a transport
    /// error: retry covers timeouts only, never send or receive failures.
    pub fn on_transport_error(&self) -> (r: RetryAction)
        ensures
            r == RetryAction::Failed(MqttSnClientError::SocketError),
    {
        RetryAction::Failed(MqttSnClientError::SocketError)
    }
}

/// The exchange after `k` timeout transitions.
pub open spec fn after_timeouts(ex: Exchange, k: nat) -> Exchange
    decreases k,
{
    if k == 0 {
        ex
    } else {
        after_timeouts(ex, (k - 1) as nat).timeout_spec().0
    }
}

/// Law: while the retry bound is not reached, every timeout orders a
/// resend of the identical packet for the same operation, and the attempt
/// counter — the number of sends — grows by exactly one per timeout.
pub proof fn lemma_retry_resends(ex: Exchange, k: nat)
    requires
        1 <= ex.attempt,
        ex.attempt + k <= N_RETRY,
    ensures
        after_timeouts(ex, k).attempt == ex.attempt + k,
        after_timeouts(ex, k).op == ex.op,
        after_timeouts(ex, k).packet == ex.packet,
        forall|j: nat| j < k ==> #[trigger] after_timeouts(ex, j).timeout_spec().1
            == RetryAction::Resend,
    decreases k,
{
    if k > 0 {
        lemma_retry_resends(ex, (k - 1) as nat);
    }
}

/// Law: against a peer that never answers, an exchange opened at attempt
/// one resends on each of its first `N_RETRY - 1` timeouts — for a total
/// of exactly `N_RETRY` sends — and the next timeout fails it with the
/// ack-timeout error, the packet never having changed.
pub proof fn lemma_retry_gives_up(ex: Exchange)
    requires
        ex.attempt == 1,
    ensures
        forall|j: nat| j < (N_RETRY - 1) as nat ==> #[trigger] after_timeouts(
            ex,
            j,
        ).timeout_spec().1 == RetryAction::Resend,
        after_timeouts(ex, (N_RETRY - 1) as nat).attempt == N_RETRY,
        after_timeouts(ex, (N_RETRY - 1) as nat).timeout_spec().1 == RetryAction::Failed(
            MqttSnClientError::AckError,
        ),
        after_timeouts(ex, (N_RETRY - 1) as nat).packet == ex.packet,
{
    lemma_retry_resends(ex, (N_RETRY - 1) as nat);
}

/// Law: if the peer's answer arrives after `k < N_RETRY` timeouts, the
/// exchange has sent exactly `k + 1` copies of the packet, and a message
/// that correlates (by `ack_of`) settles it immediately — no further send
/// happens, whatever `k` was.
pub proof fn lemma_retry_succeeds(ex: Exchange, k: nat, msg: ProtocolMessage)
    requires
        ex.attempt == 1,
        k < N_RETRY,
        ack_of(ex.op, msg) != AckResult::NoMatch,
    ensures
        after_timeouts(ex, k).attempt == k + 1,
        after_timeouts(ex, k).packet == ex.packet,
        ack_of(after_timeouts(ex, k).op, msg) == ack_of(ex.op, msg),
{
    lemma_retry_resends(ex, k);
}

} // verus!
