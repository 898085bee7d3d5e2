//! Error taxonomy of the client engine.

use vstd::prelude::*;

verus! {

/// Every failure the engine can surface to a caller.
///
/// - `SocketError`: the byte transport failed on send or receive; fatal to
///   the current operation, never retried.
/// - `CodecError`: a message could not be encoded into (or decoded from) its
///   wire form.
/// - `AckError`: the bounded retry loop gave up without a matching
///   acknowledgment, or a single receive attempt degraded (bad decode).
/// - `ParseError`: an out-of-range discriminant was decoded into a typed enum.
/// - `TopicNotRegistered`: an inbound publish referenced a topic id that the
///   registry does not know.
/// - `TopicFailedInsert`: the bounded topic registry is full.
/// - `UnknownError`: catch-all for otherwise-unclassified failures.
#[derive(Debug, Clone, Copy, PartialEq, Eq, Structural)]
pub enum MqttSnClientError {
    ModemError,
    SocketError,
    CodecError,
    AckError,
    UnknownError,
    ParseError,
    TopicNotRegistered,
    TopicFailedInsert,
    NoPingResponse,
}

} // verus!
