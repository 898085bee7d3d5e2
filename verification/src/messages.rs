//! The engine's model of protocol messages: a tagged union over the
//! operation kinds, carrying exactly the fields the wire format defines.
//! The binary shape of each message is the codec's concern (see `codec`);
//! the session engine builds and inspects these structured values only.

use vstd::prelude::*;
use vstd::utf8::encode_utf8;

use crate::errors::MqttSnClientError;

verus! {

/// Number of bytes a string occupies on the wire (UTF-8).
pub open spec fn byte_len(s: Seq<char>) -> nat {
    encode_utf8(s).len()
}

/// Longest client id the wire format carries.
pub const MAX_CLIENT_ID_LEN: usize = 64;

/// Longest topic name, and longest publish payload, the wire format carries.
pub const MAX_TOPIC_LEN: usize = 256;

/// Tag distinguishing how a numeric topic id was obtained: a broker-assigned
/// normal id, a predefined id known out of band, or a short two-character id.
#[derive(Debug, Clone, Copy, PartialEq, Eq, Structural, Hash, PartialOrd, Ord)]
pub enum TopicIdType {
    Id,
    PreDef,
    Short,
}

impl TopicIdType {
    /// Decodes the two-bit wire tag; anything past the three known kinds is
    /// a `ParseError`.
    pub fn try_from(i: u8) -> (r: Result<TopicIdType, MqttSnClientError>)
        ensures
            i == 0 ==> r == Ok::<TopicIdType, MqttSnClientError>(TopicIdType::Id),
            i == 1 ==> r == Ok::<TopicIdType, MqttSnClientError>(TopicIdType::PreDef),
            i == 2 ==> r == Ok::<TopicIdType, MqttSnClientError>(TopicIdType::Short),
            i >= 3 ==> r == Err::<TopicIdType, MqttSnClientError>(MqttSnClientError::ParseError),
    {
        match i {
            0 => Ok(TopicIdType::Id),
            1 => Ok(TopicIdType::PreDef),
            2 => Ok(TopicIdType::Short),
            _ => Err(MqttSnClientError::ParseError),
        }
    }

    /// The two-bit wire tag of this kind; inverse of `try_from`.
    pub fn as_u8(self) -> (r: u8)
        ensures
            r == kind_code(self),
    {
        match self {
            TopicIdType::Id => 0,
            TopicIdType::PreDef => 1,
            TopicIdType::Short => 2,
        }
    }
}

/// The two-bit wire tag of an id-kind: 0 a broker-assigned normal id, 1 a
/// predefined id, 2 a short name.
pub open spec fn kind_code(k: TopicIdType) -> u8 {
    match k {
        TopicIdType::Id => 0u8,
        TopicIdType::PreDef => 1u8,
        TopicIdType::Short => 2u8,
    }
}

/// A protocol return code: acceptance, or one of the rejection signals the
/// wire format defines (congestion, invalid topic id, not supported, or a
/// reserved code).
#[derive(Debug, Clone, Copy, PartialEq, Eq, Structural)]
pub enum AckCode {
    Accepted,
    RejectedCongestion,
    RejectedInvalidTopicId,
    RejectedNotSupported,
    RejectedReserved(u8),
}

/// A protocol message as the session engine sees it. Each variant carries
/// the semantic fields of the corresponding wire message; `Other` stands for
/// decoded kinds the client engine never acts on (gateway discovery,
/// unsubscribe traffic) and matches no acknowledgment.
#[derive(Debug, Clone, PartialEq, Eq)]
pub enum ProtocolMessage {
    Connect { duration: u16, client_id: String },
    ConnAck { code: AckCode },
    Register { topic_id: u16, msg_id: u16, topic_name: String },
    RegAck { topic_id: u16, msg_id: u16, code: AckCode },
    Publish { qos: u8, topic_id_type: u8, topic_id: u16, msg_id: u16, data: String },
    PubAck { topic_id: u16, msg_id: u16, code: AckCode },
    Subscribe { qos: u8, topic_id_type: u8, msg_id: u16, topic_id: u16 },
    SubAck { topic_id: u16, msg_id: u16, code: AckCode },
    PingReq { client_id: String },
    PingResp,
    Disconnect { duration: Option<u16> },
    Other,
}

/// An application-level message: what the application hands the engine to
/// publish, and what the inbound dispatcher hands back for a received
/// publish (then with the wire ids filled in).
#[derive(Debug, Clone)]
pub struct MqttMessage {
    pub topic_id: Option<u16>,
    pub msg_id: Option<u16>,
    pub qos: Option<u8>,
    pub topic: String,
    pub payload: String,
}

impl MqttMessage {
    /// Builds an outbound application message. The wire format bounds both
    /// the topic name and the payload at `MAX_TOPIC_LEN` bytes; an oversized
    /// argument is rejected as `UnknownError`.
    pub fn new(topic: &str, payload: &str, qos: Option<u8>) -> (r: Result<MqttMessage, MqttSnClientError>)
        ensures
            r is Ok <==> byte_len(topic@) <= MAX_TOPIC_LEN && byte_len(payload@) <= MAX_TOPIC_LEN,
            r matches Ok(m) ==> m.topic_id is None && m.msg_id is None && m.qos == qos
                && m.topic@ == topic@ && m.payload@ == payload@,
            r is Err ==> r == Err::<MqttMessage, MqttSnClientError>(MqttSnClientError::UnknownError),
    {
        if topic.as_bytes().len() <= MAX_TOPIC_LEN && payload.as_bytes().len() <= MAX_TOPIC_LEN {
            Ok(MqttMessage {
                topic_id: None,
                msg_id: None,
                qos,
                topic: topic.to_owned(),
                payload: payload.to_owned(),
            })
        } else {
            Err(MqttSnClientError::UnknownError)
        }
    }

    /// The acknowledgment owed for this message when it arrived as a
    /// publish: a `PubAck` with the same topic id and message id and the
    /// accepting code. `None` unless the message carries all three inbound
    /// fields (an outbound message is never acknowledged by the client).
    pub fn get_ack(&self) -> (r: Option<ProtocolMessage>)
        ensures
            self.topic_id is Some && self.msg_id is Some && self.qos is Some ==> r == Some(
                (ProtocolMessage::PubAck {
                    topic_id: self.topic_id.unwrap(),
                    msg_id: self.msg_id.unwrap(),
                    code: AckCode::Accepted,
                }),
            ),
            !(self.topic_id is Some && self.msg_id is Some && self.qos is Some) ==> r is None,
    {
        if let (Some(topic_id), Some(msg_id), Some(_)) = (self.topic_id, self.msg_id, self.qos) {
            Some(ProtocolMessage::PubAck { topic_id, msg_id, code: AckCode::Accepted })
        } else {
            None
        }
    }
}

} // verus!
