//! Codec boundary: turns the engine's structured messages into wire bytes
//! and back. The binary work is done by the `mqtt_sn` crate (with `byte`'s
//! read/write traits) behind trusted wrappers; the engine's own logic never
//! inspects wire bytes. The one exception is the disconnect message, which
//! that codec does not define: its two-or-four-byte shape is encoded and
//! decoded here in verified code.

use vstd::prelude::*;

use byte::{TryRead, TryWrite};
use mqtt_sn::defs as wire;

use vstd::utf8::encode_utf8;

use crate::errors::MqttSnClientError;
use crate::messages::{byte_len, ProtocolMessage, AckCode, MAX_CLIENT_ID_LEN};

verus! {

/// Wire message-type octet of a subscribe message.
pub const SUBSCRIBE_TYPE: u8 = 0x12;

/// Wire message-type octet of an unsubscribe message.
pub const UNSUBSCRIBE_TYPE: u8 = 0x14;

/// Wire message-type octet of a disconnect message.
pub const DISCONNECT_TYPE: u8 = 0x18;

/// Longest topic name a register message can carry: its single length octet
/// covers a six-byte header plus the name.
pub const MAX_REGISTER_TOPIC_LEN: usize = 249;

/// Longest payload a publish message can carry: its single length octet
/// covers a seven-byte header plus the payload.
pub const MAX_PUBLISH_DATA_LEN: usize = 248;

/// A 16-bit value on the wire: big-endian, high octet first.
pub open spec fn be16(v: u16) -> Seq<u8> {
    seq![(v / 256) as u8, (v % 256) as u8]
}

/// The wire bytes of a connect frame: length octet over a six-byte header,
/// the connect type octet, default flags, the protocol id, the keep-alive
/// duration big-endian, then the client id.
pub open spec fn connect_frame(duration: u16, client_id: Seq<char>) -> Seq<u8> {
    seq![(6 + byte_len(client_id)) as u8, 0x04u8, 0u8, 0x01u8] + be16(duration) + encode_utf8(
        client_id,
    )
}

/// The wire bytes of a register request: a six-byte header (topic id zero,
/// the message id big-endian) and the topic name.
pub open spec fn register_frame(msg_id: u16, topic: Seq<char>) -> Seq<u8> {
    seq![(6 + byte_len(topic)) as u8, 0x0Au8, 0u8, 0u8] + be16(msg_id) + encode_utf8(topic)
}

/// The flags octet of a subscribe frame: only the id-kind tag, in the two
/// low bits.
pub open spec fn subscribe_flags(kind: u8) -> u8 {
    (kind % 4) as u8
}

/// The wire bytes of a subscribe-by-id frame: a fixed seven-byte frame
/// with the id-kind in the flags, then the message id and the topic id
/// big-endian.
pub open spec fn subscribe_frame(msg_id: u16, topic_id: u16, kind: u8) -> Seq<u8> {
    seq![7u8, 0x12u8, subscribe_flags(kind)] + be16(msg_id) + be16(topic_id)
}

/// The flags octet of a publish frame: the QoS in bits six and five, the
/// id-kind tag in the two low bits.
pub open spec fn publish_flags(qos: u8, kind: u8) -> u8 {
    ((qos % 4) * 32 + (kind % 4)) as u8
}

/// The wire bytes of a publish frame: length octet over a seven-byte
/// header, flags, topic id and message id big-endian, then the payload.
pub open spec fn publish_frame(qos: u8, kind: u8, topic_id: u16, msg_id: u16, data: Seq<char>) -> Seq<u8> {
    seq![(7 + byte_len(data)) as u8, 0x0Cu8, publish_flags(qos, kind)] + be16(topic_id) + be16(
        msg_id,
    ) + encode_utf8(data)
}

/// The wire bytes of an accepting puback: a fixed seven-byte frame, the
/// accepting code octet last.
pub open spec fn puback_frame(topic_id: u16, msg_id: u16) -> Seq<u8> {
    seq![7u8, 0x0Du8] + be16(topic_id) + be16(msg_id) + seq![0u8]
}

/// The wire bytes of a ping request: a two-byte header and the client id.
pub open spec fn pingreq_frame(client_id: Seq<char>) -> Seq<u8> {
    seq![(2 + byte_len(client_id)) as u8, 0x16u8] + encode_utf8(client_id)
}

/// Relies on mqtt_sn's Connect encoder: a connect frame is a six-byte
/// header plus the client id, so it always fits the buffer when the client
/// id is within the protocol bound.
#[verifier::external_body]
fn encode_connect_wire(duration: u16, client_id: &str) -> (r: Result<Vec<u8>, MqttSnClientError>)
    requires
        byte_len(client_id@) <= MAX_CLIENT_ID_LEN,
    ensures
        r is Ok,
        r matches Ok(v) ==> v@ == connect_frame(duration, client_id@),
{
    let msg = wire::Message::Connect(wire::Connect {
        flags: wire::Flags::default(),
        duration,
        client_id: client_id.into(),
    });
    let mut buf = [0u8; 512];
    match msg.try_write(&mut buf, ()) {
        Ok(n) => Ok(buf[..n].to_vec()),
        Err(_) => Err(MqttSnClientError::CodecError),
    }
}

/// Relies on mqtt_sn's Register encoder: topic id 0 (unassigned), the given
/// message id, and the topic name; the frame fits whenever the name fits
/// the register length octet.
#[verifier::external_body]
fn encode_register_wire(msg_id: u16, topic: &str) -> (r: Result<Vec<u8>, MqttSnClientError>)
    requires
        byte_len(topic@) <= MAX_REGISTER_TOPIC_LEN,
    ensures
        r is Ok,
        r matches Ok(v) ==> v@ == register_frame(msg_id, topic@),
{
    let msg = wire::Message::Register(wire::Register {
        topic_id: 0,
        msg_id,
        topic_name: topic.into(),
    });
    let mut buf = [0u8; 512];
    match msg.try_write(&mut buf, ()) {
        Ok(n) => Ok(buf[..n].to_vec()),
        Err(_) => Err(MqttSnClientError::CodecError),
    }
}

/// Relies on mqtt_sn's Subscribe encoder: a subscription by numeric topic
/// id, with the id-kind tag in the flags; a fixed-size frame.
#[verifier::external_body]
fn encode_subscribe_wire(msg_id: u16, topic_id: u16, kind: u8) -> (r: Result<
    Vec<u8>,
    MqttSnClientError,
>)
    ensures
        r is Ok,
        r matches Ok(v) ==> v@ == subscribe_frame(msg_id, topic_id, kind),
{
    let mut flags = wire::Flags::default();
    flags.set_topic_id_type(kind);
    let msg = wire::Message::Subscribe(wire::Subscribe {
        flags,
        msg_id,
        topic: wire::TopicNameOrId::Id(topic_id),
    });
    let mut buf = [0u8; 512];
    match msg.try_write(&mut buf, ()) {
        Ok(n) => Ok(buf[..n].to_vec()),
        Err(_) => Err(MqttSnClientError::CodecError),
    }
}

/// Relies on mqtt_sn's Publish encoder: QoS and id-kind in the flags, then
/// topic id, message id and payload; the frame fits whenever the payload
/// fits the publish length octet.
#[verifier::external_body]
fn encode_publish_wire(qos: u8, kind: u8, topic_id: u16, msg_id: u16, data: &str) -> (r: Result<
    Vec<u8>,
    MqttSnClientError,
>)
    requires
        byte_len(data@) <= MAX_PUBLISH_DATA_LEN,
    ensures
        r is Ok,
        r matches Ok(v) ==> v@ == publish_frame(qos, kind, topic_id, msg_id, data@),
{
    let mut flags = wire::Flags::default();
    flags.set_qos(qos);
    flags.set_topic_id_type(kind);
    let msg = wire::Message::Publish(wire::Publish {
        flags,
        topic_id,
        msg_id,
        data: data.into(),
    });
    let mut buf = [0u8; 512];
    match msg.try_write(&mut buf, ()) {
        Ok(n) => Ok(buf[..n].to_vec()),
        Err(_) => Err(MqttSnClientError::CodecError),
    }
}

/// Relies on mqtt_sn's PubAck encoder: a fixed seven-byte frame carrying
/// topic id, message id and the accepting return code.
#[verifier::external_body]
fn encode_puback_wire(topic_id: u16, msg_id: u16) -> (r: Result<Vec<u8>, MqttSnClientError>)
    ensures
        r is Ok,
        r matches Ok(v) ==> v@ == puback_frame(topic_id, msg_id),
{
    let msg = wire::Message::PubAck(wire::PubAck {
        topic_id,
        msg_id,
        code: wire::ReturnCode::Accepted,
    });
    let mut buf = [0u8; 512];
    match msg.try_write(&mut buf, ()) {
        Ok(n) => Ok(buf[..n].to_vec()),
        Err(_) => Err(MqttSnClientError::CodecError),
    }
}

/// Relies on mqtt_sn's PingReq encoder: a two-byte header plus the client
/// id.
#[verifier::external_body]
fn encode_pingreq_wire(client_id: &str) -> (r: Result<Vec<u8>, MqttSnClientError>)
    requires
        byte_len(client_id@) <= MAX_CLIENT_ID_LEN,
    ensures
        r is Ok,
        r matches Ok(v) ==> v@ == pingreq_frame(client_id@),
{
    let msg = wire::Message::PingReq(wire::PingReq { client_id: client_id.into() });
    let mut buf = [0u8; 512];
    match msg.try_write(&mut buf, ()) {
        Ok(n) => Ok(buf[..n].to_vec()),
        Err(_) => Err(MqttSnClientError::CodecError),
    }
}

/// Relies on mqtt_sn's message decoder. Its subscribe and unsubscribe
/// readers subtract five from the frame's length octet before checking it,
/// so those two kinds are only handed over with a length octet of at least
/// five (the caller screens them); every other malformed input is a decode
/// error, not a panic.
#[verifier::external_body]
fn decode_wire(bytes: &[u8]) -> (r: Result<wire::Message, MqttSnClientError>)
    requires
        bytes@.len() >= 2 && (bytes@[1] == SUBSCRIBE_TYPE || bytes@[1] == UNSUBSCRIBE_TYPE)
            ==> bytes@[0] >= 5,
    ensures
        r matches Err(e) ==> e == MqttSnClientError::CodecError,
{
    match wire::Message::try_read(bytes, ()) {
        Ok((m, _)) => Ok(m),
        Err(_) => Err(MqttSnClientError::CodecError),
    }
}

/// Relies on mqtt_sn's return-code type: one arm per reason, moved into
/// the engine's model; a reserved octet is carried through.
#[verifier::external_body]
fn code_of(c: wire::ReturnCode) -> (r: AckCode) {
    match c {
        wire::ReturnCode::Accepted => AckCode::Accepted,
        wire::ReturnCode::Rejected(wire::RejectedReason::Congestion) => AckCode::RejectedCongestion,
        wire::ReturnCode::Rejected(wire::RejectedReason::InvalidTopicId) => AckCode::RejectedInvalidTopicId,
        wire::ReturnCode::Rejected(wire::RejectedReason::NotSupported) => AckCode::RejectedNotSupported,
        wire::ReturnCode::Rejected(wire::RejectedReason::Reserved(n)) => AckCode::RejectedReserved(n),
    }
}

/// Relies on mqtt_sn's Publish message: moves its wire fields (the QoS
/// and id-kind bits of the flags, the ids, the payload) into the engine's
/// model.
#[verifier::external_body]
fn lift_publish(p: wire::Publish) -> (r: ProtocolMessage)
    ensures
        r matches ProtocolMessage::Publish { .. },
{
    ProtocolMessage::Publish {
        qos: p.flags.qos(),
        topic_id_type: p.flags.topic_id_type(),
        topic_id: p.topic_id,
        msg_id: p.msg_id,
        data: p.data.as_str().to_owned(),
    }
}

/// Relies on mqtt_sn's message variants: moves each decoded message's
/// fields into the engine's model, one arm per kind; kinds the client never
/// acts on collapse to `Other`. That codec has no disconnect kind, so the
/// result is never one.
#[verifier::external_body]
fn lift_wire(m: wire::Message) -> (r: ProtocolMessage)
    ensures
        !(r matches ProtocolMessage::Disconnect { .. }),
{
    match m {
        wire::Message::ConnAck(a) => ProtocolMessage::ConnAck { code: code_of(a.code) },
        wire::Message::RegAck(a) => ProtocolMessage::RegAck {
            topic_id: a.topic_id, msg_id: a.msg_id, code: code_of(a.code) },
        wire::Message::SubAck(a) => ProtocolMessage::SubAck {
            topic_id: a.topic_id, msg_id: a.msg_id, code: code_of(a.code) },
        wire::Message::PubAck(a) => ProtocolMessage::PubAck {
            topic_id: a.topic_id, msg_id: a.msg_id, code: code_of(a.code) },
        wire::Message::PingResp(_) => ProtocolMessage::PingResp,
        wire::Message::Publish(p) => lift_publish(p),
        _ => ProtocolMessage::Other,
    }
}

/// The wire bytes of a disconnect message: a bare two-byte frame, or a
/// four-byte frame carrying the sleep duration big-endian.
pub open spec fn disconnect_bytes(duration: Option<u16>) -> Seq<u8> {
    match duration {
        Option::None => seq![2u8, DISCONNECT_TYPE],
        Option::Some(d) => seq![4u8, DISCONNECT_TYPE, (d / 256) as u8, (d % 256) as u8],
    }
}

/// Encodes a disconnect message; the codec crate does not define this kind,
/// and its wire shape is fixed by the two clauses of `disconnect_bytes`.
pub fn encode_disconnect(duration: Option<u16>) -> (r: Vec<u8>)
    ensures
        r@ == disconnect_bytes(duration),
{
    match duration {
        None => {
            let v = vec![2u8, DISCONNECT_TYPE];
            proof {
                assert(v@ =~= disconnect_bytes(None::<u16>));
            }
            v
        },
        Some(d) => {
            let v = vec![4u8, DISCONNECT_TYPE, (d / 256) as u8, (d % 256) as u8];
            proof {
                assert(v@ =~= disconnect_bytes(Some(d)));
            }
            v
        },
    }
}

/// Does this message kind come out of the client? Server-side kinds (and
/// `Other`) are never encoded.
pub open spec fn client_encodable(msg: ProtocolMessage) -> bool {
    match msg {
        ProtocolMessage::Connect { .. } => true,
        ProtocolMessage::Register { .. } => true,
        ProtocolMessage::Subscribe { .. } => true,
        ProtocolMessage::Publish { .. } => true,
        ProtocolMessage::PubAck { .. } => true,
        ProtocolMessage::PingReq { .. } => true,
        ProtocolMessage::Disconnect { .. } => true,
        _ => false,
    }
}

/// Do this message's string fields fit the wire format's length octets?
/// (Client ids are bounded by the protocol; a register topic name and a
/// publish payload must leave room for their frame headers.)
pub open spec fn fits_wire(msg: ProtocolMessage) -> bool {
    match msg {
        ProtocolMessage::Connect { client_id, .. } => byte_len(client_id@) <= MAX_CLIENT_ID_LEN,
        ProtocolMessage::Register { topic_name, .. } => byte_len(topic_name@) <= MAX_REGISTER_TOPIC_LEN,
        ProtocolMessage::Publish { data, .. } => byte_len(data@) <= MAX_PUBLISH_DATA_LEN,
        ProtocolMessage::PingReq { client_id, .. } => byte_len(client_id@) <= MAX_CLIENT_ID_LEN,
        _ => true,
    }
}

/// Encodes one outbound message into a datagram. Succeeds exactly on the
/// client-side kinds whose strings fit the wire format; everything else is
/// a `CodecError`. Each frame's bytes are pinned exactly; the one puback a
/// client sends is always accepting, whatever its model value holds.
pub fn encode_message(msg: &ProtocolMessage) -> (r: Result<Vec<u8>, MqttSnClientError>)
    ensures
        r is Ok <==> client_encodable(*msg) && fits_wire(*msg),
        r is Err ==> r == Err::<Vec<u8>, MqttSnClientError>(MqttSnClientError::CodecError),
        msg matches ProtocolMessage::Connect { duration, client_id } ==> (r matches Ok(v) ==> v@
            == connect_frame(*duration, client_id@)),
        msg matches ProtocolMessage::Register { topic_id, msg_id, topic_name } ==> (r matches Ok(
            v,
        ) ==> v@ == register_frame(*msg_id, topic_name@)),
        msg matches ProtocolMessage::Subscribe { qos, topic_id_type, msg_id, topic_id } ==> (r
            matches Ok(v) ==> v@ == subscribe_frame(*msg_id, *topic_id, *topic_id_type)),
        msg matches ProtocolMessage::Publish { qos, topic_id_type, topic_id, msg_id, data } ==> (
        r matches Ok(v) ==> v@ == publish_frame(*qos, *topic_id_type, *topic_id, *msg_id, data@)),
        msg matches ProtocolMessage::PubAck { topic_id, msg_id, code } ==> (r matches Ok(v) ==> v@
            == puback_frame(*topic_id, *msg_id)),
        msg matches ProtocolMessage::PingReq { client_id } ==> (r matches Ok(v) ==> v@
            == pingreq_frame(client_id@)),
        msg matches ProtocolMessage::Disconnect { duration } ==> r is Ok && r->Ok_0@
            == disconnect_bytes(*duration),
{
    match msg {
        ProtocolMessage::Connect { duration, client_id } => {
            if client_id.as_str().as_bytes().len() <= MAX_CLIENT_ID_LEN {
                encode_connect_wire(*duration, client_id.as_str())
            } else {
                Err(MqttSnClientError::CodecError)
            }
        },
        ProtocolMessage::Register { topic_id: _, msg_id, topic_name } => {
            if topic_name.as_str().as_bytes().len() <= MAX_REGISTER_TOPIC_LEN {
                encode_register_wire(*msg_id, topic_name.as_str())
            } else {
                Err(MqttSnClientError::CodecError)
            }
        },
        ProtocolMessage::Subscribe { qos: _, topic_id_type, msg_id, topic_id } => {
            encode_subscribe_wire(*msg_id, *topic_id, *topic_id_type)
        },
        ProtocolMessage::Publish { qos, topic_id_type, topic_id, msg_id, data } => {
            if data.as_str().as_bytes().len() <= MAX_PUBLISH_DATA_LEN {
                encode_publish_wire(*qos, *topic_id_type, *topic_id, *msg_id, data.as_str())
            } else {
                Err(MqttSnClientError::CodecError)
            }
        },
        ProtocolMessage::PubAck { topic_id, msg_id, code: _ } => {
            encode_puback_wire(*topic_id, *msg_id)
        },
        ProtocolMessage::PingReq { client_id } => {
            if client_id.as_str().as_bytes().len() <= MAX_CLIENT_ID_LEN {
                encode_pingreq_wire(client_id.as_str())
            } else {
                Err(MqttSnClientError::CodecError)
            }
        },
        ProtocolMessage::Disconnect { duration } => Ok(encode_disconnect(*duration)),
        _ => Err(MqttSnClientError::CodecError),
    }
}

/// Decodes one inbound datagram into the engine's model. The disconnect
/// kind is parsed here (the codec crate does not know it); a frame that
/// would trip the codec's subscribe/unsubscribe length arithmetic is
/// rejected as malformed; everything else is the codec's verdict, lifted.
pub fn decode_frame(bytes: &[u8]) -> (r: Result<ProtocolMessage, MqttSnClientError>)
    ensures
        bytes@ == disconnect_bytes(None::<u16>) ==> r == Ok::<ProtocolMessage, MqttSnClientError>(
            (ProtocolMessage::Disconnect { duration: None }),
        ),
        forall|d: u16|
            bytes@ == #[trigger] disconnect_bytes(Some(d)) ==> r == Ok::<
                ProtocolMessage,
                MqttSnClientError,
            >((ProtocolMessage::Disconnect { duration: Some(d) })),
        r matches Ok(m) ==> (m matches ProtocolMessage::Disconnect { duration } ==> bytes@
            == disconnect_bytes(duration)),
        r is Err ==> r == Err::<ProtocolMessage, MqttSnClientError>(MqttSnClientError::CodecError),
{
    if bytes.len() >= 2 && bytes[1] == DISCONNECT_TYPE {
        if bytes.len() == 2 && bytes[0] == 2 {
            proof {
                assert(bytes@ =~= disconnect_bytes(None::<u16>));
            }
            Ok(ProtocolMessage::Disconnect { duration: None })
        } else if bytes.len() == 4 && bytes[0] == 4 {
            let d: u16 = (bytes[2] as u16) * 256 + (bytes[3] as u16);
            proof {
                assert(bytes@ =~= disconnect_bytes(Some(d)));
            }
            Ok(ProtocolMessage::Disconnect { duration: Some(d) })
        } else {
            Err(MqttSnClientError::CodecError)
        }
    } else if bytes.len() >= 2 && (bytes[1] == SUBSCRIBE_TYPE || bytes[1] == UNSUBSCRIBE_TYPE)
        && bytes[0] < 5 {
        Err(MqttSnClientError::CodecError)
    } else {
        match decode_wire(bytes) {
            Ok(m) => Ok(lift_wire(m)),
            Err(e) => Err(e),
        }
    }
}

} // verus!
