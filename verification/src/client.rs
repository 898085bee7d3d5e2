//! Protocol session engine: the public-facing operations (connect,
//! disconnect, subscribe, publish, register, ping) built on the topic
//! registry, the message-id sequencer and the retry engine.
//!
//! The engine is sans-I/O: each operation builds its datagram and opens an
//! `Exchange`; a driver loop owns the socket, sends the exchange's packet,
//! and feeds every decoded inbound frame and every timeout back into the
//! engine, which decides everything else. One request is outstanding at a
//! time; the engine owns its mutable state without locking.

use vstd::prelude::*;

use crate::codec::{
    connect_frame, decode_frame, encode_message, pingreq_frame, publish_frame, register_frame,
    subscribe_frame, MAX_PUBLISH_DATA_LEN, MAX_REGISTER_TOPIC_LEN,
};
use crate::errors::MqttSnClientError;
use crate::messages::{
    byte_len, kind_code, AckCode, MqttMessage, ProtocolMessage, MAX_CLIENT_ID_LEN, MAX_TOPIC_LEN,
};
use crate::retry::{ack_of, check_ack, AckResult, Exchange, PendingOp};
use crate::sequencer::MsgId;
use crate::topics::{
    contains_id, contains_name, lookup_id, lookup_name, overwrite_name, Topics, TOPIC_CAPACITY,
};
use crate::messages::TopicIdType;

verus! {

/// What one decoded inbound message amounted to: an unsolicited publish,
/// consumed (with the acknowledgment owed for it and the application
/// message to forward), or any other message, handed back to whoever is
/// waiting.
#[derive(Debug, Clone)]
pub enum Received {
    Consumed { puback: Option<ProtocolMessage>, forward: MqttMessage },
    Passed(ProtocolMessage),
}

/// What one inbound frame means for a pending exchange: an unsolicited
/// publish to forward (the wait goes on), a settled exchange, or nothing —
/// keep waiting in the same timed window.
#[derive(Debug, Clone)]
pub enum EngineStep {
    Forwarded { puback: Option<ProtocolMessage>, forward: MqttMessage },
    Matched(AckResult),
    NoMatch,
}

/// The QoS a publish carries on the wire: absent means fire-and-forget.
pub open spec fn effective_qos(q: Option<u8>) -> u8 {
    match q {
        Option::Some(v) => v,
        Option::None => 0,
    }
}

/// What a publish operation opens with: a fire-and-forget datagram (no ack
/// expected), an acknowledged exchange, or first a register exchange for a
/// topic the registry does not know yet.
#[derive(Debug, Clone)]
pub enum PublishStart {
    Fire(Vec<u8>),
    WithAck(Exchange),
    NeedRegister(Exchange),
}

/// What a subscribe operation opens with: the subscribe exchange itself,
/// or first a register exchange for an unknown topic.
#[derive(Debug, Clone)]
pub enum SubscribeStart {
    WithAck(Exchange),
    NeedRegister(Exchange),
}

/// What the driver loop's outer wait produced: an outbound application
/// message, or nothing within the keep-alive interval.
#[derive(Debug, Clone)]
pub enum DriverEvent {
    Outbound(MqttMessage),
    IdleTimeout,
}

/// The driver loop's decision: open a session and publish (then drain the
/// queue and disconnect), or probe the peer to keep the session alive.
#[derive(Debug, Clone)]
pub enum DriverAction {
    RunSession(MqttMessage),
    KeepAlive,
}

/// The session driver's policy: an outbound message opens a session for
/// it; an idle keep-alive interval sends a ping instead.
pub fn driver_decision(event: DriverEvent) -> (r: DriverAction)
    ensures
        event matches DriverEvent::Outbound(m) ==> r == DriverAction::RunSession(m),
        event is IdleTimeout ==> r is KeepAlive,
{
    match event {
        DriverEvent::Outbound(m) => DriverAction::RunSession(m),
        DriverEvent::IdleTimeout => DriverAction::KeepAlive,
    }
}

/// A client session: its (bounded) client id, the message-id sequencer and
/// the topic registry, both owned by the session for its lifetime.
pub struct MqttSnClient {
    pub client_id: String,
    pub msg_id: MsgId,
    pub topics: Topics,
}

impl MqttSnClient {
    /// Session well-formedness: the client id fits the wire format and the
    /// registry is sound. Established by `new`, preserved by every
    /// operation.
    pub open spec fn wf(self) -> bool {
        byte_len(self.client_id@) <= MAX_CLIENT_ID_LEN && self.topics.wf()
    }

    /// A fresh session. A client id over the wire bound is rejected (the
    /// protocol cannot carry it).
    pub fn new(client_id: &str) -> (r: Result<MqttSnClient, MqttSnClientError>)
        ensures
            r is Ok <==> byte_len(client_id@) <= MAX_CLIENT_ID_LEN,
            r matches Ok(c) ==> c.client_id@ == client_id@ && c.msg_id.last_id == 0 && c.topics@
                =~= Seq::<crate::topics::RecordModel>::empty() && c.wf(),
            r is Err ==> r == Err::<MqttSnClient, MqttSnClientError>(
                MqttSnClientError::UnknownError,
            ),
    {
        if client_id.as_bytes().len() <= MAX_CLIENT_ID_LEN {
            Ok(MqttSnClient {
                client_id: client_id.to_owned(),
                msg_id: MsgId::new(),
                topics: Topics::new(),
            })
        } else {
            Err(MqttSnClientError::UnknownError)
        }
    }

    /// Runs one decoded inbound message through the inbound dispatcher.
    ///
    /// A publish for a known topic id is consumed: the application message
    /// (topic name resolved through the registry) is handed back for
    /// forwarding, together with the one `PubAck` owed exactly when its
    /// QoS is above zero. A publish for an unknown id fails that receive
    /// with `TopicNotRegistered` — and nothing else. Every other message
    /// kind is passed back untouched.
    pub fn receive(&self, msg: ProtocolMessage) -> (r: Result<Received, MqttSnClientError>)
        ensures
            msg matches ProtocolMessage::Publish { qos, topic_id_type, topic_id, msg_id, data }
                ==> {
                &&& (contains_id(self.topics@, topic_id) ==> (r matches Ok(rec) && rec matches
                Received::Consumed { puback, forward } && forward.topic_id == Some(topic_id)
                    && forward.msg_id == Some(msg_id) && forward.qos == Some(qos) && lookup_id(
                    self.topics@,
                    topic_id,
                ) == Some(forward.topic@) && forward.payload@ == data@ && (qos > 0 ==> puback
                    == Some(
                    (ProtocolMessage::PubAck { topic_id, msg_id, code: AckCode::Accepted }),
                )) && (qos == 0 ==> puback is None)))
                &&& (!contains_id(self.topics@, topic_id) ==> r == Err::<
                    Received,
                    MqttSnClientError,
                >(MqttSnClientError::TopicNotRegistered))
            },
            !(msg matches ProtocolMessage::Publish { .. }) ==> (r matches Ok(rec) && rec
                == Received::Passed(msg)),
    {
        match msg {
            ProtocolMessage::Publish { qos, topic_id_type: _, topic_id, msg_id, data } => {
                let topic = self.topics.get_by_id(topic_id)?;
                let forward = MqttMessage {
                    topic_id: Some(topic_id),
                    msg_id: Some(msg_id),
                    qos: Some(qos),
                    topic,
                    payload: data,
                };
                let puback = if qos > 0 {
                    forward.get_ack()
                } else {
                    None
                };
                Ok(Received::Consumed { puback, forward })
            },
            other => Ok(Received::Passed(other)),
        }
    }

    /// Feeds one decode attempt into a pending exchange's wait.
    ///
    /// A decode failure, a swallowed publish (unknown topic id included)
    /// and an uncorrelated message all leave the wait unchanged; a consumed
    /// publish is handed out for forwarding while the wait goes on; only a
    /// message that `ack_of` accepts settles the exchange. So an inbound
    /// publish can never satisfy an ack wait, and a malformed frame aborts
    /// nothing.
    pub fn ack_wait_step(&self, op: &PendingOp, frame: Result<
        ProtocolMessage,
        MqttSnClientError,
    >) -> (r: EngineStep)
        ensures
            frame is Err ==> r is NoMatch,
            frame matches Ok(m) ==> (m matches ProtocolMessage::Publish { .. } ==> !(r
                is Matched)),
            frame matches Ok(m) ==> (m matches ProtocolMessage::Publish {
                qos,
                topic_id_type,
                topic_id,
                msg_id,
                data,
            } ==> {
                &&& (contains_id(self.topics@, topic_id) ==> (r matches EngineStep::Forwarded {
                    puback,
                    forward,
                } && forward.topic_id == Some(topic_id) && forward.msg_id == Some(msg_id)
                    && forward.qos == Some(qos) && lookup_id(self.topics@, topic_id) == Some(
                    forward.topic@,
                ) && forward.payload@ == data@ && (qos > 0 ==> puback == Some(
                    (ProtocolMessage::PubAck { topic_id, msg_id, code: AckCode::Accepted }),
                )) && (qos == 0 ==> puback is None)))
                &&& (!contains_id(self.topics@, topic_id) ==> r is NoMatch)
            }),
            frame matches Ok(m) ==> (!(m matches ProtocolMessage::Publish { .. }) ==> {
                &&& (ack_of(*op, m) == AckResult::NoMatch ==> r is NoMatch)
                &&& (ack_of(*op, m) != AckResult::NoMatch ==> r == EngineStep::Matched(
                    ack_of(*op, m),
                ))
            }),
    {
        match frame {
            Err(_) => EngineStep::NoMatch,
            Ok(msg) => match self.receive(msg) {
                Err(_) => EngineStep::NoMatch,
                Ok(Received::Consumed { puback, forward }) => EngineStep::Forwarded {
                    puback,
                    forward,
                },
                Ok(Received::Passed(m)) => {
                    match check_ack(op, &m) {
                        AckResult::NoMatch => EngineStep::NoMatch,
                        res => EngineStep::Matched(res),
                    }
                },
            },
        }
    }

    /// Decodes one raw datagram and feeds it into the pending exchange's
    /// wait in one move.
    pub fn on_datagram(&self, op: &PendingOp, bytes: &[u8]) -> (r: EngineStep)
        ensures
            r is Matched ==> exists|m: ProtocolMessage|
                !(m matches ProtocolMessage::Publish { .. }) && #[trigger] ack_of(*op, m)
                    != AckResult::NoMatch && r == EngineStep::Matched(ack_of(*op, m)),
            *op is Disconnect && bytes@ == crate::codec::disconnect_bytes(None::<u16>) ==> r
                == EngineStep::Matched(AckResult::Success),
            forall|d: u16|
                *op is Disconnect && bytes@ == #[trigger] crate::codec::disconnect_bytes(Some(d))
                    ==> r == EngineStep::Matched(AckResult::Success),
    {
        self.ack_wait_step(op, decode_frame(bytes))
    }

    /// Opens the connect exchange: a Connect frame with the session's
    /// client id and the keep-alive duration, correlated against an
    /// accepting ConnAck.
    pub fn start_connect(&self, duration: u16) -> (r: Result<Exchange, MqttSnClientError>)
        requires
            self.wf(),
        ensures
            r matches Ok(ex) ==> ex.op == PendingOp::Connect && ex.attempt == 1 && ex.packet@
                == connect_frame(duration, self.client_id@),
            r is Ok,
    {
        let packet = match encode_message(
            &(ProtocolMessage::Connect { duration, client_id: self.client_id.clone() }),
        ) {
            Ok(p) => p,
            Err(e) => {
                return Err(e);
            },
        };
        Ok(Exchange::new(PendingOp::Connect, packet))
    }

    /// Opens the ping exchange: a PingReq with the session's client id,
    /// correlated against any PingResp. Used both explicitly and as the
    /// driver loop's keep-alive probe.
    pub fn start_ping(&self) -> (r: Result<Exchange, MqttSnClientError>)
        requires
            self.wf(),
        ensures
            r matches Ok(ex) ==> ex.op == PendingOp::Ping && ex.attempt == 1 && ex.packet@
                == pingreq_frame(self.client_id@),
            r is Ok,
    {
        let packet = match encode_message(
            &(ProtocolMessage::PingReq { client_id: self.client_id.clone() }),
        ) {
            Ok(p) => p,
            Err(e) => {
                return Err(e);
            },
        };
        Ok(Exchange::new(PendingOp::Ping, packet))
    }

    /// Opens the disconnect exchange. A duration signals the intent to
    /// sleep (with a keep-alive shorter than it) — a hint to the peer, not
    /// an engine-internal sleep. Any disconnect reply settles it.
    pub fn start_disconnect(&self, duration: Option<u16>) -> (r: Exchange)
        ensures
            r.op == PendingOp::Disconnect,
            r.attempt == 1,
            r.packet@ == crate::codec::disconnect_bytes(duration),
    {
        match encode_message(&(ProtocolMessage::Disconnect { duration })) {
            Ok(p) => Exchange::new(PendingOp::Disconnect, p),
            Err(_) => Exchange::new(PendingOp::Disconnect, Vec::new()),
        }
    }

    /// Opens a register exchange for a topic name: topic id zero
    /// (unassigned), a fresh message id, the name. An accepting RegAck
    /// yields the assigned id; recording it in the registry is the
    /// caller's step (`finish_register`) — the exchange itself never
    /// mutates the registry.
    pub fn start_register(&mut self, topic: &String) -> (r: Result<Exchange, MqttSnClientError>)
        requires
            old(self).wf(),
        ensures
            final(self).wf(),
            final(self).topics == old(self).topics,
            final(self).client_id == old(self).client_id,
            r is Ok <==> byte_len(topic@) <= MAX_REGISTER_TOPIC_LEN,
            r matches Ok(ex) ==> ex.op == PendingOp::Register && ex.attempt == 1
                && final(self).msg_id.last_id == add_one_wrapping(old(self).msg_id.last_id)
                && ex.packet@ == register_frame(add_one_wrapping(old(self).msg_id.last_id), topic@),
            r is Err ==> r == Err::<Exchange, MqttSnClientError>(MqttSnClientError::CodecError)
                && final(self).msg_id == old(self).msg_id,
    {
        if topic.as_str().as_bytes().len() > MAX_REGISTER_TOPIC_LEN {
            return Err(MqttSnClientError::CodecError);
        }
        let msg_id = self.msg_id.next();
        let packet = match encode_message(
            &(ProtocolMessage::Register { topic_id: 0, msg_id, topic_name: topic.clone() }),
        ) {
            Ok(p) => p,
            Err(e) => {
                return Err(e);
            },
        };
        Ok(Exchange::new(PendingOp::Register, packet))
    }

    /// Records the topic id a register exchange was granted, as a normal
    /// broker-assigned id: the resolve-or-register step of publish and
    /// subscribe goes through the registry from then on.
    pub fn finish_register(&mut self, topic: &String, topic_id: u16) -> (r: Result<
        (),
        MqttSnClientError,
    >)
        requires
            old(self).wf(),
        ensures
            final(self).wf(),
            final(self).msg_id == old(self).msg_id,
            final(self).client_id == old(self).client_id,
            r is Ok ==> contains_name(final(self).topics@, topic@) && lookup_name(
                final(self).topics@,
                topic@,
            ) == Some((TopicIdType::Id, topic_id)),
            r is Ok <==> contains_name(old(self).topics@, topic@) || old(self).topics@.len()
                < TOPIC_CAPACITY,
            contains_name(old(self).topics@, topic@) ==> final(self).topics@ =~= overwrite_name(
                old(self).topics@,
                topic@,
                TopicIdType::Id,
                topic_id,
            ),
            !contains_name(old(self).topics@, topic@) && old(self).topics@.len() < TOPIC_CAPACITY
                ==> final(self).topics@ =~= old(self).topics@.push(
                (topic@, TopicIdType::Id, topic_id),
            ),
            r is Err ==> r == Err::<(), MqttSnClientError>(MqttSnClientError::TopicFailedInsert)
                && final(self).topics@ =~= old(self).topics@,
    {
        self.topics.insert(topic.clone(), TopicIdType::Id, topic_id)
    }

    /// Opens a publish operation for an application message.
    ///
    /// Resolve-or-register: a topic the registry knows — once registered
    /// within this session — is reused as it stands and never registered
    /// again; an unknown one opens a register exchange first (the caller
    /// records its result and calls again). With the topic resolved, the
    /// datagram carries a fresh message id and the payload: QoS zero or
    /// absent is handed out to send fire-and-forget, QoS one and above
    /// opens an exchange correlated against an accepting PubAck with that
    /// very message id.
    pub fn start_publish(&mut self, msg: &MqttMessage) -> (r: Result<
        PublishStart,
        MqttSnClientError,
    >)
        requires
            old(self).wf(),
        ensures
            final(self).wf(),
            final(self).topics == old(self).topics,
            final(self).client_id == old(self).client_id,
            contains_name(old(self).topics@, msg.topic@) ==> !(r matches Ok(s) && s matches
                PublishStart::NeedRegister(_)),
            contains_name(old(self).topics@, msg.topic@) && byte_len(msg.payload@)
                <= MAX_PUBLISH_DATA_LEN ==> r is Ok,
            contains_name(old(self).topics@, msg.topic@) && byte_len(msg.payload@)
                > MAX_PUBLISH_DATA_LEN ==> r == Err::<PublishStart, MqttSnClientError>(
                MqttSnClientError::CodecError,
            ),
            r matches Ok(s) ==> (s matches PublishStart::WithAck(ex) ==> ex.op == (
            PendingOp::Publish { msg_id: add_one_wrapping(old(self).msg_id.last_id) })
                && ex.attempt == 1 && effective_qos(msg.qos) > 0),
            r matches Ok(s) ==> (s is Fire ==> effective_qos(msg.qos) == 0),
            r matches Ok(s) ==> (s matches PublishStart::NeedRegister(ex) ==> ex.op
                == PendingOp::Register && ex.attempt == 1 && !contains_name(
                old(self).topics@,
                msg.topic@,
            )),
            !contains_name(old(self).topics@, msg.topic@) && byte_len(msg.topic@)
                <= MAX_REGISTER_TOPIC_LEN ==> (r matches Ok(s) && s is NeedRegister),
            !contains_name(old(self).topics@, msg.topic@) && byte_len(msg.topic@)
                > MAX_REGISTER_TOPIC_LEN ==> r == Err::<PublishStart, MqttSnClientError>(
                MqttSnClientError::CodecError,
            ),
            lookup_name(old(self).topics@, msg.topic@) matches Some(ki) ==> (r matches Ok(s)
                ==> (s matches PublishStart::WithAck(ex) ==> ex.packet@ == publish_frame(
                effective_qos(msg.qos),
                kind_code(ki.0),
                ki.1,
                add_one_wrapping(old(self).msg_id.last_id),
                msg.payload@,
            ))),
            lookup_name(old(self).topics@, msg.topic@) matches Some(ki) ==> (r matches Ok(s)
                ==> (s matches PublishStart::Fire(bytes) ==> bytes@ == publish_frame(
                effective_qos(msg.qos),
                kind_code(ki.0),
                ki.1,
                add_one_wrapping(old(self).msg_id.last_id),
                msg.payload@,
            ))),
            r matches Ok(s) ==> (s matches PublishStart::NeedRegister(ex) ==> ex.packet@
                == register_frame(add_one_wrapping(old(self).msg_id.last_id), msg.topic@)),
            r is Ok ==> final(self).msg_id.last_id == add_one_wrapping(old(self).msg_id.last_id),
            r is Err ==> final(self).msg_id == old(self).msg_id,
    {
        if let Some((kind, topic_id)) = self.topics.get_by_topic(&msg.topic) {
            if msg.payload.as_str().as_bytes().len() > MAX_PUBLISH_DATA_LEN {
                return Err(MqttSnClientError::CodecError);
            }
            let qos = match msg.qos {
                Some(q) => q,
                None => 0,
            };
            let next_msg_id = self.msg_id.next();
            let packet = match encode_message(
                &(ProtocolMessage::Publish {
                    qos,
                    topic_id_type: kind.as_u8(),
                    topic_id,
                    msg_id: next_msg_id,
                    data: msg.payload.clone(),
                }),
            ) {
                Ok(p) => p,
                Err(e) => {
                    return Err(e);
                },
            };
            if qos > 0 {
                Ok(PublishStart::WithAck(Exchange::new(
                    PendingOp::Publish { msg_id: next_msg_id },
                    packet,
                )))
            } else {
                Ok(PublishStart::Fire(packet))
            }
        } else {
            let ex = self.start_register(&msg.topic)?;
            Ok(PublishStart::NeedRegister(ex))
        }
    }

    /// Opens a subscribe operation for a topic name.
    ///
    /// The same resolve-or-register step as publish; with the topic
    /// resolved, the subscribe datagram names it by its numeric id, with
    /// the id-kind the registry resolved (the registered kind is
    /// authoritative), and is correlated against an accepting SubAck. A
    /// name over the protocol's topic bound is rejected outright.
    pub fn start_subscribe(&mut self, topic: &str) -> (r: Result<
        SubscribeStart,
        MqttSnClientError,
    >)
        requires
            old(self).wf(),
        ensures
            final(self).wf(),
            final(self).topics == old(self).topics,
            final(self).client_id == old(self).client_id,
            byte_len(topic@) > MAX_TOPIC_LEN ==> r == Err::<SubscribeStart, MqttSnClientError>(
                MqttSnClientError::UnknownError,
            ) && final(self).msg_id == old(self).msg_id,
            contains_name(old(self).topics@, topic@) ==> !(r matches Ok(s) && s matches
                SubscribeStart::NeedRegister(_)),
            byte_len(topic@) <= MAX_TOPIC_LEN && contains_name(old(self).topics@, topic@) ==> (
            r matches Ok(s) && s matches SubscribeStart::WithAck(ex) && ex.op
                == PendingOp::Subscribe && ex.attempt == 1),
            byte_len(topic@) <= MAX_TOPIC_LEN && !contains_name(old(self).topics@, topic@)
                && byte_len(topic@) <= MAX_REGISTER_TOPIC_LEN ==> (r matches Ok(s) && s matches
                SubscribeStart::NeedRegister(ex) && ex.op == PendingOp::Register && ex.attempt
                == 1),
            byte_len(topic@) <= MAX_TOPIC_LEN && !contains_name(old(self).topics@, topic@)
                && byte_len(topic@) > MAX_REGISTER_TOPIC_LEN ==> r == Err::<
                SubscribeStart,
                MqttSnClientError,
            >(MqttSnClientError::CodecError),
            lookup_name(old(self).topics@, topic@) matches Some(ki) ==> (r matches Ok(s) ==> (s
                matches SubscribeStart::WithAck(ex) ==> ex.packet@ == subscribe_frame(
                add_one_wrapping(old(self).msg_id.last_id),
                ki.1,
                kind_code(ki.0),
            ))),
            r matches Ok(s) ==> (s matches SubscribeStart::NeedRegister(ex) ==> ex.packet@
                == register_frame(add_one_wrapping(old(self).msg_id.last_id), topic@)),
            r is Ok ==> final(self).msg_id.last_id == add_one_wrapping(old(self).msg_id.last_id),
    {
        if topic.as_bytes().len() > MAX_TOPIC_LEN {
            return Err(MqttSnClientError::UnknownError);
        }
        let owned: String = topic.to_owned();
        if let Some((kind, topic_id)) = self.topics.get_by_topic(&owned) {
            let msg_id = self.msg_id.next();
            let packet = match encode_message(
                &(ProtocolMessage::Subscribe {
                    qos: 0,
                    topic_id_type: kind.as_u8(),
                    msg_id,
                    topic_id,
                }),
            ) {
                Ok(p) => p,
                Err(e) => {
                    return Err(e);
                },
            };
            Ok(SubscribeStart::WithAck(Exchange::new(PendingOp::Subscribe, packet)))
        } else {
            let ex = self.start_register(&owned)?;
            Ok(SubscribeStart::NeedRegister(ex))
        }
    }
}

/// The successor of a 16-bit message id, wrapping at the top.
pub open spec fn add_one_wrapping(v: u16) -> u16 {
    (((v + 1) % 0x10000) as u16)
}

} // verus!
