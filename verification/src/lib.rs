//! Client-side engine for a lightweight publish/subscribe protocol over
//! lossy datagram links: a topic registry, a wrapping message-id sequencer,
//! an ack-correlated retry state machine, an inbound dispatcher, and the
//! session operations (connect, register, subscribe, publish, ping,
//! disconnect) built on top of them.

mod client;
mod codec;
mod errors;
mod laws;
mod messages;
mod retry;
mod sequencer;
mod topics;
mod wire_types;

pub use client::{
    add_one_wrapping, driver_decision, effective_qos, DriverAction, DriverEvent, EngineStep,
    MqttSnClient, PublishStart, Received, SubscribeStart,
};
pub use codec::{
    client_encodable, decode_frame, disconnect_bytes, encode_disconnect, encode_message,
    fits_wire, DISCONNECT_TYPE, MAX_PUBLISH_DATA_LEN, MAX_REGISTER_TOPIC_LEN, SUBSCRIBE_TYPE,
    UNSUBSCRIBE_TYPE,
};
pub use errors::MqttSnClientError;
pub use laws::lemma_registry_round_trip;
pub use messages::{
    byte_len, AckCode, MqttMessage, ProtocolMessage, TopicIdType, MAX_CLIENT_ID_LEN,
    MAX_TOPIC_LEN,
};
pub use retry::{
    ack_of, after_timeouts, check_ack, lemma_retry_gives_up, lemma_retry_resends,
    lemma_retry_succeeds, AckResult, Exchange, PendingOp, RetryAction, N_RETRY, T_RETRY,
};
pub use sequencer::MsgId;
pub use topics::{
    contains_id, contains_name, lookup_id, lookup_id_from, lookup_name, lookup_name_from,
    overwrite_name, RecordModel, TopicRecord, Topics, TOPIC_CAPACITY,
};
