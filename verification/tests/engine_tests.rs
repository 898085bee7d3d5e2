use byte::TryWrite;
use mqtt_sn::defs as wire;

use mqttsn_client::{
    decode_frame, driver_decision, encode_disconnect, encode_message, AckCode, AckResult,
    DriverAction, DriverEvent, EngineStep, MqttMessage, MqttSnClient, MqttSnClientError,
    PendingOp, ProtocolMessage, PublishStart, Received, RetryAction, SubscribeStart, TopicIdType,
    N_RETRY,
};

/// Encodes a server-side frame with the codec crate itself, as a broker
/// would put it on the wire.
fn server_frame(msg: wire::Message) -> Vec<u8> {
    let mut buf = [0u8; 512];
    let len = msg.try_write(&mut buf, ()).unwrap();
    buf[..len].to_vec()
}

fn accepted_connack() -> Vec<u8> {
    server_frame(wire::Message::ConnAck(wire::ConnAck {
        code: wire::ReturnCode::Accepted,
    }))
}

fn client() -> MqttSnClient {
    MqttSnClient::new("test1").unwrap()
}

#[test]
fn msg_ids_increase_and_wrap() {
    let mut c = client();
    assert_eq!(c.msg_id.next(), 1);
    assert_eq!(c.msg_id.next(), 2);
    assert_eq!(c.msg_id.next(), 3);
    c.msg_id.last_id = 65534;
    assert_eq!(c.msg_id.next(), 65535);
    assert_eq!(c.msg_id.next(), 0);
    assert_eq!(c.msg_id.next(), 1);
}

#[test]
fn client_id_over_wire_bound_is_rejected() {
    let long = "x".repeat(65);
    assert!(matches!(
        MqttSnClient::new(&long),
        Err(MqttSnClientError::UnknownError)
    ));
    assert!(MqttSnClient::new(&"x".repeat(64)).is_ok());
}

#[test]
fn registry_round_trips_name_and_id() {
    let mut c = client();
    c.finish_register(&String::from("a/b"), 3).unwrap();
    let (kind, id) = c.topics.get_by_topic(&String::from("a/b")).unwrap();
    assert_eq!(kind, TopicIdType::Id);
    assert_eq!(id, 3);
    assert_eq!(c.topics.get_by_id(3).unwrap(), "a/b");
}

#[test]
fn registry_overwrites_and_fills() {
    let mut c = client();
    c.finish_register(&String::from("a/b"), 3).unwrap();
    c.finish_register(&String::from("a/b"), 7).unwrap();
    assert_eq!(
        c.topics.get_by_topic(&String::from("a/b")),
        Some((TopicIdType::Id, 7))
    );
    for i in 1..16u16 {
        c.finish_register(&format!("t/{}", i), 100 + i).unwrap();
    }
    // the store is at capacity: a new name fails, an overwrite still works
    assert!(matches!(
        c.finish_register(&String::from("one/more"), 999),
        Err(MqttSnClientError::TopicFailedInsert)
    ));
    c.finish_register(&String::from("t/5"), 505).unwrap();
    assert_eq!(c.topics.get_by_id(505).unwrap(), "t/5");
}

#[test]
fn unknown_id_lookup_fails() {
    let c = client();
    assert!(matches!(
        c.topics.get_by_id(42),
        Err(MqttSnClientError::TopicNotRegistered)
    ));
}

#[test]
fn topic_id_kind_codes() {
    assert_eq!(TopicIdType::try_from(0), Ok(TopicIdType::Id));
    assert_eq!(TopicIdType::try_from(1), Ok(TopicIdType::PreDef));
    assert_eq!(TopicIdType::try_from(2), Ok(TopicIdType::Short));
    assert_eq!(TopicIdType::try_from(3), Err(MqttSnClientError::ParseError));
    assert_eq!(TopicIdType::PreDef.as_u8(), 1);
}

#[test]
fn application_message_bounds() {
    let m = MqttMessage::new("test/testing", "blablabla", Some(1)).unwrap();
    assert_eq!(m.topic, "test/testing");
    assert_eq!(m.payload, "blablabla");
    assert_eq!(m.qos, Some(1));
    assert!(m.get_ack().is_none());
    let long = "y".repeat(257);
    assert!(matches!(
        MqttMessage::new(&long, "p", None),
        Err(MqttSnClientError::UnknownError)
    ));
    assert!(matches!(
        MqttMessage::new("t", &long, None),
        Err(MqttSnClientError::UnknownError)
    ));
}

#[test]
fn puback_round_trips_through_codec() {
    let sent = ProtocolMessage::PubAck {
        topic_id: 7,
        msg_id: 9,
        code: AckCode::Accepted,
    };
    let bytes = encode_message(&sent).unwrap();
    assert_eq!(decode_frame(&bytes).unwrap(), sent);
}

#[test]
fn publish_round_trips_through_codec() {
    let bytes = encode_message(&ProtocolMessage::Publish {
        qos: 1,
        topic_id_type: 0,
        topic_id: 5,
        msg_id: 77,
        data: String::from("hello"),
    })
    .unwrap();
    match decode_frame(&bytes).unwrap() {
        ProtocolMessage::Publish {
            qos,
            topic_id_type,
            topic_id,
            msg_id,
            data,
        } => {
            assert_eq!(qos, 1);
            assert_eq!(topic_id_type, 0);
            assert_eq!(topic_id, 5);
            assert_eq!(msg_id, 77);
            assert_eq!(data, "hello");
        }
        other => panic!("decoded into {:?}", other),
    }
}

#[test]
fn rejecting_codes_survive_decoding() {
    let bytes = server_frame(wire::Message::ConnAck(wire::ConnAck {
        code: wire::ReturnCode::Rejected(wire::RejectedReason::Congestion),
    }));
    assert_eq!(
        decode_frame(&bytes).unwrap(),
        ProtocolMessage::ConnAck {
            code: AckCode::RejectedCongestion
        }
    );
}

#[test]
fn disconnect_frames_are_exact_and_round_trip() {
    assert_eq!(encode_disconnect(None), vec![2u8, 0x18]);
    assert_eq!(encode_disconnect(Some(300)), vec![4u8, 0x18, 1, 44]);
    assert_eq!(
        decode_frame(&encode_disconnect(Some(300))).unwrap(),
        ProtocolMessage::Disconnect {
            duration: Some(300)
        }
    );
    assert_eq!(
        decode_frame(&encode_disconnect(None)).unwrap(),
        ProtocolMessage::Disconnect { duration: None }
    );
}

/// The request frames, octet by octet, against the layouts the contracts
/// state (length, type, flags, big-endian ids, then the strings).
#[test]
fn request_frames_are_exact() {
    let mut c = client();
    let ex = c.start_connect(300).unwrap();
    assert_eq!(ex.packet, vec![11, 0x04, 0, 1, 1, 44, b't', b'e', b's', b't', b'1']);

    let ex = c.start_ping().unwrap();
    assert_eq!(ex.packet, vec![7, 0x16, b't', b'e', b's', b't', b'1']);

    let ex = c.start_register(&String::from("a/b")).unwrap(); // message id 1
    assert_eq!(ex.packet, vec![9, 0x0A, 0, 0, 0, 1, b'a', b'/', b'b']);

    c.finish_register(&String::from("a/b"), 21).unwrap();
    let ex = match c.start_subscribe("a/b").unwrap() {
        SubscribeStart::WithAck(ex) => ex, // message id 2
        SubscribeStart::NeedRegister(_) => panic!("topic already registered"),
    };
    assert_eq!(ex.packet, vec![7, 0x12, 0, 0, 2, 0, 21]);

    let msg = MqttMessage::new("a/b", "hi", Some(1)).unwrap();
    let ex = match c.start_publish(&msg).unwrap() {
        PublishStart::WithAck(ex) => ex, // message id 3, QoS bits at 6..5
        other => panic!("unexpected start: {:?}", other),
    };
    assert_eq!(ex.packet, vec![9, 0x0C, 32, 0, 21, 0, 3, b'h', b'i']);

    let msg = MqttMessage::new("a/b", "hi", None).unwrap();
    let bytes = match c.start_publish(&msg).unwrap() {
        PublishStart::Fire(bytes) => bytes, // message id 4
        other => panic!("unexpected start: {:?}", other),
    };
    assert_eq!(bytes, vec![9, 0x0C, 0, 0, 21, 0, 4, b'h', b'i']);

    let puback = encode_message(&ProtocolMessage::PubAck {
        topic_id: 5,
        msg_id: 9,
        code: AckCode::Accepted,
    })
    .unwrap();
    assert_eq!(puback, vec![7, 0x0D, 0, 5, 0, 9, 0]);
}

#[test]
fn malformed_frames_are_errors_not_crashes() {
    assert!(decode_frame(&[]).is_err());
    assert!(decode_frame(&[1]).is_err());
    // a subscribe frame whose length octet is shorter than its header
    assert!(decode_frame(&[3, 0x12, 0]).is_err());
    assert!(decode_frame(&[0, 0x14]).is_err());
    // an unknown message type
    assert!(decode_frame(&[2, 0x7f]).is_err());
}

/// Drives one exchange against a transport that swallows the first `drop`
/// deliveries and then answers every later send with `reply`. Returns
/// (outcome, sends made).
fn run_exchange(
    c: &MqttSnClient,
    mut ex: mqttsn_client::Exchange,
    drop: u32,
    reply: Option<&[u8]>,
) -> (Result<AckResult, MqttSnClientError>, u32) {
    let mut sends: u32 = 1; // the packet goes out once when the exchange opens
    loop {
        let answered = sends > drop;
        let frame: Option<&[u8]> = if answered { reply } else { None };
        if let Some(bytes) = frame {
            match c.on_datagram(&ex.op, bytes) {
                EngineStep::Matched(res) => return (Ok(res), sends),
                EngineStep::Forwarded { .. } | EngineStep::NoMatch => {}
            }
        }
        // nothing settled this attempt's window: the per-attempt timer fires
        match ex.on_timeout() {
            RetryAction::Resend => sends += 1,
            RetryAction::Failed(e) => return (Err(e), sends),
        }
    }
}

#[test]
fn retry_succeeds_after_k_drops_with_k_plus_one_sends() {
    let c = client();
    for k in 0..(N_RETRY as u32) {
        let ex = c.start_connect(300).unwrap();
        let reply = accepted_connack();
        let (res, sends) = run_exchange(&c, ex, k, Some(&reply));
        assert_eq!(res, Ok(AckResult::Success));
        assert_eq!(sends, k + 1);
    }
}

#[test]
fn retry_gives_up_after_exactly_n_retry_sends() {
    let mut c = client();
    let connect = c.start_connect(300).unwrap();
    let (res, sends) = run_exchange(&c, connect, u32::MAX, None);
    assert_eq!(res, Err(MqttSnClientError::AckError));
    assert_eq!(sends, N_RETRY as u32);

    let ping = c.start_ping().unwrap();
    let (res, sends) = run_exchange(&c, ping, u32::MAX, None);
    assert_eq!(res, Err(MqttSnClientError::AckError));
    assert_eq!(sends, N_RETRY as u32);

    let register = c.start_register(&String::from("a/b")).unwrap();
    let (res, sends) = run_exchange(&c, register, u32::MAX, None);
    assert_eq!(res, Err(MqttSnClientError::AckError));
    assert_eq!(sends, N_RETRY as u32);
}

#[test]
fn every_operation_succeeds_when_answered() {
    let mut c = client();

    let ex = c.start_register(&String::from("test/x")).unwrap();
    let regack = server_frame(wire::Message::RegAck(wire::RegAck {
        topic_id: 21,
        msg_id: 1,
        code: wire::ReturnCode::Accepted,
    }));
    let (res, sends) = run_exchange(&c, ex, 2, Some(&regack));
    assert_eq!(res, Ok(AckResult::TopicId(21)));
    assert_eq!(sends, 3);
    c.finish_register(&String::from("test/x"), 21).unwrap();

    let ex = match c.start_subscribe("test/x").unwrap() {
        SubscribeStart::WithAck(ex) => ex,
        SubscribeStart::NeedRegister(_) => panic!("topic already registered"),
    };
    let suback = server_frame(wire::Message::SubAck(wire::SubAck {
        flags: wire::Flags::default(),
        topic_id: 21,
        msg_id: 2,
        code: wire::ReturnCode::Accepted,
    }));
    let (res, _) = run_exchange(&c, ex, 0, Some(&suback));
    assert_eq!(res, Ok(AckResult::Success));

    let msg = MqttMessage::new("test/x", "payload", Some(1)).unwrap();
    let (ex, sent_msg_id) = match c.start_publish(&msg).unwrap() {
        PublishStart::WithAck(ex) => {
            let id = match ex.op {
                PendingOp::Publish { msg_id } => msg_id,
                _ => panic!("publish exchange expected"),
            };
            (ex, id)
        }
        other => panic!("unexpected start: {:?}", other),
    };
    let puback = server_frame(wire::Message::PubAck(wire::PubAck {
        topic_id: 21,
        msg_id: sent_msg_id,
        code: wire::ReturnCode::Accepted,
    }));
    let (res, sends) = run_exchange(&c, ex, 4, Some(&puback));
    assert_eq!(res, Ok(AckResult::Success));
    assert_eq!(sends, 5);

    let ex = c.start_ping().unwrap();
    let pingresp = server_frame(wire::Message::PingResp(wire::PingResp {}));
    let (res, sends) = run_exchange(&c, ex, 1, Some(&pingresp));
    assert_eq!(res, Ok(AckResult::Success));
    assert_eq!(sends, 2);

    let ex = c.start_disconnect(Some(300));
    let (res, _) = run_exchange(&c, ex, 0, Some(&encode_disconnect(None)));
    assert_eq!(res, Ok(AckResult::Success));
}

#[test]
fn transport_fault_aborts_without_retry() {
    let c = client();
    let ex = c.start_connect(300).unwrap();
    assert_eq!(
        ex.on_transport_error(),
        RetryAction::Failed(MqttSnClientError::SocketError)
    );
    assert_eq!(ex.attempt, 1);
}

#[test]
fn puback_with_wrong_msg_id_is_no_match() {
    let c = client();
    let op = PendingOp::Publish { msg_id: 10 };
    let wrong = ProtocolMessage::PubAck {
        topic_id: 1,
        msg_id: 11,
        code: AckCode::Accepted,
    };
    assert!(matches!(
        c.ack_wait_step(&op, Ok(wrong)),
        EngineStep::NoMatch
    ));
    let rejected = ProtocolMessage::PubAck {
        topic_id: 1,
        msg_id: 10,
        code: AckCode::RejectedInvalidTopicId,
    };
    assert!(matches!(
        c.ack_wait_step(&op, Ok(rejected)),
        EngineStep::NoMatch
    ));
    let right = ProtocolMessage::PubAck {
        topic_id: 1,
        msg_id: 10,
        code: AckCode::Accepted,
    };
    assert!(matches!(
        c.ack_wait_step(&op, Ok(right)),
        EngineStep::Matched(AckResult::Success)
    ));
}

#[test]
fn inbound_publish_qos1_yields_one_puback_and_one_forward() {
    let mut c = client();
    c.finish_register(&String::from("test/recv"), 5).unwrap();
    let inbound = ProtocolMessage::Publish {
        qos: 1,
        topic_id_type: 0,
        topic_id: 5,
        msg_id: 9,
        data: String::from("blablabla"),
    };
    match c.receive(inbound).unwrap() {
        Received::Consumed { puback, forward } => {
            assert_eq!(
                puback,
                Some(ProtocolMessage::PubAck {
                    topic_id: 5,
                    msg_id: 9,
                    code: AckCode::Accepted,
                })
            );
            assert_eq!(forward.topic, "test/recv");
            assert_eq!(forward.payload, "blablabla");
            assert_eq!(forward.qos, Some(1));
            assert_eq!(forward.topic_id, Some(5));
            assert_eq!(forward.msg_id, Some(9));
        }
        Received::Passed(m) => panic!("publish passed through: {:?}", m),
    }
}

#[test]
fn inbound_publish_qos0_yields_no_puback() {
    let mut c = client();
    c.finish_register(&String::from("test/recv"), 5).unwrap();
    let inbound = ProtocolMessage::Publish {
        qos: 0,
        topic_id_type: 0,
        topic_id: 5,
        msg_id: 9,
        data: String::from("x"),
    };
    match c.receive(inbound).unwrap() {
        Received::Consumed { puback, forward } => {
            assert!(puback.is_none());
            assert_eq!(forward.topic, "test/recv");
        }
        Received::Passed(m) => panic!("publish passed through: {:?}", m),
    }
}

#[test]
fn inbound_publish_for_unknown_id_is_swallowed() {
    let c = client();
    let inbound = ProtocolMessage::Publish {
        qos: 1,
        topic_id_type: 0,
        topic_id: 99,
        msg_id: 9,
        data: String::from("x"),
    };
    // the dispatch layer alone sees the failure ...
    assert!(matches!(
        c.receive(inbound.clone()),
        Err(MqttSnClientError::TopicNotRegistered)
    ));
    // ... and no pending ack wait is satisfied or aborted by it
    assert!(matches!(
        c.ack_wait_step(&PendingOp::Connect, Ok(inbound)),
        EngineStep::NoMatch
    ));
}

#[test]
fn publish_after_register_issues_no_second_register() {
    let mut c = client();
    let msg = MqttMessage::new("a/b", "payload", Some(1)).unwrap();
    // first resolve: the registry is empty, so a register exchange opens
    assert!(matches!(
        c.start_publish(&msg).unwrap(),
        PublishStart::NeedRegister(_)
    ));
    c.finish_register(&String::from("a/b"), 12).unwrap();
    // immediately after: resolved from the registry, no second register
    assert!(matches!(
        c.start_publish(&msg).unwrap(),
        PublishStart::WithAck(_)
    ));
    let again = MqttMessage::new("a/b", "more", None).unwrap();
    assert!(matches!(
        c.start_publish(&again).unwrap(),
        PublishStart::Fire(_)
    ));
}

#[test]
fn qos_zero_publish_is_fire_and_forget() {
    let mut c = client();
    c.finish_register(&String::from("a/b"), 12).unwrap();
    let msg = MqttMessage::new("a/b", "p", Some(0)).unwrap();
    assert!(matches!(
        c.start_publish(&msg).unwrap(),
        PublishStart::Fire(_)
    ));
    let msg = MqttMessage::new("a/b", "p", None).unwrap();
    assert!(matches!(
        c.start_publish(&msg).unwrap(),
        PublishStart::Fire(_)
    ));
}

#[test]
fn oversized_subscribe_topic_is_rejected() {
    let mut c = client();
    let long = "z".repeat(257);
    assert!(matches!(
        c.start_subscribe(&long),
        Err(MqttSnClientError::UnknownError)
    ));
    // fits the application bound but not a register frame's length octet
    let wide = "w".repeat(250);
    assert!(matches!(
        c.start_subscribe(&wide),
        Err(MqttSnClientError::CodecError)
    ));
}

#[test]
fn driver_publishes_or_pings() {
    let m = MqttMessage::new("a/b", "p", None).unwrap();
    assert!(matches!(
        driver_decision(DriverEvent::Outbound(m)),
        DriverAction::RunSession(_)
    ));
    assert!(matches!(
        driver_decision(DriverEvent::IdleTimeout),
        DriverAction::KeepAlive
    ));
}

/// The end-to-end trace: connect, subscribe (with its implicit register),
/// then an acknowledged publish, each answered by broker frames.
#[test]
fn end_to_end_session_trace() {
    let mut c = MqttSnClient::new("test1").unwrap();

    // Connect(keep-alive 300) -> ConnAck
    let ex = c.start_connect(300).unwrap();
    let reply = accepted_connack();
    let (res, _) = run_exchange(&c, ex, 0, Some(&reply));
    assert_eq!(res, Ok(AckResult::Success));

    // Subscribe "test/recv": implicit Register -> RegAck, then SubAck
    let ex = match c.start_subscribe("test/recv").unwrap() {
        SubscribeStart::NeedRegister(ex) => ex,
        SubscribeStart::WithAck(_) => panic!("nothing registered yet"),
    };
    let regack = server_frame(wire::Message::RegAck(wire::RegAck {
        topic_id: 1,
        msg_id: 1,
        code: wire::ReturnCode::Accepted,
    }));
    let (res, _) = run_exchange(&c, ex, 0, Some(&regack));
    assert_eq!(res, Ok(AckResult::TopicId(1)));
    c.finish_register(&String::from("test/recv"), 1).unwrap();
    let ex = match c.start_subscribe("test/recv").unwrap() {
        SubscribeStart::WithAck(ex) => ex,
        SubscribeStart::NeedRegister(_) => panic!("registered a moment ago"),
    };
    let suback = server_frame(wire::Message::SubAck(wire::SubAck {
        flags: wire::Flags::default(),
        topic_id: 1,
        msg_id: 2,
        code: wire::ReturnCode::Accepted,
    }));
    let (res, _) = run_exchange(&c, ex, 0, Some(&suback));
    assert_eq!(res, Ok(AckResult::Success));

    // Publish {"test/testing", "blablabla", QoS 1}: Register -> RegAck,
    // then Publish(msg id N) -> PubAck(msg id N, accepted)
    let msg = MqttMessage::new("test/testing", "blablabla", Some(1)).unwrap();
    let ex = match c.start_publish(&msg).unwrap() {
        PublishStart::NeedRegister(ex) => ex,
        other => panic!("unexpected start: {:?}", other),
    };
    let regack = server_frame(wire::Message::RegAck(wire::RegAck {
        topic_id: 2,
        msg_id: 3,
        code: wire::ReturnCode::Accepted,
    }));
    let (res, _) = run_exchange(&c, ex, 0, Some(&regack));
    assert_eq!(res, Ok(AckResult::TopicId(2)));
    c.finish_register(&String::from("test/testing"), 2).unwrap();
    let ex = match c.start_publish(&msg).unwrap() {
        PublishStart::WithAck(ex) => ex,
        other => panic!("unexpected start: {:?}", other),
    };
    let n = match ex.op {
        PendingOp::Publish { msg_id } => msg_id,
        _ => panic!("publish exchange expected"),
    };
    let puback = server_frame(wire::Message::PubAck(wire::PubAck {
        topic_id: 2,
        msg_id: n,
        code: wire::ReturnCode::Accepted,
    }));
    let (res, _) = run_exchange(&c, ex, 0, Some(&puback));
    assert_eq!(res, Ok(AckResult::Success));

    // the session's registry now resolves both topics
    assert_eq!(c.topics.get_by_id(1).unwrap(), "test/recv");
    assert_eq!(c.topics.get_by_id(2).unwrap(), "test/testing");
}
