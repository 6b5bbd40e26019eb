use rrmsg::{
    frame_payloads, MessageFormat, MsgContent, MsgMetadata, RRMessage, RRMessageCommand,
    RRMsgHandler,
};

fn encode_payloads(msg: RRMessage) -> (Vec<Vec<u8>>, Vec<bool>) {
    let frames = RRMsgHandler::encode_rrmsg(msg);
    let flags: Vec<bool> = frames.iter().map(|f| f.more).collect();
    (frame_payloads(&frames), flags)
}

fn assert_round_trip(msg: RRMessage) {
    let (payloads, _) = encode_payloads(msg.clone());
    let (decoded, consumed) = RRMsgHandler::parse_rrmsg(&payloads);
    assert_eq!(decoded, Some(msg));
    assert_eq!(consumed, payloads.len());
}

#[test]
fn request_encodes_exactly_seven_frames() {
    let msg = RRMsgHandler::create_request(
        "1.0".to_string(),
        Some(vec![0x01]),
        Some("svc".to_string()),
        MessageFormat::JSON,
        b"{}".to_vec(),
    )
    .unwrap();
    let (payloads, flags) = encode_payloads(msg);
    let expected: Vec<Vec<u8>> = vec![
        b"".to_vec(),
        b"1.0".to_vec(),
        vec![0x01],
        vec![4],
        b"svc".to_vec(),
        vec![2],
        b"{}".to_vec(),
    ];
    assert_eq!(payloads, expected);
    assert_eq!(flags, vec![true, true, true, true, true, true, false]);
}

#[test]
fn request_seven_frames_decode_to_the_same_request() {
    let payloads: Vec<Vec<u8>> = vec![
        b"".to_vec(),
        b"1.0".to_vec(),
        vec![0x01],
        vec![4],
        b"svc".to_vec(),
        vec![2],
        b"{}".to_vec(),
    ];
    let (decoded, consumed) = RRMsgHandler::parse_rrmsg(&payloads);
    let expected = RRMessage::REQ(
        MsgMetadata {
            identity: None,
            version: "1.0".to_string(),
            uid: vec![0x01],
            cmd: RRMessageCommand::REQ,
        },
        MsgContent {
            target: Some("svc".to_string()),
            format: MessageFormat::JSON,
            content: b"{}".to_vec(),
        },
    );
    assert_eq!(decoded, Some(expected));
    assert_eq!(consumed, 7);
}

#[test]
fn ready_without_self_identity_encodes_four_frames() {
    let msg = RRMsgHandler::create_ready("1.0".to_string(), None, None).unwrap();
    let (payloads, flags) = encode_payloads(msg);
    let expected: Vec<Vec<u8>> = vec![b"".to_vec(), b"1.0".to_vec(), b"".to_vec(), vec![0]];
    assert_eq!(payloads, expected);
    assert_eq!(flags, vec![true, true, true, false]);
}

#[test]
fn ready_without_self_identity_does_not_decode() {
    // The decoder always expects a self-identity frame after command byte 0;
    // the four-frame READY therefore reads back as "no message".
    let payloads: Vec<Vec<u8>> = vec![b"".to_vec(), b"1.0".to_vec(), b"".to_vec(), vec![0]];
    let (decoded, consumed) = RRMsgHandler::parse_rrmsg(&payloads);
    assert_eq!(decoded, None);
    assert_eq!(consumed, 4);
}

#[test]
fn ready_with_self_identity_round_trips() {
    let msg =
        RRMsgHandler::create_ready("1.0".to_string(), Some(vec![9]), Some("me".to_string()))
            .unwrap();
    let (payloads, flags) = encode_payloads(msg.clone());
    assert_eq!(payloads.len(), 5);
    assert_eq!(flags, vec![true, true, true, true, false]);
    assert_round_trip(msg);
}

#[test]
fn ready_with_empty_self_identity_frame_decodes_as_absent() {
    let payloads: Vec<Vec<u8>> =
        vec![b"".to_vec(), b"1.0".to_vec(), b"".to_vec(), vec![0], b"".to_vec()];
    let (decoded, consumed) = RRMsgHandler::parse_rrmsg(&payloads);
    let expected = RRMessage::READY(
        MsgMetadata {
            identity: None,
            version: "1.0".to_string(),
            uid: vec![],
            cmd: RRMessageCommand::READY,
        },
        None,
    );
    assert_eq!(decoded, Some(expected));
    assert_eq!(consumed, 5);
}

#[test]
fn okay_round_trips_with_identity() {
    let msg =
        RRMsgHandler::create_okay(Some(vec![7, 7]), "1.0".to_string(), Some(vec![1, 2, 3]))
            .unwrap();
    let (payloads, flags) = encode_payloads(msg.clone());
    assert_eq!(payloads.len(), 5);
    assert_eq!(flags, vec![true, true, true, true, false]);
    assert_round_trip(msg);
}

#[test]
fn envelope_kinds_round_trip() {
    assert_round_trip(RRMsgHandler::create_okay(None, "1.0".to_string(), None).unwrap());
    assert_round_trip(RRMsgHandler::create_disconnect("1.0".to_string(), Some(vec![4])).unwrap());
    assert_round_trip(RRMsgHandler::create_heartbeat("".to_string(), None).unwrap());
}

#[test]
fn content_kinds_round_trip_in_every_field_combination() {
    for id in [None, Some(vec![0xAAu8])] {
        for target in [None, Some("svc".to_string())] {
            for (format, body) in [
                (MessageFormat::NONE, vec![]),
                (MessageFormat::TEXT, b"hi".to_vec()),
                (MessageFormat::JSON, b"{}".to_vec()),
                (MessageFormat::MSGPACK, vec![0x90]),
                (MessageFormat::TEXT, vec![]),
            ] {
                assert_round_trip(
                    RRMsgHandler::build_rrmsg(
                        RRMessageCommand::REQ,
                        id.clone(),
                        "1.0".to_string(),
                        Some(vec![1]),
                        target.clone(),
                        Some((format, body.clone())),
                    )
                    .unwrap(),
                );
                assert_round_trip(
                    RRMsgHandler::build_rrmsg(
                        RRMessageCommand::ERROR,
                        id.clone(),
                        "1.0".to_string(),
                        None,
                        target.clone(),
                        Some((format, body.clone())),
                    )
                    .unwrap(),
                );
            }
        }
    }
    assert_round_trip(
        RRMsgHandler::create_reply(
            None,
            "1.0".to_string(),
            Some(vec![2]),
            Some("t".to_string()),
            MessageFormat::MSGPACK,
            vec![1, 2, 3],
        )
        .unwrap(),
    );
}

#[test]
fn empty_version_and_uid_round_trip() {
    assert_round_trip(RRMsgHandler::create_okay(None, "".to_string(), None).unwrap());
}

#[test]
fn reply_with_format_none_ends_on_format_byte() {
    let msg = RRMsgHandler::create_reply(
        None,
        "1.0".to_string(),
        None,
        Some("svc".to_string()),
        MessageFormat::NONE,
        vec![],
    )
    .unwrap();
    let (payloads, flags) = encode_payloads(msg);
    let expected: Vec<Vec<u8>> = vec![
        b"".to_vec(),
        b"1.0".to_vec(),
        b"".to_vec(),
        vec![5],
        b"svc".to_vec(),
        vec![0],
    ];
    assert_eq!(payloads, expected);
    assert_eq!(flags, vec![true, true, true, true, true, false]);
}

#[test]
fn trailing_frames_are_drained_and_message_kept() {
    let msg = RRMsgHandler::create_request(
        "1.0".to_string(),
        Some(vec![1]),
        Some("svc".to_string()),
        MessageFormat::TEXT,
        b"body".to_vec(),
    )
    .unwrap();
    let (mut payloads, _) = encode_payloads(msg.clone());
    payloads.push(b"extra-1".to_vec());
    payloads.push(b"extra-2".to_vec());
    let (decoded, consumed) = RRMsgHandler::parse_rrmsg(&payloads);
    assert_eq!(decoded, Some(msg));
    assert_eq!(consumed, payloads.len());
}

#[test]
fn unknown_command_byte_is_swallowed_whole() {
    let payloads: Vec<Vec<u8>> = vec![
        b"".to_vec(),
        b"1.0".to_vec(),
        vec![9],
        vec![7],
        b"tgt".to_vec(),
        vec![1],
        b"body".to_vec(),
        b"junk".to_vec(),
    ];
    let (decoded, consumed) = RRMsgHandler::parse_rrmsg(&payloads);
    assert_eq!(decoded, None);
    assert_eq!(consumed, 8);
}

#[test]
fn unknown_format_byte_decodes_as_none() {
    let payloads: Vec<Vec<u8>> = vec![
        b"".to_vec(),
        b"1.0".to_vec(),
        vec![9],
        vec![4],
        b"tgt".to_vec(),
        vec![42],
        b"body".to_vec(),
    ];
    let (decoded, _) = RRMsgHandler::parse_rrmsg(&payloads);
    let expected = RRMessage::REQ(
        MsgMetadata {
            identity: None,
            version: "1.0".to_string(),
            uid: vec![9],
            cmd: RRMessageCommand::REQ,
        },
        MsgContent {
            target: Some("tgt".to_string()),
            format: MessageFormat::NONE,
            content: b"body".to_vec(),
        },
    );
    assert_eq!(decoded, Some(expected));
}

#[test]
fn missing_command_byte_yields_no_message() {
    let payloads: Vec<Vec<u8>> = vec![b"".to_vec(), b"1.0".to_vec(), vec![9]];
    let (decoded, consumed) = RRMsgHandler::parse_rrmsg(&payloads);
    assert_eq!(decoded, None);
    assert_eq!(consumed, 3);
}

#[test]
fn two_byte_command_frame_yields_no_message() {
    let payloads: Vec<Vec<u8>> = vec![b"".to_vec(), b"1.0".to_vec(), vec![9], vec![4, 4]];
    let (decoded, consumed) = RRMsgHandler::parse_rrmsg(&payloads);
    assert_eq!(decoded, None);
    assert_eq!(consumed, 4);
}

#[test]
fn empty_sequence_yields_no_message() {
    let payloads: Vec<Vec<u8>> = vec![];
    let (decoded, consumed) = RRMsgHandler::parse_rrmsg(&payloads);
    assert_eq!(decoded, None);
    assert_eq!(consumed, 0);
}

#[test]
fn lone_delimiter_yields_no_message() {
    let payloads: Vec<Vec<u8>> = vec![b"".to_vec()];
    let (decoded, consumed) = RRMsgHandler::parse_rrmsg(&payloads);
    assert_eq!(decoded, None);
    assert_eq!(consumed, 1);
}

#[test]
fn identity_without_delimiter_yields_no_message() {
    let payloads: Vec<Vec<u8>> = vec![b"peer".to_vec()];
    let (decoded, consumed) = RRMsgHandler::parse_rrmsg(&payloads);
    assert_eq!(decoded, None);
    assert_eq!(consumed, 1);
}

#[test]
fn invalid_utf8_version_yields_no_message() {
    let payloads: Vec<Vec<u8>> = vec![b"".to_vec(), vec![0xFF, 0xFE], vec![9], vec![1]];
    let (decoded, consumed) = RRMsgHandler::parse_rrmsg(&payloads);
    assert_eq!(decoded, None);
    assert_eq!(consumed, 2);
}

#[test]
fn invalid_utf8_target_yields_no_message() {
    let payloads: Vec<Vec<u8>> =
        vec![b"".to_vec(), b"1.0".to_vec(), vec![9], vec![4], vec![0xFF, 0xFE]];
    let (decoded, consumed) = RRMsgHandler::parse_rrmsg(&payloads);
    assert_eq!(decoded, None);
    assert_eq!(consumed, 5);
}

#[test]
fn okay_path_stops_at_command_byte() {
    // OKAY, DISCONNECT and HEARTBEAT return as soon as the command byte is
    // read; trailing frames are not drained on this path.
    let payloads: Vec<Vec<u8>> =
        vec![b"".to_vec(), b"1.0".to_vec(), vec![9], vec![1], b"stray".to_vec()];
    let (decoded, consumed) = RRMsgHandler::parse_rrmsg(&payloads);
    let expected = RRMessage::OKAY(MsgMetadata {
        identity: None,
        version: "1.0".to_string(),
        uid: vec![9],
        cmd: RRMessageCommand::OKAY,
    });
    assert_eq!(decoded, Some(expected));
    assert_eq!(consumed, 4);
}

#[test]
fn identity_frame_is_recorded_and_delimiter_discarded() {
    let payloads: Vec<Vec<u8>> =
        vec![b"peer".to_vec(), b"".to_vec(), b"1.0".to_vec(), vec![9], vec![3]];
    let (decoded, consumed) = RRMsgHandler::parse_rrmsg(&payloads);
    let expected = RRMessage::HEARTBEAT(MsgMetadata {
        identity: Some(b"peer".to_vec()),
        version: "1.0".to_string(),
        uid: vec![9],
        cmd: RRMessageCommand::HEARTBEAT,
    });
    assert_eq!(decoded, Some(expected));
    assert_eq!(consumed, 5);
}

#[test]
fn missing_body_frame_leaves_body_empty() {
    let payloads: Vec<Vec<u8>> =
        vec![b"".to_vec(), b"1.0".to_vec(), vec![9], vec![6], b"tgt".to_vec(), vec![1]];
    let (decoded, consumed) = RRMsgHandler::parse_rrmsg(&payloads);
    let expected = RRMessage::ERROR(
        MsgMetadata {
            identity: None,
            version: "1.0".to_string(),
            uid: vec![9],
            cmd: RRMessageCommand::ERROR,
        },
        MsgContent { target: Some("tgt".to_string()), format: MessageFormat::TEXT, content: vec![] },
    );
    assert_eq!(decoded, Some(expected));
    assert_eq!(consumed, 6);
}

#[test]
fn empty_target_frame_decodes_as_absent_target() {
    let payloads: Vec<Vec<u8>> = vec![
        b"".to_vec(),
        b"1.0".to_vec(),
        vec![9],
        vec![5],
        b"".to_vec(),
        vec![0],
    ];
    let (decoded, _) = RRMsgHandler::parse_rrmsg(&payloads);
    let expected = RRMessage::REP(
        MsgMetadata {
            identity: None,
            version: "1.0".to_string(),
            uid: vec![9],
            cmd: RRMessageCommand::REP,
        },
        MsgContent { target: None, format: MessageFormat::NONE, content: vec![] },
    );
    assert_eq!(decoded, Some(expected));
}
