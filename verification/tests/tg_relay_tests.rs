use tg_matrix_bridge::api::EventType;
use tg_matrix_bridge::bridge_structs::find_by_dest_chat;
use tg_matrix_bridge::bridge_structs::Bridge;
use tg_matrix_bridge::bridge_structs::BridgeError;
use tg_matrix_bridge::bridge_structs::MxMessageType;
use tg_matrix_bridge::bridge_structs::TgContentType;
use tg_matrix_bridge::bridge_structs::TgMediaKind;
use tg_matrix_bridge::bridge_structs::TgMessage;
use tg_matrix_bridge::bridge_structs::TgSenderChat;
use tg_matrix_bridge::bridge_utils::get_user_name;
use tg_matrix_bridge::db::update_bridged_messages;
use tg_matrix_bridge::db::CorrespondenceStore;
use tg_matrix_bridge::matrix_handlers::RelayDisposition;
use tg_matrix_bridge::tg_handlers::get_file_url;
use tg_matrix_bridge::tg_handlers::run_send_mx;
use tg_matrix_bridge::tg_handlers::tg_content_type;
use tg_matrix_bridge::tg_handlers::tg_to_mx;
use tg_matrix_bridge::tg_handlers::MxSendOutcome;

fn bridges_room1() -> Vec<Bridge> {
    vec![Bridge { mx_id: "room1".to_string(), tg_id: 555 }]
}

fn text_message(chat: i64, id: i32, name: &str, text: &str) -> TgMessage {
    TgMessage {
        chat_id: chat,
        message_id: id,
        sender_chat: None,
        from_full_name: Some(name.to_string()),
        media_kind: TgMediaKind::Text { text: text.to_string() },
        caption: None,
        reply_to: None,
    }
}

#[test]
fn tg_text_is_relayed_and_recorded() {
    let mut store = CorrespondenceStore::new();
    let bridges = bridges_room1();
    let msg = text_message(555, 7, "Bob Smith", "hello");
    let outcomes = vec![MxSendOutcome::Sent { event_id: "$e9".to_string() }];
    let r = tg_to_mx(&mut store, &bridges, &msg, None, &outcomes);
    assert_eq!(r.disposition, RelayDisposition::Delivered);
    assert_eq!(r.attempts, 1);
    assert_eq!(r.delivered_event, Some("$e9".to_string()));
    let sent = r.sent.expect("a message was sent");
    match sent.msg_type {
        MxMessageType::Text { body } => assert_eq!(body, "Bob Smith: hello"),
        _ => panic!("text must stay text"),
    }
    let room = "room1".to_string();
    assert_eq!(store.lookup_source_from_dest(&room, 555, 7), Some("$e9".to_string()));
    assert_eq!(store.lookup_dest_from_source(&room, &"$e9".to_string()), Some((555, 7)));
}

#[test]
fn tg_reply_is_reconstructed_from_store() {
    let mut store = CorrespondenceStore::new();
    let bridges = bridges_room1();
    let room = "room1".to_string();
    update_bridged_messages(&mut store, "$x".to_string(), (555, 70), &room);
    let mut msg = text_message(555, 71, "Bob", "answer");
    msg.reply_to = Some((555, 70));
    let outcomes = vec![MxSendOutcome::Sent { event_id: "$e10".to_string() }];
    let r = tg_to_mx(&mut store, &bridges, &msg, None, &outcomes);
    assert_eq!(r.reply_target, Some("$x".to_string()));
    let sent = r.sent.expect("a message was sent");
    assert_eq!(sent.reply_to, Some("$x".to_string()));
}

#[test]
fn tg_reply_to_unknown_message_sends_without_relation() {
    let mut store = CorrespondenceStore::new();
    let bridges = bridges_room1();
    let mut msg = text_message(555, 71, "Bob", "answer");
    msg.reply_to = Some((555, 9999));
    let outcomes = vec![MxSendOutcome::Sent { event_id: "$e11".to_string() }];
    let r = tg_to_mx(&mut store, &bridges, &msg, None, &outcomes);
    assert!(r.reply_target.is_none());
    assert_eq!(r.disposition, RelayDisposition::Delivered);
}

#[test]
fn tg_photo_becomes_image_with_caption() {
    let mut store = CorrespondenceStore::new();
    let bridges = bridges_room1();
    let msg = TgMessage {
        chat_id: 555,
        message_id: 8,
        sender_chat: None,
        from_full_name: Some("Bob".to_string()),
        media_kind: TgMediaKind::Photo { file_id: "f1".to_string() },
        caption: Some("cat pic".to_string()),
        reply_to: None,
    };
    let outcomes = vec![MxSendOutcome::Sent { event_id: "$p1".to_string() }];
    let r = tg_to_mx(&mut store, &bridges, &msg, Some("mxc://hs/up".to_string()), &outcomes);
    let sent = r.sent.expect("a message was sent");
    match sent.msg_type {
        MxMessageType::Image { body, source } => {
            assert_eq!(body, "(from Bob\ncat pic)");
            assert_eq!(source, "mxc://hs/up");
        }
        _ => panic!("photo must become an image"),
    }
}

#[test]
fn tg_video_sticker_becomes_video() {
    let mut store = CorrespondenceStore::new();
    let bridges = bridges_room1();
    let msg = TgMessage {
        chat_id: 555,
        message_id: 9,
        sender_chat: None,
        from_full_name: Some("Bob".to_string()),
        media_kind: TgMediaKind::Sticker { file_id: "f2".to_string(), is_video: true },
        caption: None,
        reply_to: None,
    };
    let outcomes = vec![MxSendOutcome::Sent { event_id: "$v1".to_string() }];
    let r = tg_to_mx(&mut store, &bridges, &msg, Some("mxc://hs/v".to_string()), &outcomes);
    let sent = r.sent.expect("a message was sent");
    match sent.msg_type {
        MxMessageType::Video { body, source } => {
            assert_eq!(body, "(from Bob\n)");
            assert_eq!(source, "mxc://hs/v");
        }
        _ => panic!("video sticker must become a video"),
    }
}

#[test]
fn tg_document_becomes_file() {
    let mut store = CorrespondenceStore::new();
    let bridges = bridges_room1();
    let msg = TgMessage {
        chat_id: 555,
        message_id: 10,
        sender_chat: None,
        from_full_name: Some("Bob".to_string()),
        media_kind: TgMediaKind::Document { file_id: "f3".to_string() },
        caption: Some("notes.pdf".to_string()),
        reply_to: None,
    };
    let outcomes = vec![MxSendOutcome::Sent { event_id: "$d1".to_string() }];
    let r = tg_to_mx(&mut store, &bridges, &msg, Some("mxc://hs/d".to_string()), &outcomes);
    let sent = r.sent.expect("a message was sent");
    match sent.msg_type {
        MxMessageType::File { body, source } => {
            assert_eq!(body, "(from Bob\nnotes.pdf)");
            assert_eq!(source, "mxc://hs/d");
        }
        _ => panic!("document must become a file"),
    }
}

#[test]
fn tg_media_without_upload_is_rejected() {
    let mut store = CorrespondenceStore::new();
    let bridges = bridges_room1();
    let msg = TgMessage {
        chat_id: 555,
        message_id: 11,
        sender_chat: None,
        from_full_name: Some("Bob".to_string()),
        media_kind: TgMediaKind::Photo { file_id: "f4".to_string() },
        caption: None,
        reply_to: None,
    };
    let outcomes = vec![MxSendOutcome::Sent { event_id: "$n".to_string() }];
    let r = tg_to_mx(&mut store, &bridges, &msg, None, &outcomes);
    assert_eq!(
        r.disposition,
        RelayDisposition::Rejected { error: BridgeError::MediaUnavailable }
    );
    assert_eq!(r.attempts, 0);
    assert!(store.get_bms(&"room1".to_string()).is_none());
}

#[test]
fn tg_unknown_media_kind_is_rejected() {
    let mut store = CorrespondenceStore::new();
    let bridges = bridges_room1();
    let mut msg = text_message(555, 12, "Bob", "x");
    msg.media_kind = TgMediaKind::Other;
    let outcomes = vec![MxSendOutcome::Sent { event_id: "$n".to_string() }];
    let r = tg_to_mx(&mut store, &bridges, &msg, None, &outcomes);
    assert_eq!(
        r.disposition,
        RelayDisposition::Rejected { error: BridgeError::UnsupportedMessageKind }
    );
}

#[test]
fn tg_unbridged_chat_is_dropped() {
    let mut store = CorrespondenceStore::new();
    let bridges = bridges_room1();
    let msg = text_message(777, 13, "Bob", "hello");
    let outcomes = vec![MxSendOutcome::Sent { event_id: "$n".to_string() }];
    let r = tg_to_mx(&mut store, &bridges, &msg, None, &outcomes);
    assert_eq!(r.disposition, RelayDisposition::NotBridged);
    assert_eq!(r.attempts, 0);
}

#[test]
fn tg_sender_without_name_is_rejected() {
    let mut store = CorrespondenceStore::new();
    let bridges = bridges_room1();
    let mut msg = text_message(555, 14, "Bob", "hello");
    msg.sender_chat = Some(TgSenderChat { is_channel: false, title: None });
    let outcomes = vec![MxSendOutcome::Sent { event_id: "$n".to_string() }];
    let r = tg_to_mx(&mut store, &bridges, &msg, None, &outcomes);
    assert_eq!(
        r.disposition,
        RelayDisposition::Rejected { error: BridgeError::NameUnavailable }
    );
    assert_eq!(r.attempts, 0);
}

#[test]
fn tg_channel_post_is_named_by_title() {
    let mut msg = text_message(555, 15, "ignored", "hello");
    msg.sender_chat = Some(TgSenderChat { is_channel: true, title: Some("News".to_string()) });
    assert_eq!(get_user_name(&msg), Ok("News".to_string()));
    msg.sender_chat = Some(TgSenderChat { is_channel: true, title: None });
    assert_eq!(get_user_name(&msg), Ok(String::new()));
    msg.sender_chat = None;
    msg.from_full_name = None;
    assert_eq!(get_user_name(&msg), Err(BridgeError::NameUnavailable));
}

#[test]
fn tg_timeout_is_retried_until_delivery() {
    let mut store = CorrespondenceStore::new();
    let bridges = bridges_room1();
    let msg = text_message(555, 16, "Bob", "hello");
    let outcomes = vec![
        MxSendOutcome::TimedOut,
        MxSendOutcome::TimedOut,
        MxSendOutcome::Sent { event_id: "$t".to_string() },
    ];
    let r = tg_to_mx(&mut store, &bridges, &msg, None, &outcomes);
    assert_eq!(r.attempts, 3);
    assert_eq!(r.delivered_event, Some("$t".to_string()));
    let bms = store.get_bms(&"room1".to_string()).expect("records exist");
    assert_eq!(bms.len(), 1);
}

#[test]
fn tg_terminal_error_records_nothing() {
    let mut store = CorrespondenceStore::new();
    let bridges = bridges_room1();
    let msg = text_message(555, 17, "Bob", "hello");
    let outcomes = vec![MxSendOutcome::Failed, MxSendOutcome::Sent { event_id: "$t".to_string() }];
    let r = tg_to_mx(&mut store, &bridges, &msg, None, &outcomes);
    assert_eq!(r.disposition, RelayDisposition::Undelivered);
    assert_eq!(r.attempts, 1);
    assert!(store.get_bms(&"room1".to_string()).is_none());
}

#[test]
fn run_send_mx_handles_empty_script() {
    let (delivered, attempts) = run_send_mx(&vec![]);
    assert!(delivered.is_none());
    assert_eq!(attempts, 0);
}

#[test]
fn content_type_classification() {
    assert_eq!(
        tg_content_type(&TgMediaKind::Photo { file_id: "f".to_string() }),
        Some(TgContentType::ImageJpeg)
    );
    assert_eq!(
        tg_content_type(&TgMediaKind::Animation { file_id: "f".to_string() }),
        Some(TgContentType::VideoMp4)
    );
    assert_eq!(
        tg_content_type(&TgMediaKind::Sticker { file_id: "f".to_string(), is_video: true }),
        Some(TgContentType::VideoWebm)
    );
    assert_eq!(
        tg_content_type(&TgMediaKind::Sticker { file_id: "f".to_string(), is_video: false }),
        Some(TgContentType::ImageWebp)
    );
    assert_eq!(
        tg_content_type(&TgMediaKind::Video { file_id: "f".to_string() }),
        Some(TgContentType::VideoMp4)
    );
    assert_eq!(
        tg_content_type(&TgMediaKind::Document { file_id: "f".to_string() }),
        Some(TgContentType::OctetStream)
    );
    assert_eq!(tg_content_type(&TgMediaKind::Text { text: "t".to_string() }), None);
    assert_eq!(tg_content_type(&TgMediaKind::Other), None);
    assert!(TgContentType::VideoWebm.is_video());
    assert!(!TgContentType::ImageWebp.is_video());
    assert_eq!(TgContentType::ImageJpeg.mime_name(), "image/jpeg");
    assert_eq!(TgContentType::OctetStream.mime_name(), "application/octet-stream");
}

#[test]
fn file_url_is_composed_from_token_and_path() {
    assert_eq!(
        get_file_url("123:abc", "photos/file_1.jpg"),
        "https://api.telegram.org/file/bot123:abc/photos/file_1.jpg"
    );
}

#[test]
fn registry_finds_chat_by_id() {
    let bridges = vec![
        Bridge { mx_id: "room1".to_string(), tg_id: 555 },
        Bridge { mx_id: "room2".to_string(), tg_id: 556 },
    ];
    assert_eq!(find_by_dest_chat(&bridges, 556), Some(1));
    assert!(find_by_dest_chat(&bridges, 999).is_none());
}

#[test]
fn event_type_default_names() {
    let et = EventType::default();
    assert_eq!(et.room_encrypted, "m.room.encrypted");
    assert_eq!(et.room_key, "m.room.key");
    assert_eq!(et.room_message, "m.room.message");
    assert_eq!(et.room_key_request, "m.room.key_request");
}
