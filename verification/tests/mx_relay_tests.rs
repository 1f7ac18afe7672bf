use tg_matrix_bridge::bridge_structs::find_by_source_room;
use tg_matrix_bridge::bridge_structs::BmTgData;
use tg_matrix_bridge::bridge_structs::Bridge;
use tg_matrix_bridge::bridge_structs::BridgeError;
use tg_matrix_bridge::bridge_structs::MxEvent;
use tg_matrix_bridge::bridge_structs::MxMessageType;
use tg_matrix_bridge::bridge_structs::TgMessageKind;
use tg_matrix_bridge::bridge_utils::compose_caption;
use tg_matrix_bridge::bridge_utils::compose_text;
use tg_matrix_bridge::bridge_utils::fallback_text;
use tg_matrix_bridge::bridge_utils::localpart;
use tg_matrix_bridge::bridge_utils::normalize_sticker;
use tg_matrix_bridge::bridge_utils::run_send;
use tg_matrix_bridge::bridge_utils::send_step;
use tg_matrix_bridge::bridge_utils::strip_reply_fallback;
use tg_matrix_bridge::bridge_utils::SendOutcome;
use tg_matrix_bridge::bridge_utils::SendStep;
use tg_matrix_bridge::db::update_bridged_messages;
use tg_matrix_bridge::db::CorrespondenceStore;
use tg_matrix_bridge::matrix_handlers::client_event_handler;
use tg_matrix_bridge::matrix_handlers::RelayDisposition;
use tg_matrix_bridge::timer::FunctionTimer;

fn bridges_room1() -> Vec<Bridge> {
    vec![Bridge { mx_id: "room1".to_string(), tg_id: 555 }]
}

fn text_event(id: &str, sender: &str, body: &str, reply: Option<&str>) -> MxEvent {
    MxEvent {
        event_id: id.to_string(),
        room_id: "room1".to_string(),
        sender: sender.to_string(),
        content: MxMessageType::Text { body: body.to_string() },
        reply_to: reply.map(|s| s.to_string()),
    }
}

fn client() -> String {
    "@bridge:hs".to_string()
}

#[test]
fn scenario_text_relay_records_correspondence() {
    let mut store = CorrespondenceStore::new();
    let bridges = bridges_room1();
    let ev = text_event("e1", "alice", "hi", None);
    let outcomes = vec![SendOutcome::Sent { chat_id: 555, message_id: 77 }];
    let r = client_event_handler(&mut store, &bridges, &client(), &ev, None, &outcomes);
    assert_eq!(r.disposition, RelayDisposition::Delivered);
    assert_eq!(r.attempts, 1);
    assert_eq!(r.delivered, Some((555, 77)));
    assert!(!r.used_fallback);
    assert!(r.reply_target.is_none());
    let sent = r.sent.expect("a message was sent");
    assert_eq!(sent.chat_id, Some(555));
    assert!(matches!(sent.tg_message_kind, Some(TgMessageKind::Text)));
    assert_eq!(sent.message, b"alice: hi".to_vec());
    assert!(sent.caption.is_none());
    let room = "room1".to_string();
    assert_eq!(
        store.lookup_dest_from_source(&room, &"e1".to_string()),
        Some((555, 77))
    );
    assert_eq!(
        store.lookup_source_from_dest(&room, 555, 77),
        Some("e1".to_string())
    );
}

#[test]
fn self_echo_is_suppressed() {
    let mut store = CorrespondenceStore::new();
    let bridges = bridges_room1();
    let ev = text_event("e1", "@bridge:hs", "hi", None);
    let outcomes = vec![SendOutcome::Sent { chat_id: 555, message_id: 77 }];
    let r = client_event_handler(&mut store, &bridges, &client(), &ev, None, &outcomes);
    assert_eq!(r.disposition, RelayDisposition::SelfEcho);
    assert_eq!(r.attempts, 0);
    assert!(r.delivered.is_none());
    assert!(store.get_bms(&"room1".to_string()).is_none());
}

#[test]
fn unbridged_room_is_dropped() {
    let mut store = CorrespondenceStore::new();
    let bridges = bridges_room1();
    let mut ev = text_event("e1", "alice", "hi", None);
    ev.room_id = "room2".to_string();
    let outcomes = vec![SendOutcome::Sent { chat_id: 555, message_id: 77 }];
    let r = client_event_handler(&mut store, &bridges, &client(), &ev, None, &outcomes);
    assert_eq!(r.disposition, RelayDisposition::NotBridged);
    assert_eq!(r.attempts, 0);
    assert!(store.get_bms(&"room2".to_string()).is_none());
}

#[test]
fn two_timeouts_then_success_makes_three_attempts_one_record() {
    let mut store = CorrespondenceStore::new();
    let bridges = bridges_room1();
    let ev = text_event("e1", "alice", "hi", None);
    let outcomes = vec![
        SendOutcome::TimedOut,
        SendOutcome::TimedOut,
        SendOutcome::Sent { chat_id: 555, message_id: 42 },
    ];
    let r = client_event_handler(&mut store, &bridges, &client(), &ev, None, &outcomes);
    assert_eq!(r.attempts, 3);
    assert_eq!(r.delivered, Some((555, 42)));
    assert!(!r.used_fallback);
    let bms = store.get_bms(&"room1".to_string()).expect("records exist");
    assert_eq!(bms.len(), 1);
    assert_eq!(bms[0].matrix_id, "e1");
    assert_eq!(bms[0].telegram_id, (555, 42));
}

#[test]
fn oversized_payload_falls_back_once() {
    let mut store = CorrespondenceStore::new();
    let bridges = bridges_room1();
    let ev = text_event("e1", "alice", "a very large message", None);
    let outcomes = vec![
        SendOutcome::PayloadTooLarge,
        SendOutcome::Sent { chat_id: 555, message_id: 9 },
    ];
    let r = client_event_handler(&mut store, &bridges, &client(), &ev, None, &outcomes);
    assert_eq!(r.attempts, 2);
    assert!(r.used_fallback);
    assert_eq!(r.delivered, Some((555, 9)));
    let sent = r.sent.expect("a message was sent");
    assert_eq!(sent.message, b"alice: this message cannot be displayed".to_vec());
    let bms = store.get_bms(&"room1".to_string()).expect("records exist");
    assert_eq!(bms.len(), 1);
    assert_eq!(bms[0].telegram_id, (555, 9));
}

#[test]
fn failed_fallback_is_terminal() {
    let mut store = CorrespondenceStore::new();
    let bridges = bridges_room1();
    let ev = text_event("e1", "alice", "hi", None);
    let outcomes = vec![SendOutcome::PayloadTooLarge, SendOutcome::PayloadTooLarge];
    let r = client_event_handler(&mut store, &bridges, &client(), &ev, None, &outcomes);
    assert_eq!(r.disposition, RelayDisposition::Undelivered);
    assert_eq!(r.attempts, 2);
    assert!(r.delivered.is_none());
    assert!(store.get_bms(&"room1".to_string()).is_none());
}

#[test]
fn reply_to_known_event_gets_reply_target() {
    let mut store = CorrespondenceStore::new();
    let bridges = bridges_room1();
    let room = "room1".to_string();
    update_bridged_messages(&mut store, "X".to_string(), (555, 100), &room);
    let ev = text_event("e2", "alice", "> <@bob:hs> earlier\n\nanswer", Some("X"));
    let outcomes = vec![SendOutcome::Sent { chat_id: 555, message_id: 101 }];
    let r = client_event_handler(&mut store, &bridges, &client(), &ev, None, &outcomes);
    assert_eq!(r.reply_target, Some(100));
    assert_eq!(r.delivered, Some((555, 101)));
    let sent = r.sent.expect("a message was sent");
    assert_eq!(sent.message, b"alice: answer".to_vec());
}

#[test]
fn reply_to_unknown_event_sends_without_target() {
    let mut store = CorrespondenceStore::new();
    let bridges = bridges_room1();
    let ev = text_event("e2", "alice", "quote\n\nanswer", Some("Y"));
    let outcomes = vec![SendOutcome::Sent { chat_id: 555, message_id: 102 }];
    let r = client_event_handler(&mut store, &bridges, &client(), &ev, None, &outcomes);
    assert!(r.reply_target.is_none());
    assert_eq!(r.disposition, RelayDisposition::Delivered);
    assert_eq!(r.delivered, Some((555, 102)));
}

#[test]
fn reply_without_separator_is_rejected() {
    let mut store = CorrespondenceStore::new();
    let bridges = bridges_room1();
    let ev = text_event("e2", "alice", "no separator here", Some("X"));
    let outcomes = vec![SendOutcome::Sent { chat_id: 555, message_id: 103 }];
    let r = client_event_handler(&mut store, &bridges, &client(), &ev, None, &outcomes);
    assert_eq!(
        r.disposition,
        RelayDisposition::Rejected { error: BridgeError::MalformedReplyText }
    );
    assert_eq!(r.attempts, 0);
    assert!(store.get_bms(&"room1".to_string()).is_none());
}

#[test]
fn image_event_relays_media_with_caption() {
    let mut store = CorrespondenceStore::new();
    let bridges = bridges_room1();
    let ev = MxEvent {
        event_id: "e3".to_string(),
        room_id: "room1".to_string(),
        sender: "@alice:hs".to_string(),
        content: MxMessageType::Image {
            body: "cat.png".to_string(),
            source: "mxc://hs/abc".to_string(),
        },
        reply_to: None,
    };
    let media = Some(vec![1u8, 2, 3]);
    let outcomes = vec![SendOutcome::Sent { chat_id: 555, message_id: 5 }];
    let r = client_event_handler(&mut store, &bridges, &client(), &ev, media, &outcomes);
    assert_eq!(r.disposition, RelayDisposition::Delivered);
    let sent = r.sent.expect("a message was sent");
    assert!(matches!(sent.tg_message_kind, Some(TgMessageKind::Photo)));
    assert_eq!(sent.message, vec![1u8, 2, 3]);
    assert_eq!(sent.caption, Some(b"(from alice\ncat.png)".to_vec()));
}

#[test]
fn image_without_media_is_rejected() {
    let mut store = CorrespondenceStore::new();
    let bridges = bridges_room1();
    let ev = MxEvent {
        event_id: "e3".to_string(),
        room_id: "room1".to_string(),
        sender: "alice".to_string(),
        content: MxMessageType::Image {
            body: "cat.png".to_string(),
            source: "mxc://hs/abc".to_string(),
        },
        reply_to: None,
    };
    let outcomes = vec![SendOutcome::Sent { chat_id: 555, message_id: 5 }];
    let r = client_event_handler(&mut store, &bridges, &client(), &ev, None, &outcomes);
    assert_eq!(
        r.disposition,
        RelayDisposition::Rejected { error: BridgeError::MediaUnavailable }
    );
}

#[test]
fn sticker_event_is_relayed_as_photo() {
    let mut store = CorrespondenceStore::new();
    let bridges = bridges_room1();
    let ev = MxEvent {
        event_id: "e4".to_string(),
        room_id: "room1".to_string(),
        sender: "alice".to_string(),
        content: MxMessageType::Sticker {
            body: "wave".to_string(),
            source: "mxc://hs/st".to_string(),
        },
        reply_to: None,
    };
    let media = Some(vec![9u8]);
    let outcomes = vec![SendOutcome::Sent { chat_id: 555, message_id: 6 }];
    let r = client_event_handler(&mut store, &bridges, &client(), &ev, media, &outcomes);
    assert_eq!(r.disposition, RelayDisposition::Delivered);
    let sent = r.sent.expect("a message was sent");
    assert!(matches!(sent.tg_message_kind, Some(TgMessageKind::Photo)));
}

#[test]
fn audio_event_is_unsupported() {
    let mut store = CorrespondenceStore::new();
    let bridges = bridges_room1();
    let ev = MxEvent {
        event_id: "e5".to_string(),
        room_id: "room1".to_string(),
        sender: "alice".to_string(),
        content: MxMessageType::Audio {
            body: "song.ogg".to_string(),
            source: "mxc://hs/a".to_string(),
        },
        reply_to: None,
    };
    let outcomes = vec![SendOutcome::Sent { chat_id: 555, message_id: 6 }];
    let r = client_event_handler(&mut store, &bridges, &client(), &ev, Some(vec![1]), &outcomes);
    assert_eq!(
        r.disposition,
        RelayDisposition::Rejected { error: BridgeError::UnsupportedMessageKind }
    );
}

#[test]
fn exhausted_outcomes_leave_message_undelivered() {
    let mut store = CorrespondenceStore::new();
    let bridges = bridges_room1();
    let ev = text_event("e1", "alice", "hi", None);
    let outcomes = vec![SendOutcome::TimedOut, SendOutcome::TimedOut];
    let r = client_event_handler(&mut store, &bridges, &client(), &ev, None, &outcomes);
    assert_eq!(r.disposition, RelayDisposition::Undelivered);
    assert_eq!(r.attempts, 2);
    assert!(store.get_bms(&"room1".to_string()).is_none());
}

#[test]
fn send_step_policy_table() {
    let deliver = send_step(false, &SendOutcome::Sent { chat_id: 1, message_id: 2 });
    assert_eq!(deliver, SendStep::Deliver { chat_id: 1, message_id: 2 });
    assert_eq!(send_step(false, &SendOutcome::TimedOut), SendStep::RetrySame);
    assert_eq!(send_step(true, &SendOutcome::TimedOut), SendStep::RetrySame);
    assert_eq!(send_step(false, &SendOutcome::PayloadTooLarge), SendStep::RetryFallback);
    assert_eq!(send_step(true, &SendOutcome::PayloadTooLarge), SendStep::GiveUp);
    assert_eq!(send_step(false, &SendOutcome::Failed), SendStep::GiveUp);
}

#[test]
fn run_send_other_error_is_terminal() {
    let outcomes = vec![SendOutcome::Failed, SendOutcome::Sent { chat_id: 1, message_id: 2 }];
    let r = run_send(&outcomes);
    assert_eq!(r.attempts, 1);
    assert!(r.delivered.is_none());
    assert!(!r.used_fallback);
}

#[test]
fn text_helpers_compose_and_strip() {
    assert_eq!(localpart("@alice:example.org"), b"alice".to_vec());
    assert_eq!(localpart("alice"), b"alice".to_vec());
    assert_eq!(localpart("@a:b:c"), b"a".to_vec());
    assert_eq!(compose_text(b"alice", b"hi"), b"alice: hi".to_vec());
    assert_eq!(compose_caption(b"alice", b"cat"), b"(from alice\ncat)".to_vec());
    assert_eq!(strip_reply_fallback("quote\n\nanswer"), Some(b"answer".to_vec()));
    assert_eq!(strip_reply_fallback("a\n\n"), Some(Vec::new()));
    assert!(strip_reply_fallback("no separator").is_none());
    assert_eq!(fallback_text(), "this message cannot be displayed");
}

#[test]
fn normalize_sticker_maps_only_stickers() {
    let st = MxMessageType::Sticker { body: "b".to_string(), source: "s".to_string() };
    match normalize_sticker(&st) {
        MxMessageType::Image { body, source } => {
            assert_eq!(body, "b");
            assert_eq!(source, "s");
        }
        _ => panic!("sticker must become an image"),
    }
    let tx = MxMessageType::Text { body: "t".to_string() };
    match normalize_sticker(&tx) {
        MxMessageType::Text { body } => assert_eq!(body, "t"),
        _ => panic!("text must stay text"),
    }
}

#[test]
fn registry_returns_first_match() {
    let bridges = vec![
        Bridge { mx_id: "room1".to_string(), tg_id: 1 },
        Bridge { mx_id: "room1".to_string(), tg_id: 2 },
        Bridge { mx_id: "room3".to_string(), tg_id: 3 },
    ];
    assert_eq!(find_by_source_room(&bridges, &"room1".to_string()), Some(0));
    assert_eq!(find_by_source_room(&bridges, &"room3".to_string()), Some(2));
    assert!(find_by_source_room(&bridges, &"room4".to_string()).is_none());
}

#[test]
fn default_outbound_descriptor_is_empty() {
    let d = BmTgData::default();
    assert!(d.chat_id.is_none());
    assert!(d.message.is_empty());
    assert!(d.tg_message_kind.is_none());
    assert!(d.caption.is_none());
    assert!(!d.is_preview_disabled);
}

#[test]
fn function_timer_keeps_its_label() {
    let t = FunctionTimer::new("handler");
    assert_eq!(t.msg, "handler");
}
