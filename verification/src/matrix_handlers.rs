//! The Matrix-to-Telegram relay: filter an incoming room event, normalize
//! stickers, resolve its reply linkage through the correspondence store,
//! apply the text conventions, run the retry policy over the destination's
//! attempt outcomes, and record the new correspondence on success.

use vstd::prelude::*;
use vstd::string::StringSliceAdditionalSpecFns;
use vstd::utf8::encode_utf8;

use crate::bridge_structs::Bridge;
use crate::bridge_structs::BridgeError;
use crate::bridge_structs::BmTgData;
use crate::bridge_structs::MxEvent;
use crate::bridge_structs::TgMessageKind;
use crate::bridge_structs::find_by_source_room;
use crate::bridge_utils::SendOutcome;
use crate::bridge_utils::compose_caption;
use crate::bridge_utils::compose_text;
use crate::bridge_utils::fallback_text;
use crate::bridge_utils::get_to_tg_data;
use crate::bridge_utils::localpart;
use crate::bridge_utils::normalize_sticker;
use crate::bridge_utils::opt_bytes_view;
use crate::bridge_utils::run_send;
use crate::bridge_utils::spec_compose_caption;
use crate::bridge_utils::spec_compose_text;
use crate::bridge_utils::spec_localpart;
use crate::bridge_utils::spec_normalize_sticker;
use crate::bridge_utils::spec_run_send;
use crate::bridge_utils::spec_to_tg_message;
use crate::db::BridgedMessage;
use crate::db::CorrespondenceStore;
use crate::db::appended_capped;
use crate::db::first_dest_for_source;

verus! {

/// Find the Telegram message id recorded for the Matrix event `reply` in the
/// conversation `mx_chat`, to attach as the reply target.
pub fn find_tg_msg_id(store: &CorrespondenceStore, reply: &String, mx_chat: &String) -> (r:
    Option<i32>)
    ensures
        r == spec_reply_target(*store, mx_chat@, Some(reply@)),
{
    match store.lookup_dest_from_source(mx_chat, reply) {
        Some(p) => Some(p.1),
        None => None,
    }
}

/// The reply target an event with reply relation `reply_to` resolves to: the
/// recorded Telegram counterpart of the replied-to event, when the store
/// holds one.
pub open spec fn spec_reply_target(
    store: CorrespondenceStore,
    room: Seq<char>,
    reply_to: Option<Seq<char>>,
) -> Option<i32> {
    match reply_to {
        Some(rid) => match first_dest_for_source(store.records_for(room), rid) {
            Some(p) => Some(p.1),
            None => None,
        },
        None => None,
    }
}

/// How a relay run ended.
#[derive(Clone, Copy, PartialEq, Eq, Structural, Debug)]
pub enum RelayDisposition {
    /// The event was authored by the bridge's own identity; dropped silently.
    SelfEcho,
    /// The conversation is not configured as a bridge endpoint; dropped
    /// silently.
    NotBridged,
    /// The outbound message could not be built; the relay was abandoned
    /// before any send attempt.
    Rejected { error: BridgeError },
    /// The message was delivered and the correspondence recorded.
    Delivered,
    /// Every send attempt failed terminally or the outcomes ended; nothing
    /// was recorded.
    Undelivered,
}

/// What one relay run did: its disposition, the send attempts made, the
/// destination identity on delivery, whether the fallback placeholder was
/// sent, the reply target attached, and the message as handed to the
/// destination platform.
pub struct RelayReport {
    pub disposition: RelayDisposition,
    pub attempts: usize,
    pub delivered: Option<(i64, i32)>,
    pub used_fallback: bool,
    pub reply_target: Option<i32>,
    pub sent: Option<BmTgData>,
}

/// The payload a send run put on the wire: the original payload, or the
/// fallback placeholder once a too-large rejection substituted it.
pub open spec fn spec_sent_payload(original: Seq<u8>, used_fallback: bool) -> Seq<u8> {
    if used_fallback {
        encode_utf8("this message cannot be displayed"@)
    } else {
        original
    }
}

/// The bytes a payload is sent as: text is prefixed with the sender's
/// handle; media bytes go unchanged.
pub open spec fn spec_wire_message(kind: TgMessageKind, user: Seq<u8>, payload: Seq<u8>) -> Seq<
    u8,
> {
    if kind == TgMessageKind::Text {
        spec_compose_text(user, payload)
    } else {
        payload
    }
}

/// Relay a built Telegram-bound message: resolve the reply target, apply the
/// sender-name conventions, run the retry policy over the destination's
/// attempt outcomes, and append the correspondence record on delivery.
pub fn mx_to_tg(
    store: &mut CorrespondenceStore,
    to_tg_data: BmTgData,
    ev: &MxEvent,
    outcomes: &Vec<SendOutcome>,
) -> (r: RelayReport)
    requires
        old(store).wf(),
        to_tg_data.tg_message_kind is Some,
    ensures
        final(store).wf(),
        ({
            let spec = spec_run_send(outcomes@, false);
            &&& r.delivered == spec.0
            &&& r.attempts as int == spec.1
            &&& r.used_fallback == spec.2
        }),
        r.disposition == (if r.delivered is Some {
            RelayDisposition::Delivered
        } else {
            RelayDisposition::Undelivered
        }),
        r.reply_target == spec_reply_target(
            *old(store),
            ev.room_id@,
            match ev.reply_to {
                Some(rid) => Some(rid@),
                None => None,
            },
        ),
        match r.delivered {
            Some(p) => exists|rec: BridgedMessage|
                {
                    &&& rec.matrix_id@ == ev.event_id@
                    &&& rec.telegram_id == p
                    &&& final(store).records_for(ev.room_id@) == appended_capped(
                        old(store).records_for(ev.room_id@),
                        rec,
                    )
                    &&& forall|other: Seq<char>|
                        other != ev.room_id@ ==> #[trigger] final(store).records_for(other) == old(
                            store,
                        ).records_for(other)
                },
            None => *final(store) == *old(store),
        },
        match r.sent {
            Some(d) => {
                let kind = to_tg_data.tg_message_kind.unwrap();
                let user = spec_localpart(encode_utf8(ev.sender@));
                let payload = spec_sent_payload(to_tg_data.message@, r.used_fallback);
                &&& d.chat_id == to_tg_data.chat_id
                &&& d.tg_message_kind == to_tg_data.tg_message_kind
                &&& d.is_preview_disabled == to_tg_data.is_preview_disabled
                &&& d.message@ == spec_wire_message(kind, user, payload)
                &&& match (kind, d.caption) {
                    (TgMessageKind::Text, None) => true,
                    (TgMessageKind::Text, Some(_)) => false,
                    (_, Some(c)) => c@ == spec_compose_caption(
                        user,
                        match to_tg_data.caption {
                            Some(orig) => orig@,
                            None => Seq::<u8>::empty(),
                        },
                    ),
                    (_, None) => false,
                }
            },
            None => false,
        },
{
    let reply_target: Option<i32> = match &ev.reply_to {
        Some(rid) => find_tg_msg_id(store, rid, &ev.room_id),
        None => None,
    };
    let user: Vec<u8> = localpart(ev.sender.as_str());
    let report = run_send(outcomes);
    let payload: Vec<u8> = if report.used_fallback {
        vstd::slice::slice_to_vec(fallback_text().as_bytes())
    } else {
        to_tg_data.message
    };
    let is_text = match to_tg_data.tg_message_kind {
        Some(TgMessageKind::Text) => true,
        _ => false,
    };
    let wire_message: Vec<u8> = if is_text {
        compose_text(user.as_slice(), payload.as_slice())
    } else {
        payload
    };
    let wire_caption: Option<Vec<u8>> = if is_text {
        None
    } else {
        let orig: Vec<u8> = match to_tg_data.caption {
            Some(c) => c,
            None => Vec::new(),
        };
        Some(compose_caption(user.as_slice(), orig.as_slice()))
    };
    let sent = BmTgData {
        chat_id: to_tg_data.chat_id,
        message: wire_message,
        tg_message_kind: to_tg_data.tg_message_kind,
        caption: wire_caption,
        is_preview_disabled: to_tg_data.is_preview_disabled,
    };
    let disposition: RelayDisposition;
    match report.delivered {
        Some(p) => {
            let rec = BridgedMessage { matrix_id: ev.event_id.clone(), telegram_id: p };
            store.append(&ev.room_id, rec);
            disposition = RelayDisposition::Delivered;
        },
        None => {
            disposition = RelayDisposition::Undelivered;
        },
    }
    RelayReport {
        disposition,
        attempts: report.attempts,
        delivered: report.delivered,
        used_fallback: report.used_fallback,
        reply_target,
        sent: Some(sent),
    }
}

/// Whether some bridge pairs the Matrix room `room` with a Telegram chat.
pub open spec fn spec_bridged_room(bridges: Seq<Bridge>, room: Seq<char>) -> bool {
    exists|j: int| 0 <= j < bridges.len() && (#[trigger] bridges[j]).mx_id@ == room
}

/// Handle one incoming Matrix room event end to end: drop the bridge's own
/// echoes and events of unbridged rooms, normalize stickers, build the
/// Telegram-bound message (media kinds take the fetched payload), relay it
/// under the retry policy, and record the correspondence on delivery.
pub fn client_event_handler(
    store: &mut CorrespondenceStore,
    bridges: &Vec<Bridge>,
    client_id: &String,
    ev: &MxEvent,
    media: Option<Vec<u8>>,
    outcomes: &Vec<SendOutcome>,
) -> (r: RelayReport)
    requires
        old(store).wf(),
    ensures
        final(store).wf(),
        ev.sender@ == client_id@ ==> {
            &&& r.disposition == RelayDisposition::SelfEcho
            &&& r.attempts == 0
            &&& r.delivered is None
            &&& *final(store) == *old(store)
        },
        ev.sender@ != client_id@ && !spec_bridged_room(bridges@, ev.room_id@) ==> {
            &&& r.disposition == RelayDisposition::NotBridged
            &&& r.attempts == 0
            &&& r.delivered is None
            &&& *final(store) == *old(store)
        },
        ev.sender@ != client_id@ && spec_bridged_room(bridges@, ev.room_id@) ==> match
            spec_to_tg_message(
            spec_normalize_sticker(ev.content),
            ev.reply_to is Some,
            opt_bytes_view(media),
        ) {
            Err(e) => {
                &&& r.disposition == RelayDisposition::Rejected { error: e }
                &&& r.attempts == 0
                &&& r.delivered is None
                &&& *final(store) == *old(store)
            },
            Ok(_) => {
                let spec = spec_run_send(outcomes@, false);
                &&& r.delivered == spec.0
                &&& r.attempts as int == spec.1
                &&& r.used_fallback == spec.2
                &&& r.disposition == (if r.delivered is Some {
                    RelayDisposition::Delivered
                } else {
                    RelayDisposition::Undelivered
                })
                &&& r.reply_target == spec_reply_target(
                    *old(store),
                    ev.room_id@,
                    match ev.reply_to {
                        Some(rid) => Some(rid@),
                        None => None,
                    },
                )
                &&& match r.delivered {
                    Some(p) => exists|rec: BridgedMessage|
                        {
                            &&& rec.matrix_id@ == ev.event_id@
                            &&& rec.telegram_id == p
                            &&& final(store).records_for(ev.room_id@) == appended_capped(
                                old(store).records_for(ev.room_id@),
                                rec,
                            )
                            &&& forall|other: Seq<char>|
                                other != ev.room_id@ ==> #[trigger] final(store).records_for(
                                    other,
                                ) == old(store).records_for(other)
                        },
                    None => *final(store) == *old(store),
                }
            },
        },
{
    if ev.sender == *client_id {
        return RelayReport {
            disposition: RelayDisposition::SelfEcho,
            attempts: 0,
            delivered: None,
            used_fallback: false,
            reply_target: None,
            sent: None,
        };
    }
    let bridge_idx = match find_by_source_room(bridges, &ev.room_id) {
        Some(i) => i,
        None => {
            return RelayReport {
                disposition: RelayDisposition::NotBridged,
                attempts: 0,
                delivered: None,
                used_fallback: false,
                reply_target: None,
                sent: None,
            };
        },
    };
    let bridge = &bridges[bridge_idx];
    let normalized = MxEvent {
        event_id: ev.event_id.clone(),
        room_id: ev.room_id.clone(),
        sender: ev.sender.clone(),
        content: normalize_sticker(&ev.content),
        reply_to: match &ev.reply_to {
            Some(rid) => Some(rid.clone()),
            None => None,
        },
    };
    let to_tg_data = match get_to_tg_data(&normalized, bridge, media) {
        Ok(d) => d,
        Err(e) => {
            return RelayReport {
                disposition: RelayDisposition::Rejected { error: e },
                attempts: 0,
                delivered: None,
                used_fallback: false,
                reply_target: None,
                sent: None,
            };
        },
    };
    mx_to_tg(store, to_tg_data, &normalized, outcomes)
}

} // verus!
