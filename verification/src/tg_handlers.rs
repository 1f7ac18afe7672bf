//! The Telegram-to-Matrix relay: derive the sender's name, find the bridged
//! room, classify the inbound media kind, resolve reply linkage through the
//! correspondence store, build the Matrix-bound message around the uploaded
//! content handle, send under the retry policy, and record the new
//! correspondence.

use vstd::prelude::*;

use crate::bridge_structs::Bridge;
use crate::bridge_structs::BridgeError;
use crate::bridge_structs::MxMessageType;
use crate::bridge_structs::TgContentType;
use crate::bridge_structs::TgMediaKind;
use crate::bridge_structs::TgMessage;
use crate::bridge_structs::find_by_dest_chat;
use crate::bridge_utils::get_user_name;
use crate::db::BridgedMessage;
use crate::db::CorrespondenceStore;
use crate::db::appended_capped;
use crate::db::first_source_for_dest;
use crate::matrix_handlers::RelayDisposition;

verus! {

/// Find the Matrix event id recorded for the Telegram message
/// `(chat_id, message_id)` in the conversation `mx_chat`, to attach as the
/// reply relation.
pub fn find_mx_event_id(
    store: &CorrespondenceStore,
    chat_id: i64,
    message_id: i32,
    mx_chat: &String,
) -> (r: Option<String>)
    ensures
        match (r, first_source_for_dest(store.records_for(mx_chat@), chat_id, message_id)) {
            (Some(s), Some(v)) => s@ == v,
            (None, None) => true,
            _ => false,
        },
{
    store.lookup_source_from_dest(mx_chat, chat_id, message_id)
}

/// The content type an inbound Telegram media payload is re-uploaded under:
/// photos as JPEG images, animations and videos as MP4 video, stickers as
/// WebM video or WebP images by their own format, documents as opaque bytes.
/// Text carries no payload.
pub open spec fn spec_tg_content_type(kind: TgMediaKind) -> Option<TgContentType> {
    match kind {
        TgMediaKind::Text { .. } => None,
        TgMediaKind::Photo { .. } => Some(TgContentType::ImageJpeg),
        TgMediaKind::Animation { .. } => Some(TgContentType::VideoMp4),
        TgMediaKind::Sticker { is_video, .. } => if is_video {
            Some(TgContentType::VideoWebm)
        } else {
            Some(TgContentType::ImageWebp)
        },
        TgMediaKind::Video { .. } => Some(TgContentType::VideoMp4),
        TgMediaKind::Document { .. } => Some(TgContentType::OctetStream),
        TgMediaKind::Other => None,
    }
}

/// Classify an inbound Telegram media kind into the content type its payload
/// is re-uploaded under.
pub fn tg_content_type(kind: &TgMediaKind) -> (r: Option<TgContentType>)
    ensures
        r == spec_tg_content_type(*kind),
{
    match kind {
        TgMediaKind::Text { .. } => None,
        TgMediaKind::Photo { .. } => Some(TgContentType::ImageJpeg),
        TgMediaKind::Animation { .. } => Some(TgContentType::VideoMp4),
        TgMediaKind::Sticker { is_video, .. } => if *is_video {
            Some(TgContentType::VideoWebm)
        } else {
            Some(TgContentType::ImageWebp)
        },
        TgMediaKind::Video { .. } => Some(TgContentType::VideoMp4),
        TgMediaKind::Document { .. } => Some(TgContentType::OctetStream),
        TgMediaKind::Other => None,
    }
}

/// The URL a Telegram file is downloaded from, given the bot token and the
/// file path the API reported.
pub fn get_file_url(token: &str, file_path: &str) -> (r: String)
    ensures
        r@ == "https://api.telegram.org/file/bot"@ + token@ + "/"@ + file_path@,
{
    let mut url = String::from_str("https://api.telegram.org/file/bot");
    url.append(token);
    url.append("/");
    url.append(file_path);
    url
}

/// The Matrix-bound message a relay builds: the content (with the uploaded
/// content handle as its source) and the reply relation to attach.
pub struct MxOutbound {
    pub msg_type: MxMessageType,
    pub reply_to: Option<String>,
}

/// The text convention of the Matrix side: the sender's name, a colon and a
/// space, then the text.
pub open spec fn spec_mx_text(user: Seq<char>, text: Seq<char>) -> Seq<char> {
    user + ": "@ + text
}

/// The caption convention of the Matrix side: `(from <user>`, a line break,
/// the original caption (empty when there was none), and a closing
/// parenthesis.
pub open spec fn spec_mx_caption(user: Seq<char>, caption: Option<Seq<char>>) -> Seq<char> {
    "(from "@ + user + "\n"@ + (match caption {
        Some(c) => c,
        None => Seq::empty(),
    }) + ")"@
}

/// The error that abandons building the Matrix-bound message, if any: an
/// unknown media kind has no counterpart, and a media kind whose payload was
/// not re-uploaded cannot be sent without it.
pub open spec fn spec_mx_build_err(kind: TgMediaKind, uri: Option<Seq<char>>) -> Option<
    BridgeError,
> {
    match kind {
        TgMediaKind::Text { .. } => None,
        TgMediaKind::Other => Some(BridgeError::UnsupportedMessageKind),
        _ => if uri is None {
            Some(BridgeError::MediaUnavailable)
        } else {
            None
        },
    }
}

/// The view of an optional string.
pub open spec fn opt_str_view(s: Option<String>) -> Option<Seq<char>> {
    match s {
        Some(v) => Some(v@),
        None => None,
    }
}

/// Build the Matrix-bound message for an inbound Telegram message: text gets
/// the sender-name prefix; a media payload becomes an image, video or file
/// message around the uploaded content handle, captioned by the caption
/// convention; the resolved reply relation is attached as given.
pub fn get_to_mx_data(
    msg: &TgMessage,
    user: &String,
    mxc_uri: Option<String>,
    reply: Option<String>,
) -> (r: Result<MxOutbound, BridgeError>)
    ensures
        match r {
            Ok(out) => {
                &&& spec_mx_build_err(msg.media_kind, opt_str_view(mxc_uri)) is None
                &&& opt_str_view(out.reply_to) == opt_str_view(reply)
                &&& match msg.media_kind {
                    TgMediaKind::Text { text } => match out.msg_type {
                        MxMessageType::Text { body } => body@ == spec_mx_text(user@, text@),
                        _ => false,
                    },
                    TgMediaKind::Other => false,
                    _ => {
                        let cap = spec_mx_caption(user@, opt_str_view(msg.caption));
                        let uri = match mxc_uri {
                            Some(u) => u@,
                            None => Seq::empty(),
                        };
                        if spec_tg_content_type(msg.media_kind).unwrap().spec_is_video() {
                            match out.msg_type {
                                MxMessageType::Video { body, source } => body@ == cap && source@
                                    == uri,
                                _ => false,
                            }
                        } else if msg.media_kind is Document {
                            match out.msg_type {
                                MxMessageType::File { body, source } => body@ == cap && source@
                                    == uri,
                                _ => false,
                            }
                        } else {
                            match out.msg_type {
                                MxMessageType::Image { body, source } => body@ == cap && source@
                                    == uri,
                                _ => false,
                            }
                        }
                    },
                }
            },
            Err(e) => spec_mx_build_err(msg.media_kind, opt_str_view(mxc_uri)) == Some(e),
        },
{
    match &msg.media_kind {
        TgMediaKind::Text { text } => {
            let mut body = user.clone();
            body.append(": ");
            body.append(text.as_str());
            Ok(MxOutbound { msg_type: MxMessageType::Text { body }, reply_to: reply })
        },
        TgMediaKind::Other => Err(BridgeError::UnsupportedMessageKind),
        other => {
            let uri: String = match mxc_uri {
                Some(u) => u,
                None => {
                    return Err(BridgeError::MediaUnavailable);
                },
            };
            let mut cap = String::from_str("(from ");
            cap.append(user.as_str());
            cap.append("\n");
            match &msg.caption {
                Some(c) => cap.append(c.as_str()),
                None => (),
            }
            cap.append(")");
            let is_doc = match other {
                TgMediaKind::Document { .. } => true,
                _ => false,
            };
            let is_video = match tg_content_type(other) {
                Some(t) => t.is_video(),
                None => false,
            };
            let msg_type = if is_video {
                MxMessageType::Video { body: cap, source: uri }
            } else if is_doc {
                MxMessageType::File { body: cap, source: uri }
            } else {
                MxMessageType::Image { body: cap, source: uri }
            };
            Ok(MxOutbound { msg_type, reply_to: reply })
        },
    }
}

/// What one Matrix send attempt came back with.
pub enum MxSendOutcome {
    /// The homeserver accepted the message and assigned it this event id.
    Sent { event_id: String },
    /// The attempt timed out on the network.
    TimedOut,
    /// Any other error.
    Failed,
}

/// What a run of the Matrix-side retry policy over a script of outcomes
/// produces: the event id of the delivered message (when one outcome
/// delivered) and the number of attempts made. A timeout retries the
/// identical call; any other error is terminal.
pub open spec fn spec_run_send_mx(outcomes: Seq<MxSendOutcome>) -> (Option<Seq<char>>, int)
    decreases outcomes.len(),
{
    if outcomes.len() == 0 {
        (None, 0)
    } else {
        match outcomes[0] {
            MxSendOutcome::Sent { event_id } => (Some(event_id@), 1),
            MxSendOutcome::TimedOut => {
                let rest = spec_run_send_mx(outcomes.drop_first());
                (rest.0, rest.1 + 1)
            },
            MxSendOutcome::Failed => (None, 1),
        }
    }
}

/// Run the Matrix-side retry policy over a script of attempt outcomes:
/// retry on every timeout, stop on delivery or on any other error.
#[verifier::loop_isolation(false)]
pub fn run_send_mx(outcomes: &Vec<MxSendOutcome>) -> (r: (Option<String>, usize))
    ensures
        ({
            let spec = spec_run_send_mx(outcomes@);
            &&& opt_str_view(r.0) == spec.0
            &&& r.1 as int == spec.1
            &&& r.1 <= outcomes@.len()
        }),
{
    let mut i: usize = 0;
    proof {
        assert(outcomes@.skip(0) =~= outcomes@);
    }
    while i < outcomes.len()
        invariant
            i <= outcomes@.len(),
            spec_run_send_mx(outcomes@).0 == spec_run_send_mx(outcomes@.skip(i as int)).0,
            spec_run_send_mx(outcomes@).1 == i + spec_run_send_mx(outcomes@.skip(i as int)).1,
        decreases outcomes@.len() - i,
    {
        proof {
            assert(outcomes@.skip(i as int)[0] == outcomes@[i as int]);
            assert(outcomes@.skip(i as int).drop_first() =~= outcomes@.skip(i + 1));
        }
        match &outcomes[i] {
            MxSendOutcome::Sent { event_id } => {
                return (Some(event_id.clone()), i + 1);
            },
            MxSendOutcome::TimedOut => {},
            MxSendOutcome::Failed => {
                return (None, i + 1);
            },
        }
        i = i + 1;
    }
    proof {
        assert(outcomes@.skip(outcomes@.len() as int) =~= Seq::<MxSendOutcome>::empty());
    }
    (None, i)
}

/// The Matrix room the first bridge for Telegram chat `chat` names, if any
/// bridge pairs that chat.
pub open spec fn spec_room_for_chat(bridges: Seq<Bridge>, chat: i64) -> Option<Seq<char>>
    decreases bridges.len(),
{
    if bridges.len() == 0 {
        None
    } else if bridges[0].tg_id == chat {
        Some(bridges[0].mx_id@)
    } else {
        spec_room_for_chat(bridges.drop_first(), chat)
    }
}

/// The first matching bridge determines the room a chat relays to.
proof fn lemma_room_for_chat_first(bridges: Seq<Bridge>, chat: i64, i: int)
    requires
        0 <= i < bridges.len(),
        bridges[i].tg_id == chat,
        forall|j: int| 0 <= j < i ==> (#[trigger] bridges[j]).tg_id != chat,
    ensures
        spec_room_for_chat(bridges, chat) == Some(bridges[i].mx_id@),
    decreases i,
{
    if i == 0 {
    } else {
        assert(bridges.drop_first()[i - 1] == bridges[i]);
        assert forall|j: int| 0 <= j < i - 1 implies (#[trigger] bridges.drop_first()[j]).tg_id
            != chat by {
            assert(bridges.drop_first()[j] == bridges[j + 1]);
        }
        lemma_room_for_chat_first(bridges.drop_first(), chat, i - 1);
    }
}

/// A chat no bridge pairs relays nowhere.
proof fn lemma_room_for_chat_none(bridges: Seq<Bridge>, chat: i64)
    requires
        forall|j: int| 0 <= j < bridges.len() ==> (#[trigger] bridges[j]).tg_id != chat,
    ensures
        spec_room_for_chat(bridges, chat) is None,
    decreases bridges.len(),
{
    if bridges.len() == 0 {
    } else {
        assert forall|j: int|
            0 <= j < bridges.drop_first().len() implies (
        #[trigger] bridges.drop_first()[j]).tg_id != chat by {
            assert(bridges.drop_first()[j] == bridges[j + 1]);
        }
        lemma_room_for_chat_none(bridges.drop_first(), chat);
    }
}

/// Whether deriving a sender name for `msg` fails.
pub open spec fn spec_name_unavailable(msg: TgMessage) -> bool {
    match msg.sender_chat {
        Some(c) => !c.is_channel,
        None => msg.from_full_name is None,
    }
}

/// What one Telegram-to-Matrix relay run did.
pub struct TgRelayReport {
    pub disposition: RelayDisposition,
    pub attempts: usize,
    pub delivered_event: Option<String>,
    pub reply_target: Option<String>,
    pub sent: Option<MxOutbound>,
}

/// Handle one inbound Telegram message end to end: derive the sender's name,
/// drop messages of unbridged chats, resolve the reply relation through the
/// store, build the Matrix-bound message around the uploaded content handle,
/// send it under the timeout-retry policy, and record the correspondence on
/// delivery.
pub fn tg_to_mx(
    store: &mut CorrespondenceStore,
    bridges: &Vec<Bridge>,
    msg: &TgMessage,
    mxc_uri: Option<String>,
    outcomes: &Vec<MxSendOutcome>,
) -> (r: TgRelayReport)
    requires
        old(store).wf(),
    ensures
        final(store).wf(),
        spec_name_unavailable(*msg) ==> {
            &&& r.disposition == RelayDisposition::Rejected {
                error: BridgeError::NameUnavailable,
            }
            &&& r.attempts == 0
            &&& *final(store) == *old(store)
        },
        !spec_name_unavailable(*msg) && spec_room_for_chat(bridges@, msg.chat_id) is None ==> {
            &&& r.disposition == RelayDisposition::NotBridged
            &&& r.attempts == 0
            &&& *final(store) == *old(store)
        },
        !spec_name_unavailable(*msg) && spec_room_for_chat(bridges@, msg.chat_id) is Some ==> {
            let room = spec_room_for_chat(bridges@, msg.chat_id).unwrap();
            match spec_mx_build_err(msg.media_kind, opt_str_view(mxc_uri)) {
                Some(e) => {
                    &&& r.disposition == RelayDisposition::Rejected { error: e }
                    &&& r.attempts == 0
                    &&& *final(store) == *old(store)
                },
                None => {
                    let spec = spec_run_send_mx(outcomes@);
                    &&& opt_str_view(r.delivered_event) == spec.0
                    &&& r.attempts as int == spec.1
                    &&& r.disposition == (if r.delivered_event is Some {
                        RelayDisposition::Delivered
                    } else {
                        RelayDisposition::Undelivered
                    })
                    &&& match (r.reply_target, msg.reply_to) {
                        (rt, Some(p)) => opt_str_view(rt) == first_source_for_dest(
                            old(store).records_for(room),
                            p.0,
                            p.1,
                        ),
                        (rt, None) => rt is None,
                    }
                    &&& match r.sent {
                        Some(out) => opt_str_view(out.reply_to) == opt_str_view(r.reply_target),
                        None => false,
                    }
                    &&& match spec.0 {
                        Some(eid) => exists|rec: BridgedMessage|
                            {
                                &&& rec.matrix_id@ == eid
                                &&& rec.telegram_id == (msg.chat_id, msg.message_id)
                                &&& final(store).records_for(room) == appended_capped(
                                    old(store).records_for(room),
                                    rec,
                                )
                                &&& forall|other: Seq<char>|
                                    other != room ==> #[trigger] final(store).records_for(other)
                                        == old(store).records_for(other)
                            },
                        None => *final(store) == *old(store),
                    }
                },
            }
        },
{
    let user: String = match get_user_name(msg) {
        Ok(u) => u,
        Err(e) => {
            return TgRelayReport {
                disposition: RelayDisposition::Rejected { error: e },
                attempts: 0,
                delivered_event: None,
                reply_target: None,
                sent: None,
            };
        },
    };
    let bridge: &Bridge = match find_by_dest_chat(bridges, msg.chat_id) {
        Some(i) => {
            proof {
                lemma_room_for_chat_first(bridges@, msg.chat_id, i as int);
            }
            &bridges[i]
        },
        None => {
            proof {
                lemma_room_for_chat_none(bridges@, msg.chat_id);
            }
            return TgRelayReport {
                disposition: RelayDisposition::NotBridged,
                attempts: 0,
                delivered_event: None,
                reply_target: None,
                sent: None,
            };
        },
    };
    let reply_target: Option<String> = match &msg.reply_to {
        Some(p) => find_mx_event_id(store, p.0, p.1, &bridge.mx_id),
        None => None,
    };
    let reply_for_build: Option<String> = match &reply_target {
        Some(s) => Some(s.clone()),
        None => None,
    };
    let outbound: MxOutbound = match get_to_mx_data(msg, &user, mxc_uri, reply_for_build) {
        Ok(o) => o,
        Err(e) => {
            return TgRelayReport {
                disposition: RelayDisposition::Rejected { error: e },
                attempts: 0,
                delivered_event: None,
                reply_target: None,
                sent: None,
            };
        },
    };
    let (delivered_event, attempts) = run_send_mx(outcomes);
    let disposition: RelayDisposition;
    match &delivered_event {
        Some(eid) => {
            let rec = BridgedMessage {
                matrix_id: eid.clone(),
                telegram_id: (msg.chat_id, msg.message_id),
            };
            store.append(&bridge.mx_id, rec);
            disposition = RelayDisposition::Delivered;
        },
        None => {
            disposition = RelayDisposition::Undelivered;
        },
    }
    TgRelayReport {
        disposition,
        attempts,
        delivered_event,
        reply_target,
        sent: Some(outbound),
    }
}

} // verus!
