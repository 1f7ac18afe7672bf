//! Shared relay machinery: sender-name derivation, outbound message
//! construction for the Telegram side, the text conventions of both
//! directions, and the retry policy around a destination send call: timeouts
//! are retried, an oversized payload gets one fallback, anything else is
//! terminal.

use vstd::prelude::*;
use vstd::string::StringSliceAdditionalSpecFns;
use vstd::utf8::encode_utf8;

use crate::bridge_structs::Bridge;
use crate::bridge_structs::BridgeError;
use crate::bridge_structs::BmTgData;
use crate::bridge_structs::MxMessageType;
use crate::bridge_structs::MxEvent;
use crate::bridge_structs::TgMessage;
use crate::bridge_structs::TgMessageKind;
use crate::codec::push_bytes;

verus! {

/// The bytes of `b` before its first occurrence of `x` (all of `b` when `x`
/// does not occur).
pub open spec fn prefix_until(b: Seq<u8>, x: u8) -> Seq<u8>
    decreases b.len(),
{
    if b.len() == 0 {
        Seq::empty()
    } else if b[0] == x {
        Seq::empty()
    } else {
        seq![b[0]] + prefix_until(b.drop_first(), x)
    }
}

/// The local display handle of a Matrix user id: the bytes between the
/// leading `@` (when present) and the first `:`.
pub open spec fn spec_localpart(b: Seq<u8>) -> Seq<u8> {
    let t = if b.len() > 0 && b[0] == 64 {
        b.drop_first()
    } else {
        b
    };
    prefix_until(t, 58)
}

/// When no byte before `j` equals `x` and position `j` is the end or holds
/// `x`, the prefix before `x` is exactly the first `j` bytes.
proof fn lemma_prefix_until_stops(t: Seq<u8>, x: u8, j: int)
    requires
        0 <= j <= t.len(),
        forall|m: int| 0 <= m < j ==> t[m] != x,
        j == t.len() || t[j] == x,
    ensures
        prefix_until(t, x) == t.take(j),
    decreases j,
{
    if j == 0 {
        assert(t.take(0) =~= Seq::<u8>::empty());
        if t.len() == 0 {
        } else {
            assert(t[0] == x);
        }
    } else {
        assert(t[0] != x);
        assert forall|m: int| 0 <= m < j - 1 implies t.drop_first()[m] != x by {
            assert(t.drop_first()[m] == t[m + 1]);
        }
        assert(j - 1 == t.drop_first().len() || t.drop_first()[j - 1] == x);
        lemma_prefix_until_stops(t.drop_first(), x, j - 1);
        assert(seq![t[0]] + t.drop_first().take(j - 1) =~= t.take(j));
    }
}

/// Derive the sender's local display handle from a Matrix user id.
#[verifier::loop_isolation(false)]
pub fn localpart(sender: &str) -> (r: Vec<u8>)
    ensures
        r@ == spec_localpart(sender.spec_bytes()),
{
    let bytes: &[u8] = sender.as_bytes();
    let n: usize = bytes.len();
    let start: usize = if n > 0 && bytes[0] == 64u8 {
        1
    } else {
        0
    };
    let ghost t: Seq<u8> = if bytes@.len() > 0 && bytes@[0] == 64 {
        bytes@.drop_first()
    } else {
        bytes@
    };
    proof {
        assert(t =~= bytes@.skip(start as int));
    }
    let mut out: Vec<u8> = Vec::new();
    let mut i: usize = start;
    while i < n
        invariant
            start <= i <= n,
            n == bytes@.len(),
            t == bytes@.skip(start as int),
            out@ == t.take(i - start),
            forall|m: int| 0 <= m < i - start ==> t[m] != 58,
        decreases n - i,
    {
        let c: u8 = bytes[i];
        proof {
            assert(t[i - start] == bytes@[i as int]);
        }
        if c == 58u8 {
            proof {
                lemma_prefix_until_stops(t, 58, i - start);
            }
            return out;
        }
        out.push(c);
        proof {
            assert(t.take(i - start).push(t[i - start]) =~= t.take(i + 1 - start));
        }
        i = i + 1;
    }
    proof {
        lemma_prefix_until_stops(t, 58, n - start);
        assert(t.take(n - start) =~= t);
    }
    out
}

/// The body of a reply text after its quoted-fallback header: the bytes after
/// the first blank line, or `None` when the text has none.
pub open spec fn spec_strip_reply(b: Seq<u8>) -> Option<Seq<u8>>
    decreases b.len(),
{
    if b.len() < 2 {
        None
    } else if b[0] == 10 && b[1] == 10 {
        Some(b.skip(2))
    } else {
        spec_strip_reply(b.drop_first())
    }
}

/// Strip the quoted-fallback header of a reply text: return the bytes after
/// the first blank line.
#[verifier::loop_isolation(false)]
pub fn strip_reply_fallback(body: &str) -> (r: Option<Vec<u8>>)
    ensures
        match r {
            Some(v) => spec_strip_reply(body.spec_bytes()) == Some(v@),
            None => spec_strip_reply(body.spec_bytes()) is None,
        },
{
    let bytes: &[u8] = body.as_bytes();
    let n: usize = bytes.len();
    if n < 2 {
        return None;
    }
    let mut i: usize = 0;
    proof {
        assert(bytes@.skip(0) =~= bytes@);
    }
    while i < n - 1
        invariant
            i <= n,
            spec_strip_reply(bytes@) == spec_strip_reply(bytes@.skip(i as int)),
        decreases n - i,
    {
        proof {
            assert(bytes@.skip(i as int)[0] == bytes@[i as int]);
            assert(bytes@.skip(i as int)[1] == bytes@[i + 1]);
        }
        if bytes[i] == 10u8 && bytes[i + 1] == 10u8 {
            let rest = vstd::slice::slice_to_vec(
                vstd::slice::slice_subrange(bytes, i + 2, n),
            );
            proof {
                assert(bytes@.skip(i as int).skip(2) =~= bytes@.subrange(i + 2, n as int));
            }
            return Some(rest);
        }
        proof {
            assert(bytes@.skip(i as int).drop_first() =~= bytes@.skip(i + 1));
        }
        i = i + 1;
    }
    proof {
        assert(spec_strip_reply(bytes@.skip(i as int)) is None);
    }
    None
}

/// The outbound text convention: the sender's handle, a colon and a space,
/// then the message body.
pub open spec fn spec_compose_text(user: Seq<u8>, body: Seq<u8>) -> Seq<u8> {
    user + encode_utf8(": "@) + body
}

/// Build the outbound text `<user>: <body>`.
pub fn compose_text(user: &[u8], body: &[u8]) -> (r: Vec<u8>)
    ensures
        r@ == spec_compose_text(user@, body@),
{
    let mut out: Vec<u8> = Vec::new();
    push_bytes(&mut out, user);
    push_bytes(&mut out, ": ".as_bytes());
    push_bytes(&mut out, body);
    proof {
        assert(Seq::<u8>::empty() + user@ + encode_utf8(": "@) + body@ =~= spec_compose_text(
            user@,
            body@,
        ));
    }
    out
}

/// The media caption convention: `(from <user>` then a line break, the
/// original caption, and a closing parenthesis.
pub open spec fn spec_compose_caption(user: Seq<u8>, caption: Seq<u8>) -> Seq<u8> {
    encode_utf8("(from "@) + user + encode_utf8("\n"@) + caption + encode_utf8(")"@)
}

/// Build the outbound media caption `(from <user>` + line break + caption + `)`.
pub fn compose_caption(user: &[u8], caption: &[u8]) -> (r: Vec<u8>)
    ensures
        r@ == spec_compose_caption(user@, caption@),
{
    let mut out: Vec<u8> = Vec::new();
    push_bytes(&mut out, "(from ".as_bytes());
    push_bytes(&mut out, user);
    push_bytes(&mut out, "\n".as_bytes());
    push_bytes(&mut out, caption);
    push_bytes(&mut out, ")".as_bytes());
    proof {
        assert(Seq::<u8>::empty() + encode_utf8("(from "@) + user@ + encode_utf8("\n"@) + caption@
            + encode_utf8(")"@) =~= spec_compose_caption(user@, caption@));
    }
    out
}

/// The placeholder text substituted when the destination rejects a payload
/// as too large.
pub fn fallback_text() -> (s: &'static str)
    ensures
        s@ == "this message cannot be displayed"@,
{
    "this message cannot be displayed"
}

/// Derive the display name of a Telegram message's sender: a channel post is
/// named by the channel title, an ordinary message by the author's full name;
/// a post on behalf of a non-channel chat, or a message with no author at
/// all, has no name.
pub fn get_user_name(msg: &TgMessage) -> (r: Result<String, BridgeError>)
    ensures
        match r {
            Ok(name) => match msg.sender_chat {
                Some(c) => c.is_channel && name@ == (match c.title {
                    Some(t) => t@,
                    None => Seq::<char>::empty(),
                }),
                None => match msg.from_full_name {
                    Some(n) => name@ == n@,
                    None => false,
                },
            },
            Err(e) => e == BridgeError::NameUnavailable && (match msg.sender_chat {
                Some(c) => !c.is_channel,
                None => msg.from_full_name is None,
            }),
        },
{
    match &msg.sender_chat {
        Some(c) => {
            if c.is_channel {
                match &c.title {
                    Some(t) => Ok(t.clone()),
                    None => Ok(String::new()),
                }
            } else {
                Err(BridgeError::NameUnavailable)
            }
        },
        None => match &msg.from_full_name {
            Some(n) => Ok(n.clone()),
            None => Err(BridgeError::NameUnavailable),
        },
    }
}

/// Replace a sticker by the image message it is relayed as; every other
/// content kind is passed through unchanged.
pub open spec fn spec_normalize_sticker(c: MxMessageType) -> MxMessageType {
    match c {
        MxMessageType::Sticker { body, source } => MxMessageType::Image { body, source },
        other => other,
    }
}

/// Normalize a sticker event into the image message it is relayed as.
pub fn normalize_sticker(content: &MxMessageType) -> (r: MxMessageType)
    ensures
        r == spec_normalize_sticker(*content),
{
    match content {
        MxMessageType::Sticker { body, source } => MxMessageType::Image {
            body: body.clone(),
            source: source.clone(),
        },
        MxMessageType::Text { body } => MxMessageType::Text { body: body.clone() },
        MxMessageType::Image { body, source } => MxMessageType::Image {
            body: body.clone(),
            source: source.clone(),
        },
        MxMessageType::Video { body, source } => MxMessageType::Video {
            body: body.clone(),
            source: source.clone(),
        },
        MxMessageType::File { body, source } => MxMessageType::File {
            body: body.clone(),
            source: source.clone(),
        },
        MxMessageType::Audio { body, source } => MxMessageType::Audio {
            body: body.clone(),
            source: source.clone(),
        },
    }
}

/// The view of an optional byte payload.
pub open spec fn opt_bytes_view(m: Option<Vec<u8>>) -> Option<Seq<u8>> {
    match m {
        Some(v) => Some(v@),
        None => None,
    }
}

/// What the Telegram-bound message for a Matrix event's content is: the kind,
/// the payload bytes and the caption bytes — or the error that abandons the
/// relay. A reply text has its quoted-fallback header stripped; media kinds
/// need the fetched payload; audio and raw stickers have no counterpart.
pub open spec fn spec_to_tg_message(
    content: MxMessageType,
    is_reply: bool,
    media: Option<Seq<u8>>,
) -> Result<(TgMessageKind, Seq<u8>, Option<Seq<u8>>), BridgeError> {
    match content {
        MxMessageType::Text { body } => {
            if is_reply {
                match spec_strip_reply(encode_utf8(body@)) {
                    Some(rest) => Ok((TgMessageKind::Text, rest, None)),
                    None => Err(BridgeError::MalformedReplyText),
                }
            } else {
                Ok((TgMessageKind::Text, encode_utf8(body@), None))
            }
        },
        MxMessageType::Image { body, .. } => match media {
            Some(m) => Ok((TgMessageKind::Photo, m, Some(encode_utf8(body@)))),
            None => Err(BridgeError::MediaUnavailable),
        },
        MxMessageType::Video { body, .. } => match media {
            Some(m) => Ok((TgMessageKind::Video, m, Some(encode_utf8(body@)))),
            None => Err(BridgeError::MediaUnavailable),
        },
        MxMessageType::File { body, .. } => match media {
            Some(m) => Ok((TgMessageKind::Document, m, Some(encode_utf8(body@)))),
            None => Err(BridgeError::MediaUnavailable),
        },
        MxMessageType::Audio { .. } => Err(BridgeError::UnsupportedMessageKind),
        MxMessageType::Sticker { .. } => Err(BridgeError::UnsupportedMessageKind),
    }
}

/// Build the Telegram-bound message descriptor for a Matrix event: classify
/// the content, take the payload (the fetched media bytes for media kinds,
/// the body text otherwise), and address it at the bridge's chat.
pub fn get_to_tg_data(ev: &MxEvent, bridge: &Bridge, media: Option<Vec<u8>>) -> (r: Result<
    BmTgData,
    BridgeError,
>)
    ensures
        match r {
            Ok(d) => {
                &&& d.chat_id == Some(bridge.tg_id)
                &&& !d.is_preview_disabled
                &&& match spec_to_tg_message(
                    ev.content,
                    ev.reply_to is Some,
                    opt_bytes_view(media),
                ) {
                    Ok((k, msg, cap)) => {
                        &&& d.tg_message_kind == Some(k)
                        &&& d.message@ == msg
                        &&& match (d.caption, cap) {
                            (Some(c), Some(c2)) => c@ == c2,
                            (None, None) => true,
                            _ => false,
                        }
                    },
                    Err(_) => false,
                }
            },
            Err(e) => spec_to_tg_message(ev.content, ev.reply_to is Some, opt_bytes_view(media))
                == Err::<(TgMessageKind, Seq<u8>, Option<Seq<u8>>), BridgeError>(e),
        },
{
    let is_reply = match &ev.reply_to {
        Some(_) => true,
        None => false,
    };
    match &ev.content {
        MxMessageType::Text { body } => {
            let message: Vec<u8> = if is_reply {
                match strip_reply_fallback(body.as_str()) {
                    Some(rest) => rest,
                    None => {
                        return Err(BridgeError::MalformedReplyText);
                    },
                }
            } else {
                vstd::slice::slice_to_vec(body.as_str().as_bytes())
            };
            Ok(
                BmTgData {
                    chat_id: Some(bridge.tg_id),
                    message,
                    tg_message_kind: Some(TgMessageKind::Text),
                    caption: None,
                    is_preview_disabled: false,
                },
            )
        },
        MxMessageType::Image { body, .. } => match media {
            Some(m) => Ok(
                BmTgData {
                    chat_id: Some(bridge.tg_id),
                    message: m,
                    tg_message_kind: Some(TgMessageKind::Photo),
                    caption: Some(vstd::slice::slice_to_vec(body.as_str().as_bytes())),
                    is_preview_disabled: false,
                },
            ),
            None => Err(BridgeError::MediaUnavailable),
        },
        MxMessageType::Video { body, .. } => match media {
            Some(m) => Ok(
                BmTgData {
                    chat_id: Some(bridge.tg_id),
                    message: m,
                    tg_message_kind: Some(TgMessageKind::Video),
                    caption: Some(vstd::slice::slice_to_vec(body.as_str().as_bytes())),
                    is_preview_disabled: false,
                },
            ),
            None => Err(BridgeError::MediaUnavailable),
        },
        MxMessageType::File { body, .. } => match media {
            Some(m) => Ok(
                BmTgData {
                    chat_id: Some(bridge.tg_id),
                    message: m,
                    tg_message_kind: Some(TgMessageKind::Document),
                    caption: Some(vstd::slice::slice_to_vec(body.as_str().as_bytes())),
                    is_preview_disabled: false,
                },
            ),
            None => Err(BridgeError::MediaUnavailable),
        },
        MxMessageType::Audio { .. } => Err(BridgeError::UnsupportedMessageKind),
        MxMessageType::Sticker { .. } => Err(BridgeError::UnsupportedMessageKind),
    }
}

/// What one destination send attempt came back with.
#[derive(Clone, Copy, PartialEq, Eq, Structural, Debug)]
pub enum SendOutcome {
    /// The destination accepted the message and assigned it this identity.
    Sent { chat_id: i64, message_id: i32 },
    /// The attempt timed out on the network.
    TimedOut,
    /// The destination rejected the payload as too large.
    PayloadTooLarge,
    /// Any other destination error.
    Failed,
}

/// What the retry policy does after one attempt's outcome.
#[derive(Clone, Copy, PartialEq, Eq, Structural, Debug)]
pub enum SendStep {
    /// The message is delivered under this destination identity.
    Deliver { chat_id: i64, message_id: i32 },
    /// Retry the identical call.
    RetrySame,
    /// Retry once with the payload replaced by the fallback placeholder text.
    RetryFallback,
    /// The error is terminal; abandon the message.
    GiveUp,
}

/// The retry policy: a timeout retries the identical call; a too-large
/// payload is retried once with the fallback placeholder, and is terminal
/// when the fallback itself was already sent; any other error is terminal.
pub open spec fn spec_send_step(fallback_used: bool, o: SendOutcome) -> SendStep {
    match o {
        SendOutcome::Sent { chat_id, message_id } => SendStep::Deliver { chat_id, message_id },
        SendOutcome::TimedOut => SendStep::RetrySame,
        SendOutcome::PayloadTooLarge => if fallback_used {
            SendStep::GiveUp
        } else {
            SendStep::RetryFallback
        },
        SendOutcome::Failed => SendStep::GiveUp,
    }
}

/// Decide what to do after one send attempt.
pub fn send_step(fallback_used: bool, outcome: &SendOutcome) -> (s: SendStep)
    ensures
        s == spec_send_step(fallback_used, *outcome),
{
    match outcome {
        SendOutcome::Sent { chat_id, message_id } => SendStep::Deliver {
            chat_id: *chat_id,
            message_id: *message_id,
        },
        SendOutcome::TimedOut => SendStep::RetrySame,
        SendOutcome::PayloadTooLarge => if fallback_used {
            SendStep::GiveUp
        } else {
            SendStep::RetryFallback
        },
        SendOutcome::Failed => SendStep::GiveUp,
    }
}

/// What a whole run of the retry policy over a script of outcomes produces:
/// the delivered identity (when one outcome delivered), the number of
/// attempts made, and whether the fallback placeholder was in use at the end.
pub open spec fn spec_run_send(outcomes: Seq<SendOutcome>, fallback_used: bool) -> (
    Option<(i64, i32)>,
    int,
    bool,
)
    decreases outcomes.len(),
{
    if outcomes.len() == 0 {
        (None, 0, fallback_used)
    } else {
        match outcomes[0] {
            SendOutcome::Sent { chat_id, message_id } => (
                Some((chat_id, message_id)),
                1,
                fallback_used,
            ),
            SendOutcome::TimedOut => {
                let rest = spec_run_send(outcomes.drop_first(), fallback_used);
                (rest.0, rest.1 + 1, rest.2)
            },
            SendOutcome::PayloadTooLarge => {
                if fallback_used {
                    (None, 1, true)
                } else {
                    let rest = spec_run_send(outcomes.drop_first(), true);
                    (rest.0, rest.1 + 1, rest.2)
                }
            },
            SendOutcome::Failed => (None, 1, fallback_used),
        }
    }
}

/// What one run of the retry policy reported: the delivered destination
/// identity (or `None` when the message was abandoned or the script ended),
/// how many underlying send attempts were made, and whether the fallback
/// placeholder replaced the original payload.
pub struct SendReport {
    pub delivered: Option<(i64, i32)>,
    pub attempts: usize,
    pub used_fallback: bool,
}

/// Run the retry policy over a script of attempt outcomes, one outcome per
/// attempt, until one delivers or is terminal; an exhausted script leaves the
/// message undelivered with every outcome counted as an attempt.
#[verifier::loop_isolation(false)]
pub fn run_send(outcomes: &Vec<SendOutcome>) -> (r: SendReport)
    ensures
        ({
            let spec = spec_run_send(outcomes@, false);
            &&& r.delivered == spec.0
            &&& r.attempts as int == spec.1
            &&& r.used_fallback == spec.2
            &&& r.attempts <= outcomes@.len()
        }),
{
    let mut i: usize = 0;
    let mut fb: bool = false;
    proof {
        assert(outcomes@.skip(0) =~= outcomes@);
    }
    while i < outcomes.len()
        invariant
            i <= outcomes@.len(),
            spec_run_send(outcomes@, false).0 == spec_run_send(
                outcomes@.skip(i as int),
                fb,
            ).0,
            spec_run_send(outcomes@, false).1 == i + spec_run_send(
                outcomes@.skip(i as int),
                fb,
            ).1,
            spec_run_send(outcomes@, false).2 == spec_run_send(
                outcomes@.skip(i as int),
                fb,
            ).2,
        decreases outcomes@.len() - i,
    {
        proof {
            assert(outcomes@.skip(i as int)[0] == outcomes@[i as int]);
            assert(outcomes@.skip(i as int).drop_first() =~= outcomes@.skip(i + 1));
        }
        match send_step(fb, &outcomes[i]) {
            SendStep::Deliver { chat_id, message_id } => {
                return SendReport {
                    delivered: Some((chat_id, message_id)),
                    attempts: i + 1,
                    used_fallback: fb,
                };
            },
            SendStep::RetrySame => {},
            SendStep::RetryFallback => {
                fb = true;
            },
            SendStep::GiveUp => {
                return SendReport { delivered: None, attempts: i + 1, used_fallback: fb };
            },
        }
        i = i + 1;
    }
    proof {
        assert(outcomes@.skip(outcomes@.len() as int) =~= Seq::<SendOutcome>::empty());
    }
    SendReport { delivered: None, attempts: i, used_fallback: fb }
}

} // verus!
