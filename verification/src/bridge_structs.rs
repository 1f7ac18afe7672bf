//! Data model of the bridge: configured conversation pairs, the outbound
//! message descriptor, and the modelled inbound events of both platforms.

use vstd::prelude::*;

verus! {

/// One side of a bridge pairing: a Matrix room, named by its room id.
pub struct MatrixChat {
    pub id: String,
}

/// The other side of a bridge pairing: a Telegram chat, named by its
/// numeric chat id.
pub struct TelegramChat {
    pub id: i64,
}

/// A configured pairing between a Matrix room and a Telegram chat.
/// The list of bridges is loaded once at startup and read-only afterwards.
pub struct Bridge {
    pub mx_id: String,
    pub tg_id: i64,
}

/// The kind of Telegram message an outbound relay produces.
#[derive(Clone, Copy, PartialEq, Eq, Structural)]
pub enum TgMessageKind {
    Text,
    Photo,
    Sticker,
    Video,
    Document,
}

/// Why a relay operation dropped or abandoned a message.
#[derive(Clone, Copy, PartialEq, Eq, Structural, Debug)]
pub enum BridgeError {
    /// The message's binary content could not be fetched or stored; the whole
    /// relay is abandoned so that no partial message is sent.
    MediaUnavailable,
    /// The message kind has no counterpart on the destination platform.
    UnsupportedMessageKind,
    /// A reply text did not carry the expected quoted-fallback separator.
    MalformedReplyText,
    /// No display name could be derived for the sender.
    NameUnavailable,
}

/// The content of a Matrix room event, as the relay models it: the kind, the
/// body text (a caption for media kinds) and, for media, the source content
/// handle to fetch the payload by.
pub enum MxMessageType {
    Text { body: String },
    Image { body: String, source: String },
    Video { body: String, source: String },
    File { body: String, source: String },
    Audio { body: String, source: String },
    Sticker { body: String, source: String },
}

/// A Matrix room event, reduced to what the relay decides on. The reply
/// relation is carried as an explicit field, populated at the boundary for
/// every message kind alike.
pub struct MxEvent {
    pub event_id: String,
    pub room_id: String,
    pub sender: String,
    pub content: MxMessageType,
    pub reply_to: Option<String>,
}

/// The outbound Telegram message a relay builds: the kind, the payload bytes
/// (text bytes or fetched media bytes), an optional caption, and whether link
/// previews are suppressed.
pub struct BmTgData {
    pub chat_id: Option<i64>,
    pub message: Vec<u8>,
    pub tg_message_kind: Option<TgMessageKind>,
    pub caption: Option<Vec<u8>>,
    pub is_preview_disabled: bool,
}

impl Default for BmTgData {
    /// An empty descriptor: no destination, no kind, no content.
    fn default() -> (d: Self)
        ensures
            d.chat_id is None,
            d.message@ == Seq::<u8>::empty(),
            d.tg_message_kind is None,
            d.caption is None,
            d.is_preview_disabled == false,
    {
        BmTgData {
            chat_id: None,
            message: Vec::new(),
            tg_message_kind: None,
            caption: None,
            is_preview_disabled: false,
        }
    }
}

/// The sender chat of a Telegram message, where the message was sent on
/// behalf of a chat (a channel post) rather than by a plain user.
pub struct TgSenderChat {
    pub is_channel: bool,
    pub title: Option<String>,
}

/// The media kind of an inbound Telegram message, with the file handle the
/// payload can be fetched by.
pub enum TgMediaKind {
    Text { text: String },
    Photo { file_id: String },
    Animation { file_id: String },
    Sticker { file_id: String, is_video: bool },
    Video { file_id: String },
    Document { file_id: String },
    Other,
}

/// An inbound Telegram message, reduced to what the relay decides on.
pub struct TgMessage {
    pub chat_id: i64,
    pub message_id: i32,
    pub sender_chat: Option<TgSenderChat>,
    pub from_full_name: Option<String>,
    pub media_kind: TgMediaKind,
    pub caption: Option<String>,
    pub reply_to: Option<(i64, i32)>,
}

/// The content type a Telegram media payload is re-uploaded under.
#[derive(Clone, Copy, PartialEq, Eq, Structural, Debug)]
pub enum TgContentType {
    ImageJpeg,
    VideoMp4,
    VideoWebm,
    ImageWebp,
    OctetStream,
}

impl TgContentType {
    /// Whether this content type carries video.
    pub open spec fn spec_is_video(self) -> bool {
        self == TgContentType::VideoMp4 || self == TgContentType::VideoWebm
    }

    /// Whether this content type carries video.
    pub fn is_video(&self) -> (b: bool)
        ensures
            b == self.spec_is_video(),
    {
        match self {
            TgContentType::VideoMp4 => true,
            TgContentType::VideoWebm => true,
            _ => false,
        }
    }

    /// The MIME name of this content type.
    pub fn mime_name(&self) -> (s: &'static str)
        ensures
            self == TgContentType::ImageJpeg ==> s@ == "image/jpeg"@,
            self == TgContentType::VideoMp4 ==> s@ == "video/mp4"@,
            self == TgContentType::VideoWebm ==> s@ == "video/webm"@,
            self == TgContentType::ImageWebp ==> s@ == "image/webp"@,
            self == TgContentType::OctetStream ==> s@ == "application/octet-stream"@,
    {
        match self {
            TgContentType::ImageJpeg => "image/jpeg",
            TgContentType::VideoMp4 => "video/mp4",
            TgContentType::VideoWebm => "video/webm",
            TgContentType::ImageWebp => "image/webp",
            TgContentType::OctetStream => "application/octet-stream",
        }
    }
}

/// Find the first bridge whose Matrix room id equals `room_id`.
///
/// Returns the index of that bridge, or `None` when the room is not
/// configured as a bridge endpoint (the caller drops the event silently).
pub fn find_by_source_room(bridges: &Vec<Bridge>, room_id: &String) -> (r: Option<usize>)
    ensures
        match r {
            Some(i) => {
                &&& i < bridges@.len()
                &&& bridges@[i as int].mx_id@ == room_id@
                &&& forall|j: int| 0 <= j < i ==> bridges@[j].mx_id@ != room_id@
            },
            None => forall|j: int|
                0 <= j < bridges@.len() ==> bridges@[j].mx_id@ != room_id@,
        },
{
    let mut i: usize = 0;
    while i < bridges.len()
        invariant
            i <= bridges@.len(),
            forall|j: int| 0 <= j < i ==> bridges@[j].mx_id@ != room_id@,
        decreases bridges@.len() - i,
    {
        if bridges[i].mx_id == *room_id {
            return Some(i);
        }
        i = i + 1;
    }
    None
}

/// Find the first bridge whose Telegram chat id equals `chat_id`.
///
/// Returns the index of that bridge, or `None` when the chat is not
/// configured as a bridge endpoint.
pub fn find_by_dest_chat(bridges: &Vec<Bridge>, chat_id: i64) -> (r: Option<usize>)
    ensures
        match r {
            Some(i) => {
                &&& i < bridges@.len()
                &&& bridges@[i as int].tg_id == chat_id
                &&& forall|j: int| 0 <= j < i ==> bridges@[j].tg_id != chat_id
            },
            None => forall|j: int| 0 <= j < bridges@.len() ==> bridges@[j].tg_id != chat_id,
        },
{
    let mut i: usize = 0;
    while i < bridges.len()
        invariant
            i <= bridges@.len(),
            forall|j: int| 0 <= j < i ==> bridges@[j].tg_id != chat_id,
        decreases bridges@.len() - i,
    {
        if bridges[i].tg_id == chat_id {
            return Some(i);
        }
        i = i + 1;
    }
    None
}

} // verus!
