//! Configuration and post records shared with the feed-posting bots of the
//! same project: which boards are polled, for which rooms, and what a fetched
//! post carries. The polling itself lives outside the library.

use vstd::prelude::*;

verus! {

/// A user and the rooms their feeds post into.
pub struct User {
    pub id: String,
    pub name: String,
    pub chats: Vec<UserRoom>,
}

/// One room a user's feed posts into, with its filtering rules.
pub struct UserRoom {
    pub rating: String,
    pub whitelist: Option<Vec<String>>,
    pub id: String,
    pub name: String,
    pub caption: String,
    pub link: Option<String>,
    pub has_tags: bool,
    pub queue: Option<Vec<String>>,
    pub forward: Option<Vec<String>>,
}

/// One polled board and its query settings.
pub struct Booru {
    pub name: String,
    pub active: bool,
    pub amount: u64,
    pub rating: String,
    pub button: String,
    pub website: String,
    pub api_key: Option<String>,
    pub blacklist: Vec<String>,
    pub replace: Option<Vec<(String, String)>>,
    pub chats: Vec<BooruRoom>,
}

/// One room a board posts into, with the tags queried for it.
pub struct BooruRoom {
    pub id: String,
    pub tags: Vec<String>,
}

/// The posts one board query returned.
pub struct GelbooruSource {
    pub post: Option<Vec<BooruPost>>,
}

/// One fetched post.
pub struct BooruPost {
    pub id: u64,
    pub file_url: String,
    pub sample_url: String,
    pub md5: Option<String>,
    pub hash: Option<String>,
    pub tags: String,
    pub rating: String,
}

/// One fetched post of the other board flavour.
pub struct DanbooruPost {
    pub id: u64,
    pub rating: String,
    pub md5: String,
    pub tag_string: String,
    pub media_asset: DanbooruMediaAsset,
}

/// The variants a post's media comes in.
pub struct DanbooruMediaAsset {
    pub variants: Vec<DanbooruVariant>,
}

/// One size variant of a post's media.
pub struct DanbooruVariant {
    pub kind: String,
    pub url: String,
}

} // verus!
