use vstd::prelude::*;

verus! {

/// One normalised chat event.
#[derive(Debug, Clone, PartialEq, Eq)]
pub struct ChatItem {
    pub id: String,
    pub author: Author,
    pub message: Vec<MessageItem>,
    pub superchat: Option<SuperChat>,
    pub is_membership: bool,
    pub is_verified: bool,
    pub is_owner: bool,
    pub is_moderator: bool,
    pub timestamp: Option<Timestamp>,
}

/// An instant, as microseconds since the Unix epoch.
#[derive(Debug, Clone, Copy, PartialEq, Eq)]
pub struct Timestamp {
    pub unix_micros: i64,
}

#[derive(Debug, Clone, PartialEq, Eq)]
pub struct Author {
    pub name: Option<String>,
    pub thumbnail: Option<ImageItem>,
    pub channel_id: String,
    pub badge: Option<Badge>,
}

#[derive(Debug, Clone, PartialEq, Eq)]
pub enum MessageItem {
    Text(String),
    Emoji(EmojiItem),
}

#[derive(Debug, Clone, PartialEq, Eq)]
pub struct ImageItem {
    pub url: String,
    pub alt: Option<String>,
}

#[derive(Debug, Clone, PartialEq, Eq)]
pub struct EmojiItem {
    pub image_item: Option<ImageItem>,
    pub emoji_text: Option<String>,
    pub is_custome_emoji: Option<bool>,
}

#[derive(Debug, Clone, PartialEq, Eq)]
pub struct Badge {
    pub thumbnail: ImageItem,
    pub label: String,
}

#[derive(Debug, Clone, PartialEq, Eq)]
pub struct SuperChat {
    pub amount: String,
    pub color: String,
    pub sticker: Option<ImageItem>,
}

} // verus!
