use vstd::prelude::*;

verus! {

/// Body of a chat-fetch request.
#[derive(Debug, Clone, PartialEq, Eq)]
pub struct GetLiveChatBody {
    pub context: GetLiveChatBodyContext,
    pub continuation: String,
}

impl GetLiveChatBody {
    pub fn new(continuation: String, client_version: String, client_name: String) -> (r: Self)
        ensures
            r.continuation == continuation,
            r.context.client.client_version == client_version,
            r.context.client.client_name == client_name,
    {
        Self {
            context: GetLiveChatBodyContext {
                client: GetLiveChatBodyContextClient { client_version, client_name },
            },
            continuation,
        }
    }
}

#[derive(Debug, Clone, PartialEq, Eq)]
pub struct GetLiveChatBodyContext {
    pub client: GetLiveChatBodyContextClient,
}

#[derive(Debug, Clone, PartialEq, Eq)]
pub struct GetLiveChatBodyContextClient {
    pub client_version: String,
    pub client_name: String,
}

/// A decoded chat-fetch response.
#[derive(Debug)]
pub struct GetLiveChatResponse {
    pub tracking_params: Option<String>,
    pub continuation_contents: GetLiveChatResponseContinuationContents,
}

#[derive(Debug)]
pub struct GetLiveChatResponseContinuationContents {
    pub live_chat_continuaton: LiveChatContinuation,
}

#[derive(Debug)]
pub struct LiveChatContinuation {
    pub continuations: Vec<Continuation>,
    pub actions: Option<Vec<Action>>,
}

#[derive(Debug, Clone)]
pub struct Continuation {
    pub invalidation_continuation_data: Option<InvalidationContinuationData>,
    pub timed_continuation_data: Option<TimedContinuationData>,
}

#[derive(Debug, Clone)]
pub struct InvalidationContinuationData {
    pub invalidation_id: InvalidationId,
    pub timeout_ms: usize,
    pub continuation: String,
}

#[derive(Debug, Clone)]
pub struct InvalidationId {
    pub object_source: usize,
    pub object_id: String,
    pub topic: String,
    pub subscribe_to_gcm_topics: bool,
    pub proto_creation_timestamp_ms: String,
}

#[derive(Debug, Clone)]
pub struct TimedContinuationData {
    pub timeout_ms: usize,
    pub continuation: String,
    pub click_tracking_params: Option<String>,
}

#[derive(Debug)]
pub struct Action {
    pub add_chat_item_action: Option<AddChatItemAction>,
}

/// One fragment of a rich-text message.
#[derive(Debug, Clone)]
pub enum MessageRun {
    MessageText { text: String },
    MessageEmoji {
        emoji: Emoji,
        variant_ids: Option<Vec<String>>,
        is_custome_emoji: Option<bool>,
    },
}

#[derive(Debug, Clone)]
pub struct Emoji {
    pub emoji_id: String,
    pub shortcuts: Option<Vec<String>>,
    pub search_terms: Option<Vec<String>>,
    pub supports_skin_tone: Option<bool>,
    pub image: Image,
}

#[derive(Debug, Clone)]
pub struct Image {
    pub thumbnails: Vec<Thumbnail>,
    pub accessibility: Accessibility,
}

#[derive(Debug, Clone)]
pub struct Accessibility {
    pub accessibility_data: AccessibilityData,
}

#[derive(Debug, Clone)]
pub struct AccessibilityData {
    pub label: String,
}

#[derive(Debug, Clone)]
pub struct Thumbnail {
    pub url: String,
    pub width: Option<usize>,
    pub height: Option<usize>,
}

#[derive(Debug, Clone)]
pub struct AuthorBadge {
    pub live_chat_author_badge_renderer: LiveChatAuthorBadgeRenderer,
}

#[derive(Debug, Clone)]
pub struct LiveChatAuthorBadgeRenderer {
    pub custom_thumbnail: Option<CustomThumbnail>,
    pub icon: Option<Icon>,
    pub tooltip: String,
    pub accessibility: Accessibility,
}

#[derive(Debug, Clone)]
pub struct CustomThumbnail {
    pub thumbnails: Vec<Thumbnail>,
}

#[derive(Debug, Clone)]
pub struct Icon {
    pub icon_type: String,
}

/// The fields that every renderer shape shares.
#[derive(Debug, Clone)]
pub struct MessageRendererBase {
    pub author_name: Option<AuthorName>,
    pub author_photo: AuthorPhoto,
    pub author_badges: Option<Vec<AuthorBadge>>,
    pub context_menu_endpoint: ContextMenuEndpoint,
    pub id: String,
    pub timestamp_usec: String,
    pub author_external_channel_id: String,
    pub context_menu_accessibility: Accessibility,
}

#[derive(Debug, Clone)]
pub struct ContextMenuEndpoint {
    pub click_tracking_params: Option<String>,
    pub command_metadata: CommandMetadata,
    pub live_chat_item_context_menu_endpoint: LiveChatItemContextMenuEndpoint,
}

#[derive(Debug, Clone)]
pub struct LiveChatItemContextMenuEndpoint {
    pub params: String,
}

#[derive(Debug, Clone)]
pub struct CommandMetadata {
    pub web_command_metadata: WebCommandMetadata,
}

#[derive(Debug, Clone)]
pub struct WebCommandMetadata {
    pub ignore_navigation: bool,
}

#[derive(Debug, Clone)]
pub struct AuthorPhoto {
    pub thumbnails: Vec<Thumbnail>,
}

#[derive(Debug, Clone)]
pub struct AuthorName {
    pub simple_text: String,
}

#[derive(Debug)]
pub struct LiveChatTextMessageRenderer {
    pub message_renderer_base: MessageRendererBase,
    pub message: Message,
}

#[derive(Debug)]
pub struct Message {
    pub runs: Vec<MessageRun>,
}

#[derive(Debug)]
pub struct LiveChatPaidMessageRenderer {
    pub live_chat_text_message_renderer: LiveChatTextMessageRenderer,
    pub purchase_amount_text: PurchaseAmountText,
    pub header_background_color: isize,
    pub header_text_color: isize,
    pub body_background_color: isize,
    pub body_text_color: isize,
    pub author_name_text_color: isize,
}

#[derive(Debug)]
pub struct LiveChatPaidStickerRenderer {
    pub message_renderer_base: MessageRendererBase,
    pub purchase_amount_text: PurchaseAmountText,
    pub sticker: Sticker,
    pub money_chip_background_color: isize,
    pub money_chip_text_color: isize,
    pub sticker_display_width: isize,
    pub sticker_display_height: isize,
    pub background_color: isize,
    pub author_name_text_color: isize,
}

#[derive(Debug)]
pub struct Sticker {
    pub thumbnails: Vec<Thumbnail>,
    pub accessibility: Accessibility,
}

#[derive(Debug)]
pub struct PurchaseAmountText {
    pub simple_text: String,
}

#[derive(Debug)]
pub struct LiveChatMembershipItemRenderer {
    pub message_renderer_base: MessageRendererBase,
    pub header_sub_text: Option<HeaderSubText>,
    pub author_badges: Vec<AuthorBadge>,
}

#[derive(Debug)]
pub struct HeaderSubText {
    pub runs: Vec<MessageRun>,
}

#[derive(Debug)]
pub struct AddChatItemAction {
    pub item: ActionItem,
    pub client_id: Option<String>,
}

/// The renderer payloads an action may carry; at most one is expected.
#[derive(Debug)]
pub struct ActionItem {
    pub live_chat_text_message_renderer: Option<LiveChatTextMessageRenderer>,
    pub live_chat_paid_message_renderer: Option<LiveChatPaidMessageRenderer>,
    pub live_chat_membership_item_renderer: Option<LiveChatMembershipItemRenderer>,
    pub live_chat_paid_sticker_renderer: Option<LiveChatPaidStickerRenderer>,
}

} // verus!
