use vstd::prelude::*;

use crate::error::{ChatError, MissingField};
use crate::request::RequestOptions;
use crate::color::{convert_color_to_hex6, is_native_color_text};
use crate::item::{Author, Badge, ChatItem, EmojiItem, ImageItem, MessageItem, SuperChat, Timestamp};
use crate::youtube_types::{
    Action, Continuation, GetLiveChatResponse, AuthorBadge, Icon, LiveChatMembershipItemRenderer, LiveChatPaidMessageRenderer,
    LiveChatPaidStickerRenderer, LiveChatTextMessageRenderer, MessageRendererBase, MessageRun,
    Thumbnail,
};

verus! {

/// Whether `c` is an ASCII decimal digit.
pub open spec fn is_decimal_digit(c: char) -> bool {
    '0' <= c && c <= '9'
}

/// Value of a sequence of decimal digits.
pub open spec fn digits_value(s: Seq<char>) -> int
    decreases s.len(),
{
    if s.len() == 0 {
        0
    } else {
        digits_value(s.drop_last()) * 10 + (s.last() as int - '0' as int)
    }
}

/// The integer that `s` writes in decimal: an optional `+` or `-`, then one or
/// more digits and nothing else, with a value that fits in an `i64`.
pub open spec fn decimal_i64(s: Seq<char>) -> Option<i64> {
    let negative = s.len() > 0 && s[0] == '-';
    let body = if s.len() > 0 && (s[0] == '-' || s[0] == '+') {
        s.drop_first()
    } else {
        s
    };
    let v = if negative {
        -digits_value(body)
    } else {
        digits_value(body)
    };
    if body.len() > 0 && (forall|i: int| 0 <= i < body.len() ==> is_decimal_digit(#[trigger] body[i]))
        && i64::MIN <= v <= i64::MAX {
        Some(v as i64)
    } else {
        None
    }
}

/// Relies on `str::parse::<i64>`: an optional sign followed by decimal digits,
/// rejected when anything else is present or the value leaves the `i64` range.
#[verifier::external_body]
fn parse_i64(s: &str) -> (r: Option<i64>)
    ensures
        r == decimal_i64(s@),
{
    s.parse::<i64>().ok()
}

/// The first thumbnail's URL, with `alt`; absent without thumbnails.
pub open spec fn image_of(thumbnails: Seq<Thumbnail>, alt: Option<String>) -> Option<ImageItem> {
    if thumbnails.len() == 0 {
        None
    } else {
        Some(ImageItem { url: thumbnails[0].url, alt })
    }
}

/// The first entry of an optional list of strings.
pub open spec fn first_string(strings: Option<Vec<String>>) -> Option<String> {
    match strings {
        Some(v) => if v@.len() > 0 {
            Some(v@[0])
        } else {
            None
        },
        None => None,
    }
}

/// The message item that one run becomes.
pub open spec fn message_item_of(run: MessageRun) -> MessageItem {
    match run {
        MessageRun::MessageText { text } => MessageItem::Text(text),
        MessageRun::MessageEmoji { emoji, variant_ids, is_custome_emoji } => {
            let shortcut = first_string(emoji.shortcuts);
            MessageItem::Emoji(
                EmojiItem {
                    image_item: image_of(emoji.image.thumbnails@, shortcut),
                    emoji_text: if is_custome_emoji == Some(true) {
                        shortcut
                    } else {
                        Some(emoji.emoji_id)
                    },
                    is_custome_emoji,
                },
            )
        },
    }
}

/// The message items of a run sequence, one per run, in order.
pub open spec fn message_items_of(runs: Seq<MessageRun>) -> Seq<MessageItem> {
    runs.map_values(|run: MessageRun| message_item_of(run))
}

/// Whether an icon marks the owner, a verified author or a moderator.
pub open spec fn is_owner_icon(icon: Option<Icon>) -> bool {
    match icon {
        Some(i) => i.icon_type@ == "OWNER"@ || i.icon_type@ == "VERIFIED"@ || i.icon_type@
            == "MODERATOR"@,
        None => false,
    }
}

/// What one badge does to a chat item.
pub open spec fn apply_badge(item: ChatItem, badge: AuthorBadge) -> ChatItem {
    let r = badge.live_chat_author_badge_renderer;
    match r.custom_thumbnail {
        Some(custom) => {
            let with_badge = match image_of(custom.thumbnails@, Some(r.tooltip)) {
                Some(image) => ChatItem {
                    author: Author {
                        badge: Some(Badge { thumbnail: image, label: r.tooltip }),
                        ..item.author
                    },
                    ..item
                },
                None => item,
            };
            ChatItem { is_membership: true, ..with_badge }
        },
        None => if is_owner_icon(r.icon) {
            ChatItem { is_owner: true, ..item }
        } else {
            item
        },
    }
}

/// What a badge list does to a chat item, badge by badge in order.
pub open spec fn apply_badges(item: ChatItem, badges: Seq<AuthorBadge>) -> ChatItem
    decreases badges.len(),
{
    if badges.len() == 0 {
        item
    } else {
        apply_badge(apply_badges(item, badges.drop_last()), badges.last())
    }
}

/// The timestamp that a microsecond count in decimal gives.
pub open spec fn timestamp_of(usec: Seq<char>) -> Option<Timestamp> {
    match decimal_i64(usec) {
        Some(v) => Some(Timestamp { unix_micros: v }),
        None => None,
    }
}

/// One of the four renderer payload shapes.
pub enum Renderer {
    LiveChatTextMessageRenderer(LiveChatTextMessageRenderer),
    LiveChatPaidMessageRenderer(LiveChatPaidMessageRenderer),
    LiveChatMembershipItemRenderer(LiveChatMembershipItemRenderer),
    LiveChatPaidStickerRenderer(LiveChatPaidStickerRenderer),
}

impl Renderer {
    /// The shared fields, wherever the shape keeps them.
    pub open spec fn base_spec(self) -> MessageRendererBase {
        match self {
            Renderer::LiveChatTextMessageRenderer(r) => r.message_renderer_base,
            Renderer::LiveChatPaidMessageRenderer(r) => r.live_chat_text_message_renderer.message_renderer_base,
            Renderer::LiveChatMembershipItemRenderer(r) => r.message_renderer_base,
            Renderer::LiveChatPaidStickerRenderer(r) => r.message_renderer_base,
        }
    }

    pub open spec fn runs_spec(self) -> Seq<MessageRun> {
        match self {
            Renderer::LiveChatTextMessageRenderer(r) => r.message.runs@,
            Renderer::LiveChatPaidMessageRenderer(r) => r.live_chat_text_message_renderer.message.runs@,
            Renderer::LiveChatMembershipItemRenderer(r) => match r.header_sub_text {
                Some(h) => h.runs@,
                None => Seq::empty(),
            },
            Renderer::LiveChatPaidStickerRenderer(_) => Seq::empty(),
        }
    }

    pub open spec fn author_name_spec(self) -> Option<String> {
        match self.base_spec().author_name {
            Some(n) => Some(n.simple_text),
            None => None,
        }
    }

    pub open spec fn badges_spec(self) -> Seq<AuthorBadge> {
        match self.base_spec().author_badges {
            Some(b) => b@,
            None => Seq::empty(),
        }
    }

    /// Whether `sc` is the superchat of this payload: none for plain text and
    /// membership events, the purchase text and background colour otherwise, and
    /// for a sticker its first image with the sticker's accessibility label.
    pub open spec fn superchat_matches(self, sc: Option<SuperChat>) -> bool {
        match self {
            Renderer::LiveChatTextMessageRenderer(_) => sc is None,
            Renderer::LiveChatMembershipItemRenderer(_) => sc is None,
            Renderer::LiveChatPaidMessageRenderer(r) => match sc {
                Some(s) => {
                    &&& s.amount == r.purchase_amount_text.simple_text
                    &&& is_native_color_text(r.body_background_color, s.color@)
                    &&& s.sticker is None
                },
                None => false,
            },
            Renderer::LiveChatPaidStickerRenderer(r) => match sc {
                Some(s) => {
                    &&& s.amount == r.purchase_amount_text.simple_text
                    &&& is_native_color_text(r.background_color, s.color@)
                    &&& s.sticker == image_of(
                        r.sticker.thumbnails@,
                        Some(r.sticker.accessibility.accessibility_data.label),
                    )
                },
                None => false,
            },
        }
    }

    pub fn base(&self) -> (r: &MessageRendererBase)
        ensures
            *r == self.base_spec(),
    {
        match self {
            Renderer::LiveChatTextMessageRenderer(r) => &r.message_renderer_base,
            Renderer::LiveChatPaidMessageRenderer(r) => &r.live_chat_text_message_renderer.message_renderer_base,
            Renderer::LiveChatMembershipItemRenderer(r) => &r.message_renderer_base,
            Renderer::LiveChatPaidStickerRenderer(r) => &r.message_renderer_base,
        }
    }

    pub fn runs(&self) -> (r: &[MessageRun])
        ensures
            r@ == self.runs_spec(),
    {
        match self {
            Renderer::LiveChatTextMessageRenderer(r) => r.message.runs.as_slice(),
            Renderer::LiveChatPaidMessageRenderer(r) => r.live_chat_text_message_renderer.message.runs.as_slice(),
            Renderer::LiveChatMembershipItemRenderer(r) => match &r.header_sub_text {
                Some(h) => h.runs.as_slice(),
                None => &[],
            },
            Renderer::LiveChatPaidStickerRenderer(_) => &[],
        }
    }

    pub fn author_name(&self) -> (r: Option<String>)
        ensures
            r == self.author_name_spec(),
    {
        match &self.base().author_name {
            Some(n) => Some(n.simple_text.clone()),
            None => None,
        }
    }

    pub fn id(&self) -> (r: String)
        ensures
            r == self.base_spec().id,
    {
        self.base().id.clone()
    }

    pub fn thumbnails(&self) -> (r: &Vec<Thumbnail>)
        ensures
            *r == self.base_spec().author_photo.thumbnails,
    {
        &self.base().author_photo.thumbnails
    }

    pub fn channel_id(&self) -> (r: String)
        ensures
            r == self.base_spec().author_external_channel_id,
    {
        self.base().author_external_channel_id.clone()
    }

    /// The instant the payload was sent; absent when its microsecond count does
    /// not parse as an integer.
    pub fn time_stamp(&self) -> (r: Option<Timestamp>)
        ensures
            r == timestamp_of(self.base_spec().timestamp_usec@),
    {
        match parse_i64(self.base().timestamp_usec.as_str()) {
            Some(v) => Some(Timestamp { unix_micros: v }),
            None => None,
        }
    }

    pub fn author_badge(&self) -> (r: Option<&Vec<AuthorBadge>>)
        ensures
            r == match self.base_spec().author_badges {
                Some(b) => Some(&b),
                None => None::<&Vec<AuthorBadge>>,
            },
    {
        self.base().author_badges.as_ref()
    }

    /// Sets the membership, owner and badge fields of `chat_item` from the
    /// payload's badge list; the flags are only ever set, never cleared.
    pub fn process_badge(&self, chat_item: &mut ChatItem)
        ensures
            *final(chat_item) == apply_badges(*old(chat_item), self.badges_spec()),
    {
        match self.author_badge() {
            Some(author_badges) => {
                let n = author_badges.len();
                let mut i: usize = 0;
                while i < n
                    invariant
                        n == author_badges@.len(),
                        author_badges@ == self.badges_spec(),
                        0 <= i <= n,
                        *chat_item == apply_badges(*old(chat_item), author_badges@.take(i as int)),
                    decreases n - i,
                {
                    apply_one_badge(chat_item, &author_badges[i]);
                    proof {
                        assert(author_badges@.take(i + 1).drop_last() =~= author_badges@.take(i as int));
                    }
                    i = i + 1;
                }
                proof {
                    assert(author_badges@.take(n as int) =~= author_badges@);
                }
            },
            None => {},
        }
    }

    pub fn superchat(&self) -> (r: Option<SuperChat>)
        ensures
            self.superchat_matches(r),
    {
        match self {
            Renderer::LiveChatTextMessageRenderer(_) => None,
            Renderer::LiveChatPaidMessageRenderer(r) => Some(
                SuperChat {
                    amount: r.purchase_amount_text.simple_text.clone(),
                    color: convert_color_to_hex6(r.body_background_color),
                    sticker: None,
                },
            ),
            Renderer::LiveChatMembershipItemRenderer(_) => None,
            Renderer::LiveChatPaidStickerRenderer(r) => Some(
                SuperChat {
                    amount: r.purchase_amount_text.simple_text.clone(),
                    color: convert_color_to_hex6(r.background_color),
                    sticker: parse_thumbnails_to_image_item(
                        r.sticker.thumbnails.as_slice(),
                        Some(r.sticker.accessibility.accessibility_data.label.clone()),
                    ),
                },
            ),
        }
    }
}

impl From<LiveChatTextMessageRenderer> for Renderer {
    fn from(value: LiveChatTextMessageRenderer) -> (r: Self) {
        Renderer::LiveChatTextMessageRenderer(value)
    }
}

impl vstd::std_specs::convert::FromSpecImpl<LiveChatTextMessageRenderer> for Renderer {
    open spec fn obeys_from_spec() -> bool {
        true
    }

    open spec fn from_spec(value: LiveChatTextMessageRenderer) -> Self {
        Renderer::LiveChatTextMessageRenderer(value)
    }
}

impl From<LiveChatPaidMessageRenderer> for Renderer {
    fn from(value: LiveChatPaidMessageRenderer) -> (r: Self) {
        Renderer::LiveChatPaidMessageRenderer(value)
    }
}

impl vstd::std_specs::convert::FromSpecImpl<LiveChatPaidMessageRenderer> for Renderer {
    open spec fn obeys_from_spec() -> bool {
        true
    }

    open spec fn from_spec(value: LiveChatPaidMessageRenderer) -> Self {
        Renderer::LiveChatPaidMessageRenderer(value)
    }
}

impl From<LiveChatMembershipItemRenderer> for Renderer {
    fn from(value: LiveChatMembershipItemRenderer) -> (r: Self) {
        Renderer::LiveChatMembershipItemRenderer(value)
    }
}

impl vstd::std_specs::convert::FromSpecImpl<LiveChatMembershipItemRenderer> for Renderer {
    open spec fn obeys_from_spec() -> bool {
        true
    }

    open spec fn from_spec(value: LiveChatMembershipItemRenderer) -> Self {
        Renderer::LiveChatMembershipItemRenderer(value)
    }
}

impl From<LiveChatPaidStickerRenderer> for Renderer {
    fn from(value: LiveChatPaidStickerRenderer) -> (r: Self) {
        Renderer::LiveChatPaidStickerRenderer(value)
    }
}

impl vstd::std_specs::convert::FromSpecImpl<LiveChatPaidStickerRenderer> for Renderer {
    open spec fn obeys_from_spec() -> bool {
        true
    }

    open spec fn from_spec(value: LiveChatPaidStickerRenderer) -> Self {
        Renderer::LiveChatPaidStickerRenderer(value)
    }
}

fn is_owner_icon_exec(icon: &Option<Icon>) -> (r: bool)
    ensures
        r == is_owner_icon(*icon),
{
    match icon {
        Some(i) => {
            i.icon_type == "OWNER".to_owned() || i.icon_type == "VERIFIED".to_owned() || i.icon_type
                == "MODERATOR".to_owned()
        },
        None => false,
    }
}

/// Applies one badge to `chat_item`.
fn apply_one_badge(chat_item: &mut ChatItem, author_badge: &AuthorBadge)
    ensures
        *final(chat_item) == apply_badge(*old(chat_item), *author_badge),
{
    let badge_renderer = &author_badge.live_chat_author_badge_renderer;
    match &badge_renderer.custom_thumbnail {
        Some(custom_thumbnail) => {
            let tooltip = badge_renderer.tooltip.clone();
            match parse_thumbnails_to_image_item(
                custom_thumbnail.thumbnails.as_slice(),
                Some(tooltip.clone()),
            ) {
                Some(thumbnail) => {
                    chat_item.author.badge = Some(Badge { thumbnail, label: tooltip });
                },
                None => {},
            }
            chat_item.is_membership = true;
        },
        None => {
            if is_owner_icon_exec(&badge_renderer.icon) {
                chat_item.is_owner = true;
            }
        },
    }
}

/// The first thumbnail as an image with the given alternative text.
pub fn parse_thumbnails_to_image_item(thumbnails: &[Thumbnail], alt: Option<String>) -> (r: Option<
    ImageItem,
>)
    ensures
        r == image_of(thumbnails@, alt),
{
    if thumbnails.len() == 0 {
        None
    } else {
        Some(ImageItem { url: thumbnails[0].url.clone(), alt })
    }
}

fn first_string_exec(strings: &Option<Vec<String>>) -> (r: Option<String>)
    ensures
        r == first_string(*strings),
{
    match strings {
        Some(v) => if v.len() > 0 {
            Some(v[0].clone())
        } else {
            None
        },
        None => None,
    }
}

fn parse_run(run: &MessageRun) -> (r: MessageItem)
    ensures
        r == message_item_of(*run),
{
    match run {
        MessageRun::MessageText { text } => MessageItem::Text(text.clone()),
        MessageRun::MessageEmoji { emoji, variant_ids: _, is_custome_emoji } => {
            let shortcut = first_string_exec(&emoji.shortcuts);
            let image_item = parse_thumbnails_to_image_item(
                emoji.image.thumbnails.as_slice(),
                shortcut.clone(),
            );
            let emoji_text = if *is_custome_emoji == Some(true) {
                shortcut
            } else {
                Some(emoji.emoji_id.clone())
            };
            MessageItem::Emoji(
                EmojiItem { image_item, emoji_text, is_custome_emoji: *is_custome_emoji },
            )
        },
    }
}

/// Decodes a run sequence into message items, one per run, in order.
pub fn parse_message(runs: &[MessageRun]) -> (r: Vec<MessageItem>)
    ensures
        r@ == message_items_of(runs@),
{
    let mut items: Vec<MessageItem> = Vec::new();
    let n = runs.len();
    let mut i: usize = 0;
    while i < n
        invariant
            n == runs@.len(),
            0 <= i <= n,
            items@ == message_items_of(runs@.take(i as int)),
        decreases n - i,
    {
        let item = parse_run(&runs[i]);
        items.push(item);
        proof {
            assert(message_items_of(runs@.take(i + 1)) =~= message_items_of(runs@.take(i as int)).push(item));
        }
        i = i + 1;
    }
    proof {
        assert(runs@.take(n as int) =~= runs@);
    }
    items
}

/// The renderer an action carries: the first present among plain text, paid
/// message, membership event and paid sticker, in that order.
pub open spec fn renderer_of(action: Action) -> Option<Renderer> {
    match action.add_chat_item_action {
        Some(a) => {
            let item = a.item;
            if let Some(r) = item.live_chat_text_message_renderer {
                Some(Renderer::LiveChatTextMessageRenderer(r))
            } else if let Some(r) = item.live_chat_paid_message_renderer {
                Some(Renderer::LiveChatPaidMessageRenderer(r))
            } else if let Some(r) = item.live_chat_membership_item_renderer {
                Some(Renderer::LiveChatMembershipItemRenderer(r))
            } else if let Some(r) = item.live_chat_paid_sticker_renderer {
                Some(Renderer::LiveChatPaidStickerRenderer(r))
            } else {
                None
            }
        },
        None => None,
    }
}

/// `item` with the fields that badges decide put back to their starting values.
pub open spec fn without_badges(item: ChatItem) -> ChatItem {
    ChatItem {
        author: Author { badge: None, ..item.author },
        is_membership: false,
        is_verified: false,
        is_owner: false,
        is_moderator: false,
        ..item
    }
}

/// Whether `item` is the chat item built from renderer `r`: its id, author,
/// message, timestamp and superchat come from the payload, all four flags start
/// false, and the payload's badges are then applied.
pub open spec fn chat_item_matches(item: ChatItem, r: Renderer) -> bool {
    let base = r.base_spec();
    &&& item.id == base.id
    &&& item.author.name == r.author_name_spec()
    &&& item.author.thumbnail == image_of(base.author_photo.thumbnails@, r.author_name_spec())
    &&& item.author.channel_id == base.author_external_channel_id
    &&& item.message@ == message_items_of(r.runs_spec())
    &&& item.timestamp == timestamp_of(base.timestamp_usec@)
    &&& r.superchat_matches(item.superchat)
    &&& item == apply_badges(without_badges(item), r.badges_spec())
}

/// Whether `items` are the chat items of `actions`, in order, one for each
/// action that carries a known renderer.
pub open spec fn chat_items_match(items: Seq<ChatItem>, actions: Seq<Action>) -> bool
    decreases actions.len(),
{
    if actions.len() == 0 {
        items.len() == 0
    } else {
        match renderer_of(actions.last()) {
            Some(r) => {
                &&& items.len() > 0
                &&& chat_item_matches(items.last(), r)
                &&& chat_items_match(items.drop_last(), actions.drop_last())
            },
            None => chat_items_match(items, actions.drop_last()),
        }
    }
}

/// The next continuation token: from the first continuation entry, its
/// invalidation token, else its timed token, else empty.
pub open spec fn next_continuation(continuations: Seq<Continuation>) -> Seq<char> {
    if continuations.len() == 0 {
        Seq::empty()
    } else {
        let c = continuations[0];
        match c.invalidation_continuation_data {
            Some(d) => d.continuation@,
            None => match c.timed_continuation_data {
                Some(t) => t.continuation@,
                None => Seq::empty(),
            },
        }
    }
}

/// The actions of a response; none when the list is absent.
pub open spec fn actions_of(data: GetLiveChatResponse) -> Seq<Action> {
    match data.continuation_contents.live_chat_continuaton.actions {
        Some(a) => a@,
        None => Seq::empty(),
    }
}

pub fn renderer_from_action(action: Action) -> (r: Option<Renderer>)
    ensures
        r == renderer_of(action),
{
    match action.add_chat_item_action {
        Some(a) => {
            let item = a.item;
            if let Some(r) = item.live_chat_text_message_renderer {
                Some(Renderer::from(r))
            } else if let Some(r) = item.live_chat_paid_message_renderer {
                Some(Renderer::from(r))
            } else if let Some(r) = item.live_chat_membership_item_renderer {
                Some(Renderer::from(r))
            } else if let Some(r) = item.live_chat_paid_sticker_renderer {
                Some(Renderer::from(r))
            } else {
                None
            }
        },
        None => None,
    }
}

/// Builds the chat item of one action; absent when the action carries no known
/// renderer.
pub fn parse_action_to_chat_item(action: Action) -> (r: Option<ChatItem>)
    ensures
        match renderer_of(action) {
            Some(rd) => r matches Some(item) && chat_item_matches(item, rd),
            None => r is None,
        },
{
    let message_renderer = match renderer_from_action(action) {
        Some(m) => m,
        None => return None,
    };
    let author_name_text = message_renderer.author_name();
    let id = message_renderer.id();
    let thumbnail = parse_thumbnails_to_image_item(
        message_renderer.thumbnails().as_slice(),
        author_name_text.clone(),
    );
    let channel_id = message_renderer.channel_id();
    let message = parse_message(message_renderer.runs());
    let timestamp = message_renderer.time_stamp();
    let superchat = message_renderer.superchat();
    let mut chat_item = ChatItem {
        id,
        author: Author { name: author_name_text, thumbnail, channel_id, badge: None },
        message,
        superchat,
        is_membership: false,
        is_verified: false,
        is_owner: false,
        is_moderator: false,
        timestamp,
    };
    let ghost fresh = chat_item;
    message_renderer.process_badge(&mut chat_item);
    proof {
        lemma_badges_keep_other_fields(fresh, message_renderer.badges_spec());
        assert(without_badges(chat_item) == fresh);
    }
    Some(chat_item)
}

/// Applying badges changes only the badge and the flags.
pub proof fn lemma_badges_keep_other_fields(item: ChatItem, badges: Seq<AuthorBadge>)
    ensures
        without_badges(apply_badges(item, badges)) == without_badges(item),
    decreases badges.len(),
{
    if badges.len() > 0 {
        lemma_badges_keep_other_fields(item, badges.drop_last());
    }
}

/// Maps a chat-fetch response to its chat items, in action order and skipping
/// actions without a known renderer, and the next continuation token (empty when
/// the response offers none, which ends the stream).
pub fn parse_chat_data(data: GetLiveChatResponse) -> (r: (Vec<ChatItem>, String))
    ensures
        chat_items_match(r.0@, actions_of(data)),
        r.1@ == next_continuation(data.continuation_contents.live_chat_continuaton.continuations@),
{
    let ghost all_actions = actions_of(data);
    let live = data.continuation_contents.live_chat_continuaton;
    let mut chat_items: Vec<ChatItem> = Vec::new();
    match live.actions {
        Some(actions) => {
            let mut rest = actions;
            let ghost total = rest@.len();
            proof {
                assert(all_actions.skip(0) =~= all_actions);
                assert(all_actions.take(0) =~= Seq::<Action>::empty());
            }
            while rest.len() > 0
                invariant
                    total == all_actions.len(),
                    rest@.len() <= total,
                    rest@ == all_actions.skip(total - rest@.len()),
                    chat_items_match(chat_items@, all_actions.take(total - rest@.len())),
                decreases rest@.len(),
            {
                let ghost done = total - rest@.len();
                let action = rest.remove(0);
                proof {
                    assert(all_actions.skip(done)[0] == all_actions[done]);
                    assert(action == all_actions[done]);
                    assert(all_actions.take(done + 1).drop_last() =~= all_actions.take(done));
                    assert(rest@ =~= all_actions.skip(done + 1));
                }
                match parse_action_to_chat_item(action) {
                    Some(chat_item) => {
                        let ghost before = chat_items@;
                        chat_items.push(chat_item);
                        proof {
                            assert(chat_items@.drop_last() =~= before);
                        }
                    },
                    None => {},
                }
            }
            proof {
                assert(all_actions.take(total as int) =~= all_actions);
            }
        },
        None => {},
    }
    let mut continuations = live.continuations;
    let continuation = if continuations.len() > 0 {
        let first = continuations.swap_remove(0);
        match first.invalidation_continuation_data {
            Some(d) => d.continuation,
            None => match first.timed_continuation_data {
                Some(t) => t.continuation,
                None => String::new(),
            },
        }
    } else {
        String::new()
    };
    (chat_items, continuation)
}

/// The canonical link of a watch page; group 1 is the live id.
pub const LIVE_ID_PATTERN: &'static str = r#"<link rel="canonical" href="https://www.youtube.com/watch\?v=(.+?)">"#;

/// The marker of a finished broadcast.
pub const REPLAY_PATTERN: &'static str = r#"['"]isReplay['"]:\s*(true)"#;

/// The API key field; group 1 is the key.
pub const API_KEY_PATTERN: &'static str = r#"['"]INNERTUBE_API_KEY['"]:\s*['"](.+?)['"]"#;

/// The client version field, digits and dots; group 1 is the version.
pub const CLIENT_VERSION_PATTERN: &'static str = r#"['"]clientVersion['"]:\s*['"]([\d.]+?)['"]"#;

/// The initial continuation field; group 1 is the token.
pub const CONTINUATION_PATTERN: &'static str = r#"['"]continuation['"]:\s*['"](.+?)['"]"#;

/// The text of capture group 1 in the leftmost match of regular expression
/// `pattern` in `text`; absent without a match or when `pattern` does not compile.
pub uninterp spec fn regex_capture(pattern: Seq<char>, text: Seq<char>) -> Option<Seq<char>>;

/// Whether regular expression `pattern` compiles and matches somewhere in `text`.
pub uninterp spec fn regex_finds(pattern: Seq<char>, text: Seq<char>) -> bool;

/// Relies on `regex::Regex::new`, `Regex::captures` and `Captures::get`: the text
/// of group 1 of the leftmost match.
#[verifier::external_body]
fn first_capture(pattern: &str, text: &str) -> (r: Option<String>)
    ensures
        match r {
            Some(s) => regex_capture(pattern@, text@) == Some(s@),
            None => regex_capture(pattern@, text@) is None,
        },
{
    let re = match regex::Regex::new(pattern) {
        Ok(re) => re,
        Err(_) => return None,
    };
    match re.captures(text) {
        Some(captures) => match captures.get(1) {
            Some(m) => Some(m.as_str().to_string()),
            None => None,
        },
        None => None,
    }
}

/// Relies on `regex::Regex::new` and `Regex::is_match`: whether the pattern
/// matches anywhere in the text.
#[verifier::external_body]
fn finds_match(pattern: &str, text: &str) -> (r: bool)
    ensures
        r == regex_finds(pattern@, text@),
{
    match regex::Regex::new(pattern) {
        Ok(re) => re.is_match(text),
        Err(_) => false,
    }
}

pub open spec fn view_opt(s: Option<String>) -> Option<Seq<char>> {
    match s {
        Some(v) => Some(v@),
        None => None,
    }
}

/// A session result as text: API key, client version, continuation and live id.
pub open spec fn session_view(r: Result<(RequestOptions, String), ChatError>) -> Result<
    (Seq<char>, Seq<char>, Seq<char>, Seq<char>),
    ChatError,
> {
    match r {
        Ok((o, live_id)) => Ok((o.api_key@, o.client_version@, o.continuation@, live_id@)),
        Err(e) => Err(e),
    }
}

/// The session that the matches on a watch page give, checked in order: the
/// live id, the absence of the replay marker, the API key, the client version
/// and the continuation.
pub open spec fn session_outcome(
    live_id: Option<Seq<char>>,
    replay: bool,
    api_key: Option<Seq<char>>,
    client_version: Option<Seq<char>>,
    continuation: Option<Seq<char>>,
) -> Result<(Seq<char>, Seq<char>, Seq<char>, Seq<char>), ChatError> {
    match live_id {
        None => Err(ChatError::NotFound),
        Some(id) => if replay {
            Err(ChatError::AlreadyEnded)
        } else {
            match (api_key, client_version, continuation) {
                (None, _, _) => Err(ChatError::SchemaMismatch(MissingField::ApiKey)),
                (Some(_), None, _) => Err(ChatError::SchemaMismatch(MissingField::ClientVersion)),
                (Some(_), Some(_), None) => Err(ChatError::SchemaMismatch(MissingField::Continuation)),
                (Some(k), Some(v), Some(c)) => Ok((k, v, c, id)),
            }
        },
    }
}

/// The session of a watch page, through the five patterns.
pub open spec fn page_session(page: Seq<char>) -> Result<
    (Seq<char>, Seq<char>, Seq<char>, Seq<char>),
    ChatError,
> {
    session_outcome(
        regex_capture(LIVE_ID_PATTERN@, page),
        regex_finds(REPLAY_PATTERN@, page),
        regex_capture(API_KEY_PATTERN@, page),
        regex_capture(CLIENT_VERSION_PATTERN@, page),
        regex_capture(CONTINUATION_PATTERN@, page),
    )
}

/// Assembles session parameters and the live id from what the five patterns
/// found on a watch page.
pub fn session_from_matches(
    live_id: Option<String>,
    replay: bool,
    api_key: Option<String>,
    client_version: Option<String>,
    continuation: Option<String>,
) -> (r: Result<(RequestOptions, String), ChatError>)
    ensures
        session_view(r) == session_outcome(
            view_opt(live_id),
            replay,
            view_opt(api_key),
            view_opt(client_version),
            view_opt(continuation),
        ),
{
    let live_id = match live_id {
        Some(id) => id,
        None => return Err(ChatError::NotFound),
    };
    if replay {
        return Err(ChatError::AlreadyEnded);
    }
    let api_key = match api_key {
        Some(k) => k,
        None => return Err(ChatError::SchemaMismatch(MissingField::ApiKey)),
    };
    let client_version = match client_version {
        Some(v) => v,
        None => return Err(ChatError::SchemaMismatch(MissingField::ClientVersion)),
    };
    let continuation = match continuation {
        Some(c) => c,
        None => return Err(ChatError::SchemaMismatch(MissingField::Continuation)),
    };
    Ok((RequestOptions { api_key, client_version, continuation }, live_id))
}

/// Extracts the session parameters and the live id from a watch page body.
pub fn get_options_from_live_page(data: String) -> (r: Result<(RequestOptions, String), ChatError>)
    ensures
        session_view(r) == page_session(data@),
{
    let page = data.as_str();
    let live_id = first_capture(LIVE_ID_PATTERN, page);
    let replay = finds_match(REPLAY_PATTERN, page);
    let api_key = first_capture(API_KEY_PATTERN, page);
    let client_version = first_capture(CLIENT_VERSION_PATTERN, page);
    let continuation = first_capture(CONTINUATION_PATTERN, page);
    session_from_matches(live_id, replay, api_key, client_version, continuation)
}

/// A watch page on which all five patterns match and no replay marker appears
/// gives exactly the matched texts as its session.
pub proof fn lemma_live_page_gives_its_matches(page: Seq<char>)
    requires
        regex_capture(LIVE_ID_PATTERN@, page) is Some,
        !regex_finds(REPLAY_PATTERN@, page),
        regex_capture(API_KEY_PATTERN@, page) is Some,
        regex_capture(CLIENT_VERSION_PATTERN@, page) is Some,
        regex_capture(CONTINUATION_PATTERN@, page) is Some,
    ensures
        page_session(page) == Ok::<(Seq<char>, Seq<char>, Seq<char>, Seq<char>), ChatError>(
            (
                regex_capture(API_KEY_PATTERN@, page)->Some_0,
                regex_capture(CLIENT_VERSION_PATTERN@, page)->Some_0,
                regex_capture(CONTINUATION_PATTERN@, page)->Some_0,
                regex_capture(LIVE_ID_PATTERN@, page)->Some_0,
            ),
        ),
{
}

/// A watch page with a live id and the replay marker always gives
/// `AlreadyEnded`, whatever else it holds.
pub proof fn lemma_replay_marker_means_ended(page: Seq<char>)
    requires
        regex_capture(LIVE_ID_PATTERN@, page) is Some,
        regex_finds(REPLAY_PATTERN@, page),
    ensures
        page_session(page) == Err::<(Seq<char>, Seq<char>, Seq<char>, Seq<char>), ChatError>(
            ChatError::AlreadyEnded,
        ),
{
}

/// A response without actions has no chat items.
pub proof fn lemma_no_actions_no_items(items: Seq<ChatItem>, actions: Seq<Action>)
    requires
        actions.len() == 0,
        chat_items_match(items, actions),
    ensures
        items.len() == 0,
{
}

/// When the first continuation entry carries an invalidation token, that token is
/// the next continuation, whether or not a timed token is present too.
pub proof fn lemma_invalidation_token_wins(continuations: Seq<Continuation>)
    requires
        continuations.len() > 0,
        continuations[0].invalidation_continuation_data is Some,
    ensures
        next_continuation(continuations)
            == continuations[0].invalidation_continuation_data->Some_0.continuation@,
{
}

/// Decoding keeps the runs' order: one item per run, the `i`-th from the `i`-th
/// run, and a text run gives its text unchanged.
pub proof fn lemma_runs_decode_in_order(runs: Seq<MessageRun>)
    ensures
        message_items_of(runs).len() == runs.len(),
        forall|i: int| 0 <= i < runs.len() ==> #[trigger] message_items_of(runs)[i] == message_item_of(runs[i]),
        forall|i: int| 0 <= i < runs.len() && (#[trigger] runs[i]) is MessageText ==> message_items_of(runs)[i]
            == MessageItem::Text(runs[i]->MessageText_text),
{
}

/// Badges only ever set flags: membership and owner stay set once set, and the
/// verified and moderator flags are left as they were.
pub proof fn lemma_badges_only_set_flags(item: ChatItem, badges: Seq<AuthorBadge>)
    ensures
        item.is_membership ==> apply_badges(item, badges).is_membership,
        item.is_owner ==> apply_badges(item, badges).is_owner,
        apply_badges(item, badges).is_verified == item.is_verified,
        apply_badges(item, badges).is_moderator == item.is_moderator,
    decreases badges.len(),
{
    if badges.len() > 0 {
        lemma_badges_only_set_flags(item, badges.drop_last());
    }
}

/// A badge with a custom thumbnail sets the membership flag, even when the
/// thumbnail has no image to offer.
pub proof fn lemma_custom_thumbnail_sets_membership(
    item: ChatItem,
    badges: Seq<AuthorBadge>,
    i: int,
)
    requires
        0 <= i < badges.len(),
        badges[i].live_chat_author_badge_renderer.custom_thumbnail is Some,
    ensures
        apply_badges(item, badges).is_membership,
    decreases badges.len(),
{
    if i == badges.len() - 1 {
    } else {
        lemma_custom_thumbnail_sets_membership(item, badges.drop_last(), i);
        let prefix = apply_badges(item, badges.drop_last());
        lemma_badges_only_set_flags(prefix, seq![badges.last()]);
        assert(seq![badges.last()].drop_last() =~= Seq::<AuthorBadge>::empty());
    }
}

} // verus!
