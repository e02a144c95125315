use youtube_chat::error::{ChatError, MissingField};
use youtube_chat::item::{Badge, ImageItem, MessageItem, Timestamp};
use youtube_chat::parser::{
    get_options_from_live_page, parse_action_to_chat_item, parse_chat_data, parse_message,
    parse_thumbnails_to_image_item, renderer_from_action, session_from_matches, Renderer,
};
use youtube_chat::request::RequestOptions;
use youtube_chat::youtube_types::{
    Accessibility, AccessibilityData, Action, ActionItem, AddChatItemAction, AuthorBadge,
    AuthorName, AuthorPhoto, CommandMetadata, ContextMenuEndpoint, Continuation, CustomThumbnail,
    Emoji, GetLiveChatResponse, GetLiveChatResponseContinuationContents, HeaderSubText, Icon,
    Image, InvalidationContinuationData, InvalidationId, LiveChatAuthorBadgeRenderer,
    LiveChatContinuation, LiveChatItemContextMenuEndpoint, LiveChatMembershipItemRenderer,
    LiveChatPaidMessageRenderer, LiveChatPaidStickerRenderer, LiveChatTextMessageRenderer,
    Message, MessageRendererBase, MessageRun, PurchaseAmountText, Sticker, Thumbnail,
    TimedContinuationData, WebCommandMetadata,
};

fn thumb(url: &str) -> Thumbnail {
    Thumbnail { url: url.to_string(), width: Some(32), height: Some(32) }
}

fn accessibility(label: &str) -> Accessibility {
    Accessibility { accessibility_data: AccessibilityData { label: label.to_string() } }
}

fn base(id: &str, name: Option<&str>, channel: &str, badges: Option<Vec<AuthorBadge>>) -> MessageRendererBase {
    MessageRendererBase {
        author_name: name.map(|n| AuthorName { simple_text: n.to_string() }),
        author_photo: AuthorPhoto { thumbnails: vec![thumb("https://photo/1"), thumb("https://photo/2")] },
        author_badges: badges,
        context_menu_endpoint: ContextMenuEndpoint {
            click_tracking_params: None,
            command_metadata: CommandMetadata {
                web_command_metadata: WebCommandMetadata { ignore_navigation: true },
            },
            live_chat_item_context_menu_endpoint: LiveChatItemContextMenuEndpoint {
                params: "p".to_string(),
            },
        },
        id: id.to_string(),
        timestamp_usec: "1700000000123456".to_string(),
        author_external_channel_id: channel.to_string(),
        context_menu_accessibility: accessibility("menu"),
    }
}

fn text_run(t: &str) -> MessageRun {
    MessageRun::MessageText { text: t.to_string() }
}

fn emoji_run(id: &str, shortcut: Option<&str>, thumbs: Vec<Thumbnail>, custom: Option<bool>) -> MessageRun {
    MessageRun::MessageEmoji {
        emoji: Emoji {
            emoji_id: id.to_string(),
            shortcuts: shortcut.map(|s| vec![s.to_string(), ":other:".to_string()]),
            search_terms: None,
            supports_skin_tone: None,
            image: Image { thumbnails: thumbs, accessibility: accessibility("emoji") },
        },
        variant_ids: None,
        is_custome_emoji: custom,
    }
}

fn text_renderer(b: MessageRendererBase, runs: Vec<MessageRun>) -> LiveChatTextMessageRenderer {
    LiveChatTextMessageRenderer { message_renderer_base: b, message: Message { runs } }
}

fn empty_item() -> ActionItem {
    ActionItem {
        live_chat_text_message_renderer: None,
        live_chat_paid_message_renderer: None,
        live_chat_membership_item_renderer: None,
        live_chat_paid_sticker_renderer: None,
    }
}

fn action(item: ActionItem) -> Action {
    Action { add_chat_item_action: Some(AddChatItemAction { item, client_id: None }) }
}

fn text_action(r: LiveChatTextMessageRenderer) -> Action {
    action(ActionItem { live_chat_text_message_renderer: Some(r), ..empty_item() })
}

fn sticker_renderer() -> LiveChatPaidStickerRenderer {
    LiveChatPaidStickerRenderer {
        message_renderer_base: base("s1", Some("Bob"), "UC2", None),
        purchase_amount_text: PurchaseAmountText { simple_text: "$5.00".to_string() },
        sticker: Sticker {
            thumbnails: vec![thumb("https://sticker/1"), thumb("https://sticker/2")],
            accessibility: accessibility("Happy cat"),
        },
        money_chip_background_color: 0,
        money_chip_text_color: 0,
        sticker_display_width: 40,
        sticker_display_height: 40,
        background_color: 0x00FF00,
        author_name_text_color: 0,
    }
}

fn badge(custom: Option<Vec<Thumbnail>>, icon: Option<&str>, tooltip: &str) -> AuthorBadge {
    AuthorBadge {
        live_chat_author_badge_renderer: LiveChatAuthorBadgeRenderer {
            custom_thumbnail: custom.map(|thumbnails| CustomThumbnail { thumbnails }),
            icon: icon.map(|i| Icon { icon_type: i.to_string() }),
            tooltip: tooltip.to_string(),
            accessibility: accessibility(tooltip),
        },
    }
}

fn continuation(invalidation: Option<&str>, timed: Option<&str>) -> Continuation {
    Continuation {
        invalidation_continuation_data: invalidation.map(|c| InvalidationContinuationData {
            invalidation_id: InvalidationId {
                object_source: 1,
                object_id: "o".to_string(),
                topic: "t".to_string(),
                subscribe_to_gcm_topics: true,
                proto_creation_timestamp_ms: "0".to_string(),
            },
            timeout_ms: 10000,
            continuation: c.to_string(),
        }),
        timed_continuation_data: timed.map(|c| TimedContinuationData {
            timeout_ms: 5000,
            continuation: c.to_string(),
            click_tracking_params: None,
        }),
    }
}

fn response(actions: Option<Vec<Action>>, continuations: Vec<Continuation>) -> GetLiveChatResponse {
    GetLiveChatResponse {
        tracking_params: None,
        continuation_contents: GetLiveChatResponseContinuationContents {
            live_chat_continuaton: LiveChatContinuation { continuations, actions },
        },
    }
}

const PAGE: &str = r#"<html><head><link rel="canonical" href="https://www.youtube.com/watch?v=XYZ"></head>
<script>var cfg = {"INNERTUBE_API_KEY": "k1", "clientVersion": "2.1", 'continuation': 'c1'};</script></html>"#;

#[test]
fn live_page_gives_session_and_live_id() {
    let (options, live_id) = get_options_from_live_page(PAGE.to_string()).unwrap();
    assert_eq!(live_id, "XYZ");
    assert_eq!(
        options,
        RequestOptions {
            api_key: "k1".to_string(),
            client_version: "2.1".to_string(),
            continuation: "c1".to_string(),
        }
    );
}

#[test]
fn replay_marker_means_already_ended() {
    let page = format!("{PAGE}<script>{{\"isReplay\": true}}</script>");
    assert_eq!(get_options_from_live_page(page).unwrap_err(), ChatError::AlreadyEnded);
    let bare = r#"<link rel="canonical" href="https://www.youtube.com/watch?v=Q">'isReplay':true"#;
    assert_eq!(get_options_from_live_page(bare.to_string()).unwrap_err(), ChatError::AlreadyEnded);
}

#[test]
fn page_without_canonical_link_is_not_found() {
    let page = PAGE.replace("canonical", "alternate");
    assert_eq!(get_options_from_live_page(page).unwrap_err(), ChatError::NotFound);
    let page = format!("{}\"isReplay\": true", PAGE.replace("canonical", "alternate"));
    assert_eq!(get_options_from_live_page(page).unwrap_err(), ChatError::NotFound);
}

#[test]
fn page_missing_fields_is_a_schema_mismatch() {
    let page = PAGE.replace("INNERTUBE_API_KEY", "OTHER_KEY");
    assert_eq!(
        get_options_from_live_page(page).unwrap_err(),
        ChatError::SchemaMismatch(MissingField::ApiKey)
    );
    let page = PAGE.replace("\"2.1\"", "\"v2\"");
    assert_eq!(
        get_options_from_live_page(page).unwrap_err(),
        ChatError::SchemaMismatch(MissingField::ClientVersion)
    );
    let page = PAGE.replace("'continuation'", "'next'");
    assert_eq!(
        get_options_from_live_page(page).unwrap_err(),
        ChatError::SchemaMismatch(MissingField::Continuation)
    );
}

#[test]
fn session_from_matches_checks_in_order() {
    let s = |v: &str| Some(v.to_string());
    assert_eq!(session_from_matches(None, true, None, None, None).unwrap_err(), ChatError::NotFound);
    assert_eq!(
        session_from_matches(s("id"), true, s("k"), s("1"), s("c")).unwrap_err(),
        ChatError::AlreadyEnded
    );
    assert_eq!(
        session_from_matches(s("id"), false, None, None, None).unwrap_err(),
        ChatError::SchemaMismatch(MissingField::ApiKey)
    );
    assert_eq!(
        session_from_matches(s("id"), false, s("k"), None, None).unwrap_err(),
        ChatError::SchemaMismatch(MissingField::ClientVersion)
    );
    assert_eq!(
        session_from_matches(s("id"), false, s("k"), s("1"), None).unwrap_err(),
        ChatError::SchemaMismatch(MissingField::Continuation)
    );
    let (o, id) = session_from_matches(s("id"), false, s("k"), s("1"), s("c")).unwrap();
    assert_eq!((o.api_key.as_str(), o.client_version.as_str(), o.continuation.as_str(), id.as_str()), ("k", "1", "c", "id"));
}

#[test]
fn text_message_becomes_one_plain_chat_item() {
    let r = text_renderer(base("m1", Some("Alice"), "UC1", None), vec![text_run("hi")]);
    let (items, next) = parse_chat_data(response(Some(vec![text_action(r)]), vec![continuation(None, Some("t1"))]));
    assert_eq!(next, "t1");
    assert_eq!(items.len(), 1);
    let item = &items[0];
    assert_eq!(item.id, "m1");
    assert_eq!(item.author.name.as_deref(), Some("Alice"));
    assert_eq!(item.author.channel_id, "UC1");
    assert_eq!(
        item.author.thumbnail,
        Some(ImageItem { url: "https://photo/1".to_string(), alt: Some("Alice".to_string()) })
    );
    assert_eq!(item.author.badge, None);
    assert_eq!(item.message, vec![MessageItem::Text("hi".to_string())]);
    assert!(!item.is_membership && !item.is_verified && !item.is_owner && !item.is_moderator);
    assert_eq!(item.superchat, None);
    assert_eq!(item.timestamp, Some(Timestamp { unix_micros: 1_700_000_000_123_456 }));
}

#[test]
fn sticker_superchat_uses_first_sticker_image_and_label() {
    let a = action(ActionItem { live_chat_paid_sticker_renderer: Some(sticker_renderer()), ..empty_item() });
    let item = parse_action_to_chat_item(a).unwrap();
    let sc = item.superchat.unwrap();
    assert_eq!(sc.amount, "$5.00");
    assert_eq!(
        sc.sticker,
        Some(ImageItem { url: "https://sticker/1".to_string(), alt: Some("Happy cat".to_string()) })
    );
    assert_eq!(sc.color.len(), 9);
    if little_endian() {
        assert_eq!(sc.color, "#00FF0000");
    }
    assert!(item.message.is_empty());
}

#[test]
fn paid_message_superchat_has_amount_and_body_colour() {
    let paid = LiveChatPaidMessageRenderer {
        live_chat_text_message_renderer: text_renderer(base("p1", None, "UC3", None), vec![text_run("thanks")]),
        purchase_amount_text: PurchaseAmountText { simple_text: "¥500".to_string() },
        header_background_color: 1,
        header_text_color: 2,
        body_background_color: -1,
        body_text_color: 3,
        author_name_text_color: 4,
    };
    let item = parse_action_to_chat_item(action(ActionItem {
        live_chat_paid_message_renderer: Some(paid),
        ..empty_item()
    }))
    .unwrap();
    let sc = item.superchat.unwrap();
    assert_eq!(sc.amount, "¥500");
    assert_eq!(sc.color, "#FFFFFFFF");
    assert_eq!(sc.sticker, None);
    assert_eq!(item.author.name, None);
    assert_eq!(item.author.thumbnail, Some(ImageItem { url: "https://photo/1".to_string(), alt: None }));
    assert_eq!(item.message, vec![MessageItem::Text("thanks".to_string())]);
}

#[test]
fn membership_item_reads_header_runs() {
    let with_header = LiveChatMembershipItemRenderer {
        message_renderer_base: base("ms1", Some("Carol"), "UC4", None),
        header_sub_text: Some(HeaderSubText { runs: vec![text_run("Welcome"), text_run("!")] }),
        author_badges: vec![],
    };
    let item = parse_action_to_chat_item(action(ActionItem {
        live_chat_membership_item_renderer: Some(with_header),
        ..empty_item()
    }))
    .unwrap();
    assert_eq!(
        item.message,
        vec![MessageItem::Text("Welcome".to_string()), MessageItem::Text("!".to_string())]
    );
    assert_eq!(item.superchat, None);
    let without = LiveChatMembershipItemRenderer {
        message_renderer_base: base("ms2", Some("Carol"), "UC4", None),
        header_sub_text: None,
        author_badges: vec![],
    };
    let r: Renderer = renderer_from_action(action(ActionItem {
        live_chat_membership_item_renderer: Some(without),
        ..empty_item()
    }))
    .unwrap();
    assert!(r.runs().is_empty());
    assert_eq!(r.id(), "ms2");
}

#[test]
fn renderer_priority_prefers_text_over_sticker() {
    let r = text_renderer(base("t", None, "UC", None), vec![]);
    let a = action(ActionItem {
        live_chat_text_message_renderer: Some(r),
        live_chat_paid_sticker_renderer: Some(sticker_renderer()),
        ..empty_item()
    });
    let item = parse_action_to_chat_item(a).unwrap();
    assert_eq!(item.id, "t");
    assert_eq!(item.superchat, None);
}

#[test]
fn actions_without_renderer_are_skipped_in_order() {
    let a1 = text_action(text_renderer(base("a", None, "UC", None), vec![]));
    let a2 = Action { add_chat_item_action: None };
    let a3 = action(empty_item());
    let a4 = text_action(text_renderer(base("b", None, "UC", None), vec![]));
    let (items, next) = parse_chat_data(response(Some(vec![a1, a2, a3, a4]), vec![]));
    let ids: Vec<&str> = items.iter().map(|i| i.id.as_str()).collect();
    assert_eq!(ids, vec!["a", "b"]);
    assert_eq!(next, "");
}

#[test]
fn empty_or_absent_actions_give_no_items() {
    let (items, next) = parse_chat_data(response(None, vec![continuation(Some("i1"), None)]));
    assert!(items.is_empty());
    assert_eq!(next, "i1");
    let (items, next) = parse_chat_data(response(Some(vec![]), vec![continuation(None, Some("t9"))]));
    assert!(items.is_empty());
    assert_eq!(next, "t9");
}

#[test]
fn invalidation_token_wins_over_timed() {
    let (_, next) = parse_chat_data(response(
        None,
        vec![continuation(Some("inv"), Some("timed")), continuation(Some("second"), None)],
    ));
    assert_eq!(next, "inv");
    let (_, next) = parse_chat_data(response(None, vec![continuation(None, None), continuation(Some("x"), None)]));
    assert_eq!(next, "");
}

#[test]
fn runs_keep_their_order() {
    let runs = vec![
        text_run("a"),
        emoji_run("🙂", Some(":smile:"), vec![thumb("https://e/1")], Some(false)),
        text_run("b"),
    ];
    let items = parse_message(&runs);
    assert_eq!(items.len(), 3);
    assert_eq!(items[0], MessageItem::Text("a".to_string()));
    assert!(matches!(items[1], MessageItem::Emoji(_)));
    assert_eq!(items[2], MessageItem::Text("b".to_string()));
}

#[test]
fn emoji_text_is_shortcut_only_for_custom_emoji() {
    let runs = vec![
        emoji_run("UCx/abc", Some(":yt:"), vec![thumb("https://e/custom")], Some(true)),
        emoji_run("🙂", Some(":smile:"), vec![thumb("https://e/std")], None),
        emoji_run("🎉", None, vec![], Some(false)),
    ];
    let items = parse_message(&runs);
    match &items[0] {
        MessageItem::Emoji(e) => {
            assert_eq!(e.emoji_text.as_deref(), Some(":yt:"));
            assert_eq!(e.is_custome_emoji, Some(true));
            assert_eq!(
                e.image_item,
                Some(ImageItem { url: "https://e/custom".to_string(), alt: Some(":yt:".to_string()) })
            );
        }
        other => panic!("{other:?}"),
    }
    match &items[1] {
        MessageItem::Emoji(e) => {
            assert_eq!(e.emoji_text.as_deref(), Some("🙂"));
            assert_eq!(e.is_custome_emoji, None);
        }
        other => panic!("{other:?}"),
    }
    match &items[2] {
        MessageItem::Emoji(e) => {
            assert_eq!(e.emoji_text.as_deref(), Some("🎉"));
            assert_eq!(e.image_item, None);
            assert_eq!(e.is_custome_emoji, Some(false));
        }
        other => panic!("{other:?}"),
    }
}

#[test]
fn custom_thumbnail_badge_sets_membership_even_without_image() {
    let r = text_renderer(base("m", None, "UC", Some(vec![badge(Some(vec![]), None, "Member")])), vec![]);
    let item = parse_action_to_chat_item(text_action(r)).unwrap();
    assert!(item.is_membership);
    assert_eq!(item.author.badge, None);
    assert!(!item.is_owner);
}

#[test]
fn custom_thumbnail_badge_becomes_author_badge() {
    let r = text_renderer(
        base("m", None, "UC", Some(vec![badge(Some(vec![thumb("https://b/1"), thumb("https://b/2")]), None, "Member (6 months)")])),
        vec![],
    );
    let item = parse_action_to_chat_item(text_action(r)).unwrap();
    assert!(item.is_membership);
    assert_eq!(
        item.author.badge,
        Some(Badge {
            thumbnail: ImageItem { url: "https://b/1".to_string(), alt: Some("Member (6 months)".to_string()) },
            label: "Member (6 months)".to_string(),
        })
    );
}

#[test]
fn owner_verified_and_moderator_icons_set_owner_flag() {
    for icon in ["OWNER", "VERIFIED", "MODERATOR"] {
        let r = text_renderer(base("m", None, "UC", Some(vec![badge(None, Some(icon), icon)])), vec![]);
        let item = parse_action_to_chat_item(text_action(r)).unwrap();
        assert!(item.is_owner, "{icon}");
        assert!(!item.is_verified && !item.is_moderator && !item.is_membership);
    }
    let r = text_renderer(base("m", None, "UC", Some(vec![badge(None, Some("OTHER"), "x"), badge(None, None, "y")])), vec![]);
    let item = parse_action_to_chat_item(text_action(r)).unwrap();
    assert!(!item.is_owner && !item.is_membership);
}

#[test]
fn several_badges_each_set_their_flag() {
    let r = text_renderer(
        base("m", None, "UC", Some(vec![badge(None, Some("MODERATOR"), "Moderator"), badge(Some(vec![thumb("https://b")]), None, "Member")])),
        vec![],
    );
    let item = parse_action_to_chat_item(text_action(r)).unwrap();
    assert!(item.is_owner && item.is_membership);
}

#[test]
fn unparsable_timestamp_is_absent() {
    let mut b = base("m", None, "UC", None);
    b.timestamp_usec = "soon".to_string();
    let item = parse_action_to_chat_item(text_action(text_renderer(b, vec![]))).unwrap();
    assert_eq!(item.timestamp, None);
    let mut b = base("m", None, "UC", None);
    b.timestamp_usec = "-42".to_string();
    let item = parse_action_to_chat_item(text_action(text_renderer(b, vec![]))).unwrap();
    assert_eq!(item.timestamp, Some(Timestamp { unix_micros: -42 }));
}

#[test]
fn first_thumbnail_becomes_the_image() {
    assert_eq!(parse_thumbnails_to_image_item(&[], Some("x".to_string())), None);
    assert_eq!(
        parse_thumbnails_to_image_item(&[thumb("u1"), thumb("u2")], None),
        Some(ImageItem { url: "u1".to_string(), alt: None })
    );
}

fn little_endian() -> bool {
    1u16.to_ne_bytes()[0] == 1
}

#[test]
fn renderer_from_payload_keeps_its_shape() {
    let r = Renderer::from(sticker_renderer());
    assert!(matches!(r, Renderer::LiveChatPaidStickerRenderer(_)));
    assert_eq!(r.channel_id(), "UC2");
    assert_eq!(r.author_name().as_deref(), Some("Bob"));
    assert_eq!(r.thumbnails().len(), 2);
    assert!(r.author_badge().is_none());
    let r: Renderer = text_renderer(base("t", None, "UC", Some(vec![])), vec![text_run("x")]).into();
    assert_eq!(r.runs().len(), 1);
    assert_eq!(r.author_badge().map(|b| b.len()), Some(0));
    assert_eq!(r.time_stamp(), Some(Timestamp { unix_micros: 1_700_000_000_123_456 }));
}
