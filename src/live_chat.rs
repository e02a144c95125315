use vstd::prelude::*;

use crate::error::ChatError;
use crate::item::ChatItem;
use crate::parser::{
    chat_items_match, get_options_from_live_page, next_continuation, page_session, parse_chat_data,
    actions_of, session_view,
};
use crate::request::{chat_endpoint, chat_request_body, RequestOptions, CHAT_ENDPOINT, CLIENT_NAME};
use crate::youtube_types::{GetLiveChatBody, GetLiveChatResponse};

verus! {

pub const WATCH_URL_PREFIX: &'static str = "https://www.youtube.com/watch?v=";

pub const CHANNEL_URL_PREFIX: &'static str = "https://www.youtube.com/channel/";

pub const CHANNEL_URL_SUFFIX: &'static str = "/live";

/// Whether `s` parses as a URL.
pub uninterp spec fn is_well_formed_url(s: Seq<char>) -> bool;

/// Relies on `url::Url::parse`: whether the text parses as a URL.
#[verifier::external_body]
fn parses_as_url(s: &str) -> (r: bool)
    ensures
        r == is_well_formed_url(s@),
{
    url::Url::parse(s).is_ok()
}

/// The callback slot that nothing was given for.
#[derive(Debug, Clone, Copy, PartialEq, Eq, Structural)]
pub struct Empty;

/// Configuration of a client: the watch target and the four callbacks.
pub struct LiveChatClientBuilder<SF, ENF, CF, ERF> {
    live_url: Option<String>,
    on_start: SF,
    on_end: ENF,
    on_chat: CF,
    on_error: ERF,
}

impl LiveChatClientBuilder<Empty, Empty, Empty, Empty> {
    pub fn new() -> (r: Self)
        ensures
            r.target() is None,
    {
        LiveChatClientBuilder {
            live_url: None,
            on_start: Empty,
            on_end: Empty,
            on_chat: Empty,
            on_error: Empty,
        }
    }
}

impl Default for LiveChatClientBuilder<Empty, Empty, Empty, Empty> {
    fn default() -> (r: Self)
        ensures
            r.target() is None,
    {
        Self::new()
    }
}

impl<SF, ENF, CF, ERF> LiveChatClientBuilder<SF, ENF, CF, ERF> {
    /// The watch URL chosen so far.
    pub closed spec fn target(&self) -> Option<Seq<char>> {
        match self.live_url {
            Some(u) => Some(u@),
            None => None,
        }
    }

    pub fn on_start<F>(self, f: F) -> (r: LiveChatClientBuilder<F, ENF, CF, ERF>)
        ensures
            r.target() == self.target(),
    {
        LiveChatClientBuilder {
            live_url: self.live_url,
            on_start: f,
            on_end: self.on_end,
            on_chat: self.on_chat,
            on_error: self.on_error,
        }
    }

    pub fn on_end<F>(self, f: F) -> (r: LiveChatClientBuilder<SF, F, CF, ERF>)
        ensures
            r.target() == self.target(),
    {
        LiveChatClientBuilder {
            live_url: self.live_url,
            on_start: self.on_start,
            on_end: f,
            on_chat: self.on_chat,
            on_error: self.on_error,
        }
    }

    pub fn on_chat<F>(self, f: F) -> (r: LiveChatClientBuilder<SF, ENF, F, ERF>)
        ensures
            r.target() == self.target(),
    {
        LiveChatClientBuilder {
            live_url: self.live_url,
            on_start: self.on_start,
            on_end: self.on_end,
            on_chat: f,
            on_error: self.on_error,
        }
    }

    pub fn on_error<F>(self, f: F) -> (r: LiveChatClientBuilder<SF, ENF, CF, F>)
        ensures
            r.target() == self.target(),
    {
        LiveChatClientBuilder {
            live_url: self.live_url,
            on_start: self.on_start,
            on_end: self.on_end,
            on_chat: self.on_chat,
            on_error: f,
        }
    }

    /// Targets the watch page of a video id.
    pub fn live_id(self, live_id: String) -> (r: Self)
        ensures
            r.target() == Some(WATCH_URL_PREFIX@ + live_id@),
    {
        let mut url = WATCH_URL_PREFIX.to_owned();
        url.append(live_id.as_str());
        LiveChatClientBuilder { live_url: Some(url), ..self }
    }

    /// Targets the current live stream of a channel.
    pub fn channel_id(self, channel_id: String) -> (r: Self)
        ensures
            r.target() == Some(CHANNEL_URL_PREFIX@ + channel_id@ + CHANNEL_URL_SUFFIX@),
    {
        let mut url = CHANNEL_URL_PREFIX.to_owned();
        url.append(channel_id.as_str());
        url.append(CHANNEL_URL_SUFFIX);
        LiveChatClientBuilder { live_url: Some(url), ..self }
    }

    /// Targets an arbitrary URL, which must be well formed; it is kept as given.
    pub fn url(self, raw_url: &str) -> (r: Result<Self, ChatError>)
        ensures
            is_well_formed_url(raw_url@) ==> (r matches Ok(b) && b.target() == Some(raw_url@)),
            !is_well_formed_url(raw_url@) ==> (r matches Err(e) && e == ChatError::InvalidUrl),
    {
        if parses_as_url(raw_url) {
            Ok(LiveChatClientBuilder { live_url: Some(raw_url.to_owned()), ..self })
        } else {
            Err(ChatError::InvalidUrl)
        }
    }

    /// The client, without a session; fails when no watch target was chosen.
    pub fn build(self) -> (r: Result<LiveChatClient<SF, ENF, CF, ERF>, ChatError>)
        ensures
            match self.target() {
                Some(u) => r matches Ok(c) && c.url_spec() == u && c.session() is None,
                None => r matches Err(e) && e == ChatError::MissingTarget,
            },
    {
        match self.live_url {
            Some(live_url) => Ok(
                LiveChatClient {
                    live_url,
                    on_start: self.on_start,
                    on_end: self.on_end,
                    on_chat: self.on_chat,
                    on_error: self.on_error,
                    options: None,
                },
            ),
            None => Err(ChatError::MissingTarget),
        }
    }
}

/// A chat client: its watch target, callbacks and, once started, its session.
///
/// It owns the decisions of the polling protocol; the caller fetches the pages
/// and responses it asks for and hands them back.
pub struct LiveChatClient<SF, ENF, CF, ERF> {
    live_url: String,
    on_start: SF,
    on_end: ENF,
    on_chat: CF,
    on_error: ERF,
    options: Option<RequestOptions>,
}

impl<SF, ENF, CF, ERF> LiveChatClient<SF, ENF, CF, ERF> {
    /// The watch URL.
    pub closed spec fn url_spec(&self) -> Seq<char> {
        self.live_url@
    }

    /// The session parameters; absent until `start` succeeds and after `stop`.
    pub closed spec fn session(&self) -> Option<RequestOptions> {
        self.options
    }

    pub fn live_url(&self) -> (r: &String)
        ensures
            r@ == self.url_spec(),
    {
        &self.live_url
    }

    pub fn options(&self) -> (r: &Option<RequestOptions>)
        ensures
            *r == self.session(),
    {
        &self.options
    }

    pub fn start_callback(&self) -> &SF {
        &self.on_start
    }

    pub fn end_callback(&self) -> &ENF {
        &self.on_end
    }

    pub fn chat_callback(&self) -> &CF {
        &self.on_chat
    }

    pub fn error_callback(&self) -> &ERF {
        &self.on_error
    }

    /// Starts a session from the body of the watch page and returns the live id;
    /// on failure the session stays as it was.
    pub fn start(&mut self, page: String) -> (r: Result<String, ChatError>)
        ensures
            final(self).url_spec() == old(self).url_spec(),
            match r {
                Ok(live_id) => final(self).session() matches Some(o) && session_view(
                    Ok((o, live_id)),
                ) == page_session(page@),
                Err(e) => page_session(page@) == Err::<
                    (Seq<char>, Seq<char>, Seq<char>, Seq<char>),
                    ChatError,
                >(e) && final(self).session() == old(self).session(),
            },
    {
        match get_options_from_live_page(page) {
            Ok((options, live_id)) => {
                self.options = Some(options);
                Ok(live_id)
            },
            Err(e) => Err(e),
        }
    }

    /// The URL and body of the next chat fetch. Fails without a session, and
    /// when the stored continuation is empty: the stream has no next step.
    pub fn next_request(&self) -> (r: Result<(String, GetLiveChatBody), ChatError>)
        ensures
            match self.session() {
                None => r matches Err(e) && e == ChatError::NotStarted,
                Some(o) => if o.continuation@.len() == 0 {
                    r matches Err(e) && e == ChatError::AlreadyEnded
                } else {
                    r matches Ok((url, body)) && url@ == CHAT_ENDPOINT@ + o.api_key@
                        && body.continuation == o.continuation
                        && body.context.client.client_version == o.client_version
                        && body.context.client.client_name@ == CLIENT_NAME@
                },
            },
    {
        match &self.options {
            None => Err(ChatError::NotStarted),
            Some(options) => {
                if options.continuation.as_str().is_empty() {
                    Err(ChatError::AlreadyEnded)
                } else {
                    Ok((chat_endpoint(options.api_key.as_str()), chat_request_body(options)))
                }
            },
        }
    }

    /// Takes in one chat-fetch response: returns its chat items in order and
    /// replaces the stored continuation with the response's next one, keeping the
    /// API key and client version. Fails without a session, changing nothing.
    pub fn complete_execute(&mut self, response: GetLiveChatResponse) -> (r: Result<
        Vec<ChatItem>,
        ChatError,
    >)
        ensures
            final(self).url_spec() == old(self).url_spec(),
            match old(self).session() {
                None => r matches Err(e) && e == ChatError::NotStarted && final(self).session()
                    is None,
                Some(o) => {
                    &&& r matches Ok(items) && chat_items_match(items@, actions_of(response))
                    &&& final(self).session() matches Some(n) && n.api_key == o.api_key
                        && n.client_version == o.client_version && n.continuation@
                        == next_continuation(
                        response.continuation_contents.live_chat_continuaton.continuations@,
                    )
                },
            },
    {
        match self.options.take() {
            None => Err(ChatError::NotStarted),
            Some(options) => {
                let (chat_items, continuation) = parse_chat_data(response);
                self.options = Some(
                    RequestOptions {
                        api_key: options.api_key,
                        client_version: options.client_version,
                        continuation,
                    },
                );
                Ok(chat_items)
            },
        }
    }

    /// Ends the session.
    pub fn stop(&mut self)
        ensures
            final(self).url_spec() == old(self).url_spec(),
            final(self).session() is None,
    {
        self.options = None;
    }
}

} // verus!
